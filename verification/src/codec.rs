//! The value codec: pure translation between JSON-like scalars and the 16-bit
//! wire words of a Modbus transaction, one or two words per value depending
//! on the value type. Multi-word quantities travel high word first.

use vstd::prelude::*;

verus! {

use crate::catalog::ValueType;
use crate::error::ModbusError;
use crate::value::{Scalar, int_scalar, u32_hi, u32_lo, word_pair, f32_is_finite, f32_is_nan,
    f32_in_write_range, f32_write_range_ok, spec_f32_bits_of_int, f32_bits_of_i64,
    lemma_word_pair_split};

/// The signed reading of one 16-bit wire word.
pub open spec fn i16_val(w: u16) -> int {
    if w >= 0x8000 {
        w - 0x10000
    } else {
        w as int
    }
}

/// The signed reading of a 32-bit quantity.
pub open spec fn i32_val(x: u32) -> int {
    if x >= 0x80000000 {
        x - 0x100000000
    } else {
        x as int
    }
}

/// The canonical scalar for an unbounded integer that fits a signed 64-bit
/// value: non-negative integers read as `Uint`, negative ones as `Int`.
pub open spec fn canon_int(v: int) -> Scalar {
    if v >= 0 {
        Scalar::Uint(v as u64)
    } else {
        Scalar::Int(v as i64)
    }
}

/// What decoding a wire response yields: the typed scalar on the correct
/// word count, a size-mismatch error on any other word count, and a
/// conversion error for a float pattern with no finite reading.
pub open spec fn spec_response_to_value(words: Seq<u16>, t: ValueType) -> Result<
    Scalar,
    ModbusError,
> {
    match t {
        ValueType::Bool => if words.len() == 1 {
            Ok(Scalar::Bool(words[0] != 0))
        } else {
            Err(ModbusError::DataSizeNotMatch(words.len() as usize))
        },
        ValueType::U16 => if words.len() == 1 {
            Ok(Scalar::Uint(words[0] as u64))
        } else {
            Err(ModbusError::DataSizeNotMatch(words.len() as usize))
        },
        ValueType::I16 => if words.len() == 1 {
            Ok(canon_int(i16_val(words[0])))
        } else {
            Err(ModbusError::DataSizeNotMatch(words.len() as usize))
        },
        ValueType::U32 => if words.len() == 2 {
            Ok(Scalar::Uint(word_pair(words[0], words[1]) as u64))
        } else {
            Err(ModbusError::DataSizeNotMatch(words.len() as usize))
        },
        ValueType::I32 => if words.len() == 2 {
            Ok(canon_int(i32_val(word_pair(words[0], words[1]))))
        } else {
            Err(ModbusError::DataSizeNotMatch(words.len() as usize))
        },
        ValueType::F32 => if words.len() == 2 {
            if f32_is_finite(word_pair(words[0], words[1])) {
                Ok(Scalar::Float(word_pair(words[0], words[1])))
            } else {
                Err(ModbusError::DataConvertError(ValueType::F32))
            }
        } else {
            Err(ModbusError::DataSizeNotMatch(words.len() as usize))
        },
    }
}

/// Decodes the words of a register response into a typed scalar.
pub fn response_to_value(response: &Vec<u16>, value_type: ValueType) -> (r: Result<
    Scalar,
    ModbusError,
>)
    ensures
        r == spec_response_to_value(response@, value_type),
{
    match value_type {
        ValueType::Bool => {
            if response.len() == 1 {
                Ok(Scalar::Bool(response[0] != 0))
            } else {
                Err(ModbusError::DataSizeNotMatch(response.len()))
            }
        },
        ValueType::U16 => {
            if response.len() == 1 {
                Ok(Scalar::Uint(response[0] as u64))
            } else {
                Err(ModbusError::DataSizeNotMatch(response.len()))
            }
        },
        ValueType::I16 => {
            if response.len() == 1 {
                let w = response[0];
                let v: i64 = if w >= 0x8000 {
                    w as i64 - 0x10000
                } else {
                    w as i64
                };
                Ok(int_scalar(v))
            } else {
                Err(ModbusError::DataSizeNotMatch(response.len()))
            }
        },
        ValueType::U32 => {
            if response.len() == 2 {
                let x: u32 = (response[0] as u32) * 0x10000 + (response[1] as u32);
                Ok(Scalar::Uint(x as u64))
            } else {
                Err(ModbusError::DataSizeNotMatch(response.len()))
            }
        },
        ValueType::I32 => {
            if response.len() == 2 {
                let x: u32 = (response[0] as u32) * 0x10000 + (response[1] as u32);
                let v: i64 = if x >= 0x80000000 {
                    x as i64 - 0x100000000
                } else {
                    x as i64
                };
                Ok(int_scalar(v))
            } else {
                Err(ModbusError::DataSizeNotMatch(response.len()))
            }
        },
        ValueType::F32 => {
            if response.len() == 2 {
                let x: u32 = (response[0] as u32) * 0x10000 + (response[1] as u32);
                let e: u32 = (x / 0x800000) % 0x100;
                if e != 255 {
                    Ok(Scalar::Float(x))
                } else {
                    Err(ModbusError::DataConvertError(ValueType::F32))
                }
            } else {
                Err(ModbusError::DataSizeNotMatch(response.len()))
            }
        },
    }
}

/// What encoding a scalar into wire words yields, as a pair of high and low
/// word. A one-word encoding carries its word in the low half. `None` means
/// the value is missing, of the wrong kind for the type, or out of the
/// type's range; nothing is ever clamped.
pub open spec fn spec_value_to_bytes(value: Option<Scalar>, t: ValueType, count: u16) -> Option<
    (u16, u16),
> {
    match value {
        None => None,
        Some(v) => if count == 1 {
            match t {
                ValueType::Bool => spec_encode_bool(v),
                ValueType::U16 => spec_encode_u16(v),
                ValueType::I16 => spec_encode_i16(v),
                _ => None,
            }
        } else if count == 2 {
            match t {
                ValueType::Bool => spec_encode_bool(v),
                ValueType::U16 => spec_encode_u16(v),
                ValueType::I16 => spec_encode_i16(v),
                ValueType::U32 => spec_encode_u32(v),
                ValueType::I32 => spec_encode_i32(v),
                ValueType::F32 => spec_encode_f32(v),
            }
        } else {
            None
        },
    }
}

pub open spec fn spec_encode_bool(v: Scalar) -> Option<(u16, u16)> {
    match v.spec_as_bool() {
        Some(b) => if b {
            Some((0u16, 1u16))
        } else {
            Some((0u16, 0u16))
        },
        None => None,
    }
}

pub open spec fn spec_encode_u16(v: Scalar) -> Option<(u16, u16)> {
    match v.spec_as_u64() {
        Some(u) => if u > 0xFFFF {
            None
        } else {
            Some((0u16, u as u16))
        },
        None => None,
    }
}

pub open spec fn spec_encode_i16(v: Scalar) -> Option<(u16, u16)> {
    match v.spec_as_i64() {
        Some(i) => if i < -0x7FFF || i > 0x7FFF {
            None
        } else if i >= 0 {
            Some((0u16, i as u16))
        } else {
            Some((0u16, (i + 0x10000) as u16))
        },
        None => None,
    }
}

pub open spec fn spec_encode_u32(v: Scalar) -> Option<(u16, u16)> {
    match v.spec_as_u64() {
        Some(u) => if u > 0xFFFFFFFF {
            None
        } else {
            Some((u32_hi(u as u32), u32_lo(u as u32)))
        },
        None => None,
    }
}

pub open spec fn spec_encode_i32(v: Scalar) -> Option<(u16, u16)> {
    match v.spec_as_i64() {
        Some(i) => if i < -0x7FFFFFFF || i > 0x7FFFFFFF {
            None
        } else if i >= 0 {
            Some((u32_hi(i as u32), u32_lo(i as u32)))
        } else {
            Some((u32_hi((i + 0x100000000) as u32), u32_lo((i + 0x100000000) as u32)))
        },
        None => None,
    }
}

pub open spec fn spec_encode_f32(v: Scalar) -> Option<(u16, u16)> {
    match v {
        Scalar::Uint(u) => if u > 0x7FFFFFFF {
            None
        } else {
            Some((u32_hi(spec_f32_bits_of_int(u as int)), u32_lo(spec_f32_bits_of_int(u as int))))
        },
        Scalar::Int(i) => if i < -0x7FFFFFFF || i > 0x7FFFFFFF {
            None
        } else {
            Some((u32_hi(spec_f32_bits_of_int(i as int)), u32_lo(spec_f32_bits_of_int(i as int))))
        },
        Scalar::Float(bits) => if f32_in_write_range(bits) {
            Some((u32_hi(bits), u32_lo(bits)))
        } else {
            None
        },
        _ => None,
    }
}

/// Encodes a scalar into a pair of wire words for the given value type and
/// word count, or reports an unusable value with `None`.
pub fn value_to_bytes(value: &Option<Scalar>, value_type: ValueType, count: u16) -> (r: Option<
    (u16, u16),
>)
    ensures
        r == spec_value_to_bytes(*value, value_type, count),
{
    let v = match value {
        Some(v) => *v,
        None => {
            return None;
        },
    };
    if count != 1 && count != 2 {
        return None;
    }
    match value_type {
        ValueType::Bool => encode_bool(v),
        ValueType::U16 => encode_u16(v),
        ValueType::I16 => encode_i16(v),
        ValueType::U32 => if count == 2 {
            encode_u32(v)
        } else {
            None
        },
        ValueType::I32 => if count == 2 {
            encode_i32(v)
        } else {
            None
        },
        ValueType::F32 => if count == 2 {
            encode_f32(v)
        } else {
            None
        },
    }
}

fn encode_bool(v: Scalar) -> (r: Option<(u16, u16)>)
    ensures
        r == spec_encode_bool(v),
{
    match v {
        Scalar::Bool(b) => if b {
            Some((0, 1))
        } else {
            Some((0, 0))
        },
        _ => None,
    }
}

fn encode_u16(v: Scalar) -> (r: Option<(u16, u16)>)
    ensures
        r == spec_encode_u16(v),
{
    match v {
        Scalar::Uint(u) => if u > 0xFFFF {
            None
        } else {
            Some((0, u as u16))
        },
        _ => None,
    }
}

fn encode_i16(v: Scalar) -> (r: Option<(u16, u16)>)
    ensures
        r == spec_encode_i16(v),
{
    let i = match scalar_as_i64(v) {
        Some(i) => i,
        None => {
            return None;
        },
    };
    if i < -0x7FFF || i > 0x7FFF {
        None
    } else if i >= 0 {
        Some((0, i as u16))
    } else {
        Some((0, (i + 0x10000) as u16))
    }
}

fn encode_u32(v: Scalar) -> (r: Option<(u16, u16)>)
    ensures
        r == spec_encode_u32(v),
{
    match v {
        Scalar::Uint(u) => if u > 0xFFFFFFFF {
            None
        } else {
            let x = u as u32;
            Some(((x / 0x10000) as u16, (x % 0x10000) as u16))
        },
        _ => None,
    }
}

fn encode_i32(v: Scalar) -> (r: Option<(u16, u16)>)
    ensures
        r == spec_encode_i32(v),
{
    let i = match scalar_as_i64(v) {
        Some(i) => i,
        None => {
            return None;
        },
    };
    if i < -0x7FFFFFFF || i > 0x7FFFFFFF {
        None
    } else {
        let x: u32 = if i >= 0 {
            i as u32
        } else {
            (i + 0x100000000) as u32
        };
        Some(((x / 0x10000) as u16, (x % 0x10000) as u16))
    }
}

fn encode_f32(v: Scalar) -> (r: Option<(u16, u16)>)
    ensures
        r == spec_encode_f32(v),
{
    match v {
        Scalar::Uint(u) => if u > 0x7FFFFFFF {
            None
        } else {
            let bits = f32_bits_of_i64(u as i64);
            Some(((bits / 0x10000) as u16, (bits % 0x10000) as u16))
        },
        Scalar::Int(i) => if i < -0x7FFFFFFF || i > 0x7FFFFFFF {
            None
        } else {
            let bits = f32_bits_of_i64(i);
            Some(((bits / 0x10000) as u16, (bits % 0x10000) as u16))
        },
        Scalar::Float(bits) => if f32_write_range_ok(bits) {
            Some(((bits / 0x10000) as u16, (bits % 0x10000) as u16))
        } else {
            None
        },
        _ => None,
    }
}

/// The scalars the encoder accepts for a value type: the right kind, within
/// the type's range.
pub open spec fn encodable(v: Scalar, t: ValueType) -> bool {
    match t {
        ValueType::Bool => v is Bool,
        ValueType::U16 => v matches Scalar::Uint(u) && u <= 0xFFFF,
        ValueType::I16 => (v matches Scalar::Uint(u) && u <= 0x7FFF) || (v matches Scalar::Int(i)
            && i >= -0x7FFF),
        ValueType::U32 => v matches Scalar::Uint(u) && u <= 0xFFFFFFFF,
        ValueType::I32 => (v matches Scalar::Uint(u) && u <= 0x7FFFFFFF) || (v matches Scalar::Int(
            i,
        ) && i >= -0x7FFFFFFF),
        ValueType::F32 => (v matches Scalar::Uint(u) && u <= 0x7FFFFFFF) || (v matches Scalar::Int(
            i,
        ) && i >= -0x7FFFFFFF) || (v matches Scalar::Float(bits) && f32_in_write_range(bits)),
    }
}

/// The values a type can represent on the wire and hand back unchanged: for
/// the float type these are the float scalars, since an integer written to a
/// float point reads back as the nearest float, not as an integer.
pub open spec fn scalar_in_range(v: Scalar, t: ValueType) -> bool {
    match t {
        ValueType::F32 => v matches Scalar::Float(bits) && f32_in_write_range(bits)
            && !f32_is_nan(bits),
        _ => encodable(v, t),
    }
}

/// The wire words a write puts on the link: the low word alone for a
/// one-word value, the high word then the low word for a two-word value.
pub open spec fn wire_words(w: (u16, u16), count: u16) -> Seq<u16> {
    if count == 1 {
        seq![w.1]
    } else {
        seq![w.0, w.1]
    }
}

/// Encoding succeeds exactly on the values the type accepts: well-formed
/// scalars of the wrong kind or out of range are always rejected, never
/// clamped.
pub proof fn lemma_encode_succeeds_iff(v: Scalar, t: ValueType)
    requires
        v.wf(),
    ensures
        spec_value_to_bytes(Some(v), t, t.spec_size() as u16) is Some <==> encodable(v, t),
{
}

/// Round trip: a value within its type's range, once encoded and written,
/// reads back as exactly the same value.
pub proof fn lemma_codec_round_trip(v: Scalar, t: ValueType)
    requires
        v.wf(),
        scalar_in_range(v, t),
    ensures
        spec_value_to_bytes(Some(v), t, t.spec_size() as u16) matches Some(w)
            && spec_response_to_value(wire_words(w, t.spec_size() as u16), t) == Ok::<
            Scalar,
            ModbusError,
        >(v),
{
    let w = spec_value_to_bytes(Some(v), t, t.spec_size() as u16).unwrap();
    let wire = wire_words(w, t.spec_size() as u16);
    match t {
        ValueType::Bool => {},
        ValueType::U16 => {},
        ValueType::I16 => {},
        ValueType::U32 => {
            let u = v->Uint_0;
            lemma_word_pair_split(u as u32);
        },
        ValueType::I32 => {
            match v {
                Scalar::Uint(u) => {
                    lemma_word_pair_split(u as u32);
                },
                Scalar::Int(i) => {
                    lemma_word_pair_split((i + 0x100000000) as u32);
                },
                _ => {},
            }
        },
        ValueType::F32 => {
            let bits = v->Float_0;
            lemma_word_pair_split(bits);
        },
    }
}

/// The signed 64-bit reading of a scalar, the way the encoder asks for it.
fn scalar_as_i64(v: Scalar) -> (r: Option<i64>)
    ensures
        r == v.spec_as_i64(),
{
    match v {
        Scalar::Uint(u) => if u <= 0x7FFFFFFFFFFFFFFF {
            Some(u as i64)
        } else {
            None
        },
        Scalar::Int(i) => Some(i),
        _ => None,
    }
}

} // verus!
