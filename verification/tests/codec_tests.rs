use modbus_gateway::catalog::ValueType;
use modbus_gateway::codec::{response_to_value, value_to_bytes};
use modbus_gateway::error::ModbusError;
use modbus_gateway::value::Scalar;

fn enc(v: Scalar, t: ValueType, count: u16) -> Option<(u16, u16)> {
    value_to_bytes(&Some(v), t, count)
}

fn dec(words: Vec<u16>, t: ValueType) -> Result<Scalar, ModbusError> {
    response_to_value(&words, t)
}

#[test]
fn bool_round_trip() {
    assert_eq!(enc(Scalar::Bool(true), ValueType::Bool, 1), Some((0, 1)));
    assert_eq!(enc(Scalar::Bool(false), ValueType::Bool, 1), Some((0, 0)));
    assert_eq!(dec(vec![1], ValueType::Bool).unwrap(), Scalar::Bool(true));
    assert_eq!(dec(vec![0], ValueType::Bool).unwrap(), Scalar::Bool(false));
    assert_eq!(dec(vec![7], ValueType::Bool).unwrap(), Scalar::Bool(true));
}

#[test]
fn u16_round_trip() {
    for v in [0u64, 1, 255, 65535] {
        let (_, w) = enc(Scalar::Uint(v), ValueType::U16, 1).unwrap();
        assert_eq!(dec(vec![w], ValueType::U16).unwrap(), Scalar::Uint(v));
    }
    assert_eq!(enc(Scalar::Uint(65536), ValueType::U16, 1), None);
    assert_eq!(enc(Scalar::Bool(true), ValueType::U16, 1), None);
    assert_eq!(enc(Scalar::Int(-1), ValueType::U16, 1), None);
}

#[test]
fn i16_round_trip() {
    for v in [-32767i64, -1, 0, 1, 32767] {
        let (_, w) = enc(
            if v < 0 { Scalar::Int(v) } else { Scalar::Uint(v as u64) },
            ValueType::I16,
            1,
        )
        .unwrap();
        let decoded = dec(vec![w], ValueType::I16).unwrap();
        if v < 0 {
            assert_eq!(decoded, Scalar::Int(v));
        } else {
            assert_eq!(decoded, Scalar::Uint(v as u64));
        }
    }
    // The magnitude guard bounds both directions by the positive maximum.
    assert_eq!(enc(Scalar::Int(-32768), ValueType::I16, 1), None);
    assert_eq!(enc(Scalar::Uint(32768), ValueType::I16, 1), None);
}

#[test]
fn i16_wire_pattern_is_twos_complement() {
    let (_, w) = enc(Scalar::Int(-2), ValueType::I16, 1).unwrap();
    assert_eq!(w, 0xFFFE);
    assert_eq!(dec(vec![0xFFFE], ValueType::I16).unwrap(), Scalar::Int(-2));
}

#[test]
fn u32_round_trip() {
    for v in [0u64, 1, 65535, 65536, 0x12345678, 0xFFFFFFFF] {
        let (hi, lo) = enc(Scalar::Uint(v), ValueType::U32, 2).unwrap();
        assert_eq!(hi as u64, v >> 16);
        assert_eq!(lo as u64, v & 0xFFFF);
        assert_eq!(dec(vec![hi, lo], ValueType::U32).unwrap(), Scalar::Uint(v));
    }
    assert_eq!(enc(Scalar::Uint(0x1_0000_0000), ValueType::U32, 2), None);
    // A one-word slot never carries a four-byte type.
    assert_eq!(enc(Scalar::Uint(1), ValueType::U32, 1), None);
}

#[test]
fn i32_round_trip() {
    for v in [-2147483647i64, -65536, -1, 0, 1, 2147483647] {
        let s = if v < 0 { Scalar::Int(v) } else { Scalar::Uint(v as u64) };
        let (hi, lo) = enc(s, ValueType::I32, 2).unwrap();
        let expect_bits = (v as i32) as u32;
        assert_eq!(((hi as u32) << 16) | lo as u32, expect_bits);
        let decoded = dec(vec![hi, lo], ValueType::I32).unwrap();
        assert_eq!(decoded, s);
    }
    assert_eq!(enc(Scalar::Int(-2147483648), ValueType::I32, 2), None);
    assert_eq!(enc(Scalar::Uint(2147483648), ValueType::I32, 2), None);
}

#[test]
fn f32_round_trip_bits() {
    let bits = 3.125f32.to_bits();
    let (hi, lo) = enc(Scalar::Float(bits), ValueType::F32, 2).unwrap();
    assert_eq!(hi, (bits >> 16) as u16);
    assert_eq!(lo, (bits & 0xFFFF) as u16);
    assert_eq!(dec(vec![hi, lo], ValueType::F32).unwrap(), Scalar::Float(bits));
}

#[test]
fn f32_decode_matches_ieee() {
    // The scenario words for 3.125: high word 0x4048, low word 0x0000.
    let decoded = dec(vec![0x4048, 0x0000], ValueType::F32).unwrap();
    match decoded {
        Scalar::Float(bits) => assert_eq!(f32::from_bits(bits), 3.125f32),
        other => panic!("expected a float, got {:?}", other),
    }
}

#[test]
fn f32_integer_input_rounds_like_a_float_cast() {
    for v in [0i64, 1, 2, 3, 100, 16777216, 16777217, 16777219, 2147483647, -5, -16777217] {
        let s = if v < 0 { Scalar::Int(v) } else { Scalar::Uint(v as u64) };
        let (hi, lo) = enc(s, ValueType::F32, 2).unwrap();
        let bits = ((hi as u32) << 16) | lo as u32;
        let expect = (v as f64 as f32).to_bits();
        assert_eq!(bits, expect, "integer {} must encode as its nearest float", v);
    }
}

#[test]
fn f32_range_guard() {
    // The guard compares the ceiling of the value against the signed
    // 32-bit maximum: 2^31 is out, anything that ceils within is in.
    assert_eq!(enc(Scalar::Uint(2147483648), ValueType::F32, 2), None);
    assert_eq!(enc(Scalar::Int(-2147483648), ValueType::F32, 2), None);
    assert!(enc(Scalar::Uint(2147483647), ValueType::F32, 2).is_some());
    let too_big = 2147483648.0f32.to_bits();
    assert_eq!(enc(Scalar::Float(too_big), ValueType::F32, 2), None);
    let just_fits = 2147483520.0f32.to_bits();
    assert!(enc(Scalar::Float(just_fits), ValueType::F32, 2).is_some());
    let negative_edge = (-2147483520.0f32).to_bits();
    assert!(enc(Scalar::Float(negative_edge), ValueType::F32, 2).is_some());
    assert_eq!(enc(Scalar::Float(f32::INFINITY.to_bits()), ValueType::F32, 2), None);
    // A not-a-number pattern truncates to zero under the ceiling proxy, so
    // the guard lets it through; reading it back is what fails.
    assert!(enc(Scalar::Float(f32::NAN.to_bits()), ValueType::F32, 2).is_some());
    // Wrong-kind inputs fail, never clamp.
    assert_eq!(enc(Scalar::Bool(true), ValueType::F32, 2), None);
    assert_eq!(value_to_bytes(&None, ValueType::F32, 2), None);
}

#[test]
fn decode_size_mismatch() {
    assert!(matches!(
        dec(vec![1, 2], ValueType::Bool),
        Err(ModbusError::DataSizeNotMatch(2))
    ));
    assert!(matches!(
        dec(vec![], ValueType::U16),
        Err(ModbusError::DataSizeNotMatch(0))
    ));
    assert!(matches!(
        dec(vec![1], ValueType::U32),
        Err(ModbusError::DataSizeNotMatch(1))
    ));
    assert!(matches!(
        dec(vec![1, 2, 3], ValueType::F32),
        Err(ModbusError::DataSizeNotMatch(3))
    ));
}

#[test]
fn decode_f32_rejects_non_finite_patterns() {
    let nan = f32::NAN.to_bits();
    let r = dec(vec![(nan >> 16) as u16, (nan & 0xFFFF) as u16], ValueType::F32);
    assert!(matches!(r, Err(ModbusError::DataConvertError(ValueType::F32))));
    let inf = f32::INFINITY.to_bits();
    let r = dec(vec![(inf >> 16) as u16, (inf & 0xFFFF) as u16], ValueType::F32);
    assert!(matches!(r, Err(ModbusError::DataConvertError(ValueType::F32))));
}

#[test]
fn value_type_sizes() {
    assert_eq!(ValueType::Bool.size(), 1);
    assert_eq!(ValueType::U16.size(), 1);
    assert_eq!(ValueType::I16.size(), 1);
    assert_eq!(ValueType::U32.size(), 2);
    assert_eq!(ValueType::I32.size(), 2);
    assert_eq!(ValueType::F32.size(), 2);
}
