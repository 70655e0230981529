//! The function resolver: the pure mapping from a point definition and a
//! read-or-write intent to the Modbus function code and the word or bit
//! count of one transaction.

use vstd::prelude::*;

verus! {

use crate::catalog::{BlockType, ModbusData, RequestFunction, ValueType};

/// The intent of a request: reading a point or writing it.
#[derive(Clone, Copy, PartialEq, Eq, Structural, Debug)]
pub enum GetOrSet {
    Read,
    Write,
}

/// The Modbus function codes the gateway issues.
#[derive(Clone, Copy, PartialEq, Eq, Structural, Debug)]
pub enum ModbusFunction {
    ReadCoils,
    ReadDiscreteInputs,
    ReadHoldingRegisters,
    ReadInputRegisters,
    WriteSingleCoil,
    WriteSingleRegister,
    WriteMultipleCoils,
    WriteMultipleRegisters,
}

impl ModbusFunction {
    /// The resolver table: reads use the read function of the point's block;
    /// writes to coils and holding registers follow the point's write-mode
    /// hint; writes to the read-only blocks resolve to nothing. The access
    /// size is the wire word count of the point's value type.
    pub open spec fn spec_inference(modbus_data: ModbusData, get_or_set: GetOrSet) -> Option<
        (ModbusFunction, u16),
    > {
        let f = match modbus_data.block_type {
            BlockType::Co => match get_or_set {
                GetOrSet::Read => Some(ModbusFunction::ReadCoils),
                GetOrSet::Write => match modbus_data.requestfunction {
                    RequestFunction::Single => Some(ModbusFunction::WriteSingleCoil),
                    RequestFunction::Multiple => Some(ModbusFunction::WriteMultipleCoils),
                },
            },
            BlockType::Di => match get_or_set {
                GetOrSet::Read => Some(ModbusFunction::ReadDiscreteInputs),
                GetOrSet::Write => None,
            },
            BlockType::Hr => match get_or_set {
                GetOrSet::Read => Some(ModbusFunction::ReadHoldingRegisters),
                GetOrSet::Write => match modbus_data.requestfunction {
                    RequestFunction::Single => Some(ModbusFunction::WriteSingleRegister),
                    RequestFunction::Multiple => Some(ModbusFunction::WriteMultipleRegisters),
                },
            },
            BlockType::Ir => match get_or_set {
                GetOrSet::Read => Some(ModbusFunction::ReadInputRegisters),
                GetOrSet::Write => None,
            },
        };
        match f {
            Some(f) => Some((f, modbus_data.value_type.spec_size() as u16)),
            None => None,
        }
    }

    /// Resolves a point definition and an intent to a function code and an
    /// access size, or to nothing for a write against a read-only block.
    pub fn inference(modbus_data: &ModbusData, get_or_set: GetOrSet) -> (r: Option<
        (ModbusFunction, u16),
    >)
        ensures
            r == Self::spec_inference(*modbus_data, get_or_set),
    {
        let modbus_function = match modbus_data.block_type() {
            BlockType::Co => match get_or_set {
                GetOrSet::Read => Some(ModbusFunction::ReadCoils),
                GetOrSet::Write => match modbus_data.requestfunction() {
                    RequestFunction::Single => Some(ModbusFunction::WriteSingleCoil),
                    RequestFunction::Multiple => Some(ModbusFunction::WriteMultipleCoils),
                },
            },
            BlockType::Di => match get_or_set {
                GetOrSet::Read => Some(ModbusFunction::ReadDiscreteInputs),
                GetOrSet::Write => None,
            },
            BlockType::Hr => match get_or_set {
                GetOrSet::Read => Some(ModbusFunction::ReadHoldingRegisters),
                GetOrSet::Write => match modbus_data.requestfunction() {
                    RequestFunction::Single => Some(ModbusFunction::WriteSingleRegister),
                    RequestFunction::Multiple => Some(ModbusFunction::WriteMultipleRegisters),
                },
            },
            BlockType::Ir => match get_or_set {
                GetOrSet::Read => Some(ModbusFunction::ReadInputRegisters),
                GetOrSet::Write => None,
            },
        };
        let modbus_function = match modbus_function {
            Some(f) => f,
            None => {
                return None;
            },
        };
        let access_size: u16 = match modbus_data.value_type() {
            ValueType::Bool | ValueType::U16 | ValueType::I16 => 1,
            ValueType::U32 | ValueType::I32 | ValueType::F32 => 2,
        };
        Some((modbus_function, access_size))
    }
}

/// The resolver table in full, row by row: every combination of block,
/// intent and write-mode hint resolves exactly as laid out, and a write
/// against either read-only block never resolves.
pub proof fn lemma_resolver_table(d: ModbusData, get_or_set: GetOrSet)
    ensures
        ({
            let sz = d.value_type.spec_size() as u16;
            &&& (d.block_type == BlockType::Co && get_or_set == GetOrSet::Read)
                ==> ModbusFunction::spec_inference(d, get_or_set) == Some(
                (ModbusFunction::ReadCoils, sz),
            )
            &&& (d.block_type == BlockType::Co && get_or_set == GetOrSet::Write
                && d.requestfunction == RequestFunction::Single)
                ==> ModbusFunction::spec_inference(d, get_or_set) == Some(
                (ModbusFunction::WriteSingleCoil, sz),
            )
            &&& (d.block_type == BlockType::Co && get_or_set == GetOrSet::Write
                && d.requestfunction == RequestFunction::Multiple)
                ==> ModbusFunction::spec_inference(d, get_or_set) == Some(
                (ModbusFunction::WriteMultipleCoils, sz),
            )
            &&& (d.block_type == BlockType::Di && get_or_set == GetOrSet::Read)
                ==> ModbusFunction::spec_inference(d, get_or_set) == Some(
                (ModbusFunction::ReadDiscreteInputs, sz),
            )
            &&& (d.block_type == BlockType::Hr && get_or_set == GetOrSet::Read)
                ==> ModbusFunction::spec_inference(d, get_or_set) == Some(
                (ModbusFunction::ReadHoldingRegisters, sz),
            )
            &&& (d.block_type == BlockType::Hr && get_or_set == GetOrSet::Write
                && d.requestfunction == RequestFunction::Single)
                ==> ModbusFunction::spec_inference(d, get_or_set) == Some(
                (ModbusFunction::WriteSingleRegister, sz),
            )
            &&& (d.block_type == BlockType::Hr && get_or_set == GetOrSet::Write
                && d.requestfunction == RequestFunction::Multiple)
                ==> ModbusFunction::spec_inference(d, get_or_set) == Some(
                (ModbusFunction::WriteMultipleRegisters, sz),
            )
            &&& (d.block_type == BlockType::Ir && get_or_set == GetOrSet::Read)
                ==> ModbusFunction::spec_inference(d, get_or_set) == Some(
                (ModbusFunction::ReadInputRegisters, sz),
            )
            &&& ((d.block_type == BlockType::Di || d.block_type == BlockType::Ir) && get_or_set
                == GetOrSet::Write) ==> ModbusFunction::spec_inference(d, get_or_set) is None
        }),
{
}

} // verus!
