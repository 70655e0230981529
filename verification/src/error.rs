//! The error taxonomy of the gateway: everything a batch can fail with, from
//! transport faults to malformed input values.

use vstd::prelude::*;

verus! {

use crate::catalog::{BlockType, ValueType};
use crate::value::Scalar;

/// One failure of a batch or of a single point operation. Transport faults
/// carry the driver's message, device exceptions carry the Modbus exception
/// code, and the remaining variants report what was wrong with the request
/// or the reply.
#[derive(Clone, Debug)]
pub enum ModbusError {
    ModbusError(String),
    ModbusException(u8),
    DataSizeNotMatch(usize),
    DataConvertError(ValueType),
    SlaveNotFound(String),
    ValueNotDefined(String),
    WriteInputValue(BlockType),
    InvailedValueInput(Scalar),
}

impl ModbusError {
    /// The fixed prefix under which this failure is reported.
    pub fn label(&self) -> (r: &'static str)
        ensures
            r@ == self.spec_label(),
    {
        proof {
            reveal_strlit("ModbusError");
            reveal_strlit("ModbusException");
            reveal_strlit("DataSizeNotMatch");
            reveal_strlit("DataConvertError");
            reveal_strlit("SlaveNotFound");
            reveal_strlit("ValueNotDefined");
            reveal_strlit("WriteInputValue");
            reveal_strlit("InvailedValueInput");
        }
        match self {
            ModbusError::ModbusError(_) => "ModbusError",
            ModbusError::ModbusException(_) => "ModbusException",
            ModbusError::DataSizeNotMatch(_) => "DataSizeNotMatch",
            ModbusError::DataConvertError(_) => "DataConvertError",
            ModbusError::SlaveNotFound(_) => "SlaveNotFound",
            ModbusError::ValueNotDefined(_) => "ValueNotDefined",
            ModbusError::WriteInputValue(_) => "WriteInputValue",
            ModbusError::InvailedValueInput(_) => "InvailedValueInput",
        }
    }

    pub open spec fn spec_label(self) -> Seq<char> {
        match self {
            ModbusError::ModbusError(_) => "ModbusError"@,
            ModbusError::ModbusException(_) => "ModbusException"@,
            ModbusError::DataSizeNotMatch(_) => "DataSizeNotMatch"@,
            ModbusError::DataConvertError(_) => "DataConvertError"@,
            ModbusError::SlaveNotFound(_) => "SlaveNotFound"@,
            ModbusError::ValueNotDefined(_) => "ValueNotDefined"@,
            ModbusError::WriteInputValue(_) => "WriteInputValue"@,
            ModbusError::InvailedValueInput(_) => "InvailedValueInput"@,
        }
    }
}

} // verus!
