//! The point catalog: an immutable model of the configured Modbus interfaces,
//! slave devices and named data points. Built once at startup from an
//! already-validated configuration and only read afterwards.

use vstd::prelude::*;

verus! {

use crate::assoc::{assoc_find, assoc_get, assoc_has, assoc_unique};

/// The link-layer protocol of one physical Modbus interface.
#[derive(Clone, Copy, PartialEq, Eq, Structural, Debug)]
pub enum ModbusProtocol {
    Rtu,
    Tcp,
}

/// Write-mode hint for writable points: one single-value function code, or
/// the multiple-value function code with a count of one.
#[derive(Clone, Copy, PartialEq, Eq, Structural, Debug)]
pub enum RequestFunction {
    Single,
    Multiple,
}

/// The four Modbus data blocks a point can live in.
#[derive(Clone, Copy, PartialEq, Eq, Structural, Debug)]
pub enum BlockType {
    Co,
    Di,
    Hr,
    Ir,
}

/// The value type of a point, which fixes how many 16-bit wire words carry it.
#[derive(Clone, Copy, PartialEq, Eq, Structural, Debug)]
pub enum ValueType {
    Bool,
    U16,
    I16,
    U32,
    I32,
    F32,
}

impl ValueType {
    /// Number of 16-bit wire words (or coils) that carry one value of this type.
    pub open spec fn spec_size(self) -> usize {
        match self {
            ValueType::Bool | ValueType::U16 | ValueType::I16 => 1usize,
            ValueType::U32 | ValueType::I32 | ValueType::F32 => 2usize,
        }
    }

    pub fn size(&self) -> (r: usize)
        ensures
            r == self.spec_size(),
    {
        match self {
            ValueType::Bool => 1,
            ValueType::U16 => 1,
            ValueType::I16 => 1,
            ValueType::U32 => 2,
            ValueType::I32 => 2,
            ValueType::F32 => 2,
        }
    }

    /// The name of the value type, as it reads in error reports.
    pub fn label(&self) -> (r: &'static str)
        ensures
            r@ == self.spec_label(),
    {
        proof {
            reveal_strlit("Bool");
            reveal_strlit("U16");
            reveal_strlit("I16");
            reveal_strlit("U32");
            reveal_strlit("I32");
            reveal_strlit("F32");
        }
        match self {
            ValueType::Bool => "Bool",
            ValueType::U16 => "U16",
            ValueType::I16 => "I16",
            ValueType::U32 => "U32",
            ValueType::I32 => "I32",
            ValueType::F32 => "F32",
        }
    }

    pub open spec fn spec_label(self) -> Seq<char> {
        match self {
            ValueType::Bool => seq!['B', 'o', 'o', 'l'],
            ValueType::U16 => seq!['U', '1', '6'],
            ValueType::I16 => seq!['I', '1', '6'],
            ValueType::U32 => seq!['U', '3', '2'],
            ValueType::I32 => seq!['I', '3', '2'],
            ValueType::F32 => seq!['F', '3', '2'],
        }
    }
}

impl BlockType {
    /// The name of the block, as it reads in error reports.
    pub fn label(&self) -> (r: &'static str)
        ensures
            r@ == self.spec_label(),
    {
        proof {
            reveal_strlit("Co");
            reveal_strlit("Di");
            reveal_strlit("Hr");
            reveal_strlit("Ir");
        }
        match self {
            BlockType::Co => "Co",
            BlockType::Di => "Di",
            BlockType::Hr => "Hr",
            BlockType::Ir => "Ir",
        }
    }

    pub open spec fn spec_label(self) -> Seq<char> {
        match self {
            BlockType::Co => seq!['C', 'o'],
            BlockType::Di => seq!['D', 'i'],
            BlockType::Hr => seq!['H', 'r'],
            BlockType::Ir => seq!['I', 'r'],
        }
    }
}

/// One addressable value: a register or coil offset, the block it lives in,
/// its value type and the write-mode hint for writable blocks.
#[derive(Clone, Copy, PartialEq, Eq, Structural, Debug)]
pub struct ModbusData {
    pub address: u8,
    pub block_type: BlockType,
    pub value_type: ValueType,
    pub requestfunction: RequestFunction,
}

impl ModbusData {
    pub fn new(
        address: u8,
        block_type: BlockType,
        value_type: ValueType,
        requestfunction: RequestFunction,
    ) -> (r: ModbusData)
        ensures
            r.address == address,
            r.block_type == block_type,
            r.value_type == value_type,
            r.requestfunction == requestfunction,
    {
        ModbusData { address, block_type, value_type, requestfunction }
    }

    pub fn address(&self) -> (r: u8)
        ensures
            r == self.address,
    {
        self.address
    }

    pub fn block_type(&self) -> (r: BlockType)
        ensures
            r == self.block_type,
    {
        self.block_type
    }

    pub fn value_type(&self) -> (r: ValueType)
        ensures
            r == self.value_type,
    {
        self.value_type
    }

    pub fn requestfunction(&self) -> (r: RequestFunction)
        ensures
            r == self.requestfunction,
    {
        self.requestfunction
    }

}

/// One physical device on a link: its unit id and the four name-to-point
/// maps, one per block type.
#[derive(Clone)]
pub struct SlaveData {
    pub id: u8,
    pub co: Vec<(String, ModbusData)>,
    pub di: Vec<(String, ModbusData)>,
    pub hr: Vec<(String, ModbusData)>,
    pub ir: Vec<(String, ModbusData)>,
}

impl SlaveData {
    /// No point name occurs twice within one block map.
    pub open spec fn wf(self) -> bool {
        &&& assoc_unique(self.co@)
        &&& assoc_unique(self.di@)
        &&& assoc_unique(self.hr@)
        &&& assoc_unique(self.ir@)
    }

    /// What `find` returns: the four block maps are searched in the fixed
    /// priority order coils, discrete inputs, holding registers, input
    /// registers, and the first match wins.
    pub open spec fn spec_find(self, name: Seq<char>) -> Option<ModbusData> {
        if assoc_find(self.co@, name) is Some {
            assoc_find(self.co@, name)
        } else if assoc_find(self.di@, name) is Some {
            assoc_find(self.di@, name)
        } else if assoc_find(self.hr@, name) is Some {
            assoc_find(self.hr@, name)
        } else {
            assoc_find(self.ir@, name)
        }
    }

    pub fn new(
        id: u8,
        co: Vec<(String, ModbusData)>,
        di: Vec<(String, ModbusData)>,
        hr: Vec<(String, ModbusData)>,
        ir: Vec<(String, ModbusData)>,
    ) -> (r: SlaveData)
        ensures
            r.id == id,
            r.co@ == co@,
            r.di@ == di@,
            r.hr@ == hr@,
            r.ir@ == ir@,
    {
        SlaveData { id, co, di, hr, ir }
    }

    pub fn id(&self) -> (r: u8)
        ensures
            r == self.id,
    {
        self.id
    }

    /// Looks a point name up across the four block maps in priority order.
    pub fn find(&self, name: &str) -> (r: Option<ModbusData>)
        ensures
            r == self.spec_find(name@),
    {
        if let Some(d) = assoc_get(&self.co, name) {
            return Some(*d);
        }
        if let Some(d) = assoc_get(&self.di, name) {
            return Some(*d);
        }
        if let Some(d) = assoc_get(&self.hr, name) {
            return Some(*d);
        }
        if let Some(d) = assoc_get(&self.ir, name) {
            return Some(*d);
        }
        None
    }
}

/// Block priority as a law: when a name collides across blocks, a coil
/// definition beats a discrete input, which beats a holding register, which
/// beats an input register.
pub proof fn lemma_find_priority(s: SlaveData, name: Seq<char>)
    ensures
        assoc_has(s.co@, name) ==> s.spec_find(name) == assoc_find(s.co@, name),
        !assoc_has(s.co@, name) && assoc_has(s.di@, name) ==> s.spec_find(name) == assoc_find(
            s.di@,
            name,
        ),
        !assoc_has(s.co@, name) && !assoc_has(s.di@, name) && assoc_has(s.hr@, name)
            ==> s.spec_find(name) == assoc_find(s.hr@, name),
        !assoc_has(s.co@, name) && !assoc_has(s.di@, name) && !assoc_has(s.hr@, name)
            ==> s.spec_find(name) == assoc_find(s.ir@, name),
{
}

/// One physical Modbus link: its protocol, transport address, link
/// configuration (baud rate for serial, port for TCP) and its slave devices.
#[derive(Clone)]
pub struct Interface {
    pub modbusprotocol: ModbusProtocol,
    pub address: String,
    pub config: u32,
    pub slaves: Vec<(String, SlaveData)>,
}

impl Interface {
    /// Slave names are unique and each slave's maps are well formed.
    pub open spec fn wf(self) -> bool {
        &&& assoc_unique(self.slaves@)
        &&& forall|i: int| 0 <= i < self.slaves@.len() ==> (#[trigger] self.slaves@[i].1).wf()
    }

    pub fn new(
        modbusprotocol: ModbusProtocol,
        address: String,
        config: u32,
        slaves: Vec<(String, SlaveData)>,
    ) -> (r: Interface)
        ensures
            r.modbusprotocol == modbusprotocol,
            r.address@ == address@,
            r.config == config,
            r.slaves@ == slaves@,
    {
        Interface { modbusprotocol, address, config, slaves }
    }

    pub fn modbusprotocol(&self) -> (r: ModbusProtocol)
        ensures
            r == self.modbusprotocol,
    {
        self.modbusprotocol
    }

    pub fn address(&self) -> (r: String)
        ensures
            r@ == self.address@,
    {
        self.address.clone()
    }

    pub fn config(&self) -> (r: u32)
        ensures
            r == self.config,
    {
        self.config
    }

    /// Direct keyed lookup of a slave by name.
    pub fn find_slave(&self, name: &str) -> (r: Option<&SlaveData>)
        ensures
            match r {
                Some(s) => assoc_find(self.slaves@, name@) == Some(*s),
                None => assoc_find(self.slaves@, name@) is None,
            },
    {
        assoc_get(&self.slaves, name)
    }
}

} // verus!
