//! The batch executor: resolves each planned point operation to its wire
//! transactions and folds the driver's replies into results, strictly in
//! order and aborting the whole batch at the first failure. The I/O driver
//! owns the open session and hands every reply back through `deliver`;
//! everything decided here is pure.

use vstd::prelude::*;

verus! {

use vstd::string::StringExecFns;
use crate::assoc::assoc_find;
use crate::catalog::{Interface, ModbusData, ValueType};
use crate::codec::{spec_response_to_value, spec_value_to_bytes, response_to_value, value_to_bytes};
use crate::error::ModbusError;
use crate::planner::PlanItem;
use crate::resolver::{GetOrSet, ModbusFunction};
use crate::value::Scalar;

/// One wire transaction: a single Modbus request awaiting a single reply.
/// A multiple-register write carries its words as a high and low half plus
/// the count of words actually sent: the low word alone for a count of one.
#[derive(Clone, Copy, PartialEq, Eq, Structural, Debug)]
pub enum Transaction {
    ReadCoils { address: u16, count: u16 },
    ReadDiscreteInputs { address: u16, count: u16 },
    ReadHoldingRegisters { address: u16, count: u16 },
    ReadInputRegisters { address: u16, count: u16 },
    WriteSingleCoil { address: u16, value: bool },
    WriteMultipleCoils { address: u16, value: bool },
    WriteSingleRegister { address: u16, word: u16 },
    WriteMultipleRegisters { address: u16, word_hi: u16, word_lo: u16, count: u16 },
}

/// What the driver hands back for one transaction: the read payload, a bare
/// acknowledgment for a write, a device exception code, or a transport
/// failure with the driver's message.
#[derive(Clone, Debug)]
pub enum TransactionReply {
    Bits(Vec<bool>),
    Words(Vec<u16>),
    WriteAck,
    Exception(u8),
    Transport(String),
}

/// One resolved point operation: the unit id to address, the point's name
/// and value type for decoding, the resolved function, and one or two wire
/// transactions. A two-word single-register write is the only operation that
/// takes two.
pub struct PreparedItem {
    pub unit_id: u8,
    pub point_name: String,
    pub value_type: ValueType,
    pub function: ModbusFunction,
    pub first: Transaction,
    pub second: Option<Transaction>,
}

/// The wire transactions of one resolved operation, or the error its value
/// raises. A missing or unusable value for a single-register write reports
/// the null scalar, the way the gateway always did; a multiple-register
/// write reports the offending value itself.
pub open spec fn spec_transactions(
    f: ModbusFunction,
    pd: ModbusData,
    sz: u16,
    value: Option<Scalar>,
) -> Result<(Transaction, Option<Transaction>), ModbusError> {
    let addr = pd.address as u16;
    match f {
        ModbusFunction::ReadCoils => Ok((Transaction::ReadCoils { address: addr, count: sz }, None)),
        ModbusFunction::ReadDiscreteInputs => Ok(
            (Transaction::ReadDiscreteInputs { address: addr, count: sz }, None),
        ),
        ModbusFunction::ReadHoldingRegisters => Ok(
            (Transaction::ReadHoldingRegisters { address: addr, count: sz }, None),
        ),
        ModbusFunction::ReadInputRegisters => Ok(
            (Transaction::ReadInputRegisters { address: addr, count: sz }, None),
        ),
        ModbusFunction::WriteSingleCoil => match value {
            Some(v) => match v.spec_as_bool() {
                Some(b) => Ok((Transaction::WriteSingleCoil { address: addr, value: b }, None)),
                None => Err(ModbusError::InvailedValueInput(v)),
            },
            None => Err(ModbusError::InvailedValueInput(Scalar::Null)),
        },
        ModbusFunction::WriteMultipleCoils => match value {
            Some(v) => match v.spec_as_bool() {
                Some(b) => Ok((Transaction::WriteMultipleCoils { address: addr, value: b }, None)),
                None => Err(ModbusError::InvailedValueInput(v)),
            },
            None => Err(ModbusError::InvailedValueInput(Scalar::Null)),
        },
        ModbusFunction::WriteSingleRegister => match spec_value_to_bytes(value, pd.value_type, sz) {
            None => Err(ModbusError::InvailedValueInput(Scalar::Null)),
            Some(w) => if sz == 1 {
                Ok((Transaction::WriteSingleRegister { address: addr, word: w.1 }, None))
            } else {
                Ok(
                    (
                        Transaction::WriteSingleRegister { address: addr, word: w.0 },
                        Some(
                            Transaction::WriteSingleRegister {
                                address: (addr + 1) as u16,
                                word: w.1,
                            },
                        ),
                    ),
                )
            },
        },
        ModbusFunction::WriteMultipleRegisters => match spec_value_to_bytes(
            value,
            pd.value_type,
            sz,
        ) {
            None => Err(
                ModbusError::InvailedValueInput(
                    match value {
                        Some(v) => v,
                        None => Scalar::Null,
                    },
                ),
            ),
            Some(w) => Ok(
                (
                    Transaction::WriteMultipleRegisters {
                        address: addr,
                        word_hi: w.0,
                        word_lo: w.1,
                        count: sz,
                    },
                    None,
                ),
            ),
        },
    }
}

fn build_transactions(f: ModbusFunction, pd: &ModbusData, sz: u16, value: &Option<Scalar>) -> (r:
    Result<(Transaction, Option<Transaction>), ModbusError>)
    ensures
        r == spec_transactions(f, *pd, sz, *value),
{
    let addr = pd.address() as u16;
    match f {
        ModbusFunction::ReadCoils => Ok((Transaction::ReadCoils { address: addr, count: sz }, None)),
        ModbusFunction::ReadDiscreteInputs => Ok(
            (Transaction::ReadDiscreteInputs { address: addr, count: sz }, None),
        ),
        ModbusFunction::ReadHoldingRegisters => Ok(
            (Transaction::ReadHoldingRegisters { address: addr, count: sz }, None),
        ),
        ModbusFunction::ReadInputRegisters => Ok(
            (Transaction::ReadInputRegisters { address: addr, count: sz }, None),
        ),
        ModbusFunction::WriteSingleCoil => match value {
            Some(v) => match v {
                Scalar::Bool(b) => Ok(
                    (Transaction::WriteSingleCoil { address: addr, value: *b }, None),
                ),
                _ => Err(ModbusError::InvailedValueInput(*v)),
            },
            None => Err(ModbusError::InvailedValueInput(Scalar::Null)),
        },
        ModbusFunction::WriteMultipleCoils => match value {
            Some(v) => match v {
                Scalar::Bool(b) => Ok(
                    (Transaction::WriteMultipleCoils { address: addr, value: *b }, None),
                ),
                _ => Err(ModbusError::InvailedValueInput(*v)),
            },
            None => Err(ModbusError::InvailedValueInput(Scalar::Null)),
        },
        ModbusFunction::WriteSingleRegister => match value_to_bytes(value, pd.value_type(), sz) {
            None => Err(ModbusError::InvailedValueInput(Scalar::Null)),
            Some(w) => if sz == 1 {
                Ok((Transaction::WriteSingleRegister { address: addr, word: w.1 }, None))
            } else {
                Ok(
                    (
                        Transaction::WriteSingleRegister { address: addr, word: w.0 },
                        Some(Transaction::WriteSingleRegister { address: addr + 1, word: w.1 }),
                    ),
                )
            },
        },
        ModbusFunction::WriteMultipleRegisters => match value_to_bytes(value, pd.value_type(), sz) {
            None => Err(
                ModbusError::InvailedValueInput(
                    match value {
                        Some(v) => *v,
                        None => Scalar::Null,
                    },
                ),
            ),
            Some(w) => Ok(
                (
                    Transaction::WriteMultipleRegisters {
                        address: addr,
                        word_hi: w.0,
                        word_lo: w.1,
                        count: sz,
                    },
                    None,
                ),
            ),
        },
    }
}

/// Resolves one planned operation against the catalog: the slave by name,
/// the point across the slave's blocks, the function and access size by the
/// resolver table, and the wire words by the codec. Each failure reports
/// exactly the stage that failed.
pub fn prepare_item(
    interface: &Interface,
    slave_name: &String,
    point_name: &String,
    value: &Option<Scalar>,
    get_or_set: GetOrSet,
) -> (r: Result<PreparedItem, ModbusError>)
    ensures
        spec_prepare_ok(*interface, slave_name@, point_name@, *value, get_or_set) ==> (r matches Ok(
            p,
        ) && prepared_matches(p, slave_name@, point_name@, *interface, *value, get_or_set)),
        !spec_prepare_ok(*interface, slave_name@, point_name@, *value, get_or_set) ==> (r matches Err(
            e,
        ) && spec_prepare_error_matches(
            e,
            *interface,
            slave_name@,
            point_name@,
            *value,
            get_or_set,
        )),
{
    let slave = match interface.find_slave(slave_name.as_str()) {
        Some(slave) => slave,
        None => {
            return Err(ModbusError::SlaveNotFound(slave_name.clone()));
        },
    };
    let pd = match slave.find(point_name.as_str()) {
        Some(pd) => pd,
        None => {
            let info = point_name.clone().concat(" in ").concat(slave_name.as_str());
            return Err(ModbusError::ValueNotDefined(info));
        },
    };
    let (f, sz) = match ModbusFunction::inference(&pd, get_or_set) {
        Some(pair) => pair,
        None => {
            return Err(ModbusError::WriteInputValue(pd.block_type()));
        },
    };
    let (first, second) = match build_transactions(f, &pd, sz, value) {
        Ok(t) => t,
        Err(e) => {
            return Err(e);
        },
    };
    Ok(
        PreparedItem {
            unit_id: slave.id(),
            point_name: point_name.clone(),
            value_type: pd.value_type(),
            function: f,
            first,
            second,
        },
    )
}

/// What the final reply of an operation means: the decoded value for a read,
/// no value for a write, or the failure it raises. A read answered with a
/// payload of the wrong kind reads as a size mismatch of zero words.
pub open spec fn spec_interpret(f: ModbusFunction, vt: ValueType, reply: TransactionReply) -> Result<
    Option<Scalar>,
    ModbusError,
> {
    match f {
        ModbusFunction::ReadCoils | ModbusFunction::ReadDiscreteInputs => match reply {
            TransactionReply::Bits(bits) => if bits@.len() == 1 {
                Ok(Some(Scalar::Bool(bits@[0])))
            } else {
                Err(ModbusError::DataSizeNotMatch(bits@.len() as usize))
            },
            _ => Err(ModbusError::DataSizeNotMatch(0)),
        },
        ModbusFunction::ReadHoldingRegisters | ModbusFunction::ReadInputRegisters => match reply {
            TransactionReply::Words(words) => match spec_response_to_value(words@, vt) {
                Ok(v) => Ok(Some(v)),
                Err(e) => Err(e),
            },
            _ => Err(ModbusError::DataSizeNotMatch(0)),
        },
        _ => Ok(None),
    }
}

fn interpret_reply(f: ModbusFunction, vt: ValueType, reply: &TransactionReply) -> (r: Result<
    Option<Scalar>,
    ModbusError,
>)
    ensures
        r == spec_interpret(f, vt, *reply),
{
    match f {
        ModbusFunction::ReadCoils | ModbusFunction::ReadDiscreteInputs => match reply {
            TransactionReply::Bits(bits) => {
                if bits.len() == 1 {
                    Ok(Some(Scalar::Bool(bits[0])))
                } else {
                    Err(ModbusError::DataSizeNotMatch(bits.len()))
                }
            },
            _ => Err(ModbusError::DataSizeNotMatch(0)),
        },
        ModbusFunction::ReadHoldingRegisters | ModbusFunction::ReadInputRegisters => match reply {
            TransactionReply::Words(words) => match response_to_value(words, vt) {
                Ok(v) => Ok(Some(v)),
                Err(e) => Err(e),
            },
            _ => Err(ModbusError::DataSizeNotMatch(0)),
        },
        _ => Ok(None),
    }
}

/// One batch in flight: the planned operations, how far execution got, the
/// accumulated read results, and the first failure if one happened. The
/// driver alternates `next_transaction` and `deliver` until
/// `next_transaction` yields nothing, then takes the outcome.
pub struct BatchRun {
    pub items: Vec<PlanItem>,
    pub get_or_set: GetOrSet,
    pub idx: usize,
    pub current: Option<PreparedItem>,
    pub txn_second: bool,
    pub results: Vec<(String, Scalar)>,
    pub failure: Option<ModbusError>,
}

impl BatchRun {
    /// Whether the state is a sound point in the driver protocol.
    pub open spec fn wf(self) -> bool {
        &&& self.idx <= self.items@.len()
        &&& self.current is Some ==> self.idx < self.items@.len()
        &&& self.txn_second ==> self.current is Some && self.current->Some_0.second is Some
        &&& self.failure is Some ==> self.current is None
    }

    pub fn new(items: Vec<PlanItem>, get_or_set: GetOrSet) -> (r: BatchRun)
        ensures
            r.wf(),
            r.items@ == items@,
            r.get_or_set == get_or_set,
            r.idx == 0,
            r.current is None,
            r.results@.len() == 0,
            r.failure is None,
    {
        BatchRun {
            items,
            get_or_set,
            idx: 0,
            current: None,
            txn_second: false,
            results: Vec::new(),
            failure: None,
        }
    }

    /// The next wire transaction to issue, with the unit id to address, or
    /// nothing once the batch has finished or failed. Resolution of the next
    /// operation happens here; a resolution failure ends the batch.
    pub fn next_transaction(&mut self, interface: &Interface) -> (r: Option<(u8, Transaction)>)
        requires
            old(self).wf(),
        ensures
            final(self).wf(),
            final(self).items@ == old(self).items@,
            final(self).get_or_set == old(self).get_or_set,
            final(self).results@ == old(self).results@,
            old(self).failure is Some ==> r is None && *final(self) == *old(self),
            old(self).failure is None ==> match old(self).current {
                Some(p) => r == Some(
                    (
                        p.unit_id,
                        if old(self).txn_second {
                            p.second->Some_0
                        } else {
                            p.first
                        },
                    ),
                ) && *final(self) == *old(self),
                None => true,
            },
            old(self).failure is None && old(self).current is None && old(self).idx == old(self).items@.len() ==> r is None && *final(self) == *old(self),
            old(self).failure is None && old(self).current is None && old(self).idx < old(self).items@.len() ==> ({
                let item = old(self).items@[old(self).idx as int];
                if spec_prepare_ok(*interface, item.0@, item.1.0@, item.1.1, old(self).get_or_set) {
                    let expect = spec_prepared(
                        *interface,
                        item.0@,
                        item.1.0@,
                        item.1.1,
                        old(self).get_or_set,
                    );
                    &&& r == Some((expect.0, expect.3))
                    &&& final(self).current matches Some(q) && prepared_matches(
                        q,
                        item.0@,
                        item.1.0@,
                        *interface,
                        item.1.1,
                        old(self).get_or_set,
                    )
                    &&& final(self).idx == old(self).idx
                    &&& final(self).failure is None
                    &&& !final(self).txn_second
                } else {
                    &&& r is None
                    &&& final(self).failure matches Some(e2) && spec_prepare_error_matches(
                        e2,
                        *interface,
                        item.0@,
                        item.1.0@,
                        item.1.1,
                        old(self).get_or_set,
                    )
                    &&& final(self).current is None
                }
            }),
    {
        if self.failure.is_some() {
            return None;
        }
        match &self.current {
            Some(p) => {
                if self.txn_second {
                    match &p.second {
                        Some(t) => Some((p.unit_id, *t)),
                        None => None,
                    }
                } else {
                    Some((p.unit_id, p.first))
                }
            },
            None => {
                if self.idx >= self.items.len() {
                    return None;
                }
                let item = &self.items[self.idx];
                match prepare_item(interface, &item.0, &item.1.0, &item.1.1, self.get_or_set) {
                    Ok(p) => {
                        let unit = p.unit_id;
                        let first = p.first;
                        self.current = Some(p);
                        self.txn_second = false;
                        Some((unit, first))
                    },
                    Err(e) => {
                        self.failure = Some(e);
                        self.current = None;
                        None
                    },
                }
            },
        }
    }

    /// Folds one reply into the batch: a transport failure or a device
    /// exception ends the batch with that error; a successful reply advances
    /// to the second write of a register pair if one is pending, and
    /// otherwise completes the operation, recording the decoded value for a
    /// read. A reply with nothing in flight changes nothing.
    pub fn deliver(&mut self, reply: TransactionReply)
        requires
            old(self).wf(),
        ensures
            final(self).wf(),
            final(self).items@ == old(self).items@,
            final(self).get_or_set == old(self).get_or_set,
            old(self).current is None ==> *final(self) == *old(self),
            old(self).current matches Some(p) ==> match reply {
                TransactionReply::Transport(s) => final(self).failure matches Some(e)
                    && e matches ModbusError::ModbusError(s2) && s2@ == s@ && final(self).current is None && final(self).results@ == old(self).results@,
                TransactionReply::Exception(c) => final(self).failure matches Some(e)
                    && e matches ModbusError::ModbusException(c2) && c2 == c && final(self).current is None && final(self).results@ == old(self).results@,
                _ => if !old(self).txn_second && p.second is Some {
                    *final(self) == (BatchRun { txn_second: true, ..*old(self) })
                } else {
                    match spec_interpret(p.function, p.value_type, reply) {
                        Ok(opt) => final(self).failure is None && final(self).current is None
                            && final(self).idx == old(self).idx + 1 && final(self).results@
                            == (if opt is Some && old(self).get_or_set == GetOrSet::Read {
                            old(self).results@.push((p.point_name, opt->Some_0))
                        } else {
                            old(self).results@
                        }),
                        Err(e) => final(self).failure matches Some(e2) && e2 == e && final(self).current is None && final(self).results@ == old(self).results@,
                    }
                },
            },
    {
        let p = match self.current.take() {
            Some(p) => p,
            None => {
                return ;
            },
        };
        match reply {
            TransactionReply::Transport(s) => {
                self.failure = Some(ModbusError::ModbusError(s));
                self.txn_second = false;
            },
            TransactionReply::Exception(c) => {
                self.failure = Some(ModbusError::ModbusException(c));
                self.txn_second = false;
            },
            _ => {
                if !self.txn_second && p.second.is_some() {
                    self.txn_second = true;
                    self.current = Some(p);
                } else {
                    self.txn_second = false;
                    match interpret_reply(p.function, p.value_type, &reply) {
                        Ok(opt) => {
                            if let Some(v) = opt {
                                if matches!(self.get_or_set, GetOrSet::Read) {
                                    self.results.push((p.point_name, v));
                                }
                            }
                            let n = self.items.len();
                            proof {
                                assert(old(self).current is Some);
                                assert(self.idx < n);
                            }
                            self.idx = self.idx + 1;
                        },
                        Err(e) => {
                            self.failure = Some(e);
                        },
                    }
                }
            },
        }
    }

    /// Whether the batch ended in failure.
    pub fn failed(&self) -> (r: bool)
        ensures
            r == (self.failure is Some),
    {
        self.failure.is_some()
    }

    /// The outcome of the batch: the ordered read results on success, the
    /// first failure otherwise. Meaningful once `next_transaction` yields
    /// nothing.
    pub fn into_result(self) -> (r: Result<Vec<(String, Scalar)>, ModbusError>)
        ensures
            match self.failure {
                Some(e) => r matches Err(e2) && e2 == e,
                None => r matches Ok(v) && v@ == self.results@,
            },
    {
        match self.failure {
            Some(e) => Err(e),
            None => Ok(self.results),
        }
    }
}

/// Whether resolving one operation succeeds end to end: the slave exists,
/// the point exists, the resolver accepts the intent, and the value encodes.
pub open spec fn spec_prepare_ok(
    interface: Interface,
    slave: Seq<char>,
    point: Seq<char>,
    value: Option<Scalar>,
    get_or_set: GetOrSet,
) -> bool {
    match assoc_find(interface.slaves@, slave) {
        None => false,
        Some(sd) => match sd.spec_find(point) {
            None => false,
            Some(pd) => match ModbusFunction::spec_inference(pd, get_or_set) {
                None => false,
                Some(fsz) => spec_transactions(fsz.0, pd, fsz.1, value) is Ok,
            },
        },
    }
}

/// What a successful resolution yields: the unit id, the point's value
/// type, the resolved function and the one or two wire transactions.
pub open spec fn spec_prepared(
    interface: Interface,
    slave: Seq<char>,
    point: Seq<char>,
    value: Option<Scalar>,
    get_or_set: GetOrSet,
) -> (u8, ValueType, ModbusFunction, Transaction, Option<Transaction>)
    recommends
        spec_prepare_ok(interface, slave, point, value, get_or_set),
{
    let sd = assoc_find(interface.slaves@, slave)->Some_0;
    let pd = sd.spec_find(point)->Some_0;
    let fsz = ModbusFunction::spec_inference(pd, get_or_set)->Some_0;
    let t = spec_transactions(fsz.0, pd, fsz.1, value)->Ok_0;
    (sd.id, pd.value_type, fsz.0, t.0, t.1)
}

/// Whether a resolved item agrees with what resolution must yield.
pub open spec fn prepared_matches(
    p: PreparedItem,
    slave: Seq<char>,
    point: Seq<char>,
    interface: Interface,
    value: Option<Scalar>,
    get_or_set: GetOrSet,
) -> bool {
    let expect = spec_prepared(interface, slave, point, value, get_or_set);
    &&& p.unit_id == expect.0
    &&& p.point_name@ == point
    &&& p.value_type == expect.1
    &&& p.function == expect.2
    &&& p.first == expect.3
    &&& p.second == expect.4
}

/// Whether an error is exactly the one a failed resolution owes: the first
/// stage that fails names the failure, with the offending name or value.
pub open spec fn spec_prepare_error_matches(
    e: ModbusError,
    interface: Interface,
    slave: Seq<char>,
    point: Seq<char>,
    value: Option<Scalar>,
    get_or_set: GetOrSet,
) -> bool {
    match assoc_find(interface.slaves@, slave) {
        None => e matches ModbusError::SlaveNotFound(s) && s@ == slave,
        Some(sd) => match sd.spec_find(point) {
            None => e matches ModbusError::ValueNotDefined(s) && s@ == point + " in "@ + slave,
            Some(pd) => match ModbusFunction::spec_inference(pd, get_or_set) {
                None => e matches ModbusError::WriteInputValue(bt) && bt == pd.block_type,
                Some(fsz) => spec_transactions(fsz.0, pd, fsz.1, value) matches Err(e2) && e == e2,
            },
        },
    }
}

} // verus!
