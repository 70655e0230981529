//! Verified core of a Modbus gateway: a catalog of named, typed data points
//! spread over slave devices on serial or TCP links, a pure codec between
//! JSON-like scalar values and 16-bit wire words, a resolver from point
//! definitions to Modbus functions, a request planner that groups point paths
//! by interface, and a batch execution state machine that an I/O driver steps
//! through one wire transaction at a time.

pub mod assoc;
pub mod catalog;
pub mod codec;
pub mod error;
pub mod executor;
pub mod gateway;
pub mod planner;
pub mod resolver;
pub mod session;
pub mod text;
pub mod value;

use vstd::prelude::*;

verus! {

} // verus!
