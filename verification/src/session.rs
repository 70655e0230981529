//! The session factory's pure half: what transport to open for an interface.
//! A serial link opens the configured device at the configured baud rate
//! with fixed eight-data-bit, no-parity, one-stop-bit framing and a fixed
//! read timeout; a TCP link dials host and port joined by a colon. The
//! driver performs the opening itself.

use vstd::prelude::*;

verus! {

use vstd::string::StringExecFns;
use crate::catalog::{Interface, ModbusProtocol};
use crate::text::{spec_decimal, u32_to_string};

/// The fixed serial read timeout, in milliseconds.
pub const SERIAL_TIMEOUT_MS: u64 = 1000;

/// What to open for one batch: a fresh session per invocation, never pooled.
pub enum SessionPlan {
    Rtu { device: String, baudrate: u32 },
    Tcp { socket_addr: String },
}

/// The socket address string a TCP link dials: the host, a colon, and the
/// port in decimal.
pub open spec fn spec_socket_addr(host: Seq<char>, port: u32) -> Seq<char> {
    host + seq![':'] + spec_decimal(port as nat)
}

/// Joins a host and a port into the address string.
pub fn socket_addr_string(host: String, port: u32) -> (r: String)
    ensures
        r@ == spec_socket_addr(host@, port),
{
    proof {
        reveal_strlit(":");
    }
    let ghost host_view = host@;
    let mut s = host;
    s.append(":");
    let digits = u32_to_string(port);
    let s = s.concat(digits.as_str());
    proof {
        assert(s@ =~= spec_socket_addr(host_view, port));
    }
    s
}

/// Decides the transport of one batch from the interface's protocol,
/// address and link configuration.
pub fn session_plan(interface: &Interface) -> (r: SessionPlan)
    ensures
        interface.modbusprotocol == ModbusProtocol::Rtu ==> (r matches SessionPlan::Rtu {
            device,
            baudrate,
        } && device@ == interface.address@ && baudrate == interface.config),
        interface.modbusprotocol == ModbusProtocol::Tcp ==> (r matches SessionPlan::Tcp {
            socket_addr,
        } && socket_addr@ == spec_socket_addr(interface.address@, interface.config)),
{
    match interface.modbusprotocol() {
        ModbusProtocol::Rtu => SessionPlan::Rtu {
            device: interface.address(),
            baudrate: interface.config(),
        },
        ModbusProtocol::Tcp => SessionPlan::Tcp {
            socket_addr: socket_addr_string(interface.address(), interface.config()),
        },
    }
}

} // verus!
