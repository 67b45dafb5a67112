//! Choosing the TCP port a process listens on.

use vstd::prelude::*;

verus! {

/// The lowest port handed out when no fixed port is asked for.
pub const PORT_RANGE_START: u16 = 15000;

/// One past the highest port handed out when no fixed port is asked for.
pub const PORT_RANGE_END: u16 = 25000;

/// Why no port could be had.
#[derive(Clone, Copy, Debug, PartialEq, Eq, Structural)]
pub enum PortError {
    /// The fixed port that was asked for is in use.
    FixedPortInUse(u16),
    /// No free port was found in the candidate range.
    NoFreePort,
}

/// Relies on `portpicker::is_free`: whether the port can be bound on TCP
/// and UDP right now. It depends on the machine's state, so nothing is
/// stated of the answer.
#[verifier::external_body]
fn port_is_free(port: u16) -> (r: bool) {
    portpicker::is_free(port)
}

/// Relies on `portpicker::pick_unused_port`: a port that was free when it
/// was probed, drawn at random from the candidate range or, failing that,
/// given by the operating system. Nothing is stated of the answer.
#[verifier::external_body]
fn draw_unused_port() -> (r: Option<u16>) {
    portpicker::pick_unused_port()
}

/// The outcome of choosing a port, given the fixed port asked for, whether
/// that port was found free, and the port drawn when none was fixed.
pub open spec fn port_outcome(
    fixed: Option<u16>,
    fixed_is_free: bool,
    drawn: Option<u16>,
) -> Result<u16, PortError> {
    match fixed {
        Some(p) => if fixed_is_free {
            Ok(p)
        } else {
            Err(PortError::FixedPortInUse(p))
        },
        None => match drawn {
            Some(p) => if PORT_RANGE_START <= p && p < PORT_RANGE_END {
                Ok(p)
            } else {
                Err(PortError::NoFreePort)
            },
            None => Err(PortError::NoFreePort),
        },
    }
}

/// Settles the port from what was found: a fixed port is used only if it
/// was free; otherwise the drawn port is used if there is one and it lies
/// in the candidate range.
pub fn settle_port(fixed: Option<u16>, fixed_is_free: bool, drawn: Option<u16>) -> (r: Result<
    u16,
    PortError,
>)
    ensures
        r == port_outcome(fixed, fixed_is_free, drawn),
{
    match fixed {
        Some(p) => if fixed_is_free {
            Ok(p)
        } else {
            Err(PortError::FixedPortInUse(p))
        },
        None => match drawn {
            Some(p) => if PORT_RANGE_START <= p && p < PORT_RANGE_END {
                Ok(p)
            } else {
                Err(PortError::NoFreePort)
            },
            None => Err(PortError::NoFreePort),
        },
    }
}

/// A fixed port that was found in use is refused, whatever else was found:
/// no process is started on it.
pub proof fn fixed_port_in_use_is_refused(port: u16, drawn: Option<u16>)
    ensures
        port_outcome(Some(port), false, drawn) == Err::<u16, PortError>(PortError::FixedPortInUse(port)),
{
}

/// A port chosen when none was fixed lies between 15000 and 25000.
pub proof fn chosen_port_in_range(fixed_is_free: bool, drawn: Option<u16>)
    ensures
        port_outcome(None, fixed_is_free, drawn) is Ok ==> PORT_RANGE_START <= port_outcome(
            None,
            fixed_is_free,
            drawn,
        )->Ok_0 < PORT_RANGE_END,
{
}

/// Checks that `fixed_port` is free, or, when no port is fixed, picks a
/// free port between 15000 and 25000.
///
/// A fixed port comes back unchanged or as the error that it is in use; a
/// picked port always lies in the candidate range.
pub fn pick_unused_port(fixed_port: Option<u16>) -> (r: Result<u16, PortError>)
    ensures
        fixed_port is Some ==> (r == Ok::<u16, PortError>(fixed_port->0) || r == Err::<
            u16,
            PortError,
        >(PortError::FixedPortInUse(fixed_port->0))),
        fixed_port is None ==> (r is Ok ==> PORT_RANGE_START <= r->Ok_0 < PORT_RANGE_END),
        fixed_port is None ==> (r is Err ==> r->Err_0 == PortError::NoFreePort),
{
    match fixed_port {
        Some(p) => {
            let free = port_is_free(p);
            settle_port(fixed_port, free, None)
        },
        None => {
            let drawn = draw_unused_port();
            settle_port(None, false, drawn)
        },
    }
}

} // verus!
