//! I/O port numbers, and the writes that the port protocols here ask for.
//! The IN and OUT instructions themselves are left to the caller.
use vstd::prelude::*;

verus! {

/// A port to send data through or receive data from.
#[derive(Clone, Copy, Debug, PartialEq, Eq, Structural)]
pub struct Port {
    p: u16,
}

impl View for Port {
    type V = u16;

    closed spec fn view(&self) -> u16 {
        self.p
    }
}

impl Port {
    /// The port numbered `p`.
    pub fn number(p: u16) -> (r: Port)
        ensures
            r@ == p,
    {
        Port { p }
    }

    /// The port's number.
    pub fn value(&self) -> (r: u16)
        ensures
            r == self@,
    {
        self.p
    }
}

impl vstd::std_specs::convert::FromSpecImpl<u16> for Port {
    open spec fn obeys_from_spec() -> bool {
        true
    }

    closed spec fn from_spec(p: u16) -> Port {
        Port { p }
    }
}

impl From<u16> for Port {
    fn from(p: u16) -> (r: Port)
        ensures
            r@ == p,
    {
        Port { p }
    }
}

impl vstd::std_specs::convert::FromSpecImpl<i16> for Port {
    open spec fn obeys_from_spec() -> bool {
        true
    }

    closed spec fn from_spec(p: i16) -> Port {
        Port { p: p as u16 }
    }
}

impl From<i16> for Port {
    /// The port whose number has the bit pattern of `p`.
    fn from(p: i16) -> (r: Port)
        ensures
            r@ == p as u16,
    {
        Port { p: p as u16 }
    }
}

/// One byte to send to one port.
#[derive(Clone, Copy, Debug, PartialEq, Eq, Structural)]
pub struct PortWrite {
    pub port: u16,
    pub value: u8,
}

} // verus!
