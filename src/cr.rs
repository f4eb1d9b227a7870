//! Control register values: CR3 and CR4. Moving values to and from the
//! registers is left to the caller.
use vstd::prelude::*;

use crate::bitfield::{bit_u64, get_bit_u64, set_bit_u64, with_bit_u64};

verus! {

/// Value of control register 3.
#[derive(Clone, Copy, Debug, PartialEq, Eq, Structural)]
pub struct Cr3 {
    data: u64,
}

impl View for Cr3 {
    type V = u64;

    closed spec fn view(&self) -> u64 {
        self.data
    }
}

impl Cr3 {
    /// The value `data`, as read from the register.
    pub fn from_raw(data: u64) -> (r: Cr3)
        ensures
            r@ == data,
    {
        Cr3 { data }
    }

    /// The value, to be written to the register.
    pub fn raw(&self) -> (r: u64)
        ensures
            r == self@,
    {
        self.data
    }

    /// Page-level write-through: bit 3.
    pub fn pwt(&self) -> (r: bool)
        ensures
            r == bit_u64(self@, 3),
    {
        get_bit_u64(self.data, 3)
    }

    /// Page-level cache disable: bit 4.
    pub fn pcd(&self) -> (r: bool)
        ensures
            r == bit_u64(self@, 4),
    {
        get_bit_u64(self.data, 4)
    }

    /// Sets page-level write-through; the other bits keep their values.
    pub fn set_pwt(&mut self, val: bool)
        ensures
            final(self)@ == with_bit_u64(old(self)@, 3, val),
    {
        self.data = set_bit_u64(self.data, 3, val);
    }

    /// Sets page-level cache disable; the other bits keep their values.
    pub fn set_pcd(&mut self, val: bool)
        ensures
            final(self)@ == with_bit_u64(old(self)@, 4, val),
    {
        self.data = set_bit_u64(self.data, 4, val);
    }

    /// Address of the P4 table: the value without its low 11 bits.
    pub fn addr(&self) -> (r: u64)
        ensures
            r == self@ & !0x7FFu64,
    {
        self.data & !0x7FF
    }

    /// Sets the P4 table address, whose low 11 bits are ignored; the low 11
    /// bits of the value keep theirs.
    pub fn set_addr(&mut self, addr: u64)
        ensures
            final(self)@ == (old(self)@ & 0x7FFu64) | (addr & !0x7FFu64),
    {
        self.data = (self.data & 0x7FF) | (addr & !0x7FF);
    }
}

/// Value of control register 4.
#[derive(Clone, Copy, Debug, PartialEq, Eq, Structural)]
pub struct Cr4 {
    data: u64,
}

impl View for Cr4 {
    type V = u64;

    closed spec fn view(&self) -> u64 {
        self.data
    }
}

impl Cr4 {
    /// The value `data`, as read from the register.
    pub fn from_raw(data: u64) -> (r: Cr4)
        ensures
            r@ == data,
    {
        Cr4 { data }
    }

    /// The value, to be written to the register.
    pub fn raw(&self) -> (r: u64)
        ensures
            r == self@,
    {
        self.data
    }

    /// Virtual-8086 mode extensions: bit 0.
    pub fn vme(&self) -> (r: bool)
        ensures
            r == bit_u64(self@, 0),
    {
        get_bit_u64(self.data, 0)
    }

    /// Turns on virtual-8086 mode extensions; the other bits keep their values.
    pub fn enable_vme(&mut self)
        ensures
            final(self)@ == with_bit_u64(old(self)@, 0, true),
    {
        self.data = set_bit_u64(self.data, 0, true);
    }

    /// Turns off virtual-8086 mode extensions; the other bits keep their values.
    pub fn disable_vme(&mut self)
        ensures
            final(self)@ == with_bit_u64(old(self)@, 0, false),
    {
        self.data = set_bit_u64(self.data, 0, false);
    }

    /// Protected-mode virtual interrupts: bit 1.
    pub fn pvi(&self) -> (r: bool)
        ensures
            r == bit_u64(self@, 1),
    {
        get_bit_u64(self.data, 1)
    }

    /// Turns on protected-mode virtual interrupts; the other bits keep their values.
    pub fn enable_pvi(&mut self)
        ensures
            final(self)@ == with_bit_u64(old(self)@, 1, true),
    {
        self.data = set_bit_u64(self.data, 1, true);
    }

    /// Turns off protected-mode virtual interrupts; the other bits keep their values.
    pub fn disable_pvi(&mut self)
        ensures
            final(self)@ == with_bit_u64(old(self)@, 1, false),
    {
        self.data = set_bit_u64(self.data, 1, false);
    }

    /// XSAVE and processor extended states: bit 18.
    pub fn osxsave(&self) -> (r: bool)
        ensures
            r == bit_u64(self@, 18),
    {
        get_bit_u64(self.data, 18)
    }

    /// Turns on xsave and processor extended states; the other bits keep their values.
    pub fn enable_osxsave(&mut self)
        ensures
            final(self)@ == with_bit_u64(old(self)@, 18, true),
    {
        self.data = set_bit_u64(self.data, 18, true);
    }

    /// Turns off xsave and processor extended states; the other bits keep their values.
    pub fn disable_osxsave(&mut self)
        ensures
            final(self)@ == with_bit_u64(old(self)@, 18, false),
    {
        self.data = set_bit_u64(self.data, 18, false);
    }
}

} // verus!
