//! Model-specific register values. Reading and writing the registers
//! themselves is left to the caller; these types hold and interpret values.
use vstd::prelude::*;

use crate::bitfield::{bit_u32, get_bit_u32, set_bit_u32};

verus! {

/// The two halves of a model-specific register: `eax` holds bits 0..32,
/// `edx` bits 32..64.
#[derive(Clone, Copy, Debug, PartialEq, Eq, Structural)]
pub struct Info {
    pub eax: u32,
    pub edx: u32,
}

/// The 64-bit value of the register halves.
pub open spec fn msr_value(eax: u32, edx: u32) -> u64 {
    (eax as u64 | ((edx as u64) << 32)) as u64
}

/// The halves of a 64-bit value recombine to it.
proof fn lemma_msr_halves(v: u64)
    by (bit_vector)
    ensures
        msr_value(v as u32, (v >> 32) as u32) == v,
{
}

/// Model-specific register identifiers.
#[derive(Clone, Copy, Debug, PartialEq, Eq, Structural)]
pub enum Msr {
    ApicBase,
    TscDeadline,
    Xss,
}

impl Msr {
    pub open spec fn spec_id(self) -> u32 {
        match self {
            Msr::ApicBase => 0x01B,
            Msr::TscDeadline => 0x6E0,
            Msr::Xss => 0xDA0,
        }
    }

    /// The number that RDMSR and WRMSR take for the register.
    pub fn id(&self) -> (r: u32)
        ensures
            r == self.spec_id(),
    {
        match self {
            Msr::ApicBase => 0x01B,
            Msr::TscDeadline => 0x6E0,
            Msr::Xss => 0xDA0,
        }
    }
}


/// Value of the IA32_APIC_BASE model-specific register.
#[derive(Clone, Copy, Debug, PartialEq, Eq, Structural)]
pub struct ApicBase {
    eax: u32,
    edx: u32,
}

impl View for ApicBase {
    type V = Info;

    closed spec fn view(&self) -> Info {
        Info { eax: self.eax, edx: self.edx }
    }
}

impl ApicBase {
    /// The register that this value is read from and written to.
    pub fn msr() -> (r: Msr)
        ensures
            r == Msr::ApicBase,
    {
        Msr::ApicBase
    }

    /// The value read from the register as `info`.
    pub fn from_info(info: Info) -> (r: ApicBase)
        ensures
            r@ == info,
    {
        ApicBase { eax: info.eax, edx: info.edx }
    }

    /// The halves to write to the register.
    pub fn info(&self) -> (r: Info)
        ensures
            r == self@,
    {
        Info { eax: self.eax, edx: self.edx }
    }
}

/// Value of the IA32_TSC_DEADLINE model-specific register.
#[derive(Clone, Copy, Debug, PartialEq, Eq, Structural)]
pub struct TscDeadline {
    eax: u32,
    edx: u32,
}

impl View for TscDeadline {
    type V = Info;

    closed spec fn view(&self) -> Info {
        Info { eax: self.eax, edx: self.edx }
    }
}

impl TscDeadline {
    /// The register that this value is read from and written to.
    pub fn msr() -> (r: Msr)
        ensures
            r == Msr::TscDeadline,
    {
        Msr::TscDeadline
    }

    /// The value read from the register as `info`.
    pub fn from_info(info: Info) -> (r: TscDeadline)
        ensures
            r@ == info,
    {
        TscDeadline { eax: info.eax, edx: info.edx }
    }

    /// The halves to write to the register.
    pub fn info(&self) -> (r: Info)
        ensures
            r == self@,
    {
        Info { eax: self.eax, edx: self.edx }
    }
}

/// Value of the IA32_XSS model-specific register.
#[derive(Clone, Copy, Debug, PartialEq, Eq, Structural)]
pub struct Xss {
    eax: u32,
    edx: u32,
}

impl View for Xss {
    type V = Info;

    closed spec fn view(&self) -> Info {
        Info { eax: self.eax, edx: self.edx }
    }
}

impl Xss {
    /// The register that this value is read from and written to.
    pub fn msr() -> (r: Msr)
        ensures
            r == Msr::Xss,
    {
        Msr::Xss
    }

    /// The value read from the register as `info`.
    pub fn from_info(info: Info) -> (r: Xss)
        ensures
            r@ == info,
    {
        Xss { eax: info.eax, edx: info.edx }
    }

    /// The halves to write to the register.
    pub fn info(&self) -> (r: Info)
        ensures
            r == self@,
    {
        Info { eax: self.eax, edx: self.edx }
    }
}

impl ApicBase {
    /// Whether this processor is the bootstrap processor: bit 8.
    pub fn bsp(&self) -> (r: bool)
        ensures
            r == bit_u32(self@.eax, 8),
    {
        get_bit_u32(self.eax, 8)
    }

    /// Whether x2APIC mode is on: bit 10.
    pub fn x2apic_enabled(&self) -> (r: bool)
        ensures
            r == bit_u32(self@.eax, 10),
    {
        get_bit_u32(self.eax, 10)
    }

    /// Whether the APIC is globally enabled: bit 11.
    pub fn apic_global_enabled(&self) -> (r: bool)
        ensures
            r == bit_u32(self@.eax, 11),
    {
        get_bit_u32(self.eax, 11)
    }

    /// Sets the global enable bit; nothing else changes.
    pub fn apic_global_enable(&mut self)
        ensures
            bit_u32(final(self)@.eax, 11),
            final(self)@.eax & !0x800u32 == old(self)@.eax & !0x800u32,
            final(self)@.edx == old(self)@.edx,
    {
        proof {
            crate::bitfield::lemma_small_shifts();
            assert(1u32 << 11u32 == 0x800u32) by (bit_vector);
        }
        self.eax = set_bit_u32(self.eax, 11, true);
    }

    /// Clears the global enable bit; nothing else changes.
    pub fn apic_global_disable(&mut self)
        ensures
            !bit_u32(final(self)@.eax, 11),
            final(self)@.eax & !0x800u32 == old(self)@.eax & !0x800u32,
            final(self)@.edx == old(self)@.edx,
    {
        proof {
            assert(1u32 << 11u32 == 0x800u32) by (bit_vector);
        }
        self.eax = set_bit_u32(self.eax, 11, false);
    }

    /// Physical base address of the APIC registers: bits 12 and up.
    pub fn apic_base(&self) -> (r: u64)
        ensures
            r == msr_value(self@.eax, self@.edx) & !0xFFFu64,
    {
        proof {
            let (a, d) = (self.eax, self.edx);
            assert(((a & 0xFFFF_F000u32) as u64 | ((d as u64) << 32u64)) == msr_value(a, d)
                & !0xFFFu64) by (bit_vector);
        }
        (self.eax & 0xFFFF_F000) as u64 | ((self.edx as u64) << 32)
    }

    /// Moves the APIC registers to `base`, whose low 12 bits are ignored;
    /// the flag bits keep their values.
    pub fn set_apic_base(&mut self, base: u64)
        ensures
            final(self)@.eax & 0xFFFu32 == old(self)@.eax & 0xFFFu32,
            msr_value(final(self)@.eax, final(self)@.edx) & !0xFFFu64 == base & !0xFFFu64,
    {
        let a = (self.eax & 0xFFF) | (base as u32 & 0xFFFF_F000);
        let d = (base >> 32) as u32;
        proof {
            let e = self.eax;
            assert(((e & 0xFFFu32) | (base as u32 & 0xFFFF_F000u32)) & 0xFFFu32 == e & 0xFFFu32
                && msr_value((e & 0xFFFu32) | (base as u32 & 0xFFFF_F000u32), (base >> 32u64) as u32)
                & !0xFFFu64 == base & !0xFFFu64) by (bit_vector);
        }
        self.eax = a;
        self.edx = d;
    }
}

impl TscDeadline {
    /// Arms the timer for `timestamp`.
    pub fn set(&mut self, timestamp: u64)
        ensures
            msr_value(final(self)@.eax, final(self)@.edx) == timestamp,
    {
        proof {
            lemma_msr_halves(timestamp);
        }
        self.eax = timestamp as u32;
        self.edx = (timestamp >> 32) as u32;
    }

    /// Disarms the timer: a zero deadline.
    pub fn disarm(&mut self)
        ensures
            msr_value(final(self)@.eax, final(self)@.edx) == 0,
    {
        self.set(0);
    }

    /// The deadline.
    pub fn value(&self) -> (r: u64)
        ensures
            r == msr_value(self@.eax, self@.edx),
    {
        self.eax as u64 | ((self.edx as u64) << 32)
    }
}

} // verus!
