//! XSAVE support checks and the state-component mask of XCR0 and IA32_XSS.
//! The XSAVE instructions themselves are left to the caller.
use vstd::prelude::*;

use crate::bitfield::bit_u32;
use crate::cpuid::Features;

verus! {

/// Whether the processor described by `f` supports XSAVE.
pub fn fast_is_supported(f: Features) -> (r: bool)
    ensures
        r == bit_u32(f@.ecx, 26),
{
    f.xsave_supported()
}

/// An XSAVE state-component mask, as XCR0 and IA32_XSS hold it.
#[derive(Clone, Copy, Debug, PartialEq, Eq, Structural)]
pub struct Mask {
    val: u64,
}

impl View for Mask {
    type V = u64;

    closed spec fn view(&self) -> u64 {
        self.val
    }
}

impl Default for Mask {
    /// The empty mask.
    fn default() -> (r: Mask)
        ensures
            r@ == 0,
    {
        Mask { val: 0 }
    }
}

impl vstd::std_specs::convert::FromSpecImpl<u64> for Mask {
    open spec fn obeys_from_spec() -> bool {
        true
    }

    closed spec fn from_spec(val: u64) -> Mask {
        Mask { val }
    }
}

impl From<u64> for Mask {
    fn from(val: u64) -> (r: Mask)
        ensures
            r@ == val,
    {
        Mask { val }
    }
}

impl Mask {
    /// The mask's bits.
    pub fn bits(&self) -> (r: u64)
        ensures
            r == self@,
    {
        self.val
    }

    /// Whether any bit of the SSE state: bit 1. It does not govern whether SSE instructions run.
    pub fn sse(&self) -> (r: bool)
        ensures
            r == (self@ & 0x2u64 != 0),
    {
        self.val & 0x2u64 != 0
    }

    /// Sets the bits of the SSE state: bit 1. It does not govern whether SSE instructions run.
    pub fn enable_sse(&mut self)
        ensures
            final(self)@ == old(self)@ | 0x2u64,
    {
        self.val = self.val | 0x2u64;
    }

    /// Clears the bits of the SSE state: bit 1. It does not govern whether SSE instructions run.
    pub fn disable_sse(&mut self)
        ensures
            final(self)@ == old(self)@ & !0x2u64,
    {
        self.val = self.val & !0x2u64;
    }

    /// Whether any bit of the AVX state: bit 2. Without it AVX instructions fault.
    pub fn avx(&self) -> (r: bool)
        ensures
            r == (self@ & 0x4u64 != 0),
    {
        self.val & 0x4u64 != 0
    }

    /// Sets the bits of the AVX state: bit 2. Without it AVX instructions fault.
    pub fn enable_avx(&mut self)
        ensures
            final(self)@ == old(self)@ | 0x4u64,
    {
        self.val = self.val | 0x4u64;
    }

    /// Clears the bits of the AVX state: bit 2. Without it AVX instructions fault.
    pub fn disable_avx(&mut self)
        ensures
            final(self)@ == old(self)@ & !0x4u64,
    {
        self.val = self.val & !0x4u64;
    }

    /// Whether any bit of the MPX state: bits 3 and 4, set and cleared together.
    pub fn mpx(&self) -> (r: bool)
        ensures
            r == (self@ & 0x18u64 != 0),
    {
        self.val & 0x18u64 != 0
    }

    /// Sets the bits of the MPX state: bits 3 and 4, set and cleared together.
    pub fn enable_mpx(&mut self)
        ensures
            final(self)@ == old(self)@ | 0x18u64,
    {
        self.val = self.val | 0x18u64;
    }

    /// Clears the bits of the MPX state: bits 3 and 4, set and cleared together.
    pub fn disable_mpx(&mut self)
        ensures
            final(self)@ == old(self)@ & !0x18u64,
    {
        self.val = self.val & !0x18u64;
    }

    /// Whether any bit of the AVX-512 state: bits 5 to 7, set and cleared together. SSE and AVX must be on too.
    pub fn avx512(&self) -> (r: bool)
        ensures
            r == (self@ & 0xE0u64 != 0),
    {
        self.val & 0xE0u64 != 0
    }

    /// Sets the bits of the AVX-512 state: bits 5 to 7, set and cleared together. SSE and AVX must be on too.
    pub fn enable_avx512(&mut self)
        ensures
            final(self)@ == old(self)@ | 0xE0u64,
    {
        self.val = self.val | 0xE0u64;
    }

    /// Clears the bits of the AVX-512 state: bits 5 to 7, set and cleared together. SSE and AVX must be on too.
    pub fn disable_avx512(&mut self)
        ensures
            final(self)@ == old(self)@ & !0xE0u64,
    {
        self.val = self.val & !0xE0u64;
    }

    /// Whether any bit of the PKRU state: bit 9.
    pub fn pkru(&self) -> (r: bool)
        ensures
            r == (self@ & 0x200u64 != 0),
    {
        self.val & 0x200u64 != 0
    }

    /// Sets the bits of the PKRU state: bit 9.
    pub fn enable_pkru(&mut self)
        ensures
            final(self)@ == old(self)@ | 0x200u64,
    {
        self.val = self.val | 0x200u64;
    }

    /// Clears the bits of the PKRU state: bit 9.
    pub fn disable_pkru(&mut self)
        ensures
            final(self)@ == old(self)@ & !0x200u64,
    {
        self.val = self.val & !0x200u64;
    }
}

} // verus!
