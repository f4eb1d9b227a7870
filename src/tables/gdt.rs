//! The Global Descriptor Table and the system descriptors it holds: the null
//! descriptor, call gates, and TSS and LDT descriptors.
use vstd::prelude::*;

use super::{DtLimit, Entry, EntryHandle, EntryVariant, RegValue, Table};
use super::idt::{decode_gate, GateLayout};
use crate::bitfield::{bit_u64, bits_u64, get_bit_u64};

verus! {

/// DPL bits of the first flags word of a TSS or LDT descriptor.
pub const TSS_LDT_DPL: u16 = 0x6000;

/// Present bit of the first flags word of a TSS or LDT descriptor.
pub const TSS_LDT_PRESENT: u16 = 0x8000;

/// Limit bits 16..20 in the second flags byte of a TSS or LDT descriptor.
pub const TSS_LDT_LIMIT: u16 = 0xF;

/// Available-for-software bit of the second flags byte.
pub const TSS_LDT_AVAILABLE: u16 = 0x10;

/// Granularity bit of the second flags byte.
pub const TSS_LDT_GRANULARITY: u16 = 0x80;

/// DPL bits of the flags word of a call gate.
pub const CALL_DPL: u16 = 0x6000;

/// Present bit of the flags word of a call gate.
pub const CALL_PRESENT: u16 = 0x8000;

/// The first descriptor of the GDT, which is all zero.
#[derive(Clone, Copy, Debug, PartialEq, Eq, Structural)]
pub struct NullDescriptor {
    null: u64,
}

impl NullDescriptor {
    /// The null descriptor.
    pub fn new() -> (r: NullDescriptor)
        ensures
            r.spec_raw() == 0,
    {
        NullDescriptor { null: 0 }
    }

    pub closed spec fn spec_raw(self) -> u64 {
        self.null
    }
}

/// A call gate: the same layout as an IDT gate.
#[derive(Clone, Copy, Debug, PartialEq, Eq, Structural)]
pub struct CallGateDescriptor {
    offset0: u16,
    segsel: u16,
    flags: u16,
    offset1: u16,
    offset2: u32,
    resv: u32,
}

impl CallGateDescriptor {
    /// The fields in their in-memory order.
    pub closed spec fn layout(self) -> GateLayout {
        (self.offset0, self.segsel, self.flags, self.offset1, self.offset2, self.resv)
    }

    /// The call gate stored as the two little-endian words `lo` and `hi`.
    pub fn from_raw(lo: u64, hi: u64) -> (r: CallGateDescriptor)
        ensures
            r.layout() == decode_gate(lo, hi),
    {
        CallGateDescriptor {
            offset0: lo as u16,
            segsel: (lo >> 16) as u16,
            flags: (lo >> 32) as u16,
            offset1: (lo >> 48) as u16,
            offset2: hi as u32,
            resv: (hi >> 32) as u32,
        }
    }

    /// The flags word.
    pub fn flags(&self) -> (r: u16)
        ensures
            r == self.layout().2,
    {
        self.flags
    }

    /// Sets the flags word as given.
    pub fn set_flags(&mut self, flags: u16)
        ensures
            final(self).layout() == (
                old(self).layout().0,
                old(self).layout().1,
                flags,
                old(self).layout().3,
                old(self).layout().4,
                old(self).layout().5,
            ),
    {
        self.flags = flags;
    }

    /// The flag bits selected by `mask`.
    pub fn masked_flags(&self, mask: u16) -> (r: u16)
        ensures
            r == self.layout().2 & mask,
    {
        self.flags & mask
    }

    /// The flag bits outside `mask`.
    pub fn unmasked_flags(&self, mask: u16) -> (r: u16)
        ensures
            r == self.layout().2 & !mask,
    {
        self.flags & !mask
    }
}

/// The fields of a TSS or LDT descriptor in their in-memory order: limit,
/// base bits 0..16, first flags word, second flags byte, base bits 16..24,
/// base bits 24..56, reserved dword.
pub type SystemLayout = (u16, u16, u16, u8, u8, u32, u32);

/// The system descriptor stored as the two little-endian words `lo`, `hi`.
pub open spec fn decode_system(lo: u64, hi: u64) -> SystemLayout {
    (lo as u16, (lo >> 16) as u16, (lo >> 32) as u16, (lo >> 48) as u8, (lo >> 56) as u8, hi as u32, (hi >> 32) as u32)
}

/// The base address that the three base fields make up.
pub open spec fn system_base(l: SystemLayout) -> int {
    l.1 + l.4 * 0x1_0000 + l.5 * 0x100_0000
}

/// The base fields that hold `base`: bits 0..16, 16..24 and 24..56.
pub open spec fn split_base(base: u64) -> (u16, u8, u32) {
    (base as u16, (base >> 16) as u8, (base >> 24) as u32)
}

/// The base fields put back together give the low 56 bits of the base.
proof fn lemma_base_split(base: u64, a: u16, b: u8, c: u32)
    by (bit_vector)
    ensures
        (base as u16) + ((base >> 16) as u8) * 0x1_0000 + ((base >> 24) as u32) * 0x100_0000 == base
            & 0x00FF_FFFF_FFFF_FFFF,
        (a as u64) + ((b as u64) << 16) + ((c as u64) << 24) == a + b * 0x1_0000 + c * 0x100_0000,
        a + b * 0x1_0000 + c * 0x100_0000 <= 0x00FF_FFFF_FFFF_FFFF,
{
}

/// A TSS or LDT descriptor. Both share one layout and these accessors.
pub trait SystemDescriptor: Sized {
    spec fn layout(&self) -> SystemLayout;

    /// The descriptor stored as the two little-endian words `lo`, `hi`.
    fn from_raw(lo: u64, hi: u64) -> (r: Self)
        ensures
            r.layout() == decode_system(lo, hi),
    ;

    /// The two flags fields.
    fn flags(&self) -> (r: (u16, u8))
        ensures
            r == (self.layout().2, self.layout().3),
    ;

    /// Sets the first flags word as given.
    fn set_flags0(&mut self, flags: u16)
        ensures
            final(self).layout() == (
                old(self).layout().0,
                old(self).layout().1,
                flags,
                old(self).layout().3,
                old(self).layout().4,
                old(self).layout().5,
                old(self).layout().6,
            ),
    ;

    /// Sets the second flags byte as given.
    fn set_flags1(&mut self, flags: u8)
        ensures
            final(self).layout() == (
                old(self).layout().0,
                old(self).layout().1,
                old(self).layout().2,
                flags,
                old(self).layout().4,
                old(self).layout().5,
                old(self).layout().6,
            ),
    ;

    /// Sets the three base fields.
    fn set_base_fields(&mut self, base: (u16, u8, u32))
        ensures
            final(self).layout() == (
                old(self).layout().0,
                base.0,
                old(self).layout().2,
                old(self).layout().3,
                base.1,
                base.2,
                old(self).layout().6,
            ),
    ;

    /// Bits of the first flags word selected by `mask`.
    fn masked_flags0(&self, mask: u16) -> (r: u16)
        ensures
            r == self.layout().2 & mask,
    {
        self.flags().0 & mask
    }

    /// Bits of the first flags word outside `mask`.
    fn unmasked_flags0(&self, mask: u16) -> (r: u16)
        ensures
            r == self.layout().2 & !mask,
    {
        self.flags().0 & !mask
    }

    /// Bits of the second flags byte selected by `mask`.
    fn masked_flags1(&self, mask: u8) -> (r: u8)
        ensures
            r == self.layout().3 & mask,
    {
        self.flags().1 & mask
    }

    /// Bits of the second flags byte outside `mask`.
    fn unmasked_flags1(&self, mask: u8) -> (r: u8)
        ensures
            r == self.layout().3 & !mask,
    {
        self.flags().1 & !mask
    }

    /// Sets the base address: its bits 0..56 go to the three base fields.
    fn set_base(&mut self, base: u64)
        ensures
            (final(self).layout().1, final(self).layout().4, final(self).layout().5) == split_base(
                base,
            ),
            system_base(final(self).layout()) == base & 0x00FF_FFFF_FFFF_FFFF,
            final(self).layout().0 == old(self).layout().0,
            final(self).layout().2 == old(self).layout().2,
            final(self).layout().3 == old(self).layout().3,
            final(self).layout().6 == old(self).layout().6,
    {
        proof {
            lemma_base_split(base, 0, 0, 0);
        }
        self.set_base_fields((base as u16, (base >> 16) as u8, (base >> 24) as u32));
    }
}


/// A Task State Segment descriptor.
#[derive(Clone, Copy, Debug, PartialEq, Eq, Structural)]
pub struct TssDescriptor {
    limit: u16,
    base0: u16,
    flags0: u16,
    flags1: u8,
    base1: u8,
    base2: u32,
    resv: u32,
}

impl TssDescriptor {
    /// The base address that the three base fields make up.
    pub fn base(&self) -> (r: u64)
        ensures
            r == system_base(self.layout()),
    {
        proof {
            lemma_base_split(0, self.base0, self.base1, self.base2);
        }
        (self.base0 as u64) + ((self.base1 as u64) << 16) + ((self.base2 as u64) << 24)
    }
}

impl SystemDescriptor for TssDescriptor {
    closed spec fn layout(&self) -> SystemLayout {
        (self.limit, self.base0, self.flags0, self.flags1, self.base1, self.base2, self.resv)
    }

    fn from_raw(lo: u64, hi: u64) -> (r: TssDescriptor) {
        TssDescriptor {
            limit: lo as u16,
            base0: (lo >> 16) as u16,
            flags0: (lo >> 32) as u16,
            flags1: (lo >> 48) as u8,
            base1: (lo >> 56) as u8,
            base2: hi as u32,
            resv: (hi >> 32) as u32,
        }
    }

    fn flags(&self) -> (r: (u16, u8)) {
        (self.flags0, self.flags1)
    }

    fn set_flags0(&mut self, flags: u16) {
        self.flags0 = flags;
    }

    fn set_flags1(&mut self, flags: u8) {
        self.flags1 = flags;
    }

    fn set_base_fields(&mut self, base: (u16, u8, u32)) {
        self.base0 = base.0;
        self.base1 = base.1;
        self.base2 = base.2;
    }
}

/// A Local Descriptor Table descriptor.
#[derive(Clone, Copy, Debug, PartialEq, Eq, Structural)]
pub struct LdtDescriptor {
    limit: u16,
    base0: u16,
    flags0: u16,
    flags1: u8,
    base1: u8,
    base2: u32,
    resv: u32,
}

impl LdtDescriptor {
    /// The base address that the three base fields make up.
    pub fn base(&self) -> (r: u64)
        ensures
            r == system_base(self.layout()),
    {
        proof {
            lemma_base_split(0, self.base0, self.base1, self.base2);
        }
        (self.base0 as u64) + ((self.base1 as u64) << 16) + ((self.base2 as u64) << 24)
    }
}

impl SystemDescriptor for LdtDescriptor {
    closed spec fn layout(&self) -> SystemLayout {
        (self.limit, self.base0, self.flags0, self.flags1, self.base1, self.base2, self.resv)
    }

    fn from_raw(lo: u64, hi: u64) -> (r: LdtDescriptor) {
        LdtDescriptor {
            limit: lo as u16,
            base0: (lo >> 16) as u16,
            flags0: (lo >> 32) as u16,
            flags1: (lo >> 48) as u8,
            base1: (lo >> 56) as u8,
            base2: hi as u32,
            resv: (hi >> 32) as u32,
        }
    }

    fn flags(&self) -> (r: (u16, u8)) {
        (self.flags0, self.flags1)
    }

    fn set_flags0(&mut self, flags: u16) {
        self.flags0 = flags;
    }

    fn set_flags1(&mut self, flags: u8) {
        self.flags1 = flags;
    }

    fn set_base_fields(&mut self, base: (u16, u8, u32)) {
        self.base0 = base.0;
        self.base1 = base.1;
        self.base2 = base.2;
    }
}

impl Entry for NullDescriptor {
    fn size() -> (r: usize)
        ensures
            r == 8,
    {
        8
    }
}

impl Entry for CallGateDescriptor {
    fn size() -> (r: usize)
        ensures
            r == 16,
    {
        16
    }
}

impl Entry for TssDescriptor {
    fn size() -> (r: usize)
        ensures
            r == 16,
    {
        16
    }
}

impl Entry for LdtDescriptor {
    fn size() -> (r: usize)
        ensures
            r == 16,
    {
        16
    }
}

/// What a GDT slot holds.
#[derive(Clone, Copy, Debug)]
pub enum GdtVariant {
    Null(NullDescriptor),
    Call(CallGateDescriptor),
    Tss(TssDescriptor),
    Ldt(LdtDescriptor),
    /// A code or data segment, or a system type that has no shape here.
    Unknown,
}

impl EntryVariant for GdtVariant {
}

/// Bit 44 of a descriptor's first word: clear for system descriptors, set
/// for code and data segments.
pub open spec fn raw_is_segment(lo: u64) -> bool {
    bit_u64(lo, 44)
}

/// Handle on one slot of the GDT.
#[derive(Clone, Copy, Debug, PartialEq, Eq, Structural)]
pub struct GdtEntryHandle {
    addr: u64,
}

impl EntryHandle for GdtEntryHandle {
    type Variant = GdtVariant;

    /// The two little-endian words at the slot; a system descriptor takes
    /// both, the null descriptor only the first.
    type Raw = (u64, u64);

    closed spec fn spec_addr(&self) -> u64 {
        self.addr
    }

    fn from_addr(addr: u64) -> (r: GdtEntryHandle) {
        GdtEntryHandle { addr }
    }

    fn addr(&self) -> (r: u64) {
        self.addr
    }

    /// A zero first word is the null descriptor. Otherwise a system
    /// descriptor resolves by its type field: call gate `0b1100`, LDT
    /// `0b0010`, TSS `0b1001` or `0b1011`; all else is `Unknown`.
    fn variant(&self, raw: (u64, u64)) -> (r: GdtVariant)
        ensures
            (r is Null) == (raw.0 == 0),
            (r is Call) == (raw.0 != 0 && !raw_is_segment(raw.0) && bits_u64(raw.0, 40, 4) == 0b1100),
            (r is Ldt) == (raw.0 != 0 && !raw_is_segment(raw.0) && bits_u64(raw.0, 40, 4) == 0b0010),
            (r is Tss) == (raw.0 != 0 && !raw_is_segment(raw.0) && (bits_u64(raw.0, 40, 4) == 0b1001
                || bits_u64(raw.0, 40, 4) == 0b1011)),
            r matches GdtVariant::Call(d) ==> d.layout() == decode_gate(raw.0, raw.1),
            r matches GdtVariant::Tss(d) ==> d.layout() == decode_system(raw.0, raw.1),
            r matches GdtVariant::Ldt(d) ==> d.layout() == decode_system(raw.0, raw.1),
    {
        if raw.0 == 0 {
            return GdtVariant::Null(NullDescriptor::new());
        }
        if get_bit_u64(raw.0, 44) {
            return GdtVariant::Unknown;
        }
        let t = super::DescriptorType::type_field_from_raw64(raw.0);
        if t == 0b1100 {
            GdtVariant::Call(CallGateDescriptor::from_raw(raw.0, raw.1))
        } else if t == 0b0010 {
            GdtVariant::Ldt(LdtDescriptor::from_raw(raw.0, raw.1))
        } else if t == 0b1001 || t == 0b1011 {
            GdtVariant::Tss(TssDescriptor::from_raw(raw.0, raw.1))
        } else {
            GdtVariant::Unknown
        }
    }
}

/// GDT controller: where the table is and how many bytes of it are valid.
#[derive(Clone, Copy, Debug)]
pub struct GdtCtrl {
    limit: u16,
    addr: u64,
}

impl GdtCtrl {
    /// The GDT at `addr` whose last valid byte is at offset `limit`.
    pub fn new(addr: u64, limit: u16) -> (r: GdtCtrl)
        ensures
            r.spec_addr() == addr,
            r.spec_limit() == limit,
    {
        GdtCtrl { limit, addr }
    }
}

impl Table for GdtCtrl {
    type Handle = GdtEntryHandle;

    closed spec fn spec_limit(&self) -> u16 {
        self.limit
    }

    closed spec fn spec_addr(&self) -> u64 {
        self.addr
    }

    open spec fn spec_step() -> u16 {
        8
    }

    proof fn lemma_step() {
    }

    fn limit(&self) -> (r: u16) {
        self.limit
    }

    fn addr(&self) -> (r: u64) {
        self.addr
    }

    /// The smallest descriptor, the null descriptor, takes 8 bytes.
    fn limit_step() -> (r: u16) {
        8
    }
}

impl DtLimit for GdtCtrl {
    fn set_limit(&mut self, limit: u16) {
        self.limit = limit;
    }
}

/// The value of the GDT register.
#[derive(Clone, Copy, Debug, PartialEq, Eq, Structural)]
pub struct GdtRegValue {
    addr: u64,
    limit: u16,
}

impl RegValue for GdtRegValue {
    type HandleType = GdtCtrl;

    closed spec fn spec_addr(&self) -> u64 {
        self.addr
    }

    closed spec fn spec_limit(&self) -> u16 {
        self.limit
    }

    fn new(addr: u64, limit: u16) -> (r: GdtRegValue) {
        GdtRegValue { addr, limit }
    }

    fn addr(&self) -> (r: u64) {
        self.addr
    }

    fn limit(&self) -> (r: u16) {
        self.limit
    }

    fn set_addr(&mut self, addr: u64) {
        self.addr = addr;
    }

    fn set_limit(&mut self, limit: u16) {
        self.limit = limit;
    }

    fn into_table(self) -> (r: GdtCtrl) {
        GdtCtrl::new(self.addr, self.limit)
    }
}

} // verus!
