//! The Interrupt Descriptor Table: 256 sixteen-byte gates, each an
//! interrupt gate or a trap gate as its type field says.
use vstd::prelude::*;

use super::{
    descriptor_type_of, DescriptorType, Dpl, DtLimit, Entry, EntryHandle, EntryVariant,
    RegValue, Table,
};
use crate::bitfield::{
    bit_u16, bits_u16, bits_u64, get_bit_u16, get_bits_u16, lemma_small_shifts, set_bit_u16,
    set_bits_u16, with_bit_u16, with_bits_u16,
};

verus! {

/// The fields of a gate in their in-memory order: offset bits 0..16,
/// segment selector, flags, offset bits 16..32, offset bits 32..64 and the
/// reserved dword.
pub type GateLayout = (u16, u16, u16, u16, u32, u32);

/// The handler address that a gate's three offset fields make up.
pub open spec fn gate_offset(l: GateLayout) -> int {
    l.0 + l.3 * 0x1_0000 + l.4 * 0x1_0000_0000
}

/// The layout `l` with its flags word replaced by `f`.
pub open spec fn gate_with_flags(l: GateLayout, f: u16) -> GateLayout {
    (l.0, l.1, f, l.3, l.4, l.5)
}

/// The layout `l` with its handler address replaced by `offset`.
pub open spec fn gate_with_offset(l: GateLayout, offset: u64) -> GateLayout {
    (offset as u16, l.1, l.2, (offset >> 16) as u16, (offset >> 32) as u32, l.5)
}

/// A gate stored in memory as the two little-endian words `lo`, `hi`.
pub open spec fn decode_gate(lo: u64, hi: u64) -> GateLayout {
    (lo as u16, (lo >> 16) as u16, (lo >> 32) as u16, (lo >> 48) as u16, hi as u32, (hi >> 32) as u32)
}

/// The two little-endian words that store gate `l`.
pub open spec fn encode_gate(l: GateLayout) -> (u64, u64) {
    (
        (l.0 as u64) | ((l.1 as u64) << 16) | ((l.2 as u64) << 32) | ((l.3 as u64) << 48),
        (l.4 as u64) | ((l.5 as u64) << 32),
    )
}

/// A gate survives being stored as two words and loaded back.
pub proof fn lemma_gate_encoding(l: GateLayout)
    ensures
        decode_gate(encode_gate(l).0, encode_gate(l).1) == l,
{
    let (a, b, c, d, e, f) = l;
    assert({
        let lo = (a as u64) | ((b as u64) << 16) | ((c as u64) << 32) | ((d as u64) << 48);
        let hi = (e as u64) | ((f as u64) << 32);
        &&& lo as u16 == a
        &&& (lo >> 16) as u16 == b
        &&& (lo >> 32) as u16 == c
        &&& (lo >> 48) as u16 == d
        &&& hi as u32 == e
        &&& (hi >> 32) as u32 == f
    }) by (bit_vector);
}

/// The three offset fields of a 64-bit address put back together give the
/// address, and the sum fits in 64 bits.
proof fn lemma_offset_split(x: u64, a: u16, b: u16, c: u32)
    by (bit_vector)
    ensures
        (x as u16) + ((x >> 16) as u16) * 0x1_0000 + ((x >> 32) as u32) * 0x1_0000_0000 == x,
        (a as u64) + ((b as u64) << 16) + ((c as u64) << 32) == a + b * 0x1_0000 + c
            * 0x1_0000_0000,
        a + b * 0x1_0000 + c * 0x1_0000_0000 <= 0xFFFF_FFFF_FFFF_FFFF,
        ((x >> 0) & 0xFFFF) as u16 == x as u16,
        ((x >> 16) & 0xFFFF) as u16 == (x >> 16) as u16,
        ((x >> 32) & 0xFFFF_FFFF) as u32 == (x >> 32) as u32,
{
}

/// The interrupt vectors that the architecture defines.
#[derive(Clone, Copy, Debug, PartialEq, Eq, Structural)]
pub enum InterruptVector {
    DivideError,
    DebugException,
    Nmi,
    Breakpoint,
    Overflow,
    BoundRange,
    InvalidOpcode,
    NoMath,
    DoubleFault,
    InvalidTss,
    SegmentNotPresent,
    StackSegmentFault,
    GeneralProtection,
    PageFault,
    MathFault,
    AlignmentCheck,
    MachineCheck,
    SimdException,
    VirtualizationException,
}

impl InterruptVector {
    pub open spec fn spec_number(self) -> u8 {
        match self {
            InterruptVector::DivideError => 0,
            InterruptVector::DebugException => 1,
            InterruptVector::Nmi => 2,
            InterruptVector::Breakpoint => 3,
            InterruptVector::Overflow => 4,
            InterruptVector::BoundRange => 5,
            InterruptVector::InvalidOpcode => 6,
            InterruptVector::NoMath => 7,
            InterruptVector::DoubleFault => 8,
            InterruptVector::InvalidTss => 10,
            InterruptVector::SegmentNotPresent => 11,
            InterruptVector::StackSegmentFault => 12,
            InterruptVector::GeneralProtection => 13,
            InterruptVector::PageFault => 14,
            InterruptVector::MathFault => 16,
            InterruptVector::AlignmentCheck => 17,
            InterruptVector::MachineCheck => 18,
            InterruptVector::SimdException => 19,
            InterruptVector::VirtualizationException => 20,
        }
    }

    /// The vector's number: its slot in the IDT.
    pub fn number(&self) -> (r: u8)
        ensures
            r == self.spec_number(),
    {
        match self {
            InterruptVector::DivideError => 0,
            InterruptVector::DebugException => 1,
            InterruptVector::Nmi => 2,
            InterruptVector::Breakpoint => 3,
            InterruptVector::Overflow => 4,
            InterruptVector::BoundRange => 5,
            InterruptVector::InvalidOpcode => 6,
            InterruptVector::NoMath => 7,
            InterruptVector::DoubleFault => 8,
            InterruptVector::InvalidTss => 10,
            InterruptVector::SegmentNotPresent => 11,
            InterruptVector::StackSegmentFault => 12,
            InterruptVector::GeneralProtection => 13,
            InterruptVector::PageFault => 14,
            InterruptVector::MathFault => 16,
            InterruptVector::AlignmentCheck => 17,
            InterruptVector::MachineCheck => 18,
            InterruptVector::SimdException => 19,
            InterruptVector::VirtualizationException => 20,
        }
    }
}

/// Interrupt Stack Table selector.
#[derive(Clone, Copy, Debug, PartialEq, Eq, Structural)]
pub enum Ist {
    Ist0,
    Ist1,
    Ist2,
    Ist3,
}

/// The IST selector numbered `v`, for `v` in `0 ..= 3`.
pub open spec fn ist_of(v: u16) -> Ist {
    if v == 0 {
        Ist::Ist0
    } else if v == 1 {
        Ist::Ist1
    } else if v == 2 {
        Ist::Ist2
    } else {
        Ist::Ist3
    }
}

impl Ist {
    pub open spec fn spec_num(self) -> u16 {
        match self {
            Ist::Ist0 => 0,
            Ist::Ist1 => 1,
            Ist::Ist2 => 2,
            Ist::Ist3 => 3,
        }
    }

    /// The number of the selector, from 0 to 3.
    pub fn num(&self) -> (r: u16)
        ensures
            r == self.spec_num(),
            ist_of(r) == *self,
    {
        match self {
            Ist::Ist0 => 0,
            Ist::Ist1 => 1,
            Ist::Ist2 => 2,
            Ist::Ist3 => 3,
        }
    }
}

/// An IDT gate. Both gate kinds share one layout; the accessors below read
/// and write its fields, and each field setter leaves the other fields as
/// they were.
pub trait IdtGate: Entry {
    /// Fields of this gate.
    spec fn layout(&self) -> GateLayout;

    /// The offset fields as they are stored: bits 0..16, 16..32, 32..64.
    fn offset_fields(&self) -> (r: (u16, u16, u32))
        ensures
            r == (self.layout().0, self.layout().3, self.layout().4),
    ;

    /// Sets the three offset fields.
    fn set_offset_fields(&mut self, offset: (u16, u16, u32))
        ensures
            final(self).layout() == (
                offset.0,
                old(self).layout().1,
                old(self).layout().2,
                offset.1,
                offset.2,
                old(self).layout().5,
            ),
    ;

    /// Segment selector.
    fn segsel(&self) -> (r: u16)
        ensures
            r == self.layout().1,
    ;

    /// Sets the segment selector.
    fn set_segsel(&mut self, ss: u16)
        ensures
            final(self).layout() == (
                old(self).layout().0,
                ss,
                old(self).layout().2,
                old(self).layout().3,
                old(self).layout().4,
                old(self).layout().5,
            ),
    ;

    /// The whole flags word.
    fn flags(&self) -> (r: u16)
        ensures
            r == self.layout().2,
    ;

    /// Sets the whole flags word as given, whatever bits it holds.
    fn set_flags(&mut self, f: u16)
        ensures
            final(self).layout() == gate_with_flags(old(self).layout(), f),
    ;

    /// Address of the handler: the three offset fields put together.
    fn offset(&self) -> (r: u64)
        ensures
            r == gate_offset(self.layout()),
    {
        let (a, b, c) = self.offset_fields();
        proof {
            lemma_offset_split(0, a, b, c);
        }
        (a as u64) + ((b as u64) << 16) + ((c as u64) << 32)
    }

    /// Sets the handler address, split over the three offset fields.
    fn set_offset(&mut self, offset: u64)
        ensures
            final(self).layout() == gate_with_offset(old(self).layout(), offset),
            gate_offset(final(self).layout()) == offset,
    {
        proof {
            lemma_offset_split(offset, 0, 0, 0);
        }
        let a = (offset >> 0) & 0xFFFF;
        let b = (offset >> 16) & 0xFFFF;
        let c = (offset >> 32) & 0xFFFF_FFFF;
        self.set_offset_fields((a as u16, b as u16, c as u32));
    }

    /// Interrupt Stack Table selector: bits 0 and 1 of the flags.
    fn ist(&self) -> (r: Ist)
        ensures
            r == ist_of(bits_u16(self.layout().2, 0, 2)),
    {
        proof {
            lemma_small_shifts();
        }
        let v = get_bits_u16(self.flags(), 0, 2);
        if v == 0 {
            Ist::Ist0
        } else if v == 1 {
            Ist::Ist1
        } else if v == 2 {
            Ist::Ist2
        } else {
            Ist::Ist3
        }
    }

    /// Sets the IST selector; the other flag bits keep their value.
    fn set_ist(&mut self, ist: Ist)
        ensures
            final(self).layout() == gate_with_flags(
                old(self).layout(),
                with_bits_u16(old(self).layout().2, 0, 2, ist.spec_num()),
            ),
            bits_u16(final(self).layout().2, 0, 2) == ist.spec_num(),
    {
        proof {
            lemma_small_shifts();
        }
        let v = ist.num();
        let f = set_bits_u16(self.flags(), 0, 2, v);
        proof {
            crate::bitfield::lemma_bits_u16(v, 0, 2, 0);
            assert(bits_u16(v, 0, 2) == v) by (bit_vector)
                requires
                    v < 4,
            ;
        }
        self.set_flags(f);
    }

    /// Present flag: bit 15 of the flags.
    fn present(&self) -> (r: bool)
        ensures
            r == bit_u16(self.layout().2, 15),
    {
        get_bit_u16(self.flags(), 15)
    }

    /// Sets the present flag; the other flag bits keep their value.
    fn set_present(&mut self, v: bool)
        ensures
            final(self).layout() == gate_with_flags(
                old(self).layout(),
                with_bit_u16(old(self).layout().2, 15, v),
            ),
            bit_u16(final(self).layout().2, 15) == v,
    {
        let f = set_bit_u16(self.flags(), 15, v);
        self.set_flags(f);
    }

    /// Descriptor Privilege Level: bits 13 and 14 of the flags.
    fn dpl(&self) -> (r: Dpl)
        ensures
            r.spec_num() == bits_u16(self.layout().2, 13, 2),
    {
        proof {
            lemma_small_shifts();
        }
        let v = get_bits_u16(self.flags(), 13, 2);
        if v == 0 {
            Dpl::Dpl0
        } else if v == 1 {
            Dpl::Dpl1
        } else if v == 2 {
            Dpl::Dpl2
        } else {
            Dpl::Dpl3
        }
    }

    /// Sets the privilege level; the other flag bits keep their value.
    fn set_dpl(&mut self, dpl: Dpl)
        ensures
            final(self).layout() == gate_with_flags(
                old(self).layout(),
                with_bits_u16(old(self).layout().2, 13, 2, dpl.spec_num() as u16),
            ),
            bits_u16(final(self).layout().2, 13, 2) == dpl.spec_num(),
    {
        let v = dpl.num() as u16;
        let f = set_bits_u16(self.flags(), 13, 2, v);
        proof {
            assert(bits_u16(v, 0, 2) == v) by (bit_vector)
                requires
                    v < 4,
            ;
        }
        self.set_flags(f);
    }

    /// The descriptor type that the type field holds.
    fn type_enum(&self) -> (r: DescriptorType)
        ensures
            r == descriptor_type_of(bits_u16(self.layout().2, 8, 4)),
    {
        DescriptorType::from_type_field(self.type_value())
    }

    /// The type field: bits 8 to 11 of the flags.
    fn type_value(&self) -> (r: u16)
        ensures
            r == bits_u16(self.layout().2, 8, 4),
    {
        get_bits_u16(self.flags(), 8, 4)
    }
}

/// The trap gate.
#[derive(Clone, Copy, Debug)]
pub struct TrapGate {
    offset0: u16,
    segsel: u16,
    flags: u16,
    offset1: u16,
    offset2: u32,
    reserved: u32,
}

impl TrapGate {
    /// A gate stored as the two little-endian words `lo` and `hi`.
    pub fn from_raw(lo: u64, hi: u64) -> (r: TrapGate)
        ensures
            r.layout() == decode_gate(lo, hi),
    {
        TrapGate {
            offset0: lo as u16,
            segsel: (lo >> 16) as u16,
            flags: (lo >> 32) as u16,
            offset1: (lo >> 48) as u16,
            offset2: hi as u32,
            reserved: (hi >> 32) as u32,
        }
    }

    /// The two little-endian words that store this gate.
    pub fn to_raw(&self) -> (r: (u64, u64))
        ensures
            r == encode_gate(self.layout()),
            decode_gate(r.0, r.1) == self.layout(),
    {
        proof {
            lemma_gate_encoding(self.layout());
        }
        (
            (self.offset0 as u64) | ((self.segsel as u64) << 16) | ((self.flags as u64) << 32) | ((
            self.offset1 as u64) << 48),
            (self.offset2 as u64) | ((self.reserved as u64) << 32),
        )
    }
}

impl Default for TrapGate {
    /// An empty, not present gate whose type field says trap gate.
    fn default() -> (r: TrapGate)
        ensures
            r.layout() == (0u16, 0u16, 0x0F00u16, 0u16, 0u32, 0u32),
            bits_u16(r.layout().2, 8, 4) == 0b1111,
    {
        proof {
            assert(bits_u16(0x0F00u16, 8, 4) == 0b1111) by (bit_vector);
        }
        TrapGate { offset0: 0, segsel: 0, flags: 0x0F00u16, offset1: 0, offset2: 0, reserved: 0 }
    }
}

impl Entry for TrapGate {
    fn size() -> (r: usize)
        ensures
            r == 16,
    {
        16
    }
}

impl IdtGate for TrapGate {
    closed spec fn layout(&self) -> GateLayout {
        (self.offset0, self.segsel, self.flags, self.offset1, self.offset2, self.reserved)
    }

    fn offset_fields(&self) -> (r: (u16, u16, u32)) {
        (self.offset0, self.offset1, self.offset2)
    }

    fn set_offset_fields(&mut self, offset: (u16, u16, u32)) {
        self.offset0 = offset.0;
        self.offset1 = offset.1;
        self.offset2 = offset.2;
    }

    fn segsel(&self) -> (r: u16) {
        self.segsel
    }

    fn set_segsel(&mut self, ss: u16) {
        self.segsel = ss;
    }

    fn flags(&self) -> (r: u16) {
        self.flags
    }

    fn set_flags(&mut self, f: u16) {
        self.flags = f;
    }
}

/// The interrupt gate.
#[derive(Clone, Copy, Debug)]
pub struct InterruptGate {
    offset0: u16,
    segsel: u16,
    flags: u16,
    offset1: u16,
    offset2: u32,
    reserved: u32,
}

impl InterruptGate {
    /// A gate stored as the two little-endian words `lo` and `hi`.
    pub fn from_raw(lo: u64, hi: u64) -> (r: InterruptGate)
        ensures
            r.layout() == decode_gate(lo, hi),
    {
        InterruptGate {
            offset0: lo as u16,
            segsel: (lo >> 16) as u16,
            flags: (lo >> 32) as u16,
            offset1: (lo >> 48) as u16,
            offset2: hi as u32,
            reserved: (hi >> 32) as u32,
        }
    }

    /// The two little-endian words that store this gate.
    pub fn to_raw(&self) -> (r: (u64, u64))
        ensures
            r == encode_gate(self.layout()),
            decode_gate(r.0, r.1) == self.layout(),
    {
        proof {
            lemma_gate_encoding(self.layout());
        }
        (
            (self.offset0 as u64) | ((self.segsel as u64) << 16) | ((self.flags as u64) << 32) | ((
            self.offset1 as u64) << 48),
            (self.offset2 as u64) | ((self.reserved as u64) << 32),
        )
    }
}

impl Default for InterruptGate {
    /// An empty, not present gate whose type field says interrupt gate.
    fn default() -> (r: InterruptGate)
        ensures
            r.layout() == (0u16, 0u16, 0x0E00u16, 0u16, 0u32, 0u32),
            bits_u16(r.layout().2, 8, 4) == 0b1110,
    {
        proof {
            assert(bits_u16(0x0E00u16, 8, 4) == 0b1110) by (bit_vector);
        }
        InterruptGate { offset0: 0, segsel: 0, flags: 0x0E00u16, offset1: 0, offset2: 0, reserved: 0 }
    }
}

impl Entry for InterruptGate {
    fn size() -> (r: usize)
        ensures
            r == 16,
    {
        16
    }
}

impl IdtGate for InterruptGate {
    closed spec fn layout(&self) -> GateLayout {
        (self.offset0, self.segsel, self.flags, self.offset1, self.offset2, self.reserved)
    }

    fn offset_fields(&self) -> (r: (u16, u16, u32)) {
        (self.offset0, self.offset1, self.offset2)
    }

    fn set_offset_fields(&mut self, offset: (u16, u16, u32)) {
        self.offset0 = offset.0;
        self.offset1 = offset.1;
        self.offset2 = offset.2;
    }

    fn segsel(&self) -> (r: u16) {
        self.segsel
    }

    fn set_segsel(&mut self, ss: u16) {
        self.segsel = ss;
    }

    fn flags(&self) -> (r: u16) {
        self.flags
    }

    fn set_flags(&mut self, f: u16) {
        self.flags = f;
    }
}

/// The type field of a gate from the first of its two raw words.
pub open spec fn raw_gate_type(lo: u64) -> u64 {
    bits_u64(lo, 40, 4)
}

/// What an IDT slot holds, as its type field says.
#[derive(Clone, Copy, Debug)]
pub enum IdtGateVariant {
    Trap(TrapGate),
    Interrupt(InterruptGate),
    /// A type field that is neither the trap nor the interrupt gate type.
    Unknown,
}

impl EntryVariant for IdtGateVariant {
}

/// What the two words `raw` hold: an interrupt gate where the type
/// field is `0b1110`, a trap gate where it is `0b1111`, `Unknown` otherwise.
fn resolve_gate(raw: (u64, u64)) -> (r: IdtGateVariant)
    ensures
        (r is Interrupt) == (raw_gate_type(raw.0) == 0b1110),
        (r is Trap) == (raw_gate_type(raw.0) == 0b1111),
        r matches IdtGateVariant::Interrupt(g) ==> g.layout() == decode_gate(raw.0, raw.1),
        r matches IdtGateVariant::Trap(g) ==> g.layout() == decode_gate(raw.0, raw.1),
{
    let type_field = DescriptorType::type_field_from_raw64(raw.0);
    if type_field == 0b1110 {
        IdtGateVariant::Interrupt(InterruptGate::from_raw(raw.0, raw.1))
    } else if type_field == 0b1111 {
        IdtGateVariant::Trap(TrapGate::from_raw(raw.0, raw.1))
    } else {
        IdtGateVariant::Unknown
    }
}

/// Handle on one slot of the IDT.
#[derive(Clone, Copy, Debug, PartialEq, Eq, Structural)]
pub struct IdtGateHandle {
    addr: u64,
}

impl IdtGateHandle {
    /// A handle on the IDT slot at `entry_addr`.
    pub fn new_by_addr(entry_addr: u64) -> (r: IdtGateHandle)
        ensures
            r.spec_addr() == entry_addr,
    {
        IdtGateHandle { addr: entry_addr }
    }
}

impl EntryHandle for IdtGateHandle {
    type Variant = IdtGateVariant;

    /// Two little-endian words: a gate as stored.
    type Raw = (u64, u64);

    closed spec fn spec_addr(&self) -> u64 {
        self.addr
    }

    fn from_addr(addr: u64) -> (r: IdtGateHandle) {
        IdtGateHandle::new_by_addr(addr)
    }

    fn addr(&self) -> (r: u64) {
        self.addr
    }

    /// An interrupt gate where the type field is `0b1110`, a trap gate
    /// where it is `0b1111`, `Unknown` for any other value.
    fn variant(&self, raw: (u64, u64)) -> (r: IdtGateVariant)
        ensures
            (r is Interrupt) == (raw_gate_type(raw.0) == 0b1110),
            (r is Trap) == (raw_gate_type(raw.0) == 0b1111),
            r matches IdtGateVariant::Interrupt(g) ==> g.layout() == decode_gate(raw.0, raw.1),
            r matches IdtGateVariant::Trap(g) ==> g.layout() == decode_gate(raw.0, raw.1),
    {
        resolve_gate(raw)
    }
}

/// An IDT image: the 256 gates, each as the two little-endian words the
/// processor reads. Every vector number has its slot.
#[derive(Clone, Copy, Debug)]
pub struct Idt {
    gates: [(u64, u64); 256],
}

impl View for Idt {
    type V = Seq<(u64, u64)>;

    closed spec fn view(&self) -> Seq<(u64, u64)> {
        self.gates@
    }
}

impl Idt {
    /// An image of 256 zero gates, none present.
    pub fn new() -> (r: Idt)
        ensures
            r@ == Seq::new(256, |_i: int| (0u64, 0u64)),
    {
        let gates = [(0u64, 0u64); 256];
        assert(gates@ =~= Seq::new(256, |_i: int| (0u64, 0u64)));
        Idt { gates }
    }

    /// The two words stored for `vector`.
    pub fn words(&self, vector: u8) -> (r: (u64, u64))
        ensures
            self@.len() == 256,
            r == self@[vector as int],
    {
        self.gates[vector as usize]
    }

    /// Stores `words` in the slot for `vector`.
    pub fn set_words(&mut self, vector: u8, words: (u64, u64))
        ensures
            final(self)@ == old(self)@.update(vector as int, words),
    {
        self.gates[vector as usize] = words;
    }

    /// Stores trap gate `g` for `vector`.
    pub fn set_trap(&mut self, vector: u8, g: &TrapGate)
        ensures
            final(self)@ == old(self)@.update(vector as int, encode_gate(g.layout())),
    {
        self.set_words(vector, g.to_raw());
    }

    /// Stores interrupt gate `g` for `vector`.
    pub fn set_interrupt(&mut self, vector: u8, g: &InterruptGate)
        ensures
            final(self)@ == old(self)@.update(vector as int, encode_gate(g.layout())),
    {
        self.set_words(vector, g.to_raw());
    }

    /// What the slot for `vector` holds, resolved by its type field.
    pub fn variant(&self, vector: u8) -> (r: IdtGateVariant)
        ensures
            self@.len() == 256,
            (r is Interrupt) == (raw_gate_type(self@[vector as int].0) == 0b1110),
            (r is Trap) == (raw_gate_type(self@[vector as int].0) == 0b1111),
            r matches IdtGateVariant::Interrupt(g) ==> g.layout() == decode_gate(
                self@[vector as int].0,
                self@[vector as int].1,
            ),
            r matches IdtGateVariant::Trap(g) ==> g.layout() == decode_gate(
                self@[vector as int].0,
                self@[vector as int].1,
            ),
    {
        resolve_gate(self.gates[vector as usize])
    }
}

/// The IDT controller: where the table is and how many bytes of it are
/// valid.
#[derive(Clone, Copy, Debug)]
pub struct IdtCtrl {
    limit: u16,
    addr: u64,
}

impl IdtCtrl {
    /// The IDT at `addr` whose last valid byte is at offset `limit`.
    pub fn new(addr: u64, limit: u16) -> (r: IdtCtrl)
        ensures
            r.spec_addr() == addr,
            r.spec_limit() == limit,
    {
        IdtCtrl { limit, addr }
    }
}

impl Table for IdtCtrl {
    type Handle = IdtGateHandle;

    closed spec fn spec_limit(&self) -> u16 {
        self.limit
    }

    closed spec fn spec_addr(&self) -> u64 {
        self.addr
    }

    open spec fn spec_step() -> u16 {
        16
    }

    proof fn lemma_step() {
    }

    fn limit(&self) -> (r: u16) {
        self.limit
    }

    fn addr(&self) -> (r: u64) {
        self.addr
    }

    /// Each gate takes 16 bytes.
    fn limit_step() -> (r: u16) {
        16
    }
}

impl DtLimit for IdtCtrl {
    fn set_limit(&mut self, limit: u16) {
        self.limit = limit;
    }
}

/// The value of the IDT register.
#[derive(Clone, Copy, Debug, PartialEq, Eq, Structural)]
pub struct IdtRegValue {
    addr: u64,
    limit: u16,
}

impl RegValue for IdtRegValue {
    type HandleType = IdtCtrl;

    closed spec fn spec_addr(&self) -> u64 {
        self.addr
    }

    closed spec fn spec_limit(&self) -> u16 {
        self.limit
    }

    fn new(addr: u64, limit: u16) -> (r: IdtRegValue) {
        IdtRegValue { addr, limit }
    }

    fn addr(&self) -> (r: u64) {
        self.addr
    }

    fn limit(&self) -> (r: u16) {
        self.limit
    }

    fn set_addr(&mut self, addr: u64) {
        self.addr = addr;
    }

    fn set_limit(&mut self, limit: u16) {
        self.limit = limit;
    }

    fn into_table(self) -> (r: IdtCtrl) {
        IdtCtrl::new(self.addr, self.limit)
    }
}

/// Setting a gate's handler address and reading it back gives the address,
/// for every 64-bit address; the other fields keep their values.
pub proof fn lemma_offset_round_trip(l: GateLayout, offset: u64)
    ensures
        gate_offset(gate_with_offset(l, offset)) == offset,
        gate_with_offset(l, offset).1 == l.1,
        gate_with_offset(l, offset).2 == l.2,
        gate_with_offset(l, offset).5 == l.5,
{
    lemma_offset_split(offset, 0, 0, 0);
}

} // verus!
