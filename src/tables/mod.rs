//! The generic table model: tables of fixed-size slots bounded by a limit,
//! handles on single slots, and the variants a slot resolves to.
use vstd::prelude::*;

use crate::bitfield::{bits_u16, bits_u64, get_bits_u16, get_bits_u64, lemma_small_shifts};

pub mod gdt;
pub mod idt;
pub mod paging;

verus! {

/// Number of slots of `step` bytes that lie wholly under a table limit.
/// A limit is the offset of the last valid byte: limit 0 means one byte.
pub open spec fn entry_count_of(limit: int, step: int) -> int {
    (limit + 1) / step
}

/// The smallest limit under which slot `index` lies wholly inside the table.
pub open spec fn limit_of_index(index: int, step: int) -> int {
    (index + 1) * step - 1
}

/// Address of slot `index` of a table at `base`, in 64-bit address
/// arithmetic.
pub open spec fn slot_addr(base: u64, index: int, step: int) -> u64 {
    ((base + index * step) % 0x1_0000_0000_0000_0000) as u64
}

/// A record that occupies one slot of a table.
pub trait Entry: Sized {
    /// Size of the record in bytes.
    fn size() -> (r: usize);
}

/// A shape that a slot resolves to once its tag bits have been read.
pub trait EntryVariant {
}

/// A handle on one slot of a table. The slot's shape is read from the slot
/// itself: `variant` takes the slot's raw contents as loaded from memory and
/// decides on its tag bits alone.
pub trait EntryHandle: Sized {
    /// The shapes the slot may resolve to.
    type Variant: EntryVariant;

    /// The slot's raw contents.
    type Raw;

    spec fn spec_addr(&self) -> u64;

    /// A handle on the slot at `addr`.
    fn from_addr(addr: u64) -> (r: Self)
        ensures
            r.spec_addr() == addr,
    ;

    /// Address of the slot.
    fn addr(&self) -> (r: u64)
        ensures
            r == self.spec_addr(),
    ;

    /// The shape of the slot whose raw contents are `raw`.
    fn variant(&self, raw: Self::Raw) -> Self::Variant;
}

/// A bounded, indexable sequence of slots of uniform step size.
pub trait Table: Sized {
    /// The handle returned for a slot of the table.
    type Handle: EntryHandle;

    spec fn spec_limit(&self) -> u16;

    spec fn spec_addr(&self) -> u64;

    spec fn spec_step() -> u16;

    /// Every table steps by at least two bytes.
    proof fn lemma_step()
        ensures
            2 <= Self::spec_step(),
    ;

    /// Limit of the table: the offset of its last valid byte.
    fn limit(&self) -> (r: u16)
        ensures
            r == self.spec_limit(),
    ;

    /// Address of the table.
    fn addr(&self) -> (r: u64)
        ensures
            r == self.spec_addr(),
    ;

    /// Bytes skipped when the index grows by one: the smallest record size
    /// that the table can hold.
    fn limit_step() -> (r: u16)
        ensures
            r == Self::spec_step(),
    ;

    /// Number of whole slots under the limit.
    fn entry_count(&self) -> (r: u16)
        ensures
            r == entry_count_of(self.spec_limit() as int, Self::spec_step() as int),
    {
        proof {
            Self::lemma_step();
        }
        let step = Self::limit_step();
        let n: u32 = (self.limit() as u32 + 1) / (step as u32);
        assert(n <= 0x8000) by (nonlinear_arith)
            requires
                n == (self.spec_limit() as int + 1) / (step as int),
                step >= 2,
                self.spec_limit() <= 0xFFFF,
        ;
        n as u16
    }

    /// The smallest limit under which slot `index` can be accessed, in 32
    /// bits, where every index's limit fits. This is the one place the
    /// formula is computed: both the limit setters and the bounds check go
    /// through it.
    fn limit_from_index_wide(index: u16) -> (r: u32)
        ensures
            r == limit_of_index(index as int, Self::spec_step() as int),
    {
        proof {
            Self::lemma_step();
        }
        let step = Self::limit_step();
        assert(2 <= (index as int + 1) * (step as int) <= 0x1_0000 * 0xFFFF) by (nonlinear_arith)
            requires
                index <= 0xFFFF,
                2 <= step <= 0xFFFF,
        ;
        (index as u32 + 1) * (step as u32) - 1
    }

    /// The smallest limit under which slot `index` can be accessed.
    fn limit_from_index(index: u16) -> (r: u16)
        requires
            limit_of_index(index as int, Self::spec_step() as int) <= 0xFFFF,
        ensures
            r == limit_of_index(index as int, Self::spec_step() as int),
    {
        Self::limit_from_index_wide(index) as u16
    }

    /// Whether slot `index` lies beyond the limit, so that the table has no
    /// such slot.
    fn limit_broken_by(&self, index: u16) -> (r: bool)
        ensures
            r == (self.spec_limit() < limit_of_index(index as int, Self::spec_step() as int)),
    {
        (self.limit() as u32) < Self::limit_from_index_wide(index)
    }

    /// The handle on slot `index`, or `None` where the slot lies beyond the
    /// limit. This is the one bounds-checked way to a slot.
    fn entry_handle(&self, index: u16) -> (r: Option<Self::Handle>)
        ensures
            r.is_some() == (index < entry_count_of(
                self.spec_limit() as int,
                Self::spec_step() as int,
            )),
            r matches Some(h) ==> h.spec_addr() == slot_addr(
                self.spec_addr(),
                index as int,
                Self::spec_step() as int,
            ),
    {
        proof {
            Self::lemma_step();
            lemma_index_within_limit(self.spec_limit() as int, Self::spec_step() as int, index as int);
        }
        if self.limit_broken_by(index) {
            None
        } else {
            let step = Self::limit_step();
            assert(index as int * step as int <= 0xFFFF * 0xFFFF) by (nonlinear_arith)
                requires
                    index <= 0xFFFF,
                    step <= 0xFFFF,
            ;
            let offset: u64 = index as u64 * step as u64;
            Some(Self::Handle::from_addr(self.addr().wrapping_add(offset)))
        }
    }
}

/// A table whose limit can be changed: the descriptor tables.
pub trait DtLimit: Table {
    /// Sets the limit as given. Nothing checks that it is a valid last-byte
    /// offset for the table's step: that is the caller's duty.
    fn set_limit(&mut self, limit: u16)
        ensures
            final(self).spec_limit() == limit,
            final(self).spec_addr() == old(self).spec_addr(),
    ;

    /// Sets the limit to `limit_from_index(count)`, which makes slots
    /// `0 ..= count` accessible.
    fn set_limit_by_entry_count(&mut self, count: u16)
        requires
            limit_of_index(count as int, Self::spec_step() as int) <= 0xFFFF,
        ensures
            final(self).spec_limit() == limit_of_index(count as int, Self::spec_step() as int),
            final(self).spec_addr() == old(self).spec_addr(),
    {
        let limit = Self::limit_from_index(count);
        self.set_limit(limit);
    }
}

/// The value of a descriptor-table register: the table's base address and
/// limit.
pub trait RegValue: Sized {
    /// The table that the register describes.
    type HandleType: Table;

    spec fn spec_addr(&self) -> u64;

    spec fn spec_limit(&self) -> u16;

    /// A register value with the given base address and limit.
    fn new(addr: u64, limit: u16) -> (r: Self)
        ensures
            r.spec_addr() == addr,
            r.spec_limit() == limit,
    ;

    /// Base address of the table.
    fn addr(&self) -> (r: u64)
        ensures
            r == self.spec_addr(),
    ;

    /// Limit of the table.
    fn limit(&self) -> (r: u16)
        ensures
            r == self.spec_limit(),
    ;

    /// Sets the base address. What is at the new address is the caller's
    /// concern.
    fn set_addr(&mut self, addr: u64)
        ensures
            final(self).spec_addr() == addr,
            final(self).spec_limit() == old(self).spec_limit(),
    ;

    /// Sets the limit, unchecked.
    fn set_limit(&mut self, limit: u16)
        ensures
            final(self).spec_addr() == old(self).spec_addr(),
            final(self).spec_limit() == limit,
    ;

    /// The table that this register value describes.
    fn into_table(self) -> (r: Self::HandleType)
        ensures
            r.spec_addr() == self.spec_addr(),
            r.spec_limit() == self.spec_limit(),
    ;

    /// The register value that describes `table`.
    fn from_table(table: Self::HandleType) -> (r: Self)
        ensures
            r.spec_addr() == table.spec_addr(),
            r.spec_limit() == table.spec_limit(),
    {
        Self::new(table.addr(), table.limit())
    }
}

/// Descriptor Privilege Level, used in GDT and IDT descriptors.
#[derive(Clone, Copy, Debug, PartialEq, Eq, Structural)]
pub enum Dpl {
    Dpl0,
    Dpl1,
    Dpl2,
    Dpl3,
}

/// The privilege level numbered `i`, for `i` in `0 ..= 3`.
pub open spec fn dpl_of(i: int) -> Option<Dpl> {
    if i == 0 {
        Some(Dpl::Dpl0)
    } else if i == 1 {
        Some(Dpl::Dpl1)
    } else if i == 2 {
        Some(Dpl::Dpl2)
    } else if i == 3 {
        Some(Dpl::Dpl3)
    } else {
        None
    }
}

impl Dpl {
    /// The number of the level, from 0 to 3.
    pub open spec fn spec_num(self) -> u32 {
        match self {
            Dpl::Dpl0 => 0,
            Dpl::Dpl1 => 1,
            Dpl::Dpl2 => 2,
            Dpl::Dpl3 => 3,
        }
    }

    /// Converts a number from 0 to 3 to its privilege level.
    pub fn from_num(i: u32) -> (r: Option<Self>)
        ensures
            r == dpl_of(i as int),
    {
        match i {
            0 => Some(Dpl::Dpl0),
            1 => Some(Dpl::Dpl1),
            2 => Some(Dpl::Dpl2),
            3 => Some(Dpl::Dpl3),
            _ => None,
        }
    }

    /// The number of the level.
    pub fn num(&self) -> (r: u32)
        ensures
            r == self.spec_num(),
            dpl_of(r as int) == Some(*self),
    {
        match self {
            Dpl::Dpl0 => 0,
            Dpl::Dpl1 => 1,
            Dpl::Dpl2 => 2,
            Dpl::Dpl3 => 3,
        }
    }
}

/// IA-32e mode system descriptor type: the 4-bit type field of a descriptor.
#[derive(Clone, Copy, Debug, PartialEq, Eq, Structural)]
pub enum DescriptorType {
    Ldt,
    TssAvailable,
    TssBusy,
    CallGate,
    InterruptGate,
    TrapGate,
    /// Any other value of the type field.
    Reserved,
}

/// The descriptor type that the type field value `v` encodes.
pub open spec fn descriptor_type_of(v: u16) -> DescriptorType {
    if v == 0b0010 {
        DescriptorType::Ldt
    } else if v == 0b1001 {
        DescriptorType::TssAvailable
    } else if v == 0b1011 {
        DescriptorType::TssBusy
    } else if v == 0b1100 {
        DescriptorType::CallGate
    } else if v == 0b1110 {
        DescriptorType::InterruptGate
    } else if v == 0b1111 {
        DescriptorType::TrapGate
    } else {
        DescriptorType::Reserved
    }
}

impl DescriptorType {
    /// The type field value of the descriptor type; `Reserved` has the value
    /// 16, which no 4-bit field holds.
    pub open spec fn spec_code(self) -> u16 {
        match self {
            DescriptorType::Ldt => 0b0010,
            DescriptorType::TssAvailable => 0b1001,
            DescriptorType::TssBusy => 0b1011,
            DescriptorType::CallGate => 0b1100,
            DescriptorType::InterruptGate => 0b1110,
            DescriptorType::TrapGate => 0b1111,
            DescriptorType::Reserved => 0b1_0000,
        }
    }

    /// The type field value of the descriptor type.
    pub fn code(&self) -> (r: u16)
        ensures
            r == self.spec_code(),
            descriptor_type_of(r) == *self,
    {
        match self {
            DescriptorType::Ldt => 0b0010,
            DescriptorType::TssAvailable => 0b1001,
            DescriptorType::TssBusy => 0b1011,
            DescriptorType::CallGate => 0b1100,
            DescriptorType::InterruptGate => 0b1110,
            DescriptorType::TrapGate => 0b1111,
            DescriptorType::Reserved => 0b1_0000,
        }
    }

    /// The type field of a descriptor from its raw first eight bytes: bits
    /// 40 to 43.
    pub fn type_field_from_raw64(data: u64) -> (r: u16)
        ensures
            r == bits_u64(data, 40, 4),
            r < 16,
    {
        proof {
            lemma_small_shifts();
        }
        get_bits_u64(data, 40, 4) as u16
    }

    /// The type field of a descriptor from its flags word: bits 8 to 11.
    pub fn type_field_from_flags(flags: u16) -> (r: u16)
        ensures
            r == bits_u16(flags, 8, 4),
            r < 16,
    {
        proof {
            lemma_small_shifts();
        }
        get_bits_u16(flags, 8, 4)
    }
}

impl DescriptorType {
    /// The descriptor type that a type field value encodes; values that no
    /// type has give `Reserved`.
    pub fn from_type_field(v: u16) -> (r: DescriptorType)
        ensures
            r == descriptor_type_of(v),
    {
        if v == 0b0010 {
            DescriptorType::Ldt
        } else if v == 0b1001 {
            DescriptorType::TssAvailable
        } else if v == 0b1011 {
            DescriptorType::TssBusy
        } else if v == 0b1100 {
            DescriptorType::CallGate
        } else if v == 0b1110 {
            DescriptorType::InterruptGate
        } else if v == 0b1111 {
            DescriptorType::TrapGate
        } else {
            DescriptorType::Reserved
        }
    }
}

impl vstd::std_specs::convert::FromSpecImpl<u16> for DescriptorType {
    open spec fn obeys_from_spec() -> bool {
        true
    }

    closed spec fn from_spec(v: u16) -> DescriptorType {
        descriptor_type_of(v)
    }
}

impl From<u16> for DescriptorType {
    /// The descriptor type that a type field value encodes.
    fn from(v: u16) -> (r: DescriptorType)
        ensures
            r == descriptor_type_of(v),
    {
        DescriptorType::from_type_field(v)
    }
}

/// A slot lies under the limit exactly when its index is below the entry
/// count.
pub proof fn lemma_index_within_limit(limit: int, step: int, index: int)
    requires
        0 <= limit,
        1 <= step,
        0 <= index,
    ensures
        (limit_of_index(index, step) <= limit) == (index < entry_count_of(limit, step)),
{
    let c = entry_count_of(limit, step);
    assert(c * step <= limit + 1 < (c + 1) * step) by (nonlinear_arith)
        requires
            c == (limit + 1) / step,
            step >= 1,
            limit >= 0,
    ;
    if index < c {
        assert((index + 1) * step <= c * step) by (nonlinear_arith)
            requires
                index + 1 <= c,
                step >= 1,
        ;
    } else {
        assert((c + 1) * step <= (index + 1) * step) by (nonlinear_arith)
            requires
                c <= index,
                step >= 1,
        ;
    }
}

/// For every table and index, three views of a slot's existence agree: the
/// index is below the entry count, the limit is not broken by the index,
/// and (by the contract of `entry_handle`) a handle is returned.
pub proof fn lemma_table_bounds<T: Table>(t: &T, index: u16)
    ensures
        (index < entry_count_of(t.spec_limit() as int, T::spec_step() as int)) == !(t.spec_limit()
            < limit_of_index(index as int, T::spec_step() as int)),
{
    T::lemma_step();
    lemma_index_within_limit(t.spec_limit() as int, T::spec_step() as int, index as int);
}

/// The entry count never falls as the limit grows, and grows by exactly one
/// each time the limit grows by one step.
pub proof fn lemma_entry_count_steps(limit: int, larger: int, step: int)
    requires
        0 <= limit <= larger,
        1 <= step,
    ensures
        entry_count_of(limit, step) <= entry_count_of(larger, step),
        entry_count_of(limit + step, step) == entry_count_of(limit, step) + 1,
{
    let c = entry_count_of(limit, step);
    assert(c * step <= limit + 1 < (c + 1) * step) by (nonlinear_arith)
        requires
            c == (limit + 1) / step,
            step >= 1,
            limit >= 0,
    ;
    let d = entry_count_of(larger, step);
    assert(d * step <= larger + 1 < (d + 1) * step) by (nonlinear_arith)
        requires
            d == (larger + 1) / step,
            step >= 1,
            larger >= 0,
    ;
    assert(c <= d) by (nonlinear_arith)
        requires
            c * step <= limit + 1,
            limit <= larger,
            larger + 1 < (d + 1) * step,
            step >= 1,
    ;
    let e = entry_count_of(limit + step, step);
    assert(e * step <= limit + step + 1 < (e + 1) * step) by (nonlinear_arith)
        requires
            e == (limit + step + 1) / step,
            step >= 1,
            limit >= 0,
    ;
    assert(e == c + 1) by (nonlinear_arith)
        requires
            c * step <= limit + 1 < (c + 1) * step,
            e * step <= limit + step + 1 < (e + 1) * step,
            step >= 1,
    ;
}

} // verus!
