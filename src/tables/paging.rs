//! The four-level paging hierarchy: P4, P3, P2 and P1 tables of 512
//! eight-byte entries each, and the flag bits that share an entry's word
//! with its physical address.
use vstd::prelude::*;

use super::{Entry, EntryHandle, EntryVariant, Table};

verus! {

/// Bit 7 of a P2 entry: set when the entry maps a 2 MiB page, clear when it
/// references a P1 table.
pub open spec fn p2_maps_page(data: u64) -> bool {
    data & 0x80 != 0
}

/// Bits of a paging entry: flags and the address masks of each level.
#[derive(Clone, Copy, Debug, PartialEq, Eq, Structural)]
pub struct PageFlag {
    bits: u64,
}

impl View for PageFlag {
    type V = u64;

    closed spec fn view(&self) -> u64 {
        self.bits
    }
}

impl PageFlag {
    /// The flag set with the given bits.
    pub fn from_bits(bits: u64) -> (r: PageFlag)
        ensures
            r@ == bits,
    {
        PageFlag { bits }
    }

    /// The bits of the flag set.
    pub fn bits(&self) -> (r: u64)
        ensures
            r == self@,
    {
        self.bits
    }

    /// The flags of both sets.
    pub fn union(self, other: PageFlag) -> (r: PageFlag)
        ensures
            r@ == self@ | other@,
    {
        PageFlag { bits: self.bits | other.bits }
    }

    /// Present.
    pub fn present() -> (r: PageFlag)
        ensures
            r@ == 1u64,
    {
        PageFlag { bits: 1u64 }
    }

    /// Writable.
    pub fn rw() -> (r: PageFlag)
        ensures
            r@ == 0x2u64,
    {
        PageFlag { bits: 0x2u64 }
    }

    /// Accessible from user mode.
    pub fn us() -> (r: PageFlag)
        ensures
            r@ == 0x4u64,
    {
        PageFlag { bits: 0x4u64 }
    }

    /// Page-level write-through.
    pub fn pwt() -> (r: PageFlag)
        ensures
            r@ == 0x8u64,
    {
        PageFlag { bits: 0x8u64 }
    }

    /// Page-level cache disable.
    pub fn pcd() -> (r: PageFlag)
        ensures
            r@ == 0x10u64,
    {
        PageFlag { bits: 0x10u64 }
    }

    /// Accessed.
    pub fn accessed() -> (r: PageFlag)
        ensures
            r@ == 0x20u64,
    {
        PageFlag { bits: 0x20u64 }
    }

    /// Dirty.
    pub fn dirty() -> (r: PageFlag)
        ensures
            r@ == 0x40u64,
    {
        PageFlag { bits: 0x40u64 }
    }

    /// Page attribute table bit of a P1 entry.
    pub fn pat() -> (r: PageFlag)
        ensures
            r@ == 0x80u64,
    {
        PageFlag { bits: 0x80u64 }
    }

    /// Page size: the entry maps a large page.
    pub fn ps() -> (r: PageFlag)
        ensures
            r@ == 0x80u64,
    {
        PageFlag { bits: 0x80u64 }
    }

    /// Global.
    pub fn global() -> (r: PageFlag)
        ensures
            r@ == 0x100u64,
    {
        PageFlag { bits: 0x100u64 }
    }

    /// Execute disable.
    pub fn xd() -> (r: PageFlag)
        ensures
            r@ == 0x8000_0000_0000_0000u64,
    {
        PageFlag { bits: 0x8000_0000_0000_0000u64 }
    }

    /// Physical address bits of a P1 entry.
    pub fn p1addr() -> (r: PageFlag)
        ensures
            r@ == 0x0007_FFFF_FFFF_F800u64,
    {
        PageFlag { bits: 0x0007_FFFF_FFFF_F800u64 }
    }

    /// Physical address bits of a P2 entry that maps a page.
    pub fn p2addrmap() -> (r: PageFlag)
        ensures
            r@ == 0x0007_FFFF_FFFF_F800u64,
    {
        PageFlag { bits: 0x0007_FFFF_FFFF_F800u64 }
    }

    /// Physical address bits of a P2 entry that references a P1 table.
    pub fn p2addrref() -> (r: PageFlag)
        ensures
            r@ == 0x0007_FFFF_FFFF_F000u64,
    {
        PageFlag { bits: 0x0007_FFFF_FFFF_F000u64 }
    }

    /// Physical address bits of a P3 entry.
    pub fn p3addr() -> (r: PageFlag)
        ensures
            r@ == 0x0007_FFFF_FFFF_F800u64,
    {
        PageFlag { bits: 0x0007_FFFF_FFFF_F800u64 }
    }

    /// Physical address bits of a P4 entry.
    pub fn p4addr() -> (r: PageFlag)
        ensures
            r@ == 0x0007_FFFF_FFFF_F800u64,
    {
        PageFlag { bits: 0x0007_FFFF_FFFF_F800u64 }
    }
}

/// The word of a paging entry, read and changed as a whole or through bit
/// masks. The mask operations change exactly the bits they name.
pub trait EntryData: Sized {
    spec fn spec_data(&self) -> u64;

    /// The entry's word.
    fn data(&self) -> (r: u64)
        ensures
            r == self.spec_data(),
    ;

    /// Replaces the whole word by the given flags, ignoring its old value.
    fn data_rewrite(&mut self, val: PageFlag)
        ensures
            final(self).spec_data() == val@,
    ;

    /// Sets the bits that are set in `val`.
    fn data_bitwise_or(&mut self, val: u64)
        ensures
            final(self).spec_data() == old(self).spec_data() | val,
    {
        let d = self.data();
        self.data_rewrite(PageFlag::from_bits(d | val));
    }

    /// Sets the given flags.
    fn data_or(&mut self, val: PageFlag)
        ensures
            final(self).spec_data() == old(self).spec_data() | val@,
    {
        self.data_bitwise_or(val.bits());
    }

    /// Clears the bits that are set in `mask`.
    fn data_bitwise_clear(&mut self, mask: u64)
        ensures
            final(self).spec_data() == old(self).spec_data() & !mask,
    {
        let d = self.data();
        self.data_rewrite(PageFlag::from_bits(d & !mask));
    }

    /// Clears the given flags.
    fn data_clear(&mut self, mask: PageFlag)
        ensures
            final(self).spec_data() == old(self).spec_data() & !mask@,
    {
        self.data_bitwise_clear(mask.bits());
    }

    /// Clears the bits of `mask`, then sets the bits of `val`. Nothing
    /// checks that `val` lies inside `mask`.
    fn data_bitwise_replace(&mut self, mask: u64, val: u64)
        ensures
            final(self).spec_data() == (old(self).spec_data() & !mask) | val,
    {
        self.data_bitwise_clear(mask);
        self.data_bitwise_or(val);
    }

    /// Clears the flags of `mask`, then sets the flags of `val`.
    fn data_replace(&mut self, mask: PageFlag, val: PageFlag)
        ensures
            final(self).spec_data() == (old(self).spec_data() & !mask@) | val@,
    {
        self.data_bitwise_replace(mask.bits(), val.bits());
    }
}

/// Page table entry, level 1: maps a 4 KiB page.
#[derive(Clone, Copy, Debug, PartialEq, Eq, Structural)]
pub struct P1E {
    data: u64,
}

impl P1E {
    /// The entry whose word is `data`.
    pub fn from_data(data: u64) -> (r: P1E)
        ensures
            r.spec_data() == data,
    {
        P1E { data }
    }
}

impl Default for P1E {
    /// The entry whose word is zero.
    fn default() -> (r: P1E)
        ensures
            r.spec_data() == 0u64,
    {
        P1E { data: 0u64 }
    }
}

impl Entry for P1E {
    fn size() -> (r: usize)
        ensures
            r == 8,
    {
        8
    }
}

impl EntryData for P1E {
    closed spec fn spec_data(&self) -> u64 {
        self.data
    }

    fn data(&self) -> (r: u64) {
        self.data
    }

    fn data_rewrite(&mut self, val: PageFlag) {
        self.data = val.bits();
    }
}

/// Page directory entry, level 2, that maps a 2 MiB page.
#[derive(Clone, Copy, Debug, PartialEq, Eq, Structural)]
pub struct P2EMap {
    data: u64,
}

impl P2EMap {
    /// The entry whose word is `data`.
    pub fn from_data(data: u64) -> (r: P2EMap)
        ensures
            r.spec_data() == data,
    {
        P2EMap { data }
    }
}

impl Default for P2EMap {
    /// The entry whose word is the page-size bit set and all else clear.
    fn default() -> (r: P2EMap)
        ensures
            r.spec_data() == 0x80u64,
    {
        P2EMap { data: 0x80u64 }
    }
}

impl Entry for P2EMap {
    fn size() -> (r: usize)
        ensures
            r == 8,
    {
        8
    }
}

impl EntryData for P2EMap {
    closed spec fn spec_data(&self) -> u64 {
        self.data
    }

    fn data(&self) -> (r: u64) {
        self.data
    }

    fn data_rewrite(&mut self, val: PageFlag) {
        self.data = val.bits();
    }
}

/// Page directory entry, level 2, that references a P1 table.
#[derive(Clone, Copy, Debug, PartialEq, Eq, Structural)]
pub struct P2ERef {
    data: u64,
}

impl P2ERef {
    /// The entry whose word is `data`.
    pub fn from_data(data: u64) -> (r: P2ERef)
        ensures
            r.spec_data() == data,
    {
        P2ERef { data }
    }
}

impl Default for P2ERef {
    /// The entry whose word is zero, so the page-size bit is clear.
    fn default() -> (r: P2ERef)
        ensures
            r.spec_data() == 0u64,
    {
        P2ERef { data: 0u64 }
    }
}

impl Entry for P2ERef {
    fn size() -> (r: usize)
        ensures
            r == 8,
    {
        8
    }
}

impl EntryData for P2ERef {
    closed spec fn spec_data(&self) -> u64 {
        self.data
    }

    fn data(&self) -> (r: u64) {
        self.data
    }

    fn data_rewrite(&mut self, val: PageFlag) {
        self.data = val.bits();
    }
}

/// Page directory pointer entry, level 3.
#[derive(Clone, Copy, Debug, PartialEq, Eq, Structural)]
pub struct P3E {
    data: u64,
}

impl P3E {
    /// The entry whose word is `data`.
    pub fn from_data(data: u64) -> (r: P3E)
        ensures
            r.spec_data() == data,
    {
        P3E { data }
    }
}

impl Default for P3E {
    /// The entry whose word is zero.
    fn default() -> (r: P3E)
        ensures
            r.spec_data() == 0u64,
    {
        P3E { data: 0u64 }
    }
}

impl Entry for P3E {
    fn size() -> (r: usize)
        ensures
            r == 8,
    {
        8
    }
}

impl EntryData for P3E {
    closed spec fn spec_data(&self) -> u64 {
        self.data
    }

    fn data(&self) -> (r: u64) {
        self.data
    }

    fn data_rewrite(&mut self, val: PageFlag) {
        self.data = val.bits();
    }
}

/// Page map level 4 entry.
#[derive(Clone, Copy, Debug, PartialEq, Eq, Structural)]
pub struct P4E {
    data: u64,
}

impl P4E {
    /// The entry whose word is `data`.
    pub fn from_data(data: u64) -> (r: P4E)
        ensures
            r.spec_data() == data,
    {
        P4E { data }
    }
}

impl Default for P4E {
    /// The entry whose word is zero.
    fn default() -> (r: P4E)
        ensures
            r.spec_data() == 0u64,
    {
        P4E { data: 0u64 }
    }
}

impl Entry for P4E {
    fn size() -> (r: usize)
        ensures
            r == 8,
    {
        8
    }
}

impl EntryData for P4E {
    closed spec fn spec_data(&self) -> u64 {
        self.data
    }

    fn data(&self) -> (r: u64) {
        self.data
    }

    fn data_rewrite(&mut self, val: PageFlag) {
        self.data = val.bits();
    }
}

/// What a P1 slot holds: always a 4 KiB mapping.
#[derive(Clone, Copy, Debug)]
pub enum P1EVariant {
    P1E(P1E),
}

/// What a P2 slot holds, as its page-size bit says.
#[derive(Clone, Copy, Debug)]
pub enum P2EVariant {
    LargePage(P2EMap),
    Ref(P2ERef),
}

/// What a P3 slot holds.
#[derive(Clone, Copy, Debug)]
pub enum P3EVariant {
    P3E(P3E),
}

/// What a P4 slot holds.
#[derive(Clone, Copy, Debug)]
pub enum P4EVariant {
    P4E(P4E),
}

impl EntryVariant for P1EVariant {
}

impl EntryVariant for P2EVariant {
}

impl EntryVariant for P3EVariant {
}

impl EntryVariant for P4EVariant {
}

/// Handle on one slot of a P1 table.
#[derive(Clone, Copy, Debug, PartialEq, Eq, Structural)]
pub struct P1EHandle {
    addr: u64,
}

impl P1EHandle {
    /// The handle on the entry at `addr`.
    pub fn from_raw_addr(addr: u64) -> (r: P1EHandle)
        ensures
            r.spec_addr() == addr,
    {
        P1EHandle { addr }
    }
}

impl EntryHandle for P1EHandle {
    type Variant = P1EVariant;

    /// The entry's word.
    type Raw = u64;

    closed spec fn spec_addr(&self) -> u64 {
        self.addr
    }

    fn from_addr(addr: u64) -> (r: P1EHandle) {
        P1EHandle::from_raw_addr(addr)
    }

    fn addr(&self) -> (r: u64) {
        self.addr
    }

    fn variant(&self, raw: u64) -> (r: P1EVariant)
        ensures
            r matches P1EVariant::P1E(e) && e.spec_data() == raw,
    {
        P1EVariant::P1E(P1E::from_data(raw))
    }
}

/// What the P2 word `raw` holds, as its page-size bit says.
fn resolve_p2(raw: u64) -> (r: P2EVariant)
    ensures
        (r is LargePage) == p2_maps_page(raw),
        r matches P2EVariant::LargePage(e) ==> e.spec_data() == raw,
        r matches P2EVariant::Ref(e) ==> e.spec_data() == raw,
{
    if raw & 0x80 != 0 {
        P2EVariant::LargePage(P2EMap::from_data(raw))
    } else {
        P2EVariant::Ref(P2ERef::from_data(raw))
    }
}

/// Handle on one slot of a P2 table.
#[derive(Clone, Copy, Debug, PartialEq, Eq, Structural)]
pub struct P2EHandle {
    addr: u64,
}

impl P2EHandle {
    /// The handle on the entry at `addr`.
    pub fn from_raw_addr(addr: u64) -> (r: P2EHandle)
        ensures
            r.spec_addr() == addr,
    {
        P2EHandle { addr }
    }
}

impl EntryHandle for P2EHandle {
    type Variant = P2EVariant;

    /// The entry's word.
    type Raw = u64;

    closed spec fn spec_addr(&self) -> u64 {
        self.addr
    }

    fn from_addr(addr: u64) -> (r: P2EHandle) {
        P2EHandle::from_raw_addr(addr)
    }

    fn addr(&self) -> (r: u64) {
        self.addr
    }

    /// A 2 MiB mapping where the page-size bit is set, a reference to a P1
    /// table where it is clear; the entry keeps the whole word.
    fn variant(&self, raw: u64) -> (r: P2EVariant)
        ensures
            (r is LargePage) == p2_maps_page(raw),
            r matches P2EVariant::LargePage(e) ==> e.spec_data() == raw,
            r matches P2EVariant::Ref(e) ==> e.spec_data() == raw,
    {
        resolve_p2(raw)
    }
}

/// Handle on one slot of a P3 table.
#[derive(Clone, Copy, Debug, PartialEq, Eq, Structural)]
pub struct P3EHandle {
    addr: u64,
}

impl P3EHandle {
    /// The handle on the entry at `addr`.
    pub fn from_raw_addr(addr: u64) -> (r: P3EHandle)
        ensures
            r.spec_addr() == addr,
    {
        P3EHandle { addr }
    }
}

impl EntryHandle for P3EHandle {
    type Variant = P3EVariant;

    /// The entry's word.
    type Raw = u64;

    closed spec fn spec_addr(&self) -> u64 {
        self.addr
    }

    fn from_addr(addr: u64) -> (r: P3EHandle) {
        P3EHandle::from_raw_addr(addr)
    }

    fn addr(&self) -> (r: u64) {
        self.addr
    }

    fn variant(&self, raw: u64) -> (r: P3EVariant)
        ensures
            r matches P3EVariant::P3E(e) && e.spec_data() == raw,
    {
        P3EVariant::P3E(P3E::from_data(raw))
    }
}

/// Handle on one slot of a P4 table.
#[derive(Clone, Copy, Debug, PartialEq, Eq, Structural)]
pub struct P4EHandle {
    addr: u64,
}

impl P4EHandle {
    /// The handle on the entry at `addr`.
    pub fn from_raw_addr(addr: u64) -> (r: P4EHandle)
        ensures
            r.spec_addr() == addr,
    {
        P4EHandle { addr }
    }
}

impl EntryHandle for P4EHandle {
    type Variant = P4EVariant;

    /// The entry's word.
    type Raw = u64;

    closed spec fn spec_addr(&self) -> u64 {
        self.addr
    }

    fn from_addr(addr: u64) -> (r: P4EHandle) {
        P4EHandle::from_raw_addr(addr)
    }

    fn addr(&self) -> (r: u64) {
        self.addr
    }

    fn variant(&self, raw: u64) -> (r: P4EVariant)
        ensures
            r matches P4EVariant::P4E(e) && e.spec_data() == raw,
    {
        P4EVariant::P4E(P4E::from_data(raw))
    }
}

/// The 512 entry words of a paging table and the physical address the table
/// is placed at.
#[derive(Debug)]
struct Slots {
    addr: u64,
    entries: [u64; 512],
}

impl Slots {
    /// 512 zero entries for a table at `addr`.
    fn zeroed(addr: u64) -> (r: Slots)
        ensures
            r.addr == addr,
            r.entries@ == Seq::new(512, |_i: int| 0u64),
    {
        let entries = [0u64; 512];
        assert(entries@ =~= Seq::new(512, |_i: int| 0u64));
        Slots { addr, entries }
    }

    fn get(&self, index: u16) -> (r: Option<u64>)
        ensures
            r.is_some() == (index < 512),
            r matches Some(d) ==> d == self.entries@[index as int],
            self.entries@.len() == 512,
    {
        if index < 512 {
            Some(self.entries[index as usize])
        } else {
            None
        }
    }

    fn set(&mut self, index: u16, data: u64)
        requires
            index < 512,
        ensures
            final(self).entries@ == old(self).entries@.update(index as int, data),
            final(self).addr == old(self).addr,
    {
        self.entries[index as usize] = data;
    }
}

/// A level 1 (page table) table: 512 entries of eight bytes, one 4 KiB page.
#[derive(Debug)]
pub struct P1 {
    slots: Slots,
}

impl View for P1 {
    type V = Seq<u64>;

    /// The words of the 512 entries.
    closed spec fn view(&self) -> Seq<u64> {
        self.slots.entries@
    }
}

impl P1 {
    /// A table of zero entries placed at physical address `addr`.
    pub fn new(addr: u64) -> (r: P1)
        ensures
            r.spec_addr() == addr,
            r@ == Seq::new(512, |_i: int| 0u64),
    {
        P1 { slots: Slots::zeroed(addr) }
    }

    /// What slot `index` holds, or `None` past the last slot.
    pub fn variant_at(&self, index: u16) -> (r: Option<P1EVariant>)
        ensures
            r.is_some() == (index < 512),
            self@.len() == 512,
            r matches Some(P1EVariant::P1E(e)) ==> e.spec_data() == self@[index as int],
    {
        match self.slots.get(index) {
            Some(data) => Some(P1EVariant::P1E(P1E::from_data(data))),
            None => None,
        }
    }

    /// Stores `e` in slot `index`.
    pub fn set_entry(&mut self, index: u16, e: P1E)
        requires
            index < 512,
        ensures
            final(self)@ == old(self)@.update(index as int, e.spec_data()),
            final(self).spec_addr() == old(self).spec_addr(),
    {
        self.slots.set(index, e.data());
    }
}

impl Default for P1 {
    /// A table of zero entries at address 0.
    fn default() -> (r: P1)
        ensures
            r.spec_addr() == 0,
            r@ == Seq::new(512, |_i: int| 0u64),
    {
        P1::new(0)
    }
}

impl Table for P1 {
    type Handle = P1EHandle;

    /// Always 4095: the table is one page.
    open spec fn spec_limit(&self) -> u16 {
        4095
    }

    closed spec fn spec_addr(&self) -> u64 {
        self.slots.addr
    }

    open spec fn spec_step() -> u16 {
        8
    }

    proof fn lemma_step() {
    }

    fn limit(&self) -> (r: u16) {
        4095
    }

    fn addr(&self) -> (r: u64) {
        self.slots.addr
    }

    fn limit_step() -> (r: u16) {
        8
    }
}

/// A level 2 (page directory) table: 512 entries of eight bytes, one 4 KiB page.
#[derive(Debug)]
pub struct P2 {
    slots: Slots,
}

impl View for P2 {
    type V = Seq<u64>;

    /// The words of the 512 entries.
    closed spec fn view(&self) -> Seq<u64> {
        self.slots.entries@
    }
}

impl P2 {
    /// A table of zero entries placed at physical address `addr`.
    pub fn new(addr: u64) -> (r: P2)
        ensures
            r.spec_addr() == addr,
            r@ == Seq::new(512, |_i: int| 0u64),
    {
        P2 { slots: Slots::zeroed(addr) }
    }

    /// What slot `index` holds, or `None` past the last slot.
    pub fn variant_at(&self, index: u16) -> (r: Option<P2EVariant>)
        ensures
            r.is_some() == (index < 512),
            self@.len() == 512,
            r matches Some(v) ==> (v is LargePage) == p2_maps_page(self@[index as int]),
            r matches Some(P2EVariant::LargePage(e)) ==> e.spec_data() == self@[index as int],
            r matches Some(P2EVariant::Ref(e)) ==> e.spec_data() == self@[index as int],
    {
        match self.slots.get(index) {
            Some(data) => Some(resolve_p2(data)),
            None => None,
        }
    }

    /// Stores `e` in slot `index`.
    pub fn set_map(&mut self, index: u16, e: P2EMap)
        requires
            index < 512,
        ensures
            final(self)@ == old(self)@.update(index as int, e.spec_data()),
            final(self).spec_addr() == old(self).spec_addr(),
    {
        self.slots.set(index, e.data());
    }

    /// Stores `e` in slot `index`.
    pub fn set_ref(&mut self, index: u16, e: P2ERef)
        requires
            index < 512,
        ensures
            final(self)@ == old(self)@.update(index as int, e.spec_data()),
            final(self).spec_addr() == old(self).spec_addr(),
    {
        self.slots.set(index, e.data());
    }
}

impl Default for P2 {
    /// A table of zero entries at address 0.
    fn default() -> (r: P2)
        ensures
            r.spec_addr() == 0,
            r@ == Seq::new(512, |_i: int| 0u64),
    {
        P2::new(0)
    }
}

impl Table for P2 {
    type Handle = P2EHandle;

    /// Always 4095: the table is one page.
    open spec fn spec_limit(&self) -> u16 {
        4095
    }

    closed spec fn spec_addr(&self) -> u64 {
        self.slots.addr
    }

    open spec fn spec_step() -> u16 {
        8
    }

    proof fn lemma_step() {
    }

    fn limit(&self) -> (r: u16) {
        4095
    }

    fn addr(&self) -> (r: u64) {
        self.slots.addr
    }

    fn limit_step() -> (r: u16) {
        8
    }
}

/// A level 3 (page directory pointer) table: 512 entries of eight bytes, one 4 KiB page.
#[derive(Debug)]
pub struct P3 {
    slots: Slots,
}

impl View for P3 {
    type V = Seq<u64>;

    /// The words of the 512 entries.
    closed spec fn view(&self) -> Seq<u64> {
        self.slots.entries@
    }
}

impl P3 {
    /// A table of zero entries placed at physical address `addr`.
    pub fn new(addr: u64) -> (r: P3)
        ensures
            r.spec_addr() == addr,
            r@ == Seq::new(512, |_i: int| 0u64),
    {
        P3 { slots: Slots::zeroed(addr) }
    }

    /// What slot `index` holds, or `None` past the last slot.
    pub fn variant_at(&self, index: u16) -> (r: Option<P3EVariant>)
        ensures
            r.is_some() == (index < 512),
            self@.len() == 512,
            r matches Some(P3EVariant::P3E(e)) ==> e.spec_data() == self@[index as int],
    {
        match self.slots.get(index) {
            Some(data) => Some(P3EVariant::P3E(P3E::from_data(data))),
            None => None,
        }
    }

    /// Stores `e` in slot `index`.
    pub fn set_entry(&mut self, index: u16, e: P3E)
        requires
            index < 512,
        ensures
            final(self)@ == old(self)@.update(index as int, e.spec_data()),
            final(self).spec_addr() == old(self).spec_addr(),
    {
        self.slots.set(index, e.data());
    }
}

impl Default for P3 {
    /// A table of zero entries at address 0.
    fn default() -> (r: P3)
        ensures
            r.spec_addr() == 0,
            r@ == Seq::new(512, |_i: int| 0u64),
    {
        P3::new(0)
    }
}

impl Table for P3 {
    type Handle = P3EHandle;

    /// Always 4095: the table is one page.
    open spec fn spec_limit(&self) -> u16 {
        4095
    }

    closed spec fn spec_addr(&self) -> u64 {
        self.slots.addr
    }

    open spec fn spec_step() -> u16 {
        8
    }

    proof fn lemma_step() {
    }

    fn limit(&self) -> (r: u16) {
        4095
    }

    fn addr(&self) -> (r: u64) {
        self.slots.addr
    }

    fn limit_step() -> (r: u16) {
        8
    }
}

/// A level 4 (PML4) table: 512 entries of eight bytes, one 4 KiB page.
#[derive(Debug)]
pub struct P4 {
    slots: Slots,
}

impl View for P4 {
    type V = Seq<u64>;

    /// The words of the 512 entries.
    closed spec fn view(&self) -> Seq<u64> {
        self.slots.entries@
    }
}

impl P4 {
    /// A table of zero entries placed at physical address `addr`.
    pub fn new(addr: u64) -> (r: P4)
        ensures
            r.spec_addr() == addr,
            r@ == Seq::new(512, |_i: int| 0u64),
    {
        P4 { slots: Slots::zeroed(addr) }
    }

    /// What slot `index` holds, or `None` past the last slot.
    pub fn variant_at(&self, index: u16) -> (r: Option<P4EVariant>)
        ensures
            r.is_some() == (index < 512),
            self@.len() == 512,
            r matches Some(P4EVariant::P4E(e)) ==> e.spec_data() == self@[index as int],
    {
        match self.slots.get(index) {
            Some(data) => Some(P4EVariant::P4E(P4E::from_data(data))),
            None => None,
        }
    }

    /// Stores `e` in slot `index`.
    pub fn set_entry(&mut self, index: u16, e: P4E)
        requires
            index < 512,
        ensures
            final(self)@ == old(self)@.update(index as int, e.spec_data()),
            final(self).spec_addr() == old(self).spec_addr(),
    {
        self.slots.set(index, e.data());
    }
}

impl Default for P4 {
    /// A table of zero entries at address 0.
    fn default() -> (r: P4)
        ensures
            r.spec_addr() == 0,
            r@ == Seq::new(512, |_i: int| 0u64),
    {
        P4::new(0)
    }
}

impl Table for P4 {
    type Handle = P4EHandle;

    /// Always 4095: the table is one page.
    open spec fn spec_limit(&self) -> u16 {
        4095
    }

    closed spec fn spec_addr(&self) -> u64 {
        self.slots.addr
    }

    open spec fn spec_step() -> u16 {
        8
    }

    proof fn lemma_step() {
    }

    fn limit(&self) -> (r: u16) {
        4095
    }

    fn addr(&self) -> (r: u64) {
        self.slots.addr
    }

    fn limit_step() -> (r: u16) {
        8
    }
}

/// Whatever its other bits, a P2 word with the page-size bit set resolves to
/// a large-page mapping and with the bit clear to a table reference; setting
/// or clearing the bit leaves every other bit as it was.
pub proof fn lemma_p2_tag_round_trip(data: u64)
    by (bit_vector)
    ensures
        p2_maps_page(data | 0x80),
        !p2_maps_page(data & !0x80u64),
        (data | 0x80) & !0x80u64 == data & !0x80u64,
{
}

/// The address bits of every level share no bit with the flag bits, so the
/// mask operations can change one without touching the other.
pub proof fn lemma_address_and_flags_disjoint()
    by (bit_vector)
    ensures
        0x0007_FFFF_FFFF_F800u64 & 0x8000_0000_0000_01FFu64 == 0,
        0x0007_FFFF_FFFF_F000u64 & 0x8000_0000_0000_01FFu64 == 0,
{
}

/// Setting the bits of a mask twice is the same as setting them once;
/// clearing them and then setting them leaves exactly those bits set and
/// every other bit as it was.
pub proof fn lemma_flag_updates(data: u64, mask: u64)
    by (bit_vector)
    ensures
        (data | mask) | mask == data | mask,
        ((data & !mask) | mask) & mask == mask,
        ((data & !mask) | mask) & !mask == data & !mask,
{
}

} // verus!
