use asm_x86_64::paging::{
    EntryData, P1E, P1EHandle, P1EVariant, P2EHandle, P2EMap, P2ERef, P2EVariant, P3E, P4E,
    PageFlag, P1, P2, P3, P4,
};
use asm_x86_64::tables::{Entry, EntryHandle, Table};

#[test]
fn p2_map_default_resolves_to_large_page_at_zero() {
    let mut p2 = P2::new(0x20_0000);
    p2.set_map(7, P2EMap::default());
    match p2.variant_at(7) {
        Some(P2EVariant::LargePage(e)) => {
            assert_eq!(e.data() & PageFlag::p2addrmap().bits(), 0);
            assert_eq!(e.data(), 0x80);
        },
        _ => panic!("expected a large-page mapping"),
    }
    assert!(matches!(p2.variant_at(6), Some(P2EVariant::Ref(_))));
}

#[test]
fn p2_tag_bit_decides_the_variant() {
    let h = P2EHandle::from_raw_addr(0x1000);
    for rest in [0u64, 0x1234_5000, 0x8000_0000_0000_0003, 0x0007_FFFF_FFFF_F000] {
        match h.variant(rest | 0x80) {
            P2EVariant::LargePage(e) => assert_eq!(e.data(), rest | 0x80),
            _ => panic!("page-size bit set"),
        }
        match h.variant(rest & !0x80) {
            P2EVariant::Ref(e) => assert_eq!(e.data(), rest & !0x80),
            _ => panic!("page-size bit clear"),
        }
    }
    let mut e = P2EMap::default();
    e.data_or(PageFlag::present().union(PageFlag::rw()));
    e.data_bitwise_or(0x4000_0000);
    assert!(matches!(h.variant(e.data()), P2EVariant::LargePage(_)));
    assert!(matches!(h.variant(P2ERef::default().data()), P2EVariant::Ref(_)));
}

#[test]
fn flag_or_is_idempotent() {
    for (start, f) in [(0u64, 0x3u64), (0x8000_0000_0000_0001, 0x101), (0xFFFF, 0xF0F0_0000)] {
        let mut once = P1E::from_data(start);
        once.data_bitwise_or(f);
        let mut twice = P1E::from_data(start);
        twice.data_bitwise_or(f);
        twice.data_bitwise_or(f);
        assert_eq!(once, twice);
        assert_eq!(once.data(), start | f);
    }
}

#[test]
fn clear_then_or_sets_exactly_the_mask() {
    let start: u64 = 0x8000_0000_1234_5FFF;
    let f = PageFlag::rw().union(PageFlag::pcd()).union(PageFlag::global());
    let mut e = P4E::from_data(start);
    e.data_clear(f);
    assert_eq!(e.data(), start & !0x112);
    e.data_or(f);
    assert_eq!(e.data() & 0x112, 0x112);
    assert_eq!(e.data() & !0x112, start & !0x112);
}

#[test]
fn replace_and_rewrite() {
    let mut e = P3E::from_data(0x0000_0000_0012_3003);
    e.data_bitwise_replace(PageFlag::p3addr().bits(), 0x0000_0000_0045_6000);
    assert_eq!(e.data(), 0x0000_0000_0045_6003);
    e.data_replace(PageFlag::rw(), PageFlag::us());
    assert_eq!(e.data(), 0x0000_0000_0045_6005);
    e.data_rewrite(PageFlag::xd());
    assert_eq!(e.data(), 0x8000_0000_0000_0000);
    e.data_bitwise_clear(u64::MAX);
    assert_eq!(e.data(), 0);
}

#[test]
fn page_flag_values() {
    assert_eq!(PageFlag::present().bits(), 1);
    assert_eq!(PageFlag::rw().bits(), 2);
    assert_eq!(PageFlag::us().bits(), 4);
    assert_eq!(PageFlag::pwt().bits(), 8);
    assert_eq!(PageFlag::pcd().bits(), 0x10);
    assert_eq!(PageFlag::accessed().bits(), 0x20);
    assert_eq!(PageFlag::dirty().bits(), 0x40);
    assert_eq!(PageFlag::pat().bits(), 0x80);
    assert_eq!(PageFlag::ps().bits(), 0x80);
    assert_eq!(PageFlag::global().bits(), 0x100);
    assert_eq!(PageFlag::xd().bits(), 1 << 63);
    assert_eq!(PageFlag::p1addr().bits(), 0x0007_FFFF_FFFF_F800);
    assert_eq!(PageFlag::p2addrref().bits(), 0x0007_FFFF_FFFF_F000);
    assert_eq!(PageFlag::from_bits(0x42).bits(), 0x42);
}

#[test]
fn paging_tables_are_one_page_of_512_entries() {
    let p1 = P1::new(0x7000);
    assert_eq!(p1.limit(), 4095);
    assert_eq!(p1.entry_count(), 512);
    assert_eq!(P1::limit_step(), 8);
    assert_eq!(p1.addr(), 0x7000);
    assert!(p1.entry_handle(512).is_none());
    assert_eq!(p1.entry_handle(511).unwrap().addr(), 0x7000 + 511 * 8);
    assert!(p1.variant_at(512).is_none());
    let p4 = P4::default();
    assert_eq!(p4.addr(), 0);
    assert_eq!(P1E::size(), 8);
}

#[test]
fn paging_table_slots_keep_what_is_stored() {
    let mut p1 = P1::new(0);
    let mut e = P1E::default();
    e.data_or(PageFlag::present());
    e.data_bitwise_or(0x0000_0000_1234_5000);
    p1.set_entry(511, e);
    match p1.variant_at(511) {
        Some(P1EVariant::P1E(x)) => assert_eq!(x.data(), 0x1234_5001),
        None => panic!("slot 511 exists"),
    }
    match p1.variant_at(0) {
        Some(P1EVariant::P1E(x)) => assert_eq!(x.data(), 0),
        None => panic!("slot 0 exists"),
    }
    let mut p3 = P3::new(0);
    p3.set_entry(1, P3E::from_data(3));
    assert!(p3.variant_at(1).is_some());
    let mut p2 = P2::default();
    p2.set_ref(2, P2ERef::from_data(0x5000 | 1));
    assert!(matches!(p2.variant_at(2), Some(P2EVariant::Ref(r)) if r.data() == 0x5001));
    let h = P1EHandle::from_raw_addr(0x10);
    assert!(matches!(h.variant(9), P1EVariant::P1E(x) if x.data() == 9));
}
