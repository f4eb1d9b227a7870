use asm_x86_64::gdt::{
    CallGateDescriptor, GdtCtrl, GdtEntryHandle, GdtRegValue, GdtVariant, SystemDescriptor,
    TssDescriptor,
};
use asm_x86_64::idt::{
    Idt, IdtCtrl, IdtGate, IdtGateHandle, IdtGateVariant, IdtRegValue, InterruptGate,
    InterruptVector, Ist, TrapGate,
};
use asm_x86_64::tables::{DescriptorType, Dpl, DtLimit, Entry, EntryHandle, RegValue, Table};

#[test]
fn idt_of_256_gates_has_256_entries() {
    let idt = IdtCtrl::new(0x10_0000, 4095);
    assert_eq!(idt.entry_count(), 256);
    assert!(idt.entry_handle(256).is_none());
    let h = idt.entry_handle(255).unwrap();
    assert_eq!(h.addr(), 0x10_0000 + 255 * 16);
    assert!(!idt.limit_broken_by(255));
    assert!(idt.limit_broken_by(256));
}

#[test]
fn entry_handle_agrees_with_entry_count() {
    for limit in [0u16, 14, 15, 16, 31, 32, 100, 4095, 65535] {
        let idt = IdtCtrl::new(0, limit);
        let count = idt.entry_count();
        assert_eq!(count as u32, (limit as u32 + 1) / 16);
        for i in 0u16..=300 {
            let some = idt.entry_handle(i).is_some();
            assert_eq!(some, i < count);
            assert_eq!(idt.limit_broken_by(i), !some);
        }
    }
}

#[test]
fn entry_count_grows_one_per_step() {
    let mut last = IdtCtrl::new(0, 15).entry_count();
    assert_eq!(last, 1);
    let mut limit: u16 = 15;
    while limit <= 65535 - 16 {
        limit += 16;
        let count = IdtCtrl::new(0, limit).entry_count();
        assert_eq!(count, last + 1);
        last = count;
    }
    assert_eq!(IdtCtrl::new(0, 14).entry_count(), 0);
    assert_eq!(GdtCtrl::new(0, 7).entry_count(), 1);
    assert_eq!(GdtCtrl::new(0, 15).entry_count(), 2);
}

#[test]
fn limit_from_index_is_last_byte_of_slot() {
    assert_eq!(IdtCtrl::limit_from_index(0), 15);
    assert_eq!(IdtCtrl::limit_from_index(255), 4095);
    assert_eq!(GdtCtrl::limit_from_index(2), 23);
    assert_eq!(IdtCtrl::limit_step(), 16);
    assert_eq!(IdtCtrl::limit_from_index_wide(4096), 65551);
    assert!(IdtCtrl::new(0, 65535).limit_broken_by(4096));
    assert!(!IdtCtrl::new(0, 65535).limit_broken_by(4095));
    assert_eq!(GdtCtrl::limit_step(), 8);
}

#[test]
fn set_limit_by_entry_count_uses_shared_formula() {
    let mut idt = IdtCtrl::new(0x2000, 0);
    idt.set_limit_by_entry_count(255);
    assert_eq!(idt.limit(), 4095);
    assert_eq!(idt.addr(), 0x2000);
    assert_eq!(idt.entry_count(), 256);
    idt.set_limit(31);
    assert_eq!(idt.limit(), 31);
    assert_eq!(idt.entry_count(), 2);
}

#[test]
fn entry_handle_address_wraps_in_64_bits() {
    let idt = IdtCtrl::new(u64::MAX - 15, 4095);
    assert_eq!(idt.entry_handle(0).unwrap().addr(), u64::MAX - 15);
    assert_eq!(idt.entry_handle(1).unwrap().addr(), 0);
    assert_eq!(idt.entry_handle(2).unwrap().addr(), 16);
}

#[test]
fn register_value_and_table_convert_both_ways() {
    let mut reg = IdtRegValue::new(0xFFFF_8000_0000_0000, 4095);
    assert_eq!(reg.addr(), 0xFFFF_8000_0000_0000);
    assert_eq!(reg.limit(), 4095);
    reg.set_limit(2047);
    reg.set_addr(0x1000);
    let table = reg.into_table();
    assert_eq!(table.addr(), 0x1000);
    assert_eq!(table.limit(), 2047);
    assert_eq!(table.entry_count(), 128);
    let back = IdtRegValue::from_table(table);
    assert_eq!(back, IdtRegValue::new(0x1000, 2047));
    let gdt = GdtRegValue::new(0x5000, 23).into_table();
    assert_eq!(gdt.entry_count(), 3);
    assert_eq!(GdtRegValue::from_table(gdt).limit(), 23);
}

#[test]
fn descriptor_type_values() {
    assert_eq!(DescriptorType::from_type_field(0b1110), DescriptorType::InterruptGate);
    assert_eq!(DescriptorType::from_type_field(0b1111), DescriptorType::TrapGate);
    assert_eq!(DescriptorType::from_type_field(0b0010), DescriptorType::Ldt);
    assert_eq!(DescriptorType::from_type_field(0b1001), DescriptorType::TssAvailable);
    assert_eq!(DescriptorType::from_type_field(0b1011), DescriptorType::TssBusy);
    assert_eq!(DescriptorType::from_type_field(0b1100), DescriptorType::CallGate);
    for v in [0u16, 1, 3, 4, 5, 6, 7, 8, 0b1010, 0b1101] {
        assert_eq!(DescriptorType::from_type_field(v), DescriptorType::Reserved);
    }
    assert_eq!(DescriptorType::from(0b1110u16), DescriptorType::InterruptGate);
    assert_eq!(DescriptorType::from(0b0101u16), DescriptorType::Reserved);
    assert_eq!(DescriptorType::InterruptGate.code(), 0b1110);
    assert_eq!(DescriptorType::Reserved.code(), 16);
    assert_eq!(DescriptorType::type_field_from_raw64(0x0000_8E00_0000_0000), 0b1110);
    assert_eq!(DescriptorType::type_field_from_flags(0x8F00), 0b1111);
}

#[test]
fn dpl_numbers() {
    assert_eq!(Dpl::from_num(0), Some(Dpl::Dpl0));
    assert_eq!(Dpl::from_num(3), Some(Dpl::Dpl3));
    assert_eq!(Dpl::from_num(4), None);
    assert_eq!(Dpl::Dpl2.num(), 2);
}

#[test]
fn gate_defaults_carry_their_type() {
    let t = TrapGate::default();
    assert_eq!(t.flags(), 0x0F00);
    assert_eq!(t.type_enum(), DescriptorType::TrapGate);
    let i = InterruptGate::default();
    assert_eq!(i.flags(), 0x0E00);
    assert_eq!(i.type_value(), 0b1110);
    assert!(!i.present());
    assert_eq!(TrapGate::size(), 16);
}

#[test]
fn set_offset_then_offset_round_trips() {
    let mut g = InterruptGate::default();
    for x in [0u64, 1, 0xFFFF, 0x1_0000, 0xFFFF_8000_0012_3456, 0x0000_7FFF_FFFF_FFFF, u64::MAX] {
        g.set_offset(x);
        assert_eq!(g.offset(), x);
    }
    g.set_offset(0x1122_3344_5566_7788);
    assert_eq!(g.offset_fields(), (0x7788, 0x5566, 0x1122_3344));
    assert_eq!(g.flags(), 0x0E00);
}

#[test]
fn gate_flag_fields_are_independent() {
    let mut g = TrapGate::default();
    g.set_segsel(0x08);
    g.set_present(true);
    g.set_dpl(Dpl::Dpl3);
    g.set_ist(Ist::Ist2);
    assert_eq!(g.flags(), 0x8000 | 0x6000 | 0x0F00 | 0x2);
    assert!(g.present());
    assert_eq!(g.dpl(), Dpl::Dpl3);
    assert_eq!(g.ist(), Ist::Ist2);
    assert_eq!(g.type_enum(), DescriptorType::TrapGate);
    g.set_present(false);
    g.set_dpl(Dpl::Dpl1);
    assert_eq!(g.flags(), 0x2000 | 0x0F00 | 0x2);
    assert_eq!(g.segsel(), 0x08);
}

#[test]
fn gate_raw_words_round_trip() {
    let mut g = InterruptGate::default();
    g.set_offset(0xFFFF_8000_0010_2030);
    g.set_segsel(0x10);
    g.set_present(true);
    let (lo, hi) = g.to_raw();
    assert_eq!(lo, 0x0010_8E00_0010_2030);
    assert_eq!(hi, 0xFFFF_8000);
    let back = InterruptGate::from_raw(lo, hi);
    assert_eq!(back.offset(), 0xFFFF_8000_0010_2030);
    assert_eq!(back.segsel(), 0x10);
    assert_eq!(back.flags(), 0x8E00);
}

#[test]
fn idt_slot_resolves_by_type_field() {
    let h = IdtGateHandle::new_by_addr(0x3000);
    assert_eq!(h.addr(), 0x3000);
    let mut t = TrapGate::default();
    t.set_offset(0xABCD);
    match h.variant(t.to_raw()) {
        IdtGateVariant::Trap(g) => assert_eq!(g.offset(), 0xABCD),
        _ => panic!("expected a trap gate"),
    }
    let i = InterruptGate::default();
    assert!(matches!(h.variant(i.to_raw()), IdtGateVariant::Interrupt(_)));
    assert!(matches!(h.variant((0, 0)), IdtGateVariant::Unknown));
    assert!(matches!(h.variant((0x0000_8C00_0000_0000, 0)), IdtGateVariant::Unknown));
}

#[test]
fn interrupt_vector_numbers() {
    assert_eq!(InterruptVector::DivideError.number(), 0);
    assert_eq!(InterruptVector::DoubleFault.number(), 8);
    assert_eq!(InterruptVector::PageFault.number(), 14);
    assert_eq!(InterruptVector::VirtualizationException.number(), 20);
}

#[test]
fn gdt_slot_resolves_by_shape() {
    let h = GdtEntryHandle::from_addr(0x8000);
    assert!(matches!(h.variant((0, 0)), GdtVariant::Null(_)));
    // A 64-bit code segment: bit 44 set.
    assert!(matches!(h.variant((0x00AF_9A00_0000_FFFF, 0)), GdtVariant::Unknown));
    // An available TSS at base 0x12_3456_7890, limit 0x67.
    let lo: u64 = 0x0000_8900_0000_0067 | (0x7890 << 16) | (0x56 << 56);
    match h.variant((lo, 0x12_34)) {
        GdtVariant::Tss(d) => {
            assert_eq!(d.base(), 0x12_3456_7890);
            assert_eq!(d.flags(), (0x8900, 0));
        },
        _ => panic!("expected a TSS descriptor"),
    }
    assert!(matches!(h.variant((0x0000_8200_0000_0000 | 1, 0)), GdtVariant::Ldt(_)));
    assert!(matches!(h.variant((0x0000_8C00_0000_0000 | 1, 0)), GdtVariant::Call(_)));
}

#[test]
fn tss_descriptor_base_and_flags() {
    let mut d = TssDescriptor::from_raw(0, 0);
    d.set_base(0xFFFF_FFFF_1234_5678);
    assert_eq!(d.base(), 0x00FF_FFFF_1234_5678);
    d.set_flags0(0x8900);
    d.set_flags1(0x80);
    assert_eq!(d.masked_flags0(0x8000), 0x8000);
    assert_eq!(d.unmasked_flags0(0x8000), 0x0900);
    assert_eq!(d.masked_flags1(0x80), 0x80);
    assert_eq!(d.unmasked_flags1(0x80), 0);
    assert_eq!(d.base(), 0x00FF_FFFF_1234_5678);
}

#[test]
fn call_gate_flags() {
    let mut c = CallGateDescriptor::from_raw(0x0000_8C00_0000_0000, 0);
    assert_eq!(c.flags(), 0x8C00);
    c.set_flags(0xEC00);
    assert_eq!(c.masked_flags(0x6000), 0x6000);
    assert_eq!(c.unmasked_flags(0x6000), 0x8C00);
}

#[test]
fn idt_image_holds_gates_by_vector() {
    let mut idt = Idt::new();
    assert!(matches!(idt.variant(0), IdtGateVariant::Unknown));
    let mut pf = InterruptGate::default();
    pf.set_offset(0xFFFF_8000_0000_1000);
    pf.set_segsel(8);
    pf.set_present(true);
    idt.set_interrupt(InterruptVector::PageFault.number(), &pf);
    let mut bp = TrapGate::default();
    bp.set_dpl(Dpl::Dpl3);
    idt.set_trap(3, &bp);
    match idt.variant(14) {
        IdtGateVariant::Interrupt(g) => {
            assert_eq!(g.offset(), 0xFFFF_8000_0000_1000);
            assert!(g.present());
        },
        _ => panic!("expected an interrupt gate"),
    }
    match idt.variant(3) {
        IdtGateVariant::Trap(g) => assert_eq!(g.dpl(), Dpl::Dpl3),
        _ => panic!("expected a trap gate"),
    }
    assert_eq!(idt.words(255), (0, 0));
    idt.set_words(255, (1, 2));
    assert_eq!(idt.words(255), (1, 2));
}
