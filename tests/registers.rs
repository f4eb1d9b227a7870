use asm_x86_64::apic::{
    Apr, DeliveryMode, DeliveryStatus, DestinationMode, DestinationShorthand, Dfr,
    DivideConfiguration, DivideValue, Eoi, Icr, Icr0, Icr1, IcrLevel, Ldr, LocalApic,
    LocalApicReg, LvtDelivery, LvtEntry, LvtLint, LvtLint0, LvtTimer, LvtTimerMode, MdaModel,
    PinPolarity, PriorityClass, Register32, SpuriousInterrupt, TimerInitialCount, Tpr,
    TriggerMode, Version, VersionNumber,
};
use asm_x86_64::bit::{bsf_i16, bsf_i32, bsf_i64, bsf_u16, bsf_u32, bsf_u64, bsr_i32, bsr_u16, bsr_u64};
use asm_x86_64::cpuid::{Features, Info, InfoType, VendorString, Xsave0, Xsave1, XsaveInfoType};
use asm_x86_64::cr::{Cr3, Cr4};
use asm_x86_64::msr::{ApicBase, Info as MsrInfo, Msr, TscDeadline};
use asm_x86_64::pic::Pic;
use asm_x86_64::pit::{
    cmd_port, AccessMode, Channel, Command, OperatingMode, Pit, ReloadWrite, StatusByte,
};
use asm_x86_64::port::{Port, PortWrite};
use asm_x86_64::xsave::{fast_is_supported, Mask};

#[test]
fn bit_scans() {
    assert_eq!(bsf_u64(0), None);
    assert_eq!(bsf_u64(0b1000), Some(3));
    assert_eq!(bsf_u64(1 << 63), Some(63));
    assert_eq!(bsr_u64(0b1010), Some(3));
    assert_eq!(bsr_u64(u64::MAX), Some(63));
    assert_eq!(bsr_u64(0), None);
    assert_eq!(bsf_u32(0x8000_0000), Some(31));
    assert_eq!(bsf_u16(0x0100), Some(8));
    assert_eq!(bsr_u16(1), Some(0));
    assert_eq!(bsf_i64(-1), Some(0));
    assert_eq!(bsf_i32(i32::MIN), Some(31));
    assert_eq!(bsr_i32(-1), Some(31));
    assert_eq!(bsf_i16(0), None);
}

#[test]
fn apic_register_addresses() {
    let mut msr = ApicBase::from_info(MsrInfo { eax: 0xFEE0_0900, edx: 0 });
    assert!(msr.bsp());
    assert!(msr.apic_global_enabled());
    assert!(!msr.x2apic_enabled());
    assert_eq!(msr.apic_base(), 0xFEE0_0000);
    let mut apic = LocalApic::from_apic_base(msr);
    assert_eq!(apic.base_addr(), 0xFEE0_0000);
    assert_eq!(LocalApicReg::Eoi.ptr32(&apic), 0xFEE0_00B0);
    assert_eq!(LocalApicReg::DivideConfiguration.ptr64(&apic), 0xFEE0_03E0);
    assert_eq!(LocalApicReg::Id.ptr128_mut(&mut apic), 0xFEE0_0020);
    apic.set_base_addr(0x1_2345_6789);
    assert_eq!(apic.base_addr(), 0x1_2345_6000);
    assert_eq!(apic.apic_base_msr().info().eax & 0xFFF, 0x900);
    msr.apic_global_disable();
    assert!(!msr.apic_global_enabled());
    msr.apic_global_enable();
    assert_eq!(msr.info().eax, 0xFEE0_0900);
    assert_eq!(ApicBase::msr().id(), 0x1B);
    assert_eq!(Msr::TscDeadline.id(), 0x6E0);
}

#[test]
fn local_apic_presence_from_cpuid() {
    let f = Features::from(Info { eax: 0, ebx: 0, ecx: 0, edx: 1 << 9 });
    assert!(LocalApic::local_apic_is_present(&f));
    let g = Features::from(Info { eax: 0, ebx: 0, ecx: 0, edx: 1 << 8 });
    assert!(!LocalApic::local_apic_is_present(&g));
}

#[test]
fn priority_classes() {
    assert!(PriorityClass::try_new(16).is_none());
    let c = PriorityClass::try_new(0xA).unwrap();
    assert_eq!(c.value(), 0xA);
    let mut tpr = Tpr::from_raw(0);
    tpr.set_class(c);
    tpr.set_subclass(PriorityClass::try_new(3).unwrap());
    assert_eq!(tpr.class_field(), 0xA3);
    assert_eq!(tpr.class().value(), 0xA);
    assert_eq!(tpr.subclass().value(), 3);
    let mut apr = Apr::from_raw(0xFFFF_FF00);
    apr.set_class_field(0x5C);
    assert_eq!(apr.raw(), 0xFFFF_FF5C);
    assert_eq!(apr.class().value(), 5);
}

#[test]
fn version_and_simple_registers() {
    let v = Version::from_raw(0x0105_0014);
    assert_eq!(v.version(), VersionNumber::Integrated(0x14));
    assert_eq!(v.max_lvt_entry(), 5);
    assert!(v.eoi_broadcast_suppression());
    assert_eq!(VersionNumber::from_number(0x0F), VersionNumber::Discrete(0x0F));
    let mut e = Eoi::from_raw(0x1234);
    e.signal();
    assert_eq!(e.raw(), 0);
    let mut l = Ldr::from_raw(0x00AB_CDEF);
    l.set_logical_apic_id(0x12);
    assert_eq!(l.logical_apic_id(), 0x12);
    assert_eq!(l.raw(), 0x12AB_CDEF);
    let mut d = Dfr::from_raw(0x0FFF_FFFF);
    assert_eq!(d.model(), MdaModel::Flat);
    d.set_model(MdaModel::Cluster);
    assert_eq!(d.model(), MdaModel::Cluster);
    assert_eq!(Dfr::from_raw(0x3000_0000).model(), MdaModel::Reserved(0x30));
    let mut t = TimerInitialCount::from_raw(5);
    t.set(1000);
    assert_eq!(t.value(), 1000);
    t.stop_timer();
    assert_eq!(t.value(), 0);
}

#[test]
fn spurious_interrupt_register() {
    let mut s = SpuriousInterrupt::from_raw(0);
    s.set_vector(0xFF);
    s.software_enable_apic();
    assert_eq!(s.raw(), 0x1FF);
    assert!(s.is_apic_software_enabled());
    assert!(s.focus_processor_checking());
    s.disable_focus_processor_checking();
    assert!(!s.focus_processor_checking());
    s.enable_focus_processor_checking();
    s.enable_eoi_broadcast_suppression();
    assert!(s.eoi_broadcast_suppression());
    s.disable_eoi_broadcast_suppression();
    s.software_disable_apic();
    assert_eq!(s.raw(), 0xFF);
    assert_eq!(s.vector(), 0xFF);
}

#[test]
fn lvt_registers() {
    let mut lint = LvtLint0::from_raw(0);
    lint.set_vector(0x40);
    lint.only_set_delivery_mode(DeliveryMode::ExtInt);
    lint.set_input_polarity(PinPolarity::ActiveLow);
    lint.set_trigger_mode(TriggerMode::LevelSensitive);
    lint.mask();
    assert_eq!(lint.raw(), 0x0001_A740);
    assert_eq!(lint.vector(), 0x40);
    assert_eq!(lint.delivery_mode(), DeliveryMode::ExtInt);
    assert_eq!(lint.input_polarity(), PinPolarity::ActiveLow);
    assert_eq!(lint.trigger_mode(), TriggerMode::LevelSensitive);
    assert!(lint.masked());
    assert!(!lint.remote_irr());
    assert_eq!(lint.delivery_status(), DeliveryStatus::Idle);
    lint.unmask();
    assert!(!lint.masked());
    assert_eq!(LvtLint0::from_raw(0x300).delivery_mode(), DeliveryMode::Reserved(3));
    let mut timer = LvtTimer::from_raw(0x20);
    timer.set_mode(LvtTimerMode::Periodic);
    assert_eq!(timer.raw(), 0x0002_0020);
    assert_eq!(timer.mode(), LvtTimerMode::Periodic);
    assert_eq!(LvtTimer::from_raw(0x0006_0000).mode(), LvtTimerMode::Reserved);
}

#[test]
fn interrupt_command_register() {
    let mut icr0 = Icr0::from_raw(0);
    icr0.set_vector(0x30);
    icr0.set_delivery_mode(DeliveryMode::Init);
    icr0.set_destination_mode(DestinationMode::Logical);
    icr0.set_level(IcrLevel::Assert);
    icr0.set_trigger_mode(TriggerMode::LevelSensitive);
    icr0.set_destination_shorthand(DestinationShorthand::AllExcludingSelf);
    assert_eq!(icr0.raw(), 0x000C_CD30);
    assert_eq!(icr0.destination_shorthand(), DestinationShorthand::AllExcludingSelf);
    assert_eq!(icr0.delivery_mode(), DeliveryMode::Init);
    icr0.set_level(IcrLevel::Deassert);
    assert_eq!(icr0.level(), IcrLevel::Deassert);
    let mut icr1 = Icr1::from_raw(0x00FF_FFFF);
    icr1.set_destination(0x7);
    assert_eq!(icr1.raw(), 0x07FF_FFFF);

    let mut icr = Icr::new(Icr0::from_raw(0x1000), Icr1::from_raw(0));
    icr.set_vector(0x20);
    icr.set_destination(3);
    icr.set_delivery_mode(DeliveryMode::Fixed);
    icr.set_destination_mode(DestinationMode::Physical);
    icr.set_level(IcrLevel::Assert);
    icr.set_trigger_mode(TriggerMode::EdgeSensitive);
    icr.set_destination_shorthand(DestinationShorthand::NoShorthand);
    assert_eq!(icr.vector(), 0x20);
    assert_eq!(icr.destination(), 3);
    assert_eq!(icr.level(), IcrLevel::Assert);
    assert_eq!(icr.delivery_mode(), DeliveryMode::Fixed);
    assert_eq!(icr.destination_mode(), DestinationMode::Physical);
    assert_eq!(icr.trigger_mode(), TriggerMode::EdgeSensitive);
    assert_eq!(icr.destination_shorthand(), DestinationShorthand::NoShorthand);
    assert_eq!(icr.delivery_status(), DeliveryStatus::SendPending);
    let (hi, lo) = icr.apply();
    assert_eq!(hi.raw(), 0x0300_0000);
    assert_eq!(lo.raw(), 0x5020);
    icr.set_vector(0x21);
    icr.restore_icr0();
    assert_eq!(icr.vector(), 0x20);
    icr.set_destination(9);
    icr.restore_icr1();
    assert_eq!(icr.destination(), 3);
    icr.set_vector(0x22);
    assert_eq!(icr.apply_icr0().raw(), 0x5022);
}

#[test]
fn divide_configuration() {
    let mut d = DivideConfiguration::from_raw(0);
    d.set_1();
    assert_eq!(d.raw(), 0b1011);
    assert_eq!(d.get(), DivideValue::Div1);
    d.set_2();
    assert_eq!(d.get(), DivideValue::Div2);
    d.set_4();
    assert_eq!(d.raw(), 0b0001);
    d.set_8();
    assert_eq!(d.get(), DivideValue::Div8);
    d.set_16();
    assert_eq!(d.get(), DivideValue::Div16);
    d.set_32();
    assert_eq!(d.raw(), 0b1000);
    d.set_64();
    assert_eq!(d.get(), DivideValue::Div64);
    d.set_128();
    assert_eq!(d.get(), DivideValue::Div128);
    d.set(DivideValue::Div4);
    assert_eq!(d.get(), DivideValue::Div4);
}

#[test]
fn cpuid_fields() {
    let f = Features::from(Info { eax: 0x000A_06A7, ebx: 0x0410_0800, ecx: (1 << 26) | (1 << 24), edx: 0 });
    assert_eq!(f.stepping_id(), 7);
    assert_eq!(f.model(), 0xA);
    assert_eq!(f.family_id(), 6);
    assert_eq!(f.processor_type(), 0);
    assert_eq!(f.extended_model_id(), 0xA);
    assert_eq!(f.extended_family_id(), 0);
    assert_eq!(f.brand_index(), 0);
    assert_eq!(f.clflush_line_size(), 8);
    assert_eq!(f.max_addressable_ids(), 0x10);
    assert_eq!(f.initial_apic_id(), 4);
    assert!(f.tsc_deadline_supported());
    assert!(f.xsave_supported());
    assert!(fast_is_supported(f));
    assert_eq!(Features::leaf().code(), 1);
    assert_eq!(InfoType::IntelBrandStringEnd.code(), 0x8000_0004);
    assert_eq!(XsaveInfoType::Subf1.code(), 1);
    let x0 = Xsave0::from(Info { eax: 0, ebx: 576, ecx: 2696, edx: 0 });
    assert_eq!(x0.size_of_all(), 2696);
    assert_eq!(x0.size_of_current(), 576);
    let x1 = Xsave1::from(Info { eax: 0b1011, ebx: 640, ecx: 0, edx: 0 });
    assert!(x1.xsaveopt_supported());
    assert!(x1.compact_form_supported());
    assert!(!x1.xgetbv_supported());
    assert!(x1.xsaves_supported());
    assert_eq!(x1.xsaves_size_of_current(), 640);
}

#[test]
fn cpuid_vendor_string() {
    // "GenuineIntel": EBX "Genu", EDX "ineI", ECX "ntel".
    let v = VendorString::from(Info { eax: 0x16, ebx: 0x756E_6547, ecx: 0x6C65_746E, edx: 0x4965_6E69 });
    let mut s = ['x'; 13];
    v.vendor(&mut s);
    let text: String = s[..12].iter().collect();
    assert_eq!(text, "GenuineIntel");
    assert_eq!(s[12], '\0');
    assert_eq!(v.max_value(), 0x16);
}

#[test]
fn tsc_deadline_value() {
    let mut t = TscDeadline::from_info(MsrInfo { eax: 0, edx: 0 });
    t.set(0x1234_5678_9ABC_DEF0);
    assert_eq!(t.value(), 0x1234_5678_9ABC_DEF0);
    assert_eq!(t.info(), MsrInfo { eax: 0x9ABC_DEF0, edx: 0x1234_5678 });
    t.disarm();
    assert_eq!(t.value(), 0);
}

#[test]
fn control_registers() {
    let mut cr3 = Cr3::from_raw(0x0000_0000_0010_0018);
    assert!(cr3.pwt());
    assert!(cr3.pcd());
    assert_eq!(cr3.addr(), 0x10_0000);
    cr3.set_pwt(false);
    cr3.set_addr(0x20_0FFF);
    assert_eq!(cr3.raw(), 0x20_0810);
    cr3.set_pcd(false);
    assert_eq!(cr3.raw(), 0x20_0800);
    let mut cr4 = Cr4::from_raw(0);
    cr4.enable_osxsave();
    cr4.enable_vme();
    assert_eq!(cr4.raw(), (1 << 18) | 1);
    assert!(cr4.osxsave());
    assert!(!cr4.pvi());
    cr4.enable_pvi();
    cr4.disable_vme();
    cr4.disable_osxsave();
    assert_eq!(cr4.raw(), 2);
    assert!(cr4.pvi());
    assert!(!cr4.vme());
    cr4.disable_pvi();
    assert_eq!(cr4.raw(), 0);
}

#[test]
fn xsave_mask() {
    let mut m = Mask::default();
    m.enable_sse();
    m.enable_avx();
    m.enable_avx512();
    assert_eq!(m.bits(), 0x2 | 0x4 | 0xE0);
    assert!(m.avx512());
    assert!(!m.mpx());
    m.enable_mpx();
    m.enable_pkru();
    assert!(m.pkru());
    m.disable_avx512();
    m.disable_mpx();
    assert!(m.sse() && m.avx());
    m.disable_sse();
    m.disable_avx();
    m.disable_pkru();
    assert_eq!(m.bits(), 0);
    assert_eq!(Mask::from(0x18).mpx(), true);
}

#[test]
fn pit_command_bytes() {
    let c = Command::new(Some(Channel::Channel2), Some(AccessMode::LoHiByte), OperatingMode::SquareWaveGenerator);
    assert_eq!(c.value(), 0b1011_0110);
    assert_eq!(c.channel(), Some(Channel::Channel2));
    assert_eq!(c.access_mode(), Some(AccessMode::LoHiByte));
    assert_eq!(c.operating_mode(), OperatingMode::SquareWaveGenerator);
    assert!(c.is_binary_mode());
    let rb = Command::new_with_bcd(None, None, OperatingMode::InterruptOnTerminalCount, true);
    assert_eq!(rb.value(), 0b1100_0001);
    assert_eq!(rb.channel(), None);
    assert_eq!(rb.access_mode(), None);
    assert!(rb.is_bcd_mode());
    let s = StatusByte::from_raw(0b1111_0101);
    assert!(s.output_pin_state());
    assert!(s.null_count_flags());
    assert_eq!(s.access_mode(), Some(AccessMode::LoHiByte));
    assert_eq!(s.operating_mode(), OperatingMode::RateGenerator);
    assert!(s.is_bcd_mode());
    assert!(!s.is_binary_mode());
    assert_eq!(cmd_port().value(), 0x43);
    assert_eq!(Channel::Channel2.port().value(), 0x42);
}

#[test]
fn pit_commits() {
    let mut pit = Pit::new_no_sync();
    assert_eq!(pit.ch0_operating(), OperatingMode::RateGenerator);
    assert_eq!(pit.ch2_reload_count(), 1);
    pit.ch0_set_operating(OperatingMode::SquareWaveGenerator);
    pit.ch0_set_reload(0x1234);
    assert_eq!(pit.ch0_pending_reload_count(), 0x1234);
    assert_eq!(pit.ch0_reload_count(), 0);
    let (cmd, write) = pit.ch0_commit_all();
    assert_eq!(cmd.value(), 0b0011_0110);
    assert_eq!(write, ReloadWrite::Word(0x1234));
    assert_eq!(pit.ch0_reload_count(), 0x1234);
    assert_eq!(pit.ch0_operating(), OperatingMode::SquareWaveGenerator);

    pit.ch2_set_access(AccessMode::HiByteOnly);
    pit.ch2_set_reload(0xABCD);
    assert_eq!(pit.ch2_pending_access(), AccessMode::HiByteOnly);
    assert_eq!(pit.ch2_access(), AccessMode::LoHiByte);
    let cmd2 = pit.ch2_commit_settings();
    assert_eq!(cmd2.value(), 0b1010_1000);
    assert_eq!(pit.ch2_commit_reload(), ReloadWrite::Byte(0xAB));
    assert_eq!(pit.ch2_reload_count(), 0xAB00);
    assert_eq!(pit.ch2_pending_reload_count(), 0xABCD);
    pit.ch2_set_access(AccessMode::LoByteOnly);
    let _ = pit.ch2_commit_settings();
    assert_eq!(pit.ch2_commit_reload(), ReloadWrite::Byte(0xCD));
    assert_eq!(pit.ch2_reload_count(), 0x00CD);
    assert_eq!(pit.ch2_operating(), OperatingMode::SoftwareTriggeredStrobe);
    assert_eq!(pit.ch2_pending_operating(), OperatingMode::SoftwareTriggeredStrobe);
    assert_eq!(pit.ch0_access(), AccessMode::LoHiByte);
    assert_eq!(pit.ch0_pending_access(), AccessMode::LoHiByte);
    assert_eq!(pit.ch0_pending_operating(), OperatingMode::SquareWaveGenerator);
}

#[test]
fn pic_writes() {
    let pic = Pic::new();
    let d = pic.disable();
    assert_eq!(d, [PortWrite { port: 0xA1, value: 0xFF }, PortWrite { port: 0x21, value: 0xFF }]);
    let r = pic.remap(0x20, 0x28, 0xFB, 0xFF);
    assert_eq!(r[0], PortWrite { port: 0x20, value: 0x11 });
    assert_eq!(r[2], PortWrite { port: 0x21, value: 0x20 });
    assert_eq!(r[3], PortWrite { port: 0xA1, value: 0x28 });
    assert_eq!(r[8], PortWrite { port: 0x21, value: 0xFB });
    assert_eq!(r[9], PortWrite { port: 0xA1, value: 0xFF });
}

#[test]
fn ports() {
    assert_eq!(Port::number(0x60).value(), 0x60);
    assert_eq!(Port::from(0x3F8u16).value(), 0x3F8);
    assert_eq!(Port::from(-1i16).value(), 0xFFFF);
}
