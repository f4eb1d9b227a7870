//! Local APIC register values and the fields they hold. Reading and
//! writing the memory-mapped registers is left to the caller: each register
//! type converts from and to its raw 32-bit value.
use vstd::prelude::*;

use crate::bitfield::{
    bit_u32, bits_u32, get_bit_u32, get_bits_u32, lemma_small_shifts, set_bit_u32, set_bits_u32,
    with_bit_u32, with_bits_u32,
};
use crate::cpuid::Features;
use crate::msr::{msr_value, ApicBase};

verus! {

/// The local APIC registers.
#[derive(Clone, Copy, Debug, PartialEq, Eq, Structural)]
pub enum LocalApicReg {
    Id,
    Version,
    TaskPriority,
    ArbitrationPriority,
    ProcessorPriority,
    Eoi,
    RemoteRead,
    LogicalDestination,
    DestinationFormat,
    SpuriousInterruptVector,
    Isr0,
    Isr1,
    Isr2,
    Isr3,
    Isr4,
    Isr5,
    Isr6,
    Isr7,
    Tmr0,
    Tmr1,
    Tmr2,
    Tmr3,
    Tmr4,
    Tmr5,
    Tmr6,
    Tmr7,
    Irr0,
    Irr1,
    Irr2,
    Irr3,
    Irr4,
    Irr5,
    Irr6,
    Irr7,
    ErrorStatus,
    LvtCmci,
    InterruptCommand0,
    InterruptCommand1,
    LvtTimer,
    LvtThermalSensor,
    LvtPerformanceCounters,
    LvtLint0,
    LvtLint1,
    LvtError,
    InitialCount,
    CurrentCount,
    DivideConfiguration,
}

impl LocalApicReg {
    /// Offset of the register from the APIC base address.
    pub open spec fn spec_offset(self) -> u64 {
        match self {
            LocalApicReg::Id => 0x020,
            LocalApicReg::Version => 0x030,
            LocalApicReg::TaskPriority => 0x080,
            LocalApicReg::ArbitrationPriority => 0x090,
            LocalApicReg::ProcessorPriority => 0x0A0,
            LocalApicReg::Eoi => 0x0B0,
            LocalApicReg::RemoteRead => 0x0C0,
            LocalApicReg::LogicalDestination => 0x0D0,
            LocalApicReg::DestinationFormat => 0x0E0,
            LocalApicReg::SpuriousInterruptVector => 0x0F0,
            LocalApicReg::Isr0 => 0x100,
            LocalApicReg::Isr1 => 0x110,
            LocalApicReg::Isr2 => 0x120,
            LocalApicReg::Isr3 => 0x130,
            LocalApicReg::Isr4 => 0x140,
            LocalApicReg::Isr5 => 0x150,
            LocalApicReg::Isr6 => 0x160,
            LocalApicReg::Isr7 => 0x170,
            LocalApicReg::Tmr0 => 0x180,
            LocalApicReg::Tmr1 => 0x190,
            LocalApicReg::Tmr2 => 0x1A0,
            LocalApicReg::Tmr3 => 0x1B0,
            LocalApicReg::Tmr4 => 0x1C0,
            LocalApicReg::Tmr5 => 0x1D0,
            LocalApicReg::Tmr6 => 0x1E0,
            LocalApicReg::Tmr7 => 0x1F0,
            LocalApicReg::Irr0 => 0x200,
            LocalApicReg::Irr1 => 0x210,
            LocalApicReg::Irr2 => 0x220,
            LocalApicReg::Irr3 => 0x230,
            LocalApicReg::Irr4 => 0x240,
            LocalApicReg::Irr5 => 0x250,
            LocalApicReg::Irr6 => 0x260,
            LocalApicReg::Irr7 => 0x270,
            LocalApicReg::ErrorStatus => 0x280,
            LocalApicReg::LvtCmci => 0x2F0,
            LocalApicReg::InterruptCommand0 => 0x300,
            LocalApicReg::InterruptCommand1 => 0x310,
            LocalApicReg::LvtTimer => 0x320,
            LocalApicReg::LvtThermalSensor => 0x330,
            LocalApicReg::LvtPerformanceCounters => 0x340,
            LocalApicReg::LvtLint0 => 0x350,
            LocalApicReg::LvtLint1 => 0x360,
            LocalApicReg::LvtError => 0x370,
            LocalApicReg::InitialCount => 0x380,
            LocalApicReg::CurrentCount => 0x390,
            LocalApicReg::DivideConfiguration => 0x3E0,
        }
    }

    /// Offset of the register from the APIC base address.
    pub fn offset(&self) -> (r: u64)
        ensures
            r == self.spec_offset(),
            r < 0x400,
    {
        match self {
            LocalApicReg::Id => 0x020,
            LocalApicReg::Version => 0x030,
            LocalApicReg::TaskPriority => 0x080,
            LocalApicReg::ArbitrationPriority => 0x090,
            LocalApicReg::ProcessorPriority => 0x0A0,
            LocalApicReg::Eoi => 0x0B0,
            LocalApicReg::RemoteRead => 0x0C0,
            LocalApicReg::LogicalDestination => 0x0D0,
            LocalApicReg::DestinationFormat => 0x0E0,
            LocalApicReg::SpuriousInterruptVector => 0x0F0,
            LocalApicReg::Isr0 => 0x100,
            LocalApicReg::Isr1 => 0x110,
            LocalApicReg::Isr2 => 0x120,
            LocalApicReg::Isr3 => 0x130,
            LocalApicReg::Isr4 => 0x140,
            LocalApicReg::Isr5 => 0x150,
            LocalApicReg::Isr6 => 0x160,
            LocalApicReg::Isr7 => 0x170,
            LocalApicReg::Tmr0 => 0x180,
            LocalApicReg::Tmr1 => 0x190,
            LocalApicReg::Tmr2 => 0x1A0,
            LocalApicReg::Tmr3 => 0x1B0,
            LocalApicReg::Tmr4 => 0x1C0,
            LocalApicReg::Tmr5 => 0x1D0,
            LocalApicReg::Tmr6 => 0x1E0,
            LocalApicReg::Tmr7 => 0x1F0,
            LocalApicReg::Irr0 => 0x200,
            LocalApicReg::Irr1 => 0x210,
            LocalApicReg::Irr2 => 0x220,
            LocalApicReg::Irr3 => 0x230,
            LocalApicReg::Irr4 => 0x240,
            LocalApicReg::Irr5 => 0x250,
            LocalApicReg::Irr6 => 0x260,
            LocalApicReg::Irr7 => 0x270,
            LocalApicReg::ErrorStatus => 0x280,
            LocalApicReg::LvtCmci => 0x2F0,
            LocalApicReg::InterruptCommand0 => 0x300,
            LocalApicReg::InterruptCommand1 => 0x310,
            LocalApicReg::LvtTimer => 0x320,
            LocalApicReg::LvtThermalSensor => 0x330,
            LocalApicReg::LvtPerformanceCounters => 0x340,
            LocalApicReg::LvtLint0 => 0x350,
            LocalApicReg::LvtLint1 => 0x360,
            LocalApicReg::LvtError => 0x370,
            LocalApicReg::InitialCount => 0x380,
            LocalApicReg::CurrentCount => 0x390,
            LocalApicReg::DivideConfiguration => 0x3E0,
        }
    }

    /// Address of the register, for a 32-bit access.
    pub fn ptr32(&self, apic: &LocalApic) -> (r: u64)
        ensures
            r == apic.spec_base() + self.spec_offset(),
    {
        apic.reg_addr(*self)
    }

    /// Address of the register, for a 32-bit access that writes.
    pub fn ptr32_mut(&self, apic: &mut LocalApic) -> (r: u64)
        ensures
            r == old(apic).spec_base() + self.spec_offset(),
            *final(apic) == *old(apic),
    {
        apic.reg_addr(*self)
    }

    /// Address of the register, for a 64-bit access.
    pub fn ptr64(&self, apic: &LocalApic) -> (r: u64)
        ensures
            r == apic.spec_base() + self.spec_offset(),
    {
        apic.reg_addr(*self)
    }

    /// Address of the register, for a 64-bit access that writes.
    pub fn ptr64_mut(&self, apic: &mut LocalApic) -> (r: u64)
        ensures
            r == old(apic).spec_base() + self.spec_offset(),
            *final(apic) == *old(apic),
    {
        apic.reg_addr(*self)
    }

    /// Address of the register, for a 128-bit access.
    pub fn ptr128(&self, apic: &LocalApic) -> (r: u64)
        ensures
            r == apic.spec_base() + self.spec_offset(),
    {
        apic.reg_addr(*self)
    }

    /// Address of the register, for a 128-bit access that writes.
    pub fn ptr128_mut(&self, apic: &mut LocalApic) -> (r: u64)
        ensures
            r == old(apic).spec_base() + self.spec_offset(),
            *final(apic) == *old(apic),
    {
        apic.reg_addr(*self)
    }
}

/// Local APIC: where its registers are mapped, as the APIC base register
/// says.
#[derive(Clone, Copy, Debug)]
pub struct LocalApic {
    apic_base_msr: ApicBase,
}

impl LocalApic {
    /// Base address of the registers.
    pub closed spec fn spec_base(self) -> u64 {
        msr_value(self.apic_base_msr@.eax, self.apic_base_msr@.edx) & !0xFFFu64
    }

    /// The local APIC whose base register holds `apic_base_msr`.
    pub fn from_apic_base(apic_base_msr: ApicBase) -> (r: LocalApic)
        ensures
            r.spec_base() == msr_value(apic_base_msr@.eax, apic_base_msr@.edx) & !0xFFFu64,
            r.spec_apic_base_msr() == apic_base_msr,
    {
        LocalApic { apic_base_msr }
    }

    pub closed spec fn spec_apic_base_msr(self) -> ApicBase {
        self.apic_base_msr
    }

    /// The value of the APIC base register, to be written after a change.
    pub fn apic_base_msr(&self) -> (r: ApicBase)
        ensures
            r == self.spec_apic_base_msr(),
    {
        self.apic_base_msr
    }

    /// Whether the processor described by `features` has a local APIC.
    pub fn local_apic_is_present(features: &Features) -> (r: bool)
        ensures
            r == bit_u32(features@.edx, 9),
    {
        features.local_apic_is_present()
    }

    /// Base address of the registers in physical memory.
    pub fn base_addr(&self) -> (r: u64)
        ensures
            r == self.spec_base(),
    {
        self.apic_base_msr.apic_base()
    }

    /// Moves the registers to `base`; the low 12 bits of `base` are
    /// ignored. The new base register value still has to be written.
    pub fn set_base_addr(&mut self, base: u64)
        ensures
            final(self).spec_base() == base & !0xFFFu64,
    {
        self.apic_base_msr.set_apic_base(base);
    }

    /// Address of register `reg`.
    fn reg_addr(&self, reg: LocalApicReg) -> (r: u64)
        ensures
            r == self.spec_base() + reg.spec_offset(),
    {
        let base = self.base_addr();
        let off = reg.offset();
        proof {
            assert(base & 0xFFFu64 == 0 ==> base + off <= 0xFFFF_FFFF_FFFF_FFFF) by (bit_vector)
                requires
                    off < 0x400,
            ;
            let v = msr_value(self.apic_base_msr@.eax, self.apic_base_msr@.edx);
            assert((v & !0xFFFu64) & 0xFFFu64 == 0) by (bit_vector);
        }
        base + off
    }
}

/// Version register's version number: discrete (82489DX) for values up to
/// 0x0F, integrated otherwise.
#[derive(Clone, Copy, Debug, PartialEq, Eq, Structural)]
pub enum VersionNumber {
    Discrete(u8),
    Integrated(u8),
}

impl VersionNumber {
    /// The version number `num`.
    pub fn from_number(num: u8) -> (r: VersionNumber)
        ensures
            r == (if num <= 0xF {
                VersionNumber::Discrete(num)
            } else {
                VersionNumber::Integrated(num)
            }),
    {
        if num <= 0xF {
            VersionNumber::Discrete(num)
        } else {
            VersionNumber::Integrated(num)
        }
    }
}

/// Destination model of the destination format register.
#[derive(Clone, Copy, Debug, PartialEq, Eq, Structural)]
pub enum MdaModel {
    Flat,
    Cluster,
    /// A model byte that names neither model.
    Reserved(u8),
}

/// The model that the model byte `v` names.
pub open spec fn mda_model_of(v: u8) -> MdaModel {
    if v == 0b1111 {
        MdaModel::Flat
    } else if v == 0 {
        MdaModel::Cluster
    } else {
        MdaModel::Reserved(v)
    }
}

impl MdaModel {
    pub open spec fn spec_code(self) -> u8 {
        match self {
            MdaModel::Flat => 0b1111,
            MdaModel::Cluster => 0,
            MdaModel::Reserved(v) => v,
        }
    }
}

/// Delivery status of an interrupt.
#[derive(Clone, Copy, Debug, PartialEq, Eq, Structural)]
pub enum DeliveryStatus {
    Idle,
    SendPending,
}

/// Level field of the interrupt command register.
#[derive(Clone, Copy, Debug, PartialEq, Eq, Structural)]
pub enum IcrLevel {
    Assert,
    Deassert,
}

/// Destination mode of an inter-processor interrupt.
#[derive(Clone, Copy, Debug, PartialEq, Eq, Structural)]
pub enum DestinationMode {
    Physical,
    Logical,
}

/// Destination shorthand of the interrupt command register.
#[derive(Clone, Copy, Debug, PartialEq, Eq, Structural)]
pub enum DestinationShorthand {
    /// The destination field names the destination.
    NoShorthand,
    SelfDestination,
    AllIncludingSelf,
    AllExcludingSelf,
}

/// The shorthand that the 2-bit field value `v` names.
pub open spec fn shorthand_of(v: u32) -> DestinationShorthand {
    if v == 0 {
        DestinationShorthand::NoShorthand
    } else if v == 1 {
        DestinationShorthand::SelfDestination
    } else if v == 2 {
        DestinationShorthand::AllIncludingSelf
    } else {
        DestinationShorthand::AllExcludingSelf
    }
}

impl DestinationShorthand {
    pub open spec fn spec_code(self) -> u32 {
        match self {
            DestinationShorthand::NoShorthand => 0,
            DestinationShorthand::SelfDestination => 1,
            DestinationShorthand::AllIncludingSelf => 2,
            DestinationShorthand::AllExcludingSelf => 3,
        }
    }

    /// The 2-bit field value of the shorthand.
    pub fn code(&self) -> (r: u32)
        ensures
            r == self.spec_code(),
            shorthand_of(r) == *self,
    {
        match self {
            DestinationShorthand::NoShorthand => 0,
            DestinationShorthand::SelfDestination => 1,
            DestinationShorthand::AllIncludingSelf => 2,
            DestinationShorthand::AllExcludingSelf => 3,
        }
    }

    /// The shorthand that the 2-bit field value `v` names.
    pub fn from_code(v: u32) -> (r: DestinationShorthand)
        requires
            v < 4,
        ensures
            r == shorthand_of(v),
    {
        if v == 0 {
            DestinationShorthand::NoShorthand
        } else if v == 1 {
            DestinationShorthand::SelfDestination
        } else if v == 2 {
            DestinationShorthand::AllIncludingSelf
        } else {
            DestinationShorthand::AllExcludingSelf
        }
    }
}

/// Delivery mode of an interrupt.
#[derive(Clone, Copy, Debug, PartialEq, Eq, Structural)]
pub enum DeliveryMode {
    Fixed,
    Smi,
    Nmi,
    ExtInt,
    Init,
    /// A 3-bit field value that names none of the modes above.
    Reserved(u8),
}

/// The delivery mode that the 3-bit field value `v` names.
pub open spec fn delivery_mode_of(v: u32) -> DeliveryMode {
    if v == 0b000 {
        DeliveryMode::Fixed
    } else if v == 0b010 {
        DeliveryMode::Smi
    } else if v == 0b100 {
        DeliveryMode::Nmi
    } else if v == 0b111 {
        DeliveryMode::ExtInt
    } else if v == 0b101 {
        DeliveryMode::Init
    } else {
        DeliveryMode::Reserved(v as u8)
    }
}

impl DeliveryMode {
    /// The field value of the mode; a reserved value keeps its low 3 bits.
    pub open spec fn spec_code(self) -> u32 {
        match self {
            DeliveryMode::Fixed => 0b000,
            DeliveryMode::Smi => 0b010,
            DeliveryMode::Nmi => 0b100,
            DeliveryMode::ExtInt => 0b111,
            DeliveryMode::Init => 0b101,
            DeliveryMode::Reserved(v) => (v & 0b111) as u32,
        }
    }

    /// The 3-bit field value of the mode.
    pub fn code(&self) -> (r: u32)
        ensures
            r == self.spec_code(),
            r < 8,
    {
        match self {
            DeliveryMode::Fixed => 0b000,
            DeliveryMode::Smi => 0b010,
            DeliveryMode::Nmi => 0b100,
            DeliveryMode::ExtInt => 0b111,
            DeliveryMode::Init => 0b101,
            DeliveryMode::Reserved(v) => {
                proof {
                    let x = *v;
                    assert(x & 0b111u8 < 8) by (bit_vector);
                }
                (*v & 0b111) as u32
            },
        }
    }

    /// The delivery mode that the 3-bit field value `v` names.
    pub fn from_code(v: u32) -> (r: DeliveryMode)
        requires
            v < 8,
        ensures
            r == delivery_mode_of(v),
    {
        if v == 0b000 {
            DeliveryMode::Fixed
        } else if v == 0b010 {
            DeliveryMode::Smi
        } else if v == 0b100 {
            DeliveryMode::Nmi
        } else if v == 0b111 {
            DeliveryMode::ExtInt
        } else if v == 0b101 {
            DeliveryMode::Init
        } else {
            DeliveryMode::Reserved(v as u8)
        }
    }
}

/// Polarity of an interrupt input pin.
#[derive(Clone, Copy, Debug, PartialEq, Eq, Structural)]
pub enum PinPolarity {
    ActiveHigh,
    ActiveLow,
}

/// Trigger mode of an interrupt.
#[derive(Clone, Copy, Debug, PartialEq, Eq, Structural)]
pub enum TriggerMode {
    EdgeSensitive,
    LevelSensitive,
}

/// Mode of the APIC timer: bits 17 and 18 of the LVT timer register.
#[derive(Clone, Copy, Debug, PartialEq, Eq, Structural)]
pub enum LvtTimerMode {
    OneShot,
    Periodic,
    TscDeadline,
    /// The reserved field value `0b11`.
    Reserved,
}

/// The timer mode that the 2-bit field value `v` names.
pub open spec fn timer_mode_of(v: u32) -> LvtTimerMode {
    if v == 0 {
        LvtTimerMode::OneShot
    } else if v == 1 {
        LvtTimerMode::Periodic
    } else if v == 2 {
        LvtTimerMode::TscDeadline
    } else {
        LvtTimerMode::Reserved
    }
}

impl LvtTimerMode {
    pub open spec fn spec_code(self) -> u32 {
        match self {
            LvtTimerMode::OneShot => 0,
            LvtTimerMode::Periodic => 1,
            LvtTimerMode::TscDeadline => 2,
            LvtTimerMode::Reserved => 3,
        }
    }
}

/// Divide value of the divide configuration register.
#[derive(Clone, Copy, Debug, PartialEq, Eq, Structural)]
pub enum DivideValue {
    Div1,
    Div2,
    Div4,
    Div8,
    Div16,
    Div32,
    Div64,
    Div128,
}

impl DivideValue {
    /// The register value for the divide value: bits 0, 1 and 3.
    pub open spec fn spec_code(self) -> u32 {
        match self {
            DivideValue::Div1 => 0b1011,
            DivideValue::Div2 => 0b0000,
            DivideValue::Div4 => 0b0001,
            DivideValue::Div8 => 0b0010,
            DivideValue::Div16 => 0b0011,
            DivideValue::Div32 => 0b1000,
            DivideValue::Div64 => 0b1001,
            DivideValue::Div128 => 0b1010,
        }
    }
}

/// The divide value that the divide bits (0, 1 and 3) of `v` select.
pub open spec fn divide_value_of(v: u32) -> DivideValue {
    let d = v & 0b1011;
    if d == 0b0000 {
        DivideValue::Div2
    } else if d == 0b0001 {
        DivideValue::Div4
    } else if d == 0b0010 {
        DivideValue::Div8
    } else if d == 0b0011 {
        DivideValue::Div16
    } else if d == 0b1000 {
        DivideValue::Div32
    } else if d == 0b1001 {
        DivideValue::Div64
    } else if d == 0b1010 {
        DivideValue::Div128
    } else {
        DivideValue::Div1
    }
}

/// Arbitration priority class or sub-class: a value from 0 to 15.
#[derive(Clone, Copy, Debug, PartialEq, Eq)]
pub struct PriorityClass {
    val: u8,
}

impl View for PriorityClass {
    type V = u8;

    closed spec fn view(&self) -> u8 {
        self.val
    }
}

impl PriorityClass {
    #[verifier::type_invariant]
    spec fn inv(self) -> bool {
        self.val <= 0x0F
    }

    /// The class `val`, where `val` fits the 4-bit field.
    pub fn try_new(val: u8) -> (r: Option<PriorityClass>)
        ensures
            r.is_some() == (val <= 0x0F),
            r matches Some(c) ==> c@ == val,
    {
        if val > 0x0F {
            None
        } else {
            Some(PriorityClass { val })
        }
    }

    /// The class value.
    pub fn value(&self) -> (r: u8)
        ensures
            r == self@,
            r <= 0x0F,
    {
        proof {
            use_type_invariant(self);
        }
        self.val
    }
}

/// A register value held as its raw 32 bits.
pub trait Register32: Sized {
    spec fn spec_raw(&self) -> u32;

    /// The register value `v`, as read from the register.
    fn from_raw(v: u32) -> (r: Self)
        ensures
            r.spec_raw() == v,
    ;

    /// The raw value, to be written to the register.
    fn raw(&self) -> (r: u32)
        ensures
            r == self.spec_raw(),
    ;

    /// Replaces the raw value.
    fn set_raw(&mut self, v: u32)
        ensures
            final(self).spec_raw() == v,
    ;
}

/// Fields common to the local vector table registers.
pub trait LvtEntry: Register32 {
    /// Interrupt vector: bits 0..8.
    fn vector(&self) -> (r: u8)
        ensures
            r == bits_u32(self.spec_raw(), 0, 8),
    {
        proof {
            lemma_small_shifts();
        }
        get_bits_u32(self.raw(), 0, 8) as u8
    }

    /// Sets the interrupt vector; the other bits keep their values.
    fn set_vector(&mut self, vec: u8)
        ensures
            final(self).spec_raw() == with_bits_u32(old(self).spec_raw(), 0, 8, vec as u32),
            bits_u32(final(self).spec_raw(), 0, 8) == vec,
    {
        let v = set_bits_u32(self.raw(), 0, 8, vec as u32);
        proof {
            let x = vec as u32;
            assert(bits_u32(x, 0, 8) == x) by (bit_vector)
                requires
                    x < 256,
            ;
        }
        self.set_raw(v);
    }

    /// Delivery status: bit 12.
    fn delivery_status(&self) -> (r: DeliveryStatus)
        ensures
            (r == DeliveryStatus::SendPending) == bit_u32(self.spec_raw(), 12),
    {
        if get_bit_u32(self.raw(), 12) {
            DeliveryStatus::SendPending
        } else {
            DeliveryStatus::Idle
        }
    }

    /// Whether the interrupt is masked: bit 16.
    fn masked(&self) -> (r: bool)
        ensures
            r == bit_u32(self.spec_raw(), 16),
    {
        get_bit_u32(self.raw(), 16)
    }

    /// Masks the interrupt; the other bits keep their values.
    fn mask(&mut self)
        ensures
            final(self).spec_raw() == with_bit_u32(old(self).spec_raw(), 16, true),
            bit_u32(final(self).spec_raw(), 16),
    {
        let v = set_bit_u32(self.raw(), 16, true);
        self.set_raw(v);
    }

    /// Unmasks the interrupt; the other bits keep their values.
    fn unmask(&mut self)
        ensures
            final(self).spec_raw() == with_bit_u32(old(self).spec_raw(), 16, false),
            !bit_u32(final(self).spec_raw(), 16),
    {
        let v = set_bit_u32(self.raw(), 16, false);
        self.set_raw(v);
    }
}

/// The delivery mode field, bits 8..11, of the LVT registers that have it.
pub trait LvtDelivery: LvtEntry {
    /// Delivery mode.
    fn delivery_mode(&self) -> (r: DeliveryMode)
        ensures
            r == delivery_mode_of(bits_u32(self.spec_raw(), 8, 3)),
    {
        proof {
            lemma_small_shifts();
        }
        DeliveryMode::from_code(get_bits_u32(self.raw(), 8, 3))
    }

    /// Sets the delivery mode, without checking the other fields against
    /// it.
    fn only_set_delivery_mode(&mut self, mode: DeliveryMode)
        ensures
            final(self).spec_raw() == with_bits_u32(old(self).spec_raw(), 8, 3, mode.spec_code()),
    {
        let v = set_bits_u32(self.raw(), 8, 3, mode.code());
        self.set_raw(v);
    }
}

/// Fields of the LVT registers of the two local interrupt pins.
pub trait LvtLint: LvtEntry {
    /// Trigger mode: bit 15.
    fn trigger_mode(&self) -> (r: TriggerMode)
        ensures
            (r == TriggerMode::LevelSensitive) == bit_u32(self.spec_raw(), 15),
    {
        if get_bit_u32(self.raw(), 15) {
            TriggerMode::LevelSensitive
        } else {
            TriggerMode::EdgeSensitive
        }
    }

    /// Remote IRR flag: bit 14.
    fn remote_irr(&self) -> (r: bool)
        ensures
            r == bit_u32(self.spec_raw(), 14),
    {
        get_bit_u32(self.raw(), 14)
    }

    /// Input pin polarity: bit 13.
    fn input_polarity(&self) -> (r: PinPolarity)
        ensures
            (r == PinPolarity::ActiveLow) == bit_u32(self.spec_raw(), 13),
    {
        if get_bit_u32(self.raw(), 13) {
            PinPolarity::ActiveLow
        } else {
            PinPolarity::ActiveHigh
        }
    }

    /// Sets the input pin polarity; the other bits keep their values.
    fn set_input_polarity(&mut self, pp: PinPolarity)
        ensures
            final(self).spec_raw() == with_bit_u32(
                old(self).spec_raw(),
                13,
                pp == PinPolarity::ActiveLow,
            ),
    {
        let v = set_bit_u32(self.raw(), 13, pp == PinPolarity::ActiveLow);
        self.set_raw(v);
    }
}

/// Version register.
#[derive(Clone, Copy, Debug, PartialEq, Eq, Structural)]
pub struct Version {
    reg: u32,
}

impl Register32 for Version {
    closed spec fn spec_raw(&self) -> u32 {
        self.reg
    }

    fn from_raw(v: u32) -> (r: Version) {
        Version { reg: v }
    }

    fn raw(&self) -> (r: u32) {
        self.reg
    }

    fn set_raw(&mut self, v: u32) {
        self.reg = v;
    }
}

/// Divide configuration register of the APIC timer.
#[derive(Clone, Copy, Debug, PartialEq, Eq, Structural)]
pub struct DivideConfiguration {
    reg: u32,
}

impl Register32 for DivideConfiguration {
    closed spec fn spec_raw(&self) -> u32 {
        self.reg
    }

    fn from_raw(v: u32) -> (r: DivideConfiguration) {
        DivideConfiguration { reg: v }
    }

    fn raw(&self) -> (r: u32) {
        self.reg
    }

    fn set_raw(&mut self, v: u32) {
        self.reg = v;
    }
}

/// End-of-interrupt register.
#[derive(Clone, Copy, Debug, PartialEq, Eq, Structural)]
pub struct Eoi {
    reg: u32,
}

impl Register32 for Eoi {
    closed spec fn spec_raw(&self) -> u32 {
        self.reg
    }

    fn from_raw(v: u32) -> (r: Eoi) {
        Eoi { reg: v }
    }

    fn raw(&self) -> (r: u32) {
        self.reg
    }

    fn set_raw(&mut self, v: u32) {
        self.reg = v;
    }
}

/// Logical destination register.
#[derive(Clone, Copy, Debug, PartialEq, Eq, Structural)]
pub struct Ldr {
    reg: u32,
}

impl Register32 for Ldr {
    closed spec fn spec_raw(&self) -> u32 {
        self.reg
    }

    fn from_raw(v: u32) -> (r: Ldr) {
        Ldr { reg: v }
    }

    fn raw(&self) -> (r: u32) {
        self.reg
    }

    fn set_raw(&mut self, v: u32) {
        self.reg = v;
    }
}

/// Spurious interrupt vector register.
#[derive(Clone, Copy, Debug, PartialEq, Eq, Structural)]
pub struct SpuriousInterrupt {
    reg: u32,
}

impl Register32 for SpuriousInterrupt {
    closed spec fn spec_raw(&self) -> u32 {
        self.reg
    }

    fn from_raw(v: u32) -> (r: SpuriousInterrupt) {
        SpuriousInterrupt { reg: v }
    }

    fn raw(&self) -> (r: u32) {
        self.reg
    }

    fn set_raw(&mut self, v: u32) {
        self.reg = v;
    }
}

/// LVT CMCI register.
#[derive(Clone, Copy, Debug, PartialEq, Eq, Structural)]
pub struct LvtCmci {
    reg: u32,
}

impl Register32 for LvtCmci {
    closed spec fn spec_raw(&self) -> u32 {
        self.reg
    }

    fn from_raw(v: u32) -> (r: LvtCmci) {
        LvtCmci { reg: v }
    }

    fn raw(&self) -> (r: u32) {
        self.reg
    }

    fn set_raw(&mut self, v: u32) {
        self.reg = v;
    }
}

/// Interrupt command register, low half.
#[derive(Clone, Copy, Debug, PartialEq, Eq, Structural)]
pub struct Icr0 {
    reg: u32,
}

impl Register32 for Icr0 {
    closed spec fn spec_raw(&self) -> u32 {
        self.reg
    }

    fn from_raw(v: u32) -> (r: Icr0) {
        Icr0 { reg: v }
    }

    fn raw(&self) -> (r: u32) {
        self.reg
    }

    fn set_raw(&mut self, v: u32) {
        self.reg = v;
    }
}

/// Interrupt command register, high half.
#[derive(Clone, Copy, Debug, PartialEq, Eq, Structural)]
pub struct Icr1 {
    reg: u32,
}

impl Register32 for Icr1 {
    closed spec fn spec_raw(&self) -> u32 {
        self.reg
    }

    fn from_raw(v: u32) -> (r: Icr1) {
        Icr1 { reg: v }
    }

    fn raw(&self) -> (r: u32) {
        self.reg
    }

    fn set_raw(&mut self, v: u32) {
        self.reg = v;
    }
}

/// LVT timer register.
#[derive(Clone, Copy, Debug, PartialEq, Eq, Structural)]
pub struct LvtTimer {
    reg: u32,
}

impl Register32 for LvtTimer {
    closed spec fn spec_raw(&self) -> u32 {
        self.reg
    }

    fn from_raw(v: u32) -> (r: LvtTimer) {
        LvtTimer { reg: v }
    }

    fn raw(&self) -> (r: u32) {
        self.reg
    }

    fn set_raw(&mut self, v: u32) {
        self.reg = v;
    }
}

/// LVT thermal sensor register.
#[derive(Clone, Copy, Debug, PartialEq, Eq, Structural)]
pub struct LvtThermalSensor {
    reg: u32,
}

impl Register32 for LvtThermalSensor {
    closed spec fn spec_raw(&self) -> u32 {
        self.reg
    }

    fn from_raw(v: u32) -> (r: LvtThermalSensor) {
        LvtThermalSensor { reg: v }
    }

    fn raw(&self) -> (r: u32) {
        self.reg
    }

    fn set_raw(&mut self, v: u32) {
        self.reg = v;
    }
}

/// LVT performance counter register.
#[derive(Clone, Copy, Debug, PartialEq, Eq, Structural)]
pub struct LvtPerformanceCounters {
    reg: u32,
}

impl Register32 for LvtPerformanceCounters {
    closed spec fn spec_raw(&self) -> u32 {
        self.reg
    }

    fn from_raw(v: u32) -> (r: LvtPerformanceCounters) {
        LvtPerformanceCounters { reg: v }
    }

    fn raw(&self) -> (r: u32) {
        self.reg
    }

    fn set_raw(&mut self, v: u32) {
        self.reg = v;
    }
}

/// LVT register of local interrupt pin 0.
#[derive(Clone, Copy, Debug, PartialEq, Eq, Structural)]
pub struct LvtLint0 {
    reg: u32,
}

impl Register32 for LvtLint0 {
    closed spec fn spec_raw(&self) -> u32 {
        self.reg
    }

    fn from_raw(v: u32) -> (r: LvtLint0) {
        LvtLint0 { reg: v }
    }

    fn raw(&self) -> (r: u32) {
        self.reg
    }

    fn set_raw(&mut self, v: u32) {
        self.reg = v;
    }
}

/// LVT register of local interrupt pin 1.
#[derive(Clone, Copy, Debug, PartialEq, Eq, Structural)]
pub struct LvtLint1 {
    reg: u32,
}

impl Register32 for LvtLint1 {
    closed spec fn spec_raw(&self) -> u32 {
        self.reg
    }

    fn from_raw(v: u32) -> (r: LvtLint1) {
        LvtLint1 { reg: v }
    }

    fn raw(&self) -> (r: u32) {
        self.reg
    }

    fn set_raw(&mut self, v: u32) {
        self.reg = v;
    }
}

/// LVT error register.
#[derive(Clone, Copy, Debug, PartialEq, Eq, Structural)]
pub struct LvtError {
    reg: u32,
}

impl Register32 for LvtError {
    closed spec fn spec_raw(&self) -> u32 {
        self.reg
    }

    fn from_raw(v: u32) -> (r: LvtError) {
        LvtError { reg: v }
    }

    fn raw(&self) -> (r: u32) {
        self.reg
    }

    fn set_raw(&mut self, v: u32) {
        self.reg = v;
    }
}

/// Current count register of the APIC timer.
#[derive(Clone, Copy, Debug, PartialEq, Eq, Structural)]
pub struct TimerCurrentCount {
    reg: u32,
}

impl Register32 for TimerCurrentCount {
    closed spec fn spec_raw(&self) -> u32 {
        self.reg
    }

    fn from_raw(v: u32) -> (r: TimerCurrentCount) {
        TimerCurrentCount { reg: v }
    }

    fn raw(&self) -> (r: u32) {
        self.reg
    }

    fn set_raw(&mut self, v: u32) {
        self.reg = v;
    }
}

/// Initial count register of the APIC timer.
#[derive(Clone, Copy, Debug, PartialEq, Eq, Structural)]
pub struct TimerInitialCount {
    reg: u32,
}

impl Register32 for TimerInitialCount {
    closed spec fn spec_raw(&self) -> u32 {
        self.reg
    }

    fn from_raw(v: u32) -> (r: TimerInitialCount) {
        TimerInitialCount { reg: v }
    }

    fn raw(&self) -> (r: u32) {
        self.reg
    }

    fn set_raw(&mut self, v: u32) {
        self.reg = v;
    }
}

impl LvtEntry for LvtCmci {
}

impl LvtEntry for LvtTimer {
}

impl LvtEntry for LvtThermalSensor {
}

impl LvtEntry for LvtPerformanceCounters {
}

impl LvtEntry for LvtLint0 {
}

impl LvtEntry for LvtLint1 {
}

impl LvtEntry for LvtError {
}

impl LvtDelivery for LvtCmci {
}

impl LvtDelivery for LvtThermalSensor {
}

impl LvtDelivery for LvtPerformanceCounters {
}

impl LvtDelivery for LvtLint0 {
}

impl LvtDelivery for LvtLint1 {
}

impl LvtLint for LvtLint0 {
}

impl LvtLint for LvtLint1 {
}


/// Task priority register.
#[derive(Clone, Copy, Debug, PartialEq, Eq, Structural)]
pub struct Tpr {
    reg: u32,
}

impl Register32 for Tpr {
    closed spec fn spec_raw(&self) -> u32 {
        self.reg
    }

    fn from_raw(v: u32) -> (r: Tpr) {
        Tpr { reg: v }
    }

    fn raw(&self) -> (r: u32) {
        self.reg
    }

    fn set_raw(&mut self, v: u32) {
        self.reg = v;
    }
}

/// Arbitration priority register.
#[derive(Clone, Copy, Debug, PartialEq, Eq, Structural)]
pub struct Apr {
    reg: u32,
}

impl Register32 for Apr {
    closed spec fn spec_raw(&self) -> u32 {
        self.reg
    }

    fn from_raw(v: u32) -> (r: Apr) {
        Apr { reg: v }
    }

    fn raw(&self) -> (r: u32) {
        self.reg
    }

    fn set_raw(&mut self, v: u32) {
        self.reg = v;
    }
}

/// Destination format register.
#[derive(Clone, Copy, Debug, PartialEq, Eq, Structural)]
pub struct Dfr {
    reg: u32,
}

impl Register32 for Dfr {
    closed spec fn spec_raw(&self) -> u32 {
        self.reg
    }

    fn from_raw(v: u32) -> (r: Dfr) {
        Dfr { reg: v }
    }

    fn raw(&self) -> (r: u32) {
        self.reg
    }

    fn set_raw(&mut self, v: u32) {
        self.reg = v;
    }
}

impl Version {
    /// Version number: bits 0..8.
    pub fn version(&self) -> (r: VersionNumber)
        ensures
            r == (if bits_u32(self.spec_raw(), 0, 8) <= 0xF {
                VersionNumber::Discrete(bits_u32(self.spec_raw(), 0, 8) as u8)
            } else {
                VersionNumber::Integrated(bits_u32(self.spec_raw(), 0, 8) as u8)
            }),
    {
        proof {
            lemma_small_shifts();
        }
        VersionNumber::from_number(get_bits_u32(self.reg, 0, 8) as u8)
    }

    /// Number of LVT entries minus one: bits 16..24.
    pub fn max_lvt_entry(&self) -> (r: u8)
        ensures
            r == bits_u32(self.spec_raw(), 16, 8),
    {
        proof {
            lemma_small_shifts();
        }
        get_bits_u32(self.reg, 16, 8) as u8
    }

    /// Whether EOI-broadcast suppression is supported: bit 24.
    pub fn eoi_broadcast_suppression(&self) -> (r: bool)
        ensures
            r == bit_u32(self.spec_raw(), 24),
    {
        get_bit_u32(self.reg, 24)
    }
}

impl Tpr {
    /// The whole priority byte: class and sub-class.
    pub fn class_field(&self) -> (r: u8)
        ensures
            r == bits_u32(self.spec_raw(), 0, 8),
    {
        proof {
            lemma_small_shifts();
        }
        get_bits_u32(self.reg, 0, 8) as u8
    }

    /// Sets the whole priority byte.
    pub fn set_class_field(&mut self, class: u8)
        ensures
            final(self).spec_raw() == with_bits_u32(old(self).spec_raw(), 0, 8, class as u32),
    {
        self.reg = set_bits_u32(self.reg, 0, 8, class as u32);
    }

    /// Priority sub-class: bits 0..4.
    pub fn subclass(&self) -> (r: PriorityClass)
        ensures
            r@ == bits_u32(self.spec_raw(), 0, 4),
    {
        proof {
            lemma_small_shifts();
        }
        PriorityClass { val: get_bits_u32(self.reg, 0, 4) as u8 }
    }

    /// Sets the sub-class; the class keeps its value.
    pub fn set_subclass(&mut self, class: PriorityClass)
        ensures
            final(self).spec_raw() == with_bits_u32(old(self).spec_raw(), 0, 4, class@ as u32),
    {
        self.reg = set_bits_u32(self.reg, 0, 4, class.value() as u32);
    }

    /// Priority class: bits 4..8.
    pub fn class(&self) -> (r: PriorityClass)
        ensures
            r@ == bits_u32(self.spec_raw(), 4, 4),
    {
        proof {
            lemma_small_shifts();
        }
        PriorityClass { val: get_bits_u32(self.reg, 4, 4) as u8 }
    }

    /// Sets the class; the sub-class keeps its value.
    pub fn set_class(&mut self, class: PriorityClass)
        ensures
            final(self).spec_raw() == with_bits_u32(old(self).spec_raw(), 4, 4, class@ as u32),
    {
        self.reg = set_bits_u32(self.reg, 4, 4, class.value() as u32);
    }
}

impl Apr {
    /// The whole priority byte: class and sub-class.
    pub fn class_field(&self) -> (r: u8)
        ensures
            r == bits_u32(self.spec_raw(), 0, 8),
    {
        proof {
            lemma_small_shifts();
        }
        get_bits_u32(self.reg, 0, 8) as u8
    }

    /// Sets the whole priority byte.
    pub fn set_class_field(&mut self, class: u8)
        ensures
            final(self).spec_raw() == with_bits_u32(old(self).spec_raw(), 0, 8, class as u32),
    {
        self.reg = set_bits_u32(self.reg, 0, 8, class as u32);
    }

    /// Priority sub-class: bits 0..4.
    pub fn subclass(&self) -> (r: PriorityClass)
        ensures
            r@ == bits_u32(self.spec_raw(), 0, 4),
    {
        proof {
            lemma_small_shifts();
        }
        PriorityClass { val: get_bits_u32(self.reg, 0, 4) as u8 }
    }

    /// Sets the sub-class; the class keeps its value.
    pub fn set_subclass(&mut self, class: PriorityClass)
        ensures
            final(self).spec_raw() == with_bits_u32(old(self).spec_raw(), 0, 4, class@ as u32),
    {
        self.reg = set_bits_u32(self.reg, 0, 4, class.value() as u32);
    }

    /// Priority class: bits 4..8.
    pub fn class(&self) -> (r: PriorityClass)
        ensures
            r@ == bits_u32(self.spec_raw(), 4, 4),
    {
        proof {
            lemma_small_shifts();
        }
        PriorityClass { val: get_bits_u32(self.reg, 4, 4) as u8 }
    }

    /// Sets the class; the sub-class keeps its value.
    pub fn set_class(&mut self, class: PriorityClass)
        ensures
            final(self).spec_raw() == with_bits_u32(old(self).spec_raw(), 4, 4, class@ as u32),
    {
        self.reg = set_bits_u32(self.reg, 4, 4, class.value() as u32);
    }
}

impl Eoi {
    /// Signals the end of an interrupt: the register takes the value 0.
    pub fn signal(&mut self)
        ensures
            final(self).spec_raw() == 0,
    {
        self.reg = 0;
    }
}

impl Ldr {
    /// Logical APIC ID: bits 24..32.
    pub fn logical_apic_id(&self) -> (r: u8)
        ensures
            r == bits_u32(self.spec_raw(), 24, 8),
    {
        proof {
            lemma_small_shifts();
        }
        get_bits_u32(self.reg, 24, 8) as u8
    }

    /// Sets the logical APIC ID; the other bits keep their values.
    pub fn set_logical_apic_id(&mut self, val: u8)
        ensures
            final(self).spec_raw() == with_bits_u32(old(self).spec_raw(), 24, 8, val as u32),
    {
        self.reg = set_bits_u32(self.reg, 24, 8, val as u32);
    }
}

impl Dfr {
    /// Destination model: the top byte.
    pub fn model(&self) -> (r: MdaModel)
        ensures
            r == mda_model_of(bits_u32(self.spec_raw(), 24, 8) as u8),
    {
        proof {
            lemma_small_shifts();
        }
        let v = get_bits_u32(self.reg, 24, 8) as u8;
        if v == 0b1111 {
            MdaModel::Flat
        } else if v == 0 {
            MdaModel::Cluster
        } else {
            MdaModel::Reserved(v)
        }
    }

    /// Sets the destination model; the other bits keep their values.
    pub fn set_model(&mut self, model: MdaModel)
        ensures
            final(self).spec_raw() == with_bits_u32(
                old(self).spec_raw(),
                24,
                8,
                model.spec_code() as u32,
            ),
    {
        let v: u8 = match model {
            MdaModel::Flat => 0b1111,
            MdaModel::Cluster => 0,
            MdaModel::Reserved(v) => v,
        };
        self.reg = set_bits_u32(self.reg, 24, 8, v as u32);
    }
}

impl SpuriousInterrupt {
    /// Spurious interrupt vector: bits 0..8.
    pub fn vector(&self) -> (r: u8)
        ensures
            r == bits_u32(self.spec_raw(), 0, 8),
    {
        proof {
            lemma_small_shifts();
        }
        get_bits_u32(self.reg, 0, 8) as u8
    }

    /// Sets the spurious vector; the other bits keep their values.
    pub fn set_vector(&mut self, vec: u8)
        ensures
            final(self).spec_raw() == with_bits_u32(old(self).spec_raw(), 0, 8, vec as u32),
    {
        self.reg = set_bits_u32(self.reg, 0, 8, vec as u32);
    }

    /// Whether EOI-broadcast suppression is on: bit 12.
    pub fn eoi_broadcast_suppression(&self) -> (r: bool)
        ensures
            r == bit_u32(self.spec_raw(), 12),
    {
        get_bit_u32(self.reg, 12)
    }

    /// Turns EOI-broadcast suppression on. Not every processor supports it.
    pub fn enable_eoi_broadcast_suppression(&mut self)
        ensures
            final(self).spec_raw() == with_bit_u32(old(self).spec_raw(), 12, true),
    {
        self.reg = set_bit_u32(self.reg, 12, true);
    }

    /// Turns EOI-broadcast suppression off.
    pub fn disable_eoi_broadcast_suppression(&mut self)
        ensures
            final(self).spec_raw() == with_bit_u32(old(self).spec_raw(), 12, false),
    {
        self.reg = set_bit_u32(self.reg, 12, false);
    }

    /// Whether focus processor checking is on: bit 9 clear.
    pub fn focus_processor_checking(&self) -> (r: bool)
        ensures
            r == !bit_u32(self.spec_raw(), 9),
    {
        !get_bit_u32(self.reg, 9)
    }

    /// Turns focus processor checking on by clearing bit 9.
    pub fn enable_focus_processor_checking(&mut self)
        ensures
            final(self).spec_raw() == with_bit_u32(old(self).spec_raw(), 9, false),
    {
        self.reg = set_bit_u32(self.reg, 9, false);
    }

    /// Turns focus processor checking off by setting bit 9.
    pub fn disable_focus_processor_checking(&mut self)
        ensures
            final(self).spec_raw() == with_bit_u32(old(self).spec_raw(), 9, true),
    {
        self.reg = set_bit_u32(self.reg, 9, true);
    }

    /// Whether the APIC is software-enabled: bit 8.
    pub fn is_apic_software_enabled(&self) -> (r: bool)
        ensures
            r == bit_u32(self.spec_raw(), 8),
    {
        get_bit_u32(self.reg, 8)
    }

    /// Software-enables the APIC.
    pub fn software_enable_apic(&mut self)
        ensures
            final(self).spec_raw() == with_bit_u32(old(self).spec_raw(), 8, true),
    {
        self.reg = set_bit_u32(self.reg, 8, true);
    }

    /// Software-disables the APIC.
    pub fn software_disable_apic(&mut self)
        ensures
            final(self).spec_raw() == with_bit_u32(old(self).spec_raw(), 8, false),
    {
        self.reg = set_bit_u32(self.reg, 8, false);
    }
}

impl Icr0 {
    /// Interrupt vector: bits 0..8.
    pub fn vector(&self) -> (r: u8)
        ensures
            r == bits_u32(self.spec_raw(), 0, 8),
    {
        proof {
            lemma_small_shifts();
        }
        get_bits_u32(self.reg, 0, 8) as u8
    }

    /// Sets the vector; the other bits keep their values.
    pub fn set_vector(&mut self, vec: u8)
        ensures
            final(self).spec_raw() == with_bits_u32(old(self).spec_raw(), 0, 8, vec as u32),
    {
        self.reg = set_bits_u32(self.reg, 0, 8, vec as u32);
    }

    /// Delivery mode: bits 8..11.
    pub fn delivery_mode(&self) -> (r: DeliveryMode)
        ensures
            r == delivery_mode_of(bits_u32(self.spec_raw(), 8, 3)),
    {
        proof {
            lemma_small_shifts();
        }
        DeliveryMode::from_code(get_bits_u32(self.reg, 8, 3))
    }

    /// Sets the delivery mode; the other bits keep their values.
    pub fn set_delivery_mode(&mut self, mode: DeliveryMode)
        ensures
            final(self).spec_raw() == with_bits_u32(old(self).spec_raw(), 8, 3, mode.spec_code()),
    {
        self.reg = set_bits_u32(self.reg, 8, 3, mode.code());
    }

    /// Destination mode: logical where bit 11 is set.
    pub fn destination_mode(&self) -> (r: DestinationMode)
        ensures
            (r == DestinationMode::Logical) == bit_u32(self.spec_raw(), 11),
    {
        if get_bit_u32(self.reg, 11) {
            DestinationMode::Logical
        } else {
            DestinationMode::Physical
        }
    }

    /// Sets the destination mode; the other bits keep their values.
    pub fn set_destination_mode(&mut self, mode: DestinationMode)
        ensures
            final(self).spec_raw() == with_bit_u32(
                old(self).spec_raw(),
                11,
                mode == DestinationMode::Logical,
            ),
    {
        self.reg = set_bit_u32(self.reg, 11, mode == DestinationMode::Logical);
    }

    /// Delivery status: send pending where bit 12 is set.
    pub fn delivery_status(&self) -> (r: DeliveryStatus)
        ensures
            (r == DeliveryStatus::SendPending) == bit_u32(self.spec_raw(), 12),
    {
        if get_bit_u32(self.reg, 12) {
            DeliveryStatus::SendPending
        } else {
            DeliveryStatus::Idle
        }
    }

    /// Level: assert where bit 14 is set.
    pub fn level(&self) -> (r: IcrLevel)
        ensures
            (r == IcrLevel::Assert) == bit_u32(self.spec_raw(), 14),
    {
        if get_bit_u32(self.reg, 14) {
            IcrLevel::Assert
        } else {
            IcrLevel::Deassert
        }
    }

    /// Sets the level; the other bits keep their values.
    pub fn set_level(&mut self, level: IcrLevel)
        ensures
            final(self).spec_raw() == with_bit_u32(
                old(self).spec_raw(),
                14,
                level == IcrLevel::Assert,
            ),
    {
        self.reg = set_bit_u32(self.reg, 14, level == IcrLevel::Assert);
    }

    /// Trigger mode: level-sensitive where bit 15 is set.
    pub fn trigger_mode(&self) -> (r: TriggerMode)
        ensures
            (r == TriggerMode::LevelSensitive) == bit_u32(self.spec_raw(), 15),
    {
        if get_bit_u32(self.reg, 15) {
            TriggerMode::LevelSensitive
        } else {
            TriggerMode::EdgeSensitive
        }
    }

    /// Sets the trigger mode; the other bits keep their values.
    pub fn set_trigger_mode(&mut self, mode: TriggerMode)
        ensures
            final(self).spec_raw() == with_bit_u32(
                old(self).spec_raw(),
                15,
                mode == TriggerMode::LevelSensitive,
            ),
    {
        self.reg = set_bit_u32(self.reg, 15, mode == TriggerMode::LevelSensitive);
    }

    /// Destination shorthand: bits 18..20.
    pub fn destination_shorthand(&self) -> (r: DestinationShorthand)
        ensures
            r == shorthand_of(bits_u32(self.spec_raw(), 18, 2)),
    {
        proof {
            lemma_small_shifts();
        }
        DestinationShorthand::from_code(get_bits_u32(self.reg, 18, 2))
    }

    /// Sets the destination shorthand; the other bits keep their values.
    pub fn set_destination_shorthand(&mut self, ds: DestinationShorthand)
        ensures
            final(self).spec_raw() == with_bits_u32(old(self).spec_raw(), 18, 2, ds.spec_code()),
    {
        self.reg = set_bits_u32(self.reg, 18, 2, ds.code());
    }
}

impl Icr1 {
    /// Destination field: bits 24..32.
    pub fn destination(&self) -> (r: u8)
        ensures
            r == bits_u32(self.spec_raw(), 24, 8),
    {
        proof {
            lemma_small_shifts();
        }
        get_bits_u32(self.reg, 24, 8) as u8
    }

    /// Sets the destination; the other bits keep their values.
    pub fn set_destination(&mut self, dest: u8)
        ensures
            final(self).spec_raw() == with_bits_u32(old(self).spec_raw(), 24, 8, dest as u32),
    {
        self.reg = set_bits_u32(self.reg, 24, 8, dest as u32);
    }
}

impl LvtTimer {
    /// Timer mode: bits 17..19.
    pub fn mode(&self) -> (r: LvtTimerMode)
        ensures
            r == timer_mode_of(bits_u32(self.spec_raw(), 17, 2)),
    {
        proof {
            lemma_small_shifts();
        }
        let v = get_bits_u32(self.reg, 17, 2);
        if v == 0 {
            LvtTimerMode::OneShot
        } else if v == 1 {
            LvtTimerMode::Periodic
        } else if v == 2 {
            LvtTimerMode::TscDeadline
        } else {
            LvtTimerMode::Reserved
        }
    }

    /// Sets the timer mode; the other bits keep their values. Not every
    /// processor supports TSC-deadline mode.
    pub fn set_mode(&mut self, mode: LvtTimerMode)
        ensures
            final(self).spec_raw() == with_bits_u32(old(self).spec_raw(), 17, 2, mode.spec_code()),
    {
        let v: u32 = match mode {
            LvtTimerMode::OneShot => 0,
            LvtTimerMode::Periodic => 1,
            LvtTimerMode::TscDeadline => 2,
            LvtTimerMode::Reserved => 3,
        };
        self.reg = set_bits_u32(self.reg, 17, 2, v);
    }
}

impl LvtLint0 {
    /// Sets the trigger mode: bit 15. Some delivery modes ignore it.
    pub fn set_trigger_mode(&mut self, mode: TriggerMode)
        ensures
            final(self).spec_raw() == with_bit_u32(
                old(self).spec_raw(),
                15,
                mode == TriggerMode::LevelSensitive,
            ),
    {
        self.reg = set_bit_u32(self.reg, 15, mode == TriggerMode::LevelSensitive);
    }
}

impl TimerCurrentCount {
    /// Current count of the timer.
    pub fn value(&self) -> (r: u32)
        ensures
            r == self.spec_raw(),
    {
        self.reg
    }
}

impl TimerInitialCount {
    /// Initial count of the timer.
    pub fn value(&self) -> (r: u32)
        ensures
            r == self.spec_raw(),
    {
        self.reg
    }

    /// Sets the initial count.
    pub fn set(&mut self, value: u32)
        ensures
            final(self).spec_raw() == value,
    {
        self.reg = value;
    }

    /// Stops the timer: an initial count of zero.
    pub fn stop_timer(&mut self)
        ensures
            final(self).spec_raw() == 0,
    {
        self.set(0);
    }
}

impl DivideConfiguration {
    /// Sets the divide value.
    pub fn set(&mut self, div: DivideValue)
        ensures
            final(self).spec_raw() == div.spec_code(),
    {
        self.reg = match div {
            DivideValue::Div1 => 0b1011,
            DivideValue::Div2 => 0b0000,
            DivideValue::Div4 => 0b0001,
            DivideValue::Div8 => 0b0010,
            DivideValue::Div16 => 0b0011,
            DivideValue::Div32 => 0b1000,
            DivideValue::Div64 => 0b1001,
            DivideValue::Div128 => 0b1010,
        };
    }

    /// Divides the timer clock by 1.
    pub fn set_1(&mut self)
        ensures
            final(self).spec_raw() == DivideValue::Div1.spec_code(),
    {
        self.set(DivideValue::Div1);
    }

    /// Divides the timer clock by 2.
    pub fn set_2(&mut self)
        ensures
            final(self).spec_raw() == DivideValue::Div2.spec_code(),
    {
        self.set(DivideValue::Div2);
    }

    /// Divides the timer clock by 4.
    pub fn set_4(&mut self)
        ensures
            final(self).spec_raw() == DivideValue::Div4.spec_code(),
    {
        self.set(DivideValue::Div4);
    }

    /// Divides the timer clock by 8.
    pub fn set_8(&mut self)
        ensures
            final(self).spec_raw() == DivideValue::Div8.spec_code(),
    {
        self.set(DivideValue::Div8);
    }

    /// Divides the timer clock by 16.
    pub fn set_16(&mut self)
        ensures
            final(self).spec_raw() == DivideValue::Div16.spec_code(),
    {
        self.set(DivideValue::Div16);
    }

    /// Divides the timer clock by 32.
    pub fn set_32(&mut self)
        ensures
            final(self).spec_raw() == DivideValue::Div32.spec_code(),
    {
        self.set(DivideValue::Div32);
    }

    /// Divides the timer clock by 64.
    pub fn set_64(&mut self)
        ensures
            final(self).spec_raw() == DivideValue::Div64.spec_code(),
    {
        self.set(DivideValue::Div64);
    }

    /// Divides the timer clock by 128.
    pub fn set_128(&mut self)
        ensures
            final(self).spec_raw() == DivideValue::Div128.spec_code(),
    {
        self.set(DivideValue::Div128);
    }

    /// The divide value that the divide bits select; bit 2 is reserved and
    /// not read.
    pub fn get(&self) -> (r: DivideValue)
        ensures
            r == divide_value_of(self.spec_raw()),
    {
        let d = self.reg & 0b1011;
        if d == 0b0000 {
            DivideValue::Div2
        } else if d == 0b0001 {
            DivideValue::Div4
        } else if d == 0b0010 {
            DivideValue::Div8
        } else if d == 0b0011 {
            DivideValue::Div16
        } else if d == 0b1000 {
            DivideValue::Div32
        } else if d == 0b1001 {
            DivideValue::Div64
        } else if d == 0b1010 {
            DivideValue::Div128
        } else {
            DivideValue::Div1
        }
    }
}

/// The interrupt command register as two halves: the values last read from
/// or written to the register, and pending values that the setters change.
/// Nothing reaches the register before `apply`.
#[derive(Clone, Copy, Debug)]
pub struct Icr {
    icr0: Icr0,
    icr1: Icr1,
    icr0_pending: Icr0,
    icr1_pending: Icr1,
}

impl Icr {
    /// The register halves as last read or applied.
    pub closed spec fn spec_current(self) -> (Icr0, Icr1) {
        (self.icr0, self.icr1)
    }

    /// The pending halves.
    pub closed spec fn spec_pending(self) -> (Icr0, Icr1) {
        (self.icr0_pending, self.icr1_pending)
    }

    /// The interface over register halves just read; nothing is pending.
    pub fn new(icr0: Icr0, icr1: Icr1) -> (r: Icr)
        ensures
            r.spec_current() == (icr0, icr1),
            r.spec_pending() == (icr0, icr1),
    {
        Icr { icr0, icr1, icr0_pending: icr0, icr1_pending: icr1 }
    }

    /// Pending interrupt vector.
    pub fn vector(&self) -> (r: u8)
        ensures
            r == bits_u32(self.spec_pending().0.spec_raw(), 0, 8),
    {
        self.icr0_pending.vector()
    }

    /// Pending delivery mode.
    pub fn delivery_mode(&self) -> (r: DeliveryMode)
        ensures
            r == delivery_mode_of(bits_u32(self.spec_pending().0.spec_raw(), 8, 3)),
    {
        self.icr0_pending.delivery_mode()
    }

    /// Pending destination mode.
    pub fn destination_mode(&self) -> (r: DestinationMode)
        ensures
            (r == DestinationMode::Logical) == bit_u32(self.spec_pending().0.spec_raw(), 11),
    {
        self.icr0_pending.destination_mode()
    }

    /// Pending level.
    pub fn level(&self) -> (r: IcrLevel)
        ensures
            (r == IcrLevel::Assert) == bit_u32(self.spec_pending().0.spec_raw(), 14),
    {
        self.icr0_pending.level()
    }

    /// Pending trigger mode.
    pub fn trigger_mode(&self) -> (r: TriggerMode)
        ensures
            (r == TriggerMode::LevelSensitive) == bit_u32(self.spec_pending().0.spec_raw(), 15),
    {
        self.icr0_pending.trigger_mode()
    }

    /// Pending destination shorthand.
    pub fn destination_shorthand(&self) -> (r: DestinationShorthand)
        ensures
            r == shorthand_of(bits_u32(self.spec_pending().0.spec_raw(), 18, 2)),
    {
        self.icr0_pending.destination_shorthand()
    }

    /// Pending destination.
    pub fn destination(&self) -> (r: u8)
        ensures
            r == bits_u32(self.spec_pending().1.spec_raw(), 24, 8),
    {
        self.icr1_pending.destination()
    }

    /// Changes the pending value as `Icr0::set_vector` does.
    pub fn set_vector(&mut self, vec: u8)
        ensures
            final(self).spec_current() == old(self).spec_current(),
            final(self).spec_pending().1 == old(self).spec_pending().1,
            final(self).spec_pending().0.spec_raw() == with_bits_u32(old(self).spec_pending().0.spec_raw(), 0, 8, vec as u32),
    {
        self.icr0_pending.set_vector(vec);
    }

    /// Changes the pending value as `Icr0::set_delivery_mode` does.
    pub fn set_delivery_mode(&mut self, mode: DeliveryMode)
        ensures
            final(self).spec_current() == old(self).spec_current(),
            final(self).spec_pending().1 == old(self).spec_pending().1,
            final(self).spec_pending().0.spec_raw() == with_bits_u32(old(self).spec_pending().0.spec_raw(), 8, 3, mode.spec_code()),
    {
        self.icr0_pending.set_delivery_mode(mode);
    }

    /// Changes the pending value as `Icr0::set_destination_mode` does.
    pub fn set_destination_mode(&mut self, mode: DestinationMode)
        ensures
            final(self).spec_current() == old(self).spec_current(),
            final(self).spec_pending().1 == old(self).spec_pending().1,
            final(self).spec_pending().0.spec_raw() == with_bit_u32(old(self).spec_pending().0.spec_raw(), 11, mode == DestinationMode::Logical),
    {
        self.icr0_pending.set_destination_mode(mode);
    }

    /// Changes the pending value as `Icr0::set_level` does.
    pub fn set_level(&mut self, level: IcrLevel)
        ensures
            final(self).spec_current() == old(self).spec_current(),
            final(self).spec_pending().1 == old(self).spec_pending().1,
            final(self).spec_pending().0.spec_raw() == with_bit_u32(old(self).spec_pending().0.spec_raw(), 14, level == IcrLevel::Assert),
    {
        self.icr0_pending.set_level(level);
    }

    /// Changes the pending value as `Icr0::set_trigger_mode` does.
    pub fn set_trigger_mode(&mut self, mode: TriggerMode)
        ensures
            final(self).spec_current() == old(self).spec_current(),
            final(self).spec_pending().1 == old(self).spec_pending().1,
            final(self).spec_pending().0.spec_raw() == with_bit_u32(old(self).spec_pending().0.spec_raw(), 15, mode == TriggerMode::LevelSensitive),
    {
        self.icr0_pending.set_trigger_mode(mode);
    }

    /// Changes the pending value as `Icr0::set_destination_shorthand` does.
    pub fn set_destination_shorthand(&mut self, ds: DestinationShorthand)
        ensures
            final(self).spec_current() == old(self).spec_current(),
            final(self).spec_pending().1 == old(self).spec_pending().1,
            final(self).spec_pending().0.spec_raw() == with_bits_u32(old(self).spec_pending().0.spec_raw(), 18, 2, ds.spec_code()),
    {
        self.icr0_pending.set_destination_shorthand(ds);
    }

    /// Changes the pending value as `Icr1::set_destination` does.
    pub fn set_destination(&mut self, dest: u8)
        ensures
            final(self).spec_current() == old(self).spec_current(),
            final(self).spec_pending().0 == old(self).spec_pending().0,
            final(self).spec_pending().1.spec_raw() == with_bits_u32(old(self).spec_pending().1.spec_raw(), 24, 8, dest as u32),
    {
        self.icr1_pending.set_destination(dest);
    }

    /// Delivery status of the register itself, not of the pending value.
    pub fn delivery_status(&self) -> (r: DeliveryStatus)
        ensures
            (r == DeliveryStatus::SendPending) == bit_u32(self.spec_current().0.spec_raw(), 12),
    {
        self.icr0.delivery_status()
    }

    /// Drops the pending changes to the low half.
    pub fn restore_icr0(&mut self)
        ensures
            final(self).spec_current() == old(self).spec_current(),
            final(self).spec_pending() == (old(self).spec_current().0, old(self).spec_pending().1),
    {
        self.icr0_pending = self.icr0;
    }

    /// Drops the pending changes to the high half.
    pub fn restore_icr1(&mut self)
        ensures
            final(self).spec_current() == old(self).spec_current(),
            final(self).spec_pending() == (old(self).spec_pending().0, old(self).spec_current().1),
    {
        self.icr1_pending = self.icr1;
    }

    /// Makes both pending halves current and returns them in the order in
    /// which they must be written: the high half first, since writing the
    /// low half sends the interrupt.
    pub fn apply(&mut self) -> (r: (Icr1, Icr0))
        ensures
            final(self).spec_current() == old(self).spec_pending(),
            final(self).spec_pending() == old(self).spec_pending(),
            r == (old(self).spec_pending().1, old(self).spec_pending().0),
    {
        self.icr1 = self.icr1_pending;
        self.icr0 = self.icr0_pending;
        (self.icr1, self.icr0)
    }

    /// Makes the pending low half current and returns it, to be written.
    pub fn apply_icr0(&mut self) -> (r: Icr0)
        ensures
            final(self).spec_current() == (old(self).spec_pending().0, old(self).spec_current().1),
            final(self).spec_pending() == old(self).spec_pending(),
            r == old(self).spec_pending().0,
    {
        self.icr0 = self.icr0_pending;
        self.icr0
    }
}

} // verus!
