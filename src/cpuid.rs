//! Values returned by the CPUID instruction, and the fields they hold.
//! Running the instruction is left to the caller.
use vstd::prelude::*;

use crate::bitfield::{bit_u32, bits_u32, get_bit_u32, get_bits_u32, lemma_small_shifts};

verus! {

/// The four registers that CPUID fills.
#[derive(Clone, Copy, Debug, PartialEq, Eq, Structural)]
pub struct Info {
    pub eax: u32,
    pub ebx: u32,
    pub ecx: u32,
    pub edx: u32,
}

/// The CPUID leaves that take no sub-leaf.
#[derive(Clone, Copy, Debug, PartialEq, Eq, Structural)]
pub enum InfoType {
    VendorString,
    Features,
    Tlb,
    Serial,
    IntelExtended,
    IntelFeatures,
    IntelBrandString,
    IntelBrandStringMore,
    IntelBrandStringEnd,
}

impl InfoType {
    pub open spec fn spec_code(self) -> u32 {
        match self {
            InfoType::VendorString => 0x00,
            InfoType::Features => 0x01,
            InfoType::Tlb => 0x02,
            InfoType::Serial => 0x03,
            InfoType::IntelExtended => 0x8000_0000,
            InfoType::IntelFeatures => 0x8000_0001,
            InfoType::IntelBrandString => 0x8000_0002,
            InfoType::IntelBrandStringMore => 0x8000_0003,
            InfoType::IntelBrandStringEnd => 0x8000_0004,
        }
    }

    /// The leaf number that CPUID takes in EAX.
    pub fn code(&self) -> (r: u32)
        ensures
            r == self.spec_code(),
    {
        match self {
            InfoType::VendorString => 0x00,
            InfoType::Features => 0x01,
            InfoType::Tlb => 0x02,
            InfoType::Serial => 0x03,
            InfoType::IntelExtended => 0x8000_0000,
            InfoType::IntelFeatures => 0x8000_0001,
            InfoType::IntelBrandString => 0x8000_0002,
            InfoType::IntelBrandStringMore => 0x8000_0003,
            InfoType::IntelBrandStringEnd => 0x8000_0004,
        }
    }
}

/// Sub-leaves of the XSAVE leaf.
#[derive(Clone, Copy, Debug, PartialEq, Eq, Structural)]
pub enum XsaveInfoType {
    Subf0,
    Subf1,
}

/// The XSAVE leaf number.
pub const XSAVE_LEAF: u32 = 0x0D;

impl XsaveInfoType {
    /// The sub-leaf number that CPUID takes in ECX.
    pub fn code(&self) -> (r: u32)
        ensures
            r == (match self {
                XsaveInfoType::Subf0 => 0u32,
                XsaveInfoType::Subf1 => 1u32,
            }),
    {
        match self {
            XsaveInfoType::Subf0 => 0,
            XsaveInfoType::Subf1 => 1,
        }
    }
}

/// CPUID leaf 0: vendor string and highest basic leaf.
#[derive(Clone, Copy, Debug, PartialEq, Eq, Structural)]
pub struct VendorString {
    info: Info,
}

impl View for VendorString {
    type V = Info;

    closed spec fn view(&self) -> Info {
        self.info
    }
}

impl vstd::std_specs::convert::FromSpecImpl<Info> for VendorString {
    open spec fn obeys_from_spec() -> bool {
        true
    }

    closed spec fn from_spec(i: Info) -> VendorString {
        VendorString { info: i }
    }
}

impl From<Info> for VendorString {
    fn from(i: Info) -> (r: VendorString)
        ensures
            r@ == i,
    {
        VendorString { info: i }
    }
}

impl VendorString {
    /// The leaf that gives this value.
    pub fn leaf() -> (r: InfoType)
        ensures
            r == InfoType::VendorString,
    {
        InfoType::VendorString
    }

    /// The registers this value was made from.
    pub fn info(&self) -> (r: Info)
        ensures
            r == self@,
    {
        self.info
    }
}

/// CPUID leaf 1: version and feature flags.
#[derive(Clone, Copy, Debug, PartialEq, Eq, Structural)]
pub struct Features {
    info: Info,
}

impl View for Features {
    type V = Info;

    closed spec fn view(&self) -> Info {
        self.info
    }
}

impl vstd::std_specs::convert::FromSpecImpl<Info> for Features {
    open spec fn obeys_from_spec() -> bool {
        true
    }

    closed spec fn from_spec(i: Info) -> Features {
        Features { info: i }
    }
}

impl From<Info> for Features {
    fn from(i: Info) -> (r: Features)
        ensures
            r@ == i,
    {
        Features { info: i }
    }
}

impl Features {
    /// The leaf that gives this value.
    pub fn leaf() -> (r: InfoType)
        ensures
            r == InfoType::Features,
    {
        InfoType::Features
    }

    /// The registers this value was made from.
    pub fn info(&self) -> (r: Info)
        ensures
            r == self@,
    {
        self.info
    }
}

/// CPUID leaf 2: cache and TLB descriptors.
#[derive(Clone, Copy, Debug, PartialEq, Eq, Structural)]
pub struct Tlb {
    info: Info,
}

impl View for Tlb {
    type V = Info;

    closed spec fn view(&self) -> Info {
        self.info
    }
}

impl vstd::std_specs::convert::FromSpecImpl<Info> for Tlb {
    open spec fn obeys_from_spec() -> bool {
        true
    }

    closed spec fn from_spec(i: Info) -> Tlb {
        Tlb { info: i }
    }
}

impl From<Info> for Tlb {
    fn from(i: Info) -> (r: Tlb)
        ensures
            r@ == i,
    {
        Tlb { info: i }
    }
}

impl Tlb {
    /// The leaf that gives this value.
    pub fn leaf() -> (r: InfoType)
        ensures
            r == InfoType::Tlb,
    {
        InfoType::Tlb
    }

    /// The registers this value was made from.
    pub fn info(&self) -> (r: Info)
        ensures
            r == self@,
    {
        self.info
    }
}

/// CPUID leaf 3: processor serial number.
#[derive(Clone, Copy, Debug, PartialEq, Eq, Structural)]
pub struct Serial {
    info: Info,
}

impl View for Serial {
    type V = Info;

    closed spec fn view(&self) -> Info {
        self.info
    }
}

impl vstd::std_specs::convert::FromSpecImpl<Info> for Serial {
    open spec fn obeys_from_spec() -> bool {
        true
    }

    closed spec fn from_spec(i: Info) -> Serial {
        Serial { info: i }
    }
}

impl From<Info> for Serial {
    fn from(i: Info) -> (r: Serial)
        ensures
            r@ == i,
    {
        Serial { info: i }
    }
}

impl Serial {
    /// The leaf that gives this value.
    pub fn leaf() -> (r: InfoType)
        ensures
            r == InfoType::Serial,
    {
        InfoType::Serial
    }

    /// The registers this value was made from.
    pub fn info(&self) -> (r: Info)
        ensures
            r == self@,
    {
        self.info
    }
}

/// CPUID leaf 0x8000_0000: highest extended leaf.
#[derive(Clone, Copy, Debug, PartialEq, Eq, Structural)]
pub struct IntelExtended {
    info: Info,
}

impl View for IntelExtended {
    type V = Info;

    closed spec fn view(&self) -> Info {
        self.info
    }
}

impl vstd::std_specs::convert::FromSpecImpl<Info> for IntelExtended {
    open spec fn obeys_from_spec() -> bool {
        true
    }

    closed spec fn from_spec(i: Info) -> IntelExtended {
        IntelExtended { info: i }
    }
}

impl From<Info> for IntelExtended {
    fn from(i: Info) -> (r: IntelExtended)
        ensures
            r@ == i,
    {
        IntelExtended { info: i }
    }
}

impl IntelExtended {
    /// The leaf that gives this value.
    pub fn leaf() -> (r: InfoType)
        ensures
            r == InfoType::IntelExtended,
    {
        InfoType::IntelExtended
    }

    /// The registers this value was made from.
    pub fn info(&self) -> (r: Info)
        ensures
            r == self@,
    {
        self.info
    }
}

/// CPUID leaf 0x8000_0001: extended feature flags.
#[derive(Clone, Copy, Debug, PartialEq, Eq, Structural)]
pub struct IntelFeatures {
    info: Info,
}

impl View for IntelFeatures {
    type V = Info;

    closed spec fn view(&self) -> Info {
        self.info
    }
}

impl vstd::std_specs::convert::FromSpecImpl<Info> for IntelFeatures {
    open spec fn obeys_from_spec() -> bool {
        true
    }

    closed spec fn from_spec(i: Info) -> IntelFeatures {
        IntelFeatures { info: i }
    }
}

impl From<Info> for IntelFeatures {
    fn from(i: Info) -> (r: IntelFeatures)
        ensures
            r@ == i,
    {
        IntelFeatures { info: i }
    }
}

impl IntelFeatures {
    /// The leaf that gives this value.
    pub fn leaf() -> (r: InfoType)
        ensures
            r == InfoType::IntelFeatures,
    {
        InfoType::IntelFeatures
    }

    /// The registers this value was made from.
    pub fn info(&self) -> (r: Info)
        ensures
            r == self@,
    {
        self.info
    }
}

/// CPUID leaf 0x8000_0002: brand string, part 1.
#[derive(Clone, Copy, Debug, PartialEq, Eq, Structural)]
pub struct IntelBrandString {
    info: Info,
}

impl View for IntelBrandString {
    type V = Info;

    closed spec fn view(&self) -> Info {
        self.info
    }
}

impl vstd::std_specs::convert::FromSpecImpl<Info> for IntelBrandString {
    open spec fn obeys_from_spec() -> bool {
        true
    }

    closed spec fn from_spec(i: Info) -> IntelBrandString {
        IntelBrandString { info: i }
    }
}

impl From<Info> for IntelBrandString {
    fn from(i: Info) -> (r: IntelBrandString)
        ensures
            r@ == i,
    {
        IntelBrandString { info: i }
    }
}

impl IntelBrandString {
    /// The leaf that gives this value.
    pub fn leaf() -> (r: InfoType)
        ensures
            r == InfoType::IntelBrandString,
    {
        InfoType::IntelBrandString
    }

    /// The registers this value was made from.
    pub fn info(&self) -> (r: Info)
        ensures
            r == self@,
    {
        self.info
    }
}

/// CPUID leaf 0x8000_0003: brand string, part 2.
#[derive(Clone, Copy, Debug, PartialEq, Eq, Structural)]
pub struct IntelBrandStringMore {
    info: Info,
}

impl View for IntelBrandStringMore {
    type V = Info;

    closed spec fn view(&self) -> Info {
        self.info
    }
}

impl vstd::std_specs::convert::FromSpecImpl<Info> for IntelBrandStringMore {
    open spec fn obeys_from_spec() -> bool {
        true
    }

    closed spec fn from_spec(i: Info) -> IntelBrandStringMore {
        IntelBrandStringMore { info: i }
    }
}

impl From<Info> for IntelBrandStringMore {
    fn from(i: Info) -> (r: IntelBrandStringMore)
        ensures
            r@ == i,
    {
        IntelBrandStringMore { info: i }
    }
}

impl IntelBrandStringMore {
    /// The leaf that gives this value.
    pub fn leaf() -> (r: InfoType)
        ensures
            r == InfoType::IntelBrandStringMore,
    {
        InfoType::IntelBrandStringMore
    }

    /// The registers this value was made from.
    pub fn info(&self) -> (r: Info)
        ensures
            r == self@,
    {
        self.info
    }
}

/// CPUID leaf 0x8000_0004: brand string, part 3.
#[derive(Clone, Copy, Debug, PartialEq, Eq, Structural)]
pub struct IntelBrandStringEnd {
    info: Info,
}

impl View for IntelBrandStringEnd {
    type V = Info;

    closed spec fn view(&self) -> Info {
        self.info
    }
}

impl vstd::std_specs::convert::FromSpecImpl<Info> for IntelBrandStringEnd {
    open spec fn obeys_from_spec() -> bool {
        true
    }

    closed spec fn from_spec(i: Info) -> IntelBrandStringEnd {
        IntelBrandStringEnd { info: i }
    }
}

impl From<Info> for IntelBrandStringEnd {
    fn from(i: Info) -> (r: IntelBrandStringEnd)
        ensures
            r@ == i,
    {
        IntelBrandStringEnd { info: i }
    }
}

impl IntelBrandStringEnd {
    /// The leaf that gives this value.
    pub fn leaf() -> (r: InfoType)
        ensures
            r == InfoType::IntelBrandStringEnd,
    {
        InfoType::IntelBrandStringEnd
    }

    /// The registers this value was made from.
    pub fn info(&self) -> (r: Info)
        ensures
            r == self@,
    {
        self.info
    }
}

/// CPUID leaf 0x0D, sub-leaf 0: XSAVE features.
#[derive(Clone, Copy, Debug, PartialEq, Eq, Structural)]
pub struct Xsave0 {
    info: Info,
}

impl View for Xsave0 {
    type V = Info;

    closed spec fn view(&self) -> Info {
        self.info
    }
}

impl vstd::std_specs::convert::FromSpecImpl<Info> for Xsave0 {
    open spec fn obeys_from_spec() -> bool {
        true
    }

    closed spec fn from_spec(i: Info) -> Xsave0 {
        Xsave0 { info: i }
    }
}

impl From<Info> for Xsave0 {
    fn from(i: Info) -> (r: Xsave0)
        ensures
            r@ == i,
    {
        Xsave0 { info: i }
    }
}

impl Xsave0 {
    /// The sub-leaf of leaf `XSAVE_LEAF` that gives this value.
    pub fn leaf() -> (r: XsaveInfoType)
        ensures
            r == XsaveInfoType::Subf0,
    {
        XsaveInfoType::Subf0
    }

    /// The registers this value was made from.
    pub fn info(&self) -> (r: Info)
        ensures
            r == self@,
    {
        self.info
    }
}

/// CPUID leaf 0x0D, sub-leaf 1: XSAVE features.
#[derive(Clone, Copy, Debug, PartialEq, Eq, Structural)]
pub struct Xsave1 {
    info: Info,
}

impl View for Xsave1 {
    type V = Info;

    closed spec fn view(&self) -> Info {
        self.info
    }
}

impl vstd::std_specs::convert::FromSpecImpl<Info> for Xsave1 {
    open spec fn obeys_from_spec() -> bool {
        true
    }

    closed spec fn from_spec(i: Info) -> Xsave1 {
        Xsave1 { info: i }
    }
}

impl From<Info> for Xsave1 {
    fn from(i: Info) -> (r: Xsave1)
        ensures
            r@ == i,
    {
        Xsave1 { info: i }
    }
}

impl Xsave1 {
    /// The sub-leaf of leaf `XSAVE_LEAF` that gives this value.
    pub fn leaf() -> (r: XsaveInfoType)
        ensures
            r == XsaveInfoType::Subf1,
    {
        XsaveInfoType::Subf1
    }

    /// The registers this value was made from.
    pub fn info(&self) -> (r: Info)
        ensures
            r == self@,
    {
        self.info
    }
}

impl Xsave0 {
    /// Size of the XSAVE area for all supported state components.
    pub fn size_of_all(&self) -> (r: u32)
        ensures
            r == self@.ecx,
    {
        self.info.ecx
    }

    /// Size of the XSAVE area for the state components enabled now.
    pub fn size_of_current(&self) -> (r: u32)
        ensures
            r == self@.ebx,
    {
        self.info.ebx
    }
}

impl Xsave1 {
    /// Whether XSAVEOPT is supported: EAX bit 0.
    pub fn xsaveopt_supported(&self) -> (r: bool)
        ensures
            r == bit_u32(self@.eax, 0),
    {
        get_bit_u32(self.info.eax, 0)
    }

    /// Whether XSAVEC and the compact form of XRSTOR are supported: EAX
    /// bit 1.
    pub fn compact_form_supported(&self) -> (r: bool)
        ensures
            r == bit_u32(self@.eax, 1),
    {
        get_bit_u32(self.info.eax, 1)
    }

    /// Whether XGETBV with ECX = 1 is supported: EAX bit 2.
    pub fn xgetbv_supported(&self) -> (r: bool)
        ensures
            r == bit_u32(self@.eax, 2),
    {
        get_bit_u32(self.info.eax, 2)
    }

    /// Whether XSAVES, XRSTORS and the IA32_XSS register are supported: EAX
    /// bit 3.
    pub fn xsaves_supported(&self) -> (r: bool)
        ensures
            r == bit_u32(self@.eax, 3),
    {
        get_bit_u32(self.info.eax, 3)
    }

    /// Size of the XSAVE area for the components set in XCR0 | IA32_XSS.
    pub fn xsaves_size_of_current(&self) -> (r: u32)
        ensures
            r == self@.ebx,
    {
        self.info.ebx
    }
}

/// Byte `i` (0 to 11) of the vendor string: EBX, then EDX, then ECX, each
/// from its low byte up.
pub open spec fn vendor_byte(info: Info, i: int) -> u8 {
    let reg = if i < 4 {
        info.ebx
    } else if i < 8 {
        info.edx
    } else {
        info.ecx
    };
    bits_u32(reg, (8 * (i % 4)) as u32, 8) as u8
}

impl VendorString {
    /// Writes the 12-character vendor string into `s`, followed by a NUL.
    pub fn vendor(&self, s: &mut [char; 13])
        ensures
            forall|i: int| 0 <= i < 12 ==> final(s)@[i] == vendor_byte(self@, i) as char,
            final(s)@[12] == '\0',
    {
        proof {
            lemma_small_shifts();
        }
        let regs: [u32; 3] = [self.info.ebx, self.info.edx, self.info.ecx];
        let mut i: usize = 0;
        while i < 12
            invariant
                0 <= i <= 12,
                regs@ == seq![self@.ebx, self@.edx, self@.ecx],
                forall|j: int| 0 <= j < i ==> s@[j] == vendor_byte(self@, j) as char,
            decreases 12 - i,
        {
            let b = get_bits_u32(regs[i / 4], (8 * (i % 4)) as u32, 8) as u8;
            s[i] = b as char;
            i = i + 1;
        }
        s[12] = '\0';
    }

    /// The highest basic leaf that CPUID answers.
    pub fn max_value(&self) -> (r: u32)
        ensures
            r == self@.eax,
    {
        self.info.eax
    }
}

impl Features {
    /// Brand index: EBX bits 0..8.
    pub fn brand_index(&self) -> (r: u8)
        ensures
            r == bits_u32(self@.ebx, 0, 8),
    {
        proof {
            lemma_small_shifts();
        }
        get_bits_u32(self.info.ebx, 0, 8) as u8
    }

    /// CLFLUSH line size in 8-byte units: EBX bits 8..16.
    pub fn clflush_line_size(&self) -> (r: u8)
        ensures
            r == bits_u32(self@.ebx, 8, 8),
    {
        proof {
            lemma_small_shifts();
        }
        get_bits_u32(self.info.ebx, 8, 8) as u8
    }

    /// Largest number of addressable logical processor IDs in the package: EBX bits 16..24. Valid only where EDX bit 28 (HTT) is set.
    pub fn max_addressable_ids(&self) -> (r: u8)
        ensures
            r == bits_u32(self@.ebx, 16, 8),
    {
        proof {
            lemma_small_shifts();
        }
        get_bits_u32(self.info.ebx, 16, 8) as u8
    }

    /// Initial APIC ID: EBX bits 24..32.
    pub fn initial_apic_id(&self) -> (r: u8)
        ensures
            r == bits_u32(self@.ebx, 24, 8),
    {
        proof {
            lemma_small_shifts();
        }
        get_bits_u32(self.info.ebx, 24, 8) as u8
    }

    /// Extended family: EAX bits 20..28.
    pub fn extended_family_id(&self) -> (r: u8)
        ensures
            r == bits_u32(self@.eax, 20, 8),
    {
        proof {
            lemma_small_shifts();
        }
        get_bits_u32(self.info.eax, 20, 8) as u8
    }

    /// Extended model: EAX bits 16..20.
    pub fn extended_model_id(&self) -> (r: u8)
        ensures
            r == bits_u32(self@.eax, 16, 4),
    {
        proof {
            lemma_small_shifts();
        }
        get_bits_u32(self.info.eax, 16, 4) as u8
    }

    /// Processor type: EAX bits 12..14.
    pub fn processor_type(&self) -> (r: u8)
        ensures
            r == bits_u32(self@.eax, 12, 2),
    {
        proof {
            lemma_small_shifts();
        }
        get_bits_u32(self.info.eax, 12, 2) as u8
    }

    /// Family: EAX bits 8..12.
    pub fn family_id(&self) -> (r: u8)
        ensures
            r == bits_u32(self@.eax, 8, 4),
    {
        proof {
            lemma_small_shifts();
        }
        get_bits_u32(self.info.eax, 8, 4) as u8
    }

    /// Model: EAX bits 4..8.
    pub fn model(&self) -> (r: u8)
        ensures
            r == bits_u32(self@.eax, 4, 4),
    {
        proof {
            lemma_small_shifts();
        }
        get_bits_u32(self.info.eax, 4, 4) as u8
    }

    /// Stepping: EAX bits 0..4.
    pub fn stepping_id(&self) -> (r: u8)
        ensures
            r == bits_u32(self@.eax, 0, 4),
    {
        proof {
            lemma_small_shifts();
        }
        get_bits_u32(self.info.eax, 0, 4) as u8
    }

    /// Whether the processor has a local APIC: EDX bit 9.
    pub fn local_apic_is_present(&self) -> (r: bool)
        ensures
            r == bit_u32(self@.edx, 9),
    {
        get_bit_u32(self.info.edx, 9)
    }

    /// Whether the APIC timer has TSC-deadline mode: ECX bit 24.
    pub fn tsc_deadline_supported(&self) -> (r: bool)
        ensures
            r == bit_u32(self@.ecx, 24),
    {
        get_bit_u32(self.info.ecx, 24)
    }

    /// Whether the XSAVE instruction family is supported: ECX bit 26.
    pub fn xsave_supported(&self) -> (r: bool)
        ensures
            r == bit_u32(self@.ecx, 26),
    {
        get_bit_u32(self.info.ecx, 26)
    }
}

} // verus!
