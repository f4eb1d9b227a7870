//! Register files: plain records of processor register contents.
use vstd::prelude::*;

verus! {

/// General purpose registers.
#[derive(Clone, Copy, Debug, Default)]
pub struct GeneralPurpose {
    pub rax: u64,
    pub rbx: u64,
    pub rcx: u64,
    pub rdx: u64,
    pub rsi: u64,
    pub rdi: u64,
    pub rbp: u64,
    pub rsp: u64,
    pub r8: u64,
    pub r9: u64,
    pub r10: u64,
    pub r11: u64,
    pub r12: u64,
    pub r13: u64,
    pub r14: u64,
    pub r15: u64,
}

/// MMX registers.
#[derive(Clone, Copy, Debug, Default)]
pub struct Mmx {
    pub mmx0: u64,
    pub mmx1: u64,
    pub mmx2: u64,
    pub mmx3: u64,
    pub mmx4: u64,
    pub mmx5: u64,
    pub mmx6: u64,
    pub mmx7: u64,
}

/// x87 registers: the 64-bit and 16-bit parts of each 80-bit register, kept apart.
#[derive(Clone, Copy, Debug, Default)]
pub struct Floating {
    pub st0: u64,
    pub st1: u64,
    pub st2: u64,
    pub st3: u64,
    pub st4: u64,
    pub st5: u64,
    pub st6: u64,
    pub st7: u64,
    pub st0u16: u16,
    pub st1u16: u16,
    pub st2u16: u16,
    pub st3u16: u16,
    pub st4u16: u16,
    pub st5u16: u16,
    pub st6u16: u16,
    pub st7u16: u16,
}

/// Instruction pointer and flags.
#[derive(Clone, Copy, Debug, Default)]
pub struct State {
    pub rip: u64,
    pub flags: u32,
}

/// Segment registers.
#[derive(Clone, Copy, Debug, Default)]
pub struct Segments {
    pub cs: u16,
    pub ds: u16,
    pub es: u16,
    pub ss: u16,
    pub fs: u16,
    pub gs: u16,
}

/// SSE registers, each as its low and high halves.
#[derive(Clone, Copy, Debug, Default)]
pub struct Sse {
    pub xmm0l: u64,
    pub xmm0h: u64,
    pub xmm1l: u64,
    pub xmm1h: u64,
    pub xmm2l: u64,
    pub xmm2h: u64,
    pub xmm3l: u64,
    pub xmm3h: u64,
    pub xmm4l: u64,
    pub xmm4h: u64,
    pub xmm5l: u64,
    pub xmm5h: u64,
    pub xmm6l: u64,
    pub xmm6h: u64,
    pub xmm7l: u64,
    pub xmm7h: u64,
    pub xmm8l: u64,
    pub xmm8h: u64,
    pub xmm9l: u64,
    pub xmm9h: u64,
    pub xmm10l: u64,
    pub xmm10h: u64,
    pub xmm11l: u64,
    pub xmm11h: u64,
    pub xmm12l: u64,
    pub xmm12h: u64,
    pub xmm13l: u64,
    pub xmm13h: u64,
    pub xmm14l: u64,
    pub xmm14h: u64,
    pub xmm15l: u64,
    pub xmm15h: u64,
}

} // verus!
