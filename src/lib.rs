//! Descriptor tables, paging tables and register images of the x86-64
//! processor, with their layouts and addressing rules stated and proved.
pub mod apic;
pub mod bit;
pub mod bitfield;
pub mod cpuid;
pub mod cr;
pub mod msr;
pub mod pic;
pub mod pit;
pub mod port;
pub mod regf;
pub mod seg;
pub mod tables;
pub mod xsave;

pub use tables::{gdt, idt, paging};
