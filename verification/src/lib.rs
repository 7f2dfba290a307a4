//! Bring-up and interrupt-handling core of a small single-core x86-64 kernel.

pub mod allocator;
pub mod ascii;
pub mod conf;
pub mod gdt;
pub mod interrupts;
pub mod kdebug;
pub mod multiboot;
pub mod pci;
pub mod vga;
