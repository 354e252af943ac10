use vstd::prelude::*;

pub mod cpu;
pub mod debug;
pub mod dispatch;
pub mod dmem;
pub mod elf;
pub mod hw;
pub mod loader;
pub mod profile;
pub mod ram;
pub mod regs;
pub mod segment;
pub mod vmm;

verus! {

} // verus!
