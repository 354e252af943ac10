use vstd::prelude::*;

use crate::hw::DeviceTree;
use crate::loader::{load_kernel, spec_load, KernelImage, VmmError};
use crate::ram::{
    block_of, build_ram, kernel_byte, ram_fault, round_up, BootEnv, GuestRam, Region,
    ARGS_HEADER_SIZE, KERNEL_VADDR, STACK_SIZE,
};

verus! {

/// Size of guest RAM.
pub const RAM_SIZE: u64 = 0x2_0000_0000;

/// Everything a VM needs before its first vCPU starts: the checked kernel, where the devices
/// are and guest memory ready to be written.
pub struct VmSetup {
    pub kernel: KernelImage,
    pub devices: DeviceTree,
    pub ram: GuestRam,
}

/// Loads a kernel image, places the devices right above guest RAM and lays out guest memory,
/// with boot arguments that give the kernel the device addresses and the host page size.
pub fn setup_vm(
    img: &Vec<u8>,
    host_page_size: u64,
    ram_size: u64,
    conf: &Vec<u8>,
    debug: bool,
) -> (r: Result<VmSetup, VmmError>)
    requires
        host_page_size > 0,
        conf@.len() <= u64::MAX - ARGS_HEADER_SIZE,
    ensures
        match spec_load(img@) {
            Err(e) => r == Err::<VmSetup, VmmError>(e),
            Ok(k) => {
                let b = block_of(k.page_size, host_page_size);
                match r {
                    Ok(s) => {
                        &&& s.kernel@ == k
                        &&& s.devices == DeviceTree::spec_new(ram_size, b, debug)
                        &&& ram_fault(img@, k, host_page_size, ram_size, conf@.len()) is None
                        &&& s.ram.map.block_size == b
                        &&& s.ram.map.kern.addr == 0
                        &&& s.ram.map.kern.len == round_up(k.len as int, b as int)
                        &&& s.ram.map.kern.len % b == 0
                        &&& k.len <= s.ram.map.kern.len
                        &&& s.ram.map.kern_vaddr == KERNEL_VADDR
                        &&& s.ram.map.vm_page_size == k.page_size
                        &&& s.ram.map.host_page_size == host_page_size
                        &&& s.ram.map.stack == (Region {
                            addr: s.ram.map.kern.len,
                            len: round_up(STACK_SIZE as int, b as int) as u64,
                        })
                        &&& s.ram.map.args.addr == s.ram.map.stack.end()
                        &&& s.ram.map.args.len == round_up(s.ram.args@.len() as int, b as int)
                        &&& s.ram.map.args.end() <= ram_size
                        &&& s.ram.map.entry == KERNEL_VADDR + k.entry
                        &&& s.ram.map.kern.disjoint(s.ram.map.stack)
                        &&& s.ram.map.kern.disjoint(s.ram.map.args)
                        &&& s.ram.map.stack.disjoint(s.ram.map.args)
                        &&& s.ram.kernel@.len() == s.ram.map.kern.len
                        &&& forall|a: int|
                            0 <= a < s.ram.kernel@.len() ==> s.ram.kernel@[a] == kernel_byte(
                                img@,
                                k.segments,
                                a,
                            )
                        &&& s.ram.args@ == crate::ram::args_bytes(
                            BootEnv {
                                vmm: s.devices.vmm.addr,
                                console: s.devices.console.addr,
                                host_page_size,
                            },
                            conf@,
                        )
                    },
                    Err(e) => {
                        ||| (e == VmmError::TotalSizeTooLarge && ram_size + 3 * b > u64::MAX)
                        ||| (ram_size + 3 * b <= u64::MAX && ram_fault(
                            img@,
                            k,
                            host_page_size,
                            ram_size,
                            conf@.len(),
                        ) == Some(e))
                    },
                }
            },
        },
{
    let kernel = load_kernel(img)?;
    let block = if kernel.page_size >= host_page_size {
        kernel.page_size
    } else {
        host_page_size
    };
    let room = (u64::MAX - ram_size) / 3;
    assert(block > room <==> ram_size + 3 * block > u64::MAX) by (nonlinear_arith)
        requires
            room == (u64::MAX - ram_size) / 3,
            ram_size <= u64::MAX,
    ;
    if block > room {
        return Err(VmmError::TotalSizeTooLarge);
    }
    let devices = DeviceTree::new(ram_size, block, debug);
    let env = BootEnv { vmm: devices.vmm.addr, console: devices.console.addr, host_page_size };
    let ram = build_ram(img, &kernel, host_page_size, ram_size, &env, conf)?;
    Ok(VmSetup { kernel, devices, ram })
}

} // verus!
