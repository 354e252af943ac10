use vstd::prelude::*;

use crate::elf::ProgramHeader;
use crate::loader::{spec_load, KernelImage, KernelModel, VmmError};

verus! {

/// Size of the stack of the main CPU.
pub const STACK_SIZE: u64 = 0x20_0000;

/// Virtual address where the kernel is mapped.
pub const KERNEL_VADDR: u64 = 0xffff_ffff_8220_0000;

/// `n` rounded up to a multiple of `b`.
pub open spec fn round_up(n: int, b: int) -> int {
    if n % b == 0 {
        n
    } else {
        n - n % b + b
    }
}

proof fn lemma_round_up(n: int, b: int)
    requires
        n >= 0,
        b > 0,
    ensures
        round_up(n, b) % b == 0,
        n <= round_up(n, b) < n + b,
{
    vstd::arithmetic::div_mod::lemma_fundamental_div_mod(n, b);
    let q = n / b;
    assert(n - n % b == q * b) by (nonlinear_arith)
        requires
            n == b * q + n % b,
    ;
    vstd::arithmetic::div_mod::lemma_mod_multiples_basic(q, b);
    assert((q + 1) * b == q * b + b) by (nonlinear_arith);
    vstd::arithmetic::div_mod::lemma_mod_multiples_basic(q + 1, b);
}

/// Rounds `n` up to a multiple of `b`.
pub fn next_multiple(n: u64, b: u64) -> (r: Option<u64>)
    requires
        b > 0,
    ensures
        match r {
            Some(v) => v == round_up(n as int, b as int),
            None => round_up(n as int, b as int) > u64::MAX,
        },
        r matches Some(v) ==> v % b == 0 && n <= v,
{
    proof {
        lemma_round_up(n as int, b as int);
    }
    let rem = n % b;
    assert(rem <= n) by (nonlinear_arith)
        requires
            rem == n % b,
            b > 0,
    ;
    if rem == 0 {
        Some(n)
    } else if n - rem > u64::MAX - b {
        None
    } else {
        Some(n - rem + b)
    }
}

/// A range of guest physical memory.
#[derive(Debug, Clone, Copy, PartialEq, Eq, Structural)]
pub struct Region {
    pub addr: u64,
    pub len: u64,
}

impl Region {
    pub open spec fn end(self) -> int {
        self.addr + self.len
    }

    /// The two ranges share no address.
    pub open spec fn disjoint(self, o: Region) -> bool {
        self.end() <= o.addr || o.end() <= self.addr
    }
}

/// Places regions one after another in guest physical memory, each a whole number of blocks.
pub struct RamBuilder {
    ram_size: u64,
    block_size: u64,
    next: u64,
}

impl RamBuilder {
    pub closed spec fn ram_size(&self) -> u64 {
        self.ram_size
    }

    pub closed spec fn block_size(&self) -> u64 {
        self.block_size
    }

    /// Address where the next region goes; everything below it is taken.
    pub closed spec fn next(&self) -> u64 {
        self.next
    }

    pub open spec fn wf(&self) -> bool {
        &&& self.block_size() > 0
        &&& self.next() % self.block_size() == 0
        &&& self.next() <= self.ram_size()
    }

    pub fn new(ram_size: u64, block_size: u64) -> (r: Self)
        requires
            block_size > 0,
        ensures
            r.wf(),
            r.ram_size() == ram_size,
            r.block_size() == block_size,
            r.next() == 0,
    {
        assert(0int % (block_size as int) == 0) by (nonlinear_arith)
            requires
                block_size > 0,
        ;
        RamBuilder { ram_size, block_size, next: 0 }
    }

    /// Takes `len` bytes rounded up to whole blocks, right after the regions taken before.
    fn take_blocks(&mut self, len: u64) -> (r: Option<Region>)
        requires
            old(self).wf(),
        ensures
            final(self).wf(),
            final(self).ram_size() == old(self).ram_size(),
            final(self).block_size() == old(self).block_size(),
            match r {
                Some(g) => {
                    &&& g.addr == old(self).next()
                    &&& g.len == round_up(len as int, old(self).block_size() as int)
                    &&& g.len % old(self).block_size() == 0
                    &&& len <= g.len
                    &&& final(self).next() == g.end()
                },
                None => {
                    &&& old(self).next() + round_up(len as int, old(self).block_size() as int)
                        > old(self).ram_size()
                    &&& final(self).next() == old(self).next()
                },
            },
    {
        let n = match next_multiple(len, self.block_size) {
            Some(v) => v,
            None => return None,
        };
        if n > self.ram_size - self.next {
            return None;
        }
        let g = Region { addr: self.next, len: n };
        proof {
            vstd::arithmetic::div_mod::lemma_fundamental_div_mod(self.next as int, self.block_size as int);
            vstd::arithmetic::div_mod::lemma_fundamental_div_mod(n as int, self.block_size as int);
            let b = self.block_size as int;
            let q1 = self.next as int / b;
            let q2 = n as int / b;
            assert(self.next + n == (q1 + q2) * b) by (nonlinear_arith)
                requires
                    self.next == b * q1,
                    n == b * q2,
            ;
            vstd::arithmetic::div_mod::lemma_mod_multiples_basic(q1 + q2, b);
        }
        self.next = self.next + n;
        Some(g)
    }

    /// Takes the region of the kernel.
    pub fn alloc_kernel(&mut self, len: u64) -> (r: Result<Region, VmmError>)
        requires
            old(self).wf(),
        ensures
            final(self).wf(),
            final(self).ram_size() == old(self).ram_size(),
            final(self).block_size() == old(self).block_size(),
            match r {
                Ok(g) => {
                    &&& g.addr == old(self).next()
                    &&& g.len == round_up(len as int, old(self).block_size() as int)
                    &&& final(self).next() == g.end()
                },
                Err(e) => {
                    &&& e == VmmError::AllocateRamForKernel
                    &&& old(self).next() + round_up(len as int, old(self).block_size() as int)
                        > old(self).ram_size()
                },
            },
    {
        match self.take_blocks(len) {
            Some(g) => Ok(g),
            None => Err(VmmError::AllocateRamForKernel),
        }
    }

    /// Takes the region of the stack.
    pub fn alloc_stack(&mut self, len: u64) -> (r: Result<Region, VmmError>)
        requires
            old(self).wf(),
        ensures
            final(self).wf(),
            final(self).ram_size() == old(self).ram_size(),
            final(self).block_size() == old(self).block_size(),
            match r {
                Ok(g) => {
                    &&& g.addr == old(self).next()
                    &&& g.len == round_up(len as int, old(self).block_size() as int)
                    &&& final(self).next() == g.end()
                },
                Err(e) => {
                    &&& e == VmmError::AllocateRamForStack
                    &&& old(self).next() + round_up(len as int, old(self).block_size() as int)
                        > old(self).ram_size()
                },
            },
    {
        match self.take_blocks(len) {
            Some(g) => Ok(g),
            None => Err(VmmError::AllocateRamForStack),
        }
    }

    /// Takes the region of the boot arguments and gives its content.
    pub fn alloc_args(&mut self, env: &BootEnv, conf: &Vec<u8>) -> (r: Result<
        (Region, Vec<u8>),
        VmmError,
    >)
        requires
            old(self).wf(),
            conf@.len() <= u64::MAX - ARGS_HEADER_SIZE,
        ensures
            final(self).wf(),
            final(self).ram_size() == old(self).ram_size(),
            final(self).block_size() == old(self).block_size(),
            match r {
                Ok((g, b)) => {
                    &&& b@ == args_bytes(*env, conf@)
                    &&& g.addr == old(self).next()
                    &&& g.len == round_up(b@.len() as int, old(self).block_size() as int)
                    &&& final(self).next() == g.end()
                },
                Err(e) => {
                    &&& e == VmmError::AllocateRamForArgs
                    &&& old(self).next() + round_up(
                        args_bytes(*env, conf@).len() as int,
                        old(self).block_size() as int,
                    ) > old(self).ram_size()
                },
            },
    {
        let b = encode_args(env, conf);
        match self.take_blocks(b.len() as u64) {
            Some(g) => Ok((g, b)),
            None => Err(VmmError::AllocateRamForArgs),
        }
    }
}

/// What the kernel learns of the machine at boot: the addresses of the VMM control device and
/// of the console device, and the host page size.
#[derive(Debug, Clone, Copy, PartialEq, Eq, Structural)]
pub struct BootEnv {
    pub vmm: u64,
    pub console: u64,
    pub host_page_size: u64,
}

/// Size of the fixed part of the boot arguments.
pub const ARGS_HEADER_SIZE: u64 = 32;

/// Little-endian bytes of `v`.
pub open spec fn le_bytes(v: u64) -> Seq<u8> {
    seq![
        (v & 0xff) as u8,
        ((v >> 8u64) & 0xff) as u8,
        ((v >> 16u64) & 0xff) as u8,
        ((v >> 24u64) & 0xff) as u8,
        ((v >> 32u64) & 0xff) as u8,
        ((v >> 40u64) & 0xff) as u8,
        ((v >> 48u64) & 0xff) as u8,
        ((v >> 56u64) & 0xff) as u8,
    ]
}

/// The boot arguments: the VMM device address, the console device address, the host page
/// size and the length of the kernel configuration, each 8 bytes little-endian, then the
/// kernel configuration.
pub open spec fn args_bytes(env: BootEnv, conf: Seq<u8>) -> Seq<u8> {
    le_bytes(env.vmm) + le_bytes(env.console) + le_bytes(env.host_page_size) + le_bytes(
        conf.len() as u64,
    ) + conf
}

fn push_u64(out: &mut Vec<u8>, v: u64)
    ensures
        final(out)@ == old(out)@ + le_bytes(v),
{
    out.push((v & 0xff) as u8);
    out.push(((v >> 8) & 0xff) as u8);
    out.push(((v >> 16) & 0xff) as u8);
    out.push(((v >> 24) & 0xff) as u8);
    out.push(((v >> 32) & 0xff) as u8);
    out.push(((v >> 40) & 0xff) as u8);
    out.push(((v >> 48) & 0xff) as u8);
    out.push(((v >> 56) & 0xff) as u8);
    assert(final(out)@ =~= old(out)@ + le_bytes(v));
}

/// Encodes the boot arguments.
pub fn encode_args(env: &BootEnv, conf: &Vec<u8>) -> (r: Vec<u8>)
    requires
        conf@.len() <= u64::MAX - ARGS_HEADER_SIZE,
    ensures
        r@ == args_bytes(*env, conf@),
        r@.len() == conf@.len() + ARGS_HEADER_SIZE,
{
    let mut out: Vec<u8> = Vec::new();
    push_u64(&mut out, env.vmm);
    push_u64(&mut out, env.console);
    push_u64(&mut out, env.host_page_size);
    push_u64(&mut out, conf.len() as u64);
    let ghost head = out@;
    let mut i: usize = 0;
    while i < conf.len()
        invariant
            i <= conf@.len(),
            out@ == head + conf@.take(i as int),
        decreases conf@.len() - i,
    {
        out.push(conf[i]);
        i = i + 1;
        assert(out@ =~= head + conf@.take(i as int));
    }
    assert(conf@.take(conf@.len() as int) =~= conf@);
    assert(out@ =~= args_bytes(*env, conf@));
    out
}

/// Byte `a` of kernel memory once the segments `segs` are copied from the image: the file
/// byte of the last segment whose file part holds `a`, else zero.
pub open spec fn kernel_byte(img: Seq<u8>, segs: Seq<ProgramHeader>, a: int) -> u8
    decreases segs.len(),
{
    if segs.len() == 0 {
        0
    } else {
        let s = segs.last();
        if s.p_vaddr <= a < s.p_vaddr + s.p_filesz {
            img[s.p_offset + (a - s.p_vaddr)]
        } else {
            kernel_byte(img, segs.drop_last(), a)
        }
    }
}

/// The file part of every segment lies inside the image.
pub open spec fn segments_in_image(img: Seq<u8>, segs: Seq<ProgramHeader>) -> bool {
    forall|i: int| 0 <= i < segs.len() ==> segs[i].p_offset + segs[i].p_filesz <= img.len()
}

/// Builds `len` bytes of kernel memory: each segment's file bytes at its virtual address,
/// zero elsewhere.
pub fn kernel_memory(img: &Vec<u8>, segs: &Vec<ProgramHeader>, len: usize) -> (r: Result<
    Vec<u8>,
    VmmError,
>)
    requires
        forall|i: int|
            0 <= i < segs@.len() ==> segs@[i].p_vaddr + segs@[i].p_filesz <= len,
    ensures
        match r {
            Ok(m) => {
                &&& segments_in_image(img@, segs@)
                &&& m@.len() == len
                &&& forall|a: int| 0 <= a < len ==> m@[a] == kernel_byte(img@, segs@, a)
            },
            Err(e) => e == VmmError::IncompleteKernel && !segments_in_image(img@, segs@),
        },
{
    let mut m: Vec<u8> = Vec::new();
    let mut k: usize = 0;
    while k < len
        invariant
            k <= len,
            m@.len() == k,
            forall|a: int| 0 <= a < k ==> m@[a] == 0,
        decreases len - k,
    {
        m.push(0);
        k = k + 1;
    }
    let mut i: usize = 0;
    while i < segs.len()
        invariant
            i <= segs@.len(),
            m@.len() == len,
            forall|i: int|
                0 <= i < segs@.len() ==> segs@[i].p_vaddr + segs@[i].p_filesz <= len,
            segments_in_image(img@, segs@.take(i as int)),
            forall|a: int| 0 <= a < len ==> m@[a] == kernel_byte(img@, segs@.take(i as int), a),
        decreases segs@.len() - i,
    {
        let s = segs[i];
        let n = img.len();
        if s.p_offset > n as u64 || s.p_filesz > n as u64 - s.p_offset {
            return Err(VmmError::IncompleteKernel);
        }
        assert(segs@.take(i + 1).drop_last() == segs@.take(i as int));
        assert(segs@.take(i + 1).last() == s);
        let off0 = s.p_offset as usize;
        let v0 = s.p_vaddr as usize;
        let fsz = s.p_filesz as usize;
        let mut j: usize = 0;
        while j < fsz
            invariant
                off0 == s.p_offset,
                v0 == s.p_vaddr,
                n == img@.len(),
                fsz == s.p_filesz,
                i < segs@.len(),
                s == segs@[i as int],
                s.p_vaddr + s.p_filesz <= len,
                s.p_offset + s.p_filesz <= img@.len(),
                j <= s.p_filesz,
                m@.len() == len,
                segs@.take(i + 1).drop_last() == segs@.take(i as int),
                segs@.take(i + 1).last() == s,
                forall|a: int|
                    0 <= a < len ==> m@[a] == if s.p_vaddr <= a < s.p_vaddr + j {
                        kernel_byte(img@, segs@.take(i + 1), a)
                    } else {
                        kernel_byte(img@, segs@.take(i as int), a)
                    },
            decreases s.p_filesz - j,
        {
            let b = img[off0 + j];
            m.set(v0 + j, b);
            j = j + 1;
        }
        assert(segments_in_image(img@, segs@.take(i + 1))) by {
            let t1 = segs@.take(i + 1);
            assert forall|t: int| 0 <= t < i + 1 implies #[trigger] t1[t].p_offset + t1[t].p_filesz
                <= img@.len() by {
                if t < i {
                    assert(t1[t] == segs@.take(i as int)[t]);
                }
            }
        }
        i = i + 1;
    }
    assert(segs@.take(segs@.len() as int) == segs@);
    Ok(m)
}

/// Where the kernel, its stack and its boot arguments sit in guest memory.
#[derive(Debug, Clone, Copy, PartialEq, Eq, Structural)]
pub struct RamMap {
    pub kern: Region,
    pub kern_vaddr: u64,
    pub stack: Region,
    pub args: Region,
    pub vm_page_size: u64,
    pub host_page_size: u64,
    pub block_size: u64,
    /// Virtual address of the kernel's entry point.
    pub entry: u64,
}

/// Guest memory ready to be written: its map, the kernel's memory and the boot arguments.
pub struct GuestRam {
    pub map: RamMap,
    pub kernel: Vec<u8>,
    pub args: Vec<u8>,
}

/// Size of the blocks that guest memory is handed out in.
pub open spec fn block_of(vm_page_size: u64, host_page_size: u64) -> u64 {
    if vm_page_size >= host_page_size {
        vm_page_size
    } else {
        host_page_size
    }
}

/// Why guest memory cannot be laid out for image `img`, loaded as `k`, if anything.
pub open spec fn ram_fault(
    img: Seq<u8>,
    k: KernelModel,
    host_page_size: u64,
    ram_size: u64,
    conf_len: nat,
) -> Option<VmmError> {
    let b = block_of(k.page_size, host_page_size) as int;
    let kl = round_up(k.len as int, b);
    let sl = round_up(STACK_SIZE as int, b);
    let al = round_up(conf_len + ARGS_HEADER_SIZE, b);
    if kl > usize::MAX {
        Some(VmmError::TotalSizeTooLarge)
    } else if kl > ram_size {
        Some(VmmError::AllocateRamForKernel)
    } else if !segments_in_image(img, k.segments) {
        Some(VmmError::IncompleteKernel)
    } else if kl + sl > ram_size {
        Some(VmmError::AllocateRamForStack)
    } else if kl + sl + al > ram_size {
        Some(VmmError::AllocateRamForArgs)
    } else if KERNEL_VADDR + k.entry > u64::MAX {
        Some(VmmError::InvalidEntry)
    } else {
        None
    }
}

/// Lays out guest memory for a loaded kernel: the kernel's memory from address zero, rounded
/// up to whole blocks of `max(guest page size, host page size)`, then the stack, then the boot
/// arguments.
pub fn build_ram(
    img: &Vec<u8>,
    k: &KernelImage,
    host_page_size: u64,
    ram_size: u64,
    env: &BootEnv,
    conf: &Vec<u8>,
) -> (r: Result<GuestRam, VmmError>)
    requires
        spec_load(img@) == Ok::<KernelModel, VmmError>(k@),
        host_page_size > 0,
        conf@.len() <= u64::MAX - ARGS_HEADER_SIZE,
    ensures
        match r {
            Ok(g) => {
                let b = block_of(k.page_size, host_page_size);
                &&& ram_fault(img@, k@, host_page_size, ram_size, conf@.len()) is None
                &&& g.map.block_size == b
                &&& g.map.vm_page_size == k.page_size
                &&& g.map.host_page_size == host_page_size
                &&& g.map.kern == Region { addr: 0, len: round_up(k.len as int, b as int) as u64 }
                &&& g.map.kern.len % b == 0
                &&& k.len <= g.map.kern.len
                &&& g.map.stack == Region {
                    addr: g.map.kern.len,
                    len: round_up(STACK_SIZE as int, b as int) as u64,
                }
                &&& g.map.args.addr == g.map.stack.end()
                &&& g.map.args.len == round_up(g.args@.len() as int, b as int)
                &&& g.map.args.end() <= ram_size
                &&& g.map.kern.disjoint(g.map.stack)
                &&& g.map.kern.disjoint(g.map.args)
                &&& g.map.stack.disjoint(g.map.args)
                &&& g.map.kern_vaddr == KERNEL_VADDR
                &&& g.map.entry == KERNEL_VADDR + k.entry
                &&& g.kernel@.len() == g.map.kern.len
                &&& forall|a: int|
                    0 <= a < g.kernel@.len() ==> g.kernel@[a] == kernel_byte(img@, k.segments@, a)
                &&& g.args@ == args_bytes(*env, conf@)
            },
            Err(e) => ram_fault(img@, k@, host_page_size, ram_size, conf@.len()) == Some(e),
        },
{
    proof {
        crate::loader::lemma_accepted_image(img@);
    }
    let block = if k.page_size >= host_page_size {
        k.page_size
    } else {
        host_page_size
    };
    let len = match next_multiple(k.len, block) {
        Some(v) => v,
        None => return Err(VmmError::TotalSizeTooLarge),
    };
    if len > usize::MAX as u64 {
        return Err(VmmError::TotalSizeTooLarge);
    }
    let mut rb = RamBuilder::new(ram_size, block);
    proof {
        lemma_round_up(len as int, block as int);
        lemma_round_up(STACK_SIZE as int, block as int);
        lemma_round_up(conf@.len() + ARGS_HEADER_SIZE, block as int);
    }
    let kern = rb.alloc_kernel(len)?;
    let kernel = kernel_memory(img, &k.segments, len as usize)?;
    let stack = rb.alloc_stack(STACK_SIZE)?;
    let (args, bytes) = rb.alloc_args(env, conf)?;
    if k.entry > u64::MAX - KERNEL_VADDR {
        return Err(VmmError::InvalidEntry);
    }
    let map = RamMap {
        kern,
        kern_vaddr: KERNEL_VADDR,
        stack,
        args,
        vm_page_size: k.page_size,
        host_page_size,
        block_size: block,
        entry: KERNEL_VADDR + k.entry,
    };
    Ok(GuestRam { map, kernel, args: bytes })
}

} // verus!
