use vstd::prelude::*;

use crate::debug::DebugRes;
use crate::dispatch::CpuError;
use gdbstub_arch::x86::reg::{X86SegmentRegs, X86_64CoreRegs, X87FpuInternalRegs};

verus! {

/// gdbstub_arch's x86-64 register set, the form in which GDB receives registers.
#[verifier::external_type_specification]
pub struct ExX86_64CoreRegs(X86_64CoreRegs);

/// gdbstub_arch's segment registers (CS, SS, DS, ES, FS, GS).
#[verifier::external_type_specification]
pub struct ExX86SegmentRegs(X86SegmentRegs);

/// gdbstub_arch's x87 FPU internal registers.
#[verifier::external_type_specification]
pub struct ExX87FpuInternalRegs(X87FpuInternalRegs);

/// Registers of a stopped vCPU, read one at a time. Each hypervisor backend implements it; a
/// read fails with a message.
pub trait CpuStates {
    /// General-purpose register `i` in GDB order: rax, rbx, rcx, rdx, rsi, rdi, rbp, rsp, then
    /// r8 to r15.
    fn get_greg(&mut self, i: usize) -> Result<u64, String>;

    fn get_rip(&mut self) -> Result<u64, String>;

    /// RFLAGS; its upper half is reserved and reads as zero.
    fn get_rflags(&mut self) -> Result<u64, String>;

    /// Segment register `i`: cs, ss, ds, es, fs, gs.
    fn get_segment(&mut self, i: usize) -> Result<u32, String>;

    /// x87 register `i`, 80 bits.
    fn get_st(&mut self, i: usize) -> Result<[u8; 10], String>;

    /// x87 internal register `i`: fcw, fsw, ftwx, fiseg, fioff, foseg, fooff, fop.
    fn get_fpu(&mut self, i: usize) -> Result<u32, String>;

    fn get_xmm(&mut self, i: usize) -> Result<u128, String>;

    fn get_mxcsr(&mut self) -> Result<u32, String>;
}

/// Number of registers that GDB reads.
pub const NUM_REGS: usize = 57;

/// Names of the registers in the order GDB reads them: rax to r15, rip, rflags, cs to gs,
/// st0 to st7, the x87 internal registers, xmm0 to xmm15, mxcsr.
pub open spec fn reg_names() -> Seq<&'static str> {
    seq![
        "rax", "rbx", "rcx", "rdx", "rsi", "rdi", "rbp", "rsp", "r8", "r9", "r10", "r11", "r12",
        "r13", "r14", "r15", "rip", "rflags", "cs", "ss", "ds", "es", "fs", "gs", "st0", "st1",
        "st2", "st3", "st4", "st5", "st6", "st7", "fcw", "fsw", "ftwx", "fiseg", "fioff", "foseg",
        "fooff", "fop", "xmm0", "xmm1", "xmm2", "xmm3", "xmm4", "xmm5", "xmm6", "xmm7", "xmm8",
        "xmm9", "xmm10", "xmm11", "xmm12", "xmm13", "xmm14", "xmm15", "mxcsr",
    ]
}

/// Where each register, or the first of a group, stands in GDB order.
pub const RIP: usize = 16;

pub const RFLAGS: usize = 17;

pub const SEGMENTS: usize = 18;

pub const ST: usize = 24;

pub const FPU: usize = 32;

pub const XMM: usize = 40;

pub const MXCSR: usize = 56;

fn reg_name(k: usize) -> (r: &'static str)
    requires
        k < NUM_REGS,
    ensures
        r == reg_names()[k as int],
{
    let names: [&'static str; 57] = [
        "rax", "rbx", "rcx", "rdx", "rsi", "rdi", "rbp", "rsp", "r8", "r9", "r10", "r11", "r12",
        "r13", "r14", "r15", "rip", "rflags", "cs", "ss", "ds", "es", "fs", "gs", "st0", "st1",
        "st2", "st3", "st4", "st5", "st6", "st7", "fcw", "fsw", "ftwx", "fiseg", "fioff", "foseg",
        "fooff", "fop", "xmm0", "xmm1", "xmm2", "xmm3", "xmm4", "xmm5", "xmm6", "xmm7", "xmm8",
        "xmm9", "xmm10", "xmm11", "xmm12", "xmm13", "xmm14", "xmm15", "mxcsr",
    ];
    assert(names@ =~= reg_names());
    names[k]
}

/// The error for a failed read of register `k` (in GDB order) with message `msg`.
pub fn read_error(k: usize, msg: String) -> (e: CpuError)
    requires
        k < NUM_REGS,
    ensures
        e matches CpuError::ReadReg(n, m) && n@ == reg_names()[k as int]@ && m == msg,
{
    CpuError::ReadReg(reg_name(k).to_owned(), msg)
}

/// Register values as read from a vCPU.
pub struct RegFile {
    pub gregs: [u64; 16],
    pub rip: u64,
    pub rflags: u64,
    pub seg: [u32; 6],
    pub st: [[u8; 10]; 8],
    pub fpu: [u32; 8],
    pub xmm: [u128; 16],
    pub mxcsr: u32,
}

/// The register set that GDB receives for values `f`: EFLAGS is the lower half of RFLAGS.
pub open spec fn spec_core_regs(f: RegFile) -> X86_64CoreRegs {
    X86_64CoreRegs {
        regs: f.gregs,
        eflags: (f.rflags & 0xffff_ffff) as u32,
        rip: f.rip,
        segments: X86SegmentRegs {
            cs: f.seg[0],
            ss: f.seg[1],
            ds: f.seg[2],
            es: f.seg[3],
            fs: f.seg[4],
            gs: f.seg[5],
        },
        st: f.st,
        fpu: X87FpuInternalRegs {
            fctrl: f.fpu[0],
            fstat: f.fpu[1],
            ftag: f.fpu[2],
            fiseg: f.fpu[3],
            fioff: f.fpu[4],
            foseg: f.fpu[5],
            fooff: f.fpu[6],
            fop: f.fpu[7],
        },
        xmm: f.xmm,
        mxcsr: f.mxcsr,
    }
}

/// Puts register values in the form GDB receives.
pub fn core_regs(f: RegFile) -> (r: X86_64CoreRegs)
    ensures
        r == spec_core_regs(f),
        r.regs == f.gregs,
        r.rip == f.rip,
        r.eflags == (f.rflags & 0xffff_ffff) as u32,
        r.segments.cs == f.seg[0] && r.segments.ss == f.seg[1] && r.segments.ds == f.seg[2],
        r.segments.es == f.seg[3] && r.segments.fs == f.seg[4] && r.segments.gs == f.seg[5],
        r.st == f.st,
        r.fpu.fctrl == f.fpu[0] && r.fpu.fstat == f.fpu[1] && r.fpu.ftag == f.fpu[2],
        r.fpu.fiseg == f.fpu[3] && r.fpu.fioff == f.fpu[4] && r.fpu.foseg == f.fpu[5],
        r.fpu.fooff == f.fpu[6] && r.fpu.fop == f.fpu[7],
        r.xmm == f.xmm,
        r.mxcsr == f.mxcsr,
{
    X86_64CoreRegs {
        regs: f.gregs,
        eflags: (f.rflags & 0xffff_ffff) as u32,
        rip: f.rip,
        segments: X86SegmentRegs {
            cs: f.seg[0],
            ss: f.seg[1],
            ds: f.seg[2],
            es: f.seg[3],
            fs: f.seg[4],
            gs: f.seg[5],
        },
        st: f.st,
        fpu: X87FpuInternalRegs {
            fctrl: f.fpu[0],
            fstat: f.fpu[1],
            ftag: f.fpu[2],
            fiseg: f.fpu[3],
            fioff: f.fpu[4],
            foseg: f.fpu[5],
            fooff: f.fpu[6],
            fop: f.fpu[7],
        },
        xmm: f.xmm,
        mxcsr: f.mxcsr,
    }
}

/// Reads every register that GDB asks for, in GDB order, and gives them as [`core_regs`]
/// puts them; the first read that fails ends it with [`read_error`] for that register. The
/// backend decides what each read gives, so the contract says what holds of any outcome.
pub fn get_debug_regs<S: CpuStates>(s: &mut S) -> (r: Result<X86_64CoreRegs, CpuError>)
    ensures
        match r {
            Ok(v) => exists|f: RegFile| v == spec_core_regs(f),
            Err(e) => e matches CpuError::ReadReg(n, _) && exists|k: int|
                0 <= k < NUM_REGS && n@ == (#[trigger] reg_names()[k])@,
        },
{
    let mut gregs = [0u64; 16];
    let mut i: usize = 0;
    while i < 16
        invariant
            i <= 16,
        decreases 16 - i,
    {
        match s.get_greg(i) {
            Ok(v) => gregs.set(i, v),
            Err(m) => return Err(read_error(i, m)),
        }
        i = i + 1;
    }
    let rip = match s.get_rip() {
        Ok(v) => v,
        Err(m) => return Err(read_error(RIP, m)),
    };
    let rflags = match s.get_rflags() {
        Ok(v) => v,
        Err(m) => return Err(read_error(RFLAGS, m)),
    };
    let mut seg = [0u32; 6];
    let mut i: usize = 0;
    while i < 6
        invariant
            i <= 6,
        decreases 6 - i,
    {
        match s.get_segment(i) {
            Ok(v) => seg.set(i, v),
            Err(m) => return Err(read_error(SEGMENTS + i, m)),
        }
        i = i + 1;
    }
    let mut st = [[0u8; 10]; 8];
    let mut i: usize = 0;
    while i < 8
        invariant
            i <= 8,
        decreases 8 - i,
    {
        match s.get_st(i) {
            Ok(v) => st.set(i, v),
            Err(m) => return Err(read_error(ST + i, m)),
        }
        i = i + 1;
    }
    let mut fpu = [0u32; 8];
    let mut i: usize = 0;
    while i < 8
        invariant
            i <= 8,
        decreases 8 - i,
    {
        match s.get_fpu(i) {
            Ok(v) => fpu.set(i, v),
            Err(m) => return Err(read_error(FPU + i, m)),
        }
        i = i + 1;
    }
    let mut xmm = [0u128; 16];
    let mut i: usize = 0;
    while i < 16
        invariant
            i <= 16,
        decreases 16 - i,
    {
        match s.get_xmm(i) {
            Ok(v) => xmm.set(i, v),
            Err(m) => return Err(read_error(XMM + i, m)),
        }
        i = i + 1;
    }
    let mxcsr = match s.get_mxcsr() {
        Ok(v) => v,
        Err(m) => return Err(read_error(MXCSR, m)),
    };
    let f = RegFile { gregs, rip, rflags, seg, st, fpu, xmm, mxcsr };
    let ghost g = f;
    let r = core_regs(f);
    assert(r == spec_core_regs(g));
    Ok(r)
}

/// The answer to a register request: the registers read from the vCPU's states, or
/// `GetStates` when the backend could not give the states.
pub fn regs_reply<S: CpuStates>(states: Result<S, String>) -> (r: Result<DebugRes, CpuError>)
    ensures
        match states {
            Err(m) => r == Err::<DebugRes, CpuError>(CpuError::GetStates(m)),
            Ok(_) => match r {
                Ok(DebugRes::Regs(v)) => exists|f: RegFile| v == spec_core_regs(f),
                Ok(_) => false,
                Err(e) => e matches CpuError::ReadReg(n, _) && exists|k: int|
                    0 <= k < NUM_REGS && n@ == (#[trigger] reg_names()[k])@,
            },
        },
{
    match states {
        Err(m) => Err(CpuError::GetStates(m)),
        Ok(mut s) => match get_debug_regs(&mut s) {
            Ok(v) => Ok(DebugRes::Regs(v)),
            Err(e) => Err(e),
        },
    }
}

/// The answer to a translation request: the physical address, or `TranslateAddr` naming the
/// address when the backend could not translate it.
pub fn translate_reply(addr: usize, r: Result<usize, String>) -> (o: Result<DebugRes, CpuError>)
    ensures
        match r {
            Ok(v) => o matches Ok(DebugRes::TranslatedAddress(x)) && x == v,
            Err(m) => o == Err::<DebugRes, CpuError>(CpuError::TranslateAddr(addr as u64, m)),
        },
{
    match r {
        Ok(v) => Ok(DebugRes::TranslatedAddress(v)),
        Err(m) => Err(CpuError::TranslateAddr(addr as u64, m)),
    }
}

} // verus!
