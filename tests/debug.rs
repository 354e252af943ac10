use gdbstub_arch::x86::reg::X86_64CoreRegs;
use std::sync::atomic::{AtomicBool, Ordering};
use std::sync::Arc;
use vmm_core::cpu::CpuManager;
use vmm_core::dispatch::CpuError;
use vmm_core::regs::{core_regs, get_debug_regs, read_error, regs_reply, translate_reply, CpuStates, RegFile, FPU, MXCSR, RFLAGS, XMM};
use vmm_core::debug::{channel, regs_of, serve_result, serve_step, translated_of, DebugReq, DebugRes, Debugger, ServeStep};

fn regs() -> X86_64CoreRegs {
    let mut r = X86_64CoreRegs::default();
    r.rip = 0x1234;
    r.regs[0] = 7;
    r
}

/// Serves the requests already queued the way a vCPU thread in the breakpoint protocol does,
/// and gives how the protocol ended, if it did.
fn serve_queued(d: &Debugger, n: usize) -> Option<ServeStep> {
    for _ in 0..n {
        let step = serve_step(d.recv());
        match step {
            ServeStep::Detach | ServeStep::Leave => return Some(step),
            _ => {}
        }
    }
    None
}

#[test]
fn get_regs_round_trip() {
    let (mut debuggee, debugger) = channel();
    assert!(!debuggee.is_locked());
    // The answer is queued first so that one thread can play both sides.
    debugger.send(DebugRes::Regs(regs()));
    let r = debuggee.get_regs().unwrap();
    assert_eq!(r.rip, 0x1234);
    assert_eq!(r.regs[0], 7);
    assert!(debuggee.is_locked());
    assert_eq!(debugger.recv(), Some(DebugReq::GetRegs));
    debugger.send(DebugRes::TranslatedAddress(0x1020));
    assert_eq!(debuggee.translate_address(0x20), Some(0x1020));
    assert_eq!(debugger.recv(), Some(DebugReq::TranslateAddress(0x20)));
    debuggee.release();
    assert!(!debuggee.is_locked());
    assert_eq!(serve_queued(&debugger, 1), Some(ServeStep::Leave));
}

#[test]
fn dropping_debuggee_releases_serving_thread() {
    let (mut debuggee, debugger) = channel();
    debuggee.lock();
    assert!(debuggee.is_locked());
    drop(debuggee);
    assert_eq!(serve_queued(&debugger, 2), Some(ServeStep::Detach));
}

#[test]
fn requests_to_a_gone_thread_give_nothing() {
    let (mut debuggee, debugger) = channel();
    drop(debugger);
    assert!(debuggee.get_regs().is_none());
    assert!(debuggee.translate_address(1).is_none());
    debuggee.release();
}

#[test]
fn serve_steps() {
    assert_eq!(serve_step(None), ServeStep::Detach);
    assert_eq!(serve_step(Some(DebugReq::GetRegs)), ServeStep::ReadRegs);
    assert_eq!(serve_step(Some(DebugReq::TranslateAddress(5))), ServeStep::Translate(5));
    assert_eq!(serve_step(Some(DebugReq::Lock)), ServeStep::Stay);
    assert_eq!(serve_step(Some(DebugReq::Release)), ServeStep::Leave);
    assert_eq!(serve_result(ServeStep::Detach), Some(Some(true)));
    assert_eq!(serve_result(ServeStep::Leave), Some(None));
    assert_eq!(serve_result(ServeStep::Stay), None);
}

#[test]
fn mismatched_responses_give_nothing() {
    assert!(regs_of(Some(DebugRes::TranslatedAddress(1))).is_none());
    assert!(regs_of(None).is_none());
    assert_eq!(translated_of(Some(DebugRes::TranslatedAddress(9))), Some(9));
    assert!(translated_of(Some(DebugRes::Regs(X86_64CoreRegs::default()))).is_none());
}

#[test]
fn manager_ids_and_broadcast() {
    let shutdown = Arc::new(AtomicBool::new(false));
    let mut m: CpuManager<&str> = CpuManager::new(shutdown.clone());
    let (a, da) = channel();
    let (b, db) = channel();
    assert_eq!(m.add("cpu0", Some(a)), 0);
    assert_eq!(m.add("cpu1", Some(b)), 1);
    assert_eq!(m.add("cpu2", None), 2);
    assert_eq!(m.list(), vec![0, 1, 2]);
    db.send(DebugRes::Regs(regs()));
    assert_eq!(m.get_regs(1).unwrap().rip, 0x1234);
    assert_eq!(db.recv(), Some(DebugReq::GetRegs));
    assert!(m.get_regs(7).is_none());
    assert!(m.get_regs(2).is_none());
    da.send(DebugRes::TranslatedAddress(0x1010));
    assert_eq!(m.translate_address(0, 0x10), Some(0x1010));
    assert_eq!(da.recv(), Some(DebugReq::TranslateAddress(0x10)));
    m.debug_lock();
    assert_eq!(da.recv(), Some(DebugReq::Lock));
    assert_eq!(db.recv(), Some(DebugReq::Lock));
    m.release();
    assert_eq!(da.recv(), Some(DebugReq::Release));
    assert_eq!(db.recv(), Some(DebugReq::Release));
    let (t, d) = m.remove(0).unwrap();
    assert_eq!(t, "cpu0");
    assert!(d.is_some());
    assert_eq!(m.list(), vec![1, 2]);
    assert!(m.remove(0).is_none());
    assert_eq!(m.add("cpu3", None), 3);
    assert_eq!(m.list(), vec![1, 2, 3]);
}

#[test]
fn teardown_frees_vcpus_waiting_for_the_debugger() {
    let shutdown = Arc::new(AtomicBool::new(false));
    let mut m: CpuManager<usize> = CpuManager::new(shutdown.clone());
    let mut ends = Vec::new();
    for i in 0..3 {
        let (a, da) = channel();
        m.add(i * 10, Some(a));
        ends.push(da);
    }
    m.debug_lock();
    let threads = m.teardown();
    assert!(shutdown.load(Ordering::Relaxed));
    assert_eq!(threads, vec![0, 10, 20]);
    assert_eq!(m.len(), 0);
    // Each vCPU side sees the lock request, then the closed channel.
    for d in &ends {
        assert_eq!(serve_queued(d, 2), Some(ServeStep::Detach));
    }
}

/// Registers whose values follow their index; one register may fail.
struct FakeStates {
    fail: Option<&'static str>,
    reads: usize,
}

impl FakeStates {
    fn read<T>(&mut self, name: &str, v: T) -> Result<T, String> {
        self.reads += 1;
        if self.fail == Some(name) {
            Err(format!("no {name}"))
        } else {
            Ok(v)
        }
    }
}

impl CpuStates for FakeStates {
    fn get_greg(&mut self, i: usize) -> Result<u64, String> {
        let names = ["rax", "rbx", "rcx", "rdx", "rsi", "rdi", "rbp", "rsp", "r8", "r9", "r10", "r11", "r12", "r13", "r14", "r15"];
        self.read(names[i], 100 + i as u64)
    }

    fn get_rip(&mut self) -> Result<u64, String> {
        self.read("rip", 0xffff_ffff_8220_0000)
    }

    fn get_rflags(&mut self) -> Result<u64, String> {
        self.read("rflags", 0x202)
    }

    fn get_segment(&mut self, i: usize) -> Result<u32, String> {
        self.read(["cs", "ss", "ds", "es", "fs", "gs"][i], 8 * i as u32)
    }

    fn get_st(&mut self, i: usize) -> Result<[u8; 10], String> {
        self.read("st", [i as u8; 10])
    }

    fn get_fpu(&mut self, i: usize) -> Result<u32, String> {
        self.read(["fcw", "fsw", "ftwx", "fiseg", "fioff", "foseg", "fooff", "fop"][i], 0x37f + i as u32)
    }

    fn get_xmm(&mut self, i: usize) -> Result<u128, String> {
        self.read("xmm", (i as u128) << 64)
    }

    fn get_mxcsr(&mut self) -> Result<u32, String> {
        self.read("mxcsr", 0x1f80)
    }
}

#[test]
fn debug_regs_read_in_gdb_order() {
    let mut s = FakeStates { fail: None, reads: 0 };
    let r = get_debug_regs(&mut s).unwrap();
    assert_eq!(s.reads, 16 + 2 + 6 + 8 + 8 + 16 + 1);
    assert_eq!(r.regs[0], 100);
    assert_eq!(r.regs[15], 115);
    assert_eq!(r.rip, 0xffff_ffff_8220_0000);
    assert_eq!(r.eflags, 0x202);
    assert_eq!(r.segments.cs, 0);
    assert_eq!(r.segments.gs, 40);
    assert_eq!(r.st[7], [7; 10]);
    assert_eq!(r.fpu.fctrl, 0x37f);
    assert_eq!(r.fpu.fop, 0x37f + 7);
    assert_eq!(r.xmm[3], 3u128 << 64);
    assert_eq!(r.mxcsr, 0x1f80);
}

#[test]
fn debug_regs_failure_names_the_register() {
    let mut s = FakeStates { fail: Some("rbp"), reads: 0 };
    assert_eq!(
        get_debug_regs(&mut s).err(),
        Some(CpuError::ReadReg("rbp".to_string(), "no rbp".to_string()))
    );
    assert_eq!(s.reads, 7);
    let mut s = FakeStates { fail: Some("ftwx"), reads: 0 };
    assert_eq!(
        get_debug_regs(&mut s).err(),
        Some(CpuError::ReadReg("ftwx".to_string(), "no ftwx".to_string()))
    );
    let mut s = FakeStates { fail: Some("mxcsr"), reads: 0 };
    assert_eq!(
        get_debug_regs(&mut s).err(),
        Some(CpuError::ReadReg("mxcsr".to_string(), "no mxcsr".to_string()))
    );
}

#[test]
fn core_regs_places_each_value() {
    let f = RegFile {
        gregs: [9; 16],
        rip: 0x10,
        rflags: 0xdead_0000_0246,
        seg: [1, 2, 3, 4, 5, 6],
        st: [[3; 10]; 8],
        fpu: [10, 11, 12, 13, 14, 15, 16, 17],
        xmm: [5; 16],
        mxcsr: 0x1f80,
    };
    let r = core_regs(f);
    assert_eq!(r.regs, [9; 16]);
    assert_eq!(r.rip, 0x10);
    assert_eq!(r.eflags, 0x246);
    assert_eq!((r.segments.cs, r.segments.ss, r.segments.gs), (1, 2, 6));
    assert_eq!(r.st, [[3; 10]; 8]);
    assert_eq!((r.fpu.fctrl, r.fpu.ftag, r.fpu.fop), (10, 12, 17));
    assert_eq!(r.xmm, [5; 16]);
    assert_eq!(r.mxcsr, 0x1f80);
}

#[test]
fn read_errors_name_registers_in_gdb_order() {
    let name = |k: usize| match read_error(k, "m".to_string()) {
        CpuError::ReadReg(n, m) => {
            assert_eq!(m, "m");
            n
        }
        _ => unreachable!(),
    };
    assert_eq!(name(0), "rax");
    assert_eq!(name(15), "r15");
    assert_eq!(name(RFLAGS), "rflags");
    assert_eq!(name(FPU + 2), "ftwx");
    assert_eq!(name(XMM + 15), "xmm15");
    assert_eq!(name(MXCSR), "mxcsr");
}

#[test]
fn replies_to_debugger_requests() {
    match translate_reply(0x20, Ok(0x1020)) {
        Ok(DebugRes::TranslatedAddress(v)) => assert_eq!(v, 0x1020),
        _ => unreachable!(),
    }
    assert_eq!(
        translate_reply(0x20, Err("fault".to_string())).err(),
        Some(CpuError::TranslateAddr(0x20, "fault".to_string()))
    );
    assert_eq!(
        regs_reply::<FakeStates>(Err("busy".to_string())).err(),
        Some(CpuError::GetStates("busy".to_string()))
    );
    match regs_reply(Ok(FakeStates { fail: None, reads: 0 })) {
        Ok(DebugRes::Regs(r)) => assert_eq!(r.mxcsr, 0x1f80),
        _ => unreachable!(),
    }
    assert_eq!(
        regs_reply(Ok(FakeStates { fail: Some("gs"), reads: 0 })).err(),
        Some(CpuError::ReadReg("gs".to_string(), "no gs".to_string()))
    );
}

#[test]
fn manager_refuses_no_id() {
    let mut m: CpuManager<u8> = CpuManager::new(Arc::new(AtomicBool::new(false)));
    assert!(m.can_add());
    m.add(1, None);
    assert!(m.can_add());
}
