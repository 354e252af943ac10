use vmm_core::dispatch::{Action, CpuError, DebugEvent, Dispatcher, Event, ExitKind, HookOutcome};
use vmm_core::hw::{DeviceMap, DeviceTree};

fn three_devices() -> DeviceMap<u32> {
    let mut m = DeviceMap::new();
    m.insert(0x3000, 0x1000, "vmm".to_string(), 2);
    m.insert(0x1000, 0x1000, "console".to_string(), 1);
    m.insert(0x5000, 0x800, "debugger".to_string(), 3);
    m
}

#[test]
fn device_map_keeps_address_order() {
    let mut m = three_devices();
    assert_eq!(m.len(), 3);
    assert_eq!(m.get(0).addr(), 0x1000);
    assert_eq!(m.get(0).end(), 0x2000);
    assert_eq!(m.get(0).name(), "console");
    assert_eq!(m.get(1).name(), "vmm");
    assert_eq!(m.get(2).end(), 0x5800);
    *m.context_mut(1) = 20;
    assert_eq!(m.get(1).context, 20);
}

#[test]
fn overlapping_devices_are_rejected() {
    let mut m = three_devices();
    assert!(!m.can_insert(0x1800, 0x100));
    assert!(!m.can_insert(0x0800, 0x1000));
    assert!(!m.can_insert(0x2fff, 0x2));
    assert!(!m.can_insert(0x1000, 0x1000));
    assert!(!m.can_insert(u64::MAX - 1, 0x10));
    assert!(m.can_insert(0x0, 0x1000));
    // Touching ranges do not overlap.
    assert!(m.can_insert(0x2000, 0x1000));
    m.insert(0x2000, 0x1000, "f".to_string(), 9);
    assert_eq!(m.get(1).name(), "f");
    assert_eq!(m.len(), 4);
    assert!(!m.can_insert(0x2000, 0x1));
}

#[test]
fn mmio_lookup_finds_the_holding_device() {
    let m = three_devices();
    assert_eq!(m.find(0x1000), Some(0));
    assert_eq!(m.find(0x1fff), Some(0));
    assert_eq!(m.find(0x3abc), Some(1));
    assert_eq!(m.find(0x57ff), Some(2));
    assert_eq!(m.find(0x0fff), None);
    assert_eq!(m.find(0x2000), None);
    assert_eq!(m.find(0x5800), None);
    assert_eq!(m.find(0), None);
    assert_eq!(m.find(u64::MAX), None);
}

#[test]
fn device_tree_places_devices_above_ram() {
    let t = DeviceTree::new(0x10000, 0x1000, true);
    assert_eq!(t.console.addr, 0x10000);
    assert_eq!(t.vmm.addr, 0x11000);
    assert_eq!(t.debugger.unwrap().addr, 0x12000);
    assert_eq!(t.vmm.len, 0x1000);
    assert!(DeviceTree::new(0x10000, 0x1000, false).debugger.is_none());
}

#[test]
fn io_exit_goes_to_device_then_post_hooks() {
    let m = three_devices();
    let (mut d, a) = Dispatcher::new(m.len(), false);
    assert_eq!(a, Action::CheckShutdown);
    assert!(d.accepts(&Event::Shutdown(false)));
    assert!(!d.accepts(&Event::Ran(ExitKind::Halt)));
    assert_eq!(d.step(&m, Event::Shutdown(false)), Action::Run);
    assert_eq!(d.step(&m, Event::Ran(ExitKind::Io(0x3010))), Action::Exited(0));
    assert_eq!(d.step(&m, Event::Hook(HookOutcome::Continue)), Action::Exited(1));
    assert_eq!(d.step(&m, Event::Hook(HookOutcome::Continue)), Action::Exited(2));
    assert_eq!(d.step(&m, Event::Hook(HookOutcome::Continue)), Action::Mmio(1));
    assert_eq!(d.step(&m, Event::Mmio(HookOutcome::Continue)), Action::Post(0));
    assert_eq!(d.step(&m, Event::Hook(HookOutcome::Continue)), Action::Post(1));
    assert_eq!(d.step(&m, Event::Hook(HookOutcome::Continue)), Action::Post(2));
    assert_eq!(d.step(&m, Event::Hook(HookOutcome::Continue)), Action::CheckShutdown);
    assert_eq!(d.step(&m, Event::Shutdown(true)), Action::Finish(Ok(true)));
}

#[test]
fn unmapped_mmio_is_an_error() {
    let m = three_devices();
    let (mut d, _) = Dispatcher::new(m.len(), false);
    d.step(&m, Event::Shutdown(false));
    d.step(&m, Event::Ran(ExitKind::Io(0x2000)));
    d.step(&m, Event::Hook(HookOutcome::Continue));
    d.step(&m, Event::Hook(HookOutcome::Continue));
    assert_eq!(
        d.step(&m, Event::Hook(HookOutcome::Continue)),
        Action::Finish(Err(CpuError::MmioAddr(0x2000)))
    );
}

#[test]
fn failures_name_the_device() {
    let m = three_devices();
    let (mut d, _) = Dispatcher::new(m.len(), false);
    d.step(&m, Event::Shutdown(false));
    d.step(&m, Event::Ran(ExitKind::Io(0x1004)));
    d.step(&m, Event::Hook(HookOutcome::Continue));
    assert_eq!(
        d.step(&m, Event::Hook(HookOutcome::Fail("boom".to_string()))),
        Action::Finish(Err(CpuError::DeviceExitHandler("vmm".to_string(), "boom".to_string())))
    );

    let (mut d, _) = Dispatcher::new(m.len(), false);
    d.step(&m, Event::Shutdown(false));
    d.step(&m, Event::Ran(ExitKind::Io(0x1004)));
    d.step(&m, Event::Hook(HookOutcome::Continue));
    d.step(&m, Event::Hook(HookOutcome::Continue));
    assert_eq!(d.step(&m, Event::Hook(HookOutcome::Continue)), Action::Mmio(0));
    assert_eq!(
        d.step(&m, Event::Mmio(HookOutcome::Fail("bad write".to_string()))),
        Action::Finish(Err(CpuError::Mmio("console".to_string(), "bad write".to_string())))
    );

    let (mut d, _) = Dispatcher::new(m.len(), false);
    d.step(&m, Event::Shutdown(false));
    d.step(&m, Event::Ran(ExitKind::Io(0x1004)));
    d.step(&m, Event::Hook(HookOutcome::Continue));
    d.step(&m, Event::Hook(HookOutcome::Continue));
    d.step(&m, Event::Hook(HookOutcome::Continue));
    d.step(&m, Event::Mmio(HookOutcome::Continue));
    d.step(&m, Event::Hook(HookOutcome::Continue));
    d.step(&m, Event::Hook(HookOutcome::Continue));
    assert_eq!(
        d.step(&m, Event::Hook(HookOutcome::Fail("late".to_string()))),
        Action::Finish(Err(CpuError::DevicePostExitHandler("debugger".to_string(), "late".to_string())))
    );
}

#[test]
fn hooks_may_stop_the_loop() {
    let m = three_devices();
    let (mut d, _) = Dispatcher::new(m.len(), false);
    d.step(&m, Event::Shutdown(false));
    d.step(&m, Event::Ran(ExitKind::Halt));
    assert_eq!(d.step(&m, Event::Hook(HookOutcome::Stop(false))), Action::Finish(Ok(false)));
}

#[test]
fn run_failure_and_unknown_exits_are_fatal() {
    let m: DeviceMap<u32> = DeviceMap::new();
    let (mut d, _) = Dispatcher::new(0, false);
    d.step(&m, Event::Shutdown(false));
    assert_eq!(
        d.step(&m, Event::RunFailed("EINTR".to_string())),
        Action::Finish(Err(CpuError::Run("EINTR".to_string())))
    );
    let (mut d, _) = Dispatcher::new(0, false);
    d.step(&m, Event::Shutdown(false));
    assert_eq!(d.step(&m, Event::Ran(ExitKind::Other)), Action::Finish(Err(CpuError::UnknownExit)));
    let (mut d, _) = Dispatcher::new(0, false);
    d.step(&m, Event::Shutdown(false));
    assert_eq!(
        d.step(&m, Event::Ran(ExitKind::Debug(DebugEvent::SwBreak))),
        Action::Finish(Err(CpuError::NoDebugger))
    );
}

#[test]
fn debugger_is_served_first_and_on_debug_exits() {
    let m: DeviceMap<u32> = DeviceMap::new();
    let (mut d, a) = Dispatcher::new(0, true);
    assert_eq!(a, Action::Breakpoint(None));
    assert_eq!(d.step(&m, Event::Served(Ok(None))), Action::CheckShutdown);
    d.step(&m, Event::Shutdown(false));
    assert_eq!(
        d.step(&m, Event::Ran(ExitKind::Debug(DebugEvent::SwBreak))),
        Action::Breakpoint(Some(DebugEvent::SwBreak))
    );
    assert_eq!(d.step(&m, Event::Served(Ok(None))), Action::CheckShutdown);
    d.step(&m, Event::Shutdown(false));
    d.step(&m, Event::Ran(ExitKind::Debug(DebugEvent::SwBreak)));
    assert_eq!(d.step(&m, Event::Served(Ok(Some(true)))), Action::Finish(Ok(true)));
}
