use vstd::prelude::*;

use crate::hw::DeviceMap;

verus! {

/// Why a vCPU stopped with an error. Messages of the failed operation are carried as text.
#[derive(Debug, Clone, PartialEq, Eq)]
pub enum CpuError {
    Create(String),
    Setup(String),
    Run(String),
    /// Device name and message.
    DeviceExitHandler(String, String),
    /// The vCPU accessed memory-mapped I/O at an address that no device holds.
    MmioAddr(u64),
    /// Device name and message.
    Mmio(String, String),
    GetStates(String),
    /// Register name and message.
    ReadReg(String, String),
    /// Address and message.
    TranslateAddr(u64, String),
    /// Device name and message.
    DevicePostExitHandler(String, String),
    /// The vCPU stopped for a debug event while no debugger is attached.
    NoDebugger,
    /// The vCPU stopped for a reason that the dispatcher does not know.
    UnknownExit,
}

/// Why a vCPU stopped for the debugger.
#[derive(Debug, Clone, Copy, PartialEq, Eq, Structural)]
pub enum DebugEvent {
    SwBreak,
}

/// Why `run` returned.
#[derive(Debug, Clone, Copy, PartialEq, Eq, Structural)]
pub enum ExitKind {
    Halt,
    /// Memory-mapped I/O at this guest physical address.
    Io(u64),
    Debug(DebugEvent),
    /// An exit that the backend reports but the dispatcher does not know.
    Other,
}

/// What a device hook answered.
#[derive(Debug, Clone, PartialEq, Eq)]
pub enum HookOutcome {
    Continue,
    /// Stop the vCPU with this result.
    Stop(bool),
    /// The hook failed with this message.
    Fail(String),
}

/// What happened since the last action.
#[derive(Debug, PartialEq, Eq)]
pub enum Event {
    /// The shutdown flag was read.
    Shutdown(bool),
    /// `run` returned this exit.
    Ran(ExitKind),
    /// `run` failed with this message.
    RunFailed(String),
    /// A device hook answered.
    Hook(HookOutcome),
    /// The device's MMIO handler answered.
    Mmio(HookOutcome),
    /// The breakpoint protocol ended: `None` to go on, `Some(v)` to stop with `v`.
    Served(Result<Option<bool>, CpuError>),
}

/// What the thread that drives the vCPU does next.
#[derive(Debug, PartialEq, Eq)]
pub enum Action {
    /// Read the shutdown flag.
    CheckShutdown,
    /// Run the vCPU.
    Run,
    /// Call the exited hook of device `i`.
    Exited(usize),
    /// Hand the I/O to device `i`.
    Mmio(usize),
    /// Enter the breakpoint protocol.
    Breakpoint(Option<DebugEvent>),
    /// Call the post-exit hook of device `i`.
    Post(usize),
    /// The loop is over with this result; set the shutdown flag and return it.
    Finish(Result<bool, CpuError>),
}

/// Where the dispatcher is in one round of the loop.
#[derive(Debug, Clone, Copy, PartialEq, Eq, Structural)]
pub enum Phase {
    Head,
    Running,
    Exited(usize),
    Mmio(usize),
    Breakpoint,
    Post(usize),
    Done,
}

/// Where an exit goes once every exited hook let the vCPU go on: a halt ends the loop
/// cleanly, I/O goes to the device that holds its address, a debug stop goes to the
/// breakpoint protocol when a debugger is attached.
pub open spec fn route_of<T>(exit: ExitKind, debugger: bool, devices: &DeviceMap<T>) -> Action {
    match exit {
        ExitKind::Halt => Action::Finish(Ok(true)),
        ExitKind::Io(addr) => if exists|i: int| 0 <= i < devices.ranges().len() && devices.holds(i, addr) {
            Action::Mmio(choose|i: usize| i < devices.ranges().len() && devices.holds(i as int, addr))
        } else {
            Action::Finish(Err(CpuError::MmioAddr(addr)))
        },
        ExitKind::Debug(e) => if debugger {
            Action::Breakpoint(Some(e))
        } else {
            Action::Finish(Err(CpuError::NoDebugger))
        },
        ExitKind::Other => Action::Finish(Err(CpuError::UnknownExit)),
    }
}

/// Post-exit hooks start at the first device; with no device the round is over.
pub open spec fn first_post(ndev: nat) -> Action {
    if ndev > 0 {
        Action::Post(0)
    } else {
        Action::CheckShutdown
    }
}

/// `a` ends the loop with a device error of `kind` (0: exited hook, 1: MMIO handler, 2:
/// post-exit hook) that names device `i` and carries message `m`.
pub open spec fn is_device_failure<T>(
    a: Action,
    kind: int,
    devices: &DeviceMap<T>,
    i: int,
    m: String,
) -> bool {
    match a {
        Action::Finish(Err(CpuError::DeviceExitHandler(n, m2))) => kind == 0 && n@
            == devices.names()[i] && m2 == m,
        Action::Finish(Err(CpuError::Mmio(n, m2))) => kind == 1 && n@ == devices.names()[i]
            && m2 == m,
        Action::Finish(Err(CpuError::DevicePostExitHandler(n, m2))) => kind == 2 && n@
            == devices.names()[i] && m2 == m,
        _ => false,
    }
}

/// `a` is the next action of dispatcher `d` after event `ev`.
pub open spec fn is_next_action<T>(d: Dispatcher, devices: &DeviceMap<T>, ev: Event, a: Action) -> bool {
    match ev {
        Event::Shutdown(stop) => a == if stop {
            Action::Finish(Ok(true))
        } else {
            Action::Run
        },
        Event::Ran(exit) => a == if d.ndev() > 0 {
            Action::Exited(0)
        } else {
            route_of(exit, d.debugger(), devices)
        },
        Event::RunFailed(m) => a == Action::Finish(Err(CpuError::Run(m))),
        Event::Hook(o) => match d.phase() {
            Phase::Exited(i) => match o {
                HookOutcome::Continue => a == if i + 1 < d.ndev() {
                    Action::Exited((i + 1) as usize)
                } else {
                    route_of(d.exit(), d.debugger(), devices)
                },
                HookOutcome::Stop(v) => a == Action::Finish(Ok(v)),
                HookOutcome::Fail(m) => is_device_failure(a, 0, devices, i as int, m),
            },
            Phase::Post(i) => match o {
                HookOutcome::Continue => a == if i + 1 < d.ndev() {
                    Action::Post((i + 1) as usize)
                } else {
                    Action::CheckShutdown
                },
                HookOutcome::Stop(v) => a == Action::Finish(Ok(v)),
                HookOutcome::Fail(m) => is_device_failure(a, 2, devices, i as int, m),
            },
            _ => false,
        },
        Event::Mmio(o) => match o {
            HookOutcome::Continue => a == first_post(d.ndev()),
            HookOutcome::Stop(v) => a == Action::Finish(Ok(v)),
            HookOutcome::Fail(m) => is_device_failure(a, 1, devices, d.phase()->Mmio_0 as int, m),
        },
        Event::Served(r) => a == match r {
            Ok(None) => if d.handling() {
                first_post(d.ndev())
            } else {
                Action::CheckShutdown
            },
            Ok(Some(v)) => Action::Finish(Ok(v)),
            Err(e) => Action::Finish(Err(e)),
        },
    }
}

/// The decisions of the loop that drives one vCPU: it runs the vCPU until shutdown, calls the
/// exited hook of every device in address order, routes the exit, then calls every post-exit
/// hook in address order.
pub struct Dispatcher {
    phase: Phase,
    ndev: usize,
    debugger: bool,
    exit: ExitKind,
    handling: bool,
}

impl Dispatcher {
    pub closed spec fn phase(&self) -> Phase {
        self.phase
    }

    pub closed spec fn ndev(&self) -> nat {
        self.ndev as nat
    }

    pub closed spec fn debugger(&self) -> bool {
        self.debugger
    }

    /// The exit being handled.
    pub closed spec fn exit(&self) -> ExitKind {
        self.exit
    }

    /// An exit is being handled: the breakpoint protocol, once over, goes on with the
    /// post-exit hooks rather than with the head of the loop.
    pub closed spec fn handling(&self) -> bool {
        self.handling
    }

    pub open spec fn wf(&self) -> bool {
        match self.phase() {
            Phase::Exited(i) => i < self.ndev(),
            Phase::Mmio(i) => i < self.ndev(),
            Phase::Post(i) => i < self.ndev(),
            _ => true,
        }
    }

    /// The event is an answer to the last action.
    pub open spec fn spec_accepts(&self, ev: Event) -> bool {
        match (self.phase(), ev) {
            (Phase::Head, Event::Shutdown(_)) => true,
            (Phase::Running, Event::Ran(_)) => true,
            (Phase::Running, Event::RunFailed(_)) => true,
            (Phase::Exited(_), Event::Hook(_)) => true,
            (Phase::Mmio(_), Event::Mmio(_)) => true,
            (Phase::Breakpoint, Event::Served(_)) => true,
            (Phase::Post(_), Event::Hook(_)) => true,
            _ => false,
        }
    }

    /// A dispatcher for a vCPU with `ndev` devices. With a debugger attached the vCPU first
    /// waits for it; otherwise it goes to the head of the loop.
    pub fn new(ndev: usize, debugger: bool) -> (r: (Self, Action))
        ensures
            r.0.wf(),
            r.0.ndev() == ndev,
            r.0.debugger() == debugger,
            !r.0.handling(),
            debugger ==> r.0.phase() == Phase::Breakpoint && r.1 == Action::Breakpoint(None),
            !debugger ==> r.0.phase() == Phase::Head && r.1 == Action::CheckShutdown,
    {
        if debugger {
            (Dispatcher { phase: Phase::Breakpoint, ndev, debugger, exit: ExitKind::Halt, handling: false }, Action::Breakpoint(None))
        } else {
            (Dispatcher { phase: Phase::Head, ndev, debugger, exit: ExitKind::Halt, handling: false }, Action::CheckShutdown)
        }
    }

    pub fn accepts(&self, ev: &Event) -> (r: bool)
        ensures
            r == self.spec_accepts(*ev),
    {
        match (self.phase, ev) {
            (Phase::Head, Event::Shutdown(_)) => true,
            (Phase::Running, Event::Ran(_)) => true,
            (Phase::Running, Event::RunFailed(_)) => true,
            (Phase::Exited(_), Event::Hook(_)) => true,
            (Phase::Mmio(_), Event::Mmio(_)) => true,
            (Phase::Breakpoint, Event::Served(_)) => true,
            (Phase::Post(_), Event::Hook(_)) => true,
            _ => false,
        }
    }

    fn finish(&mut self, r: Result<bool, CpuError>) -> (a: Action)
        ensures
            final(self).phase() == Phase::Done,
            final(self).ndev() == old(self).ndev(),
            final(self).debugger() == old(self).debugger(),
            final(self).exit() == old(self).exit(),
            final(self).handling() == old(self).handling(),
            a == Action::Finish(r),
    {
        self.phase = Phase::Done;
        Action::Finish(r)
    }

    /// First post-exit hook, or the head of the loop when there is no device.
    fn after_exit(&mut self) -> (a: Action)
        ensures
            final(self).wf(),
            final(self).ndev() == old(self).ndev(),
            final(self).debugger() == old(self).debugger(),
            final(self).exit() == old(self).exit(),
            old(self).ndev() > 0 ==> final(self).handling() == old(self).handling(),
            old(self).ndev() == 0 ==> !final(self).handling(),
            old(self).ndev() > 0 ==> final(self).phase() == Phase::Post(0) && a == Action::Post(0),
            old(self).ndev() == 0 ==> final(self).phase() == Phase::Head && a
                == Action::CheckShutdown,
    {
        if self.ndev > 0 {
            self.phase = Phase::Post(0);
            Action::Post(0)
        } else {
            self.phase = Phase::Head;
            self.handling = false;
            Action::CheckShutdown
        }
    }

    /// Routes an exit once every exited hook let the vCPU go on.
    fn route<T>(&mut self, devices: &DeviceMap<T>) -> (a: Action)
        requires
            devices.wf(),
            devices.ranges().len() == old(self).ndev(),
        ensures
            final(self).wf(),
            final(self).ndev() == old(self).ndev(),
            final(self).debugger() == old(self).debugger(),
            final(self).exit() == old(self).exit(),
            final(self).handling() == old(self).handling(),
            a == route_of(old(self).exit(), old(self).debugger(), devices),
            a is Mmio ==> final(self).phase() == Phase::Mmio(a->Mmio_0),
            a is Breakpoint ==> final(self).phase() == Phase::Breakpoint,
            a is Finish ==> final(self).phase() == Phase::Done,
    {
        match self.exit {
            ExitKind::Halt => self.finish(Ok(true)),
            ExitKind::Io(addr) => match devices.find(addr) {
                Some(i) => {
                    self.phase = Phase::Mmio(i);
                    Action::Mmio(i)
                },
                None => self.finish(Err(CpuError::MmioAddr(addr))),
            },
            ExitKind::Debug(e) => if self.debugger {
                self.phase = Phase::Breakpoint;
                Action::Breakpoint(Some(e))
            } else {
                self.finish(Err(CpuError::NoDebugger))
            },
            ExitKind::Other => self.finish(Err(CpuError::UnknownExit)),
        }
    }

    /// Takes the answer to the last action and gives the next one.
    pub fn step<T>(&mut self, devices: &DeviceMap<T>, ev: Event) -> (a: Action)
        requires
            old(self).wf(),
            old(self).spec_accepts(ev),
            devices.wf(),
            devices.ranges().len() == old(self).ndev(),
        ensures
            final(self).wf(),
            final(self).ndev() == old(self).ndev(),
            final(self).debugger() == old(self).debugger(),
            is_next_action(*old(self), devices, ev, a),
            a is Finish <==> final(self).phase() == Phase::Done,
            a == Action::CheckShutdown ==> final(self).phase() == Phase::Head,
            a == Action::Run ==> final(self).phase() == Phase::Running,
            a is Exited ==> final(self).phase() == Phase::Exited(a->Exited_0),
            a is Mmio ==> final(self).phase() == Phase::Mmio(a->Mmio_0),
            a is Post ==> final(self).phase() == Phase::Post(a->Post_0),
            a is Breakpoint ==> final(self).phase() == Phase::Breakpoint,
            final(self).exit() == match ev {
                Event::Ran(x) => x,
                _ => old(self).exit(),
            },
            final(self).handling() == if a == Action::CheckShutdown {
                false
            } else if ev is Ran {
                true
            } else {
                old(self).handling()
            },
    {
        match ev {
            Event::Shutdown(stop) => {
                if stop {
                    self.finish(Ok(true))
                } else {
                    self.phase = Phase::Running;
                    Action::Run
                }
            },
            Event::Ran(exit) => {
                self.exit = exit;
                self.handling = true;
                if self.ndev > 0 {
                    self.phase = Phase::Exited(0);
                    Action::Exited(0)
                } else {
                    self.route(devices)
                }
            },
            Event::RunFailed(m) => self.finish(Err(CpuError::Run(m))),
            Event::Hook(o) => match self.phase {
                Phase::Exited(i) => match o {
                    HookOutcome::Continue => if i + 1 < self.ndev {
                        self.phase = Phase::Exited(i + 1);
                        Action::Exited(i + 1)
                    } else {
                        self.route(devices)
                    },
                    HookOutcome::Stop(v) => self.finish(Ok(v)),
                    HookOutcome::Fail(m) => {
                        let name = devices.get(i).name().clone();
                        self.finish(Err(CpuError::DeviceExitHandler(name, m)))
                    },
                },
                _ => {
                    let i = match self.phase {
                        Phase::Post(i) => i,
                        _ => 0,
                    };
                    match o {
                        HookOutcome::Continue => if i + 1 < self.ndev {
                            self.phase = Phase::Post(i + 1);
                            Action::Post(i + 1)
                        } else {
                            self.phase = Phase::Head;
                            self.handling = false;
                            Action::CheckShutdown
                        },
                        HookOutcome::Stop(v) => self.finish(Ok(v)),
                        HookOutcome::Fail(m) => {
                            let name = devices.get(i).name().clone();
                            self.finish(Err(CpuError::DevicePostExitHandler(name, m)))
                        },
                    }
                },
            },
            Event::Mmio(o) => {
                let i = match self.phase {
                    Phase::Mmio(i) => i,
                    _ => 0,
                };
                match o {
                    HookOutcome::Continue => self.after_exit(),
                    HookOutcome::Stop(v) => self.finish(Ok(v)),
                    HookOutcome::Fail(m) => {
                        let name = devices.get(i).name().clone();
                        self.finish(Err(CpuError::Mmio(name, m)))
                    },
                }
            },
            Event::Served(r) => match r {
                Ok(None) => if self.handling {
                    self.after_exit()
                } else {
                    self.phase = Phase::Head;
                    Action::CheckShutdown
                },
                Ok(Some(v)) => self.finish(Ok(v)),
                Err(e) => self.finish(Err(e)),
            },
        }
    }
}

/// A Halt ends the loop cleanly once every exited hook lets the vCPU go on: right at the exit
/// when there is no device, else after the last device's exited hook.
pub proof fn lemma_halt_ends_cleanly<T>(d: Dispatcher, devices: &DeviceMap<T>, ev: Event, a: Action)
    requires
        is_next_action(d, devices, ev, a),
        d.ndev() == 0 && ev == Event::Ran(ExitKind::Halt) || (d.exit() == ExitKind::Halt
            && d.phase() == Phase::Exited((d.ndev() - 1) as usize) && ev == Event::Hook(
            HookOutcome::Continue,
        )),
    ensures
        a == Action::Finish(Ok(true)),
{
}

} // verus!
