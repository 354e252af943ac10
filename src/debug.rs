use vstd::prelude::*;

use gdbstub_arch::x86::reg::X86_64CoreRegs;
use std::sync::mpsc::{Receiver, Sender};

verus! {

/// std's channel sender, used only through `send_value`.
#[verifier::external_type_specification]
#[verifier::external_body]
#[verifier::reject_recursive_types(T)]
pub struct ExSender<T>(Sender<T>);

/// std's channel receiver, used only through `recv_value`.
#[verifier::external_type_specification]
#[verifier::external_body]
#[verifier::reject_recursive_types(T)]
pub struct ExReceiver<T>(Receiver<T>);

/// Relies on `std::sync::mpsc::channel`: a sender and the receiver it feeds.
#[verifier::external_body]
fn new_channel<T>() -> (r: (Sender<T>, Receiver<T>)) {
    std::sync::mpsc::channel()
}

/// Relies on `Sender::send`: hands the value over, or fails once the receiver is gone.
#[verifier::external_body]
fn send_value<T>(s: &Sender<T>, v: T) -> (r: bool) {
    s.send(v).is_ok()
}

/// Relies on `Receiver::recv`: waits for the next value, or gives `None` once the sender is
/// gone.
#[verifier::external_body]
fn recv_value<T>(r: &Receiver<T>) -> (v: Option<T>) {
    r.recv().ok()
}

/// Debug request from the debugger side to a vCPU thread.
#[derive(Debug, Clone, Copy, PartialEq, Eq, Structural)]
pub enum DebugReq {
    GetRegs,
    Lock,
    Release,
    TranslateAddress(usize),
}

/// Debug response from a vCPU thread to the debugger side.
#[derive(Debug)]
pub enum DebugRes {
    Regs(X86_64CoreRegs),
    TranslatedAddress(usize),
}

/// The registers in a response to `GetRegs`; any other response breaks the protocol and gives
/// nothing.
pub fn regs_of(res: Option<DebugRes>) -> (r: Option<X86_64CoreRegs>)
    ensures
        match res {
            Some(DebugRes::Regs(v)) => r == Some(v),
            _ => r is None,
        },
{
    match res {
        Some(DebugRes::Regs(v)) => Some(v),
        _ => None,
    }
}

/// The address in a response to `TranslateAddress`; any other response breaks the protocol
/// and gives nothing.
pub fn translated_of(res: Option<DebugRes>) -> (r: Option<usize>)
    ensures
        match res {
            Some(DebugRes::TranslatedAddress(v)) => r == Some(v),
            _ => r is None,
        },
{
    match res {
        Some(DebugRes::TranslatedAddress(v)) => Some(v),
        _ => None,
    }
}

/// The debugger side of a vCPU's debug channel. Every request waits for its response before
/// the call returns, so a response always belongs to the request just sent.
pub struct Debuggee {
    sender: Sender<DebugReq>,
    receiver: Receiver<DebugRes>,
    locked: bool,
}

/// The vCPU side of a debug channel.
pub struct Debugger {
    receiver: Receiver<DebugReq>,
    sender: Sender<DebugRes>,
}

/// A connected pair of debug channel ends.
pub fn channel() -> (r: (Debuggee, Debugger))
    ensures
        !r.0.locked(),
{
    let (sender, rx) = new_channel();
    let (tx, receiver) = new_channel();
    let debuggee = Debuggee::new(sender, receiver);
    let debugger = Debugger { receiver: rx, sender: tx };
    (debuggee, debugger)
}

impl Debuggee {
    /// The vCPU was asked to stop and has not been released since.
    pub closed spec fn locked(&self) -> bool {
        self.locked
    }

    fn new(sender: Sender<DebugReq>, receiver: Receiver<DebugRes>) -> (r: Self)
        ensures
            !r.locked(),
    {
        Debuggee { sender, receiver, locked: false }
    }

    pub fn is_locked(&self) -> (r: bool)
        ensures
            r == self.locked(),
    {
        self.locked
    }

    /// Asks the vCPU for its registers. `None` when the vCPU thread is gone.
    pub fn get_regs(&mut self) -> (r: Option<X86_64CoreRegs>)
        ensures
            r is Some ==> final(self).locked(),
            old(self).locked() ==> final(self).locked(),
    {
        if !send_value(&self.sender, DebugReq::GetRegs) {
            return None;
        }
        self.locked = true;
        regs_of(recv_value(&self.receiver))
    }

    /// Asks the vCPU to translate a virtual address. `None` when the vCPU thread is gone.
    pub fn translate_address(&mut self, addr: usize) -> (r: Option<usize>)
        ensures
            r is Some ==> final(self).locked(),
            old(self).locked() ==> final(self).locked(),
    {
        if !send_value(&self.sender, DebugReq::TranslateAddress(addr)) {
            return None;
        }
        self.locked = true;
        translated_of(recv_value(&self.receiver))
    }

    /// Asks the vCPU to stop.
    pub fn lock(&mut self)
        ensures
            final(self).locked(),
    {
        let _ = send_value(&self.sender, DebugReq::Lock);
        self.locked = true;
    }

    /// Lets a stopped vCPU go on; does nothing to one that was not asked to stop.
    pub fn release(&mut self)
        ensures
            !final(self).locked(),
    {
        if self.locked {
            self.locked = false;
            let _ = send_value(&self.sender, DebugReq::Release);
        }
    }
}

impl Debugger {
    /// Waits for the next request; `None` once the debugger side is dropped.
    pub fn recv(&self) -> (r: Option<DebugReq>) {
        recv_value(&self.receiver)
    }

    /// Answers the last request.
    pub fn send(&self, r: DebugRes) {
        let _ = send_value(&self.sender, r);
    }
}

/// What a vCPU thread in the breakpoint protocol does with what it received.
#[derive(Debug, Clone, Copy, PartialEq, Eq, Structural)]
pub enum ServeStep {
    /// The debugger side is gone: end the thread cleanly.
    Detach,
    /// Read the registers and answer with them.
    ReadRegs,
    /// Translate this address and answer with the result.
    Translate(usize),
    /// Already stopped: wait for the next request.
    Stay,
    /// Leave the protocol and go on running.
    Leave,
}

/// Decides the breakpoint protocol's next step from a received request.
pub fn serve_step(req: Option<DebugReq>) -> (r: ServeStep)
    ensures
        r == match req {
            None => ServeStep::Detach,
            Some(DebugReq::GetRegs) => ServeStep::ReadRegs,
            Some(DebugReq::TranslateAddress(a)) => ServeStep::Translate(a),
            Some(DebugReq::Lock) => ServeStep::Stay,
            Some(DebugReq::Release) => ServeStep::Leave,
        },
{
    match req {
        None => ServeStep::Detach,
        Some(DebugReq::GetRegs) => ServeStep::ReadRegs,
        Some(DebugReq::TranslateAddress(a)) => ServeStep::Translate(a),
        Some(DebugReq::Lock) => ServeStep::Stay,
        Some(DebugReq::Release) => ServeStep::Leave,
    }
}

/// What the breakpoint protocol ends with, as the dispatcher takes it: leaving goes on
/// running, a detach stops the vCPU cleanly.
pub fn serve_result(step: ServeStep) -> (r: Option<Option<bool>>)
    ensures
        r == match step {
            ServeStep::Detach => Some(Some(true)),
            ServeStep::Leave => Some(None::<bool>),
            _ => None::<Option<bool>>,
        },
{
    match step {
        ServeStep::Detach => Some(Some(true)),
        ServeStep::Leave => Some(None),
        _ => None,
    }
}

} // verus!
