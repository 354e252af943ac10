use vstd::prelude::*;

use crate::debug::Debuggee;
use gdbstub_arch::x86::reg::X86_64CoreRegs;
use std::sync::atomic::{AtomicBool, Ordering};
use std::sync::Arc;

verus! {

/// What controls one vCPU from outside: its id, the handle of the thread that drives it and,
/// when a debugger is attached, the debugger side of its debug channel.
pub struct CpuController<T> {
    id: usize,
    thread: T,
    debug: Option<Debuggee>,
}

/// Manages every vCPU: hands out ids in order, reaches each vCPU's debug channel and tears
/// them all down.
pub struct CpuManager<T> {
    cpus: Vec<CpuController<T>>,
    next: usize,
    shutdown: Arc<AtomicBool>,
}

impl<T> CpuManager<T> {
    /// Ids of the live vCPUs, oldest first.
    pub closed spec fn ids(&self) -> Seq<usize> {
        self.cpus@.map_values(|c: CpuController<T>| c.id)
    }

    /// Id that the next vCPU gets.
    pub closed spec fn next_id(&self) -> usize {
        self.next
    }

    /// Thread handles of the live vCPUs, oldest first.
    pub closed spec fn threads(&self) -> Seq<T> {
        self.cpus@.map_values(|c: CpuController<T>| c.thread)
    }

    /// For each live vCPU: whether it has a debug channel.
    pub closed spec fn attached(&self) -> Seq<bool> {
        self.cpus@.map_values(|c: CpuController<T>| c.debug is Some)
    }

    /// For each live vCPU: whether it has a debug channel whose vCPU was asked to stop and not
    /// released since.
    pub closed spec fn locked(&self) -> Seq<bool> {
        self.cpus@.map_values(
            |c: CpuController<T>|
                match c.debug {
                    Some(d) => d.locked(),
                    None => false,
                },
        )
    }

    /// Ids are increasing and below the next one, so each names one vCPU.
    pub open spec fn wf(&self) -> bool {
        &&& forall|i: int, j: int|
            0 <= i < j < self.ids().len() ==> self.ids()[i] < self.ids()[j]
        &&& forall|i: int| 0 <= i < self.ids().len() ==> self.ids()[i] < self.next_id()
    }

    pub fn new(shutdown: Arc<AtomicBool>) -> (r: Self)
        ensures
            r.wf(),
            r.ids().len() == 0,
            r.next_id() == 0,
    {
        CpuManager { cpus: Vec::new(), next: 0, shutdown }
    }

    /// Another vCPU can get an id.
    pub fn can_add(&self) -> (r: bool)
        ensures
            r == (self.next_id() < usize::MAX),
    {
        self.next < usize::MAX
    }

    /// Number of live vCPUs.
    pub fn len(&self) -> (r: usize)
        ensures
            r == self.ids().len(),
    {
        self.cpus.len()
    }

    /// Ids of the live vCPUs, oldest first.
    pub fn list(&self) -> (r: Vec<usize>)
        ensures
            r@ == self.ids(),
    {
        let mut out: Vec<usize> = Vec::new();
        let mut i: usize = 0;
        while i < self.cpus.len()
            invariant
                i <= self.cpus@.len(),
                out@ == self.ids().take(i as int),
            decreases self.cpus@.len() - i,
        {
            out.push(self.cpus[i].id);
            i = i + 1;
            assert(out@ =~= self.ids().take(i as int));
        }
        assert(self.ids().take(self.cpus@.len() as int) =~= self.ids());
        out
    }

    /// Registers a vCPU driven by `thread` and gives its id, the next in order.
    pub fn add(&mut self, thread: T, debug: Option<Debuggee>) -> (r: usize)
        requires
            old(self).wf(),
            old(self).next_id() < usize::MAX,
        ensures
            final(self).wf(),
            r == old(self).next_id(),
            final(self).next_id() == r + 1,
            final(self).ids() == old(self).ids().push(r),
            final(self).attached() == old(self).attached().push(debug is Some),
            final(self).locked() == old(self).locked().push(
                match debug {
                    Some(d) => d.locked(),
                    None => false,
                },
            ),
    {
        let id = self.next;
        self.cpus.push(CpuController { id, thread, debug });
        self.next = self.next + 1;
        proof {
            assert(self.ids() =~= old(self).ids().push(id));
            assert(self.attached() =~= old(self).attached().push(debug is Some));
            assert(self.locked() =~= old(self).locked().push(
                match debug {
                    Some(d) => d.locked(),
                    None => false,
                },
            ));
        }
        id
    }

    /// Where vCPU `id` is among the live ones.
    pub fn position(&self, id: usize) -> (r: Option<usize>)
        requires
            self.wf(),
        ensures
            match r {
                Some(i) => i < self.ids().len() && self.ids()[i as int] == id,
                None => !self.ids().contains(id),
            },
    {
        let mut i: usize = 0;
        while i < self.cpus.len()
            invariant
                i <= self.cpus@.len(),
                forall|k: int| 0 <= k < i ==> self.ids()[k] != id,
            decreases self.cpus@.len() - i,
        {
            if self.cpus[i].id == id {
                return Some(i);
            }
            i = i + 1;
        }
        None
    }

    /// Takes vCPU `id` out of the live ones, with its thread handle and debug channel.
    pub fn remove(&mut self, id: usize) -> (r: Option<(T, Option<Debuggee>)>)
        requires
            old(self).wf(),
        ensures
            final(self).wf(),
            final(self).next_id() == old(self).next_id(),
            match r {
                Some(_) => exists|i: int|
                    0 <= i < old(self).ids().len() && old(self).ids()[i] == id && final(self).ids()
                        == old(self).ids().remove(i),
                None => !old(self).ids().contains(id) && final(self).ids() == old(self).ids(),
            },
    {
        match self.position(id) {
            Some(i) => {
                let c = self.cpus.remove(i);
                proof {
                    assert(self.ids() =~= old(self).ids().remove(i as int));
                }
                Some((c.thread, c.debug))
            },
            None => None,
        }
    }

    /// Asks vCPU `id` for its registers. `None` when there is no such vCPU, it has no debug
    /// channel or its thread is gone.
    pub fn get_regs(&mut self, id: usize) -> (r: Option<X86_64CoreRegs>)
        requires
            old(self).wf(),
        ensures
            final(self).wf(),
            final(self).ids() == old(self).ids(),
            final(self).next_id() == old(self).next_id(),
            final(self).attached() == old(self).attached(),
            !old(self).ids().contains(id) ==> r is None,
            forall|i: int|
                0 <= i < old(self).ids().len() && old(self).ids()[i] == id && !old(
                    self,
                ).attached()[i] ==> r is None,
            forall|j: int|
                0 <= j < old(self).ids().len() && old(self).ids()[j] != id ==> final(self).locked()[j]
                    == old(self).locked()[j],
            forall|j: int|
                0 <= j < old(self).ids().len() && old(self).ids()[j] == id ==> (r is Some
                    ==> final(self).locked()[j]) && (old(self).locked()[j]
                    ==> final(self).locked()[j]),
    {
        match self.position(id) {
            Some(i) => {
                let ghost l0 = self.locked();
                let mut c = self.cpus.remove(i);
                let r = match &mut c.debug {
                    Some(d) => d.get_regs(),
                    None => None,
                };
                let ghost now = match &c.debug {
                    Some(d) => d.locked(),
                    None => false,
                };
                self.cpus.insert(i, c);
                proof {
                    assert(self.ids() =~= old(self).ids());
                    assert(self.attached() =~= old(self).attached());
                    assert(self.locked() =~= l0.update(i as int, now));
                    assert forall|j: int| 0 <= j < l0.len() && old(self).ids()[j] == id implies j == i by {
                        if j < i {
                            assert(old(self).ids()[j] < old(self).ids()[i as int]);
                        } else if j > i {
                            assert(old(self).ids()[i as int] < old(self).ids()[j]);
                        }
                    }
                }
                r
            },
            None => None,
        }
    }

    /// Asks vCPU `id` to translate a virtual address. `None` when there is no such vCPU, it
    /// has no debug channel or its thread is gone.
    pub fn translate_address(&mut self, id: usize, addr: usize) -> (r: Option<usize>)
        requires
            old(self).wf(),
        ensures
            final(self).wf(),
            final(self).ids() == old(self).ids(),
            final(self).next_id() == old(self).next_id(),
            final(self).attached() == old(self).attached(),
            !old(self).ids().contains(id) ==> r is None,
            forall|i: int|
                0 <= i < old(self).ids().len() && old(self).ids()[i] == id && !old(
                    self,
                ).attached()[i] ==> r is None,
            forall|j: int|
                0 <= j < old(self).ids().len() && old(self).ids()[j] != id ==> final(self).locked()[j]
                    == old(self).locked()[j],
            forall|j: int|
                0 <= j < old(self).ids().len() && old(self).ids()[j] == id ==> (r is Some
                    ==> final(self).locked()[j]) && (old(self).locked()[j]
                    ==> final(self).locked()[j]),
    {
        match self.position(id) {
            Some(i) => {
                let ghost l0 = self.locked();
                let mut c = self.cpus.remove(i);
                let r = match &mut c.debug {
                    Some(d) => d.translate_address(addr),
                    None => None,
                };
                let ghost now = match &c.debug {
                    Some(d) => d.locked(),
                    None => false,
                };
                self.cpus.insert(i, c);
                proof {
                    assert(self.ids() =~= old(self).ids());
                    assert(self.attached() =~= old(self).attached());
                    assert(self.locked() =~= l0.update(i as int, now));
                    assert forall|j: int| 0 <= j < l0.len() && old(self).ids()[j] == id implies j == i by {
                        if j < i {
                            assert(old(self).ids()[j] < old(self).ids()[i as int]);
                        } else if j > i {
                            assert(old(self).ids()[i as int] < old(self).ids()[j]);
                        }
                    }
                }
                r
            },
            None => None,
        }
    }

    /// Asks every vCPU with a debug channel to stop.
    pub fn debug_lock(&mut self)
        requires
            old(self).wf(),
        ensures
            final(self).wf(),
            final(self).ids() == old(self).ids(),
            final(self).next_id() == old(self).next_id(),
            final(self).attached() == old(self).attached(),
            final(self).locked() == old(self).attached(),
    {
        let n = self.cpus.len();
        let ghost ids0 = self.ids();
        let ghost att0 = self.attached();
        let mut i: usize = 0;
        while i < n
            invariant
                n == self.cpus@.len(),
                i <= n,
                self.ids() == ids0,
                self.attached() == att0,
                self.next == old(self).next,
                forall|k: int| 0 <= k < i ==> self.locked()[k] == att0[k],
            decreases n - i,
        {
            let mut c = self.cpus.remove(i);
            if let Some(d) = &mut c.debug {
                d.lock();
            }
            self.cpus.insert(i, c);
            i = i + 1;
            proof {
                assert(self.ids() =~= ids0);
                assert(self.attached() =~= att0);
            }
        }
        proof {
            assert(self.locked() =~= att0);
        }
    }

    /// Lets every stopped vCPU go on.
    pub fn release(&mut self)
        requires
            old(self).wf(),
        ensures
            final(self).wf(),
            final(self).ids() == old(self).ids(),
            final(self).next_id() == old(self).next_id(),
            final(self).attached() == old(self).attached(),
            forall|k: int| 0 <= k < final(self).locked().len() ==> !final(self).locked()[k],
    {
        let n = self.cpus.len();
        let ghost ids0 = self.ids();
        let ghost att0 = self.attached();
        let mut i: usize = 0;
        while i < n
            invariant
                n == self.cpus@.len(),
                i <= n,
                self.ids() == ids0,
                self.attached() == att0,
                self.next == old(self).next,
                forall|k: int| 0 <= k < i ==> !self.locked()[k],
            decreases n - i,
        {
            let ghost l0 = self.locked();
            let mut c = self.cpus.remove(i);
            if let Some(d) = &mut c.debug {
                d.release();
            }
            self.cpus.insert(i, c);
            proof {
                assert(self.ids() =~= ids0);
                assert(self.attached() =~= att0);
                assert(self.locked() =~= l0.update(i as int, false));
            }
            i = i + 1;
        }
    }

    /// Raises the shutdown flag, then drops every vCPU's debug channel, which frees a vCPU
    /// waiting in the breakpoint protocol, and gives the thread handles to join, oldest first.
    /// No vCPU is left.
    pub fn teardown(&mut self) -> (r: Vec<T>)
        requires
            old(self).wf(),
        ensures
            final(self).wf(),
            final(self).ids().len() == 0,
            r@ == old(self).threads(),
            final(self).next_id() == old(self).next_id(),
    {
        self.shutdown.store(true, Ordering::Relaxed);
        let mut threads: Vec<T> = Vec::new();
        let ghost n = self.cpus@.len();
        while self.cpus.len() > 0
            invariant
                threads@ + self.threads() == old(self).threads(),
                self.next == old(self).next,
            decreases self.cpus@.len(),
        {
            let c = self.cpus.remove(0);
            let CpuController { id: _, thread, debug } = c;
            drop_channel(debug);
            let ghost rest = self.threads();
            threads.push(thread);
            proof {
                assert(threads@ + rest =~= old(self).threads());
            }
        }
        assert(self.threads() =~= Seq::<T>::empty());
        assert(threads@ =~= old(self).threads());
        threads
    }
}

/// Closes a debug channel by dropping its debugger side.
fn drop_channel(d: Option<Debuggee>) {
}

} // verus!
