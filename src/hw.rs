use vstd::prelude::*;

verus! {

/// A device mapped at `[addr, end)` of guest physical memory, with what the owner keeps for it.
pub struct Device<T> {
    addr: u64,
    end: u64,
    name: String,
    pub context: T,
}

impl<T> Device<T> {
    pub closed spec fn spec_addr(&self) -> u64 {
        self.addr
    }

    pub closed spec fn spec_end(&self) -> u64 {
        self.end
    }

    pub closed spec fn spec_name(&self) -> Seq<char> {
        self.name@
    }

    pub fn addr(&self) -> (r: u64)
        ensures
            r == self.spec_addr(),
    {
        self.addr
    }

    pub fn end(&self) -> (r: u64)
        ensures
            r == self.spec_end(),
    {
        self.end
    }

    pub fn name(&self) -> (r: &String)
        ensures
            r@ == self.spec_name(),
    {
        &self.name
    }
}

/// Devices ordered by address, with ranges that never overlap.
pub struct DeviceMap<T> {
    devices: Vec<Device<T>>,
}

/// `[addr, end)` shares an address with `[a, e)`.
pub open spec fn overlaps(addr: int, end: int, a: int, e: int) -> bool {
    addr < e && a < end
}

impl<T> DeviceMap<T> {
    /// The ranges of the devices, in address order.
    pub closed spec fn ranges(&self) -> Seq<(u64, u64)> {
        self.devices@.map_values(|d: Device<T>| (d.addr, d.end))
    }

    /// The names of the devices, in address order.
    pub closed spec fn names(&self) -> Seq<Seq<char>> {
        self.devices@.map_values(|d: Device<T>| d.name@)
    }

    /// Ranges are non-empty, sorted by address and pairwise disjoint.
    pub open spec fn wf(&self) -> bool {
        &&& forall|i: int| 0 <= i < self.ranges().len() ==> self.ranges()[i].0 < self.ranges()[i].1
        &&& forall|i: int, j: int|
            0 <= i < j < self.ranges().len() ==> self.ranges()[i].1 <= self.ranges()[j].0
    }

    /// Device `i` holds address `a`.
    pub open spec fn holds(&self, i: int, a: u64) -> bool {
        self.ranges()[i].0 <= a < self.ranges()[i].1
    }

    pub fn new() -> (r: Self)
        ensures
            r.wf(),
            r.ranges().len() == 0,
    {
        DeviceMap { devices: Vec::new() }
    }

    pub fn len(&self) -> (r: usize)
        ensures
            r == self.ranges().len(),
            r == self.names().len(),
    {
        self.devices.len()
    }

    /// `[addr, addr + len)` ends within the address space and overlaps no device here.
    pub open spec fn fits(&self, addr: u64, len: u64) -> bool {
        &&& addr + len <= u64::MAX
        &&& forall|i: int|
            0 <= i < self.ranges().len() ==> !overlaps(
                addr as int,
                addr + len,
                self.ranges()[i].0 as int,
                self.ranges()[i].1 as int,
            )
    }

    /// Whether a device may be added at `[addr, addr + len)`.
    pub fn can_insert(&self, addr: u64, len: u64) -> (r: bool)
        ensures
            r == self.fits(addr, len),
    {
        if len > u64::MAX - addr {
            return false;
        }
        let end = addr + len;
        let mut i: usize = 0;
        while i < self.devices.len()
            invariant
                end == addr + len,
                i <= self.ranges().len(),
                forall|j: int|
                    0 <= j < i ==> !overlaps(
                        addr as int,
                        end as int,
                        self.ranges()[j].0 as int,
                        self.ranges()[j].1 as int,
                    ),
            decreases self.ranges().len() - i,
        {
            assert(self.ranges()[i as int] == (self.devices@[i as int].addr, self.devices@[i as int].end));
            if addr < self.devices[i].end && self.devices[i].addr < end {
                return false;
            }
            i = i + 1;
        }
        true
    }

    /// Adds a device at `[addr, addr + len)`, which must fit: an overlapping range, or one
    /// that ends beyond the address space, is a setup error that callers rule out first with
    /// [`Self::can_insert`].
    pub fn insert(&mut self, addr: u64, len: u64, name: String, context: T)
        requires
            old(self).wf(),
            len > 0,
            old(self).fits(addr, len),
        ensures
            final(self).wf(),
            exists|k: int|
                0 <= k <= old(self).ranges().len() && final(self).ranges() == old(
                    self,
                ).ranges().insert(k, (addr, (addr + len) as u64)) && final(self).names()
                    == old(self).names().insert(k, name@),
    {
        let end = addr + len;
        let ghost rs = self.ranges();
        let mut k: usize = 0;
        while k < self.devices.len() && self.devices[k].end <= addr
            invariant
                self.wf(),
                self.ranges() == rs,
                self == old(self),
                k <= rs.len(),
                forall|i: int| 0 <= i < k ==> rs[i].1 <= addr,
            decreases rs.len() - k,
        {
            assert(rs[k as int] == (self.devices@[k as int].addr, self.devices@[k as int].end));
            k = k + 1;
        }
        if k < self.devices.len() {
            assert(rs[k as int] == (self.devices@[k as int].addr, self.devices@[k as int].end));
            assert(!overlaps(addr as int, end as int, rs[k as int].0 as int, rs[k as int].1 as int));
        }
        proof {
            assert forall|i: int| 0 <= i < rs.len() implies !overlaps(
                addr as int,
                end as int,
                rs[i].0 as int,
                rs[i].1 as int,
            ) by {
                if i > k {
                    assert(rs[k as int].1 <= rs[i].0);
                    assert(rs[k as int].0 < rs[k as int].1);
                }
            }
        }
        let ghost old_names = self.names();
        self.devices.insert(k, Device { addr, end, name, context });
        proof {
            assert(self.ranges() =~= rs.insert(k as int, (addr, end)));
            assert(self.names() =~= old_names.insert(k as int, name@));
            let nr = self.ranges();
            assert forall|i: int, j: int| 0 <= i < j < nr.len() implies nr[i].1 <= nr[j].0 by {
                if j < k {
                } else if j == k {
                } else if i < k {
                    assert(nr[j] == rs[j - 1]);
                    if k < rs.len() {
                        assert(rs[k as int].0 <= rs[j - 1].0 || k == j - 1);
                    }
                } else if i == k {
                    assert(nr[j] == rs[j - 1]);
                    assert(rs[k as int].0 <= rs[j - 1].0 || k == j - 1);
                } else {
                    assert(nr[i] == rs[i - 1]);
                    assert(nr[j] == rs[j - 1]);
                }
            }
        }
    }

    /// The device that holds address `a`: the one with the greatest address at or below `a`,
    /// if `a` is below its end.
    pub fn find(&self, a: u64) -> (r: Option<usize>)
        requires
            self.wf(),
        ensures
            match r {
                Some(i) => i < self.ranges().len() && self.holds(i as int, a),
                None => forall|i: int| 0 <= i < self.ranges().len() ==> !self.holds(i, a),
            },
    {
        let ghost rs = self.ranges();
        let mut k: usize = 0;
        let mut found: Option<usize> = None;
        while k < self.devices.len() && self.devices[k].addr <= a
            invariant
                self.wf(),
                rs == self.ranges(),
                k <= rs.len(),
                forall|i: int| 0 <= i < k ==> rs[i].0 <= a,
                match found {
                    Some(i) => i + 1 == k,
                    None => k == 0,
                },
            decreases rs.len() - k,
        {
            assert(rs[k as int] == (self.devices@[k as int].addr, self.devices@[k as int].end));
            found = Some(k);
            k = k + 1;
        }
        if k < self.devices.len() {
            assert(rs[k as int] == (self.devices@[k as int].addr, self.devices@[k as int].end));
        }
        match found {
            None => {
                assert forall|i: int| 0 <= i < rs.len() implies !self.holds(i, a) by {
                    assert(rs[0].0 <= rs[i].0 || i == 0) by {
                        if i > 0 {
                            assert(rs[0].1 <= rs[i].0);
                        }
                    }
                }
                None
            },
            Some(i) => {
                assert(rs[i as int] == (self.devices@[i as int].addr, self.devices@[i as int].end));
                if a < self.devices[i].end {
                    Some(i)
                } else {
                    assert forall|j: int| 0 <= j < rs.len() implies !self.holds(j, a) by {
                        if j > i {
                            assert(rs[j].0 > a || j < k) by {
                                if j >= k && k < rs.len() {
                                    assert(rs[k as int].0 <= rs[j].0 || j == k) by {
                                        if j > k {
                                            assert(rs[k as int].1 <= rs[j].0);
                                        }
                                    }
                                }
                            }
                        }
                    }
                    None
                }
            },
        }
    }

    /// Device `i`.
    pub fn get(&self, i: usize) -> (r: &Device<T>)
        requires
            i < self.ranges().len(),
        ensures
            (r.spec_addr(), r.spec_end()) == self.ranges()[i as int],
            r.spec_name() == self.names()[i as int],
    {
        &self.devices[i]
    }

    /// What the owner keeps for device `i`.
    pub fn context_mut(&mut self, i: usize) -> (r: &mut T)
        requires
            i < old(self).ranges().len(),
        ensures
            final(self).ranges() == old(self).ranges(),
            final(self).names() == old(self).names(),
    {
        &mut self.devices[i].context
    }
}

/// At most one device of a well-formed map holds any address.
pub proof fn lemma_at_most_one_holds<T>(m: &DeviceMap<T>, a: u64, i: int, j: int)
    requires
        m.wf(),
        0 <= i < m.ranges().len(),
        0 <= j < m.ranges().len(),
        m.holds(i, a),
        m.holds(j, a),
    ensures
        i == j,
{
    if i < j {
        assert(m.ranges()[i].1 <= m.ranges()[j].0);
    } else if j < i {
        assert(m.ranges()[j].1 <= m.ranges()[i].0);
    }
}

/// Where a device of the machine is mapped.
#[derive(Debug, Clone, Copy, PartialEq, Eq, Structural)]
pub struct DeviceDesc {
    pub addr: u64,
    pub len: u64,
}

/// The devices of the machine: the console, the VMM control device and, when a debugger is
/// attached, the debug stub.
#[derive(Debug, Clone, Copy, PartialEq, Eq, Structural)]
pub struct DeviceTree {
    pub console: DeviceDesc,
    pub vmm: DeviceDesc,
    pub debugger: Option<DeviceDesc>,
}

impl DeviceTree {
    /// The devices one block each right above guest RAM.
    pub open spec fn spec_new(ram_size: u64, block_size: u64, debug: bool) -> DeviceTree {
        DeviceTree {
            console: DeviceDesc { addr: ram_size, len: block_size },
            vmm: DeviceDesc { addr: (ram_size + block_size) as u64, len: block_size },
            debugger: if debug {
                Some(DeviceDesc { addr: (ram_size + 2 * block_size) as u64, len: block_size })
            } else {
                None
            },
        }
    }

    /// Places the devices one block each right above guest RAM: the console first, then the
    /// VMM control device, then the debug stub.
    pub fn new(ram_size: u64, block_size: u64, debug: bool) -> (r: Self)
        requires
            block_size > 0,
            ram_size + 3 * block_size <= u64::MAX,
        ensures
            r == Self::spec_new(ram_size, block_size, debug),
            r.console == (DeviceDesc { addr: ram_size, len: block_size }),
            r.vmm == (DeviceDesc { addr: (ram_size + block_size) as u64, len: block_size }),
            r.debugger == if debug {
                Some(DeviceDesc { addr: (ram_size + 2 * block_size) as u64, len: block_size })
            } else {
                None
            },
    {
        let console = DeviceDesc { addr: ram_size, len: block_size };
        let vmm = DeviceDesc { addr: ram_size + block_size, len: block_size };
        let debugger = if debug {
            Some(DeviceDesc { addr: ram_size + 2 * block_size, len: block_size })
        } else {
            None
        };
        DeviceTree { console, vmm, debugger }
    }
}

} // verus!
