use vstd::prelude::*;

verus! {

/// Error number of an invalid argument.
pub const EINVAL: i32 = 22;

/// Direct memory container of a process.
#[derive(Debug, Clone, Copy, PartialEq, Eq, Structural)]
pub enum DmemContainer {
    Zero,
    One,
    Two,
}

impl DmemContainer {
    /// The container with raw number `v`; any other number is `EINVAL`.
    pub fn try_from_raw(v: i32) -> (r: Result<Self, i32>)
        ensures
            r == match v {
                0 => Ok(DmemContainer::Zero),
                1 => Ok(DmemContainer::One),
                2 => Ok(DmemContainer::Two),
                _ => Err::<DmemContainer, i32>(EINVAL),
            },
    {
        match v {
            0 => Ok(DmemContainer::Zero),
            1 => Ok(DmemContainer::One),
            2 => Ok(DmemContainer::Two),
            _ => Err(EINVAL),
        }
    }
}

/// Why a direct memory request was refused.
#[derive(Debug, Clone, Copy, PartialEq, Eq, Structural)]
pub enum IoctlErr {
    InsufficientCredentials,
}

/// The direct memory device of one container.
#[derive(Debug)]
pub struct Dmem {
    total_size: usize,
    container: DmemContainer,
}

/// What the caller of a direct memory request is.
#[derive(Debug, Clone, Copy, PartialEq, Eq, Structural)]
pub struct Caller {
    pub unk1: bool,
    pub unk2: bool,
    pub system: bool,
    /// Container of the caller's process.
    pub container: DmemContainer,
}

impl Dmem {
    pub closed spec fn spec_total_size(&self) -> usize {
        self.total_size
    }

    pub closed spec fn spec_container(&self) -> DmemContainer {
        self.container
    }

    pub fn new(total_size: usize, container: DmemContainer) -> (r: Self)
        ensures
            r.spec_total_size() == total_size,
            r.spec_container() == container,
    {
        Dmem { total_size, container }
    }

    /// Memory size that the device reports.
    pub fn total_size(&self) -> (r: usize)
        ensures
            r == self.spec_total_size(),
    {
        self.total_size
    }

    /// A caller may use the device unless its credentials carry either restricting flag, or
    /// the device belongs to another container than the caller's (container two is shared)
    /// and the caller is not a system process.
    pub fn check_access(&self, c: &Caller) -> (r: Result<(), IoctlErr>)
        ensures
            r is Ok <==> !c.unk1 && !c.unk2 && (self.spec_container() == DmemContainer::Two
                || self.spec_container() == c.container || c.system),
    {
        if c.unk1 || c.unk2 {
            return Err(IoctlErr::InsufficientCredentials);
        }
        if self.container != DmemContainer::Two && self.container != c.container && !c.system {
            return Err(IoctlErr::InsufficientCredentials);
        }
        Ok(())
    }
}

/// Argument of the request for a process's aperture.
#[derive(Debug)]
pub struct PrtAperture {
    pub addr: usize,
    pub len: usize,
    pub id: i64,
}

/// Argument of the request for available direct memory.
#[derive(Debug)]
pub struct DmemAvailable {
    pub start_or_phys_out: usize,
    pub end: usize,
    pub align: usize,
    pub size_out: usize,
}

/// Argument of the request to allocate direct memory.
#[derive(Debug)]
pub struct DmemAllocate {
    pub start_or_phys_out: usize,
    pub end: usize,
    pub len: usize,
    pub align: usize,
    pub mem_type: i32,
}

/// Argument of the request to query direct memory.
#[derive(Debug)]
pub struct DmemQuery {
    pub dmem_container: i32,
    pub flags: i32,
    pub unk: usize,
    pub phys_addr: usize,
    pub info_out: usize,
    pub info_size: usize,
}

} // verus!
