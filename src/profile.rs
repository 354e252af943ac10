use vstd::prelude::*;

verus! {

/// Resolution of the guest display.
#[derive(Debug, Clone, Copy, PartialEq, Eq, Structural)]
pub enum DisplayResolution {
    /// 1280 × 720.
    Hd,
    /// 1920 × 1080.
    FullHd,
    /// 3840 × 2160.
    UltraHd,
}

/// A graphics device of the host, as the profile editor lists it.
#[derive(Debug, Clone, PartialEq, Eq)]
pub struct PhysicalDevice {
    pub id: Vec<u8>,
    pub name: String,
}

/// Why a profile could not be updated from the editor.
#[derive(Debug, Clone, Copy, PartialEq, Eq, Structural)]
pub enum ProfileError {
    InvalidDebugAddress,
}

fn bytes_eq(a: &[u8], b: &[u8]) -> (r: bool)
    ensures
        r == (a@ == b@),
{
    if a.len() != b.len() {
        return false;
    }
    let mut i: usize = 0;
    while i < a.len()
        invariant
            a@.len() == b@.len(),
            i <= a@.len(),
            forall|k: int| 0 <= k < i ==> a@[k] == b@[k],
        decreases a@.len() - i,
    {
        if a[i] != b[i] {
            return false;
        }
        i = i + 1;
    }
    assert(a@ =~= b@);
    true
}

/// The list of host graphics devices that the profile editor offers.
pub struct DeviceModel {
    devices: Vec<PhysicalDevice>,
}

impl DeviceModel {
    /// Ids of the devices, in list order.
    pub closed spec fn ids(&self) -> Seq<Seq<u8>> {
        self.devices@.map_values(|d: PhysicalDevice| d.id@)
    }

    pub closed spec fn devices(&self) -> Seq<PhysicalDevice> {
        self.devices@
    }

    /// Rows are numbered by `i32`.
    pub open spec fn wf(&self) -> bool {
        self.devices().len() <= i32::MAX
    }

    pub fn new(devices: Vec<PhysicalDevice>) -> (r: Self)
        requires
            devices@.len() <= i32::MAX,
        ensures
            r.wf(),
            r.devices() == devices@,
    {
        DeviceModel { devices }
    }

    /// Row of the first device with id `id`.
    pub fn position(&self, id: &[u8]) -> (r: Option<i32>)
        requires
            self.wf(),
        ensures
            match r {
                Some(i) => 0 <= i < self.devices().len() && self.devices()[i as int].id@ == id@
                    && forall|k: int| 0 <= k < i ==> self.devices()[k].id@ != id@,
                None => forall|k: int| 0 <= k < self.devices().len() ==> self.devices()[k].id@ != id@,
            },
    {
        let mut i: usize = 0;
        while i < self.devices.len()
            invariant
                self.wf(),
                i <= self.devices@.len(),
                forall|k: int| 0 <= k < i ==> self.devices@[k].id@ != id@,
            decreases self.devices@.len() - i,
        {
            if bytes_eq(self.devices[i].id.as_slice(), id) {
                return Some(i as i32);
            }
            i = i + 1;
        }
        None
    }

    /// Device at row `i`.
    pub fn get(&self, i: i32) -> (r: Option<&PhysicalDevice>)
        ensures
            match r {
                Some(d) => 0 <= i < self.devices().len() && *d == self.devices()[i as int],
                None => i < 0 || i >= self.devices().len(),
            },
    {
        if i < 0 || i as usize >= self.devices.len() {
            None
        } else {
            Some(&self.devices[i as usize])
        }
    }

    pub fn row_count(&self) -> (r: usize)
        ensures
            r == self.devices().len(),
    {
        self.devices.len()
    }
}

/// The display resolutions that the profile editor offers.
pub struct ResolutionModel {
    items: [DisplayResolution; 3],
}

/// The resolutions, in row order.
pub open spec fn resolutions() -> Seq<DisplayResolution> {
    seq![DisplayResolution::Hd, DisplayResolution::FullHd, DisplayResolution::UltraHd]
}

impl ResolutionModel {
    pub closed spec fn items(&self) -> Seq<DisplayResolution> {
        self.items@
    }

    pub fn new() -> (r: Self)
        ensures
            r.items() == resolutions(),
    {
        let r = ResolutionModel {
            items: [DisplayResolution::Hd, DisplayResolution::FullHd, DisplayResolution::UltraHd],
        };
        assert(r.items@ =~= resolutions());
        r
    }

    /// Row of resolution `v`.
    pub fn position(&self, v: DisplayResolution) -> (r: Option<i32>)
        ensures
            match r {
                Some(i) => 0 <= i < self.items().len() && self.items()[i as int] == v && forall|
                    k: int,
                | 0 <= k < i ==> self.items()[k] != v,
                None => !self.items().contains(v),
            },
    {
        let mut i: usize = 0;
        while i < 3
            invariant
                i <= 3,
                self.items@.len() == 3,
                forall|k: int| 0 <= k < i ==> self.items@[k] != v,
            decreases 3 - i,
        {
            if self.items[i] == v {
                return Some(i as i32);
            }
            i = i + 1;
        }
        None
    }

    /// Resolution at row `i`.
    pub fn get(&self, i: i32) -> (r: Option<DisplayResolution>)
        ensures
            match r {
                Some(v) => 0 <= i < self.items().len() && v == self.items()[i as int],
                None => i < 0 || i >= self.items().len(),
            },
    {
        if i < 0 || i >= 3 {
            None
        } else {
            Some(self.items[i as usize])
        }
    }

    pub fn row_count(&self) -> (r: usize)
        ensures
            r == self.items().len(),
    {
        3
    }
}

impl Default for ResolutionModel {
    fn default() -> (r: Self)
        ensures
            r.items() == resolutions(),
    {
        ResolutionModel::new()
    }
}

} // verus!
