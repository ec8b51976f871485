//! Device categories and the registry of devices a server exposes, numbered per category.

use vstd::prelude::*;
use crate::text::{ascii_lowercase, same_text};

verus! {

/// The categories of Alpaca devices.
#[derive(Debug, PartialEq, Eq, Clone, Copy, Structural)]
pub enum DeviceType {
    /// A camera.
    Camera,
    /// A cover and/or flat-field calibrator.
    CoverCalibrator,
    /// A dome.
    Dome,
    /// A filter wheel.
    FilterWheel,
    /// A focuser.
    Focuser,
    /// A weather station.
    ObservingConditions,
    /// A rotator.
    Rotator,
    /// A safety monitor.
    SafetyMonitor,
    /// A switch bank.
    Switch,
    /// A telescope mount.
    Telescope,
}

/// Every device category, in declaration order.
pub open spec fn all_device_types() -> Seq<DeviceType> {
    seq![
        DeviceType::Camera,
        DeviceType::CoverCalibrator,
        DeviceType::Dome,
        DeviceType::FilterWheel,
        DeviceType::Focuser,
        DeviceType::ObservingConditions,
        DeviceType::Rotator,
        DeviceType::SafetyMonitor,
        DeviceType::Switch,
        DeviceType::Telescope,
    ]
}

impl DeviceType {
    /// The category's name as used in lists of configured devices (`"Camera"`).
    pub open spec fn spec_name(self) -> Seq<char> {
        match self {
            DeviceType::Camera => "Camera"@,
            DeviceType::CoverCalibrator => "CoverCalibrator"@,
            DeviceType::Dome => "Dome"@,
            DeviceType::FilterWheel => "FilterWheel"@,
            DeviceType::Focuser => "Focuser"@,
            DeviceType::ObservingConditions => "ObservingConditions"@,
            DeviceType::Rotator => "Rotator"@,
            DeviceType::SafetyMonitor => "SafetyMonitor"@,
            DeviceType::Switch => "Switch"@,
            DeviceType::Telescope => "Telescope"@,
        }
    }

    /// The category's segment in request paths (`"camera"`).
    pub open spec fn spec_path(self) -> Seq<char> {
        match self {
            DeviceType::Camera => "camera"@,
            DeviceType::CoverCalibrator => "covercalibrator"@,
            DeviceType::Dome => "dome"@,
            DeviceType::FilterWheel => "filterwheel"@,
            DeviceType::Focuser => "focuser"@,
            DeviceType::ObservingConditions => "observingconditions"@,
            DeviceType::Rotator => "rotator"@,
            DeviceType::SafetyMonitor => "safetymonitor"@,
            DeviceType::Switch => "switch"@,
            DeviceType::Telescope => "telescope"@,
        }
    }

    /// The category's name as used in lists of configured devices.
    pub fn as_str(self) -> (r: &'static str)
        ensures
            r@ == self.spec_name(),
    {
        match self {
            DeviceType::Camera => "Camera",
            DeviceType::CoverCalibrator => "CoverCalibrator",
            DeviceType::Dome => "Dome",
            DeviceType::FilterWheel => "FilterWheel",
            DeviceType::Focuser => "Focuser",
            DeviceType::ObservingConditions => "ObservingConditions",
            DeviceType::Rotator => "Rotator",
            DeviceType::SafetyMonitor => "SafetyMonitor",
            DeviceType::Switch => "Switch",
            DeviceType::Telescope => "Telescope",
        }
    }

    /// The category's segment in request paths.
    pub fn path(self) -> (r: &'static str)
        ensures
            r@ == self.spec_path(),
    {
        match self {
            DeviceType::Camera => "camera",
            DeviceType::CoverCalibrator => "covercalibrator",
            DeviceType::Dome => "dome",
            DeviceType::FilterWheel => "filterwheel",
            DeviceType::Focuser => "focuser",
            DeviceType::ObservingConditions => "observingconditions",
            DeviceType::Rotator => "rotator",
            DeviceType::SafetyMonitor => "safetymonitor",
            DeviceType::Switch => "switch",
            DeviceType::Telescope => "telescope",
        }
    }

    /// The position of the category in declaration order.
    pub open spec fn spec_index(self) -> int {
        match self {
            DeviceType::Camera => 0,
            DeviceType::CoverCalibrator => 1,
            DeviceType::Dome => 2,
            DeviceType::FilterWheel => 3,
            DeviceType::Focuser => 4,
            DeviceType::ObservingConditions => 5,
            DeviceType::Rotator => 6,
            DeviceType::SafetyMonitor => 7,
            DeviceType::Switch => 8,
            DeviceType::Telescope => 9,
        }
    }

    fn at_index(i: usize) -> (r: DeviceType)
        requires
            i < 10,
        ensures
            r == all_device_types()[i as int],
            r.spec_index() == i,
    {
        if i == 0 {
            DeviceType::Camera
        } else if i == 1 {
            DeviceType::CoverCalibrator
        } else if i == 2 {
            DeviceType::Dome
        } else if i == 3 {
            DeviceType::FilterWheel
        } else if i == 4 {
            DeviceType::Focuser
        } else if i == 5 {
            DeviceType::ObservingConditions
        } else if i == 6 {
            DeviceType::Rotator
        } else if i == 7 {
            DeviceType::SafetyMonitor
        } else if i == 8 {
            DeviceType::Switch
        } else {
            DeviceType::Telescope
        }
    }

    /// The category whose request-path segment is `path`, if any.
    pub fn from_path(path: &str) -> (r: Option<DeviceType>)
        ensures
            r matches Some(t) ==> t.spec_path() == path@,
            r is None ==> forall|t: DeviceType| t.spec_path() != path@,
    {
        let mut i: usize = 0;
        while i < 10
            invariant
                i <= 10,
                forall|j: int| 0 <= j < i ==> all_device_types()[j].spec_path() != path@,
            decreases 10 - i,
        {
            let t = DeviceType::at_index(i);
            if same_text(t.path(), path) {
                return Some(t);
            }
            i = i + 1;
        }
        proof {
            assert forall|t: DeviceType| t.spec_path() != path@ by {
                assert(all_device_types()[t.spec_index()] == t);
            }
        }
        None
    }

    /// The category named `name` in a list of configured devices; a name of no known
    /// category is handed back as the error.
    pub fn from_name(name: String) -> (r: Result<DeviceType, String>)
        ensures
            r matches Ok(t) ==> t.spec_name() == name@,
            r matches Err(s) ==> s@ == name@ && forall|t: DeviceType| t.spec_name() != name@,
    {
        let mut i: usize = 0;
        while i < 10
            invariant
                i <= 10,
                forall|j: int| 0 <= j < i ==> all_device_types()[j].spec_name() != name@,
            decreases 10 - i,
        {
            let t = DeviceType::at_index(i);
            if same_text(t.as_str(), name.as_str()) {
                return Ok(t);
            }
            i = i + 1;
        }
        proof {
            assert forall|t: DeviceType| t.spec_name() != name@ by {
                assert(all_device_types()[t.spec_index()] == t);
            }
        }
        Err(name)
    }
}

/// The device that `devices[number]` holds, if `number` is in range.
pub open spec fn entry_at<D>(devices: Seq<D>, number: int) -> Option<D> {
    if 0 <= number < devices.len() {
        Some(devices[number])
    } else {
        None
    }
}

/// A request names a device number that no device of the category has.
#[derive(Debug, Clone, Copy, PartialEq, Eq, Structural)]
pub struct UnknownDevice {
    /// The category asked for.
    pub ty: DeviceType,
    /// The device number asked for.
    pub device_number: usize,
}

/// The registered devices of a server, a list per category; a device is addressed by its
/// category and its position within that category's list (its device number).
pub struct Devices<D> {
    camera: Vec<D>,
    cover_calibrator: Vec<D>,
    dome: Vec<D>,
    filter_wheel: Vec<D>,
    focuser: Vec<D>,
    observing_conditions: Vec<D>,
    rotator: Vec<D>,
    safety_monitor: Vec<D>,
    switch: Vec<D>,
    telescope: Vec<D>,
}

impl<D> Devices<D> {
    /// The devices registered under `ty`, in order of registration.
    pub closed spec fn devices_of(&self, ty: DeviceType) -> Seq<D> {
        match ty {
            DeviceType::Camera => self.camera@,
            DeviceType::CoverCalibrator => self.cover_calibrator@,
            DeviceType::Dome => self.dome@,
            DeviceType::FilterWheel => self.filter_wheel@,
            DeviceType::Focuser => self.focuser@,
            DeviceType::ObservingConditions => self.observing_conditions@,
            DeviceType::Rotator => self.rotator@,
            DeviceType::SafetyMonitor => self.safety_monitor@,
            DeviceType::Switch => self.switch@,
            DeviceType::Telescope => self.telescope@,
        }
    }

    /// An empty collection of devices.
    pub fn default() -> (r: Self)
        ensures
            forall|ty: DeviceType| r.devices_of(ty).len() == 0,
    {
        Devices {
            camera: Vec::new(),
            cover_calibrator: Vec::new(),
            dome: Vec::new(),
            filter_wheel: Vec::new(),
            focuser: Vec::new(),
            observing_conditions: Vec::new(),
            rotator: Vec::new(),
            safety_monitor: Vec::new(),
            switch: Vec::new(),
            telescope: Vec::new(),
        }
    }

    /// Registers `device` as the next device of category `ty` and returns its device number.
    pub fn register(&mut self, ty: DeviceType, device: D) -> (number: usize)
        ensures
            number == old(self).devices_of(ty).len(),
            final(self).devices_of(ty) == old(self).devices_of(ty).push(device),
            forall|other: DeviceType|
                other != ty ==> #[trigger] final(self).devices_of(other) == old(self).devices_of(
                    other,
                ),
    {
        let list = match ty {
            DeviceType::Camera => &mut self.camera,
            DeviceType::CoverCalibrator => &mut self.cover_calibrator,
            DeviceType::Dome => &mut self.dome,
            DeviceType::FilterWheel => &mut self.filter_wheel,
            DeviceType::Focuser => &mut self.focuser,
            DeviceType::ObservingConditions => &mut self.observing_conditions,
            DeviceType::Rotator => &mut self.rotator,
            DeviceType::SafetyMonitor => &mut self.safety_monitor,
            DeviceType::Switch => &mut self.switch,
            DeviceType::Telescope => &mut self.telescope,
        };
        let number = list.len();
        list.push(device);
        number
    }

    /// The devices registered under `ty`, in order of registration.
    pub fn iter(&self, ty: DeviceType) -> (r: &[D])
        ensures
            r@ == self.devices_of(ty),
    {
        match ty {
            DeviceType::Camera => self.camera.as_slice(),
            DeviceType::CoverCalibrator => self.cover_calibrator.as_slice(),
            DeviceType::Dome => self.dome.as_slice(),
            DeviceType::FilterWheel => self.filter_wheel.as_slice(),
            DeviceType::Focuser => self.focuser.as_slice(),
            DeviceType::ObservingConditions => self.observing_conditions.as_slice(),
            DeviceType::Rotator => self.rotator.as_slice(),
            DeviceType::SafetyMonitor => self.safety_monitor.as_slice(),
            DeviceType::Switch => self.switch.as_slice(),
            DeviceType::Telescope => self.telescope.as_slice(),
        }
    }

    /// The device with number `device_number` in category `ty`, or the error a server
    /// answers a request for a device that is not there.
    pub fn get_for_server(&self, ty: DeviceType, device_number: usize) -> (r: Result<&D, UnknownDevice>)
        ensures
            r matches Ok(d) ==> entry_at(self.devices_of(ty), device_number as int) == Some(*d),
            r matches Err(e) ==> e == (UnknownDevice { ty, device_number }) && entry_at(
                self.devices_of(ty),
                device_number as int,
            ) is None,
            r is Ok <==> entry_at(self.devices_of(ty), device_number as int) is Some,
    {
        match self.get(ty, device_number) {
            Some(d) => Ok(d),
            None => Err(UnknownDevice { ty, device_number }),
        }
    }

    /// The device with number `device_number` in category `ty`, if there is one.
    pub fn get(&self, ty: DeviceType, device_number: usize) -> (r: Option<&D>)
        ensures
            r matches Some(d) ==> entry_at(self.devices_of(ty), device_number as int) == Some(*d),
            r is None <==> entry_at(self.devices_of(ty), device_number as int) is None,
    {
        let list = self.iter(ty);
        if device_number < list.len() {
            Some(&list[device_number])
        } else {
            None
        }
    }
}

/// After a device is registered, reading the number that registration handed out gives
/// that device back, and every other category and number reads as before.
pub proof fn lemma_get_after_register<D>(
    before: Devices<D>,
    ty: DeviceType,
    device: D,
    after: Devices<D>,
)
    requires
        after.devices_of(ty) == before.devices_of(ty).push(device),
        forall|other: DeviceType|
            other != ty ==> #[trigger] after.devices_of(other) == before.devices_of(other),
    ensures
        forall|t: DeviceType, n: int|
            #[trigger] entry_at(after.devices_of(t), n) == if t == ty && n == before.devices_of(
                ty,
            ).len() {
                Some(device)
            } else {
                entry_at(before.devices_of(t), n)
            },
{
    assert forall|t: DeviceType, n: int|
        #[trigger] entry_at(after.devices_of(t), n) == if t == ty && n == before.devices_of(
            ty,
        ).len() {
            Some(device)
        } else {
            entry_at(before.devices_of(t), n)
        } by {
        if t != ty {
            assert(after.devices_of(t) == before.devices_of(t));
        }
    }
}

/// The (category, device number) of every registered device: categories in declaration
/// order, and within a category in order of registration.
pub open spec fn entries_upto<D>(devices: Devices<D>, k: nat) -> Seq<(DeviceType, usize)>
    decreases k,
{
    if k == 0 {
        Seq::empty()
    } else {
        let ty = all_device_types()[k - 1];
        entries_upto(devices, (k - 1) as nat) + Seq::new(
            devices.devices_of(ty).len(),
            |i: int| (ty, i as usize),
        )
    }
}

impl<D> Devices<D> {
    /// The (category, device number) of every registered device: categories in
    /// declaration order, and within a category in order of registration.
    pub fn iter_all(&self) -> (r: Vec<(DeviceType, usize)>)
        ensures
            r@ == entries_upto(*self, 10),
    {
        let mut out: Vec<(DeviceType, usize)> = Vec::new();
        let mut k: usize = 0;
        while k < 10
            invariant
                k <= 10,
                out@ == entries_upto(*self, k as nat),
            decreases 10 - k,
        {
            let ty = DeviceType::at_index(k);
            let n = self.iter(ty).len();
            let ghost start = out@;
            let mut i: usize = 0;
            while i < n
                invariant
                    i <= n,
                    n == self.devices_of(ty).len(),
                    out@ == start + Seq::new(i as nat, |j: int| (ty, j as usize)),
                decreases n - i,
            {
                out.push((ty, i));
                i = i + 1;
                assert(out@ =~= start + Seq::new(i as nat, |j: int| (ty, j as usize)));
            }
            proof {
                assert(all_device_types()[k as int] == ty);
                assert(entries_upto(*self, (k + 1) as nat) == start + Seq::new(
                    n as nat,
                    |j: int| (ty, j as usize),
                ));
            }
            k = k + 1;
        }
        out
    }
}

/// Whether `after` is `before` with `device` registered as the next device of category
/// `ty`, every other category unchanged.
pub open spec fn registered<D>(before: Devices<D>, ty: DeviceType, device: D, after: Devices<D>) -> bool {
    &&& after.devices_of(ty) == before.devices_of(ty).push(device)
    &&& forall|other: DeviceType|
        other != ty ==> #[trigger] after.devices_of(other) == before.devices_of(other)
}

/// The devices of category `ty` among the (category, device) pairs `items`, in order.
pub open spec fn devices_of_type<D>(items: Seq<(DeviceType, D)>, ty: DeviceType) -> Seq<D>
    decreases items.len(),
{
    if items.len() == 0 {
        Seq::empty()
    } else {
        let rest = devices_of_type(items.drop_last(), ty);
        if items.last().0 == ty {
            rest.push(items.last().1)
        } else {
            rest
        }
    }
}

proof fn lemma_builder_prefix<D>(states: Seq<Devices<D>>, items: Seq<(DeviceType, D)>, k: int)
    requires
        states.len() == items.len() + 1,
        0 <= k <= items.len(),
        forall|t: DeviceType| #[trigger] states[0].devices_of(t).len() == 0,
        forall|j: int| 0 <= j < items.len() ==> registered(states[j], items[j].0, items[j].1, #[trigger] states[j + 1]),
    ensures
        forall|t: DeviceType| #[trigger] states[k].devices_of(t) == devices_of_type(items.take(k), t),
    decreases k,
{
    if k == 0 {
        assert forall|t: DeviceType| #[trigger] states[0].devices_of(t) == devices_of_type(items.take(0), t) by {
            assert(states[0].devices_of(t) =~= Seq::<D>::empty());
        }
    } else {
        lemma_builder_prefix(states, items, k - 1);
        let prefix = items.take(k);
        assert(prefix.drop_last() =~= items.take(k - 1));
        assert(prefix.last() == items[k - 1]);
        let j = k - 1;
        assert(registered(states[j], items[j].0, items[j].1, states[j + 1]));
        assert(j + 1 == k);
        assert forall|t: DeviceType| #[trigger] states[k].devices_of(t) == devices_of_type(prefix, t) by {
            assert(states[k - 1].devices_of(t) == devices_of_type(items.take(k - 1), t));
        }
    }
}

/// After any sequence of `with` calls on a new builder, the devices of each category are
/// the devices added with that category, in call order: device number `i` of a category
/// is the `i`-th device added with it, and there is none past the last one.
pub proof fn lemma_builder_sequence<D>(states: Seq<Devices<D>>, items: Seq<(DeviceType, D)>)
    requires
        states.len() == items.len() + 1,
        forall|t: DeviceType| #[trigger] states[0].devices_of(t).len() == 0,
        forall|j: int| 0 <= j < items.len() ==> registered(states[j], items[j].0, items[j].1, #[trigger] states[j + 1]),
    ensures
        forall|t: DeviceType, n: int|
            #[trigger] entry_at(states.last().devices_of(t), n) == entry_at(devices_of_type(items, t), n),
{
    lemma_builder_prefix(states, items, items.len() as int);
    assert(items.take(items.len() as int) =~= items);
}

/// Collects devices one at a time, numbering each within its category.
pub struct DevicesBuilder<D> {
    devices: Devices<D>,
}

impl<D> DevicesBuilder<D> {
    /// The devices collected so far.
    pub closed spec fn collected(self) -> Devices<D> {
        self.devices
    }

    /// A builder holding no device yet.
    pub fn new() -> (r: Self)
        ensures
            forall|ty: DeviceType| r.collected().devices_of(ty).len() == 0,
    {
        DevicesBuilder { devices: Devices::default() }
    }

    /// The builder with `device` added as the next device of category `ty`.
    pub fn with(self, ty: DeviceType, device: D) -> (r: Self)
        ensures
            registered(self.collected(), ty, device, r.collected()),
    {
        let mut devices = self.devices;
        let _ = devices.register(ty, device);
        DevicesBuilder { devices }
    }

    /// The collected devices.
    pub fn finish(self) -> (r: Devices<D>)
        ensures
            r == self.collected(),
    {
        self.devices
    }
}

proof fn lemma_path_key(t: DeviceType)
    ensures
        t.spec_path().len() == match t {
            DeviceType::Camera => 6nat,
            DeviceType::CoverCalibrator => 15,
            DeviceType::Dome => 4,
            DeviceType::FilterWheel => 11,
            DeviceType::Focuser => 7,
            DeviceType::ObservingConditions => 19,
            DeviceType::Rotator => 7,
            DeviceType::SafetyMonitor => 13,
            DeviceType::Switch => 6,
            DeviceType::Telescope => 9,
        },
        t.spec_path()[0] == match t {
            DeviceType::Camera => 'c',
            DeviceType::CoverCalibrator => 'c',
            DeviceType::Dome => 'd',
            DeviceType::FilterWheel => 'f',
            DeviceType::Focuser => 'f',
            DeviceType::ObservingConditions => 'o',
            DeviceType::Rotator => 'r',
            DeviceType::SafetyMonitor => 's',
            DeviceType::Switch => 's',
            DeviceType::Telescope => 't',
        },
{
    match t {
        DeviceType::Camera => reveal_strlit("camera"),
        DeviceType::CoverCalibrator => reveal_strlit("covercalibrator"),
        DeviceType::Dome => reveal_strlit("dome"),
        DeviceType::FilterWheel => reveal_strlit("filterwheel"),
        DeviceType::Focuser => reveal_strlit("focuser"),
        DeviceType::ObservingConditions => reveal_strlit("observingconditions"),
        DeviceType::Rotator => reveal_strlit("rotator"),
        DeviceType::SafetyMonitor => reveal_strlit("safetymonitor"),
        DeviceType::Switch => reveal_strlit("switch"),
        DeviceType::Telescope => reveal_strlit("telescope"),
    }
}

/// No two categories share a request-path segment, so reading a category's path back
/// gives the category.
pub proof fn lemma_path_round_trip(t: DeviceType, u: DeviceType)
    requires
        u.spec_path() == t.spec_path(),
    ensures
        u == t,
{
    lemma_path_key(t);
    lemma_path_key(u);
}

proof fn lemma_name_key(t: DeviceType)
    ensures
        t.spec_name().len() == match t {
            DeviceType::Camera => 6nat,
            DeviceType::CoverCalibrator => 15,
            DeviceType::Dome => 4,
            DeviceType::FilterWheel => 11,
            DeviceType::Focuser => 7,
            DeviceType::ObservingConditions => 19,
            DeviceType::Rotator => 7,
            DeviceType::SafetyMonitor => 13,
            DeviceType::Switch => 6,
            DeviceType::Telescope => 9,
        },
        t.spec_name()[0] == match t {
            DeviceType::Camera => 'C',
            DeviceType::CoverCalibrator => 'C',
            DeviceType::Dome => 'D',
            DeviceType::FilterWheel => 'F',
            DeviceType::Focuser => 'F',
            DeviceType::ObservingConditions => 'O',
            DeviceType::Rotator => 'R',
            DeviceType::SafetyMonitor => 'S',
            DeviceType::Switch => 'S',
            DeviceType::Telescope => 'T',
        },
{
    match t {
        DeviceType::Camera => reveal_strlit("Camera"),
        DeviceType::CoverCalibrator => reveal_strlit("CoverCalibrator"),
        DeviceType::Dome => reveal_strlit("Dome"),
        DeviceType::FilterWheel => reveal_strlit("FilterWheel"),
        DeviceType::Focuser => reveal_strlit("Focuser"),
        DeviceType::ObservingConditions => reveal_strlit("ObservingConditions"),
        DeviceType::Rotator => reveal_strlit("Rotator"),
        DeviceType::SafetyMonitor => reveal_strlit("SafetyMonitor"),
        DeviceType::Switch => reveal_strlit("Switch"),
        DeviceType::Telescope => reveal_strlit("Telescope"),
    }
}

/// No two categories share a name, so reading a category's name back gives the category.
pub proof fn lemma_name_round_trip(t: DeviceType, u: DeviceType)
    requires
        u.spec_name() == t.spec_name(),
    ensures
        u == t,
{
    lemma_name_key(t);
    lemma_name_key(u);
}

/// A category's segment in request paths is its name with every letter in lower case
/// (`CoverCalibrator` is found under `covercalibrator`), and no two categories share a segment.
pub proof fn lemma_path_is_lowercase_name(t: DeviceType, u: DeviceType)
    ensures
        t.spec_path() == ascii_lowercase(t.spec_name()),
        t.spec_path() == u.spec_path() ==> t == u,
{
    if t.spec_path() == u.spec_path() {
        lemma_path_round_trip(t, u);
    }
    match t {
        DeviceType::Camera => {
            reveal_strlit("Camera");
            reveal_strlit("camera");
            assert(ascii_lowercase("Camera"@) =~= "camera"@);
        },
        DeviceType::CoverCalibrator => {
            reveal_strlit("CoverCalibrator");
            reveal_strlit("covercalibrator");
            assert(ascii_lowercase("CoverCalibrator"@) =~= "covercalibrator"@);
        },
        DeviceType::Dome => {
            reveal_strlit("Dome");
            reveal_strlit("dome");
            assert(ascii_lowercase("Dome"@) =~= "dome"@);
        },
        DeviceType::FilterWheel => {
            reveal_strlit("FilterWheel");
            reveal_strlit("filterwheel");
            assert(ascii_lowercase("FilterWheel"@) =~= "filterwheel"@);
        },
        DeviceType::Focuser => {
            reveal_strlit("Focuser");
            reveal_strlit("focuser");
            assert(ascii_lowercase("Focuser"@) =~= "focuser"@);
        },
        DeviceType::ObservingConditions => {
            reveal_strlit("ObservingConditions");
            reveal_strlit("observingconditions");
            assert(ascii_lowercase("ObservingConditions"@) =~= "observingconditions"@);
        },
        DeviceType::Rotator => {
            reveal_strlit("Rotator");
            reveal_strlit("rotator");
            assert(ascii_lowercase("Rotator"@) =~= "rotator"@);
        },
        DeviceType::SafetyMonitor => {
            reveal_strlit("SafetyMonitor");
            reveal_strlit("safetymonitor");
            assert(ascii_lowercase("SafetyMonitor"@) =~= "safetymonitor"@);
        },
        DeviceType::Switch => {
            reveal_strlit("Switch");
            reveal_strlit("switch");
            assert(ascii_lowercase("Switch"@) =~= "switch"@);
        },
        DeviceType::Telescope => {
            reveal_strlit("Telescope");
            reveal_strlit("telescope");
            assert(ascii_lowercase("Telescope"@) =~= "telescope"@);
        },
    }
}

/// The names of the device categories, as the Alpaca protocol spells them in lists of
/// configured devices.
pub proof fn lemma_device_type_names()
    ensures
        DeviceType::Camera.spec_name() == "Camera"@,
        DeviceType::CoverCalibrator.spec_name() == "CoverCalibrator"@,
        DeviceType::Dome.spec_name() == "Dome"@,
        DeviceType::FilterWheel.spec_name() == "FilterWheel"@,
        DeviceType::Focuser.spec_name() == "Focuser"@,
        DeviceType::ObservingConditions.spec_name() == "ObservingConditions"@,
        DeviceType::Rotator.spec_name() == "Rotator"@,
        DeviceType::SafetyMonitor.spec_name() == "SafetyMonitor"@,
        DeviceType::Switch.spec_name() == "Switch"@,
        DeviceType::Telescope.spec_name() == "Telescope"@,
{
}

} // verus!
