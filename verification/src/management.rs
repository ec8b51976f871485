//! The management side of the Alpaca API: server description, the list of configured
//! devices, and the request paths under which each device is reached.

use vstd::prelude::*;
use crate::devices::DeviceType;
use crate::text::{dec_digits, push_char, push_decimal};

verus! {

/// General information about the server.
#[derive(Debug)]
pub struct ServerInfo {
    /// Server name.
    pub server_name: String,
    /// Manufacturer name.
    pub manufacturer: String,
    /// Manufacturer version.
    pub manufacturer_version: String,
    /// Server location.
    pub location: String,
}

/// A device as the server lists it among its configured devices.
#[derive(Debug)]
pub struct ConfiguredDevice {
    /// Device name.
    pub device_name: String,
    /// Device category.
    pub device_type: DeviceType,
    /// Device number within its category.
    pub device_number: usize,
    /// Unique identifier of the device.
    pub unique_id: String,
}

/// A device as a list of configured devices names it, with its category still as text:
/// a client may meet categories it does not know.
#[derive(Debug)]
pub struct ListedDevice {
    /// Device name.
    pub device_name: String,
    /// Device category, as named in the list.
    pub device_type: String,
    /// Device number within its category.
    pub device_number: usize,
    /// Unique identifier of the device.
    pub unique_id: String,
}

/// The content of a configured device.
pub struct DeviceModel {
    /// Device name.
    pub name: Seq<char>,
    /// Device category.
    pub ty: DeviceType,
    /// Device number.
    pub number: usize,
    /// Unique identifier.
    pub unique_id: Seq<char>,
}

/// The content of a listed device.
pub struct ListedModel {
    /// Device name.
    pub name: Seq<char>,
    /// Device category, as named in the list.
    pub ty: Seq<char>,
    /// Device number.
    pub number: usize,
    /// Unique identifier.
    pub unique_id: Seq<char>,
}

impl View for ConfiguredDevice {
    type V = DeviceModel;

    open spec fn view(&self) -> DeviceModel {
        DeviceModel {
            name: self.device_name@,
            ty: self.device_type,
            number: self.device_number,
            unique_id: self.unique_id@,
        }
    }
}

impl View for ListedDevice {
    type V = ListedModel;

    open spec fn view(&self) -> ListedModel {
        ListedModel {
            name: self.device_name@,
            ty: self.device_type@,
            number: self.device_number,
            unique_id: self.unique_id@,
        }
    }
}

/// The category whose name is `name`, if any.
pub open spec fn type_named(name: Seq<char>) -> Option<DeviceType> {
    if exists|t: DeviceType| t.spec_name() == name {
        Some(choose|t: DeviceType| t.spec_name() == name)
    } else {
        None
    }
}

/// The listed devices of a known category, in list order, with their category resolved.
pub open spec fn supported_models(listed: Seq<ListedModel>) -> Seq<DeviceModel>
    decreases listed.len(),
{
    if listed.len() == 0 {
        Seq::empty()
    } else {
        let rest = supported_models(listed.drop_last());
        let d = listed.last();
        match type_named(d.ty) {
            Some(t) => rest.push(
                DeviceModel { name: d.name, ty: t, number: d.number, unique_id: d.unique_id },
            ),
            None => rest,
        }
    }
}

/// The contents of a list of listed devices.
pub open spec fn listed_models(listed: Seq<ListedDevice>) -> Seq<ListedModel> {
    listed.map_values(|d: ListedDevice| d@)
}

/// The contents of a list of configured devices.
pub open spec fn device_models(devices: Seq<ConfiguredDevice>) -> Seq<DeviceModel> {
    devices.map_values(|d: ConfiguredDevice| d@)
}

/// Keeps the listed devices whose category this library knows, in list order; a device of
/// an unknown category is left out.
pub fn supported_devices(listed: &Vec<ListedDevice>) -> (r: Vec<ConfiguredDevice>)
    ensures
        device_models(r@) == supported_models(listed_models(listed@)),
{
    let mut out: Vec<ConfiguredDevice> = Vec::new();
    let mut i: usize = 0;
    while i < listed.len()
        invariant
            i <= listed@.len(),
            device_models(out@) == supported_models(listed_models(listed@).take(i as int)),
        decreases listed@.len() - i,
    {
        let d = &listed[i];
        let ghost before = out@;
        assert(listed_models(listed@).take(i + 1).drop_last() =~= listed_models(listed@).take(
            i as int,
        ));
        match DeviceType::from_name(d.device_type.clone()) {
            Ok(t) => {
                proof {
                    assert forall|u: DeviceType| u.spec_name() == d.device_type@ implies u == t by {
                        crate::devices::lemma_name_round_trip(t, u);
                    }
                    assert(type_named(d.device_type@) == Some(t));
                }
                out.push(
                    ConfiguredDevice {
                        device_name: d.device_name.clone(),
                        device_type: t,
                        device_number: d.device_number,
                        unique_id: d.unique_id.clone(),
                    },
                );
                assert(device_models(out@) =~= device_models(before).push(out@.last()@));
            },
            Err(_) => {
                assert(type_named(d.device_type@) is None);
            },
        }
        i = i + 1;
    }
    assert(listed_models(listed@).take(listed@.len() as int) =~= listed_models(listed@));
    out
}

/// The path of a device below the API root: `"{category path}/{device number}/"`.
pub open spec fn spec_device_path(ty: DeviceType, number: nat) -> Seq<char> {
    ty.spec_path() + seq!['/'] + dec_digits(number) + seq!['/']
}

/// The path of a device below the API root: `"{category path}/{device number}/"`.
pub fn device_path(ty: DeviceType, device_number: usize) -> (r: String)
    ensures
        r@ == spec_device_path(ty, device_number as nat),
{
    let mut out = ty.path().to_owned();
    push_char(&mut out, '/');
    push_decimal(&mut out, device_number);
    push_char(&mut out, '/');
    out
}

} // verus!
