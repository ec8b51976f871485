use ascom_alpaca::devices::{DeviceType, Devices, DevicesBuilder, UnknownDevice};
use ascom_alpaca::management::{device_path, supported_devices, ListedDevice};

#[test]
fn registered_devices_read_back_by_number() {
    let mut devices: Devices<&str> = Devices::default();
    assert_eq!(devices.register(DeviceType::Camera, "cam0"), 0);
    assert_eq!(devices.register(DeviceType::Telescope, "scope0"), 0);
    assert_eq!(devices.register(DeviceType::Camera, "cam1"), 1);
    assert_eq!(devices.get(DeviceType::Camera, 0), Some(&"cam0"));
    assert_eq!(devices.get(DeviceType::Camera, 1), Some(&"cam1"));
    assert_eq!(devices.get(DeviceType::Camera, 2), None);
    assert_eq!(devices.get(DeviceType::Telescope, 0), Some(&"scope0"));
    assert_eq!(devices.get(DeviceType::Dome, 0), None);
    assert_eq!(devices.iter(DeviceType::Camera), &["cam0", "cam1"]);
}

#[test]
fn iter_all_lists_categories_in_order() {
    let mut devices: Devices<u8> = Devices::default();
    devices.register(DeviceType::Telescope, 1);
    devices.register(DeviceType::Camera, 2);
    devices.register(DeviceType::Switch, 3);
    devices.register(DeviceType::Camera, 4);
    assert_eq!(
        devices.iter_all(),
        vec![
            (DeviceType::Camera, 0),
            (DeviceType::Camera, 1),
            (DeviceType::Switch, 0),
            (DeviceType::Telescope, 0),
        ]
    );
}

#[test]
fn builder_numbers_devices_per_category() {
    let devices = DevicesBuilder::new()
        .with(DeviceType::FilterWheel, 'a')
        .with(DeviceType::FilterWheel, 'b')
        .with(DeviceType::Focuser, 'c')
        .finish();
    assert_eq!(devices.get(DeviceType::FilterWheel, 1), Some(&'b'));
    assert_eq!(devices.get(DeviceType::Focuser, 0), Some(&'c'));
}

#[test]
fn device_type_names_and_paths() {
    assert_eq!(DeviceType::CoverCalibrator.as_str(), "CoverCalibrator");
    assert_eq!(DeviceType::ObservingConditions.path(), "observingconditions");
    assert_eq!(DeviceType::from_path("safetymonitor"), Some(DeviceType::SafetyMonitor));
    assert_eq!(DeviceType::from_path("SafetyMonitor"), None);
    assert_eq!(DeviceType::from_name("Rotator".to_owned()), Ok(DeviceType::Rotator));
    assert_eq!(DeviceType::from_name("Spectrograph".to_owned()), Err("Spectrograph".to_owned()));
}

#[test]
fn device_paths_hold_category_and_number() {
    assert_eq!(device_path(DeviceType::Camera, 0), "camera/0/");
    assert_eq!(device_path(DeviceType::FilterWheel, 12), "filterwheel/12/");
}

fn listed(name: &str, ty: &str, number: usize) -> ListedDevice {
    ListedDevice {
        device_name: name.to_owned(),
        device_type: ty.to_owned(),
        device_number: number,
        unique_id: format!("{name}-id"),
    }
}

#[test]
fn unsupported_device_types_are_skipped() {
    let list = vec![listed("a", "Camera", 0), listed("b", "Spectrograph", 0), listed("c", "Dome", 3)];
    let devices = supported_devices(&list);
    assert_eq!(devices.len(), 2);
    assert_eq!(devices[0].device_name, "a");
    assert_eq!(devices[0].device_type, DeviceType::Camera);
    assert_eq!(devices[1].device_type, DeviceType::Dome);
    assert_eq!(devices[1].device_number, 3);
    assert_eq!(devices[1].unique_id, "c-id");
}

#[test]
fn server_lookups_name_the_missing_device() {
    let mut devices: Devices<u8> = Devices::default();
    devices.register(DeviceType::Rotator, 9);
    assert_eq!(devices.get_for_server(DeviceType::Rotator, 0), Ok(&9));
    assert_eq!(
        devices.get_for_server(DeviceType::Rotator, 1),
        Err(UnknownDevice { ty: DeviceType::Rotator, device_number: 1 })
    );
}

#[test]
fn category_names_and_paths_read_back() {
    let all = [
        DeviceType::Camera,
        DeviceType::CoverCalibrator,
        DeviceType::Dome,
        DeviceType::FilterWheel,
        DeviceType::Focuser,
        DeviceType::ObservingConditions,
        DeviceType::Rotator,
        DeviceType::SafetyMonitor,
        DeviceType::Switch,
        DeviceType::Telescope,
    ];
    for t in all {
        assert_eq!(DeviceType::from_path(t.path()), Some(t));
        assert_eq!(DeviceType::from_name(t.as_str().to_owned()), Ok(t));
    }
}

#[test]
fn builder_sequences_number_devices_in_call_order() {
    let devices = DevicesBuilder::new()
        .with(DeviceType::Camera, 1)
        .with(DeviceType::Dome, 2)
        .with(DeviceType::Camera, 3)
        .with(DeviceType::Dome, 4)
        .with(DeviceType::Camera, 5)
        .finish();
    assert_eq!(devices.iter(DeviceType::Camera), &[1, 3, 5]);
    assert_eq!(devices.get(DeviceType::Dome, 1), Some(&4));
    assert_eq!(devices.get(DeviceType::Dome, 2), None);
    assert_eq!(devices.get(DeviceType::Switch, 0), None);
}
