use ascom_alpaca::device_state::{
    entry_key, parse_switch_key, switch_key, DeviceState, DeviceStateError, EntryError,
    EntryFields, EntryKey, SwitchDeviceState, SwitchField, SwitchKeyError, SwitchValue,
    TimestampedDeviceState, TimestampedDeviceStateRepr,
};

#[test]
fn switch_keys_are_read_back() {
    assert!(matches!(parse_switch_key("GetSwitch2"), Ok((SwitchField::GetSwitch, 2))));
    assert!(matches!(parse_switch_key("GetSwitchValue10"), Ok((SwitchField::GetSwitchValue, 10))));
    assert!(matches!(parse_switch_key("StateChangeComplete007"), Ok((SwitchField::StateChangeComplete, 7))));
    for field in [SwitchField::GetSwitch, SwitchField::GetSwitchValue, SwitchField::StateChangeComplete] {
        for index in [0usize, 9, 10, 123, usize::MAX] {
            let key = switch_key(field, index);
            assert!(matches!(parse_switch_key(&key), Ok((f, i)) if f == field && i == index), "{key}");
        }
    }
    assert_eq!(switch_key(SwitchField::GetSwitchValue, 3), "GetSwitchValue3");
}

#[test]
fn bad_switch_keys_are_refused() {
    assert!(matches!(parse_switch_key("GetSwitch"), Err(SwitchKeyError::MissingIndex)));
    assert!(matches!(parse_switch_key("GetSwitch2a"), Err(SwitchKeyError::InvalidIndex)));
    assert!(matches!(parse_switch_key("GetSwitch99999999999999999999999"), Err(SwitchKeyError::InvalidIndex)));
    match parse_switch_key("Brightness4") {
        Err(SwitchKeyError::UnknownField(prefix)) => assert_eq!(prefix, "Brightness"),
        other => panic!("unexpected {other:?}"),
    }
}

#[test]
fn entry_fields_detect_duplicates_and_gaps() {
    assert_eq!(entry_key("Name"), Some(EntryKey::Name));
    assert_eq!(entry_key("name"), None);
    let mut f = EntryFields::new();
    assert_eq!(f.see(EntryKey::Value), Ok(()));
    assert_eq!(f.finish(), Err(EntryError::MissingField(EntryKey::Name)));
    assert_eq!(f.see(EntryKey::Value), Err(EntryError::DuplicateField(EntryKey::Value)));
    assert_eq!(f.see(EntryKey::Name), Ok(()));
    assert_eq!(f.finish(), Ok(()));
    assert_eq!(EntryFields::new().finish(), Err(EntryError::MissingField(EntryKey::Name)));
}

#[test]
fn timestamped_state_has_a_timestamp() {
    let s = TimestampedDeviceState::new(5u8);
    assert_eq!(s.state, 5);
    assert!(s.timestamp.is_some());
    assert_eq!(TimestampedDeviceStateRepr("x").into_inner(), "x");
}

fn switch(get: Option<bool>, value: Option<f64>, done: Option<bool>) -> SwitchDeviceState<f64> {
    SwitchDeviceState { get_switch: get, get_switch_value: value, state_change_complete: done }
}

#[test]
fn switch_bank_state_entries_read_back() {
    let state = DeviceState {
        switch_devices: vec![
            switch(Some(true), Some(0.5), None),
            switch(None, None, None),
            switch(None, Some(2.0), Some(false)),
        ],
    };
    let entries = state.entries();
    let names: Vec<&str> = entries.iter().map(|(n, _)| n.as_str()).collect();
    assert_eq!(names, vec!["GetSwitch0", "GetSwitchValue0", "GetSwitchValue2", "StateChangeComplete2"]);
    let back = DeviceState::from_entries(&entries).expect("valid entries");
    assert_eq!(back.switch_devices, state.switch_devices);
}

#[test]
fn switch_bank_state_grows_to_hold_every_switch() {
    let entries = vec![("StateChangeComplete3".to_owned(), SwitchValue::Bool(true))];
    let state = DeviceState::<f64>::from_entries(&entries).expect("valid entries");
    assert_eq!(state.switch_devices.len(), 4);
    assert_eq!(state.switch_devices[3], switch(None, None, Some(true)));
    assert_eq!(state.switch_devices[0], switch(None, None, None));
}

#[test]
fn switch_bank_state_errors() {
    let wrong = vec![("GetSwitch0".to_owned(), SwitchValue::Number(1.0))];
    assert!(matches!(
        DeviceState::<f64>::from_entries(&wrong),
        Err(DeviceStateError::WrongValue(SwitchField::GetSwitch))
    ));
    let unknown = vec![("Brightness0".to_owned(), SwitchValue::Bool(true))];
    assert!(matches!(
        DeviceState::<f64>::from_entries(&unknown),
        Err(DeviceStateError::Key(SwitchKeyError::UnknownField(_)))
    ));
}
