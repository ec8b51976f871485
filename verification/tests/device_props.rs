use ascom_alpaca::device_props::{
    bool_param_text, calibrator_changing, cover_moving, gain_mode_after_list, gain_mode_after_range,
    gain_range, if_implemented, parse_bool_param, position_from_wire, position_to_wire, GainMode,
    GainModeStep, InvalidPosition,
};
use ascom_alpaca::enums::{CalibratorStatus, CoverStatus};
use ascom_alpaca::errors::{ASCOMError, ASCOMErrorCode};

fn not_implemented() -> ASCOMError {
    ASCOMError::well_known(ASCOMErrorCode::not_implemented())
}

#[test]
fn gain_mode_prefers_the_list() {
    let step = gain_mode_after_list(Ok(vec!["Low".to_owned(), "High".to_owned()]));
    match step {
        GainModeStep::Done(Ok(Some(GainMode::List(l)))) => assert_eq!(l, vec!["Low", "High"]),
        other => panic!("unexpected {other:?}"),
    }
    assert!(matches!(gain_mode_after_list(Err(not_implemented())), GainModeStep::AskRange));
    let failed = gain_mode_after_list(Err(ASCOMError::invalid_operation("x".to_owned())));
    assert!(matches!(failed, GainModeStep::Done(Err(e)) if e.code == ASCOMErrorCode::invalid_operation()));
}

#[test]
fn gain_mode_falls_back_to_the_range() {
    assert!(matches!(gain_mode_after_range(Ok((0, 100))), Ok(Some(GainMode::Range(0, 100)))));
    assert!(matches!(gain_mode_after_range(Err(not_implemented())), Ok(None)));
    assert!(matches!(gain_range(Ok(1), Ok(5)), Ok((1, 5))));
    assert!(matches!(gain_range(Err(not_implemented()), Ok(5)), Err(_)));
    assert!(matches!(if_implemented::<u8>(Err(not_implemented())), Ok(None)));
    assert!(matches!(if_implemented(Ok(3u8)), Ok(Some(3))));
}

#[test]
fn filter_wheel_positions_on_the_wire() {
    assert_eq!(position_to_wire(None), -1);
    assert_eq!(position_to_wire(Some(4)), 4);
    assert_eq!(position_from_wire(-1), Ok(None));
    assert_eq!(position_from_wire(3), Ok(Some(3)));
    assert_eq!(position_from_wire(-2), Err(InvalidPosition(-2)));
    for p in [None, Some(0usize), Some(12)] {
        assert_eq!(position_from_wire(position_to_wire(p)), Ok(p));
    }
}

#[test]
fn bool_params_in_any_casing() {
    assert!(matches!(parse_bool_param("TRUE"), Ok(true)));
    assert!(matches!(parse_bool_param("False"), Ok(false)));
    assert!(matches!(parse_bool_param("yes"), Err(e) if e.0 == "yes"));
    assert!(matches!(parse_bool_param(bool_param_text(true)), Ok(true)));
    assert!(matches!(parse_bool_param(bool_param_text(false)), Ok(false)));
}

#[test]
fn calibrator_and_cover_flags() {
    assert!(calibrator_changing(CalibratorStatus::NotReady));
    assert!(!calibrator_changing(CalibratorStatus::Ready));
    assert!(cover_moving(CoverStatus::Moving));
    assert!(!cover_moving(CoverStatus::Open));
}
