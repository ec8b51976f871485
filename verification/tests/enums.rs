use ascom_alpaca::enums::{CameraState, DriveRate, PierSide, SensorType, ShutterState};
use ascom_alpaca::responses::{
    Axis, ImageArrayResponseRank, ImageArrayResponseType, SideOfPierResponse,
    TelescopeSetSideOfPierRequestSideOfPier,
};

#[test]
fn enum_numbers_round_trip() {
    assert_eq!(CameraState::Download.into_primitive(), 4);
    assert_eq!(CameraState::try_from_primitive(4), Some(CameraState::Download));
    assert_eq!(CameraState::try_from_primitive(6), None);
    assert_eq!(PierSide::Unknown.into_primitive(), -1);
    assert_eq!(PierSide::try_from_primitive(-1), Some(PierSide::Unknown));
    assert_eq!(SensorType::try_from_primitive(SensorType::LRGB.into_primitive()), Some(SensorType::LRGB));
    assert_eq!(ShutterState::try_from_primitive(4), Some(ShutterState::Error));
    assert_eq!(DriveRate::King.into_primitive(), 3);
}

#[test]
fn response_enum_numbers_round_trip() {
    assert_eq!(ImageArrayResponseType::Integer.into_primitive(), 2);
    assert_eq!(ImageArrayResponseRank::try_from_primitive(3), Some(ImageArrayResponseRank::Rank3));
    assert_eq!(ImageArrayResponseRank::try_from_primitive(1), None);
    assert_eq!(SideOfPierResponse::try_from_primitive(-1), Some(SideOfPierResponse::Unknown));
    assert_eq!(TelescopeSetSideOfPierRequestSideOfPier::try_from_primitive(-1), None);
    assert_eq!(Axis::try_from_primitive(Axis::Tertiary.into_primitive()), Some(Axis::Tertiary));
}
