//! Enumerations of device states and settings, each with the number that stands for it
//! on the wire.

use vstd::prelude::*;

verus! {

/// Camera state.
#[derive(Debug, PartialEq, Eq, Clone, Copy, Structural)]
pub enum CameraState {
    /// At idle state, available to start exposure.
    Idle,

    /// Exposure started but waiting (for shutter, trigger, filter wheel, etc.).
    Waiting,

    /// Exposure currently in progress.
    Exposing,

    /// Sensor array is being read out (digitized).
    Reading,

    /// Downloading data to host.
    Download,

    /// Camera error condition serious enough to prevent further operations.
    Error,
}

impl CameraState {
    /// The number that stands for this value on the wire.
    pub open spec fn spec_value(self) -> i32 {
        match self {
            CameraState::Idle => 0,
            CameraState::Waiting => 1,
            CameraState::Exposing => 2,
            CameraState::Reading => 3,
            CameraState::Download => 4,
            CameraState::Error => 5,
        }
    }

    /// The value that `number` stands for, if any.
    pub open spec fn spec_from_primitive(number: i32) -> Option<Self> {
        if number == 0i32 {
            Some(CameraState::Idle)
        } else if number == 1i32 {
            Some(CameraState::Waiting)
        } else if number == 2i32 {
            Some(CameraState::Exposing)
        } else if number == 3i32 {
            Some(CameraState::Reading)
        } else if number == 4i32 {
            Some(CameraState::Download)
        } else if number == 5i32 {
            Some(CameraState::Error)
        } else {
            None
        }
    }

    /// The number that stands for this value on the wire; reading it back gives the
    /// value again.
    pub fn into_primitive(self) -> (r: i32)
        ensures
            r == self.spec_value(),
            Self::spec_from_primitive(r) == Some(self),
    {
        match self {
            CameraState::Idle => 0,
            CameraState::Waiting => 1,
            CameraState::Exposing => 2,
            CameraState::Reading => 3,
            CameraState::Download => 4,
            CameraState::Error => 5,
        }
    }

    /// The value that `number` stands for, if any.
    pub fn try_from_primitive(number: i32) -> (r: Option<Self>)
        ensures
            r == Self::spec_from_primitive(number),
            r matches Some(v) ==> v.spec_value() == number,
    {
        if number == 0 {
            Some(CameraState::Idle)
        } else if number == 1 {
            Some(CameraState::Waiting)
        } else if number == 2 {
            Some(CameraState::Exposing)
        } else if number == 3 {
            Some(CameraState::Reading)
        } else if number == 4 {
            Some(CameraState::Download)
        } else if number == 5 {
            Some(CameraState::Error)
        } else {
            None
        }
    }
}

/// The type of sensor in the camera.
#[derive(Debug, PartialEq, Eq, Clone, Copy, Structural)]
pub enum SensorType {
    /// Single-plane monochrome sensor.
    Monochrome,

    /// Multiple-plane color sensor.
    Color,

    /// Single-plane Bayer matrix RGGB sensor.
    RGGB,

    /// Single-plane Bayer matrix CMYG sensor.
    CMYG,

    /// Single-plane Bayer matrix CMYG2 sensor.
    CMYG2,

    /// Single-plane Bayer matrix LRGB sensor.
    LRGB,
}

impl SensorType {
    /// The number that stands for this value on the wire.
    pub open spec fn spec_value(self) -> i32 {
        match self {
            SensorType::Monochrome => 0,
            SensorType::Color => 1,
            SensorType::RGGB => 2,
            SensorType::CMYG => 3,
            SensorType::CMYG2 => 4,
            SensorType::LRGB => 5,
        }
    }

    /// The value that `number` stands for, if any.
    pub open spec fn spec_from_primitive(number: i32) -> Option<Self> {
        if number == 0i32 {
            Some(SensorType::Monochrome)
        } else if number == 1i32 {
            Some(SensorType::Color)
        } else if number == 2i32 {
            Some(SensorType::RGGB)
        } else if number == 3i32 {
            Some(SensorType::CMYG)
        } else if number == 4i32 {
            Some(SensorType::CMYG2)
        } else if number == 5i32 {
            Some(SensorType::LRGB)
        } else {
            None
        }
    }

    /// The number that stands for this value on the wire; reading it back gives the
    /// value again.
    pub fn into_primitive(self) -> (r: i32)
        ensures
            r == self.spec_value(),
            Self::spec_from_primitive(r) == Some(self),
    {
        match self {
            SensorType::Monochrome => 0,
            SensorType::Color => 1,
            SensorType::RGGB => 2,
            SensorType::CMYG => 3,
            SensorType::CMYG2 => 4,
            SensorType::LRGB => 5,
        }
    }

    /// The value that `number` stands for, if any.
    pub fn try_from_primitive(number: i32) -> (r: Option<Self>)
        ensures
            r == Self::spec_from_primitive(number),
            r matches Some(v) ==> v.spec_value() == number,
    {
        if number == 0 {
            Some(SensorType::Monochrome)
        } else if number == 1 {
            Some(SensorType::Color)
        } else if number == 2 {
            Some(SensorType::RGGB)
        } else if number == 3 {
            Some(SensorType::CMYG)
        } else if number == 4 {
            Some(SensorType::CMYG2)
        } else if number == 5 {
            Some(SensorType::LRGB)
        } else {
            None
        }
    }
}

/// The direction in which the guide-rate motion is to be made.
#[derive(Debug, PartialEq, Eq, Clone, Copy, Structural)]
pub enum GuideDirection {
    /// North (+ declination/altitude).
    North,

    /// South (- declination/altitude).
    South,

    /// East (+ right ascension/azimuth).
    East,

    /// West (- right ascension/azimuth).
    West,
}

impl GuideDirection {
    /// The number that stands for this value on the wire.
    pub open spec fn spec_value(self) -> i32 {
        match self {
            GuideDirection::North => 0,
            GuideDirection::South => 1,
            GuideDirection::East => 2,
            GuideDirection::West => 3,
        }
    }

    /// The value that `number` stands for, if any.
    pub open spec fn spec_from_primitive(number: i32) -> Option<Self> {
        if number == 0i32 {
            Some(GuideDirection::North)
        } else if number == 1i32 {
            Some(GuideDirection::South)
        } else if number == 2i32 {
            Some(GuideDirection::East)
        } else if number == 3i32 {
            Some(GuideDirection::West)
        } else {
            None
        }
    }

    /// The number that stands for this value on the wire; reading it back gives the
    /// value again.
    pub fn into_primitive(self) -> (r: i32)
        ensures
            r == self.spec_value(),
            Self::spec_from_primitive(r) == Some(self),
    {
        match self {
            GuideDirection::North => 0,
            GuideDirection::South => 1,
            GuideDirection::East => 2,
            GuideDirection::West => 3,
        }
    }

    /// The value that `number` stands for, if any.
    pub fn try_from_primitive(number: i32) -> (r: Option<Self>)
        ensures
            r == Self::spec_from_primitive(number),
            r matches Some(v) ==> v.spec_value() == number,
    {
        if number == 0 {
            Some(GuideDirection::North)
        } else if number == 1 {
            Some(GuideDirection::South)
        } else if number == 2 {
            Some(GuideDirection::East)
        } else if number == 3 {
            Some(GuideDirection::West)
        } else {
            None
        }
    }
}

/// Describes the state of a calibration device.
#[derive(Debug, PartialEq, Eq, Clone, Copy, Structural)]
pub enum CalibratorStatus {
    /// This device does not have a calibration capability.
    NotPresent,

    /// The calibrator is off.
    Off,

    /// The calibrator is stabilising or is not yet in the commanded state.
    NotReady,

    /// The calibrator is ready for use.
    Ready,

    /// The calibrator state is unknown.
    Unknown,

    /// The calibrator encountered an error when changing state.
    Error,
}

impl CalibratorStatus {
    /// The number that stands for this value on the wire.
    pub open spec fn spec_value(self) -> i32 {
        match self {
            CalibratorStatus::NotPresent => 0,
            CalibratorStatus::Off => 1,
            CalibratorStatus::NotReady => 2,
            CalibratorStatus::Ready => 3,
            CalibratorStatus::Unknown => 4,
            CalibratorStatus::Error => 5,
        }
    }

    /// The value that `number` stands for, if any.
    pub open spec fn spec_from_primitive(number: i32) -> Option<Self> {
        if number == 0i32 {
            Some(CalibratorStatus::NotPresent)
        } else if number == 1i32 {
            Some(CalibratorStatus::Off)
        } else if number == 2i32 {
            Some(CalibratorStatus::NotReady)
        } else if number == 3i32 {
            Some(CalibratorStatus::Ready)
        } else if number == 4i32 {
            Some(CalibratorStatus::Unknown)
        } else if number == 5i32 {
            Some(CalibratorStatus::Error)
        } else {
            None
        }
    }

    /// The number that stands for this value on the wire; reading it back gives the
    /// value again.
    pub fn into_primitive(self) -> (r: i32)
        ensures
            r == self.spec_value(),
            Self::spec_from_primitive(r) == Some(self),
    {
        match self {
            CalibratorStatus::NotPresent => 0,
            CalibratorStatus::Off => 1,
            CalibratorStatus::NotReady => 2,
            CalibratorStatus::Ready => 3,
            CalibratorStatus::Unknown => 4,
            CalibratorStatus::Error => 5,
        }
    }

    /// The value that `number` stands for, if any.
    pub fn try_from_primitive(number: i32) -> (r: Option<Self>)
        ensures
            r == Self::spec_from_primitive(number),
            r matches Some(v) ==> v.spec_value() == number,
    {
        if number == 0 {
            Some(CalibratorStatus::NotPresent)
        } else if number == 1 {
            Some(CalibratorStatus::Off)
        } else if number == 2 {
            Some(CalibratorStatus::NotReady)
        } else if number == 3 {
            Some(CalibratorStatus::Ready)
        } else if number == 4 {
            Some(CalibratorStatus::Unknown)
        } else if number == 5 {
            Some(CalibratorStatus::Error)
        } else {
            None
        }
    }
}

/// Describes the state of a telescope cover.
#[derive(Debug, PartialEq, Eq, Clone, Copy, Structural)]
pub enum CoverStatus {
    /// This device does not have a cover that can be closed independently.
    NotPresent,

    /// The cover is closed.
    Closed,

    /// The cover is moving to a new position.
    Moving,

    /// The cover is open.
    Open,

    /// The state of the cover is unknown.
    Unknown,

    /// The device encountered an error when changing state.
    Error,
}

impl CoverStatus {
    /// The number that stands for this value on the wire.
    pub open spec fn spec_value(self) -> i32 {
        match self {
            CoverStatus::NotPresent => 0,
            CoverStatus::Closed => 1,
            CoverStatus::Moving => 2,
            CoverStatus::Open => 3,
            CoverStatus::Unknown => 4,
            CoverStatus::Error => 5,
        }
    }

    /// The value that `number` stands for, if any.
    pub open spec fn spec_from_primitive(number: i32) -> Option<Self> {
        if number == 0i32 {
            Some(CoverStatus::NotPresent)
        } else if number == 1i32 {
            Some(CoverStatus::Closed)
        } else if number == 2i32 {
            Some(CoverStatus::Moving)
        } else if number == 3i32 {
            Some(CoverStatus::Open)
        } else if number == 4i32 {
            Some(CoverStatus::Unknown)
        } else if number == 5i32 {
            Some(CoverStatus::Error)
        } else {
            None
        }
    }

    /// The number that stands for this value on the wire; reading it back gives the
    /// value again.
    pub fn into_primitive(self) -> (r: i32)
        ensures
            r == self.spec_value(),
            Self::spec_from_primitive(r) == Some(self),
    {
        match self {
            CoverStatus::NotPresent => 0,
            CoverStatus::Closed => 1,
            CoverStatus::Moving => 2,
            CoverStatus::Open => 3,
            CoverStatus::Unknown => 4,
            CoverStatus::Error => 5,
        }
    }

    /// The value that `number` stands for, if any.
    pub fn try_from_primitive(number: i32) -> (r: Option<Self>)
        ensures
            r == Self::spec_from_primitive(number),
            r matches Some(v) ==> v.spec_value() == number,
    {
        if number == 0 {
            Some(CoverStatus::NotPresent)
        } else if number == 1 {
            Some(CoverStatus::Closed)
        } else if number == 2 {
            Some(CoverStatus::Moving)
        } else if number == 3 {
            Some(CoverStatus::Open)
        } else if number == 4 {
            Some(CoverStatus::Unknown)
        } else if number == 5 {
            Some(CoverStatus::Error)
        } else {
            None
        }
    }
}

/// Indicates the current state of the shutter or roof.
#[derive(Debug, PartialEq, Eq, Clone, Copy, Structural)]
pub enum ShutterState {
    /// The shutter or roof is open.
    Open,

    /// The shutter or roof is closed.
    Closed,

    /// The shutter or roof is opening.
    Opening,

    /// The shutter or roof is closing.
    Closing,

    /// The shutter or roof has encountered a problem.
    Error,
}

impl ShutterState {
    /// The number that stands for this value on the wire.
    pub open spec fn spec_value(self) -> i32 {
        match self {
            ShutterState::Open => 0,
            ShutterState::Closed => 1,
            ShutterState::Opening => 2,
            ShutterState::Closing => 3,
            ShutterState::Error => 4,
        }
    }

    /// The value that `number` stands for, if any.
    pub open spec fn spec_from_primitive(number: i32) -> Option<Self> {
        if number == 0i32 {
            Some(ShutterState::Open)
        } else if number == 1i32 {
            Some(ShutterState::Closed)
        } else if number == 2i32 {
            Some(ShutterState::Opening)
        } else if number == 3i32 {
            Some(ShutterState::Closing)
        } else if number == 4i32 {
            Some(ShutterState::Error)
        } else {
            None
        }
    }

    /// The number that stands for this value on the wire; reading it back gives the
    /// value again.
    pub fn into_primitive(self) -> (r: i32)
        ensures
            r == self.spec_value(),
            Self::spec_from_primitive(r) == Some(self),
    {
        match self {
            ShutterState::Open => 0,
            ShutterState::Closed => 1,
            ShutterState::Opening => 2,
            ShutterState::Closing => 3,
            ShutterState::Error => 4,
        }
    }

    /// The value that `number` stands for, if any.
    pub fn try_from_primitive(number: i32) -> (r: Option<Self>)
        ensures
            r == Self::spec_from_primitive(number),
            r matches Some(v) ==> v.spec_value() == number,
    {
        if number == 0 {
            Some(ShutterState::Open)
        } else if number == 1 {
            Some(ShutterState::Closed)
        } else if number == 2 {
            Some(ShutterState::Opening)
        } else if number == 3 {
            Some(ShutterState::Closing)
        } else if number == 4 {
            Some(ShutterState::Error)
        } else {
            None
        }
    }
}

/// The alignment mode (geometry) of the mount.
#[derive(Debug, PartialEq, Eq, Clone, Copy, Structural)]
pub enum AlignmentMode {
    /// Altitude-Azimuth type mount.
    AltAz,

    /// Polar (equatorial) mount other than German equatorial.
    Polar,

    /// German equatorial type mount.
    GermanPolar,
}

impl AlignmentMode {
    /// The number that stands for this value on the wire.
    pub open spec fn spec_value(self) -> i32 {
        match self {
            AlignmentMode::AltAz => 0,
            AlignmentMode::Polar => 1,
            AlignmentMode::GermanPolar => 2,
        }
    }

    /// The value that `number` stands for, if any.
    pub open spec fn spec_from_primitive(number: i32) -> Option<Self> {
        if number == 0i32 {
            Some(AlignmentMode::AltAz)
        } else if number == 1i32 {
            Some(AlignmentMode::Polar)
        } else if number == 2i32 {
            Some(AlignmentMode::GermanPolar)
        } else {
            None
        }
    }

    /// The number that stands for this value on the wire; reading it back gives the
    /// value again.
    pub fn into_primitive(self) -> (r: i32)
        ensures
            r == self.spec_value(),
            Self::spec_from_primitive(r) == Some(self),
    {
        match self {
            AlignmentMode::AltAz => 0,
            AlignmentMode::Polar => 1,
            AlignmentMode::GermanPolar => 2,
        }
    }

    /// The value that `number` stands for, if any.
    pub fn try_from_primitive(number: i32) -> (r: Option<Self>)
        ensures
            r == Self::spec_from_primitive(number),
            r matches Some(v) ==> v.spec_value() == number,
    {
        if number == 0 {
            Some(AlignmentMode::AltAz)
        } else if number == 1 {
            Some(AlignmentMode::Polar)
        } else if number == 2 {
            Some(AlignmentMode::GermanPolar)
        } else {
            None
        }
    }
}

/// The equatorial coordinate system used by the mount.
#[derive(Debug, PartialEq, Eq, Clone, Copy, Structural)]
pub enum EquatorialCoordinateType {
    /// Custom or unknown equinox and/or reference frame.
    Other,

    /// Topocentric coordinates.
    Topocentric,

    /// J2000 equator/equinox.
    J2000,

    /// J2050 equator/equinox.
    J2050,

    /// B1950 equinox, FK4 reference frame.
    B1950,
}

impl EquatorialCoordinateType {
    /// The number that stands for this value on the wire.
    pub open spec fn spec_value(self) -> i32 {
        match self {
            EquatorialCoordinateType::Other => 0,
            EquatorialCoordinateType::Topocentric => 1,
            EquatorialCoordinateType::J2000 => 2,
            EquatorialCoordinateType::J2050 => 3,
            EquatorialCoordinateType::B1950 => 4,
        }
    }

    /// The value that `number` stands for, if any.
    pub open spec fn spec_from_primitive(number: i32) -> Option<Self> {
        if number == 0i32 {
            Some(EquatorialCoordinateType::Other)
        } else if number == 1i32 {
            Some(EquatorialCoordinateType::Topocentric)
        } else if number == 2i32 {
            Some(EquatorialCoordinateType::J2000)
        } else if number == 3i32 {
            Some(EquatorialCoordinateType::J2050)
        } else if number == 4i32 {
            Some(EquatorialCoordinateType::B1950)
        } else {
            None
        }
    }

    /// The number that stands for this value on the wire; reading it back gives the
    /// value again.
    pub fn into_primitive(self) -> (r: i32)
        ensures
            r == self.spec_value(),
            Self::spec_from_primitive(r) == Some(self),
    {
        match self {
            EquatorialCoordinateType::Other => 0,
            EquatorialCoordinateType::Topocentric => 1,
            EquatorialCoordinateType::J2000 => 2,
            EquatorialCoordinateType::J2050 => 3,
            EquatorialCoordinateType::B1950 => 4,
        }
    }

    /// The value that `number` stands for, if any.
    pub fn try_from_primitive(number: i32) -> (r: Option<Self>)
        ensures
            r == Self::spec_from_primitive(number),
            r matches Some(v) ==> v.spec_value() == number,
    {
        if number == 0 {
            Some(EquatorialCoordinateType::Other)
        } else if number == 1 {
            Some(EquatorialCoordinateType::Topocentric)
        } else if number == 2 {
            Some(EquatorialCoordinateType::J2000)
        } else if number == 3 {
            Some(EquatorialCoordinateType::J2050)
        } else if number == 4 {
            Some(EquatorialCoordinateType::B1950)
        } else {
            None
        }
    }
}

/// Returned side of pier.
#[derive(Debug, PartialEq, Eq, Clone, Copy, Structural)]
pub enum PierSide {
    /// Normal pointing state - Mount on the East side of pier (looking West).
    East,

    /// Through the pole pointing state - Mount on the West side of pier (looking East).
    West,

    /// Unknown or indeterminate.
    Unknown,
}

impl PierSide {
    /// The number that stands for this value on the wire.
    pub open spec fn spec_value(self) -> i32 {
        match self {
            PierSide::East => 0,
            PierSide::West => 1,
            PierSide::Unknown => -1i32,
        }
    }

    /// The value that `number` stands for, if any.
    pub open spec fn spec_from_primitive(number: i32) -> Option<Self> {
        if number == 0i32 {
            Some(PierSide::East)
        } else if number == 1i32 {
            Some(PierSide::West)
        } else if number == -1i32 {
            Some(PierSide::Unknown)
        } else {
            None
        }
    }

    /// The number that stands for this value on the wire; reading it back gives the
    /// value again.
    pub fn into_primitive(self) -> (r: i32)
        ensures
            r == self.spec_value(),
            Self::spec_from_primitive(r) == Some(self),
    {
        match self {
            PierSide::East => 0,
            PierSide::West => 1,
            PierSide::Unknown => -1,
        }
    }

    /// The value that `number` stands for, if any.
    pub fn try_from_primitive(number: i32) -> (r: Option<Self>)
        ensures
            r == Self::spec_from_primitive(number),
            r matches Some(v) ==> v.spec_value() == number,
    {
        if number == 0 {
            Some(PierSide::East)
        } else if number == 1 {
            Some(PierSide::West)
        } else if number == -1 {
            Some(PierSide::Unknown)
        } else {
            None
        }
    }
}

/// Integer value corresponding to one of the standard drive rates.
#[derive(Debug, PartialEq, Eq, Clone, Copy, Structural)]
pub enum DriveRate {
    /// Sidereal tracking rate (15.041 arcseconds per second).
    Sidereal,

    /// Lunar tracking rate (14.685 arcseconds per second).
    Lunar,

    /// Solar tracking rate (15.0 arcseconds per second).
    Solar,

    /// King tracking rate (15.0369 arcseconds per second).
    King,
}

impl DriveRate {
    /// The number that stands for this value on the wire.
    pub open spec fn spec_value(self) -> i32 {
        match self {
            DriveRate::Sidereal => 0,
            DriveRate::Lunar => 1,
            DriveRate::Solar => 2,
            DriveRate::King => 3,
        }
    }

    /// The value that `number` stands for, if any.
    pub open spec fn spec_from_primitive(number: i32) -> Option<Self> {
        if number == 0i32 {
            Some(DriveRate::Sidereal)
        } else if number == 1i32 {
            Some(DriveRate::Lunar)
        } else if number == 2i32 {
            Some(DriveRate::Solar)
        } else if number == 3i32 {
            Some(DriveRate::King)
        } else {
            None
        }
    }

    /// The number that stands for this value on the wire; reading it back gives the
    /// value again.
    pub fn into_primitive(self) -> (r: i32)
        ensures
            r == self.spec_value(),
            Self::spec_from_primitive(r) == Some(self),
    {
        match self {
            DriveRate::Sidereal => 0,
            DriveRate::Lunar => 1,
            DriveRate::Solar => 2,
            DriveRate::King => 3,
        }
    }

    /// The value that `number` stands for, if any.
    pub fn try_from_primitive(number: i32) -> (r: Option<Self>)
        ensures
            r == Self::spec_from_primitive(number),
            r matches Some(v) ==> v.spec_value() == number,
    {
        if number == 0 {
            Some(DriveRate::Sidereal)
        } else if number == 1 {
            Some(DriveRate::Lunar)
        } else if number == 2 {
            Some(DriveRate::Solar)
        } else if number == 3 {
            Some(DriveRate::King)
        } else {
            None
        }
    }
}

/// The axis about which rate information is desired.
#[derive(Debug, PartialEq, Eq, Clone, Copy, Structural)]
pub enum TelescopeAxis {
    /// Primary axis (e.g., Right Ascension or Azimuth).
    Primary,

    /// Secondary axis (e.g., Declination or Altitude).
    Secondary,

    /// Tertiary axis (e.g. imager rotator/de-rotator).
    Tertiary,
}

impl TelescopeAxis {
    /// The number that stands for this value on the wire.
    pub open spec fn spec_value(self) -> i32 {
        match self {
            TelescopeAxis::Primary => 0,
            TelescopeAxis::Secondary => 1,
            TelescopeAxis::Tertiary => 2,
        }
    }

    /// The value that `number` stands for, if any.
    pub open spec fn spec_from_primitive(number: i32) -> Option<Self> {
        if number == 0i32 {
            Some(TelescopeAxis::Primary)
        } else if number == 1i32 {
            Some(TelescopeAxis::Secondary)
        } else if number == 2i32 {
            Some(TelescopeAxis::Tertiary)
        } else {
            None
        }
    }

    /// The number that stands for this value on the wire; reading it back gives the
    /// value again.
    pub fn into_primitive(self) -> (r: i32)
        ensures
            r == self.spec_value(),
            Self::spec_from_primitive(r) == Some(self),
    {
        match self {
            TelescopeAxis::Primary => 0,
            TelescopeAxis::Secondary => 1,
            TelescopeAxis::Tertiary => 2,
        }
    }

    /// The value that `number` stands for, if any.
    pub fn try_from_primitive(number: i32) -> (r: Option<Self>)
        ensures
            r == Self::spec_from_primitive(number),
            r matches Some(v) ==> v.spec_value() == number,
    {
        if number == 0 {
            Some(TelescopeAxis::Primary)
        } else if number == 1 {
            Some(TelescopeAxis::Secondary)
        } else if number == 2 {
            Some(TelescopeAxis::Tertiary)
        } else {
            None
        }
    }
}

/// The wire numbers of `CameraState` are fixed by the Alpaca protocol: `Idle` is 0,
/// `Waiting` is 1, `Exposing` is 2, `Reading` is 3, `Download` is 4, `Error` is 5; no other
/// number stands for a value, and each number is read back as the value it stands for.
pub proof fn lemma_camera_state_wire_numbers(number: i32)
    ensures
        CameraState::Idle.spec_value() == 0i32,
        CameraState::Waiting.spec_value() == 1i32,
        CameraState::Exposing.spec_value() == 2i32,
        CameraState::Reading.spec_value() == 3i32,
        CameraState::Download.spec_value() == 4i32,
        CameraState::Error.spec_value() == 5i32,
        CameraState::spec_from_primitive(0i32) == Some(CameraState::Idle),
        CameraState::spec_from_primitive(1i32) == Some(CameraState::Waiting),
        CameraState::spec_from_primitive(2i32) == Some(CameraState::Exposing),
        CameraState::spec_from_primitive(3i32) == Some(CameraState::Reading),
        CameraState::spec_from_primitive(4i32) == Some(CameraState::Download),
        CameraState::spec_from_primitive(5i32) == Some(CameraState::Error),
        (number != 0i32 && number != 1i32 && number != 2i32 && number != 3i32 && number != 4i32 && number != 5i32) ==> CameraState::spec_from_primitive(number) is None,
{
}

/// The wire numbers of `SensorType` are fixed by the Alpaca protocol: `Monochrome` is 0,
/// `Color` is 1, `RGGB` is 2, `CMYG` is 3, `CMYG2` is 4, `LRGB` is 5; no other number
/// stands for a value, and each number is read back as the value it stands for.
pub proof fn lemma_sensor_type_wire_numbers(number: i32)
    ensures
        SensorType::Monochrome.spec_value() == 0i32,
        SensorType::Color.spec_value() == 1i32,
        SensorType::RGGB.spec_value() == 2i32,
        SensorType::CMYG.spec_value() == 3i32,
        SensorType::CMYG2.spec_value() == 4i32,
        SensorType::LRGB.spec_value() == 5i32,
        SensorType::spec_from_primitive(0i32) == Some(SensorType::Monochrome),
        SensorType::spec_from_primitive(1i32) == Some(SensorType::Color),
        SensorType::spec_from_primitive(2i32) == Some(SensorType::RGGB),
        SensorType::spec_from_primitive(3i32) == Some(SensorType::CMYG),
        SensorType::spec_from_primitive(4i32) == Some(SensorType::CMYG2),
        SensorType::spec_from_primitive(5i32) == Some(SensorType::LRGB),
        (number != 0i32 && number != 1i32 && number != 2i32 && number != 3i32 && number != 4i32 && number != 5i32) ==> SensorType::spec_from_primitive(number) is None,
{
}

/// The wire numbers of `GuideDirection` are fixed by the Alpaca protocol: `North` is 0,
/// `South` is 1, `East` is 2, `West` is 3; no other number stands for a value, and each
/// number is read back as the value it stands for.
pub proof fn lemma_guide_direction_wire_numbers(number: i32)
    ensures
        GuideDirection::North.spec_value() == 0i32,
        GuideDirection::South.spec_value() == 1i32,
        GuideDirection::East.spec_value() == 2i32,
        GuideDirection::West.spec_value() == 3i32,
        GuideDirection::spec_from_primitive(0i32) == Some(GuideDirection::North),
        GuideDirection::spec_from_primitive(1i32) == Some(GuideDirection::South),
        GuideDirection::spec_from_primitive(2i32) == Some(GuideDirection::East),
        GuideDirection::spec_from_primitive(3i32) == Some(GuideDirection::West),
        (number != 0i32 && number != 1i32 && number != 2i32 && number != 3i32) ==> GuideDirection::spec_from_primitive(number) is None,
{
}

/// The wire numbers of `CalibratorStatus` are fixed by the Alpaca protocol: `NotPresent` is
/// 0, `Off` is 1, `NotReady` is 2, `Ready` is 3, `Unknown` is 4, `Error` is 5; no other
/// number stands for a value, and each number is read back as the value it stands for.
pub proof fn lemma_calibrator_status_wire_numbers(number: i32)
    ensures
        CalibratorStatus::NotPresent.spec_value() == 0i32,
        CalibratorStatus::Off.spec_value() == 1i32,
        CalibratorStatus::NotReady.spec_value() == 2i32,
        CalibratorStatus::Ready.spec_value() == 3i32,
        CalibratorStatus::Unknown.spec_value() == 4i32,
        CalibratorStatus::Error.spec_value() == 5i32,
        CalibratorStatus::spec_from_primitive(0i32) == Some(CalibratorStatus::NotPresent),
        CalibratorStatus::spec_from_primitive(1i32) == Some(CalibratorStatus::Off),
        CalibratorStatus::spec_from_primitive(2i32) == Some(CalibratorStatus::NotReady),
        CalibratorStatus::spec_from_primitive(3i32) == Some(CalibratorStatus::Ready),
        CalibratorStatus::spec_from_primitive(4i32) == Some(CalibratorStatus::Unknown),
        CalibratorStatus::spec_from_primitive(5i32) == Some(CalibratorStatus::Error),
        (number != 0i32 && number != 1i32 && number != 2i32 && number != 3i32 && number != 4i32 && number != 5i32) ==> CalibratorStatus::spec_from_primitive(number) is None,
{
}

/// The wire numbers of `CoverStatus` are fixed by the Alpaca protocol: `NotPresent` is 0,
/// `Closed` is 1, `Moving` is 2, `Open` is 3, `Unknown` is 4, `Error` is 5; no other number
/// stands for a value, and each number is read back as the value it stands for.
pub proof fn lemma_cover_status_wire_numbers(number: i32)
    ensures
        CoverStatus::NotPresent.spec_value() == 0i32,
        CoverStatus::Closed.spec_value() == 1i32,
        CoverStatus::Moving.spec_value() == 2i32,
        CoverStatus::Open.spec_value() == 3i32,
        CoverStatus::Unknown.spec_value() == 4i32,
        CoverStatus::Error.spec_value() == 5i32,
        CoverStatus::spec_from_primitive(0i32) == Some(CoverStatus::NotPresent),
        CoverStatus::spec_from_primitive(1i32) == Some(CoverStatus::Closed),
        CoverStatus::spec_from_primitive(2i32) == Some(CoverStatus::Moving),
        CoverStatus::spec_from_primitive(3i32) == Some(CoverStatus::Open),
        CoverStatus::spec_from_primitive(4i32) == Some(CoverStatus::Unknown),
        CoverStatus::spec_from_primitive(5i32) == Some(CoverStatus::Error),
        (number != 0i32 && number != 1i32 && number != 2i32 && number != 3i32 && number != 4i32 && number != 5i32) ==> CoverStatus::spec_from_primitive(number) is None,
{
}

/// The wire numbers of `ShutterState` are fixed by the Alpaca protocol: `Open` is 0,
/// `Closed` is 1, `Opening` is 2, `Closing` is 3, `Error` is 4; no other number stands for
/// a value, and each number is read back as the value it stands for.
pub proof fn lemma_shutter_state_wire_numbers(number: i32)
    ensures
        ShutterState::Open.spec_value() == 0i32,
        ShutterState::Closed.spec_value() == 1i32,
        ShutterState::Opening.spec_value() == 2i32,
        ShutterState::Closing.spec_value() == 3i32,
        ShutterState::Error.spec_value() == 4i32,
        ShutterState::spec_from_primitive(0i32) == Some(ShutterState::Open),
        ShutterState::spec_from_primitive(1i32) == Some(ShutterState::Closed),
        ShutterState::spec_from_primitive(2i32) == Some(ShutterState::Opening),
        ShutterState::spec_from_primitive(3i32) == Some(ShutterState::Closing),
        ShutterState::spec_from_primitive(4i32) == Some(ShutterState::Error),
        (number != 0i32 && number != 1i32 && number != 2i32 && number != 3i32 && number != 4i32) ==> ShutterState::spec_from_primitive(number) is None,
{
}

/// The wire numbers of `AlignmentMode` are fixed by the Alpaca protocol: `AltAz` is 0,
/// `Polar` is 1, `GermanPolar` is 2; no other number stands for a value, and each number is
/// read back as the value it stands for.
pub proof fn lemma_alignment_mode_wire_numbers(number: i32)
    ensures
        AlignmentMode::AltAz.spec_value() == 0i32,
        AlignmentMode::Polar.spec_value() == 1i32,
        AlignmentMode::GermanPolar.spec_value() == 2i32,
        AlignmentMode::spec_from_primitive(0i32) == Some(AlignmentMode::AltAz),
        AlignmentMode::spec_from_primitive(1i32) == Some(AlignmentMode::Polar),
        AlignmentMode::spec_from_primitive(2i32) == Some(AlignmentMode::GermanPolar),
        (number != 0i32 && number != 1i32 && number != 2i32) ==> AlignmentMode::spec_from_primitive(number) is None,
{
}

/// The wire numbers of `EquatorialCoordinateType` are fixed by the Alpaca protocol: `Other`
/// is 0, `Topocentric` is 1, `J2000` is 2, `J2050` is 3, `B1950` is 4; no other number
/// stands for a value, and each number is read back as the value it stands for.
pub proof fn lemma_equatorial_coordinate_type_wire_numbers(number: i32)
    ensures
        EquatorialCoordinateType::Other.spec_value() == 0i32,
        EquatorialCoordinateType::Topocentric.spec_value() == 1i32,
        EquatorialCoordinateType::J2000.spec_value() == 2i32,
        EquatorialCoordinateType::J2050.spec_value() == 3i32,
        EquatorialCoordinateType::B1950.spec_value() == 4i32,
        EquatorialCoordinateType::spec_from_primitive(0i32) == Some(EquatorialCoordinateType::Other),
        EquatorialCoordinateType::spec_from_primitive(1i32) == Some(EquatorialCoordinateType::Topocentric),
        EquatorialCoordinateType::spec_from_primitive(2i32) == Some(EquatorialCoordinateType::J2000),
        EquatorialCoordinateType::spec_from_primitive(3i32) == Some(EquatorialCoordinateType::J2050),
        EquatorialCoordinateType::spec_from_primitive(4i32) == Some(EquatorialCoordinateType::B1950),
        (number != 0i32 && number != 1i32 && number != 2i32 && number != 3i32 && number != 4i32) ==> EquatorialCoordinateType::spec_from_primitive(number) is None,
{
}

/// The wire numbers of `PierSide` are fixed by the Alpaca protocol: `East` is 0, `West` is
/// 1, `Unknown` is -1; no other number stands for a value, and each number is read back as
/// the value it stands for.
pub proof fn lemma_pier_side_wire_numbers(number: i32)
    ensures
        PierSide::East.spec_value() == 0i32,
        PierSide::West.spec_value() == 1i32,
        PierSide::Unknown.spec_value() == -1i32,
        PierSide::spec_from_primitive(0i32) == Some(PierSide::East),
        PierSide::spec_from_primitive(1i32) == Some(PierSide::West),
        PierSide::spec_from_primitive(-1i32) == Some(PierSide::Unknown),
        (number != 0i32 && number != 1i32 && number != -1i32) ==> PierSide::spec_from_primitive(number) is None,
{
}

/// The wire numbers of `DriveRate` are fixed by the Alpaca protocol: `Sidereal` is 0,
/// `Lunar` is 1, `Solar` is 2, `King` is 3; no other number stands for a value, and each
/// number is read back as the value it stands for.
pub proof fn lemma_drive_rate_wire_numbers(number: i32)
    ensures
        DriveRate::Sidereal.spec_value() == 0i32,
        DriveRate::Lunar.spec_value() == 1i32,
        DriveRate::Solar.spec_value() == 2i32,
        DriveRate::King.spec_value() == 3i32,
        DriveRate::spec_from_primitive(0i32) == Some(DriveRate::Sidereal),
        DriveRate::spec_from_primitive(1i32) == Some(DriveRate::Lunar),
        DriveRate::spec_from_primitive(2i32) == Some(DriveRate::Solar),
        DriveRate::spec_from_primitive(3i32) == Some(DriveRate::King),
        (number != 0i32 && number != 1i32 && number != 2i32 && number != 3i32) ==> DriveRate::spec_from_primitive(number) is None,
{
}

/// The wire numbers of `TelescopeAxis` are fixed by the Alpaca protocol: `Primary` is 0,
/// `Secondary` is 1, `Tertiary` is 2; no other number stands for a value, and each number
/// is read back as the value it stands for.
pub proof fn lemma_telescope_axis_wire_numbers(number: i32)
    ensures
        TelescopeAxis::Primary.spec_value() == 0i32,
        TelescopeAxis::Secondary.spec_value() == 1i32,
        TelescopeAxis::Tertiary.spec_value() == 2i32,
        TelescopeAxis::spec_from_primitive(0i32) == Some(TelescopeAxis::Primary),
        TelescopeAxis::spec_from_primitive(1i32) == Some(TelescopeAxis::Secondary),
        TelescopeAxis::spec_from_primitive(2i32) == Some(TelescopeAxis::Tertiary),
        (number != 0i32 && number != 1i32 && number != 2i32) ==> TelescopeAxis::spec_from_primitive(number) is None,
{
}

} // verus!
