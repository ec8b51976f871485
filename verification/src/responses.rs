//! Enumerations as they appear in responses of devices, each with the number that stands
//! for it on the wire.

use vstd::prelude::*;

verus! {

/// Camera state as reported by a camera.
#[derive(Debug, PartialEq, Eq, Clone, Copy, Structural)]
pub enum CameraStateResponse {
    /// At idle state, available to start exposure.
    Idle,

    /// Exposure started but waiting.
    Waiting,

    /// Exposure currently in progress.
    Exposing,

    /// Sensor array is being read out.
    Reading,

    /// Downloading data to host.
    Download,

    /// Camera error condition.
    Error,
}

impl CameraStateResponse {
    /// The number that stands for this value on the wire.
    pub open spec fn spec_value(self) -> i32 {
        match self {
            CameraStateResponse::Idle => 0,
            CameraStateResponse::Waiting => 1,
            CameraStateResponse::Exposing => 2,
            CameraStateResponse::Reading => 3,
            CameraStateResponse::Download => 4,
            CameraStateResponse::Error => 5,
        }
    }

    /// The value that `number` stands for, if any.
    pub open spec fn spec_from_primitive(number: i32) -> Option<Self> {
        if number == 0i32 {
            Some(CameraStateResponse::Idle)
        } else if number == 1i32 {
            Some(CameraStateResponse::Waiting)
        } else if number == 2i32 {
            Some(CameraStateResponse::Exposing)
        } else if number == 3i32 {
            Some(CameraStateResponse::Reading)
        } else if number == 4i32 {
            Some(CameraStateResponse::Download)
        } else if number == 5i32 {
            Some(CameraStateResponse::Error)
        } else {
            None
        }
    }

    /// The number that stands for this value on the wire; reading it back gives the
    /// value again.
    pub fn into_primitive(self) -> (r: i32)
        ensures
            r == self.spec_value(),
            Self::spec_from_primitive(r) == Some(self),
    {
        match self {
            CameraStateResponse::Idle => 0,
            CameraStateResponse::Waiting => 1,
            CameraStateResponse::Exposing => 2,
            CameraStateResponse::Reading => 3,
            CameraStateResponse::Download => 4,
            CameraStateResponse::Error => 5,
        }
    }

    /// The value that `number` stands for, if any.
    pub fn try_from_primitive(number: i32) -> (r: Option<Self>)
        ensures
            r == Self::spec_from_primitive(number),
            r matches Some(v) ==> v.spec_value() == number,
    {
        if number == 0 {
            Some(CameraStateResponse::Idle)
        } else if number == 1 {
            Some(CameraStateResponse::Waiting)
        } else if number == 2 {
            Some(CameraStateResponse::Exposing)
        } else if number == 3 {
            Some(CameraStateResponse::Reading)
        } else if number == 4 {
            Some(CameraStateResponse::Download)
        } else if number == 5 {
            Some(CameraStateResponse::Error)
        } else {
            None
        }
    }
}

/// Element type of an image array.
#[derive(Debug, PartialEq, Eq, Clone, Copy, Structural)]
pub enum ImageArrayResponseType {
    /// Unknown element type.
    Unknown,

    /// int16
    Short,

    /// int32
    Integer,

    /// Double precision real number
    Double,
}

impl ImageArrayResponseType {
    /// The number that stands for this value on the wire.
    pub open spec fn spec_value(self) -> i32 {
        match self {
            ImageArrayResponseType::Unknown => 0,
            ImageArrayResponseType::Short => 1,
            ImageArrayResponseType::Integer => 2,
            ImageArrayResponseType::Double => 3,
        }
    }

    /// The value that `number` stands for, if any.
    pub open spec fn spec_from_primitive(number: i32) -> Option<Self> {
        if number == 0i32 {
            Some(ImageArrayResponseType::Unknown)
        } else if number == 1i32 {
            Some(ImageArrayResponseType::Short)
        } else if number == 2i32 {
            Some(ImageArrayResponseType::Integer)
        } else if number == 3i32 {
            Some(ImageArrayResponseType::Double)
        } else {
            None
        }
    }

    /// The number that stands for this value on the wire; reading it back gives the
    /// value again.
    pub fn into_primitive(self) -> (r: i32)
        ensures
            r == self.spec_value(),
            Self::spec_from_primitive(r) == Some(self),
    {
        match self {
            ImageArrayResponseType::Unknown => 0,
            ImageArrayResponseType::Short => 1,
            ImageArrayResponseType::Integer => 2,
            ImageArrayResponseType::Double => 3,
        }
    }

    /// The value that `number` stands for, if any.
    pub fn try_from_primitive(number: i32) -> (r: Option<Self>)
        ensures
            r == Self::spec_from_primitive(number),
            r matches Some(v) ==> v.spec_value() == number,
    {
        if number == 0 {
            Some(ImageArrayResponseType::Unknown)
        } else if number == 1 {
            Some(ImageArrayResponseType::Short)
        } else if number == 2 {
            Some(ImageArrayResponseType::Integer)
        } else if number == 3 {
            Some(ImageArrayResponseType::Double)
        } else {
            None
        }
    }
}

/// The type of sensor in a camera.
#[derive(Debug, PartialEq, Eq, Clone, Copy, Structural)]
pub enum SensorTypeResponse {
    /// Camera produces monochrome array with no Bayer encoding
    Monochrome,

    /// Camera produces color image directly, not requiring Bayer decoding
    Color,

    /// Camera produces RGGB encoded Bayer array images
    RGGB,

    /// Camera produces CMYG encoded Bayer array images
    CMYG,

    /// Camera produces CMYG2 encoded Bayer array images
    CMYG2,

    /// Camera produces Kodak TRUESENSE LRGB encoded Bayer array images
    LRGB,
}

impl SensorTypeResponse {
    /// The number that stands for this value on the wire.
    pub open spec fn spec_value(self) -> i32 {
        match self {
            SensorTypeResponse::Monochrome => 0,
            SensorTypeResponse::Color => 1,
            SensorTypeResponse::RGGB => 2,
            SensorTypeResponse::CMYG => 3,
            SensorTypeResponse::CMYG2 => 4,
            SensorTypeResponse::LRGB => 5,
        }
    }

    /// The value that `number` stands for, if any.
    pub open spec fn spec_from_primitive(number: i32) -> Option<Self> {
        if number == 0i32 {
            Some(SensorTypeResponse::Monochrome)
        } else if number == 1i32 {
            Some(SensorTypeResponse::Color)
        } else if number == 2i32 {
            Some(SensorTypeResponse::RGGB)
        } else if number == 3i32 {
            Some(SensorTypeResponse::CMYG)
        } else if number == 4i32 {
            Some(SensorTypeResponse::CMYG2)
        } else if number == 5i32 {
            Some(SensorTypeResponse::LRGB)
        } else {
            None
        }
    }

    /// The number that stands for this value on the wire; reading it back gives the
    /// value again.
    pub fn into_primitive(self) -> (r: i32)
        ensures
            r == self.spec_value(),
            Self::spec_from_primitive(r) == Some(self),
    {
        match self {
            SensorTypeResponse::Monochrome => 0,
            SensorTypeResponse::Color => 1,
            SensorTypeResponse::RGGB => 2,
            SensorTypeResponse::CMYG => 3,
            SensorTypeResponse::CMYG2 => 4,
            SensorTypeResponse::LRGB => 5,
        }
    }

    /// The value that `number` stands for, if any.
    pub fn try_from_primitive(number: i32) -> (r: Option<Self>)
        ensures
            r == Self::spec_from_primitive(number),
            r matches Some(v) ==> v.spec_value() == number,
    {
        if number == 0 {
            Some(SensorTypeResponse::Monochrome)
        } else if number == 1 {
            Some(SensorTypeResponse::Color)
        } else if number == 2 {
            Some(SensorTypeResponse::RGGB)
        } else if number == 3 {
            Some(SensorTypeResponse::CMYG)
        } else if number == 4 {
            Some(SensorTypeResponse::CMYG2)
        } else if number == 5 {
            Some(SensorTypeResponse::LRGB)
        } else {
            None
        }
    }
}

/// Direction of a guide pulse.
#[derive(Debug, PartialEq, Eq, Clone, Copy, Structural)]
pub enum PutPulseGuideDirection {
    /// North.
    North,

    /// South.
    South,

    /// East.
    East,

    /// West.
    West,
}

impl PutPulseGuideDirection {
    /// The number that stands for this value on the wire.
    pub open spec fn spec_value(self) -> i32 {
        match self {
            PutPulseGuideDirection::North => 0,
            PutPulseGuideDirection::South => 1,
            PutPulseGuideDirection::East => 2,
            PutPulseGuideDirection::West => 3,
        }
    }

    /// The value that `number` stands for, if any.
    pub open spec fn spec_from_primitive(number: i32) -> Option<Self> {
        if number == 0i32 {
            Some(PutPulseGuideDirection::North)
        } else if number == 1i32 {
            Some(PutPulseGuideDirection::South)
        } else if number == 2i32 {
            Some(PutPulseGuideDirection::East)
        } else if number == 3i32 {
            Some(PutPulseGuideDirection::West)
        } else {
            None
        }
    }

    /// The number that stands for this value on the wire; reading it back gives the
    /// value again.
    pub fn into_primitive(self) -> (r: i32)
        ensures
            r == self.spec_value(),
            Self::spec_from_primitive(r) == Some(self),
    {
        match self {
            PutPulseGuideDirection::North => 0,
            PutPulseGuideDirection::South => 1,
            PutPulseGuideDirection::East => 2,
            PutPulseGuideDirection::West => 3,
        }
    }

    /// The value that `number` stands for, if any.
    pub fn try_from_primitive(number: i32) -> (r: Option<Self>)
        ensures
            r == Self::spec_from_primitive(number),
            r matches Some(v) ==> v.spec_value() == number,
    {
        if number == 0 {
            Some(PutPulseGuideDirection::North)
        } else if number == 1 {
            Some(PutPulseGuideDirection::South)
        } else if number == 2 {
            Some(PutPulseGuideDirection::East)
        } else if number == 3 {
            Some(PutPulseGuideDirection::West)
        } else {
            None
        }
    }
}

/// Describes the state of a calibration device.
#[derive(Debug, PartialEq, Eq, Clone, Copy, Structural)]
pub enum CalibratorStatusResponse {
    /// This device does not have a calibration capability.
    NotPresent,

    /// The calibrator is off.
    Off,

    /// The calibrator is stabilising or is not yet in the commanded state.
    NotReady,

    /// The calibrator is ready for use.
    Ready,

    /// The calibrator state is unknown.
    Unknown,

    /// The calibrator encountered an error when changing state.
    Error,
}

impl CalibratorStatusResponse {
    /// The number that stands for this value on the wire.
    pub open spec fn spec_value(self) -> i32 {
        match self {
            CalibratorStatusResponse::NotPresent => 0,
            CalibratorStatusResponse::Off => 1,
            CalibratorStatusResponse::NotReady => 2,
            CalibratorStatusResponse::Ready => 3,
            CalibratorStatusResponse::Unknown => 4,
            CalibratorStatusResponse::Error => 5,
        }
    }

    /// The value that `number` stands for, if any.
    pub open spec fn spec_from_primitive(number: i32) -> Option<Self> {
        if number == 0i32 {
            Some(CalibratorStatusResponse::NotPresent)
        } else if number == 1i32 {
            Some(CalibratorStatusResponse::Off)
        } else if number == 2i32 {
            Some(CalibratorStatusResponse::NotReady)
        } else if number == 3i32 {
            Some(CalibratorStatusResponse::Ready)
        } else if number == 4i32 {
            Some(CalibratorStatusResponse::Unknown)
        } else if number == 5i32 {
            Some(CalibratorStatusResponse::Error)
        } else {
            None
        }
    }

    /// The number that stands for this value on the wire; reading it back gives the
    /// value again.
    pub fn into_primitive(self) -> (r: i32)
        ensures
            r == self.spec_value(),
            Self::spec_from_primitive(r) == Some(self),
    {
        match self {
            CalibratorStatusResponse::NotPresent => 0,
            CalibratorStatusResponse::Off => 1,
            CalibratorStatusResponse::NotReady => 2,
            CalibratorStatusResponse::Ready => 3,
            CalibratorStatusResponse::Unknown => 4,
            CalibratorStatusResponse::Error => 5,
        }
    }

    /// The value that `number` stands for, if any.
    pub fn try_from_primitive(number: i32) -> (r: Option<Self>)
        ensures
            r == Self::spec_from_primitive(number),
            r matches Some(v) ==> v.spec_value() == number,
    {
        if number == 0 {
            Some(CalibratorStatusResponse::NotPresent)
        } else if number == 1 {
            Some(CalibratorStatusResponse::Off)
        } else if number == 2 {
            Some(CalibratorStatusResponse::NotReady)
        } else if number == 3 {
            Some(CalibratorStatusResponse::Ready)
        } else if number == 4 {
            Some(CalibratorStatusResponse::Unknown)
        } else if number == 5 {
            Some(CalibratorStatusResponse::Error)
        } else {
            None
        }
    }
}

/// Describes the state of a telescope cover.
#[derive(Debug, PartialEq, Eq, Clone, Copy, Structural)]
pub enum CoverStatusResponse {
    /// This device does not have a cover that can be closed independently.
    NotPresent,

    /// The cover is closed.
    Closed,

    /// The cover is moving to a new position.
    Moving,

    /// The cover is open.
    Open,

    /// The state of the cover is unknown.
    Unknown,

    /// The device encountered an error when changing state.
    Error,
}

impl CoverStatusResponse {
    /// The number that stands for this value on the wire.
    pub open spec fn spec_value(self) -> i32 {
        match self {
            CoverStatusResponse::NotPresent => 0,
            CoverStatusResponse::Closed => 1,
            CoverStatusResponse::Moving => 2,
            CoverStatusResponse::Open => 3,
            CoverStatusResponse::Unknown => 4,
            CoverStatusResponse::Error => 5,
        }
    }

    /// The value that `number` stands for, if any.
    pub open spec fn spec_from_primitive(number: i32) -> Option<Self> {
        if number == 0i32 {
            Some(CoverStatusResponse::NotPresent)
        } else if number == 1i32 {
            Some(CoverStatusResponse::Closed)
        } else if number == 2i32 {
            Some(CoverStatusResponse::Moving)
        } else if number == 3i32 {
            Some(CoverStatusResponse::Open)
        } else if number == 4i32 {
            Some(CoverStatusResponse::Unknown)
        } else if number == 5i32 {
            Some(CoverStatusResponse::Error)
        } else {
            None
        }
    }

    /// The number that stands for this value on the wire; reading it back gives the
    /// value again.
    pub fn into_primitive(self) -> (r: i32)
        ensures
            r == self.spec_value(),
            Self::spec_from_primitive(r) == Some(self),
    {
        match self {
            CoverStatusResponse::NotPresent => 0,
            CoverStatusResponse::Closed => 1,
            CoverStatusResponse::Moving => 2,
            CoverStatusResponse::Open => 3,
            CoverStatusResponse::Unknown => 4,
            CoverStatusResponse::Error => 5,
        }
    }

    /// The value that `number` stands for, if any.
    pub fn try_from_primitive(number: i32) -> (r: Option<Self>)
        ensures
            r == Self::spec_from_primitive(number),
            r matches Some(v) ==> v.spec_value() == number,
    {
        if number == 0 {
            Some(CoverStatusResponse::NotPresent)
        } else if number == 1 {
            Some(CoverStatusResponse::Closed)
        } else if number == 2 {
            Some(CoverStatusResponse::Moving)
        } else if number == 3 {
            Some(CoverStatusResponse::Open)
        } else if number == 4 {
            Some(CoverStatusResponse::Unknown)
        } else if number == 5 {
            Some(CoverStatusResponse::Error)
        } else {
            None
        }
    }
}

/// State of a dome shutter or roof.
#[derive(Debug, PartialEq, Eq, Clone, Copy, Structural)]
pub enum DomeShutterStatusResponse {
    /// Open.
    Open,

    /// Closed.
    Closed,

    /// Opening.
    Opening,

    /// Closing.
    Closing,

    /// Error.
    Error,
}

impl DomeShutterStatusResponse {
    /// The number that stands for this value on the wire.
    pub open spec fn spec_value(self) -> i32 {
        match self {
            DomeShutterStatusResponse::Open => 0,
            DomeShutterStatusResponse::Closed => 1,
            DomeShutterStatusResponse::Opening => 2,
            DomeShutterStatusResponse::Closing => 3,
            DomeShutterStatusResponse::Error => 4,
        }
    }

    /// The value that `number` stands for, if any.
    pub open spec fn spec_from_primitive(number: i32) -> Option<Self> {
        if number == 0i32 {
            Some(DomeShutterStatusResponse::Open)
        } else if number == 1i32 {
            Some(DomeShutterStatusResponse::Closed)
        } else if number == 2i32 {
            Some(DomeShutterStatusResponse::Opening)
        } else if number == 3i32 {
            Some(DomeShutterStatusResponse::Closing)
        } else if number == 4i32 {
            Some(DomeShutterStatusResponse::Error)
        } else {
            None
        }
    }

    /// The number that stands for this value on the wire; reading it back gives the
    /// value again.
    pub fn into_primitive(self) -> (r: i32)
        ensures
            r == self.spec_value(),
            Self::spec_from_primitive(r) == Some(self),
    {
        match self {
            DomeShutterStatusResponse::Open => 0,
            DomeShutterStatusResponse::Closed => 1,
            DomeShutterStatusResponse::Opening => 2,
            DomeShutterStatusResponse::Closing => 3,
            DomeShutterStatusResponse::Error => 4,
        }
    }

    /// The value that `number` stands for, if any.
    pub fn try_from_primitive(number: i32) -> (r: Option<Self>)
        ensures
            r == Self::spec_from_primitive(number),
            r matches Some(v) ==> v.spec_value() == number,
    {
        if number == 0 {
            Some(DomeShutterStatusResponse::Open)
        } else if number == 1 {
            Some(DomeShutterStatusResponse::Closed)
        } else if number == 2 {
            Some(DomeShutterStatusResponse::Opening)
        } else if number == 3 {
            Some(DomeShutterStatusResponse::Closing)
        } else if number == 4 {
            Some(DomeShutterStatusResponse::Error)
        } else {
            None
        }
    }
}

/// The alignment mode of a mount.
#[derive(Debug, PartialEq, Eq, Clone, Copy, Structural)]
pub enum AlignmentModeResponse {
    /// Altitude-Azimuth alignment.
    AltAz,

    /// Polar (equatorial) mount other than German equatorial.
    Polar,

    /// German equatorial mount.
    GermanPolar,
}

impl AlignmentModeResponse {
    /// The number that stands for this value on the wire.
    pub open spec fn spec_value(self) -> i32 {
        match self {
            AlignmentModeResponse::AltAz => 0,
            AlignmentModeResponse::Polar => 1,
            AlignmentModeResponse::GermanPolar => 2,
        }
    }

    /// The value that `number` stands for, if any.
    pub open spec fn spec_from_primitive(number: i32) -> Option<Self> {
        if number == 0i32 {
            Some(AlignmentModeResponse::AltAz)
        } else if number == 1i32 {
            Some(AlignmentModeResponse::Polar)
        } else if number == 2i32 {
            Some(AlignmentModeResponse::GermanPolar)
        } else {
            None
        }
    }

    /// The number that stands for this value on the wire; reading it back gives the
    /// value again.
    pub fn into_primitive(self) -> (r: i32)
        ensures
            r == self.spec_value(),
            Self::spec_from_primitive(r) == Some(self),
    {
        match self {
            AlignmentModeResponse::AltAz => 0,
            AlignmentModeResponse::Polar => 1,
            AlignmentModeResponse::GermanPolar => 2,
        }
    }

    /// The value that `number` stands for, if any.
    pub fn try_from_primitive(number: i32) -> (r: Option<Self>)
        ensures
            r == Self::spec_from_primitive(number),
            r matches Some(v) ==> v.spec_value() == number,
    {
        if number == 0 {
            Some(AlignmentModeResponse::AltAz)
        } else if number == 1 {
            Some(AlignmentModeResponse::Polar)
        } else if number == 2 {
            Some(AlignmentModeResponse::GermanPolar)
        } else {
            None
        }
    }
}

/// The equatorial coordinate system used by a mount.
#[derive(Debug, PartialEq, Eq, Clone, Copy, Structural)]
pub enum EquatorialSystemResponse {
    /// Custom or unknown equinox and/or reference frame.
    Other,

    /// Topocentric coordinates.
    Topocentric,

    /// J2000 equator/equinox, ICRS reference frame.
    J2000,

    /// J2050 equator/equinox, ICRS reference frame.
    J2050,

    /// B1950 equinox, FK4 reference frame.
    B1950,
}

impl EquatorialSystemResponse {
    /// The number that stands for this value on the wire.
    pub open spec fn spec_value(self) -> i32 {
        match self {
            EquatorialSystemResponse::Other => 0,
            EquatorialSystemResponse::Topocentric => 1,
            EquatorialSystemResponse::J2000 => 2,
            EquatorialSystemResponse::J2050 => 3,
            EquatorialSystemResponse::B1950 => 4,
        }
    }

    /// The value that `number` stands for, if any.
    pub open spec fn spec_from_primitive(number: i32) -> Option<Self> {
        if number == 0i32 {
            Some(EquatorialSystemResponse::Other)
        } else if number == 1i32 {
            Some(EquatorialSystemResponse::Topocentric)
        } else if number == 2i32 {
            Some(EquatorialSystemResponse::J2000)
        } else if number == 3i32 {
            Some(EquatorialSystemResponse::J2050)
        } else if number == 4i32 {
            Some(EquatorialSystemResponse::B1950)
        } else {
            None
        }
    }

    /// The number that stands for this value on the wire; reading it back gives the
    /// value again.
    pub fn into_primitive(self) -> (r: i32)
        ensures
            r == self.spec_value(),
            Self::spec_from_primitive(r) == Some(self),
    {
        match self {
            EquatorialSystemResponse::Other => 0,
            EquatorialSystemResponse::Topocentric => 1,
            EquatorialSystemResponse::J2000 => 2,
            EquatorialSystemResponse::J2050 => 3,
            EquatorialSystemResponse::B1950 => 4,
        }
    }

    /// The value that `number` stands for, if any.
    pub fn try_from_primitive(number: i32) -> (r: Option<Self>)
        ensures
            r == Self::spec_from_primitive(number),
            r matches Some(v) ==> v.spec_value() == number,
    {
        if number == 0 {
            Some(EquatorialSystemResponse::Other)
        } else if number == 1 {
            Some(EquatorialSystemResponse::Topocentric)
        } else if number == 2 {
            Some(EquatorialSystemResponse::J2000)
        } else if number == 3 {
            Some(EquatorialSystemResponse::J2050)
        } else if number == 4 {
            Some(EquatorialSystemResponse::B1950)
        } else {
            None
        }
    }
}

/// Pointing state of a mount.
#[derive(Debug, PartialEq, Eq, Clone, Copy, Structural)]
pub enum SideOfPierResponse {
    /// Normal pointing state - Mount on the East side of pier (looking West).
    East,

    /// Through the pole pointing state - Mount on the West side of pier (looking East).
    West,

    /// Unknown or indeterminate.
    Unknown,
}

impl SideOfPierResponse {
    /// The number that stands for this value on the wire.
    pub open spec fn spec_value(self) -> i32 {
        match self {
            SideOfPierResponse::East => 0,
            SideOfPierResponse::West => 1,
            SideOfPierResponse::Unknown => -1i32,
        }
    }

    /// The value that `number` stands for, if any.
    pub open spec fn spec_from_primitive(number: i32) -> Option<Self> {
        if number == 0i32 {
            Some(SideOfPierResponse::East)
        } else if number == 1i32 {
            Some(SideOfPierResponse::West)
        } else if number == -1i32 {
            Some(SideOfPierResponse::Unknown)
        } else {
            None
        }
    }

    /// The number that stands for this value on the wire; reading it back gives the
    /// value again.
    pub fn into_primitive(self) -> (r: i32)
        ensures
            r == self.spec_value(),
            Self::spec_from_primitive(r) == Some(self),
    {
        match self {
            SideOfPierResponse::East => 0,
            SideOfPierResponse::West => 1,
            SideOfPierResponse::Unknown => -1,
        }
    }

    /// The value that `number` stands for, if any.
    pub fn try_from_primitive(number: i32) -> (r: Option<Self>)
        ensures
            r == Self::spec_from_primitive(number),
            r matches Some(v) ==> v.spec_value() == number,
    {
        if number == 0 {
            Some(SideOfPierResponse::East)
        } else if number == 1 {
            Some(SideOfPierResponse::West)
        } else if number == -1 {
            Some(SideOfPierResponse::Unknown)
        } else {
            None
        }
    }
}

/// Requested pointing state of a mount.
#[derive(Debug, PartialEq, Eq, Clone, Copy, Structural)]
pub enum TelescopeSetSideOfPierRequestSideOfPier {
    /// Normal pointing state - Mount on the East side of pier (looking West).
    East,

    /// Through the pole pointing state - Mount on the West side of pier (looking East).
    West,
}

impl TelescopeSetSideOfPierRequestSideOfPier {
    /// The number that stands for this value on the wire.
    pub open spec fn spec_value(self) -> i32 {
        match self {
            TelescopeSetSideOfPierRequestSideOfPier::East => 0,
            TelescopeSetSideOfPierRequestSideOfPier::West => 1,
        }
    }

    /// The value that `number` stands for, if any.
    pub open spec fn spec_from_primitive(number: i32) -> Option<Self> {
        if number == 0i32 {
            Some(TelescopeSetSideOfPierRequestSideOfPier::East)
        } else if number == 1i32 {
            Some(TelescopeSetSideOfPierRequestSideOfPier::West)
        } else {
            None
        }
    }

    /// The number that stands for this value on the wire; reading it back gives the
    /// value again.
    pub fn into_primitive(self) -> (r: i32)
        ensures
            r == self.spec_value(),
            Self::spec_from_primitive(r) == Some(self),
    {
        match self {
            TelescopeSetSideOfPierRequestSideOfPier::East => 0,
            TelescopeSetSideOfPierRequestSideOfPier::West => 1,
        }
    }

    /// The value that `number` stands for, if any.
    pub fn try_from_primitive(number: i32) -> (r: Option<Self>)
        ensures
            r == Self::spec_from_primitive(number),
            r matches Some(v) ==> v.spec_value() == number,
    {
        if number == 0 {
            Some(TelescopeSetSideOfPierRequestSideOfPier::East)
        } else if number == 1 {
            Some(TelescopeSetSideOfPierRequestSideOfPier::West)
        } else {
            None
        }
    }
}

/// A standard tracking rate.
#[derive(Debug, PartialEq, Eq, Clone, Copy, Structural)]
pub enum DriveRate {
    /// 15.041 arcseconds per second
    Sidereal,

    /// 14.685 arcseconds per second
    Lunar,

    /// 15.0 arcseconds per second
    Solar,

    /// 15.0369 arcseconds per second
    King,
}

impl DriveRate {
    /// The number that stands for this value on the wire.
    pub open spec fn spec_value(self) -> i32 {
        match self {
            DriveRate::Sidereal => 0,
            DriveRate::Lunar => 1,
            DriveRate::Solar => 2,
            DriveRate::King => 3,
        }
    }

    /// The value that `number` stands for, if any.
    pub open spec fn spec_from_primitive(number: i32) -> Option<Self> {
        if number == 0i32 {
            Some(DriveRate::Sidereal)
        } else if number == 1i32 {
            Some(DriveRate::Lunar)
        } else if number == 2i32 {
            Some(DriveRate::Solar)
        } else if number == 3i32 {
            Some(DriveRate::King)
        } else {
            None
        }
    }

    /// The number that stands for this value on the wire; reading it back gives the
    /// value again.
    pub fn into_primitive(self) -> (r: i32)
        ensures
            r == self.spec_value(),
            Self::spec_from_primitive(r) == Some(self),
    {
        match self {
            DriveRate::Sidereal => 0,
            DriveRate::Lunar => 1,
            DriveRate::Solar => 2,
            DriveRate::King => 3,
        }
    }

    /// The value that `number` stands for, if any.
    pub fn try_from_primitive(number: i32) -> (r: Option<Self>)
        ensures
            r == Self::spec_from_primitive(number),
            r matches Some(v) ==> v.spec_value() == number,
    {
        if number == 0 {
            Some(DriveRate::Sidereal)
        } else if number == 1 {
            Some(DriveRate::Lunar)
        } else if number == 2 {
            Some(DriveRate::Solar)
        } else if number == 3 {
            Some(DriveRate::King)
        } else {
            None
        }
    }
}

/// A mount axis.
#[derive(Debug, PartialEq, Eq, Clone, Copy, Structural)]
pub enum Axis {
    /// Primary axis.
    Primary,

    /// Secondary axis.
    Secondary,

    /// Tertiary axis.
    Tertiary,
}

impl Axis {
    /// The number that stands for this value on the wire.
    pub open spec fn spec_value(self) -> i32 {
        match self {
            Axis::Primary => 0,
            Axis::Secondary => 1,
            Axis::Tertiary => 2,
        }
    }

    /// The value that `number` stands for, if any.
    pub open spec fn spec_from_primitive(number: i32) -> Option<Self> {
        if number == 0i32 {
            Some(Axis::Primary)
        } else if number == 1i32 {
            Some(Axis::Secondary)
        } else if number == 2i32 {
            Some(Axis::Tertiary)
        } else {
            None
        }
    }

    /// The number that stands for this value on the wire; reading it back gives the
    /// value again.
    pub fn into_primitive(self) -> (r: i32)
        ensures
            r == self.spec_value(),
            Self::spec_from_primitive(r) == Some(self),
    {
        match self {
            Axis::Primary => 0,
            Axis::Secondary => 1,
            Axis::Tertiary => 2,
        }
    }

    /// The value that `number` stands for, if any.
    pub fn try_from_primitive(number: i32) -> (r: Option<Self>)
        ensures
            r == Self::spec_from_primitive(number),
            r matches Some(v) ==> v.spec_value() == number,
    {
        if number == 0 {
            Some(Axis::Primary)
        } else if number == 1 {
            Some(Axis::Secondary)
        } else if number == 2 {
            Some(Axis::Tertiary)
        } else {
            None
        }
    }
}


/// Rank of an image array in a response.
#[derive(Debug, PartialEq, Eq, Clone, Copy, Structural)]
pub enum ImageArrayResponseRank {
    /// 2D
    Rank2,

    /// 3D
    Rank3,
}

impl ImageArrayResponseRank {
    /// The number that stands for this value on the wire.
    pub open spec fn spec_value(self) -> u8 {
        match self {
            ImageArrayResponseRank::Rank2 => 2,
            ImageArrayResponseRank::Rank3 => 3,
        }
    }

    /// The value that `number` stands for, if any.
    pub open spec fn spec_from_primitive(number: u8) -> Option<Self> {
        if number == 2u8 {
            Some(ImageArrayResponseRank::Rank2)
        } else if number == 3u8 {
            Some(ImageArrayResponseRank::Rank3)
        } else {
            None
        }
    }

    /// The number that stands for this value on the wire; reading it back gives the
    /// value again.
    pub fn into_primitive(self) -> (r: u8)
        ensures
            r == self.spec_value(),
            Self::spec_from_primitive(r) == Some(self),
    {
        match self {
            ImageArrayResponseRank::Rank2 => 2,
            ImageArrayResponseRank::Rank3 => 3,
        }
    }

    /// The value that `number` stands for, if any.
    pub fn try_from_primitive(number: u8) -> (r: Option<Self>)
        ensures
            r == Self::spec_from_primitive(number),
            r matches Some(v) ==> v.spec_value() == number,
    {
        if number == 2 {
            Some(ImageArrayResponseRank::Rank2)
        } else if number == 3 {
            Some(ImageArrayResponseRank::Rank3)
        } else {
            None
        }
    }
}

/// The wire numbers of `CameraStateResponse` are fixed by the Alpaca protocol: `Idle` is 0,
/// `Waiting` is 1, `Exposing` is 2, `Reading` is 3, `Download` is 4, `Error` is 5; no other
/// number stands for a value, and each number is read back as the value it stands for.
pub proof fn lemma_camera_state_response_wire_numbers(number: i32)
    ensures
        CameraStateResponse::Idle.spec_value() == 0i32,
        CameraStateResponse::Waiting.spec_value() == 1i32,
        CameraStateResponse::Exposing.spec_value() == 2i32,
        CameraStateResponse::Reading.spec_value() == 3i32,
        CameraStateResponse::Download.spec_value() == 4i32,
        CameraStateResponse::Error.spec_value() == 5i32,
        CameraStateResponse::spec_from_primitive(0i32) == Some(CameraStateResponse::Idle),
        CameraStateResponse::spec_from_primitive(1i32) == Some(CameraStateResponse::Waiting),
        CameraStateResponse::spec_from_primitive(2i32) == Some(CameraStateResponse::Exposing),
        CameraStateResponse::spec_from_primitive(3i32) == Some(CameraStateResponse::Reading),
        CameraStateResponse::spec_from_primitive(4i32) == Some(CameraStateResponse::Download),
        CameraStateResponse::spec_from_primitive(5i32) == Some(CameraStateResponse::Error),
        (number != 0i32 && number != 1i32 && number != 2i32 && number != 3i32 && number != 4i32 && number != 5i32) ==> CameraStateResponse::spec_from_primitive(number) is None,
{
}

/// The wire numbers of `ImageArrayResponseType` are fixed by the Alpaca protocol: `Unknown`
/// is 0, `Short` is 1, `Integer` is 2, `Double` is 3; no other number stands for a value,
/// and each number is read back as the value it stands for.
pub proof fn lemma_image_array_response_type_wire_numbers(number: i32)
    ensures
        ImageArrayResponseType::Unknown.spec_value() == 0i32,
        ImageArrayResponseType::Short.spec_value() == 1i32,
        ImageArrayResponseType::Integer.spec_value() == 2i32,
        ImageArrayResponseType::Double.spec_value() == 3i32,
        ImageArrayResponseType::spec_from_primitive(0i32) == Some(ImageArrayResponseType::Unknown),
        ImageArrayResponseType::spec_from_primitive(1i32) == Some(ImageArrayResponseType::Short),
        ImageArrayResponseType::spec_from_primitive(2i32) == Some(ImageArrayResponseType::Integer),
        ImageArrayResponseType::spec_from_primitive(3i32) == Some(ImageArrayResponseType::Double),
        (number != 0i32 && number != 1i32 && number != 2i32 && number != 3i32) ==> ImageArrayResponseType::spec_from_primitive(number) is None,
{
}

/// The wire numbers of `SensorTypeResponse` are fixed by the Alpaca protocol: `Monochrome`
/// is 0, `Color` is 1, `RGGB` is 2, `CMYG` is 3, `CMYG2` is 4, `LRGB` is 5; no other number
/// stands for a value, and each number is read back as the value it stands for.
pub proof fn lemma_sensor_type_response_wire_numbers(number: i32)
    ensures
        SensorTypeResponse::Monochrome.spec_value() == 0i32,
        SensorTypeResponse::Color.spec_value() == 1i32,
        SensorTypeResponse::RGGB.spec_value() == 2i32,
        SensorTypeResponse::CMYG.spec_value() == 3i32,
        SensorTypeResponse::CMYG2.spec_value() == 4i32,
        SensorTypeResponse::LRGB.spec_value() == 5i32,
        SensorTypeResponse::spec_from_primitive(0i32) == Some(SensorTypeResponse::Monochrome),
        SensorTypeResponse::spec_from_primitive(1i32) == Some(SensorTypeResponse::Color),
        SensorTypeResponse::spec_from_primitive(2i32) == Some(SensorTypeResponse::RGGB),
        SensorTypeResponse::spec_from_primitive(3i32) == Some(SensorTypeResponse::CMYG),
        SensorTypeResponse::spec_from_primitive(4i32) == Some(SensorTypeResponse::CMYG2),
        SensorTypeResponse::spec_from_primitive(5i32) == Some(SensorTypeResponse::LRGB),
        (number != 0i32 && number != 1i32 && number != 2i32 && number != 3i32 && number != 4i32 && number != 5i32) ==> SensorTypeResponse::spec_from_primitive(number) is None,
{
}

/// The wire numbers of `PutPulseGuideDirection` are fixed by the Alpaca protocol: `North`
/// is 0, `South` is 1, `East` is 2, `West` is 3; no other number stands for a value, and
/// each number is read back as the value it stands for.
pub proof fn lemma_put_pulse_guide_direction_wire_numbers(number: i32)
    ensures
        PutPulseGuideDirection::North.spec_value() == 0i32,
        PutPulseGuideDirection::South.spec_value() == 1i32,
        PutPulseGuideDirection::East.spec_value() == 2i32,
        PutPulseGuideDirection::West.spec_value() == 3i32,
        PutPulseGuideDirection::spec_from_primitive(0i32) == Some(PutPulseGuideDirection::North),
        PutPulseGuideDirection::spec_from_primitive(1i32) == Some(PutPulseGuideDirection::South),
        PutPulseGuideDirection::spec_from_primitive(2i32) == Some(PutPulseGuideDirection::East),
        PutPulseGuideDirection::spec_from_primitive(3i32) == Some(PutPulseGuideDirection::West),
        (number != 0i32 && number != 1i32 && number != 2i32 && number != 3i32) ==> PutPulseGuideDirection::spec_from_primitive(number) is None,
{
}

/// The wire numbers of `CalibratorStatusResponse` are fixed by the Alpaca protocol:
/// `NotPresent` is 0, `Off` is 1, `NotReady` is 2, `Ready` is 3, `Unknown` is 4, `Error` is
/// 5; no other number stands for a value, and each number is read back as the value it
/// stands for.
pub proof fn lemma_calibrator_status_response_wire_numbers(number: i32)
    ensures
        CalibratorStatusResponse::NotPresent.spec_value() == 0i32,
        CalibratorStatusResponse::Off.spec_value() == 1i32,
        CalibratorStatusResponse::NotReady.spec_value() == 2i32,
        CalibratorStatusResponse::Ready.spec_value() == 3i32,
        CalibratorStatusResponse::Unknown.spec_value() == 4i32,
        CalibratorStatusResponse::Error.spec_value() == 5i32,
        CalibratorStatusResponse::spec_from_primitive(0i32) == Some(CalibratorStatusResponse::NotPresent),
        CalibratorStatusResponse::spec_from_primitive(1i32) == Some(CalibratorStatusResponse::Off),
        CalibratorStatusResponse::spec_from_primitive(2i32) == Some(CalibratorStatusResponse::NotReady),
        CalibratorStatusResponse::spec_from_primitive(3i32) == Some(CalibratorStatusResponse::Ready),
        CalibratorStatusResponse::spec_from_primitive(4i32) == Some(CalibratorStatusResponse::Unknown),
        CalibratorStatusResponse::spec_from_primitive(5i32) == Some(CalibratorStatusResponse::Error),
        (number != 0i32 && number != 1i32 && number != 2i32 && number != 3i32 && number != 4i32 && number != 5i32) ==> CalibratorStatusResponse::spec_from_primitive(number) is None,
{
}

/// The wire numbers of `CoverStatusResponse` are fixed by the Alpaca protocol: `NotPresent`
/// is 0, `Closed` is 1, `Moving` is 2, `Open` is 3, `Unknown` is 4, `Error` is 5; no other
/// number stands for a value, and each number is read back as the value it stands for.
pub proof fn lemma_cover_status_response_wire_numbers(number: i32)
    ensures
        CoverStatusResponse::NotPresent.spec_value() == 0i32,
        CoverStatusResponse::Closed.spec_value() == 1i32,
        CoverStatusResponse::Moving.spec_value() == 2i32,
        CoverStatusResponse::Open.spec_value() == 3i32,
        CoverStatusResponse::Unknown.spec_value() == 4i32,
        CoverStatusResponse::Error.spec_value() == 5i32,
        CoverStatusResponse::spec_from_primitive(0i32) == Some(CoverStatusResponse::NotPresent),
        CoverStatusResponse::spec_from_primitive(1i32) == Some(CoverStatusResponse::Closed),
        CoverStatusResponse::spec_from_primitive(2i32) == Some(CoverStatusResponse::Moving),
        CoverStatusResponse::spec_from_primitive(3i32) == Some(CoverStatusResponse::Open),
        CoverStatusResponse::spec_from_primitive(4i32) == Some(CoverStatusResponse::Unknown),
        CoverStatusResponse::spec_from_primitive(5i32) == Some(CoverStatusResponse::Error),
        (number != 0i32 && number != 1i32 && number != 2i32 && number != 3i32 && number != 4i32 && number != 5i32) ==> CoverStatusResponse::spec_from_primitive(number) is None,
{
}

/// The wire numbers of `DomeShutterStatusResponse` are fixed by the Alpaca protocol: `Open`
/// is 0, `Closed` is 1, `Opening` is 2, `Closing` is 3, `Error` is 4; no other number
/// stands for a value, and each number is read back as the value it stands for.
pub proof fn lemma_dome_shutter_status_response_wire_numbers(number: i32)
    ensures
        DomeShutterStatusResponse::Open.spec_value() == 0i32,
        DomeShutterStatusResponse::Closed.spec_value() == 1i32,
        DomeShutterStatusResponse::Opening.spec_value() == 2i32,
        DomeShutterStatusResponse::Closing.spec_value() == 3i32,
        DomeShutterStatusResponse::Error.spec_value() == 4i32,
        DomeShutterStatusResponse::spec_from_primitive(0i32) == Some(DomeShutterStatusResponse::Open),
        DomeShutterStatusResponse::spec_from_primitive(1i32) == Some(DomeShutterStatusResponse::Closed),
        DomeShutterStatusResponse::spec_from_primitive(2i32) == Some(DomeShutterStatusResponse::Opening),
        DomeShutterStatusResponse::spec_from_primitive(3i32) == Some(DomeShutterStatusResponse::Closing),
        DomeShutterStatusResponse::spec_from_primitive(4i32) == Some(DomeShutterStatusResponse::Error),
        (number != 0i32 && number != 1i32 && number != 2i32 && number != 3i32 && number != 4i32) ==> DomeShutterStatusResponse::spec_from_primitive(number) is None,
{
}

/// The wire numbers of `AlignmentModeResponse` are fixed by the Alpaca protocol: `AltAz` is
/// 0, `Polar` is 1, `GermanPolar` is 2; no other number stands for a value, and each number
/// is read back as the value it stands for.
pub proof fn lemma_alignment_mode_response_wire_numbers(number: i32)
    ensures
        AlignmentModeResponse::AltAz.spec_value() == 0i32,
        AlignmentModeResponse::Polar.spec_value() == 1i32,
        AlignmentModeResponse::GermanPolar.spec_value() == 2i32,
        AlignmentModeResponse::spec_from_primitive(0i32) == Some(AlignmentModeResponse::AltAz),
        AlignmentModeResponse::spec_from_primitive(1i32) == Some(AlignmentModeResponse::Polar),
        AlignmentModeResponse::spec_from_primitive(2i32) == Some(AlignmentModeResponse::GermanPolar),
        (number != 0i32 && number != 1i32 && number != 2i32) ==> AlignmentModeResponse::spec_from_primitive(number) is None,
{
}

/// The wire numbers of `EquatorialSystemResponse` are fixed by the Alpaca protocol: `Other`
/// is 0, `Topocentric` is 1, `J2000` is 2, `J2050` is 3, `B1950` is 4; no other number
/// stands for a value, and each number is read back as the value it stands for.
pub proof fn lemma_equatorial_system_response_wire_numbers(number: i32)
    ensures
        EquatorialSystemResponse::Other.spec_value() == 0i32,
        EquatorialSystemResponse::Topocentric.spec_value() == 1i32,
        EquatorialSystemResponse::J2000.spec_value() == 2i32,
        EquatorialSystemResponse::J2050.spec_value() == 3i32,
        EquatorialSystemResponse::B1950.spec_value() == 4i32,
        EquatorialSystemResponse::spec_from_primitive(0i32) == Some(EquatorialSystemResponse::Other),
        EquatorialSystemResponse::spec_from_primitive(1i32) == Some(EquatorialSystemResponse::Topocentric),
        EquatorialSystemResponse::spec_from_primitive(2i32) == Some(EquatorialSystemResponse::J2000),
        EquatorialSystemResponse::spec_from_primitive(3i32) == Some(EquatorialSystemResponse::J2050),
        EquatorialSystemResponse::spec_from_primitive(4i32) == Some(EquatorialSystemResponse::B1950),
        (number != 0i32 && number != 1i32 && number != 2i32 && number != 3i32 && number != 4i32) ==> EquatorialSystemResponse::spec_from_primitive(number) is None,
{
}

/// The wire numbers of `SideOfPierResponse` are fixed by the Alpaca protocol: `East` is 0,
/// `West` is 1, `Unknown` is -1; no other number stands for a value, and each number is
/// read back as the value it stands for.
pub proof fn lemma_side_of_pier_response_wire_numbers(number: i32)
    ensures
        SideOfPierResponse::East.spec_value() == 0i32,
        SideOfPierResponse::West.spec_value() == 1i32,
        SideOfPierResponse::Unknown.spec_value() == -1i32,
        SideOfPierResponse::spec_from_primitive(0i32) == Some(SideOfPierResponse::East),
        SideOfPierResponse::spec_from_primitive(1i32) == Some(SideOfPierResponse::West),
        SideOfPierResponse::spec_from_primitive(-1i32) == Some(SideOfPierResponse::Unknown),
        (number != 0i32 && number != 1i32 && number != -1i32) ==> SideOfPierResponse::spec_from_primitive(number) is None,
{
}

/// The wire numbers of `TelescopeSetSideOfPierRequestSideOfPier` are fixed by the Alpaca
/// protocol: `East` is 0, `West` is 1; no other number stands for a value, and each number
/// is read back as the value it stands for.
pub proof fn lemma_telescope_set_side_of_pier_request_side_of_pier_wire_numbers(number: i32)
    ensures
        TelescopeSetSideOfPierRequestSideOfPier::East.spec_value() == 0i32,
        TelescopeSetSideOfPierRequestSideOfPier::West.spec_value() == 1i32,
        TelescopeSetSideOfPierRequestSideOfPier::spec_from_primitive(0i32) == Some(TelescopeSetSideOfPierRequestSideOfPier::East),
        TelescopeSetSideOfPierRequestSideOfPier::spec_from_primitive(1i32) == Some(TelescopeSetSideOfPierRequestSideOfPier::West),
        (number != 0i32 && number != 1i32) ==> TelescopeSetSideOfPierRequestSideOfPier::spec_from_primitive(number) is None,
{
}

/// The wire numbers of `DriveRate` are fixed by the Alpaca protocol: `Sidereal` is 0,
/// `Lunar` is 1, `Solar` is 2, `King` is 3; no other number stands for a value, and each
/// number is read back as the value it stands for.
pub proof fn lemma_drive_rate_wire_numbers(number: i32)
    ensures
        DriveRate::Sidereal.spec_value() == 0i32,
        DriveRate::Lunar.spec_value() == 1i32,
        DriveRate::Solar.spec_value() == 2i32,
        DriveRate::King.spec_value() == 3i32,
        DriveRate::spec_from_primitive(0i32) == Some(DriveRate::Sidereal),
        DriveRate::spec_from_primitive(1i32) == Some(DriveRate::Lunar),
        DriveRate::spec_from_primitive(2i32) == Some(DriveRate::Solar),
        DriveRate::spec_from_primitive(3i32) == Some(DriveRate::King),
        (number != 0i32 && number != 1i32 && number != 2i32 && number != 3i32) ==> DriveRate::spec_from_primitive(number) is None,
{
}

/// The wire numbers of `Axis` are fixed by the Alpaca protocol: `Primary` is 0, `Secondary`
/// is 1, `Tertiary` is 2; no other number stands for a value, and each number is read back
/// as the value it stands for.
pub proof fn lemma_axis_wire_numbers(number: i32)
    ensures
        Axis::Primary.spec_value() == 0i32,
        Axis::Secondary.spec_value() == 1i32,
        Axis::Tertiary.spec_value() == 2i32,
        Axis::spec_from_primitive(0i32) == Some(Axis::Primary),
        Axis::spec_from_primitive(1i32) == Some(Axis::Secondary),
        Axis::spec_from_primitive(2i32) == Some(Axis::Tertiary),
        (number != 0i32 && number != 1i32 && number != 2i32) ==> Axis::spec_from_primitive(number) is None,
{
}

/// The wire numbers of `ImageArrayResponseRank` are fixed by the Alpaca protocol: `Rank2`
/// is 2, `Rank3` is 3; no other number stands for a value, and each number is read back as
/// the value it stands for.
pub proof fn lemma_image_array_response_rank_wire_numbers(number: u8)
    ensures
        ImageArrayResponseRank::Rank2.spec_value() == 2u8,
        ImageArrayResponseRank::Rank3.spec_value() == 3u8,
        ImageArrayResponseRank::spec_from_primitive(2u8) == Some(ImageArrayResponseRank::Rank2),
        ImageArrayResponseRank::spec_from_primitive(3u8) == Some(ImageArrayResponseRank::Rank3),
        (number != 2u8 && number != 3u8) ==> ImageArrayResponseRank::spec_from_primitive(number) is None,
{
}

} // verus!
