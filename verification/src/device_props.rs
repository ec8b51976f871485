//! Conveniences on device properties: the camera gain mode, filter wheel positions on the
//! wire, boolean request parameters, and the calibrator and cover flags derived from
//! their states.

use vstd::prelude::*;
use crate::enums::{CalibratorStatus, CoverStatus};
use crate::errors::ASCOMError;
use crate::text::{ascii_lower, eq_ignore_ascii_case, same_text_ignore_ascii_case};

verus! {

/// Camera gain mode.
#[derive(Debug)]
pub enum GainMode {
    /// A range of valid Gain values, both ends included.
    Range(i32, i32),
    /// A list of valid Gain values.
    List(Vec<String>),
}

/// A result, with "not implemented" turned into `Ok(None)`.
pub open spec fn spec_if_implemented<T>(res: Result<T, ASCOMError>) -> Result<Option<T>, ASCOMError> {
    match res {
        Ok(v) => Ok(Some(v)),
        Err(e) => if e.code@ == 0x400 {
            Ok(None)
        } else {
            Err(e)
        },
    }
}

/// A result, with "not implemented" turned into `Ok(None)`.
pub fn if_implemented<T>(res: Result<T, ASCOMError>) -> (r: Result<Option<T>, ASCOMError>)
    ensures
        r == spec_if_implemented(res),
{
    match res {
        Ok(v) => Ok(Some(v)),
        Err(e) => {
            if e.code.raw() == 0x400 {
                Ok(None)
            } else {
                Err(e)
            }
        },
    }
}

/// What to do once a camera has answered for its list of gains.
#[derive(Debug)]
pub enum GainModeStep {
    /// The gain mode is known: this is the answer.
    Done(Result<Option<GainMode>, ASCOMError>),
    /// The camera has no list of gains: ask for its gain range.
    AskRange,
}

/// The gain mode after the list of gains was asked for: the list when there is one, an
/// error as it came, and otherwise a request for the gain range.
pub fn gain_mode_after_list(gains: Result<Vec<String>, ASCOMError>) -> (r: GainModeStep)
    ensures
        match spec_if_implemented(gains) {
            Ok(Some(list)) => r matches GainModeStep::Done(Ok(Some(GainMode::List(l)))) && l == list,
            Ok(None) => r is AskRange,
            Err(e) => r matches GainModeStep::Done(Err(x)) && x == e,
        },
{
    match if_implemented(gains) {
        Ok(Some(list)) => GainModeStep::Done(Ok(Some(GainMode::List(list)))),
        Ok(None) => GainModeStep::AskRange,
        Err(e) => GainModeStep::Done(Err(e)),
    }
}

/// The gain mode after the gain range was asked for: the range when there is one, no gain
/// mode when the camera has none, and an error as it came.
pub fn gain_mode_after_range(range: Result<(i32, i32), ASCOMError>) -> (r: Result<
    Option<GainMode>,
    ASCOMError,
>)
    ensures
        match spec_if_implemented(range) {
            Ok(Some((lo, hi))) => r matches Ok(Some(GainMode::Range(a, b))) && a == lo && b == hi,
            Ok(None) => r matches Ok(None),
            Err(e) => r matches Err(x) && x == e,
        },
{
    match if_implemented(range) {
        Ok(Some((lo, hi))) => Ok(Some(GainMode::Range(lo, hi))),
        Ok(None) => Ok(None),
        Err(e) => Err(e),
    }
}

/// The gain range from the results for the minimum and the maximum gain: the first error
/// when either failed.
pub fn gain_range(min: Result<i32, ASCOMError>, max: Result<i32, ASCOMError>) -> (r: Result<
    (i32, i32),
    ASCOMError,
>)
    ensures
        match (min, max) {
            (Ok(lo), Ok(hi)) => r == Ok::<(i32, i32), ASCOMError>((lo, hi)),
            (Err(e), _) => r matches Err(x) && x == e,
            (Ok(_), Err(e)) => r matches Err(x) && x == e,
        },
{
    match min {
        Err(e) => Err(e),
        Ok(lo) => match max {
            Ok(hi) => Ok((lo, hi)),
            Err(e) => Err(e),
        },
    }
}

/// The number that stands for a filter wheel position on the wire: `-1` while the wheel
/// moves (no position), and otherwise the position taken as a signed integer.
pub open spec fn spec_position_to_wire(position: Option<usize>) -> i64 {
    match position {
        None => -1i64,
        Some(p) => (p as isize) as i64,
    }
}

/// The number that stands for a filter wheel position on the wire: `-1` while the wheel
/// moves (no position), and otherwise the position taken as a signed integer.
pub fn position_to_wire(position: Option<usize>) -> (r: i64)
    ensures
        r == spec_position_to_wire(position),
{
    match position {
        None => -1,
        Some(p) => {
            let s = p as isize;
            s as i64
        },
    }
}

/// A number on the wire that stands for no filter wheel position; it is handed back.
#[derive(Debug, Clone, Copy, PartialEq, Eq, Structural)]
pub struct InvalidPosition(pub i64);

/// The filter wheel position that a number on the wire stands for: none for `-1`, the
/// number itself when it is a valid `usize`, and an error otherwise.
pub open spec fn spec_position_from_wire(value: i64) -> Result<Option<usize>, InvalidPosition> {
    if value == -1 {
        Ok(None)
    } else if 0 <= value <= usize::MAX {
        Ok(Some(value as usize))
    } else {
        Err(InvalidPosition(value))
    }
}

/// The filter wheel position that a number on the wire stands for: none for `-1`, the
/// number itself when it is a valid `usize`, and an error otherwise.
pub fn position_from_wire(value: i64) -> (r: Result<Option<usize>, InvalidPosition>)
    ensures
        r == spec_position_from_wire(value),
{
    if value == -1 {
        Ok(None)
    } else if value >= 0 && (value as u64) <= (usize::MAX as u64) {
        Ok(Some(value as usize))
    } else {
        Err(InvalidPosition(value))
    }
}

/// Reading back a filter wheel position written to the wire gives the position again,
/// for "moving" and for every position up to `isize::MAX`.
pub proof fn lemma_position_round_trip(position: Option<usize>)
    requires
        position matches Some(p) ==> p <= isize::MAX,
    ensures
        spec_position_from_wire(spec_position_to_wire(position)) == Ok::<
            Option<usize>,
            InvalidPosition,
        >(position),
{
}

/// The text a boolean request parameter is written as.
pub open spec fn spec_bool_text(b: bool) -> Seq<char> {
    if b {
        "true"@
    } else {
        "false"@
    }
}

/// The text a boolean request parameter is written as.
pub fn bool_param_text(b: bool) -> (r: &'static str)
    ensures
        r@ == spec_bool_text(b),
{
    if b {
        "true"
    } else {
        "false"
    }
}

/// A request parameter that is neither `true` nor `false` in any casing.
#[derive(Debug)]
pub struct InvalidBool(pub String);

/// The boolean a request parameter stands for: `true` and `false` in any ASCII casing.
pub open spec fn spec_parse_bool_param(text: Seq<char>) -> Option<bool> {
    if eq_ignore_ascii_case(text, "true"@) {
        Some(true)
    } else if eq_ignore_ascii_case(text, "false"@) {
        Some(false)
    } else {
        None
    }
}

/// The boolean a request parameter stands for: `true` and `false` in any ASCII casing;
/// any other text is handed back as the error.
pub fn parse_bool_param(text: &str) -> (r: Result<bool, InvalidBool>)
    ensures
        match spec_parse_bool_param(text@) {
            Some(b) => r matches Ok(x) && x == b,
            None => r matches Err(InvalidBool(t)) && t@ == text@,
        },
{
    let chars = crate::text::chars_of(text);
    if same_text_ignore_ascii_case(chars.as_slice(), "true") {
        Ok(true)
    } else if same_text_ignore_ascii_case(chars.as_slice(), "false") {
        Ok(false)
    } else {
        Err(InvalidBool(text.to_owned()))
    }
}

/// Reading back a boolean request parameter gives the boolean again.
pub proof fn lemma_bool_param_round_trip(b: bool)
    ensures
        spec_parse_bool_param(spec_bool_text(b)) == Some(b),
{
    reveal_strlit("true");
    reveal_strlit("false");
    if !b {
        assert(!eq_ignore_ascii_case("false"@, "true"@));
    }
}

/// Whether a calibrator in state `state` is not yet stable.
pub fn calibrator_changing(state: CalibratorStatus) -> (r: bool)
    ensures
        r == (state == CalibratorStatus::NotReady),
{
    state == CalibratorStatus::NotReady
}

/// Whether a cover in state `state` is moving.
pub fn cover_moving(state: CoverStatus) -> (r: bool)
    ensures
        r == (state == CoverStatus::Moving),
{
    state == CoverStatus::Moving
}

} // verus!
