//! ASCOM error codes and errors.

use vstd::prelude::*;
use crate::text::{dec_digits, hex_digits, push_decimal, push_hex};

verus! {

/// The starting value for error numbers.
pub const BASE: u16 = 0x400;

/// The starting value for driver-specific error numbers.
pub const DRIVER_BASE: u16 = 0x500;

/// The maximum value for error numbers.
pub const MAX: u16 = 0xFFF;

/// The largest zero-based driver error code (`MAX - DRIVER_BASE`).
pub const DRIVER_MAX: u16 = 0xAFF;

/// Raw value of the reserved catch-all code used when nothing else was specified.
pub const UNSPECIFIED_RAW: u16 = 0x4FF;

/// Whether `raw` lies in the valid range of error numbers, `0x400..=0xFFF`.
pub open spec fn in_valid_range(raw: int) -> bool {
    BASE <= raw && raw <= MAX
}

/// Whether `raw` is a code an `ASCOMErrorCode` can hold: success (`0`) or a value in
/// the valid range.
pub open spec fn is_valid_code(raw: u16) -> bool {
    raw == 0 || in_valid_range(raw as int)
}

/// The name under which a well-known code is printed, if it has one.
pub open spec fn well_known_name(raw: u16) -> Option<Seq<char>> {
    if raw == 0 {
        Some("OK"@)
    } else if raw == 0x400 {
        Some("NOT_IMPLEMENTED"@)
    } else if raw == 0x401 {
        Some("INVALID_VALUE"@)
    } else if raw == 0x402 {
        Some("VALUE_NOT_SET"@)
    } else if raw == 0x407 {
        Some("NOT_CONNECTED"@)
    } else if raw == 0x408 {
        Some("INVALID_WHILE_PARKED"@)
    } else if raw == 0x409 {
        Some("INVALID_WHILE_SLAVED"@)
    } else if raw == 0x40B {
        Some("INVALID_OPERATION"@)
    } else if raw == 0x40C {
        Some("ACTION_NOT_IMPLEMENTED"@)
    } else if raw == 0x40D {
        Some("OPERATION_CANCELLED"@)
    } else if raw == 0x4FF {
        Some("UNSPECIFIED"@)
    } else {
        None
    }
}

/// The standard message of a well-known code (empty for success).
pub open spec fn well_known_message(raw: u16) -> Seq<char> {
    if raw == 0x400 {
        "Property or method not implemented."@
    } else if raw == 0x401 {
        "Invalid value."@
    } else if raw == 0x402 {
        "A value has not been set."@
    } else if raw == 0x407 {
        "The communications channel is not connected."@
    } else if raw == 0x408 {
        "The attempted operation is invalid because the mount is currently in a Parked state."@
    } else if raw == 0x409 {
        "The attempted operation is invalid because the mount is currently in a Slaved state."@
    } else if raw == 0x40B {
        "The requested operation can not be undertaken at this time."@
    } else if raw == 0x40C {
        "The requested action is not implemented in this driver."@
    } else if raw == 0x40D {
        "In-progress asynchronous operation has been cancelled."@
    } else if raw == 0x4FF {
        "Reserved 'catch-all' error code (0x4FF) used when nothing else was specified."@
    } else {
        ""@
    }
}

/// How a code is printed: its well-known name, `DRIVER_ERROR[n]` for a driver code,
/// or `0x` followed by the upper-case hexadecimal value otherwise.
pub open spec fn code_text(raw: u16) -> Seq<char> {
    match well_known_name(raw) {
        Some(name) => name,
        None => if raw >= DRIVER_BASE {
            "DRIVER_ERROR["@ + dec_digits((raw - DRIVER_BASE) as nat) + "]"@
        } else {
            "0x"@ + hex_digits(raw as nat)
        },
    }
}

/// The upper-case hexadecimal rendering of a 32-bit signed number in two's complement,
/// as `{:#X}` prints an `i32`.
pub open spec fn i32_hex_text(raw: i32) -> Seq<char> {
    "0x"@ + hex_digits(if raw < 0 { (raw + 0x1_0000_0000) as nat } else { raw as nat })
}

/// The message of the range error for a code rendered as `hex`.
pub open spec fn out_of_range_text(hex: Seq<char>) -> Seq<char> {
    "Error code "@ + hex + " is out of valid range (0x400..=0xFFF)"@
}

/// The zero-based driver error code that a raw code stands for, or the raw code when it
/// is no driver error.
pub open spec fn spec_driver_error(raw: u16) -> Result<u16, u16> {
    if raw >= DRIVER_BASE {
        Ok((raw - DRIVER_BASE) as u16)
    } else {
        Err(raw)
    }
}

/// A driver error code made from a zero-based driver code reads back as that driver code.
pub proof fn lemma_driver_code_round_trip(driver_code: u16)
    requires
        driver_code <= DRIVER_MAX,
    ensures
        spec_driver_error((driver_code + DRIVER_BASE) as u16) == Ok::<u16, u16>(driver_code),
{
}

/// Error for a raw number that does not fit the valid range of error codes.
#[derive(Debug, Clone)]
pub struct InvalidErrorCode {
    /// Human-readable description naming the offending number.
    pub message: String,
}

/// Alpaca representation of an ASCOM error code.
#[derive(Clone, Copy, PartialEq, Eq, Structural, Debug)]
pub struct ASCOMErrorCode(u16);

impl View for ASCOMErrorCode {
    type V = u16;

    closed spec fn view(&self) -> u16 {
        self.0
    }
}

fn push_str_lit(out: &mut String, s: &str)
    ensures
        final(out)@ == old(out)@ + s@,
{
    out.append(s);
}

/// The range error for a code rendered as `hex`.
fn invalid_error_code(hex: &String) -> (r: InvalidErrorCode)
    ensures
        r.message@ == out_of_range_text(hex@),
{
    let mut message = String::new();
    push_str_lit(&mut message, "Error code ");
    push_str_lit(&mut message, hex.as_str());
    push_str_lit(&mut message, " is out of valid range (0x400..=0xFFF)");
    InvalidErrorCode { message }
}

impl ASCOMErrorCode {
    #[verifier::type_invariant]
    closed spec fn inv(self) -> bool {
        is_valid_code(self.0)
    }

    /// Validity of a code value: success or a number in the valid range.
    pub open spec fn wf(self) -> bool {
        is_valid_code(self@)
    }

    /// Success.
    pub fn ok() -> (r: Self)
        ensures
            r@ == 0,
    {
        ASCOMErrorCode(0)
    }

    /// Property or method not implemented.
    pub fn not_implemented() -> (r: Self)
        ensures
            r@ == 0x400,
    {
        ASCOMErrorCode(0x400)
    }

    /// Invalid value.
    pub fn invalid_value() -> (r: Self)
        ensures
            r@ == 0x401,
    {
        ASCOMErrorCode(0x401)
    }

    /// A value has not been set.
    pub fn value_not_set() -> (r: Self)
        ensures
            r@ == 0x402,
    {
        ASCOMErrorCode(0x402)
    }

    /// The communications channel is not connected.
    pub fn not_connected() -> (r: Self)
        ensures
            r@ == 0x407,
    {
        ASCOMErrorCode(0x407)
    }

    /// The attempted operation is invalid because the mount is currently in a Parked state.
    pub fn invalid_while_parked() -> (r: Self)
        ensures
            r@ == 0x408,
    {
        ASCOMErrorCode(0x408)
    }

    /// The attempted operation is invalid because the mount is currently in a Slaved state.
    pub fn invalid_while_slaved() -> (r: Self)
        ensures
            r@ == 0x409,
    {
        ASCOMErrorCode(0x409)
    }

    /// The requested operation can not be undertaken at this time.
    pub fn invalid_operation() -> (r: Self)
        ensures
            r@ == 0x40B,
    {
        ASCOMErrorCode(0x40B)
    }

    /// The requested action is not implemented in this driver.
    pub fn action_not_implemented() -> (r: Self)
        ensures
            r@ == 0x40C,
    {
        ASCOMErrorCode(0x40C)
    }

    /// In-progress asynchronous operation has been cancelled.
    pub fn operation_cancelled() -> (r: Self)
        ensures
            r@ == 0x40D,
    {
        ASCOMErrorCode(0x40D)
    }

    /// Reserved 'catch-all' error code (0x4FF) used when nothing else was specified.
    pub fn unspecified() -> (r: Self)
        ensures
            r@ == UNSPECIFIED_RAW,
    {
        ASCOMErrorCode(UNSPECIFIED_RAW)
    }

    /// Convert a raw error code into an `ASCOMErrorCode` if it's in the valid range.
    pub fn try_from_i32(raw: i32) -> (r: Result<Self, InvalidErrorCode>)
        ensures
            r is Ok <==> in_valid_range(raw as int),
            r matches Ok(code) ==> code@ == raw,
            r matches Err(e) ==> e.message@ == out_of_range_text(i32_hex_text(raw)),
    {
        if BASE as i32 <= raw && raw <= MAX as i32 {
            Ok(ASCOMErrorCode(raw as u16))
        } else {
            let mut hex = String::new();
            push_str_lit(&mut hex, "0x");
            let bits: u32 = if raw < 0 {
                (raw as i64 + 0x1_0000_0000i64) as u32
            } else {
                raw as u32
            };
            push_hex(&mut hex, bits);
            Err(invalid_error_code(&hex))
        }
    }

    /// Convert a raw error code into an `ASCOMErrorCode` if it's in the valid range.
    pub fn try_from_u16(raw: u16) -> (r: Result<Self, InvalidErrorCode>)
        ensures
            r is Ok <==> in_valid_range(raw as int),
            r matches Ok(code) ==> code@ == raw,
            r matches Err(e) ==> e.message@ == out_of_range_text("0x"@ + hex_digits(raw as nat)),
    {
        if BASE <= raw && raw <= MAX {
            Ok(ASCOMErrorCode(raw))
        } else {
            let mut hex = String::new();
            push_str_lit(&mut hex, "0x");
            push_hex(&mut hex, raw as u32);
            Err(invalid_error_code(&hex))
        }
    }

    /// Generate ASCOM error code from a zero-based driver error code.
    ///
    /// The driver error code must not be larger than the maximum allowed (2815).
    pub fn new_for_driver(driver_code: u16) -> (r: Self)
        requires
            driver_code <= DRIVER_MAX,
        ensures
            r@ == driver_code + DRIVER_BASE,
    {
        ASCOMErrorCode(driver_code + DRIVER_BASE)
    }

    /// Get the driver-specific error code.
    ///
    /// Returns `Ok` with `0`-based driver error code if this is a driver error.
    /// Returns `Err` with raw error code if not a driver error.
    pub fn as_driver_error(self) -> (r: Result<u16, u16>)
        ensures
            r == spec_driver_error(self@),
    {
        match self.0.checked_sub(DRIVER_BASE) {
            Some(driver_code) => Ok(driver_code),
            None => Err(self.0),
        }
    }

    /// Get the raw error code.
    pub fn raw(self) -> (r: u16)
        ensures
            r == self@,
    {
        self.0
    }

    /// How the code is printed: its well-known name, `DRIVER_ERROR[n]` for driver codes,
    /// or its hexadecimal value.
    pub fn to_text(self) -> (r: String)
        ensures
            r@ == code_text(self@),
    {
        let raw = self.0;
        let name: &str = if raw == 0 {
            "OK"
        } else if raw == 0x400 {
            "NOT_IMPLEMENTED"
        } else if raw == 0x401 {
            "INVALID_VALUE"
        } else if raw == 0x402 {
            "VALUE_NOT_SET"
        } else if raw == 0x407 {
            "NOT_CONNECTED"
        } else if raw == 0x408 {
            "INVALID_WHILE_PARKED"
        } else if raw == 0x409 {
            "INVALID_WHILE_SLAVED"
        } else if raw == 0x40B {
            "INVALID_OPERATION"
        } else if raw == 0x40C {
            "ACTION_NOT_IMPLEMENTED"
        } else if raw == 0x40D {
            "OPERATION_CANCELLED"
        } else if raw == 0x4FF {
            "UNSPECIFIED"
        } else {
            ""
        };
        let mut r = String::new();
        if well_known_name_exec(raw) {
            push_str_lit(&mut r, name);
        } else if raw >= DRIVER_BASE {
            push_str_lit(&mut r, "DRIVER_ERROR[");
            push_decimal(&mut r, (raw - DRIVER_BASE) as usize);
            push_str_lit(&mut r, "]");
        } else {
            push_str_lit(&mut r, "0x");
            push_hex(&mut r, raw as u32);
        }
        r
    }
}

fn well_known_name_exec(raw: u16) -> (r: bool)
    ensures
        r == well_known_name(raw) is Some,
{
    raw == 0 || raw == 0x400 || raw == 0x401 || raw == 0x402 || raw == 0x407 || raw == 0x408
        || raw == 0x409 || raw == 0x40B || raw == 0x40C || raw == 0x40D || raw == 0x4FF
}

/// ASCOM error.
#[derive(Debug, Clone)]
pub struct ASCOMError {
    /// Error number.
    pub code: ASCOMErrorCode,
    /// Error message.
    pub message: String,
}

/// The text `ASCOM error {code}: {message}` under which an error is printed.
pub open spec fn error_text(code: u16, message: Seq<char>) -> Seq<char> {
    "ASCOM error "@ + code_text(code) + ": "@ + message
}

/// The error that an error number and message read from the wire stand for: success for
/// `0`, the number itself when it is in the valid range, and otherwise the catch-all code
/// with the range error prepended to the message.
pub open spec fn wire_error(raw_code: i32, message: Seq<char>) -> (u16, Seq<char>) {
    if raw_code == 0 {
        (0, message)
    } else if in_valid_range(raw_code as int) {
        (raw_code as u16, message)
    } else {
        (UNSPECIFIED_RAW, out_of_range_text(i32_hex_text(raw_code)) + ": "@ + message)
    }
}

impl ASCOMError {
    /// Create a new `ASCOMError` from given error code and a message.
    pub fn new(code: ASCOMErrorCode, message: String) -> (r: Self)
        ensures
            r.code == code,
            r.message@ == message@,
    {
        ASCOMError { code, message }
    }

    /// Create an `ASCOMError` from a raw, non-zero error number that may fall outside
    /// Alpaca's valid range.
    ///
    /// Numbers outside the range (such as HRESULT-style codes) are reported as the
    /// catch-all code with the range error prepended to the given message.
    pub fn new_with_unbounded_code(raw_code: i32, message: &str) -> (r: Self)
        ensures
            in_valid_range(raw_code as int) ==> r.code@ == raw_code && r.message@ == message@,
            !in_valid_range(raw_code as int) ==> r.code@ == UNSPECIFIED_RAW && r.message@
                == out_of_range_text(i32_hex_text(raw_code)) + ": "@ + message@,
    {
        match ASCOMErrorCode::try_from_i32(raw_code) {
            Ok(code) => ASCOMError { code, message: message.to_owned() },
            Err(err) => {
                let mut text = err.message;
                push_str_lit(&mut text, ": ");
                push_str_lit(&mut text, message);
                ASCOMError { code: ASCOMErrorCode::unspecified(), message: text }
            },
        }
    }

    /// The error that an `ErrorNumber` / `ErrorMessage` pair of a response stands for.
    ///
    /// A zero number is success; any other number goes through the same out-of-range
    /// handling as [`ASCOMError::new_with_unbounded_code`].
    pub fn from_wire(error_number: i32, error_message: String) -> (r: Self)
        ensures
            (r.code@, r.message@) == wire_error(error_number, error_message@),
    {
        if error_number == 0 {
            ASCOMError { code: ASCOMErrorCode::ok(), message: error_message }
        } else {
            Self::new_with_unbounded_code(error_number, error_message.as_str())
        }
    }

    /// Create a new "invalid operation" error with the specified message.
    pub fn invalid_operation(message: String) -> (r: Self)
        ensures
            r.code@ == 0x40B,
            r.message@ == message@,
    {
        Self::new(ASCOMErrorCode::invalid_operation(), message)
    }

    /// Create a new "invalid value" error with the specified message.
    pub fn invalid_value(message: String) -> (r: Self)
        ensures
            r.code@ == 0x401,
            r.message@ == message@,
    {
        Self::new(ASCOMErrorCode::invalid_value(), message)
    }

    /// Create a new error with unspecified error code and the given message.
    pub fn unspecified(message: String) -> (r: Self)
        ensures
            r.code@ == UNSPECIFIED_RAW,
            r.message@ == message@,
    {
        Self::new(ASCOMErrorCode::unspecified(), message)
    }

    /// The well-known error for `code`, carrying the code's standard message.
    ///
    /// `ASCOMError::well_known(ASCOMErrorCode::not_implemented())` is the error that
    /// device methods return when a driver leaves them unimplemented.
    pub fn well_known(code: ASCOMErrorCode) -> (r: Self)
        ensures
            r.code == code,
            r.message@ == well_known_message(code@),
    {
        let raw = code.raw();
        let text: &str = if raw == 0x400 {
            "Property or method not implemented."
        } else if raw == 0x401 {
            "Invalid value."
        } else if raw == 0x402 {
            "A value has not been set."
        } else if raw == 0x407 {
            "The communications channel is not connected."
        } else if raw == 0x408 {
            "The attempted operation is invalid because the mount is currently in a Parked state."
        } else if raw == 0x409 {
            "The attempted operation is invalid because the mount is currently in a Slaved state."
        } else if raw == 0x40B {
            "The requested operation can not be undertaken at this time."
        } else if raw == 0x40C {
            "The requested action is not implemented in this driver."
        } else if raw == 0x40D {
            "In-progress asynchronous operation has been cancelled."
        } else if raw == 0x4FF {
            "Reserved 'catch-all' error code (0x4FF) used when nothing else was specified."
        } else {
            ""
        };
        ASCOMError { code, message: text.to_owned() }
    }

    /// The error as it is printed: `ASCOM error {code}: {message}`.
    pub fn to_text(&self) -> (r: String)
        ensures
            r@ == error_text(self.code@, self.message@),
    {
        let mut r = String::new();
        push_str_lit(&mut r, "ASCOM error ");
        let code = self.code.to_text();
        push_str_lit(&mut r, code.as_str());
        push_str_lit(&mut r, ": ");
        push_str_lit(&mut r, self.message.as_str());
        r
    }
}

/// Each well-known code prints as the name of its own constant (`0x408` is
/// `INVALID_WHILE_PARKED`, `0x409` is `INVALID_WHILE_SLAVED`, and so on), and so does an
/// error carrying it: `ASCOM error INVALID_WHILE_PARKED: {message}`.
pub proof fn lemma_well_known_code_names(message: Seq<char>)
    ensures
        code_text(0) == "OK"@,
        code_text(0x400) == "NOT_IMPLEMENTED"@,
        code_text(0x401) == "INVALID_VALUE"@,
        code_text(0x402) == "VALUE_NOT_SET"@,
        code_text(0x407) == "NOT_CONNECTED"@,
        code_text(0x408) == "INVALID_WHILE_PARKED"@,
        code_text(0x409) == "INVALID_WHILE_SLAVED"@,
        code_text(0x40B) == "INVALID_OPERATION"@,
        code_text(0x40C) == "ACTION_NOT_IMPLEMENTED"@,
        code_text(0x40D) == "OPERATION_CANCELLED"@,
        code_text(0x4FF) == "UNSPECIFIED"@,
        error_text(0x408, message) == "ASCOM error INVALID_WHILE_PARKED: "@ + message,
        error_text(0x409, message) == "ASCOM error INVALID_WHILE_SLAVED: "@ + message,
{
    reveal_strlit("ASCOM error ");
    reveal_strlit(": ");
    reveal_strlit("INVALID_WHILE_PARKED");
    reveal_strlit("INVALID_WHILE_SLAVED");
    reveal_strlit("ASCOM error INVALID_WHILE_PARKED: ");
    reveal_strlit("ASCOM error INVALID_WHILE_SLAVED: ");
    assert("ASCOM error "@ + "INVALID_WHILE_PARKED"@ + ": "@ =~= "ASCOM error INVALID_WHILE_PARKED: "@);
    assert("ASCOM error "@ + "INVALID_WHILE_SLAVED"@ + ": "@ =~= "ASCOM error INVALID_WHILE_SLAVED: "@);
    assert(error_text(0x408, message) =~= "ASCOM error INVALID_WHILE_PARKED: "@ + message);
    assert(error_text(0x409, message) =~= "ASCOM error INVALID_WHILE_SLAVED: "@ + message);
}

/// The standard message that a well-known error carries, as its code's documentation
/// words it (success carries none).
pub proof fn lemma_well_known_messages()
    ensures
        well_known_message(0) == ""@,
        well_known_message(0x400) == "Property or method not implemented."@,
        well_known_message(0x401) == "Invalid value."@,
        well_known_message(0x402) == "A value has not been set."@,
        well_known_message(0x407) == "The communications channel is not connected."@,
        well_known_message(0x408) == "The attempted operation is invalid because the mount is currently in a Parked state."@,
        well_known_message(0x409) == "The attempted operation is invalid because the mount is currently in a Slaved state."@,
        well_known_message(0x40B) == "The requested operation can not be undertaken at this time."@,
        well_known_message(0x40C) == "The requested action is not implemented in this driver."@,
        well_known_message(0x40D) == "In-progress asynchronous operation has been cancelled."@,
        well_known_message(0x4FF) == "Reserved 'catch-all' error code (0x4FF) used when nothing else was specified."@,
{
}

/// The ranges of error numbers: error numbers run from `0x400` to `0xFFF`, driver errors
/// from `0x500` up, a zero-based driver code `n` (at most `0xAFF`) standing for `0x500 + n`.
pub proof fn lemma_error_number_ranges(raw: u16)
    ensures
        in_valid_range(raw as int) <==> 0x400 <= raw <= 0xFFF,
        is_valid_code(raw) <==> raw == 0 || 0x400 <= raw <= 0xFFF,
        raw >= 0x500 ==> spec_driver_error(raw) == Ok::<u16, u16>((raw - 0x500) as u16),
        raw < 0x500 ==> spec_driver_error(raw) == Err::<u16, u16>(raw),
        DRIVER_MAX == 0xFFF - 0x500,
        UNSPECIFIED_RAW == 0x4FF,
{
}

} // verus!
