//! Error translation for raw engine returns.
//!
//! The engine reports failure by returning, in place of a pointer, the
//! negated error number reinterpreted as a machine word.  Interpreted as an
//! unsigned word, such a value lies in a small band just below the all-ones
//! value; legitimate pointers never fall in that band.  This module is the
//! single place where that convention is decoded: every raw engine return
//! passes through `ptr_result` (for pointer-shaped returns) or through the
//! status decoding in the handle-lifecycle module, and no other component
//! inspects raw words.

use vstd::prelude::*;

verus! {

/// The largest error number the engine may encode in a returned word.
pub const MAX_ERROR_NO: u64 = 4095;

/// The first unsigned value of the error band: every raw return at or above
/// this value encodes a failure.
pub const ERROR_BAND_START: u64 = u64::MAX - MAX_ERROR_NO + 1;

/// A structured failure of this layer.  Engine rejections carry the decoded
/// error number; the remaining variants are failures this layer itself
/// detects before or during traversal.
#[derive(Clone, Copy, Debug, PartialEq, Eq, Structural)]
pub enum BchError {
    /// The engine rejected a call; `errno` is the decoded error number.
    Engine { errno: u64 },
    /// An acquisition call was asked to open a filesystem from an empty
    /// device list; rejected before any engine call is made.
    EmptyDeviceList,
    /// The engine yielded a key before the cursor's requested position,
    /// which the traversal layer refuses to observe.
    OrderViolation,
    /// The recorded sequence of engine responses ended before the scan did.
    Truncated,
}

/// True exactly when the raw word `val` lies in the error band.
pub open spec fn spec_is_error_value(val: u64) -> bool {
    val >= ERROR_BAND_START
}

/// The error number a raw in-band word encodes: the magnitude of the word
/// read as a negative two's-complement number.
pub open spec fn spec_errno_of(val: u64) -> u64
    recommends
        spec_is_error_value(val),
{
    (u64::MAX - val + 1) as u64
}

/// Decide whether a raw engine return encodes a failure.
pub fn is_error_value(val: u64) -> (r: bool)
    ensures
        r == spec_is_error_value(val),
{
    val >= ERROR_BAND_START
}

/// Translate a raw pointer-shaped engine return: a word outside the error
/// band is returned unchanged as the validated handle value, a word inside
/// it becomes the engine failure it encodes.
pub fn ptr_result(raw: u64) -> (r: Result<u64, BchError>)
    ensures
        r is Err <==> spec_is_error_value(raw),
        r matches Ok(v) ==> v == raw,
        r matches Err(e) ==> e == (BchError::Engine { errno: spec_errno_of(raw) }),
{
    if is_error_value(raw) {
        let errno: u64 = (u64::MAX - raw) + 1;
        Err(BchError::Engine { errno })
    } else {
        Ok(raw)
    }
}

/// Relies on `std::io::Error::from_raw_os_error` and its `ToString`: the
/// platform's descriptive text for an operating-system error number.
#[verifier::external_body]
fn os_error_string(code: i32) -> (r: String) {
    std::io::Error::from_raw_os_error(code).to_string()
}

impl BchError {
    /// A single descriptive line for this failure.  Engine rejections are
    /// rendered through the platform's error-description facility, so the
    /// caller sees decoded text rather than a raw code; that text is the
    /// platform's own and is the one part left unstated here.
    pub fn message(&self) -> (r: String)
        ensures
            self is EmptyDeviceList ==> r@ == "no devices specified"@,
            self is OrderViolation ==> r@ == "key-space traversal went backwards"@,
            self is Truncated ==> r@ == "engine response sequence ended mid-scan"@,
    {
        match self {
            BchError::Engine { errno } => {
                let code: i32 = if *errno <= i32::MAX as u64 {
                    *errno as i32
                } else {
                    i32::MAX
                };
                os_error_string(code)
            },
            BchError::EmptyDeviceList => "no devices specified".to_string(),
            BchError::OrderViolation => {
                "key-space traversal went backwards".to_string()
            },
            BchError::Truncated => {
                "engine response sequence ended mid-scan".to_string()
            },
        }
    }
}

} // verus!
