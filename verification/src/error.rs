//! Rejection of inputs that no conversion accepts.
//!
//! Every conversion takes only physical, non-negative quantities (an
//! absorption coefficient, a color value, an optical path length), so a
//! negative argument is rejected rather than silently clamped. The absorption
//! coefficient is checked before the path length.

use vstd::prelude::*;

verus! {

/// The input a conversion rejected.
#[derive(Clone, Copy, Debug, PartialEq, Eq, Structural)]
pub enum ErrorKind {
    /// The absorption coefficient at 430 nm (`absorption_430`) was negative.
    NegativeAbsorption430,
    /// The optical path length (`path_length_cm`) was negative.
    NegativePathLength,
}

/// The verdict on a pair of inputs, given which of them are negative.
pub open spec fn spec_check_inputs(
    absorption_430_is_negative: bool,
    path_length_is_negative: bool,
) -> Result<(), ErrorKind> {
    if absorption_430_is_negative {
        Err(ErrorKind::NegativeAbsorption430)
    } else if path_length_is_negative {
        Err(ErrorKind::NegativePathLength)
    } else {
        Ok(())
    }
}

/// Decides whether a conversion may go ahead, given which of its inputs are
/// negative: a negative absorption coefficient is reported first, then a
/// negative path length; with neither, the inputs are accepted.
pub fn check_inputs(absorption_430_is_negative: bool, path_length_is_negative: bool) -> (res:
    Result<(), ErrorKind>)
    ensures
        res == spec_check_inputs(absorption_430_is_negative, path_length_is_negative),
        res is Ok <==> !absorption_430_is_negative && !path_length_is_negative,
{
    if absorption_430_is_negative {
        Err(ErrorKind::NegativeAbsorption430)
    } else if path_length_is_negative {
        Err(ErrorKind::NegativePathLength)
    } else {
        Ok(())
    }
}

/// The text that precedes the offending value in the message of `kind`.
pub open spec fn message_prefix(kind: ErrorKind) -> Seq<char> {
    match kind {
        ErrorKind::NegativeAbsorption430 => "absorption_430 must not be negative, got "@,
        ErrorKind::NegativePathLength => "path_length_cm must not be negative, got "@,
    }
}

/// Returns the message of `kind`: which parameter was negative, followed by
/// `value`, the offending value as its caller renders it.
pub fn error_message(kind: ErrorKind, value: &str) -> (message: String)
    ensures
        message@ == message_prefix(kind) + value@,
{
    let mut message = match kind {
        ErrorKind::NegativeAbsorption430 => String::from_str(
            "absorption_430 must not be negative, got ",
        ),
        ErrorKind::NegativePathLength => String::from_str(
            "path_length_cm must not be negative, got ",
        ),
    };
    message.append(value);
    message
}

} // verus!
