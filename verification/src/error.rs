use vstd::prelude::*;

use crispii_errors::InvalidArgumentError;

verus! {

/// `crispii_errors::InvalidArgumentError`, carried as an opaque value: it
/// names the rejected argument and explains why, and shows both through its
/// `Display` impl.
#[verifier::external_type_specification]
#[verifier::external_body]
pub struct ExInvalidArgumentError(InvalidArgumentError);

/// The error that `crispii_errors::InvalidArgumentError::new` builds from the
/// name of an argument and an explanation.
pub uninterp spec fn invalid_argument_error(
    argument: Seq<char>,
    explanation: Seq<char>,
) -> InvalidArgumentError;

/// `InvalidArgumentError::new` copies the two strings into a new error value,
/// so the value depends on their characters alone. It returns for every pair
/// of strings.
pub assume_specification[ InvalidArgumentError::new ](
    argument: &str,
    explanation: &str,
) -> (error: InvalidArgumentError)
    ensures
        error == invalid_argument_error(argument@, explanation@),
;

/// Why a value of this library could not be built.
#[derive(Debug)]
pub enum ColourError {
    /// An argument was outside its legal range. The payload names the
    /// argument and the range.
    InvalidArgument(InvalidArgumentError),
}

} // verus!
