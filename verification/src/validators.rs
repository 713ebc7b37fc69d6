use vstd::prelude::*;

verus! {

/// Why a message's content was rejected.
#[derive(Debug, PartialEq, Eq, Structural)]
pub enum ValidationError {
    TooShort,
}

/// A message is acceptable exactly when it holds at least one character
/// of text; an empty message is rejected as too short.
pub fn validate_message(message: &str) -> (result: Result<(), ValidationError>)
    ensures
        result is Ok <==> message@.len() > 0,
        result matches Err(e) ==> e is TooShort,
{
    if message.is_empty() {
        return Err(ValidationError::TooShort);
    }

    Ok(())
}

} // verus!
