//! What the routes of the service answer besides records.

use vstd::prelude::*;
use vstd::string::StringExecFns;
use crate::errors::{failure, Error, ErrorTypes};
use crate::ids::{hyphenated, uuid_to_string};
use crate::validation::{errors_json, verdict_view, ValidationErrors};

verus! {

/// What is said to a client whose data was refused.
pub const INVALID_DATA: &'static str = "Invalid data";

/// The error that answers data that was refused: it quotes the refusals, as
/// JSON, as its cause.
pub fn invalid_data(errors: &ValidationErrors) -> (r: Error)
    ensures
        r@ == failure(Some(errors_json(errors@)), INVALID_DATA@, ErrorTypes::ValidationError),
{
    Error::with_message(Some(errors.to_string()), INVALID_DATA, ErrorTypes::ValidationError)
}

/// What the service makes of the check of a client's data: nothing where
/// nothing was refused, else the error that quotes the refusals.
pub fn checked_data(outcome: Result<(), ValidationErrors>) -> (r: Result<(), Error>)
    ensures
        match verdict_view(outcome) {
            Ok(()) => r is Ok,
            Err(errors) => r matches Err(e) && e@ == failure(
                Some(errors_json(errors)),
                INVALID_DATA@,
                ErrorTypes::ValidationError,
            ),
        },
{
    match outcome {
        Ok(()) => Ok(()),
        Err(errors) => Err(invalid_data(&errors)),
    }
}

/// What is answered when a student was removed.
pub fn delete_student(student_id: u128) -> (r: String)
    ensures
        r@ == "{'Deleted student':"@ + hyphenated(student_id) + " }"@,
{
    let mut text = String::from_str("{'Deleted student':");
    let id = uuid_to_string(student_id);
    text.append(id.as_str());
    text.append(" }");
    text
}

} // verus!
