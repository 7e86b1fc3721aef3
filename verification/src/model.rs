//! The rows the bot keeps in its database: threads it opened, the messages
//! users wrote in them and the answers the model gave.
pub mod agent_message;
pub mod thread;
pub mod user_message;

use vstd::prelude::*;

verus! {

/// A calendar date and time without time zone, as the database returns it.
/// The records only carry it; nothing here looks inside.
#[verifier::external_type_specification]
#[verifier::external_body]
pub struct ExNaiveDateTime(chrono::NaiveDateTime);

/// `NaiveDateTime`'s `Clone` is derived beside `Copy` in chrono's source:
/// the clone is the same value.
pub assume_specification[ <chrono::NaiveDateTime as core::clone::Clone>::clone ](
    date_time: &chrono::NaiveDateTime,
) -> (copy: chrono::NaiveDateTime)
    ensures
        copy == *date_time,
;

} // verus!
