//! The wall-clock collaborator: the current local year, read once per
//! birth-date configuration step.

use vstd::prelude::*;

use chrono::Datelike;

verus! {

/// Relies on chrono::Local::now and Datelike::year for the current local
/// year. The value depends on the wall clock, so nothing is promised of it
/// beyond chrono's representable year range.
#[verifier::external_body]
pub(crate) fn current_local_year() -> (y: i32)
    ensures
        -262143 <= y <= 262142,
{
    chrono::Local::now().year()
}

} // verus!
