//! An event registry keyed by dense numeric identifiers: it validates the
//! extra keys of each recording against the event's descriptor, commits
//! valid recordings, and keeps for each event the error class of its most
//! recent attempt, for inspection in tests.

use vstd::prelude::*;

pub mod event;
pub mod laws;
pub mod registry;

verus! {

/// Makes the error classes of `glean::traits::EventRecordingError` visible
/// to the verifier; both variants carry no data.
#[verifier::external_type_specification]
pub struct ExEventRecordingError(glean::traits::EventRecordingError);

} // verus!
