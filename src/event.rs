//! The two entry points through which a host runtime records events and
//! inspects their error slots.

use crate::registry::{extras_view, EventRegistry, ExtraPair};
use glean::traits::EventRecordingError;
use vstd::prelude::*;

verus! {

/// Records event `id` with `extras`. The identifier must be one that the
/// registry knows: an unknown one means that the caller and the registry
/// were built from different event tables. A disallowed extra key is not
/// reported to the caller; it shows only in the event's error slot.
pub fn glean_event_record(registry: &mut EventRegistry, id: u32, extras: &Vec<ExtraPair>)
    requires
        old(registry).wf(),
        old(registry)@.knows(id),
    ensures
        final(registry).wf(),
        final(registry)@ == old(registry)@.after_record(id, extras_view(extras@)),
{
    match registry.record_event_by_id(id, extras) {
        Ok(()) => {},
        Err(EventRecordingError::InvalidId) => {
            assert(false);
        },
        Err(EventRecordingError::InvalidExtraKey) => {},
    }
}

/// Whether the latest attempt to record `id` left an error in its slot.
/// The answer depends on the registry's state alone, so two queries with no
/// recording between them agree.
pub fn glean_event_test_get_error(registry: &EventRegistry, id: u32) -> (r: bool)
    requires
        registry.wf(),
    ensures
        r == registry@.error_of(id) is Some,
{
    let err = registry.event_test_get_error(id);
    err.is_some()
}

} // verus!
