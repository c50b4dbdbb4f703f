//! Laws of the registry, stated over its abstract state.

use crate::registry::RegistryView;
use glean::traits::EventRecordingError;
use vstd::prelude::*;

verus! {

/// Recording a known event whose extra keys are all allowed succeeds, and
/// leaves the event with no error.
pub proof fn lemma_valid_record_leaves_no_error(
    v: RegistryView,
    id: u32,
    extras: Seq<(Seq<char>, Seq<char>)>,
)
    requires
        v.wf(),
        v.knows(id),
        v.extras_permitted(id, extras),
        v.error_of(id) is None,
    ensures
        v.record_outcome(id, extras) == Ok::<(), EventRecordingError>(()),
        v.after_record(id, extras).error_of(id) is None,
{
}

/// Recording a known event with an extra key that its descriptor does not
/// allow still returns, and afterwards the event reports an invalid extra
/// key.
pub proof fn lemma_invalid_key_sets_error(
    v: RegistryView,
    id: u32,
    extras: Seq<(Seq<char>, Seq<char>)>,
    i: int,
)
    requires
        v.wf(),
        v.knows(id),
        0 <= i < extras.len(),
        !v.descriptor(id).allowed_extra_keys.contains(extras[i].0),
    ensures
        v.record_outcome(id, extras) == Err::<(), EventRecordingError>(
            EventRecordingError::InvalidExtraKey,
        ),
        v.after_record(id, extras).error_of(id) == Some(EventRecordingError::InvalidExtraKey),
{
}

/// An unknown identifier is always rejected as such, whatever the extras,
/// and the registry is left as it was.
pub proof fn lemma_unknown_id_rejected(v: RegistryView, id: u32, extras: Seq<(Seq<char>, Seq<char>)>)
    requires
        !v.knows(id),
    ensures
        v.record_outcome(id, extras) == Err::<(), EventRecordingError>(
            EventRecordingError::InvalidId,
        ),
        v.after_record(id, extras) == v,
{
}

/// Recording one event leaves the error slot of every other event as it
/// was.
pub proof fn lemma_record_keeps_other_slots(
    v: RegistryView,
    id: u32,
    extras: Seq<(Seq<char>, Seq<char>)>,
    other: u32,
)
    requires
        v.wf(),
        other != id,
    ensures
        v.after_record(id, extras).error_of(other) == v.error_of(other),
{
}

/// Recordings keep one error slot per descriptor.
pub proof fn lemma_records_keep_wf(v: RegistryView, history: Seq<(u32, Seq<(Seq<char>, Seq<char>)>)>)
    requires
        v.wf(),
    ensures
        v.after_records(history).wf(),
        v.after_records(history).descriptors == v.descriptors,
    decreases history.len(),
{
    if history.len() > 0 {
        lemma_records_keep_wf(v, history.drop_last());
    }
}

/// An event that none of a run of recordings names keeps the error slot it
/// had before them: starting from a fresh registry, it reports no error.
pub proof fn lemma_unrecorded_event_has_no_error(
    v: RegistryView,
    history: Seq<(u32, Seq<(Seq<char>, Seq<char>)>)>,
    id: u32,
)
    requires
        v.wf(),
        forall|k: int| 0 <= k < history.len() ==> (#[trigger] history[k]).0 != id,
        v.error_of(id) is None,
    ensures
        v.after_records(history).error_of(id) is None,
    decreases history.len(),
{
    if history.len() > 0 {
        let rest = history.drop_last();
        assert forall|k: int| 0 <= k < rest.len() implies (#[trigger] rest[k]).0 != id by {
            assert(rest[k] == history[k]);
        }
        lemma_unrecorded_event_has_no_error(v, rest, id);
        lemma_records_keep_wf(v, rest);
        let last = history.last();
        assert(last == history[history.len() - 1]);
        lemma_record_keeps_other_slots(v.after_records(rest), last.0, last.1, id);
    }
}

} // verus!
