//! The registry: descriptors fixed at construction, the error slot of each
//! event, and the log of committed recordings.

use glean::traits::EventRecordingError;
use vstd::prelude::*;

verus! {

/// An extra attribute of one recording: a key and its value.
pub type ExtraPair = (String, String);

/// What a descriptor is, over plain values.
pub struct DescriptorView {
    pub name: Seq<char>,
    pub allowed_extra_keys: Seq<Seq<char>>,
}

/// A committed recording: the event's identifier and its extras.
pub struct RecordedEventView {
    pub id: u32,
    pub extra: Seq<(Seq<char>, Seq<char>)>,
}

/// The abstract state of a registry. The event with identifier `id` is
/// described by `descriptors[id - 1]`, and `error_slots[id - 1]` holds the
/// error class of its latest recording attempt.
pub struct RegistryView {
    pub descriptors: Seq<DescriptorView>,
    pub error_slots: Seq<Option<EventRecordingError>>,
    pub recorded: Seq<RecordedEventView>,
}

/// The key/value pairs of `extras` as character sequences.
pub open spec fn extras_view(extras: Seq<ExtraPair>) -> Seq<(Seq<char>, Seq<char>)> {
    extras.map_values(|kv: ExtraPair| (kv.0@, kv.1@))
}

/// The strings of `keys` as character sequences.
pub open spec fn keys_view(keys: Seq<String>) -> Seq<Seq<char>> {
    keys.map_values(|k: String| k@)
}

/// Every key of `extras` is one of `allowed`.
pub open spec fn all_keys_allowed(
    allowed: Seq<Seq<char>>,
    extras: Seq<(Seq<char>, Seq<char>)>,
) -> bool {
    forall|i: int| 0 <= i < extras.len() ==> allowed.contains(#[trigger] extras[i].0)
}

impl RegistryView {
    /// One error slot per descriptor.
    pub open spec fn wf(self) -> bool {
        self.error_slots.len() == self.descriptors.len()
    }

    /// `id` names a descriptor of the registry.
    pub open spec fn knows(self, id: u32) -> bool {
        1 <= id && id <= self.descriptors.len()
    }

    pub open spec fn descriptor(self, id: u32) -> DescriptorView {
        self.descriptors[id - 1]
    }

    /// What a test query for `id` answers: the error class of the latest
    /// attempt to record `id`, or `None` for an unknown identifier.
    pub open spec fn error_of(self, id: u32) -> Option<EventRecordingError> {
        if self.knows(id) {
            self.error_slots[id - 1]
        } else {
            None
        }
    }

    /// The state after recording each `(id, extras)` of `history` in turn.
    pub open spec fn after_records(self, history: Seq<(u32, Seq<(Seq<char>, Seq<char>)>)>) -> RegistryView
        decreases history.len(),
    {
        if history.len() == 0 {
            self
        } else {
            let last = history.last();
            self.after_records(history.drop_last()).after_record(last.0, last.1)
        }
    }

    pub open spec fn extras_permitted(self, id: u32, extras: Seq<(Seq<char>, Seq<char>)>) -> bool {
        all_keys_allowed(self.descriptor(id).allowed_extra_keys, extras)
    }

    /// The result that recording `id` with `extras` reports.
    pub open spec fn record_outcome(
        self,
        id: u32,
        extras: Seq<(Seq<char>, Seq<char>)>,
    ) -> Result<(), EventRecordingError> {
        if !self.knows(id) {
            Err(EventRecordingError::InvalidId)
        } else if !self.extras_permitted(id, extras) {
            Err(EventRecordingError::InvalidExtraKey)
        } else {
            Ok(())
        }
    }

    /// The state after recording `id` with `extras`. An unknown identifier
    /// changes nothing. A disallowed extra key discards the recording and
    /// marks the event's slot; a valid recording is appended to the log and
    /// clears the slot.
    pub open spec fn after_record(self, id: u32, extras: Seq<(Seq<char>, Seq<char>)>) -> RegistryView {
        if !self.knows(id) {
            self
        } else if !self.extras_permitted(id, extras) {
            RegistryView {
                descriptors: self.descriptors,
                error_slots: self.error_slots.update(id - 1, Some(EventRecordingError::InvalidExtraKey)),
                recorded: self.recorded,
            }
        } else {
            RegistryView {
                descriptors: self.descriptors,
                error_slots: self.error_slots.update(id - 1, None),
                recorded: self.recorded.push(RecordedEventView { id, extra: extras }),
            }
        }
    }
}

/// The fixed description of one event: its name, for diagnostics, and the
/// extra keys that its recordings may carry.
pub struct EventDescriptor {
    pub name: String,
    pub allowed_extra_keys: Vec<String>,
}

impl View for EventDescriptor {
    type V = DescriptorView;

    open spec fn view(&self) -> DescriptorView {
        DescriptorView { name: self.name@, allowed_extra_keys: keys_view(self.allowed_extra_keys@) }
    }
}

/// One committed recording.
pub struct RecordedEvent {
    pub id: u32,
    pub extra: Vec<ExtraPair>,
}

impl View for RecordedEvent {
    type V = RecordedEventView;

    open spec fn view(&self) -> RecordedEventView {
        RecordedEventView { id: self.id, extra: extras_view(self.extra@) }
    }
}

/// The event registry. Identifiers are assigned densely from 1 in the order
/// of the descriptors handed to `new`; the descriptor table never changes
/// afterwards.
pub struct EventRegistry {
    descriptors: Vec<EventDescriptor>,
    error_slots: Vec<Option<EventRecordingError>>,
    recorded: Vec<RecordedEvent>,
}

impl View for EventRegistry {
    type V = RegistryView;

    closed spec fn view(&self) -> RegistryView {
        RegistryView {
            descriptors: self.descriptors@.map_values(|d: EventDescriptor| d@),
            error_slots: self.error_slots@,
            recorded: self.recorded@.map_values(|e: RecordedEvent| e@),
        }
    }
}

/// Whether `key` is one of `allowed`.
fn key_allowed(allowed: &Vec<String>, key: &String) -> (r: bool)
    ensures
        r == keys_view(allowed@).contains(key@),
{
    let mut j: usize = 0;
    while j < allowed.len()
        invariant
            j <= allowed.len(),
            forall|k: int| 0 <= k < j ==> allowed@[k]@ != key@,
        decreases allowed.len() - j,
    {
        if allowed[j] == *key {
            assert(keys_view(allowed@)[j as int] == key@);
            return true;
        }
        j += 1;
    }
    false
}

/// Whether every key of `extras` is one of `allowed`.
fn extras_allowed(allowed: &Vec<String>, extras: &Vec<ExtraPair>) -> (r: bool)
    ensures
        r == all_keys_allowed(keys_view(allowed@), extras_view(extras@)),
{
    let mut i: usize = 0;
    while i < extras.len()
        invariant
            i <= extras.len(),
            forall|k: int|
                0 <= k < i ==> keys_view(allowed@).contains(#[trigger] extras_view(extras@)[k].0),
        decreases extras.len() - i,
    {
        if !key_allowed(allowed, &extras[i].0) {
            assert(extras_view(extras@)[i as int].0 == extras@[i as int].0@);
            return false;
        }
        i += 1;
    }
    true
}

/// A copy of `extras`, pair by pair.
fn copy_extras(extras: &Vec<ExtraPair>) -> (r: Vec<ExtraPair>)
    ensures
        extras_view(r@) == extras_view(extras@),
{
    let mut out: Vec<ExtraPair> = Vec::new();
    let mut i: usize = 0;
    while i < extras.len()
        invariant
            i <= extras.len(),
            out@.len() == i,
            extras_view(out@) == extras_view(extras@).take(i as int),
        decreases extras.len() - i,
    {
        let key = extras[i].0.clone();
        let value = extras[i].1.clone();
        out.push((key, value));
        proof {
            assert(out@[i as int].0@ == extras@[i as int].0@);
            assert(out@[i as int].1@ == extras@[i as int].1@);
            assert(extras_view(out@) =~= extras_view(extras@).take(i + 1));
        }
        i += 1;
    }
    assert(extras_view(extras@).take(i as int) =~= extras_view(extras@));
    out
}

impl EventRegistry {
    /// The registry's internal consistency: one error slot per descriptor,
    /// and every identifier fits in a `u32`.
    pub closed spec fn wf(&self) -> bool {
        &&& self.error_slots@.len() == self.descriptors@.len()
        &&& self.descriptors@.len() <= u32::MAX
    }

    /// A registry over `descriptors`, where `descriptors[i]` gets the
    /// identifier `i + 1`. No error slot is set and nothing is recorded.
    pub fn new(descriptors: Vec<EventDescriptor>) -> (r: EventRegistry)
        requires
            descriptors@.len() <= u32::MAX,
        ensures
            r.wf(),
            r@.wf(),
            r@.descriptors == descriptors@.map_values(|d: EventDescriptor| d@),
            r@.recorded.len() == 0,
            forall|id: u32| #[trigger] r@.knows(id) <==> 1 <= id <= descriptors@.len(),
            forall|id: u32| #[trigger] r@.error_of(id) is None,
    {
        let mut error_slots: Vec<Option<EventRecordingError>> = Vec::new();
        let mut i: usize = 0;
        while i < descriptors.len()
            invariant
                i <= descriptors.len(),
                error_slots@.len() == i,
                forall|k: int| 0 <= k < i ==> #[trigger] error_slots@[k] is None,
            decreases descriptors.len() - i,
        {
            error_slots.push(None);
            i += 1;
        }
        EventRegistry { descriptors, error_slots, recorded: Vec::new() }
    }

    /// Records event `id` with `extras`. An unknown identifier gives
    /// `InvalidId` and changes nothing. An extra key that the event's
    /// descriptor does not allow gives `InvalidExtraKey`: the recording is
    /// discarded and the event's error slot is set. Otherwise the recording
    /// is committed and the event's error slot is cleared.
    pub fn record_event_by_id(&mut self, id: u32, extras: &Vec<ExtraPair>) -> (r: Result<
        (),
        EventRecordingError,
    >)
        requires
            old(self).wf(),
        ensures
            final(self).wf(),
            final(self)@.wf(),
            r == old(self)@.record_outcome(id, extras_view(extras@)),
            final(self)@ == old(self)@.after_record(id, extras_view(extras@)),
    {
        if !self.knows_id(id) {
            return Err(EventRecordingError::InvalidId);
        }
        let idx = (id - 1) as usize;
        proof {
            assert(self@.descriptor(id) == self.descriptors@[idx as int]@);
        }
        if !extras_allowed(&self.descriptors[idx].allowed_extra_keys, extras) {
            self.error_slots.set(idx, Some(EventRecordingError::InvalidExtraKey));
            proof {
                assert(self@.error_slots =~= old(self)@.error_slots.update(
                    id - 1,
                    Some(EventRecordingError::InvalidExtraKey),
                ));
            }
            return Err(EventRecordingError::InvalidExtraKey);
        }
        self.error_slots.set(idx, None);
        let extra = copy_extras(extras);
        self.recorded.push(RecordedEvent { id, extra });
        proof {
            assert(self@.error_slots =~= old(self)@.error_slots.update(id - 1, None));
            assert(self@.recorded =~= old(self)@.recorded.push(
                RecordedEventView { id, extra: extras_view(extras@) },
            ));
        }
        Ok(())
    }

    /// Whether `id` names a descriptor of the registry.
    pub fn knows_id(&self, id: u32) -> (r: bool)
        requires
            self.wf(),
        ensures
            r == self@.knows(id),
    {
        id != 0 && id as usize <= self.descriptors.len()
    }

    /// The number of descriptors, which is also the largest identifier.
    pub fn descriptor_count(&self) -> (r: usize)
        requires
            self.wf(),
        ensures
            r == self@.descriptors.len(),
    {
        self.descriptors.len()
    }

    /// The committed recordings, oldest first.
    pub fn recorded_events(&self) -> (r: &Vec<RecordedEvent>)
        ensures
            r@.map_values(|e: RecordedEvent| e@) == self@.recorded,
    {
        &self.recorded
    }

    /// The error class of the latest attempt to record `id`, or `None` when
    /// that attempt succeeded, when there was none, or when `id` is unknown.
    pub fn event_test_get_error(&self, id: u32) -> (r: Option<EventRecordingError>)
        requires
            self.wf(),
        ensures
            r == self@.error_of(id),
    {
        if !self.knows_id(id) {
            return None;
        }
        match &self.error_slots[(id - 1) as usize] {
            None => None,
            Some(EventRecordingError::InvalidId) => Some(EventRecordingError::InvalidId),
            Some(EventRecordingError::InvalidExtraKey) => Some(EventRecordingError::InvalidExtraKey),
        }
    }
}

} // verus!
