//! The interpreter's window on the partition state.
use crate::errors::StorageError;
use crate::identifiers::{
    EntryIndex, InvocationId, MaybeFullInvocationId, MaybeFullInvocationIdView, ServiceId,
    ServiceIdView,
};
use crate::journal::{
    completion_result_view, CompletionResult, CompletionResultView, JournalEntry, JournalEntryView,
    keys_view,
};
use crate::octets::bytes_contents;
use crate::storage::{
    InvocationStatus, InvocationStatusView, SequenceNumberInvocation, SequenceNumberInvocationView,
    VirtualObjectStatus, VirtualObjectStatusView,
};
use bytes::Bytes;
use vstd::prelude::*;

verus! {

/// The committed partition state as the interpreter can ask for it: one
/// answer for every question a [`StateReader`] takes.
pub ghost struct Snapshot {
    pub object_status: spec_fn(ServiceIdView) -> VirtualObjectStatusView,
    pub invocation_status: spec_fn(InvocationId) -> InvocationStatusView,
    pub inboxed: spec_fn(MaybeFullInvocationIdView) -> Option<SequenceNumberInvocationView>,
    pub resumable: spec_fn(InvocationId, EntryIndex) -> bool,
    pub state: spec_fn(ServiceIdView, Seq<u8>) -> Option<Seq<u8>>,
    pub state_keys: spec_fn(ServiceIdView) -> Seq<Seq<u8>>,
    pub completion_result: spec_fn(InvocationId, EntryIndex) -> Option<CompletionResultView>,
    pub journal: spec_fn(InvocationId, EntryIndex) -> JournalEntryView,
}

impl Snapshot {
    pub open spec fn virtual_object_status(self, service_id: ServiceIdView) -> VirtualObjectStatusView {
        (self.object_status)(service_id)
    }

    pub open spec fn status_of(self, invocation_id: InvocationId) -> InvocationStatusView {
        (self.invocation_status)(invocation_id)
    }

    pub open spec fn inboxed_invocation(self, id: MaybeFullInvocationIdView) -> Option<
        SequenceNumberInvocationView,
    > {
        (self.inboxed)(id)
    }

    pub open spec fn is_entry_resumable(self, invocation_id: InvocationId, entry_index: EntryIndex) -> bool {
        (self.resumable)(invocation_id, entry_index)
    }

    /// Whether one of the entries in `waiting_for` has its completion.
    pub open spec fn any_resumable(self, invocation_id: InvocationId, waiting_for: Set<EntryIndex>) -> bool {
        exists|entry_index: EntryIndex|
            waiting_for.contains(entry_index) && #[trigger] self.is_entry_resumable(
                invocation_id,
                entry_index,
            )
    }

    pub open spec fn state_value(self, service_id: ServiceIdView, key: Seq<u8>) -> Option<Seq<u8>> {
        (self.state)(service_id, key)
    }

    pub open spec fn keys_of(self, service_id: ServiceIdView) -> Seq<Seq<u8>> {
        (self.state_keys)(service_id)
    }

    pub open spec fn completion_result_of(self, invocation_id: InvocationId, entry_index: EntryIndex) -> Option<
        CompletionResultView,
    > {
        (self.completion_result)(invocation_id, entry_index)
    }

    pub open spec fn journal_entry(self, invocation_id: InvocationId, entry_index: EntryIndex) -> JournalEntryView {
        (self.journal)(invocation_id, entry_index)
    }
}

/// The view of an optional state value.
pub open spec fn value_view(value: Option<Bytes>) -> Option<Seq<u8>> {
    match value {
        Some(v) => Some(bytes_contents(v)),
        None => None,
    }
}

/// The view of an optional inbox entry.
pub open spec fn inboxed_view(entry: Option<SequenceNumberInvocation>) -> Option<
    SequenceNumberInvocationView,
> {
    match entry {
        Some(e) => Some(e@),
        None => None,
    }
}

/// One step of reading a journal: the entry at an index, or the failure to
/// read it.
pub type JournalItem = Result<(EntryIndex, JournalEntry), StorageError>;

/// Whether `items` is what reading the first `length` entries of the journal
/// of `invocation_id` in `snapshot` gives: the entries in order, each with
/// its index, up to the first failed read or to the end.
pub open spec fn reads_journal(
    items: Seq<JournalItem>,
    snapshot: Snapshot,
    invocation_id: InvocationId,
    length: EntryIndex,
) -> bool {
    &&& items.len() <= length
    &&& forall|i: int|
        0 <= i < items.len() ==> (#[trigger] items[i] matches Ok((index, entry)) ==> index == i
            && entry@ == snapshot.journal_entry(invocation_id, i as EntryIndex))
    &&& forall|i: int| 0 <= i < items.len() - 1 ==> (#[trigger] items[i]) is Ok
    &&& (items.len() < length ==> items.len() > 0 && items.last() is Err)
}

/// Read-only access to the committed state of the partition.
///
/// Every answer is taken from one snapshot, and asking does not change it.
/// A read may fail at any time; what it returns when it succeeds is what the
/// snapshot holds.
pub trait StateReader {
    /// The state that the reader answers from.
    open spec fn snapshot(&self) -> Snapshot {
        arbitrary()
    }

    fn get_virtual_object_status(&mut self, service_id: &ServiceId) -> (r: Result<
        VirtualObjectStatus,
        StorageError,
    >)
        ensures
            final(self).snapshot() == old(self).snapshot(),
            r matches Ok(status) ==> status@ == old(self).snapshot().virtual_object_status(
                service_id@,
            ),
    ;

    fn get_invocation_status(&mut self, invocation_id: &InvocationId) -> (r: Result<
        InvocationStatus,
        StorageError,
    >)
        ensures
            final(self).snapshot() == old(self).snapshot(),
            r matches Ok(status) ==> status@ == old(self).snapshot().status_of(*invocation_id),
    ;

    fn get_inboxed_invocation(&mut self, maybe_fid: MaybeFullInvocationId) -> (r: Result<
        Option<SequenceNumberInvocation>,
        StorageError,
    >)
        ensures
            final(self).snapshot() == old(self).snapshot(),
            r matches Ok(entry) ==> inboxed_view(entry) == old(self).snapshot().inboxed_invocation(
                maybe_fid@,
            ),
    ;

    fn is_entry_resumable(&mut self, invocation_id: &InvocationId, entry_index: EntryIndex) -> (r:
        Result<bool, StorageError>)
        ensures
            final(self).snapshot() == old(self).snapshot(),
            r matches Ok(resumable) ==> resumable == old(self).snapshot().is_entry_resumable(
                *invocation_id,
                entry_index,
            ),
    ;

    fn load_state(&mut self, service_id: &ServiceId, key: &Bytes) -> (r: Result<
        Option<Bytes>,
        StorageError,
    >)
        ensures
            final(self).snapshot() == old(self).snapshot(),
            r matches Ok(value) ==> value_view(value) == old(self).snapshot().state_value(
                service_id@,
                bytes_contents(*key),
            ),
    ;

    fn load_state_keys(&mut self, service_id: &ServiceId) -> (r: Result<Vec<Bytes>, StorageError>)
        ensures
            final(self).snapshot() == old(self).snapshot(),
            r matches Ok(keys) ==> keys_view(keys@) == old(self).snapshot().keys_of(service_id@),
    ;

    fn load_completion_result(&mut self, invocation_id: &InvocationId, entry_index: EntryIndex) -> (r:
        Result<Option<CompletionResult>, StorageError>)
        ensures
            final(self).snapshot() == old(self).snapshot(),
            r matches Ok(result) ==> completion_result_view(result) == old(
                self,
            ).snapshot().completion_result_of(*invocation_id, entry_index),
    ;

    /// Reads the first `length` entries of a journal, in order, and stops at
    /// the first read that fails.
    fn get_journal(&mut self, invocation_id: &InvocationId, length: EntryIndex) -> (r: Vec<
        JournalItem,
    >)
        ensures
            final(self).snapshot() == old(self).snapshot(),
            reads_journal(r@, old(self).snapshot(), *invocation_id, length),
    ;
}

} // verus!
