//! What the partition keeps in storage: invocation status, object locks,
//! inbox, outbox and timers.
use crate::identifiers::{
    EntryIndex, FullInvocationId, FullInvocationIdView, InvocationId, InvocationUuid,
    MaybeFullInvocationId, MaybeFullInvocationIdView, MessageIndex, MillisSinceEpoch, ServiceId,
    ServiceIdView,
};
use crate::invocation::{
    clone_sink, IngressResponse, IngressResponseView, InvocationResponse, InvocationResponseView,
    InvocationTermination, InvocationTerminationView, ResponseResult, ResponseResultView,
    ServiceInvocation, ServiceInvocationResponseSink, ServiceInvocationResponseSinkView,
    ServiceInvocationSpanContext, ServiceInvocationView, sink_view, Source, SourceView,
};
use crate::octets::{bytes_contents, clone_index_set};
use bytes::Bytes;
use std::collections::HashSet;
use vstd::prelude::*;

verus! {

/// Identifier of the deployment that runs an invocation.
pub type DeploymentId = u128;

/// Length and tracing span of a journal.
#[derive(Clone, Copy, Debug, PartialEq, Eq)]
pub struct JournalMetadata {
    pub length: EntryIndex,
    pub span_context: ServiceInvocationSpanContext,
}

/// When the status of an invocation was created and last changed.
#[derive(Clone, Copy, Debug, PartialEq, Eq)]
pub struct StatusTimestamps {
    pub creation_time: MillisSinceEpoch,
    pub modification_time: MillisSinceEpoch,
}

impl StatusTimestamps {
    pub fn creation_time(&self) -> (r: MillisSinceEpoch)
        ensures
            r == self.creation_time,
    {
        self.creation_time
    }
}

/// What storage knows of a running or suspended invocation.
#[derive(Debug, PartialEq, Eq)]
pub struct InvocationMetadata {
    pub service_id: ServiceId,
    pub journal_metadata: JournalMetadata,
    pub deployment_id: Option<DeploymentId>,
    pub method: String,
    pub response_sink: Option<ServiceInvocationResponseSink>,
    pub timestamps: StatusTimestamps,
    pub source: Source,
}

pub struct InvocationMetadataView {
    pub service_id: ServiceIdView,
    pub journal_metadata: JournalMetadata,
    pub deployment_id: Option<DeploymentId>,
    pub method: Seq<char>,
    pub response_sink: Option<ServiceInvocationResponseSinkView>,
    pub timestamps: StatusTimestamps,
    pub source: SourceView,
}

impl View for InvocationMetadata {
    type V = InvocationMetadataView;

    open spec fn view(&self) -> InvocationMetadataView {
        InvocationMetadataView {
            service_id: self.service_id@,
            journal_metadata: self.journal_metadata,
            deployment_id: self.deployment_id,
            method: self.method@,
            response_sink: sink_view(self.response_sink),
            timestamps: self.timestamps,
            source: self.source@,
        }
    }
}

impl Clone for InvocationMetadata {
    fn clone(&self) -> (r: Self)
        ensures
            r@ == self@,
    {
        InvocationMetadata {
            service_id: self.service_id.clone(),
            journal_metadata: self.journal_metadata,
            deployment_id: self.deployment_id,
            method: self.method.clone(),
            response_sink: clone_sink(&self.response_sink),
            timestamps: self.timestamps,
            source: self.source.clone(),
        }
    }
}

/// Where an invocation stands in its life.
#[derive(Debug, PartialEq, Eq)]
pub enum InvocationStatus {
    /// Queued behind the lock of its virtual object.
    Inboxed { inbox_sequence_number: MessageIndex, invocation: ServiceInvocation },
    /// Being executed by the invoker.
    Invoked(InvocationMetadata),
    /// Waiting for the completion of one of the listed journal entries.
    Suspended { metadata: InvocationMetadata, waiting_for_completed_entries: HashSet<EntryIndex> },
    /// Unknown or over.
    Free,
}

pub enum InvocationStatusView {
    Inboxed { inbox_sequence_number: MessageIndex, invocation: ServiceInvocationView },
    Invoked(InvocationMetadataView),
    Suspended { metadata: InvocationMetadataView, waiting_for_completed_entries: Set<EntryIndex> },
    Free,
}

impl InvocationStatusView {
    /// Whether the invocation holds the lock of its virtual object.
    pub open spec fn is_active(self) -> bool {
        self is Invoked || self is Suspended
    }
}

impl View for InvocationStatus {
    type V = InvocationStatusView;

    open spec fn view(&self) -> InvocationStatusView {
        match self {
            InvocationStatus::Inboxed { inbox_sequence_number, invocation } =>
                InvocationStatusView::Inboxed {
                    inbox_sequence_number: *inbox_sequence_number,
                    invocation: invocation@,
                },
            InvocationStatus::Invoked(metadata) => InvocationStatusView::Invoked(metadata@),
            InvocationStatus::Suspended { metadata, waiting_for_completed_entries } =>
                InvocationStatusView::Suspended {
                    metadata: metadata@,
                    waiting_for_completed_entries: waiting_for_completed_entries@,
                },
            InvocationStatus::Free => InvocationStatusView::Free,
        }
    }
}

impl Clone for InvocationStatus {
    fn clone(&self) -> (r: Self)
        ensures
            r@ == self@,
    {
        match self {
            InvocationStatus::Inboxed { inbox_sequence_number, invocation } =>
                InvocationStatus::Inboxed {
                    inbox_sequence_number: *inbox_sequence_number,
                    invocation: invocation.clone(),
                },
            InvocationStatus::Invoked(metadata) => InvocationStatus::Invoked(metadata.clone()),
            InvocationStatus::Suspended { metadata, waiting_for_completed_entries } =>
                InvocationStatus::Suspended {
                    metadata: metadata.clone(),
                    waiting_for_completed_entries: clone_index_set(waiting_for_completed_entries),
                },
            InvocationStatus::Free => InvocationStatus::Free,
        }
    }
}

/// Whether a virtual object is free, or which invocation holds its lock.
#[derive(Debug, PartialEq, Eq)]
pub enum VirtualObjectStatus {
    Unlocked,
    Locked(FullInvocationId),
}

pub enum VirtualObjectStatusView {
    Unlocked,
    Locked(FullInvocationIdView),
}

impl View for VirtualObjectStatus {
    type V = VirtualObjectStatusView;

    open spec fn view(&self) -> VirtualObjectStatusView {
        match self {
            VirtualObjectStatus::Unlocked => VirtualObjectStatusView::Unlocked,
            VirtualObjectStatus::Locked(fid) => VirtualObjectStatusView::Locked(fid@),
        }
    }
}

impl Clone for VirtualObjectStatus {
    fn clone(&self) -> (r: Self)
        ensures
            r@ == self@,
    {
        match self {
            VirtualObjectStatus::Unlocked => VirtualObjectStatus::Unlocked,
            VirtualObjectStatus::Locked(fid) => VirtualObjectStatus::Locked(fid.clone()),
        }
    }
}

/// One key of the state of a virtual object and its new value.
#[derive(Debug, PartialEq, Eq)]
pub struct StateEntry {
    pub key: Bytes,
    pub value: Bytes,
}

pub struct StateEntryView {
    pub key: Seq<u8>,
    pub value: Seq<u8>,
}

impl View for StateEntry {
    type V = StateEntryView;

    open spec fn view(&self) -> StateEntryView {
        StateEntryView { key: bytes_contents(self.key), value: bytes_contents(self.value) }
    }
}

impl Clone for StateEntry {
    fn clone(&self) -> (r: Self)
        ensures
            r@ == self@,
    {
        StateEntry { key: self.key.clone(), value: self.value.clone() }
    }
}

/// A change of the state of a virtual object that comes from outside any
/// invocation.
#[derive(Debug, PartialEq, Eq)]
pub struct ExternalStateMutation {
    pub component_id: ServiceId,
    pub version: Option<String>,
    pub state: Vec<StateEntry>,
}

pub struct ExternalStateMutationView {
    pub component_id: ServiceIdView,
    pub version: Option<Seq<char>>,
    pub state: Seq<StateEntryView>,
}

impl View for ExternalStateMutation {
    type V = ExternalStateMutationView;

    open spec fn view(&self) -> ExternalStateMutationView {
        ExternalStateMutationView {
            component_id: self.component_id@,
            version: match self.version {
                Some(v) => Some(v@),
                None => None,
            },
            state: state_view(self.state@),
        }
    }
}

/// The views of a list of state entries.
pub open spec fn state_view(state: Seq<StateEntry>) -> Seq<StateEntryView> {
    state.map_values(|e: StateEntry| e@)
}

pub fn clone_state(state: &Vec<StateEntry>) -> (r: Vec<StateEntry>)
    ensures
        state_view(r@) == state_view(state@),
{
    let mut copy: Vec<StateEntry> = Vec::new();
    let mut i: usize = 0;
    while i < state.len()
        invariant
            i <= state.len(),
            copy.len() == i,
            forall|j: int| 0 <= j < i ==> copy@[j]@ == state@[j]@,
        decreases state.len() - i,
    {
        copy.push(state[i].clone());
        i += 1;
    }
    assert(state_view(copy@) =~= state_view(state@));
    copy
}

impl Clone for ExternalStateMutation {
    fn clone(&self) -> (r: Self)
        ensures
            r@ == self@,
    {
        ExternalStateMutation {
            component_id: self.component_id.clone(),
            version: match &self.version {
                Some(v) => Some(v.clone()),
                None => None,
            },
            state: clone_state(&self.state),
        }
    }
}

/// What waits in the inbox of a virtual object.
#[derive(Debug, PartialEq, Eq)]
pub enum InboxEntry {
    Invocation(ServiceInvocation),
    StateMutation(ExternalStateMutation),
}

pub enum InboxEntryView {
    Invocation(ServiceInvocationView),
    StateMutation(ExternalStateMutationView),
}

impl View for InboxEntry {
    type V = InboxEntryView;

    open spec fn view(&self) -> InboxEntryView {
        match self {
            InboxEntry::Invocation(invocation) => InboxEntryView::Invocation(invocation@),
            InboxEntry::StateMutation(mutation) => InboxEntryView::StateMutation(mutation@),
        }
    }
}

impl Clone for InboxEntry {
    fn clone(&self) -> (r: Self)
        ensures
            r@ == self@,
    {
        match self {
            InboxEntry::Invocation(invocation) => InboxEntry::Invocation(invocation.clone()),
            InboxEntry::StateMutation(mutation) => InboxEntry::StateMutation(mutation.clone()),
        }
    }
}

/// An invocation in the inbox, with its place there.
#[derive(Debug, PartialEq, Eq)]
pub struct SequenceNumberInvocation {
    pub inbox_sequence_number: MessageIndex,
    pub invocation: ServiceInvocation,
}

pub struct SequenceNumberInvocationView {
    pub inbox_sequence_number: MessageIndex,
    pub invocation: ServiceInvocationView,
}

impl View for SequenceNumberInvocation {
    type V = SequenceNumberInvocationView;

    open spec fn view(&self) -> SequenceNumberInvocationView {
        SequenceNumberInvocationView {
            inbox_sequence_number: self.inbox_sequence_number,
            invocation: self.invocation@,
        }
    }
}

impl Clone for SequenceNumberInvocation {
    fn clone(&self) -> (r: Self)
        ensures
            r@ == self@,
    {
        SequenceNumberInvocation {
            inbox_sequence_number: self.inbox_sequence_number,
            invocation: self.invocation.clone(),
        }
    }
}

/// A message on its way to another partition.
#[derive(Debug, PartialEq, Eq)]
pub enum OutboxMessage {
    ServiceInvocation(ServiceInvocation),
    InvocationTermination(InvocationTermination),
    ServiceResponse(InvocationResponse),
    AwakeableCompletion {
        target_invocation_id: InvocationId,
        target_entry_index: EntryIndex,
        result: ResponseResult,
    },
}

pub enum OutboxMessageView {
    ServiceInvocation(ServiceInvocationView),
    InvocationTermination(InvocationTerminationView),
    ServiceResponse(InvocationResponseView),
    AwakeableCompletion {
        target_invocation_id: InvocationId,
        target_entry_index: EntryIndex,
        result: ResponseResultView,
    },
}

impl View for OutboxMessage {
    type V = OutboxMessageView;

    open spec fn view(&self) -> OutboxMessageView {
        match self {
            OutboxMessage::ServiceInvocation(invocation) => OutboxMessageView::ServiceInvocation(
                invocation@,
            ),
            OutboxMessage::InvocationTermination(termination) =>
                OutboxMessageView::InvocationTermination(termination@),
            OutboxMessage::ServiceResponse(response) => OutboxMessageView::ServiceResponse(
                response@,
            ),
            OutboxMessage::AwakeableCompletion {
                target_invocation_id,
                target_entry_index,
                result,
            } => OutboxMessageView::AwakeableCompletion {
                target_invocation_id: *target_invocation_id,
                target_entry_index: *target_entry_index,
                result: result@,
            },
        }
    }
}

impl Clone for OutboxMessage {
    fn clone(&self) -> (r: Self)
        ensures
            r@ == self@,
    {
        match self {
            OutboxMessage::ServiceInvocation(invocation) => OutboxMessage::ServiceInvocation(
                invocation.clone(),
            ),
            OutboxMessage::InvocationTermination(termination) =>
                OutboxMessage::InvocationTermination(termination.clone()),
            OutboxMessage::ServiceResponse(response) => OutboxMessage::ServiceResponse(
                response.clone(),
            ),
            OutboxMessage::AwakeableCompletion {
                target_invocation_id,
                target_entry_index,
                result,
            } => OutboxMessage::AwakeableCompletion {
                target_invocation_id: *target_invocation_id,
                target_entry_index: *target_entry_index,
                result: result.clone(),
            },
        }
    }
}

impl OutboxMessage {
    /// The message that completes the awakeable at `entry_index` of the
    /// invocation `invocation_id`.
    pub fn from_awakeable_completion(
        invocation_id: InvocationId,
        entry_index: EntryIndex,
        result: ResponseResult,
    ) -> (r: Self)
        ensures
            r@ == (OutboxMessageView::AwakeableCompletion {
                target_invocation_id: invocation_id,
                target_entry_index: entry_index,
                result: result@,
            }),
    {
        OutboxMessage::AwakeableCompletion {
            target_invocation_id: invocation_id,
            target_entry_index: entry_index,
            result,
        }
    }
}

/// A response on its way: to another partition through the outbox, or to an
/// external caller through the ingress.
#[derive(Debug, PartialEq, Eq)]
pub enum ResponseMessage {
    Outbox(OutboxMessage),
    Ingress(IngressResponse),
}

pub enum ResponseMessageView {
    Outbox(OutboxMessageView),
    Ingress(IngressResponseView),
}

impl View for ResponseMessage {
    type V = ResponseMessageView;

    open spec fn view(&self) -> ResponseMessageView {
        match self {
            ResponseMessage::Outbox(message) => ResponseMessageView::Outbox(message@),
            ResponseMessage::Ingress(response) => ResponseMessageView::Ingress(response@),
        }
    }
}

/// The message that carries `result` of the invocation `callee` to `sink`.
pub open spec fn response_message(
    callee: FullInvocationIdView,
    sink: ServiceInvocationResponseSinkView,
    result: ResponseResultView,
) -> ResponseMessageView {
    match sink {
        ServiceInvocationResponseSinkView::PartitionProcessor { caller, entry_index } =>
            ResponseMessageView::Outbox(
                OutboxMessageView::ServiceResponse(
                    InvocationResponseView {
                        id: MaybeFullInvocationIdView::Full(caller),
                        entry_index,
                        result,
                    },
                ),
            ),
        ServiceInvocationResponseSinkView::Ingress(target) => ResponseMessageView::Ingress(
            IngressResponseView { target, full_invocation_id: callee, response: result },
        ),
    }
}

pub fn create_response_message(
    callee: &FullInvocationId,
    sink: ServiceInvocationResponseSink,
    result: ResponseResult,
) -> (r: ResponseMessage)
    ensures
        r@ == response_message(callee@, sink@, result@),
{
    match sink {
        ServiceInvocationResponseSink::PartitionProcessor { caller, entry_index } =>
            ResponseMessage::Outbox(
                OutboxMessage::ServiceResponse(
                    InvocationResponse {
                        id: MaybeFullInvocationId::Full(caller),
                        entry_index,
                        result,
                    },
                ),
            ),
        ServiceInvocationResponseSink::Ingress(target) => ResponseMessage::Ingress(
            IngressResponse { target, full_invocation_id: callee.clone(), response: result },
        ),
    }
}

/// Names a timer: the invocation and journal entry it belongs to, and when
/// it fires.
#[derive(Clone, Copy, Debug, PartialEq, Eq)]
pub struct TimerKey {
    pub invocation_uuid: InvocationUuid,
    pub journal_index: EntryIndex,
    pub timestamp: MillisSinceEpoch,
}

/// What happens when a timer fires.
#[derive(Debug, PartialEq, Eq)]
pub enum Timer {
    /// The sleep entry of an invocation on this virtual object is over.
    CompleteSleepEntry(ServiceId),
    /// A delayed invocation is due.
    Invoke(ServiceInvocation),
}

pub enum TimerView {
    CompleteSleepEntry(ServiceIdView),
    Invoke(ServiceInvocationView),
}

impl View for Timer {
    type V = TimerView;

    open spec fn view(&self) -> TimerView {
        match self {
            Timer::CompleteSleepEntry(service_id) => TimerView::CompleteSleepEntry(service_id@),
            Timer::Invoke(invocation) => TimerView::Invoke(invocation@),
        }
    }
}

/// A timer with its key.
#[derive(Debug, PartialEq, Eq)]
pub struct TimerValue {
    pub key: TimerKey,
    pub value: Timer,
}

pub struct TimerValueView {
    pub key: TimerKey,
    pub value: TimerView,
}

impl TimerValueView {
    pub open spec fn new_sleep(
        fid: FullInvocationIdView,
        wake_up_time: MillisSinceEpoch,
        entry_index: EntryIndex,
    ) -> Self {
        TimerValueView {
            key: TimerKey {
                invocation_uuid: fid.invocation_uuid,
                journal_index: entry_index,
                timestamp: wake_up_time,
            },
            value: TimerView::CompleteSleepEntry(fid.service_id),
        }
    }

    pub open spec fn new_invoke(
        fid: FullInvocationIdView,
        wake_up_time: MillisSinceEpoch,
        entry_index: EntryIndex,
        invocation: ServiceInvocationView,
    ) -> Self {
        TimerValueView {
            key: TimerKey {
                invocation_uuid: fid.invocation_uuid,
                journal_index: entry_index,
                timestamp: wake_up_time,
            },
            value: TimerView::Invoke(invocation),
        }
    }
}

impl View for TimerValue {
    type V = TimerValueView;

    open spec fn view(&self) -> TimerValueView {
        TimerValueView { key: self.key, value: self.value@ }
    }
}

impl TimerValue {
    /// The timer that wakes the sleep entry at `entry_index` of `fid`.
    pub fn new_sleep(
        fid: FullInvocationId,
        wake_up_time: MillisSinceEpoch,
        entry_index: EntryIndex,
    ) -> (r: Self)
        ensures
            r@ == TimerValueView::new_sleep(fid@, wake_up_time, entry_index),
    {
        TimerValue {
            key: TimerKey {
                invocation_uuid: fid.invocation_uuid,
                journal_index: entry_index,
                timestamp: wake_up_time,
            },
            value: Timer::CompleteSleepEntry(fid.service_id),
        }
    }

    /// The timer that starts the delayed invocation `invocation`.
    pub fn new_invoke(
        fid: FullInvocationId,
        wake_up_time: MillisSinceEpoch,
        entry_index: EntryIndex,
        invocation: ServiceInvocation,
    ) -> (r: Self)
        ensures
            r@ == TimerValueView::new_invoke(fid@, wake_up_time, entry_index, invocation@),
    {
        TimerValue {
            key: TimerKey {
                invocation_uuid: fid.invocation_uuid,
                journal_index: entry_index,
                timestamp: wake_up_time,
            },
            value: Timer::Invoke(invocation),
        }
    }

    pub fn into_inner(self) -> (r: (TimerKey, Timer))
        ensures
            r.0 == self@.key,
            r.1@ == self@.value,
    {
        (self.key, self.value)
    }
}

} // verus!
