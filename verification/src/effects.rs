//! The effects that applying a command produces.
//!
//! An effect is a record of one change that the caller is to make: to
//! storage, or by a message to the invoker, the timer service, the shuffler
//! or the ingress. The interpreter appends effects to a buffer in the order
//! in which they are to be carried out.
use crate::errors::InvocationErrorCode;
use crate::identifiers::{
    EntryIndex, FullInvocationId, FullInvocationIdView, InvocationId, MessageIndex,
    MillisSinceEpoch, ServiceId, ServiceIdView,
};
use crate::invocation::{
    IngressResponse, IngressResponseView, ServiceInvocation, ServiceInvocationSpanContext,
    ServiceInvocationView, SpanId,
};
use crate::journal::{Completion, CompletionView, EnrichedRawEntry, EnrichedRawEntryView};
use crate::octets::bytes_contents;
use crate::storage::{
    DeploymentId, ExternalStateMutation, ExternalStateMutationView, InboxEntry, InboxEntryView,
    InvocationMetadata, InvocationMetadataView, InvocationStatus, InvocationStatusView,
    OutboxMessage, OutboxMessageView, TimerKey, TimerValue, TimerValueView,
};
use bytes::Bytes;
use std::collections::HashSet;
use vstd::prelude::*;

verus! {

/// How an invocation ended, for the trace: success, or the code and message
/// of its failure.
pub type InvocationOutcome = Result<(), (InvocationErrorCode, String)>;

pub type InvocationOutcomeView = Result<(), (InvocationErrorCode, Seq<char>)>;

pub open spec fn outcome_view(outcome: InvocationOutcome) -> InvocationOutcomeView {
    match outcome {
        Ok(()) => Ok(()),
        Err((code, message)) => Err((code, message@)),
    }
}

/// One effect of a command.
#[derive(Debug, PartialEq, Eq)]
pub enum Effect {
    /// Take the lock of the object and start the invocation.
    InvokeService(ServiceInvocation),
    /// Hand a suspended invocation back to the invoker.
    ResumeService { invocation_id: InvocationId, metadata: InvocationMetadata },
    /// Record that the invocation waits for one of the entries.
    SuspendService {
        invocation_id: InvocationId,
        metadata: InvocationMetadata,
        waiting_for_completed_entries: HashSet<EntryIndex>,
    },
    StoreChosenDeployment {
        invocation_id: InvocationId,
        deployment_id: DeploymentId,
        metadata: InvocationMetadata,
    },
    /// Tell the invoker to drop what it has of the invocation.
    AbortInvocation(FullInvocationId),
    /// Delete the journal, then start what waits first in the inbox of the
    /// object, or release the lock.
    DropJournalAndPopInbox { full_invocation_id: FullInvocationId, journal_length: EntryIndex },
    /// Store the entry at the end of the journal.
    AppendJournalEntry {
        invocation_id: InvocationId,
        previous_invocation_status: InvocationStatus,
        entry_index: EntryIndex,
        journal_entry: EnrichedRawEntry,
    },
    StoreCompletion { invocation_id: InvocationId, completion: Completion },
    ForwardCompletion { full_invocation_id: FullInvocationId, completion: Completion },
    SendStoredEntryAckToInvoker { full_invocation_id: FullInvocationId, entry_index: EntryIndex },
    SetState {
        service_id: ServiceId,
        invocation_id: InvocationId,
        span_context: ServiceInvocationSpanContext,
        key: Bytes,
        value: Bytes,
    },
    ClearState {
        service_id: ServiceId,
        invocation_id: InvocationId,
        span_context: ServiceInvocationSpanContext,
        key: Bytes,
    },
    ClearAllState {
        service_id: ServiceId,
        invocation_id: InvocationId,
        span_context: ServiceInvocationSpanContext,
    },
    ApplyStateMutation(ExternalStateMutation),
    EnqueueIntoInbox { seq_number: MessageIndex, inbox_entry: InboxEntry },
    DeleteInboxEntry { service_id: ServiceId, sequence_number: MessageIndex },
    EnqueueIntoOutbox { seq_number: MessageIndex, message: OutboxMessage },
    /// Drop the outbox messages up to and including the index.
    TruncateOutbox(MessageIndex),
    RegisterTimer { timer_value: TimerValue, span_context: ServiceInvocationSpanContext },
    DeleteTimer(TimerKey),
    SendIngressResponse(IngressResponse),
    TraceBackgroundInvoke {
        full_invocation_id: FullInvocationId,
        service_method: String,
        span_context: ServiceInvocationSpanContext,
        pointer_span_id: Option<SpanId>,
    },
    TraceInvocationResult {
        full_invocation_id: FullInvocationId,
        service_method: String,
        span_context: ServiceInvocationSpanContext,
        /// When the invocation started; `None` if it never did.
        creation_time: Option<MillisSinceEpoch>,
        result: InvocationOutcome,
    },
}

pub enum EffectView {
    InvokeService(ServiceInvocationView),
    ResumeService { invocation_id: InvocationId, metadata: InvocationMetadataView },
    SuspendService {
        invocation_id: InvocationId,
        metadata: InvocationMetadataView,
        waiting_for_completed_entries: Set<EntryIndex>,
    },
    StoreChosenDeployment {
        invocation_id: InvocationId,
        deployment_id: DeploymentId,
        metadata: InvocationMetadataView,
    },
    AbortInvocation(FullInvocationIdView),
    DropJournalAndPopInbox { full_invocation_id: FullInvocationIdView, journal_length: EntryIndex },
    AppendJournalEntry {
        invocation_id: InvocationId,
        previous_invocation_status: InvocationStatusView,
        entry_index: EntryIndex,
        journal_entry: EnrichedRawEntryView,
    },
    StoreCompletion { invocation_id: InvocationId, completion: CompletionView },
    ForwardCompletion { full_invocation_id: FullInvocationIdView, completion: CompletionView },
    SendStoredEntryAckToInvoker {
        full_invocation_id: FullInvocationIdView,
        entry_index: EntryIndex,
    },
    SetState {
        service_id: ServiceIdView,
        invocation_id: InvocationId,
        span_context: ServiceInvocationSpanContext,
        key: Seq<u8>,
        value: Seq<u8>,
    },
    ClearState {
        service_id: ServiceIdView,
        invocation_id: InvocationId,
        span_context: ServiceInvocationSpanContext,
        key: Seq<u8>,
    },
    ClearAllState {
        service_id: ServiceIdView,
        invocation_id: InvocationId,
        span_context: ServiceInvocationSpanContext,
    },
    ApplyStateMutation(ExternalStateMutationView),
    EnqueueIntoInbox { seq_number: int, inbox_entry: InboxEntryView },
    DeleteInboxEntry { service_id: ServiceIdView, sequence_number: MessageIndex },
    EnqueueIntoOutbox { seq_number: int, message: OutboxMessageView },
    TruncateOutbox(MessageIndex),
    RegisterTimer { timer_value: TimerValueView, span_context: ServiceInvocationSpanContext },
    DeleteTimer(TimerKey),
    SendIngressResponse(IngressResponseView),
    TraceBackgroundInvoke {
        full_invocation_id: FullInvocationIdView,
        service_method: Seq<char>,
        span_context: ServiceInvocationSpanContext,
        pointer_span_id: Option<SpanId>,
    },
    TraceInvocationResult {
        full_invocation_id: FullInvocationIdView,
        service_method: Seq<char>,
        span_context: ServiceInvocationSpanContext,
        creation_time: Option<MillisSinceEpoch>,
        result: InvocationOutcomeView,
    },
}

impl View for Effect {
    type V = EffectView;

    open spec fn view(&self) -> EffectView {
        match self {
            Effect::InvokeService(invocation) => EffectView::InvokeService(invocation@),
            Effect::ResumeService { invocation_id, metadata } => EffectView::ResumeService {
                invocation_id: *invocation_id,
                metadata: metadata@,
            },
            Effect::SuspendService { invocation_id, metadata, waiting_for_completed_entries } =>
                EffectView::SuspendService {
                    invocation_id: *invocation_id,
                    metadata: metadata@,
                    waiting_for_completed_entries: waiting_for_completed_entries@,
                },
            Effect::StoreChosenDeployment { invocation_id, deployment_id, metadata } =>
                EffectView::StoreChosenDeployment {
                    invocation_id: *invocation_id,
                    deployment_id: *deployment_id,
                    metadata: metadata@,
                },
            Effect::AbortInvocation(fid) => EffectView::AbortInvocation(fid@),
            Effect::DropJournalAndPopInbox { full_invocation_id, journal_length } =>
                EffectView::DropJournalAndPopInbox {
                    full_invocation_id: full_invocation_id@,
                    journal_length: *journal_length,
                },
            Effect::AppendJournalEntry {
                invocation_id,
                previous_invocation_status,
                entry_index,
                journal_entry,
            } => EffectView::AppendJournalEntry {
                invocation_id: *invocation_id,
                previous_invocation_status: previous_invocation_status@,
                entry_index: *entry_index,
                journal_entry: journal_entry@,
            },
            Effect::StoreCompletion { invocation_id, completion } => EffectView::StoreCompletion {
                invocation_id: *invocation_id,
                completion: completion@,
            },
            Effect::ForwardCompletion { full_invocation_id, completion } =>
                EffectView::ForwardCompletion {
                    full_invocation_id: full_invocation_id@,
                    completion: completion@,
                },
            Effect::SendStoredEntryAckToInvoker { full_invocation_id, entry_index } =>
                EffectView::SendStoredEntryAckToInvoker {
                    full_invocation_id: full_invocation_id@,
                    entry_index: *entry_index,
                },
            Effect::SetState { service_id, invocation_id, span_context, key, value } =>
                EffectView::SetState {
                    service_id: service_id@,
                    invocation_id: *invocation_id,
                    span_context: *span_context,
                    key: bytes_contents(*key),
                    value: bytes_contents(*value),
                },
            Effect::ClearState { service_id, invocation_id, span_context, key } =>
                EffectView::ClearState {
                    service_id: service_id@,
                    invocation_id: *invocation_id,
                    span_context: *span_context,
                    key: bytes_contents(*key),
                },
            Effect::ClearAllState { service_id, invocation_id, span_context } =>
                EffectView::ClearAllState {
                    service_id: service_id@,
                    invocation_id: *invocation_id,
                    span_context: *span_context,
                },
            Effect::ApplyStateMutation(mutation) => EffectView::ApplyStateMutation(mutation@),
            Effect::EnqueueIntoInbox { seq_number, inbox_entry } => EffectView::EnqueueIntoInbox {
                seq_number: *seq_number as int,
                inbox_entry: inbox_entry@,
            },
            Effect::DeleteInboxEntry { service_id, sequence_number } =>
                EffectView::DeleteInboxEntry {
                    service_id: service_id@,
                    sequence_number: *sequence_number,
                },
            Effect::EnqueueIntoOutbox { seq_number, message } => EffectView::EnqueueIntoOutbox {
                seq_number: *seq_number as int,
                message: message@,
            },
            Effect::TruncateOutbox(index) => EffectView::TruncateOutbox(*index),
            Effect::RegisterTimer { timer_value, span_context } => EffectView::RegisterTimer {
                timer_value: timer_value@,
                span_context: *span_context,
            },
            Effect::DeleteTimer(key) => EffectView::DeleteTimer(*key),
            Effect::SendIngressResponse(response) => EffectView::SendIngressResponse(response@),
            Effect::TraceBackgroundInvoke {
                full_invocation_id,
                service_method,
                span_context,
                pointer_span_id,
            } => EffectView::TraceBackgroundInvoke {
                full_invocation_id: full_invocation_id@,
                service_method: service_method@,
                span_context: *span_context,
                pointer_span_id: *pointer_span_id,
            },
            Effect::TraceInvocationResult {
                full_invocation_id,
                service_method,
                span_context,
                creation_time,
                result,
            } => EffectView::TraceInvocationResult {
                full_invocation_id: full_invocation_id@,
                service_method: service_method@,
                span_context: *span_context,
                creation_time: *creation_time,
                result: outcome_view(*result),
            },
        }
    }
}

/// The buffer that collects the effects of one command. The caller empties
/// it before each command.
#[derive(Debug, PartialEq, Eq)]
pub struct Effects {
    effects: Vec<Effect>,
}

impl View for Effects {
    type V = Seq<EffectView>;

    closed spec fn view(&self) -> Seq<EffectView> {
        self.effects@.map_values(|e: Effect| e@)
    }
}

impl Effects {
    pub fn new() -> (r: Self)
        ensures
            r@ == Seq::<EffectView>::empty(),
    {
        let r = Effects { effects: Vec::new() };
        assert(r@ =~= Seq::<EffectView>::empty());
        r
    }

    pub fn with_capacity(capacity: usize) -> (r: Self)
        ensures
            r@ == Seq::<EffectView>::empty(),
    {
        let r = Effects { effects: Vec::with_capacity(capacity) };
        assert(r@ =~= Seq::<EffectView>::empty());
        r
    }

    pub fn clear(&mut self)
        ensures
            final(self)@ == Seq::<EffectView>::empty(),
    {
        self.effects.clear();
        assert(self@ =~= Seq::<EffectView>::empty());
    }

    pub fn len(&self) -> (r: usize)
        ensures
            r == self@.len(),
    {
        self.effects.len()
    }

    pub fn is_empty(&self) -> (r: bool)
        ensures
            r == (self@.len() == 0),
    {
        self.effects.len() == 0
    }

    /// The effect at position `index`.
    pub fn get(&self, index: usize) -> (r: &Effect)
        requires
            index < self@.len(),
        ensures
            r@ == self@[index as int],
    {
        &self.effects[index]
    }

    /// Hands out the effects, in order.
    pub fn into_inner(self) -> (r: Vec<Effect>)
        ensures
            r@.map_values(|e: Effect| e@) == self@,
    {
        self.effects
    }

    fn push_effect(&mut self, effect: Effect)
        ensures
            final(self)@ == old(self)@.push(effect@),
    {
        self.effects.push(effect);
        assert(self@ =~= old(self)@.push(effect@));
    }

    pub fn invoke_service(&mut self, service_invocation: ServiceInvocation)
        ensures
            final(self)@ == old(self)@.push(EffectView::InvokeService(service_invocation@)),
    {
        self.push_effect(Effect::InvokeService(service_invocation));
    }

    pub fn resume_service(&mut self, invocation_id: InvocationId, metadata: InvocationMetadata)
        ensures
            final(self)@ == old(self)@.push(
                EffectView::ResumeService { invocation_id, metadata: metadata@ },
            ),
    {
        self.push_effect(Effect::ResumeService { invocation_id, metadata });
    }

    pub fn suspend_service(
        &mut self,
        invocation_id: InvocationId,
        metadata: InvocationMetadata,
        waiting_for_completed_entries: HashSet<EntryIndex>,
    )
        ensures
            final(self)@ == old(self)@.push(
                EffectView::SuspendService {
                    invocation_id,
                    metadata: metadata@,
                    waiting_for_completed_entries: waiting_for_completed_entries@,
                },
            ),
    {
        self.push_effect(
            Effect::SuspendService { invocation_id, metadata, waiting_for_completed_entries },
        );
    }

    pub fn store_chosen_deployment(
        &mut self,
        invocation_id: InvocationId,
        deployment_id: DeploymentId,
        metadata: InvocationMetadata,
    )
        ensures
            final(self)@ == old(self)@.push(
                EffectView::StoreChosenDeployment {
                    invocation_id,
                    deployment_id,
                    metadata: metadata@,
                },
            ),
    {
        self.push_effect(Effect::StoreChosenDeployment { invocation_id, deployment_id, metadata });
    }

    pub fn abort_invocation(&mut self, full_invocation_id: FullInvocationId)
        ensures
            final(self)@ == old(self)@.push(EffectView::AbortInvocation(full_invocation_id@)),
    {
        self.push_effect(Effect::AbortInvocation(full_invocation_id));
    }

    pub fn drop_journal_and_pop_inbox(
        &mut self,
        full_invocation_id: FullInvocationId,
        journal_length: EntryIndex,
    )
        ensures
            final(self)@ == old(self)@.push(
                EffectView::DropJournalAndPopInbox {
                    full_invocation_id: full_invocation_id@,
                    journal_length,
                },
            ),
    {
        self.push_effect(Effect::DropJournalAndPopInbox { full_invocation_id, journal_length });
    }

    pub fn append_journal_entry(
        &mut self,
        invocation_id: InvocationId,
        previous_invocation_status: InvocationStatus,
        entry_index: EntryIndex,
        journal_entry: EnrichedRawEntry,
    )
        ensures
            final(self)@ == old(self)@.push(
                EffectView::AppendJournalEntry {
                    invocation_id,
                    previous_invocation_status: previous_invocation_status@,
                    entry_index,
                    journal_entry: journal_entry@,
                },
            ),
    {
        self.push_effect(
            Effect::AppendJournalEntry {
                invocation_id,
                previous_invocation_status,
                entry_index,
                journal_entry,
            },
        );
    }

    pub fn store_completion(&mut self, invocation_id: InvocationId, completion: Completion)
        ensures
            final(self)@ == old(self)@.push(
                EffectView::StoreCompletion { invocation_id, completion: completion@ },
            ),
    {
        self.push_effect(Effect::StoreCompletion { invocation_id, completion });
    }

    pub fn forward_completion(
        &mut self,
        full_invocation_id: FullInvocationId,
        completion: Completion,
    )
        ensures
            final(self)@ == old(self)@.push(
                EffectView::ForwardCompletion {
                    full_invocation_id: full_invocation_id@,
                    completion: completion@,
                },
            ),
    {
        self.push_effect(Effect::ForwardCompletion { full_invocation_id, completion });
    }

    pub fn send_stored_ack_to_invoker(
        &mut self,
        full_invocation_id: FullInvocationId,
        entry_index: EntryIndex,
    )
        ensures
            final(self)@ == old(self)@.push(
                EffectView::SendStoredEntryAckToInvoker {
                    full_invocation_id: full_invocation_id@,
                    entry_index,
                },
            ),
    {
        self.push_effect(Effect::SendStoredEntryAckToInvoker { full_invocation_id, entry_index });
    }

    pub fn set_state(
        &mut self,
        service_id: ServiceId,
        invocation_id: InvocationId,
        span_context: ServiceInvocationSpanContext,
        key: Bytes,
        value: Bytes,
    )
        ensures
            final(self)@ == old(self)@.push(
                EffectView::SetState {
                    service_id: service_id@,
                    invocation_id,
                    span_context,
                    key: bytes_contents(key),
                    value: bytes_contents(value),
                },
            ),
    {
        self.push_effect(Effect::SetState { service_id, invocation_id, span_context, key, value });
    }

    pub fn clear_state(
        &mut self,
        service_id: ServiceId,
        invocation_id: InvocationId,
        span_context: ServiceInvocationSpanContext,
        key: Bytes,
    )
        ensures
            final(self)@ == old(self)@.push(
                EffectView::ClearState {
                    service_id: service_id@,
                    invocation_id,
                    span_context,
                    key: bytes_contents(key),
                },
            ),
    {
        self.push_effect(Effect::ClearState { service_id, invocation_id, span_context, key });
    }

    pub fn clear_all_state(
        &mut self,
        service_id: ServiceId,
        invocation_id: InvocationId,
        span_context: ServiceInvocationSpanContext,
    )
        ensures
            final(self)@ == old(self)@.push(
                EffectView::ClearAllState { service_id: service_id@, invocation_id, span_context },
            ),
    {
        self.push_effect(Effect::ClearAllState { service_id, invocation_id, span_context });
    }

    pub fn apply_state_mutation(&mut self, mutation: ExternalStateMutation)
        ensures
            final(self)@ == old(self)@.push(EffectView::ApplyStateMutation(mutation@)),
    {
        self.push_effect(Effect::ApplyStateMutation(mutation));
    }

    pub fn enqueue_into_inbox(&mut self, seq_number: MessageIndex, inbox_entry: InboxEntry)
        ensures
            final(self)@ == old(self)@.push(
                EffectView::EnqueueIntoInbox {
                    seq_number: seq_number as int,
                    inbox_entry: inbox_entry@,
                },
            ),
    {
        self.push_effect(Effect::EnqueueIntoInbox { seq_number, inbox_entry });
    }

    pub fn delete_inbox_entry(&mut self, service_id: ServiceId, sequence_number: MessageIndex)
        ensures
            final(self)@ == old(self)@.push(
                EffectView::DeleteInboxEntry { service_id: service_id@, sequence_number },
            ),
    {
        self.push_effect(Effect::DeleteInboxEntry { service_id, sequence_number });
    }

    pub fn enqueue_into_outbox(&mut self, seq_number: MessageIndex, message: OutboxMessage)
        ensures
            final(self)@ == old(self)@.push(
                EffectView::EnqueueIntoOutbox { seq_number: seq_number as int, message: message@ },
            ),
    {
        self.push_effect(Effect::EnqueueIntoOutbox { seq_number, message });
    }

    pub fn truncate_outbox(&mut self, outbox_sequence_number: MessageIndex)
        ensures
            final(self)@ == old(self)@.push(EffectView::TruncateOutbox(outbox_sequence_number)),
    {
        self.push_effect(Effect::TruncateOutbox(outbox_sequence_number));
    }

    pub fn register_timer(
        &mut self,
        timer_value: TimerValue,
        span_context: ServiceInvocationSpanContext,
    )
        ensures
            final(self)@ == old(self)@.push(
                EffectView::RegisterTimer { timer_value: timer_value@, span_context },
            ),
    {
        self.push_effect(Effect::RegisterTimer { timer_value, span_context });
    }

    pub fn delete_timer(&mut self, timer_key: TimerKey)
        ensures
            final(self)@ == old(self)@.push(EffectView::DeleteTimer(timer_key)),
    {
        self.push_effect(Effect::DeleteTimer(timer_key));
    }

    pub fn send_ingress_response(&mut self, ingress_response: IngressResponse)
        ensures
            final(self)@ == old(self)@.push(EffectView::SendIngressResponse(ingress_response@)),
    {
        self.push_effect(Effect::SendIngressResponse(ingress_response));
    }

    pub fn trace_background_invoke(
        &mut self,
        full_invocation_id: FullInvocationId,
        service_method: String,
        span_context: ServiceInvocationSpanContext,
        pointer_span_id: Option<SpanId>,
    )
        ensures
            final(self)@ == old(self)@.push(
                EffectView::TraceBackgroundInvoke {
                    full_invocation_id: full_invocation_id@,
                    service_method: service_method@,
                    span_context,
                    pointer_span_id,
                },
            ),
    {
        self.push_effect(
            Effect::TraceBackgroundInvoke {
                full_invocation_id,
                service_method,
                span_context,
                pointer_span_id,
            },
        );
    }

    pub fn trace_invocation_result(
        &mut self,
        full_invocation_id: FullInvocationId,
        service_method: String,
        span_context: ServiceInvocationSpanContext,
        creation_time: Option<MillisSinceEpoch>,
        result: InvocationOutcome,
    )
        ensures
            final(self)@ == old(self)@.push(
                EffectView::TraceInvocationResult {
                    full_invocation_id: full_invocation_id@,
                    service_method: service_method@,
                    span_context,
                    creation_time,
                    result: outcome_view(result),
                },
            ),
    {
        self.push_effect(
            Effect::TraceInvocationResult {
                full_invocation_id,
                service_method,
                span_context,
                creation_time,
                result,
            },
        );
    }
}

} // verus!
