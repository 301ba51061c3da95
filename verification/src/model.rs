//! What applying a command means.
//!
//! The interpreter is a function from a command, a snapshot of the state and
//! the two sequence numbers to a list of effects, new sequence numbers and a
//! result. This module states that function over views; the executable
//! interpreter is proved to compute it.
use crate::command::{
    BuiltinServiceEffectsView, BuiltinServiceEffectView, CommandView, InvokerEffectKindView,
    InvokerEffectView,
};
use crate::deterministic::{ServiceEffectView, ServiceInvoker};
use crate::effects::{EffectView, InvocationOutcomeView};
use crate::errors::{canceled_invocation_error, InvocationErrorView, killed_invocation_error};
use crate::identifiers::{
    EntryIndex, FullInvocationIdView, InvocationId, InvocationUuid, MaybeFullInvocationIdView,
    MillisSinceEpoch, PartitionKey, ServiceIdView,
};
use crate::invocation::{
    IngressResponseView, InvocationTerminationView, ResponseResultView,
    ServiceInvocationResponseSinkView, ServiceInvocationSpanContext, ServiceInvocationView,
    SourceView, SpanRelation, TerminationFlavor,
};
use crate::journal::{
    AwakeableEnrichmentResult, CodecError, CompletionResultView, CompletionView,
    EnrichedEntryHeaderView, EnrichedRawEntryView, EntryType, EntryView, InvokeEnrichmentResultView,
    InvokeRequestView, JournalEntryView, RawEntryCodec, unexpected_entry,
};
use crate::state::Snapshot;
use crate::storage::{
    ExternalStateMutationView, InboxEntryView, InvocationMetadataView, InvocationStatusView,
    OutboxMessageView, response_message, ResponseMessageView, SequenceNumberInvocationView,
    TimerKey, TimerValueView, TimerView, VirtualObjectStatusView,
};
use vstd::prelude::*;
use vstd::std_specs::range::RangeInclusiveView;

verus! {

/// What a command has produced so far: the effects in the buffer and the
/// next sequence numbers of inbox and outbox.
pub ghost struct Machine {
    pub effects: Seq<EffectView>,
    pub inbox_seq_number: int,
    pub outbox_seq_number: int,
}

/// The invocation that a command was about, if any, and the span to relate
/// its trace to.
pub type Applied = (Option<FullInvocationIdView>, SpanRelation);

/// Where a piece of work has left the machine, and what it returns: a value,
/// or the codec failure that stopped it.
pub ghost struct Step<T> {
    pub machine: Machine,
    pub result: Result<T, CodecError>,
}

/// The invocation that a call entry starts.
pub open spec fn create_service_invocation(
    invocation_uuid: InvocationUuid,
    partition_key: PartitionKey,
    invocation_key: Seq<u8>,
    request: InvokeRequestView,
    source: SourceView,
    response_target: Option<(FullInvocationIdView, EntryIndex)>,
    span_context: ServiceInvocationSpanContext,
    execution_time: Option<MillisSinceEpoch>,
) -> ServiceInvocationView {
    ServiceInvocationView {
        fid: FullInvocationIdView {
            service_id: ServiceIdView {
                partition_key,
                service_name: request.service_name,
                key: invocation_key,
            },
            invocation_uuid,
        },
        method_name: request.method_name,
        argument: request.parameter,
        source,
        response_sink: match response_target {
            Some((caller, entry_index)) => Some(
                ServiceInvocationResponseSinkView::PartitionProcessor { caller, entry_index },
            ),
            None => None,
        },
        span_context,
        headers: Seq::empty(),
        execution_time,
    }
}

/// Whether a journal entry is a call that still runs and whose target is
/// known.
pub open spec fn is_live_child(header: EnrichedEntryHeaderView) -> bool {
    header matches EnrichedEntryHeaderView::Invoke { is_completed, enrichment_result }
        && !is_completed && enrichment_result is Some
}

/// The invocation that a live call entry started.
pub open spec fn child_target(header: EnrichedEntryHeaderView) -> FullInvocationIdView
    recommends
        is_live_child(header),
{
    header->Invoke_enrichment_result->0.target()
}

/// Whether a cancellation can deal with a journal entry: it is a live call,
/// or it waits for an awakeable, a state value or a sleep, or it needs no
/// completion any more.
pub open spec fn cancellable_or_completed(header: EnrichedEntryHeaderView) -> bool {
    match header {
        EnrichedEntryHeaderView::Invoke { is_completed, enrichment_result } => is_completed
            || enrichment_result is Some,
        EnrichedEntryHeaderView::Awakeable { .. } => true,
        EnrichedEntryHeaderView::GetState { .. } => true,
        EnrichedEntryHeaderView::Sleep { .. } => true,
        EnrichedEntryHeaderView::GetStateKeys { is_completed } => is_completed,
        _ => true,
    }
}

impl Machine {
    /// Whether `self` continues `base`: the effects of `base` are still
    /// there, in front.
    pub open spec fn extends(self, base: Machine) -> bool {
        &&& base.effects.len() <= self.effects.len()
        &&& self.effects.subrange(0, base.effects.len() as int) == base.effects
    }

    /// One more effect.
    pub open spec fn emit(self, effect: EffectView) -> Machine {
        Machine { effects: self.effects.push(effect), ..self }
    }

    /// Queues an entry under the next inbox sequence number.
    pub open spec fn enqueue_into_inbox(self, inbox_entry: InboxEntryView) -> Machine {
        Machine {
            effects: self.effects.push(
                EffectView::EnqueueIntoInbox { seq_number: self.inbox_seq_number, inbox_entry },
            ),
            inbox_seq_number: self.inbox_seq_number + 1,
            outbox_seq_number: self.outbox_seq_number,
        }
    }

    /// Queues a message under the next outbox sequence number.
    pub open spec fn handle_outgoing_message(self, message: OutboxMessageView) -> Machine {
        Machine {
            effects: self.effects.push(
                EffectView::EnqueueIntoOutbox { seq_number: self.outbox_seq_number, message },
            ),
            inbox_seq_number: self.inbox_seq_number,
            outbox_seq_number: self.outbox_seq_number + 1,
        }
    }

    pub open spec fn ingress_response(self, response: IngressResponseView) -> Machine {
        self.emit(EffectView::SendIngressResponse(response))
    }

    /// Sends a response to another partition through the outbox, or to an
    /// external caller through the ingress.
    pub open spec fn send_response(self, response: ResponseMessageView) -> Machine {
        match response {
            ResponseMessageView::Outbox(message) => self.handle_outgoing_message(message),
            ResponseMessageView::Ingress(response) => self.ingress_response(response),
        }
    }

    /// Tells whoever waits for the invocation that it failed.
    pub open spec fn try_send_failure_response(
        self,
        fid: FullInvocationIdView,
        response_sink: Option<ServiceInvocationResponseSinkView>,
        error: InvocationErrorView,
    ) -> Machine {
        match response_sink {
            Some(sink) => self.send_response(
                response_message(fid, sink, ResponseResultView::from_error(error)),
            ),
            None => self,
        }
    }

    pub open spec fn notify_invocation_result(
        self,
        fid: FullInvocationIdView,
        service_method: Seq<char>,
        span_context: ServiceInvocationSpanContext,
        creation_time: Option<MillisSinceEpoch>,
        result: InvocationOutcomeView,
    ) -> Machine {
        self.emit(
            EffectView::TraceInvocationResult {
                full_invocation_id: fid,
                service_method,
                span_context,
                creation_time,
                result,
            },
        )
    }

    pub open spec fn end_invocation_lifecycle(
        self,
        fid: FullInvocationIdView,
        journal_length: EntryIndex,
    ) -> Machine {
        self.emit(EffectView::DropJournalAndPopInbox { full_invocation_id: fid, journal_length })
    }

    /// Ends an invocation that succeeded.
    pub open spec fn end_invocation(
        self,
        fid: FullInvocationIdView,
        metadata: InvocationMetadataView,
    ) -> Machine {
        self.notify_invocation_result(
            fid,
            metadata.method,
            metadata.journal_metadata.span_context,
            Some(metadata.timestamps.creation_time),
            Ok(()),
        ).end_invocation_lifecycle(fid, metadata.journal_metadata.length)
    }

    /// Ends an invocation that failed.
    pub open spec fn fail_invocation(
        self,
        fid: FullInvocationIdView,
        metadata: InvocationMetadataView,
        error: InvocationErrorView,
    ) -> Machine {
        self.try_send_failure_response(fid, metadata.response_sink, error).notify_invocation_result(
            fid,
            metadata.method,
            metadata.journal_metadata.span_context,
            Some(metadata.timestamps.creation_time),
            Err((error.code, error.message)),
        ).end_invocation_lifecycle(fid, metadata.journal_metadata.length)
    }

    /// A completion for a running invocation is stored and handed on to the
    /// invoker.
    pub open spec fn handle_completion_for_invoked(
        self,
        fid: FullInvocationIdView,
        completion: CompletionView,
    ) -> Machine {
        self.emit(
            EffectView::StoreCompletion { invocation_id: fid.invocation_id(), completion },
        ).emit(EffectView::ForwardCompletion { full_invocation_id: fid, completion })
    }

    /// A completion for a suspended invocation is stored.
    pub open spec fn handle_completion_for_suspended(
        self,
        fid: FullInvocationIdView,
        completion: CompletionView,
    ) -> Machine {
        self.emit(EffectView::StoreCompletion { invocation_id: fid.invocation_id(), completion })
    }

    /// Completes one journal entry of an invocation that is being cancelled.
    /// `waiting_for` is `None` for a running invocation, and for a suspended
    /// one the entries it waits for.
    pub open spec fn cancel_journal_entry_with(
        self,
        fid: FullInvocationIdView,
        waiting_for: Option<Set<EntryIndex>>,
        journal_index: EntryIndex,
        canceled_result: CompletionResultView,
    ) -> Machine {
        let completion = CompletionView { entry_index: journal_index, result: canceled_result };
        match waiting_for {
            None => self.handle_completion_for_invoked(fid, completion),
            Some(_) => self.handle_completion_for_suspended(fid, completion),
        }
    }

    /// What one action of a built-in service that answers at once adds.
    pub open spec fn service_effect(self, effect: ServiceEffectView) -> Machine {
        match effect {
            ServiceEffectView::OutboxMessage(message) => self.handle_outgoing_message(message),
            ServiceEffectView::IngressResponse(response) => self.ingress_response(response),
        }
    }

    /// What the actions of a built-in service add, from the `from`-th on.
    pub open spec fn service_effects(self, effects: Seq<ServiceEffectView>, from: int) -> Machine
        decreases effects.len() - from,
    {
        if 0 <= from < effects.len() {
            self.service_effect(effects[from]).service_effects(effects, from + 1)
        } else {
            self
        }
    }

    /// What one action of a built-in service adds for its invocation.
    pub open spec fn on_built_in_invoker_effect(
        self,
        fid: FullInvocationIdView,
        metadata: InvocationMetadataView,
        effect: BuiltinServiceEffectView,
    ) -> Machine {
        match effect {
            BuiltinServiceEffectView::SetState { key, value } => self.emit(
                EffectView::SetState {
                    service_id: fid.service_id,
                    invocation_id: fid.invocation_id(),
                    span_context: metadata.journal_metadata.span_context,
                    key: vstd::utf8::encode_utf8(key),
                    value,
                },
            ),
            BuiltinServiceEffectView::ClearState(key) => self.emit(
                EffectView::ClearState {
                    service_id: fid.service_id,
                    invocation_id: fid.invocation_id(),
                    span_context: metadata.journal_metadata.span_context,
                    key: vstd::utf8::encode_utf8(key),
                },
            ),
            BuiltinServiceEffectView::OutboxMessage(message) => self.handle_outgoing_message(
                message,
            ),
            BuiltinServiceEffectView::End(None) => self.end_invocation(fid, metadata),
            BuiltinServiceEffectView::End(Some(error)) => self.fail_invocation(
                fid,
                metadata,
                error,
            ),
            BuiltinServiceEffectView::IngressResponse(response) => self.ingress_response(response),
        }
    }

    /// What the actions of a built-in service add, from the `from`-th on.
    pub open spec fn built_in_invoker_effects(
        self,
        fid: FullInvocationIdView,
        metadata: InvocationMetadataView,
        effects: Seq<BuiltinServiceEffectView>,
        from: int,
    ) -> Machine
        decreases effects.len() - from,
    {
        if 0 <= from < effects.len() {
            self.on_built_in_invoker_effect(fid, metadata, effects[from]).built_in_invoker_effects(
                fid,
                metadata,
                effects,
                from + 1,
            )
        } else {
            self
        }
    }

    /// Kills the children of an invocation: every call in the journal
    /// entries `from..length` that still runs and whose target is known gets
    /// a kill message. Calls nobody waits for are left alone.
    pub open spec fn kill_child_invocations(
        self,
        snapshot: Snapshot,
        invocation_id: InvocationId,
        from: int,
        length: int,
    ) -> Machine
        decreases length - from,
    {
        if 0 <= from < length {
            let next = match snapshot.journal_entry(invocation_id, from as EntryIndex) {
                JournalEntryView::Entry(entry) => if is_live_child(entry.header) {
                    self.handle_outgoing_message(
                        OutboxMessageView::InvocationTermination(
                            InvocationTerminationView::kill(child_target(entry.header)),
                        ),
                    )
                } else {
                    self
                },
                JournalEntryView::Completion(_) => self,
            };
            next.kill_child_invocations(snapshot, invocation_id, from + 1, length)
        } else {
            self
        }
    }

    /// Kills a running or suspended invocation: its children are killed, it
    /// fails with the error of a killed invocation, and the invoker is told
    /// to drop it.
    pub open spec fn kill_invocation(
        self,
        snapshot: Snapshot,
        fid: FullInvocationIdView,
        metadata: InvocationMetadataView,
    ) -> Machine {
        self.kill_child_invocations(
            snapshot,
            fid.invocation_id(),
            0,
            metadata.journal_metadata.length as int,
        ).fail_invocation(fid, metadata, killed_invocation_error()).emit(
            EffectView::AbortInvocation(fid),
        )
    }

    /// Removes an invocation from the inbox: whoever waits for it gets the
    /// failure, the result is traced, and the inbox entry
    /// is deleted.
    pub open spec fn terminate_inboxed_invocation(
        self,
        inbox_entry: SequenceNumberInvocationView,
        error: InvocationErrorView,
    ) -> Step<Applied> {
        let invocation = inbox_entry.invocation;
        Step {
            machine: self.try_send_failure_response(
                invocation.fid,
                invocation.response_sink,
                error,
            ).notify_invocation_result(
                invocation.fid,
                invocation.method_name,
                invocation.span_context,
                None,
                Err((error.code, error.message)),
            ).emit(
                EffectView::DeleteInboxEntry {
                    service_id: invocation.fid.service_id,
                    sequence_number: inbox_entry.inbox_sequence_number,
                },
            ),
            result: Ok((Some(invocation.fid), invocation.span_context.spec_as_parent())),
        }
    }

    /// Ends an invocation that neither runs nor is suspended. If it waits in
    /// the inbox, it is removed from there. If it is unknown, the invoker is
    /// still told to drop it, provided the full identifier is at hand: an
    /// earlier abort may have been overtaken.
    pub open spec fn try_terminate_inboxed_invocation(
        self,
        snapshot: Snapshot,
        flavor: TerminationFlavor,
        maybe_fid: MaybeFullInvocationIdView,
    ) -> Step<Applied> {
        self.terminate_inboxed_with_entry(flavor, maybe_fid, snapshot.inboxed_invocation(maybe_fid))
    }

    /// Ends an invocation that neither runs nor is suspended, given what
    /// the inbox holds of it.
    pub open spec fn terminate_inboxed_with_entry(
        self,
        flavor: TerminationFlavor,
        maybe_fid: MaybeFullInvocationIdView,
        inbox_entry: Option<SequenceNumberInvocationView>,
    ) -> Step<Applied> {
        let error = match flavor {
            TerminationFlavor::Kill => killed_invocation_error(),
            TerminationFlavor::Cancel => canceled_invocation_error(),
        };
        match inbox_entry {
            Some(inbox_entry) => self.terminate_inboxed_invocation(inbox_entry, error),
            None => match maybe_fid {
                MaybeFullInvocationIdView::Full(fid) => Step {
                    machine: self.emit(EffectView::AbortInvocation(fid)),
                    result: Ok((Some(fid), SpanRelation::Unrelated)),
                },
                MaybeFullInvocationIdView::Partial(_) => Step {
                    machine: self,
                    result: Ok((None, SpanRelation::Unrelated)),
                },
            },
        }
    }

    pub open spec fn try_kill_invocation(
        self,
        snapshot: Snapshot,
        maybe_fid: MaybeFullInvocationIdView,
    ) -> Step<Applied> {
        self.kill_with_status(snapshot, maybe_fid, snapshot.status_of(maybe_fid.invocation_id()))
    }

    /// Kills an invocation of the given status.
    pub open spec fn kill_with_status(
        self,
        snapshot: Snapshot,
        maybe_fid: MaybeFullInvocationIdView,
        status: InvocationStatusView,
    ) -> Step<Applied> {
        let invocation_id = maybe_fid.invocation_id();
        match status {
            InvocationStatusView::Invoked(metadata) => {
                let fid = FullInvocationIdView::combine(metadata.service_id, invocation_id);
                Step {
                    machine: self.kill_invocation(snapshot, fid, metadata),
                    result: Ok(
                        (Some(fid), metadata.journal_metadata.span_context.spec_as_parent()),
                    ),
                }
            },
            InvocationStatusView::Suspended { metadata, .. } => {
                let fid = FullInvocationIdView::combine(metadata.service_id, invocation_id);
                Step {
                    machine: self.kill_invocation(snapshot, fid, metadata),
                    result: Ok(
                        (Some(fid), metadata.journal_metadata.span_context.spec_as_parent()),
                    ),
                }
            },
            _ => self.try_terminate_inboxed_invocation(
                snapshot,
                TerminationFlavor::Kill,
                maybe_fid,
            ),
        }
    }

    /// Cancels what one journal entry waits for. The result says whether a
    /// suspended invocation waits for this very entry.
    pub open spec fn cancel_journal_leaf<C: RawEntryCodec>(
        self,
        fid: FullInvocationIdView,
        waiting_for: Option<Set<EntryIndex>>,
        journal_index: EntryIndex,
        journal_entry: JournalEntryView,
    ) -> Step<bool> {
        let canceled = CompletionResultView::from_error(canceled_invocation_error());
        let awaited = waiting_for matches Some(entries) && entries.contains(journal_index);
        match journal_entry {
            JournalEntryView::Completion(_) => Step { machine: self, result: Ok(false) },
            JournalEntryView::Entry(entry) => match entry.header {
                EnrichedEntryHeaderView::Invoke { is_completed, enrichment_result } => {
                    if is_live_child(entry.header) {
                        Step {
                            machine: self.handle_outgoing_message(
                                OutboxMessageView::InvocationTermination(
                                    InvocationTerminationView::cancel(child_target(entry.header)),
                                ),
                            ),
                            result: Ok(false),
                        }
                    } else {
                        Step { machine: self, result: Ok(false) }
                    }
                },
                EnrichedEntryHeaderView::Awakeable { is_completed } => {
                    if !is_completed {
                        Step {
                            machine: self.cancel_journal_entry_with(
                                fid,
                                waiting_for,
                                journal_index,
                                canceled,
                            ),
                            result: Ok(awaited),
                        }
                    } else {
                        Step { machine: self, result: Ok(false) }
                    }
                },
                EnrichedEntryHeaderView::GetState { is_completed } => {
                    if !is_completed {
                        Step {
                            machine: self.cancel_journal_entry_with(
                                fid,
                                waiting_for,
                                journal_index,
                                canceled,
                            ),
                            result: Ok(awaited),
                        }
                    } else {
                        Step { machine: self, result: Ok(false) }
                    }
                },
                EnrichedEntryHeaderView::Sleep { is_completed } => {
                    if !is_completed {
                        let stored = self.cancel_journal_entry_with(
                            fid,
                            waiting_for,
                            journal_index,
                            canceled,
                        );
                        match C::decoded(EntryType::Sleep, entry.entry) {
                            Ok(EntryView::Sleep { wake_up_time }) => Step {
                                machine: stored.emit(
                                    EffectView::DeleteTimer(
                                        TimerKey {
                                            invocation_uuid: fid.invocation_uuid,
                                            journal_index,
                                            timestamp: wake_up_time,
                                        },
                                    ),
                                ),
                                result: Ok(awaited),
                            },
                            Ok(_) => Step {
                                machine: stored,
                                result: Err(unexpected_entry(EntryType::Sleep)),
                            },
                            Err(e) => Step { machine: stored, result: Err(e) },
                        }
                    } else {
                        Step { machine: self, result: Ok(false) }
                    }
                },
                _ => Step { machine: self, result: Ok(false) },
            },
        }
    }

    /// Walks the journal entries `from..length` of an invocation that is
    /// being cancelled and cancels what each of them waits for. The result
    /// says whether the invocation is to be resumed: `resume`, or a
    /// suspended invocation waits for one of the entries that were
    /// completed.
    pub open spec fn cancel_journal_leaves<C: RawEntryCodec>(
        self,
        snapshot: Snapshot,
        fid: FullInvocationIdView,
        waiting_for: Option<Set<EntryIndex>>,
        from: int,
        length: int,
        resume: bool,
    ) -> Step<bool>
        decreases length - from,
    {
        if 0 <= from < length {
            let leaf = self.cancel_journal_leaf::<C>(
                fid,
                waiting_for,
                from as EntryIndex,
                snapshot.journal_entry(fid.invocation_id(), from as EntryIndex),
            );
            match leaf.result {
                Ok(awaited) => leaf.machine.cancel_journal_leaves::<C>(
                    snapshot,
                    fid,
                    waiting_for,
                    from + 1,
                    length,
                    resume || awaited,
                ),
                Err(e) => Step { machine: leaf.machine, result: Err(e) },
            }
        } else {
            Step { machine: self, result: Ok(resume) }
        }
    }

    pub open spec fn try_cancel_invocation<C: RawEntryCodec>(
        self,
        snapshot: Snapshot,
        maybe_fid: MaybeFullInvocationIdView,
    ) -> Step<Applied> {
        self.cancel_with_status::<C>(
            snapshot,
            maybe_fid,
            snapshot.status_of(maybe_fid.invocation_id()),
        )
    }

    /// Cancels an invocation of the given status.
    pub open spec fn cancel_with_status<C: RawEntryCodec>(
        self,
        snapshot: Snapshot,
        maybe_fid: MaybeFullInvocationIdView,
        status: InvocationStatusView,
    ) -> Step<Applied> {
        let invocation_id = maybe_fid.invocation_id();
        match status {
            InvocationStatusView::Invoked(metadata) => {
                let fid = FullInvocationIdView::combine(metadata.service_id, invocation_id);
                let walk = self.cancel_journal_leaves::<C>(
                    snapshot,
                    fid,
                    None,
                    0,
                    metadata.journal_metadata.length as int,
                    false,
                );
                match walk.result {
                    Ok(_) => Step {
                        machine: walk.machine,
                        result: Ok(
                            (Some(fid), metadata.journal_metadata.span_context.spec_as_parent()),
                        ),
                    },
                    Err(e) => Step { machine: walk.machine, result: Err(e) },
                }
            },
            InvocationStatusView::Suspended { metadata, waiting_for_completed_entries } => {
                let fid = FullInvocationIdView::combine(metadata.service_id, invocation_id);
                let walk = self.cancel_journal_leaves::<C>(
                    snapshot,
                    fid,
                    Some(waiting_for_completed_entries),
                    0,
                    metadata.journal_metadata.length as int,
                    false,
                );
                match walk.result {
                    Ok(resume) => Step {
                        machine: if resume {
                            walk.machine.emit(
                                EffectView::ResumeService {
                                    invocation_id: fid.invocation_id(),
                                    metadata,
                                },
                            )
                        } else {
                            walk.machine
                        },
                        result: Ok(
                            (Some(fid), metadata.journal_metadata.span_context.spec_as_parent()),
                        ),
                    },
                    Err(e) => Step { machine: walk.machine, result: Err(e) },
                }
            },
            _ => self.try_terminate_inboxed_invocation(
                snapshot,
                TerminationFlavor::Cancel,
                maybe_fid,
            ),
        }
    }

    pub open spec fn try_terminate_invocation<C: RawEntryCodec>(
        self,
        snapshot: Snapshot,
        termination: InvocationTerminationView,
    ) -> Step<Applied> {
        match termination.flavor {
            TerminationFlavor::Kill => self.try_kill_invocation(
                snapshot,
                termination.maybe_fid,
            ),
            TerminationFlavor::Cancel => self.try_cancel_invocation::<C>(
                snapshot,
                termination.maybe_fid,
            ),
        }
    }

    /// A completion arrives for a journal entry. It is stored if the
    /// invocation runs or is suspended; a running invocation gets it at
    /// once, a suspended one is resumed if it waits for this entry. For any
    /// other invocation the completion is dropped.
    pub open spec fn handle_completion(
        self,
        snapshot: Snapshot,
        maybe_fid: MaybeFullInvocationIdView,
        completion: CompletionView,
    ) -> Step<Applied> {
        self.completion_with_status(
            maybe_fid,
            completion,
            snapshot.status_of(maybe_fid.invocation_id()),
        )
    }

    /// A completion for an invocation of the given status.
    pub open spec fn completion_with_status(
        self,
        maybe_fid: MaybeFullInvocationIdView,
        completion: CompletionView,
        status: InvocationStatusView,
    ) -> Step<Applied> {
        let invocation_id = maybe_fid.invocation_id();
        match status {
            InvocationStatusView::Invoked(metadata) => {
                let fid = FullInvocationIdView::combine(metadata.service_id, invocation_id);
                Step {
                    machine: self.handle_completion_for_invoked(fid, completion),
                    result: Ok(
                        (Some(fid), metadata.journal_metadata.span_context.spec_as_parent()),
                    ),
                }
            },
            InvocationStatusView::Suspended { metadata, waiting_for_completed_entries } => {
                let fid = FullInvocationIdView::combine(metadata.service_id, invocation_id);
                let stored = self.handle_completion_for_suspended(fid, completion);
                Step {
                    machine: if waiting_for_completed_entries.contains(completion.entry_index) {
                        stored.emit(
                            EffectView::ResumeService {
                                invocation_id: fid.invocation_id(),
                                metadata,
                            },
                        )
                    } else {
                        stored
                    },
                    result: Ok(
                        (Some(fid), metadata.journal_metadata.span_context.spec_as_parent()),
                    ),
                }
            },
            _ => Step { machine: self, result: Ok((None, SpanRelation::Unrelated)) },
        }
    }

    /// An invocation is to start. With an execution time it is handed to the
    /// timer service. Else a built-in service answers at once; any other
    /// invocation starts if its virtual object is free and waits in the
    /// inbox if not.
    pub open spec fn handle_invoke<B: ServiceInvoker>(
        self,
        snapshot: Snapshot,
        invocation: ServiceInvocationView,
    ) -> Step<Applied> {
        match invocation.execution_time {
            Some(execution_time) => Step {
                machine: self.emit(
                    EffectView::RegisterTimer {
                        timer_value: TimerValueView::new_invoke(
                            invocation.fid,
                            execution_time,
                            0,
                            invocation,
                        ),
                        span_context: invocation.span_context,
                    },
                ),
                result: Ok((None, SpanRelation::Unrelated)),
            },
            None => Step {
                machine: self.invoke_with_status::<B>(
                    snapshot.virtual_object_status(invocation.fid.service_id),
                    invocation,
                ),
                result: Ok((Some(invocation.fid), invocation.span_context.spec_as_parent())),
            },
        }
    }

    /// An invocation without an execution time, on an object of the given
    /// status: a built-in service answers at once; any other invocation
    /// starts if the object is unlocked and waits in the inbox if not.
    pub open spec fn invoke_with_status<B: ServiceInvoker>(
        self,
        status: VirtualObjectStatusView,
        invocation: ServiceInvocationView,
    ) -> Machine {
        if B::supported(invocation.fid.service_id.service_name) {
            self.service_effects(
                B::effects_of(
                    invocation.fid,
                    invocation.method_name,
                    invocation.span_context,
                    invocation.response_sink,
                    invocation.argument,
                ),
                0,
            )
        } else if status is Unlocked {
            self.emit(EffectView::InvokeService(invocation))
        } else {
            self.enqueue_into_inbox(InboxEntryView::Invocation(invocation))
        }
    }

    /// The state of a virtual object is to change from outside. The change
    /// is made at once if the object is free, and waits in the inbox if an
    /// invocation holds the lock.
    pub open spec fn handle_external_state_mutation(
        self,
        snapshot: Snapshot,
        mutation: ExternalStateMutationView,
    ) -> Step<Applied> {
        Step {
            machine: self.state_mutation_with_status(
                snapshot.virtual_object_status(mutation.component_id),
                mutation,
            ),
            result: Ok((None, SpanRelation::Unrelated)),
        }
    }

    /// A change of the state of an object of the given status: it is made
    /// if the object is unlocked, and queued if it is locked.
    pub open spec fn state_mutation_with_status(
        self,
        status: VirtualObjectStatusView,
        mutation: ExternalStateMutationView,
    ) -> Machine {
        match status {
            VirtualObjectStatusView::Locked(_) => self.enqueue_into_inbox(
                InboxEntryView::StateMutation(mutation),
            ),
            VirtualObjectStatusView::Unlocked => self.emit(EffectView::ApplyStateMutation(mutation)),
        }
    }

    /// The actions of a built-in service are carried out if its invocation
    /// runs, and dropped if not.
    pub open spec fn try_built_in_invoker_effect(
        self,
        snapshot: Snapshot,
        effects: BuiltinServiceEffectsView,
    ) -> Step<Applied> {
        self.built_in_with_status(
            effects,
            snapshot.status_of(effects.full_invocation_id.invocation_id()),
        )
    }

    /// The actions of a built-in service for an invocation of the given
    /// status.
    pub open spec fn built_in_with_status(
        self,
        effects: BuiltinServiceEffectsView,
        status: InvocationStatusView,
    ) -> Step<Applied> {
        let fid = effects.full_invocation_id;
        match status {
            InvocationStatusView::Invoked(metadata) => Step {
                machine: self.built_in_invoker_effects(fid, metadata, effects.effects, 0),
                result: Ok((Some(fid), metadata.journal_metadata.span_context.spec_as_parent())),
            },
            _ => Step { machine: self, result: Ok((Some(fid), SpanRelation::Unrelated)) },
        }
    }

    /// A timer fired: it is deleted, and the sleep entry it belongs to is
    /// completed, or the delayed invocation it holds starts.
    pub open spec fn on_timer<B: ServiceInvoker>(
        self,
        snapshot: Snapshot,
        timer: TimerValueView,
    ) -> Step<Applied> {
        let deleted = self.emit(EffectView::DeleteTimer(timer.key));
        match timer.value {
            TimerView::CompleteSleepEntry(service_id) => deleted.handle_completion(
                snapshot,
                MaybeFullInvocationIdView::Full(
                    FullInvocationIdView { service_id, invocation_uuid: timer.key.invocation_uuid },
                ),
                CompletionView {
                    entry_index: timer.key.journal_index,
                    result: CompletionResultView::Empty,
                },
            ),
            TimerView::Invoke(invocation) => deleted.handle_invoke::<B>(
                snapshot,
                ServiceInvocationView { execution_time: None, ..invocation },
            ),
        }
    }

    /// Writes a completion into a raw entry and hands it on to the invoker.
    /// The result is the completed entry.
    pub open spec fn complete_and_forward<C: RawEntryCodec>(
        self,
        fid: FullInvocationIdView,
        entry_index: EntryIndex,
        journal_entry: EnrichedRawEntryView,
        result: CompletionResultView,
    ) -> Step<EnrichedRawEntryView> {
        match C::completed(journal_entry, result) {
            Ok(completed) => Step {
                machine: self.emit(
                    EffectView::ForwardCompletion {
                        full_invocation_id: fid,
                        completion: CompletionView { entry_index, result },
                    },
                ),
                result: Ok(completed),
            },
            Err(e) => Step { machine: self, result: Err(e) },
        }
    }

    /// An output entry: whoever waits for the invocation gets its result.
    pub open spec fn output_entry<C: RawEntryCodec>(
        self,
        fid: FullInvocationIdView,
        journal_entry: EnrichedRawEntryView,
        metadata: InvocationMetadataView,
    ) -> Step<EnrichedRawEntryView> {
        match metadata.response_sink {
            Some(sink) => match C::decoded(EntryType::Output, journal_entry.entry) {
                Ok(EntryView::Output { result }) => Step {
                    machine: self.send_response(response_message(fid, sink, result)),
                    result: Ok(journal_entry),
                },
                Ok(_) => Step { machine: self, result: Err(unexpected_entry(EntryType::Output)) },
                Err(e) => Step { machine: self, result: Err(e) },
            },
            None => Step { machine: self, result: Ok(journal_entry) },
        }
    }

    /// An entry that reads a state value: unless it has its completion, the
    /// value is read, written into the entry and handed on.
    pub open spec fn get_state_entry<C: RawEntryCodec>(
        self,
        snapshot: Snapshot,
        fid: FullInvocationIdView,
        entry_index: EntryIndex,
        journal_entry: EnrichedRawEntryView,
        is_completed: bool,
    ) -> Step<EnrichedRawEntryView> {
        if is_completed {
            Step { machine: self, result: Ok(journal_entry) }
        } else {
            match C::decoded(EntryType::GetState, journal_entry.entry) {
                Ok(EntryView::GetState { key }) => self.complete_and_forward::<C>(
                    fid,
                    entry_index,
                    journal_entry,
                    CompletionResultView::from_state(snapshot.state_value(fid.service_id, key)),
                ),
                Ok(_) => Step { machine: self, result: Err(unexpected_entry(EntryType::GetState)) },
                Err(e) => Step { machine: self, result: Err(e) },
            }
        }
    }

    /// An entry that sets a state value.
    pub open spec fn set_state_entry<C: RawEntryCodec>(
        self,
        fid: FullInvocationIdView,
        journal_entry: EnrichedRawEntryView,
        span_context: ServiceInvocationSpanContext,
    ) -> Step<EnrichedRawEntryView> {
        match C::decoded(EntryType::SetState, journal_entry.entry) {
            Ok(EntryView::SetState { key, value }) => Step {
                machine: self.emit(
                    EffectView::SetState {
                        service_id: fid.service_id,
                        invocation_id: fid.invocation_id(),
                        span_context,
                        key,
                        value,
                    },
                ),
                result: Ok(journal_entry),
            },
            Ok(_) => Step { machine: self, result: Err(unexpected_entry(EntryType::SetState)) },
            Err(e) => Step { machine: self, result: Err(e) },
        }
    }

    /// An entry that clears a state value.
    pub open spec fn clear_state_entry<C: RawEntryCodec>(
        self,
        fid: FullInvocationIdView,
        journal_entry: EnrichedRawEntryView,
        span_context: ServiceInvocationSpanContext,
    ) -> Step<EnrichedRawEntryView> {
        match C::decoded(EntryType::ClearState, journal_entry.entry) {
            Ok(EntryView::ClearState { key }) => Step {
                machine: self.emit(
                    EffectView::ClearState {
                        service_id: fid.service_id,
                        invocation_id: fid.invocation_id(),
                        span_context,
                        key,
                    },
                ),
                result: Ok(journal_entry),
            },
            Ok(_) => Step { machine: self, result: Err(unexpected_entry(EntryType::ClearState)) },
            Err(e) => Step { machine: self, result: Err(e) },
        }
    }

    /// An entry that asks for all state keys: unless it has its completion,
    /// the keys are read, written into the entry and handed on.
    pub open spec fn get_state_keys_entry<C: RawEntryCodec>(
        self,
        snapshot: Snapshot,
        fid: FullInvocationIdView,
        entry_index: EntryIndex,
        journal_entry: EnrichedRawEntryView,
        is_completed: bool,
    ) -> Step<EnrichedRawEntryView> {
        if is_completed {
            Step { machine: self, result: Ok(journal_entry) }
        } else {
            self.complete_and_forward::<C>(
                fid,
                entry_index,
                journal_entry,
                C::state_keys_completion(snapshot.keys_of(fid.service_id)),
            )
        }
    }

    /// A sleep entry: a timer is registered for the time it wakes up.
    pub open spec fn sleep_entry<C: RawEntryCodec>(
        self,
        fid: FullInvocationIdView,
        entry_index: EntryIndex,
        journal_entry: EnrichedRawEntryView,
        span_context: ServiceInvocationSpanContext,
    ) -> Step<EnrichedRawEntryView> {
        match C::decoded(EntryType::Sleep, journal_entry.entry) {
            Ok(EntryView::Sleep { wake_up_time }) => Step {
                machine: self.emit(
                    EffectView::RegisterTimer {
                        timer_value: TimerValueView::new_sleep(fid, wake_up_time, entry_index),
                        span_context,
                    },
                ),
                result: Ok(journal_entry),
            },
            Ok(_) => Step { machine: self, result: Err(unexpected_entry(EntryType::Sleep)) },
            Err(e) => Step { machine: self, result: Err(e) },
        }
    }

    /// A call entry: if its target is known, the call goes to the outbox,
    /// with this entry as the place where the response is to go.
    pub open spec fn invoke_entry<C: RawEntryCodec>(
        self,
        fid: FullInvocationIdView,
        entry_index: EntryIndex,
        journal_entry: EnrichedRawEntryView,
        enrichment_result: Option<InvokeEnrichmentResultView>,
    ) -> Step<EnrichedRawEntryView> {
        match enrichment_result {
            Some(target) => match C::decoded(EntryType::Invoke, journal_entry.entry) {
                Ok(EntryView::Invoke { request }) => Step {
                    machine: self.handle_outgoing_message(
                        OutboxMessageView::ServiceInvocation(
                            create_service_invocation(
                                target.invocation_uuid,
                                target.partition_key,
                                target.service_key,
                                request,
                                SourceView::Service(fid),
                                Some((fid, entry_index)),
                                target.span_context,
                                None,
                            ),
                        ),
                    ),
                    result: Ok(journal_entry),
                },
                Ok(_) => Step { machine: self, result: Err(unexpected_entry(EntryType::Invoke)) },
                Err(e) => Step { machine: self, result: Err(e) },
            },
            None => Step { machine: self, result: Ok(journal_entry) },
        }
    }

    /// A call nobody waits for: it is traced and goes to the outbox, to run
    /// at once if its time is 0 and at its time if not.
    pub open spec fn background_invoke_entry<C: RawEntryCodec>(
        self,
        fid: FullInvocationIdView,
        journal_entry: EnrichedRawEntryView,
        enrichment_result: InvokeEnrichmentResultView,
        span_context: ServiceInvocationSpanContext,
    ) -> Step<EnrichedRawEntryView> {
        match C::decoded(EntryType::BackgroundInvoke, journal_entry.entry) {
            Ok(EntryView::BackgroundInvoke { request, invoke_time }) => {
                let invocation = create_service_invocation(
                    enrichment_result.invocation_uuid,
                    enrichment_result.partition_key,
                    enrichment_result.service_key,
                    request,
                    SourceView::Service(fid),
                    None,
                    enrichment_result.span_context,
                    if invoke_time == 0 {
                        None
                    } else {
                        Some(invoke_time)
                    },
                );
                Step {
                    machine: self.emit(
                        EffectView::TraceBackgroundInvoke {
                            full_invocation_id: invocation.fid,
                            service_method: request.method_name,
                            span_context,
                            pointer_span_id: enrichment_result.span_context.spec_pointer_span_id(),
                        },
                    ).handle_outgoing_message(OutboxMessageView::ServiceInvocation(invocation)),
                    result: Ok(journal_entry),
                }
            },
            Ok(_) => Step {
                machine: self,
                result: Err(unexpected_entry(EntryType::BackgroundInvoke)),
            },
            Err(e) => Step { machine: self, result: Err(e) },
        }
    }

    /// An awakeable entry: if its completion arrived before it, the
    /// completion is written into the entry and handed on.
    pub open spec fn awakeable_entry<C: RawEntryCodec>(
        self,
        snapshot: Snapshot,
        fid: FullInvocationIdView,
        entry_index: EntryIndex,
        journal_entry: EnrichedRawEntryView,
    ) -> Step<EnrichedRawEntryView> {
        match snapshot.completion_result_of(fid.invocation_id(), entry_index) {
            Some(result) => self.complete_and_forward::<C>(fid, entry_index, journal_entry, result),
            None => Step { machine: self, result: Ok(journal_entry) },
        }
    }

    /// An entry that completes an awakeable: the completion goes to the
    /// outbox, addressed to the journal entry that waits for it.
    pub open spec fn complete_awakeable_entry<C: RawEntryCodec>(
        self,
        journal_entry: EnrichedRawEntryView,
        enrichment_result: AwakeableEnrichmentResult,
    ) -> Step<EnrichedRawEntryView> {
        match C::decoded(EntryType::CompleteAwakeable, journal_entry.entry) {
            Ok(EntryView::CompleteAwakeable { result, .. }) => Step {
                machine: self.handle_outgoing_message(
                    OutboxMessageView::AwakeableCompletion {
                        target_invocation_id: enrichment_result.invocation_id,
                        target_entry_index: enrichment_result.entry_index,
                        result,
                    },
                ),
                result: Ok(journal_entry),
            },
            Ok(_) => Step {
                machine: self,
                result: Err(unexpected_entry(EntryType::CompleteAwakeable)),
            },
            Err(e) => Step { machine: self, result: Err(e) },
        }
    }

    /// What a new journal entry sets off, by its kind. The result is the
    /// entry as it is to be stored: with its completion, where one was at
    /// hand.
    pub open spec fn journal_entry_effects<C: RawEntryCodec>(
        self,
        snapshot: Snapshot,
        fid: FullInvocationIdView,
        entry_index: EntryIndex,
        journal_entry: EnrichedRawEntryView,
        metadata: InvocationMetadataView,
    ) -> Step<EnrichedRawEntryView> {
        let span_context = metadata.journal_metadata.span_context;
        match journal_entry.header {
            EnrichedEntryHeaderView::Input => Step { machine: self, result: Ok(journal_entry) },
            EnrichedEntryHeaderView::Output => self.output_entry::<C>(fid, journal_entry, metadata),
            EnrichedEntryHeaderView::GetState { is_completed } => self.get_state_entry::<C>(
                snapshot,
                fid,
                entry_index,
                journal_entry,
                is_completed,
            ),
            EnrichedEntryHeaderView::SetState => self.set_state_entry::<C>(
                fid,
                journal_entry,
                span_context,
            ),
            EnrichedEntryHeaderView::ClearState => self.clear_state_entry::<C>(
                fid,
                journal_entry,
                span_context,
            ),
            EnrichedEntryHeaderView::ClearAllState => Step {
                machine: self.emit(
                    EffectView::ClearAllState {
                        service_id: fid.service_id,
                        invocation_id: fid.invocation_id(),
                        span_context,
                    },
                ),
                result: Ok(journal_entry),
            },
            EnrichedEntryHeaderView::GetStateKeys { is_completed } =>
                self.get_state_keys_entry::<C>(
                    snapshot,
                    fid,
                    entry_index,
                    journal_entry,
                    is_completed,
                ),
            EnrichedEntryHeaderView::Sleep { .. } => self.sleep_entry::<C>(
                fid,
                entry_index,
                journal_entry,
                span_context,
            ),
            EnrichedEntryHeaderView::Invoke { enrichment_result, .. } => self.invoke_entry::<C>(
                fid,
                entry_index,
                journal_entry,
                enrichment_result,
            ),
            EnrichedEntryHeaderView::BackgroundInvoke { enrichment_result } =>
                self.background_invoke_entry::<C>(
                    fid,
                    journal_entry,
                    enrichment_result,
                    span_context,
                ),
            EnrichedEntryHeaderView::Awakeable { .. } => self.awakeable_entry::<C>(
                snapshot,
                fid,
                entry_index,
                journal_entry,
            ),
            EnrichedEntryHeaderView::CompleteAwakeable { enrichment_result } =>
                self.complete_awakeable_entry::<C>(journal_entry, enrichment_result),
            EnrichedEntryHeaderView::Custom { .. } => Step {
                machine: self,
                result: Ok(journal_entry),
            },
        }
    }

    /// A new journal entry: after what its kind sets off, it is stored at
    /// the end of the journal and the invoker is told so.
    pub open spec fn handle_journal_entry<C: RawEntryCodec>(
        self,
        snapshot: Snapshot,
        fid: FullInvocationIdView,
        entry_index: EntryIndex,
        journal_entry: EnrichedRawEntryView,
        metadata: InvocationMetadataView,
    ) -> Step<()> {
        let by_kind = self.journal_entry_effects::<C>(
            snapshot,
            fid,
            entry_index,
            journal_entry,
            metadata,
        );
        match by_kind.result {
            Ok(stored_entry) => Step {
                machine: by_kind.machine.emit(
                    EffectView::AppendJournalEntry {
                        invocation_id: fid.invocation_id(),
                        previous_invocation_status: InvocationStatusView::Invoked(metadata),
                        entry_index,
                        journal_entry: stored_entry,
                    },
                ).emit(
                    EffectView::SendStoredEntryAckToInvoker { full_invocation_id: fid, entry_index },
                ),
                result: Ok(()),
            },
            Err(e) => Step { machine: by_kind.machine, result: Err(e) },
        }
    }

    /// A report of the invoker about a running invocation.
    pub open spec fn on_invoker_effect<C: RawEntryCodec>(
        self,
        snapshot: Snapshot,
        effect: InvokerEffectView,
        metadata: InvocationMetadataView,
    ) -> Step<Applied> {
        let fid = effect.full_invocation_id;
        let applied: Applied = (
            Some(fid),
            metadata.journal_metadata.span_context.spec_as_parent(),
        );
        match effect.kind {
            InvokerEffectKindView::SelectedDeployment(deployment_id) => Step {
                machine: self.emit(
                    EffectView::StoreChosenDeployment {
                        invocation_id: fid.invocation_id(),
                        deployment_id,
                        metadata,
                    },
                ),
                result: Ok(applied),
            },
            InvokerEffectKindView::JournalEntry { entry_index, entry } => {
                let stored = self.handle_journal_entry::<C>(
                    snapshot,
                    fid,
                    entry_index,
                    entry,
                    metadata,
                );
                match stored.result {
                    Ok(_) => Step { machine: stored.machine, result: Ok(applied) },
                    Err(e) => Step { machine: stored.machine, result: Err(e) },
                }
            },
            InvokerEffectKindView::Suspended { waiting_for_completed_entries } => Step {
                machine: self.suspension_with_answer(
                    fid.invocation_id(),
                    metadata,
                    waiting_for_completed_entries,
                    snapshot.any_resumable(fid.invocation_id(), waiting_for_completed_entries),
                ),
                result: Ok(applied),
            },
            InvokerEffectKindView::End => Step {
                machine: self.end_invocation(fid, metadata),
                result: Ok(applied),
            },
            InvokerEffectKindView::Failed(error) => Step {
                machine: self.fail_invocation(fid, metadata, error),
                result: Ok(applied),
            },
        }
    }

    /// A report of the invoker. If the invocation does not run, the report
    /// is dropped and the invoker is told to drop the invocation.
    pub open spec fn try_invoker_effect<C: RawEntryCodec>(
        self,
        snapshot: Snapshot,
        effect: InvokerEffectView,
    ) -> Step<Applied> {
        self.invoker_effect_with_status::<C>(
            snapshot,
            effect,
            snapshot.status_of(effect.full_invocation_id.invocation_id()),
        )
    }

    /// The suspension of a running invocation, given whether one of the
    /// entries it waits for can be resumed: it is resumed if so, and
    /// recorded as suspended if not.
    pub open spec fn suspension_with_answer(
        self,
        invocation_id: InvocationId,
        metadata: InvocationMetadataView,
        waiting_for_completed_entries: Set<EntryIndex>,
        any_resumable: bool,
    ) -> Machine {
        if any_resumable {
            self.emit(EffectView::ResumeService { invocation_id, metadata })
        } else {
            self.emit(
                EffectView::SuspendService { invocation_id, metadata, waiting_for_completed_entries },
            )
        }
    }

    /// A report of the invoker about an invocation of the given status.
    pub open spec fn invoker_effect_with_status<C: RawEntryCodec>(
        self,
        snapshot: Snapshot,
        effect: InvokerEffectView,
        status: InvocationStatusView,
    ) -> Step<Applied> {
        match status {
            InvocationStatusView::Invoked(metadata) => self.on_invoker_effect::<C>(
                snapshot,
                effect,
                metadata,
            ),
            _ => Step {
                machine: self.emit(EffectView::AbortInvocation(effect.full_invocation_id)),
                result: Ok((Some(effect.full_invocation_id), SpanRelation::Unrelated)),
            },
        }
    }

    /// What applying `command` to the state `snapshot`
    /// produces.
    pub open spec fn on_apply<C: RawEntryCodec, B: ServiceInvoker>(
        self,
        snapshot: Snapshot,
        command: CommandView,
    ) -> Step<Applied> {
        match command {
            CommandView::Invoke(invocation) => self.handle_invoke::<B>(snapshot, invocation),
            CommandView::InvocationResponse(response) => self.handle_completion(
                snapshot,
                response.id,
                CompletionView {
                    entry_index: response.entry_index,
                    result: CompletionResultView::from_response(response.result),
                },
            ),
            CommandView::InvokerEffect(effect) => self.try_invoker_effect::<C>(snapshot, effect),
            CommandView::TruncateOutbox(index) => Step {
                machine: self.emit(EffectView::TruncateOutbox(index)),
                result: Ok((None, SpanRelation::Unrelated)),
            },
            CommandView::Timer(timer) => self.on_timer::<B>(snapshot, timer),
            CommandView::TerminateInvocation(termination) => self.try_terminate_invocation::<C>(
                snapshot,
                termination,
            ),
            CommandView::BuiltInInvokerEffect(effects) => self.try_built_in_invoker_effect(
                snapshot,
                effects,
            ),
            CommandView::PatchState(mutation) => self.handle_external_state_mutation(
                snapshot,
                mutation,
            ),
            CommandView::AnnounceLeader(_) => Step {
                machine: self,
                result: Ok((None, SpanRelation::Unrelated)),
            },
        }
    }
}

/// Whether every entry of the journal of `invocation_id` is one that a
/// cancellation can deal with.
pub open spec fn journal_cancellable(
    snapshot: Snapshot,
    invocation_id: InvocationId,
    length: EntryIndex,
) -> bool {
    forall|i: EntryIndex|
        i < length ==> (#[trigger] snapshot.journal_entry(invocation_id, i)
            matches JournalEntryView::Entry(entry) ==> cancellable_or_completed(entry.header))
}

/// Whether the invocation `maybe_fid`, if it runs or is suspended, has a
/// journal that a cancellation can deal with.
pub open spec fn cancellable(snapshot: Snapshot, maybe_fid: MaybeFullInvocationIdView) -> bool {
    cancellable_with_status(snapshot, maybe_fid, snapshot.status_of(maybe_fid.invocation_id()))
}

/// Whether the invocation `maybe_fid`, if its status says that it runs or
/// is suspended, has a journal that a cancellation can deal with.
pub open spec fn cancellable_with_status(
    snapshot: Snapshot,
    maybe_fid: MaybeFullInvocationIdView,
    status: InvocationStatusView,
) -> bool {
    let invocation_id = maybe_fid.invocation_id();
    match status {
        InvocationStatusView::Invoked(metadata) => journal_cancellable(
            snapshot,
            FullInvocationIdView::combine(metadata.service_id, invocation_id).invocation_id(),
            metadata.journal_metadata.length,
        ),
        InvocationStatusView::Suspended { metadata, .. } => journal_cancellable(
            snapshot,
            FullInvocationIdView::combine(metadata.service_id, invocation_id).invocation_id(),
            metadata.journal_metadata.length,
        ),
        _ => true,
    }
}

/// Whether the state is asked when an entry with this header is taken: for
/// the value or the keys that an entry without completion reads, and for
/// the completion that may have come before an awakeable.
pub open spec fn entry_reads_state(header: EnrichedEntryHeaderView) -> bool {
    match header {
        EnrichedEntryHeaderView::GetState { is_completed } => !is_completed,
        EnrichedEntryHeaderView::GetStateKeys { is_completed } => !is_completed,
        EnrichedEntryHeaderView::Awakeable { .. } => true,
        _ => false,
    }
}

/// Whether a journal entry from the invoker is the next one of the journal.
pub open spec fn entry_in_sequence(entry_index: EntryIndex, metadata: InvocationMetadataView) -> bool {
    entry_index == metadata.journal_metadata.length
}

/// Whether a key lies in the range of a partition.
pub open spec fn owns_key(range: RangeInclusiveView<PartitionKey>, key: PartitionKey) -> bool {
    &&& range.start <= key
    &&& if range.exhausted {
        key < range.end
    } else {
        key <= range.end
    }
}

/// The commands that a partition with the key range `range` and the state
/// `snapshot` may be given. Any other command shows that the log or
/// the storage is corrupt.
pub open spec fn admissible(
    command: CommandView,
    snapshot: Snapshot,
    range: RangeInclusiveView<PartitionKey>,
) -> bool {
    match command {
        CommandView::Invoke(invocation) => owns_key(
            range,
            invocation.fid.service_id.partition_key,
        ),
        CommandView::Timer(timer) => timer.value matches TimerView::Invoke(invocation)
            ==> owns_key(range, invocation.fid.service_id.partition_key),
        CommandView::InvokerEffect(effect) => match effect.kind {
            InvokerEffectKindView::JournalEntry { entry_index, entry } => snapshot.status_of(
                effect.full_invocation_id.invocation_id(),
            ) matches InvocationStatusView::Invoked(metadata) ==> entry_in_sequence(entry_index, metadata),
            InvokerEffectKindView::Suspended { waiting_for_completed_entries } =>
                waiting_for_completed_entries != Set::<EntryIndex>::empty(),
            _ => true,
        },
        CommandView::TerminateInvocation(termination) => termination.flavor
            == TerminationFlavor::Cancel ==> cancellable(snapshot, termination.maybe_fid),
        _ => true,
    }
}

/// Whether applying a command reads the state.
pub open spec fn reads_state(command: CommandView) -> bool {
    match command {
        CommandView::Invoke(invocation) => invocation.execution_time is None,
        CommandView::TruncateOutbox(_) => false,
        CommandView::AnnounceLeader(_) => false,
        _ => true,
    }
}

} // verus!
