//! A command moves one lock at most.
use crate::command::{BuiltinServiceEffectView, CommandView, InvokerEffectKindView};
use crate::deterministic::{ServiceEffectView, ServiceInvoker};
use crate::effects::EffectView;
use crate::errors::{canceled_invocation_error, InvocationErrorView, killed_invocation_error};
use crate::identifiers::{EntryIndex, FullInvocationIdView, InvocationId, MaybeFullInvocationIdView};
use crate::invocation::{
    InvocationTerminationView, ServiceInvocationView, SourceView, TerminationFlavor,
};
use crate::journal::{
    CompletionResultView, CompletionView, EnrichedEntryHeaderView, EnrichedRawEntryView, EntryType,
    EntryView, JournalEntryView, RawEntryCodec,
};
use crate::model::{child_target, create_service_invocation, is_live_child, Machine, Step};
use crate::state::Snapshot;
use crate::storage::{
    InboxEntryView, InvocationMetadataView, InvocationStatusView, OutboxMessageView, TimerView,
};
use vstd::prelude::*;

verus! {

/// Whether an effect moves a lock or rewrites the status of an
/// invocation.
pub open spec fn moves(effect: EffectView) -> bool {
    ||| effect is InvokeService
    ||| effect is DropJournalAndPopInbox
    ||| effect is ResumeService
    ||| effect is SuspendService
    ||| effect is StoreChosenDeployment
    ||| effect is AppendJournalEntry
}

/// The number of effects from position `from` on that move a lock or
/// rewrite a status.
pub open spec fn moved(effects: Seq<EffectView>, from: int) -> nat
    decreases effects.len(),
{
    if effects.len() <= from || effects.len() == 0 {
        0
    } else {
        moved(effects.drop_last(), from) + if moves(effects.last()) {
            1nat
        } else {
            0nat
        }
    }
}

impl Machine {
    /// The number of effects since `base` that move a lock or rewrite a
    /// status.
    pub open spec fn moved_since(self, base: Machine) -> nat {
        moved(self.effects, base.effects.len() as int)
    }

    /// Whether `self` has at least the effects of `base`.
    pub open spec fn not_shorter(self, base: Machine) -> bool {
        base.effects.len() <= self.effects.len()
    }
}

/// One more effect counts if it moves a lock or rewrites a status.
pub broadcast proof fn lemma_emit_counts(machine: Machine, base: Machine, effect: EffectView)
    requires
        machine.not_shorter(base),
    ensures
        #[trigger] machine.emit(effect).moved_since(base) == machine.moved_since(base) + if moves(
            effect,
        ) {
            1nat
        } else {
            0nat
        },
{
    assert(machine.emit(effect).effects.drop_last() == machine.effects);
}

/// Queuing into the inbox does not count.
pub broadcast proof fn lemma_inbox_counts(
    machine: Machine,
    base: Machine,
    entry: InboxEntryView,
)
    requires
        machine.not_shorter(base),
    ensures
        #[trigger] machine.enqueue_into_inbox(entry).moved_since(base) == machine.moved_since(base),
{
    assert(machine.enqueue_into_inbox(entry).effects.drop_last() == machine.effects);
}

/// Queuing into the outbox does not count.
pub broadcast proof fn lemma_outbox_counts(
    machine: Machine,
    base: Machine,
    message: OutboxMessageView,
)
    requires
        machine.not_shorter(base),
    ensures
        #[trigger] machine.handle_outgoing_message(message).moved_since(base)
            == machine.moved_since(base),
{
    assert(machine.handle_outgoing_message(message).effects.drop_last() == machine.effects);
}

/// How one effect counts.
pub broadcast group group_counts {
    lemma_emit_counts,
    lemma_inbox_counts,
    lemma_outbox_counts,
}

/// Ending an invocation moves one lock.
pub proof fn lemma_ending_counts(
    machine: Machine,
    base: Machine,
    fid: FullInvocationIdView,
    metadata: InvocationMetadataView,
    error: InvocationErrorView,
)
    requires
        machine.not_shorter(base),
    ensures
        machine.fail_invocation(fid, metadata, error).moved_since(base) == machine.moved_since(
            base,
        ) + 1,
        machine.end_invocation(fid, metadata).moved_since(base) == machine.moved_since(base) + 1,
        machine.fail_invocation(fid, metadata, error).not_shorter(base),
        machine.end_invocation(fid, metadata).not_shorter(base),
{
    broadcast use group_counts;

    let sent = machine.try_send_failure_response(fid, metadata.response_sink, error);
    assert(sent.moved_since(base) == machine.moved_since(base) && sent.not_shorter(base));
    let traced = sent.notify_invocation_result(
        fid,
        metadata.method,
        metadata.journal_metadata.span_context,
        Some(metadata.timestamps.creation_time),
        Err((error.code, error.message)),
    );
    assert(traced.moved_since(base) == machine.moved_since(base) && traced.not_shorter(base));
    let noted = machine.notify_invocation_result(
        fid,
        metadata.method,
        metadata.journal_metadata.span_context,
        Some(metadata.timestamps.creation_time),
        Ok(()),
    );
    assert(noted.moved_since(base) == machine.moved_since(base) && noted.not_shorter(base));
}

/// What a built-in service that answers at once sends moves nothing.
pub proof fn lemma_service_effects_count(
    machine: Machine,
    base: Machine,
    effects: Seq<ServiceEffectView>,
    from: int,
)
    requires
        machine.not_shorter(base),
    ensures
        machine.service_effects(effects, from).moved_since(base) == machine.moved_since(base),
        machine.service_effects(effects, from).not_shorter(base),
    decreases effects.len() - from,
{
    broadcast use group_counts;

    if 0 <= from < effects.len() {
        lemma_service_effects_count(machine.service_effect(effects[from]), base, effects, from + 1);
    }
}

/// The number of actions from position `from` on that end the invocation.
pub open spec fn ends(effects: Seq<BuiltinServiceEffectView>, from: int) -> nat
    decreases effects.len() - from,
{
    if 0 <= from < effects.len() {
        ends(effects, from + 1) + if effects[from] is End {
            1nat
        } else {
            0nat
        }
    } else {
        0
    }
}

/// The actions of a built-in service move one lock for each action that
/// ends the invocation.
pub proof fn lemma_built_in_invoker_effects_count(
    machine: Machine,
    base: Machine,
    fid: FullInvocationIdView,
    metadata: InvocationMetadataView,
    effects: Seq<BuiltinServiceEffectView>,
    from: int,
)
    requires
        machine.not_shorter(base),
    ensures
        machine.built_in_invoker_effects(fid, metadata, effects, from).moved_since(base)
            == machine.moved_since(base) + ends(effects, from),
        machine.built_in_invoker_effects(fid, metadata, effects, from).not_shorter(base),
    decreases effects.len() - from,
{
    broadcast use group_counts;

    if 0 <= from < effects.len() {
        let next = machine.on_built_in_invoker_effect(fid, metadata, effects[from]);
        if let BuiltinServiceEffectView::End(end) = effects[from] {
            lemma_ending_counts(
                machine,
                base,
                fid,
                metadata,
                match end {
                    Some(error) => error,
                    None => arbitrary(),
                },
            );
        }
        assert(next.not_shorter(base));
        assert(next.moved_since(base) == machine.moved_since(base) + if effects[from] is End {
            1nat
        } else {
            0nat
        });
        lemma_built_in_invoker_effects_count(next, base, fid, metadata, effects, from + 1);
    }
}

/// Killing the children of an invocation moves nothing.
pub proof fn lemma_kill_child_invocations_count(
    machine: Machine,
    base: Machine,
    snapshot: Snapshot,
    invocation_id: InvocationId,
    from: int,
    length: int,
)
    requires
        machine.not_shorter(base),
    ensures
        machine.kill_child_invocations(snapshot, invocation_id, from, length).moved_since(base)
            == machine.moved_since(base),
        machine.kill_child_invocations(snapshot, invocation_id, from, length).not_shorter(base),
    decreases length - from,
{
    broadcast use group_counts;

    if 0 <= from < length {
        let next = match snapshot.journal_entry(invocation_id, from as EntryIndex) {
            JournalEntryView::Entry(entry) => if is_live_child(entry.header) {
                machine.handle_outgoing_message(
                    OutboxMessageView::InvocationTermination(
                        InvocationTerminationView::kill(
                            child_target(entry.header),
                        ),
                    ),
                )
            } else {
                machine
            },
            JournalEntryView::Completion(_) => machine,
        };
        lemma_kill_child_invocations_count(next, base, snapshot, invocation_id, from + 1, length);
    }
}

/// Cancelling what a journal waits for moves nothing.
pub proof fn lemma_cancel_journal_leaves_count<C: RawEntryCodec>(
    machine: Machine,
    base: Machine,
    snapshot: Snapshot,
    fid: FullInvocationIdView,
    waiting_for: Option<Set<EntryIndex>>,
    from: int,
    length: int,
    resume: bool,
)
    requires
        machine.not_shorter(base),
    ensures
        machine.cancel_journal_leaves::<C>(
            snapshot,
            fid,
            waiting_for,
            from,
            length,
            resume,
        ).machine.moved_since(base) == machine.moved_since(base),
        machine.cancel_journal_leaves::<C>(
            snapshot,
            fid,
            waiting_for,
            from,
            length,
            resume,
        ).machine.not_shorter(base),
    decreases length - from,
{
    broadcast use group_counts;

    if 0 <= from < length {
        let leaf = machine.cancel_journal_leaf::<C>(
            fid,
            waiting_for,
            from as EntryIndex,
            snapshot.journal_entry(fid.invocation_id(), from as EntryIndex),
        );
        let canceled = CompletionResultView::from_error(
            canceled_invocation_error(),
        );
        let completed = machine.cancel_journal_entry_with(
            fid,
            waiting_for,
            from as EntryIndex,
            canceled,
        );
        assert(completed.moved_since(base) == machine.moved_since(base) && completed.not_shorter(
            base,
        ));
        assert(leaf.machine.moved_since(base) == machine.moved_since(base));
        assert(leaf.machine.not_shorter(base));
        if let Ok(awaited) = leaf.result {
            lemma_cancel_journal_leaves_count::<C>(
                leaf.machine,
                base,
                snapshot,
                fid,
                waiting_for,
                from + 1,
                length,
                resume || awaited,
            );
        }
    }
}

/// Starting an invocation moves one lock at most.
pub proof fn lemma_handle_invoke_counts<B: ServiceInvoker>(
    machine: Machine,
    base: Machine,
    snapshot: Snapshot,
    invocation: ServiceInvocationView,
)
    requires
        machine.not_shorter(base),
    ensures
        machine.handle_invoke::<B>(snapshot, invocation).machine.moved_since(base)
            <= machine.moved_since(base) + 1,
{
    broadcast use group_counts;

    lemma_service_effects_count(
        machine,
        base,
        B::effects_of(
            invocation.fid,
            invocation.method_name,
            invocation.span_context,
            invocation.response_sink,
            invocation.argument,
        ),
        0,
    );
}

/// What a new journal entry sets off by its kind moves nothing.
pub proof fn lemma_journal_entry_effects_count<C: RawEntryCodec>(
    machine: Machine,
    snapshot: Snapshot,
    fid: FullInvocationIdView,
    entry_index: EntryIndex,
    journal_entry: EnrichedRawEntryView,
    metadata: InvocationMetadataView,
)
    ensures
        machine.journal_entry_effects::<C>(
            snapshot,
            fid,
            entry_index,
            journal_entry,
            metadata,
        ).machine.moved_since(machine) == 0,
        machine.journal_entry_effects::<C>(
            snapshot,
            fid,
            entry_index,
            journal_entry,
            metadata,
        ).machine.not_shorter(machine),
{
    let span_context = metadata.journal_metadata.span_context;
    let by_kind = match journal_entry.header {
        EnrichedEntryHeaderView::Output => machine.output_entry::<C>(
            fid,
            journal_entry,
            metadata,
        ),
        EnrichedEntryHeaderView::GetState { is_completed } =>
            machine.get_state_entry::<C>(snapshot, fid, entry_index, journal_entry, is_completed),
        EnrichedEntryHeaderView::SetState => machine.set_state_entry::<C>(
            fid,
            journal_entry,
            span_context,
        ),
        EnrichedEntryHeaderView::ClearState => machine.clear_state_entry::<C>(
            fid,
            journal_entry,
            span_context,
        ),
        EnrichedEntryHeaderView::GetStateKeys { is_completed } =>
            machine.get_state_keys_entry::<C>(
                snapshot,
                fid,
                entry_index,
                journal_entry,
                is_completed,
            ),
        EnrichedEntryHeaderView::Sleep { .. } => machine.sleep_entry::<C>(
            fid,
            entry_index,
            journal_entry,
            span_context,
        ),
        EnrichedEntryHeaderView::Invoke { enrichment_result, .. } =>
            machine.invoke_entry::<C>(fid, entry_index, journal_entry, enrichment_result),
        EnrichedEntryHeaderView::BackgroundInvoke { enrichment_result } =>
            machine.background_invoke_entry::<C>(
                fid,
                journal_entry,
                enrichment_result,
                span_context,
            ),
        EnrichedEntryHeaderView::Awakeable { .. } => machine.awakeable_entry::<C>(
            snapshot,
            fid,
            entry_index,
            journal_entry,
        ),
        EnrichedEntryHeaderView::CompleteAwakeable { enrichment_result } =>
            machine.complete_awakeable_entry::<C>(journal_entry, enrichment_result),
        EnrichedEntryHeaderView::ClearAllState => Step {
            machine: machine.emit(
                EffectView::ClearAllState {
                    service_id: fid.service_id,
                    invocation_id: fid.invocation_id(),
                    span_context,
                },
            ),
            result: Ok(journal_entry),
        },
        _ => Step { machine, result: Ok(journal_entry) },
    };
    assert(by_kind == machine.journal_entry_effects::<C>(
        snapshot,
        fid,
        entry_index,
        journal_entry,
        metadata,
    ));
    assert(machine.moved_since(machine) == 0);
    assert(by_kind.machine.moved_since(machine) == 0 && by_kind.machine.not_shorter(machine)) by {
        broadcast use group_counts;

        if let EnrichedEntryHeaderView::BackgroundInvoke { enrichment_result } =
            journal_entry.header {
            if let Ok(
                EntryView::BackgroundInvoke { request, invoke_time },
            ) = C::decoded(EntryType::BackgroundInvoke, journal_entry.entry) {
                let invocation = create_service_invocation(
                    enrichment_result.invocation_uuid,
                    enrichment_result.partition_key,
                    enrichment_result.service_key,
                    request,
                    SourceView::Service(fid),
                    None,
                    enrichment_result.span_context,
                    if invoke_time == 0 {
                        None
                    } else {
                        Some(invoke_time)
                    },
                );
                let traced = machine.emit(
                    EffectView::TraceBackgroundInvoke {
                        full_invocation_id: invocation.fid,
                        service_method: request.method_name,
                        span_context,
                        pointer_span_id: enrichment_result.span_context.spec_pointer_span_id(),
                    },
                );
                assert(traced.moved_since(machine) == 0 && traced.not_shorter(machine));
            }
        }
    }
}

/// Ending an invocation from outside moves one lock at most.
pub proof fn lemma_try_terminate_invocation_counts<C: RawEntryCodec>(
    machine: Machine,
    snapshot: Snapshot,
    termination: InvocationTerminationView,
)
    ensures
        machine.try_terminate_invocation::<C>(snapshot, termination).machine.moved_since(
            machine,
        ) <= 1,
{
    broadcast use group_counts;

    let invocation_id = termination.maybe_fid.invocation_id();
    let status = snapshot.status_of(invocation_id);
    let inboxed = machine.try_terminate_inboxed_invocation(
        snapshot,
        termination.flavor,
        termination.maybe_fid,
    );
    assert(inboxed.machine.moved_since(machine) == 0) by {
        if let Some(inbox_entry) = snapshot.inboxed_invocation(termination.maybe_fid) {
            let invocation = inbox_entry.invocation;
            let error = match termination.flavor {
                TerminationFlavor::Kill => killed_invocation_error(),
                TerminationFlavor::Cancel => canceled_invocation_error(),
            };
            let sent = machine.try_send_failure_response(
                invocation.fid,
                invocation.response_sink,
                error,
            );
            assert(sent.moved_since(machine) == 0 && sent.not_shorter(machine));
            let traced = sent.notify_invocation_result(
                invocation.fid,
                invocation.method_name,
                invocation.span_context,
                None,
                Err((error.code, error.message)),
            );
            assert(traced.moved_since(machine) == 0 && traced.not_shorter(machine));
        }
    }
    let (metadata, waiting_for) = match status {
        InvocationStatusView::Invoked(metadata) => (metadata, None),
        InvocationStatusView::Suspended { metadata, waiting_for_completed_entries } => (
            metadata,
            Some(waiting_for_completed_entries),
        ),
        _ => (arbitrary(), None),
    };
    if status.is_active() {
        let fid = FullInvocationIdView::combine(metadata.service_id, invocation_id);
        let length = metadata.journal_metadata.length as int;
        lemma_kill_child_invocations_count(
            machine,
            machine,
            snapshot,
            fid.invocation_id(),
            0,
            length,
        );
        let killed = machine.kill_child_invocations(snapshot, fid.invocation_id(), 0, length);
        lemma_ending_counts(
            killed,
            machine,
            fid,
            metadata,
            killed_invocation_error(),
        );
        lemma_cancel_journal_leaves_count::<C>(
            machine,
            machine,
            snapshot,
            fid,
            waiting_for,
            0,
            length,
            false,
        );
    }
}

/// Whether a command ends an invocation at most once.
pub open spec fn ends_once(command: CommandView) -> bool {
    command matches CommandView::BuiltInInvokerEffect(effects) ==> ends(effects.effects, 0) <= 1
}

/// A command moves a lock or rewrites a status with one of its effects at
/// most, unless it is a list of actions of a built-in service that ends
/// the invocation more than once.
pub proof fn law_commands_move_one_lock<C: RawEntryCodec, B: ServiceInvoker>(
    machine: Machine,
    snapshot: Snapshot,
    command: CommandView,
)
    requires
        ends_once(command),
    ensures
        machine.on_apply::<C, B>(snapshot, command).machine.moved_since(machine) <= 1,
{
    broadcast use group_counts;

    match command {
        CommandView::Invoke(invocation) => {
            lemma_handle_invoke_counts::<B>(machine, machine, snapshot, invocation);
        },
        CommandView::InvokerEffect(effect) => {
            let fid = effect.full_invocation_id;
            if let InvocationStatusView::Invoked(metadata) = snapshot.status_of(
                fid.invocation_id(),
            ) {
                match effect.kind {
                    InvokerEffectKindView::JournalEntry { entry_index, entry } => {
                        lemma_journal_entry_effects_count::<C>(
                            machine,
                            snapshot,
                            fid,
                            entry_index,
                            entry,
                            metadata,
                        );
                        let by_kind = machine.journal_entry_effects::<C>(
                            snapshot,
                            fid,
                            entry_index,
                            entry,
                            metadata,
                        );
                        if let Ok(stored_entry) = by_kind.result {
                            let stored = by_kind.machine.emit(
                                EffectView::AppendJournalEntry {
                                    invocation_id: fid.invocation_id(),
                                    previous_invocation_status: InvocationStatusView::Invoked(
                                        metadata,
                                    ),
                                    entry_index,
                                    journal_entry: stored_entry,
                                },
                            );
                            assert(stored.moved_since(machine) == 1);
                            assert(stored.not_shorter(machine));
                        }
                    },
                    InvokerEffectKindView::Failed(error) => {
                        lemma_ending_counts(machine, machine, fid, metadata, error);
                    },
                    InvokerEffectKindView::End => {
                        lemma_ending_counts(machine, machine, fid, metadata, arbitrary());
                    },
                    _ => {},
                }
            }
        },
        CommandView::Timer(timer) => {
            let deleted = machine.emit(EffectView::DeleteTimer(timer.key));
            assert(deleted.moved_since(machine) == 0 && deleted.not_shorter(machine));
            match timer.value {
                TimerView::Invoke(invocation) => {
                    lemma_handle_invoke_counts::<B>(
                        deleted,
                        machine,
                        snapshot,
                        ServiceInvocationView {
                            execution_time: None,
                            ..invocation
                        },
                    );
                },
                TimerView::CompleteSleepEntry(service_id) => {
                    let maybe_fid = MaybeFullInvocationIdView::Full(
                        FullInvocationIdView {
                            service_id,
                            invocation_uuid: timer.key.invocation_uuid,
                        },
                    );
                    let completion = CompletionView {
                        entry_index: timer.key.journal_index,
                        result: CompletionResultView::Empty,
                    };
                    lemma_handle_completion_counts(
                        deleted,
                        machine,
                        snapshot,
                        maybe_fid,
                        completion,
                    );
                },
            }
        },
        CommandView::InvocationResponse(response) => {
            lemma_handle_completion_counts(
                machine,
                machine,
                snapshot,
                response.id,
                CompletionView {
                    entry_index: response.entry_index,
                    result: CompletionResultView::from_response(response.result),
                },
            );
        },
        CommandView::TerminateInvocation(termination) => {
            lemma_try_terminate_invocation_counts::<C>(machine, snapshot, termination);
        },
        CommandView::BuiltInInvokerEffect(effects) => {
            let fid = effects.full_invocation_id;
            if let InvocationStatusView::Invoked(metadata) = snapshot.status_of(
                fid.invocation_id(),
            ) {
                lemma_built_in_invoker_effects_count(
                    machine,
                    machine,
                    fid,
                    metadata,
                    effects.effects,
                    0,
                );
            }
        },
        _ => {},
    }
}

/// A completion that arrives rewrites one status at most.
pub proof fn lemma_handle_completion_counts(
    machine: Machine,
    base: Machine,
    snapshot: Snapshot,
    maybe_fid: MaybeFullInvocationIdView,
    completion: CompletionView,
)
    requires
        machine.not_shorter(base),
    ensures
        machine.handle_completion(snapshot, maybe_fid, completion).machine.moved_since(base)
            <= machine.moved_since(base) + 1,
{
    broadcast use group_counts;

    let invocation_id = maybe_fid.invocation_id();
    if let InvocationStatusView::Suspended { metadata, .. } = snapshot.status_of(invocation_id) {
        let fid = FullInvocationIdView::combine(metadata.service_id, invocation_id);
        let stored = machine.handle_completion_for_suspended(fid, completion);
        assert(stored.moved_since(base) == machine.moved_since(base) && stored.not_shorter(base));
    }
}

} // verus!
