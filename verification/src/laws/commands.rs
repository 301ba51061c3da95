//! What single commands do.
use crate::command::{AnnounceLeader, CommandView, InvokerEffectKindView, InvokerEffectView};
use crate::deterministic::ServiceInvoker;
use crate::effects::{Effects, EffectView};
use crate::errors::{canceled_invocation_error, Error};
use crate::identifiers::{
    EntryIndex, FullInvocationId, FullInvocationIdView, MaybeFullInvocationIdView, MessageIndex,
    PartitionKey,
};
use crate::interpreter::{applied_view, CommandInterpreter};
use crate::invocation::{ResponseResultView, ServiceInvocationView, SpanRelation};
use crate::journal::{CompletionView, EnrichedRawEntryView, RawEntryCodec};
use crate::model::{admissible, Applied, Machine};
use crate::state::Snapshot;
use crate::storage::{
    ExternalStateMutationView, InboxEntryView, InvocationMetadataView, InvocationStatusView,
    OutboxMessageView, response_message, TimerKey, TimerValueView, TimerView,
};
use vstd::prelude::*;
use vstd::std_specs::range::RangeInclusiveView;

verus! {

/// A suspension is turned into a resumption if and only if the state says
/// of one of the entries that the invocation waits for that it can be
/// resumed.
///
/// When the invoker reports that a running invocation is suspended, the
/// command has exactly one effect: the invocation is resumed if one of the
/// awaited entries is resumable, and is recorded as suspended if none is.
pub proof fn law_suspension_resumes_iff_resumable<C: RawEntryCodec>(
    machine: Machine,
    snapshot: Snapshot,
    effect: InvokerEffectView,
)
    requires
        effect.kind is Suspended,
        snapshot.status_of(effect.full_invocation_id.invocation_id()) is Invoked,
    ensures
        ({
            let invocation_id = effect.full_invocation_id.invocation_id();
            let metadata = snapshot.status_of(invocation_id)->Invoked_0;
            let waiting_for = effect.kind->Suspended_waiting_for_completed_entries;
            let step = machine.try_invoker_effect::<C>(snapshot, effect);
            &&& step.result is Ok
            &&& snapshot.any_resumable(invocation_id, waiting_for) ==> step.machine
                == machine.emit(EffectView::ResumeService { invocation_id, metadata })
            &&& !snapshot.any_resumable(invocation_id, waiting_for) ==> step.machine
                == machine.emit(
                EffectView::SuspendService {
                    invocation_id,
                    metadata,
                    waiting_for_completed_entries: waiting_for,
                },
            )
        }),
{
}

/// A report of the invoker about an invocation that does not run has
/// exactly one effect: the invoker is told to drop the invocation.
pub proof fn law_report_for_idle_invocation_aborts<C: RawEntryCodec>(
    machine: Machine,
    snapshot: Snapshot,
    effect: InvokerEffectView,
)
    requires
        !(snapshot.status_of(effect.full_invocation_id.invocation_id()) is Invoked),
    ensures
        machine.try_invoker_effect::<C>(snapshot, effect).machine == machine.emit(
            EffectView::AbortInvocation(effect.full_invocation_id),
        ),
        machine.try_invoker_effect::<C>(snapshot, effect).result is Ok,
{
}

/// A change of the state from outside is queued if and only if the object
/// is locked.
///
/// Against a locked object the command has exactly one effect, which
/// queues the change into the inbox under the next inbox sequence number;
/// the change is not made. Against an unlocked object it has exactly one
/// effect, which makes the change; nothing is queued.
pub proof fn law_patch_state_waits_for_the_lock(
    machine: Machine,
    snapshot: Snapshot,
    mutation: ExternalStateMutationView,
)
    ensures
        snapshot.virtual_object_status(mutation.component_id) is Locked
            ==> machine.handle_external_state_mutation(snapshot, mutation).machine == (Machine {
            effects: machine.effects.push(
                EffectView::EnqueueIntoInbox {
                    seq_number: machine.inbox_seq_number,
                    inbox_entry: InboxEntryView::StateMutation(mutation),
                },
            ),
            inbox_seq_number: machine.inbox_seq_number + 1,
            outbox_seq_number: machine.outbox_seq_number,
        }),
        snapshot.virtual_object_status(mutation.component_id) is Unlocked
            ==> machine.handle_external_state_mutation(snapshot, mutation).machine == machine.emit(
            EffectView::ApplyStateMutation(mutation),
        ),
{
}

/// Applying a command twice gives the same effects.
///
/// Two interpreters that stand alike, with equal buffers, equal sequence
/// numbers and equal key ranges, and apply the same command to states that
/// answer alike, append the same effects and end with the same sequence
/// numbers and the same result, unless a read of the state fails for one of
/// them. Applied command by command, this makes the replay of a log give
/// the effects of the first run.
pub proof fn law_applying_is_deterministic<Codec: RawEntryCodec, BuiltIns: ServiceInvoker>(
    snapshot: Snapshot,
    command: CommandView,
    first_before: CommandInterpreter<Codec, BuiltIns>,
    first_before_effects: Effects,
    first: CommandInterpreter<Codec, BuiltIns>,
    first_effects: Effects,
    first_result: Result<(Option<FullInvocationId>, SpanRelation), Error>,
    second_before: CommandInterpreter<Codec, BuiltIns>,
    second_before_effects: Effects,
    second: CommandInterpreter<Codec, BuiltIns>,
    second_effects: Effects,
    second_result: Result<(Option<FullInvocationId>, SpanRelation), Error>,
)
    requires
        first_before.machine(&first_before_effects) == second_before.machine(
            &second_before_effects,
        ),
        first_before.key_range() == second_before.key_range(),
        first.follows_applied(
            &first_effects,
            &first_before,
            first_before.machine(&first_before_effects),
            first_result,
            first_before.machine(&first_before_effects).on_apply::<Codec, BuiltIns>(
                snapshot,
                command,
            ),
        ),
        second.follows_applied(
            &second_effects,
            &second_before,
            second_before.machine(&second_before_effects),
            second_result,
            second_before.machine(&second_before_effects).on_apply::<Codec, BuiltIns>(
                snapshot,
                command,
            ),
        ),
        !(first_result matches Err(Error::Storage(_))),
        !(second_result matches Err(Error::Storage(_))),
    ensures
        first_effects@ == second_effects@,
        first.next_inbox_seq_number() == second.next_inbox_seq_number(),
        first.next_outbox_seq_number() == second.next_outbox_seq_number(),
        first.key_range() == second.key_range(),
        match (first_result, second_result) {
            (Ok(a), Ok(b)) => applied_view(a) == applied_view(b),
            (Err(a), Err(b)) => a == b,
            _ => false,
        },
{
}

/// What is left of an outbox after it was truncated up to and including
/// `index`.
pub open spec fn truncated(outbox: Map<int, OutboxMessageView>, index: int) -> Map<
    int,
    OutboxMessageView,
> {
    outbox.restrict(Set::new(|seq_number: int| seq_number > index))
}

/// The outbox after an effect was carried out on it.
pub open spec fn outbox_after(outbox: Map<int, OutboxMessageView>, effect: EffectView) -> Map<
    int,
    OutboxMessageView,
> {
    match effect {
        EffectView::EnqueueIntoOutbox { seq_number, message } => outbox.insert(
            seq_number,
            message,
        ),
        EffectView::TruncateOutbox(index) => truncated(outbox, index as int),
        _ => outbox,
    }
}

/// The outbox after the effects from position `from` on were carried out
/// on it, in order.
pub open spec fn outbox_after_all(
    outbox: Map<int, OutboxMessageView>,
    effects: Seq<EffectView>,
    from: int,
) -> Map<int, OutboxMessageView>
    decreases effects.len() - from,
{
    if 0 <= from < effects.len() {
        outbox_after_all(outbox_after(outbox, effects[from]), effects, from + 1)
    } else {
        outbox
    }
}

/// Truncating the outbox twice up to the same index is the same as
/// truncating it once.
///
/// The command has exactly one effect and hands out no sequence number, so
/// applying it again has the same effect again; and an outbox on which
/// that effect was carried out twice is the outbox on which it was carried
/// out once.
pub proof fn law_truncating_the_outbox_is_idempotent<C: RawEntryCodec, B: ServiceInvoker>(
    machine: Machine,
    snapshot: Snapshot,
    index: MessageIndex,
    outbox: Map<int, OutboxMessageView>,
)
    ensures
        ({
            let command = CommandView::TruncateOutbox(index);
            let once = machine.on_apply::<C, B>(snapshot, command);
            let twice = once.machine.on_apply::<C, B>(snapshot, command);
            &&& once.result is Ok
            &&& twice.result is Ok
            &&& once.machine == machine.emit(EffectView::TruncateOutbox(index))
            &&& twice.machine == once.machine.emit(EffectView::TruncateOutbox(index))
            &&& outbox_after_all(outbox, twice.machine.effects, machine.effects.len() as int)
                == outbox_after_all(outbox, once.machine.effects, machine.effects.len() as int)
        }),
{
    let effect = EffectView::TruncateOutbox(index);
    let once = machine.emit(effect);
    let twice = once.emit(effect);
    let start = machine.effects.len() as int;
    assert(truncated(truncated(outbox, index as int), index as int) == truncated(
        outbox,
        index as int,
    ));
    assert(outbox_after_all(outbox, once.effects, start) == truncated(outbox, index as int)) by {
        assert(outbox_after_all(truncated(outbox, index as int), once.effects, start + 1)
            == truncated(outbox, index as int));
    }
    assert(outbox_after_all(outbox, twice.effects, start) == truncated(outbox, index as int)) by {
        assert(outbox_after_all(truncated(outbox, index as int), twice.effects, start + 2)
            == truncated(outbox, index as int));
        assert(outbox_after_all(truncated(outbox, index as int), twice.effects, start + 1)
            == truncated(outbox, index as int));
    }
}

/// The announcement of a leader has no effect.
pub proof fn law_announcing_a_leader_has_no_effect<C: RawEntryCodec, B: ServiceInvoker>(
    machine: Machine,
    snapshot: Snapshot,
    leader: AnnounceLeader,
)
    ensures
        machine.on_apply::<C, B>(snapshot, CommandView::AnnounceLeader(leader)).machine
            == machine,
        machine.on_apply::<C, B>(snapshot, CommandView::AnnounceLeader(leader)).result is Ok,
{
}

/// An invocation with an execution time is handed to the timer service and
/// nothing else happens.
///
/// The command has exactly one effect, which registers a timer that holds
/// the invocation and fires at its execution time. No lock is taken,
/// nothing is queued, and no sequence number is handed out.
pub proof fn law_delayed_invocation_registers_a_timer<C: RawEntryCodec, B: ServiceInvoker>(
    machine: Machine,
    snapshot: Snapshot,
    invocation: ServiceInvocationView,
)
    requires
        invocation.execution_time is Some,
    ensures
        machine.on_apply::<C, B>(snapshot, CommandView::Invoke(invocation)).machine
            == machine.emit(
            EffectView::RegisterTimer {
                timer_value: TimerValueView {
                    key: TimerKey {
                        invocation_uuid: invocation.fid.invocation_uuid,
                        journal_index: 0,
                        timestamp: invocation.execution_time->0,
                    },
                    value: TimerView::Invoke(invocation),
                },
                span_context: invocation.span_context,
            },
        ),
        machine.on_apply::<C, B>(snapshot, CommandView::Invoke(invocation)).result is Ok,
{
}

/// A suspension that waits for nothing is no command that a partition may
/// be given.
pub proof fn law_suspension_waits_for_something(
    snapshot: Snapshot,
    range: RangeInclusiveView<PartitionKey>,
    fid: FullInvocationIdView,
)
    ensures
        !admissible(
            CommandView::InvokerEffect(
                InvokerEffectView {
                    full_invocation_id: fid,
                    kind: InvokerEffectKindView::Suspended {
                        waiting_for_completed_entries: Set::empty(),
                    },
                },
            ),
            snapshot,
            range,
        ),
{
}

/// Whether an effect tells the invoker to drop an invocation.
pub open spec fn is_abort(effect: EffectView) -> bool {
    effect is AbortInvocation
}

/// Cancelling an invocation that waits in the inbox removes it from there
/// and tells nobody to abort it.
///
/// If the invocation neither runs nor is suspended and waits in the inbox,
/// the command sends the failure of a cancelled invocation to whoever
/// waits for it, if anybody does, traces that failure, and deletes the
/// inbox entry; the last effect is the deletion, and none of the effects
/// is an abort. If the invocation is not in the inbox either, the command
/// has one effect, an abort, when it names the invocation in full, and no
/// effect when it names it by its handle alone.
pub proof fn law_cancelling_an_inboxed_invocation<C: RawEntryCodec>(
    machine: Machine,
    snapshot: Snapshot,
    maybe_fid: MaybeFullInvocationIdView,
)
    requires
        !snapshot.status_of(maybe_fid.invocation_id()).is_active(),
    ensures
        ({
            let step = machine.try_cancel_invocation::<C>(snapshot, maybe_fid);
            let error = canceled_invocation_error();
            &&& step.result is Ok
            &&& step.machine.extends(machine)
            &&& match snapshot.inboxed_invocation(maybe_fid) {
                Some(inbox_entry) => {
                    let invocation = inbox_entry.invocation;
                    let answered = machine.try_send_failure_response(
                        invocation.fid,
                        invocation.response_sink,
                        error,
                    );
                    &&& step.machine == answered.emit(
                        EffectView::TraceInvocationResult {
                            full_invocation_id: invocation.fid,
                            service_method: invocation.method_name,
                            span_context: invocation.span_context,
                            creation_time: None,
                            result: Err((error.code, error.message)),
                        },
                    ).emit(
                        EffectView::DeleteInboxEntry {
                            service_id: invocation.fid.service_id,
                            sequence_number: inbox_entry.inbox_sequence_number,
                        },
                    )
                    &&& invocation.response_sink is Some ==> answered == machine.send_response(
                        response_message(
                            invocation.fid,
                            invocation.response_sink->0,
                            ResponseResultView::Failure(
                                error.code,
                                error.message,
                            ),
                        ),
                    )
                    &&& forall|i: int|
                        machine.effects.len() <= i < step.machine.effects.len() ==> !is_abort(
                            #[trigger] step.machine.effects[i],
                        )
                },
                None => match maybe_fid {
                    MaybeFullInvocationIdView::Full(fid) => step.machine == machine.emit(
                        EffectView::AbortInvocation(fid),
                    ),
                    MaybeFullInvocationIdView::Partial(_) => step.machine == machine,
                },
            }
        }),
{
    let step = machine.try_cancel_invocation::<C>(snapshot, maybe_fid);
    assert(machine.effects.subrange(0, machine.effects.len() as int) == machine.effects);
    assert(step.machine.effects.subrange(0, machine.effects.len() as int) == machine.effects);
}

/// An awakeable entry that arrives after its completion takes the
/// completion with it.
///
/// If storage holds a completion for the index of a new awakeable entry,
/// the completion is written into the entry and handed on to the invoker
/// at once; then the completed entry is stored and acknowledged.
pub proof fn law_awakeable_takes_early_completion<C: RawEntryCodec>(
    machine: Machine,
    snapshot: Snapshot,
    fid: FullInvocationIdView,
    entry_index: EntryIndex,
    journal_entry: EnrichedRawEntryView,
    metadata: InvocationMetadataView,
)
    requires
        journal_entry.header is Awakeable,
        snapshot.completion_result_of(fid.invocation_id(), entry_index) is Some,
        C::completed(
            journal_entry,
            snapshot.completion_result_of(fid.invocation_id(), entry_index)->0,
        ) is Ok,
    ensures
        ({
            let result = snapshot.completion_result_of(fid.invocation_id(), entry_index)->0;
            let step = machine.handle_journal_entry::<C>(
                snapshot,
                fid,
                entry_index,
                journal_entry,
                metadata,
            );
            &&& step.result is Ok
            &&& step.machine == machine.emit(
                EffectView::ForwardCompletion {
                    full_invocation_id: fid,
                    completion: CompletionView { entry_index, result },
                },
            ).emit(
                EffectView::AppendJournalEntry {
                    invocation_id: fid.invocation_id(),
                    previous_invocation_status: InvocationStatusView::Invoked(metadata),
                    entry_index,
                    journal_entry: C::completed(journal_entry, result)->Ok_0,
                },
            ).emit(
                EffectView::SendStoredEntryAckToInvoker { full_invocation_id: fid, entry_index },
            )
        }),
{
}

} // verus!
