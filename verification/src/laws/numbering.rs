//! Sequence numbers are handed out without a gap.
use crate::command::{
    BuiltinServiceEffectView, CommandView, InvokerEffectKindView, InvokerEffectView,
};
use crate::deterministic::{ServiceEffectView, ServiceInvoker};
use crate::effects::EffectView;
use crate::errors::{canceled_invocation_error, InvocationErrorView, killed_invocation_error};
use crate::identifiers::{EntryIndex, FullInvocationIdView, InvocationId};
use crate::invocation::{InvocationTerminationView, ServiceInvocationView, TerminationFlavor};
use crate::journal::{JournalEntryView, RawEntryCodec};
use crate::model::{child_target, is_live_child, Machine};
use crate::state::Snapshot;
use crate::storage::{
    InboxEntryView, InvocationMetadataView, InvocationStatusView, OutboxMessageView, TimerView,
};
use vstd::prelude::*;

verus! {

/// Replays the sequence numbers of the effects from position `from` on:
/// starting with `inbox` and `outbox` as the next numbers, every entry that
/// is queued into the inbox or the outbox must carry the next number of its
/// queue, which then goes up by one. The result is the pair of next numbers
/// after the last effect, or `None` if some entry carries another number.
pub open spec fn sequenced(effects: Seq<EffectView>, from: int, inbox: int, outbox: int) -> Option<
    (int, int),
>
    decreases effects.len(),
{
    if effects.len() <= from || effects.len() == 0 {
        Some((inbox, outbox))
    } else {
        match sequenced(effects.drop_last(), from, inbox, outbox) {
            None => None,
            Some((next_inbox, next_outbox)) => match effects.last() {
                EffectView::EnqueueIntoInbox { seq_number, .. } => if seq_number == next_inbox {
                    Some((next_inbox + 1, next_outbox))
                } else {
                    None
                },
                EffectView::EnqueueIntoOutbox { seq_number, .. } => if seq_number == next_outbox {
                    Some((next_inbox, next_outbox + 1))
                } else {
                    None
                },
                _ => Some((next_inbox, next_outbox)),
            },
        }
    }
}

impl Machine {
    /// Whether `self` continues `base` and has numbered what it queued since
    /// without a gap: the inbox entries carry the inbox numbers from that of
    /// `base` on, one after the other, the outbox messages likewise, and the
    /// next numbers of `self` are the first ones not used.
    pub open spec fn numbered_since(self, base: Machine) -> bool {
        &&& self.extends(base)
        &&& sequenced(
            self.effects,
            base.effects.len() as int,
            base.inbox_seq_number,
            base.outbox_seq_number,
        ) == Some((self.inbox_seq_number, self.outbox_seq_number))
    }
}

/// A machine has numbered what it queued since itself without a gap:
/// nothing.
pub proof fn lemma_numbered_since_itself(machine: Machine)
    ensures
        machine.numbered_since(machine),
    decreases machine.effects.len(),
{
    assert(machine.effects.subrange(0, machine.effects.len() as int) == machine.effects);
}

/// An effect that queues nothing keeps the numbering.
pub broadcast proof fn lemma_emit_keeps_numbering(
    machine: Machine,
    base: Machine,
    effect: EffectView,
)
    requires
        machine.numbered_since(base),
        !(effect is EnqueueIntoInbox),
        !(effect is EnqueueIntoOutbox),
    ensures
        #[trigger] machine.emit(effect).numbered_since(base),
{
    let next = machine.emit(effect);
    assert(next.effects.drop_last() == machine.effects);
    assert(next.effects.subrange(0, base.effects.len() as int) == machine.effects.subrange(
        0,
        base.effects.len() as int,
    ));
}

/// Queuing into the inbox keeps the numbering.
pub broadcast proof fn lemma_inbox_keeps_numbering(
    machine: Machine,
    base: Machine,
    entry: InboxEntryView,
)
    requires
        machine.numbered_since(base),
    ensures
        #[trigger] machine.enqueue_into_inbox(entry).numbered_since(base),
{
    let next = machine.enqueue_into_inbox(entry);
    assert(next.effects.drop_last() == machine.effects);
    assert(next.effects.subrange(0, base.effects.len() as int) == machine.effects.subrange(
        0,
        base.effects.len() as int,
    ));
}

/// Queuing into the outbox keeps the numbering.
pub broadcast proof fn lemma_outbox_keeps_numbering(
    machine: Machine,
    base: Machine,
    message: OutboxMessageView,
)
    requires
        machine.numbered_since(base),
    ensures
        #[trigger] machine.handle_outgoing_message(message).numbered_since(base),
{
    let next = machine.handle_outgoing_message(message);
    assert(next.effects.drop_last() == machine.effects);
    assert(next.effects.subrange(0, base.effects.len() as int) == machine.effects.subrange(
        0,
        base.effects.len() as int,
    ));
}

/// The three ways in which one effect keeps the numbering.
pub broadcast group group_numbering {
    lemma_emit_keeps_numbering,
    lemma_inbox_keeps_numbering,
    lemma_outbox_keeps_numbering,
}

/// Ending an invocation with a failure keeps the numbering.
pub proof fn lemma_fail_invocation_keeps_numbering(
    machine: Machine,
    base: Machine,
    fid: FullInvocationIdView,
    metadata: InvocationMetadataView,
    error: InvocationErrorView,
)
    requires
        machine.numbered_since(base),
    ensures
        machine.fail_invocation(fid, metadata, error).numbered_since(base),
{
    broadcast use group_numbering;

    let sent = machine.try_send_failure_response(fid, metadata.response_sink, error);
    assert(sent.numbered_since(base));
}

/// What a built-in service that answers at once sends keeps the numbering.
pub proof fn lemma_service_effects_keep_numbering(
    machine: Machine,
    base: Machine,
    effects: Seq<ServiceEffectView>,
    from: int,
)
    requires
        machine.numbered_since(base),
    ensures
        machine.service_effects(effects, from).numbered_since(base),
    decreases effects.len() - from,
{
    broadcast use group_numbering;

    if 0 <= from < effects.len() {
        lemma_service_effects_keep_numbering(
            machine.service_effect(effects[from]),
            base,
            effects,
            from + 1,
        );
    }
}

/// The actions of a built-in service keep the numbering.
pub proof fn lemma_built_in_invoker_effects_keep_numbering(
    machine: Machine,
    base: Machine,
    fid: FullInvocationIdView,
    metadata: InvocationMetadataView,
    effects: Seq<BuiltinServiceEffectView>,
    from: int,
)
    requires
        machine.numbered_since(base),
    ensures
        machine.built_in_invoker_effects(fid, metadata, effects, from).numbered_since(base),
    decreases effects.len() - from,
{
    broadcast use group_numbering;

    if 0 <= from < effects.len() {
        let next = machine.on_built_in_invoker_effect(fid, metadata, effects[from]);
        if let BuiltinServiceEffectView::End(Some(error)) = effects[from] {
            lemma_fail_invocation_keeps_numbering(machine, base, fid, metadata, error);
        }
        assert(next.numbered_since(base));
        lemma_built_in_invoker_effects_keep_numbering(
            next,
            base,
            fid,
            metadata,
            effects,
            from + 1,
        );
    }
}

/// Killing the children of an invocation keeps the numbering.
pub proof fn lemma_kill_child_invocations_keep_numbering(
    machine: Machine,
    base: Machine,
    snapshot: Snapshot,
    invocation_id: InvocationId,
    from: int,
    length: int,
)
    requires
        machine.numbered_since(base),
    ensures
        machine.kill_child_invocations(snapshot, invocation_id, from, length).numbered_since(base),
    decreases length - from,
{
    broadcast use group_numbering;

    if 0 <= from < length {
        let next = match snapshot.journal_entry(invocation_id, from as EntryIndex) {
            JournalEntryView::Entry(entry) => if is_live_child(entry.header) {
                machine.handle_outgoing_message(
                    OutboxMessageView::InvocationTermination(
                        InvocationTerminationView::kill(
                            child_target(entry.header),
                        ),
                    ),
                )
            } else {
                machine
            },
            JournalEntryView::Completion(_) => machine,
        };
        lemma_kill_child_invocations_keep_numbering(
            next,
            base,
            snapshot,
            invocation_id,
            from + 1,
            length,
        );
    }
}

/// Cancelling what a journal waits for keeps the numbering.
pub proof fn lemma_cancel_journal_leaves_keep_numbering<C: RawEntryCodec>(
    machine: Machine,
    base: Machine,
    snapshot: Snapshot,
    fid: FullInvocationIdView,
    waiting_for: Option<Set<EntryIndex>>,
    from: int,
    length: int,
    resume: bool,
)
    requires
        machine.numbered_since(base),
    ensures
        machine.cancel_journal_leaves::<C>(
            snapshot,
            fid,
            waiting_for,
            from,
            length,
            resume,
        ).machine.numbered_since(base),
    decreases length - from,
{
    broadcast use group_numbering;

    if 0 <= from < length {
        let leaf = machine.cancel_journal_leaf::<C>(
            fid,
            waiting_for,
            from as EntryIndex,
            snapshot.journal_entry(fid.invocation_id(), from as EntryIndex),
        );
        assert(leaf.machine.numbered_since(base));
        if let Ok(awaited) = leaf.result {
            lemma_cancel_journal_leaves_keep_numbering::<C>(
                leaf.machine,
                base,
                snapshot,
                fid,
                waiting_for,
                from + 1,
                length,
                resume || awaited,
            );
        }
    }
}

/// Ending an invocation from outside keeps the numbering.
pub proof fn lemma_try_terminate_invocation_keeps_numbering<C: RawEntryCodec>(
    machine: Machine,
    snapshot: Snapshot,
    termination: InvocationTerminationView,
)
    ensures
        machine.try_terminate_invocation::<C>(snapshot, termination).machine.numbered_since(
            machine,
        ),
{
    broadcast use group_numbering;

    lemma_numbered_since_itself(machine);
    let invocation_id = termination.maybe_fid.invocation_id();
    let status = snapshot.status_of(invocation_id);
    let inboxed = machine.try_terminate_inboxed_invocation(
        snapshot,
        termination.flavor,
        termination.maybe_fid,
    );
    assert(inboxed.machine.numbered_since(machine)) by {
        if let Some(inbox_entry) = snapshot.inboxed_invocation(termination.maybe_fid) {
            let invocation = inbox_entry.invocation;
            let error = match termination.flavor {
                TerminationFlavor::Kill => killed_invocation_error(),
                TerminationFlavor::Cancel => canceled_invocation_error(),
            };
            let sent = machine.try_send_failure_response(
                invocation.fid,
                invocation.response_sink,
                error,
            );
            assert(sent.numbered_since(machine));
        }
    }
    match status {
        InvocationStatusView::Invoked(metadata) => {
            lemma_running_termination_keeps_numbering::<C>(
                machine,
                snapshot,
                termination.flavor,
                FullInvocationIdView::combine(metadata.service_id, invocation_id),
                metadata,
                None,
            );
        },
        InvocationStatusView::Suspended { metadata, waiting_for_completed_entries } => {
            lemma_running_termination_keeps_numbering::<C>(
                machine,
                snapshot,
                termination.flavor,
                FullInvocationIdView::combine(metadata.service_id, invocation_id),
                metadata,
                Some(waiting_for_completed_entries),
            );
        },
        _ => {},
    }
}

/// Killing or cancelling a running or suspended invocation keeps the
/// numbering.
pub proof fn lemma_running_termination_keeps_numbering<C: RawEntryCodec>(
    machine: Machine,
    snapshot: Snapshot,
    flavor: TerminationFlavor,
    fid: FullInvocationIdView,
    metadata: InvocationMetadataView,
    waiting_for: Option<Set<EntryIndex>>,
)
    ensures
        machine.kill_invocation(snapshot, fid, metadata).numbered_since(machine),
        machine.cancel_journal_leaves::<C>(
            snapshot,
            fid,
            waiting_for,
            0,
            metadata.journal_metadata.length as int,
            false,
        ).machine.numbered_since(machine),
{
    broadcast use group_numbering;

    lemma_numbered_since_itself(machine);
    let length = metadata.journal_metadata.length as int;
    lemma_kill_child_invocations_keep_numbering(
        machine,
        machine,
        snapshot,
        fid.invocation_id(),
        0,
        length,
    );
    lemma_fail_invocation_keeps_numbering(
        machine.kill_child_invocations(snapshot, fid.invocation_id(), 0, length),
        machine,
        fid,
        metadata,
        killed_invocation_error(),
    );
    lemma_cancel_journal_leaves_keep_numbering::<C>(
        machine,
        machine,
        snapshot,
        fid,
        waiting_for,
        0,
        length,
        false,
    );
}

/// A report of the invoker keeps the numbering.
pub proof fn lemma_try_invoker_effect_keeps_numbering<C: RawEntryCodec>(
    machine: Machine,
    snapshot: Snapshot,
    effect: InvokerEffectView,
)
    ensures
        machine.try_invoker_effect::<C>(snapshot, effect).machine.numbered_since(machine),
{
    broadcast use group_numbering;

    lemma_numbered_since_itself(machine);
    let fid = effect.full_invocation_id;
    if let InvocationStatusView::Invoked(metadata) = snapshot.status_of(fid.invocation_id()) {
        match effect.kind {
            InvokerEffectKindView::JournalEntry { entry_index, entry } => {
                let by_kind = machine.journal_entry_effects::<C>(
                    snapshot,
                    fid,
                    entry_index,
                    entry,
                    metadata,
                );
                assert(by_kind.machine.numbered_since(machine));
            },
            InvokerEffectKindView::Failed(error) => {
                lemma_fail_invocation_keeps_numbering(machine, machine, fid, metadata, error);
            },
            _ => {},
        }
    }
}

/// Starting an invocation keeps the numbering.
pub proof fn lemma_handle_invoke_keeps_numbering<B: ServiceInvoker>(
    machine: Machine,
    base: Machine,
    snapshot: Snapshot,
    invocation: ServiceInvocationView,
)
    requires
        machine.numbered_since(base),
    ensures
        machine.handle_invoke::<B>(snapshot, invocation).machine.numbered_since(base),
{
    broadcast use group_numbering;

    lemma_service_effects_keep_numbering(
        machine,
        base,
        B::effects_of(
            invocation.fid,
            invocation.method_name,
            invocation.span_context,
            invocation.response_sink,
            invocation.argument,
        ),
        0,
    );
}

/// The sequence numbers of a partition are handed out without a gap.
///
/// Whatever command is applied, the inbox entries that it queues carry the
/// inbox sequence numbers from the interpreter's next one on, each one more
/// than the one before, and the interpreter's next number afterwards is the
/// first one not handed out. The same holds of the outbox.
pub proof fn law_sequence_numbers_are_contiguous<C: RawEntryCodec, B: ServiceInvoker>(
    machine: Machine,
    snapshot: Snapshot,
    command: CommandView,
)
    ensures
        machine.on_apply::<C, B>(snapshot, command).machine.numbered_since(machine),
{
    broadcast use group_numbering;

    lemma_numbered_since_itself(machine);
    match command {
        CommandView::Invoke(invocation) => {
            lemma_handle_invoke_keeps_numbering::<B>(machine, machine, snapshot, invocation);
        },
        CommandView::InvokerEffect(effect) => {
            lemma_try_invoker_effect_keeps_numbering::<C>(machine, snapshot, effect);
        },
        CommandView::Timer(timer) => {
            let deleted = machine.emit(EffectView::DeleteTimer(timer.key));
            if let TimerView::Invoke(invocation) = timer.value {
                lemma_handle_invoke_keeps_numbering::<B>(
                    deleted,
                    machine,
                    snapshot,
                    ServiceInvocationView { execution_time: None, ..invocation },
                );
            }
        },
        CommandView::TerminateInvocation(termination) => {
            lemma_try_terminate_invocation_keeps_numbering::<C>(
                machine,
                snapshot,
                termination,
            );
        },
        CommandView::BuiltInInvokerEffect(effects) => {
            let fid = effects.full_invocation_id;
            if let InvocationStatusView::Invoked(metadata) = snapshot.status_of(
                fid.invocation_id(),
            ) {
                lemma_built_in_invoker_effects_keep_numbering(
                    machine,
                    machine,
                    fid,
                    metadata,
                    effects.effects,
                    0,
                );
            }
        },
        _ => {},
    }
}

/// Replaying sequence numbers never takes one back.
pub proof fn lemma_sequenced_never_goes_back(
    effects: Seq<EffectView>,
    from: int,
    inbox: int,
    outbox: int,
)
    ensures
        sequenced(effects, from, inbox, outbox) matches Some((next_inbox, next_outbox))
            ==> inbox <= next_inbox && outbox <= next_outbox,
    decreases effects.len(),
{
    if !(effects.len() <= from || effects.len() == 0) {
        lemma_sequenced_never_goes_back(effects.drop_last(), from, inbox, outbox);
    }
}

/// A sequence number is never handed out twice.
///
/// Whatever command is applied, neither the next inbox sequence number nor
/// the next outbox sequence number of the interpreter is smaller afterwards
/// than it was before.
pub proof fn law_sequence_numbers_never_go_back<C: RawEntryCodec, B: ServiceInvoker>(
    machine: Machine,
    snapshot: Snapshot,
    command: CommandView,
)
    ensures
        machine.inbox_seq_number <= machine.on_apply::<C, B>(
            snapshot,
            command,
        ).machine.inbox_seq_number,
        machine.outbox_seq_number <= machine.on_apply::<C, B>(
            snapshot,
            command,
        ).machine.outbox_seq_number,
{
    law_sequence_numbers_are_contiguous::<C, B>(machine, snapshot, command);
    lemma_sequenced_never_goes_back(
        machine.on_apply::<C, B>(snapshot, command).machine.effects,
        machine.effects.len() as int,
        machine.inbox_seq_number,
        machine.outbox_seq_number,
    );
}

} // verus!
