//! A journal grows by one entry at a time, at its end.
use crate::command::{BuiltinServiceEffectView, CommandView, InvokerEffectKindView};
use crate::deterministic::{ServiceEffectView, ServiceInvoker};
use crate::effects::EffectView;
use crate::errors::{canceled_invocation_error, InvocationErrorView, killed_invocation_error};
use crate::identifiers::{EntryIndex, FullInvocationIdView, InvocationId, PartitionKey};
use crate::invocation::{InvocationTerminationView, ServiceInvocationView, TerminationFlavor};
use crate::journal::{EnrichedRawEntryView, JournalEntryView, RawEntryCodec};
use crate::model::{admissible, child_target, is_live_child, Machine};
use crate::state::Snapshot;
use crate::storage::{
    InboxEntryView, InvocationMetadataView, InvocationStatusView, OutboxMessageView, TimerView,
};
use vstd::prelude::*;
use vstd::std_specs::range::RangeInclusiveView;

verus! {

/// Whether an effect stores a journal entry.
pub open spec fn is_append(effect: EffectView) -> bool {
    effect is AppendJournalEntry
}

/// Whether an effect, if it stores a journal entry, stores it at the end of
/// the journal: the status it names is that of a running invocation in
/// `snapshot`, and the index of the entry is the length of its journal.
pub open spec fn appends_at_end(snapshot: Snapshot, effect: EffectView) -> bool {
    effect matches EffectView::AppendJournalEntry {
        invocation_id,
        previous_invocation_status,
        entry_index,
        ..
    } ==> {
        &&& previous_invocation_status == snapshot.status_of(invocation_id)
        &&& previous_invocation_status matches InvocationStatusView::Invoked(metadata)
        &&& entry_index == metadata.journal_metadata.length
    }
}

/// The number of journal entries that the effects from position `from` on
/// store.
pub open spec fn appended(effects: Seq<EffectView>, from: int) -> nat
    decreases effects.len(),
{
    if effects.len() <= from || effects.len() == 0 {
        0
    } else {
        appended(effects.drop_last(), from) + if is_append(effects.last()) {
            1nat
        } else {
            0nat
        }
    }
}

impl Machine {
    /// Whether `self` continues `base` and has stored no journal entry
    /// since.
    pub open spec fn appended_nothing_since(self, base: Machine) -> bool {
        &&& self.extends(base)
        &&& forall|i: int|
            base.effects.len() <= i < self.effects.len() ==> !is_append(#[trigger] self.effects[i])
    }
}

/// A machine that stored no journal entry stored none.
pub proof fn lemma_appended_nothing(machine: Machine, base: Machine)
    requires
        machine.appended_nothing_since(base),
    ensures
        appended(machine.effects, base.effects.len() as int) == 0,
    decreases machine.effects.len(),
{
    if machine.effects.len() > base.effects.len() {
        let shorter = Machine { effects: machine.effects.drop_last(), ..machine };
        assert(shorter.effects.subrange(0, base.effects.len() as int)
            == machine.effects.subrange(0, base.effects.len() as int));
        assert forall|i: int| base.effects.len() <= i < shorter.effects.len() implies !is_append(
            #[trigger] shorter.effects[i],
        ) by {
            assert(shorter.effects[i] == machine.effects[i]);
        }
        lemma_appended_nothing(shorter, base);
        assert(!is_append(machine.effects[machine.effects.len() - 1]));
    }
}

/// An effect that stores no journal entry keeps a machine from having
/// stored one.
pub broadcast proof fn lemma_emit_appends_nothing(
    machine: Machine,
    base: Machine,
    effect: EffectView,
)
    requires
        machine.appended_nothing_since(base),
        !is_append(effect),
    ensures
        #[trigger] machine.emit(effect).appended_nothing_since(base),
{
    let next = machine.emit(effect);
    assert(next.effects.subrange(0, base.effects.len() as int) == machine.effects.subrange(
        0,
        base.effects.len() as int,
    ));
}

/// Queuing into the inbox stores no journal entry.
pub broadcast proof fn lemma_inbox_appends_nothing(
    machine: Machine,
    base: Machine,
    entry: InboxEntryView,
)
    requires
        machine.appended_nothing_since(base),
    ensures
        #[trigger] machine.enqueue_into_inbox(entry).appended_nothing_since(base),
{
    let next = machine.enqueue_into_inbox(entry);
    assert(next.effects.subrange(0, base.effects.len() as int) == machine.effects.subrange(
        0,
        base.effects.len() as int,
    ));
}

/// Queuing into the outbox stores no journal entry.
pub broadcast proof fn lemma_outbox_appends_nothing(
    machine: Machine,
    base: Machine,
    message: OutboxMessageView,
)
    requires
        machine.appended_nothing_since(base),
    ensures
        #[trigger] machine.handle_outgoing_message(message).appended_nothing_since(base),
{
    let next = machine.handle_outgoing_message(message);
    assert(next.effects.subrange(0, base.effects.len() as int) == machine.effects.subrange(
        0,
        base.effects.len() as int,
    ));
}

/// The three ways in which one effect stores no journal entry.
pub broadcast group group_no_append {
    lemma_emit_appends_nothing,
    lemma_inbox_appends_nothing,
    lemma_outbox_appends_nothing,
}

/// A machine has stored no journal entry since itself.
pub proof fn lemma_appended_nothing_since_itself(machine: Machine)
    ensures
        machine.appended_nothing_since(machine),
{
    assert(machine.effects.subrange(0, machine.effects.len() as int) == machine.effects);
}

/// Ending an invocation with a failure stores no journal entry.
pub proof fn lemma_fail_invocation_appends_nothing(
    machine: Machine,
    base: Machine,
    fid: FullInvocationIdView,
    metadata: InvocationMetadataView,
    error: InvocationErrorView,
)
    requires
        machine.appended_nothing_since(base),
    ensures
        machine.fail_invocation(fid, metadata, error).appended_nothing_since(base),
{
    broadcast use group_no_append;

    let sent = machine.try_send_failure_response(fid, metadata.response_sink, error);
    assert(sent.appended_nothing_since(base));
}

/// What a built-in service that answers at once sends stores no journal
/// entry.
pub proof fn lemma_service_effects_append_nothing(
    machine: Machine,
    base: Machine,
    effects: Seq<ServiceEffectView>,
    from: int,
)
    requires
        machine.appended_nothing_since(base),
    ensures
        machine.service_effects(effects, from).appended_nothing_since(base),
    decreases effects.len() - from,
{
    broadcast use group_no_append;

    if 0 <= from < effects.len() {
        lemma_service_effects_append_nothing(
            machine.service_effect(effects[from]),
            base,
            effects,
            from + 1,
        );
    }
}

/// The actions of a built-in service store no journal entry.
pub proof fn lemma_built_in_invoker_effects_append_nothing(
    machine: Machine,
    base: Machine,
    fid: FullInvocationIdView,
    metadata: InvocationMetadataView,
    effects: Seq<BuiltinServiceEffectView>,
    from: int,
)
    requires
        machine.appended_nothing_since(base),
    ensures
        machine.built_in_invoker_effects(fid, metadata, effects, from).appended_nothing_since(base),
    decreases effects.len() - from,
{
    broadcast use group_no_append;

    if 0 <= from < effects.len() {
        let next = machine.on_built_in_invoker_effect(fid, metadata, effects[from]);
        if let BuiltinServiceEffectView::End(Some(error)) = effects[from] {
            lemma_fail_invocation_appends_nothing(machine, base, fid, metadata, error);
        }
        assert(next.appended_nothing_since(base));
        lemma_built_in_invoker_effects_append_nothing(
            next,
            base,
            fid,
            metadata,
            effects,
            from + 1,
        );
    }
}

/// Killing the children of an invocation stores no journal entry.
pub proof fn lemma_kill_child_invocations_append_nothing(
    machine: Machine,
    base: Machine,
    snapshot: Snapshot,
    invocation_id: InvocationId,
    from: int,
    length: int,
)
    requires
        machine.appended_nothing_since(base),
    ensures
        machine.kill_child_invocations(
            snapshot,
            invocation_id,
            from,
            length,
        ).appended_nothing_since(base),
    decreases length - from,
{
    broadcast use group_no_append;

    if 0 <= from < length {
        let next = match snapshot.journal_entry(invocation_id, from as EntryIndex) {
            JournalEntryView::Entry(entry) => if is_live_child(entry.header) {
                machine.handle_outgoing_message(
                    OutboxMessageView::InvocationTermination(
                        InvocationTerminationView::kill(
                            child_target(entry.header),
                        ),
                    ),
                )
            } else {
                machine
            },
            JournalEntryView::Completion(_) => machine,
        };
        lemma_kill_child_invocations_append_nothing(
            next,
            base,
            snapshot,
            invocation_id,
            from + 1,
            length,
        );
    }
}

/// Cancelling what a journal waits for stores no journal entry.
pub proof fn lemma_cancel_journal_leaves_append_nothing<C: RawEntryCodec>(
    machine: Machine,
    base: Machine,
    snapshot: Snapshot,
    fid: FullInvocationIdView,
    waiting_for: Option<Set<EntryIndex>>,
    from: int,
    length: int,
    resume: bool,
)
    requires
        machine.appended_nothing_since(base),
    ensures
        machine.cancel_journal_leaves::<C>(
            snapshot,
            fid,
            waiting_for,
            from,
            length,
            resume,
        ).machine.appended_nothing_since(base),
    decreases length - from,
{
    broadcast use group_no_append;

    if 0 <= from < length {
        let leaf = machine.cancel_journal_leaf::<C>(
            fid,
            waiting_for,
            from as EntryIndex,
            snapshot.journal_entry(fid.invocation_id(), from as EntryIndex),
        );
        assert(leaf.machine.appended_nothing_since(base));
        if let Ok(awaited) = leaf.result {
            lemma_cancel_journal_leaves_append_nothing::<C>(
                leaf.machine,
                base,
                snapshot,
                fid,
                waiting_for,
                from + 1,
                length,
                resume || awaited,
            );
        }
    }
}

/// Ending an invocation from outside stores no journal entry.
pub proof fn lemma_try_terminate_invocation_appends_nothing<C: RawEntryCodec>(
    machine: Machine,
    snapshot: Snapshot,
    termination: InvocationTerminationView,
)
    ensures
        machine.try_terminate_invocation::<C>(
            snapshot,
            termination,
        ).machine.appended_nothing_since(machine),
{
    broadcast use group_no_append;

    lemma_appended_nothing_since_itself(machine);
    let invocation_id = termination.maybe_fid.invocation_id();
    let status = snapshot.status_of(invocation_id);
    let inboxed = machine.try_terminate_inboxed_invocation(
        snapshot,
        termination.flavor,
        termination.maybe_fid,
    );
    assert(inboxed.machine.appended_nothing_since(machine)) by {
        if let Some(inbox_entry) = snapshot.inboxed_invocation(termination.maybe_fid) {
            let invocation = inbox_entry.invocation;
            let error = match termination.flavor {
                TerminationFlavor::Kill => killed_invocation_error(),
                TerminationFlavor::Cancel => canceled_invocation_error(),
            };
            let sent = machine.try_send_failure_response(
                invocation.fid,
                invocation.response_sink,
                error,
            );
            assert(sent.appended_nothing_since(machine));
        }
    }
    let (metadata, waiting_for) = match status {
        InvocationStatusView::Invoked(metadata) => (metadata, None),
        InvocationStatusView::Suspended { metadata, waiting_for_completed_entries } => (
            metadata,
            Some(waiting_for_completed_entries),
        ),
        _ => (arbitrary(), None),
    };
    if status.is_active() {
        let fid = FullInvocationIdView::combine(metadata.service_id, invocation_id);
        let length = metadata.journal_metadata.length as int;
        lemma_kill_child_invocations_append_nothing(
            machine,
            machine,
            snapshot,
            fid.invocation_id(),
            0,
            length,
        );
        lemma_fail_invocation_appends_nothing(
            machine.kill_child_invocations(snapshot, fid.invocation_id(), 0, length),
            machine,
            fid,
            metadata,
            killed_invocation_error(),
        );
        lemma_cancel_journal_leaves_append_nothing::<C>(
            machine,
            machine,
            snapshot,
            fid,
            waiting_for,
            0,
            length,
            false,
        );
    }
}

/// Starting an invocation stores no journal entry.
pub proof fn lemma_handle_invoke_appends_nothing<B: ServiceInvoker>(
    machine: Machine,
    base: Machine,
    snapshot: Snapshot,
    invocation: ServiceInvocationView,
)
    requires
        machine.appended_nothing_since(base),
    ensures
        machine.handle_invoke::<B>(snapshot, invocation).machine.appended_nothing_since(base),
{
    broadcast use group_no_append;

    lemma_service_effects_append_nothing(
        machine,
        base,
        B::effects_of(
            invocation.fid,
            invocation.method_name,
            invocation.span_context,
            invocation.response_sink,
            invocation.argument,
        ),
        0,
    );
}

/// Whether `command` hands the next journal entry of an invocation that
/// runs in `snapshot` to the partition.
pub open spec fn brings_journal_entry(command: CommandView, snapshot: Snapshot) -> bool {
    command matches CommandView::InvokerEffect(effect) && effect.kind is JournalEntry
        && snapshot.status_of(effect.full_invocation_id.invocation_id()) is Invoked
}

/// A command that brings no journal entry of a running invocation stores
/// none.
pub proof fn lemma_other_commands_append_nothing<C: RawEntryCodec, B: ServiceInvoker>(
    machine: Machine,
    snapshot: Snapshot,
    command: CommandView,
)
    requires
        !brings_journal_entry(command, snapshot),
    ensures
        machine.on_apply::<C, B>(snapshot, command).machine.appended_nothing_since(machine),
{
    broadcast use group_no_append;

    lemma_appended_nothing_since_itself(machine);
    match command {
        CommandView::Invoke(invocation) => {
            lemma_handle_invoke_appends_nothing::<B>(machine, machine, snapshot, invocation);
        },
        CommandView::InvokerEffect(effect) => {
            let fid = effect.full_invocation_id;
            if let InvocationStatusView::Invoked(metadata) = snapshot.status_of(
                fid.invocation_id(),
            ) {
                if let InvokerEffectKindView::Failed(error) = effect.kind {
                    lemma_fail_invocation_appends_nothing(machine, machine, fid, metadata, error);
                }
            }
        },
        CommandView::Timer(timer) => {
            let deleted = machine.emit(EffectView::DeleteTimer(timer.key));
            if let TimerView::Invoke(invocation) = timer.value {
                lemma_handle_invoke_appends_nothing::<B>(
                    deleted,
                    machine,
                    snapshot,
                    ServiceInvocationView { execution_time: None, ..invocation },
                );
            }
        },
        CommandView::TerminateInvocation(termination) => {
            lemma_try_terminate_invocation_appends_nothing::<C>(
                machine,
                snapshot,
                termination,
            );
        },
        CommandView::BuiltInInvokerEffect(effects) => {
            let fid = effects.full_invocation_id;
            if let InvocationStatusView::Invoked(metadata) = snapshot.status_of(
                fid.invocation_id(),
            ) {
                lemma_built_in_invoker_effects_append_nothing(
                    machine,
                    machine,
                    fid,
                    metadata,
                    effects.effects,
                    0,
                );
            }
        },
        _ => {},
    }
}

/// What a new journal entry sets off by its kind stores no journal entry.
pub proof fn lemma_journal_entry_effects_append_nothing<C: RawEntryCodec>(
    machine: Machine,
    snapshot: Snapshot,
    fid: FullInvocationIdView,
    entry_index: EntryIndex,
    journal_entry: EnrichedRawEntryView,
    metadata: InvocationMetadataView,
)
    ensures
        machine.journal_entry_effects::<C>(
            snapshot,
            fid,
            entry_index,
            journal_entry,
            metadata,
        ).machine.appended_nothing_since(machine),
{
    broadcast use group_no_append;

    lemma_appended_nothing_since_itself(machine);
}

/// A new journal entry of a running invocation is stored once, at the end
/// of the journal, unless the codec fails.
pub proof fn lemma_journal_entry_is_appended_once<C: RawEntryCodec>(
    machine: Machine,
    snapshot: Snapshot,
    fid: FullInvocationIdView,
    entry_index: EntryIndex,
    journal_entry: EnrichedRawEntryView,
    metadata: InvocationMetadataView,
)
    requires
        snapshot.status_of(fid.invocation_id()) == InvocationStatusView::Invoked(metadata),
        entry_index == metadata.journal_metadata.length,
    ensures
        ({
            let step = machine.handle_journal_entry::<C>(
                snapshot,
                fid,
                entry_index,
                journal_entry,
                metadata,
            );
            &&& step.machine.extends(machine)
            &&& appended(step.machine.effects, machine.effects.len() as int) == if step.result
                is Ok {
                1nat
            } else {
                0nat
            }
            &&& forall|i: int|
                machine.effects.len() <= i < step.machine.effects.len() ==> appends_at_end(
                    snapshot,
                    #[trigger] step.machine.effects[i],
                )
        }),
{
    let by_kind = machine.journal_entry_effects::<C>(
        snapshot,
        fid,
        entry_index,
        journal_entry,
        metadata,
    );
    lemma_journal_entry_effects_append_nothing::<C>(
        machine,
        snapshot,
        fid,
        entry_index,
        journal_entry,
        metadata,
    );
    lemma_appended_nothing(by_kind.machine, machine);
    if let Ok(stored_entry) = by_kind.result {
        let appended_entry = EffectView::AppendJournalEntry {
            invocation_id: fid.invocation_id(),
            previous_invocation_status: InvocationStatusView::Invoked(metadata),
            entry_index,
            journal_entry: stored_entry,
        };
        let stored = by_kind.machine.emit(appended_entry);
        let acknowledged = stored.emit(
            EffectView::SendStoredEntryAckToInvoker { full_invocation_id: fid, entry_index },
        );
        assert(stored.effects.drop_last() == by_kind.machine.effects);
        assert(acknowledged.effects.drop_last() == stored.effects);
        assert(appended(stored.effects, machine.effects.len() as int) == 1);
        assert(appended(acknowledged.effects, machine.effects.len() as int) == 1);
        assert(acknowledged.effects.subrange(0, machine.effects.len() as int)
            == by_kind.machine.effects.subrange(0, machine.effects.len() as int));
        assert(appends_at_end(snapshot, appended_entry));
        assert forall|i: int|
            machine.effects.len() <= i < acknowledged.effects.len() implies appends_at_end(
            snapshot,
            #[trigger] acknowledged.effects[i],
        ) by {
            if i < by_kind.machine.effects.len() {
                assert(acknowledged.effects[i] == by_kind.machine.effects[i]);
            }
        }
    }
}

/// A journal grows by one entry at a time, at its end.
///
/// A command stores a journal entry only if it brings the next entry of a
/// running invocation, and then it stores exactly this one: at the index
/// that is the length of the journal before, so that the journal is one
/// entry longer afterwards. No other command stores a journal entry.
pub proof fn law_journal_grows_at_its_end<C: RawEntryCodec, B: ServiceInvoker>(
    machine: Machine,
    snapshot: Snapshot,
    range: RangeInclusiveView<PartitionKey>,
    command: CommandView,
)
    requires
        admissible(command, snapshot, range),
    ensures
        ({
            let step = machine.on_apply::<C, B>(snapshot, command);
            &&& step.machine.extends(machine)
            &&& appended(step.machine.effects, machine.effects.len() as int) == if step.result is Ok
                && brings_journal_entry(command, snapshot) {
                1nat
            } else {
                0nat
            }
            &&& forall|i: int|
                machine.effects.len() <= i < step.machine.effects.len() ==> appends_at_end(
                    snapshot,
                    #[trigger] step.machine.effects[i],
                )
        }),
{
    let step = machine.on_apply::<C, B>(snapshot, command);
    if brings_journal_entry(command, snapshot) {
        let effect = command->InvokerEffect_0;
        let fid = effect.full_invocation_id;
        let metadata = snapshot.status_of(fid.invocation_id())->Invoked_0;
        let entry_index = effect.kind->JournalEntry_entry_index;
        let entry = effect.kind->JournalEntry_entry;
        lemma_journal_entry_is_appended_once::<C>(
            machine,
            snapshot,
            fid,
            entry_index,
            entry,
            metadata,
        );
        let stored = machine.handle_journal_entry::<C>(
            snapshot,
            fid,
            entry_index,
            entry,
            metadata,
        );
        assert(step.machine == stored.machine);
        assert(step.result is Ok == stored.result is Ok);
    } else {
        lemma_other_commands_append_nothing::<C, B>(machine, snapshot, command);
        lemma_appended_nothing(step.machine, machine);
    }
}

} // verus!
