//! The effects of a command respect the locks of the state.
use crate::command::{
    BuiltinServiceEffectView, CommandView, InvokerEffectKindView, InvokerEffectView,
};
use crate::deterministic::{ServiceEffectView, ServiceInvoker};
use crate::effects::EffectView;
use crate::errors::{canceled_invocation_error, InvocationErrorView, killed_invocation_error};
use crate::identifiers::{
    EntryIndex, FullInvocationIdView, InvocationId, MaybeFullInvocationIdView, ServiceIdView,
};
use crate::invocation::{InvocationTerminationView, ServiceInvocationView, TerminationFlavor};
use crate::journal::{CompletionResultView, CompletionView, JournalEntryView, RawEntryCodec};
use crate::model::{child_target, is_live_child, Machine};
use crate::state::Snapshot;
use crate::storage::{
    InboxEntryView, InvocationMetadataView, InvocationStatusView, OutboxMessageView, TimerView,
};
use vstd::prelude::*;

verus! {

/// Whether the invocation `invocation_id` runs or is suspended on the
/// virtual object `service_id`.
pub open spec fn runs_on(
    snapshot: Snapshot,
    invocation_id: InvocationId,
    service_id: ServiceIdView,
) -> bool {
    match snapshot.status_of(invocation_id) {
        InvocationStatusView::Invoked(metadata) => metadata.service_id == service_id,
        InvocationStatusView::Suspended { metadata, .. } => metadata.service_id == service_id,
        _ => false,
    }
}

/// Whether locks follow activity in a state: a virtual object is locked
/// if and only if some invocation runs or is suspended on it, and no two
/// invocations do so on the same object.
pub open spec fn locks_follow_activity(snapshot: Snapshot) -> bool {
    &&& forall|service_id: ServiceIdView|
        (#[trigger] snapshot.virtual_object_status(service_id)) is Locked <==> is_busy(
            snapshot,
            service_id,
        )
    &&& forall|
        first: InvocationId,
        second: InvocationId,
        service_id: ServiceIdView,
    |
        #[trigger] runs_on(snapshot, first, service_id) && #[trigger] runs_on(
            snapshot,
            second,
            service_id,
        ) ==> first == second
}

/// Whether some invocation runs or is suspended on a virtual object.
pub open spec fn is_busy(snapshot: Snapshot, service_id: ServiceIdView) -> bool {
    exists|invocation_id: InvocationId| runs_on(snapshot, invocation_id, service_id)
}

/// Whether an effect respects the locks of the state `snapshot`:
/// an invocation starts only on an unlocked object and only if it does not
/// run already; a journal is dropped, and with it a lock passed on or
/// released, only for an invocation that runs or is suspended on the
/// object the effect names; and the status of an invocation is rewritten
/// only for one that runs or is suspended, on the same object as before.
pub open spec fn respects_locks(snapshot: Snapshot, effect: EffectView) -> bool {
    match effect {
        EffectView::InvokeService(invocation) => {
            &&& snapshot.virtual_object_status(invocation.fid.service_id) is Unlocked
            &&& !snapshot.status_of(invocation.fid.invocation_id()).is_active()
        },
        EffectView::DropJournalAndPopInbox { full_invocation_id, .. } => runs_on(
            snapshot,
            full_invocation_id.invocation_id(),
            full_invocation_id.service_id,
        ),
        EffectView::ResumeService { invocation_id, metadata } => runs_on(
            snapshot,
            invocation_id,
            metadata.service_id,
        ),
        EffectView::SuspendService { invocation_id, metadata, .. } => runs_on(
            snapshot,
            invocation_id,
            metadata.service_id,
        ),
        EffectView::StoreChosenDeployment { invocation_id, metadata, .. } => runs_on(
            snapshot,
            invocation_id,
            metadata.service_id,
        ),
        EffectView::AppendJournalEntry { invocation_id, previous_invocation_status, .. } =>
            previous_invocation_status matches InvocationStatusView::Invoked(metadata) && runs_on(
                snapshot,
                invocation_id,
                metadata.service_id,
            ),
        _ => true,
    }
}

impl Machine {
    /// Whether `self` continues `base` and every effect since respects
    /// the locks of `snapshot`.
    pub open spec fn respected_locks_since(self, base: Machine, snapshot: Snapshot) -> bool {
        &&& self.extends(base)
        &&& forall|i: int|
            base.effects.len() <= i < self.effects.len() ==> respects_locks(
                snapshot,
                #[trigger] self.effects[i],
            )
    }
}

/// One more effect that respects the locks keeps all effects respecting
/// them.
pub broadcast proof fn lemma_emit_respects_locks(
    machine: Machine,
    base: Machine,
    snapshot: Snapshot,
    effect: EffectView,
)
    requires
        machine.respected_locks_since(base, snapshot),
        respects_locks(snapshot, effect),
    ensures
        #[trigger] machine.emit(effect).respected_locks_since(base, snapshot),
{
    let next = machine.emit(effect);
    assert(next.effects.subrange(0, base.effects.len() as int) == machine.effects.subrange(
        0,
        base.effects.len() as int,
    ));
}

/// Queuing into the inbox respects the locks.
pub broadcast proof fn lemma_inbox_respects_locks(
    machine: Machine,
    base: Machine,
    snapshot: Snapshot,
    entry: InboxEntryView,
)
    requires
        machine.respected_locks_since(base, snapshot),
    ensures
        #[trigger] machine.enqueue_into_inbox(entry).respected_locks_since(base, snapshot),
{
    let next = machine.enqueue_into_inbox(entry);
    assert(next.effects.subrange(0, base.effects.len() as int) == machine.effects.subrange(
        0,
        base.effects.len() as int,
    ));
}

/// Queuing into the outbox respects the locks.
pub broadcast proof fn lemma_outbox_respects_locks(
    machine: Machine,
    base: Machine,
    snapshot: Snapshot,
    message: OutboxMessageView,
)
    requires
        machine.respected_locks_since(base, snapshot),
    ensures
        #[trigger] machine.handle_outgoing_message(message).respected_locks_since(base, snapshot),
{
    let next = machine.handle_outgoing_message(message);
    assert(next.effects.subrange(0, base.effects.len() as int) == machine.effects.subrange(
        0,
        base.effects.len() as int,
    ));
}

/// The three ways in which one effect respects the locks.
pub broadcast group group_locks {
    lemma_emit_respects_locks,
    lemma_inbox_respects_locks,
    lemma_outbox_respects_locks,
}

/// A machine has respected the locks since itself.
pub proof fn lemma_respected_locks_since_itself(machine: Machine, snapshot: Snapshot)
    ensures
        machine.respected_locks_since(machine, snapshot),
{
    assert(machine.effects.subrange(0, machine.effects.len() as int) == machine.effects);
}

/// Ending an invocation that runs or is suspended on the object it is said
/// to run on respects the locks.
pub proof fn lemma_ending_respects_locks(
    machine: Machine,
    base: Machine,
    snapshot: Snapshot,
    fid: FullInvocationIdView,
    metadata: InvocationMetadataView,
    error: InvocationErrorView,
)
    requires
        machine.respected_locks_since(base, snapshot),
        runs_on(snapshot, fid.invocation_id(), fid.service_id),
    ensures
        machine.fail_invocation(fid, metadata, error).respected_locks_since(base, snapshot),
        machine.end_invocation(fid, metadata).respected_locks_since(base, snapshot),
{
    broadcast use group_locks;

    let sent = machine.try_send_failure_response(fid, metadata.response_sink, error);
    assert(sent.respected_locks_since(base, snapshot));
}

/// What a built-in service that answers at once sends respects the locks.
pub proof fn lemma_service_effects_respect_locks(
    machine: Machine,
    base: Machine,
    snapshot: Snapshot,
    effects: Seq<ServiceEffectView>,
    from: int,
)
    requires
        machine.respected_locks_since(base, snapshot),
    ensures
        machine.service_effects(effects, from).respected_locks_since(base, snapshot),
    decreases effects.len() - from,
{
    broadcast use group_locks;

    if 0 <= from < effects.len() {
        lemma_service_effects_respect_locks(
            machine.service_effect(effects[from]),
            base,
            snapshot,
            effects,
            from + 1,
        );
    }
}

/// The actions of a built-in service respect the locks.
pub proof fn lemma_built_in_invoker_effects_respect_locks(
    machine: Machine,
    base: Machine,
    snapshot: Snapshot,
    fid: FullInvocationIdView,
    metadata: InvocationMetadataView,
    effects: Seq<BuiltinServiceEffectView>,
    from: int,
)
    requires
        machine.respected_locks_since(base, snapshot),
        ends_invocation(effects) ==> runs_on(snapshot, fid.invocation_id(), fid.service_id),
    ensures
        machine.built_in_invoker_effects(fid, metadata, effects, from).respected_locks_since(
            base,
            snapshot,
        ),
    decreases effects.len() - from,
{
    broadcast use group_locks;

    if 0 <= from < effects.len() {
        let next = machine.on_built_in_invoker_effect(fid, metadata, effects[from]);
        if let BuiltinServiceEffectView::End(end) = effects[from] {
            lemma_ending_respects_locks(
                machine,
                base,
                snapshot,
                fid,
                metadata,
                match end {
                    Some(error) => error,
                    None => arbitrary(),
                },
            );
        }
        assert(next.respected_locks_since(base, snapshot));
        lemma_built_in_invoker_effects_respect_locks(
            next,
            base,
            snapshot,
            fid,
            metadata,
            effects,
            from + 1,
        );
    }
}

/// Killing the children of an invocation respects the locks.
pub proof fn lemma_kill_child_invocations_respect_locks(
    machine: Machine,
    base: Machine,
    snapshot: Snapshot,
    invocation_id: InvocationId,
    from: int,
    length: int,
)
    requires
        machine.respected_locks_since(base, snapshot),
    ensures
        machine.kill_child_invocations(
            snapshot,
            invocation_id,
            from,
            length,
        ).respected_locks_since(base, snapshot),
    decreases length - from,
{
    broadcast use group_locks;

    if 0 <= from < length {
        let next = match snapshot.journal_entry(invocation_id, from as EntryIndex) {
            JournalEntryView::Entry(entry) => if is_live_child(entry.header) {
                machine.handle_outgoing_message(
                    OutboxMessageView::InvocationTermination(
                        InvocationTerminationView::kill(
                            child_target(entry.header),
                        ),
                    ),
                )
            } else {
                machine
            },
            JournalEntryView::Completion(_) => machine,
        };
        lemma_kill_child_invocations_respect_locks(
            next,
            base,
            snapshot,
            invocation_id,
            from + 1,
            length,
        );
    }
}

/// Cancelling what a journal waits for respects the locks.
pub proof fn lemma_cancel_journal_leaves_respect_locks<C: RawEntryCodec>(
    machine: Machine,
    base: Machine,
    snapshot: Snapshot,
    fid: FullInvocationIdView,
    waiting_for: Option<Set<EntryIndex>>,
    from: int,
    length: int,
    resume: bool,
)
    requires
        machine.respected_locks_since(base, snapshot),
    ensures
        machine.cancel_journal_leaves::<C>(
            snapshot,
            fid,
            waiting_for,
            from,
            length,
            resume,
        ).machine.respected_locks_since(base, snapshot),
    decreases length - from,
{
    broadcast use group_locks;

    if 0 <= from < length {
        let leaf = machine.cancel_journal_leaf::<C>(
            fid,
            waiting_for,
            from as EntryIndex,
            snapshot.journal_entry(fid.invocation_id(), from as EntryIndex),
        );
        assert(leaf.machine.respected_locks_since(base, snapshot));
        if let Ok(awaited) = leaf.result {
            lemma_cancel_journal_leaves_respect_locks::<C>(
                leaf.machine,
                base,
                snapshot,
                fid,
                waiting_for,
                from + 1,
                length,
                resume || awaited,
            );
        }
    }
}

/// Whether the status that `snapshot` holds of a running or suspended
/// invocation names an object of the partition key of the invocation.
pub open spec fn keyed_like_its_object(snapshot: Snapshot, invocation_id: InvocationId) -> bool {
    match snapshot.status_of(invocation_id) {
        InvocationStatusView::Invoked(metadata) => metadata.service_id.partition_key
            == invocation_id.partition_key,
        InvocationStatusView::Suspended { metadata, .. } => metadata.service_id.partition_key
            == invocation_id.partition_key,
        _ => true,
    }
}

/// Whether one of the actions of a built-in service ends the invocation.
pub open spec fn ends_invocation(effects: Seq<BuiltinServiceEffectView>) -> bool {
    exists|i: int| 0 <= i < effects.len() && (#[trigger] effects[i]) is End
}

/// Whether an invocation that is to start on an unlocked object does not
/// run yet.
pub open spec fn starts_afresh(invocation: ServiceInvocationView, snapshot: Snapshot) -> bool {
    snapshot.virtual_object_status(invocation.fid.service_id) is Unlocked ==> !snapshot.status_of(
        invocation.fid.invocation_id(),
    ).is_active()
}

/// Whether a command fits the state it is applied to, as far as locks go:
/// an invocation that is to start on an unlocked object does not run yet;
/// a report that ends a running invocation names the object that the
/// invocation runs on; and the status of an invocation that the command
/// looks up by its handle names an object of the same partition key.
pub open spec fn fits_the_locks(command: CommandView, snapshot: Snapshot) -> bool {
    match command {
        CommandView::Invoke(invocation) => starts_afresh(invocation, snapshot),
        CommandView::Timer(timer) => match timer.value {
            TimerView::Invoke(invocation) => starts_afresh(invocation, snapshot),
            TimerView::CompleteSleepEntry(service_id) => keyed_like_its_object(
                snapshot,
                InvocationId {
                    partition_key: service_id.partition_key,
                    invocation_uuid: timer.key.invocation_uuid,
                },
            ),
        },
        CommandView::InvocationResponse(response) => keyed_like_its_object(
            snapshot,
            response.id.invocation_id(),
        ),
        CommandView::TerminateInvocation(termination) => keyed_like_its_object(
            snapshot,
            termination.maybe_fid.invocation_id(),
        ),
        CommandView::InvokerEffect(effect) => effect.kind is End || effect.kind is Failed ==> (
        snapshot.status_of(effect.full_invocation_id.invocation_id())
            matches InvocationStatusView::Invoked(metadata) ==> metadata.service_id
            == effect.full_invocation_id.service_id),
        CommandView::BuiltInInvokerEffect(effects) => ends_invocation(effects.effects) ==> (
        snapshot.status_of(effects.full_invocation_id.invocation_id())
            matches InvocationStatusView::Invoked(metadata) ==> metadata.service_id
            == effects.full_invocation_id.service_id),
        _ => true,
    }
}

/// Starting an invocation that does not run yet on an unlocked object
/// respects the locks.
pub proof fn lemma_handle_invoke_respects_locks<B: ServiceInvoker>(
    machine: Machine,
    base: Machine,
    snapshot: Snapshot,
    invocation: ServiceInvocationView,
)
    requires
        machine.respected_locks_since(base, snapshot),
        starts_afresh(invocation, snapshot),
    ensures
        machine.handle_invoke::<B>(snapshot, invocation).machine.respected_locks_since(
            base,
            snapshot,
        ),
{
    broadcast use group_locks;

    lemma_service_effects_respect_locks(
        machine,
        base,
        snapshot,
        B::effects_of(
            invocation.fid,
            invocation.method_name,
            invocation.span_context,
            invocation.response_sink,
            invocation.argument,
        ),
        0,
    );
}

/// A completion that arrives respects the locks.
pub proof fn lemma_handle_completion_respects_locks(
    machine: Machine,
    base: Machine,
    snapshot: Snapshot,
    maybe_fid: MaybeFullInvocationIdView,
    completion: CompletionView,
)
    requires
        machine.respected_locks_since(base, snapshot),
        keyed_like_its_object(snapshot, maybe_fid.invocation_id()),
    ensures
        machine.handle_completion(snapshot, maybe_fid, completion).machine.respected_locks_since(
            base,
            snapshot,
        ),
{
    broadcast use group_locks;

}

/// Ending an invocation from outside respects the locks.
pub proof fn lemma_try_terminate_invocation_respects_locks<C: RawEntryCodec>(
    machine: Machine,
    snapshot: Snapshot,
    termination: InvocationTerminationView,
)
    requires
        keyed_like_its_object(snapshot, termination.maybe_fid.invocation_id()),
    ensures
        machine.try_terminate_invocation::<C>(
            snapshot,
            termination,
        ).machine.respected_locks_since(machine, snapshot),
{
    broadcast use group_locks;

    lemma_respected_locks_since_itself(machine, snapshot);
    let invocation_id = termination.maybe_fid.invocation_id();
    let status = snapshot.status_of(invocation_id);
    let inboxed = machine.try_terminate_inboxed_invocation(
        snapshot,
        termination.flavor,
        termination.maybe_fid,
    );
    assert(inboxed.machine.respected_locks_since(machine, snapshot)) by {
        if let Some(inbox_entry) = snapshot.inboxed_invocation(termination.maybe_fid) {
            let invocation = inbox_entry.invocation;
            let error = match termination.flavor {
                TerminationFlavor::Kill => killed_invocation_error(),
                TerminationFlavor::Cancel => canceled_invocation_error(),
            };
            let sent = machine.try_send_failure_response(
                invocation.fid,
                invocation.response_sink,
                error,
            );
            assert(sent.respected_locks_since(machine, snapshot));
        }
    }
    let (metadata, waiting_for) = match status {
        InvocationStatusView::Invoked(metadata) => (metadata, None),
        InvocationStatusView::Suspended { metadata, waiting_for_completed_entries } => (
            metadata,
            Some(waiting_for_completed_entries),
        ),
        _ => (arbitrary(), None),
    };
    if status.is_active() {
        let fid = FullInvocationIdView::combine(metadata.service_id, invocation_id);
        assert(fid.invocation_id() == invocation_id);
        let length = metadata.journal_metadata.length as int;
        lemma_kill_child_invocations_respect_locks(
            machine,
            machine,
            snapshot,
            fid.invocation_id(),
            0,
            length,
        );
        lemma_ending_respects_locks(
            machine.kill_child_invocations(snapshot, fid.invocation_id(), 0, length),
            machine,
            snapshot,
            fid,
            metadata,
            killed_invocation_error(),
        );
        lemma_cancel_journal_leaves_respect_locks::<C>(
            machine,
            machine,
            snapshot,
            fid,
            waiting_for,
            0,
            length,
            false,
        );
    }
}

/// A report of the invoker respects the locks.
pub proof fn lemma_try_invoker_effect_respects_locks<C: RawEntryCodec>(
    machine: Machine,
    snapshot: Snapshot,
    effect: InvokerEffectView,
)
    requires
        fits_the_locks(CommandView::InvokerEffect(effect), snapshot),
    ensures
        machine.try_invoker_effect::<C>(snapshot, effect).machine.respected_locks_since(
            machine,
            snapshot,
        ),
{
    broadcast use group_locks;

    lemma_respected_locks_since_itself(machine, snapshot);
    let fid = effect.full_invocation_id;
    if let InvocationStatusView::Invoked(metadata) = snapshot.status_of(fid.invocation_id()) {
        match effect.kind {
            InvokerEffectKindView::JournalEntry { entry_index, entry } => {
                let by_kind = machine.journal_entry_effects::<C>(
                    snapshot,
                    fid,
                    entry_index,
                    entry,
                    metadata,
                );
                assert(by_kind.machine.respected_locks_since(machine, snapshot));
            },
            InvokerEffectKindView::Failed(error) => {
                lemma_ending_respects_locks(machine, machine, snapshot, fid, metadata, error);
            },
            InvokerEffectKindView::End => {
                lemma_ending_respects_locks(
                    machine,
                    machine,
                    snapshot,
                    fid,
                    metadata,
                    arbitrary(),
                );
            },
            _ => {},
        }
    }
}

/// The interpreter touches a lock only where the state allows it.
///
/// Whatever command is applied, provided it fits the state: an invocation
/// is started, and so takes the lock of its object, only if the object is
/// unlocked and the invocation does not run yet; a journal is dropped, and
/// so a lock passed on or released, only for an invocation that runs or is
/// suspended on that object; and a status is rewritten only for an
/// invocation that runs or is suspended, without moving it to another
/// object.
pub proof fn law_effects_respect_the_locks<C: RawEntryCodec, B: ServiceInvoker>(
    machine: Machine,
    snapshot: Snapshot,
    command: CommandView,
)
    requires
        fits_the_locks(command, snapshot),
    ensures
        machine.on_apply::<C, B>(snapshot, command).machine.respected_locks_since(
            machine,
            snapshot,
        ),
{
    broadcast use group_locks;

    lemma_respected_locks_since_itself(machine, snapshot);
    match command {
        CommandView::Invoke(invocation) => {
            lemma_handle_invoke_respects_locks::<B>(machine, machine, snapshot, invocation);
        },
        CommandView::InvocationResponse(response) => {
            lemma_handle_completion_respects_locks(
                machine,
                machine,
                snapshot,
                response.id,
                CompletionView {
                    entry_index: response.entry_index,
                    result: CompletionResultView::from_response(response.result),
                },
            );
        },
        CommandView::InvokerEffect(effect) => {
            lemma_try_invoker_effect_respects_locks::<C>(machine, snapshot, effect);
        },
        CommandView::Timer(timer) => {
            let deleted = machine.emit(EffectView::DeleteTimer(timer.key));
            match timer.value {
                TimerView::Invoke(invocation) => {
                    lemma_handle_invoke_respects_locks::<B>(
                        deleted,
                        machine,
                        snapshot,
                        ServiceInvocationView {
                            execution_time: None,
                            ..invocation
                        },
                    );
                },
                TimerView::CompleteSleepEntry(service_id) => {
                    lemma_handle_completion_respects_locks(
                        deleted,
                        machine,
                        snapshot,
                        MaybeFullInvocationIdView::Full(
                            FullInvocationIdView {
                                service_id,
                                invocation_uuid: timer.key.invocation_uuid,
                            },
                        ),
                        CompletionView {
                            entry_index: timer.key.journal_index,
                            result: CompletionResultView::Empty,
                        },
                    );
                },
            }
        },
        CommandView::TerminateInvocation(termination) => {
            lemma_try_terminate_invocation_respects_locks::<C>(
                machine,
                snapshot,
                termination,
            );
        },
        CommandView::BuiltInInvokerEffect(effects) => {
            let fid = effects.full_invocation_id;
            if let InvocationStatusView::Invoked(metadata) = snapshot.status_of(
                fid.invocation_id(),
            ) {
                lemma_built_in_invoker_effects_respect_locks(
                    machine,
                    machine,
                    snapshot,
                    fid,
                    metadata,
                    effects.effects,
                    0,
                );
            }
        },
        _ => {},
    }
}

} // verus!
