//! An object is locked if and only if an invocation runs on it.
use crate::command::CommandView;
use crate::deterministic::ServiceInvoker;
use crate::effects::EffectView;
use crate::identifiers::{FullInvocationIdView, InvocationId, ServiceIdView};
use crate::journal::RawEntryCodec;
use crate::laws::locks::{
    fits_the_locks, is_busy, law_effects_respect_the_locks, locks_follow_activity, respects_locks,
    runs_on,
};
use crate::laws::moves::{ends_once, law_commands_move_one_lock, moved, moves};
use crate::model::Machine;
use crate::state::Snapshot;
use crate::storage::InvocationStatusView;
use vstd::prelude::*;

verus! {

/// Whether `after` differs from `before` at most in what the invocations
/// `first` and `second` do.
pub open spec fn same_activity_except(
    before: Snapshot,
    after: Snapshot,
    first: InvocationId,
    second: InvocationId,
) -> bool {
    forall|invocation_id: InvocationId, service_id: ServiceIdView|
        invocation_id != first && invocation_id != second ==> #[trigger] runs_on(
            after,
            invocation_id,
            service_id,
        ) == runs_on(before, invocation_id, service_id)
}

/// Whether `after` has the locks of `before`, but perhaps for the object
/// `service_id`.
pub open spec fn same_locks_except(
    before: Snapshot,
    after: Snapshot,
    service_id: ServiceIdView,
) -> bool {
    forall|other: ServiceIdView|
        other != service_id ==> (#[trigger] after.virtual_object_status(other)) is Locked
            == before.virtual_object_status(other) is Locked
}

/// Whether `after` has the locks of `before`.
pub open spec fn same_locks(before: Snapshot, after: Snapshot) -> bool {
    forall|service_id: ServiceIdView|
        (#[trigger] after.virtual_object_status(service_id)) is Locked
            == before.virtual_object_status(service_id) is Locked
}

/// What carrying out an effect on the state `before` does to the locks and
/// to the invocations that run or are suspended, as far as the state
/// `after` shows it.
///
/// Starting an invocation makes it run on its object and locks the object.
/// Dropping a journal ends the invocation; its object is unlocked, or an
/// invocation that did not run before runs on it now and holds the lock.
/// Rewriting the status of an invocation leaves it on the object that the
/// new status names. Nothing else changes, and no other effect changes
/// anything of this.
pub open spec fn carried_out(before: Snapshot, effect: EffectView, after: Snapshot) -> bool {
    match effect {
        EffectView::InvokeService(invocation) => {
            let invocation_id = invocation.fid.invocation_id();
            &&& runs_on(after, invocation_id, invocation.fid.service_id)
            &&& after.virtual_object_status(invocation.fid.service_id) is Locked
            &&& same_activity_except(before, after, invocation_id, invocation_id)
            &&& same_locks_except(before, after, invocation.fid.service_id)
        },
        EffectView::DropJournalAndPopInbox { full_invocation_id, .. } => {
            let invocation_id = full_invocation_id.invocation_id();
            let service_id = full_invocation_id.service_id;
            &&& !after.status_of(invocation_id).is_active()
            &&& same_locks_except(before, after, service_id)
            &&& {
                ||| {
                    &&& after.virtual_object_status(service_id) is Unlocked
                    &&& same_activity_except(before, after, invocation_id, invocation_id)
                }
                ||| exists|next: InvocationId|
                    {
                        &&& next != invocation_id
                        &&& !before.status_of(next).is_active()
                        &&& #[trigger] runs_on(after, next, service_id)
                        &&& after.virtual_object_status(service_id) is Locked
                        &&& same_activity_except(before, after, invocation_id, next)
                    }
            }
        },
        EffectView::ResumeService { invocation_id, metadata } => rewritten(
            before,
            after,
            invocation_id,
            metadata.service_id,
        ),
        EffectView::SuspendService { invocation_id, metadata, .. } => rewritten(
            before,
            after,
            invocation_id,
            metadata.service_id,
        ),
        EffectView::StoreChosenDeployment { invocation_id, metadata, .. } => rewritten(
            before,
            after,
            invocation_id,
            metadata.service_id,
        ),
        EffectView::AppendJournalEntry { invocation_id, previous_invocation_status, .. } =>
            match previous_invocation_status {
                InvocationStatusView::Invoked(metadata) => rewritten(
                    before,
                    after,
                    invocation_id,
                    metadata.service_id,
                ),
                _ => unchanged(before, after),
            },
        _ => unchanged(before, after),
    }
}

/// Whether `after` is `before` with a new status for `invocation_id` that
/// leaves it on the object `service_id`.
pub open spec fn rewritten(
    before: Snapshot,
    after: Snapshot,
    invocation_id: InvocationId,
    service_id: ServiceIdView,
) -> bool {
    &&& runs_on(after, invocation_id, service_id)
    &&& same_activity_except(before, after, invocation_id, invocation_id)
    &&& same_locks(before, after)
}

/// Whether `after` has the locks of `before`, and the same invocations run
/// or are suspended on the same objects.
pub open spec fn unchanged(before: Snapshot, after: Snapshot) -> bool {
    &&& same_locks(before, after)
    &&& forall|invocation_id: InvocationId, service_id: ServiceIdView|
        #[trigger] runs_on(after, invocation_id, service_id) == runs_on(
            before,
            invocation_id,
            service_id,
        )
}

/// An invocation runs on one object at most.
pub proof fn lemma_runs_on_one_object(
    snapshot: Snapshot,
    invocation_id: InvocationId,
    first: ServiceIdView,
    second: ServiceIdView,
)
    requires
        runs_on(snapshot, invocation_id, first),
        runs_on(snapshot, invocation_id, second),
    ensures
        first == second,
{
}

/// Carrying out an effect that respects the locks of a state in which
/// locks follow activity gives such a state again.
pub proof fn lemma_effect_keeps_locks_with_activity(
    before: Snapshot,
    effect: EffectView,
    after: Snapshot,
)
    requires
        locks_follow_activity(before),
        respects_locks(before, effect),
        carried_out(before, effect, after),
    ensures
        locks_follow_activity(after),
{
    match effect {
        EffectView::InvokeService(invocation) => {
            let id = invocation.fid.invocation_id();
            let object = invocation.fid.service_id;
            assert(!is_busy(before, object));
            lemma_one_invocation_moved(before, after, id, object);
        },
        EffectView::DropJournalAndPopInbox { full_invocation_id, .. } => {
            let id = full_invocation_id.invocation_id();
            let object = full_invocation_id.service_id;
            lemma_lock_passed_on(before, after, id, object);
        },
        EffectView::ResumeService { invocation_id, metadata } => {
            lemma_status_rewritten(before, after, invocation_id, metadata.service_id);
        },
        EffectView::SuspendService { invocation_id, metadata, .. } => {
            lemma_status_rewritten(before, after, invocation_id, metadata.service_id);
        },
        EffectView::StoreChosenDeployment { invocation_id, metadata, .. } => {
            lemma_status_rewritten(before, after, invocation_id, metadata.service_id);
        },
        EffectView::AppendJournalEntry { invocation_id, previous_invocation_status, .. } => {
            let metadata = previous_invocation_status->Invoked_0;
            lemma_status_rewritten(before, after, invocation_id, metadata.service_id);
        },
        _ => {
            lemma_nothing_moved(before, after);
        },
    }
}

/// A state with the locks and the activity of one in which locks follow
/// activity is such a state.
pub proof fn lemma_nothing_moved(before: Snapshot, after: Snapshot)
    requires
        locks_follow_activity(before),
        unchanged(before, after),
    ensures
        locks_follow_activity(after),
{
    assert forall|object: ServiceIdView|
        (#[trigger] after.virtual_object_status(object)) is Locked == is_busy(after, object) by {
        assert(before.virtual_object_status(object) is Locked == is_busy(before, object));
        if is_busy(before, object) {
            let id = choose|id: InvocationId| runs_on(before, id, object);
            assert(runs_on(after, id, object));
        }
        if is_busy(after, object) {
            let id = choose|id: InvocationId| runs_on(after, id, object);
            assert(runs_on(before, id, object));
        }
    }
    assert forall|
        first: InvocationId,
        second: InvocationId,
        object: ServiceIdView,
    | #[trigger]
        runs_on(after, first, object) && #[trigger] runs_on(
            after,
            second,
            object,
        ) implies first == second by {
        assert(runs_on(before, first, object) && runs_on(before, second, object));
    }
}

/// Rewriting the status of an invocation that stays on its object keeps
/// locks following activity.
pub proof fn lemma_status_rewritten(
    before: Snapshot,
    after: Snapshot,
    invocation_id: InvocationId,
    object: ServiceIdView,
)
    requires
        locks_follow_activity(before),
        runs_on(before, invocation_id, object),
        rewritten(before, after, invocation_id, object),
    ensures
        locks_follow_activity(after),
{
    assert forall|id: InvocationId, service_id: ServiceIdView|
        #[trigger] runs_on(after, id, service_id) == runs_on(before, id, service_id) by {
        if id == invocation_id {
            if runs_on(after, id, service_id) {
                lemma_runs_on_one_object(after, id, service_id, object);
            }
            if runs_on(before, id, service_id) {
                lemma_runs_on_one_object(before, id, service_id, object);
            }
        }
    }
    lemma_nothing_moved(before, after);
}

/// Starting an invocation on an object that nobody runs on keeps locks
/// following activity.
pub proof fn lemma_one_invocation_moved(
    before: Snapshot,
    after: Snapshot,
    invocation_id: InvocationId,
    object: ServiceIdView,
)
    requires
        locks_follow_activity(before),
        !is_busy(before, object),
        !before.status_of(invocation_id).is_active(),
        runs_on(after, invocation_id, object),
        after.virtual_object_status(object) is Locked,
        same_activity_except(before, after, invocation_id, invocation_id),
        same_locks_except(before, after, object),
    ensures
        locks_follow_activity(after),
{
    assert forall|service_id: ServiceIdView|
        (#[trigger] after.virtual_object_status(service_id)) is Locked == is_busy(
            after,
            service_id,
        ) by {
        if service_id == object {
            assert(runs_on(after, invocation_id, object));
        } else {
            assert(before.virtual_object_status(service_id) is Locked == is_busy(
                before,
                service_id,
            ));
            if is_busy(before, service_id) {
                let id = choose|id: InvocationId| runs_on(before, id, service_id);
                assert(id != invocation_id);
                assert(runs_on(after, id, service_id));
            }
            if is_busy(after, service_id) {
                let id = choose|id: InvocationId| runs_on(after, id, service_id);
                if id == invocation_id {
                    lemma_runs_on_one_object(after, id, service_id, object);
                }
                assert(runs_on(before, id, service_id));
            }
        }
    }
    assert forall|
        first: InvocationId,
        second: InvocationId,
        service_id: ServiceIdView,
    | #[trigger]
        runs_on(after, first, service_id) && #[trigger] runs_on(
            after,
            second,
            service_id,
        ) implies first == second by {
        if first != second {
            if first == invocation_id {
                lemma_runs_on_one_object(after, first, service_id, object);
                assert(runs_on(before, second, object));
            } else if second == invocation_id {
                lemma_runs_on_one_object(after, second, service_id, object);
                assert(runs_on(before, first, object));
            } else {
                assert(runs_on(before, first, service_id) && runs_on(before, second, service_id));
            }
        }
    }
}

/// Ending the invocation that runs on an object, and unlocking the object
/// or passing the lock to an invocation that did not run, keeps locks
/// following activity.
pub proof fn lemma_lock_passed_on(
    before: Snapshot,
    after: Snapshot,
    invocation_id: InvocationId,
    object: ServiceIdView,
)
    requires
        locks_follow_activity(before),
        runs_on(before, invocation_id, object),
        carried_out(
            before,
            EffectView::DropJournalAndPopInbox {
                full_invocation_id: FullInvocationIdView {
                    service_id: object,
                    invocation_uuid: invocation_id.invocation_uuid,
                },
                journal_length: 0,
            },
            after,
        ),
        invocation_id.partition_key == object.partition_key,
    ensures
        locks_follow_activity(after),
{
    let released = after.virtual_object_status(object) is Unlocked && same_activity_except(
        before,
        after,
        invocation_id,
        invocation_id,
    );
    let next = if released {
        invocation_id
    } else {
        choose|next: InvocationId|
            {
                &&& next != invocation_id
                &&& !before.status_of(next).is_active()
                &&& #[trigger] runs_on(after, next, object)
                &&& after.virtual_object_status(object) is Locked
                &&& same_activity_except(before, after, invocation_id, next)
            }
    };
    assert(same_activity_except(before, after, invocation_id, next));
    assert forall|service_id: ServiceIdView|
        (#[trigger] after.virtual_object_status(service_id)) is Locked == is_busy(
            after,
            service_id,
        ) by {
        if service_id == object {
            if released {
                if is_busy(after, object) {
                    let id = choose|id: InvocationId| runs_on(after, id, object);
                    assert(id != invocation_id);
                    assert(runs_on(before, id, object));
                }
            } else {
                assert(runs_on(after, next, object));
            }
        } else {
            assert(before.virtual_object_status(service_id) is Locked == is_busy(
                before,
                service_id,
            ));
            if is_busy(before, service_id) {
                let id = choose|id: InvocationId| runs_on(before, id, service_id);
                if id == invocation_id {
                    lemma_runs_on_one_object(before, id, service_id, object);
                }
                assert(id != next);
                assert(runs_on(after, id, service_id));
            }
            if is_busy(after, service_id) {
                let id = choose|id: InvocationId| runs_on(after, id, service_id);
                assert(id != invocation_id);
                if id == next {
                    lemma_runs_on_one_object(after, id, service_id, object);
                }
                assert(runs_on(before, id, service_id));
            }
        }
    }
    assert forall|
        first: InvocationId,
        second: InvocationId,
        service_id: ServiceIdView,
    | #[trigger]
        runs_on(after, first, service_id) && #[trigger] runs_on(
            after,
            second,
            service_id,
        ) implies first == second by {
        if first != second {
            assert(first != invocation_id && second != invocation_id);
            if first == next {
                lemma_runs_on_one_object(after, first, service_id, object);
                assert(runs_on(before, second, object));
            } else if second == next {
                lemma_runs_on_one_object(after, second, service_id, object);
                assert(runs_on(before, first, object));
            } else {
                assert(runs_on(before, first, service_id) && runs_on(before, second, service_id));
            }
        }
    }
}

/// Whether `after` is what carrying out the effects from position `from`
/// on, in order, makes of the state `before`, as far as locks and activity
/// go.
pub open spec fn carried_out_all(
    before: Snapshot,
    effects: Seq<EffectView>,
    from: int,
    after: Snapshot,
) -> bool
    decreases effects.len() - from,
{
    if 0 <= from < effects.len() {
        exists|between: Snapshot| #[trigger]
            carried_out(before, effects[from], between) && carried_out_all(
                between,
                effects,
                from + 1,
                after,
            )
    } else {
        unchanged(before, after)
    }
}

/// The effects from a position on that move count as the first of them and
/// the rest.
pub proof fn lemma_moved_from_the_front(effects: Seq<EffectView>, from: int)
    requires
        0 <= from < effects.len(),
    ensures
        moved(effects, from) == moved(effects, from + 1) + if moves(effects[from]) {
            1nat
        } else {
            0nat
        },
    decreases effects.len(),
{
    if from + 1 < effects.len() {
        lemma_moved_from_the_front(effects.drop_last(), from);
    } else {
        assert(moved(effects.drop_last(), from) == 0);
    }
}

/// An effect that respects the locks of a state respects those of a state
/// with the same locks and activity.
pub proof fn lemma_respect_carries_over(before: Snapshot, after: Snapshot, effect: EffectView)
    requires
        unchanged(before, after),
        respects_locks(before, effect),
    ensures
        respects_locks(after, effect),
{
    if let EffectView::InvokeService(invocation) = effect {
        let id = invocation.fid.invocation_id();
        assert(after.virtual_object_status(invocation.fid.service_id) is Locked
            == before.virtual_object_status(invocation.fid.service_id) is Locked);
        match after.status_of(id) {
            InvocationStatusView::Invoked(metadata) => {
                assert(runs_on(after, id, metadata.service_id));
            },
            InvocationStatusView::Suspended { metadata, .. } => {
                assert(runs_on(after, id, metadata.service_id));
            },
            _ => {},
        }
    }
}

/// Carrying out effects of which none moves a lock or rewrites a status
/// keeps locks following activity.
pub proof fn lemma_idle_effects_keep_locks_with_activity(
    before: Snapshot,
    effects: Seq<EffectView>,
    from: int,
    after: Snapshot,
)
    requires
        0 <= from,
        locks_follow_activity(before),
        moved(effects, from) == 0,
        carried_out_all(before, effects, from, after),
    ensures
        locks_follow_activity(after),
    decreases effects.len() - from,
{
    if from < effects.len() {
        let between = choose|between: Snapshot| #[trigger]
            carried_out(before, effects[from], between) && carried_out_all(
                between,
                effects,
                from + 1,
                after,
            );
        lemma_moved_from_the_front(effects, from);
        lemma_nothing_moved(before, between);
        lemma_idle_effects_keep_locks_with_activity(between, effects, from + 1, after);
    } else {
        lemma_nothing_moved(before, after);
    }
}

/// Carrying out effects that respect the locks of a state in which locks
/// follow activity, and of which one at most moves a lock or rewrites a
/// status, gives such a state again.
pub proof fn lemma_effects_keep_locks_with_activity(
    before: Snapshot,
    effects: Seq<EffectView>,
    from: int,
    after: Snapshot,
)
    requires
        0 <= from,
        locks_follow_activity(before),
        forall|i: int| from <= i < effects.len() ==> respects_locks(before, #[trigger] effects[i]),
        moved(effects, from) <= 1,
        carried_out_all(before, effects, from, after),
    ensures
        locks_follow_activity(after),
    decreases effects.len() - from,
{
    if from < effects.len() {
        let between = choose|between: Snapshot| #[trigger]
            carried_out(before, effects[from], between) && carried_out_all(
                between,
                effects,
                from + 1,
                after,
            );
        lemma_moved_from_the_front(effects, from);
        lemma_effect_keeps_locks_with_activity(before, effects[from], between);
        if moves(effects[from]) {
            lemma_idle_effects_keep_locks_with_activity(between, effects, from + 1, after);
        } else {
            assert forall|i: int| from + 1 <= i < effects.len() implies respects_locks(
                between,
                #[trigger] effects[i],
            ) by {
                lemma_respect_carries_over(before, between, effects[i]);
            }
            lemma_effects_keep_locks_with_activity(between, effects, from + 1, after);
        }
    } else {
        lemma_nothing_moved(before, after);
    }
}

/// An object lock is held if and only if an invocation runs or is
/// suspended on the object.
///
/// If this holds of the state that a command is applied to, it holds of
/// the state after the effects of the command were carried out, provided
/// the command fits the state and ends an invocation at most once.
pub proof fn law_locks_follow_activity<C: RawEntryCodec, B: ServiceInvoker>(
    machine: Machine,
    snapshot: Snapshot,
    command: CommandView,
    after: Snapshot,
)
    requires
        locks_follow_activity(snapshot),
        fits_the_locks(command, snapshot),
        ends_once(command),
        carried_out_all(
            snapshot,
            machine.on_apply::<C, B>(snapshot, command).machine.effects,
            machine.effects.len() as int,
            after,
        ),
    ensures
        locks_follow_activity(after),
{
    law_effects_respect_the_locks::<C, B>(machine, snapshot, command);
    law_commands_move_one_lock::<C, B>(machine, snapshot, command);
    lemma_effects_keep_locks_with_activity(
        snapshot,
        machine.on_apply::<C, B>(snapshot, command).machine.effects,
        machine.effects.len() as int,
        after,
    );
}

} // verus!
