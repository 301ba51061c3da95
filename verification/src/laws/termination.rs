//! Terminations reach only children that still run.
use crate::effects::EffectView;
use crate::errors::{canceled_invocation_error, InvocationErrorView, killed_invocation_error};
use crate::identifiers::{EntryIndex, FullInvocationIdView, InvocationId, MaybeFullInvocationIdView};
use crate::invocation::{InvocationTerminationView, TerminationFlavor};
use crate::journal::{
    CompletionResultView, CompletionView, EnrichedEntryHeaderView, JournalEntryView, RawEntryCodec,
};
use crate::model::{child_target, is_live_child, Machine};
use crate::state::Snapshot;
use crate::storage::{InvocationMetadataView, InvocationStatusView, OutboxMessageView};
use vstd::prelude::*;

verus! {

/// Whether an effect, if it sends the termination of an invocation, sends
/// it in the given flavor to a child of the invocation `invocation_id`
/// that still runs: to the target of a call entry among the first `length`
/// entries of its journal that has no completion and whose target is known.
pub open spec fn terminates_live_child(
    snapshot: Snapshot,
    invocation_id: InvocationId,
    length: int,
    flavor: TerminationFlavor,
    effect: EffectView,
) -> bool {
    effect matches EffectView::EnqueueIntoOutbox {
        message: OutboxMessageView::InvocationTermination(termination),
        ..
    } ==> exists|i: EntryIndex|
        i < length && is_live_child_at(snapshot, invocation_id, i) && termination == (
        InvocationTerminationView {
            maybe_fid: MaybeFullInvocationIdView::Full(
                child_target(snapshot.journal_entry(invocation_id, i)->Entry_0.header),
            ),
            flavor,
        })
}

/// Whether the journal of `invocation_id` holds, at `index`, a call that
/// still runs and whose target is known.
pub open spec fn is_live_child_at(
    snapshot: Snapshot,
    invocation_id: InvocationId,
    index: EntryIndex,
) -> bool {
    snapshot.journal_entry(invocation_id, index) matches JournalEntryView::Entry(entry)
        && is_live_child(entry.header)
}

impl Machine {
    /// Whether `self` continues `base` and every termination it has sent
    /// since went to a live child of `invocation_id`.
    pub open spec fn terminated_live_children_since(
        self,
        base: Machine,
        snapshot: Snapshot,
        invocation_id: InvocationId,
        length: int,
        flavor: TerminationFlavor,
    ) -> bool {
        &&& self.extends(base)
        &&& forall|i: int|
            base.effects.len() <= i < self.effects.len() ==> terminates_live_child(
                snapshot,
                invocation_id,
                length,
                flavor,
                #[trigger] self.effects[i],
            )
    }
}

/// One more effect that is no termination, or the termination of a live
/// child, keeps all terminations going to live children.
pub proof fn lemma_push_terminates_live_children(
    machine: Machine,
    next: Machine,
    base: Machine,
    snapshot: Snapshot,
    invocation_id: InvocationId,
    length: int,
    flavor: TerminationFlavor,
    effect: EffectView,
)
    requires
        machine.terminated_live_children_since(base, snapshot, invocation_id, length, flavor),
        next.effects == machine.effects.push(effect),
        terminates_live_child(snapshot, invocation_id, length, flavor, effect),
    ensures
        next.terminated_live_children_since(base, snapshot, invocation_id, length, flavor),
{
    assert(next.effects.subrange(0, base.effects.len() as int) == machine.effects.subrange(
        0,
        base.effects.len() as int,
    ));
}

/// Killing the children of an invocation sends terminations to live
/// children only.
pub proof fn lemma_kill_child_invocations_terminate_live_children(
    machine: Machine,
    base: Machine,
    snapshot: Snapshot,
    invocation_id: InvocationId,
    from: int,
    length: int,
)
    requires
        0 <= from,
        length <= u32::MAX,
        machine.terminated_live_children_since(
            base,
            snapshot,
            invocation_id,
            length,
            TerminationFlavor::Kill,
        ),
    ensures
        machine.kill_child_invocations(
            snapshot,
            invocation_id,
            from,
            length,
        ).terminated_live_children_since(
            base,
            snapshot,
            invocation_id,
            length,
            TerminationFlavor::Kill,
        ),
    decreases length - from,
{
    if 0 <= from < length {
        let index = from as EntryIndex;
        let next = match snapshot.journal_entry(invocation_id, index) {
            JournalEntryView::Entry(entry) => if is_live_child(entry.header) {
                machine.handle_outgoing_message(
                    OutboxMessageView::InvocationTermination(
                        InvocationTerminationView::kill(
                            child_target(entry.header),
                        ),
                    ),
                )
            } else {
                machine
            },
            JournalEntryView::Completion(_) => machine,
        };
        if is_live_child_at(snapshot, invocation_id, index) {
            lemma_push_terminates_live_children(
                machine,
                next,
                base,
                snapshot,
                invocation_id,
                length,
                TerminationFlavor::Kill,
                next.effects.last(),
            );
        }
        lemma_kill_child_invocations_terminate_live_children(
            next,
            base,
            snapshot,
            invocation_id,
            from + 1,
            length,
        );
    }
}

/// Cancelling what one journal entry waits for sends a termination to a
/// live child only.
pub proof fn lemma_cancel_journal_leaf_terminates_live_children<C: RawEntryCodec>(
    machine: Machine,
    base: Machine,
    snapshot: Snapshot,
    fid: FullInvocationIdView,
    waiting_for: Option<Set<EntryIndex>>,
    index: EntryIndex,
    length: int,
)
    requires
        index < length,
        machine.terminated_live_children_since(
            base,
            snapshot,
            fid.invocation_id(),
            length,
            TerminationFlavor::Cancel,
        ),
    ensures
        machine.cancel_journal_leaf::<C>(
            fid,
            waiting_for,
            index,
            snapshot.journal_entry(fid.invocation_id(), index),
        ).machine.terminated_live_children_since(
            base,
            snapshot,
            fid.invocation_id(),
            length,
            TerminationFlavor::Cancel,
        ),
{
    let invocation_id = fid.invocation_id();
    let flavor = TerminationFlavor::Cancel;
    let journal_entry = snapshot.journal_entry(invocation_id, index);
    let leaf = machine.cancel_journal_leaf::<C>(fid, waiting_for, index, journal_entry);
    let canceled = CompletionResultView::from_error(
        canceled_invocation_error(),
    );
    let completion = CompletionView { entry_index: index, result: canceled };
    let stored = machine.emit(
        EffectView::StoreCompletion { invocation_id, completion },
    );
    lemma_push_terminates_live_children(
        machine,
        stored,
        base,
        snapshot,
        invocation_id,
        length,
        flavor,
        EffectView::StoreCompletion { invocation_id, completion },
    );
    let forwarded = stored.emit(
        EffectView::ForwardCompletion { full_invocation_id: fid, completion },
    );
    lemma_push_terminates_live_children(
        stored,
        forwarded,
        base,
        snapshot,
        invocation_id,
        length,
        flavor,
        EffectView::ForwardCompletion { full_invocation_id: fid, completion },
    );
    let completed = machine.cancel_journal_entry_with(fid, waiting_for, index, canceled);
    assert(completed == stored || completed == forwarded);
    if let JournalEntryView::Entry(entry) = journal_entry {
        if is_live_child(entry.header) {
            assert(is_live_child_at(snapshot, invocation_id, index));
            lemma_push_terminates_live_children(
                machine,
                leaf.machine,
                base,
                snapshot,
                invocation_id,
                length,
                flavor,
                leaf.machine.effects.last(),
            );
        } else if entry.header matches EnrichedEntryHeaderView::Sleep {
            is_completed,
        } && !is_completed {
            if leaf.result is Ok {
                lemma_push_terminates_live_children(
                    completed,
                    leaf.machine,
                    base,
                    snapshot,
                    invocation_id,
                    length,
                    flavor,
                    leaf.machine.effects.last(),
                );
            }
        }
    }
}

/// Cancelling what a journal waits for sends terminations to live children
/// only.
pub proof fn lemma_cancel_journal_leaves_terminate_live_children<C: RawEntryCodec>(
    machine: Machine,
    base: Machine,
    snapshot: Snapshot,
    fid: FullInvocationIdView,
    waiting_for: Option<Set<EntryIndex>>,
    from: int,
    length: int,
    resume: bool,
)
    requires
        0 <= from,
        length <= u32::MAX,
        machine.terminated_live_children_since(
            base,
            snapshot,
            fid.invocation_id(),
            length,
            TerminationFlavor::Cancel,
        ),
    ensures
        machine.cancel_journal_leaves::<C>(
            snapshot,
            fid,
            waiting_for,
            from,
            length,
            resume,
        ).machine.terminated_live_children_since(
            base,
            snapshot,
            fid.invocation_id(),
            length,
            TerminationFlavor::Cancel,
        ),
    decreases length - from,
{
    if 0 <= from < length {
        let leaf = machine.cancel_journal_leaf::<C>(
            fid,
            waiting_for,
            from as EntryIndex,
            snapshot.journal_entry(fid.invocation_id(), from as EntryIndex),
        );
        lemma_cancel_journal_leaf_terminates_live_children::<C>(
            machine,
            base,
            snapshot,
            fid,
            waiting_for,
            from as EntryIndex,
            length,
        );
        if let Ok(awaited) = leaf.result {
            lemma_cancel_journal_leaves_terminate_live_children::<C>(
                leaf.machine,
                base,
                snapshot,
                fid,
                waiting_for,
                from + 1,
                length,
                resume || awaited,
            );
        }
    }
}

/// Ending an invocation with a failure sends no termination.
pub proof fn lemma_fail_invocation_terminates_nothing(
    machine: Machine,
    base: Machine,
    snapshot: Snapshot,
    invocation_id: InvocationId,
    length: int,
    flavor: TerminationFlavor,
    fid: FullInvocationIdView,
    metadata: InvocationMetadataView,
    error: InvocationErrorView,
)
    requires
        machine.terminated_live_children_since(base, snapshot, invocation_id, length, flavor),
    ensures
        machine.fail_invocation(fid, metadata, error).terminated_live_children_since(
            base,
            snapshot,
            invocation_id,
            length,
            flavor,
        ),
{
    let sent = machine.try_send_failure_response(fid, metadata.response_sink, error);
    if metadata.response_sink is Some {
        lemma_push_terminates_live_children(
            machine,
            sent,
            base,
            snapshot,
            invocation_id,
            length,
            flavor,
            sent.effects.last(),
        );
    }
    let traced = sent.notify_invocation_result(
        fid,
        metadata.method,
        metadata.journal_metadata.span_context,
        Some(metadata.timestamps.creation_time),
        Err((error.code, error.message)),
    );
    lemma_push_terminates_live_children(
        sent,
        traced,
        base,
        snapshot,
        invocation_id,
        length,
        flavor,
        traced.effects.last(),
    );
    let ended = traced.end_invocation_lifecycle(fid, metadata.journal_metadata.length);
    lemma_push_terminates_live_children(
        traced,
        ended,
        base,
        snapshot,
        invocation_id,
        length,
        flavor,
        ended.effects.last(),
    );
}

/// A termination reaches only children that still run.
///
/// When a running or suspended invocation is killed or cancelled, every
/// termination that goes to the outbox is addressed, in the flavor of the
/// command, to the target of a call entry of its journal that has no
/// completion and whose target is known.
pub proof fn law_terminations_reach_live_children_only<C: RawEntryCodec>(
    machine: Machine,
    snapshot: Snapshot,
    termination: InvocationTerminationView,
)
    requires
        snapshot.status_of(termination.maybe_fid.invocation_id()).is_active(),
    ensures
        ({
            let invocation_id = termination.maybe_fid.invocation_id();
            let metadata = match snapshot.status_of(invocation_id) {
                InvocationStatusView::Suspended { metadata, .. } => metadata,
                status => status->Invoked_0,
            };
            let fid = FullInvocationIdView::combine(metadata.service_id, invocation_id);
            machine.try_terminate_invocation::<C>(
                snapshot,
                termination,
            ).machine.terminated_live_children_since(
                machine,
                snapshot,
                fid.invocation_id(),
                metadata.journal_metadata.length as int,
                termination.flavor,
            )
        }),
{
    let invocation_id = termination.maybe_fid.invocation_id();
    let status = snapshot.status_of(invocation_id);
    let (metadata, waiting_for) = match status {
        InvocationStatusView::Suspended { metadata, waiting_for_completed_entries } => (
            metadata,
            Some(waiting_for_completed_entries),
        ),
        status => (status->Invoked_0, None),
    };
    let fid = FullInvocationIdView::combine(metadata.service_id, invocation_id);
    let length = metadata.journal_metadata.length as int;
    assert(machine.effects.subrange(0, machine.effects.len() as int) == machine.effects);
    match termination.flavor {
        TerminationFlavor::Kill => {
            lemma_kill_child_invocations_terminate_live_children(
                machine,
                machine,
                snapshot,
                fid.invocation_id(),
                0,
                length,
            );
            let killed = machine.kill_child_invocations(snapshot, fid.invocation_id(), 0, length);
            lemma_fail_invocation_terminates_nothing(
                killed,
                machine,
                snapshot,
                fid.invocation_id(),
                length,
                TerminationFlavor::Kill,
                fid,
                metadata,
                killed_invocation_error(),
            );
            let failed = killed.fail_invocation(
                fid,
                metadata,
                killed_invocation_error(),
            );
            lemma_push_terminates_live_children(
                failed,
                failed.emit(EffectView::AbortInvocation(fid)),
                machine,
                snapshot,
                fid.invocation_id(),
                length,
                TerminationFlavor::Kill,
                EffectView::AbortInvocation(fid),
            );
        },
        TerminationFlavor::Cancel => {
            lemma_cancel_journal_leaves_terminate_live_children::<C>(
                machine,
                machine,
                snapshot,
                fid,
                waiting_for,
                0,
                length,
                false,
            );
            let walk = machine.cancel_journal_leaves::<C>(
                snapshot,
                fid,
                waiting_for,
                0,
                length,
                false,
            );
            let resumed = EffectView::ResumeService {
                invocation_id: fid.invocation_id(),
                metadata,
            };
            lemma_push_terminates_live_children(
                walk.machine,
                walk.machine.emit(resumed),
                machine,
                snapshot,
                fid.invocation_id(),
                length,
                TerminationFlavor::Cancel,
                resumed,
            );
        },
    }
}

} // verus!
