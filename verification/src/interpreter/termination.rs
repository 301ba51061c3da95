//! Killing and cancelling invocations.
use crate::command::CommandView;
use crate::deterministic::ServiceInvoker;
use crate::effects::Effects;
use crate::errors::{Error, InvocationError, killed_invocation_error};
use crate::identifiers::{
    EntryIndex, FullInvocationId, FullInvocationIdView, InvocationId, MaybeFullInvocationId,
};
use crate::interpreter::{
    applied_view, collecting, CommandInterpreter, lemma_continues_further, lemma_continues_itself,
    lemma_fail_invocation_not_before, lemma_one_more_continues, unexpected,
};
use crate::invocation::{
    InvocationTermination, InvocationTerminationView, SpanRelation, TerminationFlavor,
};
use crate::journal::{
    CodecError, Completion, CompletionResult, EnrichedEntryHeader, Entry, EntryType, JournalEntry,
    JournalEntryView, RawEntryCodec,
};
use crate::laws::numbering::{group_numbering, lemma_numbered_since_itself};
use crate::model::{
    admissible, Applied, cancellable, cancellable_or_completed, cancellable_with_status,
    child_target, is_live_child, journal_cancellable, Machine, Step,
};
use crate::state::{inboxed_view, JournalItem, reads_journal, Snapshot, StateReader};
use crate::storage::{
    InvocationMetadata, InvocationStatus, InvocationStatusView, OutboxMessage, OutboxMessageView,
    SequenceNumberInvocation, TimerKey,
};
use std::collections::HashSet;
use vstd::prelude::*;

verus! {

/// What a cancellation needs to know of the status of an invocation.
pub enum InvocationStatusProjection {
    Invoked,
    Suspended(HashSet<EntryIndex>),
}

impl InvocationStatusProjection {
    /// The entries that a suspended invocation waits for; `None` for a
    /// running one.
    pub open spec fn waiting_for(self) -> Option<Set<EntryIndex>> {
        match self {
            InvocationStatusProjection::Invoked => None,
            InvocationStatusProjection::Suspended(entries) => Some(entries@),
        }
    }
}

/// Where a walk over what was read of a journal has left the machine, and
/// what it returns: a value, or the failure that stopped it.
pub ghost struct Walk<T> {
    pub machine: Machine,
    pub result: Result<T, Error>,
}

/// Whether every entry that was read of a journal is one that a
/// cancellation can deal with.
pub open spec fn items_cancellable(items: Seq<JournalItem>) -> bool {
    forall|i: int|
        0 <= i < items.len() ==> (#[trigger] items[i] matches Ok((_, journal_entry))
            ==> (journal_entry@ matches JournalEntryView::Entry(entry)
            ==> cancellable_or_completed(entry.header)))
}

impl Machine {
    /// Kills the child that a journal entry started, if the entry is a call
    /// that still runs and whose target is known.
    pub open spec fn kill_child(self, journal_entry: JournalEntryView) -> Machine {
        match journal_entry {
            JournalEntryView::Entry(entry) => if is_live_child(entry.header) {
                self.handle_outgoing_message(
                    OutboxMessageView::InvocationTermination(
                        InvocationTerminationView::kill(child_target(entry.header)),
                    ),
                )
            } else {
                self
            },
            JournalEntryView::Completion(_) => self,
        }
    }

    /// Kills the children among what was read of a journal, from position
    /// `from` on, and stops at the first read that failed.
    pub open spec fn kill_children_read(self, items: Seq<JournalItem>, from: int) -> Walk<()>
        decreases items.len() - from,
    {
        if 0 <= from < items.len() {
            match items[from] {
                Ok((_, journal_entry)) => self.kill_child(journal_entry@).kill_children_read(
                    items,
                    from + 1,
                ),
                Err(e) => Walk { machine: self, result: Err(Error::Storage(e)) },
            }
        } else {
            Walk { machine: self, result: Ok(()) }
        }
    }

    /// Cancels what the entries wait for that were read of a journal, from
    /// position `from` on, and stops at the first read that failed and at
    /// the first entry that the codec fails on.
    pub open spec fn cancel_leaves_read<C: RawEntryCodec>(
        self,
        fid: FullInvocationIdView,
        waiting_for: Option<Set<EntryIndex>>,
        items: Seq<JournalItem>,
        from: int,
        resume: bool,
    ) -> Walk<bool>
        decreases items.len() - from,
    {
        if 0 <= from < items.len() {
            match items[from] {
                Ok((journal_index, journal_entry)) => {
                    let leaf = self.cancel_journal_leaf::<C>(
                        fid,
                        waiting_for,
                        journal_index,
                        journal_entry@,
                    );
                    match leaf.result {
                        Ok(awaited) => leaf.machine.cancel_leaves_read::<C>(
                            fid,
                            waiting_for,
                            items,
                            from + 1,
                            resume || awaited,
                        ),
                        Err(e) => Walk { machine: leaf.machine, result: Err(Error::Codec(e)) },
                    }
                },
                Err(e) => Walk { machine: self, result: Err(Error::Storage(e)) },
            }
        } else {
            Walk { machine: self, result: Ok(resume) }
        }
    }
}

impl<Codec: RawEntryCodec, BuiltIns: ServiceInvoker> CommandInterpreter<Codec, BuiltIns> {
    /// Sends a kill message to every child of an invocation that still runs.
    pub fn kill_child_invocations<State: StateReader>(
        &mut self,
        invocation_id: &InvocationId,
        state: &mut State,
        effects: &mut Effects,
        journal_length: EntryIndex,
    ) -> (r: Result<(), Error>)
        requires
            old(self).machine(old(effects)).kill_child_invocations(
                old(state).snapshot(),
                *invocation_id,
                0,
                journal_length as int,
            ).fits(),
        ensures
            final(state).snapshot() == old(state).snapshot(),
            final(self).key_range() == old(self).key_range(),
            match r {
                Ok(()) => final(self).machine(final(effects)) == old(self).machine(
                    old(effects),
                ).kill_child_invocations(
                    old(state).snapshot(),
                    *invocation_id,
                    0,
                    journal_length as int,
                ),
                Err(e) => e is Storage && final(self).machine(final(effects)).continues(
                    old(self).machine(old(effects)),
                ),
            },
            journal_length == 0 ==> r is Ok,
    {
        let journal_entries = state.get_journal(invocation_id, journal_length);
        proof {
            lemma_kill_children_read_agrees(
                self.machine(effects),
                state.snapshot(),
                *invocation_id,
                journal_entries@,
                0,
                journal_length,
            );
            lemma_kill_children_read_continues(self.machine(effects), journal_entries@, 0);
        }
        self.kill_children_read(journal_entries, effects)
    }

    /// Sends a kill message to every child that still runs among the
    /// entries that were read of a journal, up to the first read that
    /// failed, and fails with the error of that read.
    pub fn kill_children_read(
        &mut self,
        journal_entries: Vec<JournalItem>,
        effects: &mut Effects,
    ) -> (r: Result<(), Error>)
        requires
            old(self).machine(old(effects)).kill_children_read(journal_entries@, 0).machine.fits(),
        ensures
            final(self).stands_at(
                final(effects),
                old(self),
                old(self).machine(old(effects)).kill_children_read(journal_entries@, 0).machine,
            ),
            r == old(self).machine(old(effects)).kill_children_read(journal_entries@, 0).result,
    {
        let ghost goal = old(self).machine(old(effects)).kill_children_read(journal_entries@, 0);
        for journal_entry in iter: journal_entries
            invariant
                iter.seq() == journal_entries@,
                self.key_range() == old(self).key_range(),
                self.machine(effects).kill_children_read(journal_entries@, iter.index()) == goal,
                goal == old(self).machine(old(effects)).kill_children_read(journal_entries@, 0),
                goal.machine.fits(),
        {
            let ghost at = iter.index();
            let ghost before = self.machine(effects);
            let (_, journal_entry) = match journal_entry {
                Ok(entry) => entry,
                Err(e) => {
                    return Err(Error::Storage(e));
                },
            };
            proof {
                lemma_kill_children_read_not_before(
                    before.kill_child(journal_entry@),
                    journal_entries@,
                    at + 1,
                );
            }
            if let JournalEntry::Entry(enriched_entry) = journal_entry {
                let (h, _) = enriched_entry.into_inner();
                match h {
                    EnrichedEntryHeader::Invoke {
                        is_completed,
                        enrichment_result: Some(enrichment_result),
                    } => {
                        if !is_completed {
                            let target_fid = FullInvocationId::with_partition_key(
                                enrichment_result.partition_key,
                                enrichment_result.service_name,
                                enrichment_result.service_key,
                                enrichment_result.invocation_uuid,
                            );
                            self.handle_outgoing_message(
                                OutboxMessage::InvocationTermination(
                                    InvocationTermination::kill(target_fid),
                                ),
                                effects,
                            );
                        }
                    },
                    _ => {},
                }
            }
        }
        Ok(())
    }

    /// Kills a running or suspended invocation and its children.
    pub fn kill_invocation<State: StateReader>(
        &mut self,
        full_invocation_id: FullInvocationId,
        metadata: InvocationMetadata,
        state: &mut State,
        effects: &mut Effects,
    ) -> (r: Result<(), Error>)
        requires
            old(self).machine(old(effects)).kill_invocation(
                old(state).snapshot(),
                full_invocation_id@,
                metadata@,
            ).fits(),
        ensures
            final(state).snapshot() == old(state).snapshot(),
            final(self).key_range() == old(self).key_range(),
            match r {
                Ok(()) => final(self).machine(final(effects)) == old(self).machine(
                    old(effects),
                ).kill_invocation(old(state).snapshot(), full_invocation_id@, metadata@),
                Err(e) => e is Storage && final(self).machine(final(effects)).continues(
                    old(self).machine(old(effects)),
                ),
            },
            metadata.journal_metadata.length == 0 ==> r is Ok,
    {
        proof {
            lemma_fail_invocation_not_before(
                old(self).machine(old(effects)).kill_child_invocations(
                    old(state).snapshot(),
                    full_invocation_id@.invocation_id(),
                    0,
                    metadata.journal_metadata.length as int,
                ),
                full_invocation_id@,
                metadata@,
                killed_invocation_error(),
            );
            lemma_kill_child_invocations_not_before(
                old(self).machine(old(effects)),
                old(state).snapshot(),
                full_invocation_id@.invocation_id(),
                0,
                metadata.journal_metadata.length as int,
            );
        }
        self.kill_child_invocations(
            &full_invocation_id.invocation_id(),
            state,
            effects,
            metadata.journal_metadata.length,
        )?;
        self.fail_invocation(
            effects,
            full_invocation_id.clone(),
            metadata,
            InvocationError::killed(),
        );
        effects.abort_invocation(full_invocation_id);
        Ok(())
    }

    /// Removes an invocation from the inbox and tells whoever waits for it
    /// that it failed with `error`.
    pub fn terminate_inboxed_invocation(
        &mut self,
        inbox_entry: SequenceNumberInvocation,
        error: InvocationError,
        effects: &mut Effects,
    ) -> (r: (Option<FullInvocationId>, SpanRelation))
        requires
            old(self).machine(old(effects)).terminate_inboxed_invocation(
                inbox_entry@,
                error@,
            ).machine.fits(),
        ensures
            final(self).stands_at(
                final(effects),
                old(self),
                old(self).machine(old(effects)).terminate_inboxed_invocation(
                    inbox_entry@,
                    error@,
                ).machine,
            ),
            old(self).machine(old(effects)).terminate_inboxed_invocation(
                inbox_entry@,
                error@,
            ).result == Ok::<Applied, CodecError>(applied_view(r)),
    {
        let service_invocation = inbox_entry.invocation;
        let fid = service_invocation.fid;
        let span_context = service_invocation.span_context;
        let parent_span = span_context.as_parent();
        self.try_send_failure_response(effects, &fid, service_invocation.response_sink, &error);
        self.notify_invocation_result(
            &fid,
            service_invocation.method_name,
            span_context,
            None,
            Err((error.code(), error.message)),
            effects,
        );
        effects.delete_inbox_entry(fid.service_id.clone(), inbox_entry.inbox_sequence_number);
        (Some(fid), parent_span)
    }

    /// Ends an invocation that neither runs nor is suspended.
    pub fn try_terminate_inboxed_invocation<State: StateReader>(
        &mut self,
        termination_flavor: TerminationFlavor,
        maybe_fid: MaybeFullInvocationId,
        state: &mut State,
        effects: &mut Effects,
    ) -> (r: Result<(Option<FullInvocationId>, SpanRelation), Error>)
        requires
            old(self).machine(old(effects)).try_terminate_inboxed_invocation(
                old(state).snapshot(),
                termination_flavor,
                maybe_fid@,
            ).machine.fits(),
        ensures
            final(state).snapshot() == old(state).snapshot(),
            final(self).follows_applied(
                final(effects),
                old(self),
                old(self).machine(old(effects)),
                r,
                old(self).machine(old(effects)).try_terminate_inboxed_invocation(
                    old(state).snapshot(),
                    termination_flavor,
                    maybe_fid@,
                ),
            ),
            r matches Err(e) ==> e is Storage && final(self).machine(final(effects)) == old(
                self,
            ).machine(old(effects)),
    {
        let inbox_entry = match state.get_inboxed_invocation(maybe_fid.clone()) {
            Ok(entry) => entry,
            Err(e) => {
                proof {
                    lemma_continues_itself(self.machine(effects));
                }
                return Err(Error::Storage(e));
            },
        };
        Ok(self.terminate_inboxed_with_entry(termination_flavor, maybe_fid, inbox_entry, effects))
    }

    /// Ends an invocation that neither runs nor is suspended, given what
    /// the inbox holds of it: it is removed from the inbox if it waits
    /// there; if not, the invoker is told to drop it where its full
    /// identifier is at hand, and nothing happens where it is not.
    pub fn terminate_inboxed_with_entry(
        &mut self,
        termination_flavor: TerminationFlavor,
        maybe_fid: MaybeFullInvocationId,
        inbox_entry: Option<SequenceNumberInvocation>,
        effects: &mut Effects,
    ) -> (r: (Option<FullInvocationId>, SpanRelation))
        requires
            old(self).machine(old(effects)).terminate_inboxed_with_entry(
                termination_flavor,
                maybe_fid@,
                inboxed_view(inbox_entry),
            ).machine.fits(),
        ensures
            final(self).stands_at(
                final(effects),
                old(self),
                old(self).machine(old(effects)).terminate_inboxed_with_entry(
                    termination_flavor,
                    maybe_fid@,
                    inboxed_view(inbox_entry),
                ).machine,
            ),
            old(self).machine(old(effects)).terminate_inboxed_with_entry(
                termination_flavor,
                maybe_fid@,
                inboxed_view(inbox_entry),
            ).result == Ok::<Applied, CodecError>(applied_view(r)),
    {
        let error = match termination_flavor {
            TerminationFlavor::Kill => InvocationError::killed(),
            TerminationFlavor::Cancel => InvocationError::canceled(),
        };
        if let Some(inbox_entry) = inbox_entry {
            self.terminate_inboxed_invocation(inbox_entry, error, effects)
        } else {
            if let MaybeFullInvocationId::Full(fid) = maybe_fid {
                effects.abort_invocation(fid.clone());
                (Some(fid), SpanRelation::Unrelated)
            } else {
                (None, SpanRelation::Unrelated)
            }
        }
    }

    /// Kills an invocation, wherever it stands.
    pub fn try_kill_invocation<State: StateReader>(
        &mut self,
        maybe_fid: MaybeFullInvocationId,
        state: &mut State,
        effects: &mut Effects,
    ) -> (r: Result<(Option<FullInvocationId>, SpanRelation), Error>)
        requires
            old(self).machine(old(effects)).try_kill_invocation(
                old(state).snapshot(),
                maybe_fid@,
            ).machine.fits(),
        ensures
            final(state).snapshot() == old(state).snapshot(),
            final(self).follows_applied(
                final(effects),
                old(self),
                old(self).machine(old(effects)),
                r,
                old(self).machine(old(effects)).try_kill_invocation(
                    old(state).snapshot(),
                    maybe_fid@,
                ),
            ),
            r matches Err(e) ==> e is Storage,
    {
        let status = match state.get_invocation_status(&maybe_fid.invocation_id()) {
            Ok(status) => status,
            Err(e) => {
                proof {
                    lemma_continues_itself(self.machine(effects));
                }
                return Err(Error::Storage(e));
            },
        };
        self.kill_with_status(maybe_fid, status, state, effects)
    }

    /// Kills an invocation of the given status: with its children if it
    /// runs or is suspended, and out of the inbox if not.
    pub fn kill_with_status<State: StateReader>(
        &mut self,
        maybe_fid: MaybeFullInvocationId,
        status: InvocationStatus,
        state: &mut State,
        effects: &mut Effects,
    ) -> (r: Result<(Option<FullInvocationId>, SpanRelation), Error>)
        requires
            old(self).machine(old(effects)).kill_with_status(
                old(state).snapshot(),
                maybe_fid@,
                status@,
            ).machine.fits(),
        ensures
            final(state).snapshot() == old(state).snapshot(),
            final(self).follows_applied(
                final(effects),
                old(self),
                old(self).machine(old(effects)),
                r,
                old(self).machine(old(effects)).kill_with_status(
                    old(state).snapshot(),
                    maybe_fid@,
                    status@,
                ),
            ),
            r matches Err(e) ==> e is Storage,
            status@ matches InvocationStatusView::Invoked(metadata) ==> metadata.journal_metadata.length == 0 ==> r
    is Ok,
            status@ matches InvocationStatusView::Suspended { metadata, .. }
    ==> metadata.journal_metadata.length == 0 ==> r is Ok,
    {
        let invocation_id = maybe_fid.invocation_id();
        match status {
            InvocationStatus::Invoked(metadata) => {
                let related_span = metadata.journal_metadata.span_context.as_parent();
                let fid = FullInvocationId::combine(metadata.service_id.clone(), invocation_id);
                self.kill_invocation(fid.clone(), metadata, state, effects)?;
                Ok((Some(fid), related_span))
            },
            InvocationStatus::Suspended { metadata, .. } => {
                let related_span = metadata.journal_metadata.span_context.as_parent();
                let fid = FullInvocationId::combine(metadata.service_id.clone(), invocation_id);
                self.kill_invocation(fid.clone(), metadata, state, effects)?;
                Ok((Some(fid), related_span))
            },
            _ => self.try_terminate_inboxed_invocation(
                TerminationFlavor::Kill,
                maybe_fid,
                state,
                effects,
            ),
        }
    }

    /// Completes one journal entry of an invocation that is being cancelled.
    /// The result says whether a suspended invocation waits for the entry.
    pub fn cancel_journal_entry_with(
        full_invocation_id: FullInvocationId,
        invocation_status: &InvocationStatusProjection,
        effects: &mut Effects,
        journal_index: EntryIndex,
        canceled_result: CompletionResult,
    ) -> (r: bool)
        ensures
            final(effects)@ == collecting(old(effects)@).cancel_journal_entry_with(
                full_invocation_id@,
                invocation_status.waiting_for(),
                journal_index,
                canceled_result@,
            ).effects,
            r == (invocation_status.waiting_for() matches Some(entries) && entries.contains(
                journal_index,
            )),
    {
        match invocation_status {
            InvocationStatusProjection::Invoked => {
                Self::handle_completion_for_invoked(
                    full_invocation_id,
                    Completion::new(journal_index, canceled_result),
                    effects,
                );
                false
            },
            InvocationStatusProjection::Suspended(waiting_for_completed_entry) => {
                Self::handle_completion_for_suspended(
                    full_invocation_id,
                    Completion::new(journal_index, canceled_result),
                    waiting_for_completed_entry,
                    effects,
                )
            },
        }
    }

    /// Cancels what one journal entry waits for.
    pub fn cancel_journal_leaf(
        &mut self,
        full_invocation_id: &FullInvocationId,
        invocation_status: &InvocationStatusProjection,
        journal_index: EntryIndex,
        journal_entry: JournalEntry,
        effects: &mut Effects,
    ) -> (r: Result<bool, Error>)
        requires
            journal_entry@ matches JournalEntryView::Entry(entry)
                ==> cancellable_or_completed(entry.header),
            old(self).machine(old(effects)).cancel_journal_leaf::<Codec>(
                full_invocation_id@,
                invocation_status.waiting_for(),
                journal_index,
                journal_entry@,
            ).machine.fits(),
        ensures
            final(self).follows(
                final(effects),
                old(self),
                old(self).machine(old(effects)),
                r,
                (|awaited: bool| awaited),
                old(self).machine(old(effects)).cancel_journal_leaf::<Codec>(
                    full_invocation_id@,
                    invocation_status.waiting_for(),
                    journal_index,
                    journal_entry@,
                ),
            ),
            r matches Err(e) ==> e is Codec,
    {
        let journal_entry = match journal_entry {
            JournalEntry::Entry(journal_entry) => journal_entry,
            JournalEntry::Completion(_) => {
                return Ok(false);
            },
        };
        let (header, entry) = journal_entry.into_inner();
        match header {
            EnrichedEntryHeader::Invoke {
                is_completed,
                enrichment_result: Some(enrichment_result),
            } => {
                if !is_completed {
                    let target_fid = FullInvocationId::with_partition_key(
                        enrichment_result.partition_key,
                        enrichment_result.service_name,
                        enrichment_result.service_key,
                        enrichment_result.invocation_uuid,
                    );
                    self.handle_outgoing_message(
                        OutboxMessage::InvocationTermination(
                            InvocationTermination::cancel(target_fid),
                        ),
                        effects,
                    );
                }
                Ok(false)
            },
            EnrichedEntryHeader::Awakeable { is_completed } => {
                if !is_completed {
                    Ok(
                        Self::cancel_journal_entry_with(
                            full_invocation_id.clone(),
                            invocation_status,
                            effects,
                            journal_index,
                            CompletionResult::from_error(&InvocationError::canceled()),
                        ),
                    )
                } else {
                    Ok(false)
                }
            },
            EnrichedEntryHeader::GetState { is_completed } => {
                if !is_completed {
                    Ok(
                        Self::cancel_journal_entry_with(
                            full_invocation_id.clone(),
                            invocation_status,
                            effects,
                            journal_index,
                            CompletionResult::from_error(&InvocationError::canceled()),
                        ),
                    )
                } else {
                    Ok(false)
                }
            },
            EnrichedEntryHeader::Sleep { is_completed } => {
                if !is_completed {
                    let awaited = Self::cancel_journal_entry_with(
                        full_invocation_id.clone(),
                        invocation_status,
                        effects,
                        journal_index,
                        CompletionResult::from_error(&InvocationError::canceled()),
                    );
                    let wake_up_time = match Codec::deserialize(EntryType::Sleep, &entry) {
                        Ok(Entry::Sleep { wake_up_time }) => wake_up_time,
                        Ok(_) => {
                            return Err(unexpected(EntryType::Sleep));
                        },
                        Err(e) => {
                            return Err(Error::Codec(e));
                        },
                    };
                    let timer_key = TimerKey {
                        invocation_uuid: full_invocation_id.invocation_uuid,
                        journal_index,
                        timestamp: wake_up_time,
                    };
                    effects.delete_timer(timer_key);
                    Ok(awaited)
                } else {
                    Ok(false)
                }
            },
            _ => Ok(false),
        }
    }

    /// Walks the journal of an invocation that is being cancelled and
    /// completes, with the error of a cancelled invocation, whatever it
    /// still waits for. The result says whether the invocation is to be
    /// resumed.
    pub fn cancel_journal_leaves<State: StateReader>(
        &mut self,
        full_invocation_id: FullInvocationId,
        invocation_status: InvocationStatusProjection,
        journal_length: EntryIndex,
        state: &mut State,
        effects: &mut Effects,
    ) -> (r: Result<bool, Error>)
        requires
            journal_cancellable(
                old(state).snapshot(),
                full_invocation_id@.invocation_id(),
                journal_length,
            ),
            old(self).machine(old(effects)).cancel_journal_leaves::<Codec>(
                old(state).snapshot(),
                full_invocation_id@,
                invocation_status.waiting_for(),
                0,
                journal_length as int,
                false,
            ).machine.fits(),
        ensures
            final(state).snapshot() == old(state).snapshot(),
            final(self).follows(
                final(effects),
                old(self),
                old(self).machine(old(effects)),
                r,
                (|resume: bool| resume),
                old(self).machine(old(effects)).cancel_journal_leaves::<Codec>(
                    old(state).snapshot(),
                    full_invocation_id@,
                    invocation_status.waiting_for(),
                    0,
                    journal_length as int,
                    false,
                ),
            ),
            journal_length == 0 ==> r is Ok,
    {
        let invocation_id = full_invocation_id.invocation_id();
        let journal = state.get_journal(&invocation_id, journal_length);
        proof {
            lemma_cancel_leaves_read_agrees::<Codec>(
                self.machine(effects),
                state.snapshot(),
                full_invocation_id@,
                invocation_status.waiting_for(),
                journal@,
                0,
                journal_length,
                false,
            );
            lemma_cancel_leaves_read_continues::<Codec>(
                self.machine(effects),
                full_invocation_id@,
                invocation_status.waiting_for(),
                journal@,
                0,
                false,
            );
            assert(items_cancellable(journal@));
        }
        self.cancel_leaves_read(full_invocation_id, invocation_status, journal, effects)
    }

    /// Cancels what the entries wait for that were read of the journal of
    /// an invocation, in order. It stops at the first read that failed and
    /// at the first entry that the codec fails on, and fails with that
    /// error; else the result says whether the invocation is to be resumed.
    pub fn cancel_leaves_read(
        &mut self,
        full_invocation_id: FullInvocationId,
        invocation_status: InvocationStatusProjection,
        journal: Vec<JournalItem>,
        effects: &mut Effects,
    ) -> (r: Result<bool, Error>)
        requires
            items_cancellable(journal@),
            old(self).machine(old(effects)).cancel_leaves_read::<Codec>(
                full_invocation_id@,
                invocation_status.waiting_for(),
                journal@,
                0,
                false,
            ).machine.fits(),
        ensures
            final(self).stands_at(
                final(effects),
                old(self),
                old(self).machine(old(effects)).cancel_leaves_read::<Codec>(
                    full_invocation_id@,
                    invocation_status.waiting_for(),
                    journal@,
                    0,
                    false,
                ).machine,
            ),
            r == old(self).machine(old(effects)).cancel_leaves_read::<Codec>(
                full_invocation_id@,
                invocation_status.waiting_for(),
                journal@,
                0,
                false,
            ).result,
    {
        let ghost waiting_for = invocation_status.waiting_for();
        let ghost goal = old(self).machine(old(effects)).cancel_leaves_read::<Codec>(
            full_invocation_id@,
            waiting_for,
            journal@,
            0,
            false,
        );
        let mut resume_invocation = false;
        for journal_entry in iter: journal
            invariant
                iter.seq() == journal@,
                items_cancellable(journal@),
                waiting_for == invocation_status.waiting_for(),
                self.key_range() == old(self).key_range(),
                self.machine(effects).cancel_leaves_read::<Codec>(
                    full_invocation_id@,
                    waiting_for,
                    journal@,
                    iter.index(),
                    resume_invocation,
                ) == goal,
                goal == old(self).machine(old(effects)).cancel_leaves_read::<Codec>(
                    full_invocation_id@,
                    invocation_status.waiting_for(),
                    journal@,
                    0,
                    false,
                ),
                goal.machine.fits(),
        {
            let ghost at = iter.index();
            let ghost before = self.machine(effects);
            let (journal_index, journal_entry) = match journal_entry {
                Ok(entry) => entry,
                Err(e) => {
                    return Err(Error::Storage(e));
                },
            };
            assert(journal@[at] matches Ok((index, entry)) && index == journal_index && entry
                == journal_entry);
            proof {
                let leaf = before.cancel_journal_leaf::<Codec>(
                    full_invocation_id@,
                    waiting_for,
                    journal_index,
                    journal_entry@,
                );
                if leaf.result is Ok {
                    lemma_cancel_leaves_read_not_before::<Codec>(
                        leaf.machine,
                        full_invocation_id@,
                        waiting_for,
                        journal@,
                        at + 1,
                        resume_invocation || leaf.result->Ok_0,
                    );
                }
            }
            let awaited = self.cancel_journal_leaf(
                &full_invocation_id,
                &invocation_status,
                journal_index,
                journal_entry,
                effects,
            )?;
            resume_invocation = resume_invocation || awaited;
        }
        Ok(resume_invocation)
    }

    /// Cancels an invocation, wherever it stands.
    pub fn try_cancel_invocation<State: StateReader>(
        &mut self,
        maybe_fid: MaybeFullInvocationId,
        state: &mut State,
        effects: &mut Effects,
    ) -> (r: Result<(Option<FullInvocationId>, SpanRelation), Error>)
        requires
            cancellable(old(state).snapshot(), maybe_fid@),
            old(self).machine(old(effects)).try_cancel_invocation::<Codec>(
                old(state).snapshot(),
                maybe_fid@,
            ).machine.fits(),
        ensures
            final(state).snapshot() == old(state).snapshot(),
            final(self).follows_applied(
                final(effects),
                old(self),
                old(self).machine(old(effects)),
                r,
                old(self).machine(old(effects)).try_cancel_invocation::<Codec>(
                    old(state).snapshot(),
                    maybe_fid@,
                ),
            ),
    {
        let status = match state.get_invocation_status(&maybe_fid.invocation_id()) {
            Ok(status) => status,
            Err(e) => {
                proof {
                    lemma_continues_itself(self.machine(effects));
                }
                return Err(Error::Storage(e));
            },
        };
        self.cancel_with_status(maybe_fid, status, state, effects)
    }

    /// Cancels an invocation of the given status: what its journal waits
    /// for if it runs or is suspended, and out of the inbox if not.
    pub fn cancel_with_status<State: StateReader>(
        &mut self,
        maybe_fid: MaybeFullInvocationId,
        status: InvocationStatus,
        state: &mut State,
        effects: &mut Effects,
    ) -> (r: Result<(Option<FullInvocationId>, SpanRelation), Error>)
        requires
            cancellable_with_status(old(state).snapshot(), maybe_fid@, status@),
            old(self).machine(old(effects)).cancel_with_status::<Codec>(
                old(state).snapshot(),
                maybe_fid@,
                status@,
            ).machine.fits(),
        ensures
            final(state).snapshot() == old(state).snapshot(),
            final(self).follows_applied(
                final(effects),
                old(self),
                old(self).machine(old(effects)),
                r,
                old(self).machine(old(effects)).cancel_with_status::<Codec>(
                    old(state).snapshot(),
                    maybe_fid@,
                    status@,
                ),
            ),
            !status@.is_active() ==> (r matches Err(e) ==> e is Storage),
            status@ matches InvocationStatusView::Invoked(metadata) ==> metadata.journal_metadata.length == 0 ==> r
    is Ok,
            status@ matches InvocationStatusView::Suspended { metadata, .. }
    ==> metadata.journal_metadata.length == 0 ==> r is Ok,
    {
        let invocation_id = maybe_fid.invocation_id();
        match status {
            InvocationStatus::Invoked(metadata) => {
                let related_span = metadata.journal_metadata.span_context.as_parent();
                let fid = FullInvocationId::combine(metadata.service_id.clone(), invocation_id);
                self.cancel_journal_leaves(
                    fid.clone(),
                    InvocationStatusProjection::Invoked,
                    metadata.journal_metadata.length,
                    state,
                    effects,
                )?;
                Ok((Some(fid), related_span))
            },
            InvocationStatus::Suspended { metadata, waiting_for_completed_entries } => {
                let related_span = metadata.journal_metadata.span_context.as_parent();
                let fid = FullInvocationId::combine(metadata.service_id.clone(), invocation_id);
                if self.cancel_journal_leaves(
                    fid.clone(),
                    InvocationStatusProjection::Suspended(waiting_for_completed_entries),
                    metadata.journal_metadata.length,
                    state,
                    effects,
                )? {
                    effects.resume_service(fid.invocation_id(), metadata);
                }
                Ok((Some(fid), related_span))
            },
            _ => self.try_terminate_inboxed_invocation(
                TerminationFlavor::Cancel,
                maybe_fid,
                state,
                effects,
            ),
        }
    }

    /// Kills or cancels an invocation.
    pub fn try_terminate_invocation<State: StateReader>(
        &mut self,
        invocation_termination: InvocationTermination,
        state: &mut State,
        effects: &mut Effects,
    ) -> (r: Result<(Option<FullInvocationId>, SpanRelation), Error>)
        requires
            admissible(
                CommandView::TerminateInvocation(invocation_termination@),
                old(state).snapshot(),
                old(self).key_range(),
            ),
            old(self).machine(old(effects)).try_terminate_invocation::<Codec>(
                old(state).snapshot(),
                invocation_termination@,
            ).machine.fits(),
        ensures
            final(state).snapshot() == old(state).snapshot(),
            final(self).follows_applied(
                final(effects),
                old(self),
                old(self).machine(old(effects)),
                r,
                old(self).machine(old(effects)).try_terminate_invocation::<Codec>(
                    old(state).snapshot(),
                    invocation_termination@,
                ),
            ),
    {
        let InvocationTermination { maybe_fid, flavor } = invocation_termination;
        match flavor {
            TerminationFlavor::Kill => self.try_kill_invocation(maybe_fid, state, effects),
            TerminationFlavor::Cancel => self.try_cancel_invocation(
                maybe_fid,
                state,
                effects,
            ),
        }
    }
}

/// Killing the children among what was read of a journal never takes a
/// sequence number back.
pub proof fn lemma_kill_children_read_not_before(
    machine: Machine,
    items: Seq<JournalItem>,
    from: int,
)
    ensures
        machine.kill_children_read(items, from).machine.not_before(machine),
    decreases items.len() - from,
{
    if 0 <= from < items.len() {
        if let Ok((_, journal_entry)) = items[from] {
            lemma_kill_children_read_not_before(
                machine.kill_child(journal_entry@),
                items,
                from + 1,
            );
        }
    }
}

/// Killing the children among what was read of a journal keeps the effects
/// that were there.
pub proof fn lemma_kill_children_read_continues(
    machine: Machine,
    items: Seq<JournalItem>,
    from: int,
)
    ensures
        machine.kill_children_read(items, from).machine.continues(machine),
    decreases items.len() - from,
{
    lemma_continues_itself(machine);
    if 0 <= from < items.len() {
        if let Ok((_, journal_entry)) = items[from] {
            let next = machine.kill_child(journal_entry@);
            if next != machine {
                lemma_one_more_continues(machine, next.effects.last(), next);
            }
            lemma_kill_children_read_continues(next, items, from + 1);
            lemma_continues_further(
                machine,
                next,
                machine.kill_children_read(items, from).machine,
            );
        }
    }
}

/// Killing the children among what was read of a journal is killing the
/// children of the journal, as far as the reads went: if no read failed,
/// the two agree; if one failed, the walk has stopped on the way.
pub proof fn lemma_kill_children_read_agrees(
    machine: Machine,
    snapshot: Snapshot,
    invocation_id: InvocationId,
    items: Seq<JournalItem>,
    from: int,
    length: EntryIndex,
)
    requires
        reads_journal(items, snapshot, invocation_id, length),
        0 <= from <= items.len(),
        forall|j: int| 0 <= j < from ==> (#[trigger] items[j]) is Ok,
    ensures
        ({
            let read = machine.kill_children_read(items, from);
            let whole = machine.kill_child_invocations(
                snapshot,
                invocation_id,
                from,
                length as int,
            );
            &&& whole.not_before(read.machine)
            &&& read.result is Ok ==> read.machine == whole
            &&& read.result matches Err(e) ==> e is Storage
        }),
    decreases items.len() - from,
{
    if from < items.len() {
        match items[from] {
            Ok((index, journal_entry)) => {
                assert(index == from && journal_entry@ == snapshot.journal_entry(
                    invocation_id,
                    from as EntryIndex,
                ));
                lemma_kill_children_read_agrees(
                    machine.kill_child(journal_entry@),
                    snapshot,
                    invocation_id,
                    items,
                    from + 1,
                    length,
                );
            },
            Err(_) => {
                lemma_kill_child_invocations_not_before(
                    machine,
                    snapshot,
                    invocation_id,
                    from,
                    length as int,
                );
            },
        }
    } else {
        if items.len() < length {
            assert(items[items.len() - 1] is Ok);
        }
    }
}

/// Cancelling what the entries wait for that were read of a journal never
/// takes a sequence number back.
pub proof fn lemma_cancel_leaves_read_not_before<C: RawEntryCodec>(
    machine: Machine,
    fid: FullInvocationIdView,
    waiting_for: Option<Set<EntryIndex>>,
    items: Seq<JournalItem>,
    from: int,
    resume: bool,
)
    ensures
        machine.cancel_leaves_read::<C>(fid, waiting_for, items, from, resume).machine.not_before(
            machine,
        ),
    decreases items.len() - from,
{
    if 0 <= from < items.len() {
        if let Ok((journal_index, journal_entry)) = items[from] {
            let leaf = machine.cancel_journal_leaf::<C>(
                fid,
                waiting_for,
                journal_index,
                journal_entry@,
            );
            if let Ok(awaited) = leaf.result {
                lemma_cancel_leaves_read_not_before::<C>(
                    leaf.machine,
                    fid,
                    waiting_for,
                    items,
                    from + 1,
                    resume || awaited,
                );
            }
        }
    }
}

/// Cancelling what the entries wait for that were read of a journal keeps
/// the effects that were there.
pub proof fn lemma_cancel_leaves_read_continues<C: RawEntryCodec>(
    machine: Machine,
    fid: FullInvocationIdView,
    waiting_for: Option<Set<EntryIndex>>,
    items: Seq<JournalItem>,
    from: int,
    resume: bool,
)
    ensures
        machine.cancel_leaves_read::<C>(fid, waiting_for, items, from, resume).machine.continues(
            machine,
        ),
    decreases items.len() - from,
{
    broadcast use group_numbering;

    lemma_continues_itself(machine);
    lemma_numbered_since_itself(machine);
    if 0 <= from < items.len() {
        if let Ok((journal_index, journal_entry)) = items[from] {
            let leaf = machine.cancel_journal_leaf::<C>(
                fid,
                waiting_for,
                journal_index,
                journal_entry@,
            );
            assert(leaf.machine.numbered_since(machine));
            assert(leaf.machine.continues(machine));
            if let Ok(awaited) = leaf.result {
                lemma_cancel_leaves_read_continues::<C>(
                    leaf.machine,
                    fid,
                    waiting_for,
                    items,
                    from + 1,
                    resume || awaited,
                );
                lemma_continues_further(
                    machine,
                    leaf.machine,
                    machine.cancel_leaves_read::<C>(fid, waiting_for, items, from, resume).machine,
                );
            }
        }
    }
}

/// Cancelling what the entries wait for that were read of a journal is
/// cancelling what the journal waits for, as far as the reads went: unless
/// a read failed, the two agree; if one failed, the walk has stopped on the
/// way.
pub proof fn lemma_cancel_leaves_read_agrees<C: RawEntryCodec>(
    machine: Machine,
    snapshot: Snapshot,
    fid: FullInvocationIdView,
    waiting_for: Option<Set<EntryIndex>>,
    items: Seq<JournalItem>,
    from: int,
    length: EntryIndex,
    resume: bool,
)
    requires
        reads_journal(items, snapshot, fid.invocation_id(), length),
        journal_cancellable(snapshot, fid.invocation_id(), length),
        0 <= from <= items.len(),
        forall|j: int| 0 <= j < from ==> (#[trigger] items[j]) is Ok,
    ensures
        items_cancellable(items),
        ({
            let read = machine.cancel_leaves_read::<C>(fid, waiting_for, items, from, resume);
            let whole = machine.cancel_journal_leaves::<C>(
                snapshot,
                fid,
                waiting_for,
                from,
                length as int,
                resume,
            );
            match read.result {
                Ok(resumed) => whole == (Step { machine: read.machine, result: Ok(resumed) }),
                Err(Error::Codec(e)) => whole == (Step::<bool> { machine: read.machine, result: Err(e) }),
                Err(Error::Storage(_)) => whole.machine.not_before(read.machine),
            }
        }),
    decreases items.len() - from,
{
    assert forall|i: int| 0 <= i < items.len() implies (#[trigger] items[i] matches Ok(
        (_, journal_entry),
    ) ==> (journal_entry@ matches JournalEntryView::Entry(entry) ==> cancellable_or_completed(
        entry.header,
    ))) by {
        if let Ok((index, journal_entry)) = items[i] {
            assert(journal_entry@ == snapshot.journal_entry(fid.invocation_id(), i as EntryIndex));
        }
    }
    if from < items.len() {
        match items[from] {
            Ok((index, journal_entry)) => {
                assert(index == from && journal_entry@ == snapshot.journal_entry(
                    fid.invocation_id(),
                    from as EntryIndex,
                ));
                let leaf = machine.cancel_journal_leaf::<C>(
                    fid,
                    waiting_for,
                    index,
                    journal_entry@,
                );
                if let Ok(awaited) = leaf.result {
                    lemma_cancel_leaves_read_agrees::<C>(
                        leaf.machine,
                        snapshot,
                        fid,
                        waiting_for,
                        items,
                        from + 1,
                        length,
                        resume || awaited,
                    );
                }
            },
            Err(_) => {
                lemma_cancel_journal_leaves_not_before::<C>(
                    machine,
                    snapshot,
                    fid,
                    waiting_for,
                    from,
                    length as int,
                    resume,
                );
            },
        }
    } else {
        if items.len() < length {
            assert(items[items.len() - 1] is Ok);
        }
    }
}

/// Killing the children of an invocation never takes a sequence number
/// back.
pub proof fn lemma_kill_child_invocations_not_before(
    machine: Machine,
    snapshot: Snapshot,
    invocation_id: InvocationId,
    from: int,
    length: int,
)
    ensures
        machine.kill_child_invocations(snapshot, invocation_id, from, length).not_before(machine),
    decreases length - from,
{
    if 0 <= from < length {
        let next = match snapshot.journal_entry(invocation_id, from as EntryIndex) {
            JournalEntryView::Entry(entry) => if is_live_child(
                entry.header,
            ) {
                machine.handle_outgoing_message(
                    OutboxMessageView::InvocationTermination(
                        InvocationTerminationView::kill(
                            child_target(entry.header),
                        ),
                    ),
                )
            } else {
                machine
            },
            JournalEntryView::Completion(_) => machine,
        };
        lemma_kill_child_invocations_not_before(next, snapshot, invocation_id, from + 1, length);
    }
}

/// Cancelling what a journal waits for never takes a sequence number back.
pub proof fn lemma_cancel_journal_leaves_not_before<C: RawEntryCodec>(
    machine: Machine,
    snapshot: Snapshot,
    fid: FullInvocationIdView,
    waiting_for: Option<Set<EntryIndex>>,
    from: int,
    length: int,
    resume: bool,
)
    ensures
        machine.cancel_journal_leaves::<C>(
            snapshot,
            fid,
            waiting_for,
            from,
            length,
            resume,
        ).machine.not_before(machine),
    decreases length - from,
{
    if 0 <= from < length {
        let leaf = machine.cancel_journal_leaf::<C>(
            fid,
            waiting_for,
            from as EntryIndex,
            snapshot.journal_entry(fid.invocation_id(), from as EntryIndex),
        );
        if leaf.result is Ok {
            lemma_cancel_journal_leaves_not_before::<C>(
                leaf.machine,
                snapshot,
                fid,
                waiting_for,
                from + 1,
                length,
                resume || leaf.result->Ok_0,
            );
        }
    }
}

} // verus!
