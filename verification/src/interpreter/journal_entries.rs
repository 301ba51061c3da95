//! What the invoker reports: journal entries, suspensions and endings.
use crate::command::{CommandView, InvokerEffect, InvokerEffectKind, InvokerEffectKindView};
use crate::deterministic::ServiceInvoker;
use crate::effects::Effects;
use crate::errors::{Error, StorageError};
use crate::identifiers::{EntryIndex, FullInvocationId, InvocationId};
use crate::interpreter::{collecting, CommandInterpreter, lemma_continues_itself, unexpected};
use crate::invocation::{ServiceInvocation, ServiceInvocationSpanContext, Source, SpanRelation};
use crate::journal::{
    AwakeableEnrichmentResult, Completion, CompletionResult, EnrichedEntryHeader, EnrichedRawEntry,
    enrichment_view, Entry, EntryType, EntryView, InvokeEnrichmentResult, JournalEntry,
    RawEntryCodec,
};
use crate::model::{admissible, create_service_invocation, entry_in_sequence, entry_reads_state};
use crate::state::StateReader;
use crate::storage::{
    create_response_message, InvocationMetadata, InvocationStatus, InvocationStatusView,
    OutboxMessage, TimerValue,
};
use std::collections::HashSet;
use vstd::prelude::*;
use vstd::std_specs::iter::IteratorSpec;

verus! {

impl<Codec: RawEntryCodec, BuiltIns: ServiceInvoker> CommandInterpreter<Codec, BuiltIns> {
    /// Writes a completion into a raw entry and hands it on to the invoker.
    pub fn complete_and_forward(
        effects: &mut Effects,
        full_invocation_id: &FullInvocationId,
        entry_index: EntryIndex,
        journal_entry: EnrichedRawEntry,
        completion_result: CompletionResult,
    ) -> (r: Result<EnrichedRawEntry, Error>)
        ensures
            match collecting(old(effects)@).complete_and_forward::<Codec>(
                full_invocation_id@,
                entry_index,
                journal_entry@,
                completion_result@,
            ).result {
                Ok(completed) => r matches Ok(entry) && entry@ == completed,
                Err(e) => r == Err::<EnrichedRawEntry, Error>(Error::Codec(e)),
            },
            final(effects)@ == collecting(old(effects)@).complete_and_forward::<Codec>(
                full_invocation_id@,
                entry_index,
                journal_entry@,
                completion_result@,
            ).machine.effects,
    {
        let mut journal_entry = journal_entry;
        match Codec::write_completion(&mut journal_entry, completion_result.clone()) {
            Ok(()) => {},
            Err(e) => {
                return Err(Error::Codec(e));
            },
        }
        effects.forward_completion(
            full_invocation_id.clone(),
            Completion::new(entry_index, completion_result),
        );
        Ok(journal_entry)
    }

    /// An output entry: whoever waits for the invocation gets its result.
    pub fn output_entry(
        &mut self,
        effects: &mut Effects,
        full_invocation_id: &FullInvocationId,
        journal_entry: EnrichedRawEntry,
        invocation_metadata: &InvocationMetadata,
    ) -> (r: Result<EnrichedRawEntry, Error>)
        requires
            journal_entry@.header is Output,
            old(self).machine(old(effects)).output_entry::<Codec>(
                full_invocation_id@,
                journal_entry@,
                invocation_metadata@,
            ).machine.fits(),
        ensures
            final(self).follows(
                final(effects),
                old(self),
                old(self).machine(old(effects)),
                r,
                (|entry: EnrichedRawEntry| entry@),
                old(self).machine(old(effects)).output_entry::<Codec>(
                full_invocation_id@,
                journal_entry@,
                invocation_metadata@,
            ),
            ),
            r matches Err(e) ==> e is Codec,
    {
        if let Some(response_sink) = &invocation_metadata.response_sink {
            match journal_entry.deserialize_entry_ref::<Codec>() {
                Ok(Entry::Output { result }) => {
                    self.send_response(
                        create_response_message(full_invocation_id, response_sink.clone(), result),
                        effects,
                    );
                },
                Ok(_) => {
                    return Err(unexpected(EntryType::Output));
                },
                Err(e) => {
                    return Err(Error::Codec(e));
                },
            }
        }
        Ok(journal_entry)
    }

    /// An entry that reads a state value.
    pub fn get_state_entry<State: StateReader>(
        &mut self,
        effects: &mut Effects,
        state: &mut State,
        full_invocation_id: &FullInvocationId,
        entry_index: EntryIndex,
        journal_entry: EnrichedRawEntry,
        is_completed: bool,
    ) -> (r: Result<EnrichedRawEntry, Error>)
        requires
            journal_entry@.header is GetState,
            old(self).machine(old(effects)).get_state_entry::<Codec>(
                old(state).snapshot(),
                full_invocation_id@,
                entry_index,
                journal_entry@,
                is_completed,
            ).machine.fits(),
        ensures
            final(state).snapshot() == old(state).snapshot(),
            final(self).follows(
                final(effects),
                old(self),
                old(self).machine(old(effects)),
                r,
                (|entry: EnrichedRawEntry| entry@),
                old(self).machine(old(effects)).get_state_entry::<Codec>(
                old(state).snapshot(),
                full_invocation_id@,
                entry_index,
                journal_entry@,
                is_completed,
            ),
            ),
            is_completed ==> r is Ok,
            r matches Err(Error::Storage(_)) ==> Codec::decoded(EntryType::GetState, journal_entry@.entry) matches Ok(
    EntryView::GetState { .. },
            ),
            r matches Err(Error::Storage(_)) ==> final(self).machine(final(effects)) == old(self).machine(old(effects)),
    {
        proof {
            lemma_continues_itself(self.machine(effects));
        }
        if !is_completed {
            let key = match journal_entry.deserialize_entry_ref::<Codec>() {
                Ok(Entry::GetState { key }) => key,
                Ok(_) => {
                    return Err(unexpected(EntryType::GetState));
                },
                Err(e) => {
                    return Err(Error::Codec(e));
                },
            };
            let value = match state.load_state(&full_invocation_id.service_id, &key) {
                Ok(value) => value,
                Err(e) => {
                    return Err(Error::Storage(e));
                },
            };
            Self::complete_and_forward(
                effects,
                full_invocation_id,
                entry_index,
                journal_entry,
                CompletionResult::from_state(value),
            )
        } else {
            Ok(journal_entry)
        }
    }

    /// An entry that sets a state value.
    pub fn set_state_entry(
        &mut self,
        effects: &mut Effects,
        full_invocation_id: &FullInvocationId,
        journal_entry: EnrichedRawEntry,
        span_context: ServiceInvocationSpanContext,
    ) -> (r: Result<EnrichedRawEntry, Error>)
        requires
            journal_entry@.header is SetState,
            old(self).machine(old(effects)).set_state_entry::<Codec>(
                full_invocation_id@,
                journal_entry@,
                span_context,
            ).machine.fits(),
        ensures
            final(self).follows(
                final(effects),
                old(self),
                old(self).machine(old(effects)),
                r,
                (|entry: EnrichedRawEntry| entry@),
                old(self).machine(old(effects)).set_state_entry::<Codec>(
                full_invocation_id@,
                journal_entry@,
                span_context,
            ),
            ),
            r matches Err(e) ==> e is Codec,
    {
        match journal_entry.deserialize_entry_ref::<Codec>() {
            Ok(Entry::SetState { key, value }) => {
                effects.set_state(
                    full_invocation_id.service_id.clone(),
                    full_invocation_id.invocation_id(),
                    span_context,
                    key,
                    value,
                );
            },
            Ok(_) => {
                return Err(unexpected(EntryType::SetState));
            },
            Err(e) => {
                return Err(Error::Codec(e));
            },
        }
        Ok(journal_entry)
    }

    /// An entry that clears a state value.
    pub fn clear_state_entry(
        &mut self,
        effects: &mut Effects,
        full_invocation_id: &FullInvocationId,
        journal_entry: EnrichedRawEntry,
        span_context: ServiceInvocationSpanContext,
    ) -> (r: Result<EnrichedRawEntry, Error>)
        requires
            journal_entry@.header is ClearState,
            old(self).machine(old(effects)).clear_state_entry::<Codec>(
                full_invocation_id@,
                journal_entry@,
                span_context,
            ).machine.fits(),
        ensures
            final(self).follows(
                final(effects),
                old(self),
                old(self).machine(old(effects)),
                r,
                (|entry: EnrichedRawEntry| entry@),
                old(self).machine(old(effects)).clear_state_entry::<Codec>(
                full_invocation_id@,
                journal_entry@,
                span_context,
            ),
            ),
            r matches Err(e) ==> e is Codec,
    {
        match journal_entry.deserialize_entry_ref::<Codec>() {
            Ok(Entry::ClearState { key }) => {
                effects.clear_state(
                    full_invocation_id.service_id.clone(),
                    full_invocation_id.invocation_id(),
                    span_context,
                    key,
                );
            },
            Ok(_) => {
                return Err(unexpected(EntryType::ClearState));
            },
            Err(e) => {
                return Err(Error::Codec(e));
            },
        }
        Ok(journal_entry)
    }

    /// An entry that asks for all state keys.
    pub fn get_state_keys_entry<State: StateReader>(
        &mut self,
        effects: &mut Effects,
        state: &mut State,
        full_invocation_id: &FullInvocationId,
        entry_index: EntryIndex,
        journal_entry: EnrichedRawEntry,
        is_completed: bool,
    ) -> (r: Result<EnrichedRawEntry, Error>)
        requires
            old(self).machine(old(effects)).get_state_keys_entry::<Codec>(
                old(state).snapshot(),
                full_invocation_id@,
                entry_index,
                journal_entry@,
                is_completed,
            ).machine.fits(),
        ensures
            final(state).snapshot() == old(state).snapshot(),
            final(self).follows(
                final(effects),
                old(self),
                old(self).machine(old(effects)),
                r,
                (|entry: EnrichedRawEntry| entry@),
                old(self).machine(old(effects)).get_state_keys_entry::<Codec>(
                old(state).snapshot(),
                full_invocation_id@,
                entry_index,
                journal_entry@,
                is_completed,
            ),
            ),
            is_completed ==> r is Ok,
            r matches Err(Error::Storage(_)) ==> final(self).machine(final(effects)) == old(self).machine(old(effects)),
    {
        proof {
            lemma_continues_itself(self.machine(effects));
        }
        if !is_completed {
            let value = match state.load_state_keys(&full_invocation_id.service_id) {
                Ok(value) => value,
                Err(e) => {
                    return Err(Error::Storage(e));
                },
            };
            let completion_result = Codec::serialize_get_state_keys_completion(value);
            Self::complete_and_forward(
                effects,
                full_invocation_id,
                entry_index,
                journal_entry,
                completion_result,
            )
        } else {
            Ok(journal_entry)
        }
    }

    /// A sleep entry: registers the timer that wakes it.
    pub fn sleep_entry(
        &mut self,
        effects: &mut Effects,
        full_invocation_id: &FullInvocationId,
        entry_index: EntryIndex,
        journal_entry: EnrichedRawEntry,
        span_context: ServiceInvocationSpanContext,
    ) -> (r: Result<EnrichedRawEntry, Error>)
        requires
            journal_entry@.header is Sleep,
            old(self).machine(old(effects)).sleep_entry::<Codec>(
                full_invocation_id@,
                entry_index,
                journal_entry@,
                span_context,
            ).machine.fits(),
        ensures
            final(self).follows(
                final(effects),
                old(self),
                old(self).machine(old(effects)),
                r,
                (|entry: EnrichedRawEntry| entry@),
                old(self).machine(old(effects)).sleep_entry::<Codec>(
                full_invocation_id@,
                entry_index,
                journal_entry@,
                span_context,
            ),
            ),
            r matches Err(e) ==> e is Codec,
    {
        match journal_entry.deserialize_entry_ref::<Codec>() {
            Ok(Entry::Sleep { wake_up_time }) => {
                effects.register_timer(
                    TimerValue::new_sleep(full_invocation_id.clone(), wake_up_time, entry_index),
                    span_context,
                );
            },
            Ok(_) => {
                return Err(unexpected(EntryType::Sleep));
            },
            Err(e) => {
                return Err(Error::Codec(e));
            },
        }
        Ok(journal_entry)
    }

    /// A call entry: sends the call, if its target is known.
    pub fn invoke_entry(
        &mut self,
        effects: &mut Effects,
        full_invocation_id: &FullInvocationId,
        entry_index: EntryIndex,
        journal_entry: EnrichedRawEntry,
        enrichment_result: Option<InvokeEnrichmentResult>,
    ) -> (r: Result<EnrichedRawEntry, Error>)
        requires
            journal_entry@.header is Invoke,
            old(self).machine(old(effects)).invoke_entry::<Codec>(
                full_invocation_id@,
                entry_index,
                journal_entry@,
                enrichment_view(enrichment_result),
            ).machine.fits(),
        ensures
            final(self).follows(
                final(effects),
                old(self),
                old(self).machine(old(effects)),
                r,
                (|entry: EnrichedRawEntry| entry@),
                old(self).machine(old(effects)).invoke_entry::<Codec>(
                full_invocation_id@,
                entry_index,
                journal_entry@,
                enrichment_view(enrichment_result),
            ),
            ),
            r matches Err(e) ==> e is Codec,
    {
        if let Some(target) = enrichment_result {
            match journal_entry.deserialize_entry_ref::<Codec>() {
                Ok(Entry::Invoke { request }) => {
                    let service_invocation = Self::create_service_invocation(
                        target.invocation_uuid,
                        target.partition_key,
                        target.service_key,
                        request,
                        Source::Service(full_invocation_id.clone()),
                        Some((full_invocation_id.clone(), entry_index)),
                        target.span_context,
                        None,
                    );
                    self.handle_outgoing_message(
                        OutboxMessage::ServiceInvocation(service_invocation),
                        effects,
                    );
                },
                Ok(_) => {
                    return Err(unexpected(EntryType::Invoke));
                },
                Err(e) => {
                    return Err(Error::Codec(e));
                },
            }
        }
        Ok(journal_entry)
    }

    /// A call nobody waits for: traces and sends it.
    pub fn background_invoke_entry(
        &mut self,
        effects: &mut Effects,
        full_invocation_id: &FullInvocationId,
        journal_entry: EnrichedRawEntry,
        enrichment_result: InvokeEnrichmentResult,
        span_context: ServiceInvocationSpanContext,
    ) -> (r: Result<EnrichedRawEntry, Error>)
        requires
            journal_entry@.header is BackgroundInvoke,
            old(self).machine(old(effects)).background_invoke_entry::<Codec>(
                full_invocation_id@,
                journal_entry@,
                enrichment_result@,
                span_context,
            ).machine.fits(),
        ensures
            final(self).follows(
                final(effects),
                old(self),
                old(self).machine(old(effects)),
                r,
                (|entry: EnrichedRawEntry| entry@),
                old(self).machine(old(effects)).background_invoke_entry::<Codec>(
                full_invocation_id@,
                journal_entry@,
                enrichment_result@,
                span_context,
            ),
            ),
            r matches Err(e) ==> e is Codec,
    {
        match journal_entry.deserialize_entry_ref::<Codec>() {
            Ok(Entry::BackgroundInvoke { request, invoke_time }) => {
                let service_method = request.method_name.clone();
                let delay = if invoke_time == 0 {
                    None
                } else {
                    Some(invoke_time)
                };
                let pointer_span_id = enrichment_result.span_context.pointer_span_id();
                let service_invocation = Self::create_service_invocation(
                    enrichment_result.invocation_uuid,
                    enrichment_result.partition_key,
                    enrichment_result.service_key,
                    request,
                    Source::Service(full_invocation_id.clone()),
                    None,
                    enrichment_result.span_context,
                    delay,
                );
                effects.trace_background_invoke(
                    service_invocation.fid.clone(),
                    service_method,
                    span_context,
                    pointer_span_id,
                );
                self.handle_outgoing_message(
                    OutboxMessage::ServiceInvocation(service_invocation),
                    effects,
                );
            },
            Ok(_) => {
                return Err(unexpected(EntryType::BackgroundInvoke));
            },
            Err(e) => {
                return Err(Error::Codec(e));
            },
        }
        Ok(journal_entry)
    }

    /// An awakeable entry: takes the completion that arrived before it, if
    /// there is one.
    pub fn awakeable_entry<State: StateReader>(
        &mut self,
        effects: &mut Effects,
        state: &mut State,
        full_invocation_id: &FullInvocationId,
        entry_index: EntryIndex,
        journal_entry: EnrichedRawEntry,
    ) -> (r: Result<EnrichedRawEntry, Error>)
        requires
            old(self).machine(old(effects)).awakeable_entry::<Codec>(
                old(state).snapshot(),
                full_invocation_id@,
                entry_index,
                journal_entry@,
            ).machine.fits(),
        ensures
            final(state).snapshot() == old(state).snapshot(),
            final(self).follows(
                final(effects),
                old(self),
                old(self).machine(old(effects)),
                r,
                (|entry: EnrichedRawEntry| entry@),
                old(self).machine(old(effects)).awakeable_entry::<Codec>(
                old(state).snapshot(),
                full_invocation_id@,
                entry_index,
                journal_entry@,
            ),
            ),
            r matches Err(Error::Storage(_)) ==> final(self).machine(final(effects)) == old(self).machine(old(effects)),
    {
        proof {
            lemma_continues_itself(self.machine(effects));
        }
        let stored = match state.load_completion_result(
            &full_invocation_id.invocation_id(),
            entry_index,
        ) {
            Ok(stored) => stored,
            Err(e) => {
                return Err(Error::Storage(e));
            },
        };
        if let Some(completion_result) = stored {
            Self::complete_and_forward(
                effects,
                full_invocation_id,
                entry_index,
                journal_entry,
                completion_result,
            )
        } else {
            Ok(journal_entry)
        }
    }

    /// An entry that completes an awakeable: sends the completion.
    pub fn complete_awakeable_entry(
        &mut self,
        effects: &mut Effects,
        journal_entry: EnrichedRawEntry,
        enrichment_result: AwakeableEnrichmentResult,
    ) -> (r: Result<EnrichedRawEntry, Error>)
        requires
            journal_entry@.header is CompleteAwakeable,
            old(self).machine(old(effects)).complete_awakeable_entry::<Codec>(
                journal_entry@,
                enrichment_result,
            ).machine.fits(),
        ensures
            final(self).follows(
                final(effects),
                old(self),
                old(self).machine(old(effects)),
                r,
                (|entry: EnrichedRawEntry| entry@),
                old(self).machine(old(effects)).complete_awakeable_entry::<Codec>(
                journal_entry@,
                enrichment_result,
            ),
            ),
            r matches Err(e) ==> e is Codec,
    {
        match journal_entry.deserialize_entry_ref::<Codec>() {
            Ok(Entry::CompleteAwakeable { result, .. }) => {
                self.handle_outgoing_message(
                    OutboxMessage::from_awakeable_completion(
                        enrichment_result.invocation_id,
                        enrichment_result.entry_index,
                        result,
                    ),
                    effects,
                );
            },
            Ok(_) => {
                return Err(unexpected(EntryType::CompleteAwakeable));
            },
            Err(e) => {
                return Err(Error::Codec(e));
            },
        }
        Ok(journal_entry)
    }

    /// Does what the kind of a new journal entry asks for, and returns the
    /// entry as it is to be stored.
    pub fn journal_entry_effects<State: StateReader>(
        &mut self,
        effects: &mut Effects,
        state: &mut State,
        full_invocation_id: &FullInvocationId,
        entry_index: EntryIndex,
        journal_entry: EnrichedRawEntry,
        invocation_metadata: &InvocationMetadata,
    ) -> (r: Result<EnrichedRawEntry, Error>)
        requires
            old(self).machine(old(effects)).journal_entry_effects::<Codec>(
                old(state).snapshot(),
                full_invocation_id@,
                entry_index,
                journal_entry@,
                invocation_metadata@,
            ).machine.fits(),
        ensures
            final(state).snapshot() == old(state).snapshot(),
            final(self).follows(
                final(effects),
                old(self),
                old(self).machine(old(effects)),
                r,
                (|entry: EnrichedRawEntry| entry@),
                old(self).machine(old(effects)).journal_entry_effects::<Codec>(
                old(state).snapshot(),
                full_invocation_id@,
                entry_index,
                journal_entry@,
                invocation_metadata@,
            ),
            ),
            !entry_reads_state(journal_entry@.header) ==> (r matches Err(e) ==> e is Codec),
            r matches Err(Error::Storage(_)) ==> final(self).machine(final(effects)) == old(self).machine(old(effects)),
            r matches Err(Error::Storage(_)) && journal_entry@.header is GetState ==> Codec::decoded(
    EntryType::GetState,
    journal_entry@.entry,
            ) matches Ok(EntryView::GetState { .. }),
    {
        proof {
            lemma_continues_itself(self.machine(effects));
        }
        let header = journal_entry.header.clone();
        let span_context = invocation_metadata.journal_metadata.span_context;
        match header {
            EnrichedEntryHeader::Input => Ok(journal_entry),
            EnrichedEntryHeader::Output => self.output_entry(
                effects,
                full_invocation_id,
                journal_entry,
                invocation_metadata,
            ),
            EnrichedEntryHeader::GetState { is_completed } => self.get_state_entry(
                effects,
                state,
                full_invocation_id,
                entry_index,
                journal_entry,
                is_completed,
            ),
            EnrichedEntryHeader::SetState => self.set_state_entry(
                effects,
                full_invocation_id,
                journal_entry,
                span_context,
            ),
            EnrichedEntryHeader::ClearState => self.clear_state_entry(
                effects,
                full_invocation_id,
                journal_entry,
                span_context,
            ),
            EnrichedEntryHeader::ClearAllState => {
                effects.clear_all_state(
                    full_invocation_id.service_id.clone(),
                    full_invocation_id.invocation_id(),
                    span_context,
                );
                Ok(journal_entry)
            },
            EnrichedEntryHeader::GetStateKeys { is_completed } => self.get_state_keys_entry(
                effects,
                state,
                full_invocation_id,
                entry_index,
                journal_entry,
                is_completed,
            ),
            EnrichedEntryHeader::Sleep { .. } => self.sleep_entry(
                effects,
                full_invocation_id,
                entry_index,
                journal_entry,
                span_context,
            ),
            EnrichedEntryHeader::Invoke { enrichment_result, .. } => self.invoke_entry(
                effects,
                full_invocation_id,
                entry_index,
                journal_entry,
                enrichment_result,
            ),
            EnrichedEntryHeader::BackgroundInvoke { enrichment_result } =>
                self.background_invoke_entry(
                    effects,
                    full_invocation_id,
                    journal_entry,
                    enrichment_result,
                    span_context,
                ),
            EnrichedEntryHeader::Awakeable { .. } => self.awakeable_entry(
                effects,
                state,
                full_invocation_id,
                entry_index,
                journal_entry,
            ),
            EnrichedEntryHeader::CompleteAwakeable { enrichment_result } =>
                self.complete_awakeable_entry(effects, journal_entry, enrichment_result),
            EnrichedEntryHeader::Custom { .. } => Ok(journal_entry),
        }
    }

    /// Takes the next journal entry of a running invocation: does what its
    /// kind asks for, stores it, and tells the invoker that it is stored.
    pub fn handle_journal_entry<State: StateReader>(
        &mut self,
        effects: &mut Effects,
        state: &mut State,
        full_invocation_id: FullInvocationId,
        entry_index: EntryIndex,
        journal_entry: EnrichedRawEntry,
        invocation_metadata: InvocationMetadata,
    ) -> (r: Result<(), Error>)
        requires
            entry_in_sequence(entry_index, invocation_metadata@),
            old(self).machine(old(effects)).handle_journal_entry::<Codec>(
                old(state).snapshot(),
                full_invocation_id@,
                entry_index,
                journal_entry@,
                invocation_metadata@,
            ).machine.fits(),
        ensures
            final(state).snapshot() == old(state).snapshot(),
            final(self).follows(
                final(effects),
                old(self),
                old(self).machine(old(effects)),
                r,
                (|done: ()| ()),
                old(self).machine(old(effects)).handle_journal_entry::<Codec>(
                    old(state).snapshot(),
                    full_invocation_id@,
                    entry_index,
                    journal_entry@,
                    invocation_metadata@,
                ),
            ),
            !entry_reads_state(journal_entry@.header) ==> (r matches Err(e) ==> e is Codec),
            r matches Err(Error::Storage(_)) ==> final(self).machine(final(effects)) == old(self).machine(old(effects)),
            r matches Err(Error::Storage(_)) && journal_entry@.header is GetState ==> Codec::decoded(
    EntryType::GetState,
    journal_entry@.entry,
            ) matches Ok(EntryView::GetState { .. }),
    {
        proof {
            lemma_continues_itself(self.machine(effects));
        }
        let journal_entry = self.journal_entry_effects(
            effects,
            state,
            &full_invocation_id,
            entry_index,
            journal_entry,
            &invocation_metadata,
        )?;
        effects.append_journal_entry(
            full_invocation_id.invocation_id(),
            InvocationStatus::Invoked(invocation_metadata),
            entry_index,
            journal_entry,
        );
        effects.send_stored_ack_to_invoker(full_invocation_id, entry_index);
        Ok(())
    }

    /// Takes a report of the invoker about a running invocation. The state
    /// is asked only for a journal entry that reads it and for a suspension.
    pub fn on_invoker_effect<State: StateReader>(
        &mut self,
        effects: &mut Effects,
        state: &mut State,
        invoker_effect: InvokerEffect,
        invocation_metadata: InvocationMetadata,
    ) -> (r: Result<(FullInvocationId, SpanRelation), Error>)
        requires
            match invoker_effect@.kind {
                InvokerEffectKindView::JournalEntry { entry_index, entry } => entry_in_sequence(
                    entry_index,
                    invocation_metadata@,
                ),
                InvokerEffectKindView::Suspended { waiting_for_completed_entries } =>
                    waiting_for_completed_entries != Set::<EntryIndex>::empty(),
                _ => true,
            },
            old(self).machine(old(effects)).on_invoker_effect::<Codec>(
                old(state).snapshot(),
                invoker_effect@,
                invocation_metadata@,
            ).machine.fits(),
        ensures
            final(state).snapshot() == old(state).snapshot(),
            final(self).follows(
                final(effects),
                old(self),
                old(self).machine(old(effects)),
                r,
                (|related: (FullInvocationId, SpanRelation)| (Some(related.0@), related.1)),
                old(self).machine(old(effects)).on_invoker_effect::<Codec>(
                    old(state).snapshot(),
                    invoker_effect@,
                    invocation_metadata@,
                ),
            ),
            invoker_effect@.kind is SelectedDeployment || invoker_effect@.kind is End
                || invoker_effect@.kind is Failed ==> r is Ok,
            invoker_effect@.kind matches InvokerEffectKindView::JournalEntry { entry, .. }
                ==> !entry_reads_state(entry.header) ==> (r matches Err(e) ==> e is Codec),
            invoker_effect@.kind is Suspended ==> (r matches Err(e) ==> e is Storage),
            r matches Err(Error::Storage(_)) ==> final(self).machine(final(effects)) == old(
                self,
            ).machine(old(effects)),
            r matches Err(Error::Storage(_)) ==> (invoker_effect@.kind matches InvokerEffectKindView::JournalEntry {
    entry,
    ..
            } ==> (entry.header is GetState ==> Codec::decoded(EntryType::GetState, entry.entry) matches Ok(
    EntryView::GetState { .. },
            ))),
    {
        proof {
            lemma_continues_itself(self.machine(effects));
        }
        let InvokerEffect { full_invocation_id, kind } = invoker_effect;
        let related_sid = full_invocation_id.clone();
        let span_relation = invocation_metadata.journal_metadata.span_context.as_parent();
        match kind {
            InvokerEffectKind::SelectedDeployment(deployment_id) => {
                effects.store_chosen_deployment(
                    full_invocation_id.invocation_id(),
                    deployment_id,
                    invocation_metadata,
                );
            },
            InvokerEffectKind::JournalEntry { entry_index, entry } => {
                self.handle_journal_entry(
                    effects,
                    state,
                    full_invocation_id,
                    entry_index,
                    entry,
                    invocation_metadata,
                )?;
            },
            InvokerEffectKind::Suspended { waiting_for_completed_entries } => {
                let invocation_id = full_invocation_id.invocation_id();
                let any_completed = match any_entry_resumable(
                    state,
                    &invocation_id,
                    &waiting_for_completed_entries,
                ) {
                    Ok(any) => any,
                    Err(e) => {
                        return Err(Error::Storage(e));
                    },
                };
                Self::suspension_with_answer(
                    effects,
                    invocation_id,
                    invocation_metadata,
                    waiting_for_completed_entries,
                    any_completed,
                );
            },
            InvokerEffectKind::End => {
                self.end_invocation(effects, full_invocation_id, invocation_metadata);
            },
            InvokerEffectKind::Failed(e) => {
                self.fail_invocation(effects, full_invocation_id, invocation_metadata, e);
            },
        }
        Ok((related_sid, span_relation))
    }

    /// Resumes a running invocation that reported its suspension if one of
    /// the entries it waits for can be resumed, as `any_completed` says,
    /// and records the suspension if not.
    pub fn suspension_with_answer(
        effects: &mut Effects,
        invocation_id: InvocationId,
        invocation_metadata: InvocationMetadata,
        waiting_for_completed_entries: HashSet<EntryIndex>,
        any_completed: bool,
    )
        ensures
            final(effects)@ == collecting(old(effects)@).suspension_with_answer(
                invocation_id,
                invocation_metadata@,
                waiting_for_completed_entries@,
                any_completed,
            ).effects,
    {
        if any_completed {
            effects.resume_service(invocation_id, invocation_metadata);
        } else {
            effects.suspend_service(
                invocation_id,
                invocation_metadata,
                waiting_for_completed_entries,
            );
        }
    }

    /// Takes a report of the invoker. If the invocation does not run, the
    /// invoker is told to drop it.
    pub fn try_invoker_effect<State: StateReader>(
        &mut self,
        effects: &mut Effects,
        state: &mut State,
        invoker_effect: InvokerEffect,
    ) -> (r: Result<(FullInvocationId, SpanRelation), Error>)
        requires
            admissible(
                CommandView::InvokerEffect(invoker_effect@),
                old(state).snapshot(),
                old(self).key_range(),
            ),
            old(self).machine(old(effects)).try_invoker_effect::<Codec>(
                old(state).snapshot(),
                invoker_effect@,
            ).machine.fits(),
        ensures
            final(state).snapshot() == old(state).snapshot(),
            final(self).follows(
                final(effects),
                old(self),
                old(self).machine(old(effects)),
                r,
                (|related: (FullInvocationId, SpanRelation)| (Some(related.0@), related.1)),
                old(self).machine(old(effects)).try_invoker_effect::<Codec>(
                    old(state).snapshot(),
                    invoker_effect@,
                ),
            ),
            r matches Err(Error::Storage(_)) ==> final(self).machine(final(effects)) == old(
                self,
            ).machine(old(effects)),
    {
        let invocation_id = invoker_effect.full_invocation_id.invocation_id();
        let status = match state.get_invocation_status(&invocation_id) {
            Ok(status) => status,
            Err(e) => {
                proof {
                    lemma_continues_itself(self.machine(effects));
                }
                return Err(Error::Storage(e));
            },
        };
        self.invoker_effect_with_status(effects, state, invoker_effect, status)
    }

    /// Takes a report of the invoker about an invocation of the given
    /// status: as [`Self::on_invoker_effect`] if the invocation runs; if
    /// not, the state is not asked, and the invoker is told to drop the
    /// invocation.
    pub fn invoker_effect_with_status<State: StateReader>(
        &mut self,
        effects: &mut Effects,
        state: &mut State,
        invoker_effect: InvokerEffect,
        status: InvocationStatus,
    ) -> (r: Result<(FullInvocationId, SpanRelation), Error>)
        requires
            status@ matches InvocationStatusView::Invoked(metadata) ==> match invoker_effect@.kind {
                InvokerEffectKindView::JournalEntry { entry_index, entry } => entry_in_sequence(
                    entry_index,
                    metadata,
                ),
                InvokerEffectKindView::Suspended { waiting_for_completed_entries } =>
                    waiting_for_completed_entries != Set::<EntryIndex>::empty(),
                _ => true,
            },
            old(self).machine(old(effects)).invoker_effect_with_status::<Codec>(
                old(state).snapshot(),
                invoker_effect@,
                status@,
            ).machine.fits(),
        ensures
            final(state).snapshot() == old(state).snapshot(),
            final(self).follows(
                final(effects),
                old(self),
                old(self).machine(old(effects)),
                r,
                (|related: (FullInvocationId, SpanRelation)| (Some(related.0@), related.1)),
                old(self).machine(old(effects)).invoker_effect_with_status::<Codec>(
                    old(state).snapshot(),
                    invoker_effect@,
                    status@,
                ),
            ),
            !(status@ is Invoked) ==> r is Ok,
            r matches Err(Error::Storage(_)) ==> final(self).machine(final(effects)) == old(
                self,
            ).machine(old(effects)),
            invoker_effect@.kind is SelectedDeployment || invoker_effect@.kind is End
    || invoker_effect@.kind is Failed ==> r is Ok,
            invoker_effect@.kind matches InvokerEffectKindView::JournalEntry { entry, .. }
    ==> !entry_reads_state(entry.header) ==> (r matches Err(e) ==> e is Codec),
            invoker_effect@.kind is Suspended ==> (r matches Err(e) ==> e is Storage),
    {
        match status {
            InvocationStatus::Invoked(invocation_metadata) => self.on_invoker_effect(
                effects,
                state,
                invoker_effect,
                invocation_metadata,
            ),
            _ => {
                effects.abort_invocation(invoker_effect.full_invocation_id.clone());
                Ok((invoker_effect.full_invocation_id, SpanRelation::Unrelated))
            },
        }
    }
}

/// Asks the state, entry by entry, whether one of the entries that an invocation
/// waits for has its completion; with no entry to ask about, the answer is no.
pub fn any_entry_resumable<State: StateReader>(
    state: &mut State,
    invocation_id: &InvocationId,
    waiting_for_completed_entries: &HashSet<EntryIndex>,
) -> (r: Result<bool, StorageError>)
    ensures
        final(state).snapshot() == old(state).snapshot(),
        r matches Ok(any) ==> any == old(state).snapshot().any_resumable(
            *invocation_id,
            waiting_for_completed_entries@,
        ),
        waiting_for_completed_entries@ == Set::<EntryIndex>::empty() ==> r == Ok::<
            bool,
            StorageError,
        >(false),
{
    broadcast use vstd::std_specs::hash::group_hash_axioms;

    let ghost snapshot = state.snapshot();
    let ghost entries = vstd::std_specs::hash::spec_hash_keys_iter(
        waiting_for_completed_entries,
    ).remaining().unref();
    let ghost mut checked: int = 0;
    for entry_index in iter: waiting_for_completed_entries.iter()
        invariant
            state.snapshot() == snapshot,
            snapshot == old(state).snapshot(),
            iter.seq().unref() == entries,
            entries.to_set() == waiting_for_completed_entries@,
            checked == iter.index(),
            forall|j: int|
                0 <= j < checked ==> !snapshot.is_entry_resumable(
                    *invocation_id,
                    #[trigger] entries[j],
                ),
    {
        assert(entries[checked] == *entry_index);
        assert(waiting_for_completed_entries@.contains(*entry_index));
        if state.is_entry_resumable(invocation_id, *entry_index)? {
            return Ok(true);
        }
        proof {
            checked = checked + 1;
        }
    }
    Ok(false)
}

} // verus!
