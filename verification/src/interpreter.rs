//! The command interpreter.
pub mod journal_entries;
pub mod termination;

use crate::command::{
    builtin_effects_view, BuiltinServiceEffect, BuiltinServiceEffects, BuiltinServiceEffectView,
    Command, CommandView, InvokerEffect,
};
use crate::deterministic::{service_effects_view, ServiceEffect, ServiceEffectView, ServiceInvoker};
use crate::effects::{Effects, EffectView, InvocationOutcome, outcome_view};
use crate::errors::{Error, InvocationError, InvocationErrorView};
use crate::identifiers::{
    EntryIndex, FullInvocationId, FullInvocationIdView, InvocationUuid, MaybeFullInvocationId,
    MessageIndex, MillisSinceEpoch, PartitionKey,
};
use crate::invocation::{
    Header, headers_view, IngressResponse, InvocationResponse, ResponseResult, ServiceInvocation,
    ServiceInvocationResponseSink, ServiceInvocationSpanContext, sink_view, Source, SpanRelation,
};
use crate::journal::{
    CodecError, CodecErrorKind, Completion, CompletionResult, EntryType, InvokeRequest,
    RawEntryCodec, unexpected_entry,
};
use crate::model::{
    admissible, Applied, create_service_invocation, Machine, owns_key, reads_state, Step,
};
use crate::octets::{bytes_contents, bytes_from_string};
use crate::state::StateReader;
use crate::storage::{
    create_response_message, ExternalStateMutation, InboxEntry, InvocationMetadata,
    InvocationMetadataView, InvocationStatus, OutboxMessage, ResponseMessage, Timer, TimerValue,
    VirtualObjectStatus,
};
use bytes::Bytes;
use std::collections::HashSet;
use std::marker::PhantomData;
use std::ops::RangeInclusive;
use vstd::prelude::*;
use vstd::std_specs::range::RangeInclusiveView;

verus! {

/// Turns the commands of one partition into effects.
///
/// The interpreter owns the key range of the partition and the sequence
/// numbers that the next inbox entry and the next outbox message get. `Codec`
/// reads raw journal entries, `BuiltIns` are the services that answer at
/// once.
#[derive(Debug)]
pub struct CommandInterpreter<Codec, BuiltIns> {
    inbox_seq_number: MessageIndex,
    outbox_seq_number: MessageIndex,
    partition_key_range: RangeInclusive<PartitionKey>,
    _codec: PhantomData<Codec>,
    _built_ins: PhantomData<BuiltIns>,
}

/// The view of what applying a command returns.
pub open spec fn applied_view(applied: (Option<FullInvocationId>, SpanRelation)) -> Applied {
    (
        match applied.0 {
            Some(fid) => Some(fid@),
            None => None,
        },
        applied.1,
    )
}

/// A machine that holds `effects` and has handed out no sequence number.
pub open spec fn collecting(effects: Seq<EffectView>) -> Machine {
    Machine { effects, inbox_seq_number: 0, outbox_seq_number: 0 }
}

/// Whether a piece of work that hands out no sequence number has added to
/// `before` the effects that `step` adds, and returned what `step` returns.
/// After a failed read of the state the effects are those of `before`.
pub open spec fn collected(
    effects: &Effects,
    before: Seq<EffectView>,
    r: Result<(Option<FullInvocationId>, SpanRelation), Error>,
    step: Step<Applied>,
) -> bool {
    match r {
        Ok(applied) => step.result == Ok::<Applied, CodecError>(applied_view(applied)) && effects@
            == step.machine.effects,
        Err(Error::Codec(e)) => step.result == Err::<Applied, CodecError>(e) && effects@
            == step.machine.effects,
        Err(Error::Storage(_)) => effects@ == before,
    }
}

impl Machine {
    /// Whether both sequence numbers can be held in 64 bits.
    pub open spec fn fits(self) -> bool {
        &&& 0 <= self.inbox_seq_number <= u64::MAX
        &&& 0 <= self.outbox_seq_number <= u64::MAX
    }

    /// Whether `self` may come after `before` in the course of one command:
    /// neither sequence number went back.
    pub open spec fn not_before(self, before: Machine) -> bool {
        &&& before.inbox_seq_number <= self.inbox_seq_number
        &&& before.outbox_seq_number <= self.outbox_seq_number
    }

    /// Whether `self` continues `before`: the effects of `before` are still
    /// there, in front, and neither sequence number went back.
    pub open spec fn continues(self, before: Machine) -> bool {
        &&& self.extends(before)
        &&& self.not_before(before)
    }
}

impl<Codec, BuiltIns> CommandInterpreter<Codec, BuiltIns> {
    /// The sequence number that the next inbox entry gets.
    pub closed spec fn next_inbox_seq_number(&self) -> int {
        self.inbox_seq_number as int
    }

    /// The sequence number that the next outbox message gets.
    pub closed spec fn next_outbox_seq_number(&self) -> int {
        self.outbox_seq_number as int
    }

    /// The keys that the partition owns.
    pub closed spec fn key_range(&self) -> RangeInclusiveView<PartitionKey> {
        self.partition_key_range@
    }

    /// Where the interpreter stands with the effects it has produced.
    pub open spec fn machine(&self, effects: &Effects) -> Machine {
        Machine {
            effects: effects@,
            inbox_seq_number: self.next_inbox_seq_number(),
            outbox_seq_number: self.next_outbox_seq_number(),
        }
    }

    /// Where the interpreter stands before a command, with an empty buffer.
    pub open spec fn at_rest(&self) -> Machine {
        Machine {
            effects: Seq::empty(),
            inbox_seq_number: self.next_inbox_seq_number(),
            outbox_seq_number: self.next_outbox_seq_number(),
        }
    }

    /// Whether the interpreter, with `effects`, stands at `machine` and owns
    /// the keys it owned `before`.
    pub open spec fn stands_at(&self, effects: &Effects, before: &Self, machine: Machine) -> bool {
        &&& self.machine(effects) == machine
        &&& self.key_range() == before.key_range()
    }

    /// Whether the interpreter, which stood at `start`, has done what
    /// `step` says and returned what `step` returns. After a failed read of
    /// the state it has gone part of the way: the effects of `start` are
    /// still in front, and neither sequence number went back.
    pub open spec fn follows<T, V>(
        &self,
        effects: &Effects,
        before: &Self,
        start: Machine,
        r: Result<T, Error>,
        view: spec_fn(T) -> V,
        step: Step<V>,
    ) -> bool {
        &&& self.key_range() == before.key_range()
        &&& match r {
            Ok(value) => step.result == Ok::<V, CodecError>(view(value)) && self.machine(effects)
                == step.machine,
            Err(Error::Codec(e)) => step.result == Err::<V, CodecError>(e) && self.machine(effects)
                == step.machine,
            Err(Error::Storage(_)) => self.machine(effects).continues(start),
        }
    }

    /// Whether the interpreter has done what `step` says and returned the
    /// invocation and span that `step` returns.
    pub open spec fn follows_applied(
        &self,
        effects: &Effects,
        before: &Self,
        start: Machine,
        r: Result<(Option<FullInvocationId>, SpanRelation), Error>,
        step: Step<Applied>,
    ) -> bool {
        self.follows(
            effects,
            before,
            start,
            r,
            |applied: (Option<FullInvocationId>, SpanRelation)| applied_view(applied),
            step,
        )
    }

    /// An interpreter that continues from the sequence numbers which were
    /// committed last.
    pub fn new(
        inbox_seq_number: MessageIndex,
        outbox_seq_number: MessageIndex,
        partition_key_range: RangeInclusive<PartitionKey>,
    ) -> (r: Self)
        ensures
            r.next_inbox_seq_number() == inbox_seq_number,
            r.next_outbox_seq_number() == outbox_seq_number,
            r.key_range() == partition_key_range@,
    {
        CommandInterpreter {
            inbox_seq_number,
            outbox_seq_number,
            partition_key_range,
            _codec: PhantomData,
            _built_ins: PhantomData,
        }
    }

    pub fn inbox_seq_number(&self) -> (r: MessageIndex)
        ensures
            r == self.next_inbox_seq_number(),
    {
        self.inbox_seq_number
    }

    pub fn outbox_seq_number(&self) -> (r: MessageIndex)
        ensures
            r == self.next_outbox_seq_number(),
    {
        self.outbox_seq_number
    }

    pub fn partition_key_range(&self) -> (r: &RangeInclusive<PartitionKey>)
        ensures
            r@ == self.key_range(),
    {
        &self.partition_key_range
    }

    pub fn enqueue_into_inbox(&mut self, effects: &mut Effects, inbox_entry: InboxEntry)
        requires
            old(self).next_inbox_seq_number() < u64::MAX,
        ensures
            final(self).stands_at(
                final(effects),
                old(self),
                old(self).machine(old(effects)).enqueue_into_inbox(inbox_entry@),
            ),
    {
        effects.enqueue_into_inbox(self.inbox_seq_number, inbox_entry);
        self.inbox_seq_number += 1;
    }

    pub fn handle_outgoing_message(&mut self, message: OutboxMessage, effects: &mut Effects)
        requires
            old(self).next_outbox_seq_number() < u64::MAX,
        ensures
            final(self).stands_at(
                final(effects),
                old(self),
                old(self).machine(old(effects)).handle_outgoing_message(message@),
            ),
    {
        effects.enqueue_into_outbox(self.outbox_seq_number, message);
        self.outbox_seq_number += 1;
    }

    pub fn ingress_response(&mut self, ingress_response: IngressResponse, effects: &mut Effects)
        ensures
            final(self).stands_at(
                final(effects),
                old(self),
                old(self).machine(old(effects)).ingress_response(ingress_response@),
            ),
    {
        effects.send_ingress_response(ingress_response);
    }

    pub fn send_response(&mut self, response: ResponseMessage, effects: &mut Effects)
        requires
            old(self).machine(old(effects)).send_response(response@).fits(),
        ensures
            final(self).stands_at(
                final(effects),
                old(self),
                old(self).machine(old(effects)).send_response(response@),
            ),
    {
        match response {
            ResponseMessage::Outbox(outbox) => self.handle_outgoing_message(outbox, effects),
            ResponseMessage::Ingress(ingress) => self.ingress_response(ingress, effects),
        }
    }

    pub fn try_send_failure_response(
        &mut self,
        effects: &mut Effects,
        full_invocation_id: &FullInvocationId,
        response_sink: Option<ServiceInvocationResponseSink>,
        error: &InvocationError,
    )
        requires
            old(self).machine(old(effects)).try_send_failure_response(
                full_invocation_id@,
                sink_view(response_sink),
                error@,
            ).fits(),
        ensures
            final(self).stands_at(
                final(effects),
                old(self),
                old(self).machine(old(effects)).try_send_failure_response(
                    full_invocation_id@,
                    sink_view(response_sink),
                    error@,
                ),
            ),
    {
        if let Some(response_sink) = response_sink {
            self.send_response(
                create_response_message(
                    full_invocation_id,
                    response_sink,
                    ResponseResult::from_error(error),
                ),
                effects,
            );
        }
    }

    pub fn notify_invocation_result(
        &mut self,
        full_invocation_id: &FullInvocationId,
        service_method: String,
        span_context: ServiceInvocationSpanContext,
        creation_time: Option<MillisSinceEpoch>,
        result: InvocationOutcome,
        effects: &mut Effects,
    )
        ensures
            final(self).stands_at(
                final(effects),
                old(self),
                old(self).machine(old(effects)).notify_invocation_result(
                    full_invocation_id@,
                    service_method@,
                    span_context,
                    creation_time,
                    outcome_view(result),
                ),
            ),
    {
        effects.trace_invocation_result(
            full_invocation_id.clone(),
            service_method,
            span_context,
            creation_time,
            result,
        );
    }

    pub fn end_invocation_lifecycle(
        &mut self,
        full_invocation_id: FullInvocationId,
        journal_length: EntryIndex,
        effects: &mut Effects,
    )
        ensures
            final(self).stands_at(
                final(effects),
                old(self),
                old(self).machine(old(effects)).end_invocation_lifecycle(
                    full_invocation_id@,
                    journal_length,
                ),
            ),
    {
        effects.drop_journal_and_pop_inbox(full_invocation_id, journal_length);
    }

    pub fn end_invocation(
        &mut self,
        effects: &mut Effects,
        full_invocation_id: FullInvocationId,
        invocation_metadata: InvocationMetadata,
    )
        ensures
            final(self).stands_at(
                final(effects),
                old(self),
                old(self).machine(old(effects)).end_invocation(
                    full_invocation_id@,
                    invocation_metadata@,
                ),
            ),
    {
        let length = invocation_metadata.journal_metadata.length;
        self.notify_invocation_result(
            &full_invocation_id,
            invocation_metadata.method,
            invocation_metadata.journal_metadata.span_context,
            Some(invocation_metadata.timestamps.creation_time()),
            Ok(()),
            effects,
        );
        self.end_invocation_lifecycle(full_invocation_id, length, effects);
    }

    pub fn fail_invocation(
        &mut self,
        effects: &mut Effects,
        full_invocation_id: FullInvocationId,
        invocation_metadata: InvocationMetadata,
        error: InvocationError,
    )
        requires
            old(self).machine(old(effects)).fail_invocation(
                full_invocation_id@,
                invocation_metadata@,
                error@,
            ).fits(),
        ensures
            final(self).stands_at(
                final(effects),
                old(self),
                old(self).machine(old(effects)).fail_invocation(
                    full_invocation_id@,
                    invocation_metadata@,
                    error@,
                ),
            ),
    {
        let length = invocation_metadata.journal_metadata.length;
        let span_context = invocation_metadata.journal_metadata.span_context;
        let creation_time = Some(invocation_metadata.timestamps.creation_time());
        self.try_send_failure_response(
            effects,
            &full_invocation_id,
            invocation_metadata.response_sink,
            &error,
        );
        self.notify_invocation_result(
            &full_invocation_id,
            invocation_metadata.method,
            span_context,
            creation_time,
            Err((error.code(), error.message)),
            effects,
        );
        self.end_invocation_lifecycle(full_invocation_id, length, effects);
    }

    pub fn handle_completion_for_suspended(
        full_invocation_id: FullInvocationId,
        completion: Completion,
        waiting_for_completed_entries: &HashSet<EntryIndex>,
        effects: &mut Effects,
    ) -> (resume_invocation: bool)
        ensures
            final(effects)@ == old(effects)@.push(
                EffectView::StoreCompletion {
                    invocation_id: full_invocation_id@.invocation_id(),
                    completion: completion@,
                },
            ),
            resume_invocation == waiting_for_completed_entries@.contains(completion.entry_index),
    {
        let resume_invocation = waiting_for_completed_entries.contains(&completion.entry_index);
        effects.store_completion(full_invocation_id.invocation_id(), completion);
        resume_invocation
    }

    pub fn handle_completion_for_invoked(
        full_invocation_id: FullInvocationId,
        completion: Completion,
        effects: &mut Effects,
    )
        ensures
            final(effects)@ == old(effects)@.push(
                EffectView::StoreCompletion {
                    invocation_id: full_invocation_id@.invocation_id(),
                    completion: completion@,
                },
            ).push(
                EffectView::ForwardCompletion {
                    full_invocation_id: full_invocation_id@,
                    completion: completion@,
                },
            ),
    {
        effects.store_completion(full_invocation_id.invocation_id(), completion.clone());
        effects.forward_completion(full_invocation_id, completion);
    }

    pub fn create_service_invocation(
        invocation_id: InvocationUuid,
        partition_key: PartitionKey,
        invocation_key: Bytes,
        invoke_request: InvokeRequest,
        source: Source,
        response_target: Option<(FullInvocationId, EntryIndex)>,
        span_context: ServiceInvocationSpanContext,
        execution_time: Option<MillisSinceEpoch>,
    ) -> (r: ServiceInvocation)
        ensures
            r@ == create_service_invocation(
                invocation_id,
                partition_key,
                bytes_contents(invocation_key),
                invoke_request@,
                source@,
                match response_target {
                    Some((caller, entry_index)) => Some((caller@, entry_index)),
                    None => None,
                },
                span_context,
                execution_time,
            ),
    {
        let response_sink = if let Some((caller, entry_index)) = response_target {
            Some(ServiceInvocationResponseSink::PartitionProcessor { caller, entry_index })
        } else {
            None
        };
        let headers: Vec<Header> = Vec::new();
        assert(headers_view(headers@) =~= Seq::empty());
        ServiceInvocation {
            fid: FullInvocationId::with_partition_key(
                partition_key,
                invoke_request.service_name,
                invocation_key,
                invocation_id,
            ),
            method_name: invoke_request.method_name,
            argument: invoke_request.parameter,
            source,
            response_sink,
            span_context,
            headers,
            execution_time,
        }
    }
}

impl<Codec: RawEntryCodec, BuiltIns: ServiceInvoker> CommandInterpreter<Codec, BuiltIns> {
    /// Runs a built-in service that answers at once and sends what it says.
    pub fn handle_deterministic_built_in_service_invocation(
        &mut self,
        invocation: ServiceInvocation,
        effects: &mut Effects,
    )
        requires
            old(self).machine(old(effects)).service_effects(
                BuiltIns::effects_of(
                    invocation@.fid,
                    invocation@.method_name,
                    invocation@.span_context,
                    invocation@.response_sink,
                    invocation@.argument,
                ),
                0,
            ).fits(),
        ensures
            final(self).stands_at(
                final(effects),
                old(self),
                old(self).machine(old(effects)).service_effects(
                    BuiltIns::effects_of(
                        invocation@.fid,
                        invocation@.method_name,
                        invocation@.span_context,
                        invocation@.response_sink,
                        invocation@.argument,
                    ),
                    0,
                ),
            ),
    {
        let sent = BuiltIns::invoke(
            &invocation.fid,
            invocation.method_name.as_str(),
            &invocation.span_context,
            &invocation.response_sink,
            invocation.argument.clone(),
        );
        let ghost views = service_effects_view(sent@);
        let ghost goal = old(self).machine(old(effects)).service_effects(views, 0);
        for effect in iter: sent
            invariant
                iter.seq() == sent@,
                views == service_effects_view(sent@),
                self.key_range() == old(self).key_range(),
                self.machine(effects).service_effects(views, iter.index()) == goal,
                goal.fits(),
        {
            proof {
                lemma_service_effects_not_before(
                    self.machine(effects).service_effect(views[iter.index()]),
                    views,
                    iter.index() + 1,
                );
            }
            match effect {
                ServiceEffect::OutboxMessage(outbox_message) => {
                    self.handle_outgoing_message(outbox_message, effects)
                },
                ServiceEffect::IngressResponse(ingress_response) => {
                    self.ingress_response(ingress_response, effects);
                },
            }
        }
    }

    /// Starts an invocation, queues it, or hands it to the timer service.
    /// The state is asked only for an invocation without an execution time.
    pub fn handle_invoke<State: StateReader>(
        &mut self,
        effects: &mut Effects,
        state: &mut State,
        service_invocation: ServiceInvocation,
    ) -> (r: Result<(Option<FullInvocationId>, SpanRelation), Error>)
        requires
            owns_key(old(self).key_range(), service_invocation@.fid.service_id.partition_key),
            old(self).machine(old(effects)).handle_invoke::<BuiltIns>(
                old(state).snapshot(),
                service_invocation@,
            ).machine.fits(),
        ensures
            final(state).snapshot() == old(state).snapshot(),
            final(self).follows_applied(
                final(effects),
                old(self),
                old(self).machine(old(effects)),
                r,
                old(self).machine(old(effects)).handle_invoke::<BuiltIns>(
                    old(state).snapshot(),
                    service_invocation@,
                ),
            ),
            service_invocation.execution_time is Some ==> r is Ok,
            r matches Err(e) ==> e is Storage && final(self).machine(final(effects)) == old(
                self,
            ).machine(old(effects)),
    {
        if let Some(execution_time) = service_invocation.execution_time {
            let span_context = service_invocation.span_context;
            effects.register_timer(
                TimerValue::new_invoke(
                    service_invocation.fid.clone(),
                    execution_time,
                    0,
                    service_invocation,
                ),
                span_context,
            );
            return Ok((None, SpanRelation::Unrelated));
        }
        let service_status = match state.get_virtual_object_status(
            &service_invocation.fid.service_id,
        ) {
            Ok(status) => status,
            Err(e) => {
                proof {
                    lemma_continues_itself(self.machine(effects));
                }
                return Err(Error::Storage(e));
            },
        };
        Ok(self.invoke_with_status(effects, service_status, service_invocation))
    }

    /// Starts or queues an invocation without an execution time, given the
    /// status of its virtual object.
    pub fn invoke_with_status(
        &mut self,
        effects: &mut Effects,
        service_status: VirtualObjectStatus,
        service_invocation: ServiceInvocation,
    ) -> (r: (Option<FullInvocationId>, SpanRelation))
        requires
            service_invocation.execution_time is None,
            owns_key(old(self).key_range(), service_invocation@.fid.service_id.partition_key),
            old(self).machine(old(effects)).invoke_with_status::<BuiltIns>(
                service_status@,
                service_invocation@,
            ).fits(),
        ensures
            final(self).stands_at(
                final(effects),
                old(self),
                old(self).machine(old(effects)).invoke_with_status::<BuiltIns>(
                    service_status@,
                    service_invocation@,
                ),
            ),
            applied_view(r) == (
                Some(service_invocation@.fid),
                service_invocation@.span_context.spec_as_parent(),
            ),
    {
        let fid = service_invocation.fid.clone();
        let span_relation = service_invocation.span_context.as_parent();
        if BuiltIns::is_supported(fid.service_id.service_name.as_str()) {
            self.handle_deterministic_built_in_service_invocation(service_invocation, effects);
        } else if let VirtualObjectStatus::Unlocked = service_status {
            effects.invoke_service(service_invocation);
        } else {
            self.enqueue_into_inbox(effects, InboxEntry::Invocation(service_invocation));
        }
        (Some(fid), span_relation)
    }

    /// Changes the state of a virtual object, or queues the change behind
    /// the invocation that holds the lock.
    pub fn handle_external_state_mutation<State: StateReader>(
        &mut self,
        mutation: ExternalStateMutation,
        state: &mut State,
        effects: &mut Effects,
    ) -> (r: Result<(Option<FullInvocationId>, SpanRelation), Error>)
        requires
            old(self).machine(old(effects)).handle_external_state_mutation(
                old(state).snapshot(),
                mutation@,
            ).machine.fits(),
        ensures
            final(state).snapshot() == old(state).snapshot(),
            final(self).follows_applied(
                final(effects),
                old(self),
                old(self).machine(old(effects)),
                r,
                old(self).machine(old(effects)).handle_external_state_mutation(
                    old(state).snapshot(),
                    mutation@,
                ),
            ),
            r matches Err(e) ==> e is Storage && final(self).machine(final(effects)) == old(
                self,
            ).machine(old(effects)),
    {
        let service_status = match state.get_virtual_object_status(&mutation.component_id) {
            Ok(status) => status,
            Err(e) => {
                proof {
                    lemma_continues_itself(self.machine(effects));
                }
                return Err(Error::Storage(e));
            },
        };
        Ok(self.state_mutation_with_status(mutation, service_status, effects))
    }

    /// Changes the state of a virtual object of the given status, or queues
    /// the change.
    pub fn state_mutation_with_status(
        &mut self,
        mutation: ExternalStateMutation,
        service_status: VirtualObjectStatus,
        effects: &mut Effects,
    ) -> (r: (Option<FullInvocationId>, SpanRelation))
        requires
            old(self).machine(old(effects)).state_mutation_with_status(
                service_status@,
                mutation@,
            ).fits(),
        ensures
            final(self).stands_at(
                final(effects),
                old(self),
                old(self).machine(old(effects)).state_mutation_with_status(
                    service_status@,
                    mutation@,
                ),
            ),
            r == (None::<FullInvocationId>, SpanRelation::Unrelated),
    {
        match service_status {
            VirtualObjectStatus::Locked(_) => {
                self.enqueue_into_inbox(effects, InboxEntry::StateMutation(mutation))
            },
            VirtualObjectStatus::Unlocked => effects.apply_state_mutation(mutation),
        }
        (None, SpanRelation::Unrelated)
    }

    pub fn read_invocation_status<State: StateReader>(
        maybe_full_invocation_id: &MaybeFullInvocationId,
        state: &mut State,
    ) -> (r: Result<InvocationStatus, Error>)
        ensures
            final(state).snapshot() == old(state).snapshot(),
            r matches Ok(status) ==> status@ == old(state).snapshot().status_of(
                maybe_full_invocation_id@.invocation_id(),
            ),
            r matches Err(e) ==> e is Storage,
    {
        let invocation_id = maybe_full_invocation_id.invocation_id();
        match state.get_invocation_status(&invocation_id) {
            Ok(status) => Ok(status),
            Err(e) => Err(Error::Storage(e)),
        }
    }

    /// Stores a completion that arrived for a journal entry, and wakes the
    /// invocation if it waits for it.
    pub fn handle_completion<State: StateReader>(
        maybe_full_invocation_id: MaybeFullInvocationId,
        completion: Completion,
        state: &mut State,
        effects: &mut Effects,
    ) -> (r: Result<(Option<FullInvocationId>, SpanRelation), Error>)
        ensures
            final(state).snapshot() == old(state).snapshot(),
            collected(
                final(effects),
                old(effects)@,
                r,
                collecting(old(effects)@).handle_completion(
                    old(state).snapshot(),
                    maybe_full_invocation_id@,
                    completion@,
                ),
            ),
            r matches Err(e) ==> e is Storage,
    {
        let status = Self::read_invocation_status(&maybe_full_invocation_id, state)?;
        Ok(Self::completion_with_status(maybe_full_invocation_id, completion, status, effects))
    }

    /// Stores a completion for an invocation of the given status, and
    /// wakes the invocation if it waits for it.
    pub fn completion_with_status(
        maybe_full_invocation_id: MaybeFullInvocationId,
        completion: Completion,
        status: InvocationStatus,
        effects: &mut Effects,
    ) -> (r: (Option<FullInvocationId>, SpanRelation))
        ensures
            final(effects)@ == collecting(old(effects)@).completion_with_status(
                maybe_full_invocation_id@,
                completion@,
                status@,
            ).machine.effects,
            collecting(old(effects)@).completion_with_status(
                maybe_full_invocation_id@,
                completion@,
                status@,
            ).result == Ok::<Applied, CodecError>(applied_view(r)),
    {
        let invocation_id = maybe_full_invocation_id.invocation_id();
        match status {
            InvocationStatus::Invoked(metadata) => {
                let span_relation = metadata.journal_metadata.span_context.as_parent();
                let full_invocation_id = FullInvocationId::combine(
                    metadata.service_id,
                    invocation_id,
                );
                Self::handle_completion_for_invoked(
                    full_invocation_id.clone(),
                    completion,
                    effects,
                );
                (Some(full_invocation_id), span_relation)
            },
            InvocationStatus::Suspended { metadata, waiting_for_completed_entries } => {
                let full_invocation_id = FullInvocationId::combine(
                    metadata.service_id.clone(),
                    invocation_id,
                );
                let span_relation = metadata.journal_metadata.span_context.as_parent();
                if Self::handle_completion_for_suspended(
                    full_invocation_id.clone(),
                    completion,
                    &waiting_for_completed_entries,
                    effects,
                ) {
                    effects.resume_service(full_invocation_id.invocation_id(), metadata);
                }
                (Some(full_invocation_id), span_relation)
            },
            _ => (None, SpanRelation::Unrelated),
        }
    }

    /// Carries out one action of a built-in service.
    pub fn on_built_in_invoker_effect(
        &mut self,
        effects: &mut Effects,
        full_invocation_id: &FullInvocationId,
        invocation_metadata: &InvocationMetadata,
        nbis_effect: BuiltinServiceEffect,
    )
        requires
            old(self).machine(old(effects)).on_built_in_invoker_effect(
                full_invocation_id@,
                invocation_metadata@,
                nbis_effect@,
            ).fits(),
        ensures
            final(self).stands_at(
                final(effects),
                old(self),
                old(self).machine(old(effects)).on_built_in_invoker_effect(
                    full_invocation_id@,
                    invocation_metadata@,
                    nbis_effect@,
                ),
            ),
    {
        match nbis_effect {
            BuiltinServiceEffect::SetState { key, value } => {
                effects.set_state(
                    full_invocation_id.service_id.clone(),
                    full_invocation_id.invocation_id(),
                    invocation_metadata.journal_metadata.span_context,
                    bytes_from_string(key),
                    value,
                );
            },
            BuiltinServiceEffect::ClearState(key) => {
                effects.clear_state(
                    full_invocation_id.service_id.clone(),
                    full_invocation_id.invocation_id(),
                    invocation_metadata.journal_metadata.span_context,
                    bytes_from_string(key),
                );
            },
            BuiltinServiceEffect::OutboxMessage(msg) => {
                self.handle_outgoing_message(msg, effects);
            },
            BuiltinServiceEffect::End(None) => {
                self.end_invocation(
                    effects,
                    full_invocation_id.clone(),
                    invocation_metadata.clone(),
                );
            },
            BuiltinServiceEffect::End(Some(e)) => {
                self.fail_invocation(
                    effects,
                    full_invocation_id.clone(),
                    invocation_metadata.clone(),
                    e,
                );
            },
            BuiltinServiceEffect::IngressResponse(ingress_response) => {
                self.ingress_response(ingress_response, effects);
            },
        }
    }

    /// Carries out the actions of a built-in service, if its invocation
    /// runs.
    pub fn try_built_in_invoker_effect<State: StateReader>(
        &mut self,
        effects: &mut Effects,
        state: &mut State,
        nbis_effects: BuiltinServiceEffects,
    ) -> (r: Result<(Option<FullInvocationId>, SpanRelation), Error>)
        requires
            old(self).machine(old(effects)).try_built_in_invoker_effect(
                old(state).snapshot(),
                nbis_effects@,
            ).machine.fits(),
        ensures
            final(state).snapshot() == old(state).snapshot(),
            final(self).follows_applied(
                final(effects),
                old(self),
                old(self).machine(old(effects)),
                r,
                old(self).machine(old(effects)).try_built_in_invoker_effect(
                    old(state).snapshot(),
                    nbis_effects@,
                ),
            ),
            r matches Err(e) ==> e is Storage && final(self).machine(final(effects)) == old(
                self,
            ).machine(old(effects)),
    {
        let invocation_status = match state.get_invocation_status(
            &nbis_effects.full_invocation_id.invocation_id(),
        ) {
            Ok(status) => status,
            Err(e) => {
                proof {
                    lemma_continues_itself(self.machine(effects));
                }
                return Err(Error::Storage(e));
            },
        };
        Ok(self.built_in_invoker_effects_with_status(effects, nbis_effects, invocation_status))
    }

    /// Carries out the actions of a built-in service for an invocation of
    /// the given status: all of them if it runs, none if it does not.
    pub fn built_in_invoker_effects_with_status(
        &mut self,
        effects: &mut Effects,
        nbis_effects: BuiltinServiceEffects,
        invocation_status: InvocationStatus,
    ) -> (r: (Option<FullInvocationId>, SpanRelation))
        requires
            old(self).machine(old(effects)).built_in_with_status(
                nbis_effects@,
                invocation_status@,
            ).machine.fits(),
        ensures
            final(self).stands_at(
                final(effects),
                old(self),
                old(self).machine(old(effects)).built_in_with_status(
                    nbis_effects@,
                    invocation_status@,
                ).machine,
            ),
            old(self).machine(old(effects)).built_in_with_status(
                nbis_effects@,
                invocation_status@,
            ).result == Ok::<Applied, CodecError>(applied_view(r)),
    {
        let (full_invocation_id, nbis_effects) = nbis_effects.into_inner();
        match invocation_status {
            InvocationStatus::Invoked(invocation_metadata) => {
                let span_relation = invocation_metadata.journal_metadata.span_context.as_parent();
                let ghost views = builtin_effects_view(nbis_effects@);
                let ghost goal = old(self).machine(old(effects)).built_in_invoker_effects(
                    full_invocation_id@,
                    invocation_metadata@,
                    views,
                    0,
                );
                for nbis_effect in iter: nbis_effects
                    invariant
                        iter.seq() == nbis_effects@,
                        views == builtin_effects_view(nbis_effects@),
                        self.key_range() == old(self).key_range(),
                        self.machine(effects).built_in_invoker_effects(
                            full_invocation_id@,
                            invocation_metadata@,
                            views,
                            iter.index(),
                        ) == goal,
                        goal.fits(),
                {
                    proof {
                        lemma_built_in_invoker_effects_not_before(
                            self.machine(effects).on_built_in_invoker_effect(
                                full_invocation_id@,
                                invocation_metadata@,
                                views[iter.index()],
                            ),
                            full_invocation_id@,
                            invocation_metadata@,
                            views,
                            iter.index() + 1,
                        );
                    }
                    self.on_built_in_invoker_effect(
                        effects,
                        &full_invocation_id,
                        &invocation_metadata,
                        nbis_effect,
                    );
                }
                (Some(full_invocation_id), span_relation)
            },
            _ => (Some(full_invocation_id), SpanRelation::Unrelated),
        }
    }

    /// A timer fired.
    pub fn on_timer<State: StateReader>(
        &mut self,
        timer_value: TimerValue,
        state: &mut State,
        effects: &mut Effects,
    ) -> (r: Result<(Option<FullInvocationId>, SpanRelation), Error>)
        requires
            admissible(
                CommandView::Timer(timer_value@),
                old(state).snapshot(),
                old(self).key_range(),
            ),
            old(self).machine(old(effects)).on_timer::<BuiltIns>(
                old(state).snapshot(),
                timer_value@,
            ).machine.fits(),
        ensures
            final(state).snapshot() == old(state).snapshot(),
            final(self).follows_applied(
                final(effects),
                old(self),
                old(self).machine(old(effects)),
                r,
                old(self).machine(old(effects)).on_timer::<BuiltIns>(
                    old(state).snapshot(),
                    timer_value@,
                ),
            ),
            r matches Err(e) ==> e is Storage && final(self).machine(final(effects)) == old(
                self,
            ).machine(old(effects)).emit(EffectView::DeleteTimer(timer_value@.key)),
    {
        let (key, value) = timer_value.into_inner();
        let invocation_uuid = key.invocation_uuid;
        let entry_index = key.journal_index;
        effects.delete_timer(key);
        proof {
            lemma_one_more_continues(
                old(self).machine(old(effects)),
                EffectView::DeleteTimer(key),
                self.machine(effects),
            );
        }
        match value {
            Timer::CompleteSleepEntry(service_id) => Self::handle_completion(
                MaybeFullInvocationId::Full(FullInvocationId { service_id, invocation_uuid }),
                Completion { entry_index, result: CompletionResult::Empty },
                state,
                effects,
            ),
            Timer::Invoke(mut service_invocation) => {
                service_invocation.execution_time = None;
                self.handle_invoke(effects, state, service_invocation)
            },
        }
    }

    /// Applies `command` and appends its effects to `effects`. Returns the
    /// invocation that the command was about, if any, and the span to
    /// relate its trace to.
    ///
    /// The effects, the new sequence numbers and the result are a function
    /// of the command, of the state that `state` answers from and of the old
    /// sequence numbers.
    ///
    /// A command that fails has left no trace: the effects it has appended
    /// are to be thrown away, and the interpreter is to be made anew from
    /// the sequence numbers that were committed last.
    pub fn on_apply<State: StateReader>(
        &mut self,
        command: Command,
        effects: &mut Effects,
        state: &mut State,
    ) -> (r: Result<(Option<FullInvocationId>, SpanRelation), Error>)
        requires
            admissible(command@, old(state).snapshot(), old(self).key_range()),
            old(self).machine(old(effects)).on_apply::<Codec, BuiltIns>(
                old(state).snapshot(),
                command@,
            ).machine.fits(),
        ensures
            final(state).snapshot() == old(state).snapshot(),
            final(self).follows_applied(
                final(effects),
                old(self),
                old(self).machine(old(effects)),
                r,
                old(self).machine(old(effects)).on_apply::<Codec, BuiltIns>(
                    old(state).snapshot(),
                    command@,
                ),
            ),
            !reads_state(command@) ==> r is Ok,
    {
        match command {
            Command::Invoke(service_invocation) => self.handle_invoke(
                effects,
                state,
                service_invocation,
            ),
            Command::InvocationResponse(InvocationResponse { id, entry_index, result }) => {
                let completion = Completion {
                    entry_index,
                    result: CompletionResult::from_response(result),
                };
                proof {
                    lemma_continues_itself(self.machine(effects));
                }
                Self::handle_completion(id, completion, state, effects)
            },
            Command::InvokerEffect(effect) => {
                let (related_sid, span_relation) = self.try_invoker_effect(
                    effects,
                    state,
                    effect,
                )?;
                Ok((Some(related_sid), span_relation))
            },
            Command::TruncateOutbox(index) => {
                effects.truncate_outbox(index);
                Ok((None, SpanRelation::Unrelated))
            },
            Command::Timer(timer) => self.on_timer(timer, state, effects),
            Command::TerminateInvocation(invocation_termination) => self.try_terminate_invocation(
                invocation_termination,
                state,
                effects,
            ),
            Command::BuiltInInvokerEffect(builtin_service_effects) =>
                self.try_built_in_invoker_effect(effects, state, builtin_service_effects),
            Command::PatchState(mutation) => self.handle_external_state_mutation(
                mutation,
                state,
                effects,
            ),
            Command::AnnounceLeader(_) => Ok((None, SpanRelation::Unrelated)),
        }
    }
}

/// A machine continues itself.
pub proof fn lemma_continues_itself(machine: Machine)
    ensures
        machine.continues(machine),
{
    assert(machine.effects.subrange(0, machine.effects.len() as int) == machine.effects);
}

/// What continues a machine continues what that machine continues.
pub proof fn lemma_continues_further(first: Machine, second: Machine, third: Machine)
    requires
        second.continues(first),
        third.continues(second),
    ensures
        third.continues(first),
{
    assert(third.effects.subrange(0, first.effects.len() as int) == second.effects.subrange(
        0,
        first.effects.len() as int,
    ));
}

/// One more effect continues a machine, and so does one more entry in the
/// inbox or the outbox.
pub proof fn lemma_one_more_continues(machine: Machine, effect: EffectView, next: Machine)
    requires
        next.effects == machine.effects.push(effect),
        next.not_before(machine),
    ensures
        next.continues(machine),
{
    assert(next.effects.subrange(0, machine.effects.len() as int) == machine.effects);
}

/// Sending what a built-in service says never takes a sequence number back.
pub proof fn lemma_service_effects_not_before(
    machine: Machine,
    effects: Seq<ServiceEffectView>,
    from: int,
)
    ensures
        machine.service_effects(effects, from).not_before(machine),
    decreases effects.len() - from,
{
    if 0 <= from < effects.len() {
        lemma_service_effects_not_before(machine.service_effect(effects[from]), effects, from + 1);
    }
}

/// Carrying out the actions of a built-in service never takes a sequence
/// number back.
pub proof fn lemma_built_in_invoker_effects_not_before(
    machine: Machine,
    fid: FullInvocationIdView,
    metadata: InvocationMetadataView,
    effects: Seq<BuiltinServiceEffectView>,
    from: int,
)
    ensures
        machine.built_in_invoker_effects(fid, metadata, effects, from).not_before(machine),
    decreases effects.len() - from,
{
    if 0 <= from < effects.len() {
        lemma_built_in_invoker_effects_not_before(
            machine.on_built_in_invoker_effect(fid, metadata, effects[from]),
            fid,
            metadata,
            effects,
            from + 1,
        );
    }
}

/// Failing an invocation never takes a sequence number back.
pub proof fn lemma_fail_invocation_not_before(
    machine: Machine,
    fid: FullInvocationIdView,
    metadata: InvocationMetadataView,
    error: InvocationErrorView,
)
    ensures
        machine.fail_invocation(fid, metadata, error).not_before(machine),
{
}

/// The error for bytes that decode to another kind of entry than the header
/// of the entry says.
pub fn unexpected(expected: EntryType) -> (e: Error)
    ensures
        e == Error::Codec(unexpected_entry(expected)),
{
    Error::Codec(
        CodecError { entry_type: expected, kind: CodecErrorKind::UnexpectedEntry },
    )
}

} // verus!
