//! The commands that a partition applies.
use crate::errors::{InvocationError, InvocationErrorView};
use crate::identifiers::{EntryIndex, FullInvocationId, FullInvocationIdView, MessageIndex};
use crate::invocation::{
    IngressResponse, IngressResponseView, InvocationResponse, InvocationResponseView,
    InvocationTermination, InvocationTerminationView, ServiceInvocation, ServiceInvocationView,
};
use crate::journal::{EnrichedRawEntry, EnrichedRawEntryView};
use crate::octets::bytes_contents;
use crate::storage::{
    DeploymentId, ExternalStateMutation, ExternalStateMutationView, OutboxMessage,
    OutboxMessageView, TimerValue, TimerValueView,
};
use bytes::Bytes;
use std::collections::HashSet;
use vstd::prelude::*;

verus! {

/// What the invoker reports of an invocation it executes.
#[derive(Debug, PartialEq, Eq)]
pub enum InvokerEffectKind {
    /// The deployment that was chosen to run the invocation.
    SelectedDeployment(DeploymentId),
    /// The next entry of the journal.
    JournalEntry { entry_index: EntryIndex, entry: EnrichedRawEntry },
    /// The invocation waits for the completion of one of these entries.
    Suspended { waiting_for_completed_entries: HashSet<EntryIndex> },
    /// The invocation is over.
    End,
    /// The invocation failed for good.
    Failed(InvocationError),
}

pub enum InvokerEffectKindView {
    SelectedDeployment(DeploymentId),
    JournalEntry { entry_index: EntryIndex, entry: EnrichedRawEntryView },
    Suspended { waiting_for_completed_entries: Set<EntryIndex> },
    End,
    Failed(InvocationErrorView),
}

impl View for InvokerEffectKind {
    type V = InvokerEffectKindView;

    open spec fn view(&self) -> InvokerEffectKindView {
        match self {
            InvokerEffectKind::SelectedDeployment(id) => InvokerEffectKindView::SelectedDeployment(
                *id,
            ),
            InvokerEffectKind::JournalEntry { entry_index, entry } =>
                InvokerEffectKindView::JournalEntry { entry_index: *entry_index, entry: entry@ },
            InvokerEffectKind::Suspended { waiting_for_completed_entries } =>
                InvokerEffectKindView::Suspended {
                    waiting_for_completed_entries: waiting_for_completed_entries@,
                },
            InvokerEffectKind::End => InvokerEffectKindView::End,
            InvokerEffectKind::Failed(error) => InvokerEffectKindView::Failed(error@),
        }
    }
}

/// A report of the invoker about one invocation.
#[derive(Debug, PartialEq, Eq)]
pub struct InvokerEffect {
    pub full_invocation_id: FullInvocationId,
    pub kind: InvokerEffectKind,
}

pub struct InvokerEffectView {
    pub full_invocation_id: FullInvocationIdView,
    pub kind: InvokerEffectKindView,
}

impl View for InvokerEffect {
    type V = InvokerEffectView;

    open spec fn view(&self) -> InvokerEffectView {
        InvokerEffectView { full_invocation_id: self.full_invocation_id@, kind: self.kind@ }
    }
}

/// One action of a built-in service that does not answer at once.
#[derive(Debug, PartialEq, Eq)]
pub enum BuiltinServiceEffect {
    SetState { key: String, value: Bytes },
    ClearState(String),
    OutboxMessage(OutboxMessage),
    /// The invocation is over: with success, or with the given failure.
    End(Option<InvocationError>),
    IngressResponse(IngressResponse),
}

pub enum BuiltinServiceEffectView {
    SetState { key: Seq<char>, value: Seq<u8> },
    ClearState(Seq<char>),
    OutboxMessage(OutboxMessageView),
    End(Option<InvocationErrorView>),
    IngressResponse(IngressResponseView),
}

impl View for BuiltinServiceEffect {
    type V = BuiltinServiceEffectView;

    open spec fn view(&self) -> BuiltinServiceEffectView {
        match self {
            BuiltinServiceEffect::SetState { key, value } => BuiltinServiceEffectView::SetState {
                key: key@,
                value: bytes_contents(*value),
            },
            BuiltinServiceEffect::ClearState(key) => BuiltinServiceEffectView::ClearState(key@),
            BuiltinServiceEffect::OutboxMessage(message) => BuiltinServiceEffectView::OutboxMessage(
                message@,
            ),
            BuiltinServiceEffect::End(error) => BuiltinServiceEffectView::End(
                match error {
                    Some(e) => Some(e@),
                    None => None,
                },
            ),
            BuiltinServiceEffect::IngressResponse(response) =>
                BuiltinServiceEffectView::IngressResponse(response@),
        }
    }
}

/// The actions of a built-in service for one invocation, in order.
#[derive(Debug, PartialEq, Eq)]
pub struct BuiltinServiceEffects {
    pub full_invocation_id: FullInvocationId,
    pub effects: Vec<BuiltinServiceEffect>,
}

pub struct BuiltinServiceEffectsView {
    pub full_invocation_id: FullInvocationIdView,
    pub effects: Seq<BuiltinServiceEffectView>,
}

/// The views of a list of built-in service actions.
pub open spec fn builtin_effects_view(effects: Seq<BuiltinServiceEffect>) -> Seq<
    BuiltinServiceEffectView,
> {
    effects.map_values(|e: BuiltinServiceEffect| e@)
}

impl View for BuiltinServiceEffects {
    type V = BuiltinServiceEffectsView;

    open spec fn view(&self) -> BuiltinServiceEffectsView {
        BuiltinServiceEffectsView {
            full_invocation_id: self.full_invocation_id@,
            effects: builtin_effects_view(self.effects@),
        }
    }
}

impl BuiltinServiceEffects {
    pub fn new(full_invocation_id: FullInvocationId, effects: Vec<BuiltinServiceEffect>) -> (r:
        Self)
        ensures
            r@ == (BuiltinServiceEffectsView {
                full_invocation_id: full_invocation_id@,
                effects: builtin_effects_view(effects@),
            }),
    {
        BuiltinServiceEffects { full_invocation_id, effects }
    }

    pub fn into_inner(self) -> (r: (FullInvocationId, Vec<BuiltinServiceEffect>))
        ensures
            r.0@ == self@.full_invocation_id,
            builtin_effects_view(r.1@) == self@.effects,
    {
        (self.full_invocation_id, self.effects)
    }
}

/// Announcement of a new leader of the partition.
#[derive(Clone, Copy, Debug, PartialEq, Eq)]
pub struct AnnounceLeader {
    pub node_id: u64,
    pub leader_epoch: u64,
}

/// A command of the partition's log.
#[derive(Debug, PartialEq, Eq)]
pub enum Command {
    /// Start an invocation, or queue it.
    Invoke(ServiceInvocation),
    /// The result of a call that an invocation of this partition made.
    InvocationResponse(InvocationResponse),
    /// A report of the invoker.
    InvokerEffect(InvokerEffect),
    /// The outbox was delivered up to and including this sequence number.
    TruncateOutbox(MessageIndex),
    /// A timer fired.
    Timer(TimerValue),
    /// Kill or cancel an invocation.
    TerminateInvocation(InvocationTermination),
    /// The actions of a built-in service.
    BuiltInInvokerEffect(BuiltinServiceEffects),
    /// Change the state of a virtual object from outside.
    PatchState(ExternalStateMutation),
    /// A new leader took over.
    AnnounceLeader(AnnounceLeader),
}

pub enum CommandView {
    Invoke(ServiceInvocationView),
    InvocationResponse(InvocationResponseView),
    InvokerEffect(InvokerEffectView),
    TruncateOutbox(MessageIndex),
    Timer(TimerValueView),
    TerminateInvocation(InvocationTerminationView),
    BuiltInInvokerEffect(BuiltinServiceEffectsView),
    PatchState(ExternalStateMutationView),
    AnnounceLeader(AnnounceLeader),
}

impl View for Command {
    type V = CommandView;

    open spec fn view(&self) -> CommandView {
        match self {
            Command::Invoke(invocation) => CommandView::Invoke(invocation@),
            Command::InvocationResponse(response) => CommandView::InvocationResponse(response@),
            Command::InvokerEffect(effect) => CommandView::InvokerEffect(effect@),
            Command::TruncateOutbox(index) => CommandView::TruncateOutbox(*index),
            Command::Timer(timer) => CommandView::Timer(timer@),
            Command::TerminateInvocation(termination) => CommandView::TerminateInvocation(
                termination@,
            ),
            Command::BuiltInInvokerEffect(effects) => CommandView::BuiltInInvokerEffect(effects@),
            Command::PatchState(mutation) => CommandView::PatchState(mutation@),
            Command::AnnounceLeader(leader) => CommandView::AnnounceLeader(*leader),
        }
    }
}

} // verus!
