//! What the partition processor decides around the interpreter: which
//! command an actuator message becomes, and who is told that a command was
//! applied.
use crate::command::{Command, CommandView, InvokerEffect, InvokerEffectView};
use crate::deterministic::ServiceInvoker;
use crate::effects::Effects;
use crate::errors::Error;
use crate::identifiers::{FullInvocationId, MessageIndex};
use crate::interpreter::{applied_view, CommandInterpreter};
use crate::invocation::SpanRelation;
use crate::journal::RawEntryCodec;
use crate::model::{admissible, reads_state};
use crate::state::StateReader;
use vstd::prelude::*;

verus! {

/// Identifier of a peer of the cluster.
pub type PeerId = u64;

/// Identifier of an ingress.
pub type IngressId = u64;

/// What the sender of a message is told about it.
#[derive(Clone, Copy, Debug, PartialEq, Eq)]
pub enum AckKind {
    /// The message with this index was applied.
    Acknowledge(MessageIndex),
    /// The message was seen before; the second index is the last one known.
    Duplicate(MessageIndex, MessageIndex),
}

/// Who is to be told that a command was applied.
#[derive(Clone, Copy, Debug, PartialEq, Eq)]
pub enum AckTarget {
    Shuffle { shuffle_target: PeerId, msg_index: MessageIndex },
    Ingress { ingress_id: IngressId, msg_index: MessageIndex },
}

/// An acknowledgement for a shuffler.
#[derive(Clone, Copy, Debug, PartialEq, Eq)]
pub struct ShuffleAckResponse {
    pub shuffle_target: PeerId,
    pub kind: AckKind,
}

/// An acknowledgement for an ingress.
#[derive(Clone, Copy, Debug, PartialEq, Eq)]
pub struct IngressAckResponse {
    pub ingress_id: IngressId,
    pub kind: AckKind,
}

/// An acknowledgement on its way.
#[derive(Clone, Copy, Debug, PartialEq, Eq)]
pub enum AckResponse {
    Shuffle(ShuffleAckResponse),
    Ingress(IngressAckResponse),
}

impl AckTarget {
    pub fn shuffle(shuffle_target: PeerId, msg_index: MessageIndex) -> (r: Self)
        ensures
            r == (AckTarget::Shuffle { shuffle_target, msg_index }),
    {
        AckTarget::Shuffle { shuffle_target, msg_index }
    }

    pub fn ingress(ingress_id: IngressId, msg_index: MessageIndex) -> (r: Self)
        ensures
            r == (AckTarget::Ingress { ingress_id, msg_index }),
    {
        AckTarget::Ingress { ingress_id, msg_index }
    }

    /// The acknowledgement that the target is owed.
    pub open spec fn acknowledgement(self) -> AckResponse {
        match self {
            AckTarget::Shuffle { shuffle_target, msg_index } => AckResponse::Shuffle(
                ShuffleAckResponse { shuffle_target, kind: AckKind::Acknowledge(msg_index) },
            ),
            AckTarget::Ingress { ingress_id, msg_index } => AckResponse::Ingress(
                IngressAckResponse { ingress_id, kind: AckKind::Acknowledge(msg_index) },
            ),
        }
    }

    pub fn acknowledge(self) -> (r: AckResponse)
        ensures
            r == self.acknowledgement(),
    {
        match self {
            AckTarget::Shuffle { shuffle_target, msg_index } => AckResponse::Shuffle(
                ShuffleAckResponse { shuffle_target, kind: AckKind::Acknowledge(msg_index) },
            ),
            AckTarget::Ingress { ingress_id, msg_index } => AckResponse::Ingress(
                IngressAckResponse { ingress_id, kind: AckKind::Acknowledge(msg_index) },
            ),
        }
    }
}

/// A command, and who is to be told once it is applied.
#[derive(Debug, PartialEq, Eq)]
pub struct AckCommand {
    command: Command,
    ack_target: Option<AckTarget>,
}

pub struct AckCommandView {
    pub command: CommandView,
    pub ack_target: Option<AckTarget>,
}

impl View for AckCommand {
    type V = AckCommandView;

    closed spec fn view(&self) -> AckCommandView {
        AckCommandView { command: self.command@, ack_target: self.ack_target }
    }
}

impl AckCommand {
    /// A command whose sender waits for an acknowledgement.
    pub fn ack(command: Command, ack_target: AckTarget) -> (r: Self)
        ensures
            r@ == (AckCommandView { command: command@, ack_target: Some(ack_target) }),
    {
        AckCommand { command, ack_target: Some(ack_target) }
    }

    /// A command nobody waits for.
    pub fn no_ack(command: Command) -> (r: Self)
        ensures
            r@ == (AckCommandView { command: command@, ack_target: None }),
    {
        AckCommand { command, ack_target: None }
    }

    pub fn into_inner(self) -> (r: (Option<AckTarget>, Command))
        ensures
            r.0 == self@.ack_target,
            r.1@ == self@.command,
    {
        (self.ack_target, self.command)
    }
}

/// What an actuator of the partition reports back.
#[derive(Debug, PartialEq, Eq)]
pub enum ActuatorOutput {
    /// A report of the invoker.
    Invoker(InvokerEffect),
    /// The shuffler delivered the outbox up to this index.
    Shuffle(MessageIndex),
}

pub enum ActuatorOutputView {
    Invoker(InvokerEffectView),
    Shuffle(MessageIndex),
}

impl View for ActuatorOutput {
    type V = ActuatorOutputView;

    open spec fn view(&self) -> ActuatorOutputView {
        match self {
            ActuatorOutput::Invoker(effect) => ActuatorOutputView::Invoker(effect@),
            ActuatorOutput::Shuffle(index) => ActuatorOutputView::Shuffle(*index),
        }
    }
}

/// The command that the partition proposes for an actuator message.
pub open spec fn proposal(message: ActuatorOutputView) -> AckCommandView {
    AckCommandView {
        command: match message {
            ActuatorOutputView::Invoker(effect) => CommandView::InvokerEffect(effect),
            ActuatorOutputView::Shuffle(index) => CommandView::TruncateOutbox(index),
        },
        ack_target: None,
    }
}

/// Turns an actuator message into the command to propose. Nobody waits for
/// an acknowledgement of it.
pub fn actuator_proposal(actuator_message: ActuatorOutput) -> (r: AckCommand)
    ensures
        r@ == proposal(actuator_message@),
{
    match actuator_message {
        ActuatorOutput::Invoker(invoker_output) => AckCommand::no_ack(
            Command::InvokerEffect(invoker_output),
        ),
        ActuatorOutput::Shuffle(index) => AckCommand::no_ack(Command::TruncateOutbox(index)),
    }
}

/// Applies a command of the log: the effects buffer
/// is emptied, the interpreter fills it, and the acknowledgement that the
/// sender of the command is owed is returned with what the interpreter
/// returns.
pub fn apply_command<Codec: RawEntryCodec, BuiltIns: ServiceInvoker, State: StateReader>(
    interpreter: &mut CommandInterpreter<Codec, BuiltIns>,
    ackable_command: AckCommand,
    effects: &mut Effects,
    state: &mut State,
) -> (r: Result<((Option<FullInvocationId>, SpanRelation), Option<AckResponse>), Error>)
    requires
        admissible(ackable_command@.command, old(state).snapshot(), old(interpreter).key_range()),
        old(interpreter).at_rest().on_apply::<Codec, BuiltIns>(
            old(state).snapshot(),
            ackable_command@.command,
        ).machine.fits(),
    ensures
        final(state).snapshot() == old(state).snapshot(),
        final(interpreter).follows(
            final(effects),
            old(interpreter),
            old(interpreter).at_rest(),
            r,
            (|done: ((Option<FullInvocationId>, SpanRelation), Option<AckResponse>)|
                applied_view(done.0)),
            old(interpreter).at_rest().on_apply::<Codec, BuiltIns>(
                old(state).snapshot(),
                ackable_command@.command,
            ),
        ),
        r matches Ok(done) ==> done.1 == match ackable_command@.ack_target {
            Some(target) => Some(target.acknowledgement()),
            None => None,
        },
        !reads_state(ackable_command@.command) ==> r is Ok,
{
    let (ack_target, command) = ackable_command.into_inner();
    effects.clear();
    let applied = interpreter.on_apply(command, effects, state)?;
    let acknowledgement = match ack_target {
        Some(target) => Some(target.acknowledge()),
        None => None,
    };
    Ok((applied, acknowledgement))
}

} // verus!
