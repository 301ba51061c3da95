use bytes::Bytes;
use partition_interpreter::command::{Command, InvokerEffect, InvokerEffectKind};
use partition_interpreter::deterministic::NoBuiltInServices;
use partition_interpreter::effects::{Effect, Effects};
use partition_interpreter::errors::{Error, StorageError};
use partition_interpreter::identifiers::{
    EntryIndex, FullInvocationId, InvocationId, MaybeFullInvocationId, ServiceId,
};
use partition_interpreter::interpreter::CommandInterpreter;
use partition_interpreter::invocation::SpanRelation;
use partition_interpreter::journal::{
    CodecError, CodecErrorKind, CompletionResult, EnrichedRawEntry, Entry, EntryType,
    RawEntryCodec,
};
use partition_interpreter::processor::{
    actuator_proposal, apply_command, AckCommand, AckKind, AckResponse, AckTarget,
    ActuatorOutput, IngressAckResponse, ShuffleAckResponse,
};
use partition_interpreter::state::{JournalItem, StateReader};
use partition_interpreter::storage::{
    InvocationStatus, SequenceNumberInvocation, VirtualObjectStatus,
};

struct NoCodec;

impl RawEntryCodec for NoCodec {
    fn deserialize(entry_type: EntryType, _entry_value: &Bytes) -> Result<Entry, CodecError> {
        Err(CodecError { entry_type, kind: CodecErrorKind::Malformed })
    }

    fn write_completion(
        entry: &mut EnrichedRawEntry,
        _completion_result: CompletionResult,
    ) -> Result<(), CodecError> {
        Err(CodecError { entry_type: entry.ty(), kind: CodecErrorKind::NotCompletable })
    }

    fn serialize_get_state_keys_completion(_keys: Vec<Bytes>) -> CompletionResult {
        CompletionResult::Empty
    }
}

/// A state in which nothing runs and nothing is stored; `down` makes every
/// read fail.
struct EmptyState {
    down: bool,
}

impl EmptyState {
    fn read<T>(&self, value: T) -> Result<T, StorageError> {
        if self.down {
            Err(StorageError { reason: "down".to_string() })
        } else {
            Ok(value)
        }
    }
}

impl StateReader for EmptyState {
    fn get_virtual_object_status(
        &mut self,
        _service_id: &ServiceId,
    ) -> Result<VirtualObjectStatus, StorageError> {
        self.read(VirtualObjectStatus::Unlocked)
    }

    fn get_invocation_status(
        &mut self,
        _invocation_id: &InvocationId,
    ) -> Result<InvocationStatus, StorageError> {
        self.read(InvocationStatus::Free)
    }

    fn get_inboxed_invocation(
        &mut self,
        _maybe_fid: MaybeFullInvocationId,
    ) -> Result<Option<SequenceNumberInvocation>, StorageError> {
        self.read(None)
    }

    fn is_entry_resumable(
        &mut self,
        _invocation_id: &InvocationId,
        _entry_index: EntryIndex,
    ) -> Result<bool, StorageError> {
        self.read(false)
    }

    fn load_state(
        &mut self,
        _service_id: &ServiceId,
        _key: &Bytes,
    ) -> Result<Option<Bytes>, StorageError> {
        self.read(None)
    }

    fn load_state_keys(&mut self, _service_id: &ServiceId) -> Result<Vec<Bytes>, StorageError> {
        self.read(Vec::new())
    }

    fn load_completion_result(
        &mut self,
        _invocation_id: &InvocationId,
        _entry_index: EntryIndex,
    ) -> Result<Option<CompletionResult>, StorageError> {
        self.read(None)
    }

    fn get_journal(&mut self, _invocation_id: &InvocationId, _length: EntryIndex) -> Vec<JournalItem> {
        Vec::new()
    }
}

fn fid() -> FullInvocationId {
    FullInvocationId::with_partition_key(1, "svc".to_string(), Bytes::from("k"), 0xA)
}

fn end() -> InvokerEffect {
    InvokerEffect { full_invocation_id: fid(), kind: InvokerEffectKind::End }
}

#[test]
fn acknowledgement_goes_to_the_target() {
    assert_eq!(
        AckTarget::shuffle(7, 42).acknowledge(),
        AckResponse::Shuffle(ShuffleAckResponse { shuffle_target: 7, kind: AckKind::Acknowledge(42) })
    );
    assert_eq!(
        AckTarget::ingress(9, 43).acknowledge(),
        AckResponse::Ingress(IngressAckResponse { ingress_id: 9, kind: AckKind::Acknowledge(43) })
    );
    assert_eq!(AckTarget::shuffle(7, 42), AckTarget::Shuffle { shuffle_target: 7, msg_index: 42 });
    assert_eq!(AckTarget::ingress(9, 43), AckTarget::Ingress { ingress_id: 9, msg_index: 43 });
}

#[test]
fn ack_command_keeps_command_and_target() {
    let target = AckTarget::shuffle(1, 2);
    assert_eq!(
        AckCommand::ack(Command::TruncateOutbox(5), target).into_inner(),
        (Some(target), Command::TruncateOutbox(5))
    );
    assert_eq!(
        AckCommand::no_ack(Command::TruncateOutbox(5)).into_inner(),
        (None, Command::TruncateOutbox(5))
    );
}

#[test]
fn actuator_messages_become_commands() {
    assert_eq!(
        actuator_proposal(ActuatorOutput::Invoker(end())),
        AckCommand::no_ack(Command::InvokerEffect(end()))
    );
    assert_eq!(
        actuator_proposal(ActuatorOutput::Shuffle(17)),
        AckCommand::no_ack(Command::TruncateOutbox(17))
    );
}

#[test]
fn applying_a_command_empties_the_buffer_and_acknowledges() {
    let mut interpreter: CommandInterpreter<NoCodec, NoBuiltInServices> =
        CommandInterpreter::new(0, 0, 0..=u64::MAX);
    let mut effects = Effects::new();
    effects.truncate_outbox(99);
    let mut state = EmptyState { down: false };
    let applied = apply_command(
        &mut interpreter,
        AckCommand::ack(Command::InvokerEffect(end()), AckTarget::ingress(4, 8)),
        &mut effects,
        &mut state,
    );
    assert_eq!(
        applied,
        Ok((
            (Some(fid()), SpanRelation::Unrelated),
            Some(AckResponse::Ingress(IngressAckResponse {
                ingress_id: 4,
                kind: AckKind::Acknowledge(8),
            })),
        ))
    );
    assert_eq!(effects.into_inner(), vec![Effect::AbortInvocation(fid())]);
}

#[test]
fn applying_a_command_without_target_acknowledges_nothing() {
    let mut interpreter: CommandInterpreter<NoCodec, NoBuiltInServices> =
        CommandInterpreter::new(0, 0, 0..=u64::MAX);
    let mut effects = Effects::new();
    let mut state = EmptyState { down: false };
    let applied = apply_command(
        &mut interpreter,
        actuator_proposal(ActuatorOutput::Shuffle(3)),
        &mut effects,
        &mut state,
    );
    assert_eq!(applied, Ok(((None, SpanRelation::Unrelated), None)));
    assert_eq!(effects.into_inner(), vec![Effect::TruncateOutbox(3)]);
}

#[test]
fn a_command_that_fails_is_not_acknowledged() {
    let mut interpreter: CommandInterpreter<NoCodec, NoBuiltInServices> =
        CommandInterpreter::new(0, 0, 0..=u64::MAX);
    let mut effects = Effects::new();
    let mut state = EmptyState { down: true };
    let applied = apply_command(
        &mut interpreter,
        AckCommand::ack(Command::InvokerEffect(end()), AckTarget::shuffle(4, 8)),
        &mut effects,
        &mut state,
    );
    assert_eq!(applied, Err(Error::Storage(StorageError { reason: "down".to_string() })));
}
