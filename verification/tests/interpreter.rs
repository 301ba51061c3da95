use bytes::Bytes;
use partition_interpreter::command::{
    AnnounceLeader, BuiltinServiceEffect, BuiltinServiceEffects, Command, InvokerEffect,
    InvokerEffectKind,
};
use partition_interpreter::deterministic::{NoBuiltInServices, ServiceEffect, ServiceInvoker};
use partition_interpreter::effects::{Effect, Effects};
use partition_interpreter::errors::{
    Error, InvocationError, StorageError, ABORTED_CODE, CANCELLED_CODE,
};
use partition_interpreter::identifiers::{
    EntryIndex, FullInvocationId, InvocationId, MaybeFullInvocationId, ServiceId,
};
use partition_interpreter::clock::millis_since_epoch;
use partition_interpreter::interpreter::journal_entries::any_entry_resumable;
use partition_interpreter::interpreter::termination::InvocationStatusProjection;
use partition_interpreter::interpreter::CommandInterpreter;
use partition_interpreter::invocation::{
    Header, IngressResponse, InvocationResponse, InvocationTermination, ResponseResult,
    ServiceInvocation, ServiceInvocationResponseSink, ServiceInvocationSpanContext, Source,
    SpanRelation, SpanRelationCause, TerminationFlavor,
};
use partition_interpreter::journal::{
    AwakeableEnrichmentResult, CodecError, CodecErrorKind, Completion, CompletionResult,
    EnrichedEntryHeader, EnrichedRawEntry, Entry, EntryType, InvokeEnrichmentResult,
    InvokeRequest, JournalEntry, RawEntryCodec,
};
use partition_interpreter::state::{JournalItem, StateReader};
use partition_interpreter::storage::{
    ExternalStateMutation, InboxEntry, InvocationMetadata, InvocationStatus, JournalMetadata,
    OutboxMessage, SequenceNumberInvocation, StateEntry, StatusTimestamps, Timer, TimerKey,
    TimerValue, VirtualObjectStatus,
};
use std::collections::HashSet;

// A codec for the tests: a tag byte, then the fields of the entry. Byte
// strings are written with their length in front.

fn put_bytes(out: &mut Vec<u8>, bytes: &[u8]) {
    out.extend_from_slice(&(bytes.len() as u32).to_be_bytes());
    out.extend_from_slice(bytes);
}

fn put_result(out: &mut Vec<u8>, result: &ResponseResult) {
    match result {
        ResponseResult::Success(value) => {
            out.push(0);
            put_bytes(out, value);
        }
        ResponseResult::Failure(code, message) => {
            out.push(1);
            out.extend_from_slice(&code.to_be_bytes());
            put_bytes(out, message.as_bytes());
        }
    }
}

fn put_request(out: &mut Vec<u8>, request: &InvokeRequest) {
    put_bytes(out, request.service_name.as_bytes());
    put_bytes(out, request.method_name.as_bytes());
    put_bytes(out, &request.parameter);
}

fn encode(entry: &Entry) -> Bytes {
    let mut out = Vec::new();
    match entry {
        Entry::Input { value } => {
            out.push(0);
            put_bytes(&mut out, value);
        }
        Entry::Output { result } => {
            out.push(1);
            put_result(&mut out, result);
        }
        Entry::GetState { key } => {
            out.push(2);
            put_bytes(&mut out, key);
        }
        Entry::SetState { key, value } => {
            out.push(3);
            put_bytes(&mut out, key);
            put_bytes(&mut out, value);
        }
        Entry::ClearState { key } => {
            out.push(4);
            put_bytes(&mut out, key);
        }
        Entry::GetStateKeys => out.push(5),
        Entry::ClearAllState => out.push(6),
        Entry::Sleep { wake_up_time } => {
            out.push(7);
            out.extend_from_slice(&wake_up_time.to_be_bytes());
        }
        Entry::Invoke { request } => {
            out.push(8);
            put_request(&mut out, request);
        }
        Entry::BackgroundInvoke { request, invoke_time } => {
            out.push(9);
            put_request(&mut out, request);
            out.extend_from_slice(&invoke_time.to_be_bytes());
        }
        Entry::Awakeable => out.push(10),
        Entry::CompleteAwakeable { id, result } => {
            out.push(11);
            put_bytes(&mut out, id.as_bytes());
            put_result(&mut out, result);
        }
        Entry::Custom { value } => {
            out.push(12);
            put_bytes(&mut out, value);
        }
    }
    Bytes::from(out)
}

struct Cursor<'a> {
    data: &'a [u8],
}

impl<'a> Cursor<'a> {
    fn take(&mut self, n: usize) -> Option<&'a [u8]> {
        if self.data.len() < n {
            return None;
        }
        let (head, tail) = self.data.split_at(n);
        self.data = tail;
        Some(head)
    }

    fn byte(&mut self) -> Option<u8> {
        Some(self.take(1)?[0])
    }

    fn u32(&mut self) -> Option<u32> {
        Some(u32::from_be_bytes(self.take(4)?.try_into().ok()?))
    }

    fn u64(&mut self) -> Option<u64> {
        Some(u64::from_be_bytes(self.take(8)?.try_into().ok()?))
    }

    fn bytes(&mut self) -> Option<Bytes> {
        let n = self.u32()? as usize;
        Some(Bytes::copy_from_slice(self.take(n)?))
    }

    fn string(&mut self) -> Option<String> {
        String::from_utf8(self.bytes()?.to_vec()).ok()
    }

    fn result(&mut self) -> Option<ResponseResult> {
        match self.byte()? {
            0 => Some(ResponseResult::Success(self.bytes()?)),
            1 => {
                let code = self.u32()?;
                Some(ResponseResult::Failure(code, self.string()?))
            }
            _ => None,
        }
    }

    fn request(&mut self) -> Option<InvokeRequest> {
        Some(InvokeRequest {
            service_name: self.string()?,
            method_name: self.string()?,
            parameter: self.bytes()?,
        })
    }
}

fn decode(raw: &[u8]) -> Option<Entry> {
    let mut cursor = Cursor { data: raw };
    Some(match cursor.byte()? {
        0 => Entry::Input { value: cursor.bytes()? },
        1 => Entry::Output { result: cursor.result()? },
        2 => Entry::GetState { key: cursor.bytes()? },
        3 => Entry::SetState { key: cursor.bytes()?, value: cursor.bytes()? },
        4 => Entry::ClearState { key: cursor.bytes()? },
        5 => Entry::GetStateKeys,
        6 => Entry::ClearAllState,
        7 => Entry::Sleep { wake_up_time: cursor.u64()? },
        8 => Entry::Invoke { request: cursor.request()? },
        9 => Entry::BackgroundInvoke { request: cursor.request()?, invoke_time: cursor.u64()? },
        10 => Entry::Awakeable,
        11 => Entry::CompleteAwakeable { id: cursor.string()?, result: cursor.result()? },
        12 => Entry::Custom { value: cursor.bytes()? },
        _ => return None,
    })
}

/// The bytes of an entry after `result` was written into it.
fn with_completion(raw: &Bytes, result: &CompletionResult) -> Bytes {
    let mut out = raw.to_vec();
    out.push(0xFF);
    match result {
        CompletionResult::Empty => out.push(0),
        CompletionResult::Success(value) => {
            out.push(1);
            put_bytes(&mut out, value);
        }
        CompletionResult::Failure(code, message) => {
            out.push(2);
            out.extend_from_slice(&code.to_be_bytes());
            put_bytes(&mut out, message.as_bytes());
        }
    }
    Bytes::from(out)
}

struct TestCodec;

impl RawEntryCodec for TestCodec {
    fn deserialize(entry_type: EntryType, entry_value: &Bytes) -> Result<Entry, CodecError> {
        decode(entry_value).ok_or(CodecError { entry_type, kind: CodecErrorKind::Malformed })
    }

    fn write_completion(
        entry: &mut EnrichedRawEntry,
        completion_result: CompletionResult,
    ) -> Result<(), CodecError> {
        let refused = CodecError { entry_type: entry.ty(), kind: CodecErrorKind::NotCompletable };
        match &mut entry.header {
            EnrichedEntryHeader::GetState { is_completed }
            | EnrichedEntryHeader::GetStateKeys { is_completed }
            | EnrichedEntryHeader::Sleep { is_completed }
            | EnrichedEntryHeader::Invoke { is_completed, .. }
            | EnrichedEntryHeader::Awakeable { is_completed } => {
                if *is_completed {
                    return Err(refused);
                }
                *is_completed = true;
            }
            _ => return Err(refused),
        }
        entry.entry = with_completion(&entry.entry, &completion_result);
        Ok(())
    }

    fn serialize_get_state_keys_completion(keys: Vec<Bytes>) -> CompletionResult {
        let mut out = Vec::new();
        for key in &keys {
            put_bytes(&mut out, key);
        }
        CompletionResult::Success(Bytes::from(out))
    }
}

// A state reader for the tests: it answers from lists.

#[derive(Default)]
struct MockState {
    locks: Vec<(ServiceId, VirtualObjectStatus)>,
    statuses: Vec<(InvocationId, InvocationStatus)>,
    inbox: Vec<SequenceNumberInvocation>,
    resumable: Vec<(InvocationId, EntryIndex)>,
    values: Vec<(ServiceId, Bytes, Bytes)>,
    completions: Vec<(InvocationId, EntryIndex, CompletionResult)>,
    journals: Vec<(InvocationId, Vec<JournalEntry>)>,
    /// Every read fails.
    down: bool,
    /// Reading the journal fails at this index.
    journal_breaks_at: Option<usize>,
}

impl MockState {
    fn check(&self) -> Result<(), StorageError> {
        if self.down {
            Err(StorageError { reason: "down".to_string() })
        } else {
            Ok(())
        }
    }
}

impl StateReader for MockState {
    fn get_virtual_object_status(
        &mut self,
        service_id: &ServiceId,
    ) -> Result<VirtualObjectStatus, StorageError> {
        self.check()?;
        for (id, status) in &self.locks {
            if id == service_id {
                return Ok(status.clone());
            }
        }
        Ok(VirtualObjectStatus::Unlocked)
    }

    fn get_invocation_status(
        &mut self,
        invocation_id: &InvocationId,
    ) -> Result<InvocationStatus, StorageError> {
        self.check()?;
        for (id, status) in &self.statuses {
            if id == invocation_id {
                return Ok(status.clone());
            }
        }
        Ok(InvocationStatus::Free)
    }

    fn get_inboxed_invocation(
        &mut self,
        maybe_fid: MaybeFullInvocationId,
    ) -> Result<Option<SequenceNumberInvocation>, StorageError> {
        self.check()?;
        for entry in &self.inbox {
            if entry.invocation.fid.invocation_id() == maybe_fid.invocation_id() {
                return Ok(Some(entry.clone()));
            }
        }
        Ok(None)
    }

    fn is_entry_resumable(
        &mut self,
        invocation_id: &InvocationId,
        entry_index: EntryIndex,
    ) -> Result<bool, StorageError> {
        self.check()?;
        Ok(self.resumable.contains(&(*invocation_id, entry_index)))
    }

    fn load_state(
        &mut self,
        service_id: &ServiceId,
        key: &Bytes,
    ) -> Result<Option<Bytes>, StorageError> {
        self.check()?;
        for (id, k, v) in &self.values {
            if id == service_id && k == key {
                return Ok(Some(v.clone()));
            }
        }
        Ok(None)
    }

    fn load_state_keys(&mut self, service_id: &ServiceId) -> Result<Vec<Bytes>, StorageError> {
        self.check()?;
        let mut keys = Vec::new();
        for (id, k, _) in &self.values {
            if id == service_id {
                keys.push(k.clone());
            }
        }
        Ok(keys)
    }

    fn load_completion_result(
        &mut self,
        invocation_id: &InvocationId,
        entry_index: EntryIndex,
    ) -> Result<Option<CompletionResult>, StorageError> {
        self.check()?;
        for (id, index, result) in &self.completions {
            if id == invocation_id && *index == entry_index {
                return Ok(Some(result.clone()));
            }
        }
        Ok(None)
    }

    fn get_journal(&mut self, invocation_id: &InvocationId, length: EntryIndex) -> Vec<JournalItem> {
        let mut items = Vec::new();
        if self.down {
            if length > 0 {
                items.push(Err(StorageError { reason: "down".to_string() }));
            }
            return items;
        }
        for (id, entries) in &self.journals {
            if id == invocation_id {
                for (index, entry) in entries.iter().enumerate().take(length as usize) {
                    if self.journal_breaks_at == Some(index) {
                        items.push(Err(StorageError { reason: "broken".to_string() }));
                        return items;
                    }
                    items.push(Ok((index as EntryIndex, entry.clone())));
                }
            }
        }
        items
    }
}

type Interpreter = CommandInterpreter<TestCodec, NoBuiltInServices>;

const PARTITION: u64 = 7;
const UUID_A: u128 = 0xA;
const UUID_B: u128 = 0xB;
const T: u64 = 1_700_000_000_000;

fn interpreter() -> Interpreter {
    CommandInterpreter::new(0, 0, 0..=u64::MAX)
}

fn service(name: &str, key: &'static str) -> ServiceId {
    ServiceId::with_partition_key(PARTITION, name.to_string(), Bytes::from(key))
}

fn fid(name: &str, key: &'static str, uuid: u128) -> FullInvocationId {
    FullInvocationId { service_id: service(name, key), invocation_uuid: uuid }
}

fn fid_a() -> FullInvocationId {
    fid("svc", "k", UUID_A)
}

fn span() -> ServiceInvocationSpanContext {
    ServiceInvocationSpanContext { trace_id: 0x77, span_id: 0x11, cause: None }
}

fn parent_span() -> SpanRelation {
    SpanRelation::Parent { trace_id: 0x77, span_id: 0x11 }
}

fn invocation(sink: Option<ServiceInvocationResponseSink>) -> ServiceInvocation {
    ServiceInvocation {
        fid: fid_a(),
        method_name: "m".to_string(),
        argument: Bytes::from("arg"),
        source: Source::Ingress,
        response_sink: sink,
        span_context: span(),
        headers: vec![],
        execution_time: None,
    }
}

fn ingress_sink() -> Option<ServiceInvocationResponseSink> {
    Some(ServiceInvocationResponseSink::Ingress(1))
}

fn metadata(length: EntryIndex, sink: Option<ServiceInvocationResponseSink>) -> InvocationMetadata {
    InvocationMetadata {
        service_id: service("svc", "k"),
        journal_metadata: JournalMetadata { length, span_context: span() },
        deployment_id: None,
        method: "m".to_string(),
        response_sink: sink,
        timestamps: StatusTimestamps { creation_time: 5, modification_time: 6 },
        source: Source::Ingress,
    }
}

fn invoked(length: EntryIndex, sink: Option<ServiceInvocationResponseSink>) -> MockState {
    MockState {
        statuses: vec![(fid_a().invocation_id(), InvocationStatus::Invoked(metadata(length, sink)))],
        locks: vec![(service("svc", "k"), VirtualObjectStatus::Locked(fid_a()))],
        ..MockState::default()
    }
}

fn suspended(length: EntryIndex, waiting_for: &[EntryIndex]) -> MockState {
    MockState {
        statuses: vec![(
            fid_a().invocation_id(),
            InvocationStatus::Suspended {
                metadata: metadata(length, None),
                waiting_for_completed_entries: waiting_for.iter().copied().collect(),
            },
        )],
        locks: vec![(service("svc", "k"), VirtualObjectStatus::Locked(fid_a()))],
        ..MockState::default()
    }
}

fn raw(header: EnrichedEntryHeader, entry: &Entry) -> EnrichedRawEntry {
    EnrichedRawEntry::new(header, encode(entry))
}

fn stored(header: EnrichedEntryHeader, entry: &Entry) -> JournalEntry {
    JournalEntry::Entry(raw(header, entry))
}

fn input() -> JournalEntry {
    stored(EnrichedEntryHeader::Input, &Entry::Input { value: Bytes::new() })
}

fn child_request() -> InvokeRequest {
    InvokeRequest {
        service_name: "svc2".to_string(),
        method_name: "go".to_string(),
        parameter: Bytes::from("p"),
    }
}

fn child_span() -> ServiceInvocationSpanContext {
    ServiceInvocationSpanContext {
        trace_id: 0x77,
        span_id: 0x22,
        cause: Some(SpanRelationCause::Parent(0x11)),
    }
}

fn child_target() -> InvokeEnrichmentResult {
    InvokeEnrichmentResult {
        invocation_uuid: UUID_B,
        partition_key: 9,
        service_key: Bytes::from("k2"),
        service_name: "svc2".to_string(),
        span_context: child_span(),
    }
}

fn child_fid() -> FullInvocationId {
    FullInvocationId::with_partition_key(9, "svc2".to_string(), Bytes::from("k2"), UUID_B)
}

fn call(is_completed: bool, target: Option<InvokeEnrichmentResult>) -> JournalEntry {
    stored(
        EnrichedEntryHeader::Invoke { is_completed, enrichment_result: target },
        &Entry::Invoke { request: child_request() },
    )
}

fn journal_entry_command(entry_index: EntryIndex, entry: EnrichedRawEntry) -> Command {
    Command::InvokerEffect(InvokerEffect {
        full_invocation_id: fid_a(),
        kind: InvokerEffectKind::JournalEntry { entry_index, entry },
    })
}

fn apply(
    interpreter: &mut Interpreter,
    state: &mut MockState,
    command: Command,
) -> (Result<(Option<FullInvocationId>, SpanRelation), Error>, Vec<Effect>) {
    let mut effects = Effects::new();
    let result = interpreter.on_apply(command, &mut effects, state);
    (result, effects.into_inner())
}

fn canceled() -> CompletionResult {
    CompletionResult::Failure(CANCELLED_CODE, "canceled".to_string())
}

fn trace_of_failure(code: u32, message: &str, creation_time: Option<u64>) -> Effect {
    Effect::TraceInvocationResult {
        full_invocation_id: fid_a(),
        service_method: "m".to_string(),
        span_context: span(),
        creation_time,
        result: Err((code, message.to_string())),
    }
}

#[test]
fn fresh_invoke_of_unlocked_object() {
    let mut interpreter = interpreter();
    let mut state = MockState::default();
    let (result, effects) =
        apply(&mut interpreter, &mut state, Command::Invoke(invocation(ingress_sink())));
    assert_eq!(result, Ok((Some(fid_a()), parent_span())));
    assert_eq!(effects, vec![Effect::InvokeService(invocation(ingress_sink()))]);
    assert_eq!(interpreter.inbox_seq_number(), 0);
    assert_eq!(interpreter.outbox_seq_number(), 0);
}

#[test]
fn invoke_collides_with_lock() {
    let mut interpreter = interpreter();
    let mut state = MockState {
        locks: vec![(service("svc", "k"), VirtualObjectStatus::Locked(fid("svc", "k", UUID_B)))],
        ..MockState::default()
    };
    let (result, effects) =
        apply(&mut interpreter, &mut state, Command::Invoke(invocation(ingress_sink())));
    assert_eq!(result, Ok((Some(fid_a()), parent_span())));
    assert_eq!(
        effects,
        vec![Effect::EnqueueIntoInbox {
            seq_number: 0,
            inbox_entry: InboxEntry::Invocation(invocation(ingress_sink())),
        }]
    );
    assert_eq!(interpreter.inbox_seq_number(), 1);
    assert_eq!(interpreter.outbox_seq_number(), 0);
}

#[test]
fn scheduled_invoke() {
    let mut interpreter = interpreter();
    let mut state = MockState { down: true, ..MockState::default() };
    let mut scheduled = invocation(ingress_sink());
    scheduled.execution_time = Some(T);
    let (result, effects) = apply(&mut interpreter, &mut state, Command::Invoke(scheduled.clone()));
    assert_eq!(result, Ok((None, SpanRelation::Unrelated)));
    assert_eq!(
        effects,
        vec![Effect::RegisterTimer {
            timer_value: TimerValue {
                key: TimerKey { invocation_uuid: UUID_A, journal_index: 0, timestamp: T },
                value: Timer::Invoke(scheduled),
            },
            span_context: span(),
        }]
    );
    assert_eq!(interpreter.inbox_seq_number(), 0);
}

#[test]
fn journal_entry_get_state_with_existing_state() {
    let mut interpreter = interpreter();
    let mut state = invoked(3, None);
    state.values.push((service("svc", "k"), Bytes::from("x"), Bytes::from("v")));
    let entry = Entry::GetState { key: Bytes::from("x") };
    let (result, effects) = apply(
        &mut interpreter,
        &mut state,
        journal_entry_command(3, raw(EnrichedEntryHeader::GetState { is_completed: false }, &entry)),
    );
    assert_eq!(result, Ok((Some(fid_a()), parent_span())));
    let value = CompletionResult::Success(Bytes::from("v"));
    assert_eq!(
        effects,
        vec![
            Effect::ForwardCompletion {
                full_invocation_id: fid_a(),
                completion: Completion::new(3, value.clone()),
            },
            Effect::AppendJournalEntry {
                invocation_id: fid_a().invocation_id(),
                previous_invocation_status: InvocationStatus::Invoked(metadata(3, None)),
                entry_index: 3,
                journal_entry: EnrichedRawEntry::new(
                    EnrichedEntryHeader::GetState { is_completed: true },
                    with_completion(&encode(&entry), &value),
                ),
            },
            Effect::SendStoredEntryAckToInvoker { full_invocation_id: fid_a(), entry_index: 3 },
        ]
    );
}

#[test]
fn cancel_suspended_waiting_on_sleep() {
    let mut interpreter = interpreter();
    let mut state = suspended(5, &[4]);
    state.journals.push((
        fid_a().invocation_id(),
        vec![
            input(),
            stored(
                EnrichedEntryHeader::GetState { is_completed: true },
                &Entry::GetState { key: Bytes::from("x") },
            ),
            call(true, None),
            stored(EnrichedEntryHeader::Awakeable { is_completed: true }, &Entry::Awakeable),
            stored(
                EnrichedEntryHeader::Sleep { is_completed: false },
                &Entry::Sleep { wake_up_time: T },
            ),
        ],
    ));
    let (result, effects) = apply(
        &mut interpreter,
        &mut state,
        Command::TerminateInvocation(InvocationTermination::cancel(fid_a())),
    );
    assert_eq!(result, Ok((Some(fid_a()), parent_span())));
    assert_eq!(
        effects,
        vec![
            Effect::StoreCompletion {
                invocation_id: fid_a().invocation_id(),
                completion: Completion::new(4, canceled()),
            },
            Effect::DeleteTimer(TimerKey { invocation_uuid: UUID_A, journal_index: 4, timestamp: T }),
            Effect::ResumeService {
                invocation_id: fid_a().invocation_id(),
                metadata: metadata(5, None),
            },
        ]
    );
}

#[test]
fn kill_invoked_with_one_live_child() {
    let mut interpreter = interpreter();
    let mut state = invoked(4, ingress_sink());
    state.journals.push((
        fid_a().invocation_id(),
        vec![
            input(),
            call(true, Some(child_target())),
            call(false, Some(child_target())),
            stored(
                EnrichedEntryHeader::BackgroundInvoke { enrichment_result: child_target() },
                &Entry::BackgroundInvoke { request: child_request(), invoke_time: 0 },
            ),
        ],
    ));
    let (result, effects) = apply(
        &mut interpreter,
        &mut state,
        Command::TerminateInvocation(InvocationTermination::kill(fid_a())),
    );
    assert_eq!(result, Ok((Some(fid_a()), parent_span())));
    assert_eq!(
        effects,
        vec![
            Effect::EnqueueIntoOutbox {
                seq_number: 0,
                message: OutboxMessage::InvocationTermination(InvocationTermination {
                    maybe_fid: MaybeFullInvocationId::Full(child_fid()),
                    flavor: TerminationFlavor::Kill,
                }),
            },
            Effect::SendIngressResponse(IngressResponse {
                target: 1,
                full_invocation_id: fid_a(),
                response: ResponseResult::Failure(ABORTED_CODE, "killed".to_string()),
            }),
            trace_of_failure(ABORTED_CODE, "killed", Some(5)),
            Effect::DropJournalAndPopInbox { full_invocation_id: fid_a(), journal_length: 4 },
            Effect::AbortInvocation(fid_a()),
        ]
    );
    assert_eq!(interpreter.outbox_seq_number(), 1);
}

#[test]
fn kill_answers_the_caller_through_the_outbox() {
    let mut interpreter: Interpreter = CommandInterpreter::new(3, 10, 0..=u64::MAX);
    let caller = fid("caller", "c", 0xC);
    let sink = Some(ServiceInvocationResponseSink::PartitionProcessor {
        caller: caller.clone(),
        entry_index: 2,
    });
    let mut state = invoked(1, sink);
    state.journals.push((fid_a().invocation_id(), vec![call(false, Some(child_target()))]));
    let (result, effects) = apply(
        &mut interpreter,
        &mut state,
        Command::TerminateInvocation(InvocationTermination {
            maybe_fid: MaybeFullInvocationId::Partial(fid_a().invocation_id()),
            flavor: TerminationFlavor::Kill,
        }),
    );
    assert_eq!(result, Ok((Some(fid_a()), parent_span())));
    assert_eq!(effects.len(), 5);
    assert_eq!(
        effects[1],
        Effect::EnqueueIntoOutbox {
            seq_number: 11,
            message: OutboxMessage::ServiceResponse(InvocationResponse {
                id: MaybeFullInvocationId::Full(caller),
                entry_index: 2,
                result: ResponseResult::Failure(ABORTED_CODE, "killed".to_string()),
            }),
        }
    );
    assert_eq!(interpreter.outbox_seq_number(), 12);
    assert_eq!(interpreter.inbox_seq_number(), 3);
}

#[test]
fn kill_of_suspended_invocation_fails_it() {
    let mut interpreter = interpreter();
    let mut state = suspended(0, &[0]);
    let (result, effects) = apply(
        &mut interpreter,
        &mut state,
        Command::TerminateInvocation(InvocationTermination::kill(fid_a())),
    );
    assert_eq!(result, Ok((Some(fid_a()), parent_span())));
    assert_eq!(
        effects,
        vec![
            trace_of_failure(ABORTED_CODE, "killed", Some(5)),
            Effect::DropJournalAndPopInbox { full_invocation_id: fid_a(), journal_length: 0 },
            Effect::AbortInvocation(fid_a()),
        ]
    );
}

#[test]
fn journal_grows_by_one_entry_at_its_end() {
    let mut interpreter = interpreter();
    let mut state = invoked(3, None);
    let entry = raw(EnrichedEntryHeader::Custom { code: 9, requires_ack: true }, &Entry::Custom { value: Bytes::new() });
    let (result, effects) = apply(&mut interpreter, &mut state, journal_entry_command(3, entry.clone()));
    assert!(result.is_ok());
    let appends: Vec<&Effect> =
        effects.iter().filter(|e| matches!(e, Effect::AppendJournalEntry { .. })).collect();
    assert_eq!(
        appends,
        vec![&Effect::AppendJournalEntry {
            invocation_id: fid_a().invocation_id(),
            previous_invocation_status: InvocationStatus::Invoked(metadata(3, None)),
            entry_index: 3,
            journal_entry: entry,
        }]
    );
    assert_eq!(
        effects.last(),
        Some(&Effect::SendStoredEntryAckToInvoker { full_invocation_id: fid_a(), entry_index: 3 })
    );
}

#[test]
fn sequence_numbers_continue_from_the_checkpoint() {
    let mut interpreter: Interpreter = CommandInterpreter::new(40, 100, 0..=u64::MAX);
    let mut state = invoked(2, None);
    state.journals.push((
        fid_a().invocation_id(),
        vec![call(false, Some(child_target())), call(false, Some(child_target()))],
    ));
    let entry = raw(
        EnrichedEntryHeader::Invoke { is_completed: false, enrichment_result: Some(child_target()) },
        &Entry::Invoke { request: child_request() },
    );
    let (_, first) = apply(&mut interpreter, &mut state, journal_entry_command(2, entry));
    let (_, second) = apply(
        &mut interpreter,
        &mut state,
        Command::TerminateInvocation(InvocationTermination::cancel(fid_a())),
    );
    let mut other = invocation(None);
    other.fid = fid("svc", "k", 0xD);
    let (_, third) = apply(&mut interpreter, &mut state, Command::Invoke(other.clone()));
    let (_, fourth) = apply(
        &mut interpreter,
        &mut state,
        Command::PatchState(ExternalStateMutation {
            component_id: service("svc", "k"),
            version: None,
            state: vec![],
        }),
    );
    let mut outbox = Vec::new();
    let mut inbox = Vec::new();
    for effect in first.iter().chain(&second).chain(&third).chain(&fourth) {
        match effect {
            Effect::EnqueueIntoOutbox { seq_number, .. } => outbox.push(*seq_number),
            Effect::EnqueueIntoInbox { seq_number, .. } => inbox.push(*seq_number),
            _ => {}
        }
    }
    assert_eq!(outbox, vec![100, 101, 102]);
    assert_eq!(inbox, vec![40, 41]);
    assert_eq!(interpreter.outbox_seq_number(), 103);
    assert_eq!(interpreter.inbox_seq_number(), 42);
}

#[test]
fn invoke_entry_sends_the_call_with_its_response_target() {
    let mut interpreter = interpreter();
    let mut state = invoked(1, None);
    let entry = raw(
        EnrichedEntryHeader::Invoke { is_completed: false, enrichment_result: Some(child_target()) },
        &Entry::Invoke { request: child_request() },
    );
    let (result, effects) = apply(&mut interpreter, &mut state, journal_entry_command(1, entry));
    assert!(result.is_ok());
    assert_eq!(
        effects[0],
        Effect::EnqueueIntoOutbox {
            seq_number: 0,
            message: OutboxMessage::ServiceInvocation(ServiceInvocation {
                fid: child_fid(),
                method_name: "go".to_string(),
                argument: Bytes::from("p"),
                source: Source::Service(fid_a()),
                response_sink: Some(ServiceInvocationResponseSink::PartitionProcessor {
                    caller: fid_a(),
                    entry_index: 1,
                }),
                span_context: child_span(),
                headers: vec![],
                execution_time: None,
            }),
        }
    );
    assert_eq!(effects.len(), 3);
}

#[test]
fn completed_invoke_entry_is_only_stored() {
    let mut interpreter = interpreter();
    let mut state = invoked(0, None);
    let entry = raw(
        EnrichedEntryHeader::Invoke { is_completed: true, enrichment_result: None },
        &Entry::Invoke { request: child_request() },
    );
    let (_, effects) = apply(&mut interpreter, &mut state, journal_entry_command(0, entry));
    assert_eq!(effects.len(), 2);
    assert_eq!(interpreter.outbox_seq_number(), 0);
}

fn background_call(invoke_time: u64, cause: Option<SpanRelationCause>) -> (Command, ServiceInvocation)
{
    let mut target = child_target();
    target.span_context.cause = cause;
    let entry = raw(
        EnrichedEntryHeader::BackgroundInvoke { enrichment_result: target.clone() },
        &Entry::BackgroundInvoke { request: child_request(), invoke_time },
    );
    let sent = ServiceInvocation {
        fid: child_fid(),
        method_name: "go".to_string(),
        argument: Bytes::from("p"),
        source: Source::Service(fid_a()),
        response_sink: None,
        span_context: target.span_context,
        headers: vec![],
        execution_time: if invoke_time == 0 { None } else { Some(invoke_time) },
    };
    (journal_entry_command(0, entry), sent)
}

#[test]
fn background_invoke_at_once() {
    let mut interpreter = interpreter();
    let mut state = invoked(0, None);
    let (command, sent) = background_call(0, Some(SpanRelationCause::Linked(0x99, 0x33)));
    let (_, effects) = apply(&mut interpreter, &mut state, command);
    assert_eq!(
        effects[..2],
        [
            Effect::TraceBackgroundInvoke {
                full_invocation_id: child_fid(),
                service_method: "go".to_string(),
                span_context: span(),
                pointer_span_id: Some(0x33),
            },
            Effect::EnqueueIntoOutbox {
                seq_number: 0,
                message: OutboxMessage::ServiceInvocation(sent),
            },
        ]
    );
}

#[test]
fn background_invoke_with_delay() {
    let mut interpreter = interpreter();
    let mut state = invoked(0, None);
    let (command, sent) = background_call(T, Some(SpanRelationCause::Parent(0x11)));
    assert_eq!(sent.execution_time, Some(T));
    let (_, effects) = apply(&mut interpreter, &mut state, command);
    assert_eq!(
        effects[0],
        Effect::TraceBackgroundInvoke {
            full_invocation_id: child_fid(),
            service_method: "go".to_string(),
            span_context: span(),
            pointer_span_id: None,
        }
    );
    assert_eq!(
        effects[1],
        Effect::EnqueueIntoOutbox { seq_number: 0, message: OutboxMessage::ServiceInvocation(sent) }
    );
}

#[test]
fn output_entry_answers_the_ingress() {
    let mut interpreter = interpreter();
    let mut state = invoked(1, ingress_sink());
    let result = ResponseResult::Success(Bytes::from("done"));
    let entry = raw(EnrichedEntryHeader::Output, &Entry::Output { result: result.clone() });
    let (_, effects) = apply(&mut interpreter, &mut state, journal_entry_command(1, entry));
    assert_eq!(
        effects[0],
        Effect::SendIngressResponse(IngressResponse {
            target: 1,
            full_invocation_id: fid_a(),
            response: result,
        })
    );
    assert_eq!(effects.len(), 3);
}

#[test]
fn output_entry_without_sink_is_not_decoded() {
    let mut interpreter = interpreter();
    let mut state = invoked(1, None);
    let entry = EnrichedRawEntry::new(EnrichedEntryHeader::Output, Bytes::from_static(&[200]));
    let (result, effects) = apply(&mut interpreter, &mut state, journal_entry_command(1, entry));
    assert!(result.is_ok());
    assert_eq!(effects.len(), 2);
}

#[test]
fn state_entries_change_the_state() {
    let mut interpreter = interpreter();
    let mut state = invoked(0, None);
    let set = raw(
        EnrichedEntryHeader::SetState,
        &Entry::SetState { key: Bytes::from("x"), value: Bytes::from("1") },
    );
    let (_, effects) = apply(&mut interpreter, &mut state, journal_entry_command(0, set));
    assert_eq!(
        effects[0],
        Effect::SetState {
            service_id: service("svc", "k"),
            invocation_id: fid_a().invocation_id(),
            span_context: span(),
            key: Bytes::from("x"),
            value: Bytes::from("1"),
        }
    );
    let clear = raw(EnrichedEntryHeader::ClearState, &Entry::ClearState { key: Bytes::from("x") });
    let (_, effects) = apply(&mut interpreter, &mut state, journal_entry_command(0, clear));
    assert_eq!(
        effects[0],
        Effect::ClearState {
            service_id: service("svc", "k"),
            invocation_id: fid_a().invocation_id(),
            span_context: span(),
            key: Bytes::from("x"),
        }
    );
    let clear_all = raw(EnrichedEntryHeader::ClearAllState, &Entry::ClearAllState);
    let (_, effects) = apply(&mut interpreter, &mut state, journal_entry_command(0, clear_all));
    assert_eq!(
        effects[0],
        Effect::ClearAllState {
            service_id: service("svc", "k"),
            invocation_id: fid_a().invocation_id(),
            span_context: span(),
        }
    );
}

#[test]
fn get_state_without_value_completes_empty() {
    let mut interpreter = interpreter();
    let mut state = invoked(0, None);
    let entry = Entry::GetState { key: Bytes::from("missing") };
    let (_, effects) = apply(
        &mut interpreter,
        &mut state,
        journal_entry_command(0, raw(EnrichedEntryHeader::GetState { is_completed: false }, &entry)),
    );
    assert_eq!(
        effects[0],
        Effect::ForwardCompletion {
            full_invocation_id: fid_a(),
            completion: Completion::new(0, CompletionResult::Empty),
        }
    );
}

#[test]
fn completed_get_state_is_only_stored() {
    let mut interpreter = interpreter();
    let mut state = invoked(0, None);
    let entry = raw(
        EnrichedEntryHeader::GetState { is_completed: true },
        &Entry::GetState { key: Bytes::from("x") },
    );
    let (_, effects) = apply(&mut interpreter, &mut state, journal_entry_command(0, entry.clone()));
    assert_eq!(effects.len(), 2);
    assert!(matches!(
        &effects[0],
        Effect::AppendJournalEntry { journal_entry, .. } if *journal_entry == entry
    ));
}

#[test]
fn get_state_keys_completes_with_the_keys() {
    let mut interpreter = interpreter();
    let mut state = invoked(0, None);
    state.values.push((service("svc", "k"), Bytes::from("a"), Bytes::from("1")));
    state.values.push((service("svc", "other"), Bytes::from("z"), Bytes::from("1")));
    state.values.push((service("svc", "k"), Bytes::from("b"), Bytes::from("2")));
    let entry = raw(EnrichedEntryHeader::GetStateKeys { is_completed: false }, &Entry::GetStateKeys);
    let (_, effects) = apply(&mut interpreter, &mut state, journal_entry_command(0, entry));
    let keys = TestCodec::serialize_get_state_keys_completion(vec![Bytes::from("a"), Bytes::from("b")]);
    assert_eq!(
        effects[0],
        Effect::ForwardCompletion {
            full_invocation_id: fid_a(),
            completion: Completion::new(0, keys),
        }
    );
    assert!(matches!(
        &effects[1],
        Effect::AppendJournalEntry { journal_entry, .. }
            if journal_entry.header == (EnrichedEntryHeader::GetStateKeys { is_completed: true })
    ));
}

#[test]
fn sleep_entry_registers_a_timer() {
    let mut interpreter = interpreter();
    let mut state = invoked(6, None);
    let entry = raw(EnrichedEntryHeader::Sleep { is_completed: false }, &Entry::Sleep { wake_up_time: T });
    let (_, effects) = apply(&mut interpreter, &mut state, journal_entry_command(6, entry));
    assert_eq!(
        effects[0],
        Effect::RegisterTimer {
            timer_value: TimerValue {
                key: TimerKey { invocation_uuid: UUID_A, journal_index: 6, timestamp: T },
                value: Timer::CompleteSleepEntry(service("svc", "k")),
            },
            span_context: span(),
        }
    );
}

#[test]
fn awakeable_entry_takes_a_completion_that_came_first() {
    let mut interpreter = interpreter();
    let mut state = invoked(2, None);
    let early = CompletionResult::Success(Bytes::from("early"));
    state.completions.push((fid_a().invocation_id(), 2, early.clone()));
    let entry = raw(EnrichedEntryHeader::Awakeable { is_completed: false }, &Entry::Awakeable);
    let (_, effects) = apply(&mut interpreter, &mut state, journal_entry_command(2, entry));
    assert_eq!(
        effects,
        vec![
            Effect::ForwardCompletion {
                full_invocation_id: fid_a(),
                completion: Completion::new(2, early.clone()),
            },
            Effect::AppendJournalEntry {
                invocation_id: fid_a().invocation_id(),
                previous_invocation_status: InvocationStatus::Invoked(metadata(2, None)),
                entry_index: 2,
                journal_entry: EnrichedRawEntry::new(
                    EnrichedEntryHeader::Awakeable { is_completed: true },
                    with_completion(&encode(&Entry::Awakeable), &early),
                ),
            },
            Effect::SendStoredEntryAckToInvoker { full_invocation_id: fid_a(), entry_index: 2 },
        ]
    );
}

#[test]
fn awakeable_entry_without_completion_waits() {
    let mut interpreter = interpreter();
    let mut state = invoked(2, None);
    state.completions.push((fid_a().invocation_id(), 3, CompletionResult::Empty));
    let entry = raw(EnrichedEntryHeader::Awakeable { is_completed: false }, &Entry::Awakeable);
    let (_, effects) = apply(&mut interpreter, &mut state, journal_entry_command(2, entry));
    assert_eq!(effects.len(), 2);
}

#[test]
fn complete_awakeable_entry_sends_the_completion() {
    let mut interpreter = interpreter();
    let mut state = invoked(0, None);
    let target = InvocationId { partition_key: 3, invocation_uuid: 0xE };
    let result = ResponseResult::Failure(13, "no".to_string());
    let entry = raw(
        EnrichedEntryHeader::CompleteAwakeable {
            enrichment_result: AwakeableEnrichmentResult { invocation_id: target, entry_index: 8 },
        },
        &Entry::CompleteAwakeable { id: "awk-8".to_string(), result: result.clone() },
    );
    let (_, effects) = apply(&mut interpreter, &mut state, journal_entry_command(0, entry));
    assert_eq!(
        effects[0],
        Effect::EnqueueIntoOutbox {
            seq_number: 0,
            message: OutboxMessage::AwakeableCompletion {
                target_invocation_id: target,
                target_entry_index: 8,
                result,
            },
        }
    );
}

#[test]
fn malformed_entry_is_a_codec_error() {
    let mut interpreter = interpreter();
    let mut state = invoked(0, None);
    let entry = EnrichedRawEntry::new(EnrichedEntryHeader::SetState, Bytes::from_static(&[3, 0]));
    let (result, effects) = apply(&mut interpreter, &mut state, journal_entry_command(0, entry));
    assert_eq!(
        result,
        Err(Error::Codec(CodecError {
            entry_type: EntryType::SetState,
            kind: CodecErrorKind::Malformed,
        }))
    );
    assert!(effects.is_empty());
}

#[test]
fn entry_of_another_kind_is_a_codec_error() {
    let mut interpreter = interpreter();
    let mut state = invoked(0, None);
    let entry = raw(EnrichedEntryHeader::Sleep { is_completed: false }, &Entry::Awakeable);
    let (result, _) = apply(&mut interpreter, &mut state, journal_entry_command(0, entry));
    assert_eq!(
        result,
        Err(Error::Codec(CodecError {
            entry_type: EntryType::Sleep,
            kind: CodecErrorKind::UnexpectedEntry,
        }))
    );
}

#[test]
fn failed_read_is_a_storage_error() {
    let mut interpreter = interpreter();
    let mut state = MockState { down: true, ..MockState::default() };
    let (result, _) = apply(&mut interpreter, &mut state, Command::Invoke(invocation(None)));
    assert_eq!(result, Err(Error::Storage(StorageError { reason: "down".to_string() })));
    let (result, _) = apply(
        &mut interpreter,
        &mut state,
        Command::TerminateInvocation(InvocationTermination::kill(fid_a())),
    );
    assert!(matches!(result, Err(Error::Storage(_))));
}

#[test]
fn journal_that_breaks_stops_the_kill() {
    let mut interpreter = interpreter();
    let mut state = invoked(3, None);
    state.journals.push((
        fid_a().invocation_id(),
        vec![call(false, Some(child_target())), input(), call(false, Some(child_target()))],
    ));
    state.journal_breaks_at = Some(1);
    let (result, effects) = apply(
        &mut interpreter,
        &mut state,
        Command::TerminateInvocation(InvocationTermination::kill(fid_a())),
    );
    assert_eq!(result, Err(Error::Storage(StorageError { reason: "broken".to_string() })));
    assert_eq!(effects.len(), 1);
}

#[test]
fn suspension_is_recorded_when_nothing_is_resumable() {
    let mut interpreter = interpreter();
    let mut state = invoked(5, None);
    state.resumable.push((fid_a().invocation_id(), 9));
    let waiting_for: HashSet<EntryIndex> = HashSet::from([1, 2]);
    let (result, effects) = apply(
        &mut interpreter,
        &mut state,
        Command::InvokerEffect(InvokerEffect {
            full_invocation_id: fid_a(),
            kind: InvokerEffectKind::Suspended { waiting_for_completed_entries: waiting_for.clone() },
        }),
    );
    assert_eq!(result, Ok((Some(fid_a()), parent_span())));
    assert_eq!(
        effects,
        vec![Effect::SuspendService {
            invocation_id: fid_a().invocation_id(),
            metadata: metadata(5, None),
            waiting_for_completed_entries: waiting_for,
        }]
    );
}

#[test]
fn suspension_becomes_resumption_when_an_entry_is_resumable() {
    let mut interpreter = interpreter();
    let mut state = invoked(5, None);
    state.resumable.push((fid_a().invocation_id(), 2));
    let (_, effects) = apply(
        &mut interpreter,
        &mut state,
        Command::InvokerEffect(InvokerEffect {
            full_invocation_id: fid_a(),
            kind: InvokerEffectKind::Suspended {
                waiting_for_completed_entries: HashSet::from([1, 2, 3]),
            },
        }),
    );
    assert_eq!(
        effects,
        vec![Effect::ResumeService {
            invocation_id: fid_a().invocation_id(),
            metadata: metadata(5, None),
        }]
    );
}

#[test]
fn invoker_effect_for_idle_invocation_aborts() {
    for mut state in [MockState::default(), suspended(1, &[0])] {
        let mut interpreter = interpreter();
        let (result, effects) = apply(
            &mut interpreter,
            &mut state,
            Command::InvokerEffect(InvokerEffect {
                full_invocation_id: fid_a(),
                kind: InvokerEffectKind::End,
            }),
        );
        assert_eq!(result, Ok((Some(fid_a()), SpanRelation::Unrelated)));
        assert_eq!(effects, vec![Effect::AbortInvocation(fid_a())]);
    }
}

#[test]
fn selected_deployment_is_stored() {
    let mut interpreter = interpreter();
    let mut state = invoked(0, None);
    let (_, effects) = apply(
        &mut interpreter,
        &mut state,
        Command::InvokerEffect(InvokerEffect {
            full_invocation_id: fid_a(),
            kind: InvokerEffectKind::SelectedDeployment(0xDE),
        }),
    );
    assert_eq!(
        effects,
        vec![Effect::StoreChosenDeployment {
            invocation_id: fid_a().invocation_id(),
            deployment_id: 0xDE,
            metadata: metadata(0, None),
        }]
    );
}

#[test]
fn end_drops_the_journal() {
    let mut interpreter = interpreter();
    let mut state = invoked(4, ingress_sink());
    let (_, effects) = apply(
        &mut interpreter,
        &mut state,
        Command::InvokerEffect(InvokerEffect {
            full_invocation_id: fid_a(),
            kind: InvokerEffectKind::End,
        }),
    );
    assert_eq!(
        effects,
        vec![
            Effect::TraceInvocationResult {
                full_invocation_id: fid_a(),
                service_method: "m".to_string(),
                span_context: span(),
                creation_time: Some(5),
                result: Ok(()),
            },
            Effect::DropJournalAndPopInbox { full_invocation_id: fid_a(), journal_length: 4 },
        ]
    );
}

#[test]
fn failure_answers_and_drops_the_journal() {
    let mut interpreter = interpreter();
    let mut state = invoked(4, ingress_sink());
    let (_, effects) = apply(
        &mut interpreter,
        &mut state,
        Command::InvokerEffect(InvokerEffect {
            full_invocation_id: fid_a(),
            kind: InvokerEffectKind::Failed(InvocationError::new(500, "boom".to_string())),
        }),
    );
    assert_eq!(
        effects,
        vec![
            Effect::SendIngressResponse(IngressResponse {
                target: 1,
                full_invocation_id: fid_a(),
                response: ResponseResult::Failure(500, "boom".to_string()),
            }),
            trace_of_failure(500, "boom", Some(5)),
            Effect::DropJournalAndPopInbox { full_invocation_id: fid_a(), journal_length: 4 },
        ]
    );
}

fn mutation() -> ExternalStateMutation {
    ExternalStateMutation {
        component_id: service("svc", "k"),
        version: Some("3".to_string()),
        state: vec![StateEntry { key: Bytes::from("x"), value: Bytes::from("1") }],
    }
}

#[test]
fn patch_state_of_unlocked_object_is_applied() {
    let mut interpreter = interpreter();
    let mut state = MockState::default();
    let (result, effects) = apply(&mut interpreter, &mut state, Command::PatchState(mutation()));
    assert_eq!(result, Ok((None, SpanRelation::Unrelated)));
    assert_eq!(effects, vec![Effect::ApplyStateMutation(mutation())]);
    assert_eq!(interpreter.inbox_seq_number(), 0);
}

#[test]
fn patch_state_of_locked_object_is_queued() {
    let mut interpreter: Interpreter = CommandInterpreter::new(8, 0, 0..=u64::MAX);
    let mut state = invoked(0, None);
    let (result, effects) = apply(&mut interpreter, &mut state, Command::PatchState(mutation()));
    assert_eq!(result, Ok((None, SpanRelation::Unrelated)));
    assert_eq!(
        effects,
        vec![Effect::EnqueueIntoInbox {
            seq_number: 8,
            inbox_entry: InboxEntry::StateMutation(mutation()),
        }]
    );
    assert_eq!(interpreter.inbox_seq_number(), 9);
}

#[test]
fn replaying_a_log_gives_the_same_effects() {
    let log = || {
        vec![
            Command::Invoke(invocation(ingress_sink())),
            journal_entry_command(
                0,
                raw(
                    EnrichedEntryHeader::Invoke {
                        is_completed: false,
                        enrichment_result: Some(child_target()),
                    },
                    &Entry::Invoke { request: child_request() },
                ),
            ),
            Command::TerminateInvocation(InvocationTermination::cancel(fid_a())),
            Command::TruncateOutbox(0),
            Command::AnnounceLeader(AnnounceLeader { node_id: 1, leader_epoch: 2 }),
        ]
    };
    let run = || {
        let mut interpreter = interpreter();
        let mut state = invoked(0, ingress_sink());
        state.journals.push((fid_a().invocation_id(), vec![]));
        let mut all = Vec::new();
        for command in log() {
            all.push(apply(&mut interpreter, &mut state, command));
        }
        (all, interpreter.inbox_seq_number(), interpreter.outbox_seq_number())
    };
    assert_eq!(run(), run());
}

#[test]
fn truncating_the_outbox_twice() {
    let mut interpreter: Interpreter = CommandInterpreter::new(0, 9, 0..=u64::MAX);
    let mut state = MockState { down: true, ..MockState::default() };
    let (first_result, first) = apply(&mut interpreter, &mut state, Command::TruncateOutbox(4));
    let (second_result, second) = apply(&mut interpreter, &mut state, Command::TruncateOutbox(4));
    assert_eq!(first_result, Ok((None, SpanRelation::Unrelated)));
    assert_eq!(first, vec![Effect::TruncateOutbox(4)]);
    assert_eq!((second_result, second), (first_result, first));
    assert_eq!(interpreter.outbox_seq_number(), 9);
}

#[test]
fn announce_leader_has_no_effect() {
    let mut interpreter: Interpreter = CommandInterpreter::new(5, 6, 0..=u64::MAX);
    let mut state = MockState { down: true, ..MockState::default() };
    let (result, effects) = apply(
        &mut interpreter,
        &mut state,
        Command::AnnounceLeader(AnnounceLeader { node_id: 3, leader_epoch: 4 }),
    );
    assert_eq!(result, Ok((None, SpanRelation::Unrelated)));
    assert!(effects.is_empty());
    assert_eq!((interpreter.inbox_seq_number(), interpreter.outbox_seq_number()), (5, 6));
}

fn inboxed(sink: Option<ServiceInvocationResponseSink>) -> MockState {
    MockState {
        locks: vec![(service("svc", "k"), VirtualObjectStatus::Locked(fid("svc", "k", UUID_B)))],
        inbox: vec![SequenceNumberInvocation { inbox_sequence_number: 12, invocation: invocation(sink) }],
        ..MockState::default()
    }
}

#[test]
fn cancel_of_inboxed_invocation_removes_it() {
    for maybe_fid in [
        MaybeFullInvocationId::Full(fid_a()),
        MaybeFullInvocationId::Partial(fid_a().invocation_id()),
    ] {
        let mut interpreter = interpreter();
        let mut state = inboxed(ingress_sink());
        let (result, effects) = apply(
            &mut interpreter,
            &mut state,
            Command::TerminateInvocation(InvocationTermination {
                maybe_fid,
                flavor: TerminationFlavor::Cancel,
            }),
        );
        assert_eq!(result, Ok((Some(fid_a()), parent_span())));
        assert_eq!(
            effects,
            vec![
                Effect::SendIngressResponse(IngressResponse {
                    target: 1,
                    full_invocation_id: fid_a(),
                    response: ResponseResult::Failure(CANCELLED_CODE, "canceled".to_string()),
                }),
                trace_of_failure(CANCELLED_CODE, "canceled", None),
                Effect::DeleteInboxEntry { service_id: service("svc", "k"), sequence_number: 12 },
            ]
        );
    }
}

#[test]
fn kill_of_inboxed_invocation_without_sink() {
    let mut interpreter = interpreter();
    let mut state = inboxed(None);
    let (_, effects) = apply(
        &mut interpreter,
        &mut state,
        Command::TerminateInvocation(InvocationTermination::kill(fid_a())),
    );
    assert_eq!(
        effects,
        vec![
            trace_of_failure(ABORTED_CODE, "killed", None),
            Effect::DeleteInboxEntry { service_id: service("svc", "k"), sequence_number: 12 },
        ]
    );
}

#[test]
fn termination_of_unknown_invocation_aborts_only_with_full_id() {
    for flavor in [TerminationFlavor::Kill, TerminationFlavor::Cancel] {
        let mut interpreter = interpreter();
        let mut state = MockState::default();
        let (result, effects) = apply(
            &mut interpreter,
            &mut state,
            Command::TerminateInvocation(InvocationTermination {
                maybe_fid: MaybeFullInvocationId::Full(fid_a()),
                flavor,
            }),
        );
        assert_eq!(result, Ok((Some(fid_a()), SpanRelation::Unrelated)));
        assert_eq!(effects, vec![Effect::AbortInvocation(fid_a())]);
        let (result, effects) = apply(
            &mut interpreter,
            &mut state,
            Command::TerminateInvocation(InvocationTermination {
                maybe_fid: MaybeFullInvocationId::Partial(fid_a().invocation_id()),
                flavor,
            }),
        );
        assert_eq!(result, Ok((None, SpanRelation::Unrelated)));
        assert!(effects.is_empty());
    }
}

#[test]
fn cancel_of_running_invocation_completes_its_leaves() {
    let mut interpreter = interpreter();
    let mut state = invoked(5, None);
    state.journals.push((
        fid_a().invocation_id(),
        vec![
            call(false, Some(child_target())),
            stored(EnrichedEntryHeader::Awakeable { is_completed: false }, &Entry::Awakeable),
            JournalEntry::Completion(CompletionResult::Empty),
            stored(
                EnrichedEntryHeader::GetState { is_completed: false },
                &Entry::GetState { key: Bytes::from("x") },
            ),
            call(true, Some(child_target())),
        ],
    ));
    let (result, effects) = apply(
        &mut interpreter,
        &mut state,
        Command::TerminateInvocation(InvocationTermination::cancel(fid_a())),
    );
    assert_eq!(result, Ok((Some(fid_a()), parent_span())));
    let completed = |index| {
        [
            Effect::StoreCompletion {
                invocation_id: fid_a().invocation_id(),
                completion: Completion::new(index, canceled()),
            },
            Effect::ForwardCompletion {
                full_invocation_id: fid_a(),
                completion: Completion::new(index, canceled()),
            },
        ]
    };
    let mut expected = vec![Effect::EnqueueIntoOutbox {
        seq_number: 0,
        message: OutboxMessage::InvocationTermination(InvocationTermination::cancel(child_fid())),
    }];
    expected.extend(completed(1));
    expected.extend(completed(3));
    assert_eq!(effects, expected);
}

#[test]
fn cancel_of_suspended_invocation_that_waits_elsewhere_does_not_resume() {
    let mut interpreter = interpreter();
    let mut state = suspended(2, &[0]);
    state.journals.push((
        fid_a().invocation_id(),
        vec![
            call(false, Some(child_target())),
            stored(EnrichedEntryHeader::Awakeable { is_completed: false }, &Entry::Awakeable),
        ],
    ));
    let (_, effects) = apply(
        &mut interpreter,
        &mut state,
        Command::TerminateInvocation(InvocationTermination::cancel(fid_a())),
    );
    assert_eq!(
        effects,
        vec![
            Effect::EnqueueIntoOutbox {
                seq_number: 0,
                message: OutboxMessage::InvocationTermination(InvocationTermination::cancel(
                    child_fid()
                )),
            },
            Effect::StoreCompletion {
                invocation_id: fid_a().invocation_id(),
                completion: Completion::new(1, canceled()),
            },
        ]
    );
}

#[test]
fn cancel_stops_at_a_sleep_entry_that_does_not_decode() {
    let mut interpreter = interpreter();
    let mut state = invoked(2, None);
    state.journals.push((
        fid_a().invocation_id(),
        vec![
            JournalEntry::Entry(EnrichedRawEntry::new(
                EnrichedEntryHeader::Sleep { is_completed: false },
                Bytes::from_static(&[7, 1]),
            )),
            call(false, Some(child_target())),
        ],
    ));
    let (result, effects) = apply(
        &mut interpreter,
        &mut state,
        Command::TerminateInvocation(InvocationTermination::cancel(fid_a())),
    );
    assert_eq!(
        result,
        Err(Error::Codec(CodecError { entry_type: EntryType::Sleep, kind: CodecErrorKind::Malformed }))
    );
    assert_eq!(effects.len(), 2);
    assert_eq!(interpreter.outbox_seq_number(), 0);
}

#[test]
fn completion_for_running_invocation_is_stored_and_forwarded() {
    let mut interpreter = interpreter();
    let mut state = invoked(3, None);
    let (result, effects) = apply(
        &mut interpreter,
        &mut state,
        Command::InvocationResponse(InvocationResponse {
            id: MaybeFullInvocationId::Partial(fid_a().invocation_id()),
            entry_index: 1,
            result: ResponseResult::Success(Bytes::from("r")),
        }),
    );
    assert_eq!(result, Ok((Some(fid_a()), parent_span())));
    let completion = Completion::new(1, CompletionResult::Success(Bytes::from("r")));
    assert_eq!(
        effects,
        vec![
            Effect::StoreCompletion {
                invocation_id: fid_a().invocation_id(),
                completion: completion.clone(),
            },
            Effect::ForwardCompletion { full_invocation_id: fid_a(), completion },
        ]
    );
}

#[test]
fn completion_resumes_the_invocation_that_waits_for_it() {
    let response = |entry_index| {
        Command::InvocationResponse(InvocationResponse {
            id: MaybeFullInvocationId::Full(fid_a()),
            entry_index,
            result: ResponseResult::Failure(3, "bad".to_string()),
        })
    };
    let stored = |entry_index| Effect::StoreCompletion {
        invocation_id: fid_a().invocation_id(),
        completion: Completion::new(entry_index, CompletionResult::Failure(3, "bad".to_string())),
    };
    let mut interpreter = interpreter();
    let mut state = suspended(3, &[1]);
    let (_, effects) = apply(&mut interpreter, &mut state, response(1));
    assert_eq!(
        effects,
        vec![
            stored(1),
            Effect::ResumeService {
                invocation_id: fid_a().invocation_id(),
                metadata: metadata(3, None),
            },
        ]
    );
    let (_, effects) = apply(&mut interpreter, &mut state, response(2));
    assert_eq!(effects, vec![stored(2)]);
}

#[test]
fn completion_for_idle_invocation_is_dropped() {
    let mut interpreter = interpreter();
    let mut state = MockState::default();
    let (result, effects) = apply(
        &mut interpreter,
        &mut state,
        Command::InvocationResponse(InvocationResponse {
            id: MaybeFullInvocationId::Full(fid_a()),
            entry_index: 1,
            result: ResponseResult::Success(Bytes::new()),
        }),
    );
    assert_eq!(result, Ok((None, SpanRelation::Unrelated)));
    assert!(effects.is_empty());
}

#[test]
fn sleep_timer_completes_the_entry() {
    let mut interpreter = interpreter();
    let mut state = suspended(3, &[2]);
    let key = TimerKey { invocation_uuid: UUID_A, journal_index: 2, timestamp: T };
    let (result, effects) = apply(
        &mut interpreter,
        &mut state,
        Command::Timer(TimerValue::new_sleep(fid_a(), T, 2)),
    );
    assert_eq!(result, Ok((Some(fid_a()), parent_span())));
    assert_eq!(
        effects,
        vec![
            Effect::DeleteTimer(key),
            Effect::StoreCompletion {
                invocation_id: fid_a().invocation_id(),
                completion: Completion::new(2, CompletionResult::Empty),
            },
            Effect::ResumeService {
                invocation_id: fid_a().invocation_id(),
                metadata: metadata(3, None),
            },
        ]
    );
}

#[test]
fn invoke_timer_starts_the_invocation() {
    let mut interpreter = interpreter();
    let mut state = MockState::default();
    let mut scheduled = invocation(None);
    scheduled.execution_time = Some(T);
    let (result, effects) = apply(
        &mut interpreter,
        &mut state,
        Command::Timer(TimerValue::new_invoke(fid_a(), T, 0, scheduled)),
    );
    assert_eq!(result, Ok((Some(fid_a()), parent_span())));
    assert_eq!(
        effects,
        vec![
            Effect::DeleteTimer(TimerKey { invocation_uuid: UUID_A, journal_index: 0, timestamp: T }),
            Effect::InvokeService(invocation(None)),
        ]
    );
}

#[test]
fn built_in_effects_are_carried_out_in_order() {
    let mut interpreter = interpreter();
    let mut state = invoked(2, None);
    let response = IngressResponse {
        target: 4,
        full_invocation_id: fid_a(),
        response: ResponseResult::Success(Bytes::new()),
    };
    let message = OutboxMessage::InvocationTermination(InvocationTermination::kill(child_fid()));
    let (result, effects) = apply(
        &mut interpreter,
        &mut state,
        Command::BuiltInInvokerEffect(BuiltinServiceEffects::new(
            fid_a(),
            vec![
                BuiltinServiceEffect::SetState { key: "k\u{e9}".to_string(), value: Bytes::from("v") },
                BuiltinServiceEffect::ClearState("gone".to_string()),
                BuiltinServiceEffect::OutboxMessage(message.clone()),
                BuiltinServiceEffect::IngressResponse(response.clone()),
                BuiltinServiceEffect::End(None),
            ],
        )),
    );
    assert_eq!(result, Ok((Some(fid_a()), parent_span())));
    assert_eq!(
        effects,
        vec![
            Effect::SetState {
                service_id: service("svc", "k"),
                invocation_id: fid_a().invocation_id(),
                span_context: span(),
                key: Bytes::from_static(&[b'k', 0xC3, 0xA9]),
                value: Bytes::from("v"),
            },
            Effect::ClearState {
                service_id: service("svc", "k"),
                invocation_id: fid_a().invocation_id(),
                span_context: span(),
                key: Bytes::from("gone"),
            },
            Effect::EnqueueIntoOutbox { seq_number: 0, message },
            Effect::SendIngressResponse(response),
            Effect::TraceInvocationResult {
                full_invocation_id: fid_a(),
                service_method: "m".to_string(),
                span_context: span(),
                creation_time: Some(5),
                result: Ok(()),
            },
            Effect::DropJournalAndPopInbox { full_invocation_id: fid_a(), journal_length: 2 },
        ]
    );
}

#[test]
fn built_in_failure_ends_the_invocation() {
    let mut interpreter = interpreter();
    let mut state = invoked(2, None);
    let (_, effects) = apply(
        &mut interpreter,
        &mut state,
        Command::BuiltInInvokerEffect(BuiltinServiceEffects::new(
            fid_a(),
            vec![BuiltinServiceEffect::End(Some(InvocationError::new(2, "why".to_string())))],
        )),
    );
    assert_eq!(
        effects,
        vec![
            trace_of_failure(2, "why", Some(5)),
            Effect::DropJournalAndPopInbox { full_invocation_id: fid_a(), journal_length: 2 },
        ]
    );
}

#[test]
fn built_in_effects_for_idle_invocation_are_dropped() {
    let mut interpreter = interpreter();
    let mut state = suspended(2, &[1]);
    let (result, effects) = apply(
        &mut interpreter,
        &mut state,
        Command::BuiltInInvokerEffect(BuiltinServiceEffects::new(
            fid_a(),
            vec![BuiltinServiceEffect::End(None)],
        )),
    );
    assert_eq!(result, Ok((Some(fid_a()), SpanRelation::Unrelated)));
    assert!(effects.is_empty());
}

struct Echo;

impl ServiceInvoker for Echo {
    fn is_supported(service_name: &str) -> bool {
        service_name == "echo"
    }

    fn invoke(
        fid: &FullInvocationId,
        _method: &str,
        _span_context: &ServiceInvocationSpanContext,
        response_sink: &Option<ServiceInvocationResponseSink>,
        argument: Bytes,
    ) -> Vec<ServiceEffect> {
        let mut sent = vec![ServiceEffect::OutboxMessage(OutboxMessage::AwakeableCompletion {
            target_invocation_id: fid.invocation_id(),
            target_entry_index: 1,
            result: ResponseResult::Success(argument.clone()),
        })];
        if let Some(ServiceInvocationResponseSink::Ingress(target)) = response_sink {
            sent.push(ServiceEffect::IngressResponse(IngressResponse {
                target: *target,
                full_invocation_id: fid.clone(),
                response: ResponseResult::Success(argument),
            }));
        }
        sent
    }
}

#[test]
fn built_in_service_answers_at_once() {
    let mut interpreter: CommandInterpreter<TestCodec, Echo> =
        CommandInterpreter::new(0, 20, 0..=u64::MAX);
    let mut state = MockState {
        locks: vec![(service("echo", "k"), VirtualObjectStatus::Locked(fid("echo", "k", UUID_B)))],
        ..MockState::default()
    };
    let mut call = invocation(ingress_sink());
    call.fid = fid("echo", "k", UUID_A);
    let mut effects = Effects::new();
    let result = interpreter.on_apply(Command::Invoke(call.clone()), &mut effects, &mut state);
    assert_eq!(result, Ok((Some(call.fid.clone()), parent_span())));
    assert_eq!(
        effects.into_inner(),
        vec![
            Effect::EnqueueIntoOutbox {
                seq_number: 20,
                message: OutboxMessage::AwakeableCompletion {
                    target_invocation_id: call.fid.invocation_id(),
                    target_entry_index: 1,
                    result: ResponseResult::Success(Bytes::from("arg")),
                },
            },
            Effect::SendIngressResponse(IngressResponse {
                target: 1,
                full_invocation_id: call.fid,
                response: ResponseResult::Success(Bytes::from("arg")),
            }),
        ]
    );
    assert_eq!(interpreter.outbox_seq_number(), 21);
}

#[test]
fn trace_of_an_invocation_that_never_started_carries_no_time() {
    let run = || {
        let mut interpreter = interpreter();
        let mut state = inboxed(None);
        let mut effects = Effects::new();
        let result = interpreter.on_apply(
            Command::TerminateInvocation(InvocationTermination::cancel(fid_a())),
            &mut effects,
            &mut state,
        );
        (result, effects.into_inner())
    };
    let (result, effects) = run();
    assert_eq!(result, Ok((Some(fid_a()), parent_span())));
    assert_eq!(
        effects,
        vec![
            trace_of_failure(CANCELLED_CODE, "canceled", None),
            Effect::DeleteInboxEntry { service_id: service("svc", "k"), sequence_number: 12 },
        ]
    );
    assert_eq!(run(), (result, effects));
}

#[test]
fn effects_buffer_is_reused() {
    let mut effects = Effects::with_capacity(2);
    assert!(effects.is_empty());
    effects.truncate_outbox(1);
    effects.delete_timer(TimerKey { invocation_uuid: 1, journal_index: 2, timestamp: 3 });
    assert_eq!(effects.len(), 2);
    assert_eq!(effects.get(0), &Effect::TruncateOutbox(1));
    effects.clear();
    assert!(effects.is_empty());
    assert_eq!(effects, Effects::new());
}

#[test]
fn clones_keep_what_they_hold() {
    let status = InvocationStatus::Suspended {
        metadata: metadata(3, ingress_sink()),
        waiting_for_completed_entries: HashSet::from([1, 5]),
    };
    assert_eq!(status.clone(), status);
    let entry = raw(
        EnrichedEntryHeader::Invoke { is_completed: false, enrichment_result: Some(child_target()) },
        &Entry::Invoke { request: child_request() },
    );
    assert_eq!(entry.clone(), entry);
    assert_eq!(invocation(ingress_sink()).clone(), invocation(ingress_sink()));
    let message = OutboxMessage::ServiceInvocation(invocation(None));
    assert_eq!(message.clone(), message);
}

#[test]
fn errors_of_terminated_invocations() {
    assert_eq!(InvocationError::killed(), InvocationError::new(ABORTED_CODE, "killed".to_string()));
    assert_eq!(
        InvocationError::canceled(),
        InvocationError::new(CANCELLED_CODE, "canceled".to_string())
    );
    assert_eq!(InvocationError::killed().code(), 10);
    assert_eq!(InvocationError::canceled().code(), 1);
    assert_eq!(
        CompletionResult::from_error(&InvocationError::canceled()),
        CompletionResult::Failure(1, "canceled".to_string())
    );
    assert_eq!(
        CompletionResult::from_response(ResponseResult::Success(Bytes::from("x"))),
        CompletionResult::Success(Bytes::from("x"))
    );
    assert_eq!(CompletionResult::from_state(None), CompletionResult::Empty);
}

#[test]
fn identifiers_fit_together() {
    let full = fid_a();
    let handle = full.invocation_id();
    assert_eq!(handle, InvocationId { partition_key: PARTITION, invocation_uuid: UUID_A });
    assert_eq!(FullInvocationId::combine(service("svc", "k"), handle), full);
    assert_eq!(full.partition_key(), PARTITION);
    assert_eq!(MaybeFullInvocationId::Full(full).invocation_id(), handle);
    assert_eq!(MaybeFullInvocationId::Partial(handle).invocation_id(), handle);
}

#[test]
fn span_relations() {
    let linked = ServiceInvocationSpanContext {
        trace_id: 1,
        span_id: 2,
        cause: Some(SpanRelationCause::Linked(3, 4)),
    };
    assert_eq!(linked.as_parent(), SpanRelation::Parent { trace_id: 1, span_id: 2 });
    assert_eq!(linked.as_linked(), SpanRelation::Linked { trace_id: 1, span_id: 2 });
    assert_eq!(linked.span_cause(), Some(SpanRelationCause::Linked(3, 4)));
    assert_eq!(linked.pointer_span_id(), Some(4));
    assert_eq!(span().pointer_span_id(), None);
}

#[test]
fn a_failed_command_is_applied_again_by_a_new_interpreter() {
    let mut interpreter: Interpreter = CommandInterpreter::new(0, 30, 0..=u64::MAX);
    let mut state = invoked(3, None);
    state.journals.push((
        fid_a().invocation_id(),
        vec![call(false, Some(child_target())), input(), call(false, Some(child_target()))],
    ));
    state.journal_breaks_at = Some(2);
    let kill = || Command::TerminateInvocation(InvocationTermination::kill(fid_a()));
    let (result, _) = apply(&mut interpreter, &mut state, kill());
    assert!(matches!(result, Err(Error::Storage(_))));
    state.journal_breaks_at = None;
    let mut interpreter: Interpreter = CommandInterpreter::new(0, 30, 0..=u64::MAX);
    let (result, effects) = apply(&mut interpreter, &mut state, kill());
    assert!(result.is_ok());
    let numbers: Vec<u64> = effects
        .iter()
        .filter_map(|effect| match effect {
            Effect::EnqueueIntoOutbox { seq_number, .. } => Some(*seq_number),
            _ => None,
        })
        .collect();
    assert_eq!(numbers, vec![30, 31]);
    assert_eq!(interpreter.outbox_seq_number(), 32);
}

#[test]
fn state_mutations_and_errors_are_cloned_whole() {
    assert_eq!(mutation().clone(), mutation());
    let queued = InboxEntry::StateMutation(mutation());
    assert_eq!(queued.clone(), queued);
    let failed = Error::Storage(StorageError { reason: "down".to_string() });
    assert_eq!(failed.clone(), failed);
    let refused = Error::Codec(CodecError {
        entry_type: EntryType::Invoke,
        kind: CodecErrorKind::NotCompletable,
    });
    assert_eq!(refused.clone(), refused);
}

#[test]
fn the_clock_shows_a_time_after_the_tests_were_written() {
    assert!(partition_interpreter::clock::now_millis() > T);
}

#[test]
fn interpreter_keeps_its_key_range() {
    let interpreter: Interpreter = CommandInterpreter::new(1, 2, 10..=20);
    assert_eq!(interpreter.partition_key_range(), &(10..=20));
    assert!(interpreter.partition_key_range().contains(&PARTITION) == false);
    assert_eq!((interpreter.inbox_seq_number(), interpreter.outbox_seq_number()), (1, 2));
}

struct RefusingCodec;

impl RawEntryCodec for RefusingCodec {
    fn deserialize(entry_type: EntryType, entry_value: &Bytes) -> Result<Entry, CodecError> {
        TestCodec::deserialize(entry_type, entry_value)
    }

    fn write_completion(
        entry: &mut EnrichedRawEntry,
        _completion_result: CompletionResult,
    ) -> Result<(), CodecError> {
        Err(CodecError { entry_type: entry.ty(), kind: CodecErrorKind::NotCompletable })
    }

    fn serialize_get_state_keys_completion(keys: Vec<Bytes>) -> CompletionResult {
        TestCodec::serialize_get_state_keys_completion(keys)
    }
}

#[test]
fn completion_that_the_codec_refuses_is_an_error() {
    let mut interpreter: CommandInterpreter<RefusingCodec, NoBuiltInServices> =
        CommandInterpreter::new(0, 0, 0..=u64::MAX);
    let mut state = invoked(2, None);
    state.completions.push((fid_a().invocation_id(), 2, CompletionResult::Empty));
    let entry = raw(EnrichedEntryHeader::Awakeable { is_completed: false }, &Entry::Awakeable);
    let mut effects = Effects::new();
    let result =
        interpreter.on_apply(journal_entry_command(2, entry), &mut effects, &mut state);
    assert_eq!(
        result,
        Err(Error::Codec(CodecError {
            entry_type: EntryType::Awakeable,
            kind: CodecErrorKind::NotCompletable,
        }))
    );
    assert!(effects.is_empty());
}

#[test]
fn clock_readings_become_points_in_time() {
    assert_eq!(millis_since_epoch(None), 0);
    assert_eq!(millis_since_epoch(Some(0)), 0);
    assert_eq!(millis_since_epoch(Some(1_700_000_000_123)), 1_700_000_000_123);
    assert_eq!(millis_since_epoch(Some(u64::MAX as u128)), u64::MAX);
    assert_eq!(millis_since_epoch(Some(u64::MAX as u128 + 1)), u64::MAX);
    assert_eq!(millis_since_epoch(Some(u128::MAX)), u64::MAX);
}

#[test]
fn nothing_awaited_is_not_resumable_and_reads_nothing() {
    let mut state = MockState { down: true, ..MockState::default() };
    let nothing: HashSet<EntryIndex> = HashSet::new();
    assert_eq!(any_entry_resumable(&mut state, &fid_a().invocation_id(), &nothing), Ok(false));
    let something: HashSet<EntryIndex> = HashSet::from([3]);
    assert_eq!(
        any_entry_resumable(&mut state, &fid_a().invocation_id(), &something),
        Err(StorageError { reason: "down".to_string() })
    );
    state.down = false;
    assert_eq!(any_entry_resumable(&mut state, &fid_a().invocation_id(), &something), Ok(false));
    state.resumable.push((fid_a().invocation_id(), 3));
    assert_eq!(any_entry_resumable(&mut state, &fid_a().invocation_id(), &something), Ok(true));
}

#[test]
fn headers_travel_with_the_invocation() {
    let mut interpreter = interpreter();
    let mut state = MockState::default();
    let mut with_headers = invocation(None);
    with_headers.headers = vec![
        Header { name: "a".to_string(), value: "1".to_string() },
        Header { name: "b".to_string(), value: "2".to_string() },
    ];
    assert_eq!(with_headers.clone(), with_headers);
    let (_, effects) = apply(&mut interpreter, &mut state, Command::Invoke(with_headers.clone()));
    assert_eq!(effects, vec![Effect::InvokeService(with_headers.clone())]);
    state.locks.push((service("svc", "k"), VirtualObjectStatus::Locked(fid("svc", "k", UUID_B))));
    let (_, effects) = apply(&mut interpreter, &mut state, Command::Invoke(with_headers.clone()));
    assert_eq!(
        effects,
        vec![Effect::EnqueueIntoInbox {
            seq_number: 0,
            inbox_entry: InboxEntry::Invocation(with_headers),
        }]
    );
}

#[test]
fn completed_sleep_and_awakeable_entries_are_taken() {
    let mut interpreter = interpreter();
    let mut state = invoked(1, None);
    let sleep = raw(EnrichedEntryHeader::Sleep { is_completed: true }, &Entry::Sleep { wake_up_time: T });
    let (result, effects) = apply(&mut interpreter, &mut state, journal_entry_command(1, sleep));
    assert!(result.is_ok());
    assert_eq!(effects.len(), 3);
    assert!(matches!(effects[0], Effect::RegisterTimer { .. }));
    let awakeable = raw(EnrichedEntryHeader::Awakeable { is_completed: true }, &Entry::Awakeable);
    let (result, effects) =
        apply(&mut interpreter, &mut state, journal_entry_command(1, awakeable.clone()));
    assert!(result.is_ok());
    assert_eq!(
        effects,
        vec![
            Effect::AppendJournalEntry {
                invocation_id: fid_a().invocation_id(),
                previous_invocation_status: InvocationStatus::Invoked(metadata(1, None)),
                entry_index: 1,
                journal_entry: awakeable,
            },
            Effect::SendStoredEntryAckToInvoker { full_invocation_id: fid_a(), entry_index: 1 },
        ]
    );
}

#[test]
fn decisions_on_what_was_read() {
    let mut interpreter: Interpreter = CommandInterpreter::new(7, 9, 0..=u64::MAX);
    let mut effects = Effects::new();
    let applied = interpreter.invoke_with_status(
        &mut effects,
        VirtualObjectStatus::Locked(fid("svc", "k", UUID_B)),
        invocation(None),
    );
    assert_eq!(applied, (Some(fid_a()), parent_span()));
    let applied = interpreter.state_mutation_with_status(
        mutation(),
        VirtualObjectStatus::Unlocked,
        &mut effects,
    );
    assert_eq!(applied, (None, SpanRelation::Unrelated));
    let applied = Interpreter::completion_with_status(
        MaybeFullInvocationId::Partial(fid_a().invocation_id()),
        Completion::new(1, CompletionResult::Empty),
        InvocationStatus::Free,
        &mut effects,
    );
    assert_eq!(applied, (None, SpanRelation::Unrelated));
    let applied = interpreter.terminate_inboxed_with_entry(
        TerminationFlavor::Kill,
        MaybeFullInvocationId::Full(fid_a()),
        None,
        &mut effects,
    );
    assert_eq!(applied, (Some(fid_a()), SpanRelation::Unrelated));
    Interpreter::suspension_with_answer(
        &mut effects,
        fid_a().invocation_id(),
        metadata(2, None),
        HashSet::from([1]),
        true,
    );
    assert_eq!(
        effects.into_inner(),
        vec![
            Effect::EnqueueIntoInbox {
                seq_number: 7,
                inbox_entry: InboxEntry::Invocation(invocation(None)),
            },
            Effect::ApplyStateMutation(mutation()),
            Effect::AbortInvocation(fid_a()),
            Effect::ResumeService {
                invocation_id: fid_a().invocation_id(),
                metadata: metadata(2, None),
            },
        ]
    );
    assert_eq!((interpreter.inbox_seq_number(), interpreter.outbox_seq_number()), (8, 9));
}

#[test]
fn walks_over_what_was_read_of_a_journal() {
    let broken = || Err(StorageError { reason: "broken".to_string() });
    let mut interpreter: Interpreter = CommandInterpreter::new(0, 5, 0..=u64::MAX);
    let mut effects = Effects::new();
    let killed = interpreter.kill_children_read(
        vec![Ok((0, call(false, Some(child_target())))), Ok((1, input())), broken()],
        &mut effects,
    );
    assert_eq!(killed, Err(Error::Storage(StorageError { reason: "broken".to_string() })));
    assert_eq!(effects.len(), 1);
    assert_eq!(interpreter.outbox_seq_number(), 6);
    let killed = interpreter.kill_children_read(
        vec![Ok((0, call(false, Some(child_target())))), Ok((1, call(true, None)))],
        &mut effects,
    );
    assert_eq!(killed, Ok(()));
    assert_eq!(interpreter.outbox_seq_number(), 7);
    let mut effects = Effects::new();
    let cancelled = interpreter.cancel_leaves_read(
        fid_a(),
        InvocationStatusProjection::Suspended(HashSet::from([1])),
        vec![
            Ok((0, input())),
            Ok((1, stored(EnrichedEntryHeader::Awakeable { is_completed: false }, &Entry::Awakeable))),
        ],
        &mut effects,
    );
    assert_eq!(cancelled, Ok(true));
    assert_eq!(
        effects.into_inner(),
        vec![Effect::StoreCompletion {
            invocation_id: fid_a().invocation_id(),
            completion: Completion::new(1, canceled()),
        }]
    );
    let mut effects = Effects::new();
    let cancelled = interpreter.cancel_leaves_read(
        fid_a(),
        InvocationStatusProjection::Invoked,
        vec![Ok((0, input())), broken()],
        &mut effects,
    );
    assert_eq!(cancelled, Err(Error::Storage(StorageError { reason: "broken".to_string() })));
    assert!(effects.is_empty());
}
