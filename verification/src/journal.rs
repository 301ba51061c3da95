//! Journal entries, their completions, and the codec that reads and
//! completes raw entries.
use crate::errors::{InvocationError, InvocationErrorCode, InvocationErrorView};
use crate::identifiers::{
    EntryIndex, FullInvocationIdView, InvocationId, InvocationUuid, MillisSinceEpoch, PartitionKey,
    ServiceIdView,
};
use crate::invocation::{ResponseResult, ResponseResultView, ServiceInvocationSpanContext};
use crate::octets::bytes_contents;
use bytes::Bytes;
use vstd::prelude::*;

verus! {

/// The kinds of journal entries.
#[derive(Clone, Copy, Debug, PartialEq, Eq)]
pub enum EntryType {
    Input,
    Output,
    GetState,
    SetState,
    ClearState,
    GetStateKeys,
    ClearAllState,
    Sleep,
    Invoke,
    BackgroundInvoke,
    Awakeable,
    CompleteAwakeable,
    Custom,
}

/// What is wrong with a raw entry.
#[derive(Clone, Copy, Debug, PartialEq, Eq)]
pub enum CodecErrorKind {
    /// The bytes are no entry of the announced kind.
    Malformed,
    /// The entry cannot take a completion: its kind has none, or it has one
    /// already.
    NotCompletable,
    /// The bytes decode to an entry of another kind than the header says.
    UnexpectedEntry,
}

/// Failure to decode or to complete a raw journal entry.
#[derive(Clone, Copy, Debug, PartialEq, Eq)]
pub struct CodecError {
    pub entry_type: EntryType,
    pub kind: CodecErrorKind,
}

/// The error for bytes that decode to another kind of entry than `expected`.
pub open spec fn unexpected_entry(expected: EntryType) -> CodecError {
    CodecError { entry_type: expected, kind: CodecErrorKind::UnexpectedEntry }
}

/// The value that completes a journal entry.
#[derive(Debug, PartialEq, Eq)]
pub enum CompletionResult {
    Empty,
    Success(Bytes),
    Failure(InvocationErrorCode, String),
}

pub enum CompletionResultView {
    Empty,
    Success(Seq<u8>),
    Failure(InvocationErrorCode, Seq<char>),
}

impl CompletionResultView {
    pub open spec fn from_response(result: ResponseResultView) -> Self {
        match result {
            ResponseResultView::Success(value) => CompletionResultView::Success(value),
            ResponseResultView::Failure(code, message) => CompletionResultView::Failure(
                code,
                message,
            ),
        }
    }

    pub open spec fn from_error(error: InvocationErrorView) -> Self {
        CompletionResultView::Failure(error.code, error.message)
    }

    /// The completion of a read of the state: the value, or nothing.
    pub open spec fn from_state(value: Option<Seq<u8>>) -> Self {
        match value {
            Some(v) => CompletionResultView::Success(v),
            None => CompletionResultView::Empty,
        }
    }
}

impl View for CompletionResult {
    type V = CompletionResultView;

    open spec fn view(&self) -> CompletionResultView {
        match self {
            CompletionResult::Empty => CompletionResultView::Empty,
            CompletionResult::Success(value) => CompletionResultView::Success(
                bytes_contents(*value),
            ),
            CompletionResult::Failure(code, message) => CompletionResultView::Failure(
                *code,
                message@,
            ),
        }
    }
}

impl Clone for CompletionResult {
    fn clone(&self) -> (r: Self)
        ensures
            r@ == self@,
    {
        match self {
            CompletionResult::Empty => CompletionResult::Empty,
            CompletionResult::Success(value) => CompletionResult::Success(value.clone()),
            CompletionResult::Failure(code, message) => CompletionResult::Failure(
                *code,
                message.clone(),
            ),
        }
    }
}

impl CompletionResult {
    pub fn from_response(result: ResponseResult) -> (r: Self)
        ensures
            r@ == CompletionResultView::from_response(result@),
    {
        match result {
            ResponseResult::Success(value) => CompletionResult::Success(value),
            ResponseResult::Failure(code, message) => CompletionResult::Failure(code, message),
        }
    }

    pub fn from_error(error: &InvocationError) -> (r: Self)
        ensures
            r@ == CompletionResultView::from_error(error@),
    {
        CompletionResult::Failure(error.code, error.message.clone())
    }

    pub fn from_state(value: Option<Bytes>) -> (r: Self)
        ensures
            r@ == CompletionResultView::from_state(
                match value {
                    Some(v) => Some(bytes_contents(v)),
                    None => None,
                },
            ),
    {
        match value {
            Some(v) => CompletionResult::Success(v),
            None => CompletionResult::Empty,
        }
    }
}

/// The view of an optional completion result.
pub open spec fn completion_result_view(result: Option<CompletionResult>) -> Option<
    CompletionResultView,
> {
    match result {
        Some(r) => Some(r@),
        None => None,
    }
}

/// A completion result on its way to the journal entry at `entry_index`.
#[derive(Debug, PartialEq, Eq)]
pub struct Completion {
    pub entry_index: EntryIndex,
    pub result: CompletionResult,
}

pub struct CompletionView {
    pub entry_index: EntryIndex,
    pub result: CompletionResultView,
}

impl View for Completion {
    type V = CompletionView;

    open spec fn view(&self) -> CompletionView {
        CompletionView { entry_index: self.entry_index, result: self.result@ }
    }
}

impl Clone for Completion {
    fn clone(&self) -> (r: Self)
        ensures
            r@ == self@,
    {
        Completion { entry_index: self.entry_index, result: self.result.clone() }
    }
}

impl Completion {
    pub fn new(entry_index: EntryIndex, result: CompletionResult) -> (r: Self)
        ensures
            r@ == (CompletionView { entry_index, result: result@ }),
    {
        Completion { entry_index, result }
    }
}

/// The target of a call, resolved when the entry that makes the call entered
/// the journal.
#[derive(Debug, PartialEq, Eq)]
pub struct InvokeEnrichmentResult {
    pub invocation_uuid: InvocationUuid,
    pub partition_key: PartitionKey,
    pub service_key: Bytes,
    pub service_name: String,
    pub span_context: ServiceInvocationSpanContext,
}

pub struct InvokeEnrichmentResultView {
    pub invocation_uuid: InvocationUuid,
    pub partition_key: PartitionKey,
    pub service_key: Seq<u8>,
    pub service_name: Seq<char>,
    pub span_context: ServiceInvocationSpanContext,
}

impl InvokeEnrichmentResultView {
    /// The invocation that the call started.
    pub open spec fn target(self) -> FullInvocationIdView {
        FullInvocationIdView {
            service_id: ServiceIdView {
                partition_key: self.partition_key,
                service_name: self.service_name,
                key: self.service_key,
            },
            invocation_uuid: self.invocation_uuid,
        }
    }
}

impl View for InvokeEnrichmentResult {
    type V = InvokeEnrichmentResultView;

    open spec fn view(&self) -> InvokeEnrichmentResultView {
        InvokeEnrichmentResultView {
            invocation_uuid: self.invocation_uuid,
            partition_key: self.partition_key,
            service_key: bytes_contents(self.service_key),
            service_name: self.service_name@,
            span_context: self.span_context,
        }
    }
}

impl Clone for InvokeEnrichmentResult {
    fn clone(&self) -> (r: Self)
        ensures
            r@ == self@,
    {
        InvokeEnrichmentResult {
            invocation_uuid: self.invocation_uuid,
            partition_key: self.partition_key,
            service_key: self.service_key.clone(),
            service_name: self.service_name.clone(),
            span_context: self.span_context,
        }
    }
}

/// The awakeable that a completing entry addresses.
#[derive(Clone, Copy, Debug, PartialEq, Eq)]
pub struct AwakeableEnrichmentResult {
    pub invocation_id: InvocationId,
    pub entry_index: EntryIndex,
}

/// What is known of a journal entry without decoding it.
#[derive(Debug, PartialEq, Eq)]
#[allow(inconsistent_fields)]
pub enum EnrichedEntryHeader {
    Input,
    Output,
    GetState { is_completed: bool },
    SetState,
    ClearState,
    GetStateKeys { is_completed: bool },
    ClearAllState,
    Sleep { is_completed: bool },
    Invoke { is_completed: bool, enrichment_result: Option<InvokeEnrichmentResult> },
    BackgroundInvoke { enrichment_result: InvokeEnrichmentResult },
    Awakeable { is_completed: bool },
    CompleteAwakeable { enrichment_result: AwakeableEnrichmentResult },
    Custom { code: u16, requires_ack: bool },
}

#[allow(inconsistent_fields)]
pub enum EnrichedEntryHeaderView {
    Input,
    Output,
    GetState { is_completed: bool },
    SetState,
    ClearState,
    GetStateKeys { is_completed: bool },
    ClearAllState,
    Sleep { is_completed: bool },
    Invoke { is_completed: bool, enrichment_result: Option<InvokeEnrichmentResultView> },
    BackgroundInvoke { enrichment_result: InvokeEnrichmentResultView },
    Awakeable { is_completed: bool },
    CompleteAwakeable { enrichment_result: AwakeableEnrichmentResult },
    Custom { code: u16, requires_ack: bool },
}

impl EnrichedEntryHeaderView {
    pub open spec fn entry_type(self) -> EntryType {
        match self {
            EnrichedEntryHeaderView::Input => EntryType::Input,
            EnrichedEntryHeaderView::Output => EntryType::Output,
            EnrichedEntryHeaderView::GetState { .. } => EntryType::GetState,
            EnrichedEntryHeaderView::SetState => EntryType::SetState,
            EnrichedEntryHeaderView::ClearState => EntryType::ClearState,
            EnrichedEntryHeaderView::GetStateKeys { .. } => EntryType::GetStateKeys,
            EnrichedEntryHeaderView::ClearAllState => EntryType::ClearAllState,
            EnrichedEntryHeaderView::Sleep { .. } => EntryType::Sleep,
            EnrichedEntryHeaderView::Invoke { .. } => EntryType::Invoke,
            EnrichedEntryHeaderView::BackgroundInvoke { .. } => EntryType::BackgroundInvoke,
            EnrichedEntryHeaderView::Awakeable { .. } => EntryType::Awakeable,
            EnrichedEntryHeaderView::CompleteAwakeable { .. } => EntryType::CompleteAwakeable,
            EnrichedEntryHeaderView::Custom { .. } => EntryType::Custom,
        }
    }

    /// Whether the entry has its completion; `None` for the kinds that never
    /// wait for one.
    pub open spec fn is_completed(self) -> Option<bool> {
        match self {
            EnrichedEntryHeaderView::GetState { is_completed } => Some(is_completed),
            EnrichedEntryHeaderView::GetStateKeys { is_completed } => Some(is_completed),
            EnrichedEntryHeaderView::Sleep { is_completed } => Some(is_completed),
            EnrichedEntryHeaderView::Invoke { is_completed, .. } => Some(is_completed),
            EnrichedEntryHeaderView::Awakeable { is_completed } => Some(is_completed),
            _ => None,
        }
    }
}

/// The view of an optional call target.
pub open spec fn enrichment_view(e: Option<InvokeEnrichmentResult>) -> Option<
    InvokeEnrichmentResultView,
> {
    match e {
        Some(r) => Some(r@),
        None => None,
    }
}

impl View for EnrichedEntryHeader {
    type V = EnrichedEntryHeaderView;

    open spec fn view(&self) -> EnrichedEntryHeaderView {
        match self {
            EnrichedEntryHeader::Input => EnrichedEntryHeaderView::Input,
            EnrichedEntryHeader::Output => EnrichedEntryHeaderView::Output,
            EnrichedEntryHeader::GetState { is_completed } => EnrichedEntryHeaderView::GetState {
                is_completed: *is_completed,
            },
            EnrichedEntryHeader::SetState => EnrichedEntryHeaderView::SetState,
            EnrichedEntryHeader::ClearState => EnrichedEntryHeaderView::ClearState,
            EnrichedEntryHeader::GetStateKeys { is_completed } =>
                EnrichedEntryHeaderView::GetStateKeys { is_completed: *is_completed },
            EnrichedEntryHeader::ClearAllState => EnrichedEntryHeaderView::ClearAllState,
            EnrichedEntryHeader::Sleep { is_completed } => EnrichedEntryHeaderView::Sleep {
                is_completed: *is_completed,
            },
            EnrichedEntryHeader::Invoke { is_completed, enrichment_result } =>
                EnrichedEntryHeaderView::Invoke {
                    is_completed: *is_completed,
                    enrichment_result: enrichment_view(*enrichment_result),
                },
            EnrichedEntryHeader::BackgroundInvoke { enrichment_result } =>
                EnrichedEntryHeaderView::BackgroundInvoke { enrichment_result: enrichment_result@ },
            EnrichedEntryHeader::Awakeable { is_completed } => EnrichedEntryHeaderView::Awakeable {
                is_completed: *is_completed,
            },
            EnrichedEntryHeader::CompleteAwakeable { enrichment_result } =>
                EnrichedEntryHeaderView::CompleteAwakeable { enrichment_result: *enrichment_result },
            EnrichedEntryHeader::Custom { code, requires_ack } => EnrichedEntryHeaderView::Custom {
                code: *code,
                requires_ack: *requires_ack,
            },
        }
    }
}

impl Clone for EnrichedEntryHeader {
    fn clone(&self) -> (r: Self)
        ensures
            r@ == self@,
    {
        match self {
            EnrichedEntryHeader::Input => EnrichedEntryHeader::Input,
            EnrichedEntryHeader::Output => EnrichedEntryHeader::Output,
            EnrichedEntryHeader::GetState { is_completed } => EnrichedEntryHeader::GetState {
                is_completed: *is_completed,
            },
            EnrichedEntryHeader::SetState => EnrichedEntryHeader::SetState,
            EnrichedEntryHeader::ClearState => EnrichedEntryHeader::ClearState,
            EnrichedEntryHeader::GetStateKeys { is_completed } => EnrichedEntryHeader::GetStateKeys {
                is_completed: *is_completed,
            },
            EnrichedEntryHeader::ClearAllState => EnrichedEntryHeader::ClearAllState,
            EnrichedEntryHeader::Sleep { is_completed } => EnrichedEntryHeader::Sleep {
                is_completed: *is_completed,
            },
            EnrichedEntryHeader::Invoke { is_completed, enrichment_result } => {
                let enrichment_result = match enrichment_result {
                    Some(e) => Some(e.clone()),
                    None => None,
                };
                EnrichedEntryHeader::Invoke { is_completed: *is_completed, enrichment_result }
            },
            EnrichedEntryHeader::BackgroundInvoke { enrichment_result } =>
                EnrichedEntryHeader::BackgroundInvoke { enrichment_result: enrichment_result.clone() },
            EnrichedEntryHeader::Awakeable { is_completed } => EnrichedEntryHeader::Awakeable {
                is_completed: *is_completed,
            },
            EnrichedEntryHeader::CompleteAwakeable { enrichment_result } =>
                EnrichedEntryHeader::CompleteAwakeable { enrichment_result: *enrichment_result },
            EnrichedEntryHeader::Custom { code, requires_ack } => EnrichedEntryHeader::Custom {
                code: *code,
                requires_ack: *requires_ack,
            },
        }
    }
}

impl EnrichedEntryHeader {
    pub fn entry_type(&self) -> (r: EntryType)
        ensures
            r == self@.entry_type(),
    {
        match self {
            EnrichedEntryHeader::Input => EntryType::Input,
            EnrichedEntryHeader::Output => EntryType::Output,
            EnrichedEntryHeader::GetState { .. } => EntryType::GetState,
            EnrichedEntryHeader::SetState => EntryType::SetState,
            EnrichedEntryHeader::ClearState => EntryType::ClearState,
            EnrichedEntryHeader::GetStateKeys { .. } => EntryType::GetStateKeys,
            EnrichedEntryHeader::ClearAllState => EntryType::ClearAllState,
            EnrichedEntryHeader::Sleep { .. } => EntryType::Sleep,
            EnrichedEntryHeader::Invoke { .. } => EntryType::Invoke,
            EnrichedEntryHeader::BackgroundInvoke { .. } => EntryType::BackgroundInvoke,
            EnrichedEntryHeader::Awakeable { .. } => EntryType::Awakeable,
            EnrichedEntryHeader::CompleteAwakeable { .. } => EntryType::CompleteAwakeable,
            EnrichedEntryHeader::Custom { .. } => EntryType::Custom,
        }
    }

    pub fn is_completed(&self) -> (r: Option<bool>)
        ensures
            r == self@.is_completed(),
    {
        match self {
            EnrichedEntryHeader::GetState { is_completed } => Some(*is_completed),
            EnrichedEntryHeader::GetStateKeys { is_completed } => Some(*is_completed),
            EnrichedEntryHeader::Sleep { is_completed } => Some(*is_completed),
            EnrichedEntryHeader::Invoke { is_completed, .. } => Some(*is_completed),
            EnrichedEntryHeader::Awakeable { is_completed } => Some(*is_completed),
            _ => None,
        }
    }
}

/// A journal entry as the invoker hands it over and as storage keeps it: the
/// header and the encoded entry.
#[derive(Debug, PartialEq, Eq)]
pub struct EnrichedRawEntry {
    pub header: EnrichedEntryHeader,
    pub entry: Bytes,
}

pub struct EnrichedRawEntryView {
    pub header: EnrichedEntryHeaderView,
    pub entry: Seq<u8>,
}

impl View for EnrichedRawEntry {
    type V = EnrichedRawEntryView;

    open spec fn view(&self) -> EnrichedRawEntryView {
        EnrichedRawEntryView { header: self.header@, entry: bytes_contents(self.entry) }
    }
}

impl Clone for EnrichedRawEntry {
    fn clone(&self) -> (r: Self)
        ensures
            r@ == self@,
    {
        EnrichedRawEntry { header: self.header.clone(), entry: self.entry.clone() }
    }
}

impl EnrichedRawEntry {
    pub fn new(header: EnrichedEntryHeader, entry: Bytes) -> (r: Self)
        ensures
            r@ == (EnrichedRawEntryView { header: header@, entry: bytes_contents(entry) }),
    {
        EnrichedRawEntry { header, entry }
    }

    pub fn ty(&self) -> (r: EntryType)
        ensures
            r == self@.header.entry_type(),
    {
        self.header.entry_type()
    }

    pub fn into_inner(self) -> (r: (EnrichedEntryHeader, Bytes))
        ensures
            r.0@ == self@.header,
            bytes_contents(r.1) == self@.entry,
    {
        (self.header, self.entry)
    }

    /// Decodes the entry with the codec `C`, as the kind its header announces.
    pub fn deserialize_entry_ref<C: RawEntryCodec>(&self) -> (r: Result<Entry, CodecError>)
        ensures
            entry_result_view(r) == C::decoded(self@.header.entry_type(), self@.entry),
    {
        C::deserialize(self.header.entry_type(), &self.entry)
    }
}

/// What the journal of an invocation holds at one index.
#[derive(Debug, PartialEq, Eq)]
pub enum JournalEntry {
    Entry(EnrichedRawEntry),
    /// A completion that arrived before its entry.
    Completion(CompletionResult),
}

pub enum JournalEntryView {
    Entry(EnrichedRawEntryView),
    Completion(CompletionResultView),
}

impl View for JournalEntry {
    type V = JournalEntryView;

    open spec fn view(&self) -> JournalEntryView {
        match self {
            JournalEntry::Entry(entry) => JournalEntryView::Entry(entry@),
            JournalEntry::Completion(result) => JournalEntryView::Completion(result@),
        }
    }
}

impl Clone for JournalEntry {
    fn clone(&self) -> (r: Self)
        ensures
            r@ == self@,
    {
        match self {
            JournalEntry::Entry(entry) => JournalEntry::Entry(entry.clone()),
            JournalEntry::Completion(result) => JournalEntry::Completion(result.clone()),
        }
    }
}

/// The call that an invoke entry makes.
#[derive(Debug, PartialEq, Eq)]
pub struct InvokeRequest {
    pub service_name: String,
    pub method_name: String,
    pub parameter: Bytes,
}

pub struct InvokeRequestView {
    pub service_name: Seq<char>,
    pub method_name: Seq<char>,
    pub parameter: Seq<u8>,
}

impl View for InvokeRequest {
    type V = InvokeRequestView;

    open spec fn view(&self) -> InvokeRequestView {
        InvokeRequestView {
            service_name: self.service_name@,
            method_name: self.method_name@,
            parameter: bytes_contents(self.parameter),
        }
    }
}

impl Clone for InvokeRequest {
    fn clone(&self) -> (r: Self)
        ensures
            r@ == self@,
    {
        InvokeRequest {
            service_name: self.service_name.clone(),
            method_name: self.method_name.clone(),
            parameter: self.parameter.clone(),
        }
    }
}

/// A decoded journal entry, as far as the interpreter reads it.
#[derive(Debug, PartialEq, Eq)]
pub enum Entry {
    Input { value: Bytes },
    Output { result: ResponseResult },
    GetState { key: Bytes },
    SetState { key: Bytes, value: Bytes },
    ClearState { key: Bytes },
    GetStateKeys,
    ClearAllState,
    Sleep { wake_up_time: MillisSinceEpoch },
    Invoke { request: InvokeRequest },
    /// A call nobody waits for; `invoke_time` 0 means at once.
    BackgroundInvoke { request: InvokeRequest, invoke_time: MillisSinceEpoch },
    Awakeable,
    /// The completion of an awakeable: its identifier, and what it gets.
    CompleteAwakeable { id: String, result: ResponseResult },
    Custom { value: Bytes },
}

pub enum EntryView {
    Input { value: Seq<u8> },
    Output { result: ResponseResultView },
    GetState { key: Seq<u8> },
    SetState { key: Seq<u8>, value: Seq<u8> },
    ClearState { key: Seq<u8> },
    GetStateKeys,
    ClearAllState,
    Sleep { wake_up_time: MillisSinceEpoch },
    Invoke { request: InvokeRequestView },
    BackgroundInvoke { request: InvokeRequestView, invoke_time: MillisSinceEpoch },
    Awakeable,
    CompleteAwakeable { id: Seq<char>, result: ResponseResultView },
    Custom { value: Seq<u8> },
}

impl View for Entry {
    type V = EntryView;

    open spec fn view(&self) -> EntryView {
        match self {
            Entry::Input { value } => EntryView::Input { value: bytes_contents(*value) },
            Entry::Output { result } => EntryView::Output { result: result@ },
            Entry::GetState { key } => EntryView::GetState { key: bytes_contents(*key) },
            Entry::SetState { key, value } => EntryView::SetState {
                key: bytes_contents(*key),
                value: bytes_contents(*value),
            },
            Entry::ClearState { key } => EntryView::ClearState { key: bytes_contents(*key) },
            Entry::GetStateKeys => EntryView::GetStateKeys,
            Entry::ClearAllState => EntryView::ClearAllState,
            Entry::Sleep { wake_up_time } => EntryView::Sleep { wake_up_time: *wake_up_time },
            Entry::Invoke { request } => EntryView::Invoke { request: request@ },
            Entry::BackgroundInvoke { request, invoke_time } => EntryView::BackgroundInvoke {
                request: request@,
                invoke_time: *invoke_time,
            },
            Entry::Awakeable => EntryView::Awakeable,
            Entry::CompleteAwakeable { id, result } => EntryView::CompleteAwakeable {
                id: id@,
                result: result@,
            },
            Entry::Custom { value } => EntryView::Custom { value: bytes_contents(*value) },
        }
    }
}

/// The view of the outcome of decoding.
pub open spec fn entry_result_view(r: Result<Entry, CodecError>) -> Result<EntryView, CodecError> {
    match r {
        Ok(entry) => Ok(entry@),
        Err(e) => Err(e),
    }
}

/// The byte sequences that a list of state keys holds.
pub open spec fn keys_view(keys: Seq<Bytes>) -> Seq<Seq<u8>> {
    keys.map_values(|k: Bytes| bytes_contents(k))
}

/// The codec of raw journal entries. What it returns depends on its
/// arguments alone: decoding the same bytes twice gives the same entry.
///
/// An implementation states with the three spec functions what it computes.
pub trait RawEntryCodec {
    /// The entry that `raw` holds when read as an entry of kind `entry_type`.
    open spec fn decoded(entry_type: EntryType, raw: Seq<u8>) -> Result<EntryView, CodecError> {
        arbitrary()
    }

    /// The raw entry with `result` written into it and its header marked as
    /// completed.
    open spec fn completed(entry: EnrichedRawEntryView, result: CompletionResultView) -> Result<
        EnrichedRawEntryView,
        CodecError,
    > {
        arbitrary()
    }

    /// The completion of an entry that asked for all state keys.
    open spec fn state_keys_completion(keys: Seq<Seq<u8>>) -> CompletionResultView {
        arbitrary()
    }

    fn deserialize(entry_type: EntryType, entry_value: &Bytes) -> (r: Result<Entry, CodecError>)
        ensures
            entry_result_view(r) == Self::decoded(entry_type, bytes_contents(*entry_value)),
    ;

    fn write_completion(entry: &mut EnrichedRawEntry, completion_result: CompletionResult) -> (r:
        Result<(), CodecError>)
        ensures
            match Self::completed(old(entry)@, completion_result@) {
                Ok(e) => r is Ok && final(entry)@ == e,
                Err(e) => r == Err::<(), CodecError>(e),
            },
    ;

    fn serialize_get_state_keys_completion(keys: Vec<Bytes>) -> (r: CompletionResult)
        ensures
            r@ == Self::state_keys_completion(keys_view(keys@)),
    ;
}

} // verus!
