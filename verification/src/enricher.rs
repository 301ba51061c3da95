//! Resolves what a journal entry points to before the entry reaches the
//! partition.
//!
//! The invoker hands over plain entries. An entry that makes a call is
//! given the invocation that the call starts: the key of the target is
//! extracted from the request, and a fresh identifier and span are attached.
//! An entry that completes an awakeable is given the journal entry that
//! waits for it.
use crate::identifiers::{EntryIndex, InvocationId, InvocationUuid, PartitionKey};
use crate::invocation::{
    ServiceInvocationSpanContext, SpanId, SpanRelation, SpanRelationCause, TraceId,
};
use crate::journal::{
    AwakeableEnrichmentResult, CodecError, CodecErrorKind, EnrichedEntryHeader,
    EnrichedEntryHeaderView, EnrichedRawEntry, EnrichedRawEntryView, Entry, EntryType, EntryView,
    InvokeEnrichmentResult, InvokeEnrichmentResultView, InvokeRequest, InvokeRequestView,
    RawEntryCodec, unexpected_entry,
};
use crate::octets::bytes_contents;
use bytes::Bytes;
use std::marker::PhantomData;
use vstd::prelude::*;

verus! {

/// Why no key could be extracted from a request.
#[derive(Clone, Copy, Debug, PartialEq, Eq)]
pub enum KeyExtractorError {
    ServiceNotFound,
    MethodNotFound,
    MalformedPayload,
}

/// Finds the key of the virtual object that a request addresses, and the
/// partition that a key lives on. What it returns depends on its arguments
/// and on the extractor alone.
pub trait KeyExtractor {
    /// The key that the request addresses.
    open spec fn extracted(&self, service_name: Seq<char>, service_method: Seq<char>, payload: Seq<
        u8,
    >) -> Result<Seq<u8>, KeyExtractorError> {
        arbitrary()
    }

    /// The partition key of a service key.
    open spec fn partition_key_of(&self, service_key: Seq<u8>) -> PartitionKey {
        arbitrary()
    }

    fn extract(&self, service_name: &str, service_method: &str, payload: Bytes) -> (r: Result<
        Bytes,
        KeyExtractorError,
    >)
        ensures
            match self.extracted(service_name@, service_method@, bytes_contents(payload)) {
                Ok(key) => r matches Ok(k) && bytes_contents(k) == key,
                Err(e) => r == Err::<Bytes, KeyExtractorError>(e),
            },
    ;

    fn partition_key(&self, service_key: &Bytes) -> (r: PartitionKey)
        ensures
            r == self.partition_key_of(bytes_contents(*service_key)),
    ;
}

/// What the invoker knows of a journal entry without decoding it.
#[derive(Clone, Copy, Debug, PartialEq, Eq)]
pub enum RawEntryHeader {
    Input,
    Output,
    GetState { is_completed: bool },
    SetState,
    ClearState,
    GetStateKeys { is_completed: bool },
    ClearAllState,
    Sleep { is_completed: bool },
    Invoke { is_completed: bool },
    BackgroundInvoke,
    Awakeable { is_completed: bool },
    /// The completion of an awakeable, with the journal entry that waits
    /// for it.
    CompleteAwakeable { invocation_id: InvocationId, entry_index: EntryIndex },
    Custom { code: u16, requires_ack: bool },
}

/// A journal entry as the invoker hands it over.
#[derive(Debug, PartialEq, Eq)]
pub struct PlainRawEntry {
    pub header: RawEntryHeader,
    pub entry: Bytes,
}

pub struct PlainRawEntryView {
    pub header: RawEntryHeader,
    pub entry: Seq<u8>,
}

impl View for PlainRawEntry {
    type V = PlainRawEntryView;

    open spec fn view(&self) -> PlainRawEntryView {
        PlainRawEntryView { header: self.header, entry: bytes_contents(self.entry) }
    }
}

/// Identifiers that nobody has used before: one for a new invocation, and a
/// trace and a span for it.
#[derive(Clone, Copy, Debug, PartialEq, Eq)]
pub struct FreshIdentifiers {
    pub invocation_uuid: InvocationUuid,
    pub trace_id: TraceId,
    pub span_id: SpanId,
}

/// Why an entry could not be enriched.
#[derive(Clone, Copy, Debug, PartialEq, Eq)]
pub enum EnrichmentError {
    Codec(CodecError),
    KeyExtractor(KeyExtractorError),
}

/// The span of a new invocation: under the trace of its parent, or in a
/// trace of its own that is linked to its cause.
pub open spec fn start_span(relation: SpanRelation, fresh: FreshIdentifiers) -> ServiceInvocationSpanContext {
    match relation {
        SpanRelation::Unrelated => ServiceInvocationSpanContext {
            trace_id: fresh.trace_id,
            span_id: fresh.span_id,
            cause: None,
        },
        SpanRelation::Parent { trace_id, span_id } => ServiceInvocationSpanContext {
            trace_id,
            span_id: fresh.span_id,
            cause: Some(SpanRelationCause::Parent(span_id)),
        },
        SpanRelation::Linked { trace_id, span_id } => ServiceInvocationSpanContext {
            trace_id: fresh.trace_id,
            span_id: fresh.span_id,
            cause: Some(SpanRelationCause::Linked(trace_id, span_id)),
        },
    }
}

pub fn start_span_context(relation: SpanRelation, fresh: FreshIdentifiers) -> (r:
    ServiceInvocationSpanContext)
    ensures
        r == start_span(relation, fresh),
{
    match relation {
        SpanRelation::Unrelated => ServiceInvocationSpanContext {
            trace_id: fresh.trace_id,
            span_id: fresh.span_id,
            cause: None,
        },
        SpanRelation::Parent { trace_id, span_id } => ServiceInvocationSpanContext {
            trace_id,
            span_id: fresh.span_id,
            cause: Some(SpanRelationCause::Parent(span_id)),
        },
        SpanRelation::Linked { trace_id, span_id } => ServiceInvocationSpanContext {
            trace_id: fresh.trace_id,
            span_id: fresh.span_id,
            cause: Some(SpanRelationCause::Linked(trace_id, span_id)),
        },
    }
}

/// The request of a decoded call entry of kind `entry_type`.
pub open spec fn request_of(entry_type: EntryType, entry: EntryView) -> Option<InvokeRequestView> {
    match entry {
        EntryView::Invoke { request } => if entry_type == EntryType::Invoke {
            Some(request)
        } else {
            None
        },
        EntryView::BackgroundInvoke { request, .. } => if entry_type
            == EntryType::BackgroundInvoke {
            Some(request)
        } else {
            None
        },
        _ => None,
    }
}

/// Enriches the journal entries of the invoker for the partition.
pub struct EntryEnricher<Extractor, Codec> {
    key_extractor: Extractor,
    _codec: PhantomData<Codec>,
}

impl<Extractor, Codec> EntryEnricher<Extractor, Codec> {
    /// The extractor that the enricher asks for keys.
    pub closed spec fn extractor(&self) -> Extractor {
        self.key_extractor
    }

    pub fn new(key_extractor: Extractor) -> (r: Self)
        ensures
            r.extractor() == key_extractor,
    {
        EntryEnricher { key_extractor, _codec: PhantomData }
    }
}

impl<Extractor: KeyExtractor, Codec: RawEntryCodec> EntryEnricher<Extractor, Codec> {
    /// The target of the call that the raw bytes `raw` of an entry of kind
    /// `entry_type` make.
    pub open spec fn resolved(
        &self,
        entry_type: EntryType,
        raw: Seq<u8>,
        span_relation: SpanRelation,
        fresh: FreshIdentifiers,
    ) -> Result<InvokeEnrichmentResultView, EnrichmentError> {
        match Codec::decoded(entry_type, raw) {
            Err(e) => Err(EnrichmentError::Codec(e)),
            Ok(entry) => match request_of(entry_type, entry) {
                None => Err(EnrichmentError::Codec(unexpected_entry(entry_type))),
                Some(request) => match self.extractor().extracted(
                    request.service_name,
                    request.method_name,
                    request.parameter,
                ) {
                    Err(e) => Err(EnrichmentError::KeyExtractor(e)),
                    Ok(service_key) => Ok(
                        InvokeEnrichmentResultView {
                            invocation_uuid: fresh.invocation_uuid,
                            partition_key: self.extractor().partition_key_of(service_key),
                            service_key,
                            service_name: request.service_name,
                            span_context: start_span(span_relation, fresh),
                        },
                    ),
                },
            },
        }
    }

    /// The header of the enriched entry.
    pub open spec fn enriched_header(
        &self,
        raw_entry: PlainRawEntryView,
        invocation_span_context: ServiceInvocationSpanContext,
        fresh: FreshIdentifiers,
    ) -> Result<EnrichedEntryHeaderView, EnrichmentError> {
        match raw_entry.header {
            RawEntryHeader::Input => Ok(EnrichedEntryHeaderView::Input),
            RawEntryHeader::Output => Ok(EnrichedEntryHeaderView::Output),
            RawEntryHeader::GetState { is_completed } => Ok(
                EnrichedEntryHeaderView::GetState { is_completed },
            ),
            RawEntryHeader::SetState => Ok(EnrichedEntryHeaderView::SetState),
            RawEntryHeader::ClearState => Ok(EnrichedEntryHeaderView::ClearState),
            RawEntryHeader::GetStateKeys { is_completed } => Ok(
                EnrichedEntryHeaderView::GetStateKeys { is_completed },
            ),
            RawEntryHeader::ClearAllState => Ok(EnrichedEntryHeaderView::ClearAllState),
            RawEntryHeader::Sleep { is_completed } => Ok(
                EnrichedEntryHeaderView::Sleep { is_completed },
            ),
            RawEntryHeader::Invoke { is_completed } => if is_completed {
                Ok(EnrichedEntryHeaderView::Invoke { is_completed, enrichment_result: None })
            } else {
                match self.resolved(
                    EntryType::Invoke,
                    raw_entry.entry,
                    invocation_span_context.spec_as_parent(),
                    fresh,
                ) {
                    Ok(target) => Ok(
                        EnrichedEntryHeaderView::Invoke {
                            is_completed,
                            enrichment_result: Some(target),
                        },
                    ),
                    Err(e) => Err(e),
                }
            },
            RawEntryHeader::BackgroundInvoke => match self.resolved(
                EntryType::BackgroundInvoke,
                raw_entry.entry,
                invocation_span_context.spec_as_linked(),
                fresh,
            ) {
                Ok(target) => Ok(
                    EnrichedEntryHeaderView::BackgroundInvoke { enrichment_result: target },
                ),
                Err(e) => Err(e),
            },
            RawEntryHeader::Awakeable { is_completed } => Ok(
                EnrichedEntryHeaderView::Awakeable { is_completed },
            ),
            RawEntryHeader::CompleteAwakeable { invocation_id, entry_index } => Ok(
                EnrichedEntryHeaderView::CompleteAwakeable {
                    enrichment_result: AwakeableEnrichmentResult { invocation_id, entry_index },
                },
            ),
            RawEntryHeader::Custom { code, requires_ack } => Ok(
                EnrichedEntryHeaderView::Custom { code, requires_ack },
            ),
        }
    }

    /// The enriched entry: the header with what the entry points to, and
    /// the bytes of the entry as they came.
    pub open spec fn enriched(
        &self,
        raw_entry: PlainRawEntryView,
        invocation_span_context: ServiceInvocationSpanContext,
        fresh: FreshIdentifiers,
    ) -> Result<EnrichedRawEntryView, EnrichmentError> {
        match self.enriched_header(raw_entry, invocation_span_context, fresh) {
            Ok(header) => Ok(EnrichedRawEntryView { header, entry: raw_entry.entry }),
            Err(e) => Err(e),
        }
    }

    /// Finds the target of the call that a raw entry makes. `fresh` gives
    /// the identifiers of the invocation that the call starts.
    pub fn resolve_service_invocation_target(
        &self,
        entry_type: EntryType,
        raw_entry: &PlainRawEntry,
        span_relation: SpanRelation,
        fresh: FreshIdentifiers,
    ) -> (r: Result<InvokeEnrichmentResult, EnrichmentError>)
        ensures
            match self.resolved(entry_type, raw_entry@.entry, span_relation, fresh) {
                Ok(target) => r matches Ok(t) && t@ == target,
                Err(e) => r == Err::<InvokeEnrichmentResult, EnrichmentError>(e),
            },
    {
        let entry = match Codec::deserialize(entry_type, &raw_entry.entry) {
            Ok(entry) => entry,
            Err(e) => {
                return Err(EnrichmentError::Codec(e));
            },
        };
        let request = match extract_request(entry_type, entry) {
            Some(request) => request,
            None => {
                return Err(
                    EnrichmentError::Codec(
                        CodecError { entry_type, kind: CodecErrorKind::UnexpectedEntry },
                    ),
                );
            },
        };
        let service_key = match self.key_extractor.extract(
            request.service_name.as_str(),
            request.method_name.as_str(),
            request.parameter,
        ) {
            Ok(key) => key,
            Err(e) => {
                return Err(EnrichmentError::KeyExtractor(e));
            },
        };
        let partition_key = self.key_extractor.partition_key(&service_key);
        Ok(
            InvokeEnrichmentResult {
                invocation_uuid: fresh.invocation_uuid,
                partition_key,
                service_key,
                service_name: request.service_name,
                span_context: start_span_context(span_relation, fresh),
            },
        )
    }

    /// Enriches a plain entry. `fresh` gives the identifiers for the
    /// invocation that the entry starts, if it starts one.
    pub fn enrich_entry(
        &self,
        raw_entry: PlainRawEntry,
        invocation_span_context: &ServiceInvocationSpanContext,
        fresh: FreshIdentifiers,
    ) -> (r: Result<EnrichedRawEntry, EnrichmentError>)
        ensures
            match self.enriched(raw_entry@, *invocation_span_context, fresh) {
                Ok(entry) => r matches Ok(e) && e@ == entry,
                Err(e) => r == Err::<EnrichedRawEntry, EnrichmentError>(e),
            },
    {
        let enriched_header = match raw_entry.header {
            RawEntryHeader::Input => EnrichedEntryHeader::Input,
            RawEntryHeader::Output => EnrichedEntryHeader::Output,
            RawEntryHeader::GetState { is_completed } => EnrichedEntryHeader::GetState {
                is_completed,
            },
            RawEntryHeader::SetState => EnrichedEntryHeader::SetState,
            RawEntryHeader::ClearState => EnrichedEntryHeader::ClearState,
            RawEntryHeader::GetStateKeys { is_completed } => EnrichedEntryHeader::GetStateKeys {
                is_completed,
            },
            RawEntryHeader::ClearAllState => EnrichedEntryHeader::ClearAllState,
            RawEntryHeader::Sleep { is_completed } => EnrichedEntryHeader::Sleep { is_completed },
            RawEntryHeader::Invoke { is_completed } => {
                if !is_completed {
                    let resolution_result = self.resolve_service_invocation_target(
                        EntryType::Invoke,
                        &raw_entry,
                        invocation_span_context.as_parent(),
                        fresh,
                    )?;
                    EnrichedEntryHeader::Invoke {
                        is_completed,
                        enrichment_result: Some(resolution_result),
                    }
                } else {
                    EnrichedEntryHeader::Invoke { is_completed, enrichment_result: None }
                }
            },
            RawEntryHeader::BackgroundInvoke => {
                let resolution_result = self.resolve_service_invocation_target(
                    EntryType::BackgroundInvoke,
                    &raw_entry,
                    invocation_span_context.as_linked(),
                    fresh,
                )?;
                EnrichedEntryHeader::BackgroundInvoke { enrichment_result: resolution_result }
            },
            RawEntryHeader::Awakeable { is_completed } => EnrichedEntryHeader::Awakeable {
                is_completed,
            },
            RawEntryHeader::CompleteAwakeable { invocation_id, entry_index } =>
                EnrichedEntryHeader::CompleteAwakeable {
                    enrichment_result: AwakeableEnrichmentResult { invocation_id, entry_index },
                },
            RawEntryHeader::Custom { code, requires_ack } => EnrichedEntryHeader::Custom {
                code,
                requires_ack,
            },
        };
        Ok(EnrichedRawEntry::new(enriched_header, raw_entry.entry))
    }
}

/// Takes the request out of a decoded call entry of kind `entry_type`.
pub fn extract_request(entry_type: EntryType, entry: Entry) -> (r: Option<InvokeRequest>)
    ensures
        match request_of(entry_type, entry@) {
            Some(request) => r matches Some(q) && q@ == request,
            None => r is None,
        },
{
    match entry {
        Entry::Invoke { request } => match entry_type {
            EntryType::Invoke => Some(request),
            _ => None,
        },
        Entry::BackgroundInvoke { request, .. } => match entry_type {
            EntryType::BackgroundInvoke => Some(request),
            _ => None,
        },
        _ => None,
    }
}

} // verus!
