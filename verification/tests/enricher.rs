use bytes::Bytes;
use partition_interpreter::enricher::{
    EnrichmentError, EntryEnricher, FreshIdentifiers, KeyExtractor, KeyExtractorError,
    PlainRawEntry, RawEntryHeader, start_span_context,
};
use partition_interpreter::identifiers::InvocationId;
use partition_interpreter::invocation::{
    ResponseResult, ServiceInvocationSpanContext, SpanRelation, SpanRelationCause,
};
use partition_interpreter::journal::{
    AwakeableEnrichmentResult, CodecError, CodecErrorKind, CompletionResult, EnrichedEntryHeader,
    EnrichedRawEntry, Entry, EntryType, InvokeEnrichmentResult, InvokeRequest, RawEntryCodec,
};

// Entries are written as text here: the kind, then the fields, separated by
// `|`.

struct TextCodec;

fn text(parts: &[&str]) -> Bytes {
    Bytes::from(parts.join("|"))
}

impl RawEntryCodec for TextCodec {
    fn deserialize(entry_type: EntryType, entry_value: &Bytes) -> Result<Entry, CodecError> {
        let malformed = CodecError { entry_type, kind: CodecErrorKind::Malformed };
        let raw = std::str::from_utf8(entry_value).map_err(|_| malformed)?;
        let parts: Vec<&str> = raw.split('|').collect();
        let request = |parts: &[&str]| InvokeRequest {
            service_name: parts[1].to_string(),
            method_name: parts[2].to_string(),
            parameter: Bytes::from(parts[3].to_string()),
        };
        match parts.as_slice() {
            ["invoke", _, _, _] => Ok(Entry::Invoke { request: request(&parts) }),
            ["background", _, _, _, time] => Ok(Entry::BackgroundInvoke {
                request: request(&parts),
                invoke_time: time.parse().map_err(|_| malformed)?,
            }),
            ["complete", id] => Ok(Entry::CompleteAwakeable {
                id: id.to_string(),
                result: ResponseResult::Success(Bytes::new()),
            }),
            ["awakeable"] => Ok(Entry::Awakeable),
            _ => Err(malformed),
        }
    }

    fn write_completion(
        entry: &mut EnrichedRawEntry,
        _completion_result: CompletionResult,
    ) -> Result<(), CodecError> {
        Err(CodecError { entry_type: entry.ty(), kind: CodecErrorKind::NotCompletable })
    }

    fn serialize_get_state_keys_completion(_keys: Vec<Bytes>) -> CompletionResult {
        CompletionResult::Empty
    }
}

/// The key is the parameter up to the first `:`; the partition key is the
/// length of the key.
struct PrefixKeys;

impl KeyExtractor for PrefixKeys {
    fn extract(
        &self,
        service_name: &str,
        service_method: &str,
        payload: Bytes,
    ) -> Result<Bytes, KeyExtractorError> {
        if service_name != "svc2" {
            return Err(KeyExtractorError::ServiceNotFound);
        }
        if service_method != "go" {
            return Err(KeyExtractorError::MethodNotFound);
        }
        match payload.iter().position(|b| *b == b':') {
            Some(at) => Ok(payload.slice(..at)),
            None => Err(KeyExtractorError::MalformedPayload),
        }
    }

    fn partition_key(&self, service_key: &Bytes) -> u64 {
        service_key.len() as u64
    }
}

fn enricher() -> EntryEnricher<PrefixKeys, TextCodec> {
    EntryEnricher::new(PrefixKeys)
}

const FRESH: FreshIdentifiers = FreshIdentifiers { invocation_uuid: 0xB, trace_id: 0x50, span_id: 0x60 };

fn span() -> ServiceInvocationSpanContext {
    ServiceInvocationSpanContext { trace_id: 0x77, span_id: 0x11, cause: None }
}

fn enrich(header: RawEntryHeader, entry: Bytes) -> Result<EnrichedRawEntry, EnrichmentError> {
    enricher().enrich_entry(PlainRawEntry { header, entry }, &span(), FRESH)
}

fn target(span_context: ServiceInvocationSpanContext) -> InvokeEnrichmentResult {
    InvokeEnrichmentResult {
        invocation_uuid: 0xB,
        partition_key: 3,
        service_key: Bytes::from("key"),
        service_name: "svc2".to_string(),
        span_context,
    }
}

#[test]
fn headers_without_target_are_carried_over() {
    let cases = vec![
        (RawEntryHeader::Input, EnrichedEntryHeader::Input),
        (RawEntryHeader::Output, EnrichedEntryHeader::Output),
        (
            RawEntryHeader::GetState { is_completed: true },
            EnrichedEntryHeader::GetState { is_completed: true },
        ),
        (RawEntryHeader::SetState, EnrichedEntryHeader::SetState),
        (RawEntryHeader::ClearState, EnrichedEntryHeader::ClearState),
        (
            RawEntryHeader::GetStateKeys { is_completed: false },
            EnrichedEntryHeader::GetStateKeys { is_completed: false },
        ),
        (RawEntryHeader::ClearAllState, EnrichedEntryHeader::ClearAllState),
        (
            RawEntryHeader::Sleep { is_completed: false },
            EnrichedEntryHeader::Sleep { is_completed: false },
        ),
        (
            RawEntryHeader::Awakeable { is_completed: true },
            EnrichedEntryHeader::Awakeable { is_completed: true },
        ),
        (
            RawEntryHeader::Custom { code: 77, requires_ack: true },
            EnrichedEntryHeader::Custom { code: 77, requires_ack: true },
        ),
        (
            RawEntryHeader::Custom { code: 78, requires_ack: false },
            EnrichedEntryHeader::Custom { code: 78, requires_ack: false },
        ),
        (
            RawEntryHeader::CompleteAwakeable {
                invocation_id: InvocationId { partition_key: 4, invocation_uuid: 10 },
                entry_index: 2,
            },
            EnrichedEntryHeader::CompleteAwakeable {
                enrichment_result: AwakeableEnrichmentResult {
                    invocation_id: InvocationId { partition_key: 4, invocation_uuid: 10 },
                    entry_index: 2,
                },
            },
        ),
    ];
    for (plain, enriched) in cases {
        let entry = Bytes::from_static(&[0xFF, 1, 2]);
        assert_eq!(enrich(plain, entry.clone()), Ok(EnrichedRawEntry::new(enriched, entry)));
    }
}

#[test]
fn invoke_entry_gets_its_target() {
    let entry = text(&["invoke", "svc2", "go", "key:rest"]);
    assert_eq!(
        enrich(RawEntryHeader::Invoke { is_completed: false }, entry.clone()),
        Ok(EnrichedRawEntry::new(
            EnrichedEntryHeader::Invoke {
                is_completed: false,
                enrichment_result: Some(target(ServiceInvocationSpanContext {
                    trace_id: 0x77,
                    span_id: 0x60,
                    cause: Some(SpanRelationCause::Parent(0x11)),
                })),
            },
            entry,
        ))
    );
}

#[test]
fn completed_invoke_entry_is_not_resolved() {
    let entry = Bytes::from_static(&[0xFF]);
    assert_eq!(
        enrich(RawEntryHeader::Invoke { is_completed: true }, entry.clone()),
        Ok(EnrichedRawEntry::new(
            EnrichedEntryHeader::Invoke { is_completed: true, enrichment_result: None },
            entry,
        ))
    );
}

#[test]
fn background_invoke_entry_is_linked_to_its_cause() {
    let entry = text(&["background", "svc2", "go", "key:", "0"]);
    assert_eq!(
        enrich(RawEntryHeader::BackgroundInvoke, entry.clone()),
        Ok(EnrichedRawEntry::new(
            EnrichedEntryHeader::BackgroundInvoke {
                enrichment_result: target(ServiceInvocationSpanContext {
                    trace_id: 0x50,
                    span_id: 0x60,
                    cause: Some(SpanRelationCause::Linked(0x77, 0x11)),
                }),
            },
            entry,
        ))
    );
}

#[test]
fn enrichment_fails_with_the_codec() {
    let malformed = |entry_type| {
        Err(EnrichmentError::Codec(CodecError { entry_type, kind: CodecErrorKind::Malformed }))
    };
    let unexpected = |entry_type| {
        Err(EnrichmentError::Codec(CodecError { entry_type, kind: CodecErrorKind::UnexpectedEntry }))
    };
    assert_eq!(
        enrich(RawEntryHeader::Invoke { is_completed: false }, text(&["nonsense"])),
        malformed(EntryType::Invoke)
    );
    assert_eq!(
        enrich(RawEntryHeader::BackgroundInvoke, text(&["invoke", "svc2", "go", "key:"])),
        unexpected(EntryType::BackgroundInvoke)
    );
    assert_eq!(
        enrich(
            RawEntryHeader::Invoke { is_completed: false },
            text(&["background", "svc2", "go", "key:", "5"])
        ),
        unexpected(EntryType::Invoke)
    );
}

#[test]
fn enrichment_fails_with_the_key_extractor() {
    let failed = |entry: Bytes| enrich(RawEntryHeader::Invoke { is_completed: false }, entry);
    assert_eq!(
        failed(text(&["invoke", "other", "go", "key:"])),
        Err(EnrichmentError::KeyExtractor(KeyExtractorError::ServiceNotFound))
    );
    assert_eq!(
        failed(text(&["invoke", "svc2", "stop", "key:"])),
        Err(EnrichmentError::KeyExtractor(KeyExtractorError::MethodNotFound))
    );
    assert_eq!(
        failed(text(&["invoke", "svc2", "go", "key"])),
        Err(EnrichmentError::KeyExtractor(KeyExtractorError::MalformedPayload))
    );
}

#[test]
fn target_is_resolved_from_the_request() {
    let entry = PlainRawEntry {
        header: RawEntryHeader::BackgroundInvoke,
        entry: text(&["background", "svc2", "go", "longer key:x", "9"]),
    };
    let resolved = enricher().resolve_service_invocation_target(
        EntryType::BackgroundInvoke,
        &entry,
        SpanRelation::Unrelated,
        FRESH,
    );
    assert_eq!(
        resolved,
        Ok(InvokeEnrichmentResult {
            invocation_uuid: 0xB,
            partition_key: 10,
            service_key: Bytes::from("longer key"),
            service_name: "svc2".to_string(),
            span_context: ServiceInvocationSpanContext { trace_id: 0x50, span_id: 0x60, cause: None },
        })
    );
}

#[test]
fn spans_start_under_their_parent() {
    assert_eq!(
        start_span_context(SpanRelation::Parent { trace_id: 1, span_id: 2 }, FRESH),
        ServiceInvocationSpanContext {
            trace_id: 1,
            span_id: 0x60,
            cause: Some(SpanRelationCause::Parent(2)),
        }
    );
    assert_eq!(
        start_span_context(SpanRelation::Linked { trace_id: 1, span_id: 2 }, FRESH),
        ServiceInvocationSpanContext {
            trace_id: 0x50,
            span_id: 0x60,
            cause: Some(SpanRelationCause::Linked(1, 2)),
        }
    );
}
