//! Invocations, their responses and their termination.
use crate::errors::{InvocationError, InvocationErrorCode, InvocationErrorView};
use crate::identifiers::{
    EntryIndex, FullInvocationId, FullInvocationIdView, MaybeFullInvocationId,
    MaybeFullInvocationIdView, MillisSinceEpoch,
};
use crate::octets::bytes_contents;
use bytes::Bytes;
use vstd::prelude::*;

verus! {

/// Identifier of a tracing span.
pub type SpanId = u64;

/// Identifier of a trace.
pub type TraceId = u128;

/// Identifier of the ingress dispatcher that waits for a response.
pub type IngressDispatcherId = u64;

/// How the span of an invocation came to be.
#[derive(Clone, Copy, Debug, PartialEq, Eq)]
pub enum SpanRelationCause {
    Parent(SpanId),
    Linked(TraceId, SpanId),
}

/// How a new span relates to an existing one.
#[derive(Clone, Copy, Debug, PartialEq, Eq)]
pub enum SpanRelation {
    /// No span to relate to.
    Unrelated,
    Parent { trace_id: TraceId, span_id: SpanId },
    Linked { trace_id: TraceId, span_id: SpanId },
}

/// The tracing span of an invocation.
#[derive(Clone, Copy, Debug, PartialEq, Eq)]
pub struct ServiceInvocationSpanContext {
    pub trace_id: TraceId,
    pub span_id: SpanId,
    pub cause: Option<SpanRelationCause>,
}

impl ServiceInvocationSpanContext {
    pub open spec fn spec_as_parent(self) -> SpanRelation {
        SpanRelation::Parent { trace_id: self.trace_id, span_id: self.span_id }
    }

    pub open spec fn spec_as_linked(self) -> SpanRelation {
        SpanRelation::Linked { trace_id: self.trace_id, span_id: self.span_id }
    }

    /// The span of the linked cause, if the span has one.
    pub open spec fn spec_pointer_span_id(self) -> Option<SpanId> {
        match self.cause {
            Some(SpanRelationCause::Linked(_, span_id)) => Some(span_id),
            _ => None,
        }
    }

    /// This span as the parent of another one.
    pub fn as_parent(&self) -> (r: SpanRelation)
        ensures
            r == self.spec_as_parent(),
    {
        SpanRelation::Parent { trace_id: self.trace_id, span_id: self.span_id }
    }

    /// This span as the cause another one is linked to.
    pub fn as_linked(&self) -> (r: SpanRelation)
        ensures
            r == self.spec_as_linked(),
    {
        SpanRelation::Linked { trace_id: self.trace_id, span_id: self.span_id }
    }

    pub fn span_cause(&self) -> (r: Option<SpanRelationCause>)
        ensures
            r == self.cause,
    {
        self.cause
    }

    pub fn pointer_span_id(&self) -> (r: Option<SpanId>)
        ensures
            r == self.spec_pointer_span_id(),
    {
        match self.cause {
            Some(SpanRelationCause::Linked(_, span_id)) => Some(span_id),
            _ => None,
        }
    }
}

/// Outcome of an invocation as it is reported to whoever waits for it.
#[derive(Debug, PartialEq, Eq)]
pub enum ResponseResult {
    Success(Bytes),
    Failure(InvocationErrorCode, String),
}

pub enum ResponseResultView {
    Success(Seq<u8>),
    Failure(InvocationErrorCode, Seq<char>),
}

impl ResponseResultView {
    pub open spec fn from_error(error: InvocationErrorView) -> Self {
        ResponseResultView::Failure(error.code, error.message)
    }
}

impl View for ResponseResult {
    type V = ResponseResultView;

    open spec fn view(&self) -> ResponseResultView {
        match self {
            ResponseResult::Success(value) => ResponseResultView::Success(bytes_contents(*value)),
            ResponseResult::Failure(code, message) => ResponseResultView::Failure(*code, message@),
        }
    }
}

impl Clone for ResponseResult {
    fn clone(&self) -> (r: Self)
        ensures
            r@ == self@,
    {
        match self {
            ResponseResult::Success(value) => ResponseResult::Success(value.clone()),
            ResponseResult::Failure(code, message) => ResponseResult::Failure(
                *code,
                message.clone(),
            ),
        }
    }
}

impl ResponseResult {
    pub fn from_error(error: &InvocationError) -> (r: Self)
        ensures
            r@ == ResponseResultView::from_error(error@),
    {
        ResponseResult::Failure(error.code, error.message.clone())
    }
}

/// Where the response of an invocation goes.
#[derive(Debug, PartialEq, Eq)]
pub enum ServiceInvocationResponseSink {
    /// To the journal entry of the invocation that made the call.
    PartitionProcessor { caller: FullInvocationId, entry_index: EntryIndex },
    /// To an external caller, through the ingress.
    Ingress(IngressDispatcherId),
}

pub enum ServiceInvocationResponseSinkView {
    PartitionProcessor { caller: FullInvocationIdView, entry_index: EntryIndex },
    Ingress(IngressDispatcherId),
}

impl View for ServiceInvocationResponseSink {
    type V = ServiceInvocationResponseSinkView;

    open spec fn view(&self) -> ServiceInvocationResponseSinkView {
        match self {
            ServiceInvocationResponseSink::PartitionProcessor { caller, entry_index } =>
                ServiceInvocationResponseSinkView::PartitionProcessor {
                    caller: caller@,
                    entry_index: *entry_index,
                },
            ServiceInvocationResponseSink::Ingress(id) => ServiceInvocationResponseSinkView::Ingress(
                *id,
            ),
        }
    }
}

impl Clone for ServiceInvocationResponseSink {
    fn clone(&self) -> (r: Self)
        ensures
            r@ == self@,
    {
        match self {
            ServiceInvocationResponseSink::PartitionProcessor { caller, entry_index } =>
                ServiceInvocationResponseSink::PartitionProcessor {
                    caller: caller.clone(),
                    entry_index: *entry_index,
                },
            ServiceInvocationResponseSink::Ingress(id) => ServiceInvocationResponseSink::Ingress(
                *id,
            ),
        }
    }
}

/// The view of an optional response sink.
pub open spec fn sink_view(sink: Option<ServiceInvocationResponseSink>) -> Option<
    ServiceInvocationResponseSinkView,
> {
    match sink {
        Some(s) => Some(s@),
        None => None,
    }
}

pub fn clone_sink(sink: &Option<ServiceInvocationResponseSink>) -> (r: Option<
    ServiceInvocationResponseSink,
>)
    ensures
        sink_view(r) == sink_view(*sink),
{
    match sink {
        Some(s) => Some(s.clone()),
        None => None,
    }
}

/// Who asked for an invocation.
#[derive(Debug, PartialEq, Eq)]
pub enum Source {
    Ingress,
    Service(FullInvocationId),
    Internal,
}

pub enum SourceView {
    Ingress,
    Service(FullInvocationIdView),
    Internal,
}

impl View for Source {
    type V = SourceView;

    open spec fn view(&self) -> SourceView {
        match self {
            Source::Ingress => SourceView::Ingress,
            Source::Service(fid) => SourceView::Service(fid@),
            Source::Internal => SourceView::Internal,
        }
    }
}

impl Clone for Source {
    fn clone(&self) -> (r: Self)
        ensures
            r@ == self@,
    {
        match self {
            Source::Ingress => Source::Ingress,
            Source::Service(fid) => Source::Service(fid.clone()),
            Source::Internal => Source::Internal,
        }
    }
}

/// A header that travels with an invocation.
#[derive(Debug, PartialEq, Eq)]
pub struct Header {
    pub name: String,
    pub value: String,
}

pub struct HeaderView {
    pub name: Seq<char>,
    pub value: Seq<char>,
}

impl View for Header {
    type V = HeaderView;

    open spec fn view(&self) -> HeaderView {
        HeaderView { name: self.name@, value: self.value@ }
    }
}

impl Clone for Header {
    fn clone(&self) -> (r: Self)
        ensures
            r@ == self@,
    {
        Header { name: self.name.clone(), value: self.value.clone() }
    }
}

/// The views of a list of headers.
pub open spec fn headers_view(headers: Seq<Header>) -> Seq<HeaderView> {
    headers.map_values(|h: Header| h@)
}

pub fn clone_headers(headers: &Vec<Header>) -> (r: Vec<Header>)
    ensures
        headers_view(r@) == headers_view(headers@),
{
    let mut copy: Vec<Header> = Vec::new();
    let mut i: usize = 0;
    while i < headers.len()
        invariant
            i <= headers.len(),
            copy.len() == i,
            forall|j: int| 0 <= j < i ==> copy@[j]@ == headers@[j]@,
        decreases headers.len() - i,
    {
        copy.push(headers[i].clone());
        i += 1;
    }
    assert(headers_view(copy@) =~= headers_view(headers@));
    copy
}

/// A request to run a method of a service.
#[derive(Debug, PartialEq, Eq)]
pub struct ServiceInvocation {
    pub fid: FullInvocationId,
    pub method_name: String,
    pub argument: Bytes,
    pub source: Source,
    pub response_sink: Option<ServiceInvocationResponseSink>,
    pub span_context: ServiceInvocationSpanContext,
    pub headers: Vec<Header>,
    /// When set, the invocation is not to start before this time.
    pub execution_time: Option<MillisSinceEpoch>,
}

pub struct ServiceInvocationView {
    pub fid: FullInvocationIdView,
    pub method_name: Seq<char>,
    pub argument: Seq<u8>,
    pub source: SourceView,
    pub response_sink: Option<ServiceInvocationResponseSinkView>,
    pub span_context: ServiceInvocationSpanContext,
    pub headers: Seq<HeaderView>,
    pub execution_time: Option<MillisSinceEpoch>,
}

impl View for ServiceInvocation {
    type V = ServiceInvocationView;

    open spec fn view(&self) -> ServiceInvocationView {
        ServiceInvocationView {
            fid: self.fid@,
            method_name: self.method_name@,
            argument: bytes_contents(self.argument),
            source: self.source@,
            response_sink: sink_view(self.response_sink),
            span_context: self.span_context,
            headers: headers_view(self.headers@),
            execution_time: self.execution_time,
        }
    }
}

impl Clone for ServiceInvocation {
    fn clone(&self) -> (r: Self)
        ensures
            r@ == self@,
    {
        ServiceInvocation {
            fid: self.fid.clone(),
            method_name: self.method_name.clone(),
            argument: self.argument.clone(),
            source: self.source.clone(),
            response_sink: clone_sink(&self.response_sink),
            span_context: self.span_context,
            headers: clone_headers(&self.headers),
            execution_time: self.execution_time,
        }
    }
}

/// The result of a call, addressed to the journal entry that waits for it.
#[derive(Debug, PartialEq, Eq)]
pub struct InvocationResponse {
    pub id: MaybeFullInvocationId,
    pub entry_index: EntryIndex,
    pub result: ResponseResult,
}

pub struct InvocationResponseView {
    pub id: MaybeFullInvocationIdView,
    pub entry_index: EntryIndex,
    pub result: ResponseResultView,
}

impl View for InvocationResponse {
    type V = InvocationResponseView;

    open spec fn view(&self) -> InvocationResponseView {
        InvocationResponseView {
            id: self.id@,
            entry_index: self.entry_index,
            result: self.result@,
        }
    }
}

impl Clone for InvocationResponse {
    fn clone(&self) -> (r: Self)
        ensures
            r@ == self@,
    {
        InvocationResponse {
            id: self.id.clone(),
            entry_index: self.entry_index,
            result: self.result.clone(),
        }
    }
}

/// The two ways to end an invocation from outside.
#[derive(Clone, Copy, Debug, PartialEq, Eq)]
pub enum TerminationFlavor {
    /// Ends the invocation at once, and its children with it.
    Kill,
    /// Lets the invocation see that it was cancelled at its next await.
    Cancel,
}

/// A request to end an invocation.
#[derive(Debug, PartialEq, Eq)]
pub struct InvocationTermination {
    pub maybe_fid: MaybeFullInvocationId,
    pub flavor: TerminationFlavor,
}

pub struct InvocationTerminationView {
    pub maybe_fid: MaybeFullInvocationIdView,
    pub flavor: TerminationFlavor,
}

impl InvocationTerminationView {
    pub open spec fn kill(fid: FullInvocationIdView) -> Self {
        InvocationTerminationView {
            maybe_fid: MaybeFullInvocationIdView::Full(fid),
            flavor: TerminationFlavor::Kill,
        }
    }

    pub open spec fn cancel(fid: FullInvocationIdView) -> Self {
        InvocationTerminationView {
            maybe_fid: MaybeFullInvocationIdView::Full(fid),
            flavor: TerminationFlavor::Cancel,
        }
    }
}

impl View for InvocationTermination {
    type V = InvocationTerminationView;

    open spec fn view(&self) -> InvocationTerminationView {
        InvocationTerminationView { maybe_fid: self.maybe_fid@, flavor: self.flavor }
    }
}

impl Clone for InvocationTermination {
    fn clone(&self) -> (r: Self)
        ensures
            r@ == self@,
    {
        InvocationTermination { maybe_fid: self.maybe_fid.clone(), flavor: self.flavor }
    }
}

impl InvocationTermination {
    pub fn kill(fid: FullInvocationId) -> (r: Self)
        ensures
            r@ == InvocationTerminationView::kill(fid@),
    {
        InvocationTermination {
            maybe_fid: MaybeFullInvocationId::Full(fid),
            flavor: TerminationFlavor::Kill,
        }
    }

    pub fn cancel(fid: FullInvocationId) -> (r: Self)
        ensures
            r@ == InvocationTerminationView::cancel(fid@),
    {
        InvocationTermination {
            maybe_fid: MaybeFullInvocationId::Full(fid),
            flavor: TerminationFlavor::Cancel,
        }
    }
}

/// A response for an external caller.
#[derive(Debug, PartialEq, Eq)]
pub struct IngressResponse {
    pub target: IngressDispatcherId,
    pub full_invocation_id: FullInvocationId,
    pub response: ResponseResult,
}

pub struct IngressResponseView {
    pub target: IngressDispatcherId,
    pub full_invocation_id: FullInvocationIdView,
    pub response: ResponseResultView,
}

impl View for IngressResponse {
    type V = IngressResponseView;

    open spec fn view(&self) -> IngressResponseView {
        IngressResponseView {
            target: self.target,
            full_invocation_id: self.full_invocation_id@,
            response: self.response@,
        }
    }
}

impl Clone for IngressResponse {
    fn clone(&self) -> (r: Self)
        ensures
            r@ == self@,
    {
        IngressResponse {
            target: self.target,
            full_invocation_id: self.full_invocation_id.clone(),
            response: self.response.clone(),
        }
    }
}

} // verus!
