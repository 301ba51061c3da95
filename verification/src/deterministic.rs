//! Built-in services that answer at once.
//!
//! Such a service runs inside the interpreter: what it sends is a fixed
//! function of the invocation, so applying the same command again gives the
//! same effects.
use crate::identifiers::{FullInvocationId, FullInvocationIdView};
use crate::invocation::{
    IngressResponse, IngressResponseView, ServiceInvocationResponseSink,
    ServiceInvocationResponseSinkView, ServiceInvocationSpanContext, sink_view,
};
use crate::octets::bytes_contents;
use crate::storage::{OutboxMessage, OutboxMessageView};
use bytes::Bytes;
use vstd::prelude::*;

verus! {

/// What a built-in service sends.
#[derive(Debug, PartialEq, Eq)]
pub enum ServiceEffect {
    OutboxMessage(OutboxMessage),
    IngressResponse(IngressResponse),
}

pub enum ServiceEffectView {
    OutboxMessage(OutboxMessageView),
    IngressResponse(IngressResponseView),
}

impl View for ServiceEffect {
    type V = ServiceEffectView;

    open spec fn view(&self) -> ServiceEffectView {
        match self {
            ServiceEffect::OutboxMessage(message) => ServiceEffectView::OutboxMessage(message@),
            ServiceEffect::IngressResponse(response) => ServiceEffectView::IngressResponse(
                response@,
            ),
        }
    }
}

/// The views of a list of service effects.
pub open spec fn service_effects_view(effects: Seq<ServiceEffect>) -> Seq<ServiceEffectView> {
    effects.map_values(|e: ServiceEffect| e@)
}

/// The set of built-in services of a partition.
///
/// An implementation states with the two spec functions which services it
/// has and what each of them sends.
pub trait ServiceInvoker {
    /// Whether `service_name` names a built-in service.
    open spec fn supported(service_name: Seq<char>) -> bool {
        arbitrary()
    }

    /// What the built-in service sends for one invocation.
    open spec fn effects_of(
        fid: FullInvocationIdView,
        method: Seq<char>,
        span_context: ServiceInvocationSpanContext,
        response_sink: Option<ServiceInvocationResponseSinkView>,
        argument: Seq<u8>,
    ) -> Seq<ServiceEffectView> {
        arbitrary()
    }

    fn is_supported(service_name: &str) -> (r: bool)
        ensures
            r == Self::supported(service_name@),
    ;

    fn invoke(
        fid: &FullInvocationId,
        method: &str,
        span_context: &ServiceInvocationSpanContext,
        response_sink: &Option<ServiceInvocationResponseSink>,
        argument: Bytes,
    ) -> (r: Vec<ServiceEffect>)
        ensures
            service_effects_view(r@) == Self::effects_of(
                fid@,
                method@,
                *span_context,
                sink_view(*response_sink),
                bytes_contents(argument),
            ),
    ;
}

/// A partition without built-in services.
pub struct NoBuiltInServices;

impl ServiceInvoker for NoBuiltInServices {
    open spec fn supported(service_name: Seq<char>) -> bool {
        false
    }

    open spec fn effects_of(
        fid: FullInvocationIdView,
        method: Seq<char>,
        span_context: ServiceInvocationSpanContext,
        response_sink: Option<ServiceInvocationResponseSinkView>,
        argument: Seq<u8>,
    ) -> Seq<ServiceEffectView> {
        Seq::empty()
    }

    fn is_supported(service_name: &str) -> (r: bool) {
        false
    }

    fn invoke(
        fid: &FullInvocationId,
        method: &str,
        span_context: &ServiceInvocationSpanContext,
        response_sink: &Option<ServiceInvocationResponseSink>,
        argument: Bytes,
    ) -> (r: Vec<ServiceEffect>) {
        let r: Vec<ServiceEffect> = Vec::new();
        assert(service_effects_view(r@) =~= Seq::empty());
        r
    }
}

} // verus!
