//! The receiver of exported traces.

use crate::sql::Statement;
use crate::text::{contains, has_part};
use crate::trace_db::{
    ResourceView, request_contents, request_statements, statements, store_trace_data,
};
use opentelemetry_proto::tonic::collector::trace::v1::ExportTraceServiceRequest;
use vstd::prelude::*;

verus! {

/// What a request in the binary form of protocol buffers holds, as `prost` reads it.
pub uninterp spec fn protobuf_request(body: Seq<u8>) -> Option<Seq<ResourceView>>;

/// What a request in JSON holds, as `serde_json` reads it.
pub uninterp spec fn json_request(body: Seq<u8>) -> Option<Seq<ResourceView>>;

/// `prost::Message::decode` reads a request from bytes.
#[verifier::external_body]
pub(crate) fn decode_protobuf(body: &Vec<u8>) -> (r: Option<ExportTraceServiceRequest>)
    ensures
        match r {
            Some(request) => protobuf_request(body@) == Some(request_contents(request)),
            None => protobuf_request(body@) is None,
        },
{
    prost::Message::decode(body.as_slice()).ok()
}

/// `serde_json::from_slice` reads a request from bytes.
#[verifier::external_body]
pub(crate) fn decode_json(body: &Vec<u8>) -> (r: Option<ExportTraceServiceRequest>)
    ensures
        match r {
            Some(request) => json_request(body@) == Some(request_contents(request)),
            None => json_request(body@) is None,
        },
{
    serde_json::from_slice(body.as_slice()).ok()
}

/// What a request with a content type holds: JSON where the type says so, else the
/// binary form.
pub open spec fn export_of(content_type: Seq<char>, body: Seq<u8>) -> Option<Seq<ResourceView>> {
    if has_part(content_type, "application/json"@) {
        json_request(body)
    } else {
        protobuf_request(body)
    }
}

/// Handles an export of traces: the statements that store it, or nothing where the
/// request is not readable. An absent content type is given as the empty text.
pub fn otlp_traces_receiver(content_type: &str, body: &Vec<u8>) -> (r: Option<Vec<Statement>>)
    ensures
        match r {
            Some(items) => export_of(content_type@, body@) is Some && statements(items@)
                == request_statements(export_of(content_type@, body@)->0),
            None => export_of(content_type@, body@) is None,
        },
{
    let request = if contains(content_type, "application/json") {
        decode_json(body)
    } else {
        decode_protobuf(body)
    };
    match request {
        Some(request) => Some(store_trace_data(&request)),
        None => None,
    }
}

} // verus!
