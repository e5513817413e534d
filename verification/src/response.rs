//! The gateway's response types: the backend reply model, the outward
//! response with its tagged body, and the response metadata.

use vstd::prelude::*;
use crate::error::{HttpGatewayError, HttpGatewayErrorView};
use crate::headers::headers_view;
use crate::response_handler::{StreamState, StreamStateView};

verus! {

/// A response from the backend, as the agent facade reports it. The
/// streaming strategy itself (callback reference and token) stays with the
/// caller that drives the stream; the model records only its presence.
#[derive(Debug)]
pub struct BackendResponse {
    pub status_code: u16,
    pub headers: Vec<(String, String)>,
    pub body: Vec<u8>,
    pub upgrade: Option<bool>,
    pub has_streaming_strategy: bool,
}

/// The mathematical view of a backend reply.
pub struct BackendResponseView {
    pub status_code: u16,
    pub headers: Seq<(Seq<char>, Seq<char>)>,
    pub body: Seq<u8>,
    pub upgrade: Option<bool>,
    pub has_streaming_strategy: bool,
}

impl View for BackendResponse {
    type V = BackendResponseView;

    open spec fn view(&self) -> BackendResponseView {
        BackendResponseView {
            status_code: self.status_code,
            headers: headers_view(self.headers@),
            body: self.body@,
            upgrade: self.upgrade,
            has_streaming_strategy: self.has_streaming_strategy,
        }
    }
}

/// The outward response body: fully materialized bytes, or the verified
/// start of a lazy stream whose continuation the caller drives.
#[derive(Debug)]
pub enum HttpGatewayResponseBody {
    /// The whole body.
    Full(Vec<u8>),
    /// An uncertified callback stream: the bytes collected so far. The
    /// caller continues pulling from the callback token it holds.
    CallbackStream { initial: Vec<u8> },
    /// A range-driven stream: the initial chunk, and the state the range
    /// driver continues from.
    RangeStream { initial: Vec<u8>, state: StreamState },
}

/// The view of an outward response body.
pub enum HttpGatewayResponseBodyView {
    Full(Seq<u8>),
    CallbackStream { initial: Seq<u8> },
    RangeStream { initial: Seq<u8>, state: StreamStateView },
}

impl View for HttpGatewayResponseBody {
    type V = HttpGatewayResponseBodyView;

    open spec fn view(&self) -> HttpGatewayResponseBodyView {
        match self {
            HttpGatewayResponseBody::Full(b) => HttpGatewayResponseBodyView::Full(b@),
            HttpGatewayResponseBody::CallbackStream { initial } => {
                HttpGatewayResponseBodyView::CallbackStream { initial: initial@ }
            },
            HttpGatewayResponseBody::RangeStream { initial, state } => {
                HttpGatewayResponseBodyView::RangeStream { initial: initial@, state: state@ }
            },
        }
    }
}

/// The outward HTTP response.
#[derive(Debug)]
pub struct CanisterResponse {
    pub status_code: u16,
    pub headers: Vec<(String, String)>,
    pub body: HttpGatewayResponseBody,
}

/// The view of an outward HTTP response.
pub struct CanisterResponseView {
    pub status_code: u16,
    pub headers: Seq<(Seq<char>, Seq<char>)>,
    pub body: HttpGatewayResponseBodyView,
}

impl View for CanisterResponse {
    type V = CanisterResponseView;

    open spec fn view(&self) -> CanisterResponseView {
        CanisterResponseView {
            status_code: self.status_code,
            headers: headers_view(self.headers@),
            body: self.body@,
        }
    }
}

/// Additional metadata regarding the response.
#[derive(Debug)]
pub struct HttpGatewayResponseMetadata {
    /// Whether the original query call was upgraded to an update call.
    pub upgraded_to_update_call: bool,
    /// The verification version used, or `None` when verification did not
    /// happen (skipped, upgraded, streamed, or failed before that step).
    pub response_verification_version: Option<u16>,
    /// The internal error that made the response an error response.
    pub internal_error: Option<HttpGatewayError>,
}

/// The view of the response metadata.
pub struct HttpGatewayResponseMetadataView {
    pub upgraded_to_update_call: bool,
    pub response_verification_version: Option<u16>,
    pub internal_error: Option<HttpGatewayErrorView>,
}

impl View for HttpGatewayResponseMetadata {
    type V = HttpGatewayResponseMetadataView;

    open spec fn view(&self) -> HttpGatewayResponseMetadataView {
        HttpGatewayResponseMetadataView {
            upgraded_to_update_call: self.upgraded_to_update_call,
            response_verification_version: self.response_verification_version,
            internal_error: match self.internal_error {
                Some(e) => Some(e@),
                None => None,
            },
        }
    }
}

/// A response from the gateway: the outward response and its metadata.
#[derive(Debug)]
pub struct HttpGatewayResponse {
    pub canister_response: CanisterResponse,
    pub metadata: HttpGatewayResponseMetadata,
}

/// The view of a gateway response.
pub struct HttpGatewayResponseView {
    pub canister_response: CanisterResponseView,
    pub metadata: HttpGatewayResponseMetadataView,
}

impl View for HttpGatewayResponse {
    type V = HttpGatewayResponseView;

    open spec fn view(&self) -> HttpGatewayResponseView {
        HttpGatewayResponseView {
            canister_response: self.canister_response@,
            metadata: self.metadata@,
        }
    }
}

/// An error response: the given status, no headers, and the diagnostic
/// text as the body.
pub open spec fn spec_err_response(status_code: u16, msg: Seq<char>) -> CanisterResponseView {
    CanisterResponseView {
        status_code,
        headers: Seq::empty(),
        body: HttpGatewayResponseBodyView::Full(vstd::utf8::encode_utf8(msg)),
    }
}

/// Builds an error response carrying `msg` as its body.
pub fn create_err_response(status_code: u16, msg: &str) -> (r: CanisterResponse)
    ensures
        r@ == spec_err_response(status_code, msg@),
{
    let r = CanisterResponse {
        status_code,
        headers: Vec::new(),
        body: HttpGatewayResponseBody::Full(msg.as_bytes_vec()),
    };
    proof {
        assert(r@.headers =~= Seq::<(Seq<char>, Seq<char>)>::empty());
    }
    r
}

} // verus!
