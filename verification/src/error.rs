//! Error taxonomy of the gateway. Every failure that can decide the outward
//! HTTP response is classified here and reported in the response metadata.

use vstd::prelude::*;
use crate::strutil::{dec_string, usize_to_string};

verus! {

/// Reject codes of the backend platform, as the RPC agent reports them.
#[derive(Clone, Copy, Debug, PartialEq, Eq, Structural)]
pub enum RejectCode {
    SysFatal,
    SysTransient,
    DestinationInvalid,
    CanisterReject,
    CanisterError,
}

/// A rejection reported by the backend platform.
#[derive(Clone, Debug)]
pub struct AgentReject {
    pub reject_code: RejectCode,
    pub reject_message: String,
    pub error_code: Option<String>,
}

/// The agent failures that the gateway maps to distinct HTTP statuses.
#[derive(Clone, Debug)]
pub enum AgentCallError {
    /// The backend rejected the message, and the rejection is certified.
    CertifiedReject(AgentReject),
    /// The backend may have rejected the message; the rejection is not certified.
    UncertifiedReject(AgentReject),
    /// The reply exceeded the agent's size limit.
    ResponseSizeExceeded,
    /// The transport returned an HTTP error; `message` is its diagnostic text.
    HttpTransport { status: u16, message: String },
    /// Any other agent failure, as diagnostic text.
    Other(String),
}

/// The internal error that made the outward response an error response.
#[derive(Clone, Debug)]
pub enum HttpGatewayError {
    /// An inbound header value could not be decoded as UTF-8.
    HeaderDecoding { header_name: String, header_value: Vec<u8> },
    /// The underlying agent call failed.
    Transport(AgentCallError),
    /// The body collector failed mid-stream.
    BodyAssembly(String),
    /// Certificate or signature verification failed.
    Verification(String),
    /// The backend returned a status code outside the valid range.
    InvalidStatus(u16),
    /// The outward response could not be built.
    ResponseBuildFailure(String),
    /// The initial `Content-Range` header of a 206 reply was missing,
    /// malformed or inconsistent.
    RangeSetupFailure(String),
}

/// Gateway result type.
pub type HttpGatewayResult<T> = Result<T, HttpGatewayError>;

/// The view of a backend rejection.
pub struct AgentRejectView {
    pub reject_code: RejectCode,
    pub reject_message: Seq<char>,
    pub error_code: Option<Seq<char>>,
}

impl View for AgentReject {
    type V = AgentRejectView;

    open spec fn view(&self) -> AgentRejectView {
        AgentRejectView {
            reject_code: self.reject_code,
            reject_message: self.reject_message@,
            error_code: match self.error_code {
                Some(c) => Some(c@),
                None => None,
            },
        }
    }
}

/// The view of an agent failure.
pub enum AgentCallErrorView {
    CertifiedReject(AgentRejectView),
    UncertifiedReject(AgentRejectView),
    ResponseSizeExceeded,
    HttpTransport { status: u16, message: Seq<char> },
    Other(Seq<char>),
}

impl View for AgentCallError {
    type V = AgentCallErrorView;

    open spec fn view(&self) -> AgentCallErrorView {
        match self {
            AgentCallError::CertifiedReject(r) => AgentCallErrorView::CertifiedReject(r@),
            AgentCallError::UncertifiedReject(r) => AgentCallErrorView::UncertifiedReject(r@),
            AgentCallError::ResponseSizeExceeded => AgentCallErrorView::ResponseSizeExceeded,
            AgentCallError::HttpTransport { status, message } => AgentCallErrorView::HttpTransport {
                status: *status,
                message: message@,
            },
            AgentCallError::Other(m) => AgentCallErrorView::Other(m@),
        }
    }
}

/// The view of a gateway error.
pub enum HttpGatewayErrorView {
    HeaderDecoding { header_name: Seq<char>, header_value: Seq<u8> },
    Transport(AgentCallErrorView),
    BodyAssembly(Seq<char>),
    Verification(Seq<char>),
    InvalidStatus(u16),
    ResponseBuildFailure(Seq<char>),
    RangeSetupFailure(Seq<char>),
}

/// The name of a reject code, as diagnostics print it.
pub open spec fn reject_code_name(c: RejectCode) -> Seq<char> {
    match c {
        RejectCode::SysFatal => "SysFatal"@,
        RejectCode::SysTransient => "SysTransient"@,
        RejectCode::DestinationInvalid => "DestinationInvalid"@,
        RejectCode::CanisterReject => "CanisterReject"@,
        RejectCode::CanisterError => "CanisterError"@,
    }
}

/// How diagnostics print an optional backend error code.
pub open spec fn error_code_repr(c: Option<Seq<char>>) -> Seq<char> {
    match c {
        None => "None"@,
        Some(s) => "Some(\""@ + s + "\")"@,
    }
}

/// The diagnostic text for a backend rejection that is not mapped to a
/// dedicated status.
pub open spec fn msg_replica_error(r: AgentRejectView) -> Seq<char> {
    "Replica Error: reject code "@ + reject_code_name(r.reject_code) + ", message "@
        + r.reject_message + ", error code "@ + error_code_repr(r.error_code)
}

/// The diagnostic text for an agent failure.
pub open spec fn agent_call_error_message(e: AgentCallErrorView) -> Seq<char> {
    match e {
        AgentCallErrorView::CertifiedReject(r) => msg_replica_error(r),
        AgentCallErrorView::UncertifiedReject(r) => msg_replica_error(r),
        AgentCallErrorView::ResponseSizeExceeded => "Response size exceeds limit"@,
        AgentCallErrorView::HttpTransport { status, message } => message,
        AgentCallErrorView::Other(m) => m,
    }
}

/// The diagnostic text for a gateway error.
pub open spec fn gateway_error_message(e: HttpGatewayErrorView) -> Seq<char> {
    match e {
        HttpGatewayErrorView::HeaderDecoding { header_name, header_value } => {
            "Failed to parse the \""@ + header_name + "\" header value"@
        },
        HttpGatewayErrorView::Transport(a) => agent_call_error_message(a),
        HttpGatewayErrorView::BodyAssembly(m) => m,
        HttpGatewayErrorView::Verification(m) => m,
        HttpGatewayErrorView::InvalidStatus(s) => "Invalid canister response status code: "@
            + dec_string(s as int),
        HttpGatewayErrorView::ResponseBuildFailure(m) => m,
        HttpGatewayErrorView::RangeSetupFailure(m) => m,
    }
}

fn reject_code_name_exec(c: RejectCode) -> (r: &'static str)
    ensures
        r@ == reject_code_name(c),
{
    match c {
        RejectCode::SysFatal => "SysFatal",
        RejectCode::SysTransient => "SysTransient",
        RejectCode::DestinationInvalid => "DestinationInvalid",
        RejectCode::CanisterReject => "CanisterReject",
        RejectCode::CanisterError => "CanisterError",
    }
}

impl AgentReject {
    /// The diagnostic text for this rejection when it is not mapped to a
    /// dedicated status.
    pub fn replica_error_message(&self) -> (r: String)
        ensures
            r@ == msg_replica_error(self@),
    {
        let mut m = String::from_str("Replica Error: reject code ").concat(
            reject_code_name_exec(self.reject_code),
        ).concat(", message ").concat(self.reject_message.as_str()).concat(", error code ");
        match &self.error_code {
            None => {
                m = m.concat("None");
            },
            Some(c) => {
                m = m.concat("Some(\"").concat(c.as_str()).concat("\")");
            },
        }
        proof {
            assert(m@ =~= msg_replica_error(self@));
        }
        m
    }
}

impl AgentCallError {
    /// The diagnostic text for this failure.
    pub fn message(&self) -> (r: String)
        ensures
            r@ == agent_call_error_message(self@),
    {
        match self {
            AgentCallError::CertifiedReject(rej) => rej.replica_error_message(),
            AgentCallError::UncertifiedReject(rej) => rej.replica_error_message(),
            AgentCallError::ResponseSizeExceeded => String::from_str(
                "Response size exceeds limit",
            ),
            AgentCallError::HttpTransport { status, message } => message.clone(),
            AgentCallError::Other(m) => m.clone(),
        }
    }
}

impl HttpGatewayError {
    /// The diagnostic text for this error.
    pub fn message(&self) -> (r: String)
        ensures
            r@ == gateway_error_message(self@),
    {
        match self {
            HttpGatewayError::HeaderDecoding { header_name, header_value } => {
                let m = String::from_str("Failed to parse the \"").concat(
                    header_name.as_str(),
                ).concat("\" header value");
                proof {
                    assert(m@ =~= gateway_error_message(self@));
                }
                m
            },
            HttpGatewayError::Transport(a) => a.message(),
            HttpGatewayError::BodyAssembly(m) => m.clone(),
            HttpGatewayError::Verification(m) => m.clone(),
            HttpGatewayError::InvalidStatus(s) => {
                let m = String::from_str("Invalid canister response status code: ").concat(
                    usize_to_string(*s as usize).as_str(),
                );
                proof {
                    assert(m@ =~= gateway_error_message(self@));
                }
                m
            },
            HttpGatewayError::ResponseBuildFailure(m) => m.clone(),
            HttpGatewayError::RangeSetupFailure(m) => m.clone(),
        }
    }
}

impl View for HttpGatewayError {
    type V = HttpGatewayErrorView;

    open spec fn view(&self) -> HttpGatewayErrorView {
        match self {
            HttpGatewayError::HeaderDecoding { header_name, header_value } => {
                HttpGatewayErrorView::HeaderDecoding {
                    header_name: header_name@,
                    header_value: header_value@,
                }
            },
            HttpGatewayError::Transport(e) => HttpGatewayErrorView::Transport(e@),
            HttpGatewayError::BodyAssembly(m) => HttpGatewayErrorView::BodyAssembly(m@),
            HttpGatewayError::Verification(m) => HttpGatewayErrorView::Verification(m@),
            HttpGatewayError::InvalidStatus(s) => HttpGatewayErrorView::InvalidStatus(*s),
            HttpGatewayError::ResponseBuildFailure(m) => HttpGatewayErrorView::ResponseBuildFailure(
                m@,
            ),
            HttpGatewayError::RangeSetupFailure(m) => HttpGatewayErrorView::RangeSetupFailure(m@),
        }
    }
}

} // verus!
