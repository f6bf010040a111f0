//! The S3-facing error model: typed faults of the client path and the
//! wire-compatible XML error documents they serialize to.

use vstd::prelude::*;
use vstd::string::StringExecFns;
use vstd::string::StringSliceAdditionalSpecFns;

use crate::req::{Response, SendError};

verus! {

/// An S3 error as the wire sees it: its code, message and HTTP status.
pub struct S3ErrorData {
    pub code: String,
    pub message: String,
    pub status: u16,
}

/// A fault of the client path.
///
/// `MissingExt` and `MissingOp` are violated pipeline invariants.
/// `InputErr` is a client request that does not decode; `RequestErr` a
/// request that cannot be built. `OutputErr` is a server-side response
/// that does not encode — an internal fault, since no upstream
/// response exists to pass through. `ResponseErr` carries an upstream
/// error response.
pub enum S3Error {
    MissingExt,
    MissingOp,
    InputErr(S3ErrorData),
    OutputErr(S3ErrorData),
    RequestErr(S3ErrorData),
    ResponseErr(S3ErrorData),
    Other(String),
}

/// The canonical S3 error document for a code and message.
pub open spec fn spec_xml_error(code: Seq<char>, message: Seq<char>) -> Seq<char> {
    "<Error><Code>"@ + code + "</Code><Message>"@ + message + "</Message></Error>"@
}

/// The error document as it goes on the wire.
pub open spec fn spec_xml_error_bytes(code: Seq<char>, message: Seq<char>) -> Seq<u8> {
    vstd::utf8::encode_utf8(spec_xml_error(code, message))
}

/// Build the canonical S3 error document.
pub fn xml_error_body(code: &str, message: &str) -> (r: String)
    ensures
        r@ == spec_xml_error(code@, message@),
{
    let mut s = String::new();
    s.append("<Error><Code>");
    s.append(code);
    s.append("</Code><Message>");
    s.append(message);
    s.append("</Message></Error>");
    proof {
        assert(s@ =~= spec_xml_error(code@, message@));
    }
    s
}

/// A response carrying the error document for `d`, under its status.
pub fn error_response(d: &S3ErrorData) -> (r: Response)
    ensures
        r.status == d.status,
        r.headers@.len() == 0,
        r.s3_ext is None,
        r.body@ == spec_xml_error_bytes(d.code@, d.message@),
{
    let body_str = xml_error_body(d.code.as_str(), d.message.as_str());
    let body = body_str.as_str().as_bytes_vec();
    Response { status: d.status, headers: Vec::new(), body, s3_ext: None }
}

/// Map a client-path fault to the pipeline error it surfaces as:
/// violated invariants, unclassified faults and responses that do not
/// encode are internal; a request that does not decode or build
/// answers its error document as a request error; an upstream error
/// answers its document as a response error, so that earlier stages
/// may interpret it.
pub fn send_error_of(e: S3Error) -> (r: SendError)
    ensures
        match e {
            S3Error::MissingExt | S3Error::MissingOp => r is Internal,
            S3Error::Other(_) => r is Internal,
            S3Error::OutputErr(_) => r is Internal,
            S3Error::InputErr(d) | S3Error::RequestErr(d) => r matches SendError::RequestErr(
                resp,
                _,
            ) && resp.status == d.status && resp.body@ == spec_xml_error_bytes(d.code@, d.message@),
            S3Error::ResponseErr(d) => r matches SendError::ResponseErr(resp, _) && resp.status
                == d.status && resp.body@ == spec_xml_error_bytes(d.code@, d.message@),
        },
{
    match e {
        S3Error::MissingExt => SendError::Internal("missing S3 extension".to_owned()),
        S3Error::MissingOp => SendError::Internal("missing operation tag".to_owned()),
        S3Error::Other(msg) => SendError::Internal(msg),
        S3Error::OutputErr(d) => SendError::Internal(d.message),
        S3Error::InputErr(d) => {
            let resp = error_response(&d);
            SendError::RequestErr(resp, d.message)
        },
        S3Error::RequestErr(d) => {
            let resp = error_response(&d);
            SendError::RequestErr(resp, d.message)
        },
        S3Error::ResponseErr(d) => {
            let resp = error_response(&d);
            SendError::ResponseErr(resp, d.message)
        },
    }
}

/// The error answered when no route matches the request.
pub fn unknown_operation() -> (r: SendError)
    ensures
        r matches SendError::RequestErr(resp, _) && resp.status == 400,
{
    let d = S3ErrorData {
        code: "NoSuchOperation".to_owned(),
        message: "The requested operation is not recognized".to_owned(),
        status: 400,
    };
    send_error_of(S3Error::RequestErr(d))
}

} // verus!
