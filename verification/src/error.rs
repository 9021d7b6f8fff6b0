//! The error envelope: the one shape in which every failure is reported.

use vstd::prelude::*;

verus! {

/// The classification of a failure.
#[derive(Clone, Copy, Debug, PartialEq, Eq, Structural)]
pub enum RpcErrorCode {
    /// A parameter given as text could not be converted to its typed form.
    ParseError,
    /// The client of the node reported a failure.
    InternalError,
}

impl RpcErrorCode {
    /// The number that stands for this classification on the wire.
    pub open spec fn code_value(self) -> int {
        match self {
            RpcErrorCode::ParseError => -32700,
            RpcErrorCode::InternalError => -32603,
        }
    }

    /// Returns the number that stands for this classification on the wire.
    pub fn code(&self) -> (c: i64)
        ensures
            c == self.code_value(),
    {
        match self {
            RpcErrorCode::ParseError => -32700,
            RpcErrorCode::InternalError => -32603,
        }
    }
}

/// What an [`RpcError`] holds, as mathematical values.
pub struct RpcErrorView {
    pub code: RpcErrorCode,
    pub message: Seq<char>,
    pub data: Option<Seq<char>>,
}

/// A failure as the facade reports it: a classification, a message for a
/// human reader, and optional further data.
#[derive(Clone, Debug, PartialEq, Eq)]
pub struct RpcError {
    pub code: RpcErrorCode,
    pub message: String,
    pub data: Option<String>,
}

impl View for RpcError {
    type V = RpcErrorView;

    open spec fn view(&self) -> RpcErrorView {
        RpcErrorView {
            code: self.code,
            message: self.message@,
            data: match self.data {
                Some(d) => Some(d@),
                None => None,
            },
        }
    }
}

/// The envelope of a failure that the client of the node reported, with the
/// given description as its message.
pub open spec fn internal_error_view(message: Seq<char>) -> RpcErrorView {
    RpcErrorView { code: RpcErrorCode::InternalError, message, data: None }
}

impl RpcError {
    /// Whether this is the envelope of a failure that the client of the node
    /// reported: the one classification for all of them, a message that is
    /// not empty, and no data.
    pub open spec fn is_internal(&self) -> bool {
        &&& self.code == RpcErrorCode::InternalError
        &&& self.message@.len() > 0
        &&& self.data is None
    }

    /// Builds the envelope of a failure that the client of the node reported
    /// from the description of that failure.
    pub fn internal_error(message: String) -> (e: RpcError)
        ensures
            e@ == internal_error_view(message@),
    {
        RpcError { code: RpcErrorCode::InternalError, message, data: None }
    }
}

/// Whether a text is the client's own description of a failure: what the
/// failure's `Display` impl writes.
pub open spec fn describes(text: Seq<char>, e: &bitcoincore_rpc::Error) -> bool {
    exists|written: String|
        written@ == text && #[trigger] vstd::string::to_string_from_display_ensures::<
            bitcoincore_rpc::Error,
        >(e, written)
}

/// `to_string` on a `bitcoincore_rpc::Error`. The text is what the `Display`
/// impl of that type writes. Every arm of that impl starts with a fixed
/// label, so the text is never empty.
#[verifier::external_body]
fn client_error_text(e: &bitcoincore_rpc::Error) -> (text: String)
    ensures
        describes(text@, e),
        text@.len() > 0,
{
    e.to_string()
}

/// Reports a failure of the client as an envelope. Whatever the failure, the
/// classification is the same; the message is the client's own description of
/// it.
pub fn to_rpc_error(e: bitcoincore_rpc::Error) -> (r: RpcError)
    ensures
        r.is_internal(),
        describes(r.message@, &e),
{
    RpcError::internal_error(client_error_text(&e))
}

/// Whether `r` is what the facade makes of the client's answer `answer`: a
/// value is handed on as it is, and a failure becomes the one envelope for
/// failures of the client, with the client's description of it as the
/// message and never a value beside it.
pub open spec fn forwards<T>(
    answer: Result<T, bitcoincore_rpc::Error>,
    r: Result<T, RpcError>,
) -> bool {
    match answer {
        Ok(value) => r == Ok::<T, RpcError>(value),
        Err(e) => r is Err && r->Err_0.is_internal() && describes(r->Err_0.message@, &e),
    }
}

/// Hands on what the client answered: a value as it is, a failure as an
/// envelope. This is the one path that the answer to every operation takes.
pub fn forward<T>(answer: Result<T, bitcoincore_rpc::Error>) -> (r: Result<T, RpcError>)
    ensures
        forwards(answer, r),
{
    match answer {
        Ok(value) => Ok(value),
        Err(e) => Err(to_rpc_error(e)),
    }
}

/// A value that the client answers with comes back as it is.
pub proof fn lemma_value_comes_back_unchanged<T>(
    answer: Result<T, bitcoincore_rpc::Error>,
    r: Result<T, RpcError>,
)
    requires
        forwards(answer, r),
        answer is Ok,
    ensures
        r == Ok::<T, RpcError>(answer->Ok_0),
{
}

/// A failure that the client answers with comes back as one envelope: it has
/// the one classification for failures of the client, a message that is not
/// empty and no data, and no value comes with it.
pub proof fn lemma_failure_comes_back_as_one_envelope<T>(
    answer: Result<T, bitcoincore_rpc::Error>,
    r: Result<T, RpcError>,
)
    requires
        forwards(answer, r),
        answer is Err,
    ensures
        r is Err,
        r->Err_0.code == RpcErrorCode::InternalError,
        r->Err_0.code.code_value() == -32603,
        r->Err_0.message@.len() > 0,
        r->Err_0.data is None,
{
}

} // verus!
