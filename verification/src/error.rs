//! The error envelope: an inner tagged union over the three underlying
//! failure kinds, an outer wrapper pairing the inner failure with the
//! operation that was in flight, and the guard that does the wrapping.

use vstd::prelude::*;
use vstd::string::StringExecFns;

use crate::operation::DiscordOperation;
use crate::operation::spec_describe;
use crate::text::contains_seq;
use crate::text::lemma_contains_at;

verus! {

/// One underlying failure, tagged with its source. Each variant owns the
/// description of its cause: a transport rejection, a response that could
/// not be decoded, or a local pre-send validation failure.
#[derive(Debug)]
pub enum InnerTwilightError {
    TwilightError(String),
    DeserializeError(String),
    ValidationError(String),
}

/// The description of the underlying cause inside an inner failure.
pub open spec fn spec_cause_text(e: InnerTwilightError) -> Seq<char> {
    match e {
        InnerTwilightError::TwilightError(cause) => cause@,
        InnerTwilightError::DeserializeError(cause) => cause@,
        InnerTwilightError::ValidationError(cause) => cause@,
    }
}

/// The rendering of an inner failure: its kind, then its cause.
pub open spec fn spec_inner_text(e: InnerTwilightError) -> Seq<char> {
    match e {
        InnerTwilightError::TwilightError(cause) => "Twilight error ("@ + cause@ + ")"@,
        InnerTwilightError::DeserializeError(cause) => "Deserialize error ("@ + cause@ + ")"@,
        InnerTwilightError::ValidationError(cause) => "Validation error ("@ + cause@ + ")"@,
    }
}

impl InnerTwilightError {
    /// The description of the underlying cause, whichever source it came
    /// from.
    pub fn cause(&self) -> (r: &str)
        ensures
            r@ == spec_cause_text(*self),
    {
        match self {
            InnerTwilightError::TwilightError(cause) => cause.as_str(),
            InnerTwilightError::DeserializeError(cause) => cause.as_str(),
            InnerTwilightError::ValidationError(cause) => cause.as_str(),
        }
    }

    /// The human-readable rendering of this failure.
    pub fn display_string(&self) -> (r: String)
        ensures
            r@ == spec_inner_text(*self),
    {
        match self {
            InnerTwilightError::TwilightError(cause) => {
                let mut s = "Twilight error (".to_owned();
                s.append(cause.as_str());
                s.append(")");
                s
            },
            InnerTwilightError::DeserializeError(cause) => {
                let mut s = "Deserialize error (".to_owned();
                s.append(cause.as_str());
                s.append(")");
                s
            },
            InnerTwilightError::ValidationError(cause) => {
                let mut s = "Validation error (".to_owned();
                s.append(cause.as_str());
                s.append(")");
                s
            },
        }
    }
}

/// A failure paired with the operation that was in flight when it occurred.
/// Created exactly once at the point a guarded call or builder step fails,
/// and never mutated afterwards.
#[derive(Debug)]
pub struct DiscordError {
    pub inner: InnerTwilightError,
    pub operation: DiscordOperation,
}

/// The rendering of an operation-tagged error: the operation description
/// line, then the inner cause's own description.
pub open spec fn spec_error_text(e: DiscordError) -> Seq<char> {
    "Error while performing operation \""@ + spec_describe(e.operation) + "\":\n"@
        + spec_inner_text(e.inner)
}

impl DiscordError {
    /// The sole constructor: infallible, does no work beyond pairing the
    /// failure with the operation.
    pub fn new(inner: InnerTwilightError, operation: DiscordOperation) -> (r: Self)
        ensures
            r == (DiscordError { inner, operation }),
    {
        DiscordError { inner, operation }
    }

    /// The two-line human-readable rendering of this error.
    pub fn display_string(&self) -> (r: String)
        ensures
            r@ == spec_error_text(*self),
    {
        let mut s = "Error while performing operation \"".to_owned();
        let op = self.operation.display_string();
        s.append(op.as_str());
        s.append("\":\n");
        let inner = self.inner.display_string();
        s.append(inner.as_str());
        s
    }
}

/// The guard: given the operation in flight and the outcome of the deferred
/// unit of work, passes a success through unchanged and wraps any failure
/// with the given operation. Every call funnels through here.
pub fn error_guard<T>(operation: DiscordOperation, outcome: Result<T, InnerTwilightError>) -> (r:
    Result<T, DiscordError>)
    ensures
        r is Ok <==> outcome is Ok,
        r is Ok ==> r->Ok_0 == outcome->Ok_0,
        r is Err ==> r->Err_0 == (DiscordError { inner: outcome->Err_0, operation }),
{
    match outcome {
        Ok(value) => Ok(value),
        Err(inner) => Err(DiscordError::new(inner, operation)),
    }
}

/// Wrapping a failure preserves the cause's description: it occurs verbatim
/// inside the rendering of the operation-tagged error.
pub proof fn lemma_error_text_contains_cause(e: DiscordError)
    ensures
        contains_seq(spec_error_text(e), spec_cause_text(e.inner)),
{
    let s = spec_error_text(e);
    let cause = spec_cause_text(e.inner);
    let head = "Error while performing operation \""@ + spec_describe(e.operation) + "\":\n"@;
    let kind = match e.inner {
        InnerTwilightError::TwilightError(_) => "Twilight error ("@,
        InnerTwilightError::DeserializeError(_) => "Deserialize error ("@,
        InnerTwilightError::ValidationError(_) => "Validation error ("@,
    };
    let i = head.len() + kind.len() as int;
    assert(s.subrange(i, i + cause.len() as int) =~= cause);
    lemma_contains_at(s, cause, i);
}

/// Wrapping is deterministic: two errors produced by the guard from the
/// same failure and the same operation carry equal operations and render
/// to equal text.
pub proof fn lemma_guard_deterministic(
    inner: InnerTwilightError,
    operation: DiscordOperation,
    e1: DiscordError,
    e2: DiscordError,
)
    requires
        e1 == (DiscordError { inner, operation }),
        e2 == (DiscordError { inner, operation }),
    ensures
        e1.operation == e2.operation,
        spec_error_text(e1) == spec_error_text(e2),
{
}

} // verus!
