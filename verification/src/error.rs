//! Error taxonomy of the workflow.
//!
//! Every error is terminal: no stage recovers locally, and the whole pipeline
//! aborts on the first failure.
use vstd::prelude::*;

verus! {

/// The four classes of terminal failure.
#[derive(PartialEq, Eq, Structural, Clone, Copy, Debug)]
pub enum ErrorKind {
    /// Connection refused, authentication failure, malformed response framing.
    Transport,
    /// The node accepted the call and rejected it for a domain reason
    /// (insufficient funds, fee too low, signing incomplete, broadcast
    /// rejected); the node's own message is carried verbatim.
    NodeLogic,
    /// A node response did not have the shape this workflow assumes
    /// (a missing field), or a locally built value was malformed.
    LocalValidation,
    /// The result record could not be persisted.
    Io,
}

/// A terminal failure, carrying the stage it arose in and its cause.
pub struct StageError {
    /// Name of the pipeline stage that failed.
    pub stage: String,
    /// Which class of failure this is.
    pub kind: ErrorKind,
    /// Human-readable cause; a node-logic message is carried verbatim.
    pub message: String,
}

/// Why a node response could not be decoded into the shape a stage expects.
#[derive(Debug)]
pub enum DecodeError {
    /// The response was expected to be a bare JSON string and was not.
    NotText,
    /// The response was expected to be a JSON array and was not.
    NotArray,
    /// An expected object field was absent or of the wrong JSON type.
    MissingField { name: String },
    /// An element of a response array lacked an expected field.
    ElementMissingField { index: usize, name: String },
}

/// Why a transaction could not be assembled locally.
#[derive(Debug)]
pub enum BuildError {
    /// No outputs were supplied; a transaction needs at least one output.
    NoOutputs,
    /// The input reference at this position does not carry a well-formed
    /// transaction identifier.
    MalformedInput { index: usize },
    /// The output specification at this position is malformed: an empty
    /// destination address, or a data payload that is not whole-byte hex.
    MalformedOutput { index: usize },
}

} // verus!
