//! What the engine reports when a piece of its work is over.

use std::fmt::Write;
use vstd::prelude::*;

verus! {

/// The error type in which the engine reports a failure. Nothing inside it is
/// visible to the proofs: a value is only carried to where its description
/// is written out.
#[verifier::external_type_specification]
#[verifier::external_body]
pub struct ExAnyhowError(anyhow::Error);

/// The result of one piece of the engine's work.
#[derive(Debug, PartialEq, Eq)]
pub enum Outcome {
    /// The work was done.
    Success,
    /// The work failed; the text says why, for a human to read.
    Failure(String),
}

/// An [`Outcome`] as a mathematical value.
pub enum OutcomeView {
    Success,
    Failure(Seq<char>),
}

impl View for Outcome {
    type V = OutcomeView;

    open spec fn view(&self) -> OutcomeView {
        match *self {
            Outcome::Success => OutcomeView::Success,
            Outcome::Failure(description) => OutcomeView::Failure(description@),
        }
    }
}

/// Writes an `anyhow::Error` into a fresh string through its `Display`
/// implementation in the alternate form (`{:#}`), which gives the error's own
/// message followed by the messages of its causes, outermost first, each
/// introduced by a colon and a space.
///
/// Trusted, not proved. Nothing is claimed of the text: it is whatever the
/// messages of the error and of its causes are, and may be empty.
#[verifier::external_body]
fn describe(error: &anyhow::Error) -> (description: String) {
    let mut description = String::new();
    let _ = write!(description, "{:#}", error);
    description
}

impl Outcome {
    /// Turns a result of the engine into an outcome: success stays success,
    /// and an error becomes a failure that carries the error's description
    /// with all its causes.
    ///
    /// Which description a failure carries is up to the error, so the
    /// contract fixes only which of the two outcomes comes back.
    pub fn from_result(result: Result<(), anyhow::Error>) -> (outcome: Outcome)
        ensures
            outcome@ is Success <==> result is Ok,
            outcome@ is Failure <==> result is Err,
    {
        match result {
            Ok(()) => Outcome::Success,
            Err(error) => Outcome::Failure(describe(&error)),
        }
    }
}

} // verus!
