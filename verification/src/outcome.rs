//! The terminal result of one fetch attempt, and the worker step that
//! composes fetching and parsing for a single URL.

use vstd::prelude::*;

use crate::feed::{FeedDocument, FeedModel};
use crate::parse::{feed_of, parse_feed};

verus! {

/// Which way one unit of work failed. Every kind carries a human-readable
/// cause; all but `SourceIo` concern a single URL, while `SourceIo` concerns
/// obtaining the URL list itself and is fatal to the whole run.
#[derive(Clone, Debug, PartialEq, Eq)]
pub enum FailureKind {
    SourceIo { detail: String },
    Transport { detail: String },
    Parse { detail: String },
    Infrastructure { detail: String },
}

/// Mathematical model of a `FailureKind`.
pub enum FailureKindModel {
    SourceIo { detail: Seq<char> },
    Transport { detail: Seq<char> },
    Parse { detail: Seq<char> },
    Infrastructure { detail: Seq<char> },
}

/// The terminal result of one fetch attempt for one URL: either a parsed
/// feed document, or a categorized failure. Exactly one outcome is produced
/// per submitted URL.
#[derive(Clone, Debug, PartialEq, Eq)]
pub enum Outcome {
    Success { url: String, doc: FeedDocument },
    Failure { url: String, kind: FailureKind },
}

/// Mathematical model of an `Outcome`.
pub enum OutcomeModel {
    Success { url: Seq<char>, doc: FeedModel },
    Failure { url: Seq<char>, kind: FailureKindModel },
}

impl View for FailureKind {
    type V = FailureKindModel;

    open spec fn view(&self) -> FailureKindModel {
        match self {
            FailureKind::SourceIo { detail } => FailureKindModel::SourceIo { detail: detail@ },
            FailureKind::Transport { detail } => FailureKindModel::Transport { detail: detail@ },
            FailureKind::Parse { detail } => FailureKindModel::Parse { detail: detail@ },
            FailureKind::Infrastructure { detail } => (FailureKindModel::Infrastructure {
                detail: detail@,
            }),
        }
    }
}

impl View for Outcome {
    type V = OutcomeModel;

    open spec fn view(&self) -> OutcomeModel {
        match self {
            Outcome::Success { url, doc } => OutcomeModel::Success { url: url@, doc: doc@ },
            Outcome::Failure { url, kind } => (OutcomeModel::Failure {
                url: url@,
                kind: kind@,
            }),
        }
    }
}

impl FailureKind {
    /// Clones this failure kind.
    pub fn dup(&self) -> (r: FailureKind)
        ensures
            r == *self,
    {
        match self {
            FailureKind::SourceIo { detail } => (FailureKind::SourceIo {
                detail: detail.clone(),
            }),
            FailureKind::Transport { detail } => (FailureKind::Transport {
                detail: detail.clone(),
            }),
            FailureKind::Parse { detail } => (FailureKind::Parse { detail: detail.clone() }),
            FailureKind::Infrastructure { detail } => (FailureKind::Infrastructure {
                detail: detail.clone(),
            }),
        }
    }
}

/// One worker's computation after its network call has returned: compose the
/// transport result with the parser, short-circuiting on either step's
/// failure. A transport failure yields a `Transport` outcome; a body that is
/// not a well-formed feed yields a `Parse` outcome; a well-formed body yields
/// the parsed document.
pub fn worker_outcome(url: String, fetched: Result<Vec<u8>, String>) -> (o: Outcome)
    ensures
        fetched matches Err(d) ==> o@ == (OutcomeModel::Failure {
            url: url@,
            kind: FailureKindModel::Transport { detail: d@ },
        }),
        fetched matches Ok(b) ==> (feed_of(b@) matches Err(c) ==> o@ == (OutcomeModel::Failure {
            url: url@,
            kind: FailureKindModel::Parse { detail: c },
        })),
        fetched matches Ok(b) ==> (feed_of(b@) matches Ok(m) ==> o@ == (OutcomeModel::Success {
            url: url@,
            doc: m,
        })),
{
    match fetched {
        Err(detail) => Outcome::Failure { url, kind: FailureKind::Transport { detail } },
        Ok(bytes) => match parse_feed(bytes.as_slice()) {
            Ok(doc) => Outcome::Success { url, doc },
            Err(detail) => Outcome::Failure { url, kind: FailureKind::Parse { detail } },
        },
    }
}

/// The outcome reported when the unit of work itself failed to run to
/// completion: a scheduler-level crash, distinct from any transport or parse
/// failure, isolated to its URL.
pub fn infrastructure_outcome(url: String, detail: String) -> (o: Outcome)
    ensures
        o@ == (OutcomeModel::Failure {
            url: url@,
            kind: FailureKindModel::Infrastructure { detail: detail@ },
        }),
{
    Outcome::Failure { url, kind: FailureKind::Infrastructure { detail } }
}

} // verus!
