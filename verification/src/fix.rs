//! The satellite-fix collection protocol.
//!
//! The external satellite driver decodes one sentence per poll. A complete
//! fix needs at least one sentence of each of the three kinds that carry
//! position, precision, and speed/date data; all other kinds are ignored. A
//! sentence with a bad checksum, unframeable bytes, or a dead link aborts the
//! whole fix attempt — the decision here is fatal, retrying is the caller's
//! explicit choice, never a hidden one.

use vstd::prelude::*;

verus! {

/// What one poll of the satellite driver produced, reduced to the decision
/// content: the kind of sentence and, for a position sentence, whether the
/// receiver reports a valid fix. The payload values themselves stay with the
/// caller.
#[derive(Clone, Copy, Debug, PartialEq, Eq, Structural)]
pub enum SentenceKind {
    /// Position sentence: latitude, longitude, altitude, fix quality.
    PositionFix { has_fix: bool },
    /// Precision sentence: horizontal and vertical dilution of precision.
    Precision,
    /// Velocity sentence: speed over ground, UTC time, calendar date.
    VelocityDate,
    /// Any sentence kind the detector does not consume.
    Other,
    /// A sentence whose checksum did not match.
    InvalidFrame,
    /// Bytes that could not be framed as a sentence.
    InvalidBytes,
    /// The driver received no bytes at all.
    NoConnection,
}

/// Why a fix attempt was aborted. Each is fatal to the attempt.
#[derive(Clone, Copy, Debug, PartialEq, Eq, Structural)]
pub enum FixError {
    /// A sentence failed its checksum.
    InvalidFrame,
    /// The byte stream could not be framed (baud-rate mismatch).
    InvalidBytes,
    /// No bytes are arriving from the receiver.
    NoConnection,
}

/// The collector's answer to one observed sentence.
#[derive(Clone, Copy, Debug, PartialEq, Eq, Structural)]
pub enum CollectStep {
    /// Keep polling: some of the three kinds are still missing.
    Continue,
    /// All three kinds have been seen; the fix record is complete.
    Complete,
    /// The attempt is aborted; the error says why.
    Failed(FixError),
}

/// Tracks which of the three sentence kinds of one fix cycle have arrived.
pub struct FixCollector {
    /// A position sentence has been seen this cycle.
    pub have_position: bool,
    /// A precision sentence has been seen this cycle.
    pub have_precision: bool,
    /// A velocity/date sentence has been seen this cycle.
    pub have_velocity: bool,
}

/// The error a failing sentence kind aborts the fix attempt with, if any.
pub open spec fn sentence_failure(kind: SentenceKind) -> Option<FixError> {
    match kind {
        SentenceKind::InvalidFrame => Some(FixError::InvalidFrame),
        SentenceKind::InvalidBytes => Some(FixError::InvalidBytes),
        SentenceKind::NoConnection => Some(FixError::NoConnection),
        _ => None,
    }
}

impl FixCollector {
    /// All three sentence kinds have been seen.
    pub open spec fn complete(&self) -> bool {
        self.have_position && self.have_precision && self.have_velocity
    }

    /// A fresh collector: nothing seen yet.
    pub fn new() -> (r: FixCollector)
        ensures
            !r.have_position,
            !r.have_precision,
            !r.have_velocity,
    {
        FixCollector { have_position: false, have_precision: false, have_velocity: false }
    }

    /// Folds one observed sentence into the cycle. An invalid or dead-link
    /// sentence fails the whole attempt and leaves the record untouched; a
    /// consumed kind marks its slot (a position sentence counts whether or
    /// not it reports a valid fix); the attempt completes as soon as all
    /// three slots are marked.
    pub fn observe(&mut self, kind: SentenceKind) -> (r: CollectStep)
        ensures
            sentence_failure(kind) matches Some(e) ==> r == CollectStep::Failed(e) && *final(self)
                == *old(self),
            sentence_failure(kind) is None ==> {
                &&& final(self).have_position == (old(self).have_position || kind matches
                    SentenceKind::PositionFix { .. })
                &&& final(self).have_precision == (old(self).have_precision || kind
                    is Precision)
                &&& final(self).have_velocity == (old(self).have_velocity || kind
                    is VelocityDate)
                &&& r == (if final(self).complete() {
                    CollectStep::Complete
                } else {
                    CollectStep::Continue
                })
            },
    {
        match kind {
            SentenceKind::InvalidFrame => CollectStep::Failed(FixError::InvalidFrame),
            SentenceKind::InvalidBytes => CollectStep::Failed(FixError::InvalidBytes),
            SentenceKind::NoConnection => CollectStep::Failed(FixError::NoConnection),
            SentenceKind::PositionFix { .. } => {
                self.have_position = true;
                self.progress()
            },
            SentenceKind::Precision => {
                self.have_precision = true;
                self.progress()
            },
            SentenceKind::VelocityDate => {
                self.have_velocity = true;
                self.progress()
            },
            SentenceKind::Other => self.progress(),
        }
    }

    /// Whether the cycle still needs sentences or is complete.
    fn progress(&self) -> (r: CollectStep)
        ensures
            r == (if self.complete() {
                CollectStep::Complete
            } else {
                CollectStep::Continue
            }),
    {
        if self.have_position && self.have_precision && self.have_velocity {
            CollectStep::Complete
        } else {
            CollectStep::Continue
        }
    }
}

/// One poll of the initial wait for a first fix: only a position sentence
/// that reports a valid fix ends the wait; every other sentence — including
/// an invalid one — just keeps the wait polling until its deadline.
pub fn fix_wait_found(kind: &SentenceKind) -> (r: bool)
    ensures
        r == (*kind matches SentenceKind::PositionFix { has_fix: true }),
{
    match *kind {
        SentenceKind::PositionFix { has_fix } => has_fix,
        _ => false,
    }
}

} // verus!
