//! The shared cue value that the director sets and every viewer displays.

use vstd::prelude::*;

verus! {

/// A performance cue: a section kind letter (`'C'`, `'V'`, ...) and, when the
/// kind is present, an optional positive ordinal (`'V'` with `3` reads "V3").
///
/// The value is always replaced whole, never field by field, so a reader can
/// only ever observe a pair that some writer submitted in one piece.
#[derive(Clone, Copy, PartialEq, Eq, Debug)]
pub struct SectionState {
    /// The section kind letter; absent when no section is cued.
    pub kind: Option<char>,
    /// The ordinal within the kind; meaningful only while `kind` is present.
    pub ordinal: Option<usize>,
}

impl SectionState {
    /// A fully formed pair: the ordinal may be present only together with a
    /// kind, and an ordinal is a positive number.
    pub open spec fn wf(self) -> bool {
        self.ordinal matches Some(n) ==> self.kind is Some && n >= 1
    }

    /// Decides well-formedness at run time, for callers outside the proof
    /// that must test it before submitting a pair.
    pub fn check_wf(&self) -> (r: bool)
        ensures
            r == self.wf(),
    {
        match self.ordinal {
            Some(n) => self.kind.is_some() && n >= 1,
            None => true,
        }
    }

    /// The value a fresh store holds: no section cued.
    pub fn empty() -> (r: SectionState)
        ensures
            r.kind is None,
            r.ordinal is None,
            r.wf(),
    {
        SectionState { kind: None, ordinal: None }
    }
}

} // verus!
