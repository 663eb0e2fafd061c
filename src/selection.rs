//! The choice of a commit range while walking back from the tip: the
//! operator answers for each commit in turn; the first yes marks the newest
//! boundary, the second the oldest, and ends the walk.

use vstd::prelude::*;
use crate::text::{chars_of, opt_seq, trim_chars, trimmed};

verus! {

/// An answer that marks a boundary: `y` in either case, around white space.
pub open spec fn affirmative(input: Seq<char>) -> bool {
    trimmed(input) == seq!['y'] || trimmed(input) == seq!['Y']
}

/// Tests an answer.
pub fn is_affirmative(input: &str) -> (r: bool)
    ensures
        r == affirmative(input@),
{
    let t = trim_chars(&chars_of(input));
    let r = t.len() == 1 && (t[0] == 'y' || t[0] == 'Y');
    proof {
        if t@.len() == 1 {
            assert(t@ =~= seq![t@[0]]);
        }
    }
    r
}

/// The boundaries chosen so far.
pub struct RangeSelection {
    first: Option<String>,
    last: Option<String>,
    failed: bool,
}

/// The boundaries chosen so far, as values: the oldest, the newest, and
/// whether reading an answer failed.
pub struct RangeModel {
    pub first: Option<Seq<char>>,
    pub last: Option<Seq<char>>,
    pub failed: bool,
}

impl View for RangeSelection {
    type V = RangeModel;

    closed spec fn view(&self) -> RangeModel {
        RangeModel { first: opt_seq(self.first), last: opt_seq(self.last), failed: self.failed }
    }
}

impl RangeSelection {
    pub fn new() -> (r: Self)
        ensures
            r@ == (RangeModel { first: None, last: None, failed: false }),
    {
        RangeSelection { first: None, last: None, failed: false }
    }

    /// Takes the answer for commit `hash` (none when reading it failed) and
    /// says whether the walk goes on.
    pub fn answer(&mut self, hash: &str, input: Option<&str>) -> (r: bool)
        requires
            !old(self)@.failed,
            old(self)@.first is None,
        ensures
            input is None ==> !r && final(self)@ == (RangeModel { failed: true, ..old(self)@ }),
            input matches Some(a) ==> {
                if !affirmative(a@) {
                    r && final(self)@ == old(self)@
                } else if old(self)@.last is None {
                    r && final(self)@ == (RangeModel { last: Some(hash@), ..old(self)@ })
                } else {
                    !r && final(self)@ == (RangeModel { first: Some(hash@), ..old(self)@ })
                }
            },
    {
        match input {
            None => {
                self.failed = true;
                false
            },
            Some(a) => {
                if !is_affirmative(a) {
                    true
                } else if self.last.is_none() {
                    self.last = Some(hash.to_owned());
                    true
                } else {
                    self.first = Some(hash.to_owned());
                    false
                }
            },
        }
    }

    /// The range as (oldest, newest), once both are chosen and no answer
    /// failed.
    pub fn result(&self) -> (r: Option<(String, String)>)
        ensures
            r is Some <==> !self@.failed && self@.first is Some && self@.last is Some,
            r matches Some(p) ==> self@.first == Some(p.0@) && self@.last == Some(p.1@),
    {
        if self.failed {
            return None;
        }
        match (&self.first, &self.last) {
            (Some(f), Some(l)) => Some((f.clone(), l.clone())),
            _ => None,
        }
    }
}

} // verus!
