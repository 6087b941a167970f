//! The score ledger: a labelled counter, used for the running score and for
//! the high score.

use crate::decimal::{decimal, push_decimal};
use vstd::prelude::*;

verus! {

/// What a score holds: the label shown in front of it and its value.
#[verifier::ext_equal]
pub struct ScoreModel {
    pub label: Seq<char>,
    pub value: int,
}

/// A labelled counter.
pub struct Score {
    pub text: String,
    pub value: i32,
}

impl View for Score {
    type V = ScoreModel;

    open spec fn view(&self) -> ScoreModel {
        ScoreModel { label: self.text@, value: self.value as int }
    }
}

/// The label of the running score.
pub open spec fn score_label() -> Seq<char> {
    "Score: "@
}

/// The label of the high score.
pub open spec fn high_score_label() -> Seq<char> {
    "High Score: "@
}

/// The high score after a score of `score` has been seen: the larger of the
/// two.
pub open spec fn absorbed(high: int, score: int) -> int {
    if score > high {
        score
    } else {
        high
    }
}

impl Default for Score {
    fn default() -> (score: Score)
        ensures
            score@ == (ScoreModel { label: score_label(), value: 0 }),
    {
        Score { text: "Score: ".to_owned(), value: 0 }
    }
}

impl Score {
    /// The text to display: the label, then the value in decimal.
    pub fn to_string(&self) -> (s: String)
        ensures
            s@ == self@.label + decimal(self@.value),
    {
        let mut s = self.text.clone();
        push_decimal(&mut s, self.value as i64);
        s
    }

    /// Counts one more.
    pub fn increment(&mut self)
        requires
            old(self).value < i32::MAX,
        ensures
            final(self)@ == (ScoreModel { value: old(self)@.value + 1, ..old(self)@ }),
    {
        self.value = self.value + 1;
    }

    /// Labels this counter as the high score.
    pub fn init_high_score(&mut self)
        ensures
            final(self)@ == (ScoreModel { label: high_score_label(), ..old(self)@ }),
    {
        self.text = "High Score: ".to_owned();
    }

    /// The value counted so far.
    pub fn value(&self) -> (v: i32)
        ensures
            v == self@.value,
    {
        self.value
    }

    /// Starts counting from zero again.
    pub fn reset(&mut self)
        ensures
            final(self)@ == (ScoreModel { value: 0, ..old(self)@ }),
    {
        self.value = 0;
    }

    /// Raises this counter to `score` where `score` is larger.
    pub fn absorb(&mut self, score: i32)
        ensures
            final(self)@ == (ScoreModel {
                value: absorbed(old(self)@.value, score as int),
                ..old(self)@
            }),
    {
        if score > self.value {
            self.value = score;
        }
    }
}

/// Absorbing the same score a second time changes nothing.
pub proof fn lemma_absorb_idempotent(high: int, score: int)
    ensures
        absorbed(absorbed(high, score), score) == absorbed(high, score),
{
}

/// Absorbing a score never lowers the high score, and leaves it at least as
/// large as the score.
pub proof fn lemma_absorb_is_max(high: int, score: int)
    ensures
        absorbed(high, score) >= high,
        absorbed(high, score) >= score,
        absorbed(high, score) == high || absorbed(high, score) == score,
{
}

} // verus!
