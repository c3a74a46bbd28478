//! The best score reached so far.

use vstd::prelude::*;

verus! {

/// The best score reached so far.
#[derive(Clone, Copy, PartialEq, Eq, Structural, Debug)]
pub struct HighScore {
    pub value: u32,
}

impl Default for HighScore {
    fn default() -> (h: Self)
        ensures
            h.value == 0,
    {
        HighScore { value: 0 }
    }
}

/// The best score after a round that scored `score`.
pub open spec fn updated_best(best: u32, score: u32) -> u32 {
    if score > best {
        score
    } else {
        best
    }
}

impl HighScore {
    /// Records the score of a round. Returns whether it beats the record.
    pub fn update(&mut self, score: u32) -> (new_record: bool)
        ensures
            new_record == (score > old(self).value),
            final(self).value == updated_best(old(self).value, score),
    {
        if score > self.value {
            self.value = score;
            true
        } else {
            false
        }
    }
}

/// The record never drops, it is at least every recorded score, and
/// recording the same score again changes nothing and is no new record.
pub proof fn lemma_high_score_is_running_maximum(best: u32, score: u32)
    ensures
        updated_best(best, score) >= best,
        updated_best(best, score) >= score,
        updated_best(best, score) == best || updated_best(best, score) == score,
        updated_best(updated_best(best, score), score) == updated_best(best, score),
        !(score > updated_best(best, score)),
{
}

} // verus!
