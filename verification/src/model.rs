//! The score model: twenty per-question scores, each in 1..=5, their total,
//! and the interpretation label assigned to a total by fixed thresholds.

use vstd::prelude::*;

verus! {

/// Discrete reading of a total score, assigned by fixed thresholds:
/// totals up to 25 are `Low`, 26..=50 `Moderate`, 51..=75 `Strong`,
/// and 76 and above `Overwhelming`.
#[derive(Clone, Copy, Debug, PartialEq, Eq, Structural)]
pub enum Interpretation {
    Low,
    Moderate,
    Strong,
    Overwhelming,
}

/// Index of the threshold bucket that a total falls in: 0 for totals up
/// to 25, 1 for 26..=50, 2 for 51..=75, 3 for 76 and above.
pub open spec fn bucket_index(total: int) -> int {
    if total <= 25 {
        0
    } else if total <= 50 {
        1
    } else if total <= 75 {
        2
    } else {
        3
    }
}

/// The interpretation assigned to a total.
pub open spec fn interpretation_of(total: int) -> Interpretation {
    if total <= 25 {
        Interpretation::Low
    } else if total <= 50 {
        Interpretation::Moderate
    } else if total <= 75 {
        Interpretation::Strong
    } else {
        Interpretation::Overwhelming
    }
}

/// The label text shown and printed for each interpretation.
pub open spec fn interpretation_text(i: Interpretation) -> Seq<char> {
    match i {
        Interpretation::Low => "Low likelihood of a PSYOP"@,
        Interpretation::Moderate => "Moderate likelihood—look deeper"@,
        Interpretation::Strong => "Strong likelihood—manipulation likely"@,
        Interpretation::Overwhelming => "Overwhelming signs of a PSYOP"@,
    }
}

impl Interpretation {
    /// Position of this label in the threshold order, 0 through 3.
    pub open spec fn bucket(self) -> int {
        match self {
            Interpretation::Low => 0,
            Interpretation::Moderate => 1,
            Interpretation::Strong => 2,
            Interpretation::Overwhelming => 3,
        }
    }

    /// The label text of this interpretation.
    pub fn text(&self) -> (r: &'static str)
        ensures
            r@ == interpretation_text(*self),
    {
        match self {
            Interpretation::Low => "Low likelihood of a PSYOP",
            Interpretation::Moderate => "Moderate likelihood—look deeper",
            Interpretation::Strong => "Strong likelihood—manipulation likely",
            Interpretation::Overwhelming => "Overwhelming signs of a PSYOP",
        }
    }
}

/// The interpretation of a total always sits in the bucket that the
/// thresholds assign to that total.
pub proof fn lemma_interpretation_bucket(total: int)
    ensures
        interpretation_of(total).bucket() == bucket_index(total),
{
}

/// Maps a total score to its interpretation. Totals outside 20..=100
/// are still mapped: anything at 76 or above falls in the last bucket.
pub fn interpretation(total: u32) -> (r: Interpretation)
    ensures
        r == interpretation_of(total as int),
{
    if total <= 25 {
        Interpretation::Low
    } else if total <= 50 {
        Interpretation::Moderate
    } else if total <= 75 {
        Interpretation::Strong
    } else {
        Interpretation::Overwhelming
    }
}

/// Number of questions on the form.
pub open spec fn question_count() -> int {
    20
}

/// Sum of a sequence of per-question scores.
pub open spec fn sum_of(s: Seq<u8>) -> int
    decreases s.len(),
{
    if s.len() == 0 {
        0
    } else {
        sum_of(s.drop_last()) + s.last()
    }
}

/// If every element of `s` lies in `lo..=hi`, its sum lies between
/// `lo * s.len()` and `hi * s.len()`.
pub proof fn lemma_sum_bounds(s: Seq<u8>, lo: int, hi: int)
    requires
        forall|i: int| 0 <= i < s.len() ==> lo <= #[trigger] s[i] <= hi,
    ensures
        lo * s.len() <= sum_of(s) <= hi * s.len(),
    decreases s.len(),
{
    if s.len() == 0 {
    } else {
        lemma_sum_bounds(s.drop_last(), lo, hi);
        assert(lo * s.len() == lo * (s.len() - 1) + lo) by (nonlinear_arith);
        assert(hi * s.len() == hi * (s.len() - 1) + hi) by (nonlinear_arith);
    }
}

/// Whenever the twenty scores each lie in 1..=5, their total lies in
/// 20..=100.
pub proof fn lemma_total_in_range(s: Seq<u8>)
    requires
        s.len() == question_count(),
        forall|i: int| 0 <= i < s.len() ==> 1 <= #[trigger] s[i] <= 5,
    ensures
        20 <= sum_of(s) <= 100,
{
    lemma_sum_bounds(s, 1, 5);
}

/// Rejection raised when a score mutation names a question index outside
/// 0..20 or a value outside 1..=5.
#[derive(Clone, Copy, Debug, PartialEq, Eq, Structural)]
pub enum ScoreError {
    OutOfRange,
}

/// Holds the twenty per-question scores. Every score stays in 1..=5, so
/// the total always lies in 20..=100.
pub struct ScoreModel {
    scores: Vec<u8>,
}

impl View for ScoreModel {
    type V = Seq<u8>;

    closed spec fn view(&self) -> Seq<u8> {
        self.scores@
    }
}

impl ScoreModel {
    /// Twenty scores, each in 1..=5.
    pub open spec fn wf(&self) -> bool {
        &&& self@.len() == question_count()
        &&& forall|i: int| 0 <= i < self@.len() ==> 1 <= #[trigger] self@[i] <= 5
    }

    /// A fresh model starts every score at the minimum, 1.
    pub fn new() -> (r: ScoreModel)
        ensures
            r.wf(),
            forall|i: int| 0 <= i < r@.len() ==> #[trigger] r@[i] == 1,
    {
        let mut scores: Vec<u8> = Vec::new();
        let mut k: usize = 0;
        while k < 20
            invariant
                k == scores@.len() <= 20,
                forall|i: int| 0 <= i < scores@.len() ==> #[trigger] scores@[i] == 1,
            decreases 20 - k,
        {
            scores.push(1);
            k += 1;
        }
        ScoreModel { scores }
    }

    /// Reads the score of one question.
    pub fn score(&self, index: usize) -> (r: u8)
        requires
            index < self@.len(),
        ensures
            r == self@[index as int],
    {
        self.scores[index]
    }

    /// Overwrites one question's score. Succeeds exactly when the index
    /// names a question and the value lies in 1..=5; any other call is
    /// rejected and leaves the model unchanged.
    pub fn set_score(&mut self, index: usize, value: u8) -> (r: Result<(), ScoreError>)
        requires
            old(self).wf(),
        ensures
            final(self).wf(),
            index < question_count() && 1 <= value <= 5 ==> {
                &&& r == Result::<(), ScoreError>::Ok(())
                &&& final(self)@ == old(self)@.update(index as int, value)
            },
            !(index < question_count() && 1 <= value <= 5) ==> {
                &&& r == Result::<(), ScoreError>::Err(ScoreError::OutOfRange)
                &&& final(self)@ == old(self)@
            },
    {
        if index < 20 && 1 <= value && value <= 5 {
            self.scores.set(index, value);
            Ok(())
        } else {
            Err(ScoreError::OutOfRange)
        }
    }

    /// Puts every score back to the minimum, 1. Idempotent.
    pub fn reset(&mut self)
        ensures
            final(self).wf(),
            forall|i: int| 0 <= i < final(self)@.len() ==> #[trigger] final(self)@[i] == 1,
    {
        let fresh = ScoreModel::new();
        self.scores = fresh.scores;
    }

    /// The total: the sum of the twenty scores, always in 20..=100.
    pub fn total(&self) -> (t: u32)
        requires
            self.wf(),
        ensures
            t == sum_of(self@),
            20 <= t <= 100,
    {
        proof {
            lemma_total_in_range(self@);
        }
        let mut t: u32 = 0;
        let mut k: usize = 0;
        while k < self.scores.len()
            invariant
                self.wf(),
                k <= self.scores@.len(),
                t == sum_of(self@.take(k as int)),
                t <= 5 * k,
            decreases self.scores@.len() - k,
        {
            proof {
                assert(self@.take(k as int + 1).drop_last() =~= self@.take(k as int));
                lemma_sum_bounds(self@.take(k as int + 1), 1, 5);
            }
            t = t + self.scores[k] as u32;
            k += 1;
        }
        proof {
            assert(self@.take(self@.len() as int) =~= self@);
        }
        t
    }
}

} // verus!
