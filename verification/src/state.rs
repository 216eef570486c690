//! The owned state behind one frame of the form: the score model, the
//! eased displayed score, and the status line of the last export.

use vstd::prelude::*;

use crate::anim;
use crate::model::interpretation_of;
use crate::model::sum_of;
use crate::model::Interpretation;
use crate::model::ScoreError;
use crate::model::ScoreModel;

verus! {

/// The scale maximum of the progress ring, in points.
pub const MAX_SCALE: u32 = 100;

/// Text shown after a successful export.
pub open spec fn export_success_text() -> Seq<char> {
    "✅ PDF saved as 'psyops_results.pdf'."@
}

/// Text shown after a failed export: a fixed prefix, then the reason.
pub open spec fn export_failure_text(reason: Seq<char>) -> Seq<char> {
    "❌ Failed to save PDF: "@ + reason
}

/// All state the form owns between frames.
pub struct AssessmentState {
    /// The twenty per-question scores.
    pub model: ScoreModel,
    /// The displayed score, eased toward the total, in thousandths of a
    /// point.
    pub animated_milli: u32,
    /// The status line of the last export, if any.
    pub status: Option<String>,
}

impl AssessmentState {
    /// The scores are well formed and the displayed value never exceeds
    /// the scale maximum.
    pub open spec fn wf(&self) -> bool {
        &&& self.model.wf()
        &&& self.animated_milli <= MAX_SCALE * anim::MILLI_PER_POINT
    }

    /// A fresh form: every score at the minimum, the displayed value at
    /// zero, no status line.
    pub fn new() -> (r: AssessmentState)
        ensures
            r.wf(),
            forall|i: int| 0 <= i < r.model@.len() ==> #[trigger] r.model@[i] == 1,
            r.animated_milli == 0,
            r.status is None,
    {
        AssessmentState { model: ScoreModel::new(), animated_milli: 0, status: None }
    }

    /// Overwrites one question's score, and hands back the new total and
    /// its interpretation for display. Rejected calls change nothing.
    pub fn set_score(&mut self, index: usize, value: u8) -> (r: Result<
        (u32, Interpretation),
        ScoreError,
    >)
        requires
            old(self).wf(),
        ensures
            final(self).wf(),
            final(self).animated_milli == old(self).animated_milli,
            final(self).status == old(self).status,
            index < 20 && 1 <= value <= 5 ==> {
                &&& final(self).model@ == old(self).model@.update(index as int, value)
                &&& r matches Ok((t, it)) && t == sum_of(final(self).model@) && it
                    == interpretation_of(t as int)
            },
            !(index < 20 && 1 <= value <= 5) ==> {
                &&& r == Result::<(u32, Interpretation), ScoreError>::Err(ScoreError::OutOfRange)
                &&& final(self).model@ == old(self).model@
            },
    {
        match self.model.set_score(index, value) {
            Ok(()) => {
                let t = self.model.total();
                Ok((t, crate::model::interpretation(t)))
            },
            Err(e) => Err(e),
        }
    }

    /// Puts every score back to the minimum. The displayed value and the
    /// status line keep easing and showing as they were.
    pub fn reset(&mut self)
        requires
            old(self).wf(),
        ensures
            final(self).wf(),
            forall|i: int| 0 <= i < final(self).model@.len() ==> #[trigger] final(self).model@[i]
                == 1,
            final(self).animated_milli == old(self).animated_milli,
            final(self).status == old(self).status,
    {
        self.model.reset();
    }

    /// The total of the current scores.
    pub fn total(&self) -> (t: u32)
        requires
            self.wf(),
        ensures
            t == sum_of(self.model@),
            20 <= t <= 100,
    {
        self.model.total()
    }

    /// Advances the displayed value one frame toward the current total,
    /// and reports whether the animation was still settling — that is,
    /// whether the host must schedule another redraw.
    pub fn advance_animation(&mut self) -> (repaint: bool)
        requires
            old(self).wf(),
        ensures
            final(self).wf(),
            final(self).model == old(self).model,
            final(self).status == old(self).status,
            final(self).animated_milli == anim::tick_spec(
                old(self).animated_milli as int,
                sum_of(old(self).model@) * anim::MILLI_PER_POINT,
            ),
            repaint == (anim::state_of(
                old(self).animated_milli as int,
                sum_of(old(self).model@) * anim::MILLI_PER_POINT,
            ) == anim::AnimationState::Settling),
    {
        let target = self.model.total() * anim::MILLI_PER_POINT;
        let settling = match anim::animation_state(self.animated_milli, target) {
            anim::AnimationState::Settling => true,
            anim::AnimationState::Settled => false,
        };
        proof {
            anim::lemma_tick_approaches(self.animated_milli as int, target as int);
        }
        self.animated_milli = anim::tick(self.animated_milli, target);
        settling
    }

    /// Records the outcome of an export in the status line: the fixed
    /// success text, or the failure prefix with the reason.
    pub fn note_export(&mut self, outcome: Result<(), String>)
        requires
            old(self).wf(),
        ensures
            final(self).wf(),
            final(self).model == old(self).model,
            final(self).animated_milli == old(self).animated_milli,
            outcome matches Ok(()) ==> final(self).status matches Some(s) && s@
                == export_success_text(),
            outcome matches Err(reason) ==> final(self).status matches Some(s) && s@
                == export_failure_text(reason@),
    {
        match outcome {
            Ok(()) => {
                self.status = Some("✅ PDF saved as 'psyops_results.pdf'.".to_owned());
            },
            Err(reason) => {
                let mut s = "❌ Failed to save PDF: ".to_owned();
                s.append(reason.as_str());
                self.status = Some(s);
            },
        }
    }
}

} // verus!
