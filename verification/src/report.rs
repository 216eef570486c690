//! The text of the exported report: the fixed question set, one line per
//! question, and the total and interpretation summary lines.

use vstd::prelude::*;

use crate::digits::decimal_of;
use crate::digits::decimal_string;
use crate::model::interpretation;
use crate::model::interpretation_of;
use crate::model::interpretation_text;
use crate::model::sum_of;
use crate::model::Interpretation;
use crate::model::ScoreModel;

verus! {

/// The text of question `i` of the fixed, ordered question set.
pub open spec fn question_text(i: int) -> Seq<char> {
    if i == 0 {
        "1. Timing"@
    } else if i == 1 {
        "2. Emotional Manipulation"@
    } else if i == 2 {
        "3. Uniform Messaging"@
    } else if i == 3 {
        "4. Missing Information"@
    } else if i == 4 {
        "5. Simplistic Narratives"@
    } else if i == 5 {
        "6. Tribal Division"@
    } else if i == 6 {
        "7. Authority Overload"@
    } else if i == 7 {
        "8. Call for Urgent Action"@
    } else if i == 8 {
        "9. Overuse of Novelty"@
    } else if i == 9 {
        "10. Financial/Political Gain"@
    } else if i == 10 {
        "11. Suppression of Dissent"@
    } else if i == 11 {
        "12. False Dilemmas"@
    } else if i == 12 {
        "13. Bandwagon Effect"@
    } else if i == 13 {
        "14. Emotional Repetition"@
    } else if i == 14 {
        "15. Cherry-Picked Data"@
    } else if i == 15 {
        "16. Logical Fallacies"@
    } else if i == 16 {
        "17. Manufactured Outrage"@
    } else if i == 17 {
        "18. Framing Techniques"@
    } else if i == 18 {
        "19. Rapid Behavior Shifts"@
    } else {
        "20. Historical Parallels"@
    }
}

/// The fixed, ordered set of twenty questions shown on the form and
/// printed in the report.
pub fn get_questions() -> (qs: [&'static str; 20])
    ensures
        forall|i: int| 0 <= i < 20 ==> #[trigger] qs@[i]@ == question_text(i),
{
    let qs = [
        "1. Timing",
        "2. Emotional Manipulation",
        "3. Uniform Messaging",
        "4. Missing Information",
        "5. Simplistic Narratives",
        "6. Tribal Division",
        "7. Authority Overload",
        "8. Call for Urgent Action",
        "9. Overuse of Novelty",
        "10. Financial/Political Gain",
        "11. Suppression of Dissent",
        "12. False Dilemmas",
        "13. Bandwagon Effect",
        "14. Emotional Repetition",
        "15. Cherry-Picked Data",
        "16. Logical Fallacies",
        "17. Manufactured Outrage",
        "18. Framing Techniques",
        "19. Rapid Behavior Shifts",
        "20. Historical Parallels",
    ];
    qs
}

/// One per-question report line: the question text, then the score.
pub open spec fn question_line(q: Seq<char>, score: int) -> Seq<char> {
    q + " - Score: "@ + decimal_of(score)
}

/// Every line of the report, in order: the title, the generation
/// timestamp, a blank, the twenty question lines, a blank, and the
/// total and interpretation summary lines.
pub open spec fn report_lines_of(scores: Seq<u8>, timestamp: Seq<char>) -> Seq<Seq<char>> {
    seq!["PSYOPS Assessment Results"@, "Generated on: "@ + timestamp, Seq::<char>::empty()]
        + Seq::new(20, |i: int| question_line(question_text(i), scores[i] as int)) + seq![
        Seq::<char>::empty(),
        "Total Score: "@ + decimal_of(sum_of(scores)),
        "Interpretation: "@ + interpretation_text(interpretation_of(sum_of(scores))),
    ]
}

/// Builds the lines of the report for the given model and an already
/// rendered timestamp.
pub fn report_lines(model: &ScoreModel, timestamp: &str) -> (lines: Vec<String>)
    requires
        model.wf(),
    ensures
        lines@.len() == 26,
        forall|i: int|
            0 <= i < 26 ==> (#[trigger] lines@[i])@ == report_lines_of(model@, timestamp@)[i],
{
    proof {
        reveal_strlit("");
    }
    let ghost goal = report_lines_of(model@, timestamp@);
    let mut lines: Vec<String> = Vec::new();
    lines.push("PSYOPS Assessment Results".to_owned());
    let mut generated = "Generated on: ".to_owned();
    generated.append(timestamp);
    lines.push(generated);
    lines.push("".to_owned());
    assert(""@ =~= Seq::<char>::empty());
    let qs = get_questions();
    let mut k: usize = 0;
    while k < 20
        invariant
            model.wf(),
            k <= 20,
            lines@.len() == 3 + k,
            forall|i: int| 0 <= i < 20 ==> #[trigger] qs@[i]@ == question_text(i),
            forall|i: int| 0 <= i < lines@.len() ==> (#[trigger] lines@[i])@ == goal[i],
            goal == report_lines_of(model@, timestamp@),
        decreases 20 - k,
    {
        proof {
            reveal_strlit(" - Score: ");
        }
        let mut line = qs[k].to_owned();
        line.append(" - Score: ");
        let digit = decimal_string(model.score(k) as u64);
        line.append(digit.as_str());
        assert(line@ == question_line(question_text(k as int), model@[k as int] as int));
        lines.push(line);
        k += 1;
    }
    lines.push("".to_owned());
    assert(""@ =~= Seq::<char>::empty());
    let total = model.total();
    let mut total_line = "Total Score: ".to_owned();
    let total_digits = decimal_string(total as u64);
    total_line.append(total_digits.as_str());
    lines.push(total_line);
    let mut interp_line = "Interpretation: ".to_owned();
    let interp: Interpretation = interpretation(total);
    interp_line.append(interp.text());
    lines.push(interp_line);
    lines
}

/// Whether `lines`, read as text, is the report for `scores` generated at
/// some instant rendered as `timestamp`.
pub open spec fn is_report(lines: Seq<String>, scores: Seq<u8>, timestamp: Seq<char>) -> bool {
    &&& lines.len() == 26
    &&& forall|i: int| 0 <= i < 26 ==> (#[trigger] lines[i])@ == report_lines_of(scores, timestamp)[i]
}

/// Relies on chrono's `Local::now` and `DateTime::format`: the current
/// local date and time, rendered as year-month-day hour:minute:second.
/// The result depends on the clock and the time zone, so nothing is
/// promised of it.
#[verifier::external_body]
fn current_timestamp() -> String {
    chrono::Local::now().format("%Y-%m-%d %H:%M:%S").to_string()
}

/// Builds the lines of the report for the given model, stamped with the
/// current local time.
pub fn build_report(model: &ScoreModel) -> (lines: Vec<String>)
    requires
        model.wf(),
    ensures
        exists|ts: Seq<char>| is_report(lines@, model@, ts),
{
    let ts = current_timestamp();
    let lines = report_lines(model, ts.as_str());
    proof {
        assert(is_report(lines@, model@, ts@));
    }
    lines
}

} // verus!
