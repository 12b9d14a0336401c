//! The live plan as one quotable text block.

use crate::commands::join;
use crate::text::push_str;
use vstd::prelude::*;

verus! {

/// One step of the live plan.
#[derive(Debug, Clone, PartialEq, Eq)]
pub struct PlanStep {
    /// What the step does.
    pub step: String,
    /// Where it stands (`completed`, `in progress`, ...).
    pub status: String,
}

/// The plan a turn is following.
#[derive(Debug, Clone, PartialEq, Eq)]
pub struct TurnPlan {
    /// Optional prose above the steps.
    pub explanation: Option<String>,
    /// The steps in order.
    pub steps: Vec<PlanStep>,
}

/// One step rendered as `- step [status]`.
pub open spec fn step_line(step: Seq<char>, status: Seq<char>) -> Seq<char> {
    "- "@ + step + " ["@ + status + "]"@
}

/// The step lines of a plan.
pub open spec fn step_lines(steps: Seq<PlanStep>) -> Seq<Seq<char>> {
    steps.map_values(|s: PlanStep| step_line(s.step@, s.status@))
}

/// The lines of the quoted plan: the explanation (when any), then one
/// line per step.
pub open spec fn plan_lines(plan: TurnPlan) -> Seq<Seq<char>> {
    match plan.explanation {
        Some(e) => seq![e@] + step_lines(plan.steps@),
        None => step_lines(plan.steps@),
    }
}

/// The plan as one copyable/quotable text block, lines joined by `\n`.
pub fn plan_text(plan: &TurnPlan) -> (text: String)
    ensures
        text@ == join(plan_lines(*plan), "\n"@),
{
    let ghost lines = plan_lines(*plan);
    let mut text = String::new();
    let mut started = false;
    let ghost mut count: int = 0;
    let ghost offset: int = 0;
    match &plan.explanation {
        Some(e) => {
            push_str(&mut text, e.as_str());
            started = true;
            proof {
                count = 1;
                offset = 1;
                assert(lines.take(1) =~= seq![e@]);
            }
        },
        None => {
            assert(lines.take(0) =~= Seq::<Seq<char>>::empty());
        },
    }
    let mut i: usize = 0;
    while i < plan.steps.len()
        invariant
            lines == plan_lines(*plan),
            lines.len() == offset + plan.steps@.len(),
            count == offset + i,
            started == (count > 0),
            0 <= offset <= 1,
            i <= plan.steps.len(),
            forall|j: int| 0 <= j < plan.steps@.len() ==> #[trigger] lines[offset + j] == step_line(
                plan.steps@[j].step@,
                plan.steps@[j].status@,
            ),
            text@ == join(lines.take(count), "\n"@),
        decreases plan.steps.len() - i,
    {
        let step = &plan.steps[i];
        let ghost before = lines.take(count);
        if started {
            push_str(&mut text, "\n");
        }
        push_str(&mut text, "- ");
        push_str(&mut text, step.step.as_str());
        push_str(&mut text, " [");
        push_str(&mut text, step.status.as_str());
        push_str(&mut text, "]");
        proof {
            let after = lines.take(count + 1);
            assert(after.drop_last() =~= before);
            assert(after.last() == step_line(step.step@, step.status@));
            if count == 0 {
                assert(text@ =~= join(after, "\n"@));
            } else {
                assert(text@ =~= join(after, "\n"@));
            }
        }
        proof {
            count = count + 1;
        }
        started = true;
        i = i + 1;
    }
    assert(lines.take(count) =~= lines);
    text
}

} // verus!
