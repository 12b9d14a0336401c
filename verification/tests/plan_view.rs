use codex_gui_ui::plan_view::plan_text;
use codex_gui_ui::plan_view::PlanStep;
use codex_gui_ui::plan_view::TurnPlan;

#[test]
fn plan_text_joins_explanation_and_steps() {
    let plan = TurnPlan {
        explanation: Some("shipping the fix".to_string()),
        steps: vec![
            PlanStep {
                step: "reproduce".to_string(),
                status: "completed".to_string(),
            },
            PlanStep {
                step: "patch".to_string(),
                status: "in progress".to_string(),
            },
        ],
    };

    assert_eq!(
        plan_text(&plan),
        "shipping the fix\n- reproduce [completed]\n- patch [in progress]"
    );
}

#[test]
fn a_plan_without_an_explanation_lists_only_its_steps() {
    let plan = TurnPlan {
        explanation: None,
        steps: vec![PlanStep { step: "ship".to_string(), status: "pending".to_string() }],
    };

    assert_eq!(plan_text(&plan), "- ship [pending]");
}

#[test]
fn an_empty_plan_reads_as_nothing() {
    let plan = TurnPlan { explanation: None, steps: Vec::new() };

    assert_eq!(plan_text(&plan), "");
}
