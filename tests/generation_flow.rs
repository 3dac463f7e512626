use model_gen::generation::{
    collect_messages, Action, BuildFailurePolicy, BuildStep, GenerateError, Generation,
    StepOutcome, Template,
};

fn fields(pairs: &[(&str, &str)]) -> Vec<(String, String)> {
    pairs.iter().map(|(n, t)| (n.to_string(), t.to_string())).collect()
}

fn started(policy: BuildFailurePolicy) -> Generation {
    let f = fields(&[("title", "string!"), ("user", "references"), ("created_at", "ts")]);
    match Generation::start(
        "post".to_string(),
        false,
        "2024-01-01T00:00:00Z".to_string(),
        "blog".to_string(),
        &f,
        policy,
    ) {
        Ok(g) => g,
        Err(_) => panic!("start failed"),
    }
}

#[test]
fn start_holds_descriptor_and_metadata() {
    let g = started(BuildFailurePolicy::Discard);
    assert_eq!(g.descriptor.entity, "post");
    assert!(!g.descriptor.is_link);
    assert_eq!(g.descriptor.package, "blog");
    assert_eq!(g.descriptor.timestamp, "2024-01-01T00:00:00Z");
    assert_eq!(g.descriptor.columns.len(), 2);
    assert_eq!(g.descriptor.references.len(), 1);
    assert_eq!(g.redundant_fields, vec!["created_at"]);
}

#[test]
fn successful_run_renders_twice_then_builds_twice() {
    let mut g = started(BuildFailurePolicy::Discard);
    assert_eq!(g.next_action(), Action::Render(Template::Model));
    g.record(StepOutcome::Succeeded("model done\n".to_string()));
    assert_eq!(g.next_action(), Action::Render(Template::ModelTest));
    g.record(StepOutcome::Succeeded("test done\n".to_string()));
    assert_eq!(g.next_action(), Action::Build(BuildStep::MigrateSchema));
    g.record(StepOutcome::Succeeded(String::new()));
    assert_eq!(g.next_action(), Action::Build(BuildStep::RegenerateEntities));
    g.record(StepOutcome::Succeeded(String::new()));
    assert_eq!(g.next_action(), Action::Finish);
    match g.into_outcome() {
        Some(Ok(text)) => assert_eq!(text, "model done\ntest done\n"),
        _ => panic!("expected a finished success"),
    }
}

#[test]
fn unfinished_run_has_no_outcome() {
    let mut g = started(BuildFailurePolicy::Discard);
    g.record(StepOutcome::Succeeded("a".to_string()));
    assert!(g.into_outcome().is_none());
}

#[test]
fn rendering_failure_stops_before_builds() {
    let mut g = started(BuildFailurePolicy::Discard);
    g.record(StepOutcome::Succeeded("a".to_string()));
    g.record(StepOutcome::Failed("bad template".to_string()));
    assert_eq!(g.next_action(), Action::Finish);
    match g.into_outcome() {
        Some(Err(GenerateError::RenderingFailure(m))) => assert_eq!(m, "bad template"),
        _ => panic!("expected a rendering failure"),
    }
}

#[test]
fn discarded_build_failure_keeps_rendered_output() {
    let mut g = started(BuildFailurePolicy::Discard);
    g.record(StepOutcome::Succeeded("a".to_string()));
    g.record(StepOutcome::Succeeded("b".to_string()));
    g.record(StepOutcome::Failed("migrate failed".to_string()));
    assert_eq!(g.next_action(), Action::Build(BuildStep::RegenerateEntities));
    g.record(StepOutcome::Failed("entities failed".to_string()));
    assert_eq!(g.build_failures, vec!["migrate failed", "entities failed"]);
    match g.into_outcome() {
        Some(Ok(text)) => assert_eq!(text, "ab"),
        _ => panic!("expected a finished success"),
    }
}

#[test]
fn propagated_build_failure_ends_the_run() {
    let mut g = started(BuildFailurePolicy::Propagate);
    g.record(StepOutcome::Succeeded("a".to_string()));
    g.record(StepOutcome::Succeeded("b".to_string()));
    g.record(StepOutcome::Failed("migrate failed".to_string()));
    assert_eq!(g.next_action(), Action::Finish);
    match g.into_outcome() {
        Some(Err(GenerateError::BuildStepFailure(m))) => assert_eq!(m, "migrate failed"),
        _ => panic!("expected a build failure"),
    }
}

#[test]
fn unknown_tag_aborts_before_any_step() {
    let f = fields(&[("a", "int"), ("b", "nope")]);
    let r = Generation::start(
        "post".to_string(),
        true,
        String::new(),
        String::new(),
        &f,
        BuildFailurePolicy::Discard,
    );
    match r {
        Err(GenerateError::UnknownTypeTag(u)) => assert_eq!(u.tag, "nope"),
        _ => panic!("expected an unknown tag"),
    }
}

#[test]
fn messages_join_in_order() {
    assert_eq!(collect_messages(&vec![]), "");
    let v = vec!["* a\n".to_string(), String::new(), "* b\n".to_string()];
    assert_eq!(collect_messages(&v), "* a\n* b\n");
}
