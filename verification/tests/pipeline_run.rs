use shipit::cli::{Cli, Commands};
use shipit::context::Context;
use shipit::error::ShipItError;
use shipit::pipeline::{
    step,
    Outcome,
    PipelineAction,
    PipelineEvent,
    PipelineState,
    ResolvedInputs,
};
use shipit::repo::{Commit, CommitGraph};
use shipit::settings::Settings;

const TRAILER: &str = "\n\n\n*This request was opened by Shipit* \u{1F6A2}";

fn commit(id: &str, msg: Option<&str>, parents: Vec<usize>) -> Commit {
    Commit { id: id.to_string(), message: msg.map(|m| m.to_string()), parents }
}

/// main holds C1 -> C2 -> C3; feature branches at C1 and adds C4, C5.
fn feature_inputs() -> ResolvedInputs {
    ResolvedInputs {
        graph: CommitGraph {
            commits: vec![
                commit("c1", Some("first"), vec![]),
                commit("c2", Some("second"), vec![0]),
                commit("c3", Some("third"), vec![1]),
                commit("c4", Some("fourth"), vec![0]),
                commit("c5", Some("fifth"), vec![3]),
            ],
        },
        source_tip: 4,
        target_tip: 2,
    }
}

fn context(ai: bool, dryrun: bool, gitlab_token: Option<&str>) -> Context {
    let mut settings = Settings::default();
    settings.shipit.ai = ai;
    settings.shipit.dryrun = dryrun;
    settings.gitlab.token = gitlab_token.map(|t| t.to_string());
    Context { settings }
}

#[test]
fn same_tip_reports_nothing_to_do_and_calls_nobody() {
    let ctx = context(false, false, Some("gl-token"));
    let mut inputs = feature_inputs();
    inputs.source_tip = 2;
    inputs.target_tip = 2;
    let (state, action) = step(
        &ctx,
        "feature",
        "main",
        &Some("12345".to_string()),
        PipelineState::Resolving,
        PipelineEvent::Resolved { result: Ok(inputs) },
    );
    assert!(matches!(state, PipelineState::Done { outcome: Outcome::NothingToDo }));
    assert!(matches!(action, PipelineAction::Idle));
}

#[test]
fn dry_run_stops_with_the_full_description() {
    let ctx = context(false, true, None);
    let (state, action) = step(
        &ctx,
        "feature",
        "main",
        &None,
        PipelineState::Resolving,
        PipelineEvent::Resolved { result: Ok(feature_inputs()) },
    );
    assert!(matches!(action, PipelineAction::Idle));
    match state {
        PipelineState::Done { outcome: Outcome::DryRun { description } } => {
            assert_eq!(description, format!("fifth c5,fourth c4{}", TRAILER));
            assert!(description.contains("fifth"));
            assert!(description.contains("fourth"));
            assert_eq!(description.matches(TRAILER).count(), 1);
        },
        other => panic!("expected a dry-run stop, got {:?}", other),
    }
}

#[test]
fn ai_run_summarizes_then_dispatches_then_finishes() {
    let ctx = context(true, false, Some("gl-token"));
    let identifier = Some("12345".to_string());

    let (state, action) = step(
        &ctx,
        "feature",
        "main",
        &identifier,
        PipelineState::Resolving,
        PipelineEvent::Resolved { result: Ok(feature_inputs()) },
    );
    match &action {
        PipelineAction::CallSummarizer { request } => {
            assert_eq!(request.url, "http://localhost:11434/api/generate");
            assert_eq!(request.model, "qwen2.5-coder:7b");
            assert_eq!(request.seed, 43);
            assert!(request.prompt.starts_with("You are a technical writer"));
            assert!(request.prompt.ends_with("fifth c5,fourth c4"));
        },
        other => panic!("expected a summarizer call, got {:?}", other),
    }
    assert!(matches!(state, PipelineState::AwaitingSummary { .. }));

    let (state, action) = step(
        &ctx,
        "feature",
        "main",
        &identifier,
        state,
        PipelineEvent::SummaryReply { result: Ok("## New features\n- fifth c5".to_string()) },
    );
    match &action {
        PipelineAction::CallPlatform { plan } => match plan {
            shipit::platform::DispatchPlan::GitLab { project_id, description, .. } => {
                assert_eq!(*project_id, 12345);
                assert_eq!(*description, format!("## New features\n- fifth c5{}", TRAILER));
            },
            other => panic!("expected a GitLab plan, got {:?}", other),
        },
        other => panic!("expected a platform call, got {:?}", other),
    }
    assert!(matches!(state, PipelineState::AwaitingDispatch));

    let (state, action) = step(
        &ctx,
        "feature",
        "main",
        &identifier,
        state,
        PipelineEvent::DispatchReply {
            result: Ok("https://gitlab.com/x/y/-/merge_requests/7".to_string()),
        },
    );
    assert!(matches!(action, PipelineAction::Idle));
    match state {
        PipelineState::Done { outcome: Outcome::Created { url } } => {
            assert_eq!(url, "https://gitlab.com/x/y/-/merge_requests/7");
        },
        other => panic!("expected a created request, got {:?}", other),
    }
}

#[test]
fn resolve_failure_fails_the_run() {
    let ctx = context(false, false, Some("gl-token"));
    let (state, action) = step(
        &ctx,
        "feature",
        "main",
        &Some("12345".to_string()),
        PipelineState::Resolving,
        PipelineEvent::Resolved { result: Err(ShipItError::BranchNotFound) },
    );
    assert!(matches!(state, PipelineState::Failed { error: ShipItError::BranchNotFound }));
    assert!(matches!(action, PipelineAction::Idle));
}

#[test]
fn summarizer_transport_failure_fails_the_run() {
    let ctx = context(true, false, Some("gl-token"));
    let (state, action) = step(
        &ctx,
        "feature",
        "main",
        &Some("12345".to_string()),
        PipelineState::AwaitingSummary { raw: "fifth c5".to_string() },
        PipelineEvent::SummaryReply { result: Err(ShipItError::SummarizationTransportError) },
    );
    assert!(matches!(
        state,
        PipelineState::Failed { error: ShipItError::SummarizationTransportError }
    ));
    assert!(matches!(action, PipelineAction::Idle));
}

#[test]
fn missing_identifier_outside_dry_run_fails() {
    let ctx = context(false, false, Some("gl-token"));
    let (state, action) = step(
        &ctx,
        "feature",
        "main",
        &None,
        PipelineState::Resolving,
        PipelineEvent::Resolved { result: Ok(feature_inputs()) },
    );
    assert!(matches!(state, PipelineState::Failed { error: ShipItError::ConfigurationError }));
    assert!(matches!(action, PipelineAction::Idle));
}

#[test]
fn missing_commit_message_fails_the_walk_stage() {
    let ctx = context(false, false, Some("gl-token"));
    let inputs = ResolvedInputs {
        graph: CommitGraph {
            commits: vec![
                commit("c1", Some("first"), vec![]),
                commit("c2", None, vec![0]),
            ],
        },
        source_tip: 1,
        target_tip: 0,
    };
    let (state, action) = step(
        &ctx,
        "feature",
        "main",
        &Some("12345".to_string()),
        PipelineState::Resolving,
        PipelineEvent::Resolved { result: Ok(inputs) },
    );
    assert!(matches!(state, PipelineState::Failed { error: ShipItError::HistoryWalkFailed }));
    assert!(matches!(action, PipelineAction::Idle));
}

#[test]
fn dispatch_failure_fails_the_run() {
    let ctx = context(false, false, Some("gl-token"));
    let (state, action) = step(
        &ctx,
        "feature",
        "main",
        &Some("12345".to_string()),
        PipelineState::AwaitingDispatch,
        PipelineEvent::DispatchReply { result: Err(ShipItError::PlatformAPIError) },
    );
    assert!(matches!(state, PipelineState::Failed { error: ShipItError::PlatformAPIError }));
    assert!(matches!(action, PipelineAction::Idle));
}

#[test]
fn cli_flags_override_stored_settings() {
    let mut settings = Settings::default();
    settings.shipit.ai = false;
    settings.shipit.dryrun = false;
    let args = Cli {
        command: Commands::B2b {
            source: "feature".to_string(),
            target: "main".to_string(),
            ai: true,
            dryrun: true,
            dir: None,
            id: Some("12345".to_string()),
        },
    };
    let ctx = Context::from_cli(&args, settings);
    assert!(ctx.settings.shipit.ai);
    assert!(ctx.settings.shipit.dryrun);
    assert_eq!(ctx.settings.shipit.agent, "ollama");
}
