//! The pipeline orchestrator, as a state machine.
//!
//! One run is a strictly linear sequence: resolve the branches, walk the
//! delta, compose, optionally summarize, then stop on a dry run or dispatch
//! exactly once. Every step of outside work — the repository read, the two
//! possible HTTP calls — happens between two states: the binary performs the
//! action this machine hands out and feeds the outcome back in as the next
//! event. Every decision in between is made here. Any failure moves straight
//! to `Failed`, carrying the originating error; nothing is retried.

use vstd::prelude::*;
use crate::compose::{
    compose,
    finalize_description,
    lemma_compose_records,
    raw_description_spec,
    trailer,
};
use crate::context::Context;
use crate::error::ShipItError;
use crate::platform::{build_dispatch, dispatch_plan_spec, DispatchPlan};
use crate::repo::{delta_indices, delta_walk, in_delta, lemma_same_tip_empty_delta, CommitGraph};
use crate::summarize::{build_summarize_request, summarize_request_spec, SummarizeRequest};

verus! {

/// How one run finished short of a failure: nothing to ship, a dry-run
/// stop, or a created request.
#[derive(Debug)]
pub enum Outcome {
    NothingToDo,
    DryRun { description: String },
    Created { url: String },
}

/// Where the pipeline stands between two interactions with the outside.
#[derive(Debug)]
pub enum PipelineState {
    Resolving,
    AwaitingSummary { raw: String },
    AwaitingDispatch,
    Done { outcome: Outcome },
    Failed { error: ShipItError },
}

/// What the repository read produced: the materialized history and the two
/// branch tips inside it.
#[derive(Debug)]
pub struct ResolvedInputs {
    pub graph: CommitGraph,
    pub source_tip: usize,
    pub target_tip: usize,
}

impl ResolvedInputs {
    /// A usable resolution: a well-formed graph with both tips inside it.
    pub open spec fn wf(self) -> bool {
        &&& self.graph.wf()
        &&& self.source_tip < self.graph.commits.len()
        &&& self.target_tip < self.graph.commits.len()
    }
}

/// One outcome of outside work, handed back to the machine.
#[derive(Debug)]
pub enum PipelineEvent {
    Resolved { result: Result<ResolvedInputs, ShipItError> },
    SummaryReply { result: Result<String, ShipItError> },
    DispatchReply { result: Result<String, ShipItError> },
}

/// The at-most-one piece of outside work a transition asks for.
#[derive(Debug)]
pub enum PipelineAction {
    Idle,
    CallSummarizer { request: SummarizeRequest },
    CallPlatform { plan: DispatchPlan },
}

/// Which event each state is waiting for.
pub open spec fn state_accepts(state: PipelineState, event: PipelineEvent) -> bool {
    match (state, event) {
        (PipelineState::Resolving, PipelineEvent::Resolved { .. }) => true,
        (PipelineState::AwaitingSummary { .. }, PipelineEvent::SummaryReply { .. }) => true,
        (PipelineState::AwaitingDispatch, PipelineEvent::DispatchReply { .. }) => true,
        _ => false,
    }
}

/// An event carrying a freshly resolved repository carries a usable one.
pub open spec fn event_wf(event: PipelineEvent) -> bool {
    event matches PipelineEvent::Resolved { result } ==> (result matches Ok(inp) ==> inp.wf())
}

/// What the run does once a description body stands: append the trailer —
/// exactly here, exactly once — stop on a dry run, otherwise plan the one
/// platform call or fail naming why none could be planned.
pub open spec fn proceed_spec(
    ctx: Context,
    source: Seq<char>,
    target: Seq<char>,
    identifier: Option<String>,
    body: Seq<char>,
    r: (PipelineState, PipelineAction),
) -> bool {
    let desc = body + trailer();
    if ctx.settings.shipit.dryrun {
        r.0 matches PipelineState::Done { outcome: Outcome::DryRun { description } }
            && description@ == desc && r.1 is Idle
    } else {
        match identifier {
            Option::None => r.0 == (PipelineState::Failed {
                error: ShipItError::ConfigurationError,
            }) && r.1 is Idle,
            Option::Some(id) => {
                ||| (r.0 is AwaitingDispatch && (r.1 matches PipelineAction::CallPlatform { plan }
                    && dispatch_plan_spec(ctx.settings, id@, source, target, desc, Ok(plan))))
                ||| (r.1 is Idle && (r.0 matches PipelineState::Failed { error }
                    && dispatch_plan_spec(ctx.settings, id@, source, target, desc, Err(error))))
            },
        }
    }
}

/// The orchestrator's transition relation: state and event in, next state
/// and the at-most-one outside call out.
pub open spec fn step_spec(
    ctx: Context,
    source: Seq<char>,
    target: Seq<char>,
    identifier: Option<String>,
    state: PipelineState,
    event: PipelineEvent,
    r: (PipelineState, PipelineAction),
) -> bool {
    &&& (event matches PipelineEvent::Resolved { result } ==> match result {
        Result::Err(e) => r.0 == (PipelineState::Failed { error: e }) && r.1 is Idle,
        Result::Ok(inp) => {
            let g = inp.graph.commits@;
            let s = inp.source_tip as int;
            let t = inp.target_tip as int;
            if exists|x: int|
                0 <= x < g.len() && #[trigger] in_delta(g, s, t, x) && g[x].message is None {
                r.0 == (PipelineState::Failed { error: ShipItError::HistoryWalkFailed }) && r.1
                    is Idle
            } else if delta_indices(g, s, t).len() == 0 {
                r.0 == (PipelineState::Done { outcome: Outcome::NothingToDo }) && r.1 is Idle
            } else if ctx.settings.shipit.ai {
                &&& r.0 matches PipelineState::AwaitingSummary { raw } && raw@
                    == raw_description_spec(g, s, t)
                &&& r.1 matches PipelineAction::CallSummarizer { request }
                    && summarize_request_spec(
                    ctx.settings.ollama,
                    raw_description_spec(g, s, t),
                    request,
                )
            } else {
                proceed_spec(ctx, source, target, identifier, raw_description_spec(g, s, t), r)
            }
        },
    })
    &&& (event matches PipelineEvent::SummaryReply { result } ==> match result {
        Result::Err(e) => r.0 == (PipelineState::Failed { error: e }) && r.1 is Idle,
        Result::Ok(text) => proceed_spec(ctx, source, target, identifier, text@, r),
    })
    &&& (event matches PipelineEvent::DispatchReply { result } ==> match result {
        Result::Err(e) => r.0 == (PipelineState::Failed { error: e }) && r.1 is Idle,
        Result::Ok(url) => r.0 == (PipelineState::Done { outcome: Outcome::Created { url } })
            && r.1 is Idle,
    })
}

/// Finishes a description body and decides how the run goes on: a dry run
/// stops here; otherwise the one platform call is planned.
fn proceed(
    ctx: &Context,
    source: &str,
    target: &str,
    identifier: &Option<String>,
    body: String,
) -> (r: (PipelineState, PipelineAction))
    ensures
        proceed_spec(*ctx, source@, target@, *identifier, body@, r),
{
    let desc = finalize_description(body);
    if ctx.settings.shipit.dryrun {
        (PipelineState::Done { outcome: Outcome::DryRun { description: desc } },
            PipelineAction::Idle)
    } else {
        match identifier {
            None => (PipelineState::Failed { error: ShipItError::ConfigurationError },
                PipelineAction::Idle),
            Some(id) => match build_dispatch(&ctx.settings, id.as_str(), source, target, desc) {
                Ok(plan) => (PipelineState::AwaitingDispatch,
                    PipelineAction::CallPlatform { plan }),
                Err(e) => (PipelineState::Failed { error: e }, PipelineAction::Idle),
            },
        }
    }
}

/// One transition of the pipeline. The caller performs the returned action,
/// if any, and feeds its outcome back in as the next event.
pub fn step(
    ctx: &Context,
    source: &str,
    target: &str,
    identifier: &Option<String>,
    state: PipelineState,
    event: PipelineEvent,
) -> (r: (PipelineState, PipelineAction))
    requires
        state_accepts(state, event),
        event_wf(event),
    ensures
        step_spec(*ctx, source@, target@, *identifier, state, event, r),
{
    match event {
        PipelineEvent::Resolved { result } => match result {
            Err(e) => (PipelineState::Failed { error: e }, PipelineAction::Idle),
            Ok(inp) => {
                let ghost g = inp.graph.commits@;
                let ghost s = inp.source_tip as int;
                let ghost t = inp.target_tip as int;
                match delta_walk(&inp.graph, inp.source_tip, inp.target_tip) {
                    Err(e) => (PipelineState::Failed { error: e }, PipelineAction::Idle),
                    Ok(records) => {
                        proof {
                            lemma_compose_records(g, delta_indices(g, s, t), records@);
                        }
                        match compose(&records) {
                            None => (PipelineState::Done { outcome: Outcome::NothingToDo },
                                PipelineAction::Idle),
                            Some(raw) => {
                                if ctx.settings.shipit.ai {
                                    let request = build_summarize_request(
                                        &ctx.settings.ollama,
                                        raw.as_str(),
                                    );
                                    (PipelineState::AwaitingSummary { raw },
                                        PipelineAction::CallSummarizer { request })
                                } else {
                                    proceed(ctx, source, target, identifier, raw)
                                }
                            },
                        }
                    },
                }
            },
        },
        PipelineEvent::SummaryReply { result } => match result {
            Err(e) => (PipelineState::Failed { error: e }, PipelineAction::Idle),
            Ok(text) => proceed(ctx, source, target, identifier, text),
        },
        PipelineEvent::DispatchReply { result } => match result {
            Err(e) => (PipelineState::Failed { error: e }, PipelineAction::Idle),
            Ok(url) => (PipelineState::Done { outcome: Outcome::Created { url } },
                PipelineAction::Idle),
        },
    }
}

/// When source and target point at one commit the pipeline reports nothing
/// to do — and places no call, to the summarizer or to any platform.
pub proof fn lemma_same_tip_nothing_to_do(
    ctx: Context,
    source: Seq<char>,
    target: Seq<char>,
    identifier: Option<String>,
    inp: ResolvedInputs,
    r: (PipelineState, PipelineAction),
)
    requires
        inp.wf(),
        inp.source_tip == inp.target_tip,
        step_spec(
            ctx,
            source,
            target,
            identifier,
            PipelineState::Resolving,
            PipelineEvent::Resolved { result: Ok(inp) },
            r,
        ),
    ensures
        r.0 == (PipelineState::Done { outcome: Outcome::NothingToDo }),
        r.1 is Idle,
{
    let g = inp.graph.commits@;
    let s = inp.source_tip as int;
    lemma_same_tip_empty_delta(g, s);
}

/// A dry run with AI off stops after composing: the outcome carries the
/// full description — every delta commit's text, then the trailer — and no
/// call of any kind is placed.
pub proof fn lemma_dry_run_stops(
    ctx: Context,
    source: Seq<char>,
    target: Seq<char>,
    identifier: Option<String>,
    inp: ResolvedInputs,
    r: (PipelineState, PipelineAction),
)
    requires
        inp.wf(),
        ctx.settings.shipit.dryrun,
        !ctx.settings.shipit.ai,
        delta_indices(inp.graph.commits@, inp.source_tip as int, inp.target_tip as int).len() > 0,
        forall|x: int|
            0 <= x < inp.graph.commits@.len() && #[trigger] in_delta(
                inp.graph.commits@,
                inp.source_tip as int,
                inp.target_tip as int,
                x,
            ) ==> inp.graph.commits@[x].message is Some,
        step_spec(
            ctx,
            source,
            target,
            identifier,
            PipelineState::Resolving,
            PipelineEvent::Resolved { result: Ok(inp) },
            r,
        ),
    ensures
        r.0 matches PipelineState::Done { outcome: Outcome::DryRun { description } }
            && description@ == raw_description_spec(
            inp.graph.commits@,
            inp.source_tip as int,
            inp.target_tip as int,
        ) + trailer(),
        r.1 is Idle,
{
}

} // verus!
