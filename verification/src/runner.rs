//! The pipeline runner: for one event, one run per matching pipeline, each
//! against a context of its own.
//!
//! The runs of one event are independent of each other, and no order among
//! them is promised. `process_event` makes them one after the other; a caller
//! that wants them side by side takes the tasks from `plan` and hands each to
//! `execute_pipeline`.

use vstd::prelude::*;
use crate::context::{ContextView, EventContext, PipelineContext, StepOutput};
use crate::engine::Engine;
use crate::error::{EngineError, ErrorView};
use crate::json::Members;
use crate::pipeline::{Pipeline, PipelineView};
use crate::recipient::{Recipient, RecipientView};

verus! {

/// How the request names its recipient.
#[derive(Debug)]
pub enum RecipientSelector {
    /// The recipient comes with the request.
    Recipient(Recipient),
}

/// The recipient that a selector stands for, by content.
pub open spec fn selected(selector: Option<RecipientSelector>) -> Option<RecipientView> {
    match selector {
        Some(RecipientSelector::Recipient(r)) => Some(r@),
        None => None,
    }
}

/// What a producer submits: what happened, in which project, to whom, and
/// the data that goes with it.
#[derive(Debug)]
pub struct ProcessEventRequest {
    pub id: u128,
    pub project_id: u128,
    pub event: String,
    pub recipient: Option<RecipientSelector>,
    pub context: EventContext,
}

impl ProcessEventRequest {
    /// A request with the defaults filled in: an event without an identifier
    /// gets a fresh time-ordered one, and one without a project belongs to
    /// the project with the nil identifier.
    pub fn new(
        id: Option<u128>,
        project_id: Option<u128>,
        event: String,
        recipient: Option<RecipientSelector>,
        context: EventContext,
    ) -> (request: ProcessEventRequest)
        ensures
            id matches Some(given) ==> request.id == given,
            request.project_id == match project_id {
                Some(given) => given,
                None => 0,
            },
            request.event@ == event@,
            selected(request.recipient) == selected(recipient),
            request.context@ == context@,
    {
        let id = match id {
            Some(given) => given,
            None => crate::ids::fresh_id(),
        };
        let project_id = match project_id {
            Some(given) => given,
            None => 0,
        };
        ProcessEventRequest { id, project_id, event, recipient, context }
    }
}

/// What a lookup of pipelines gave, by content.
pub open spec fn lookup_view(lookup: Result<Vec<Pipeline>, EngineError>) -> Result<
    Seq<PipelineView>,
    ErrorView,
> {
    match lookup {
        Ok(pipelines) => Ok(crate::pipeline::pipelines_view(pipelines@)),
        Err(e) => Err(e@),
    }
}

/// Where the pipelines of an event are looked up.
///
/// A storage may say in `finds` what a lookup can give; the runner's
/// contract is stated over that. A storage that does not say leaves every
/// result open.
pub trait PipelineStorage: Send + Sync {
    /// Whether the lookup of the pipelines of the event `event_name` of
    /// `project` may give `found`.
    open spec fn finds(
        &self,
        project: u128,
        event_name: Seq<char>,
        found: Result<Seq<PipelineView>, ErrorView>,
    ) -> bool {
        true
    }

    /// The pipelines configured for the event `event_name` of `project`.
    fn get_pipelines_for_event(&self, project: u128, event_name: &str) -> (found: Result<
        Vec<Pipeline>,
        EngineError,
    >)
        ensures
            self.finds(project, event_name@, lookup_view(found)),
    ;
}

/// How a pipeline run ended.
#[derive(Debug)]
pub enum PipelineOutcome {
    /// Every step from the context's step number on returned `Continue`.
    Completed,
    /// A step returned `Interrupt`; the steps after it were not executed.
    Interrupted,
    /// A step failed; the steps after it were not executed.
    Failed(EngineError),
}

/// A [`PipelineOutcome`] by content.
pub enum OutcomeView {
    Completed,
    Interrupted,
    Failed(ErrorView),
}

impl View for PipelineOutcome {
    type V = OutcomeView;

    open spec fn view(&self) -> OutcomeView {
        match *self {
            PipelineOutcome::Completed => OutcomeView::Completed,
            PipelineOutcome::Interrupted => OutcomeView::Interrupted,
            PipelineOutcome::Failed(e) => OutcomeView::Failed(e@),
        }
    }
}

/// A pipeline that is about to run, with the context made for it.
pub struct PipelineTask {
    pub pipeline: Pipeline,
    pub context: PipelineContext,
}

/// A pipeline run that has ended: the context as the last step left it, and
/// how the run ended.
pub struct PipelineReport {
    pub context: PipelineContext,
    pub outcome: PipelineOutcome,
}

/// Whether the loop, holding `before` when it comes to the step at `index`,
/// may hold `after` when it goes on to the next one. A step below the
/// context's step number is skipped. Any other is dispatched; the loop goes
/// on only after `Continue`, and then with the step number advanced.
pub open spec fn passes_step(
    engine: Engine,
    index: int,
    step: Members,
    before: ContextView,
    after: ContextView,
) -> bool {
    if index < before.step_number {
        after == before
    } else {
        exists|mid: ContextView| #[trigger]
            engine.dispatch(before, step, mid, Ok(StepOutput::Continue)) && after
                == crate::context::advanced(mid)
    }
}

/// Whether the loop, started with `start`, may hold `now` when it has gone
/// past the first `upto` steps.
pub open spec fn passes(
    engine: Engine,
    steps: Seq<Members>,
    start: ContextView,
    upto: int,
    now: ContextView,
) -> bool
    decreases upto,
{
    if upto <= 0 {
        now == start
    } else {
        exists|prev: ContextView|
            passes(engine, steps, start, upto - 1, prev) && #[trigger] passes_step(
                engine,
                upto - 1,
                steps[upto - 1],
                prev,
                now,
            )
    }
}

/// Whether the loop, holding `at` when it comes to the step at `index`, may
/// end there with `end` and `outcome`: the step is not skipped, and its
/// dispatch returns `Interrupt` or an error.
pub open spec fn stops_at(
    engine: Engine,
    index: int,
    step: Members,
    at: ContextView,
    end: ContextView,
    outcome: OutcomeView,
) -> bool {
    &&& index >= at.step_number
    &&& match outcome {
        OutcomeView::Completed => false,
        OutcomeView::Interrupted => engine.dispatch(at, step, end, Ok(StepOutput::Interrupt)),
        OutcomeView::Failed(e) => engine.dispatch(at, step, end, Err(e)),
    }
}

/// Whether a run of `steps` that starts with `start` may end with `end` and
/// `outcome`.
pub open spec fn runs(
    engine: Engine,
    steps: Seq<Members>,
    start: ContextView,
    end: ContextView,
    outcome: OutcomeView,
) -> bool {
    exists|i: int, at: ContextView|
        0 <= i <= steps.len() && #[trigger] passes(engine, steps, start, i, at) && if outcome
            == OutcomeView::Completed {
            i == steps.len() && end == at
        } else {
            i < steps.len() && stops_at(engine, i, steps[i], at, end, outcome)
        }
}

/// Whether `context` is one with which a run of `pipeline` for the given
/// event starts. The notification identifier is freshly drawn, so any is
/// admitted.
pub open spec fn starts_with(
    pipeline: PipelineView,
    event_id: u128,
    project_id: u128,
    event_name: Seq<char>,
    event_context: Members,
    recipient: Option<RecipientView>,
    context: ContextView,
) -> bool {
    context == crate::context::initial_context(
        event_id,
        project_id,
        event_name,
        event_context,
        recipient,
        pipeline.channel,
        context.notification_id,
    )
}

/// Whether `end` and `outcome` may come of a run of `pipeline` for the given
/// event. Nothing of another pipeline enters into it.
pub open spec fn reports(
    engine: Engine,
    pipeline: PipelineView,
    event_id: u128,
    project_id: u128,
    event_name: Seq<char>,
    event_context: Members,
    recipient: Option<RecipientView>,
    end: ContextView,
    outcome: OutcomeView,
) -> bool {
    exists|start: ContextView| #[trigger]
        starts_with(pipeline, event_id, project_id, event_name, event_context, recipient, start)
            && runs(engine, pipeline.steps, start, end, outcome)
}

/// A list of reports, by content.
pub open spec fn reports_view(list: Seq<PipelineReport>) -> Seq<(ContextView, OutcomeView)> {
    list.map_values(|r: PipelineReport| (r.context@, r.outcome@))
}

/// What processing an event gave, by content.
pub open spec fn done_view(done: Result<Vec<PipelineReport>, EngineError>) -> Result<
    Seq<(ContextView, OutcomeView)>,
    ErrorView,
> {
    match done {
        Ok(list) => Ok(reports_view(list@)),
        Err(e) => Err(e@),
    }
}

/// Whether processing an event may give `done` when the lookup of its
/// pipelines gave `found`. An error of the lookup is the answer as it is.
/// Else there is one report for each pipeline, in their order, and each is
/// what may come of a run of its pipeline; no pipeline means no report.
pub open spec fn processed(
    engine: Engine,
    found: Result<Seq<PipelineView>, ErrorView>,
    event_id: u128,
    project_id: u128,
    event_name: Seq<char>,
    event_context: Members,
    recipient: Option<RecipientView>,
    done: Result<Seq<(ContextView, OutcomeView)>, ErrorView>,
) -> bool {
    match found {
        Ok(pipelines) => {
            &&& done matches Ok(list) && list.len() == pipelines.len() && forall|i: int|
                0 <= i < list.len() ==> reports(
                    engine,
                    #[trigger] pipelines[i],
                    event_id,
                    project_id,
                    event_name,
                    event_context,
                    recipient,
                    list[i].0,
                    list[i].1,
                )
        },
        Err(e) => done == Err::<Seq<(ContextView, OutcomeView)>, ErrorView>(e),
    }
}

/// Whether processing an event with the pipelines of `storage` may give
/// `done`: it is what comes of a result that the lookup may give.
pub open spec fn processes<S: PipelineStorage>(
    storage: S,
    engine: Engine,
    event_id: u128,
    project_id: u128,
    event_name: Seq<char>,
    event_context: Members,
    recipient: Option<RecipientView>,
    done: Result<Seq<(ContextView, OutcomeView)>, ErrorView>,
) -> bool {
    exists|found: Result<Seq<PipelineView>, ErrorView>|
        storage.finds(project_id, event_name, found) && #[trigger] processed(
            engine,
            found,
            event_id,
            project_id,
            event_name,
            event_context,
            recipient,
            done,
        )
}

/// Runs the pipelines of an event.
pub struct PipelineRunner<S: PipelineStorage> {
    pipeline_storage: S,
    engine: Engine,
}

impl<S: PipelineStorage> PipelineRunner<S> {
    /// A runner that looks pipelines up in `pipeline_storage` and dispatches
    /// their steps with `engine`.
    pub fn new(pipeline_storage: S, engine: Engine) -> (runner: PipelineRunner<S>)
        ensures
            runner.engine() == engine,
            runner.storage() == pipeline_storage,
    {
        PipelineRunner { pipeline_storage, engine }
    }

    /// The runner's engine.
    pub closed spec fn engine(&self) -> Engine {
        self.engine
    }

    /// The runner's pipeline storage.
    pub closed spec fn storage(&self) -> S {
        self.pipeline_storage
    }

    /// Processes a request as `process_event` does.
    pub fn process_eventrequest(&self, msg: ProcessEventRequest) -> (done: Result<
        Vec<PipelineReport>,
        EngineError,
    >)
        ensures
            processes(
                self.storage(),
                self.engine(),
                msg.id,
                msg.project_id,
                msg.event@,
                msg.context@,
                selected(msg.recipient),
                done_view(done),
            ),
    {
        self.process_event(msg.id, msg.project_id, msg.event.as_str(), msg.context, msg.recipient)
    }

    /// Runs every pipeline that is configured for the event, each against a
    /// fresh context, and returns the reports of the runs. An error of the
    /// lookup is returned as it is; a pipeline that fails shows in its own
    /// report only and stops no other.
    pub fn process_event(
        &self,
        event_id: u128,
        project_id: u128,
        event_name: &str,
        event_context: EventContext,
        recipient_sel: Option<RecipientSelector>,
    ) -> (done: Result<Vec<PipelineReport>, EngineError>)
        ensures
            processes(
                self.storage(),
                self.engine(),
                event_id,
                project_id,
                event_name@,
                event_context@,
                selected(recipient_sel),
                done_view(done),
            ),
    {
        let lookup = self.pipeline_storage.get_pipelines_for_event(project_id, event_name);
        let ghost found = lookup_view(lookup);
        let done = Self::run_pipelines(
            &self.engine,
            lookup,
            event_id,
            project_id,
            event_name,
            event_context,
            recipient_sel,
        );
        assert(self.pipeline_storage.finds(project_id, event_name@, found) && processed(
            self.engine(),
            found,
            event_id,
            project_id,
            event_name@,
            event_context@,
            selected(recipient_sel),
            done_view(done),
        ));
        done
    }

    /// Makes the tasks for an event from what the lookup of its pipelines
    /// gave: one task for each pipeline, in their order, each with a context
    /// of its own that holds the event's data, the pipeline's channel and the
    /// contact resolved for it. An error of the lookup is returned as it is.
    pub fn plan(
        lookup: Result<Vec<Pipeline>, EngineError>,
        event_id: u128,
        project_id: u128,
        event_name: &str,
        event_context: EventContext,
        recipient_sel: Option<RecipientSelector>,
    ) -> (planned: Result<Vec<PipelineTask>, EngineError>)
        ensures
            match lookup {
                Ok(pipelines) => planned matches Ok(tasks) && tasks.len() == pipelines.len()
                    && forall|i: int|
                    0 <= i < tasks.len() ==> (#[trigger] tasks[i]).pipeline@ == pipelines[i]@
                        && starts_with(
                        pipelines[i]@,
                        event_id,
                        project_id,
                        event_name@,
                        event_context@,
                        selected(recipient_sel),
                        tasks[i].context@,
                    ),
                Err(e) => planned matches Err(same) && same@ == e@,
            },
    {
        let pipelines = match lookup {
            Ok(pipelines) => pipelines,
            Err(e) => {
                return Err(e);
            },
        };
        let recipient = match recipient_sel {
            None => None,
            Some(RecipientSelector::Recipient(recipient)) => Some(recipient),
        };
        let mut tasks: Vec<PipelineTask> = Vec::new();
        let mut i: usize = 0;
        while i < pipelines.len()
            invariant
                i <= pipelines.len(),
                tasks.len() == i,
                crate::recipient::recipient_view(recipient) == selected(recipient_sel),
                forall|j: int|
                    0 <= j < i ==> (#[trigger] tasks[j]).pipeline@ == pipelines[j]@ && starts_with(
                        pipelines[j]@,
                        event_id,
                        project_id,
                        event_name@,
                        event_context@,
                        selected(recipient_sel),
                        tasks[j].context@,
                    ),
            decreases pipelines.len() - i,
        {
            let pipeline = pipelines[i].clone();
            let context = Self::start_context(
                &pipeline,
                event_id,
                project_id,
                event_name,
                &event_context,
                &recipient,
            );
            tasks.push(PipelineTask { pipeline, context });
            i += 1;
        }
        Ok(tasks)
    }

    /// Runs the pipelines that the lookup gave, one after the other, each
    /// against the context that `plan` makes for it, and returns one report
    /// for each pipeline, in their order. No pipeline means no run and an
    /// empty list. An error of the lookup is returned as it is.
    pub fn run_pipelines(
        engine: &Engine,
        lookup: Result<Vec<Pipeline>, EngineError>,
        event_id: u128,
        project_id: u128,
        event_name: &str,
        event_context: EventContext,
        recipient_sel: Option<RecipientSelector>,
    ) -> (done: Result<Vec<PipelineReport>, EngineError>)
        ensures
            processed(
                *engine,
                lookup_view(lookup),
                event_id,
                project_id,
                event_name@,
                event_context@,
                selected(recipient_sel),
                done_view(done),
            ),
    {
        let pipelines = match lookup {
            Ok(pipelines) => pipelines,
            Err(e) => {
                return Err(e);
            },
        };
        let recipient = match recipient_sel {
            None => None,
            Some(RecipientSelector::Recipient(recipient)) => Some(recipient),
        };
        let mut list: Vec<PipelineReport> = Vec::new();
        let mut i: usize = 0;
        while i < pipelines.len()
            invariant
                i <= pipelines.len(),
                list.len() == i,
                crate::recipient::recipient_view(recipient) == selected(recipient_sel),
                forall|j: int|
                    0 <= j < i ==> reports(
                        *engine,
                        #[trigger] pipelines[j]@,
                        event_id,
                        project_id,
                        event_name@,
                        event_context@,
                        selected(recipient_sel),
                        list[j].context@,
                        list[j].outcome@,
                    ),
            decreases pipelines.len() - i,
        {
            let mut context = Self::start_context(
                &pipelines[i],
                event_id,
                project_id,
                event_name,
                &event_context,
                &recipient,
            );
            let ghost start = context@;
            let outcome = Self::execute_pipeline(engine, &pipelines[i], &mut context);
            assert(starts_with(
                pipelines[i as int]@,
                event_id,
                project_id,
                event_name@,
                event_context@,
                selected(recipient_sel),
                start,
            ));
            list.push(PipelineReport { context, outcome });
            i += 1;
        }
        proof {
            let views = crate::pipeline::pipelines_view(pipelines@);
            let got = reports_view(list@);
            assert forall|j: int| 0 <= j < got.len() implies reports(
                *engine,
                #[trigger] views[j],
                event_id,
                project_id,
                event_name@,
                event_context@,
                selected(recipient_sel),
                got[j].0,
                got[j].1,
            ) by {
                assert(views[j] == pipelines[j]@);
            }
        }
        Ok(list)
    }

    /// The context with which a run of `pipeline` for the given event
    /// starts. Its notification identifier is freshly drawn.
    pub fn start_context(
        pipeline: &Pipeline,
        event_id: u128,
        project_id: u128,
        event_name: &str,
        event_context: &EventContext,
        recipient: &Option<Recipient>,
    ) -> (context: PipelineContext)
        ensures
            starts_with(
                pipeline@,
                event_id,
                project_id,
                event_name@,
                event_context@,
                crate::recipient::recipient_view(*recipient),
                context@,
            ),
    {
        let own_recipient = match recipient {
            Some(r) => Some(r.clone()),
            None => None,
        };
        PipelineContext::new(
            event_id,
            project_id,
            event_name.to_owned(),
            event_context.clone(),
            own_recipient,
            pipeline.channel.clone(),
            crate::ids::fresh_id(),
        )
    }

    /// Runs one pipeline. The steps are taken in their order. A step whose
    /// index is below the context's step number is skipped. Any other is
    /// dispatched: after `Continue` the step number is advanced and the loop
    /// goes on; after `Interrupt` or an error the loop ends there, with the
    /// context as the step left it.
    pub fn execute_pipeline(engine: &Engine, pipeline: &Pipeline, context: &mut PipelineContext) -> (outcome:
        PipelineOutcome)
        ensures
            runs(*engine, pipeline@.steps, old(context)@, final(context)@, outcome@),
    {
        let ghost steps = pipeline@.steps;
        let ghost start = context@;
        let mut i: usize = 0;
        while i < pipeline.steps.len()
            invariant
                i <= pipeline.steps.len(),
                steps == pipeline@.steps,
                steps.len() == pipeline.steps.len(),
                start == old(context)@,
                passes(*engine, steps, start, i as int, context@),
            decreases pipeline.steps.len() - i,
        {
            let ghost before = context@;
            assert(steps[i as int] == pipeline.steps[i as int]@);
            if i >= context.step_number {
                let output = engine.execute_step(context, &pipeline.steps[i]);
                match output {
                    Ok(StepOutput::Continue) => {
                        let ghost mid = context@;
                        context.advance();
                        assert(engine.dispatch(before, steps[i as int], mid, Ok(StepOutput::Continue))
                            && context@ == crate::context::advanced(mid));
                    },
                    Ok(StepOutput::Interrupt) => {
                        assert(stops_at(
                            *engine,
                            i as int,
                            steps[i as int],
                            before,
                            context@,
                            OutcomeView::Interrupted,
                        ));
                        return PipelineOutcome::Interrupted;
                    },
                    Err(e) => {
                        assert(stops_at(
                            *engine,
                            i as int,
                            steps[i as int],
                            before,
                            context@,
                            OutcomeView::Failed(e@),
                        ));
                        return PipelineOutcome::Failed(e);
                    },
                }
            }
            assert(passes_step(*engine, i as int, steps[i as int], before, context@));
            proof {
                lemma_passes_next(*engine, steps, start, i as int, before, context@);
            }
            i += 1;
        }
        PipelineOutcome::Completed
    }
}

/// A loop that has gone past `upto` steps and passes the next one has gone
/// past `upto + 1` steps.
pub proof fn lemma_passes_next(
    engine: Engine,
    steps: Seq<Members>,
    start: ContextView,
    upto: int,
    prev: ContextView,
    now: ContextView,
)
    requires
        0 <= upto,
        passes(engine, steps, start, upto, prev),
        passes_step(engine, upto, steps[upto], prev, now),
    ensures
        passes(engine, steps, start, upto + 1, now),
{
    assert(passes_step(engine, upto + 1 - 1, steps[upto + 1 - 1], prev, now));
}

/// Whether no step that `engine` dispatches changes the step number.
pub open spec fn keeps_step_number(engine: Engine) -> bool {
    forall|
        before: ContextView,
        step: Members,
        after: ContextView,
        output: Result<StepOutput, ErrorView>,
    | #[trigger]
        engine.dispatch(before, step, after, output) ==> after.step_number
            == before.step_number
}

/// The runner itself moves the step number by one after `Continue`, short of
/// the largest machine integer, and touches nothing else of the context.
pub proof fn lemma_advanced_by_one(context: ContextView)
    ensures
        context.step_number < usize::MAX ==> crate::context::advanced(context).step_number
            == context.step_number + 1,
        crate::context::advanced(context) == (ContextView {
            step_number: crate::context::advanced(context).step_number,
            ..context
        }),
{
}

/// Where the plugins leave the step number alone, passing one step leaves
/// it as it was if the step is skipped and makes it one greater if the step
/// is executed.
pub proof fn lemma_step_number_after_step(
    engine: Engine,
    index: int,
    step: Members,
    before: ContextView,
    after: ContextView,
)
    requires
        keeps_step_number(engine),
        passes_step(engine, index, step, before, after),
    ensures
        index < before.step_number ==> after == before,
        index >= before.step_number && before.step_number < usize::MAX ==> after.step_number
            == before.step_number + 1,
        after.step_number >= before.step_number,
{
    if index >= before.step_number {
        let mid = choose|mid: ContextView| #[trigger]
            engine.dispatch(before, step, mid, Ok(StepOutput::Continue)) && after
                == crate::context::advanced(mid);
        assert(mid.step_number == before.step_number);
    }
}

/// Where the plugins leave the step number alone, it never decreases while
/// the loop goes on.
pub proof fn lemma_step_number_never_decreases(
    engine: Engine,
    steps: Seq<Members>,
    start: ContextView,
    upto: int,
    now: ContextView,
)
    requires
        keeps_step_number(engine),
        passes(engine, steps, start, upto, now),
    ensures
        now.step_number >= start.step_number,
    decreases upto,
{
    if upto > 0 {
        let prev = choose|prev: ContextView|
            passes(engine, steps, start, upto - 1, prev) && #[trigger] passes_step(
                engine,
                upto - 1,
                steps[upto - 1],
                prev,
                now,
            );
        lemma_step_number_never_decreases(engine, steps, start, upto - 1, prev);
        lemma_step_number_after_step(engine, upto - 1, steps[upto - 1], prev, now);
    }
}

/// Where the plugins leave the step number alone, a run that ends with
/// `Interrupt` or an error ends with the step number that the loop held when
/// it came to that step: the loop does not advance it.
pub proof fn lemma_step_number_after_stop(
    engine: Engine,
    index: int,
    step: Members,
    at: ContextView,
    end: ContextView,
    outcome: OutcomeView,
)
    requires
        keeps_step_number(engine),
        stops_at(engine, index, step, at, end, outcome),
    ensures
        end.step_number == at.step_number,
{
}

/// Where the plugins leave the step number alone, a run ends with a step
/// number that is not below the one it started with.
pub proof fn lemma_run_keeps_order(
    engine: Engine,
    steps: Seq<Members>,
    start: ContextView,
    end: ContextView,
    outcome: OutcomeView,
)
    requires
        keeps_step_number(engine),
        runs(engine, steps, start, end, outcome),
    ensures
        end.step_number >= start.step_number,
{
    let (i, at) = choose|i: int, at: ContextView|
        0 <= i <= steps.len() && #[trigger] passes(engine, steps, start, i, at) && if outcome
            == OutcomeView::Completed {
            i == steps.len() && end == at
        } else {
            i < steps.len() && stops_at(engine, i, steps[i], at, end, outcome)
        };
    lemma_step_number_never_decreases(engine, steps, start, i, at);
}

/// A pipeline without steps ends as it started, and completed.
pub proof fn lemma_no_steps_no_change(
    engine: Engine,
    start: ContextView,
    end: ContextView,
    outcome: OutcomeView,
)
    requires
        runs(engine, Seq::<Members>::empty(), start, end, outcome),
    ensures
        end == start,
        outcome == OutcomeView::Completed,
{
}

/// An event without pipelines is processed with success and without a run:
/// the answer is the empty list of reports.
pub proof fn lemma_no_pipelines_no_runs(
    engine: Engine,
    event_id: u128,
    project_id: u128,
    event_name: Seq<char>,
    event_context: Members,
    recipient: Option<RecipientView>,
    done: Result<Seq<(ContextView, OutcomeView)>, ErrorView>,
)
    requires
        processed(
            engine,
            Ok(Seq::<PipelineView>::empty()),
            event_id,
            project_id,
            event_name,
            event_context,
            recipient,
            done,
        ),
    ensures
        done == Ok::<Seq<(ContextView, OutcomeView)>, ErrorView>(Seq::empty()),
{
    assert(done->Ok_0 =~= Seq::<(ContextView, OutcomeView)>::empty());
}

} // verus!
