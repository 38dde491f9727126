use std::sync::{Arc, Mutex};

use notifico::context::{EventContext, PipelineContext, StepOutput};
use notifico::engine::{Engine, EnginePlugin};
use notifico::error::EngineError;
use notifico::pipeline::Pipeline;
use notifico::recipient::{Contact, Recipient};
use notifico::runner::{
    PipelineOutcome, PipelineRunner, PipelineStorage, ProcessEventRequest, RecipientSelector,
};
use notifico::step::SerializedStep;

type Log = Arc<Mutex<Vec<String>>>;

fn step(kind: &str) -> SerializedStep {
    let mut object = serde_json::Map::new();
    object.insert("step".to_string(), serde_json::Value::String(kind.to_string()));
    SerializedStep::new(object).unwrap()
}

fn pipeline(channel: &str, kinds: &[&str]) -> Pipeline {
    Pipeline { channel: channel.to_string(), steps: kinds.iter().map(|k| step(k)).collect() }
}

fn event_context() -> EventContext {
    let mut object = serde_json::Map::new();
    object.insert("name".to_string(), serde_json::Value::String("Ada".to_string()));
    EventContext(object)
}

fn recipient() -> Recipient {
    Recipient {
        id: 77,
        contacts: vec![
            Contact { channel: "smtp".to_string(), address: "ada@example.com".to_string() },
            Contact { channel: "telegram".to_string(), address: "@ada".to_string() },
            Contact { channel: "telegram".to_string(), address: "@ada2".to_string() },
        ],
    }
}

fn fresh_context(channel: &str) -> PipelineContext {
    PipelineContext::new(1, 2, "user.signup".to_string(), event_context(), None, channel.to_string(), 3)
}

/// A plugin whose steps write into the log and answer as their name says.
struct Scripted {
    log: Log,
}

impl EnginePlugin for Scripted {
    fn execute_step(
        &self,
        context: &mut PipelineContext,
        step: &SerializedStep,
    ) -> Result<StepOutput, EngineError> {
        let kind = step.get_type().to_string();
        self.log.lock().unwrap().push(format!("{}@{}#{}", kind, context.channel, context.step_number));
        match kind.as_str() {
            "test.continue" => Ok(StepOutput::Continue),
            "test.interrupt" => Ok(StepOutput::Interrupt),
            "test.fail" => Err(EngineError::TemplateNotFound),
            "test.mark" => {
                context.plugin_contexts.insert(
                    "test".to_string(),
                    serde_json::Value::String(context.channel.clone()),
                );
                Ok(StepOutput::Continue)
            }
            "test.jump" => {
                context.step_number += 2;
                Ok(StepOutput::Continue)
            }
            _ => Err(EngineError::InvalidStep),
        }
    }

    fn steps(&self) -> Vec<String> {
        ["test.continue", "test.interrupt", "test.fail", "test.mark", "test.jump"]
            .iter()
            .map(|s| s.to_string())
            .collect()
    }
}

fn engine(log: &Log) -> Engine {
    let mut engine = Engine::new();
    engine.add_plugin(Scripted { log: log.clone() }).unwrap();
    engine
}

struct Fixed {
    pipelines: Vec<Pipeline>,
    asked: Log,
}

impl PipelineStorage for Fixed {
    fn get_pipelines_for_event(
        &self,
        project: u128,
        event_name: &str,
    ) -> Result<Vec<Pipeline>, EngineError> {
        self.asked.lock().unwrap().push(format!("{}/{}", project, event_name));
        Ok(self.pipelines.clone())
    }
}

struct Broken;

impl PipelineStorage for Broken {
    fn get_pipelines_for_event(&self, _: u128, _: &str) -> Result<Vec<Pipeline>, EngineError> {
        Err(EngineError::Storage("connection lost".to_string()))
    }
}

fn log() -> Log {
    Arc::new(Mutex::new(Vec::new()))
}

#[test]
fn event_without_pipelines_does_nothing() {
    let seen = log();
    let asked = log();
    let runner =
        PipelineRunner::new(Fixed { pipelines: vec![], asked: asked.clone() }, engine(&seen));
    let reports = runner
        .process_event(1, 2, "user.signup", event_context(), Some(RecipientSelector::Recipient(recipient())))
        .unwrap();
    assert!(reports.is_empty());
    assert!(seen.lock().unwrap().is_empty());
    assert_eq!(*asked.lock().unwrap(), vec!["2/user.signup"]);
}

#[test]
fn lookup_error_surfaces_to_the_caller() {
    let seen = log();
    let runner = PipelineRunner::new(Broken, engine(&seen));
    match runner.process_event(1, 2, "user.signup", event_context(), None) {
        Err(EngineError::Storage(detail)) => assert_eq!(detail, "connection lost"),
        other => panic!("unexpected: {}", other.is_ok()),
    }
    assert!(seen.lock().unwrap().is_empty());
}

#[test]
fn plan_passes_a_lookup_error_on() {
    let planned = PipelineRunner::<Broken>::plan(
        Err(EngineError::CredentialNotFound("a".to_string(), "b".to_string())),
        1,
        2,
        "e",
        event_context(),
        None,
    );
    match planned {
        Err(EngineError::CredentialNotFound(a, b)) => assert_eq!((a.as_str(), b.as_str()), ("a", "b")),
        _ => panic!("unexpected"),
    }
}

#[test]
fn each_pipeline_starts_with_a_context_of_its_own() {
    let tasks = PipelineRunner::<Broken>::plan(
        Ok(vec![pipeline("telegram", &["test.continue"]), pipeline("smtp", &[]), pipeline("sms", &[])]),
        10,
        20,
        "user.signup",
        event_context(),
        Some(RecipientSelector::Recipient(recipient())),
    )
    .unwrap();
    assert_eq!(tasks.len(), 3);
    let channels: Vec<&str> = tasks.iter().map(|t| t.context.channel.as_str()).collect();
    assert_eq!(channels, vec!["telegram", "smtp", "sms"]);
    for task in &tasks {
        let c = &task.context;
        assert_eq!(c.channel, task.pipeline.channel);
        assert_eq!(c.step_number, 0);
        assert_eq!(c.event_id, 10);
        assert_eq!(c.project_id, 20);
        assert_eq!(c.event_name, "user.signup");
        assert_eq!(c.event_context.0, event_context().0);
        assert_eq!(c.recipient.as_ref().unwrap().id, 77);
        assert!(c.plugin_contexts.is_empty());
        assert!(c.messages.is_empty());
    }
    // the contact is the first one on the pipeline's channel
    assert_eq!(tasks[0].context.contact.as_ref().unwrap().address, "@ada");
    assert_eq!(tasks[1].context.contact.as_ref().unwrap().address, "ada@example.com");
    // a recipient without a contact on the channel is no error at this stage
    assert!(tasks[2].context.contact.is_none());
    // notification identifiers are drawn anew for each pipeline, in time order
    assert!(tasks[0].context.notification_id < tasks[1].context.notification_id);
    assert!(tasks[1].context.notification_id < tasks[2].context.notification_id);
    assert_eq!(tasks[0].pipeline.steps.len(), 1);
}

#[test]
fn context_without_recipient_has_no_contact() {
    let c = fresh_context("telegram");
    assert!(c.recipient.is_none());
    assert!(c.contact.is_none());
    assert!(matches!(c.get_contact(), Err(EngineError::ContactNotSet)));
}

#[test]
fn mutation_in_one_pipeline_is_not_seen_by_another() {
    let seen = log();
    let runner = PipelineRunner::new(
        Fixed {
            pipelines: vec![
                pipeline("telegram", &["test.mark", "test.jump", "test.continue"]),
                pipeline("smtp", &["test.continue"]),
                pipeline("sms", &["test.mark"]),
            ],
            asked: log(),
        },
        engine(&seen),
    );
    let reports = runner.process_event(1, 2, "e", event_context(), None).unwrap();
    assert_eq!(reports.len(), 3);
    assert_eq!(
        reports[0].context.plugin_contexts.get("test"),
        Some(&serde_json::Value::String("telegram".to_string()))
    );
    assert!(reports[1].context.plugin_contexts.is_empty());
    assert_eq!(
        reports[2].context.plugin_contexts.get("test"),
        Some(&serde_json::Value::String("sms".to_string()))
    );
    assert_eq!(reports[1].context.step_number, 1);
    assert_eq!(reports[2].context.step_number, 1);
    for r in &reports {
        assert!(matches!(r.outcome, PipelineOutcome::Completed));
        assert_eq!(r.context.event_context.0, event_context().0);
    }
    let ids: Vec<u128> = reports.iter().map(|r| r.context.notification_id).collect();
    assert!(ids[0] != ids[1] && ids[1] != ids[2] && ids[0] != ids[2]);
}

#[test]
fn parallel_pipelines_each_run_to_their_end() {
    let seen = log();
    let runner = PipelineRunner::new(
        Fixed {
            pipelines: vec![
                pipeline("telegram", &["test.continue", "test.fail", "test.continue"]),
                pipeline("smtp", &["test.continue", "test.continue"]),
            ],
            asked: log(),
        },
        engine(&seen),
    );
    let reports = runner
        .process_eventrequest(ProcessEventRequest {
            id: 5,
            project_id: 6,
            event: "user.signup".to_string(),
            recipient: Some(RecipientSelector::Recipient(recipient())),
            context: event_context(),
        })
        .unwrap();
    assert_eq!(reports.len(), 2);
    assert!(matches!(reports[0].outcome, PipelineOutcome::Failed(EngineError::TemplateNotFound)));
    assert_eq!(reports[0].context.step_number, 1);
    assert_eq!(reports[0].context.channel, "telegram");
    assert_eq!(reports[0].context.event_id, 5);
    // the failure of the first pipeline does not touch the second
    assert!(matches!(reports[1].outcome, PipelineOutcome::Completed));
    assert_eq!(reports[1].context.step_number, 2);
    assert_eq!(reports[1].context.channel, "smtp");
    assert_eq!(reports[1].context.contact.as_ref().unwrap().address, "ada@example.com");
    assert_eq!(
        *seen.lock().unwrap(),
        vec![
            "test.continue@telegram#0",
            "test.fail@telegram#1",
            "test.continue@smtp#0",
            "test.continue@smtp#1"
        ]
    );
}

#[test]
fn step_number_grows_by_one_after_continue() {
    let seen = log();
    let engine = engine(&seen);
    let mut ctx = fresh_context("telegram");
    let p = pipeline("telegram", &["test.continue", "test.continue", "test.continue"]);
    let outcome = PipelineRunner::<Broken>::execute_pipeline(&engine, &p, &mut ctx);
    assert!(matches!(outcome, PipelineOutcome::Completed));
    assert_eq!(ctx.step_number, 3);
    assert_eq!(
        *seen.lock().unwrap(),
        vec!["test.continue@telegram#0", "test.continue@telegram#1", "test.continue@telegram#2"]
    );
}

#[test]
fn interrupt_ends_the_loop_without_error() {
    let seen = log();
    let engine = engine(&seen);
    let mut ctx = fresh_context("telegram");
    let p = pipeline("telegram", &["test.continue", "test.interrupt", "test.continue", "test.fail"]);
    let outcome = PipelineRunner::<Broken>::execute_pipeline(&engine, &p, &mut ctx);
    assert!(matches!(outcome, PipelineOutcome::Interrupted));
    // the interrupting step does not advance the step number
    assert_eq!(ctx.step_number, 1);
    assert_eq!(*seen.lock().unwrap(), vec!["test.continue@telegram#0", "test.interrupt@telegram#1"]);
}

#[test]
fn error_ends_the_loop_and_keeps_the_step_number() {
    let seen = log();
    let engine = engine(&seen);
    let mut ctx = fresh_context("telegram");
    let p = pipeline("telegram", &["test.fail", "test.continue"]);
    let outcome = PipelineRunner::<Broken>::execute_pipeline(&engine, &p, &mut ctx);
    assert!(matches!(outcome, PipelineOutcome::Failed(EngineError::TemplateNotFound)));
    assert_eq!(ctx.step_number, 0);
    assert_eq!(seen.lock().unwrap().len(), 1);
}

#[test]
fn unknown_step_fails_the_pipeline() {
    let seen = log();
    let engine = engine(&seen);
    let mut ctx = fresh_context("telegram");
    let p = pipeline("telegram", &["test.continue", "nobody.owns", "test.continue"]);
    match PipelineRunner::<Broken>::execute_pipeline(&engine, &p, &mut ctx) {
        PipelineOutcome::Failed(EngineError::PluginNotFound(s)) => assert_eq!(s.get_type(), "nobody.owns"),
        _ => panic!("unexpected"),
    }
    assert_eq!(ctx.step_number, 1);
}

#[test]
fn steps_before_the_step_number_are_skipped() {
    let seen = log();
    let engine = engine(&seen);
    let mut ctx = fresh_context("telegram");
    ctx.step_number = 2;
    let p = pipeline("telegram", &["test.fail", "test.interrupt", "test.continue", "test.continue"]);
    let outcome = PipelineRunner::<Broken>::execute_pipeline(&engine, &p, &mut ctx);
    assert!(matches!(outcome, PipelineOutcome::Completed));
    assert_eq!(ctx.step_number, 4);
    assert_eq!(*seen.lock().unwrap(), vec!["test.continue@telegram#2", "test.continue@telegram#3"]);
}

#[test]
fn step_number_beyond_the_pipeline_runs_nothing() {
    let seen = log();
    let engine = engine(&seen);
    let mut ctx = fresh_context("telegram");
    ctx.step_number = 10;
    let p = pipeline("telegram", &["test.fail", "test.continue"]);
    let outcome = PipelineRunner::<Broken>::execute_pipeline(&engine, &p, &mut ctx);
    assert!(matches!(outcome, PipelineOutcome::Completed));
    assert_eq!(ctx.step_number, 10);
    assert!(seen.lock().unwrap().is_empty());
}

#[test]
fn a_plugin_that_moves_the_step_number_skips_steps() {
    let seen = log();
    let engine = engine(&seen);
    let mut ctx = fresh_context("telegram");
    // the jump adds two, the loop adds one: the steps at 1 and 2 are skipped
    let p = pipeline("telegram", &["test.jump", "test.fail", "test.fail", "test.continue"]);
    let outcome = PipelineRunner::<Broken>::execute_pipeline(&engine, &p, &mut ctx);
    assert!(matches!(outcome, PipelineOutcome::Completed));
    assert_eq!(ctx.step_number, 4);
    assert_eq!(*seen.lock().unwrap(), vec!["test.jump@telegram#0", "test.continue@telegram#3"]);
}

#[test]
fn empty_pipeline_completes() {
    let seen = log();
    let engine = engine(&seen);
    let mut ctx = fresh_context("telegram");
    let outcome = PipelineRunner::<Broken>::execute_pipeline(&engine, &pipeline("telegram", &[]), &mut ctx);
    assert!(matches!(outcome, PipelineOutcome::Completed));
    assert_eq!(ctx.step_number, 0);
}

#[test]
fn advance_adds_one_and_stops_at_the_largest_number() {
    let mut ctx = fresh_context("telegram");
    ctx.advance();
    assert_eq!(ctx.step_number, 1);
    ctx.step_number = usize::MAX - 1;
    ctx.advance();
    assert_eq!(ctx.step_number, usize::MAX);
    ctx.advance();
    assert_eq!(ctx.step_number, usize::MAX);
    assert_eq!(ctx.channel, "telegram");
}

#[test]
fn step_without_a_kind_is_refused() {
    let mut object = serde_json::Map::new();
    object.insert("credential".to_string(), serde_json::Value::String("main".to_string()));
    assert!(matches!(SerializedStep::new(object.clone()), Err(EngineError::InvalidStep)));
    object.insert("step".to_string(), serde_json::Value::Bool(true));
    assert!(matches!(SerializedStep::new(object.clone()), Err(EngineError::InvalidStep)));
    object.insert("step".to_string(), serde_json::Value::String("telegram.send".to_string()));
    let step = SerializedStep::new(object).unwrap();
    assert_eq!(step.get_type(), "telegram.send");
    assert_eq!(step.member("credential"), Some(&serde_json::Value::String("main".to_string())));
    assert_eq!(step.member("missing"), None);
    let copy = step.clone();
    assert_eq!(copy.as_object(), step.as_object());
    assert_eq!(copy.as_object().len(), 2);
}
