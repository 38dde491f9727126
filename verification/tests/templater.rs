use std::sync::{Arc, Mutex};

use notifico::context::{EventContext, PipelineContext, StepOutput};
use notifico::engine::EnginePlugin;
use notifico::error::EngineError;
use notifico::multipart::Multipart;
use notifico::step::SerializedStep;
use notifico::templater::{
    PreRenderedTemplate, Step, TemplateSelector, TemplateSource, Templater, TemplaterError,
};

fn text(s: &str) -> serde_json::Value {
    serde_json::Value::String(s.to_string())
}

fn object(members: Vec<(&str, serde_json::Value)>) -> serde_json::Map<String, serde_json::Value> {
    let mut object = serde_json::Map::new();
    for (k, v) in members {
        object.insert(k.to_string(), v);
    }
    object
}

fn by_name(name: &str) -> serde_json::Value {
    serde_json::Value::Object(object(vec![("name", text(name))]))
}

fn load_step(selectors: Vec<serde_json::Value>) -> SerializedStep {
    SerializedStep::new(object(vec![
        ("step", text("templates.load")),
        ("templates", serde_json::Value::Array(selectors)),
    ]))
    .unwrap()
}

fn template(parts: &[(&str, &str)]) -> PreRenderedTemplate {
    let mut m = Multipart::new();
    for (name, body) in parts {
        m.insert(name.to_string(), body.to_string());
    }
    PreRenderedTemplate(m)
}

fn context() -> PipelineContext {
    PipelineContext::new(
        1,
        2,
        "user.signup".to_string(),
        EventContext(object(vec![("name", text("Ada"))])),
        None,
        "telegram".to_string(),
        0x0123456789abcdef0123456789abcdef,
    )
}

/// Templates by name; every request is written down.
struct Shelf {
    asked: Arc<Mutex<Vec<String>>>,
}

impl TemplateSource for Shelf {
    fn get_template(
        &self,
        project_id: u128,
        channel: &str,
        selector: TemplateSelector,
    ) -> Result<PreRenderedTemplate, TemplaterError> {
        let name = match selector {
            TemplateSelector::ByName(name) => name,
            TemplateSelector::ById(id) => format!("#{}", id),
        };
        self.asked.lock().unwrap().push(format!("{}/{}/{}", project_id, channel, name));
        match name.as_str() {
            "welcome" => Ok(template(&[("body", "Hello, {{ name }}")])),
            "mail" => Ok(template(&[("subject", "Hi {{ name }}"), ("body", "Dear {{ name }}!")])),
            "ids" => Ok(template(&[("body", "{{ _.message_id }} {{ _.notification_id }}")])),
            "broken" => Ok(template(&[("subject", "fine"), ("body", "{{ name")])),
            "#7" => Ok(template(&[("body", "seven")])),
            "down" => Err(TemplaterError::Storage("no connection".to_string())),
            _ => Err(TemplaterError::TemplateNotFound),
        }
    }
}

fn templater() -> (Templater<Shelf>, Arc<Mutex<Vec<String>>>) {
    let asked = Arc::new(Mutex::new(Vec::new()));
    (Templater::new(Shelf { asked: asked.clone() }), asked)
}

#[test]
fn load_appends_one_message_for_each_template() {
    let (t, asked) = templater();
    let mut ctx = context();
    let out = t.execute_step(&mut ctx, &load_step(vec![by_name("welcome"), by_name("mail")])).unwrap();
    assert_eq!(out, StepOutput::Continue);
    assert_eq!(ctx.messages.len(), 2);
    assert_eq!(ctx.messages[0].content.0.get("body").unwrap(), "Hello, Ada");
    assert_eq!(ctx.messages[0].content.0.len(), 1);
    assert_eq!(ctx.messages[1].content.0.get("subject").unwrap(), "Hi Ada");
    assert_eq!(ctx.messages[1].content.0.get("body").unwrap(), "Dear Ada!");
    assert_eq!(ctx.messages[1].content.0.len(), 2);
    assert!(ctx.messages[0].id < ctx.messages[1].id);
    assert_eq!(*asked.lock().unwrap(), vec!["2/telegram/welcome", "2/telegram/mail"]);
    // a second step appends behind what is there
    let first = ctx.messages[0].id;
    t.execute_step(&mut ctx, &load_step(vec![by_name("welcome")])).unwrap();
    assert_eq!(ctx.messages.len(), 3);
    assert_eq!(ctx.messages[0].id, first);
    assert_eq!(ctx.messages[2].content.0.get("body").unwrap(), "Hello, Ada");
    // nothing else of the context has changed
    assert_eq!(ctx.step_number, 0);
    assert_eq!(ctx.channel, "telegram");
    assert!(ctx.plugin_contexts.is_empty());
}

#[test]
fn load_without_templates_appends_nothing() {
    let (t, asked) = templater();
    let mut ctx = context();
    assert_eq!(t.execute_step(&mut ctx, &load_step(vec![])).unwrap(), StepOutput::Continue);
    assert!(ctx.messages.is_empty());
    assert!(asked.lock().unwrap().is_empty());
}

#[test]
fn templates_see_the_identifiers_under_the_reserved_key() {
    let (t, _) = templater();
    let mut ctx = context();
    t.execute_step(&mut ctx, &load_step(vec![by_name("ids")])).unwrap();
    let id = uuid::Uuid::from_u128(ctx.messages[0].id).to_string();
    assert_eq!(
        ctx.messages[0].content.0.get("body").unwrap(),
        &format!("{} 01234567-89ab-cdef-0123-456789abcdef", id)
    );
}

#[test]
fn enrich_adds_the_identifiers_as_hyphenated_text() {
    let base = object(vec![("name", text("Ada")), ("_", text("overwritten"))]);
    let made = Templater::<Shelf>::enrich(&base, 0xffeeddccbbaa99887766554433221100, 1);
    assert_eq!(made.len(), 2);
    assert_eq!(made.get("name"), Some(&text("Ada")));
    let ids = made.get("_").unwrap().as_object().unwrap();
    assert_eq!(ids.len(), 2);
    assert_eq!(ids.get("message_id"), Some(&text("ffeeddcc-bbaa-9988-7766-554433221100")));
    assert_eq!(ids.get("notification_id"), Some(&text("00000000-0000-0000-0000-000000000001")));
    // the event's own context is left as it was
    assert_eq!(base.get("_"), Some(&text("overwritten")));
}

#[test]
fn render_error_stops_the_step() {
    let (t, _) = templater();
    let mut ctx = context();
    let step = load_step(vec![by_name("welcome"), by_name("broken"), by_name("mail")]);
    assert!(matches!(t.execute_step(&mut ctx, &step), Err(EngineError::TemplateRender)));
    // the message rendered before the failure stays
    assert_eq!(ctx.messages.len(), 1);
    assert_eq!(ctx.messages[0].content.0.get("body").unwrap(), "Hello, Ada");
}

#[test]
fn missing_template_stops_the_step() {
    let (t, asked) = templater();
    let mut ctx = context();
    let step = load_step(vec![by_name("nowhere"), by_name("welcome")]);
    assert!(matches!(t.execute_step(&mut ctx, &step), Err(EngineError::TemplateNotFound)));
    assert!(ctx.messages.is_empty());
    assert_eq!(asked.lock().unwrap().len(), 1);
}

#[test]
fn storage_error_of_the_source_is_passed_on() {
    let (t, _) = templater();
    let mut ctx = context();
    match t.execute_step(&mut ctx, &load_step(vec![by_name("down")])) {
        Err(EngineError::Storage(detail)) => assert_eq!(detail, "no connection"),
        _ => panic!("unexpected"),
    }
}

#[test]
fn step_of_another_shape_is_invalid() {
    let (t, asked) = templater();
    let mut ctx = context();
    let wrong_kind = SerializedStep::new(object(vec![
        ("step", text("templates.store")),
        ("templates", serde_json::Value::Array(vec![by_name("welcome")])),
    ]))
    .unwrap();
    let no_list = SerializedStep::new(object(vec![("step", text("templates.load"))])).unwrap();
    let not_a_list =
        SerializedStep::new(object(vec![("step", text("templates.load")), ("templates", by_name("welcome"))]))
            .unwrap();
    let bad_item = load_step(vec![by_name("welcome"), text("welcome")]);
    let bad_id = load_step(vec![serde_json::Value::Object(object(vec![("id", text("not-an-id"))]))]);
    for step in [wrong_kind, no_list, not_a_list, bad_item, bad_id] {
        assert!(matches!(t.execute_step(&mut ctx, &step), Err(EngineError::InvalidStep)));
        assert!(matches!(Step::parse(&step), Err(EngineError::InvalidStep)));
    }
    assert!(ctx.messages.is_empty());
    assert!(asked.lock().unwrap().is_empty());
}

#[test]
fn selector_by_identifier() {
    let (t, asked) = templater();
    let mut ctx = context();
    let id = serde_json::Value::Object(object(vec![(
        "id",
        text("00000000-0000-0000-0000-000000000007"),
    )]));
    t.execute_step(&mut ctx, &load_step(vec![id])).unwrap();
    assert_eq!(ctx.messages[0].content.0.get("body").unwrap(), "seven");
    assert_eq!(*asked.lock().unwrap(), vec!["2/telegram/#7"]);
}

#[test]
fn selector_with_a_name_selects_by_name() {
    let both = serde_json::Value::Object(object(vec![
        ("id", text("00000000-0000-0000-0000-000000000007")),
        ("name", text("welcome")),
    ]));
    match TemplateSelector::from_json(&both).unwrap() {
        TemplateSelector::ByName(name) => assert_eq!(name, "welcome"),
        _ => panic!("unexpected"),
    }
    // a name that is no text does not count
    let odd = serde_json::Value::Object(object(vec![
        ("id", text("00000000000000000000000000000009")),
        ("name", serde_json::Value::Bool(true)),
    ]));
    match TemplateSelector::from_json(&odd).unwrap() {
        TemplateSelector::ById(id) => assert_eq!(id, 9),
        _ => panic!("unexpected"),
    }
    assert!(matches!(
        TemplateSelector::from_json(&serde_json::Value::Null),
        Err(EngineError::InvalidStep)
    ));
    assert!(matches!(
        TemplateSelector::from_json(&serde_json::Value::Object(serde_json::Map::new())),
        Err(EngineError::InvalidStep)
    ));
}

#[test]
fn load_step_survives_serialization() {
    let step = Step::Load {
        templates: vec![
            TemplateSelector::ByName("welcome".to_string()),
            TemplateSelector::ById(0x0123456789abcdef0123456789abcdef),
            TemplateSelector::ByName(String::new()),
        ],
    };
    let serialized = step.to_serialized();
    assert_eq!(serialized.get_type(), "templates.load");
    let expected = object(vec![
        ("step", text("templates.load")),
        (
            "templates",
            serde_json::Value::Array(vec![
                by_name("welcome"),
                serde_json::Value::Object(object(vec![(
                    "id",
                    text("01234567-89ab-cdef-0123-456789abcdef"),
                )])),
                by_name(""),
            ]),
        ),
    ]);
    assert_eq!(serialized.as_object(), &expected);
    let Step::Load { templates } = Step::parse(&serialized).unwrap();
    assert_eq!(templates.len(), 3);
    assert!(matches!(&templates[0], TemplateSelector::ByName(n) if n == "welcome"));
    assert!(matches!(&templates[1], TemplateSelector::ById(id) if *id == 0x0123456789abcdef0123456789abcdef));
    assert!(matches!(&templates[2], TemplateSelector::ByName(n) if n.is_empty()));
}

#[test]
fn templater_owns_one_step() {
    let (t, _) = templater();
    assert_eq!(t.steps(), vec!["templates.load"]);
}

#[test]
fn render_template_renders_every_part() {
    let ctx = object(vec![("name", text("Ada")), ("n", serde_json::Value::Bool(true))]);
    let done = Templater::<Shelf>::render_template(
        &template(&[("subject", "{{ name|upper }}"), ("body", "{% if n %}yes{% else %}no{% endif %}"), ("plain", "")]),
        &ctx,
    )
    .unwrap();
    assert_eq!(done.0.len(), 3);
    assert_eq!(done.0.get("subject").unwrap(), "ADA");
    assert_eq!(done.0.get("body").unwrap(), "yes");
    assert_eq!(done.0.get("plain").unwrap(), "");
    assert!(done.0.get("other").is_none());
    assert!(matches!(
        Templater::<Shelf>::render_template(&template(&[("body", "{% if %}")]), &ctx),
        Err(TemplaterError::Render)
    ));
    let empty = Templater::<Shelf>::render_template(&template(&[]), &ctx).unwrap();
    assert_eq!(empty.0.len(), 0);
}

#[test]
fn render_message_keeps_the_identifier() {
    let ctx = context();
    let m = Templater::<Shelf>::render_message(&ctx, 42, &template(&[("body", "{{ _.message_id }}")]))
        .unwrap();
    assert_eq!(m.id, 42);
    assert_eq!(m.content.0.get("body").unwrap(), "00000000-0000-0000-0000-00000000002a");
}

#[test]
fn multipart_is_a_mapping() {
    let mut m = Multipart::new();
    assert_eq!(m.len(), 0);
    m.insert("subject".to_string(), "a".to_string());
    m.insert("body".to_string(), "b".to_string());
    m.insert("subject".to_string(), "c".to_string());
    assert_eq!(m.len(), 2);
    assert_eq!(m.get("subject").unwrap(), "c");
    assert_eq!(m.get("body").unwrap(), "b");
    assert!(m.get("Subject").is_none());
    assert_eq!(m.name_at(0), "subject");
    assert_eq!(m.body_at(0), "c");
    assert_eq!(m.name_at(1), "body");
    let copy = m.clone();
    m.insert("body".to_string(), "changed".to_string());
    assert_eq!(copy.get("body").unwrap(), "b");
    assert_eq!(copy.len(), 2);
}

#[test]
fn templater_errors_map_to_engine_errors() {
    assert!(matches!(TemplaterError::TemplateNotFound.into_engine_error(), EngineError::TemplateNotFound));
    assert!(matches!(TemplaterError::Render.into_engine_error(), EngineError::TemplateRender));
    assert!(matches!(
        TemplaterError::Storage("x".to_string()).into_engine_error(),
        EngineError::Storage(d) if d == "x"
    ));
}
