//! The templater plugin: it owns the step `templates.load`, which renders the
//! templates it names and appends one message for each to the context.

use vstd::prelude::*;
use crate::context::{ContextView, Message, MessageView, PipelineContext, RenderedTemplate, StepOutput};
use crate::engine::EnginePlugin;
use crate::error::{EngineError, ErrorView};
use crate::json::{Json, JsonObject, Members};
use crate::multipart::Multipart;
use crate::step::SerializedStep;

verus! {

/// A template before rendering: part name to template text.
pub struct PreRenderedTemplate(pub Multipart);

impl View for PreRenderedTemplate {
    type V = Map<Seq<char>, Seq<char>>;

    open spec fn view(&self) -> Map<Seq<char>, Seq<char>> {
        self.0@
    }
}

impl Clone for PreRenderedTemplate {
    fn clone(&self) -> (copy: PreRenderedTemplate)
        ensures
            copy@ == self@,
    {
        PreRenderedTemplate(self.0.clone())
    }
}

/// A stored template.
pub struct TemplateItem {
    pub id: u128,
    pub project_id: u128,
    pub channel: String,
    pub name: String,
    pub template: PreRenderedTemplate,
}

/// Which template a step asks for.
#[derive(Debug)]
pub enum TemplateSelector {
    /// The template of that name, for the context's project and channel.
    ByName(String),
    /// The template with that identifier.
    ById(u128),
}

/// A [`TemplateSelector`] by content.
pub enum SelectorView {
    ByName(Seq<char>),
    ById(u128),
}

impl View for TemplateSelector {
    type V = SelectorView;

    open spec fn view(&self) -> SelectorView {
        match *self {
            TemplateSelector::ByName(name) => SelectorView::ByName(name@),
            TemplateSelector::ById(id) => SelectorView::ById(id),
        }
    }
}

impl Clone for TemplateSelector {
    fn clone(&self) -> (copy: TemplateSelector)
        ensures
            copy@ == self@,
    {
        match self {
            TemplateSelector::ByName(name) => TemplateSelector::ByName(name.clone()),
            TemplateSelector::ById(id) => TemplateSelector::ById(*id),
        }
    }
}

/// A list of selectors, by content.
pub open spec fn selectors_view(selectors: Seq<TemplateSelector>) -> Seq<SelectorView> {
    selectors.map_values(|s: TemplateSelector| s@)
}

/// The selector that a JSON value stands for: an object with a text member
/// `name` selects by name; one without it and with a text member `id` that
/// reads as an identifier selects by identifier; nothing else is a selector.
pub open spec fn parsed_selector(value: Json) -> Option<SelectorView> {
    match value {
        Json::Object(members) => match crate::json::text_member(members, "name"@) {
            Some(name) => Some(SelectorView::ByName(name)),
            None => match crate::json::text_member(members, "id"@) {
                Some(text) => match crate::ids::parsed_id(text) {
                    Some(id) => Some(SelectorView::ById(id)),
                    None => None,
                },
                None => None,
            },
        },
        _ => None,
    }
}

/// The JSON form of a selector: `{"name": ..}` or `{"id": ..}`, the
/// identifier in its hyphenated text form.
pub open spec fn selector_json(selector: SelectorView) -> Json {
    match selector {
        SelectorView::ByName(name) => Json::Object(
            Members::empty().insert("name"@, Json::Text(name)),
        ),
        SelectorView::ById(id) => Json::Object(
            Members::empty().insert("id"@, Json::Text(crate::ids::hyphenated(id))),
        ),
    }
}

impl TemplateSelector {
    /// Reads a selector from its JSON form.
    pub fn from_json(value: &serde_json::Value) -> (read: Result<TemplateSelector, EngineError>)
        ensures
            match read {
                Ok(selector) => parsed_selector(crate::json::value_model(*value)) == Some(
                    selector@,
                ),
                Err(e) => parsed_selector(crate::json::value_model(*value)) is None && e@
                    == ErrorView::InvalidStep,
            },
    {
        let object = match crate::json::as_object(value) {
            Some(object) => object,
            None => {
                return Err(EngineError::InvalidStep);
            },
        };
        if let Some(name) = crate::json::object_text(object, "name") {
            return Ok(TemplateSelector::ByName(name.to_owned()));
        }
        if let Some(text) = crate::json::object_text(object, "id") {
            if let Some(id) = crate::ids::parse_id(text) {
                return Ok(TemplateSelector::ById(id));
            }
        }
        Err(EngineError::InvalidStep)
    }

    /// The JSON form of the selector. Reading it back gives the selector.
    pub fn to_json(&self) -> (value: serde_json::Value)
        ensures
            crate::json::value_model(value) == selector_json(self@),
            parsed_selector(crate::json::value_model(value)) == Some(self@),
    {
        let mut object = crate::json::object_new();
        match self {
            TemplateSelector::ByName(name) => {
                crate::json::object_insert(
                    &mut object,
                    "name".to_owned(),
                    crate::json::text_value(name.clone()),
                );
            },
            TemplateSelector::ById(id) => {
                proof {
                    reveal_strlit("name");
                    reveal_strlit("id");
                    assert("name"@.len() != "id"@.len());
                }
                crate::json::object_insert(
                    &mut object,
                    "id".to_owned(),
                    crate::json::text_value(crate::ids::id_text(*id)),
                );
            },
        }
        crate::json::object_value(object)
    }
}

/// The steps of the templater.
#[derive(Debug)]
pub enum Step {
    /// `templates.load`: render these templates, in this order.
    Load { templates: Vec<TemplateSelector> },
}

/// A [`Step`] by content.
pub enum StepView {
    Load { templates: Seq<SelectorView> },
}

impl View for Step {
    type V = StepView;

    open spec fn view(&self) -> StepView {
        match *self {
            Step::Load { templates } => StepView::Load { templates: selectors_view(templates@) },
        }
    }
}

/// The selectors that a list of JSON values stands for, if each of them is a
/// selector.
pub open spec fn parsed_selectors(items: Seq<Json>) -> Option<Seq<SelectorView>> {
    if forall|i: int| 0 <= i < items.len() ==> parsed_selector(#[trigger] items[i]) is Some {
        Some(items.map_values(|item: Json| parsed_selector(item)->0))
    } else {
        None
    }
}

/// The step that a serialized step stands for: its kind is `templates.load`
/// and its member `templates` is an array of selectors. Other members are
/// not looked at.
pub open spec fn parsed_step(step: Members) -> Option<StepView> {
    if crate::step::kind_of(step) == Some("templates.load"@) && step.contains_key("templates"@) {
        match step["templates"@] {
            Json::Array(items) => match parsed_selectors(items) {
                Some(templates) => Some(StepView::Load { templates }),
                None => None,
            },
            _ => None,
        }
    } else {
        None
    }
}

/// The serialized form of a step.
pub open spec fn serialized_step(step: StepView) -> Members {
    match step {
        StepView::Load { templates } => Members::empty().insert(
            "step"@,
            Json::Text("templates.load"@),
        ).insert("templates"@, Json::Array(templates.map_values(|s: SelectorView| selector_json(s)))),
    }
}

impl Step {
    /// Reads the step from its serialized form; `InvalidStep` where that is
    /// no step of the templater.
    pub fn parse(step: &SerializedStep) -> (read: Result<Step, EngineError>)
        ensures
            match read {
                Ok(s) => parsed_step(step@) == Some(s@),
                Err(e) => parsed_step(step@) is None && e@ == ErrorView::InvalidStep,
            },
    {
        if !step.get_type().eq("templates.load") {
            return Err(EngineError::InvalidStep);
        }
        let items = match step.member("templates") {
            Some(value) => match crate::json::as_array(value) {
                Some(items) => items,
                None => {
                    return Err(EngineError::InvalidStep);
                },
            },
            None => {
                return Err(EngineError::InvalidStep);
            },
        };
        let ghost models = crate::json::values_model(items@);
        let mut templates: Vec<TemplateSelector> = Vec::new();
        let mut i: usize = 0;
        while i < items.len()
            invariant
                i <= items.len(),
                templates.len() == i,
                models == crate::json::values_model(items@),
                crate::step::kind_of(step@) == Some("templates.load"@),
                step@.contains_key("templates"@),
                step@["templates"@] == Json::Array(models),
                forall|j: int| 0 <= j < i ==> parsed_selector(#[trigger] models[j]) == Some(templates[j]@),
            decreases items.len() - i,
        {
            assert(models[i as int] == crate::json::value_model(items[i as int]));
            match TemplateSelector::from_json(&items[i]) {
                Ok(selector) => {
                    templates.push(selector);
                },
                Err(e) => {
                    assert(parsed_selector(models[i as int]) is None);
                    return Err(e);
                },
            }
            i += 1;
        }
        assert(selectors_view(templates@) =~= models.map_values(
            |item: Json| parsed_selector(item)->0,
        ));
        Ok(Step::Load { templates })
    }

    /// The serialized form of the step. Reading it back gives the step.
    pub fn to_serialized(&self) -> (made: SerializedStep)
        ensures
            made@ == serialized_step(self@),
            parsed_step(made@) == Some(self@),
    {
        match self {
            Step::Load { templates } => {
                let mut items: Vec<serde_json::Value> = Vec::new();
                let mut i: usize = 0;
                while i < templates.len()
                    invariant
                        i <= templates.len(),
                        items.len() == i,
                        forall|j: int|
                            0 <= j < i ==> crate::json::value_model(#[trigger] items[j])
                                == selector_json(templates[j]@) && parsed_selector(
                                crate::json::value_model(items[j]),
                            ) == Some(templates[j]@),
                    decreases templates.len() - i,
                {
                    items.push(templates[i].to_json());
                    i += 1;
                }
                let ghost models = crate::json::values_model(items@);
                proof {
                    reveal_strlit("step");
                    reveal_strlit("templates");
                    assert("step"@.len() != "templates"@.len());
                    assert(models =~= selectors_view(templates@).map_values(
                        |s: SelectorView| selector_json(s),
                    ));
                    assert forall|j: int| 0 <= j < models.len() implies parsed_selector(
                        #[trigger] models[j],
                    ) == Some(templates[j]@) by {
                        assert(models[j] == crate::json::value_model(items[j]));
                    }
                    assert(models.map_values(|item: Json| parsed_selector(item)->0)
                        =~= selectors_view(templates@));
                }
                let mut object = crate::json::object_new();
                crate::json::object_insert(
                    &mut object,
                    "step".to_owned(),
                    crate::json::text_value("templates.load".to_owned()),
                );
                crate::json::object_insert(
                    &mut object,
                    "templates".to_owned(),
                    crate::json::array_value(items),
                );
                match SerializedStep::new(object) {
                    Ok(made) => made,
                    Err(_) => vstd::pervasive::unreached(),
                }
            },
        }
    }
}

/// Why a template could not be had or rendered.
#[derive(Debug)]
pub enum TemplaterError {
    /// The source holds no such template.
    TemplateNotFound,
    /// A part of the template did not render.
    Render,
    /// The source's storage failed; the text says how.
    Storage(String),
}

impl TemplaterError {
    /// The error as the engine reports it.
    pub open spec fn engine_view(&self) -> ErrorView {
        match *self {
            TemplaterError::TemplateNotFound => ErrorView::TemplateNotFound,
            TemplaterError::Render => ErrorView::TemplateRender,
            TemplaterError::Storage(detail) => ErrorView::Storage(detail@),
        }
    }

    /// The error as the engine reports it.
    pub fn into_engine_error(self) -> (e: EngineError)
        ensures
            e@ == self.engine_view(),
    {
        match self {
            TemplaterError::TemplateNotFound => EngineError::TemplateNotFound,
            TemplaterError::Render => EngineError::TemplateRender,
            TemplaterError::Storage(detail) => EngineError::Storage(detail),
        }
    }
}

/// What a template source offered, by content, an error as the engine
/// reports it.
pub open spec fn offer_view(offer: Result<PreRenderedTemplate, TemplaterError>) -> Result<
    Map<Seq<char>, Seq<char>>,
    ErrorView,
> {
    match offer {
        Ok(template) => Ok(template@),
        Err(e) => Err(e.engine_view()),
    }
}

/// Where templates come from.
///
/// A source may say in `offers` what it can give for a request; the
/// templater's contract is stated over that. A source that does not say
/// leaves every offer open.
pub trait TemplateSource: Send + Sync + 'static {
    /// Whether the source may give `offer` when asked for the template that
    /// `selector` selects for `project_id` and `channel`.
    open spec fn offers(
        &self,
        project_id: u128,
        channel: Seq<char>,
        selector: SelectorView,
        offer: Result<Map<Seq<char>, Seq<char>>, ErrorView>,
    ) -> bool {
        true
    }

    /// The template that `template` selects for `project_id` and `channel`.
    fn get_template(&self, project_id: u128, channel: &str, template: TemplateSelector) -> (offer:
        Result<PreRenderedTemplate, TemplaterError>)
        ensures
            self.offers(project_id, channel@, template@, offer_view(offer)),
    ;
}

/// What a template is rendered against: the event's context, and under the
/// reserved key `_` an object with the identifiers of the message and of the
/// notification, both as text.
pub open spec fn enriched(event_context: Members, message_id: u128, notification_id: u128) -> Members {
    event_context.insert(
        "_"@,
        Json::Object(
            Members::empty().insert(
                "message_id"@,
                Json::Text(crate::ids::hyphenated(message_id)),
            ).insert("notification_id"@, Json::Text(crate::ids::hyphenated(notification_id))),
        ),
    )
}

/// The rendering of a template: each part rendered on its own against
/// `context`. There is none if a part does not render.
pub open spec fn render_all(template: Map<Seq<char>, Seq<char>>, context: Members) -> Option<
    Map<Seq<char>, Seq<char>>,
> {
    if forall|k: Seq<char>| #[trigger]
        template.contains_key(k) ==> crate::render::rendered(template[k], context) is Some {
        Some(
            Map::new(
                |k: Seq<char>| template.contains_key(k),
                |k: Seq<char>| crate::render::rendered(template[k], context)->0,
            ),
        )
    } else {
        None
    }
}

/// The message that `template` gives in a run that reads `context`: its
/// content is the rendering of the template against the enriched context.
/// There is none if a part does not render.
pub open spec fn message_from(
    context: ContextView,
    message_id: u128,
    template: Map<Seq<char>, Seq<char>>,
) -> Option<MessageView> {
    match render_all(
        template,
        enriched(context.event_context, message_id, context.notification_id),
    ) {
        Some(content) => Some(MessageView { id: message_id, content }),
        None => None,
    }
}

/// Whether `message` is what loading the template that `selector` selects
/// may give in a run that reads `context`: the source offers a template, and
/// the message is what that template gives.
pub open spec fn loaded<S: TemplateSource>(
    source: S,
    context: ContextView,
    selector: SelectorView,
    message: MessageView,
) -> bool {
    exists|template: Map<Seq<char>, Seq<char>>|
        source.offers(
            context.project_id,
            context.channel,
            selector,
            Ok::<Map<Seq<char>, Seq<char>>, ErrorView>(template),
        ) && #[trigger] message_from(context, message.id, template) == Some(message)
}

/// Whether loading the template that `selector` selects may fail with `e` in
/// a run that reads `context`: the source gives that error in place of the
/// template, or it offers a template of which a part does not render and the
/// error is `TemplateRender`.
pub open spec fn load_fails<S: TemplateSource>(
    source: S,
    context: ContextView,
    selector: SelectorView,
    e: ErrorView,
) -> bool {
    ||| source.offers(
        context.project_id,
        context.channel,
        selector,
        Err::<Map<Seq<char>, Seq<char>>, ErrorView>(e),
    )
    ||| e == ErrorView::TemplateRender && exists|template: Map<Seq<char>, Seq<char>>, id: u128|
        source.offers(
            context.project_id,
            context.channel,
            selector,
            Ok::<Map<Seq<char>, Seq<char>>, ErrorView>(template),
        ) && #[trigger] message_from(context, id, template) is None
}

/// Whether a `templates.load` step with these selectors may take a context
/// from `before` to `after` with `output`. Nothing but the messages changes,
/// and the old messages stay in front. Behind them stands one message for
/// each selector, in the selectors' order, up to the first template that
/// cannot be had or rendered: with such a template the step fails with its
/// error, and without one it returns `Continue`.
pub open spec fn loads<S: TemplateSource>(
    source: S,
    templates: Seq<SelectorView>,
    before: ContextView,
    after: ContextView,
    output: Result<StepOutput, ErrorView>,
) -> bool {
    let base = before.messages.len() as int;
    &&& after == ContextView { messages: after.messages, ..before }
    &&& base <= after.messages.len() <= base + templates.len()
    &&& after.messages.take(base) == before.messages
    &&& forall|i: int|
        0 <= i < after.messages.len() - base ==> loaded(
            source,
            before,
            #[trigger] templates[i],
            after.messages[base + i],
        )
    &&& match output {
        Ok(o) => o == StepOutput::Continue && after.messages.len() == base + templates.len(),
        Err(e) => after.messages.len() < base + templates.len() && load_fails(
            source,
            before,
            templates[after.messages.len() - base],
            e,
        ),
    }
}

/// The templater plugin.
pub struct Templater<S: TemplateSource> {
    source: S,
}

impl<S: TemplateSource> Templater<S> {
    /// A templater that takes its templates from `source`.
    pub fn new(source: S) -> (templater: Templater<S>)
        ensures
            templater.source() == source,
    {
        Templater { source }
    }

    /// The source of this templater.
    pub closed spec fn source(&self) -> S {
        self.source
    }

    /// The context against which the parts of one message are rendered.
    pub fn enrich(event_context: &JsonObject, message_id: u128, notification_id: u128) -> (made:
        JsonObject)
        ensures
            crate::json::object_model(made) == enriched(
                crate::json::object_model(*event_context),
                message_id,
                notification_id,
            ),
    {
        let mut made = crate::json::object_clone(event_context);
        let mut ids = crate::json::object_new();
        crate::json::object_insert(
            &mut ids,
            "message_id".to_owned(),
            crate::json::text_value(crate::ids::id_text(message_id)),
        );
        crate::json::object_insert(
            &mut ids,
            "notification_id".to_owned(),
            crate::json::text_value(crate::ids::id_text(notification_id)),
        );
        crate::json::object_insert(&mut made, "_".to_owned(), crate::json::object_value(ids));
        made
    }

    /// Renders every part of `template` against `context`. The first part
    /// that does not render ends it with `Render`.
    pub fn render_template(template: &PreRenderedTemplate, context: &JsonObject) -> (done: Result<
        RenderedTemplate,
        TemplaterError,
    >)
        ensures
            match done {
                Ok(content) => render_all(template@, crate::json::object_model(*context)) == Some(
                    content@,
                ),
                Err(e) => render_all(template@, crate::json::object_model(*context)) is None && e
                    is Render,
            },
    {
        let ghost against = crate::json::object_model(*context);
        let parts = &template.0;
        let mut data = Multipart::new();
        let n = parts.len();
        let mut i: usize = 0;
        while i < n
            invariant
                i <= n,
                n == parts.names().len(),
                parts.consistent(),
                parts@ == template@,
                against == crate::json::object_model(*context),
                data.names() == parts.names().take(i as int),
                forall|k: Seq<char>|
                    data@.contains_key(k) <==> parts.names().take(i as int).contains(k),
                forall|k: Seq<char>| #[trigger]
                    data@.contains_key(k) ==> crate::render::rendered(parts@[k], against) == Some(
                        data@[k],
                    ),
            decreases n - i,
        {
            let ghost before = data.names();
            let ghost name = parts.names()[i as int];
            let source = parts.body_at(i);
            let text = match crate::render::render_str(source.as_str(), context) {
                Ok(text) => text,
                Err(_) => {
                    assert(template@.contains_key(name));
                    return Err(TemplaterError::Render);
                },
            };
            proof {
                if before.contains(name) {
                    let j = before.index_of(name);
                    assert(parts.names()[j] == name);
                }
                assert(parts.names().take(i + 1) =~= before.push(name));
            }
            data.insert(parts.name_at(i).clone(), text);
            proof {
                assert forall|k: Seq<char>| data@.contains_key(k) <==> parts.names().take(
                    i + 1,
                ).contains(k) by {
                    if before.contains(k) {
                        let j = before.index_of(k);
                        assert(before.push(name)[j] == k);
                    }
                    if before.push(name).contains(k) && k != name {
                        let j = before.push(name).index_of(k);
                        assert(before[j] == k);
                    }
                    assert(before.push(name)[i as int] == name);
                }
            }
            i += 1;
        }
        proof {
            assert(parts.names().take(n as int) =~= parts.names());
            assert forall|k: Seq<char>| #[trigger]
                template@.contains_key(k) implies crate::render::rendered(template@[k], against)
                is Some by {
                assert(data@.contains_key(k));
            }
            assert(data@ =~= render_all(template@, against)->0);
        }
        Ok(RenderedTemplate(data))
    }

    /// The message that `template` gives in the run of `context`, under the
    /// identifier `message_id`.
    pub fn render_message(context: &PipelineContext, message_id: u128, template: &PreRenderedTemplate) -> (done:
        Result<Message, TemplaterError>)
        ensures
            match done {
                Ok(message) => message_from(context@, message_id, template@) == Some(message@),
                Err(e) => message_from(context@, message_id, template@) is None && e is Render,
            },
    {
        let against = Self::enrich(&context.event_context.0, message_id, context.notification_id);
        match Self::render_template(template, &against) {
            Ok(content) => Ok(Message { id: message_id, content }),
            Err(e) => Err(e),
        }
    }
}

impl<S: TemplateSource> EnginePlugin for Templater<S> {
    /// A step that is no `templates.load` step leaves the context as it is
    /// and gives `InvalidStep`. Any other does what `loads` says.
    open spec fn step_effect(
        &self,
        before: ContextView,
        step: Members,
        after: ContextView,
        output: Result<StepOutput, ErrorView>,
    ) -> bool {
        match parsed_step(step) {
            Some(StepView::Load { templates }) => loads(
                self.source(),
                templates,
                before,
                after,
                output,
            ),
            None => after == before && output == Err::<StepOutput, ErrorView>(
                ErrorView::InvalidStep,
            ),
        }
    }

    /// For each selector in turn: draws a message identifier, asks the source
    /// for the template, renders it against the enriched context and appends
    /// the message. The first template that cannot be had or rendered ends
    /// the step with its error; the messages appended before it stay.
    fn execute_step(&self, context: &mut PipelineContext, step: &SerializedStep) -> (output:
        Result<StepOutput, EngineError>)
    {
        let templates = match Step::parse(step) {
            Ok(Step::Load { templates }) => templates,
            Err(e) => {
                return Err(e);
            },
        };
        let ghost before = context@;
        let ghost wanted = selectors_view(templates@);
        let ghost base = before.messages.len() as int;
        assert(context.messages@.take(context.messages@.len() as int) =~= context.messages@);
        let mut i: usize = 0;
        while i < templates.len()
            invariant
                i <= templates.len(),
                wanted == selectors_view(templates@),
                before == old(context)@,
                base == before.messages.len(),
                parsed_step(step@) == Some(StepView::Load { templates: wanted }),
                context@ == (ContextView { messages: context@.messages, ..before }),
                context@.messages.len() == base + i,
                context@.messages.take(base) == before.messages,
                forall|j: int|
                    0 <= j < i ==> loaded(
                        self.source(),
                        before,
                        #[trigger] wanted[j],
                        context@.messages[base + j],
                    ),
            decreases templates.len() - i,
        {
            assert(wanted[i as int] == templates[i as int]@);
            let message_id = crate::ids::fresh_id();
            let template = match self.source.get_template(
                context.project_id,
                context.channel.as_str(),
                templates[i].clone(),
            ) {
                Ok(template) => template,
                Err(e) => {
                    assert(load_fails(self.source(), before, wanted[i as int], e.engine_view()));
                    return Err(e.into_engine_error());
                },
            };
            let message = match Self::render_message(context, message_id, &template) {
                Ok(message) => message,
                Err(e) => {
                    assert(message_from(before, message_id, template@) is None);
                    assert(load_fails(self.source(), before, wanted[i as int], e.engine_view()));
                    return Err(e.into_engine_error());
                },
            };
            let ghost earlier = context@.messages;
            context.messages.push(message);
            proof {
                assert(context@.messages =~= earlier.push(message@));
                assert(context@.messages.take(base) =~= earlier.take(base));
                assert(message_from(before, message@.id, template@) == Some(message@));
                assert(loaded(self.source(), before, wanted[i as int], message@));
                assert forall|j: int| 0 <= j < i + 1 implies loaded(
                    self.source(),
                    before,
                    #[trigger] wanted[j],
                    context@.messages[base + j],
                ) by {
                    if j < i {
                        assert(context@.messages[base + j] == earlier[base + j]);
                    }
                }
            }
            i += 1;
        }
        Ok(StepOutput::Continue)
    }

    fn steps(&self) -> (ids: Vec<String>)
        ensures
            crate::text::texts(ids@) == seq!["templates.load"@],
    {
        let mut ids: Vec<String> = Vec::new();
        ids.push("templates.load".to_owned());
        assert(crate::text::texts(ids@) =~= seq!["templates.load"@]);
        ids
    }
}

/// A `templates.load` step that returns `Continue` leaves as many messages
/// more as it names templates; whatever it returns, the messages that were
/// there stay, in their places, and nothing else of the context changes.
pub proof fn lemma_load_appends<S: TemplateSource>(
    source: S,
    templates: Seq<SelectorView>,
    before: ContextView,
    after: ContextView,
    output: Result<StepOutput, ErrorView>,
)
    requires
        loads(source, templates, before, after, output),
    ensures
        output is Ok ==> after.messages.len() == before.messages.len() + templates.len(),
        output is Err ==> after.messages.len() < before.messages.len() + templates.len(),
        forall|i: int| 0 <= i < before.messages.len() ==> after.messages[i] == before.messages[i],
        after.step_number == before.step_number,
        after.plugin_contexts == before.plugin_contexts,
        after.event_context == before.event_context,
{
    assert forall|i: int| 0 <= i < before.messages.len() implies after.messages[i]
        == before.messages[i] by {
        assert(after.messages.take(before.messages.len() as int)[i] == after.messages[i]);
    }
}

} // verus!
