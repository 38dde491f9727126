//! The Telegram transport: it owns the step `telegram.send`, which delivers
//! the `body` part of every message of the context to the recipient's
//! contact, with the bot whose credential the step names.

use vstd::prelude::*;
use crate::context::{ContextView, PipelineContext, RenderedTemplate};
use crate::credentials::CredentialStorage;
use crate::error::{EngineError, ErrorView};
use crate::json::{Json, Members};
use crate::recipient::{Contact, ContactView};
use crate::recorder::Recorder;
use crate::step::SerializedStep;
use crate::transport::{Delivery, DeliveryRecord, DeliveryView};

verus! {

/// The channel that this transport serves.
pub const CHANNEL_NAME: &'static str = "telegram";

/// The type under which bot credentials are stored.
pub const CREDENTIAL_TYPE: &'static str = "telegram_bot";

/// The credential of a bot.
#[derive(Debug)]
pub struct TelegramBotCredentials {
    pub token: String,
}

/// The credential that a stored payload stands for: an object with a text
/// member `token`.
pub open spec fn parsed_credentials(value: Json) -> Option<Seq<char>> {
    match value {
        Json::Object(members) => crate::json::text_member(members, "token"@),
        _ => None,
    }
}

impl TelegramBotCredentials {
    /// Reads the credential from a stored payload; `InvalidCredentialFormat`
    /// where the payload has another shape.
    pub fn from_value(value: &serde_json::Value) -> (read: Result<
        TelegramBotCredentials,
        EngineError,
    >)
        ensures
            match read {
                Ok(c) => parsed_credentials(crate::json::value_model(*value)) == Some(c.token@),
                Err(e) => parsed_credentials(crate::json::value_model(*value)) is None && e@
                    == ErrorView::InvalidCredentialFormat,
            },
    {
        let object = match crate::json::as_object(value) {
            Some(object) => object,
            None => {
                return Err(EngineError::InvalidCredentialFormat);
            },
        };
        match crate::json::object_text(object, "token") {
            Some(token) => Ok(TelegramBotCredentials { token: token.to_owned() }),
            None => Err(EngineError::InvalidCredentialFormat),
        }
    }
}

/// What Telegram gets of a message: the text of its `body` part.
#[derive(Debug)]
pub struct TelegramContent {
    pub body: String,
}

impl TelegramContent {
    /// The content of a rendered template, if it has a `body` part.
    pub fn try_from(value: RenderedTemplate) -> (content: Result<TelegramContent, ()>)
        ensures
            match content {
                Ok(c) => value@.contains_key("body"@) && c.body@ == value@["body"@],
                Err(_) => !value@.contains_key("body"@),
            },
    {
        match value.0.get("body") {
            Some(body) => Ok(TelegramContent { body: body.clone() }),
            None => Err(()),
        }
    }
}

/// The steps of the Telegram transport.
#[derive(Debug)]
pub enum Step {
    /// `telegram.send`: deliver the messages with the bot whose credential
    /// has this name.
    Send { credential: String },
}

/// A [`Step`] by content.
pub enum StepView {
    Send { credential: Seq<char> },
}

impl View for Step {
    type V = StepView;

    open spec fn view(&self) -> StepView {
        match *self {
            Step::Send { credential } => StepView::Send { credential: credential@ },
        }
    }
}

/// The step that a serialized step stands for.
pub open spec fn parsed_step(step: Members) -> Option<StepView> {
    match crate::transport::parsed_send(step, "telegram.send"@) {
        Some(credential) => Some(StepView::Send { credential }),
        None => None,
    }
}

/// The serialized form of a step.
pub open spec fn serialized_step(step: StepView) -> Members {
    match step {
        StepView::Send { credential } => crate::transport::serialized_send(
            "telegram.send"@,
            credential,
        ),
    }
}

impl Step {
    /// Reads the step from its serialized form; `InvalidStep` where that is
    /// no step of this transport.
    pub fn parse(step: &SerializedStep) -> (read: Result<Step, EngineError>)
        ensures
            match read {
                Ok(s) => parsed_step(step@) == Some(s@),
                Err(e) => parsed_step(step@) is None && e@ == ErrorView::InvalidStep,
            },
    {
        match crate::transport::parse_send(step, "telegram.send") {
            Ok(credential) => Ok(Step::Send { credential }),
            Err(e) => Err(e),
        }
    }

    /// The serialized form of the step. Reading it back gives the step.
    pub fn to_serialized(&self) -> (made: SerializedStep)
        ensures
            made@ == serialized_step(self@),
            parsed_step(made@) == Some(self@),
    {
        match self {
            Step::Send { credential } => crate::transport::serialize_send(
                "telegram.send",
                credential.as_str(),
            ),
        }
    }
}

/// A delivery by a bot: the bot's token, and the messages with their
/// bookkeeping.
pub struct TelegramDelivery {
    pub token: String,
    pub delivery: Delivery,
}

/// What is asked of the credential store for a send step: nothing where the
/// step or the addressee is at fault, and else the contact to deliver to and
/// the name of the credential to look up.
pub open spec fn checked(context: ContextView, step: Members) -> Result<
    (ContactView, Seq<char>),
    ErrorView,
> {
    match parsed_step(step) {
        None => Err(ErrorView::InvalidStep),
        Some(StepView::Send { credential }) => match crate::transport::addressed(context) {
            Err(e) => Err(e),
            Ok(contact) => Ok((contact, credential)),
        },
    }
}

/// What comes of a send step once the credential store has answered: the
/// store's error as it is, `InvalidCredentialFormat` for a payload of another
/// shape, and else the delivery of the context's messages with the bot's
/// token.
pub open spec fn planned(
    context: ContextView,
    contact: ContactView,
    answer: Result<Json, ErrorView>,
) -> Result<(Seq<char>, DeliveryView), ErrorView> {
    match answer {
        Err(e) => Err(e),
        Ok(value) => match parsed_credentials(value) {
            None => Err(ErrorView::InvalidCredentialFormat),
            Some(token) => Ok((token, crate::transport::delivery_of(context, contact))),
        },
    }
}

/// A delivery that was made, or the error in its place, by content.
pub open spec fn made_view(made: Result<TelegramDelivery, EngineError>) -> Result<
    (Seq<char>, DeliveryView),
    ErrorView,
> {
    match made {
        Ok(d) => Ok((d.token@, d.delivery@)),
        Err(e) => Err(e@),
    }
}

/// Whether `made` may come of preparing a send step with the credentials of
/// `store`: where a check fails, it is that check's error; else it is what
/// is planned from an answer of the store to the request for the credential
/// of type `telegram_bot` that the step names.
pub open spec fn prepared<C: CredentialStorage>(
    store: C,
    context: ContextView,
    step: Members,
    made: Result<(Seq<char>, DeliveryView), ErrorView>,
) -> bool {
    match checked(context, step) {
        Err(e) => made == Err::<(Seq<char>, DeliveryView), ErrorView>(e),
        Ok(found) => exists|answer: Result<Json, ErrorView>|
            store.answers(context.project_id, CREDENTIAL_TYPE@, found.1, answer) && made
                == #[trigger] planned(context, found.0, answer),
    }
}

/// The Telegram transport.
pub struct TelegramPlugin<C: CredentialStorage, R: Recorder> {
    credentials: C,
    recorder: R,
}

impl<C: CredentialStorage, R: Recorder> TelegramPlugin<C, R> {
    /// A transport that looks credentials up in `credentials` and writes its
    /// records to `recorder`.
    pub fn new(credentials: C, recorder: R) -> (plugin: TelegramPlugin<C, R>)
        ensures
            plugin.credentials() == credentials,
            plugin.recorder() == recorder,
    {
        TelegramPlugin { credentials, recorder }
    }

    /// The recorder of this transport.
    pub closed spec fn recorder(&self) -> R {
        self.recorder
    }

    /// The credential store of this transport.
    pub closed spec fn credentials(&self) -> C {
        self.credentials
    }

    /// The identifiers of the steps that this transport owns.
    pub fn steps(&self) -> (ids: Vec<String>)
        ensures
            crate::text::texts(ids@) == seq!["telegram.send"@],
    {
        let mut ids: Vec<String> = Vec::new();
        ids.push("telegram.send".to_owned());
        assert(crate::text::texts(ids@) =~= seq!["telegram.send"@]);
        ids
    }

    /// The checks that come before the credential is looked up: the step
    /// must be a send step, the context must name a recipient, and the
    /// recipient must have a contact. The answer is the contact and the name
    /// of the credential.
    pub fn check(context: &PipelineContext, step: &SerializedStep) -> (found: Result<
        (Contact, String),
        EngineError,
    >)
        ensures
            match found {
                Ok((contact, credential)) => checked(context@, step@) == Ok::<
                    (ContactView, Seq<char>),
                    ErrorView,
                >((contact@, credential@)),
                Err(e) => checked(context@, step@) == Err::<(ContactView, Seq<char>), ErrorView>(
                    e@,
                ),
            },
    {
        let credential = match Step::parse(step) {
            Ok(Step::Send { credential }) => credential,
            Err(e) => {
                return Err(e);
            },
        };
        match crate::transport::addressee(context) {
            Ok(contact) => Ok((contact, credential)),
            Err(e) => Err(e),
        }
    }

    /// Makes the delivery from what the credential store answered.
    pub fn plan(
        context: &PipelineContext,
        contact: Contact,
        answer: Result<serde_json::Value, EngineError>,
    ) -> (made: Result<TelegramDelivery, EngineError>)
        ensures
            made_view(made) == planned(context@, contact@, crate::credentials::answer_view(answer)),
    {
        let value = match answer {
            Ok(value) => value,
            Err(e) => {
                return Err(e);
            },
        };
        let credentials = match TelegramBotCredentials::from_value(&value) {
            Ok(credentials) => credentials,
            Err(e) => {
                return Err(e);
            },
        };
        Ok(TelegramDelivery { token: credentials.token, delivery: Delivery::begin(context, contact) })
    }

    /// Prepares the delivery for a send step: checks the step and the
    /// addressee, looks the credential up under the type `telegram_bot` and
    /// the name that the step gives, and makes the delivery. Where a check
    /// fails the store is not asked.
    pub fn prepare(&self, context: &PipelineContext, step: &SerializedStep) -> (made: Result<
        TelegramDelivery,
        EngineError,
    >)
        ensures
            prepared(self.credentials(), context@, step@, made_view(made)),
    {
        let (contact, credential) = match Self::check(context, step) {
            Ok(found) => found,
            Err(e) => {
                return Err(e);
            },
        };
        let answer = self.credentials.get_credential(
            context.project_id,
            CREDENTIAL_TYPE,
            credential.as_str(),
        );
        let ghost answered = crate::credentials::answer_view(answer);
        assert(self.credentials.answers(
            context.project_id,
            CREDENTIAL_TYPE@,
            credential@,
            answered,
        ));
        let ghost to = contact@;
        let made = Self::plan(context, contact, answer);
        assert(checked(context@, step@) == Ok::<(ContactView, Seq<char>), ErrorView>(
            (to, credential@),
        ));
        assert(made_view(made) == planned(context@, to, answered));
        made
    }

    /// Writes the record of one attempt to the recorder.
    pub fn record(&self, record: &DeliveryRecord)
        ensures
            self.recorder().takes(record@),
    {
        record.write_to(&self.recorder);
    }
}

/// A send step in a run without a recipient fails with `RecipientNotSet`,
/// whatever the credential store holds: the store is not asked.
pub proof fn lemma_recipient_comes_first<C: CredentialStorage>(
    store: C,
    context: ContextView,
    step: Members,
    made: Result<(Seq<char>, DeliveryView), ErrorView>,
)
    requires
        parsed_step(step) is Some,
        context.recipient is None,
        prepared(store, context, step, made),
    ensures
        made == Err::<(Seq<char>, DeliveryView), ErrorView>(ErrorView::RecipientNotSet),
{
}

/// A send step that names a credential which a plain list of credentials
/// does not hold under the type `telegram_bot` fails with
/// `CredentialNotFound`, the type and the name in it.
pub proof fn lemma_credential_not_found(
    store: crate::credentials::SimpleCredentials,
    context: ContextView,
    step: Members,
    made: Result<(Seq<char>, DeliveryView), ErrorView>,
)
    requires
        checked(context, step) is Ok,
        crate::credentials::first_credential(
            store@,
            CREDENTIAL_TYPE@,
            checked(context, step)->Ok_0.1,
            0,
        ) is None,
        prepared(store, context, step, made),
    ensures
        made == Err::<(Seq<char>, DeliveryView), ErrorView>(
            ErrorView::CredentialNotFound(CREDENTIAL_TYPE@, checked(context, step)->Ok_0.1),
        ),
{
}

} // verus!
