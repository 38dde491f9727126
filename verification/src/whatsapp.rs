//! The WhatsApp transport's step, and the message body of the WhatsApp Cloud
//! API that it sends.

use vstd::prelude::*;
use crate::error::{EngineError, ErrorView};
use crate::json::{Json, Members};
use crate::step::SerializedStep;

verus! {

/// The channel that this transport serves.
pub const CHANNEL_NAME: &'static str = "whatsapp";

/// The type under which the credentials of this transport are stored.
pub const CREDENTIAL_TYPE: &'static str = "whatsapp_cloud";

/// The product that a message is sent with.
#[derive(Clone, Copy, Debug, PartialEq, Eq, Structural)]
pub enum MessagingProduct {
    Whatsapp,
}

/// The language of a message.
#[derive(Debug)]
pub struct Language {
    pub code: String,
}

/// What a message carries.
#[derive(Debug)]
pub enum MessageType {
    /// A text, with or without a preview of the links in it.
    Text { preview_url: bool, body: String },
}

/// One message as the API takes it.
#[derive(Debug)]
pub struct Message {
    pub messaging_product: MessagingProduct,
    pub to: String,
    pub language: Language,
    pub message: MessageType,
}

/// A [`Message`] by content.
pub struct MessageView {
    pub to: Seq<char>,
    pub language: Seq<char>,
    pub preview_url: bool,
    pub body: Seq<char>,
}

impl View for Message {
    type V = MessageView;

    open spec fn view(&self) -> MessageView {
        match self.message {
            MessageType::Text { preview_url, body } => MessageView {
                to: self.to@,
                language: self.language.code@,
                preview_url,
                body: body@,
            },
        }
    }
}

/// The JSON body of a message:
/// `{"messaging_product": "whatsapp", "to": .., "language": {"code": ..},
/// "text": {"preview_url": .., "body": ..}}`.
pub open spec fn payload(message: MessageView) -> Json {
    Json::Object(
        Members::empty().insert("messaging_product"@, Json::Text("whatsapp"@)).insert(
            "to"@,
            Json::Text(message.to),
        ).insert(
            "language"@,
            Json::Object(Members::empty().insert("code"@, Json::Text(message.language))),
        ).insert(
            "text"@,
            Json::Object(
                Members::empty().insert("preview_url"@, Json::Bool(message.preview_url)).insert(
                    "body"@,
                    Json::Text(message.body),
                ),
            ),
        ),
    )
}

impl Message {
    /// A text message to `to`.
    pub fn text(to: String, language: String, preview_url: bool, body: String) -> (message: Message)
        ensures
            message@ == (MessageView { to: to@, language: language@, preview_url, body: body@ }),
    {
        Message {
            messaging_product: MessagingProduct::Whatsapp,
            to,
            language: Language { code: language },
            message: MessageType::Text { preview_url, body },
        }
    }

    /// The JSON body of the message.
    pub fn to_json(&self) -> (value: serde_json::Value)
        ensures
            crate::json::value_model(value) == payload(self@),
    {
        let mut language = crate::json::object_new();
        crate::json::object_insert(
            &mut language,
            "code".to_owned(),
            crate::json::text_value(self.language.code.clone()),
        );
        let mut text = crate::json::object_new();
        match &self.message {
            MessageType::Text { preview_url, body } => {
                crate::json::object_insert(
                    &mut text,
                    "preview_url".to_owned(),
                    crate::json::bool_value(*preview_url),
                );
                crate::json::object_insert(
                    &mut text,
                    "body".to_owned(),
                    crate::json::text_value(body.clone()),
                );
            },
        }
        let mut object = crate::json::object_new();
        crate::json::object_insert(
            &mut object,
            "messaging_product".to_owned(),
            crate::json::text_value("whatsapp".to_owned()),
        );
        crate::json::object_insert(
            &mut object,
            "to".to_owned(),
            crate::json::text_value(self.to.clone()),
        );
        crate::json::object_insert(
            &mut object,
            "language".to_owned(),
            crate::json::object_value(language),
        );
        crate::json::object_insert(&mut object, "text".to_owned(), crate::json::object_value(text));
        crate::json::object_value(object)
    }
}

/// The steps of the WhatsApp transport.
#[derive(Debug)]
pub enum Step {
    /// `whatsapp.send`: deliver the messages with the credential of this
    /// name.
    Send { credential: String },
}

/// A [`Step`] by content.
pub enum StepView {
    Send { credential: Seq<char> },
}

impl View for Step {
    type V = StepView;

    open spec fn view(&self) -> StepView {
        match *self {
            Step::Send { credential } => StepView::Send { credential: credential@ },
        }
    }
}

/// The step that a serialized step stands for.
pub open spec fn parsed_step(step: Members) -> Option<StepView> {
    match crate::transport::parsed_send(step, "whatsapp.send"@) {
        Some(credential) => Some(StepView::Send { credential }),
        None => None,
    }
}

/// The serialized form of a step.
pub open spec fn serialized_step(step: StepView) -> Members {
    match step {
        StepView::Send { credential } => crate::transport::serialized_send(
            "whatsapp.send"@,
            credential,
        ),
    }
}

impl Step {
    /// Reads the step from its serialized form; `InvalidStep` where that is
    /// no step of this transport.
    pub fn parse(step: &SerializedStep) -> (read: Result<Step, EngineError>)
        ensures
            match read {
                Ok(s) => parsed_step(step@) == Some(s@),
                Err(e) => parsed_step(step@) is None && e@ == ErrorView::InvalidStep,
            },
    {
        match crate::transport::parse_send(step, "whatsapp.send") {
            Ok(credential) => Ok(Step::Send { credential }),
            Err(e) => Err(e),
        }
    }

    /// The serialized form of the step. Reading it back gives the step.
    pub fn to_serialized(&self) -> (made: SerializedStep)
        ensures
            made@ == serialized_step(self@),
            parsed_step(made@) == Some(self@),
    {
        match self {
            Step::Send { credential } => crate::transport::serialize_send(
                "whatsapp.send",
                credential.as_str(),
            ),
        }
    }
}

} // verus!
