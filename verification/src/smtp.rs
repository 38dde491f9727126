//! The SMTP transport's step and the parts of a message that it reads.

use vstd::prelude::*;
use crate::context::RenderedTemplate;
use crate::error::{EngineError, ErrorView};
use crate::json::Members;
use crate::step::SerializedStep;

verus! {

/// The channel that this transport serves.
pub const CHANNEL_NAME: &'static str = "smtp";

/// The type under which the credentials of this transport are stored.
pub const CREDENTIAL_TYPE: &'static str = "smtp";

/// The steps of the SMTP transport.
#[derive(Debug)]
pub enum Step {
    /// `smtp.send`: deliver the messages with the credential of this name.
    Send { credential: String },
}

/// A [`Step`] by content.
pub enum StepView {
    Send { credential: Seq<char> },
}

impl View for Step {
    type V = StepView;

    open spec fn view(&self) -> StepView {
        match *self {
            Step::Send { credential } => StepView::Send { credential: credential@ },
        }
    }
}

/// The step that a serialized step stands for.
pub open spec fn parsed_step(step: Members) -> Option<StepView> {
    match crate::transport::parsed_send(step, "smtp.send"@) {
        Some(credential) => Some(StepView::Send { credential }),
        None => None,
    }
}

/// The serialized form of a step.
pub open spec fn serialized_step(step: StepView) -> Members {
    match step {
        StepView::Send { credential } => crate::transport::serialized_send(
            "smtp.send"@,
            credential,
        ),
    }
}

impl Step {
    /// Reads the step from its serialized form; `InvalidStep` where that is
    /// no step of this transport.
    pub fn parse(step: &SerializedStep) -> (read: Result<Step, EngineError>)
        ensures
            match read {
                Ok(s) => parsed_step(step@) == Some(s@),
                Err(e) => parsed_step(step@) is None && e@ == ErrorView::InvalidStep,
            },
    {
        match crate::transport::parse_send(step, "smtp.send") {
            Ok(credential) => Ok(Step::Send { credential }),
            Err(e) => Err(e),
        }
    }

    /// The serialized form of the step. Reading it back gives the step.
    pub fn to_serialized(&self) -> (made: SerializedStep)
        ensures
            made@ == serialized_step(self@),
            parsed_step(made@) == Some(self@),
    {
        match self {
            Step::Send { credential } => crate::transport::serialize_send(
                "smtp.send",
                credential.as_str(),
            ),
        }
    }
}

/// The identifiers of the steps that this transport owns.
pub fn steps() -> (ids: Vec<String>)
    ensures
        crate::text::texts(ids@) == seq!["smtp.send"@],
{
    let mut ids: Vec<String> = Vec::new();
    ids.push("smtp.send".to_owned());
    assert(crate::text::texts(ids@) =~= seq!["smtp.send"@]);
    ids
}

/// What a mail gets of a message: the texts of its `subject` and `body` parts.
#[derive(Debug)]
pub struct EmailContent {
    pub subject: String,
    pub body: String,
}

impl EmailContent {
    /// The content of a rendered template, if it has the parts that this
    /// transport reads.
    pub fn try_from(value: RenderedTemplate) -> (content: Result<EmailContent, ()>)
        ensures
            match content {
                Ok(c) => value@.contains_key("subject"@) && c.subject@ == value@["subject"@] && value@.contains_key("body"@) && c.body@ == value@["body"@],
                Err(_) => !value@.contains_key("subject"@) || !value@.contains_key("body"@),
            },
    {
        let subject = match value.0.get("subject") {
            Some(text) => text.clone(),
            None => {
                return Err(());
            },
        };
        let body = match value.0.get("body") {
            Some(text) => text.clone(),
            None => {
                return Err(());
            },
        };
        Ok(EmailContent { subject, body })
    }
}

} // verus!
