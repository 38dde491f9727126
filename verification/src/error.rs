//! The errors of the engine and of its plugins.

use vstd::prelude::*;
use crate::json::Members;
use crate::step::SerializedStep;

verus! {

/// Why a step, or the lookup before the first step, failed.
#[derive(Debug)]
pub enum EngineError {
    /// No registered plugin owns the step.
    PluginNotFound(SerializedStep),
    /// The step's payload does not have the shape its plugin expects.
    InvalidStep,
    /// A delivery was asked for and the event names no recipient.
    RecipientNotSet,
    /// The recipient has no contact on the pipeline's channel.
    ContactNotSet,
    /// The credential store holds nothing of this type under this name.
    CredentialNotFound(String, String),
    /// The credential was found and does not have the shape the plugin expects.
    InvalidCredentialFormat,
    /// The template source holds no such template.
    TemplateNotFound,
    /// A part of a template could not be rendered.
    TemplateRender,
    /// A collaborator's storage failed; the text says how.
    Storage(String),
}

/// An [`EngineError`] by content.
pub enum ErrorView {
    PluginNotFound(Members),
    InvalidStep,
    RecipientNotSet,
    ContactNotSet,
    CredentialNotFound(Seq<char>, Seq<char>),
    InvalidCredentialFormat,
    TemplateNotFound,
    TemplateRender,
    Storage(Seq<char>),
}

impl View for EngineError {
    type V = ErrorView;

    open spec fn view(&self) -> ErrorView {
        match *self {
            EngineError::PluginNotFound(step) => ErrorView::PluginNotFound(step@),
            EngineError::InvalidStep => ErrorView::InvalidStep,
            EngineError::RecipientNotSet => ErrorView::RecipientNotSet,
            EngineError::ContactNotSet => ErrorView::ContactNotSet,
            EngineError::CredentialNotFound(kind, name) => ErrorView::CredentialNotFound(
                kind@,
                name@,
            ),
            EngineError::InvalidCredentialFormat => ErrorView::InvalidCredentialFormat,
            EngineError::TemplateNotFound => ErrorView::TemplateNotFound,
            EngineError::TemplateRender => ErrorView::TemplateRender,
            EngineError::Storage(detail) => ErrorView::Storage(detail@),
        }
    }
}

impl Clone for EngineError {
    fn clone(&self) -> (copy: EngineError)
        ensures
            copy@ == self@,
    {
        match self {
            EngineError::PluginNotFound(step) => EngineError::PluginNotFound(step.clone()),
            EngineError::InvalidStep => EngineError::InvalidStep,
            EngineError::RecipientNotSet => EngineError::RecipientNotSet,
            EngineError::ContactNotSet => EngineError::ContactNotSet,
            EngineError::CredentialNotFound(kind, name) => EngineError::CredentialNotFound(
                kind.clone(),
                name.clone(),
            ),
            EngineError::InvalidCredentialFormat => EngineError::InvalidCredentialFormat,
            EngineError::TemplateNotFound => EngineError::TemplateNotFound,
            EngineError::TemplateRender => EngineError::TemplateRender,
            EngineError::Storage(detail) => EngineError::Storage(detail.clone()),
        }
    }
}

} // verus!
