//! The state of one pipeline run.

use vstd::prelude::*;
use crate::error::{EngineError, ErrorView};
use crate::json::{JsonObject, Members};
use crate::multipart::Multipart;
use crate::recipient::{Contact, ContactView, Recipient, RecipientView};

verus! {

/// What the engine does after a step that did not fail.
#[derive(Clone, Copy, Debug, PartialEq, Eq, Structural)]
pub enum StepOutput {
    /// Go on with the next step.
    Continue,
    /// Stop this pipeline here; nothing went wrong.
    Interrupt,
}

/// What came of a step: its output, or its error by content.
pub open spec fn output_view(output: Result<StepOutput, EngineError>) -> Result<
    StepOutput,
    ErrorView,
> {
    match output {
        Ok(o) => Ok(o),
        Err(e) => Err(e@),
    }
}

/// The data that came with the event: a JSON object, carried through all
/// steps as it is.
#[derive(Debug)]
pub struct EventContext(pub JsonObject);

impl View for EventContext {
    type V = Members;

    open spec fn view(&self) -> Members {
        crate::json::object_model(self.0)
    }
}

impl Clone for EventContext {
    fn clone(&self) -> (copy: EventContext)
        ensures
            copy@ == self@,
    {
        EventContext(crate::json::object_clone(&self.0))
    }
}

/// A template after rendering: part name to text.
pub struct RenderedTemplate(pub Multipart);

impl View for RenderedTemplate {
    type V = Map<Seq<char>, Seq<char>>;

    open spec fn view(&self) -> Map<Seq<char>, Seq<char>> {
        self.0@
    }
}

impl Clone for RenderedTemplate {
    fn clone(&self) -> (copy: RenderedTemplate)
        ensures
            copy@ == self@,
    {
        RenderedTemplate(self.0.clone())
    }
}

/// One rendered artifact, to be delivered by a transport.
pub struct Message {
    pub id: u128,
    pub content: RenderedTemplate,
}

/// A [`Message`] by content.
pub struct MessageView {
    pub id: u128,
    pub content: Map<Seq<char>, Seq<char>>,
}

impl View for Message {
    type V = MessageView;

    open spec fn view(&self) -> MessageView {
        MessageView { id: self.id, content: self.content@ }
    }
}

impl Clone for Message {
    fn clone(&self) -> (copy: Message)
        ensures
            copy@ == self@,
    {
        Message { id: self.id, content: self.content.clone() }
    }
}

/// A list of messages, by content.
pub open spec fn messages_view(messages: Seq<Message>) -> Seq<MessageView> {
    messages.map_values(|m: Message| m@)
}

/// The state of one pipeline run. It is made when the pipeline starts,
/// changed by each step in turn and dropped after the last one.
pub struct PipelineContext {
    /// The index of the next step to execute.
    pub step_number: usize,
    pub project_id: u128,
    pub recipient: Option<Recipient>,
    pub event_name: String,
    pub event_context: EventContext,
    /// Scratch memory of the plugins, each under a key of its own.
    pub plugin_contexts: JsonObject,
    /// The messages rendered so far, in the order in which they were added.
    pub messages: Vec<Message>,
    /// The pipeline's channel.
    pub channel: String,
    /// The recipient's primary contact on `channel`, where there is one.
    pub contact: Option<Contact>,
    pub notification_id: u128,
    pub event_id: u128,
}

/// A [`PipelineContext`] by content.
pub struct ContextView {
    pub step_number: usize,
    pub project_id: u128,
    pub recipient: Option<RecipientView>,
    pub event_name: Seq<char>,
    pub event_context: Members,
    pub plugin_contexts: Members,
    pub messages: Seq<MessageView>,
    pub channel: Seq<char>,
    pub contact: Option<ContactView>,
    pub notification_id: u128,
    pub event_id: u128,
}

impl View for PipelineContext {
    type V = ContextView;

    open spec fn view(&self) -> ContextView {
        ContextView {
            step_number: self.step_number,
            project_id: self.project_id,
            recipient: crate::recipient::recipient_view(self.recipient),
            event_name: self.event_name@,
            event_context: self.event_context@,
            plugin_contexts: crate::json::object_model(self.plugin_contexts),
            messages: messages_view(self.messages@),
            channel: self.channel@,
            contact: crate::recipient::contact_view(self.contact),
            notification_id: self.notification_id,
            event_id: self.event_id,
        }
    }
}

/// The contact that a new context holds: the recipient's primary contact on
/// the channel, and none where there is no recipient or no such contact.
pub open spec fn resolved_contact(recipient: Option<RecipientView>, channel: Seq<char>) -> Option<
    ContactView,
> {
    match recipient {
        Some(r) => crate::recipient::primary_contact(r.contacts, channel),
        None => None,
    }
}

/// The context with which a pipeline on `channel` starts.
pub open spec fn initial_context(
    event_id: u128,
    project_id: u128,
    event_name: Seq<char>,
    event_context: Members,
    recipient: Option<RecipientView>,
    channel: Seq<char>,
    notification_id: u128,
) -> ContextView {
    ContextView {
        step_number: 0,
        project_id,
        recipient,
        event_name,
        event_context,
        plugin_contexts: Members::empty(),
        messages: Seq::empty(),
        channel,
        contact: resolved_contact(recipient, channel),
        notification_id,
        event_id,
    }
}

/// The context after the engine has moved on to the next step. The step
/// number is a machine integer: at its largest value it stays where it is.
pub open spec fn advanced(context: ContextView) -> ContextView {
    ContextView {
        step_number: if context.step_number < usize::MAX {
            (context.step_number + 1) as usize
        } else {
            context.step_number
        },
        ..context
    }
}

impl PipelineContext {
    /// The context of a pipeline that is about to start: no step done, no
    /// message, empty scratch memory, and the contact resolved from the
    /// recipient. A recipient without a contact on the channel is no error
    /// here.
    pub fn new(
        event_id: u128,
        project_id: u128,
        event_name: String,
        event_context: EventContext,
        recipient: Option<Recipient>,
        channel: String,
        notification_id: u128,
    ) -> (context: PipelineContext)
        ensures
            context@ == initial_context(
                event_id,
                project_id,
                event_name@,
                event_context@,
                crate::recipient::recipient_view(recipient),
                channel@,
                notification_id,
            ),
    {
        let contact = match &recipient {
            Some(r) => match r.get_primary_contact(channel.as_str()) {
                Ok(c) => Some(c),
                Err(_) => None,
            },
            None => None,
        };
        let context = PipelineContext {
            step_number: 0,
            project_id,
            recipient,
            event_name,
            event_context,
            plugin_contexts: crate::json::object_new(),
            messages: Vec::new(),
            channel,
            contact,
            notification_id,
            event_id,
        };
        assert(messages_view(context.messages@) =~= Seq::<MessageView>::empty());
        context
    }

    /// The contact to deliver to, or `ContactNotSet`.
    pub fn get_contact(&self) -> (found: Result<Contact, EngineError>)
        ensures
            match found {
                Ok(c) => self@.contact == Some(c@),
                Err(e) => self@.contact is None && e@ == ErrorView::ContactNotSet,
            },
    {
        match &self.contact {
            Some(c) => Ok(c.clone()),
            None => Err(EngineError::ContactNotSet),
        }
    }

    /// Moves on to the next step: the step number grows by one, and nothing
    /// else changes.
    pub fn advance(&mut self)
        ensures
            final(self)@ == advanced(old(self)@),
    {
        if self.step_number < usize::MAX {
            self.step_number = self.step_number + 1;
        }
    }
}

} // verus!
