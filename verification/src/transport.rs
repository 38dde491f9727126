//! What the channel transports have in common: the shape of a send step,
//! the checks before a delivery, and the bookkeeping of a delivery in
//! progress.
//!
//! Sending itself is the caller's part. A delivery hands out its messages
//! one by one; the caller sends each and tells the delivery how it went, and
//! gets back the record to write down.

use vstd::prelude::*;
use crate::context::{ContextView, Message, MessageView, PipelineContext, StepOutput};
use crate::error::{EngineError, ErrorView};
use crate::json::Members;
use crate::recipient::{Contact, ContactView};
use crate::recorder::{RecordView, Recorder};
use crate::step::SerializedStep;

verus! {

/// The credential that a send step of kind `kind` names: the step has that
/// kind and a text member `credential`. Other members are not looked at.
pub open spec fn parsed_send(step: Members, kind: Seq<char>) -> Option<Seq<char>> {
    if crate::step::kind_of(step) == Some(kind) {
        crate::json::text_member(step, "credential"@)
    } else {
        None
    }
}

/// The serialized form of a send step.
pub open spec fn serialized_send(kind: Seq<char>, credential: Seq<char>) -> Members {
    Members::empty().insert("step"@, crate::json::Json::Text(kind)).insert(
        "credential"@,
        crate::json::Json::Text(credential),
    )
}

/// Reads the name of the credential from a send step of kind `kind`;
/// `InvalidStep` where the step is none.
pub fn parse_send(step: &SerializedStep, kind: &str) -> (read: Result<String, EngineError>)
    ensures
        match read {
            Ok(credential) => parsed_send(step@, kind@) == Some(credential@),
            Err(e) => parsed_send(step@, kind@) is None && e@ == ErrorView::InvalidStep,
        },
{
    if !step.get_type().eq(kind) {
        return Err(EngineError::InvalidStep);
    }
    match crate::json::object_text(step.as_object(), "credential") {
        Some(credential) => Ok(credential.to_owned()),
        None => Err(EngineError::InvalidStep),
    }
}

/// The serialized form of a send step of kind `kind` that names
/// `credential`. Reading it back gives the credential.
pub fn serialize_send(kind: &str, credential: &str) -> (made: SerializedStep)
    ensures
        made@ == serialized_send(kind@, credential@),
        parsed_send(made@, kind@) == Some(credential@),
{
    proof {
        reveal_strlit("step");
        reveal_strlit("credential");
        assert("step"@.len() != "credential"@.len());
    }
    let mut object = crate::json::object_new();
    crate::json::object_insert(
        &mut object,
        "step".to_owned(),
        crate::json::text_value(kind.to_owned()),
    );
    crate::json::object_insert(
        &mut object,
        "credential".to_owned(),
        crate::json::text_value(credential.to_owned()),
    );
    match SerializedStep::new(object) {
        Ok(made) => made,
        Err(_) => vstd::pervasive::unreached(),
    }
}

/// Whom a delivery in the run of `context` goes to: `RecipientNotSet`
/// without a recipient, `ContactNotSet` without a contact on the pipeline's
/// channel, and the contact otherwise.
pub open spec fn addressed(context: ContextView) -> Result<ContactView, ErrorView> {
    if context.recipient is None {
        Err(ErrorView::RecipientNotSet)
    } else {
        match context.contact {
            Some(contact) => Ok(contact),
            None => Err(ErrorView::ContactNotSet),
        }
    }
}

/// Whom a delivery in the run of `context` goes to.
pub fn addressee(context: &PipelineContext) -> (found: Result<Contact, EngineError>)
    ensures
        match found {
            Ok(contact) => addressed(context@) == Ok::<ContactView, ErrorView>(contact@),
            Err(e) => addressed(context@) == Err::<ContactView, ErrorView>(e@),
        },
{
    if context.recipient.is_none() {
        return Err(EngineError::RecipientNotSet);
    }
    context.get_contact()
}

/// What is written down of one delivery attempt.
#[derive(Debug)]
pub enum DeliveryRecord {
    /// The message was sent.
    Sent { event_id: u128, notification_id: u128, message_id: u128 },
    /// The message could not be sent; `reason` says why.
    Failed { event_id: u128, notification_id: u128, message_id: u128, reason: String },
}

impl View for DeliveryRecord {
    type V = RecordView;

    open spec fn view(&self) -> RecordView {
        match *self {
            DeliveryRecord::Sent { event_id, notification_id, message_id } => RecordView::Sent {
                event_id,
                notification_id,
                message_id,
            },
            DeliveryRecord::Failed {
                event_id,
                notification_id,
                message_id,
                reason,
            } => RecordView::Failed { event_id, notification_id, message_id, reason: reason@ },
        }
    }
}

impl DeliveryRecord {
    /// Writes the record to `recorder`: a sent message with
    /// `record_message_sent`, a failed one with `record_message_failed` and
    /// the reason.
    pub fn write_to<R: Recorder>(&self, recorder: &R)
        ensures
            recorder.takes(self@),
    {
        match self {
            DeliveryRecord::Sent { event_id, notification_id, message_id } => {
                recorder.record_message_sent(*event_id, *notification_id, *message_id);
            },
            DeliveryRecord::Failed { event_id, notification_id, message_id, reason } => {
                recorder.record_message_failed(
                    *event_id,
                    *notification_id,
                    *message_id,
                    reason.as_str(),
                );
            },
        }
    }
}

/// How one attempt to send went, by content.
pub open spec fn attempt_view(attempt: Result<(), String>) -> Result<(), Seq<char>> {
    match attempt {
        Ok(()) => Ok(()),
        Err(reason) => Err(reason@),
    }
}

/// The record of an attempt to send the message `message_id` of a delivery.
pub open spec fn record_of(
    event_id: u128,
    notification_id: u128,
    message_id: u128,
    attempt: Result<(), Seq<char>>,
) -> RecordView {
    match attempt {
        Ok(()) => RecordView::Sent { event_id, notification_id, message_id },
        Err(reason) => RecordView::Failed { event_id, notification_id, message_id, reason },
    }
}

/// A delivery in progress: the messages of one pipeline run, to be sent in
/// their order to one contact, and how many of them have been attempted.
pub struct Delivery {
    event_id: u128,
    notification_id: u128,
    contact: Contact,
    messages: Vec<Message>,
    attempted: usize,
}

/// A [`Delivery`] by content.
pub struct DeliveryView {
    pub event_id: u128,
    pub notification_id: u128,
    pub contact: ContactView,
    pub messages: Seq<MessageView>,
    pub attempted: nat,
}

impl View for Delivery {
    type V = DeliveryView;

    closed spec fn view(&self) -> DeliveryView {
        DeliveryView {
            event_id: self.event_id,
            notification_id: self.notification_id,
            contact: self.contact@,
            messages: crate::context::messages_view(self.messages@),
            attempted: self.attempted as nat,
        }
    }
}

/// The delivery of the messages of `context` to `contact`, before the first
/// attempt.
pub open spec fn delivery_of(context: ContextView, contact: ContactView) -> DeliveryView {
    DeliveryView {
        event_id: context.event_id,
        notification_id: context.notification_id,
        contact,
        messages: context.messages,
        attempted: 0,
    }
}

impl DeliveryView {
    /// The message that is to be sent next, if one is left.
    pub open spec fn pending(self) -> Option<MessageView> {
        if self.attempted < self.messages.len() {
            Some(self.messages[self.attempted as int])
        } else {
            None
        }
    }

    /// The delivery after one more attempt, however it went.
    pub open spec fn moved_on(self) -> DeliveryView {
        DeliveryView { attempted: self.attempted + 1, ..self }
    }
}

impl Delivery {
    #[verifier::type_invariant]
    spec fn inv(self) -> bool {
        self.attempted <= self.messages.len()
    }

    /// The delivery of the messages that `context` holds now, to `contact`.
    pub fn begin(context: &PipelineContext, contact: Contact) -> (delivery: Delivery)
        ensures
            delivery@ == delivery_of(context@, contact@),
    {
        let mut messages: Vec<Message> = Vec::new();
        let mut i: usize = 0;
        while i < context.messages.len()
            invariant
                i <= context.messages.len(),
                messages.len() == i,
                forall|j: int| 0 <= j < i ==> messages[j]@ == context.messages[j]@,
            decreases context.messages.len() - i,
        {
            messages.push(context.messages[i].clone());
            i += 1;
        }
        assert(crate::context::messages_view(messages@) =~= crate::context::messages_view(
            context.messages@,
        ));
        Delivery {
            event_id: context.event_id,
            notification_id: context.notification_id,
            contact,
            messages,
            attempted: 0,
        }
    }

    /// The contact that the messages go to.
    pub fn contact(&self) -> (contact: &Contact)
        ensures
            contact@ == self@.contact,
    {
        &self.contact
    }

    /// The message that is to be sent next, if one is left.
    pub fn pending(&self) -> (next: Option<&Message>)
        ensures
            self@.attempted <= self@.messages.len(),
            match next {
                Some(message) => self@.pending() == Some(message@),
                None => self@.pending() is None,
            },
    {
        proof {
            use_type_invariant(self);
        }
        if self.attempted < self.messages.len() {
            assert(crate::context::messages_view(self.messages@)[self.attempted as int]
                == self.messages@[self.attempted as int]@);
            Some(&self.messages[self.attempted])
        } else {
            None
        }
    }

    /// Takes note of how the attempt to send the pending message went and
    /// returns its record. The delivery moves on to the next message whether
    /// the attempt failed or not. Without a pending message nothing changes
    /// and there is no record.
    pub fn settle(&mut self, attempt: Result<(), String>) -> (record: Option<DeliveryRecord>)
        ensures
            match old(self)@.pending() {
                Some(message) => {
                    &&& final(self)@ == old(self)@.moved_on()
                    &&& record matches Some(r) && r@ == record_of(
                        old(self)@.event_id,
                        old(self)@.notification_id,
                        message.id,
                        attempt_view(attempt),
                    )
                },
                None => final(self)@ == old(self)@ && record is None,
            },
    {
        proof {
            use_type_invariant(&*self);
        }
        if self.attempted >= self.messages.len() {
            return None;
        }
        assert(crate::context::messages_view(self.messages@)[self.attempted as int]
            == self.messages@[self.attempted as int]@);
        let message_id = self.messages[self.attempted].id;
        let record = match attempt {
            Ok(()) => DeliveryRecord::Sent {
                event_id: self.event_id,
                notification_id: self.notification_id,
                message_id,
            },
            Err(reason) => DeliveryRecord::Failed {
                event_id: self.event_id,
                notification_id: self.notification_id,
                message_id,
                reason,
            },
        };
        self.attempted = self.attempted + 1;
        Some(record)
    }

    /// What the send step returns once no message is pending: `Continue`,
    /// whatever became of the single messages. While one is pending there is
    /// no output yet.
    pub fn output(&self) -> (output: Option<StepOutput>)
        ensures
            output == if self@.pending() is None {
                Some(StepOutput::Continue)
            } else {
                None
            },
    {
        match self.pending() {
            Some(_) => None,
            None => Some(StepOutput::Continue),
        }
    }
}

/// The delivery after `attempts` attempts.
pub open spec fn after_attempts(start: DeliveryView, attempts: nat) -> DeliveryView
    decreases attempts,
{
    if attempts == 0 {
        start
    } else {
        after_attempts(start, (attempts - 1) as nat).moved_on()
    }
}

/// After as many attempts as there are messages, none is pending; before
/// that, the pending message is the one whose index is the number of
/// attempts, so the messages are handed out in the context's order, each
/// once, failed attempts included.
pub proof fn lemma_delivery_in_order(start: DeliveryView, attempts: nat)
    requires
        start.attempted == 0,
    ensures
        after_attempts(start, attempts).attempted == attempts,
        after_attempts(start, attempts).messages == start.messages,
        attempts < start.messages.len() ==> after_attempts(start, attempts).pending() == Some(
            start.messages[attempts as int],
        ),
        attempts >= start.messages.len() ==> after_attempts(start, attempts).pending() is None,
    decreases attempts,
{
    if attempts > 0 {
        lemma_delivery_in_order(start, (attempts - 1) as nat);
    }
}

} // verus!
