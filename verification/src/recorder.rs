//! Where the outcome of each delivery attempt is written down.

use vstd::prelude::*;

verus! {

/// What is written down of one delivery attempt, by content.
pub enum RecordView {
    Sent { event_id: u128, notification_id: u128, message_id: u128 },
    Failed { event_id: u128, notification_id: u128, message_id: u128, reason: Seq<char> },
}

/// A write-only sink for delivery outcomes. Both calls return at once; what
/// an implementation does with the record is its own affair.
///
/// A recorder may say in `takes` which records it can have been given; a
/// caller's contract that speaks of `takes` says which call was made and
/// with what. A recorder that does not say leaves that open.
pub trait Recorder: Send + Sync {
    /// Whether the recorder has been given `record`.
    open spec fn takes(&self, record: RecordView) -> bool {
        true
    }

    /// Writes down that the message was sent.
    fn record_message_sent(&self, event_id: u128, notification_id: u128, message_id: u128)
        ensures
            self.takes(RecordView::Sent { event_id, notification_id, message_id }),
    ;

    /// Writes down that the message could not be sent, and why.
    fn record_message_failed(
        &self,
        event_id: u128,
        notification_id: u128,
        message_id: u128,
        error: &str,
    )
        ensures
            self.takes(
                RecordView::Failed { event_id, notification_id, message_id, reason: error@ },
            ),
    ;
}

} // verus!
