//! The notifier held in memory: it keeps what it was handed, or refuses.

use crate::routes::subscriptions::{ConfirmationEmail, ConfirmationEmailView, Reply};
use vstd::prelude::*;

verus! {

/// What an outbox holds: the messages it accepted, in order, and whether
/// it accepts any.
pub struct OutboxView {
    pub sent: Seq<ConfirmationEmailView>,
    pub accepting: bool,
}

impl OutboxView {
    /// The outbox after it was handed `email`, and the answer.
    pub open spec fn send(self, email: ConfirmationEmailView) -> (OutboxView, Reply) {
        if self.accepting {
            (OutboxView { sent: self.sent.push(email), ..self }, Reply::Done)
        } else {
            (self, Reply::Failed)
        }
    }
}

/// The views of the messages in `emails`.
pub open spec fn email_views(emails: Seq<ConfirmationEmail>) -> Seq<ConfirmationEmailView> {
    emails.map_values(|email: ConfirmationEmail| email@)
}

/// A notifier in memory. One that accepts keeps every message handed to
/// it; one that does not stands for a delivery service that cannot be
/// reached.
pub struct Outbox {
    sent: Vec<ConfirmationEmail>,
    accepting: bool,
}

impl View for Outbox {
    type V = OutboxView;

    closed spec fn view(&self) -> OutboxView {
        OutboxView { sent: email_views(self.sent@), accepting: self.accepting }
    }
}

impl Outbox {
    /// An empty outbox that accepts messages.
    pub fn new() -> (outbox: Self)
        ensures
            outbox@.sent.len() == 0,
            outbox@.accepting,
    {
        Outbox { sent: Vec::new(), accepting: true }
    }

    /// An empty outbox that refuses every message.
    pub fn unreachable() -> (outbox: Self)
        ensures
            outbox@.sent.len() == 0,
            !outbox@.accepting,
    {
        Outbox { sent: Vec::new(), accepting: false }
    }

    /// Hands `email` to the outbox, which keeps a copy if it accepts.
    pub fn send(&mut self, email: &ConfirmationEmail) -> (reply: Reply)
        ensures
            (final(self)@, reply) == old(self)@.send(email@),
    {
        if self.accepting {
            self.sent.push(email.duplicate());
            assert(self@.sent =~= old(self)@.sent.push(email@));
            Reply::Done
        } else {
            Reply::Failed
        }
    }

    /// The messages accepted so far, in order.
    pub fn sent(&self) -> (sent: &Vec<ConfirmationEmail>)
        ensures
            email_views(sent@) == self@.sent,
    {
        &self.sent
    }
}

} // verus!
