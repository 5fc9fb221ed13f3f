//! The subscriber store held in memory: the two relations, their
//! constraints, and transactions that write to them all or nothing.

use crate::domain::subscriber::{Subscriber, SubscriberView, SubscriptionStatus};
use crate::domain::subscriber_email::SubscriberEmail;
use crate::domain::subscription_token::{SubscriptionToken, SubscriptionTokenView};
use crate::routes::subscriptions::Reply;
use vstd::prelude::*;
use vstd::string::StringExecFns;

verus! {

/// Some record among `subscribers` has the address `email`.
pub open spec fn holds_email(subscribers: Seq<SubscriberView>, email: Seq<char>) -> bool {
    exists|i: int| 0 <= i < subscribers.len() && (#[trigger] subscribers[i]).email == email
}

/// Some record among `subscribers` has the identifier `id`.
pub open spec fn holds_id(subscribers: Seq<SubscriberView>, id: u128) -> bool {
    exists|i: int| 0 <= i < subscribers.len() && (#[trigger] subscribers[i]).id == id
}

/// Some record among `tokens` has the text `token`.
pub open spec fn holds_token(tokens: Seq<SubscriptionTokenView>, token: Seq<char>) -> bool {
    exists|i: int| 0 <= i < tokens.len() && (#[trigger] tokens[i]).token == token
}

/// Some record among `tokens` belongs to the subscriber `id`.
pub open spec fn holds_token_of(tokens: Seq<SubscriptionTokenView>, id: u128) -> bool {
    exists|i: int| 0 <= i < tokens.len() && (#[trigger] tokens[i]).subscriber_id == id
}

/// What a store holds: the committed records of both relations in the
/// order in which they were written, and what the open transaction, if there
/// is one, has written so far.
pub struct StoreView {
    pub subscribers: Seq<SubscriberView>,
    pub tokens: Seq<SubscriptionTokenView>,
    pub open: bool,
    pub staged_subscriber: Option<SubscriberView>,
    pub staged_token: Option<SubscriptionTokenView>,
}

impl StoreView {
    /// No two subscribers share an identifier or an address.
    pub open spec fn subscribers_are_unique(self) -> bool {
        forall|i: int, j: int|
            0 <= i < j < self.subscribers.len() ==> (#[trigger] self.subscribers[i]).id != (
            #[trigger] self.subscribers[j]).id && self.subscribers[i].email
                != self.subscribers[j].email
    }

    /// No two tokens share their text.
    pub open spec fn tokens_are_unique(self) -> bool {
        forall|i: int, j: int|
            0 <= i < j < self.tokens.len() ==> (#[trigger] self.tokens[i]).token != (
            #[trigger] self.tokens[j]).token
    }

    /// Every token belongs to a subscriber that the store holds.
    pub open spec fn tokens_have_subscribers(self) -> bool {
        forall|i: int|
            0 <= i < self.tokens.len() ==> holds_id(
                self.subscribers,
                (#[trigger] self.tokens[i]).subscriber_id,
            )
    }

    /// What the open transaction has written could be committed as it is.
    pub open spec fn staged_fits(self) -> bool {
        &&& !self.open ==> self.staged_subscriber is None && self.staged_token is None
        &&& self.staged_subscriber matches Some(subscriber) ==> !holds_id(
            self.subscribers,
            subscriber.id,
        ) && !holds_email(self.subscribers, subscriber.email)
        &&& self.staged_token matches Some(token) ==> !holds_token(self.tokens, token.token) && (
        holds_id(self.subscribers, token.subscriber_id) || (self.staged_subscriber matches Some(
            subscriber,
        ) && subscriber.id == token.subscriber_id))
    }

    /// The constraints of the two relations hold.
    pub open spec fn consistent(self) -> bool {
        &&& self.subscribers_are_unique()
        &&& self.tokens_are_unique()
        &&& self.tokens_have_subscribers()
        &&& self.staged_fits()
    }

    /// No transaction is open.
    pub open spec fn at_rest(self) -> bool {
        !self.open && self.staged_subscriber is None && self.staged_token is None
    }

    /// Every subscriber has at least one token.
    pub open spec fn subscribers_have_tokens(self) -> bool {
        forall|i: int|
            0 <= i < self.subscribers.len() ==> holds_token_of(
                self.tokens,
                (#[trigger] self.subscribers[i]).id,
            )
    }

    /// The store after a transaction was asked for, and the answer.
    pub open spec fn begin(self) -> (StoreView, Reply) {
        if self.open {
            (self, Reply::Failed)
        } else {
            (StoreView { open: true, ..self }, Reply::Done)
        }
    }

    /// The store after the open transaction was asked to write `subscriber`,
    /// and the answer. An address that is taken is answered as a duplicate;
    /// a second subscriber in one transaction, an identifier that is taken,
    /// or no open transaction, as a failure.
    pub open spec fn insert_subscriber(self, subscriber: SubscriberView) -> (StoreView, Reply) {
        if !self.open || self.staged_subscriber is Some {
            (self, Reply::Failed)
        } else if holds_email(self.subscribers, subscriber.email) {
            (self, Reply::Duplicate)
        } else if holds_id(self.subscribers, subscriber.id) {
            (self, Reply::Failed)
        } else {
            (StoreView { staged_subscriber: Some(subscriber), ..self }, Reply::Done)
        }
    }

    /// The store after the open transaction was asked to write `token`, and
    /// the answer. It fails for a text that is taken, for a subscriber that
    /// is neither held nor written by this transaction, for a second token
    /// in one transaction, and without an open transaction.
    pub open spec fn store_token(self, token: SubscriptionTokenView) -> (StoreView, Reply) {
        if !self.open || self.staged_token is Some {
            (self, Reply::Failed)
        } else if holds_token(self.tokens, token.token) {
            (self, Reply::Failed)
        } else if !(holds_id(self.subscribers, token.subscriber_id) || (
        self.staged_subscriber matches Some(subscriber) && subscriber.id
            == token.subscriber_id)) {
            (self, Reply::Failed)
        } else {
            (StoreView { staged_token: Some(token), ..self }, Reply::Done)
        }
    }

    /// The committed subscribers once what is staged has joined them.
    pub open spec fn subscribers_with_staged(self) -> Seq<SubscriberView> {
        match self.staged_subscriber {
            Some(subscriber) => self.subscribers.push(subscriber),
            None => self.subscribers,
        }
    }

    /// The committed tokens once what is staged has joined them.
    pub open spec fn tokens_with_staged(self) -> Seq<SubscriptionTokenView> {
        match self.staged_token {
            Some(token) => self.tokens.push(token),
            None => self.tokens,
        }
    }

    /// The store after a commit was asked for, and the answer: everything
    /// that the transaction wrote is held from now on.
    pub open spec fn commit(self) -> (StoreView, Reply) {
        if !self.open {
            (self, Reply::Failed)
        } else {
            (
                StoreView {
                    subscribers: self.subscribers_with_staged(),
                    tokens: self.tokens_with_staged(),
                    open: false,
                    staged_subscriber: None,
                    staged_token: None,
                },
                Reply::Done,
            )
        }
    }

    /// The store after a rollback: nothing of what the transaction wrote is
    /// left.
    pub open spec fn rollback(self) -> StoreView {
        StoreView { open: false, staged_subscriber: None, staged_token: None, ..self }
    }

    /// The subscriber that the committed token with the text `token`
    /// belongs to.
    pub open spec fn owner_of(self, token: Seq<char>) -> Option<u128> {
        if holds_token(self.tokens, token) {
            let i = choose|i: int|
                0 <= i < self.tokens.len() && (#[trigger] self.tokens[i]).token == token;
            Some(self.tokens[i].subscriber_id)
        } else {
            None
        }
    }

    /// The store after the subscriber `id` was confirmed: that subscriber's
    /// status is `Confirmed`, whatever it was, and nothing else has changed.
    pub open spec fn confirm(self, id: u128) -> StoreView {
        StoreView {
            subscribers: self.subscribers.map_values(
                |subscriber: SubscriberView|
                    if subscriber.id == id {
                        SubscriberView { status: SubscriptionStatus::Confirmed, ..subscriber }
                    } else {
                        subscriber
                    },
            ),
            ..self
        }
    }
}

/// The views of the records in `subscribers`.
pub open spec fn subscriber_views(subscribers: Seq<Subscriber>) -> Seq<SubscriberView> {
    subscribers.map_values(|subscriber: Subscriber| subscriber@)
}

/// The views of the records in `tokens`.
pub open spec fn token_views(tokens: Seq<SubscriptionToken>) -> Seq<SubscriptionTokenView> {
    tokens.map_values(|token: SubscriptionToken| token@)
}

/// The view of a record that may be absent.
pub open spec fn optional_subscriber_view(subscriber: Option<Subscriber>) -> Option<
    SubscriberView,
> {
    match subscriber {
        Some(subscriber) => Some(subscriber@),
        None => None,
    }
}

/// The view of a record that may be absent.
pub open spec fn optional_token_view(token: Option<SubscriptionToken>) -> Option<
    SubscriptionTokenView,
> {
    match token {
        Some(token) => Some(token@),
        None => None,
    }
}

/// A subscriber store in memory. It keeps the constraints of the two
/// relations: identifiers, addresses and token texts are unique, and every
/// token belongs to a subscriber. Writes go through a transaction, of which
/// one can be open at a time; it holds at most one new subscriber and one
/// new token, which is what creating a subscription writes.
pub struct Store {
    subscribers: Vec<Subscriber>,
    tokens: Vec<SubscriptionToken>,
    open: bool,
    staged_subscriber: Option<Subscriber>,
    staged_token: Option<SubscriptionToken>,
}

impl View for Store {
    type V = StoreView;

    closed spec fn view(&self) -> StoreView {
        StoreView {
            subscribers: subscriber_views(self.subscribers@),
            tokens: token_views(self.tokens@),
            open: self.open,
            staged_subscriber: optional_subscriber_view(self.staged_subscriber),
            staged_token: optional_token_view(self.staged_token),
        }
    }
}

impl Store {
    /// A store without records.
    pub fn new() -> (store: Self)
        ensures
            store@.subscribers.len() == 0,
            store@.tokens.len() == 0,
            store@.at_rest(),
            store@.consistent(),
    {
        Store {
            subscribers: Vec::new(),
            tokens: Vec::new(),
            open: false,
            staged_subscriber: None,
            staged_token: None,
        }
    }

    /// Where among the committed subscribers the address `email` is held.
    fn position_of_email(&self, email: &SubscriberEmail) -> (r: Option<usize>)
        ensures
            match r {
                Some(i) => i < self@.subscribers.len() && self@.subscribers[i as int].email
                    == email@,
                None => !holds_email(self@.subscribers, email@),
            },
    {
        let mut i: usize = 0;
        while i < self.subscribers.len()
            invariant
                i <= self.subscribers.len(),
                forall|j: int| 0 <= j < i ==> (#[trigger] self@.subscribers[j]).email != email@,
            decreases self.subscribers.len() - i,
        {
            if self.subscribers[i].email.same_as(email) {
                return Some(i);
            }
            i += 1;
        }
        None
    }

    /// Where among the committed subscribers the identifier `id` is held.
    fn position_of_id(&self, id: u128) -> (r: Option<usize>)
        ensures
            match r {
                Some(i) => i < self@.subscribers.len() && self@.subscribers[i as int].id == id,
                None => !holds_id(self@.subscribers, id),
            },
    {
        let mut i: usize = 0;
        while i < self.subscribers.len()
            invariant
                i <= self.subscribers.len(),
                forall|j: int| 0 <= j < i ==> (#[trigger] self@.subscribers[j]).id != id,
            decreases self.subscribers.len() - i,
        {
            if self.subscribers[i].id == id {
                return Some(i);
            }
            i += 1;
        }
        None
    }

    /// Where among the committed tokens the text `token` is held.
    fn position_of_token(&self, token: &String) -> (r: Option<usize>)
        ensures
            match r {
                Some(i) => i < self@.tokens.len() && self@.tokens[i as int].token == token@,
                None => !holds_token(self@.tokens, token@),
            },
    {
        let mut i: usize = 0;
        while i < self.tokens.len()
            invariant
                i <= self.tokens.len(),
                forall|j: int| 0 <= j < i ==> (#[trigger] self@.tokens[j]).token != token@,
            decreases self.tokens.len() - i,
        {
            if self.tokens[i].token == *token {
                return Some(i);
            }
            i += 1;
        }
        None
    }

    /// Opens a transaction, unless one is open.
    pub fn begin(&mut self) -> (reply: Reply)
        requires
            old(self)@.consistent(),
        ensures
            (final(self)@, reply) == old(self)@.begin(),
            final(self)@.consistent(),
    {
        if self.open {
            Reply::Failed
        } else {
            self.open = true;
            assert(self@ == StoreView { open: true, ..old(self)@ });
            Reply::Done
        }
    }

    /// Writes a copy of `subscriber` in the open transaction.
    pub fn insert_subscriber(&mut self, subscriber: &Subscriber) -> (reply: Reply)
        requires
            old(self)@.consistent(),
        ensures
            (final(self)@, reply) == old(self)@.insert_subscriber(subscriber@),
            final(self)@.consistent(),
    {
        if !self.open || self.staged_subscriber.is_some() {
            return Reply::Failed;
        }
        if self.position_of_email(&subscriber.email).is_some() {
            return Reply::Duplicate;
        }
        if self.position_of_id(subscriber.id).is_some() {
            return Reply::Failed;
        }
        self.staged_subscriber = Some(subscriber.duplicate());
        Reply::Done
    }

    /// Writes a copy of `token` in the open transaction.
    pub fn store_token(&mut self, token: &SubscriptionToken) -> (reply: Reply)
        requires
            old(self)@.consistent(),
        ensures
            (final(self)@, reply) == old(self)@.store_token(token@),
            final(self)@.consistent(),
    {
        if !self.open || self.staged_token.is_some() {
            return Reply::Failed;
        }
        if self.position_of_token(&token.token).is_some() {
            return Reply::Failed;
        }
        let written_here = match &self.staged_subscriber {
            Some(subscriber) => subscriber.id == token.subscriber_id,
            None => false,
        };
        if !written_here && self.position_of_id(token.subscriber_id).is_none() {
            return Reply::Failed;
        }
        self.staged_token = Some(token.duplicate());
        Reply::Done
    }

    /// Commits the open transaction: what it wrote joins the records held.
    pub fn commit(&mut self) -> (reply: Reply)
        requires
            old(self)@.consistent(),
        ensures
            (final(self)@, reply) == old(self)@.commit(),
            final(self)@.consistent(),
            final(self)@.at_rest(),
    {
        if !self.open {
            return Reply::Failed;
        }
        let ghost before = self@;
        let staged_subscriber = self.staged_subscriber.take();
        let staged_token = self.staged_token.take();
        if let Some(subscriber) = staged_subscriber {
            self.subscribers.push(subscriber);
        }
        if let Some(token) = staged_token {
            self.tokens.push(token);
        }
        self.open = false;
        proof {
            assert(self@.subscribers =~= before.subscribers_with_staged());
            assert(self@.tokens =~= before.tokens_with_staged());
            lemma_commit_keeps_constraints(before);
        }
        Reply::Done
    }

    /// Undoes the open transaction, if there is one.
    pub fn rollback(&mut self) -> (reply: Reply)
        requires
            old(self)@.consistent(),
        ensures
            final(self)@ == old(self)@.rollback(),
            reply == Reply::Done,
            final(self)@.consistent(),
            final(self)@.at_rest(),
    {
        self.staged_token = None;
        self.staged_subscriber = None;
        self.open = false;
        Reply::Done
    }

    /// The subscriber that the token with the text `token` belongs to, if
    /// the store holds such a token. Only committed tokens are found, and
    /// only by their exact text.
    pub fn find_token(&self, token: &str) -> (owner: Option<u128>)
        requires
            self@.consistent(),
        ensures
            owner == self@.owner_of(token@),
            owner is Some <==> holds_token(self@.tokens, token@),
    {
        let text = String::from_str(token);
        match self.position_of_token(&text) {
            Some(i) => {
                proof {
                    let k = choose|k: int|
                        0 <= k < self@.tokens.len() && (#[trigger] self@.tokens[k]).token
                            == token@;
                    assert(self@.tokens[i as int].token == self@.tokens[k].token);
                    assert(k == i);
                }
                Some(self.tokens[i].subscriber_id)
            },
            None => None,
        }
    }

    /// Sets the status of the subscriber `id` to `Confirmed`. A subscriber
    /// that is confirmed already stays so; where no subscriber has this
    /// identifier, nothing changes.
    pub fn mark_confirmed(&mut self, id: u128)
        requires
            old(self)@.consistent(),
        ensures
            final(self)@ == old(self)@.confirm(id),
            final(self)@.consistent(),
    {
        let ghost before = self@;
        match self.position_of_id(id) {
            Some(i) => {
                let current = self.subscribers[i].duplicate();
                self.subscribers.set(
                    i,
                    Subscriber { status: SubscriptionStatus::Confirmed, ..current },
                );
                proof {
                    assert forall|j: int| 0 <= j < before.subscribers.len() implies (
                    #[trigger] self@.subscribers[j]) == before.confirm(id).subscribers[j] by {
                        if j != i {
                            assert(before.subscribers[j].id != before.subscribers[i as int].id);
                        }
                    }
                    assert(self@.subscribers =~= before.confirm(id).subscribers);
                }
            },
            None => {
                proof {
                    assert(self@.subscribers =~= before.confirm(id).subscribers);
                }
            },
        }
        proof {
            lemma_confirm_keeps_constraints(before, id);
        }
    }

    /// The committed subscribers, in the order in which they were written.
    pub fn subscribers(&self) -> (subscribers: &Vec<Subscriber>)
        ensures
            subscriber_views(subscribers@) == self@.subscribers,
    {
        &self.subscribers
    }

    /// The committed tokens, in the order in which they were written.
    pub fn tokens(&self) -> (tokens: &Vec<SubscriptionToken>)
        ensures
            token_views(tokens@) == self@.tokens,
    {
        &self.tokens
    }
}

/// A commit leaves the constraints of the relations in force.
pub proof fn lemma_commit_keeps_constraints(store: StoreView)
    requires
        store.consistent(),
        store.open,
    ensures
        store.commit().0.consistent(),
        store.commit().0.at_rest(),
{
    let after = store.commit().0;
    assert forall|i: int| 0 <= i < after.tokens.len() implies holds_id(
        after.subscribers,
        (#[trigger] after.tokens[i]).subscriber_id,
    ) by {
        let id = after.tokens[i].subscriber_id;
        if holds_id(store.subscribers, id) {
            let k = choose|k: int|
                0 <= k < store.subscribers.len() && (#[trigger] store.subscribers[k]).id == id;
            assert(after.subscribers[k].id == id);
        } else {
            let last = after.subscribers.len() - 1;
            assert(after.subscribers[last].id == id);
        }
    }
}

/// Confirming a subscriber leaves the constraints of the relations in force.
pub proof fn lemma_confirm_keeps_constraints(store: StoreView, id: u128)
    requires
        store.consistent(),
    ensures
        store.confirm(id).consistent(),
        store.confirm(id).at_rest() == store.at_rest(),
        store.confirm(id).subscribers.len() == store.subscribers.len(),
        forall|i: int|
            0 <= i < store.subscribers.len() ==> (#[trigger] store.confirm(id).subscribers[i]).id
                == store.subscribers[i].id && store.confirm(id).subscribers[i].email
                == store.subscribers[i].email,
{
    let after = store.confirm(id);
    assert forall|wanted: u128| holds_id(store.subscribers, wanted) implies holds_id(
        after.subscribers,
        wanted,
    ) by {
        let k = choose|k: int|
            0 <= k < store.subscribers.len() && (#[trigger] store.subscribers[k]).id == wanted;
        assert(after.subscribers[k].id == wanted);
    }
    assert forall|i: int| 0 <= i < after.tokens.len() implies holds_id(
        after.subscribers,
        (#[trigger] after.tokens[i]).subscriber_id,
    ) by {
        assert(holds_id(store.subscribers, store.tokens[i].subscriber_id));
    }
    assert forall|wanted: u128| holds_id(after.subscribers, wanted) implies holds_id(
        store.subscribers,
        wanted,
    ) by {
        let k = choose|k: int|
            0 <= k < after.subscribers.len() && (#[trigger] after.subscribers[k]).id == wanted;
        assert(store.subscribers[k].id == wanted);
    }
    assert forall|wanted: Seq<char>| holds_email(after.subscribers, wanted) implies holds_email(
        store.subscribers,
        wanted,
    ) by {
        let k = choose|k: int|
            0 <= k < after.subscribers.len() && (#[trigger] after.subscribers[k]).email
                == wanted;
        assert(store.subscribers[k].email == wanted);
    }
}

} // verus!
