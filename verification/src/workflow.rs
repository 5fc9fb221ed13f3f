//! The two workflows run to their end against the store and the outbox
//! held in memory, and what holds of every such run.

use crate::domain::subscriber::{
    is_clock_reading, is_random_identifier, SubscriberView, SubscriptionStatus, Timestamp,
};
use crate::domain::subscription_token::is_token_text;
use crate::domain::NewSubscriber;
use crate::email_client::{Outbox, OutboxView};
use crate::routes::form::{decoded_pairs, fields_of};
use crate::routes::subscriptions::{
    action_at, actions_left, initial_subscription, reported, subscribe, validated, Action,
    Failure, FormData, Stage, SubscribeError, Subscription, SubscriptionView,
};
use crate::routes::subscriptions_confirm::{
    confirm, confirm_action_at, confirm_actions_left, ConfirmAction, ConfirmFailure,
    ConfirmReply, ConfirmStage, Confirmation, Parameters,
};
use crate::startup::ApplicationBaseUrl;
use crate::store::{
    holds_email, holds_id, holds_token, holds_token_of, lemma_commit_keeps_constraints,
    lemma_confirm_keeps_constraints, Store, StoreView,
};
use vstd::prelude::*;

verus! {

/// How creating the subscription `subscription` ends on the store `store`,
/// with a notifier that accepts messages or does not.
///
/// A transaction that cannot be opened, an identifier that is taken and a
/// token that is taken are failures of the store; an address that is taken
/// is a conflict; a message that is refused is a failure of delivery.
pub open spec fn creation_outcome(
    store: StoreView,
    accepting: bool,
    subscription: SubscriptionView,
) -> Result<(), Failure> {
    if store.open {
        Err(Failure::Persistence)
    } else if holds_email(store.subscribers, subscription.subscriber.email) {
        Err(Failure::Conflict)
    } else if holds_id(store.subscribers, subscription.subscriber.id) || holds_token(
        store.tokens,
        subscription.token.token,
    ) {
        Err(Failure::Persistence)
    } else if !accepting {
        Err(Failure::Delivery)
    } else {
        Ok(())
    }
}

/// The outcome leaves the two records in the store: success does, and so
/// does a failure of delivery, which comes after the commit.
pub open spec fn is_recorded(outcome: Result<(), Failure>) -> bool {
    outcome is Ok || outcome == Err::<(), Failure>(Failure::Delivery)
}

/// The store `store` with both records of `subscription` committed.
pub open spec fn with_records(store: StoreView, subscription: SubscriptionView) -> StoreView {
    StoreView {
        subscribers: store.subscribers.push(subscription.subscriber),
        tokens: store.tokens.push(subscription.token),
        ..store
    }
}

/// The store after creating `subscription` on `store`: both records are
/// held, or neither.
pub open spec fn store_after_creation(
    store: StoreView,
    accepting: bool,
    subscription: SubscriptionView,
) -> StoreView {
    if is_recorded(creation_outcome(store, accepting, subscription)) {
        with_records(store, subscription)
    } else {
        store
    }
}

/// The outbox after creating `subscription`: it holds the message exactly
/// when the creation succeeded.
pub open spec fn outbox_after_creation(
    store: StoreView,
    outbox: OutboxView,
    subscription: SubscriptionView,
) -> OutboxView {
    if creation_outcome(store, outbox.accepting, subscription) is Ok {
        OutboxView { sent: outbox.sent.push(subscription.email), ..outbox }
    } else {
        outbox
    }
}

/// What holds of the store and the outbox while `subscription`, begun on
/// `store0` and `outbox0`, stands at `stage`.
pub open spec fn in_progress(
    stage: Stage,
    store0: StoreView,
    outbox0: OutboxView,
    subscription: SubscriptionView,
    store: StoreView,
    outbox: OutboxView,
) -> bool {
    let outcome = creation_outcome(store0, outbox0.accepting, subscription);
    let subscriber = subscription.subscriber;
    let token = subscription.token;
    match stage {
        Stage::Opening => store == store0 && outbox == outbox0,
        Stage::InsertingSubscriber => {
            &&& !store0.open
            &&& outbox == outbox0
            &&& store == StoreView { open: true, ..store0 }
        },
        Stage::StoringToken => {
            &&& !store0.open
            &&& outbox == outbox0
            &&& !holds_email(store0.subscribers, subscriber.email)
            &&& !holds_id(store0.subscribers, subscriber.id)
            &&& store == StoreView { open: true, staged_subscriber: Some(subscriber), ..store0 }
        },
        Stage::Committing => {
            &&& !store0.open
            &&& outbox == outbox0
            &&& is_recorded(outcome)
            &&& store == StoreView {
                open: true,
                staged_subscriber: Some(subscriber),
                staged_token: Some(token),
                ..store0
            }
        },
        Stage::Notifying => {
            &&& outbox == outbox0
            &&& is_recorded(outcome)
            &&& store == with_records(store0, subscription)
        },
        Stage::RollingBack(failure) => {
            &&& !store0.open
            &&& outbox == outbox0
            &&& outcome == Err::<(), Failure>(failure)
            &&& failure != Failure::Delivery
            &&& store.rollback() == store0
        },
        Stage::Succeeded => {
            &&& outcome is Ok
            &&& store == store_after_creation(store0, outbox0.accepting, subscription)
            &&& outbox == outbox_after_creation(store0, outbox0, subscription)
        },
        Stage::Failed(failure) => {
            &&& outcome == Err::<(), Failure>(failure)
            &&& store == store_after_creation(store0, outbox0.accepting, subscription)
            &&& outbox == outbox_after_creation(store0, outbox0, subscription)
        },
    }
}

/// Runs `subscription` from its first action to its end: every action is
/// carried out on `store` or `outbox`, and its answer decides the next one.
fn run_subscription(store: &mut Store, outbox: &mut Outbox, subscription: Subscription) -> (r:
    Result<(), Failure>)
    requires
        old(store)@.consistent(),
        subscription@.stage == Stage::Opening,
        subscription@.token.subscriber_id == subscription@.subscriber.id,
    ensures
        final(store)@.consistent(),
        r == creation_outcome(old(store)@, old(outbox)@.accepting, subscription@),
        final(store)@ == store_after_creation(
            old(store)@,
            old(outbox)@.accepting,
            subscription@,
        ),
        final(outbox)@ == outbox_after_creation(old(store)@, old(outbox)@, subscription@),
{
    let ghost store0 = store@;
    let ghost outbox0 = outbox@;
    let ghost prepared = subscription@;
    let mut current = subscription;
    let mut action = current.action();
    loop
        invariant
            store0 == old(store)@,
            outbox0 == old(outbox)@,
            prepared == subscription@,
            store@.consistent(),
            store0.consistent(),
            prepared.token.subscriber_id == prepared.subscriber.id,
            current@ == (SubscriptionView { stage: current@.stage, ..prepared }),
            action == action_at(current@.stage),
            in_progress(current@.stage, store0, outbox0, prepared, store@, outbox@),
        decreases actions_left(current@.stage),
    {
        let reply = match action {
            Action::Succeed => {
                return Ok(());
            },
            Action::Fail(failure) => {
                return Err(failure);
            },
            Action::BeginTransaction => store.begin(),
            Action::InsertSubscriber => store.insert_subscriber(current.subscriber()),
            Action::StoreToken => store.store_token(current.token()),
            Action::Commit => store.commit(),
            Action::Rollback => store.rollback(),
            Action::SendConfirmation => outbox.send(current.email()),
        };
        action = subscribe(&mut current, reply);
    }
}

/// Creates the subscription of `new_subscriber` on `store`, under the
/// identifier `id`, at the time `now` and with the token `token`, and hands
/// the confirmation message to `outbox`.
///
/// The two records are written together or not at all. The message is
/// handed over after the commit; if the outbox refuses it the records stay
/// and the operation still fails.
pub fn create_subscription_with(
    store: &mut Store,
    outbox: &mut Outbox,
    new_subscriber: NewSubscriber,
    id: u128,
    now: Timestamp,
    token: String,
    base_url: &ApplicationBaseUrl,
) -> (r: Result<(), Failure>)
    requires
        old(store)@.consistent(),
    ensures
        final(store)@.consistent(),
        ({
            let subscription = initial_subscription(
                new_subscriber.name@,
                new_subscriber.email@,
                id,
                now,
                token@,
                base_url.0@,
            );
            &&& r == creation_outcome(old(store)@, old(outbox)@.accepting, subscription)
            &&& final(store)@ == store_after_creation(
                old(store)@,
                old(outbox)@.accepting,
                subscription,
            )
            &&& final(outbox)@ == outbox_after_creation(old(store)@, old(outbox)@, subscription)
        }),
{
    let subscription = Subscription::new(new_subscriber, id, now, token, base_url);
    run_subscription(store, outbox, subscription)
}

/// Creating a subscription leaves the constraints of the store in force,
/// and it writes both records or none: if every subscriber had a token
/// before, every subscriber has one after.
pub proof fn lemma_creation_keeps_constraints(
    store: StoreView,
    accepting: bool,
    subscription: SubscriptionView,
)
    requires
        store.consistent(),
        subscription.token.subscriber_id == subscription.subscriber.id,
    ensures
        store_after_creation(store, accepting, subscription).consistent(),
        store.subscribers_have_tokens() ==> store_after_creation(
            store,
            accepting,
            subscription,
        ).subscribers_have_tokens(),
{
    let after = store_after_creation(store, accepting, subscription);
    if is_recorded(creation_outcome(store, accepting, subscription)) {
        let staged = StoreView {
            open: true,
            staged_subscriber: Some(subscription.subscriber),
            staged_token: Some(subscription.token),
            ..store
        };
        lemma_commit_keeps_constraints(staged);
        assert(after == staged.commit().0);
        if store.subscribers_have_tokens() {
            assert forall|i: int| 0 <= i < after.subscribers.len() implies holds_token_of(
                after.tokens,
                (#[trigger] after.subscribers[i]).id,
            ) by {
                if i < store.subscribers.len() {
                    assert(holds_token_of(store.tokens, store.subscribers[i].id));
                    let t = choose|t: int|
                        0 <= t < store.tokens.len() && (#[trigger] store.tokens[t]).subscriber_id
                            == store.subscribers[i].id;
                    assert(after.tokens[t].subscriber_id == after.subscribers[i].id);
                } else {
                    let t = after.tokens.len() - 1;
                    assert(after.tokens[t].subscriber_id == after.subscribers[i].id);
                }
            }
        }
    }
}

/// Of two requests with the same address only one is recorded. Once the
/// first has written its records, the second is answered with a conflict
/// and changes nothing, whichever of the two came first; the store then
/// holds the address once.
pub proof fn lemma_address_is_recorded_once(
    store: StoreView,
    first: SubscriptionView,
    first_accepted: bool,
    second: SubscriptionView,
    second_accepted: bool,
)
    requires
        store.consistent(),
        first.token.subscriber_id == first.subscriber.id,
        first.subscriber.email == second.subscriber.email,
        is_recorded(creation_outcome(store, first_accepted, first)),
    ensures
        ({
            let after = store_after_creation(store, first_accepted, first);
            &&& after.consistent()
            &&& after.subscribers == store.subscribers.push(first.subscriber)
            &&& creation_outcome(after, second_accepted, second) == Err::<(), Failure>(
                Failure::Conflict,
            )
            &&& store_after_creation(after, second_accepted, second) == after
        }),
{
    let after = store_after_creation(store, first_accepted, first);
    lemma_creation_keeps_constraints(store, first_accepted, first);
    let last = after.subscribers.len() - 1;
    assert(after.subscribers[last].email == second.subscriber.email);
}

/// A request is recorded whenever the store is at rest and holds neither
/// its address, nor its identifier, nor its token.
pub proof fn lemma_fresh_request_is_recorded(
    store: StoreView,
    accepting: bool,
    subscription: SubscriptionView,
)
    requires
        !store.open,
        !holds_email(store.subscribers, subscription.subscriber.email),
        !holds_id(store.subscribers, subscription.subscriber.id),
        !holds_token(store.tokens, subscription.token.token),
    ensures
        is_recorded(creation_outcome(store, accepting, subscription)),
        creation_outcome(store, accepting, subscription) is Ok <==> accepting,
{
}

/// The token that a recorded request issued confirms the subscriber of that
/// request: presenting it succeeds and leaves that subscriber confirmed.
pub proof fn lemma_issued_token_confirms(
    store: StoreView,
    accepting: bool,
    subscription: SubscriptionView,
)
    requires
        store.consistent(),
        subscription.token.subscriber_id == subscription.subscriber.id,
        is_recorded(creation_outcome(store, accepting, subscription)),
    ensures
        ({
            let created = store_after_creation(store, accepting, subscription);
            let confirmed = store_after_confirmation(created, subscription.token.token);
            let last = store.subscribers.len() as int;
            &&& confirmation_outcome(created, subscription.token.token) is Ok
            &&& created.owner_of(subscription.token.token) == Some(subscription.subscriber.id)
            &&& confirmed.subscribers.len() == last + 1
            &&& created.subscribers[last] == subscription.subscriber
            &&& confirmed.subscribers[last] == (SubscriberView {
                status: SubscriptionStatus::Confirmed,
                ..subscription.subscriber
            })
        }),
{
    let token = subscription.token.token;
    let created = store_after_creation(store, accepting, subscription);
    lemma_creation_keeps_constraints(store, accepting, subscription);
    let at = created.tokens.len() - 1;
    assert(created.tokens[at].token == token);
    let chosen = choose|i: int|
        0 <= i < created.tokens.len() && (#[trigger] created.tokens[i]).token == token;
    assert(created.tokens[chosen].token == created.tokens[at].token);
    assert(chosen == at);
}

/// Confirming is idempotent: with a token that the store holds, confirming
/// succeeds, and confirming once more succeeds again and changes nothing.
pub proof fn lemma_confirmation_is_idempotent(store: StoreView, token: Seq<char>)
    requires
        store.consistent(),
        holds_token(store.tokens, token),
    ensures
        ({
            let once = store_after_confirmation(store, token);
            &&& confirmation_outcome(store, token) is Ok
            &&& once.consistent()
            &&& confirmation_outcome(once, token) is Ok
            &&& store_after_confirmation(once, token) == once
        }),
{
    let once = store_after_confirmation(store, token);
    let owner = store.owner_of(token)->0;
    lemma_confirm_keeps_constraints(store, owner);
    assert(once.tokens == store.tokens);
    assert(once.owner_of(token) == store.owner_of(token));
    assert(once.confirm(owner).subscribers =~= once.subscribers);
}

/// A token that the store does not hold confirms nothing: the answer is
/// `NotFound` and no record changes.
pub proof fn lemma_unknown_token_changes_nothing(store: StoreView, token: Seq<char>)
    requires
        !holds_token(store.tokens, token),
    ensures
        confirmation_outcome(store, token) == Err::<(), ConfirmFailure>(ConfirmFailure::NotFound),
        store_after_confirmation(store, token) == store,
{
}

/// No record is ever removed or rewritten. Creating a subscription leaves
/// every record that was held as it was. Confirming leaves every token as
/// it was and changes of a subscriber at most the status, and that only to
/// `Confirmed`: a subscriber that is confirmed stays confirmed.
pub proof fn lemma_records_are_kept(
    store: StoreView,
    token: Seq<char>,
    accepting: bool,
    subscription: SubscriptionView,
    i: int,
)
    requires
        0 <= i < store.subscribers.len(),
    ensures
        ({
            let created = store_after_creation(store, accepting, subscription);
            let confirmed = store_after_confirmation(store, token);
            let before = store.subscribers[i];
            &&& created.subscribers.len() >= store.subscribers.len()
            &&& created.tokens.len() >= store.tokens.len()
            &&& created.subscribers[i] == before
            &&& forall|t: int| 0 <= t < store.tokens.len() ==> created.tokens[t] == store.tokens[t]
            &&& confirmed.subscribers.len() == store.subscribers.len()
            &&& confirmed.tokens == store.tokens
            &&& confirmed.subscribers[i] == before || confirmed.subscribers[i] == (SubscriberView {
                status: SubscriptionStatus::Confirmed,
                ..before
            })
            &&& before.status == SubscriptionStatus::Confirmed ==> confirmed.subscribers[i]
                == before
        }),
{
}

/// Creating `subscription` on `store0` and `outbox0` ended with `result` and
/// left `store` and `outbox`.
pub open spec fn is_creation(
    store0: StoreView,
    outbox0: OutboxView,
    subscription: SubscriptionView,
    result: Result<(), SubscribeError>,
    store: StoreView,
    outbox: OutboxView,
) -> bool {
    &&& result == reported(creation_outcome(store0, outbox0.accepting, subscription))
    &&& store == store_after_creation(store0, outbox0.accepting, subscription)
    &&& outbox == outbox_after_creation(store0, outbox0, subscription)
}

/// Handles a request to subscribe: decodes the payload, validates its
/// fields, and creates the subscription with a fresh identifier, the
/// current time and a fresh token.
///
/// A payload of the wrong shape and an invalid field are turned away in
/// this order, and then neither the store nor the outbox is touched.
/// Otherwise the request ends as `create_subscription_with` says, for the
/// identifier, the time and the token that were drawn.
pub fn create_subscription(
    store: &mut Store,
    outbox: &mut Outbox,
    body: &[u8],
    base_url: &ApplicationBaseUrl,
) -> (r: Result<(), SubscribeError>)
    requires
        old(store)@.consistent(),
    ensures
        final(store)@.consistent(),
        match fields_of(decoded_pairs(body@)) {
            Err(error) => {
                &&& r == Err::<(), SubscribeError>(SubscribeError::InputShape(error))
                &&& final(store)@ == old(store)@
                &&& final(outbox)@ == old(outbox)@
            },
            Ok((email, name)) => match validated(name, email) {
                Err(rejection) => {
                    &&& r matches Err(SubscribeError::Validation(message)) && message@
                        == rejection
                    &&& final(store)@ == old(store)@
                    &&& final(outbox)@ == old(outbox)@
                },
                Ok(_) => exists|id: u128, now: Timestamp, token: Seq<char>|
                    {
                        &&& is_random_identifier(id)
                        &&& is_clock_reading(now)
                        &&& is_token_text(token)
                        &&& is_creation(
                            old(store)@,
                            old(outbox)@,
                            #[trigger] initial_subscription(
                                name,
                                email,
                                id,
                                now,
                                token,
                                base_url.0@,
                            ),
                            r,
                            final(store)@,
                            final(outbox)@,
                        )
                    },
            },
        },
{
    let form = match FormData::decode(body) {
        Ok(form) => form,
        Err(error) => {
            return Err(SubscribeError::InputShape(error));
        },
    };
    let ghost name = form.name@;
    let ghost email = form.email@;
    let subscription = match Subscription::start(form, base_url) {
        Ok(subscription) => subscription,
        Err(message) => {
            return Err(SubscribeError::Validation(message));
        },
    };
    let ghost prepared = subscription@;
    let outcome = run_subscription(store, outbox, subscription);
    let r = match outcome {
        Ok(()) => Ok(()),
        Err(failure) => Err(SubscribeError::from_failure(failure)),
    };
    proof {
        assert(prepared == initial_subscription(
            name,
            email,
            prepared.subscriber.id,
            prepared.subscriber.subscribed_at,
            prepared.token.token,
            base_url.0@,
        ));
        assert(is_creation(old(store)@, old(outbox)@, prepared, r, store@, outbox@));
    }
    r
}

/// How confirming with the token text `token` ends on `store`.
pub open spec fn confirmation_outcome(store: StoreView, token: Seq<char>) -> Result<
    (),
    ConfirmFailure,
> {
    if holds_token(store.tokens, token) {
        Ok(())
    } else {
        Err(ConfirmFailure::NotFound)
    }
}

/// The store after confirming with the token text `token`: the subscriber
/// that the token belongs to is confirmed; without such a token nothing
/// changes.
pub open spec fn store_after_confirmation(store: StoreView, token: Seq<char>) -> StoreView {
    match store.owner_of(token) {
        Some(subscriber_id) => store.confirm(subscriber_id),
        None => store,
    }
}

/// What holds of the store while a confirmation, begun on `store0` with
/// the token text `token`, stands at `stage`.
pub open spec fn confirming(
    stage: ConfirmStage,
    store0: StoreView,
    token: Seq<char>,
    store: StoreView,
) -> bool {
    match stage {
        ConfirmStage::LookingUp => store == store0,
        ConfirmStage::Marking(subscriber_id) => store == store0 && store0.owner_of(token)
            == Some(subscriber_id),
        ConfirmStage::Succeeded => store0.owner_of(token) is Some && store
            == store_after_confirmation(store0, token),
        ConfirmStage::Failed(failure) => store0.owner_of(token) is None && store == store0
            && failure == ConfirmFailure::NotFound,
    }
}

/// Handles a request to confirm a subscription: looks the token up by its
/// exact text and marks its subscriber as confirmed.
///
/// A token that the store does not hold is answered with `NotFound`, and
/// nothing changes. A token stays valid after use: confirming again
/// succeeds again and leaves the subscriber confirmed.
pub fn confirm_subscription(store: &mut Store, parameters: Parameters) -> (r: Result<
    (),
    ConfirmFailure,
>)
    requires
        old(store)@.consistent(),
    ensures
        final(store)@.consistent(),
        r == confirmation_outcome(old(store)@, parameters.subscription_token@),
        final(store)@ == store_after_confirmation(old(store)@, parameters.subscription_token@),
{
    let ghost store0 = store@;
    let ghost token = parameters.subscription_token@;
    let mut confirmation = Confirmation::start(parameters);
    let mut action = confirmation.action();
    loop
        invariant
            store0 == old(store)@,
            token == parameters.subscription_token@,
            store@.consistent(),
            confirmation@.token == token,
            action == confirm_action_at(confirmation@.stage),
            confirming(confirmation@.stage, store0, token, store@),
        decreases confirm_actions_left(confirmation@.stage),
    {
        let reply = match action {
            ConfirmAction::Succeed => {
                return Ok(());
            },
            ConfirmAction::Fail(failure) => {
                return Err(failure);
            },
            ConfirmAction::FindToken => match store.find_token(confirmation.token()) {
                Some(subscriber_id) => ConfirmReply::Found(subscriber_id),
                None => ConfirmReply::NotFound,
            },
            ConfirmAction::MarkConfirmed(subscriber_id) => {
                store.mark_confirmed(subscriber_id);
                ConfirmReply::Done
            },
        };
        action = confirm(&mut confirmation, reply);
    }
}

} // verus!
