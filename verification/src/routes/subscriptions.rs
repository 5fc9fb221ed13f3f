use crate::domain::subscriber_email::{
    email_rejection, is_alphanumeric_char, is_valid_email, SubscriberEmail,
};
use crate::domain::subscriber_name::{is_valid_name, name_rejection, SubscriberName};
use crate::domain::subscriber::{
    is_clock_reading, is_random_identifier, pending_record, Subscriber, SubscriberView, Timestamp,
};
use crate::domain::subscription_token::{
    is_token_text, SubscriptionToken, SubscriptionTokenView, TOKEN_LENGTH,
};
use crate::domain::NewSubscriber;
use crate::routes::form::{
    decoded_pairs, fields_of, find_field, pair_views, parse_pairs, Field, FormError, Occurrence,
    Pairs,
};
use crate::startup::ApplicationBaseUrl;
use rand::distributions::Alphanumeric;
use rand::rngs::ThreadRng;
use rand::Rng;
use vstd::prelude::*;
use vstd::std_specs::convert::TryFromSpecImpl;
use vstd::string::StringExecFns;

verus! {

/// The fields of a subscription request, as they were sent.
pub struct FormData {
    pub email: String,
    pub name: String,
}

/// The request that `r` holds is the one that `pairs` stand for, or `r` is
/// what is wrong with their shape.
pub open spec fn is_form_of(r: Result<FormData, FormError>, pairs: Pairs) -> bool {
    match (r, fields_of(pairs)) {
        (Ok(form), Ok((email, name))) => form.email@ == email && form.name@ == name,
        (Err(error), Err(expected)) => error == expected,
        _ => false,
    }
}

impl FormData {
    /// Picks the two fields of a request out of the decoded pairs of a
    /// payload. Each must occur exactly once; other pairs are passed over.
    pub fn from_pairs(pairs: &Vec<(String, String)>) -> (r: Result<FormData, FormError>)
        ensures
            is_form_of(r, pair_views(pairs@)),
    {
        let email = find_field(pairs, "email");
        let name = find_field(pairs, "name");
        match email {
            Occurrence::Never => Err(FormError::Missing(Field::Email)),
            Occurrence::Repeatedly => Err(FormError::Duplicate(Field::Email)),
            Occurrence::Once(email_at) => match name {
                Occurrence::Never => Err(FormError::Missing(Field::Name)),
                Occurrence::Repeatedly => Err(FormError::Duplicate(Field::Name)),
                Occurrence::Once(name_at) => Ok(
                    FormData { email: pairs[email_at].1.clone(), name: pairs[name_at].1.clone() },
                ),
            },
        }
    }

    /// Decodes a payload in the syntax `application/x-www-form-urlencoded`
    /// into a request. A payload without exactly one `email` and one `name`
    /// is turned away; an empty payload lacks the address.
    pub fn decode(body: &[u8]) -> (r: Result<FormData, FormError>)
        ensures
            is_form_of(r, decoded_pairs(body@)),
            body@.len() == 0 ==> r == Err::<FormData, FormError>(
                FormError::Missing(Field::Email),
            ),
    {
        let pairs = parse_pairs(body);
        FormData::from_pairs(&pairs)
    }
}

/// What validating a request with the given name and address yields: the
/// two texts, or the message that rejects the first of them that is invalid.
/// The name is looked at first.
pub open spec fn validated(name: Seq<char>, email: Seq<char>) -> Result<
    (Seq<char>, Seq<char>),
    Seq<char>,
> {
    if !is_valid_name(name) {
        Err(name_rejection(name))
    } else if !is_valid_email(email) {
        Err(email_rejection(email))
    } else {
        Ok((name, email))
    }
}

/// The validation result `r` is the one that `validated` describes.
pub open spec fn is_validation_of(
    r: Result<NewSubscriber, String>,
    name: Seq<char>,
    email: Seq<char>,
) -> bool {
    match (r, validated(name, email)) {
        (Ok(subscriber), Ok((n, e))) => subscriber.name@ == n && subscriber.email@ == e,
        (Err(message), Err(m)) => message@ == m,
        _ => false,
    }
}

/// Validates both fields of a request. It succeeds exactly when the name and
/// the address are both valid, and then holds them unchanged.
pub fn parse_subscriber(form: FormData) -> (r: Result<NewSubscriber, String>)
    ensures
        r is Ok <==> is_valid_name(form.name@) && is_valid_email(form.email@),
        is_validation_of(r, form.name@, form.email@),
{
    let name = match SubscriberName::parse(form.name) {
        Ok(name) => name,
        Err(message) => { return Err(message); },
    };
    let email = match SubscriberEmail::parse(form.email) {
        Ok(email) => email,
        Err(message) => { return Err(message); },
    };
    Ok(NewSubscriber { email, name })
}

/// The conversion is described by the contract of `try_from` itself, over
/// the texts that the values hold, not by a value of its own.
impl TryFromSpecImpl<FormData> for NewSubscriber {
    open spec fn obeys_try_from_spec() -> bool {
        false
    }

    open spec fn try_from_spec(value: FormData) -> Result<Self, String> {
        arbitrary()
    }
}

impl TryFrom<FormData> for NewSubscriber {
    type Error = String;

    /// The same validation as `parse_subscriber`.
    fn try_from(value: FormData) -> (r: Result<Self, Self::Error>)
        ensures
            r is Ok <==> is_valid_name(value.name@) && is_valid_email(value.email@),
            is_validation_of(r, value.name@, value.email@),
    {
        parse_subscriber(value)
    }
}

/// The generator of random numbers that each thread keeps.
#[verifier::external_type_specification]
#[verifier::external_body]
pub struct ExThreadRng(rand::rngs::ThreadRng);

/// `rand::thread_rng`: the generator of the current thread, seeded by the
/// system. Nothing is promised of it. The call stops the program if the
/// system's source of randomness fails.
#[verifier::external_body]
fn thread_rng() -> ThreadRng {
    rand::thread_rng()
}

/// `Rng::sample` with the distribution `Alphanumeric`: one byte drawn from
/// the 62 ASCII letters and digits. Which one is left open.
#[verifier::external_body]
fn sample_alphanumeric(rng: &mut ThreadRng) -> (byte: u8)
    ensures
        is_alphanumeric_char(byte as char),
{
    rng.sample(Alphanumeric)
}

/// `String::push`: the character is appended to the text.
#[verifier::external_body]
fn push_char(text: &mut String, c: char)
    ensures
        final(text)@ == old(text)@.push(c),
{
    text.push(c)
}

/// The text whose characters have the codes `bytes`, in order.
pub open spec fn text_of_bytes(bytes: Seq<u8>) -> Seq<char> {
    bytes.map_values(|byte: u8| byte as char)
}

/// The token that is made of the bytes drawn for it: each byte becomes the
/// character with its code.
pub fn token_from_bytes(bytes: &Vec<u8>) -> (token: String)
    ensures
        token@ == text_of_bytes(bytes@),
{
    let mut token = String::new();
    let mut i: usize = 0;
    while i < bytes.len()
        invariant
            i <= bytes.len(),
            token@ == text_of_bytes(bytes@.take(i as int)),
        decreases bytes.len() - i,
    {
        push_char(&mut token, bytes[i] as char);
        assert(bytes@.take(i + 1) == bytes@.take(i as int).push(bytes[i as int]));
        i += 1;
    }
    assert(bytes@.take(bytes.len() as int) == bytes@);
    token
}

/// A fresh confirmation token: 25 letters and digits, each drawn at random
/// from a generator that is fit for secrets. Two calls are independent.
pub fn generate_subscriptions_token() -> (token: String)
    ensures
        is_token_text(token@),
{
    let mut rng = thread_rng();
    let mut drawn: Vec<u8> = Vec::new();
    while drawn.len() < TOKEN_LENGTH
        invariant
            drawn.len() <= TOKEN_LENGTH,
            forall|i: int|
                0 <= i < drawn.len() ==> is_alphanumeric_char((#[trigger] drawn[i]) as char),
        decreases TOKEN_LENGTH - drawn.len(),
    {
        let byte = sample_alphanumeric(&mut rng);
        drawn.push(byte);
    }
    token_from_bytes(&drawn)
}

/// The path and query under which a subscription is confirmed, up to the
/// token.
pub open spec fn confirmation_path() -> Seq<char> {
    "/subscriptions/confirm?subscription_token="@
}

/// The link that confirms the subscription which `token` belongs to.
pub open spec fn link_text(base_url: Seq<char>, token: Seq<char>) -> Seq<char> {
    base_url + confirmation_path() + token
}

/// The subject of the confirmation message.
pub open spec fn subject_text() -> Seq<char> {
    "Welcome!"@
}

/// The plain-text body of the confirmation message that carries `link`.
pub open spec fn plain_body_text(link: Seq<char>) -> Seq<char> {
    "Welcome to our newsletter!\nVisit "@ + link + " to confirm your subscription."@
}

/// The HTML body of the confirmation message that carries `link`.
pub open spec fn html_body_text(link: Seq<char>) -> Seq<char> {
    "Welcome to our newsletter!<br />Click <a href=\""@ + link
        + "\">here</a> to confirm your subscription."@
}

/// A message that asks a new subscriber to confirm.
pub struct ConfirmationEmail {
    pub recipient: SubscriberEmail,
    pub subject: String,
    pub html_body: String,
    pub text_body: String,
}

/// What a `ConfirmationEmail` holds, as plain values.
pub struct ConfirmationEmailView {
    pub recipient: Seq<char>,
    pub subject: Seq<char>,
    pub html_body: Seq<char>,
    pub text_body: Seq<char>,
}

impl View for ConfirmationEmail {
    type V = ConfirmationEmailView;

    open spec fn view(&self) -> ConfirmationEmailView {
        ConfirmationEmailView {
            recipient: self.recipient@,
            subject: self.subject@,
            html_body: self.html_body@,
            text_body: self.text_body@,
        }
    }
}

impl ConfirmationEmail {
    /// A copy of this message.
    pub fn duplicate(&self) -> (copy: Self)
        ensures
            copy@ == self@,
    {
        ConfirmationEmail {
            recipient: self.recipient.clone(),
            subject: self.subject.clone(),
            html_body: self.html_body.clone(),
            text_body: self.text_body.clone(),
        }
    }
}

/// The confirmation message for `recipient`: both bodies carry the same
/// link, made of the base address and `token`.
pub open spec fn confirmation_message(
    recipient: Seq<char>,
    base_url: Seq<char>,
    token: Seq<char>,
) -> ConfirmationEmailView {
    ConfirmationEmailView {
        recipient,
        subject: subject_text(),
        html_body: html_body_text(link_text(base_url, token)),
        text_body: plain_body_text(link_text(base_url, token)),
    }
}

/// The link that confirms the subscription which `token` belongs to.
pub fn confirmation_link(base_url: &str, token: &str) -> (link: String)
    ensures
        link@ == link_text(base_url@, token@),
{
    String::from_str(base_url).concat("/subscriptions/confirm?subscription_token=").concat(token)
}

/// Composes the message that asks `recipient` to confirm, for the caller to
/// hand to the notifier. It holds the link for `token` twice, once in the
/// plain body and once in the HTML body.
pub fn send_confirmation_email(
    recipient: &SubscriberEmail,
    base_url: &ApplicationBaseUrl,
    token: &str,
) -> (email: ConfirmationEmail)
    ensures
        email@ == confirmation_message(recipient@, base_url.0@, token@),
{
    let confirmation_link = confirmation_link(base_url.0.as_str(), token);
    let plain_body = String::from_str("Welcome to our newsletter!\nVisit ").concat(
        confirmation_link.as_str(),
    ).concat(" to confirm your subscription.");
    let html_body = String::from_str("Welcome to our newsletter!<br />Click <a href=\"").concat(
        confirmation_link.as_str(),
    ).concat("\">here</a> to confirm your subscription.");
    ConfirmationEmail {
        recipient: recipient.clone(),
        subject: String::from_str("Welcome!"),
        html_body,
        text_body: plain_body,
    }
}

/// Why a subscription could not be created, once the request was valid.
#[derive(Clone, Copy, Debug, PartialEq, Eq, Structural)]
pub enum Failure {
    /// The store holds a subscriber with this address already.
    Conflict,
    /// The store could not carry out the transaction.
    Persistence,
    /// The records were committed, but the message could not be handed over.
    Delivery,
}

/// How far the creation of one subscription has come. Each stage but the two
/// last ones waits for the answer to the action that belongs to it.
#[derive(Clone, Copy, Debug, PartialEq, Eq, Structural)]
pub enum Stage {
    /// Waiting for the transaction to open.
    Opening,
    /// Waiting for the subscriber record to be written.
    InsertingSubscriber,
    /// Waiting for the token record to be written.
    StoringToken,
    /// Waiting for the transaction to commit.
    Committing,
    /// Waiting for the confirmation message to be handed over.
    Notifying,
    /// Waiting for the transaction to be undone, after the failure named.
    RollingBack(Failure),
    /// Done: the subscriber is recorded and has been sent the message.
    Succeeded,
    /// Done, without success.
    Failed(Failure),
}

/// What the outside world has to do next.
#[derive(Clone, Copy, Debug, PartialEq, Eq, Structural)]
pub enum Action {
    BeginTransaction,
    InsertSubscriber,
    StoreToken,
    Commit,
    Rollback,
    SendConfirmation,
    /// Nothing is left to do: report that the subscription was created.
    Succeed,
    /// Nothing is left to do: report the failure named.
    Fail(Failure),
}

/// How an action ended.
#[derive(Clone, Copy, Debug, PartialEq, Eq, Structural)]
pub enum Reply {
    /// It was carried out.
    Done,
    /// The store refused a record because the address is taken.
    Duplicate,
    /// It failed for any other reason.
    Failed,
}

/// The action that belongs to a stage.
pub open spec fn action_at(stage: Stage) -> Action {
    match stage {
        Stage::Opening => Action::BeginTransaction,
        Stage::InsertingSubscriber => Action::InsertSubscriber,
        Stage::StoringToken => Action::StoreToken,
        Stage::Committing => Action::Commit,
        Stage::Notifying => Action::SendConfirmation,
        Stage::RollingBack(_) => Action::Rollback,
        Stage::Succeeded => Action::Succeed,
        Stage::Failed(failure) => Action::Fail(failure),
    }
}

/// The stage that follows `stage` when its action ended with `reply`.
///
/// A transaction that did not open, or did not commit, has left nothing
/// behind and is not undone; one that failed in between is. The message is
/// sent only once the commit has succeeded, and a message that could not be
/// sent fails the operation although the records stay.
pub open spec fn next_stage(stage: Stage, reply: Reply) -> Stage {
    match stage {
        Stage::Opening => match reply {
            Reply::Done => Stage::InsertingSubscriber,
            _ => Stage::Failed(Failure::Persistence),
        },
        Stage::InsertingSubscriber => match reply {
            Reply::Done => Stage::StoringToken,
            Reply::Duplicate => Stage::RollingBack(Failure::Conflict),
            Reply::Failed => Stage::RollingBack(Failure::Persistence),
        },
        Stage::StoringToken => match reply {
            Reply::Done => Stage::Committing,
            _ => Stage::RollingBack(Failure::Persistence),
        },
        Stage::Committing => match reply {
            Reply::Done => Stage::Notifying,
            _ => Stage::Failed(Failure::Persistence),
        },
        Stage::Notifying => match reply {
            Reply::Done => Stage::Succeeded,
            _ => Stage::Failed(Failure::Delivery),
        },
        Stage::RollingBack(failure) => Stage::Failed(failure),
        Stage::Succeeded => Stage::Succeeded,
        Stage::Failed(failure) => Stage::Failed(failure),
    }
}

/// The operation has ended at this stage.
pub open spec fn is_finished(stage: Stage) -> bool {
    stage is Succeeded || stage is Failed
}

/// The number of actions that may still follow from a stage, at most.
pub open spec fn actions_left(stage: Stage) -> nat {
    match stage {
        Stage::Opening => 5,
        Stage::InsertingSubscriber => 4,
        Stage::StoringToken => 3,
        Stage::Committing => 2,
        Stage::Notifying => 1,
        Stage::RollingBack(_) => 1,
        Stage::Succeeded => 0,
        Stage::Failed(_) => 0,
    }
}

/// The creation of one subscription: the records to write, the message to
/// send, and the stage reached.
pub struct Subscription {
    stage: Stage,
    subscriber: Subscriber,
    token: SubscriptionToken,
    email: ConfirmationEmail,
}

/// What a `Subscription` holds, as plain values.
pub struct SubscriptionView {
    pub stage: Stage,
    pub subscriber: SubscriberView,
    pub token: SubscriptionTokenView,
    pub email: ConfirmationEmailView,
}

impl View for Subscription {
    type V = SubscriptionView;

    closed spec fn view(&self) -> SubscriptionView {
        SubscriptionView {
            stage: self.stage,
            subscriber: self.subscriber@,
            token: self.token@,
            email: self.email@,
        }
    }
}

/// A subscription before its first action: the subscriber is recorded as
/// pending, the token belongs to that subscriber, and the message goes to
/// the subscriber's address with the link for that token.
pub open spec fn initial_subscription(
    name: Seq<char>,
    email: Seq<char>,
    id: u128,
    now: Timestamp,
    token: Seq<char>,
    base_url: Seq<char>,
) -> SubscriptionView {
    SubscriptionView {
        stage: Stage::Opening,
        subscriber: pending_record(id, now, name, email),
        token: SubscriptionTokenView { token, subscriber_id: id },
        email: confirmation_message(email, base_url, token),
    }
}

impl Subscription {
    /// Prepares the subscription of `new_subscriber` under the identifier
    /// `id`, at the time `now`, to be confirmed with `token`.
    pub fn new(
        new_subscriber: NewSubscriber,
        id: u128,
        now: Timestamp,
        token: String,
        base_url: &ApplicationBaseUrl,
    ) -> (subscription: Self)
        ensures
            subscription@ == initial_subscription(
                new_subscriber.name@,
                new_subscriber.email@,
                id,
                now,
                token@,
                base_url.0@,
            ),
    {
        let email = send_confirmation_email(&new_subscriber.email, base_url, token.as_str());
        Subscription {
            stage: Stage::Opening,
            subscriber: Subscriber::pending(id, now, new_subscriber),
            token: SubscriptionToken { token, subscriber_id: id },
            email,
        }
    }

    /// Validates the request and, if it is valid, prepares its subscription
    /// with a fresh identifier, the current time and a fresh token. An
    /// invalid request is turned away here, before anything is asked of the
    /// store: the error is the message of `parse_subscriber`.
    pub fn start(form: FormData, base_url: &ApplicationBaseUrl) -> (r: Result<Self, String>)
        ensures
            r is Ok <==> is_valid_name(form.name@) && is_valid_email(form.email@),
            r matches Ok(subscription) ==> {
                &&& is_random_identifier(subscription@.subscriber.id)
                &&& is_clock_reading(subscription@.subscriber.subscribed_at)
                &&& is_token_text(subscription@.token.token)
                &&& subscription@ == initial_subscription(
                    form.name@,
                    form.email@,
                    subscription@.subscriber.id,
                    subscription@.subscriber.subscribed_at,
                    subscription@.token.token,
                    base_url.0@,
                )
            },
            r matches Err(message) ==> validated(form.name@, form.email@) == Err::<
                (Seq<char>, Seq<char>),
                Seq<char>,
            >(message@),
    {
        match parse_subscriber(form) {
            Err(message) => Err(message),
            Ok(new_subscriber) => {
                let subscriber = Subscriber::enroll(new_subscriber);
                let token = generate_subscriptions_token();
                let email = send_confirmation_email(&subscriber.email, base_url, token.as_str());
                let subscriber_id = subscriber.id;
                Ok(
                    Subscription {
                        stage: Stage::Opening,
                        subscriber,
                        token: SubscriptionToken { token, subscriber_id },
                        email,
                    },
                )
            },
        }
    }

    /// The stage reached.
    pub fn stage(&self) -> (stage: Stage)
        ensures
            stage == self@.stage,
    {
        self.stage
    }

    /// The subscriber record to write.
    pub fn subscriber(&self) -> (subscriber: &Subscriber)
        ensures
            subscriber@ == self@.subscriber,
    {
        &self.subscriber
    }

    /// The token record to write.
    pub fn token(&self) -> (token: &SubscriptionToken)
        ensures
            token@ == self@.token,
    {
        &self.token
    }

    /// The message to send.
    pub fn email(&self) -> (email: &ConfirmationEmail)
        ensures
            email@ == self@.email,
    {
        &self.email
    }

    /// The action that the stage reached asks for.
    pub fn action(&self) -> (action: Action)
        ensures
            action == action_at(self@.stage),
    {
        match self.stage {
            Stage::Opening => Action::BeginTransaction,
            Stage::InsertingSubscriber => Action::InsertSubscriber,
            Stage::StoringToken => Action::StoreToken,
            Stage::Committing => Action::Commit,
            Stage::Notifying => Action::SendConfirmation,
            Stage::RollingBack(_) => Action::Rollback,
            Stage::Succeeded => Action::Succeed,
            Stage::Failed(failure) => Action::Fail(failure),
        }
    }
}

/// One step of creating a subscription: takes the answer to the action that
/// was asked for last, moves to the stage that follows, and says what to do
/// next. The records and the message stay as they were prepared.
pub fn subscribe(subscription: &mut Subscription, reply: Reply) -> (action: Action)
    ensures
        final(subscription)@ == (SubscriptionView {
            stage: next_stage(old(subscription)@.stage, reply),
            ..old(subscription)@
        }),
        action == action_at(final(subscription)@.stage),
{
    let next = match subscription.stage {
        Stage::Opening => match reply {
            Reply::Done => Stage::InsertingSubscriber,
            _ => Stage::Failed(Failure::Persistence),
        },
        Stage::InsertingSubscriber => match reply {
            Reply::Done => Stage::StoringToken,
            Reply::Duplicate => Stage::RollingBack(Failure::Conflict),
            Reply::Failed => Stage::RollingBack(Failure::Persistence),
        },
        Stage::StoringToken => match reply {
            Reply::Done => Stage::Committing,
            _ => Stage::RollingBack(Failure::Persistence),
        },
        Stage::Committing => match reply {
            Reply::Done => Stage::Notifying,
            _ => Stage::Failed(Failure::Persistence),
        },
        Stage::Notifying => match reply {
            Reply::Done => Stage::Succeeded,
            _ => Stage::Failed(Failure::Delivery),
        },
        Stage::RollingBack(failure) => Stage::Failed(failure),
        Stage::Succeeded => Stage::Succeeded,
        Stage::Failed(failure) => Stage::Failed(failure),
    };
    subscription.stage = next;
    subscription.action()
}

/// Why a request to subscribe was not fulfilled.
pub enum SubscribeError {
    /// The payload does not have the shape of a request.
    InputShape(FormError),
    /// A field of the request is not valid; the message names it.
    Validation(String),
    /// A subscriber with this address exists already.
    Conflict,
    /// The store failed; nothing was recorded.
    Persistence,
    /// The subscriber was recorded, but the message could not be sent.
    Delivery,
}

/// The error that reports `failure`.
pub open spec fn error_of(failure: Failure) -> SubscribeError {
    match failure {
        Failure::Conflict => SubscribeError::Conflict,
        Failure::Persistence => SubscribeError::Persistence,
        Failure::Delivery => SubscribeError::Delivery,
    }
}

/// The result that reports `outcome`.
pub open spec fn reported(outcome: Result<(), Failure>) -> Result<(), SubscribeError> {
    match outcome {
        Ok(()) => Ok(()),
        Err(failure) => Err(error_of(failure)),
    }
}

/// The status that answers a request with this result: 200 for success,
/// 422 for a payload of the wrong shape, 400 for an invalid field, 409 for a
/// conflict, 500 for a failure of the store or of delivery.
pub open spec fn status_of(result: Result<(), SubscribeError>) -> u16 {
    match result {
        Ok(()) => 200,
        Err(SubscribeError::InputShape(_)) => 422,
        Err(SubscribeError::Validation(_)) => 400,
        Err(SubscribeError::Conflict) => 409,
        Err(SubscribeError::Persistence) => 500,
        Err(SubscribeError::Delivery) => 500,
    }
}

impl SubscribeError {
    /// The error that reports `failure`.
    pub fn from_failure(failure: Failure) -> (error: Self)
        ensures
            error == error_of(failure),
    {
        match failure {
            Failure::Conflict => SubscribeError::Conflict,
            Failure::Persistence => SubscribeError::Persistence,
            Failure::Delivery => SubscribeError::Delivery,
        }
    }
}

/// The status that answers a request with the result `result`.
pub fn response_status(result: &Result<(), SubscribeError>) -> (status: u16)
    ensures
        status == status_of(*result),
{
    match result {
        Ok(()) => 200,
        Err(SubscribeError::InputShape(_)) => 422,
        Err(SubscribeError::Validation(_)) => 400,
        Err(SubscribeError::Conflict) => 409,
        Err(SubscribeError::Persistence) => 500,
        Err(SubscribeError::Delivery) => 500,
    }
}

/// The stage reached from `stage` after the answers `replies`, in order.
pub open spec fn stage_after(stage: Stage, replies: Seq<Reply>) -> Stage
    decreases replies.len(),
{
    if replies.len() == 0 {
        stage
    } else {
        stage_after(next_stage(stage, replies[0]), replies.drop_first())
    }
}

/// All of the first `n` answers are `Done`.
pub open spec fn all_done(replies: Seq<Reply>, n: int) -> bool {
    forall|i: int| 0 <= i < n ==> #[trigger] replies[i] == Reply::Done
}

/// Every step brings the end nearer, and nothing follows the end: an
/// operation is over after five actions at most.
pub proof fn lemma_steps_are_bounded(stage: Stage, reply: Reply)
    ensures
        !is_finished(stage) ==> actions_left(next_stage(stage, reply)) < actions_left(stage),
        is_finished(stage) ==> next_stage(stage, reply) == stage,
        is_finished(stage) <==> actions_left(stage) == 0,
{
}

/// The message is asked for only in answer to a commit that succeeded.
pub proof fn lemma_message_follows_commit(stage: Stage, reply: Reply)
    ensures
        action_at(next_stage(stage, reply)) == Action::SendConfirmation <==> stage
            == Stage::Committing && reply == Reply::Done,
{
}

/// Success is reported only in answer to a message that was handed over,
/// and a message that was not handed over is reported as a failure of
/// delivery.
pub proof fn lemma_success_follows_delivery(stage: Stage, reply: Reply)
    requires
        !is_finished(stage),
    ensures
        next_stage(stage, reply) == Stage::Succeeded <==> stage == Stage::Notifying && reply
            == Reply::Done,
        stage == Stage::Notifying && reply != Reply::Done ==> next_stage(stage, reply)
            == Stage::Failed(Failure::Delivery),
{
}

/// A conflict is reported for one reason only: the store answered the
/// subscriber record with `Duplicate`.
pub proof fn lemma_conflict_means_duplicate(stage: Stage, reply: Reply)
    requires
        !(stage is RollingBack),
        !is_finished(stage),
    ensures
        next_stage(stage, reply) == Stage::RollingBack(Failure::Conflict) <==> stage
            == Stage::InsertingSubscriber && reply == Reply::Duplicate,
        next_stage(stage, reply) != Stage::Failed(Failure::Conflict),
{
}

/// A transaction that is open is closed before the operation ends: a write
/// that fails leads to a rollback, and only a commit or a rollback leads on
/// to the end.
pub proof fn lemma_transaction_is_closed(stage: Stage, reply: Reply)
    requires
        stage == Stage::InsertingSubscriber || stage == Stage::StoringToken,
    ensures
        !is_finished(next_stage(stage, reply)),
        reply != Reply::Done ==> next_stage(stage, reply) is RollingBack,
{
}

/// Once an operation has ended, further answers change nothing.
pub proof fn lemma_end_is_final(stage: Stage, replies: Seq<Reply>)
    requires
        is_finished(stage),
    ensures
        stage_after(stage, replies) == stage,
    decreases replies.len(),
{
    if replies.len() > 0 {
        lemma_end_is_final(stage, replies.drop_first());
    }
}

/// An operation succeeds exactly when its first five actions all succeed:
/// the transaction opens, both records are written, the commit goes
/// through and the message is handed over. After five answers it is over,
/// whatever they were.
pub proof fn lemma_success_takes_five_steps(replies: Seq<Reply>)
    requires
        replies.len() >= 5,
    ensures
        is_finished(stage_after(Stage::Opening, replies)),
        stage_after(Stage::Opening, replies) == Stage::Succeeded <==> all_done(replies, 5),
{
    let r1 = replies.drop_first();
    let r2 = r1.drop_first();
    let r3 = r2.drop_first();
    let r4 = r3.drop_first();
    let r5 = r4.drop_first();
    assert(r1[0] == replies[1] && r2[0] == replies[2] && r3[0] == replies[3] && r4[0]
        == replies[4]);
    let s1 = next_stage(Stage::Opening, replies[0]);
    let s2 = next_stage(s1, replies[1]);
    let s3 = next_stage(s2, replies[2]);
    let s4 = next_stage(s3, replies[3]);
    let s5 = next_stage(s4, replies[4]);
    assert(stage_after(Stage::Opening, replies) == stage_after(s1, r1));
    assert(stage_after(s1, r1) == stage_after(s2, r2));
    assert(stage_after(s2, r2) == stage_after(s3, r3));
    assert(stage_after(s3, r3) == stage_after(s4, r4));
    assert(stage_after(s4, r4) == stage_after(s5, r5));
    assert(is_finished(s5));
    lemma_end_is_final(s5, r5);
    if s5 == Stage::Succeeded {
        assert(all_done(replies, 5));
    }
    if all_done(replies, 5) {
        assert(replies[0] == Reply::Done && replies[1] == Reply::Done && replies[2]
            == Reply::Done && replies[3] == Reply::Done && replies[4] == Reply::Done);
    }
}

/// The three ways in which a well-shaped request can fail before or at the
/// store are answered with three different statuses, none of which is the
/// status of success.
pub proof fn lemma_outcomes_are_told_apart(message: String)
    ensures
        status_of(Err(SubscribeError::Validation(message))) != status_of(
            Err(SubscribeError::Conflict),
        ),
        status_of(Err(SubscribeError::Validation(message))) != status_of(
            Err(SubscribeError::Persistence),
        ),
        status_of(Err(SubscribeError::Conflict)) != status_of(Err(SubscribeError::Persistence)),
        forall|error: SubscribeError| status_of(Err(error)) != status_of(Ok(())),
{
}

} // verus!
