use std::collections::HashSet;
use zero2prod::domain::subscriber::Subscriber;
use zero2prod::domain::{NewSubscriber, SubscriberEmail, SubscriberName, SubscriptionStatus, Timestamp};
use zero2prod::routes::form::{find_field, Field, FormError, Occurrence};
use zero2prod::routes::subscriptions::{
    confirmation_link, response_status, token_from_bytes, Action, Failure, Reply, Stage,
    SubscribeError, Subscription,
};
use zero2prod::routes::{
    generate_subscriptions_token, parse_subscriber, send_confirmation_email, subscribe, FormData,
};
use zero2prod::startup::ApplicationBaseUrl;

fn form(email: &str, name: &str) -> FormData {
    FormData { email: email.to_string(), name: name.to_string() }
}

fn ursula() -> NewSubscriber {
    parse_subscriber(form("ursula_le_guin@gmail.com", "le guin")).unwrap()
}

fn base_url() -> ApplicationBaseUrl {
    ApplicationBaseUrl("http://127.0.0.1".to_string())
}

fn prepared() -> Subscription {
    Subscription::new(
        ursula(),
        7,
        Timestamp { seconds: 1_700_000_000, nanoseconds: 5 },
        "abcdefghijklmnopqrstuvwxy".to_string(),
        &base_url(),
    )
}

fn pairs(items: &[(&str, &str)]) -> Vec<(String, String)> {
    items.iter().map(|(k, v)| (k.to_string(), v.to_string())).collect()
}

#[test]
fn a_valid_form_is_parsed_into_a_new_subscriber() {
    let subscriber = ursula();
    assert_eq!(subscriber.name.as_ref(), "le guin");
    assert_eq!(subscriber.email.as_ref(), "ursula_le_guin@gmail.com");
}

#[test]
fn an_invalid_name_is_reported_before_an_invalid_email() {
    let error = parse_subscriber(form("not-an-email", "")).err().unwrap();
    assert_eq!(error, " is not a valid subscriber name.");
}

#[test]
fn an_invalid_email_is_reported_when_the_name_is_valid() {
    let error = parse_subscriber(form("not-an-email", "le guin")).err().unwrap();
    assert_eq!(error, "not-an-email is not a valid subscriber email.");
}

#[test]
fn try_from_validates_like_parse_subscriber() {
    let subscriber = NewSubscriber::try_from(form("ursula_le_guin@gmail.com", "le guin")).unwrap();
    assert_eq!(subscriber.name.as_ref(), "le guin");
    assert_eq!(subscriber.email.as_ref(), "ursula_le_guin@gmail.com");
    let error = NewSubscriber::try_from(form("ursula_le_guin@gmail.com", "le (guin)")).err();
    assert_eq!(error.unwrap(), "le (guin) is not a valid subscriber name.");
    let converted: Result<NewSubscriber, String> = form("a@b", "le guin").try_into();
    assert_eq!(converted.err().unwrap(), "a@b is not a valid subscriber email.");
}

#[test]
fn a_token_has_25_alphanumeric_characters() {
    let token = generate_subscriptions_token();
    assert_eq!(token.chars().count(), 25);
    assert_eq!(token.len(), 25);
    assert!(token.chars().all(|c| c.is_ascii_alphanumeric()));
}

#[test]
fn a_token_is_made_of_the_bytes_drawn() {
    assert_eq!(token_from_bytes(&b"aZ09".to_vec()), "aZ09");
    assert_eq!(token_from_bytes(&Vec::new()), "");
    assert_eq!(token_from_bytes(&vec![0xe9, 0x41]), "\u{e9}A");
}

#[test]
fn ten_thousand_tokens_are_pairwise_distinct() {
    let mut seen = HashSet::new();
    for _ in 0..10_000 {
        let token = generate_subscriptions_token();
        assert_eq!(token.chars().count(), 25);
        assert!(token.chars().all(|c| c.is_ascii_alphanumeric()));
        assert!(seen.insert(token));
    }
    assert_eq!(seen.len(), 10_000);
}

#[test]
fn the_confirmation_link_embeds_the_token() {
    let link = confirmation_link("https://news.example.com", "TOKEN123");
    assert_eq!(link, "https://news.example.com/subscriptions/confirm?subscription_token=TOKEN123");
}

#[test]
fn both_bodies_of_the_message_hold_the_same_link() {
    let recipient = SubscriberEmail::parse("ursula_le_guin@gmail.com".to_string()).unwrap();
    let email = send_confirmation_email(&recipient, &base_url(), "tok");
    assert_eq!(email.recipient.as_ref(), "ursula_le_guin@gmail.com");
    assert_eq!(email.subject, "Welcome!");
    assert_eq!(
        email.text_body,
        "Welcome to our newsletter!\nVisit http://127.0.0.1/subscriptions/confirm?subscription_token=tok to confirm your subscription."
    );
    assert_eq!(
        email.html_body,
        "Welcome to our newsletter!<br />Click <a href=\"http://127.0.0.1/subscriptions/confirm?subscription_token=tok\">here</a> to confirm your subscription."
    );
    let copy = email.duplicate();
    assert_eq!(copy.html_body, email.html_body);
    assert_eq!(copy.text_body, email.text_body);
    assert_eq!(copy.subject, email.subject);
    assert_eq!(copy.recipient.as_ref(), email.recipient.as_ref());
}

#[test]
fn a_pending_record_holds_what_it_was_given() {
    let now = Timestamp { seconds: 12, nanoseconds: 34 };
    let subscriber = Subscriber::pending(99, now, ursula());
    assert_eq!(subscriber.id, 99);
    assert_eq!(subscriber.subscribed_at, now);
    assert_eq!(subscriber.status, SubscriptionStatus::PendingConfirmation);
    assert_eq!(subscriber.name.as_ref(), "le guin");
    assert_eq!(subscriber.email.as_ref(), "ursula_le_guin@gmail.com");
    let copy = subscriber.duplicate();
    assert_eq!(copy.id, 99);
    assert_eq!(copy.email.as_ref(), "ursula_le_guin@gmail.com");
}

#[test]
fn enrolling_draws_a_random_identifier_and_reads_the_clock() {
    let first = Subscriber::enroll(ursula());
    let second = Subscriber::enroll(ursula());
    for subscriber in [&first, &second] {
        // version 4, variant 10
        assert_eq!((subscriber.id >> 76) & 0xf, 4);
        assert_eq!((subscriber.id >> 62) & 0x3, 2);
        // later than the first of January 2020
        assert!(subscriber.subscribed_at.seconds > 1_577_836_800);
        assert!(subscriber.subscribed_at.nanoseconds < 1_000_000_000);
        assert_eq!(subscriber.status, SubscriptionStatus::PendingConfirmation);
    }
    assert_ne!(first.id, second.id);
    assert!(second.subscribed_at.seconds >= first.subscribed_at.seconds);
}

#[test]
fn statuses_are_stored_under_their_labels() {
    assert_eq!(SubscriptionStatus::PendingConfirmation.as_str(), "pending_confirmation");
    assert_eq!(SubscriptionStatus::Confirmed.as_str(), "confirmed");
}

#[test]
fn a_subscription_is_prepared_from_its_inputs() {
    let subscription = prepared();
    assert_eq!(subscription.stage(), Stage::Opening);
    assert_eq!(subscription.action(), Action::BeginTransaction);
    assert_eq!(subscription.subscriber().id, 7);
    assert_eq!(subscription.subscriber().status, SubscriptionStatus::PendingConfirmation);
    assert_eq!(subscription.subscriber().subscribed_at.seconds, 1_700_000_000);
    assert_eq!(subscription.token().subscriber_id, 7);
    assert_eq!(subscription.token().token, "abcdefghijklmnopqrstuvwxy");
    assert_eq!(subscription.email().recipient.as_ref(), "ursula_le_guin@gmail.com");
    assert!(subscription.email().text_body.contains(
        "http://127.0.0.1/subscriptions/confirm?subscription_token=abcdefghijklmnopqrstuvwxy"
    ));
    assert!(subscription.email().html_body.contains(
        "http://127.0.0.1/subscriptions/confirm?subscription_token=abcdefghijklmnopqrstuvwxy"
    ));
}

#[test]
fn starting_validates_before_anything_else() {
    let error = Subscription::start(form("ursula_le_guin@gmail.com", "   "), &base_url());
    assert_eq!(error.err().unwrap(), "    is not a valid subscriber name.");
    let started = Subscription::start(form("ursula_le_guin@gmail.com", "le guin"), &base_url())
        .ok()
        .unwrap();
    assert_eq!(started.stage(), Stage::Opening);
    assert_eq!(started.token().token.len(), 25);
    assert_eq!(started.token().subscriber_id, started.subscriber().id);
    assert!(started.email().text_body.contains(started.token().token.as_str()));
    assert!(started.email().html_body.contains(started.token().token.as_str()));
}

#[test]
fn the_steps_of_a_successful_subscription() {
    let mut subscription = prepared();
    assert_eq!(subscribe(&mut subscription, Reply::Done), Action::InsertSubscriber);
    assert_eq!(subscription.stage(), Stage::InsertingSubscriber);
    assert_eq!(subscribe(&mut subscription, Reply::Done), Action::StoreToken);
    assert_eq!(subscribe(&mut subscription, Reply::Done), Action::Commit);
    assert_eq!(subscribe(&mut subscription, Reply::Done), Action::SendConfirmation);
    assert_eq!(subscription.stage(), Stage::Notifying);
    assert_eq!(subscribe(&mut subscription, Reply::Done), Action::Succeed);
    assert_eq!(subscription.stage(), Stage::Succeeded);
    assert_eq!(subscribe(&mut subscription, Reply::Failed), Action::Succeed);
    assert_eq!(subscription.subscriber().id, 7);
}

#[test]
fn a_duplicate_address_is_rolled_back_and_reported_as_conflict() {
    let mut subscription = prepared();
    subscribe(&mut subscription, Reply::Done);
    assert_eq!(subscribe(&mut subscription, Reply::Duplicate), Action::Rollback);
    assert_eq!(subscription.stage(), Stage::RollingBack(Failure::Conflict));
    assert_eq!(subscribe(&mut subscription, Reply::Done), Action::Fail(Failure::Conflict));
    assert_eq!(subscription.stage(), Stage::Failed(Failure::Conflict));
}

#[test]
fn failures_of_the_store_are_reported_as_persistence() {
    let mut unopened = prepared();
    assert_eq!(subscribe(&mut unopened, Reply::Failed), Action::Fail(Failure::Persistence));

    let mut insert_failed = prepared();
    subscribe(&mut insert_failed, Reply::Done);
    assert_eq!(subscribe(&mut insert_failed, Reply::Failed), Action::Rollback);
    assert_eq!(subscribe(&mut insert_failed, Reply::Failed), Action::Fail(Failure::Persistence));

    let mut token_failed = prepared();
    subscribe(&mut token_failed, Reply::Done);
    subscribe(&mut token_failed, Reply::Done);
    assert_eq!(subscribe(&mut token_failed, Reply::Duplicate), Action::Rollback);
    assert_eq!(subscribe(&mut token_failed, Reply::Done), Action::Fail(Failure::Persistence));

    let mut commit_failed = prepared();
    subscribe(&mut commit_failed, Reply::Done);
    subscribe(&mut commit_failed, Reply::Done);
    subscribe(&mut commit_failed, Reply::Done);
    assert_eq!(subscribe(&mut commit_failed, Reply::Failed), Action::Fail(Failure::Persistence));
}

#[test]
fn a_message_that_is_not_delivered_fails_the_subscription() {
    let mut subscription = prepared();
    for _ in 0..4 {
        subscribe(&mut subscription, Reply::Done);
    }
    assert_eq!(subscription.action(), Action::SendConfirmation);
    assert_eq!(subscribe(&mut subscription, Reply::Failed), Action::Fail(Failure::Delivery));
    assert_eq!(subscription.stage(), Stage::Failed(Failure::Delivery));
}

#[test]
fn every_outcome_has_its_status() {
    assert_eq!(response_status(&Ok(())), 200);
    assert_eq!(response_status(&Err(SubscribeError::InputShape(FormError::Missing(Field::Email)))), 422);
    assert_eq!(response_status(&Err(SubscribeError::Validation("x".to_string()))), 400);
    assert_eq!(response_status(&Err(SubscribeError::Conflict)), 409);
    assert_eq!(response_status(&Err(SubscribeError::Persistence)), 500);
    assert_eq!(response_status(&Err(SubscribeError::Delivery)), 500);
    assert!(matches!(SubscribeError::from_failure(Failure::Conflict), SubscribeError::Conflict));
    assert!(matches!(SubscribeError::from_failure(Failure::Persistence), SubscribeError::Persistence));
    assert!(matches!(SubscribeError::from_failure(Failure::Delivery), SubscribeError::Delivery));
}

#[test]
fn a_payload_is_decoded_into_its_fields() {
    let form = FormData::decode(b"name=le%20guin&email=ursula_le_guin%40gmail.com").ok().unwrap();
    assert_eq!(form.name, "le guin");
    assert_eq!(form.email, "ursula_le_guin@gmail.com");
    let plus = FormData::decode(b"email=a%2Bb%40c.de&name=Ursula+Le+Guin&other=1").ok().unwrap();
    assert_eq!(plus.name, "Ursula Le Guin");
    assert_eq!(plus.email, "a+b@c.de");
}

#[test]
fn a_payload_of_the_wrong_shape_is_turned_away() {
    assert_eq!(FormData::decode(b"name=le%20guin").err(), Some(FormError::Missing(Field::Email)));
    assert_eq!(FormData::decode(b"email=ursula%40gmail.com").err(), Some(FormError::Missing(Field::Name)));
    assert_eq!(FormData::decode(b"").err(), Some(FormError::Missing(Field::Email)));
    assert_eq!(FormData::decode(b"&&").err(), Some(FormError::Missing(Field::Email)));
    assert_eq!(
        FormData::decode(b"email=a%40b.c&name=x&email=d%40e.f").err(),
        Some(FormError::Duplicate(Field::Email))
    );
    assert_eq!(
        FormData::decode(b"name=x&email=a%40b.c&name=y").err(),
        Some(FormError::Duplicate(Field::Name))
    );
    assert_eq!(FormData::decode(b"name=x&name=y").err(), Some(FormError::Missing(Field::Email)));
    assert_eq!(
        FormData::decode(b"email=x&email=y").err(),
        Some(FormError::Duplicate(Field::Email))
    );
}

#[test]
fn fields_are_picked_from_pairs() {
    let decoded = pairs(&[("x", "1"), ("name", "le guin"), ("email", "a@b.c")]);
    assert!(matches!(find_field(&decoded, "name"), Occurrence::Once(1)));
    assert!(matches!(find_field(&decoded, "email"), Occurrence::Once(2)));
    assert!(matches!(find_field(&decoded, "y"), Occurrence::Never));
    let twice = pairs(&[("name", "1"), ("name", "2")]);
    assert!(matches!(find_field(&twice, "name"), Occurrence::Repeatedly));
    let form = FormData::from_pairs(&decoded).ok().unwrap();
    assert_eq!(form.name, "le guin");
    assert_eq!(form.email, "a@b.c");
    assert_eq!(FormData::from_pairs(&twice).err(), Some(FormError::Missing(Field::Email)));
    let name = SubscriberName::parse(form.name).unwrap();
    assert_eq!(name.as_ref(), "le guin");
}
