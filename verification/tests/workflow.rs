use zero2prod::domain::{NewSubscriber, SubscriptionStatus, Timestamp};
use zero2prod::email_client::Outbox;
use zero2prod::routes::form::{Field, FormError};
use zero2prod::routes::subscriptions::{Failure, SubscribeError};
use zero2prod::routes::subscriptions_confirm::{
    ConfirmAction, ConfirmFailure, ConfirmReply, ConfirmStage, Confirmation,
};
use zero2prod::routes::{confirm, parse_subscriber, FormData, Parameters};
use zero2prod::startup::ApplicationBaseUrl;
use zero2prod::store::Store;
use zero2prod::workflow::{confirm_subscription, create_subscription, create_subscription_with};

fn base_url() -> ApplicationBaseUrl {
    ApplicationBaseUrl("http://127.0.0.1".to_string())
}

fn new_subscriber(email: &str) -> NewSubscriber {
    parse_subscriber(FormData { email: email.to_string(), name: "le guin".to_string() }).unwrap()
}

fn now() -> Timestamp {
    Timestamp { seconds: 1_700_000_000, nanoseconds: 0 }
}

fn parameters(token: &str) -> Parameters {
    Parameters { subscription_token: token.to_string() }
}

#[test]
fn subscribe_records_a_pending_subscriber_with_one_token() {
    let mut store = Store::new();
    let mut outbox = Outbox::new();
    let body = "name=le%20guin&email=ursula_le_guin%40gmail.com";
    let result = create_subscription(&mut store, &mut outbox, body.as_bytes(), &base_url());
    assert!(result.is_ok());

    assert_eq!(store.subscribers().len(), 1);
    let saved = &store.subscribers()[0];
    assert_eq!(saved.email.as_ref(), "ursula_le_guin@gmail.com");
    assert_eq!(saved.name.as_ref(), "le guin");
    assert_eq!(saved.status, SubscriptionStatus::PendingConfirmation);

    assert_eq!(store.tokens().len(), 1);
    let token = &store.tokens()[0];
    assert_eq!(token.subscriber_id, saved.id);
    assert_eq!(token.token.len(), 25);

    assert_eq!(outbox.sent().len(), 1);
    let link = format!("http://127.0.0.1/subscriptions/confirm?subscription_token={}", token.token);
    assert_eq!(outbox.sent()[0].recipient.as_ref(), "ursula_le_guin@gmail.com");
    assert!(outbox.sent()[0].text_body.contains(&link));
    assert!(outbox.sent()[0].html_body.contains(&link));
}

#[test]
fn subscribe_turns_away_a_payload_with_missing_data() {
    let test_cases = vec![
        ("name=le%20guin", FormError::Missing(Field::Email)),
        ("email=ursula%40gmail.com", FormError::Missing(Field::Name)),
        ("", FormError::Missing(Field::Email)),
    ];
    for (invalid_body, expected) in test_cases {
        let mut store = Store::new();
        let mut outbox = Outbox::new();
        let result = create_subscription(&mut store, &mut outbox, invalid_body.as_bytes(), &base_url());
        match result {
            Err(SubscribeError::InputShape(error)) => assert_eq!(error, expected),
            _ => panic!("the payload {} was not turned away for its shape", invalid_body),
        }
        assert!(store.subscribers().is_empty());
        assert!(store.tokens().is_empty());
        assert!(outbox.sent().is_empty());
    }
}

#[test]
fn subscribe_turns_away_invalid_fields_without_touching_the_store() {
    let test_cases = vec![
        ("name=&email=ursula_le_guin%40gmail.com", " is not a valid subscriber name."),
        ("name=Ursula&email=", " is not a valid subscriber email."),
        ("name=Ursula&email=definitely-not-an-email", "definitely-not-an-email is not a valid subscriber email."),
        ("name=%3Cb%3E&email=ursula%40gmail.com", "<b> is not a valid subscriber name."),
    ];
    for (body, expected) in test_cases {
        let mut store = Store::new();
        let mut outbox = Outbox::new();
        match create_subscription(&mut store, &mut outbox, body.as_bytes(), &base_url()) {
            Err(SubscribeError::Validation(message)) => assert_eq!(message, expected),
            _ => panic!("the payload {} was not turned away as invalid", body),
        }
        assert!(store.subscribers().is_empty());
        assert!(store.tokens().is_empty());
        assert!(outbox.sent().is_empty());
    }
}

#[test]
fn a_second_subscription_with_the_same_address_conflicts() {
    let mut store = Store::new();
    let mut outbox = Outbox::new();
    let body = "name=le%20guin&email=ursula_le_guin%40gmail.com";
    assert!(create_subscription(&mut store, &mut outbox, body.as_bytes(), &base_url()).is_ok());
    let again = create_subscription(&mut store, &mut outbox, b"name=Ursula&email=ursula_le_guin%40gmail.com", &base_url());
    assert!(matches!(again, Err(SubscribeError::Conflict)));
    assert_eq!(store.subscribers().len(), 1);
    assert_eq!(store.subscribers()[0].name.as_ref(), "le guin");
    assert_eq!(store.tokens().len(), 1);
    assert_eq!(outbox.sent().len(), 1);
}

#[test]
fn subscriptions_with_different_addresses_are_both_recorded() {
    let mut store = Store::new();
    let mut outbox = Outbox::new();
    let first = create_subscription_with(&mut store, &mut outbox, new_subscriber("a@b.c"), 1, now(), "t1".to_string(), &base_url());
    let second = create_subscription_with(&mut store, &mut outbox, new_subscriber("d@e.f"), 2, now(), "t2".to_string(), &base_url());
    assert_eq!(first, Ok(()));
    assert_eq!(second, Ok(()));
    assert_eq!(store.subscribers().len(), 2);
    assert_eq!(store.tokens().len(), 2);
    assert_eq!(store.subscribers()[1].id, 2);
    assert_eq!(store.subscribers()[1].subscribed_at, now());
    assert_eq!(store.tokens()[1].token, "t2");
    assert_eq!(store.tokens()[1].subscriber_id, 2);
    assert_eq!(outbox.sent().len(), 2);
    assert_eq!(
        outbox.sent()[1].text_body,
        "Welcome to our newsletter!\nVisit http://127.0.0.1/subscriptions/confirm?subscription_token=t2 to confirm your subscription."
    );
}

#[test]
fn an_identifier_or_token_that_is_taken_fails_and_records_nothing() {
    let mut store = Store::new();
    let mut outbox = Outbox::new();
    create_subscription_with(&mut store, &mut outbox, new_subscriber("a@b.c"), 1, now(), "t1".to_string(), &base_url()).unwrap();
    let same_id = create_subscription_with(&mut store, &mut outbox, new_subscriber("d@e.f"), 1, now(), "t2".to_string(), &base_url());
    assert_eq!(same_id, Err(Failure::Persistence));
    let same_token = create_subscription_with(&mut store, &mut outbox, new_subscriber("d@e.f"), 2, now(), "t1".to_string(), &base_url());
    assert_eq!(same_token, Err(Failure::Persistence));
    let same_address = create_subscription_with(&mut store, &mut outbox, new_subscriber("a@b.c"), 2, now(), "t2".to_string(), &base_url());
    assert_eq!(same_address, Err(Failure::Conflict));
    assert_eq!(store.subscribers().len(), 1);
    assert_eq!(store.tokens().len(), 1);
    assert_eq!(outbox.sent().len(), 1);
    // the transaction was undone, so the store takes the next one
    let fresh = create_subscription_with(&mut store, &mut outbox, new_subscriber("d@e.f"), 2, now(), "t2".to_string(), &base_url());
    assert_eq!(fresh, Ok(()));
}

#[test]
fn a_failed_delivery_fails_the_request_but_keeps_the_records() {
    let mut store = Store::new();
    let mut outbox = Outbox::unreachable();
    let body = "name=le%20guin&email=ursula_le_guin%40gmail.com";
    let result = create_subscription(&mut store, &mut outbox, body.as_bytes(), &base_url());
    assert!(matches!(result, Err(SubscribeError::Delivery)));
    assert_eq!(store.subscribers().len(), 1);
    assert_eq!(store.subscribers()[0].status, SubscriptionStatus::PendingConfirmation);
    assert_eq!(store.tokens().len(), 1);
    assert_eq!(store.tokens()[0].subscriber_id, store.subscribers()[0].id);
    assert!(outbox.sent().is_empty());
}

#[test]
fn a_store_with_an_open_transaction_fails_the_request() {
    let mut store = Store::new();
    let mut outbox = Outbox::new();
    store.begin();
    let result = create_subscription_with(&mut store, &mut outbox, new_subscriber("a@b.c"), 1, now(), "t1".to_string(), &base_url());
    assert_eq!(result, Err(Failure::Persistence));
    assert!(store.subscribers().is_empty());
    assert!(outbox.sent().is_empty());
}

#[test]
fn confirming_with_an_issued_token_confirms_the_subscriber() {
    let mut store = Store::new();
    let mut outbox = Outbox::new();
    let body = "name=le%20guin&email=ursula_le_guin%40gmail.com";
    create_subscription(&mut store, &mut outbox, body.as_bytes(), &base_url()).ok().unwrap();
    create_subscription_with(&mut store, &mut outbox, new_subscriber("d@e.f"), 2, now(), "t2".to_string(), &base_url()).unwrap();
    let token = store.tokens()[0].token.clone();

    assert_eq!(confirm_subscription(&mut store, parameters(&token)), Ok(()));
    assert_eq!(store.subscribers()[0].status, SubscriptionStatus::Confirmed);
    assert_eq!(store.subscribers()[1].status, SubscriptionStatus::PendingConfirmation);

    assert_eq!(confirm_subscription(&mut store, parameters(&token)), Ok(()));
    assert_eq!(store.subscribers()[0].status, SubscriptionStatus::Confirmed);
    assert_eq!(store.subscribers()[0].email.as_ref(), "ursula_le_guin@gmail.com");
    assert_eq!(store.subscribers().len(), 2);
    assert_eq!(store.tokens().len(), 2);
}

#[test]
fn confirming_with_an_unknown_token_is_not_found() {
    let mut store = Store::new();
    let mut outbox = Outbox::new();
    create_subscription_with(&mut store, &mut outbox, new_subscriber("a@b.c"), 1, now(), "abcdefghijklmnopqrstuvwxy".to_string(), &base_url()).unwrap();
    let result = confirm_subscription(&mut store, parameters("ABCDEFGHIJKLMNOPQRSTUVWXY"));
    assert_eq!(result, Err(ConfirmFailure::NotFound));
    assert_eq!(confirm_subscription(&mut store, parameters("")), Err(ConfirmFailure::NotFound));
    assert_eq!(store.subscribers().len(), 1);
    assert_eq!(store.subscribers()[0].status, SubscriptionStatus::PendingConfirmation);
    assert_eq!(store.tokens().len(), 1);
}

#[test]
fn the_steps_of_a_confirmation() {
    let mut found = Confirmation::start(parameters("tok"));
    assert_eq!(found.stage(), ConfirmStage::LookingUp);
    assert_eq!(found.action(), ConfirmAction::FindToken);
    assert_eq!(found.token(), "tok");
    assert_eq!(confirm(&mut found, ConfirmReply::Found(9)), ConfirmAction::MarkConfirmed(9));
    assert_eq!(found.stage(), ConfirmStage::Marking(9));
    assert_eq!(confirm(&mut found, ConfirmReply::Done), ConfirmAction::Succeed);
    assert_eq!(confirm(&mut found, ConfirmReply::Failed), ConfirmAction::Succeed);

    let mut unknown = Confirmation::start(parameters("tok"));
    assert_eq!(confirm(&mut unknown, ConfirmReply::NotFound), ConfirmAction::Fail(ConfirmFailure::NotFound));
    assert_eq!(unknown.stage(), ConfirmStage::Failed(ConfirmFailure::NotFound));

    let mut broken = Confirmation::start(parameters("tok"));
    assert_eq!(confirm(&mut broken, ConfirmReply::Failed), ConfirmAction::Fail(ConfirmFailure::Persistence));

    let mut unmarked = Confirmation::start(parameters("tok"));
    confirm(&mut unmarked, ConfirmReply::Found(9));
    assert_eq!(confirm(&mut unmarked, ConfirmReply::Failed), ConfirmAction::Fail(ConfirmFailure::Persistence));
}
