use crate::domain::new_subscriber::NewSubscriber;
use crate::domain::subscriber_email::SubscriberEmail;
use crate::domain::subscriber_name::SubscriberName;
use chrono::Utc;
use uuid::Uuid;
use vstd::prelude::*;

verus! {

/// Where a subscriber stands: waiting for confirmation, or confirmed. A
/// subscriber starts as pending and is confirmed once; nothing leads back.
#[derive(Clone, Copy, Debug, PartialEq, Eq, Structural)]
pub enum SubscriptionStatus {
    PendingConfirmation,
    Confirmed,
}

/// The text under which a status is stored.
pub open spec fn status_label(status: SubscriptionStatus) -> Seq<char> {
    match status {
        SubscriptionStatus::PendingConfirmation => "pending_confirmation"@,
        SubscriptionStatus::Confirmed => "confirmed"@,
    }
}

impl SubscriptionStatus {
    /// The text under which this status is stored.
    pub fn as_str(&self) -> (label: &'static str)
        ensures
            label@ == status_label(*self),
    {
        match self {
            SubscriptionStatus::PendingConfirmation => "pending_confirmation",
            SubscriptionStatus::Confirmed => "confirmed",
        }
    }
}

/// A moment in UTC: whole seconds since the start of 1970, and the
/// nanoseconds into that second.
#[derive(Clone, Copy, Debug, PartialEq, Eq, Structural)]
pub struct Timestamp {
    pub seconds: i64,
    pub nanoseconds: u32,
}

/// A random (version 4) identifier in the layout of RFC 9562: the version
/// field holds 4 and the variant field holds the bits `10`.
pub open spec fn is_random_identifier(id: u128) -> bool {
    id & 0x0000_0000_0000_f000_c000_0000_0000_0000u128
        == 0x0000_0000_0000_4000_8000_0000_0000_0000u128
}

/// A moment that a clock can show: not before 1970, with less than a second
/// of nanoseconds.
pub open spec fn is_clock_reading(t: Timestamp) -> bool {
    t.seconds >= 0 && t.nanoseconds < 1_000_000_000
}

/// A subscriber as the store records one.
pub struct Subscriber {
    pub id: u128,
    pub email: SubscriberEmail,
    pub name: SubscriberName,
    pub subscribed_at: Timestamp,
    pub status: SubscriptionStatus,
}

/// What a `Subscriber` holds, as plain values.
pub struct SubscriberView {
    pub id: u128,
    pub email: Seq<char>,
    pub name: Seq<char>,
    pub subscribed_at: Timestamp,
    pub status: SubscriptionStatus,
}

impl View for Subscriber {
    type V = SubscriberView;

    open spec fn view(&self) -> SubscriberView {
        SubscriberView {
            id: self.id,
            email: self.email@,
            name: self.name@,
            subscribed_at: self.subscribed_at,
            status: self.status,
        }
    }
}

/// The record of a subscriber who has just asked to subscribe.
pub open spec fn pending_record(
    id: u128,
    now: Timestamp,
    name: Seq<char>,
    email: Seq<char>,
) -> SubscriberView {
    SubscriberView {
        id,
        email,
        name,
        subscribed_at: now,
        status: SubscriptionStatus::PendingConfirmation,
    }
}

/// `Uuid::new_v4`, read as the 128-bit number that `Uuid::as_u128` gives.
/// Whatever number is drawn, its version and variant fields mark it as a
/// random identifier; nothing else is promised of it.
#[verifier::external_body]
fn new_identifier() -> (id: u128)
    ensures
        is_random_identifier(id),
{
    Uuid::new_v4().as_u128()
}

/// `Utc::now`, read through `DateTime::timestamp` and
/// `DateTime::timestamp_subsec_nanos`. The clock is read as a span since the
/// start of 1970, so the seconds are not negative and the nanoseconds stay
/// under a second. The call stops the program if the system clock shows a
/// time before 1970.
#[verifier::external_body]
fn now() -> (t: Timestamp)
    ensures
        is_clock_reading(t),
{
    let now = Utc::now();
    Timestamp { seconds: now.timestamp(), nanoseconds: now.timestamp_subsec_nanos() }
}

impl Subscriber {
    /// The record of `new_subscriber` under the identifier `id`, subscribed
    /// at `now` and waiting for confirmation.
    pub fn pending(id: u128, now: Timestamp, new_subscriber: NewSubscriber) -> (subscriber: Self)
        ensures
            subscriber@ == pending_record(id, now, new_subscriber.name@, new_subscriber.email@),
    {
        Subscriber {
            id,
            email: new_subscriber.email,
            name: new_subscriber.name,
            subscribed_at: now,
            status: SubscriptionStatus::PendingConfirmation,
        }
    }

    /// The record of `new_subscriber` under a fresh random identifier,
    /// subscribed at the current time and waiting for confirmation.
    pub fn enroll(new_subscriber: NewSubscriber) -> (subscriber: Self)
        ensures
            is_random_identifier(subscriber.id),
            is_clock_reading(subscriber.subscribed_at),
            subscriber@ == pending_record(
                subscriber.id,
                subscriber.subscribed_at,
                new_subscriber.name@,
                new_subscriber.email@,
            ),
    {
        let subscriber_id = new_identifier();
        let subscribed_at = now();
        Subscriber::pending(subscriber_id, subscribed_at, new_subscriber)
    }

    /// A copy of this record.
    pub fn duplicate(&self) -> (copy: Self)
        ensures
            copy@ == self@,
    {
        Subscriber {
            id: self.id,
            email: self.email.clone(),
            name: self.name.clone(),
            subscribed_at: self.subscribed_at,
            status: self.status,
        }
    }
}

} // verus!
