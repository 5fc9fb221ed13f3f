//! The operations that the service offers: create a subscription, confirm it.

pub mod form;
pub mod subscriptions;
pub mod subscriptions_confirm;

pub use subscriptions::{
    generate_subscriptions_token, parse_subscriber, response_status, send_confirmation_email,
    subscribe, FormData,
};
pub use subscriptions_confirm::{confirm, confirm_response_status, Parameters};
