//! The core of a newsletter service: a visitor asks to subscribe, is
//! recorded as pending together with a secret token, is sent a link that
//! carries the token, and becomes a confirmed subscriber by presenting it.
//!
//! * [`domain`] holds the validated values (name, address) and the records
//!   that are kept of a subscriber and of a token.
//! * [`routes`] holds the two operations, create and confirm. Each is a
//!   machine that is told how the last action ended and answers with the
//!   next one; the caller carries the actions out on a database and an email
//!   service.
//! * [`store`] and [`email_client`] hold a store and a notifier in memory,
//!   and [`workflow`] runs the two operations against them and states what
//!   holds of every run.
//! * [`startup`] holds the one setting that the core needs, the base address
//!   of the service.

pub mod domain;
pub mod email_client;
pub mod routes;
pub mod startup;
pub mod store;
pub mod workflow;
