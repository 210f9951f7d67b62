//! Core of a real-time event dispatch service for a multi-tenant chat system.
//!
//! Notices that describe user-visible events are fanned out to the
//! per-client event queues of a [`queues::Queues`] registry, each client
//! gets the message in the form it asked for, and for every recipient the
//! library decides which offline notifications (mobile push, email) are
//! owed.
//!
//! The library does no input or output. It takes parsed notices and gives
//! back the envelopes to publish; where work lies outside it (queries, the
//! broker) it says what is to be done next ([`auth::auth_step`],
//! [`rabbitmq::consumer_step`]).
//!
//! The code is verified with Verus: each public function carries a contract
//! over the mathematical view of its arguments, and what holds of every
//! fan-out is proved in [`fan_out_laws`]. The few calls into other crates
//! (hashing, URLs, Gravatar, the configuration parser, case folding) stand
//! behind small wrappers whose contracts are assumed; the doc comment of
//! each says what is assumed.

pub mod auth;
pub mod avatar;
pub mod avatar_hash;
pub mod events;
pub mod fan_out;
pub mod fan_out_laws;
pub mod message;
pub mod narrow;
pub mod notice;
pub mod notification_data;
pub mod queues;
pub mod rabbitmq;
pub mod response;
pub mod secrets;
pub mod text;
pub mod types;
pub mod upload;
