//! Relays forum webhook events to a fixed list of chat recipients.
//!
//! The library holds the decisions: decoding a request's fields into an
//! [`event::Event`], rendering the notification text, and planning the
//! per-recipient deliveries. Performing the deliveries is left to the caller.
pub mod dispatch;
pub mod event;
pub mod message;
