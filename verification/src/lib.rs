//! Sector-addressed access to MIFARE Classic style memory cards.
//!
//! The crate holds the decisions of a card session and leaves the exchanges
//! with the reader chip to its caller: every operation is a
//! [`session::Command`] that the caller carries out, and a
//! [`session::Reply`] that it hands back.
//!
//! - [`layout`]: sectors, blocks and their roles.
//! - [`card`]: identities, keys, blocks and trailers.
//! - [`session`]: one card session, from the poll to the halt.
//! - [`line`] and [`report`]: the text that is reported.
//! - [`reading`], [`scan`] and [`rotation`]: the read of a sector, the dump
//!   of a card and the change of a sector's keys, one exchange at a time.
//! - [`model`]: a card as the workflows take it to be, for what is proved
//!   of whole runs.

pub mod card;
pub mod layout;
pub mod line;
pub mod model;
pub mod reading;
pub mod report;
pub mod rotation;
pub mod scan;
pub mod session;
pub mod workflow;
