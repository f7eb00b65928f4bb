//! Command-line note taking: turning loosely typed fragments into exact
//! server-side identifiers, and a tokenised message into modifiers and body.
//!
//! Every function of this library carries a contract that Verus proves. The
//! few items whose contract is believed rather than proved are documented as
//! such where they stand.

pub mod text;
pub mod reference;
pub mod resolve;
pub mod modifiers;
pub mod submission;
pub mod endpoints;
pub mod config;
pub mod data;
