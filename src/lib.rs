//! Rules of a time-boxed creative contest: phase windows, one entry per
//! author and category, a bounded number of votes per voter, ranked results,
//! the login handshake with federated servers, and session expiry.

pub mod announce;
pub mod config;
pub mod directory;
pub mod error;
pub mod form;
pub mod identity;
pub mod ledger;
pub mod listing;
pub mod login;
pub mod rules;
pub mod session;
pub mod tally;
pub mod text;
pub mod window;
