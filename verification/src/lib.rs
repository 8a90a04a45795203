//! A verified core for a gameweek wagering engine.
//!
//! The library models the engine's storage as a plain value ([`store::Store`])
//! and proves the behaviour of everything that reads or mutates it: ingestion
//! of the external gameweek feed, the match lifecycle driver, the settlement
//! transaction that creates matches and escrows currency, and the cron-driven
//! scheduler that triggers those jobs. Wall-clock time and cron-expression
//! evaluation come from outside crates through a small set of trusted
//! wrappers; everything else is proved.

pub mod auth;
pub mod clock;
pub mod decimal;
pub mod error;
pub mod event_status;
pub mod handlers;
pub mod lifecycle;
pub mod matches;
pub mod services;
pub mod settlement;
pub mod responses;
pub mod schedule;
pub mod scheduler;
pub mod store;
pub mod validator;
pub mod users;
