//! The decision-and-computation halves of the API handlers. Request
//! extraction, authentication transport and response encoding live outside
//! the library; each handler here takes the already-extracted plain values
//! and works the store.

pub mod create_match;
pub mod facebook_register;
pub mod get_matches;
pub mod login;
pub mod update_fpl_id;
