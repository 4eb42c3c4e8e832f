//! Signing in to an Apple account: the decisions, the message formats and the key handling.

pub mod account;
pub mod account_laws;
pub mod crypto;
pub mod date_laws;
pub mod error;
pub mod exchange;
pub mod exchange_laws;
pub mod json_tree;
pub mod laws;
pub mod login;
pub mod login_laws;
pub mod model_laws;
pub mod plist_tree;
pub mod privacy;
pub mod reading_laws;
pub mod run_laws;
pub mod sms;
pub mod sms_laws;
pub mod text;
pub mod token;
pub mod token_laws;
pub mod types;
pub mod xml_dates;
