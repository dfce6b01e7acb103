//! Checks passwords and accounts against the Have I Been Pwned breach
//! databases without disclosing the credential.
//!
//! The crate holds the protocol itself: hashing a password, building the
//! endpoint URLs (only the first five digest characters ever enter a URL),
//! scanning a range response for the digest's remainder, and turning HTTP
//! outcomes into a verdict. Sending the requests is left to the caller.

pub mod account;
pub mod errors;
pub mod hashing;
pub mod password;
pub mod range;
pub mod routes;
pub mod secret;
pub mod transport;

pub use account::{
    account_lookup, evaluate_acc_breach_statuscodes, evaluate_acc_responses, AccountLookup,
};
pub use errors::CheckpwnError;
pub use hashing::{digest_to_text, hash_password};
pub use password::{evaluate_pass_breach, Password};
pub use range::search_in_range;
pub use routes::{arg_to_api_route, CheckableChoices};
pub use secret::Scrubbed;
pub use transport::{
    response_to_status_codes, HttpError, HttpResponse, Request, ACCOUNT_DELAY_MILLIS,
    API_KEY_HEADER, CHECKPWN_USER_AGENT, CONNECT_TIMEOUT_SECS, PADDING_HEADER, PADDING_VALUE,
};
