//! The lookup of an account, which asks two endpoints, one for breaches and
//! one for pastes, and weighs the two status codes against each other.

use crate::errors::CheckpwnError;
use crate::routes::{api_route, arg_to_api_route, CheckableChoices};
use crate::transport::{
    response_to_status_codes, status_of, HttpError, HttpResponse, Request, ACCOUNT_DELAY_MILLIS,
    API_KEY_HEADER,
};
use vstd::prelude::*;

verus! {

/// The verdict on an account from the status codes of its two lookups: `Ok`
/// with whether the account is breached, or the error that the codes point
/// to. Every pair that is not singled out counts as breached.
pub open spec fn account_verdict(acc_stat: u16, paste_stat: u16) -> Result<bool, CheckpwnError> {
    if acc_stat == 401 && paste_stat == 401 {
        Err(CheckpwnError::InvalidApiKey)
    } else if acc_stat == 404 && (paste_stat == 404 || paste_stat == 400) {
        Ok(false)
    } else if acc_stat == 400 && (paste_stat == 400 || paste_stat == 404 || paste_stat == 200) {
        Err(CheckpwnError::BadResponse)
    } else {
        Ok(true)
    }
}

/// Combine the status codes of the account lookup and of the paste lookup
/// into one verdict.
pub fn evaluate_acc_breach_statuscodes(acc_stat: u16, paste_stat: u16) -> (verdict: Result<
    bool,
    CheckpwnError,
>)
    ensures
        verdict == account_verdict(acc_stat, paste_stat),
{
    match (acc_stat, paste_stat) {
        (401, 401) => Err(CheckpwnError::InvalidApiKey),
        (404, 404) => Ok(false),
        // BadRequest allowed here because the account API lets you search for usernames
        // and the paste API will return BadRequest on those
        (404, 400) => Ok(false),
        (400, 400) => Err(CheckpwnError::BadResponse),
        // Since the account API both takes username and emails and situation where BadRequest
        // and NotFound are returned should never occur.
        (400, 404) => Err(CheckpwnError::BadResponse),
        (400, 200) => Err(CheckpwnError::BadResponse),
        _ => Ok(true),
    }
}

/// What an account lookup does before it can be evaluated: it waits, so as
/// to stay within the rate that HIBP accepts, and then sends two requests.
pub struct AccountLookup<'a> {
    /// Milliseconds to wait before the first request. There is no wait
    /// between the two requests.
    pub delay_millis: u64,
    /// The request for the breaches of the account, sent first.
    pub breaches: Request<'a>,
    /// The request for the pastes that hold the account, sent second.
    pub pastes: Request<'a>,
}

/// Whether `request` asks the endpoint of kind `arg` for `account` and
/// carries `api_key`.
pub open spec fn asks_for_account(
    request: Request<'_>,
    arg: CheckableChoices,
    account: Seq<char>,
    api_key: Seq<char>,
) -> bool {
    &&& request.route@ == api_route(arg, account)
    &&& request.header@ == API_KEY_HEADER@
    &&& request.value@ == api_key
}

/// Begin an account lookup: refuse an empty account or API key, else say
/// how long to wait and which two requests to send.
pub fn account_lookup<'a>(account: &str, api_key: &'a str) -> (lookup: Result<
    AccountLookup<'a>,
    CheckpwnError,
>)
    ensures
        lookup is Err <==> account@.len() == 0 || api_key@.len() == 0,
        lookup matches Err(e) ==> e == CheckpwnError::EmptyInput,
        lookup matches Ok(l) ==> {
            &&& l.delay_millis == ACCOUNT_DELAY_MILLIS
            &&& asks_for_account(l.breaches, CheckableChoices::Acc, account@, api_key@)
            &&& asks_for_account(l.pastes, CheckableChoices::Paste, account@, api_key@)
        },
{
    if account.is_empty() || api_key.is_empty() {
        return Err(CheckpwnError::EmptyInput);
    }
    Ok(
        AccountLookup {
            delay_millis: ACCOUNT_DELAY_MILLIS,
            breaches: Request {
                route: arg_to_api_route(&CheckableChoices::Acc, account),
                header: API_KEY_HEADER,
                value: api_key,
            },
            pastes: Request {
                route: arg_to_api_route(&CheckableChoices::Paste, account),
                header: API_KEY_HEADER,
                value: api_key,
            },
        },
    )
}

/// The verdict on an account from how its two requests ended: `Network`
/// where either ended without a response, else the verdict of the two status
/// codes.
pub open spec fn account_outcome(
    acc_stat: Result<HttpResponse, HttpError>,
    paste_stat: Result<HttpResponse, HttpError>,
) -> Result<bool, CheckpwnError> {
    match (status_of(acc_stat), status_of(paste_stat)) {
        (Ok(acc), Ok(paste)) => account_verdict(acc, paste),
        _ => Err(CheckpwnError::Network),
    }
}

/// End an account lookup: the verdict from how the account request and the
/// paste request ended.
pub fn evaluate_acc_responses(
    acc_stat: &Result<HttpResponse, HttpError>,
    paste_stat: &Result<HttpResponse, HttpError>,
) -> (verdict: Result<bool, CheckpwnError>)
    ensures
        verdict == account_outcome(*acc_stat, *paste_stat),
{
    let acc = match response_to_status_codes(acc_stat) {
        Ok(code) => code,
        Err(e) => return Err(e),
    };
    let paste = match response_to_status_codes(paste_stat) {
        Ok(code) => code,
        Err(e) => return Err(e),
    };
    evaluate_acc_breach_statuscodes(acc, paste)
}

/// A request that ended without a response makes the lookup fail with
/// `Network`: it is never taken for a status code, nor for a verdict.
pub proof fn lemma_transport_failure_is_network(
    acc_stat: Result<HttpResponse, HttpError>,
    paste_stat: Result<HttpResponse, HttpError>,
)
    requires
        acc_stat == Err::<HttpResponse, HttpError>(HttpError::Transport) || paste_stat == Err::<
            HttpResponse,
            HttpError,
        >(HttpError::Transport),
    ensures
        account_outcome(acc_stat, paste_stat) == Err::<bool, CheckpwnError>(CheckpwnError::Network),
{
}

/// An account lookup ends in a verdict or in one of three errors. The errors
/// that are kept for other uses, `Decoding` and `MissingApiKey`, never come
/// out of it, nor do `StatusCode` and `EmptyInput`, which belong to other
/// steps.
pub proof fn lemma_account_outcome_errors(
    acc_stat: Result<HttpResponse, HttpError>,
    paste_stat: Result<HttpResponse, HttpError>,
)
    ensures
        account_outcome(acc_stat, paste_stat) matches Err(e) ==> e == CheckpwnError::Network || e
            == CheckpwnError::InvalidApiKey || e == CheckpwnError::BadResponse,
{
}

} // verus!
