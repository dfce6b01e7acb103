//! The lookup of a password, from its digest to whether a range response
//! holds it.

use crate::errors::CheckpwnError;
use crate::hashing::{hash_password, is_digest_text, password_digest};
use crate::range::{range_contains, search_in_range};
use crate::routes::{api_route, arg_to_api_route, CheckableChoices};
use crate::secret::Scrubbed;
use crate::transport::{Request, PADDING_HEADER, PADDING_VALUE};
use vstd::prelude::*;

verus! {

/// `Password` is a wrapper type for a password that is checked at HIBP. It
/// holds the digest of the password and nothing else of it, shows the digest
/// to nobody, and overwrites it when dropped.
pub struct Password {
    hash: Scrubbed,
}

/// The verdict on a password from the status code of its range request and
/// from whether the response lists it. A password that is not listed is not
/// breached, whatever the status code; one that is listed is breached with
/// 200, not breached with 404, and with any other code the lookup fails.
pub open spec fn password_verdict(request_status: u16, listed: bool) -> Result<bool, CheckpwnError> {
    if !listed {
        Ok(false)
    } else if request_status == 200 {
        Ok(true)
    } else if request_status == 404 {
        Ok(false)
    } else {
        Err(CheckpwnError::StatusCode)
    }
}

impl Password {
    /// The digest that this value holds.
    pub closed spec fn digest(&self) -> Seq<char> {
        self.hash@
    }

    #[verifier::type_invariant]
    spec fn holds_a_digest(&self) -> bool {
        is_digest_text(self.hash@)
    }

    /// Hash and make a new `Password`. Returns `Err` if `password` is empty.
    pub fn new(password: &str) -> (made: Result<Self, CheckpwnError>)
        ensures
            made is Err <==> password@.len() == 0,
            made matches Err(e) ==> e == CheckpwnError::EmptyInput,
            made matches Ok(p) ==> p.digest() == password_digest(password@) && is_digest_text(
                p.digest(),
            ),
    {
        if password.is_empty() {
            return Err(CheckpwnError::EmptyInput);
        }
        Ok(Self { hash: Scrubbed::new(hash_password(password)) })
    }

    /// What stands for this value in debugging output: a fixed text, without
    /// the digest.
    pub fn fmt(&self) -> (shown: String)
        ensures
            shown@ == "Password { hash: ***OMITTED*** }"@,
    {
        String::from_str("Password { hash: ***OMITTED*** }")
    }

    /// Begin the lookup of this password: the request to send. Its URL holds
    /// the first five characters of the digest and no more of it, and its
    /// header asks for padding.
    pub fn request(&self) -> (request: Request<'static>)
        ensures
            request.route@ == api_route(CheckableChoices::Pass, self.digest()),
            request.header@ == PADDING_HEADER@,
            request.value@ == PADDING_VALUE@,
    {
        proof {
            use_type_invariant(self);
        }
        Request {
            route: arg_to_api_route(&CheckableChoices::Pass, self.hash.as_str()),
            header: PADDING_HEADER,
            value: PADDING_VALUE,
        }
    }
}

/// End the lookup of a password: the verdict from the status code of the
/// range request and the body of its response.
pub fn evaluate_pass_breach(password: &Password, request_status: u16, range_response: &str) -> (verdict:
    Result<bool, CheckpwnError>)
    ensures
        verdict == password_verdict(
            request_status,
            range_contains(range_response@, password.digest()),
        ),
{
    if search_in_range(range_response, password.hash.as_str()) {
        if request_status == 200 {
            Ok(true)
        } else if request_status == 404 {
            Ok(false)
        } else {
            Err(CheckpwnError::StatusCode)
        }
    } else {
        Ok(false)
    }
}

/// A password that the response does not list is never reported as
/// breached, and its lookup never fails; the only error of this step is
/// `StatusCode`.
pub proof fn lemma_password_verdict_bounds(request_status: u16, listed: bool)
    ensures
        !listed ==> password_verdict(request_status, listed) == Ok::<bool, CheckpwnError>(false),
        password_verdict(request_status, listed) == Ok::<bool, CheckpwnError>(true) <==> listed
            && request_status == 200,
        password_verdict(request_status, listed) matches Err(e) ==> e == CheckpwnError::StatusCode,
{
}

} // verus!
