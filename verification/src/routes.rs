//! The URLs of the lookups.
//!
//! An account enters its URL as it stands. Of the digest of a password only
//! the first five characters do: the server answers with every digest that
//! begins so, and never learns which of them was asked for.

use vstd::prelude::*;

verus! {

/// Number of digest characters that a password lookup discloses.
pub const PREFIX_CHARS: usize = 5;

/// The kinds of lookup, one for each endpoint.
#[derive(Clone, Copy, PartialEq, Eq, Structural, Debug)]
pub enum CheckableChoices {
    /// Breaches of an account.
    Acc,
    /// Occurrences of a password, by the prefix of its digest.
    Pass,
    /// Pastes that hold an account.
    Paste,
}

impl CheckableChoices {
    /// The URL of this kind's endpoint, up to and including the last `/`.
    pub open spec fn endpoint(self) -> Seq<char> {
        match self {
            CheckableChoices::Acc => "https://haveibeenpwned.com/api/v3/breachedaccount/"@,
            CheckableChoices::Pass => "https://api.pwnedpasswords.com/range/"@,
            CheckableChoices::Paste => "https://haveibeenpwned.com/api/v3/pasteaccount/"@,
        }
    }

    /// The URL that looks `search_term` up at this kind's endpoint: the
    /// endpoint followed by the term as it stands. The term of a password
    /// lookup is the five-character prefix of a digest, never more of it.
    pub fn get_api_route(&self, search_term: &str) -> (route: String)
        requires
            *self is Pass ==> search_term@.len() == PREFIX_CHARS,
        ensures
            route@ == self.endpoint() + search_term@,
    {
        let mut route = match self {
            CheckableChoices::Acc => String::from_str(
                "https://haveibeenpwned.com/api/v3/breachedaccount/",
            ),
            CheckableChoices::Pass => String::from_str("https://api.pwnedpasswords.com/range/"),
            CheckableChoices::Paste => String::from_str(
                "https://haveibeenpwned.com/api/v3/pasteaccount/",
            ),
        };
        route.append(search_term);
        route
    }
}

/// What a lookup of kind `arg` sends of `input`: the first five characters
/// of a digest, the whole of an account.
pub open spec fn disclosed(arg: CheckableChoices, input: Seq<char>) -> Seq<char> {
    match arg {
        CheckableChoices::Pass => input.take(PREFIX_CHARS as int),
        _ => input,
    }
}

/// The URL of a lookup of kind `arg` for `input`.
pub open spec fn api_route(arg: CheckableChoices, input: Seq<char>) -> Seq<char> {
    arg.endpoint() + disclosed(arg, input)
}

/// Make the URL of a lookup of kind `arg`. For `Pass`, `input_data` is the
/// digest of the password, of which only the first five characters enter the
/// URL; for the other kinds it is the account, which enters unchanged.
pub fn arg_to_api_route(arg: &CheckableChoices, input_data: &str) -> (route: String)
    requires
        *arg is Pass ==> input_data@.len() >= PREFIX_CHARS,
    ensures
        route@ == api_route(*arg, input_data@),
{
    match arg {
        CheckableChoices::Pass => arg.get_api_route(input_data.substring_char(0, PREFIX_CHARS)),
        _ => arg.get_api_route(input_data),
    }
}

/// A password lookup discloses the prefix of the digest and nothing else:
/// two digests with the same first five characters give the same URL,
/// whatever follows in them.
pub proof fn lemma_password_route_depends_on_prefix_only(first: Seq<char>, second: Seq<char>)
    requires
        first.len() >= PREFIX_CHARS,
        second.len() >= PREFIX_CHARS,
        first.take(PREFIX_CHARS as int) == second.take(PREFIX_CHARS as int),
    ensures
        api_route(CheckableChoices::Pass, first) == api_route(CheckableChoices::Pass, second),
{
}

/// The URL of a password lookup ends in exactly five characters of the
/// digest, its first five.
pub proof fn lemma_password_route_holds_five_chars(digest: Seq<char>)
    requires
        digest.len() >= PREFIX_CHARS,
    ensures
        api_route(CheckableChoices::Pass, digest).len() == CheckableChoices::Pass.endpoint().len()
            + PREFIX_CHARS,
        api_route(CheckableChoices::Pass, digest).skip(
            CheckableChoices::Pass.endpoint().len() as int,
        ) == digest.take(PREFIX_CHARS as int),
{
}

/// The URL of an account or paste lookup ends in the account, whole and
/// unchanged.
pub proof fn lemma_account_route_holds_term(arg: CheckableChoices, account: Seq<char>)
    requires
        !(arg is Pass),
    ensures
        api_route(arg, account).len() == arg.endpoint().len() + account.len(),
        api_route(arg, account).skip(arg.endpoint().len() as int) == account,
{
}

} // verus!
