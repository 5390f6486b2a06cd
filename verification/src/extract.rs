//! The callback extractor: decide whether an activation URI is the OAuth
//! callback, and extract the bearer token from it.
//!
//! The outcome of `extract` fully determines the downstream side effect: a
//! token is delivered exactly when `extract` returns it, and every rejected
//! activation carries a reason that never holds the URI or the token.

use vstd::prelude::*;
use vstd::string::*;
use crate::chars::{seq_starts_with, str_eq, str_starts_with};
use crate::query::{first_value, lemma_first_value_at, spec_first_value, spec_pairs};
use crate::uri::{parse, spec_parse, UriParts};

verus! {

/// Why an activation produced no token.
///
/// None of the variants carries data: a reason can be reported without any
/// risk of writing the URI, or a token, to a log.
#[derive(Clone, Copy, Debug, PartialEq, Eq, Structural)]
pub enum ExtractError {
    /// The activation string does not parse as a URI. The event is dropped.
    Malformed,
    /// A well-formed URI that is not the OAuth callback; a legitimate
    /// activation for some other purpose, ignored silently.
    NoMatch,
    /// The OAuth callback shape without a `token` parameter: a broken
    /// identity-provider integration.
    MissingToken,
}

/// A bearer token extracted from one callback.
///
/// The type deliberately has no printing or comparison implementations: the
/// value leaves it only through [`OAuthToken::into_value`], at the single
/// point of downstream delivery.
pub struct OAuthToken {
    value: String,
}

impl View for OAuthToken {
    type V = Seq<char>;

    closed spec fn view(&self) -> Seq<char> {
        self.value@
    }
}

impl OAuthToken {
    /// Hand the secret over, consuming the wrapper. This is the downstream
    /// delivery point; the token has no further lifetime in this crate.
    pub fn into_value(self) -> (r: String)
        ensures
            r@ == self@,
    {
        self.value
    }
}

/// The name of the query parameter that carries the token.
pub open spec fn token_param() -> Seq<char> {
    "token"@
}

/// The host of the expected callback shape.
pub open spec fn callback_host() -> Seq<char> {
    "auth"@
}

/// The path prefix of the expected callback shape.
pub open spec fn callback_path_prefix() -> Seq<char> {
    "/callback"@
}

/// A parsed URI has the callback shape: the registered scheme, the callback
/// host, and a path beginning with the callback path.
pub open spec fn spec_matches_shape(p: UriParts, scheme: Seq<char>) -> bool {
    &&& p.scheme == scheme
    &&& p.host == callback_host()
    &&& seq_starts_with(p.path, callback_path_prefix())
}

/// What `extract` yields on `s` when the registered scheme is `scheme`:
/// the value of the first `token` parameter of a matching callback, or the
/// reason no token is produced.
pub open spec fn spec_extract(s: Seq<char>, scheme: Seq<char>) -> Result<Seq<char>, ExtractError> {
    match spec_parse(s) {
        Option::None => Result::Err(ExtractError::Malformed),
        Option::Some(p) => if !spec_matches_shape(p, scheme) {
            Result::Err(ExtractError::NoMatch)
        } else {
            match spec_first_value(spec_pairs(p.query), token_param()) {
                Option::None => Result::Err(ExtractError::MissingToken),
                Option::Some(v) => Result::Ok(v),
            }
        },
    }
}

/// Extract the bearer token from one activation URI.
///
/// `scheme` is the scheme registered for this application. The result is
/// exactly `spec_extract(raw@, scheme@)`: the first `token` parameter of a
/// matching callback, or the reason the activation yields none. A token is
/// to be delivered downstream if and only if the result is `Ok`.
pub fn extract(raw: &str, scheme: &str) -> (r: Result<OAuthToken, ExtractError>)
    ensures
        (r matches Ok(t) ==> spec_extract(raw@, scheme@) == Result::<Seq<char>, ExtractError>::Ok(
            t@,
        )),
        (r matches Err(e) ==> spec_extract(raw@, scheme@) == Result::<
            Seq<char>,
            ExtractError,
        >::Err(e)),
{
    match parse(raw) {
        Option::None => Result::Err(ExtractError::Malformed),
        Option::Some(u) => {
            let matches_shape = str_eq(u.scheme.as_str(), scheme) && str_eq(
                u.host.as_str(),
                "auth",
            ) && str_starts_with(u.path.as_str(), "/callback");
            if !matches_shape {
                Result::Err(ExtractError::NoMatch)
            } else {
                match first_value(u.query.as_str(), "token") {
                    Option::None => Result::Err(ExtractError::MissingToken),
                    Option::Some(v) => Result::Ok(OAuthToken { value: v }),
                }
            }
        },
    }
}

/// A non-secret log line for a rejected activation. The message is a fixed
/// literal chosen by the reason alone: no part of the URI, and no token,
/// can reach a log through it.
pub fn diagnostic(e: &ExtractError) -> (m: String)
    ensures
        *e is Malformed ==> m@ == "activation dropped: uri did not parse"@,
        *e is NoMatch ==> m@ == "activation ignored: not the oauth callback"@,
        *e is MissingToken ==> m@ == "oauth callback carried no token parameter"@,
{
    match e {
        ExtractError::Malformed => "activation dropped: uri did not parse".to_owned(),
        ExtractError::NoMatch => "activation ignored: not the oauth callback".to_owned(),
        ExtractError::MissingToken => "oauth callback carried no token parameter".to_owned(),
    }
}

/// A matching callback yields the value of its first `token` parameter:
/// whatever other parameters surround that parameter, in whatever order,
/// and whatever follows it, the token extracted is exactly `ps[i].1`.
pub proof fn lemma_extract_first_token(s: Seq<char>, scheme: Seq<char>, i: int)
    requires
        spec_parse(s) is Some,
        spec_matches_shape(spec_parse(s)->Some_0, scheme),
        0 <= i < spec_pairs(spec_parse(s)->Some_0.query).len(),
        spec_pairs(spec_parse(s)->Some_0.query)[i].0 == token_param(),
        forall|j: int|
            0 <= j < i ==> spec_pairs(spec_parse(s)->Some_0.query)[j].0 != token_param(),
    ensures
        spec_extract(s, scheme) == Result::<Seq<char>, ExtractError>::Ok(
            spec_pairs(spec_parse(s)->Some_0.query)[i].1,
        ),
{
    lemma_first_value_at(spec_pairs(spec_parse(s)->Some_0.query), token_param(), i);
}

/// An empty-valued first `token` parameter is not special-cased: the token
/// extracted is the empty string.
pub proof fn lemma_extract_empty_token(s: Seq<char>, scheme: Seq<char>, i: int)
    requires
        spec_parse(s) is Some,
        spec_matches_shape(spec_parse(s)->Some_0, scheme),
        0 <= i < spec_pairs(spec_parse(s)->Some_0.query).len(),
        spec_pairs(spec_parse(s)->Some_0.query)[i].0 == token_param(),
        spec_pairs(spec_parse(s)->Some_0.query)[i].1 == Seq::<char>::empty(),
        forall|j: int|
            0 <= j < i ==> spec_pairs(spec_parse(s)->Some_0.query)[j].0 != token_param(),
    ensures
        spec_extract(s, scheme) == Result::<Seq<char>, ExtractError>::Ok(Seq::<char>::empty()),
{
    lemma_extract_first_token(s, scheme, i);
}

/// A well-formed URI without the callback shape is ignored: the outcome is
/// `NoMatch`, and no token exists to deliver.
pub proof fn lemma_extract_no_match(s: Seq<char>, scheme: Seq<char>)
    requires
        spec_parse(s) is Some,
        !spec_matches_shape(spec_parse(s)->Some_0, scheme),
    ensures
        spec_extract(s, scheme) == Result::<Seq<char>, ExtractError>::Err(ExtractError::NoMatch),
{
}

/// A string that does not parse is dropped: the outcome is `Malformed`, and
/// no token exists to deliver.
pub proof fn lemma_extract_malformed(s: Seq<char>, scheme: Seq<char>)
    requires
        spec_parse(s) is None,
    ensures
        spec_extract(s, scheme) == Result::<Seq<char>, ExtractError>::Err(ExtractError::Malformed),
{
}

/// A matching callback without any `token` parameter is a provider-side
/// contract violation: the outcome is `MissingToken`, and no token exists
/// to deliver.
pub proof fn lemma_extract_missing_token(s: Seq<char>, scheme: Seq<char>)
    requires
        spec_parse(s) is Some,
        spec_matches_shape(spec_parse(s)->Some_0, scheme),
        spec_first_value(spec_pairs(spec_parse(s)->Some_0.query), token_param()) is None,
    ensures
        spec_extract(s, scheme) == Result::<Seq<char>, ExtractError>::Err(
            ExtractError::MissingToken,
        ),
{
}

} // verus!
