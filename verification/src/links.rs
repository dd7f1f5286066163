use url::Url;
use vstd::prelude::*;

verus! {

/// A parsed URL of the `url` crate, held as it is.
#[verifier::external_type_specification]
#[verifier::external_body]
pub struct ExUrl(Url);

/// The reason for which the `url` crate refuses a text.
#[verifier::external_type_specification]
#[verifier::external_body]
pub struct ExUrlParseError(url::ParseError);

/// What `Url::join` makes of a reference read against a base URL.
pub uninterp spec fn resolved(base: Url, reference: Seq<char>) -> Result<Url, url::ParseError>;

/// The path of a URL, as `Url::path` returns it.
pub uninterp spec fn path_of(address: Url) -> Seq<char>;

/// `Url` derives `Clone`: the copy is the URL itself.
pub assume_specification[ <Url as Clone>::clone ](address: &Url) -> (copy: Url)
    ensures
        copy == *address,
;

/// Calls `Url::join`, which parses `reference` with `base` as the base URL.
/// The contract claims only that the outcome is a function of the two.
#[verifier::external_body]
pub(crate) fn resolve(base: &Url, reference: &str) -> (r: Result<Url, url::ParseError>)
    ensures
        r == resolved(*base, reference@),
{
    base.join(reference)
}

/// Calls `Url::path` and copies the path. The contract claims only that the
/// path is a function of the URL.
#[verifier::external_body]
pub(crate) fn path(address: &Url) -> (p: String)
    ensures
        p@ == path_of(*address),
{
    address.path().to_owned()
}

} // verus!
