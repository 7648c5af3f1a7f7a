//! The URL, version and email types of the manifests, which come from the
//! `url`, `semver` and `email_address` crates and are carried through
//! unchanged.

use vstd::prelude::*;

use url::Url as WebUrl;

verus! {

#[verifier::external_type_specification]
#[verifier::external_body]
pub struct ExUrl(url::Url);

#[verifier::external_type_specification]
#[verifier::external_body]
pub struct ExUrlParseError(url::ParseError);

#[verifier::external_type_specification]
#[verifier::external_body]
pub struct ExEmailAddress(email_address::EmailAddress);

#[verifier::external_type_specification]
#[verifier::external_body]
pub struct ExEmailParseError(email_address::Error);

#[verifier::external_type_specification]
#[verifier::external_body]
pub struct ExVersion(semver::Version);

#[verifier::external_type_specification]
#[verifier::external_body]
pub struct ExVersionReq(semver::VersionReq);

/// Relies on the `Clone` impl of `url::Url`; nothing is assumed of the copy.
pub assume_specification[ <WebUrl as Clone>::clone ](u: &WebUrl) -> WebUrl;

/// Relies on the `Clone` impl of `semver::Version`; nothing is assumed of the
/// copy.
pub assume_specification[ <semver::Version as Clone>::clone ](v: &semver::Version) -> semver::Version;

/// Relies on the `Clone` impl of `semver::VersionReq`; nothing is assumed of
/// the copy.
pub assume_specification[ <semver::VersionReq as Clone>::clone ](
    v: &semver::VersionReq,
) -> semver::VersionReq;

/// Relies on the `Clone` impl of `email_address::EmailAddress`; nothing is
/// assumed of the copy.
pub assume_specification[ <email_address::EmailAddress as Clone>::clone ](
    e: &email_address::EmailAddress,
) -> email_address::EmailAddress;

/// Whether `url::Url::parse` accepts the text as an absolute URL.
pub uninterp spec fn url_accepts(s: Seq<char>) -> bool;

/// Relies on `url::Url::parse`: it accepts or refuses a text depending on the
/// text alone.
#[verifier::external_body]
pub(crate) fn parse_url(text: &str) -> (r: Result<url::Url, url::ParseError>)
    ensures
        r is Ok <==> url_accepts(text@),
{
    url::Url::parse(text)
}

/// Whether `email_address::EmailAddress::from_str` accepts the text as an
/// email address.
pub uninterp spec fn email_accepts(s: Seq<char>) -> bool;

/// Relies on `email_address::EmailAddress::from_str` (with the crate's
/// default options): it accepts or refuses a text depending on the text alone.
#[verifier::external_body]
fn email_from_str(text: &str) -> (r: Result<email_address::EmailAddress, email_address::Error>)
    ensures
        r is Ok <==> email_accepts(text@),
{
    <email_address::EmailAddress as std::str::FromStr>::from_str(text)
}

/// Why a text is not an email address, as the address parser reports it.
#[derive(Debug, PartialEq)]
pub struct EmailError {
    pub reason: email_address::Error,
}

/// The email address that `text` spells; an error when the address parser
/// refuses it.
pub fn parse_email(text: &str) -> (r: Result<email_address::EmailAddress, EmailError>)
    ensures
        r is Ok <==> email_accepts(text@),
{
    match email_from_str(text) {
        Ok(address) => Ok(address),
        Err(reason) => Err(EmailError { reason }),
    }
}

} // verus!
