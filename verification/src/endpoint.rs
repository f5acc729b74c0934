//! The addresses of the API's endpoints: a path joined to the base address,
//! by the rules of the `url` crate.

use vstd::prelude::*;

verus! {

/// `url::Url`, a parsed address.
#[verifier::external_type_specification]
#[verifier::external_body]
pub struct ExUrl(url::Url);

/// `url::ParseError`, why a text is no address.
#[verifier::external_type_specification]
#[verifier::external_body]
pub struct ExParseError(url::ParseError);

/// The serialization of a `url::Url`: the address as text.
pub uninterp spec fn url_text(address: url::Url) -> Seq<char>;

/// What `Url::parse` makes of a text: the serialization of the absolute
/// address that it reads, or `None` where it refuses the text.
pub uninterp spec fn url_parsed(input: Seq<char>) -> Option<Seq<char>>;

/// What `Url::join` makes of a reference against the base address with the
/// serialization `base`: the serialization of the address that the reference
/// resolves to, or `None` where it refuses the reference.
pub uninterp spec fn url_joined(base: Seq<char>, reference: Seq<char>) -> Option<Seq<char>>;

/// `Url::parse`: reads an absolute address. The outcome depends on the text
/// alone.
pub assume_specification[ url::Url::parse ](input: &str) -> (r: Result<url::Url, url::ParseError>)
    ensures
        match r {
            Ok(address) => url_parsed(input@) == Some(url_text(address)),
            Err(_) => url_parsed(input@) is None,
        },
;

/// `Url::join`: resolves a reference against a base address. The outcome
/// depends on the base address and on the reference alone.
pub assume_specification[ url::Url::join ](base: &url::Url, input: &str) -> (r: Result<
    url::Url,
    url::ParseError,
>)
    ensures
        match r {
            Ok(address) => url_joined(url_text(*base), input@) == Some(url_text(address)),
            Err(_) => url_joined(url_text(*base), input@) is None,
        },
;

/// `Url::as_str`: the serialization of the address.
pub assume_specification[ url::Url::as_str ](address: &url::Url) -> (r: &str)
    ensures
        r@ == url_text(*address),
;

/// Why no address could be made.
#[derive(Debug, Clone, Copy, PartialEq, Eq)]
pub enum UrlError {
    /// The base address is no absolute address.
    InvalidBase(url::ParseError),
    /// The path cannot be resolved against the base address.
    InvalidPath(url::ParseError),
}

/// The address of an endpoint: what `path` resolves to against `base_url`.
pub open spec fn endpoint_address(base_url: Seq<char>, path: Seq<char>) -> Option<Seq<char>> {
    match url_parsed(base_url) {
        Some(base) => url_joined(base, path),
        None => None,
    }
}

/// Joins the path of an endpoint to the base address of the API.
pub fn format_url(base_url: &str, path: &str) -> (r: Result<String, UrlError>)
    ensures
        match r {
            Ok(address) => endpoint_address(base_url@, path@) == Some(address@),
            Err(UrlError::InvalidBase(_)) => url_parsed(base_url@) is None,
            Err(UrlError::InvalidPath(_)) => url_parsed(base_url@) is Some && endpoint_address(
                base_url@,
                path@,
            ) is None,
        },
{
    let base = match url::Url::parse(base_url) {
        Ok(base) => base,
        Err(error) => {
            return Err(UrlError::InvalidBase(error));
        },
    };
    match base.join(path) {
        Ok(address) => Ok(address.as_str().to_owned()),
        Err(error) => Err(UrlError::InvalidPath(error)),
    }
}

} // verus!
