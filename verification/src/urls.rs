//! Resolving locations through the url crate.
//!
//! Parsing and joining follow the WHATWG algorithm, which depends on the
//! texts alone; each operation is reached through one trusted wrapper whose
//! result the uninterpreted spec functions name.
use vstd::prelude::*;

verus! {

/// The normalized text of `s` parsed as an absolute URL, or `None`: what
/// `url::Url::parse` accepts and returns depends on the text alone.
pub uninterp spec fn spec_url_parse(s: Seq<char>) -> Option<Seq<char>>;

/// The normalized text of `rel` resolved against the absolute URL `base`, or
/// `None`: what `url::Url::join` returns depends on the two texts alone.
pub uninterp spec fn spec_url_join(base: Seq<char>, rel: Seq<char>) -> Option<Seq<char>>;

/// Relies on `url::Url::parse`: validates and normalizes an absolute URL.
#[verifier::external_body]
pub fn url_parse(s: &str) -> (r: Option<String>)
    ensures
        match r {
            Some(t) => spec_url_parse(s@) == Some(t@),
            None => spec_url_parse(s@) is None,
        },
{
    match url::Url::parse(s) {
        Ok(u) => Some(String::from(u)),
        Err(_) => None,
    }
}

/// Relies on `url::Url::join` (after `url::Url::parse` of the base): resolves
/// a possibly relative location against an absolute one.
#[verifier::external_body]
pub fn url_join(base: &str, rel: &str) -> (r: Option<String>)
    ensures
        match r {
            Some(t) => spec_url_join(base@, rel@) == Some(t@),
            None => spec_url_join(base@, rel@) is None,
        },
{
    match url::Url::parse(base) {
        Ok(b) => match b.join(rel) {
            Ok(u) => Some(String::from(u)),
            Err(_) => None,
        },
        Err(_) => None,
    }
}

} // verus!
