//! Outside error types that the library carries.
use vstd::prelude::*;

verus! {

/// `std::str::Utf8Error`, carried by [`FeedError::Utf8Error`].
#[verifier::external_type_specification]
#[verifier::external_body]
pub struct ExUtf8Error(std::str::Utf8Error);

/// `reqwest::Error`, carried by [`FeedError::ReqwestError`].
#[verifier::external_type_specification]
#[verifier::external_body]
pub struct ExReqwestError(reqwest::Error);

/// `rss::Error`, carried by [`FeedError::RssError`].
#[verifier::external_type_specification]
#[verifier::external_body]
pub struct ExRssError(rss::Error);

/// `chrono::format::ParseError`, what chrono ends in where it cannot read a date.
#[verifier::external_type_specification]
#[verifier::external_body]
pub struct ExChronoParseError(chrono::format::ParseError);

} // verus!
