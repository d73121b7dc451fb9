//! Errors of the library.
use vstd::prelude::*;

verus! {

/// What went wrong, for the errors that the library raises itself.
#[derive(Debug, Copy, Clone, Eq, PartialEq, Structural)]
pub enum RssifyErrorKind {
    InvalidKevCatalogue,
    SaveXMLError,
    InvalidNaiveDate,
    Unknown,
}

/// An error raised by the library itself.
#[derive(Debug)]
pub struct RssifyError {
    /// Kind of error
    pub(crate) kind: RssifyErrorKind,
    /// Associated message of the context
    pub message: String,
}

impl RssifyError {
    /// The kind that the error was made with.
    pub open(crate) spec fn spec_kind(&self) -> RssifyErrorKind {
        self.kind
    }

    /// The message that the error holds.
    pub open(crate) spec fn spec_message(&self) -> Seq<char> {
        self.message@
    }

    /// The error that `self` becomes once each of `messages` is written to its `message`
    /// field, in turn.
    pub open(crate) spec fn with_messages(self, messages: Seq<String>) -> RssifyError
        decreases messages.len(),
    {
        if messages.len() == 0 {
            self
        } else {
            RssifyError { message: messages.last(), ..self.with_messages(messages.drop_last()) }
        }
    }

    /// Writing the message of an error keeps its kind: after any number of writes to its
    /// `message` field, the error has the kind it was made with, and the message written
    /// last.
    pub proof fn lemma_message_writes_keep_kind(self, messages: Seq<String>)
        ensures
            self.with_messages(messages).spec_kind() == self.spec_kind(),
            messages.len() > 0 ==> self.with_messages(messages).spec_message() == messages.last()@,
        decreases messages.len(),
    {
        if messages.len() > 0 {
            self.lemma_message_writes_keep_kind(messages.drop_last());
        }
    }

    pub fn new(kind: RssifyErrorKind, message: &str) -> (err: Self)
        ensures
            err.spec_kind() == kind,
            err.spec_message() == message@,
    {
        RssifyError { kind, message: message.to_owned() }
    }

    pub fn kind(&self) -> (kind: RssifyErrorKind)
        ensures
            kind == self.spec_kind(),
    {
        self.kind
    }
}

/// Every error that the work of the library can end in.
#[derive(Debug)]
pub enum FeedError {
    /// Rssify error
    RssifyError(RssifyError),
    Utf8Error(std::str::Utf8Error),
    ReqwestError(reqwest::Error),
    RssError(rss::Error),
}

/// The result of the work of the library.
pub type RssifyResult<T> = Result<T, FeedError>;

/// The message of the error raised when the KEV catalogue cannot be read.
pub open spec fn invalid_kev_catalogue_message() -> Seq<char> {
    "[KEV] Invalid KEV catalogue: failed to parse the JSON entry"@
}

/// The message of the error raised when a feed cannot be saved to `path`.
pub open spec fn save_xml_error_message(path: Seq<char>) -> Seq<char> {
    "Failed to safe XML feed to "@ + path
}

/// The message of the error raised when `date` is no date.
pub open spec fn invalid_naive_date_message(date: Seq<char>) -> Seq<char> {
    "Failed to parse NaiveDate "@ + date
}

/// `err` is an error raised by the library, of kind `kind` and with the message `message`.
pub open spec fn is_rssify_error(err: FeedError, kind: RssifyErrorKind, message: Seq<char>) -> bool {
    &&& err is RssifyError
    &&& err->RssifyError_0.spec_kind() == kind
    &&& err->RssifyError_0.spec_message() == message
}

impl FeedError {
    pub fn new(kind: RssifyErrorKind, message: &str) -> (err: Self)
        ensures
            is_rssify_error(err, kind, message@),
    {
        FeedError::RssifyError(RssifyError::new(kind, message))
    }

    pub fn invalid_kev_catalogue() -> (err: Self)
        ensures
            is_rssify_error(err, RssifyErrorKind::InvalidKevCatalogue, invalid_kev_catalogue_message()),
    {
        let message = "[KEV] Invalid KEV catalogue: failed to parse the JSON entry";
        proof {
            reveal_strlit("[KEV] Invalid KEV catalogue: failed to parse the JSON entry");
        }
        FeedError::RssifyError(RssifyError::new(RssifyErrorKind::InvalidKevCatalogue, message))
    }

    pub fn save_xml_error(path: &str) -> (err: Self)
        ensures
            is_rssify_error(err, RssifyErrorKind::SaveXMLError, save_xml_error_message(path@)),
    {
        let message = String::from_str("Failed to safe XML feed to ").concat(path);
        FeedError::RssifyError(RssifyError::new(RssifyErrorKind::SaveXMLError, message.as_str()))
    }

    pub fn invalid_naive_date(date: &str) -> (err: Self)
        ensures
            is_rssify_error(err, RssifyErrorKind::InvalidNaiveDate, invalid_naive_date_message(date@)),
    {
        let message = String::from_str("Failed to parse NaiveDate ").concat(date);
        FeedError::RssifyError(RssifyError::new(RssifyErrorKind::InvalidNaiveDate, message.as_str()))
    }
}

impl From<reqwest::Error> for FeedError {
    fn from(e: reqwest::Error) -> (err: Self) {
        Self::ReqwestError(e)
    }
}

impl vstd::std_specs::convert::FromSpecImpl<reqwest::Error> for FeedError {
    open spec fn obeys_from_spec() -> bool {
        true
    }

    open spec fn from_spec(e: reqwest::Error) -> Self {
        FeedError::ReqwestError(e)
    }
}

impl From<rss::Error> for FeedError {
    fn from(e: rss::Error) -> (err: Self) {
        Self::RssError(e)
    }
}

impl vstd::std_specs::convert::FromSpecImpl<rss::Error> for FeedError {
    open spec fn obeys_from_spec() -> bool {
        true
    }

    open spec fn from_spec(e: rss::Error) -> Self {
        FeedError::RssError(e)
    }
}

} // verus!
