//! Saving a feed.
use vstd::prelude::*;
use crate::error::{is_rssify_error, save_xml_error_message, FeedError, RssifyErrorKind, RssifyResult};

verus! {

/// What saving the feed to `path` ends in, once the file has been `written` or not:
/// success, or the error that names the path.
pub fn save_xml_outcome(written: bool, path: &str) -> (outcome: RssifyResult<()>)
    ensures
        written ==> outcome matches Ok(()),
        !written ==> (outcome matches Err(e) && is_rssify_error(e, RssifyErrorKind::SaveXMLError, save_xml_error_message(path@))),
{
    if written {
        Ok(())
    } else {
        Err(FeedError::save_xml_error(path))
    }
}

} // verus!
