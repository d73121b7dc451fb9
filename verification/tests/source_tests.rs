use rssify::error::{FeedError, RssifyErrorKind};
use rssify::source::save_xml_outcome;

#[test]
fn written_feed_is_saved() {
    assert!(save_xml_outcome(true, "/tmp/rss/lwn.xml").is_ok());
}

#[test]
fn unwritten_feed_names_its_path() {
    match save_xml_outcome(false, "/tmp/rss/lwn.xml") {
        Err(FeedError::RssifyError(e)) => {
            assert_eq!(e.kind(), RssifyErrorKind::SaveXMLError);
            assert_eq!(e.message, "Failed to safe XML feed to /tmp/rss/lwn.xml");
        }
        other => panic!("unexpected outcome {:?}", other),
    }
}
