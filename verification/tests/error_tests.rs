use rssify::error::{FeedError, RssifyError, RssifyErrorKind};

#[test]
fn rssify_error_keeps_kind_and_message() {
    let err = RssifyError::new(RssifyErrorKind::Unknown, "something odd");
    assert_eq!(err.kind(), RssifyErrorKind::Unknown);
    assert_eq!(err.message, "something odd");
}

#[test]
fn save_xml_error_names_the_path() {
    match FeedError::save_xml_error("/tmp/rss/kev.xml") {
        FeedError::RssifyError(e) => {
            assert_eq!(e.kind(), RssifyErrorKind::SaveXMLError);
            assert_eq!(e.message, "Failed to safe XML feed to /tmp/rss/kev.xml");
        }
        other => panic!("unexpected error {:?}", other),
    }
}

#[test]
fn invalid_kev_catalogue_error() {
    match FeedError::invalid_kev_catalogue() {
        FeedError::RssifyError(e) => {
            assert_eq!(e.kind(), RssifyErrorKind::InvalidKevCatalogue);
            assert_eq!(e.message, "[KEV] Invalid KEV catalogue: failed to parse the JSON entry");
        }
        other => panic!("unexpected error {:?}", other),
    }
}

#[test]
fn invalid_naive_date_error() {
    match FeedError::invalid_naive_date("Smarch 4, 2024") {
        FeedError::RssifyError(e) => {
            assert_eq!(e.kind(), RssifyErrorKind::InvalidNaiveDate);
            assert_eq!(e.message, "Failed to parse NaiveDate Smarch 4, 2024");
        }
        other => panic!("unexpected error {:?}", other),
    }
}

#[test]
fn error_new_makes_a_library_error() {
    match FeedError::new(RssifyErrorKind::Unknown, "odd") {
        FeedError::RssifyError(e) => {
            assert_eq!(e.kind(), RssifyErrorKind::Unknown);
            assert_eq!(e.message, "odd");
        }
        other => panic!("unexpected error {:?}", other),
    }
}

#[test]
fn writing_the_message_keeps_the_kind() {
    let mut e = RssifyError::new(RssifyErrorKind::InvalidKevCatalogue, "first");
    e.message = "second".to_string();
    e.message = "third".to_string();
    assert_eq!(e.kind(), RssifyErrorKind::InvalidKevCatalogue);
    assert_eq!(e.message, "third");
}
