use rssify::dates::{DateTimeFields, Instant, LocalInstants};
use rssify::error::{FeedError, RssifyErrorKind};
use rssify::feed::{FeedGuid, FeedItem};
use rssify::lwn::{LwnStoredRow, LWN};

const HEADLINES: &str = r#"<?xml version="1.0" encoding="utf-8"?>
<rss version="2.0"><channel><title>LWN.net</title><link>https://lwn.net</link><description>News</description>
<item><title>[$] A paid article</title><link>https://lwn.net/Articles/1/</link><description>one</description><pubDate>Thu, 12 Jun 2025 14:00:00 +0000</pubDate></item>
<item><title>A free article</title><link>https://lwn.net/Articles/2/</link><description>two</description></item>
<item><title>[$]Another paid one</title><link>https://lwn.net/Articles/3/</link></item>
<item><link>https://lwn.net/Articles/4/</link></item>
</channel></rss>"#;

fn item(title: Option<&str>) -> FeedItem {
    FeedItem {
        title: title.map(String::from),
        link: Some("https://lwn.net/Articles/1/".to_string()),
        description: Some("d".to_string()),
        guid: None,
        pub_date: Some("Thu, 12 Jun 2025 14:00:00 +0000".to_string()),
    }
}

#[test]
fn only_paid_articles_are_kept() {
    let paid = LWN::fetch_paid_article_urls(HEADLINES.as_bytes()).unwrap();
    let titles: Vec<_> = paid.iter().map(|i| i.title.clone().unwrap()).collect();
    assert_eq!(titles, vec!["[$] A paid article", "[$]Another paid one"]);
    assert_eq!(paid[0].link.as_deref(), Some("https://lwn.net/Articles/1/"));
    assert_eq!(paid[0].pub_date.as_deref(), Some("Thu, 12 Jun 2025 14:00:00 +0000"));
}

#[test]
fn a_feed_that_cannot_be_read_is_an_rss_error() {
    assert!(matches!(LWN::fetch_paid_article_urls(b"not a feed"), Err(FeedError::RssError(_))));
}

#[test]
fn paid_titles() {
    assert!(LWN::is_paid_title(&Some("[$] x".to_string())));
    assert!(LWN::is_paid_title(&Some("[$]".to_string())));
    assert!(!LWN::is_paid_title(&Some("[$".to_string())));
    assert!(!LWN::is_paid_title(&Some(" [$] x".to_string())));
    assert!(!LWN::is_paid_title(&None));
    let items = vec![item(Some("[$] a")), item(None), item(Some("b"))];
    assert_eq!(LWN::paid_articles(&items).len(), 1);
}

fn start_of(year: i32, month: u32, day: u32) -> DateTimeFields {
    DateTimeFields { year, month, day, hour: 0, minute: 0, second: 0, nanosecond: 0 }
}

#[test]
fn release_date_of_a_paragraph() {
    let p = "(Alternatively, this item will become freely\n available on June 12, 2025)";
    assert_eq!(LWN::release_date_in(p).unwrap(), Some(start_of(2025, 6, 12)));
    assert_eq!(LWN::release_date_in("nothing here").unwrap(), None);
}

#[test]
fn a_release_date_that_is_no_date_is_an_error() {
    let p = "(Alternatively, this item will become freely available on Smarch 12, 2025)";
    match LWN::release_date_in(p) {
        Err(FeedError::RssifyError(e)) => {
            assert_eq!(e.kind(), RssifyErrorKind::InvalidNaiveDate);
            assert_eq!(e.message, "Failed to parse NaiveDate Smarch 12, 2025");
        }
        other => panic!("unexpected outcome {:?}", other),
    }
}

#[test]
fn release_date_of_a_page() {
    let page = "<html><body><div class=\"ArticleText\"><p>Text.</p>\
                <p>(Alternatively, this item will become freely available on July 3, 2025)</p></div>\
                <div class=\"ArticleText\"><p>(Alternatively, this item will become freely available on July 9, 2025)</p></div>\
                </body></html>";
    assert_eq!(LWN::fetch_release_date(page).unwrap(), Some(start_of(2025, 7, 3)));
}

#[test]
fn only_the_last_paragraph_counts() {
    let page = "<div class=\"ArticleText\"><p>(Alternatively, this item will become freely available on July 3, 2025)</p>\
                <p>Later text.</p></div>";
    assert_eq!(LWN::fetch_release_date(page).unwrap(), None);
    assert_eq!(LWN::fetch_release_date("<p>no article</p>").unwrap(), None);
}

#[test]
fn the_row_of_a_paid_article() {
    let row = LWN::article_row(&item(Some("[$] a")), &start_of(2025, 6, 12)).unwrap();
    assert_eq!(row.link, "https://lwn.net/Articles/1/");
    assert_eq!(row.title, "[$] a");
    assert_eq!(row.description, "d");
    assert_eq!(row.release_date, "2025-06-12 00:00:00");
    assert!(LWN::article_row(&item(None), &start_of(2025, 6, 12)).is_none());
}

fn stored(title: &str, release_date: &str) -> LwnStoredRow {
    LwnStoredRow {
        title: Some(title.to_string()),
        description: Some("d".to_string()),
        release_date: release_date.to_string(),
    }
}

fn now() -> Instant {
    rssify::dates::local_now()
}

#[test]
fn released_articles_are_published() {
    assert!(LWN::is_released(&stored("a", "2000-01-01 00:00:00"), now()));
    assert!(!LWN::is_released(&stored("b", "2999-01-01 00:00:00"), now()));
    assert!(!LWN::is_released(&stored("c", "January 1, 2000"), now()));
    let rows = vec![stored("old", "2000-01-01 00:00:00"), stored("new", "2999-01-01 00:00:00")];
    let items = LWN::published_items(&rows, now()).unwrap();
    assert_eq!(items.len(), 1);
    assert_eq!(items[0].title.as_deref(), Some("old"));
    assert_eq!(items[0].link.as_deref(), Some("old"));
    assert_eq!(items[0].guid.as_ref().map(|g| (g.value.as_str(), g.permalink)), Some(("old", true)));
    assert!(items[0].pub_date.is_some());
}

#[test]
fn the_published_xml_holds_the_released_articles() {
    let xml = LWN::publish_xml(&vec![stored("old", "2000-01-01 00:00:00"), stored("new", "2999-01-01 00:00:00")]).unwrap();
    assert!(xml.contains("<title>[$] lwn.net</title>"));
    assert!(xml.contains("<title>old</title>"));
    assert!(!xml.contains("<title>new</title>"));
}

#[test]
fn the_feed_of_items() {
    let channel = LWN::feed(vec![FeedItem { guid: Some(FeedGuid { value: "g".to_string(), permalink: true }), ..item(Some("x")) }]);
    assert_eq!(channel.title, "[$] lwn.net");
    assert_eq!(channel.link, "https://dawl.fr/lwn.net/rss.xml");
    assert_eq!(channel.items.len(), 1);
}

#[test]
fn a_release_time_must_be_one_instant_that_has_passed() {
    let now = Instant { seconds: 100, nanos: 0 };
    assert!(LWN::is_released_at(&LocalInstants::Single(Instant { seconds: 99, nanos: 0 }), now));
    assert!(!LWN::is_released_at(&LocalInstants::Single(Instant { seconds: 100, nanos: 0 }), now));
    assert!(!LWN::is_released_at(&LocalInstants::Missing, now));
    let a = Instant { seconds: 1, nanos: 0 };
    assert!(!LWN::is_released_at(&LocalInstants::Ambiguous(a, a), now));
}

#[test]
fn a_stored_release_date_reads_back() {
    let row = LWN::article_row(&item(Some("[$] a")), &start_of(2025, 6, 12)).unwrap();
    assert_eq!(rssify::dates::parse_date_time(&row.release_date, rssify::lwn::STORED_DATE_FORMAT).is_some(), true);
}

#[test]
fn release_date_of_the_page_in_the_examples() {
    let page = r#"<div class="ArticleText"><p>Intro</p><p>(Alternatively, this item will become freely available on March 5, 2024)</p></div>"#;
    assert_eq!(LWN::fetch_release_date(page).unwrap(), Some(start_of(2024, 3, 5)));
    let page = r#"<div class="ArticleText"><p>(Alternatively, this item will become freely available on February 30, 2024)</p></div>"#;
    match LWN::fetch_release_date(page) {
        Err(FeedError::RssifyError(e)) => {
            assert_eq!(e.kind(), RssifyErrorKind::InvalidNaiveDate);
            assert_eq!(e.message, "Failed to parse NaiveDate February 30, 2024");
        }
        other => panic!("unexpected outcome {:?}", other),
    }
    let page = r#"<div class="ArticleText"><p>(Alternatively, this item will become freely available on March 5, 2024)</p><p>Comments (none posted)</p></div>"#;
    assert_eq!(LWN::fetch_release_date(page).unwrap(), None);
}

#[test]
fn the_paragraphs_scraper_finds() {
    let page = "<div class=\"ArticleText\"><p>a</p><div><p>b <b>c</b></p></div></div><div class=\"ArticleText\"><p>d</p></div>";
    assert_eq!(
        rssify::html::select_inner_html(page, "div.ArticleText", "p"),
        Some(vec![vec!["a".to_string(), "b <b>c</b>".to_string()], vec!["d".to_string()]])
    );
    assert_eq!(rssify::html::select_inner_html(page, "div.Missing", "p"), Some(vec![]));
    assert_eq!(rssify::html::select_inner_html(page, "div[", "p"), None);
    assert_eq!(rssify::html::select_inner_html(page, "div.ArticleText", "p["), None);
}

#[test]
fn the_release_paragraph_is_the_last_of_the_first_article_block() {
    let page = "<div class=\"ArticleText\"><p>a</p><div><p>b <b>c</b></p></div></div><div class=\"ArticleText\"><p>d</p></div>";
    assert_eq!(LWN::article_paragraph(page), Some("b <b>c</b>".to_string()));
    let page = "<div class=\"ArticleText\"></div><div class=\"ArticleText\"><p>d</p></div>";
    assert_eq!(LWN::article_paragraph(page), None);
    assert_eq!(LWN::article_paragraph("<p>outside</p>"), None);
}

#[test]
fn publication_given_the_verdicts() {
    let rows = vec![stored("a", "x"), stored("b", "y"), stored("c", "z")];
    let items = LWN::published_items_given(
        &rows,
        &vec![true, false, true],
        &vec!["s1".to_string(), "s2".to_string(), "s3".to_string()],
    );
    let got: Vec<_> = items.iter().map(|i| (i.title.clone().unwrap(), i.pub_date.clone().unwrap())).collect();
    assert_eq!(got, vec![("a".to_string(), "s1".to_string()), ("c".to_string(), "s3".to_string())]);
    assert!(LWN::published_items_given(&rows, &vec![false; 3], &vec![String::new(); 3]).is_empty());
}

#[test]
fn a_fetched_article_is_published_once_released() {
    let row = LWN::article_row(&item(Some("[$] a")), &start_of(2001, 2, 3)).unwrap();
    assert_eq!(
        rssify::dates::parse_date_time(&row.release_date, rssify::lwn::STORED_DATE_FORMAT),
        Some(start_of(2001, 2, 3))
    );
    let rows = vec![stored(&row.title, &row.release_date)];
    let items = LWN::published_items(&rows, now()).unwrap();
    assert_eq!(items.len(), 1);
    assert_eq!(items[0].title.as_deref(), Some("[$] a"));
}

#[test]
fn the_release_paragraph_among_found_blocks() {
    let s = |t: &str| t.to_string();
    let blocks = vec![vec![s("a"), s("b <b>c</b>")], vec![s("d")]];
    assert_eq!(LWN::release_paragraph_among(&blocks), Some(s("b <b>c</b>")));
    assert_eq!(LWN::release_paragraph_among(&vec![vec![], vec![s("d")]]), None);
    assert_eq!(LWN::release_paragraph_among(&vec![]), None);
    assert_eq!(LWN::release_paragraph_among(&vec![vec![s("only")]]), Some(s("only")));
}

#[test]
fn the_release_is_judged_against_the_given_instant() {
    // 2000-01-02 00:00:00 read as UTC is 946 771 200 seconds after the epoch; in any
    // time zone its instant lies less than a day from that.
    let row = stored("a", "2000-01-02 00:00:00");
    assert!(!LWN::is_released(&row, Instant { seconds: 946_771_200 - 86_400, nanos: 0 }));
    assert!(!LWN::is_released(&row, Instant { seconds: 0, nanos: 0 }));
    assert!(LWN::is_released(&row, Instant { seconds: 946_771_200 + 86_400, nanos: 0 }));
    let rows = vec![row];
    assert!(LWN::published_items(&rows, Instant { seconds: 946_771_200 - 86_400, nanos: 0 }).unwrap().is_empty());
    assert_eq!(LWN::published_items(&rows, Instant { seconds: 946_771_200 + 86_400, nanos: 0 }).unwrap().len(), 1);
}

#[test]
fn a_released_article_without_title_or_description_is_refused() {
    let released = LwnStoredRow { title: None, description: Some("d".to_string()), release_date: "2000-01-01 00:00:00".to_string() };
    let later = LwnStoredRow { title: None, description: None, release_date: "2999-01-01 00:00:00".to_string() };
    assert!(LWN::published_items(&vec![stored("a", "2000-01-01 00:00:00"), released], now()).is_none());
    assert_eq!(LWN::published_items(&vec![stored("a", "2000-01-01 00:00:00"), later], now()).unwrap().len(), 1);
    let no_description =
        LwnStoredRow { title: Some("t".to_string()), description: None, release_date: "2000-01-01 00:00:00".to_string() };
    assert!(LWN::publish_xml(&vec![no_description]).is_none());
}
