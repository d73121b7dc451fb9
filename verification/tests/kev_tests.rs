use rssify::error::{FeedError, RssifyErrorKind};
use rssify::json_doc::{parse_json, JsonDoc};
use rssify::kev::{KevStoredRow, KEV, URL};

const CATALOGUE: &str = r#"{
  "title": "CISA Catalog of Known Exploited Vulnerabilities",
  "vulnerabilities": [
    {"cveID": "CVE-2025-0003", "vulnerabilityName": "Third", "dateAdded": "2025-03-01",
     "shortDescription": "c", "requiredAction": "patch", "notes": "n3"},
    {"cveID": "CVE-2025-0002", "vulnerabilityName": "Second", "dateAdded": "2025-02-01",
     "shortDescription": "b", "requiredAction": "patch", "notes": 7},
    {"cveID": "CVE-2025-0001", "vulnerabilityName": "First", "dateAdded": "2025-01-01",
     "shortDescription": "a", "requiredAction": "patch", "notes": ""}
  ]
}"#;

fn catalogue() -> JsonDoc {
    parse_json(CATALOGUE).expect("the catalogue is JSON")
}

#[test]
fn entries_before_the_last_known_one_are_new() {
    let rows = KEV::insert_rows(&catalogue(), "CVE-2025-0001");
    let ids: Vec<_> = rows.iter().map(|r| r.cve_id.clone()).collect();
    assert_eq!(ids, vec![Some("CVE-2025-0003".to_string()), Some("CVE-2025-0002".to_string())]);
}

#[test]
fn every_entry_is_new_when_nothing_is_stored() {
    assert_eq!(KEV::insert_rows(&catalogue(), "").len(), 3);
}

#[test]
fn nothing_is_new_when_the_newest_entry_is_stored() {
    assert!(KEV::insert_rows(&catalogue(), "CVE-2025-0003").is_empty());
}

#[test]
fn the_row_of_an_entry() {
    let rows = KEV::insert_rows(&catalogue(), "CVE-2025-0001");
    assert_eq!(rows[0].title, "CVE-2025-0003 - Third");
    assert_eq!(rows[0].date_added.as_deref(), Some("2025-03-01"));
    assert_eq!(rows[0].description, "Description: c\nRequired actions: patch\nNotes: n3");
    assert_eq!(rows[1].description, "Description: b\nRequired actions: patch\nNotes: 7");
}

#[test]
fn missing_fields_show_as_null() {
    let doc = parse_json(r#"{"vulnerabilities": [{"vulnerabilityName": "x"}]}"#).unwrap();
    let rows = KEV::insert_rows(&doc, "CVE-1");
    assert_eq!(rows.len(), 1);
    assert_eq!(rows[0].cve_id, None);
    assert_eq!(rows[0].title, "null - x");
    assert_eq!(rows[0].description, "Description: null\nRequired actions: null\nNotes: null");
}

#[test]
fn a_catalogue_without_vulnerabilities_has_no_new_entries() {
    let doc = parse_json(r#"{"count": 3}"#).unwrap();
    assert!(KEV::insert_rows(&doc, "").is_empty());
}

#[test]
fn text_that_is_no_json_is_refused() {
    assert!(parse_json("{not json").is_none());
    assert!(parse_json("[1, 2]").is_some());
}

#[test]
fn json_values_show_as_the_json_crate_writes_them() {
    let doc = parse_json(r#"{"a": [1, true, null, "s"], "b": {"c": 2.5}}"#).unwrap();
    assert_eq!(doc.field("a").unwrap().shown(), r#"[1,true,null,"s"]"#);
    assert_eq!(doc.field("b").unwrap().shown(), r#"{"c":2.5}"#);
    let members = doc.field("a").unwrap().members();
    assert_eq!(members.len(), 4);
    assert_eq!(members[0].shown(), "1");
    assert_eq!(members[1].shown(), "true");
    assert_eq!(members[2].shown(), "null");
    assert_eq!(members[3].as_str(), Some("s"));
    assert!(doc.field("z").is_none());
}

fn stored(id: &str) -> KevStoredRow {
    KevStoredRow {
        cve_id: id.to_string(),
        title: format!("{id} - Name"),
        date_added: "2025-01-01".to_string(),
        description: "Description: d".to_string(),
    }
}

#[test]
fn one_item_per_stored_row() {
    let rows = vec![stored("CVE-1"), stored("CVE-2")];
    let channel = KEV::feed(&rows);
    assert_eq!(channel.title, "CISA KEV");
    assert_eq!(channel.link, URL);
    assert_eq!(channel.description, "CISA Catalog of Known Exploited Vulnerabilities");
    assert_eq!(channel.items.len(), 2);
    let item = &channel.items[1];
    assert_eq!(item.title.as_deref(), Some("CVE-2 - Name"));
    assert_eq!(item.link.as_deref(), Some(URL));
    assert_eq!(item.guid.as_ref().map(|g| (g.value.as_str(), g.permalink)), Some(("CVE-2", true)));
    assert_eq!(item.pub_date.as_deref(), Some("2025-01-01"));
    assert_eq!(item.description.as_deref(), Some("Description: d"));
}

#[test]
fn the_published_xml_holds_the_items() {
    let xml = KEV::publish_xml(&vec![stored("CVE-7")]);
    assert!(xml.contains("<rss"));
    assert!(xml.contains("<title>CISA KEV</title>"));
    assert!(xml.contains("<guid>CVE-7</guid>"));
    assert!(xml.contains("<title>CVE-7 - Name</title>"));
    assert!(xml.contains("<pubDate>2025-01-01</pubDate>"));
}

#[test]
fn a_new_entry_is_published_under_its_cve_id() {
    let rows = KEV::insert_rows(&catalogue(), "CVE-2025-0002");
    assert_eq!(rows.len(), 1);
    let row = &rows[0];
    let stored = KevStoredRow {
        cve_id: row.cve_id.clone().unwrap(),
        title: row.title.clone(),
        date_added: row.date_added.clone().unwrap(),
        description: row.description.clone(),
    };
    let item = KEV::feed_item(&stored);
    assert_eq!(item.guid.map(|g| g.value), Some("CVE-2025-0003".to_string()));
    assert!(item.title.unwrap().starts_with("CVE-2025-0003"));
    assert_eq!(item.pub_date.as_deref(), Some("2025-03-01"));
    assert_eq!(item.link.as_deref(), Some(URL));
}

#[test]
fn the_newest_stored_entry() {
    assert_eq!(KEV::last_stored_entry(None).unwrap(), (String::new(), String::new()));
    assert_eq!(
        KEV::last_stored_entry(Some((Some("CVE-1".to_string()), Some("2025-01-01".to_string())))).unwrap(),
        ("CVE-1".to_string(), "2025-01-01".to_string())
    );
    match KEV::last_stored_entry(Some((Some("CVE-1".to_string()), None))) {
        Err(FeedError::RssifyError(e)) => assert_eq!(e.kind(), RssifyErrorKind::InvalidKevCatalogue),
        other => panic!("unexpected {:?}", other),
    }
}
