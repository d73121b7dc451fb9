//! The CISA catalogue of known exploited vulnerabilities (KEV): which of its
//! entries are new, the rows stored for them, and the feed published from
//! the stored rows.
use vstd::prelude::*;
use crate::feed::{channel_xml, item_views, rss_channel_xml, FeedChannel, FeedChannelView, FeedGuid, FeedItem, FeedItemView};
use crate::error::{invalid_kev_catalogue_message, is_rssify_error, FeedError, RssifyErrorKind, RssifyResult};
use crate::json_doc::{json_field, json_members, json_shown, json_text, JsonDoc};

verus! {

/// Where the catalogue is published.
pub const URL: &'static str = "https://www.cisa.gov/sites/default/files/feeds/known_exploited_vulnerabilities.json";

/// The file that the feed is saved to.
pub const FEED_FILE: &'static str = "kev.xml";

/// The source of the KEV feed.
pub struct KEV;

/// The row stored for a new catalogue entry.
#[derive(Debug)]
pub struct KevRow {
    pub cve_id: Option<String>,
    pub title: String,
    pub date_added: Option<String>,
    pub description: String,
}

/// What a [`KevRow`] holds.
pub struct KevRowView {
    pub cve_id: Option<Seq<char>>,
    pub title: Seq<char>,
    pub date_added: Option<Seq<char>>,
    pub description: Seq<char>,
}

impl View for KevRow {
    type V = KevRowView;

    open spec fn view(&self) -> KevRowView {
        KevRowView {
            cve_id: crate::feed::opt_text(self.cve_id),
            title: self.title@,
            date_added: crate::feed::opt_text(self.date_added),
            description: self.description@,
        }
    }
}

/// A row as the feed is published from it.
#[derive(Debug)]
pub struct KevStoredRow {
    pub cve_id: String,
    pub title: String,
    pub date_added: String,
    pub description: String,
}

/// What a [`KevStoredRow`] holds.
pub struct KevStoredRowView {
    pub cve_id: Seq<char>,
    pub title: Seq<char>,
    pub date_added: Seq<char>,
    pub description: Seq<char>,
}

impl View for KevStoredRow {
    type V = KevStoredRowView;

    open spec fn view(&self) -> KevStoredRowView {
        KevStoredRowView {
            cve_id: self.cve_id@,
            title: self.title@,
            date_added: self.date_added@,
            description: self.description@,
        }
    }
}

/// The entries of the catalogue.
pub open spec fn catalogue_entries(catalogue: JsonDoc) -> Seq<JsonDoc> {
    json_members(json_field(catalogue, "vulnerabilities"@))
}

/// `entry` is not the entry whose CVE id is `last_cve_id`.
pub open spec fn is_new_entry(entry: JsonDoc, last_cve_id: Seq<char>) -> bool {
    json_text(json_field(entry, "cveID"@)) != Some(last_cve_id)
}

/// Where the run of new entries of `entries` that starts at `i` ends.
pub open spec fn new_run_end(entries: Seq<JsonDoc>, last_cve_id: Seq<char>, i: int) -> int
    decreases entries.len() - i,
{
    if 0 <= i < entries.len() && is_new_entry(entries[i], last_cve_id) {
        new_run_end(entries, last_cve_id, i + 1)
    } else {
        i
    }
}

/// The new entries of the catalogue: those before the first entry whose CVE id is
/// `last_cve_id`, all of them when there is none.
pub open spec fn new_entries(catalogue: JsonDoc, last_cve_id: Seq<char>) -> Seq<JsonDoc> {
    let entries = catalogue_entries(catalogue);
    entries.take(new_run_end(entries, last_cve_id, 0))
}

/// The row stored for the catalogue entry `entry`.
pub open spec fn kev_row(entry: JsonDoc) -> KevRowView {
    KevRowView {
        cve_id: json_text(json_field(entry, "cveID"@)),
        title: json_shown(json_field(entry, "cveID"@)) + " - "@ + json_shown(json_field(entry, "vulnerabilityName"@)),
        date_added: json_text(json_field(entry, "dateAdded"@)),
        description: "Description: "@ + json_shown(json_field(entry, "shortDescription"@))
            + "\nRequired actions: "@ + json_shown(json_field(entry, "requiredAction"@))
            + "\nNotes: "@ + json_shown(json_field(entry, "notes"@)),
    }
}

/// The rows stored for the new entries of the catalogue.
pub open spec fn kev_rows(catalogue: JsonDoc, last_cve_id: Seq<char>) -> Seq<KevRowView> {
    new_entries(catalogue, last_cve_id).map_values(|entry: JsonDoc| kev_row(entry))
}

/// The feed item published for a stored row.
pub open spec fn kev_item(row: KevStoredRowView) -> FeedItemView {
    FeedItemView {
        title: Some(row.title),
        link: Some(URL@),
        description: Some(row.description),
        guid: Some((row.cve_id, true)),
        pub_date: Some(row.date_added),
    }
}

/// The channel published for the stored rows.
pub open spec fn kev_channel(rows: Seq<KevStoredRowView>) -> FeedChannelView {
    FeedChannelView {
        title: "CISA KEV"@,
        link: URL@,
        description: "CISA Catalog of Known Exploited Vulnerabilities"@,
        items: rows.map_values(|row: KevStoredRowView| kev_item(row)),
    }
}

/// What each of `rows` holds.
pub open spec fn stored_views(rows: Seq<KevStoredRow>) -> Seq<KevStoredRowView> {
    rows.map_values(|row: KevStoredRow| row@)
}

/// The new entries are the longest run of entries at the head of the catalogue none of
/// which has the CVE id `last_cve_id`: the entry after them, if there is one, has it.
pub proof fn lemma_new_entries(catalogue: JsonDoc, last_cve_id: Seq<char>)
    ensures
        ({
            let entries = catalogue_entries(catalogue);
            let n = new_entries(catalogue, last_cve_id).len();
            &&& n <= entries.len()
            &&& new_entries(catalogue, last_cve_id) == entries.take(n as int)
            &&& forall|i: int| 0 <= i < n ==> is_new_entry(#[trigger] entries[i], last_cve_id)
            &&& n < entries.len() ==> !is_new_entry(entries[n as int], last_cve_id)
        }),
{
    let entries = catalogue_entries(catalogue);
    lemma_new_run(entries, last_cve_id, 0);
}

/// The CVE id text of the catalogue entry `entry`, where it has one.
pub open spec fn cve_id_text(entry: JsonDoc) -> Option<Seq<char>> {
    json_text(json_field(entry, "cveID"@))
}

/// An entry is new exactly when its CVE id is not the text `last_cve_id`: one whose id is
/// another text (whichever way it sorts) or no text at all is new, and the one with that
/// id is not.
pub proof fn lemma_new_entry_by_id(entry: JsonDoc, last_cve_id: Seq<char>)
    ensures
        is_new_entry(entry, last_cve_id) <==> cve_id_text(entry) != Some(last_cve_id),
        cve_id_text(entry) matches Some(id) && id != last_cve_id ==> is_new_entry(entry, last_cve_id),
        cve_id_text(entry) is None ==> is_new_entry(entry, last_cve_id),
{
}

/// The new entries of the catalogue are exactly the entries before the first one whose CVE
/// id is the text `last_cve_id`, all of them when none has it: each of them has another id
/// (or none), and the entry after them has that id.
pub proof fn lemma_new_entries_stop_at_the_stored_id(catalogue: JsonDoc, last_cve_id: Seq<char>)
    ensures
        ({
            let entries = catalogue_entries(catalogue);
            let n = new_entries(catalogue, last_cve_id).len();
            &&& n <= entries.len()
            &&& new_entries(catalogue, last_cve_id) == entries.take(n as int)
            &&& forall|i: int| 0 <= i < n ==> #[trigger] cve_id_text(entries[i]) != Some(last_cve_id)
            &&& n < entries.len() ==> cve_id_text(entries[n as int]) == Some(last_cve_id)
        }),
{
    lemma_new_entries(catalogue, last_cve_id);
    let entries = catalogue_entries(catalogue);
    assert forall|i: int| 0 <= i < new_entries(catalogue, last_cve_id).len() implies #[trigger] cve_id_text(entries[i]) != Some(
        last_cve_id,
    ) by {
        assert(is_new_entry(entries[i], last_cve_id));
    }
}

/// The item published for a stored row carries the row unchanged: its title, its
/// description, its CVE id as a permalink GUID and its date added as publication date,
/// with the catalogue as link.
pub proof fn lemma_kev_item_carries_row(row: KevStoredRowView)
    ensures
        kev_item(row).title == Some(row.title),
        kev_item(row).description == Some(row.description),
        kev_item(row).guid == Some((row.cve_id, true)),
        kev_item(row).pub_date == Some(row.date_added),
        kev_item(row).link == Some(URL@),
{
}

/// The channel published for stored rows has one item per row, in their order, each
/// carrying its row's title, description, CVE id and date added unchanged.
pub proof fn lemma_kev_channel_items(rows: Seq<KevStoredRowView>)
    ensures
        kev_channel(rows).items.len() == rows.len(),
        forall|i: int| 0 <= i < rows.len() ==> {
            &&& (#[trigger] kev_channel(rows).items[i]).title == Some(rows[i].title)
            &&& kev_channel(rows).items[i].description == Some(rows[i].description)
            &&& kev_channel(rows).items[i].guid == Some((rows[i].cve_id, true))
            &&& kev_channel(rows).items[i].pub_date == Some(rows[i].date_added)
        },
{
}

proof fn lemma_new_run(entries: Seq<JsonDoc>, last_cve_id: Seq<char>, i: int)
    requires
        0 <= i <= entries.len(),
    ensures
        i <= new_run_end(entries, last_cve_id, i) <= entries.len(),
        forall|j: int| i <= j < new_run_end(entries, last_cve_id, i) ==> is_new_entry(#[trigger] entries[j], last_cve_id),
        new_run_end(entries, last_cve_id, i) < entries.len() ==> !is_new_entry(entries[new_run_end(entries, last_cve_id, i)], last_cve_id),
    decreases entries.len() - i,
{
    if i < entries.len() && is_new_entry(entries[i], last_cve_id) {
        lemma_new_run(entries, last_cve_id, i + 1);
    }
}

/// The text of `entry[key]`, when it is a string.
fn field_text(entry: &JsonDoc, key: &str) -> (text: Option<String>)
    ensures
        crate::feed::opt_text(text) == json_text(json_field(*entry, key@)),
{
    match entry.field(key) {
        Some(value) => match value.as_str() {
            Some(t) => Some(t.to_owned()),
            None => None,
        },
        None => None,
    }
}

/// What `Display` writes of `entry[key]`.
fn field_shown(entry: &JsonDoc, key: &str) -> (text: String)
    ensures
        text@ == json_shown(json_field(*entry, key@)),
{
    match entry.field(key) {
        Some(value) => value.shown(),
        None => {
            proof {
                reveal_strlit("null");
            }
            String::from_str("null")
        },
    }
}

/// The row that the feed is published from once `row` has been stored: its columns as
/// stored; none where the CVE id or the date is missing, which the feed cannot be
/// published from.
pub open spec fn stored_form(row: KevRowView) -> Option<KevStoredRowView> {
    match (row.cve_id, row.date_added) {
        (Some(cve_id), Some(date_added)) => Some(
            KevStoredRowView { cve_id, title: row.title, date_added, description: row.description },
        ),
        _ => None,
    }
}

/// A new catalogue entry with a CVE id and a date, once stored, is published as an item
/// whose GUID is its CVE id, whose title starts with that id, whose publication date is
/// the date it was added, and whose link is the catalogue.
pub proof fn lemma_entry_published(entry: JsonDoc)
    requires
        json_text(json_field(entry, "cveID"@)) is Some,
        json_text(json_field(entry, "dateAdded"@)) is Some,
    ensures
        ({
            let id = json_text(json_field(entry, "cveID"@))->Some_0;
            let item = kev_item(stored_form(kev_row(entry))->Some_0);
            &&& stored_form(kev_row(entry)) is Some
            &&& item.guid == Some((id, true))
            &&& item.title matches Some(t) && t.take(id.len() as int) == id
            &&& item.pub_date == json_text(json_field(entry, "dateAdded"@))
            &&& item.link == Some(URL@)
        }),
{
    let id = json_text(json_field(entry, "cveID"@))->Some_0;
    assert(json_shown(json_field(entry, "cveID"@)) == id);
    let title = kev_row(entry).title;
    assert(title.take(id.len() as int) =~= id);
}

impl KEV {
    /// The CVE id and date of the newest stored entry, from the first row of the query for
    /// it, each column read as text (`None` where it cannot be): empty texts when there is no
    /// row, an invalid catalogue error when a column cannot be read.
    pub fn last_stored_entry(first_row: Option<(Option<String>, Option<String>)>) -> (last: RssifyResult<(String, String)>)
        ensures
            match first_row {
                None => last matches Ok((id, date)) && id@.len() == 0 && date@.len() == 0,
                Some((Some(id), Some(date))) => last matches Ok((i, d)) && i@ == id@ && d@ == date@,
                Some(_) => last matches Err(e) && is_rssify_error(
                    e,
                    RssifyErrorKind::InvalidKevCatalogue,
                    invalid_kev_catalogue_message(),
                ),
            },
    {
        match first_row {
            None => Ok((String::new(), String::new())),
            Some((Some(id), Some(date))) => Ok((id, date)),
            Some(_) => Err(FeedError::invalid_kev_catalogue()),
        }
    }

    /// Whether `entry` is not the one whose CVE id is `last_cve_id`.
    pub fn is_new_entry(entry: &JsonDoc, last_cve_id: &str) -> (new: bool)
        ensures
            new == is_new_entry(*entry, last_cve_id@),
            new == (json_text(json_field(*entry, "cveID"@)) != Some(last_cve_id@)),
    {
        match field_text(entry, "cveID") {
            Some(id) => !(id == last_cve_id.to_owned()),
            None => true,
        }
    }

    /// The row stored for the catalogue entry `entry`.
    pub fn insert_row(entry: &JsonDoc) -> (row: KevRow)
        ensures
            row@ == kev_row(*entry),
    {
        let mut title = field_shown(entry, "cveID");
        title.append(" - ");
        title.append(field_shown(entry, "vulnerabilityName").as_str());
        let mut description = String::from_str("Description: ");
        description.append(field_shown(entry, "shortDescription").as_str());
        description.append("\nRequired actions: ");
        description.append(field_shown(entry, "requiredAction").as_str());
        description.append("\nNotes: ");
        description.append(field_shown(entry, "notes").as_str());
        KevRow {
            cve_id: field_text(entry, "cveID"),
            title,
            date_added: field_text(entry, "dateAdded"),
            description,
        }
    }

    /// The rows to store for the catalogue `catalogue`, when the newest stored entry has
    /// the CVE id `last_cve_id` (empty when nothing is stored): one for each entry before
    /// the first one with that id, in the order of the catalogue.
    pub fn insert_rows(catalogue: &JsonDoc, last_cve_id: &str) -> (rows: Vec<KevRow>)
        ensures
            rows@.map_values(|row: KevRow| row@) == kev_rows(*catalogue, last_cve_id@),
    {
        let entries: &[JsonDoc] = match catalogue.field("vulnerabilities") {
            Some(list) => list.members(),
            None => &[],
        };
        let ghost all = catalogue_entries(*catalogue);
        assert(entries@ == all);
        let mut rows: Vec<KevRow> = Vec::new();
        let mut i: usize = 0;
        while i < entries.len()
            invariant
                entries@ == all,
                0 <= i <= all.len(),
                rows@.len() == i,
                new_run_end(all, last_cve_id@, 0) == new_run_end(all, last_cve_id@, i as int),
                forall|j: int| 0 <= j < i ==> is_new_entry(#[trigger] all[j], last_cve_id@),
                rows@.map_values(|row: KevRow| row@) == all.take(i as int).map_values(|entry: JsonDoc| kev_row(entry)),
            ensures
                0 <= i <= all.len(),
                new_run_end(all, last_cve_id@, 0) == i,
                rows@.map_values(|row: KevRow| row@) == all.take(i as int).map_values(|entry: JsonDoc| kev_row(entry)),
            decreases all.len() - i,
        {
            if !KEV::is_new_entry(&entries[i], last_cve_id) {
                break;
            }
            let row = KEV::insert_row(&entries[i]);
            let ghost before = rows@;
            rows.push(row);
            proof {
                let done = all.take(i + 1).map_values(|entry: JsonDoc| kev_row(entry));
                let got = rows@.map_values(|row: KevRow| row@);
                assert forall|j: int| 0 <= j < i + 1 implies got[j] == done[j] by {
                    if j < i {
                        assert(before.map_values(|row: KevRow| row@)[j] == all.take(i as int).map_values(|entry: JsonDoc| kev_row(entry))[j]);
                    }
                }
                assert(got =~= done);
            }
            i = i + 1;
        }
        rows
    }

    /// The feed item published for the stored row `row`.
    pub fn feed_item(row: &KevStoredRow) -> (item: FeedItem)
        ensures
            item@ == kev_item(row@),
            item@.title == Some(row.title@),
            item@.description == Some(row.description@),
            item@.guid == Some((row.cve_id@, true)),
            item@.pub_date == Some(row.date_added@),
            item@.link == Some(URL@),
    {
        FeedItem {
            title: Some(row.title.clone()),
            link: Some(URL.to_owned()),
            description: Some(row.description.clone()),
            guid: Some(FeedGuid { value: row.cve_id.clone(), permalink: true }),
            pub_date: Some(row.date_added.clone()),
        }
    }

    /// The channel published for the stored rows, one item for each row in their order.
    pub fn feed(rows: &Vec<KevStoredRow>) -> (channel: FeedChannel)
        ensures
            channel@ == kev_channel(stored_views(rows@)),
    {
        let mut items: Vec<FeedItem> = Vec::new();
        let mut i: usize = 0;
        while i < rows.len()
            invariant
                0 <= i <= rows@.len(),
                items@.len() == i,
                item_views(items@) == stored_views(rows@.take(i as int)).map_values(|row: KevStoredRowView| kev_item(row)),
            decreases rows@.len() - i,
        {
            let ghost before = items@;
            items.push(KEV::feed_item(&rows[i]));
            proof {
                let done = stored_views(rows@.take(i + 1)).map_values(|row: KevStoredRowView| kev_item(row));
                let got = item_views(items@);
                assert forall|j: int| 0 <= j < i + 1 implies got[j] == done[j] by {
                    if j < i {
                        assert(item_views(before)[j] == stored_views(rows@.take(i as int)).map_values(|row: KevStoredRowView| kev_item(row))[j]);
                    }
                }
                assert(got =~= done);
            }
            i = i + 1;
        }
        assert(rows@.take(rows@.len() as int) =~= rows@);
        assert(item_views(items@) =~= stored_views(rows@).map_values(|row: KevStoredRowView| kev_item(row)));
        FeedChannel {
            title: "CISA KEV".to_owned(),
            link: URL.to_owned(),
            description: "CISA Catalog of Known Exploited Vulnerabilities".to_owned(),
            items,
        }
    }

    /// The RSS XML of the feed published for the stored rows.
    pub fn publish_xml(rows: &Vec<KevStoredRow>) -> (xml: String)
        ensures
            xml@ == rss_channel_xml(kev_channel(stored_views(rows@))),
    {
        channel_xml(&KEV::feed(rows))
    }
}

} // verus!
