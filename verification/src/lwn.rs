//! The paid articles of lwn.net: which headlines are paid articles, the day
//! an article becomes freely available, the rows stored for them and the
//! feed of those that have been released.
use vstd::prelude::*;
use crate::dates::{
    chrono_date_time_display, chrono_parse_date, chrono_parse_date_time, date_time_text, format_date_time, instant_before, is_before,
    is_date_time, local_instants, local_now, local_now_rfc2822, naive_seconds, within_a_day, parse_date, parse_date_time, DateTimeFields, Instant,
    LocalInstants,
};
use crate::error::{invalid_naive_date_message, is_rssify_error, FeedError, RssifyErrorKind, RssifyResult};
use crate::feed::{
    channel_xml, item_views, opt_text, read_feed_items, rss_channel_xml, rss_read_items, FeedChannel, FeedChannelView,
    FeedGuid, FeedItem, FeedItemView,
};
use crate::html::{nested_texts, scraper_matches, select_inner_html};
use crate::release::{chars_of, find_release_date, release_date_text};

verus! {

/// The feed of lwn.net headlines.
pub const HEADLINES_URL: &'static str = "https://lwn.net/headlines/rss";

/// The file that the feed is saved to.
pub const FEED_FILE: &'static str = "lwn.xml";

/// How an article writes the day it becomes free.
pub const RELEASE_DATE_FORMAT: &'static str = "%B %d, %Y";

/// How a stored release date is read back.
pub const STORED_DATE_FORMAT: &'static str = "%Y-%m-%d %H:%M:%S";

/// The source of the lwn.net feed.
pub struct LWN;

/// The row stored for a paid article.
#[derive(Debug)]
pub struct LwnRow {
    pub link: String,
    pub title: String,
    pub description: String,
    pub pub_date: String,
    pub release_date: String,
}

/// What an [`LwnRow`] holds.
pub struct LwnRowView {
    pub link: Seq<char>,
    pub title: Seq<char>,
    pub description: Seq<char>,
    pub pub_date: Seq<char>,
    pub release_date: Seq<char>,
}

impl View for LwnRow {
    type V = LwnRowView;

    open spec fn view(&self) -> LwnRowView {
        LwnRowView {
            link: self.link@,
            title: self.title@,
            description: self.description@,
            pub_date: self.pub_date@,
            release_date: self.release_date@,
        }
    }
}

/// A stored article as the feed is published from it; its title or description is
/// `None` where the database holds none.
#[derive(Debug)]
pub struct LwnStoredRow {
    pub title: Option<String>,
    pub description: Option<String>,
    pub release_date: String,
}

/// What an [`LwnStoredRow`] holds.
pub struct LwnStoredRowView {
    pub title: Option<Seq<char>>,
    pub description: Option<Seq<char>>,
    pub release_date: Seq<char>,
}

impl View for LwnStoredRow {
    type V = LwnStoredRowView;

    open spec fn view(&self) -> LwnStoredRowView {
        LwnStoredRowView {
            title: opt_text(self.title),
            description: opt_text(self.description),
            release_date: self.release_date@,
        }
    }
}

/// The mark that opens the title of a paid article.
pub open spec fn paid_mark() -> Seq<char> {
    seq!['[', '$', ']']
}

/// `item` is a paid article: its title starts with `[$]`.
pub open spec fn is_paid_article(item: FeedItemView) -> bool {
    match item.title {
        Some(t) => t.len() >= 3 && t.take(3) == paid_mark(),
        None => false,
    }
}

/// The paid articles among `items`, in their order.
pub open spec fn paid_articles(items: Seq<FeedItemView>) -> Seq<FeedItemView>
    decreases items.len(),
{
    if items.len() == 0 {
        Seq::empty()
    } else {
        let rest = paid_articles(items.drop_last());
        if is_paid_article(items.last()) {
            rest.push(items.last())
        } else {
            rest
        }
    }
}

/// The day and time that a release date stands for: the start of that day.
pub open spec fn start_of_day(date: (i32, u32, u32)) -> DateTimeFields {
    DateTimeFields { year: date.0, month: date.1, day: date.2, hour: 0, minute: 0, second: 0, nanosecond: 0 }
}

/// `outcome` is what reading the release date from the paragraph `paragraph` ends in:
/// no date where the paragraph announces none, the start of the announced day where
/// chrono reads it as `%B %d, %Y`, and an invalid date error naming it where chrono
/// does not.
pub open spec fn release_date_outcome(paragraph: Seq<char>, outcome: RssifyResult<Option<DateTimeFields>>) -> bool {
    match release_date_text(paragraph) {
        None => outcome matches Ok(None),
        Some(date) => match chrono_parse_date(date, RELEASE_DATE_FORMAT@) {
            Some(day) => outcome == Ok::<Option<DateTimeFields>, FeedError>(Some(start_of_day(day))),
            None => outcome matches Err(e) && is_rssify_error(
                e,
                RssifyErrorKind::InvalidNaiveDate,
                invalid_naive_date_message(date),
            ),
        },
    }
}

/// `outcome` is what reading the release date from the paragraph `paragraph` ends in,
/// with chrono's error kept: no date where the paragraph announces none, the start of the
/// announced day where chrono reads it as `%B %d, %Y`, and an error where it does not.
pub open spec fn announced_release(
    paragraph: Seq<char>,
    outcome: Result<Option<DateTimeFields>, chrono::format::ParseError>,
) -> bool {
    match release_date_text(paragraph) {
        None => outcome matches Ok(None),
        Some(date) => match chrono_parse_date(date, RELEASE_DATE_FORMAT@) {
            Some(day) => outcome matches Ok(Some(at)) && at == start_of_day(day),
            None => outcome is Err,
        },
    }
}

/// The paragraph that announces the release, among the paragraphs of each article block
/// of a page: the last paragraph of the first block; none where there is no block, the
/// first block has no paragraph, or the selectors were refused.
pub open spec fn release_paragraph(blocks: Option<Seq<Seq<Seq<char>>>>) -> Option<Seq<char>> {
    match blocks {
        Some(b) => if b.len() > 0 && b[0].len() > 0 {
            Some(b[0].last())
        } else {
            None
        },
        None => None,
    }
}

/// The row stored for the paid article `item`, released at `release`: none where it has
/// no link, title, description or publication date.
pub open spec fn lwn_row(item: FeedItemView, release: DateTimeFields) -> Option<LwnRowView> {
    match (item.link, item.title, item.description, item.pub_date) {
        (Some(link), Some(title), Some(description), Some(pub_date)) => Some(
            LwnRowView { link, title, description, pub_date, release_date: chrono_date_time_display(release) },
        ),
        _ => None,
    }
}

/// The feed item published for a released article, stamped with the publication date
/// `pub_date`. Its link and GUID are the stored title.
pub open spec fn lwn_item(row: LwnStoredRowView, pub_date: Seq<char>) -> FeedItemView {
    FeedItemView {
        title: row.title,
        link: row.title,
        description: row.description,
        guid: match row.title {
            Some(t) => Some((t, true)),
            None => None,
        },
        pub_date: Some(pub_date),
    }
}

/// The channel published with the items `items`.
pub open spec fn lwn_channel(items: Seq<FeedItemView>) -> FeedChannelView {
    FeedChannelView {
        title: "[$] lwn.net"@,
        link: "https://dawl.fr/lwn.net/rss.xml"@,
        description: "RSS flux of lwn.net paid articles that are freely released."@,
        items,
    }
}

/// What each of `rows` holds.
pub open spec fn stored_views(rows: Seq<LwnStoredRow>) -> Seq<LwnStoredRowView> {
    rows.map_values(|row: LwnStoredRow| row@)
}

/// The text of each of `stamps`.
pub open spec fn stamp_views(stamps: Seq<String>) -> Seq<Seq<char>> {
    stamps.map_values(|s: String| s@)
}

/// The items published for `rows`, where `released[i]` says whether `rows[i]` has been
/// released and `stamps[i]` is the publication date it is stamped with: the item of each
/// released row, in the order of the rows.
pub open spec fn publication(rows: Seq<LwnStoredRowView>, released: Seq<bool>, stamps: Seq<Seq<char>>) -> Seq<FeedItemView>
    decreases rows.len(),
{
    if rows.len() == 0 {
        Seq::empty()
    } else {
        let n = rows.len() - 1;
        let rest = publication(rows.drop_last(), released.take(n), stamps.take(n));
        if released[n] {
            rest.push(lwn_item(rows[n], stamps[n]))
        } else {
            rest
        }
    }
}

/// The release time stored as `text` can have passed at `now`: chrono reads it as
/// `%Y-%m-%d %H:%M:%S`, and `now` is later than a day before that time read as UTC (no
/// time zone is a day or more away from UTC).
pub open spec fn release_may_have_passed(text: Seq<char>, now: Instant) -> bool {
    match chrono_parse_date_time(text, STORED_DATE_FORMAT@) {
        Some(at) => naive_seconds(at) - 86400 < now.seconds,
        None => false,
    }
}

/// `released` and `stamps` are verdicts and stamps for each of `rows`, as the clock can
/// give them at `now`: a row is released only where its release time can have passed.
pub open spec fn fits_rows(rows: Seq<LwnStoredRowView>, released: Seq<bool>, stamps: Seq<Seq<char>>, now: Instant) -> bool {
    &&& released.len() == rows.len()
    &&& stamps.len() == rows.len()
    &&& forall|i: int| 0 <= i < rows.len() && #[trigger] released[i]
        ==> release_may_have_passed(rows[i].release_date, now)
}

/// `row` holds the title and the description that its item is published with.
pub open spec fn is_complete(row: LwnStoredRowView) -> bool {
    row.title is Some && row.description is Some
}

/// Some row of `rows` that `released` releases has no title or no description.
pub open spec fn lacks_released_text(rows: Seq<LwnStoredRowView>, released: Seq<bool>) -> bool {
    exists|i: int| 0 <= i < rows.len() && #[trigger] released[i] && !is_complete(rows[i])
}

/// Chrono reads `text` back as `at`, where `text` is what `Display` writes for a date and
/// time `at` of a year from 0 to 9999.
pub open spec fn reads_back(text: Seq<char>) -> bool {
    forall|at: DateTimeFields| is_date_time(at) && at.nanosecond == 0 && 0 <= at.year <= 9999 && text == date_time_text(at)
        ==> #[trigger] chrono_parse_date_time(text, STORED_DATE_FORMAT@) == Some(at)
}

/// A release time that stands for the local instants `instants` has passed at `now`.
pub open spec fn released_at(instants: LocalInstants, now: Instant) -> bool {
    match instants {
        LocalInstants::Single(at) => instant_before(at, now),
        _ => false,
    }
}

/// A release time of a year from 0 to 9999 with no fraction of a second, stored as
/// [`LWN::article_row`] stores it (as `date_time_text`), is read back at publication as
/// that very time, once the stored text is known to read back (as [`LWN::is_released`]
/// and [`LWN::published_items`] state of each row).
pub proof fn lemma_stored_release_reads_back(release: DateTimeFields, stored: LwnStoredRowView)
    requires
        is_date_time(release),
        release.nanosecond == 0,
        0 <= release.year <= 9999,
        stored.release_date == date_time_text(release),
        reads_back(stored.release_date),
    ensures
        chrono_parse_date_time(stored.release_date, STORED_DATE_FORMAT@) == Some(release),
{
}

/// An article stored by [`LWN::article_row`] is not released earlier than a day before its
/// release time read as UTC: where a verdict of [`LWN::is_released`] at `now` finds that
/// the stored release time can have passed, `now` comes later than that.
pub proof fn lemma_not_released_early(release: DateTimeFields, stored: LwnStoredRowView, now: Instant)
    requires
        is_date_time(release),
        release.nanosecond == 0,
        0 <= release.year <= 9999,
        stored.release_date == date_time_text(release),
        reads_back(stored.release_date),
        release_may_have_passed(stored.release_date, now),
    ensures
        naive_seconds(release) - 86400 < now.seconds,
{
    lemma_stored_release_reads_back(release, stored);
}

/// `instants` are local instants of the release time stored in `row`, as the machine's
/// time zone can give them: none where the release date does not read back as a date and
/// time, else each of them less than a day from that time read as UTC.
pub open spec fn instants_fit(row: LwnStoredRowView, instants: LocalInstants) -> bool {
    match chrono_parse_date_time(row.release_date, STORED_DATE_FORMAT@) {
        None => instants is Missing,
        Some(at) => {
            &&& instants matches LocalInstants::Single(t) ==> within_a_day(at, t)
            &&& instants matches LocalInstants::Ambiguous(a, b) ==> within_a_day(at, a) && within_a_day(at, b)
        },
    }
}

/// The verdict on each row at `now`, where `instants[i]` are the local instants of the
/// release time of row `i`: each row is judged on its own instants alone.
pub open spec fn verdicts_at(instants: Seq<LocalInstants>, now: Instant) -> Seq<bool> {
    Seq::new(instants.len(), |i: int| released_at(instants[i], now))
}

/// A row is released at `now` exactly when the local time of its release is one instant
/// that comes before `now`, whatever the other rows hold; and then its release time can
/// have passed. Every such row is published, whatever comes before or after it, and
/// nothing else is.
pub proof fn lemma_released_rows_are_published(
    rows: Seq<LwnStoredRowView>,
    instants: Seq<LocalInstants>,
    stamps: Seq<Seq<char>>,
    now: Instant,
)
    requires
        instants.len() == rows.len(),
        stamps.len() == rows.len(),
        forall|i: int| 0 <= i < rows.len() ==> instants_fit(rows[i], #[trigger] instants[i]),
    ensures
        forall|i: int| 0 <= i < rows.len() ==> (#[trigger] verdicts_at(instants, now)[i] <==> (instants[i] matches LocalInstants::Single(t) && instant_before(t, now))),
        forall|i: int| 0 <= i < rows.len() && #[trigger] verdicts_at(instants, now)[i] ==> release_may_have_passed(rows[i].release_date, now),
        forall|i: int| 0 <= i < rows.len() && (instants[i] matches LocalInstants::Single(t) && instant_before(t, now))
            ==> publication(rows, verdicts_at(instants, now), stamps).contains(#[trigger] lwn_item(rows[i], stamps[i])),
        forall|k: int| 0 <= k < publication(rows, verdicts_at(instants, now), stamps).len() ==> exists|i: int| {
            &&& 0 <= i < rows.len()
            &&& instants[i] matches LocalInstants::Single(t) && instant_before(t, now)
            &&& #[trigger] publication(rows, verdicts_at(instants, now), stamps)[k] == lwn_item(rows[i], stamps[i])
        },
{
    let released = verdicts_at(instants, now);
    lemma_publication_members(rows, released, stamps);
    assert forall|i: int| 0 <= i < rows.len() && #[trigger] released[i] implies release_may_have_passed(rows[i].release_date, now) by {
        assert(instants_fit(rows[i], instants[i]));
    }
    assert forall|i: int| 0 <= i < rows.len() && (instants[i] matches LocalInstants::Single(t) && instant_before(t, now))
        implies publication(rows, released, stamps).contains(#[trigger] lwn_item(rows[i], stamps[i])) by {
        assert(released[i]);
    }
    let p = publication(rows, released, stamps);
    assert forall|k: int| 0 <= k < p.len() implies exists|i: int| {
        &&& 0 <= i < rows.len()
        &&& instants[i] matches LocalInstants::Single(t) && instant_before(t, now)
        &&& #[trigger] p[k] == lwn_item(rows[i], stamps[i])
    } by {
        let i = choose|i: int| 0 <= i < rows.len() && released[i] && #[trigger] p[k] == lwn_item(rows[i], stamps[i]);
        assert(released[i]);
    }
}

/// The item published for a stored row carries the row: its title (also as link and as a
/// permalink GUID), its description, and the publication stamp it was given.
pub proof fn lemma_lwn_item_carries_row(row: LwnStoredRowView, pub_date: Seq<char>)
    ensures
        lwn_item(row, pub_date).title == row.title,
        lwn_item(row, pub_date).link == row.title,
        lwn_item(row, pub_date).description == row.description,
        lwn_item(row, pub_date).pub_date == Some(pub_date),
        row.title matches Some(t) ==> lwn_item(row, pub_date).guid == Some((t, true)),
        row.title is None ==> lwn_item(row, pub_date).guid is None,
{
}

/// The row stored for a paid article carries the article: there is one exactly when the
/// item has a link, a title, a description and a publication date, and then it holds
/// those four unchanged and the release time as chrono writes it.
pub proof fn lemma_lwn_row_carries_item(item: FeedItemView, release: DateTimeFields)
    ensures
        lwn_row(item, release) is Some <==> (item.link is Some && item.title is Some && item.description is Some
            && item.pub_date is Some),
        lwn_row(item, release) matches Some(r) ==> {
            &&& Some(r.link) == item.link
            &&& Some(r.title) == item.title
            &&& Some(r.description) == item.description
            &&& Some(r.pub_date) == item.pub_date
            &&& r.release_date == chrono_date_time_display(release)
        },
{
}

/// Every released row is published, and every published item is that of a released row.
pub proof fn lemma_publication_members(rows: Seq<LwnStoredRowView>, released: Seq<bool>, stamps: Seq<Seq<char>>)
    requires
        released.len() == rows.len(),
        stamps.len() == rows.len(),
    ensures
        forall|i: int| 0 <= i < rows.len() && released[i] ==> publication(rows, released, stamps).contains(
            #[trigger] lwn_item(rows[i], stamps[i]),
        ),
        forall|k: int| 0 <= k < publication(rows, released, stamps).len() ==> exists|i: int| {
            &&& 0 <= i < rows.len()
            &&& released[i]
            &&& #[trigger] publication(rows, released, stamps)[k] == lwn_item(rows[i], stamps[i])
        },
        publication(rows, released, stamps).len() <= rows.len(),
    decreases rows.len(),
{
    if rows.len() > 0 {
        let n = rows.len() - 1;
        let (r, e, t) = (rows.drop_last(), released.take(n), stamps.take(n));
        lemma_publication_members(r, e, t);
        let rest = publication(r, e, t);
        let all = publication(rows, released, stamps);
        assert forall|i: int| 0 <= i < rows.len() && released[i] implies all.contains(#[trigger] lwn_item(rows[i], stamps[i])) by {
            if i < n {
                assert(r[i] == rows[i] && e[i] == released[i] && t[i] == stamps[i]);
                let k = choose|k: int| 0 <= k < rest.len() && rest[k] == lwn_item(r[i], t[i]);
                assert(all[k] == rest[k]);
            } else {
                assert(all[all.len() - 1] == lwn_item(rows[i], stamps[i]));
            }
        }
        assert forall|k: int| 0 <= k < all.len() implies exists|i: int| {
            &&& 0 <= i < rows.len()
            &&& released[i]
            &&& #[trigger] all[k] == lwn_item(rows[i], stamps[i])
        } by {
            if k < rest.len() {
                assert(all[k] == rest[k]);
                let i = choose|i: int| {
                    &&& 0 <= i < r.len()
                    &&& e[i]
                    &&& #[trigger] rest[k] == lwn_item(r[i], t[i])
                };
                assert(r[i] == rows[i] && e[i] == released[i] && t[i] == stamps[i]);
            } else {
                assert(all[k] == lwn_item(rows[n], stamps[n]));
            }
        }
    }
}

/// Once a release time has passed, it stays passed: a later clock reading finds it
/// released too.
pub proof fn lemma_release_stays(instants: LocalInstants, earlier: Instant, later: Instant)
    requires
        released_at(instants, earlier),
        !instant_before(later, earlier),
    ensures
        released_at(instants, later),
{
}

/// The feed only grows as more rows are released: a row published with the verdicts
/// `before` is published with any verdicts `after` that release at least the same rows.
pub proof fn lemma_publication_grows(
    rows: Seq<LwnStoredRowView>,
    before: Seq<bool>,
    after: Seq<bool>,
    stamps_before: Seq<Seq<char>>,
    stamps_after: Seq<Seq<char>>,
)
    requires
        before.len() == rows.len(),
        after.len() == rows.len(),
        stamps_before.len() == rows.len(),
        stamps_after.len() == rows.len(),
        forall|i: int| 0 <= i < rows.len() && #[trigger] before[i] ==> after[i],
    ensures
        forall|i: int| 0 <= i < rows.len() && #[trigger] before[i] ==> publication(rows, after, stamps_after).contains(
            lwn_item(rows[i], stamps_after[i]),
        ),
{
    lemma_publication_members(rows, after, stamps_after);
    assert forall|i: int| 0 <= i < rows.len() && #[trigger] before[i] implies publication(rows, after, stamps_after).contains(
        lwn_item(rows[i], stamps_after[i]),
    ) by {
        assert(after[i]);
    }
}

/// The paid articles are the items of `items` whose title starts with `[$]`: each of them
/// is one of `items`, and no paid item is left out, for there are as many of them as
/// `items` has paid items.
pub proof fn lemma_paid_articles(items: Seq<FeedItemView>)
    ensures
        paid_articles(items).len() <= items.len(),
        forall|k: int| 0 <= k < paid_articles(items).len() ==> is_paid_article(#[trigger] paid_articles(items)[k]),
        forall|k: int| 0 <= k < paid_articles(items).len() ==> items.contains(#[trigger] paid_articles(items)[k]),
        paid_articles(items).len() == items.filter(|item: FeedItemView| is_paid_article(item)).len(),
    decreases items.len(),
{
    reveal_with_fuel(Seq::filter, 1);
    if items.len() > 0 {
        let rest = items.drop_last();
        lemma_paid_articles(rest);
        assert forall|k: int| 0 <= k < paid_articles(rest).len() implies items.contains(#[trigger] paid_articles(rest)[k]) by {
            let j = choose|j: int| 0 <= j < rest.len() && rest[j] == paid_articles(rest)[k];
            assert(items[j] == rest[j]);
        }
        assert(items[items.len() - 1] == items.last());
    }
}

/// A release day of a year of four digits is stored as `YYYY-MM-DD 00:00:00`: nineteen
/// characters, of which the last nine are ` 00:00:00`.
pub proof fn lemma_release_stamp_shape(year: i32, month: u32, day: u32)
    requires
        0 <= year <= 9999,
        1 <= month <= 12,
        1 <= day <= 31,
    ensures
        date_time_text(start_of_day((year, month, day))).len() == 19,
        date_time_text(start_of_day((year, month, day))).subrange(10, 19) == seq![' ', '0', '0', ':', '0', '0', ':', '0', '0'],
{
    reveal_with_fuel(crate::dates::pow10, 5);
    crate::dates::lemma_decimal_len_le(year as nat, 4);
    crate::dates::lemma_decimal_len_le(month as nat, 2);
    crate::dates::lemma_decimal_len_le(day as nat, 2);
    let zero = crate::dates::zero_padded(0, 2);
    assert(crate::dates::decimal(0) == seq!['0']);
    assert(zero =~= seq!['0', '0']);
    let text = date_time_text(start_of_day((year, month, day)));
    assert(crate::dates::year_text(year as int).len() == 4);
    assert(crate::dates::zero_padded(month as nat, 2).len() == 2);
    assert(crate::dates::zero_padded(day as nat, 2).len() == 2);
    assert(text.subrange(10, 19) =~= seq![' ', '0', '0', ':', '0', '0', ':', '0', '0']);
}

impl LWN {
    /// Whether the title `title` marks a paid article.
    pub fn is_paid_title(title: &Option<String>) -> (paid: bool)
        ensures
            paid == match opt_text(*title) {
                Some(t) => t.len() >= 3 && t.take(3) == paid_mark(),
                None => false,
            },
    {
        match title {
            Some(t) => {
                let chars = chars_of(t.as_str());
                if chars.len() < 3 {
                    return false;
                }
                let paid = chars[0] == '[' && chars[1] == '$' && chars[2] == ']';
                if paid {
                    assert(chars@.take(3) =~= paid_mark());
                } else {
                    assert(chars@.take(3)[0] == chars@[0]);
                    assert(chars@.take(3)[1] == chars@[1]);
                    assert(chars@.take(3)[2] == chars@[2]);
                }
                paid
            },
            None => false,
        }
    }

    /// A copy of `item`.
    fn copy_item(item: &FeedItem) -> (copy: FeedItem)
        ensures
            copy@ == item@,
    {
        FeedItem {
            title: match &item.title {
                Some(t) => Some(t.clone()),
                None => None,
            },
            link: match &item.link {
                Some(t) => Some(t.clone()),
                None => None,
            },
            description: match &item.description {
                Some(t) => Some(t.clone()),
                None => None,
            },
            guid: match &item.guid {
                Some(g) => Some(FeedGuid { value: g.value.clone(), permalink: g.permalink }),
                None => None,
            },
            pub_date: match &item.pub_date {
                Some(t) => Some(t.clone()),
                None => None,
            },
        }
    }

    /// The paid articles among `items`, in their order.
    pub fn paid_articles(items: &Vec<FeedItem>) -> (paid: Vec<FeedItem>)
        ensures
            item_views(paid@) == paid_articles(item_views(items@)),
    {
        let ghost all = item_views(items@);
        let mut paid: Vec<FeedItem> = Vec::new();
        let mut i: usize = 0;
        while i < items.len()
            invariant
                all == item_views(items@),
                0 <= i <= items@.len(),
                item_views(paid@) == paid_articles(all.take(i as int)),
            decreases items@.len() - i,
        {
            assert(all.take(i + 1).drop_last() =~= all.take(i as int));
            assert(all.take(i + 1).last() == items@[i as int]@);
            if LWN::is_paid_title(&items[i].title) {
                let ghost before = paid@;
                paid.push(LWN::copy_item(&items[i]));
                assert(item_views(paid@) =~= item_views(before).push(items@[i as int]@));
            }
            i = i + 1;
        }
        assert(all.take(items@.len() as int) =~= all);
        paid
    }

    /// The paid articles among the items of the RSS feed `feed`, as the headlines of
    /// lwn.net list them; the error of the rss crate where it cannot read the feed.
    pub fn fetch_paid_article_urls(feed: &[u8]) -> (paid: RssifyResult<Vec<FeedItem>>)
        ensures
            match rss_read_items(feed@) {
                Some(items) => paid matches Ok(v) && item_views(v@) == paid_articles(items),
                None => paid matches Err(FeedError::RssError(_)),
            },
    {
        match read_feed_items(feed) {
            Ok(items) => Ok(LWN::paid_articles(&items)),
            Err(e) => Err(FeedError::RssError(e)),
        }
    }

    /// The day that the paragraph `paragraph` announces an article to become freely
    /// available, as the start of that day.
    pub fn release_date_in(paragraph: &str) -> (outcome: RssifyResult<Option<DateTimeFields>>)
        ensures
            release_date_outcome(paragraph@, outcome),
            outcome matches Ok(Some(at)) ==> is_date_time(at) && at.nanosecond == 0 && 0 <= at.year <= 9999,
    {
        proof {
            crate::release::lemma_release_date_shape(paragraph@);
        }
        match find_release_date(paragraph) {
            None => Ok(None),
            Some(date) => match parse_date(date.as_str(), RELEASE_DATE_FORMAT) {
                Ok((year, month, day)) => Ok(
                    Some(DateTimeFields { year, month, day, hour: 0, minute: 0, second: 0, nanosecond: 0 }),
                ),
                Err(_) => Err(FeedError::invalid_naive_date(date.as_str())),
            },
        }
    }

    /// The day that the paragraph `paragraph` announces an article to become freely
    /// available, as the start of that day; where chrono cannot read the announced date,
    /// chrono's own error.
    pub fn announced_release_date(paragraph: &str) -> (outcome: Result<Option<DateTimeFields>, chrono::format::ParseError>)
        ensures
            announced_release(paragraph@, outcome),
            outcome matches Ok(Some(at)) ==> is_date_time(at) && at.nanosecond == 0 && 0 <= at.year <= 9999,
    {
        proof {
            crate::release::lemma_release_date_shape(paragraph@);
        }
        match find_release_date(paragraph) {
            None => Ok(None),
            Some(date) => match parse_date(date.as_str(), RELEASE_DATE_FORMAT) {
                Ok((year, month, day)) => Ok(
                    Some(DateTimeFields { year, month, day, hour: 0, minute: 0, second: 0, nanosecond: 0 }),
                ),
                Err(e) => Err(e),
            },
        }
    }

    /// The paragraph that announces the release, among the paragraphs (as inner HTML) of
    /// each article block of a page, in document order: the last paragraph of the first
    /// block; none where there is no block or the first block has no paragraph.
    pub fn release_paragraph_among(blocks: &Vec<Vec<String>>) -> (paragraph: Option<String>)
        ensures
            opt_text(paragraph) == release_paragraph(Some(nested_texts(blocks@))),
    {
        if blocks.len() == 0 {
            None
        } else {
            let paragraphs = &blocks[0];
            if paragraphs.len() == 0 {
                None
            } else {
                assert(nested_texts(blocks@)[0] == paragraphs@.map_values(|s: String| s@));
                Some(paragraphs[paragraphs.len() - 1].clone())
            }
        }
    }

    /// The paragraph of an article page that announces its release: the last paragraph
    /// of its first `div.ArticleText`, by what scraper finds in `page`.
    pub fn article_paragraph(page: &str) -> (paragraph: Option<String>)
        ensures
            opt_text(paragraph) == release_paragraph(scraper_matches(page@, "div.ArticleText"@, "p"@)),
    {
        match select_inner_html(page, "div.ArticleText", "p") {
            None => None,
            Some(blocks) => LWN::release_paragraph_among(&blocks),
        }
    }

    /// The day that the article page `page` announces the article to become freely
    /// available, read from the last paragraph of its first `div.ArticleText`; no day where
    /// the page has no such paragraph.
    pub fn fetch_release_date(page: &str) -> (outcome: RssifyResult<Option<DateTimeFields>>)
        ensures
            outcome matches Ok(Some(at)) ==> is_date_time(at) && at.nanosecond == 0 && 0 <= at.year <= 9999,
            match release_paragraph(scraper_matches(page@, "div.ArticleText"@, "p"@)) {
                None => outcome matches Ok(None),
                Some(paragraph) => release_date_outcome(paragraph, outcome),
            },
    {
        match LWN::article_paragraph(page) {
            Some(paragraph) => LWN::release_date_in(paragraph.as_str()),
            None => Ok(None),
        }
    }

    /// The row stored for the paid article `item`, released at `release`; none where the
    /// item has no link, title, description or publication date.
    pub fn article_row(item: &FeedItem, release: &DateTimeFields) -> (row: Option<LwnRow>)
        requires
            is_date_time(*release),
        ensures
            match row {
                Some(r) => lwn_row(item@, *release) == Some(r@),
                None => lwn_row(item@, *release) is None,
            },
            release.nanosecond == 0 ==> (row matches Some(r) ==> r.release_date@ == date_time_text(*release)),
            row is Some <==> (item.link is Some && item.title is Some && item.description is Some && item.pub_date is Some),
            row matches Some(r) ==> {
                &&& Some(r.link@) == item@.link
                &&& Some(r.title@) == item@.title
                &&& Some(r.description@) == item@.description
                &&& Some(r.pub_date@) == item@.pub_date
                &&& r.release_date@ == chrono_date_time_display(*release)
            },
    {
        match (&item.link, &item.title, &item.description, &item.pub_date) {
            (Some(link), Some(title), Some(description), Some(pub_date)) => Some(
                LwnRow {
                    link: link.clone(),
                    title: title.clone(),
                    description: description.clone(),
                    pub_date: pub_date.clone(),
                    release_date: format_date_time(release),
                },
            ),
            _ => None,
        }
    }

    /// The feed item published for the released article `row`, stamped with `pub_date`.
    pub fn feed_item(row: &LwnStoredRow, pub_date: String) -> (item: FeedItem)
        ensures
            item@ == lwn_item(row@, pub_date@),
            item@.title == row@.title,
            item@.link == row@.title,
            item@.description == row@.description,
            item@.pub_date == Some(pub_date@),
            item@.guid == match row@.title {
                Some(t) => Some((t, true)),
                None => None,
            },
    {
        let (title, link, guid) = match &row.title {
            Some(t) => (Some(t.clone()), Some(t.clone()), Some(FeedGuid { value: t.clone(), permalink: true })),
            None => (None, None, None),
        };
        let description = match &row.description {
            Some(d) => Some(d.clone()),
            None => None,
        };
        FeedItem { title, link, description, guid, pub_date: Some(pub_date) }
    }

    /// Whether the article `row` has been released at the instant `now`: chrono reads its
    /// release date as `%Y-%m-%d %H:%M:%S`, that local time is one instant, and it comes
    /// before `now`. Where the local time falls into a gap or an overlap of the time zone
    /// the article is held back. The release date that [`LWN::article_row`] stores is read
    /// back as it was written.
    pub fn is_released(row: &LwnStoredRow, now: Instant) -> (released: bool)
        ensures
            released ==> release_may_have_passed(row.release_date@, now),
            reads_back(row.release_date@),
    {
        match parse_date_time(row.release_date.as_str(), STORED_DATE_FORMAT) {
            Some(at) => LWN::is_released_at(&local_instants(&at), now),
            None => false,
        }
    }

    /// Whether a release time that stands for the local instants `instants` has passed at
    /// `now`: it must be one instant, and come before `now`.
    pub fn is_released_at(instants: &LocalInstants, now: Instant) -> (released: bool)
        ensures
            released == released_at(*instants, now),
    {
        match instants {
            LocalInstants::Single(at) => is_before(*at, now),
            _ => false,
        }
    }

    /// The items published for the stored articles `rows`, where `released[i]` says whether
    /// `rows[i]` has been released and `stamps[i]` is its publication date: the item of each
    /// released row, in the order of the rows.
    pub fn published_items_given(rows: &Vec<LwnStoredRow>, released: &Vec<bool>, stamps: &Vec<String>) -> (items: Vec<FeedItem>)
        requires
            released@.len() == rows@.len(),
            stamps@.len() == rows@.len(),
        ensures
            item_views(items@) == publication(stored_views(rows@), released@, stamp_views(stamps@)),
    {
        let ghost all = stored_views(rows@);
        let ghost st = stamp_views(stamps@);
        let mut items: Vec<FeedItem> = Vec::new();
        let mut i: usize = 0;
        while i < rows.len()
            invariant
                all == stored_views(rows@),
                st == stamp_views(stamps@),
                released@.len() == rows@.len(),
                stamps@.len() == rows@.len(),
                0 <= i <= rows@.len(),
                item_views(items@) == publication(all.take(i as int), released@.take(i as int), st.take(i as int)),
            decreases rows@.len() - i,
        {
            let ghost before = item_views(items@);
            proof {
                let m = i + 1;
                assert(all.take(m).drop_last() =~= all.take(i as int));
                assert(released@.take(m).take(i as int) =~= released@.take(i as int));
                assert(st.take(m).take(i as int) =~= st.take(i as int));
                assert(all.take(m)[i as int] == rows@[i as int]@);
                assert(st.take(m)[i as int] == stamps@[i as int]@);
            }
            if released[i] {
                items.push(LWN::feed_item(&rows[i], stamps[i].clone()));
                assert(item_views(items@) =~= before.push(lwn_item(all[i as int], st[i as int])));
            }
            i = i + 1;
        }
        assert(all.take(rows@.len() as int) =~= all);
        assert(released@.take(rows@.len() as int) =~= released@);
        assert(st.take(rows@.len() as int) =~= st);
        items
    }

    /// The items published at the instant `now` for the stored articles `rows`: the item of
    /// each article that [`LWN::is_released`] finds released at `now`, in their order,
    /// stamped with the current local time; `None` where a released article has no title
    /// or no description.
    pub fn published_items(rows: &Vec<LwnStoredRow>, now: Instant) -> (items: Option<Vec<FeedItem>>)
        ensures
            exists|released: Seq<bool>, stamps: Seq<Seq<char>>| {
                &&& fits_rows(stored_views(rows@), released, stamps, now)
                &&& match items {
                    Some(v) => !lacks_released_text(stored_views(rows@), released)
                        && item_views(v@) == publication(stored_views(rows@), released, stamps),
                    None => lacks_released_text(stored_views(rows@), released),
                }
            },
            exists|instants: Seq<LocalInstants>, stamps: Seq<Seq<char>>|
                #![trigger verdicts_at(instants, now), stamps.len()]
            {
                &&& instants.len() == rows@.len()
                &&& stamps.len() == rows@.len()
                &&& forall|i: int| 0 <= i < rows@.len() ==> instants_fit(rows@[i]@, #[trigger] instants[i])
                &&& match items {
                    Some(v) => !lacks_released_text(stored_views(rows@), verdicts_at(instants, now))
                        && item_views(v@) == publication(stored_views(rows@), verdicts_at(instants, now), stamps),
                    None => lacks_released_text(stored_views(rows@), verdicts_at(instants, now)),
                }
            },
            forall|i: int| 0 <= i < rows@.len() ==> reads_back(#[trigger] rows@[i].release_date@),
    {
        let ghost all = stored_views(rows@);
        let ghost mut observed: Seq<LocalInstants> = Seq::empty();
        let mut released: Vec<bool> = Vec::new();
        let mut stamps: Vec<String> = Vec::new();
        let mut lacking = false;
        let mut i: usize = 0;
        while i < rows.len()
            invariant
                all == stored_views(rows@),
                0 <= i <= rows@.len(),
                released@.len() == i,
                stamps@.len() == i,
                observed.len() == i,
                forall|j: int| 0 <= j < i ==> instants_fit(all[j], #[trigger] observed[j]),
                forall|j: int| 0 <= j < i ==> #[trigger] released@[j] == released_at(observed[j], now),
                forall|j: int| 0 <= j < i && #[trigger] released@[j] ==> release_may_have_passed(all[j].release_date, now),
                forall|j: int| 0 <= j < i ==> reads_back(#[trigger] rows@[j].release_date@),
                lacking == exists|j: int| 0 <= j < i && #[trigger] released@[j] && !is_complete(all[j]),
            decreases rows@.len() - i,
        {
            assert(all[i as int] == rows@[i as int]@);
            let instants = match parse_date_time(rows[i].release_date.as_str(), STORED_DATE_FORMAT) {
                Some(at) => local_instants(&at),
                None => LocalInstants::Missing,
            };
            assert(instants_fit(all[i as int], instants));
            let verdict = LWN::is_released_at(&instants, now);
            let missing = rows[i].title.is_none() || rows[i].description.is_none();
            assert(missing == !is_complete(all[i as int]));
            let ghost prev = released@;
            let ghost was = lacking;
            if verdict && missing {
                lacking = true;
            }
            released.push(verdict);
            if verdict {
                stamps.push(local_now_rfc2822());
            } else {
                stamps.push(String::new());
            }
            proof {
                observed = observed.push(instants);
                assert(forall|j: int| 0 <= j < i ==> released@[j] == prev[j]);
                if was {
                    let k = choose|k: int| 0 <= k < i && #[trigger] prev[k] && !is_complete(all[k]);
                    assert(released@[k]);
                } else if lacking {
                    assert(released@[i as int] && !is_complete(all[i as int]));
                } else {
                    assert forall|j: int| 0 <= j < i + 1 && #[trigger] released@[j] implies is_complete(all[j]) by {
                        if j < i {
                            assert(prev[j]);
                        }
                    }
                }
            }
            i = i + 1;
        }
        assert(fits_rows(all, released@, stamp_views(stamps@), now));
        assert(verdicts_at(observed, now) =~= released@);
        assert(forall|j: int| 0 <= j < rows@.len() ==> instants_fit(rows@[j]@, #[trigger] observed[j]));
        assert(stamp_views(stamps@).len() == rows@.len());
        if lacking {
            None
        } else {
            Some(LWN::published_items_given(rows, &released, &stamps))
        }
    }

    /// The channel published with the items `items`.
    pub fn feed(items: Vec<FeedItem>) -> (channel: FeedChannel)
        ensures
            channel@ == lwn_channel(item_views(items@)),
    {
        FeedChannel {
            title: "[$] lwn.net".to_owned(),
            link: "https://dawl.fr/lwn.net/rss.xml".to_owned(),
            description: "RSS flux of lwn.net paid articles that are freely released.".to_owned(),
            items,
        }
    }

    /// The RSS XML of the feed published now for the stored articles `rows`: the clock is
    /// read once, and the channel holds the items of [`LWN::published_items`] at that
    /// instant; `None` where a released article has no title or no description.
    pub fn publish_xml(rows: &Vec<LwnStoredRow>) -> (xml: Option<String>)
        ensures
            exists|now: Instant, released: Seq<bool>, stamps: Seq<Seq<char>>| {
                &&& fits_rows(stored_views(rows@), released, stamps, now)
                &&& match xml {
                    Some(x) => !lacks_released_text(stored_views(rows@), released)
                        && x@ == rss_channel_xml(lwn_channel(publication(stored_views(rows@), released, stamps))),
                    None => lacks_released_text(stored_views(rows@), released),
                }
            },
            forall|i: int| 0 <= i < rows@.len() ==> reads_back(#[trigger] rows@[i].release_date@),
    {
        let now = local_now();
        match LWN::published_items(rows, now) {
            Some(items) => Some(channel_xml(&LWN::feed(items))),
            None => None,
        }
    }
}

} // verus!
