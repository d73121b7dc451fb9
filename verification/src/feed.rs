//! RSS feeds: the items that the library reads from a feed and the channels
//! that it publishes, held as plain values. The rss crate reads and writes
//! the XML.
use vstd::prelude::*;

verus! {

/// The GUID of a feed item.
#[derive(Debug)]
pub struct FeedGuid {
    pub value: String,
    pub permalink: bool,
}

/// An item of a feed, with the fields that the library reads and writes.
#[derive(Debug)]
pub struct FeedItem {
    pub title: Option<String>,
    pub link: Option<String>,
    pub description: Option<String>,
    pub guid: Option<FeedGuid>,
    pub pub_date: Option<String>,
}

/// A channel, as the library publishes it.
#[derive(Debug)]
pub struct FeedChannel {
    pub title: String,
    pub link: String,
    pub description: String,
    pub items: Vec<FeedItem>,
}

/// What a [`FeedItem`] holds.
pub struct FeedItemView {
    pub title: Option<Seq<char>>,
    pub link: Option<Seq<char>>,
    pub description: Option<Seq<char>>,
    pub guid: Option<(Seq<char>, bool)>,
    pub pub_date: Option<Seq<char>>,
}

/// What a [`FeedChannel`] holds.
pub struct FeedChannelView {
    pub title: Seq<char>,
    pub link: Seq<char>,
    pub description: Seq<char>,
    pub items: Seq<FeedItemView>,
}

/// The text in an optional string.
pub open spec fn opt_text(s: Option<String>) -> Option<Seq<char>> {
    match s {
        Some(t) => Some(t@),
        None => None,
    }
}

impl View for FeedItem {
    type V = FeedItemView;

    open spec fn view(&self) -> FeedItemView {
        FeedItemView {
            title: opt_text(self.title),
            link: opt_text(self.link),
            description: opt_text(self.description),
            guid: match self.guid {
                Some(g) => Some((g.value@, g.permalink)),
                None => None,
            },
            pub_date: opt_text(self.pub_date),
        }
    }
}

/// What each item of `items` holds.
pub open spec fn item_views(items: Seq<FeedItem>) -> Seq<FeedItemView> {
    items.map_values(|item: FeedItem| item@)
}

impl View for FeedChannel {
    type V = FeedChannelView;

    open spec fn view(&self) -> FeedChannelView {
        FeedChannelView {
            title: self.title@,
            link: self.link@,
            description: self.description@,
            items: item_views(self.items@),
        }
    }
}

/// The items that `rss::Channel::read_from` reads from `bytes`, or `None` where it fails.
pub uninterp spec fn rss_read_items(bytes: Seq<u8>) -> Option<Seq<FeedItemView>>;

/// The XML that `rss::Channel`'s `Display` writes for `channel`.
pub uninterp spec fn rss_channel_xml(channel: FeedChannelView) -> Seq<char>;

/// Reads the channel of an RSS feed from `bytes` with `rss::Channel::read_from` and
/// hands out its items, each with its title, link, description, GUID and publication
/// date. What comes back is named, not stated.
#[verifier::external_body]
pub fn read_feed_items(bytes: &[u8]) -> (items: Result<Vec<FeedItem>, rss::Error>)
    ensures
        match items {
            Ok(v) => rss_read_items(bytes@) == Some(item_views(v@)),
            Err(_) => rss_read_items(bytes@) is None,
        },
{
    rss::Channel::read_from(bytes).map(|c| c.items.into_iter().map(|i| FeedItem {
        title: i.title,
        link: i.link,
        description: i.description,
        guid: i.guid.map(|g| FeedGuid { value: g.value, permalink: g.permalink }),
        pub_date: i.pub_date,
    }).collect())
}

/// Writes `channel` as RSS XML, through the `Display` of `rss::Channel`, after putting
/// its title, link, description and items into an `rss::Channel` whose other fields are
/// left at their defaults. The text is named, not stated.
#[verifier::external_body]
pub fn channel_xml(channel: &FeedChannel) -> (xml: String)
    ensures
        xml@ == rss_channel_xml(channel@),
{
    let items = channel.items.iter().map(|i| rss::Item {
        title: i.title.clone(),
        link: i.link.clone(),
        description: i.description.clone(),
        guid: i.guid.as_ref().map(|g| rss::Guid { value: g.value.clone(), permalink: g.permalink }),
        pub_date: i.pub_date.clone(),
        ..Default::default()
    }).collect();
    let (title, link, description) = (channel.title.clone(), channel.link.clone(), channel.description.clone());
    rss::Channel { title, link, description, items, ..Default::default() }.to_string()
}

} // verus!
