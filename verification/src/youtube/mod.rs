//! Reading the site's pages: searches, the feed's rows, item mapping, publish
//! times and detailed video properties.

pub mod download;
pub mod parser;
pub mod published;
pub mod scraper;

use vstd::prelude::*;
use vstd::string::*;
use crate::extract::{extract_contents_from_yt_page, search_list, spec_extract_document};
use crate::json::{spec_items};
use crate::store::{is_latest_first, joined, latest_first, FeedStore, FEED_LIMIT};
use crate::types::{
    channel_named, current_time, item_views, timestamp_parse, video_views, Channel, ContentItem,
    ContentView, Error, Timestamp, Video, VideoDB, VideoView,
};
use crate::youtube::download::{absolute_url, normalize_url};
use crate::youtube::parser::{contents_at, spec_contents};

verus! {

/// How many results a search shows.
pub const SEARCH_LIMIT: usize = 10;

/// The first `limit` of `items`, or all of them where there are fewer.
pub open spec fn first_items<T>(items: Seq<T>, limit: int) -> Seq<T> {
    if limit < items.len() {
        items.take(limit)
    } else {
        items
    }
}

/// What a search page gives, seen from `now`: the first ten items that its list of
/// results maps to, or the error of extraction, or `SchemaMismatch` where the
/// document has no list of results.
pub open spec fn spec_search(page: Seq<char>, now: Timestamp) -> Result<Seq<ContentView>, Error> {
    match spec_extract_document(page) {
        Ok(document) => match spec_items(search_list(Some(&document))) {
            Some(list) => Ok(first_items(spec_contents(list@, now), 10)),
            None => Err(Error::SchemaMismatch),
        },
        Err(e) => Err(e),
    }
}

/// The items of `items` that are no playlists, in their order.
pub open spec fn without_playlists(items: Seq<ContentView>) -> Seq<ContentView>
    decreases items.len(),
{
    if items.len() == 0 {
        Seq::empty()
    } else if items.last() is Playlist {
        without_playlists(items.drop_last())
    } else {
        without_playlists(items.drop_last()).push(items.last())
    }
}

/// What a search page gives where only videos and channels are wanted.
pub open spec fn spec_video_titles(page: Seq<char>, now: Timestamp) -> Result<
    Seq<ContentView>,
    Error,
> {
    match spec_extract_document(page) {
        Ok(document) => match spec_items(search_list(Some(&document))) {
            Some(list) => Ok(first_items(without_playlists(spec_contents(list@, now)), 10)),
            None => Err(Error::SchemaMismatch),
        },
        Err(e) => Err(e),
    }
}

/// The video that a row of the feed is read back as. A stored time that cannot
/// be read leaves the video without a publish time.
pub open spec fn row_video(row: VideoDB) -> VideoView {
    VideoView {
        id: row.id@,
        title: row.title@,
        url: absolute_url(row.url@),
        tag: Seq::empty(),
        channel: channel_named(row.channel_id@, row.channel_username@),
        published_at: timestamp_parse(row.published_at@),
    }
}

/// The address of the page that lists the results of a search.
pub fn search_url(query: &str) -> (r: String)
    ensures
        r@ == "https://www.youtube.com/results?search_query="@ + query@,
{
    String::from_str("https://www.youtube.com/results?search_query=").concat(query)
}

/// Keeps the first `limit` of `items`.
fn keep_first(items: Vec<ContentItem>, limit: usize) -> (r: Vec<ContentItem>)
    ensures
        item_views(r@) == first_items(item_views(items@), limit as int),
{
    let mut items = items;
    let ghost before = items@;
    if limit < items.len() {
        items.truncate(limit);
        assert(item_views(items@) =~= item_views(before).take(limit as int));
    }
    items
}

/// Reads the results of a fetched search page, seen from `now`.
pub fn search_results_at(page: &str, now: Timestamp) -> (r: Result<Vec<ContentItem>, Error>)
    ensures
        match r {
            Ok(found) => spec_search(page@, now) == Ok::<Seq<ContentView>, Error>(item_views(found@)),
            Err(e) => spec_search(page@, now) == Err::<Seq<ContentView>, Error>(e),
        },
{
    match extract_contents_from_yt_page(page.to_owned()) {
        Ok(list) => Ok(keep_first(contents_at(&list, now), SEARCH_LIMIT)),
        Err(e) => Err(e),
    }
}

/// Reads the results of a fetched search page, with the current time, which is
/// not before the epoch, as each video's publish time.
pub fn search_content(page: &str) -> (r: Result<Vec<ContentItem>, Error>)
    ensures
        exists|now: Timestamp|
            now.secs >= 0 && match r {
                Ok(found) => #[trigger] spec_search(page@, now) == Ok::<Seq<ContentView>, Error>(
                    item_views(found@),
                ),
                Err(e) => spec_search(page@, now) == Err::<Seq<ContentView>, Error>(e),
            },
{
    let now = current_time();
    let r = search_results_at(page, now);
    assert(match r {
        Ok(found) => spec_search(page@, now) == Ok::<Seq<ContentView>, Error>(item_views(found@)),
        Err(e) => spec_search(page@, now) == Err::<Seq<ContentView>, Error>(e),
    });
    r
}

/// Takes the playlists out of `items`.
fn drop_playlists(items: &Vec<ContentItem>) -> (r: Vec<ContentItem>)
    ensures
        item_views(r@) == without_playlists(item_views(items@)),
{
    let mut out: Vec<ContentItem> = Vec::new();
    let mut i: usize = 0;
    while i < items.len()
        invariant
            i <= items@.len(),
            item_views(out@) == without_playlists(item_views(items@).take(i as int)),
        decreases items@.len() - i,
    {
        proof {
            assert(item_views(items@).take(i + 1).drop_last() =~= item_views(items@).take(i as int));
        }
        let ghost before = out@;
        match &items[i] {
            ContentItem::Playlist(_) => {},
            other => {
                out.push(other.duplicate());
                assert(item_views(out@) =~= item_views(before).push(items@[i as int]@));
            },
        }
        i += 1;
    }
    proof {
        assert(item_views(items@).take(items@.len() as int) =~= item_views(items@));
    }
    out
}

/// Reads the videos and channels of a fetched search page, seen from `now`.
pub fn video_titles_at(page: &str, now: Timestamp) -> (r: Result<Vec<ContentItem>, Error>)
    ensures
        match r {
            Ok(found) => spec_video_titles(page@, now) == Ok::<Seq<ContentView>, Error>(
                item_views(found@),
            ),
            Err(e) => spec_video_titles(page@, now) == Err::<Seq<ContentView>, Error>(e),
        },
{
    match extract_contents_from_yt_page(page.to_owned()) {
        Ok(list) => {
            let found = contents_at(&list, now);
            Ok(keep_first(drop_playlists(&found), SEARCH_LIMIT))
        },
        Err(e) => Err(e),
    }
}

/// Reads one row of the feed back as a video.
pub fn video_of_row(row: &VideoDB) -> (r: Video)
    ensures
        r@ == row_video(*row),
{
    Video {
        id: row.id.clone(),
        title: row.title.clone(),
        url: normalize_url(row.url.as_str()),
        tag: String::new(),
        channel: Channel::new(row.channel_id.as_str(), row.channel_username.as_str()),
        published_at: Timestamp::parse(row.published_at.as_str()),
    }
}

/// What the feed shows: the ten latest videos of the subscribed channels, the
/// latest first.
pub open spec fn feed_listing(store: FeedStore) -> Seq<VideoView> {
    latest_first(joined(store.subscriptions(), store.feed()), 10)
}

/// Reads the feed back as items: at most ten, all videos, the latest first, each
/// under the name its channel is subscribed under now, and none left out that
/// was published later than one that is shown.
pub fn get_feed_videos(store: &FeedStore) -> (r: Result<Vec<ContentItem>, Error>)
    requires
        store.wf(),
    ensures
        r matches Ok(found) && {
            &&& found@.len() == feed_listing(*store).len()
            &&& found@.len() <= 10
            &&& forall|i: int|
                0 <= i < found@.len() ==> (#[trigger] found@[i])@ == ContentView::Video(
                    feed_listing(*store)[i],
                )
        },
        is_latest_first(feed_listing(*store), joined(store.subscriptions(), store.feed())),
{
    let videos = store.list_feed(FEED_LIMIT);
    let mut out: Vec<ContentItem> = Vec::new();
    let mut i: usize = 0;
    while i < videos.len()
        invariant
            i <= videos@.len(),
            out@.len() == i,
            forall|j: int|
                0 <= j < i ==> (#[trigger] out@[j])@ == ContentView::Video(video_views(videos@)[j]),
        decreases videos@.len() - i,
    {
        out.push(ContentItem::Video(videos[i].duplicate()));
        i += 1;
    }
    Ok(out)
}

} // verus!
