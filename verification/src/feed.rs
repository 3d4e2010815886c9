//! Aggregating the videos of the subscribed channels into the feed.

use vstd::prelude::*;
use crate::order::{ascending_order, is_arrangement, lemma_sorted_order, sorted_order};
use crate::types::{channel_named, video_views, ChannelDB, Error, Timestamp, Video, VideoView};
use crate::youtube::parser::{parse_channel_videos, spec_channel_videos};

verus! {

/// A subscription and the text of its channel's video page; `None` where the page
/// could not be fetched.
#[derive(Clone, Debug, PartialEq, Eq)]
pub struct FetchedPage {
    pub channel: ChannelDB,
    pub page: Option<String>,
}

/// How many seconds the feed looks back: seven days.
pub open spec fn window() -> int {
    604_800
}

/// Whether a publish time lies within the seven days that end at `now`. A video
/// without a publish time is never recent.
pub open spec fn is_recent(published: Option<Timestamp>, now: Timestamp) -> bool {
    match published {
        Some(at) => at.secs + window() > now.secs || (at.secs + window() == now.secs && at.nanos
            >= now.nanos),
        None => false,
    }
}

/// The videos of `videos` that are recent at `now`, in their order.
pub open spec fn recent(videos: Seq<VideoView>, now: Timestamp) -> Seq<VideoView>
    decreases videos.len(),
{
    if videos.len() == 0 {
        Seq::empty()
    } else if is_recent(videos.last().published_at, now) {
        recent(videos.drop_last(), now).push(videos.last())
    } else {
        recent(videos.drop_last(), now)
    }
}

/// The time a video is ordered by: its publish time, or the epoch where it has none.
pub open spec fn publish_key(video: VideoView) -> Timestamp {
    match video.published_at {
        Some(at) => at,
        None => Timestamp { secs: 0, nanos: 0 },
    }
}

/// The times that `videos` are ordered by.
pub open spec fn publish_keys(videos: Seq<VideoView>) -> Seq<Timestamp> {
    Seq::new(videos.len(), |i: int| publish_key(videos[i]))
}

/// `videos` from the earliest publish time to the latest; videos published at the
/// same time stay in the order they had.
pub open spec fn by_publish_time(videos: Seq<VideoView>) -> Seq<VideoView> {
    let order = sorted_order(publish_keys(videos));
    Seq::new(videos.len(), |k: int| videos[order[k] as int])
}

/// How reading one fetched page ends, seen from `now`: with the videos of its
/// channel's grid, with `NetworkFailure` where the page was not fetched, or with
/// the error that reading it gives.
#[verifier::opaque]
pub open spec fn page_outcome(fetched: FetchedPage, now: Timestamp) -> Result<Seq<VideoView>, Error> {
    let channel = channel_named(fetched.channel.channel_id@, fetched.channel.channel_username@);
    match fetched.page {
        Some(text) => spec_channel_videos(channel, text@, now),
        None => Err(Error::NetworkFailure),
    }
}

/// The videos that one fetched page gives, seen from `now`: those of its channel's
/// grid, or none where the page was not fetched or cannot be read.
pub open spec fn page_videos(fetched: FetchedPage, now: Timestamp) -> Seq<VideoView> {
    match page_outcome(fetched, now) {
        Ok(videos) => videos,
        Err(_) => Seq::empty(),
    }
}

/// The videos that all fetched pages give, page after page.
pub open spec fn collected(pages: Seq<FetchedPage>, now: Timestamp) -> Seq<VideoView>
    decreases pages.len(),
{
    if pages.len() == 0 {
        Seq::empty()
    } else {
        collected(pages.drop_last(), now) + page_videos(pages.last(), now)
    }
}

/// What one aggregation run adds to the feed: the recent videos of all pages, from
/// the earliest to the latest.
pub open spec fn spec_update_feed(pages: Seq<FetchedPage>, now: Timestamp) -> Seq<VideoView> {
    by_publish_time(recent(collected(pages, now), now))
}

/// Whether a publish time lies within the seven days that end at `now`.
pub fn published_recently(published: Option<Timestamp>, now: Timestamp) -> (r: bool)
    ensures
        r == is_recent(published, now),
{
    match published {
        Some(at) => {
            let shifted: i128 = at.secs as i128 + 604_800;
            shifted > now.secs as i128 || (shifted == now.secs as i128 && at.nanos >= now.nanos)
        },
        None => false,
    }
}

/// Keeps the videos that are recent at `now`.
pub fn keep_recent(videos: &Vec<Video>, now: Timestamp) -> (r: Vec<Video>)
    ensures
        video_views(r@) == recent(video_views(videos@), now),
{
    let mut out: Vec<Video> = Vec::new();
    let mut i: usize = 0;
    while i < videos.len()
        invariant
            i <= videos@.len(),
            video_views(out@) == recent(video_views(videos@).take(i as int), now),
        decreases videos@.len() - i,
    {
        proof {
            assert(video_views(videos@).take(i + 1).drop_last() =~= video_views(videos@).take(
                i as int,
            ));
        }
        let ghost before = out@;
        if published_recently(videos[i].published_at, now) {
            out.push(videos[i].duplicate());
            assert(video_views(out@) =~= video_views(before).push(videos@[i as int]@));
        }
        i += 1;
    }
    proof {
        assert(video_views(videos@).take(videos@.len() as int) =~= video_views(videos@));
    }
    out
}

/// The times that `videos` are ordered by, in the order of the videos.
pub fn publish_times(videos: &Vec<Video>) -> (r: Vec<Timestamp>)
    ensures
        r@ == publish_keys(video_views(videos@)),
{
    let n: usize = videos.len();
    let mut keys: Vec<Timestamp> = Vec::new();
    let mut i: usize = 0;
    while i < n
        invariant
            i <= n == videos@.len(),
            keys@ == publish_keys(video_views(videos@)).take(i as int),
        decreases n - i,
    {
        let key = match videos[i].published_at {
            Some(at) => at,
            None => Timestamp { secs: 0, nanos: 0 },
        };
        keys.push(key);
        assert(keys@ =~= publish_keys(video_views(videos@)).take(i + 1));
        i += 1;
    }
    assert(keys@ =~= publish_keys(video_views(videos@)));
    keys
}

/// Orders videos from the earliest publish time to the latest.
pub fn sort_by_publish_time(videos: &Vec<Video>) -> (r: Vec<Video>)
    ensures
        video_views(r@) == by_publish_time(video_views(videos@)),
{
    let n: usize = videos.len();
    let keys = publish_times(videos);
    let order = ascending_order(&keys);
    proof {
        lemma_sorted_order(keys@);
    }
    let mut out: Vec<Video> = Vec::new();
    let mut k: usize = 0;
    while k < n
        invariant
            k <= n == videos@.len(),
            is_arrangement(order@, n as int),
            order@ == sorted_order(publish_keys(video_views(videos@))),
            video_views(out@) == by_publish_time(video_views(videos@)).take(k as int),
        decreases n - k,
    {
        let ghost before = out@;
        let from: usize = order[k];
        assert(from < n);
        out.push(videos[from].duplicate());
        proof {
            let views = video_views(videos@);
            assert(by_publish_time(views)[k as int] == views[from as int]);
            assert(video_views(out@) =~= video_views(before).push(videos@[from as int]@));
            assert(video_views(out@) =~= by_publish_time(views).take(k + 1));
        }
        k += 1;
    }
    assert(video_views(out@) =~= by_publish_time(video_views(videos@)));
    out
}

/// Reads one fetched page, seen from `now`, and says why where that fails.
pub fn read_page(fetched: &FetchedPage, now: Timestamp) -> (r: Result<Vec<Video>, Error>)
    ensures
        match r {
            Ok(videos) => page_outcome(*fetched, now) == Ok::<Seq<VideoView>, Error>(
                video_views(videos@),
            ),
            Err(e) => page_outcome(*fetched, now) == Err::<Seq<VideoView>, Error>(e),
        },
{
    reveal(page_outcome);
    match &fetched.page {
        Some(text) => {
            let channel = fetched.channel.channel();
            parse_channel_videos(&channel, text.as_str(), now)
        },
        None => Err(Error::NetworkFailure),
    }
}

/// Reads the videos of one fetched page, seen from `now`; none where that fails.
pub fn videos_of_page(fetched: &FetchedPage, now: Timestamp) -> (r: Vec<Video>)
    ensures
        video_views(r@) == page_videos(*fetched, now),
{
    match read_page(fetched, now) {
        Ok(videos) => videos,
        Err(_) => {
            let none: Vec<Video> = Vec::new();
            assert(video_views(none@) =~= Seq::<VideoView>::empty());
            none
        },
    }
}

/// Reads the videos of every fetched page, seen from `now`. A page that was not
/// fetched or cannot be read gives no videos and does not stop the others.
pub fn collect_videos(pages: &Vec<FetchedPage>, now: Timestamp) -> (r: Vec<Video>)
    ensures
        video_views(r@) == collected(pages@, now),
{
    let mut out: Vec<Video> = Vec::new();
    let mut i: usize = 0;
    while i < pages.len()
        invariant
            i <= pages@.len(),
            video_views(out@) == collected(pages@.take(i as int), now),
        decreases pages@.len() - i,
    {
        proof {
            assert(pages@.take(i + 1).drop_last() =~= pages@.take(i as int));
        }
        let ghost before = out@;
        let mut videos = videos_of_page(&pages[i], now);
        let ghost added = videos@;
        out.append(&mut videos);
        assert(video_views(out@) =~= video_views(before) + video_views(added));
        i += 1;
    }
    proof {
        assert(pages@.take(pages@.len() as int) =~= pages@);
    }
    out
}

/// One aggregation run: reads the videos of every fetched page, keeps those
/// published within seven days before `now`, and orders them from the earliest
/// to the latest.
pub fn update_feed(pages: &Vec<FetchedPage>, now: Timestamp) -> (r: Vec<Video>)
    ensures
        video_views(r@) == spec_update_feed(pages@, now),
{
    let all = collect_videos(pages, now);
    let kept = keep_recent(&all, now);
    sort_by_publish_time(&kept)
}

/// Every video that the filter keeps is recent, and a recent video of the list is kept.
pub proof fn lemma_recent(videos: Seq<VideoView>, now: Timestamp)
    ensures
        forall|k: int|
            0 <= k < recent(videos, now).len() ==> is_recent(
                (#[trigger] recent(videos, now)[k]).published_at,
                now,
            ) && videos.contains(recent(videos, now)[k]),
        forall|i: int|
            0 <= i < videos.len() && is_recent((#[trigger] videos[i]).published_at, now) ==> recent(
                videos,
                now,
            ).contains(videos[i]),
        recent(videos, now).len() <= videos.len(),
    decreases videos.len(),
{
    if videos.len() > 0 {
        let shorter = videos.drop_last();
        lemma_recent(shorter, now);
        let kept = recent(videos, now);
        let kept_before = recent(shorter, now);
        assert forall|k: int| 0 <= k < kept.len() implies is_recent(
            (#[trigger] kept[k]).published_at,
            now,
        ) && videos.contains(kept[k]) by {
            if k < kept_before.len() {
                assert(kept[k] == kept_before[k]);
                assert(shorter.contains(kept_before[k]));
                let i = choose|i: int| 0 <= i < shorter.len() && shorter[i] == kept_before[k];
                assert(videos[i] == kept[k]);
            } else {
                assert(kept[k] == videos.last());
                assert(videos[videos.len() - 1] == kept[k]);
            }
        }
        assert forall|i: int|
            0 <= i < videos.len() && is_recent((#[trigger] videos[i]).published_at, now) implies kept.contains(
            videos[i],
        ) by {
            if i < shorter.len() {
                assert(shorter[i] == videos[i]);
                assert(kept_before.contains(shorter[i]));
                let k = choose|k: int| 0 <= k < kept_before.len() && kept_before[k] == shorter[i];
                assert(kept[k] == videos[i]);
            } else {
                assert(kept[kept.len() - 1] == videos[i]);
            }
        }
    }
}

/// Ordering by publish time keeps every video exactly once and puts no video
/// before one that was published earlier.
pub proof fn lemma_by_publish_time(videos: Seq<VideoView>)
    requires
        videos.len() <= usize::MAX,
    ensures
        by_publish_time(videos).len() == videos.len(),
        is_arrangement(sorted_order(publish_keys(videos)), videos.len() as int),
        forall|i: int, j: int|
            0 <= i < j < videos.len() ==> publish_key(#[trigger] by_publish_time(videos)[i]).le(
                publish_key(#[trigger] by_publish_time(videos)[j]),
            ),
{
    let keys = publish_keys(videos);
    let order = sorted_order(keys);
    lemma_sorted_order(keys);
    assert forall|i: int, j: int| 0 <= i < j < videos.len() implies publish_key(
        #[trigger] by_publish_time(videos)[i],
    ).le(publish_key(#[trigger] by_publish_time(videos)[j])) by {
        let a = order[i];
        let b = order[j];
        assert(keys[a as int] == publish_key(videos[a as int]));
        assert(keys[b as int] == publish_key(videos[b as int]));
    }
}

} // verus!
