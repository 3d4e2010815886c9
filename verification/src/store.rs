//! The subscriptions and the feed: at most one subscription per channel, and a feed
//! that is read back joined with the subscriptions, latest first.

use vstd::prelude::*;
use vstd::string::*;
use crate::feed::{
    publish_key, publish_keys, publish_times, spec_update_feed, update_feed, FetchedPage,
};
use crate::order::{ascending_order, is_arrangement, lemma_sorted_order, sorted_order};
use crate::types::{
    channel_named, current_time, record_of, video_views, Channel, ChannelDB, ContentItem,
    ContentView, FeedRecord, FeedRecordView, SubscriptionView, Timestamp, Video, VideoView,
};
use crate::youtube::download::{absolute_url, normalize_url};

verus! {

/// How many videos the feed shows.
pub const FEED_LIMIT: usize = 10;

/// How a request to subscribe ended.
#[derive(Clone, Copy, Debug, PartialEq, Eq, Structural)]
pub enum SubscribeStatus {
    /// The channel was added.
    Subscribed,
    /// The channel was there already; nothing changed.
    AlreadySubscribed,
    /// The store could not be written.
    Failed,
}

/// How a request to unsubscribe ended.
#[derive(Clone, Copy, Debug, PartialEq, Eq, Structural)]
pub enum UnsubscribeStatus {
    /// The channel was taken out.
    Unsubscribed,
    /// The channel was not there; nothing changed.
    NotSubscribed,
    /// The store could not be written.
    Failed,
}

/// How writing a change of the subscriptions to disk ended.
#[derive(Clone, Copy, Debug, PartialEq, Eq, Structural)]
pub enum WriteOutcome {
    /// Nothing was written, because nothing had changed.
    Skipped,
    /// The change is on disk.
    Written,
    /// The disk holds the subscription already.
    Duplicate,
    /// The disk could not be written.
    Failed,
}

/// The status to report for a request to subscribe, and whether the store has
/// to take the subscription back. Where the store added the subscription, the
/// write decides: written, it is `Subscribed`; already on disk, it is
/// `AlreadySubscribed` and the store keeps it; failed, it is `Failed` and the
/// store takes it back. Where the store added nothing, its own status stands.
pub open spec fn spec_settle_subscribe(decided: SubscribeStatus, written: WriteOutcome) -> (
    SubscribeStatus,
    bool,
) {
    match (decided, written) {
        (SubscribeStatus::Subscribed, WriteOutcome::Duplicate) => (
            SubscribeStatus::AlreadySubscribed,
            false,
        ),
        (SubscribeStatus::Subscribed, WriteOutcome::Failed) => (SubscribeStatus::Failed, true),
        _ => (decided, false),
    }
}

/// The status to report for a request to unsubscribe, and whether the store has
/// to put the subscription back. Where the store took the subscription out and
/// the write failed, it is `Failed` and the store puts it back. In every other
/// case the store's own status stands.
pub open spec fn spec_settle_unsubscribe(decided: UnsubscribeStatus, written: WriteOutcome) -> (
    UnsubscribeStatus,
    bool,
) {
    match (decided, written) {
        (UnsubscribeStatus::Unsubscribed, WriteOutcome::Failed) => (UnsubscribeStatus::Failed, true),
        _ => (decided, false),
    }
}

/// Settles a request to subscribe once the write to disk has ended.
pub fn settle_subscribe(decided: SubscribeStatus, written: WriteOutcome) -> (r: (
    SubscribeStatus,
    bool,
))
    ensures
        r == spec_settle_subscribe(decided, written),
{
    match (decided, written) {
        (SubscribeStatus::Subscribed, WriteOutcome::Duplicate) => (
            SubscribeStatus::AlreadySubscribed,
            false,
        ),
        (SubscribeStatus::Subscribed, WriteOutcome::Failed) => (SubscribeStatus::Failed, true),
        _ => (decided, false),
    }
}

/// Settles a request to unsubscribe once the write to disk has ended.
pub fn settle_unsubscribe(decided: UnsubscribeStatus, written: WriteOutcome) -> (r: (
    UnsubscribeStatus,
    bool,
))
    ensures
        r == spec_settle_unsubscribe(decided, written),
{
    match (decided, written) {
        (UnsubscribeStatus::Unsubscribed, WriteOutcome::Failed) => (UnsubscribeStatus::Failed, true),
        _ => (decided, false),
    }
}

impl SubscribeStatus {
    /// What to tell the user.
    pub open spec fn spec_message(self) -> Seq<char> {
        match self {
            SubscribeStatus::Subscribed => "Subscribed"@,
            SubscribeStatus::AlreadySubscribed => "You're already subscribed to this channel."@,
            SubscribeStatus::Failed => "Some error occur on subscribe"@,
        }
    }

    /// What to tell the user.
    pub fn message(&self) -> (r: String)
        ensures
            r@ == self.spec_message(),
    {
        match self {
            SubscribeStatus::Subscribed => String::from_str("Subscribed"),
            SubscribeStatus::AlreadySubscribed => String::from_str(
                "You're already subscribed to this channel.",
            ),
            SubscribeStatus::Failed => String::from_str("Some error occur on subscribe"),
        }
    }
}

impl UnsubscribeStatus {
    /// What to tell the user.
    pub open spec fn spec_message(self) -> Seq<char> {
        match self {
            UnsubscribeStatus::Unsubscribed => "Unsubscribed"@,
            UnsubscribeStatus::NotSubscribed => "You're not subscribed to this channel"@,
            UnsubscribeStatus::Failed => "Some error occur on unsubscribe"@,
        }
    }

    /// What to tell the user.
    pub fn message(&self) -> (r: String)
        ensures
            r@ == self.spec_message(),
    {
        match self {
            UnsubscribeStatus::Unsubscribed => String::from_str("Unsubscribed"),
            UnsubscribeStatus::NotSubscribed => String::from_str(
                "You're not subscribed to this channel",
            ),
            UnsubscribeStatus::Failed => String::from_str("Some error occur on unsubscribe"),
        }
    }
}

/// The views of a list of subscriptions, in order.
pub open spec fn subscription_views(subscriptions: Seq<ChannelDB>) -> Seq<SubscriptionView> {
    Seq::new(subscriptions.len(), |i: int| subscriptions[i]@)
}

/// The views of a list of feed entries, in order.
pub open spec fn record_views(feed: Seq<FeedRecord>) -> Seq<FeedRecordView> {
    Seq::new(feed.len(), |i: int| feed[i]@)
}

/// Whether no two subscriptions are for the same channel.
pub open spec fn unique_ids(subscriptions: Seq<SubscriptionView>) -> bool {
    forall|i: int, j: int|
        0 <= i < j < subscriptions.len() ==> (#[trigger] subscriptions[i]).channel_id != (
        #[trigger] subscriptions[j]).channel_id
}

/// Whether there is a subscription for the channel `id`.
pub open spec fn is_subscribed(subscriptions: Seq<SubscriptionView>, id: Seq<char>) -> bool {
    exists|i: int| 0 <= i < subscriptions.len() && (#[trigger] subscriptions[i]).channel_id == id
}

/// Where the subscription for the channel `id` stands, given that there is one.
pub open spec fn position_of(subscriptions: Seq<SubscriptionView>, id: Seq<char>) -> int {
    choose|i: int| 0 <= i < subscriptions.len() && (#[trigger] subscriptions[i]).channel_id == id
}

/// The subscriptions after a request to subscribe: unchanged where the channel is
/// there already, and with the new subscription at the end otherwise.
pub open spec fn subscribed(
    subscriptions: Seq<SubscriptionView>,
    id: Seq<char>,
    username: Seq<char>,
) -> Seq<SubscriptionView> {
    if is_subscribed(subscriptions, id) {
        subscriptions
    } else {
        subscriptions.push(SubscriptionView { channel_id: id, channel_username: username })
    }
}

/// How a request to subscribe to `id` ends on these subscriptions.
pub open spec fn subscribe_status(
    subscriptions: Seq<SubscriptionView>,
    id: Seq<char>,
) -> SubscribeStatus {
    if is_subscribed(subscriptions, id) {
        SubscribeStatus::AlreadySubscribed
    } else {
        SubscribeStatus::Subscribed
    }
}

/// The subscriptions after a request to unsubscribe: without the subscription for
/// the channel, and unchanged where there is none.
pub open spec fn unsubscribed(subscriptions: Seq<SubscriptionView>, id: Seq<char>) -> Seq<
    SubscriptionView,
> {
    if is_subscribed(subscriptions, id) {
        subscriptions.remove(position_of(subscriptions, id))
    } else {
        subscriptions
    }
}

/// How a request to unsubscribe from `id` ends on these subscriptions.
pub open spec fn unsubscribe_status(
    subscriptions: Seq<SubscriptionView>,
    id: Seq<char>,
) -> UnsubscribeStatus {
    if is_subscribed(subscriptions, id) {
        UnsubscribeStatus::Unsubscribed
    } else {
        UnsubscribeStatus::NotSubscribed
    }
}

/// The video that a feed entry is read back as: joined with the subscription of its
/// channel, which gives the channel's name as it is now. An entry whose channel has
/// no subscription is not read back.
pub open spec fn joined_video(subscriptions: Seq<SubscriptionView>, record: FeedRecordView) -> Option<
    VideoView,
> {
    if is_subscribed(subscriptions, record.channel) {
        Some(
            VideoView {
                id: record.id,
                title: record.title,
                url: absolute_url(record.url),
                tag: Seq::empty(),
                channel: channel_named(
                    record.channel,
                    subscriptions[position_of(subscriptions, record.channel)].channel_username,
                ),
                published_at: Some(record.published_at),
            },
        )
    } else {
        None
    }
}

/// The feed joined with the subscriptions, in the order of the feed.
pub open spec fn joined(subscriptions: Seq<SubscriptionView>, feed: Seq<FeedRecordView>) -> Seq<
    VideoView,
>
    decreases feed.len(),
{
    if feed.len() == 0 {
        Seq::empty()
    } else {
        let before = joined(subscriptions, feed.drop_last());
        match joined_video(subscriptions, feed.last()) {
            Some(video) => before.push(video),
            None => before,
        }
    }
}

/// The `limit` latest of `videos`, the latest first. Among videos published at the
/// same time, the one that stands later in `videos` comes first.
pub open spec fn latest_first(videos: Seq<VideoView>, limit: int) -> Seq<VideoView> {
    let order = sorted_order(publish_keys(videos));
    let count = if limit < videos.len() {
        limit
    } else {
        videos.len() as int
    };
    Seq::new(count as nat, |k: int| videos[order[videos.len() - 1 - k] as int])
}

/// Whether `listed` runs from the latest publish time to the earliest, holds only
/// videos of `rows`, and leaves no video of `rows` out that was published later
/// than one it holds.
pub open spec fn is_latest_first(listed: Seq<VideoView>, rows: Seq<VideoView>) -> bool {
    &&& forall|i: int, j: int|
        0 <= i < j < listed.len() ==> publish_key(#[trigger] listed[j]).le(
            publish_key(#[trigger] listed[i]),
        )
    &&& forall|k: int| 0 <= k < listed.len() ==> rows.contains(#[trigger] listed[k])
    &&& forall|k: int, m: int|
        0 <= k < listed.len() && 0 <= m < rows.len() && !listed.contains(rows[m])
            ==> publish_key(#[trigger] rows[m]).le(publish_key(#[trigger] listed[k]))
}

/// The feed entries that a list of videos adds: one for each video that has a
/// publish time, in the order of the list.
pub open spec fn records_of(videos: Seq<VideoView>) -> Seq<FeedRecordView>
    decreases videos.len(),
{
    if videos.len() == 0 {
        Seq::empty()
    } else {
        let before = records_of(videos.drop_last());
        match record_of(videos.last()) {
            Some(record) => before.push(record),
            None => before,
        }
    }
}

/// The subscriptions and the feed.
#[derive(Clone, Debug, PartialEq, Eq)]
pub struct FeedStore {
    subscriptions: Vec<ChannelDB>,
    feed: Vec<FeedRecord>,
}

impl FeedStore {
    /// The subscriptions, in the order they were made.
    pub closed spec fn subscriptions(&self) -> Seq<SubscriptionView> {
        subscription_views(self.subscriptions@)
    }

    /// The feed entries, in the order they were added.
    pub closed spec fn feed(&self) -> Seq<FeedRecordView> {
        record_views(self.feed@)
    }

    /// The store's invariant: no channel is subscribed twice.
    pub open spec fn wf(&self) -> bool {
        unique_ids(self.subscriptions())
    }

    /// An empty store.
    pub fn new() -> (r: Self)
        ensures
            r.wf(),
            r.subscriptions() == Seq::<SubscriptionView>::empty(),
            r.feed() == Seq::<FeedRecordView>::empty(),
    {
        let r = FeedStore { subscriptions: Vec::new(), feed: Vec::new() };
        assert(r.subscriptions() =~= Seq::<SubscriptionView>::empty());
        assert(r.feed() =~= Seq::<FeedRecordView>::empty());
        r
    }

    /// Where the subscription for `id` stands, if there is one.
    fn find(&self, id: &str) -> (r: Option<usize>)
        requires
            self.wf(),
        ensures
            match r {
                Some(i) => is_subscribed(self.subscriptions(), id@) && i == position_of(
                    self.subscriptions(),
                    id@,
                ) && i < self.subscriptions@.len(),
                None => !is_subscribed(self.subscriptions(), id@),
            },
    {
        let wanted = id.to_owned();
        let mut i: usize = 0;
        while i < self.subscriptions.len()
            invariant
                i <= self.subscriptions@.len(),
                wanted@ == id@,
                self.wf(),
                forall|j: int| 0 <= j < i ==> (#[trigger] self.subscriptions()[j]).channel_id != id@,
            decreases self.subscriptions@.len() - i,
        {
            if self.subscriptions[i].channel_id == wanted {
                proof {
                    let subs = self.subscriptions();
                    assert(subs[i as int].channel_id == id@);
                    let chosen = position_of(subs, id@);
                    if chosen < i {
                        assert(subs[chosen].channel_id != subs[i as int].channel_id);
                    } else if chosen > i {
                        assert(subs[i as int].channel_id != subs[chosen].channel_id);
                    }
                }
                return Some(i);
            }
            i += 1;
        }
        None
    }

    /// Subscribes to the channel `channel_id` under the name `channel_username`.
    /// A channel that is subscribed already stays as it is.
    pub fn subscribe(&mut self, channel_id: &str, channel_username: &str) -> (r: SubscribeStatus)
        requires
            old(self).wf(),
        ensures
            final(self).wf(),
            final(self).subscriptions() == subscribed(
                old(self).subscriptions(),
                channel_id@,
                channel_username@,
            ),
            final(self).feed() == old(self).feed(),
            r == subscribe_status(old(self).subscriptions(), channel_id@),
            is_subscribed(final(self).subscriptions(), channel_id@),
    {
        proof {
            lemma_subscribed_unique(self.subscriptions(), channel_id@, channel_username@);
        }
        match self.find(channel_id) {
            Some(_) => SubscribeStatus::AlreadySubscribed,
            None => {
                let ghost before = self.subscriptions();
                self.subscriptions.push(
                    ChannelDB {
                        channel_id: channel_id.to_owned(),
                        channel_username: channel_username.to_owned(),
                    },
                );
                proof {
                    let added = SubscriptionView {
                        channel_id: channel_id@,
                        channel_username: channel_username@,
                    };
                    assert(self.subscriptions() =~= before.push(added));
                    lemma_subscribed_unique(before, channel_id@, channel_username@);
                }
                SubscribeStatus::Subscribed
            },
        }
    }

    /// Takes out the subscription for the channel `channel_id`, if there is one.
    /// The feed keeps its entries.
    pub fn unsubscribe(&mut self, channel_id: &str) -> (r: UnsubscribeStatus)
        requires
            old(self).wf(),
        ensures
            final(self).wf(),
            final(self).subscriptions() == unsubscribed(old(self).subscriptions(), channel_id@),
            final(self).feed() == old(self).feed(),
            r == unsubscribe_status(old(self).subscriptions(), channel_id@),
            !is_subscribed(final(self).subscriptions(), channel_id@),
    {
        match self.find(channel_id) {
            Some(i) => {
                let ghost before = self.subscriptions();
                self.subscriptions.remove(i);
                proof {
                    assert(self.subscriptions() =~= before.remove(i as int));
                    lemma_unsubscribed(before, channel_id@);
                }
                UnsubscribeStatus::Unsubscribed
            },
            None => UnsubscribeStatus::NotSubscribed,
        }
    }

    /// Adds one entry to the feed. The feed keeps what it is given: an entry for a
    /// video that is there already is added once more.
    pub fn record(&mut self, record: FeedRecord)
        ensures
            final(self).subscriptions() == old(self).subscriptions(),
            final(self).feed() == old(self).feed().push(record@),
    {
        let ghost before = self.feed();
        self.feed.push(record);
        assert(self.feed() =~= before.push(record@));
    }

    /// Adds an entry to the feed for each of `videos` that has a publish time.
    pub fn record_all(&mut self, videos: &Vec<Video>)
        ensures
            final(self).subscriptions() == old(self).subscriptions(),
            final(self).feed() == old(self).feed() + records_of(video_views(videos@)),
    {
        let mut i: usize = 0;
        assert(old(self).feed() + records_of(video_views(videos@).take(0)) =~= old(self).feed());
        while i < videos.len()
            invariant
                i <= videos@.len(),
                self.subscriptions() == old(self).subscriptions(),
                self.feed() == old(self).feed() + records_of(video_views(videos@).take(i as int)),
            decreases videos@.len() - i,
        {
            proof {
                assert(video_views(videos@).take(i + 1).drop_last() =~= video_views(videos@).take(
                    i as int,
                ));
            }
            let ghost before = records_of(video_views(videos@).take(i as int));
            match FeedRecord::from_video(&videos[i]) {
                Some(record) => {
                    self.record(record);
                    assert(self.feed() =~= old(self).feed() + before.push(record@));
                },
                None => {},
            }
            i += 1;
        }
        proof {
            assert(video_views(videos@).take(videos@.len() as int) =~= video_views(videos@));
        }
    }

    /// One aggregation run at time `now`: reads the fetched pages, keeps the videos
    /// published within the seven days before `now`, orders them from the earliest
    /// to the latest, adds them to the feed and hands them back.
    pub fn run_aggregation_at(&mut self, pages: &Vec<FetchedPage>, now: Timestamp) -> (r: Vec<Video>)
        ensures
            video_views(r@) == spec_update_feed(pages@, now),
            final(self).subscriptions() == old(self).subscriptions(),
            final(self).feed() == old(self).feed() + records_of(spec_update_feed(pages@, now)),
    {
        let videos = update_feed(pages, now);
        self.record_all(&videos);
        videos
    }

    /// One aggregation run at the current time, which is not before the epoch.
    pub fn run_aggregation(&mut self, pages: &Vec<FetchedPage>) -> (r: Vec<Video>)
        ensures
            final(self).subscriptions() == old(self).subscriptions(),
            exists|now: Timestamp|
                now.secs >= 0 && video_views(r@) == #[trigger] spec_update_feed(pages@, now)
                    && final(self).feed() == old(self).feed() + records_of(
                    spec_update_feed(pages@, now),
                ),
    {
        let now = current_time();
        self.run_aggregation_at(pages, now)
    }

    /// The pages to fetch for an aggregation run: one for each subscription, none
    /// of them fetched yet.
    pub fn pages_to_fetch(&self) -> (r: Vec<FetchedPage>)
        ensures
            r@.len() == self.subscriptions().len(),
            forall|i: int|
                0 <= i < r@.len() ==> (#[trigger] r@[i]).channel@ == self.subscriptions()[i]
                    && r@[i].page is None,
    {
        let mut out: Vec<FetchedPage> = Vec::new();
        let mut i: usize = 0;
        while i < self.subscriptions.len()
            invariant
                i <= self.subscriptions@.len(),
                out@.len() == i,
                forall|j: int|
                    0 <= j < i ==> (#[trigger] out@[j]).channel@ == self.subscriptions()[j]
                        && out@[j].page is None,
            decreases self.subscriptions@.len() - i,
        {
            out.push(FetchedPage { channel: self.subscriptions[i].duplicate(), page: None });
            i += 1;
        }
        out
    }

    /// The subscriptions, in the order they were made.
    pub fn list_subscriptions(&self) -> (r: Vec<ChannelDB>)
        ensures
            subscription_views(r@) == self.subscriptions(),
    {
        let mut out: Vec<ChannelDB> = Vec::new();
        let mut i: usize = 0;
        while i < self.subscriptions.len()
            invariant
                i <= self.subscriptions@.len(),
                subscription_views(out@) == self.subscriptions().take(i as int),
            decreases self.subscriptions@.len() - i,
        {
            let ghost before = out@;
            out.push(self.subscriptions[i].duplicate());
            proof {
                assert(subscription_views(out@) =~= subscription_views(before).push(
                    self.subscriptions@[i as int]@,
                ));
                assert(subscription_views(out@) =~= self.subscriptions().take(i + 1));
            }
            i += 1;
        }
        assert(subscription_views(out@) =~= self.subscriptions());
        out
    }

    /// The feed joined with the subscriptions, in the order of the feed.
    fn join(&self) -> (r: Vec<Video>)
        requires
            self.wf(),
        ensures
            video_views(r@) == joined(self.subscriptions(), self.feed()),
    {
        let mut out: Vec<Video> = Vec::new();
        let mut i: usize = 0;
        while i < self.feed.len()
            invariant
                i <= self.feed@.len(),
                self.wf(),
                video_views(out@) == joined(self.subscriptions(), self.feed().take(i as int)),
            decreases self.feed@.len() - i,
        {
            proof {
                assert(self.feed().take(i + 1).drop_last() =~= self.feed().take(i as int));
                assert(self.feed().take(i + 1).last() == self.feed@[i as int]@);
            }
            let record = &self.feed[i];
            let ghost before = out@;
            match self.find(record.channel.as_str()) {
                Some(at) => {
                    let owner = &self.subscriptions[at];
                    assert(self.subscriptions()[at as int] == owner@);
                    let video = Video {
                        id: record.id.clone(),
                        title: record.title.clone(),
                        url: normalize_url(record.url.as_str()),
                        tag: String::new(),
                        channel: Channel::new(
                            record.channel.as_str(),
                            owner.channel_username.as_str(),
                        ),
                        published_at: Some(record.published_at),
                    };
                    out.push(video);
                    assert(video_views(out@) =~= video_views(before).push(video@));
                },
                None => {},
            }
            i += 1;
        }
        proof {
            assert(self.feed().take(self.feed@.len() as int) =~= self.feed());
        }
        out
    }

    /// The `limit` latest videos of the feed, the latest first, each with the name
    /// its channel is subscribed under now.
    pub fn list_feed(&self, limit: usize) -> (r: Vec<Video>)
        requires
            self.wf(),
        ensures
            video_views(r@) == latest_first(joined(self.subscriptions(), self.feed()), limit as int),
            r@.len() <= limit,
            r@.len() <= self.feed().len(),
            is_latest_first(video_views(r@), joined(self.subscriptions(), self.feed())),
    {
        proof {
            lemma_joined(self.subscriptions(), self.feed());
        }
        let rows = self.join();
        let n: usize = rows.len();
        let ghost views = video_views(rows@);
        let keys = publish_times(&rows);
        let order = ascending_order(&keys);
        proof {
            lemma_sorted_order(keys@);
            lemma_latest_first(views, limit as int);
        }
        let count: usize = if limit < n {
            limit
        } else {
            n
        };
        let mut out: Vec<Video> = Vec::new();
        let mut k: usize = 0;
        while k < count
            invariant
                k <= count <= n == rows@.len(),
                count == if limit < n { limit } else { n },
                views == video_views(rows@),
                is_arrangement(order@, n as int),
                order@ == sorted_order(publish_keys(views)),
                video_views(out@) == latest_first(views, limit as int).take(k as int),
            decreases count - k,
        {
            let ghost before = out@;
            let from: usize = order[n - 1 - k];
            assert(from < n);
            out.push(rows[from].duplicate());
            proof {
                assert(latest_first(views, limit as int)[k as int] == views[from as int]);
                assert(video_views(out@) =~= video_views(before).push(rows@[from as int]@));
                assert(video_views(out@) =~= latest_first(views, limit as int).take(k + 1));
            }
            k += 1;
        }
        assert(video_views(out@) =~= latest_first(views, limit as int));
        out
    }
}

/// `video` with `tag` as its status note.
pub open spec fn tagged(video: VideoView, tag: Seq<char>) -> VideoView {
    VideoView {
        id: video.id,
        title: video.title,
        url: video.url,
        tag,
        channel: video.channel,
        published_at: video.published_at,
    }
}

impl Video {
    /// Subscribes to this video's channel and notes on the video how that went.
    pub fn subscribe(&mut self, store: &mut FeedStore)
        requires
            old(store).wf(),
        ensures
            final(store).wf(),
            final(store).subscriptions() == subscribed(
                old(store).subscriptions(),
                old(self)@.channel.id,
                old(self)@.channel.username,
            ),
            final(store).feed() == old(store).feed(),
            final(self)@ == tagged(
                old(self)@,
                subscribe_status(old(store).subscriptions(), old(self)@.channel.id).spec_message(),
            ),
    {
        let status = store.subscribe(self.channel.id.as_str(), self.channel.username.as_str());
        self.tag = status.message();
    }

    /// Unsubscribes from this video's channel and notes on the video how that went.
    pub fn unsubscribe(&mut self, store: &mut FeedStore)
        requires
            old(store).wf(),
        ensures
            final(store).wf(),
            final(store).subscriptions() == unsubscribed(
                old(store).subscriptions(),
                old(self)@.channel.id,
            ),
            final(store).feed() == old(store).feed(),
            final(self)@ == tagged(
                old(self)@,
                unsubscribe_status(old(store).subscriptions(), old(self)@.channel.id).spec_message(),
            ),
    {
        let status = store.unsubscribe(self.channel.id.as_str());
        self.tag = status.message();
    }
}

impl ContentItem {
    /// Subscribes to the channel of a video and notes on it how that went. Channels
    /// and playlists are left as they are, and so is the store.
    pub fn subscribe(&mut self, store: &mut FeedStore)
        requires
            old(store).wf(),
        ensures
            final(store).wf(),
            final(store).feed() == old(store).feed(),
            match old(self)@ {
                ContentView::Video(video) => {
                    &&& final(store).subscriptions() == subscribed(
                        old(store).subscriptions(),
                        video.channel.id,
                        video.channel.username,
                    )
                    &&& final(self)@ == ContentView::Video(
                        tagged(
                            video,
                            subscribe_status(
                                old(store).subscriptions(),
                                video.channel.id,
                            ).spec_message(),
                        ),
                    )
                },
                _ => final(store).subscriptions() == old(store).subscriptions() && final(self)@
                    == old(self)@,
            },
    {
        match self {
            ContentItem::Video(video) => video.subscribe(store),
            _ => {},
        }
    }

    /// Unsubscribes from the channel of a video and notes on it how that went.
    /// Channels and playlists are left as they are, and so is the store.
    pub fn unsubscribe(&mut self, store: &mut FeedStore)
        requires
            old(store).wf(),
        ensures
            final(store).wf(),
            final(store).feed() == old(store).feed(),
            match old(self)@ {
                ContentView::Video(video) => {
                    &&& final(store).subscriptions() == unsubscribed(
                        old(store).subscriptions(),
                        video.channel.id,
                    )
                    &&& final(self)@ == ContentView::Video(
                        tagged(
                            video,
                            unsubscribe_status(
                                old(store).subscriptions(),
                                video.channel.id,
                            ).spec_message(),
                        ),
                    )
                },
                _ => final(store).subscriptions() == old(store).subscriptions() && final(self)@
                    == old(self)@,
            },
    {
        match self {
            ContentItem::Video(video) => video.unsubscribe(store),
            _ => {},
        }
    }
}

/// Subscribing keeps the subscriptions free of doubles.
pub proof fn lemma_subscribed_unique(
    subscriptions: Seq<SubscriptionView>,
    id: Seq<char>,
    username: Seq<char>,
)
    requires
        unique_ids(subscriptions),
    ensures
        unique_ids(subscribed(subscriptions, id, username)),
        is_subscribed(subscribed(subscriptions, id, username), id),
{
    let after = subscribed(subscriptions, id, username);
    if is_subscribed(subscriptions, id) {
    } else {
        assert(after[after.len() - 1].channel_id == id);
        assert forall|i: int, j: int| 0 <= i < j < after.len() implies (#[trigger] after[i]).channel_id
            != (#[trigger] after[j]).channel_id by {
            if j < subscriptions.len() {
                assert(after[i] == subscriptions[i] && after[j] == subscriptions[j]);
            } else {
                assert(after[i] == subscriptions[i]);
            }
        }
    }
}

/// Unsubscribing keeps the subscriptions free of doubles and leaves none for the channel.
pub proof fn lemma_unsubscribed(subscriptions: Seq<SubscriptionView>, id: Seq<char>)
    requires
        unique_ids(subscriptions),
    ensures
        unique_ids(unsubscribed(subscriptions, id)),
        !is_subscribed(unsubscribed(subscriptions, id), id),
{
    let after = unsubscribed(subscriptions, id);
    if is_subscribed(subscriptions, id) {
        let at = position_of(subscriptions, id);
        assert forall|i: int, j: int| 0 <= i < j < after.len() implies (#[trigger] after[i]).channel_id
            != (#[trigger] after[j]).channel_id by {
            let a = if i < at { i } else { i + 1 };
            let b = if j < at { j } else { j + 1 };
            assert(after[i] == subscriptions[a] && after[j] == subscriptions[b]);
        }
        assert forall|i: int| 0 <= i < after.len() implies (#[trigger] after[i]).channel_id != id by {
            let a = if i < at { i } else { i + 1 };
            assert(after[i] == subscriptions[a]);
            if a < at {
                assert(subscriptions[a].channel_id != subscriptions[at].channel_id);
            } else {
                assert(subscriptions[at].channel_id != subscriptions[a].channel_id);
            }
        }
    }
}

/// Subscribing to a channel twice leaves exactly one subscription for it: the
/// second request changes nothing and reports that the channel is there already.
pub proof fn lemma_subscribe_twice(
    subscriptions: Seq<SubscriptionView>,
    id: Seq<char>,
    first: Seq<char>,
    second: Seq<char>,
)
    requires
        unique_ids(subscriptions),
    ensures
        ({
            let once = subscribed(subscriptions, id, first);
            let twice = subscribed(once, id, second);
            &&& twice == once
            &&& subscribe_status(once, id) == SubscribeStatus::AlreadySubscribed
            &&& is_subscribed(twice, id)
            &&& forall|i: int, j: int|
                0 <= i < twice.len() && 0 <= j < twice.len() && (#[trigger] twice[i]).channel_id
                    == id && (#[trigger] twice[j]).channel_id == id ==> i == j
        }),
{
    lemma_subscribed_unique(subscriptions, id, first);
    let once = subscribed(subscriptions, id, first);
    assert forall|i: int, j: int|
        0 <= i < once.len() && 0 <= j < once.len() && (#[trigger] once[i]).channel_id == id && (
        #[trigger] once[j]).channel_id == id implies i == j by {
        if i < j {
            assert(once[i].channel_id != once[j].channel_id);
        } else if j < i {
            assert(once[j].channel_id != once[i].channel_id);
        }
    }
}

/// Unsubscribing from a channel that is not subscribed changes nothing and
/// reports that it was not there.
pub proof fn lemma_unsubscribe_absent(subscriptions: Seq<SubscriptionView>, id: Seq<char>)
    requires
        !is_subscribed(subscriptions, id),
    ensures
        unsubscribed(subscriptions, id) == subscriptions,
        unsubscribe_status(subscriptions, id) == UnsubscribeStatus::NotSubscribed,
{
}

/// What is read back from the feed holds at most `limit` videos, none before one
/// that was published later, and each of them is an entry of the joined feed.
pub proof fn lemma_latest_first(videos: Seq<VideoView>, limit: int)
    requires
        0 <= limit,
        videos.len() <= usize::MAX,
    ensures
        latest_first(videos, limit).len() <= limit,
        latest_first(videos, limit).len() <= videos.len(),
        forall|i: int, j: int|
            0 <= i < j < latest_first(videos, limit).len() ==> publish_key(
                #[trigger] latest_first(videos, limit)[j],
            ).le(publish_key(#[trigger] latest_first(videos, limit)[i])),
        forall|k: int|
            0 <= k < latest_first(videos, limit).len() ==> videos.contains(
                #[trigger] latest_first(videos, limit)[k],
            ),
        forall|k: int, m: int|
            0 <= k < latest_first(videos, limit).len() && 0 <= m < videos.len()
                && !latest_first(videos, limit).contains(videos[m]) ==> publish_key(
                #[trigger] videos[m],
            ).le(publish_key(#[trigger] latest_first(videos, limit)[k])),
{
    let keys = publish_keys(videos);
    let order = sorted_order(keys);
    let n = videos.len() as int;
    let out = latest_first(videos, limit);
    lemma_sorted_order(keys);
    assert forall|i: int, j: int| 0 <= i < j < out.len() implies publish_key(#[trigger] out[j]).le(
        publish_key(#[trigger] out[i]),
    ) by {
        let a = order[n - 1 - j];
        let b = order[n - 1 - i];
        assert(keys[a as int] == publish_key(videos[a as int]));
        assert(keys[b as int] == publish_key(videos[b as int]));
    }
    assert forall|k: int| 0 <= k < out.len() implies videos.contains(#[trigger] out[k]) by {
        let a = order[n - 1 - k];
        assert(videos[a as int] == out[k]);
    }
    assert forall|k: int, m: int|
        0 <= k < out.len() && 0 <= m < n && !out.contains(videos[m]) implies publish_key(
        #[trigger] videos[m],
    ).le(publish_key(#[trigger] out[k])) by {
        assert(order.contains(m as usize));
        let p = choose|p: int| 0 <= p < order.len() && order[p] == m as usize;
        if p >= n - out.len() {
            assert(out[n - 1 - p] == videos[m]);
        } else {
            let a = order[p];
            let b = order[n - 1 - k];
            assert(keys[a as int] == publish_key(videos[a as int]));
            assert(keys[b as int] == publish_key(videos[b as int]));
        }
    }
}

/// What is read back from the feed is at most `limit` videos, the latest first,
/// each made from a feed entry whose channel is subscribed and named as that
/// subscription names it.
pub proof fn lemma_list_feed(
    subscriptions: Seq<SubscriptionView>,
    feed: Seq<FeedRecordView>,
    limit: int,
)
    requires
        0 <= limit,
        feed.len() <= usize::MAX,
    ensures
        ({
            let listed = latest_first(joined(subscriptions, feed), limit);
            &&& listed.len() <= limit
            &&& forall|i: int, j: int|
                0 <= i < j < listed.len() ==> publish_key(#[trigger] listed[j]).le(
                    publish_key(#[trigger] listed[i]),
                )
            &&& forall|k: int|
                0 <= k < listed.len() ==> exists|m: int|
                    0 <= m < feed.len() && is_subscribed(subscriptions, (#[trigger] feed[m]).channel)
                        && joined_video(subscriptions, feed[m]) == Some(#[trigger] listed[k])
        }),
{
    let rows = joined(subscriptions, feed);
    let listed = latest_first(rows, limit);
    lemma_joined(subscriptions, feed);
    lemma_latest_first(rows, limit);
    assert forall|k: int| 0 <= k < listed.len() implies exists|m: int|
        0 <= m < feed.len() && is_subscribed(subscriptions, (#[trigger] feed[m]).channel)
            && joined_video(subscriptions, feed[m]) == Some(#[trigger] listed[k]) by {
        assert(rows.contains(listed[k]));
        let at = choose|at: int| 0 <= at < rows.len() && rows[at] == listed[k];
        let m = choose|m: int|
            0 <= m < feed.len() && joined_video(subscriptions, #[trigger] feed[m]) == Some(rows[at]);
        assert(is_subscribed(subscriptions, feed[m].channel));
    }
}

/// Every video of the joined feed comes from a feed entry whose channel is
/// subscribed, and carries the name that channel is subscribed under.
pub proof fn lemma_joined(subscriptions: Seq<SubscriptionView>, feed: Seq<FeedRecordView>)
    ensures
        joined(subscriptions, feed).len() <= feed.len(),
        forall|k: int|
            0 <= k < joined(subscriptions, feed).len() ==> exists|m: int|
                0 <= m < feed.len() && joined_video(subscriptions, #[trigger] feed[m]) == Some(
                    #[trigger] joined(subscriptions, feed)[k],
                ),
    decreases feed.len(),
{
    if feed.len() > 0 {
        let shorter = feed.drop_last();
        lemma_joined(subscriptions, shorter);
        let all = joined(subscriptions, feed);
        let before = joined(subscriptions, shorter);
        assert forall|k: int| 0 <= k < all.len() implies exists|m: int|
            0 <= m < feed.len() && joined_video(subscriptions, #[trigger] feed[m]) == Some(
                #[trigger] all[k],
            ) by {
            if k < before.len() {
                assert(all[k] == before[k]);
                let m = choose|m: int|
                    0 <= m < shorter.len() && joined_video(subscriptions, #[trigger] shorter[m])
                        == Some(before[k]);
                assert(feed[m] == shorter[m]);
            } else {
                assert(joined_video(subscriptions, feed[feed.len() - 1]) == Some(all[k]));
            }
        }
    }
}

} // verus!
