//! The typed content model: channels, videos, playlists, and the rows kept for the feed.

use vstd::prelude::*;
use vstd::string::*;

verus! {

/// A point in time: whole seconds since the Unix epoch and the nanoseconds within that second.
#[derive(Clone, Copy, Debug, PartialEq, Eq, Structural)]
pub struct Timestamp {
    pub secs: i64,
    pub nanos: u32,
}

impl Timestamp {
    /// Whether `self` is not later than `other`.
    pub open spec fn spec_le(self, other: Timestamp) -> bool {
        self.secs < other.secs || (self.secs == other.secs && self.nanos <= other.nanos)
    }

    /// Whether `self` is earlier than `other`.
    pub open spec fn spec_lt(self, other: Timestamp) -> bool {
        self.secs < other.secs || (self.secs == other.secs && self.nanos < other.nanos)
    }

    /// Whether `self` is not later than `other`.
    #[verifier::when_used_as_spec(spec_le)]
    pub fn le(self, other: Timestamp) -> (r: bool)
        ensures
            r == self.spec_le(other),
    {
        self.secs < other.secs || (self.secs == other.secs && self.nanos <= other.nanos)
    }

    /// Whether `self` is earlier than `other`.
    #[verifier::when_used_as_spec(spec_lt)]
    pub fn lt(self, other: Timestamp) -> (r: bool)
        ensures
            r == self.spec_lt(other),
    {
        self.secs < other.secs || (self.secs == other.secs && self.nanos < other.nanos)
    }
}

/// `chrono::Utc::now`, read through `DateTime::timestamp` and
/// `DateTime::timestamp_subsec_nanos`. The clock's reading is made from the time
/// that has passed since the epoch, so it is not before the epoch and its
/// nanoseconds stay within one second; nothing else is promised of it.
#[verifier::external_body]
pub(crate) fn current_time() -> (r: Timestamp)
    ensures
        r.secs >= 0,
        r.nanos < 1_000_000_000,
{
    let now = chrono::Utc::now();
    Timestamp { secs: now.timestamp(), nanos: now.timestamp_subsec_nanos() }
}

/// The text that `chrono` prints for the time `secs` seconds and `nanos`
/// nanoseconds after the epoch, in UTC; `None` where `chrono` has no such time.
pub uninterp spec fn timestamp_text(secs: int, nanos: int) -> Option<Seq<char>>;

/// The time that `chrono` reads from a text, by its relaxed RFC 3339 rules;
/// `None` where it reads none.
pub uninterp spec fn timestamp_parse(text: Seq<char>) -> Option<Timestamp>;

/// `chrono::DateTime::from_timestamp`, then the `to_string` of `DateTime<Utc>`.
/// The contract only names the result: it depends on the two numbers alone.
#[verifier::external_body]
fn print_timestamp(secs: i64, nanos: u32) -> (r: Option<String>)
    ensures
        match r {
            Some(text) => timestamp_text(secs as int, nanos as int) == Some(text@),
            None => timestamp_text(secs as int, nanos as int) is None,
        },
{
    chrono::DateTime::from_timestamp(secs, nanos).map(|time| time.to_string())
}

/// `str::parse` at `chrono::DateTime<chrono::Utc>`, read back through
/// `DateTime::timestamp` and `DateTime::timestamp_subsec_nanos`. The contract only
/// names the result: it depends on the text alone.
#[verifier::external_body]
fn read_timestamp(text: &str) -> (r: Option<Timestamp>)
    ensures
        r == timestamp_parse(text@),
{
    let time = text.parse::<chrono::DateTime<chrono::Utc>>().ok()?;
    Some(Timestamp { secs: time.timestamp(), nanos: time.timestamp_subsec_nanos() })
}

impl Timestamp {
    /// The text this time is stored as, where it has one.
    pub fn format(&self) -> (r: Option<String>)
        ensures
            match r {
                Some(text) => timestamp_text(self.secs as int, self.nanos as int) == Some(text@),
                None => timestamp_text(self.secs as int, self.nanos as int) is None,
            },
    {
        print_timestamp(self.secs, self.nanos)
    }

    /// The time that a stored text names, where it names one.
    pub fn parse(text: &str) -> (r: Option<Timestamp>)
        ensures
            r == timestamp_parse(text@),
    {
        read_timestamp(text)
    }
}

/// The address every channel, video and playlist link is made absolute with.
pub open spec fn site() -> Seq<char> {
    "https://www.youtube.com"@
}

/// A channel of the site. `tag` is a passing status note for display.
#[derive(Clone, Debug, PartialEq, Eq)]
pub struct Channel {
    pub id: String,
    pub username: String,
    pub url: String,
    pub tag: String,
}

/// What a `Channel` holds, as plain text.
pub struct ChannelView {
    pub id: Seq<char>,
    pub username: Seq<char>,
    pub url: Seq<char>,
    pub tag: Seq<char>,
}

impl View for Channel {
    type V = ChannelView;

    open spec fn view(&self) -> ChannelView {
        ChannelView { id: self.id@, username: self.username@, url: self.url@, tag: self.tag@ }
    }
}

/// The channel with the given id and name: its address is the site's, a slash and
/// the id; its tag is empty.
pub open spec fn channel_named(id: Seq<char>, username: Seq<char>) -> ChannelView {
    ChannelView { id, username, url: site() + seq!['/'] + id, tag: Seq::empty() }
}

impl Channel {
    /// A channel with the given id and name, addressed under the site by its id.
    pub fn new(id: &str, username: &str) -> (r: Self)
        ensures
            r@ == channel_named(id@, username@),
    {
        let url = String::from_str("https://www.youtube.com").concat("/").concat(id);
        proof {
            reveal_strlit("/");
            assert("/"@ =~= seq!['/']);
        }
        Channel { id: id.to_owned(), username: username.to_owned(), url, tag: String::new() }
    }

    /// A copy of this channel.
    pub fn duplicate(&self) -> (r: Self)
        ensures
            r@ == self@,
    {
        Channel {
            id: self.id.clone(),
            username: self.username.clone(),
            url: self.url.clone(),
            tag: self.tag.clone(),
        }
    }
}

/// A video. `published_at` is `None` while no publish time is known.
#[derive(Clone, Debug, PartialEq, Eq)]
pub struct Video {
    pub id: String,
    pub title: String,
    pub url: String,
    pub tag: String,
    pub channel: Channel,
    pub published_at: Option<Timestamp>,
}

/// What a `Video` holds, as plain values.
pub struct VideoView {
    pub id: Seq<char>,
    pub title: Seq<char>,
    pub url: Seq<char>,
    pub tag: Seq<char>,
    pub channel: ChannelView,
    pub published_at: Option<Timestamp>,
}

impl View for Video {
    type V = VideoView;

    open spec fn view(&self) -> VideoView {
        VideoView {
            id: self.id@,
            title: self.title@,
            url: self.url@,
            tag: self.tag@,
            channel: self.channel@,
            published_at: self.published_at,
        }
    }
}

/// The lines that describe a video in full: its id, title and address, its
/// channel, its publish time where that has a text, and its tag where it has one.
pub open spec fn video_description(video: VideoView) -> Seq<char> {
    let head = "Id: "@ + video.id + "\nTitle: "@ + video.title + "\nUrl: "@ + video.url
        + "\nChannel:\n  Id: "@ + video.channel.id + "\n  Username: "@ + video.channel.username
        + "\n  Url: "@ + video.channel.url + "\n"@;
    let published = match video.published_at {
        Some(at) => match timestamp_text(at.secs as int, at.nanos as int) {
            Some(text) => "Published at: "@ + text + "\n"@,
            None => Seq::empty(),
        },
        None => Seq::empty(),
    };
    let tag = if video.tag.len() > 0 {
        "Tag: "@ + video.tag + "\n"@
    } else {
        Seq::empty()
    };
    head + published + tag
}

impl Video {
    /// The lines that describe this video in full.
    pub fn describe(&self) -> (r: String)
        ensures
            r@ == video_description(self@),
    {
        let mut out = String::from_str("Id: ").concat(self.id.as_str()).concat("\nTitle: ").concat(
            self.title.as_str(),
        ).concat("\nUrl: ").concat(self.url.as_str()).concat("\nChannel:\n  Id: ").concat(
            self.channel.id.as_str(),
        ).concat("\n  Username: ").concat(self.channel.username.as_str()).concat(
            "\n  Url: ",
        ).concat(self.channel.url.as_str()).concat("\n");
        let ghost head = out@;
        match self.published_at {
            Some(at) => match at.format() {
                Some(text) => {
                    out = out.concat("Published at: ").concat(text.as_str()).concat("\n");
                    assert(out@ =~= head + ("Published at: "@ + text@ + "\n"@));
                },
                None => {
                    assert(out@ =~= head + Seq::<char>::empty());
                },
            },
            None => {
                assert(out@ =~= head + Seq::<char>::empty());
            },
        }
        let ghost body = out@;
        if self.tag.as_str().unicode_len() > 0 {
            out = out.concat("Tag: ").concat(self.tag.as_str()).concat("\n");
            assert(out@ =~= body + ("Tag: "@ + self.tag@ + "\n"@));
        } else {
            assert(out@ =~= body + Seq::<char>::empty());
        }
        out
    }

    /// A copy of this video.
    pub fn duplicate(&self) -> (r: Self)
        ensures
            r@ == self@,
    {
        Video {
            id: self.id.clone(),
            title: self.title.clone(),
            url: self.url.clone(),
            tag: self.tag.clone(),
            channel: self.channel.duplicate(),
            published_at: self.published_at,
        }
    }
}

/// Who put a playlist together.
#[derive(Clone, Debug, PartialEq, Eq)]
pub enum PlaylistUploader {
    /// Several uploaders, known only by the name shown for them.
    MultiUploaders(String),
    /// One channel.
    Channel(Channel),
}

/// What a `PlaylistUploader` holds, as plain text.
pub enum UploaderView {
    MultiUploaders(Seq<char>),
    Channel(ChannelView),
}

impl View for PlaylistUploader {
    type V = UploaderView;

    open spec fn view(&self) -> UploaderView {
        match self {
            PlaylistUploader::MultiUploaders(name) => UploaderView::MultiUploaders(name@),
            PlaylistUploader::Channel(channel) => UploaderView::Channel(channel@),
        }
    }
}

impl PlaylistUploader {
    /// A copy of this uploader.
    pub fn duplicate(&self) -> (r: Self)
        ensures
            r@ == self@,
    {
        match self {
            PlaylistUploader::MultiUploaders(name) => PlaylistUploader::MultiUploaders(name.clone()),
            PlaylistUploader::Channel(channel) => PlaylistUploader::Channel(channel.duplicate()),
        }
    }
}

/// A playlist.
#[derive(Clone, Debug, PartialEq, Eq)]
pub struct Playlist {
    pub id: String,
    pub title: String,
    pub url: String,
    pub tag: String,
    pub uploader: PlaylistUploader,
}

/// What a `Playlist` holds, as plain text.
pub struct PlaylistView {
    pub id: Seq<char>,
    pub title: Seq<char>,
    pub url: Seq<char>,
    pub tag: Seq<char>,
    pub uploader: UploaderView,
}

impl View for Playlist {
    type V = PlaylistView;

    open spec fn view(&self) -> PlaylistView {
        PlaylistView {
            id: self.id@,
            title: self.title@,
            url: self.url@,
            tag: self.tag@,
            uploader: self.uploader@,
        }
    }
}

impl Playlist {
    /// A copy of this playlist.
    pub fn duplicate(&self) -> (r: Self)
        ensures
            r@ == self@,
    {
        Playlist {
            id: self.id.clone(),
            title: self.title.clone(),
            url: self.url.clone(),
            tag: self.tag.clone(),
            uploader: self.uploader.duplicate(),
        }
    }
}

/// One discovered entity: a video, a channel or a playlist.
#[derive(Clone, Debug, PartialEq, Eq)]
pub enum ContentItem {
    Video(Video),
    Channel(Channel),
    Playlist(Playlist),
}

/// What a `ContentItem` holds, as plain values.
pub enum ContentView {
    Video(VideoView),
    Channel(ChannelView),
    Playlist(PlaylistView),
}

impl View for ContentItem {
    type V = ContentView;

    open spec fn view(&self) -> ContentView {
        match self {
            ContentItem::Video(v) => ContentView::Video(v@),
            ContentItem::Channel(c) => ContentView::Channel(c@),
            ContentItem::Playlist(p) => ContentView::Playlist(p@),
        }
    }
}

impl ContentItem {
    /// A copy of this item.
    pub fn duplicate(&self) -> (r: Self)
        ensures
            r@ == self@,
    {
        match self {
            ContentItem::Video(video) => ContentItem::Video(video.duplicate()),
            ContentItem::Channel(channel) => ContentItem::Channel(channel.duplicate()),
            ContentItem::Playlist(playlist) => ContentItem::Playlist(playlist.duplicate()),
        }
    }
}

/// The views of a list of items, in order.
pub open spec fn item_views(items: Seq<ContentItem>) -> Seq<ContentView> {
    Seq::new(items.len(), |i: int| items[i]@)
}

/// The views of a list of videos, in order.
pub open spec fn video_views(videos: Seq<Video>) -> Seq<VideoView> {
    Seq::new(videos.len(), |i: int| videos[i]@)
}

/// One subscription as the store keeps it: a channel's id, which no other
/// subscription shares, and its name.
#[derive(Clone, Debug, PartialEq, Eq)]
pub struct ChannelDB {
    pub channel_id: String,
    pub channel_username: String,
}

/// What a `ChannelDB` holds, as plain text.
pub struct SubscriptionView {
    pub channel_id: Seq<char>,
    pub channel_username: Seq<char>,
}

impl View for ChannelDB {
    type V = SubscriptionView;

    open spec fn view(&self) -> SubscriptionView {
        SubscriptionView {
            channel_id: self.channel_id@,
            channel_username: self.channel_username@,
        }
    }
}

impl ChannelDB {
    /// A copy of this subscription.
    pub fn duplicate(&self) -> (r: Self)
        ensures
            r@ == self@,
    {
        ChannelDB {
            channel_id: self.channel_id.clone(),
            channel_username: self.channel_username.clone(),
        }
    }

    /// The channel this subscription names.
    pub fn channel(&self) -> (r: Channel)
        ensures
            r@ == channel_named(self.channel_id@, self.channel_username@),
    {
        Channel::new(self.channel_id.as_str(), self.channel_username.as_str())
    }
}

/// One entry of the feed joined with its subscription, as the store's tables give
/// it: every column as text.
#[derive(Clone, Debug, PartialEq, Eq)]
pub struct VideoDB {
    pub id: String,
    pub title: String,
    pub url: String,
    pub published_at: String,
    pub channel_id: String,
    pub channel_username: String,
}

/// One entry of the feed: a video of a subscribed channel and when it was published.
#[derive(Clone, Debug, PartialEq, Eq)]
pub struct FeedRecord {
    pub id: String,
    pub title: String,
    pub url: String,
    pub channel: String,
    pub published_at: Timestamp,
}

/// What a `FeedRecord` holds, as plain values.
pub struct FeedRecordView {
    pub id: Seq<char>,
    pub title: Seq<char>,
    pub url: Seq<char>,
    pub channel: Seq<char>,
    pub published_at: Timestamp,
}

impl View for FeedRecord {
    type V = FeedRecordView;

    open spec fn view(&self) -> FeedRecordView {
        FeedRecordView {
            id: self.id@,
            title: self.title@,
            url: self.url@,
            channel: self.channel@,
            published_at: self.published_at,
        }
    }
}

/// The feed entry for a video, where the video has a publish time.
pub open spec fn record_of(video: VideoView) -> Option<FeedRecordView> {
    match video.published_at {
        Some(published_at) => Some(
            FeedRecordView {
                id: video.id,
                title: video.title,
                url: video.url,
                channel: video.channel.id,
                published_at,
            },
        ),
        None => None,
    }
}

impl FeedRecord {
    /// The feed entry for `video`; `None` while the video has no publish time.
    pub fn from_video(video: &Video) -> (r: Option<FeedRecord>)
        ensures
            match r {
                Some(record) => record_of(video@) == Some(record@),
                None => record_of(video@) is None,
            },
    {
        match video.published_at {
            Some(published_at) => Some(
                FeedRecord {
                    id: video.id.clone(),
                    title: video.title.clone(),
                    url: video.url.clone(),
                    channel: video.channel.id.clone(),
                    published_at,
                },
            ),
            None => None,
        }
    }

    /// A copy of this entry.
    pub fn duplicate(&self) -> (r: Self)
        ensures
            r@ == self@,
    {
        FeedRecord {
            id: self.id.clone(),
            title: self.title.clone(),
            url: self.url.clone(),
            channel: self.channel.clone(),
            published_at: self.published_at,
        }
    }
}

/// Why a page could not be turned into content.
#[derive(Clone, Copy, Debug, PartialEq, Eq, Structural)]
pub enum Error {
    /// The page could not be fetched.
    NetworkFailure,
    /// The page holds no embedded data document.
    ExtractionNotFound,
    /// The embedded data document is not well-formed.
    ExtractionParseError,
    /// The document lacks the list that the items are read from.
    SchemaMismatch,
    /// A field is there but cannot be read as what it should be.
    FieldMappingError,
    /// The store could not be read or written.
    PersistenceFailure,
}

impl Error {
    /// A short description for the user.
    pub fn describe(&self) -> (r: String)
        ensures
            r@ == match *self {
                Error::NetworkFailure => "Failed on search request"@,
                Error::ExtractionNotFound => "ytInitialData not found"@,
                Error::ExtractionParseError => "Failed to parse html"@,
                Error::SchemaMismatch => "Content not found"@,
                Error::FieldMappingError => "Failed to read a field"@,
                Error::PersistenceFailure => "Failed to reach the store"@,
            },
    {
        match self {
            Error::NetworkFailure => String::from_str("Failed on search request"),
            Error::ExtractionNotFound => String::from_str("ytInitialData not found"),
            Error::ExtractionParseError => String::from_str("Failed to parse html"),
            Error::SchemaMismatch => String::from_str("Content not found"),
            Error::FieldMappingError => String::from_str("Failed to read a field"),
            Error::PersistenceFailure => String::from_str("Failed to reach the store"),
        }
    }
}

} // verus!
