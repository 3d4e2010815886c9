//! Mapping the items of a page's data document to channels, videos and playlists.

use vstd::prelude::*;
use vstd::string::*;
use crate::extract::{channel_grid, extract_document, spec_extract_document};
use crate::json::{at, is_absent, is_plain, items, key, node_text, quoted, render, spec_items, Json};
use crate::text::{strip_ends, strip_first};
use crate::types::{
    channel_named, current_time, item_views, site, video_views, Channel, ChannelView, ContentItem,
    ContentView, Error, Playlist, PlaylistUploader, PlaylistView, Timestamp, UploaderView, Video,
    VideoView,
};
use crate::youtube::published::{resolve_time, spec_resolve};

verus! {

/// Drops the first and the last character of `s`, the quote marks that printing a
/// JSON string puts around it. A text shorter than two characters becomes empty.
pub fn remove_quotes(s: String) -> (r: String)
    ensures
        r@ == strip_ends(s@),
{
    let text = s.as_str();
    let n: usize = text.unicode_len();
    if n >= 2 {
        text.substring_char(1, n - 1).to_owned()
    } else {
        String::new()
    }
}

/// Drops the first character of `s`, if it has one.
pub fn remove_first_char(s: String) -> (r: String)
    ensures
        r@ == strip_first(s@),
{
    let text = s.as_str();
    let n: usize = text.unicode_len();
    if n >= 1 {
        text.substring_char(1, n).to_owned()
    } else {
        String::new()
    }
}

/// The text of a field: the printed node without its quote marks, or the empty
/// text where the lookup found nothing.
pub open spec fn field_text(node: Option<&Json>) -> Seq<char> {
    if is_absent(node) {
        Seq::empty()
    } else {
        strip_ends(node_text(node))
    }
}

/// The text of a field; empty where the lookup found nothing. A string that needs
/// no escaping is read as it stands.
pub fn text_field(node: Option<&Json>) -> (r: String)
    ensures
        r@ == field_text(node),
        node matches Some(Json::Text(text)) ==> (is_plain(text@) ==> r@ == text@),
{
    if is_absent(node) {
        String::new()
    } else {
        let printed = render(node);
        proof {
            if let Some(Json::Text(text)) = node {
                if is_plain(text@) {
                    assert(strip_ends(quoted(text@)) =~= text@);
                }
            }
        }
        remove_quotes(printed)
    }
}

/// Where a renderer keeps the site-relative address it links to.
pub open spec fn web_url<'a>(node: Option<&'a Json>) -> Option<&'a Json> {
    key(key(key(key(node, "navigationEndpoint"), "commandMetadata"), "webCommandMetadata"), "url")
}

/// The site-relative address a renderer links to.
fn web_url_of<'a>(node: Option<&'a Json>) -> (r: Option<&'a Json>)
    ensures
        r == web_url(node),
{
    key(key(key(key(node, "navigationEndpoint"), "commandMetadata"), "webCommandMetadata"), "url")
}

/// `path` made absolute under the site.
fn absolute(path: &str) -> (r: String)
    ensures
        r@ == site() + path@,
{
    String::from_str("https://www.youtube.com").concat(path)
}

/// The channel that a channel renderer describes.
pub open spec fn spec_channel_props(renderer: &Json) -> ChannelView {
    let node = Some(renderer);
    ChannelView {
        id: field_text(key(node, "channelId")),
        username: field_text(key(key(node, "title"), "simpleText")),
        url: site() + field_text(web_url(node)),
        tag: Seq::empty(),
    }
}

/// Maps a channel renderer to a channel.
pub fn parse_channel_props(renderer: &Json) -> (r: Channel)
    ensures
        r@ == spec_channel_props(renderer),
{
    let node = Some(renderer);
    let path = text_field(web_url_of(node));
    Channel {
        id: text_field(key(node, "channelId")),
        username: text_field(key(key(node, "title"), "simpleText")),
        url: absolute(path.as_str()),
        tag: String::new(),
    }
}

/// The first of the runs that name a video's owner.
pub open spec fn owner_run<'a>(node: Option<&'a Json>) -> Option<&'a Json> {
    at(key(key(node, "ownerText"), "runs"), 0)
}

/// The video that a video renderer describes, found at time `now`. The owner's id
/// is the address its name links to, without the leading slash.
pub open spec fn spec_video_props(renderer: &Json, now: Timestamp) -> VideoView {
    let node = Some(renderer);
    VideoView {
        id: field_text(key(node, "videoId")),
        title: field_text(key(at(key(key(node, "title"), "runs"), 0), "text")),
        url: site() + field_text(web_url(node)),
        tag: Seq::empty(),
        channel: channel_named(
            strip_first(field_text(web_url(owner_run(node)))),
            field_text(key(owner_run(node), "text")),
        ),
        published_at: Some(now),
    }
}

/// Maps a video renderer to a video found at time `now`. A search result carries
/// no publish time of its own, so the time it was found stands in for it.
pub fn video_props_at(renderer: &Json, now: Timestamp) -> (r: Video)
    ensures
        r@ == spec_video_props(renderer, now),
{
    let node = Some(renderer);
    let owner = at(key(key(node, "ownerText"), "runs"), 0);
    let channel_id = remove_first_char(text_field(web_url_of(owner)));
    let username = text_field(key(owner, "text"));
    let path = text_field(web_url_of(node));
    Video {
        id: text_field(key(node, "videoId")),
        title: text_field(key(at(key(key(node, "title"), "runs"), 0), "text")),
        url: absolute(path.as_str()),
        tag: String::new(),
        channel: Channel::new(channel_id.as_str(), username.as_str()),
        published_at: Some(now),
    }
}

/// Maps a video renderer to a video, with the current time, which is not before
/// the epoch, as its publish time.
pub fn parse_video_props(renderer: &Json) -> (r: Video)
    ensures
        r.published_at matches Some(now) && now.secs >= 0 && r@ == spec_video_props(renderer, now),
{
    video_props_at(renderer, current_time())
}

/// Where a playlist's view model keeps the address it opens.
pub open spec fn playlist_url<'a>(node: Option<&'a Json>) -> Option<&'a Json> {
    let tap = key(key(key(node, "rendererContext"), "commandContext"), "onTap");
    key(key(key(key(tap, "innertubeCommand"), "commandMetadata"), "webCommandMetadata"), "url")
}

/// Where a playlist's view model keeps its title and what is known of its uploader.
pub open spec fn lockup_metadata<'a>(node: Option<&'a Json>) -> Option<&'a Json> {
    key(key(node, "metadata"), "lockupMetadataViewModel")
}

/// Where a playlist's view model names who uploaded it.
pub open spec fn uploader_part<'a>(node: Option<&'a Json>) -> Option<&'a Json> {
    let rows = key(
        key(key(lockup_metadata(node), "metadata"), "contentMetadataViewModel"),
        "metadataRows",
    );
    key(at(key(at(rows, 0), "metadataParts"), 0), "text")
}

/// Where the uploader's name links to its channel, when it is one channel.
pub open spec fn uploader_channel<'a>(part: Option<&'a Json>) -> Option<&'a Json> {
    let command = key(key(at(key(part, "commandRuns"), 0), "onTap"), "innertubeCommand");
    key(key(command, "browseEndpoint"), "canonicalBaseUrl")
}

/// Who uploaded a playlist. Where the link to a channel prints as `null`, the list
/// has several uploaders and only the shown name is kept. Otherwise the link names
/// the channel: its id is the link without its quote marks and leading slash.
pub open spec fn spec_uploader(renderer: &Json) -> UploaderView {
    let part = uploader_part(Some(renderer));
    let link = node_text(uploader_channel(part));
    if link == "null"@ {
        UploaderView::MultiUploaders(field_text(key(part, "content")))
    } else {
        UploaderView::Channel(
            channel_named(strip_first(strip_ends(link)), field_text(key(part, "content"))),
        )
    }
}

/// The playlist that a lockup view model describes.
pub open spec fn spec_playlist_props(renderer: &Json) -> PlaylistView {
    let node = Some(renderer);
    PlaylistView {
        id: field_text(playlist_url(node)),
        title: field_text(key(key(lockup_metadata(node), "title"), "content")),
        url: site() + field_text(playlist_url(node)),
        tag: Seq::empty(),
        uploader: spec_uploader(renderer),
    }
}

/// Maps a lockup view model to a playlist. A playlist without a link to one
/// channel has several uploaders; one whose link is a string that needs no
/// escaping has that channel, named by the link without its leading slash.
pub fn parse_playlist_props(renderer: &Json) -> (r: Playlist)
    ensures
        r@ == spec_playlist_props(renderer),
        is_absent(uploader_channel(uploader_part(Some(renderer)))) ==> r@.uploader
            == UploaderView::MultiUploaders(
            field_text(key(uploader_part(Some(renderer)), "content")),
        ),
        uploader_channel(uploader_part(Some(renderer))) matches Some(Json::Text(address)) ==> (
        is_plain(address@) ==> r@.uploader == UploaderView::Channel(
            channel_named(
                strip_first(address@),
                field_text(key(uploader_part(Some(renderer)), "content")),
            ),
        )),
{
    let node = Some(renderer);
    let open = key(key(key(node, "rendererContext"), "commandContext"), "onTap");
    let address = key(
        key(key(key(open, "innertubeCommand"), "commandMetadata"), "webCommandMetadata"),
        "url",
    );
    let lockup = key(key(node, "metadata"), "lockupMetadataViewModel");
    let rows = key(key(key(lockup, "metadata"), "contentMetadataViewModel"), "metadataRows");
    let part = key(at(key(at(rows, 0), "metadataParts"), 0), "text");
    let tap = key(key(at(key(part, "commandRuns"), 0), "onTap"), "innertubeCommand");
    let link = render(key(key(tap, "browseEndpoint"), "canonicalBaseUrl"));
    proof {
        reveal_strlit("null");
        if let Some(Json::Text(text)) = uploader_channel(part) {
            if is_plain(text@) {
                assert(quoted(text@)[0] == '"');
                assert(strip_ends(quoted(text@)) =~= text@);
            }
        }
    }
    let name = text_field(key(part, "content"));
    let uploader = if link == String::from_str("null") {
        PlaylistUploader::MultiUploaders(name)
    } else {
        let channel_id = remove_first_char(remove_quotes(link));
        PlaylistUploader::Channel(Channel::new(channel_id.as_str(), name.as_str()))
    };
    let id = text_field(address);
    let url = absolute(id.as_str());
    Playlist {
        id,
        title: text_field(key(key(lockup, "title"), "content")),
        url,
        tag: String::new(),
        uploader,
    }
}

/// What one item of a page's list maps to at time `now`. An item is a video, a
/// channel or a playlist by the first of the three container keys it carries; one
/// that carries none maps to nothing.
#[verifier::opaque]
pub open spec fn spec_item(item: &Json, now: Timestamp) -> Option<ContentView> {
    let node = Some(item);
    if !is_absent(key(node, "videoRenderer")) {
        Some(ContentView::Video(spec_video_props(key(node, "videoRenderer")->0, now)))
    } else if !is_absent(key(node, "channelRenderer")) {
        Some(ContentView::Channel(spec_channel_props(key(node, "channelRenderer")->0)))
    } else if !is_absent(key(node, "lockupViewModel")) {
        Some(ContentView::Playlist(spec_playlist_props(key(node, "lockupViewModel")->0)))
    } else {
        None
    }
}

/// What a page's list maps to at time `now`: what each item maps to, in the order
/// of the list, with nothing for the items that map to nothing.
pub open spec fn spec_contents(contents: Seq<Json>, now: Timestamp) -> Seq<ContentView>
    decreases contents.len(),
{
    if contents.len() == 0 {
        Seq::empty()
    } else {
        let before = spec_contents(contents.drop_last(), now);
        match spec_item(&contents.last(), now) {
            Some(item) => before.push(item),
            None => before,
        }
    }
}

/// Maps one item of a page's list, found at time `now`.
pub fn item_at(item: &Json, now: Timestamp) -> (r: Option<ContentItem>)
    ensures
        match r {
            Some(found) => spec_item(item, now) == Some(found@),
            None => spec_item(item, now) is None,
        },
{
    reveal(spec_item);
    let node = Some(item);
    let video = key(node, "videoRenderer");
    let channel = key(node, "channelRenderer");
    let playlist = key(node, "lockupViewModel");
    if !is_absent(video) {
        match video {
            Some(renderer) => Some(ContentItem::Video(video_props_at(renderer, now))),
            None => None,
        }
    } else if !is_absent(channel) {
        match channel {
            Some(renderer) => Some(ContentItem::Channel(parse_channel_props(renderer))),
            None => None,
        }
    } else if !is_absent(playlist) {
        match playlist {
            Some(renderer) => Some(ContentItem::Playlist(parse_playlist_props(renderer))),
            None => None,
        }
    } else {
        None
    }
}

/// Maps a page's list of items, found at time `now`.
pub fn contents_at(contents: &Vec<Json>, now: Timestamp) -> (r: Vec<ContentItem>)
    ensures
        item_views(r@) == spec_contents(contents@, now),
{
    let mut out: Vec<ContentItem> = Vec::new();
    let mut i: usize = 0;
    while i < contents.len()
        invariant
            i <= contents@.len(),
            item_views(out@) == spec_contents(contents@.take(i as int), now),
        decreases contents@.len() - i,
    {
        proof {
            assert(contents@.take(i + 1).drop_last() =~= contents@.take(i as int));
        }
        let ghost before = out@;
        match item_at(&contents[i], now) {
            Some(item) => {
                out.push(item);
                assert(item_views(out@) =~= item_views(before).push(item@));
            },
            None => {},
        }
        i += 1;
    }
    proof {
        assert(contents@.take(contents@.len() as int) =~= contents@);
    }
    out
}

/// Maps a page's list of items, with the current time, which is not before the
/// epoch, as each video's publish time.
pub fn parse_contents(contents: &Vec<Json>) -> (r: Vec<ContentItem>)
    ensures
        exists|now: Timestamp|
            now.secs >= 0 && item_views(r@) == #[trigger] spec_contents(contents@, now),
{
    let now = current_time();
    contents_at(contents, now)
}

/// Mapping a list that is two lists joined gives the two mappings joined: every
/// item is mapped on its own and the results keep the order of the items.
pub proof fn lemma_contents_concat(a: Seq<Json>, b: Seq<Json>, now: Timestamp)
    ensures
        spec_contents(a + b, now) == spec_contents(a, now) + spec_contents(b, now),
    decreases b.len(),
{
    if b.len() == 0 {
        assert(a + b =~= a);
        assert(spec_contents(a, now) + spec_contents(b, now) =~= spec_contents(a, now));
    } else {
        lemma_contents_concat(a, b.drop_last(), now);
        assert((a + b).drop_last() =~= a + b.drop_last());
        assert((a + b).last() == b.last());
        let joined = spec_contents(a, now) + spec_contents(b.drop_last(), now);
        match spec_item(&b.last(), now) {
            Some(item) => {
                assert(joined.push(item) =~= spec_contents(a, now) + spec_contents(
                    b.drop_last(),
                    now,
                ).push(item));
            },
            None => {},
        }
    }
}

/// One item maps to one record where it has a recognized shape, and to none where
/// it has not.
pub proof fn lemma_contents_single(item: Json, now: Timestamp)
    ensures
        spec_contents(seq![item], now) == match spec_item(&item, now) {
            Some(found) => seq![found],
            None => Seq::empty(),
        },
{
    let one = seq![item];
    assert(one.drop_last() =~= Seq::<Json>::empty());
    assert(one.last() == item);
    assert(spec_contents(one.drop_last(), now) =~= Seq::<ContentView>::empty());
    match spec_item(&item, now) {
        Some(found) => {
            assert(Seq::<ContentView>::empty().push(found) =~= seq![found]);
        },
        None => {},
    }
}

/// How many items of a list have a recognized shape.
pub open spec fn recognized(contents: Seq<Json>, now: Timestamp) -> nat
    decreases contents.len(),
{
    if contents.len() == 0 {
        0
    } else if spec_item(&contents.last(), now) is Some {
        recognized(contents.drop_last(), now) + 1
    } else {
        recognized(contents.drop_last(), now)
    }
}

/// A mapped list holds exactly one record for each item of a recognized shape.
pub proof fn lemma_contents_count(contents: Seq<Json>, now: Timestamp)
    ensures
        spec_contents(contents, now).len() == recognized(contents, now),
    decreases contents.len(),
{
    if contents.len() > 0 {
        lemma_contents_count(contents.drop_last(), now);
    }
}

/// A mapped list is never longer than the list it was mapped from.
pub proof fn lemma_contents_len(contents: Seq<Json>, now: Timestamp)
    ensures
        spec_contents(contents, now).len() <= contents.len(),
    decreases contents.len(),
{
    if contents.len() > 0 {
        lemma_contents_len(contents.drop_last(), now);
    }
}

/// Where an item of a channel's grid keeps its video renderer.
pub open spec fn grid_renderer<'a>(item: Option<&'a Json>) -> Option<&'a Json> {
    key(key(key(item, "richItemRenderer"), "content"), "videoRenderer")
}

/// The video that one item of a channel's grid describes, seen from `now`: a video
/// of `channel`, addressed by its id, published when its relative publish time
/// says. An item whose publish time cannot be resolved gives no video.
#[verifier::opaque]
pub open spec fn spec_grid_video(item: &Json, channel: ChannelView, now: Timestamp) -> Option<
    VideoView,
> {
    let renderer = grid_renderer(Some(item));
    let id = field_text(key(renderer, "videoId"));
    match spec_resolve(field_text(key(key(renderer, "publishedTimeText"), "simpleText")), now) {
        Some(published) => Some(
            VideoView {
                id,
                title: field_text(key(at(key(key(renderer, "title"), "runs"), 0), "text")),
                url: site() + "/watch?v="@ + id,
                tag: Seq::empty(),
                channel,
                published_at: Some(published),
            },
        ),
        None => None,
    }
}

/// The videos of a channel's grid, seen from `now`, in the order of the grid.
pub open spec fn spec_grid_videos(grid: Seq<Json>, channel: ChannelView, now: Timestamp) -> Seq<
    VideoView,
>
    decreases grid.len(),
{
    if grid.len() == 0 {
        Seq::empty()
    } else {
        let before = spec_grid_videos(grid.drop_last(), channel, now);
        match spec_grid_video(&grid.last(), channel, now) {
            Some(video) => before.push(video),
            None => before,
        }
    }
}

/// What a channel's video page gives, seen from `now`: the videos of its grid, or
/// the error of extraction, or `SchemaMismatch` where the document has no grid.
pub open spec fn spec_channel_videos(channel: ChannelView, page: Seq<char>, now: Timestamp) -> Result<
    Seq<VideoView>,
    Error,
> {
    match spec_extract_document(page) {
        Ok(document) => match spec_items(channel_grid(Some(&document))) {
            Some(grid) => Ok(spec_grid_videos(grid@, channel, now)),
            None => Err(Error::SchemaMismatch),
        },
        Err(e) => Err(e),
    }
}

/// Maps one item of a channel's grid to a video of `channel`, seen from `now`.
pub fn grid_video_at(item: &Json, channel: &Channel, now: Timestamp) -> (r: Option<Video>)
    ensures
        match r {
            Some(video) => spec_grid_video(item, channel@, now) == Some(video@),
            None => spec_grid_video(item, channel@, now) is None,
        },
{
    reveal(spec_grid_video);
    let renderer = key(key(key(Some(item), "richItemRenderer"), "content"), "videoRenderer");
    let id = text_field(key(renderer, "videoId"));
    let relative = text_field(key(key(renderer, "publishedTimeText"), "simpleText"));
    match resolve_time(relative.as_str(), now) {
        Some(published) => {
            let url = String::from_str("https://www.youtube.com").concat("/watch?v=").concat(
                id.as_str(),
            );
            Some(
                Video {
                    id,
                    title: text_field(key(at(key(key(renderer, "title"), "runs"), 0), "text")),
                    url,
                    tag: String::new(),
                    channel: channel.duplicate(),
                    published_at: Some(published),
                },
            )
        },
        None => None,
    }
}

/// The grid of videos that a channel page's document holds.
pub fn grid_of(document: &Json) -> (r: Option<&Vec<Json>>)
    ensures
        r == spec_items(channel_grid(Some(document))),
{
    let tabs = key(key(key(Some(document), "contents"), "twoColumnBrowseResultsRenderer"), "tabs");
    let tab = key(key(at(tabs, 1), "tabRenderer"), "content");
    items(key(key(tab, "richGridRenderer"), "contents"))
}

/// Maps the items of a channel's grid to videos of `channel`, seen from `now`.
pub fn grid_videos_at(grid: &Vec<Json>, channel: &Channel, now: Timestamp) -> (r: Vec<Video>)
    ensures
        video_views(r@) == spec_grid_videos(grid@, channel@, now),
{
    let mut out: Vec<Video> = Vec::new();
    let mut i: usize = 0;
    while i < grid.len()
        invariant
            i <= grid@.len(),
            video_views(out@) == spec_grid_videos(grid@.take(i as int), channel@, now),
        decreases grid@.len() - i,
    {
        proof {
            assert(grid@.take(i + 1).drop_last() =~= grid@.take(i as int));
        }
        let ghost before = out@;
        match grid_video_at(&grid[i], channel, now) {
            Some(video) => {
                out.push(video);
                assert(video_views(out@) =~= video_views(before).push(video@));
            },
            None => {},
        }
        i += 1;
    }
    proof {
        assert(grid@.take(grid@.len() as int) =~= grid@);
    }
    out
}

/// Reads the videos of `channel` from its fetched video page, seen from `now`.
pub fn parse_channel_videos(channel: &Channel, page: &str, now: Timestamp) -> (r: Result<
    Vec<Video>,
    Error,
>)
    ensures
        match r {
            Ok(videos) => spec_channel_videos(channel@, page@, now) == Ok::<Seq<VideoView>, Error>(
                video_views(videos@),
            ),
            Err(e) => spec_channel_videos(channel@, page@, now) == Err::<Seq<VideoView>, Error>(e),
        },
{
    match extract_document(page) {
        Ok(document) => match grid_of(&document) {
            Some(grid) => Ok(grid_videos_at(grid, channel, now)),
            None => Err(Error::SchemaMismatch),
        },
        Err(e) => Err(e),
    }
}

/// The address of the page that lists a channel's videos.
pub fn channel_videos_url(channel: &Channel) -> (r: String)
    ensures
        r@ == channel.url@ + "/videos"@,
{
    channel.url.clone().concat("/videos")
}

} // verus!
