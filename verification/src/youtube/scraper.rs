//! Reading the detailed properties of a video from its renderer.

use vstd::prelude::*;
use vstd::string::*;
use crate::json::{at, is_absent, items, key, node_text, render, Json};
use crate::text::{
    chars, contains, contains_run, decimal_i64, parse_i64, remove_char, spec_split, split,
    strip_ends, strip_first, without,
};
use crate::types::{site, Error};
use crate::youtube::parser::{field_text, owner_run, remove_first_char, text_field, web_url};

verus! {

/// Who uploaded a video.
#[derive(Clone, Debug, PartialEq, Eq)]
pub struct Uploader {
    pub id: String,
    pub username: String,
    pub verified: bool,
}

/// What an `Uploader` holds, as plain values.
pub struct UploaderPropsView {
    pub id: Seq<char>,
    pub username: Seq<char>,
    pub verified: bool,
}

/// The detailed properties of a video.
#[derive(Clone, Debug, PartialEq, Eq)]
pub struct VideoProps {
    pub id: String,
    pub title: String,
    pub url: String,
    pub duration: Option<String>,
    pub snippet: Option<String>,
    pub upload_date: Option<String>,
    pub thumbnail_src: Option<String>,
    pub views: Option<i64>,
    pub uploader: Uploader,
}

/// What a `VideoProps` holds, as plain values.
pub struct VideoPropsView {
    pub id: Seq<char>,
    pub title: Seq<char>,
    pub url: Seq<char>,
    pub duration: Option<Seq<char>>,
    pub snippet: Option<Seq<char>>,
    pub upload_date: Option<Seq<char>>,
    pub thumbnail_src: Option<Seq<char>>,
    pub views: Option<i64>,
    pub uploader: UploaderPropsView,
}

/// The text of an optional string.
pub open spec fn text_of(value: Option<String>) -> Option<Seq<char>> {
    match value {
        Some(text) => Some(text@),
        None => None,
    }
}

impl View for VideoProps {
    type V = VideoPropsView;

    open spec fn view(&self) -> VideoPropsView {
        VideoPropsView {
            id: self.id@,
            title: self.title@,
            url: self.url@,
            duration: text_of(self.duration),
            snippet: text_of(self.snippet),
            upload_date: text_of(self.upload_date),
            thumbnail_src: text_of(self.thumbnail_src),
            views: self.views,
            uploader: UploaderPropsView {
                id: self.uploader.id@,
                username: self.uploader.username@,
                verified: self.uploader.verified,
            },
        }
    }
}

/// Drops the first and the last character of `s`, the quote marks that printing a
/// JSON string puts around it. A text shorter than two characters becomes empty.
pub fn remove_quotes(s: String) -> (r: String)
    ensures
        r@ == strip_ends(s@),
{
    crate::youtube::parser::remove_quotes(s)
}

/// The number of views that a count such as `1.234 visualizações` names: the text
/// before the first space, without its dots, read as an integer.
pub open spec fn spec_views(s: Seq<char>) -> Result<i64, Error> {
    let pieces = spec_split(s, ' ');
    if pieces.len() < 2 {
        Err(Error::FieldMappingError)
    } else {
        match decimal_i64(without(pieces[0], '.')) {
            Some(count) => Ok(count as i64),
            None => Err(Error::FieldMappingError),
        }
    }
}

/// Reads the number of views from a formatted count.
pub fn parse_views(s: String) -> (r: Result<i64, Error>)
    ensures
        r == spec_views(s@),
{
    let pieces = split(&chars(s.as_str()), ' ');
    if pieces.len() < 2 {
        return Err(Error::FieldMappingError);
    }
    let digits = remove_char(&pieces[0], '.');
    match parse_i64(&digits) {
        Some(count) => Ok(count),
        None => Err(Error::FieldMappingError),
    }
}

/// The printed `text` members of `runs`, joined by single spaces; `None` for no runs.
pub open spec fn joined_runs(runs: Seq<Json>) -> Option<Seq<char>>
    decreases runs.len(),
{
    if runs.len() == 0 {
        None
    } else {
        let last = node_text(key(Some(&runs.last()), "text"));
        match joined_runs(runs.drop_last()) {
            Some(before) => Some(before + " "@ + last),
            None => Some(last),
        }
    }
}

/// Whether one of `badges` has a style that names it as verified.
pub open spec fn any_verified(badges: Seq<Json>) -> bool {
    exists|i: int|
        0 <= i < badges.len() && contains_run(
            node_text(key(key(Some(&#[trigger] badges[i]), "metadataBadgeRenderer"), "style")),
            "VERIFIED"@,
        )
}

/// How long the video is, where the renderer says.
pub open spec fn spec_duration(node: Option<&Json>) -> Option<Seq<char>> {
    if is_absent(key(node, "lengthText")) {
        None
    } else {
        Some(field_text(key(key(node, "lengthText"), "simpleText")))
    }
}

/// The description snippet, where the renderer has one.
pub open spec fn spec_snippet(node: Option<&Json>) -> Option<Seq<char>> {
    match items(key(key(node, "descriptionSnippet"), "runs")) {
        Some(runs) => joined_runs(runs@),
        None => None,
    }
}

/// When the video was uploaded, in the site's words, where the renderer says.
pub open spec fn spec_upload_date(node: Option<&Json>) -> Option<Seq<char>> {
    match key(key(node, "publishedTimeText"), "simpleText") {
        Some(Json::Text(text)) => Some(text@),
        _ => None,
    }
}

/// The address of the last, and largest, thumbnail, where the renderer lists any.
pub open spec fn spec_thumbnail(node: Option<&Json>) -> Option<Seq<char>> {
    match items(key(key(node, "thumbnail"), "thumbnails")) {
        Some(list) => if list@.len() > 0 {
            Some(field_text(key(Some(&list@.last()), "url")))
        } else {
            None
        },
        None => None,
    }
}

/// How often the video was viewed, where the renderer says; an error where it
/// says so in a form that cannot be read.
pub open spec fn spec_view_count(node: Option<&Json>) -> Result<Option<i64>, Error> {
    if is_absent(key(node, "viewCountText")) {
        Ok(None)
    } else {
        match spec_views(field_text(key(key(node, "viewCountText"), "simpleText"))) {
            Ok(count) => Ok(Some(count)),
            Err(e) => Err(e),
        }
    }
}

/// Whether the uploader carries a badge that names it as verified.
pub open spec fn spec_verified(node: Option<&Json>) -> bool {
    match items(key(node, "ownerBadges")) {
        Some(badges) => any_verified(badges@),
        None => false,
    }
}

/// The detailed properties that a video renderer describes, or the error of its
/// view count. The uploader's id is the address its name links to, without the
/// leading slash.
pub open spec fn spec_video_props(renderer: &Json) -> Result<VideoPropsView, Error> {
    let node = Some(renderer);
    match spec_view_count(node) {
        Ok(views) => Ok(
            VideoPropsView {
                id: field_text(key(node, "videoId")),
                title: field_text(key(at(key(key(node, "title"), "runs"), 0), "text")),
                url: site() + field_text(web_url(node)),
                duration: spec_duration(node),
                snippet: spec_snippet(node),
                upload_date: spec_upload_date(node),
                thumbnail_src: spec_thumbnail(node),
                views,
                uploader: UploaderPropsView {
                    id: strip_first(field_text(web_url(owner_run(node)))),
                    username: field_text(key(owner_run(node), "text")),
                    verified: spec_verified(node),
                },
            },
        ),
        Err(e) => Err(e),
    }
}

/// How long the video is, where the renderer says.
fn duration_of(node: Option<&Json>) -> (r: Option<String>)
    ensures
        text_of(r) == spec_duration(node),
{
    let length = key(node, "lengthText");
    if is_absent(length) {
        None
    } else {
        Some(text_field(key(length, "simpleText")))
    }
}

/// The description snippet, where the renderer has one.
fn snippet_of(node: Option<&Json>) -> (r: Option<String>)
    ensures
        text_of(r) == spec_snippet(node),
{
    let runs = match items(key(key(node, "descriptionSnippet"), "runs")) {
        Some(runs) => runs,
        None => {
            return None;
        },
    };
    let mut out: Option<String> = None;
    let mut i: usize = 0;
    while i < runs.len()
        invariant
            i <= runs@.len(),
            text_of(out) == joined_runs(runs@.take(i as int)),
        decreases runs@.len() - i,
    {
        proof {
            assert(runs@.take(i + 1).drop_last() =~= runs@.take(i as int));
        }
        let text = render(key(Some(&runs[i]), "text"));
        out = match out {
            Some(before) => Some(before.concat(" ").concat(text.as_str())),
            None => Some(text),
        };
        i += 1;
    }
    proof {
        assert(runs@.take(runs@.len() as int) =~= runs@);
    }
    out
}

/// When the video was uploaded, in the site's words, where the renderer says.
fn upload_date_of(node: Option<&Json>) -> (r: Option<String>)
    ensures
        text_of(r) == spec_upload_date(node),
{
    match key(key(node, "publishedTimeText"), "simpleText") {
        Some(Json::Text(text)) => Some(text.clone()),
        _ => None,
    }
}

/// The address of the last thumbnail, where the renderer lists any.
fn thumbnail_of(node: Option<&Json>) -> (r: Option<String>)
    ensures
        text_of(r) == spec_thumbnail(node),
{
    match items(key(key(node, "thumbnail"), "thumbnails")) {
        Some(list) => if list.len() > 0 {
            Some(text_field(key(Some(&list[list.len() - 1]), "url")))
        } else {
            None
        },
        None => None,
    }
}

/// How often the video was viewed, where the renderer says.
fn view_count_of(node: Option<&Json>) -> (r: Result<Option<i64>, Error>)
    ensures
        r == spec_view_count(node),
{
    let count = key(node, "viewCountText");
    if is_absent(count) {
        Ok(None)
    } else {
        match parse_views(text_field(key(count, "simpleText"))) {
            Ok(views) => Ok(Some(views)),
            Err(e) => Err(e),
        }
    }
}

/// Whether one of `badges` has a style that names it as verified.
fn has_verified_badge(badges: &Vec<Json>) -> (r: bool)
    ensures
        r == any_verified(badges@),
{
    let marker = chars("VERIFIED");
    let mut i: usize = 0;
    while i < badges.len()
        invariant
            i <= badges@.len(),
            marker@ == "VERIFIED"@,
            forall|j: int|
                0 <= j < i ==> !contains_run(
                    node_text(
                        key(key(Some(&#[trigger] badges@[j]), "metadataBadgeRenderer"), "style"),
                    ),
                    "VERIFIED"@,
                ),
        decreases badges@.len() - i,
    {
        let style = render(key(key(Some(&badges[i]), "metadataBadgeRenderer"), "style"));
        if contains(&chars(style.as_str()), &marker) {
            return true;
        }
        i += 1;
    }
    false
}

/// Whether the uploader carries a badge that names it as verified.
fn verified_of(node: Option<&Json>) -> (r: bool)
    ensures
        r == spec_verified(node),
{
    match items(key(node, "ownerBadges")) {
        Some(badges) => has_verified_badge(badges),
        None => false,
    }
}

/// Maps a video renderer to the video's detailed properties. A view count that
/// is there but cannot be read is an error.
pub fn parse_video_props(renderer: &Json) -> (r: Result<VideoProps, Error>)
    ensures
        match r {
            Ok(props) => spec_video_props(renderer) == Ok::<VideoPropsView, Error>(props@),
            Err(e) => spec_video_props(renderer) == Err::<VideoPropsView, Error>(e),
        },
{
    let node = Some(renderer);
    let views = match view_count_of(node) {
        Ok(views) => views,
        Err(e) => {
            return Err(e);
        },
    };
    let owner = at(key(key(node, "ownerText"), "runs"), 0);
    let owner_address = key(
        key(key(key(owner, "navigationEndpoint"), "commandMetadata"), "webCommandMetadata"),
        "url",
    );
    let address = key(
        key(key(key(node, "navigationEndpoint"), "commandMetadata"), "webCommandMetadata"),
        "url",
    );
    let path = text_field(address);
    Ok(
        VideoProps {
            id: text_field(key(node, "videoId")),
            title: text_field(key(at(key(key(node, "title"), "runs"), 0), "text")),
            url: String::from_str("https://www.youtube.com").concat(path.as_str()),
            duration: duration_of(node),
            snippet: snippet_of(node),
            upload_date: upload_date_of(node),
            thumbnail_src: thumbnail_of(node),
            views,
            uploader: Uploader {
                id: remove_first_char(text_field(owner_address)),
                username: text_field(key(owner, "text")),
                verified: verified_of(node),
            },
        },
    )
}

} // verus!
