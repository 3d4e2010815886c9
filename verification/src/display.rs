//! How an item of a list is drawn: which texts, in which colours, in which rows.

use vstd::prelude::*;
use vstd::string::*;
use crate::types::{Channel, ContentItem, ContentView, Playlist, PlaylistUploader, UploaderView, Video};

verus! {

/// The colour of a piece of text.
#[derive(Clone, Copy, Debug, PartialEq, Eq, Structural)]
pub enum Tint {
    /// The terminal's own colour.
    Plain,
    Yellow,
    Red,
    Green,
    Blue,
}

/// A piece of text drawn in one colour, bold or not.
#[derive(Clone, Debug, PartialEq, Eq)]
pub struct Piece {
    pub text: String,
    pub tint: Tint,
    pub bold: bool,
}

/// What a `Piece` holds, as plain values.
pub struct PieceView {
    pub text: Seq<char>,
    pub tint: Tint,
    pub bold: bool,
}

impl View for Piece {
    type V = PieceView;

    open spec fn view(&self) -> PieceView {
        PieceView { text: self.text@, tint: self.tint, bold: self.bold }
    }
}

/// The views of rows of pieces, in order.
pub open spec fn row_views(rows: Seq<Vec<Piece>>) -> Seq<Seq<PieceView>> {
    Seq::new(rows.len(), |i: int| Seq::new(rows[i]@.len(), |j: int| rows[i]@[j]@))
}

/// The piece that heads an item: its name behind a marker, in the item's colour
/// and bold, where the item is selected; its name indented and plain where not.
pub open spec fn heading(name: Seq<char>, tint: Tint, selected: bool) -> PieceView {
    if selected {
        PieceView { text: "> "@ + name + "\n"@, tint, bold: true }
    } else {
        PieceView { text: "  "@ + name + "\n"@, tint: Tint::Plain, bold: false }
    }
}

/// The piece that shows an item's tag, always blue.
pub open spec fn tag_piece(tag: Seq<char>) -> PieceView {
    PieceView { text: " "@ + tag + "\n"@, tint: Tint::Blue, bold: false }
}

/// The piece that names who an item is by: yellow and bold where the item is selected.
pub open spec fn byline(name: Seq<char>, selected: bool) -> PieceView {
    if selected {
        PieceView { text: "  "@ + name, tint: Tint::Yellow, bold: true }
    } else {
        PieceView { text: "  "@ + name, tint: Tint::Plain, bold: false }
    }
}

/// The name shown for whoever uploaded a playlist.
pub open spec fn uploader_name(uploader: UploaderView) -> Seq<char> {
    match uploader {
        UploaderView::MultiUploaders(name) => name,
        UploaderView::Channel(channel) => channel.username,
    }
}

/// The rows an item is drawn in. A video is headed by its title in yellow, a
/// playlist by its title in green, each with a row below that says who it is by;
/// a channel is headed by its name in red and has no second row.
pub open spec fn spec_display(item: ContentView, selected: bool) -> Seq<Seq<PieceView>> {
    match item {
        ContentView::Video(video) => seq![
            seq![heading(video.title, Tint::Yellow, selected), tag_piece(video.tag)],
            seq![byline(video.channel.username, selected)],
        ],
        ContentView::Channel(channel) => seq![
            seq![heading(channel.username, Tint::Red, selected), tag_piece(channel.tag)],
        ],
        ContentView::Playlist(playlist) => seq![
            seq![heading(playlist.title, Tint::Green, selected), tag_piece(playlist.tag)],
            seq![byline(uploader_name(playlist.uploader), selected)],
        ],
    }
}

/// The piece that heads an item.
fn heading_of(name: &str, tint: Tint, selected: bool) -> (r: Piece)
    ensures
        r@ == heading(name@, tint, selected),
{
    if selected {
        Piece { text: String::from_str("> ").concat(name).concat("\n"), tint, bold: true }
    } else {
        Piece { text: String::from_str("  ").concat(name).concat("\n"), tint: Tint::Plain, bold: false }
    }
}

/// The piece that shows an item's tag.
fn tag_of(tag: &str) -> (r: Piece)
    ensures
        r@ == tag_piece(tag@),
{
    Piece { text: String::from_str(" ").concat(tag).concat("\n"), tint: Tint::Blue, bold: false }
}

/// The piece that names who an item is by.
fn byline_of(name: &str, selected: bool) -> (r: Piece)
    ensures
        r@ == byline(name@, selected),
{
    if selected {
        Piece { text: String::from_str("  ").concat(name), tint: Tint::Yellow, bold: true }
    } else {
        Piece { text: String::from_str("  ").concat(name), tint: Tint::Plain, bold: false }
    }
}

/// A heading with a tag, and below it a byline.
fn two_rows(heading: Piece, tag: Piece, byline: Piece) -> (r: Vec<Vec<Piece>>)
    ensures
        row_views(r@) == seq![seq![heading@, tag@], seq![byline@]],
{
    let mut first: Vec<Piece> = Vec::new();
    first.push(heading);
    first.push(tag);
    let mut second: Vec<Piece> = Vec::new();
    second.push(byline);
    let mut rows: Vec<Vec<Piece>> = Vec::new();
    rows.push(first);
    rows.push(second);
    assert(row_views(rows@)[0] =~= seq![heading@, tag@]);
    assert(row_views(rows@)[1] =~= seq![byline@]);
    assert(row_views(rows@) =~= seq![seq![heading@, tag@], seq![byline@]]);
    rows
}

impl Video {
    /// The rows this video is drawn in.
    pub fn display(&self, selected: bool) -> (r: Vec<Vec<Piece>>)
        ensures
            row_views(r@) == spec_display(ContentView::Video(self@), selected),
    {
        two_rows(
            heading_of(self.title.as_str(), Tint::Yellow, selected),
            tag_of(self.tag.as_str()),
            byline_of(self.channel.username.as_str(), selected),
        )
    }
}

impl Channel {
    /// The row this channel is drawn in.
    pub fn display(&self, selected: bool) -> (r: Vec<Vec<Piece>>)
        ensures
            row_views(r@) == spec_display(ContentView::Channel(self@), selected),
    {
        let heading = heading_of(self.username.as_str(), Tint::Red, selected);
        let tag = tag_of(self.tag.as_str());
        let mut first: Vec<Piece> = Vec::new();
        first.push(heading);
        first.push(tag);
        let mut rows: Vec<Vec<Piece>> = Vec::new();
        rows.push(first);
        assert(row_views(rows@)[0] =~= seq![heading@, tag@]);
        assert(row_views(rows@) =~= seq![seq![heading@, tag@]]);
        rows
    }
}

impl Playlist {
    /// The rows this playlist is drawn in.
    pub fn display(&self, selected: bool) -> (r: Vec<Vec<Piece>>)
        ensures
            row_views(r@) == spec_display(ContentView::Playlist(self@), selected),
    {
        let byline = match &self.uploader {
            PlaylistUploader::MultiUploaders(name) => byline_of(name.as_str(), selected),
            PlaylistUploader::Channel(channel) => byline_of(channel.username.as_str(), selected),
        };
        two_rows(
            heading_of(self.title.as_str(), Tint::Green, selected),
            tag_of(self.tag.as_str()),
            byline,
        )
    }
}

impl ContentItem {
    /// The rows this item is drawn in.
    pub fn display(&self, selected: bool) -> (r: Vec<Vec<Piece>>)
        ensures
            row_views(r@) == spec_display(self@, selected),
    {
        match self {
            ContentItem::Video(video) => video.display(selected),
            ContentItem::Channel(channel) => channel.display(selected),
            ContentItem::Playlist(playlist) => playlist.display(selected),
        }
    }
}

} // verus!
