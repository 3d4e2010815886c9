//! What the interface does next: how keys become messages, and how a message
//! changes the view that is shown.

use vstd::prelude::*;
use vstd::string::*;
use crate::types::{item_views, ContentItem, ContentView};

verus! {

/// The parts of the interface.
#[derive(Clone, Copy, Debug, PartialEq, Eq, Hash, Structural)]
pub enum Id {
    Clock,
    Menu,
    SearchMenu,
    Input,
    Label,
    SearchResults,
}

/// What the menu shows.
#[derive(Clone, Copy, Debug, PartialEq, Eq, Structural)]
pub enum ActiveView {
    /// The results of a search.
    SearchResult,
    /// The main menu.
    MainMenu,
    /// Nothing to choose from: the search input has the focus, or a search runs.
    Idle,
}

/// A key of the keyboard, as far as the interface tells keys apart.
#[derive(Clone, Copy, Debug, PartialEq, Eq, Structural)]
pub enum Key {
    Down,
    Up,
    Left,
    Right,
    Enter,
    Esc,
    Backspace,
    Char(char),
    Other,
}

/// What a part of the interface tells the application.
#[derive(Clone, Debug, PartialEq, Eq)]
pub enum Msg {
    AppClose,
    Exit,
    Clock,
    MenuSelected(String, usize),
    Subscribe(String, usize),
    Unsubscribe(String, usize),
    Download(String, usize, bool),
    Search(String),
    SearchResults(Vec<ContentItem>),
    /// Nothing to do but draw again.
    Nothing,
}

/// What a `Msg` holds, as plain values.
pub enum MsgView {
    AppClose,
    Exit,
    Clock,
    MenuSelected(Seq<char>, usize),
    Subscribe(Seq<char>, usize),
    Unsubscribe(Seq<char>, usize),
    Download(Seq<char>, usize, bool),
    Search(Seq<char>),
    SearchResults(Seq<ContentView>),
    Nothing,
}

impl View for Msg {
    type V = MsgView;

    open spec fn view(&self) -> MsgView {
        match self {
            Msg::AppClose => MsgView::AppClose,
            Msg::Exit => MsgView::Exit,
            Msg::Clock => MsgView::Clock,
            Msg::MenuSelected(item, index) => MsgView::MenuSelected(item@, *index),
            Msg::Subscribe(item, index) => MsgView::Subscribe(item@, *index),
            Msg::Unsubscribe(item, index) => MsgView::Unsubscribe(item@, *index),
            Msg::Download(item, index, video) => MsgView::Download(item@, *index, *video),
            Msg::Search(query) => MsgView::Search(query@),
            Msg::SearchResults(items) => MsgView::SearchResults(item_views(items@)),
            Msg::Nothing => MsgView::Nothing,
        }
    }
}

/// Where the menu's highlight moves.
#[derive(Clone, Copy, Debug, PartialEq, Eq, Structural)]
pub enum Move {
    Up,
    Down,
}

/// What a key does to the text input.
#[derive(Clone, Copy, Debug, PartialEq, Eq, Structural)]
pub enum Edit {
    MoveLeft,
    MoveRight,
    Delete,
    Type(char),
    Submit,
    Cancel,
    Nothing,
}

/// What the application does after a message.
#[derive(Clone, Debug, PartialEq, Eq)]
pub enum Action {
    /// Nothing.
    Nothing,
    /// Leave the interface.
    Quit,
    /// Give the focus to a part of the interface.
    Activate(Id),
    /// Play the search result at this place.
    Play(usize),
    /// Subscribe to the channel of the search result at this place.
    Subscribe(usize),
    /// Unsubscribe from the channel of the search result at this place.
    Unsubscribe(usize),
    /// Download the search result at this place, as video or as audio only.
    Download(usize, bool),
    /// Search for this text and give the focus back to the menu.
    StartSearch(String),
    /// Show these titles in the menu.
    ShowResults(Vec<String>),
    /// Show the main menu.
    ShowMainMenu,
}

/// What an `Action` holds, as plain values.
pub enum ActionView {
    Nothing,
    Quit,
    Activate(Id),
    Play(usize),
    Subscribe(usize),
    Unsubscribe(usize),
    Download(usize, bool),
    StartSearch(Seq<char>),
    ShowResults(Seq<Seq<char>>),
    ShowMainMenu,
}

impl View for Action {
    type V = ActionView;

    open spec fn view(&self) -> ActionView {
        match self {
            Action::Nothing => ActionView::Nothing,
            Action::Quit => ActionView::Quit,
            Action::Activate(id) => ActionView::Activate(*id),
            Action::Play(index) => ActionView::Play(*index),
            Action::Subscribe(index) => ActionView::Subscribe(*index),
            Action::Unsubscribe(index) => ActionView::Unsubscribe(*index),
            Action::Download(index, video) => ActionView::Download(*index, *video),
            Action::StartSearch(query) => ActionView::StartSearch(query@),
            Action::ShowResults(titles) => ActionView::ShowResults(
                Seq::new(titles@.len(), |i: int| titles@[i]@),
            ),
            Action::ShowMainMenu => ActionView::ShowMainMenu,
        }
    }
}

/// The outcome of one message: the view shown from now on, what the application
/// does, and the message to handle next, if there is one.
#[derive(Clone, Debug, PartialEq, Eq)]
pub struct Step {
    pub view: ActiveView,
    pub action: Action,
    pub next: Option<Msg>,
}

/// The entries of the main menu.
pub open spec fn main_menu() -> Seq<Seq<char>> {
    seq!["Search"@, "Feed"@, "Exit"@]
}

/// The name an item is listed under: a video's or playlist's title, a channel's name.
pub open spec fn listed_name(item: ContentView) -> Seq<char> {
    match item {
        ContentView::Video(video) => video.title,
        ContentView::Channel(channel) => channel.username,
        ContentView::Playlist(playlist) => playlist.title,
    }
}

/// What the menu tells the application for a key, given the entry that is
/// highlighted and its place. Keys that act on an entry tell nothing where no
/// entry is highlighted.
pub open spec fn spec_menu_message(key: Key, selected: Option<(Seq<char>, usize)>) -> MsgView {
    match (key, selected) {
        (Key::Esc, _) => MsgView::Exit,
        (Key::Enter, Some((item, index))) => MsgView::MenuSelected(item, index),
        (Key::Char('s'), Some((item, index))) => MsgView::Subscribe(item, index),
        (Key::Char('u'), Some((item, index))) => MsgView::Unsubscribe(item, index),
        (Key::Char('d'), Some((item, index))) => MsgView::Download(item, index, true),
        (Key::Char('m'), Some((item, index))) => MsgView::Download(item, index, false),
        _ => MsgView::Nothing,
    }
}

/// Where a key moves the menu's highlight, if it moves it.
pub open spec fn spec_menu_move(key: Key) -> Option<Move> {
    match key {
        Key::Down | Key::Char('j') => Some(Move::Down),
        Key::Up | Key::Char('k') => Some(Move::Up),
        _ => None,
    }
}

/// What a key does to the text input.
pub open spec fn spec_input_edit(key: Key) -> Edit {
    match key {
        Key::Left => Edit::MoveLeft,
        Key::Right => Edit::MoveRight,
        Key::Backspace => Edit::Delete,
        Key::Char(ch) => Edit::Type(ch),
        Key::Enter => Edit::Submit,
        Key::Esc => Edit::Cancel,
        _ => Edit::Nothing,
    }
}

/// What the text input tells the application after an edit, given its text.
pub open spec fn spec_input_message(edit: Edit, text: Seq<char>) -> Option<MsgView> {
    match edit {
        Edit::Submit => Some(MsgView::Search(text)),
        Edit::Cancel => Some(MsgView::Exit),
        Edit::Nothing => None,
        _ => Some(MsgView::Nothing),
    }
}

/// The view that is shown after a message arrives while `view` is shown with
/// `shown` search results.
pub open spec fn next_view(view: ActiveView, msg: MsgView) -> ActiveView {
    match msg {
        MsgView::MenuSelected(item, _) => if view == ActiveView::MainMenu && item == "Search"@ {
            ActiveView::Idle
        } else {
            view
        },
        MsgView::Search(_) => ActiveView::Idle,
        MsgView::SearchResults(_) => ActiveView::SearchResult,
        MsgView::Exit => ActiveView::MainMenu,
        _ => view,
    }
}

/// What the application does after a message arrives while `view` is shown with
/// `shown` search results. A message that names a result beyond the last does nothing.
pub open spec fn next_action(view: ActiveView, msg: MsgView, shown: usize) -> ActionView {
    match msg {
        MsgView::AppClose => ActionView::Quit,
        MsgView::MenuSelected(item, index) => match view {
            ActiveView::MainMenu => if item == "Search"@ {
                ActionView::Activate(Id::Input)
            } else {
                ActionView::Nothing
            },
            ActiveView::SearchResult => if index < shown {
                ActionView::Play(index)
            } else {
                ActionView::Nothing
            },
            ActiveView::Idle => ActionView::Nothing,
        },
        MsgView::Subscribe(_, index) => if index < shown {
            ActionView::Subscribe(index)
        } else {
            ActionView::Nothing
        },
        MsgView::Unsubscribe(_, index) => if index < shown {
            ActionView::Unsubscribe(index)
        } else {
            ActionView::Nothing
        },
        MsgView::Download(_, index, video) => if index < shown {
            ActionView::Download(index, video)
        } else {
            ActionView::Nothing
        },
        MsgView::Search(query) => ActionView::StartSearch(query),
        MsgView::SearchResults(items) => ActionView::ShowResults(
            Seq::new(items.len(), |i: int| listed_name(items[i])),
        ),
        MsgView::Exit => match view {
            ActiveView::MainMenu => ActionView::Nothing,
            _ => ActionView::ShowMainMenu,
        },
        _ => ActionView::Nothing,
    }
}

/// The message to handle right after this one: closing the application follows
/// from choosing `Exit` in the main menu and from leaving the main menu.
pub open spec fn next_message(view: ActiveView, msg: MsgView) -> Option<MsgView> {
    match msg {
        MsgView::MenuSelected(item, _) => if view == ActiveView::MainMenu && item == "Exit"@ {
            Some(MsgView::AppClose)
        } else {
            None
        },
        MsgView::Exit => if view == ActiveView::MainMenu {
            Some(MsgView::AppClose)
        } else {
            None
        },
        _ => None,
    }
}

/// The view of an optional message.
pub open spec fn message_view(msg: Option<Msg>) -> Option<MsgView> {
    match msg {
        Some(m) => Some(m@),
        None => None,
    }
}

/// What the menu tells the application for a key.
pub fn menu_message(key: Key, selected: Option<(String, usize)>) -> (r: Msg)
    ensures
        r@ == spec_menu_message(
            key,
            match selected {
                Some((item, index)) => Some((item@, index)),
                None => None,
            },
        ),
{
    match (key, selected) {
        (Key::Esc, _) => Msg::Exit,
        (Key::Enter, Some((item, index))) => Msg::MenuSelected(item, index),
        (Key::Char('s'), Some((item, index))) => Msg::Subscribe(item, index),
        (Key::Char('u'), Some((item, index))) => Msg::Unsubscribe(item, index),
        (Key::Char('d'), Some((item, index))) => Msg::Download(item, index, true),
        (Key::Char('m'), Some((item, index))) => Msg::Download(item, index, false),
        _ => Msg::Nothing,
    }
}

/// Where a key moves the menu's highlight, if it moves it.
pub fn menu_move(key: Key) -> (r: Option<Move>)
    ensures
        r == spec_menu_move(key),
{
    match key {
        Key::Down | Key::Char('j') => Some(Move::Down),
        Key::Up | Key::Char('k') => Some(Move::Up),
        _ => None,
    }
}

/// What a key does to the text input.
pub fn input_edit(key: Key) -> (r: Edit)
    ensures
        r == spec_input_edit(key),
{
    match key {
        Key::Left => Edit::MoveLeft,
        Key::Right => Edit::MoveRight,
        Key::Backspace => Edit::Delete,
        Key::Char(ch) => Edit::Type(ch),
        Key::Enter => Edit::Submit,
        Key::Esc => Edit::Cancel,
        _ => Edit::Nothing,
    }
}

/// What the text input tells the application after an edit, given its text.
pub fn input_message(edit: Edit, text: String) -> (r: Option<Msg>)
    ensures
        message_view(r) == spec_input_message(edit, text@),
{
    match edit {
        Edit::Submit => Some(Msg::Search(text)),
        Edit::Cancel => Some(Msg::Exit),
        Edit::Nothing => None,
        _ => Some(Msg::Nothing),
    }
}

/// The entries of the main menu.
pub fn main_menu_items() -> (r: Vec<String>)
    ensures
        r@.len() == main_menu().len(),
        forall|i: int| 0 <= i < r@.len() ==> (#[trigger] r@[i])@ == main_menu()[i],
{
    let mut items: Vec<String> = Vec::new();
    items.push(String::from_str("Search"));
    items.push(String::from_str("Feed"));
    items.push(String::from_str("Exit"));
    items
}

/// The names that `items` are listed under, in order.
pub fn listed_names(items: &Vec<ContentItem>) -> (r: Vec<String>)
    ensures
        r@.len() == items@.len(),
        forall|i: int| 0 <= i < r@.len() ==> (#[trigger] r@[i])@ == listed_name(items@[i]@),
{
    let mut out: Vec<String> = Vec::new();
    let mut i: usize = 0;
    while i < items.len()
        invariant
            i <= items@.len(),
            out@.len() == i,
            forall|j: int| 0 <= j < i ==> (#[trigger] out@[j])@ == listed_name(items@[j]@),
        decreases items@.len() - i,
    {
        let name = match &items[i] {
            ContentItem::Video(video) => video.title.clone(),
            ContentItem::Channel(channel) => channel.username.clone(),
            ContentItem::Playlist(playlist) => playlist.title.clone(),
        };
        out.push(name);
        i += 1;
    }
    out
}

/// Whether `text` is the word `word`.
fn is_word(text: &String, word: &str) -> (r: bool)
    ensures
        r == (text@ == word@),
{
    *text == String::from_str(word)
}

/// Handles one message while `view` is shown with `shown` search results.
pub fn update(view: ActiveView, msg: Msg, shown: usize) -> (r: Step)
    ensures
        r.view == next_view(view, msg@),
        r.action@ == next_action(view, msg@, shown),
        message_view(r.next) == next_message(view, msg@),
{
    proof {
        reveal_strlit("Exit");
        reveal_strlit("Search");
        assert("Exit"@ != "Search"@) by {
            assert("Exit"@.len() == 4 && "Search"@.len() == 6);
        }
    }
    match msg {
        Msg::AppClose => Step { view, action: Action::Quit, next: None },
        Msg::MenuSelected(item, index) => match view {
            ActiveView::MainMenu => if is_word(&item, "Exit") {
                Step { view, action: Action::Nothing, next: Some(Msg::AppClose) }
            } else if is_word(&item, "Search") {
                Step { view: ActiveView::Idle, action: Action::Activate(Id::Input), next: None }
            } else {
                Step { view, action: Action::Nothing, next: None }
            },
            ActiveView::SearchResult => if index < shown {
                Step { view, action: Action::Play(index), next: None }
            } else {
                Step { view, action: Action::Nothing, next: None }
            },
            ActiveView::Idle => Step { view, action: Action::Nothing, next: None },
        },
        Msg::Subscribe(_, index) => if index < shown {
            Step { view, action: Action::Subscribe(index), next: None }
        } else {
            Step { view, action: Action::Nothing, next: None }
        },
        Msg::Unsubscribe(_, index) => if index < shown {
            Step { view, action: Action::Unsubscribe(index), next: None }
        } else {
            Step { view, action: Action::Nothing, next: None }
        },
        Msg::Download(_, index, video) => if index < shown {
            Step { view, action: Action::Download(index, video), next: None }
        } else {
            Step { view, action: Action::Nothing, next: None }
        },
        Msg::Search(query) => Step {
            view: ActiveView::Idle,
            action: Action::StartSearch(query),
            next: None,
        },
        Msg::SearchResults(items) => {
            let titles = listed_names(&items);
            let action = Action::ShowResults(titles);
            assert(action@ == next_action(view, msg@, shown)) by {
                assert(Seq::new(titles@.len(), |i: int| titles@[i]@) =~= Seq::new(
                    item_views(items@).len(),
                    |i: int| listed_name(item_views(items@)[i]),
                ));
            }
            Step { view: ActiveView::SearchResult, action, next: None }
        },
        Msg::Exit => match view {
            ActiveView::MainMenu => Step { view, action: Action::Nothing, next: Some(Msg::AppClose) },
            _ => Step { view: ActiveView::MainMenu, action: Action::ShowMainMenu, next: None },
        },
        _ => Step { view, action: Action::Nothing, next: None },
    }
}

} // verus!
