use silk::input::{cursor_stops, stop_after, stop_before, string_of, OwnStates};
use silk::store::{FeedStore, FEED_LIMIT};
use silk::tui::{
    input_edit, input_message, listed_names, main_menu_items, menu_message, menu_move, update,
    Action, ActiveView, Edit, Id, Key, Move, Msg, Step,
};
use silk::types::{Channel, ContentItem, Playlist, PlaylistUploader, Video};

fn typed(text: &str) -> OwnStates {
    let mut state = OwnStates::new();
    for ch in text.chars() {
        state.append(ch);
    }
    state
}

#[test]
fn typing_moves_the_cursor_to_the_end() {
    let state = typed("olá");
    assert_eq!(state.value(), "olá");
    assert_eq!(state.position(), 3);
    assert_eq!(state.cursor_column(), 3);
}

#[test]
fn cursor_moves_by_grapheme_cluster() {
    let mut state = typed("a\u{310}e\u{301}o");
    assert_eq!(state.position(), 5);
    state.decr_cursor();
    assert_eq!(state.position(), 4);
    state.decr_cursor();
    assert_eq!(state.position(), 2);
    assert_eq!(state.cursor_column(), 1);
    state.decr_cursor();
    assert_eq!(state.position(), 0);
    state.decr_cursor();
    assert_eq!(state.position(), 0);
    state.incr_cursor();
    assert_eq!(state.position(), 2);
    state.incr_cursor();
    state.incr_cursor();
    assert_eq!(state.position(), 5);
    state.incr_cursor();
    assert_eq!(state.position(), 5);
}

#[test]
fn typing_in_the_middle_inserts_at_the_cursor() {
    let mut state = typed("ac");
    state.decr_cursor();
    state.append('b');
    assert_eq!(state.value(), "abc");
    assert_eq!(state.position(), 2);
}

#[test]
fn backspace_removes_before_the_cursor() {
    let mut state = typed("abc");
    state.backspace();
    assert_eq!(state.value(), "ab");
    assert_eq!(state.position(), 2);
    state.cursor_at_begin();
    state.backspace();
    assert_eq!(state.value(), "ab");
    assert_eq!(state.position(), 0);
    state.cursor_at_end();
    assert_eq!(state.position(), 2);
    state.clear();
    assert_eq!(state.value(), "");
    assert_eq!(state.position(), 0);
    state.backspace();
    assert_eq!(state, OwnStates::new());
}

#[test]
fn backspace_on_a_cluster_removes_its_first_character() {
    let mut state = typed("xe\u{301}");
    state.backspace();
    assert_eq!(state.value(), "x\u{301}");
    assert_eq!(state.position(), 1);
}

#[test]
fn stops_are_where_clusters_start() {
    let text: Vec<char> = "a\u{310}e\u{301}\r\nb".chars().collect();
    assert_eq!(cursor_stops(&text), vec![0, 2, 4, 6]);
    assert_eq!(cursor_stops(&Vec::new()), Vec::<usize>::new());
    assert_eq!(string_of(&text), "a\u{310}e\u{301}\r\nb");
    assert_eq!(stop_after(&vec![0, 2, 4], 2, 9), 4);
    assert_eq!(stop_after(&vec![0, 2, 4], 4, 9), 9);
    assert_eq!(stop_before(&vec![0, 2, 4], 4), 2);
    assert_eq!(stop_before(&vec![0, 2, 4], 0), 0);
    assert_eq!(stop_before(&vec![], 3), 3);
}

#[test]
fn menu_keys_become_messages() {
    let selected = Some(("Exit".to_string(), 2));
    assert_eq!(menu_message(Key::Enter, selected.clone()), Msg::MenuSelected("Exit".into(), 2));
    assert_eq!(menu_message(Key::Char('s'), selected.clone()), Msg::Subscribe("Exit".into(), 2));
    assert_eq!(menu_message(Key::Char('u'), selected.clone()), Msg::Unsubscribe("Exit".into(), 2));
    assert_eq!(menu_message(Key::Char('d'), selected.clone()), Msg::Download("Exit".into(), 2, true));
    assert_eq!(menu_message(Key::Char('m'), selected.clone()), Msg::Download("Exit".into(), 2, false));
    assert_eq!(menu_message(Key::Esc, selected.clone()), Msg::Exit);
    assert_eq!(menu_message(Key::Esc, None), Msg::Exit);
    assert_eq!(menu_message(Key::Enter, None), Msg::Nothing);
    assert_eq!(menu_message(Key::Char('x'), selected.clone()), Msg::Nothing);
    assert_eq!(menu_message(Key::Down, selected), Msg::Nothing);
    assert_eq!(menu_move(Key::Down), Some(Move::Down));
    assert_eq!(menu_move(Key::Char('j')), Some(Move::Down));
    assert_eq!(menu_move(Key::Up), Some(Move::Up));
    assert_eq!(menu_move(Key::Char('k')), Some(Move::Up));
    assert_eq!(menu_move(Key::Enter), None);
}

#[test]
fn input_keys_become_edits_and_messages() {
    assert_eq!(input_edit(Key::Left), Edit::MoveLeft);
    assert_eq!(input_edit(Key::Right), Edit::MoveRight);
    assert_eq!(input_edit(Key::Backspace), Edit::Delete);
    assert_eq!(input_edit(Key::Char('q')), Edit::Type('q'));
    assert_eq!(input_edit(Key::Enter), Edit::Submit);
    assert_eq!(input_edit(Key::Esc), Edit::Cancel);
    assert_eq!(input_edit(Key::Up), Edit::Nothing);
    assert_eq!(input_message(Edit::Submit, "rust".into()), Some(Msg::Search("rust".into())));
    assert_eq!(input_message(Edit::Cancel, "rust".into()), Some(Msg::Exit));
    assert_eq!(input_message(Edit::Type('a'), "a".into()), Some(Msg::Nothing));
    assert_eq!(input_message(Edit::Nothing, "a".into()), None);
}

fn results() -> Vec<ContentItem> {
    vec![
        ContentItem::Video(Video {
            id: "v".into(),
            title: "A video".into(),
            url: "u".into(),
            tag: String::new(),
            channel: Channel::new("c", "C"),
            published_at: None,
        }),
        ContentItem::Channel(Channel::new("c", "A channel")),
        ContentItem::Playlist(Playlist {
            id: "p".into(),
            title: "A playlist".into(),
            url: "u".into(),
            tag: String::new(),
            uploader: PlaylistUploader::MultiUploaders("many".into()),
        }),
    ]
}

fn step(view: ActiveView, action: Action, next: Option<Msg>) -> Step {
    Step { view, action, next }
}

#[test]
fn main_menu_navigation() {
    let main = ActiveView::MainMenu;
    assert_eq!(main_menu_items(), vec!["Search", "Feed", "Exit"]);
    assert_eq!(
        update(main, Msg::MenuSelected("Exit".into(), 2), 0),
        step(main, Action::Nothing, Some(Msg::AppClose))
    );
    assert_eq!(
        update(main, Msg::MenuSelected("Search".into(), 0), 0),
        step(ActiveView::Idle, Action::Activate(Id::Input), None)
    );
    assert_eq!(
        update(main, Msg::MenuSelected("Feed".into(), 1), 0),
        step(main, Action::Nothing, None)
    );
    assert_eq!(update(main, Msg::Exit, 0), step(main, Action::Nothing, Some(Msg::AppClose)));
    assert_eq!(update(main, Msg::AppClose, 0), step(main, Action::Quit, None));
    assert_eq!(update(main, Msg::Clock, 0), step(main, Action::Nothing, None));
    assert_eq!(update(main, Msg::Nothing, 0), step(main, Action::Nothing, None));
}

#[test]
fn search_navigation() {
    let shown = ActiveView::SearchResult;
    assert_eq!(
        update(ActiveView::Idle, Msg::Search("rust".into()), 0),
        step(ActiveView::Idle, Action::StartSearch("rust".into()), None)
    );
    assert_eq!(
        update(ActiveView::Idle, Msg::SearchResults(results()), 0),
        step(
            shown,
            Action::ShowResults(vec!["A video".into(), "A channel".into(), "A playlist".into()]),
            None
        )
    );
    assert_eq!(listed_names(&results()), vec!["A video", "A channel", "A playlist"]);
    assert_eq!(update(shown, Msg::MenuSelected("x".into(), 1), 3), step(shown, Action::Play(1), None));
    assert_eq!(update(shown, Msg::MenuSelected("x".into(), 3), 3), step(shown, Action::Nothing, None));
    assert_eq!(update(shown, Msg::Subscribe("x".into(), 2), 3), step(shown, Action::Subscribe(2), None));
    assert_eq!(update(shown, Msg::Subscribe("x".into(), 3), 3), step(shown, Action::Nothing, None));
    assert_eq!(update(shown, Msg::Unsubscribe("x".into(), 0), 3), step(shown, Action::Unsubscribe(0), None));
    assert_eq!(update(shown, Msg::Download("x".into(), 0, false), 3), step(shown, Action::Download(0, false), None));
    assert_eq!(update(shown, Msg::Download("x".into(), 9, true), 3), step(shown, Action::Nothing, None));
    assert_eq!(update(shown, Msg::Exit, 3), step(ActiveView::MainMenu, Action::ShowMainMenu, None));
    assert_eq!(update(ActiveView::Idle, Msg::Exit, 0), step(ActiveView::MainMenu, Action::ShowMainMenu, None));
    assert_eq!(update(ActiveView::Idle, Msg::MenuSelected("Exit".into(), 0), 0), step(ActiveView::Idle, Action::Nothing, None));
}

#[test]
fn items_subscribe_through_their_video() {
    let mut store = FeedStore::new();
    let mut items = results();
    items[0].subscribe(&mut store);
    items[1].subscribe(&mut store);
    items[2].subscribe(&mut store);
    assert_eq!(store.list_subscriptions().len(), 1);
    assert!(matches!(&items[0], ContentItem::Video(v) if v.tag == "Subscribed"));
    assert_eq!(items[1], results()[1]);
    assert_eq!(items[2], results()[2]);
    items[1].unsubscribe(&mut store);
    assert_eq!(store.list_subscriptions().len(), 1);
    items[0].unsubscribe(&mut store);
    assert!(matches!(&items[0], ContentItem::Video(v) if v.tag == "Unsubscribed"));
    assert!(store.list_subscriptions().is_empty());
    assert_eq!(FEED_LIMIT, 10);
    let pages = store.pages_to_fetch();
    assert!(pages.is_empty());
    assert!(store.run_aggregation(&pages).is_empty());
}
