use silk::feed::{
    collect_videos, keep_recent, publish_times, published_recently, read_page,
    sort_by_publish_time, update_feed, videos_of_page, FetchedPage,
};
use silk::order::ascending_order;
use silk::store::{
    settle_subscribe, settle_unsubscribe, FeedStore, SubscribeStatus, UnsubscribeStatus,
    WriteOutcome,
};
use silk::types::{Channel, ChannelDB, Error, FeedRecord, Timestamp, Video};
use silk::youtube::parser::{channel_videos_url, parse_channel_videos};

const DAY: i64 = 86_400;
const NOW: Timestamp = Timestamp { secs: 1_700_000_000, nanos: 500 };

fn at(secs: i64, nanos: u32) -> Timestamp {
    Timestamp { secs, nanos }
}

fn video(id: &str, channel: &str, published_at: Option<Timestamp>) -> Video {
    Video {
        id: id.to_string(),
        title: format!("title of {}", id),
        url: format!("https://www.youtube.com/watch?v={}", id),
        tag: String::new(),
        channel: Channel::new(channel, "name"),
        published_at,
    }
}

fn ids(videos: &[Video]) -> Vec<String> {
    videos.iter().map(|v| v.id.clone()).collect()
}

fn grid_page(entries: &[(&str, &str)]) -> String {
    let items: Vec<String> = entries
        .iter()
        .map(|(id, when)| {
            format!(
                "{{\"richItemRenderer\":{{\"content\":{{\"videoRenderer\":{{\"videoId\":\"{}\",\
                 \"title\":{{\"runs\":[{{\"text\":\"T {}\"}}]}},\
                 \"publishedTimeText\":{{\"simpleText\":\"{}\"}}}}}}}}}}",
                id, id, when
            )
        })
        .collect();
    format!(
        "<html><script>var ytInitialData = {{\"contents\":{{\"twoColumnBrowseResultsRenderer\":\
         {{\"tabs\":[{{}},{{\"tabRenderer\":{{\"content\":{{\"richGridRenderer\":{{\"contents\":[{}]}}}}}}}}]}}}}}};</script></html>",
        items.join(",")
    )
}

#[test]
fn eight_days_old_is_excluded_and_three_days_old_is_included() {
    let videos = vec![
        video("old", "c", Some(at(NOW.secs - 8 * DAY, NOW.nanos))),
        video("new", "c", Some(at(NOW.secs - 3 * DAY, NOW.nanos))),
    ];
    assert_eq!(ids(&keep_recent(&videos, NOW)), vec!["new"]);
}

#[test]
fn the_window_ends_exactly_seven_days_back() {
    let edge = NOW.secs - 7 * DAY;
    assert!(published_recently(Some(at(edge, NOW.nanos)), NOW));
    assert!(published_recently(Some(at(edge, NOW.nanos + 1)), NOW));
    assert!(!published_recently(Some(at(edge, NOW.nanos - 1)), NOW));
    assert!(!published_recently(Some(at(edge - 1, 999_999_999)), NOW));
    assert!(published_recently(Some(at(NOW.secs + 10, 0)), NOW));
    assert!(!published_recently(None, NOW));
    assert!(published_recently(Some(at(i64::MAX, 0)), NOW));
    assert!(!published_recently(Some(at(i64::MIN, 0)), NOW));
}

#[test]
fn videos_without_publish_time_are_dropped() {
    let videos = vec![video("a", "c", None), video("b", "c", Some(NOW))];
    assert_eq!(ids(&keep_recent(&videos, NOW)), vec!["b"]);
}

#[test]
fn sorting_is_ascending_and_stable() {
    let videos = vec![
        video("c", "x", Some(at(30, 0))),
        video("a1", "x", Some(at(10, 5))),
        video("b", "x", Some(at(20, 0))),
        video("a2", "x", Some(at(10, 5))),
        video("a0", "x", Some(at(10, 4))),
    ];
    assert_eq!(ids(&sort_by_publish_time(&videos)), vec!["a0", "a1", "a2", "b", "c"]);
    assert!(sort_by_publish_time(&Vec::new()).is_empty());
}

#[test]
fn ascending_order_lists_positions() {
    let keys = vec![at(5, 0), at(1, 0), at(5, 0), at(0, 9), at(1, 0)];
    assert_eq!(ascending_order(&keys), vec![3, 1, 4, 0, 2]);
    assert_eq!(ascending_order(&Vec::new()), Vec::<usize>::new());
}

#[test]
fn channel_page_gives_its_resolved_videos() {
    let channel = Channel::new("@chan", "Chan");
    let page = grid_page(&[("v1", "há 2 dias"), ("v2", "em breve"), ("v3", "há 1 hora")]);
    let videos = parse_channel_videos(&channel, &page, NOW).expect("videos");
    assert_eq!(ids(&videos), vec!["v1", "v3"]);
    assert_eq!(videos[0].title, "T v1");
    assert_eq!(videos[0].url, "https://www.youtube.com/watch?v=v1");
    assert_eq!(videos[0].channel, channel);
    assert_eq!(videos[0].published_at, Some(at(NOW.secs - 2 * DAY, NOW.nanos)));
    assert_eq!(videos[1].published_at, Some(at(NOW.secs - 3_600, NOW.nanos)));
}

#[test]
fn channel_page_errors() {
    let channel = Channel::new("@chan", "Chan");
    assert_eq!(
        parse_channel_videos(&channel, "nothing here", NOW).unwrap_err(),
        Error::ExtractionNotFound
    );
    assert_eq!(
        parse_channel_videos(&channel, "var ytInitialData = {\"a\":};</script>", NOW).unwrap_err(),
        Error::ExtractionParseError
    );
    assert_eq!(
        parse_channel_videos(&channel, "var ytInitialData = {\"contents\":1};</script>", NOW)
            .unwrap_err(),
        Error::SchemaMismatch
    );
}

#[test]
fn channel_videos_url_appends_videos() {
    assert_eq!(
        channel_videos_url(&Channel::new("@chan", "Chan")),
        "https://www.youtube.com/@chan/videos"
    );
}

#[test]
fn aggregation_filters_merges_and_sorts() {
    let pages = vec![
        FetchedPage {
            channel: ChannelDB { channel_id: "@one".into(), channel_username: "One".into() },
            page: Some(grid_page(&[("a", "há 3 dias"), ("b", "há 8 dias"), ("c", "há 1 hora")])),
        },
        FetchedPage {
            channel: ChannelDB { channel_id: "@down".into(), channel_username: "Down".into() },
            page: None,
        },
        FetchedPage {
            channel: ChannelDB { channel_id: "@bad".into(), channel_username: "Bad".into() },
            page: Some("<html>no data</html>".to_string()),
        },
        FetchedPage {
            channel: ChannelDB { channel_id: "@two".into(), channel_username: "Two".into() },
            page: Some(grid_page(&[("d", "há 2 dias"), ("e", "há 1 mês"), ("f", "há 3 dias")])),
        },
    ];
    assert_eq!(ids(&collect_videos(&pages, NOW)), vec!["a", "b", "c", "d", "e", "f"]);
    let feed = update_feed(&pages, NOW);
    assert_eq!(ids(&feed), vec!["a", "f", "d", "c"]);
    assert_eq!(feed[0].channel, Channel::new("@one", "One"));
    assert_eq!(feed[1].channel, Channel::new("@two", "Two"));
}

#[test]
fn subscribing_twice_leaves_one_record() {
    let mut store = FeedStore::new();
    assert_eq!(store.subscribe("@one", "One"), SubscribeStatus::Subscribed);
    assert_eq!(store.subscribe("@one", "Other"), SubscribeStatus::AlreadySubscribed);
    assert_eq!(
        store.list_subscriptions(),
        vec![ChannelDB { channel_id: "@one".into(), channel_username: "One".into() }]
    );
    assert_eq!(
        SubscribeStatus::AlreadySubscribed.message(),
        "You're already subscribed to this channel."
    );
    assert_eq!(SubscribeStatus::Subscribed.message(), "Subscribed");
    assert_eq!(SubscribeStatus::Failed.message(), "Some error occur on subscribe");
}

#[test]
fn unsubscribing_an_absent_channel_changes_nothing() {
    let mut store = FeedStore::new();
    store.subscribe("@one", "One");
    store.subscribe("@two", "Two");
    let before = store.list_subscriptions();
    assert_eq!(store.unsubscribe("@three"), UnsubscribeStatus::NotSubscribed);
    assert_eq!(store.list_subscriptions(), before);
    assert_eq!(store.unsubscribe("@one"), UnsubscribeStatus::Unsubscribed);
    assert_eq!(
        store.list_subscriptions(),
        vec![ChannelDB { channel_id: "@two".into(), channel_username: "Two".into() }]
    );
    assert_eq!(store.unsubscribe("@one"), UnsubscribeStatus::NotSubscribed);
    assert_eq!(
        UnsubscribeStatus::NotSubscribed.message(),
        "You're not subscribed to this channel"
    );
    assert_eq!(UnsubscribeStatus::Unsubscribed.message(), "Unsubscribed");
    assert_eq!(UnsubscribeStatus::Failed.message(), "Some error occur on unsubscribe");
}

fn record(id: &str, channel: &str, secs: i64) -> FeedRecord {
    FeedRecord {
        id: id.to_string(),
        title: format!("t-{}", id),
        url: format!("/watch?v={}", id),
        channel: channel.to_string(),
        published_at: at(secs, 0),
    }
}

#[test]
fn list_feed_is_limited_ordered_and_joined() {
    let mut store = FeedStore::new();
    store.subscribe("@one", "One");
    store.subscribe("@two", "Two");
    for i in 0..12 {
        store.record(record(&format!("v{}", i), if i % 2 == 0 { "@one" } else { "@two" }, i));
    }
    store.record(record("orphan", "@gone", 100));
    let listed = store.list_feed(10);
    assert_eq!(
        ids(&listed),
        vec!["v11", "v10", "v9", "v8", "v7", "v6", "v5", "v4", "v3", "v2"]
    );
    assert_eq!(listed[0].channel, Channel::new("@two", "Two"));
    assert_eq!(listed[1].channel, Channel::new("@one", "One"));
    assert_eq!(listed[0].url, "https://www.youtube.com/watch?v=v11");
    assert_eq!(listed[0].published_at, Some(at(11, 0)));
    assert_eq!(listed[0].tag, "");
    assert_eq!(store.list_feed(0).len(), 0);
    assert_eq!(store.list_feed(100).len(), 12);
}

#[test]
fn list_feed_follows_the_subscriptions() {
    let mut store = FeedStore::new();
    store.subscribe("@one", "Old name");
    store.record(record("a", "@one", 1));
    assert_eq!(store.list_feed(10)[0].channel.username, "Old name");
    store.unsubscribe("@one");
    assert!(store.list_feed(10).is_empty());
    store.subscribe("@one", "New name");
    assert_eq!(store.list_feed(10)[0].channel.username, "New name");
}

#[test]
fn recording_videos_skips_those_without_time() {
    let mut store = FeedStore::new();
    store.subscribe("c", "C");
    store.record_all(&vec![
        video("a", "c", Some(at(5, 0))),
        video("b", "c", None),
        video("d", "c", Some(at(7, 0))),
    ]);
    assert_eq!(ids(&store.list_feed(10)), vec!["d", "a"]);
    assert_eq!(FeedRecord::from_video(&video("b", "c", None)), None);
    let made = FeedRecord::from_video(&video("a", "c", Some(at(5, 0)))).expect("a record");
    assert_eq!(made.channel, "c");
    assert_eq!(made.published_at, at(5, 0));
}

#[test]
fn video_tag_tells_how_subscribing_went() {
    let mut store = FeedStore::new();
    let mut v = video("a", "@one", None);
    v.subscribe(&mut store);
    assert_eq!(v.tag, "Subscribed");
    v.subscribe(&mut store);
    assert_eq!(v.tag, "You're already subscribed to this channel.");
    assert_eq!(store.list_subscriptions().len(), 1);
    v.unsubscribe(&mut store);
    assert_eq!(v.tag, "Unsubscribed");
    v.unsubscribe(&mut store);
    assert_eq!(v.tag, "You're not subscribed to this channel");
    assert!(store.list_subscriptions().is_empty());
}

#[test]
fn a_page_that_was_not_fetched_is_a_network_failure() {
    let missing = FetchedPage {
        channel: ChannelDB { channel_id: "@down".into(), channel_username: "Down".into() },
        page: None,
    };
    assert_eq!(read_page(&missing, NOW).unwrap_err(), Error::NetworkFailure);
    assert!(videos_of_page(&missing, NOW).is_empty());
    let empty = FetchedPage {
        channel: ChannelDB { channel_id: "@one".into(), channel_username: "One".into() },
        page: Some(grid_page(&[("a", "há 3 dias")])),
    };
    assert_eq!(ids(&read_page(&empty, NOW).expect("videos")), vec!["a"]);
}

#[test]
fn videos_are_ordered_by_their_publish_time_or_the_epoch() {
    let videos = vec![video("a", "c", Some(at(5, 7))), video("b", "c", None)];
    assert_eq!(publish_times(&videos), vec![at(5, 7), at(0, 0)]);
    assert!(publish_times(&Vec::new()).is_empty());
}

const OUTCOMES: [WriteOutcome; 4] = [
    WriteOutcome::Skipped,
    WriteOutcome::Written,
    WriteOutcome::Duplicate,
    WriteOutcome::Failed,
];

#[test]
fn the_write_settles_a_request_to_subscribe() {
    let added = SubscribeStatus::Subscribed;
    assert_eq!(settle_subscribe(added, WriteOutcome::Written), (added, false));
    assert_eq!(
        settle_subscribe(added, WriteOutcome::Duplicate),
        (SubscribeStatus::AlreadySubscribed, false)
    );
    assert_eq!(settle_subscribe(added, WriteOutcome::Failed), (SubscribeStatus::Failed, true));
    assert_eq!(settle_subscribe(added, WriteOutcome::Skipped), (added, false));
    for written in OUTCOMES {
        assert_eq!(
            settle_subscribe(SubscribeStatus::AlreadySubscribed, written),
            (SubscribeStatus::AlreadySubscribed, false)
        );
        assert_eq!(
            settle_subscribe(SubscribeStatus::Failed, written),
            (SubscribeStatus::Failed, false)
        );
    }
}

#[test]
fn the_write_settles_a_request_to_unsubscribe() {
    let removed = UnsubscribeStatus::Unsubscribed;
    assert_eq!(settle_unsubscribe(removed, WriteOutcome::Written), (removed, false));
    assert_eq!(settle_unsubscribe(removed, WriteOutcome::Failed), (UnsubscribeStatus::Failed, true));
    assert_eq!(settle_unsubscribe(removed, WriteOutcome::Skipped), (removed, false));
    assert_eq!(settle_unsubscribe(removed, WriteOutcome::Duplicate), (removed, false));
    for written in OUTCOMES {
        assert_eq!(
            settle_unsubscribe(UnsubscribeStatus::NotSubscribed, written),
            (UnsubscribeStatus::NotSubscribed, false)
        );
        assert_eq!(
            settle_unsubscribe(UnsubscribeStatus::Failed, written),
            (UnsubscribeStatus::Failed, false)
        );
    }
}

#[test]
fn the_clock_is_not_before_the_epoch() {
    let mut store = FeedStore::new();
    store.subscribe("@one", "One");
    let mut pages = store.pages_to_fetch();
    pages[0].page = Some(grid_page(&[("a", "há 3 dias"), ("b", "há 2 meses")]));
    let added = store.run_aggregation(&pages);
    assert_eq!(ids(&added), vec!["a"]);
    let published = added[0].published_at.expect("a time");
    assert!(published.secs >= -3 * DAY);
    assert_eq!(ids(&store.list_feed(10)), vec!["a"]);
}
