use silk::extract::parse_document;
use silk::json::Json;
use silk::types::{Channel, ContentItem, Error, Timestamp, Video, VideoDB};
use silk::display::{Piece, Tint};
use silk::types::{Playlist, PlaylistUploader};
use silk::youtube::download::{
    download_arguments, normalize_url, player_command, stream_arguments, DownloadType,
};
use silk::youtube::scraper::{parse_video_props, parse_views};
use silk::store::FeedStore;
use silk::types::FeedRecord;
use silk::youtube::{
    get_feed_videos, search_results_at, search_url, video_of_row, video_titles_at,
};

fn doc(text: &str) -> Json {
    parse_document(text).expect("valid JSON")
}

#[test]
fn views_are_read_before_the_first_space() {
    assert_eq!(parse_views("1.234.567 visualizações".to_string()), Ok(1_234_567));
    assert_eq!(parse_views("12 visualizações".to_string()), Ok(12));
    assert_eq!(parse_views("7 ".to_string()), Ok(7));
}

#[test]
fn malformed_views_are_an_error() {
    assert_eq!(parse_views("1234".to_string()), Err(Error::FieldMappingError));
    assert_eq!(parse_views("Nenhuma visualização".to_string()), Err(Error::FieldMappingError));
    assert_eq!(parse_views(" 12".to_string()), Err(Error::FieldMappingError));
    assert_eq!(parse_views("1,2 mil".to_string()), Err(Error::FieldMappingError));
    assert_eq!(parse_views(String::new()), Err(Error::FieldMappingError));
}

const FULL: &str = "{\"videoId\":\"vid\",\"title\":{\"runs\":[{\"text\":\"Title\"}]},\
    \"navigationEndpoint\":{\"commandMetadata\":{\"webCommandMetadata\":{\"url\":\"/watch?v=vid\"}}},\
    \"lengthText\":{\"simpleText\":\"12:34\"},\
    \"descriptionSnippet\":{\"runs\":[{\"text\":\"one\"},{\"text\":\"two\"}]},\
    \"publishedTimeText\":{\"simpleText\":\"há 2 dias\"},\
    \"thumbnail\":{\"thumbnails\":[{\"url\":\"small\"},{\"url\":\"large\"}]},\
    \"viewCountText\":{\"simpleText\":\"1.024 visualizações\"},\
    \"ownerText\":{\"runs\":[{\"text\":\"Owner\",\"navigationEndpoint\":{\"commandMetadata\":\
    {\"webCommandMetadata\":{\"url\":\"/@owner\"}}}}]},\
    \"ownerBadges\":[{\"metadataBadgeRenderer\":{\"style\":\"BADGE_STYLE_TYPE_SIMPLE\"}},\
    {\"metadataBadgeRenderer\":{\"style\":\"BADGE_STYLE_TYPE_VERIFIED\"}}]}";

#[test]
fn full_renderer_gives_every_property() {
    let props = parse_video_props(&doc(FULL)).expect("properties");
    assert_eq!(props.id, "vid");
    assert_eq!(props.title, "Title");
    assert_eq!(props.url, "https://www.youtube.com/watch?v=vid");
    assert_eq!(props.duration.as_deref(), Some("12:34"));
    assert_eq!(props.snippet.as_deref(), Some("\"one\" \"two\""));
    assert_eq!(props.upload_date.as_deref(), Some("há 2 dias"));
    assert_eq!(props.thumbnail_src.as_deref(), Some("large"));
    assert_eq!(props.views, Some(1024));
    assert_eq!(props.uploader.id, "@owner");
    assert_eq!(props.uploader.username, "Owner");
    assert!(props.uploader.verified);
}

#[test]
fn bare_renderer_gives_fallbacks() {
    let props = parse_video_props(&doc("{\"videoId\":\"vid\"}")).expect("properties");
    assert_eq!(props.id, "vid");
    assert_eq!(props.title, "");
    assert_eq!(props.url, "https://www.youtube.com");
    assert_eq!(props.duration, None);
    assert_eq!(props.snippet, None);
    assert_eq!(props.upload_date, None);
    assert_eq!(props.thumbnail_src, None);
    assert_eq!(props.views, None);
    assert_eq!(props.uploader.id, "");
    assert!(!props.uploader.verified);
}

#[test]
fn unreadable_view_count_is_a_mapping_error() {
    let renderer = doc("{\"videoId\":\"v\",\"viewCountText\":{\"simpleText\":\"muitas\"}}");
    assert_eq!(parse_video_props(&renderer).unwrap_err(), Error::FieldMappingError);
}

#[test]
fn badges_without_the_marker_are_not_verified() {
    let renderer = doc(
        "{\"ownerBadges\":[{\"metadataBadgeRenderer\":{\"style\":\"BADGE_STYLE_TYPE_SIMPLE\"}},{}],\
         \"thumbnail\":{\"thumbnails\":[]},\"descriptionSnippet\":{\"runs\":[]}}",
    );
    let props = parse_video_props(&renderer).expect("properties");
    assert!(!props.uploader.verified);
    assert_eq!(props.thumbnail_src, None);
    assert_eq!(props.snippet, None);
}

#[test]
fn urls_are_made_absolute() {
    assert_eq!(normalize_url("https://example.org/x"), "https://example.org/x");
    assert_eq!(normalize_url("http://example.org/x"), "http://example.org/x");
    assert_eq!(normalize_url("/watch?v=1"), "https://www.youtube.com/watch?v=1");
    assert_eq!(normalize_url("watch?v=1"), "https://www.youtube.com/watch?v=1");
    assert_eq!(normalize_url(""), "https://www.youtube.com/");
}

#[test]
fn download_arguments_depend_on_the_kind() {
    assert_eq!(
        download_arguments("/watch?v=1", DownloadType::Video),
        vec![
            "-P",
            "~/Videos/",
            "-f",
            "best[ext=mp4]/best",
            "--no-playlist",
            "https://www.youtube.com/watch?v=1"
        ]
    );
    assert_eq!(
        download_arguments("watch?v=1", DownloadType::Audio),
        vec![
            "-P",
            "~/Music/",
            "-f",
            "best[ext=mp4]/best",
            "--no-playlist",
            "https://www.youtube.com/watch?v=1",
            "--extract-audio",
            "--audio-format",
            "mp3"
        ]
    );
    assert_eq!(
        stream_arguments("http://x/y"),
        vec!["-f", "best[ext=mp4]/best", "-g", "http://x/y"]
    );
}

fn search_page(count: usize) -> String {
    let items: Vec<String> = (0..count)
        .map(|i| match i % 3 {
            0 => format!("{{\"videoRenderer\":{{\"videoId\":\"v{}\"}}}}", i),
            1 => format!("{{\"lockupViewModel\":{{\"metadata\":{{\"lockupMetadataViewModel\":{{\"title\":{{\"content\":\"mix{}\"}}}}}}}}}}", i),
            _ => format!("{{\"channelRenderer\":{{\"channelId\":\"c{}\"}}}}", i),
        })
        .collect();
    format!(
        "var ytInitialData = {{\"contents\":{{\"twoColumnSearchResultsRenderer\":{{\"primaryContents\":\
         {{\"sectionListRenderer\":{{\"contents\":[{{\"itemSectionRenderer\":{{\"contents\":[{}]}}}}]}}}}}}}}}};</script>",
        items.join(",")
    )
}

fn names(items: &[ContentItem]) -> Vec<String> {
    items
        .iter()
        .map(|item| match item {
            ContentItem::Video(v) => v.id.clone(),
            ContentItem::Channel(c) => c.id.clone(),
            ContentItem::Playlist(p) => p.title.clone(),
        })
        .collect()
}

#[test]
fn search_shows_the_first_ten_results() {
    let now = Timestamp { secs: 1, nanos: 2 };
    let found = search_results_at(&search_page(14), now).expect("results");
    assert_eq!(
        names(&found),
        vec!["v0", "mix1", "c2", "v3", "mix4", "c5", "v6", "mix7", "c8", "v9"]
    );
    assert_eq!(names(&search_results_at(&search_page(2), now).expect("results")), vec!["v0", "mix1"]);
    assert_eq!(search_results_at("<html/>", now).unwrap_err(), Error::ExtractionNotFound);
}

#[test]
fn video_titles_leave_playlists_out() {
    let now = Timestamp { secs: 1, nanos: 2 };
    let found = video_titles_at(&search_page(20), now).expect("results");
    assert_eq!(
        names(&found),
        vec!["v0", "c2", "v3", "c5", "v6", "c8", "v9", "c11", "v12", "c14"]
    );
}

#[test]
fn search_url_carries_the_query() {
    assert_eq!(
        search_url("rust+verus"),
        "https://www.youtube.com/results?search_query=rust+verus"
    );
}

#[test]
fn feed_rows_are_read_back_as_videos() {
    let stored = Timestamp { secs: 1_700_000_000, nanos: 250_000_000 }.format().expect("text");
    assert_eq!(stored, "2023-11-14 22:13:20.250 UTC");
    let rows = vec![
        VideoDB {
            id: "a".into(),
            title: "A".into(),
            url: "https://www.youtube.com/watch?v=a".into(),
            published_at: stored,
            channel_id: "@one".into(),
            channel_username: "One".into(),
        },
        VideoDB {
            id: "b".into(),
            title: "B".into(),
            url: "watch?v=b".into(),
            published_at: "not a time".into(),
            channel_id: "@two".into(),
            channel_username: "Two".into(),
        },
    ];
    let first = video_of_row(&rows[0]);
    assert_eq!(first.id, "a");
    assert_eq!(first.title, "A");
    assert_eq!(first.url, "https://www.youtube.com/watch?v=a");
    assert_eq!(first.channel, Channel::new("@one", "One"));
    assert_eq!(first.channel.url, "https://www.youtube.com/@one");
    assert_eq!(first.published_at, Some(Timestamp { secs: 1_700_000_000, nanos: 250_000_000 }));
    assert_eq!(first.tag, "");
    let second = video_of_row(&rows[1]);
    assert_eq!(second.url, "https://www.youtube.com/watch?v=b");
    assert_eq!(second.published_at, None);
}

#[test]
fn the_feed_shows_the_ten_latest_videos() {
    let mut store = FeedStore::new();
    assert_eq!(get_feed_videos(&store), Ok(Vec::new()));
    store.subscribe("@one", "One");
    store.subscribe("@two", "Two");
    for i in 0..13 {
        store.record(FeedRecord {
            id: format!("v{}", i),
            title: format!("t{}", i),
            url: format!("/watch?v=v{}", i),
            channel: if i % 3 == 0 { "@gone".into() } else if i % 3 == 1 { "@one".into() } else { "@two".into() },
            published_at: Timestamp { secs: (i * 7) % 13, nanos: 0 },
        });
    }
    store.subscribe("@gone", "Back");
    let items = get_feed_videos(&store).expect("the feed");
    assert_eq!(items.len(), 10);
    let mut times = Vec::new();
    for item in items.iter() {
        match item {
            ContentItem::Video(v) => times.push(v.published_at.expect("a time").secs),
            other => panic!("expected a video, got {:?}", other),
        }
    }
    assert_eq!(times, vec![12, 11, 10, 9, 8, 7, 6, 5, 4, 3]);
    match &items[0] {
        ContentItem::Video(v) => {
            assert_eq!(v.id, "v11");
            assert_eq!(v.channel, Channel::new("@two", "Two"));
            assert_eq!(v.url, "https://www.youtube.com/watch?v=v11");
        }
        other => panic!("expected a video, got {:?}", other),
    }
    store.unsubscribe("@two");
    let fewer = get_feed_videos(&store).expect("the feed");
    assert_eq!(fewer.len(), 9);
    assert!(fewer.iter().all(|item| matches!(item, ContentItem::Video(v) if v.channel.id != "@two")));
}

#[test]
fn timestamps_round_trip_through_text() {
    for t in [
        Timestamp { secs: 0, nanos: 0 },
        Timestamp { secs: 1_700_000_000, nanos: 1 },
        Timestamp { secs: -1, nanos: 999_999_999 },
    ] {
        let text = t.format().expect("text");
        assert_eq!(Timestamp::parse(&text), Some(t));
    }
    assert_eq!(Timestamp { secs: i64::MAX, nanos: 0 }.format(), None);
    assert_eq!(Timestamp::parse("2012-12-12T12:12:12Z"), Some(Timestamp { secs: 1_355_314_332, nanos: 0 }));
    assert_eq!(Timestamp::parse(""), None);
}

#[test]
fn a_video_describes_itself() {
    let mut video = Video {
        id: "vid".into(),
        title: "Title".into(),
        url: "https://www.youtube.com/watch?v=vid".into(),
        tag: String::new(),
        channel: Channel::new("@one", "One"),
        published_at: Some(Timestamp { secs: 0, nanos: 0 }),
    };
    assert_eq!(
        video.describe(),
        "Id: vid\nTitle: Title\nUrl: https://www.youtube.com/watch?v=vid\nChannel:\n  Id: @one\n  \
         Username: One\n  Url: https://www.youtube.com/@one\nPublished at: 1970-01-01 00:00:00 UTC\n"
    );
    video.published_at = None;
    video.tag = "Subscribed".into();
    assert_eq!(
        video.describe(),
        "Id: vid\nTitle: Title\nUrl: https://www.youtube.com/watch?v=vid\nChannel:\n  Id: @one\n  \
         Username: One\n  Url: https://www.youtube.com/@one\nTag: Subscribed\n"
    );
}

#[test]
fn errors_describe_themselves() {
    assert_eq!(Error::NetworkFailure.describe(), "Failed on search request");
    assert_eq!(Error::ExtractionNotFound.describe(), "ytInitialData not found");
    assert_eq!(Error::ExtractionParseError.describe(), "Failed to parse html");
    assert_eq!(Error::SchemaMismatch.describe(), "Content not found");
    assert_eq!(Error::FieldMappingError.describe(), "Failed to read a field");
    assert_eq!(Error::PersistenceFailure.describe(), "Failed to reach the store");
}

#[test]
fn the_player_is_started_through_the_shell() {
    assert_eq!(
        player_command("linux", "http://s/1"),
        Some(vec!["sh".to_string(), "-c".to_string(), "mpv 'http://s/1' > /dev/null".to_string()])
    );
    assert_eq!(
        player_command("windows", "http://s/1"),
        Some(vec![
            "powershell".to_string(),
            "-Command".to_string(),
            "mpv 'http://s/1' > $null".to_string()
        ])
    );
    assert_eq!(player_command("macos", "http://s/1"), None);
    assert_eq!(player_command("", ""), None);
}

fn piece(text: &str, tint: Tint, bold: bool) -> Piece {
    Piece { text: text.to_string(), tint, bold }
}

#[test]
fn items_are_drawn_by_kind_and_selection() {
    let channel = Channel { tag: "Subscribed".into(), ..Channel::new("@one", "One") };
    let video = Video {
        id: "v".into(),
        title: "Title".into(),
        url: "u".into(),
        tag: String::new(),
        channel: channel.clone(),
        published_at: None,
    };
    let playlist = Playlist {
        id: "p".into(),
        title: "Mix".into(),
        url: "u".into(),
        tag: "new".into(),
        uploader: PlaylistUploader::MultiUploaders("Many".into()),
    };
    assert_eq!(
        ContentItem::Video(video.clone()).display(true),
        vec![
            vec![piece("> Title\n", Tint::Yellow, true), piece(" \n", Tint::Blue, false)],
            vec![piece("  One", Tint::Yellow, true)],
        ]
    );
    assert_eq!(
        video.display(false),
        vec![
            vec![piece("  Title\n", Tint::Plain, false), piece(" \n", Tint::Blue, false)],
            vec![piece("  One", Tint::Plain, false)],
        ]
    );
    assert_eq!(
        ContentItem::Channel(channel.clone()).display(true),
        vec![vec![piece("> One\n", Tint::Red, true), piece(" Subscribed\n", Tint::Blue, false)]]
    );
    assert_eq!(
        channel.display(false),
        vec![vec![piece("  One\n", Tint::Plain, false), piece(" Subscribed\n", Tint::Blue, false)]]
    );
    assert_eq!(
        ContentItem::Playlist(playlist.clone()).display(true),
        vec![
            vec![piece("> Mix\n", Tint::Green, true), piece(" new\n", Tint::Blue, false)],
            vec![piece("  Many", Tint::Yellow, true)],
        ]
    );
    let by_channel = Playlist { uploader: PlaylistUploader::Channel(channel), ..playlist };
    assert_eq!(
        by_channel.display(false)[1],
        vec![piece("  One", Tint::Plain, false)]
    );
}
