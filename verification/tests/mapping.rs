use silk::extract::{extract_contents_from_yt_page, extract_document, parse_document};
use silk::json::{key, render, Json};
use silk::types::{Channel, ContentItem, Error, PlaylistUploader, Timestamp};
use silk::youtube::parser::{
    contents_at, parse_channel_props, parse_playlist_props, remove_first_char, remove_quotes,
    video_props_at,
};

fn doc(text: &str) -> Json {
    parse_document(text).expect("valid JSON")
}

#[test]
fn remove_quotes_strips_both_ends() {
    assert_eq!(remove_quotes("\"abc\"".to_string()), "abc");
    assert_eq!(remove_quotes("\"\"".to_string()), "");
    assert_eq!(remove_quotes("x".to_string()), "");
    assert_eq!(remove_quotes(String::new()), "");
    assert_eq!(remove_quotes("\"mês\"".to_string()), "mês");
}

#[test]
fn remove_first_char_strips_one() {
    assert_eq!(remove_first_char("/@name".to_string()), "@name");
    assert_eq!(remove_first_char("é".to_string()), "");
    assert_eq!(remove_first_char(String::new()), "");
}

#[test]
fn render_prints_compact_json() {
    let value = doc("{ \"b\" : [1, 2.5, \"x\\\"y\"], \"a\": null }");
    assert_eq!(render(Some(&value)), "{\"a\":null,\"b\":[1,2.5,\"x\\\"y\"]}");
    assert_eq!(render(None), "null");
    assert_eq!(render(key(Some(&value), "missing")), "null");
}

#[test]
fn extraction_finds_the_document() {
    let page = "<script>var ytInitialData = {\"a\":{\"b\":1}};</script>";
    let found = extract_document(page).expect("document");
    assert_eq!(render(key(key(Some(&found), "a"), "b")), "1");
}

#[test]
fn extraction_reports_missing_pattern() {
    assert_eq!(extract_document("<html></html>").unwrap_err(), Error::ExtractionNotFound);
}

#[test]
fn extraction_reports_bad_json() {
    let page = "var ytInitialData = {not json};</script>";
    assert_eq!(extract_document(page).unwrap_err(), Error::ExtractionParseError);
}

#[test]
fn search_list_is_required() {
    let page = "var ytInitialData = {\"contents\":{}};</script>".to_string();
    assert_eq!(extract_contents_from_yt_page(page).unwrap_err(), Error::SchemaMismatch);
}

#[test]
fn channel_renderer_maps_to_channel() {
    let renderer = doc(
        "{\"channelId\":\"UC123\",\"title\":{\"simpleText\":\"Some One\"},\
         \"navigationEndpoint\":{\"commandMetadata\":{\"webCommandMetadata\":{\"url\":\"/@someone\"}}}}",
    );
    let channel = parse_channel_props(&renderer);
    assert_eq!(channel.id, "UC123");
    assert_eq!(channel.username, "Some One");
    assert_eq!(channel.url, "https://www.youtube.com/@someone");
    assert_eq!(channel.tag, "");
}

#[test]
fn video_renderer_maps_to_video() {
    let renderer = doc(
        "{\"videoId\":\"vid1\",\"title\":{\"runs\":[{\"text\":\"A title\"}]},\
         \"navigationEndpoint\":{\"commandMetadata\":{\"webCommandMetadata\":{\"url\":\"/watch?v=vid1\"}}},\
         \"ownerText\":{\"runs\":[{\"text\":\"Owner\",\"navigationEndpoint\":{\"commandMetadata\":\
         {\"webCommandMetadata\":{\"url\":\"/@owner\"}}}}]}}",
    );
    let now = Timestamp { secs: 1_700_000_000, nanos: 5 };
    let video = video_props_at(&renderer, now);
    assert_eq!(video.id, "vid1");
    assert_eq!(video.title, "A title");
    assert_eq!(video.url, "https://www.youtube.com/watch?v=vid1");
    assert_eq!(video.channel, Channel::new("@owner", "Owner"));
    assert_eq!(video.channel.url, "https://www.youtube.com/@owner");
    assert_eq!(video.published_at, Some(now));
}

fn playlist_json(with_channel: bool) -> Json {
    let runs = if with_channel {
        ",\"commandRuns\":[{\"onTap\":{\"innertubeCommand\":{\"browseEndpoint\":{\"canonicalBaseUrl\":\"/@maker\"}}}}]"
    } else {
        ""
    };
    doc(&format!(
        "{{\"rendererContext\":{{\"commandContext\":{{\"onTap\":{{\"innertubeCommand\":{{\"commandMetadata\":\
         {{\"webCommandMetadata\":{{\"url\":\"/playlist?list=PL1\"}}}}}}}}}}}},\
         \"metadata\":{{\"lockupMetadataViewModel\":{{\"title\":{{\"content\":\"Mix\"}},\
         \"metadata\":{{\"contentMetadataViewModel\":{{\"metadataRows\":[{{\"metadataParts\":\
         [{{\"text\":{{\"content\":\"Maker\"{}}}}}]}}]}}}}}}}}}}",
        runs
    ))
}

#[test]
fn playlist_with_sentinel_has_many_uploaders() {
    let playlist = parse_playlist_props(&playlist_json(false));
    assert_eq!(playlist.id, "/playlist?list=PL1");
    assert_eq!(playlist.title, "Mix");
    assert_eq!(playlist.url, "https://www.youtube.com/playlist?list=PL1");
    assert_eq!(playlist.uploader, PlaylistUploader::MultiUploaders("Maker".to_string()));
}

#[test]
fn playlist_with_channel_path_has_one_uploader() {
    let playlist = parse_playlist_props(&playlist_json(true));
    match playlist.uploader {
        PlaylistUploader::Channel(channel) => {
            assert_eq!(channel.id, "@maker");
            assert_eq!(channel.username, "Maker");
            assert_eq!(channel.url, "https://www.youtube.com/@maker");
        }
        other => panic!("expected one channel, got {:?}", other),
    }
}

#[test]
fn mixed_list_keeps_order_and_skips_unknown_shapes() {
    let list = doc(
        "[{\"channelRenderer\":{\"channelId\":\"C1\"}},{\"adRenderer\":{}},\
          {\"videoRenderer\":{\"videoId\":\"V1\"}},{\"shelfRenderer\":{}},\
          {\"lockupViewModel\":{}},{\"videoRenderer\":null}]",
    );
    let items = match list {
        Json::Array(items) => items,
        _ => unreachable!(),
    };
    let now = Timestamp { secs: 10, nanos: 0 };
    let mapped = contents_at(&items, now);
    assert_eq!(mapped.len(), 3);
    assert!(matches!(&mapped[0], ContentItem::Channel(c) if c.id == "C1"));
    assert!(matches!(&mapped[1], ContentItem::Video(v) if v.id == "V1"));
    assert!(matches!(&mapped[2], ContentItem::Playlist(_)));
}
