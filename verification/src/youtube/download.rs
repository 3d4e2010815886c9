//! What to hand to the download and playback tools for a video.

use vstd::prelude::*;
use vstd::string::*;
use crate::text::{chars, same_text, starts_with};
use crate::types::site;

verus! {

/// Where downloaded videos go.
pub const VIDEO_DOWNLOAD_PATH: &'static str = "~/Videos/";

/// Where downloaded audio goes.
pub const AUDIO_DOWNLOAD_PATH: &'static str = "~/Music/";

/// What to keep of a video when downloading it.
#[derive(Clone, Copy, Debug, PartialEq, Eq, Structural)]
pub enum DownloadType {
    Video,
    Audio,
}

/// `url` in absolute form: unchanged where it starts with `http`, under the site
/// where it starts with a slash, and under the site behind a slash otherwise.
pub open spec fn absolute_url(url: Seq<char>) -> Seq<char> {
    if "http"@.is_prefix_of(url) {
        url
    } else if "/"@.is_prefix_of(url) {
        site() + url
    } else {
        site() + "/"@ + url
    }
}

/// An address in absolute form names its scheme: it starts with `http`.
pub proof fn lemma_absolute_url(url: Seq<char>)
    ensures
        "http"@.is_prefix_of(absolute_url(url)),
{
    reveal_strlit("http");
    reveal_strlit("https://www.youtube.com");
    let address = absolute_url(url);
    if !"http"@.is_prefix_of(url) {
        assert(address.subrange(0, 4) =~= "http"@);
    }
}

/// The arguments of the download tool for `url`: the target directory, the format,
/// one video only, the absolute address, and for audio the extraction to mp3.
pub open spec fn spec_download_arguments(url: Seq<char>, download_type: DownloadType) -> Seq<
    Seq<char>,
> {
    let common = seq![
        "-P"@,
        match download_type {
            DownloadType::Video => "~/Videos/"@,
            DownloadType::Audio => "~/Music/"@,
        },
        "-f"@,
        "best[ext=mp4]/best"@,
        "--no-playlist"@,
        absolute_url(url),
    ];
    match download_type {
        DownloadType::Video => common,
        DownloadType::Audio => common + seq!["--extract-audio"@, "--audio-format"@, "mp3"@],
    }
}

/// The command that plays a stream on the operating system `os`: the program
/// first, then its arguments. The player is started through the system's shell
/// with its output thrown away. `None` for a system that is not provided for.
pub open spec fn spec_player_command(os: Seq<char>, stream_url: Seq<char>) -> Option<Seq<Seq<char>>> {
    if os == "linux"@ {
        Some(seq!["sh"@, "-c"@, "mpv '"@ + stream_url + "' > /dev/null"@])
    } else if os == "windows"@ {
        Some(seq!["powershell"@, "-Command"@, "mpv '"@ + stream_url + "' > $null"@])
    } else {
        None
    }
}

/// The command that plays a stream on the operating system `os`.
pub fn player_command(os: &str, stream_url: &str) -> (r: Option<Vec<String>>)
    ensures
        match r {
            Some(command) => spec_player_command(os@, stream_url@) matches Some(expected)
                && command@.len() == expected.len() && forall|i: int|
                0 <= i < command@.len() ==> (#[trigger] command@[i])@ == expected[i],
            None => spec_player_command(os@, stream_url@) is None,
        },
{
    let system = chars(os);
    let mut command: Vec<String> = Vec::new();
    if same_text(&system, &chars("linux")) {
        command.push(String::from_str("sh"));
        command.push(String::from_str("-c"));
        command.push(String::from_str("mpv '").concat(stream_url).concat("' > /dev/null"));
        Some(command)
    } else if same_text(&system, &chars("windows")) {
        command.push(String::from_str("powershell"));
        command.push(String::from_str("-Command"));
        command.push(String::from_str("mpv '").concat(stream_url).concat("' > $null"));
        Some(command)
    } else {
        None
    }
}

/// Puts `url` in absolute form.
pub fn normalize_url(url: &str) -> (r: String)
    ensures
        r@ == absolute_url(url@),
{
    let text = chars(url);
    if starts_with(&text, &chars("http")) {
        url.to_owned()
    } else if starts_with(&text, &chars("/")) {
        String::from_str("https://www.youtube.com").concat(url)
    } else {
        String::from_str("https://www.youtube.com").concat("/").concat(url)
    }
}

/// The arguments to run the download tool with.
pub fn download_arguments(url: &str, download_type: DownloadType) -> (r: Vec<String>)
    ensures
        r@.len() == spec_download_arguments(url@, download_type).len(),
        forall|i: int|
            0 <= i < r@.len() ==> (#[trigger] r@[i])@ == spec_download_arguments(
                url@,
                download_type,
            )[i],
{
    let path = match download_type {
        DownloadType::Video => VIDEO_DOWNLOAD_PATH,
        DownloadType::Audio => AUDIO_DOWNLOAD_PATH,
    };
    let mut arguments: Vec<String> = Vec::new();
    arguments.push(String::from_str("-P"));
    arguments.push(String::from_str(path));
    arguments.push(String::from_str("-f"));
    arguments.push(String::from_str("best[ext=mp4]/best"));
    arguments.push(String::from_str("--no-playlist"));
    arguments.push(normalize_url(url));
    match download_type {
        DownloadType::Video => {},
        DownloadType::Audio => {
            arguments.push(String::from_str("--extract-audio"));
            arguments.push(String::from_str("--audio-format"));
            arguments.push(String::from_str("mp3"));
        },
    }
    arguments
}

/// The arguments to ask the download tool for the stream address of `url`.
pub fn stream_arguments(url: &str) -> (r: Vec<String>)
    ensures
        r@.len() == 4,
        r@[0]@ == "-f"@,
        r@[1]@ == "best[ext=mp4]/best"@,
        r@[2]@ == "-g"@,
        r@[3]@ == absolute_url(url@),
{
    let mut arguments: Vec<String> = Vec::new();
    arguments.push(String::from_str("-f"));
    arguments.push(String::from_str("best[ext=mp4]/best"));
    arguments.push(String::from_str("-g"));
    arguments.push(normalize_url(url));
    arguments
}

} // verus!
