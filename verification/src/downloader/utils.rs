//! Rules on addresses and file names.

use crate::downloader::errors::DownloaderError;
use crate::downloader::url_parts::{
    url_domain, url_domain_of, url_path_segments, url_path_segments_of, url_scheme, url_scheme_of,
    views_of,
};
use crate::text::{
    after_last, chars_of, contains, contains_char, decimal, decimal_of, has_infix,
    is_alphanumeric, is_alphanumeric_char, last_index_of, lemma_last_index_of, lowercase_of, rfind,
    str_eq, text_of, to_lowercase, trim_bounds, trimmed,
};
use vstd::prelude::*;
use vstd::string::*;

verus! {

/// A host name is one of a video site of YouTube.
pub open spec fn is_youtube_domain(domain: Seq<char>) -> bool {
    has_infix(domain, "youtube.com"@) || has_infix(domain, "youtu.be"@) || has_infix(
        domain,
        "youtube-nocookie.com"@,
    )
}

/// A host name is one of a site that streams video.
pub open spec fn is_streaming_domain(domain: Seq<char>) -> bool {
    has_infix(domain, "youtube.com"@) || has_infix(domain, "youtu.be"@) || has_infix(
        domain,
        "twitch.tv"@,
    ) || has_infix(domain, "tiktok.com"@) || has_infix(domain, "facebook.com"@) || has_infix(
        domain,
        "instagram.com"@,
    ) || has_infix(domain, "x.com"@) || has_infix(domain, "reddit.com"@) || has_infix(
        domain,
        "dailymotion.com"@,
    )
}

/// A lower-case file extension is one of a video file.
pub open spec fn is_video_extension(ext: Seq<char>) -> bool {
    ext == "mp4"@ || ext == "avi"@ || ext == "mkv"@ || ext == "mov"@ || ext == "wmv"@ || ext
        == "flv"@ || ext == "webm"@ || ext == "m4v"@ || ext == "3gp"@ || ext == "ogv"@ || ext
        == "ts"@ || ext == "mts"@ || ext == "m2ts"@
}

/// A lower-case file extension is one of an audio file.
pub open spec fn is_audio_extension(ext: Seq<char>) -> bool {
    ext == "mp3"@ || ext == "wav"@ || ext == "flac"@ || ext == "aac"@ || ext == "ogg"@ || ext
        == "wma"@ || ext == "m4a"@ || ext == "opus"@
}

/// A lower-case file extension is one of a picture file.
pub open spec fn is_picture_extension(ext: Seq<char>) -> bool {
    ext == "jpg"@ || ext == "jpeg"@ || ext == "png"@ || ext == "gif"@ || ext == "bmp"@ || ext
        == "webp"@ || ext == "tiff"@ || ext == "svg"@
}

/// The last segment of the path of an address, if it has one.
pub open spec fn last_segment_of(url: Seq<char>) -> Option<Seq<char>> {
    match url_path_segments_of(url) {
        Some(segments) => if segments.len() > 0 {
            Some(segments.last())
        } else {
            None
        },
        None => None,
    }
}

/// The file extension that an address ends in: what follows the last dot of
/// its last path segment. A segment without a dot counts as its own
/// extension.
pub open spec fn url_extension_of(url: Seq<char>) -> Option<Seq<char>> {
    match last_segment_of(url) {
        Some(segment) => Some(after_last(segment, '.')),
        None => None,
    }
}

/// A lower-case file extension is one of a media file.
pub open spec fn is_media_extension(ext: Seq<char>) -> bool {
    is_video_extension(ext) || is_audio_extension(ext) || is_picture_extension(ext)
}

pub open spec fn is_http_scheme(scheme: Option<Seq<char>>) -> bool {
    scheme matches Some(text) && (text == "http"@ || text == "https"@)
}

/// The address ends in the name of a media file, by its extension in any
/// case of letters.
pub open spec fn is_direct_media(url: Seq<char>) -> bool {
    url_extension_of(url) matches Some(ext) && is_media_extension(lowercase_of(ext))
}

/// The last path segment of an address, if it has one.
pub fn last_segment(url: &str) -> (segment: Option<String>)
    ensures
        match segment {
            Some(text) => last_segment_of(url@) == Some(text@),
            None => last_segment_of(url@) is None,
        },
{
    match url_path_segments(url) {
        Some(mut segments) => {
            let ghost all = views_of(segments@);
            assert(segments@.len() > 0 ==> all.last() == segments@.last()@);
            assert(all.len() == segments@.len());
            segments.pop()
        },
        None => None,
    }
}

/// The extension that an address ends in.
pub fn url_extension(url: &str) -> (extension: Option<String>)
    ensures
        match extension {
            Some(text) => url_extension_of(url@) == Some(text@),
            None => url_extension_of(url@) is None,
        },
{
    match last_segment(url) {
        Some(segment) => {
            let chars = chars_of(segment.as_str());
            let len: usize = chars.len();
            proof {
                lemma_last_index_of(chars@, '.');
            }
            let start: usize = match rfind(&chars, '.') {
                Some(at) => at + 1,
                None => 0,
            };
            Some(text_of(&chars, start, len))
        },
        None => None,
    }
}

pub fn is_video_extension_lowercase(ext: &str) -> (yes: bool)
    ensures
        yes == is_video_extension(ext@),
{
    str_eq(ext, "mp4") || str_eq(ext, "avi") || str_eq(ext, "mkv") || str_eq(ext, "mov")
        || str_eq(ext, "wmv") || str_eq(ext, "flv") || str_eq(ext, "webm") || str_eq(ext, "m4v")
        || str_eq(ext, "3gp") || str_eq(ext, "ogv") || str_eq(ext, "ts") || str_eq(ext, "mts")
        || str_eq(ext, "m2ts")
}

pub fn is_audio_extension_lowercase(ext: &str) -> (yes: bool)
    ensures
        yes == is_audio_extension(ext@),
{
    str_eq(ext, "mp3") || str_eq(ext, "wav") || str_eq(ext, "flac") || str_eq(ext, "aac")
        || str_eq(ext, "ogg") || str_eq(ext, "wma") || str_eq(ext, "m4a") || str_eq(ext, "opus")
}

pub fn is_picture_extension_lowercase(ext: &str) -> (yes: bool)
    ensures
        yes == is_picture_extension(ext@),
{
    str_eq(ext, "jpg") || str_eq(ext, "jpeg") || str_eq(ext, "png") || str_eq(ext, "gif")
        || str_eq(ext, "bmp") || str_eq(ext, "webp") || str_eq(ext, "tiff") || str_eq(ext, "svg")
}

/// Whether a host name holds `needle`.
fn domain_holds(domain: &Vec<char>, needle: &str) -> (yes: bool)
    ensures
        yes == has_infix(domain@, needle@),
{
    let needle_chars = chars_of(needle);
    contains(domain, &needle_chars)
}

/// URL validation utility
pub struct UrlValidator;

impl UrlValidator {
    /// Whether the text is an absolute URL.
    pub fn is_valid_url(url: &str) -> (valid: bool)
        ensures
            valid == url_scheme_of(url@) is Some,
    {
        url_scheme(url).is_some()
    }

    /// Whether the text is a URL with the scheme `http` or `https`.
    pub fn is_http_url(url: &str) -> (yes: bool)
        ensures
            yes == is_http_scheme(url_scheme_of(url@)),
    {
        match url_scheme(url) {
            Some(scheme) => str_eq(scheme.as_str(), "http") || str_eq(scheme.as_str(), "https"),
            None => false,
        }
    }

    /// Whether the text is a URL whose host is a YouTube domain.
    pub fn is_youtube_url(url: &str) -> (yes: bool)
        ensures
            yes == (url_domain_of(url@) matches Some(domain) && is_youtube_domain(domain)),
    {
        match url_domain(url) {
            Some(domain) => {
                let chars = chars_of(domain.as_str());
                domain_holds(&chars, "youtube.com") || domain_holds(&chars, "youtu.be")
                    || domain_holds(&chars, "youtube-nocookie.com")
            },
            None => false,
        }
    }

    /// Whether the text is a URL whose host is a site that streams video.
    pub fn is_streaming_site(url: &str) -> (yes: bool)
        ensures
            yes == (url_domain_of(url@) matches Some(domain) && is_streaming_domain(domain)),
    {
        match url_domain(url) {
            Some(domain) => {
                let chars = chars_of(domain.as_str());
                domain_holds(&chars, "youtube.com") || domain_holds(&chars, "youtu.be")
                    || domain_holds(&chars, "twitch.tv") || domain_holds(&chars, "tiktok.com")
                    || domain_holds(&chars, "facebook.com") || domain_holds(
                    &chars,
                    "instagram.com",
                ) || domain_holds(&chars, "x.com") || domain_holds(&chars, "reddit.com")
                    || domain_holds(&chars, "dailymotion.com")
            },
            None => false,
        }
    }

    /// Whether the text is a URL that ends in the name of a media file.
    pub fn is_direct_media_url(url: &str) -> (yes: bool)
        ensures
            yes == is_direct_media(url@),
    {
        match url_extension(url) {
            Some(ext) => {
                let lower = to_lowercase(ext.as_str());
                is_video_extension_lowercase(lower.as_str()) || is_audio_extension_lowercase(
                    lower.as_str(),
                ) || is_picture_extension_lowercase(lower.as_str())
            },
            None => false,
        }
    }
}

/// Fetches files. The fetching is done by the program around this library;
/// here are the checks that come before and after it.
pub struct FileDownloader;

impl FileDownloader {
    /// Only addresses with the scheme `http` or `https` are fetched.
    pub fn check_url(url: &str) -> (result: Result<(), DownloaderError>)
        ensures
            is_http_scheme(url_scheme_of(url@)) ==> result is Ok,
            !is_http_scheme(url_scheme_of(url@)) ==> (result matches Err(
                DownloaderError::UnsupportedUrl(m),
            ) && m@ == "Invalid URL: "@ + url@),
    {
        if UrlValidator::is_http_url(url) {
            Ok(())
        } else {
            Err(DownloaderError::UnsupportedUrl(String::from_str("Invalid URL: ").concat(url)))
        }
    }

    /// A response counts only with a status of success, 200 to 299.
    /// `status` is the status line as text, as it is reported.
    pub fn check_status(code: u16, status: &str, url: &str) -> (result: Result<
        (),
        DownloaderError,
    >)
        ensures
            200 <= code < 300 ==> result is Ok,
            !(200 <= code < 300) ==> (result matches Err(DownloaderError::Download(m)) && m@
                == "HTTP error: "@ + status@ + " for URL: "@ + url@),
    {
        if 200 <= code && code < 300 {
            Ok(())
        } else {
            Err(
                DownloaderError::Download(
                    String::from_str("HTTP error: ").concat(status).concat(" for URL: ").concat(
                        url,
                    ),
                ),
            )
        }
    }
}

/// A character that stays in a file name: a letter, a digit, a dot, a
/// hyphen, an underscore or a blank.
pub open spec fn is_file_name_char(c: char) -> bool {
    is_alphanumeric_char(c) || c == '.' || c == '-' || c == '_' || c == ' '
}

/// A file name with every other character replaced by an underscore.
pub open spec fn replaced(filename: Seq<char>) -> Seq<char> {
    Seq::new(
        filename.len(),
        |i: int|
            if is_file_name_char(filename[i]) {
                filename[i]
            } else {
                '_'
            },
    )
}

/// A file name made safe: every character that may not stay is replaced by
/// an underscore, and the white space at both ends is cut off.
pub open spec fn sanitized(filename: Seq<char>) -> Seq<char> {
    trimmed(replaced(filename))
}

/// The name of a download for which the address gives none.
pub open spec fn fallback_name(timestamp: u64, default_extension: Option<Seq<char>>) -> Seq<char> {
    match default_extension {
        Some(ext) => "download_"@ + decimal_of(timestamp) + "."@ + ext,
        None => "download_"@ + decimal_of(timestamp),
    }
}

/// The name that an address gives a download: its last path segment, if that
/// is not empty and holds a dot.
pub open spec fn name_in_url(url: Seq<char>) -> Option<Seq<char>> {
    match last_segment_of(url) {
        Some(segment) => if segment.len() > 0 && segment.contains('.') {
            Some(segment)
        } else {
            None
        },
        None => None,
    }
}

/// `filename` with `_` and a number put before its last dot, or at its end
/// if it has no dot.
pub open spec fn numbered(filename: Seq<char>, count: u64) -> Seq<char> {
    let dot = last_index_of(filename, '.');
    if dot >= 0 {
        filename.subrange(0, dot) + "_"@ + decimal_of(count) + filename.subrange(
            dot,
            filename.len() as int,
        )
    } else {
        filename + "_"@ + decimal_of(count)
    }
}

/// The `k`-th name that is tried for a file: the name itself, then the name
/// with the numbers from one on.
pub open spec fn candidate(filename: Seq<char>, k: nat) -> Seq<char> {
    if k == 0 {
        filename
    } else {
        numbered(filename, k as u64)
    }
}

/// One of `taken` is `name`.
pub open spec fn is_taken(taken: Seq<String>, name: Seq<char>) -> bool {
    exists|i: int| 0 <= i < taken.len() && #[trigger] taken[i]@ == name
}

/// File name generation utility
pub struct FileNameGenerator;

impl FileNameGenerator {
    /// The name for a download: the one the address gives, made safe; or
    /// `download_`, the time stamp and the default extension where the
    /// address gives none.
    pub fn generate_from_url(url: &str, default_extension: Option<&str>, timestamp: u64) -> (name:
        String)
        ensures
            name@ == match name_in_url(url@) {
                Some(segment) => sanitized(segment),
                None => fallback_name(
                    timestamp,
                    match default_extension {
                        Some(ext) => Some(ext@),
                        None => None,
                    },
                ),
            },
    {
        if let Some(filename) = last_segment(url) {
            let chars = chars_of(filename.as_str());
            if chars.len() > 0 && contains_char(&chars, '.') {
                return Self::sanitize_filename(filename.as_str());
            }
        }
        let stamp = decimal(timestamp);
        let name = String::from_str("download_").concat(stamp.as_str());
        match default_extension {
            Some(ext) => name.concat(".").concat(ext),
            None => name,
        }
    }

    /// Makes a file name safe: every character that is not a letter, a
    /// digit, a dot, a hyphen, an underscore or a blank becomes an
    /// underscore, and the white space at both ends is cut off.
    pub fn sanitize_filename(filename: &str) -> (name: String)
        ensures
            name@ == sanitized(filename@),
    {
        let chars = chars_of(filename);
        let mut mapped: Vec<char> = Vec::with_capacity(chars.len());
        let mut i: usize = 0;
        while i < chars.len()
            invariant
                i <= chars@.len(),
                mapped@.len() == i,
                forall|k: int| 0 <= k < i ==> mapped@[k] == replaced(chars@)[k],
            decreases chars@.len() - i,
        {
            let c = chars[i];
            if is_alphanumeric(c) || c == '.' || c == '-' || c == '_' || c == ' ' {
                mapped.push(c);
            } else {
                mapped.push('_');
            }
            i += 1;
        }
        assert(mapped@ =~= replaced(chars@));
        let bounds = trim_bounds(&mapped);
        text_of(&mapped, bounds.0, bounds.1)
    }

    /// `filename` with `_` and `count` put before its last dot, or at its
    /// end if it has no dot.
    pub fn numbered(filename: &str, count: u64) -> (name: String)
        ensures
            name@ == numbered(filename@, count),
    {
        let chars = chars_of(filename);
        let digits = decimal(count);
        proof {
            lemma_last_index_of(chars@, '.');
        }
        match rfind(&chars, '.') {
            Some(dot) => {
                let stem = text_of(&chars, 0, dot);
                let ext = text_of(&chars, dot, chars.len());
                stem.concat("_").concat(digits.as_str()).concat(ext.as_str())
            },
            None => {
                String::from_str(filename).concat("_").concat(digits.as_str())
            },
        }
    }

    /// Whether one of `taken` is `name`.
    pub fn is_taken(taken: &Vec<String>, name: &str) -> (yes: bool)
        ensures
            yes == is_taken(taken@, name@),
    {
        let mut i: usize = 0;
        while i < taken.len()
            invariant
                i <= taken@.len(),
                forall|k: int| 0 <= k < i ==> taken@[k]@ != name@,
            decreases taken@.len() - i,
        {
            if str_eq(taken[i].as_str(), name) {
                return true;
            }
            i += 1;
        }
        false
    }

    /// A name for a file that none of `taken` has: `filename` itself, or
    /// else `filename` with the first of the numbers 1, 2, 3, ... that gives
    /// a free name. As many names are tested as there are names taken; the
    /// one after them is not tested.
    pub fn generate_unique(taken: &Vec<String>, filename: &str) -> (name: String)
        ensures
            exists|k: nat|
                {
                    &&& k <= taken@.len()
                    &&& name@ == #[trigger] candidate(filename@, k)
                    &&& forall|j: nat| j < k ==> is_taken(taken@, #[trigger] candidate(filename@, j))
                    &&& k < taken@.len() ==> !is_taken(taken@, name@)
                },
    {
        let mut name = String::from_str(filename);
        let mut count: usize = 0;
        while count < taken.len() && Self::is_taken(taken, name.as_str())
            invariant
                count <= taken@.len(),
                name@ == candidate(filename@, count as nat),
                forall|j: nat| j < count ==> is_taken(taken@, #[trigger] candidate(filename@, j)),
            decreases taken@.len() - count,
        {
            count += 1;
            name = Self::numbered(filename, count as u64);
        }
        assert(name@ == candidate(filename@, count as nat));
        name
    }
}

/// Media type enumeration
#[derive(Debug, Clone, Copy, PartialEq, Eq, Structural)]
pub enum MediaType {
    Video,
    Audio,
    Image,
    Unknown,
}

/// The kind of medium that a lower-case file extension stands for.
pub open spec fn kind_of_extension(ext: Seq<char>) -> MediaType {
    if is_video_extension(ext) {
        MediaType::Video
    } else if is_audio_extension(ext) {
        MediaType::Audio
    } else if is_picture_extension(ext) {
        MediaType::Image
    } else {
        MediaType::Unknown
    }
}

/// The kind of medium that an address names.
pub open spec fn kind_of_url(url: Seq<char>) -> MediaType {
    if url_domain_of(url) matches Some(domain) && (is_youtube_domain(domain)
        || is_streaming_domain(domain)) {
        MediaType::Video
    } else if is_direct_media(url) {
        match url_extension_of(url) {
            Some(ext) => kind_of_extension(lowercase_of(ext)),
            None => MediaType::Unknown,
        }
    } else {
        MediaType::Unknown
    }
}

/// Media type detection utility
pub struct MediaTypeDetector;

impl MediaTypeDetector {
    /// The kind of medium that an address names: video for the video
    /// sites, else what the extension of a media file says.
    pub fn detect_from_url(url: &str) -> (kind: MediaType)
        ensures
            kind == kind_of_url(url@),
    {
        if UrlValidator::is_youtube_url(url) {
            return MediaType::Video;
        }
        if UrlValidator::is_streaming_site(url) {
            return MediaType::Video;
        }
        if UrlValidator::is_direct_media_url(url) {
            return Self::detect_from_extension(url);
        }
        MediaType::Unknown
    }

    /// The kind of medium that the extension of an address stands for.
    pub fn detect_from_extension(url: &str) -> (kind: MediaType)
        ensures
            kind == match url_extension_of(url@) {
                Some(ext) => kind_of_extension(lowercase_of(ext)),
                None => MediaType::Unknown,
            },
    {
        match url_extension(url) {
            Some(ext) => Self::classify_extension(ext.as_str()),
            None => MediaType::Unknown,
        }
    }

    /// The kind of medium that a file extension stands for, in any case of
    /// letters.
    pub fn classify_extension(ext: &str) -> (kind: MediaType)
        ensures
            kind == kind_of_extension(lowercase_of(ext@)),
    {
        let lower = to_lowercase(ext);
        Self::classify_lowercase_extension(lower.as_str())
    }

    /// The kind of medium that a lower-case file extension stands for.
    pub fn classify_lowercase_extension(ext: &str) -> (kind: MediaType)
        ensures
            kind == kind_of_extension(ext@),
    {
        if is_video_extension_lowercase(ext) {
            MediaType::Video
        } else if is_audio_extension_lowercase(ext) {
            MediaType::Audio
        } else if is_picture_extension_lowercase(ext) {
            MediaType::Image
        } else {
            MediaType::Unknown
        }
    }
}

} // verus!
