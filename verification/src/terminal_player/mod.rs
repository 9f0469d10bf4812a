//! The player: audio bridge, synchroniser, renderer and character maps.

pub mod audio;
pub mod char_maps;
pub mod flag;
pub mod player;
pub mod renderer;
pub mod samples;
pub mod terminal;

use crate::downloader::url_parts::{url_domain, url_domain_of, url_scheme, url_scheme_of};
use crate::text::{chars_of, contains, has_infix, has_prefix, starts_with};
use vstd::prelude::*;

verus! {

/// Whether the input names a medium on the web rather than a file: it begins
/// with `http://` or `https://`.
pub fn is_url(input: &str) -> (yes: bool)
    ensures
        yes == (has_prefix(input@, "http://"@) || has_prefix(input@, "https://"@)),
{
    let chars = chars_of(input);
    let plain = chars_of("http://");
    let secure = chars_of("https://");
    starts_with(&chars, &plain) || starts_with(&chars, &secure)
}

/// How a medium on the web is fetched.
#[derive(Debug, Clone, Copy, PartialEq, Eq, Structural)]
pub enum DownloadRoute {
    /// By the video downloader, for the video site.
    VideoSite,
    /// As a plain file.
    Direct,
}

/// The route for an address: the video downloader where its host is a
/// YouTube domain, a plain download for every other address; none for a text
/// that is no address.
pub open spec fn route_of(url: Seq<char>) -> Option<DownloadRoute> {
    if url_scheme_of(url) is None {
        None
    } else {
        match url_domain_of(url) {
            Some(domain) => if has_infix(domain, "youtube.com"@) || has_infix(
                domain,
                "youtu.be"@,
            ) {
                Some(DownloadRoute::VideoSite)
            } else {
                Some(DownloadRoute::Direct)
            },
            None => Some(DownloadRoute::Direct),
        }
    }
}

/// Picks how an address is fetched.
pub fn download_route(url: &str) -> (route: Option<DownloadRoute>)
    ensures
        route == route_of(url@),
{
    if url_scheme(url).is_none() {
        return None;
    }
    match url_domain(url) {
        Some(domain) => {
            let chars = chars_of(domain.as_str());
            let long = chars_of("youtube.com");
            let short = chars_of("youtu.be");
            if contains(&chars, &long) || contains(&chars, &short) {
                Some(DownloadRoute::VideoSite)
            } else {
                Some(DownloadRoute::Direct)
            }
        },
        None => Some(DownloadRoute::Direct),
    }
}

} // verus!
