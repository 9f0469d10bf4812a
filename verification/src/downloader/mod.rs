//! Fetching remote media: which addresses can be fetched, what kind of
//! medium an address names, and what the fetched file is called.

pub mod errors;
pub mod url_parts;
pub mod utils;
pub mod youtube;

pub use errors::DownloaderError;
