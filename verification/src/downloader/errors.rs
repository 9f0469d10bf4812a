use vstd::prelude::*;
use vstd::string::*;

verus! {

/// What can go wrong while a medium is fetched. Each variant carries the text
/// that describes the failure.
#[derive(Debug, Clone)]
pub enum DownloaderError {
    Io(String),
    Network(String),
    UrlParse(String),
    Parse(String),
    Download(String),
    Process(String),
    DependencyMissing(String),
    UnsupportedUrl(String),
    Config(String),
}

impl DownloaderError {
    /// The text carried by the error, without the prefix of its variant.
    pub open spec fn detail(&self) -> Seq<char> {
        match self {
            DownloaderError::Io(m) => m@,
            DownloaderError::Network(m) => m@,
            DownloaderError::UrlParse(m) => m@,
            DownloaderError::Parse(m) => m@,
            DownloaderError::Download(m) => m@,
            DownloaderError::Process(m) => m@,
            DownloaderError::DependencyMissing(m) => m@,
            DownloaderError::UnsupportedUrl(m) => m@,
            DownloaderError::Config(m) => m@,
        }
    }

    /// The prefix under which each variant is reported.
    pub open spec fn prefix(&self) -> Seq<char> {
        match self {
            DownloaderError::Io(_) => "IO error: "@,
            DownloaderError::Network(_) => "Network error: "@,
            DownloaderError::UrlParse(_) => "URL parsing error: "@,
            DownloaderError::Parse(_) => "JSON parsing error: "@,
            DownloaderError::Download(_) => "Download failed: "@,
            DownloaderError::Process(_) => "Process execution error: "@,
            DownloaderError::DependencyMissing(_) => "Dependency missing: "@,
            DownloaderError::UnsupportedUrl(_) => "Unsupported URL: "@,
            DownloaderError::Config(_) => "Configuration error: "@,
        }
    }

    /// The full report: the variant's prefix followed by the carried text.
    pub fn message(&self) -> (text: String)
        ensures
            text@ == self.prefix() + self.detail(),
    {
        match self {
            DownloaderError::Io(m) => String::from_str("IO error: ").concat(m.as_str()),
            DownloaderError::Network(m) => String::from_str("Network error: ").concat(m.as_str()),
            DownloaderError::UrlParse(m) => String::from_str("URL parsing error: ").concat(
                m.as_str(),
            ),
            DownloaderError::Parse(m) => String::from_str("JSON parsing error: ").concat(
                m.as_str(),
            ),
            DownloaderError::Download(m) => String::from_str("Download failed: ").concat(
                m.as_str(),
            ),
            DownloaderError::Process(m) => String::from_str("Process execution error: ").concat(
                m.as_str(),
            ),
            DownloaderError::DependencyMissing(m) => String::from_str(
                "Dependency missing: ",
            ).concat(m.as_str()),
            DownloaderError::UnsupportedUrl(m) => String::from_str("Unsupported URL: ").concat(
                m.as_str(),
            ),
            DownloaderError::Config(m) => String::from_str("Configuration error: ").concat(
                m.as_str(),
            ),
        }
    }
}

} // verus!
