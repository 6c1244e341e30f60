//! The failures of the driver pipeline.

use vstd::prelude::*;

verus! {

/// Error type for all possible failures in the library.
///
/// Every variant carries its context (a path, a command line, a URL or a
/// version) as text. Where a failure was reported by the operating system or
/// by another library, `source` holds that report's message.
#[derive(Debug, Clone, PartialEq, Eq)]
#[allow(inconsistent_fields)]
pub enum WebDriverError {
    /// A subprocess could not be started.
    CommandExecutionError { command: String, source: String },
    /// The standard output of a subprocess is not UTF-8; `output` holds the
    /// bytes as they were read.
    CommandOutputParsingError { command: String, output: Vec<u8> },
    /// No installed browser was found in the conventional locations.
    BrowserNotFound,
    /// No version could be read out of `output`.
    BrowserVersionParsingError { output: String },
    /// An HTTP request failed or was answered with a failure status.
    NetworkError(String),
    /// The body fetched from `url` is not the expected JSON.
    JsonParseError { url: String, source: String },
    /// No manifest entry shares the browser's major line.
    DriverVersionNotFound { browser_version: String, platform: String },
    /// The matching manifest entry offers no download for the platform.
    DriverUrlNotFound { driver_version: String, platform: String },
    /// A file system operation on `path` failed.
    IoError { path: String, source: String },
    /// The archive at `path` is malformed or unreadable.
    ZipError { path: String, source: String },
    /// No driver executable lies under `path`.
    DriverExecutableNotFound { path: String },
    /// The driver at `path` could not be started.
    DriverVerificationError { path: String, source: String },
    /// A failure that fits no other variant.
    Custom(String),
    /// The operating system and architecture have no platform identifier.
    UnsupportedPlatform(String),
    /// The driver was found or run, but not with the expected result.
    VerificationError(String),
}

/// The mathematical value of a [`WebDriverError`]: the same variants, with
/// each text as a sequence of characters.
#[allow(inconsistent_fields)]
pub enum ErrorModel {
    CommandExecutionError { command: Seq<char>, source: Seq<char> },
    CommandOutputParsingError { command: Seq<char>, output: Seq<u8> },
    BrowserNotFound,
    BrowserVersionParsingError { output: Seq<char> },
    NetworkError(Seq<char>),
    JsonParseError { url: Seq<char>, source: Seq<char> },
    DriverVersionNotFound { browser_version: Seq<char>, platform: Seq<char> },
    DriverUrlNotFound { driver_version: Seq<char>, platform: Seq<char> },
    IoError { path: Seq<char>, source: Seq<char> },
    ZipError { path: Seq<char>, source: Seq<char> },
    DriverExecutableNotFound { path: Seq<char> },
    DriverVerificationError { path: Seq<char>, source: Seq<char> },
    Custom(Seq<char>),
    UnsupportedPlatform(Seq<char>),
    VerificationError(Seq<char>),
}

impl View for WebDriverError {
    type V = ErrorModel;

    open spec fn view(&self) -> ErrorModel {
        match *self {
            WebDriverError::CommandExecutionError { command, source } => {
                ErrorModel::CommandExecutionError { command: command@, source: source@ }
            },
            WebDriverError::CommandOutputParsingError { command, output } => {
                ErrorModel::CommandOutputParsingError { command: command@, output: output@ }
            },
            WebDriverError::BrowserNotFound => ErrorModel::BrowserNotFound,
            WebDriverError::BrowserVersionParsingError { output } => {
                ErrorModel::BrowserVersionParsingError { output: output@ }
            },
            WebDriverError::NetworkError(message) => ErrorModel::NetworkError(message@),
            WebDriverError::JsonParseError { url, source } => {
                ErrorModel::JsonParseError { url: url@, source: source@ }
            },
            WebDriverError::DriverVersionNotFound { browser_version, platform } => {
                ErrorModel::DriverVersionNotFound {
                    browser_version: browser_version@,
                    platform: platform@,
                }
            },
            WebDriverError::DriverUrlNotFound { driver_version, platform } => {
                ErrorModel::DriverUrlNotFound {
                    driver_version: driver_version@,
                    platform: platform@,
                }
            },
            WebDriverError::IoError { path, source } => {
                ErrorModel::IoError { path: path@, source: source@ }
            },
            WebDriverError::ZipError { path, source } => {
                ErrorModel::ZipError { path: path@, source: source@ }
            },
            WebDriverError::DriverExecutableNotFound { path } => {
                ErrorModel::DriverExecutableNotFound { path: path@ }
            },
            WebDriverError::DriverVerificationError { path, source } => {
                ErrorModel::DriverVerificationError { path: path@, source: source@ }
            },
            WebDriverError::Custom(message) => ErrorModel::Custom(message@),
            WebDriverError::UnsupportedPlatform(platform) => {
                ErrorModel::UnsupportedPlatform(platform@)
            },
            WebDriverError::VerificationError(message) => ErrorModel::VerificationError(message@),
        }
    }
}

/// A text or an error, each by its value.
pub open spec fn text_or_error_model(r: Result<String, WebDriverError>) -> Result<
    Seq<char>,
    ErrorModel,
> {
    match r {
        Ok(text) => Ok(text@),
        Err(e) => Err(e@),
    }
}

} // verus!
