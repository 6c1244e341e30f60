//! Resolution and installation of the browser driver that matches an
//! installed browser.
//!
//! The crate holds the decisions of the pipeline "detect the browser,
//! resolve the driver build, unpack the archive, find the executable, check
//! that it runs" as functions from plain values to plain values. Running
//! processes, fetching URLs and touching the file system are left to the
//! caller, who hands in what was observed.

pub mod browser;
pub mod command;
pub mod downloader;
pub mod drivers;
pub mod error;
pub mod install;
pub mod platform;
pub mod text;
pub mod version;

pub use error::WebDriverError;
