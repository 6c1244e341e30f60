//! Installing a driver, one step at a time.
//!
//! An installation fetches the manifest, downloads the archive of the
//! matching build, extracts it, finds the driver among the extracted files
//! and runs it once. The caller does each of these and reports what came of
//! it; [`ChromeDriver::download_and_install`] decides what follows.

use crate::command::CommandOutcome;
use crate::downloader::{
    check_download_status, executable_name, extraction, find_driver_executable,
    is_success_status, plan_model, search_outcome, status_message, unzip_file, ExtractStep,
    StepModel, WalkEntry,
};
use crate::drivers::chromedriver::{
    major_line, major_line_prefix, resolution, resolve_driver, verification, ChromeDriver,
    KnownGoodVersions, CHROMEDRIVER_URLS_ENDPOINT,
};
use crate::error::{ErrorModel, WebDriverError};
use crate::platform::{platform_identifier, platform_label, platform_of};
use crate::text::text_eq;
use vstd::prelude::*;

verus! {

/// How far an installation has come: what it is waiting for.
#[derive(Debug, Clone, PartialEq, Eq)]
pub enum Stage {
    /// Nothing was asked for yet.
    Idle,
    /// The manifest was asked for.
    AwaitManifest { platform: String },
    /// The archive at `url` was asked for.
    AwaitDownload { url: String },
    /// The extraction was asked for.
    AwaitExtraction,
    /// The walk of the install directory was asked for.
    AwaitWalk,
    /// The run of the driver at `path` was asked for.
    AwaitRun { path: String },
    /// The installation has ended, well or badly.
    Finished,
}

/// The mathematical value of a [`Stage`].
pub enum StageModel {
    Idle,
    AwaitManifest { platform: Seq<char> },
    AwaitDownload { url: Seq<char> },
    AwaitExtraction,
    AwaitWalk,
    AwaitRun { path: Seq<char> },
    Finished,
}

impl View for Stage {
    type V = StageModel;

    open spec fn view(&self) -> StageModel {
        match *self {
            Stage::Idle => StageModel::Idle,
            Stage::AwaitManifest { platform } => StageModel::AwaitManifest { platform: platform@ },
            Stage::AwaitDownload { url } => StageModel::AwaitDownload { url: url@ },
            Stage::AwaitExtraction => StageModel::AwaitExtraction,
            Stage::AwaitWalk => StageModel::AwaitWalk,
            Stage::AwaitRun { path } => StageModel::AwaitRun { path: path@ },
            Stage::Finished => StageModel::Finished,
        }
    }
}

/// What the caller is to do next.
#[derive(Debug, Clone, PartialEq, Eq)]
pub enum InstallAction {
    /// Fetch the manifest at `url` and report [`InstallEvent::Manifest`].
    FetchManifest { url: String },
    /// Download `url` into a private temporary directory and report
    /// [`InstallEvent::Downloaded`].
    Download { url: String },
    /// Create what `steps` list under the install directory, in their
    /// order, and report [`InstallEvent::Extracted`].
    Extract { steps: Vec<ExtractStep> },
    /// Walk the tree under the install directory and report
    /// [`InstallEvent::Walked`].
    Walk { root: String },
    /// Run the driver at `path` with `flag` and report
    /// [`InstallEvent::Ran`].
    RunDriver { path: String, flag: String },
    /// Nothing more: the driver is installed at `path` and runs.
    Done { path: String },
    /// Nothing more: the installation failed.
    Fail { error: WebDriverError },
}

/// The mathematical value of an [`InstallAction`].
pub enum ActionModel {
    FetchManifest { url: Seq<char> },
    Download { url: Seq<char> },
    Extract { steps: Seq<StepModel> },
    Walk { root: Seq<char> },
    RunDriver { path: Seq<char>, flag: Seq<char> },
    Done { path: Seq<char> },
    Fail { error: ErrorModel },
}

impl View for InstallAction {
    type V = ActionModel;

    open spec fn view(&self) -> ActionModel {
        match *self {
            InstallAction::FetchManifest { url } => ActionModel::FetchManifest { url: url@ },
            InstallAction::Download { url } => ActionModel::Download { url: url@ },
            InstallAction::Extract { steps } => ActionModel::Extract { steps: plan_model(steps@) },
            InstallAction::Walk { root } => ActionModel::Walk { root: root@ },
            InstallAction::RunDriver { path, flag } => {
                ActionModel::RunDriver { path: path@, flag: flag@ }
            },
            InstallAction::Done { path } => ActionModel::Done { path: path@ },
            InstallAction::Fail { error } => ActionModel::Fail { error: error@ },
        }
    }
}

/// What the caller reports of the action it was asked for.
#[derive(Debug, Clone, PartialEq, Eq)]
pub enum InstallEvent {
    /// The installation is to begin.
    Started,
    /// The manifest was fetched and read.
    Manifest { manifest: KnownGoodVersions },
    /// The download was answered with `status` and `body`; the body is
    /// kept at `archive_path`.
    Downloaded { status: u16, archive_path: String, body: Vec<u8> },
    /// All steps of the extraction were carried out.
    Extracted,
    /// The walk gave `entries`, in its order.
    Walked { entries: Vec<WalkEntry> },
    /// The driver was run, with this outcome.
    Ran { outcome: CommandOutcome },
    /// The action could not be carried out.
    Failure { error: WebDriverError },
}

/// An installation of the driver for one browser version, on one machine,
/// into one directory.
#[derive(Debug, Clone, PartialEq, Eq)]
pub struct Installation {
    pub browser_version: String,
    pub os: String,
    pub arch: String,
    pub install_path: String,
    pub stage: Stage,
}

/// The text of the error for an event that is not the report of the action
/// asked for.
pub open spec fn unexpected_event_message() -> Seq<char> {
    "The event does not answer the action that was asked for."@
}

/// The end of an installation in failure.
pub open spec fn failed(error: ErrorModel) -> (StageModel, ActionModel) {
    (StageModel::Finished, ActionModel::Fail { error })
}

/// What follows the start of an installation: the manifest is fetched only
/// for a supported machine and a browser version that has a major line.
pub open spec fn after_start(browser_version: Seq<char>, os: Seq<char>, arch: Seq<char>) -> (
    StageModel,
    ActionModel,
) {
    match platform_of(os, arch) {
        None => failed(ErrorModel::UnsupportedPlatform(platform_label(os, arch))),
        Some(platform) => match major_line(browser_version) {
            None => failed(ErrorModel::BrowserVersionParsingError { output: browser_version }),
            Some(_) => (
                StageModel::AwaitManifest { platform },
                ActionModel::FetchManifest { url: CHROMEDRIVER_URLS_ENDPOINT@ },
            ),
        },
    }
}

/// What follows the manifest: the download of the build that it resolves
/// to.
pub open spec fn after_manifest(
    browser_version: Seq<char>,
    platform: Seq<char>,
    manifest: KnownGoodVersions,
) -> (StageModel, ActionModel) {
    match resolution(browser_version, platform, manifest@) {
        Err(e) => failed(e),
        Ok(found) => (
            StageModel::AwaitDownload { url: found.1 },
            ActionModel::Download { url: found.1 },
        ),
    }
}

/// What follows the download: the extraction of the archive, where the
/// status reports success and the body is an archive.
pub open spec fn after_download(
    url: Seq<char>,
    status: u16,
    archive_path: Seq<char>,
    body: Seq<u8>,
) -> (StageModel, ActionModel) {
    if !is_success_status(status) {
        failed(ErrorModel::NetworkError(status_message(url, status)))
    } else {
        match extraction(archive_path, body) {
            Err(e) => failed(e),
            Ok(steps) => (StageModel::AwaitExtraction, ActionModel::Extract { steps }),
        }
    }
}

/// What follows the walk: the run of the driver that was found.
pub open spec fn after_walk(install_path: Seq<char>, windows: bool, entries: Seq<WalkEntry>) -> (
    StageModel,
    ActionModel,
) {
    match search_outcome(install_path, executable_name("chromedriver"@, windows), entries) {
        Err(e) => failed(e),
        Ok(path) => (
            StageModel::AwaitRun { path },
            ActionModel::RunDriver { path, flag: "--version"@ },
        ),
    }
}

/// What follows the run: the end of the installation.
pub open spec fn after_run(path: Seq<char>, outcome: CommandOutcome) -> (StageModel, ActionModel) {
    match verification(path, outcome) {
        Err(e) => failed(e),
        Ok(_) => (StageModel::Finished, ActionModel::Done { path }),
    }
}

/// The step of an installation: the stage it enters and the action it
/// asks for, given the stage it is in and the event reported.
///
/// Each stage takes the report of the action that led to it. A reported
/// failure ends the installation with that failure. Any other event ends
/// it with `Custom`, and so does any event once it has ended.
pub open spec fn next_step(installation: Installation, event: InstallEvent) -> (
    StageModel,
    ActionModel,
) {
    match (installation.stage, event) {
        (Stage::Finished, _) => failed(ErrorModel::Custom(unexpected_event_message())),
        (_, InstallEvent::Failure { error }) => failed(error@),
        (Stage::Idle, InstallEvent::Started) => after_start(
            installation.browser_version@,
            installation.os@,
            installation.arch@,
        ),
        (Stage::AwaitManifest { platform }, InstallEvent::Manifest { manifest }) => after_manifest(
            installation.browser_version@,
            platform@,
            manifest,
        ),
        (
            Stage::AwaitDownload { url },
            InstallEvent::Downloaded { status, archive_path, body },
        ) => after_download(url@, status, archive_path@, body@),
        (Stage::AwaitExtraction, InstallEvent::Extracted) => (
            StageModel::AwaitWalk,
            ActionModel::Walk { root: installation.install_path@ },
        ),
        (Stage::AwaitWalk, InstallEvent::Walked { entries }) => after_walk(
            installation.install_path@,
            installation.os@ == "windows"@,
            entries@,
        ),
        (Stage::AwaitRun { path }, InstallEvent::Ran { outcome }) => after_run(path@, outcome),
        _ => failed(ErrorModel::Custom(unexpected_event_message())),
    }
}

impl Installation {
    /// An installation that has not begun.
    pub fn new(browser_version: &str, os: &str, arch: &str, install_path: &str) -> (r: Self)
        ensures
            r.browser_version@ == browser_version@,
            r.os@ == os@,
            r.arch@ == arch@,
            r.install_path@ == install_path@,
            r.stage@ == StageModel::Idle,
    {
        Installation {
            browser_version: browser_version.to_string(),
            os: os.to_string(),
            arch: arch.to_string(),
            install_path: install_path.to_string(),
            stage: Stage::Idle,
        }
    }
}

/// Ends the installation with `error`.
fn fail(error: WebDriverError) -> (r: (Stage, InstallAction))
    ensures
        (r.0@, r.1@) == failed(error@),
{
    (Stage::Finished, InstallAction::Fail { error })
}

/// Ends the installation for an event out of turn.
fn unexpected_event() -> (r: (Stage, InstallAction))
    ensures
        (r.0@, r.1@) == failed(ErrorModel::Custom(unexpected_event_message())),
{
    fail(
        WebDriverError::Custom(
            "The event does not answer the action that was asked for.".to_string(),
        ),
    )
}

/// Begins the installation: see [`after_start`].
fn start(browser_version: &str, os: &str, arch: &str) -> (r: (Stage, InstallAction))
    ensures
        (r.0@, r.1@) == after_start(browser_version@, os@, arch@),
{
    let platform = match platform_identifier(os, arch) {
        Ok(platform) => platform,
        Err(e) => {
            return fail(e);
        },
    };
    match major_line_prefix(browser_version) {
        Ok(_) => (
            Stage::AwaitManifest { platform },
            InstallAction::FetchManifest { url: CHROMEDRIVER_URLS_ENDPOINT.to_string() },
        ),
        Err(e) => fail(e),
    }
}

/// Takes the manifest: see [`after_manifest`].
fn manifest_fetched(browser_version: &str, platform: &str, manifest: KnownGoodVersions) -> (r: (
    Stage,
    InstallAction,
))
    ensures
        (r.0@, r.1@) == after_manifest(browser_version@, platform@, manifest),
{
    match resolve_driver(browser_version, platform, &manifest) {
        Ok(driver) => (
            Stage::AwaitDownload { url: driver.download_url.clone() },
            InstallAction::Download { url: driver.download_url },
        ),
        Err(e) => fail(e),
    }
}

/// Takes the answer to the download: see [`after_download`].
fn downloaded(url: &str, status: u16, archive_path: &str, body: Vec<u8>) -> (r: (
    Stage,
    InstallAction,
))
    ensures
        (r.0@, r.1@) == after_download(url@, status, archive_path@, body@),
{
    match check_download_status(url, status) {
        Ok(()) => {},
        Err(e) => {
            return fail(e);
        },
    }
    match unzip_file(archive_path, body) {
        Ok(steps) => (Stage::AwaitExtraction, InstallAction::Extract { steps }),
        Err(e) => fail(e),
    }
}

/// Takes the walk of the install directory: see [`after_walk`].
fn walked(install_path: &str, windows: bool, entries: Vec<WalkEntry>) -> (r: (
    Stage,
    InstallAction,
))
    ensures
        (r.0@, r.1@) == after_walk(install_path@, windows, entries@),
{
    match find_driver_executable(install_path, "chromedriver", windows, &entries) {
        Ok(path) => (
            Stage::AwaitRun { path: path.clone() },
            InstallAction::RunDriver { path, flag: "--version".to_string() },
        ),
        Err(e) => fail(e),
    }
}

/// Takes the run of the driver: see [`after_run`].
fn ran(path: String, outcome: CommandOutcome) -> (r: (Stage, InstallAction))
    ensures
        (r.0@, r.1@) == after_run(path@, outcome),
{
    match ChromeDriver.verify_driver(path.as_str(), outcome) {
        Ok(()) => (Stage::Finished, InstallAction::Done { path }),
        Err(e) => fail(e),
    }
}

impl ChromeDriver {
    /// Downloads, unzips, and verifies the driver, one step at a time:
    /// takes the report of the last action and returns the installation in
    /// its next stage with the next action. See [`next_step`].
    ///
    /// The first event is [`InstallEvent::Started`]; the last action is
    /// [`InstallAction::Done`] or [`InstallAction::Fail`].
    pub fn download_and_install(&self, installation: Installation, event: InstallEvent) -> (r: (
        Installation,
        InstallAction,
    ))
        ensures
            r.0.browser_version@ == installation.browser_version@,
            r.0.os@ == installation.os@,
            r.0.arch@ == installation.arch@,
            r.0.install_path@ == installation.install_path@,
            (r.0.stage@, r.1@) == next_step(installation, event),
    {
        let Installation { browser_version, os, arch, install_path, stage } = installation;
        let (stage, action) = match (stage, event) {
            (Stage::Finished, _) => unexpected_event(),
            (_, InstallEvent::Failure { error }) => fail(error),
            (Stage::Idle, InstallEvent::Started) => start(
                browser_version.as_str(),
                os.as_str(),
                arch.as_str(),
            ),
            (Stage::AwaitManifest { platform }, InstallEvent::Manifest { manifest }) => {
                manifest_fetched(browser_version.as_str(), platform.as_str(), manifest)
            },
            (
                Stage::AwaitDownload { url },
                InstallEvent::Downloaded { status, archive_path, body },
            ) => downloaded(url.as_str(), status, archive_path.as_str(), body),
            (Stage::AwaitExtraction, InstallEvent::Extracted) => (
                Stage::AwaitWalk,
                InstallAction::Walk { root: install_path.clone() },
            ),
            (Stage::AwaitWalk, InstallEvent::Walked { entries }) => walked(
                install_path.as_str(),
                text_eq(os.as_str(), "windows"),
                entries,
            ),
            (Stage::AwaitRun { path }, InstallEvent::Ran { outcome }) => ran(path, outcome),
            _ => unexpected_event(),
        };
        (Installation { browser_version, os, arch, install_path, stage }, action)
    }
}

/// On a machine outside the supported pairs an installation ends at its
/// start with `UnsupportedPlatform`: nothing is fetched.
pub proof fn lemma_unsupported_platform_fetches_nothing(installation: Installation)
    requires
        installation.stage is Idle,
        platform_of(installation.os@, installation.arch@) is None,
    ensures
        next_step(installation, InstallEvent::Started) == failed(
            ErrorModel::UnsupportedPlatform(platform_label(installation.os@, installation.arch@)),
        ),
{
}

/// An installation ends well only by the run of the driver: the path it
/// ends with is the path that was run, and the run passed the check.
pub proof fn lemma_done_only_after_verified_run(installation: Installation, event: InstallEvent)
    requires
        next_step(installation, event).1 is Done,
    ensures
        installation.stage matches Stage::AwaitRun { path } && event matches InstallEvent::Ran {
            outcome,
        } && verification(path@, outcome) is Ok && next_step(installation, event).1
            == (ActionModel::Done { path: path@ }),
{
}

/// The driver that is run is a file, of the name of the driver's
/// executable, that the walk of the install directory visited.
pub proof fn lemma_run_path_was_visited(installation: Installation, event: InstallEvent)
    requires
        next_step(installation, event).1 is RunDriver,
    ensures
        event matches InstallEvent::Walked { entries } && exists|index: int|
            0 <= index < entries@.len() && (#[trigger] entries@[index] matches WalkEntry::Visited {
                path,
                file_name: Some(name),
                is_file: true,
            } && path@ == next_step(installation, event).1->RunDriver_path && name@
                == executable_name("chromedriver"@, installation.os@ == "windows"@)),
{
    if let InstallEvent::Walked { entries } = event {
        let wanted = executable_name("chromedriver"@, installation.os@ == "windows"@);
        let index = choose|index: int| crate::downloader::is_search_end(entries@, wanted, index);
        assert(entries@[index] is Visited);
    }
}

} // verus!
