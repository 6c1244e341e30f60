//! Locating an installed browser and reading its version.
//!
//! The caller looks where [`browser_candidates`] says, asks what
//! [`version_query`] says, and hands back what it found; the functions here
//! decide what that means.

use crate::command::{
    command_line, command_line_model, decode_output, decoded_output, CommandOutcome,
};
use crate::error::{text_or_error_model, ErrorModel, WebDriverError};
use crate::platform::HostOs;
use crate::text::{contains, contains_text, text_eq, text_option_model};
use crate::version::{
    find_metadata_version, find_version_token, looks_like_version, metadata_version,
    version_token,
};
use vstd::prelude::*;

verus! {

/// A place where a browser may be installed.
#[derive(Debug, Clone, PartialEq, Eq)]
pub enum Candidate {
    /// The file `executable` in the directory `directory` under the
    /// directory that the environment variable `variable` names.
    InstallRoot { variable: String, directory: String, executable: String },
    /// The file at the absolute path `path`.
    Location { path: String },
    /// The program `name`, looked up on the search path.
    Program { name: String },
}

/// The mathematical value of a [`Candidate`].
pub enum CandidateModel {
    InstallRoot { variable: Seq<char>, directory: Seq<char>, executable: Seq<char> },
    Location { path: Seq<char> },
    Program { name: Seq<char> },
}

impl View for Candidate {
    type V = CandidateModel;

    open spec fn view(&self) -> CandidateModel {
        match *self {
            Candidate::InstallRoot { variable, directory, executable } => {
                CandidateModel::InstallRoot {
                    variable: variable@,
                    directory: directory@,
                    executable: executable@,
                }
            },
            Candidate::Location { path } => CandidateModel::Location { path: path@ },
            Candidate::Program { name } => CandidateModel::Program { name: name@ },
        }
    }
}

/// The candidates of a list, each by its value.
pub open spec fn candidates_model(candidates: Seq<Candidate>) -> Seq<CandidateModel> {
    candidates.map_values(|candidate: Candidate| candidate@)
}

/// Whether a browser name is taken for Chrome. Any other name is taken for
/// Firefox.
pub open spec fn is_chrome(browser_name: Seq<char>) -> bool {
    contains_text(browser_name, "chrome"@)
}

/// The Windows candidate under the install root that `variable` names.
pub open spec fn windows_candidate(variable: Seq<char>, chrome: bool) -> CandidateModel {
    if chrome {
        CandidateModel::InstallRoot {
            variable,
            directory: "Google\\Chrome\\Application"@,
            executable: "chrome.exe"@,
        }
    } else {
        CandidateModel::InstallRoot {
            variable,
            directory: "Mozilla Firefox"@,
            executable: "firefox.exe"@,
        }
    }
}

/// The conventional install locations of a browser on an operating system,
/// in the order in which they are tried.
pub open spec fn install_candidates(os: HostOs, browser_name: Seq<char>) -> Seq<CandidateModel> {
    let chrome = is_chrome(browser_name);
    match os {
        HostOs::Windows => seq![
            windows_candidate("ProgramFiles"@, chrome),
            windows_candidate("ProgramFiles(x86)"@, chrome),
            windows_candidate("LOCALAPPDATA"@, chrome),
        ],
        HostOs::MacOs => if chrome {
            seq![
                CandidateModel::Location {
                    path: "/Applications/Google Chrome.app/Contents/MacOS/Google Chrome"@,
                },
            ]
        } else {
            seq![
                CandidateModel::Location {
                    path: "/Applications/Firefox.app/Contents/MacOS/firefox"@,
                },
            ]
        },
        HostOs::Linux => if chrome {
            seq![
                CandidateModel::Program { name: "google-chrome"@ },
                CandidateModel::Program { name: "google-chrome-stable"@ },
                CandidateModel::Program { name: "chromium-browser"@ },
                CandidateModel::Program { name: "chromium"@ },
            ]
        } else {
            seq![CandidateModel::Program { name: "firefox"@ }]
        },
    }
}

/// The Windows candidate under the install root that `variable` names.
fn windows_install_root(variable: &str, chrome: bool) -> (r: Candidate)
    ensures
        r@ == windows_candidate(variable@, chrome),
{
    if chrome {
        Candidate::InstallRoot {
            variable: variable.to_string(),
            directory: "Google\\Chrome\\Application".to_string(),
            executable: "chrome.exe".to_string(),
        }
    } else {
        Candidate::InstallRoot {
            variable: variable.to_string(),
            directory: "Mozilla Firefox".to_string(),
            executable: "firefox.exe".to_string(),
        }
    }
}

/// The candidate that is the program `name` on the search path.
fn program(name: &str) -> (r: Candidate)
    ensures
        r@ == (CandidateModel::Program { name: name@ }),
{
    Candidate::Program { name: name.to_string() }
}

/// The candidate that is the file at `path`.
fn location(path: &str) -> (r: Candidate)
    ensures
        r@ == (CandidateModel::Location { path: path@ }),
{
    Candidate::Location { path: path.to_string() }
}

/// Lists the conventional install locations of a browser: see
/// [`install_candidates`].
pub fn browser_candidates(os: HostOs, browser_name: &str) -> (r: Vec<Candidate>)
    ensures
        candidates_model(r@) == install_candidates(os, browser_name@),
{
    let chrome = contains(browser_name, "chrome");
    let mut found: Vec<Candidate> = Vec::new();
    match os {
        HostOs::Windows => {
            found.push(windows_install_root("ProgramFiles", chrome));
            found.push(windows_install_root("ProgramFiles(x86)", chrome));
            found.push(windows_install_root("LOCALAPPDATA", chrome));
        },
        HostOs::MacOs => {
            if chrome {
                found.push(
                    location("/Applications/Google Chrome.app/Contents/MacOS/Google Chrome"),
                );
            } else {
                found.push(location("/Applications/Firefox.app/Contents/MacOS/firefox"));
            }
        },
        HostOs::Linux => {
            if chrome {
                found.push(program("google-chrome"));
                found.push(program("google-chrome-stable"));
                found.push(program("chromium-browser"));
                found.push(program("chromium"));
            } else {
                found.push(program("firefox"));
            }
        },
    }
    assert(candidates_model(found@) =~= install_candidates(os, browser_name@));
    found
}

/// What looking at one candidate gave.
#[derive(Debug, Clone, PartialEq, Eq)]
pub enum Probe {
    /// The environment variable of the candidate is not set, so that there
    /// is no place to look at.
    Unavailable,
    /// Nothing is installed there.
    Absent,
    /// The browser's executable is at `path`.
    Present { path: String },
}

/// Whether `index` is the first probe that found the browser.
pub open spec fn is_first_present(probes: Seq<Probe>, index: int) -> bool {
    &&& 0 <= index < probes.len()
    &&& probes[index] is Present
    &&& forall|earlier: int| 0 <= earlier < index ==> !(#[trigger] probes[earlier] is Present)
}

/// The path of the browser, given what looking at each candidate gave: that
/// of the first candidate at which it was found. A candidate whose install
/// root is not known counts as one at which nothing is installed.
pub open spec fn located(probes: Seq<Probe>) -> Option<Seq<char>> {
    if exists|index: int| is_first_present(probes, index) {
        Some(probes[choose|index: int| is_first_present(probes, index)]->path@)
    } else {
        None
    }
}

/// Picks the browser's path from the probes of its candidates: see
/// [`located`].
pub fn find_browser_path_system(probes: &Vec<Probe>) -> (r: Option<String>)
    ensures
        text_option_model(r) == located(probes@),
{
    let mut at: usize = 0;
    while at < probes.len()
        invariant
            at <= probes.len(),
            forall|k: int| 0 <= k < at ==> !(#[trigger] probes@[k] is Present),
        decreases probes.len() - at,
    {
        if let Probe::Present { path } = &probes[at] {
            proof {
                assert(is_first_present(probes@, at as int));
                let chosen = choose|index: int| is_first_present(probes@, index);
                assert(chosen == at);
            }
            return Some(path.clone());
        }
        at += 1;
    }
    assert forall|index: int| !is_first_present(probes@, index) by {
        if 0 <= index < probes.len() {
            assert(!(probes@[index] is Present));
        }
    }
    None
}

/// Whether a browser name is one of the two that can be located.
pub open spec fn is_known_browser(browser_name: Seq<char>) -> bool {
    browser_name == "chrome"@ || browser_name == "firefox"@
}

/// Finds the path of the named browser from the probes of its candidates.
/// Only `chrome` and `firefox` are looked for.
pub fn find_browser_path(browser_name: &str, probes: &Vec<Probe>) -> (r: Option<String>)
    ensures
        text_option_model(r) == if is_known_browser(browser_name@) {
            located(probes@)
        } else {
            None
        },
{
    if !text_eq(browser_name, "chrome") && !text_eq(browser_name, "firefox") {
        return None;
    }
    find_browser_path_system(probes)
}

/// The path at which the browser is taken to be: the path given, as it is,
/// else the path found, else `BrowserNotFound`.
pub open spec fn chosen_path(
    browser_name: Seq<char>,
    path_override: Option<Seq<char>>,
    probes: Seq<Probe>,
) -> Result<Seq<char>, ErrorModel> {
    match path_override {
        Some(path) => Ok(path),
        None => if is_known_browser(browser_name) && located(probes) is Some {
            Ok(located(probes)->0)
        } else {
            Err(ErrorModel::BrowserNotFound)
        },
    }
}

/// An optional borrowed text as an optional sequence of characters.
pub open spec fn override_model(path: Option<&str>) -> Option<Seq<char>> {
    match path {
        Some(path) => Some(path@),
        None => None,
    }
}

/// Settles the path of the browser: see [`chosen_path`].
pub fn browser_path(browser_name: &str, path_override: Option<&str>, probes: &Vec<Probe>) -> (r:
    Result<String, WebDriverError>)
    ensures
        text_or_error_model(r) == chosen_path(
            browser_name@,
            override_model(path_override),
            probes@,
        ),
{
    match path_override {
        Some(path) => Ok(path.to_string()),
        None => match find_browser_path(browser_name, probes) {
            Some(path) => Ok(path),
            None => Err(WebDriverError::BrowserNotFound),
        },
    }
}

/// How the version of a browser is to be asked for.
#[derive(Debug, Clone, PartialEq, Eq)]
pub enum VersionQuery {
    /// Run `program` once with `arguments` and take its standard output.
    Run { program: String, arguments: Vec<String> },
    /// Read the file `file_name` in the directory of the browser's
    /// executable.
    ReadSibling { file_name: String },
}

/// The flag with which a browser reports its version on the command line.
pub open spec fn version_flag_of(browser_name: Seq<char>) -> Seq<char> {
    if is_chrome(browser_name) {
        "--version"@
    } else {
        "-V"@
    }
}

/// Whether the browser's version is read from the metadata file beside its
/// executable: so it is for Firefox on Windows.
pub open spec fn reads_metadata(os: HostOs, browser_name: Seq<char>) -> bool {
    os is Windows && !is_chrome(browser_name)
}

/// The flag with which a browser reports its version on the command line:
/// see [`version_flag_of`].
pub fn version_flag(browser_name: &str) -> (r: &'static str)
    ensures
        r@ == version_flag_of(browser_name@),
{
    if contains(browser_name, "chrome") {
        "--version"
    } else {
        "-V"
    }
}

/// Says how the version of the browser at `path` is to be asked for: by a
/// run of the browser with its version flag, or, where it does not report
/// its version so, by reading its metadata file.
pub fn version_query(os: HostOs, browser_name: &str, path: &str) -> (r: VersionQuery)
    ensures
        match r {
            VersionQuery::Run { program, arguments } => {
                &&& !reads_metadata(os, browser_name@)
                &&& program@ == path@
                &&& arguments@.len() == 1
                &&& arguments@[0]@ == version_flag_of(browser_name@)
            },
            VersionQuery::ReadSibling { file_name } => {
                &&& reads_metadata(os, browser_name@)
                &&& file_name@ == "application.ini"@
            },
        },
{
    let chrome = contains(browser_name, "chrome");
    match os {
        HostOs::Windows => {
            if !chrome {
                return VersionQuery::ReadSibling { file_name: "application.ini".to_string() };
            }
        },
        _ => {},
    }
    let mut arguments: Vec<String> = Vec::new();
    arguments.push(version_flag(browser_name).to_string());
    VersionQuery::Run { program: path.to_string(), arguments }
}

/// What reading the metadata file beside a browser's executable gave.
#[derive(Debug, Clone, PartialEq, Eq)]
pub enum MetadataOutcome {
    /// The executable's path names no directory.
    NoInstallDirectory,
    /// The file at `path` is missing or could not be read; `source` is the
    /// system's message.
    Unreadable { path: String, source: String },
    /// The file was read and holds `text`.
    Contents { text: String },
}

/// What the caller observed when it asked for a browser's version.
#[derive(Debug, Clone, PartialEq, Eq)]
pub enum Observation {
    /// The outcome of a [`VersionQuery::Run`].
    Command(CommandOutcome),
    /// The outcome of a [`VersionQuery::ReadSibling`].
    Metadata(MetadataOutcome),
}

/// The version in what a browser printed when run with its version flag:
/// the first token that has the look of a version. Whether the browser
/// ended with status zero is not asked.
pub open spec fn cli_version(
    browser_name: Seq<char>,
    path: Seq<char>,
    outcome: CommandOutcome,
) -> Result<Seq<char>, ErrorModel> {
    let command = command_line_model(path, version_flag_of(browser_name));
    match outcome {
        CommandOutcome::NotStarted { source } => Err(
            ErrorModel::CommandExecutionError { command, source: source@ },
        ),
        CommandOutcome::Finished { stdout, .. } => match decoded_output(command, stdout@) {
            Err(e) => Err(e),
            Ok(text) => match version_token(text) {
                Some(version) => Ok(version),
                None => Err(ErrorModel::BrowserVersionParsingError { output: text }),
            },
        },
    }
}

/// The version in a browser's metadata file: the value of its `Version=`
/// line. A file without such a line, or with a value there that has not
/// the look of a version, gives `BrowserVersionParsingError`.
pub open spec fn recorded_version(outcome: MetadataOutcome) -> Result<Seq<char>, ErrorModel> {
    match outcome {
        MetadataOutcome::NoInstallDirectory => Err(ErrorModel::BrowserNotFound),
        MetadataOutcome::Unreadable { path, source } => Err(
            ErrorModel::IoError { path: path@, source: source@ },
        ),
        MetadataOutcome::Contents { text } => match metadata_version(text@) {
            Some(version) => Ok(version),
            None => Err(ErrorModel::BrowserVersionParsingError { output: text@ }),
        },
    }
}

/// The text of the error for an observation of the wrong kind.
pub open spec fn mismatch_message() -> Seq<char> {
    "The observation does not answer the version query."@
}

/// The version of the browser at `path`, given what was observed when it
/// was asked for as [`version_query`] says. An observation of the other
/// kind is refused with `Custom`.
pub open spec fn platform_version(
    os: HostOs,
    browser_name: Seq<char>,
    path: Seq<char>,
    observation: Observation,
) -> Result<Seq<char>, ErrorModel> {
    match observation {
        Observation::Command(outcome) => if reads_metadata(os, browser_name) {
            Err(ErrorModel::Custom(mismatch_message()))
        } else {
            cli_version(browser_name, path, outcome)
        },
        Observation::Metadata(outcome) => if reads_metadata(os, browser_name) {
            recorded_version(outcome)
        } else {
            Err(ErrorModel::Custom(mismatch_message()))
        },
    }
}

/// Reads the version out of what the browser at `path` printed when run
/// with its version flag: see [`cli_version`].
pub fn get_version_from_cli(browser_name: &str, path: &str, outcome: CommandOutcome) -> (r: Result<
    String,
    WebDriverError,
>)
    ensures
        text_or_error_model(r) == cli_version(browser_name@, path@, outcome),
        r matches Ok(version) ==> looks_like_version(version@),
{
    let command = command_line(path, version_flag(browser_name));
    match outcome {
        CommandOutcome::NotStarted { source } => Err(
            WebDriverError::CommandExecutionError { command, source },
        ),
        CommandOutcome::Finished { success: _, stdout } => {
            let text = match decode_output(command, stdout) {
                Ok(text) => text,
                Err(e) => {
                    return Err(e);
                },
            };
            match find_version_token(text.as_str()) {
                Some(version) => Ok(version),
                None => Err(WebDriverError::BrowserVersionParsingError { output: text }),
            }
        },
    }
}

/// Reads the version out of a browser's metadata file: see
/// [`recorded_version`].
pub fn get_version_from_metadata(outcome: MetadataOutcome) -> (r: Result<String, WebDriverError>)
    ensures
        text_or_error_model(r) == recorded_version(outcome),
        r matches Ok(version) ==> looks_like_version(version@),
{
    match outcome {
        MetadataOutcome::NoInstallDirectory => Err(WebDriverError::BrowserNotFound),
        MetadataOutcome::Unreadable { path, source } => Err(
            WebDriverError::IoError { path, source },
        ),
        MetadataOutcome::Contents { text } => match find_metadata_version(text.as_str()) {
            Some(version) => Ok(version),
            None => Err(WebDriverError::BrowserVersionParsingError { output: text }),
        },
    }
}

/// Reads the version of the browser at `path` out of what was observed:
/// see [`platform_version`].
pub fn get_version_on_platform(
    os: HostOs,
    browser_name: &str,
    path: &str,
    observation: Observation,
) -> (r: Result<String, WebDriverError>)
    ensures
        text_or_error_model(r) == platform_version(os, browser_name@, path@, observation),
        r matches Ok(version) ==> looks_like_version(version@),
{
    let chrome = contains(browser_name, "chrome");
    let windows = match os {
        HostOs::Windows => true,
        _ => false,
    };
    match observation {
        Observation::Command(outcome) => {
            if windows && !chrome {
                Err(
                    WebDriverError::Custom(
                        "The observation does not answer the version query.".to_string(),
                    ),
                )
            } else {
                get_version_from_cli(browser_name, path, outcome)
            }
        },
        Observation::Metadata(outcome) => {
            if windows && !chrome {
                get_version_from_metadata(outcome)
            } else {
                Err(
                    WebDriverError::Custom(
                        "The observation does not answer the version query.".to_string(),
                    ),
                )
            }
        },
    }
}

/// The version of the named browser: that of the browser at the chosen
/// path, or the failure to choose one.
pub open spec fn browser_version(
    os: HostOs,
    browser_name: Seq<char>,
    path_override: Option<Seq<char>>,
    probes: Seq<Probe>,
    observation: Observation,
) -> Result<Seq<char>, ErrorModel> {
    match chosen_path(browser_name, path_override, probes) {
        Err(e) => Err(e),
        Ok(path) => platform_version(os, browser_name, path, observation),
    }
}

/// Gets the version of the specified browser.
///
/// If `path_override` is given, it is used as it is. Otherwise the path is
/// taken from `probes`, the outcome of looking at the browser's candidates.
/// `observation` is what asking the browser at that path for its version
/// gave; it is not looked at where no path is found.
pub fn get_browser_version(
    os: HostOs,
    browser_name: &str,
    path_override: Option<&str>,
    probes: &Vec<Probe>,
    observation: Observation,
) -> (r: Result<String, WebDriverError>)
    ensures
        text_or_error_model(r) == browser_version(
            os,
            browser_name@,
            override_model(path_override),
            probes@,
            observation,
        ),        r matches Ok(version) ==> looks_like_version(version@),
{
    match browser_path(browser_name, path_override, probes) {
        Ok(path) => get_version_on_platform(os, browser_name, path.as_str(), observation),
        Err(e) => Err(e),
    }
}

/// A version that is found has the look of a version: it begins with an
/// ASCII digit and holds a dot, whatever the system, the browser and the
/// way in which it was asked.
pub proof fn lemma_found_version_looks_like_version(
    os: HostOs,
    browser_name: Seq<char>,
    path_override: Option<Seq<char>>,
    probes: Seq<Probe>,
    observation: Observation,
)
    ensures
        browser_version(os, browser_name, path_override, probes, observation) matches Ok(version)
            ==> looks_like_version(version),
{
    if let Ok(path) = chosen_path(browser_name, path_override, probes) {
        if let Observation::Command(CommandOutcome::Finished { stdout, .. }) = observation {
            let command = command_line_model(path, version_flag_of(browser_name));
            if let Ok(text) = decoded_output(command, stdout@) {
                crate::version::lemma_version_token_looks_like_version(text);
            }
        }
    }
}

} // verus!
