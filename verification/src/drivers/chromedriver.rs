//! ChromeDriver: which build matches a Chrome version, and whether an
//! installed build answers as ChromeDriver does.

use crate::browser::{
    browser_version, get_browser_version, override_model, Observation, Probe,
};
use crate::command::{
    command_line, command_line_model, decode_output, decoded_output, CommandOutcome,
};
use crate::error::{text_or_error_model, ErrorModel, WebDriverError};
use crate::platform::{platform_identifier, platform_label, platform_of, HostOs};
use crate::text::{chars_of, contains, contains_text, matches_at, slice_of, starts_with, text_eq};
use vstd::prelude::*;

verus! {

/// A single download URL for a specific platform.
#[derive(Debug, Clone, PartialEq, Eq)]
pub struct Download {
    pub platform: String,
    pub url: String,
}

/// The downloads that a manifest entry offers. Some entries offer none for
/// the driver.
#[derive(Debug, Clone, PartialEq, Eq)]
pub struct VersionDownloads {
    pub chromedriver: Option<Vec<Download>>,
}

/// A single version entry of the manifest.
#[derive(Debug, Clone, PartialEq, Eq)]
pub struct Version {
    pub version: String,
    pub downloads: VersionDownloads,
}

/// The manifest: the known versions, oldest first.
#[derive(Debug, Clone, PartialEq, Eq)]
pub struct KnownGoodVersions {
    pub versions: Vec<Version>,
}

/// The driver build chosen for a browser.
#[derive(Debug, Clone, PartialEq, Eq)]
pub struct ResolvedDriver {
    pub driver_version: String,
    pub download_url: String,
}

/// The mathematical value of a [`Download`].
pub struct DownloadModel {
    pub platform: Seq<char>,
    pub url: Seq<char>,
}

/// The mathematical value of a [`Version`].
pub struct VersionModel {
    pub version: Seq<char>,
    pub chromedriver: Option<Seq<DownloadModel>>,
}

impl View for Download {
    type V = DownloadModel;

    open spec fn view(&self) -> DownloadModel {
        DownloadModel { platform: self.platform@, url: self.url@ }
    }
}

/// The downloads of a list, each by its value.
pub open spec fn downloads_model(downloads: Seq<Download>) -> Seq<DownloadModel> {
    downloads.map_values(|download: Download| download@)
}

impl View for Version {
    type V = VersionModel;

    open spec fn view(&self) -> VersionModel {
        VersionModel {
            version: self.version@,
            chromedriver: match self.downloads.chromedriver {
                Some(downloads) => Some(downloads_model(downloads@)),
                None => None,
            },
        }
    }
}

impl View for KnownGoodVersions {
    type V = Seq<VersionModel>;

    open spec fn view(&self) -> Seq<VersionModel> {
        self.versions@.map_values(|version: Version| version@)
    }
}

/// Whether the last `.` of `version` stands at `dot`.
pub open spec fn is_last_dot(version: Seq<char>, dot: int) -> bool {
    &&& 0 <= dot < version.len()
    &&& version[dot] == '.'
    &&& forall|k: int| dot < k < version.len() ==> version[k] != '.'
}

/// The major-line prefix of a version: the version without its last
/// dot-separated component and the dot before it. A version without a dot
/// has none.
pub open spec fn major_line(version: Seq<char>) -> Option<Seq<char>> {
    if exists|dot: int| is_last_dot(version, dot) {
        Some(version.subrange(0, choose|dot: int| is_last_dot(version, dot)))
    } else {
        None
    }
}

/// Whether entry `index` is the last entry of `manifest` whose version
/// begins with `prefix`.
pub open spec fn is_last_match(manifest: Seq<VersionModel>, prefix: Seq<char>, index: int) -> bool {
    &&& 0 <= index < manifest.len()
    &&& starts_with(manifest[index].version, prefix)
    &&& forall|later: int|
        index < later < manifest.len() ==> !starts_with(#[trigger] manifest[later].version, prefix)
}

/// The index of the last entry of `manifest` whose version begins with
/// `prefix`, if there is one.
pub open spec fn selected_entry(manifest: Seq<VersionModel>, prefix: Seq<char>) -> Option<int> {
    if exists|index: int| is_last_match(manifest, prefix, index) {
        Some(choose|index: int| is_last_match(manifest, prefix, index))
    } else {
        None
    }
}

/// Whether download `index` is the first of `downloads` for `platform`.
pub open spec fn is_first_download(
    downloads: Seq<DownloadModel>,
    platform: Seq<char>,
    index: int,
) -> bool {
    &&& 0 <= index < downloads.len()
    &&& downloads[index].platform == platform
    &&& forall|earlier: int|
        0 <= earlier < index ==> (#[trigger] downloads[earlier]).platform != platform
}

/// The index of the first of `downloads` for `platform`, if there is one.
pub open spec fn selected_download(downloads: Seq<DownloadModel>, platform: Seq<char>) -> Option<
    int,
> {
    if exists|index: int| is_first_download(downloads, platform, index) {
        Some(choose|index: int| is_first_download(downloads, platform, index))
    } else {
        None
    }
}

/// The URL that `entry` offers for `platform`, if it offers one.
pub open spec fn download_url(entry: VersionModel, platform: Seq<char>) -> Option<Seq<char>> {
    match entry.chromedriver {
        None => None,
        Some(downloads) => match selected_download(downloads, platform) {
            None => None,
            Some(index) => Some(downloads[index].url),
        },
    }
}

/// The driver build for a browser version on a platform: the version and
/// the URL of the last manifest entry that shares the browser's major line.
pub open spec fn resolution(
    browser_version: Seq<char>,
    platform: Seq<char>,
    manifest: Seq<VersionModel>,
) -> Result<(Seq<char>, Seq<char>), ErrorModel> {
    match major_line(browser_version) {
        None => Err(ErrorModel::BrowserVersionParsingError { output: browser_version }),
        Some(prefix) => match selected_entry(manifest, prefix) {
            None => Err(ErrorModel::DriverVersionNotFound { browser_version, platform }),
            Some(index) => match download_url(manifest[index], platform) {
                None => Err(
                    ErrorModel::DriverUrlNotFound {
                        driver_version: manifest[index].version,
                        platform,
                    },
                ),
                Some(url) => Ok((manifest[index].version, url)),
            },
        },
    }
}

/// The driver build for a browser version on the machine that `os` and
/// `arch` name. An unsupported machine fails before anything else is looked
/// at.
pub open spec fn host_resolution(
    browser_version: Seq<char>,
    os: Seq<char>,
    arch: Seq<char>,
    manifest: Seq<VersionModel>,
) -> Result<(Seq<char>, Seq<char>), ErrorModel> {
    match platform_of(os, arch) {
        None => Err(ErrorModel::UnsupportedPlatform(platform_label(os, arch))),
        Some(platform) => resolution(browser_version, platform, manifest),
    }
}

/// The last `.` of a version stands in one place only.
pub proof fn lemma_last_dot_unique(version: Seq<char>, a: int, b: int)
    requires
        is_last_dot(version, a),
        is_last_dot(version, b),
    ensures
        a == b,
{
}

/// Strips the last dot-separated component from a version: see
/// [`major_line`]. A version without a dot fails with
/// `BrowserVersionParsingError`.
pub fn major_line_prefix(version: &str) -> (r: Result<String, WebDriverError>)
    ensures
        match r {
            Ok(prefix) => major_line(version@) == Some(prefix@),
            Err(e) => major_line(version@) is None && e@ == (
            ErrorModel::BrowserVersionParsingError { output: version@ }),
        },
{
    let chars = chars_of(version);
    let mut at: usize = chars.len();
    while at > 0
        invariant
            chars@ == version@,
            at <= chars.len(),
            forall|k: int| at <= k < chars.len() ==> chars@[k] != '.',
        decreases at,
    {
        at -= 1;
        if chars[at] == '.' {
            proof {
                assert(is_last_dot(version@, at as int));
                let chosen = choose|dot: int| is_last_dot(version@, dot);
                lemma_last_dot_unique(version@, chosen, at as int);
            }
            return Ok(slice_of(version, 0, at));
        }
    }
    Err(WebDriverError::BrowserVersionParsingError { output: version.to_string() })
}

/// Finds the last entry of the manifest whose version begins with
/// `prefix`.
pub fn select_version(manifest: &KnownGoodVersions, prefix: &str) -> (r: Option<usize>)
    ensures
        match r {
            Some(index) => selected_entry(manifest@, prefix@) == Some(index as int),
            None => selected_entry(manifest@, prefix@) is None,
        },
{
    let pattern = chars_of(prefix);
    let mut at: usize = manifest.versions.len();
    while at > 0
        invariant
            pattern@ == prefix@,
            at <= manifest.versions.len(),
            manifest@.len() == manifest.versions.len(),
            forall|later: int|
                at <= later < manifest@.len() ==> !starts_with(
                    #[trigger] manifest@[later].version,
                    prefix@,
                ),
        decreases at,
    {
        at -= 1;
        let version = chars_of(manifest.versions[at].version.as_str());
        assert(manifest@[at as int].version == version@);
        if matches_at(&version, &pattern, 0) {
            proof {
                assert(is_last_match(manifest@, prefix@, at as int));
                lemma_takes_last_match(manifest@, prefix@, at as int);
            }
            return Some(at);
        }
    }
    assert forall|index: int| !is_last_match(manifest@, prefix@, index) by {
        if 0 <= index < manifest@.len() {
            assert(!starts_with(manifest@[index].version, prefix@));
        }
    }
    None
}

/// Finds the first of `downloads` that is for `platform`.
pub fn find_download(downloads: &Vec<Download>, platform: &str) -> (r: Option<usize>)
    ensures
        match r {
            Some(index) => selected_download(downloads_model(downloads@), platform@) == Some(
                index as int,
            ),
            None => selected_download(downloads_model(downloads@), platform@) is None,
        },
{
    let ghost model = downloads_model(downloads@);
    let mut at: usize = 0;
    while at < downloads.len()
        invariant
            at <= downloads.len(),
            model == downloads_model(downloads@),
            forall|earlier: int|
                0 <= earlier < at ==> (#[trigger] model[earlier]).platform != platform@,
        decreases downloads.len() - at,
    {
        assert(model[at as int].platform == downloads@[at as int].platform@);
        if text_eq(downloads[at].platform.as_str(), platform) {
            proof {
                assert(is_first_download(model, platform@, at as int));
                let chosen = choose|index: int| is_first_download(model, platform@, index);
                assert(chosen == at);
            }
            return Some(at);
        }
        at += 1;
    }
    assert forall|index: int| !is_first_download(model, platform@, index) by {
        if 0 <= index < model.len() {
            assert(model[index].platform != platform@);
        }
    }
    None
}

/// The value of a pair of texts, or of the error in their place.
pub open spec fn pair_or_error_model(r: Result<(String, String), WebDriverError>) -> Result<
    (Seq<char>, Seq<char>),
    ErrorModel,
> {
    match r {
        Ok((first, second)) => Ok((first@, second@)),
        Err(e) => Err(e@),
    }
}

/// The value of a resolved driver, or of the error in its place.
pub open spec fn resolved_or_error_model(r: Result<ResolvedDriver, WebDriverError>) -> Result<
    (Seq<char>, Seq<char>),
    ErrorModel,
> {
    match r {
        Ok(driver) => Ok((driver.driver_version@, driver.download_url@)),
        Err(e) => Err(e@),
    }
}

/// Selects the driver build for a browser version on a platform from the
/// manifest: see [`resolution`].
pub fn resolve_driver(browser_version: &str, platform: &str, manifest: &KnownGoodVersions) -> (r:
    Result<ResolvedDriver, WebDriverError>)
    ensures
        resolved_or_error_model(r) == resolution(browser_version@, platform@, manifest@),
{
    let prefix = match major_line_prefix(browser_version) {
        Ok(prefix) => prefix,
        Err(e) => {
            return Err(e);
        },
    };
    let index = match select_version(manifest, prefix.as_str()) {
        Some(index) => index,
        None => {
            return Err(
                WebDriverError::DriverVersionNotFound {
                    browser_version: browser_version.to_string(),
                    platform: platform.to_string(),
                },
            );
        },
    };
    let entry = &manifest.versions[index];
    assert(manifest@[index as int] == entry@);
    let found = match &entry.downloads.chromedriver {
        Some(downloads) => match find_download(downloads, platform) {
            Some(at) => {
                assert(downloads_model(downloads@)[at as int].url == downloads@[at as int].url@);
                Some(downloads[at].url.clone())
            },
            None => None,
        },
        None => None,
    };
    match found {
        Some(download_url) => Ok(
            ResolvedDriver { driver_version: entry.version.clone(), download_url },
        ),
        None => Err(
            WebDriverError::DriverUrlNotFound {
                driver_version: entry.version.clone(),
                platform: platform.to_string(),
            },
        ),
    }
}

/// Finds the driver version and the download URL for a browser version on
/// the machine that `os` and `arch` name: see [`host_resolution`].
pub fn get_chromedriver_download_url(
    browser_version: &str,
    os: &str,
    arch: &str,
    manifest: &KnownGoodVersions,
) -> (r: Result<(String, String), WebDriverError>)
    ensures
        pair_or_error_model(r) == host_resolution(browser_version@, os@, arch@, manifest@),
{
    let platform = match platform_identifier(os, arch) {
        Ok(platform) => platform,
        Err(e) => {
            return Err(e);
        },
    };
    match resolve_driver(browser_version, platform.as_str(), manifest) {
        Ok(driver) => Ok((driver.driver_version, driver.download_url)),
        Err(e) => Err(e),
    }
}

/// Resolution takes the match that stands last in the manifest: where entry
/// `index` begins with the prefix and no later entry does, it is the
/// selected entry, whatever the versions of the earlier matches are.
pub proof fn lemma_takes_last_match(manifest: Seq<VersionModel>, prefix: Seq<char>, index: int)
    requires
        0 <= index < manifest.len(),
        starts_with(manifest[index].version, prefix),
        forall|later: int|
            index < later < manifest.len() ==> !starts_with(
                #[trigger] manifest[later].version,
                prefix,
            ),
    ensures
        selected_entry(manifest, prefix) == Some(index),
{
    assert(is_last_match(manifest, prefix, index));
    let chosen = choose|at: int| is_last_match(manifest, prefix, at);
    assert(chosen == index) by {
        if chosen < index {
            assert(!starts_with(manifest[index].version, prefix));
        }
        if index < chosen {
            assert(!starts_with(manifest[chosen].version, prefix));
        }
    }
}

/// The driver version that resolution returns is that of the last matching
/// entry of the manifest.
pub proof fn lemma_resolution_returns_last_match(
    browser_version: Seq<char>,
    platform: Seq<char>,
    manifest: Seq<VersionModel>,
    index: int,
)
    requires
        major_line(browser_version) is Some,
        is_last_match(manifest, major_line(browser_version)->0, index),
    ensures
        resolution(browser_version, platform, manifest) matches Ok(found) ==> found.0
            == manifest[index].version,
        resolution(browser_version, platform, manifest) matches Err(e) ==> e == (
        ErrorModel::DriverUrlNotFound { driver_version: manifest[index].version, platform }),
{
    lemma_takes_last_match(manifest, major_line(browser_version)->0, index);
}

/// A machine outside the supported pairs fails with `UnsupportedPlatform`,
/// whatever the browser version and the manifest are.
pub proof fn lemma_unsupported_platform_fails_first(
    browser_version: Seq<char>,
    os: Seq<char>,
    arch: Seq<char>,
    manifest: Seq<VersionModel>,
)
    requires
        platform_of(os, arch) is None,
    ensures
        host_resolution(browser_version, os, arch, manifest) == Err::<
            (Seq<char>, Seq<char>),
            ErrorModel,
        >(ErrorModel::UnsupportedPlatform(platform_label(os, arch))),
{
}

/// Where the selected entry has no downloads for the driver, or none for
/// the platform, resolution fails with `DriverUrlNotFound`; it fails with
/// `DriverVersionNotFound` only where no entry is selected.
pub proof fn lemma_missing_download_is_url_not_found(
    browser_version: Seq<char>,
    platform: Seq<char>,
    manifest: Seq<VersionModel>,
)
    requires
        major_line(browser_version) is Some,
    ensures
        match selected_entry(manifest, major_line(browser_version)->0) {
            None => resolution(browser_version, platform, manifest) == Err::<
                (Seq<char>, Seq<char>),
                ErrorModel,
            >(ErrorModel::DriverVersionNotFound { browser_version, platform }),
            Some(index) => (manifest[index].chromedriver is None || forall|k: int|
                0 <= k < manifest[index].chromedriver->0.len() ==> (
                #[trigger] manifest[index].chromedriver->0[k]).platform != platform)
                ==> resolution(browser_version, platform, manifest) == Err::<
                (Seq<char>, Seq<char>),
                ErrorModel,
            >(
                ErrorModel::DriverUrlNotFound {
                    driver_version: manifest[index].version,
                    platform,
                },
            ),
        },
{
    if let Some(index) = selected_entry(manifest, major_line(browser_version)->0) {
        if let Some(downloads) = manifest[index].chromedriver {
            if forall|k: int|
                0 <= k < downloads.len() ==> (#[trigger] downloads[k]).platform != platform {
                assert forall|at: int| !is_first_download(downloads, platform, at) by {
                    if 0 <= at < downloads.len() {
                        assert(downloads[at].platform != platform);
                    }
                }
            }
        }
    }
}

/// Public struct for managing ChromeDriver.
#[derive(Debug, Clone, Copy, PartialEq, Eq)]
pub struct ChromeDriver;

/// The fixed address of the manifest of known good versions.
pub const CHROMEDRIVER_URLS_ENDPOINT: &'static str =
    "https://googlechromelabs.github.io/chrome-for-testing/known-good-versions-with-downloads.json";

/// What the check of an installed driver gives. The driver passes where it
/// ended with status zero and its output, read as UTF-8, names
/// `ChromeDriver`.
pub open spec fn verification(driver_path: Seq<char>, outcome: CommandOutcome) -> Result<
    (),
    ErrorModel,
> {
    let command = command_line_model(driver_path, "--version"@);
    match outcome {
        CommandOutcome::NotStarted { source } => Err(
            ErrorModel::CommandExecutionError { command, source: source@ },
        ),
        CommandOutcome::Finished { success, stdout } => if !success {
            Err(ErrorModel::VerificationError("Driver process exited with a non-zero status."@))
        } else {
            match decoded_output(command, stdout@) {
                Err(e) => Err(e),
                Ok(text) => if contains_text(text, "ChromeDriver"@) {
                    Ok(())
                } else {
                    Err(
                        ErrorModel::VerificationError(
                            "Unexpected output during verification: "@ + text,
                        ),
                    )
                },
            }
        },
    }
}

impl ChromeDriver {
    /// The name of the driver, which is also the name of its executable
    /// and of its downloads in the manifest.
    pub fn get_driver_name(&self) -> (r: &'static str)
        ensures
            r@ == "chromedriver"@,
    {
        "chromedriver"
    }

    /// The flag with which the driver is asked for its version.
    pub fn version_flag(&self) -> (r: &'static str)
        ensures
            r@ == "--version"@,
    {
        "--version"
    }

    /// Determines the driver version for a browser version: the first part
    /// of [`host_resolution`].
    pub fn get_driver_version(
        &self,
        browser_version: &str,
        os: &str,
        arch: &str,
        manifest: &KnownGoodVersions,
    ) -> (r: Result<String, WebDriverError>)
        ensures
            match host_resolution(browser_version@, os@, arch@, manifest@) {
                Ok(found) => r matches Ok(version) && version@ == found.0,
                Err(e) => r matches Err(failure) && failure@ == e,
            },
    {
        match get_chromedriver_download_url(browser_version, os, arch, manifest) {
            Ok((driver_version, _)) => Ok(driver_version),
            Err(e) => Err(e),
        }
    }

    /// Determines the download URL of the driver for a browser version: the
    /// second part of [`host_resolution`].
    pub fn get_download_url(
        &self,
        driver_version: &str,
        os: &str,
        arch: &str,
        manifest: &KnownGoodVersions,
    ) -> (r: Result<String, WebDriverError>)
        ensures
            match host_resolution(driver_version@, os@, arch@, manifest@) {
                Ok(found) => r matches Ok(url) && url@ == found.1,
                Err(e) => r matches Err(failure) && failure@ == e,
            },
    {
        match get_chromedriver_download_url(driver_version, os, arch, manifest) {
            Ok((_, url)) => Ok(url),
            Err(e) => Err(e),
        }
    }

    /// Gets the version of the installed Chrome: see
    /// [`get_browser_version`].
    pub fn get_browser_version(
        &self,
        os: HostOs,
        browser_path: Option<&str>,
        probes: &Vec<Probe>,
        observation: Observation,
    ) -> (r: Result<String, WebDriverError>)
        ensures
            text_or_error_model(r) == browser_version(
                os,
                "chrome"@,
                override_model(browser_path),
                probes@,
                observation,
            ),
            r matches Ok(version) ==> crate::version::looks_like_version(version@),
    {
        get_browser_version(os, "chrome", browser_path, probes, observation)
    }

    /// Judges the run of the driver at `driver_path` with its version flag:
    /// see [`verification`].
    pub fn verify_driver(&self, driver_path: &str, outcome: CommandOutcome) -> (r: Result<
        (),
        WebDriverError,
    >)
        ensures
            match r {
                Ok(()) => verification(driver_path@, outcome) is Ok,
                Err(e) => verification(driver_path@, outcome) == Err::<(), ErrorModel>(e@),
            },
    {
        let command = command_line(driver_path, self.version_flag());
        match outcome {
            CommandOutcome::NotStarted { source } => Err(
                WebDriverError::CommandExecutionError { command, source },
            ),
            CommandOutcome::Finished { success, stdout } => {
                if !success {
                    return Err(
                        WebDriverError::VerificationError(
                            "Driver process exited with a non-zero status.".to_string(),
                        ),
                    );
                }
                let text = match decode_output(command, stdout) {
                    Ok(text) => text,
                    Err(e) => {
                        return Err(e);
                    },
                };
                if contains(text.as_str(), "ChromeDriver") {
                    Ok(())
                } else {
                    Err(
                        WebDriverError::VerificationError(
                            "Unexpected output during verification: ".to_string().concat(
                                text.as_str(),
                            ),
                        ),
                    )
                }
            },
        }
    }
}

/// A driver passes the check only where it ended with status zero and its
/// output names `ChromeDriver`: a failed exit fails the check whatever was
/// printed, and so does output without the name.
pub proof fn lemma_verification_needs_exit_and_marker(
    driver_path: Seq<char>,
    outcome: CommandOutcome,
)
    ensures
        verification(driver_path, outcome) is Ok <==> (outcome matches CommandOutcome::Finished {
            success,
            stdout,
        } && success && vstd::utf8::valid_utf8(stdout@) && contains_text(
            vstd::utf8::decode_utf8(stdout@),
            "ChromeDriver"@,
        )),
        outcome matches CommandOutcome::Finished { success: false, .. } ==> verification(
            driver_path,
            outcome,
        ) == Err::<(), ErrorModel>(
            ErrorModel::VerificationError("Driver process exited with a non-zero status."@),
        ),
{
}

} // verus!
