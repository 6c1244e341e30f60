use webdriver_manager::drivers::chromedriver::{
    find_download, get_chromedriver_download_url, major_line_prefix, resolve_driver,
    select_version, ChromeDriver, Download, KnownGoodVersions, ResolvedDriver, Version,
    VersionDownloads,
};
use webdriver_manager::platform::{host_os, platform_identifier, HostOs};
use webdriver_manager::WebDriverError;

fn entry(version: &str, downloads: Option<Vec<(&str, &str)>>) -> Version {
    Version {
        version: version.to_string(),
        downloads: VersionDownloads {
            chromedriver: downloads.map(|list| {
                list.into_iter()
                    .map(|(platform, url)| Download {
                        platform: platform.to_string(),
                        url: url.to_string(),
                    })
                    .collect()
            }),
        },
    }
}

fn public_url(version: &str, platform: &str) -> String {
    format!(
        "https://storage.googleapis.com/chrome-for-testing-public/{}/{}/chromedriver-{}.zip",
        version, platform, platform
    )
}

fn full_entry(version: &str) -> Version {
    let platforms = ["linux64", "mac-arm64", "mac-x64", "win32", "win64"];
    Version {
        version: version.to_string(),
        downloads: VersionDownloads {
            chromedriver: Some(
                platforms
                    .iter()
                    .map(|platform| Download {
                        platform: platform.to_string(),
                        url: public_url(version, platform),
                    })
                    .collect(),
            ),
        },
    }
}

#[test]
fn test_get_download_url_for_known_version() {
    let manifest = KnownGoodVersions {
        versions: vec![
            full_entry("137.0.7151.119"),
            full_entry("138.0.7204.0"),
            full_entry("138.0.7204.92"),
            full_entry("138.0.7204.157"),
            full_entry("139.0.7258.0"),
        ],
    };
    let browser_version = "138.0.7204.158";
    let pairs = [
        ("windows", "x86_64", "win64"),
        ("windows", "x86", "win32"),
        ("macos", "x86_64", "mac-x64"),
        ("macos", "aarch64", "mac-arm64"),
        ("linux", "x86_64", "linux64"),
    ];
    for (os, arch, platform_str) in pairs {
        let result = get_chromedriver_download_url(browser_version, os, arch, &manifest);
        println!("Test Result for browser version {}: {:?}", browser_version, result);
        assert!(result.is_ok());
        let (driver_version, url) = result.unwrap();
        assert!(driver_version.starts_with("138.0.7204"));
        assert!(url.starts_with("https://storage.googleapis.com/chrome-for-testing-public/"));
        assert!(url.contains(platform_str));
        assert_eq!(driver_version, "138.0.7204.157");
        assert_eq!(url, public_url("138.0.7204.157", platform_str));
    }
}

#[test]
fn major_line_of_a_four_part_version() {
    assert_eq!(major_line_prefix("138.0.7204.158"), Ok("138.0.7204".to_string()));
}

#[test]
fn major_line_of_short_versions() {
    assert_eq!(major_line_prefix("1.2"), Ok("1".to_string()));
    assert_eq!(major_line_prefix("1."), Ok("1".to_string()));
    assert_eq!(major_line_prefix(".5"), Ok(String::new()));
    assert_eq!(major_line_prefix("a.b.c"), Ok("a.b".to_string()));
}

#[test]
fn major_line_needs_a_dot() {
    assert_eq!(
        major_line_prefix("138"),
        Err(WebDriverError::BrowserVersionParsingError { output: "138".to_string() })
    );
    assert_eq!(
        major_line_prefix(""),
        Err(WebDriverError::BrowserVersionParsingError { output: String::new() })
    );
}

#[test]
fn resolves_the_single_matching_entry() {
    let manifest = KnownGoodVersions {
        versions: vec![entry("120.0.1.1", Some(vec![("linux64", "http://x/a.zip")]))],
    };
    assert_eq!(
        resolve_driver("120.0.1.9", "linux64", &manifest),
        Ok(ResolvedDriver {
            driver_version: "120.0.1.1".to_string(),
            download_url: "http://x/a.zip".to_string(),
        })
    );
    assert_eq!(
        get_chromedriver_download_url("120.0.1.9", "linux", "x86_64", &manifest),
        Ok(("120.0.1.1".to_string(), "http://x/a.zip".to_string()))
    );
    let driver = ChromeDriver;
    assert_eq!(
        driver.get_driver_version("120.0.1.9", "linux", "x86_64", &manifest),
        Ok("120.0.1.1".to_string())
    );
    assert_eq!(
        driver.get_download_url("120.0.1.9", "linux", "x86_64", &manifest),
        Ok("http://x/a.zip".to_string())
    );
}

#[test]
fn takes_the_last_match_not_the_largest() {
    let manifest = KnownGoodVersions {
        versions: vec![
            entry("120.0.1.1", Some(vec![("linux64", "http://x/1.zip")])),
            entry("120.0.1.9", Some(vec![("linux64", "http://x/9.zip")])),
            entry("120.0.1.10", Some(vec![("linux64", "http://x/10.zip")])),
            entry("121.0.0.0", Some(vec![("linux64", "http://x/121.zip")])),
        ],
    };
    assert!("120.0.1.9" > "120.0.1.10");
    assert_eq!(select_version(&manifest, "120.0.1"), Some(2));
    assert_eq!(
        resolve_driver("120.0.1.5", "linux64", &manifest),
        Ok(ResolvedDriver {
            driver_version: "120.0.1.10".to_string(),
            download_url: "http://x/10.zip".to_string(),
        })
    );
}

#[test]
fn takes_the_last_match_of_an_unsorted_manifest() {
    let manifest = KnownGoodVersions {
        versions: vec![
            entry("120.0.1.7", Some(vec![("linux64", "http://x/7.zip")])),
            entry("119.0.0.1", Some(vec![("linux64", "http://x/119.zip")])),
            entry("120.0.1.2", Some(vec![("linux64", "http://x/2.zip")])),
        ],
    };
    assert_eq!(
        resolve_driver("120.0.1.0", "linux64", &manifest),
        Ok(ResolvedDriver {
            driver_version: "120.0.1.2".to_string(),
            download_url: "http://x/2.zip".to_string(),
        })
    );
}

#[test]
fn the_prefix_is_matched_as_text() {
    let manifest = KnownGoodVersions {
        versions: vec![entry("120.0.10.3", Some(vec![("linux64", "http://x/a.zip")]))],
    };
    assert_eq!(select_version(&manifest, "120.0.1"), Some(0));
    assert_eq!(select_version(&manifest, "120.0.2"), None);
    assert_eq!(select_version(&manifest, ""), Some(0));
    assert_eq!(select_version(&KnownGoodVersions { versions: vec![] }, ""), None);
}

#[test]
fn no_entry_for_the_major_line() {
    let manifest = KnownGoodVersions {
        versions: vec![entry("120.0.1.1", Some(vec![("linux64", "http://x/a.zip")]))],
    };
    assert_eq!(
        resolve_driver("121.0.1.9", "linux64", &manifest),
        Err(WebDriverError::DriverVersionNotFound {
            browser_version: "121.0.1.9".to_string(),
            platform: "linux64".to_string(),
        })
    );
}

#[test]
fn entry_without_driver_downloads() {
    let manifest = KnownGoodVersions { versions: vec![entry("120.0.1.1", None)] };
    assert_eq!(
        resolve_driver("120.0.1.9", "linux64", &manifest),
        Err(WebDriverError::DriverUrlNotFound {
            driver_version: "120.0.1.1".to_string(),
            platform: "linux64".to_string(),
        })
    );
}

#[test]
fn entry_without_a_download_for_the_platform() {
    let manifest = KnownGoodVersions {
        versions: vec![
            entry("120.0.1.0", Some(vec![("linux64", "http://x/old.zip")])),
            entry("120.0.1.1", Some(vec![("win64", "http://x/a.zip")])),
        ],
    };
    assert_eq!(
        resolve_driver("120.0.1.9", "linux64", &manifest),
        Err(WebDriverError::DriverUrlNotFound {
            driver_version: "120.0.1.1".to_string(),
            platform: "linux64".to_string(),
        })
    );
}

#[test]
fn takes_the_first_download_for_the_platform() {
    let downloads = vec![
        Download { platform: "win64".to_string(), url: "http://x/w.zip".to_string() },
        Download { platform: "linux64".to_string(), url: "http://x/first.zip".to_string() },
        Download { platform: "linux64".to_string(), url: "http://x/second.zip".to_string() },
    ];
    assert_eq!(find_download(&downloads, "linux64"), Some(1));
    assert_eq!(find_download(&downloads, "win64"), Some(0));
    assert_eq!(find_download(&downloads, "mac-x64"), None);
    assert_eq!(find_download(&Vec::new(), "linux64"), None);
}

#[test]
fn version_without_a_dot_fails_resolution() {
    let manifest = KnownGoodVersions {
        versions: vec![entry("120.0.1.1", Some(vec![("linux64", "http://x/a.zip")]))],
    };
    assert_eq!(
        resolve_driver("120", "linux64", &manifest),
        Err(WebDriverError::BrowserVersionParsingError { output: "120".to_string() })
    );
}

#[test]
fn the_five_supported_platforms() {
    assert_eq!(platform_identifier("windows", "x86_64"), Ok("win64".to_string()));
    assert_eq!(platform_identifier("windows", "x86"), Ok("win32".to_string()));
    assert_eq!(platform_identifier("macos", "x86_64"), Ok("mac-x64".to_string()));
    assert_eq!(platform_identifier("macos", "aarch64"), Ok("mac-arm64".to_string()));
    assert_eq!(platform_identifier("linux", "x86_64"), Ok("linux64".to_string()));
}

#[test]
fn unsupported_platforms() {
    for (os, arch) in [
        ("linux", "aarch64"),
        ("linux", "x86"),
        ("windows", "aarch64"),
        ("macos", "x86"),
        ("freebsd", "x86_64"),
        ("", ""),
        ("Linux", "x86_64"),
    ] {
        assert_eq!(
            platform_identifier(os, arch),
            Err(WebDriverError::UnsupportedPlatform(format!("{}-{}", os, arch)))
        );
    }
}

#[test]
fn unsupported_platform_comes_before_everything_else() {
    let manifest = KnownGoodVersions { versions: vec![] };
    assert_eq!(
        get_chromedriver_download_url("no dot", "linux", "aarch64", &manifest),
        Err(WebDriverError::UnsupportedPlatform("linux-aarch64".to_string()))
    );
}

#[test]
fn host_systems() {
    assert_eq!(host_os("windows"), Some(HostOs::Windows));
    assert_eq!(host_os("macos"), Some(HostOs::MacOs));
    assert_eq!(host_os("linux"), Some(HostOs::Linux));
    assert_eq!(host_os("freebsd"), None);
    assert_eq!(host_os(""), None);
}

#[test]
fn driver_name_and_flag() {
    assert_eq!(ChromeDriver.get_driver_name(), "chromedriver");
    assert_eq!(ChromeDriver.version_flag(), "--version");
}
