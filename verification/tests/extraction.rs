use std::io::{Cursor, Write};
use webdriver_manager::downloader::{
    check_download_status, decimal_text, driver_executable_name, find_driver_executable,
    plan_entry, unzip_file, ExtractStep, WalkEntry,
};
use webdriver_manager::WebDriverError;
use zip::write::SimpleFileOptions;
use zip::{CompressionMethod, ZipWriter};

fn options(mode: u32) -> SimpleFileOptions {
    SimpleFileOptions::default()
        .compression_method(CompressionMethod::Stored)
        .unix_permissions(mode)
}

fn archive(entries: &[(&str, Option<&[u8]>, u32)]) -> Vec<u8> {
    let mut writer = ZipWriter::new(Cursor::new(Vec::new()));
    for (name, content, mode) in entries {
        match content {
            Some(content) => {
                writer.start_file(*name, options(*mode)).unwrap();
                writer.write_all(content).unwrap();
            }
            None => writer.add_directory(*name, options(*mode)).unwrap(),
        }
    }
    writer.finish().unwrap().into_inner()
}

fn file(path: &str, data: &[u8], mode: u32) -> ExtractStep {
    ExtractStep::WriteFile { path: path.to_string(), data: data.to_vec(), mode: Some(mode) }
}

fn directory(path: &str, mode: u32) -> ExtractStep {
    ExtractStep::CreateDirectory { path: path.to_string(), mode: Some(mode) }
}

fn visited(path: &str, file_name: &str) -> WalkEntry {
    WalkEntry::Visited {
        path: path.to_string(),
        file_name: Some(file_name.to_string()),
        is_file: true,
    }
}

fn visited_directory(path: &str, file_name: &str) -> WalkEntry {
    WalkEntry::Visited {
        path: path.to_string(),
        file_name: Some(file_name.to_string()),
        is_file: false,
    }
}

#[test]
fn extracts_files_and_directories_in_order() {
    let bytes = archive(&[
        ("chromedriver-linux64/", None, 0o755),
        ("chromedriver-linux64/chromedriver", Some(b"\x7fELF driver"), 0o755),
        ("chromedriver-linux64/LICENSE.chromedriver", Some(b"license"), 0o644),
    ]);
    assert_eq!(
        unzip_file("/tmp/x/driver.zip", bytes),
        Ok(vec![
            directory("chromedriver-linux64", 0o40755),
            file("chromedriver-linux64/chromedriver", b"\x7fELF driver", 0o100755),
            file("chromedriver-linux64/LICENSE.chromedriver", b"license", 0o100644),
        ])
    );
}

#[test]
fn an_empty_archive_has_no_steps() {
    assert_eq!(unzip_file("a.zip", archive(&[])), Ok(vec![]));
}

#[test]
fn entries_that_leave_the_directory_are_passed_over() {
    let bytes = archive(&[
        ("../evil.txt", Some(b"evil"), 0o644),
        ("good.txt", Some(b"good"), 0o644),
        ("a/../../evil2.txt", Some(b"evil"), 0o644),
        ("a/../b.txt", Some(b"b"), 0o600),
    ]);
    let steps = unzip_file("a.zip", bytes).unwrap();
    assert_eq!(steps, vec![file("good.txt", b"good", 0o100644), file("b.txt", b"b", 0o100600)]);
    for step in &steps {
        let path = match step {
            ExtractStep::CreateDirectory { path, .. } => path,
            ExtractStep::WriteFile { path, .. } => path,
        };
        let joined = std::path::Path::new("/target").join(path);
        assert!(joined.starts_with("/target"));
        assert!(!path.split('/').any(|part| part == ".."));
    }
}

#[test]
fn what_is_no_archive_fails_with_a_zip_error() {
    match unzip_file("/tmp/x/driver.zip", b"this is no zip archive".to_vec()) {
        Err(WebDriverError::ZipError { path, source }) => {
            assert_eq!(path, "/tmp/x/driver.zip");
            assert!(!source.is_empty());
        }
        other => panic!("unexpected: {:?}", other),
    }
    assert!(matches!(unzip_file("a.zip", vec![]), Err(WebDriverError::ZipError { .. })));
}

#[test]
fn a_damaged_entry_fails_the_extraction() {
    let mut bytes = archive(&[("a.txt", Some(b"0123456789"), 0o644)]);
    let at = bytes.windows(10).position(|w| w == b"0123456789").unwrap();
    bytes[at] = b'X';
    match unzip_file("a.zip", bytes) {
        Err(WebDriverError::IoError { path, source }) => {
            assert_eq!(path, "a.txt");
            assert!(!source.is_empty());
        }
        other => panic!("unexpected: {:?}", other),
    }
}

#[test]
fn plan_of_a_file_entry() {
    assert_eq!(
        plan_entry(
            "a.zip",
            Ok(Ok(vec![1, 2, 3])),
            Some("d/f".to_string()),
            Ok("d/f".to_string()),
            Some(0o100755),
        ),
        Ok(Some(ExtractStep::WriteFile {
            path: "d/f".to_string(),
            data: vec![1, 2, 3],
            mode: Some(0o100755),
        }))
    );
    assert_eq!(
        plan_entry("a.zip", Ok(Ok(vec![])), Some("f".to_string()), Ok("./f".to_string()), None),
        Ok(Some(ExtractStep::WriteFile { path: "f".to_string(), data: vec![], mode: None }))
    );
}

#[test]
fn plan_of_a_directory_entry() {
    assert_eq!(
        plan_entry("a.zip", Ok(Ok(vec![])), Some("d".to_string()), Ok("d/".to_string()), None),
        Ok(Some(ExtractStep::CreateDirectory { path: "d".to_string(), mode: None }))
    );
    assert_eq!(
        plan_entry(
            "a.zip",
            Ok(Err("unreadable".to_string())),
            Some("d".to_string()),
            Ok("d/".to_string()),
            Some(0o40755),
        ),
        Ok(Some(ExtractStep::CreateDirectory { path: "d".to_string(), mode: Some(0o40755) }))
    );
}

#[test]
fn plan_passes_over_an_entry_without_enclosed_name() {
    assert_eq!(
        plan_entry("a.zip", Ok(Ok(vec![1])), None, Ok("../f".to_string()), Some(0o644)),
        Ok(None)
    );
    assert_eq!(
        plan_entry("a.zip", Ok(Err("bad".to_string())), None, Err("no name".to_string()), None),
        Ok(None)
    );
}

#[test]
fn plan_failures() {
    assert_eq!(
        plan_entry("a.zip", Err("bad entry".to_string()), None, Ok("f".to_string()), None),
        Err(WebDriverError::ZipError { path: "a.zip".to_string(), source: "bad entry".to_string() })
    );
    assert_eq!(
        plan_entry(
            "a.zip",
            Ok(Ok(vec![])),
            Some("f".to_string()),
            Err("bad name".to_string()),
            None
        ),
        Err(WebDriverError::ZipError { path: "a.zip".to_string(), source: "bad name".to_string() })
    );
    assert_eq!(
        plan_entry(
            "a.zip",
            Ok(Err("crc".to_string())),
            Some("f".to_string()),
            Ok("f".to_string()),
            None
        ),
        Err(WebDriverError::IoError { path: "f".to_string(), source: "crc".to_string() })
    );
}

#[test]
fn executable_names() {
    assert_eq!(driver_executable_name("chromedriver", false), "chromedriver");
    assert_eq!(driver_executable_name("chromedriver", true), "chromedriver.exe");
    assert_eq!(driver_executable_name("", true), ".exe");
}

#[test]
fn finds_the_first_file_with_the_name() {
    let entries = vec![
        visited_directory("/i", "i"),
        visited_directory("/i/chromedriver-linux64", "chromedriver-linux64"),
        visited("/i/chromedriver-linux64/LICENSE.chromedriver", "LICENSE.chromedriver"),
        visited("/i/chromedriver-linux64/chromedriver", "chromedriver"),
        visited("/i/old/chromedriver", "chromedriver"),
    ];
    assert_eq!(
        find_driver_executable("/i", "chromedriver", false, &entries),
        Ok("/i/chromedriver-linux64/chromedriver".to_string())
    );
    assert_eq!(
        find_driver_executable("/i", "chromedriver", true, &entries),
        Err(WebDriverError::VerificationError(
            "Could not find 'chromedriver.exe' in the files extracted to '/i'.".to_string()
        ))
    );
}

#[test]
fn a_directory_named_like_the_driver_is_walked_past() {
    let entries = vec![
        visited_directory("/t", "t"),
        visited_directory("/t/chromedriver", "chromedriver"),
        visited("/t/chromedriver/chromedriver", "chromedriver"),
    ];
    assert_eq!(
        find_driver_executable("/t", "chromedriver", false, &entries),
        Ok("/t/chromedriver/chromedriver".to_string())
    );
    let entries = vec![visited_directory("/t/chromedriver", "chromedriver")];
    assert_eq!(
        find_driver_executable("/t", "chromedriver", false, &entries),
        Err(WebDriverError::VerificationError(
            "Could not find 'chromedriver' in the files extracted to '/t'.".to_string()
        ))
    );
}

#[test]
fn nothing_found_in_an_empty_walk() {
    assert_eq!(
        find_driver_executable("/i", "chromedriver", false, &vec![]),
        Err(WebDriverError::VerificationError(
            "Could not find 'chromedriver' in the files extracted to '/i'.".to_string()
        ))
    );
    let nameless = vec![WalkEntry::Visited { path: "/".to_string(), file_name: None, is_file: true }];
    assert!(find_driver_executable("/", "chromedriver", false, &nameless).is_err());
}

#[test]
fn a_failure_of_the_walk_ends_the_search() {
    let failed = WalkEntry::Failed { path: Some("/i/locked".to_string()), source: "denied".to_string() };
    let entries =
        vec![visited_directory("/i", "i"), failed.clone(), visited("/i/chromedriver", "chromedriver")];
    assert_eq!(
        find_driver_executable("/i", "chromedriver", false, &entries),
        Err(WebDriverError::IoError { path: "/i/locked".to_string(), source: "denied".to_string() })
    );
    let entries = vec![visited("/i/chromedriver", "chromedriver"), failed];
    assert_eq!(
        find_driver_executable("/i", "chromedriver", false, &entries),
        Ok("/i/chromedriver".to_string())
    );
    let entries = vec![WalkEntry::Failed { path: None, source: "loop".to_string() }];
    assert_eq!(
        find_driver_executable("/i", "chromedriver", false, &entries),
        Err(WebDriverError::IoError { path: "/i".to_string(), source: "loop".to_string() })
    );
}

#[test]
fn decimal_digits() {
    assert_eq!(decimal_text(0), "0");
    assert_eq!(decimal_text(7), "7");
    assert_eq!(decimal_text(10), "10");
    assert_eq!(decimal_text(404), "404");
    assert_eq!(decimal_text(65535), "65535");
    for n in [1u16, 9, 99, 100, 1000, 12345, 9090] {
        assert_eq!(decimal_text(n), n.to_string());
    }
}

#[test]
fn only_statuses_from_200_to_299_pass() {
    assert_eq!(check_download_status("http://x/a.zip", 200), Ok(()));
    assert_eq!(check_download_status("http://x/a.zip", 204), Ok(()));
    assert_eq!(check_download_status("http://x/a.zip", 299), Ok(()));
    for status in [0u16, 100, 199, 300, 304, 404, 500, 65535] {
        assert_eq!(
            check_download_status("http://x/a.zip", status),
            Err(WebDriverError::NetworkError(format!(
                "HTTP status {} for url (http://x/a.zip)",
                status
            )))
        );
    }
    assert_eq!(
        check_download_status("http://x/a.zip", 404),
        Err(WebDriverError::NetworkError("HTTP status 404 for url (http://x/a.zip)".to_string()))
    );
}
