//! Unpacking a downloaded driver archive and finding the driver in what was
//! unpacked.
//!
//! The archive is read from memory with the `zip` crate. Nothing is written
//! here: [`unzip_file`] returns the directories and files to create, each
//! under a path relative to the directory that the caller extracts into.

use crate::error::{text_or_error_model, ErrorModel, WebDriverError};
use crate::text::{chars_of, ends_with, text_eq, text_option_model};
use std::io::{Cursor, Read};
use vstd::prelude::*;
use zip::ZipArchive;

verus! {

/// `zip::ZipArchive`, the reader of a zip archive. Its fields are not
/// visible to the proofs; see [`archive_bytes`].
#[verifier::external_type_specification]
#[verifier::external_body]
#[verifier::reject_recursive_types(R)]
pub struct ExZipArchive<R>(ZipArchive<R>);

/// `std::io::Cursor`, which lets the archive reader seek in a buffer.
#[verifier::external_type_specification]
#[verifier::external_body]
#[verifier::reject_recursive_types(T)]
pub struct ExCursor<T>(Cursor<T>);

/// The bytes that an opened archive reads from.
pub uninterp spec fn archive_bytes(archive: ZipArchive<Cursor<Vec<u8>>>) -> Seq<u8>;

/// The message of the error with which `ZipArchive::new` refuses `bytes`,
/// or `None` where it accepts them.
pub uninterp spec fn zip_open_error(bytes: Seq<u8>) -> Option<Seq<char>>;

/// `ZipArchive::len` on an archive opened on `bytes`: the number of entries
/// that the archive holds, entries of one name counted once.
pub uninterp spec fn zip_entry_count(bytes: Seq<u8>) -> nat;

/// What opening and reading entry `index` of the archive `bytes` gives: the
/// message of the error of `ZipArchive::by_index`, else the message of the
/// error of reading the entry to its end, else the entry's content.
pub uninterp spec fn zip_entry_content(bytes: Seq<u8>, index: int) -> Result<
    Result<Seq<u8>, Seq<char>>,
    Seq<char>,
>;

/// `enclosed_name` of entry `index` of the archive `bytes`, its components
/// written with `/` between them: the entry's name as a relative path that
/// stays inside the directory it is joined to, or `None` where the name has
/// no such form.
pub uninterp spec fn zip_entry_enclosed_name(bytes: Seq<u8>, index: int) -> Option<Seq<char>>;

/// `name` of entry `index` of the archive `bytes`, or the message of the
/// error with which the name cannot be had.
pub uninterp spec fn zip_entry_name(bytes: Seq<u8>, index: int) -> Result<Seq<char>, Seq<char>>;

/// `unix_mode` of entry `index` of the archive `bytes`: the file mode
/// recorded for the entry, if any.
pub uninterp spec fn zip_entry_unix_mode(bytes: Seq<u8>, index: int) -> Option<u32>;

/// `ZipArchive::new` on a cursor over `bytes`. The contract claims that
/// whether the archive opens, and with which error message it does not,
/// depends on the bytes alone, and that the opened archive reads from them.
#[verifier::external_body]
fn open_archive(bytes: Vec<u8>) -> (r: Result<ZipArchive<Cursor<Vec<u8>>>, String>)
    ensures
        match r {
            Ok(archive) => zip_open_error(bytes@) is None && archive_bytes(archive) == bytes@,
            Err(message) => zip_open_error(bytes@) == Some(message@),
        },
{
    ZipArchive::new(Cursor::new(bytes)).map_err(|e| e.to_string())
}

/// `ZipArchive::len`. The contract claims that the number of entries
/// depends on the archive's bytes alone.
#[verifier::external_body]
fn archive_len(archive: &ZipArchive<Cursor<Vec<u8>>>) -> (n: usize)
    ensures
        n == zip_entry_count(archive_bytes(*archive)),
{
    archive.len()
}

/// `ZipArchive::by_index`, then `Read::read_to_end` on the entry. The
/// contract claims that the outcome depends on the archive's bytes and the
/// index alone, and that the archive still reads from the same bytes.
#[verifier::external_body]
fn read_entry(archive: &mut ZipArchive<Cursor<Vec<u8>>>, index: usize) -> (r: Result<
    Result<Vec<u8>, String>,
    String,
>)
    ensures
        archive_bytes(*final(archive)) == archive_bytes(*old(archive)),
        content_model(r) == zip_entry_content(archive_bytes(*old(archive)), index as int),
{
    let mut entry = match archive.by_index(index) {
        Ok(entry) => entry,
        Err(e) => return Err(e.to_string()),
    };
    let mut data = Vec::new();
    Ok(entry.read_to_end(&mut data).map(|_| data).map_err(|e| e.to_string()))
}

/// `ZipArchive::by_index_data`, then `enclosed_name` on the entry; the
/// components of the path that it gives are written as text with `/`
/// between them. The contract claims that the outcome depends on the
/// archive's bytes and the index alone. The path is built with the host's
/// rules for paths, so the claim is one of a single build target.
#[verifier::external_body]
fn entry_enclosed_name(archive: &ZipArchive<Cursor<Vec<u8>>>, index: usize) -> (r: Option<String>)
    ensures
        text_option_model(r) == zip_entry_enclosed_name(archive_bytes(*archive), index as int),
{
    let path = archive.by_index_data(index).ok()?.enclosed_name()?;
    let parts: Vec<String> =
        path.components().map(|part| part.as_os_str().to_string_lossy().into_owned()).collect();
    Some(parts.join("/"))
}

/// `ZipArchive::by_index_data`, then `name` on the entry. The contract
/// claims that the outcome depends on the archive's bytes and the index
/// alone.
#[verifier::external_body]
fn entry_name(archive: &ZipArchive<Cursor<Vec<u8>>>, index: usize) -> (r: Result<String, String>)
    ensures
        text_result_model(r) == zip_entry_name(archive_bytes(*archive), index as int),
{
    let entry = archive.by_index_data(index).map_err(|e| e.to_string())?;
    entry.name().map(|name| name.into_owned()).map_err(|e| e.to_string())
}

/// `ZipArchive::by_index_data`, then `unix_mode` on the entry. The contract
/// claims that the outcome depends on the archive's bytes and the index
/// alone.
#[verifier::external_body]
fn entry_unix_mode(archive: &ZipArchive<Cursor<Vec<u8>>>, index: usize) -> (r: Option<u32>)
    ensures
        r == zip_entry_unix_mode(archive_bytes(*archive), index as int),
{
    let entry = archive.by_index_data(index).ok()?;
    entry.unix_mode()
}

/// A text or an error message, each as a sequence of characters.
pub open spec fn text_result_model(text: Result<String, String>) -> Result<Seq<char>, Seq<char>> {
    match text {
        Ok(text) => Ok(text@),
        Err(message) => Err(message@),
    }
}

/// The outcome of reading an entry, over sequences.
pub open spec fn content_model(content: Result<Result<Vec<u8>, String>, String>) -> Result<
    Result<Seq<u8>, Seq<char>>,
    Seq<char>,
> {
    match content {
        Ok(Ok(data)) => Ok(Ok(data@)),
        Ok(Err(message)) => Ok(Err(message@)),
        Err(message) => Err(message@),
    }
}

/// One thing to create while extracting. `path` is relative to the
/// directory that is extracted into; `mode` holds the file mode bits that
/// the archive records, to be applied where the system has such bits.
#[derive(Debug, Clone, PartialEq, Eq)]
pub enum ExtractStep {
    /// Create the directory `path` and those above it.
    CreateDirectory { path: String, mode: Option<u32> },
    /// Create the directories above `path`, then the file with this content.
    WriteFile { path: String, data: Vec<u8>, mode: Option<u32> },
}

/// The mathematical value of an [`ExtractStep`].
pub enum StepModel {
    CreateDirectory { path: Seq<char>, mode: Option<u32> },
    WriteFile { path: Seq<char>, data: Seq<u8>, mode: Option<u32> },
}

impl View for ExtractStep {
    type V = StepModel;

    open spec fn view(&self) -> StepModel {
        match *self {
            ExtractStep::CreateDirectory { path, mode } => {
                StepModel::CreateDirectory { path: path@, mode }
            },
            ExtractStep::WriteFile { path, data, mode } => {
                StepModel::WriteFile { path: path@, data: data@, mode }
            },
        }
    }
}

impl StepModel {
    /// The path, relative to the extraction directory, that the step
    /// creates.
    pub open spec fn path(self) -> Seq<char> {
        match self {
            StepModel::CreateDirectory { path, .. } => path,
            StepModel::WriteFile { path, .. } => path,
        }
    }
}

/// The steps of a plan, each by its value.
pub open spec fn plan_model(steps: Seq<ExtractStep>) -> Seq<StepModel> {
    steps.map_values(|step: ExtractStep| step@)
}

/// What is done with one archive entry, given what the archive reader says
/// of it.
///
/// An entry that cannot be opened fails the extraction with a `ZipError`. An
/// entry without an enclosed name is passed over. An entry whose name ends
/// in `/` is a directory. Any other entry is a file, and fails the
/// extraction with an `IoError` where its content could not be read.
pub open spec fn entry_outcome(
    archive_path: Seq<char>,
    content: Result<Result<Seq<u8>, Seq<char>>, Seq<char>>,
    enclosed_name: Option<Seq<char>>,
    name: Result<Seq<char>, Seq<char>>,
    unix_mode: Option<u32>,
) -> Result<Option<StepModel>, ErrorModel> {
    match (content, enclosed_name, name) {
        (Err(source), _, _) => Err(ErrorModel::ZipError { path: archive_path, source }),
        (Ok(_), None, _) => Ok(None),
        (Ok(_), Some(_), Err(source)) => Err(ErrorModel::ZipError { path: archive_path, source }),
        (Ok(data), Some(path), Ok(name)) => {
            if ends_with(name, seq!['/']) {
                Ok(Some(StepModel::CreateDirectory { path, mode: unix_mode }))
            } else {
                match data {
                    Ok(data) => Ok(Some(StepModel::WriteFile { path, data, mode: unix_mode })),
                    Err(source) => Err(ErrorModel::IoError { path, source }),
                }
            }
        },
    }
}

/// The value of the result of [`plan_entry`].
pub open spec fn entry_result_model(r: Result<Option<ExtractStep>, WebDriverError>) -> Result<
    Option<StepModel>,
    ErrorModel,
> {
    match r {
        Ok(Some(step)) => Ok(Some(step@)),
        Ok(None) => Ok(None),
        Err(e) => Err(e@),
    }
}

/// Decides what is done with one archive entry: see [`entry_outcome`].
pub fn plan_entry(
    archive_path: &str,
    content: Result<Result<Vec<u8>, String>, String>,
    enclosed_name: Option<String>,
    name: Result<String, String>,
    unix_mode: Option<u32>,
) -> (r: Result<Option<ExtractStep>, WebDriverError>)
    ensures
        entry_result_model(r) == entry_outcome(
            archive_path@,
            content_model(content),
            text_option_model(enclosed_name),
            text_result_model(name),
            unix_mode,
        ),
{
    let data = match content {
        Ok(data) => data,
        Err(source) => {
            return Err(WebDriverError::ZipError { path: archive_path.to_string(), source });
        },
    };
    let path = match enclosed_name {
        Some(path) => path,
        None => {
            return Ok(None);
        },
    };
    let name = match name {
        Ok(name) => name,
        Err(source) => {
            return Err(WebDriverError::ZipError { path: archive_path.to_string(), source });
        },
    };
    let name_chars = chars_of(name.as_str());
    let is_directory = name_chars.len() > 0 && name_chars[name_chars.len() - 1] == '/';
    proof {
        if name@.len() > 0 {
            assert(name@.subrange(name@.len() - 1, name@.len() as int) =~= seq![
                name@[name@.len() - 1],
            ]);
            assert(seq![name@[name@.len() - 1]][0] == name@[name@.len() - 1]);
        }
    }
    assert(is_directory == ends_with(name@, seq!['/']));
    if is_directory {
        Ok(Some(ExtractStep::CreateDirectory { path, mode: unix_mode }))
    } else {
        match data {
            Ok(data) => Ok(Some(ExtractStep::WriteFile { path, data, mode: unix_mode })),
            Err(source) => Err(WebDriverError::IoError { path, source }),
        }
    }
}

/// What is done with entry `index` of the archive `bytes`.
pub open spec fn archive_entry_outcome(
    archive_path: Seq<char>,
    bytes: Seq<u8>,
    index: int,
) -> Result<Option<StepModel>, ErrorModel> {
    entry_outcome(
        archive_path,
        zip_entry_content(bytes, index),
        zip_entry_enclosed_name(bytes, index),
        zip_entry_name(bytes, index),
        zip_entry_unix_mode(bytes, index),
    )
}

/// The steps for the first `count` entries of the archive `bytes`, in the
/// order of the entries, or the failure of the first entry that fails.
pub open spec fn planned_steps(archive_path: Seq<char>, bytes: Seq<u8>, count: nat) -> Result<
    Seq<StepModel>,
    ErrorModel,
>
    decreases count,
{
    if count == 0 {
        Ok(Seq::empty())
    } else {
        match planned_steps(archive_path, bytes, (count - 1) as nat) {
            Err(e) => Err(e),
            Ok(steps) => match archive_entry_outcome(archive_path, bytes, count - 1) {
                Err(e) => Err(e),
                Ok(None) => Ok(steps),
                Ok(Some(step)) => Ok(steps.push(step)),
            },
        }
    }
}

/// The extraction of the archive `bytes`: a `ZipError` where the archive
/// does not open, else the steps for all its entries.
pub open spec fn extraction(archive_path: Seq<char>, bytes: Seq<u8>) -> Result<
    Seq<StepModel>,
    ErrorModel,
> {
    match zip_open_error(bytes) {
        Some(source) => Err(ErrorModel::ZipError { path: archive_path, source }),
        None => planned_steps(archive_path, bytes, zip_entry_count(bytes)),
    }
}

/// The value of the result of [`unzip_file`].
pub open spec fn plan_result_model(r: Result<Vec<ExtractStep>, WebDriverError>) -> Result<
    Seq<StepModel>,
    ErrorModel,
> {
    match r {
        Ok(steps) => Ok(plan_model(steps@)),
        Err(e) => Err(e@),
    }
}

/// Decompresses a zip archive held in memory into the steps that extract
/// it: see [`extraction`]. `archive_path` names the archive in errors; an
/// `IoError` names an entry by its path relative to the directory that is
/// extracted into.
pub fn unzip_file(archive_path: &str, archive: Vec<u8>) -> (r: Result<
    Vec<ExtractStep>,
    WebDriverError,
>)
    ensures
        plan_result_model(r) == extraction(archive_path@, archive@),
{
    let ghost bytes = archive@;
    let mut reader = match open_archive(archive) {
        Ok(reader) => reader,
        Err(source) => {
            return Err(WebDriverError::ZipError { path: archive_path.to_string(), source });
        },
    };
    let count = archive_len(&reader);
    let mut steps: Vec<ExtractStep> = Vec::new();
    assert(plan_model(steps@) =~= Seq::<StepModel>::empty());
    let mut index: usize = 0;
    while index < count
        invariant
            index <= count,
            bytes == archive@,
            count == zip_entry_count(bytes),
            archive_bytes(reader) == bytes,
            zip_open_error(bytes) is None,
            planned_steps(archive_path@, bytes, index as nat) == Ok::<Seq<StepModel>, ErrorModel>(
                plan_model(steps@),
            ),
        decreases count - index,
    {
        let content = read_entry(&mut reader, index);
        let enclosed_name = entry_enclosed_name(&reader, index);
        let name = entry_name(&reader, index);
        let unix_mode = entry_unix_mode(&reader, index);
        let ghost before = steps@;
        match plan_entry(archive_path, content, enclosed_name, name, unix_mode) {
            Err(e) => {
                proof {
                    lemma_failure_stays(archive_path@, bytes, (index + 1) as nat, count as nat);
                }
                return Err(e);
            },
            Ok(None) => {},
            Ok(Some(step)) => {
                steps.push(step);
                assert(plan_model(steps@) =~= plan_model(before).push(step@));
            },
        }
        index += 1;
    }
    Ok(steps)
}

/// Once the plan for the first `count` entries is a failure, the plan for
/// any greater number of entries is the same failure.
pub proof fn lemma_failure_stays(archive_path: Seq<char>, bytes: Seq<u8>, count: nat, more: nat)
    requires
        count <= more,
        planned_steps(archive_path, bytes, count) is Err,
    ensures
        planned_steps(archive_path, bytes, more) == planned_steps(archive_path, bytes, count),
    decreases more,
{
    if count < more {
        lemma_failure_stays(archive_path, bytes, count, (more - 1) as nat);
    }
}

/// An entry without an enclosed name is passed over: whatever else the
/// archive says of it, no step is made for it.
pub proof fn lemma_unenclosed_entry_makes_no_step(
    archive_path: Seq<char>,
    content: Result<Result<Seq<u8>, Seq<char>>, Seq<char>>,
    name: Result<Seq<char>, Seq<char>>,
    unix_mode: Option<u32>,
)
    ensures
        !(entry_outcome(archive_path, content, None, name, unix_mode) matches Ok(Some(_))),
        content is Ok ==> entry_outcome(archive_path, content, None, name, unix_mode) == Ok::<
            Option<StepModel>,
            ErrorModel,
        >(None),
{
}

/// Each step of a plan is made for an entry that has an enclosed name, and
/// the step's path is that name. Nothing is said here of what an enclosed
/// name is: that is the archive reader's.
pub proof fn lemma_steps_are_enclosed(archive_path: Seq<char>, bytes: Seq<u8>, count: nat)
    ensures
        planned_steps(archive_path, bytes, count) matches Ok(steps) ==> forall|k: int|
            0 <= k < steps.len() ==> exists|index: int|
                0 <= index < count && zip_entry_enclosed_name(bytes, index) == Some(
                    #[trigger] steps[k].path(),
                ),
    decreases count,
{
    if count > 0 {
        lemma_steps_are_enclosed(archive_path, bytes, (count - 1) as nat);
        if let Ok(steps) = planned_steps(archive_path, bytes, count) {
            let earlier = planned_steps(archive_path, bytes, (count - 1) as nat)->Ok_0;
            assert forall|k: int| 0 <= k < steps.len() implies exists|index: int|
                0 <= index < count && zip_entry_enclosed_name(bytes, index) == Some(
                    #[trigger] steps[k].path(),
                ) by {
                if k < earlier.len() {
                    assert(steps[k] == earlier[k]);
                    let index = choose|index: int|
                        0 <= index < count - 1 && zip_entry_enclosed_name(bytes, index) == Some(
                            earlier[k].path(),
                        );
                    assert(0 <= index < count && zip_entry_enclosed_name(bytes, index) == Some(
                        steps[k].path(),
                    ));
                } else {
                    assert(zip_entry_enclosed_name(bytes, count - 1) == Some(steps[k].path()));
                }
            }
        }
    }
}

/// The name of a driver's executable file: on Windows the driver's name
/// with `.exe` behind it, elsewhere the driver's name.
pub open spec fn executable_name(driver_name: Seq<char>, windows: bool) -> Seq<char> {
    if windows {
        driver_name + ".exe"@
    } else {
        driver_name
    }
}

/// The name of a driver's executable file: see [`executable_name`].
pub fn driver_executable_name(driver_name: &str, windows: bool) -> (r: String)
    ensures
        r@ == executable_name(driver_name@, windows),
{
    if windows {
        driver_name.to_string().concat(".exe")
    } else {
        driver_name.to_string()
    }
}

/// What walking the tree under a directory gave at one place.
#[derive(Debug, Clone, PartialEq, Eq)]
#[allow(inconsistent_fields)]
pub enum WalkEntry {
    /// What lies at `path`. `file_name` is the last component of the path,
    /// where it has one that is text; `is_file` says whether a file lies
    /// there, and not a directory.
    Visited { path: String, file_name: Option<String>, is_file: bool },
    /// The walk failed, at `path` where that is known; `source` is the
    /// system's message.
    Failed { path: Option<String>, source: String },
}

/// Whether the search ends at `entry`: it is a file with the wanted name,
/// or the walk failed there. A directory with the wanted name is walked
/// past.
pub open spec fn ends_search(entry: WalkEntry, wanted: Seq<char>) -> bool {
    match entry {
        WalkEntry::Failed { .. } => true,
        WalkEntry::Visited { file_name: Some(name), is_file, .. } => is_file && name@ == wanted,
        WalkEntry::Visited { file_name: None, .. } => false,
    }
}

/// Whether `index` is the first entry at which the search ends.
pub open spec fn is_search_end(entries: Seq<WalkEntry>, wanted: Seq<char>, index: int) -> bool {
    &&& 0 <= index < entries.len()
    &&& ends_search(entries[index], wanted)
    &&& forall|earlier: int|
        0 <= earlier < index ==> !ends_search(#[trigger] entries[earlier], wanted)
}

/// The text of the error for a walk of `search_path` that did not meet the
/// wanted file.
pub open spec fn not_found_message(search_path: Seq<char>, wanted: Seq<char>) -> Seq<char> {
    "Could not find '"@ + wanted + "' in the files extracted to '"@ + search_path + "'."@
}

/// What the search ends with at `entry`: the path of a visited file, or an
/// `IoError` for a failure of the walk, at the failure's path or, where it
/// has none, at `search_path`.
pub open spec fn search_end(search_path: Seq<char>, entry: WalkEntry) -> Result<
    Seq<char>,
    ErrorModel,
> {
    match entry {
        WalkEntry::Visited { path, .. } => Ok(path@),
        WalkEntry::Failed { path: Some(path), source } => Err(
            ErrorModel::IoError { path: path@, source: source@ },
        ),
        WalkEntry::Failed { path: None, source } => Err(
            ErrorModel::IoError { path: search_path, source: source@ },
        ),
    }
}

/// The outcome of searching the walked entries, in their order, for the
/// file named `wanted`: the path of the first file with that name, unless
/// the walk failed before it; a `VerificationError` where the walk ends
/// without either.
pub open spec fn search_outcome(
    search_path: Seq<char>,
    wanted: Seq<char>,
    entries: Seq<WalkEntry>,
) -> Result<Seq<char>, ErrorModel> {
    if exists|index: int| is_search_end(entries, wanted, index) {
        search_end(search_path, entries[choose|index: int| is_search_end(entries, wanted, index)])
    } else {
        Err(ErrorModel::VerificationError(not_found_message(search_path, wanted)))
    }
}

/// Searches the entries of a walk of `search_path` for the driver's
/// executable: see [`search_outcome`] and [`executable_name`].
pub fn find_driver_executable(
    search_path: &str,
    driver_name: &str,
    windows: bool,
    entries: &Vec<WalkEntry>,
) -> (r: Result<String, WebDriverError>)
    ensures
        text_or_error_model(r) == search_outcome(
            search_path@,
            executable_name(driver_name@, windows),
            entries@,
        ),
{
    let wanted = driver_executable_name(driver_name, windows);
    let mut at: usize = 0;
    while at < entries.len()
        invariant
            at <= entries.len(),
            wanted@ == executable_name(driver_name@, windows),
            forall|earlier: int|
                0 <= earlier < at ==> !ends_search(#[trigger] entries@[earlier], wanted@),
        decreases entries.len() - at,
    {
        let found: Option<Result<String, WebDriverError>> = match &entries[at] {
            WalkEntry::Failed { path: Some(path), source } => Some(
                Err(WebDriverError::IoError { path: path.clone(), source: source.clone() }),
            ),
            WalkEntry::Failed { path: None, source } => Some(
                Err(
                    WebDriverError::IoError {
                        path: search_path.to_string(),
                        source: source.clone(),
                    },
                ),
            ),
            WalkEntry::Visited { path, file_name: Some(name), is_file } => {
                if *is_file && text_eq(name.as_str(), wanted.as_str()) {
                    Some(Ok(path.clone()))
                } else {
                    None
                }
            },
            WalkEntry::Visited { path: _, file_name: None, is_file: _ } => None,
        };
        if let Some(outcome) = found {
            proof {
                assert(is_search_end(entries@, wanted@, at as int));
                let chosen = choose|index: int| is_search_end(entries@, wanted@, index);
                assert(chosen == at);
            }
            return outcome;
        }
        at += 1;
    }
    assert forall|index: int| !is_search_end(entries@, wanted@, index) by {
        if 0 <= index < entries.len() {
            assert(!ends_search(entries@[index], wanted@));
        }
    }
    Err(
        WebDriverError::VerificationError(
            "Could not find '".to_string().concat(wanted.as_str()).concat(
                "' in the files extracted to '",
            ).concat(search_path).concat("'."),
        ),
    )
}

/// The text of one decimal digit.
pub open spec fn digit_text(digit: int) -> Seq<char> {
    if digit == 0 {
        "0"@
    } else if digit == 1 {
        "1"@
    } else if digit == 2 {
        "2"@
    } else if digit == 3 {
        "3"@
    } else if digit == 4 {
        "4"@
    } else if digit == 5 {
        "5"@
    } else if digit == 6 {
        "6"@
    } else if digit == 7 {
        "7"@
    } else if digit == 8 {
        "8"@
    } else {
        "9"@
    }
}

/// A number in decimal digits, without leading zeros.
pub open spec fn decimal(n: nat) -> Seq<char>
    decreases n,
{
    if n < 10 {
        digit_text(n as int)
    } else {
        decimal(n / 10) + digit_text((n % 10) as int)
    }
}

/// The text of one decimal digit: see [`digit_text`].
fn digit_str(d: u16) -> (r: &'static str)
    requires
        d < 10,
    ensures
        r@ == digit_text(d as int),
{
    if d == 0 {
        "0"
    } else if d == 1 {
        "1"
    } else if d == 2 {
        "2"
    } else if d == 3 {
        "3"
    } else if d == 4 {
        "4"
    } else if d == 5 {
        "5"
    } else if d == 6 {
        "6"
    } else if d == 7 {
        "7"
    } else if d == 8 {
        "8"
    } else {
        "9"
    }
}

/// Writes a number in decimal digits: see [`decimal`].
pub fn decimal_text(n: u16) -> (r: String)
    ensures
        r@ == decimal(n as nat),
    decreases n,
{
    if n < 10 {
        digit_str(n).to_string()
    } else {
        decimal_text(n / 10).concat(digit_str(n % 10))
    }
}

/// Whether an HTTP status reports success: it is one of 200 to 299.
pub open spec fn is_success_status(status: u16) -> bool {
    200 <= status <= 299
}

/// The text of the error for a download that was answered with a failure
/// status.
pub open spec fn status_message(url: Seq<char>, status: u16) -> Seq<char> {
    "HTTP status "@ + decimal(status as nat) + " for url ("@ + url + ")"@
}

/// Judges the status with which a download was answered: any status
/// outside 200 to 299 fails with a `NetworkError` that names the status
/// and the URL.
pub fn check_download_status(url: &str, status: u16) -> (r: Result<(), WebDriverError>)
    ensures
        match r {
            Ok(()) => is_success_status(status),
            Err(e) => !is_success_status(status) && e@ == ErrorModel::NetworkError(
                status_message(url@, status),
            ),
        },
{
    if 200 <= status && status <= 299 {
        Ok(())
    } else {
        Err(
            WebDriverError::NetworkError(
                "HTTP status ".to_string().concat(decimal_text(status).as_str()).concat(
                    " for url (",
                ).concat(url).concat(")"),
            ),
        )
    }
}

} // verus!
