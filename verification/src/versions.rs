//! The version directory: which of its children are usable API versions.
//!
//! The caller lists the directory and hands over what it read, one
//! [`RawEntry`] per child. The library judges each child on its own, keeps
//! the directories whose names are version names, and fails where none is
//! left.

use crate::pattern::{is_version_name, pattern_match, VERSION_PATTERN};
use crate::severity::Severity;
use std::path::PathBuf;
use vstd::prelude::*;
use vstd::string::StringExecFns;

verus! {

/// `std::path::PathBuf`, carried through as it is: nothing is said of what a
/// path holds.
#[verifier::external_type_specification]
#[verifier::external_body]
pub struct ExPathBuf(PathBuf);

/// The directory whose children are scanned.
pub const VERSION_DIR: &'static str = "./core/version/";

/// One child of the version directory whose metadata could be read.
#[derive(Debug, PartialEq, Eq)]
pub struct File {
    name: String,
    path: PathBuf,
    is_dir: bool,
}

/// What a [`File`] stands for.
pub struct FileView {
    /// The base name, as text.
    pub name: Seq<char>,
    /// The full path.
    pub path: PathBuf,
    /// Whether the metadata showed a directory.
    pub is_dir: bool,
}

impl View for File {
    type V = FileView;

    closed spec fn view(&self) -> FileView {
        FileView { name: self.name@, path: self.path, is_dir: self.is_dir }
    }
}

impl File {
    /// A child with the given base name and full path; `is_dir` says whether
    /// its metadata showed a directory.
    pub fn new(name: String, path: PathBuf, is_dir: bool) -> (file: File)
        ensures
            file@ == (FileView { name: name@, path, is_dir }),
    {
        File { name, path, is_dir }
    }

    /// The base name.
    pub fn name(&self) -> (name: &str)
        ensures
            name@ == self@.name,
    {
        self.name.as_str()
    }

    /// The full path.
    pub fn path(&self) -> (path: &PathBuf)
        ensures
            *path == self@.path,
    {
        &self.path
    }

    /// Whether the child is a directory.
    pub fn is_dir(&self) -> (is_dir: bool)
        ensures
            is_dir == self@.is_dir,
    {
        self.is_dir
    }
}

/// What the listing gave for one child of the version directory.
#[derive(Debug, PartialEq, Eq)]
pub enum RawEntry {
    /// The child, or its metadata, could not be read; `detail` says why.
    Unreadable { detail: String },
    /// The child and its metadata were read.
    Found(File),
}

/// The judgement on one child.
#[derive(Clone, Copy, Debug, PartialEq, Eq, Structural)]
pub enum EntryVerdict {
    /// A directory with a version name: it is part of the result.
    Accepted,
    /// Skipped: the child could not be read.
    Unreadable,
    /// Skipped: the child is not a directory.
    NotDirectory,
    /// Skipped: a directory whose name is no version name.
    InvalidName,
    /// The regex engine refused the version pattern, so the name could not be
    /// judged. This fails the scan.
    PatternRejected,
}

impl EntryVerdict {
    /// The level of the verdict's diagnostic: a warning for every child that
    /// is skipped, an error where the scan cannot go on.
    pub open spec fn level(self) -> Severity {
        match self {
            EntryVerdict::Accepted => Severity::Trace,
            EntryVerdict::PatternRejected => Severity::Error,
            _ => Severity::Warn,
        }
    }

    /// The level at which the verdict is reported.
    pub fn severity(&self) -> (level: Severity)
        ensures
            level == self.level(),
    {
        match self {
            EntryVerdict::Accepted => Severity::Trace,
            EntryVerdict::PatternRejected => Severity::Error,
            _ => Severity::Warn,
        }
    }
}

/// The verdict on a directory, given what matching its name came to.
pub open spec fn verdict_of_match(found: Option<bool>) -> EntryVerdict {
    match found {
        Some(true) => EntryVerdict::Accepted,
        Some(false) => EntryVerdict::InvalidName,
        None => EntryVerdict::PatternRejected,
    }
}

/// The verdict on one child. The name is matched only for a directory.
pub open spec fn verdict_for(entry: RawEntry) -> EntryVerdict {
    match entry {
        RawEntry::Unreadable { .. } => EntryVerdict::Unreadable,
        RawEntry::Found(file) => if !file@.is_dir {
            EntryVerdict::NotDirectory
        } else {
            verdict_of_match(pattern_match(VERSION_PATTERN@, file@.name))
        },
    }
}

/// The verdicts on a whole listing, one per child, in order.
pub open spec fn verdicts_for(entries: Seq<RawEntry>) -> Seq<EntryVerdict> {
    Seq::new(entries.len(), |i: int| verdict_for(entries[i]))
}

/// The accepted children of a listing, in the order of the listing.
pub open spec fn accepted(entries: Seq<RawEntry>) -> Seq<File>
    decreases entries.len(),
{
    if entries.len() == 0 {
        Seq::empty()
    } else {
        let rest = accepted(entries.drop_last());
        match entries.last() {
            RawEntry::Found(file) => if verdict_for(entries.last()) == EntryVerdict::Accepted {
                rest.push(file)
            } else {
                rest
            },
            RawEntry::Unreadable { .. } => rest,
        }
    }
}

/// Whether the version pattern was refused for some child of the listing.
pub open spec fn pattern_rejected(entries: Seq<RawEntry>) -> bool {
    exists|i: int| 0 <= i < entries.len() && verdict_for(#[trigger] entries[i]) == EntryVerdict::PatternRejected
}

/// Why a scan failed.
#[derive(Debug, PartialEq, Eq)]
pub enum ScanError {
    /// The version directory could not be listed.
    DirectoryUnreadable { path: String, cause: String },
    /// The listing held no directory with a version name.
    NoValidVersions { path: String },
    /// The regex engine refused the version pattern.
    PatternRejected { pattern: String },
}

/// What a [`ScanError`] stands for.
pub enum ScanFailure {
    DirectoryUnreadable { path: Seq<char>, cause: Seq<char> },
    NoValidVersions { path: Seq<char> },
    PatternRejected { pattern: Seq<char> },
}

impl View for ScanError {
    type V = ScanFailure;

    open spec fn view(&self) -> ScanFailure {
        match *self {
            ScanError::DirectoryUnreadable { path, cause } => ScanFailure::DirectoryUnreadable {
                path: path@,
                cause: cause@,
            },
            ScanError::NoValidVersions { path } => ScanFailure::NoValidVersions { path: path@ },
            ScanError::PatternRejected { pattern } => ScanFailure::PatternRejected {
                pattern: pattern@,
            },
        }
    }
}

impl ScanFailure {
    /// The text that the failure is reported with.
    pub open spec fn text(self) -> Seq<char> {
        match self {
            ScanFailure::DirectoryUnreadable { path, cause } => " The directory "@ + path
                + " is not accessible. "@ + cause,
            ScanFailure::NoValidVersions { path } => " The directory '"@ + path
                + "' is empty or doesn't have any valid path."@,
            ScanFailure::PatternRejected { pattern } => " The version pattern "@ + pattern
                + " is not usable."@,
        }
    }
}

impl ScanError {
    /// The text to report the failure with.
    pub fn message(&self) -> (message: String)
        ensures
            message@ == self@.text(),
    {
        match self {
            ScanError::DirectoryUnreadable { path, cause } => {
                let mut message = String::from_str(" The directory ");
                message.append(path.as_str());
                message.append(" is not accessible. ");
                message.append(cause.as_str());
                message
            },
            ScanError::NoValidVersions { path } => {
                let mut message = String::from_str(" The directory '");
                message.append(path.as_str());
                message.append("' is empty or doesn't have any valid path.");
                message
            },
            ScanError::PatternRejected { pattern } => {
                let mut message = String::from_str(" The version pattern ");
                message.append(pattern.as_str());
                message.append(" is not usable.");
                message
            },
        }
    }
}

/// What a scan of `listing` comes to: the accepted children, or the reason
/// why there are none to return.
pub open spec fn scan_result(listing: Result<Vec<RawEntry>, String>) -> Result<
    Seq<File>,
    ScanFailure,
> {
    match listing {
        Err(cause) => Err(
            ScanFailure::DirectoryUnreadable { path: VERSION_DIR@, cause: cause@ },
        ),
        Ok(entries) => if pattern_rejected(entries@) {
            Err(ScanFailure::PatternRejected { pattern: VERSION_PATTERN@ })
        } else if accepted(entries@).len() == 0 {
            Err(ScanFailure::NoValidVersions { path: VERSION_DIR@ })
        } else {
            Ok(accepted(entries@))
        },
    }
}

/// The outcome of a scan.
#[derive(Debug, PartialEq, Eq)]
pub struct ScanReport {
    /// One verdict per child that was listed, in the order of the listing.
    pub verdicts: Vec<EntryVerdict>,
    /// The accepted children, or why the scan failed.
    pub outcome: Result<Vec<File>, ScanError>,
}

/// The verdict on a directory, from what matching its name against the
/// version pattern came to.
pub fn judge_name(found: Option<bool>) -> (verdict: EntryVerdict)
    ensures
        verdict == verdict_of_match(found),
{
    match found {
        Some(true) => EntryVerdict::Accepted,
        Some(false) => EntryVerdict::InvalidName,
        None => EntryVerdict::PatternRejected,
    }
}

/// Judges one child of the version directory.
pub fn judge_entry(entry: &RawEntry) -> (verdict: EntryVerdict)
    ensures
        verdict == verdict_for(*entry),
{
    match entry {
        RawEntry::Unreadable { .. } => EntryVerdict::Unreadable,
        RawEntry::Found(file) => {
            if !file.is_dir {
                EntryVerdict::NotDirectory
            } else {
                judge_name(is_version_name(file.name.as_str()))
            }
        },
    }
}

/// Appending one child to a listing appends its file to the accepted
/// children, or leaves them as they were.
proof fn lemma_accepted_push(entries: Seq<RawEntry>, entry: RawEntry)
    ensures
        accepted(entries.push(entry)) == match entry {
            RawEntry::Found(file) => if verdict_for(entry) == EntryVerdict::Accepted {
                accepted(entries).push(file)
            } else {
                accepted(entries)
            },
            RawEntry::Unreadable { .. } => accepted(entries),
        },
{
    assert(entries.push(entry).drop_last() == entries);
}

/// A file is among the accepted children exactly where the listing holds it
/// as a child that was judged `Accepted`: a directory whose name the version
/// pattern matches.
pub proof fn lemma_accepted_members(entries: Seq<RawEntry>, file: File)
    ensures
        accepted(entries).contains(file) <==> exists|i: int|
            0 <= i < entries.len() && #[trigger] entries[i] == RawEntry::Found(file) && verdict_for(
                entries[i],
            ) == EntryVerdict::Accepted,
        accepted(entries).contains(file) ==> file@.is_dir && pattern_match(
            VERSION_PATTERN@,
            file@.name,
        ) == Some(true),
    decreases entries.len(),
{
    if entries.len() > 0 {
        let rest = entries.drop_last();
        let last = entries.last();
        lemma_accepted_members(rest, file);
        let kept = last == RawEntry::Found(file) && verdict_for(last) == EntryVerdict::Accepted;
        if accepted(entries).contains(file) {
            let k = choose|k: int| 0 <= k < accepted(entries).len() && accepted(entries)[k] == file;
            if k < accepted(rest).len() {
                assert(accepted(rest)[k] == file);
                assert(accepted(rest).contains(file));
                let i = choose|i: int|
                    0 <= i < rest.len() && #[trigger] rest[i] == RawEntry::Found(file)
                        && verdict_for(rest[i]) == EntryVerdict::Accepted;
                assert(entries[i] == rest[i]);
            } else {
                assert(kept);
                assert(entries[entries.len() - 1] == last);
            }
        }
        if exists|i: int|
            0 <= i < entries.len() && #[trigger] entries[i] == RawEntry::Found(file) && verdict_for(
                entries[i],
            ) == EntryVerdict::Accepted {
            let i = choose|i: int|
                0 <= i < entries.len() && #[trigger] entries[i] == RawEntry::Found(file)
                    && verdict_for(entries[i]) == EntryVerdict::Accepted;
            if i < rest.len() {
                assert(rest[i] == entries[i]);
                assert(accepted(rest).contains(file));
                let k = choose|k: int| 0 <= k < accepted(rest).len() && accepted(rest)[k] == file;
                assert(accepted(entries)[k] == file);
            } else {
                assert(kept);
                assert(accepted(entries)[accepted(rest).len() as int] == file);
            }
        }
    }
}

/// The accepted children are as many as the verdicts `Accepted`; so a scan
/// of a listing finds no version exactly where no child was accepted.
pub proof fn lemma_accepted_none(entries: Seq<RawEntry>)
    ensures
        accepted(entries).len() <= entries.len(),
        accepted(entries).len() == 0 <==> forall|i: int|
            0 <= i < entries.len() ==> verdict_for(#[trigger] entries[i])
                != EntryVerdict::Accepted,
    decreases entries.len(),
{
    if entries.len() > 0 {
        let rest = entries.drop_last();
        lemma_accepted_none(rest);
        assert(forall|i: int| 0 <= i < rest.len() ==> rest[i] == entries[i]);
        if accepted(entries).len() == 0 {
            assert forall|i: int| 0 <= i < entries.len() implies verdict_for(
                #[trigger] entries[i],
            ) != EntryVerdict::Accepted by {
                if i < rest.len() {
                    assert(rest[i] == entries[i]);
                }
            }
        } else if accepted(rest).len() == 0 {
            assert(verdict_for(entries[entries.len() - 1]) == EntryVerdict::Accepted);
        } else {
            let i = choose|i: int|
                0 <= i < rest.len() && verdict_for(#[trigger] rest[i]) == EntryVerdict::Accepted;
            assert(entries[i] == rest[i]);
        }
    }
}

/// Scans the version directory, given its listing, or the reason why it
/// could not be listed.
///
/// A child that could not be read, that is no directory, or whose name is no
/// version name is skipped; none of them fails the scan. What is left is
/// returned in the order of the listing. The scan fails where the directory
/// could not be listed, and where no child is left.
pub fn check_api_ver_dir(listing: Result<Vec<RawEntry>, String>) -> (report: ScanReport)
    ensures
        report.verdicts@ == (match listing {
            Ok(entries) => verdicts_for(entries@),
            Err(_) => Seq::empty(),
        }),
        report.outcome matches Ok(files) ==> scan_result(listing) == Ok::<Seq<File>, ScanFailure>(
            files@,
        ),
        report.outcome matches Err(error) ==> scan_result(listing) == Err::<
            Seq<File>,
            ScanFailure,
        >(error@),
{
    let entries = match listing {
        Ok(entries) => entries,
        Err(cause) => {
            let error = ScanError::DirectoryUnreadable { path: String::from_str(VERSION_DIR), cause };
            return ScanReport { verdicts: Vec::new(), outcome: Err(error) };
        },
    };
    let mut verdicts: Vec<EntryVerdict> = Vec::new();
    let mut r_list: Vec<File> = Vec::new();
    let mut rejected = false;
    for entry in it: entries.into_iter()
        invariant
            it.seq() == entries@,
            verdicts@ == verdicts_for(entries@.take(it.index())),
            r_list@ == accepted(entries@.take(it.index())),
            rejected == pattern_rejected(entries@.take(it.index())),
    {
        let ghost before = entries@.take(it.index());
        let ghost after = entries@.take(it.index() + 1);
        let verdict = judge_entry(&entry);
        proof {
            assert(after == before.push(entry));
            lemma_accepted_push(before, entry);
            assert(forall|j: int| 0 <= j < before.len() ==> before[j] == after[j]);
            assert(after[it.index()] == entry);
        }
        verdicts.push(verdict);
        match verdict {
            EntryVerdict::Accepted => {
                if let RawEntry::Found(file) = entry {
                    r_list.push(file);
                }
            },
            EntryVerdict::PatternRejected => {
                rejected = true;
            },
            _ => {},
        }
    }
    assert(entries@.take(entries@.len() as int) == entries@);
    let outcome = if rejected {
        Err(ScanError::PatternRejected { pattern: String::from_str(VERSION_PATTERN) })
    } else if r_list.len() > 0 {
        Ok(r_list)
    } else {
        Err(ScanError::NoValidVersions { path: String::from_str(VERSION_DIR) })
    };
    ScanReport { verdicts, outcome }
}

} // verus!
