//! Persistence rules for the last-opened-file marker.
//!
//! The backend remembers the most recently opened file by keeping its path
//! in a single marker file inside the application's data directory. Saving
//! writes the path text verbatim; reading trims surrounding whitespace. The
//! surrounding process resolves the data directory, creates it, and performs
//! the actual read and write; the functions here decide, from the outcome of
//! each of those steps, what happens next and what the caller is told.

use vstd::prelude::*;

use crate::text::trim;
use crate::text::trim_spec;
use crate::text::is_space;
use crate::text::lemma_trim_strips_edges;

verus! {

/// A failure of one of the persistence steps, carrying the underlying
/// description reported by the process around the library.
#[derive(Debug, PartialEq, Eq, Clone)]
pub enum PersistError {
    /// The application data directory could not be resolved.
    DirUnresolved(String),
    /// The application data directory could not be created.
    DirCreateFailed(String),
    /// The marker file exists but could not be read.
    ReadFailed(String),
    /// The marker file could not be written.
    WriteFailed(String),
}

/// Name of the marker file inside the application data directory.
pub fn marker_file_name() -> (r: String)
    ensures
        r@ == "last_file.txt"@,
{
    "last_file.txt".to_owned()
}

/// What the process found when it went looking for the marker file.
#[derive(Debug, PartialEq, Eq, Clone)]
pub enum MarkerReadOutcome {
    /// The application data directory could not be resolved.
    NoDataDir(String),
    /// The directory resolved but no marker file exists in it.
    Missing,
    /// The marker file was read; this is its text.
    Contents(String),
    /// The marker file exists but reading it failed.
    Unreadable(String),
}

/// What the stored marker text looks like after a read: surrounding
/// whitespace is removed.
pub open spec fn read_view(contents: Seq<char>) -> Seq<char> {
    trim_spec(contents)
}

/// What saving a path stores in the marker file: the path text verbatim.
pub open spec fn marker_contents(path: Seq<char>) -> Seq<char> {
    path
}

/// Turns the outcome of looking for the marker file into the caller's
/// answer: a missing marker is "no value", not an error; contents come back
/// trimmed; each failure is reported as the matching error.
pub fn interpret_marker_read(outcome: MarkerReadOutcome) -> (r: Result<Option<String>, PersistError>)
    ensures
        match outcome {
            MarkerReadOutcome::NoDataDir(e) => r == Err::<Option<String>, PersistError>(
                PersistError::DirUnresolved(e),
            ),
            MarkerReadOutcome::Missing => r == Ok::<Option<String>, PersistError>(None),
            MarkerReadOutcome::Contents(s) => (r matches Ok(v) && v matches Some(t)
                && t@ == read_view(s@)),
            MarkerReadOutcome::Unreadable(e) => r == Err::<Option<String>, PersistError>(
                PersistError::ReadFailed(e),
            ),
        },
{
    match outcome {
        MarkerReadOutcome::NoDataDir(e) => Err(PersistError::DirUnresolved(e)),
        MarkerReadOutcome::Missing => Ok(None),
        MarkerReadOutcome::Contents(s) => Ok(Some(trim(s.as_str()))),
        MarkerReadOutcome::Unreadable(e) => Err(PersistError::ReadFailed(e)),
    }
}

/// Whether the application data directory could be resolved.
#[derive(Debug, PartialEq, Eq, Clone)]
pub enum DataDirOutcome {
    /// The directory resolved to this path.
    Resolved(String),
    /// Resolution failed with this description.
    Unresolved(String),
}

/// First step of a save: the data directory must resolve before anything is
/// created or written. On success the resolved directory is handed back for
/// the process to create; on failure the save aborts with an error.
pub fn plan_save(dir: DataDirOutcome) -> (r: Result<String, PersistError>)
    ensures
        match dir {
            DataDirOutcome::Resolved(d) => r == Ok::<String, PersistError>(d),
            DataDirOutcome::Unresolved(e) => r == Err::<String, PersistError>(
                PersistError::DirUnresolved(e),
            ),
        },
{
    match dir {
        DataDirOutcome::Resolved(d) => Ok(d),
        DataDirOutcome::Unresolved(e) => Err(PersistError::DirUnresolved(e)),
    }
}

/// A write the process is asked to perform: store `contents` in the file
/// named `file_name` inside the resolved data directory.
#[derive(Debug, PartialEq, Eq, Clone)]
pub struct MarkerWrite {
    pub file_name: String,
    pub contents: String,
}

/// Second step of a save, after the process tried to create the data
/// directory. A write is planned only when creation succeeded, so a failed
/// creation leaves no marker file behind; the planned write stores the path
/// text verbatim under the marker file name.
pub fn plan_marker_write(path: String, created: Result<(), String>) -> (r: Result<
    MarkerWrite,
    PersistError,
>)
    ensures
        match created {
            Ok(_) => (r matches Ok(w) && w.file_name@ == "last_file.txt"@ && w.contents == path
                && w.contents@ == marker_contents(path@)),
            Err(e) => r == Err::<MarkerWrite, PersistError>(PersistError::DirCreateFailed(e)),
        },
{
    match created {
        Ok(_) => Ok(MarkerWrite { file_name: marker_file_name(), contents: path }),
        Err(e) => Err(PersistError::DirCreateFailed(e)),
    }
}

/// Last step of a save: the outcome of the write, as reported to the caller.
pub fn finish_save(wrote: Result<(), String>) -> (r: Result<(), PersistError>)
    ensures
        match wrote {
            Ok(_) => r == Ok::<(), PersistError>(()),
            Err(e) => r == Err::<(), PersistError>(PersistError::WriteFailed(e)),
        },
{
    match wrote {
        Ok(_) => Ok(()),
        Err(e) => Err(PersistError::WriteFailed(e)),
    }
}

/// Round trip: saving a path stores it verbatim, and reading the marker back
/// yields the path with surrounding whitespace removed — a result that
/// itself carries no leading or trailing whitespace.
pub proof fn lemma_save_then_read(path: Seq<char>)
    ensures
        read_view(marker_contents(path)) == trim_spec(path),
        trim_spec(path).len() > 0 ==> !is_space(trim_spec(path)[0]),
        trim_spec(path).len() > 0 ==> !is_space(trim_spec(path).last()),
{
    lemma_trim_strips_edges(path);
}

} // verus!
