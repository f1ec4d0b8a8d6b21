//! The decisions of a download. The caller does the work that touches the
//! network and the file system; between those steps it asks here what to do
//! next and what to make of each result:
//!
//! 1. `begin_download` looks the URL up. A stored download is served as it
//!    is, and nothing else happens. Otherwise the download is to be fetched.
//! 2. The caller creates the destination directory, notes the time, fetches
//!    the body, writes it to the destination path, and notes the time again.
//! 3. `complete_download` takes the two times and stores the record.
//! 4. The caller asks the file system for the size of what it wrote, and
//!    `with_file_size` puts it into the download.

use crate::config::Config;
use crate::files::{elapsed, elapsed_between, file_of_record, new_file, File, FileView};
use crate::files::{lemma_download_status_round_trip, lemma_file_type_round_trip};
use crate::storage::{insert_record, record_of_file, search_by_url};
use crate::storage::{DownloadRecord, RecordView, StoreError};
use vstd::prelude::*;

verus! {

/// Why a download failed.
#[derive(Debug, Clone, Copy, PartialEq, Eq, Structural)]
pub enum DownloadError {
    /// The body could not be fetched: no connection, no such host, or an
    /// answer that is no success.
    Network,
    /// A directory or a file could not be created, written or examined.
    Filesystem,
    /// The record store failed.
    Storage(StoreError),
}

/// What is to be done for a URL.
#[derive(Debug)]
pub enum Plan {
    /// The store has the download: this is it, and nothing is to be fetched.
    Serve(File),
    /// The store does not have the download: it is to be fetched to the
    /// destination path of this file.
    Fetch(File),
}

/// What is to be done with the download `file`, by what the store holds for
/// its URL.
pub open spec fn plan_for(file: FileView, stored: Option<RecordView>) -> PlanView {
    match stored {
        Some(record) => PlanView::Serve(file_of_record(record)),
        None => PlanView::Fetch(file),
    }
}

/// `Plan` with its file as a `FileView`.
pub enum PlanView {
    Serve(FileView),
    Fetch(FileView),
}

impl View for Plan {
    type V = PlanView;

    open spec fn view(&self) -> PlanView {
        match self {
            Plan::Serve(file) => PlanView::Serve(file@),
            Plan::Fetch(file) => PlanView::Fetch(file@),
        }
    }
}

/// The download `file` with the time at which the transfer began and the
/// time at which it ended, and the time between the two as its duration.
pub open spec fn timed(file: FileView, start_time: i64, stop_time: i64) -> FileView {
    FileView {
        download_start_time: start_time,
        download_stop_time: stop_time,
        download_duration: elapsed_between(start_time, stop_time),
        ..file
    }
}

/// Decides between serving and fetching.
pub fn plan_download(file: File, stored: Option<DownloadRecord>) -> (plan: Plan)
    ensures
        plan@ == plan_for(
            file@,
            match stored {
                Some(record) => Some(record@),
                None => None,
            },
        ),
{
    match stored {
        Some(record) => Plan::Serve(File::from(record)),
        None => Plan::Fetch(file),
    }
}

/// Puts the two times of a transfer into `file`.
pub fn with_times(file: File, start_time: i64, stop_time: i64) -> (f: File)
    ensures
        f@ == timed(file@, start_time, stop_time),
{
    let mut file = file;
    file.download_start_time = start_time;
    file.download_stop_time = stop_time;
    file.download_duration = elapsed(start_time, stop_time);
    file
}

/// Puts the size of the written file into `file`. A size that could not be
/// had is a failure of the file system: no size is made up.
pub fn with_file_size(file: File, size: Option<u64>) -> (r: Result<File, DownloadError>)
    ensures
        match size {
            Some(n) => r matches Ok(f) && f@ == (FileView { file_size: n, ..file@ }),
            None => r == Err::<File, DownloadError>(DownloadError::Filesystem),
        },
{
    match size {
        Some(n) => {
            let mut file = file;
            file.file_size = n;
            Ok(file)
        },
        None => Err(DownloadError::Filesystem),
    }
}

/// Derives the download for `file_url` and looks it up in the store.
///
/// Whether the store has it is the database's to say. A download that is
/// served is a stored download of `file_url`; one that is to be fetched is
/// the download that `File::new` derives. A failure of the store is no miss:
/// it ends the download.
pub fn begin_download(file_url: &str, cfg: &Config, conn: &rusqlite::Connection) -> (r: Result<
    Plan,
    DownloadError,
>)
    ensures
        r matches Ok(Plan::Serve(file)) ==> file.file_url@ == file_url@ && exists|record: RecordView|
            record.file_url == file_url@ && file@ == #[trigger] file_of_record(record),
        r matches Ok(Plan::Fetch(file)) ==> file@ == new_file(file_url@, cfg.download_dir@),
        r matches Err(e) ==> e is Storage,
{
    let file = File::new(file_url, cfg);
    match search_by_url(file_url, conn) {
        Ok(stored) => Ok(plan_download(file, stored)),
        Err(e) => Err(DownloadError::Storage(e)),
    }
}

/// Puts the two times of the transfer into `file` and stores its record.
///
/// The record is stored before the size of the written file is known, so
/// the stored size is the one that `file` came with. Whether the record is
/// taken is the database's to say; where it is, the download comes back
/// with its times and is otherwise unchanged.
pub fn complete_download(
    file: File,
    start_time: i64,
    stop_time: i64,
    conn: &rusqlite::Connection,
) -> (r: Result<File, DownloadError>)
    ensures
        r matches Ok(f) ==> f@ == timed(file@, start_time, stop_time),
        r matches Err(e) ==> e is Storage,
        file.file_size > i64::MAX <==> r == Err::<File, DownloadError>(
            DownloadError::Storage(StoreError::ValueOutOfRange),
        ),
{
    let file = with_times(file, start_time, stop_time);
    let record = DownloadRecord::from(file.clone());
    match insert_record(&record, conn) {
        Ok(_) => Ok(file),
        Err(e) => Err(DownloadError::Storage(e)),
    }
}

/// The record of a download, with the identifier that the store gave it.
pub open spec fn stored_record(file: FileView, id: u64) -> RecordView {
    RecordView { id, ..record_of_file(file) }
}

/// A download that was stored is served from then on, and never fetched
/// again: whatever identifier the store gave the record, the plan for its
/// URL is to serve the stored download. What is served is the download as it
/// was stored, but for the identifier, which is the store's, and the
/// duration, which is the time between the two stored timestamps.
pub proof fn lemma_stored_download_is_served(
    url: Seq<char>,
    download_dir: Seq<char>,
    file: FileView,
    id: u64,
)
    ensures
        plan_for(new_file(url, download_dir), Some(stored_record(file, id))) == PlanView::Serve(
            FileView {
                id,
                download_duration: elapsed_between(
                    file.download_start_time,
                    file.download_stop_time,
                ),
                ..file
            },
        ),
{
    lemma_file_type_round_trip(file.file_type);
    lemma_download_status_round_trip(file.download_status);
}

/// A download that went through `with_times` comes back from the store as
/// it went in, but for the identifier.
pub proof fn lemma_fetched_download_is_kept(
    file: FileView,
    start_time: i64,
    stop_time: i64,
    id: u64,
)
    ensures
        file_of_record(stored_record(timed(file, start_time, stop_time), id)) == (FileView {
            id,
            ..timed(file, start_time, stop_time)
        }),
{
    lemma_file_type_round_trip(file.file_type);
    lemma_download_status_round_trip(file.download_status);
}

} // verus!
