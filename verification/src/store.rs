//! Which document a load hands out.
//!
//! Loading never fails. A document's file that is missing gives the blank
//! document of a first run, whose sit and stand cycle has 45 and 10 minutes. A file that is there but cannot be read, or does
//! not hold a document, gives the document of the newest snapshot that holds
//! one, and the caller is told so, because what was written since that
//! snapshot is lost. Where no snapshot helps, the blank document is all
//! that is left.

use crate::backup::{newest_usable, recover, usable, BackupAttempt};
use crate::document::{durations_positive, AppData};
use vstd::prelude::*;

verus! {

/// What reading the document's file came to.
#[derive(Debug, Clone, PartialEq, Eq)]
pub enum PrimaryRead {
    /// There is no such file.
    Missing,
    /// The file is there and could not be read.
    Unreadable,
    /// The file was read and does not hold a document.
    Malformed,
    /// The file holds this document.
    Parsed(AppData),
}

/// A loaded document, and whether it comes from a snapshot.
#[derive(Debug, Clone, PartialEq, Eq)]
pub struct Loaded {
    pub data: AppData,
    /// The document was recovered from a snapshot: the caller is to say so.
    pub recovered: bool,
}

/// The read failed on a file that is there.
pub open spec fn read_failed(primary: PrimaryRead) -> bool {
    primary is Unreadable || primary is Malformed
}

/// Some snapshot of the list can be recovered from.
pub open spec fn recoverable(attempts: Seq<BackupAttempt>) -> bool {
    exists|j: int| 0 <= j < attempts.len() && usable(#[trigger] attempts[j])
}

/// The document to work with, given what reading the document's file came
/// to and, for the case that the read failed, the snapshots as they were found.
pub fn load(primary: PrimaryRead, backups: Vec<BackupAttempt>) -> (r: Loaded)
    ensures
        primary is Missing ==> r.data.is_blank() && !r.recovered,
        primary matches PrimaryRead::Parsed(data) ==> r.data == data && !r.recovered,
        read_failed(primary) ==> r.recovered == recoverable(backups@),
        read_failed(primary) && r.recovered ==> exists|i: int|
            newest_usable(backups@, i) && backups@[i].parsed == Some(r.data),
        read_failed(primary) && !r.recovered ==> r.data.is_blank(),
        !(primary is Parsed) && !r.recovered ==> {
            &&& r.data.notifications@.sit_duration_minutes == 45
            &&& r.data.notifications@.stand_duration_minutes == 10
            &&& durations_positive(r.data.notifications@)
        },
{
    match primary {
        PrimaryRead::Missing => Loaded { data: AppData::default(), recovered: false },
        PrimaryRead::Parsed(data) => Loaded { data, recovered: false },
        PrimaryRead::Unreadable | PrimaryRead::Malformed => match recover(backups) {
            Some(data) => {
                proof {
                    let i = choose|i: int|
                        newest_usable(backups@, i) && backups@[i].parsed == Some(data);
                    assert(usable(backups@[i]));
                }
                Loaded { data, recovered: true }
            },
            None => Loaded { data: AppData::default(), recovered: false },
        },
    }
}

/// The document for one tick of the scheduler, which looks at no snapshot:
/// the blank document where the file is missing, the file's document where
/// it holds one, and nothing where the read failed, so that the tick is
/// skipped.
pub fn document_for_tick(primary: PrimaryRead) -> (r: Option<AppData>)
    ensures
        primary is Missing ==> (r matches Some(data) && data.is_blank() && durations_positive(
            data.notifications@,
        )),
        primary matches PrimaryRead::Parsed(data) ==> r == Some(data),
        read_failed(primary) ==> r is None,
{
    match primary {
        PrimaryRead::Missing => Some(AppData::default()),
        PrimaryRead::Parsed(data) => Some(data),
        PrimaryRead::Unreadable | PrimaryRead::Malformed => None,
    }
}

} // verus!
