//! The figures the info endpoint reports about the server's storage.
use vstd::prelude::*;

verus! {

/// How many files of the current average size (in whole bytes) the storage
/// limit would hold, when files are stored and average at least one byte; no
/// estimate otherwise, so that no total can make the report divide by zero.
pub open spec fn spec_estimated_max_files(max_storage_limit: u64, total_files: u64, total_size: u64) -> Option<u64> {
    if total_files > 0 && total_size > 0 && total_size / total_files > 0 {
        Some((max_storage_limit / (total_size / total_files)) as u64)
    } else {
        None
    }
}

/// The estimate of how many files the storage limit holds: the limit divided by
/// the average file size (both in whole bytes), when that average is at least
/// one byte.
pub fn estimated_max_files(max_storage_limit: u64, total_files: u64, total_size: u64) -> (r: Option<u64>)
    ensures
        total_files > 0 && total_size / total_files > 0 ==> r == Some(max_storage_limit / (total_size / total_files)),
        !(total_files > 0 && total_size / total_files > 0) ==> r is None,
        r == spec_estimated_max_files(max_storage_limit, total_files, total_size),
{
    if total_files > 0 && total_size > 0 && total_size / total_files > 0 {
        Some(max_storage_limit / (total_size / total_files))
    } else {
        None
    }
}

/// The estimate is the largest number of average-sized files (average taken in
/// whole bytes) that fit in the storage limit, and there is one exactly when
/// files are stored and average at least one byte.
pub proof fn law_estimate_fills_limit(max_storage_limit: u64, total_files: u64, total_size: u64)
    ensures
        match spec_estimated_max_files(max_storage_limit, total_files, total_size) {
            Some(e) => {
                let avg = total_size as int / total_files as int;
                &&& total_files > 0 && avg > 0
                &&& e * avg <= max_storage_limit
                &&& max_storage_limit < (e + 1) * avg
            },
            None => total_files == 0 || total_size as int / total_files as int == 0,
        },
{
    if total_files > 0 && total_size / total_files > 0 {
        let avg = total_size as int / total_files as int;
        let m = max_storage_limit as int;
        let e = m / avg;
        assert(e * avg <= m && m < (e + 1) * avg) by (nonlinear_arith)
            requires
                avg > 0,
                e == m / avg,
                m >= 0,
        ;
    }
}

/// What the info endpoint reports.
#[derive(Clone, Copy, PartialEq, Eq, Structural, Debug)]
pub struct ServerInfo {
    /// The estimated number of files the storage holds, when it can be estimated.
    pub max_files: Option<u64>,
    pub total_files: u64,
    /// The storage limit in bytes (0: unlimited).
    pub max_size: u64,
    pub total_size: u64,
}

impl ServerInfo {
    /// The report for the given limit and totals.
    pub fn new(max_storage_limit: u64, total_files: u64, total_size: u64) -> (info: ServerInfo)
        ensures
            info.max_files == spec_estimated_max_files(max_storage_limit, total_files, total_size),
            total_files > 0 && total_size / total_files > 0 ==> info.max_files == Some(
                max_storage_limit / (total_size / total_files),
            ),
            !(total_files > 0 && total_size / total_files > 0) ==> info.max_files is None,
            info.total_files == total_files,
            info.max_size == max_storage_limit,
            info.total_size == total_size,
    {
        ServerInfo {
            max_files: estimated_max_files(max_storage_limit, total_files, total_size),
            total_files,
            max_size: max_storage_limit,
            total_size,
        }
    }
}

} // verus!
