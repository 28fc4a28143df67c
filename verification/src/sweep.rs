//! The periodic clean-ups of storage, as state machines over one file at a time:
//! expired files (not accessed for too long) are deleted from the database, the
//! disk and the cache; database records whose file is missing on disk are
//! deleted; files on disk that the database does not know are removed. Each
//! sweep counts what it cleaned up and what failed, and reports the counts.
use vstd::prelude::*;
use vstd::string::StringExecFns;
use crate::replies::{decimal, decimal_string};

verus! {

/// Which clean-up a sweep performs.
#[derive(Clone, Copy, PartialEq, Eq, Structural, Debug)]
pub enum SweepKind {
    /// Files not accessed for longer than allowed.
    Expired,
    /// Database records whose file is missing on disk.
    Invalid,
    /// Files on disk without a database record.
    Unknown,
}

/// What the sweep is waiting for, for the file at hand.
#[derive(Clone, Copy, PartialEq, Eq, Structural, Debug)]
pub enum SweepPhase {
    /// No file is at hand.
    Idle,
    /// Whether the file exists on disk is awaited.
    CheckingDisk,
    /// Whether the database holds the file is awaited.
    CheckingRecord,
    /// The file's database record is being deleted.
    DeletingRecord,
    /// The file is being removed from disk.
    RemovingFile,
    /// The file is being dropped from the cache.
    Evicting,
}

/// The outcome of the last action, fed back to the sweep.
#[derive(Debug)]
pub enum SweepEvent {
    OnDisk(bool),
    /// Whether the database holds the file (`Err`: the database failed).
    RecordExists(Result<bool, ()>),
    RecordDeleted(bool),
    FileRemoved(bool),
    Evicted,
}

/// What the server has to do next for the file at hand.
#[derive(PartialEq, Eq, Structural, Debug)]
pub enum SweepAction {
    CheckOnDisk,
    CheckRecord,
    DeleteRecord,
    RemoveFile,
    EvictCached,
    /// The file at hand is dealt with; go on with the next one.
    ItemDone,
}

/// The abstract state of a sweep.
pub struct SweepModel {
    pub kind: SweepKind,
    /// Whether there is a cache to drop expired files from.
    pub cache: bool,
    pub phase: SweepPhase,
    /// Files begun.
    pub items: u64,
    pub succeeded: u64,
    pub failed: u64,
}

impl SweepModel {
    /// Every file begun is counted at most once, and only once it is dealt with;
    /// each sweep only ever takes the steps of its own kind.
    pub open spec fn valid(self) -> bool {
        &&& self.succeeded + self.failed + (if self.phase == SweepPhase::Idle { 0int } else { 1int }) <= self.items
        &&& (self.phase == SweepPhase::CheckingDisk ==> self.kind == SweepKind::Invalid)
        &&& (self.phase == SweepPhase::CheckingRecord ==> self.kind == SweepKind::Unknown)
        &&& (self.phase == SweepPhase::DeletingRecord ==> self.kind != SweepKind::Unknown)
        &&& (self.phase == SweepPhase::RemovingFile ==> self.kind != SweepKind::Invalid)
        &&& (self.phase == SweepPhase::Evicting ==> self.kind == SweepKind::Expired && self.cache)
    }
}

/// What the sweep does first with a new file.
pub open spec fn first_action(kind: SweepKind) -> (SweepPhase, SweepAction) {
    match kind {
        SweepKind::Expired => (SweepPhase::DeletingRecord, SweepAction::DeleteRecord),
        SweepKind::Invalid => (SweepPhase::CheckingDisk, SweepAction::CheckOnDisk),
        SweepKind::Unknown => (SweepPhase::CheckingRecord, SweepAction::CheckRecord),
    }
}

/// The file at hand is done: counted as cleaned up, as failed, or not at all.
pub open spec fn item_done(s: SweepModel, t: SweepModel, a: SweepAction, succeeded: int, failed: int) -> bool {
    &&& t == SweepModel {
        phase: SweepPhase::Idle,
        succeeded: (s.succeeded + succeeded) as u64,
        failed: (s.failed + failed) as u64,
        ..s
    }
    &&& a == SweepAction::ItemDone
}

/// The sweep moves on to `phase`, asking for `action`.
pub open spec fn sweep_moves(s: SweepModel, t: SweepModel, a: SweepAction, phase: SweepPhase, action: SweepAction) -> bool {
    t == SweepModel { phase, ..s } && a == action
}

/// The sweep's answer to one event about the file at hand. An event that does
/// not answer the action last handed out counts the file as failed.
pub open spec fn sweep_step(s: SweepModel, e: SweepEvent, t: SweepModel, a: SweepAction) -> bool {
    match (s.phase, e) {
        (SweepPhase::CheckingDisk, SweepEvent::OnDisk(present)) =>
            if present {
                item_done(s, t, a, 0, 0)
            } else {
                sweep_moves(s, t, a, SweepPhase::DeletingRecord, SweepAction::DeleteRecord)
            },
        (SweepPhase::CheckingRecord, SweepEvent::RecordExists(r)) => match r {
            Err(_) => item_done(s, t, a, 0, 1),
            Ok(true) => item_done(s, t, a, 0, 0),
            Ok(false) => sweep_moves(s, t, a, SweepPhase::RemovingFile, SweepAction::RemoveFile),
        },
        (SweepPhase::DeletingRecord, SweepEvent::RecordDeleted(ok)) =>
            if !ok {
                item_done(s, t, a, 0, 1)
            } else if s.kind == SweepKind::Expired {
                sweep_moves(s, t, a, SweepPhase::RemovingFile, SweepAction::RemoveFile)
            } else {
                item_done(s, t, a, 1, 0)
            },
        (SweepPhase::RemovingFile, SweepEvent::FileRemoved(ok)) =>
            if !ok {
                item_done(s, t, a, 0, 1)
            } else if s.kind == SweepKind::Expired && s.cache {
                sweep_moves(s, t, a, SweepPhase::Evicting, SweepAction::EvictCached)
            } else {
                item_done(s, t, a, 1, 0)
            },
        (SweepPhase::Evicting, SweepEvent::Evicted) => item_done(s, t, a, 1, 0),
        (SweepPhase::Idle, _) => t == s && a == SweepAction::ItemDone,
        _ => item_done(s, t, a, 0, 1),
    }
}

/// The report a sweep prints: how many files it cleaned up out of how many,
/// and how many failed; for expired files out of all expired files, otherwise
/// out of those it tried to clean up. Nothing is reported when there was
/// nothing to do.
pub open spec fn sweep_report(kind: SweepKind, items: u64, succeeded: u64, failed: u64) -> Option<Seq<char>> {
    let (out_of, label) = match kind {
        SweepKind::Expired => (items as int, "expired"@),
        SweepKind::Invalid => (succeeded + failed, "invalid"@),
        SweepKind::Unknown => (succeeded + failed, "unknown"@),
    };
    if out_of > 0 {
        Some("Cleaned up "@ + decimal(succeeded as nat) + "/"@ + decimal(out_of as nat) + " "@ + label
            + " files ("@ + decimal(failed as nat) + " fails)"@)
    } else {
        None
    }
}

/// A file counts as cleaned up only once all of its clean-up is done: an
/// expired file once its record is deleted, its file removed and (with a cache)
/// its cached copy dropped; a record without a file once the record is
/// deleted; a file without a record once the file is removed.
pub proof fn law_success_only_when_done(s: SweepModel, e: SweepEvent, t: SweepModel, a: SweepAction)
    requires
        s.valid(),
        sweep_step(s, e, t, a),
        t.succeeded > s.succeeded,
    ensures
        t.succeeded == s.succeeded + 1,
        t.failed == s.failed,
        t.phase == SweepPhase::Idle,
        a == SweepAction::ItemDone,
        s.kind == SweepKind::Expired && s.cache ==> s.phase == SweepPhase::Evicting && e is Evicted,
        s.kind == SweepKind::Expired && !s.cache ==> s.phase == SweepPhase::RemovingFile
            && e matches SweepEvent::FileRemoved(true),
        s.kind == SweepKind::Invalid ==> s.phase == SweepPhase::DeletingRecord
            && e matches SweepEvent::RecordDeleted(true),
        s.kind == SweepKind::Unknown ==> s.phase == SweepPhase::RemovingFile
            && e matches SweepEvent::FileRemoved(true),
{
}

/// A sweep reports exactly when it had something to do: for expired files when
/// there were any, otherwise when it cleaned up or failed on at least one file.
pub proof fn law_report_only_when_something_done(kind: SweepKind, items: u64, succeeded: u64, failed: u64)
    ensures
        (sweep_report(kind, items, succeeded, failed) is None) <==> (if kind == SweepKind::Expired {
            items == 0
        } else {
            succeeded + failed == 0
        }),
{
}

/// A file sweep.
pub struct Sweep {
    kind: SweepKind,
    cache: bool,
    phase: SweepPhase,
    items: u64,
    succeeded: u64,
    failed: u64,
}

impl View for Sweep {
    type V = SweepModel;

    closed spec fn view(&self) -> SweepModel {
        SweepModel {
            kind: self.kind,
            cache: self.cache,
            phase: self.phase,
            items: self.items,
            succeeded: self.succeeded,
            failed: self.failed,
        }
    }
}

impl Sweep {
    /// A sweep of this kind that has seen no file yet; `cache` tells whether
    /// expired files are to be dropped from a cache too.
    pub fn new(kind: SweepKind, cache: bool) -> (s: Sweep)
        ensures
            s@ == (SweepModel { kind, cache, phase: SweepPhase::Idle, items: 0, succeeded: 0, failed: 0 }),
            s@.valid(),
    {
        Sweep { kind, cache, phase: SweepPhase::Idle, items: 0, succeeded: 0, failed: 0 }
    }

    /// The number of files begun.
    pub fn items(&self) -> (n: u64)
        ensures
            n == self@.items,
    {
        self.items
    }

    /// The number of files cleaned up.
    pub fn succeeded(&self) -> (n: u64)
        ensures
            n == self@.succeeded,
    {
        self.succeeded
    }

    /// The number of files whose clean-up failed.
    pub fn failed(&self) -> (n: u64)
        ensures
            n == self@.failed,
    {
        self.failed
    }

    /// Takes up the next file; what to do with it first.
    pub fn begin_item(&mut self) -> (a: SweepAction)
        requires
            old(self)@.valid(),
            old(self)@.phase == SweepPhase::Idle,
            old(self)@.items < u64::MAX,
        ensures
            final(self)@.valid(),
            final(self)@ == (SweepModel {
                phase: first_action(old(self)@.kind).0,
                items: (old(self)@.items + 1) as u64,
                ..old(self)@
            }),
            a == first_action(old(self)@.kind).1,
    {
        self.items = self.items + 1;
        match self.kind {
            SweepKind::Expired => {
                self.phase = SweepPhase::DeletingRecord;
                SweepAction::DeleteRecord
            },
            SweepKind::Invalid => {
                self.phase = SweepPhase::CheckingDisk;
                SweepAction::CheckOnDisk
            },
            SweepKind::Unknown => {
                self.phase = SweepPhase::CheckingRecord;
                SweepAction::CheckRecord
            },
        }
    }

    fn done(&mut self, succeeded: bool, failed: bool) -> (a: SweepAction)
        requires
            old(self)@.valid(),
            old(self)@.phase != SweepPhase::Idle,
            !(succeeded && failed),
        ensures
            final(self)@.valid(),
            item_done(
                old(self)@,
                final(self)@,
                a,
                if succeeded { 1 } else { 0 },
                if failed { 1 } else { 0 },
            ),
    {
        if succeeded {
            self.succeeded = self.succeeded + 1;
        }
        if failed {
            self.failed = self.failed + 1;
        }
        self.phase = SweepPhase::Idle;
        SweepAction::ItemDone
    }

    /// Takes the outcome of the last action and decides what comes next.
    pub fn step(&mut self, event: SweepEvent) -> (a: SweepAction)
        requires
            old(self)@.valid(),
        ensures
            final(self)@.valid(),
            sweep_step(old(self)@, event, final(self)@, a),
    {
        if self.phase == SweepPhase::Idle {
            return SweepAction::ItemDone;
        }
        match (self.phase, event) {
            (SweepPhase::CheckingDisk, SweepEvent::OnDisk(present)) => {
                if present {
                    self.done(false, false)
                } else {
                    self.phase = SweepPhase::DeletingRecord;
                    SweepAction::DeleteRecord
                }
            },
            (SweepPhase::CheckingRecord, SweepEvent::RecordExists(r)) => match r {
                Err(_) => self.done(false, true),
                Ok(true) => self.done(false, false),
                Ok(false) => {
                    self.phase = SweepPhase::RemovingFile;
                    SweepAction::RemoveFile
                },
            },
            (SweepPhase::DeletingRecord, SweepEvent::RecordDeleted(ok)) => {
                if !ok {
                    self.done(false, true)
                } else if self.kind == SweepKind::Expired {
                    self.phase = SweepPhase::RemovingFile;
                    SweepAction::RemoveFile
                } else {
                    self.done(true, false)
                }
            },
            (SweepPhase::RemovingFile, SweepEvent::FileRemoved(ok)) => {
                if !ok {
                    self.done(false, true)
                } else if self.kind == SweepKind::Expired && self.cache {
                    self.phase = SweepPhase::Evicting;
                    SweepAction::EvictCached
                } else {
                    self.done(true, false)
                }
            },
            (SweepPhase::Evicting, SweepEvent::Evicted) => self.done(true, false),
            _ => self.done(false, true),
        }
    }

    /// The line to print about this sweep, if there is one.
    pub fn report(&self) -> (line: Option<String>)
        requires
            self@.valid(),
        ensures
            match line {
                Some(l) => sweep_report(self@.kind, self@.items, self@.succeeded, self@.failed) == Some(l@),
                None => sweep_report(self@.kind, self@.items, self@.succeeded, self@.failed) is None,
            },
    {
        let (out_of, label) = match self.kind {
            SweepKind::Expired => (self.items, "expired"),
            SweepKind::Invalid => (self.succeeded + self.failed, "invalid"),
            SweepKind::Unknown => (self.succeeded + self.failed, "unknown"),
        };
        if out_of == 0 {
            return None;
        }
        let mut line = "Cleaned up ".to_owned();
        line.append(decimal_string(self.succeeded).as_str());
        line.append("/");
        line.append(decimal_string(out_of).as_str());
        line.append(" ");
        line.append(label);
        line.append(" files (");
        line.append(decimal_string(self.failed).as_str());
        line.append(" fails)");
        Some(line)
    }
}

} // verus!
