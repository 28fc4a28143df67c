//! The decisions of a download, as a state machine: the server performs each
//! action and feeds its outcome back. A cached file is served from memory; any
//! other is looked up in the database, opened, and either read whole into the
//! cache (when it is small enough) or streamed from disk.
use vstd::prelude::*;
use bytes::Bytes;
use std::sync::Arc;
use crate::ids::{is_valid_id, valid_id};
use crate::replies::Failure;
use crate::store::bytes_contents;

verus! {

/// What a download is waiting for.
#[derive(Clone, Copy, PartialEq, Eq, Structural, Debug)]
pub enum FetchPhase {
    /// The cache is asked for the file.
    LookingInCache,
    /// The file's time of last access is being recorded before serving it from the cache.
    TouchingCached,
    /// The database is asked whether the file exists.
    CheckingExists,
    /// The stored file is being opened.
    Opening,
    /// The file's time of last access is being recorded before reading it.
    TouchingOpened,
    /// The size of the opened file is awaited.
    Measuring,
    /// The whole file is being read into memory.
    Reading,
    /// The file is opened again after reading it failed.
    Reopening,
    /// The reply has been given.
    Finished,
}

/// The outcome of the last action, fed back to the machine.
pub enum FetchEvent {
    /// The cached bytes, or `None` on a miss.
    CacheLookup(Option<Arc<Bytes>>),
    /// The time of last access was recorded, or recording it failed (which only
    /// gets logged).
    RecordTouched,
    /// Whether the database holds the file (`Err`: the database failed).
    Exists(Result<bool, ()>),
    /// Whether the stored file could be opened.
    Opened(bool),
    /// The size of the opened file in bytes (0 when it cannot be read).
    Measured(u64),
    /// The whole content of the file.
    ReadWhole(Result<Vec<u8>, ()>),
    /// Whether the file could be opened again.
    Reopened(bool),
}

/// The reply to a download.
pub enum FetchReply {
    /// Serve these bytes from the cache.
    Cached(Arc<Bytes>),
    /// Put these bytes in the cache under the file's id, then serve them.
    CacheAndServe(Vec<u8>),
    /// Stream the opened file.
    Stream,
    Refused(Failure),
}

/// What the server has to do next.
pub enum FetchAction {
    LookUpCache,
    /// Record in the database that the file was accessed now.
    TouchRecord,
    CheckExists,
    OpenFile,
    MeasureFile,
    /// Read the whole opened file, expecting about this many bytes.
    ReadWhole(u64),
    Reopen,
    /// Send the reply; the download is over.
    Finish(FetchReply),
}

/// The abstract state of a download.
pub struct FetchModel {
    pub phase: FetchPhase,
    /// The requested id.
    pub id: Seq<char>,
    /// The largest file the cache takes, when there is a cache.
    pub cache_limit: Option<usize>,
    /// The bytes found in the cache, if any.
    pub cached: Option<Seq<u8>>,
}

impl FetchModel {
    /// Only well-formed ids get past the start; cached bytes are held exactly
    /// while they are about to be served.
    pub open spec fn valid(self) -> bool {
        &&& (self.phase != FetchPhase::Finished ==> valid_id(self.id))
        &&& (self.phase == FetchPhase::LookingInCache ==> self.cache_limit is Some)
        &&& (self.cached is Some <==> self.phase == FetchPhase::TouchingCached)
    }
}

/// A file goes to the cache only when there is one, and the file is non-empty
/// and no larger than what the cache takes.
pub open spec fn cacheable(cache_limit: Option<usize>, size: u64) -> bool {
    cache_limit matches Some(limit) && 0 < size && size <= limit
}

/// The download ends with this reply.
pub open spec fn fetch_ends(s: FetchModel, t: FetchModel, a: FetchAction) -> bool {
    &&& t == FetchModel { phase: FetchPhase::Finished, cached: None, ..s }
    &&& a is Finish
}

/// The download ends refused with this failure.
pub open spec fn fetch_refused(s: FetchModel, t: FetchModel, a: FetchAction, f: Failure) -> bool {
    fetch_ends(s, t, a) && (a matches FetchAction::Finish(FetchReply::Refused(g)) && g == f)
}

/// The download moves on to `phase`, everything else unchanged.
pub open spec fn fetch_moves(s: FetchModel, t: FetchModel, phase: FetchPhase) -> bool {
    t == FetchModel { phase, ..s }
}

/// How a download begins.
pub open spec fn fetch_start(id: Seq<char>, cache_limit: Option<usize>, t: FetchModel, a: FetchAction) -> bool {
    &&& t.id == id
    &&& t.cache_limit == cache_limit
    &&& t.cached is None
    &&& if !valid_id(id) {
        t.phase == FetchPhase::Finished && (a matches FetchAction::Finish(FetchReply::Refused(f))
            && f == Failure::NotFound)
    } else if cache_limit is Some {
        t.phase == FetchPhase::LookingInCache && a is LookUpCache
    } else {
        t.phase == FetchPhase::CheckingExists && a is CheckExists
    }
}

/// The download's answer to one event. An event that does not answer the
/// action last handed out ends the download as a read failure.
pub open spec fn fetch_step(s: FetchModel, e: FetchEvent, t: FetchModel, a: FetchAction) -> bool {
    match (s.phase, e) {
        (FetchPhase::LookingInCache, FetchEvent::CacheLookup(hit)) => match hit {
            Some(data) => {
                &&& t == FetchModel { phase: FetchPhase::TouchingCached, cached: Some(bytes_contents(*data)), ..s }
                &&& a is TouchRecord
            },
            None => fetch_moves(s, t, FetchPhase::CheckingExists) && a is CheckExists,
        },
        (FetchPhase::TouchingCached, FetchEvent::RecordTouched) => {
            &&& fetch_ends(s, t, a)
            &&& a matches FetchAction::Finish(FetchReply::Cached(d)) && s.cached == Some(bytes_contents(*d))
        },
        (FetchPhase::CheckingExists, FetchEvent::Exists(r)) => match r {
            Err(_) => fetch_refused(s, t, a, Failure::CheckFailed),
            Ok(false) => fetch_refused(s, t, a, Failure::NotFound),
            Ok(true) => fetch_moves(s, t, FetchPhase::Opening) && a is OpenFile,
        },
        (FetchPhase::Opening, FetchEvent::Opened(ok)) =>
            if ok {
                fetch_moves(s, t, FetchPhase::TouchingOpened) && a is TouchRecord
            } else {
                fetch_refused(s, t, a, Failure::ReadFailed)
            },
        (FetchPhase::TouchingOpened, FetchEvent::RecordTouched) =>
            fetch_moves(s, t, FetchPhase::Measuring) && a is MeasureFile,
        (FetchPhase::Measuring, FetchEvent::Measured(size)) =>
            if cacheable(s.cache_limit, size) {
                fetch_moves(s, t, FetchPhase::Reading) && (a matches FetchAction::ReadWhole(n) && n == size)
            } else {
                fetch_ends(s, t, a) && (a matches FetchAction::Finish(FetchReply::Stream))
            },
        (FetchPhase::Reading, FetchEvent::ReadWhole(r)) => match r {
            Ok(data) => fetch_ends(s, t, a) && (a matches FetchAction::Finish(FetchReply::CacheAndServe(d))
                && d@ == data@),
            Err(_) => fetch_moves(s, t, FetchPhase::Reopening) && a is Reopen,
        },
        (FetchPhase::Reopening, FetchEvent::Reopened(ok)) =>
            if ok {
                fetch_ends(s, t, a) && (a matches FetchAction::Finish(FetchReply::Stream))
            } else {
                fetch_refused(s, t, a, Failure::ReadFailed)
            },
        _ => fetch_refused(s, t, a, Failure::ReadFailed),
    }
}

/// Once the opened file is measured, it is read whole (to go to the cache)
/// exactly when there is a cache and the file is non-empty and no larger than
/// what the cache takes; otherwise it is streamed from disk.
pub proof fn law_cache_decision(s: FetchModel, size: u64, t: FetchModel, a: FetchAction)
    requires
        s.phase == FetchPhase::Measuring,
        fetch_step(s, FetchEvent::Measured(size), t, a),
    ensures
        (s.cache_limit matches Some(limit) && 0 < size && size <= limit) ==> (a matches FetchAction::ReadWhole(n)
            && n == size && t.phase == FetchPhase::Reading),
        !(s.cache_limit matches Some(limit) && 0 < size && size <= limit) ==> (a matches FetchAction::Finish(
            FetchReply::Stream,
        ) && t.phase == FetchPhase::Finished),
{
}

/// Only a file the cache can take is read whole and handed to the cache.
pub proof fn law_only_small_files_are_cached(s: FetchModel, e: FetchEvent, t: FetchModel, a: FetchAction)
    requires
        s.valid(),
        fetch_step(s, e, t, a),
        a is ReadWhole,
    ensures
        cacheable(s.cache_limit, a->ReadWhole_0),
        s.cache_limit is Some,
{
}

/// What is served from the cache is what the cache handed over, and the disk is
/// not touched for it.
pub proof fn law_cache_hits_served_from_memory(s: FetchModel, e1: FetchEvent, m: FetchModel, a1: FetchAction, e2: FetchEvent, t: FetchModel, a2: FetchAction)
    requires
        s.valid(),
        s.phase == FetchPhase::LookingInCache,
        e1 matches FetchEvent::CacheLookup(Some(_)),
        fetch_step(s, e1, m, a1),
        e2 is RecordTouched,
        fetch_step(m, e2, t, a2),
    ensures
        a1 is TouchRecord,
        a2 matches FetchAction::Finish(FetchReply::Cached(d))
            && bytes_contents(*d) == bytes_contents(*e1->CacheLookup_0.unwrap()),
{
}

/// A download goes ahead exactly for ids of five characters, each an ASCII
/// digit or an upper- or lowercase ASCII letter: to the cache when there is
/// one, to the database otherwise. Any other id is answered as not found.
pub proof fn law_download_accepts_exactly_well_formed_ids(
    id: Seq<char>,
    cache_limit: Option<usize>,
    t: FetchModel,
    a: FetchAction,
)
    requires
        fetch_start(id, cache_limit, t, a),
    ensures
        ({
            let well_formed = id.len() == 5 && forall|i: int|
                0 <= i < id.len() ==> ('0' <= #[trigger] id[i] && id[i] <= '9') || ('A' <= id[i] && id[i] <= 'Z')
                    || ('a' <= id[i] && id[i] <= 'z');
            &&& well_formed && cache_limit is Some ==> a is LookUpCache && t.phase == FetchPhase::LookingInCache
            &&& well_formed && cache_limit is None ==> a is CheckExists && t.phase == FetchPhase::CheckingExists
            &&& !well_formed ==> (a matches FetchAction::Finish(FetchReply::Refused(f)) && f == Failure::NotFound)
                && t.phase == FetchPhase::Finished
        }),
{
}

/// A download the database cannot answer fails as a check failure, one of a
/// file it does not hold is not found, and one whose file cannot be opened
/// fails as a read failure; a file that exists and opens is read.
pub proof fn law_fetch_lookup_outcomes(s: FetchModel, e: FetchEvent, t: FetchModel, a: FetchAction)
    requires
        s.phase == FetchPhase::CheckingExists || s.phase == FetchPhase::Opening,
        fetch_step(s, e, t, a),
    ensures
        (s.phase == FetchPhase::CheckingExists && e matches FetchEvent::Exists(Err(_))) ==> (a matches FetchAction::Finish(
            FetchReply::Refused(f),
        ) && f == Failure::CheckFailed),
        (s.phase == FetchPhase::CheckingExists && e matches FetchEvent::Exists(Ok(false))) ==> (a matches FetchAction::Finish(
            FetchReply::Refused(f),
        ) && f == Failure::NotFound),
        (s.phase == FetchPhase::CheckingExists && e matches FetchEvent::Exists(Ok(true))) ==> a is OpenFile,
        (s.phase == FetchPhase::Opening && e matches FetchEvent::Opened(false)) ==> (a matches FetchAction::Finish(
            FetchReply::Refused(f),
        ) && f == Failure::ReadFailed),
        (s.phase == FetchPhase::Opening && e matches FetchEvent::Opened(true)) ==> a is TouchRecord,
{
}

/// A file that is neither cached nor recorded (as after a delete, which drops
/// both) is answered as not found, without opening anything on disk.
pub proof fn law_deleted_file_not_served(s: FetchModel, m: FetchModel, a1: FetchAction, t: FetchModel, a2: FetchAction)
    requires
        s.valid(),
        s.phase == FetchPhase::LookingInCache,
        fetch_step(s, FetchEvent::CacheLookup(None), m, a1),
        fetch_step(m, FetchEvent::Exists(Ok(false)), t, a2),
    ensures
        a1 is CheckExists,
        a2 matches FetchAction::Finish(FetchReply::Refused(f)) && f == Failure::NotFound,
{
}

/// Every state a download reaches is valid.
pub proof fn law_fetch_stays_valid(s: FetchModel, e: FetchEvent, t: FetchModel, a: FetchAction)
    requires
        s.valid(),
        fetch_step(s, e, t, a),
    ensures
        t.valid(),
{
}

/// A running download.
pub struct FetchFlow {
    phase: FetchPhase,
    id: String,
    cache_limit: Option<usize>,
    cached: Option<Arc<Bytes>>,
}

impl View for FetchFlow {
    type V = FetchModel;

    closed spec fn view(&self) -> FetchModel {
        FetchModel {
            phase: self.phase,
            id: self.id@,
            cache_limit: self.cache_limit,
            cached: match self.cached {
                Some(d) => Some(bytes_contents(*d)),
                None => None,
            },
        }
    }
}

impl FetchFlow {
    /// Begins a download of the file `id`; `cache_limit` is the largest file the
    /// cache takes, when there is a cache.
    pub fn start(id: &str, cache_limit: Option<usize>) -> (r: (FetchFlow, FetchAction))
        ensures
            r.0@.valid(),
            fetch_start(id@, cache_limit, r.0@, r.1),
    {
        let valid = is_valid_id(id);
        let phase = if !valid {
            FetchPhase::Finished
        } else if cache_limit.is_some() {
            FetchPhase::LookingInCache
        } else {
            FetchPhase::CheckingExists
        };
        let action = if !valid {
            FetchAction::Finish(FetchReply::Refused(Failure::NotFound))
        } else if cache_limit.is_some() {
            FetchAction::LookUpCache
        } else {
            FetchAction::CheckExists
        };
        (FetchFlow { phase, id: id.to_owned(), cache_limit, cached: None }, action)
    }

    /// The requested id.
    pub fn id(&self) -> (id: &str)
        ensures
            id@ == self@.id,
    {
        self.id.as_str()
    }

    fn finish(&mut self, reply: FetchReply) -> (a: FetchAction)
        requires
            old(self)@.valid(),
        ensures
            final(self)@.valid(),
            fetch_ends(old(self)@, final(self)@, a),
            a == FetchAction::Finish(reply),
    {
        self.phase = FetchPhase::Finished;
        self.cached = None;
        FetchAction::Finish(reply)
    }

    /// Takes the outcome of the last action and decides what comes next.
    pub fn step(&mut self, event: FetchEvent) -> (a: FetchAction)
        requires
            old(self)@.valid(),
        ensures
            final(self)@.valid(),
            fetch_step(old(self)@, event, final(self)@, a),
    {
        match (self.phase, event) {
            (FetchPhase::LookingInCache, FetchEvent::CacheLookup(hit)) => match hit {
                Some(data) => {
                    self.cached = Some(data);
                    self.phase = FetchPhase::TouchingCached;
                    FetchAction::TouchRecord
                },
                None => {
                    self.phase = FetchPhase::CheckingExists;
                    FetchAction::CheckExists
                },
            },
            (FetchPhase::TouchingCached, FetchEvent::RecordTouched) => {
                let mut taken = None;
                std::mem::swap(&mut taken, &mut self.cached);
                self.phase = FetchPhase::Finished;
                match taken {
                    Some(data) => FetchAction::Finish(FetchReply::Cached(data)),
                    None => FetchAction::Finish(FetchReply::Refused(Failure::ReadFailed)),
                }
            },
            (FetchPhase::CheckingExists, FetchEvent::Exists(r)) => match r {
                Err(_) => self.finish(FetchReply::Refused(Failure::CheckFailed)),
                Ok(false) => self.finish(FetchReply::Refused(Failure::NotFound)),
                Ok(true) => {
                    self.phase = FetchPhase::Opening;
                    FetchAction::OpenFile
                },
            },
            (FetchPhase::Opening, FetchEvent::Opened(ok)) => {
                if ok {
                    self.phase = FetchPhase::TouchingOpened;
                    FetchAction::TouchRecord
                } else {
                    self.finish(FetchReply::Refused(Failure::ReadFailed))
                }
            },
            (FetchPhase::TouchingOpened, FetchEvent::RecordTouched) => {
                self.phase = FetchPhase::Measuring;
                FetchAction::MeasureFile
            },
            (FetchPhase::Measuring, FetchEvent::Measured(size)) => {
                let fits = match self.cache_limit {
                    Some(limit) => size > 0 && size <= limit as u64,
                    None => false,
                };
                if fits {
                    self.phase = FetchPhase::Reading;
                    FetchAction::ReadWhole(size)
                } else {
                    self.finish(FetchReply::Stream)
                }
            },
            (FetchPhase::Reading, FetchEvent::ReadWhole(r)) => match r {
                Ok(data) => self.finish(FetchReply::CacheAndServe(data)),
                Err(_) => {
                    self.phase = FetchPhase::Reopening;
                    FetchAction::Reopen
                },
            },
            (FetchPhase::Reopening, FetchEvent::Reopened(ok)) => {
                if ok {
                    self.finish(FetchReply::Stream)
                } else {
                    self.finish(FetchReply::Refused(Failure::ReadFailed))
                }
            },
            _ => self.finish(FetchReply::Refused(Failure::ReadFailed)),
        }
    }
}

} // verus!
