//! The decisions of a delete request, as a state machine: only an authorised
//! request for a well-formed id of an existing file gets its database record
//! deleted, its cached copy dropped, and its stored file removed, so that a
//! deleted file is served neither from memory nor from disk.
use vstd::prelude::*;
use crate::auth::{authorized, is_authorized};
use crate::ids::{is_valid_id, valid_id};
use crate::replies::Failure;
use vstd::string::StringSliceAdditionalSpecFns;

verus! {

/// What a delete request is waiting for.
#[derive(Clone, Copy, PartialEq, Eq, Structural, Debug)]
pub enum RemovalPhase {
    /// The database is asked whether the file exists.
    CheckingExists,
    /// The file's database record is being deleted.
    DeletingRecord,
    /// The file is being dropped from the in-memory cache.
    Evicting,
    /// The stored file is being removed from disk.
    RemovingFile,
    /// The reply has been given.
    Finished,
}

/// The outcome of the last action, fed back to the machine.
pub enum RemovalEvent {
    /// Whether the database holds the file (`Err`: the database failed).
    Exists(Result<bool, ()>),
    /// Whether the record was deleted.
    RecordDeleted(bool),
    /// The file is no longer in the cache (or there is no cache).
    Evicted,
    /// Whether the stored file was removed.
    FileRemoved(bool),
}

/// What the server has to do next.
#[derive(PartialEq, Eq, Structural, Debug)]
pub enum RemovalAction {
    CheckExists,
    DeleteRecord,
    /// Drop the file from the in-memory cache, if there is one.
    EvictCached,
    RemoveFile,
    /// The file is gone; reply with success.
    Deleted,
    /// Reply with this failure.
    Refused(Failure),
}

/// The abstract state of a delete request.
pub struct RemovalModel {
    pub phase: RemovalPhase,
    pub id: Seq<char>,
}

impl RemovalModel {
    /// Only well-formed ids get past the start.
    pub open spec fn valid(self) -> bool {
        self.phase != RemovalPhase::Finished ==> valid_id(self.id)
    }
}

/// How a delete request begins: refused without the configured token, then
/// refused as not found for an ill-formed id, otherwise the database is asked.
pub open spec fn removal_start(
    token: Option<Seq<u8>>,
    authorization: Option<Seq<u8>>,
    id: Seq<char>,
    t: RemovalModel,
    a: RemovalAction,
) -> bool {
    &&& t.id == id
    &&& if !authorized(token, authorization) {
        t.phase == RemovalPhase::Finished && a == RemovalAction::Refused(Failure::NotAllowed)
    } else if !valid_id(id) {
        t.phase == RemovalPhase::Finished && a == RemovalAction::Refused(Failure::NotFound)
    } else {
        t.phase == RemovalPhase::CheckingExists && a == RemovalAction::CheckExists
    }
}

/// The caller is checked before anything else: with a token configured, a
/// request goes on only when its `Authorization` header is exactly the bytes of
/// `Bearer ` followed by the token, and is refused as not allowed otherwise,
/// whatever the id; without a token every caller is let through. A caller let
/// through with a well-formed id gets the existence check.
pub proof fn law_delete_authorization(
    token: Option<Seq<u8>>,
    authorization: Option<Seq<u8>>,
    id: Seq<char>,
    t: RemovalModel,
    a: RemovalAction,
)
    requires
        removal_start(token, authorization, id, t, a),
    ensures
        ({
            let let_through = match token {
                None => true,
                Some(tok) => authorization == Some(seq![66u8, 101u8, 97u8, 114u8, 101u8, 114u8, 32u8] + tok),
            };
            &&& !let_through ==> a == RemovalAction::Refused(Failure::NotAllowed)
            &&& let_through ==> a != RemovalAction::Refused(Failure::NotAllowed)
            &&& let_through && valid_id(id) ==> a == RemovalAction::CheckExists
                && t.phase == RemovalPhase::CheckingExists
            &&& let_through && !valid_id(id) ==> a == RemovalAction::Refused(Failure::NotFound)
        }),
{
}

/// Each failure of a delete is answered: a database that cannot say whether
/// the file exists as a check failure, a missing file as not found, and a
/// record or file that cannot be removed as a failed deletion.
pub proof fn law_delete_failures(s: RemovalModel, e: RemovalEvent, t: RemovalModel, a: RemovalAction)
    requires
        removal_step(s, e, t, a),
    ensures
        (s.phase == RemovalPhase::CheckingExists && e matches RemovalEvent::Exists(Err(_))) ==> a == RemovalAction::Refused(
            Failure::CheckFailed,
        ),
        (s.phase == RemovalPhase::CheckingExists && e matches RemovalEvent::Exists(Ok(false))) ==> a
            == RemovalAction::Refused(Failure::NotFound),
        (s.phase == RemovalPhase::DeletingRecord && e matches RemovalEvent::RecordDeleted(false)) ==> a
            == RemovalAction::Refused(Failure::DeleteFailed),
        (s.phase == RemovalPhase::RemovingFile && e matches RemovalEvent::FileRemoved(false)) ==> a
            == RemovalAction::Refused(Failure::DeleteFailed),
        a is Refused ==> t.phase == RemovalPhase::Finished,
{
}

/// The delete request's answer to one event. An event that does not answer the
/// action last handed out ends the request as a failed deletion.
pub open spec fn removal_step(s: RemovalModel, e: RemovalEvent, t: RemovalModel, a: RemovalAction) -> bool {
    let (phase, action) = match (s.phase, e) {
        (RemovalPhase::CheckingExists, RemovalEvent::Exists(r)) => match r {
            Err(_) => (RemovalPhase::Finished, RemovalAction::Refused(Failure::CheckFailed)),
            Ok(false) => (RemovalPhase::Finished, RemovalAction::Refused(Failure::NotFound)),
            Ok(true) => (RemovalPhase::DeletingRecord, RemovalAction::DeleteRecord),
        },
        (RemovalPhase::DeletingRecord, RemovalEvent::RecordDeleted(ok)) =>
            if ok {
                (RemovalPhase::Evicting, RemovalAction::EvictCached)
            } else {
                (RemovalPhase::Finished, RemovalAction::Refused(Failure::DeleteFailed))
            },
        (RemovalPhase::Evicting, RemovalEvent::Evicted) => (RemovalPhase::RemovingFile, RemovalAction::RemoveFile),
        (RemovalPhase::RemovingFile, RemovalEvent::FileRemoved(ok)) =>
            if ok {
                (RemovalPhase::Finished, RemovalAction::Deleted)
            } else {
                (RemovalPhase::Finished, RemovalAction::Refused(Failure::DeleteFailed))
            },
        _ => (RemovalPhase::Finished, RemovalAction::Refused(Failure::DeleteFailed)),
    };
    t == RemovalModel { phase, ..s } && a == action
}

/// A record is deleted only for a well-formed id the database said exists.
pub proof fn law_records_deleted_only_when_found(s: RemovalModel, e: RemovalEvent, t: RemovalModel, a: RemovalAction)
    requires
        s.valid(),
        removal_step(s, e, t, a),
        a == RemovalAction::DeleteRecord,
    ensures
        valid_id(s.id),
        s.phase == RemovalPhase::CheckingExists,
        e == RemovalEvent::Exists(Ok(true)),
{
}

/// The cached copy is dropped as soon as the record is gone, and before the
/// stored file is removed: from then on a download neither finds the file in the
/// cache nor in the database.
pub proof fn law_eviction_follows_record_deletion(s: RemovalModel, e: RemovalEvent, t: RemovalModel, a: RemovalAction)
    requires
        removal_step(s, e, t, a),
        a == RemovalAction::EvictCached || a == RemovalAction::RemoveFile,
    ensures
        a == RemovalAction::EvictCached ==> s.phase == RemovalPhase::DeletingRecord && e == RemovalEvent::RecordDeleted(true),
        a == RemovalAction::RemoveFile ==> s.phase == RemovalPhase::Evicting && e == RemovalEvent::Evicted,
{
}

/// A delete of an id the database does not hold (such as one deleted before)
/// is answered as not found and asks for nothing more: no record, cache entry
/// or file is touched.
pub proof fn law_delete_of_missing_file_changes_nothing(s: RemovalModel, t: RemovalModel, a: RemovalAction)
    requires
        s.phase == RemovalPhase::CheckingExists,
        removal_step(s, RemovalEvent::Exists(Ok(false)), t, a),
    ensures
        a == RemovalAction::Refused(Failure::NotFound),
        t.phase == RemovalPhase::Finished,
{
}

/// Success is only reported once the record, the cached copy and the stored
/// file are all gone: it answers the removal of the file, which comes after the
/// eviction, which comes after the record's deletion.
pub proof fn law_success_after_both_removed(s: RemovalModel, e: RemovalEvent, t: RemovalModel, a: RemovalAction)
    requires
        removal_step(s, e, t, a),
        a == RemovalAction::Deleted,
    ensures
        s.phase == RemovalPhase::RemovingFile,
        e == RemovalEvent::FileRemoved(true),
{
}

/// A running delete request.
pub struct RemovalFlow {
    phase: RemovalPhase,
    id: String,
}

impl View for RemovalFlow {
    type V = RemovalModel;

    closed spec fn view(&self) -> RemovalModel {
        RemovalModel { phase: self.phase, id: self.id@ }
    }
}

impl RemovalFlow {
    /// Begins a delete request for the file `id`.
    pub fn start(token: Option<&str>, authorization: Option<&str>, id: &str) -> (r: (RemovalFlow, RemovalAction))
        ensures
            r.0@.valid(),
            removal_start(
                match token { Some(t) => Some(t.spec_bytes()), None => None },
                match authorization { Some(h) => Some(h.spec_bytes()), None => None },
                id@,
                r.0@,
                r.1,
            ),
    {
        let (phase, action) = if !is_authorized(token, authorization) {
            (RemovalPhase::Finished, RemovalAction::Refused(Failure::NotAllowed))
        } else if !is_valid_id(id) {
            (RemovalPhase::Finished, RemovalAction::Refused(Failure::NotFound))
        } else {
            (RemovalPhase::CheckingExists, RemovalAction::CheckExists)
        };
        (RemovalFlow { phase, id: id.to_owned() }, action)
    }

    /// The requested id.
    pub fn id(&self) -> (id: &str)
        ensures
            id@ == self@.id,
    {
        self.id.as_str()
    }

    /// Takes the outcome of the last action and decides what comes next.
    pub fn step(&mut self, event: RemovalEvent) -> (a: RemovalAction)
        requires
            old(self)@.valid(),
        ensures
            final(self)@.valid(),
            removal_step(old(self)@, event, final(self)@, a),
    {
        let (phase, action) = match (self.phase, event) {
            (RemovalPhase::CheckingExists, RemovalEvent::Exists(r)) => match r {
                Err(_) => (RemovalPhase::Finished, RemovalAction::Refused(Failure::CheckFailed)),
                Ok(false) => (RemovalPhase::Finished, RemovalAction::Refused(Failure::NotFound)),
                Ok(true) => (RemovalPhase::DeletingRecord, RemovalAction::DeleteRecord),
            },
            (RemovalPhase::DeletingRecord, RemovalEvent::RecordDeleted(ok)) => {
                if ok {
                    (RemovalPhase::Evicting, RemovalAction::EvictCached)
                } else {
                    (RemovalPhase::Finished, RemovalAction::Refused(Failure::DeleteFailed))
                }
            },
            (RemovalPhase::Evicting, RemovalEvent::Evicted) => (RemovalPhase::RemovingFile, RemovalAction::RemoveFile),
            (RemovalPhase::RemovingFile, RemovalEvent::FileRemoved(ok)) => {
                if ok {
                    (RemovalPhase::Finished, RemovalAction::Deleted)
                } else {
                    (RemovalPhase::Finished, RemovalAction::Refused(Failure::DeleteFailed))
                }
            },
            _ => (RemovalPhase::Finished, RemovalAction::Refused(Failure::DeleteFailed)),
        };
        self.phase = phase;
        action
    }
}

} // verus!
