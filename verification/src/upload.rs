//! The decisions of an upload, as a state machine: the server performs each
//! action it is handed (a database query, a read from the request, a write to
//! disk, ...) and feeds the outcome back as the next event, until the machine
//! hands back the reply.
//!
//! An upload is either a `file` field of a multipart form, streamed to a
//! temporary file, or a `link` field whose target is downloaded the same way.
//! Every chunk is counted against the file-size limit and the storage left,
//! and hashed; a file whose content is already stored is answered with the
//! existing id instead of being stored twice.
use vstd::prelude::*;
use sha2::Sha256;
use crate::auth::{authorized, is_authorized};
use crate::db::File;
use crate::digest::{finish_hex, hashed_input, hasher_new, hasher_update, hex_lower, sha256};
use crate::ids::{is_valid_id, valid_id};
use crate::replies::Failure;
use crate::text::same_text;
use vstd::string::StringSliceAdditionalSpecFns;

verus! {

/// The configured limits an upload is held to (in bytes; a storage limit of 0
/// means unlimited storage).
#[derive(Clone, Copy, PartialEq, Eq, Structural, Debug)]
pub struct UploadLimits {
    pub max_file_size: u64,
    pub max_storage_limit: u64,
}

/// Where the uploaded bytes come from.
#[derive(Clone, Copy, PartialEq, Eq, Structural, Debug)]
pub enum Source {
    /// The `file` field of the form.
    Form,
    /// The response to a download of the `link` field.
    Link,
}

/// What the upload is waiting for.
#[derive(Clone, Copy, PartialEq, Eq, Structural, Debug)]
pub enum UploadPhase {
    /// The temporary directory is being created.
    Preparing,
    /// A random candidate id is being drawn.
    DrawingId,
    /// The database is asked whether the candidate id is taken.
    CheckingId,
    /// The database is asked for the total size stored, to know the room left.
    MeasuringStorage,
    /// The next field of the form is awaited.
    AwaitingField,
    /// The text of the `link` field is awaited.
    ReadingLink,
    /// The download of the link is awaited.
    Downloading,
    /// The temporary file is being created.
    CreatingFile(Source),
    /// The next chunk of content is awaited.
    ReadingChunk(Source),
    /// The last chunk is being written to the temporary file.
    WritingChunk(Source),
    /// The database is asked for the total size stored, once the content is complete.
    CheckingCapacity,
    /// The database is asked whether content with this hash is stored.
    CheckingHash,
    /// The temporary file is being renamed into the storage directory.
    Moving,
    /// The temporary file is being copied into the storage directory.
    Copying,
    /// The temporary file left after copying is being removed.
    DiscardingTemp,
    /// The database is asked again, now the file is in place, whether the hash is stored.
    RecheckingHash,
    /// The file is being added to the database.
    Registering,
    /// The stored file, which the database did not take, is being removed.
    DiscardingStored,
    /// The database is asked for the id of the file already holding this content.
    FindingOriginal,
    /// The reply has been given.
    Finished,
}

/// How renaming the temporary file into storage went.
#[derive(Clone, Copy, PartialEq, Eq, Structural, Debug)]
pub enum MoveOutcome {
    Moved,
    /// Storage is on another device, so the file has to be copied.
    CrossesDevices,
    Failed,
}

/// What the server has to clean up before replying.
#[derive(Clone, Copy, PartialEq, Eq, Structural, Debug)]
pub enum Cleanup {
    Nothing,
    /// Remove the temporary file.
    TempFile,
    /// Remove the file placed in the storage directory.
    StoredFile,
}

/// The outcome of the last action, fed back to the machine.
pub enum UploadEvent {
    /// Whether the temporary directory exists now.
    TempDirReady(bool),
    /// The candidate id drawn (`None`: no randomness could be had).
    IdDrawn(Option<String>),
    /// Whether the candidate id is taken (`Err`: the database failed).
    IdChecked(Result<bool, ()>),
    /// The total size of the stored files.
    TotalSize(u64),
    /// The name of the next form field (empty when it has none), or `None` after
    /// the last field.
    Field(Result<Option<String>, ()>),
    /// The text of the `link` field.
    LinkText(Result<String, ()>),
    /// Whether the link answered with a success status.
    Downloaded(bool),
    /// Whether the temporary file was created.
    FileCreated(bool),
    /// The next chunk of content, or `None` at its end.
    Chunk(Result<Option<Vec<u8>>, ()>),
    /// Whether the chunk was written.
    ChunkWritten(bool),
    Moved(MoveOutcome),
    /// Whether the copy into storage succeeded.
    Copied(bool),
    TempDiscarded,
    /// The id of the file stored with this hash, if any.
    HashFound(Result<Option<String>, ()>),
    /// Whether the database added the file.
    Registered(Result<bool, ()>),
    StoredDiscarded,
}

/// The reply to an upload.
pub enum UploadReply {
    /// The content is stored under `id`; `created` when it was stored just now.
    Stored { id: String, created: bool },
    Refused(Failure),
}

/// What the server has to do next.
pub enum UploadAction {
    CreateTempDir,
    /// Draw a random candidate id (with `ids::generate_id`).
    DrawId,
    /// Ask the database whether a file has this id.
    CheckId(String),
    /// Ask the database for the total size of the stored files.
    QueryTotalSize,
    /// Read the next field of the form.
    NextField,
    /// Read the `link` field as text.
    ReadLinkText,
    /// Start downloading this link.
    Download(String),
    CreateTempFile,
    /// Read the next chunk from this source.
    ReadChunk(Source),
    /// Append these bytes to the temporary file.
    WriteChunk(Vec<u8>),
    /// Rename the temporary file to the file's place in storage.
    MoveIntoStorage,
    /// Copy the temporary file to the file's place in storage.
    CopyIntoStorage,
    DiscardTempFile,
    /// Ask the database which file has this hash.
    FindHash(String),
    /// Add this file to the database.
    Register(File),
    DiscardStoredFile,
    /// Clean up, then send the reply; the upload is over.
    Finish { reply: UploadReply, cleanup: Cleanup },
}

/// The abstract state of an upload.
pub struct UploadModel {
    pub phase: UploadPhase,
    pub limits: UploadLimits,
    /// The id the file is stored under (empty until one is drawn).
    pub id: Seq<char>,
    /// The room left in storage, when storage is limited.
    pub storage_left: Option<u64>,
    /// The number of bytes accepted so far.
    pub size: u64,
    /// The bytes accepted so far, in order.
    pub received: Seq<u8>,
    /// The hex SHA-256 of the content, once it is complete.
    pub hash: Seq<char>,
}

/// The phases in which the content is complete and hashed.
pub open spec fn content_complete(phase: UploadPhase) -> bool {
    match phase {
        UploadPhase::CheckingCapacity | UploadPhase::CheckingHash | UploadPhase::Moving
        | UploadPhase::Copying | UploadPhase::DiscardingTemp | UploadPhase::RecheckingHash
        | UploadPhase::Registering | UploadPhase::DiscardingStored | UploadPhase::FindingOriginal => true,
        _ => false,
    }
}

/// The phases before any content is read.
pub open spec fn before_content(phase: UploadPhase) -> bool {
    match phase {
        UploadPhase::Preparing | UploadPhase::DrawingId | UploadPhase::CheckingId | UploadPhase::MeasuringStorage
        | UploadPhase::AwaitingField | UploadPhase::ReadingLink | UploadPhase::Downloading
        | UploadPhase::CreatingFile(_) => true,
        _ => false,
    }
}

/// The file an upload has left on disk in each phase, which a failure removes.
pub open spec fn leftover(phase: UploadPhase) -> Cleanup {
    match phase {
        UploadPhase::ReadingChunk(_) | UploadPhase::WritingChunk(_) | UploadPhase::CheckingCapacity
        | UploadPhase::CheckingHash | UploadPhase::Moving | UploadPhase::Copying
        | UploadPhase::DiscardingTemp => Cleanup::TempFile,
        UploadPhase::RecheckingHash | UploadPhase::Registering => Cleanup::StoredFile,
        _ => Cleanup::Nothing,
    }
}

/// The file an upload has left on disk in this phase.
fn leftover_in(phase: UploadPhase) -> (c: Cleanup)
    ensures
        c == leftover(phase),
{
    match phase {
        UploadPhase::ReadingChunk(_) | UploadPhase::WritingChunk(_) | UploadPhase::CheckingCapacity
        | UploadPhase::CheckingHash | UploadPhase::Moving | UploadPhase::Copying
        | UploadPhase::DiscardingTemp => Cleanup::TempFile,
        UploadPhase::RecheckingHash | UploadPhase::Registering => Cleanup::StoredFile,
        _ => Cleanup::Nothing,
    }
}

impl UploadModel {
    /// What holds in every state of an upload: the count matches the bytes
    /// accepted, which never exceed the file-size limit nor the storage left; an
    /// id, once drawn, is well formed; a complete content's hash is that of the
    /// bytes accepted.
    pub open spec fn valid(self) -> bool {
        &&& self.received.len() == self.size
        &&& (before_content(self.phase) ==> self.size == 0)
        &&& self.size <= self.limits.max_file_size
        &&& (self.storage_left matches Some(left) ==> self.size <= left)
        &&& (self.id.len() > 0 ==> valid_id(self.id))
        &&& (self.phase != UploadPhase::Preparing && self.phase != UploadPhase::DrawingId
            && self.phase != UploadPhase::Finished ==> valid_id(self.id))
        &&& (content_complete(self.phase) ==> self.hash == hex_lower(sha256(self.received)))
    }
}

/// The upload ends with this failure, after this cleanup.
pub open spec fn ends_refused(s: UploadModel, t: UploadModel, a: UploadAction, f: Failure, c: Cleanup) -> bool {
    &&& t == UploadModel { phase: UploadPhase::Finished, ..s }
    &&& a matches UploadAction::Finish { reply: UploadReply::Refused(g), cleanup } && g == f && cleanup == c
}

/// The upload ends with the content stored under `id`, after this cleanup.
pub open spec fn ends_stored(
    s: UploadModel,
    t: UploadModel,
    a: UploadAction,
    id: Seq<char>,
    created: bool,
    c: Cleanup,
) -> bool {
    &&& t == UploadModel { phase: UploadPhase::Finished, ..s }
    &&& a matches UploadAction::Finish { reply: UploadReply::Stored { id: i, created: k }, cleanup }
        && i@ == id && k == created && cleanup == c
}

/// The upload moves on to `phase`, everything else unchanged.
pub open spec fn moves_to(s: UploadModel, t: UploadModel, phase: UploadPhase) -> bool {
    t == UploadModel { phase, ..s }
}

/// A fresh id is drawn next.
pub open spec fn draws_id(s: UploadModel, t: UploadModel, a: UploadAction) -> bool {
    moves_to(s, t, UploadPhase::DrawingId) && a is DrawId
}

/// The hash of the complete content is looked up next, in `phase`.
pub open spec fn finds_hash(s: UploadModel, t: UploadModel, a: UploadAction, phase: UploadPhase) -> bool {
    &&& moves_to(s, t, phase)
    &&& a matches UploadAction::FindHash(h) && h@ == s.hash
}

/// The upload's answer to one event: `t` is the state after `s`, and `a` the
/// action to perform. An event that does not answer the action last handed out
/// ends the upload as a failure on the server's side.
pub open spec fn upload_step(s: UploadModel, e: UploadEvent, t: UploadModel, a: UploadAction) -> bool {
    match (s.phase, e) {
        (UploadPhase::Preparing, UploadEvent::TempDirReady(ready)) =>
            if ready { draws_id(s, t, a) } else { ends_refused(s, t, a, Failure::UploadFailed, Cleanup::Nothing) },
        (UploadPhase::DrawingId, UploadEvent::IdDrawn(drawn)) => match drawn {
            Some(id) => if valid_id(id@) {
                &&& t == UploadModel { phase: UploadPhase::CheckingId, id: id@, ..s }
                &&& a matches UploadAction::CheckId(i) && i@ == id@
            } else {
                ends_refused(s, t, a, Failure::UploadFailed, Cleanup::Nothing)
            },
            None => ends_refused(s, t, a, Failure::UploadFailed, Cleanup::Nothing),
        },
        (UploadPhase::CheckingId, UploadEvent::IdChecked(r)) => match r {
            Err(_) => ends_refused(s, t, a, Failure::UploadFailed, Cleanup::Nothing),
            Ok(true) => draws_id(s, t, a),
            Ok(false) => if s.limits.max_storage_limit == 0 {
                &&& t == UploadModel { phase: UploadPhase::AwaitingField, storage_left: None, ..s }
                &&& a is NextField
            } else {
                &&& moves_to(s, t, UploadPhase::MeasuringStorage)
                &&& a is QueryTotalSize
            },
        },
        (UploadPhase::MeasuringStorage, UploadEvent::TotalSize(total)) => {
            &&& t == UploadModel {
                phase: UploadPhase::AwaitingField,
                storage_left: Some(s.limits.max_storage_limit.saturating_sub(total)),
                ..s
            }
            &&& a is NextField
        },
        (UploadPhase::AwaitingField, UploadEvent::Field(r)) => match r {
            Err(_) => ends_refused(s, t, a, Failure::BadForm, Cleanup::Nothing),
            Ok(None) => ends_refused(s, t, a, Failure::NothingSent, Cleanup::Nothing),
            Ok(Some(name)) => if name@ == "file"@ {
                moves_to(s, t, UploadPhase::CreatingFile(Source::Form)) && a is CreateTempFile
            } else if name@ == "link"@ {
                moves_to(s, t, UploadPhase::ReadingLink) && a is ReadLinkText
            } else {
                moves_to(s, t, UploadPhase::AwaitingField) && a is NextField
            },
        },
        (UploadPhase::ReadingLink, UploadEvent::LinkText(r)) => match r {
            Err(_) => ends_refused(s, t, a, Failure::BadLinkField, Cleanup::Nothing),
            Ok(link) => moves_to(s, t, UploadPhase::Downloading)
                && (a matches UploadAction::Download(l) && l@ == link@),
        },
        (UploadPhase::Downloading, UploadEvent::Downloaded(ok)) =>
            if ok {
                moves_to(s, t, UploadPhase::CreatingFile(Source::Link)) && a is CreateTempFile
            } else {
                ends_refused(s, t, a, Failure::DownloadFailed, Cleanup::Nothing)
            },
        (UploadPhase::CreatingFile(src), UploadEvent::FileCreated(ok)) =>
            if ok {
                moves_to(s, t, UploadPhase::ReadingChunk(src)) && (a matches UploadAction::ReadChunk(x) && x == src)
            } else {
                ends_refused(s, t, a, Failure::UploadFailed, Cleanup::Nothing)
            },
        (UploadPhase::ReadingChunk(src), UploadEvent::Chunk(r)) => match r {
            Err(_) => ends_refused(
                s,
                t,
                a,
                if src == Source::Form { Failure::BadFileData } else { Failure::DownloadFailed },
                Cleanup::TempFile,
            ),
            Ok(None) => {
                let done = UploadModel { hash: hex_lower(sha256(s.received)), ..s };
                if s.limits.max_storage_limit > 0 {
                    moves_to(done, t, UploadPhase::CheckingCapacity) && a is QueryTotalSize
                } else {
                    finds_hash(done, t, a, UploadPhase::CheckingHash)
                }
            },
            Ok(Some(data)) => {
                let n = s.size + data@.len();
                if n > s.limits.max_file_size {
                    ends_refused(
                        s,
                        t,
                        a,
                        Failure::TooLarge { limit_mb: s.limits.max_file_size / 1024 / 1024 },
                        Cleanup::TempFile,
                    )
                } else if s.storage_left matches Some(left) && n > left {
                    ends_refused(s, t, a, Failure::StorageFull, Cleanup::TempFile)
                } else {
                    &&& t == UploadModel {
                        phase: UploadPhase::WritingChunk(src),
                        size: n as u64,
                        received: s.received + data@,
                        ..s
                    }
                    &&& a matches UploadAction::WriteChunk(d) && d@ == data@
                }
            },
        },
        (UploadPhase::WritingChunk(src), UploadEvent::ChunkWritten(ok)) =>
            if ok {
                moves_to(s, t, UploadPhase::ReadingChunk(src)) && (a matches UploadAction::ReadChunk(x) && x == src)
            } else {
                ends_refused(s, t, a, Failure::UploadFailed, Cleanup::TempFile)
            },
        (UploadPhase::CheckingCapacity, UploadEvent::TotalSize(total)) =>
            if total.saturating_add(s.size) > s.limits.max_storage_limit {
                ends_refused(s, t, a, Failure::StorageFull, Cleanup::TempFile)
            } else {
                finds_hash(s, t, a, UploadPhase::CheckingHash)
            },
        (UploadPhase::CheckingHash, UploadEvent::HashFound(r)) => match r {
            Err(_) => ends_refused(s, t, a, Failure::UploadFailed, Cleanup::TempFile),
            Ok(Some(existing)) => ends_stored(s, t, a, existing@, false, Cleanup::TempFile),
            Ok(None) => moves_to(s, t, UploadPhase::Moving) && a is MoveIntoStorage,
        },
        (UploadPhase::Moving, UploadEvent::Moved(m)) => match m {
            MoveOutcome::Moved => finds_hash(s, t, a, UploadPhase::RecheckingHash),
            MoveOutcome::CrossesDevices => moves_to(s, t, UploadPhase::Copying) && a is CopyIntoStorage,
            MoveOutcome::Failed => ends_refused(s, t, a, Failure::UploadFailed, Cleanup::TempFile),
        },
        (UploadPhase::Copying, UploadEvent::Copied(ok)) =>
            if ok {
                moves_to(s, t, UploadPhase::DiscardingTemp) && a is DiscardTempFile
            } else {
                ends_refused(s, t, a, Failure::UploadFailed, Cleanup::TempFile)
            },
        (UploadPhase::DiscardingTemp, UploadEvent::TempDiscarded) =>
            finds_hash(s, t, a, UploadPhase::RecheckingHash),
        (UploadPhase::RecheckingHash, UploadEvent::HashFound(r)) => match r {
            Err(_) => ends_refused(s, t, a, Failure::UploadFailed, Cleanup::StoredFile),
            Ok(Some(existing)) => ends_stored(s, t, a, existing@, false, Cleanup::StoredFile),
            Ok(None) => {
                &&& moves_to(s, t, UploadPhase::Registering)
                &&& a matches UploadAction::Register(f) && f.id@ == s.id && f.hash@ == s.hash
                    && f.size == s.size
            },
        },
        (UploadPhase::Registering, UploadEvent::Registered(r)) => match r {
            Err(_) => ends_refused(s, t, a, Failure::UploadFailed, Cleanup::StoredFile),
            Ok(true) => ends_stored(s, t, a, s.id, true, Cleanup::Nothing),
            Ok(false) => moves_to(s, t, UploadPhase::DiscardingStored) && a is DiscardStoredFile,
        },
        (UploadPhase::DiscardingStored, UploadEvent::StoredDiscarded) =>
            finds_hash(s, t, a, UploadPhase::FindingOriginal),
        (UploadPhase::FindingOriginal, UploadEvent::HashFound(r)) => match r {
            Ok(Some(existing)) => ends_stored(s, t, a, existing@, false, Cleanup::Nothing),
            _ => ends_stored(s, t, a, s.id, false, Cleanup::Nothing),
        },
        _ => ends_refused(s, t, a, Failure::UploadFailed, leftover(s.phase)),
    }
}

/// Every state an upload reaches is valid: the bytes accepted never exceed the
/// file-size limit nor the storage left, the id is well formed once drawn, and a
/// complete content's hash is that of the bytes accepted.
pub proof fn law_upload_stays_valid(s: UploadModel, e: UploadEvent, t: UploadModel, a: UploadAction)
    requires
        s.valid(),
        upload_step(s, e, t, a),
    ensures
        t.valid(),
{
}

/// Every chunk handed out for writing is exactly the chunk received, and with it
/// the upload is still within the file-size limit and the storage left.
pub proof fn law_written_chunks_fit(s: UploadModel, e: UploadEvent, t: UploadModel, a: UploadAction)
    requires
        s.valid(),
        upload_step(s, e, t, a),
        a is WriteChunk,
    ensures
        e matches UploadEvent::Chunk(Ok(Some(data))) && a->WriteChunk_0@ == data@,
        t.received == s.received + a->WriteChunk_0@,
        t.size <= t.limits.max_file_size,
        t.storage_left matches Some(left) ==> t.size <= left,
{
}

/// The file recorded in the database carries the upload's id, the number of
/// bytes received, and the hex SHA-256 of exactly those bytes, in order, however
/// they were split into chunks.
pub proof fn law_recorded_file_matches_content(s: UploadModel, e: UploadEvent, t: UploadModel, a: UploadAction)
    requires
        s.valid(),
        upload_step(s, e, t, a),
        a is Register,
    ensures
        valid_id(a->Register_0.id@),
        a->Register_0.id@ == s.id,
        a->Register_0.size == s.received.len(),
        a->Register_0.hash@ == hex_lower(sha256(s.received)),
{
}

/// How an upload begins: refused at once without the configured token,
/// otherwise with an empty state that prepares the temporary directory.
pub open spec fn upload_start(
    token: Option<Seq<u8>>,
    authorization: Option<Seq<u8>>,
    limits: UploadLimits,
    t: UploadModel,
    a: UploadAction,
) -> bool {
    &&& t.limits == limits
    &&& t.size == 0
    &&& t.received == Seq::<u8>::empty()
    &&& t.id == Seq::<char>::empty()
    &&& if authorized(token, authorization) {
        t.phase == UploadPhase::Preparing && a is CreateTempDir
    } else {
        &&& t.phase == UploadPhase::Finished
        &&& a matches UploadAction::Finish { reply: UploadReply::Refused(f), cleanup }
            && f == Failure::NotAllowed && cleanup == Cleanup::Nothing
    }
}

/// With a token configured, an upload goes on exactly when its `Authorization`
/// header is the bytes of `Bearer ` followed by the token, and is refused as not
/// allowed otherwise; without a token every upload goes on.
pub proof fn law_upload_authorization(
    token: Option<Seq<u8>>,
    authorization: Option<Seq<u8>>,
    limits: UploadLimits,
    t: UploadModel,
    a: UploadAction,
)
    requires
        upload_start(token, authorization, limits, t, a),
    ensures
        ({
            let let_through = match token {
                None => true,
                Some(tok) => authorization == Some(seq![66u8, 101u8, 97u8, 114u8, 101u8, 114u8, 32u8] + tok),
            };
            &&& let_through ==> a is CreateTempDir && t.phase == UploadPhase::Preparing
            &&& !let_through ==> (a matches UploadAction::Finish { reply: UploadReply::Refused(f), .. }
                && f == Failure::NotAllowed)
        }),
{
}

/// The form's fields are dispatched by name: `file` is stored from the form,
/// `link` is read and downloaded, and any other field is skipped; a form that
/// ends without either is refused as sending nothing.
pub proof fn law_fields_dispatched_by_name(s: UploadModel, r: Result<Option<String>, ()>, t: UploadModel, a: UploadAction)
    requires
        s.phase == UploadPhase::AwaitingField,
        upload_step(s, UploadEvent::Field(r), t, a),
    ensures
        r matches Ok(Some(name)) && name@ == "file"@ ==> a is CreateTempFile
            && t.phase == UploadPhase::CreatingFile(Source::Form),
        r matches Ok(Some(name)) && name@ == "link"@ ==> a is ReadLinkText && t.phase == UploadPhase::ReadingLink,
        r matches Ok(Some(name)) && name@ != "file"@ && name@ != "link"@ ==> a is NextField
            && t.phase == UploadPhase::AwaitingField,
        r matches Ok(None) ==> (a matches UploadAction::Finish { reply: UploadReply::Refused(f), .. }
            && f == Failure::NothingSent),
        r is Err ==> (a matches UploadAction::Finish { reply: UploadReply::Refused(f), .. } && f == Failure::BadForm),
{
    reveal_strlit("file");
    reveal_strlit("link");
    assert("file"@[0] != "link"@[0]);
}

/// Content already stored is never stored twice: when the database holds a
/// file with the same hash, before or after the new file is put in place, the
/// reply is that file's id, not marked as created, and the new copy is removed.
pub proof fn law_duplicate_content_answered_with_existing_id(
    s: UploadModel,
    existing: String,
    t: UploadModel,
    a: UploadAction,
)
    requires
        s.phase == UploadPhase::CheckingHash || s.phase == UploadPhase::RecheckingHash,
        upload_step(s, UploadEvent::HashFound(Ok(Some(existing))), t, a),
    ensures
        t.phase == UploadPhase::Finished,
        a matches UploadAction::Finish { reply: UploadReply::Stored { id, created }, cleanup } && id@ == existing@
            && !created && cleanup == (if s.phase == UploadPhase::CheckingHash {
                Cleanup::TempFile
            } else {
                Cleanup::StoredFile
            }),
{
}

/// A file the database added is answered with the upload's own id, marked as
/// created, and kept.
pub proof fn law_registered_file_answered_as_created(s: UploadModel, t: UploadModel, a: UploadAction)
    requires
        s.phase == UploadPhase::Registering,
        upload_step(s, UploadEvent::Registered(Ok(true)), t, a),
    ensures
        t.phase == UploadPhase::Finished,
        a matches UploadAction::Finish { reply: UploadReply::Stored { id, created }, cleanup } && id@ == s.id
            && created && cleanup == Cleanup::Nothing,
{
}

/// A chunk that takes the bytes received past the file-size limit ends the
/// upload, from a form or a link alike: refused as too large (the limit given in
/// whole mebibytes), with the temporary file removed. Nothing of it is written,
/// hashed or stored.
pub proof fn law_oversized_upload_refused(s: UploadModel, src: Source, data: Vec<u8>, t: UploadModel, a: UploadAction)
    requires
        s.phase == UploadPhase::ReadingChunk(src),
        upload_step(s, UploadEvent::Chunk(Ok(Some(data))), t, a),
        s.size + data@.len() > s.limits.max_file_size,
    ensures
        t.phase == UploadPhase::Finished,
        t.received == s.received,
        a matches UploadAction::Finish { reply: UploadReply::Refused(Failure::TooLarge { limit_mb }), cleanup }
            && limit_mb == s.limits.max_file_size / 1024 / 1024 && cleanup == Cleanup::TempFile,
{
}

/// Content over the file-size limit never reaches the hash lookup nor the
/// database: whenever a hash is looked up or a file registered, the bytes
/// accepted fit within the limit, and the hash looked up is the hex SHA-256 of
/// exactly those bytes.
pub proof fn law_hashed_content_within_limit(s: UploadModel, e: UploadEvent, t: UploadModel, a: UploadAction)
    requires
        s.valid(),
        upload_step(s, e, t, a),
        a is FindHash || a is Register,
    ensures
        t.received.len() <= t.limits.max_file_size,
        a matches UploadAction::FindHash(h) ==> h@ == hex_lower(sha256(t.received)),
{
    law_upload_stays_valid(s, e, t, a);
}

/// Storage is never overfilled while content arrives: a chunk within the
/// file-size limit that takes the bytes received past the room left is refused
/// as storage full, and the temporary file removed.
pub proof fn law_chunk_over_room_refused(s: UploadModel, src: Source, data: Vec<u8>, left: u64, t: UploadModel, a: UploadAction)
    requires
        s.phase == UploadPhase::ReadingChunk(src),
        upload_step(s, UploadEvent::Chunk(Ok(Some(data))), t, a),
        s.size + data@.len() <= s.limits.max_file_size,
        s.storage_left == Some(left),
        s.size + data@.len() > left,
    ensures
        t.phase == UploadPhase::Finished,
        a matches UploadAction::Finish { reply: UploadReply::Refused(f), cleanup } && f == Failure::StorageFull
            && cleanup == Cleanup::TempFile,
{
}

/// Complete content whose size, added to the stored total (saturating at the
/// largest `u64`), exceeds the storage limit is refused as storage full, and
/// the temporary file removed; otherwise its hash is looked up.
pub proof fn law_total_over_limit_refused(s: UploadModel, total: u64, t: UploadModel, a: UploadAction)
    requires
        s.phase == UploadPhase::CheckingCapacity,
        upload_step(s, UploadEvent::TotalSize(total), t, a),
    ensures
        ({
            let sum = if total + s.size > u64::MAX { u64::MAX as int } else { total + s.size };
            &&& sum > s.limits.max_storage_limit ==> t.phase == UploadPhase::Finished
                && (a matches UploadAction::Finish { reply: UploadReply::Refused(f), cleanup }
                && f == Failure::StorageFull && cleanup == Cleanup::TempFile)
            &&& sum <= s.limits.max_storage_limit ==> t.phase == UploadPhase::CheckingHash && a is FindHash
        }),
{
}

/// The room left for an upload, measured before the form is read, is the
/// storage limit less what is stored, or nothing when more is stored than the
/// limit; the form is read without measuring only when there is no storage
/// limit, and then without a bound.
pub proof fn law_room_left(s: UploadModel, e: UploadEvent, t: UploadModel, a: UploadAction)
    requires
        upload_step(s, e, t, a),
        s.phase == UploadPhase::MeasuringStorage || s.phase == UploadPhase::CheckingId,
        t.phase == UploadPhase::AwaitingField,
    ensures
        s.phase == UploadPhase::CheckingId ==> s.limits.max_storage_limit == 0 && t.storage_left is None,
        e matches UploadEvent::TotalSize(total) ==> t.storage_left == Some(
            if total <= s.limits.max_storage_limit { (s.limits.max_storage_limit - total) as u64 } else { 0u64 },
        ),
{
}

/// A chunk that keeps the bytes received within the file-size limit (and the
/// storage left) is written as it came, and the upload reads on.
pub proof fn law_chunk_within_limits_written(s: UploadModel, src: Source, data: Vec<u8>, t: UploadModel, a: UploadAction)
    requires
        s.phase == UploadPhase::ReadingChunk(src),
        upload_step(s, UploadEvent::Chunk(Ok(Some(data))), t, a),
        s.size + data@.len() <= s.limits.max_file_size,
        s.storage_left matches Some(left) ==> s.size + data@.len() <= left,
    ensures
        t.phase == UploadPhase::WritingChunk(src),
        t.received == s.received + data@,
        a matches UploadAction::WriteChunk(d) && d@ == data@,
{
}

/// The content is hashed and looked up only once its source says it has ended:
/// no chunk, however large, cuts the content short.
pub proof fn law_content_complete_only_at_end(s: UploadModel, src: Source, e: UploadEvent, t: UploadModel, a: UploadAction)
    requires
        s.phase == UploadPhase::ReadingChunk(src),
        upload_step(s, e, t, a),
        content_complete(t.phase),
    ensures
        e matches UploadEvent::Chunk(Ok(None)),
        t.received == s.received,
{
}

/// A file is recorded only after the database, asked again once the file is in
/// place, holds no file with the same content.
pub proof fn law_recorded_only_when_content_new(s: UploadModel, e: UploadEvent, t: UploadModel, a: UploadAction)
    requires
        upload_step(s, e, t, a),
        a is Register,
    ensures
        s.phase == UploadPhase::RecheckingHash,
        e matches UploadEvent::HashFound(Ok(None)),
{
}

/// A file stored just now is answered with the upload's own, well-formed id.
pub proof fn law_created_reply_has_own_id(s: UploadModel, e: UploadEvent, t: UploadModel, a: UploadAction)
    requires
        s.valid(),
        upload_step(s, e, t, a),
        a matches UploadAction::Finish { reply: UploadReply::Stored { created: true, .. }, .. },
    ensures
        a matches UploadAction::Finish { reply: UploadReply::Stored { id, .. }, cleanup }
            && id@ == s.id && valid_id(id@) && cleanup == Cleanup::Nothing,
{
}

/// An upload that is refused removes whatever it left on disk: the temporary
/// file while the content is received and placed, the stored file once it has
/// been moved into storage.
pub proof fn law_refusals_clean_up(s: UploadModel, e: UploadEvent, t: UploadModel, a: UploadAction)
    requires
        upload_step(s, e, t, a),
        a matches UploadAction::Finish { reply: UploadReply::Refused(_), .. },
    ensures
        a->cleanup == leftover(s.phase),
{
}

/// A running upload.
pub struct UploadFlow {
    phase: UploadPhase,
    limits: UploadLimits,
    id: String,
    storage_left: Option<u64>,
    size: u64,
    hasher: Sha256,
    hash: String,
    received: Ghost<Seq<u8>>,
}

impl View for UploadFlow {
    type V = UploadModel;

    closed spec fn view(&self) -> UploadModel {
        UploadModel {
            phase: self.phase,
            limits: self.limits,
            id: self.id@,
            storage_left: self.storage_left,
            size: self.size,
            received: self.received@,
            hash: self.hash@,
        }
    }
}

impl UploadFlow {
    /// The state is valid, and until the content is complete the hasher has been
    /// fed exactly the bytes accepted.
    pub closed spec fn wf(&self) -> bool {
        &&& self@.valid()
        &&& (!content_complete(self.phase) && self.phase != UploadPhase::Finished ==> hashed_input(
            self.hasher,
        ) == self.received@)
    }

    /// Well-formed uploads are valid.
    pub proof fn lemma_wf_valid(&self)
        requires
            self.wf(),
        ensures
            self@.valid(),
    {
    }

    /// Begins an upload: refused at once when a token is configured and the
    /// request does not carry it; otherwise the temporary directory is prepared.
    pub fn start(token: Option<&str>, authorization: Option<&str>, limits: UploadLimits) -> (r: (
        UploadFlow,
        UploadAction,
    ))
        ensures
            r.0.wf(),
            r.0@.limits == limits,
            r.0@.size == 0,
            r.0@.received == Seq::<u8>::empty(),
            r.0@.id == Seq::<char>::empty(),
            ({
                let ok = authorized(
                    match token { Some(t) => Some(t.spec_bytes()), None => None },
                    match authorization { Some(h) => Some(h.spec_bytes()), None => None },
                );
                if ok {
                    r.0@.phase == UploadPhase::Preparing && r.1 is CreateTempDir
                } else {
                    &&& r.0@.phase == UploadPhase::Finished
                    &&& r.1 matches UploadAction::Finish { reply: UploadReply::Refused(f), cleanup }
                        && f == Failure::NotAllowed && cleanup == Cleanup::Nothing
                }
            }),
            upload_start(
                match token { Some(t) => Some(t.spec_bytes()), None => None },
                match authorization { Some(h) => Some(h.spec_bytes()), None => None },
                limits,
                r.0@,
                r.1,
            ),
    {
        let allowed = is_authorized(token, authorization);
        let flow = UploadFlow {
            phase: if allowed { UploadPhase::Preparing } else { UploadPhase::Finished },
            limits,
            id: String::new(),
            storage_left: None,
            size: 0,
            hasher: hasher_new(),
            hash: String::new(),
            received: Ghost(Seq::empty()),
        };
        let action = if allowed {
            UploadAction::CreateTempDir
        } else {
            UploadAction::Finish { reply: UploadReply::Refused(Failure::NotAllowed), cleanup: Cleanup::Nothing }
        };
        (flow, action)
    }

    /// The id the file is stored under.
    pub fn id(&self) -> (id: &str)
        ensures
            id@ == self@.id,
    {
        self.id.as_str()
    }

    /// The phase the upload is in.
    pub fn phase(&self) -> (p: UploadPhase)
        ensures
            p == self@.phase,
    {
        self.phase
    }

    /// Ends the upload with a failure.
    fn refuse(&mut self, f: Failure, c: Cleanup) -> (a: UploadAction)
        requires
            old(self).wf(),
        ensures
            final(self).wf(),
            ends_refused(old(self)@, final(self)@, a, f, c),
    {
        self.phase = UploadPhase::Finished;
        UploadAction::Finish { reply: UploadReply::Refused(f), cleanup: c }
    }

    /// Ends the upload with the content stored under `id`.
    fn stored(&mut self, id: String, created: bool, c: Cleanup) -> (a: UploadAction)
        requires
            old(self).wf(),
        ensures
            final(self).wf(),
            ends_stored(old(self)@, final(self)@, a, id@, created, c),
    {
        self.phase = UploadPhase::Finished;
        UploadAction::Finish { reply: UploadReply::Stored { id, created }, cleanup: c }
    }

    /// Has a fresh id drawn.
    fn draw_id(&mut self) -> (a: UploadAction)
        requires
            old(self).wf(),
            old(self).phase == UploadPhase::Preparing || old(self).phase == UploadPhase::CheckingId,
        ensures
            final(self).wf(),
            draws_id(old(self)@, final(self)@, a),
    {
        self.phase = UploadPhase::DrawingId;
        UploadAction::DrawId
    }

    /// Has the hash of the complete content looked up, moving on to `phase`.
    fn find_hash(&mut self, phase: UploadPhase) -> (a: UploadAction)
        requires
            old(self).wf(),
            content_complete(old(self).phase),
            content_complete(phase),
        ensures
            final(self).wf(),
            finds_hash(old(self)@, final(self)@, a, phase),
    {
        self.phase = phase;
        UploadAction::FindHash(self.hash.clone())
    }

    /// Counts, checks and hashes one chunk of content.
    fn take_chunk(&mut self, src: Source, data: Vec<u8>) -> (a: UploadAction)
        requires
            old(self).wf(),
            old(self).phase == UploadPhase::ReadingChunk(src),
        ensures
            final(self).wf(),
            upload_step(old(self)@, UploadEvent::Chunk(Ok(Some(data))), final(self)@, a),
    {
        let n = data.len() as u64;
        if n > self.limits.max_file_size - self.size {
            let limit_mb = self.limits.max_file_size / 1024 / 1024;
            return self.refuse(Failure::TooLarge { limit_mb }, Cleanup::TempFile);
        }
        let new_size = self.size + n;
        if let Some(left) = self.storage_left {
            if new_size > left {
                return self.refuse(Failure::StorageFull, Cleanup::TempFile);
            }
        }
        hasher_update(&mut self.hasher, data.as_slice());
        self.received = Ghost(self.received@ + data@);
        self.size = new_size;
        self.phase = UploadPhase::WritingChunk(src);
        UploadAction::WriteChunk(data)
    }

    /// Completes the content: hashes it, then checks the room left or looks the
    /// hash up.
    fn complete(&mut self) -> (a: UploadAction)
        requires
            old(self).wf(),
            old(self).phase matches UploadPhase::ReadingChunk(_),
        ensures
            final(self).wf(),
            upload_step(old(self)@, UploadEvent::Chunk(Ok(None)), final(self)@, a),
    {
        let mut h = hasher_new();
        std::mem::swap(&mut h, &mut self.hasher);
        self.hash = finish_hex(h);
        if self.limits.max_storage_limit > 0 {
            self.phase = UploadPhase::CheckingCapacity;
            UploadAction::QueryTotalSize
        } else {
            self.phase = UploadPhase::CheckingHash;
            UploadAction::FindHash(self.hash.clone())
        }
    }

    /// Takes the outcome of the last action and decides what comes next.
    pub fn step(&mut self, event: UploadEvent) -> (a: UploadAction)
        requires
            old(self).wf(),
        ensures
            final(self).wf(),
            upload_step(old(self)@, event, final(self)@, a),
    {
        match self.phase {
            UploadPhase::Preparing | UploadPhase::DrawingId | UploadPhase::CheckingId | UploadPhase::MeasuringStorage => self.on_setup(event),
            UploadPhase::AwaitingField | UploadPhase::ReadingLink | UploadPhase::Downloading
            | UploadPhase::CreatingFile(_) => self.on_field(event),
            UploadPhase::ReadingChunk(_) | UploadPhase::WritingChunk(_) => self.on_content(event),
            UploadPhase::CheckingCapacity | UploadPhase::CheckingHash | UploadPhase::Moving
            | UploadPhase::Copying | UploadPhase::DiscardingTemp => self.on_placing(event),
            UploadPhase::RecheckingHash | UploadPhase::Registering | UploadPhase::DiscardingStored
            | UploadPhase::FindingOriginal => self.on_recording(event),
            UploadPhase::Finished => self.refuse(Failure::UploadFailed, leftover_in(self.phase)),
        }
    }

    /// Preparing the directory, drawing a free id and measuring the room left.
    fn on_setup(&mut self, event: UploadEvent) -> (a: UploadAction)
        requires
            old(self).wf(),
            old(self).phase == UploadPhase::Preparing || old(self).phase == UploadPhase::DrawingId
                || old(self).phase == UploadPhase::CheckingId || old(self).phase == UploadPhase::MeasuringStorage,
        ensures
            final(self).wf(),
            upload_step(old(self)@, event, final(self)@, a),
    {
        match (self.phase, event) {
            (UploadPhase::Preparing, UploadEvent::TempDirReady(ready)) => {
                if ready {
                    self.draw_id()
                } else {
                    self.refuse(Failure::UploadFailed, Cleanup::Nothing)
                }
            },
            (UploadPhase::DrawingId, UploadEvent::IdDrawn(drawn)) => match drawn {
                Some(id) => {
                    if is_valid_id(id.as_str()) {
                        self.id = id.clone();
                        self.phase = UploadPhase::CheckingId;
                        UploadAction::CheckId(id)
                    } else {
                        self.refuse(Failure::UploadFailed, Cleanup::Nothing)
                    }
                },
                None => self.refuse(Failure::UploadFailed, Cleanup::Nothing),
            },
            (UploadPhase::CheckingId, UploadEvent::IdChecked(r)) => match r {
                Err(_) => self.refuse(Failure::UploadFailed, Cleanup::Nothing),
                Ok(true) => self.draw_id(),
                Ok(false) => {
                    if self.limits.max_storage_limit == 0 {
                        self.storage_left = None;
                        self.phase = UploadPhase::AwaitingField;
                        UploadAction::NextField
                    } else {
                        self.phase = UploadPhase::MeasuringStorage;
                        UploadAction::QueryTotalSize
                    }
                },
            },
            (UploadPhase::MeasuringStorage, UploadEvent::TotalSize(total)) => {
                self.storage_left = Some(self.limits.max_storage_limit.saturating_sub(total));
                self.phase = UploadPhase::AwaitingField;
                UploadAction::NextField
            },
            _ => self.refuse(Failure::UploadFailed, leftover_in(self.phase)),
        }
    }

    /// Reading the form up to the field that carries the content.
    fn on_field(&mut self, event: UploadEvent) -> (a: UploadAction)
        requires
            old(self).wf(),
            old(self).phase == UploadPhase::AwaitingField || old(self).phase == UploadPhase::ReadingLink
                || old(self).phase == UploadPhase::Downloading || old(self).phase is CreatingFile,
        ensures
            final(self).wf(),
            upload_step(old(self)@, event, final(self)@, a),
    {
        match (self.phase, event) {
            (UploadPhase::AwaitingField, UploadEvent::Field(r)) => match r {
                Err(_) => self.refuse(Failure::BadForm, Cleanup::Nothing),
                Ok(None) => self.refuse(Failure::NothingSent, Cleanup::Nothing),
                Ok(Some(name)) => {
                    if same_text(name.as_str(), "file") {
                        self.phase = UploadPhase::CreatingFile(Source::Form);
                        UploadAction::CreateTempFile
                    } else if same_text(name.as_str(), "link") {
                        self.phase = UploadPhase::ReadingLink;
                        UploadAction::ReadLinkText
                    } else {
                        UploadAction::NextField
                    }
                },
            },
            (UploadPhase::ReadingLink, UploadEvent::LinkText(r)) => match r {
                Err(_) => self.refuse(Failure::BadLinkField, Cleanup::Nothing),
                Ok(link) => {
                    self.phase = UploadPhase::Downloading;
                    UploadAction::Download(link)
                },
            },
            (UploadPhase::Downloading, UploadEvent::Downloaded(ok)) => {
                if ok {
                    self.phase = UploadPhase::CreatingFile(Source::Link);
                    UploadAction::CreateTempFile
                } else {
                    self.refuse(Failure::DownloadFailed, Cleanup::Nothing)
                }
            },
            (UploadPhase::CreatingFile(src), UploadEvent::FileCreated(ok)) => {
                if ok {
                    self.phase = UploadPhase::ReadingChunk(src);
                    UploadAction::ReadChunk(src)
                } else {
                    self.refuse(Failure::UploadFailed, Cleanup::Nothing)
                }
            },
            _ => self.refuse(Failure::UploadFailed, leftover_in(self.phase)),
        }
    }

    /// Receiving the content chunk by chunk.
    fn on_content(&mut self, event: UploadEvent) -> (a: UploadAction)
        requires
            old(self).wf(),
            old(self).phase is ReadingChunk || old(self).phase is WritingChunk,
        ensures
            final(self).wf(),
            upload_step(old(self)@, event, final(self)@, a),
    {
        match (self.phase, event) {
            (UploadPhase::ReadingChunk(src), UploadEvent::Chunk(r)) => match r {
                Err(_) => {
                    let f = match src {
                        Source::Form => Failure::BadFileData,
                        Source::Link => Failure::DownloadFailed,
                    };
                    self.refuse(f, Cleanup::TempFile)
                },
                Ok(None) => self.complete(),
                Ok(Some(data)) => self.take_chunk(src, data),
            },
            (UploadPhase::WritingChunk(src), UploadEvent::ChunkWritten(ok)) => {
                if ok {
                    self.phase = UploadPhase::ReadingChunk(src);
                    UploadAction::ReadChunk(src)
                } else {
                    self.refuse(Failure::UploadFailed, Cleanup::TempFile)
                }
            },
            _ => self.refuse(Failure::UploadFailed, leftover_in(self.phase)),
        }
    }

    /// Checking the room left and duplicates, then moving the file into storage.
    fn on_placing(&mut self, event: UploadEvent) -> (a: UploadAction)
        requires
            old(self).wf(),
            old(self).phase == UploadPhase::CheckingCapacity || old(self).phase == UploadPhase::CheckingHash
                || old(self).phase == UploadPhase::Moving || old(self).phase == UploadPhase::Copying
                || old(self).phase == UploadPhase::DiscardingTemp,
        ensures
            final(self).wf(),
            upload_step(old(self)@, event, final(self)@, a),
    {
        match (self.phase, event) {
            (UploadPhase::CheckingCapacity, UploadEvent::TotalSize(total)) => {
                if total.saturating_add(self.size) > self.limits.max_storage_limit {
                    self.refuse(Failure::StorageFull, Cleanup::TempFile)
                } else {
                    self.find_hash(UploadPhase::CheckingHash)
                }
            },
            (UploadPhase::CheckingHash, UploadEvent::HashFound(r)) => match r {
                Err(_) => self.refuse(Failure::UploadFailed, Cleanup::TempFile),
                Ok(Some(existing)) => self.stored(existing, false, Cleanup::TempFile),
                Ok(None) => {
                    self.phase = UploadPhase::Moving;
                    UploadAction::MoveIntoStorage
                },
            },
            (UploadPhase::Moving, UploadEvent::Moved(m)) => match m {
                MoveOutcome::Moved => self.find_hash(UploadPhase::RecheckingHash),
                MoveOutcome::CrossesDevices => {
                    self.phase = UploadPhase::Copying;
                    UploadAction::CopyIntoStorage
                },
                MoveOutcome::Failed => self.refuse(Failure::UploadFailed, Cleanup::TempFile),
            },
            (UploadPhase::Copying, UploadEvent::Copied(ok)) => {
                if ok {
                    self.phase = UploadPhase::DiscardingTemp;
                    UploadAction::DiscardTempFile
                } else {
                    self.refuse(Failure::UploadFailed, Cleanup::TempFile)
                }
            },
            (UploadPhase::DiscardingTemp, UploadEvent::TempDiscarded) => {
                self.find_hash(UploadPhase::RecheckingHash)
            },
            _ => self.refuse(Failure::UploadFailed, leftover_in(self.phase)),
        }
    }

    /// Recording the stored file in the database.
    fn on_recording(&mut self, event: UploadEvent) -> (a: UploadAction)
        requires
            old(self).wf(),
            old(self).phase == UploadPhase::RecheckingHash || old(self).phase == UploadPhase::Registering
                || old(self).phase == UploadPhase::DiscardingStored
                || old(self).phase == UploadPhase::FindingOriginal,
        ensures
            final(self).wf(),
            upload_step(old(self)@, event, final(self)@, a),
    {
        match (self.phase, event) {
            (UploadPhase::RecheckingHash, UploadEvent::HashFound(r)) => match r {
                Err(_) => self.refuse(Failure::UploadFailed, Cleanup::StoredFile),
                Ok(Some(existing)) => self.stored(existing, false, Cleanup::StoredFile),
                Ok(None) => {
                    self.phase = UploadPhase::Registering;
                    UploadAction::Register(File { id: self.id.clone(), hash: self.hash.clone(), size: self.size })
                },
            },
            (UploadPhase::Registering, UploadEvent::Registered(r)) => match r {
                Err(_) => self.refuse(Failure::UploadFailed, Cleanup::StoredFile),
                Ok(true) => {
                    let id = self.id.clone();
                    self.stored(id, true, Cleanup::Nothing)
                },
                Ok(false) => {
                    self.phase = UploadPhase::DiscardingStored;
                    UploadAction::DiscardStoredFile
                },
            },
            (UploadPhase::DiscardingStored, UploadEvent::StoredDiscarded) => {
                self.find_hash(UploadPhase::FindingOriginal)
            },
            (UploadPhase::FindingOriginal, UploadEvent::HashFound(r)) => match r {
                Ok(Some(existing)) => self.stored(existing, false, Cleanup::Nothing),
                _ => {
                    let id = self.id.clone();
                    self.stored(id, false, Cleanup::Nothing)
                },
            },
            _ => self.refuse(Failure::UploadFailed, leftover_in(self.phase)),
        }
    }
}

} // verus!
