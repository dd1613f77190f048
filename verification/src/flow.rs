//! The build trace handlers as state machines. The caller performs each
//! action (an authorization, a lookup, a write) and hands back what came of
//! it as the next event; the machine decides the next action, up to the
//! response.
//!
//! A machine starts unauthorized, becomes authorized for a cache only on the
//! event that reports the authorization, and issues a lookup, a write or a
//! successful response only while authorized, for that cache.

use vstd::prelude::*;
use crate::binary_cache::{cache_file_request, parse_nar_path, parse_narinfo_path, plan_nar_delivery, narinfo_needs_signature, NarDelivery, NAR_PREFETCH_CHUNKS, build_trace_key, lookup_object_for, output_name_of, records_path, BuildTraceKey, PendingBuildTrace, StoredBuildTrace};
use crate::build_trace::BuildTraceEntry;
use crate::error::ApiError;
use crate::router::{endpoint_permission, Endpoint, Permission};
use crate::schema::{lookup_conditions, lookup_index_columns, BuildTraceColumn, KeyValue};
use crate::store_path::is_valid_hash;
use crate::text::text_of;
use crate::upload::{begin_upload, hash_of_out_path, upload_check, upsert_outcome, BuildTraceUpload, PendingUpsert, Upsert};

verus! {

// ---------------------------------------------------------------------------
// reading

/// Where a build trace read stands between its outside calls.
#[derive(Debug)]
pub enum ReadState {
    /// Waits for the request to be authorized to pull from the cache.
    Authorizing { key: BuildTraceKey },
    /// Waits for the entry stored under the key in the authorized cache.
    FindingEntry { cache_id: i64 },
    /// Waits for the authorized cache's object for the entry's hash.
    FindingObject { cache_id: i64, pending: PendingBuildTrace },
    /// Answered, authorized for `cache_id` where the read got that far.
    Done { cache_id: Option<i64> },
}

/// What came of the last action of a read.
#[derive(Debug)]
pub enum ReadEvent {
    /// The request may pull from the cache `cache_id`.
    Authorized { cache_id: i64 },
    /// The entry stored under the key, if any.
    EntryFound(Option<StoredBuildTrace>),
    /// The base name of the store path that the object records.
    ObjectFound(Option<String>),
}

/// What a read does next.
#[derive(Debug)]
pub enum ReadAction {
    /// Authorize the request for this permission on the cache it names.
    Authorize(Permission),
    /// Look up the entry of the cache `cache_id` whose columns hold these
    /// values.
    FindEntry { cache_id: i64, conditions: Vec<(BuildTraceColumn, KeyValue)> },
    /// Look up the object of the cache `cache_id` with this store path hash.
    FindObject { cache_id: i64, hash: String },
    /// Answer the request.
    Respond(Result<BuildTraceEntry, ApiError>),
}

impl ReadState {
    /// The cache the read is authorized for, if any.
    pub open spec fn authorized_cache(self) -> Option<i64> {
        match self {
            ReadState::Authorizing { .. } => None,
            ReadState::FindingEntry { cache_id } => Some(cache_id),
            ReadState::FindingObject { cache_id, .. } => Some(cache_id),
            ReadState::Done { cache_id } => cache_id,
        }
    }

    /// Whether the read waits for an event of the kind of `event`.
    pub open spec fn accepts(self, event: ReadEvent) -> bool {
        match (self, event) {
            (ReadState::Authorizing { .. }, ReadEvent::Authorized { .. }) => true,
            (ReadState::FindingEntry { .. }, ReadEvent::EntryFound(_)) => true,
            (ReadState::FindingObject { .. }, ReadEvent::ObjectFound(_)) => true,
            _ => false,
        }
    }
}

/// Whether a read action touches the cache's data: a lookup or a successful
/// answer.
pub open spec fn read_acts_on_cache(action: ReadAction) -> Option<Option<i64>> {
    match action {
        ReadAction::FindEntry { cache_id, .. } => Some(Some(cache_id)),
        ReadAction::FindObject { cache_id, .. } => Some(Some(cache_id)),
        ReadAction::Respond(Ok(_)) => Some(None),
        _ => None,
    }
}

/// Starts the read `GET /{cache}/build-trace-v2/{drv_path}/{output}`: a path
/// whose last segment lacks `.doi` names nothing, else the request is to be
/// authorized to pull.
pub fn start_read(drv_path: String, output: &str) -> (r: (ReadState, ReadAction))
    ensures
        r.0.authorized_cache() is None,
        match output_name_of(output@) {
            None => r.0 == ReadState::Done { cache_id: None } && r.1 == ReadAction::Respond(
                Err(ApiError::NotFound),
            ),
            Some(name) => {
                &&& r.0 matches ReadState::Authorizing { key } && key.drv_path == drv_path
                    && key.output_name@ == name
                &&& r.1 == ReadAction::Authorize(Permission::Pull)
                &&& endpoint_permission(Endpoint::GetBuildTrace) == Some(Permission::Pull)
            },
        },
{
    match build_trace_key(drv_path, output) {
        Ok(key) => (ReadState::Authorizing { key }, ReadAction::Authorize(Permission::Pull)),
        Err(e) => (ReadState::Done { cache_id: None }, ReadAction::Respond(Err(e))),
    }
}

/// The next step of a read, on what came of its last action.
pub fn step_read(state: ReadState, event: ReadEvent) -> (r: (ReadState, ReadAction))
    requires
        state.accepts(event),
    ensures
        match state {
            ReadState::Authorizing { .. } => event matches ReadEvent::Authorized { cache_id }
                && r.0.authorized_cache() == Some(cache_id),
            _ => r.0.authorized_cache() == state.authorized_cache(),
        },
        read_acts_on_cache(r.1) matches Some(c) ==> r.0.authorized_cache() is Some && (c matches Some(
            id,
        ) ==> r.0.authorized_cache() == Some(id)),
        match (state, event) {
            (ReadState::Authorizing { key }, ReadEvent::Authorized { cache_id }) => {
                &&& r.0 == ReadState::FindingEntry { cache_id }
                &&& r.1 matches ReadAction::FindEntry { cache_id: c, conditions } && c == cache_id
                    && conditions@.len() == lookup_index_columns().len() && (forall|i: int|
                    0 <= i < conditions@.len() ==> (#[trigger] conditions@[i]).0
                        == lookup_index_columns()[i]) && conditions@[0].1 == KeyValue::Integer(
                    cache_id,
                ) && conditions@[1].1 == KeyValue::Text(key.drv_path)
                    && conditions@[2].1 == KeyValue::Text(key.output_name)
            },
            (ReadState::FindingEntry { cache_id }, ReadEvent::EntryFound(stored)) => match stored {
                Some(s) if is_valid_hash(s.out_path_hash@) => {
                    &&& r.0 matches ReadState::FindingObject { cache_id: c, pending } && c
                        == cache_id && pending.out_path_hash@ == s.out_path_hash@ && pending.entry
                        == (BuildTraceEntry { out_path: s.out_path, signatures: s.signatures })
                    &&& r.1 matches ReadAction::FindObject { cache_id: c, hash } && c == cache_id
                        && hash@ == s.out_path_hash@
                },
                _ => r.0 == ReadState::Done { cache_id: Some(cache_id) } && r.1
                    == ReadAction::Respond(Err(ApiError::NoSuchObject)),
            },
            (ReadState::FindingObject { cache_id, pending }, ReadEvent::ObjectFound(recorded)) => {
                &&& r.0 == ReadState::Done { cache_id: Some(cache_id) }
                &&& r.1 == ReadAction::Respond(
                    if records_path(text_of(recorded), pending.entry.out_path@) {
                        Ok(pending.entry)
                    } else {
                        Err(ApiError::NoSuchObject)
                    },
                )
            },
            _ => false,
        },
{
    match (state, event) {
        (ReadState::Authorizing { key }, ReadEvent::Authorized { cache_id }) => {
            let conditions = lookup_conditions(cache_id, key);
            (ReadState::FindingEntry { cache_id }, ReadAction::FindEntry { cache_id, conditions })
        },
        (ReadState::FindingEntry { cache_id }, ReadEvent::EntryFound(stored)) => {
            match lookup_object_for(stored) {
                Ok(pending) => {
                    let hash = pending.out_path_hash.as_str().to_owned();
                    (
                        ReadState::FindingObject { cache_id, pending },
                        ReadAction::FindObject { cache_id, hash },
                    )
                },
                Err(e) => (ReadState::Done { cache_id: Some(cache_id) }, ReadAction::Respond(Err(e))),
            }
        },
        (ReadState::FindingObject { cache_id, pending }, ReadEvent::ObjectFound(recorded)) => {
            (ReadState::Done { cache_id: Some(cache_id) }, ReadAction::Respond(pending.serve(recorded)))
        },
        (state, _) => {
            (state, ReadAction::Respond(Err(ApiError::NotFound)))
        },
    }
}

// ---------------------------------------------------------------------------
// writing

/// Where a build trace upload stands between its outside calls.
#[derive(Debug)]
pub enum WriteState {
    /// Waits for the request to be authorized to push to the cache.
    Authorizing { upload: BuildTraceUpload },
    /// Waits for the object of the authorized cache, the cache of the
    /// pending row, for the uploaded hash.
    FindingObject { pending: PendingUpsert },
    /// Waits for the upsert into the authorized cache.
    Writing { cache_id: i64 },
    /// Answered, authorized for `cache_id` where the upload got that far.
    Done { cache_id: Option<i64> },
}

/// What came of the last action of an upload.
#[derive(Debug)]
pub enum WriteEvent {
    /// The request may push to the cache `cache_id`, as `username`, where it
    /// names one.
    Authorized { cache_id: i64, username: Option<String> },
    /// The base name of the store path that the object records.
    ObjectFound(Option<String>),
    /// The upsert wrote `rows_affected` rows.
    Written { rows_affected: u64 },
}

/// What an upload does next.
#[derive(Debug)]
pub enum WriteAction {
    /// Authorize the request for this permission on the cache it names.
    Authorize(Permission),
    /// Look up the object of the cache `cache_id` with this store path hash.
    FindObject { cache_id: i64, hash: String },
    /// Run this upsert.
    Upsert(Upsert),
    /// Answer the request.
    Respond(Result<(), ApiError>),
}

impl WriteState {
    /// The cache the upload is authorized for, if any.
    pub open spec fn authorized_cache(self) -> Option<i64> {
        match self {
            WriteState::Authorizing { .. } => None,
            WriteState::FindingObject { pending } => Some(pending.row.cache_id),
            WriteState::Writing { cache_id } => Some(cache_id),
            WriteState::Done { cache_id } => cache_id,
        }
    }

    /// Whether the upload waits for an event of the kind of `event`.
    pub open spec fn accepts(self, event: WriteEvent) -> bool {
        match (self, event) {
            (WriteState::Authorizing { .. }, WriteEvent::Authorized { .. }) => true,
            (WriteState::FindingObject { .. }, WriteEvent::ObjectFound(_)) => true,
            (WriteState::Writing { .. }, WriteEvent::Written { .. }) => true,
            _ => false,
        }
    }
}

/// The cache an upload action touches, where it touches one: a lookup, a
/// write, or a successful answer (which touches the cache it was authorized
/// for).
pub open spec fn write_acts_on_cache(action: WriteAction) -> Option<Option<i64>> {
    match action {
        WriteAction::FindObject { cache_id, .. } => Some(Some(cache_id)),
        WriteAction::Upsert(u) => Some(Some(u.row.cache_id)),
        WriteAction::Respond(Ok(_)) => Some(None),
        _ => None,
    }
}

/// Starts the upload `PUT /{cache}/build-trace-v2/{drv_path}/{output}` of
/// `entry`: a path whose last segment lacks `.doi` names nothing, else the
/// request is to be authorized to push.
pub fn start_write(drv_path: String, output: &str, entry: BuildTraceEntry) -> (r: (WriteState, WriteAction))
    ensures
        r.0.authorized_cache() is None,
        match output_name_of(output@) {
            None => r.0 == WriteState::Done { cache_id: None } && r.1 == WriteAction::Respond(
                Err(ApiError::NotFound),
            ),
            Some(name) => {
                &&& r.0 matches WriteState::Authorizing { upload } && upload.key.drv_path == drv_path
                    && upload.key.output_name@ == name && upload.entry == entry
                &&& r.1 == WriteAction::Authorize(Permission::Push)
                &&& endpoint_permission(Endpoint::PutBuildTrace) == Some(Permission::Push)
            },
        },
{
    match begin_upload(drv_path, output, entry) {
        Ok(upload) => (WriteState::Authorizing { upload }, WriteAction::Authorize(Permission::Push)),
        Err(e) => (WriteState::Done { cache_id: None }, WriteAction::Respond(Err(e))),
    }
}

/// The next step of an upload, on what came of its last action.
pub fn step_write(state: WriteState, event: WriteEvent) -> (r: (WriteState, WriteAction))
    requires
        state.accepts(event),
    ensures
        match state {
            WriteState::Authorizing { .. } => event matches WriteEvent::Authorized { cache_id, .. }
                && r.0.authorized_cache() == Some(cache_id),
            _ => r.0.authorized_cache() == state.authorized_cache(),
        },
        write_acts_on_cache(r.1) matches Some(c) ==> r.0.authorized_cache() is Some && (c matches Some(
            id,
        ) ==> r.0.authorized_cache() == Some(id)),
        match (state, event) {
            (WriteState::Authorizing { upload }, WriteEvent::Authorized { cache_id, username }) => {
                match upload_check(upload.key.drv_path@, upload.key.output_name@, upload.entry.out_path@) {
                    Err(e) => r.0 == WriteState::Done { cache_id: Some(cache_id) } && r.1
                        == WriteAction::Respond(Err(e)),
                    Ok(()) => {
                        &&& r.0 matches WriteState::FindingObject { pending }
                            && pending.row.cache_id == cache_id && pending.row.drv_path
                            == upload.key.drv_path && pending.row.output_name
                            == upload.key.output_name && pending.row.out_path == upload.entry.out_path
                            && pending.row.out_path_hash@ == hash_of_out_path(upload.entry.out_path@)
                            && pending.row.signatures == upload.entry.signatures
                            && pending.row.created_by == username
                        &&& r.1 matches WriteAction::FindObject { cache_id: c, hash } && c == cache_id
                            && hash@ == hash_of_out_path(upload.entry.out_path@)
                    },
                }
            },
            (WriteState::FindingObject { pending }, WriteEvent::ObjectFound(recorded)) => {
                if records_path(text_of(recorded), pending.row.out_path@) {
                    &&& r.0 == WriteState::Writing { cache_id: pending.row.cache_id }
                    &&& r.1 matches WriteAction::Upsert(u) && u.row == pending.row
                        && u.created_at.secs >= 0 && u.created_at.subsec_nanos < 1_000_000_000
                } else {
                    r.0 == WriteState::Done { cache_id: Some(pending.row.cache_id) } && r.1
                        == WriteAction::Respond(Err(ApiError::OutPathMismatch))
                }
            },
            (WriteState::Writing { cache_id }, WriteEvent::Written { rows_affected }) => {
                &&& r.0 == WriteState::Done { cache_id: Some(cache_id) }
                &&& r.1 == WriteAction::Respond(
                    if rows_affected == 0 {
                        Err(ApiError::NoSuchObject)
                    } else {
                        Ok(())
                    },
                )
            },
            _ => false,
        },
{
    match (state, event) {
        (WriteState::Authorizing { upload }, WriteEvent::Authorized { cache_id, username }) => {
            match upload.check(cache_id, username) {
                Ok(pending) => {
                    let hash = pending.row.out_path_hash.as_str().to_owned();
                    (WriteState::FindingObject { pending }, WriteAction::FindObject { cache_id, hash })
                },
                Err(e) => (WriteState::Done { cache_id: Some(cache_id) }, WriteAction::Respond(Err(e))),
            }
        },
        (WriteState::FindingObject { pending }, WriteEvent::ObjectFound(recorded)) => {
            let cache_id = pending.row.cache_id;
            match pending.object_found(recorded) {
                Ok(u) => (WriteState::Writing { cache_id }, WriteAction::Upsert(u)),
                Err(e) => (WriteState::Done { cache_id: Some(cache_id) }, WriteAction::Respond(Err(e))),
            }
        },
        (WriteState::Writing { cache_id }, WriteEvent::Written { rows_affected }) => {
            (WriteState::Done { cache_id: Some(cache_id) }, WriteAction::Respond(upsert_outcome(rows_affected)))
        },
        (state, _) => {
            (state, WriteAction::Respond(Err(ApiError::NotFound)))
        },
    }
}

// ---------------------------------------------------------------------------
// narinfo and nar

/// Where a `.narinfo` or NAR request stands between its outside calls. The
/// object is looked up by the cache's name first; the request is authorized
/// once the object is known.
#[derive(Debug)]
pub enum FileState {
    /// Waits for the object with store path hash `hash`.
    FindingObject { hash: String },
    /// Waits for the request to be authorized to pull, the object known: its
    /// `.narinfo` is signed or not, and its chunks are each stored or not.
    Authorizing { hash: String, signed: bool, chunk_present: Vec<bool> },
    /// Waits for the object's access time to be bumped before its NAR is sent.
    Bumping { cache_id: i64, delivery: NarDelivery },
    /// Answered, authorized for `cache_id` where the request got that far.
    Done { cache_id: Option<i64> },
}

/// Which file of an object a request asks for.
#[derive(Debug, Clone, Copy, PartialEq, Eq, Structural)]
pub enum CacheFile {
    NarInfo,
    Nar,
}

/// What came of the last action of a `.narinfo` or NAR request.
#[derive(Debug)]
pub enum FileEvent {
    /// The object: the signature its `.narinfo` carries, if any, and whether
    /// each chunk of its NAR is still stored, in order.
    ObjectFound { signature: Option<String>, chunk_present: Vec<bool> },
    /// The request may pull from the cache `cache_id`.
    Authorized { cache_id: i64 },
    /// The object's access time was bumped.
    Bumped,
}

/// What a `.narinfo` or NAR request does next.
#[derive(Debug)]
pub enum FileAction {
    /// Look up the object of the named cache with this store path hash.
    FindObject { hash: String },
    /// Authorize the request for this permission on the cache it names.
    Authorize(Permission),
    /// Serve the object's `.narinfo`, signed with the cache's key first where
    /// `sign` holds.
    ServeNarInfo { sign: bool },
    /// Mark the object of the cache `cache_id` with this hash as accessed.
    BumpAccess { cache_id: i64, hash: String },
    /// Send the NAR as planned.
    SendNar(NarDelivery),
    /// Answer with this error.
    Fail(ApiError),
}

impl FileState {
    /// The cache the request is authorized for, if any.
    pub open spec fn authorized_cache(self) -> Option<i64> {
        match self {
            FileState::Bumping { cache_id, .. } => Some(cache_id),
            FileState::Done { cache_id } => cache_id,
            _ => None,
        }
    }

    /// Whether the request waits for an event of the kind of `event`.
    pub open spec fn accepts(self, event: FileEvent) -> bool {
        match (self, event) {
            (FileState::FindingObject { .. }, FileEvent::ObjectFound { .. }) => true,
            (FileState::Authorizing { .. }, FileEvent::Authorized { .. }) => true,
            (FileState::Bumping { .. }, FileEvent::Bumped) => true,
            _ => false,
        }
    }
}

/// Whether a file action serves or changes the cache's data.
pub open spec fn file_acts_on_cache(action: FileAction) -> bool {
    match action {
        FileAction::ServeNarInfo { .. } => true,
        FileAction::BumpAccess { .. } => true,
        FileAction::SendNar(_) => true,
        _ => false,
    }
}

/// The extension of the files of kind `file`.
pub open spec fn file_extension(file: CacheFile) -> Seq<char> {
    match file {
        CacheFile::NarInfo => "narinfo"@,
        CacheFile::Nar => "nar"@,
    }
}

/// Starts `GET /{cache}/{path}` (`.narinfo`) or `GET /{cache}/nar/{path}`
/// (NAR): a malformed path fails, else the object is looked up.
pub fn start_file(file: CacheFile, path: &str) -> (r: (FileState, FileAction))
    ensures
        r.0.authorized_cache() is None,
        match cache_file_request(path@, file_extension(file)) {
            Err(e) => r.0 == FileState::Done { cache_id: None } && r.1 == FileAction::Fail(e),
            Ok(h) => {
                &&& r.0 matches FileState::FindingObject { hash } && hash@ == h
                &&& r.1 matches FileAction::FindObject { hash: a } && a@ == h
            },
        },
{
    let parsed = match file {
        CacheFile::NarInfo => parse_narinfo_path(path),
        CacheFile::Nar => parse_nar_path(path),
    };
    match parsed {
        Ok(h) => {
            let hash = h.into_string();
            let asked = hash.as_str().to_owned();
            (FileState::FindingObject { hash }, FileAction::FindObject { hash: asked })
        },
        Err(e) => (FileState::Done { cache_id: None }, FileAction::Fail(e)),
    }
}

/// The next step of a `.narinfo` or NAR request of kind `file`, on what came
/// of its last action.
pub fn step_file(file: CacheFile, state: FileState, event: FileEvent) -> (r: (FileState, FileAction))
    requires
        state.accepts(event),
    ensures
        match state {
            FileState::Authorizing { .. } => event matches FileEvent::Authorized { cache_id }
                && r.0.authorized_cache() == Some(cache_id),
            _ => r.0.authorized_cache() == state.authorized_cache(),
        },
        file_acts_on_cache(r.1) ==> r.0.authorized_cache() is Some,
        r.1 matches FileAction::BumpAccess { cache_id, .. } ==> r.0.authorized_cache() == Some(cache_id),
        match (state, event) {
            (FileState::FindingObject { hash }, FileEvent::ObjectFound { signature, chunk_present }) => {
                &&& r.0 matches FileState::Authorizing { hash: h, signed, chunk_present: c } && h == hash
                    && signed == signature is Some && c == chunk_present
                &&& r.1 == FileAction::Authorize(Permission::Pull)
            },
            (FileState::Authorizing { hash, signed, chunk_present }, FileEvent::Authorized { cache_id }) => {
                match file {
                    CacheFile::NarInfo => r.0 == FileState::Done { cache_id: Some(cache_id) } && r.1
                        == FileAction::ServeNarInfo { sign: !signed },
                    CacheFile::Nar => if exists|i: int| 0 <= i < chunk_present@.len() && !chunk_present@[i] {
                        r.0 == FileState::Done { cache_id: Some(cache_id) } && r.1 == FileAction::Fail(
                            ApiError::IncompleteNar,
                        )
                    } else {
                        &&& r.0 == FileState::Bumping {
                            cache_id,
                            delivery: if chunk_present@.len() == 1 {
                                NarDelivery::SingleChunk
                            } else {
                                NarDelivery::Reassemble { prefetch: NAR_PREFETCH_CHUNKS }
                            },
                        }
                        &&& r.1 matches FileAction::BumpAccess { cache_id: c, hash: h } && c == cache_id
                            && h@ == hash@
                    },
                }
            },
            (FileState::Bumping { cache_id, delivery }, FileEvent::Bumped) => {
                r.0 == FileState::Done { cache_id: Some(cache_id) } && r.1 == FileAction::SendNar(delivery)
            },
            _ => false,
        },
{
    match (state, event) {
        (FileState::FindingObject { hash }, FileEvent::ObjectFound { signature, chunk_present }) => {
            let signed = !narinfo_needs_signature(&signature);
            (FileState::Authorizing { hash, signed, chunk_present }, FileAction::Authorize(Permission::Pull))
        },
        (FileState::Authorizing { hash, signed, chunk_present }, FileEvent::Authorized { cache_id }) => {
            match file {
                CacheFile::NarInfo => {
                    (FileState::Done { cache_id: Some(cache_id) }, FileAction::ServeNarInfo { sign: !signed })
                },
                CacheFile::Nar => match plan_nar_delivery(&chunk_present) {
                    Ok(delivery) => {
                        (FileState::Bumping { cache_id, delivery }, FileAction::BumpAccess { cache_id, hash })
                    },
                    Err(e) => (FileState::Done { cache_id: Some(cache_id) }, FileAction::Fail(e)),
                },
            }
        },
        (FileState::Bumping { cache_id, delivery }, FileEvent::Bumped) => {
            (FileState::Done { cache_id: Some(cache_id) }, FileAction::SendNar(delivery))
        },
        (state, _) => (state, FileAction::Fail(ApiError::NotFound)),
    }
}

} // verus!
