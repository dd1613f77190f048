//! Build trace upload: `PUT /:cache/build-trace-v2/{drvName}.drv/{outputName}.doi`
//! records the store path that a derivation output realized to.
//!
//! The upload is decided in steps, between which the caller does the outside
//! work: after [`begin_upload`] names the key, it authorizes the
//! request for pushing to the cache, then [`BuildTraceUpload::check`] refuses
//! oversized fields and malformed store paths, then the caller looks up the
//! cache's object for the store path hash, [`PendingUpsert::object_found`]
//! refuses a store path the cache does not hold, the caller runs the upsert
//! and [`upsert_outcome`] reads its result.

use vstd::prelude::*;
use crate::binary_cache::{records_path, recorded_path_matches, BuildTraceKey, build_trace_route, build_trace_route_path};
use crate::build_trace::{BuildTraceEntry, BuildTraceSignature};
use crate::error::ApiError;
use crate::router::{Endpoint, Method, Route};
use crate::store_path::{is_valid_base_name, is_valid_hash, StorePath, StorePathHash, STORE_PATH_HASH_LEN};
use crate::text::{text_of, utf8_len};

verus! {

/// Longest derivation base name an upload may carry, in bytes. Equal to the
/// width of the `drv_path` column.
pub const MAX_DRV_PATH_LEN: usize = 255;

/// Longest output name an upload may carry, in bytes. Equal to the width of
/// the `output_name` column.
pub const MAX_OUTPUT_NAME_LEN: usize = 128;

/// Longest `outPath` an upload may carry, in bytes. Equal to the width of the
/// `out_path` column.
pub const MAX_OUT_PATH_LEN: usize = 255;

/// A build trace upload whose path names a key, waiting for authorization.
#[derive(Debug)]
pub struct BuildTraceUpload {
    pub key: BuildTraceKey,
    pub entry: BuildTraceEntry,
}

/// The row an upload writes, but for its creation time.
#[derive(Debug)]
pub struct BuildTraceRow {
    pub cache_id: i64,
    pub drv_path: String,
    pub output_name: String,
    pub out_path: String,
    pub out_path_hash: StorePathHash,
    pub signatures: Vec<BuildTraceSignature>,
    /// The uploader, where the request names one.
    pub created_by: Option<String>,
}

/// An upload that passed its checks, waiting for the lookup of the cache's
/// object for its store path hash.
#[derive(Debug)]
pub struct PendingUpsert {
    pub row: BuildTraceRow,
}

/// What the checks of an upload answer on the key and the `outPath`: fields
/// longer than their columns are refused first (the database would refuse or
/// silently accept them, depending on the backend), then an `outPath` that is
/// not a store path base name.
pub open spec fn upload_check(drv_path: Seq<char>, output_name: Seq<char>, out_path: Seq<char>) -> Result<(), ApiError> {
    if utf8_len(drv_path) > MAX_DRV_PATH_LEN || utf8_len(output_name) > MAX_OUTPUT_NAME_LEN
        || utf8_len(out_path) > MAX_OUT_PATH_LEN {
        Err(ApiError::EntryTooLong)
    } else if !is_valid_base_name(out_path) {
        Err(ApiError::InvalidOutPath)
    } else {
        Ok(())
    }
}

/// The hash stored beside an uploaded `outPath`: its first 32 characters.
pub open spec fn hash_of_out_path(out_path: Seq<char>) -> Seq<char> {
    out_path.take(STORE_PATH_HASH_LEN as int)
}

/// Starts an upload to the key that the request path names.
pub fn begin_upload(drv_path: String, output: &str, entry: BuildTraceEntry) -> (r: Result<BuildTraceUpload, ApiError>)
    ensures
        match (r, crate::binary_cache::output_name_of(output@)) {
            (Ok(u), Some(name)) => {
                &&& u.key.drv_path == drv_path
                &&& u.key.output_name@ == name
                &&& u.entry == entry
            },
            (Err(e), None) => e == ApiError::NotFound,
            _ => false,
        },
{
    match crate::binary_cache::build_trace_key(drv_path, output) {
        Ok(key) => Ok(BuildTraceUpload { key, entry }),
        Err(e) => Err(e),
    }
}

impl BuildTraceUpload {
    /// Checks the authorized upload to the cache `cache_id` by `created_by`,
    /// and prepares its row.
    pub fn check(self, cache_id: i64, created_by: Option<String>) -> (r: Result<PendingUpsert, ApiError>)
        ensures
            match upload_check(self.key.drv_path@, self.key.output_name@, self.entry.out_path@) {
                Err(e) => r == Err::<PendingUpsert, ApiError>(e),
                Ok(()) => r matches Ok(p) && {
                    &&& p.row.cache_id == cache_id
                    &&& p.row.drv_path == self.key.drv_path
                    &&& p.row.output_name == self.key.output_name
                    &&& p.row.out_path == self.entry.out_path
                    &&& p.row.out_path_hash@ == hash_of_out_path(self.entry.out_path@)
                    &&& p.row.signatures == self.entry.signatures
                    &&& p.row.created_by == created_by
                },
            },
    {
        let drv_len = self.key.drv_path.as_str().as_bytes().len();
        let output_len = self.key.output_name.as_str().as_bytes().len();
        let out_path_len = self.entry.out_path.as_str().as_bytes().len();
        if drv_len > MAX_DRV_PATH_LEN || output_len > MAX_OUTPUT_NAME_LEN || out_path_len
            > MAX_OUT_PATH_LEN {
            return Err(ApiError::EntryTooLong);
        }
        let out_path = match StorePath::from_base_name(self.entry.out_path.as_str()) {
            Ok(p) => p,
            Err(_) => return Err(ApiError::InvalidOutPath),
        };
        let out_path_hash = out_path.to_hash();
        Ok(
            PendingUpsert {
                row: BuildTraceRow {
                    cache_id,
                    drv_path: self.key.drv_path,
                    output_name: self.key.output_name,
                    out_path: self.entry.out_path,
                    out_path_hash,
                    signatures: self.entry.signatures,
                    created_by,
                },
            },
        )
    }
}

/// A point in time, in full precision: whole seconds since the Unix epoch
/// and the nanoseconds since the last whole second.
#[derive(Debug, Clone, Copy, PartialEq, Eq, Structural)]
pub struct Timestamp {
    pub secs: i64,
    pub subsec_nanos: u32,
}

/// An accepted upload: its row and the time it was created.
#[derive(Debug)]
pub struct Upsert {
    pub row: BuildTraceRow,
    pub created_at: Timestamp,
}

/// The current time, read with `chrono::Utc::now` and taken apart with
/// `chrono::DateTime::timestamp` and `chrono::DateTime::timestamp_subsec_nanos`
/// without loss. Which time it is, the clock decides.
/// The clock reads a time after the Unix epoch (`chrono::Utc::now` panics
/// otherwise), in whole seconds and fewer than 10^9 nanoseconds, since it
/// takes them from a `std::time::Duration`.
#[verifier::external_body]
fn utc_now() -> (now: Timestamp)
    ensures
        now.secs >= 0,
        now.subsec_nanos < 1_000_000_000,
{
    let now = chrono::Utc::now();
    Timestamp { secs: now.timestamp(), subsec_nanos: now.timestamp_subsec_nanos() }
}

impl PendingUpsert {
    /// Decides on the row, given the base name of the cache's object for its
    /// store path hash: the row is written only where the cache records the
    /// uploaded store path. This keeps the binding inside the cache: a cache
    /// holding no such object could otherwise assert a path that a client then
    /// fetches from some other cache. An accepted row is stamped with the
    /// current time.
    pub fn object_found(self, recorded: Option<String>) -> (r: Result<Upsert, ApiError>)
        ensures
            records_path(text_of(recorded), self.row.out_path@) ==> (r matches Ok(u) && u.row
                == self.row && u.created_at.secs >= 0 && u.created_at.subsec_nanos < 1_000_000_000),
            !records_path(text_of(recorded), self.row.out_path@) ==> r == Err::<Upsert, ApiError>(
                ApiError::OutPathMismatch,
            ),
    {
        if recorded_path_matches(&recorded, &self.row.out_path) {
            let created_at = utc_now();
            Ok(Upsert { row: self.row, created_at })
        } else {
            Err(ApiError::OutPathMismatch)
        }
    }
}

/// The answer of an upload, given how many rows its upsert wrote. The upsert
/// selects its row from the cache's objects, so a garbage collection that
/// reaps the object between the lookup and the write leaves no row to write.
pub fn upsert_outcome(rows_affected: u64) -> (r: Result<(), ApiError>)
    ensures
        rows_affected == 0 ==> r == Err::<(), ApiError>(ApiError::NoSuchObject),
        rows_affected > 0 ==> r == Ok::<(), ApiError>(()),
{
    if rows_affected == 0 {
        Err(ApiError::NoSuchObject)
    } else {
        Ok(())
    }
}

/// An accepted upload stores a well-formed store path hash beside its
/// `outPath`, and that hash is the hash part of the `outPath`.
pub proof fn lemma_accepted_upload_hash(drv_path: Seq<char>, output_name: Seq<char>, out_path: Seq<char>)
    requires
        upload_check(drv_path, output_name, out_path) is Ok,
    ensures
        is_valid_hash(hash_of_out_path(out_path)),
        out_path == hash_of_out_path(out_path) + seq!['-'] + out_path.skip(
            STORE_PATH_HASH_LEN + 1,
        ),
{
    assert(out_path =~= hash_of_out_path(out_path) + seq!['-'] + out_path.skip(
        STORE_PATH_HASH_LEN + 1,
    ));
}

/// Read after write: once an upload of `entry` is accepted, a read of the same
/// key that finds the row the upload wrote, while the cache still records the
/// same store path for its hash, serves `entry` unchanged.
pub proof fn lemma_read_after_write(
    drv_path: Seq<char>,
    output_name: Seq<char>,
    entry: BuildTraceEntry,
    recorded: Option<Seq<char>>,
    stored: crate::binary_cache::StoredBuildTrace,
)
    requires
        upload_check(drv_path, output_name, entry.out_path@) is Ok,
        records_path(recorded, entry.out_path@),
        stored.out_path == entry.out_path,
        stored.out_path_hash@ == hash_of_out_path(entry.out_path@),
        stored.signatures == entry.signatures,
    ensures
        crate::binary_cache::serve_outcome(Some(stored), recorded) == Ok::<
            BuildTraceEntry,
            ApiError,
        >(entry),
{
    lemma_accepted_upload_hash(drv_path, output_name, entry.out_path@);
}

/// The routes of the v1 API that this library serves, as (method, path
/// template, handler).
pub open spec fn v1_routes() -> Seq<(Method, Seq<char>, Endpoint)> {
    seq![(Method::Put, build_trace_route_path(), Endpoint::PutBuildTrace)]
}

/// The routes of the v1 API that this library serves.
pub fn get_router() -> (routes: Vec<Route>)
    ensures
        routes@.len() == v1_routes().len(),
        forall|i: int|
            0 <= i < routes@.len() ==> crate::router::route_view(#[trigger] routes@[i])
                == v1_routes()[i],
{
    let mut routes: Vec<Route> = Vec::new();
    routes.push(
        Route { method: Method::Put, path: build_trace_route(), endpoint: Endpoint::PutBuildTrace },
    );
    routes
}

/// Every v1 route answers `PUT`, and no two of them share a path.
pub proof fn lemma_route_paths()
    ensures
        forall|i: int| 0 <= i < v1_routes().len() ==> (#[trigger] v1_routes()[i]).0 == Method::Put,
        forall|i: int, j: int|
            0 <= i < j < v1_routes().len() ==> (#[trigger] v1_routes()[i]).1 != (
            #[trigger] v1_routes()[j]).1,
{
}

} // verus!
