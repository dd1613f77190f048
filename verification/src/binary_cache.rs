//! The Nix binary cache API: what its handlers decide between the calls they
//! make to the database, the storage and the authorization of a request.

use vstd::prelude::*;
use crate::build_trace::{BuildTraceEntry, BuildTraceSignature, BUILD_TRACE_PREFIX, BUILD_TRACE_SUFFIX};
use crate::error::ApiError;
use crate::router::{Endpoint, Method, Route};
use crate::store_path::{is_valid_hash, lemma_valid_hash_is_32_alphabet_chars, NIX32_ALPHABET, StorePathHash};
use crate::text::{text_of, same_text, split_once, split_once_char, strip_suffix, strip_suffix_of, lemma_split_once_at};

verus! {

broadcast use vstd::string::group_string_axioms;

// ---------------------------------------------------------------------------
// nix-cache-info

/// Nix cache information, served at `/{cache}/nix-cache-info`.
///
/// A correct response looks like
///
/// ```text
/// WantMassQuery: 1
/// StoreDir: /nix/store
/// Priority: 40
/// ```
#[derive(Debug, Clone)]
pub struct NixCacheInfo {
    /// Whether this binary cache supports bulk queries.
    pub want_mass_query: bool,
    /// The Nix store path this binary cache uses.
    pub store_dir: String,
    /// The priority of the binary cache. A lower number denotes a higher
    /// priority; <https://cache.nixos.org> has a priority of 40.
    pub priority: i32,
}

/// The character of decimal digit `d`.
pub open spec fn digit_char(d: nat) -> char {
    ((48 + d) as u32) as char
}

/// The decimal digits of `n`, most significant first, without leading zeros.
pub open spec fn decimal_digits(n: nat) -> Seq<char>
    decreases n,
{
    if n < 10 {
        seq![digit_char(n)]
    } else {
        decimal_digits(n / 10).push(digit_char(n % 10))
    }
}

/// `n` written in decimal, with a leading `-` where it is negative.
pub open spec fn decimal(n: int) -> Seq<char> {
    if n < 0 {
        seq!['-'] + decimal_digits((-n) as nat)
    } else {
        decimal_digits(n as nat)
    }
}

/// The number a decimal numeral denotes, read digit by digit, the last
/// character being the units digit.
pub open spec fn numeral_value(s: Seq<char>) -> int
    decreases s.len(),
{
    if s.len() == 0 {
        0
    } else {
        numeral_value(s.drop_last()) * 10 + (s.last() as int - '0' as int)
    }
}

/// Writing a natural number in decimal is faithful: it takes at least one
/// character, every character is a digit `0` to `9`, there is no leading
/// zero, and the numeral reads back as the number.
pub proof fn lemma_decimal_digits_read_back(n: nat)
    ensures
        decimal_digits(n).len() >= 1,
        decimal_digits(n).len() > 1 <==> n >= 10,
        forall|i: int| 0 <= i < decimal_digits(n).len() ==> '0' <= #[trigger] decimal_digits(n)[i] <= '9',
        decimal_digits(n).len() > 1 ==> decimal_digits(n)[0] != '0',
        numeral_value(decimal_digits(n)) == n,
    decreases n,
{
    let d = decimal_digits(n);
    if n < 10 {
        assert(d == seq![digit_char(n)]);
        assert(digit_char(n) as int == 48 + n);
        assert(d.drop_last() =~= Seq::<char>::empty());
        assert(numeral_value(d) == numeral_value(d.drop_last()) * 10 + (d.last() as int - '0' as int));
    } else {
        let q = n / 10;
        let r = n % 10;
        lemma_decimal_digits_read_back(q);
        let p = decimal_digits(q);
        assert(d == p.push(digit_char(r)));
        assert(digit_char(r) as int == 48 + r);
        assert(d.drop_last() =~= p);
        assert(d.last() == digit_char(r));
        assert(numeral_value(d) == numeral_value(p) * 10 + r);
        assert(q * 10 + r == n);
        assert forall|i: int| 0 <= i < d.len() implies '0' <= #[trigger] d[i] <= '9' by {
            if i < p.len() {
                assert(d[i] == p[i]);
            }
        }
        assert(d[0] == p[0]);
        if q < 10 {
            assert(p == seq![digit_char(q)]);
            assert(digit_char(q) as int == 48 + q);
        }
    }
}

/// Writing an integer in decimal is faithful: a negative number is `-`
/// followed by the numeral of its magnitude, any other number is its
/// numeral, and the numeral reads back as the magnitude.
pub proof fn lemma_decimal_read_back(n: int)
    ensures
        n < 0 ==> decimal(n)[0] == '-' && numeral_value(decimal(n).drop_first()) == -n,
        n >= 0 ==> numeral_value(decimal(n)) == n,
        forall|i: int| (if n < 0 { 1int } else { 0int }) <= i < decimal(n).len() ==> '0' <= #[trigger] decimal(n)[i] <= '9',
{
    if n < 0 {
        let m = (-n) as nat;
        lemma_decimal_digits_read_back(m);
        assert(decimal(n).drop_first() =~= decimal_digits(m));
        assert forall|i: int| 1 <= i < decimal(n).len() implies '0' <= #[trigger] decimal(n)[i] <= '9' by {
            assert(decimal(n)[i] == decimal_digits(m)[i - 1]);
        }
    } else {
        lemma_decimal_digits_read_back(n as nat);
    }
}

/// The body of a `nix-cache-info` response for `info`: one `Key: value`
/// line per field, in the order of the fields, a flag written `1` or `0`.
pub open spec fn cache_info_manifest(info: NixCacheInfo) -> Seq<char> {
    "WantMassQuery: "@ + (if info.want_mass_query {
        "1"@
    } else {
        "0"@
    }) + "\nStoreDir: "@ + info.store_dir@ + "\nPriority: "@ + decimal(info.priority as int) + "\n"@
}

fn digit_str(d: u64) -> (s: &'static str)
    requires
        d < 10,
    ensures
        s@ == seq![digit_char(d as nat)],
{
    proof {
        reveal_strlit("0");
        reveal_strlit("1");
        reveal_strlit("2");
        reveal_strlit("3");
        reveal_strlit("4");
        reveal_strlit("5");
        reveal_strlit("6");
        reveal_strlit("7");
        reveal_strlit("8");
        reveal_strlit("9");
    }
    match d {
        0 => "0",
        1 => "1",
        2 => "2",
        3 => "3",
        4 => "4",
        5 => "5",
        6 => "6",
        7 => "7",
        8 => "8",
        _ => "9",
    }
}

fn push_decimal_digits(out: &mut String, n: u64)
    ensures
        final(out)@ == old(out)@ + decimal_digits(n as nat),
    decreases n,
{
    if n >= 10 {
        push_decimal_digits(out, n / 10);
    }
    out.append(digit_str(n % 10));
}

impl NixCacheInfo {
    /// The information served for a cache with the given store directory and
    /// priority. The cache always supports bulk queries.
    pub fn for_cache(store_dir: String, priority: i32) -> (info: NixCacheInfo)
        ensures
            info.want_mass_query,
            info.store_dir == store_dir,
            info.priority == priority,
    {
        NixCacheInfo { want_mass_query: true, store_dir, priority }
    }

    /// The body of the `nix-cache-info` response.
    pub fn to_manifest(&self) -> (body: String)
        ensures
            body@ == cache_info_manifest(*self),
    {
        let mut body = String::from_str("WantMassQuery: ");
        if self.want_mass_query {
            body.append("1");
        } else {
            body.append("0");
        }
        body.append("\nStoreDir: ");
        body.append(self.store_dir.as_str());
        body.append("\nPriority: ");
        if self.priority < 0 {
            body.append("-");
            let magnitude: u64 = (0 - (self.priority as i64)) as u64;
            push_decimal_digits(&mut body, magnitude);
            proof {
                reveal_strlit("-");
            }
        } else {
            push_decimal_digits(&mut body, self.priority as u64);
        }
        body.append("\n");
        assert(body@ =~= cache_info_manifest(*self));
        body
    }
}

// ---------------------------------------------------------------------------
// narinfo and nar

/// What the last segment `path` of `/{cache}/{path}` or
/// `/{cache}/nar/{path}` asks for, where the handler serves files with the
/// given extension: the store path hash before the first `.`, if the rest is
/// the extension.
pub open spec fn cache_file_request(path: Seq<char>, extension: Seq<char>) -> Result<Seq<char>, ApiError> {
    match split_once(path, '.') {
        None => Err(ApiError::NotFound),
        Some((stem, rest)) => {
            if rest != extension {
                Err(ApiError::NotFound)
            } else if !is_valid_hash(stem) {
                Err(ApiError::InvalidStorePathHash)
            } else {
                Ok(stem)
            }
        },
    }
}

fn parse_cache_file(path: &str, extension: &str) -> (r: Result<StorePathHash, ApiError>)
    ensures
        match (r, cache_file_request(path@, extension@)) {
            (Ok(h), Ok(s)) => h@ == s,
            (Err(e), Err(f)) => e == f,
            _ => false,
        },
{
    match split_once_char(path, '.') {
        None => Err(ApiError::NotFound),
        Some((stem, rest)) => {
            let extension = extension.to_owned();
            if !same_text(&rest, &extension) {
                return Err(ApiError::NotFound);
            }
            match StorePathHash::new(stem) {
                Ok(hash) => Ok(hash),
                Err(_) => Err(ApiError::InvalidStorePathHash),
            }
        },
    }
}

/// The store path hash that `GET /{cache}/{path}` asks the `.narinfo` of.
/// Other files of a store path are not served.
pub fn parse_narinfo_path(path: &str) -> (r: Result<StorePathHash, ApiError>)
    ensures
        match (r, cache_file_request(path@, "narinfo"@)) {
            (Ok(h), Ok(s)) => h@ == s,
            (Err(e), Err(f)) => e == f,
            _ => false,
        },
{
    parse_cache_file(path, "narinfo")
}

/// The store path hash that `GET /{cache}/nar/{path}` asks the NAR of.
pub fn parse_nar_path(path: &str) -> (r: Result<StorePathHash, ApiError>)
    ensures
        match (r, cache_file_request(path@, "nar"@)) {
            (Ok(h), Ok(s)) => h@ == s,
            (Err(e), Err(f)) => e == f,
            _ => false,
        },
{
    parse_cache_file(path, "nar")
}

/// Any 32 characters of Nix's base-32 alphabet name a store path whose
/// `.narinfo` and NAR are served: `{h}.narinfo` and `{h}.nar` ask for the
/// store path hash `h` itself.
pub proof fn lemma_cache_file_of_any_hash(h: Seq<char>)
    requires
        h.len() == 32,
        forall|i: int| 0 <= i < h.len() ==> NIX32_ALPHABET@.contains(#[trigger] h[i]),
    ensures
        cache_file_request(h + ".narinfo"@, "narinfo"@) == Ok::<Seq<char>, ApiError>(h),
        cache_file_request(h + ".nar"@, "nar"@) == Ok::<Seq<char>, ApiError>(h),
{
    reveal_strlit(".narinfo");
    reveal_strlit("narinfo");
    reveal_strlit(".nar");
    reveal_strlit("nar");
    lemma_valid_hash_is_32_alphabet_chars(h);
    assert(is_valid_hash(h));
    let a = h + ".narinfo"@;
    let b = h + ".nar"@;
    assert forall|j: int| 0 <= j < 32 implies a[j] != '.' && b[j] != '.' by {
        assert(a[j] == h[j] && b[j] == h[j]);
    }
    lemma_split_once_at(a, '.', 32);
    lemma_split_once_at(b, '.', 32);
    assert(a.take(32) =~= h);
    assert(a.skip(33) =~= "narinfo"@);
    assert(b.take(32) =~= h);
    assert(b.skip(33) =~= "nar"@);
}

/// Whether a `.narinfo` is signed with the cache's key before it is served:
/// only where it carries no signature of its own.
pub fn narinfo_needs_signature(signature: &Option<String>) -> (b: bool)
    ensures
        b == signature.is_none(),
{
    signature.is_none()
}

/// How many chunks are fetched ahead while a NAR is reassembled.
pub const NAR_PREFETCH_CHUNKS: usize = 2;

/// How a NAR is sent.
#[derive(Debug, Clone, Copy, PartialEq, Eq, Structural)]
pub enum NarDelivery {
    /// The NAR is its only chunk: redirect to it or stream it as it is.
    SingleChunk,
    /// The chunks are streamed one after another, `prefetch` of them fetched
    /// ahead.
    Reassemble { prefetch: usize },
}

/// How to send a NAR whose chunks are listed in order, `chunk_present[i]`
/// telling whether chunk `i` is still stored.
pub fn plan_nar_delivery(chunk_present: &Vec<bool>) -> (r: Result<NarDelivery, ApiError>)
    ensures
        (exists|i: int| 0 <= i < chunk_present@.len() && !chunk_present@[i]) ==> r == Err::<
            NarDelivery,
            ApiError,
        >(ApiError::IncompleteNar),
        (forall|i: int| 0 <= i < chunk_present@.len() ==> chunk_present@[i]) ==> r == if chunk_present@.len() == 1 {
            Ok::<NarDelivery, ApiError>(NarDelivery::SingleChunk)
        } else {
            Ok(NarDelivery::Reassemble { prefetch: NAR_PREFETCH_CHUNKS })
        },
{
    let mut i: usize = 0;
    while i < chunk_present.len()
        invariant
            i <= chunk_present@.len(),
            forall|j: int| 0 <= j < i ==> chunk_present@[j],
        decreases chunk_present@.len() - i,
    {
        if !chunk_present[i] {
            return Err(ApiError::IncompleteNar);
        }
        i = i + 1;
    }
    if chunk_present.len() == 1 {
        Ok(NarDelivery::SingleChunk)
    } else {
        Ok(NarDelivery::Reassemble { prefetch: NAR_PREFETCH_CHUNKS })
    }
}

// ---------------------------------------------------------------------------
// build traces

/// The key of a build trace entry within a cache: the derivation's base name
/// and the name of its output.
#[derive(Debug)]
pub struct BuildTraceKey {
    pub drv_path: String,
    pub output_name: String,
}

/// The output name that the last segment `output` of a build trace path names:
/// `output` without its `.doi` suffix, or `None` where it lacks the suffix.
pub open spec fn output_name_of(output: Seq<char>) -> Option<Seq<char>> {
    strip_suffix_of(output, BUILD_TRACE_SUFFIX@)
}

/// The key that the path `/{cache}/build-trace-v2/{drv_path}/{output}` names,
/// for reading and for writing alike. A path whose last segment lacks the
/// `.doi` suffix names nothing.
pub fn build_trace_key(drv_path: String, output: &str) -> (r: Result<BuildTraceKey, ApiError>)
    ensures
        match (r, output_name_of(output@)) {
            (Ok(key), Some(name)) => key.drv_path == drv_path && key.output_name@ == name,
            (Err(e), None) => e == ApiError::NotFound,
            _ => false,
        },
{
    match strip_suffix(output, BUILD_TRACE_SUFFIX) {
        Some(output_name) => Ok(BuildTraceKey { drv_path, output_name }),
        None => Err(ApiError::NotFound),
    }
}

/// A build trace path names the output whose name precedes `.doi`: a client
/// that writes to `{outputName}.doi` reads and writes the entry of
/// `outputName`.
pub proof fn lemma_output_name_of_suffixed(name: Seq<char>)
    ensures
        output_name_of(name + BUILD_TRACE_SUFFIX@) == Some(name),
{
    let s = name + BUILD_TRACE_SUFFIX@;
    assert(s.skip(s.len() - BUILD_TRACE_SUFFIX@.len()) =~= BUILD_TRACE_SUFFIX@);
    assert(s.take(s.len() - BUILD_TRACE_SUFFIX@.len()) =~= name);
}

/// Whether the cache's object for a store path hash, whose base name is
/// `recorded` (`None` where it has none), records the store path `out_path`.
pub open spec fn records_path(recorded: Option<Seq<char>>, out_path: Seq<char>) -> bool {
    recorded == Some(out_path)
}

/// Whether `recorded` is `out_path`.
pub fn recorded_path_matches(recorded: &Option<String>, out_path: &String) -> (b: bool)
    ensures
        b == records_path(text_of(*recorded), out_path@),
{
    match recorded {
        Some(name) => same_text(name, out_path),
        None => false,
    }
}

/// A build trace entry as the cache stored it.
#[derive(Debug)]
pub struct StoredBuildTrace {
    pub out_path: String,
    /// The hash part of `out_path`, stored beside it.
    pub out_path_hash: String,
    pub signatures: Vec<BuildTraceSignature>,
}

/// What a read of a build trace answers, given the entry the cache stored
/// under the key (`None` where there is none) and the base name of the
/// cache's object for the entry's hash.
///
/// An entry outlives the object a garbage collection reaps, and an object's
/// store path can change under a fixed hash, so an entry is served only while
/// the cache still records its store path: else the cache would assert a
/// store path it holds no NAR for.
pub open spec fn serve_outcome(stored: Option<StoredBuildTrace>, recorded: Option<Seq<char>>) -> Result<BuildTraceEntry, ApiError> {
    match stored {
        None => Err(ApiError::NoSuchObject),
        Some(s) => {
            if !is_valid_hash(s.out_path_hash@) {
                Err(ApiError::NoSuchObject)
            } else if !records_path(recorded, s.out_path@) {
                Err(ApiError::NoSuchObject)
            } else {
                Ok(BuildTraceEntry { out_path: s.out_path, signatures: s.signatures })
            }
        },
    }
}

/// A stored build trace entry that waits for the lookup of its object.
#[derive(Debug)]
pub struct PendingBuildTrace {
    /// The hash to look the object up by.
    pub out_path_hash: StorePathHash,
    /// The entry to serve if the object still records its store path.
    pub entry: BuildTraceEntry,
}

/// The first decision of a build trace read, on the entry found under the key:
/// `NoSuchObject` where there is none or its stored hash is malformed, else
/// the object lookup to make.
pub fn lookup_object_for(stored: Option<StoredBuildTrace>) -> (r: Result<PendingBuildTrace, ApiError>)
    ensures
        match stored {
            None => r == Err::<PendingBuildTrace, ApiError>(ApiError::NoSuchObject),
            Some(s) => if is_valid_hash(s.out_path_hash@) {
                &&& r is Ok
                &&& r->Ok_0.out_path_hash@ == s.out_path_hash@
                &&& r->Ok_0.entry == (BuildTraceEntry { out_path: s.out_path, signatures: s.signatures })
            } else {
                r == Err::<PendingBuildTrace, ApiError>(ApiError::NoSuchObject)
            },
        },
{
    match stored {
        None => Err(ApiError::NoSuchObject),
        Some(s) => match StorePathHash::new(s.out_path_hash) {
            Ok(out_path_hash) => Ok(
                PendingBuildTrace {
                    out_path_hash,
                    entry: BuildTraceEntry { out_path: s.out_path, signatures: s.signatures },
                },
            ),
            Err(_) => Err(ApiError::NoSuchObject),
        },
    }
}

impl PendingBuildTrace {
    /// The answer of the read, given the base name of the cache's object for
    /// the entry's hash.
    pub fn serve(self, recorded: Option<String>) -> (r: Result<BuildTraceEntry, ApiError>)
        ensures
            records_path(text_of(recorded), self.entry.out_path@) ==> r == Ok::<BuildTraceEntry, ApiError>(
                self.entry,
            ),
            !records_path(text_of(recorded), self.entry.out_path@) ==> r == Err::<BuildTraceEntry, ApiError>(
                ApiError::NoSuchObject,
            ),
    {
        if recorded_path_matches(&recorded, &self.entry.out_path) {
            Ok(self.entry)
        } else {
            Err(ApiError::NoSuchObject)
        }
    }
}

/// The two steps of a read together answer what `serve_outcome` says.
pub proof fn lemma_read_steps(stored: Option<StoredBuildTrace>, recorded: Option<Seq<char>>, pending: Result<PendingBuildTrace, ApiError>, served: Result<BuildTraceEntry, ApiError>)
    requires
        match stored {
            None => pending == Err::<PendingBuildTrace, ApiError>(ApiError::NoSuchObject),
            Some(s) => if is_valid_hash(s.out_path_hash@) {
                &&& pending is Ok
                &&& pending->Ok_0.out_path_hash@ == s.out_path_hash@
                &&& pending->Ok_0.entry == (BuildTraceEntry { out_path: s.out_path, signatures: s.signatures })
            } else {
                pending == Err::<PendingBuildTrace, ApiError>(ApiError::NoSuchObject)
            },
        },
        pending matches Ok(p) ==> {
            &&& records_path(recorded, p.entry.out_path@) ==> served == Ok::<BuildTraceEntry, ApiError>(p.entry)
            &&& !records_path(recorded, p.entry.out_path@) ==> served == Err::<BuildTraceEntry, ApiError>(ApiError::NoSuchObject)
        },
        pending matches Err(e) ==> served == Err::<BuildTraceEntry, ApiError>(e),
    ensures
        served == serve_outcome(stored, recorded),
{
}

// ---------------------------------------------------------------------------
// routes

/// The path template of the build trace routes.
pub open spec fn build_trace_route_path() -> Seq<char> {
    "/{cache}/"@ + BUILD_TRACE_PREFIX@ + "/{drv_path}/{output}"@
}

/// The routes of the binary cache, as (method, path template, handler).
pub open spec fn binary_cache_routes() -> Seq<(Method, Seq<char>, Endpoint)> {
    seq![
        (Method::Get, "/{cache}/nix-cache-info"@, Endpoint::NixCacheInfo),
        (Method::Get, "/{cache}/{path}"@, Endpoint::StorePathInfo),
        (Method::Get, "/{cache}/nar/{path}"@, Endpoint::Nar),
        (Method::Get, build_trace_route_path(), Endpoint::GetBuildTrace),
    ]
}

/// The path template of the build trace routes, written out.
pub fn build_trace_route() -> (path: String)
    ensures
        path@ == build_trace_route_path(),
{
    let mut path = String::from_str("/{cache}/");
    path.append(BUILD_TRACE_PREFIX);
    path.append("/{drv_path}/{output}");
    path
}

/// The routes of the binary cache.
pub fn get_router() -> (routes: Vec<Route>)
    ensures
        routes@.len() == binary_cache_routes().len(),
        forall|i: int|
            0 <= i < routes@.len() ==> crate::router::route_view(#[trigger] routes@[i])
                == binary_cache_routes()[i],
{
    let mut routes: Vec<Route> = Vec::new();
    routes.push(
        Route {
            method: Method::Get,
            path: "/{cache}/nix-cache-info".to_owned(),
            endpoint: Endpoint::NixCacheInfo,
        },
    );
    routes.push(
        Route {
            method: Method::Get,
            path: "/{cache}/{path}".to_owned(),
            endpoint: Endpoint::StorePathInfo,
        },
    );
    routes.push(
        Route {
            method: Method::Get,
            path: "/{cache}/nar/{path}".to_owned(),
            endpoint: Endpoint::Nar,
        },
    );
    routes.push(
        Route { method: Method::Get, path: build_trace_route(), endpoint: Endpoint::GetBuildTrace },
    );
    assert forall|i: int|
        0 <= i < routes@.len() implies crate::router::route_view(#[trigger] routes@[i])
        == binary_cache_routes()[i] by {
        if i == 0 {
        } else if i == 1 {
        } else if i == 2 {
        } else {
        }
    }
    routes
}

/// Every binary cache route answers `GET`, on a path other than `/`, and no
/// two of them share a path.
pub proof fn lemma_route_paths()
    ensures
        forall|i: int|
            0 <= i < binary_cache_routes().len() ==> (#[trigger] binary_cache_routes()[i]).0
                == Method::Get && binary_cache_routes()[i].1 != seq!['/'],
        forall|i: int, j: int|
            0 <= i < j < binary_cache_routes().len() ==> (#[trigger] binary_cache_routes()[i]).1
                != (#[trigger] binary_cache_routes()[j]).1,
{
    reveal_strlit("/{cache}/nix-cache-info");
    reveal_strlit("/{cache}/{path}");
    reveal_strlit("/{cache}/nar/{path}");
    reveal_strlit("/{cache}/");
    reveal_strlit("build-trace-v2");
    reveal_strlit("/{drv_path}/{output}");
    let r = binary_cache_routes();
    assert(r[0].1.len() == 23);
    assert(r[1].1.len() == 15);
    assert(r[2].1.len() == 19);
    assert(r[3].1.len() == 43);
}

} // verus!
