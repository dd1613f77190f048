//! Build trace entries: which store path a derivation output realized to.
//!
//! Served at `GET`/`PUT` `/:cache/build-trace-v2/{drvName}.drv/{outputName}.doi`.
//! Reading requires the "pull" permission, writing the "push" permission.
//! Nix defines the path layout and the JSON body (`outPath`, `signatures`,
//! and in a signature `keyName` and `sig`), so the names here are fixed.
//!
//! Nix writes the unkeyed half of an entry to the cache, since the path
//! carries the key, which is why [`BuildTraceEntry`] has no `key` field.

use vstd::prelude::*;

verus! {

/// Path component introducing a build trace lookup.
///
/// Nix raises this version while the feature is experimental and abandons the
/// entries at the old prefix.
pub const BUILD_TRACE_PREFIX: &'static str = "build-trace-v2";

/// Suffix on the output name in a build trace path.
pub const BUILD_TRACE_SUFFIX: &'static str = ".doi";

/// A build trace entry, as Nix reads and writes it.
#[derive(Debug, Clone)]
pub struct BuildTraceEntry {
    /// Base name of the realized store path, without the store directory
    /// prefix. Written `outPath` in JSON.
    pub out_path: String,
    /// Signatures over the entry. Nix accepts an empty list, and an entry
    /// without the field has none.
    pub signatures: Vec<BuildTraceSignature>,
}

/// One signature over a build trace entry.
///
/// Neither Nix nor the cache verifies these when substituting, so both fields
/// stay unparsed strings and any entry Nix accepts round-trips unchanged.
#[derive(Debug, Clone)]
pub struct BuildTraceSignature {
    /// Name of the key that produced `sig`. Written `keyName` in JSON.
    pub key_name: String,
    /// Base64 of the raw signature bytes.
    pub sig: String,
}

impl PartialEq for BuildTraceSignature {
    fn eq(&self, other: &Self) -> (r: bool) {
        String::eq(&self.key_name, &other.key_name) && String::eq(&self.sig, &other.sig)
    }
}

impl vstd::std_specs::cmp::PartialEqSpecImpl for BuildTraceSignature {
    open spec fn obeys_eq_spec() -> bool {
        true
    }

    open spec fn eq_spec(&self, other: &Self) -> bool {
        self.key_name@ == other.key_name@ && self.sig@ == other.sig@
    }
}

impl Eq for BuildTraceSignature {

}

} // verus!
