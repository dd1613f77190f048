//! Build traces and the Nix binary cache API of an Attic cache server: the
//! decisions its request handlers make, with their contracts proved.

pub mod binary_cache;
pub mod build_trace;
pub mod error;
pub mod router;
pub mod store_path;
pub mod text;
pub mod upload;
pub mod schema;
pub mod table;
pub mod flow;
