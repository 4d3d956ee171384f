//! The names under which the arguments of the operations are reported when
//! one of them is missing.

use vstd::prelude::*;

verus! {

/// The handle of the cache an operation works on.
pub const CACHE_ARG: &'static str = "cache";

/// The base directory of a cache.
pub const DATA_DIR_ARG: &'static str = "data_dir";

/// The comma-separated list of features a cache supports.
pub const FEATURES_ARG: &'static str = "supported_features";

/// The bytes of a module.
pub const WASM_ARG: &'static str = "wasm";

} // verus!
