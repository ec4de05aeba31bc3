//! The Sidecar Locator's search pattern.
//!
//! Sidecar files live anywhere under `{cache root}/cache/json/`, at any
//! depth. The traversal itself is filesystem work done by the caller; what
//! this module fixes is the pattern that names exactly those files.

use vstd::prelude::*;
use vstd::string::*;

verus! {

/// The glob pattern matching every sidecar file beneath the cache root,
/// regardless of subdirectory depth.
pub fn sidecar_glob_pattern(photoprism_dir: &str) -> (r: String)
    ensures
        r@ == photoprism_dir@ + "/cache/json/**/*.json"@,
{
    let mut pattern = String::from_str(photoprism_dir);
    pattern.append("/cache/json/**/*.json");
    pattern
}

} // verus!
