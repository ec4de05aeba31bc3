//! Recovery of original media files from a photo catalogue's cache.
//!
//! The cache stores resized thumbnails under a hashed, sharded directory
//! layout, and a metadata sidecar file beside each one. This library holds
//! the logic that bridges the two naming schemes: deriving, from a sidecar's
//! own location, the path of the matching thumbnail, and, from the sidecar's
//! content, the destination path of the recovered original; and the decision
//! procedure that copies each asset into the destination tree exactly once.

use vstd::prelude::*;

pub mod locate;
pub mod materialize;
pub mod paths;
pub mod reconcile;

verus! {

} // verus!
