//! The Asset Materializer's decision procedure.
//!
//! Given the two facts the filesystem can report about a reconciled item —
//! whether the expected thumbnail exists, and whether the destination file
//! already exists — this module decides what is to be done with the item.
//! The caller performs the filesystem actions; only an item whose outcome is
//! [`Outcome::Materialized`] is copied and has its metadata restored.

use vstd::prelude::*;
use vstd::string::*;

verus! {

/// The per-item result of the materialization decision.
#[derive(Clone, Copy, Debug, PartialEq, Eq, Structural)]
pub enum Outcome {
    /// The expected cached thumbnail is absent: the item cannot be recovered
    /// by this run. Nothing is written.
    MissingThumbnail,
    /// The destination file already exists: the item was recovered by an
    /// earlier run (or collides with one that was). Nothing is written.
    AlreadyMaterialized,
    /// The thumbnail exists and the destination does not: the asset is to be
    /// copied and its metadata restored.
    Materialized,
}

/// What the Materializer decides for an item, as a function of the two
/// existence checks.
pub open spec fn decide_spec(thumbnail_exists: bool, destination_exists: bool) -> Outcome {
    if !thumbnail_exists {
        Outcome::MissingThumbnail
    } else if destination_exists {
        Outcome::AlreadyMaterialized
    } else {
        Outcome::Materialized
    }
}

/// Whether an outcome asks the caller to copy the asset and restore its
/// metadata. Only `Materialized` does: every other outcome leaves the
/// destination tree untouched.
pub open spec fn writes_destination(o: Outcome) -> bool {
    o is Materialized
}

/// Decide what to do with one reconciled item.
///
/// The two arguments are the results of the existence checks on the computed
/// thumbnail path and on the computed destination path.
pub fn decide(thumbnail_exists: bool, destination_exists: bool) -> (r: Outcome)
    ensures
        r == decide_spec(thumbnail_exists, destination_exists),
{
    if !thumbnail_exists {
        Outcome::MissingThumbnail
    } else if destination_exists {
        Outcome::AlreadyMaterialized
    } else {
        Outcome::Materialized
    }
}

/// Whether the destination file exists after an item is processed: the copy
/// is performed exactly when the decision is `Materialized`, and nothing
/// ever removes a destination file.
pub open spec fn destination_after(thumbnail_exists: bool, destination_exists: bool) -> bool {
    destination_exists || decide_spec(thumbnail_exists, destination_exists) is Materialized
}

/// If the thumbnail is missing, the item is reported as `MissingThumbnail`
/// and the destination tree is left unchanged.
pub proof fn lemma_missing_thumbnail(destination_exists: bool)
    ensures
        decide_spec(false, destination_exists) == Outcome::MissingThumbnail,
        !writes_destination(decide_spec(false, destination_exists)),
        destination_after(false, destination_exists) == destination_exists,
{
}

/// If the destination file already exists — whatever its content — the item
/// is never copied again and metadata restoration is not re-invoked.
pub proof fn lemma_no_double_copy(thumbnail_exists: bool)
    ensures
        !writes_destination(decide_spec(thumbnail_exists, true)),
        thumbnail_exists ==> decide_spec(thumbnail_exists, true) == Outcome::AlreadyMaterialized,
{
}

/// Processing an item a second time is a no-op: the destination state that a
/// first run leaves behind is a fixed point, and the second run never writes.
/// An item the first run materialized is reported as `AlreadyMaterialized`
/// the second time.
pub proof fn lemma_idempotent(thumbnail_exists: bool, destination_exists: bool)
    ensures
        destination_after(thumbnail_exists, destination_after(thumbnail_exists, destination_exists))
            == destination_after(thumbnail_exists, destination_exists),
        !writes_destination(
            decide_spec(thumbnail_exists, destination_after(thumbnail_exists, destination_exists)),
        ),
        decide_spec(thumbnail_exists, destination_exists) is Materialized ==> decide_spec(
            thumbnail_exists,
            destination_after(thumbnail_exists, destination_exists),
        ) == Outcome::AlreadyMaterialized,
{
}

/// The argument list for the external metadata-restoration tool: copy the
/// tags recorded in the sidecar onto the freshly copied destination file,
/// overwriting it in place.
pub fn restore_metadata_args(sidecar_path: &str, destination_path: &str) -> (r: Vec<String>)
    ensures
        r@.len() == 4,
        r@[0]@ == "-tagsfromfile"@,
        r@[1]@ == sidecar_path@,
        r@[2]@ == destination_path@,
        r@[3]@ == "-overwrite_original"@,
{
    let mut args: Vec<String> = Vec::new();
    args.push(String::from_str("-tagsfromfile"));
    args.push(String::from_str(sidecar_path));
    args.push(String::from_str(destination_path));
    args.push(String::from_str("-overwrite_original"));
    args
}

} // verus!
