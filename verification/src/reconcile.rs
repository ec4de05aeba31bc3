//! The Path Reconciler: bridging the cache's two naming conventions.
//!
//! A sidecar's own location encodes where the matching cached thumbnail
//! lives: the filename's prefix up to the first `_` (or, failing that, up to
//! the first `.`) is a content identifier shared with the thumbnail, and the
//! three ancestor directory names are the shard segments of the cache's
//! hashed layout. The sidecar's content, on the other hand, records the
//! original file's logical path, whose last two segments are the bucket and
//! the original filename; those two name the destination. Both derivations
//! are pure functions of their inputs and touch no filesystem state.

use vstd::prelude::*;
use vstd::string::*;
use crate::paths::{prefix_before, prefix_before_char, split_char, split_on};

verus! {

/// A sidecar that does not conform to the expected naming or content
/// convention. The offending item is skipped; the run continues.
#[derive(Clone, Copy, Debug, PartialEq, Eq, Structural)]
pub enum ReconcileError {
    /// The sidecar's own path has fewer than three ancestor directories, or
    /// its filename yields an empty content identifier.
    MalformedSidecarPath,
    /// The recorded source path has fewer than two segments, so no bucket
    /// and filename can be read off it.
    MalformedSourcePath,
    /// The sidecar content does not carry a `SourceFile` string field in the
    /// first element of its list structure.
    MissingMetadataField,
}

/// The content identifier a sidecar filename carries: the prefix up to the
/// first `_`, and, within that, up to the first `.`.
pub open spec fn identifier_of(filename: Seq<char>) -> Seq<char> {
    prefix_before(prefix_before(filename, '_'), '.')
}

/// Whether a sidecar path yields a thumbnail path: it must have at least
/// three ancestor directories, none of them with an empty name, and its
/// filename must yield a non-empty content identifier.
pub open spec fn thumbnail_ok(json_path: Seq<char>) -> bool {
    let segs = split_on(json_path, '/');
    let n = segs.len() as int;
    &&& n >= 4
    &&& segs[n - 4].len() > 0
    &&& segs[n - 3].len() > 0
    &&& segs[n - 2].len() > 0
    &&& identifier_of(segs[n - 1]).len() > 0
}

/// The cached thumbnail path a sidecar path resolves to: the cache root,
/// the three shard segments in path order (outermost ancestor first), and
/// the identifier with the fixed size suffix.
pub open spec fn thumbnail_path_spec(photoprism_dir: Seq<char>, json_path: Seq<char>) -> Seq<
    char,
> {
    let segs = split_on(json_path, '/');
    let n = segs.len() as int;
    photoprism_dir + "/cache/thumbnails/"@ + segs[n - 4] + "/"@ + segs[n - 3] + "/"@ + segs[n - 2]
        + "/"@ + identifier_of(segs[n - 1]) + "_2048x2048_fit.jpg"@
}

/// The content identifier of a sidecar filename.
pub fn identifier<'a>(filename: &'a str) -> (r: &'a str)
    ensures
        r@ == identifier_of(filename@),
{
    let before_underscore = prefix_before_char(filename, '_');
    prefix_before_char(before_underscore, '.')
}

/// Derive the cached-thumbnail path from a sidecar's own path.
///
/// This reads nothing but the two strings: the thumbnail's location is
/// encoded entirely in the sidecar's filename and its three ancestor
/// directory names.
pub fn thumbnail_path_from_json_path(photoprism_dir: &str, json_path: &str) -> (r: Result<
    String,
    ReconcileError,
>)
    ensures
        thumbnail_ok(json_path@) ==> (r matches Ok(p) && p@ == thumbnail_path_spec(
            photoprism_dir@,
            json_path@,
        )),
        !thumbnail_ok(json_path@) ==> r == Err::<String, ReconcileError>(
            ReconcileError::MalformedSidecarPath,
        ),
{
    let ghost ss = split_on(json_path@, '/');
    let segs = split_char(json_path, '/');
    let n = segs.len();
    if n < 4 {
        return Err(ReconcileError::MalformedSidecarPath);
    }
    proof {
        assert(ss[n - 1] == segs@[n - 1]@);
        assert(ss[n - 2] == segs@[n - 2]@);
        assert(ss[n - 3] == segs@[n - 3]@);
        assert(ss[n - 4] == segs@[n - 4]@);
    }
    let ident = identifier(segs[n - 1].as_str());
    if ident.is_empty() {
        return Err(ReconcileError::MalformedSidecarPath);
    }
    let shards_empty = segs[n - 4].as_str().is_empty() || segs[n - 3].as_str().is_empty()
        || segs[n - 2].as_str().is_empty();
    if shards_empty {
        return Err(ReconcileError::MalformedSidecarPath);
    }
    let mut out = String::from_str(photoprism_dir);
    out.append("/cache/thumbnails/");
    out.append(segs[n - 4].as_str());
    out.append("/");
    out.append(segs[n - 3].as_str());
    out.append("/");
    out.append(segs[n - 2].as_str());
    out.append("/");
    out.append(ident);
    out.append("_2048x2048_fit.jpg");
    Ok(out)
}

/// Whether a recorded source path yields a destination: it must have at
/// least two segments.
pub open spec fn source_ok(source_file: Seq<char>) -> bool {
    split_on(source_file, '/').len() >= 2
}

/// The destination directory a source path resolves to: the output root
/// plus the bucket (the source path's second-to-last segment).
pub open spec fn destination_parent_spec(out_dir: Seq<char>, source_file: Seq<char>) -> Seq<
    char,
> {
    let segs = split_on(source_file, '/');
    out_dir + "/"@ + segs[segs.len() - 2]
}

/// The destination path a source path resolves to: the destination
/// directory plus the original filename (the source path's last segment).
pub open spec fn destination_path_spec(out_dir: Seq<char>, source_file: Seq<char>) -> Seq<char> {
    let segs = split_on(source_file, '/');
    destination_parent_spec(out_dir, source_file) + "/"@ + segs[segs.len() - 1]
}

/// Where a recovered original is to be written: the directory that may have
/// to be created, and the full file path inside it.
#[derive(Debug)]
pub struct DestinationPath {
    /// The directory holding the destination file: `{output root}/{bucket}`.
    pub parent: String,
    /// The full destination path: `{output root}/{bucket}/{filename}`.
    pub path: String,
}

/// Derive the destination from the source path a sidecar records.
pub fn destination_from_source_file(out_dir: &str, source_file: &str) -> (r: Result<
    DestinationPath,
    ReconcileError,
>)
    ensures
        source_ok(source_file@) ==> (r matches Ok(d) && d.parent@ == destination_parent_spec(
            out_dir@,
            source_file@,
        ) && d.path@ == destination_path_spec(out_dir@, source_file@)),
        !source_ok(source_file@) ==> r == Err::<DestinationPath, ReconcileError>(
            ReconcileError::MalformedSourcePath,
        ),
{
    let ghost ss = split_on(source_file@, '/');
    let segs = split_char(source_file, '/');
    let n = segs.len();
    if n < 2 {
        return Err(ReconcileError::MalformedSourcePath);
    }
    proof {
        assert(ss[n - 1] == segs@[n - 1]@);
        assert(ss[n - 2] == segs@[n - 2]@);
    }
    let mut parent = String::from_str(out_dir);
    parent.append("/");
    parent.append(segs[n - 2].as_str());
    let mut path = parent.clone();
    path.append("/");
    path.append(segs[n - 1].as_str());
    Ok(DestinationPath { parent, path })
}

/// The `SourceFile` field of the first element of a sidecar document, if
/// the text parses to such a structure. A pure function of the text: it is
/// given no definition here, but named so that contracts downstream of the
/// parser can be exact.
pub uninterp spec fn source_file_of(text: Seq<char>) -> Option<Seq<char>>;

/// Relies on serde_json::from_str, Value::get and Value::as_str: parses the
/// text as JSON and reads the `SourceFile` string field of the first
/// element of the top-level array, returning None wherever that structure
/// is absent. The result depends on the text alone.
#[verifier::external_body]
fn extract_source_file(sidecar_json: &str) -> (r: Option<String>)
    ensures
        r is Some <==> source_file_of(sidecar_json@) is Some,
        r matches Some(s) ==> source_file_of(sidecar_json@) == Some(s@),
{
    let parsed: serde_json::Value = serde_json::from_str(sidecar_json).ok()?;
    let field = parsed.get(0)?.get("SourceFile")?;
    match field.as_str() {
        Some(s) => Some(s.to_string()),
        None => None,
    }
}

/// Derive the destination from a sidecar's content.
///
/// The text is parsed as a metadata document; its recorded source path
/// yields the bucket and filename under the output root.
pub fn build_new_file_path(sidecar_json: &str, out_dir: &str) -> (r: Result<
    DestinationPath,
    ReconcileError,
>)
    ensures
        source_file_of(sidecar_json@) is None ==> r == Err::<DestinationPath, ReconcileError>(
            ReconcileError::MissingMetadataField,
        ),
        source_file_of(sidecar_json@) matches Some(sf) ==> if source_ok(sf) {
            r matches Ok(d) && d.parent@ == destination_parent_spec(out_dir@, sf) && d.path@
                == destination_path_spec(out_dir@, sf)
        } else {
            r == Err::<DestinationPath, ReconcileError>(ReconcileError::MalformedSourcePath)
        },
{
    match extract_source_file(sidecar_json) {
        None => Err(ReconcileError::MissingMetadataField),
        Some(sf) => destination_from_source_file(out_dir, sf.as_str()),
    }
}

/// The thumbnail path is a pure function of the sidecar's filename and its
/// three ancestor directory names: two sidecar paths that agree on their
/// last four segments resolve to the same thumbnail path, whatever stands
/// before those segments — and the sidecar's content never enters at all.
pub proof fn lemma_shard_round_trip(
    photoprism_dir: Seq<char>,
    path1: Seq<char>,
    path2: Seq<char>,
)
    requires
        split_on(path1, '/').len() >= 4,
        split_on(path2, '/').len() >= 4,
        split_on(path1, '/').skip(split_on(path1, '/').len() - 4) == split_on(path2, '/').skip(
            split_on(path2, '/').len() - 4,
        ),
    ensures
        thumbnail_ok(path1) == thumbnail_ok(path2),
        thumbnail_path_spec(photoprism_dir, path1) == thumbnail_path_spec(photoprism_dir, path2),
{
    let s1 = split_on(path1, '/');
    let s2 = split_on(path2, '/');
    let n1 = s1.len() as int;
    let n2 = s2.len() as int;
    assert(s1[n1 - 4] == s1.skip(n1 - 4)[0] && s2[n2 - 4] == s2.skip(n2 - 4)[0]);
    assert(s1[n1 - 3] == s1.skip(n1 - 4)[1] && s2[n2 - 3] == s2.skip(n2 - 4)[1]);
    assert(s1[n1 - 2] == s1.skip(n1 - 4)[2] && s2[n2 - 2] == s2.skip(n2 - 4)[2]);
    assert(s1[n1 - 1] == s1.skip(n1 - 4)[3] && s2[n2 - 1] == s2.skip(n2 - 4)[3]);
}

} // verus!
