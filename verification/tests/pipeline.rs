use photorecover::locate::sidecar_glob_pattern;
use photorecover::materialize::{decide, restore_metadata_args, Outcome};
use photorecover::paths::{prefix_before_char, split_char};
use photorecover::reconcile::{
    build_new_file_path, destination_from_source_file, identifier, thumbnail_path_from_json_path,
    ReconcileError,
};

#[test]
fn thumbnail_path_is_derived_from_shards_and_identifier() {
    let r = thumbnail_path_from_json_path("R", "R/cache/json/A/B/C/abcdef123_exiftool.json");
    assert_eq!(r.unwrap(), "R/cache/thumbnails/A/B/C/abcdef123_2048x2048_fit.jpg");
}

#[test]
fn destination_path_is_derived_from_bucket_and_filename() {
    let json = "[{\"SourceFile\": \"/x/originals/2009-11-27/004.JPG\"}]";
    let d = build_new_file_path(json, "O").unwrap();
    assert_eq!(d.parent, "O/2009-11-27");
    assert_eq!(d.path, "O/2009-11-27/004.JPG");
}

#[test]
fn thumbnail_path_ignores_sidecar_content_and_outer_directories() {
    let a = thumbnail_path_from_json_path("R", "one/root/A/B/C/abc_exiftool.json").unwrap();
    let b = thumbnail_path_from_json_path("R", "another/deeper/tree/A/B/C/abc_exiftool.json")
        .unwrap();
    assert_eq!(a, b);
}

#[test]
fn identifier_stops_at_first_underscore() {
    assert_eq!(identifier("abcdef123_exiftool.json"), "abcdef123");
}

#[test]
fn identifier_without_underscore_stops_at_first_dot() {
    assert_eq!(identifier("abcdef123.json"), "abcdef123");
}

#[test]
fn identifier_without_underscore_or_dot_is_the_whole_name() {
    assert_eq!(identifier("abcdef123"), "abcdef123");
}

#[test]
fn too_few_ancestor_directories_is_malformed() {
    let r = thumbnail_path_from_json_path("R", "C/abc_exiftool.json");
    assert_eq!(r.unwrap_err(), ReconcileError::MalformedSidecarPath);
}

#[test]
fn empty_shard_segment_is_malformed() {
    let r = thumbnail_path_from_json_path("R", "/B/C/abc_exiftool.json");
    assert_eq!(r.unwrap_err(), ReconcileError::MalformedSidecarPath);
}

#[test]
fn empty_identifier_is_malformed() {
    let r = thumbnail_path_from_json_path("R", "x/A/B/C/_exiftool.json");
    assert_eq!(r.unwrap_err(), ReconcileError::MalformedSidecarPath);
}

#[test]
fn sidecar_without_source_file_is_missing_metadata() {
    let json = "[{\"Orientation\": 1}]";
    let r = build_new_file_path(json, "O");
    assert_eq!(r.unwrap_err(), ReconcileError::MissingMetadataField);
}

#[test]
fn sidecar_that_is_not_an_array_is_missing_metadata() {
    let json = "{\"SourceFile\": \"/x/originals/2009-11-27/004.JPG\"}";
    let r = build_new_file_path(json, "O");
    assert_eq!(r.unwrap_err(), ReconcileError::MissingMetadataField);
}

#[test]
fn unparseable_sidecar_is_missing_metadata() {
    let r = build_new_file_path("not json at all", "O");
    assert_eq!(r.unwrap_err(), ReconcileError::MissingMetadataField);
}

#[test]
fn source_file_without_separator_is_malformed() {
    let r = destination_from_source_file("O", "004.JPG");
    assert_eq!(r.unwrap_err(), ReconcileError::MalformedSourcePath);
}

#[test]
fn source_file_with_one_separator_is_accepted() {
    let d = destination_from_source_file("O", "2009-11-27/004.JPG").unwrap();
    assert_eq!(d.parent, "O/2009-11-27");
    assert_eq!(d.path, "O/2009-11-27/004.JPG");
}

#[test]
fn missing_thumbnail_writes_nothing() {
    assert_eq!(decide(false, false), Outcome::MissingThumbnail);
    assert_eq!(decide(false, true), Outcome::MissingThumbnail);
}

#[test]
fn existing_destination_is_never_copied_again() {
    assert_eq!(decide(true, true), Outcome::AlreadyMaterialized);
}

#[test]
fn fresh_item_is_materialized_exactly_once() {
    // First run: thumbnail present, destination absent.
    assert_eq!(decide(true, false), Outcome::Materialized);
    // The copy creates the destination; a second run is a no-op.
    assert_eq!(decide(true, true), Outcome::AlreadyMaterialized);
}

#[test]
fn glob_pattern_covers_any_depth_under_the_json_cache() {
    assert_eq!(sidecar_glob_pattern("/srv/photoprism"), "/srv/photoprism/cache/json/**/*.json");
}

#[test]
fn restoration_arguments_name_sidecar_then_destination() {
    let args = restore_metadata_args("a/b_exiftool.json", "O/2009-11-27/004.JPG");
    assert_eq!(
        args,
        vec!["-tagsfromfile", "a/b_exiftool.json", "O/2009-11-27/004.JPG", "-overwrite_original"]
    );
}

#[test]
fn split_keeps_empty_segments() {
    let parts = split_char("/a//b/", '/');
    assert_eq!(parts, vec!["", "a", "", "b", ""]);
}

#[test]
fn split_of_a_string_without_separator_is_one_segment() {
    assert_eq!(split_char("abc", '/'), vec!["abc"]);
}

#[test]
fn prefix_before_absent_character_is_the_whole_string() {
    assert_eq!(prefix_before_char("abc", '_'), "abc");
    assert_eq!(prefix_before_char("a_b_c", '_'), "a");
}
