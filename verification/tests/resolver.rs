use rimi::error::ResolveError;
use rimi::paths::{create_paths, extension_of, file_name_of, join_path, DirStatus};

fn strings(v: &[&str]) -> Vec<String> {
    v.iter().map(|s| s.to_string()).collect()
}

#[test]
fn keeps_own_extension_and_stem() {
    let paths = strings(&["dir/photo.jpeg", "other/scan.png"]);
    let r = create_paths(&paths, "out", None, None, DirStatus::Directory).unwrap();
    assert_eq!(r, strings(&["out/photo.jpeg", "out/scan.png"]));
}

#[test]
fn name_expression_numbers_outputs() {
    let paths = strings(&["a.png", "b.png", "c.png"]);
    let r = create_paths(&paths, "out", Some("render.png"), None, DirStatus::Directory).unwrap();
    assert_eq!(r, strings(&["out/render_0.png", "out/render_1.png", "out/render_2.png"]));
}

#[test]
fn target_format_wins_over_everything() {
    let paths = strings(&["a.png"]);
    let r = create_paths(&paths, "out", Some("render.png"), Some("JPEG"), DirStatus::Directory)
        .unwrap();
    assert_eq!(r, strings(&["out/render_0.jpg"]));

    let r = create_paths(&paths, "out", None, Some("webp"), DirStatus::Directory).unwrap();
    assert_eq!(r, strings(&["out/a.webp"]));
}

#[test]
fn name_expression_without_extension_keeps_own() {
    let paths = strings(&["shots/a.png", "shots/b.gif"]);
    let r = create_paths(&paths, "out", Some("render"), None, DirStatus::Directory).unwrap();
    assert_eq!(r, strings(&["out/render_0.png", "out/render_1.gif"]));
}

#[test]
fn trailing_slash_makes_no_double_slash() {
    let paths = strings(&["a.png"]);
    let r = create_paths(&paths, "out/", None, None, DirStatus::Directory).unwrap();
    assert_eq!(r, strings(&["out/a.png"]));
}

#[test]
fn destination_must_be_a_directory() {
    let paths = strings(&["a.png"]);
    let r = create_paths(&paths, "out", None, None, DirStatus::Missing);
    assert_eq!(r.unwrap_err(), ResolveError::DestinationMissing);
    let r = create_paths(&paths, "out", None, None, DirStatus::File);
    assert_eq!(r.unwrap_err(), ResolveError::DestinationIsFile);
}

#[test]
fn unknown_formats_are_configuration_errors() {
    let paths = strings(&["a.png"]);
    let r = create_paths(&paths, "out", None, Some("xyz"), DirStatus::Directory);
    assert_eq!(r.unwrap_err(), ResolveError::BadFormat);
    let r = create_paths(&paths, "out", Some("render.xyz"), None, DirStatus::Directory);
    assert_eq!(r.unwrap_err(), ResolveError::BadNameExpression);
}

#[test]
fn missing_extension_is_an_error() {
    let paths = strings(&["archive"]);
    let r = create_paths(&paths, "out", None, None, DirStatus::Directory);
    assert_eq!(r.unwrap_err(), ResolveError::MissingExtension);
}

#[test]
fn colliding_outputs_are_refused() {
    let paths = strings(&["x/a.png", "y/a.png"]);
    let r = create_paths(&paths, "out", None, None, DirStatus::Directory);
    assert_eq!(r.unwrap_err(), ResolveError::DuplicateOutput);
}

#[test]
fn same_filenames_with_expression_stay_distinct() {
    let paths = strings(&["x/a.png", "y/a.png"]);
    let r = create_paths(&paths, "out", Some("copy.png"), None, DirStatus::Directory).unwrap();
    assert_eq!(r, strings(&["out/copy_0.png", "out/copy_1.png"]));
    assert_ne!(r[0], r[1]);
}

#[test]
fn resolution_is_deterministic() {
    let paths = strings(&["dir/photo.jpeg", "b.png", "c.gif"]);
    let first = create_paths(&paths, "out", Some("take.png"), None, DirStatus::Directory).unwrap();
    let second = create_paths(&paths, "out", Some("take.png"), None, DirStatus::Directory)
        .unwrap();
    assert_eq!(first, second);
}

#[test]
fn path_helpers() {
    assert_eq!(file_name_of("a/b/c.png"), "c.png");
    assert_eq!(file_name_of("c.png"), "c.png");
    assert_eq!(file_name_of("a/b/"), "");
    assert_eq!(extension_of("a/b/c.tar"), "tar");
    assert_eq!(extension_of("a/.hidden"), "");
    assert_eq!(extension_of("a/plain"), "");
    assert_eq!(join_path("out", "a.png"), "out/a.png");
    assert_eq!(join_path("out/", "a.png"), "out/a.png");
    assert_eq!(join_path("", "a.png"), "a.png");
}

#[test]
fn many_inputs_keep_order() {
    let mut paths = Vec::new();
    for i in 0..12u32 {
        paths.push(format!("src/img{}.png", i));
    }
    let r = create_paths(&paths, "out", Some("batch.png"), None, DirStatus::Directory).unwrap();
    assert_eq!(r.len(), 12);
    assert_eq!(r[0], "out/batch_0.png");
    assert_eq!(r[10], "out/batch_10.png");
    assert_eq!(r[11], "out/batch_11.png");
}
