use rimi::batch::{check_batch, decode_failure_reason, DecodeErrorKind};
use rimi::color::ColorType;
use rimi::command::{ImageCommand, ResizeArgs, TransparentArgs};
use rimi::error::{BatchError, ResolveError, TaskError};
use rimi::image_data::ImageData;
use rimi::paths::DirStatus;
use rimi::runner::{overwrite_guard, run_batch, BatchConfig, BatchOutcomes};

fn strings(v: &[&str]) -> Vec<String> {
    v.iter().map(|s| s.to_string()).collect()
}

fn png() -> ImageData {
    ImageData::new(64, 64, ColorType::Rgba8)
}

fn config(dest_status: DirStatus, overwrite: bool, abort_on_error: bool) -> BatchConfig {
    BatchConfig {
        destination: "out".to_string(),
        dest_status,
        name_expr: None,
        target_format: None,
        overwrite,
        abort_on_error,
    }
}

fn transparentize() -> ImageCommand {
    ImageCommand::Transparentize(TransparentArgs {})
}

#[test]
fn five_good_one_missing_reports_counts() {
    let paths = strings(&["a.png", "b.png", "c.png", "d.png", "e.png", "missing.png"]);
    let outcomes = BatchOutcomes {
        decode: vec![
            Ok(png()),
            Ok(png()),
            Ok(png()),
            Ok(png()),
            Ok(png()),
            Err("not found".to_string()),
        ],
        existing: vec![false; 5],
        answer: None,
        save: vec![Ok(()); 5],
    };
    let rep = run_batch(
        &paths,
        &transparentize(),
        &config(DirStatus::Directory, false, false),
        &outcomes,
    )
    .unwrap();
    assert_eq!(rep.completed.len(), 5);
    assert_eq!(rep.failed.len(), 1);
    assert_eq!(rep.completed[0], "out/a.png");
    assert_eq!(rep.completed[4], "out/e.png");
    assert_eq!(rep.failed[0], ("missing.png".to_string(), "not found".to_string()));
}

#[test]
fn missing_destination_is_a_configuration_error() {
    let paths = strings(&["a.png"]);
    let outcomes = BatchOutcomes {
        decode: vec![Ok(png())],
        existing: vec![false],
        answer: None,
        save: vec![Ok(())],
    };
    let r = run_batch(
        &paths,
        &transparentize(),
        &config(DirStatus::Missing, false, false),
        &outcomes,
    );
    assert_eq!(r.unwrap_err(), BatchError::Config(ResolveError::DestinationMissing));

    let r = run_batch(
        &paths,
        &transparentize(),
        &config(DirStatus::File, false, false),
        &outcomes,
    );
    assert_eq!(r.unwrap_err(), BatchError::Config(ResolveError::DestinationIsFile));
}

#[test]
fn declined_overwrite_aborts_the_run() {
    let paths = strings(&["a.png", "b.png", "c.png"]);
    let outcomes = BatchOutcomes {
        decode: vec![Ok(png()), Ok(png()), Ok(png())],
        existing: vec![true, true, true],
        answer: Some(false),
        save: vec![Ok(()); 3],
    };
    let r = run_batch(
        &paths,
        &transparentize(),
        &config(DirStatus::Directory, false, false),
        &outcomes,
    );
    assert_eq!(r.unwrap_err(), BatchError::UserAbort);
}

#[test]
fn accepted_overwrite_lets_the_run_finish() {
    let paths = strings(&["a.png", "b.png"]);
    let outcomes = BatchOutcomes {
        decode: vec![Ok(png()), Ok(png())],
        existing: vec![true, false],
        answer: Some(true),
        save: vec![Ok(()); 2],
    };
    let rep = run_batch(
        &paths,
        &transparentize(),
        &config(DirStatus::Directory, false, false),
        &outcomes,
    )
    .unwrap();
    assert_eq!(rep.completed.len(), 2);
    assert_eq!(rep.failed.len(), 0);
}

#[test]
fn forced_overwrite_never_asks() {
    let paths = strings(&["a.png"]);
    let outcomes = BatchOutcomes {
        decode: vec![Ok(png())],
        existing: vec![true],
        answer: None,
        save: vec![Ok(())],
    };
    let rep = run_batch(
        &paths,
        &transparentize(),
        &config(DirStatus::Directory, true, false),
        &outcomes,
    )
    .unwrap();
    assert_eq!(rep.completed, strings(&["out/a.png"]));
}

#[test]
fn abort_on_error_collects_every_reason() {
    let paths = strings(&["a.png", "bad1.png", "c.png", "bad2.png"]);
    let outcomes = BatchOutcomes {
        decode: vec![
            Ok(png()),
            Err("not found".to_string()),
            Ok(png()),
            Err("corrupt data".to_string()),
        ],
        existing: vec![false; 2],
        answer: None,
        save: vec![Ok(()); 2],
    };
    let r = run_batch(
        &paths,
        &transparentize(),
        &config(DirStatus::Directory, false, true),
        &outcomes,
    );
    match r.unwrap_err() {
        BatchError::Decode(errs) => {
            assert_eq!(errs.0.len(), 2);
            assert_eq!(errs.0[0], TaskError::SingleError("not found".to_string()));
            assert_eq!(errs.0[1], TaskError::SingleError("corrupt data".to_string()));
        },
        other => panic!("expected decode errors, got {:?}", other),
    }
}

#[test]
fn save_failures_are_recorded_per_task() {
    let paths = strings(&["a.png", "b.png", "c.png"]);
    let outcomes = BatchOutcomes {
        decode: vec![Ok(png()), Ok(png()), Ok(png())],
        existing: vec![false; 3],
        answer: None,
        save: vec![Ok(()), Err("disk full".to_string()), Ok(())],
    };
    let rep = run_batch(
        &paths,
        &transparentize(),
        &config(DirStatus::Directory, false, false),
        &outcomes,
    )
    .unwrap();
    assert_eq!(rep.completed, strings(&["out/a.png", "out/c.png"]));
    assert_eq!(rep.failed, vec![("b.png".to_string(), "disk full".to_string())]);
}

#[test]
fn operation_failures_are_recorded_per_task() {
    let paths = strings(&["a.png", "b.png"]);
    let outcomes = BatchOutcomes {
        decode: vec![Ok(png()), Ok(png())],
        existing: vec![false; 2],
        answer: None,
        save: vec![Ok(()); 2],
    };
    let cmd = ImageCommand::Resize(ResizeArgs {
        width: 10,
        height: 10,
        filter: "cubic".to_string(),
        preserve_aspect: false,
    });
    let rep = run_batch(
        &paths,
        &cmd,
        &config(DirStatus::Directory, false, false),
        &outcomes,
    )
    .unwrap();
    assert_eq!(rep.completed.len(), 0);
    assert_eq!(rep.failed.len(), 2);
    assert_eq!(rep.failed[0].0, "a.png");
    assert_eq!(
        rep.failed[0].1,
        "Please pick a valid filter out of: Nearest, Triangle, Gaussian, CatmullRom and Lanczos"
    );
}

#[test]
fn resolver_errors_stop_the_whole_run() {
    let paths = strings(&["x/a.png", "y/a.png"]);
    let outcomes = BatchOutcomes {
        decode: vec![Ok(png()), Ok(png())],
        existing: vec![false; 2],
        answer: None,
        save: vec![Ok(()); 2],
    };
    let r = run_batch(
        &paths,
        &transparentize(),
        &config(DirStatus::Directory, false, false),
        &outcomes,
    );
    assert_eq!(r.unwrap_err(), BatchError::Config(ResolveError::DuplicateOutput));
}

#[test]
fn overwrite_guard_decisions() {
    assert!(overwrite_guard(&vec![false, false], false, None).is_ok());
    assert!(overwrite_guard(&vec![true], true, None).is_ok());
    assert!(overwrite_guard(&vec![true], false, Some(true)).is_ok());
    assert_eq!(
        overwrite_guard(&vec![false, true], false, Some(false)).unwrap_err(),
        BatchError::UserAbort
    );
    assert_eq!(
        overwrite_guard(&vec![true], false, None).unwrap_err(),
        BatchError::UserAbort
    );
}

#[test]
fn error_messages_render_each_failure() {
    let single = TaskError::SingleError("not found".to_string());
    assert_eq!(single.message(), "Image task failed: not found");

    let multi = TaskError::BatchError(vec!["one".to_string(), "two".to_string()]);
    assert_eq!(multi.message(), "Multiple operations failed: one\ntwo");

    let batch = rimi::error::BatchErrors(vec![
        TaskError::SingleError("not found".to_string()),
        TaskError::SingleError("corrupt data".to_string()),
    ]);
    assert_eq!(
        batch.message(),
        "Errors occured while parsing images: 2\nImage task failed: not found\nImage task failed: corrupt data"
    );
}

#[test]
fn decode_gate_passes_clean_batches() {
    let decode: Vec<Result<ImageData, String>> = vec![Ok(png()), Ok(png())];
    assert!(check_batch(&decode).is_ok());
}

#[test]
fn decode_gate_collects_every_reason() {
    let decode: Vec<Result<ImageData, String>> = vec![
        Ok(png()),
        Err("first bad".to_string()),
        Err("second bad".to_string()),
    ];
    let errs = check_batch(&decode).unwrap_err();
    assert_eq!(errs.0.len(), 2);
    assert_eq!(errs.0[0], TaskError::SingleError("first bad".to_string()));
    assert_eq!(errs.0[1], TaskError::SingleError("second bad".to_string()));
}

#[test]
fn decode_failure_reasons_by_category() {
    assert_eq!(
        decode_failure_reason(DecodeErrorKind::NotFound, "a.png", ""),
        "a.png: File not found in current directory. Please ensure it exists."
    );
    assert_eq!(
        decode_failure_reason(DecodeErrorKind::Decoding, "b.png", ""),
        "b.png: Error decoding image."
    );
    assert_eq!(
        decode_failure_reason(DecodeErrorKind::Io, "c.png", "broken pipe"),
        "c.png: An io error occured: broken pipe"
    );
    assert_eq!(
        decode_failure_reason(DecodeErrorKind::DimensionLimit, "d.png", "99999x99999"),
        "d.png: Image dimensions are too large: 99999x99999"
    );
}
