//! The decode-stage gate: turns the per-file decode outcomes of one
//! batch into either a go-ahead or the aggregate error that an
//! abort-on-error run surfaces, and renders the human-readable reason
//! for each category of decode failure.

use vstd::prelude::*;

use crate::error::{BatchErrors, TaskError};
use crate::image_data::ImageData;

verus! {

/// The categories a failed decode falls into.
#[derive(Clone, Copy, Debug, PartialEq, Eq, Structural)]
pub enum DecodeErrorKind {
    NotFound,
    PermissionDenied,
    Decoding,
    DimensionLimit,
    InsufficientMemory,
    Io,
    Other,
}

/// The reason recorded for a failed decode: the file, then what went
/// wrong, with the collaborator's own words where they add detail.
pub open spec fn spec_decode_failure_reason(
    kind: DecodeErrorKind,
    path: Seq<char>,
    detail: Seq<char>,
) -> Seq<char> {
    match kind {
        DecodeErrorKind::NotFound => path
            + ": File not found in current directory. Please ensure it exists."@,
        DecodeErrorKind::PermissionDenied => path
            + ": File access not permitted on file. Please check file permissions."@,
        DecodeErrorKind::Decoding => path + ": Error decoding image."@,
        DecodeErrorKind::DimensionLimit => path + ": Image dimensions are too large: "@ + detail,
        DecodeErrorKind::InsufficientMemory => path + ": Insufficient memory to open image."@,
        DecodeErrorKind::Io => path + ": An io error occured: "@ + detail,
        DecodeErrorKind::Other => path + ": An error occured: "@ + detail,
    }
}

/// Renders the reason recorded for a failed decode.
pub fn decode_failure_reason(kind: DecodeErrorKind, path: &str, detail: &str) -> (r: String)
    ensures
        r@ == spec_decode_failure_reason(kind, path@, detail@),
{
    let mut out = path.to_owned();
    match kind {
        DecodeErrorKind::NotFound => {
            out.append(": File not found in current directory. Please ensure it exists.");
        },
        DecodeErrorKind::PermissionDenied => {
            out.append(": File access not permitted on file. Please check file permissions.");
        },
        DecodeErrorKind::Decoding => {
            out.append(": Error decoding image.");
        },
        DecodeErrorKind::DimensionLimit => {
            out.append(": Image dimensions are too large: ");
            out.append(detail);
        },
        DecodeErrorKind::InsufficientMemory => {
            out.append(": Insufficient memory to open image.");
        },
        DecodeErrorKind::Io => {
            out.append(": An io error occured: ");
            out.append(detail);
        },
        DecodeErrorKind::Other => {
            out.append(": An error occured: ");
            out.append(detail);
        },
    }
    proof {
        reveal_strlit(": File not found in current directory. Please ensure it exists.");
        reveal_strlit(": File access not permitted on file. Please check file permissions.");
        reveal_strlit(": Error decoding image.");
        reveal_strlit(": Image dimensions are too large: ");
        reveal_strlit(": Insufficient memory to open image.");
        reveal_strlit(": An io error occured: ");
        reveal_strlit(": An error occured: ");
        assert(out@ =~= spec_decode_failure_reason(kind, path@, detail@));
    }
    out
}

/// The decode failure reasons of one batch, in task order.
pub open spec fn spec_decode_errs(dec: Seq<Result<ImageData, String>>, n: int) -> Seq<Seq<char>>
    decreases n,
{
    if n <= 0 {
        Seq::empty()
    } else {
        let rest = spec_decode_errs(dec, n - 1);
        if dec[n - 1] is Err {
            rest.push(dec[n - 1]->Err_0@)
        } else {
            rest
        }
    }
}

/// Inspects every decode outcome of a batch: a go-ahead when every
/// file decoded, else the aggregate of every failure reason, in task
/// order — one bad file never hides another.
pub fn check_batch(decode: &Vec<Result<ImageData, String>>) -> (r: Result<(), BatchErrors>)
    ensures
        match r {
            Result::Ok(()) => forall|i: int|
                0 <= i < decode@.len() ==> !((#[trigger] decode@[i]) is Err),
            Result::Err(b) => {
                &&& exists|i: int| 0 <= i < decode@.len() && (#[trigger] decode@[i]) is Err
                &&& b.0@.len() == spec_decode_errs(decode@, decode@.len() as int).len()
                &&& forall|k: int|
                    0 <= k < b.0@.len() ==> ((#[trigger] b.0@[k]) matches TaskError::SingleError(s)
                        && s@ == spec_decode_errs(decode@, decode@.len() as int)[k])
            },
        },
{
    let n = decode.len();
    let mut errs: Vec<TaskError> = Vec::new();
    let mut any = false;
    let mut i: usize = 0;
    while i < n
        invariant
            i <= n,
            n == decode@.len(),
            any == exists|w: int| 0 <= w < i && (#[trigger] decode@[w]) is Err,
            errs@.len() == spec_decode_errs(decode@, i as int).len(),
            forall|k: int|
                0 <= k < errs@.len() ==> ((#[trigger] errs@[k]) matches TaskError::SingleError(s)
                    && s@ == spec_decode_errs(decode@, i as int)[k]),
        decreases n - i,
    {
        match &decode[i] {
            Result::Ok(_) => {},
            Result::Err(e) => {
                errs.push(TaskError::SingleError(e.clone()));
                any = true;
            },
        }
        i = i + 1;
    }
    if any {
        Err(BatchErrors(errs))
    } else {
        Ok(())
    }
}

} // verus!
