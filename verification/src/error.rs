//! Error taxonomy of the pipeline, one category per failure source:
//! per-task errors are recorded and aggregated, configuration and
//! user-abort errors end the whole run at once.

use vstd::prelude::*;

verus! {

/// A per-task failure: either one task's reason, or a bundle of
/// reasons collected across a batch.
#[derive(Clone, Debug, PartialEq)]
pub enum TaskError {
    SingleError(String),
    BatchError(Vec<String>),
}

/// The per-task failures of one batch run, in task order.
#[derive(Debug, PartialEq)]
pub struct BatchErrors(pub Vec<TaskError>);

/// The message of a per-task failure.
pub open spec fn spec_task_error_message(e: TaskError) -> Seq<char> {
    match e {
        TaskError::SingleError(s) => "Image task failed: "@ + s@,
        TaskError::BatchError(v) => "Multiple operations failed: "@ + spec_joined_lines(
            v@.map_values(|s: String| s@),
        ),
    }
}

/// Lines joined with a newline between each pair.
pub open spec fn spec_joined_lines(v: Seq<Seq<char>>) -> Seq<char>
    decreases v.len(),
{
    if v.len() == 0 {
        Seq::empty()
    } else if v.len() == 1 {
        v[0]
    } else {
        spec_joined_lines(v.drop_last()) + "\n"@ + v.last()
    }
}

/// Joins lines with a newline between each pair.
pub fn join_lines(v: &Vec<String>) -> (r: String)
    ensures
        r@ == spec_joined_lines(v@.map_values(|s: String| s@)),
{
    let ghost lv = v@.map_values(|s: String| s@);
    let n = v.len();
    let mut out = String::new();
    let mut i: usize = 0;
    while i < n
        invariant
            i <= n,
            n == v@.len(),
            lv == v@.map_values(|s: String| s@),
            out@ == spec_joined_lines(lv.take(i as int)),
        decreases n - i,
    {
        proof {
            assert(lv.take(i + 1).drop_last() =~= lv.take(i as int));
            assert(lv.take(i + 1).last() == lv[i as int]);
            assert(lv[i as int] == v@[i as int]@);
        }
        if i > 0 {
            out.append("\n");
        }
        out.append(v[i].as_str());
        proof {
            reveal_strlit("\n");
            assert(out@ =~= spec_joined_lines(lv.take(i + 1)));
        }
        i = i + 1;
    }
    proof {
        assert(lv.take(n as int) =~= lv);
    }
    out
}

impl TaskError {
    /// The one-line message this error renders as.
    pub fn message(&self) -> (r: String)
        ensures
            r@ == spec_task_error_message(*self),
    {
        match self {
            TaskError::SingleError(s) => {
                let mut out = "Image task failed: ".to_owned();
                out.append(s.as_str());
                proof {
                    reveal_strlit("Image task failed: ");
                    assert(out@ =~= spec_task_error_message(*self));
                }
                out
            },
            TaskError::BatchError(v) => {
                let mut out = "Multiple operations failed: ".to_owned();
                let joined = join_lines(v);
                out.append(joined.as_str());
                proof {
                    reveal_strlit("Multiple operations failed: ");
                    assert(out@ =~= spec_task_error_message(*self));
                }
                out
            },
        }
    }
}

/// The message a batch of failures renders as: a header with the
/// count, then one line per failure.
pub open spec fn spec_batch_errors_message(b: BatchErrors) -> Seq<char> {
    "Errors occured while parsing images: "@ + crate::paths::spec_dec(b.0@.len())
        + "\n"@ + spec_joined_lines(b.0@.map_values(|e: TaskError| spec_task_error_message(e)))
}

impl BatchErrors {
    /// Renders the whole batch of failures: a header with the count,
    /// then one line per failure.
    pub fn message(&self) -> (r: String)
        requires
            self.0@.len() <= 0xffff_ffff,
        ensures
            r@ == spec_batch_errors_message(*self),
    {
        let ghost mv = self.0@.map_values(|e: TaskError| spec_task_error_message(e));
        let mut out = "Errors occured while parsing images: ".to_owned();
        let count = crate::paths::u32_dec(self.0.len() as u32);
        out.append(count.as_str());
        out.append("\n");
        let n = self.0.len();
        let mut lines: Vec<String> = Vec::new();
        let mut i: usize = 0;
        while i < n
            invariant
                i <= n,
                n == self.0@.len(),
                mv == self.0@.map_values(|e: TaskError| spec_task_error_message(e)),
                lines@.len() == i,
                forall|k: int| 0 <= k < i ==> (#[trigger] lines@[k])@ == mv[k],
            decreases n - i,
        {
            lines.push(self.0[i].message());
            i = i + 1;
        }
        let joined = join_lines(&lines);
        proof {
            assert(lines@.map_values(|s: String| s@) =~= mv);
        }
        out.append(joined.as_str());
        proof {
            reveal_strlit("Errors occured while parsing images: ");
            reveal_strlit("\n");
            assert(out@ =~= spec_batch_errors_message(*self));
        }
        out
    }
}

/// A mistake in how the application itself was invoked.
#[derive(Clone, Copy, Debug, PartialEq, Eq, Structural)]
pub enum AppError {
    UnknownShell,
    NoImages,
}

/// A configuration error of the output-path resolver: any of these
/// aborts the whole batch before any processing work is done.
#[derive(Clone, Copy, Debug, PartialEq, Eq, Structural)]
pub enum ResolveError {
    /// The destination path names an existing file, not a directory.
    DestinationIsFile,
    /// The destination directory does not exist.
    DestinationMissing,
    /// The requested target format is not a known image format.
    BadFormat,
    /// The naming expression carries an extension that is not a known
    /// image format.
    BadNameExpression,
    /// A file keeps its own extension but has none.
    MissingExtension,
    /// Two resolved output paths would collide.
    DuplicateOutput,
}

/// Why a whole batch run ended without a report.
#[derive(Debug, PartialEq)]
pub enum BatchError {
    /// The run was misconfigured; no processing work was done.
    Config(ResolveError),
    /// The user declined to overwrite the existing output files.
    UserAbort,
    /// Decode failures with abort-on-error requested: the collected
    /// reasons, one per failed task, in task order.
    Decode(BatchErrors),
}

} // verus!
