//! The batch runner: drives every task through the three stages —
//! decode, path resolution with the overwrite guard, process and save
//! — against the task queue, and aggregates the outcome into a final
//! report. The runner computes every decision; the collaborator
//! outcomes (decode results, existence probes, the user's answer,
//! save results) are data handed in by the caller, so every branch
//! below is verified for every possible outcome.

use vstd::prelude::*;

use crate::batch::{check_batch, spec_decode_errs};
use crate::command::{spec_op_err_msg, spec_op_result, run_command, ImageCommand};
use crate::error::{BatchError, BatchErrors, ResolveError, TaskError};
use crate::image_data::{spec_empty_image, ImageData};
use crate::paths::{create_paths, spec_resolve, spec_views, DirStatus};
use crate::queue::{ImageTask, TaskQueue, TaskState};

verus! {

/// Configuration of one batch run.
#[derive(Debug)]
pub struct BatchConfig {
    pub destination: String,
    pub dest_status: DirStatus,
    pub name_expr: Option<String>,
    pub target_format: Option<String>,
    pub overwrite: bool,
    pub abort_on_error: bool,
}

/// What the run's external collaborators answered: one decode result
/// per input path; one existence flag and one save result per
/// resolved output; the user's overwrite answer, if they were asked.
#[derive(Debug)]
pub struct BatchOutcomes {
    pub decode: Vec<Result<ImageData, String>>,
    pub existing: Vec<bool>,
    pub answer: Option<bool>,
    pub save: Vec<Result<(), String>>,
}

/// The final report of a run: the written output paths, and one
/// (source path, reason) pair per failed task, both in task order.
#[derive(Debug)]
pub struct BatchReport {
    pub completed: Vec<String>,
    pub failed: Vec<(String, String)>,
}

/// The view of an optional owned string.
pub open spec fn spec_opt_string(o: Option<String>) -> Option<Seq<char>> {
    match o {
        Option::Some(s) => Option::Some(s@),
        Option::None => Option::None,
    }
}

/// How many of the first `i` decode results succeeded: the rank of
/// input `i` among the decoded tasks, which the resolver's outputs
/// and the save results are indexed by.
pub open spec fn spec_rank(dec: Seq<Result<ImageData, String>>, i: int) -> int
    decreases i,
{
    if i <= 0 {
        0
    } else {
        spec_rank(dec, i - 1) + (if dec[i - 1] is Ok {
            1int
        } else {
            0int
        })
    }
}

/// The rank never exceeds the number of inputs seen.
pub proof fn lemma_rank_at_most(dec: Seq<Result<ImageData, String>>, i: int)
    requires
        0 <= i,
    ensures
        0 <= spec_rank(dec, i) <= i,
    decreases i,
{
    if i > 0 {
        lemma_rank_at_most(dec, i - 1);
    }
}

pub proof fn lemma_rank_le(dec: Seq<Result<ImageData, String>>, i: int, j: int)
    requires
        0 <= i <= j,
    ensures
        spec_rank(dec, i) <= spec_rank(dec, j),
    decreases j - i,
{
    if i < j {
        lemma_rank_le(dec, i, j - 1);
    }
}

/// The source paths of the inputs that decoded, in input order: what
/// the resolver is run on.
pub open spec fn spec_decoded_paths(
    pv: Seq<Seq<char>>,
    dec: Seq<Result<ImageData, String>>,
    n: int,
) -> Seq<Seq<char>>
    decreases n,
{
    if n <= 0 {
        Seq::empty()
    } else {
        let rest = spec_decoded_paths(pv, dec, n - 1);
        if dec[n - 1] is Ok {
            rest.push(pv[n - 1])
        } else {
            rest
        }
    }
}

/// Whether task `i` makes it all the way through the pipeline.
pub open spec fn spec_task_completed(
    dec: Seq<Result<ImageData, String>>,
    cmd: ImageCommand,
    fmtv: Option<Seq<char>>,
    save: Seq<Result<(), String>>,
    i: int,
) -> bool {
    &&& dec[i] is Ok
    &&& spec_op_result(cmd, dec[i]->Ok_0, fmtv) is Ok
    &&& save[spec_rank(dec, i)] is Ok
}

/// The reason the report carries for task `i` when it fails: the
/// decode error, the operation error, or the save error — whichever
/// struck first.
pub open spec fn spec_task_reason(
    dec: Seq<Result<ImageData, String>>,
    cmd: ImageCommand,
    fmtv: Option<Seq<char>>,
    save: Seq<Result<(), String>>,
    i: int,
) -> Seq<char> {
    if dec[i] is Err {
        dec[i]->Err_0@
    } else if spec_op_result(cmd, dec[i]->Ok_0, fmtv) is Err {
        spec_op_err_msg(cmd, fmtv)
    } else {
        save[spec_rank(dec, i)]->Err_0@
    }
}

/// The output paths of the tasks that completed, in task order.
pub open spec fn spec_completed_list(
    dec: Seq<Result<ImageData, String>>,
    cmd: ImageCommand,
    fmtv: Option<Seq<char>>,
    outsv: Seq<Seq<char>>,
    save: Seq<Result<(), String>>,
    n: int,
) -> Seq<Seq<char>>
    decreases n,
{
    if n <= 0 {
        Seq::empty()
    } else {
        let rest = spec_completed_list(dec, cmd, fmtv, outsv, save, n - 1);
        if spec_task_completed(dec, cmd, fmtv, save, n - 1) {
            rest.push(outsv[spec_rank(dec, n - 1)])
        } else {
            rest
        }
    }
}

/// The (source path, reason) pairs of the tasks that failed, in task
/// order.
pub open spec fn spec_failed_list(
    pv: Seq<Seq<char>>,
    dec: Seq<Result<ImageData, String>>,
    cmd: ImageCommand,
    fmtv: Option<Seq<char>>,
    save: Seq<Result<(), String>>,
    n: int,
) -> Seq<(Seq<char>, Seq<char>)>
    decreases n,
{
    if n <= 0 {
        Seq::empty()
    } else {
        let rest = spec_failed_list(pv, dec, cmd, fmtv, save, n - 1);
        if spec_task_completed(dec, cmd, fmtv, save, n - 1) {
            rest
        } else {
            rest.push((pv[n - 1], spec_task_reason(dec, cmd, fmtv, save, n - 1)))
        }
    }
}

/// No task is lost: every input ends up either in the completed list
/// or in the failed list of the report, so the two lists account for
/// exactly the whole input.
pub proof fn lemma_report_accounts_for_all(
    pv: Seq<Seq<char>>,
    dec: Seq<Result<ImageData, String>>,
    cmd: ImageCommand,
    fmtv: Option<Seq<char>>,
    outsv: Seq<Seq<char>>,
    save: Seq<Result<(), String>>,
    n: int,
)
    requires
        n >= 0,
    ensures
        spec_completed_list(dec, cmd, fmtv, outsv, save, n).len() + spec_failed_list(
            pv,
            dec,
            cmd,
            fmtv,
            save,
            n,
        ).len() == n,
    decreases n,
{
    if n > 0 {
        lemma_report_accounts_for_all(pv, dec, cmd, fmtv, outsv, save, n - 1);
    }
}

/// Whether any resolved output already exists on disk.
pub open spec fn spec_any_existing(ex: Seq<bool>) -> bool {
    exists|k: int| 0 <= k < ex.len() && ex[k]
}

/// Whether the run is aborted at the overwrite guard: something would
/// be overwritten, overwriting was not forced, and the user did not
/// say yes.
pub open spec fn spec_user_abort(ex: Seq<bool>, overwrite: bool, answer: Option<bool>) -> bool {
    spec_any_existing(ex) && !overwrite && answer != Option::Some(true)
}

/// The overwrite guard's decision: given which resolved outputs
/// already exist, whether overwriting was forced, and the user's
/// single whole-batch answer (if one was collected), either the run
/// proceeds or it ends as a user-requested abort.
pub fn overwrite_guard(existing: &Vec<bool>, overwrite: bool, answer: Option<bool>) -> (r: Result<
    (),
    BatchError,
>)
    ensures
        match r {
            Result::Ok(()) => !spec_user_abort(existing@, overwrite, answer),
            Result::Err(e) => e == BatchError::UserAbort && spec_user_abort(
                existing@,
                overwrite,
                answer,
            ),
        },
{
    if overwrite {
        return Ok(());
    }
    let n = existing.len();
    let mut any = false;
    let mut k: usize = 0;
    while k < n
        invariant
            k <= n,
            n == existing@.len(),
            any == exists|w: int| 0 <= w < k && #[trigger] existing@[w],
        decreases n - k,
    {
        if existing[k] {
            any = true;
        }
        k = k + 1;
    }
    if any {
        match answer {
            Option::Some(true) => Ok(()),
            _ => Err(BatchError::UserAbort),
        }
    } else {
        Ok(())
    }
}

/// How one task stands right after the decode stage.
pub open spec fn spec_after_decode(
    t: ImageTask,
    path: Seq<char>,
    dr: Result<ImageData, String>,
    j: int,
) -> bool {
    &&& t.id == j + 1
    &&& t.image_path@ == path
    &&& t.out_path@ == Seq::<char>::empty()
    &&& match dr {
        Result::Ok(img) => t.state is Decoded && t.image == img,
        Result::Err(e) => t.state matches TaskState::Failed(TaskError::SingleError(s)) && s@ == e@
            && t.image == spec_empty_image(),
    }
}

/// How one task stands after the resolver's outputs were zipped back
/// onto the decoded tasks.
pub open spec fn spec_after_assign(
    t: ImageTask,
    path: Seq<char>,
    dr: Result<ImageData, String>,
    j: int,
    outsv: Seq<Seq<char>>,
    rj: int,
) -> bool {
    &&& t.id == j + 1
    &&& t.image_path@ == path
    &&& match dr {
        Result::Ok(img) => t.state is Decoded && t.image == img && t.out_path@ == outsv[rj],
        Result::Err(e) => t.state matches TaskState::Failed(TaskError::SingleError(s)) && s@ == e@
            && t.image == spec_empty_image() && t.out_path@ == Seq::<char>::empty(),
    }
}

/// How one task stands after the operation step.
pub open spec fn spec_after_op(
    t: ImageTask,
    path: Seq<char>,
    dr: Result<ImageData, String>,
    j: int,
    outsv: Seq<Seq<char>>,
    rj: int,
    cmd: ImageCommand,
    fmtv: Option<Seq<char>>,
) -> bool {
    &&& t.id == j + 1
    &&& t.image_path@ == path
    &&& match dr {
        Result::Ok(img) => match spec_op_result(cmd, img, fmtv) {
            Result::Ok(out) => t.state is Processed && t.image == out && t.out_path@ == outsv[rj],
            Result::Err(_) => t.state matches TaskState::Failed(TaskError::SingleError(s)) && s@
                == spec_op_err_msg(cmd, fmtv) && t.out_path@ == Seq::<char>::empty(),
        },
        Result::Err(e) => t.state matches TaskState::Failed(TaskError::SingleError(s)) && s@ == e@
            && t.out_path@ == Seq::<char>::empty(),
    }
}

/// How one task stands after the save step: `Complete` or `Failed`,
/// nothing else.
pub open spec fn spec_after_save(
    t: ImageTask,
    path: Seq<char>,
    dr: Result<ImageData, String>,
    j: int,
    outsv: Seq<Seq<char>>,
    rj: int,
    cmd: ImageCommand,
    fmtv: Option<Seq<char>>,
    save: Seq<Result<(), String>>,
) -> bool {
    &&& t.id == j + 1
    &&& t.image_path@ == path
    &&& match dr {
        Result::Ok(img) => match spec_op_result(cmd, img, fmtv) {
            Result::Ok(out) => match save[rj] {
                Result::Ok(_) => t.state is Complete && t.image == out && t.out_path@ == outsv[rj],
                Result::Err(e) => t.state matches TaskState::Failed(TaskError::SingleError(s))
                    && s@ == e@ && t.out_path@ == Seq::<char>::empty(),
            },
            Result::Err(_) => t.state matches TaskState::Failed(TaskError::SingleError(s)) && s@
                == spec_op_err_msg(cmd, fmtv) && t.out_path@ == Seq::<char>::empty(),
        },
        Result::Err(e) => t.state matches TaskState::Failed(TaskError::SingleError(s)) && s@ == e@
            && t.out_path@ == Seq::<char>::empty(),
    }
}

/// Runs a whole batch: creates one task per input, records the decode
/// outcomes, applies the abort-on-error policy, resolves and assigns
/// the output paths, consults the overwrite guard, drives every
/// decoded task through the operation and save steps, and reports.
/// The destination is validated before anything else; a run that ends
/// in an error has done no processing work beyond what its stage had
/// already completed.
pub fn run_batch(
    input_paths: &Vec<String>,
    command: &ImageCommand,
    config: &BatchConfig,
    outcomes: &BatchOutcomes,
) -> (r: Result<BatchReport, BatchError>)
    requires
        outcomes.decode@.len() == input_paths@.len(),
        input_paths@.len() <= 0xffff_fffe,
        outcomes.existing@.len() == spec_rank(outcomes.decode@, outcomes.decode@.len() as int),
        outcomes.save@.len() == spec_rank(outcomes.decode@, outcomes.decode@.len() as int),
    ensures
        ({
            let n = input_paths@.len() as int;
            let pv = spec_views(input_paths@);
            let dec = outcomes.decode@;
            let fmtv = spec_opt_string(config.target_format);
            let exprv = spec_opt_string(config.name_expr);
            let resolved = spec_resolve(
                spec_decoded_paths(pv, dec, n),
                config.destination@,
                exprv,
                fmtv,
                config.dest_status,
            );
            let any_err = exists|i: int| 0 <= i < n && (#[trigger] dec[i]) is Err;
            let aborted = config.abort_on_error && any_err;
            match r {
                Result::Err(e) => match e {
                    BatchError::Config(ce) => {
                        if config.dest_status is File {
                            ce == ResolveError::DestinationIsFile
                        } else if !(config.dest_status is Directory) {
                            ce == ResolveError::DestinationMissing
                        } else {
                            &&& !aborted
                            &&& resolved == Result::<Seq<Seq<char>>, ResolveError>::Err(ce)
                        }
                    },
                    BatchError::Decode(errs) => {
                        &&& config.dest_status is Directory
                        &&& aborted
                        &&& errs.0@.len() == spec_decode_errs(dec, n).len()
                        &&& forall|k: int|
                            0 <= k < errs.0@.len() ==> ((#[trigger] errs.0@[k]) matches
                                TaskError::SingleError(s) && s@ == spec_decode_errs(dec, n)[k])
                    },
                    BatchError::UserAbort => {
                        &&& config.dest_status is Directory
                        &&& !aborted
                        &&& resolved is Ok
                        &&& spec_user_abort(outcomes.existing@, config.overwrite, outcomes.answer)
                    },
                },
                Result::Ok(rep) => {
                    &&& config.dest_status is Directory
                    &&& !aborted
                    &&& resolved is Ok
                    &&& !spec_user_abort(outcomes.existing@, config.overwrite, outcomes.answer)
                    &&& ({
                        let outsv = resolved->Ok_0;
                        let cl = spec_completed_list(dec, *command, fmtv, outsv, outcomes.save@, n);
                        let fl = spec_failed_list(pv, dec, *command, fmtv, outcomes.save@, n);
                        &&& rep.completed@.len() == cl.len()
                        &&& (forall|k: int|
                            0 <= k < cl.len() ==> (#[trigger] rep.completed@[k])@ == cl[k])
                        &&& rep.failed@.len() == fl.len()
                        &&& (forall|k: int|
                            0 <= k < fl.len() ==> (#[trigger] rep.failed@[k]).0@ == fl[k].0
                                && rep.failed@[k].1@ == fl[k].1)
                    })
                },
            }
        }),
{
    let ghost pv = spec_views(input_paths@);
    let ghost dec = outcomes.decode@;
    let ghost fmtv = spec_opt_string(config.target_format);
    let ghost cmdg = *command;
    let n = input_paths.len();

    // Configuration first: a missing destination fails the run before
    // any task is created.
    if matches!(config.dest_status, DirStatus::File) {
        return Err(BatchError::Config(ResolveError::DestinationIsFile));
    }
    if !matches!(config.dest_status, DirStatus::Directory) {
        return Err(BatchError::Config(ResolveError::DestinationMissing));
    }

    // Decode stage: one task per input path, in input order, each
    // marked from its decode outcome; the queue holds exactly one
    // task per input from here on.
    let mut queue = TaskQueue::new();
    let mut dpaths: Vec<String> = Vec::new();
    let mut i: usize = 0;
    while i < n
        invariant
            i <= n,
            n == input_paths@.len(),
            n <= 0xffff_fffe,
            pv == spec_views(input_paths@),
            dec == outcomes.decode@,
            dec.len() == n,
            queue.wf(),
            queue.next_id == i + 1,
            queue.tasks@.len() == i,
            forall|j: int|
                0 <= j < i ==> spec_after_decode(#[trigger] queue.tasks@[j], pv[j], dec[j], j),
            dpaths@.len() == spec_rank(dec, i as int),
            spec_views(dpaths@) == spec_decoded_paths(pv, dec, i as int),
        decreases n - i,
    {
        let id = queue.new_task(input_paths[i].as_str());
        proof {
            assert(pv[i as int] == input_paths@[i as int]@);
        }
        match &outcomes.decode[i] {
            Result::Ok(img) => {
                queue.set_decoded(img, id);
                dpaths.push(input_paths[i].clone());
                proof {
                    assert(spec_views(dpaths@) =~= spec_decoded_paths(pv, dec, i + 1));
                }
            },
            Result::Err(e) => {
                queue.set_failed(id, e.clone());
                proof {
                    assert(spec_views(dpaths@) =~= spec_decoded_paths(pv, dec, i + 1));
                }
            },
        }
        i = i + 1;
    }

    // Abort-on-error gate: with the policy set, any decode failure
    // stops the run here, carrying every failure reason.
    if config.abort_on_error {
        match check_batch(&outcomes.decode) {
            Result::Err(be) => {
                return Err(BatchError::Decode(be));
            },
            Result::Ok(()) => {},
        }
    }

    // Output path resolution, on the decoded tasks' source paths, in
    // task order.
    let name_expr: Option<&str> = match &config.name_expr {
        Option::Some(s) => Some(s.as_str()),
        Option::None => None,
    };
    let target_format: Option<&str> = match &config.target_format {
        Option::Some(s) => Some(s.as_str()),
        Option::None => None,
    };
    proof {
        lemma_rank_at_most(dec, n as int);
    }
    let outs: Vec<String> = match create_paths(
        &dpaths,
        config.destination.as_str(),
        name_expr,
        target_format,
        config.dest_status,
    ) {
        Result::Ok(v) => v,
        Result::Err(ce) => {
            return Err(BatchError::Config(ce));
        },
    };
    let ghost outsv = spec_views(outs@);

    // Overwrite guard: one whole-batch decision, before any
    // processing work.
    match overwrite_guard(&outcomes.existing, config.overwrite, outcomes.answer) {
        Result::Ok(()) => {},
        Result::Err(e) => {
            return Err(e);
        },
    }

    // Zip the resolved paths back onto the decoded tasks by position.
    let mut k: usize = 0;
    i = 0;
    while i < n
        invariant
            i <= n,
            n == input_paths@.len(),
            n <= 0xffff_fffe,
            pv == spec_views(input_paths@),
            dec == outcomes.decode@,
            dec.len() == n,
            k <= i,
            k == spec_rank(dec, i as int),
            outs@.len() == spec_rank(dec, n as int),
            outsv == spec_views(outs@),
            queue.wf(),
            queue.next_id == n + 1,
            queue.tasks@.len() == n,
            forall|j: int|
                0 <= j < i ==> spec_after_assign(
                    #[trigger] queue.tasks@[j],
                    pv[j],
                    dec[j],
                    j,
                    outsv,
                    spec_rank(dec, j),
                ),
            forall|j: int|
                i <= j < n ==> spec_after_decode(#[trigger] queue.tasks@[j], pv[j], dec[j], j),
        decreases n - i,
    {
        let decoded_here = matches!(&outcomes.decode[i], Result::Ok(_));
        if decoded_here {
            proof {
                lemma_rank_le(dec, i + 1, n as int);
                assert(spec_rank(dec, i + 1) == k + 1);
            }
            let id = (i as u32) + 1;
            queue.set_out_path(id, outs[k].as_str());
            proof {
                assert(outsv[k as int] == outs@[k as int]@);
            }
            k = k + 1;
        }
        i = i + 1;
    }

    // Operation step: each decoded task is transformed, committing
    // `Processed` or `Failed` per task.
    i = 0;
    while i < n
        invariant
            i <= n,
            n == input_paths@.len(),
            n <= 0xffff_fffe,
            pv == spec_views(input_paths@),
            dec == outcomes.decode@,
            dec.len() == n,
            fmtv == spec_opt_string(config.target_format),
            cmdg == *command,
            outs@.len() == spec_rank(dec, n as int),
            outsv == spec_views(outs@),
            queue.wf(),
            queue.next_id == n + 1,
            queue.tasks@.len() == n,
            forall|j: int|
                0 <= j < i ==> spec_after_op(
                    #[trigger] queue.tasks@[j],
                    pv[j],
                    dec[j],
                    j,
                    outsv,
                    spec_rank(dec, j),
                    cmdg,
                    fmtv,
                ),
            forall|j: int|
                i <= j < n ==> spec_after_assign(
                    #[trigger] queue.tasks@[j],
                    pv[j],
                    dec[j],
                    j,
                    outsv,
                    spec_rank(dec, j),
                ),
        decreases n - i,
    {
        let id = (i as u32) + 1;
        match &outcomes.decode[i] {
            Result::Ok(img) => {
                let mut scratch: ImageData = *img;
                let format_arg: Option<&str> = match &config.target_format {
                    Option::Some(s) => Some(s.as_str()),
                    Option::None => None,
                };
                match run_command(command, &mut scratch, format_arg) {
                    Result::Ok(out) => {
                        queue.set_processed(&out, id);
                    },
                    Result::Err(e) => {
                        queue.set_failed(id, e);
                    },
                }
            },
            Result::Err(_) => {},
        }
        i = i + 1;
    }

    // Save step: each processed task's output is written, committing
    // `Complete` or `Failed` per task.
    i = 0;
    k = 0;
    while i < n
        invariant
            i <= n,
            n == input_paths@.len(),
            n <= 0xffff_fffe,
            pv == spec_views(input_paths@),
            dec == outcomes.decode@,
            dec.len() == n,
            fmtv == spec_opt_string(config.target_format),
            cmdg == *command,
            k <= i,
            k == spec_rank(dec, i as int),
            outcomes.save@.len() == spec_rank(dec, n as int),
            outs@.len() == spec_rank(dec, n as int),
            outsv == spec_views(outs@),
            queue.wf(),
            queue.next_id == n + 1,
            queue.tasks@.len() == n,
            forall|j: int|
                0 <= j < i ==> spec_after_save(
                    #[trigger] queue.tasks@[j],
                    pv[j],
                    dec[j],
                    j,
                    outsv,
                    spec_rank(dec, j),
                    cmdg,
                    fmtv,
                    outcomes.save@,
                ),
            forall|j: int|
                i <= j < n ==> spec_after_op(
                    #[trigger] queue.tasks@[j],
                    pv[j],
                    dec[j],
                    j,
                    outsv,
                    spec_rank(dec, j),
                    cmdg,
                    fmtv,
                ),
        decreases n - i,
    {
        let id = (i as u32) + 1;
        match &outcomes.decode[i] {
            Result::Ok(_) => {
                proof {
                    lemma_rank_le(dec, i + 1, n as int);
                    assert(spec_rank(dec, i + 1) == k + 1);
                }
                let processed = match queue.task_by_id(id) {
                    Option::Some(t) => t.state.is_processed(),
                    Option::None => false,
                };
                proof {
                    assert(queue.tasks@[i as int].id == id);
                }
                if processed {
                    match &outcomes.save[k] {
                        Result::Ok(_) => {
                            queue.set_completed(id);
                        },
                        Result::Err(e) => {
                            queue.set_failed(id, e.clone());
                        },
                    }
                }
                k = k + 1;
            },
            Result::Err(_) => {},
        }
        i = i + 1;
    }

    // Final report: every task is now `Complete` or `Failed`; collect
    // the written outputs and the failures, in task order.
    let mut completed: Vec<String> = Vec::new();
    let mut failed: Vec<(String, String)> = Vec::new();
    i = 0;
    k = 0;
    while i < n
        invariant
            i <= n,
            n == input_paths@.len(),
            n <= 0xffff_fffe,
            pv == spec_views(input_paths@),
            dec == outcomes.decode@,
            dec.len() == n,
            fmtv == spec_opt_string(config.target_format),
            cmdg == *command,
            k <= i,
            k == spec_rank(dec, i as int),
            outcomes.save@.len() == spec_rank(dec, n as int),
            outs@.len() == spec_rank(dec, n as int),
            outsv == spec_views(outs@),
            queue.wf(),
            queue.tasks@.len() == n,
            forall|j: int|
                0 <= j < n ==> spec_after_save(
                    #[trigger] queue.tasks@[j],
                    pv[j],
                    dec[j],
                    j,
                    outsv,
                    spec_rank(dec, j),
                    cmdg,
                    fmtv,
                    outcomes.save@,
                ),
            completed@.len() == spec_completed_list(dec, cmdg, fmtv, outsv, outcomes.save@, i as int).len(),
            forall|m: int|
                0 <= m < completed@.len() ==> (#[trigger] completed@[m])@ == spec_completed_list(
                    dec,
                    cmdg,
                    fmtv,
                    outsv,
                    outcomes.save@,
                    i as int,
                )[m],
            failed@.len() == spec_failed_list(pv, dec, cmdg, fmtv, outcomes.save@, i as int).len(),
            forall|m: int|
                0 <= m < failed@.len() ==> (#[trigger] failed@[m]).0@ == spec_failed_list(
                    pv,
                    dec,
                    cmdg,
                    fmtv,
                    outcomes.save@,
                    i as int,
                )[m].0 && failed@[m].1@ == spec_failed_list(
                    pv,
                    dec,
                    cmdg,
                    fmtv,
                    outcomes.save@,
                    i as int,
                )[m].1,
        decreases n - i,
    {
        let id = (i as u32) + 1;
        proof {
            assert(queue.tasks@[i as int].id == id);
            assert(pv[i as int] == input_paths@[i as int]@);
        }
        let decoded_here = matches!(&outcomes.decode[i], Result::Ok(_));
        if decoded_here {
            proof {
                lemma_rank_le(dec, i + 1, n as int);
                assert(spec_rank(dec, i + 1) == k + 1);
            }
        }
        let (is_complete, reason) = match queue.task_by_id(id) {
            Option::Some(t) => {
                let c = t.state.is_complete();
                let reason: String = match &t.state {
                    TaskState::Failed(TaskError::SingleError(s)) => s.clone(),
                    _ => String::new(),
                };
                (c, reason)
            },
            Option::None => {
                proof {
                    assert(false);
                }
                (false, String::new())
            },
        };
        if is_complete {
            completed.push(outs[k].clone());
        } else {
            failed.push((input_paths[i].clone(), reason));
        }
        if decoded_here {
            k = k + 1;
        }
        i = i + 1;
    }
    Ok(BatchReport { completed, failed })
}

} // verus!
