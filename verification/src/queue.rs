//! The task queue: the single source of truth for every task of one
//! batch run. Each input file becomes one task; tasks only ever move
//! forward through their lifecycle, and a failed task is never touched
//! again by any later stage.

use vstd::prelude::*;

use crate::error::TaskError;
use crate::image_data::{spec_empty_image, ImageData};

verus! {

/// Lifecycle state of one task. `Working` is the in-flight marker a
/// worker sets while it holds a task outside the lock; `Failed` is
/// terminal.
#[derive(Clone, Debug, PartialEq)]
pub enum TaskState {
    Pending,
    Decoded,
    Working,
    Processed,
    Complete,
    Failed(TaskError),
}

impl TaskState {
    pub fn is_failed(&self) -> (r: bool)
        ensures
            r == (*self is Failed),
    {
        matches!(self, TaskState::Failed(_))
    }

    pub fn is_decoded(&self) -> (r: bool)
        ensures
            r == (*self is Decoded),
    {
        matches!(self, TaskState::Decoded)
    }

    pub fn is_processed(&self) -> (r: bool)
        ensures
            r == (*self is Processed),
    {
        matches!(self, TaskState::Processed)
    }

    pub fn is_complete(&self) -> (r: bool)
        ensures
            r == (*self is Complete),
    {
        matches!(self, TaskState::Complete)
    }
}

/// One file's journey through the pipeline: identity, payload, source
/// and destination paths, and lifecycle state.
#[derive(Debug)]
pub struct ImageTask {
    pub id: u32,
    pub image: ImageData,
    pub image_path: String,
    pub out_path: String,
    pub state: TaskState,
}

impl ImageTask {
    /// A fresh `Pending` task: no payload yet, no destination yet.
    pub fn new(id: u32, path: &str) -> (r: ImageTask)
        ensures
            r.id == id,
            r.image == spec_empty_image(),
            r.image_path@ == path@,
            r.out_path@ == Seq::<char>::empty(),
            r.state == TaskState::Pending,
    {
        ImageTask {
            id,
            image: ImageData::default(),
            image_path: path.to_owned(),
            out_path: String::new(),
            state: TaskState::Pending,
        }
    }
}

/// How one task changes when a state mark for `task_id` is applied:
/// other tasks are untouched, a `Failed` task is untouched (failure is
/// sticky), and a task that is itself marked `Failed` loses its
/// destination path.
pub open spec fn spec_marked(
    t: ImageTask,
    t2: ImageTask,
    task_id: u32,
    st: TaskState,
    img: Option<ImageData>,
) -> bool {
    if t.id == task_id && !(t.state is Failed) {
        &&& t2.id == t.id
        &&& t2.image_path == t.image_path
        &&& t2.state == st
        &&& t2.image == (match img {
            Option::Some(m) => m,
            Option::None => t.image,
        })
        &&& (if st is Failed {
            t2.out_path@ == Seq::<char>::empty()
        } else {
            t2.out_path == t.out_path
        })
    } else {
        t2 == t
    }
}

/// How one task changes when a destination path for `task_id` is
/// recorded: only a task that has passed decoding and is still alive
/// (`Decoded` or `Processed`) takes the path.
pub open spec fn spec_out_path_set(
    t: ImageTask,
    t2: ImageTask,
    task_id: u32,
    path: Seq<char>,
) -> bool {
    if t.id == task_id && (t.state is Decoded || t.state is Processed) {
        &&& t2.id == t.id
        &&& t2.image == t.image
        &&& t2.image_path == t.image_path
        &&& t2.state == t.state
        &&& t2.out_path@ == path
    } else {
        t2 == t
    }
}

/// A pop observed on the task sequence: the first task in state `want`
/// was flipped to `Working` and handed out as `id`; everything else is
/// untouched.
pub open spec fn spec_popped_at(
    pre: Seq<ImageTask>,
    post: Seq<ImageTask>,
    id: u32,
    want: TaskState,
    i: int,
) -> bool {
    &&& 0 <= i < pre.len()
    &&& pre[i].state == want
    &&& pre[i].id == id
    &&& (forall|j: int| 0 <= j < i ==> #[trigger] pre[j].state != want)
    &&& post.len() == pre.len()
    &&& (forall|j: int| #![trigger post[j]] 0 <= j < pre.len() && j != i ==> post[j] == pre[j])
    &&& post[i].id == pre[i].id
    &&& post[i].image == pre[i].image
    &&& post[i].image_path == pre[i].image_path
    &&& post[i].out_path == pre[i].out_path
    &&& post[i].state == TaskState::Working
}

pub open spec fn spec_popped(
    pre: Seq<ImageTask>,
    post: Seq<ImageTask>,
    id: u32,
    want: TaskState,
) -> bool {
    exists|i: int| spec_popped_at(pre, post, id, want, i)
}

/// The reason a failed state carries, or empty for any other state.
pub open spec fn spec_failure_reason(st: TaskState) -> Seq<char> {
    match st {
        TaskState::Failed(TaskError::SingleError(s)) => s@,
        _ => Seq::empty(),
    }
}

/// The predicate a `Failed` task satisfies, as one shared value so
/// that every contract filters with the same function.
pub open spec fn failed_pred() -> spec_fn(ImageTask) -> bool {
    |t: ImageTask| t.state is Failed
}

pub open spec fn decoded_pred() -> spec_fn(ImageTask) -> bool {
    |t: ImageTask| t.state is Decoded
}

pub open spec fn processed_pred() -> spec_fn(ImageTask) -> bool {
    |t: ImageTask| t.state is Processed
}

pub open spec fn complete_pred() -> spec_fn(ImageTask) -> bool {
    |t: ImageTask| t.state is Complete
}

/// The authoritative, exclusively-locked collection of all tasks of
/// one batch run. The lock itself lives with the caller; every method
/// here runs under it and touches task metadata only.
#[derive(Debug)]
pub struct TaskQueue {
    pub tasks: Vec<ImageTask>,
    pub next_id: u32,
}

impl TaskQueue {
    /// Well-formedness: ids increase strictly in creation order — so
    /// they identify tasks uniquely — and are never reused, because
    /// every id ever handed out is below `next_id`.
    pub open spec fn wf(&self) -> bool {
        &&& (forall|i: int, j: int|
            0 <= i < j < self.tasks@.len() ==> #[trigger] self.tasks@[i].id
                < #[trigger] self.tasks@[j].id)
        &&& (forall|i: int| 0 <= i < self.tasks@.len() ==> #[trigger] self.tasks@[i].id < self.next_id)
    }

    pub fn new() -> (r: TaskQueue)
        ensures
            r.tasks@.len() == 0,
            r.next_id == 1,
            r.wf(),
    {
        TaskQueue { tasks: Vec::new(), next_id: 1 }
    }

    /// Appends a fresh `Pending` task for `path` and returns its id.
    pub fn new_task(&mut self, path: &str) -> (id: u32)
        requires
            old(self).wf(),
            old(self).next_id < u32::MAX,
        ensures
            final(self).wf(),
            id == old(self).next_id,
            final(self).next_id == old(self).next_id + 1,
            final(self).tasks@.len() == old(self).tasks@.len() + 1,
            forall|i: int|
                0 <= i < old(self).tasks@.len() ==> final(self).tasks@[i] == old(self).tasks@[i],
            ({
                let t = final(self).tasks@.last();
                &&& t.id == old(self).next_id
                &&& t.image == spec_empty_image()
                &&& t.image_path@ == path@
                &&& t.out_path@ == Seq::<char>::empty()
                &&& t.state == TaskState::Pending
            }),
    {
        let id = self.next_id;
        let task = ImageTask::new(id, path);
        self.tasks.push(task);
        self.next_id = self.next_id + 1;
        id
    }

    /// The index of the task with the given id, if any.
    fn index_of_id(&self, task_id: u32) -> (r: Option<usize>)
        ensures
            match r {
                Option::Some(i) => i < self.tasks@.len() && self.tasks@[i as int].id == task_id,
                Option::None => forall|i: int|
                    0 <= i < self.tasks@.len() ==> #[trigger] self.tasks@[i].id != task_id,
            },
    {
        let n = self.tasks.len();
        let mut idx: usize = 0;
        while idx < n
            invariant
                idx <= n,
                n == self.tasks@.len(),
                forall|i: int| 0 <= i < idx ==> #[trigger] self.tasks@[i].id != task_id,
            decreases n - idx,
        {
            if self.tasks[idx].id == task_id {
                return Some(idx);
            }
            idx = idx + 1;
        }
        None
    }

    /// Applies a state mark to the task with the given id, if it is
    /// present and not already `Failed`.
    fn mark_task(&mut self, task_id: u32, st: TaskState, img: Option<ImageData>)
        requires
            old(self).wf(),
        ensures
            final(self).wf(),
            final(self).next_id == old(self).next_id,
            final(self).tasks@.len() == old(self).tasks@.len(),
            forall|i: int|
                #![trigger final(self).tasks@[i]]
                0 <= i < old(self).tasks@.len() ==> spec_marked(
                    old(self).tasks@[i],
                    final(self).tasks@[i],
                    task_id,
                    st,
                    img,
                ),
    {
        match self.index_of_id(task_id) {
            Option::None => {},
            Option::Some(i) => {
                if !self.tasks[i].state.is_failed() {
                    let ghost pre = self.tasks@;
                    let mut t = self.tasks.remove(i);
                    t.state = st;
                    match img {
                        Option::Some(m) => {
                            t.image = m;
                        },
                        Option::None => {},
                    }
                    if t.state.is_failed() {
                        t.out_path = String::new();
                    }
                    self.tasks.insert(i, t);
                    proof {
                        assert forall|j: int|
                            0 <= j < pre.len() && j != i implies self.tasks@[j] == pre[j] by {
                            if j < i {
                                assert(self.tasks@[j] == pre[j]);
                            } else {
                                assert(self.tasks@[j] == pre[j]);
                            }
                        }
                    }
                }
            },
        }
    }

    /// Records a destination path on the task with the given id, if it
    /// is `Decoded` or `Processed`.
    fn put_out_path(&mut self, task_id: u32, path: &str)
        requires
            old(self).wf(),
        ensures
            final(self).wf(),
            final(self).next_id == old(self).next_id,
            final(self).tasks@.len() == old(self).tasks@.len(),
            forall|i: int|
                #![trigger final(self).tasks@[i]]
                0 <= i < old(self).tasks@.len() ==> spec_out_path_set(
                    old(self).tasks@[i],
                    final(self).tasks@[i],
                    task_id,
                    path@,
                ),
    {
        match self.index_of_id(task_id) {
            Option::None => {},
            Option::Some(i) => {
                let eligible = self.tasks[i].state.is_decoded() || self.tasks[i].state.is_processed();
                if eligible {
                    let ghost pre = self.tasks@;
                    let mut t = self.tasks.remove(i);
                    t.out_path = path.to_owned();
                    self.tasks.insert(i, t);
                    proof {
                        assert forall|j: int|
                            0 <= j < pre.len() && j != i implies self.tasks@[j] == pre[j] by {}
                    }
                }
            },
        }
    }

    /// Marks the task `Decoded` and stores its decoded payload.
    pub fn set_decoded(&mut self, decoded_image: &ImageData, task_id: u32)
        requires
            old(self).wf(),
        ensures
            final(self).wf(),
            final(self).next_id == old(self).next_id,
            final(self).tasks@.len() == old(self).tasks@.len(),
            forall|i: int|
                #![trigger final(self).tasks@[i]]
                0 <= i < old(self).tasks@.len() ==> spec_marked(
                    old(self).tasks@[i],
                    final(self).tasks@[i],
                    task_id,
                    TaskState::Decoded,
                    Option::Some(*decoded_image),
                ),
    {
        self.mark_task(task_id, TaskState::Decoded, Some(*decoded_image));
    }

    /// Marks the task `Decoded`; alias used by the pop/commit worker
    /// discipline.
    pub fn decoded_task(&mut self, decoded_image: &ImageData, task_id: u32)
        requires
            old(self).wf(),
        ensures
            final(self).wf(),
            final(self).next_id == old(self).next_id,
            final(self).tasks@.len() == old(self).tasks@.len(),
            forall|i: int|
                #![trigger final(self).tasks@[i]]
                0 <= i < old(self).tasks@.len() ==> spec_marked(
                    old(self).tasks@[i],
                    final(self).tasks@[i],
                    task_id,
                    TaskState::Decoded,
                    Option::Some(*decoded_image),
                ),
    {
        self.mark_task(task_id, TaskState::Decoded, Some(*decoded_image));
    }

    /// Marks the task `Processed` and stores the transformed payload.
    pub fn set_processed(&mut self, processed_image: &ImageData, task_id: u32)
        requires
            old(self).wf(),
        ensures
            final(self).wf(),
            final(self).next_id == old(self).next_id,
            final(self).tasks@.len() == old(self).tasks@.len(),
            forall|i: int|
                #![trigger final(self).tasks@[i]]
                0 <= i < old(self).tasks@.len() ==> spec_marked(
                    old(self).tasks@[i],
                    final(self).tasks@[i],
                    task_id,
                    TaskState::Processed,
                    Option::Some(*processed_image),
                ),
    {
        self.mark_task(task_id, TaskState::Processed, Some(*processed_image));
    }

    /// Marks the task `Processed`; alias used by the pop/commit worker
    /// discipline.
    pub fn processed_task(&mut self, processed_image: &ImageData, task_id: u32)
        requires
            old(self).wf(),
        ensures
            final(self).wf(),
            final(self).next_id == old(self).next_id,
            final(self).tasks@.len() == old(self).tasks@.len(),
            forall|i: int|
                #![trigger final(self).tasks@[i]]
                0 <= i < old(self).tasks@.len() ==> spec_marked(
                    old(self).tasks@[i],
                    final(self).tasks@[i],
                    task_id,
                    TaskState::Processed,
                    Option::Some(*processed_image),
                ),
    {
        self.mark_task(task_id, TaskState::Processed, Some(*processed_image));
    }

    /// Marks the task `Complete`, keeping its payload and paths.
    pub fn set_completed(&mut self, task_id: u32)
        requires
            old(self).wf(),
        ensures
            final(self).wf(),
            final(self).next_id == old(self).next_id,
            final(self).tasks@.len() == old(self).tasks@.len(),
            forall|i: int|
                #![trigger final(self).tasks@[i]]
                0 <= i < old(self).tasks@.len() ==> spec_marked(
                    old(self).tasks@[i],
                    final(self).tasks@[i],
                    task_id,
                    TaskState::Complete,
                    Option::None,
                ),
    {
        self.mark_task(task_id, TaskState::Complete, None);
    }

    /// Records that the task's output has been written: the task is
    /// marked `Complete`.
    pub fn completed_task(&mut self, task_id: u32)
        requires
            old(self).wf(),
        ensures
            final(self).wf(),
            final(self).next_id == old(self).next_id,
            final(self).tasks@.len() == old(self).tasks@.len(),
            forall|i: int|
                #![trigger final(self).tasks@[i]]
                0 <= i < old(self).tasks@.len() ==> spec_marked(
                    old(self).tasks@[i],
                    final(self).tasks@[i],
                    task_id,
                    TaskState::Complete,
                    Option::None,
                ),
    {
        self.mark_task(task_id, TaskState::Complete, None);
    }

    /// Marks the task as in flight while a worker holds it outside the
    /// lock.
    pub fn working_task(&mut self, task_id: u32)
        requires
            old(self).wf(),
        ensures
            final(self).wf(),
            final(self).next_id == old(self).next_id,
            final(self).tasks@.len() == old(self).tasks@.len(),
            forall|i: int|
                #![trigger final(self).tasks@[i]]
                0 <= i < old(self).tasks@.len() ==> spec_marked(
                    old(self).tasks@[i],
                    final(self).tasks@[i],
                    task_id,
                    TaskState::Working,
                    Option::None,
                ),
    {
        self.mark_task(task_id, TaskState::Working, None);
    }

    /// Marks the task `Failed` with the given reason. The reason is
    /// never lost, the destination path is dropped, and a task that is
    /// already `Failed` keeps its first reason.
    pub fn set_failed(&mut self, task_id: u32, task_error: String)
        requires
            old(self).wf(),
        ensures
            final(self).wf(),
            final(self).next_id == old(self).next_id,
            final(self).tasks@.len() == old(self).tasks@.len(),
            forall|i: int|
                #![trigger final(self).tasks@[i]]
                0 <= i < old(self).tasks@.len() ==> spec_marked(
                    old(self).tasks@[i],
                    final(self).tasks@[i],
                    task_id,
                    TaskState::Failed(TaskError::SingleError(task_error)),
                    Option::None,
                ),
    {
        self.mark_task(task_id, TaskState::Failed(TaskError::SingleError(task_error)), None);
    }

    /// Marks the task `Failed`; alias used by the pop/commit worker
    /// discipline.
    pub fn fail_task(&mut self, task_id: u32, task_error: String)
        requires
            old(self).wf(),
        ensures
            final(self).wf(),
            final(self).next_id == old(self).next_id,
            final(self).tasks@.len() == old(self).tasks@.len(),
            forall|i: int|
                #![trigger final(self).tasks@[i]]
                0 <= i < old(self).tasks@.len() ==> spec_marked(
                    old(self).tasks@[i],
                    final(self).tasks@[i],
                    task_id,
                    TaskState::Failed(TaskError::SingleError(task_error)),
                    Option::None,
                ),
    {
        self.mark_task(task_id, TaskState::Failed(TaskError::SingleError(task_error)), None);
    }

    /// Records the resolved destination path of the task.
    pub fn set_out_path(&mut self, task_id: u32, path: &str)
        requires
            old(self).wf(),
        ensures
            final(self).wf(),
            final(self).next_id == old(self).next_id,
            final(self).tasks@.len() == old(self).tasks@.len(),
            forall|i: int|
                #![trigger final(self).tasks@[i]]
                0 <= i < old(self).tasks@.len() ==> spec_out_path_set(
                    old(self).tasks@[i],
                    final(self).tasks@[i],
                    task_id,
                    path@,
                ),
    {
        self.put_out_path(task_id, path);
    }

    /// Records the resolved destination path of the task; alias kept
    /// beside `set_out_path`.
    pub fn set_task_out_path(&mut self, task_id: u32, path: &str)
        requires
            old(self).wf(),
        ensures
            final(self).wf(),
            final(self).next_id == old(self).next_id,
            final(self).tasks@.len() == old(self).tasks@.len(),
            forall|i: int|
                #![trigger final(self).tasks@[i]]
                0 <= i < old(self).tasks@.len() ==> spec_out_path_set(
                    old(self).tasks@[i],
                    final(self).tasks@[i],
                    task_id,
                    path@,
                ),
    {
        self.put_out_path(task_id, path);
    }

    /// Whether any task of the run has failed.
    pub fn has_failures(&self) -> (r: bool)
        ensures
            r == exists|i: int| 0 <= i < self.tasks@.len() && (#[trigger] self.tasks@[i].state) is Failed,
    {
        let n = self.tasks.len();
        let mut idx: usize = 0;
        while idx < n
            invariant
                idx <= n,
                n == self.tasks@.len(),
                forall|i: int| 0 <= i < idx ==> !((#[trigger] self.tasks@[i].state) is Failed),
            decreases n - idx,
        {
            if self.tasks[idx].state.is_failed() {
                return true;
            }
            idx = idx + 1;
        }
        false
    }

    /// The number of tasks that have failed so far: a true count of
    /// `Failed` tasks, never a derived length.
    pub fn count_failures(&self) -> (r: usize)
        ensures
            r == self.tasks@.filter(failed_pred()).len(),
    {
        self.failed_tasks().len()
    }

    /// Snapshot of the failed tasks, in task order.
    pub fn failed_tasks(&self) -> (r: Vec<&ImageTask>)
        ensures
            r@.len() == self.tasks@.filter(failed_pred()).len(),
            forall|k: int|
                0 <= k < r@.len() ==> *(#[trigger] r@[k]) == self.tasks@.filter(failed_pred())[k],
    {
        let n = self.tasks.len();
        let mut out: Vec<&ImageTask> = Vec::new();
        let mut idx: usize = 0;
        while idx < n
            invariant
                idx <= n,
                n == self.tasks@.len(),
                out@.len() == self.tasks@.take(idx as int).filter(failed_pred()).len(),
                forall|k: int|
                    0 <= k < out@.len() ==> *(#[trigger] out@[k]) == self.tasks@.take(
                        idx as int,
                    ).filter(failed_pred())[k],
            decreases n - idx,
        {
            proof {
                crate::seqtools::lemma_filter_take_step(self.tasks@, idx as int, failed_pred());
                assert(failed_pred()(self.tasks@[idx as int]) == (self.tasks@[idx as int].state
                    is Failed));
            }
            if self.tasks[idx].state.is_failed() {
                out.push(&self.tasks[idx]);
            }
            idx = idx + 1;
        }
        proof {
            assert(self.tasks@.take(n as int) =~= self.tasks@);
        }
        out
    }

    /// Snapshot of the failed tasks as (source path, reason) pairs,
    /// in task order.
    pub fn failures(&self) -> (r: Vec<(String, String)>)
        ensures
            r@.len() == self.tasks@.filter(failed_pred()).len(),
            forall|k: int|
                0 <= k < r@.len() ==> (#[trigger] r@[k]).0@ == self.tasks@.filter(
                    failed_pred(),
                )[k].image_path@ && r@[k].1@ == spec_failure_reason(
                    self.tasks@.filter(failed_pred())[k].state,
                ),
    {
        let n = self.tasks.len();
        let mut out: Vec<(String, String)> = Vec::new();
        let mut idx: usize = 0;
        while idx < n
            invariant
                idx <= n,
                n == self.tasks@.len(),
                out@.len() == self.tasks@.take(idx as int).filter(failed_pred()).len(),
                forall|k: int|
                    0 <= k < out@.len() ==> (#[trigger] out@[k]).0@ == self.tasks@.take(
                        idx as int,
                    ).filter(failed_pred())[k].image_path@ && out@[k].1@ == spec_failure_reason(
                        self.tasks@.take(idx as int).filter(failed_pred())[k].state,
                    ),
            decreases n - idx,
        {
            proof {
                crate::seqtools::lemma_filter_take_step(self.tasks@, idx as int, failed_pred());
                assert(failed_pred()(self.tasks@[idx as int]) == (self.tasks@[idx as int].state
                    is Failed));
            }
            if self.tasks[idx].state.is_failed() {
                let reason: String = match &self.tasks[idx].state {
                    TaskState::Failed(TaskError::SingleError(s)) => s.clone(),
                    _ => String::new(),
                };
                out.push((self.tasks[idx].image_path.clone(), reason));
            }
            idx = idx + 1;
        }
        proof {
            assert(self.tasks@.take(n as int) =~= self.tasks@);
        }
        out
    }

    /// Snapshot of the decoded tasks, in task order.
    pub fn decoded_tasks(&self) -> (r: Vec<&ImageTask>)
        ensures
            r@.len() == self.tasks@.filter(decoded_pred()).len(),
            forall|k: int|
                0 <= k < r@.len() ==> *(#[trigger] r@[k]) == self.tasks@.filter(decoded_pred())[k],
    {
        let n = self.tasks.len();
        let mut out: Vec<&ImageTask> = Vec::new();
        let mut idx: usize = 0;
        while idx < n
            invariant
                idx <= n,
                n == self.tasks@.len(),
                out@.len() == self.tasks@.take(idx as int).filter(decoded_pred()).len(),
                forall|k: int|
                    0 <= k < out@.len() ==> *(#[trigger] out@[k]) == self.tasks@.take(
                        idx as int,
                    ).filter(decoded_pred())[k],
            decreases n - idx,
        {
            proof {
                crate::seqtools::lemma_filter_take_step(self.tasks@, idx as int, decoded_pred());
                assert(decoded_pred()(self.tasks@[idx as int]) == (self.tasks@[idx as int].state
                    is Decoded));
            }
            if self.tasks[idx].state.is_decoded() {
                out.push(&self.tasks[idx]);
            }
            idx = idx + 1;
        }
        proof {
            assert(self.tasks@.take(n as int) =~= self.tasks@);
        }
        out
    }

    /// Snapshot of the processed tasks, in task order.
    pub fn processed_tasks(&self) -> (r: Vec<&ImageTask>)
        ensures
            r@.len() == self.tasks@.filter(processed_pred()).len(),
            forall|k: int|
                0 <= k < r@.len() ==> *(#[trigger] r@[k]) == self.tasks@.filter(
                    processed_pred(),
                )[k],
    {
        let n = self.tasks.len();
        let mut out: Vec<&ImageTask> = Vec::new();
        let mut idx: usize = 0;
        while idx < n
            invariant
                idx <= n,
                n == self.tasks@.len(),
                out@.len() == self.tasks@.take(idx as int).filter(processed_pred()).len(),
                forall|k: int|
                    0 <= k < out@.len() ==> *(#[trigger] out@[k]) == self.tasks@.take(
                        idx as int,
                    ).filter(processed_pred())[k],
            decreases n - idx,
        {
            proof {
                crate::seqtools::lemma_filter_take_step(self.tasks@, idx as int, processed_pred());
                assert(processed_pred()(self.tasks@[idx as int]) == (self.tasks@[idx as int].state
                    is Processed));
            }
            if self.tasks[idx].state.is_processed() {
                out.push(&self.tasks[idx]);
            }
            idx = idx + 1;
        }
        proof {
            assert(self.tasks@.take(n as int) =~= self.tasks@);
        }
        out
    }

    /// Snapshot of the completed tasks, in task order.
    pub fn completed_tasks(&self) -> (r: Vec<&ImageTask>)
        ensures
            r@.len() == self.tasks@.filter(complete_pred()).len(),
            forall|k: int|
                0 <= k < r@.len() ==> *(#[trigger] r@[k]) == self.tasks@.filter(complete_pred())[k],
    {
        let n = self.tasks.len();
        let mut out: Vec<&ImageTask> = Vec::new();
        let mut idx: usize = 0;
        while idx < n
            invariant
                idx <= n,
                n == self.tasks@.len(),
                out@.len() == self.tasks@.take(idx as int).filter(complete_pred()).len(),
                forall|k: int|
                    0 <= k < out@.len() ==> *(#[trigger] out@[k]) == self.tasks@.take(
                        idx as int,
                    ).filter(complete_pred())[k],
            decreases n - idx,
        {
            proof {
                crate::seqtools::lemma_filter_take_step(self.tasks@, idx as int, complete_pred());
                assert(complete_pred()(self.tasks@[idx as int]) == (self.tasks@[idx as int].state
                    is Complete));
            }
            if self.tasks[idx].state.is_complete() {
                out.push(&self.tasks[idx]);
            }
            idx = idx + 1;
        }
        proof {
            assert(self.tasks@.take(n as int) =~= self.tasks@);
        }
        out
    }

    /// The ids of the decoded tasks, in task order; the resolver's
    /// outputs are zipped back onto exactly this list.
    pub fn decoded_ids(&self) -> (r: Vec<u32>)
        ensures
            r@.len() == self.tasks@.filter(decoded_pred()).len(),
            forall|k: int|
                0 <= k < r@.len() ==> #[trigger] r@[k] == self.tasks@.filter(decoded_pred())[k].id,
            self.wf() ==> forall|k1: int, k2: int|
                0 <= k1 < k2 < r@.len() ==> #[trigger] r@[k1] < #[trigger] r@[k2],
    {
        proof {
            if self.wf() {
                lemma_filter_keeps_id_order(self.tasks@, decoded_pred());
            }
        }
        let n = self.tasks.len();
        let mut out: Vec<u32> = Vec::new();
        let mut idx: usize = 0;
        while idx < n
            invariant
                idx <= n,
                n == self.tasks@.len(),
                out@.len() == self.tasks@.take(idx as int).filter(decoded_pred()).len(),
                forall|k: int|
                    0 <= k < out@.len() ==> #[trigger] out@[k] == self.tasks@.take(
                        idx as int,
                    ).filter(decoded_pred())[k].id,
            decreases n - idx,
        {
            proof {
                crate::seqtools::lemma_filter_take_step(self.tasks@, idx as int, decoded_pred());
                assert(decoded_pred()(self.tasks@[idx as int]) == (self.tasks@[idx as int].state
                    is Decoded));
            }
            if self.tasks[idx].state.is_decoded() {
                out.push(self.tasks[idx].id);
            }
            idx = idx + 1;
        }
        proof {
            assert(self.tasks@.take(n as int) =~= self.tasks@);
        }
        out
    }

    /// The ids of the decoded tasks; alias kept beside `decoded_ids`.
    pub fn decoded_task_ids(&self) -> (r: Vec<u32>)
        ensures
            r@.len() == self.tasks@.filter(decoded_pred()).len(),
            forall|k: int|
                0 <= k < r@.len() ==> #[trigger] r@[k] == self.tasks@.filter(decoded_pred())[k].id,
            self.wf() ==> forall|k1: int, k2: int|
                0 <= k1 < k2 < r@.len() ==> #[trigger] r@[k1] < #[trigger] r@[k2],
    {
        self.decoded_ids()
    }

    /// The index of the first task in state `Decoded`, if any.
    fn first_decoded_index(&self) -> (r: Option<usize>)
        ensures
            match r {
                Option::Some(i) => i < self.tasks@.len() && self.tasks@[i as int].state is Decoded
                    && forall|j: int|
                    0 <= j < i ==> !((#[trigger] self.tasks@[j].state) is Decoded),
                Option::None => forall|i: int|
                    0 <= i < self.tasks@.len() ==> !((#[trigger] self.tasks@[i].state) is Decoded),
            },
    {
        let n = self.tasks.len();
        let mut idx: usize = 0;
        while idx < n
            invariant
                idx <= n,
                n == self.tasks@.len(),
                forall|j: int| 0 <= j < idx ==> !((#[trigger] self.tasks@[j].state) is Decoded),
            decreases n - idx,
        {
            if self.tasks[idx].state.is_decoded() {
                return Some(idx);
            }
            idx = idx + 1;
        }
        None
    }

    /// The index of the first task in state `Processed`, if any.
    fn first_processed_index(&self) -> (r: Option<usize>)
        ensures
            match r {
                Option::Some(i) => i < self.tasks@.len() && self.tasks@[i as int].state is Processed
                    && forall|j: int|
                    0 <= j < i ==> !((#[trigger] self.tasks@[j].state) is Processed),
                Option::None => forall|i: int|
                    0 <= i < self.tasks@.len() ==> !((#[trigger] self.tasks@[i].state)
                        is Processed),
            },
    {
        let n = self.tasks.len();
        let mut idx: usize = 0;
        while idx < n
            invariant
                idx <= n,
                n == self.tasks@.len(),
                forall|j: int| 0 <= j < idx ==> !((#[trigger] self.tasks@[j].state) is Processed),
            decreases n - idx,
        {
            if self.tasks[idx].state.is_processed() {
                return Some(idx);
            }
            idx = idx + 1;
        }
        None
    }

    /// Pops the first `Decoded` task for the operation step: flips it
    /// to `Working` under the lock and hands out its id, so no other
    /// worker can start the same task.
    pub fn pop_decoded(&mut self) -> (r: Option<u32>)
        requires
            old(self).wf(),
        ensures
            final(self).wf(),
            final(self).next_id == old(self).next_id,
            match r {
                Option::Some(id) => spec_popped(
                    old(self).tasks@,
                    final(self).tasks@,
                    id,
                    TaskState::Decoded,
                ),
                Option::None => *final(self) == *old(self) && forall|i: int|
                    0 <= i < old(self).tasks@.len() ==> !((#[trigger] old(
                        self,
                    ).tasks@[i].state) is Decoded),
            },
    {
        match self.first_decoded_index() {
            Option::None => None,
            Option::Some(i) => {
                let id = self.tasks[i].id;
                let ghost pre = self.tasks@;
                self.working_task(id);
                proof {
                    assert forall|j: int| 0 <= j < pre.len() && j != i implies self.tasks@[j]
                        == pre[j] by {
                        if pre[j].id == id {
                            assert(pre[i as int].id == id);
                            if j < i as int {
                                assert(pre[j].id != pre[i as int].id);
                            } else {
                                assert(pre[i as int].id != pre[j].id);
                            }
                        }
                    }
                    assert(spec_popped_at(pre, self.tasks@, id, TaskState::Decoded, i as int));
                }
                Some(id)
            },
        }
    }

    /// Pops the first `Processed` task for the save step: flips it to
    /// `Working` under the lock and hands out its id.
    pub fn pop_processed(&mut self) -> (r: Option<u32>)
        requires
            old(self).wf(),
        ensures
            final(self).wf(),
            final(self).next_id == old(self).next_id,
            match r {
                Option::Some(id) => spec_popped(
                    old(self).tasks@,
                    final(self).tasks@,
                    id,
                    TaskState::Processed,
                ),
                Option::None => *final(self) == *old(self) && forall|i: int|
                    0 <= i < old(self).tasks@.len() ==> !((#[trigger] old(
                        self,
                    ).tasks@[i].state) is Processed),
            },
    {
        match self.first_processed_index() {
            Option::None => None,
            Option::Some(i) => {
                let id = self.tasks[i].id;
                let ghost pre = self.tasks@;
                self.working_task(id);
                proof {
                    assert forall|j: int| 0 <= j < pre.len() && j != i implies self.tasks@[j]
                        == pre[j] by {
                        if pre[j].id == id {
                            assert(pre[i as int].id == id);
                            if j < i as int {
                                assert(pre[j].id != pre[i as int].id);
                            } else {
                                assert(pre[i as int].id != pre[j].id);
                            }
                        }
                    }
                    assert(spec_popped_at(pre, self.tasks@, id, TaskState::Processed, i as int));
                }
                Some(id)
            },
        }
    }

    /// Shared reference to the task with the given id.
    pub fn task_by_id(&self, task_id: u32) -> (r: Option<&ImageTask>)
        ensures
            match r {
                Option::Some(t) => exists|i: int|
                    0 <= i < self.tasks@.len() && *t == #[trigger] self.tasks@[i]
                        && self.tasks@[i].id == task_id,
                Option::None => forall|i: int|
                    0 <= i < self.tasks@.len() ==> #[trigger] self.tasks@[i].id != task_id,
            },
    {
        match self.index_of_id(task_id) {
            Option::Some(i) => Some(&self.tasks[i]),
            Option::None => None,
        }
    }
}

impl TaskQueue {
    /// Exclusive reference to the task with the given id, for the
    /// stage consuming it: the task is borrowed in place, and the
    /// queue keeps its length, order and every other task.
    pub fn task_by_id_mut(&mut self, task_id: u32) -> (r: Option<&mut ImageTask>)
        requires
            old(self).wf(),
        ensures
            match r {
                Option::Some(t) => exists|i: int|
                    #![trigger old(self).tasks@[i]]
                    0 <= i < old(self).tasks@.len() && old(self).tasks@[i].id == task_id && *t
                        == old(self).tasks@[i] && final(self).tasks@ == old(self).tasks@.update(
                        i,
                        *final(t),
                    ) && final(self).next_id == old(self).next_id,
                Option::None => *final(self) == *old(self) && forall|i: int|
                    0 <= i < old(self).tasks@.len() ==> #[trigger] old(self).tasks@[i].id
                        != task_id,
            },
    {
        match self.index_of_id(task_id) {
            Option::Some(i) => Some(&mut self.tasks[i]),
            Option::None => None,
        }
    }
}

/// Filtering a task list whose ids increase strictly yields a list
/// whose ids still increase strictly.
pub proof fn lemma_filter_keeps_id_order(s: Seq<ImageTask>, pred: spec_fn(ImageTask) -> bool)
    requires
        forall|i: int, j: int| 0 <= i < j < s.len() ==> #[trigger] s[i].id < #[trigger] s[j].id,
    ensures
        forall|k1: int, k2: int|
            0 <= k1 < k2 < s.filter(pred).len() ==> #[trigger] s.filter(pred)[k1].id
                < #[trigger] s.filter(pred)[k2].id,
    decreases s.len(),
{
    reveal(Seq::filter);
    if s.len() > 0 {
        let dl = s.drop_last();
        lemma_filter_keeps_id_order(dl, pred);
        let f = s.filter(pred);
        let fdl = dl.filter(pred);
        if pred(s.last()) {
            assert(f == fdl.push(s.last()));
            assert forall|k1: int, k2: int| 0 <= k1 < k2 < f.len() implies f[k1].id
                < f[k2].id by {
                if k2 < f.len() - 1 {
                    assert(f[k1] == fdl[k1]);
                    assert(f[k2] == fdl[k2]);
                } else {
                    assert(f[k1] == fdl[k1]);
                    assert(fdl.contains(fdl[k1]));
                    dl.lemma_filter_contains_rev(pred, fdl[k1]);
                    let w = choose|w: int| 0 <= w < dl.len() && dl[w] == fdl[k1];
                    assert(s[w] == dl[w]);
                    assert(s[w].id < s[s.len() - 1].id);
                }
            }
        } else {
            assert(f == fdl);
        }
    }
}

/// Failure is terminal: whatever state mark is requested for whatever
/// task, a task that is already `Failed` comes out of it unchanged.
pub proof fn lemma_failed_is_sticky(
    t: ImageTask,
    t2: ImageTask,
    task_id: u32,
    st: TaskState,
    img: Option<ImageData>,
)
    requires
        spec_marked(t, t2, task_id, st, img),
        t.state is Failed,
    ensures
        t2 == t,
{
}

/// Mutual exclusion of dispatch: two successive pops on the queue
/// never hand out the same task id, because the first pop leaves the
/// task `Working` and a pop only returns a task still in the wanted
/// input state.
pub proof fn lemma_no_double_dispatch(
    pre: Seq<ImageTask>,
    mid: Seq<ImageTask>,
    post: Seq<ImageTask>,
    id1: u32,
    id2: u32,
    want: TaskState,
)
    requires
        forall|i: int, j: int| 0 <= i < j < pre.len() ==> #[trigger] pre[i].id != #[trigger] pre[j].id,
        want != TaskState::Working,
        spec_popped(pre, mid, id1, want),
        spec_popped(mid, post, id2, want),
    ensures
        id1 != id2,
{
    let i1 = choose|i: int| spec_popped_at(pre, mid, id1, want, i);
    let i2 = choose|i: int| spec_popped_at(mid, post, id2, want, i);
    assert(mid[i1].state == TaskState::Working);
    assert(mid[i2].state == want);
    assert(i1 != i2);
    assert(mid[i2] == pre[i2]);
    if i1 < i2 {
        assert(pre[i1].id != pre[i2].id);
    } else {
        assert(pre[i2].id != pre[i1].id);
    }
}

} // verus!
