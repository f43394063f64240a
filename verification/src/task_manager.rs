//! The tasks that apcore runs in the background, as they are at the moment.

use crate::async_task_bridge::{self, TaskRecord, TaskStatus, TaskView};
use crate::text;
use crate::value;
use vstd::prelude::*;

verus! {

/// The outside type `apcore::async_task::AsyncTaskManager`. Its tasks go on while it is shared, so
/// two reads of one manager may differ.
#[verifier::external_type_specification]
#[verifier::external_body]
pub struct ExAsyncTaskManager(apcore::async_task::AsyncTaskManager);

/// The outside type `apcore::async_task::TaskInfo`.
#[verifier::external_type_specification]
#[verifier::external_body]
pub struct ExTaskInfo(apcore::async_task::TaskInfo);

/// Whether a manager keeps its tasks in an `apcore::async_task::InMemoryTaskStore`.
pub uninterp spec fn keeps_in_memory(manager: apcore::async_task::AsyncTaskManager) -> bool;

/// How many tasks of a manager may run at once, as it was made.
pub uninterp spec fn max_concurrent_of(manager: apcore::async_task::AsyncTaskManager) -> usize;

/// How many tasks a manager keeps at most, as it was made.
pub uninterp spec fn max_tasks_of(manager: apcore::async_task::AsyncTaskManager) -> usize;

/// The executor that a manager was made with.
pub uninterp spec fn executor_of(
    manager: apcore::async_task::AsyncTaskManager,
) -> apcore::executor::Executor;

/// What an `apcore::async_task::TaskInfo` says.
pub uninterp spec fn recorded(info: apcore::async_task::TaskInfo) -> TaskView;

/// A task as apcore hands it out.
pub(crate) struct RawTask {
    pub(crate) task_id: String,
    pub(crate) module_id: String,
    pub(crate) status: TaskStatus,
    pub(crate) submitted_at: serde_json::Value,
    pub(crate) started_at: Option<serde_json::Value>,
    pub(crate) completed_at: Option<serde_json::Value>,
    pub(crate) result: Option<serde_json::Value>,
    pub(crate) error: Option<String>,
    pub(crate) retry_count: u32,
    pub(crate) max_retries: u32,
}

impl RawTask {
    /// What the task says.
    pub(crate) open spec fn record(self) -> TaskView {
        TaskView {
            task_id: self.task_id@,
            module_id: self.module_id@,
            status: self.status,
            submitted_at: value::value_json(self.submitted_at),
            started_at: value::opt_value_json(self.started_at),
            completed_at: value::opt_value_json(self.completed_at),
            result: value::opt_value_json(self.result),
            error: text::opt_view(self.error),
            retry_count: self.retry_count as int,
            max_retries: self.max_retries as int,
        }
    }
}

/// `apcore::async_task::AsyncTaskManager::new`: the manager has this executor and these limits, and
/// keeps its tasks in memory. It panics where more tasks are to run at once than a semaphore of
/// `tokio` has permits.
#[verifier::external_body]
fn new_manager(
    executor: std::sync::Arc<apcore::executor::Executor>,
    max_concurrent: usize,
    max_tasks: usize,
) -> (manager: std::sync::Arc<apcore::async_task::AsyncTaskManager>)
    requires
        max_concurrent <= usize::MAX / 8,
    ensures
        keeps_in_memory(*manager),
        max_concurrent_of(*manager) == max_concurrent,
        max_tasks_of(*manager) == max_tasks,
        executor_of(*manager) == *executor,
{
    std::sync::Arc::new(
        apcore::async_task::AsyncTaskManager::new(executor, max_concurrent, max_tasks),
    )
}

/// The fields of `apcore::async_task::TaskInfo`, taken apart: together they are what it says. Points
/// in time are JSON numbers.
#[verifier::external_body]
fn take_apart(info: apcore::async_task::TaskInfo) -> (raw: RawTask)
    ensures
        raw.record() == recorded(info),
{
    let status = match info.status {
        apcore::async_task::TaskStatus::Pending => TaskStatus::Pending,
        apcore::async_task::TaskStatus::Running => TaskStatus::Running,
        apcore::async_task::TaskStatus::Completed => TaskStatus::Completed,
        apcore::async_task::TaskStatus::Failed => TaskStatus::Failed,
        apcore::async_task::TaskStatus::Cancelled => TaskStatus::Cancelled,
    };
    RawTask {
        task_id: info.task_id, module_id: info.module_id, status, result: info.result,
        submitted_at: info.submitted_at.into(), started_at: info.started_at.map(|t| t.into()),
        completed_at: info.completed_at.map(|t| t.into()), error: info.error,
        retry_count: info.retry_count, max_retries: info.max_retries,
    }
}

/// `apcore::async_task::AsyncTaskManager::get_status` on a manager that keeps its tasks in memory,
/// which never fails: the task with the id `task_id`, where there is one at the moment. With another
/// store it may panic.
#[verifier::external_body]
fn task_status(manager: &apcore::async_task::AsyncTaskManager, task_id: &str) -> (r: Option<
    apcore::async_task::TaskInfo,
>)
    requires
        keeps_in_memory(*manager),
    ensures
        r matches Some(info) ==> recorded(info).task_id == task_id@,
{
    manager.get_status(task_id).ok().flatten()
}

/// `apcore::async_task::AsyncTaskManager::list_tasks` on a manager that keeps its tasks in memory,
/// which never fails: the tasks that are in this state at the moment, or all. With another store it
/// may panic.
#[verifier::external_body]
fn task_list(
    manager: &apcore::async_task::AsyncTaskManager,
    status: Option<TaskStatus>,
) -> (tasks: Vec<apcore::async_task::TaskInfo>)
    requires
        keeps_in_memory(*manager),
    ensures
        forall|i: int|
            0 <= i < tasks.len() ==> (status matches Some(wanted) ==> recorded(
                #[trigger] tasks@[i],
            ).status == wanted),
{
    let wanted = match status {
        None => None,
        Some(TaskStatus::Pending) => Some(apcore::async_task::TaskStatus::Pending),
        Some(TaskStatus::Running) => Some(apcore::async_task::TaskStatus::Running),
        Some(TaskStatus::Completed) => Some(apcore::async_task::TaskStatus::Completed),
        Some(TaskStatus::Failed) => Some(apcore::async_task::TaskStatus::Failed),
        Some(TaskStatus::Cancelled) => Some(apcore::async_task::TaskStatus::Cancelled),
    };
    manager.list_tasks(wanted).unwrap_or_default()
}

/// `found` is what a request for the task `task_id` can give, as the tasks of `manager` go on.
pub closed spec fn status_given(
    manager: &apcore::async_task::AsyncTaskManager,
    task_id: Seq<char>,
    found: Option<TaskView>,
) -> bool {
    exists|id: &str, info: Option<apcore::async_task::TaskInfo>| #[trigger]
        call_ensures(task_status, (manager, id), info) && id@ == task_id && found == (match info {
            Some(task) => Some(recorded(task)),
            None => None,
        })
}

/// What tasks of apcore say.
pub open spec fn all_recorded(tasks: Seq<apcore::async_task::TaskInfo>) -> Seq<TaskView> {
    tasks.map_values(|task: apcore::async_task::TaskInfo| recorded(task))
}

/// `listed` is what a request for the tasks in this state, or for all, can give, as the tasks of
/// `manager` go on.
pub closed spec fn list_given(
    manager: &apcore::async_task::AsyncTaskManager,
    status: Option<TaskStatus>,
    listed: Seq<TaskView>,
) -> bool {
    exists|tasks: Vec<apcore::async_task::TaskInfo>| #[trigger]
        call_ensures(task_list, (manager, status), tasks) && listed == all_recorded(tasks@)
}

/// The task that apcore's stands for.
fn to_info(info: apcore::async_task::TaskInfo) -> (task: TaskRecord)
    ensures
        task@ == recorded(info),
{
    let raw = take_apart(info);
    TaskRecord {
        task_id: raw.task_id,
        module_id: raw.module_id,
        status: raw.status,
        submitted_at: value::from_value(raw.submitted_at),
        started_at: match raw.started_at {
            Some(t) => Some(value::from_value(t)),
            None => None,
        },
        completed_at: match raw.completed_at {
            Some(t) => Some(value::from_value(t)),
            None => None,
        },
        result: match raw.result {
            Some(result) => Some(value::from_value(result)),
            None => None,
        },
        error: raw.error,
        retry_count: raw.retry_count,
        max_retries: raw.max_retries,
    }
}

/// The tasks of a manager that keeps them in memory.
pub struct Tasks {
    manager: std::sync::Arc<apcore::async_task::AsyncTaskManager>,
}

impl Tasks {
    #[verifier::type_invariant]
    spec fn in_memory(self) -> bool {
        keeps_in_memory(*self.manager)
    }

    /// The tasks that `executor` will run, of which so many run at once and so many are kept.
    pub fn new(
        executor: std::sync::Arc<apcore::executor::Executor>,
        max_concurrent: usize,
        max_tasks: usize,
    ) -> (tasks: Tasks)
        requires
            max_concurrent <= usize::MAX / 8,
        ensures
            keeps_in_memory(tasks.of()),
            max_concurrent_of(tasks.of()) == max_concurrent,
            max_tasks_of(tasks.of()) == max_tasks,
            executor_of(tasks.of()) == *executor,
    {
        Tasks { manager: new_manager(executor, max_concurrent, max_tasks) }
    }

    /// The manager whose tasks these are.
    pub closed spec fn of(self) -> apcore::async_task::AsyncTaskManager {
        *self.manager
    }

    /// The manager whose tasks these are.
    pub fn manager(&self) -> (manager: &std::sync::Arc<apcore::async_task::AsyncTaskManager>)
        ensures
            **manager == self.of(),
    {
        &self.manager
    }

    /// The task with the id `task_id`, where there is one at the moment.
    pub fn status(&self, task_id: &str) -> (r: Option<TaskRecord>)
        ensures
            r matches Some(task) ==> task@.task_id == task_id@,
            status_given(&self.of(), task_id@, async_task_bridge::task_opt_view(r)),
    {
        proof {
            use_type_invariant(self);
        }
        let found = task_status(&self.manager, task_id);
        assert(call_ensures(task_status, (&*self.manager, task_id), found));
        match found {
            Some(info) => Some(to_info(info)),
            None => None,
        }
    }

    /// The tasks that are in this state at the moment, or all.
    pub fn list(&self, status: Option<TaskStatus>) -> (tasks: Vec<TaskRecord>)
        ensures
            forall|i: int|
                0 <= i < tasks.len() ==> (status matches Some(wanted) ==> (
                #[trigger] tasks@[i])@.status == wanted),
            list_given(&self.of(), status, async_task_bridge::task_views(tasks@)),
    {
        proof {
            use_type_invariant(self);
        }
        let found = task_list(&self.manager, status);
        assert(call_ensures(task_list, (&*self.manager, status), found));
        let ghost all = found@;
        let mut tasks: Vec<TaskRecord> = Vec::new();
        for info in it: found
            invariant
                it.seq() == all,
                tasks.len() == it.index(),
                forall|i: int|
                    0 <= i < all.len() ==> (status matches Some(wanted) ==> recorded(
                        #[trigger] all[i],
                    ).status == wanted),
                forall|i: int|
                    0 <= i < tasks.len() ==> (#[trigger] tasks@[i])@ == recorded(all[i]),
        {
            tasks.push(to_info(info));
        }
        assert(async_task_bridge::task_views(tasks@) =~= all_recorded(all));
        tasks
    }
}

/// A task is taken over from apcore with each of its members as apcore has it.
proof fn law_tasks_are_taken_over(raw: RawTask)
    ensures
        ({
            let task = raw.record();
            &&& task.task_id == raw.task_id@
            &&& task.module_id == raw.module_id@
            &&& task.status == raw.status
            &&& task.submitted_at == value::value_json(raw.submitted_at)
            &&& task.started_at == value::opt_value_json(raw.started_at)
            &&& task.completed_at == value::opt_value_json(raw.completed_at)
            &&& task.result == value::opt_value_json(raw.result)
            &&& task.error == text::opt_view(raw.error)
            &&& task.retry_count == raw.retry_count
            &&& task.max_retries == raw.max_retries
        }),
{
}

/// The task that is given for an id is the one that the manager gave for it, and the tasks that are
/// listed are those that the manager gave for the same state.
proof fn law_managers_are_asked_for_the_same(
    tasks: &Tasks,
    task_id: &str,
    found: Option<TaskRecord>,
    status: Option<TaskStatus>,
    list: Vec<TaskRecord>,
)
    requires
        call_ensures(Tasks::status, (tasks, task_id), found),
        call_ensures(Tasks::list, (tasks, status), list),
    ensures
        exists|id: &str, info: Option<apcore::async_task::TaskInfo>| #[trigger]
            call_ensures(task_status, (&tasks.of(), id), info) && id@ == task_id@ && match (
                found,
                info,
            ) {
                (Some(task), Some(i)) => task@ == recorded(i),
                (None, None) => true,
                _ => false,
            },
        exists|infos: Vec<apcore::async_task::TaskInfo>| #[trigger]
            call_ensures(task_list, (&tasks.of(), status), infos) && infos@.len() == list@.len()
                && forall|i: int|
                0 <= i < list@.len() ==> (#[trigger] list@[i])@ == recorded(infos@[i]),
        found matches Some(task) ==> task@.task_id == task_id@,
        status matches Some(wanted) ==> forall|i: int|
            0 <= i < list@.len() ==> (#[trigger] list@[i])@.status == wanted,
{
    let infos = choose|infos: Vec<apcore::async_task::TaskInfo>| #[trigger]
        call_ensures(task_list, (&tasks.of(), status), infos)
            && async_task_bridge::task_views(list@) == all_recorded(infos@);
    assert(all_recorded(infos@).len() == infos@.len());
    assert(async_task_bridge::task_views(list@).len() == list@.len());
    assert forall|i: int| 0 <= i < list@.len() implies (#[trigger] list@[i])@ == recorded(
        infos@[i],
    ) by {
        assert(async_task_bridge::task_views(list@)[i] == list@[i]@);
        assert(all_recorded(infos@)[i] == recorded(infos@[i]));
    }
}

/// The tasks of an executor are run by a manager for that executor with these limits.
pub proof fn law_managers_are_made_with_their_limits(
    executor: std::sync::Arc<apcore::executor::Executor>,
    max_concurrent: usize,
    max_tasks: usize,
    tasks: Tasks,
    manager: &std::sync::Arc<apcore::async_task::AsyncTaskManager>,
)
    requires
        max_concurrent <= usize::MAX / 8,
        call_ensures(Tasks::new, (executor, max_concurrent, max_tasks), tasks),
        call_ensures(Tasks::manager, (&tasks,), manager),
    ensures
        max_concurrent_of(**manager) == max_concurrent,
        max_tasks_of(**manager) == max_tasks,
        executor_of(**manager) == *executor,
        keeps_in_memory(**manager),
{
}

} // verus!
