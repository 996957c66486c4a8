//! Task databases: a name and the tasks in the order they were added.
use vstd::prelude::*;

use crate::task::{Task, TaskView};
use crate::text::str_eq;

verus! {

/// What a task database is, as values.
pub struct DatabaseView {
    pub name: Seq<char>,
    pub tasks: Seq<TaskView>,
}

/// A named list of tasks.
pub struct TasksDatabase {
    pub name: String,
    pub tasks: Vec<Task>,
}

/// The views of a sequence of tasks.
pub open spec fn task_views(tasks: Seq<Task>) -> Seq<TaskView> {
    tasks.map_values(|t: Task| t@)
}

impl View for TasksDatabase {
    type V = DatabaseView;

    open spec fn view(&self) -> DatabaseView {
        DatabaseView { name: self.name@, tasks: task_views(self.tasks@) }
    }
}

/// Whether a task does not carry `hash` (tasks without a hash carry `None`).
pub open spec fn keeps(hash: Option<Seq<char>>) -> spec_fn(TaskView) -> bool {
    |t: TaskView| t.hash != hash
}

/// The tasks that remain when those carrying `hash` are deleted, in order.
pub open spec fn without_hash(tasks: Seq<TaskView>, hash: Option<Seq<char>>) -> Seq<TaskView> {
    tasks.filter(keeps(hash))
}

/// Whether two optional strings are equal.
pub fn same_hash(a: &Option<String>, b: &Option<String>) -> (r: bool)
    ensures
        r == (a.deep_view() == b.deep_view()),
{
    match (a, b) {
        (Some(x), Some(y)) => str_eq(x.as_str(), y.as_str()),
        (None, None) => true,
        (Some(_), None) => false,
        (None, Some(_)) => false,
    }
}

impl TasksDatabase {
    /// A database with no tasks.
    pub fn new(name: String) -> (db: TasksDatabase)
        ensures
            db@.name == name@,
            db@.tasks == Seq::<TaskView>::empty(),
    {
        let db = TasksDatabase { name, tasks: Vec::new() };
        assert(db@.tasks =~= Seq::<TaskView>::empty());
        db
    }

    /// Adds `task` after the tasks already there.
    pub fn add_task(&mut self, task: Task)
        ensures
            final(self)@.name == old(self)@.name,
            final(self)@.tasks == old(self)@.tasks.push(task@),
    {
        let ghost t = task@;
        self.tasks.push(task);
        assert(final(self)@.tasks =~= old(self)@.tasks.push(t));
    }

    /// Deletes every task that carries `hash`; the others stay, in order.
    pub fn remove_tasks_with_hash(&mut self, hash: &Option<String>)
        ensures
            final(self)@.name == old(self)@.name,
            final(self)@.tasks == without_hash(old(self)@.tasks, hash.deep_view()),
    {
        let ghost h = hash.deep_view();
        let mut rest: Vec<Task> = Vec::new();
        std::mem::swap(&mut rest, &mut self.tasks);
        let ghost all = task_views(rest@);
        let n = rest.len();
        let mut i: usize = 0;
        while i < n
            invariant
                n == all.len(),
                h == hash.deep_view(),
                i <= n,
                rest@.len() == n - i,
                task_views(rest@) =~= all.skip(i as int),
                task_views(self.tasks@) =~= all.take(i as int).filter(keeps(h)),
                self.name@ == old(self)@.name,
            decreases n - i,
        {
            let ghost before_rest = rest@;
            let ghost before_kept = self.tasks@;
            proof {
                assert(task_views(rest@)[0] == all[i as int]);
            }
            let t = rest.remove(0);
            proof {
                assert(t@ == all[i as int]);
                assert(task_views(rest@) =~= all.skip(i + 1)) by {
                    assert forall|k: int| 0 <= k < rest@.len() implies #[trigger] rest@[k] == before_rest[k + 1] by {}
                    assert forall|k: int| 0 <= k < rest@.len() implies #[trigger] task_views(rest@)[k] == all.skip(i as int)[k + 1] by {
                        assert(task_views(before_rest)[k + 1] == before_rest[k + 1]@);
                    }
                }
                assert(all.take(i + 1).drop_last() =~= all.take(i as int));
                assert(all.take(i + 1).last() == all[i as int]);
                reveal_with_fuel(Seq::<_>::filter, 1);
                assert(all.take(i + 1).filter(keeps(h)) == if keeps(h)(all[i as int]) {
                    all.take(i as int).filter(keeps(h)).push(all[i as int])
                } else {
                    all.take(i as int).filter(keeps(h))
                });
            }
            let ghost tv = t@;
            if !same_hash(&t.hash, hash) {
                self.tasks.push(t);
                proof {
                    assert(task_views(self.tasks@) =~= task_views(before_kept).push(tv));
                }
            }
            i = i + 1;
        }
        assert(all.take(n as int) =~= all);
    }
}

} // verus!

verus! {

/// After the tasks carrying a hash are deleted, no task carries it.
pub proof fn removal_clears_hash(tasks: Seq<TaskView>, hash: Option<Seq<char>>)
    ensures
        forall|i: int| 0 <= i < without_hash(tasks, hash).len() ==> #[trigger] without_hash(tasks, hash)[i].hash != hash,
{
    assert forall|i: int| 0 <= i < without_hash(tasks, hash).len() implies #[trigger] without_hash(tasks, hash)[i].hash != hash by {
        tasks.lemma_filter_pred(keeps(hash), i);
    }
}

/// Deleting the tasks that carry a hash keeps every task that does not.
pub proof fn removal_keeps_others(tasks: Seq<TaskView>, hash: Option<Seq<char>>, i: int)
    requires
        0 <= i < tasks.len(),
        tasks[i].hash != hash,
    ensures
        without_hash(tasks, hash).contains(tasks[i]),
{
    tasks.lemma_filter_contains(keeps(hash), i);
}

/// Deleting the tasks that carry a hash a second time changes nothing.
pub proof fn removal_is_idempotent(tasks: Seq<TaskView>, hash: Option<Seq<char>>)
    ensures
        without_hash(without_hash(tasks, hash), hash) == without_hash(tasks, hash),
    decreases tasks.len(),
{
    reveal_with_fuel(Seq::<_>::filter, 1);
    if tasks.len() > 0 {
        removal_is_idempotent(tasks.drop_last(), hash);
        let rest = without_hash(tasks.drop_last(), hash);
        if keeps(hash)(tasks.last()) {
            assert(without_hash(tasks, hash) == rest.push(tasks.last()));
            assert(rest.push(tasks.last()).drop_last() =~= rest);
        }
    }
}

/// Adding a task whose hash no other task carries, then deleting the tasks
/// carrying that hash, gives back the tasks there were before.
pub proof fn add_then_remove(tasks: Seq<TaskView>, t: TaskView)
    requires
        forall|i: int| 0 <= i < tasks.len() ==> #[trigger] tasks[i].hash != t.hash,
    ensures
        without_hash(tasks.push(t), t.hash) == tasks,
{
    reveal_with_fuel(Seq::<_>::filter, 1);
    assert(tasks.push(t).drop_last() =~= tasks);
    assert forall|i: int| 0 <= i < tasks.len() implies #[trigger] keeps(t.hash)(tasks[i]) by {}
    tasks_without_hash_unchanged(tasks, t.hash);
}

/// When no task carries `hash`, deleting the tasks that carry it changes
/// nothing.
pub proof fn tasks_without_hash_unchanged(tasks: Seq<TaskView>, hash: Option<Seq<char>>)
    requires
        forall|i: int| 0 <= i < tasks.len() ==> #[trigger] tasks[i].hash != hash,
    ensures
        without_hash(tasks, hash) == tasks,
    decreases tasks.len(),
{
    reveal_with_fuel(Seq::<_>::filter, 1);
    if tasks.len() > 0 {
        let init = tasks.drop_last();
        assert forall|i: int| 0 <= i < init.len() implies #[trigger] init[i].hash != hash by {
            assert(init[i] == tasks[i]);
        }
        tasks_without_hash_unchanged(init, hash);
        assert(tasks.last().hash != hash);
        assert(init.push(tasks.last()) =~= tasks);
    }
}

} // verus!
