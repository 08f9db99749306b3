//! The table of tasks and the four things that can be done with it.

use vstd::prelude::*;
use crate::error::TrackerError;
use crate::moment::Moment;
use crate::task::{due_view, views, Task, TaskView};

verus! {

/// The table as a mathematical value: its tasks in the order in which they
/// were added, and the highest id that was ever given out.
pub struct TableView {
    pub tasks: Seq<TaskView>,
    pub last_id: int,
}

/// What holds of every table. Ids are positive, were given out in rising
/// order and never twice; none is above the highest id given out so far.
/// Every description holds at least one character, and no two tasks share
/// one.
pub open spec fn well_formed(table: TableView) -> bool {
    &&& 0 <= table.last_id <= i32::MAX
    &&& forall|i: int|
        0 <= i < table.tasks.len() ==> 1 <= (#[trigger] table.tasks[i]).id <= table.last_id
    &&& forall|i: int|
        0 <= i < table.tasks.len() ==> (#[trigger] table.tasks[i]).description.len() > 0
    &&& forall|i: int, j: int|
        0 <= i < j < table.tasks.len() ==> (#[trigger] table.tasks[i]).id < (
        #[trigger] table.tasks[j]).id
    &&& forall|i: int, j: int|
        0 <= i < j < table.tasks.len() ==> (#[trigger] table.tasks[i]).description != (
        #[trigger] table.tasks[j]).description
}

/// Whether some task of the table has this description.
pub open spec fn has_description(table: TableView, description: Seq<char>) -> bool {
    exists|i: int| 0 <= i < table.tasks.len() && (#[trigger] table.tasks[i]).description == description
}

/// What adding a task with `description` comes to: the id of the new task,
/// or the reason why none is added. An empty description is no valid input;
/// one that some task already has is a duplicate; and once the highest id
/// has been given out the table takes no more.
pub open spec fn add_outcome(table: TableView, description: Seq<char>) -> Result<int, TrackerError> {
    if description.len() == 0 {
        Err(TrackerError::InvalidInput)
    } else if has_description(table, description) {
        Err(TrackerError::DuplicateDescription)
    } else if table.last_id >= i32::MAX {
        Err(TrackerError::PersistenceError)
    } else {
        Ok(table.last_id + 1)
    }
}

/// The table after a task with `description` and `due_date` was asked to be
/// added: with the new, open task at its end on success, unchanged on
/// failure.
pub open spec fn after_add(table: TableView, description: Seq<char>, due_date: Option<int>) -> TableView {
    match add_outcome(table, description) {
        Ok(id) => TableView {
            tasks: table.tasks.push(TaskView { id, description, due_date, completed: false }),
            last_id: id,
        },
        Err(_) => table,
    }
}

/// `task`, completed if its id is `id`.
pub open spec fn completed_if(task: TaskView, id: int) -> TaskView {
    if task.id == id {
        TaskView { completed: true, ..task }
    } else {
        task
    }
}

/// The table after the task with `id` was completed. Nothing changes if no
/// task has that id.
pub open spec fn after_complete(table: TableView, id: int) -> TableView {
    TableView {
        tasks: table.tasks.map_values(|task: TaskView| completed_if(task, id)),
        last_id: table.last_id,
    }
}

/// The table after the task with `id` was removed. Nothing changes if no
/// task has that id.
pub open spec fn after_remove(table: TableView, id: int) -> TableView {
    TableView { tasks: table.tasks.filter(|task: TaskView| task.id != id), last_id: table.last_id }
}

/// The table of tasks.
#[derive(Debug)]
pub struct Store {
    tasks: Vec<Task>,
    last_id: i32,
}

impl View for Store {
    type V = TableView;

    closed spec fn view(&self) -> TableView {
        TableView { tasks: views(self.tasks@), last_id: self.last_id as int }
    }
}

proof fn lemma_filter_keeps_all<A>(s: Seq<A>, keep: spec_fn(A) -> bool)
    requires
        forall|i: int| 0 <= i < s.len() ==> keep(#[trigger] s[i]),
    ensures
        s.filter(keep) == s,
    decreases s.len(),
{
    reveal(Seq::filter);
    if s.len() > 0 {
        lemma_filter_keeps_all(s.drop_last(), keep);
    }
}

proof fn lemma_filter_drops_one<A>(s: Seq<A>, keep: spec_fn(A) -> bool, k: int)
    requires
        0 <= k < s.len(),
        !keep(s[k]),
        forall|i: int| 0 <= i < s.len() && i != k ==> keep(#[trigger] s[i]),
    ensures
        s.filter(keep) == s.remove(k),
    decreases s.len(),
{
    reveal(Seq::filter);
    if k == s.len() - 1 {
        lemma_filter_keeps_all(s.drop_last(), keep);
    } else {
        lemma_filter_drops_one(s.drop_last(), keep, k);
    }
}

impl Store {
    /// Every table is well formed, always.
    #[verifier::type_invariant]
    pub open spec fn in_order(self) -> bool {
        well_formed(self@)
    }

    /// An empty table that has given out no id yet.
    pub fn new() -> (store: Store)
        ensures
            well_formed(store@),
            store@.tasks == Seq::<TaskView>::empty(),
            store@.last_id == 0,
    {
        Store { tasks: Vec::new(), last_id: 0 }
    }

    /// The table that holds `tasks`, in this order, and has given out ids up
    /// to `last_id`; or nothing, if that would be no well-formed table.
    pub fn from_rows(tasks: Vec<Task>, last_id: i32) -> (store: Option<Store>)
        ensures
            store is Some <==> well_formed(
                TableView { tasks: views(tasks@), last_id: last_id as int },
            ),
            store matches Some(s) ==> s@ == (TableView {
                tasks: views(tasks@),
                last_id: last_id as int,
            }),
    {
        let ghost all = views(tasks@);
        if last_id < 0 {
            return None;
        }
        let mut j: usize = 0;
        while j < tasks.len()
            invariant
                j <= tasks.len(),
                0 <= last_id,
                all == views(tasks@),
                well_formed(TableView { tasks: all.take(j as int), last_id: last_id as int }),
            decreases tasks.len() - j,
        {
            let task = &tasks[j];
            let ghost head = TableView { tasks: all.take(j as int), last_id: last_id as int };
            let ghost next = TableView { tasks: all.take(j as int + 1), last_id: last_id as int };
            if task.id < 1 || task.id > last_id || task.description.as_str().is_empty() {
                return None;
            }
            if j > 0 && tasks[j - 1].id >= task.id {
                return None;
            }
            let mut i: usize = 0;
            while i < j
                invariant
                    i <= j < tasks.len(),
                    all == views(tasks@),
                    task == &tasks[j as int],
                    forall|k: int| 0 <= k < i ==> (#[trigger] all[k]).description != all[j as int].description,
                decreases j - i,
            {
                if tasks[i].description == task.description {
                    assert(all[i as int].description == all[j as int].description);
                    return None;
                }
                i += 1;
            }
            assert(well_formed(next)) by {
                assert forall|a: int, b: int| 0 <= a < b < next.tasks.len() implies (
                #[trigger] next.tasks[a]).id < (#[trigger] next.tasks[b]).id by {
                    if b == j {
                        if a < j - 1 {
                            assert(head.tasks[a].id < head.tasks[j as int - 1].id);
                        }
                    }
                }
            }
            j += 1;
        }
        assert(all.take(tasks.len() as int) =~= all);
        Some(Store { tasks, last_id })
    }

    /// All tasks, in the order in which they were added.
    pub fn list_all(&self) -> (tasks: &[Task])
        ensures
            views(tasks@) == self@.tasks,
            well_formed(self@),
    {
        proof {
            use_type_invariant(self);
        }
        self.tasks.as_slice()
    }

    /// The highest id that the table has given out so far, 0 if none.
    pub fn last_id(&self) -> (id: i32)
        ensures
            id == self@.last_id,
            well_formed(self@),
    {
        proof {
            use_type_invariant(self);
        }
        self.last_id
    }

    fn holds_description(&self, description: &String) -> (found: bool)
        ensures
            found == has_description(self@, description@),
    {
        let mut i: usize = 0;
        while i < self.tasks.len()
            invariant
                i <= self.tasks.len(),
                forall|k: int| 0 <= k < i ==> (#[trigger] self@.tasks[k]).description != description@,
            decreases self.tasks.len() - i,
        {
            if self.tasks[i].description == *description {
                assert(self@.tasks[i as int].description == description@);
                return true;
            }
            i += 1;
        }
        false
    }

    /// Adds an open task with `description` and `due_date` at the end of the
    /// table and returns its id, one above the highest given out before.
    /// The table stays as it was if the description is empty, if a task
    /// with the same description is in it, or if no id is left.
    pub fn add(&mut self, description: &str, due_date: Option<Moment>) -> (added: Result<
        i32,
        TrackerError,
    >)
        ensures
            well_formed(old(self)@),
            well_formed(final(self)@),
            final(self)@ == after_add(old(self)@, description@, due_view(due_date)),
            match added {
                Ok(id) => add_outcome(old(self)@, description@) == Ok::<int, TrackerError>(id as int),
                Err(e) => add_outcome(old(self)@, description@) == Err::<int, TrackerError>(e),
            },
            has_description(old(self)@, description@) ==> added == Err::<i32, TrackerError>(
                TrackerError::DuplicateDescription,
            ) && final(self)@ == old(self)@,
    {
        proof {
            use_type_invariant(&*self);
        }
        if description.is_empty() {
            return Err(TrackerError::InvalidInput);
        }
        let owned = String::from_str(description);
        if self.holds_description(&owned) {
            return Err(TrackerError::DuplicateDescription);
        }
        if self.last_id == i32::MAX {
            return Err(TrackerError::PersistenceError);
        }
        let id: i32 = self.last_id + 1;
        let ghost before = self@;
        let ghost after = after_add(before, description@, due_view(due_date));
        let task = Task { id, description: owned, due_date, completed: false };
        let mut tasks: Vec<Task> = Vec::new();
        std::mem::swap(&mut tasks, &mut self.tasks);
        tasks.push(task);
        proof {
            assert(views(tasks@) =~= after.tasks);
        }
        self.last_id = id;
        self.tasks = tasks;
        Ok(id)
    }

    /// Marks the task with `id` as completed. Does nothing if no task has
    /// that id.
    pub fn complete(&mut self, id: i32)
        ensures
            well_formed(old(self)@),
            well_formed(final(self)@),
            final(self)@ == after_complete(old(self)@, id as int),
    {
        proof {
            use_type_invariant(&*self);
        }
        let ghost before = self@;
        let ghost after = after_complete(before, id as int);
        let mut tasks: Vec<Task> = Vec::new();
        std::mem::swap(&mut tasks, &mut self.tasks);
        let mut i: usize = 0;
        while i < tasks.len()
            invariant
                i <= tasks.len(),
                tasks.len() == before.tasks.len(),
                forall|k: int|
                    0 <= k < i ==> (#[trigger] tasks@[k])@ == completed_if(before.tasks[k], id as int),
                forall|k: int| i <= k < tasks.len() ==> (#[trigger] tasks@[k])@ == before.tasks[k],
            decreases tasks.len() - i,
        {
            if tasks[i].id == id {
                tasks[i].completed = true;
            }
            i += 1;
        }
        proof {
            assert(views(tasks@) =~= after.tasks);
        }
        self.tasks = tasks;
    }

    /// Takes the task with `id` out of the table. Does nothing if no task
    /// has that id.
    pub fn remove(&mut self, id: i32)
        ensures
            well_formed(old(self)@),
            well_formed(final(self)@),
            final(self)@ == after_remove(old(self)@, id as int),
    {
        proof {
            use_type_invariant(&*self);
        }
        let ghost before = self@;
        let ghost after = after_remove(before, id as int);
        let ghost keep = |task: TaskView| task.id != id as int;
        let mut tasks: Vec<Task> = Vec::new();
        std::mem::swap(&mut tasks, &mut self.tasks);
        let mut i: usize = 0;
        while i < tasks.len() && tasks[i].id != id
            invariant
                i <= tasks.len(),
                views(tasks@) == before.tasks,
                forall|k: int| 0 <= k < i ==> (#[trigger] before.tasks[k]).id != id,
            decreases tasks.len() - i,
        {
            i += 1;
        }
        if i < tasks.len() {
            tasks.remove(i);
            proof {
                lemma_filter_drops_one(before.tasks, keep, i as int);
                assert(views(tasks@) =~= after.tasks);
            }
        } else {
            proof {
                lemma_filter_keeps_all(before.tasks, keep);
            }
        }
        self.tasks = tasks;
    }
}

} // verus!
