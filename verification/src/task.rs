//! Tasks, and how urgent each one is at a given moment.

use vstd::prelude::*;
use crate::moment::{Moment, NANOS_PER_DAY};

verus! {

/// How long before its deadline a task counts as due soon: three days.
pub const DUE_SOON_WINDOW: i128 = 259_200_000_000_000;

/// One entry of the table.
#[derive(Clone, Debug, PartialEq, Eq)]
pub struct Task {
    /// The number that the table gave the task when it was added.
    pub id: i32,
    /// What is to be done.
    pub description: String,
    /// The deadline, if the task has one.
    pub due_date: Option<Moment>,
    /// Whether the task is done.
    pub completed: bool,
}

/// A task as a mathematical value.
pub struct TaskView {
    pub id: int,
    pub description: Seq<char>,
    pub due_date: Option<int>,
    pub completed: bool,
}

/// A deadline as a count of nanoseconds, if there is one.
pub open spec fn due_view(due_date: Option<Moment>) -> Option<int> {
    match due_date {
        Some(moment) => Some(moment@),
        None => None,
    }
}

impl View for Task {
    type V = TaskView;

    open spec fn view(&self) -> TaskView {
        TaskView {
            id: self.id as int,
            description: self.description@,
            due_date: due_view(self.due_date),
            completed: self.completed,
        }
    }
}

/// The tasks of `tasks` as mathematical values, in the same order.
pub open spec fn views(tasks: Seq<Task>) -> Seq<TaskView> {
    tasks.map_values(|task: Task| task@)
}

/// How a task is shown in a listing.
#[derive(Clone, Copy, Debug, PartialEq, Eq, Structural)]
pub enum Category {
    /// The deadline has been reached or has passed.
    Overdue,
    /// The deadline is less than three days away.
    DueSoon,
    /// There is no deadline, or it is three days away or more.
    Normal,
    /// The task is done and is not shown.
    Hidden,
}

/// The category of `task` at the moment `now`. A completed task is hidden,
/// whatever its deadline. A task without a deadline is normal. Otherwise the
/// deadline decides: reached or passed, less than three days ahead, or later.
pub open spec fn category_of(task: TaskView, now: int) -> Category {
    if task.completed {
        Category::Hidden
    } else {
        match task.due_date {
            None => Category::Normal,
            Some(due) => if now >= due {
                Category::Overdue
            } else if due < now + DUE_SOON_WINDOW {
                Category::DueSoon
            } else {
                Category::Normal
            },
        }
    }
}

/// Finds the category of `task` at the moment `now`.
pub fn classify(task: &Task, now: Moment) -> (category: Category)
    ensures
        category == category_of(task@, now@),
{
    if task.completed {
        return Category::Hidden;
    }
    match task.due_date {
        None => Category::Normal,
        Some(due) => {
            let now_nanos = now.unix_nanos();
            let due_nanos = due.unix_nanos();
            if now_nanos >= due_nanos {
                Category::Overdue
            } else if due_nanos < now_nanos + DUE_SOON_WINDOW {
                Category::DueSoon
            } else {
                Category::Normal
            }
        },
    }
}

/// An open task whose deadline lies `ahead` nanoseconds after `now` (before
/// it, where `ahead` is negative) is overdue exactly when `ahead` is zero or
/// less, due soon exactly when `ahead` is more than zero and less than three
/// days, and normal exactly when `ahead` is three days or more. An open task
/// without a deadline is normal.
pub proof fn lemma_category_by_time_left(task: TaskView, now: int, ahead: int)
    requires
        !task.completed,
    ensures
        task.due_date == Some(now + ahead) ==> {
            &&& category_of(task, now) == Category::Overdue <==> ahead <= 0
            &&& category_of(task, now) == Category::DueSoon <==> 0 < ahead < 3 * NANOS_PER_DAY
            &&& category_of(task, now) == Category::Normal <==> ahead >= 3 * NANOS_PER_DAY
        },
        task.due_date is None ==> category_of(task, now) == Category::Normal,
        category_of(task, now) == Category::Normal <==> (task.due_date matches Some(due) ==> due
            - now >= 3 * NANOS_PER_DAY),
{
}

/// In whole days: an open task whose deadline lies `days` days after `now`
/// is overdue exactly when `days` is zero or less, due soon exactly when
/// `days` is one or two, and normal exactly when `days` is three or more.
pub proof fn lemma_category_by_days(task: TaskView, now: int, days: int)
    requires
        !task.completed,
        task.due_date == Some(now + days * NANOS_PER_DAY),
    ensures
        category_of(task, now) == Category::Overdue <==> days <= 0,
        category_of(task, now) == Category::DueSoon <==> 0 < days < 3,
        category_of(task, now) == Category::Normal <==> days >= 3,
{
    lemma_category_by_time_left(task, now, days * NANOS_PER_DAY);
}

} // verus!
