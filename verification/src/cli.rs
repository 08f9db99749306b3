//! The commands, and what each of them does to the table.

use vstd::prelude::*;
use crate::error::TrackerError;
use crate::listing::{list_items, listing_of, Listing, ListingView};
use crate::moment::Moment;
use crate::schedule::{due_date, due_nanos, names_deadline, Schedule};
use crate::store::{
    add_outcome, after_add, after_complete, after_remove, well_formed, Store, TableView,
};
use crate::task::{Task, TaskView};

verus! {

/// A command that changes the table.
#[derive(Clone, Debug, PartialEq, Eq)]
pub enum Commands {
    /// Add a task with this description.
    Add { item: String },
    /// Mark the task with this id as completed.
    Complete { id: i32 },
    /// Take the task with this id out of the table.
    Remove { id: i32 },
}

/// The command line: one command, or none, which asks for the listing.
#[derive(Clone, Debug, PartialEq, Eq)]
pub struct Cli {
    pub command: Option<Commands>,
}

/// What the front end has to do once a command has been carried out on the
/// table: show the listing, or write the change through to the stored table.
#[derive(Clone, Debug, PartialEq, Eq)]
pub enum Effect {
    /// Show this listing.
    Show(Listing),
    /// Store this new task.
    Insert(Task),
    /// Store that the task with this id is completed.
    Complete(i32),
    /// Delete the task with this id.
    Remove(i32),
}

/// An effect as a mathematical value.
pub enum EffectView {
    Show(ListingView),
    Insert(TaskView),
    Complete(int),
    Remove(int),
}

impl View for Effect {
    type V = EffectView;

    open spec fn view(&self) -> EffectView {
        match *self {
            Effect::Show(listing) => EffectView::Show(listing@),
            Effect::Insert(task) => EffectView::Insert(task@),
            Effect::Complete(id) => EffectView::Complete(id as int),
            Effect::Remove(id) => EffectView::Remove(id as int),
        }
    }
}

/// The deadline of a new task: none where no schedule was given; otherwise
/// the moment that the schedule names, or a failure where it names none.
pub open spec fn deadline_of(schedule: Option<Schedule>, now: int) -> Result<
    Option<int>,
    TrackerError,
> {
    match schedule {
        None => Ok(None),
        Some(s) => if names_deadline(now, s) {
            Ok(Some(due_nanos(now, s)))
        } else {
            Err(TrackerError::InvalidInput)
        },
    }
}

/// What adding `item` with `schedule` at `now` comes to: the new task, or
/// the reason why none is added. The schedule is looked at first.
pub open spec fn add_item_outcome(
    table: TableView,
    item: Seq<char>,
    schedule: Option<Schedule>,
    now: int,
) -> Result<TaskView, TrackerError> {
    match deadline_of(schedule, now) {
        Err(e) => Err(e),
        Ok(due_date) => match add_outcome(table, item) {
            Err(e) => Err(e),
            Ok(id) => Ok(TaskView { id, description: item, due_date, completed: false }),
        },
    }
}

/// The table after `item` was asked to be added with `schedule` at `now`.
pub open spec fn after_add_item(
    table: TableView,
    item: Seq<char>,
    schedule: Option<Schedule>,
    now: int,
) -> TableView {
    match deadline_of(schedule, now) {
        Err(_) => table,
        Ok(due_date) => after_add(table, item, due_date),
    }
}

/// Whether `got` is the outcome `expected`, value for value.
pub open spec fn task_outcome_is(
    got: Result<Task, TrackerError>,
    expected: Result<TaskView, TrackerError>,
) -> bool {
    match got {
        Ok(task) => expected == Ok::<TaskView, TrackerError>(task@),
        Err(e) => expected == Err::<TaskView, TrackerError>(e),
    }
}

/// Adds a task with the description `item` to the table. With a schedule,
/// its deadline is the moment that the schedule names, seen from `now`;
/// without one it has no deadline. Returns the task as it stands in the
/// table.
pub fn add_item(item: &str, schedule: Option<Schedule>, now: Moment, store: &mut Store) -> (added:
    Result<Task, TrackerError>)
    ensures
        well_formed(old(store)@),
        well_formed(final(store)@),
        final(store)@ == after_add_item(old(store)@, item@, schedule, now@),
        task_outcome_is(added, add_item_outcome(old(store)@, item@, schedule, now@)),
{
    proof {
        use_type_invariant(&*store);
    }
    let due: Option<Moment> = match schedule {
        None => None,
        Some(s) => match due_date(now, s) {
            Ok(moment) => Some(moment),
            Err(e) => {
                return Err(e);
            },
        },
    };
    match store.add(item, due) {
        Ok(id) => Ok(
            Task { id, description: String::from_str(item), due_date: due, completed: false },
        ),
        Err(e) => Err(e),
    }
}

/// What `command` comes to on `table`: the effect, or the failure. Only
/// adding can fail.
pub open spec fn outcome_of(
    command: Option<Commands>,
    schedule: Option<Schedule>,
    now: int,
    table: TableView,
) -> Result<EffectView, TrackerError> {
    match command {
        None => Ok(EffectView::Show(listing_of(table.tasks, now))),
        Some(Commands::Add { item }) => match add_item_outcome(table, item@, schedule, now) {
            Ok(task) => Ok(EffectView::Insert(task)),
            Err(e) => Err(e),
        },
        Some(Commands::Complete { id }) => Ok(EffectView::Complete(id as int)),
        Some(Commands::Remove { id }) => Ok(EffectView::Remove(id as int)),
    }
}

/// The table after `command` was carried out on `table`. Listing changes
/// nothing.
pub open spec fn table_after(
    command: Option<Commands>,
    schedule: Option<Schedule>,
    now: int,
    table: TableView,
) -> TableView {
    match command {
        None => table,
        Some(Commands::Add { item }) => after_add_item(table, item@, schedule, now),
        Some(Commands::Complete { id }) => after_complete(table, id as int),
        Some(Commands::Remove { id }) => after_remove(table, id as int),
    }
}

/// Whether `got` is the outcome `expected`, value for value.
pub open spec fn outcome_is(
    got: Result<Effect, TrackerError>,
    expected: Result<EffectView, TrackerError>,
) -> bool {
    match got {
        Ok(effect) => expected == Ok::<EffectView, TrackerError>(effect@),
        Err(e) => expected == Err::<EffectView, TrackerError>(e),
    }
}

/// Carries out the command of `cli` on the table, at the moment `now`.
/// `schedule` holds the answers of the dialogue and counts only for adding.
pub fn execute(cli: &Cli, schedule: Option<Schedule>, now: Moment, store: &mut Store) -> (done:
    Result<Effect, TrackerError>)
    ensures
        well_formed(old(store)@),
        well_formed(final(store)@),
        final(store)@ == table_after(cli.command, schedule, now@, old(store)@),
        outcome_is(done, outcome_of(cli.command, schedule, now@, old(store)@)),
{
    match &cli.command {
        None => Ok(Effect::Show(list_items(store.list_all(), now))),
        Some(Commands::Add { item }) => match add_item(item.as_str(), schedule, now, store) {
            Ok(task) => Ok(Effect::Insert(task)),
            Err(e) => Err(e),
        },
        Some(Commands::Complete { id }) => {
            store.complete(*id);
            Ok(Effect::Complete(*id))
        },
        Some(Commands::Remove { id }) => {
            store.remove(*id);
            Ok(Effect::Remove(*id))
        },
    }
}

} // verus!
