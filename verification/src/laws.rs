//! What holds between the operations of the library: between the table and
//! the listing, and between writing a number and reading it.

use vstd::prelude::*;
use crate::input::{all_digits, digits_number, parsed_i32};
use crate::listing::{
    ids_in, lemma_named_ids_are_rows, lemma_rows_are_the_open_tasks, listing_of, rows_of, RowView,
};
use crate::store::{add_outcome, after_add, after_complete, after_remove, well_formed, TableView};
use crate::task::{Category, TaskView};
use crate::text::{integer_text, natural_text};

verus! {

/// After a task was removed, no listing shows its id: not in a row, and not
/// among the overdue or the due-soon ids.
pub proof fn lemma_removed_task_is_not_listed(table: TableView, id: int, now: int)
    ensures
        forall|k: int|
            0 <= k < listing_of(after_remove(table, id).tasks, now).rows.len() ==> (
            #[trigger] listing_of(after_remove(table, id).tasks, now).rows[k]).id != id,
        !listing_of(after_remove(table, id).tasks, now).overdue.contains(id),
        !listing_of(after_remove(table, id).tasks, now).due_soon.contains(id),
{
    let left = after_remove(table, id).tasks;
    let rows = rows_of(left, now);
    lemma_rows_are_the_open_tasks(left, now);
    lemma_ids_come_from_rows(rows, id);
}

/// After a task was completed, no listing shows its id: not in a row, and
/// not among the overdue or the due-soon ids.
pub proof fn lemma_completed_task_is_not_listed(table: TableView, id: int, now: int)
    ensures
        forall|k: int|
            0 <= k < listing_of(after_complete(table, id).tasks, now).rows.len() ==> (
            #[trigger] listing_of(after_complete(table, id).tasks, now).rows[k]).id != id,
        !listing_of(after_complete(table, id).tasks, now).overdue.contains(id),
        !listing_of(after_complete(table, id).tasks, now).due_soon.contains(id),
{
    let left = after_complete(table, id).tasks;
    let rows = rows_of(left, now);
    lemma_rows_are_the_open_tasks(left, now);
    lemma_ids_come_from_rows(rows, id);
}

proof fn lemma_ids_come_from_rows(rows: Seq<RowView>, id: int)
    requires
        forall|k: int| 0 <= k < rows.len() ==> (#[trigger] rows[k]).id != id,
    ensures
        !ids_in(rows, Category::Overdue).contains(id),
        !ids_in(rows, Category::DueSoon).contains(id),
{
    lemma_named_ids_are_rows(rows, Category::Overdue);
    lemma_named_ids_are_rows(rows, Category::DueSoon);
}

/// Where a task is added to a well-formed table, the table afterwards holds
/// exactly one task with its description: the last one. It has the new id,
/// the deadline that was given, and is not completed. The tasks before it
/// are those that were there, unchanged.
pub proof fn lemma_added_task_is_there_once(
    table: TableView,
    description: Seq<char>,
    due_date: Option<int>,
)
    requires
        well_formed(table),
        add_outcome(table, description) is Ok,
    ensures
        after_add(table, description, due_date).tasks.len() == table.tasks.len() + 1,
        after_add(table, description, due_date).tasks.drop_last() == table.tasks,
        after_add(table, description, due_date).tasks.last() == (TaskView {
            id: table.last_id + 1,
            description,
            due_date,
            completed: false,
        }),
        forall|k: int|
            0 <= k < after_add(table, description, due_date).tasks.len() ==> ((#[trigger] after_add(
                table,
                description,
                due_date,
            ).tasks[k]).description == description <==> k == table.tasks.len()),
{
}

proof fn lemma_digits_of_natural(n: nat)
    ensures
        natural_text(n).len() > 0,
        all_digits(natural_text(n)),
        digits_number(natural_text(n)) == n,
        natural_text(n)[0] != '-',
        natural_text(n)[0] != '+',
    decreases n,
{
    let text = natural_text(n);
    if n < 10 {
        reveal_with_fuel(digits_number, 2);
    } else {
        lemma_digits_of_natural(n / 10);
        let head = natural_text(n / 10);
        assert(text.drop_last() =~= head);
    }
}

/// A number that is written out and read back is the same number: the
/// decimal text of any 32-bit integer parses to that integer.
pub proof fn lemma_written_number_reads_back(n: i32)
    ensures
        parsed_i32(integer_text(n as int)) == Some(n),
{
    let magnitude: nat = if n < 0 {
        (-n) as nat
    } else {
        n as nat
    };
    let digits = natural_text(magnitude);
    let text = integer_text(n as int);
    lemma_digits_of_natural(magnitude);
    if n < 0 {
        assert(text.skip(1) =~= digits);
    } else {
        assert(text.skip(0) =~= digits);
    }
}

} // verus!
