//! The listing of the open tasks: its rows, the tasks that need attention,
//! and the lines in which all of that is shown.

use vstd::prelude::*;
use crate::moment::{date_time_text, Moment};
use crate::task::{classify, category_of, views, Category, Task, TaskView};
use crate::text::{as_ints, i32_to_string, integer_text, joined, pad_right, padded, slice_to_string};

verus! {

/// How a piece of text is set off on the screen.
#[derive(Clone, Copy, Debug, PartialEq, Eq, Structural)]
pub enum Style {
    Plain,
    Yellow,
    Red,
}

/// The style in which a task of `category` is shown: red when overdue,
/// yellow when due soon, plain otherwise.
pub open spec fn style_for(category: Category) -> Style {
    match category {
        Category::Overdue => Style::Red,
        Category::DueSoon => Style::Yellow,
        Category::Normal => Style::Plain,
        Category::Hidden => Style::Plain,
    }
}

/// Picks the style for a category.
pub fn style_of(category: Category) -> (style: Style)
    ensures
        style == style_for(category),
{
    match category {
        Category::Overdue => Style::Red,
        Category::DueSoon => Style::Yellow,
        Category::Normal => Style::Plain,
        Category::Hidden => Style::Plain,
    }
}

/// One open task in a listing, with its category at the time of listing.
#[derive(Clone, Debug, PartialEq, Eq)]
pub struct Row {
    pub id: i32,
    pub description: String,
    pub due_date: Option<Moment>,
    pub category: Category,
}

/// A row as a mathematical value.
pub struct RowView {
    pub id: int,
    pub description: Seq<char>,
    pub due_date: Option<int>,
    pub category: Category,
}

impl View for Row {
    type V = RowView;

    open spec fn view(&self) -> RowView {
        RowView {
            id: self.id as int,
            description: self.description@,
            due_date: crate::task::due_view(self.due_date),
            category: self.category,
        }
    }
}

/// The rows of `rows` as mathematical values, in the same order.
pub open spec fn row_views(rows: Seq<Row>) -> Seq<RowView> {
    rows.map_values(|row: Row| row@)
}

/// The row that shows `task` at the moment `now`.
pub open spec fn row_of(task: TaskView, now: int) -> RowView {
    RowView {
        id: task.id,
        description: task.description,
        due_date: task.due_date,
        category: category_of(task, now),
    }
}

/// The rows of a listing of `tasks` at `now`: one for each task that is not
/// completed, in the order of the tasks.
pub open spec fn rows_of(tasks: Seq<TaskView>, now: int) -> Seq<RowView> {
    tasks.filter(|task: TaskView| !task.completed).map_values(|task: TaskView| row_of(task, now))
}

/// The ids of the rows of `category`, in the order of the rows.
pub open spec fn ids_in(rows: Seq<RowView>, category: Category) -> Seq<int> {
    rows.filter(|row: RowView| row.category == category).map_values(|row: RowView| row.id)
}

/// What a listing shows: the open tasks, and the ids of those among them
/// that are overdue and of those that are due soon.
#[derive(Clone, Debug, PartialEq, Eq)]
pub struct Listing {
    pub rows: Vec<Row>,
    pub overdue: Vec<i32>,
    pub due_soon: Vec<i32>,
}

/// A listing as a mathematical value.
pub struct ListingView {
    pub rows: Seq<RowView>,
    pub overdue: Seq<int>,
    pub due_soon: Seq<int>,
}

impl View for Listing {
    type V = ListingView;

    open spec fn view(&self) -> ListingView {
        ListingView {
            rows: row_views(self.rows@),
            overdue: as_ints(self.overdue@),
            due_soon: as_ints(self.due_soon@),
        }
    }
}

/// The listing of `tasks` at the moment `now`.
pub open spec fn listing_of(tasks: Seq<TaskView>, now: int) -> ListingView {
    let rows = rows_of(tasks, now);
    ListingView {
        rows,
        overdue: ids_in(rows, Category::Overdue),
        due_soon: ids_in(rows, Category::DueSoon),
    }
}

proof fn lemma_rows_of_push(tasks: Seq<TaskView>, task: TaskView, now: int)
    ensures
        rows_of(tasks.push(task), now) == if task.completed {
            rows_of(tasks, now)
        } else {
            rows_of(tasks, now).push(row_of(task, now))
        },
{
    reveal(Seq::filter);
    assert(tasks.push(task).drop_last() =~= tasks);
}

proof fn lemma_ids_in_push(rows: Seq<RowView>, row: RowView, category: Category)
    ensures
        ids_in(rows.push(row), category) == if row.category == category {
            ids_in(rows, category).push(row.id)
        } else {
            ids_in(rows, category)
        },
{
    reveal(Seq::filter);
    assert(rows.push(row).drop_last() =~= rows);
}

fn ids_with(rows: &Vec<Row>, category: Category) -> (ids: Vec<i32>)
    ensures
        as_ints(ids@) == ids_in(row_views(rows@), category),
{
    let mut ids: Vec<i32> = Vec::new();
    let ghost all = row_views(rows@);
    let mut i: usize = 0;
    while i < rows.len()
        invariant
            i <= rows.len(),
            all == row_views(rows@),
            as_ints(ids@) == ids_in(all.take(i as int), category),
        decreases rows.len() - i,
    {
        if rows[i].category == category {
            ids.push(rows[i].id);
        }
        proof {
            lemma_ids_in_push(all.take(i as int), all[i as int], category);
            assert(all.take(i as int + 1) =~= all.take(i as int).push(all[i as int]));
        }
        i += 1;
    }
    assert(all.take(rows.len() as int) =~= all);
    ids
}

/// Lists `tasks` as they stand at the moment `now`: a row for each task that
/// is not completed, and the ids of the overdue and of the due-soon rows.
pub fn list_items(tasks: &[Task], now: Moment) -> (listing: Listing)
    ensures
        listing@ == listing_of(views(tasks@), now@),
{
    let mut rows: Vec<Row> = Vec::new();
    let ghost all = views(tasks@);
    let mut i: usize = 0;
    while i < tasks.len()
        invariant
            i <= tasks.len(),
            all == views(tasks@),
            row_views(rows@) == rows_of(all.take(i as int), now@),
        decreases tasks.len() - i,
    {
        let task = &tasks[i];
        if !task.completed {
            let row = Row {
                id: task.id,
                description: task.description.clone(),
                due_date: task.due_date,
                category: classify(task, now),
            };
            rows.push(row);
        }
        proof {
            lemma_rows_of_push(all.take(i as int), all[i as int], now@);
            assert(all.take(i as int + 1) =~= all.take(i as int).push(all[i as int]));
        }
        i += 1;
    }
    assert(all.take(tasks.len() as int) =~= all);
    let overdue = ids_with(&rows, Category::Overdue);
    let due_soon = ids_with(&rows, Category::DueSoon);
    Listing { rows, overdue, due_soon }
}

/// Whether `row` shows, at `now`, a task of `tasks` that is not completed.
pub open spec fn shows_open_task(tasks: Seq<TaskView>, now: int, row: RowView) -> bool {
    exists|j: int|
        0 <= j < tasks.len() && !(#[trigger] tasks[j]).completed && row == row_of(tasks[j], now)
}

/// Whether `id` is the id of a row of `category` among `rows`.
pub open spec fn names_row(rows: Seq<RowView>, category: Category, id: int) -> bool {
    exists|r: int| 0 <= r < rows.len() && (#[trigger] rows[r]).category == category && rows[r].id == id
}

/// Completed tasks never appear in a listing, whatever their deadlines:
/// every row shows a task of `tasks` that is not completed, so no row is
/// hidden; and every task that is not completed has its row.
pub proof fn lemma_rows_are_the_open_tasks(tasks: Seq<TaskView>, now: int)
    ensures
        forall|k: int|
            0 <= k < rows_of(tasks, now).len() ==> shows_open_task(
                tasks,
                now,
                #[trigger] rows_of(tasks, now)[k],
            ),
        forall|k: int|
            0 <= k < rows_of(tasks, now).len() ==> (#[trigger] rows_of(tasks, now)[k]).category
                != Category::Hidden,
        forall|j: int|
            0 <= j < tasks.len() && !(#[trigger] tasks[j]).completed ==> rows_of(
                tasks,
                now,
            ).contains(row_of(tasks[j], now)),
{
    let keep = |task: TaskView| !task.completed;
    let open = tasks.filter(keep);
    let rows = rows_of(tasks, now);
    assert forall|k: int| 0 <= k < rows.len() implies shows_open_task(tasks, now, #[trigger] rows[k])
        && rows[k].category != Category::Hidden by {
        tasks.lemma_filter_contains_rev(keep, open[k]);
    }
    assert forall|j: int| 0 <= j < tasks.len() && !(#[trigger] tasks[j]).completed implies rows.contains(
        row_of(tasks[j], now),
    ) by {
        tasks.lemma_filter_contains(keep, j);
        let k = choose|k: int| 0 <= k < open.len() && open[k] == tasks[j];
        assert(rows[k] == row_of(tasks[j], now));
    }
}

/// The ids that a listing names as overdue or as due soon are ids of its
/// rows of that category.
pub proof fn lemma_named_ids_are_rows(rows: Seq<RowView>, category: Category)
    ensures
        forall|k: int|
            0 <= k < ids_in(rows, category).len() ==> names_row(
                rows,
                category,
                #[trigger] ids_in(rows, category)[k],
            ),
{
    let keep = |row: RowView| row.category == category;
    let kept = rows.filter(keep);
    assert forall|k: int| 0 <= k < ids_in(rows, category).len() implies names_row(
        rows,
        category,
        #[trigger] ids_in(rows, category)[k],
    ) by {
        rows.lemma_filter_contains_rev(keep, kept[k]);
    }
}

/// A piece of a line, shown in one style.
#[derive(Clone, Debug, PartialEq, Eq)]
pub struct Segment {
    pub text: String,
    pub style: Style,
}

/// A segment as a mathematical value.
pub struct SegmentView {
    pub text: Seq<char>,
    pub style: Style,
}

impl View for Segment {
    type V = SegmentView;

    open spec fn view(&self) -> SegmentView {
        SegmentView { text: self.text@, style: self.style }
    }
}

/// A line as the sequence of its segments.
pub open spec fn line_view(line: Seq<Segment>) -> Seq<SegmentView> {
    line.map_values(|segment: Segment| segment@)
}

/// Lines as the sequence of their segment sequences.
pub open spec fn screen_view(lines: Seq<Vec<Segment>>) -> Seq<Seq<SegmentView>> {
    lines.map_values(|line: Vec<Segment>| line_view(line@))
}

/// Width of the id column.
pub const ID_WIDTH: usize = 10;

/// Width of the description column.
pub const DESCRIPTION_WIDTH: usize = 50;

/// Width of the due date column.
pub const DUE_DATE_WIDTH: usize = 20;

/// Width of the status column.
pub const STATUS_WIDTH: usize = 10;

/// A cell of a table line: `text` padded to `width`, in `style`.
pub open spec fn cell(text: Seq<char>, width: nat, style: Style) -> SegmentView {
    SegmentView { text: padded(text, width), style }
}

/// What stands between two cells: a bar with a space on each side, plain.
pub open spec fn separator() -> SegmentView {
    SegmentView { text: seq![' ', '|', ' '], style: Style::Plain }
}

/// A line of the table: four cells of widths 10, 50, 20 and 10, all in
/// `style`, with a separator between each two.
pub open spec fn table_line(
    id: Seq<char>,
    description: Seq<char>,
    due_date: Seq<char>,
    status: Seq<char>,
    style: Style,
) -> Seq<SegmentView> {
    seq![
        cell(id, ID_WIDTH as nat, style),
        separator(),
        cell(description, DESCRIPTION_WIDTH as nat, style),
        separator(),
        cell(due_date, DUE_DATE_WIDTH as nat, style),
        separator(),
        cell(status, STATUS_WIDTH as nat, style),
    ]
}

/// The line above the rows.
pub open spec fn header_line() -> Seq<SegmentView> {
    table_line("ID"@, "Description"@, "Due Date"@, "Status"@, Style::Plain)
}

/// The text of a deadline: its date and time of day, or nothing where there
/// is no deadline.
pub open spec fn due_text(due_date: Option<int>) -> Seq<char> {
    match due_date {
        Some(nanos) => date_time_text(nanos),
        None => Seq::empty(),
    }
}

/// The line of a row: its id, description and deadline, and `false` for its
/// status, since only open tasks have rows; all in the style of its category.
pub open spec fn row_line(row: RowView) -> Seq<SegmentView> {
    table_line(
        integer_text(row.id),
        row.description,
        due_text(row.due_date),
        "false"@,
        style_for(row.category),
    )
}

/// The line that names the overdue tasks: one red segment with the ids in
/// square brackets.
pub open spec fn overdue_notice(ids: Seq<int>) -> Seq<SegmentView> {
    seq![
        SegmentView {
            text: "Items ["@ + joined(ids) + "] are overdue! Finish them quickly!"@,
            style: Style::Red,
        },
    ]
}

/// The line that names the tasks that are due soon: three yellow segments
/// with a plain space between each two.
pub open spec fn due_soon_notice(ids: Seq<int>) -> Seq<SegmentView> {
    seq![
        SegmentView { text: "Items"@, style: Style::Yellow },
        SegmentView { text: " "@, style: Style::Plain },
        SegmentView { text: joined(ids), style: Style::Yellow },
        SegmentView { text: " "@, style: Style::Plain },
        SegmentView { text: "are close to deadline! Finish them quickly!"@, style: Style::Yellow },
    ]
}

/// The notice for `ids` as a list of lines: the one line `notice`, or no
/// line at all where there are no ids.
pub open spec fn notice_lines(ids: Seq<int>, notice: Seq<SegmentView>) -> Seq<Seq<SegmentView>> {
    if ids.len() > 0 {
        seq![notice]
    } else {
        Seq::empty()
    }
}

/// Everything a listing puts on the screen: the header, a line for each row,
/// then the overdue notice and the due-soon notice, each only if it has ids
/// to name.
pub open spec fn screen_of(listing: ListingView) -> Seq<Seq<SegmentView>> {
    seq![header_line()] + listing.rows.map_values(|row: RowView| row_line(row)) + notice_lines(
        listing.overdue,
        overdue_notice(listing.overdue),
    ) + notice_lines(listing.due_soon, due_soon_notice(listing.due_soon))
}

fn segment(text: &str, style: Style) -> (piece: Segment)
    ensures
        piece@ == (SegmentView { text: text@, style }),
{
    Segment { text: String::from_str(text), style }
}

fn padded_cell(text: &str, width: usize, style: Style) -> (piece: Segment)
    ensures
        piece@ == cell(text@, width as nat, style),
{
    Segment { text: pad_right(text, width), style }
}

/// Lays out one line of the table from the texts of its four cells: each
/// padded to the width of its column and shown in `style`, with a plain
/// separator between each two.
pub fn table_row(id: &str, description: &str, due_date: &str, status: &str, style: Style) -> (line:
    Vec<Segment>)
    ensures
        line_view(line@) == table_line(id@, description@, due_date@, status@, style),
{
    proof {
        reveal_strlit(" | ");
        assert(" | "@ =~= seq![' ', '|', ' ']);
    }
    let mut line: Vec<Segment> = Vec::new();
    line.push(padded_cell(id, ID_WIDTH, style));
    line.push(segment(" | ", Style::Plain));
    line.push(padded_cell(description, DESCRIPTION_WIDTH, style));
    line.push(segment(" | ", Style::Plain));
    line.push(padded_cell(due_date, DUE_DATE_WIDTH, style));
    line.push(segment(" | ", Style::Plain));
    line.push(padded_cell(status, STATUS_WIDTH, style));
    line
}

/// The header of the table.
pub fn header() -> (line: Vec<Segment>)
    ensures
        line_view(line@) == header_line(),
{
    table_row("ID", "Description", "Due Date", "Status", Style::Plain)
}

impl Row {
    /// The line that shows this row.
    pub fn line(&self) -> (line: Vec<Segment>)
        ensures
            line_view(line@) == row_line(self@),
    {
        let id = i32_to_string(self.id);
        let due_date = match self.due_date {
            Some(moment) => moment.text(),
            None => String::new(),
        };
        table_row(
            id.as_str(),
            self.description.as_str(),
            due_date.as_str(),
            "false",
            style_of(self.category),
        )
    }
}

impl Listing {
    /// The line that names the overdue tasks, if there are any.
    pub fn overdue_line(&self) -> (line: Option<Vec<Segment>>)
        ensures
            line is Some <==> self@.overdue.len() > 0,
            line matches Some(l) ==> line_view(l@) == overdue_notice(self@.overdue),
    {
        if self.overdue.len() == 0 {
            return None;
        }
        let ids = slice_to_string(self.overdue.as_slice());
        let mut text = String::from_str("Items [");
        text.append(ids.as_str());
        text.append("] are overdue! Finish them quickly!");
        let mut line: Vec<Segment> = Vec::new();
        line.push(Segment { text, style: Style::Red });
        Some(line)
    }

    /// The line that names the tasks that are due soon, if there are any.
    pub fn due_soon_line(&self) -> (line: Option<Vec<Segment>>)
        ensures
            line is Some <==> self@.due_soon.len() > 0,
            line matches Some(l) ==> line_view(l@) == due_soon_notice(self@.due_soon),
    {
        if self.due_soon.len() == 0 {
            return None;
        }
        let ids = slice_to_string(self.due_soon.as_slice());
        let mut line: Vec<Segment> = Vec::new();
        line.push(segment("Items", Style::Yellow));
        line.push(segment(" ", Style::Plain));
        line.push(Segment { text: ids, style: Style::Yellow });
        line.push(segment(" ", Style::Plain));
        line.push(segment("are close to deadline! Finish them quickly!", Style::Yellow));
        Some(line)
    }

    /// All the lines of the listing, from the header down.
    pub fn lines(&self) -> (lines: Vec<Vec<Segment>>)
        ensures
            screen_view(lines@) == screen_of(self@),
    {
        let mut lines: Vec<Vec<Segment>> = Vec::new();
        lines.push(header());
        let ghost rows = row_views(self.rows@);
        let mut i: usize = 0;
        assert(screen_view(lines@) =~= seq![header_line()] + rows.take(0).map_values(
            |row: RowView| row_line(row),
        ));
        while i < self.rows.len()
            invariant
                i <= self.rows.len(),
                rows == row_views(self.rows@),
                screen_view(lines@) == seq![header_line()] + rows.take(i as int).map_values(
                    |row: RowView| row_line(row),
                ),
            decreases self.rows.len() - i,
        {
            let ghost before = screen_view(lines@);
            lines.push(self.rows[i].line());
            assert(screen_view(lines@) =~= before.push(row_line(rows[i as int])));
            assert(screen_view(lines@) =~= seq![header_line()] + rows.take(i as int + 1).map_values(
                |row: RowView| row_line(row),
            ));
            i += 1;
        }
        let ghost table = screen_view(lines@);
        if let Some(line) = self.overdue_line() {
            lines.push(line);
        }
        assert(screen_view(lines@) =~= table + notice_lines(
            self@.overdue,
            overdue_notice(self@.overdue),
        ));
        let ghost upper = screen_view(lines@);
        if let Some(line) = self.due_soon_line() {
            lines.push(line);
        }
        assert(screen_view(lines@) =~= upper + notice_lines(
            self@.due_soon,
            due_soon_notice(self@.due_soon),
        ));
        lines
    }
}

} // verus!
