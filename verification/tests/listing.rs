use task_tracker::listing::{
    header, list_items, style_of, table_row, Listing, Row, Segment, Style,
};
use task_tracker::moment::{Moment, NANOS_PER_DAY};
use task_tracker::task::{Category, Task};

const LISTED_AT: i128 = 1_704_164_645_000_000_000;

fn listing_now() -> Moment {
    Moment::from_unix_nanos(LISTED_AT).unwrap()
}

fn listed_task(id: i32, description: &str, ahead: Option<i128>, completed: bool) -> Task {
    Task {
        id,
        description: description.to_string(),
        due_date: ahead.map(|a| Moment::from_unix_nanos(LISTED_AT + a).unwrap()),
        completed,
    }
}

fn plain_text(line: &[Segment]) -> String {
    line.iter().map(|segment| segment.text.as_str()).collect()
}

fn styles(line: &[Segment]) -> Vec<Style> {
    line.iter().map(|segment| segment.style).collect()
}

#[test]
fn style_for_each_category() {
    assert_eq!(style_of(Category::Overdue), Style::Red);
    assert_eq!(style_of(Category::DueSoon), Style::Yellow);
    assert_eq!(style_of(Category::Normal), Style::Plain);
    assert_eq!(style_of(Category::Hidden), Style::Plain);
}

#[test]
fn listing_of_no_tasks() {
    let listing = list_items(&[], listing_now());
    assert_eq!(listing, Listing { rows: vec![], overdue: vec![], due_soon: vec![] });
}

#[test]
fn listing_has_a_row_for_each_open_task() {
    let tasks = [
        listed_task(1, "overdue", Some(-NANOS_PER_DAY), false),
        listed_task(2, "soon", Some(NANOS_PER_DAY), false),
        listed_task(3, "later", Some(10 * NANOS_PER_DAY), false),
        listed_task(4, "whenever", None, false),
    ];
    let listing = list_items(&tasks, listing_now());
    let categories: Vec<Category> = listing.rows.iter().map(|row| row.category).collect();
    assert_eq!(
        categories,
        vec![Category::Overdue, Category::DueSoon, Category::Normal, Category::Normal]
    );
    for (row, task) in listing.rows.iter().zip(tasks.iter()) {
        assert_eq!(row.id, task.id);
        assert_eq!(row.description, task.description);
        assert_eq!(row.due_date, task.due_date);
    }
    assert_eq!(listing.overdue, vec![1]);
    assert_eq!(listing.due_soon, vec![2]);
}

#[test]
fn listing_leaves_completed_tasks_out() {
    let tasks = [
        listed_task(1, "done long ago", Some(-NANOS_PER_DAY), true),
        listed_task(2, "open", Some(-NANOS_PER_DAY), false),
        listed_task(3, "done, due soon", Some(NANOS_PER_DAY), true),
        listed_task(4, "done, due later", Some(9 * NANOS_PER_DAY), true),
        listed_task(5, "done, never due", None, true),
    ];
    let listing = list_items(&tasks, listing_now());
    assert_eq!(listing.rows.len(), 1);
    assert_eq!(listing.rows[0].id, 2);
    assert_eq!(listing.overdue, vec![2]);
    assert!(listing.due_soon.is_empty());
    for line in listing.lines() {
        let text = plain_text(&line);
        assert!(!text.contains("done"));
    }
}

#[test]
fn listing_of_completed_tasks_only_is_empty() {
    let tasks = [
        listed_task(1, "a", Some(-NANOS_PER_DAY), true),
        listed_task(2, "b", Some(NANOS_PER_DAY), true),
    ];
    let listing = list_items(&tasks, listing_now());
    assert_eq!(listing, Listing { rows: vec![], overdue: vec![], due_soon: vec![] });
    assert_eq!(listing.lines().len(), 1);
}

#[test]
fn listing_names_ids_in_the_order_of_the_tasks() {
    let tasks = [
        listed_task(3, "a", Some(NANOS_PER_DAY), false),
        listed_task(5, "b", Some(-1), false),
        listed_task(8, "c", Some(2 * NANOS_PER_DAY), false),
        listed_task(9, "d", Some(0), false),
        listed_task(12, "e", Some(1), false),
    ];
    let listing = list_items(&tasks, listing_now());
    assert_eq!(listing.overdue, vec![5, 9]);
    assert_eq!(listing.due_soon, vec![3, 8, 12]);
}

#[test]
fn header_has_four_padded_cells() {
    let line = header();
    assert_eq!(
        plain_text(&line),
        format!("{0: <10} | {1: <50} | {2: <20} | {3: <10}", "ID", "Description", "Due Date", "Status")
    );
    assert_eq!(styles(&line), vec![Style::Plain; 7]);
    assert_eq!(line[0].text, "ID        ");
    assert_eq!(line[1].text, " | ");
    assert_eq!(line[6].text, "Status    ");
}

#[test]
fn row_line_of_a_task_due_soon() {
    let row = Row {
        id: 12,
        description: "buy milk".to_string(),
        due_date: Some(listing_now()),
        category: Category::DueSoon,
    };
    let line = row.line();
    assert_eq!(
        plain_text(&line),
        format!(
            "{0: <10} | {1: <50} | {2: <20} | {3: <10}",
            12, "buy milk", "2024-01-02 3:04:05.0", false
        )
    );
    assert_eq!(
        styles(&line),
        vec![
            Style::Yellow,
            Style::Plain,
            Style::Yellow,
            Style::Plain,
            Style::Yellow,
            Style::Plain,
            Style::Yellow
        ]
    );
}

#[test]
fn row_line_of_an_overdue_task_is_red() {
    let row = Row {
        id: -3,
        description: "pay rent".to_string(),
        due_date: Some(listing_now()),
        category: Category::Overdue,
    };
    let line = row.line();
    assert_eq!(line[0], Segment { text: "-3        ".to_string(), style: Style::Red });
    assert_eq!(line[2].style, Style::Red);
    assert_eq!(line[4], Segment { text: "2024-01-02 3:04:05.0".to_string(), style: Style::Red });
    assert_eq!(line[6], Segment { text: "false     ".to_string(), style: Style::Red });
    assert_eq!(line[3], Segment { text: " | ".to_string(), style: Style::Plain });
}

#[test]
fn row_line_without_a_deadline_has_an_empty_cell() {
    let row = Row { id: 1, description: "read".to_string(), due_date: None, category: Category::Normal };
    let line = row.line();
    assert_eq!(line.len(), 7);
    assert_eq!(line[4], Segment { text: " ".repeat(20), style: Style::Plain });
    assert_eq!(styles(&line), vec![Style::Plain; 7]);
}

#[test]
fn row_line_keeps_a_long_description_whole() {
    let description = "x".repeat(60);
    let row = Row { id: 1, description: description.clone(), due_date: None, category: Category::Normal };
    assert_eq!(row.line()[2].text, description);
}

#[test]
fn overdue_line_names_the_ids_in_brackets() {
    let listing = Listing { rows: vec![], overdue: vec![1, 22, 3], due_soon: vec![] };
    let line = listing.overdue_line().unwrap();
    assert_eq!(
        line,
        vec![Segment {
            text: "Items [1, 22, 3] are overdue! Finish them quickly!".to_string(),
            style: Style::Red
        }]
    );
    assert_eq!(listing.due_soon_line(), None);
}

#[test]
fn overdue_line_for_one_id() {
    let listing = Listing { rows: vec![], overdue: vec![7], due_soon: vec![] };
    assert_eq!(
        plain_text(&listing.overdue_line().unwrap()),
        "Items [7] are overdue! Finish them quickly!"
    );
}

#[test]
fn due_soon_line_names_the_ids() {
    let listing = Listing { rows: vec![], overdue: vec![], due_soon: vec![4, 5] };
    let line = listing.due_soon_line().unwrap();
    assert_eq!(plain_text(&line), "Items 4, 5 are close to deadline! Finish them quickly!");
    assert_eq!(
        styles(&line),
        vec![Style::Yellow, Style::Plain, Style::Yellow, Style::Plain, Style::Yellow]
    );
    assert_eq!(line[2].text, "4, 5");
    assert_eq!(listing.overdue_line(), None);
}

#[test]
fn no_notice_without_ids() {
    let listing = Listing { rows: vec![], overdue: vec![], due_soon: vec![] };
    assert_eq!(listing.overdue_line(), None);
    assert_eq!(listing.due_soon_line(), None);
    assert_eq!(listing.lines(), vec![header()]);
}

#[test]
fn lines_are_header_rows_and_notices() {
    let tasks = [
        listed_task(1, "overdue", Some(-NANOS_PER_DAY), false),
        listed_task(2, "hidden", Some(-NANOS_PER_DAY), true),
        listed_task(3, "soon", Some(NANOS_PER_DAY), false),
        listed_task(4, "later", None, false),
    ];
    let listing = list_items(&tasks, listing_now());
    let lines = listing.lines();
    assert_eq!(lines.len(), 6);
    assert_eq!(lines[0], header());
    assert_eq!(lines[1], listing.rows[0].line());
    assert_eq!(lines[2], listing.rows[1].line());
    assert_eq!(lines[3], listing.rows[2].line());
    assert_eq!(plain_text(&lines[4]), "Items [1] are overdue! Finish them quickly!");
    assert_eq!(plain_text(&lines[5]), "Items 3 are close to deadline! Finish them quickly!");
    assert!(plain_text(&lines[1]).starts_with("1          | overdue"));
    assert!(plain_text(&lines[2]).starts_with("3          | soon"));
    assert!(plain_text(&lines[3]).starts_with("4          | later"));
}

#[test]
fn lines_with_one_notice_only() {
    let tasks = [listed_task(3, "soon", Some(NANOS_PER_DAY), false)];
    let lines = list_items(&tasks, listing_now()).lines();
    assert_eq!(lines.len(), 3);
    assert_eq!(plain_text(&lines[2]), "Items 3 are close to deadline! Finish them quickly!");
    let tasks = [listed_task(3, "late", Some(-NANOS_PER_DAY), false)];
    let lines = list_items(&tasks, listing_now()).lines();
    assert_eq!(lines.len(), 3);
    assert_eq!(plain_text(&lines[2]), "Items [3] are overdue! Finish them quickly!");
}

#[test]
fn table_row_lays_out_four_cells() {
    let line = table_row("7", "buy milk", "2024-01-02 3:04:05.0", "false", Style::Yellow);
    assert_eq!(
        line,
        vec![
            Segment { text: "7         ".to_string(), style: Style::Yellow },
            Segment { text: " | ".to_string(), style: Style::Plain },
            Segment { text: format!("buy milk{}", " ".repeat(42)), style: Style::Yellow },
            Segment { text: " | ".to_string(), style: Style::Plain },
            Segment { text: "2024-01-02 3:04:05.0".to_string(), style: Style::Yellow },
            Segment { text: " | ".to_string(), style: Style::Plain },
            Segment { text: "false     ".to_string(), style: Style::Yellow },
        ]
    );
}

#[test]
fn table_row_keeps_cells_that_are_too_long() {
    let long_date = "2024-01-02 3:04:05.123456789";
    let line = table_row("12345678901", "", long_date, "", Style::Red);
    assert_eq!(line[0].text, "12345678901");
    assert_eq!(line[2].text, " ".repeat(50));
    assert_eq!(line[4].text, long_date);
    assert_eq!(line[6].text, " ".repeat(10));
    assert_eq!(styles(&line)[0], Style::Red);
    assert_eq!(styles(&line)[1], Style::Plain);
}

#[test]
fn row_line_is_the_table_row_of_its_texts() {
    let row = Row {
        id: 12,
        description: "buy milk".to_string(),
        due_date: Some(listing_now()),
        category: Category::Overdue,
    };
    assert_eq!(
        row.line(),
        table_row("12", "buy milk", &listing_now().text(), "false", Style::Red)
    );
}
