use task_tracker::moment::{Moment, NANOS_PER_DAY};
use task_tracker::task::{classify, Category, Task, DUE_SOON_WINDOW};

const NOW: i128 = 1_704_164_645_500_000_000;

fn now_for_classify() -> Moment {
    Moment::from_unix_nanos(NOW).unwrap()
}

fn open_task_due(ahead: i128) -> Task {
    Task {
        id: 1,
        description: "water the plants".to_string(),
        due_date: Some(Moment::from_unix_nanos(NOW + ahead).unwrap()),
        completed: false,
    }
}

#[test]
fn window_is_three_days() {
    assert_eq!(DUE_SOON_WINDOW, 3 * NANOS_PER_DAY);
}

#[test]
fn overdue_when_the_deadline_has_passed() {
    assert_eq!(classify(&open_task_due(-1), now_for_classify()), Category::Overdue);
    assert_eq!(classify(&open_task_due(-NANOS_PER_DAY), now_for_classify()), Category::Overdue);
    assert_eq!(classify(&open_task_due(-400 * NANOS_PER_DAY), now_for_classify()), Category::Overdue);
}

#[test]
fn overdue_at_the_deadline_itself() {
    assert_eq!(classify(&open_task_due(0), now_for_classify()), Category::Overdue);
}

#[test]
fn due_soon_inside_three_days() {
    assert_eq!(classify(&open_task_due(1), now_for_classify()), Category::DueSoon);
    assert_eq!(classify(&open_task_due(NANOS_PER_DAY), now_for_classify()), Category::DueSoon);
    assert_eq!(classify(&open_task_due(2 * NANOS_PER_DAY), now_for_classify()), Category::DueSoon);
    assert_eq!(classify(&open_task_due(3 * NANOS_PER_DAY - 1), now_for_classify()), Category::DueSoon);
}

#[test]
fn normal_from_three_days_on() {
    assert_eq!(classify(&open_task_due(3 * NANOS_PER_DAY), now_for_classify()), Category::Normal);
    assert_eq!(classify(&open_task_due(3 * NANOS_PER_DAY + 1), now_for_classify()), Category::Normal);
    assert_eq!(classify(&open_task_due(4 * NANOS_PER_DAY), now_for_classify()), Category::Normal);
    assert_eq!(classify(&open_task_due(1000 * NANOS_PER_DAY), now_for_classify()), Category::Normal);
}

#[test]
fn category_by_whole_days() {
    for days in -10..=10i128 {
        let expected = if days <= 0 {
            Category::Overdue
        } else if days < 3 {
            Category::DueSoon
        } else {
            Category::Normal
        };
        assert_eq!(classify(&open_task_due(days * NANOS_PER_DAY), now_for_classify()), expected);
    }
}

#[test]
fn normal_without_a_deadline() {
    let task = Task { id: 4, description: "read".to_string(), due_date: None, completed: false };
    assert_eq!(classify(&task, now_for_classify()), Category::Normal);
}

#[test]
fn hidden_when_completed() {
    for ahead in [-NANOS_PER_DAY, 0, NANOS_PER_DAY, 5 * NANOS_PER_DAY] {
        let mut task = open_task_due(ahead);
        task.completed = true;
        assert_eq!(classify(&task, now_for_classify()), Category::Hidden);
    }
    let task = Task { id: 4, description: "read".to_string(), due_date: None, completed: true };
    assert_eq!(classify(&task, now_for_classify()), Category::Hidden);
}

#[test]
fn category_at_the_ends_of_time() {
    let first = Moment::from_unix_nanos(task_tracker::moment::EARLIEST).unwrap();
    let last = Moment::from_unix_nanos(task_tracker::moment::LATEST).unwrap();
    let task = Task { id: 1, description: "x".to_string(), due_date: Some(last), completed: false };
    assert_eq!(classify(&task, first), Category::Normal);
    assert_eq!(classify(&task, last), Category::Overdue);
    let task = Task { id: 1, description: "x".to_string(), due_date: Some(first), completed: false };
    assert_eq!(classify(&task, last), Category::Overdue);
}

#[test]
fn category_agrees_with_the_calendar() {
    let now = time::PrimitiveDateTime::new(
        time::Date::from_calendar_date(2024, time::Month::February, 28).unwrap(),
        time::Time::from_hms(12, 0, 0).unwrap(),
    );
    for hours in -100..=100i64 {
        let due = now + time::Duration::hours(hours);
        let expected = if now >= due {
            Category::Overdue
        } else if due < now + time::Duration::days(3) {
            Category::DueSoon
        } else {
            Category::Normal
        };
        let task = Task {
            id: 1,
            description: "x".to_string(),
            due_date: Moment::from_unix_nanos(due.assume_utc().unix_timestamp_nanos()),
            completed: false,
        };
        let at = Moment::from_unix_nanos(now.assume_utc().unix_timestamp_nanos()).unwrap();
        assert_eq!(classify(&task, at), expected);
    }
}
