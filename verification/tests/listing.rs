use task_manager::{decimal_string, list_tasks, Task};

fn task(id: i32, description: &str, done: bool) -> Task {
    Task { id, description: description.to_string(), done }
}

#[test]
fn empty_list_shows_the_notice() {
    assert_eq!(list_tasks(&Vec::new()), vec!["No tasks.".to_string()]);
}

#[test]
fn one_line_per_task_in_order() {
    let tasks = vec![task(1, "buy milk", false), task(2, "walk dog", true)];
    assert_eq!(
        list_tasks(&tasks),
        vec!["1 - buy milk - Pending".to_string(), "2 - walk dog - Completed".to_string()]
    );
}

#[test]
fn line_with_empty_description() {
    assert_eq!(list_tasks(&vec![task(7, "", false)]), vec!["7 -  - Pending".to_string()]);
}

#[test]
fn line_keeps_the_description_as_written() {
    let tasks = vec![task(12, "caf\u{e9} - \"quoted\" \u{1f600}", true)];
    assert_eq!(
        list_tasks(&tasks),
        vec!["12 - caf\u{e9} - \"quoted\" \u{1f600} - Completed".to_string()]
    );
}

#[test]
fn line_with_negative_and_large_ids() {
    let tasks = vec![task(-4, "a", false), task(i32::MAX, "b", false), task(i32::MIN, "c", true)];
    assert_eq!(
        list_tasks(&tasks),
        vec![
            "-4 - a - Pending".to_string(),
            "2147483647 - b - Pending".to_string(),
            "-2147483648 - c - Completed".to_string(),
        ]
    );
}

#[test]
fn listing_leaves_the_list_alone() {
    let tasks = vec![task(1, "a", false), task(2, "b", true)];
    let before = tasks.clone();
    let first = list_tasks(&tasks);
    let second = list_tasks(&tasks);
    assert_eq!(first, second);
    assert_eq!(tasks, before);
}

#[test]
fn decimal_of_small_numbers() {
    assert_eq!(decimal_string(0), "0");
    assert_eq!(decimal_string(7), "7");
    assert_eq!(decimal_string(10), "10");
    assert_eq!(decimal_string(99), "99");
    assert_eq!(decimal_string(100), "100");
    assert_eq!(decimal_string(1203), "1203");
    assert_eq!(decimal_string(-1), "-1");
    assert_eq!(decimal_string(-10), "-10");
    assert_eq!(decimal_string(-905), "-905");
}

#[test]
fn decimal_of_the_extremes() {
    assert_eq!(decimal_string(i32::MAX), "2147483647");
    assert_eq!(decimal_string(i32::MIN), "-2147483648");
}

#[test]
fn decimal_agrees_with_the_standard_rendering() {
    let mut n: i32 = -100_000;
    while n <= 100_000 {
        assert_eq!(decimal_string(n), n.to_string());
        n += 37;
    }
    for n in [1_000_000_000, 1_999_999_999, -1_000_000_000, 123_456_789, -987_654_321] {
        assert_eq!(decimal_string(n), n.to_string());
    }
}
