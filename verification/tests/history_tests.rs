use synterm::{Direction, History};

fn log_of(entries: &[&str]) -> History {
    History::from_entries(entries.iter().map(|e| e.chars().collect()).collect())
}

fn entry_string(history: &History, index: usize) -> String {
    history.get(index).iter().collect()
}

#[test]
fn history_navigation_wraps_at_both_ends() {
    let history = log_of(&["a", "b", "c"]);
    assert_eq!(history.navigate(0, Direction::Up), 3);
    assert_eq!(history.navigate(3, Direction::Down), 0);
}

#[test]
fn history_scenario_four_ups_from_the_top() {
    let history = log_of(&["a", "b", "c"]);
    let mut index = history.count();
    assert_eq!(index, 3);
    let mut visited = Vec::new();
    for _ in 0..4 {
        index = history.navigate(index, Direction::Up);
        visited.push(index);
    }
    assert_eq!(visited, vec![2, 1, 0, 3]);
    assert_eq!(entry_string(&history, 2), "c");
}

#[test]
fn history_get_out_of_range_is_empty() {
    let history = log_of(&["only"]);
    assert_eq!(entry_string(&history, 0), "only");
    assert_eq!(entry_string(&history, 1), "");
    assert_eq!(entry_string(&history, 7), "");
}

#[test]
fn history_append_records_newest_last() {
    let mut history = History::new();
    assert_eq!(history.count(), 0);
    history.append("first".chars().collect());
    history.append("second".chars().collect());
    assert_eq!(history.count(), 2);
    assert_eq!(entry_string(&history, 0), "first");
    assert_eq!(entry_string(&history, 1), "second");
}

#[test]
fn history_never_records_an_empty_line() {
    let mut history = History::new();
    history.append(Vec::new());
    assert_eq!(history.count(), 0);
}

#[test]
fn history_navigation_steps_without_wrap() {
    let history = log_of(&["a", "b"]);
    assert_eq!(history.navigate(2, Direction::Up), 1);
    assert_eq!(history.navigate(1, Direction::Down), 2);
}
