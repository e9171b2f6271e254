use task_tracker::menu::{parse_menu_selection, trim_bounds, MenuAction};

#[test]
fn trim_bounds_strips_surrounding_ascii_whitespace() {
    assert_eq!(trim_bounds(b"  task text \n"), (2, 11));
    assert_eq!(trim_bounds(b"task"), (0, 4));
    assert_eq!(trim_bounds(b" \t\r\n"), (4, 4));
    assert_eq!(trim_bounds(b""), (0, 0));
}

#[test]
fn selection_one_shows_tasks() {
    assert_eq!(parse_menu_selection(b"1"), MenuAction::ShowTasks);
    assert_eq!(parse_menu_selection(b" 1\n"), MenuAction::ShowTasks);
    assert_eq!(parse_menu_selection(b"+1"), MenuAction::ShowTasks);
}

#[test]
fn selection_two_adds_a_task() {
    assert_eq!(parse_menu_selection(b"2"), MenuAction::AddTask);
    assert_eq!(parse_menu_selection(b"\t 2 \r\n"), MenuAction::AddTask);
}

#[test]
fn non_numeric_input_reprompts() {
    assert_eq!(parse_menu_selection(b"abc"), MenuAction::NotANumber);
    assert_eq!(parse_menu_selection(b""), MenuAction::NotANumber);
    assert_eq!(parse_menu_selection(b"   \n"), MenuAction::NotANumber);
    assert_eq!(parse_menu_selection(b"1.5"), MenuAction::NotANumber);
    assert_eq!(parse_menu_selection(b"2x"), MenuAction::NotANumber);
    assert_eq!(parse_menu_selection(b"+"), MenuAction::NotANumber);
    assert_eq!(parse_menu_selection(b"-"), MenuAction::NotANumber);
    assert_eq!(parse_menu_selection(b"\xc3\xa9"), MenuAction::NotANumber);
}

#[test]
fn integer_overflow_reprompts() {
    assert_eq!(
        parse_menu_selection(b"99999999999999999999"),
        MenuAction::NotANumber
    );
    assert_eq!(parse_menu_selection(b"2147483648"), MenuAction::NotANumber);
    assert_eq!(parse_menu_selection(b"-2147483648"), MenuAction::OutOfRange);
}

#[test]
fn out_of_menu_selection_reprompts() {
    assert_eq!(parse_menu_selection(b"0"), MenuAction::OutOfRange);
    assert_eq!(parse_menu_selection(b"3"), MenuAction::OutOfRange);
    assert_eq!(parse_menu_selection(b"-1"), MenuAction::OutOfRange);
    assert_eq!(parse_menu_selection(b"2147483647"), MenuAction::OutOfRange);
    assert_eq!(parse_menu_selection(b"0002"), MenuAction::AddTask);
}
