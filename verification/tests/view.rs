use p2p::model::log_view_model::{Log, LogLevel, LogViewModel};
use p2p::model::message_view_model::{Message, MessageViewModel, UserType};
use p2p::model::AutoScrollableViewModel;
use p2p::time::Timestamp;
use p2p::view::{adjust_scroll_pos, calculate_message_lines, count_formatted_lines, scroll_position};

fn now() -> Timestamp {
    let t = chrono::Utc::now();
    Timestamp { secs: t.timestamp(), nanos: t.timestamp_subsec_nanos() }
}

#[test]
fn test_calculate_message_lines() {
    let msgs = vec![Message::new(
        now(),
        28_800,
        "你好\n你好2\n你好3\n你好4\n你好5\n\n".to_string(),
        UserType::User("xmlaaaaaaaaa".to_string()),
        None,
    )];
    let lines = calculate_message_lines(40, &msgs);
    assert_eq!(lines, 7);
}

#[test]
fn test_width() {
    let cn = "你好".to_string();
    let en = "nh".to_string();
    let cn_width = unicode_width::UnicodeWidthStr::width(&cn[..]);
    let en_width = unicode_width::UnicodeWidthStr::width(&en[..]);
    assert_eq!(cn_width, 4);
    assert_eq!(en_width, 2);
}

#[test]
fn formatted_lines_round_up_and_count_empty_lines() {
    let f = vec![
        (vec!["abcdefghij".to_string(), "".to_string(), "你好你好".to_string()], Some(" [p]".to_string())),
        (vec!["x".to_string()], None),
    ];
    // 10 columns -> 3 lines of 4; the empty line counts one column -> 1;
    // 8 + 4 columns -> 3; then "x" -> 1.
    assert_eq!(count_formatted_lines(4, &f), Some(3 + 1 + 3 + 1));
    assert_eq!(count_formatted_lines(100, &f), Some(4));
    let empty: Vec<(Vec<String>, Option<String>)> = vec![];
    assert_eq!(count_formatted_lines(10, &empty), Some(0));
}

#[test]
fn formatted_lines_zero_width() {
    let f = vec![(vec!["a".to_string()], None)];
    assert_eq!(count_formatted_lines(0, &f), Some(usize::MAX));
    let g = vec![(vec!["a".to_string()], None), (vec!["b".to_string()], None)];
    assert_eq!(count_formatted_lines(0, &g), None);
}

#[test]
fn message_lines_of_log_items() {
    let logs = vec![Log::at(Timestamp { secs: 0, nanos: 0 }, 0, LogLevel::Info, "hello".to_string())];
    // "[1970-01-01T00:00:00Z INFO] hello" has 33 columns.
    assert_eq!(calculate_message_lines(10, &logs), 4);
    assert_eq!(calculate_message_lines(33, &logs), 1);
    let none: Vec<Log> = vec![];
    assert_eq!(calculate_message_lines(10, &none), 0);
}

#[test]
fn scroll_position_follows_end() {
    // a box of 12 lines shows 10; 25 lines of content -> scroll to 15.
    assert_eq!(scroll_position(12, 0, true, 25), Some(15));
    assert_eq!(scroll_position(12, 0, false, 25), None);
    assert_eq!(scroll_position(12, 15, true, 25), None);
    assert_eq!(scroll_position(12, 0, true, 10), None);
    assert_eq!(scroll_position(1, 0, true, 3), Some(3));
}

#[test]
fn adjust_scroll_moves_list_that_follows_end() {
    let mut vm = LogViewModel::default();
    for i in 0..30 {
        vm.add_log(Log::at(Timestamp { secs: 0, nanos: 0 }, 0, LogLevel::Info, format!("{i}")));
    }
    adjust_scroll_pos(&mut vm, 12, 200);
    assert_eq!(vm.get_vertical_scroll(), 0);
    vm.vertical_scroll_to_end();
    adjust_scroll_pos(&mut vm, 12, 200);
    assert_eq!(vm.get_vertical_scroll(), 20);
    adjust_scroll_pos(&mut vm, 0, 200);
    assert_eq!(vm.get_vertical_scroll(), 20);

    let mut empty = MessageViewModel::new("me".to_string());
    empty.vertical_scroll_to_end();
    adjust_scroll_pos(&mut empty, 12, 40);
    assert_eq!(empty.get_vertical_scroll(), 0);
}

#[test]
fn line_count_of_joined_lists_is_the_sum() {
    let a = vec![
        Message::new(Timestamp { secs: 0, nanos: 0 }, 0, "hello\nworld".to_string(), UserType::System, None),
        Message::new(Timestamp { secs: 60, nanos: 0 }, 0, "x".to_string(), UserType::System, Some(vec!["p".to_string()])),
    ];
    let b = vec![Message::new(Timestamp { secs: 0, nanos: 0 }, 7200, "y\n\nz".to_string(), UserType::System, None)];
    let mut ab = a.clone();
    ab.extend(b.iter().cloned());
    let (la, lb, lab) = (calculate_message_lines(12, &a), calculate_message_lines(12, &b), calculate_message_lines(12, &ab));
    // "(1970-01-01T00:00:00Z): hello" has 29 columns -> 3 lines, "world" -> 1;
    // "(1970-01-01T00:01:00Z): x" + " [p]" -> 29 columns -> 3 lines
    assert_eq!(la, 3 + 1 + 3);
    assert_eq!(lab, la + lb);
    let empty: Vec<Message> = vec![];
    assert_eq!(calculate_message_lines(12, &empty), 0);
}
