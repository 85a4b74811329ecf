use p2p::model::input_view_model::{InputMode, InputViewModel};
use p2p::model::log_view_model::{Log, LogLevel, LogViewModel};
use p2p::model::message_view_model::{Message, MessageViewModel, UserType};
use p2p::model::peer_view_model::PeerViewModel;
use p2p::model::{AppViewModel, AutoScrollableViewModel, ScrollbarModel, ViewModelFmt};
use p2p::time::Timestamp;
use std::sync::atomic::AtomicUsize;

#[test]
fn test_ivm() {
    let mut ivm = InputViewModel {
        myself_id: "11".into(),
        input: "".into(),
        input_mode: InputMode::Editing,
        character_index: 0,
    };

    ivm.enter_char('你');
    ivm.enter_char('h');
    ivm.enter_char('好');
    assert_eq!(ivm.character_index, 3);
    assert_eq!(ivm.byte_index(), 7);
    let x: Vec<char> = ivm
        .input
        .chars()
        .skip(ivm.character_index.saturating_sub(2))
        .take(1)
        .collect();
    assert_eq!(ivm.input.chars().collect::<Vec<char>>(), vec!['你', 'h', '好']);
    assert_eq!(x, vec!['h']);
}

#[test]
fn xx() {
    let x: usize = 1;
    let a = x.saturating_add(1);
    assert_eq!(a, 2);
    let a = x.saturating_sub(100);
    assert_eq!(a, 0);

    let x = AtomicUsize::new(0);
    x.fetch_sub(2, std::sync::atomic::Ordering::Relaxed);
    assert_eq!(x.load(std::sync::atomic::Ordering::Relaxed), usize::MAX - 1);
}

#[test]
fn input_insert_in_middle_and_delete() {
    let mut ivm = InputViewModel::new("me".to_string());
    assert_eq!(ivm.input_mode, InputMode::Normal);
    for c in "abd".chars() {
        ivm.enter_char(c);
    }
    ivm.move_cursor_left();
    ivm.enter_char('c');
    assert_eq!(ivm.input, "abcd");
    assert_eq!(ivm.character_index, 3);
    ivm.delete_char();
    assert_eq!(ivm.input, "abd");
    assert_eq!(ivm.character_index, 2);
}

#[test]
fn input_delete_undoes_enter() {
    let mut ivm = InputViewModel::new("me".to_string());
    for c in "héllo".chars() {
        ivm.enter_char(c);
    }
    ivm.move_cursor_left();
    ivm.move_cursor_left();
    let before = (ivm.input.clone(), ivm.character_index);
    ivm.enter_char('ß');
    ivm.delete_char();
    assert_eq!((ivm.input.clone(), ivm.character_index), before);
}

#[test]
fn input_cursor_stays_within_text() {
    let mut ivm = InputViewModel::new("me".to_string());
    ivm.move_cursor_left();
    assert_eq!(ivm.character_index, 0);
    ivm.enter_char('a');
    ivm.move_cursor_right();
    ivm.move_cursor_right();
    assert_eq!(ivm.character_index, 1);
    assert_eq!(ivm.clamp_cursor(10), 1);
    assert_eq!(ivm.clamp_cursor(0), 0);
    ivm.delete_char();
    ivm.delete_char();
    assert_eq!(ivm.input, "");
    assert_eq!(ivm.character_index, 0);
}

#[test]
fn input_byte_index_counts_utf8_bytes() {
    let mut ivm = InputViewModel::new("me".to_string());
    for c in "a你😀".chars() {
        ivm.enter_char(c);
    }
    assert_eq!(ivm.byte_index(), 1 + 3 + 4);
    ivm.move_cursor_left();
    assert_eq!(ivm.byte_index(), 4);
    ivm.reset_cursor();
    assert_eq!(ivm.byte_index(), 0);
}

#[test]
fn input_submit_message_empties_line() {
    let mut ivm = InputViewModel::new("alice".to_string());
    ivm.input_mode = InputMode::Editing;
    for c in "hi".chars() {
        ivm.enter_char(c);
    }
    let m = ivm.submit_message(3600);
    assert_eq!(m.get_content(), "hi");
    assert!(m.formart().0[0].ends_with("+01:00): hi"));
    assert!(matches!(m.get_user(), UserType::User(u) if u == "alice"));
    assert!(m.get_relay_route().is_none());
    assert_eq!(ivm.input, "");
    assert_eq!(ivm.character_index, 0);
    assert_eq!(ivm.input_mode, InputMode::Editing);
    assert_eq!(ivm.get_myself_id(), "alice");
}

fn ts(secs: i64) -> Timestamp {
    Timestamp { secs, nanos: 0 }
}

#[test]
fn message_lines_with_time() {
    let m = Message::new(ts(0), 0, "a\nb\n".to_string(), UserType::System, Some(vec!["x".to_string(), "y".to_string()]));
    let (lines, ext) = m.formart_with_time("T");
    assert_eq!(lines, vec!["(T): a".to_string(), "b".to_string(), "".to_string()]);
    assert_eq!(ext, Some(" [x -> y]".to_string()));
    let (lines, ext) = m.formart();
    assert_eq!(lines.len(), 3);
    assert_eq!(lines[0], "(1970-01-01T00:00:00Z): a");
    assert!(lines[0].ends_with("): a"));
    assert_eq!(ext, Some(" [x -> y]".to_string()));
    let m = Message::new(ts(0), 0, "a\nb\n".to_string(), UserType::System, None);
    assert_eq!(m.formart().0[0], "(1970-01-01T00:00:00Z): a");
}

#[test]
fn message_relay_route_only_set_when_non_empty() {
    let mut m = Message::new(ts(5), 0, "c".to_string(), UserType::User("u".to_string()), None);
    m.set_relay_route(Some(vec![]));
    assert!(m.get_relay_route().is_none());
    m.set_relay_route(None);
    assert!(m.get_relay_route().is_none());
    m.set_relay_route(Some(vec!["p".to_string()]));
    assert_eq!(m.get_relay_route(), &Some(vec!["p".to_string()]));
    assert_eq!(m.get_time(), ts(5));
}

#[test]
fn message_view_model_scrolling() {
    let mut vm = MessageViewModel::new("me".to_string());
    assert_eq!(vm.get_myself_id(), "me");
    vm.vertical_scroll_up();
    assert_eq!(vm.get_vertical_scroll(), 0);
    vm.vertical_scroll_down();
    vm.vertical_scroll_down();
    assert_eq!(vm.get_vertical_scroll(), 2);
    assert_eq!(vm.get_vertical_scroll_state(), ScrollbarModel { content_length: 0, position: 2 });
    vm.vertical_scroll_up();
    assert_eq!(vm.get_vertical_scroll(), 1);
    vm.set_vertical_scroll_content_len(9);
    assert_eq!(vm.get_vertical_scroll_state(), ScrollbarModel { content_length: 9, position: 1 });
    vm.vertical_scroll_to_end();
    assert!(vm.get_vertical_scroll_at_end());
    vm.vertical_scroll_down();
    assert!(!vm.get_vertical_scroll_at_end());
    vm.add_msg(Message::new(ts(1), 0, "x".to_string(), UserType::System, None));
    assert_eq!(vm.get_inner_msgs().len(), 1);
}

#[test]
fn message_scroll_down_then_up_returns() {
    let mut vm = MessageViewModel::new("me".to_string());
    vm.vertical_scroll_to(7);
    vm.vertical_scroll_down();
    vm.vertical_scroll_up();
    assert_eq!(vm.get_vertical_scroll(), 7);
    vm.vertical_scroll_to(usize::MAX);
    vm.vertical_scroll_down();
    assert_eq!(vm.get_vertical_scroll(), 0);
}

#[test]
fn log_line_format() {
    let l = Log::at(ts(0), 0, LogLevel::Warn, "disk".to_string());
    assert_eq!(l.time_text(), "1970-01-01T00:00:00Z");
    let (lines, ext) = l.formart();
    assert_eq!(lines, vec!["[1970-01-01T00:00:00Z WARN] disk".to_string()]);
    assert!(ext.is_none());
    let l = Log::at(ts(3600), 3600, LogLevel::Error, "x".to_string());
    assert_eq!(l.time_text(), "1970-01-01T02:00:00+01:00");
    assert_eq!(l.level(), LogLevel::Error);
    assert_eq!(l.content(), "x");
    assert_eq!(LogLevel::Info.as_str(), "INFO");
    assert_eq!(LogLevel::Debug.as_str(), "DEBUG");
    assert_eq!(LogLevel::Trace.as_str(), "TRACE");
    let l = Log::new(LogLevel::Info, "now".to_string());
    assert_eq!(l.content(), "now");
}

#[test]
fn log_view_model_keeps_logs() {
    let mut vm = LogViewModel::default();
    vm.add_log(Log::at(ts(0), 0, LogLevel::Info, "a".to_string()));
    vm.add_log(Log::at(ts(0), 0, LogLevel::Info, "b".to_string()));
    assert_eq!(vm.get_logs().len(), 2);
    assert_eq!(vm.get_logs()[1].content(), "b");
    vm.set_vertical_scroll_content_len(4);
    assert_eq!(vm.get_vertical_scroll_state().content_length, 4);
    vm.vertical_scroll_to(3);
    assert_eq!(vm.get_vertical_scroll(), 3);
}

#[test]
fn peers_add_and_remove() {
    let mut p = PeerViewModel::default();
    assert!(p.addPeer("a".to_string()));
    assert!(!p.addPeer("a".to_string()));
    assert!(p.addPeer("b".to_string()));
    assert_eq!(p.peers(), &vec!["a".to_string(), "b".to_string()]);
    assert!(p.removePeer("a"));
    assert!(!p.removePeer("a"));
    assert_eq!(p.peers(), &vec!["b".to_string()]);
}

#[test]
fn peers_remove_undoes_add() {
    let mut p = PeerViewModel::default();
    p.addPeer("x".to_string());
    let before = p.peers().clone();
    assert!(p.addPeer("y".to_string()));
    assert!(p.removePeer("y"));
    assert_eq!(p.peers(), &before);
}

#[test]
fn app_view_model_new() {
    let vm = AppViewModel::new("peer".to_string());
    assert_eq!(vm.input_vm.get_myself_id(), "peer");
    assert_eq!(vm.message_vm.get_myself_id(), "peer");
    assert!(vm.peer_vm.peers().is_empty());
    assert!(vm.log_vm.get_logs().is_empty());
}

#[test]
fn message_formart_shows_time_at_its_offset() {
    let m = Message::new(ts(0), 3600, "a\nb".to_string(), UserType::System, None);
    let (lines, ext) = m.formart();
    assert_eq!(lines, vec!["(1970-01-01T01:00:00+01:00): a".to_string(), "b".to_string()]);
    assert_eq!(ext, None);
    let m = Message::new(ts(86_400), 0, "c".to_string(), UserType::System, Some(vec!["a".to_string(), "b".to_string()]));
    let (lines, ext) = m.formart();
    assert_eq!(lines, vec!["(1970-01-02T00:00:00Z): c".to_string()]);
    assert_eq!(ext, Some(" [a -> b]".to_string()));
}

#[test]
fn message_formart_out_of_range_time_is_empty() {
    // chrono cannot represent this instant, nor one pushed out of range by the offset
    let m = Message::new(ts(i64::MAX), 0, "x".to_string(), UserType::System, None);
    assert_eq!(m.formart().0, vec!["(): x".to_string()]);
    let last = chrono::DateTime::<chrono::Utc>::MAX_UTC.timestamp();
    let m = Message::new(ts(last), 3600, "y".to_string(), UserType::System, None);
    assert_eq!(m.formart().0, vec!["(): y".to_string()]);
    let m = Message::new(ts(last), 0, "z".to_string(), UserType::System, None);
    assert!(m.formart().0[0].ends_with("Z): z"));
}
