use p2p::chat::{ChatMessage, UserType};
use p2p::controller::LogicEvent;
use p2p::model::input_view_model::InputMode;
use p2p::model::log_view_model::LogLevel;
use p2p::model::message_view_model::{Message, UserType as ScreenUser};
use p2p::model::AutoScrollableViewModel;
use p2p::node::node_id::{LocalNodeId, SecretKey};
use p2p::time::Timestamp;
use p2p::model::ViewModelFmt;
use p2p::tui::{input_key_event, message_key_event, App, AppEvent, InputEvent, KeyCode, KeyInput};

fn press(code: KeyCode) -> KeyInput {
    KeyInput { code, is_press: true, control_only: false }
}

#[test]
fn chat_message_display() {
    let id = LocalNodeId::new(SecretKey::from_secret_bytes([4; 32]).public());
    let t = Timestamp { secs: 0, nanos: 0 };
    let m = ChatMessage::new(t, "hello".to_string(), UserType::User(id));
    let expected = format!("{} [1970-01-01T00:00:00+00:00] => hello", &id.to_hex()[..5]);
    assert_eq!(m.to_display_string(), expected);
    let s = ChatMessage::new(Timestamp { secs: 1, nanos: 500_000_000 }, "x".to_string(), UserType::System);
    assert_eq!(s.to_display_string(), "System [1970-01-01T00:00:01.500+00:00] => x");
    assert_eq!(UserType::System.display_text(), "System");
    assert!(!m.is_quit());
    assert!(ChatMessage::new(t, "quit".to_string(), UserType::System).is_quit());
    assert_eq!(m.get_content(), "hello");
    assert_eq!(m.get_time(), t);
    assert_eq!(*m.get_user(), UserType::User(id));
}

#[test]
fn input_line_keys() {
    let mut app = App::new();
    assert!(app.running);
    let vm = &mut app.view_model.input_vm;
    assert!(input_key_event(vm, &press(KeyCode::Char('x')), 0).is_none());
    assert_eq!(vm.input, "");
    assert!(matches!(input_key_event(vm, &press(KeyCode::Char('e')), 0), Some(AppEvent::Input(InputEvent::ChangeStatus))));
    assert_eq!(vm.input_mode, InputMode::Editing);
    input_key_event(vm, &press(KeyCode::Char('a')), 0);
    input_key_event(vm, &press(KeyCode::Char('c')), 0);
    input_key_event(vm, &press(KeyCode::Left), 0);
    input_key_event(vm, &press(KeyCode::Char('b')), 0);
    input_key_event(vm, &KeyInput { code: KeyCode::Char('z'), is_press: false, control_only: false }, 0);
    assert_eq!(vm.input, "abc");
    input_key_event(vm, &press(KeyCode::Right), 0);
    input_key_event(vm, &press(KeyCode::Backspace), 0);
    assert_eq!(vm.input, "ab");
    match input_key_event(vm, &press(KeyCode::Enter), 0) {
        Some(AppEvent::Input(InputEvent::MsgSending(m))) => {
            assert_eq!(m.get_content(), "ab");
            assert!(matches!(m.get_user(), ScreenUser::User(u) if u == "myself_id"));
        }
        _ => panic!("expected a message to send"),
    }
    assert_eq!(vm.input, "");
    input_key_event(vm, &press(KeyCode::Esc), 0);
    assert_eq!(vm.input_mode, InputMode::Normal);
    assert!(matches!(input_key_event(vm, &press(KeyCode::Char('q')), 0), Some(AppEvent::Quit)));
    assert!(matches!(input_key_event(vm, &press(KeyCode::Esc), 0), Some(AppEvent::Quit)));
    let ctrl_c = KeyInput { code: KeyCode::Char('c'), is_press: true, control_only: true };
    assert!(matches!(input_key_event(vm, &ctrl_c, 0), Some(AppEvent::Quit)));
    assert!(input_key_event(vm, &press(KeyCode::Char('c')), 0).is_none());
}

#[test]
fn message_list_keys_and_events() {
    let mut app = App::new();
    message_key_event(&mut app.view_model.message_vm, &press(KeyCode::Down));
    message_key_event(&mut app.view_model.message_vm, &press(KeyCode::Down));
    message_key_event(&mut app.view_model.message_vm, &press(KeyCode::Up));
    message_key_event(&mut app.view_model.message_vm, &KeyInput { code: KeyCode::Down, is_press: false, control_only: false });
    assert_eq!(app.view_model.message_vm.get_vertical_scroll(), 1);

    let t = Timestamp { secs: 0, nanos: 0 };
    app.handle_app_event(AppEvent::Input(InputEvent::MsgReceiving(Message::new(t, 0, "m".to_string(), ScreenUser::System, None))));
    app.handle_app_event(AppEvent::Input(InputEvent::ChangeStatus));
    assert_eq!(app.view_model.message_vm.get_inner_msgs().len(), 1);
    let ev = app.handle_key_events(&press(KeyCode::Char('e')));
    assert!(matches!(ev, Some(AppEvent::Input(InputEvent::ChangeStatus))));
    app.handle_key_events(&press(KeyCode::Char('h')));
    if let Some(ev) = app.handle_key_events(&press(KeyCode::Enter)) {
        app.handle_app_event(ev);
    }
    assert_eq!(app.view_model.message_vm.get_inner_msgs().len(), 2);
    assert_eq!(app.view_model.message_vm.get_inner_msgs()[1].get_content(), "h");
    app.tick();
    app.handle_app_event(AppEvent::Quit);
    assert!(!app.running);
}

#[test]
fn logic_events_to_input_events() {
    let e = InputEvent::from_logic(LogicEvent::PeerListUpdated(vec!["p".to_string()]));
    assert!(matches!(e, InputEvent::PeersUpdating(p) if p == vec!["p".to_string()]));
    let t = Timestamp { secs: 0, nanos: 0 };
    let e = InputEvent::from_logic(LogicEvent::NewMessageReceived(Message::new(t, 0, "m".to_string(), ScreenUser::System, None)));
    assert!(matches!(e, InputEvent::MsgReceiving(m) if m.get_content() == "m"));
    let _ = LogicEvent::Log(LogLevel::Info, "x".to_string());
}

#[test]
fn typed_lines_become_messages() {
    let id = LocalNodeId::new(SecretKey::from_secret_bytes([6; 32]).public());
    let t = Timestamp { secs: 0, nanos: 0 };
    let m = ChatMessage::from_input_line(t, "  hello world \n", id);
    assert_eq!(m.get_content(), "hello world");
    assert_eq!(*m.get_user(), UserType::User(id));
    assert!(ChatMessage::from_input_line(t, "quit\n", id).is_quit());
    assert_eq!(
        m.delivery_line(),
        format!("# MESSAGE: {} [1970-01-01T00:00:00+00:00] => hello world", &id.to_hex()[..5])
    );
}

#[test]
fn messages_of_the_screen_show_its_one_offset() {
    let mut app = App::new();
    assert!(app.offset_secs.abs() < 86_400);
    app.offset_secs = 3600;
    for c in ['e', 'h'] {
        app.handle_key_events(&press(KeyCode::Char(c)));
    }
    match app.handle_key_events(&press(KeyCode::Enter)) {
        Some(AppEvent::Input(InputEvent::MsgSending(m))) => {
            assert!(m.formart().0[0].ends_with("+01:00): h"));
            app.handle_app_event(AppEvent::Input(InputEvent::MsgSending(m)));
        }
        _ => panic!("expected a message to send"),
    }
    assert_eq!(app.offset_secs, 3600);
}
