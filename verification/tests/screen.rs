use p2p::model::input_view_model::{InputMode, InputViewModel};
use p2p::model::log_view_model::{Log, LogLevel, LogViewModel};
use p2p::model::message_view_model::{Message, MessageViewModel, UserType};
use p2p::screen::{
    cursor_width, input_color, input_help, log_list_screen, log_screen_line, message_list_screen, message_screen,
    StyledSpan, TextColor,
};
use p2p::time::Timestamp;

fn sp(text: &str, color: Option<TextColor>, bold: bool) -> StyledSpan {
    StyledSpan { text: text.to_string(), color, bold }
}

#[test]
fn message_screen_lines_with_writer_and_route() {
    let f = (vec!["(T): hi".to_string(), "there".to_string()], Some(" [a -> b]".to_string()));
    let lines = message_screen("myself_id", &UserType::User("myself_id".to_string()), &f);
    assert_eq!(
        lines,
        vec![
            vec![sp("mysel", Some(TextColor::Cyan), false), sp("(T): hi", Some(TextColor::Gray), false)],
            vec![sp("there", Some(TextColor::Gray), false), sp(" [a -> b]", Some(TextColor::Green), false)],
        ]
    );
    let g = (vec!["x".to_string()], None);
    assert_eq!(
        message_screen("me", &UserType::User("other1".to_string()), &g),
        vec![vec![sp("other", Some(TextColor::Yellow), false), sp("x", Some(TextColor::Gray), false)]]
    );
    assert_eq!(
        message_screen("me", &UserType::System, &g),
        vec![vec![sp("SYSTEM", Some(TextColor::LightGreen), false), sp("x", Some(TextColor::Gray), false)]]
    );
    // five bytes of a non-ASCII id: "你" is three bytes, "a" and "b" one each
    assert_eq!(message_screen("me", &UserType::User("你abc".to_string()), &g)[0][0].text, "你ab");
}

#[test]
fn message_list_screen_lines() {
    let mut vm = MessageViewModel::new("me123".to_string());
    let t = Timestamp { secs: 0, nanos: 0 };
    vm.add_msg(Message::new(t, 0, "a\nb".to_string(), UserType::User("me123".to_string()), None));
    vm.add_msg(Message::new(t, 0, "c".to_string(), UserType::System, Some(vec!["r".to_string()])));
    let lines = message_list_screen(&vm);
    assert_eq!(lines.len(), 3);
    assert_eq!(lines[0][0], sp("me123", Some(TextColor::Cyan), false));
    assert!(lines[0][1].text.ends_with("): a"));
    assert_eq!(lines[1], vec![sp("b", Some(TextColor::Gray), false)]);
    assert_eq!(lines[2][0], sp("SYSTEM", Some(TextColor::LightGreen), false));
    assert_eq!(lines[2][2], sp(" [r]", Some(TextColor::Green), false));
}

#[test]
fn log_lines() {
    let l = Log::at(Timestamp { secs: 0, nanos: 0 }, 0, LogLevel::Error, "boom".to_string());
    assert_eq!(
        log_screen_line(&l),
        vec![
            sp("[", None, false),
            sp("1970-01-01T00:00:00Z", None, false),
            sp(" ", None, false),
            sp("ERROR", Some(TextColor::Red), true),
            sp("]", None, false),
            sp(" ", None, false),
            sp("boom", None, false),
        ]
    );
    let mut vm = LogViewModel::default();
    vm.add_log(l);
    vm.add_log(Log::at(Timestamp { secs: 0, nanos: 0 }, 0, LogLevel::Debug, "d".to_string()));
    let lines = log_list_screen(&vm);
    assert_eq!(lines.len(), 2);
    assert_eq!(lines[1][3], sp("DEBUG", Some(TextColor::Blue), true));
}

#[test]
fn input_line_title_and_cursor() {
    assert_eq!(
        input_help(InputMode::Normal),
        vec![
            sp("Press ", None, false),
            sp("q", Some(TextColor::Red), true),
            sp(" to exit, ", None, false),
            sp("e", Some(TextColor::Green), true),
            sp(" to start editing.", None, false),
        ]
    );
    assert_eq!(input_help(InputMode::Editing)[3], sp("Enter", Some(TextColor::Green), true));
    assert_eq!(input_color(InputMode::Normal), TextColor::Gray);
    assert_eq!(input_color(InputMode::Editing), TextColor::Blue);
    let mut ivm = InputViewModel::new("me".to_string());
    for c in "a你b".chars() {
        ivm.enter_char(c);
    }
    assert_eq!(cursor_width(&ivm), 4);
    ivm.move_cursor_left();
    assert_eq!(cursor_width(&ivm), 3);
    ivm.reset_cursor();
    assert_eq!(cursor_width(&ivm), 0);
}
