use p2p::gpt::common::{GptMessageToSends, HISTORY_LIMIT};
use p2p::gpt::deepseek_v3::{stream_chunk_words, stream_text_words, words_of_event, ChatCache, DeepSeekV3, SseChunkFields};
use p2p::gpt::render::{checkbox_mark, get_indent, normalize_text, MarkColor, NodeKind, RenderState};

fn pairs(h: &GptMessageToSends) -> Vec<(String, String)> {
    h.messages().iter().map(|m| (m.role().to_string(), m.content().to_string())).collect()
}

#[test]
fn history_keeps_order_and_roles() {
    let mut h = GptMessageToSends::default();
    h.add_system_msg("s".to_string());
    h.add_user_msg("u".to_string());
    h.add_assistant_msg("a".to_string());
    assert_eq!(
        pairs(&h),
        vec![
            ("system".to_string(), "s".to_string()),
            ("user".to_string(), "u".to_string()),
            ("assistant".to_string(), "a".to_string())
        ]
    );
    assert_eq!(pairs(&h.copy()), pairs(&h));
}

#[test]
fn history_is_bounded() {
    let mut h = GptMessageToSends::default();
    for i in 0..(HISTORY_LIMIT + 1) {
        h.add_user_msg(format!("{i}"));
    }
    assert_eq!(h.messages().len(), HISTORY_LIMIT + 1);
    h.add_user_msg("new".to_string());
    assert_eq!(h.messages().len(), HISTORY_LIMIT + 1);
    assert_eq!(h.messages()[0].content(), "1");
    assert_eq!(h.messages()[HISTORY_LIMIT].content(), "new");
}

#[test]
fn chat_cache_conversations() {
    let mut c = ChatCache::new();
    assert!(c.history("bob").is_none());
    let body = c.prepare_chat("bob", "hi".to_string());
    assert_eq!(
        pairs(&body),
        vec![
            ("system".to_string(), "你个一个聊天机器人，不使用markdown格式".to_string()),
            ("user".to_string(), "hi".to_string())
        ]
    );
    c.record_reply("bob", "hello".to_string());
    c.record_reply("nobody", "x".to_string());
    assert!(c.history("nobody").is_none());
    let body = c.prepare_chat("bob", "again".to_string());
    assert_eq!(body.messages().len(), 4);
    assert_eq!(body.messages()[2].role(), "assistant");
    assert_eq!(body.messages()[3].content(), "again");
    assert_eq!(pairs(&c.history("bob").unwrap()), pairs(&body));
}

#[test]
fn deepseek_settings() {
    let d = DeepSeekV3::new("tok".to_string(), "http://x".to_string(), "m".to_string());
    assert_eq!((d.token(), d.url(), d.model()), ("tok", "http://x", "m"));
}

#[test]
fn event_words_content_and_finish() {
    let f = SseChunkFields { content: Some("Hi".to_string()), finish_reason_is_null: true, finish_reason: None, total_tokens: None };
    assert_eq!(words_of_event(&f), Some(vec!["Hi".to_string()]));
    let f = SseChunkFields {
        content: Some("".to_string()),
        finish_reason_is_null: false,
        finish_reason: Some("stop".to_string()),
        total_tokens: Some(293),
    };
    assert_eq!(
        words_of_event(&f),
        Some(vec!["".to_string(), "\n".to_string(), "[ finish: stop, total token: 293 ]".to_string()])
    );
    let f = SseChunkFields { content: None, finish_reason_is_null: false, finish_reason: None, total_tokens: Some(1) };
    assert_eq!(words_of_event(&f), None);
}

#[test]
fn stream_text_reading() {
    let text = "data: {\"choices\":[{\"delta\":{\"content\":\"你\"},\"finish_reason\":null}]}\n\
                \n\
                : keep-alive\n\
                data: {\"choices\":[{\"delta\":{\"content\":\"好\"},\"finish_reason\":null}]}\r\n\
                data: not json\n\
                data: {\"choices\":[{\"delta\":{\"content\":\"\"},\"finish_reason\":\"stop\"}],\"usage\":{\"total_tokens\":12}}\n\
                data: [DONE]\n";
    assert_eq!(
        stream_text_words(text),
        Some(vec![
            "你".to_string(),
            "好".to_string(),
            "".to_string(),
            "\n".to_string(),
            "[ finish: stop, total token: 12 ]".to_string()
        ])
    );
    let broken = "data: {\"choices\":[{\"delta\":{},\"finish_reason\":\"stop\"}]}\n";
    assert_eq!(stream_text_words(broken), None);
    assert_eq!(stream_text_words(""), Some(vec![]));
}

#[test]
fn stream_chunk_reading() {
    let chunk = "data: {\"choices\":[{\"delta\":{\"content\":\"ok\"},\"finish_reason\":null}]}\n".as_bytes();
    assert_eq!(stream_chunk_words(chunk), Some(vec!["ok".to_string()]));
    assert_eq!(stream_chunk_words(&[0xff, b'\n']), Some(vec![]));
}

#[test]
fn markdown_test() {
    let text = r#"## Hello world"#;
    let ast = markdown::to_mdast(text, &markdown::ParseOptions::gfm()).unwrap();
    let json: serde_json::Value = serde_json::from_str(&serde_json::to_string(&ast).unwrap()).unwrap();
    assert_eq!(NodeKind::of(json["type"].as_str()), NodeKind::Root);
    let heading = &json["children"][0];
    assert_eq!(NodeKind::of(heading["type"].as_str()), NodeKind::Heading);
    assert_eq!(NodeKind::of(heading["children"][0]["type"].as_str()), NodeKind::Text);
    assert_eq!(heading["children"][0]["value"].as_str(), Some("Hello world"));
    let cmds = render_markdown(&from_json(&json)).unwrap();
    assert_eq!(
        cmds,
        vec![TermCmd::SetStyle(TermStyle::Heading), print("Hello world"), TermCmd::Reset, print("\n")]
    );
}

#[test]
fn node_kinds() {
    assert_eq!(NodeKind::of(Some("paragraph")), NodeKind::Paragraph);
    assert_eq!(NodeKind::of(Some("list")), NodeKind::List);
    assert_eq!(NodeKind::of(Some("listItem")), NodeKind::ListItem);
    assert_eq!(NodeKind::of(Some("strong")), NodeKind::Strong);
    assert_eq!(NodeKind::of(Some("code")), NodeKind::Unsupported);
    assert_eq!(NodeKind::of(None), NodeKind::Unsupported);
}

#[test]
fn indentation_and_markers() {
    assert_eq!(get_indent(0), "");
    assert_eq!(get_indent(3), "      ");
    let mut r = RenderState::new();
    assert_eq!(r.list_item_marker(), ("\u{2022} ".to_string(), MarkColor::Cyan));
    r.begin_list(true);
    assert_eq!(r.list_item_marker(), (" 1. ".to_string(), MarkColor::Yellow));
    assert_eq!(r.paragraph_prefix(), "");
    r.begin_item_content();
    assert_eq!(r.indent(), "  ");
    r.begin_list(false);
    assert_eq!(r.list_item_marker(), ("\u{2022} ".to_string(), MarkColor::Cyan));
    r.end_list();
    for _ in 0..9 {
        r.list_item_marker();
    }
    assert_eq!(r.list_item_marker(), ("11. ".to_string(), MarkColor::Yellow));
    r.end_item_content();
    r.end_list();
    r.end_list();
    assert_eq!(r.paragraph_prefix(), "");
    r.begin_item_content();
    assert_eq!(r.paragraph_prefix(), "  ");
    assert_eq!(checkbox_mark(true), ("\u{f046}  ".to_string(), MarkColor::Green));
    assert_eq!(checkbox_mark(false), ("\u{f096}  ".to_string(), MarkColor::Red));
}

#[test]
fn text_normalization() {
    assert_eq!(normalize_text("  a \t b\n\nc  "), "a b c");
    assert_eq!(normalize_text(""), "");
    assert_eq!(normalize_text("   "), "");
    assert_eq!(normalize_text("黄金\u{3000}价格"), "黄金 价格");
}

use p2p::gpt::render::{md_count, render_markdown, render_node, MdNode, TermCmd, TermStyle};

fn md(t: &str, children: Vec<MdNode>) -> MdNode {
    MdNode { node_type: Some(t.to_string()), value: None, ordered: None, checked: None, children: Some(children) }
}

fn md_text(v: &str) -> MdNode {
    MdNode { node_type: Some("text".to_string()), value: Some(v.to_string()), ordered: None, checked: None, children: None }
}

fn print(s: &str) -> TermCmd<String> {
    TermCmd::Print(s.to_string())
}

fn from_json(v: &serde_json::Value) -> MdNode {
    MdNode {
        node_type: v["type"].as_str().map(str::to_string),
        value: v["value"].as_str().map(str::to_string),
        ordered: v["ordered"].as_bool(),
        checked: v["checked"].as_bool(),
        children: v["children"].as_array().map(|c| c.iter().map(from_json).collect()),
    }
}

#[test]
fn render_tree_commands() {
    let mut ordered = md(
        "list",
        vec![
            md("listItem", vec![md("paragraph", vec![md_text("a")])]),
            md("listItem", vec![md("paragraph", vec![md_text(" b ")])]),
        ],
    );
    ordered.ordered = Some(true);
    if let Some(items) = ordered.children.as_mut() {
        items[1].checked = Some(true);
    }
    let root = md("root", vec![md("heading", vec![md_text("Hello   world")]), ordered, md("code", vec![])]);
    assert_eq!(md_count(&root), Some(11));
    let cmds = render_markdown(&root).unwrap();
    assert_eq!(
        cmds,
        vec![
            TermCmd::SetStyle(TermStyle::Heading),
            print("Hello world"),
            TermCmd::Reset,
            print("\n"),
            print(""),
            TermCmd::SetStyle(TermStyle::Fg(MarkColor::Yellow)),
            print(" 1. "),
            TermCmd::Reset,
            print("a"),
            print("\n"),
            print(""),
            TermCmd::SetStyle(TermStyle::Fg(MarkColor::Yellow)),
            print(" 2. "),
            TermCmd::Reset,
            TermCmd::SetStyle(TermStyle::Fg(MarkColor::Green)),
            print("\u{f046}  "),
            TermCmd::Reset,
            print("b"),
            print("\n"),
            TermCmd::Unsupported(Some("code".to_string())),
        ]
    );
}

#[test]
fn render_nested_lists_and_paragraphs() {
    let inner = md("list", vec![md("listItem", vec![md("paragraph", vec![md_text("x")])])]);
    let root = md(
        "root",
        vec![
            md("paragraph", vec![md("strong", vec![md_text("bold")])]),
            md("list", vec![md("listItem", vec![md("paragraph", vec![md_text("y")]), inner])]),
        ],
    );
    let mut st = RenderState::new();
    let mut out = Vec::new();
    render_node(&root, &mut st, &mut out);
    assert_eq!(
        out,
        vec![
            print(""),
            TermCmd::SetStyle(TermStyle::Bold),
            print("bold"),
            TermCmd::Reset,
            print("\n"),
            print(""),
            TermCmd::SetStyle(TermStyle::Fg(MarkColor::Cyan)),
            print("\u{2022} "),
            TermCmd::Reset,
            print("y"),
            print("\n"),
            print("  "),
            TermCmd::SetStyle(TermStyle::Fg(MarkColor::Cyan)),
            print("\u{2022} "),
            TermCmd::Reset,
            print("x"),
            print("\n"),
        ]
    );
    assert_eq!(st.indent(), "");
    let untyped = MdNode { node_type: None, value: None, ordered: None, checked: None, children: None };
    assert_eq!(render_markdown(&untyped), Some(vec![TermCmd::Unsupported(None)]));
}

#[test]
fn render_parsed_markdown() {
    let ast = markdown::to_mdast("## Title\n\n1. one\n2. two\n", &markdown::ParseOptions::gfm()).unwrap();
    let json: serde_json::Value = serde_json::from_str(&serde_json::to_string(&ast).unwrap()).unwrap();
    let cmds = render_markdown(&from_json(&json)).unwrap();
    let printed: String = cmds
        .iter()
        .filter_map(|c| match c {
            TermCmd::Print(s) => Some(s.as_str()),
            _ => None,
        })
        .collect();
    assert_eq!(printed, "Title\n 1. one\n 2. two\n");
}
