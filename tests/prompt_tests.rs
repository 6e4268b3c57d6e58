use rasast::prompt::{
    compile_prompt, inject_system_prompt, mark_spaces_text, tokenize_messages, AssistantMessage,
    MessageType, SystemMessage, ToolCall, ToolResponse, UserMessage,
};

fn user(s: &str) -> MessageType {
    MessageType::User(UserMessage { content: s.to_string() })
}

fn system(s: &str) -> MessageType {
    MessageType::System(SystemMessage { content: s.to_string() })
}

#[test]
fn single_user_message() {
    let p = compile_prompt(&vec![user("Hi there")], &Vec::new());
    assert_eq!(p, "<s>[INST]Hi\u{2581}there[/INST]");
}

#[test]
fn tools_and_system_before_user() {
    let p = compile_prompt(&vec![system("Be nice"), user("Hi")], &vec!["{}".to_string(), "[]".to_string()]);
    assert_eq!(
        p,
        "<s>[AVAILABLE_TOOLS][{},[]][/AVAILABLE_TOOLS][INST]Be\u{2581}nice<0x0A><0x0A>Hi[/INST]"
    );
}

#[test]
fn several_system_messages_joined() {
    let p = compile_prompt(&vec![system("A"), user("u"), system("B")], &Vec::new());
    assert_eq!(p, "<s>[INST]A<0x0A><0x0A>B<0x0A><0x0A>u[/INST]");
}

#[test]
fn full_conversation_rendering() {
    let history = vec![
        user("q"),
        MessageType::ToolCall(ToolCall { content: "[{\"name\":\"f\"}]".to_string() }),
        MessageType::ToolResponse(ToolResponse { content: "\"r\"".to_string(), call_id: Some("abc".to_string()) }),
        MessageType::ToolResponse(ToolResponse { content: "1".to_string(), call_id: None }),
        MessageType::Assistant(AssistantMessage { content: "a b".to_string() }),
    ];
    let p = compile_prompt(&history, &Vec::new());
    assert_eq!(
        p,
        "<s>[INST]q[/INST][TOOL_CALLS][{\"name\":\"f\"}]</s><s>[TOOL_RESULTS]{\"content\":\"r\",\"call_id\":\"abc\"}[/TOOL_RESULTS][TOOL_RESULTS]{\"content\":1}[/TOOL_RESULTS]a\u{2581}b</s><s>"
    );
}

#[test]
fn spaces_marked_in_schema_text_too() {
    let p = compile_prompt(&vec![user("x")], &vec!["{\"a\": 1}".to_string()]);
    assert_eq!(p, "<s>[AVAILABLE_TOOLS][{\"a\":\u{2581}1}][/AVAILABLE_TOOLS][INST]x[/INST]");
    assert!(!p.contains(' '));
}

#[test]
fn mark_spaces_exact() {
    assert_eq!(mark_spaces_text(" a  b "), "\u{2581}a\u{2581}\u{2581}b\u{2581}");
    assert_eq!(mark_spaces_text(""), "");
}

#[test]
fn compile_is_deterministic() {
    let h = vec![system("s"), user("hello world"), MessageType::Assistant(AssistantMessage { content: "ok".to_string() })];
    let tools = vec!["{\"name\": \"t\"}".to_string()];
    assert_eq!(compile_prompt(&h, &tools), compile_prompt(&h, &tools));
}

#[test]
fn no_user_no_tools_block() {
    let h = vec![system("s"), MessageType::Assistant(AssistantMessage { content: "hi".to_string() })];
    let p = compile_prompt(&h, &vec!["{}".to_string()]);
    assert_eq!(p, "<s>hi</s><s>");
    assert!(!p.contains("[AVAILABLE_TOOLS]"));
    assert_eq!(compile_prompt(&Vec::new(), &vec!["{}".to_string()]), "<s>");
}

#[test]
fn system_prompt_injected_first() {
    let mut h = vec![user("x")];
    inject_system_prompt(&mut h);
    assert_eq!(h.len(), 2);
    match &h[0] {
        MessageType::System(s) => assert!(s.content.starts_with("# RULE\n1. MUST FOLLOW")),
        _ => panic!("first message is not the system prompt"),
    }
    assert_eq!(h[1], user("x"));
}

#[test]
fn tokenize_puts_system_prompt_before_user() {
    let p = tokenize_messages(vec![user("hey")], &Vec::new());
    assert!(p.starts_with("<s>[INST]#\u{2581}RULE\n1."));
    assert!(p.ends_with("\"Rasast\".<0x0A><0x0A>hey[/INST]"));
}

#[test]
fn message_copy_is_equal() {
    let m = MessageType::ToolResponse(ToolResponse { content: "1".to_string(), call_id: Some("x".to_string()) });
    assert_eq!(m.copy(), m);
}

#[test]
fn system_prompt_not_injected_twice() {
    let mut h = vec![user("x")];
    inject_system_prompt(&mut h);
    let once = h.clone();
    inject_system_prompt(&mut h);
    assert_eq!(h, once);
    assert_eq!(tokenize_messages(once.clone(), &Vec::new()), tokenize_messages(vec![user("x")], &Vec::new()));
}

#[test]
fn other_leading_system_message_keeps_injection() {
    let mut h = vec![system("custom"), user("x")];
    inject_system_prompt(&mut h);
    assert_eq!(h.len(), 3);
    assert_eq!(h[1], system("custom"));
}
