use rasast::payloads::{stream_url, ConfigFile, MessageEventPayload, ReqestEventID};
use rasast::prompt::{MessageType, UserMessage};
use rasast::registry::InvokeError;
use rasast::session::{
    assign_call_ids, calls_json_text, generate_random_string, get_messages, id_char,
    tool_call_payload, Session, StreamEnd, ToolCallFn, TurnError,
};
use rasast::stream::{StreamConsumer, StreamEvent, TokenResponse};

fn tok(text: &str, special: bool) -> StreamEvent {
    StreamEvent::Message {
        kind: "generating".to_string(),
        token: Some(TokenResponse { text: text.to_string(), special }),
    }
}

fn consume(events: Vec<StreamEvent>) -> StreamConsumer {
    let mut c = StreamConsumer::new();
    for e in events {
        c.step(e);
    }
    c
}

fn call(name: &str, id: Option<&str>) -> ToolCallFn {
    ToolCallFn { name: name.to_string(), arguments: "{\"q\":1}".to_string(), call_id: id.map(|s| s.to_string()) }
}

fn is_generated(id: &str) -> bool {
    id.len() == 9 && id.chars().all(|c| c.is_ascii_digit() || c.is_ascii_lowercase())
}

#[test]
fn plain_reply_recorded_as_assistant() {
    let mut s = Session::new(3);
    let prompt = s.new_message("hello".to_string(), &Vec::new());
    assert!(prompt.ends_with("hello[/INST]"));
    let c = consume(vec![tok("Hi", false), tok(" there", false), tok("</s>", true)]);
    assert!(matches!(s.finish_stream(&c), StreamEnd::Reply));
    let listed = get_messages(s.messages());
    assert_eq!(listed.len(), 2);
    assert!(listed[0].is_user);
    assert_eq!(listed[0].content, "hello");
    assert!(!listed[1].is_user);
    assert_eq!(listed[1].content, "Hi there");
}

#[test]
fn tool_stream_hands_back_payload() {
    let mut s = Session::new(3);
    s.new_message("weather?".to_string(), &Vec::new());
    let c = consume(vec![tok("[TOOL_CALLS]", true), tok("[{\"name\":\"w\"}]\n\nnote", false), tok("</s>", true)]);
    match s.finish_stream(&c) {
        StreamEnd::ToolCalls(p) => assert_eq!(p, "[{\"name\":\"w\"}]"),
        StreamEnd::Reply => panic!("expected a tool-call request"),
    }
    assert_eq!(s.messages().len(), 1);
}

#[test]
fn parse_failure_appends_nothing() {
    let mut s = Session::new(3);
    s.new_message("x".to_string(), &Vec::new());
    assert_eq!(s.begin_dispatch(None).err(), Some(TurnError::ToolCallParse));
    assert_eq!(s.messages().len(), 1);
}

#[test]
fn dispatch_records_calls_and_results_in_order() {
    let mut s = Session::new(3);
    s.new_message("x".to_string(), &Vec::new());
    let calls = s.begin_dispatch(Some(vec![call("f", None), call("g", Some("given"))])).unwrap();
    assert_eq!(calls.len(), 2);
    assert_eq!(calls[0].name, "f");
    assert!(is_generated(calls[0].call_id.as_deref().unwrap()));
    assert_eq!(calls[1].call_id.as_deref(), Some("given"));
    s.record_tool_result(&calls[0], Ok("\"sunny\"".to_string()));
    s.record_tool_result(&calls[1], Err(InvokeError::CommandNotFound));
    let h = s.messages();
    assert_eq!(h.len(), 4);
    match &h[1] {
        MessageType::ToolCall(t) => assert_eq!(t.content, calls_json_text(&calls)),
        _ => panic!("expected the tool call"),
    }
    match &h[2] {
        MessageType::ToolResponse(r) => {
            assert_eq!(r.content, "\"sunny\"");
            assert_eq!(r.call_id, calls[0].call_id);
        }
        _ => panic!("expected a tool response"),
    }
    match &h[3] {
        MessageType::ToolResponse(r) => {
            assert_eq!(r.content, "{\"error\":\"command not found\"}");
            assert_eq!(r.call_id.as_deref(), Some("given"));
        }
        _ => panic!("expected a tool response"),
    }
    let next = s.next_prompt(&Vec::new());
    assert!(next.ends_with("[TOOL_RESULTS]{\"content\":{\"error\":\"command\u{2581}not\u{2581}found\"},\"call_id\":\"given\"}[/TOOL_RESULTS]"));
}

#[test]
fn missing_export_result_text() {
    let mut s = Session::new(1);
    s.record_tool_result(&call("f", None), Err(InvokeError::MissingExport));
    match &s.messages()[0] {
        MessageType::ToolResponse(r) => {
            assert_eq!(r.content, "{\"error\":\"missing export\"}");
            assert_eq!(r.call_id, None);
        }
        _ => panic!("expected a tool response"),
    }
}

#[test]
fn tool_loop_cap() {
    let mut s = Session::new(1);
    s.new_message("x".to_string(), &Vec::new());
    assert!(s.begin_dispatch(Some(vec![call("f", None)])).is_ok());
    assert_eq!(s.begin_dispatch(Some(vec![call("f", None)])).err(), Some(TurnError::ToolLoopExceeded));
    assert_eq!(s.messages().len(), 2);
    s.new_message("again".to_string(), &Vec::new());
    assert!(s.begin_dispatch(Some(Vec::new())).is_ok());
}

#[test]
fn zero_cap_refuses_dispatch() {
    let mut s = Session::new(0);
    assert_eq!(s.begin_dispatch(Some(vec![call("f", None)])).err(), Some(TurnError::ToolLoopExceeded));
    assert!(s.messages().is_empty());
}

#[test]
fn clear_resets_history() {
    let mut s = Session::new(2);
    s.new_message("x".to_string(), &Vec::new());
    s.clear();
    assert!(s.messages().is_empty());
    assert_eq!(s.next_prompt(&Vec::new()).matches("[INST]").count(), 0);
}

#[test]
fn listing_skips_tool_and_system_messages() {
    let h = vec![
        MessageType::User(UserMessage { content: "u".to_string() }),
        MessageType::ToolCall(rasast::prompt::ToolCall { content: "[]".to_string() }),
    ];
    let l = get_messages(&h);
    assert_eq!(l.len(), 1);
    assert_eq!(l[0].content, "u");
}

#[test]
fn payload_split_at_first_blank_line() {
    assert_eq!(tool_call_payload("[1]\n\n[2]\n\n[3]"), "[1]");
    assert_eq!(tool_call_payload("[1]\n[2]"), "[1]\n[2]");
    assert_eq!(tool_call_payload("\n\nrest"), "");
    assert_eq!(tool_call_payload("a\n\n\nb"), "a");
    assert_eq!(tool_call_payload(""), "");
}

#[test]
fn call_ids_kept_or_assigned() {
    let calls = vec![call("a", None), call("b", Some("keep"))];
    let ids = vec!["id1".to_string(), "id2".to_string()];
    let r = assign_call_ids(&calls, &ids);
    assert_eq!(r[0].call_id.as_deref(), Some("id1"));
    assert_eq!(r[1].call_id.as_deref(), Some("keep"));
    assert_eq!(r[1].name, "b");
}

#[test]
fn calls_json_exact() {
    let calls = vec![call("a", None), call("b", Some("x\"y"))];
    assert_eq!(
        calls_json_text(&calls),
        "[{\"name\":\"a\",\"arguments\":{\"q\":1},\"call_id\":null},{\"name\":\"b\",\"arguments\":{\"q\":1},\"call_id\":\"x\\\"y\"}]"
    );
    assert_eq!(calls_json_text(&Vec::new()), "[]");
}

#[test]
fn random_string_shape() {
    let s = generate_random_string(9);
    assert!(is_generated(&s));
    assert_eq!(generate_random_string(0), "");
    assert_eq!(generate_random_string(200).len(), 200);
}

#[test]
fn id_char_mapping() {
    assert_eq!(id_char(0), '0');
    assert_eq!(id_char(9), '9');
    assert_eq!(id_char(10), 'a');
    assert_eq!(id_char(35), 'z');
}

#[test]
fn request_body_json() {
    let r = ReqestEventID::new("say \"hi\"".to_string());
    assert_eq!(r.data, vec!["say \"hi\"".to_string()]);
    assert_eq!(r.to_json(), "{\"data\":[\"say \\\"hi\\\"\"]}");
}

#[test]
fn stream_address() {
    assert_eq!(stream_url("https://h/call/predict", "ev1"), "https://h/call/predict/ev1");
}

#[test]
fn message_event_payload_fields() {
    let m = MessageEventPayload::new("Hi".to_string(), "u-1".to_string());
    assert_eq!(m.data, "Hi");
    assert_eq!(m.uuid, "u-1");
}

#[test]
fn config_clears_only_main_window() {
    let c = ConfigFile { run_on_startup: false, save_on_close: true };
    assert!(c.clears_history_on_close("main"));
    assert!(!c.clears_history_on_close("settings"));
    let d = ConfigFile { run_on_startup: true, save_on_close: false };
    assert!(!d.clears_history_on_close("main"));
}

#[test]
fn results_recorded_in_request_order() {
    let mut s = Session::new(2);
    s.new_message("x".to_string(), &Vec::new());
    let calls = s.begin_dispatch(Some(vec![call("a", Some("1")), call("b", Some("2")), call("c", None)])).unwrap();
    s.record_tool_results(
        &calls,
        vec![Ok("10".to_string()), Err(InvokeError::InvalidArguments), Ok("30".to_string())],
    );
    let h = s.messages();
    assert_eq!(h.len(), 5);
    let expect = [("10", Some("1")), ("{\"error\":\"invalid arguments\"}", Some("2"))];
    for (k, (content, id)) in expect.iter().enumerate() {
        match &h[2 + k] {
            MessageType::ToolResponse(r) => {
                assert_eq!(r.content, *content);
                assert_eq!(r.call_id.as_deref(), *id);
            }
            _ => panic!("expected a tool response"),
        }
    }
    match &h[4] {
        MessageType::ToolResponse(r) => {
            assert_eq!(r.content, "30");
            assert_eq!(r.call_id, calls[2].call_id);
        }
        _ => panic!("expected a tool response"),
    }
}
