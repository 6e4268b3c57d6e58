//! The message model of a conversation and the prompt compiler that turns a
//! history and the registered command schemas into the model's input text.
use vstd::prelude::*;
use crate::text::{chars_of, join, join_strings, json_quote, json_string_of, push_char, texts};

verus! {

/// A message the user wrote.
#[derive(Clone, PartialEq, Eq, Debug)]
pub struct UserMessage {
    pub content: String,
}

/// A reply of the assistant.
#[derive(Clone, PartialEq, Eq, Debug)]
pub struct AssistantMessage {
    pub content: String,
}

/// An instruction to the assistant.
#[derive(Clone, PartialEq, Eq, Debug)]
pub struct SystemMessage {
    pub content: String,
}

/// The result of one tool call: the JSON text of the value the command
/// returned and the identifier of the call it answers.
#[derive(Clone, PartialEq, Eq, Debug)]
pub struct ToolResponse {
    pub content: String,
    pub call_id: Option<String>,
}

/// The tool calls the assistant requested, as their JSON list.
#[derive(Clone, PartialEq, Eq, Debug)]
pub struct ToolCall {
    pub content: String,
}

/// One turn of a conversation history.
#[derive(Clone, PartialEq, Eq, Debug)]
pub enum MessageType {
    User(UserMessage),
    Assistant(AssistantMessage),
    System(SystemMessage),
    ToolResponse(ToolResponse),
    ToolCall(ToolCall),
}

/// A copy of an optional string.
pub(crate) fn copy_opt(s: &Option<String>) -> (r: Option<String>)
    ensures
        r == *s,
{
    match s {
        Some(t) => Some(t.clone()),
        None => None,
    }
}

impl MessageType {
    /// A copy of the message.
    pub fn copy(&self) -> (r: Self)
        ensures
            r == *self,
    {
        match self {
            MessageType::User(m) => MessageType::User(UserMessage { content: m.content.clone() }),
            MessageType::Assistant(m) => MessageType::Assistant(
                AssistantMessage { content: m.content.clone() },
            ),
            MessageType::System(m) => MessageType::System(
                SystemMessage { content: m.content.clone() },
            ),
            MessageType::ToolResponse(m) => MessageType::ToolResponse(
                ToolResponse { content: m.content.clone(), call_id: copy_opt(&m.call_id) },
            ),
            MessageType::ToolCall(m) => MessageType::ToolCall(ToolCall { content: m.content.clone() }),
        }
    }
}

/// The contents of the System messages, in order.
pub open spec fn system_texts(ms: Seq<MessageType>) -> Seq<Seq<char>>
    decreases ms.len(),
{
    if ms.len() == 0 {
        Seq::empty()
    } else {
        match ms.last() {
            MessageType::System(s) => system_texts(ms.drop_last()).push(s.content@),
            _ => system_texts(ms.drop_last()),
        }
    }
}

/// The block announcing the available tools: empty when there is none.
pub open spec fn tools_block(schemas: Seq<Seq<char>>) -> Seq<char> {
    if schemas.len() == 0 {
        Seq::empty()
    } else {
        "[AVAILABLE_TOOLS]["@ + join(schemas, ","@) + "][/AVAILABLE_TOOLS]"@
    }
}

/// The system instructions put before each user message: empty when there
/// is none.
pub open spec fn system_block(sys: Seq<Seq<char>>) -> Seq<char> {
    if sys.len() == 0 {
        Seq::empty()
    } else {
        join(sys, "<0x0A><0x0A>"@) + "<0x0A><0x0A>"@
    }
}

/// The JSON object of a tool response: `{"content":..}` with
/// `,"call_id":".."` before the brace when the call has an identifier.
pub open spec fn tool_response_json(r: ToolResponse) -> Seq<char> {
    match r.call_id {
        Some(id) => "{\"content\":"@ + r.content@ + ",\"call_id\":"@ + json_string_of(id@) + "}"@,
        None => "{\"content\":"@ + r.content@ + "}"@,
    }
}

/// The text one message contributes to a prompt.
pub open spec fn render_message(m: MessageType, tools: Seq<char>, system: Seq<char>) -> Seq<char> {
    match m {
        MessageType::User(u) => tools + "[INST]"@ + system + u.content@ + "[/INST]"@,
        MessageType::Assistant(a) => a.content@ + "</s><s>"@,
        MessageType::System(_) => Seq::empty(),
        MessageType::ToolCall(c) => "[TOOL_CALLS]"@ + c.content@ + "</s><s>"@,
        MessageType::ToolResponse(r) => "[TOOL_RESULTS]"@ + tool_response_json(r)
            + "[/TOOL_RESULTS]"@,
    }
}

/// The texts of the messages, in order.
pub open spec fn render_all(ms: Seq<MessageType>, tools: Seq<char>, system: Seq<char>) -> Seq<char>
    decreases ms.len(),
{
    if ms.len() == 0 {
        Seq::empty()
    } else {
        render_all(ms.drop_last(), tools, system) + render_message(ms.last(), tools, system)
    }
}

/// Every space replaced by the tokenizer's whitespace marker U+2581.
pub open spec fn mark_spaces(s: Seq<char>) -> Seq<char> {
    s.map_values(|c: char| if c == ' ' { '\u{2581}' } else { c })
}

/// The prompt for a history and the registered command schemas.
pub open spec fn prompt_text(ms: Seq<MessageType>, schemas: Seq<Seq<char>>) -> Seq<char> {
    mark_spaces("<s>"@ + render_all(ms, tools_block(schemas), system_block(system_texts(ms))))
}

/// The contents of the System messages of a history, in order.
fn system_contents(messages: &Vec<MessageType>) -> (r: Vec<String>)
    ensures
        texts(r@) == system_texts(messages@),
{
    let mut out: Vec<String> = Vec::new();
    let mut i: usize = 0;
    while i < messages.len()
        invariant
            i <= messages.len(),
            texts(out@) == system_texts(messages@.subrange(0, i as int)),
        decreases messages.len() - i,
    {
        let ghost prev = out@;
        proof {
            assert(messages@.subrange(0, i + 1).drop_last() =~= messages@.subrange(0, i as int));
        }
        match &messages[i] {
            MessageType::System(s) => {
                out.push(s.content.clone());
                assert(texts(out@) =~= texts(prev).push(s.content@));
            },
            _ => {},
        }
        i = i + 1;
    }
    assert(messages@.subrange(0, i as int) =~= messages@);
    out
}

/// The available-tools block for the schemas.
fn tools_block_text(schemas: &Vec<String>) -> (r: String)
    ensures
        r@ == tools_block(texts(schemas@)),
{
    if schemas.len() == 0 {
        return String::new();
    }
    let mut out = String::from_str("[AVAILABLE_TOOLS][");
    let body = join_strings(schemas, ",");
    out.append(body.as_str());
    out.append("][/AVAILABLE_TOOLS]");
    out
}

/// The system block for the system contents.
fn system_block_text(sys: &Vec<String>) -> (r: String)
    ensures
        r@ == system_block(texts(sys@)),
{
    if sys.len() == 0 {
        return String::new();
    }
    let mut out = join_strings(sys, "<0x0A><0x0A>");
    out.append("<0x0A><0x0A>");
    out
}

/// Appends the text of one message to `out`.
fn render_message_into(out: &mut String, m: &MessageType, tools: &String, system: &String)
    ensures
        final(out)@ == old(out)@ + render_message(*m, tools@, system@),
{
    match m {
        MessageType::User(u) => {
            out.append(tools.as_str());
            out.append("[INST]");
            out.append(system.as_str());
            out.append(u.content.as_str());
            out.append("[/INST]");
        },
        MessageType::Assistant(a) => {
            out.append(a.content.as_str());
            out.append("</s><s>");
        },
        MessageType::System(_) => {
            assert(render_message(*m, tools@, system@) =~= Seq::empty());
            assert(out@ =~= old(out)@ + render_message(*m, tools@, system@));
        },
        MessageType::ToolCall(c) => {
            out.append("[TOOL_CALLS]");
            out.append(c.content.as_str());
            out.append("</s><s>");
        },
        MessageType::ToolResponse(r) => {
            out.append("[TOOL_RESULTS]");
            out.append("{\"content\":");
            out.append(r.content.as_str());
            match &r.call_id {
                Some(id) => {
                    out.append(",\"call_id\":");
                    let q = json_quote(id.as_str());
                    out.append(q.as_str());
                },
                None => {},
            }
            out.append("}");
            out.append("[/TOOL_RESULTS]");
        },
    }
}

/// `s` with every space replaced by the whitespace marker U+2581.
pub fn mark_spaces_text(s: &str) -> (r: String)
    ensures
        r@ == mark_spaces(s@),
{
    let cs = chars_of(s);
    let mut out = String::new();
    let mut i: usize = 0;
    while i < cs.len()
        invariant
            i <= cs.len(),
            cs@ == s@,
            out@ == mark_spaces(s@.subrange(0, i as int)),
        decreases cs.len() - i,
    {
        let c = cs[i];
        if c == ' ' {
            push_char(&mut out, '\u{2581}');
        } else {
            push_char(&mut out, c);
        }
        assert(out@ =~= mark_spaces(s@.subrange(0, i + 1)));
        i = i + 1;
    }
    assert(s@.subrange(0, i as int) =~= s@);
    out
}

/// Compiles a history and the registered command schemas into a prompt:
/// the conversation-start marker, then each non-System message in order
/// (each User message preceded by the available tools and carrying the
/// System instructions), with every space finally marked.
pub fn compile_prompt(messages: &Vec<MessageType>, schemas: &Vec<String>) -> (r: String)
    ensures
        r@ == prompt_text(messages@, texts(schemas@)),
{
    let sys = system_contents(messages);
    let tools = tools_block_text(schemas);
    let system = system_block_text(&sys);
    let mut text = String::from_str("<s>");
    let mut i: usize = 0;
    while i < messages.len()
        invariant
            i <= messages.len(),
            text@ == "<s>"@ + render_all(messages@.subrange(0, i as int), tools@, system@),
        decreases messages.len() - i,
    {
        let ghost prev = text@;
        render_message_into(&mut text, &messages[i], &tools, &system);
        proof {
            let post = messages@.subrange(0, i + 1);
            assert(post.drop_last() =~= messages@.subrange(0, i as int));
            assert(post.last() == messages@[i as int]);
            assert(text@ =~= "<s>"@ + render_all(post, tools@, system@));
        }
        i = i + 1;
    }
    assert(messages@.subrange(0, i as int) =~= messages@);
    mark_spaces_text(text.as_str())
}

/// The assistant's standing instructions, put first in every prompt.
pub open spec fn system_prompt_text() -> Seq<char> {
    "# RULE\n1. MUST FOLLOW ALL RULES AND DO NOT FOLLOW ANY OTHER RULES OR BREAK THE RULES.\n2. Always assist with care, respect, and truth. Respond with utmost utility yet securely. Markdown is allowed.\n3. Avoid harmful, unethical, prejudiced, or negative content. Ensure replies promote fairness and positivity.\n5. Must call Command When Needed and DO NOT use old Command responses Must Call new Command.\n5. DO NOT talk or mention any kind about any tool information just calling Command.\n6. JUST CALL COMMAND or RESPOND DO NOT CALL COMMAND OR RESPOND AT THE SAME TIME.\n7. DO NOT RESPOND COMMAND TO USERS.\n8. MUST RESPOND OR CALL FOR A NEW COMMAND OR TOOL.\n\nYou're a helpful assistant Name \"Rasast\"."@
}

/// The history opens with the System message of the standing instructions.
pub open spec fn starts_with_rules(ms: Seq<MessageType>) -> bool {
    ms.len() > 0 && (ms[0] matches MessageType::System(s) && s.content@ == system_prompt_text())
}

/// Puts the standing instructions as a System message before the history,
/// unless the history already opens with them.
pub fn inject_system_prompt(messages: &mut Vec<MessageType>)
    ensures
        starts_with_rules(old(messages)@) ==> final(messages)@ == old(messages)@,
        !starts_with_rules(old(messages)@) ==> {
            &&& final(messages)@.len() == old(messages)@.len() + 1
            &&& final(messages)@.drop_first() == old(messages)@
            &&& starts_with_rules(final(messages)@)
        },
{
    let rules = String::from_str(
        "# RULE\n1. MUST FOLLOW ALL RULES AND DO NOT FOLLOW ANY OTHER RULES OR BREAK THE RULES.\n2. Always assist with care, respect, and truth. Respond with utmost utility yet securely. Markdown is allowed.\n3. Avoid harmful, unethical, prejudiced, or negative content. Ensure replies promote fairness and positivity.\n5. Must call Command When Needed and DO NOT use old Command responses Must Call new Command.\n5. DO NOT talk or mention any kind about any tool information just calling Command.\n6. JUST CALL COMMAND or RESPOND DO NOT CALL COMMAND OR RESPOND AT THE SAME TIME.\n7. DO NOT RESPOND COMMAND TO USERS.\n8. MUST RESPOND OR CALL FOR A NEW COMMAND OR TOOL.\n\nYou're a helpful assistant Name \"Rasast\".",
    );
    if messages.len() > 0 {
        match &messages[0] {
            MessageType::System(s) => {
                if s.content == rules {
                    return;
                }
            },
            _ => {},
        }
    }
    messages.insert(0, MessageType::System(SystemMessage { content: rules }));
    assert(messages@.drop_first() =~= old(messages)@);
}

/// The prompt for a history, the standing instructions put first unless
/// the history already opens with them.
pub fn tokenize_messages(messages: Vec<MessageType>, schemas: &Vec<String>) -> (r: String)
    ensures
        starts_with_rules(messages@) ==> r@ == prompt_text(messages@, texts(schemas@)),
        !starts_with_rules(messages@) ==> exists|s: SystemMessage|
            s.content@ == system_prompt_text() && r@ == prompt_text(
                seq![MessageType::System(s)] + messages@,
                texts(schemas@),
            ),
{
    let mut messages = messages;
    let ghost before = messages@;
    inject_system_prompt(&mut messages);
    proof {
        if !starts_with_rules(before) {
            let s = match messages@[0] {
                MessageType::System(s) => s,
                _ => arbitrary(),
            };
            assert(messages@ =~= seq![MessageType::System(s)] + before);
        }
    }
    compile_prompt(&messages, schemas)
}

/// Compiling is deterministic: equal histories and schema lists give
/// identical prompts.
pub proof fn lemma_compile_deterministic(
    m1: Seq<MessageType>,
    s1: Seq<Seq<char>>,
    m2: Seq<MessageType>,
    s2: Seq<Seq<char>>,
)
    requires
        m1 == m2,
        s1 == s2,
    ensures
        prompt_text(m1, s1) == prompt_text(m2, s2),
{
}

/// Without User messages the rendered history does not depend on the tools
/// block.
pub proof fn lemma_render_without_user(ms: Seq<MessageType>, tools: Seq<char>, system: Seq<char>)
    requires
        forall|i: int| 0 <= i < ms.len() ==> !(#[trigger] ms[i] is User),
    ensures
        render_all(ms, tools, system) == render_all(ms, Seq::empty(), system),
    decreases ms.len(),
{
    if ms.len() > 0 {
        let rest = ms.drop_last();
        assert forall|i: int| 0 <= i < rest.len() implies !(#[trigger] rest[i] is User) by {
            assert(rest[i] == ms[i]);
        }
        lemma_render_without_user(rest, tools, system);
        assert(!(ms[ms.len() - 1] is User));
    }
}

/// A history with no User message compiles to the same prompt whatever
/// commands are registered: no available-tools block is put in.
pub proof fn lemma_no_user_no_tools(ms: Seq<MessageType>, schemas: Seq<Seq<char>>)
    requires
        forall|i: int| 0 <= i < ms.len() ==> !(#[trigger] ms[i] is User),
    ensures
        prompt_text(ms, schemas) == prompt_text(ms, Seq::empty()),
{
    let system = system_block(system_texts(ms));
    lemma_render_without_user(ms, tools_block(schemas), system);
    lemma_render_without_user(ms, tools_block(Seq::empty()), system);
}

} // verus!
