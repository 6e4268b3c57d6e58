//! The conversation session: owns the history and takes the decisions of
//! the generate, dispatch-tools, regenerate loop that its driver runs.
use vstd::prelude::*;
use crate::prompt::{
    copy_opt, prompt_text, starts_with_rules, system_prompt_text, SystemMessage, tokenize_messages, AssistantMessage, MessageType, ToolCall, ToolResponse, UserMessage,
};
use crate::registry::InvokeError;
use crate::stream::StreamConsumer;
use crate::text::{join, json_quote, json_string_of, push_char, texts};

verus! {

/// Relies on `rand::Rng::gen_range` over `0..bound` on the thread-local
/// generator: a number below `bound`. The range must not be empty.
#[verifier::external_body]
fn random_below(bound: u8) -> (r: u8)
    requires
        bound > 0,
    ensures
        r < bound,
{
    rand::Rng::gen_range(&mut rand::thread_rng(), 0..bound)
}

/// A character of a generated identifier: a digit or a lowercase ASCII letter.
pub open spec fn is_call_id_char(c: char) -> bool {
    ('0' <= c && c <= '9') || ('a' <= c && c <= 'z')
}

/// The identifier character for a number below 36: digits, then letters.
pub open spec fn id_char_of(n: u8) -> char {
    if n < 10 {
        (48 + n) as char
    } else {
        (97 + (n - 10)) as char
    }
}

/// The identifier character for a number below 36: `0`-`9` then `a`-`z`.
pub fn id_char(n: u8) -> (r: char)
    requires
        n < 36,
    ensures
        r == id_char_of(n),
        is_call_id_char(r),
{
    if n < 10 {
        (48 + n) as char
    } else {
        (97 + (n - 10)) as char
    }
}

/// A random string of `len` digits and lowercase ASCII letters.
pub fn generate_random_string(len: usize) -> (r: String)
    ensures
        r@.len() == len,
        forall|i: int| 0 <= i < len ==> is_call_id_char(#[trigger] r@[i]),
{
    let mut out = String::new();
    let mut i: usize = 0;
    while i < len
        invariant
            i <= len,
            out@.len() == i,
            forall|j: int| 0 <= j < i ==> is_call_id_char(#[trigger] out@[j]),
        decreases len - i,
    {
        let n = random_below(36);
        let c = id_char(n);
        push_char(&mut out, c);
        i = i + 1;
    }
    out
}

/// A tool call the model requested: the command name, the JSON text of its
/// argument object and the identifier of the call.
#[derive(Clone, Debug)]
pub struct ToolCallFn {
    pub name: String,
    pub arguments: String,
    pub call_id: Option<String>,
}

impl ToolCallFn {
    /// A copy of the call.
    pub fn copy(&self) -> (r: Self)
        ensures
            r == *self,
    {
        ToolCallFn {
            name: self.name.clone(),
            arguments: self.arguments.clone(),
            call_id: copy_opt(&self.call_id),
        }
    }
}

/// The JSON object of a call: `{"name":..,"arguments":..,"call_id":..}`,
/// the identifier `null` when absent.
pub open spec fn call_json(c: ToolCallFn) -> Seq<char> {
    "{\"name\":"@ + json_string_of(c.name@) + ",\"arguments\":"@ + c.arguments@ + ",\"call_id\":"@
        + match c.call_id {
        Some(id) => json_string_of(id@),
        None => "null"@,
    } + "}"@
}

/// The JSON list of calls.
pub open spec fn calls_json(cs: Seq<ToolCallFn>) -> Seq<char> {
    "["@ + join(cs.map_values(|c: ToolCallFn| call_json(c)), ","@) + "]"@
}

/// The JSON object of one call.
fn call_json_text(c: &ToolCallFn) -> (r: String)
    ensures
        r@ == call_json(*c),
{
    let mut out = String::from_str("{\"name\":");
    let n = json_quote(c.name.as_str());
    out.append(n.as_str());
    out.append(",\"arguments\":");
    out.append(c.arguments.as_str());
    out.append(",\"call_id\":");
    match &c.call_id {
        Some(id) => {
            let q = json_quote(id.as_str());
            out.append(q.as_str());
        },
        None => {
            out.append("null");
        },
    }
    out.append("}");
    out
}

/// The JSON list of calls, as recorded in a ToolCall message.
pub fn calls_json_text(calls: &Vec<ToolCallFn>) -> (r: String)
    ensures
        r@ == calls_json(calls@),
{
    let mut out = String::from_str("[");
    let mut i: usize = 0;
    while i < calls.len()
        invariant
            i <= calls.len(),
            out@ == "["@ + join(
                calls@.subrange(0, i as int).map_values(|c: ToolCallFn| call_json(c)),
                ","@,
            ),
        decreases calls.len() - i,
    {
        let ghost prev = calls@.subrange(0, i as int).map_values(|c: ToolCallFn| call_json(c));
        if i > 0 {
            out.append(",");
        }
        let t = call_json_text(&calls[i]);
        out.append(t.as_str());
        proof {
            let post = calls@.subrange(0, i + 1).map_values(|c: ToolCallFn| call_json(c));
            assert(post.drop_last() =~= prev);
            assert(out@ =~= "["@ + join(post, ","@));
        }
        i = i + 1;
    }
    assert(calls@.subrange(0, i as int) =~= calls@);
    out.append("]");
    out
}

/// Where the first segment of `s` from position `i` on ends: at the first
/// blank line (two newlines in a row), else at the end.
pub open spec fn segment_end(s: Seq<char>, i: int) -> int
    decreases s.len() - i,
{
    if i < 0 || i + 1 >= s.len() {
        s.len() as int
    } else if s[i] == '\n' && s[i + 1] == '\n' {
        i
    } else {
        segment_end(s, i + 1)
    }
}

/// The text before the first blank line, or the whole text without one.
pub open spec fn first_segment(s: Seq<char>) -> Seq<char> {
    s.subrange(0, segment_end(s, 0))
}

/// The tool-call payload of a completion: the text before the first blank
/// line, where the model may have put trailing commentary.
pub fn tool_call_payload(text: &str) -> (r: String)
    ensures
        r@ == first_segment(text@),
{
    let cs = crate::text::chars_of(text);
    let n = cs.len();
    let mut i: usize = 0;
    let mut out = String::new();
    while n - i > 1 && !(cs[i] == '\n' && cs[i + 1] == '\n')
        invariant
            cs@ == text@,
            n == cs.len(),
            i <= n,
            segment_end(text@, 0) == segment_end(text@, i as int),
            out@ == text@.subrange(0, i as int),
        decreases n - i,
    {
        push_char(&mut out, cs[i]);
        assert(out@ =~= text@.subrange(0, i + 1));
        i = i + 1;
    }
    if n - i <= 1 {
        while i < n
            invariant
                cs@ == text@,
                n == cs.len(),
                i <= n,
                segment_end(text@, 0) == n,
                out@ == text@.subrange(0, i as int),
            decreases n - i,
        {
            push_char(&mut out, cs[i]);
            assert(out@ =~= text@.subrange(0, i + 1));
            i = i + 1;
        }
    }
    out
}

/// The call with an identifier: its own if it has one, else `id`.
pub open spec fn with_call_id(c: ToolCallFn, id: String) -> ToolCallFn {
    if c.call_id is Some {
        c
    } else {
        ToolCallFn { call_id: Some(id), ..c }
    }
}

/// Gives each call that lacks an identifier the identifier at its position
/// in `ids`; calls are kept in order.
pub fn assign_call_ids(calls: &Vec<ToolCallFn>, ids: &Vec<String>) -> (r: Vec<ToolCallFn>)
    requires
        ids.len() == calls.len(),
    ensures
        r@.len() == calls@.len(),
        forall|i: int| 0 <= i < calls@.len() ==> #[trigger] r@[i] == with_call_id(calls@[i], ids@[i]),
{
    let mut out: Vec<ToolCallFn> = Vec::new();
    let mut i: usize = 0;
    while i < calls.len()
        invariant
            i <= calls.len(),
            ids.len() == calls.len(),
            out@.len() == i,
            forall|j: int| 0 <= j < i ==> #[trigger] out@[j] == with_call_id(calls@[j], ids@[j]),
        decreases calls.len() - i,
    {
        let c = &calls[i];
        let next = match &c.call_id {
            Some(_) => c.copy(),
            None => ToolCallFn {
                name: c.name.clone(),
                arguments: c.arguments.clone(),
                call_id: Some(ids[i].clone()),
            },
        };
        out.push(next);
        i = i + 1;
    }
    out
}

/// A message as listed to the presentation layer.
#[derive(Clone, Debug)]
pub struct Message {
    pub is_user: bool,
    pub content: String,
}

/// The User and Assistant messages of a history, in order, as listed to
/// the presentation layer.
pub open spec fn visible_messages(ms: Seq<MessageType>) -> Seq<(bool, Seq<char>)>
    decreases ms.len(),
{
    if ms.len() == 0 {
        Seq::empty()
    } else {
        let rest = visible_messages(ms.drop_last());
        match ms.last() {
            MessageType::User(u) => rest.push((true, u.content@)),
            MessageType::Assistant(a) => rest.push((false, a.content@)),
            _ => rest,
        }
    }
}

/// The models of listed messages.
pub open spec fn message_views(ms: Seq<Message>) -> Seq<(bool, Seq<char>)> {
    ms.map_values(|m: Message| (m.is_user, m.content@))
}

/// Lists the User and Assistant messages of a history, in order.
pub fn get_messages(messages: &Vec<MessageType>) -> (r: Vec<Message>)
    ensures
        message_views(r@) == visible_messages(messages@),
{
    let mut out: Vec<Message> = Vec::new();
    let mut i: usize = 0;
    while i < messages.len()
        invariant
            i <= messages.len(),
            message_views(out@) == visible_messages(messages@.subrange(0, i as int)),
        decreases messages.len() - i,
    {
        let ghost prev = out@;
        proof {
            assert(messages@.subrange(0, i + 1).drop_last() =~= messages@.subrange(0, i as int));
        }
        match &messages[i] {
            MessageType::User(u) => {
                out.push(Message { is_user: true, content: u.content.clone() });
                assert(message_views(out@) =~= message_views(prev).push((true, u.content@)));
            },
            MessageType::Assistant(a) => {
                out.push(Message { is_user: false, content: a.content.clone() });
                assert(message_views(out@) =~= message_views(prev).push((false, a.content@)));
            },
            _ => {},
        }
        i = i + 1;
    }
    assert(messages@.subrange(0, i as int) =~= messages@);
    out
}

/// Why a tool-dispatch step did not go ahead.
#[derive(Clone, Copy, Debug, PartialEq, Eq, Structural)]
pub enum TurnError {
    /// The model's tool-call payload could not be parsed.
    ToolCallParse,
    /// The turn already dispatched tools as many times as allowed.
    ToolLoopExceeded,
}

/// How a stream ended.
#[derive(Clone, Debug)]
pub enum StreamEnd {
    /// A plain reply, now recorded in the history.
    Reply,
    /// A tool-call request, with the payload to parse.
    ToolCalls(String),
}

/// The JSON text recorded for the outcome of an invocation: the command's
/// result, or an error object.
pub open spec fn result_json(r: Result<String, InvokeError>) -> Seq<char> {
    match r {
        Ok(v) => v@,
        Err(InvokeError::CommandNotFound) => "{\"error\":\"command not found\"}"@,
        Err(InvokeError::MissingExport) => "{\"error\":\"missing export\"}"@,
        Err(InvokeError::InvalidArguments) => "{\"error\":\"invalid arguments\"}"@,
    }
}

/// The model of a session.
pub struct SessionModel {
    /// The conversation, in order.
    pub history: Seq<MessageType>,
    /// Tool dispatches made in the current turn.
    pub rounds: nat,
    /// Tool dispatches allowed in one turn.
    pub max_rounds: nat,
}

/// One conversation: its history and the tool-dispatch count of the
/// current turn.
pub struct Session {
    history: Vec<MessageType>,
    rounds: usize,
    max_rounds: usize,
}

impl View for Session {
    type V = SessionModel;

    closed spec fn view(&self) -> SessionModel {
        SessionModel {
            history: self.history@,
            rounds: self.rounds as nat,
            max_rounds: self.max_rounds as nat,
        }
    }
}

/// A copy of a history.
fn copy_history(v: &Vec<MessageType>) -> (r: Vec<MessageType>)
    ensures
        r@ == v@,
{
    let mut out: Vec<MessageType> = Vec::new();
    let mut i: usize = 0;
    while i < v.len()
        invariant
            i <= v.len(),
            out@ == v@.subrange(0, i as int),
        decreases v.len() - i,
    {
        out.push(v[i].copy());
        assert(out@ =~= v@.subrange(0, i + 1));
        i = i + 1;
    }
    assert(v@.subrange(0, i as int) =~= v@);
    out
}

impl Session {
    /// An empty session allowing `max_tool_rounds` tool dispatches per turn.
    pub fn new(max_tool_rounds: usize) -> (r: Self)
        ensures
            r@.history.len() == 0,
            r@.rounds == 0,
            r@.max_rounds == max_tool_rounds,
    {
        Session { history: Vec::new(), rounds: 0, max_rounds: max_tool_rounds }
    }

    /// The history.
    pub fn messages(&self) -> (r: &Vec<MessageType>)
        ensures
            r@ == self@.history,
    {
        &self.history
    }

    /// Clears the history.
    pub fn clear(&mut self)
        ensures
            final(self)@.history.len() == 0,
            final(self)@.rounds == 0,
            final(self)@.max_rounds == old(self)@.max_rounds,
    {
        self.history = Vec::new();
        self.rounds = 0;
    }

    /// The prompt for the history as it stands, the standing instructions
    /// put first.
    pub fn next_prompt(&self, schemas: &Vec<String>) -> (r: String)
        ensures
            starts_with_rules(self@.history) ==> r@ == prompt_text(self@.history, texts(schemas@)),
            !starts_with_rules(self@.history) ==> exists|s: SystemMessage|
                s.content@ == system_prompt_text() && r@ == prompt_text(
                    seq![MessageType::System(s)] + self@.history,
                    texts(schemas@),
                ),
    {
        let copy = copy_history(&self.history);
        tokenize_messages(copy, schemas)
    }

    /// Starts a turn: records the user's message and returns the prompt.
    pub fn new_message(&mut self, prompt: String, schemas: &Vec<String>) -> (r: String)
        ensures
            final(self)@.history == old(self)@.history.push(
                MessageType::User(UserMessage { content: prompt }),
            ),
            final(self)@.rounds == 0,
            final(self)@.max_rounds == old(self)@.max_rounds,
            starts_with_rules(final(self)@.history) ==> r@ == prompt_text(final(self)@.history, texts(schemas@)),
            !starts_with_rules(final(self)@.history) ==> exists|s: SystemMessage|
                s.content@ == system_prompt_text() && r@ == prompt_text(
                    seq![MessageType::System(s)] + final(self)@.history,
                    texts(schemas@),
                ),
    {
        self.history.push(MessageType::User(UserMessage { content: prompt }));
        self.rounds = 0;
        self.next_prompt(schemas)
    }

    /// Ends a stream: a plain completion is recorded as the assistant's
    /// reply; a tool-call completion leaves the history as it is and hands
    /// back its payload.
    pub fn finish_stream(&mut self, consumer: &StreamConsumer) -> (r: StreamEnd)
        ensures
            final(self)@.rounds == old(self)@.rounds,
            final(self)@.max_rounds == old(self)@.max_rounds,
            !consumer@.tool_mode ==> {
                &&& r is Reply
                &&& final(self)@.history.len() == old(self)@.history.len() + 1
                &&& final(self)@.history.drop_last() == old(self)@.history
                &&& final(self)@.history.last() matches MessageType::Assistant(a)
                    && a.content@ == consumer@.text
            },
            consumer@.tool_mode ==> {
                &&& final(self)@.history == old(self)@.history
                &&& r matches StreamEnd::ToolCalls(p) && p@ == first_segment(consumer@.text)
            },
    {
        let text = consumer.text();
        if !consumer.is_tool_call() {
            self.history.push(MessageType::Assistant(AssistantMessage { content: text }));
            assert(self.history@.drop_last() =~= old(self).history@);
            StreamEnd::Reply
        } else {
            StreamEnd::ToolCalls(tool_call_payload(text.as_str()))
        }
    }

    /// Starts a tool dispatch from the parsed payload. A payload that did
    /// not parse, or a turn that already used all its dispatches, leaves the
    /// session as it is. Otherwise each call lacking an identifier gets a
    /// fresh random one, the calls are recorded as one ToolCall message, and
    /// they are handed back in request order for invocation.
    pub fn begin_dispatch(&mut self, parsed: Option<Vec<ToolCallFn>>) -> (r: Result<
        Vec<ToolCallFn>,
        TurnError,
    >)
        ensures
            parsed is None ==> r == Err::<Vec<ToolCallFn>, TurnError>(TurnError::ToolCallParse)
                && final(self)@ == old(self)@,
            parsed is Some && old(self)@.rounds >= old(self)@.max_rounds ==> r == Err::<
                Vec<ToolCallFn>,
                TurnError,
            >(TurnError::ToolLoopExceeded) && final(self)@ == old(self)@,
            parsed is Some && old(self)@.rounds < old(self)@.max_rounds ==> {
                &&& r is Ok
                &&& r->Ok_0@.len() == parsed->Some_0@.len()
                &&& forall|i: int|
                    0 <= i < parsed->Some_0@.len() ==> dispatched_as(
                        #[trigger] parsed->Some_0@[i],
                        r->Ok_0@[i],
                    )
                &&& (final(self)@.history.last() matches MessageType::ToolCall(t) && t.content@
                    == calls_json(r->Ok_0@))
                &&& final(self)@.history.len() == old(self)@.history.len() + 1
                &&& final(self)@.history.drop_last() == old(self)@.history
                &&& final(self)@.rounds == old(self)@.rounds + 1
                &&& final(self)@.max_rounds == old(self)@.max_rounds
            },
    {
        let calls = match parsed {
            None => {
                return Err(TurnError::ToolCallParse);
            },
            Some(c) => c,
        };
        if self.rounds >= self.max_rounds {
            return Err(TurnError::ToolLoopExceeded);
        }
        let mut ids: Vec<String> = Vec::new();
        let mut i: usize = 0;
        while i < calls.len()
            invariant
                i <= calls.len(),
                ids@.len() == i,
                forall|j: int| 0 <= j < i ==> is_generated_id(#[trigger] ids@[j]@),
            decreases calls.len() - i,
        {
            ids.push(generate_random_string(9));
            i = i + 1;
        }
        let with_ids = assign_call_ids(&calls, &ids);
        let content = calls_json_text(&with_ids);
        self.history.push(MessageType::ToolCall(ToolCall { content }));
        self.rounds = self.rounds + 1;
        assert(self.history@.drop_last() =~= old(self).history@);
        assert forall|k: int| 0 <= k < calls@.len() implies dispatched_as(
            #[trigger] calls@[k],
            with_ids@[k],
        ) by {
            assert(with_ids@[k] == with_call_id(calls@[k], ids@[k]));
            assert(is_generated_id(ids@[k]@));
        }
        Ok(with_ids)
    }

    /// Records the outcome of one invocation as a ToolResponse message
    /// answering `call`.
    pub fn record_tool_result(&mut self, call: &ToolCallFn, result: Result<String, InvokeError>)
        ensures
            final(self)@.history.len() == old(self)@.history.len() + 1,
            final(self)@.history.drop_last() == old(self)@.history,
            final(self)@.history.last() matches MessageType::ToolResponse(t) && t.content@
                == result_json(result) && t.call_id == call.call_id,
            final(self)@.rounds == old(self)@.rounds,
            final(self)@.max_rounds == old(self)@.max_rounds,
    {
        let content = match result {
            Ok(v) => v,
            Err(InvokeError::CommandNotFound) => String::from_str(
                "{\"error\":\"command not found\"}",
            ),
            Err(InvokeError::MissingExport) => String::from_str("{\"error\":\"missing export\"}"),
            Err(InvokeError::InvalidArguments) => String::from_str(
                "{\"error\":\"invalid arguments\"}",
            ),
        };
        let call_id = copy_opt(&call.call_id);
        self.history.push(MessageType::ToolResponse(ToolResponse { content, call_id }));
        assert(self.history@.drop_last() =~= old(self).history@);
    }

    /// Records the outcomes of a dispatch: one ToolResponse message per call,
    /// in request order, each answering its call.
    pub fn record_tool_results(
        &mut self,
        calls: &Vec<ToolCallFn>,
        results: Vec<Result<String, InvokeError>>,
    )
        requires
            results.len() == calls.len(),
        ensures
            final(self)@.history.len() == old(self)@.history.len() + calls@.len(),
            final(self)@.history.subrange(0, old(self)@.history.len() as int)
                == old(self)@.history,
            forall|i: int|
                0 <= i < calls@.len() ==> answers(
                    #[trigger] final(self)@.history[old(self)@.history.len() + i],
                    calls@[i],
                    results@[i],
                ),
            final(self)@.rounds == old(self)@.rounds,
            final(self)@.max_rounds == old(self)@.max_rounds,
    {
        let ghost h0 = self.history@;
        let mut i: usize = 0;
        while i < calls.len()
            invariant
                i <= calls.len(),
                results.len() == calls.len(),
                self.history@.len() == h0.len() + i,
                self.history@.subrange(0, h0.len() as int) == h0,
                forall|j: int|
                    0 <= j < i ==> answers(#[trigger] self.history@[h0.len() + j], calls@[j], results@[j]),
                self.rounds == old(self).rounds,
                self.max_rounds == old(self).max_rounds,
                h0 == old(self).history@,
            decreases calls.len() - i,
        {
            let ghost prev = self.history@;
            let result = match &results[i] {
                Ok(v) => Ok(v.clone()),
                Err(e) => Err(*e),
            };
            self.record_tool_result(&calls[i], result);
            assert(self.history@.subrange(0, h0.len() as int) =~= prev.subrange(0, h0.len() as int));
            assert forall|j: int| 0 <= j < i + 1 implies answers(
                #[trigger] self.history@[h0.len() + j],
                calls@[j],
                results@[j],
            ) by {
                if j < i {
                    assert(self.history@[h0.len() + j] == prev[h0.len() + j]);
                }
            }
            i = i + 1;
        }
    }
}

/// `m` is the ToolResponse message recording `result` for `call`.
pub open spec fn answers(m: MessageType, call: ToolCallFn, result: Result<String, InvokeError>) -> bool {
    m matches MessageType::ToolResponse(t) && t.content@ == result_json(result) && t.call_id
        == call.call_id
}

/// An identifier the session generates: nine digits or lowercase letters.
pub open spec fn is_generated_id(id: Seq<char>) -> bool {
    id.len() == 9 && forall|i: int| 0 <= i < id.len() ==> is_call_id_char(#[trigger] id[i])
}

/// `d` is the call `c` as dispatched: same command and arguments, and its
/// own identifier, or a generated one where it had none.
pub open spec fn dispatched_as(c: ToolCallFn, d: ToolCallFn) -> bool {
    &&& d.name == c.name
    &&& d.arguments == c.arguments
    &&& c.call_id is Some ==> d.call_id == c.call_id
    &&& c.call_id is None ==> (d.call_id matches Some(id) && is_generated_id(id@))
}

} // verus!
