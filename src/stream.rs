//! The stream consumer: folds the events of a generation stream into the
//! accumulated completion text, recognising the tool-call and end markers.
use vstd::prelude::*;

verus! {

/// One generated token: its text and whether it is a special token.
#[derive(Clone, Debug)]
pub struct TokenResponse {
    pub text: String,
    pub special: bool,
}

/// What the transport delivered.
#[derive(Clone, Debug)]
pub enum StreamEvent {
    /// A server-sent event: its type tag and, when its payload decoded, the
    /// token it carries.
    Message { kind: String, token: Option<TokenResponse> },
    /// The transport failed.
    TransportError,
}

/// What the consumer asks of its driver after an event.
#[derive(Clone, Debug)]
pub enum StreamAction {
    /// Forward the accumulated text to the presentation layer.
    Emit(String),
    /// Read the next event; nothing to forward.
    Skip,
    /// The stream has ended.
    Stop,
}

/// The model of a consumer.
pub struct ConsumerModel {
    /// The accumulated text.
    pub text: Seq<char>,
    /// The completion is a tool-call request.
    pub tool_mode: bool,
    /// A token has been received.
    pub started: bool,
    /// The stream has ended.
    pub done: bool,
}

/// The state of one generation stream.
pub struct StreamConsumer {
    text: String,
    tool_mode: bool,
    started: bool,
    done: bool,
}

impl View for StreamConsumer {
    type V = ConsumerModel;

    closed spec fn view(&self) -> ConsumerModel {
        ConsumerModel {
            text: self.text@,
            tool_mode: self.tool_mode,
            started: self.started,
            done: self.done,
        }
    }
}

/// The model of a consumer that has ended.
pub open spec fn ended(s: ConsumerModel) -> ConsumerModel {
    ConsumerModel { done: true, ..s }
}

/// The token an event carries, if it is a decoded "generating" event.
pub open spec fn generated_token(e: StreamEvent) -> Option<TokenResponse> {
    match e {
        StreamEvent::Message { kind, token } => if kind@ == "generating"@ {
            token
        } else {
            None
        },
        StreamEvent::TransportError => None,
    }
}

/// The token opens a tool-call request: the special tool-call marker as
/// the first token.
pub open spec fn opens_tool_call(s: ConsumerModel, t: TokenResponse) -> bool {
    !s.started && t.special && t.text@ == "[TOOL_CALLS]"@
}

/// The token is the special end-of-sequence marker.
pub open spec fn is_end_marker(t: TokenResponse) -> bool {
    t.special && t.text@ == "</s>"@
}

/// The consumer after an event. Once ended it stays as it is. An event
/// that is not a decoded "generating" event, or a transport error, ends
/// it. Otherwise the tool-call marker as first token switches to tool-call
/// mode, the end marker ends the stream, and any other token is appended.
pub open spec fn next_state(s: ConsumerModel, e: StreamEvent) -> ConsumerModel {
    if s.done {
        s
    } else {
        match generated_token(e) {
            None => ended(s),
            Some(t) => if opens_tool_call(s, t) {
                ConsumerModel { tool_mode: true, started: true, ..s }
            } else if is_end_marker(t) {
                ConsumerModel { started: true, done: true, ..s }
            } else {
                ConsumerModel { text: s.text + t.text@, started: true, ..s }
            },
        }
    }
}

/// The event appends a token that is forwarded: outside tool-call mode.
pub open spec fn forwards(s: ConsumerModel, e: StreamEvent) -> bool {
    &&& !s.done
    &&& !s.tool_mode
    &&& generated_token(e) matches Some(t) && !opens_tool_call(s, t) && !is_end_marker(t)
}

impl StreamConsumer {
    /// A consumer at the start of a stream.
    pub fn new() -> (r: Self)
        ensures
            r@.text.len() == 0,
            !r@.tool_mode,
            !r@.started,
            !r@.done,
    {
        StreamConsumer { text: String::new(), tool_mode: false, started: false, done: false }
    }

    /// The accumulated text.
    pub fn text(&self) -> (r: String)
        ensures
            r@ == self@.text,
    {
        self.text.clone()
    }

    /// Whether the completion is a tool-call request.
    pub fn is_tool_call(&self) -> (r: bool)
        ensures
            r == self@.tool_mode,
    {
        self.tool_mode
    }

    /// Whether the stream has ended.
    pub fn is_done(&self) -> (r: bool)
        ensures
            r == self@.done,
    {
        self.done
    }

    /// Takes in one event of the stream.
    pub fn step(&mut self, event: StreamEvent) -> (r: StreamAction)
        ensures
            final(self)@ == next_state(old(self)@, event),
            r is Stop <==> final(self)@.done,
            r is Emit <==> forwards(old(self)@, event),
            r matches StreamAction::Emit(t) ==> t@ == final(self)@.text,
    {
        if self.done {
            return StreamAction::Stop;
        }
        let token = match event {
            StreamEvent::Message { kind, token } => {
                if kind == String::from_str("generating") {
                    token
                } else {
                    None
                }
            },
            StreamEvent::TransportError => None,
        };
        match token {
            None => {
                self.done = true;
                StreamAction::Stop
            },
            Some(t) => {
                if !self.started && t.special && t.text == String::from_str("[TOOL_CALLS]") {
                    self.tool_mode = true;
                    self.started = true;
                    StreamAction::Skip
                } else if t.special && t.text == String::from_str("</s>") {
                    self.started = true;
                    self.done = true;
                    StreamAction::Stop
                } else {
                    self.started = true;
                    self.text.append(t.text.as_str());
                    if self.tool_mode {
                        StreamAction::Skip
                    } else {
                        StreamAction::Emit(self.text.clone())
                    }
                }
            },
        }
    }
}

} // verus!
