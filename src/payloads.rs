//! Values exchanged with the generation backend, the presentation layer and
//! the settings store.
use vstd::prelude::*;
use crate::text::{join, json_quote, json_string_of};

verus! {

/// The body of the request that starts a generation: the prompt in a
/// one-element `data` list.
#[derive(Clone, Debug)]
pub struct ReqestEventID {
    pub data: Vec<String>,
}

/// The JSON body `{"data":[..]}` for the given strings.
pub open spec fn request_json(data: Seq<String>) -> Seq<char> {
    "{\"data\":["@ + join(data.map_values(|s: String| json_string_of(s@)), ","@) + "]}"@
}

impl ReqestEventID {
    /// The request for a prompt.
    pub fn new(prompt: String) -> (r: Self)
        ensures
            r.data@ == seq![prompt],
    {
        let mut data: Vec<String> = Vec::new();
        data.push(prompt);
        assert(data@ =~= seq![prompt]);
        ReqestEventID { data }
    }

    /// The request's JSON body.
    pub fn to_json(&self) -> (r: String)
        ensures
            r@ == request_json(self.data@),
    {
        let mut out = String::from_str("{\"data\":[");
        let mut i: usize = 0;
        while i < self.data.len()
            invariant
                i <= self.data.len(),
                out@ == "{\"data\":["@ + join(
                    self.data@.subrange(0, i as int).map_values(|s: String| json_string_of(s@)),
                    ","@,
                ),
            decreases self.data.len() - i,
        {
            let ghost prev = self.data@.subrange(0, i as int).map_values(
                |s: String| json_string_of(s@),
            );
            if i > 0 {
                out.append(",");
            }
            let q = json_quote(self.data[i].as_str());
            out.append(q.as_str());
            proof {
                let post = self.data@.subrange(0, i + 1).map_values(|s: String| json_string_of(s@));
                assert(post.drop_last() =~= prev);
                assert(out@ =~= "{\"data\":["@ + join(post, ","@));
            }
            i = i + 1;
        }
        assert(self.data@.subrange(0, i as int) =~= self.data@);
        out.append("]}");
        out
    }
}

/// The backend's answer to a generation request: the identifier of the
/// event stream to open.
#[derive(Clone, Debug)]
pub struct ResponseEventID {
    pub event_id: String,
}

/// The address of the event stream for a generation: the endpoint, a slash
/// and the event identifier.
pub fn stream_url(endpoint: &str, event_id: &str) -> (r: String)
    ensures
        r@ == endpoint@ + "/"@ + event_id@,
{
    let mut out = String::from_str(endpoint);
    out.append("/");
    out.append(event_id);
    out
}

/// The incremental update sent to the presentation layer: the text so far
/// and the identifier of the turn.
#[derive(Clone, Debug)]
pub struct MessageEventPayload {
    pub data: String,
    pub uuid: String,
}

impl MessageEventPayload {
    /// The update carrying `data` for turn `uuid`.
    pub fn new(data: String, uuid: String) -> (r: Self)
        ensures
            r.data == data,
            r.uuid == uuid,
    {
        MessageEventPayload { data, uuid }
    }
}

/// The arguments and working directory of a second launch of the program.
#[derive(Clone, Debug)]
pub struct NewInstancePayload {
    pub args: Vec<String>,
    pub cwd: String,
}

/// The user's settings.
#[derive(Clone, Copy, Debug, PartialEq, Eq, Structural)]
pub struct ConfigFile {
    pub run_on_startup: bool,
    pub save_on_close: bool,
}

impl ConfigFile {
    /// Whether closing the window labelled `label` resets the conversation:
    /// the main window, with saving on close set.
    pub fn clears_history_on_close(&self, label: &str) -> (r: bool)
        ensures
            r == (self.save_on_close && label@ == "main"@),
    {
        self.save_on_close && String::from_str(label) == String::from_str("main")
    }
}

} // verus!
