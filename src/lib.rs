//! Verified core of a desktop assistant: the message model, the prompt
//! compiler, the plugin command registry, the token stream consumer and the
//! decisions of the tool-calling conversation loop.
use vstd::prelude::*;

pub mod text;
pub mod schema;
pub mod registry;
pub mod prompt;
pub mod stream;
pub mod session;
pub mod payloads;

verus! {

} // verus!
