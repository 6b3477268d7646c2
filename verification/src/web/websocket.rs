//! The relay from a websocket client to the game console.
use crate::infra::channel::{channel_send, disconnected_text, queued, ConsoleSender};
use vstd::prelude::*;

verus! {

/// What the client side of a websocket connection produced next.
pub enum ClientEvent {
    /// A message whose payload reads as text.
    Text(String),
    /// A message whose payload is not text.
    NotText,
    /// The connection broke.
    Failed,
    /// The client closed the stream.
    Closed,
}

/// What the relay does with the client event `event`: the text to hand to the
/// game console, if any, and whether to wait for the next event. Text is
/// forwarded, a message that is not text is skipped, and the relay ends when
/// the connection broke or was closed.
pub fn relay_step(event: ClientEvent) -> (r: (Option<String>, bool))
    ensures
        match event {
            ClientEvent::Text(t) => r.0 == Some(t) && r.1,
            ClientEvent::NotText => r.0 is None && r.1,
            _ => r.0 is None && !r.1,
        },
{
    match event {
        ClientEvent::Text(t) => (Some(t), true),
        ClientEvent::NotText => (None, true),
        ClientEvent::Failed => (None, false),
        ClientEvent::Closed => (None, false),
    }
}

/// Handles the next event of a client: the text that `relay_step` gives is
/// queued on `console`, a sending end of the game's console input, and the
/// outcome of that comes back for the caller to report (a console that is
/// gone does not end the relay). The first part of the result says whether
/// to wait for the next event: the relay ends when the connection broke or
/// was closed.
pub fn client_message(console: &mut ConsoleSender, event: ClientEvent) -> (r: (bool, Option<Result<(), String>>))
    ensures
        r.0 == (event is Text || event is NotText),
        match event {
            ClientEvent::Text(t) => r.1 matches Some(sent) && queued(*old(console), *final(console), t@, sent is Ok)
                && (sent matches Err(e) ==> e@ == disconnected_text()),
            _ => r.1 is None && *final(console) == *old(console),
        },
{
    let (line, go_on) = relay_step(event);
    match line {
        Some(txt) => (go_on, Some(channel_send(console, txt))),
        None => (go_on, None),
    }
}

} // verus!
