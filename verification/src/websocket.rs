use vstd::prelude::*;

verus! {

/// The text a client sends to ask for the radar data.
pub const REQUEST_INFO: &'static str = "requestInfo";

/// A message received from a websocket client.
#[derive(Debug, Clone, PartialEq, Eq)]
pub enum ClientMessage {
    Text(String),
    Close,
    /// Any other kind of message (binary, ping, pong, frame).
    Other,
}

/// What the server does about a message.
#[derive(Debug, Clone, Copy, PartialEq, Eq, Structural)]
pub enum Reply {
    /// Close the connection.
    Close,
    /// Send the current radar data as JSON text (or the text "error" if it
    /// cannot be serialized).
    SendRadarData,
    /// Nothing.
    Ignore,
}

/// The radar data is asked for with the text "requestInfo".
pub proof fn lemma_request_text()
    ensures
        REQUEST_INFO@ == "requestInfo"@,
{
}

/// A close message closes the connection; the text "requestInfo" asks for
/// the radar data; anything else is ignored.
pub fn reply_to(msg: &ClientMessage) -> (r: Reply)
    ensures
        *msg == ClientMessage::Close ==> r == Reply::Close,
        msg matches ClientMessage::Text(s) ==> (r == if s@ == REQUEST_INFO@ {
            Reply::SendRadarData
        } else {
            Reply::Ignore
        }),
        *msg == ClientMessage::Other ==> r == Reply::Ignore,
{
    match msg {
        ClientMessage::Close => Reply::Close,
        ClientMessage::Text(s) => {
            let request = String::from_str(REQUEST_INFO);
            if *s == request {
                Reply::SendRadarData
            } else {
                Reply::Ignore
            }
        },
        ClientMessage::Other => Reply::Ignore,
    }
}

} // verus!
