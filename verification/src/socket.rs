//! What a socket connection decides: how to read a message from the client, and how to close
//! the connection when the handler is done.

use vstd::prelude::*;
use vstd::string::*;
use crate::error::{socket_error_text, SocketError};
use crate::request::BodyFormat;

verus! {

/// The kinds of WebSockets message.
#[derive(Clone, Copy, Debug, PartialEq, Eq, Structural)]
pub enum MessageKind {
    Binary,
    Text,
    Ping,
    Pong,
    Close,
}

/// How to read a message from the client: binary messages in the binary serialization, text
/// messages as JSON; any other kind is not a message the handler reads.
pub fn incoming_format<E>(kind: MessageKind) -> (r: Result<BodyFormat, SocketError<E>>)
    ensures
        match kind {
            MessageKind::Binary => r == Ok::<BodyFormat, SocketError<E>>(BodyFormat::Binary),
            MessageKind::Text => r == Ok::<BodyFormat, SocketError<E>>(BodyFormat::Json),
            _ => r matches Err(SocketError::UnsupportedMessageType),
        },
{
    match kind {
        MessageKind::Binary => Ok(BodyFormat::Binary),
        MessageKind::Text => Ok(BodyFormat::Json),
        _ => Err(SocketError::UnsupportedMessageType),
    }
}

/// The close code of a connection that ends in an error (the WebSockets "internal error").
pub open spec fn error_close_code() -> u16 {
    1011
}

/// The close frame sent when a socket handler is done: none when it succeeded, else the
/// error's close code and its text (`app` is the text of an application-specific error).
pub fn close_frame<E>(res: &Result<(), SocketError<E>>, app: &str) -> (r: Option<(u16, String)>)
    ensures
        match res {
            Ok(()) => r is None,
            Err(e) => r matches Some((code, reason)) && code == error_close_code() && reason@
                == socket_error_text(*e, app@),
        },
{
    match res {
        Ok(()) => None,
        Err(e) => Some((1011, e.message(app))),
    }
}

} // verus!
