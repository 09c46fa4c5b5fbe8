//! Where the messages of a client come from.
use crate::message::{in_json, message_of, try_parse_message, ParseError, ServerMessage};
use vstd::prelude::*;

verus! {

/// What came from the client.
#[derive(Debug)]
pub enum Incoming {
    /// Nothing: no further message can be read.
    End,
    /// A text that holds no message. The client cannot be served any further.
    Malformed,
    /// A message, or one that is refused.
    Message(Result<ServerMessage<serde_json::Value>, ParseError>),
}

/// What the text of a message, or the lack of one, amounts to.
pub open spec fn amounts_to(text: Option<Seq<char>>, incoming: Incoming) -> bool {
    match text {
        None => incoming is End,
        Some(text) => match message_of(text) {
            None => incoming is Malformed,
            Some(message) => incoming matches Incoming::Message(m) && in_json(m) == message,
        },
    }
}

/// Tells what the text of a message, or the lack of one, amounts to.
pub fn receive(text: Option<String>) -> (incoming: Incoming)
    ensures
        amounts_to(
            match text {
                Some(s) => Some(s@),
                None => None,
            },
            incoming,
        ),
{
    match text {
        None => Incoming::End,
        Some(text) => match try_parse_message(text.as_str()) {
            None => Incoming::Malformed,
            Some(message) => Incoming::Message(message),
        },
    }
}

/// A source of messages.
pub trait MessageReader {
    /// The text of the next message, or `None` if there is none.
    fn read_message(&self) -> (text: Option<String>)
        default_ensures
            text is None,
    {
        None
    }

    /// The next message.
    fn parsed_message(&self) -> (incoming: Incoming)
        default_ensures
            exists|text: Option<String>| #[trigger]
                call_ensures(Self::read_message, (self,), text) && amounts_to(
                    match text {
                        Some(s) => Some(s@),
                        None => None,
                    },
                    incoming,
                ),
    {
        let text = self.read_message();
        receive(text)
    }
}

} // verus!
