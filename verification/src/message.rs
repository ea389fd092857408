//! One turn of the receive loop: from a message taken off the subscription to
//! the reply and where it goes. Receiving and publishing are the caller's.

use vstd::prelude::*;
use vstd::utf8::{decode_utf8, encode_utf8, valid_utf8};
use crate::dispatch::{dispatch, process_command};
use crate::text::{decode_lossy, lossy_text};

verus! {

/// The subject on which commands arrive.
pub const COMMAND_SUBJECT: &'static str = "api";

/// Where the reply to one message goes.
#[derive(Clone, Debug, PartialEq, Eq)]
pub enum Delivery {
    /// The message named a reply subject: `body` is published there.
    Publish { subject: String, body: Vec<u8> },
    /// The message named none: the reply is not sent.
    Unrequested,
}

/// One message, answered.
#[derive(Clone, Debug, PartialEq, Eq)]
pub struct Exchange {
    /// The command as text.
    pub command: String,
    /// The reply that the rules give.
    pub response: String,
    /// What to do with the reply.
    pub delivery: Delivery,
}

impl Exchange {
    /// Whether this exchange answers `command`, with `reply` as the subject
    /// that the message named for its answer.
    pub open spec fn answers(self, command: Seq<char>, reply: Option<String>) -> bool {
        &&& self.command@ == command
        &&& self.response@ == dispatch(command)
        &&& match reply {
            Some(to) => self.delivery matches Delivery::Publish { subject, body }
                && subject@ == to@ && body@ == encode_utf8(self.response@),
            None => self.delivery is Unrequested,
        }
    }
}

/// Answers a command that is already text. The reply goes to `reply` as the
/// bytes of its UTF-8 encoding, or nowhere if the message named no subject.
pub fn answer(command: String, reply: Option<String>) -> (exchange: Exchange)
    ensures
        exchange.answers(command@, reply),
        exchange.response@.len() > 0,
{
    let response = process_command(command.as_str());
    let delivery = match reply {
        Some(subject) => Delivery::Publish { subject, body: response.as_str().as_bytes_vec() },
        None => Delivery::Unrequested,
    };
    Exchange { command, response, delivery }
}

/// Answers one inbound message. The payload is read as UTF-8, lossily: no
/// payload is refused, and one that is valid UTF-8 is read as the text that
/// it encodes.
pub fn handle_message(payload: &[u8], reply: Option<String>) -> (exchange: Exchange)
    ensures
        exchange.answers(lossy_text(payload@), reply),
        valid_utf8(payload@) ==> exchange.answers(decode_utf8(payload@), reply),
        exchange.response@.len() > 0,
{
    answer(decode_lossy(payload), reply)
}

} // verus!
