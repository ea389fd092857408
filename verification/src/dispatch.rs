//! The command rules: a fixed, ordered list of string matches, the first of
//! which that applies decides the reply.

use vstd::prelude::*;
use vstd::utf8::{encode_utf8, encode_utf8_decode_utf8};
use crate::text::{
    all_white_space, lowercased, to_lowercase, trim, trimmed, trimmed_ignores_padding,
};

verus! {

/// The reply that the rules give for a command in its normalised form.
/// `shown` is the text quoted back when no rule applies.
pub open spec fn reply_for(normalized: Seq<char>, shown: Seq<char>) -> Seq<char> {
    if normalized == "hello from python!"@ {
        "Hello from Rust server! Command received."@
    } else if normalized == "ping"@ {
        "pong"@
    } else if normalized == "status"@ {
        "Server is running and ready to process commands"@
    } else if "echo "@.is_prefix_of(normalized) {
        "Echo: "@ + normalized.skip(5)
    } else {
        "Unknown command: '"@ + shown
            + "'. Available commands: ping, status, echo <message>"@
    }
}

/// The reply to a raw command: the rules are matched against the command
/// trimmed and then lowercased; the fallback quotes it trimmed only.
pub open spec fn dispatch(raw: Seq<char>) -> Seq<char> {
    reply_for(lowercased(trimmed(raw)), trimmed(raw))
}

/// Whichever rule applies, what it gives is not empty.
proof fn no_rule_gives_nothing(normalized: Seq<char>, shown: Seq<char>)
    ensures
        reply_for(normalized, shown).len() > 0,
{
    reveal_strlit("Hello from Rust server! Command received.");
    reveal_strlit("pong");
    reveal_strlit("Server is running and ready to process commands");
    reveal_strlit("Echo: ");
    reveal_strlit("Unknown command: '");
}

/// Every command has a reply, and no reply is empty.
pub proof fn reply_is_never_empty(raw: Seq<char>)
    ensures
        dispatch(raw).len() > 0,
{
    no_rule_gives_nothing(lowercased(trimmed(raw)), trimmed(raw));
}

/// The reply depends on the command alone: two replies to one command are
/// the same text.
pub proof fn same_command_same_reply(raw: Seq<char>, first: Seq<char>, second: Seq<char>)
    requires
        first == dispatch(raw),
        second == dispatch(raw),
    ensures
        first == second,
{
}

/// White space round a command changes nothing: the padded command gets the
/// reply of the command alone.
pub proof fn padding_is_ignored(before: Seq<char>, raw: Seq<char>, after: Seq<char>)
    ensures
        all_white_space(before) && all_white_space(after) ==> dispatch(before + raw + after)
            == dispatch(raw),
{
    trimmed_ignores_padding(before, raw, after);
}

/// The three commands that are matched whole are three different texts.
proof fn whole_commands_differ()
    ensures
        "hello from python!"@ != "ping"@,
        "hello from python!"@ != "status"@,
        "ping"@ != "status"@,
{
    reveal_strlit("hello from python!");
    reveal_strlit("ping");
    reveal_strlit("status");
    assert("hello from python!"@.len() == 18);
    assert("ping"@.len() == 4);
    assert("status"@.len() == 6);
}

/// A command that is `ping` once trimmed and lowercased is answered `pong`,
/// however it was cased and padded.
pub proof fn ping_in_any_form(raw: Seq<char>)
    ensures
        lowercased(trimmed(raw)) == "ping"@ ==> dispatch(raw) == "pong"@,
{
    whole_commands_differ();
}

/// A command that is `status` once trimmed and lowercased gets the status
/// line, however it was cased and padded.
pub proof fn status_in_any_form(raw: Seq<char>)
    ensures
        lowercased(trimmed(raw)) == "status"@ ==> dispatch(raw)
            == "Server is running and ready to process commands"@,
{
    whole_commands_differ();
}

/// Whether two string slices hold the same text, decided on their bytes.
fn same_text(a: &str, b: &str) -> (same: bool)
    ensures
        same == (a@ == b@),
{
    let x = a.as_bytes();
    let y = b.as_bytes();
    if x.len() != y.len() {
        return false;
    }
    let mut i: usize = 0;
    while i < x.len()
        invariant
            i <= x.len(),
            x.len() == y.len(),
            x@ == encode_utf8(a@),
            y@ == encode_utf8(b@),
            forall|k: int| 0 <= k < i ==> x@[k] == y@[k],
        decreases x.len() - i,
    {
        if x[i] != y[i] {
            return false;
        }
        i += 1;
    }
    proof {
        assert(x@ =~= y@);
        encode_utf8_decode_utf8(a@);
        encode_utf8_decode_utf8(b@);
    }
    true
}

/// Applies the rules to a command that is already normalised. `shown` is the
/// text that the fallback quotes back.
pub fn respond(normalized: &str, shown: &str) -> (reply: String)
    ensures
        reply@ == reply_for(normalized@, shown@),
        reply@.len() > 0,
{
    proof {
        reveal_strlit("echo ");
        no_rule_gives_nothing(normalized@, shown@);
    }
    if same_text(normalized, "hello from python!") {
        "Hello from Rust server! Command received.".to_owned()
    } else if same_text(normalized, "ping") {
        "pong".to_owned()
    } else if same_text(normalized, "status") {
        "Server is running and ready to process commands".to_owned()
    } else {
        let n: usize = normalized.unicode_len();
        if n >= 5 && same_text(normalized.substring_char(0, 5), "echo ") {
            let mut reply = "Echo: ".to_owned();
            reply.append(normalized.substring_char(5, n));
            assert(normalized@.subrange(5, n as int) == normalized@.skip(5));
            assert("echo "@.is_prefix_of(normalized@));
            reply
        } else {
            assert(!"echo "@.is_prefix_of(normalized@));
            let mut reply = "Unknown command: '".to_owned();
            reply.append(shown);
            reply.append("'. Available commands: ping, status, echo <message>");
            reply
        }
    }
}

/// Answers one raw command: trims it, lowercases it, and applies the rules.
/// Every command gets a reply, and the reply is never empty.
pub fn process_command(command: &str) -> (reply: String)
    ensures
        reply@ == dispatch(command@),
        reply@.len() > 0,
{
    let shown = trim(command);
    let normalized = to_lowercase(shown);
    respond(normalized.as_str(), shown)
}

} // verus!
