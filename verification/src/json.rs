//! Framing of the outbound request body as UTF-8 JSON text.
//!
//! The body is built character by character in verified code, so its exact
//! shape — `{"model":"…","messages":[{"role":"…","content":"…"},…]}` with
//! standard JSON string escaping and the messages in caller order — is stated
//! by the spec functions below and proved of the builder.

use vstd::prelude::*;
use vstd::string::StrSliceExecFns;
use vstd::string::StringExecFns;
use crate::message::Message;
use crate::model::Model;
use crate::model::wire_format;

verus! {

/// One lower-case hexadecimal digit.
pub open spec fn hex_digit(n: int) -> char {
    if n == 0 {
        '0'
    } else if n == 1 {
        '1'
    } else if n == 2 {
        '2'
    } else if n == 3 {
        '3'
    } else if n == 4 {
        '4'
    } else if n == 5 {
        '5'
    } else if n == 6 {
        '6'
    } else if n == 7 {
        '7'
    } else if n == 8 {
        '8'
    } else if n == 9 {
        '9'
    } else if n == 10 {
        'a'
    } else if n == 11 {
        'b'
    } else if n == 12 {
        'c'
    } else if n == 13 {
        'd'
    } else if n == 14 {
        'e'
    } else {
        'f'
    }
}

/// Standard JSON escaping of one character: quote and backslash get a
/// backslash, the named control characters their short escapes, every other
/// control character a `\u00..` escape, and all else passes unchanged.
pub open spec fn escape_char(c: char) -> Seq<char> {
    if c == '"' {
        seq!['\\', '"']
    } else if c == '\\' {
        seq!['\\', '\\']
    } else if c == '\u{8}' {
        seq!['\\', 'b']
    } else if c == '\t' {
        seq!['\\', 't']
    } else if c == '\n' {
        seq!['\\', 'n']
    } else if c == '\u{c}' {
        seq!['\\', 'f']
    } else if c == '\r' {
        seq!['\\', 'r']
    } else if (c as u32) < 32 {
        seq!['\\', 'u', '0', '0', hex_digit((c as u32) as int / 16), hex_digit((c as u32) as int % 16)]
    } else {
        seq![c]
    }
}

/// Standard JSON escaping of a whole string, character by character.
pub open spec fn escape_string(s: Seq<char>) -> Seq<char>
    decreases s.len(),
{
    if s.len() == 0 {
        Seq::empty()
    } else {
        escape_string(s.drop_last()) + escape_char(s.last())
    }
}

/// The JSON object for one message: its role and content, escaped.
pub open spec fn message_json(m: Message) -> Seq<char> {
    "{\"role\":\""@ + escape_string(m.role@) + "\",\"content\":\""@ + escape_string(m.content@)
        + "\"}"@
}

/// The JSON array elements for a sequence of messages, in order, separated
/// by commas.
pub open spec fn messages_json(ms: Seq<Message>) -> Seq<char>
    decreases ms.len(),
{
    if ms.len() == 0 {
        Seq::empty()
    } else if ms.len() == 1 {
        message_json(ms[0])
    } else {
        messages_json(ms.drop_last()) + ","@ + message_json(ms.last())
    }
}

/// The complete request body for a model and a conversation.
pub open spec fn request_body_json(m: Model, ms: Seq<Message>) -> Seq<char> {
    "{\"model\":\""@ + escape_string(wire_format(m)) + "\",\"messages\":["@ + messages_json(ms)
        + "]}"@
}

/// Message order is preserved verbatim: appending a message to a
/// conversation appends exactly its JSON object (after a comma separator,
/// when the conversation was non-empty) to the serialized array elements,
/// leaving everything before it unchanged.
pub proof fn lemma_messages_json_order(ms: Seq<Message>, m: Message)
    ensures
        ms.len() == 0 ==> messages_json(ms.push(m)) == message_json(m),
        ms.len() > 0 ==> messages_json(ms.push(m)) == messages_json(ms) + ","@ + message_json(m),
{
    assert(ms.push(m).drop_last() =~= ms);
    assert(ms.push(m).last() == m);
}

/// Relies on String::push: appends exactly the one character.
#[verifier::external_body]
fn push_char(out: &mut String, c: char)
    ensures
        final(out)@ == old(out)@ + seq![c],
{
    out.push(c);
}

/// One lower-case hexadecimal digit as an executable choice.
fn hex_digit_char(n: u32) -> (c: char)
    requires
        n < 16,
    ensures
        c == hex_digit(n as int),
{
    if n == 0 {
        '0'
    } else if n == 1 {
        '1'
    } else if n == 2 {
        '2'
    } else if n == 3 {
        '3'
    } else if n == 4 {
        '4'
    } else if n == 5 {
        '5'
    } else if n == 6 {
        '6'
    } else if n == 7 {
        '7'
    } else if n == 8 {
        '8'
    } else if n == 9 {
        '9'
    } else if n == 10 {
        'a'
    } else if n == 11 {
        'b'
    } else if n == 12 {
        'c'
    } else if n == 13 {
        'd'
    } else if n == 14 {
        'e'
    } else {
        'f'
    }
}

/// Appends the escape sequence of one character.
fn push_escaped_char(out: &mut String, c: char)
    ensures
        final(out)@ == old(out)@ + escape_char(c),
{
    if c == '"' {
        out.append("\\\"");
        proof {
            reveal_strlit("\\\"");
            assert(final(out)@ =~= old(out)@ + escape_char(c));
        }
    } else if c == '\\' {
        out.append("\\\\");
        proof {
            reveal_strlit("\\\\");
            assert(final(out)@ =~= old(out)@ + escape_char(c));
        }
    } else if c == '\u{8}' {
        out.append("\\b");
        proof {
            reveal_strlit("\\b");
            assert(final(out)@ =~= old(out)@ + escape_char(c));
        }
    } else if c == '\t' {
        out.append("\\t");
        proof {
            reveal_strlit("\\t");
            assert(final(out)@ =~= old(out)@ + escape_char(c));
        }
    } else if c == '\n' {
        out.append("\\n");
        proof {
            reveal_strlit("\\n");
            assert(final(out)@ =~= old(out)@ + escape_char(c));
        }
    } else if c == '\u{c}' {
        out.append("\\f");
        proof {
            reveal_strlit("\\f");
            assert(final(out)@ =~= old(out)@ + escape_char(c));
        }
    } else if c == '\r' {
        out.append("\\r");
        proof {
            reveal_strlit("\\r");
            assert(final(out)@ =~= old(out)@ + escape_char(c));
        }
    } else {
        let code: u32 = c as u32;
        if code < 32 {
            out.append("\\u00");
            let hi = hex_digit_char(code / 16);
            push_char(out, hi);
            let lo = hex_digit_char(code % 16);
            push_char(out, lo);
            proof {
                reveal_strlit("\\u00");
                assert(final(out)@ =~= old(out)@ + escape_char(c));
            }
        } else {
            push_char(out, c);
        }
    }
}

/// Appends the escaped form of a whole string.
fn append_escaped(out: &mut String, s: &str)
    ensures
        final(out)@ == old(out)@ + escape_string(s@),
{
    let n = s.unicode_len();
    let mut i: usize = 0;
    while i < n
        invariant
            n == s@.len(),
            i <= n,
            out@ == old(out)@ + escape_string(s@.take(i as int)),
        decreases n - i,
    {
        let c = s.get_char(i);
        push_escaped_char(out, c);
        proof {
            assert(s@.take(i + 1 as int).drop_last() =~= s@.take(i as int));
            assert(s@.take(i + 1 as int).last() == s@[i as int]);
            assert(out@ =~= old(out)@ + escape_string(s@.take(i + 1 as int)));
        }
        i = i + 1;
    }
    proof {
        assert(s@.take(n as int) =~= s@);
    }
}

/// Appends the JSON object for one message.
fn append_message(out: &mut String, m: &Message)
    ensures
        final(out)@ == old(out)@ + message_json(*m),
{
    out.append("{\"role\":\"");
    append_escaped(out, m.role.as_str());
    out.append("\",\"content\":\"");
    append_escaped(out, m.content.as_str());
    out.append("\"}");
    proof {
        assert(final(out)@ =~= old(out)@ + message_json(*m));
    }
}

/// Builds the complete request body for a model and a conversation,
/// preserving message order.
pub fn build_request_body(model: &Model, messages: &Vec<Message>) -> (r: String)
    ensures
        r@ == request_body_json(*model, messages@),
{
    let mut out = String::new();
    out.append("{\"model\":\"");
    let wire = model.format();
    append_escaped(&mut out, wire.as_str());
    out.append("\",\"messages\":[");
    let ghost prefix: Seq<char> = out@;
    let n = messages.len();
    let mut i: usize = 0;
    while i < n
        invariant
            n == messages@.len(),
            i <= n,
            out@ == prefix + messages_json(messages@.take(i as int)),
        decreases n - i,
    {
        if i > 0 {
            out.append(",");
        }
        append_message(&mut out, &messages[i]);
        proof {
            assert(messages@.take(i + 1 as int).drop_last() =~= messages@.take(i as int));
            assert(messages@.take(i + 1 as int).last() == messages@[i as int]);
            assert(out@ =~= prefix + messages_json(messages@.take(i + 1 as int)));
        }
        i = i + 1;
    }
    out.append("]}");
    proof {
        assert(messages@.take(n as int) =~= messages@);
        assert(out@ =~= request_body_json(*model, messages@));
    }
    out
}

} // verus!
