//! Serialization of event payloads into JSON text. The encoding is defined
//! by spec functions over character sequences and the executable encoder is
//! proved to produce exactly that text.

use vstd::prelude::*;
use crate::event::{AppEvent, Chat, ChatType, Message};

verus! {

/// Relies on String::push: appends the given character to the end of the
/// string.
#[verifier::external_body]
fn push_char(s: &mut String, c: char)
    ensures
        final(s)@ == old(s)@.push(c),
{
    s.push(c);
}

/// Character for one decimal digit value.
pub open spec fn spec_dec_digit(d: nat) -> char {
    if d == 0 {
        '0'
    } else if d == 1 {
        '1'
    } else if d == 2 {
        '2'
    } else if d == 3 {
        '3'
    } else if d == 4 {
        '4'
    } else if d == 5 {
        '5'
    } else if d == 6 {
        '6'
    } else if d == 7 {
        '7'
    } else if d == 8 {
        '8'
    } else {
        '9'
    }
}

fn dec_digit(d: u64) -> (c: char)
    requires
        d < 10,
    ensures
        c == spec_dec_digit(d as nat),
{
    if d == 0 {
        '0'
    } else if d == 1 {
        '1'
    } else if d == 2 {
        '2'
    } else if d == 3 {
        '3'
    } else if d == 4 {
        '4'
    } else if d == 5 {
        '5'
    } else if d == 6 {
        '6'
    } else if d == 7 {
        '7'
    } else if d == 8 {
        '8'
    } else {
        '9'
    }
}

/// Character for one hexadecimal digit value, lower case.
pub open spec fn spec_hex_digit(d: nat) -> char {
    if d < 10 {
        spec_dec_digit(d)
    } else if d == 10 {
        'a'
    } else if d == 11 {
        'b'
    } else if d == 12 {
        'c'
    } else if d == 13 {
        'd'
    } else if d == 14 {
        'e'
    } else {
        'f'
    }
}

fn hex_digit(d: u32) -> (c: char)
    requires
        d < 16,
    ensures
        c == spec_hex_digit(d as nat),
{
    if d < 10 {
        dec_digit(d as u64)
    } else if d == 10 {
        'a'
    } else if d == 11 {
        'b'
    } else if d == 12 {
        'c'
    } else if d == 13 {
        'd'
    } else if d == 14 {
        'e'
    } else {
        'f'
    }
}

/// Decimal text of a nonnegative integer, most significant digit first.
pub open spec fn spec_u64_dec(n: nat) -> Seq<char>
    decreases n,
{
    if n < 10 {
        seq![spec_dec_digit(n)]
    } else {
        spec_u64_dec(n / 10) + seq![spec_dec_digit(n % 10)]
    }
}

/// Decimal text of an integer: a minus sign before the magnitude when
/// negative.
pub open spec fn spec_i64_dec(n: int) -> Seq<char> {
    if n < 0 {
        seq!['-'] + spec_u64_dec((-n) as nat)
    } else {
        spec_u64_dec(n as nat)
    }
}

fn push_u64_dec(s: &mut String, n: u64)
    ensures
        final(s)@ == old(s)@ + spec_u64_dec(n as nat),
    decreases n,
{
    if n < 10 {
        push_char(s, dec_digit(n));
        proof {
            assert(s@ =~= old(s)@ + spec_u64_dec(n as nat));
        }
    } else {
        push_u64_dec(s, n / 10);
        push_char(s, dec_digit(n % 10));
        proof {
            assert(s@ =~= old(s)@ + spec_u64_dec(n as nat));
        }
    }
}

fn push_i64_dec(s: &mut String, n: i64)
    ensures
        final(s)@ == old(s)@ + spec_i64_dec(n as int),
{
    if n < 0 {
        push_char(s, '-');
        let wide: i128 = -(n as i128);
        push_u64_dec(s, wide as u64);
        proof {
            assert(s@ =~= old(s)@ + spec_i64_dec(n as int));
        }
    } else {
        push_u64_dec(s, n as u64);
    }
}

/// JSON escaping of one character: quote and backslash get a backslash,
/// common control characters use their short escapes, any other control
/// character uses a universal escape, and everything else stands as itself.
pub open spec fn spec_escaped_char(c: char) -> Seq<char> {
    if c == '"' {
        seq!['\\', '"']
    } else if c == '\\' {
        seq!['\\', '\\']
    } else if c == '\u{8}' {
        seq!['\\', 'b']
    } else if c == '\u{c}' {
        seq!['\\', 'f']
    } else if c == '\n' {
        seq!['\\', 'n']
    } else if c == '\r' {
        seq!['\\', 'r']
    } else if c == '\t' {
        seq!['\\', 't']
    } else if (c as u32) < 0x20 {
        seq!['\\', 'u', '0', '0', spec_hex_digit(((c as u32) / 16) as nat), spec_hex_digit(
            ((c as u32) % 16) as nat,
        )]
    } else {
        seq![c]
    }
}

/// JSON escaping of a whole text.
pub open spec fn spec_escaped(t: Seq<char>) -> Seq<char>
    decreases t.len(),
{
    if t.len() == 0 {
        Seq::empty()
    } else {
        spec_escaped(t.drop_last()) + spec_escaped_char(t.last())
    }
}

/// A JSON string literal: the escaped text between double quotes.
pub open spec fn spec_json_string(t: Seq<char>) -> Seq<char> {
    seq!['"'] + spec_escaped(t) + seq!['"']
}

fn push_escaped_char(s: &mut String, c: char)
    ensures
        final(s)@ == old(s)@ + spec_escaped_char(c),
{
    if c == '"' {
        push_char(s, '\\');
        push_char(s, '"');
    } else if c == '\\' {
        push_char(s, '\\');
        push_char(s, '\\');
    } else if c == '\u{8}' {
        push_char(s, '\\');
        push_char(s, 'b');
    } else if c == '\u{c}' {
        push_char(s, '\\');
        push_char(s, 'f');
    } else if c == '\n' {
        push_char(s, '\\');
        push_char(s, 'n');
    } else if c == '\r' {
        push_char(s, '\\');
        push_char(s, 'r');
    } else if c == '\t' {
        push_char(s, '\\');
        push_char(s, 't');
    } else if (c as u32) < 0x20 {
        push_char(s, '\\');
        push_char(s, 'u');
        push_char(s, '0');
        push_char(s, '0');
        push_char(s, hex_digit((c as u32) / 16));
        push_char(s, hex_digit((c as u32) % 16));
    } else {
        push_char(s, c);
    }
    proof {
        assert(s@ =~= old(s)@ + spec_escaped_char(c));
    }
}

fn push_json_string(s: &mut String, text: &str)
    ensures
        final(s)@ == old(s)@ + spec_json_string(text@),
{
    push_char(s, '"');
    let n = text.unicode_len();
    let ghost mid = s@;
    let mut i: usize = 0;
    while i < n
        invariant
            i <= n,
            n == text@.len(),
            s@ == mid + spec_escaped(text@.take(i as int)),
        decreases n - i,
    {
        let c = text.get_char(i);
        push_escaped_char(s, c);
        proof {
            assert(text@.take(i as int + 1).drop_last() =~= text@.take(i as int));
            assert(s@ =~= mid + spec_escaped(text@.take(i as int + 1)));
        }
        i = i + 1;
    }
    push_char(s, '"');
    proof {
        assert(text@.take(n as int) =~= text@);
        assert(s@ =~= old(s)@ + spec_json_string(text@));
    }
}

/// JSON for an optional text: `null` when absent, a string literal when
/// present.
pub open spec fn spec_json_opt_string(o: Option<String>) -> Seq<char> {
    match o {
        Option::None => "null"@,
        Option::Some(t) => spec_json_string(t@),
    }
}

fn push_json_opt_string(s: &mut String, o: &Option<String>)
    ensures
        final(s)@ == old(s)@ + spec_json_opt_string(*o),
{
    match o {
        None => {
            s.append("null");
        },
        Some(t) => {
            push_json_string(s, t.as_str());
        },
    }
}

/// The name of a chat type, as serialized on the wire.
pub open spec fn spec_chat_type_label(t: ChatType) -> Seq<char> {
    match t {
        ChatType::Single => "Single"@,
        ChatType::Group => "Group"@,
        ChatType::PrivateChannel => "PrivateChannel"@,
        ChatType::PublicChannel => "PublicChannel"@,
    }
}

fn chat_type_label(t: &ChatType) -> (label: &'static str)
    ensures
        label@ == spec_chat_type_label(*t),
{
    match t {
        ChatType::Single => "Single",
        ChatType::Group => "Group",
        ChatType::PrivateChannel => "PrivateChannel",
        ChatType::PublicChannel => "PublicChannel",
    }
}

/// The member list as a JSON array of numbers, without the brackets.
pub open spec fn spec_members_inner(ms: Seq<i64>) -> Seq<char>
    decreases ms.len(),
{
    if ms.len() == 0 {
        Seq::empty()
    } else if ms.len() == 1 {
        spec_i64_dec(ms[0] as int)
    } else {
        spec_members_inner(ms.drop_last()) + seq![','] + spec_i64_dec(ms.last() as int)
    }
}

/// The member list as a JSON array of numbers.
pub open spec fn spec_json_members(ms: Seq<i64>) -> Seq<char> {
    seq!['['] + spec_members_inner(ms) + seq![']']
}

fn push_members(s: &mut String, ms: &Vec<i64>)
    ensures
        final(s)@ == old(s)@ + spec_json_members(ms@),
{
    push_char(s, '[');
    let ghost mid = s@;
    let mut i: usize = 0;
    while i < ms.len()
        invariant
            i <= ms@.len(),
            s@ == mid + spec_members_inner(ms@.take(i as int)),
        decreases ms@.len() - i,
    {
        if i > 0 {
            push_char(s, ',');
        }
        push_i64_dec(s, ms[i]);
        proof {
            assert(ms@.take(i as int + 1).drop_last() =~= ms@.take(i as int));
            assert(s@ =~= mid + spec_members_inner(ms@.take(i as int + 1)));
        }
        i = i + 1;
    }
    push_char(s, ']');
    proof {
        assert(ms@.take(ms@.len() as int) =~= ms@);
        assert(s@ =~= old(s)@ + spec_json_members(ms@));
    }
}

/// The JSON record for a chat snapshot.
pub open spec fn spec_chat_json(c: Chat) -> Seq<char> {
    "{\"id\":"@ + spec_i64_dec(c.id as int) + ",\"ws_id\":"@ + spec_i64_dec(c.ws_id as int)
        + ",\"name\":"@ + spec_json_opt_string(c.name) + ",\"type\":"@ + spec_json_string(
        spec_chat_type_label(c.chat_type),
    ) + ",\"members\":"@ + spec_json_members(c.members@) + ",\"created_at\":"@ + spec_i64_dec(
        c.created_at as int,
    ) + "}"@
}

/// The JSON record for a message snapshot.
pub open spec fn spec_message_json(m: Message) -> Seq<char> {
    "{\"id\":"@ + spec_i64_dec(m.id as int) + ",\"chat_id\":"@ + spec_i64_dec(m.chat_id as int)
        + ",\"body\":"@ + spec_json_string(m.body@) + "}"@
}

/// The serialized payload of an event: the record of its variant's snapshot.
pub open spec fn spec_event_json(event: AppEvent) -> Seq<char> {
    match event {
        AppEvent::NewChat(c) => spec_chat_json(c),
        AppEvent::AddToChat(c) => spec_chat_json(c),
        AppEvent::UpdateChatName(c) => spec_chat_json(c),
        AppEvent::RemoveFromChat(c) => spec_chat_json(c),
        AppEvent::NewMessage(m) => spec_message_json(m),
    }
}

fn push_chat_json(s: &mut String, c: &Chat)
    ensures
        final(s)@ == old(s)@ + spec_chat_json(*c),
{
    s.append("{\"id\":");
    push_i64_dec(s, c.id);
    s.append(",\"ws_id\":");
    push_i64_dec(s, c.ws_id);
    s.append(",\"name\":");
    push_json_opt_string(s, &c.name);
    s.append(",\"type\":");
    push_json_string(s, chat_type_label(&c.chat_type));
    s.append(",\"members\":");
    push_members(s, &c.members);
    s.append(",\"created_at\":");
    push_i64_dec(s, c.created_at);
    s.append("}");
    proof {
        assert(s@ =~= old(s)@ + spec_chat_json(*c));
    }
}

fn push_message_json(s: &mut String, m: &Message)
    ensures
        final(s)@ == old(s)@ + spec_message_json(*m),
{
    s.append("{\"id\":");
    push_i64_dec(s, m.id);
    s.append(",\"chat_id\":");
    push_i64_dec(s, m.chat_id);
    s.append(",\"body\":");
    push_json_string(s, m.body.as_str());
    s.append("}");
    proof {
        assert(s@ =~= old(s)@ + spec_message_json(*m));
    }
}

/// Serializes an event's payload to exactly the JSON text that
/// `spec_event_json` describes.
pub fn event_json(event: &AppEvent) -> (s: String)
    ensures
        s@ == spec_event_json(*event),
{
    let mut s = String::new();
    match event {
        AppEvent::NewChat(c) => push_chat_json(&mut s, c),
        AppEvent::AddToChat(c) => push_chat_json(&mut s, c),
        AppEvent::UpdateChatName(c) => push_chat_json(&mut s, c),
        AppEvent::RemoveFromChat(c) => push_chat_json(&mut s, c),
        AppEvent::NewMessage(m) => push_message_json(&mut s, m),
    }
    proof {
        assert(s@ =~= spec_event_json(*event));
    }
    s
}

} // verus!
