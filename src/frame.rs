//! JSON frames of chat messages, as sent to clients: instants are written as
//! RFC 3339 strings.
use vstd::prelude::*;
use mongodb::bson::DateTime;
use crate::message::{ChatMessage, MessageView};

verus! {

pub const USERNAME_KEY: &'static str = "{\"username\":";

pub const MESSAGE_KEY: &'static str = ",\"message\":";

pub const DATETIME_KEY: &'static str = ",\"datetime\":";

pub const OBJECT_END: &'static str = "}";

pub const LIST_START: &'static str = "[";

pub const LIST_SEPARATOR: &'static str = ",";

pub const LIST_END: &'static str = "]";

pub const HEX_DIGITS: &'static str = "0123456789abcdef";

/// Earliest instant (milliseconds) whose year, 0, RFC 3339 can write.
pub const EARLIEST_FORMATTABLE: i64 = -62167219200000;

/// Last instant (milliseconds) whose year, 9999, RFC 3339 can write.
pub const LATEST_FORMATTABLE: i64 = 253402300799999;

/// An instant that RFC 3339 text can hold: its year lies in 0..=9999.
pub open spec fn formattable(millis: i64) -> bool {
    EARLIEST_FORMATTABLE <= millis <= LATEST_FORMATTABLE
}

/// How one character is written inside a JSON string literal: quote and
/// backslash escaped, the five named controls by letter, the other controls
/// below 0x20 as `\u00` and two lowercase hex digits, the rest unchanged.
pub open spec fn json_escape(c: char) -> Seq<char> {
    if c == '"' {
        seq!['\\', '"']
    } else if c == '\\' {
        seq!['\\', '\\']
    } else if c == '\u{8}' {
        seq!['\\', 'b']
    } else if c == '\t' {
        seq!['\\', 't']
    } else if c == '\n' {
        seq!['\\', 'n']
    } else if c == '\u{c}' {
        seq!['\\', 'f']
    } else if c == '\r' {
        seq!['\\', 'r']
    } else if (c as u32) < 0x20 {
        seq!['\\', 'u', '0', '0', HEX_DIGITS@[(c as u32) as int / 16], HEX_DIGITS@[(c as u32) as int % 16]]
    } else {
        seq![c]
    }
}

/// The characters of `s`, each escaped.
pub open spec fn json_escaped(s: Seq<char>) -> Seq<char>
    decreases s.len(),
{
    if s.len() == 0 {
        Seq::empty()
    } else {
        json_escaped(s.drop_last()) + json_escape(s.last())
    }
}

/// The JSON string literal for `s`.
pub open spec fn json_string_of(s: Seq<char>) -> Seq<char> {
    seq!['"'] + json_escaped(s) + seq!['"']
}

/// The RFC 3339 text that bson writes for the instant `millis`.
pub uninterp spec fn rfc3339_of(millis: i64) -> Seq<char>;

/// The instant (milliseconds) that bson reads from RFC 3339 text, if any.
pub uninterp spec fn rfc3339_parsed(s: Seq<char>) -> Option<i64>;

/// Relies on serde_json::to_string on a `str`: it writes into a `Vec`, so it
/// cannot fail, and escapes the characters as `json_escape` states.
#[verifier::external_body]
fn quote_json(s: &str) -> (r: Option<String>)
    ensures
        r is Some,
        r matches Some(q) ==> q@ == json_string_of(s@),
{
    serde_json::to_string(s).ok()
}

/// Relies on bson's DateTime::from_millis and DateTime::try_to_rfc3339_string:
/// the RFC 3339 text of an instant, which depends on the instant alone; the
/// formatting fails exactly when the year lies outside 0..=9999.
#[verifier::external_body]
pub(crate) fn format_rfc3339(millis: i64) -> (r: Option<String>)
    ensures
        r is Some <==> formattable(millis),
        r matches Some(t) ==> t@ == rfc3339_of(millis),
{
    DateTime::from_millis(millis).try_to_rfc3339_string().ok()
}

/// Relies on bson's DateTime::parse_rfc3339_str and DateTime::timestamp_millis:
/// the instant that RFC 3339 text denotes, truncated to milliseconds, which
/// depends on the text alone.
#[verifier::external_body]
pub(crate) fn parse_rfc3339(s: &str) -> (r: Option<i64>)
    ensures
        r == rfc3339_parsed(s@),
{
    DateTime::parse_rfc3339_str(s).ok().map(|d| d.timestamp_millis())
}

/// The JSON object for a message, given its three fields already written as
/// JSON string literals; the keys come in declaration order.
pub open spec fn frame_text(username_json: Seq<char>, message_json: Seq<char>, datetime_json: Seq<char>) -> Seq<char> {
    USERNAME_KEY@ + username_json + MESSAGE_KEY@ + message_json + DATETIME_KEY@ + datetime_json + OBJECT_END@
}

/// The frame of a message value.
pub open spec fn frame_of(m: MessageView) -> Seq<char> {
    frame_text(json_string_of(m.username), json_string_of(m.message), json_string_of(rfc3339_of(m.datetime)))
}

/// Assembles the JSON object of a message from its three encoded fields.
pub fn frame_from_parts(username_json: &str, message_json: &str, datetime_json: &str) -> (r: String)
    ensures
        r@ == frame_text(username_json@, message_json@, datetime_json@),
{
    let mut r = String::from_str(USERNAME_KEY);
    r.append(username_json);
    r.append(MESSAGE_KEY);
    r.append(message_json);
    r.append(DATETIME_KEY);
    r.append(datetime_json);
    r.append(OBJECT_END);
    r
}

/// Encodes one message as a JSON frame; `None` exactly when its instant has
/// no RFC 3339 text.
pub fn encode_message(m: &ChatMessage) -> (r: Option<String>)
    ensures
        r is Some <==> formattable(m.datetime),
        r matches Some(f) ==> f@ == frame_of(m@),
{
    let username_json = quote_json(m.username.as_str())?;
    let message_json = quote_json(m.message.as_str())?;
    let datetime_text = format_rfc3339(m.datetime)?;
    let datetime_json = quote_json(datetime_text.as_str())?;
    Some(frame_from_parts(username_json.as_str(), message_json.as_str(), datetime_json.as_str()))
}

/// Items separated by commas.
pub open spec fn joined(items: Seq<Seq<char>>) -> Seq<char>
    decreases items.len(),
{
    if items.len() == 0 {
        Seq::empty()
    } else if items.len() == 1 {
        items[0]
    } else {
        joined(items.drop_last()) + LIST_SEPARATOR@ + items.last()
    }
}

/// The JSON array of the frames of `ms`, in order.
pub open spec fn list_of(ms: Seq<ChatMessage>) -> Seq<char> {
    LIST_START@ + joined(ms.map_values(|m: ChatMessage| frame_of(m@))) + LIST_END@
}

/// Every instant of `ms` has RFC 3339 text.
pub open spec fn all_formattable(ms: Seq<ChatMessage>) -> bool {
    forall|i: int| 0 <= i < ms.len() ==> formattable(#[trigger] ms[i].datetime)
}

/// Encodes a list of messages as one JSON array; `None` exactly when some
/// instant has no RFC 3339 text.
pub fn encode_message_list(ms: &Vec<ChatMessage>) -> (r: Option<String>)
    ensures
        r is Some <==> all_formattable(ms@),
        r matches Some(f) ==> f@ == list_of(ms@),
{
    let mut body = String::new();
    let mut i: usize = 0;
    assert(ms@.take(0).map_values(|m: ChatMessage| frame_of(m@)) =~= Seq::<Seq<char>>::empty());
    while i < ms.len()
        invariant
            0 <= i <= ms.len(),
            forall|j: int| 0 <= j < i ==> formattable(#[trigger] ms@[j].datetime),
            body@ == joined(ms@.take(i as int).map_values(|m: ChatMessage| frame_of(m@))),
        decreases ms.len() - i,
    {
        let frame = encode_message(&ms[i])?;
        let ghost prev = ms@.take(i as int).map_values(|m: ChatMessage| frame_of(m@));
        let ghost cur = ms@.take(i + 1).map_values(|m: ChatMessage| frame_of(m@));
        assert(cur.drop_last() =~= prev);
        assert(cur.last() == frame@);
        if i > 0 {
            body.append(LIST_SEPARATOR);
        }
        body.append(frame.as_str());
        proof {
            if i == 0 {
                assert(body@ =~= frame@);
            } else {
                assert(body@ =~= joined(prev) + LIST_SEPARATOR@ + frame@);
            }
        }
        i = i + 1;
    }
    assert(ms@.take(ms.len() as int) =~= ms@);
    let mut r = String::from_str(LIST_START);
    r.append(body.as_str());
    r.append(LIST_END);
    Some(r)
}

} // verus!
