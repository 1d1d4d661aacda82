//! Message history read back from the store.
use vstd::prelude::*;
use crate::frame::{format_rfc3339, formattable, parse_rfc3339, rfc3339_of, rfc3339_parsed};
use crate::message::ChatError;
use crate::message::{ChatMessage, MessageView};

verus! {

/// The messages of `ms` stamped strictly after `min_date`, in their order.
pub open spec fn later_than(ms: Seq<ChatMessage>, min_date: i64) -> Seq<MessageView> {
    ms.filter(|m: ChatMessage| m.datetime > min_date).map_values(|m: ChatMessage| m@)
}

/// The values of a list of messages.
pub open spec fn views_of(ms: Seq<ChatMessage>) -> Seq<MessageView> {
    ms.map_values(|m: ChatMessage| m@)
}

/// Keeps the messages stamped strictly after `min_date`, in store order,
/// comparing the instants themselves. The store compares RFC 3339 text, which
/// does not order every pair of texts chronologically (`...00Z` sorts after
/// `...00.5Z`): applied to what the store returned, this drops a message that
/// the text order let through though it is not later, but it cannot bring
/// back one that the text order left out.
pub fn messages_after(ms: &Vec<ChatMessage>, min_date: i64) -> (r: Vec<ChatMessage>)
    ensures
        views_of(r@) == later_than(ms@, min_date),
{
    let mut r: Vec<ChatMessage> = Vec::new();
    let mut i: usize = 0;
    proof {
        reveal_with_fuel(Seq::filter, 1);
    }
    assert(views_of(r@) =~= later_than(ms@.take(0), min_date));
    while i < ms.len()
        invariant
            0 <= i <= ms.len(),
            views_of(r@) == later_than(ms@.take(i as int), min_date),
        decreases ms.len() - i,
    {
        let ghost before = r@;
        let ghost pred = |m: ChatMessage| m.datetime > min_date;
        proof {
            reveal_with_fuel(Seq::filter, 1);
            assert(ms@.take(i + 1).drop_last() =~= ms@.take(i as int));
            assert(ms@.take(i + 1).last() == ms@[i as int]);
        }
        if ms[i].datetime > min_date {
            r.push(ms[i].duplicate());
            assert(views_of(r@) =~= views_of(before).push(ms@[i as int]@));
            assert(ms@.take(i + 1).filter(pred) == ms@.take(i as int).filter(pred).push(ms@[i as int]));
            assert(later_than(ms@.take(i + 1), min_date) =~= later_than(ms@.take(i as int), min_date).push(ms@[i as int]@));
        } else {
            assert(ms@.take(i + 1).filter(pred) == ms@.take(i as int).filter(pred));
        }
        i = i + 1;
    }
    assert(ms@.take(ms.len() as int) =~= ms@);
    r
}

/// The lower bound of a history query as the store compares it: the RFC 3339
/// text of `min_date`; `None` exactly when the instant has none.
pub fn after_bound(min_date: i64) -> (r: Option<String>)
    ensures
        r is Some <==> formattable(min_date),
        r matches Some(t) ==> t@ == rfc3339_of(min_date),
{
    format_rfc3339(min_date)
}

/// The instant that RFC 3339 text denotes; a text that is no RFC 3339
/// instant is rejected.
pub fn read_instant(text: &str) -> (r: Result<i64, ChatError>)
    ensures
        match rfc3339_parsed(text@) {
            Some(t) => r == Ok::<i64, ChatError>(t),
            None => r == Err::<i64, ChatError>(ChatError::WriteRejected),
        },
{
    match parse_rfc3339(text) {
        Some(t) => Ok(t),
        None => Err(ChatError::WriteRejected),
    }
}

/// The instant of a posted message: the one it gives, or `now` when it gives
/// none.
pub fn stamp(datetime: Option<i64>, now: i64) -> (r: i64)
    ensures
        r == match datetime {
            Some(t) => t,
            None => now,
        },
{
    match datetime {
        Some(t) => t,
        None => now,
    }
}

/// The instant of a posted message given as optional RFC 3339 text: `now`
/// when the text is absent, the instant it denotes when it is one, and
/// rejected otherwise.
pub fn posted_instant(text: Option<&str>, now: i64) -> (r: Result<i64, ChatError>)
    ensures
        match text {
            None => r == Ok::<i64, ChatError>(now),
            Some(t) => match rfc3339_parsed(t@) {
                Some(d) => r == Ok::<i64, ChatError>(d),
                None => r == Err::<i64, ChatError>(ChatError::WriteRejected),
            },
        },
{
    match text {
        None => Ok(stamp(None, now)),
        Some(t) => {
            let d = read_instant(t)?;
            Ok(stamp(Some(d), now))
        },
    }
}

} // verus!
