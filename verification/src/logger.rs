//! What the logger forwards: messages marked for the observability channel,
//! events persisted to the database, and batches of log lines.
use vstd::prelude::*;

use crate::text::{chars_of, split_chars, split_spec, views};

verus! {

/// Marks the part of a log line that goes to the observability channel.
pub const MESSAGE_DELIMITER: &'static str = "*~*~*";
/// The target of log events that are persisted.
pub const PERSIST_META: &'static str = "persist_to_db";
/// How long a persisted event is kept: six months, in seconds.
pub const PERSIST_TIME: i64 = 15778463;
/// The most log lines sent in one batch.
pub const MAX_CAP: usize = 100;

/// The part of a log line for the observability channel: the text after the
/// first delimiter up to the next one, when it is not empty.
pub open spec fn observed_part(line: Seq<char>) -> Option<Seq<char>> {
    let parts = split_spec(line, MESSAGE_DELIMITER@);
    if parts.len() > 1 && parts[1].len() > 0 {
        Some(parts[1])
    } else {
        None
    }
}

/// The part of a log line that is sent to the observability channel.
pub fn observed_message(line: &str) -> (r: Option<String>)
    ensures
        match r {
            Some(m) => observed_part(line@) == Some(m@),
            None => observed_part(line@) is None,
        },
{
    let c = chars_of(line);
    let d = chars_of(MESSAGE_DELIMITER);
    let parts = split_chars(c.as_slice(), d.as_slice());
    if parts.len() > 1 {
        assert(views(parts@)[1] == parts@[1]@);
        let p = chars_of(parts[1].as_str());
        if p.len() > 0 {
            return Some(parts[1].clone());
        }
    }
    None
}

/// When a persisted event expires, `now` being its time in seconds.
pub fn persist_until(now: i64) -> (r: i64)
    requires
        now + PERSIST_TIME <= i64::MAX,
    ensures
        r == now + PERSIST_TIME,
{
    now + PERSIST_TIME
}

/// A log timestamp in milliseconds, clamped to what the log service takes.
pub fn log_timestamp(millis: u128) -> (r: i64)
    ensures
        r == (if millis <= i64::MAX as u128 {
            millis as i64
        } else {
            i64::MAX
        }),
{
    if millis <= i64::MAX as u128 {
        millis as i64
    } else {
        i64::MAX
    }
}

/// The fields of a persisted log event, as they are recorded.
#[derive(Debug)]
pub struct ObserveEventTrace {
    pub sub: Option<String>,
    pub property: Option<String>,
    pub request_date: Option<i64>,
    pub expire_soon_after: Option<i64>,
}

/// A persisted event: who used what, when, and until when it is kept
/// (seconds since the Unix epoch).
#[derive(Debug)]
pub struct ObserveEventEntry {
    pub sub: String,
    pub property: String,
    pub request_date: i64,
    pub expire_soon_after: i64,
}

/// The integer fields of a persisted event.
pub open spec fn is_time_field(field: Seq<char>) -> bool {
    field == "request_date"@ || field == "expire_soon_after"@
}

/// The text fields of a persisted event.
pub open spec fn is_text_field(field: Seq<char>) -> bool {
    field == "sub"@ || field == "property"@
}

impl ObserveEventTrace {
    /// A trace with nothing recorded.
    pub fn new() -> (r: Self)
        ensures
            r.sub is None && r.property is None && r.request_date is None && r.expire_soon_after is None,
    {
        ObserveEventTrace { sub: None, property: None, request_date: None, expire_soon_after: None }
    }

    /// Records an integer field.
    pub fn record_i64(&mut self, field: &str, value: i64)
        requires
            is_time_field(field@),
        ensures
            field@ == "request_date"@ ==> final(self).request_date == Some(value)
                && final(self).expire_soon_after == old(self).expire_soon_after,
            field@ != "request_date"@ ==> final(self).expire_soon_after == Some(value)
                && final(self).request_date == old(self).request_date,
            final(self).sub == old(self).sub,
            final(self).property == old(self).property,
    {
        if crate::text::str_eq(field, "request_date") {
            self.request_date = Some(value);
        } else {
            self.expire_soon_after = Some(value);
        }
    }

    /// Records a text field.
    pub fn record_str(&mut self, field: &str, value: &str)
        requires
            is_text_field(field@),
        ensures
            field@ == "sub"@ ==> (final(self).sub matches Some(s) && s@ == value@)
                && final(self).property == old(self).property,
            field@ != "sub"@ ==> (final(self).property matches Some(p) && p@ == value@)
                && final(self).sub == old(self).sub,
            final(self).request_date == old(self).request_date,
            final(self).expire_soon_after == old(self).expire_soon_after,
    {
        if crate::text::str_eq(field, "sub") {
            self.sub = Some(crate::text::copy_string(value));
        } else {
            self.property = Some(crate::text::copy_string(value));
        }
    }

    /// The event to persist, when both its times were recorded; a missing
    /// text field is empty.
    pub fn into_entry(self) -> (r: Option<ObserveEventEntry>)
        ensures
            (self.request_date is Some && self.expire_soon_after is Some) <==> r is Some,
            r matches Some(e) ==> {
                &&& Some(e.request_date) == self.request_date
                &&& Some(e.expire_soon_after) == self.expire_soon_after
                &&& e.sub@ == (match self.sub {
                    Some(s) => s@,
                    None => Seq::<char>::empty(),
                })
                &&& e.property@ == (match self.property {
                    Some(p) => p@,
                    None => Seq::<char>::empty(),
                })
            },
    {
        match (self.request_date, self.expire_soon_after) {
            (Some(request_date), Some(expire_soon_after)) => {
                let sub = match self.sub {
                    Some(s) => s,
                    None => String::new(),
                };
                let property = match self.property {
                    Some(p) => p,
                    None => String::new(),
                };
                Some(ObserveEventEntry { sub, property, request_date, expire_soon_after })
            },
            _ => None,
        }
    }
}

/// Log lines gathered for one batch; `None` once the batch was handed out.
pub struct EventBatch<T> {
    pub events: Option<Vec<T>>,
}

impl<T> EventBatch<T> {
    /// An empty batch.
    pub fn new() -> (r: Self)
        ensures
            r.events matches Some(v) && v@.len() == 0,
    {
        EventBatch { events: Some(Vec::new()) }
    }

    /// Hands the batch out, leaving nothing behind.
    pub fn take(&mut self) -> (r: Option<Vec<T>>)
        ensures
            r == old(self).events,
            final(self).events is None,
    {
        let r = self.events.take();
        r
    }

    /// Adds a received line; hands the batch out when it is full. A line
    /// that arrives after the batch was handed out is dropped.
    pub fn push(&mut self, event: T) -> (r: Option<Vec<T>>)
        requires
            old(self).events matches Some(v) ==> v@.len() < MAX_CAP,
        ensures
            match old(self).events {
                Some(v) => if v@.len() + 1 >= MAX_CAP {
                    final(self).events is None && (r matches Some(b) && b@ == v@.push(event))
                } else {
                    r is None && (final(self).events matches Some(w) && w@ == v@.push(event))
                },
                None => r is None && final(self).events is None,
            },
    {
        match self.events.take() {
            Some(mut v) => {
                v.push(event);
                if v.len() >= MAX_CAP {
                    Some(v)
                } else {
                    self.events = Some(v);
                    None
                }
            },
            None => None,
        }
    }
}

} // verus!
