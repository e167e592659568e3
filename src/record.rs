//! One captured keystroke and its JSON encodings.

use vstd::prelude::*;
use vstd::string::*;
use crate::text::{dec_of, json_quoted, lemma_dec_single_line, push_decimal, push_json_string, single_line};

verus! {

/// One key press: when it happened and which window had the focus.
#[derive(Clone, Debug, PartialEq, Eq)]
pub struct LogEvent {
    /// Milliseconds since the Unix epoch.
    pub timestamp: i64,
    /// Title of the focused window, or `Unknown` when it could not be read.
    pub window_title: String,
    /// Kind of event; always `keypress`.
    pub event_type: String,
}

pub open spec fn unknown_title() -> Seq<char> {
    "Unknown"@
}

pub open spec fn keypress_tag() -> Seq<char> {
    "keypress"@
}

/// The title a record carries for a window lookup result.
pub open spec fn title_or_unknown(title: Option<String>) -> Seq<char> {
    match title {
        Some(t) => t@,
        None => unknown_title(),
    }
}

impl LogEvent {
    /// A key press at `timestamp`; a failed window lookup (`None`) is recorded
    /// as `Unknown`.
    pub fn keypress(timestamp: i64, window_title: Option<String>) -> (r: LogEvent)
        ensures
            r.timestamp == timestamp,
            r.window_title@ == title_or_unknown(window_title),
            r.event_type@ == keypress_tag(),
    {
        let title = match window_title {
            Some(t) => t,
            None => String::from_str("Unknown"),
        };
        LogEvent { timestamp, window_title: title, event_type: String::from_str("keypress") }
    }
}

/// Compact JSON object of one record, fields in declaration order.
pub open spec fn record_text(e: LogEvent) -> Seq<char> {
    "{\"timestamp\":"@ + dec_of(e.timestamp as int) + ",\"window_title\":"@ + json_quoted(
        e.window_title@,
    ) + ",\"event_type\":"@ + json_quoted(e.event_type@) + "}"@
}

/// Records joined by commas.
pub open spec fn joined_records(s: Seq<LogEvent>) -> Seq<char>
    decreases s.len(),
{
    if s.len() == 0 {
        Seq::empty()
    } else if s.len() == 1 {
        record_text(s[0])
    } else {
        joined_records(s.drop_last()) + ","@ + record_text(s.last())
    }
}

/// Compact JSON array of the records, in order.
pub open spec fn payload_text(s: Seq<LogEvent>) -> Seq<char> {
    "["@ + joined_records(s) + "]"@
}

/// Newline-delimited JSON: each record's object followed by a line feed.
pub open spec fn log_text(s: Seq<LogEvent>) -> Seq<char>
    decreases s.len(),
{
    if s.len() == 0 {
        Seq::empty()
    } else {
        log_text(s.drop_last()) + record_text(s.last()) + "\n"@
    }
}

/// Appends the compact JSON object of `e` to `out`.
pub fn push_record(out: &mut String, e: &LogEvent)
    ensures
        final(out)@ == old(out)@ + record_text(*e),
        single_line(record_text(*e)),
{
    out.append("{\"timestamp\":");
    push_decimal(out, e.timestamp);
    out.append(",\"window_title\":");
    push_json_string(out, e.window_title.as_str());
    out.append(",\"event_type\":");
    push_json_string(out, e.event_type.as_str());
    out.append("}");
    assert(final(out)@ =~= old(out)@ + record_text(*e));
    proof {
        reveal_strlit("{\"timestamp\":");
        reveal_strlit(",\"window_title\":");
        reveal_strlit(",\"event_type\":");
        reveal_strlit("}");
        lemma_dec_single_line(e.timestamp as int);
        assert(single_line(record_text(*e)));
    }
}

/// The compact JSON object of one record.
pub fn record_json(e: &LogEvent) -> (r: String)
    ensures
        r@ == record_text(*e),
{
    let mut s = String::new();
    push_record(&mut s, e);
    assert(s@ =~= record_text(*e));
    s
}

/// The compact JSON array of `events`.
pub fn payload_json(events: &Vec<LogEvent>) -> (r: String)
    ensures
        r@ == payload_text(events@),
{
    let mut s = String::from_str("[");
    let n = events.len();
    let mut i: usize = 0;
    while i < n
        invariant
            n == events@.len(),
            i <= n,
            s@ == "["@ + joined_records(events@.take(i as int)),
        decreases n - i,
    {
        let ghost before = s@;
        if i > 0 {
            s.append(",");
        }
        push_record(&mut s, &events[i]);
        proof {
            let t = events@.take(i as int + 1);
            assert(t.drop_last() =~= events@.take(i as int));
            assert(t.last() == events@[i as int]);
            if i == 0 {
                assert(events@.take(0) =~= Seq::<LogEvent>::empty());
                assert(joined_records(events@.take(0)) =~= Seq::<char>::empty());
            }
            assert(s@ =~= "["@ + joined_records(t));
        }
        i = i + 1;
    }
    assert(events@.take(n as int) =~= events@);
    s.append("]");
    s
}

/// Newline-delimited JSON of `events`, one line per record.
pub fn log_lines(events: &Vec<LogEvent>) -> (r: String)
    ensures
        r@ == log_text(events@),
        forall|k: int| 0 <= k < events@.len() ==> single_line(record_text(#[trigger] events@[k])),
{
    let mut s = String::new();
    let n = events.len();
    let mut i: usize = 0;
    while i < n
        invariant
            n == events@.len(),
            i <= n,
            s@ == log_text(events@.take(i as int)),
            forall|k: int| 0 <= k < i ==> single_line(record_text(#[trigger] events@[k])),
        decreases n - i,
    {
        push_record(&mut s, &events[i]);
        s.append("\n");
        proof {
            let t = events@.take(i as int + 1);
            assert(t.drop_last() =~= events@.take(i as int));
            assert(s@ =~= log_text(t));
        }
        i = i + 1;
    }
    assert(events@.take(n as int) =~= events@);
    s
}

} // verus!
