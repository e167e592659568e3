//! The buffering processor: consumes key-press timestamps, buffers records,
//! and decides when to flush, auto-save and seal. It performs no I/O itself;
//! each step says what the caller must write.

use vstd::prelude::*;
use crate::record::{LogEvent, keypress_tag, log_lines, log_text, payload_json, payload_text, title_or_unknown};
use crate::seal::{seal_session, sealed_session};

verus! {

/// Records buffered before a flush is forced.
pub const BATCH_SIZE: usize = 20;

/// Longest time between two flushes, in milliseconds.
pub const FLUSH_INTERVAL_MS: u64 = 5000;

/// Time between two crash-recovery snapshots, in milliseconds.
pub const AUTO_SAVE_INTERVAL_MS: u64 = 60000;

/// How long the caller waits for a timestamp before a `Timeout` step.
pub const POLL_TIMEOUT_MS: u64 = 100;

/// How buffered records leave the processor.
#[derive(Clone, Copy, Debug, PartialEq, Eq)]
pub enum Variant {
    /// Flushed as newline-delimited JSON appended to a log.
    AppendLog,
    /// Kept until stop, sealed into a signed session, and snapshotted periodically.
    Snapshot,
}

/// What the processor is told at one step.
#[derive(Debug)]
pub enum Input {
    /// A key press at `timestamp` (ms); `window_title` is `None` when the
    /// window lookup failed.
    Stamp { timestamp: i64, window_title: Option<String> },
    /// No timestamp arrived within the poll timeout.
    Timeout,
    /// The operator stopped recording.
    Stop,
    /// The sensor side of the channel is gone.
    Disconnected,
}

/// What the caller must do after a step.
#[derive(Debug)]
pub struct Step {
    /// Text to append to the log; on success call `confirm_flush`.
    pub append: Option<String>,
    /// Text that overwrites the snapshot file.
    pub snapshot: Option<String>,
    /// A sealed session document to write to a fresh session file.
    pub session: Option<String>,
    /// The processor loop ends.
    pub exit: bool,
}

/// The processor's state.
pub struct Processor {
    pub variant: Variant,
    /// Records not yet handed out, in capture order.
    pub buffer: Vec<LogEvent>,
    /// Time of the last flush (ms, caller's monotonic clock).
    pub last_flush: u64,
    /// Time of the last auto-save check that fired (ms).
    pub last_auto_save: u64,
    /// Every record ever buffered, in order.
    pub received: Ghost<Seq<LogEvent>>,
    /// The records handed out durably: confirmed flushes and sealed sessions.
    pub handed_off: Ghost<Seq<LogEvent>>,
}

/// `o` holds text exactly when `t` does, and the same text.
pub open spec fn text_is(o: Option<String>, t: Option<Seq<char>>) -> bool {
    match (o, t) {
        (Some(a), Some(b)) => a@ == b,
        (None, None) => true,
        _ => false,
    }
}

/// `e` is the record of a key press at `timestamp` with lookup result `title`.
pub open spec fn is_keypress(e: LogEvent, timestamp: i64, title: Option<String>) -> bool {
    &&& e.timestamp == timestamp
    &&& e.window_title@ == title_or_unknown(title)
    &&& e.event_type@ == keypress_tag()
}

/// How an input changes the sequence of received records.
pub open spec fn receives(before: Seq<LogEvent>, after: Seq<LogEvent>, input: Input) -> bool {
    match input {
        Input::Stamp { timestamp, window_title } => {
            &&& after.len() == before.len() + 1
            &&& after.drop_last() == before
            &&& is_keypress(after.last(), timestamp, window_title)
        },
        _ => after == before,
    }
}

/// A flush is due by count or by time.
pub open spec fn flush_due_spec(len: nat, last_flush: u64, now: u64) -> bool {
    len >= BATCH_SIZE || now >= last_flush + FLUSH_INTERVAL_MS
}

/// An auto-save is due.
pub open spec fn auto_save_due_spec(last_auto_save: u64, now: u64) -> bool {
    now >= last_auto_save + AUTO_SAVE_INTERVAL_MS
}

/// The input ends the pass of records through the buffer.
pub open spec fn forces_flush(input: Input) -> bool {
    input is Stop || input is Disconnected
}

impl Processor {
    /// Every received record is either handed off or still buffered, in order.
    pub open spec fn wf(&self) -> bool {
        self.received@ == self.handed_off@ + self.buffer@
    }

    /// An empty processor whose timers start at `now`.
    pub fn new(variant: Variant, now: u64) -> (r: Processor)
        ensures
            r.wf(),
            r.variant == variant,
            r.buffer@.len() == 0,
            r.received@.len() == 0,
            r.handed_off@.len() == 0,
            r.last_flush == now,
            r.last_auto_save == now,
    {
        let r = Processor {
            variant,
            buffer: Vec::new(),
            last_flush: now,
            last_auto_save: now,
            received: Ghost(Seq::empty()),
            handed_off: Ghost(Seq::empty()),
        };
        assert(r.received@ =~= r.handed_off@ + r.buffer@);
        r
    }

    /// Number of buffered records.
    pub fn buffered(&self) -> (r: usize)
        ensures
            r == self.buffer@.len(),
    {
        self.buffer.len()
    }

    /// Whether the buffer holds `BATCH_SIZE` records or `FLUSH_INTERVAL_MS`
    /// have passed since the last flush.
    pub fn flush_due(&self, now: u64) -> (r: bool)
        ensures
            r == flush_due_spec(self.buffer@.len(), self.last_flush, now),
    {
        self.buffer.len() >= BATCH_SIZE || (now >= self.last_flush && now - self.last_flush
            >= FLUSH_INTERVAL_MS)
    }

    /// Whether `AUTO_SAVE_INTERVAL_MS` have passed since the last auto-save.
    pub fn auto_save_due(&self, now: u64) -> (r: bool)
        ensures
            r == auto_save_due_spec(self.last_auto_save, now),
    {
        now >= self.last_auto_save && now - self.last_auto_save >= AUTO_SAVE_INTERVAL_MS
    }

    /// The flushed text was appended: the buffer is handed off and cleared,
    /// and the flush timer restarts at `now`.
    pub fn confirm_flush(&mut self, now: u64)
        requires
            old(self).wf(),
        ensures
            final(self).wf(),
            final(self).variant == old(self).variant,
            final(self).buffer@.len() == 0,
            final(self).handed_off@ == old(self).handed_off@ + old(self).buffer@,
            final(self).received@ == old(self).received@,
            final(self).last_flush == now,
            final(self).last_auto_save == old(self).last_auto_save,
    {
        self.handed_off = Ghost(self.handed_off@ + self.buffer@);
        self.buffer.clear();
        self.last_flush = now;
        assert(self.received@ =~= self.handed_off@ + self.buffer@);
    }

    /// One turn of the processor loop at time `now`.
    ///
    /// A timestamp is buffered as a key-press record. Then, for `AppendLog`,
    /// the whole buffer is offered for appending when a flush is due (count,
    /// time, stop or disconnect); an empty due flush just restarts the timer.
    /// For `Snapshot`, a stop seals the buffer into a session (if it holds
    /// anything) and clears it; the remaining buffer is offered as a snapshot
    /// when the auto-save interval has passed or the channel is gone.
    pub fn step(&mut self, input: Input, now: u64) -> (r: Step)
        requires
            old(self).wf(),
        ensures
            final(self).wf(),
            final(self).variant == old(self).variant,
            receives(old(self).received@, final(self).received@, input),
            r.exit == (input is Disconnected),
            ({
                let pending = final(self).received@.skip(old(self).handed_off@.len() as int);
                let flush = forces_flush(input) || flush_due_spec(
                    pending.len(),
                    old(self).last_flush,
                    now,
                );
                old(self).variant is AppendLog ==> {
                    &&& final(self).buffer@ == pending
                    &&& final(self).handed_off@ == old(self).handed_off@
                    &&& text_is(
                        r.append,
                        if flush && pending.len() > 0 {
                            Some(log_text(pending))
                        } else {
                            None
                        },
                    )
                    &&& final(self).last_flush == if flush && pending.len() == 0 {
                        now
                    } else {
                        old(self).last_flush
                    }
                    &&& final(self).last_auto_save == old(self).last_auto_save
                    &&& r.snapshot is None
                    &&& r.session is None
                }
            }),
            ({
                let pending = final(self).received@.skip(old(self).handed_off@.len() as int);
                let due = auto_save_due_spec(old(self).last_auto_save, now);
                old(self).variant is Snapshot ==> {
                    &&& r.append is None
                    &&& final(self).last_flush == old(self).last_flush
                    &&& final(self).last_auto_save == if due {
                        now
                    } else {
                        old(self).last_auto_save
                    }
                    &&& if input is Stop {
                        &&& text_is(
                            r.session,
                            if pending.len() > 0 {
                                Some(sealed_session(pending))
                            } else {
                                None
                            },
                        )
                        &&& final(self).buffer@.len() == 0
                        &&& final(self).handed_off@ == final(self).received@
                        &&& r.snapshot is None
                    } else {
                        &&& r.session is None
                        &&& final(self).buffer@ == pending
                        &&& final(self).handed_off@ == old(self).handed_off@
                        &&& text_is(
                            r.snapshot,
                            if (due || input is Disconnected) && pending.len() > 0 {
                                Some(payload_text(pending))
                            } else {
                                None
                            },
                        )
                    }
                }
            }),
    {
        let ghost h0 = self.handed_off@;
        let mut stop = false;
        let mut exit = false;
        match input {
            Input::Stamp { timestamp, window_title } => {
                let e = LogEvent::keypress(timestamp, window_title);
                let ghost ev = e;
                self.buffer.push(e);
                self.received = Ghost(self.received@.push(ev));
                assert(self.received@.drop_last() =~= old(self).received@);
            },
            Input::Timeout => {},
            Input::Stop => {
                stop = true;
            },
            Input::Disconnected => {
                exit = true;
            },
        }
        assert(self.received@ =~= self.handed_off@ + self.buffer@);
        assert(self.received@.skip(h0.len() as int) =~= self.buffer@);
        let mut append: Option<String> = None;
        let mut snapshot: Option<String> = None;
        let mut session: Option<String> = None;
        match self.variant {
            Variant::AppendLog => {
                if stop || exit || self.flush_due(now) {
                    if self.buffer.len() > 0 {
                        append = Some(log_lines(&self.buffer));
                    } else {
                        self.last_flush = now;
                    }
                }
            },
            Variant::Snapshot => {
                if stop {
                    if self.buffer.len() > 0 {
                        session = Some(seal_session(&self.buffer));
                    }
                    self.handed_off = Ghost(self.handed_off@ + self.buffer@);
                    self.buffer.clear();
                    assert(self.received@ =~= self.handed_off@ + self.buffer@);
                }
                let due = self.auto_save_due(now);
                if (due || exit) && self.buffer.len() > 0 {
                    snapshot = Some(payload_json(&self.buffer));
                }
                if due {
                    self.last_auto_save = now;
                }
            },
        }
        Step { append, snapshot, session, exit }
    }
}

/// No record is lost: once the buffer is empty, the records handed off are
/// exactly the records received, in capture order and equal in number.
pub proof fn lemma_nothing_lost(p: Processor)
    requires
        p.wf(),
        p.buffer@.len() == 0,
    ensures
        p.handed_off@ == p.received@,
        p.handed_off@.len() == p.received@.len(),
{
    assert(p.handed_off@ + p.buffer@ =~= p.handed_off@);
}

} // verus!
