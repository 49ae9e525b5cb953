//! The listener worker: one long-poll per iteration, a running delay
//! estimate, and a read cursor that follows the last message received.

use crate::text::{
    decimal_text, decimal_value, lemma_decimal_round_trip, parse_u64, poll_endpoint, render_u64,
};
use vstd::prelude::*;
use vstd::string::StringExecFns;

verus! {

/// A message as the server returns it: its id and the decimal text of the
/// millisecond timestamp at which it was submitted.
pub struct Message {
    pub id: String,
    pub timestamp: String,
}

/// What one poll came to.
pub enum PollOutcome {
    /// The request failed before a response arrived.
    TransportFailure,
    /// A response arrived whose body is not a list of messages.
    DecodeFailure,
    /// The messages of the response, in the server's order.
    Received(Vec<Message>),
}

/// The request a listener sends: `GET {endpoint}?stream={stream}&version={version}`.
pub struct PollRequest {
    pub endpoint: String,
    pub stream: String,
    pub version: String,
}

/// A periodic line of output: a listener's estimate after a number of polls.
#[derive(PartialEq, Eq, Structural, Clone, Copy, Debug)]
pub struct Report {
    pub index: u64,
    pub polls: u64,
    pub avg_delay: u64,
}

/// A received timestamp that is not the decimal text of a `u64`; `position`
/// is the index of the first such message in the response.
#[derive(PartialEq, Eq, Structural, Clone, Copy, Debug)]
pub struct MalformedTimestamp {
    pub position: usize,
}

/// The private state of one listener.
pub struct Listener {
    /// The listener's number, used in its reports.
    pub index: u64,
    /// The stream it polls.
    pub stream: String,
    /// The id of the last message consumed; `"0"` before any.
    pub cursor: String,
    /// The running delay estimate, in milliseconds.
    pub avg_delay: u64,
    /// The number of the current poll, counted from one.
    pub num_loops: u64,
}

/// A listener's state as mathematical values.
pub struct ListenerView {
    pub index: u64,
    pub stream: Seq<char>,
    pub cursor: Seq<char>,
    pub avg_delay: nat,
    pub num_loops: nat,
}

impl View for Listener {
    type V = ListenerView;

    open spec fn view(&self) -> ListenerView {
        ListenerView {
            index: self.index,
            stream: self.stream@,
            cursor: self.cursor@,
            avg_delay: self.avg_delay as nat,
            num_loops: self.num_loops as nat,
        }
    }
}

/// One step of the delay recurrence: `(avg + delay) / n`, held at the
/// largest `u64` should it ever pass it.
pub open spec fn fold_step(avg: nat, delay: nat, n: nat) -> nat {
    let q = (avg + delay) / n;
    if q <= u64::MAX {
        q
    } else {
        u64::MAX as nat
    }
}

/// The estimate after folding `delays` in order into `avg`, all with the
/// same divisor `n`.
pub open spec fn fold_delays(avg: nat, delays: Seq<nat>, n: nat) -> nat {
    delays.fold_left(avg, |acc: nat, d: nat| fold_step(acc, d, n))
}

/// The delay of a message sent at `sent` and received at `received`; a
/// message stamped later than its receipt counts as no delay.
pub open spec fn delay_of(received: nat, sent: nat) -> nat {
    if received >= sent {
        (received - sent) as nat
    } else {
        0
    }
}

/// Whether every message carries a well-formed timestamp.
pub open spec fn timestamps_valid(msgs: Seq<Message>) -> bool {
    forall|i: int| 0 <= i < msgs.len() ==> (#[trigger] decimal_value(msgs[i].timestamp@)) is Some
}

/// The send time of the message `m`.
pub open spec fn sent_at(m: Message) -> nat {
    decimal_value(m.timestamp@)->Some_0 as nat
}

/// The delays of `msgs`, each received at the matching entry of `received`.
pub open spec fn delays_of(msgs: Seq<Message>, received: Seq<u64>) -> Seq<nat> {
    Seq::new(msgs.len(), |i: int| delay_of(received[i] as nat, sent_at(msgs[i])))
}

/// The ids of `msgs`, in order.
pub open spec fn ids_of(msgs: Seq<Message>) -> Seq<Seq<char>> {
    msgs.map_values(|m: Message| m.id@)
}

/// Whether the poll numbered `n` is followed by a report.
pub open spec fn report_due(n: nat) -> bool {
    n % 10 == 0
}

/// The report of the poll that `v` is at, given the estimate after it.
pub open spec fn report_of(v: ListenerView, avg: nat) -> Option<Report> {
    if report_due(v.num_loops) {
        Some(Report { index: v.index, polls: v.num_loops as u64, avg_delay: avg as u64 })
    } else {
        None
    }
}

/// The state after a poll that failed in transport or in decoding.
pub open spec fn after_failure(v: ListenerView) -> ListenerView {
    ListenerView { num_loops: v.num_loops + 1, ..v }
}

/// The state after a poll that returned messages with these ids and delays.
pub open spec fn after_messages(v: ListenerView, ids: Seq<Seq<char>>, delays: Seq<nat>) -> ListenerView {
    ListenerView {
        cursor: if ids.len() == 0 {
            v.cursor
        } else {
            ids.last()
        },
        avg_delay: fold_delays(v.avg_delay, delays, v.num_loops),
        num_loops: v.num_loops + 1,
        ..v
    }
}

/// One step of the recurrence on machine integers; `n` is at least one.
pub fn fold_delay(avg: u64, delay: u64, n: u64) -> (r: u64)
    requires
        n >= 1,
    ensures
        r as nat == fold_step(avg as nat, delay as nat, n as nat),
{
    let sum: u128 = avg as u128 + delay as u128;
    let q: u128 = sum / (n as u128);
    if q <= u64::MAX as u128 {
        q as u64
    } else {
        u64::MAX
    }
}

/// The delay of a message sent at `sent` and received at `received`.
pub fn message_delay(received: u64, sent: u64) -> (r: u64)
    ensures
        r as nat == delay_of(received as nat, sent as nat),
{
    if received >= sent {
        received - sent
    } else {
        0
    }
}

/// The send times of `msgs`, or the position of the first message whose
/// timestamp is malformed.
pub fn parse_timestamps(msgs: &Vec<Message>) -> (r: Result<Vec<u64>, MalformedTimestamp>)
    ensures
        r is Ok <==> timestamps_valid(msgs@),
        r matches Ok(ts) ==> ts@.len() == msgs@.len() && forall|i: int|
            0 <= i < ts@.len() ==> #[trigger] ts@[i] as nat == sent_at(msgs@[i]),
        r matches Err(e) ==> e.position < msgs@.len()
            && decimal_value(msgs@[e.position as int].timestamp@) is None
            && forall|i: int| 0 <= i < e.position ==> (#[trigger] decimal_value(msgs@[i].timestamp@)) is Some,
{
    let mut ts: Vec<u64> = Vec::new();
    let mut i: usize = 0;
    while i < msgs.len()
        invariant
            i <= msgs@.len(),
            ts@.len() == i,
            forall|j: int| 0 <= j < i ==> (#[trigger] decimal_value(msgs@[j].timestamp@)) is Some,
            forall|j: int| 0 <= j < i ==> #[trigger] ts@[j] as nat == sent_at(msgs@[j]),
        decreases msgs@.len() - i,
    {
        match parse_u64(msgs[i].timestamp.as_str()) {
            Some(t) => ts.push(t),
            None => {
                return Err(MalformedTimestamp { position: i });
            },
        }
        i += 1;
    }
    Ok(ts)
}

impl Report {
    /// The console line of this report.
    pub fn text(&self) -> (r: String)
        ensures
            r@ == "Average delay for listener "@ + decimal_text(self.index as nat) + " after "@
                + decimal_text(self.polls as nat) + " polls: "@ + decimal_text(self.avg_delay as nat),
    {
        let mut r = String::from_str("Average delay for listener ");
        r.append(render_u64(self.index).as_str());
        r.append(" after ");
        r.append(render_u64(self.polls).as_str());
        r.append(" polls: ");
        r.append(render_u64(self.avg_delay).as_str());
        r
    }
}

impl Listener {
    /// Whether the poll counter has started, as every listener's does.
    pub open spec fn wf(&self) -> bool {
        self.num_loops >= 1
    }

    /// A listener numbered `index` on `stream`, before its first poll: cursor
    /// `"0"`, no delay, poll number one.
    pub fn new(index: u64, stream: String) -> (r: Listener)
        ensures
            r.wf(),
            r@.index == index,
            r@.stream == stream@,
            r@.cursor == "0"@,
            r@.avg_delay == 0,
            r@.num_loops == 1,
    {
        Listener { index, stream, cursor: String::from_str("0"), avg_delay: 0, num_loops: 1 }
    }

    /// The request of the next poll against the server at `base_url`.
    pub fn poll_request(&self, base_url: &str) -> (r: PollRequest)
        ensures
            r.endpoint@ == base_url@ + "/messages"@,
            r.stream@ == self.stream@,
            r.version@ == self.cursor@,
    {
        PollRequest {
            endpoint: poll_endpoint(base_url),
            stream: self.stream.clone(),
            version: self.cursor.clone(),
        }
    }

    /// Ends a poll that failed in transport or in decoding: only the poll
    /// counter moves. Returns the report due at this poll, if any.
    pub fn record_failure(&mut self) -> (r: Option<Report>)
        requires
            old(self).wf(),
            old(self).num_loops < u64::MAX,
        ensures
            final(self).wf(),
            final(self)@ == after_failure(old(self)@),
            r == report_of(old(self)@, old(self)@.avg_delay),
    {
        let report = self.report(self.avg_delay);
        self.num_loops = self.num_loops + 1;
        report
    }

    /// Ends a poll that returned `msgs`, the i-th received at `received[i]`:
    /// each delay is folded into the estimate in order with the current poll
    /// number as divisor, and the cursor moves to the last id, if any.
    /// Returns the report due at this poll, if any. A malformed timestamp
    /// leaves the listener as it was.
    pub fn record_messages(&mut self, msgs: &Vec<Message>, received: &Vec<u64>) -> (r: Result<
        Option<Report>,
        MalformedTimestamp,
    >)
        requires
            old(self).wf(),
            old(self).num_loops < u64::MAX,
            received@.len() == msgs@.len(),
        ensures
            r is Ok <==> timestamps_valid(msgs@),
            r matches Err(e) ==> *final(self) == *old(self) && e.position < msgs@.len()
                && decimal_value(msgs@[e.position as int].timestamp@) is None,
            r is Ok ==> final(self).wf() && final(self)@ == after_messages(
                old(self)@,
                ids_of(msgs@),
                delays_of(msgs@, received@),
            ),
            r matches Ok(rep) ==> rep == report_of(old(self)@, final(self)@.avg_delay),
    {
        let sent = match parse_timestamps(msgs) {
            Ok(ts) => ts,
            Err(e) => {
                return Err(e);
            },
        };
        let n = self.num_loops;
        let ghost start = self.avg_delay as nat;
        let ghost delays = delays_of(msgs@, received@);
        let mut avg = self.avg_delay;
        let mut i: usize = 0;
        while i < msgs.len()
            invariant
                i <= msgs@.len(),
                sent@.len() == msgs@.len(),
                received@.len() == msgs@.len(),
                n >= 1,
                delays == delays_of(msgs@, received@),
                forall|j: int| 0 <= j < sent@.len() ==> #[trigger] sent@[j] as nat == sent_at(msgs@[j]),
                avg as nat == fold_delays(start, delays.take(i as int), n as nat),
            decreases msgs@.len() - i,
        {
            let d = message_delay(received[i], sent[i]);
            assert(delays.take(i + 1).drop_last() =~= delays.take(i as int));
            avg = fold_delay(avg, d, n);
            i += 1;
        }
        assert(delays.take(msgs@.len() as int) =~= delays);
        if msgs.len() > 0 {
            self.cursor = msgs[msgs.len() - 1].id.clone();
        }
        self.avg_delay = avg;
        let report = self.report(avg);
        self.num_loops = n + 1;
        Ok(report)
    }

    /// Ends a poll with the given outcome; `received` holds the receipt
    /// time of each message received.
    pub fn apply(&mut self, outcome: &PollOutcome, received: &Vec<u64>) -> (r: Result<
        Option<Report>,
        MalformedTimestamp,
    >)
        requires
            old(self).wf(),
            old(self).num_loops < u64::MAX,
            outcome matches PollOutcome::Received(msgs) ==> received@.len() == msgs@.len(),
        ensures
            !(outcome is Received) ==> final(self)@ == after_failure(old(self)@) && r == Ok::<
                Option<Report>,
                MalformedTimestamp,
            >(report_of(old(self)@, old(self)@.avg_delay)),
            outcome matches PollOutcome::Received(msgs) ==> {
                &&& r is Ok <==> timestamps_valid(msgs@)
                &&& r is Err ==> *final(self) == *old(self)
                &&& r is Ok ==> final(self)@ == after_messages(
                    old(self)@,
                    ids_of(msgs@),
                    delays_of(msgs@, received@),
                )
                &&& r matches Ok(rep) ==> rep == report_of(old(self)@, final(self)@.avg_delay)
            },
            r is Ok ==> final(self).wf(),
    {
        match outcome {
            PollOutcome::Received(msgs) => self.record_messages(msgs, received),
            _ => Ok(self.record_failure()),
        }
    }

    fn report(&self, avg: u64) -> (r: Option<Report>)
        ensures
            r == report_of(self@, avg as nat),
    {
        if self.num_loops % 10 == 0 {
            Some(Report { index: self.index, polls: self.num_loops, avg_delay: avg })
        } else {
            None
        }
    }
}

/// The cursor only ever changes to the id of the last message of a poll that
/// returned messages: such a poll sets it to that id, an empty poll or a
/// failed one leaves it as it was.
pub proof fn lemma_cursor_follows_last_id(v: ListenerView, ids: Seq<Seq<char>>, delays: Seq<nat>)
    ensures
        ids.len() > 0 ==> after_messages(v, ids, delays).cursor == ids.last(),
        ids.len() == 0 ==> after_messages(v, ids, delays).cursor == v.cursor,
        after_failure(v).cursor == v.cursor,
{
}

/// The estimate folds the delays of one poll in order, each step dividing by
/// the same poll number: no delay leaves it as it was, and one more delay
/// applies one more step to the estimate of those before it.
pub proof fn lemma_delays_fold_in_order(avg: nat, delays: Seq<nat>, d: nat, n: nat)
    ensures
        fold_delays(avg, Seq::<nat>::empty(), n) == avg,
        fold_delays(avg, delays.push(d), n) == fold_step(fold_delays(avg, delays, n), d, n),
{
    assert(delays.push(d).drop_last() =~= delays);
}

/// A failed poll leaves the cursor and the estimate as they were and moves
/// the poll counter by exactly one.
pub proof fn lemma_failure_changes_only_counter(v: ListenerView)
    ensures
        after_failure(v).cursor == v.cursor,
        after_failure(v).avg_delay == v.avg_delay,
        after_failure(v).num_loops == v.num_loops + 1,
        after_failure(v).index == v.index,
        after_failure(v).stream == v.stream,
{
}

/// A poll is reported exactly when its number is a positive multiple of ten,
/// whatever came of it; the poll after it is then not reported.
pub proof fn lemma_report_cadence(v: ListenerView, avg: nat, ids: Seq<Seq<char>>, delays: Seq<nat>)
    requires
        v.num_loops >= 1,
    ensures
        report_of(v, avg) is Some <==> v.num_loops % 10 == 0,
        report_of(after_failure(v), avg) is Some <==> (v.num_loops + 1) % 10 == 0,
        report_of(after_messages(v, ids, delays), avg) is Some <==> (v.num_loops + 1) % 10 == 0,
        report_due(v.num_loops) ==> !report_due(v.num_loops + 1),
{
}

/// A message whose timestamp is the decimal text of `t`, as a poster writes
/// it, reads back as sent at `t`, and its delay on receipt at `received` is
/// the time between the two.
pub proof fn lemma_posted_timestamp_reads_back(m: Message, t: u64, received: u64)
    requires
        m.timestamp@ == decimal_text(t as nat),
    ensures
        decimal_value(m.timestamp@) == Some(t),
        sent_at(m) == t,
        received >= t ==> delay_of(received as nat, sent_at(m)) == received - t,
{
    lemma_decimal_round_trip(t);
}

} // verus!
