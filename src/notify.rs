//! Time-windowed batching of status notices into digests.
use vstd::prelude::*;
use crate::text::{json_quoted, json_string};

verus! {

/// How serious a status notice is.
#[derive(Clone, Copy, Debug, PartialEq, Eq, Structural)]
pub enum Severity {
    Info,
    Success,
    Error,
}

/// The label under which a severity is written.
pub open spec fn label_of(s: Severity) -> Seq<char> {
    match s {
        Severity::Info => seq!['I', 'N', 'F', 'O'],
        Severity::Success => seq!['S', 'U', 'C', 'C', 'E', 'S', 'S'],
        Severity::Error => seq!['E', 'R', 'R', 'O', 'R'],
    }
}

impl Severity {
    /// The label under which this severity is written.
    pub fn label(&self) -> (r: &'static str)
        ensures
            r@ == label_of(*self),
    {
        let r = match self {
            Severity::Info => "INFO",
            Severity::Success => "SUCCESS",
            Severity::Error => "ERROR",
        };
        proof {
            reveal_strlit("INFO");
            reveal_strlit("SUCCESS");
            reveal_strlit("ERROR");
        }
        assert(r@ =~= label_of(*self));
        r
    }
}

/// A queued notice as it is written: its severity label and its body.
pub type Entry = (Seq<char>, Seq<char>);

/// A status notice: a severity and a message body.
#[derive(Debug)]
pub struct Notice {
    pub severity: Severity,
    pub message: String,
}

impl View for Notice {
    type V = Entry;

    open spec fn view(&self) -> Entry {
        (label_of(self.severity), self.message@)
    }
}

impl Notice {
    pub fn new(severity: Severity, message: String) -> (r: Notice)
        ensures
            r.severity == severity,
            r.message@ == message@,
    {
        Notice { severity, message }
    }
}

/// One entry of a digest: `[label] message` and a line break.
pub open spec fn entry_line(e: Entry) -> Seq<char> {
    seq!['['] + e.0 + seq![']', ' '] + e.1 + seq!['\n']
}

/// The lines of a sequence of entries, in order.
pub open spec fn entry_lines(es: Seq<Entry>) -> Seq<char>
    decreases es.len(),
{
    if es.len() == 0 {
        Seq::empty()
    } else {
        entry_lines(es.drop_last()) + entry_line(es.last())
    }
}

/// A digest: the prefix, the time stamp in brackets, then one line per entry.
pub open spec fn digest_text(prefix: Seq<char>, stamp: Seq<char>, es: Seq<Entry>) -> Seq<char> {
    prefix + seq![' ', '['] + stamp + seq![']', '\n'] + entry_lines(es)
}

/// The JSON object that carries a digest to the notification endpoint.
pub open spec fn payload_text(digest: Seq<char>) -> Seq<char> {
    "{\"msgtype\":\"text\",\"text\":{\"content\":"@ + json_quoted(digest) + "}}"@
}

/// The views of a sequence of notices.
pub open spec fn entries_of(ns: Seq<Notice>) -> Seq<Entry> {
    ns.map_values(|n: Notice| n@)
}

/// Whether a flush is due: none has happened yet, or the window has elapsed since the last.
pub open spec fn flush_due(last_flush: Option<int>, now: int, window: int) -> bool {
    match last_flush {
        None => true,
        Some(t) => now - t >= window,
    }
}

/// The state of a batcher as the contracts see it.
pub struct BatchModel {
    /// Entries not yet delivered, oldest first; a digest in flight covers a prefix of them.
    pub backlog: Seq<Entry>,
    /// While a digest is in flight: the time it was formed and how many entries it covers.
    pub sending: Option<(int, nat)>,
    pub last_flush: Option<int>,
    pub window: int,
    pub prefix: Seq<char>,
    pub has_endpoint: bool,
}

/// What a caller of `notify` is to do next.
pub enum Delivery {
    /// No endpoint is configured: write the line to the local log, and send nothing.
    LogOnly { line: String },
    /// The notice is queued for a later digest.
    Held,
    /// Send `payload` (the JSON object carrying `digest`), then report the outcome.
    Send { digest: String, payload: String },
}

/// The batcher after `notify` with entry `e` at time `now`.
pub open spec fn after_notify(m: BatchModel, e: Entry, now: int) -> BatchModel {
    if !m.has_endpoint {
        m
    } else if m.sending is None && flush_due(m.last_flush, now, m.window) {
        BatchModel { backlog: m.backlog.push(e), sending: Some((now, (m.backlog.len() + 1) as nat)), ..m }
    } else {
        BatchModel { backlog: m.backlog.push(e), ..m }
    }
}

/// Whether a `notify` at time `now` sends a digest.
pub open spec fn notify_sends(m: BatchModel, now: int) -> bool {
    m.has_endpoint && m.sending is None && flush_due(m.last_flush, now, m.window)
}

/// The batcher after the outcome of the delivery in flight is reported.
pub open spec fn after_delivery(m: BatchModel, delivered: bool) -> BatchModel {
    match m.sending {
        None => m,
        Some((t, k)) => if delivered {
            BatchModel { backlog: m.backlog.skip(k as int), sending: None, last_flush: Some(t), ..m }
        } else {
            BatchModel { sending: None, ..m }
        },
    }
}

/// Coalesces notices into digests. A notice is queued; the whole queue is sent
/// as one digest when no flush has happened yet or the window has elapsed since
/// the last one, unless a digest is still in flight. Otherwise the queue waits
/// for the next notice that finds the window elapsed: there is no timer.
/// Without an endpoint nothing is queued and nothing is sent.
pub struct NotificationBatcher {
    backlog: Vec<Notice>,
    sending_since: Option<i64>,
    sending_count: usize,
    last_flush: Option<i64>,
    window: u64,
    prefix: String,
    has_endpoint: bool,
}

impl View for NotificationBatcher {
    type V = BatchModel;

    closed spec fn view(&self) -> BatchModel {
        BatchModel {
            backlog: entries_of(self.backlog@),
            sending: match self.sending_since {
                None => None,
                Some(t) => Some((t as int, self.sending_count as nat)),
            },
            last_flush: match self.last_flush {
                None => None,
                Some(t) => Some(t as int),
            },
            window: self.window as int,
            prefix: self.prefix@,
            has_endpoint: self.has_endpoint,
        }
    }
}

fn render_lines(ns: &Vec<Notice>, count: usize) -> (r: String)
    requires
        count <= ns@.len(),
    ensures
        r@ == entry_lines(entries_of(ns@).take(count as int)),
{
    let mut out = String::new();
    let mut i: usize = 0;
    while i < count
        invariant
            i <= count <= ns@.len(),
            out@ == entry_lines(entries_of(ns@).take(i as int)),
        decreases count - i,
    {
        let n = &ns[i];
        proof {
            reveal_strlit("[");
            reveal_strlit("] ");
            reveal_strlit("\n");
        }
        out.append("[");
        out.append(n.severity.label());
        out.append("] ");
        out.append(n.message.as_str());
        out.append("\n");
        let ghost es = entries_of(ns@);
        assert(es.take(i + 1).drop_last() =~= es.take(i as int));
        assert(out@ =~= entry_lines(es.take(i + 1)));
        i = i + 1;
    }
    out
}

/// The JSON object that carries `digest` to the notification endpoint.
pub fn payload(digest: &str) -> (r: String)
    ensures
        r@ == payload_text(digest@),
{
    let quoted = json_string(digest);
    let r = String::from_str("{\"msgtype\":\"text\",\"text\":{\"content\":").concat(quoted.as_str()).concat("}}");
    r
}

impl NotificationBatcher {
    pub closed spec fn wf(&self) -> bool {
        self.sending_count <= self.backlog@.len()
    }

    /// A batcher with an empty backlog that has never flushed.
    pub fn new(window: u64, prefix: String, has_endpoint: bool) -> (r: NotificationBatcher)
        ensures
            r.wf(),
            r@.backlog.len() == 0,
            r@.sending is None,
            r@.last_flush is None,
            r@.window == window as int,
            r@.prefix == prefix@,
            r@.has_endpoint == has_endpoint,
    {
        let r = NotificationBatcher {
            backlog: Vec::new(),
            sending_since: None,
            sending_count: 0,
            last_flush: None,
            window,
            prefix,
            has_endpoint,
        };
        assert(r@.backlog =~= Seq::empty());
        r
    }

    /// Queues a notice given at time `now` (seconds), stamped `stamp`, and says
    /// whether a digest of the whole backlog is to be sent now.
    pub fn notify(&mut self, notice: Notice, now: i64, stamp: &str) -> (r: Delivery)
        requires
            old(self).wf(),
            old(self)@.backlog.len() < usize::MAX,
        ensures
            final(self).wf(),
            final(self)@ == after_notify(old(self)@, notice@, now as int),
            !old(self)@.has_endpoint <==> r is LogOnly,
            r is LogOnly ==> r->line@ == entry_line(notice@),
            notify_sends(old(self)@, now as int) <==> r is Send,
            r is Send ==> r->digest@ == digest_text(
                old(self)@.prefix, stamp@, old(self)@.backlog.push(notice@)),
            r is Send ==> r->payload@ == payload_text(r->digest@),
    {
        proof {
            reveal_strlit("[");
            reveal_strlit("] ");
            reveal_strlit("\n");
            reveal_strlit(" [");
            reveal_strlit("]\n");
        }
        if !self.has_endpoint {
            let line = String::from_str("[").concat(notice.severity.label()).concat("] ")
                .concat(notice.message.as_str()).concat("\n");
            assert(line@ =~= entry_line(notice@));
            return Delivery::LogOnly { line };
        }
        let ghost old_backlog = self.backlog@;
        self.backlog.push(notice);
        assert(entries_of(self.backlog@) =~= entries_of(old_backlog).push(notice@));
        let due = match self.last_flush {
            None => true,
            Some(t) => (now as i128) - (t as i128) >= (self.window as i128),
        };
        if self.sending_since.is_none() && due {
            let count = self.backlog.len();
            self.sending_since = Some(now);
            self.sending_count = count;
            let lines = render_lines(&self.backlog, count);
            assert(entries_of(self.backlog@).take(count as int) =~= entries_of(self.backlog@));
            let digest = self.prefix.clone().concat(" [").concat(stamp).concat("]\n").concat(lines.as_str());
            let payload = payload(digest.as_str());
            Delivery::Send { digest, payload }
        } else {
            Delivery::Held
        }
    }

    /// Records the outcome of the delivery in flight. On success the entries it
    /// carried leave the backlog and the flush time becomes the time the digest
    /// was formed; on failure the backlog and the flush time stay, so the next
    /// notice sends them again. Without a delivery in flight nothing changes.
    pub fn delivery_finished(&mut self, delivered: bool)
        requires
            old(self).wf(),
        ensures
            final(self).wf(),
            final(self)@ == after_delivery(old(self)@, delivered),
    {
        match self.sending_since {
            None => {},
            Some(t) => {
                if delivered {
                    let ghost before = self.backlog@;
                    let rest = self.backlog.split_off(self.sending_count);
                    self.backlog = rest;
                    assert(entries_of(self.backlog@) =~= entries_of(before).skip(self.sending_count as int));
                    self.last_flush = Some(t);
                }
                self.sending_since = None;
                self.sending_count = 0;
            },
        }
    }

    /// The entries waiting for a digest, oldest first.
    pub fn pending(&self) -> (r: &Vec<Notice>)
        ensures
            entries_of(r@) == self@.backlog,
    {
        &self.backlog
    }

    /// Whether a digest is in flight.
    pub fn is_sending(&self) -> (r: bool)
        ensures
            r == self@.sending is Some,
    {
        self.sending_since.is_some()
    }
}

/// One notice given at time `now` by a caller that sends each digest at once and
/// sees it delivered: the batcher afterwards, and the digests sent (none or one).
pub open spec fn notify_delivered(m: BatchModel, e: Entry, now: int) -> (BatchModel, Seq<Seq<Entry>>) {
    let m1 = after_notify(m, e, now);
    if notify_sends(m, now) {
        (after_delivery(m1, true), seq![m1.backlog])
    } else {
        (m1, Seq::empty())
    }
}

/// A run of notices, each an entry and its time, given in order as in `notify_delivered`:
/// the batcher afterwards, and the entries of each digest sent, in order.
pub open spec fn notify_run(m: BatchModel, calls: Seq<(Entry, int)>) -> (BatchModel, Seq<Seq<Entry>>)
    decreases calls.len(),
{
    if calls.len() == 0 {
        (m, Seq::empty())
    } else {
        let (m1, d1) = notify_run(m, calls.drop_last());
        let (m2, d2) = notify_delivered(m1, calls.last().0, calls.last().1);
        (m2, d1 + d2)
    }
}

/// Notices that all come within the window of the last flush send nothing: they
/// are queued after the backlog in the order they came.
pub proof fn lemma_within_window_queues(m: BatchModel, calls: Seq<(Entry, int)>, t0: int)
    requires
        m.has_endpoint,
        m.sending is None,
        m.last_flush == Some(t0),
        forall|i: int| 0 <= i < calls.len() ==> #[trigger] calls[i].1 - t0 < m.window,
    ensures
        notify_run(m, calls).1.len() == 0,
        notify_run(m, calls).0 == (BatchModel {
            backlog: m.backlog + calls.map_values(|c: (Entry, int)| c.0),
            ..m
        }),
    decreases calls.len(),
{
    if calls.len() == 0 {
        assert(m.backlog + calls.map_values(|c: (Entry, int)| c.0) =~= m.backlog);
    } else {
        let front = calls.drop_last();
        assert forall|i: int| 0 <= i < front.len() implies #[trigger] front[i].1 - t0 < m.window by {
            assert(front[i] == calls[i]);
        }
        lemma_within_window_queues(m, front, t0);
        assert(calls.last() == calls[calls.len() - 1]);
        assert(m.backlog + calls.map_values(|c: (Entry, int)| c.0)
            =~= (m.backlog + front.map_values(|c: (Entry, int)| c.0)).push(calls.last().0));
    }
}

/// Coalescing: after a flush at `t0` with nothing left queued, a burst of notices
/// of which all but the last come within the window of `t0`, and the last once it
/// has elapsed, is delivered as exactly one digest holding every entry of the
/// burst in the order they came.
pub proof fn lemma_burst_is_one_digest(m: BatchModel, calls: Seq<(Entry, int)>, t0: int)
    requires
        m.has_endpoint,
        m.sending is None,
        m.backlog.len() == 0,
        m.last_flush == Some(t0),
        calls.len() >= 1,
        forall|i: int| 0 <= i < calls.len() - 1 ==> #[trigger] calls[i].1 - t0 < m.window,
        calls.last().1 - t0 >= m.window,
    ensures
        notify_run(m, calls).1 == seq![calls.map_values(|c: (Entry, int)| c.0)],
{
    let front = calls.drop_last();
    assert forall|i: int| 0 <= i < front.len() implies #[trigger] front[i].1 - t0 < m.window by {
        assert(front[i] == calls[i]);
    }
    lemma_within_window_queues(m, front, t0);
    let m1 = notify_run(m, front).0;
    assert(m1.backlog.push(calls.last().0) =~= calls.map_values(|c: (Entry, int)| c.0));
    assert(notify_run(m, calls).1 =~= seq![calls.map_values(|c: (Entry, int)| c.0)]);
}

/// Retry on the next notice: when a digest fails to be delivered, the next notice,
/// given no earlier than that digest was formed, sends at once a digest of the whole
/// backlog: the entries of the failed digest, then the new one.
pub proof fn lemma_failed_delivery_retried(m: BatchModel, e1: Entry, now1: int, e2: Entry, now2: int)
    requires
        notify_sends(m, now1),
        now1 <= now2,
    ensures
        ({
            let failed = after_delivery(after_notify(m, e1, now1), false);
            &&& notify_sends(failed, now2)
            &&& failed.backlog == m.backlog.push(e1)
            &&& after_notify(failed, e2, now2).sending == Some((now2, (m.backlog.len() + 2) as nat))
        }),
{
}

} // verus!
