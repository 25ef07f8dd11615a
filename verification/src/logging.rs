//! The log model: severities, structured log entries, the per-request log
//! queue, and the shipping-sink trait through which batches of entries
//! leave the service. A recording sink and a silent sink are provided.
use vstd::prelude::*;

use vstd::string::StringExecFns;
use crate::headers::pairs_view;

verus! {

/// Severity of one log entry.
#[derive(Clone, Copy, PartialEq, Eq, Structural, Debug)]
pub enum Severity {
    /// chattiest level, used for the service trace
    Verbose,
    /// debugging detail
    Debug,
    /// ordinary events
    Info,
    /// suspicious events
    Warning,
    /// failures, used by the internal-error path
    Error,
}

/// One log entry: a severity and named fields, in the order they were
/// given.
#[derive(Debug)]
pub struct LogEntry {
    /// severity of the entry
    pub severity: Severity,
    /// named fields of the entry
    pub fields: Vec<(String, String)>,
}

/// The mathematical value of a `LogEntry`.
pub struct LogEntryView {
    /// severity of the entry
    pub severity: Severity,
    /// named fields of the entry
    pub fields: Seq<(Seq<char>, Seq<char>)>,
}

impl View for LogEntry {
    type V = LogEntryView;

    open spec fn view(&self) -> LogEntryView {
        LogEntryView { severity: self.severity, fields: pairs_view(self.fields@) }
    }
}

impl DeepView for LogEntry {
    type V = LogEntryView;

    open spec fn deep_view(&self) -> LogEntryView {
        self.view()
    }
}

/// An ordered queue of log entries, drained in one take.
#[derive(Debug)]
pub struct LogQueue {
    entries: Vec<LogEntry>,
}

impl View for LogQueue {
    type V = Seq<LogEntryView>;

    closed spec fn view(&self) -> Seq<LogEntryView> {
        self.entries.deep_view()
    }
}

impl LogQueue {
    /// An empty queue.
    pub fn new() -> (r: LogQueue)
        ensures
            r@ == Seq::<LogEntryView>::empty(),
    {
        let r = LogQueue { entries: Vec::new() };
        proof {
            assert(r@ =~~= Seq::<LogEntryView>::empty());
        }
        r
    }

    /// Appends one entry.
    pub fn log(&mut self, e: LogEntry)
        ensures
            final(self)@ == old(self)@.push(e@),
    {
        let ghost v = e@;
        self.entries.push(e);
        proof {
            assert(self@ =~~= old(self)@.push(v));
        }
    }

    /// Returns the queued entries in order, leaving the queue empty.
    pub fn take(&mut self) -> (r: Vec<LogEntry>)
        ensures
            r.deep_view() == old(self)@,
            final(self)@ == Seq::<LogEntryView>::empty(),
    {
        let mut out: Vec<LogEntry> = Vec::new();
        core::mem::swap(&mut self.entries, &mut out);
        proof {
            assert(self@ =~~= Seq::<LogEntryView>::empty());
        }
        out
    }
}

/// The shipping sink for log entries: one operation that sends a named
/// stream of entries. `sent` is the sink's ghost history of delivered
/// batches: a send that succeeds appends exactly one batch, and one that
/// fails delivers nothing.
pub trait LogSink {
    /// The batches delivered so far, each a stream name with its entries.
    spec fn sent(&self) -> Seq<(Seq<char>, Seq<LogEntryView>)>;

    /// Sends one batch of entries under a stream name.
    fn send(&mut self, stream: &str, entries: Vec<LogEntry>) -> (r: Result<(), String>)
        ensures
            r is Ok ==> final(self).sent() == old(self).sent().push((
                stream@,
                entries.deep_view(),
            )),
            r is Err ==> final(self).sent() == old(self).sent(),
    ;
}

/// A sink that keeps every batch it is asked to send; it never fails.
#[derive(Debug)]
pub struct RecordingSink {
    /// the batches received, in order
    pub batches: Vec<(String, Vec<LogEntry>)>,
}

impl RecordingSink {
    /// A sink with no batches yet.
    pub fn new() -> (r: RecordingSink)
        ensures
            r.sent() == Seq::<(Seq<char>, Seq<LogEntryView>)>::empty(),
    {
        let r = RecordingSink { batches: Vec::new() };
        proof {
            assert(r.sent() =~~= Seq::<(Seq<char>, Seq<LogEntryView>)>::empty());
        }
        r
    }
}

impl LogSink for RecordingSink {
    closed spec fn sent(&self) -> Seq<(Seq<char>, Seq<LogEntryView>)> {
        Seq::new(
            self.batches@.len(),
            |i: int| (self.batches@[i].0@, self.batches@[i].1.deep_view()),
        )
    }

    fn send(&mut self, stream: &str, entries: Vec<LogEntry>) -> (r: Result<(), String>)
        ensures
            r is Ok ==> final(self).sent() == old(self).sent().push((
                stream@,
                entries.deep_view(),
            )),
            r is Err ==> final(self).sent() == old(self).sent(),
    {
        let ghost es = entries.deep_view();
        self.batches.push((stream.to_owned(), entries));
        proof {
            assert(self.sent() =~~= old(self).sent().push((stream@, es)));
        }
        Ok(())
    }
}

/// A sink that drops every batch and reports success; its history records
/// what it was asked to send.
pub struct SilentSink {
    history: Ghost<Seq<(Seq<char>, Seq<LogEntryView>)>>,
}

impl SilentSink {
    /// A silent sink.
    pub fn new() -> (r: SilentSink)
        ensures
            r.sent() == Seq::<(Seq<char>, Seq<LogEntryView>)>::empty(),
    {
        SilentSink { history: Ghost(Seq::empty()) }
    }
}

impl LogSink for SilentSink {
    closed spec fn sent(&self) -> Seq<(Seq<char>, Seq<LogEntryView>)> {
        self.history@
    }

    fn send(&mut self, stream: &str, entries: Vec<LogEntry>) -> (r: Result<(), String>)
        ensures
            r is Ok ==> final(self).sent() == old(self).sent().push((
                stream@,
                entries.deep_view(),
            )),
            r is Err ==> final(self).sent() == old(self).sent(),
    {
        let ghost es = entries.deep_view();
        self.history = Ghost(self.history@.push((stream@, es)));
        Ok(())
    }
}


/// A sink whose send always fails with a fixed message, for exercising the
/// failure path; it never delivers a batch.
pub struct FailingSink {
    /// the message every send fails with
    pub message: String,
}

impl LogSink for FailingSink {
    closed spec fn sent(&self) -> Seq<(Seq<char>, Seq<LogEntryView>)> {
        Seq::empty()
    }

    fn send(&mut self, stream: &str, entries: Vec<LogEntry>) -> (r: Result<(), String>)
        ensures
            r is Ok ==> final(self).sent() == old(self).sent().push((
                stream@,
                entries.deep_view(),
            )),
            r is Err ==> final(self).sent() == old(self).sent(),
    {
        Err(self.message.clone())
    }
}

} // verus!
