//! Per-request scratch space: the response builder, the log queue, the
//! deferred-task list, an optional preferred content type, and the one-shot
//! internal-error marker that diverts the handler chain.
use vstd::prelude::*;

use crate::error::Error;
use crate::logging::{LogEntry, LogEntryView, LogQueue};
use crate::response::{init_response, Response, ResponseView};

verus! {

/// The mathematical value of a `Context`.
pub struct ContextView<T> {
    /// the response under construction
    pub response: ResponseView,
    /// queued log entries
    pub logs: Seq<LogEntryView>,
    /// queued deferred tasks
    pub deferred: Seq<T>,
    /// the preferred content type, if one was recorded
    pub default_content_type: Option<Seq<char>>,
    /// the internal-error marker
    pub internal_error: Option<Error>,
}

/// Context manages the information flow for one incoming request: it owns
/// the response builder, buffers log messages, collects deferred tasks to
/// run after the response is returned, and carries the internal-error
/// marker. `T` is the application's deferred-task type.
pub struct Context<T> {
    response: Response,
    log_queue: LogQueue,
    deferred: Vec<T>,
    default_content_type: Option<String>,
    internal_error: Option<Error>,
}

impl<T> View for Context<T> {
    type V = ContextView<T>;

    closed spec fn view(&self) -> ContextView<T> {
        ContextView {
            response: self.response@,
            logs: self.log_queue@,
            deferred: self.deferred@,
            default_content_type: match self.default_content_type {
                Some(s) => Some(s@),
                None => None,
            },
            internal_error: self.internal_error,
        }
    }
}

/// A fresh context: an unset response and nothing queued.
pub open spec fn init_context<T>() -> ContextView<T> {
    ContextView {
        response: init_response(),
        logs: Seq::empty(),
        deferred: Seq::empty(),
        default_content_type: None,
        internal_error: None,
    }
}

impl<T> Default for Context<T> {
    /// A fresh context.
    fn default() -> (r: Context<T>)
        ensures
            r@ == init_context::<T>(),
    {
        let r = Context {
            response: Response::default(),
            log_queue: LogQueue::new(),
            deferred: Vec::new(),
            default_content_type: None,
            internal_error: None,
        };
        proof {
            assert(r@.logs =~= Seq::<LogEntryView>::empty());
            assert(r@.deferred =~= Seq::<T>::empty());
        }
        r
    }
}

impl<T> Context<T> {
    /// The response builder.
    pub fn response(&mut self) -> (r: &mut Response)
        ensures
            r@ == old(self)@.response,
            final(self)@.response == final(r)@,
            final(self)@.logs == old(self)@.logs,
            final(self)@.deferred == old(self)@.deferred,
            final(self)@.default_content_type == old(self)@.default_content_type,
            final(self)@.internal_error == old(self)@.internal_error,
    {
        &mut self.response
    }

    /// Adds a task to the deferred task queue, to run after the response
    /// has been returned to the client.
    pub fn defer(&mut self, task: T)
        ensures
            final(self)@.deferred == old(self)@.deferred.push(task),
            final(self)@.response == old(self)@.response,
            final(self)@.logs == old(self)@.logs,
            final(self)@.default_content_type == old(self)@.default_content_type,
            final(self)@.internal_error == old(self)@.internal_error,
    {
        self.deferred.push(task);
    }

    /// Appends one entry to the log queue.
    pub fn log(&mut self, e: LogEntry)
        ensures
            final(self)@.logs == old(self)@.logs.push(e@),
            final(self)@.response == old(self)@.response,
            final(self)@.deferred == old(self)@.deferred,
            final(self)@.default_content_type == old(self)@.default_content_type,
            final(self)@.internal_error == old(self)@.internal_error,
    {
        self.log_queue.log(e);
    }

    /// Returns the pending log entries, emptying the internal queue.
    pub fn take_logs(&mut self) -> (r: Vec<LogEntry>)
        ensures
            r.deep_view() == old(self)@.logs,
            final(self)@.logs == Seq::<LogEntryView>::empty(),
            final(self)@.response == old(self)@.response,
            final(self)@.deferred == old(self)@.deferred,
            final(self)@.default_content_type == old(self)@.default_content_type,
            final(self)@.internal_error == old(self)@.internal_error,
    {
        self.log_queue.take()
    }

    /// Returns the deferred tasks in order, emptying the internal list.
    pub fn take_tasks(&mut self) -> (r: Vec<T>)
        ensures
            r@ == old(self)@.deferred,
            final(self)@.deferred == Seq::<T>::empty(),
            final(self)@.response == old(self)@.response,
            final(self)@.logs == old(self)@.logs,
            final(self)@.default_content_type == old(self)@.default_content_type,
            final(self)@.internal_error == old(self)@.internal_error,
    {
        let mut out: Vec<T> = Vec::new();
        core::mem::swap(&mut self.deferred, &mut out);
        proof {
            assert(self@.deferred =~= Seq::<T>::empty());
        }
        out
    }

    /// Returns the response, replacing it with a fresh, unset one.
    pub fn take_response(&mut self) -> (r: Response)
        ensures
            r@ == old(self)@.response,
            final(self)@.response == init_response(),
            final(self)@.logs == old(self)@.logs,
            final(self)@.deferred == old(self)@.deferred,
            final(self)@.default_content_type == old(self)@.default_content_type,
            final(self)@.internal_error == old(self)@.internal_error,
    {
        let mut out = Response::default();
        core::mem::swap(&mut self.response, &mut out);
        out
    }

    /// Records a preferred content type that a handler or the application
    /// may consult when finalizing the response.
    pub fn default_content_type(&mut self, s: &str)
        ensures
            final(self)@.default_content_type == Some(s@),
            final(self)@.response == old(self)@.response,
            final(self)@.logs == old(self)@.logs,
            final(self)@.deferred == old(self)@.deferred,
            final(self)@.internal_error == old(self)@.internal_error,
    {
        self.default_content_type = Some(s.to_owned());
    }

    /// The recorded preferred content type, if any.
    pub fn get_default_content_type(&self) -> (r: Option<&String>)
        ensures
            match r {
                Some(s) => self@.default_content_type == Some(s@),
                None => self@.default_content_type is None,
            },
    {
        self.default_content_type.as_ref()
    }

    /// Sets the internal-error marker, which diverts the handler chain to
    /// the internal-error handler at the next iteration boundary.
    pub fn raise_internal_error(&mut self, e: Error)
        ensures
            final(self)@.internal_error == Some(e),
            final(self)@.response == old(self)@.response,
            final(self)@.logs == old(self)@.logs,
            final(self)@.deferred == old(self)@.deferred,
            final(self)@.default_content_type == old(self)@.default_content_type,
    {
        self.internal_error = Some(e);
    }

    /// The internal-error marker, if it has been set.
    pub fn is_internal_error(&self) -> (r: Option<&Error>)
        ensures
            match r {
                Some(e) => self@.internal_error == Some(*e),
                None => self@.internal_error is None,
            },
    {
        self.internal_error.as_ref()
    }
}

} // verus!
