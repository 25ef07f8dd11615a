//! The request-lifecycle orchestrator: the handler-chain protocol with its
//! first-answer rule and internal-error diversion, response finalization
//! (canned pages and the 404 fallthrough), the service-trace log entry, and
//! the deferred runner that ships logs and runs background tasks after the
//! response has been returned.
use vstd::prelude::*;

use vstd::utf8::encode_utf8;
use crate::context::Context;
use crate::logging::{LogEntry, LogEntryView, LogQueue, LogSink, Severity};
use crate::method::method_name;
use crate::request::{url_str, url_str_of, Request};
use crate::response::Response;
use crate::strutil::{decimal_string, spec_decimal};

verus! {

/// A canned-page carrier: an HTTP status and a body text, returned through
/// the failure arm of a handler to halt the chain with a pre-rendered page.
#[derive(Clone, Debug)]
pub struct HandlerReturn {
    /// status code (default: 200)
    pub status: u16,
    /// body text
    pub text: String,
}

/// Builds a canned-page return value.
pub fn handler_return(status: u16, text: &str) -> (r: HandlerReturn)
    ensures
        r.status == status,
        r.text@ == text@,
{
    HandlerReturn { status, text: text.to_owned() }
}

impl Default for HandlerReturn {
    /// Status 200 with an empty body text.
    fn default() -> (r: HandlerReturn)
        ensures
            r.status == 200,
            r.text@ == Seq::<char>::empty(),
    {
        HandlerReturn { status: 200, text: String::new() }
    }
}

/// An application request handler. The chain invokes handlers in order; a
/// handler answers by setting the response through the context, halts the
/// chain with a canned page by returning the failure arm, or passes by
/// returning success with the response left unset. `T` is the
/// application's deferred-task type.
pub trait Handler<T> {
    /// Processes one incoming request.
    fn handle(&self, req: &Request, ctx: &mut Context<T>) -> (r: Result<(), HandlerReturn>);
}

/// The handler invoked once when a handler has raised the internal-error
/// marker: it renders a user-visible page into the context's response.
pub trait ErrorHandler<T> {
    /// Renders the internal-error page.
    fn handle_error(&self, req: &Request, ctx: &mut Context<T>);
}

/// Logging support for deferred tasks: the one capability a deferred task
/// receives.
#[derive(Debug)]
pub struct RunContext {
    log_queue: LogQueue,
}

impl RunContext {
    /// A run context with an empty log queue.
    pub fn new() -> (r: RunContext)
        ensures
            r.queued() == Seq::<LogEntryView>::empty(),
    {
        RunContext { log_queue: LogQueue::new() }
    }

    /// The entries logged so far.
    pub closed spec fn queued(&self) -> Seq<LogEntryView> {
        self.log_queue@
    }

    /// Appends one log entry.
    pub fn log(&mut self, entry: LogEntry)
        ensures
            final(self).queued() == old(self).queued().push(entry@),
    {
        self.log_queue.log(entry);
    }

    /// Returns the logged entries in order, leaving the queue empty.
    pub fn take_logs(&mut self) -> (r: Vec<LogEntry>)
        ensures
            r.deep_view() == old(self).queued(),
            final(self).queued() == Seq::<LogEntryView>::empty(),
    {
        self.log_queue.take()
    }
}

/// A deferred task: a unit of work run after the response has been
/// returned. The task may append log entries through the run context; they
/// are shipped after all deferred tasks have run.
pub trait Runnable {
    /// Executes the deferred task.
    fn run(&self, ctx: &mut RunContext);
}

/// Configuration parameters for the service: the log sink, the ordered
/// handler list, and the internal-error handler.
pub struct ServiceConfig<L, H, E> {
    /// the sink that batches of log entries are shipped to
    pub logger: L,
    /// the request handlers, invoked in order
    pub handlers: Vec<H>,
    /// how to render an internal error into the response
    pub internal_error_handler: E,
}

impl<H> Default for ServiceConfig<crate::logging::SilentSink, H, DefaultInternalErrorHandler> {
    /// The default configuration does no logging and handles no requests:
    /// a silent sink, an empty handler list, and the default internal-error
    /// handler.
    fn default() -> (r: ServiceConfig<crate::logging::SilentSink, H, DefaultInternalErrorHandler>)
        ensures
            r.handlers@.len() == 0,
            r.logger.sent() == Seq::<(Seq<char>, Seq<crate::logging::LogEntryView>)>::empty(),
    {
        ServiceConfig {
            logger: crate::logging::SilentSink::new(),
            handlers: Vec::new(),
            internal_error_handler: DefaultInternalErrorHandler,
        }
    }
}

/// The work left after the response has been returned: the queued log
/// entries, the deferred tasks, and the sink that ships the logs.
pub struct DeferredData<L, T> {
    /// the sink that batches of log entries are shipped to
    pub logger: L,
    /// the deferred tasks, in the order they were queued
    pub tasks: Vec<T>,
    /// the log entries queued while handling the request
    pub logs: Vec<LogEntry>,
}

/// What the chain observed of one invoked handler: the canned page its
/// failure arm returned, whether the response was answered (not unset)
/// after its call, and whether the internal-error marker was set after its
/// call.
pub struct HandlerObs {
    /// the canned page, if the handler returned one
    pub canned: Option<HandlerReturn>,
    /// whether the response was claimed after the call
    pub answered: bool,
    /// whether the internal-error marker was set after the call
    pub raised: bool,
}

/// Whether the chain moves past a handler that behaved this way.
pub open spec fn obs_continues(o: HandlerObs) -> bool {
    o.canned is None && !o.answered && !o.raised
}

/// How a chain run ended.
pub enum ChainEnd {
    /// a handler returned a canned page, recorded for finalization
    Canned(HandlerReturn),
    /// a handler answered by setting the response
    Answered,
    /// a handler raised the internal-error marker and the internal-error
    /// handler ran at the next iteration boundary
    Diverted,
    /// every handler passed
    Fallthrough,
}

/// The first index whose handler stops the chain, or the length if every
/// handler lets it continue.
pub open spec fn chain_stop(all: Seq<HandlerObs>) -> int
    decreases all.len(),
{
    if all.len() == 0 {
        0
    } else if !obs_continues(all[0]) {
        0
    } else {
        1 + chain_stop(all.skip(1))
    }
}

/// How a chain of `n` handlers whose behaviors are `all` ends, under the
/// per-iteration rules: a canned page or an answered response stops the
/// chain at once; the internal-error check stands at every iteration
/// boundary, including the one after the last handler, so a raised marker
/// always diverts the chain to the internal-error handler.
pub open spec fn chain_end_of(all: Seq<HandlerObs>, n: int) -> ChainEnd
    recommends
        all.len() == n,
{
    let i = chain_stop(all);
    if i >= n {
        ChainEnd::Fallthrough
    } else if all[i].canned is Some {
        ChainEnd::Canned(all[i].canned.unwrap())
    } else if all[i].answered {
        ChainEnd::Answered
    } else {
        ChainEnd::Diverted
    }
}

/// A scan that finds every handler before `k` continuing, and the one at
/// `k` stopping unless `k` is the length, has found `chain_stop`.
pub proof fn lemma_chain_stop_from_scan(all: Seq<HandlerObs>, k: int)
    requires
        0 <= k <= all.len(),
        forall|j: int| 0 <= j < k ==> obs_continues(#[trigger] all[j]),
        k < all.len() ==> !obs_continues(all[k]),
    ensures
        chain_stop(all) == k,
    decreases k,
{
    if k == 0 {
    } else {
        assert(obs_continues(all[0]));
        lemma_chain_stop_from_scan(all.skip(1), k - 1);
    }
}

/// The end of the chain is decided by the handlers up to and including the
/// first that stops it: changing the handlers after that index changes
/// nothing, for they are never consulted.
pub proof fn lemma_chain_first_answer(all1: Seq<HandlerObs>, all2: Seq<HandlerObs>, n: int)
    requires
        all1.len() == n,
        all2.len() == n,
        forall|j: int| 0 <= j <= chain_stop(all1) && j < n ==> all2[j] == #[trigger] all1[j],
    ensures
        chain_stop(all2) == chain_stop(all1),
        chain_end_of(all2, n) == chain_end_of(all1, n),
{
    let k = chain_stop_is_first(all1);
    assert forall|j: int| 0 <= j < k implies obs_continues(#[trigger] all2[j]) by {
        assert(all2[j] == all1[j]);
    }
    if k < n {
        assert(all2[k] == all1[k]);
    }
    lemma_chain_stop_from_scan(all2, k);
}

/// `chain_stop` is indeed a first stopping index; returns it.
proof fn chain_stop_is_first(all: Seq<HandlerObs>) -> (k: int)
    ensures
        k == chain_stop(all),
        0 <= k <= all.len(),
        forall|j: int| 0 <= j < k ==> obs_continues(#[trigger] all[j]),
        k < all.len() ==> !obs_continues(all[k]),
    decreases all.len(),
{
    if all.len() == 0 {
        0
    } else if !obs_continues(all[0]) {
        0
    } else {
        let k0 = chain_stop_is_first(all.skip(1));
        assert forall|j: int| 0 <= j < 1 + k0 implies obs_continues(#[trigger] all[j]) by {
            if j >= 1 {
                assert(all[j] == all.skip(1)[j - 1]);
            }
        }
        if 1 + k0 < all.len() {
            assert(all[1 + k0] == all.skip(1)[k0]);
        }
        1 + k0
    }
}

/// After a handler raises the internal-error marker, returning success
/// without answering, no later handler runs: the chain ends diverted to
/// the internal-error handler at the next iteration boundary, the one
/// after the last handler included.
pub proof fn lemma_chain_internal_error_diversion(all: Seq<HandlerObs>, n: int, i: int)
    requires
        all.len() == n,
        0 <= i < n,
        forall|j: int| 0 <= j < i ==> obs_continues(#[trigger] all[j]),
        all[i].canned is None && !all[i].answered && all[i].raised,
    ensures
        chain_stop(all) == i,
        chain_end_of(all, n) == ChainEnd::Diverted,
{
    lemma_chain_stop_from_scan(all, i);
}

/// Everything a chain run reports: the observations of the invoked
/// handlers, in order, and how the run ended.
pub struct ChainTrace {
    /// the observations of the invoked handlers
    pub obs: Seq<HandlerObs>,
    /// how the run ended
    pub end: ChainEnd,
}

/// A reported trace is truthful: only its last observed handler may stop
/// the chain, and however the uninvoked handlers would have behaved, the
/// chain of all `n` handlers ends as reported -- the handlers after the
/// first answer are never consulted.
pub open spec fn trace_matches(t: ChainTrace, n: int) -> bool {
    &&& t.obs.len() <= n
    &&& forall|j: int| 0 <= j < t.obs.len() - 1 ==> obs_continues(#[trigger] t.obs[j])
    &&& forall|all: Seq<HandlerObs>|
        (all.len() == n && #[trigger] all.take(t.obs.len() as int) == t.obs) ==> chain_end_of(
            all,
            n,
        ) == t.end
}

/// A run that stops as one of the four ends describe reports a truthful
/// trace.
proof fn lemma_trace_from_exit(obs: Seq<HandlerObs>, n: int, end: ChainEnd)
    requires
        obs.len() <= n,
        forall|j: int| 0 <= j < obs.len() - 1 ==> obs_continues(#[trigger] obs[j]),
        match end {
            ChainEnd::Canned(hr) => obs.len() >= 1 && obs.last().canned == Some(hr),
            ChainEnd::Answered => obs.len() >= 1 && obs.last().canned is None
                && obs.last().answered,
            ChainEnd::Diverted => obs.len() >= 1 && obs.last().canned is None
                && !obs.last().answered && obs.last().raised,
            ChainEnd::Fallthrough => obs.len() == n && (n == 0 || obs_continues(obs.last())),
        },
    ensures
        trace_matches(ChainTrace { obs, end }, n),
{
    let t = ChainTrace { obs, end };
    assert forall|all: Seq<HandlerObs>|
        (all.len() == n && #[trigger] all.take(t.obs.len() as int) == t.obs) implies chain_end_of(
        all,
        n,
    ) == t.end by {
        let len = obs.len() as int;
        assert forall|j: int| 0 <= j < len implies all[j] == obs[j] by {
            assert(all.take(len)[j] == all[j]);
        }
        match end {
            ChainEnd::Canned(hr) => {
                lemma_chain_stop_from_scan(all, len - 1);
            },
            ChainEnd::Answered => {
                lemma_chain_stop_from_scan(all, len - 1);
            },
            ChainEnd::Diverted => {
                lemma_chain_stop_from_scan(all, len - 1);
            },
            ChainEnd::Fallthrough => {
                if n > 0 {
                    lemma_chain_stop_from_scan(all, len);
                }
            },
        }
    }
}

/// Runs the configured handlers in order over the context: at each
/// iteration boundary -- before every handler, and once more after the
/// last -- a raised internal-error marker diverts the chain to the
/// internal-error handler, which runs once; a canned page or an answered
/// response stops the iteration at once. Returns the canned page, if one
/// was returned, and the trace of the run.
pub fn run_chain<T, H: Handler<T>, E: ErrorHandler<T>>(
    handlers: &Vec<H>,
    error_handler: &E,
    req: &Request,
    ctx: &mut Context<T>,
) -> (r: (Option<HandlerReturn>, Ghost<ChainTrace>))
    ensures
        ({
            let t = r.1@;
            &&& (old(ctx)@.internal_error is None ==> trace_matches(t, handlers@.len() as int))
            &&& (old(ctx)@.internal_error is Some ==> t.obs.len() == 0 && t.end is Diverted)
            &&& match t.end {
                ChainEnd::Canned(hr) => r.0 == Some(hr),
                _ => r.0 is None,
            }
            &&& (t.end is Answered ==> !final(ctx)@.response.unset)
            &&& (t.end is Fallthrough ==> final(ctx)@.response.unset == (if t.obs.len() == 0 {
                old(ctx)@.response.unset
            } else {
                true
            }))
        }),
{
    let n = handlers.len();
    let ghost mut obs: Seq<HandlerObs> = Seq::empty();
    let mut i: usize = 0;
    while i < n
        invariant
            n == handlers@.len(),
            i <= n,
            obs.len() == i,
            forall|j: int| 0 <= j < i - 1 ==> obs_continues(#[trigger] obs[j]),
            i >= 1 ==> obs[i - 1].canned is None && !obs[i - 1].answered,
            (if i == 0 {
                old(ctx)@.internal_error is Some
            } else {
                obs[i - 1].raised
            }) == (ctx@.internal_error is Some),
            i >= 1 ==> old(ctx)@.internal_error is None,
            i >= 1 ==> ctx@.response.unset,
            i == 0 ==> ctx@.response.unset == old(ctx)@.response.unset,
        decreases n - i,
    {
        if ctx.is_internal_error().is_some() {
            error_handler.handle_error(req, ctx);
            proof {
                if i >= 1 {
                    lemma_trace_from_exit(obs, n as int, ChainEnd::Diverted);
                }
            }
            return (None, Ghost(ChainTrace { obs, end: ChainEnd::Diverted }));
        }
        let h = &handlers[i];
        let result = h.handle(req, ctx);
        let unset_now = ctx.response().is_unset();
        let raised_now = ctx.is_internal_error().is_some();
        match result {
            Err(hr) => {
                let ghost ghr = hr;
                proof {
                    obs = obs.push(
                        HandlerObs { canned: Some(ghr), answered: !unset_now, raised: raised_now },
                    );
                    lemma_trace_from_exit(obs, n as int, ChainEnd::Canned(ghr));
                }
                return (Some(hr), Ghost(ChainTrace { obs, end: ChainEnd::Canned(ghr) }));
            },
            Ok(_) => {
                proof {
                    obs = obs.push(
                        HandlerObs { canned: None, answered: !unset_now, raised: raised_now },
                    );
                }
                if !unset_now {
                    proof {
                        lemma_trace_from_exit(obs, n as int, ChainEnd::Answered);
                    }
                    return (None, Ghost(ChainTrace { obs, end: ChainEnd::Answered }));
                }
            },
        }
        i = i + 1;
    }
    if ctx.is_internal_error().is_some() {
        error_handler.handle_error(req, ctx);
        proof {
            if n >= 1 {
                lemma_trace_from_exit(obs, n as int, ChainEnd::Diverted);
            }
        }
        return (None, Ghost(ChainTrace { obs, end: ChainEnd::Diverted }));
    }
    proof {
        lemma_trace_from_exit(obs, n as int, ChainEnd::Fallthrough);
    }
    (None, Ghost(ChainTrace { obs, end: ChainEnd::Fallthrough }))
}

/// Finalizes the response after the chain: a recorded canned page
/// overwrites the response with its status and text, whatever a handler
/// had set before; otherwise a response nobody answered becomes the
/// fallthrough page, status 404 with body `Not Found`; a response a
/// handler answered is delivered as the handler left it.
pub fn finalize_response<T>(ctx: &mut Context<T>, canned: Option<HandlerReturn>)
    ensures
        final(ctx)@.logs == old(ctx)@.logs,
        final(ctx)@.deferred == old(ctx)@.deferred,
        final(ctx)@.default_content_type == old(ctx)@.default_content_type,
        final(ctx)@.internal_error == old(ctx)@.internal_error,
        final(ctx)@.response.headers == old(ctx)@.response.headers,
        !final(ctx)@.response.unset,
        match canned {
            Some(hr) => final(ctx)@.response.status == hr.status && final(ctx)@.response.body
                == encode_utf8(hr.text@),
            None => if old(ctx)@.response.unset {
                final(ctx)@.response.status == 404 && final(ctx)@.response.body == encode_utf8(
                    "Not Found"@,
                )
            } else {
                final(ctx)@.response == old(ctx)@.response
            },
        },
{
    match canned {
        Some(hr) => {
            ctx.response().status(hr.status).text(hr.text.as_str());
        },
        None => {
            if ctx.response().is_unset() {
                ctx.response().status(404).text("Not Found");
            }
        },
    }
}

/// The default internal-error handler: appends one `Error`-severity log
/// entry naming the request URL and the error's message, and renders a
/// friendly page -- status 200, content type `text/plain; charset=utf-8`,
/// and a short apology -- into the response.
pub fn default_internal_error_handler<T>(req: &Request, ctx: &mut Context<T>)
    ensures
        final(ctx)@.deferred == old(ctx)@.deferred,
        final(ctx)@.default_content_type == old(ctx)@.default_content_type,
        final(ctx)@.internal_error == old(ctx)@.internal_error,
        final(ctx)@.logs.len() == old(ctx)@.logs.len() + 1,
        final(ctx)@.logs == old(ctx)@.logs.push(final(ctx)@.logs.last()),
        ({
            let e = final(ctx)@.logs.last();
            &&& e.severity == Severity::Error
            &&& e.fields.len() == 3
            &&& e.fields[0] == ("_"@, "InternalError"@)
            &&& e.fields[1] == ("url"@, url_str_of(req@.url))
            &&& e.fields[2].0 == "error"@
            &&& (old(ctx)@.internal_error matches Some(err) ==> e.fields[2].1
                == crate::error::spec_message(err))
            &&& (old(ctx)@.internal_error is None ==> e.fields[2].1 == "none"@)
        }),
        final(ctx)@.response.status == 200,
        final(ctx)@.response.body == encode_utf8(
            "Sorry, an internal error has occurred. It has been logged."@,
        ),
        !final(ctx)@.response.unset,
        final(ctx)@.response.headers == crate::response::headers_after_set(
            old(ctx)@.response.headers,
            "Content-Type"@,
            "text/plain; charset=utf-8"@,
        ),
{
    let error_text: String = match ctx.is_internal_error() {
        Some(e) => e.message(),
        None => "none".to_owned(),
    };
    let url = url_str(req.url());
    let mut fields: Vec<(String, String)> = Vec::new();
    fields.push(("_".to_owned(), "InternalError".to_owned()));
    fields.push(("url".to_owned(), url));
    fields.push(("error".to_owned(), error_text));
    let entry = LogEntry { severity: Severity::Error, fields };
    ctx.log(entry);
    ctx.response().status(200);
    proof {
        reveal_strlit("text/plain; charset=utf-8");
        assert(vstd::string::is_ascii("text/plain; charset=utf-8"));
    }
    match ctx.response().content_type("text/plain; charset=utf-8") {
        Ok(_) => {},
        Err(_) => {
            proof {
                assert(false);
            }
        },
    }
    ctx.response().text("Sorry, an internal error has occurred. It has been logged.");
}

/// The default internal-error handler as a configuration value.
#[derive(Clone, Copy, Debug)]
pub struct DefaultInternalErrorHandler;

impl<T> ErrorHandler<T> for DefaultInternalErrorHandler {
    fn handle_error(&self, req: &Request, ctx: &mut Context<T>) {
        default_internal_error_handler(req, ctx);
    }
}

/// Builds the service-trace log entry: one `Verbose` entry recording the
/// request's method and URL and the response's final status.
pub fn service_trace_entry(req: &Request, status: u16) -> (r: LogEntry)
    ensures
        r@.severity == Severity::Verbose,
        r@.fields.len() == 4,
        r@.fields[0] == ("_"@, "service"@),
        r@.fields[1] == ("method"@, method_name(req@.method)),
        r@.fields[2] == ("url"@, url_str_of(req@.url)),
        r@.fields[3] == ("status"@, spec_decimal(status as int)),
{
    let mut fields: Vec<(String, String)> = Vec::new();
    fields.push(("_".to_owned(), "service".to_owned()));
    fields.push(("method".to_owned(), req.method().name().to_owned()));
    fields.push(("url".to_owned(), url_str(req.url())));
    fields.push(("status".to_owned(), decimal_string(status)));
    LogEntry { severity: Severity::Verbose, fields }
}

/// Handles one request: runs the handler chain over a fresh context,
/// finalizes the response, appends the service-trace log entry, and drains
/// the context into the deferred bundle. The returned trace reports which
/// handler settled the chain and how; the finalized response follows it:
/// a canned page is delivered exactly, and where every handler passed the
/// response is the 404 fallthrough page.
pub fn process_request<T, L, H: Handler<T>, E: ErrorHandler<T>>(
    config: ServiceConfig<L, H, E>,
    req: &Request,
) -> (r: (Response, DeferredData<L, T>, Ghost<ChainTrace>))
    ensures
        ({
            let t = r.2@;
            &&& trace_matches(t, config.handlers@.len() as int)
            &&& !r.0@.unset
            &&& (match t.end {
                ChainEnd::Canned(hr) => r.0@.status == hr.status && r.0@.body == encode_utf8(
                    hr.text@,
                ),
                ChainEnd::Fallthrough => r.0@.status == 404 && r.0@.body == encode_utf8(
                    "Not Found"@,
                ),
                _ => true,
            })
        }),
        r.1.logs.deep_view().len() >= 1,
        ({
            let e = r.1.logs.deep_view().last();
            &&& e.severity == Severity::Verbose
            &&& e.fields.len() == 4
            &&& e.fields[0] == ("_"@, "service"@)
            &&& e.fields[1] == ("method"@, method_name(req@.method))
            &&& e.fields[2] == ("url"@, url_str_of(req@.url))
            &&& e.fields[3] == ("status"@, spec_decimal(r.0@.status as int))
        }),
{
    let ServiceConfig { logger, handlers, internal_error_handler } = config;
    let mut ctx: Context<T> = Context::default();
    let (canned, trace) = run_chain(&handlers, &internal_error_handler, req, &mut ctx);
    finalize_response(&mut ctx, canned);
    let response = ctx.take_response();
    let entry = service_trace_entry(req, response.get_status());
    ctx.log(entry);
    let logs = ctx.take_logs();
    let tasks = ctx.take_tasks();
    (response, DeferredData { logger, tasks, logs }, trace)
}

/// Runs the post-response pipeline: first the request's queued log entries
/// are shipped in one batch under the stream name `http`; then every
/// deferred task runs, in the order the tasks were queued, each given the
/// shared run context; last, whatever entries the tasks logged are shipped
/// in a second `http` batch. A send failure never propagates: its message
/// is returned, and the run goes on. The sink thus receives at most two
/// batches, the request batch always strictly before the deferred batch.
/// The shapes the sink's history may take after the deferred run: of the
/// request batch and the deferred batch, each delivered only if its send
/// succeeded, and the request batch always first.
pub open spec fn deferred_delivery(
    h0: Seq<(Seq<char>, Seq<LogEntryView>)>,
    h1: Seq<(Seq<char>, Seq<LogEntryView>)>,
    request: Seq<LogEntryView>,
    dlogs: Seq<LogEntryView>,
) -> bool {
    let request_batch = ("http"@, request);
    let deferred_batch = ("http"@, dlogs);
    ||| h1 == h0.push(request_batch).push(deferred_batch)
    ||| h1 == h0.push(request_batch)
    ||| h1 == h0.push(deferred_batch)
    ||| h1 == h0
}

pub fn run_deferred<L: LogSink, T: Runnable>(
    logger: &mut L,
    logs: Vec<LogEntry>,
    tasks: &Vec<T>,
) -> (errors: Vec<String>)
    ensures
        errors@.len() <= 2,
        exists|dlogs: Seq<LogEntryView>| #[trigger] deferred_delivery(
            old(logger).sent(),
            final(logger).sent(),
            logs.deep_view(),
            dlogs,
        ),
        errors@.len() == 0 ==> exists|dlogs: Seq<LogEntryView>|
            #[trigger] deferred_delivery(
                old(logger).sent(),
                final(logger).sent(),
                logs.deep_view(),
                dlogs,
            ) && final(logger).sent() == old(logger).sent().push(("http"@, logs.deep_view())).push(
                ("http"@, dlogs),
            ),
{
    let ghost h0 = logger.sent();
    let ghost lview = logs.deep_view();
    let mut errors: Vec<String> = Vec::new();
    let mut first_ok = true;
    match logger.send("http", logs) {
        Ok(_) => {},
        Err(e) => {
            errors.push(e);
            first_ok = false;
        },
    }
    let ghost h_mid = logger.sent();
    let mut run_ctx = RunContext::new();
    let n = tasks.len();
    let mut i: usize = 0;
    while i < n
        invariant
            n == tasks@.len(),
            i <= n,
            logger.sent() == h_mid,
            h_mid == (if first_ok {
                h0.push(("http"@, lview))
            } else {
                h0
            }),
            errors@.len() == (if first_ok {
                0int
            } else {
                1int
            }),
        decreases n - i,
    {
        let t = &tasks[i];
        t.run(&mut run_ctx);
        i = i + 1;
    }
    let dlogs = run_ctx.take_logs();
    let ghost w = dlogs.deep_view();
    match logger.send("http", dlogs) {
        Ok(_) => {},
        Err(e) => {
            errors.push(e);
        },
    }
    proof {
        assert(deferred_delivery(h0, logger.sent(), lview, w));
    }
    errors
}


} // verus!
