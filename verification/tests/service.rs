use std::cell::Cell;
use std::rc::Rc;

use wasm_service::service::DefaultInternalErrorHandler;
use wasm_service::{
    handler_return, Context, Error, Handler, HandlerReturn, Headers, LogEntry, Method,
    RecordingSink, Request, RunContext, Runnable, ServiceConfig, Severity,
};

enum Action {
    Pass,
    HeaderOnly,
    TextIfPath(&'static str, &'static str),
    AnswerThenCanned(u16, &'static str),
    Canned(u16, &'static str),
    Raise(&'static str),
    JsonEcho,
    DeferBye,
}

struct TestHandler {
    action: Action,
    calls: Rc<Cell<u32>>,
}

impl TestHandler {
    fn new(action: Action) -> (TestHandler, Rc<Cell<u32>>) {
        let calls = Rc::new(Cell::new(0));
        let handler = TestHandler { action, calls: calls.clone() };
        (handler, calls)
    }
}

struct ByeTask;

impl Runnable for ByeTask {
    fn run(&self, ctx: &mut RunContext) {
        ctx.log(LogEntry {
            severity: Severity::Info,
            fields: vec![("msg".to_string(), "bye".to_string())],
        });
    }
}

impl Handler<ByeTask> for TestHandler {
    fn handle(&self, req: &Request, ctx: &mut Context<ByeTask>) -> Result<(), HandlerReturn> {
        self.calls.set(self.calls.get() + 1);
        match &self.action {
            Action::Pass => Ok(()),
            Action::HeaderOnly => {
                ctx.response().header("X-Seen", "yes").unwrap();
                Ok(())
            }
            Action::TextIfPath(path, body) => {
                if req.url().path() == *path {
                    ctx.response().text(body);
                }
                Ok(())
            }
            Action::AnswerThenCanned(status, text) => {
                ctx.response().status(200).text("partial answer");
                Err(handler_return(*status, text))
            }
            Action::Canned(status, text) => Err(handler_return(*status, text)),
            Action::Raise(msg) => {
                ctx.raise_internal_error(Error::Other(msg.to_string()));
                Ok(())
            }
            Action::JsonEcho => {
                let _incoming = req.json().unwrap();
                let mut map = serde_json::Map::new();
                map.insert("ok".to_string(), serde_json::Value::Bool(true));
                ctx.response().json(&serde_json::Value::Object(map)).unwrap();
                Ok(())
            }
            Action::DeferBye => {
                ctx.defer(ByeTask);
                ctx.response().text("OK");
                Ok(())
            }
        }
    }
}

fn request(method: Method, url: &str, body: Option<Vec<u8>>) -> Request {
    Request::new(method, url::Url::parse(url).unwrap(), Headers::new(), body)
}

fn config(handlers: Vec<TestHandler>) -> ServiceConfig<RecordingSink, TestHandler, DefaultInternalErrorHandler> {
    ServiceConfig {
        logger: RecordingSink::new(),
        handlers,
        internal_error_handler: DefaultInternalErrorHandler,
    }
}

fn error_entries(logs: &[LogEntry]) -> Vec<&LogEntry> {
    logs.iter().filter(|e| e.severity == Severity::Error).collect()
}

#[test]
fn get_root_answered_with_text() {
    let (h, calls) = TestHandler::new(Action::TextIfPath("/", "OK"));
    let req = request(Method::GET, "https://example.com/", None);
    let (resp, _data, _) = wasm_service::service::process_request(config(vec![h]), &req);
    assert_eq!(resp.get_status(), 200);
    assert_eq!(resp.get_body(), b"OK");
    assert!(resp.get_headers().is_none(), "the core sets no content type");
    assert_eq!(calls.get(), 1);
}

#[test]
fn get_missing_falls_through_to_404() {
    let (h, _) = TestHandler::new(Action::TextIfPath("/", "OK"));
    let req = request(Method::GET, "https://example.com/missing", None);
    let (resp, _data, _) = wasm_service::service::process_request(config(vec![h]), &req);
    assert_eq!(resp.get_status(), 404);
    assert_eq!(resp.get_body(), b"Not Found");
}

#[test]
fn canned_return_delivers_exact_page() {
    let (h, _) = TestHandler::new(Action::Canned(500, "<html>err</html>"));
    let req = request(Method::GET, "https://example.com/err", None);
    let (resp, _data, _) = wasm_service::service::process_request(config(vec![h]), &req);
    assert_eq!(resp.get_status(), 500);
    assert_eq!(resp.get_body(), b"<html>err</html>");
}

#[test]
fn canned_return_overrides_earlier_answer() {
    let (h, _) = TestHandler::new(Action::AnswerThenCanned(500, "<html>err</html>"));
    let req = request(Method::GET, "https://example.com/err", None);
    let (resp, _data, _) = wasm_service::service::process_request(config(vec![h]), &req);
    assert_eq!(resp.get_status(), 500);
    assert_eq!(resp.get_body(), b"<html>err</html>");
}

#[test]
fn post_api_json_round_trip() {
    let (h, _) = TestHandler::new(Action::JsonEcho);
    let req = request(Method::POST, "https://example.com/api", Some(br#"{"a":1}"#.to_vec()));
    let (resp, _data, _) = wasm_service::service::process_request(config(vec![h]), &req);
    assert_eq!(resp.get_status(), 200);
    assert_eq!(resp.get_body(), br#"{"ok":true}"#);
    let headers = resp.get_headers().unwrap();
    assert_eq!(headers.get("Content-Type").unwrap(), "application/json");
}

#[test]
fn internal_error_renders_friendly_page_and_logs_once() {
    let (boom, _) = TestHandler::new(Action::Raise("db down"));
    let (after, after_calls) = TestHandler::new(Action::TextIfPath("/", "should not run"));
    let req = request(Method::GET, "https://example.com/boom", None);
    let (resp, data, _) =
        wasm_service::service::process_request(config(vec![boom, after]), &req);

    assert_eq!(resp.get_status(), 200);
    assert_eq!(
        resp.get_body(),
        b"Sorry, an internal error has occurred. It has been logged."
    );
    let headers = resp.get_headers().unwrap();
    assert_eq!(headers.get("content-type").unwrap(), "text/plain; charset=utf-8");

    // no handler after the raising one runs
    assert_eq!(after_calls.get(), 0);

    // exactly one Error-severity entry, and it names the error
    let errors = error_entries(&data.logs);
    assert_eq!(errors.len(), 1);
    let entry = errors[0];
    assert!(entry
        .fields
        .iter()
        .any(|(k, v)| k == "error" && v == "db down"));
}

#[test]
fn internal_error_in_sole_handler_still_diverts() {
    // the marker is checked at every iteration boundary, the one after the
    // last handler included, so a raise by the sole handler still reaches
    // the internal-error handler
    let (boom, _) = TestHandler::new(Action::Raise("db down"));
    let req = request(Method::GET, "https://example.com/boom", None);
    let (resp, data, _) = wasm_service::service::process_request(config(vec![boom]), &req);
    assert_eq!(resp.get_status(), 200);
    assert_eq!(
        resp.get_body(),
        b"Sorry, an internal error has occurred. It has been logged."
    );
    let headers = resp.get_headers().unwrap();
    assert_eq!(headers.get("content-type").unwrap(), "text/plain; charset=utf-8");
    let errors = error_entries(&data.logs);
    assert_eq!(errors.len(), 1);
    assert!(errors[0]
        .fields
        .iter()
        .any(|(k, v)| k == "error" && v == "db down"));
}

#[test]
fn first_answer_wins_and_later_handlers_never_run() {
    let (first, first_calls) = TestHandler::new(Action::TextIfPath("/", "first"));
    let (second, second_calls) = TestHandler::new(Action::TextIfPath("/", "second"));
    let req = request(Method::GET, "https://example.com/", None);
    let (resp, _data, _) =
        wasm_service::service::process_request(config(vec![first, second]), &req);
    assert_eq!(resp.get_body(), b"first");
    assert_eq!(first_calls.get(), 1);
    assert_eq!(second_calls.get(), 0);
}

#[test]
fn header_only_handler_does_not_claim_the_response() {
    let (preamble, preamble_calls) = TestHandler::new(Action::HeaderOnly);
    let (answer, answer_calls) = TestHandler::new(Action::TextIfPath("/", "OK"));
    let req = request(Method::GET, "https://example.com/", None);
    let (resp, _data, _) =
        wasm_service::service::process_request(config(vec![preamble, answer]), &req);
    assert_eq!(resp.get_status(), 200);
    assert_eq!(resp.get_body(), b"OK");
    assert_eq!(preamble_calls.get(), 1);
    assert_eq!(answer_calls.get(), 1);
}

#[test]
fn every_handler_passing_gives_404_and_all_run() {
    let (a, a_calls) = TestHandler::new(Action::Pass);
    let (b, b_calls) = TestHandler::new(Action::Pass);
    let req = request(Method::GET, "https://example.com/", None);
    let (resp, _data, _) = wasm_service::service::process_request(config(vec![a, b]), &req);
    assert_eq!(resp.get_status(), 404);
    assert_eq!(resp.get_body(), b"Not Found");
    assert_eq!(a_calls.get(), 1);
    assert_eq!(b_calls.get(), 1);
}

#[test]
fn trace_entry_records_method_url_and_status() {
    let (h, _) = TestHandler::new(Action::TextIfPath("/", "OK"));
    let req = request(Method::GET, "https://example.com/", None);
    let (_resp, data, _) = wasm_service::service::process_request(config(vec![h]), &req);
    let trace = data.logs.last().unwrap();
    assert_eq!(trace.severity, Severity::Verbose);
    assert_eq!(trace.fields[0], ("_".to_string(), "service".to_string()));
    assert_eq!(trace.fields[1], ("method".to_string(), "GET".to_string()));
    assert_eq!(trace.fields[2], ("url".to_string(), "https://example.com/".to_string()));
    assert_eq!(trace.fields[3], ("status".to_string(), "200".to_string()));
}

#[test]
fn deferred_task_logs_ship_after_request_logs() {
    let (h, _) = TestHandler::new(Action::DeferBye);
    let req = request(Method::GET, "https://example.com/", None);
    let (resp, data, _) = wasm_service::service::process_request(config(vec![h]), &req);
    assert_eq!(resp.get_body(), b"OK");

    let mut sink = data.logger;
    let errors = wasm_service::service::run_deferred(&mut sink, data.logs, &data.tasks);
    assert!(errors.is_empty());

    // two http batches: first the request-time logs, then the deferred logs
    assert_eq!(sink.batches.len(), 2);
    assert_eq!(sink.batches[0].0, "http");
    assert_eq!(sink.batches[1].0, "http");
    let request_batch = &sink.batches[0].1;
    assert!(request_batch.iter().any(|e| e.severity == Severity::Verbose));
    let deferred_batch = &sink.batches[1].1;
    assert_eq!(deferred_batch.len(), 1);
    assert_eq!(deferred_batch[0].fields[0], ("msg".to_string(), "bye".to_string()));
}

#[test]
fn send_failures_never_propagate() {
    let (h, _) = TestHandler::new(Action::DeferBye);
    let req = request(Method::GET, "https://example.com/", None);
    let cfg = ServiceConfig {
        logger: wasm_service::FailingSink { message: "sink down".to_string() },
        handlers: vec![h],
        internal_error_handler: DefaultInternalErrorHandler,
    };
    let (resp, data, _) = wasm_service::service::process_request(cfg, &req);
    assert_eq!(resp.get_body(), b"OK");

    let mut sink = data.logger;
    let errors = wasm_service::service::run_deferred(&mut sink, data.logs, &data.tasks);
    assert_eq!(errors, vec!["sink down".to_string(), "sink down".to_string()]);
}

#[test]
fn default_config_handles_nothing() {
    let cfg: ServiceConfig<
        wasm_service::SilentSink,
        TestHandler,
        DefaultInternalErrorHandler,
    > = Default::default();
    let req = request(Method::GET, "https://example.com/", None);
    let (resp, _data, _) = wasm_service::service::process_request(cfg, &req);
    assert_eq!(resp.get_status(), 404);
    assert_eq!(resp.get_body(), b"Not Found");
}
