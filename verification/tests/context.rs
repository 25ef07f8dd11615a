use wasm_service::{Context, Error, LogEntry, RunContext, Runnable, Severity};

struct Marker(&'static str);

impl Runnable for Marker {
    fn run(&self, ctx: &mut RunContext) {
        ctx.log(LogEntry {
            severity: Severity::Info,
            fields: vec![("mark".to_string(), self.0.to_string())],
        });
    }
}

#[test]
fn context_starts_fresh() {
    let mut ctx: Context<Marker> = Context::default();
    assert_eq!(ctx.response().get_status(), 200);
    assert_eq!(ctx.response().get_body().len(), 0);
    assert_eq!(ctx.response().is_empty(), true);
    assert!(ctx.response().is_unset());
    assert!(ctx.is_internal_error().is_none());
    assert!(ctx.get_default_content_type().is_none());
    assert!(ctx.take_logs().is_empty());
    assert!(ctx.take_tasks().is_empty());
}

#[test]
fn context_take_response_resets_it() {
    let mut ctx: Context<Marker> = Context::default();
    ctx.response().status(201).text("made");
    let resp = ctx.take_response();
    assert_eq!(resp.get_status(), 201);
    assert_eq!(resp.get_body(), b"made");
    // the context holds a fresh, unset response again
    assert!(ctx.response().is_unset());
    assert_eq!(ctx.response().get_status(), 200);
}

#[test]
fn context_queues_logs_in_order() {
    let mut ctx: Context<Marker> = Context::default();
    ctx.log(LogEntry {
        severity: Severity::Info,
        fields: vec![("n".to_string(), "1".to_string())],
    });
    ctx.log(LogEntry {
        severity: Severity::Warning,
        fields: vec![("n".to_string(), "2".to_string())],
    });
    let logs = ctx.take_logs();
    assert_eq!(logs.len(), 2);
    assert_eq!(logs[0].fields[0].1, "1");
    assert_eq!(logs[1].fields[0].1, "2");
    // the queue is drained exactly once
    assert!(ctx.take_logs().is_empty());
}

#[test]
fn context_queues_deferred_tasks_in_order() {
    let mut ctx: Context<Marker> = Context::default();
    ctx.defer(Marker("a"));
    ctx.defer(Marker("b"));
    let tasks = ctx.take_tasks();
    assert_eq!(tasks.len(), 2);
    assert_eq!(tasks[0].0, "a");
    assert_eq!(tasks[1].0, "b");
    assert!(ctx.take_tasks().is_empty());
}

#[test]
fn context_records_default_content_type() {
    let mut ctx: Context<Marker> = Context::default();
    ctx.default_content_type("text/html; charset=utf-8");
    assert_eq!(
        ctx.get_default_content_type().unwrap(),
        "text/html; charset=utf-8"
    );
}

#[test]
fn context_internal_error_marker() {
    let mut ctx: Context<Marker> = Context::default();
    assert!(ctx.is_internal_error().is_none());
    ctx.raise_internal_error(Error::Other("boom".to_string()));
    match ctx.is_internal_error() {
        Some(Error::Other(m)) => assert_eq!(m, "boom"),
        _ => panic!("expected the raised marker"),
    }
}

#[test]
fn run_context_collects_task_logs() {
    let mut rc = RunContext::new();
    Marker("x").run(&mut rc);
    Marker("y").run(&mut rc);
    let logs = rc.take_logs();
    assert_eq!(logs.len(), 2);
    assert_eq!(logs[0].fields[0].1, "x");
    assert_eq!(logs[1].fields[0].1, "y");
}
