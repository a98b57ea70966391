use esolang_ide::debug::{resume_debug, step_debug, stop_debug};
use esolang_ide::{AppController, CodeLine, DebugSession, DebugState, FromWorkerMsg, RunMetrics, RunResult, TerminalPanel};

struct Fixed {
    pc: usize,
}

impl DebugSession for Fixed {
    fn step(&mut self) -> Result<DebugState, String> {
        self.pc += 1;
        Ok(self.current_state())
    }
    fn resume_until_breakpoint(&mut self, _breakpoints: &[CodeLine]) -> Result<DebugState, String> {
        Err("no".to_string())
    }
    fn current_state(&self) -> DebugState {
        DebugState { pc: Some(self.pc), stdout: Vec::new(), halted: false, state: serde_json::Value::Null, info: () }
    }
    fn is_terminated(&self) -> bool {
        false
    }
}

struct Ctx {
    t: TerminalPanel,
    last: String,
    session: Option<Fixed>,
    state: Option<DebugState>,
}

impl Ctx {
    fn new() -> Self {
        Ctx { t: TerminalPanel::default(), last: String::new(), session: None, state: None }
    }
    fn apply(&mut self, lang: &Option<String>, msg: FromWorkerMsg<Fixed>) {
        AppController::apply_worker_msg(&mut self.t, &mut self.last, lang, &mut self.session, &mut self.state, msg);
    }
}

fn result(stdout: &[u8]) -> RunResult {
    RunResult { stdout: stdout.to_vec(), stderr: Vec::new(), exit_code: Some(0), metrics: RunMetrics::default() }
}

#[test]
fn run_finished_writes_stdout() {
    let mut c = Ctx::new();
    c.apply(&None, FromWorkerMsg::RunFinished(result(b"-5")));
    assert_eq!(c.t.output(), "-5");
    c.apply(&None, FromWorkerMsg::RunFinished(result(&[0x66, 0xff])));
    assert_eq!(c.t.output(), "-5\nf\u{fffd}");
    assert_eq!(c.last, "");
    assert!(c.session.is_none());
}

#[test]
fn run_error_and_interpreter_change() {
    let mut c = Ctx::new();
    c.apply(&None, FromWorkerMsg::RunError("bad".to_string()));
    assert_eq!(c.t.output(), "Run error: bad");
    c.apply(&None, FromWorkerMsg::InterpreterUpdated);
    assert_eq!(c.t.output(), "Run error: bad");
    c.apply(&Some("ststst".to_string()), FromWorkerMsg::InterpreterUpdated);
    assert_eq!(c.t.output(), "Run error: bad\nThe interpreter has been changed to: ststst.");
}

#[test]
fn debug_started() {
    let mut c = Ctx::new();
    c.apply(&None, FromWorkerMsg::DebugStarted(Ok(Fixed { pc: 4 })));
    assert_eq!(c.session.as_ref().map(|s| s.pc), Some(4));
    assert_eq!(c.state.as_ref().and_then(|s| s.pc), Some(4));
    c.apply(&None, FromWorkerMsg::DebugStarted(Err("Debug not implemented".to_string())));
    assert_eq!(c.last, "Start debug error: Debug not implemented");
    assert_eq!(c.session.as_ref().map(|s| s.pc), Some(4));
    assert_eq!(c.t.output(), "");
}

#[test]
fn step_resume_and_stop() {
    let mut c = Ctx::new();
    step_debug(&mut c.session, &mut c.state, &mut c.last);
    assert!(c.state.is_none() && c.last.is_empty());
    c.session = Some(Fixed { pc: 0 });
    step_debug(&mut c.session, &mut c.state, &mut c.last);
    assert_eq!(c.state.as_ref().and_then(|s| s.pc), Some(1));
    resume_debug(&mut c.session, &[3], &mut c.state, &mut c.last);
    assert_eq!(c.last, "Resume error: no");
    assert_eq!(c.state.as_ref().and_then(|s| s.pc), Some(1));
    stop_debug(&mut c.session, &mut c.state);
    assert!(c.session.is_none() && c.state.is_none());
}

#[test]
fn shutdown_reply_changes_nothing() {
    let mut c = Ctx::new();
    c.apply(&None, FromWorkerMsg::RunError("x".to_string()));
    c.apply(&Some("a".to_string()), FromWorkerMsg::WorkerShutdown);
    assert_eq!(c.t.output(), "Run error: x");
    assert_eq!(c.last, "");
    assert!(c.session.is_none() && c.state.is_none());
}

#[test]
fn typed_line_becomes_a_run() {
    let mut t = TerminalPanel::default();
    assert!(AppController::take_typed_run(&mut t, "code".to_string()).is_none());
    assert_eq!(t.output(), "");
    t.push_output("Please input:");
    t.request_input();
    t.set_input_line(" 15 10 ".to_string());
    t.commit_input();
    let req = AppController::take_typed_run(&mut t, "INPUT INPUT SUB OUTPUT".to_string()).unwrap();
    assert_eq!(req.code, "INPUT INPUT SUB OUTPUT");
    assert_eq!(req.input, b"15 10".to_vec());
    assert_eq!(t.output(), "Please input:\n> 15 10");
    assert!(AppController::take_typed_run(&mut t, String::new()).is_none());
}

#[test]
fn language_label_picks_the_first_name() {
    let pairs = vec![
        ("a".to_string(), "Alpha".to_string()),
        ("b".to_string(), "Beta".to_string()),
        ("a".to_string(), "Again".to_string()),
    ];
    assert_eq!(AppController::language_label(&pairs, &Some("a".to_string())), "Alpha");
    assert_eq!(AppController::language_label(&pairs, &Some("b".to_string())), "Beta");
    assert_eq!(AppController::language_label(&pairs, &Some("c".to_string())), "Select language");
    assert_eq!(AppController::language_label(&pairs, &None), "Select language");
}

#[test]
fn run_request_carries_code_and_bytes() {
    let r = AppController::run_request("INPUT INPUT SUB OUTPUT".to_string(), "15 10");
    assert_eq!(r.code, "INPUT INPUT SUB OUTPUT");
    assert_eq!(r.input, b"15 10".to_vec());
    assert_eq!(AppController::run_request(String::new(), "é").input, vec![0xc3, 0xa9]);
}
