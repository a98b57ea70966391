use esolang_ide::worker::run_reply;
use esolang_ide::{FromWorkerMsg, Interpreter, RunMetrics, RunRequest, RunResult, ToWorkerMsg, Worker};

struct Echo {
    tag: u8,
}

impl Interpreter for Echo {
    type Session = String;

    fn run(&mut self, req: &RunRequest) -> Result<RunResult, String> {
        if req.code == "fail" {
            return Err("boom".to_string());
        }
        Ok(RunResult {
            stdout: vec![self.tag],
            stderr: req.input.clone(),
            exit_code: Some(0),
            metrics: RunMetrics::default(),
        })
    }

    fn start_debug(&mut self, code: String) -> Result<String, String> {
        if code.is_empty() {
            Err("no code".to_string())
        } else {
            Ok(code)
        }
    }
}

fn req(code: &str) -> RunRequest {
    RunRequest { code: code.to_string(), input: vec![1, 2] }
}

#[test]
fn run_replies() {
    let mut w = Worker::new(Echo { tag: 7 });
    match w.handle_message(ToWorkerMsg::Run(req("ok"))) {
        (FromWorkerMsg::RunFinished(r), true) => {
            assert_eq!(r.stdout, vec![7]);
            assert_eq!(r.stderr, vec![1, 2]);
        }
        _ => panic!("expected RunFinished"),
    }
    match w.handle_message(ToWorkerMsg::Run(req("fail"))) {
        (FromWorkerMsg::RunError(e), true) => assert_eq!(e, "boom"),
        _ => panic!("expected RunError"),
    }
}

#[test]
fn update_replaces_the_interpreter() {
    let mut w = Worker::new(Echo { tag: 1 });
    assert!(matches!(
        w.handle_message(ToWorkerMsg::UpdateInterpreter(Echo { tag: 9 })),
        (FromWorkerMsg::InterpreterUpdated, true)
    ));
    match w.handle_message(ToWorkerMsg::Run(req("ok"))) {
        (FromWorkerMsg::RunFinished(r), _) => assert_eq!(r.stdout, vec![9]),
        _ => panic!("expected RunFinished"),
    }
}

#[test]
fn debug_and_shutdown() {
    let mut w = Worker::new(Echo { tag: 1 });
    match w.handle_message(ToWorkerMsg::StartDebug("code".to_string())) {
        (FromWorkerMsg::DebugStarted(Ok(s)), true) => assert_eq!(s, "code"),
        _ => panic!("expected a session"),
    }
    match w.handle_message(ToWorkerMsg::StartDebug(String::new())) {
        (FromWorkerMsg::DebugStarted(Err(e)), true) => assert_eq!(e, "no code"),
        _ => panic!("expected an error"),
    }
    assert!(matches!(w.handle_message(ToWorkerMsg::Shutdown), (FromWorkerMsg::WorkerShutdown, false)));
}

#[test]
fn run_reply_maps_the_result() {
    let r: FromWorkerMsg<()> = run_reply(Err("x".to_string()));
    assert!(matches!(r, FromWorkerMsg::RunError(e) if e == "x"));
}
