//! The worker's side of the conversation with the user interface: the
//! messages, and what the worker does with each. The thread and the channels
//! that carry the messages are the application's.

use vstd::prelude::*;

use crate::interpreter::{Interpreter, RunRequest, RunResult};

verus! {

/// A message to the worker. `I` is the type of interpreter it runs.
pub enum ToWorkerMsg<I> {
    /// Run a program.
    Run(RunRequest),
    /// Use another interpreter from now on.
    UpdateInterpreter(I),
    /// Open a debugging session on a program.
    StartDebug(String),
    /// Stop the worker.
    Shutdown,
}

/// A message from the worker. `S` is the type of debugging session.
pub enum FromWorkerMsg<S> {
    /// A run finished.
    RunFinished(RunResult),
    /// A run failed; the error's text.
    RunError(String),
    /// The interpreter was replaced.
    InterpreterUpdated,
    /// The outcome of opening a debugging session.
    DebugStarted(Result<S, String>),
    /// The worker stopped.
    WorkerShutdown,
}

/// The reply to a run, given what the interpreter returned.
pub fn run_reply<S>(result: Result<RunResult, String>) -> (r: FromWorkerMsg<S>)
    ensures
        match result {
            Ok(res) => r == FromWorkerMsg::<S>::RunFinished(res),
            Err(e) => r == FromWorkerMsg::<S>::RunError(e),
        },
{
    match result {
        Ok(res) => FromWorkerMsg::RunFinished(res),
        Err(e) => FromWorkerMsg::RunError(e),
    }
}

/// Whether `reply` answers a run of `req`: the reply to an outcome that
/// running `req` on `before` can have while leaving the interpreter as `after`.
pub open spec fn run_replied<I: Interpreter>(
    before: I,
    req: RunRequest,
    after: I,
    reply: FromWorkerMsg<I::Session>,
) -> bool {
    match reply {
        FromWorkerMsg::RunFinished(res) => before.ran(req, after, Ok(res)),
        FromWorkerMsg::RunError(e) => before.ran(req, after, Err(e)),
        _ => false,
    }
}

/// Whether `reply` answers a request to debug `code`: it carries an outcome
/// that opening a session on `before` can have while leaving the interpreter
/// as `after`.
pub open spec fn debug_replied<I: Interpreter>(
    before: I,
    code: String,
    after: I,
    reply: FromWorkerMsg<I::Session>,
) -> bool {
    match reply {
        FromWorkerMsg::DebugStarted(res) => before.debug_started(code, after, res),
        _ => false,
    }
}

/// The worker: the interpreter that serves the requests.
pub struct Worker<I> {
    interpreter: I,
}

impl<I: Interpreter> Worker<I> {
    /// The interpreter currently in use.
    pub closed spec fn current_interpreter(&self) -> I {
        self.interpreter
    }

    pub fn new(interpreter: I) -> (w: Self)
        ensures
            w.current_interpreter() == interpreter,
    {
        Worker { interpreter }
    }

    /// Handles one message: gives the reply to send back, and whether to go
    /// on serving (only a shutdown stops the worker).
    pub fn handle_message(&mut self, msg: ToWorkerMsg<I>) -> (r: (FromWorkerMsg<I::Session>, bool))
        ensures
            match msg {
                ToWorkerMsg::Run(req) => r.1 && run_replied(
                    old(self).current_interpreter(),
                    req,
                    final(self).current_interpreter(),
                    r.0,
                ),
                ToWorkerMsg::UpdateInterpreter(new_interp) => {
                    &&& r.1
                    &&& r.0 is InterpreterUpdated
                    &&& final(self).current_interpreter() == new_interp
                },
                ToWorkerMsg::StartDebug(code) => r.1 && debug_replied(
                    old(self).current_interpreter(),
                    code,
                    final(self).current_interpreter(),
                    r.0,
                ),
                ToWorkerMsg::Shutdown => {
                    &&& !r.1
                    &&& r.0 is WorkerShutdown
                    &&& final(self).current_interpreter() == old(self).current_interpreter()
                },
            },
    {
        match msg {
            ToWorkerMsg::Run(req) => (self.handle_run(&req), true),
            ToWorkerMsg::UpdateInterpreter(new_interp) => (
                self.handle_update_interpreter(new_interp),
                true,
            ),
            ToWorkerMsg::StartDebug(code) => (self.handle_start_debug(code), true),
            ToWorkerMsg::Shutdown => (self.handle_shutdown(), false),
        }
    }

    /// Runs a program and replies with what the interpreter returned.
    pub fn handle_run(&mut self, req: &RunRequest) -> (r: FromWorkerMsg<I::Session>)
        ensures
            run_replied(old(self).current_interpreter(), *req, final(self).current_interpreter(), r),
    {
        let result = self.interpreter.run(req);
        run_reply(result)
    }

    /// Replaces the interpreter.
    pub fn handle_update_interpreter(&mut self, new_interp: I) -> (r: FromWorkerMsg<I::Session>)
        ensures
            r is InterpreterUpdated,
            final(self).current_interpreter() == new_interp,
    {
        self.interpreter = new_interp;
        FromWorkerMsg::InterpreterUpdated
    }

    /// Opens a debugging session and replies with the outcome.
    pub fn handle_start_debug(&mut self, code: String) -> (r: FromWorkerMsg<I::Session>)
        ensures
            debug_replied(old(self).current_interpreter(), code, final(self).current_interpreter(), r),
    {
        let result = self.interpreter.start_debug(code);
        FromWorkerMsg::DebugStarted(result)
    }

    /// The reply that confirms a shutdown.
    pub fn handle_shutdown(&self) -> (r: FromWorkerMsg<I::Session>)
        ensures
            r is WorkerShutdown,
    {
        FromWorkerMsg::WorkerShutdown
    }
}

} // verus!
