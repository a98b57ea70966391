//! Debugging sessions: the state a session reports, the interface that
//! interpreters implement for it, and what the user interface does with the
//! outcome of a step.

use vstd::prelude::*;
use vstd::string::StringExecFns;

use crate::interpreter::CodeLine;

verus! {

/// `serde_json::Value`, carried through as the interpreter's own state.
#[verifier::external_type_specification]
#[verifier::external_body]
pub struct ExJsonValue(serde_json::Value);

/// The state of a debugged program.
#[derive(Debug)]
pub struct DebugState {
    /// The program counter: the index of the current instruction.
    pub pc: Option<CodeLine>,
    /// The output so far.
    pub stdout: Vec<u8>,
    /// Whether the program stopped.
    pub halted: bool,
    /// The interpreter's own state, as any JSON.
    pub state: serde_json::Value,
    /// What the debug panel shows.
    pub info: (),
}

/// A debugging session, implemented by the users of the library. Errors are
/// reported as their display text. An implementation may say, by `stepped`,
/// `resumed` and `reports`, which outcomes a step and a resumption can have,
/// what becomes of the session, and which state it reports; by default
/// every outcome is possible.
pub trait DebugSession: Sized {
    /// Whether a step from this session can give `result` and leave the
    /// session as `next`.
    open spec fn stepped(&self, next: Self, result: Result<DebugState, String>) -> bool {
        true
    }

    /// Whether resuming this session towards `breakpoints` can give `result`
    /// and leave the session as `next`.
    open spec fn resumed(
        &self,
        breakpoints: Seq<CodeLine>,
        next: Self,
        result: Result<DebugState, String>,
    ) -> bool {
        true
    }

    /// Executes one instruction and gives the state after it.
    fn step(&mut self) -> (r: Result<DebugState, String>)
        ensures
            old(self).stepped(*final(self), r),
    ;

    /// Runs until a breakpoint is reached or the program ends.
    fn resume_until_breakpoint(&mut self, breakpoints: &[CodeLine]) -> (r: Result<
        DebugState,
        String,
    >)
        ensures
            old(self).resumed(breakpoints@, *final(self), r),
    ;

    /// Whether this session can report `state` as its current state.
    open spec fn reports(&self, state: DebugState) -> bool {
        true
    }

    /// The current state.
    fn current_state(&self) -> (r: DebugState)
        ensures
            self.reports(r),
    ;

    /// Whether the program has ended (its counter ran off the end, or it
    /// failed).
    fn is_terminated(&self) -> bool;
}

/// Whether the last debug state and the last run output went from
/// (`state`, `output`) to (`state2`, `output2`) by recording `outcome`: the
/// new state, or the error after `prefix` as the output.
pub open spec fn recorded(
    outcome: Result<DebugState, String>,
    prefix: Seq<char>,
    state: Option<DebugState>,
    output: String,
    state2: Option<DebugState>,
    output2: String,
) -> bool {
    match outcome {
        Ok(s) => state2 == Some(s) && output2 == output,
        Err(e) => state2 == state && output2@ == prefix + e@,
    }
}

/// Whether a step was taken and recorded: some outcome that a step of
/// `before` can have leaves the session as `after` and is recorded, an error
/// after "Step error: ".
pub open spec fn step_recorded<S: DebugSession>(
    before: S,
    after: S,
    state: Option<DebugState>,
    output: String,
    state2: Option<DebugState>,
    output2: String,
) -> bool {
    exists|outcome: Result<DebugState, String>|
        #[trigger] before.stepped(after, outcome) && recorded(
            outcome,
            "Step error: "@,
            state,
            output,
            state2,
            output2,
        )
}

/// Whether the session was resumed and the outcome recorded: some outcome
/// that resuming `before` towards `breakpoints` can have leaves the session
/// as `after` and is recorded, an error after "Resume error: ".
pub open spec fn resume_recorded<S: DebugSession>(
    before: S,
    breakpoints: Seq<CodeLine>,
    after: S,
    state: Option<DebugState>,
    output: String,
    state2: Option<DebugState>,
    output2: String,
) -> bool {
    exists|outcome: Result<DebugState, String>|
        #[trigger] before.resumed(breakpoints, after, outcome) && recorded(
            outcome,
            "Resume error: "@,
            state,
            output,
            state2,
            output2,
        )
}

/// Records the outcome of a step or a resumption: the new state, or the
/// error, after `prefix`, as the last run output.
pub fn record_debug_outcome(
    outcome: Result<DebugState, String>,
    prefix: &str,
    last_debug_state: &mut Option<DebugState>,
    last_run_output: &mut String,
)
    ensures
        recorded(
            outcome,
            prefix@,
            *old(last_debug_state),
            *old(last_run_output),
            *final(last_debug_state),
            *final(last_run_output),
        ),
{
    match outcome {
        Ok(s) => {
            *last_debug_state = Some(s);
        },
        Err(e) => {
            let mut line = prefix.to_owned();
            line.append(e.as_str());
            *last_run_output = line;
        },
    }
}

/// Takes one step in the open session, if any: the session stays open as
/// the step leaves it, and the new state, or "Step error: " and the error as
/// the last run output, is recorded. Without a session nothing changes.
pub fn step_debug<S: DebugSession>(
    session: &mut Option<S>,
    last_debug_state: &mut Option<DebugState>,
    last_run_output: &mut String,
)
    ensures
        *old(session) is None ==> {
            &&& *final(session) == *old(session)
            &&& *final(last_debug_state) == *old(last_debug_state)
            &&& *final(last_run_output) == *old(last_run_output)
        },
        *old(session) is Some ==> (*final(session) is Some && step_recorded(
            (*old(session))->0,
            (*final(session))->0,
            *old(last_debug_state),
            *old(last_run_output),
            *final(last_debug_state),
            *final(last_run_output),
        )),
{
    match session.take() {
        Some(mut s) => {
            let ghost before = s;
            let outcome = s.step();
            let ghost o = outcome;
            let ghost after = s;
            record_debug_outcome(outcome, "Step error: ", last_debug_state, last_run_output);
            *session = Some(s);
            assert(before.stepped(after, o));
            assert(step_recorded(
                before,
                after,
                *old(last_debug_state),
                *old(last_run_output),
                *last_debug_state,
                *last_run_output,
            ));
        },
        None => {},
    }
}

/// Runs the open session, if any, to the next of `breakpoints`: the session
/// stays open as the run leaves it, and the new state, or "Resume error: "
/// and the error as the last run output, is recorded. Without a session
/// nothing changes.
pub fn resume_debug<S: DebugSession>(
    session: &mut Option<S>,
    breakpoints: &[CodeLine],
    last_debug_state: &mut Option<DebugState>,
    last_run_output: &mut String,
)
    ensures
        *old(session) is None ==> {
            &&& *final(session) == *old(session)
            &&& *final(last_debug_state) == *old(last_debug_state)
            &&& *final(last_run_output) == *old(last_run_output)
        },
        *old(session) is Some ==> (*final(session) is Some && resume_recorded(
            (*old(session))->0,
            breakpoints@,
            (*final(session))->0,
            *old(last_debug_state),
            *old(last_run_output),
            *final(last_debug_state),
            *final(last_run_output),
        )),
{
    match session.take() {
        Some(mut s) => {
            let ghost before = s;
            let outcome = s.resume_until_breakpoint(breakpoints);
            let ghost o = outcome;
            let ghost after = s;
            record_debug_outcome(outcome, "Resume error: ", last_debug_state, last_run_output);
            *session = Some(s);
            assert(before.resumed(breakpoints@, after, o));
            assert(resume_recorded(
                before,
                breakpoints@,
                after,
                *old(last_debug_state),
                *old(last_run_output),
                *last_debug_state,
                *last_run_output,
            ));
        },
        None => {},
    }
}

/// Ends the session: no session and no state are left.
pub fn stop_debug<S>(session: &mut Option<S>, last_debug_state: &mut Option<DebugState>)
    ensures
        *final(session) is None,
        *final(last_debug_state) is None,
{
    *session = None;
    *last_debug_state = None;
}

} // verus!
