//! Collecting the output of an interpreter process: the decisions of the
//! loop that gathers what the stdout and stderr readers send while it waits
//! for the process to exit. The loop itself (channels, sleeping, waiting on
//! the process) is the application's; it reports what it saw as an event
//! and does what the collector answers.

use vstd::prelude::*;


verus! {

/// A chunk of output sent by one of the readers.
pub enum StreamMsg {
    Stdout(Vec<u8>),
    Stderr(Vec<u8>),
}

/// The message a reader sends after a read: the bytes it got, on the stream
/// it reads; none at the end of the stream (an empty read) or after a
/// failed read (`None`), which end the reader.
pub fn reader_message(is_stdout: bool, read: Option<Vec<u8>>) -> (r: Option<StreamMsg>)
    ensures
        match read {
            Some(bytes) if bytes@.len() > 0 => if is_stdout {
                r == Some(StreamMsg::Stdout(bytes))
            } else {
                r == Some(StreamMsg::Stderr(bytes))
            },
            _ => r is None,
        },
{
    match read {
        Some(bytes) => {
            if bytes.len() == 0 {
                None
            } else if is_stdout {
                Some(StreamMsg::Stdout(bytes))
            } else {
                Some(StreamMsg::Stderr(bytes))
            }
        },
        None => None,
    }
}

/// What the collecting loop saw.
pub enum CollectEvent {
    /// A reader's message arrived.
    Received(StreamMsg),
    /// No message is waiting, but the readers are still there.
    ChannelEmpty,
    /// Both readers are gone and no message is waiting.
    ChannelClosed,
    /// The process has not exited yet.
    ChildRunning,
    /// The process exited, with this exit code if it has one.
    ChildExited(Option<i32>),
    /// Asking the process for its status failed.
    ChildFailed,
}

/// What the collecting loop is to do next.
#[derive(Debug, Clone, Copy, PartialEq, Eq, Structural)]
pub enum CollectAction {
    /// Look for a message (without blocking).
    Receive,
    /// Ask whether the process has exited (without blocking).
    CheckChild,
    /// Pause briefly, then look for a message.
    SleepThenReceive,
    /// Block until the process exits.
    WaitChild,
    /// Stop: the process exited and both readers are gone with no message
    /// left, so the output and the exit code are complete.
    Finish,
    /// Stop: the process's status could not be had.
    Fail,
}

/// Where the collection stands.
#[derive(Debug, Clone, Copy, PartialEq, Eq, Structural)]
pub enum CollectPhase {
    /// Gathering messages while the process runs.
    Polling,
    /// No message was waiting; the process's status was asked for.
    AwaitingStatus,
    /// The readers are gone; waiting for the process to exit.
    Waiting,
    /// The process exited with this code; taking the readers' messages until
    /// both readers are gone.
    Draining(i32),
    /// Complete, with this exit code.
    Done(i32),
    /// The process's status could not be had.
    Failed,
}

/// The exit code reported for a process: its own, or -1 where it has none.
pub open spec fn reported_code(code: Option<i32>) -> i32 {
    match code {
        Some(c) => c,
        None => -1i32,
    }
}

/// Whether the collection still takes output.
pub open spec fn is_active(p: CollectPhase) -> bool {
    !(p is Done || p is Failed)
}

/// The next phase and the action, given the phase and what was seen.
pub open spec fn step_spec(p: CollectPhase, e: CollectEvent) -> (CollectPhase, CollectAction) {
    match p {
        CollectPhase::Polling => match e {
            CollectEvent::ChannelEmpty => (CollectPhase::AwaitingStatus, CollectAction::CheckChild),
            CollectEvent::ChannelClosed => (CollectPhase::Waiting, CollectAction::WaitChild),
            _ => (CollectPhase::Polling, CollectAction::Receive),
        },
        CollectPhase::AwaitingStatus => match e {
            CollectEvent::ChildRunning => (CollectPhase::Polling, CollectAction::SleepThenReceive),
            CollectEvent::ChildExited(code) => (
                CollectPhase::Draining(reported_code(code)),
                CollectAction::Receive,
            ),
            CollectEvent::ChildFailed => (CollectPhase::Failed, CollectAction::Fail),
            _ => (CollectPhase::AwaitingStatus, CollectAction::CheckChild),
        },
        CollectPhase::Waiting => match e {
            CollectEvent::ChildExited(code) => (
                CollectPhase::Done(reported_code(code)),
                CollectAction::Finish,
            ),
            CollectEvent::ChildFailed => (CollectPhase::Failed, CollectAction::Fail),
            _ => (CollectPhase::Waiting, CollectAction::WaitChild),
        },
        CollectPhase::Draining(code) => match e {
            CollectEvent::ChannelEmpty => (
                CollectPhase::Draining(code),
                CollectAction::SleepThenReceive,
            ),
            CollectEvent::ChannelClosed => (CollectPhase::Done(code), CollectAction::Finish),
            _ => (CollectPhase::Draining(code), CollectAction::Receive),
        },
        CollectPhase::Done(code) => (CollectPhase::Done(code), CollectAction::Finish),
        CollectPhase::Failed => (CollectPhase::Failed, CollectAction::Fail),
    }
}

/// The stdout bytes that the event `e` brings.
pub open spec fn stdout_chunk(e: CollectEvent) -> Seq<u8> {
    match e {
        CollectEvent::Received(StreamMsg::Stdout(b)) => b@,
        _ => Seq::empty(),
    }
}

/// The stderr bytes that the event `e` brings.
pub open spec fn stderr_chunk(e: CollectEvent) -> Seq<u8> {
    match e {
        CollectEvent::Received(StreamMsg::Stderr(b)) => b@,
        _ => Seq::empty(),
    }
}

/// (stdout so far, stderr so far, phase).
pub type CollectorModel = (Seq<u8>, Seq<u8>, CollectPhase);

/// The collector after the event `e`: while active it appends the bytes
/// that `e` brings, and it moves to the next phase.
pub open spec fn step_model(m: CollectorModel, e: CollectEvent) -> CollectorModel {
    if is_active(m.2) {
        (m.0 + stdout_chunk(e), m.1 + stderr_chunk(e), step_spec(m.2, e).0)
    } else {
        m
    }
}

/// The collector after the events `evs`, one after another.
pub open spec fn run_events(m: CollectorModel, evs: Seq<CollectEvent>) -> CollectorModel
    decreases evs.len(),
{
    if evs.len() == 0 {
        m
    } else {
        step_model(run_events(m, evs.drop_last()), evs.last())
    }
}

/// All stdout bytes that the events bring, in order.
pub open spec fn all_stdout(evs: Seq<CollectEvent>) -> Seq<u8>
    decreases evs.len(),
{
    if evs.len() == 0 {
        Seq::empty()
    } else {
        all_stdout(evs.drop_last()) + stdout_chunk(evs.last())
    }
}

/// All stderr bytes that the events bring, in order.
pub open spec fn all_stderr(evs: Seq<CollectEvent>) -> Seq<u8>
    decreases evs.len(),
{
    if evs.len() == 0 {
        Seq::empty()
    } else {
        all_stderr(evs.drop_last()) + stderr_chunk(evs.last())
    }
}

/// The collector's state: what the readers sent so far, per stream, and
/// where the collection stands.
pub struct OutputCollector {
    stdout: Vec<u8>,
    stderr: Vec<u8>,
    phase: CollectPhase,
}

impl View for OutputCollector {
    type V = CollectorModel;

    closed spec fn view(&self) -> CollectorModel {
        (self.stdout@, self.stderr@, self.phase)
    }
}

impl OutputCollector {
    /// Nothing collected; gathering messages.
    pub fn new() -> (c: Self)
        ensures
            c@ == (Seq::<u8>::empty(), Seq::<u8>::empty(), CollectPhase::Polling),
    {
        OutputCollector { stdout: Vec::new(), stderr: Vec::new(), phase: CollectPhase::Polling }
    }

    /// Takes in what the loop saw and says what it is to do next.
    pub fn step(&mut self, event: CollectEvent) -> (a: CollectAction)
        ensures
            final(self)@ == step_model(old(self)@, event),
            a == step_spec(old(self)@.2, event).1,
    {
        let phase = self.phase;
        let (next, action) = match phase {
            CollectPhase::Done(_) => {
                return CollectAction::Finish;
            },
            CollectPhase::Failed => {
                return CollectAction::Fail;
            },
            CollectPhase::Polling => match &event {
                CollectEvent::ChannelEmpty => (CollectPhase::AwaitingStatus, CollectAction::CheckChild),
                CollectEvent::ChannelClosed => (CollectPhase::Waiting, CollectAction::WaitChild),
                _ => (CollectPhase::Polling, CollectAction::Receive),
            },
            CollectPhase::AwaitingStatus => match &event {
                CollectEvent::ChildRunning => (CollectPhase::Polling, CollectAction::SleepThenReceive),
                CollectEvent::ChildExited(code) => (
                    CollectPhase::Draining(Self::code_or_default(*code)),
                    CollectAction::Receive,
                ),
                CollectEvent::ChildFailed => (CollectPhase::Failed, CollectAction::Fail),
                _ => (CollectPhase::AwaitingStatus, CollectAction::CheckChild),
            },
            CollectPhase::Waiting => match &event {
                CollectEvent::ChildExited(code) => (
                    CollectPhase::Done(Self::code_or_default(*code)),
                    CollectAction::Finish,
                ),
                CollectEvent::ChildFailed => (CollectPhase::Failed, CollectAction::Fail),
                _ => (CollectPhase::Waiting, CollectAction::WaitChild),
            },
            CollectPhase::Draining(code) => match &event {
                CollectEvent::ChannelEmpty => (
                    CollectPhase::Draining(code),
                    CollectAction::SleepThenReceive,
                ),
                CollectEvent::ChannelClosed => (CollectPhase::Done(code), CollectAction::Finish),
                _ => (CollectPhase::Draining(code), CollectAction::Receive),
            },
        };
        match event {
            CollectEvent::Received(StreamMsg::Stdout(bytes)) => {
                let ghost before = self.stdout@;
                let mut bytes = bytes;
                let ghost chunk = bytes@;
                self.stdout.append(&mut bytes);
                assert(self.stdout@ == before + chunk);
            },
            CollectEvent::Received(StreamMsg::Stderr(bytes)) => {
                let ghost before = self.stderr@;
                let mut bytes = bytes;
                let ghost chunk = bytes@;
                self.stderr.append(&mut bytes);
                assert(self.stderr@ == before + chunk);
            },
            _ => {},
        }
        self.phase = next;
        action
    }

    /// The exit code to report: the process's own, or -1.
    pub fn code_or_default(code: Option<i32>) -> (r: i32)
        ensures
            r == reported_code(code),
    {
        match code {
            Some(c) => c,
            None => -1,
        }
    }

    /// The collected stdout, stderr and exit code, once complete.
    pub fn into_output(self) -> (r: Option<(Vec<u8>, Vec<u8>, i32)>)
        ensures
            match self@.2 {
                CollectPhase::Done(code) => r matches Some(out) && out.0@ == self@.0 && out.1@
                    == self@.1 && out.2 == code,
                _ => r is None,
            },
    {
        match self.phase {
            CollectPhase::Done(code) => Some((self.stdout, self.stderr, code)),
            _ => None,
        }
    }
}

/// While the collection is active before each event, every byte the readers
/// send ends up in the output of its stream, in the order sent, after what
/// was collected before.
pub proof fn lemma_collects_every_byte(m: CollectorModel, evs: Seq<CollectEvent>)
    requires
        forall|k: int| 0 <= k < evs.len() ==> is_active(#[trigger] run_events(m, evs.take(k)).2),
    ensures
        run_events(m, evs).0 == m.0 + all_stdout(evs),
        run_events(m, evs).1 == m.1 + all_stderr(evs),
    decreases evs.len(),
{
    if evs.len() == 0 {
        assert(m.0 + all_stdout(evs) =~= m.0);
        assert(m.1 + all_stderr(evs) =~= m.1);
    } else {
        let init = evs.drop_last();
        assert forall|k: int| 0 <= k < init.len() implies is_active(
            #[trigger] run_events(m, init.take(k)).2,
        ) by {
            assert(init.take(k) =~= evs.take(k));
        }
        lemma_collects_every_byte(m, init);
        assert(evs.take(init.len() as int) =~= init);
        assert(is_active(run_events(m, evs.take(init.len() as int)).2));
        assert(run_events(m, evs).0 =~= m.0 + all_stdout(evs));
        assert(run_events(m, evs).1 =~= m.1 + all_stderr(evs));
    }
}

/// Once complete or failed, the collector stays so: no event changes its
/// output, its exit code or its answer.
pub proof fn lemma_finished_stays(m: CollectorModel, e: CollectEvent)
    requires
        !is_active(m.2),
    ensures
        step_model(m, e) == m,
        m.2 is Done ==> step_spec(m.2, e).1 == CollectAction::Finish,
        m.2 is Failed ==> step_spec(m.2, e).1 == CollectAction::Fail,
{
}

/// A process found exited while messages are being gathered is drained
/// before the collection completes, and is reported with its exit code, or
/// -1 where it has none.
pub proof fn lemma_exit_code_reported(code: Option<i32>)
    ensures
        step_spec(CollectPhase::AwaitingStatus, CollectEvent::ChildExited(code)) == (
            CollectPhase::Draining(reported_code(code)),
            CollectAction::Receive,
        ),
        step_spec(CollectPhase::Waiting, CollectEvent::ChildExited(code)) == (
            CollectPhase::Done(reported_code(code)),
            CollectAction::Finish,
        ),
        step_spec(CollectPhase::Draining(reported_code(code)), CollectEvent::ChannelEmpty) == (
            CollectPhase::Draining(reported_code(code)),
            CollectAction::SleepThenReceive,
        ),
        step_spec(CollectPhase::Draining(reported_code(code)), CollectEvent::ChannelClosed) == (
            CollectPhase::Done(reported_code(code)),
            CollectAction::Finish,
        ),
{
}

/// Whether, among the events `evs` from `m`, the channel was seen closed
/// (both readers gone, no message waiting) while the collection was active.
pub open spec fn closed_seen(m: CollectorModel, evs: Seq<CollectEvent>) -> bool
    decreases evs.len(),
{
    if evs.len() == 0 {
        false
    } else {
        closed_seen(m, evs.drop_last()) || (is_active(run_events(m, evs.drop_last()).2)
            && evs.last() is ChannelClosed)
    }
}

/// Whether the phase is one in which the readers have not been seen gone.
pub open spec fn before_close(p: CollectPhase) -> bool {
    p is Polling || p is AwaitingStatus || p is Draining
}

proof fn lemma_close_before_waiting(m: CollectorModel, evs: Seq<CollectEvent>)
    requires
        before_close(m.2),
    ensures
        (run_events(m, evs).2 is Waiting || run_events(m, evs).2 is Done) ==> closed_seen(m, evs),
    decreases evs.len(),
{
    if evs.len() > 0 {
        lemma_close_before_waiting(m, evs.drop_last());
    }
}

/// The collection completes only after both readers are seen gone with no
/// message left; so when the loop stops at its finish, the output of each
/// stream is what was there before followed by every byte the readers sent
/// on it, in order.
pub proof fn lemma_output_at_finish(m: CollectorModel, evs: Seq<CollectEvent>)
    requires
        before_close(m.2),
        forall|k: int| 0 <= k < evs.len() ==> is_active(#[trigger] run_events(m, evs.take(k)).2),
        run_events(m, evs).2 is Done,
    ensures
        closed_seen(m, evs),
        run_events(m, evs).0 == m.0 + all_stdout(evs),
        run_events(m, evs).1 == m.1 + all_stderr(evs),
{
    lemma_close_before_waiting(m, evs);
    lemma_collects_every_byte(m, evs);
}

/// While the collection is active, a message from a reader adds all of its
/// bytes, in order, to the end of the output of its own stream, leaves the
/// other stream as it was, and does not move the collection to another
/// phase.
pub proof fn lemma_message_appended(m: CollectorModel, msg: StreamMsg)
    requires
        is_active(m.2),
    ensures
        match msg {
            StreamMsg::Stdout(b) => {
                &&& step_model(m, CollectEvent::Received(msg)).0 == m.0 + b@
                &&& step_model(m, CollectEvent::Received(msg)).0.len() == m.0.len() + b@.len()
                &&& step_model(m, CollectEvent::Received(msg)).1 == m.1
            },
            StreamMsg::Stderr(b) => {
                &&& step_model(m, CollectEvent::Received(msg)).1 == m.1 + b@
                &&& step_model(m, CollectEvent::Received(msg)).1.len() == m.1.len() + b@.len()
                &&& step_model(m, CollectEvent::Received(msg)).0 == m.0
            },
        },
        step_model(m, CollectEvent::Received(msg)).2 == m.2,
{
    match msg {
        StreamMsg::Stdout(b) => {
            assert(m.1 + Seq::<u8>::empty() =~= m.1);
        },
        StreamMsg::Stderr(b) => {
            assert(m.0 + Seq::<u8>::empty() =~= m.0);
        },
    }
}

/// The exit code a collection moves to is that of the process: a step that
/// enters `Draining(c)` or `Done(c)` from another phase is one that saw the
/// process exit, and `c` is its exit code, or -1 where it has none; no
/// other step changes the code.
pub proof fn lemma_code_from_exit(p: CollectPhase, e: CollectEvent)
    requires
        is_active(p),
    ensures
        step_spec(p, e).0 matches CollectPhase::Draining(c) ==> p == CollectPhase::Draining(c)
            || (e matches CollectEvent::ChildExited(code) && (code matches Some(x) ==> c == x)
            && (code is None ==> c == -1)),
        step_spec(p, e).0 matches CollectPhase::Done(c) ==> p == CollectPhase::Draining(c) || (
        e matches CollectEvent::ChildExited(code) && (code matches Some(x) ==> c == x) && (
        code is None ==> c == -1)),
{
}

} // verus!
