//! What the user interface does with the worker's replies and with the
//! user's choices, apart from drawing and sending.

use vstd::prelude::*;
use vstd::string::{StrSliceExecFns, StringExecFns};

use crate::debug::{DebugSession, DebugState};
use crate::encoding::string_from_utf8_lossy;
use crate::interpreter::RunRequest;
use crate::terminal_panel::TerminalPanel;
use crate::worker::FromWorkerMsg;

verus! {

/// The text shown in the language selector when no language is chosen or
/// the chosen one is not offered.
pub open spec fn no_language_label() -> Seq<char> {
    "Select language"@
}

/// The (id, name) pairs as text.
pub open spec fn pairs_view(pairs: Seq<(String, String)>) -> Seq<(Seq<char>, Seq<char>)> {
    pairs.map_values(|p: (String, String)| (p.0@, p.1@))
}

/// The name of the first pair with the id `id`, as `Iterator::find` finds it.
pub open spec fn name_for(pairs: Seq<(Seq<char>, Seq<char>)>, id: Seq<char>) -> Option<Seq<char>>
    decreases pairs.len(),
{
    if pairs.len() == 0 {
        None
    } else if pairs[0].0 == id {
        Some(pairs[0].1)
    } else {
        name_for(pairs.drop_first(), id)
    }
}

/// The label of the language selector: the name of the first language with
/// the chosen id, or the prompt to select one.
pub open spec fn language_label_spec(pairs: Seq<(Seq<char>, Seq<char>)>, selected: Option<Seq<char>>) -> Seq<
    char,
> {
    match selected {
        Some(id) => match name_for(pairs, id) {
            Some(name) => name,
            None => no_language_label(),
        },
        None => no_language_label(),
    }
}

proof fn lemma_name_for_first(pairs: Seq<(Seq<char>, Seq<char>)>, id: Seq<char>, i: int)
    requires
        0 <= i < pairs.len(),
        pairs[i].0 == id,
        forall|j: int| 0 <= j < i ==> #[trigger] pairs[j].0 != id,
    ensures
        name_for(pairs, id) == Some(pairs[i].1),
    decreases i,
{
    if i > 0 {
        let rest = pairs.drop_first();
        assert forall|j: int| 0 <= j < i - 1 implies #[trigger] rest[j].0 != id by {
            assert(rest[j] == pairs[j + 1]);
        }
        assert(pairs[0].0 != id);
        lemma_name_for_first(rest, id, i - 1);
    }
}

proof fn lemma_name_for_none(pairs: Seq<(Seq<char>, Seq<char>)>, id: Seq<char>)
    requires
        forall|j: int| 0 <= j < pairs.len() ==> #[trigger] pairs[j].0 != id,
    ensures
        name_for(pairs, id) is None,
    decreases pairs.len(),
{
    if pairs.len() > 0 {
        let rest = pairs.drop_first();
        assert forall|j: int| 0 <= j < rest.len() implies #[trigger] rest[j].0 != id by {
            assert(rest[j] == pairs[j + 1]);
        }
        assert(pairs[0].0 != id);
        lemma_name_for_none(rest, id);
    }
}

/// The selector shows the name of the first offered language whose id is
/// the selected one, wherever it stands among the offered ones; it shows
/// "Select language" only when no offered language has that id, or none is
/// selected.
pub proof fn lemma_label_names_selected(
    pairs: Seq<(Seq<char>, Seq<char>)>,
    id: Seq<char>,
    i: int,
)
    ensures
        0 <= i < pairs.len() && pairs[i].0 == id && (forall|j: int|
            0 <= j < i ==> #[trigger] pairs[j].0 != id) ==> language_label_spec(pairs, Some(id))
            == pairs[i].1,
        (forall|j: int| 0 <= j < pairs.len() ==> #[trigger] pairs[j].0 != id)
            ==> language_label_spec(pairs, Some(id)) == "Select language"@,
        language_label_spec(pairs, None) == "Select language"@,
{
    if 0 <= i < pairs.len() && pairs[i].0 == id && (forall|j: int|
        0 <= j < i ==> #[trigger] pairs[j].0 != id) {
        lemma_name_for_first(pairs, id, i);
    }
    if forall|j: int| 0 <= j < pairs.len() ==> #[trigger] pairs[j].0 != id {
        lemma_name_for_none(pairs, id);
    }
}

/// Decisions of the user interface that do not draw anything.
pub struct AppController;

impl AppController {
    /// Applies one reply of the worker: a finished run's stdout (read as
    /// UTF-8, invalid sequences replaced) and a run's error go to the
    /// terminal; a failed debugging session's error becomes the last run
    /// output; a change of interpreter is announced on the terminal when a
    /// language is selected; an opened debugging session becomes the open
    /// one, and the state it reports the last debug state; the worker's
    /// confirmation of a shutdown changes nothing.
    pub fn apply_worker_msg<S: DebugSession>(
        terminal: &mut TerminalPanel,
        last_run_output: &mut String,
        selected_language: &Option<String>,
        debug_session: &mut Option<S>,
        last_debug_state: &mut Option<DebugState>,
        msg: FromWorkerMsg<S>,
    )
        ensures
            !(msg matches FromWorkerMsg::DebugStarted(Ok(_))) ==> {
                &&& *final(debug_session) == *old(debug_session)
                &&& *final(last_debug_state) == *old(last_debug_state)
            },
            match msg {
                FromWorkerMsg::RunFinished(result) => {
                    &&& final(terminal)@ == crate::terminal_model::pushed(
                        old(terminal)@,
                        crate::encoding::utf8_lossy(result.stdout@),
                    )
                    &&& *final(last_run_output) == *old(last_run_output)
                },
                FromWorkerMsg::RunError(err) => {
                    &&& final(terminal)@ == crate::terminal_model::pushed(
                        old(terminal)@,
                        "Run error: "@ + err@,
                    )
                    &&& *final(last_run_output) == *old(last_run_output)
                },
                FromWorkerMsg::DebugStarted(Ok(s)) => {
                    &&& final(terminal)@ == old(terminal)@
                    &&& *final(last_run_output) == *old(last_run_output)
                    &&& *final(debug_session) == Some(s)
                    &&& *final(last_debug_state) is Some
                    &&& s.reports((*final(last_debug_state))->0)
                },
                FromWorkerMsg::DebugStarted(Err(err)) => {
                    &&& final(terminal)@ == old(terminal)@
                    &&& final(last_run_output)@ == "Start debug error: "@ + err@
                },
                FromWorkerMsg::InterpreterUpdated => {
                    &&& final(terminal)@ == match selected_language {
                        Some(lang) => crate::terminal_model::pushed(
                            old(terminal)@,
                            "The interpreter has been changed to: "@ + lang@ + "."@,
                        ),
                        None => old(terminal)@,
                    }
                    &&& *final(last_run_output) == *old(last_run_output)
                },
                FromWorkerMsg::WorkerShutdown => {
                    &&& final(terminal)@ == old(terminal)@
                    &&& *final(last_run_output) == *old(last_run_output)
                },
            },
    {
        match msg {
            FromWorkerMsg::RunFinished(result) => {
                let text = string_from_utf8_lossy(result.stdout.as_slice());
                terminal.push_output(text.as_str());
            },
            FromWorkerMsg::RunError(err) => {
                let mut line = "Run error: ".to_owned();
                line.append(err.as_str());
                terminal.push_output(line.as_str());
            },
            FromWorkerMsg::DebugStarted(Ok(s)) => {
                let state = s.current_state();
                *debug_session = Some(s);
                *last_debug_state = Some(state);
            },
            FromWorkerMsg::DebugStarted(Err(err)) => {
                let mut line = "Start debug error: ".to_owned();
                line.append(err.as_str());
                *last_run_output = line;
            },
            FromWorkerMsg::InterpreterUpdated => {
                match selected_language {
                    Some(lang) => {
                        let mut line = "The interpreter has been changed to: ".to_owned();
                        line.append(lang.as_str());
                        line.append(".");
                        terminal.push_output(line.as_str());
                    },
                    None => {},
                }
            },
            FromWorkerMsg::WorkerShutdown => {},
        }
    }

    /// The label of the language selector for the offered (id, name) pairs
    /// and the selected id.
    pub fn language_label(available: &Vec<(String, String)>, selected: &Option<String>) -> (r:
        String)
        ensures
            r@ == language_label_spec(pairs_view(available@), crate::terminal_model::option_text(*selected)),
    {
        let ghost pairs = pairs_view(available@);
        assert(pairs.skip(0) =~= pairs);
        match selected {
            Some(id) => {
                let n = available.len();
                let mut i: usize = 0;
                while i < n
                    invariant
                        n == available@.len(),
                        pairs == pairs_view(available@),
                        crate::terminal_model::option_text(*selected) == Some(id@),
                        i <= n,
                        name_for(pairs, id@) == name_for(pairs.skip(i as int), id@),
                    decreases n - i,
                {
                    if available[i].0 == *id {
                        let name = available[i].1.clone();
                        assert(pairs.skip(i as int)[0] == pairs[i as int]);
                        return name;
                    }
                    assert(pairs.skip(i as int).drop_first() =~= pairs.skip(i + 1));
                    i += 1;
                }
                assert(pairs.skip(n as int).len() == 0);
                "Select language".to_owned()
            },
            None => "Select language".to_owned(),
        }
    }

    /// Hands the line typed in the terminal, if one is pending, to a run:
    /// the line is taken, echoed after "> ", and the request to run `code`
    /// on it is given. Without a pending line nothing changes.
    pub fn take_typed_run(terminal: &mut TerminalPanel, code: String) -> (r: Option<RunRequest>)
        ensures
            match old(terminal)@.3 {
                Some(line) => {
                    &&& final(terminal)@ == crate::terminal_model::pushed(
                        crate::terminal_model::taken(old(terminal)@),
                        "> "@ + line,
                    )
                    &&& r matches Some(req) && req.code == code && req.input@
                        == vstd::utf8::encode_utf8(line)
                },
                None => final(terminal)@ == old(terminal)@ && r is None,
            },
    {
        match terminal.take_input() {
            Some(input) => {
                let mut echo = "> ".to_owned();
                echo.append(input.as_str());
                terminal.push_output(echo.as_str());
                Some(Self::run_request(code, input.as_str()))
            },
            None => None,
        }
    }

    /// The request to run the editor's program on the typed input, given as
    /// its UTF-8 bytes.
    pub fn run_request(code: String, input: &str) -> (r: RunRequest)
        ensures
            r.code == code,
            r.input@ == vstd::utf8::encode_utf8(input@),
    {
        RunRequest { code, input: input.as_bytes_vec() }
    }
}

} // verus!
