//! Requests to and results from interpreters, the interface an interpreter
//! implements, and the external (process-based) interpreter's settings.

use vstd::prelude::*;

use crate::config::ExtInterpreterConfig;

verus! {

/// Bytes as they go into or come out of an interpreter.
pub type ByteBuf = Vec<u8>;

/// An instruction index in a program.
pub type CodeLine = usize;

/// A request to run a program.
#[derive(Debug, Clone)]
pub struct RunRequest {
    /// The program's source text.
    pub code: String,
    /// The bytes handed to the program as its input.
    pub input: ByteBuf,
}

/// Figures about a run; none of them assumes a particular language's memory
/// model.
#[derive(Debug, Clone)]
pub struct RunMetrics {
    /// How many instructions were executed.
    pub step: Option<CodeLine>,
    /// The most memory in use at any time.
    pub max_memory_bytes: Option<usize>,
    /// How long the run took, in milliseconds.
    pub duration_ms: Option<u128>,
}

impl Default for RunMetrics {
    fn default() -> (r: Self)
        ensures
            r.step is None,
            r.max_memory_bytes is None,
            r.duration_ms is None,
    {
        RunMetrics { step: None, max_memory_bytes: None, duration_ms: None }
    }
}

/// What a run produced.
#[derive(Debug, Clone)]
pub struct RunResult {
    pub stdout: ByteBuf,
    pub stderr: ByteBuf,
    pub exit_code: Option<i32>,
    pub metrics: RunMetrics,
}

/// An interpreter of some language, implemented by the users of the
/// library. Errors are reported as their display text. An implementation
/// may say, by `ran` and `debug_started`, which outcomes its methods can have
/// and what becomes of it; by default every outcome is possible (as for a
/// run that starts a process).
pub trait Interpreter: Sized {
    /// A debugging session that `start_debug` opens.
    type Session;

    /// Whether running `req` from this interpreter can give `result` and
    /// leave the interpreter as `next`.
    open spec fn ran(&self, req: RunRequest, next: Self, result: Result<RunResult, String>) -> bool {
        true
    }

    /// Whether opening a session on `code` from this interpreter can give
    /// `result` and leave the interpreter as `next`.
    open spec fn debug_started(
        &self,
        code: String,
        next: Self,
        result: Result<Self::Session, String>,
    ) -> bool {
        true
    }

    /// Runs a program to its end.
    fn run(&mut self, req: &RunRequest) -> (r: Result<RunResult, String>)
        ensures
            old(self).ran(*req, *final(self), r),
    ;

    /// Opens a debugging session on a program.
    fn start_debug(&mut self, code: String) -> (r: Result<Self::Session, String>)
        ensures
            old(self).debug_started(code, *final(self), r),
    ;
}

/// An interpreter that runs as a separate program, given by the path of its
/// executable.
#[derive(Debug)]
pub struct ExternalInterpreter {
    pub exe_path: String,
}

/// The executable path that `with_language_id` picks: that of the
/// interpreter configured for the id, or the empty path.
pub open spec fn chosen_exe_path(config: ExtInterpreterConfig, language_id: Option<Seq<char>>) -> Seq<
    char,
> {
    match language_id {
        Some(id) => match crate::config::lookup(config@, id) {
            Some(m) => m.1,
            None => Seq::empty(),
        },
        None => Seq::empty(),
    }
}

/// The path chosen for the language id of any entry of a configuration is
/// that entry's own executable path; for an id no entry has, or no id, it is
/// empty.
pub proof fn lemma_chosen_path_is_the_entrys(
    config: ExtInterpreterConfig,
    i: int,
    other: Seq<char>,
)
    requires
        crate::config::ids_distinct(config@),
        0 <= i < config@.len(),
        forall|j: int| 0 <= j < config@.len() ==> #[trigger] config@[j].0 != other,
    ensures
        chosen_exe_path(config, Some(config@[i].0)) == config@[i].1.1,
        chosen_exe_path(config, Some(other)).len() == 0,
        chosen_exe_path(config, None).len() == 0,
{
    crate::config::lemma_offered_languages(config@);
    assert(crate::config::pairs_of(config@)[i].0 == config@[i].0);
    assert(!crate::config::has_id(config@, other));
}

impl ExternalInterpreter {
    pub fn new(exe_path: String) -> (r: Self)
        ensures
            r.exe_path == exe_path,
    {
        ExternalInterpreter { exe_path }
    }

    /// The external interpreter configured for `language_id`; one with an
    /// empty path where there is no id or nothing is configured for it.
    pub fn with_language_id(config: &ExtInterpreterConfig, language_id: Option<&String>) -> (r: Self)
        ensures
            r.exe_path@ == chosen_exe_path(
                *config,
                match language_id {
                    Some(id) => Some(id@),
                    None => None,
                },
            ),
            language_id is Some && crate::config::lookup(config@, language_id->0@) is Some
                ==> r.exe_path@ == crate::config::lookup(config@, language_id->0@).unwrap().1,
            language_id is Some && crate::config::lookup(config@, language_id->0@) is None
                ==> r.exe_path@.len() == 0,
            language_id is None ==> r.exe_path@.len() == 0,
    {
        match language_id {
            Some(id) => match config.get(id.as_str()) {
                Some(cfg) => ExternalInterpreter::new(cfg.exe_path.clone()),
                None => ExternalInterpreter::new(String::new()),
            },
            None => ExternalInterpreter::new(String::new()),
        }
    }
}

} // verus!
