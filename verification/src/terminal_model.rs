//! The model of a terminal panel: its output text, the line being typed,
//! whether typing is allowed, and the line handed in and not yet taken.

use vstd::prelude::*;

verus! {

/// (output, input line, input allowed, pending input).
pub type TerminalModel = (Seq<char>, Seq<char>, bool, Option<Seq<char>>);

/// `output` with `s` added as a new line: `s` alone where the output is
/// empty, else after a line break.
pub open spec fn with_line(output: Seq<char>, s: Seq<char>) -> Seq<char> {
    if output.len() == 0 {
        s
    } else {
        output + seq!['\n'] + s
    }
}

/// The terminal after input is asked for: typing allowed, the line cleared,
/// nothing pending.
pub open spec fn requested(t: TerminalModel) -> TerminalModel {
    (t.0, Seq::empty(), true, None)
}

/// The terminal after `s` is written to it.
pub open spec fn pushed(t: TerminalModel, s: Seq<char>) -> TerminalModel {
    (with_line(t.0, s), t.1, t.2, t.3)
}

/// The terminal after the typed line is handed in: it is pending, trimmed;
/// typing is no longer allowed and the line is cleared.
pub open spec fn committed(t: TerminalModel) -> TerminalModel {
    (t.0, Seq::empty(), false, Some(crate::text::trim_chars(t.1)))
}

/// The terminal after its pending input is taken.
pub open spec fn taken(t: TerminalModel) -> TerminalModel {
    (t.0, t.1, t.2, None)
}

/// The terminal after the user edits the line to `line`: only while typing
/// is allowed.
pub open spec fn edited(t: TerminalModel, line: Seq<char>) -> TerminalModel {
    if t.2 {
        (t.0, line, t.2, t.3)
    } else {
        t
    }
}

/// The text of an optional string.
pub open spec fn option_text(s: Option<String>) -> Option<Seq<char>> {
    match s {
        Some(t) => Some(t@),
        None => None,
    }
}

/// The empty terminal.
pub open spec fn empty_terminal() -> TerminalModel {
    (Seq::empty(), Seq::empty(), false, None)
}

/// Asking for input, typing a line and handing it in makes the trimmed line
/// pending; taking it gives it back once and leaves nothing pending, and
/// the output is unchanged throughout.
pub proof fn lemma_input_round_trip(t: TerminalModel, line: Seq<char>)
    ensures
        committed(edited(requested(t), line)).3 == Some(crate::text::trim_chars(line)),
        !committed(edited(requested(t), line)).2,
        taken(committed(edited(requested(t), line))).3 is None,
        taken(committed(edited(requested(t), line))).0 == t.0,
{
}

/// Writing to the terminal keeps what was written before as a prefix and
/// ends with what was written; the first write gives exactly what was written.
pub proof fn lemma_push_keeps_output(t: TerminalModel, s: Seq<char>)
    ensures
        pushed(t, s).0.subrange(0, t.0.len() as int) == t.0,
        pushed(t, s).0.subrange(pushed(t, s).0.len() - s.len(), pushed(t, s).0.len() as int) == s,
        t.0.len() == 0 ==> pushed(t, s).0 == s,
        t.0.len() > 0 ==> pushed(t, s).0.len() == t.0.len() + 1 + s.len(),
{
    let o = pushed(t, s).0;
    if t.0.len() == 0 {
        assert(o.subrange(0, 0) =~= t.0);
        assert(o.subrange(0, s.len() as int) =~= s);
    } else {
        assert(o.subrange(0, t.0.len() as int) =~= t.0);
        assert(o.subrange(o.len() - s.len(), o.len() as int) =~= s);
    }
}

/// While typing is not allowed, edits leave the terminal as it is.
pub proof fn lemma_edit_needs_permission(t: TerminalModel, line: Seq<char>)
    requires
        !t.2,
    ensures
        edited(t, line) == t,
{
}

} // verus!
