//! The set of breakpoints, as instruction indices, and the text box in which
//! a new one is typed.

use std::collections::BTreeSet;

use vstd::prelude::*;

use crate::interpreter::CodeLine;
use crate::text::{parse_usize, trim};

verus! {

broadcast use {vstd::std_specs::btree::group_btree_axioms, vstd::laws_cmp::group_laws_cmp};

/// Whether `s` is strictly increasing.
pub open spec fn strictly_increasing(s: Seq<CodeLine>) -> bool {
    forall|i: int, j: int| 0 <= i < j < s.len() ==> s[i] < s[j]
}

proof fn lemma_increasing_keys(raw: Seq<&CodeLine>)
    requires
        vstd::std_specs::btree::increasing_seq(raw),
    ensures
        strictly_increasing(raw.unref()),
{
    assert forall|i: int, j: int| 0 <= i < j < raw.len() implies raw.unref()[i] < raw.unref()[j] by {
        assert(vstd::std_specs::cmp::OrdSpec::cmp_spec(&raw[i], &raw[j]) is Less);
    }
}

/// The breakpoints and the text typed to add one.
pub struct BreakpointPanel {
    breakpoints: BTreeSet<CodeLine>,
    add_input: String,
}

impl View for BreakpointPanel {
    type V = (Set<CodeLine>, Seq<char>);

    closed spec fn view(&self) -> (Set<CodeLine>, Seq<char>) {
        (self.breakpoints@, self.add_input@)
    }
}

impl Default for BreakpointPanel {
    fn default() -> (r: Self)
        ensures
            r@.0 == Set::<CodeLine>::empty(),
            r@.1 == Seq::<char>::empty(),
    {
        BreakpointPanel::new()
    }
}

impl BreakpointPanel {
    /// No breakpoints and nothing typed.
    pub fn new() -> (r: Self)
        ensures
            r@.0 == Set::<CodeLine>::empty(),
            r@.1 == Seq::<char>::empty(),
    {
        BreakpointPanel { breakpoints: BTreeSet::new(), add_input: String::new() }
    }

    /// The breakpoints in increasing order.
    pub fn breakpoints(&self) -> (r: Vec<CodeLine>)
        ensures
            r@.to_set() == self@.0,
            r@.len() == self@.0.len(),
            strictly_increasing(r@),
    {
        let ghost raw = vstd::std_specs::iter::IteratorSpec::remaining(
            &vstd::std_specs::btree::spec_btree_keys_iter(&self.breakpoints),
        );
        let ghost keys = raw.map_values(|x: &CodeLine| *x);
        let mut r: Vec<CodeLine> = Vec::new();
        for bp in it: self.breakpoints.iter()
            invariant
                keys == it.seq().map_values(|x: &CodeLine| *x),
                r@ == keys.take(it.index() as int),
        {
            r.push(*bp);
            proof {
                assert(r@ =~= keys.take(it.index() + 1));
            }
        }
        proof {
            assert(r@ =~= keys);
            assert(raw.unref() =~= keys);
            lemma_increasing_keys(raw);
        }
        r
    }

    /// Replaces the text typed to add a breakpoint.
    pub fn set_add_input(&mut self, text: String)
        ensures
            final(self)@ == (old(self)@.0, text@),
    {
        self.add_input = text;
    }

    /// The text typed to add a breakpoint.
    pub fn add_input(&self) -> (r: &str)
        ensures
            r@ == self@.1,
    {
        self.add_input.as_str()
    }

    /// Adds the breakpoint typed in the text box, as the "Add" button does:
    /// where the trimmed text reads as an index, that index becomes a
    /// breakpoint and the text is cleared; otherwise nothing changes.
    pub fn add_from_input(&mut self) -> (added: Option<CodeLine>)
        ensures
            added == crate::text::parse_usize_spec(crate::text::trim_chars(old(self)@.1)),
            match added {
                Some(idx) => final(self)@ == (old(self)@.0.insert(idx), Seq::<char>::empty()),
                None => final(self)@ == old(self)@,
            },
    {
        let trimmed = trim(self.add_input.as_str());
        let parsed = parse_usize(trimmed.as_str());
        if let Some(idx) = parsed {
            self.breakpoints.insert(idx);
            self.add_input = String::new();
        }
        parsed
    }

    /// Removes the breakpoint `bp`, telling whether it was set.
    pub fn remove_breakpoint(&mut self, bp: CodeLine) -> (removed: bool)
        ensures
            removed == old(self)@.0.contains(bp),
            final(self)@ == (old(self)@.0.remove(bp), old(self)@.1),
    {
        self.breakpoints.remove(&bp)
    }
}

} // verus!
