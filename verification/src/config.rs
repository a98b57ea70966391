//! Configuration of the external interpreters, keyed by language id.

use vstd::prelude::*;

#[allow(unused_imports)]
use vstd::pervasive::VecAdditionalExecFns;

verus! {

/// An external interpreter: a display name, the path of its executable and
/// the file extensions of the programs it runs.
pub struct ExtInterpreter {
    pub name: String,
    pub exe_path: String,
    pub file_extensions: Vec<String>,
}

/// An interpreter as values: name, executable path and file extensions.
pub type InterpreterModel = (Seq<char>, Seq<char>, Seq<Seq<char>>);

impl View for ExtInterpreter {
    type V = InterpreterModel;

    open spec fn view(&self) -> InterpreterModel {
        (self.name@, self.exe_path@, self.file_extensions@.map_values(|e: String| e@))
    }
}

impl Clone for ExtInterpreter {
    fn clone(&self) -> (r: Self)
        ensures
            r@ == self@,
    {
        let file_extensions = self.file_extensions.clone();
        proof {
            assert forall|i: int| 0 <= i < file_extensions@.len() implies file_extensions@[i]
                == self.file_extensions@[i] by {
                assert(cloned(self.file_extensions[i], file_extensions[i]));
            }
            assert(file_extensions@.map_values(|e: String| e@) =~= self.file_extensions@.map_values(
                |e: String| e@,
            ));
        }
        ExtInterpreter {
            name: self.name.clone(),
            exe_path: self.exe_path.clone(),
            file_extensions,
        }
    }
}

/// The entries of a configuration, language id first, in the order in which
/// they were inserted.
pub type ConfigEntries = Seq<(Seq<char>, InterpreterModel)>;

/// Whether no language id occurs twice among `entries`.
pub open spec fn ids_distinct(entries: ConfigEntries) -> bool {
    forall|i: int, j: int|
        0 <= i < entries.len() && 0 <= j < entries.len() && i != j ==> #[trigger] entries[i].0
            != #[trigger] entries[j].0
}

/// Whether some entry has the language id `id`.
pub open spec fn has_id(entries: ConfigEntries, id: Seq<char>) -> bool {
    exists|i: int| 0 <= i < entries.len() && #[trigger] entries[i].0 == id
}

/// The interpreter configured for the language id `id`, if any.
pub open spec fn lookup(entries: ConfigEntries, id: Seq<char>) -> Option<InterpreterModel> {
    if has_id(entries, id) {
        Some(entries[choose|i: int| 0 <= i < entries.len() && #[trigger] entries[i].0 == id].1)
    } else {
        None
    }
}

/// Whether the interpreter for `id` is configured with a non-empty path.
pub open spec fn available(entries: ConfigEntries, id: Seq<char>) -> bool {
    match lookup(entries, id) {
        Some(e) => e.1.len() > 0,
        None => false,
    }
}

/// The entries after putting `m` under `id`: in place of the entry with that
/// id where there is one, else as a new last entry.
pub open spec fn insert_entry(entries: ConfigEntries, id: Seq<char>, m: InterpreterModel) -> ConfigEntries {
    if has_id(entries, id) {
        entries.update(choose|i: int| 0 <= i < entries.len() && #[trigger] entries[i].0 == id, (id, m))
    } else {
        entries.push((id, m))
    }
}

/// Inserting under an id and then looking that id up gives what was
/// inserted; every other id gives what it gave before; ids stay distinct; and
/// the number of entries grows by one exactly when the id was new.
pub proof fn lemma_insert_then_lookup(
    entries: ConfigEntries,
    id: Seq<char>,
    m: InterpreterModel,
    other: Seq<char>,
)
    requires
        ids_distinct(entries),
    ensures
        ids_distinct(insert_entry(entries, id, m)),
        lookup(insert_entry(entries, id, m), id) == Some(m),
        other != id ==> lookup(insert_entry(entries, id, m), other) == lookup(entries, other),
        insert_entry(entries, id, m).len() == entries.len() + (if has_id(entries, id) {
            0int
        } else {
            1int
        }),
        available(insert_entry(entries, id, m), id) == (m.1.len() > 0),
{
    let after = insert_entry(entries, id, m);
    let i = if has_id(entries, id) {
        choose|i: int| 0 <= i < entries.len() && #[trigger] entries[i].0 == id
    } else {
        entries.len() as int
    };
    assert(after[i] == (id, m));
    assert forall|a: int, b: int|
        0 <= a < after.len() && 0 <= b < after.len() && a != b implies #[trigger] after[a].0
        != #[trigger] after[b].0 by {
        if a != i && b != i {
            assert(after[a] == entries[a] && after[b] == entries[b]);
        } else if a == i {
            assert(after[b] == entries[b]);
            if !has_id(entries, id) {
                assert(entries[b].0 != id);
            }
        } else {
            assert(after[a] == entries[a]);
            if !has_id(entries, id) {
                assert(entries[a].0 != id);
            }
        }
    }
    lemma_lookup_at(after, i);
    if other != id {
        if has_id(entries, other) {
            let j = choose|j: int| 0 <= j < entries.len() && #[trigger] entries[j].0 == other;
            assert(after[j] == entries[j]);
            lemma_lookup_at(entries, j);
            lemma_lookup_at(after, j);
        } else {
            if has_id(after, other) {
                let j = choose|j: int| 0 <= j < after.len() && #[trigger] after[j].0 == other;
                assert(after[j] == entries[j]);
            }
        }
    }
}

/// The display names of the entries, in order.
pub open spec fn names_of(entries: ConfigEntries) -> Seq<Seq<char>> {
    entries.map_values(|e: (Seq<char>, InterpreterModel)| e.1.0)
}

/// The (language id, display name) pairs of the entries, in order.
pub open spec fn pairs_of(entries: ConfigEntries) -> Seq<(Seq<char>, Seq<char>)> {
    entries.map_values(|e: (Seq<char>, InterpreterModel)| (e.0, e.1.0))
}

/// The languages offered and the names listed agree position by position,
/// and every offered id looks up the interpreter it came from.
pub proof fn lemma_offered_languages(entries: ConfigEntries)
    requires
        ids_distinct(entries),
    ensures
        pairs_of(entries).len() == names_of(entries).len(),
        forall|i: int|
            0 <= i < pairs_of(entries).len() ==> (#[trigger] pairs_of(entries)[i]).1 == names_of(
                entries,
            )[i],
        forall|i: int|
            0 <= i < pairs_of(entries).len() ==> lookup(entries, #[trigger] pairs_of(entries)[i].0)
                == Some(entries[i].1),
{
    assert forall|i: int| 0 <= i < pairs_of(entries).len() implies lookup(
        entries,
        #[trigger] pairs_of(entries)[i].0,
    ) == Some(entries[i].1) by {
        lemma_lookup_at(entries, i);
    }
}

/// The configuration of the external interpreters, each under its language
/// id (the `xxx` of a section `[interpreters.xxx]`); no id occurs twice.
pub struct ExtInterpreterConfig {
    entries: Vec<(String, ExtInterpreter)>,
}

impl View for ExtInterpreterConfig {
    type V = ConfigEntries;

    closed spec fn view(&self) -> ConfigEntries {
        self.entries@.map_values(|e: (String, ExtInterpreter)| (e.0@, e.1@))
    }
}

proof fn lemma_lookup_at(entries: ConfigEntries, i: int)
    requires
        ids_distinct(entries),
        0 <= i < entries.len(),
    ensures
        has_id(entries, entries[i].0),
        lookup(entries, entries[i].0) == Some(entries[i].1),
{
    let id = entries[i].0;
    assert(has_id(entries, id));
    let j = choose|j: int| 0 <= j < entries.len() && #[trigger] entries[j].0 == id;
    assert(j == i);
}

impl ExtInterpreterConfig {
    #[verifier::type_invariant]
    closed spec fn well_formed(self) -> bool {
        ids_distinct(self@)
    }

    /// A configuration with no interpreter.
    pub fn new() -> (c: Self)
        ensures
            ids_distinct(c@),
            c@ == ConfigEntries::empty(),
    {
        let c = ExtInterpreterConfig { entries: Vec::new() };
        assert(c@ =~= ConfigEntries::empty());
        c
    }

    /// The position of the entry with language id `id`, if any.
    fn position(&self, id: &String) -> (r: Option<usize>)
        ensures
            match r {
                Some(i) => i < self@.len() && self@[i as int].0 == id@,
                None => !has_id(self@, id@),
            },
    {
        let n = self.entries.len();
        let mut i: usize = 0;
        while i < n
            invariant
                n == self.entries@.len(),
                self@.len() == n,
                i <= n,
                forall|k: int| 0 <= k < i ==> #[trigger] self@[k].0 != id@,
            decreases n - i,
        {
            if self.entries[i].0 == *id {
                return Some(i);
            }
            i += 1;
        }
        None
    }

    /// Puts `interpreter` under the language id `id`, in place of the one
    /// that was there (which it returns), or as a new last entry.
    pub fn insert(&mut self, id: String, interpreter: ExtInterpreter) -> (previous: Option<
        ExtInterpreter,
    >)
        ensures
            ids_distinct(final(self)@),
            match previous {
                Some(p) => lookup(old(self)@, id@) == Some(p@),
                None => lookup(old(self)@, id@) is None,
            },
            final(self)@ == insert_entry(old(self)@, id@, interpreter@),
    {
        proof {
            use_type_invariant(&*self);
        }
        let ghost before = self@;
        match self.position(&id) {
            Some(i) => {
                proof {
                    lemma_lookup_at(before, i as int);
                    let j = choose|j: int| 0 <= j < before.len() && #[trigger] before[j].0 == id@;
                    assert(j == i);
                }
                let mut entries: Vec<(String, ExtInterpreter)> = Vec::new();
                std::mem::swap(&mut entries, &mut self.entries);
                let mut old_entry = (id, interpreter);
                entries.set_and_swap(i, &mut old_entry);
                proof {
                    assert(entries@.map_values(|e: (String, ExtInterpreter)| (e.0@, e.1@))
                        =~= before.update(i as int, (id@, interpreter@)));
                }
                self.entries = entries;
                Some(old_entry.1)
            },
            None => {
                let ghost key = id@;
                let ghost model = interpreter@;
                let mut entries: Vec<(String, ExtInterpreter)> = Vec::new();
                std::mem::swap(&mut entries, &mut self.entries);
                entries.push((id, interpreter));
                proof {
                    assert(entries@.map_values(|e: (String, ExtInterpreter)| (e.0@, e.1@))
                        =~= before.push((key, model)));
                }
                self.entries = entries;
                None
            },
        }
    }

    /// The configured interpreters, one per entry, in the order of the entries.
    pub fn interpreters(&self) -> (r: Vec<ExtInterpreter>)
        ensures
            ids_distinct(self@),
            r@.len() == self@.len(),
            forall|i: int| 0 <= i < r@.len() ==> #[trigger] r@[i]@ == self@[i].1,
    {
        proof {
            use_type_invariant(self);
        }
        let n = self.entries.len();
        let mut r: Vec<ExtInterpreter> = Vec::new();
        let mut i: usize = 0;
        while i < n
            invariant
                n == self@.len(),
                n == self.entries@.len(),
                i <= n,
                r@.len() == i,
                forall|k: int| 0 <= k < i ==> #[trigger] r@[k]@ == self@[k].1,
            decreases n - i,
        {
            r.push(self.entries[i].1.clone());
            i += 1;
        }
        r
    }

    /// The display names of the configured interpreters, in the order of the
    /// entries.
    pub fn language_names(&self) -> (r: Vec<String>)
        ensures
            ids_distinct(self@),
            r@.len() == self@.len(),
            forall|i: int| 0 <= i < r@.len() ==> #[trigger] r@[i]@ == self@[i].1.0,
            r@.map_values(|s: String| s@) == names_of(self@),
    {
        proof {
            use_type_invariant(self);
        }
        let n = self.entries.len();
        let mut r: Vec<String> = Vec::new();
        let mut i: usize = 0;
        while i < n
            invariant
                n == self@.len(),
                n == self.entries@.len(),
                i <= n,
                r@.len() == i,
                forall|k: int| 0 <= k < i ==> #[trigger] r@[k]@ == self@[k].1.0,
            decreases n - i,
        {
            r.push(self.entries[i].1.name.clone());
            i += 1;
        }
        assert(r@.map_values(|s: String| s@) =~= names_of(self@));
        r
    }

    /// The pairs (language id, display name), in the order of the entries.
    pub fn available_languages(&self) -> (r: Vec<(String, String)>)
        ensures
            ids_distinct(self@),
            r@.len() == self@.len(),
            forall|i: int|
                0 <= i < r@.len() ==> (#[trigger] r@[i]).0@ == self@[i].0 && r@[i].1@
                    == self@[i].1.0,
            r@.map_values(|p: (String, String)| (p.0@, p.1@)) == pairs_of(self@),
    {
        proof {
            use_type_invariant(self);
        }
        let n = self.entries.len();
        let mut r: Vec<(String, String)> = Vec::new();
        let mut i: usize = 0;
        while i < n
            invariant
                n == self@.len(),
                n == self.entries@.len(),
                i <= n,
                r@.len() == i,
                forall|k: int|
                    0 <= k < i ==> (#[trigger] r@[k]).0@ == self@[k].0 && r@[k].1@
                        == self@[k].1.0,
            decreases n - i,
        {
            r.push((self.entries[i].0.clone(), self.entries[i].1.name.clone()));
            i += 1;
        }
        assert(r@.map_values(|p: (String, String)| (p.0@, p.1@)) =~= pairs_of(self@));
        r
    }

    /// The interpreter configured for `language_id`, if any.
    pub fn get(&self, language_id: &str) -> (r: Option<&ExtInterpreter>)
        ensures
            ids_distinct(self@),
            match r {
                Some(e) => lookup(self@, language_id@) == Some(e@),
                None => lookup(self@, language_id@) is None,
            },
    {
        proof {
            use_type_invariant(self);
        }
        let id = language_id.to_owned();
        match self.position(&id) {
            Some(i) => {
                proof {
                    lemma_lookup_at(self@, i as int);
                }
                Some(&self.entries[i].1)
            },
            None => None,
        }
    }

    /// Whether an interpreter is configured for `language_id` with a
    /// non-empty executable path.
    pub fn is_available(&self, language_id: &str) -> (r: bool)
        ensures
            ids_distinct(self@),
            r == available(self@, language_id@),
    {
        proof {
            use_type_invariant(self);
        }
        match self.get(language_id) {
            Some(e) => !e.exe_path.as_str().is_empty(),
            None => false,
        }
    }
}


/// Where the configuration file is looked for.
#[derive(Debug, Clone, Copy, PartialEq, Eq, Structural)]
pub enum ConfigLocation {
    /// Beside the executable (an installed program).
    BesideExecutable,
    /// In the package directory (a development build).
    PackageDir,
    /// In the working directory.
    WorkingDir,
}

/// Which configuration file to read: the one beside the executable where it
/// exists, else the one in the package directory where that directory is
/// known, else the one in the working directory.
pub fn config_location(beside_executable_exists: bool, package_dir_known: bool) -> (r:
    ConfigLocation)
    ensures
        beside_executable_exists ==> r == ConfigLocation::BesideExecutable,
        !beside_executable_exists && package_dir_known ==> r == ConfigLocation::PackageDir,
        !beside_executable_exists && !package_dir_known ==> r == ConfigLocation::WorkingDir,
{
    if beside_executable_exists {
        ConfigLocation::BesideExecutable
    } else if package_dir_known {
        ConfigLocation::PackageDir
    } else {
        ConfigLocation::WorkingDir
    }
}

} // verus!
