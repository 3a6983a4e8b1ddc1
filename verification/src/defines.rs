//! The preprocessor define table: a mapping from macro identifier to an
//! optional definition, threaded sequentially across the files of a
//! compilation unit. Later insertions win over earlier ones.

use vstd::prelude::*;

verus! {

/// A preprocessor macro definition: its identifier and, when it was given
/// with `=`, its replacement text.
#[derive(Debug, Clone)]
pub struct Define {
    pub identifier: String,
    pub text: Option<String>,
}

/// The mathematical content of a [`Define`].
pub struct DefineView {
    pub identifier: Seq<char>,
    pub text: Option<Seq<char>>,
}

impl View for Define {
    type V = DefineView;

    open spec fn view(&self) -> DefineView {
        DefineView {
            identifier: self.identifier@,
            text: match self.text {
                Some(t) => Some(t@),
                None => None,
            },
        }
    }
}

/// The view of a table value: `None` stands for an identifier defined bare,
/// `Some` for one defined with a body.
pub open spec fn value_view(v: Option<Define>) -> Option<DefineView> {
    match v {
        Some(d) => Some(d@),
        None => None,
    }
}

/// The mapping described by a sequence of insertions, later entries winning.
pub open spec fn entries_map(s: Seq<(String, Option<Define>)>) -> Map<Seq<char>, Option<DefineView>>
    decreases s.len()
{
    if s.len() == 0 {
        Map::empty()
    } else {
        entries_map(s.drop_last()).insert(s.last().0@, value_view(s.last().1))
    }
}

/// A mapping from macro identifier to optional definition.
///
/// A value of `None` records an identifier defined without any text (as a
/// bare `+define+NAME`); `Some` carries the full definition. Inserting an
/// identifier twice keeps the later entry: last write wins, in read order.
pub struct DefineTable {
    pub entries: Vec<(String, Option<Define>)>,
}

impl View for DefineTable {
    type V = Map<Seq<char>, Option<DefineView>>;

    open spec fn view(&self) -> Map<Seq<char>, Option<DefineView>> {
        entries_map(self.entries@)
    }
}

proof fn lemma_entries_map_at(s: Seq<(String, Option<Define>)>, k: Seq<char>, i: int)
    requires
        0 <= i < s.len(),
        s[i].0@ == k,
        forall|j: int| i < j < s.len() ==> s[j].0@ != k,
    ensures
        entries_map(s).contains_key(k),
        entries_map(s)[k] == value_view(s[i].1),
    decreases s.len(),
{
    if i == s.len() - 1 {
        assert(s[i] == s.last());
    } else {
        assert(s.last().0@ != k);
        assert(s.drop_last()[i] == s[i]);
        lemma_entries_map_at(s.drop_last(), k, i);
    }
}

proof fn lemma_entries_map_absent(s: Seq<(String, Option<Define>)>, k: Seq<char>)
    requires
        forall|j: int| 0 <= j < s.len() ==> s[j].0@ != k,
    ensures
        !entries_map(s).contains_key(k),
    decreases s.len(),
{
    if s.len() > 0 {
        assert(forall|j: int| 0 <= j < s.drop_last().len() ==> s.drop_last()[j] == s[j]);
        lemma_entries_map_absent(s.drop_last(), k);
    }
}

impl DefineTable {
    /// An empty table.
    pub fn new() -> (r: DefineTable)
        ensures
            r@ == Map::<Seq<char>, Option<DefineView>>::empty(),
    {
        DefineTable { entries: Vec::new() }
    }

    /// Inserts a definition, overriding any earlier one for the same
    /// identifier.
    pub fn insert(&mut self, identifier: String, value: Option<Define>)
        ensures
            final(self)@ == old(self)@.insert(identifier@, value_view(value)),
    {
        let ghost pre = self.entries@;
        let ghost k = identifier@;
        let ghost v = value_view(value);
        self.entries.push((identifier, value));
        proof {
            assert(self.entries@.drop_last() =~= pre);
            assert(self.entries@.last() == (self.entries@.last().0, self.entries@.last().1));
            assert(entries_map(self.entries@) == entries_map(pre).insert(
                self.entries@.last().0@,
                value_view(self.entries@.last().1),
            ));
        }
    }

    /// Looks an identifier up, returning the latest definition inserted
    /// under it, or `None` when it was never defined.
    pub fn lookup(&self, identifier: &str) -> (r: Option<&Option<Define>>)
        ensures
            match r {
                Some(v) => self@.contains_key(identifier@) && self@[identifier@] == value_view(*v),
                None => !self@.contains_key(identifier@),
            },
    {
        let mut i = self.entries.len();
        while i > 0
            invariant
                i <= self.entries@.len(),
                forall|j: int| i <= j < self.entries@.len() ==> self.entries@[j].0@ != identifier@,
        decreases i,
        {
            i -= 1;
            if crate::strutil::str_eq(self.entries[i].0.as_str(), identifier) {
                proof {
                    lemma_entries_map_at(self.entries@, identifier@, i as int);
                }
                return Some(&self.entries[i].1);
            }
        }
        proof {
            lemma_entries_map_absent(self.entries@, identifier@);
        }
        None
    }

    /// The identifiers and values held, in insertion order with later entries
    /// overriding earlier ones; handing them to a fresh table in this order
    /// rebuilds the same mapping.
    pub fn entries(&self) -> (r: &Vec<(String, Option<Define>)>)
        ensures
            entries_map(r@) == self@,
    {
        &self.entries
    }

    /// The number of insertions recorded.
    pub fn entry_count(&self) -> (r: usize)
        ensures
            r == self.entries@.len(),
    {
        self.entries.len()
    }
}

/// Last write wins: inserting the same identifier twice, in read order,
/// leaves the second definition in effect, whatever the table held before.
pub proof fn lemma_define_override(
    m: Map<Seq<char>, Option<DefineView>>,
    identifier: Seq<char>,
    first: Option<DefineView>,
    second: Option<DefineView>,
)
    ensures
        m.insert(identifier, first).insert(identifier, second)
            == m.insert(identifier, second),
{
    assert(m.insert(identifier, first).insert(identifier, second)
        =~= m.insert(identifier, second));
}

} // verus!
