use crate::text::str_eq;
use vstd::prelude::*;

verus! {

/// Entries of a mapping from analyzer names to texts, as plain values.
pub type Entries = Seq<(Seq<char>, Seq<char>)>;

/// The position of the first entry called `name`; the length of `entries`
/// where none is called so.
pub open spec fn first_named(entries: Entries, name: Seq<char>) -> int
    decreases entries.len(),
{
    if entries.len() == 0 {
        0
    } else if entries[0].0 == name {
        0
    } else {
        1 + first_named(entries.drop_first(), name)
    }
}

/// Whether some entry is called `name`.
pub open spec fn has_name(entries: Entries, name: Seq<char>) -> bool {
    exists|i: int| 0 <= i < entries.len() && (#[trigger] entries[i]).0 == name
}

/// No two entries have one name.
pub open spec fn distinct_names(entries: Entries) -> bool {
    forall|i: int, j: int|
        0 <= i < j < entries.len() ==> (#[trigger] entries[i]).0 != (#[trigger] entries[j]).0
}

/// `entries` with `text` under `name`: in the place of the entry of that
/// name, if there is one, and at the end otherwise.
pub open spec fn upserted(entries: Entries, name: Seq<char>, text: Seq<char>) -> Entries {
    let at = first_named(entries, name);
    if at < entries.len() {
        entries.update(at, (name, text))
    } else {
        entries.push((name, text))
    }
}

/// The text under `name`, if there is one.
pub open spec fn text_named(entries: Entries, name: Seq<char>) -> Option<Seq<char>> {
    let at = first_named(entries, name);
    if at < entries.len() {
        Some(entries[at].1)
    } else {
        None
    }
}

/// The texts of `entries`, in order.
pub open spec fn texts_of(entries: Entries) -> Seq<Seq<char>> {
    Seq::new(entries.len(), |i: int| entries[i].1)
}

/// The mapping that `entries` stand for.
pub open spec fn mapping_of(entries: Entries) -> Map<Seq<char>, Seq<char>> {
    Map::new(
        |name: Seq<char>| has_name(entries, name),
        |name: Seq<char>| entries[first_named(entries, name)].1,
    )
}

/// What the analyzers found: for each analyzer that answered with a text,
/// that text under the analyzer's name. An analyzer without an answer has no
/// entry. The entries keep the order in which their names first came in.
#[derive(Debug, PartialEq, Eq)]
pub struct RawFindings {
    entries: Vec<(String, String)>,
}

impl View for RawFindings {
    type V = Entries;

    closed spec fn view(&self) -> Entries {
        self.entries.deep_view()
    }
}

impl RawFindings {
    #[verifier::type_invariant]
    spec fn names_differ(&self) -> bool {
        distinct_names(self.entries.deep_view())
    }

    /// The mapping without entries.
    pub fn new() -> (findings: RawFindings)
        ensures
            findings@ == Entries::empty(),
    {
        let entries: Vec<(String, String)> = Vec::new();
        RawFindings { entries }
    }

    /// How many analyzers have an entry.
    pub fn len(&self) -> (n: usize)
        ensures
            n == self@.len(),
    {
        self.entries.len()
    }

    /// Whether no analyzer has an entry.
    pub fn is_empty(&self) -> (empty: bool)
        ensures
            empty == (self@.len() == 0),
    {
        self.entries.len() == 0
    }

    /// That no name occurs twice, for a caller that holds the mapping.
    pub fn distinct(&self)
        ensures
            distinct_names(self@),
    {
        proof {
            use_type_invariant(self);
        }
    }

    /// The position of the entry called `name`.
    fn position(&self, name: &str) -> (at: usize)
        ensures
            at == first_named(self@, name@),
            at <= self@.len(),
    {
        let mut i: usize = 0;
        while i < self.entries.len()
            invariant
                i <= self.entries.len(),
                forall|k: int| 0 <= k < i ==> (#[trigger] self@[k]).0 != name@,
            decreases self.entries.len() - i,
        {
            if str_eq(self.entries[i].0.as_str(), name) {
                proof {
                    lemma_first_named_is(self@, name@, i as int);
                }
                return i;
            }
            i += 1;
        }
        proof {
            lemma_first_named_is(self@, name@, i as int);
        }
        i
    }

    /// The text under `name`.
    pub fn get(&self, name: &str) -> (text: Option<&String>)
        ensures
            text.deep_view() == text_named(self@, name@),
    {
        let at = self.position(name);
        if at < self.entries.len() {
            Some(&self.entries[at].1)
        } else {
            None
        }
    }

    /// Whether `name` has an entry.
    pub fn contains_key(&self, name: &str) -> (found: bool)
        ensures
            found == has_name(self@, name@),
    {
        let at = self.position(name);
        proof {
            lemma_first_named_bounds(self@, name@);
        }
        at < self.entries.len()
    }

    /// Puts `text` under `name`. An entry that `name` had before gives way
    /// and is handed back.
    pub fn insert(&mut self, name: String, text: String) -> (previous: Option<String>)
        ensures
            final(self)@ == upserted(old(self)@, name@, text@),
            previous.deep_view() == text_named(old(self)@, name@),
    {
        proof {
            use_type_invariant(&*self);
            lemma_upserted_distinct(self@, name@, text@);
        }
        let at = self.position(name.as_str());
        let ghost before = self@;
        let mut entries: Vec<(String, String)> = Vec::new();
        std::mem::swap(&mut entries, &mut self.entries);
        entries.push((name, text));
        let previous = if at < entries.len() - 1 {
            Some(entries.swap_remove(at).1)
        } else {
            None
        };
        assert(entries.deep_view() =~= upserted(before, name@, text@));
        self.entries = entries;
        previous
    }

    /// The texts, in the order of the entries.
    pub fn values(&self) -> (texts: Vec<&String>)
        ensures
            texts.deep_view() == texts_of(self@),
    {
        let mut texts: Vec<&String> = Vec::new();
        let mut i: usize = 0;
        while i < self.entries.len()
            invariant
                i <= self.entries.len(),
                texts.len() == i,
                forall|k: int| 0 <= k < i ==> (#[trigger] texts@[k])@ == self@[k].1,
            decreases self.entries.len() - i,
        {
            texts.push(&self.entries[i].1);
            i += 1;
        }
        texts
    }
}

/// `first_named` is the position of an entry of that name before which no
/// entry has it, and the length where no entry has it.
pub proof fn lemma_first_named_is(entries: Entries, name: Seq<char>, at: int)
    requires
        0 <= at <= entries.len(),
        forall|k: int| 0 <= k < at ==> (#[trigger] entries[k]).0 != name,
        at < entries.len() ==> entries[at].0 == name,
    ensures
        first_named(entries, name) == at,
    decreases entries.len(),
{
    if entries.len() > 0 && at > 0 {
        lemma_first_named_is(entries.drop_first(), name, at - 1);
    }
}

/// `first_named` stays within the entries, points at an entry of that name
/// where it can, and no entry before it has the name.
pub proof fn lemma_first_named_bounds(entries: Entries, name: Seq<char>)
    ensures
        0 <= first_named(entries, name) <= entries.len(),
        first_named(entries, name) < entries.len() <==> has_name(entries, name),
        first_named(entries, name) < entries.len() ==> entries[first_named(entries, name)].0
            == name,
        forall|k: int| 0 <= k < first_named(entries, name) ==> (#[trigger] entries[k]).0 != name,
    decreases entries.len(),
{
    if entries.len() > 0 && entries[0].0 != name {
        let rest = entries.drop_first();
        lemma_first_named_bounds(rest, name);
        assert forall|k: int| 0 <= k < first_named(entries, name) implies (#[trigger] entries[k]).0
            != name by {
            if k > 0 {
                assert(entries[k] == rest[k - 1]);
            }
        }
    }
}

/// Putting a text under a name keeps the names distinct.
pub proof fn lemma_upserted_distinct(entries: Entries, name: Seq<char>, text: Seq<char>)
    requires
        distinct_names(entries),
    ensures
        distinct_names(upserted(entries, name, text)),
{
    lemma_first_named_bounds(entries, name);
    let after = upserted(entries, name, text);
    assert(forall|i: int| 0 <= i < entries.len() ==> (#[trigger] after[i]).0 == entries[i].0);
}

/// Putting a text under a name adds that name to those that have an entry,
/// and no other.
pub proof fn lemma_upserted_has_name(
    entries: Entries,
    name: Seq<char>,
    text: Seq<char>,
    other: Seq<char>,
)
    ensures
        has_name(upserted(entries, name, text), other) <==> has_name(entries, other) || other
            == name,
{
    lemma_first_named_bounds(entries, name);
    let after = upserted(entries, name, text);
    let at = first_named(entries, name);
    if has_name(entries, other) {
        let i = choose|i: int| 0 <= i < entries.len() && (#[trigger] entries[i]).0 == other;
        assert(after[i].0 == other);
    }
    if other == name && at == entries.len() {
        assert(after[at].0 == name);
    }
}

/// Putting a text under a name is what inserting is on the mapping: the name
/// holds the text, and every other name holds what it held.
pub proof fn lemma_mapping_of_upserted(entries: Entries, name: Seq<char>, text: Seq<char>)
    ensures
        mapping_of(upserted(entries, name, text)) == mapping_of(entries).insert(name, text),
{
    let after = upserted(entries, name, text);
    let at = first_named(entries, name);
    lemma_first_named_bounds(entries, name);
    assert forall|other: Seq<char>|
        mapping_of(after).dom().contains(other) <==> mapping_of(entries).insert(
            name,
            text,
        ).dom().contains(other) by {
        lemma_upserted_has_name(entries, name, text, other);
    }
    assert forall|other: Seq<char>| #[trigger]
        mapping_of(after).dom().contains(other) implies mapping_of(after)[other] == mapping_of(
        entries,
    ).insert(name, text)[other] by {
        lemma_upserted_has_name(entries, name, text, other);
        lemma_first_named_bounds(entries, other);
        let was = first_named(entries, other);
        if other == name {
            lemma_first_named_is(after, name, at);
        } else {
            lemma_first_named_is(after, other, was);
        }
    }
}

/// The text under a name is what the mapping holds there.
pub proof fn lemma_text_named_is_mapped(entries: Entries, name: Seq<char>)
    ensures
        text_named(entries, name) == if mapping_of(entries).dom().contains(name) {
            Some(mapping_of(entries)[name])
        } else {
            None
        },
{
    lemma_first_named_bounds(entries, name);
}

} // verus!
