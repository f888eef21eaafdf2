//! The shadow selection table: the last label the operator chose for each
//! menu control. The hardware cannot report a menu's current selection, so
//! this table is the only source of what a menu shows.

use vstd::prelude::*;

verus! {

/// What is remembered of one control: the chosen label, or that the
/// selection is unknown again.
struct ShadowEntry {
    name: String,
    label: Option<String>,
}

/// Remembered menu selections, keyed by control name. A name without an
/// entry stands for "nothing selected yet".
pub struct ShadowTable {
    entries: Vec<ShadowEntry>,
}

/// Entry `i` is the first one that carries `name`.
spec fn first_at(entries: Seq<ShadowEntry>, name: Seq<char>, i: int) -> bool {
    &&& 0 <= i < entries.len()
    &&& entries[i].name@ == name
    &&& forall|k: int| 0 <= k < i ==> entries[k].name@ != name
}

spec fn model(entries: Seq<ShadowEntry>) -> Map<Seq<char>, Seq<char>> {
    Map::new(
        |name: Seq<char>|
            exists|i: int| first_at(entries, name, i) && entries[i].label is Some,
        |name: Seq<char>| entries[choose|i: int| first_at(entries, name, i)].label->0@,
    )
}

/// The model after `label` was stored for `name`.
spec fn stored(
    m: Map<Seq<char>, Seq<char>>,
    name: Seq<char>,
    label: Option<String>,
) -> Map<Seq<char>, Seq<char>> {
    match label {
        Some(l) => m.insert(name, l@),
        None => m.remove(name),
    }
}

proof fn lemma_first_unique(entries: Seq<ShadowEntry>, name: Seq<char>, a: int, b: int)
    requires
        first_at(entries, name, a),
        first_at(entries, name, b),
    ensures
        a == b,
{
    if a < b {
        assert(entries[a].name@ != name);
    }
    if b < a {
        assert(entries[b].name@ != name);
    }
}

proof fn lemma_model_at(entries: Seq<ShadowEntry>, name: Seq<char>, i: int)
    requires
        first_at(entries, name, i),
    ensures
        model(entries).contains_key(name) == (entries[i].label is Some),
        entries[i].label matches Some(l) ==> model(entries)[name] == l@,
{
    let c = choose|k: int| first_at(entries, name, k);
    lemma_first_unique(entries, name, c, i);
    if model(entries).contains_key(name) {
        let k = choose|k: int| first_at(entries, name, k) && entries[k].label is Some;
        lemma_first_unique(entries, name, k, i);
    }
}

proof fn lemma_model_absent(entries: Seq<ShadowEntry>, name: Seq<char>)
    requires
        forall|i: int| 0 <= i < entries.len() ==> entries[i].name@ != name,
    ensures
        !model(entries).contains_key(name),
{
    assert forall|i: int| !first_at(entries, name, i) by {}
}

proof fn lemma_model_empty(entries: Seq<ShadowEntry>)
    requires
        entries.len() == 0,
    ensures
        model(entries) == Map::<Seq<char>, Seq<char>>::empty(),
{
    assert forall|name: Seq<char>| !model(entries).contains_key(name) by {
        lemma_model_absent(entries, name);
    }
    assert(model(entries) =~= Map::<Seq<char>, Seq<char>>::empty());
}

/// `after` is `before` with `entry` stored at index `i`, which is the first
/// index that carries the entry's name: either in place of the entry that
/// stood there, or as a new last entry.
proof fn lemma_model_store(
    before: Seq<ShadowEntry>,
    after: Seq<ShadowEntry>,
    i: int,
    entry: ShadowEntry,
)
    requires
        first_at(after, entry.name@, i),
        after[i] == entry,
        before.len() <= after.len() <= before.len() + 1,
        i < before.len() ==> after.len() == before.len(),
        forall|k: int| 0 <= k < before.len() ==> before[k].name@ == after[k].name@,
        forall|k: int| 0 <= k < before.len() && k != i ==> before[k] == after[k],
    ensures
        model(after) == stored(model(before), entry.name@, entry.label),
{
    let want = stored(model(before), entry.name@, entry.label);
    assert forall|name: Seq<char>| model(after).contains_key(name) <==> want.contains_key(
        name,
    ) by {
        if name == entry.name@ {
            lemma_model_at(after, name, i);
        } else {
            if model(after).contains_key(name) {
                let k = choose|k: int| first_at(after, name, k) && after[k].label is Some;
                assert(first_at(before, name, k));
            }
            if want.contains_key(name) {
                let k = choose|k: int| first_at(before, name, k) && before[k].label is Some;
                assert(first_at(after, name, k));
            }
        }
    }
    assert forall|name: Seq<char>| model(after).contains_key(name) implies model(after)[name]
        == want[name] by {
        let k = choose|k: int| first_at(after, name, k) && after[k].label is Some;
        lemma_model_at(after, name, k);
        if name == entry.name@ {
            lemma_first_unique(after, name, k, i);
        } else {
            assert(first_at(before, name, k));
            lemma_model_at(before, name, k);
        }
    }
    assert(model(after) =~= want);
}

impl View for ShadowTable {
    type V = Map<Seq<char>, Seq<char>>;

    /// The remembered label of each control name that has one.
    closed spec fn view(&self) -> Map<Seq<char>, Seq<char>> {
        model(self.entries@)
    }
}

impl ShadowTable {
    /// A table without any selection.
    pub fn new() -> (table: ShadowTable)
        ensures
            table@ == Map::<Seq<char>, Seq<char>>::empty(),
    {
        let table = ShadowTable { entries: Vec::new() };
        proof {
            lemma_model_empty(table.entries@);
        }
        table
    }

    fn position(&self, name: &String) -> (r: Option<usize>)
        ensures
            r matches Some(i) ==> first_at(self.entries@, name@, i as int),
            r is None ==> forall|i: int|
                0 <= i < self.entries@.len() ==> self.entries@[i].name@ != name@,
    {
        let mut i: usize = 0;
        while i < self.entries.len()
            invariant
                i <= self.entries@.len(),
                forall|k: int| 0 <= k < i ==> self.entries@[k].name@ != name@,
            decreases self.entries@.len() - i,
        {
            if self.entries[i].name == *name {
                return Some(i);
            }
            i += 1;
        }
        None
    }

    /// The label remembered for `name`, if one was chosen since the table was
    /// last cleared.
    pub fn get(&self, name: &String) -> (label: Option<String>)
        ensures
            label matches Some(l) ==> self@.contains_key(name@) && self@[name@] == l@,
            label is None ==> !self@.contains_key(name@),
    {
        match self.position(name) {
            Some(i) => {
                proof {
                    lemma_model_at(self.entries@, name@, i as int);
                }
                match &self.entries[i].label {
                    Some(l) => Some(l.clone()),
                    None => None,
                }
            },
            None => {
                proof {
                    lemma_model_absent(self.entries@, name@);
                }
                None
            },
        }
    }

    fn store(&mut self, name: String, label: Option<String>)
        ensures
            final(self)@ == stored(old(self)@, name@, label),
    {
        let found = self.position(&name);
        if found.is_none() && label.is_none() {
            proof {
                lemma_model_absent(self.entries@, name@);
                assert(self@.remove(name@) =~= self@);
            }
            return ;
        }
        let entry = ShadowEntry { name, label };
        let ghost before = self.entries@;
        match found {
            Some(i) => {
                self.entries.set(i, entry);
                proof {
                    lemma_model_store(before, self.entries@, i as int, entry);
                }
            },
            None => {
                self.entries.push(entry);
                proof {
                    lemma_model_store(before, self.entries@, before.len() as int, entry);
                }
            },
        }
    }

    /// Remembers `label` as the selection of `name`, in place of any earlier
    /// one.
    pub fn set(&mut self, name: String, label: String)
        ensures
            final(self)@ == old(self)@.insert(name@, label@),
    {
        self.store(name, Some(label));
    }

    /// Makes the selection of `name` unknown again.
    pub fn forget(&mut self, name: String)
        ensures
            final(self)@ == old(self)@.remove(name@),
    {
        self.store(name, None);
    }

    /// Forgets every selection.
    pub fn clear(&mut self)
        ensures
            final(self)@ == Map::<Seq<char>, Seq<char>>::empty(),
    {
        self.entries.clear();
        proof {
            lemma_model_empty(self.entries@);
        }
    }
}

} // verus!
