//! The profile store: profiles by name, each name once.
use crate::config::{Profile, ProfileView};
use vstd::prelude::*;

verus! {

/// One named profile.
struct Entry {
    name: String,
    profile: Profile,
}

/// Whether the entry at `at` is named `name`.
spec fn names(entries: Seq<Entry>, at: int, name: Seq<char>) -> bool {
    0 <= at < entries.len() && entries[at].name@ == name
}

/// Whether some entry is named `name`.
spec fn holds(entries: Seq<Entry>, name: Seq<char>) -> bool {
    exists|at: int| names(entries, at, name)
}

/// The place of the entry named `name`, where there is one.
spec fn position(entries: Seq<Entry>, name: Seq<char>) -> int {
    choose|at: int| names(entries, at, name)
}

/// Whether no name stands twice.
spec fn distinct(entries: Seq<Entry>) -> bool {
    forall|i: int, j: int| 0 <= i < j < entries.len() ==> entries[i].name@ != entries[j].name@
}

/// The entries as a map from name to profile.
spec fn as_map(entries: Seq<Entry>) -> Map<Seq<char>, ProfileView> {
    Map::new(
        |name: Seq<char>| holds(entries, name),
        |name: Seq<char>| entries[position(entries, name)].profile@,
    )
}

/// In entries with distinct names, the entry at a place is the one the map
/// gives for its name.
proof fn lemma_entry_is_mapped(entries: Seq<Entry>, at: int)
    requires
        distinct(entries),
        0 <= at < entries.len(),
    ensures
        as_map(entries).contains_key(entries[at].name@),
        as_map(entries)[entries[at].name@] == entries[at].profile@,
{
    let name = entries[at].name@;
    assert(names(entries, at, name));
}

/// A name that the map knows is the name of some entry.
proof fn lemma_mapped_is_entry(entries: Seq<Entry>, name: Seq<char>) -> (at: int)
    requires
        as_map(entries).contains_key(name),
    ensures
        names(entries, at, name),
{
    position(entries, name)
}

/// Writing an entry over the one of the same name changes the map as an
/// insertion does.
proof fn lemma_replaced(before: Seq<Entry>, at: int, entry: Entry)
    requires
        distinct(before),
        names(before, at, entry.name@),
    ensures
        distinct(before.update(at, entry)),
        as_map(before.update(at, entry)) == as_map(before).insert(entry.name@, entry.profile@),
{
    let after = before.update(at, entry);
    let wanted = as_map(before).insert(entry.name@, entry.profile@);
    assert forall|key: Seq<char>| as_map(after).contains_key(key) <==> wanted.contains_key(
        key,
    ) by {
        if as_map(after).contains_key(key) {
            let k = lemma_mapped_is_entry(after, key);
            assert(names(before, k, key));
        }
        if as_map(before).contains_key(key) {
            let k = lemma_mapped_is_entry(before, key);
            assert(names(after, k, key));
        }
    }
    assert forall|key: Seq<char>| as_map(after).contains_key(key) implies as_map(after)[key]
        == wanted[key] by {
        let k = lemma_mapped_is_entry(after, key);
        lemma_entry_is_mapped(after, k);
        if k != at {
            lemma_entry_is_mapped(before, k);
        }
    }
}

/// Adding an entry under a name that no entry has changes the map as an
/// insertion does.
proof fn lemma_appended(before: Seq<Entry>, entry: Entry)
    requires
        distinct(before),
        !holds(before, entry.name@),
    ensures
        distinct(before.push(entry)),
        as_map(before.push(entry)) == as_map(before).insert(entry.name@, entry.profile@),
{
    let after = before.push(entry);
    let end = before.len() as int;
    assert forall|i: int, j: int| 0 <= i < j < after.len() implies after[i].name@
        != after[j].name@ by {
        if j == end {
            assert(!names(before, i, entry.name@));
        }
    }
    let wanted = as_map(before).insert(entry.name@, entry.profile@);
    assert(names(after, end, entry.name@));
    assert forall|key: Seq<char>| as_map(after).contains_key(key) <==> wanted.contains_key(
        key,
    ) by {
        if as_map(after).contains_key(key) {
            let k = lemma_mapped_is_entry(after, key);
            if k < end {
                assert(names(before, k, key));
            }
        }
        if as_map(before).contains_key(key) {
            let k = lemma_mapped_is_entry(before, key);
            assert(names(after, k, key));
        }
    }
    assert forall|key: Seq<char>| as_map(after).contains_key(key) implies as_map(after)[key]
        == wanted[key] by {
        let k = lemma_mapped_is_entry(after, key);
        lemma_entry_is_mapped(after, k);
        if k < end {
            lemma_entry_is_mapped(before, k);
        }
    }
}

/// The names of the first `upto` entries.
spec fn named_upto(entries: Seq<Entry>, upto: int) -> Set<Seq<char>> {
    Set::new(|name: Seq<char>| exists|at: int| 0 <= at < upto && names(entries, at, name))
}

/// Entries with distinct names have as many names as there are entries.
proof fn lemma_counted(entries: Seq<Entry>, upto: int)
    requires
        distinct(entries),
        0 <= upto <= entries.len(),
    ensures
        named_upto(entries, upto).finite(),
        named_upto(entries, upto).len() == upto,
    decreases upto,
{
    if upto == 0 {
        assert(named_upto(entries, upto) =~= Set::<Seq<char>>::empty());
    } else {
        lemma_counted(entries, upto - 1);
        let last = entries[upto - 1].name@;
        assert(names(entries, upto - 1, last));
        assert(named_upto(entries, upto) =~= named_upto(entries, upto - 1).insert(last));
    }
}

/// The place of the entry named `name`, or the number of entries where no
/// entry has that name.
fn find(entries: &Vec<Entry>, name: &String) -> (at: usize)
    ensures
        at <= entries.len(),
        at < entries.len() ==> names(entries@, at as int, name@),
        at == entries.len() ==> !holds(entries@, name@),
{
    let mut at: usize = 0;
    while at < entries.len()
        invariant
            at <= entries.len(),
            forall|k: int| 0 <= k < at ==> !names(entries@, k, name@),
        decreases entries.len() - at,
    {
        if entries[at].name == *name {
            return at;
        }
        at += 1;
    }
    at
}

/// Profiles by name.
pub struct ProfileStore {
    entries: Vec<Entry>,
}

impl View for ProfileStore {
    type V = Map<Seq<char>, ProfileView>;

    closed spec fn view(&self) -> Map<Seq<char>, ProfileView> {
        as_map(self.entries@)
    }
}

impl ProfileStore {
    #[verifier::type_invariant]
    spec fn well_formed(&self) -> bool {
        distinct(self.entries@)
    }

    /// The store with no profile in it.
    pub fn new() -> (store: Self)
        ensures
            store@ == Map::<Seq<char>, ProfileView>::empty(),
    {
        let store = ProfileStore { entries: Vec::new() };
        store
    }

    /// Puts `profile` under `name`, in place of any profile that was there.
    pub fn insert(&mut self, name: String, profile: Profile)
        ensures
            final(self)@ == old(self)@.insert(name@, profile@),
    {
        proof {
            use_type_invariant(&*self);
        }
        let mut entries: Vec<Entry> = Vec::new();
        core::mem::swap(&mut self.entries, &mut entries);
        let ghost before = entries@;
        let at = find(&entries, &name);
        let entry = Entry { name, profile };
        if at < entries.len() {
            proof {
                lemma_replaced(before, at as int, entry);
            }
            entries.set(at, entry);
        } else {
            proof {
                lemma_appended(before, entry);
            }
            entries.push(entry);
        }
        core::mem::swap(&mut self.entries, &mut entries);
    }

    /// The names of the profiles, each once.
    pub fn names(&self) -> (names: Vec<String>)
        ensures
            names.len() == self@.len(),
            self@.dom().finite(),
            forall|name: Seq<char>|
                self@.contains_key(name) <==> exists|at: int|
                    0 <= at < names.len() && #[trigger] names[at]@ == name,
            forall|i: int, j: int| 0 <= i < j < names.len() ==> names[i]@ != names[j]@,
    {
        proof {
            use_type_invariant(self);
            lemma_counted(self.entries@, self.entries.len() as int);
            assert(self@.dom() =~= named_upto(self.entries@, self.entries.len() as int));
        }
        let mut names: Vec<String> = Vec::new();
        let mut at: usize = 0;
        while at < self.entries.len()
            invariant
                at <= self.entries.len(),
                names.len() == at,
                forall|k: int| 0 <= k < at ==> names[k]@ == self.entries[k].name@,
            decreases self.entries.len() - at,
        {
            names.push(self.entries[at].name.clone());
            at += 1;
        }
        proof {
            assert forall|name: Seq<char>| self@.contains_key(name) implies exists|at: int|
                0 <= at < names.len() && #[trigger] names[at]@ == name by {
                let k = lemma_mapped_is_entry(self.entries@, name);
                assert(names[k]@ == name);
            }
            assert forall|name: Seq<char>|
                (exists|at: int|
                    0 <= at < names.len() && #[trigger] names[at]@ == name) implies self@.contains_key(
                name,
            ) by {
                let k = choose|at: int| 0 <= at < names.len() && #[trigger] names[at]@ == name;
                lemma_entry_is_mapped(self.entries@, k);
            }
        }
        names
    }

    /// The profile under `name`, if there is one.
    pub fn get(&self, name: &str) -> (found: Option<&Profile>)
        ensures
            match found {
                Some(profile) => self@.contains_key(name@) && self@[name@] == profile@,
                None => !self@.contains_key(name@),
            },
    {
        proof {
            use_type_invariant(self);
        }
        let wanted = name.to_owned();
        let at = find(&self.entries, &wanted);
        if at < self.entries.len() {
            proof {
                lemma_entry_is_mapped(self.entries@, at as int);
            }
            Some(&self.entries[at].profile)
        } else {
            None
        }
    }
}

} // verus!
