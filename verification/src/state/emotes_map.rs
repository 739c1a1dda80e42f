//! A catalog of emotes: which image stands for which name.

use vstd::prelude::*;
use vstd::string::StringExecFns;

verus! {

/// The catalog that a list of (name, image URL) pairs describes when each pair
/// overwrites what the pairs before it said of its name.
spec fn entries_map(entries: Seq<(String, String)>) -> Map<Seq<char>, Seq<char>>
    decreases entries.len(),
{
    if entries.len() == 0 {
        Map::empty()
    } else {
        entries_map(entries.drop_last()).insert(entries.last().0@, entries.last().1@)
    }
}

/// One more pair at the end is one more insertion.
proof fn lemma_entries_push(entries: Seq<(String, String)>, entry: (String, String))
    ensures
        entries_map(entries.push(entry)) == entries_map(entries).insert(entry.0@, entry.1@),
{
    assert(entries.push(entry).drop_last() =~= entries);
}

/// A name that no pair carries is not in the catalog.
proof fn lemma_entries_absent(entries: Seq<(String, String)>, name: Seq<char>)
    requires
        forall|j: int| 0 <= j < entries.len() ==> (#[trigger] entries[j]).0@ != name,
    ensures
        !entries_map(entries).contains_key(name),
    decreases entries.len(),
{
    if entries.len() > 0 {
        lemma_entries_absent(entries.drop_last(), name);
    }
}

/// The last pair that carries a name decides its image.
proof fn lemma_entries_last_occurrence(entries: Seq<(String, String)>, i: int)
    requires
        0 <= i < entries.len(),
        forall|j: int| i < j < entries.len() ==> (#[trigger] entries[j]).0@ != entries[i].0@,
    ensures
        entries_map(entries).contains_key(entries[i].0@),
        entries_map(entries)[entries[i].0@] == entries[i].1@,
    decreases entries.len(),
{
    if i < entries.len() - 1 {
        lemma_entries_last_occurrence(entries.drop_last(), i);
    }
}

/// Overwriting the last pair that carries a name is an insertion.
proof fn lemma_entries_update(entries: Seq<(String, String)>, i: int, entry: (String, String))
    requires
        0 <= i < entries.len(),
        entries[i].0@ == entry.0@,
        forall|j: int| i < j < entries.len() ==> (#[trigger] entries[j]).0@ != entry.0@,
    ensures
        entries_map(entries.update(i, entry)) == entries_map(entries).insert(entry.0@, entry.1@),
    decreases entries.len(),
{
    let updated = entries.update(i, entry);
    if i == entries.len() - 1 {
        assert(updated.drop_last() =~= entries.drop_last());
    } else {
        lemma_entries_update(entries.drop_last(), i, entry);
        assert(updated.drop_last() =~= entries.drop_last().update(i, entry));
    }
    assert(entries_map(updated) =~= entries_map(entries).insert(entry.0@, entry.1@));
}

/// No two pairs carry the same name.
spec fn names_distinct(entries: Seq<(String, String)>) -> bool {
    forall|i: int, j: int|
        0 <= i < j < entries.len() ==> (#[trigger] entries[i]).0@ != (#[trigger] entries[j]).0@
}

/// Pairs with distinct names describe a catalog of as many names.
proof fn lemma_entries_len(entries: Seq<(String, String)>)
    requires
        names_distinct(entries),
    ensures
        entries_map(entries).dom().finite(),
        entries_map(entries).len() == entries.len(),
    decreases entries.len(),
{
    if entries.len() > 0 {
        let front = entries.drop_last();
        let last = entries.last();
        assert forall|i: int, j: int| 0 <= i < j < front.len() implies (#[trigger] front[i]).0@ != (
        #[trigger] front[j]).0@ by {
            assert(front[i] == entries[i] && front[j] == entries[j]);
        }
        lemma_entries_len(front);
        assert forall|j: int| 0 <= j < front.len() implies (#[trigger] front[j]).0@ != last.0@ by {
            assert(front[j] == entries[j]);
            assert(last == entries[entries.len() - 1]);
        }
        lemma_entries_absent(front, last.0@);
        assert(entries_map(entries).dom() =~= entries_map(front).dom().insert(last.0@));
    }
}

/// A mapping from emote names to image URLs. Names are case-sensitive, and a
/// name has one image: a later insertion replaces an earlier one.
///
/// Its view is the mapping itself, from the characters of a name to the
/// characters of its URL.
#[derive(Debug)]
pub struct EmotesMap {
    entries: Vec<(String, String)>,
}

impl View for EmotesMap {
    type V = Map<Seq<char>, Seq<char>>;

    closed spec fn view(&self) -> Map<Seq<char>, Seq<char>> {
        entries_map(self.entries@)
    }
}

impl EmotesMap {
    #[verifier::type_invariant]
    spec fn well_formed(self) -> bool {
        names_distinct(self.entries@)
    }

    /// The empty catalog.
    pub fn new() -> (emotes: Self)
        ensures
            emotes@ == Map::<Seq<char>, Seq<char>>::empty(),
    {
        Self { entries: Vec::new() }
    }

    /// The position of the last pair that carries `name`, if any does.
    fn position(&self, name: &String) -> (found: Option<usize>)
        ensures
            match found {
                Some(i) => {
                    &&& i < self.entries@.len()
                    &&& self.entries@[i as int].0@ == name@
                    &&& forall|j: int|
                        i < j < self.entries@.len() ==> (#[trigger] self.entries@[j]).0@ != name@
                },
                None => forall|j: int|
                    0 <= j < self.entries@.len() ==> (#[trigger] self.entries@[j]).0@ != name@,
            },
    {
        let mut i: usize = self.entries.len();
        while i > 0
            invariant
                i <= self.entries@.len(),
                forall|j: int|
                    i <= j < self.entries@.len() ==> (#[trigger] self.entries@[j]).0@ != name@,
            decreases i,
        {
            i -= 1;
            if self.entries[i].0 == *name {
                return Some(i);
            }
        }
        None
    }

    /// The image URL of `name`, if the catalog has the name.
    pub fn get(&self, name: &str) -> (url: Option<&String>)
        ensures
            match url {
                Some(u) => self@.contains_key(name@) && u@ == self@[name@],
                None => !self@.contains_key(name@),
            },
    {
        let key = String::from_str(name);
        match self.position(&key) {
            Some(i) => {
                proof {
                    lemma_entries_last_occurrence(self.entries@, i as int);
                }
                Some(&self.entries[i].1)
            },
            None => {
                proof {
                    lemma_entries_absent(self.entries@, name@);
                }
                None
            },
        }
    }

    /// Whether the catalog has `name`.
    pub fn contains_key(&self, name: &str) -> (found: bool)
        ensures
            found == self@.contains_key(name@),
    {
        self.get(name).is_some()
    }

    /// Whether the catalog has no name at all.
    pub fn is_empty(&self) -> (empty: bool)
        ensures
            empty == (self@ == Map::<Seq<char>, Seq<char>>::empty()),
    {
        let empty = self.entries.len() == 0;
        proof {
            if !empty {
                let last = self.entries@.last();
                assert(self@.contains_key(last.0@));
            }
        }
        empty
    }

    /// How many names the catalog has.
    pub fn len(&self) -> (count: usize)
        ensures
            self@.dom().finite(),
            count == self@.len(),
    {
        proof {
            use_type_invariant(self);
            lemma_entries_len(self.entries@);
        }
        self.entries.len()
    }

    /// Gives `name` the image `url`, in place of the one it had, if any.
    pub fn insert(&mut self, name: String, url: String)
        ensures
            final(self)@ == old(self)@.insert(name@, url@),
    {
        proof {
            use_type_invariant(&*self);
        }
        let found = self.position(&name);
        let mut entries: Vec<(String, String)> = Vec::new();
        std::mem::swap(&mut entries, &mut self.entries);
        match found {
            Some(i) => {
                proof {
                    lemma_entries_update(entries@, i as int, (name, url));
                }
                entries[i] = (name, url);
            },
            None => {
                proof {
                    lemma_entries_push(entries@, (name, url));
                }
                entries.push((name, url));
            },
        }
        self.entries = entries;
    }

    /// Adds every name of `other`; where both have a name, the image of
    /// `other` stays.
    pub fn extend(&mut self, other: EmotesMap)
        ensures
            final(self)@ == old(self)@.union_prefer_right(other@),
    {
        let ghost all = other.entries@;
        assert(all.take(0) =~= Seq::<(String, String)>::empty());
        assert(self@ =~= old(self)@.union_prefer_right(entries_map(all.take(0))));
        for entry in it: other.entries
            invariant
                it.seq() == all,
                self@ == old(self)@.union_prefer_right(entries_map(all.take(it.index()))),
        {
            proof {
                let done = all.take(it.index());
                let next = all.take(it.index() + 1);
                assert(next.drop_last() =~= done);
                assert(next.last() == entry);
                assert(old(self)@.union_prefer_right(entries_map(next)) =~= old(
                    self,
                )@.union_prefer_right(entries_map(done)).insert(entry.0@, entry.1@));
            }
            self.insert(entry.0, entry.1);
        }
        assert(all.take(all.len() as int) =~= all);
    }
}

impl Clone for EmotesMap {
    /// A copy with the same names and images.
    fn clone(&self) -> (copy: Self)
        ensures
            copy@ == self@,
    {
        let mut entries: Vec<(String, String)> = Vec::new();
        let n = self.entries.len();
        let mut i: usize = 0;
        while i < n
            invariant
                i <= n,
                n == self.entries@.len(),
                entries@.len() == i,
                forall|j: int| 0 <= j < i ==> entries@[j] == self.entries@[j],
            decreases n - i,
        {
            entries.push((self.entries[i].0.clone(), self.entries[i].1.clone()));
            i += 1;
        }
        proof {
            use_type_invariant(self);
            assert(entries@ =~= self.entries@);
        }
        Self { entries }
    }
}

} // verus!
