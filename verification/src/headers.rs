//! A small header map, modelling the replace-on-insert behaviour of an HTTP
//! header map: at most one visible value per header name.
//!
//! Model assumption: names are compared literally, while HTTP compares header
//! names case-insensitively (the host framework's parser normalizes them to
//! lowercase). The middleware reads and writes only through the single
//! configured name, so it never sees two spellings of one name; callers that
//! build requests themselves should use the lowercase form throughout.

use vstd::prelude::*;

verus! {

/// The value under `name` in a sequence of header entries: the first entry
/// whose name matches.
pub open spec fn lookup(entries: Seq<(String, String)>, name: Seq<char>) -> Option<Seq<char>>
    decreases entries.len(),
{
    if entries.len() == 0 {
        None
    } else if entries[0].0@ == name {
        Some(entries[0].1@)
    } else {
        lookup(entries.drop_first(), name)
    }
}

proof fn lemma_lookup_first_match(entries: Seq<(String, String)>, i: int, name: Seq<char>)
    requires
        0 <= i < entries.len(),
        forall|j: int| 0 <= j < i ==> (#[trigger] entries[j]).0@ != name,
        entries[i].0@ == name,
    ensures
        lookup(entries, name) == Some(entries[i].1@),
    decreases i,
{
    if i > 0 {
        lemma_lookup_first_match(entries.drop_first(), i - 1, name);
    }
}

proof fn lemma_lookup_no_match(entries: Seq<(String, String)>, name: Seq<char>)
    requires
        forall|j: int| 0 <= j < entries.len() ==> (#[trigger] entries[j]).0@ != name,
    ensures
        lookup(entries, name) is None,
    decreases entries.len(),
{
    if entries.len() > 0 {
        lemma_lookup_no_match(entries.drop_first(), name);
    }
}

proof fn lemma_lookup_update(entries: Seq<(String, String)>, i: int, pair: (String, String), name: Seq<char>)
    requires
        0 <= i < entries.len(),
        forall|j: int| 0 <= j < i ==> (#[trigger] entries[j]).0@ != name,
        entries[i].0@ == name,
        pair.0@ == name,
    ensures
        lookup(entries.update(i, pair), name) == Some(pair.1@),
        forall|o: Seq<char>| o != name ==> #[trigger] lookup(entries.update(i, pair), o) == lookup(entries, o),
    decreases i,
{
    let updated = entries.update(i, pair);
    if i == 0 {
        assert(updated.drop_first() =~= entries.drop_first());
        assert forall|o: Seq<char>| o != name implies #[trigger] lookup(updated, o) == lookup(entries, o) by {
            assert(updated[0].0@ != o);
            assert(entries[0].0@ != o);
        }
    } else {
        lemma_lookup_update(entries.drop_first(), i - 1, pair, name);
        assert(updated.drop_first() =~= entries.drop_first().update(i - 1, pair));
        assert(updated[0] == entries[0]);
        assert forall|o: Seq<char>| o != name implies #[trigger] lookup(updated, o) == lookup(entries, o) by {
            if updated[0].0@ != o {
                assert(lookup(updated, o) == lookup(updated.drop_first(), o));
                assert(lookup(entries, o) == lookup(entries.drop_first(), o));
            }
        }
    }
}

proof fn lemma_lookup_push(entries: Seq<(String, String)>, pair: (String, String))
    requires
        forall|j: int| 0 <= j < entries.len() ==> (#[trigger] entries[j]).0@ != pair.0@,
    ensures
        lookup(entries.push(pair), pair.0@) == Some(pair.1@),
        forall|o: Seq<char>| o != pair.0@ ==> #[trigger] lookup(entries.push(pair), o) == lookup(entries, o),
    decreases entries.len(),
{
    let pushed = entries.push(pair);
    if entries.len() == 0 {
        assert(pushed[0] == pair);
        assert(pushed.drop_first() =~= Seq::<(String, String)>::empty());
        assert forall|o: Seq<char>| o != pair.0@ implies #[trigger] lookup(pushed, o) == lookup(entries, o) by {
            assert(lookup(pushed, o) == lookup(pushed.drop_first(), o));
            assert(lookup(pushed.drop_first(), o) is None);
        }
    } else {
        lemma_lookup_push(entries.drop_first(), pair);
        assert(pushed[0] == entries[0]);
        assert(pushed.drop_first() =~= entries.drop_first().push(pair));
        assert(lookup(pushed, pair.0@) == lookup(pushed.drop_first(), pair.0@));
        assert forall|o: Seq<char>| o != pair.0@ implies #[trigger] lookup(pushed, o) == lookup(entries, o) by {
            if entries[0].0@ != o {
                assert(lookup(pushed, o) == lookup(pushed.drop_first(), o));
                assert(lookup(entries, o) == lookup(entries.drop_first(), o));
            }
        }
    }
}

/// A header map: name/value pairs, insert replaces the entry with the same name.
pub struct Headers {
    entries: Vec<(String, String)>,
}

impl Headers {
    /// The value stored under `name`, if any.
    pub closed spec fn get_spec(&self, name: Seq<char>) -> Option<Seq<char>> {
        lookup(self.entries@, name)
    }

    /// An empty header map.
    pub fn new() -> (r: Self)
        ensures
            forall|n: Seq<char>| #[trigger] r.get_spec(n) is None,
    {
        Headers { entries: Vec::new() }
    }

    /// Look up the value stored under `name`.
    pub fn get(&self, name: &str) -> (r: Option<&String>)
        ensures
            r matches Some(v) ==> self.get_spec(name@) == Some(v@),
            r is None ==> self.get_spec(name@) is None,
    {
        let key: String = name.to_owned();
        let n = self.entries.len();
        let mut i: usize = 0;
        while i < n
            invariant
                0 <= i <= n,
                n == self.entries.len(),
                key@ == name@,
                forall|j: int| 0 <= j < i ==> (#[trigger] self.entries@[j]).0@ != name@,
            decreases n - i,
        {
            if self.entries[i].0 == key {
                proof {
                    lemma_lookup_first_match(self.entries@, i as int, name@);
                }
                return Some(&self.entries[i].1);
            }
            i += 1;
        }
        proof {
            lemma_lookup_no_match(self.entries@, name@);
        }
        None
    }

    /// Store `value` under `name`, replacing any existing entry for that name
    /// and leaving every other name untouched.
    pub fn insert(&mut self, name: &str, value: String)
        ensures
            final(self).get_spec(name@) == Some(value@),
            forall|o: Seq<char>| o != name@ ==> #[trigger] final(self).get_spec(o) == old(self).get_spec(o),
    {
        let key: String = name.to_owned();
        let n = self.entries.len();
        let mut i: usize = 0;
        while i < n
            invariant
                0 <= i <= n,
                n == self.entries.len(),
                key@ == name@,
                self.entries@ == old(self).entries@,
                forall|j: int| 0 <= j < i ==> (#[trigger] self.entries@[j]).0@ != name@,
            decreases n - i,
        {
            if self.entries[i].0 == key {
                proof {
                    lemma_lookup_update(self.entries@, i as int, (key, value), name@);
                }
                self.entries.set(i, (key, value));
                return;
            }
            i += 1;
        }
        proof {
            lemma_lookup_push(self.entries@, (key, value));
        }
        self.entries.push((key, value));
    }
}

} // verus!
