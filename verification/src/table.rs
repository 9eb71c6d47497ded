//! Small keyed tables: the configured tiers by name, the known consumers by
//! key. Building a table from a list keeps, for each key, the last item that
//! carries it, as collecting the list into a map would.

use vstd::prelude::*;

use crate::text::str_eq;

verus! {

/// An item that is found in a table by a string key.
pub trait Keyed {
    /// The item's key.
    spec fn key_spec(&self) -> Seq<char>;

    /// The item's key.
    fn key(&self) -> (r: &String)
        ensures
            r@ == self.key_spec(),
    ;
}

/// The last item of `items` whose key is `key`.
pub open spec fn last_keyed<T: Keyed>(items: Seq<T>, key: Seq<char>) -> Option<T>
    decreases items.len(),
{
    if items.len() == 0 {
        None
    } else if items.last().key_spec() == key {
        Some(items.last())
    } else {
        last_keyed(items.drop_last(), key)
    }
}

/// No two items of `items` share a key.
pub open spec fn unique_keys<T: Keyed>(items: Seq<T>) -> bool {
    forall|i: int, j: int|
        0 <= i < items.len() && 0 <= j < items.len() && i != j ==> #[trigger] items[i].key_spec()
            != #[trigger] items[j].key_spec()
}

proof fn lemma_last_keyed_found<T: Keyed>(s: Seq<T>, i: int)
    requires
        0 <= i < s.len(),
        unique_keys(s),
    ensures
        last_keyed(s, s[i].key_spec()) == Some(s[i]),
    decreases s.len(),
{
    if i != s.len() - 1 {
        assert(s.last().key_spec() != s[i].key_spec()) by {
            assert(s[s.len() - 1] == s.last());
        }
        assert(s.drop_last()[i] == s[i]);
        lemma_last_keyed_found(s.drop_last(), i);
    }
}

proof fn lemma_last_keyed_absent<T: Keyed>(s: Seq<T>, k: Seq<char>)
    requires
        forall|i: int| 0 <= i < s.len() ==> #[trigger] s[i].key_spec() != k,
    ensures
        last_keyed(s, k) is None,
    decreases s.len(),
{
    if s.len() > 0 {
        assert(s.last().key_spec() != k) by {
            assert(s[s.len() - 1] == s.last());
        }
        assert forall|i: int| 0 <= i < s.drop_last().len() implies #[trigger] s.drop_last()[i].key_spec()
            != k by {
            assert(s.drop_last()[i] == s[i]);
        }
        lemma_last_keyed_absent(s.drop_last(), k);
    }
}

proof fn lemma_last_keyed_update<T: Keyed>(s: Seq<T>, j: int, x: T, k: Seq<char>)
    requires
        0 <= j < s.len(),
        s[j].key_spec() == x.key_spec(),
        unique_keys(s),
    ensures
        last_keyed(s.update(j, x), k) == if k == x.key_spec() {
            Some(x)
        } else {
            last_keyed(s, k)
        },
    decreases s.len(),
{
    let u = s.update(j, x);
    if j == s.len() - 1 {
        assert(u.drop_last() =~= s.drop_last());
        assert(u.last() == x);
    } else {
        assert(u.drop_last() =~= s.drop_last().update(j, x));
        assert(s[s.len() - 1] == s.last());
        assert(s.last().key_spec() != x.key_spec());
        assert(u.last() == s.last());
        assert(unique_keys(s.drop_last())) by {
            assert forall|a: int, b: int|
                0 <= a < s.drop_last().len() && 0 <= b < s.drop_last().len() && a != b implies #[trigger] s.drop_last()[a].key_spec()
                != #[trigger] s.drop_last()[b].key_spec() by {
                assert(s.drop_last()[a] == s[a]);
                assert(s.drop_last()[b] == s[b]);
            }
        }
        assert(s.drop_last()[j] == s[j]);
        lemma_last_keyed_update(s.drop_last(), j, x, k);
    }
}

/// Items found by key; each key occurs at most once.
pub struct Table<T: Keyed> {
    entries: Vec<T>,
}

impl<T: Keyed> Table<T> {
    #[verifier::type_invariant]
    spec fn well_formed(self) -> bool {
        unique_keys(self.entries@)
    }

    /// The item stored under `key`.
    pub closed spec fn lookup(&self, key: Seq<char>) -> Option<T> {
        last_keyed(self.entries@, key)
    }

    /// The number of distinct keys in the table.
    pub closed spec fn size(&self) -> nat {
        self.entries@.len()
    }

    /// An empty table.
    pub fn new() -> (t: Self)
        ensures
            forall|k: Seq<char>| #[trigger] t.lookup(k) is None,
            t.size() == 0,
    {
        Table { entries: Vec::new() }
    }

    /// Looks up the item stored under `key`.
    pub fn get(&self, key: &str) -> (r: Option<&T>)
        ensures
            match r {
                Some(x) => self.lookup(key@) == Some(*x),
                None => self.lookup(key@) is None,
            },
    {
        proof {
            use_type_invariant(self);
        }
        let n = self.entries.len();
        let mut i: usize = 0;
        while i < n
            invariant
                n == self.entries@.len(),
                i <= n,
                unique_keys(self.entries@),
                forall|j: int| 0 <= j < i ==> #[trigger] self.entries@[j].key_spec() != key@,
            decreases n - i,
        {
            let k = self.entries[i].key();
            if str_eq(k.as_str(), key) {
                proof {
                    lemma_last_keyed_found(self.entries@, i as int);
                }
                return Some(&self.entries[i]);
            }
            i = i + 1;
        }
        proof {
            lemma_last_keyed_absent(self.entries@, key@);
        }
        None
    }

    /// Stores `item` under its key, replacing what was stored there.
    pub fn insert(&mut self, item: T)
        ensures
            forall|k: Seq<char>|
                #[trigger] final(self).lookup(k) == if k == item.key_spec() {
                    Some(item)
                } else {
                    old(self).lookup(k)
                },
    {
        proof {
            use_type_invariant(&*self);
        }
        let n = self.entries.len();
        let mut i: usize = 0;
        while i < n
            invariant
                n == self.entries@.len(),
                i <= n,
                self.entries@ == old(self).entries@,
                unique_keys(self.entries@),
                forall|j: int| 0 <= j < i ==> #[trigger] self.entries@[j].key_spec() != item.key_spec(),
            decreases n - i,
        {
            let same = self.entries[i].key().eq(item.key());
            if same {
                let ghost before = self.entries@;
                proof {
                    assert forall|k: Seq<char>| #[trigger] last_keyed(before.update(i as int, item), k)
                        == if k == item.key_spec() {
                        Some(item)
                    } else {
                        last_keyed(before, k)
                    } by {
                        lemma_last_keyed_update(before, i as int, item, k);
                    }
                    assert(unique_keys(before.update(i as int, item))) by {
                        assert forall|a: int, b: int|
                            0 <= a < before.len() && 0 <= b < before.len() && a != b implies #[trigger] before.update(i as int, item)[a].key_spec()
                            != #[trigger] before.update(i as int, item)[b].key_spec() by {
                            assert(before[a].key_spec() != before[b].key_spec());
                        }
                    }
                }
                let mut entries = Vec::new();
                std::mem::swap(&mut entries, &mut self.entries);
                entries.set(i, item);
                self.entries = entries;
                return;
            }
            i = i + 1;
        }
        let ghost before = self.entries@;
        proof {
            assert(before.push(item).drop_last() =~= before);
            assert(unique_keys(before.push(item))) by {
                assert forall|a: int, b: int|
                    0 <= a < before.push(item).len() && 0 <= b < before.push(item).len() && a != b implies #[trigger] before.push(item)[a].key_spec()
                    != #[trigger] before.push(item)[b].key_spec() by {
                    if a < before.len() && b < before.len() {
                        assert(before[a].key_spec() != before[b].key_spec());
                    } else if a < before.len() {
                        assert(before[a].key_spec() != item.key_spec());
                    } else {
                        assert(before[b].key_spec() != item.key_spec());
                    }
                }
            }
        }
        let mut entries = Vec::new();
                std::mem::swap(&mut entries, &mut self.entries);
        entries.push(item);
        self.entries = entries;
    }

    /// A table holding, for each key, the last item of `items` with that key.
    pub fn from_items(items: Vec<T>) -> (t: Self)
        ensures
            forall|k: Seq<char>| #[trigger] t.lookup(k) == last_keyed(items@, k),
    {
        let mut t = Table::new();
        let ghost all = items@;
        let mut rest = items;
        let ghost done: Seq<T> = Seq::empty();
        while rest.len() > 0
            invariant
                all =~= done + rest@,
                forall|k: Seq<char>| #[trigger] t.lookup(k) == last_keyed(done, k),
            decreases rest.len(),
        {
            let item = rest.remove(0);
            proof {
                assert(done.push(item).drop_last() =~= done);
            }
            t.insert(item);
            proof {
                done = done.push(item);
            }
        }
        proof {
            assert(done =~= all);
        }
        t
    }
}

} // verus!
