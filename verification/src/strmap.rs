use vstd::prelude::*;
use crate::text::str_eq;

verus! {

/// The value stored under `k` in an entry list: the first entry with that
/// key wins.
pub open spec fn lookup<V>(s: Seq<(Seq<char>, V)>, k: Seq<char>) -> Option<V>
    decreases s.len(),
{
    if s.len() == 0 {
        None
    } else if s[0].0 == k {
        Some(s[0].1)
    } else {
        lookup(s.drop_first(), k)
    }
}

proof fn lemma_lookup_prefix<V>(s: Seq<(Seq<char>, V)>, k: Seq<char>, i: int)
    requires
        0 <= i <= s.len(),
        forall|j: int| 0 <= j < i ==> #[trigger] s[j].0 != k,
    ensures
        lookup(s, k) == lookup(s.skip(i), k),
    decreases i,
{
    if i == 0 {
        assert(s.skip(0) =~= s);
    } else {
        assert forall|j: int| 0 <= j < i - 1 implies #[trigger] s.drop_first()[j].0 != k by {
            assert(s.drop_first()[j] == s[j + 1]);
        }
        lemma_lookup_prefix(s.drop_first(), k, i - 1);
        assert(s.drop_first().skip(i - 1) =~= s.skip(i));
    }
}

proof fn lemma_lookup_push<V>(s: Seq<(Seq<char>, V)>, k: Seq<char>, v: V, q: Seq<char>)
    requires
        lookup(s, k) is None,
    ensures
        lookup(s.push((k, v)), q) == if q == k {
            Some(v)
        } else {
            lookup(s, q)
        },
    decreases s.len(),
{
    if s.len() > 0 {
        assert(s.push((k, v))[0] == s[0]);
        assert(s.push((k, v)).drop_first() =~= s.drop_first().push((k, v)));
        if s[0].0 != k {
            lemma_lookup_push(s.drop_first(), k, v, q);
        }
    } else {
        assert(s.push((k, v)).drop_first() =~= s);
    }
}

proof fn lemma_lookup_none<V>(s: Seq<(Seq<char>, V)>, k: Seq<char>)
    requires
        forall|j: int| 0 <= j < s.len() ==> #[trigger] s[j].0 != k,
    ensures
        lookup(s, k) is None,
{
    lemma_lookup_prefix(s, k, s.len() as int);
}

proof fn lemma_lookup_update<V>(s: Seq<(Seq<char>, V)>, i: int, v: V, q: Seq<char>)
    requires
        0 <= i < s.len(),
        forall|j: int| 0 <= j < i ==> #[trigger] s[j].0 != s[i].0,
    ensures
        lookup(s.update(i, (s[i].0, v)), q) == if q == s[i].0 {
            Some(v)
        } else {
            lookup(s, q)
        },
    decreases i,
{
    if i == 0 {
        assert(s.update(0, (s[0].0, v)).drop_first() =~= s.drop_first());
    } else {
        assert(s.update(i, (s[i].0, v)).drop_first() =~= s.drop_first().update(
            i - 1,
            (s[i].0, v),
        ));
        assert forall|j: int| 0 <= j < i - 1 implies #[trigger] s.drop_first()[j].0
            != s.drop_first()[i - 1].0 by {
            assert(s.drop_first()[j] == s[j + 1]);
        }
        lemma_lookup_update(s.drop_first(), i - 1, v, q);
    }
}

/// A map from strings to values that keeps its entries in insertion order.
#[derive(Clone, Debug)]
pub struct StrMap<V> {
    entries: Vec<(String, V)>,
}

impl<V: View> View for StrMap<V> {
    type V = Seq<(Seq<char>, V::V)>;

    closed spec fn view(&self) -> Seq<(Seq<char>, V::V)> {
        self.entries@.map_values(|e: (String, V)| (e.0@, e.1@))
    }
}

impl<V: View> StrMap<V> {
    pub fn new() -> (r: Self)
        ensures
            r@ == Seq::<(Seq<char>, V::V)>::empty(),
    {
        let r = StrMap { entries: Vec::new() };
        assert(r@ =~= Seq::<(Seq<char>, V::V)>::empty());
        r
    }

    pub fn len(&self) -> (n: usize)
        ensures
            n == self@.len(),
    {
        self.entries.len()
    }

    pub fn is_empty(&self) -> (b: bool)
        ensures
            b == (self@.len() == 0),
    {
        self.entries.len() == 0
    }

    /// The entries, in insertion order.
    pub fn entries(&self) -> (r: &Vec<(String, V)>)
        ensures
            r@.map_values(|e: (String, V)| (e.0@, e.1@)) == self@,
    {
        &self.entries
    }

    /// The value stored under `key`.
    pub fn get(&self, key: &str) -> (r: Option<&V>)
        ensures
            match r {
                Some(v) => lookup(self@, key@) == Some(v@),
                None => lookup(self@, key@) is None,
            },
    {
        let ghost s = self@;
        for i in 0..self.entries.len()
            invariant
                s == self@,
                s.len() == self.entries@.len(),
                forall|j: int| 0 <= j < i ==> #[trigger] s[j].0 != key@,
        {
            assert(s[i as int].0 == self.entries@[i as int].0@);
            if str_eq(self.entries[i].0.as_str(), key) {
                proof {
                    lemma_lookup_prefix(s, key@, i as int);
                    assert(s.skip(i as int)[0] == s[i as int]);
                }
                return Some(&self.entries[i].1);
            }
        }
        proof {
            lemma_lookup_none(s, key@);
        }
        None
    }

    /// Stores `value` under `key`, in place of any value stored there.
    pub fn insert(&mut self, key: String, value: V)
        ensures
            forall|q: Seq<char>|
                #[trigger] lookup(final(self)@, q) == if q == key@ {
                    Some(value@)
                } else {
                    lookup(old(self)@, q)
                },
    {
        let ghost s = self@;
        let n = self.entries.len();
        for i in 0..n
            invariant
                s == self@,
                s == old(self)@,
                n == self.entries@.len(),
                s.len() == n,
                forall|j: int| 0 <= j < i ==> #[trigger] s[j].0 != key@,
        {
            assert(s[i as int].0 == self.entries@[i as int].0@);
            if str_eq(self.entries[i].0.as_str(), key.as_str()) {
                let ghost kv = key@;
                let ghost vv = value@;
                self.entries.set(i, (key, value));
                proof {
                    assert(self@ =~= s.update(i as int, (s[i as int].0, vv)));
                    assert forall|q: Seq<char>| #[trigger] lookup(self@, q) == if q == kv {
                        Some(vv)
                    } else {
                        lookup(s, q)
                    } by {
                        lemma_lookup_update(s, i as int, vv, q);
                    }
                    assert(s == old(self)@);
                    assert(kv == key@);
                }
                return;
            }
        }
        proof {
            lemma_lookup_none(s, key@);
        }
        let ghost kv = key@;
        let ghost vv = value@;
        self.entries.push((key, value));
        proof {
            assert(self@ =~= s.push((kv, vv)));
            assert forall|q: Seq<char>| #[trigger] lookup(self@, q) == if q == kv {
                Some(vv)
            } else {
                lookup(s, q)
            } by {
                lemma_lookup_push(s, kv, vv, q);
            }
        }
    }
}

impl StrMap<String> {
    /// A copy of the map.
    pub fn duplicate(&self) -> (r: Self)
        ensures
            r@ == self@,
    {
        let mut entries: Vec<(String, String)> = Vec::new();
        for i in 0..self.entries.len()
            invariant
                entries@ == self.entries@.take(i as int),
        {
            let (k, v) = &self.entries[i];
            entries.push((k.clone(), v.clone()));
            assert(entries@ =~= self.entries@.take(i + 1));
        }
        assert(self.entries@.take(self.entries@.len() as int) =~= self.entries@);
        StrMap { entries }
    }
}

} // verus!
