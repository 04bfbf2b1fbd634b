use vstd::prelude::*;
use vstd::string::*;

verus! {

/// Index of the last entry whose key is `k`, or -1 when there is none.
pub open spec fn key_index(s: Seq<(Seq<char>, Seq<char>)>, k: Seq<char>) -> int
    decreases s.len(),
{
    if s.len() == 0 {
        -1
    } else if s.last().0 == k {
        s.len() - 1
    } else {
        key_index(s.drop_last(), k)
    }
}

/// The value stored under `k`.
pub open spec fn lookup(s: Seq<(Seq<char>, Seq<char>)>, k: Seq<char>) -> Option<Seq<char>> {
    if key_index(s, k) >= 0 {
        Some(s[key_index(s, k)].1)
    } else {
        None
    }
}

/// The entries after storing `v` under `k`: an entry with that key takes the
/// new value in place, otherwise the pair is appended.
pub open spec fn with_entry(s: Seq<(Seq<char>, Seq<char>)>, k: Seq<char>, v: Seq<char>) -> Seq<
    (Seq<char>, Seq<char>),
> {
    if key_index(s, k) >= 0 {
        s.update(key_index(s, k), (k, v))
    } else {
        s.push((k, v))
    }
}

pub open spec fn keys_unique(s: Seq<(Seq<char>, Seq<char>)>) -> bool {
    forall|i: int, j: int| 0 <= i < j < s.len() ==> #[trigger] s[i].0 != #[trigger] s[j].0
}

pub proof fn lemma_key_index(s: Seq<(Seq<char>, Seq<char>)>, k: Seq<char>)
    ensures
        -1 <= key_index(s, k) < s.len(),
        key_index(s, k) >= 0 ==> s[key_index(s, k)].0 == k,
        forall|j: int| key_index(s, k) < j < s.len() ==> #[trigger] s[j].0 != k,
    decreases s.len(),
{
    if s.len() > 0 && s.last().0 != k {
        lemma_key_index(s.drop_last(), k);
        assert forall|j: int| key_index(s, k) < j < s.len() implies #[trigger] s[j].0 != k by {
            if j < s.len() - 1 {
                assert(s[j] == s.drop_last()[j]);
            }
        }
    }
}

/// A map from string keys to string values, each key held once, in the
/// order in which keys were first stored.
pub struct StrMap {
    entries: Vec<(String, String)>,
}

impl View for StrMap {
    type V = Seq<(Seq<char>, Seq<char>)>;

    closed spec fn view(&self) -> Seq<(Seq<char>, Seq<char>)> {
        self.entries@.map_values(|p: (String, String)| (p.0@, p.1@))
    }
}

impl StrMap {
    pub open spec fn wf(&self) -> bool {
        keys_unique(self@)
    }

    pub fn new() -> (r: StrMap)
        ensures
            r@ == Seq::<(Seq<char>, Seq<char>)>::empty(),
            r.wf(),
    {
        let r = StrMap { entries: Vec::new() };
        assert(r@ =~= Seq::<(Seq<char>, Seq<char>)>::empty());
        r
    }

    pub fn len(&self) -> (r: usize)
        ensures
            r == self@.len(),
    {
        self.entries.len()
    }

    /// The key and value of the `i`-th entry.
    pub fn entry(&self, i: usize) -> (r: (&String, &String))
        requires
            i < self@.len(),
        ensures
            r.0@ == self@[i as int].0,
            r.1@ == self@[i as int].1,
    {
        let e = &self.entries[i];
        (&e.0, &e.1)
    }

    proof fn lemma_view_index(&self, i: int)
        requires
            0 <= i < self.entries@.len(),
        ensures
            self@.len() == self.entries@.len(),
            self@[i] == (self.entries@[i].0@, self.entries@[i].1@),
    {
    }

    fn find(&self, k: &str) -> (r: Option<usize>)
        ensures
            match r {
                Some(i) => key_index(self@, k@) == i && i < self@.len(),
                None => key_index(self@, k@) == -1,
            },
    {
        let ghost s = self@;
        let key = String::from_str(k);
        let mut i: usize = self.entries.len();
        assert(s.subrange(0, s.len() as int) =~= s);
        while i > 0
            invariant
                i <= s.len(),
                s.len() == self.entries@.len(),
                s == self@,
                key@ == k@,
                key_index(s, k@) == key_index(s.subrange(0, i as int), k@),
            decreases i,
        {
            let e = &self.entries[i - 1];
            let ghost t = s.subrange(0, i as int);
            proof {
                self.lemma_view_index(i - 1);
            }
            assert(t.last() == s[i - 1]);
            if e.0 == key {
                return Some(i - 1);
            }
            assert(t.drop_last() =~= s.subrange(0, i - 1));
            i = i - 1;
        }
        assert(s.subrange(0, 0) =~= Seq::<(Seq<char>, Seq<char>)>::empty());
        None
    }

    /// The value stored under `k`, if any.
    pub fn get(&self, k: &str) -> (r: Option<String>)
        ensures
            match r {
                Some(v) => lookup(self@, k@) == Some(v@),
                None => lookup(self@, k@) is None,
            },
    {
        proof {
            lemma_key_index(self@, k@);
        }
        match self.find(k) {
            Some(i) => {
                proof {
                    self.lemma_view_index(i as int);
                }
                Some(self.entries[i].1.clone())
            },
            None => None,
        }
    }

    /// Stores `v` under `k`; a value already stored under `k` is replaced.
    pub fn insert(&mut self, k: &str, v: &str)
        requires
            old(self).wf(),
        ensures
            final(self).wf(),
            final(self)@ == with_entry(old(self)@, k@, v@),
            lookup(final(self)@, k@) == Some(v@),
            forall|k2: Seq<char>| k2 != k@ ==> lookup(final(self)@, k2) == lookup(old(self)@, k2),
    {
        let ghost s = self@;
        proof {
            lemma_key_index(s, k@);
        }
        let pair = (k.to_string(), v.to_string());
        match self.find(k) {
            Some(i) => {
                self.entries.set(i, pair);
            },
            None => {
                self.entries.push(pair);
            },
        }
        let ghost t = self@;
        assert(t =~= with_entry(s, k@, v@));
        proof {
            lemma_key_index(t, k@);
            if key_index(s, k@) >= 0 {
                let i = key_index(s, k@);
                assert(t[i].0 == k@);
                if key_index(t, k@) > i {
                    assert(t[key_index(t, k@)] == s[key_index(t, k@)]);
                }
            }
            assert forall|k2: Seq<char>| k2 != k@ implies lookup(t, k2) == lookup(s, k2) by {
                lemma_key_index(s, k2);
                lemma_key_index(t, k2);
                if key_index(s, k2) >= 0 {
                    assert(t[key_index(s, k2)] == s[key_index(s, k2)]);
                }
                if key_index(t, k2) >= 0 {
                    assert(t[key_index(t, k2)] == s[key_index(t, k2)]);
                }
            }
        }
    }
}

} // verus!
