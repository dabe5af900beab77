use vstd::prelude::*;

verus! {

/// A list of key/value pairs, as the mathematical model of a record's storage.
pub type Pairs = Seq<(Seq<char>, Seq<char>)>;

/// The mapping that a list of pairs stands for: a later pair overrides an
/// earlier one with the same key.
pub open spec fn pairs_to_map(s: Pairs) -> Map<Seq<char>, Seq<char>>
    decreases s.len(),
{
    if s.len() == 0 {
        Map::empty()
    } else {
        pairs_to_map(s.drop_last()).insert(s.last().0, s.last().1)
    }
}

/// No key occurs twice in the list.
pub open spec fn distinct_keys(s: Pairs) -> bool {
    forall|i: int, j: int| 0 <= i < j < s.len() ==> s[i].0 != s[j].0
}

/// Some pair of the list has the key `k`.
pub open spec fn has_key(s: Pairs, k: Seq<char>) -> bool {
    exists|i: int| 0 <= i < s.len() && #[trigger] s[i].0 == k
}

/// The mapping has a key exactly if some pair of the list has it.
pub proof fn lemma_map_dom(s: Pairs, k: Seq<char>)
    ensures
        pairs_to_map(s).contains_key(k) <==> has_key(s, k),
    decreases s.len(),
{
    if s.len() > 0 {
        let t = s.drop_last();
        lemma_map_dom(t, k);
        if has_key(s, k) {
            let i = choose|i: int| 0 <= i < s.len() && #[trigger] s[i].0 == k;
            if i < s.len() - 1 {
                assert(t[i].0 == k);
            }
        }
        if has_key(t, k) {
            let i = choose|i: int| 0 <= i < t.len() && #[trigger] t[i].0 == k;
            assert(s[i].0 == k);
        }
        if s.last().0 == k {
            assert(s[s.len() - 1].0 == k);
        }
    }
}

/// In a list without repeated keys, the mapping gives each pair's key the
/// value of that pair.
pub proof fn lemma_map_value(s: Pairs, i: int)
    requires
        distinct_keys(s),
        0 <= i < s.len(),
    ensures
        pairs_to_map(s).contains_key(s[i].0),
        pairs_to_map(s)[s[i].0] == s[i].1,
    decreases s.len(),
{
    let t = s.drop_last();
    if i < s.len() - 1 {
        assert(distinct_keys(t)) by {
            assert forall|a: int, b: int| 0 <= a < b < t.len() implies t[a].0 != t[b].0 by {
                assert(s[a].0 != s[b].0);
            }
        }
        lemma_map_value(t, i);
        assert(t[i] == s[i]);
        assert(s[i].0 != s[s.len() - 1].0);
    }
}

/// Replacing the value of one pair in a list without repeated keys is an
/// insertion into the mapping.
pub proof fn lemma_overwrite(s: Pairs, t: Pairs, i: int)
    requires
        distinct_keys(s),
        0 <= i < s.len(),
        t.len() == s.len(),
        t[i].0 == s[i].0,
        forall|j: int| 0 <= j < s.len() && j != i ==> t[j] == s[j],
    ensures
        distinct_keys(t),
        pairs_to_map(t) =~= pairs_to_map(s).insert(t[i].0, t[i].1),
{
    assert forall|j: int| 0 <= j < s.len() implies #[trigger] t[j].0 == s[j].0 by {}
    assert(distinct_keys(t)) by {
        assert forall|a: int, b: int| 0 <= a < b < t.len() implies t[a].0 != t[b].0 by {
            assert(s[a].0 != s[b].0);
        }
    }
    let m = pairs_to_map(s).insert(t[i].0, t[i].1);
    assert forall|k: Seq<char>| pairs_to_map(t).contains_key(k) <==> m.contains_key(k) by {
        lemma_map_dom(s, k);
        lemma_map_dom(t, k);
        lemma_map_value(s, i);
        if has_key(s, k) {
            let j = choose|j: int| 0 <= j < s.len() && #[trigger] s[j].0 == k;
            assert(t[j].0 == k);
        }
        if has_key(t, k) {
            let j = choose|j: int| 0 <= j < t.len() && #[trigger] t[j].0 == k;
            assert(s[j].0 == k);
        }
    }
    assert forall|k: Seq<char>| pairs_to_map(t).contains_key(k) implies pairs_to_map(t)[k]
        == m[k] by {
        lemma_map_dom(t, k);
        let j = choose|j: int| 0 <= j < t.len() && #[trigger] t[j].0 == k;
        lemma_map_value(t, j);
        if j != i {
            lemma_map_value(s, j);
            assert(s[j].0 != s[i].0) by {
                if j < i {
                    assert(s[j].0 != s[i].0);
                } else {
                    assert(s[i].0 != s[j].0);
                }
            }
        }
    }
}

/// A list without repeated keys stands for a mapping with as many keys as
/// the list has pairs.
pub proof fn lemma_map_len(s: Pairs)
    requires
        distinct_keys(s),
    ensures
        pairs_to_map(s).dom().finite(),
        pairs_to_map(s).len() == s.len(),
    decreases s.len(),
{
    if s.len() > 0 {
        let t = s.drop_last();
        assert(distinct_keys(t)) by {
            assert forall|a: int, b: int| 0 <= a < b < t.len() implies t[a].0 != t[b].0 by {
                assert(s[a].0 != s[b].0);
            }
        }
        lemma_map_len(t);
        lemma_map_dom(t, s.last().0);
        if has_key(t, s.last().0) {
            let i = choose|i: int| 0 <= i < t.len() && #[trigger] t[i].0 == s.last().0;
            assert(s[i].0 != s[s.len() - 1].0);
        }
        assert(pairs_to_map(s).dom() =~= pairs_to_map(t).dom().insert(s.last().0));
    } else {
        assert(pairs_to_map(s).dom() =~= Set::empty());
    }
}

/// A flat record: field name to field value, each key held once.
pub struct NormalizedRecord {
    pairs: Vec<(String, String)>,
}

impl View for NormalizedRecord {
    type V = Map<Seq<char>, Seq<char>>;

    closed spec fn view(&self) -> Map<Seq<char>, Seq<char>> {
        pairs_to_map(self.model())
    }
}

impl NormalizedRecord {
    /// The stored pairs, each string taken by its characters.
    closed spec fn model(&self) -> Pairs {
        self.pairs.deep_view()
    }

    #[verifier::type_invariant]
    spec fn unique(&self) -> bool {
        distinct_keys(self.pairs.deep_view())
    }

    /// A record without fields.
    pub fn new() -> (r: NormalizedRecord)
        ensures
            r@ == Map::<Seq<char>, Seq<char>>::empty(),
    {
        let r = NormalizedRecord { pairs: Vec::new() };
        assert(r.pairs.deep_view() =~= Seq::empty());
        r
    }

    /// Sets `key` to `value`; a value that the key had before is overwritten.
    pub fn set(&mut self, key: String, value: String)
        ensures
            final(self)@ == old(self)@.insert(key@, value@),
    {
        proof {
            use_type_invariant(&*self);
        }
        let ghost before = self.model();
        let found = self.position(&key);
        let mut pairs: Vec<(String, String)> = Vec::new();
        assert(pairs.deep_view() =~= Seq::empty());
        std::mem::swap(&mut self.pairs, &mut pairs);
        match found {
            Some(i) => {
                pairs.set(i, (key, value));
                proof {
                    lemma_overwrite(before, pairs.deep_view(), i as int);
                }
            },
            None => {
                pairs.push((key, value));
                proof {
                    let after = pairs.deep_view();
                    assert(after.drop_last() =~= before);
                    assert forall|a: int, b: int| 0 <= a < b < after.len() implies after[a].0
                        != after[b].0 by {
                        assert(after[a] == before[a]);
                        if b < before.len() {
                            assert(after[b] == before[b]);
                        }
                    }
                }
            },
        }
        std::mem::swap(&mut self.pairs, &mut pairs);
    }

    /// The value of `key`, if the record has that key.
    pub fn get(&self, key: &str) -> (r: Option<String>)
        ensures
            match r {
                Some(v) => self@.contains_key(key@) && v@ == self@[key@],
                None => !self@.contains_key(key@),
            },
    {
        proof {
            use_type_invariant(self);
            lemma_map_dom(self.model(), key@);
        }
        let wanted = key.to_owned();
        match self.position(&wanted) {
            Some(i) => {
                proof {
                    lemma_map_value(self.model(), i as int);
                }
                Some(self.pairs[i].1.clone())
            },
            None => None,
        }
    }

    /// Whether the record has `key`.
    pub fn contains_key(&self, key: &str) -> (r: bool)
        ensures
            r == self@.contains_key(key@),
    {
        proof {
            lemma_map_dom(self.model(), key@);
        }
        let wanted = key.to_owned();
        self.position(&wanted).is_some()
    }

    /// The number of fields.
    pub fn len(&self) -> (r: usize)
        ensures
            self@.dom().finite(),
            r == self@.len(),
    {
        proof {
            use_type_invariant(self);
            lemma_map_len(self.model());
        }
        self.pairs.len()
    }

    /// The fields as a list of pairs, each key once.
    pub fn entries(&self) -> (r: Vec<(String, String)>)
        ensures
            distinct_keys(r.deep_view()),
            pairs_to_map(r.deep_view()) == self@,
    {
        proof {
            use_type_invariant(self);
        }
        let mut out: Vec<(String, String)> = Vec::new();
        let mut i: usize = 0;
        while i < self.pairs.len()
            invariant
                i <= self.pairs.len(),
                out.len() == i,
                forall|j: int|
                    0 <= j < i ==> #[trigger] out.deep_view()[j] == self.pairs.deep_view()[j],
            decreases self.pairs.len() - i,
        {
            let k = self.pairs[i].0.clone();
            let v = self.pairs[i].1.clone();
            let ghost before = out;
            out.push((k, v));
            proof {
                assert forall|j: int| 0 <= j <= i implies #[trigger] out.deep_view()[j]
                    == self.pairs.deep_view()[j] by {
                    if j < i {
                        assert(out@[j] == before@[j]);
                        assert(before.deep_view()[j] == self.pairs.deep_view()[j]);
                    } else {
                        assert(out@[j] == (k, v));
                        assert(self.pairs.deep_view()[j] == (
                            self.pairs@[j].0@,
                            self.pairs@[j].1@,
                        ));
                    }
                }
            }
            i += 1;
        }
        assert(out.deep_view() =~= self.pairs.deep_view());
        out
    }

    /// Takes over every field of `other`; where both have a key, the value
    /// of `other` replaces the one held.
    pub fn merge(&mut self, other: &NormalizedRecord)
        ensures
            final(self)@ == old(self)@.union_prefer_right(other@),
    {
        let ghost start = self@;
        let ghost theirs = other.model();
        let mut i: usize = 0;
        assert(theirs.take(0) =~= Seq::empty());
        assert(start.union_prefer_right(Map::empty()) =~= start);
        while i < other.pairs.len()
            invariant
                i <= other.pairs.len(),
                theirs == other.pairs.deep_view(),
                self@ == start.union_prefer_right(pairs_to_map(theirs.take(i as int))),
            decreases other.pairs.len() - i,
        {
            let k = other.pairs[i].0.clone();
            let v = other.pairs[i].1.clone();
            proof {
                let next = theirs.take(i as int + 1);
                assert(next.drop_last() =~= theirs.take(i as int));
                assert(next.last() == theirs[i as int]);
                assert(start.union_prefer_right(pairs_to_map(theirs.take(i as int))).insert(
                    k@,
                    v@,
                ) =~= start.union_prefer_right(pairs_to_map(next)));
            }
            self.set(k, v);
            i += 1;
        }
        assert(theirs.take(i as int) =~= theirs);
    }

    /// Position of `key` among the stored pairs, if it is there.
    fn position(&self, key: &String) -> (r: Option<usize>)
        ensures
            match r {
                Some(i) => i < self.model().len() && self.model()[i as int].0 == key@,
                None => !has_key(self.model(), key@),
            },
    {
        let mut i: usize = 0;
        while i < self.pairs.len()
            invariant
                i <= self.pairs.len(),
                forall|j: int| 0 <= j < i ==> self.pairs.deep_view()[j].0 != key@,
            decreases self.pairs.len() - i,
        {
            if self.pairs[i].0 == *key {
                return Some(i);
            }
            i += 1;
        }
        None
    }
}

} // verus!
