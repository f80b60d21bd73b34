//! An ordered map from strings to strings: the entries are kept sorted by key
//! with no key twice, which is the iteration order and uniqueness that a
//! `BTreeMap<String, String>` gives. vstd specifies `BTreeMap` and `HashMap`
//! only for keys whose ordering or hashing it knows to be lawful (integers,
//! tuples and boxes of them), not for `String`, so the map is a vector kept
//! sorted by key and proved to stay so.

use vstd::prelude::*;
use crate::text::{chars_of, chars_eq};

verus! {

/// Lexicographic order on character sequences (by code point), the order of
/// `String`'s `Ord`.
pub open spec fn seq_lt(a: Seq<char>, b: Seq<char>) -> bool
    decreases a.len(),
{
    if a.len() == 0 {
        b.len() > 0
    } else if b.len() == 0 {
        false
    } else if a[0] != b[0] {
        a[0] < b[0]
    } else {
        seq_lt(a.drop_first(), b.drop_first())
    }
}

/// No text orders before itself.
pub proof fn lemma_seq_lt_irreflexive(a: Seq<char>)
    ensures
        !seq_lt(a, a),
    decreases a.len(),
{
    if a.len() > 0 {
        lemma_seq_lt_irreflexive(a.drop_first());
    }
}

/// The order of texts is transitive.
pub proof fn lemma_seq_lt_transitive(a: Seq<char>, b: Seq<char>, c: Seq<char>)
    requires
        seq_lt(a, b),
        seq_lt(b, c),
    ensures
        seq_lt(a, c),
    decreases a.len(),
{
    if a.len() > 0 && b.len() > 0 && c.len() > 0 && a[0] == b[0] && b[0] == c[0] {
        lemma_seq_lt_transitive(a.drop_first(), b.drop_first(), c.drop_first());
    }
}

/// Of two different texts, one orders before the other.
pub proof fn lemma_seq_lt_total(a: Seq<char>, b: Seq<char>)
    ensures
        seq_lt(a, b) || seq_lt(b, a) || a == b,
    decreases a.len(),
{
    if a.len() > 0 && b.len() > 0 && a[0] == b[0] {
        lemma_seq_lt_total(a.drop_first(), b.drop_first());
        if a.drop_first() == b.drop_first() {
            assert(a =~= seq![a[0]] + a.drop_first());
            assert(b =~= seq![b[0]] + b.drop_first());
        }
    } else if a.len() == 0 && b.len() == 0 {
        assert(a =~= b);
    }
}

/// Compares two character sequences in lexicographic order.
pub fn chars_lt(a: &[char], b: &[char]) -> (r: bool)
    ensures
        r == seq_lt(a@, b@),
{
    let mut i: usize = 0;
    assert(a@.skip(0) =~= a@);
    assert(b@.skip(0) =~= b@);
    while i < a.len() && i < b.len()
        invariant
            i <= a@.len(),
            i <= b@.len(),
            seq_lt(a@, b@) == seq_lt(a@.skip(i as int), b@.skip(i as int)),
        decreases a.len() - i,
    {
        if a[i] != b[i] {
            return a[i] < b[i];
        }
        assert(a@.skip(i as int).drop_first() =~= a@.skip(i + 1));
        assert(b@.skip(i as int).drop_first() =~= b@.skip(i + 1));
        i = i + 1;
    }
    i == a.len() && i < b.len()
}

/// The keys of the entries, in order.
pub open spec fn entry_keys(e: Seq<(String, String)>) -> Seq<Seq<char>> {
    e.map_values(|p: (String, String)| p.0@)
}

/// Keys strictly ascending.
pub open spec fn sorted_keys(k: Seq<Seq<char>>) -> bool {
    forall|i: int, j: int| 0 <= i < j < k.len() ==> seq_lt(#[trigger] k[i], #[trigger] k[j])
}

/// The entry list holds `key`.
pub open spec fn has_key(e: Seq<(String, String)>, key: Seq<char>) -> bool {
    exists|i: int| 0 <= i < e.len() && (#[trigger] e[i]).0@ == key
}

/// The value stored for `key`.
pub open spec fn value_of(e: Seq<(String, String)>, key: Seq<char>) -> Seq<char> {
    e[key_index(e, key)].1@
}

/// An index at which `key` is stored.
pub open spec fn key_index(e: Seq<(String, String)>, key: Seq<char>) -> int {
    choose|i: int| 0 <= i < e.len() && (#[trigger] e[i]).0@ == key
}

/// The map an entry list stands for.
pub open spec fn entries_map(e: Seq<(String, String)>) -> Map<Seq<char>, Seq<char>> {
    Map::new(|k: Seq<char>| has_key(e, k), |k: Seq<char>| value_of(e, k))
}

/// A map from strings to strings with its entries sorted by key.
#[derive(Debug, Clone)]
pub struct StringMap {
    entries: Vec<(String, String)>,
}

impl View for StringMap {
    type V = Map<Seq<char>, Seq<char>>;

    closed spec fn view(&self) -> Map<Seq<char>, Seq<char>> {
        entries_map(self.entries@)
    }
}

proof fn lemma_unique_value(e: Seq<(String, String)>, i: int)
    requires
        sorted_keys(entry_keys(e)),
        0 <= i < e.len(),
    ensures
        value_of(e, e[i].0@) == e[i].1@,
        has_key(e, e[i].0@),
{
    let key = e[i].0@;
    assert(entry_keys(e)[i] == key);
    assert(has_key(e, key));
    let j = key_index(e, key);
    assert(entry_keys(e)[j] == key);
    if j < i {
        assert(seq_lt(entry_keys(e)[j], entry_keys(e)[i]));
        lemma_seq_lt_irreflexive(key);
    } else if i < j {
        assert(seq_lt(entry_keys(e)[i], entry_keys(e)[j]));
        lemma_seq_lt_irreflexive(key);
    }
    assert(value_of(e, key) == e[j].1@);
}

impl StringMap {
    /// Keys strictly ascending.
    pub closed spec fn wf(&self) -> bool {
        sorted_keys(entry_keys(self.entries@))
    }

    /// The entries in key order.
    pub closed spec fn entries_view(&self) -> Seq<(Seq<char>, Seq<char>)> {
        self.entries@.map_values(|p: (String, String)| (p.0@, p.1@))
    }

    /// A well-formed map lists its entries with keys strictly ascending, and
    /// its view maps each listed key to the value listed beside it.
    pub proof fn lemma_entries(&self)
        requires
            self.wf(),
        ensures
            forall|i: int, j: int| 0 <= i < j < self.entries_view().len() ==>
                seq_lt(#[trigger] self.entries_view()[i].0, #[trigger] self.entries_view()[j].0),
            forall|i: int| 0 <= i < self.entries_view().len() ==>
                self@.contains_key(#[trigger] self.entries_view()[i].0)
                && self@[self.entries_view()[i].0] == self.entries_view()[i].1,
            forall|k: Seq<char>| #[trigger] self@.contains_key(k) ==>
                exists|i: int| 0 <= i < self.entries_view().len() && self.entries_view()[i].0 == k,
    {
        let e = self.entries@;
        assert forall|i: int, j: int| 0 <= i < j < self.entries_view().len() implies
            seq_lt(#[trigger] self.entries_view()[i].0, #[trigger] self.entries_view()[j].0) by {
            assert(entry_keys(e)[i] == self.entries_view()[i].0);
            assert(entry_keys(e)[j] == self.entries_view()[j].0);
        }
        assert forall|i: int| 0 <= i < self.entries_view().len() implies
            self@.contains_key(#[trigger] self.entries_view()[i].0)
            && self@[self.entries_view()[i].0] == self.entries_view()[i].1 by {
            lemma_unique_value(e, i);
        }
        assert forall|k: Seq<char>| #[trigger] self@.contains_key(k) implies
            exists|i: int| 0 <= i < self.entries_view().len() && self.entries_view()[i].0 == k by {
            let j = choose|j: int| 0 <= j < e.len() && (#[trigger] e[j]).0@ == k;
            assert(self.entries_view()[j].0 == k);
        }
    }

    pub fn new() -> (r: StringMap)
        ensures
            r.wf(),
            r@ == Map::<Seq<char>, Seq<char>>::empty(),
            r.entries_view().len() == 0,
    {
        let r = StringMap { entries: Vec::new() };
        assert(r@ =~= Map::<Seq<char>, Seq<char>>::empty());
        r
    }

    /// The same keys, in the same order, with `values[i]` beside the i-th key.
    pub fn with_values(&self, values: Vec<String>) -> (r: StringMap)
        requires
            self.wf(),
            values@.len() == self.entries_view().len(),
        ensures
            r.wf(),
            r.entries_view().len() == self.entries_view().len(),
            forall|i: int| 0 <= i < r.entries_view().len() ==>
                (#[trigger] r.entries_view()[i]).0 == self.entries_view()[i].0
                && r.entries_view()[i].1 == values@[i]@,
    {
        let mut entries: Vec<(String, String)> = Vec::new();
        let mut i: usize = 0;
        while i < self.entries.len()
            invariant
                i <= self.entries@.len(),
                values@.len() == self.entries@.len(),
                entries@.len() == i,
                forall|j: int| 0 <= j < i ==> (#[trigger] entries@[j]).0 == self.entries@[j].0
                    && entries@[j].1 == values@[j],
            decreases self.entries.len() - i,
        {
            entries.push((self.entries[i].0.clone(), values[i].clone()));
            i = i + 1;
        }
        let r = StringMap { entries };
        assert(entry_keys(r.entries@) =~= entry_keys(self.entries@));
        r
    }

    pub fn len(&self) -> (r: usize)
        ensures
            r == self.entries_view().len(),
    {
        self.entries.len()
    }

    /// The entries in key order.
    pub fn entries(&self) -> (r: &Vec<(String, String)>)
        ensures
            r@.map_values(|p: (String, String)| (p.0@, p.1@)) == self.entries_view(),
    {
        &self.entries
    }

    /// Position of `key` among the entries, if present.
    fn position(&self, key: &[char]) -> (r: Option<usize>)
        requires
            self.wf(),
        ensures
            r matches Some(i) ==> i < self.entries@.len() && self.entries@[i as int].0@ == key@,
            r is None ==> !has_key(self.entries@, key@),
    {
        let mut i: usize = 0;
        while i < self.entries.len()
            invariant
                i <= self.entries@.len(),
                forall|j: int| 0 <= j < i ==> (#[trigger] self.entries@[j]).0@ != key@,
            decreases self.entries.len() - i,
        {
            let k = chars_of(self.entries[i].0.as_str());
            if chars_eq(k.as_slice(), key) {
                return Some(i);
            }
            i = i + 1;
        }
        None
    }

    pub fn get(&self, key: &str) -> (r: Option<String>)
        requires
            self.wf(),
        ensures
            r matches Some(v) ==> self@.contains_key(key@) && self@[key@] == v@,
            r is None ==> !self@.contains_key(key@),
    {
        let k = chars_of(key);
        match self.position(k.as_slice()) {
            Some(i) => {
                proof {
                    lemma_unique_value(self.entries@, i as int);
                }
                Some(self.entries[i].1.clone())
            },
            None => None,
        }
    }

    pub fn contains_key(&self, key: &str) -> (r: bool)
        requires
            self.wf(),
        ensures
            r == self@.contains_key(key@),
    {
        let k = chars_of(key);
        match self.position(k.as_slice()) {
            Some(i) => {
                proof {
                    lemma_unique_value(self.entries@, i as int);
                }
                true
            },
            None => false,
        }
    }

    /// Sets `key` to `value`, keeping the keys sorted.
    pub fn insert(&mut self, key: String, value: String)
        requires
            old(self).wf(),
        ensures
            final(self).wf(),
            final(self)@ == old(self)@.insert(key@, value@),
    {
        let k = chars_of(key.as_str());
        let ghost old_e = self.entries@;
        let mut i: usize = 0;
        while i < self.entries.len()
            invariant
                i <= self.entries@.len(),
                self.entries@ == old_e,
                sorted_keys(entry_keys(old_e)),
                k@ == key@,
                forall|j: int| 0 <= j < i ==> seq_lt(#[trigger] entry_keys(old_e)[j], key@),
            ensures
                i <= self.entries@.len(),
                self.entries@ == old_e,
                forall|j: int| 0 <= j < i ==> seq_lt(#[trigger] entry_keys(old_e)[j], key@),
                i < self.entries@.len() ==> !seq_lt(entry_keys(old_e)[i as int], key@),
            decreases self.entries.len() - i,
        {
            let ek = chars_of(self.entries[i].0.as_str());
            assert(entry_keys(old_e)[i as int] == self.entries@[i as int].0@);
            if !chars_lt(ek.as_slice(), k.as_slice()) {
                break;
            }
            i = i + 1;
        }
        let n = self.entries.len();
        if i < n {
            let ek = chars_of(self.entries[i].0.as_str());
            if chars_eq(ek.as_slice(), k.as_slice()) {
                self.entries.set(i, (key, value));
                proof {
                    let e = self.entries@;
                    assert(entry_keys(e) =~= entry_keys(old_e));
                    assert forall|kk: Seq<char>| #![auto] has_key(e, kk) == has_key(old_e, kk)
                        || kk == key@ by {
                        if has_key(old_e, kk) {
                            let j = choose|j: int| 0 <= j < old_e.len() && (#[trigger] old_e[j]).0@ == kk;
                            assert(e[j].0@ == entry_keys(e)[j]);
                        }
                        if has_key(e, kk) {
                            let j = choose|j: int| 0 <= j < e.len() && (#[trigger] e[j]).0@ == kk;
                            assert(old_e[j].0@ == entry_keys(old_e)[j]);
                        }
                    }
                    assert forall|kk: Seq<char>| has_key(e, kk) && kk != key@ implies
                        #[trigger] value_of(e, kk) == value_of(old_e, kk) by {
                        let j = choose|j: int| 0 <= j < e.len() && (#[trigger] e[j]).0@ == kk;
                        assert(old_e[j].0@ == entry_keys(old_e)[j]);
                        lemma_unique_value(e, j);
                        lemma_unique_value(old_e, j);
                    }
                    lemma_unique_value(e, i as int);
                    assert(self@ =~= old(self)@.insert(key@, value@));
                }
                return;
            }
        }
        proof {
            if i < n {
                lemma_seq_lt_total(entry_keys(old_e)[i as int], key@);
                assert(entry_keys(old_e)[i as int] == old_e[i as int].0@);
                assert(seq_lt(key@, entry_keys(old_e)[i as int]));
            }
        }
        self.entries.insert(i, (key, value));
        proof {
            let e = self.entries@;
            assert(e =~= old_e.subrange(0, i as int).push((key, value)) + old_e.subrange(i as int, n as int));
            assert forall|a: int, b: int| 0 <= a < b < e.len() implies
                seq_lt(#[trigger] entry_keys(e)[a], #[trigger] entry_keys(e)[b]) by {
                if b < i {
                    assert(entry_keys(e)[a] == entry_keys(old_e)[a]);
                    assert(entry_keys(e)[b] == entry_keys(old_e)[b]);
                } else if b == i {
                    assert(entry_keys(e)[a] == entry_keys(old_e)[a]);
                } else if a < i {
                    assert(entry_keys(e)[a] == entry_keys(old_e)[a]);
                    assert(entry_keys(e)[b] == entry_keys(old_e)[b - 1]);
                    assert(seq_lt(key@, entry_keys(old_e)[i as int]));
                    if b - 1 > i {
                        lemma_seq_lt_transitive(key@, entry_keys(old_e)[i as int], entry_keys(old_e)[b - 1]);
                    }
                    lemma_seq_lt_transitive(entry_keys(old_e)[a], key@, entry_keys(old_e)[b - 1]);
                } else if a == i {
                    assert(entry_keys(e)[b] == entry_keys(old_e)[b - 1]);
                    assert(seq_lt(key@, entry_keys(old_e)[i as int]));
                    if b - 1 > i {
                        lemma_seq_lt_transitive(key@, entry_keys(old_e)[i as int], entry_keys(old_e)[b - 1]);
                    }
                } else {
                    assert(entry_keys(e)[a] == entry_keys(old_e)[a - 1]);
                    assert(entry_keys(e)[b] == entry_keys(old_e)[b - 1]);
                }
            }
            assert(!has_key(old_e, key@)) by {
                if has_key(old_e, key@) {
                    let j = choose|j: int| 0 <= j < old_e.len() && (#[trigger] old_e[j]).0@ == key@;
                    assert(entry_keys(old_e)[j] == key@);
                    if j < i {
                        lemma_seq_lt_irreflexive(key@);
                    } else {
                        assert(seq_lt(key@, entry_keys(old_e)[i as int]));
                        if j > i {
                            lemma_seq_lt_transitive(key@, entry_keys(old_e)[i as int], key@);
                        }
                        lemma_seq_lt_irreflexive(key@);
                    }
                }
            }
            assert forall|kk: Seq<char>| #![auto] has_key(e, kk) == (has_key(old_e, kk) || kk == key@) by {
                if has_key(old_e, kk) {
                    let j = choose|j: int| 0 <= j < old_e.len() && (#[trigger] old_e[j]).0@ == kk;
                    if j < i {
                        assert(e[j] == old_e[j]);
                    } else {
                        assert(e[j + 1] == old_e[j]);
                    }
                }
                if kk == key@ {
                    assert(e[i as int].0@ == key@);
                }
                if has_key(e, kk) && kk != key@ {
                    let j = choose|j: int| 0 <= j < e.len() && (#[trigger] e[j]).0@ == kk;
                    if j < i {
                        assert(old_e[j] == e[j]);
                    } else if j > i {
                        assert(old_e[j - 1] == e[j]);
                    }
                }
            }
            assert forall|kk: Seq<char>| has_key(e, kk) && kk != key@ implies
                #[trigger] value_of(e, kk) == value_of(old_e, kk) by {
                let j = choose|j: int| 0 <= j < e.len() && (#[trigger] e[j]).0@ == kk;
                lemma_unique_value(e, j);
                if j < i {
                    assert(old_e[j] == e[j]);
                    lemma_unique_value(old_e, j);
                } else if j > i {
                    assert(old_e[j - 1] == e[j]);
                    lemma_unique_value(old_e, j - 1);
                }
            }
            lemma_unique_value(e, i as int);
            assert(self@ =~= old(self)@.insert(key@, value@));
        }
    }
}

} // verus!
