//! A map from text to text whose keys are unique and whose entries keep the
//! order in which their keys first came.
use crate::text::same_text;
use vstd::prelude::*;

verus! {

/// A key with its value, as characters.
pub type Pair = (Seq<char>, Seq<char>);

/// The characters of a list of pairs of strings.
pub open spec fn pairs_of(entries: Seq<(String, String)>) -> Seq<Pair> {
    entries.map_values(|entry: (String, String)| (entry.0@, entry.1@))
}

/// No key stands twice in `pairs`.
pub open spec fn keys_unique(pairs: Seq<Pair>) -> bool {
    forall|i: int, j: int| 0 <= i < j < pairs.len() ==> (#[trigger] pairs[i]).0 != (
    #[trigger] pairs[j]).0
}

/// `base` after each of `pairs` was written into it in turn: a later pair
/// overwrites an earlier one of the same key.
pub open spec fn overlaid(base: Map<Seq<char>, Seq<char>>, pairs: Seq<Pair>) -> Map<
    Seq<char>,
    Seq<char>,
>
    decreases pairs.len(),
{
    if pairs.len() == 0 {
        base
    } else {
        overlaid(base, pairs.drop_last()).insert(pairs.last().0, pairs.last().1)
    }
}

/// The map that `pairs` spell out.
pub open spec fn map_of(pairs: Seq<Pair>) -> Map<Seq<char>, Seq<char>> {
    overlaid(Map::empty(), pairs)
}

/// Whether some pair of `pairs` has the key `key`.
pub open spec fn has_key(pairs: Seq<Pair>, key: Seq<char>) -> bool {
    exists|i: int| 0 <= i < pairs.len() && (#[trigger] pairs[i]).0 == key
}

/// `overlaid` has a key exactly where the base or one of the pairs has it.
pub proof fn lemma_overlaid_has(base: Map<Seq<char>, Seq<char>>, pairs: Seq<Pair>, key: Seq<char>)
    ensures
        overlaid(base, pairs).contains_key(key) == (base.contains_key(key) || has_key(pairs, key)),
    decreases pairs.len(),
{
    if pairs.len() > 0 {
        let front = pairs.drop_last();
        let last = pairs.last();
        lemma_overlaid_has(base, front, key);
        if has_key(front, key) {
            let i = choose|i: int| 0 <= i < front.len() && (#[trigger] front[i]).0 == key;
            assert(pairs[i].0 == key);
        }
        if key == last.0 {
            assert(pairs[pairs.len() - 1].0 == key);
        }
        if has_key(pairs, key) && key != last.0 {
            let i = choose|i: int| 0 <= i < pairs.len() && (#[trigger] pairs[i]).0 == key;
            assert(front[i].0 == key);
        }
    } else {
        assert(!has_key(pairs, key));
    }
}

/// The keys of `overlaid` are those of the base and those of the pairs.
pub proof fn lemma_overlaid_keys(base: Map<Seq<char>, Seq<char>>, pairs: Seq<Pair>)
    ensures
        forall|key: Seq<char>| #[trigger]
            overlaid(base, pairs).contains_key(key) <==> (base.contains_key(key) || has_key(
                pairs,
                key,
            )),
{
    assert forall|key: Seq<char>| #[trigger]
        overlaid(base, pairs).contains_key(key) <==> (base.contains_key(key) || has_key(
            pairs,
            key,
        )) by {
        lemma_overlaid_has(base, pairs, key);
    }
}

/// Under a key that no pair has, `overlaid` holds what the base holds.
pub proof fn lemma_overlaid_keeps(base: Map<Seq<char>, Seq<char>>, pairs: Seq<Pair>, key: Seq<char>)
    requires
        !has_key(pairs, key),
    ensures
        overlaid(base, pairs).contains_key(key) == base.contains_key(key),
        base.contains_key(key) ==> overlaid(base, pairs)[key] == base[key],
    decreases pairs.len(),
{
    if pairs.len() > 0 {
        let front = pairs.drop_last();
        assert(pairs[pairs.len() - 1].0 != key);
        if has_key(front, key) {
            let i = choose|i: int| 0 <= i < front.len() && (#[trigger] front[i]).0 == key;
            assert(pairs[i].0 == key);
        }
        lemma_overlaid_keeps(base, front, key);
    }
}

/// Under the key of the pair at `at`, `overlaid` holds the value of that pair
/// where no later pair has the same key.
pub proof fn lemma_overlaid_value(base: Map<Seq<char>, Seq<char>>, pairs: Seq<Pair>, at: int)
    requires
        0 <= at < pairs.len(),
        forall|j: int| at < j < pairs.len() ==> (#[trigger] pairs[j]).0 != pairs[at].0,
    ensures
        overlaid(base, pairs).contains_key(pairs[at].0),
        overlaid(base, pairs)[pairs[at].0] == pairs[at].1,
    decreases pairs.len(),
{
    let front = pairs.drop_last();
    if at < pairs.len() - 1 {
        assert(pairs[pairs.len() - 1].0 != pairs[at].0);
        assert(front[at] == pairs[at]);
        assert forall|j: int| at < j < front.len() implies (#[trigger] front[j]).0
            != front[at].0 by {
            assert(pairs[j].0 != pairs[at].0);
        }
        lemma_overlaid_value(base, front, at);
    }
}

/// With unique keys, the map holds under the key of each pair its value.
pub proof fn lemma_map_of_value(pairs: Seq<Pair>, at: int)
    requires
        keys_unique(pairs),
        0 <= at < pairs.len(),
    ensures
        map_of(pairs).contains_key(pairs[at].0),
        map_of(pairs)[pairs[at].0] == pairs[at].1,
{
    assert forall|j: int| at < j < pairs.len() implies (#[trigger] pairs[j]).0 != pairs[at].0 by {
        assert(pairs[at].0 != pairs[j].0);
    }
    lemma_overlaid_value(Map::empty(), pairs, at);
}

/// A map from text to text. A key is held once; writing under a key that is
/// there replaces its value.
#[derive(Debug)]
pub struct StringMap {
    entries: Vec<(String, String)>,
}

impl View for StringMap {
    type V = Map<Seq<char>, Seq<char>>;

    closed spec fn view(&self) -> Map<Seq<char>, Seq<char>> {
        map_of(pairs_of(self.entries@))
    }
}

impl StringMap {
    #[verifier::type_invariant]
    spec fn keys_differ(&self) -> bool {
        keys_unique(pairs_of(self.entries@))
    }

    /// The entries in the order in which their keys first came.
    pub closed spec fn listing(&self) -> Seq<Pair> {
        pairs_of(self.entries@)
    }

    /// The empty map.
    pub fn new() -> (r: StringMap)
        ensures
            r@ == Map::<Seq<char>, Seq<char>>::empty(),
            r.listing() == Seq::<Pair>::empty(),
    {
        let r = StringMap { entries: Vec::new() };
        assert(pairs_of(r.entries@) =~= Seq::<Pair>::empty());
        r
    }

    /// The number of entries.
    pub fn len(&self) -> (r: usize)
        ensures
            r == self@.len(),
            r == self.listing().len(),
            self@.dom().finite(),
    {
        proof {
            use_type_invariant(self);
            lemma_map_of_len(self.listing());
        }
        self.entries.len()
    }

    fn position(&self, key: &str) -> (r: Option<usize>)
        ensures
            match r {
                Some(i) => i < self.entries@.len() && self.entries@[i as int].0@ == key@,
                None => !has_key(pairs_of(self.entries@), key@),
            },
    {
        let mut i: usize = 0;
        while i < self.entries.len()
            invariant
                i <= self.entries@.len(),
                forall|j: int| 0 <= j < i ==> (#[trigger] pairs_of(self.entries@)[j]).0 != key@,
            decreases self.entries@.len() - i,
        {
            if same_text(self.entries[i].0.as_str(), key) {
                return Some(i);
            }
            i = i + 1;
        }
        None
    }

    /// Whether `key` has a value.
    pub fn contains_key(&self, key: &str) -> (r: bool)
        ensures
            r == self@.contains_key(key@),
    {
        proof {
            lemma_overlaid_keys(Map::empty(), pairs_of(self.entries@));
        }
        match self.position(key) {
            Some(i) => {
                assert(pairs_of(self.entries@)[i as int].0 == key@);
                true
            },
            None => false,
        }
    }

    /// The value under `key`, if it has one.
    pub fn get(&self, key: &str) -> (r: Option<&String>)
        ensures
            match r {
                Some(value) => self@.contains_key(key@) && self@[key@] == value@,
                None => !self@.contains_key(key@),
            },
    {
        proof {
            use_type_invariant(self);
            lemma_overlaid_keys(Map::empty(), pairs_of(self.entries@));
        }
        match self.position(key) {
            Some(i) => {
                proof {
                    assert(pairs_of(self.entries@)[i as int].0 == key@);
                    lemma_map_of_value(pairs_of(self.entries@), i as int);
                }
                Some(&self.entries[i].1)
            },
            None => None,
        }
    }

    /// Writes `value` under `key`. A key that is there keeps its place in the
    /// listing; a new one goes to its end.
    pub fn insert(&mut self, key: String, value: String)
        ensures
            final(self)@ == old(self)@.insert(key@, value@),
            old(self)@.contains_key(key@) ==> final(self).listing().len() == old(
                self,
            ).listing().len(),
            !old(self)@.contains_key(key@) ==> final(self).listing() == old(self).listing().push(
                (key@, value@),
            ),
    {
        proof {
            use_type_invariant(&*self);
            lemma_overlaid_keys(Map::empty(), pairs_of(self.entries@));
        }
        let ghost before = pairs_of(self.entries@);
        let found = self.position(key.as_str());
        let mut taken = StringMap { entries: Vec::new() };
        std::mem::swap(self, &mut taken);
        let mut entries = taken.entries;
        assert(pairs_of(entries@) == before);
        match found {
            Some(i) => {
                assert(before[i as int].0 == key@);
                let ghost after = before.update(i as int, (key@, value@));
                proof {
                    assert forall|a: int, b: int| 0 <= a < b < after.len() implies (
                    #[trigger] after[a]).0 != (#[trigger] after[b]).0 by {
                        assert(before[a].0 != before[b].0);
                    }
                    lemma_map_of_update(before, i as int, value@);
                }
                entries.set(i, (key, value));
                assert(pairs_of(entries@) =~= after);
                *self = StringMap { entries };
            },
            None => {
                let ghost after = before.push((key@, value@));
                proof {
                    assert forall|a: int, b: int| 0 <= a < b < after.len() implies (
                    #[trigger] after[a]).0 != (#[trigger] after[b]).0 by {
                        if b < before.len() {
                            assert(before[a].0 != before[b].0);
                        } else {
                            assert(before[a].0 != key@);
                        }
                    }
                    assert(after.drop_last() =~= before);
                }
                entries.push((key, value));
                assert(pairs_of(entries@) =~= after);
                *self = StringMap { entries };
            },
        }
    }

    /// Writes every entry of `other` into this map, in the order of its
    /// listing: where both hold a key, the value of `other` stays.
    pub fn extend(&mut self, other: &StringMap)
        ensures
            final(self)@ == old(self)@.union_prefer_right(other@),
    {
        let ghost start = self@;
        let ghost theirs = pairs_of(other.entries@);
        let mut i: usize = 0;
        proof {
            use_type_invariant(other);
            assert(theirs.subrange(0, 0) =~= Seq::<Pair>::empty());
        }
        while i < other.entries.len()
            invariant
                i <= other.entries@.len(),
                theirs == pairs_of(other.entries@),
                self@ == overlaid(start, theirs.subrange(0, i as int)),
            decreases other.entries@.len() - i,
        {
            let key = other.entries[i].0.clone();
            let value = other.entries[i].1.clone();
            proof {
                let next = theirs.subrange(0, i + 1);
                assert(next.drop_last() =~= theirs.subrange(0, i as int));
                assert(next.last() == theirs[i as int]);
            }
            self.insert(key, value);
            i = i + 1;
        }
        proof {
            assert(theirs.subrange(0, i as int) =~= theirs);
            lemma_overlaid_is_union(start, theirs);
        }
    }

    /// Writes each of `pairs` into this map in turn: of two pairs with one key
    /// the later one stays.
    pub fn extend_pairs(&mut self, pairs: &Vec<(String, String)>)
        ensures
            final(self)@ == overlaid(old(self)@, pairs_of(pairs@)),
    {
        let ghost start = self@;
        let ghost theirs = pairs_of(pairs@);
        let mut i: usize = 0;
        proof {
            assert(theirs.subrange(0, 0) =~= Seq::<Pair>::empty());
        }
        while i < pairs.len()
            invariant
                i <= pairs@.len(),
                theirs == pairs_of(pairs@),
                self@ == overlaid(start, theirs.subrange(0, i as int)),
            decreases pairs@.len() - i,
        {
            let key = pairs[i].0.clone();
            let value = pairs[i].1.clone();
            proof {
                let next = theirs.subrange(0, i + 1);
                assert(next.drop_last() =~= theirs.subrange(0, i as int));
                assert(next.last() == theirs[i as int]);
            }
            self.insert(key, value);
            i = i + 1;
        }
        proof {
            assert(theirs.subrange(0, i as int) =~= theirs);
        }
    }

    /// The entries as pairs of strings, in the order of the listing.
    pub fn entries(&self) -> (r: Vec<(String, String)>)
        ensures
            pairs_of(r@) == self.listing(),
            keys_unique(pairs_of(r@)),
            self@ == map_of(pairs_of(r@)),
    {
        proof {
            use_type_invariant(self);
        }
        let mut out: Vec<(String, String)> = Vec::new();
        let mut i: usize = 0;
        while i < self.entries.len()
            invariant
                i <= self.entries@.len(),
                pairs_of(out@) =~= pairs_of(self.entries@).subrange(0, i as int),
            decreases self.entries@.len() - i,
        {
            let ghost before = pairs_of(out@);
            out.push((self.entries[i].0.clone(), self.entries[i].1.clone()));
            assert(pairs_of(out@) =~= before.push(pairs_of(self.entries@)[i as int]));
            i = i + 1;
        }
        assert(pairs_of(self.entries@).subrange(0, i as int) =~= pairs_of(self.entries@));
        out
    }
}

impl Clone for StringMap {
    fn clone(&self) -> (r: Self)
        ensures
            r@ == self@,
            r.listing() == self.listing(),
    {
        proof {
            use_type_invariant(self);
        }
        StringMap { entries: self.entries() }
    }
}

/// With unique keys, replacing the value of the pair at `at` writes that value
/// under its key.
pub proof fn lemma_map_of_update(pairs: Seq<Pair>, at: int, value: Seq<char>)
    requires
        keys_unique(pairs),
        0 <= at < pairs.len(),
    ensures
        map_of(pairs.update(at, (pairs[at].0, value))) == map_of(pairs).insert(pairs[at].0, value),
{
    let key = pairs[at].0;
    let after = pairs.update(at, (key, value));
    let left = map_of(after);
    let right = map_of(pairs).insert(key, value);
    lemma_overlaid_keys(Map::empty(), pairs);
    lemma_overlaid_keys(Map::empty(), after);
    assert forall|a: int, b: int| 0 <= a < b < after.len() implies (#[trigger] after[a]).0 != (
    #[trigger] after[b]).0 by {
        assert(pairs[a].0 != pairs[b].0);
    }
    assert forall|k: Seq<char>| has_key(after, k) <==> has_key(pairs, k) by {
        if has_key(after, k) {
            let i = choose|i: int| 0 <= i < after.len() && (#[trigger] after[i]).0 == k;
            assert(pairs[i].0 == k);
        }
        if has_key(pairs, k) {
            let i = choose|i: int| 0 <= i < pairs.len() && (#[trigger] pairs[i]).0 == k;
            assert(after[i].0 == k);
        }
    }
    assert(pairs[at].0 == key);
    assert forall|k: Seq<char>| #[trigger] left.contains_key(k) implies left[k] == right[k] by {
        let i = choose|i: int| 0 <= i < after.len() && (#[trigger] after[i]).0 == k;
        lemma_map_of_value(after, i);
        lemma_map_of_value(pairs, i);
        if i != at {
            assert(pairs[i].0 != pairs[at].0);
        }
    }
    assert(left =~= right);
}

/// With unique keys, the map has as many entries as there are pairs.
pub proof fn lemma_map_of_len(pairs: Seq<Pair>)
    requires
        keys_unique(pairs),
    ensures
        map_of(pairs).dom().finite(),
        map_of(pairs).len() == pairs.len(),
    decreases pairs.len(),
{
    if pairs.len() > 0 {
        let front = pairs.drop_last();
        assert forall|i: int, j: int| 0 <= i < j < front.len() implies (#[trigger] front[i]).0 != (
        #[trigger] front[j]).0 by {
            assert(pairs[i].0 != pairs[j].0);
        }
        lemma_map_of_len(front);
        lemma_overlaid_keys(Map::empty(), front);
        if has_key(front, pairs.last().0) {
            let i = choose|i: int| 0 <= i < front.len() && (#[trigger] front[i]).0 == pairs.last().0;
            assert(pairs[i].0 != pairs[pairs.len() - 1].0);
        }
        assert(!map_of(front).contains_key(pairs.last().0));
    }
}

/// Writing the pairs of a map with unique keys over a base gives the union in
/// which the pairs win.
pub proof fn lemma_overlaid_is_union(base: Map<Seq<char>, Seq<char>>, pairs: Seq<Pair>)
    requires
        keys_unique(pairs),
    ensures
        overlaid(base, pairs) == base.union_prefer_right(map_of(pairs)),
{
    lemma_overlaid_keys(base, pairs);
    lemma_overlaid_keys(Map::empty(), pairs);
    let left = overlaid(base, pairs);
    let right = base.union_prefer_right(map_of(pairs));
    assert forall|k: Seq<char>| #[trigger] left.contains_key(k) implies left[k] == right[k] by {
        if has_key(pairs, k) {
            let i = choose|i: int| 0 <= i < pairs.len() && (#[trigger] pairs[i]).0 == k;
            assert forall|j: int| i < j < pairs.len() implies (#[trigger] pairs[j]).0
                != pairs[i].0 by {
                assert(pairs[i].0 != pairs[j].0);
            }
            lemma_overlaid_value(base, pairs, i);
            lemma_map_of_value(pairs, i);
        } else {
            lemma_overlaid_keeps(base, pairs, k);
        }
    }
    assert(left =~= right);
}

/// A copy of `pairs`.
pub fn copy_pairs(pairs: &Vec<(String, String)>) -> (r: Vec<(String, String)>)
    ensures
        r@ == pairs@,
{
    let mut out: Vec<(String, String)> = Vec::new();
    let mut i: usize = 0;
    while i < pairs.len()
        invariant
            i <= pairs@.len(),
            out@ =~= pairs@.subrange(0, i as int),
        decreases pairs@.len() - i,
    {
        out.push((pairs[i].0.clone(), pairs[i].1.clone()));
        i = i + 1;
    }
    assert(pairs@.subrange(0, i as int) =~= pairs@);
    out
}

} // verus!
