//! A randomizer profile: the layout version, seed, per-region weights and frigate choice.

use vstd::prelude::*;

verus! {

/// Whether some entry of `s` has the key `k`.
pub open spec fn has_key(s: Seq<(String, [i8; 4])>, k: Seq<char>) -> bool {
    exists|i: int| 0 <= i < s.len() && (#[trigger] s[i]).0@ == k
}

/// No two entries of `s` have the same key.
pub open spec fn keys_distinct(s: Seq<(String, [i8; 4])>) -> bool {
    forall|i: int, j: int|
        0 <= i < s.len() && 0 <= j < s.len() && i != j ==> (#[trigger] s[i]).0@ != (#[trigger] s[j]).0@
}

/// The map that a list of entries with distinct keys stands for.
pub open spec fn entries_map(s: Seq<(String, [i8; 4])>) -> Map<Seq<char>, [i8; 4]> {
    Map::new(
        |k: Seq<char>| has_key(s, k),
        |k: Seq<char>| s[choose|i: int| 0 <= i < s.len() && (#[trigger] s[i]).0@ == k].1,
    )
}

/// Region weights keyed by region name, as a map from names to four weights.
pub struct WeightTable {
    entries: Vec<(String, [i8; 4])>,
}

impl View for WeightTable {
    type V = Map<Seq<char>, [i8; 4]>;

    closed spec fn view(&self) -> Map<Seq<char>, [i8; 4]> {
        entries_map(self.entries@)
    }
}

impl WeightTable {
    #[verifier::type_invariant]
    closed spec fn wf(&self) -> bool {
        keys_distinct(self.entries@)
    }

    /// An empty table.
    pub fn new() -> (r: WeightTable)
        ensures
            r@ == Map::<Seq<char>, [i8; 4]>::empty(),
    {
        let r = WeightTable { entries: Vec::new() };
        assert(r@ =~= Map::<Seq<char>, [i8; 4]>::empty());
        r
    }

    /// The number of regions in the table.
    pub fn len(&self) -> (r: usize)
        ensures
            r as nat == self@.len(),
    {
        proof {
            use_type_invariant(self);
            lemma_entries_map_len(self.entries@);
        }
        self.entries.len()
    }

    /// Sets the weights of a region, replacing any earlier ones.
    pub fn insert(&mut self, key: String, weights: [i8; 4])
        ensures
            final(self)@ == old(self)@.insert(key@, weights),
    {
        proof {
            use_type_invariant(&*self);
        }
        let n = self.entries.len();
        let mut i: usize = 0;
        while i < n
            invariant
                n == self.entries@.len(),
                i <= n,
                keys_distinct(self.entries@),
                self.entries@ == old(self).entries@,
                forall|j: int| 0 <= j < i ==> (#[trigger] self.entries@[j]).0@ != key@,
            decreases n - i,
        {
            if self.entries[i].0 == key {
                let ghost before = self.entries@;
                let mut entries = Vec::new();
                std::mem::swap(&mut entries, &mut self.entries);
                entries.set(i, (key, weights));
                proof {
                    lemma_entries_map_update(before, i as int, key, weights);
                }
                self.entries = entries;
                return;
            }
            i = i + 1;
        }
        let ghost before = self.entries@;
        let mut entries = Vec::new();
        std::mem::swap(&mut entries, &mut self.entries);
        entries.push((key, weights));
        proof {
            lemma_entries_map_push(before, key, weights);
        }
        self.entries = entries;
    }

    /// The weights of a region, if the table has them.
    pub fn get(&self, key: &str) -> (r: Option<[i8; 4]>)
        ensures
            match r {
                Some(w) => self@.contains_key(key@) && self@[key@] == w,
                None => !self@.contains_key(key@),
            },
    {
        proof {
            use_type_invariant(self);
        }
        let n = self.entries.len();
        let mut i: usize = 0;
        while i < n
            invariant
                n == self.entries@.len(),
                i <= n,
                keys_distinct(self.entries@),
                forall|j: int| 0 <= j < i ==> (#[trigger] self.entries@[j]).0@ != key@,
            decreases n - i,
        {
            if crate::text::str_equal(self.entries[i].0.as_str(), key) {
                proof {
                    lemma_entries_map_at(self.entries@, i as int);
                }
                return Some(self.entries[i].1);
            }
            i = i + 1;
        }
        None
    }

    /// The entries of the table, one per region, in insertion order.
    pub fn entries(&self) -> (r: &Vec<(String, [i8; 4])>)
        ensures
            entries_map(r@) == self@,
            keys_distinct(r@),
    {
        proof {
            use_type_invariant(self);
        }
        &self.entries
    }
}

proof fn lemma_entries_map_at(s: Seq<(String, [i8; 4])>, i: int)
    requires
        keys_distinct(s),
        0 <= i < s.len(),
    ensures
        entries_map(s).contains_key(s[i].0@),
        entries_map(s)[s[i].0@] == s[i].1,
{
    let k = s[i].0@;
    assert(has_key(s, k));
    let c = choose|j: int| 0 <= j < s.len() && (#[trigger] s[j]).0@ == k;
    assert(c == i);
}

proof fn lemma_entries_map_len(s: Seq<(String, [i8; 4])>)
    requires
        keys_distinct(s),
    ensures
        entries_map(s).len() == s.len(),
{
    let keys = s.map_values(|e: (String, [i8; 4])| e.0@);
    assert(keys.no_duplicates()) by {
        assert forall|i: int, j: int|
            0 <= i < keys.len() && 0 <= j < keys.len() && i != j implies keys[i] != keys[j] by {
            assert(s[i].0@ != s[j].0@);
        }
    }
    keys.unique_seq_to_set();
    assert forall|k: Seq<char>| keys.to_set().contains(k) <==> entries_map(s).dom().contains(k) by {
        if keys.contains(k) {
            let j = choose|j: int| 0 <= j < keys.len() && keys[j] == k;
            assert(s[j].0@ == k);
        }
        if has_key(s, k) {
            let j = choose|j: int| 0 <= j < s.len() && (#[trigger] s[j]).0@ == k;
            assert(keys[j] == k);
        }
    }
    assert(keys.to_set() =~= entries_map(s).dom());
}

proof fn lemma_entries_map_update(s: Seq<(String, [i8; 4])>, i: int, key: String, w: [i8; 4])
    requires
        keys_distinct(s),
        0 <= i < s.len(),
        s[i].0@ == key@,
    ensures
        entries_map(s.update(i, (key, w))) == entries_map(s).insert(key@, w),
        keys_distinct(s.update(i, (key, w))),
{
    let t = s.update(i, (key, w));
    assert forall|a: int, b: int|
        0 <= a < t.len() && 0 <= b < t.len() && a != b implies (#[trigger] t[a]).0@ != (#[trigger] t[b]).0@ by {
        assert(s[a].0@ != s[b].0@);
    }
    assert forall|k: Seq<char>| has_key(t, k) <==> has_key(s, k) || k == key@ by {
        if has_key(s, k) {
            let j = choose|j: int| 0 <= j < s.len() && (#[trigger] s[j]).0@ == k;
            assert(t[j].0@ == k);
        }
        if has_key(t, k) {
            let j = choose|j: int| 0 <= j < t.len() && (#[trigger] t[j]).0@ == k;
            assert(s[j].0@ == k);
        }
        if k == key@ {
            assert(t[i].0@ == k);
        }
    }
    assert forall|k: Seq<char>| #[trigger] entries_map(t).contains_key(k) implies entries_map(t)[k]
        == entries_map(s).insert(key@, w)[k] by {
        let j = choose|j: int| 0 <= j < t.len() && (#[trigger] t[j]).0@ == k;
        if k == key@ {
            assert(j == i);
        } else {
            lemma_entries_map_at(s, j);
            lemma_entries_map_at(t, j);
        }
    }
    assert(entries_map(t) =~= entries_map(s).insert(key@, w));
}

proof fn lemma_entries_map_push(s: Seq<(String, [i8; 4])>, key: String, w: [i8; 4])
    requires
        keys_distinct(s),
        forall|j: int| 0 <= j < s.len() ==> (#[trigger] s[j]).0@ != key@,
    ensures
        entries_map(s.push((key, w))) == entries_map(s).insert(key@, w),
        keys_distinct(s.push((key, w))),
{
    let t = s.push((key, w));
    assert forall|k: Seq<char>| has_key(t, k) <==> has_key(s, k) || k == key@ by {
        if has_key(s, k) {
            let j = choose|j: int| 0 <= j < s.len() && (#[trigger] s[j]).0@ == k;
            assert(t[j].0@ == k);
        }
        if has_key(t, k) {
            let j = choose|j: int| 0 <= j < t.len() && (#[trigger] t[j]).0@ == k;
            if j < s.len() {
                assert(s[j].0@ == k);
            }
        }
        if k == key@ {
            assert(t[s.len() as int].0@ == k);
        }
    }
    assert forall|k: Seq<char>| #[trigger] entries_map(t).contains_key(k) implies entries_map(t)[k]
        == entries_map(s).insert(key@, w)[k] by {
        let j = choose|j: int| 0 <= j < t.len() && (#[trigger] t[j]).0@ == k;
        lemma_entries_map_at(t, j);
        if k != key@ {
            lemma_entries_map_at(s, j);
        }
    }
    assert(entries_map(t) =~= entries_map(s).insert(key@, w));
}

/// A randomizer profile.
pub struct Profile {
    pub mpdrp_version: u8,
    pub seed: u32,
    pub weights: WeightTable,
    pub skip_frigate: bool,
}

/// The regions that a new profile weighs.
pub open spec fn default_regions() -> Seq<Seq<char>> {
    seq!["Tallon Overworld"@, "Chozo Ruins"@, "Magmoor Caverns"@, "Phendrana Drifts"@, "Phazon Mines"@]
}

/// The weights of a new profile: 25 for each of the four weights of every default region.
pub open spec fn default_weights() -> Map<Seq<char>, [i8; 4]> {
    Map::new(|k: Seq<char>| default_regions().contains(k), |k: Seq<char>| [25i8, 25i8, 25i8, 25i8])
}

impl Profile {
    /// The default profile: version 1, seed 0, even weights for the five main regions, and the
    /// frigate skipped.
    pub fn new() -> (r: Profile)
        ensures
            r.mpdrp_version == 1,
            r.seed == 0,
            r.skip_frigate,
            r.weights@ == default_weights(),
    {
        let mut profile = Profile {
            mpdrp_version: 1,
            seed: 0,
            weights: WeightTable::new(),
            skip_frigate: true,
        };
        profile.weights.insert(String::from_str("Tallon Overworld"), [25, 25, 25, 25]);
        profile.weights.insert(String::from_str("Chozo Ruins"), [25, 25, 25, 25]);
        profile.weights.insert(String::from_str("Magmoor Caverns"), [25, 25, 25, 25]);
        profile.weights.insert(String::from_str("Phendrana Drifts"), [25, 25, 25, 25]);
        profile.weights.insert(String::from_str("Phazon Mines"), [25, 25, 25, 25]);
        assert(profile.weights@ =~= default_weights());
        profile
    }
}

/// Setting a region's weights and then reading them back gives the weights set, and leaves the
/// weights of every other region as they were (`after` is what `insert` makes of `before`).
pub proof fn lemma_weights_read_after_write(before: WeightTable, after: WeightTable, key: Seq<char>, weights: [i8; 4], other: Seq<char>)
    requires
        after@ == before@.insert(key, weights),
    ensures
        after@.contains_key(key),
        after@[key] == weights,
        other != key ==> (after@.contains_key(other) == before@.contains_key(other)),
        other != key && before@.contains_key(other) ==> after@[other] == before@[other],
{
}

} // verus!
