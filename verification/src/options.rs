//! A flat string-to-string map with last-write-wins insertion, used for
//! storage options, labels and annotations. It is an association list with
//! distinct keys whose mathematical view is a `Map<Seq<char>, Seq<char>>`.

use vstd::prelude::*;

verus! {

/// The map denoted by a list of entries: earlier entries first, each later
/// entry overwriting an earlier one with the same key.
pub open spec fn map_of(s: Seq<(String, String)>) -> Map<Seq<char>, Seq<char>>
    decreases s.len(),
{
    if s.len() == 0 {
        Map::empty()
    } else {
        map_of(s.drop_last()).insert(s.last().0@, s.last().1@)
    }
}

/// No two entries share a key.
pub open spec fn unique_keys(s: Seq<(String, String)>) -> bool {
    forall|i: int, j: int| 0 <= i < j < s.len() ==> s[i].0@ != s[j].0@
}

/// A key is in the denoted map exactly when some entry holds it.
pub proof fn lemma_map_of_contains(s: Seq<(String, String)>, k: Seq<char>)
    ensures
        map_of(s).dom().contains(k) <==> exists|i: int| 0 <= i < s.len() && s[i].0@ == k,
    decreases s.len(),
{
    if s.len() > 0 {
        lemma_map_of_contains(s.drop_last(), k);
        if map_of(s).dom().contains(k) {
            if s.last().0@ != k {
                let i = choose|i: int| 0 <= i < s.drop_last().len() && s.drop_last()[i].0@ == k;
                assert(s[i].0@ == k);
            } else {
                assert(s[s.len() - 1].0@ == k);
            }
        } else {
            assert(forall|i: int|
                0 <= i < s.len() - 1 ==> s.drop_last()[i] == s[i]);
        }
    }
}

/// With distinct keys, the entry holding a key gives its value in the map.
pub proof fn lemma_map_of_index(s: Seq<(String, String)>, i: int)
    requires
        unique_keys(s),
        0 <= i < s.len(),
    ensures
        map_of(s).dom().contains(s[i].0@),
        map_of(s)[s[i].0@] == s[i].1@,
    decreases s.len(),
{
    lemma_map_of_contains(s, s[i].0@);
    if i < s.len() - 1 {
        assert(s.drop_last()[i] == s[i]);
        lemma_map_of_index(s.drop_last(), i);
        assert(s[s.len() - 1].0@ != s[i].0@);
    }
}

/// Overwriting one entry's value denotes a single map insertion.
pub proof fn lemma_map_of_update(s: Seq<(String, String)>, i: int, e: (String, String))
    requires
        unique_keys(s),
        0 <= i < s.len(),
        e.0@ == s[i].0@,
    ensures
        map_of(s.update(i, e)) == map_of(s).insert(e.0@, e.1@),
    decreases s.len(),
{
    let t = s.update(i, e);
    if i == s.len() - 1 {
        assert(t.drop_last() =~= s.drop_last());
        assert(map_of(t) =~= map_of(s).insert(e.0@, e.1@));
    } else {
        assert(t.drop_last() =~= s.drop_last().update(i, e));
        assert(s.drop_last()[i] == s[i]);
        lemma_map_of_update(s.drop_last(), i, e);
        assert(s.last().0@ != s[i].0@);
        assert(t.last() == s.last());
        assert(map_of(t) =~= map_of(s).insert(e.0@, e.1@));
    }
}

/// A flat string map: inline storage options, resolved credentials, labels
/// and annotations all live in one of these.
#[derive(Clone, Debug)]
pub struct OptionsMap {
    pub entries: Vec<(String, String)>,
}

impl View for OptionsMap {
    type V = Map<Seq<char>, Seq<char>>;

    open spec fn view(&self) -> Map<Seq<char>, Seq<char>> {
        map_of(self.entries@)
    }
}

impl OptionsMap {
    /// Distinct keys; every method keeps this and most require it.
    pub open spec fn wf(&self) -> bool {
        unique_keys(self.entries@)
    }

    pub fn new() -> (m: Self)
        ensures
            m.wf(),
            m@ == Map::<Seq<char>, Seq<char>>::empty(),
            m.entries@.len() == 0,
    {
        OptionsMap { entries: Vec::new() }
    }

    /// Inserts a pair, overwriting the value of an equal key.
    pub fn insert(&mut self, k: String, v: String)
        requires
            old(self).wf(),
        ensures
            final(self).wf(),
            final(self)@ == old(self)@.insert(k@, v@),
    {
        let n = self.entries.len();
        let mut i: usize = 0;
        while i < n
            invariant
                self.wf(),
                n == self.entries@.len(),
                i <= n,
                self.entries == old(self).entries,
                forall|j: int| 0 <= j < i ==> self.entries@[j].0@ != k@,
            decreases n - i,
        {
            if self.entries[i].0 == k {
                proof {
                    lemma_map_of_update(self.entries@, i as int, (k, v));
                    let t = self.entries@.update(i as int, (k, v));
                    assert forall|p: int, q: int| 0 <= p < q < t.len() implies t[p].0@
                        != t[q].0@ by {
                        assert(self.entries@[p].0@ != self.entries@[q].0@);
                    }
                }
                self.entries[i] = (k, v);
                return ;
            }
            i += 1;
        }
        proof {
            assert(self.entries@.push((k, v)).drop_last() =~= self.entries@);
        }
        self.entries.push((k, v));
    }

    /// Looks a key up.
    pub fn get(&self, k: &String) -> (r: Option<&String>)
        requires
            self.wf(),
        ensures
            match r {
                Some(v) => self@.dom().contains(k@) && v@ == self@[k@],
                None => !self@.dom().contains(k@),
            },
    {
        let n = self.entries.len();
        let mut i: usize = 0;
        while i < n
            invariant
                self.wf(),
                n == self.entries@.len(),
                i <= n,
                forall|j: int| 0 <= j < i ==> self.entries@[j].0@ != k@,
            decreases n - i,
        {
            if self.entries[i].0 == *k {
                proof {
                    lemma_map_of_index(self.entries@, i as int);
                }
                return Some(&self.entries[i].1);
            }
            i += 1;
        }
        proof {
            lemma_map_of_contains(self.entries@, k@);
        }
        None
    }

    /// The number of entries, which with distinct keys is the map's size.
    pub fn len(&self) -> (n: usize)
        ensures
            n == self.entries@.len(),
    {
        self.entries.len()
    }

    /// An entry-for-entry copy whose view is known to be the same; derived
    /// cloning says nothing to the verifier.
    pub fn duplicate(&self) -> (r: Self)
        ensures
            r.entries@ == self.entries@,
            r@ == self@,
            r.wf() == self.wf(),
    {
        let mut entries: Vec<(String, String)> = Vec::new();
        let n = self.entries.len();
        let mut i: usize = 0;
        while i < n
            invariant
                n == self.entries@.len(),
                i <= n,
                entries@ =~= self.entries@.subrange(0, i as int),
            decreases n - i,
        {
            entries.push((self.entries[i].0.clone(), self.entries[i].1.clone()));
            i += 1;
        }
        proof {
            assert(entries@ =~= self.entries@);
        }
        OptionsMap { entries }
    }
}

/// Collects key/value pairs into a map, later pairs overwriting earlier ones
/// with the same key.
pub fn vec_to_map(args: Vec<(String, String)>) -> (m: OptionsMap)
    ensures
        m.wf(),
        m@ == map_of(args@),
{
    let mut m = OptionsMap::new();
    let n = args.len();
    let mut i: usize = 0;
    while i < n
        invariant
            m.wf(),
            n == args@.len(),
            i <= n,
            m@ == map_of(args@.subrange(0, i as int)),
        decreases n - i,
    {
        let k = args[i].0.clone();
        let v = args[i].1.clone();
        proof {
            assert(args@.subrange(0, i as int + 1).drop_last() =~= args@.subrange(0, i as int));
            assert(args@.subrange(0, i as int + 1).last() == args@[i as int]);
        }
        m.insert(k, v);
        i += 1;
    }
    proof {
        assert(args@.subrange(0, n as int) =~= args@);
    }
    m
}


/// The position of the first `=` in the characters at or after `from`.
pub open spec fn find_eq(s: Seq<char>, from: int) -> Option<int>
    decreases s.len() - from,
{
    if from < 0 || from >= s.len() {
        None
    } else if s[from] == '=' {
        Some(from)
    } else {
        find_eq(s, from + 1)
    }
}

/// Splits `KEY=value` at the first `=`: the key is everything before it, the
/// value everything after it. A string without `=` does not parse.
pub fn parse_key_val(s: &str) -> (r: Option<(String, String)>)
    ensures
        (match r {
            Some((k, v)) => find_eq(s@, 0) matches Some(i) && k@ == s@.subrange(0, i) && v@
                == s@.subrange(i + 1, s@.len() as int),
            None => find_eq(s@, 0) is None,
        }),
{
    let n = s.unicode_len();
    let mut i: usize = 0;
    while i < n
        invariant
            n == s@.len(),
            i <= n,
            find_eq(s@, 0) == find_eq(s@, i as int),
            forall|j: int| 0 <= j < i ==> s@[j] != '=',
    decreases n - i,
    {
        let c = s.get_char(i);
        if c == '=' {
            let key = s.substring_char(0, i).to_owned();
            let value = s.substring_char(i + 1, n).to_owned();
            proof {
                assert(s@.subrange(0, i as int) == key@);
            }
            return Some((key, value));
        }
        i += 1;
    }
    None
}

} // verus!
