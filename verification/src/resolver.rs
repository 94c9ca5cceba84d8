//! Storage-option resolution: inline options first, then each reference in
//! declaration order, later keys overwriting earlier ones. Referenced objects
//! are fetched at most once per pass; the fetched results are handed in as a
//! cache and resolution itself is pure.

use vstd::prelude::*;

use crate::error::Error;
use crate::options::map_of;
use crate::options::OptionsMap;
use crate::text::from_utf8_lossy;
use crate::text::lossy_utf8_of;
use crate::types::DeltaTable;
use crate::types::ReferenceKind;
use crate::types::StorageOptionReference;

verus! {

/// The data of one fetched object. ConfigMap values contribute as they are;
/// Secret values are stored as bytes and decoded, lossily, on insertion.
#[derive(Clone, Debug)]
pub enum ObjectData {
    ConfigMap { entries: Vec<(String, String)> },
    Secret { entries: Vec<(String, Vec<u8>)> },
}

/// One referenced object as fetched: its coordinates and, if it existed, its
/// data.
#[derive(Clone, Debug)]
pub struct FetchedObject {
    pub kind: ReferenceKind,
    pub name: String,
    pub data: Option<ObjectData>,
}

/// Inserting a ConfigMap's entries, in order.
pub open spec fn merge_config_entries(
    m: Map<Seq<char>, Seq<char>>,
    entries: Seq<(String, String)>,
) -> Map<Seq<char>, Seq<char>>
    decreases entries.len(),
{
    if entries.len() == 0 {
        m
    } else {
        merge_config_entries(m, entries.drop_last()).insert(
            entries.last().0@,
            entries.last().1@,
        )
    }
}

/// Inserting a Secret's entries, in order, each value decoded from its
/// stored binary form.
pub open spec fn merge_secret_entries(
    m: Map<Seq<char>, Seq<char>>,
    entries: Seq<(String, Vec<u8>)>,
) -> Map<Seq<char>, Seq<char>>
    decreases entries.len(),
{
    if entries.len() == 0 {
        m
    } else {
        merge_secret_entries(m, entries.drop_last()).insert(
            entries.last().0@,
            lossy_utf8_of(entries.last().1@),
        )
    }
}

/// Inserting one object's contribution.
pub open spec fn merge_object(
    m: Map<Seq<char>, Seq<char>>,
    data: ObjectData,
) -> Map<Seq<char>, Seq<char>> {
    match data {
        ObjectData::ConfigMap { entries } => merge_config_entries(m, entries@),
        ObjectData::Secret { entries } => merge_secret_entries(m, entries@),
    }
}

/// Whether the cache holds an entry for the given coordinates.
pub open spec fn cache_has(cache: Seq<FetchedObject>, kind: ReferenceKind, name: Seq<char>) -> bool {
    exists|i: int| 0 <= i < cache.len() && cache[i].kind == kind && cache[i].name@ == name
}

/// The first cache entry for the given coordinates, if any.
pub open spec fn cache_lookup(
    cache: Seq<FetchedObject>,
    kind: ReferenceKind,
    name: Seq<char>,
) -> Option<FetchedObject>
    decreases cache.len(),
{
    if cache.len() == 0 {
        None
    } else if cache.first().kind == kind && cache.first().name@ == name {
        Some(cache.first())
    } else {
        cache_lookup(cache.drop_first(), kind, name)
    }
}

/// What the fetch of the given coordinates returned: the outer option is
/// whether the cache holds them at all, the inner whether the object existed.
pub open spec fn cache_lookup_data(
    cache: Seq<FetchedObject>,
    kind: ReferenceKind,
    name: Seq<char>,
) -> Option<Option<ObjectData>> {
    match cache_lookup(cache, kind, name) {
        Some(f) => Some(f.data),
        None => None,
    }
}

/// A lookup succeeds exactly when the cache holds the coordinates.
pub proof fn lemma_cache_lookup_has(cache: Seq<FetchedObject>, kind: ReferenceKind, name: Seq<char>)
    ensures
        cache_lookup(cache, kind, name) is Some <==> cache_has(cache, kind, name),
    decreases cache.len(),
{
    if cache.len() > 0 {
        lemma_cache_lookup_has(cache.drop_first(), kind, name);
        if cache.first().kind == kind && cache.first().name@ == name {
            assert(cache[0].kind == kind && cache[0].name@ == name);
        } else {
            if cache_has(cache.drop_first(), kind, name) {
                let i = choose|i: int|
                    0 <= i < cache.drop_first().len() && cache.drop_first()[i].kind == kind
                        && cache.drop_first()[i].name@ == name;
                assert(cache[i + 1].kind == kind && cache[i + 1].name@ == name);
            }
            if cache_has(cache, kind, name) {
                let i = choose|i: int|
                    0 <= i < cache.len() && cache[i].kind == kind && cache[i].name@ == name;
                assert(i > 0);
                assert(cache.drop_first()[i - 1].kind == kind && cache.drop_first()[i - 1].name@
                    == name);
            }
        }
    }
}

/// Every reference in the list can be looked up in the cache.
pub open spec fn cache_covers(
    cache: Seq<FetchedObject>,
    refs: Seq<StorageOptionReference>,
) -> bool {
    forall|i: int|
        0 <= i < refs.len() ==> cache_has(cache, refs[i].kind, refs[i].name@)
}

/// Resolution over a list of references, given what each fetch returned:
/// each reference's object merged in order; an absent object contributes
/// nothing when optional and fails resolution otherwise.
pub open spec fn resolve_refs(
    object: String,
    m: Map<Seq<char>, Seq<char>>,
    refs: Seq<StorageOptionReference>,
    cache: Seq<FetchedObject>,
) -> Result<Map<Seq<char>, Seq<char>>, Error>
    decreases refs.len(),
{
    if refs.len() == 0 {
        Ok(m)
    } else {
        let r = refs.first();
        match cache_lookup_data(cache, r.kind, r.name@) {
            Some(Some(data)) => resolve_refs(
                object,
                merge_object(m, data),
                refs.drop_first(),
                cache,
            ),
            Some(None) => if r.optional == Some(true) {
                resolve_refs(object, m, refs.drop_first(), cache)
            } else {
                Err(Error::MissingReference { object, kind: r.kind, name: r.name })
            },
            None => Err(Error::MissingReference { object, kind: r.kind, name: r.name }),
        }
    }
}

impl DeltaTable {
    /// The inline storage options, as declared.
    pub open spec fn inline_options(&self) -> Seq<(String, String)> {
        match self.spec.storage_options {
            Some(entries) => entries@,
            None => Seq::empty(),
        }
    }

    /// The storage-option references, in declaration order.
    pub open spec fn option_references(&self) -> Seq<StorageOptionReference> {
        match self.spec.storage_options_from {
            Some(refs) => refs@,
            None => Seq::empty(),
        }
    }

    /// What resolution returns for this resource, given the fetched objects.
    pub open spec fn resolved_options(&self, cache: Seq<FetchedObject>) -> Result<
        Map<Seq<char>, Seq<char>>,
        Error,
    > {
        resolve_refs(
            self.metadata.name,
            map_of(self.inline_options()),
            self.option_references(),
            cache,
        )
    }
}

/// No two plan entries name the same object.
pub open spec fn plan_distinct(plan: Seq<(ReferenceKind, String)>) -> bool {
    forall|i: int, j: int|
        0 <= i < j < plan.len() ==> !(plan[i].0 == plan[j].0 && plan[i].1@ == plan[j].1@)
}

/// Every reference has a plan entry.
pub open spec fn plan_covers(
    plan: Seq<(ReferenceKind, String)>,
    refs: Seq<StorageOptionReference>,
) -> bool {
    plan_covers_prefix(plan, refs, refs.len() as int)
}

/// Every plan entry comes from a reference.
#[verifier::opaque]
pub open spec fn plan_within(
    plan: Seq<(ReferenceKind, String)>,
    refs: Seq<StorageOptionReference>,
) -> bool {
    forall|j: int| #![trigger plan[j]]
        0 <= j < plan.len() ==> exists|i: int| #![trigger refs[i]]
            0 <= i < refs.len() && plan[j].0 == refs[i].kind && plan[j].1@ == refs[i].name@
}

/// Every one of the first `n` references has a plan entry.
#[verifier::opaque]
pub open spec fn plan_covers_prefix(
    plan: Seq<(ReferenceKind, String)>,
    refs: Seq<StorageOptionReference>,
    n: int,
) -> bool {
    forall|i: int| #![trigger refs[i]]
        0 <= i < n ==> exists|j: int| #![trigger plan[j]]
            0 <= j < plan.len() && plan[j].0 == refs[i].kind && plan[j].1@ == refs[i].name@
}

/// Appending a fresh pair keeps a plan distinct and within the references,
/// and extends the covered prefix by one.
#[verifier::rlimit(100)]
proof fn lemma_plan_push(
    plan: Seq<(ReferenceKind, String)>,
    refs: Seq<StorageOptionReference>,
    i: int,
    e: (ReferenceKind, String),
)
    requires
        plan_distinct(plan),
        plan_within(plan, refs),
        plan_covers_prefix(plan, refs, i),
        0 <= i < refs.len(),
        e.0 == refs[i].kind,
        e.1@ == refs[i].name@,
        forall|p: int| #![trigger plan[p]]
            0 <= p < plan.len() ==> !(plan[p].0 == e.0 && plan[p].1@ == e.1@),
    ensures
        plan_distinct(plan.push(e)),
        plan_within(plan.push(e), refs),
        plan_covers_prefix(plan.push(e), refs, i + 1),
{
    let t = plan.push(e);
    assert forall|p: int, q: int| 0 <= p < q < t.len() implies !(t[p].0 == t[q].0 && t[p].1@
        == t[q].1@) by {
        if q < plan.len() {
            assert(t[p] == plan[p] && t[q] == plan[q]);
        } else {
            assert(t[p] == plan[p] && t[q] == e);
        }
    }
    assert(plan_within(t, refs)) by {
        reveal(plan_within);
        assert forall|j: int| #![trigger t[j]] 0 <= j < t.len() implies exists|p: int|
            #![trigger refs[p]]
            0 <= p < refs.len() && t[j].0 == refs[p].kind && t[j].1@ == refs[p].name@ by {
            if j < plan.len() {
                assert(t[j] == plan[j]);
                let p = choose|p: int|
                    0 <= p < refs.len() && plan[j].0 == refs[p].kind && plan[j].1@
                        == refs[p].name@;
                assert(t[j].0 == refs[p].kind && t[j].1@ == refs[p].name@);
            } else {
                assert(t[j].0 == refs[i].kind && t[j].1@ == refs[i].name@);
            }
        }
    }
    assert(plan_covers_prefix(t, refs, i + 1)) by {
        reveal(plan_covers_prefix);
        assert forall|k: int| #![trigger refs[k]] 0 <= k < i + 1 implies exists|j: int|
            #![trigger t[j]]
            0 <= j < t.len() && t[j].0 == refs[k].kind && t[j].1@ == refs[k].name@ by {
            if k < i {
                let j = choose|j: int|
                    0 <= j < plan.len() && plan[j].0 == refs[k].kind && plan[j].1@
                        == refs[k].name@;
                assert(t[j].0 == refs[k].kind && t[j].1@ == refs[k].name@);
            } else {
                assert(t[plan.len() as int].0 == refs[k].kind && t[plan.len() as int].1@
                    == refs[k].name@);
            }
        }
    }
}

/// A pair already planned extends the covered prefix without a change.
proof fn lemma_plan_hit(
    plan: Seq<(ReferenceKind, String)>,
    refs: Seq<StorageOptionReference>,
    i: int,
    j: int,
)
    requires
        plan_covers_prefix(plan, refs, i),
        0 <= i < refs.len(),
        0 <= j < plan.len(),
        plan[j].0 == refs[i].kind,
        plan[j].1@ == refs[i].name@,
    ensures
        plan_covers_prefix(plan, refs, i + 1),
{
    reveal(plan_covers_prefix);
    assert forall|k: int| #![trigger refs[k]] 0 <= k < i + 1 implies exists|q: int|
        #![trigger plan[q]]
        0 <= q < plan.len() && plan[q].0 == refs[k].kind && plan[q].1@ == refs[k].name@ by {
        if k < i {
            let q = choose|q: int|
                0 <= q < plan.len() && plan[q].0 == refs[k].kind && plan[q].1@ == refs[k].name@;
            assert(plan[q].0 == refs[k].kind && plan[q].1@ == refs[k].name@);
        } else {
            assert(plan[j].0 == refs[k].kind && plan[j].1@ == refs[k].name@);
        }
    }
}

/// The cache's first `n` entries carry exactly the plan's coordinates.
pub open spec fn cache_matches_plan_prefix(
    cache: Seq<FetchedObject>,
    plan: Seq<(ReferenceKind, String)>,
    n: int,
) -> bool {
    forall|i: int| #![trigger cache[i]]
        0 <= i < n ==> i < cache.len() && i < plan.len() && cache[i].kind == plan[i].0
            && cache[i].name@ == plan[i].1@
}

/// A full cache matching a covering plan covers the references.
pub proof fn lemma_cache_covers(
    cache: Seq<FetchedObject>,
    plan: Seq<(ReferenceKind, String)>,
    refs: Seq<StorageOptionReference>,
)
    requires
        plan_covers(plan, refs),
        cache.len() == plan.len(),
        cache_matches_plan_prefix(cache, plan, plan.len() as int),
    ensures
        cache_covers(cache, refs),
{
    reveal(plan_covers_prefix);
    assert forall|i: int| 0 <= i < refs.len() implies cache_has(
        cache,
        refs[i].kind,
        refs[i].name@,
    ) by {
        let j = choose|j: int|
            #![trigger plan[j]]
            0 <= j < plan.len() && plan[j].0 == refs[i].kind && plan[j].1@ == refs[i].name@;
        assert(cache[j].kind == refs[i].kind && cache[j].name@ == refs[i].name@);
    }
}

/// An empty plan can cover only an empty reference list.
pub proof fn lemma_empty_plan_covers(
    plan: Seq<(ReferenceKind, String)>,
    refs: Seq<StorageOptionReference>,
)
    requires
        plan_covers(plan, refs),
        plan.len() == 0,
    ensures
        refs.len() == 0,
{
    reveal(plan_covers_prefix);
    assert(refs.len() == 0) by {
        if refs.len() > 0 {
            let r0 = refs[0];
            assert(false);
        }
    }
}

/// An empty plan is distinct, within any reference list, and covers none of
/// it.
proof fn lemma_plan_empty(refs: Seq<StorageOptionReference>)
    ensures
        plan_distinct(Seq::<(ReferenceKind, String)>::empty()),
        plan_within(Seq::<(ReferenceKind, String)>::empty(), refs),
        plan_covers_prefix(Seq::<(ReferenceKind, String)>::empty(), refs, 0),
{
    reveal(plan_within);
    reveal(plan_covers_prefix);
}

/// Whether the plan already holds the pair, and where.
fn plan_find(plan: &Vec<(ReferenceKind, String)>, kind: ReferenceKind, name: &String) -> (r:
    Option<usize>)
    ensures
        (match r {
            Some(j) => j < plan@.len() && plan@[j as int].0 == kind && plan@[j as int].1@ == name@,
            None => forall|p: int| #![trigger plan@[p]]
                0 <= p < plan@.len() ==> !(plan@[p].0 == kind && plan@[p].1@ == name@),
        }),
{
    let m = plan.len();
    let mut j: usize = 0;
    while j < m
        invariant
            m == plan@.len(),
            j <= m,
            forall|p: int| #![trigger plan@[p]]
                0 <= p < j ==> !(plan@[p].0 == kind && plan@[p].1@ == name@),
        decreases m - j,
    {
        if plan[j].0 == kind && plan[j].1 == *name {
            return Some(j);
        }
        j += 1;
    }
    None
}

impl DeltaTable {
    /// The objects to fetch for this pass: each distinct (kind, name) pair of
    /// the declared references exactly once, in first-occurrence order. This
    /// is what makes a referenced object fetched at most once per pass.
    #[verifier::rlimit(100)]
    pub fn fetch_plan(&self) -> (plan: Vec<(ReferenceKind, String)>)
        ensures
            plan_distinct(plan@),
            plan_covers(plan@, self.option_references()),
            plan_within(plan@, self.option_references()),
    {
        let mut plan: Vec<(ReferenceKind, String)> = Vec::new();
        proof {
            lemma_plan_empty(self.option_references());
            assert(plan@ =~= Seq::<(ReferenceKind, String)>::empty());
        }
        if let Some(references) = &self.spec.storage_options_from {
            let n = references.len();
            let mut i: usize = 0;
            while i < n
                invariant
                    references@ == self.option_references(),
                    n == references@.len(),
                    i <= n,
                    plan_distinct(plan@),
                    plan_within(plan@, references@),
                    plan_covers_prefix(plan@, references@, i as int),
                decreases n - i,
            {
                let entry = &references[i];
                match plan_find(&plan, entry.kind, &entry.name) {
                    Some(j) => {
                        proof {
                            lemma_plan_hit(plan@, references@, i as int, j as int);
                        }
                    },
                    None => {
                        let e = (entry.kind, entry.name.clone());
                        proof {
                            lemma_plan_push(plan@, references@, i as int, e);
                        }
                        plan.push(e);
                    },
                }
                i += 1;
            }
        }
        plan
    }
}

/// Consults the cache for one reference: the object's data if it was found,
/// nothing if it was absent but optional, and a MissingReference failure if
/// it was absent and required.
pub fn get_reference_or_not<'a>(
    object: &String,
    cache: &'a Vec<FetchedObject>,
    kind: ReferenceKind,
    name: &String,
    optional: bool,
) -> (r: Result<Option<&'a ObjectData>, Error>)
    requires
        cache_has(cache@, kind, name@),
    ensures
        (match r {
            Ok(Some(data)) => cache_lookup_data(cache@, kind, name@) == Some(Some(*data)),
            Ok(None) => optional && cache_lookup_data(cache@, kind, name@) == Some(
                Option::<ObjectData>::None,
            ),
            Err(e) => !optional && cache_lookup_data(cache@, kind, name@) == Some(
                Option::<ObjectData>::None,
            ) && e == (Error::MissingReference { object: *object, kind, name: *name }),
        }),
{
    let n = cache.len();
    proof {
        assert(cache@.subrange(0, n as int) =~= cache@);
    }
    let mut i: usize = 0;
    while i < n
        invariant
            cache_has(cache@, kind, name@),
            n == cache@.len(),
            i <= n,
            forall|j: int|
                0 <= j < i ==> !(cache@[j].kind == kind && cache@[j].name@ == name@),
            cache_lookup(cache@, kind, name@) == cache_lookup(
                cache@.subrange(i as int, n as int),
                kind,
                name@,
            ),
        decreases n - i,
    {
        let hit = cache[i].kind == kind && cache[i].name == *name;
        proof {
            let rest = cache@.subrange(i as int, n as int);
            assert(rest.first() == cache@[i as int]);
            assert(rest.drop_first() =~= cache@.subrange(i as int + 1, n as int));
        }
        if hit {
            match &cache[i].data {
                Some(data) => {
                    return Ok(Some(data));
                },
                None => {
                    if optional {
                        return Ok(None);
                    }
                    return Err(
                        Error::MissingReference {
                            object: object.clone(),
                            kind,
                            name: name.clone(),
                        },
                    );
                },
            }
        }
        i += 1;
    }
    proof {
        lemma_cache_lookup_has(cache@, kind, name@);
        assert(cache@.subrange(n as int, n as int).len() == 0);
        assert(false);
    }
    Err(Error::Kubernetes { message: String::new() })
}

/// Inserts one fetched object's entries into the accumulated map.
fn merge_object_into(m: &mut OptionsMap, data: &ObjectData)
    requires
        old(m).wf(),
    ensures
        final(m).wf(),
        final(m)@ == merge_object(old(m)@, *data),
{
    match data {
        ObjectData::ConfigMap { entries } => {
            let n = entries.len();
            let mut i: usize = 0;
            while i < n
                invariant
                    m.wf(),
                    n == entries@.len(),
                    i <= n,
                    m@ == merge_config_entries(old(m)@, entries@.subrange(0, i as int)),
                decreases n - i,
            {
                proof {
                    assert(entries@.subrange(0, i as int + 1).drop_last() =~= entries@.subrange(
                        0,
                        i as int,
                    ));
                    assert(entries@.subrange(0, i as int + 1).last() == entries@[i as int]);
                }
                m.insert(entries[i].0.clone(), entries[i].1.clone());
                i += 1;
            }
            proof {
                assert(entries@.subrange(0, n as int) =~= entries@);
            }
        },
        ObjectData::Secret { entries } => {
            let n = entries.len();
            let mut i: usize = 0;
            while i < n
                invariant
                    m.wf(),
                    n == entries@.len(),
                    i <= n,
                    m@ == merge_secret_entries(old(m)@, entries@.subrange(0, i as int)),
                decreases n - i,
            {
                proof {
                    assert(entries@.subrange(0, i as int + 1).drop_last() =~= entries@.subrange(
                        0,
                        i as int,
                    ));
                    assert(entries@.subrange(0, i as int + 1).last() == entries@[i as int]);
                }
                let value = from_utf8_lossy(&entries[i].1);
                m.insert(entries[i].0.clone(), value);
                i += 1;
            }
            proof {
                assert(entries@.subrange(0, n as int) =~= entries@);
            }
        },
    }
}

impl DeltaTable {
    /// Merges inline options and referenced objects into one flat map:
    /// inline first, references in declaration order, last write winning. A
    /// missing required reference fails with MissingReference; a missing
    /// optional one contributes nothing.
    pub fn accumulate_storage_options(&self, cache: &Vec<FetchedObject>) -> (r: Result<
        OptionsMap,
        Error,
    >)
        requires
            cache_covers(cache@, self.option_references()),
        ensures
            (match r {
                Ok(m) => m.wf() && self.resolved_options(cache@) == Ok::<_, Error>(m@),
                Err(e) => self.resolved_options(cache@) == Err::<Map<Seq<char>, Seq<char>>, _>(e),
            }),
    {
        let mut m = OptionsMap::new();
        if let Some(options) = &self.spec.storage_options {
            let n = options.len();
            let mut i: usize = 0;
            while i < n
                invariant
                    m.wf(),
                    n == options@.len(),
                    i <= n,
                    m@ == map_of(options@.subrange(0, i as int)),
                decreases n - i,
            {
                proof {
                    assert(options@.subrange(0, i as int + 1).drop_last() =~= options@.subrange(
                        0,
                        i as int,
                    ));
                    assert(options@.subrange(0, i as int + 1).last() == options@[i as int]);
                }
                m.insert(options[i].0.clone(), options[i].1.clone());
                i += 1;
            }
            proof {
                assert(options@.subrange(0, n as int) =~= options@);
            }
        }
        proof {
            assert(m@ == map_of(self.inline_options()));
        }
        if let Some(references) = &self.spec.storage_options_from {
            let n = references.len();
            proof {
                assert(self.option_references().skip(0) =~= self.option_references());
            }
            let mut i: usize = 0;
            while i < n
                invariant
                    m.wf(),
                    n == references@.len(),
                    references@ == self.option_references(),
                    cache_covers(cache@, self.option_references()),
                    i <= n,
                    resolve_refs(
                        self.metadata.name,
                        map_of(self.inline_options()),
                        self.option_references(),
                        cache@,
                    ) == resolve_refs(
                        self.metadata.name,
                        m@,
                        self.option_references().skip(i as int),
                        cache@,
                    ),
                decreases n - i,
            {
                let entry = &references[i];
                let optional = match entry.optional {
                    Some(b) => b,
                    None => false,
                };
                proof {
                    let rest = self.option_references().skip(i as int);
                    assert(rest.first() == references@[i as int]);
                    assert(rest.drop_first() =~= self.option_references().skip(i as int + 1));
                }
                match get_reference_or_not(&self.metadata.name, cache, entry.kind, &entry.name, optional) {
                    Ok(Some(data)) => {
                        merge_object_into(&mut m, data);
                    },
                    Ok(None) => (),
                    Err(e) => {
                        return Err(e);
                    },
                }
                i += 1;
            }
            proof {
                assert(self.option_references().skip(n as int).len() == 0);
            }
        } else {
            proof {
                assert(self.option_references().len() == 0);
                assert(self.option_references().skip(0).len() == 0);
            }
        }
        Ok(m)
    }
}


/// The reference's object was fetched and existed.
pub open spec fn ref_available(cache: Seq<FetchedObject>, r: StorageOptionReference) -> bool {
    cache_lookup_data(cache, r.kind, r.name@) matches Some(Some(_))
}

/// A cache covering a list covers its tail.
proof fn lemma_cache_covers_tail(cache: Seq<FetchedObject>, refs: Seq<StorageOptionReference>)
    requires
        cache_covers(cache, refs),
        refs.len() > 0,
    ensures
        cache_covers(cache, refs.drop_first()),
{
    assert forall|i: int| 0 <= i < refs.drop_first().len() implies cache_has(
        cache,
        refs.drop_first()[i].kind,
        refs.drop_first()[i].name@,
    ) by {
        assert(refs.drop_first()[i] == refs[i + 1]);
    }
}

/// Resolution succeeds exactly when every reference is optional or its
/// object exists: a missing required reference fails the pass, a missing
/// optional one does not.
pub proof fn lemma_resolution_success(
    object: String,
    m: Map<Seq<char>, Seq<char>>,
    refs: Seq<StorageOptionReference>,
    cache: Seq<FetchedObject>,
)
    requires
        cache_covers(cache, refs),
    ensures
        resolve_refs(object, m, refs, cache) is Ok <==> (forall|i: int| #![trigger refs[i]]
            0 <= i < refs.len() ==> (refs[i].optional == Some(true) || ref_available(
                cache,
                refs[i],
            ))),
    decreases refs.len(),
{
    if refs.len() > 0 {
        let r = refs.first();
        assert(cache_has(cache, refs[0].kind, refs[0].name@));
        lemma_cache_lookup_has(cache, r.kind, r.name@);
        lemma_cache_covers_tail(cache, refs);
        let tail = refs.drop_first();
        match cache_lookup_data(cache, r.kind, r.name@) {
            Some(Some(data)) => {
                lemma_resolution_success(object, merge_object(m, data), tail, cache);
            },
            Some(None) => {
                if r.optional == Some(true) {
                    lemma_resolution_success(object, m, tail, cache);
                } else {
                    assert(!(refs[0].optional == Some(true) || ref_available(cache, refs[0])));
                }
            },
            None => {
                assert(false);
            },
        }
        if resolve_refs(object, m, refs, cache) is Ok {
            assert forall|i: int| 0 <= i < refs.len() implies (refs[i].optional == Some(true)
                || ref_available(cache, refs[i])) by {
                if i > 0 {
                    assert(tail[i - 1] == refs[i]);
                }
            }
        } else {
            if forall|i: int| #![trigger refs[i]]
                0 <= i < refs.len() ==> (refs[i].optional == Some(true) || ref_available(
                    cache,
                    refs[i],
                )) {
                assert forall|i: int| 0 <= i < tail.len() implies (tail[i].optional == Some(true)
                    || ref_available(cache, tail[i])) by {
                    assert(tail[i] == refs[i + 1]);
                }
                assert(refs[0].optional == Some(true) || ref_available(cache, refs[0]));
                assert(false);
            }
        }
    }
}

/// An optional reference whose object is absent contributes nothing:
/// resolution is what it would be with that reference left out.
pub proof fn lemma_optional_absent_contributes_nothing(
    object: String,
    m: Map<Seq<char>, Seq<char>>,
    refs: Seq<StorageOptionReference>,
    cache: Seq<FetchedObject>,
    i: int,
)
    requires
        0 <= i < refs.len(),
        refs[i].optional == Some(true),
        cache_lookup_data(cache, refs[i].kind, refs[i].name@) == Some(Option::<ObjectData>::None),
    ensures
        resolve_refs(object, m, refs, cache) == resolve_refs(object, m, refs.remove(i), cache),
    decreases refs.len(),
{
    let rest = refs.remove(i);
    if i == 0 {
        assert(rest =~= refs.drop_first());
    } else {
        let r = refs.first();
        assert(rest.first() == r);
        assert(rest.drop_first() =~= refs.drop_first().remove(i - 1));
        assert(refs.drop_first()[i - 1] == refs[i]);
        match cache_lookup_data(cache, r.kind, r.name@) {
            Some(Some(data)) => {
                lemma_optional_absent_contributes_nothing(
                    object,
                    merge_object(m, data),
                    refs.drop_first(),
                    cache,
                    i - 1,
                );
            },
            Some(None) => {
                if r.optional == Some(true) {
                    lemma_optional_absent_contributes_nothing(
                        object,
                        m,
                        refs.drop_first(),
                        cache,
                        i - 1,
                    );
                }
            },
            None => {
            },
        }
    }
}

} // verus!
