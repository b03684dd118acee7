use vstd::prelude::*;

use crate::json::{Json, JsonView};

verus! {

/// Token counts reported by a provider.
#[derive(Clone, Copy, Debug, PartialEq, Eq, Structural)]
pub struct Usage {
    pub input_tokens: usize,
    pub output_tokens: usize,
    pub total_tokens: usize,
    pub reasoning_tokens: usize,
    pub cache_creation_input_tokens: usize,
    pub cache_read_input_tokens: usize,
}

impl Usage {
    pub open spec fn zero() -> Usage {
        Usage {
            input_tokens: 0,
            output_tokens: 0,
            total_tokens: 0,
            reasoning_tokens: 0,
            cache_creation_input_tokens: 0,
            cache_read_input_tokens: 0,
        }
    }
}

impl Default for Usage {
    fn default() -> (u: Self)
        ensures
            u == Usage::zero(),
    {
        Usage {
            input_tokens: 0,
            output_tokens: 0,
            total_tokens: 0,
            reasoning_tokens: 0,
            cache_creation_input_tokens: 0,
            cache_read_input_tokens: 0,
        }
    }
}


/// What a provider reports about a response besides its content.
#[derive(Debug)]
pub struct Metadata {
    pub id: Option<String>,
    pub model_slug: Option<String>,
    pub system_fingerprint: Option<String>,
    pub usage: Usage,
    pub duration_ms: Option<u64>,
    /// Provider-specific data by key, each key at most once.
    pub specific: Vec<(String, Json)>,
    pub created_at: Option<u64>,
}

/// Provider-specific data as a map from key to value.
pub open spec fn specific_map(entries: Seq<(String, Json)>) -> Map<Seq<char>, JsonView>
    decreases entries.len(),
{
    if entries.len() == 0 {
        Map::empty()
    } else {
        specific_map(entries.drop_last()).insert(entries.last().0@, entries.last().1@)
    }
}

/// No key occurs twice.
pub open spec fn keys_distinct(entries: Seq<(String, Json)>) -> bool {
    forall|i: int, j: int| 0 <= i < j < entries.len() ==> #[trigger] entries[i].0@ != #[trigger] entries[j].0@
}

pub open spec fn opt_str(o: Option<String>) -> Option<Seq<char>> {
    match o {
        Some(s) => Some(s@),
        None => None,
    }
}

pub struct MetadataView {
    pub id: Option<Seq<char>>,
    pub model_slug: Option<Seq<char>>,
    pub system_fingerprint: Option<Seq<char>>,
    pub usage: Usage,
    pub duration_ms: Option<u64>,
    pub specific: Map<Seq<char>, JsonView>,
    pub created_at: Option<u64>,
}

impl MetadataView {
    pub open spec fn empty() -> MetadataView {
        MetadataView {
            id: None,
            model_slug: None,
            system_fingerprint: None,
            usage: Usage::zero(),
            duration_ms: None,
            specific: Map::empty(),
            created_at: None,
        }
    }
}

impl View for Metadata {
    type V = MetadataView;

    open spec fn view(&self) -> MetadataView {
        MetadataView {
            id: opt_str(self.id),
            model_slug: opt_str(self.model_slug),
            system_fingerprint: opt_str(self.system_fingerprint),
            usage: self.usage,
            duration_ms: self.duration_ms,
            specific: specific_map(self.specific@),
            created_at: self.created_at,
        }
    }
}

impl Metadata {
    pub open spec fn well_formed(self) -> bool {
        keys_distinct(self.specific@)
    }

    pub open spec fn specific_view(self) -> Map<Seq<char>, JsonView> {
        specific_map(self.specific@)
    }

    pub open spec fn is_empty_spec(self) -> bool {
        &&& self.id is None
        &&& self.model_slug is None
        &&& self.system_fingerprint is None
        &&& self.usage == Usage::zero()
        &&& self.duration_ms is None
        &&& self.specific@.len() == 0
        &&& self.created_at is None
    }

    /// Sets `key` to `value` in the provider-specific data, replacing any
    /// earlier value of that key.
    pub fn insert_specific(&mut self, key: String, value: Json)
        requires
            old(self).well_formed(),
        ensures
            final(self).well_formed(),
            final(self).specific_view() == old(self).specific_view().insert(key@, value@),
            final(self).id == old(self).id,
            final(self).model_slug == old(self).model_slug,
            final(self).system_fingerprint == old(self).system_fingerprint,
            final(self).usage == old(self).usage,
            final(self).duration_ms == old(self).duration_ms,
            final(self).created_at == old(self).created_at,
    {
        let ghost old_entries = self.specific@;
        let mut i: usize = 0;
        let n = self.specific.len();
        while i < n
            invariant
                n == self.specific@.len(),
                self.specific@ == old_entries,
                old_entries == old(self).specific@,
                keys_distinct(old_entries),
                self.id == old(self).id,
                self.model_slug == old(self).model_slug,
                self.system_fingerprint == old(self).system_fingerprint,
                self.usage == old(self).usage,
                self.duration_ms == old(self).duration_ms,
                self.created_at == old(self).created_at,
                i <= n,
                forall|k: int| 0 <= k < i ==> (#[trigger] old_entries[k]).0@ != key@,
            decreases n - i,
        {
            if self.specific[i].0 == key {
                proof {
                    lemma_specific_map_replace(old_entries, i as int, key, value);
                }
                self.specific.set(i, (key, value));
                return;
            }
            i = i + 1;
        }
        proof {
            lemma_specific_map_push(old_entries, key, value);
        }
        self.specific.push((key, value));
    }
}

/// Replacing the entry of a key that occurs once changes only that key.
pub proof fn lemma_specific_map_replace(entries: Seq<(String, Json)>, i: int, key: String, value: Json)
    requires
        keys_distinct(entries),
        0 <= i < entries.len(),
        entries[i].0@ == key@,
    ensures
        keys_distinct(entries.update(i, (key, value))),
        specific_map(entries.update(i, (key, value))) == specific_map(entries).insert(key@, value@),
    decreases entries.len(),
{
    let u = entries.update(i, (key, value));
    assert forall|a: int, b: int| 0 <= a < b < u.len() implies #[trigger] u[a].0@ != #[trigger] u[b].0@ by {
        assert(entries[a].0@ != entries[b].0@);
    }
    if i == entries.len() - 1 {
        assert(u.drop_last() =~= entries.drop_last());
        lemma_specific_map_absent(entries.drop_last(), key@);
        assert(specific_map(u) =~= specific_map(entries).insert(key@, value@));
    } else {
        let d = entries.drop_last();
        assert(u.drop_last() =~= d.update(i, (key, value)));
        assert forall|a: int, b: int| 0 <= a < b < d.len() implies #[trigger] d[a].0@ != #[trigger] d[b].0@ by {
            assert(entries[a].0@ != entries[b].0@);
        }
        lemma_specific_map_replace(d, i, key, value);
        assert(entries.last().0@ != key@) by {
            assert(entries[i].0@ != entries[entries.len() - 1].0@);
        }
        assert(specific_map(u) =~= specific_map(entries).insert(key@, value@));
    }
}

/// A key that occurs in no entry is not in the map.
pub proof fn lemma_specific_map_absent(entries: Seq<(String, Json)>, key: Seq<char>)
    requires
        forall|k: int| 0 <= k < entries.len() ==> (#[trigger] entries[k]).0@ != key,
    ensures
        !specific_map(entries).dom().contains(key),
    decreases entries.len(),
{
    if entries.len() > 0 {
        let d = entries.drop_last();
        assert forall|k: int| 0 <= k < d.len() implies (#[trigger] d[k]).0@ != key by {
            assert(entries[k].0@ != key);
        }
        lemma_specific_map_absent(d, key);
    }
}

/// Appending an entry whose key is new inserts it into the map.
pub proof fn lemma_specific_map_push(entries: Seq<(String, Json)>, key: String, value: Json)
    requires
        keys_distinct(entries),
        forall|k: int| 0 <= k < entries.len() ==> (#[trigger] entries[k]).0@ != key@,
    ensures
        keys_distinct(entries.push((key, value))),
        specific_map(entries.push((key, value))) == specific_map(entries).insert(key@, value@),
{
    let p = entries.push((key, value));
    assert(p.drop_last() =~= entries);
    assert forall|a: int, b: int| 0 <= a < b < p.len() implies #[trigger] p[a].0@ != #[trigger] p[b].0@ by {
        if b < entries.len() {
            assert(entries[a].0@ != entries[b].0@);
        } else {
            assert(entries[a].0@ != key@);
        }
    }
}

impl Default for Metadata {
    fn default() -> (m: Self)
        ensures
            m.is_empty_spec(),
            m@ == MetadataView::empty(),
            m.well_formed(),
    {
        let m = Metadata {
            id: None,
            model_slug: None,
            system_fingerprint: None,
            usage: Usage::default(),
            duration_ms: None,
            specific: Vec::new(),
            created_at: None,
        };
        assert(specific_map(m.specific@) =~= Map::empty());
        m
    }
}


impl Usage {
    /// Both reports' counts added, each saturating at the largest count.
    pub open spec fn sum(self, other: Usage) -> Usage {
        Usage {
            input_tokens: self.input_tokens.saturating_add(other.input_tokens),
            output_tokens: self.output_tokens.saturating_add(other.output_tokens),
            total_tokens: self.total_tokens.saturating_add(other.total_tokens),
            reasoning_tokens: self.reasoning_tokens.saturating_add(other.reasoning_tokens),
            cache_creation_input_tokens: self.cache_creation_input_tokens.saturating_add(
                other.cache_creation_input_tokens,
            ),
            cache_read_input_tokens: self.cache_read_input_tokens.saturating_add(other.cache_read_input_tokens),
        }
    }

    pub fn add(&self, other: &Usage) -> (u: Usage)
        ensures
            u == self.sum(*other),
    {
        Usage {
            input_tokens: self.input_tokens.saturating_add(other.input_tokens),
            output_tokens: self.output_tokens.saturating_add(other.output_tokens),
            total_tokens: self.total_tokens.saturating_add(other.total_tokens),
            reasoning_tokens: self.reasoning_tokens.saturating_add(other.reasoning_tokens),
            cache_creation_input_tokens: self.cache_creation_input_tokens.saturating_add(
                other.cache_creation_input_tokens,
            ),
            cache_read_input_tokens: self.cache_read_input_tokens.saturating_add(other.cache_read_input_tokens),
        }
    }
}

fn clone_specific(entries: &Vec<(String, Json)>) -> (r: Vec<(String, Json)>)
    ensures
        r@.len() == entries@.len(),
        forall|i: int| 0 <= i < r@.len() ==> (#[trigger] r@[i]).0@ == entries@[i].0@ && r@[i].1@ == entries@[i].1@,
{
    let mut r: Vec<(String, Json)> = Vec::new();
    let mut i: usize = 0;
    while i < entries.len()
        invariant
            i <= entries@.len(),
            r@.len() == i,
            forall|k: int| 0 <= k < i ==> (#[trigger] r@[k]).0@ == entries@[k].0@ && r@[k].1@ == entries@[k].1@,
        decreases entries@.len() - i,
    {
        r.push((entries[i].0.clone(), entries[i].1.clone()));
        i = i + 1;
    }
    r
}

proof fn lemma_specific_map_same(a: Seq<(String, Json)>, b: Seq<(String, Json)>)
    requires
        a.len() == b.len(),
        forall|i: int| 0 <= i < a.len() ==> (#[trigger] a[i]).0@ == b[i].0@ && a[i].1@ == b[i].1@,
    ensures
        specific_map(a) == specific_map(b),
        keys_distinct(a) == keys_distinct(b),
    decreases a.len(),
{
    if a.len() > 0 {
        assert forall|i: int| 0 <= i < a.len() - 1 implies (#[trigger] a.drop_last()[i]).0@ == b.drop_last()[i].0@
            && a.drop_last()[i].1@ == b.drop_last()[i].1@ by {
            assert(a[i].0@ == b[i].0@);
        }
        lemma_specific_map_same(a.drop_last(), b.drop_last());
    }
    if keys_distinct(a) {
        assert forall|i: int, j: int| 0 <= i < j < b.len() implies #[trigger] b[i].0@ != #[trigger] b[j].0@ by {
            assert(a[i].0@ != a[j].0@);
        }
    }
    if keys_distinct(b) {
        assert forall|i: int, j: int| 0 <= i < j < a.len() implies #[trigger] a[i].0@ != #[trigger] a[j].0@ by {
            assert(b[i].0@ != b[j].0@);
        }
    }
}

impl Clone for Metadata {
    fn clone(&self) -> (m: Self)
        ensures
            m@ == self@,
            m.well_formed() == self.well_formed(),
    {
        let specific = clone_specific(&self.specific);
        proof {
            lemma_specific_map_same(specific@, self.specific@);
        }
        Metadata {
            id: crate::tools::clone_opt_string(&self.id),
            model_slug: crate::tools::clone_opt_string(&self.model_slug),
            system_fingerprint: crate::tools::clone_opt_string(&self.system_fingerprint),
            usage: self.usage.clone(),
            duration_ms: self.duration_ms,
            specific,
            created_at: self.created_at,
        }
    }
}

pub open spec fn later<T>(earlier: Option<T>, newer: Option<T>) -> Option<T> {
    match newer {
        Some(x) => Some(x),
        None => earlier,
    }
}

impl MetadataView {
    /// An earlier report extended by a later one: the later identity fields
    /// where it has them, token counts added, and its provider-specific
    /// entries set over the earlier ones.
    pub open spec fn extended(self, other: MetadataView) -> MetadataView {
        MetadataView {
            id: later(self.id, other.id),
            model_slug: later(self.model_slug, other.model_slug),
            system_fingerprint: later(self.system_fingerprint, other.system_fingerprint),
            usage: self.usage.sum(other.usage),
            duration_ms: later(self.duration_ms, other.duration_ms),
            specific: self.specific.union_prefer_right(other.specific),
            created_at: later(self.created_at, other.created_at),
        }
    }
}

fn later_string(earlier: Option<String>, newer: &Option<String>) -> (r: Option<String>)
    ensures
        opt_str(r) == later(opt_str(earlier), opt_str(*newer)),
{
    match newer {
        Some(x) => Some(x.clone()),
        None => earlier,
    }
}

impl Metadata {
    /// Folds a later report into this one.
    pub fn extend(&mut self, other: &Metadata)
        requires
            old(self).well_formed(),
        ensures
            final(self).well_formed(),
            final(self)@ == old(self)@.extended(other@),
    {
        let ghost start = self@;
        self.id = later_string(self.id.take(), &other.id);
        self.model_slug = later_string(self.model_slug.take(), &other.model_slug);
        self.system_fingerprint = later_string(self.system_fingerprint.take(), &other.system_fingerprint);
        self.usage = self.usage.add(&other.usage);
        self.duration_ms = match other.duration_ms {
            Some(d) => Some(d),
            None => self.duration_ms,
        };
        self.created_at = match other.created_at {
            Some(c) => Some(c),
            None => self.created_at,
        };
        let ghost base = self.specific_view();
        assert(base == start.specific);
        let mut i: usize = 0;
        while i < other.specific.len()
            invariant
                i <= other.specific@.len(),
                self.well_formed(),
                self.specific_view() == base.union_prefer_right(specific_map(other.specific@.take(i as int))),
                opt_str(self.id) == later(start.id, other@.id),
                opt_str(self.model_slug) == later(start.model_slug, other@.model_slug),
                opt_str(self.system_fingerprint) == later(start.system_fingerprint, other@.system_fingerprint),
                self.usage == start.usage.sum(other.usage),
                self.duration_ms == later(start.duration_ms, other.duration_ms),
                self.created_at == later(start.created_at, other.created_at),
            decreases other.specific@.len() - i,
        {
            let ghost prefix = other.specific@.take(i as int);
            assert(other.specific@.take(i + 1).drop_last() =~= prefix);
            self.insert_specific(other.specific[i].0.clone(), other.specific[i].1.clone());
            assert(self.specific_view() =~= base.union_prefer_right(specific_map(other.specific@.take(i + 1))));
            i = i + 1;
        }
        assert(other.specific@.take(other.specific@.len() as int) =~= other.specific@);
        assert(self@ =~= start.extended(other@));
    }
}


/// Extending a report with an empty one changes nothing, and extending an
/// empty report with one gives that report.
pub proof fn lemma_extended_identity(m: MetadataView)
    ensures
        m.extended(MetadataView::empty()) == m,
        MetadataView::empty().extended(m) == m,
{
    assert(m.specific.union_prefer_right(Map::<Seq<char>, JsonView>::empty()) =~= m.specific);
    assert(Map::<Seq<char>, JsonView>::empty().union_prefer_right(m.specific) =~= m.specific);
    assert(m.usage.sum(Usage::zero()) == m.usage);
    assert(Usage::zero().sum(m.usage) == m.usage);
}

} // verus!
