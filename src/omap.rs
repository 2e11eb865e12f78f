use vstd::prelude::*;
use crate::node::{
    check_distinct, distinct_keys, emit, is_ext, key_allowed, key_is, keys_allowed, lemma_lookup_push, lookup,
    mismatch, opt_equiv, starts_with_x, str_eq, Defaulted, KeyPolicy, Node, Record,
};
use crate::yaml::{lemma_same_sym, lemma_same_trans, same, ParseError, Yaml, YamlEntry};

verus! {

/// An associative container keyed by strings that keeps the order of insertion.
#[derive(Clone, Debug, PartialEq)]
pub struct OrderedMap<V> {
    pub entries: Vec<(String, V)>,
}

impl<V> OrderedMap<V> {
    /// No key occurs twice.
    pub open spec fn wf(&self) -> bool {
        forall|i: int, j: int|
            0 <= i < j < self.entries@.len() ==> #[trigger] self.entries@[i].0@
                != #[trigger] self.entries@[j].0@
    }

    pub open spec fn has(&self, k: Seq<char>) -> bool {
        exists|i: int| 0 <= i < self.entries@.len() && #[trigger] self.entries@[i].0@ == k
    }

    pub fn new() -> (r: Self)
        ensures
            r.entries@.len() == 0,
            r.wf(),
    {
        OrderedMap { entries: Vec::new() }
    }

    pub fn len(&self) -> (r: usize)
        ensures
            r == self.entries@.len(),
    {
        self.entries.len()
    }

    pub fn is_empty(&self) -> (r: bool)
        ensures
            r == (self.entries@.len() == 0),
    {
        self.entries.len() == 0
    }

    /// The value stored under `k`.
    pub fn get(&self, k: &str) -> (r: Option<&V>)
        ensures
            r is None ==> !self.has(k@),
            r matches Some(v) ==> exists|i: int|
                0 <= i < self.entries@.len() && #[trigger] self.entries@[i].0@ == k@
                    && self.entries@[i].1 == *v,
    {
        let mut i: usize = 0;
        while i < self.entries.len()
            invariant
                i <= self.entries@.len(),
                forall|j: int| 0 <= j < i ==> #[trigger] self.entries@[j].0@ != k@,
            decreases self.entries@.len() - i,
        {
            if str_eq(self.entries[i].0.as_str(), k) {
                return Some(&self.entries[i].1);
            }
            i = i + 1;
        }
        None
    }

    /// Stores `v` under `k`: in place where `k` is present, else at the end.
    pub fn insert(&mut self, k: String, v: V)
        requires
            old(self).wf(),
        ensures
            final(self).wf(),
            old(self).has(k@) ==> final(self).entries@.len() == old(self).entries@.len(),
            !old(self).has(k@) ==> final(self).entries@ == old(self).entries@.push((k, v)),
            forall|i: int|
                0 <= i < final(self).entries@.len() ==> #[trigger] final(self).entries@[i].0@ == (
                if i < old(self).entries@.len() {
                    old(self).entries@[i].0@
                } else {
                    k@
                }),
            forall|i: int|
                0 <= i < final(self).entries@.len() ==> (#[trigger] final(self).entries@[i]).1 == (
                if i < old(self).entries@.len() && old(self).entries@[i].0@ != k@ {
                    old(self).entries@[i].1
                } else {
                    v
                }),
    {
        let mut i: usize = 0;
        while i < self.entries.len()
            invariant
                self.wf(),
                self.entries@ == old(self).entries@,
                i <= self.entries@.len(),
                forall|j: int| 0 <= j < i ==> #[trigger] self.entries@[j].0@ != k@,
            decreases self.entries@.len() - i,
        {
            if str_eq(self.entries[i].0.as_str(), k.as_str()) {
                self.entries.set(i, (k, v));
                return;
            }
            i = i + 1;
        }
        self.entries.push((k, v));
    }
}

impl<V: Node> Node for OrderedMap<V> {
    /// The same keys in the same order, with values that hold the same data.
    open spec fn equiv(&self, o: Self) -> bool {
        &&& self.entries@.len() == o.entries@.len()
        &&& forall|i: int|
            0 <= i < self.entries@.len() ==> (#[trigger] self.entries@[i]).0@ == o.entries@[i].0@
                && self.entries@[i].1.equiv(o.entries@[i].1)
    }

    proof fn lemma_unique(a: Self, b: Self, y: Yaml) {
        assert(a.matches(y) && b.matches(y));
        let es = y->Mapping_0@;
        assert forall|i: int| 0 <= i < a.entries@.len() implies (#[trigger] a.entries@[i]).0@
            == b.entries@[i].0@ && a.entries@[i].1.equiv(b.entries@[i].1) by {
            assert(key_is(es[i], a.entries@[i].0@) && key_is(es[i], b.entries@[i].0@));
            V::lemma_unique(a.entries@[i].1, b.entries@[i].1, es[i].value);
        }
    }

    /// The entries of the mapping, in order, with string keys.
    open spec fn matches(&self, y: Yaml) -> bool {
        &&& y is Mapping
        &&& distinct_keys(y->Mapping_0@)
        &&& y->Mapping_0@.len() == self.entries@.len()
        &&& forall|i: int|
            0 <= i < self.entries@.len() ==> key_is(
                y->Mapping_0@[i],
                (#[trigger] self.entries@[i]).0@,
            ) && self.entries@[i].1.matches(y->Mapping_0@[i].value)
    }

    open spec fn canonical(&self) -> bool {
        self.wf() && forall|i: int|
            0 <= i < self.entries@.len() ==> (#[trigger] self.entries@[i]).1.canonical()
    }

    fn from_yaml(y: &Yaml) -> (r: Result<Self, ParseError>) {
        match y {
            Yaml::Mapping(es) => {
                check_distinct(es)?;
                let mut out: Vec<(String, V)> = Vec::new();
                let mut i: usize = 0;
                while i < es.len()
                    invariant
                        *y == Yaml::Mapping(*es),
                        i <= es@.len(),
                        out@.len() == i,
                        forall|j: int|
                            0 <= j < i ==> key_is(es@[j], (#[trigger] out@[j]).0@)
                                && out@[j].1.matches(es@[j].value),
                    decreases es@.len() - i,
                {
                    let k = match &es[i].key {
                        Yaml::Str(k) => k.clone(),
                        _ => {
                            assert forall|t: Self| !#[trigger] t.matches(*y) by {
                                if t.matches(*y) {
                                    assert(key_is(es@[i as int], t.entries@[i as int].0@));
                                }
                            }
                            return Err(mismatch("a mapping with string keys"));
                        },
                    };
                    match V::from_yaml(&es[i].value) {
                        Ok(v) => out.push((k, v)),
                        Err(e) => {
                            assert forall|t: Self| !#[trigger] t.matches(*y) by {
                                if t.matches(*y) {
                                    assert(t.entries@[i as int].1.matches(es@[i as int].value));
                                }
                            }
                            return Err(e);
                        },
                    }
                    i = i + 1;
                }
                Ok(OrderedMap { entries: out })
            },
            _ => Err(mismatch("a mapping")),
        }
    }

    fn to_yaml(&self) -> (r: Yaml) {
        let mut out: Vec<YamlEntry> = Vec::new();
        let mut i: usize = 0;
        while i < self.entries.len()
            invariant
                i <= self.entries@.len(),
                out@.len() == i,
                forall|j: int|
                    0 <= j < i ==> key_is(#[trigger] out@[j], self.entries@[j].0@),
                self.canonical() ==> forall|j: int|
                    0 <= j < i ==> (#[trigger] self.entries@[j]).1.matches(out@[j].value),
            decreases self.entries@.len() - i,
        {
            let k = Yaml::Str(self.entries[i].0.clone());
            let v = self.entries[i].1.to_yaml();
            out.push(YamlEntry { key: k, value: v });
            i = i + 1;
        }
        assert(self.canonical() ==> distinct_keys(out@)) by {
            if self.canonical() {
                assert forall|a: int, b: int|
                    0 <= a < b < out@.len() && #[trigger] out@[a].key is Str implies !key_is(
                        #[trigger] out@[b],
                        out@[a].key->Str_0@,
                    ) by {
                    assert(key_is(out@[a], self.entries@[a].0@));
                    assert(key_is(out@[b], self.entries@[b].0@));
                    assert(self.entries@[a].0@ != self.entries@[b].0@);
                }
            }
        }
        Yaml::Mapping(out)
    }
}

impl<V: Node> Defaulted for OrderedMap<V> {
    proof fn lemma_default_unique(a: Self, b: Self) {
        assert(a.is_default() && b.is_default());
    }

    open spec fn is_default(&self) -> bool {
        self.entries@.len() == 0
    }

    open spec fn empty(&self) -> bool {
        self.entries@.len() == 0
    }

    fn default_value() -> (r: Self) {
        OrderedMap::new()
    }

    fn is_empty(&self) -> (r: bool)
        ensures
            r == (self.entries@.len() == 0),
    {
        self.entries.len() == 0
    }
}

impl<T: Node> Node for Option<T> {
    open spec fn equiv(&self, o: Self) -> bool {
        opt_equiv(*self, o)
    }

    proof fn lemma_unique(a: Self, b: Self, y: Yaml) {
        assert(a.matches(y) && b.matches(y));
        if a is Some && b is Some {
            T::lemma_unique(a->0, b->0, y);
        }
    }

    /// Null reads as `None`, anything else as a value.
    open spec fn matches(&self, y: Yaml) -> bool {
        if y is Null {
            self is None
        } else {
            self is Some && self->0.matches(y)
        }
    }

    /// A value that writes as null would read back as `None`.
    open spec fn canonical(&self) -> bool {
        match self {
            None => true,
            Some(t) => t.canonical() && !t.matches(Yaml::Null),
        }
    }

    fn from_yaml(y: &Yaml) -> (r: Result<Self, ParseError>) {
        match y {
            Yaml::Null => Ok(None),
            _ => {
                let t = T::from_yaml(y)?;
                Ok(Some(t))
            },
        }
    }

    fn to_yaml(&self) -> (r: Yaml) {
        match self {
            None => Yaml::Null,
            Some(t) => t.to_yaml(),
        }
    }
}

/// The `x-` entries of a mapping, in order.
pub open spec fn ext_entries(es: Seq<YamlEntry>) -> Seq<YamlEntry>
    decreases es.len(),
{
    if es.len() == 0 {
        Seq::empty()
    } else {
        let rest = ext_entries(es.drop_last());
        if es.last().key is Str && is_ext(es.last().key->Str_0@) {
            rest.push(es.last())
        } else {
            rest
        }
    }
}

pub broadcast proof fn lemma_ext_emit(s: Seq<YamlEntry>, k: String, v: Option<Yaml>)
    requires
        !is_ext(k@),
    ensures
        #[trigger] ext_entries(emit(s, k, v)) == ext_entries(s),
{
    if v is Some {
        assert(emit(s, k, v).drop_last() == s);
    }
}

pub broadcast group group_ext {
    lemma_ext_emit,
}

/// Every key of `m` starts with `x-`.
pub open spec fn ext_keys(m: OrderedMap<Yaml>) -> bool {
    forall|i: int| 0 <= i < m.entries@.len() ==> is_ext(#[trigger] m.entries@[i].0@)
}

/// `m` holds the `x-` entries of `es`, in order.
pub open spec fn ext_matches(m: OrderedMap<Yaml>, es: Seq<YamlEntry>) -> bool {
    let xs = ext_entries(es);
    &&& m.entries@.len() == xs.len()
    &&& forall|i: int|
        0 <= i < xs.len() ==> key_is(xs[i], (#[trigger] m.entries@[i]).0@) && same(
            xs[i].value,
            m.entries@[i].1,
        )
}

pub proof fn lemma_ext_unique(a: OrderedMap<Yaml>, b: OrderedMap<Yaml>, es: Seq<YamlEntry>)
    requires
        ext_matches(a, es),
        ext_matches(b, es),
    ensures
        a.equiv(b),
{
    let xs = ext_entries(es);
    assert forall|i: int| 0 <= i < a.entries@.len() implies (#[trigger] a.entries@[i]).0@
        == b.entries@[i].0@ && a.entries@[i].1.equiv(b.entries@[i].1) by {
        assert(key_is(xs[i], a.entries@[i].0@) && key_is(xs[i], b.entries@[i].0@));
        assert(same(xs[i].value, a.entries@[i].1) && same(xs[i].value, b.entries@[i].1));
        lemma_same_sym(xs[i].value, a.entries@[i].1);
        lemma_same_trans(a.entries@[i].1, xs[i].value, b.entries@[i].1);
    }
}

/// Collects the `x-` entries of a record's mapping.
pub fn extensions_of(es: &Vec<YamlEntry>) -> (r: OrderedMap<Yaml>)
    ensures
        ext_matches(r, es@),
{
    let mut out: Vec<(String, Yaml)> = Vec::new();
    let mut i: usize = 0;
    while i < es.len()
        invariant
            i <= es@.len(),
            ext_matches(OrderedMap { entries: out }, es@.subrange(0, i as int)),
        decreases es@.len() - i,
    {
        assert(es@.subrange(0, i + 1).drop_last() =~= es@.subrange(0, i as int));
        if let Yaml::Str(k) = &es[i].key {
            if starts_with_x(k.as_str()) {
                let v = es[i].value.deep_clone();
                out.push((k.clone(), v));
            }
        }
        i = i + 1;
    }
    assert(es@.subrange(0, es@.len() as int) =~= es@);
    OrderedMap { entries: out }
}

/// No entry of `es` is an `x-` entry.
pub proof fn lemma_no_ext(es: Seq<YamlEntry>)
    requires
        ext_entries(es).len() == 0,
    ensures
        forall|i: int|
            0 <= i < es.len() ==> !((#[trigger] es[i]).key is Str && is_ext(es[i].key->Str_0@)),
    decreases es.len(),
{
    if es.len() > 0 {
        lemma_no_ext(es.drop_last());
        assert forall|i: int|
            0 <= i < es.len() implies !((#[trigger] es[i]).key is Str && is_ext(
                es[i].key->Str_0@,
            )) by {
            if i < es.len() - 1 {
                assert(es[i] == es.drop_last()[i]);
            }
        }
    }
}

/// Appends the extension entries to a mapping being written, after its fields.
pub fn put_extensions<R: Record>(out: &mut Vec<YamlEntry>, m: &OrderedMap<Yaml>)
    ensures
        final(out)@.len() == old(out)@.len() + m.entries@.len(),
        ext_keys(*m) ==> forall|k: Seq<char>|
            !is_ext(k) ==> #[trigger] lookup(final(out)@, k) == lookup(old(out)@, k),
        ext_entries(old(out)@).len() == 0 && m.wf() && (forall|i: int|
            0 <= i < m.entries@.len() ==> is_ext(#[trigger] m.entries@[i].0@)) ==> {
            &&& ext_matches(*m, final(out)@)
            &&& forall|k: Seq<char>|
                !is_ext(k) ==> #[trigger] lookup(final(out)@, k) == lookup(old(out)@, k)
            &&& distinct_keys(old(out)@) ==> distinct_keys(final(out)@)
            &&& keys_allowed::<R>(old(out)@, KeyPolicy::Extensions) ==> keys_allowed::<R>(
                final(out)@,
                KeyPolicy::Extensions,
            )
        },
{
    let ghost start = out@;
    let ghost n0 = out@.len();
    let ghost pre = ext_entries(start).len() == 0 && m.wf() && (forall|i: int|
        0 <= i < m.entries@.len() ==> is_ext(#[trigger] m.entries@[i].0@));
    proof {
        if pre {
            lemma_no_ext(start);
        }
    }
    let mut i: usize = 0;
    while i < m.entries.len()
        invariant
            n0 == start.len(),
            pre == (ext_entries(start).len() == 0 && m.wf() && (forall|j: int|
                0 <= j < m.entries@.len() ==> is_ext(#[trigger] m.entries@[j].0@))),
            pre ==> forall|j: int|
                0 <= j < n0 ==> !((#[trigger] start[j]).key is Str && is_ext(start[j].key->Str_0@)),
            i <= m.entries@.len(),
            out@.len() == n0 + i,
            out@.subrange(0, n0 as int) == start,
            forall|j: int|
                0 <= j < i ==> key_is(#[trigger] out@[n0 + j], m.entries@[j].0@),
            pre ==> ext_entries(out@).len() == i,
            pre ==> forall|j: int|
                0 <= j < i ==> key_is(#[trigger] ext_entries(out@)[j], m.entries@[j].0@) && same(
                    ext_entries(out@)[j].value,
                    m.entries@[j].1,
                ),
            ext_keys(*m) ==> forall|k: Seq<char>| !is_ext(k) ==> #[trigger] lookup(out@, k) == lookup(
                start,
                k,
            ),
            pre ==> (distinct_keys(start) ==> distinct_keys(out@)),
            pre ==> (keys_allowed::<R>(start, KeyPolicy::Extensions) ==> keys_allowed::<R>(
                out@,
                KeyPolicy::Extensions,
            )),
        decreases m.entries@.len() - i,
    {
        let ghost before = out@;
        let k = Yaml::Str(m.entries[i].0.clone());
        let v = m.entries[i].1.deep_clone();
        let e = YamlEntry { key: k, value: v };
        out.push(e);
        proof {
            assert(out@.drop_last() == before);
            assert(out@.subrange(0, n0 as int) =~= start);
            if ext_keys(*m) {
                assert forall|k: Seq<char>| !is_ext(k) implies #[trigger] lookup(out@, k) == lookup(
                    start,
                    k,
                ) by {
                    lemma_lookup_push(before, e, k);
                }
            }
            if pre {
                assert(ext_entries(out@) == ext_entries(before).push(e));
                if distinct_keys(start) {
                    assert forall|a: int, b: int|
                        0 <= a < b < out@.len() && #[trigger] out@[a].key is Str implies !key_is(
                            #[trigger] out@[b],
                            out@[a].key->Str_0@,
                        ) by {
                        if b == out@.len() - 1 {
                            if a < n0 {
                                assert(out@[a] == start[a]);
                            } else {
                                assert(key_is(out@[n0 + (a - n0)], m.entries@[a - n0].0@));
                            }
                        } else {
                            assert(out@[a] == before[a] && out@[b] == before[b]);
                        }
                    }
                }
                if keys_allowed::<R>(start, KeyPolicy::Extensions) {
                    assert forall|j: int| 0 <= j < out@.len() implies (#[trigger] out@[j]).key is Str
                        && key_allowed::<R>(out@[j].key->Str_0@, KeyPolicy::Extensions) by {
                        if j < out@.len() - 1 {
                            assert(out@[j] == before[j]);
                        }
                    }
                }
            }
        }
        i = i + 1;
    }
}

} // verus!
