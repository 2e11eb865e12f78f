use vstd::prelude::*;

verus! {

broadcast use vstd::std_specs::vec::axiom_vec_index_decreases;

/// A YAML node as the schema reads it. Floats keep the text they were written with.
#[derive(Debug, PartialEq)]
pub enum Yaml {
    Null,
    Bool(bool),
    Int(i128),
    Float(String),
    Str(String),
    List(Vec<Yaml>),
    Mapping(Vec<YamlEntry>),
}

/// One `key: value` pair of a mapping node, in document order.
#[derive(Debug, PartialEq)]
pub struct YamlEntry {
    pub key: Yaml,
    pub value: Yaml,
}

/// Why a node could not be read as the schema type that was asked for.
#[derive(Debug, PartialEq)]
pub enum ParseError {
    /// The text is not well-formed YAML.
    Syntax(String),
    /// A strict record received a key that it does not know.
    UnknownField(String),
    /// A value has none of the shapes that its field permits.
    TypeMismatch(String),
    /// A key that is neither a known field nor an `x-` extension.
    ExtensionKey(String),
    /// A record lacks a field that it requires.
    MissingField(String),
    /// No document shape matched; the error of each attempt, in order.
    NoMatchingVariant(Vec<ParseError>),
}

/// Two nodes hold the same data.
pub open spec fn same(a: Yaml, b: Yaml) -> bool
    decreases a,
{
    match a {
        Yaml::Null => b is Null,
        Yaml::Bool(x) => b == Yaml::Bool(x),
        Yaml::Int(x) => b == Yaml::Int(x),
        Yaml::Float(x) => b is Float && b->Float_0@ == x@,
        Yaml::Str(x) => b is Str && b->Str_0@ == x@,
        Yaml::List(xs) => b is List && xs@.len() == b->List_0@.len() && forall|i: int|
            0 <= i < xs@.len() ==> same(#[trigger] xs@[i], b->List_0@[i]),
        Yaml::Mapping(xs) => b is Mapping && xs@.len() == b->Mapping_0@.len() && forall|i: int|
            0 <= i < xs@.len() ==> same(#[trigger] xs@[i].key, b->Mapping_0@[i].key) && same(
                xs@[i].value,
                b->Mapping_0@[i].value,
            ),
    }
}

pub proof fn lemma_same_sym(a: Yaml, b: Yaml)
    requires
        same(a, b),
    ensures
        same(b, a),
    decreases a,
{
    match a {
        Yaml::List(xs) => {
            let ys = b->List_0;
            assert forall|i: int| 0 <= i < ys@.len() implies same(#[trigger] ys@[i], xs@[i]) by {
                assert(decreases_to!(a => a->List_0));
                assert(decreases_to!(xs => xs@));
                assert(decreases_to!(xs@ => xs@[i]));
                lemma_same_sym(xs@[i], ys@[i]);
            }
        },
        Yaml::Mapping(xs) => {
            let ys = b->Mapping_0;
            assert forall|i: int| 0 <= i < ys@.len() implies same(#[trigger] ys@[i].key, xs@[i].key)
                && same(ys@[i].value, xs@[i].value) by {
                assert(decreases_to!(a => a->Mapping_0));
                assert(decreases_to!(xs => xs@));
                assert(decreases_to!(xs@ => xs@[i]));
                assert(decreases_to!(xs@[i] => xs@[i].key));
                assert(decreases_to!(xs@[i] => xs@[i].value));
                lemma_same_sym(xs@[i].key, ys@[i].key);
                lemma_same_sym(xs@[i].value, ys@[i].value);
            }
        },
        _ => {},
    }
}

pub proof fn lemma_same_trans(a: Yaml, b: Yaml, c: Yaml)
    requires
        same(a, b),
        same(b, c),
    ensures
        same(a, c),
    decreases a,
{
    match a {
        Yaml::List(xs) => {
            let ys = b->List_0;
            let zs = c->List_0;
            assert forall|i: int| 0 <= i < xs@.len() implies same(#[trigger] xs@[i], zs@[i]) by {
                assert(decreases_to!(a => a->List_0));
                assert(decreases_to!(xs => xs@));
                assert(decreases_to!(xs@ => xs@[i]));
                assert(same(xs@[i], ys@[i]));
                assert(same(ys@[i], zs@[i]));
                lemma_same_trans(xs@[i], ys@[i], zs@[i]);
            }
        },
        Yaml::Mapping(xs) => {
            let ys = b->Mapping_0;
            let zs = c->Mapping_0;
            assert forall|i: int| 0 <= i < xs@.len() implies same(#[trigger] xs@[i].key, zs@[i].key)
                && same(xs@[i].value, zs@[i].value) by {
                assert(decreases_to!(a => a->Mapping_0));
                assert(decreases_to!(xs => xs@));
                assert(decreases_to!(xs@ => xs@[i]));
                assert(decreases_to!(xs@[i] => xs@[i].key));
                assert(decreases_to!(xs@[i] => xs@[i].value));
                assert(same(xs@[i].key, ys@[i].key) && same(xs@[i].value, ys@[i].value));
                assert(same(ys@[i].key, zs@[i].key) && same(ys@[i].value, zs@[i].value));
                lemma_same_trans(xs@[i].key, ys@[i].key, zs@[i].key);
                lemma_same_trans(xs@[i].value, ys@[i].value, zs@[i].value);
            }
        },
        _ => {},
    }
}

impl Clone for Yaml {
    fn clone(&self) -> (r: Self)
        ensures
            same(*self, r),
    {
        self.deep_clone()
    }
}

impl Clone for YamlEntry {
    fn clone(&self) -> (r: Self)
        ensures
            same(self.key, r.key),
            same(self.value, r.value),
    {
        YamlEntry { key: self.key.deep_clone(), value: self.value.deep_clone() }
    }
}

impl Yaml {
    /// A copy of the node, entry for entry.
    pub fn deep_clone(&self) -> (r: Yaml)
        ensures
            same(*self, r),
            same(r, *self),
        decreases self,
    {
        match self {
            Yaml::Null => Yaml::Null,
            Yaml::Bool(b) => Yaml::Bool(*b),
            Yaml::Int(i) => Yaml::Int(*i),
            Yaml::Float(s) => Yaml::Float(s.clone()),
            Yaml::Str(s) => Yaml::Str(s.clone()),
            Yaml::List(xs) => {
                let mut out: Vec<Yaml> = Vec::new();
                let mut i: usize = 0;
                while i < xs.len()
                    invariant
                        *self == Yaml::List(*xs),
                        i <= xs@.len(),
                        out@.len() == i,
                        forall|j: int| 0 <= j < i ==> same(#[trigger] xs@[j], out@[j]),
                        forall|j: int| 0 <= j < i ==> same(#[trigger] out@[j], xs@[j]),
                    decreases xs@.len() - i,
                {
                    proof {
                        let g = *self;
                        assert(decreases_to!(g => g->List_0));
                        assert(decreases_to!(*xs => xs@));
                        assert(decreases_to!(xs@ => xs@[i as int]));
                    }
                    let c = xs[i].deep_clone();
                    out.push(c);
                    i = i + 1;
                }
                Yaml::List(out)
            },
            Yaml::Mapping(xs) => {
                let mut out: Vec<YamlEntry> = Vec::new();
                let mut i: usize = 0;
                while i < xs.len()
                    invariant
                        *self == Yaml::Mapping(*xs),
                        i <= xs@.len(),
                        out@.len() == i,
                        forall|j: int|
                            0 <= j < i ==> same(#[trigger] xs@[j].key, out@[j].key) && same(
                                xs@[j].value,
                                out@[j].value,
                            ),
                        forall|j: int|
                            0 <= j < i ==> same(#[trigger] out@[j].key, xs@[j].key) && same(
                                out@[j].value,
                                xs@[j].value,
                            ),
                    decreases xs@.len() - i,
                {
                    proof {
                        let g = *self;
                        assert(decreases_to!(g => g->Mapping_0));
                        assert(decreases_to!(*xs => xs@));
                        assert(decreases_to!(xs@ => xs@[i as int]));
                        assert(decreases_to!(xs@[i as int] => xs@[i as int].key));
                        assert(decreases_to!(xs@[i as int] => xs@[i as int].value));
                    }
                    let k = xs[i].key.deep_clone();
                    let v = xs[i].value.deep_clone();
                    out.push(YamlEntry { key: k, value: v });
                    i = i + 1;
                }
                Yaml::Mapping(out)
            },
        }
    }
}

} // verus!
