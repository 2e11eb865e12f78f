use vstd::prelude::*;
use crate::yaml::{lemma_same_sym, lemma_same_trans, same, ParseError, Yaml, YamlEntry};

verus! {

/// A schema type that is read from a YAML node.
pub trait Node: Sized {
    /// `self` is the value that reading `y` yields.
    spec fn matches(&self, y: Yaml) -> bool;

    /// Reads `y`; fails exactly when no value corresponds to it.
    fn from_yaml(y: &Yaml) -> (r: Result<Self, ParseError>)
        ensures
            r matches Ok(t) ==> t.matches(*y),
            r is Err ==> forall|t: Self| !#[trigger] t.matches(*y),
    ;

    /// `self` and `o` hold the same data.
    spec fn equiv(&self, o: Self) -> bool;

    /// Reading is a function: two values that read one node hold the same data.
    proof fn lemma_unique(a: Self, b: Self, y: Yaml)
        requires
            a.matches(y),
            b.matches(y),
        ensures
            a.equiv(b),
    ;

    /// The value is one that writing and reading back keeps.
    spec fn canonical(&self) -> bool;

    /// Writes the value as a node; a canonical value reads back from it.
    fn to_yaml(&self) -> (r: Yaml)
        ensures
            self.canonical() ==> self.matches(r),
    ;
}

/// A schema type whose field may be left out, standing then for its default.
pub trait Defaulted: Node {
    spec fn is_default(&self) -> bool;

    /// Writing the value out omits it.
    spec fn empty(&self) -> bool;

    fn default_value() -> (r: Self)
        ensures
            r.is_default(),
    ;

    /// Any two defaults hold the same data.
    proof fn lemma_default_unique(a: Self, b: Self)
        requires
            a.is_default(),
            b.is_default(),
        ensures
            a.equiv(b),
    ;

    /// Whether writing the value out omits it.
    fn is_empty(&self) -> (r: bool)
        ensures
            r == self.empty(),
            self.is_default() ==> r,
    ;
}

/// What a record does with a key that names none of its fields.
#[derive(Clone, Copy, Debug, PartialEq, Eq)]
pub enum KeyPolicy {
    /// The key is an error.
    Strict,
    /// The key is kept as a vendor extension when it starts with `x-`, else an error.
    Extensions,
    /// The key is ignored.
    Lenient,
}

/// A record read from a mapping: which keys name its fields.
pub trait Record {
    spec fn is_field(k: Seq<char>) -> bool;

    fn field(k: &str) -> (r: bool)
        ensures
            r == Self::is_field(k@),
    ;
}

pub open spec fn is_ext(k: Seq<char>) -> bool {
    k.len() >= 2 && k[0] == 'x' && k[1] == '-'
}

/// A field that is missing or written as null.
pub open spec fn absent(n: Option<Yaml>) -> bool {
    n is None || n == Some(Yaml::Null)
}

pub open spec fn key_is(e: YamlEntry, k: Seq<char>) -> bool {
    e.key is Str && e.key->Str_0@ == k
}

/// The value under key `k`, the first entry that has it.
pub open spec fn lookup(es: Seq<YamlEntry>, k: Seq<char>) -> Option<Yaml>
    decreases es.len(),
{
    if es.len() == 0 {
        None
    } else if key_is(es[0], k) {
        Some(es[0].value)
    } else {
        lookup(es.drop_first(), k)
    }
}

/// No two entries carry the same string key.
pub open spec fn distinct_keys(es: Seq<YamlEntry>) -> bool {
    forall|i: int, j: int|
        0 <= i < j < es.len() && #[trigger] es[i].key is Str ==> !key_is(
            #[trigger] es[j],
            es[i].key->Str_0@,
        )
}

/// A key that `policy` lets stand in a record of `R`.
pub open spec fn key_allowed<R: Record>(k: Seq<char>, policy: KeyPolicy) -> bool {
    R::is_field(k) || policy is Lenient || (policy is Extensions && is_ext(k))
}

/// Every key of `es` is a string.
pub open spec fn all_string_keys(es: Seq<YamlEntry>) -> bool {
    forall|i: int| 0 <= i < es.len() ==> (#[trigger] es[i]).key is Str
}

/// Every key of `es` is a string, none occurs twice, and each is allowed.
pub open spec fn keys_ok<R: Record>(es: Seq<YamlEntry>, policy: KeyPolicy) -> bool {
    distinct_keys(es) && keys_allowed::<R>(es, policy)
}

/// Every key of `es` is a string that `policy` lets stand in a record of `R`.
pub open spec fn keys_allowed<R: Record>(es: Seq<YamlEntry>, policy: KeyPolicy) -> bool {
    forall|i: int|
        0 <= i < es.len() ==> (#[trigger] es[i]).key is Str && key_allowed::<R>(
            es[i].key->Str_0@,
            policy,
        )
}

pub fn str_eq(a: &str, b: &str) -> (r: bool)
    ensures
        r == (a@ == b@),
{
    let n = a.unicode_len();
    if n != b.unicode_len() {
        return false;
    }
    let mut i: usize = 0;
    while i < n
        invariant
            n == a@.len(),
            n == b@.len(),
            i <= n,
            forall|j: int| 0 <= j < i ==> a@[j] == b@[j],
        decreases n - i,
    {
        if a.get_char(i) != b.get_char(i) {
            return false;
        }
        i = i + 1;
    }
    assert(a@ =~= b@);
    true
}

/// Whether `s` has the `x-` prefix of a vendor extension.
pub fn starts_with_x(s: &str) -> (r: bool)
    ensures
        r == is_ext(s@),
{
    let n = s.unicode_len();
    if n < 2 {
        return false;
    }
    s.get_char(0) == 'x' && s.get_char(1) == '-'
}

/// The error of a value whose shape is not `what`.
pub fn mismatch(what: &str) -> (r: ParseError)
    ensures
        r matches ParseError::TypeMismatch(m) && m@ == what@,
{
    ParseError::TypeMismatch(what.to_owned())
}

/// The value under key `k` of a mapping's entries.
pub fn get<'a>(es: &'a Vec<YamlEntry>, k: &str) -> (r: Option<&'a Yaml>)
    ensures
        r matches Some(v) ==> lookup(es@, k@) == Some(*v),
        r is None ==> lookup(es@, k@) is None,
{
    let mut i: usize = 0;
    assert(es@.subrange(0, es@.len() as int) =~= es@);
    while i < es.len()
        invariant
            i <= es@.len(),
            lookup(es@, k@) == lookup(es@.subrange(i as int, es@.len() as int), k@),
        decreases es@.len() - i,
    {
        let ghost rest = es@.subrange(i as int, es@.len() as int);
        assert(rest.drop_first() =~= es@.subrange(i + 1, es@.len() as int));
        if let Yaml::Str(s) = &es[i].key {
            if str_eq(s.as_str(), k) {
                return Some(&es[i].value);
            }
        }
        i = i + 1;
    }
    None
}

/// Fails where two entries of `es` carry the same string key.
pub fn check_distinct(es: &Vec<YamlEntry>) -> (r: Result<(), ParseError>)
    ensures
        r is Ok <==> distinct_keys(es@),
{
    let mut j: usize = 0;
    while j < es.len()
        invariant
            j <= es@.len(),
            forall|a: int, b: int|
                0 <= a < b < j && #[trigger] es@[a].key is Str ==> !key_is(
                    #[trigger] es@[b],
                    es@[a].key->Str_0@,
                ),
        decreases es@.len() - j,
    {
        if let Yaml::Str(kj) = &es[j].key {
            let mut i: usize = 0;
            while i < j
                invariant
                    j < es@.len(),
                    i <= j,
                    es@[j as int].key == Yaml::Str(*kj),
                    forall|a: int| 0 <= a < i && #[trigger] es@[a].key is Str ==> !key_is(es@[j as int], es@[a].key->Str_0@),
                decreases j - i,
            {
                if let Yaml::Str(ki) = &es[i].key {
                    if str_eq(ki.as_str(), kj.as_str()) {
                        return Err(ParseError::TypeMismatch(kj.clone()));
                    }
                }
                i = i + 1;
            }
        }
        j = j + 1;
    }
    Ok(())
}

/// Checks the keys of a record's mapping against `R` and `policy`.
pub fn check_keys<R: Record>(es: &Vec<YamlEntry>, policy: KeyPolicy) -> (r: Result<
    (),
    ParseError,
>)
    ensures
        r is Ok <==> keys_ok::<R>(es@, policy),
        all_string_keys(es@) && !keys_allowed::<R>(es@, policy) ==> match policy {
            KeyPolicy::Strict => r matches Err(ParseError::UnknownField(k)) && !R::is_field(k@),
            KeyPolicy::Extensions => r matches Err(ParseError::ExtensionKey(k)) && !R::is_field(k@)
                && !is_ext(k@),
            KeyPolicy::Lenient => false,
        },
{
    let mut i: usize = 0;
    while i < es.len()
        invariant
            i <= es@.len(),
            forall|j: int|
                0 <= j < i ==> (#[trigger] es@[j]).key is Str && key_allowed::<R>(
                    es@[j].key->Str_0@,
                    policy,
                ),
        decreases es@.len() - i,
    {
        match &es[i].key {
            Yaml::Str(k) => {
                if !R::field(k.as_str()) {
                    match policy {
                        KeyPolicy::Strict => {
                            return Err(ParseError::UnknownField(k.clone()));
                        },
                        KeyPolicy::Extensions => {
                            if !starts_with_x(k.as_str()) {
                                return Err(ParseError::ExtensionKey(k.clone()));
                            }
                        },
                        KeyPolicy::Lenient => {},
                    }
                }
            },
            _ => {
                return Err(mismatch("a mapping with string keys"));
            },
        }
        i = i + 1;
    }
    check_distinct(es)
}

impl Node for String {
    open spec fn equiv(&self, o: Self) -> bool {
        self@ == o@
    }

    proof fn lemma_unique(a: Self, b: Self, y: Yaml) {
        assert(a.matches(y) && b.matches(y));
    }

    open spec fn canonical(&self) -> bool {
        true
    }

    open spec fn matches(&self, y: Yaml) -> bool {
        y is Str && y->Str_0@ == self@
    }

    fn from_yaml(y: &Yaml) -> (r: Result<Self, ParseError>) {
        match y {
            Yaml::Str(s) => Ok(s.clone()),
            _ => Err(mismatch("a string")),
        }
    }

    fn to_yaml(&self) -> (r: Yaml) {
        Yaml::Str(self.clone())
    }
}

impl Node for bool {
    open spec fn equiv(&self, o: Self) -> bool {
        *self == o
    }

    proof fn lemma_unique(a: Self, b: Self, y: Yaml) {
        assert(a.matches(y) && b.matches(y));
    }

    open spec fn canonical(&self) -> bool {
        true
    }

    open spec fn matches(&self, y: Yaml) -> bool {
        y == Yaml::Bool(*self)
    }

    fn from_yaml(y: &Yaml) -> (r: Result<Self, ParseError>) {
        match y {
            Yaml::Bool(b) => Ok(*b),
            _ => Err(mismatch("a boolean")),
        }
    }

    fn to_yaml(&self) -> (r: Yaml) {
        Yaml::Bool(*self)
    }
}

impl Defaulted for bool {
    proof fn lemma_default_unique(a: Self, b: Self) {
        assert(a.is_default() && b.is_default());
    }

    open spec fn is_default(&self) -> bool {
        !*self
    }

    open spec fn empty(&self) -> bool {
        !*self
    }

    fn default_value() -> (r: Self) {
        false
    }

    fn is_empty(&self) -> (r: bool)
        ensures
            r == !*self,
    {
        !*self
    }
}

impl Node for i64 {
    open spec fn equiv(&self, o: Self) -> bool {
        *self == o
    }

    proof fn lemma_unique(a: Self, b: Self, y: Yaml) {
        assert(a.matches(y) && b.matches(y));
    }

    open spec fn canonical(&self) -> bool {
        true
    }

    open spec fn matches(&self, y: Yaml) -> bool {
        y == Yaml::Int(*self as i128)
    }

    fn from_yaml(y: &Yaml) -> (r: Result<Self, ParseError>) {
        match y {
            Yaml::Int(i) => {
                if i64::MIN as i128 <= *i && *i <= i64::MAX as i128 {
                    Ok(*i as i64)
                } else {
                    Err(mismatch("a 64-bit signed integer"))
                }
            },
            _ => Err(mismatch("an integer")),
        }
    }

    fn to_yaml(&self) -> (r: Yaml) {
        Yaml::Int(*self as i128)
    }
}

impl Defaulted for i64 {
    proof fn lemma_default_unique(a: Self, b: Self) {
        assert(a.is_default() && b.is_default());
    }

    open spec fn is_default(&self) -> bool {
        *self == 0
    }

    open spec fn empty(&self) -> bool {
        *self == 0
    }

    fn default_value() -> (r: Self) {
        0
    }

    fn is_empty(&self) -> (r: bool)
        ensures
            r == (*self == 0),
    {
        *self == 0
    }
}

impl Node for u64 {
    open spec fn equiv(&self, o: Self) -> bool {
        *self == o
    }

    proof fn lemma_unique(a: Self, b: Self, y: Yaml) {
        assert(a.matches(y) && b.matches(y));
    }

    open spec fn canonical(&self) -> bool {
        true
    }

    open spec fn matches(&self, y: Yaml) -> bool {
        y == Yaml::Int(*self as i128)
    }

    fn from_yaml(y: &Yaml) -> (r: Result<Self, ParseError>) {
        match y {
            Yaml::Int(i) => {
                if 0 <= *i && *i <= u64::MAX as i128 {
                    Ok(*i as u64)
                } else {
                    Err(mismatch("a 64-bit unsigned integer"))
                }
            },
            _ => Err(mismatch("an integer")),
        }
    }

    fn to_yaml(&self) -> (r: Yaml) {
        Yaml::Int(*self as i128)
    }
}

impl Node for u32 {
    open spec fn equiv(&self, o: Self) -> bool {
        *self == o
    }

    proof fn lemma_unique(a: Self, b: Self, y: Yaml) {
        assert(a.matches(y) && b.matches(y));
    }

    open spec fn canonical(&self) -> bool {
        true
    }

    open spec fn matches(&self, y: Yaml) -> bool {
        y == Yaml::Int(*self as i128)
    }

    fn from_yaml(y: &Yaml) -> (r: Result<Self, ParseError>) {
        match y {
            Yaml::Int(i) => {
                if 0 <= *i && *i <= u32::MAX as i128 {
                    Ok(*i as u32)
                } else {
                    Err(mismatch("a 32-bit unsigned integer"))
                }
            },
            _ => Err(mismatch("an integer")),
        }
    }

    fn to_yaml(&self) -> (r: Yaml) {
        Yaml::Int(*self as i128)
    }
}

impl Node for u16 {
    open spec fn equiv(&self, o: Self) -> bool {
        *self == o
    }

    proof fn lemma_unique(a: Self, b: Self, y: Yaml) {
        assert(a.matches(y) && b.matches(y));
    }

    open spec fn canonical(&self) -> bool {
        true
    }

    open spec fn matches(&self, y: Yaml) -> bool {
        y == Yaml::Int(*self as i128)
    }

    fn from_yaml(y: &Yaml) -> (r: Result<Self, ParseError>) {
        match y {
            Yaml::Int(i) => {
                if 0 <= *i && *i <= u16::MAX as i128 {
                    Ok(*i as u16)
                } else {
                    Err(mismatch("a 16-bit unsigned integer"))
                }
            },
            _ => Err(mismatch("an integer")),
        }
    }

    fn to_yaml(&self) -> (r: Yaml) {
        Yaml::Int(*self as i128)
    }
}

impl Node for Yaml {
    open spec fn equiv(&self, o: Self) -> bool {
        same(*self, o)
    }

    proof fn lemma_unique(a: Self, b: Self, y: Yaml) {
        assert(a.matches(y) && b.matches(y));
        lemma_same_sym(y, a);
        lemma_same_trans(a, y, b);
    }

    open spec fn matches(&self, y: Yaml) -> bool {
        same(y, *self)
    }

    open spec fn canonical(&self) -> bool {
        true
    }

    fn from_yaml(y: &Yaml) -> (r: Result<Self, ParseError>) {
        Ok(y.deep_clone())
    }

    fn to_yaml(&self) -> (r: Yaml) {
        self.deep_clone()
    }
}

impl<T: Node> Node for Vec<T> {
    open spec fn equiv(&self, o: Self) -> bool {
        self@.len() == o@.len() && forall|i: int|
            0 <= i < self@.len() ==> (#[trigger] self@[i]).equiv(o@[i])
    }

    proof fn lemma_unique(a: Self, b: Self, y: Yaml) {
        assert(a.matches(y) && b.matches(y));
        assert forall|i: int| 0 <= i < a@.len() implies (#[trigger] a@[i]).equiv(b@[i]) by {
            T::lemma_unique(a@[i], b@[i], y->List_0@[i]);
        }
    }

    open spec fn matches(&self, y: Yaml) -> bool {
        y is List && y->List_0@.len() == self@.len() && forall|i: int|
            0 <= i < self@.len() ==> (#[trigger] self@[i]).matches(y->List_0@[i])
    }

    open spec fn canonical(&self) -> bool {
        forall|i: int| 0 <= i < self@.len() ==> (#[trigger] self@[i]).canonical()
    }

    fn from_yaml(y: &Yaml) -> (r: Result<Self, ParseError>) {
        match y {
            Yaml::List(items) => {
                let mut out: Vec<T> = Vec::new();
                let mut i: usize = 0;
                while i < items.len()
                    invariant
                        *y == Yaml::List(*items),
                        i <= items@.len(),
                        out@.len() == i,
                        forall|j: int| 0 <= j < i ==> (#[trigger] out@[j]).matches(items@[j]),
                    decreases items@.len() - i,
                {
                    match T::from_yaml(&items[i]) {
                        Ok(t) => out.push(t),
                        Err(e) => {
                            assert forall|t: Vec<T>| !#[trigger] t.matches(*y) by {
                                if t.matches(*y) {
                                    assert(t@[i as int].matches(items@[i as int]));
                                }
                            }
                            return Err(e);
                        },
                    }
                    i = i + 1;
                }
                Ok(out)
            },
            _ => Err(mismatch("a list")),
        }
    }

    fn to_yaml(&self) -> (r: Yaml) {
        let mut out: Vec<Yaml> = Vec::new();
        let mut i: usize = 0;
        while i < self.len()
            invariant
                i <= self@.len(),
                out@.len() == i,
                self.canonical() ==> forall|j: int|
                    0 <= j < i ==> (#[trigger] self@[j]).matches(out@[j]),
            decreases self@.len() - i,
        {
            out.push(self[i].to_yaml());
            i = i + 1;
        }
        Yaml::List(out)
    }
}

impl<T: Node> Defaulted for Vec<T> {
    proof fn lemma_default_unique(a: Self, b: Self) {
        assert(a.is_default() && b.is_default());
    }

    open spec fn is_default(&self) -> bool {
        self@.len() == 0
    }

    open spec fn empty(&self) -> bool {
        self@.len() == 0
    }

    fn default_value() -> (r: Self) {
        Vec::new()
    }

    fn is_empty(&self) -> (r: bool)
        ensures
            r == (self@.len() == 0),
    {
        self.len() == 0
    }
}

/// An optional field: absent or null stands for `None`.
pub open spec fn opt_matches<T: Node>(v: Option<T>, n: Option<Yaml>) -> bool {
    match v {
        None => absent(n),
        Some(t) => !absent(n) && t.matches(n->0),
    }
}

/// Both absent, or both present and holding the same data.
pub open spec fn opt_equiv<T: Node>(a: Option<T>, b: Option<T>) -> bool {
    match a {
        None => b is None,
        Some(x) => b is Some && x.equiv(b->0),
    }
}

pub proof fn lemma_opt_unique<T: Node>(a: Option<T>, b: Option<T>, n: Option<Yaml>)
    requires
        opt_matches(a, n),
        opt_matches(b, n),
    ensures
        opt_equiv(a, b),
{
    if a is Some && b is Some {
        T::lemma_unique(a->0, b->0, n->0);
    }
}

pub proof fn lemma_dflt_unique<T: Defaulted>(a: T, b: T, n: Option<Yaml>)
    requires
        dflt_matches(a, n),
        dflt_matches(b, n),
    ensures
        a.equiv(b),
{
    if absent(n) {
        T::lemma_default_unique(a, b);
    } else {
        T::lemma_unique(a, b, n->0);
    }
}

pub proof fn lemma_req_unique<T: Node>(a: T, b: T, n: Option<Yaml>)
    requires
        req_matches(a, n),
        req_matches(b, n),
    ensures
        a.equiv(b),
{
    T::lemma_unique(a, b, n->0);
}

/// A field with a default: absent or null stands for the default.
pub open spec fn dflt_matches<T: Defaulted>(v: T, n: Option<Yaml>) -> bool {
    if absent(n) {
        v.is_default()
    } else {
        v.matches(n->0)
    }
}

/// A required field.
pub open spec fn req_matches<T: Node>(v: T, n: Option<Yaml>) -> bool {
    n is Some && v.matches(n->0)
}

pub fn opt_field<T: Node>(es: &Vec<YamlEntry>, k: &str) -> (r: Result<Option<T>, ParseError>)
    ensures
        r matches Ok(v) ==> opt_matches(v, lookup(es@, k@)),
        r is Err ==> forall|v: Option<T>| !#[trigger] opt_matches(v, lookup(es@, k@)),
{
    match get(es, k) {
        None => Ok(None),
        Some(Yaml::Null) => Ok(None),
        Some(y) => {
            match T::from_yaml(y) {
                Ok(t) => Ok(Some(t)),
                Err(e) => {
                    assert forall|v: Option<T>| !#[trigger] opt_matches(v, lookup(es@, k@)) by {
                        if v is Some {
                            assert(!v->0.matches(*y));
                        }
                    }
                    Err(e)
                },
            }
        },
    }
}

pub fn dflt_field<T: Defaulted>(es: &Vec<YamlEntry>, k: &str) -> (r: Result<T, ParseError>)
    ensures
        r matches Ok(v) ==> dflt_matches(v, lookup(es@, k@)),
        r is Err ==> forall|v: T| !#[trigger] dflt_matches(v, lookup(es@, k@)),
{
    match get(es, k) {
        None => Ok(T::default_value()),
        Some(Yaml::Null) => Ok(T::default_value()),
        Some(y) => T::from_yaml(y),
    }
}

pub fn req_field<T: Node>(es: &Vec<YamlEntry>, k: &str) -> (r: Result<T, ParseError>)
    ensures
        r matches Ok(v) ==> req_matches(v, lookup(es@, k@)),
        r is Err ==> forall|v: T| !#[trigger] req_matches(v, lookup(es@, k@)),
{
    match get(es, k) {
        None => Err(ParseError::MissingField(k.to_owned())),
        Some(y) => T::from_yaml(y),
    }
}

/// `s` with `k: v` appended where `v` is present.
pub open spec fn emit(s: Seq<YamlEntry>, k: String, v: Option<Yaml>) -> Seq<YamlEntry> {
    match v {
        Some(y) => s.push(YamlEntry { key: Yaml::Str(k), value: y }),
        None => s,
    }
}

pub proof fn lemma_lookup_none(es: Seq<YamlEntry>, k: Seq<char>)
    requires
        lookup(es, k) is None,
    ensures
        forall|i: int| 0 <= i < es.len() ==> !key_is(#[trigger] es[i], k),
    decreases es.len(),
{
    if es.len() > 0 {
        lemma_lookup_none(es.drop_first(), k);
        assert forall|i: int| 0 <= i < es.len() implies !key_is(#[trigger] es[i], k) by {
            if i > 0 {
                assert(es[i] == es.drop_first()[i - 1]);
            }
        }
    }
}

pub broadcast proof fn lemma_lookup_push(s: Seq<YamlEntry>, e: YamlEntry, k: Seq<char>)
    ensures
        #[trigger] lookup(s.push(e), k) == if lookup(s, k) is Some {
            lookup(s, k)
        } else if key_is(e, k) {
            Some(e.value)
        } else {
            None::<Yaml>
        },
    decreases s.len(),
{
    if s.len() == 0 {
        assert(s.push(e).drop_first() =~= Seq::<YamlEntry>::empty());
        assert(lookup(Seq::<YamlEntry>::empty(), k) is None);
    } else {
        assert(s.push(e).drop_first() =~= s.drop_first().push(e));
        lemma_lookup_push(s.drop_first(), e, k);
    }
}

pub broadcast proof fn lemma_lookup_emit(s: Seq<YamlEntry>, k: String, v: Option<Yaml>, g: Seq<char>)
    ensures
        #[trigger] lookup(emit(s, k, v), g) == if v is Some && k@ == g && lookup(s, g) is None {
            v
        } else {
            lookup(s, g)
        },
{
    if let Some(y) = v {
        lemma_lookup_push(s, YamlEntry { key: Yaml::Str(k), value: y }, g);
    }
}

pub broadcast proof fn lemma_distinct_emit(s: Seq<YamlEntry>, k: String, v: Option<Yaml>)
    requires
        distinct_keys(s),
        v is Some ==> lookup(s, k@) is None,
    ensures
        #[trigger] distinct_keys(emit(s, k, v)),
{
    if v is Some {
        lemma_lookup_none(s, k@);
        let t = emit(s, k, v);
        assert forall|i: int, j: int|
            0 <= i < j < t.len() && #[trigger] t[i].key is Str implies !key_is(
                #[trigger] t[j],
                t[i].key->Str_0@,
            ) by {
            if j == s.len() {
                assert(!key_is(s[i], k@));
            } else {
                assert(t[i] == s[i] && t[j] == s[j]);
            }
        }
    }
}

pub broadcast proof fn lemma_allowed_emit<R: Record>(
    s: Seq<YamlEntry>,
    k: String,
    v: Option<Yaml>,
    policy: KeyPolicy,
)
    requires
        keys_allowed::<R>(s, policy),
        v is Some ==> key_allowed::<R>(k@, policy),
    ensures
        #[trigger] keys_allowed::<R>(emit(s, k, v), policy),
{
    let t = emit(s, k, v);
    assert forall|i: int| 0 <= i < t.len() implies (#[trigger] t[i]).key is Str && key_allowed::<R>(
        t[i].key->Str_0@,
        policy,
    ) by {
        if i < s.len() {
            assert(t[i] == s[i]);
        }
    }
}

pub broadcast group group_emit {
    lemma_lookup_emit,
    lemma_distinct_emit,
    lemma_allowed_emit,
}

/// Appends `k: v` where `v` is present.
pub fn put_opt(out: &mut Vec<YamlEntry>, k: String, v: Option<Yaml>)
    ensures
        final(out)@ == emit(old(out)@, k, v),
{
    if let Some(y) = v {
        out.push(YamlEntry { key: Yaml::Str(k), value: y });
    }
}

/// The node of an optional field, where it is set.
pub fn opt_yaml<T: Node>(v: &Option<T>) -> (r: Option<Yaml>)
    ensures
        v is None <==> r is None,
        v matches Some(t) ==> (t.canonical() ==> t.matches(r->0)),
{
    match v {
        Some(t) => Some(t.to_yaml()),
        None => None,
    }
}

/// The node of a defaulted field, unless writing omits it.
pub fn dflt_yaml<T: Defaulted>(v: &T) -> (r: Option<Yaml>)
    ensures
        r is None <==> v.empty(),
        r matches Some(y) ==> (v.canonical() ==> v.matches(y)),
{
    if v.is_empty() {
        None
    } else {
        Some(v.to_yaml())
    }
}

/// An optional field that writes as its node where set, and is left out otherwise.
pub open spec fn opt_written<T: Node>(v: Option<T>) -> bool {
    v matches Some(t) ==> t.canonical() && !t.matches(Yaml::Null)
}

/// A defaulted field that is left out only where it holds its default.
pub open spec fn dflt_written<T: Defaulted>(v: T) -> bool {
    v.canonical() && (v.empty() ==> v.is_default()) && !v.matches(Yaml::Null)
}

} // verus!
