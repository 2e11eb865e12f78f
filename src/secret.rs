use vstd::prelude::*;
use crate::node::{
    all_string_keys, check_keys, group_emit, key_is, keys_allowed, keys_ok, lemma_opt_unique,
    lemma_req_unique, lookup, mismatch, opt_equiv, opt_field, opt_matches, opt_written, opt_yaml,
    put_opt, req_field, req_matches, str_eq, Defaulted, KeyPolicy, Node, Record,
};
use crate::omap::{group_ext, OrderedMap};
use crate::yaml::{ParseError, Yaml, YamlEntry};

verus! {

broadcast use {group_emit, group_ext};

/// The top-level secrets: name to source, or null where the secret is declared without one.
#[derive(Clone, Debug, PartialEq)]
pub struct ComposeSecrets(pub OrderedMap<Option<ComposeSecret>>);

impl ComposeSecrets {
    pub fn is_empty(&self) -> (r: bool)
        ensures
            r == (self.0.entries@.len() == 0),
    {
        self.0.is_empty()
    }
}

impl Node for ComposeSecrets {
    open spec fn matches(&self, y: Yaml) -> bool {
        self.0.matches(y)
    }

    open spec fn equiv(&self, o: Self) -> bool {
        self.0.equiv(o.0)
    }

    proof fn lemma_unique(a: Self, b: Self, y: Yaml) {
        <OrderedMap<Option<ComposeSecret>> as Node>::lemma_unique(a.0, b.0, y);
    }

    open spec fn canonical(&self) -> bool {
        self.0.canonical()
    }

    fn from_yaml(y: &Yaml) -> (r: Result<Self, ParseError>) {
        let m = <OrderedMap<Option<ComposeSecret>> as Node>::from_yaml(y)?;
        Ok(ComposeSecrets(m))
    }

    fn to_yaml(&self) -> (r: Yaml) {
        self.0.to_yaml()
    }
}

impl Defaulted for ComposeSecrets {
    open spec fn is_default(&self) -> bool {
        self.0.entries@.len() == 0
    }

    proof fn lemma_default_unique(a: Self, b: Self) {
        assert(a.is_default() && b.is_default());
    }

    open spec fn empty(&self) -> bool {
        self.0.entries@.len() == 0
    }

    fn default_value() -> (r: Self) {
        ComposeSecrets(OrderedMap::new())
    }

    fn is_empty(&self) -> (r: bool) {
        ComposeSecrets::is_empty(self)
    }
}

impl Default for ComposeSecrets {
    fn default() -> (r: Self)
        ensures
            r.is_default(),
    {
        ComposeSecrets(OrderedMap::new())
    }
}

/// Where a top-level secret comes from.
#[derive(Clone, Debug, PartialEq)]
pub enum ComposeSecret {
    /// Read from a file: `{file: path}`.
    File(String),
    /// Read from an environment variable: `{environment: name}`.
    Environment(String),
    /// Managed outside the project, under `name`.
    External { external: bool, name: String },
}

/// The value of `y` where `y` is a mapping of the single key `tag`.
pub open spec fn tagged(y: Yaml, tag: Seq<char>) -> Option<Yaml> {
    if y is Mapping && y->Mapping_0@.len() == 1 && key_is(y->Mapping_0@[0], tag) {
        Some(y->Mapping_0@[0].value)
    } else {
        None
    }
}

/// Reads the value of a mapping of the single key `tag` as a string.
fn tagged_string(y: &Yaml, tag: &str) -> (r: Option<String>)
    ensures
        r matches Some(s) ==> tagged(*y, tag@) matches Some(v) && s.matches(v),
        r is None ==> !(tagged(*y, tag@) matches Some(v) && v is Str),
{
    if let Yaml::Mapping(es) = y {
        if es.len() == 1 {
            if let Yaml::Str(k) = &es[0].key {
                if str_eq(k.as_str(), tag) {
                    if let Yaml::Str(s) = &es[0].value {
                        return Some(s.clone());
                    }
                }
            }
        }
    }
    None
}

impl Record for ComposeSecret {
    open spec fn is_field(k: Seq<char>) -> bool {
        k == "external"@ || k == "name"@
    }

    fn field(k: &str) -> (r: bool) {
        str_eq(k, "external") || str_eq(k, "name")
    }
}

impl Node for ComposeSecret {
    /// `file` and `environment` are single-key mappings, tried in that order; the
    /// external form is the strict record `{external, name}`, tried last.
    open spec fn matches(&self, y: Yaml) -> bool {
        match self {
            ComposeSecret::File(p) => tagged(y, "file"@) matches Some(v) && p.matches(v),
            ComposeSecret::Environment(p) => tagged(y, "environment"@) matches Some(v) && p.matches(
                v,
            ) && !(tagged(y, "file"@) matches Some(w) && w is Str),
            ComposeSecret::External { external, name } => {
                &&& !(tagged(y, "file"@) matches Some(w) && w is Str)
                &&& !(tagged(y, "environment"@) matches Some(w) && w is Str)
                &&& y is Mapping
                &&& keys_ok::<ComposeSecret>(y->Mapping_0@, KeyPolicy::Strict)
                &&& req_matches(*external, lookup(y->Mapping_0@, "external"@))
                &&& req_matches(*name, lookup(y->Mapping_0@, "name"@))
            },
        }
    }

    open spec fn equiv(&self, o: Self) -> bool {
        match self {
            ComposeSecret::File(a) => o is File && a@ == o->File_0@,
            ComposeSecret::Environment(a) => o is Environment && a@ == o->Environment_0@,
            ComposeSecret::External { external, name } => o is External && *external
                == o->external && name@ == o->name@,
        }
    }

    proof fn lemma_unique(a: Self, b: Self, y: Yaml) {
        assert(a.matches(y) && b.matches(y));
    }

    open spec fn canonical(&self) -> bool {
        true
    }

    fn from_yaml(y: &Yaml) -> (r: Result<Self, ParseError>) {
        if let Some(s) = tagged_string(y, "file") {
            return Ok(ComposeSecret::File(s));
        }
        if let Some(s) = tagged_string(y, "environment") {
            return Ok(ComposeSecret::Environment(s));
        }
        match y {
            Yaml::Mapping(es) => {
                check_keys::<ComposeSecret>(es, KeyPolicy::Strict)?;
                let external = req_field::<bool>(es, "external")?;
                let name = req_field::<String>(es, "name")?;
                Ok(ComposeSecret::External { external, name })
            },
            _ => Err(mismatch("a secret source")),
        }
    }

    fn to_yaml(&self) -> (r: Yaml) {
        let mut out: Vec<YamlEntry> = Vec::new();
        match self {
            ComposeSecret::File(p) => put_opt(&mut out, "file".to_owned(), Some(p.to_yaml())),
            ComposeSecret::Environment(p) => put_opt(
                &mut out,
                "environment".to_owned(),
                Some(p.to_yaml()),
            ),
            ComposeSecret::External { external, name } => {
                put_opt(&mut out, "external".to_owned(), Some(external.to_yaml()));
                put_opt(&mut out, "name".to_owned(), Some(name.to_yaml()));
            },
        }
        proof {
            reveal_strlit("file");
            assert("file"@.len() == 4);
            assert("file"@[0] == 'f');
            reveal_strlit("environment");
            assert("environment"@.len() == 11);
            assert("environment"@[0] == 'e');
            reveal_strlit("external");
            assert("external"@.len() == 8);
            assert("external"@[0] == 'e');
            reveal_strlit("name");
            assert("name"@.len() == 4);
            assert("name"@[0] == 'n');
            assert(self.matches(Yaml::Mapping(out)));
        }
        Yaml::Mapping(out)
    }
}

/// The secrets a service is given: bare names, or mount records.
#[derive(Clone, Debug, PartialEq)]
pub enum Secrets {
    Simple(Vec<String>),
    Advanced(Vec<AdvancedSecrets>),
}

impl Node for Secrets {
    open spec fn equiv(&self, o: Self) -> bool {
        match self {
            Secrets::Simple(p) => o is Simple && p.equiv(o->Simple_0),
            Secrets::Advanced(p) => o is Advanced && p.equiv(o->Advanced_0),
        }
    }

    proof fn lemma_unique(a: Self, b: Self, y: Yaml) {
        assert(a.matches(y) && b.matches(y));
        if a is Simple && b is Simple {
            <Vec<String> as Node>::lemma_unique(a->Simple_0, b->Simple_0, y);
        }
        if a is Advanced && b is Advanced {
            <Vec<AdvancedSecrets> as Node>::lemma_unique(a->Advanced_0, b->Advanced_0, y);
        }
    }

    /// The first variant, in declaration order, whose payload reads the node.
    open spec fn matches(&self, y: Yaml) -> bool {
        match self {
            Secrets::Simple(p) => p.matches(y),
            Secrets::Advanced(p) => p.matches(y) && (forall|q: Vec<String>| !#[trigger] q.matches(y)),
        }
    }

    open spec fn canonical(&self) -> bool {
        match self {
            Secrets::Simple(p) => p.canonical(),
            Secrets::Advanced(p) => p.canonical() && p@.len() > 0,
        }
    }

    fn from_yaml(y: &Yaml) -> (r: Result<Self, ParseError>) {
        if let Ok(p) = <Vec<String> as Node>::from_yaml(y) {
            return Ok(Secrets::Simple(p));
        }
        match <Vec<AdvancedSecrets> as Node>::from_yaml(y) {
            Ok(p) => Ok(Secrets::Advanced(p)),
            Err(_) => Err(mismatch("a list of secret names or of secret records")),
        }
    }

    fn to_yaml(&self) -> (r: Yaml) {
        match self {
            Secrets::Simple(p) => p.to_yaml(),
            Secrets::Advanced(p) => {
                let r = p.to_yaml();
                proof {
                    if self.canonical() {
                        assert forall|q: Vec<String>| !#[trigger] q.matches(r) by {
                            if q.matches(r) {
                                assert(p@[0].matches(r->List_0@[0]));
                                assert(q@[0].matches(r->List_0@[0]));
                            }
                        }
                    }
                }
                r
            },
        }
    }
}

impl Secrets {
    /// Whether the value holds no entries, in either form.
    pub fn is_empty(&self) -> (r: bool)
        ensures
            r == match self {
                Secrets::Simple(p) => p@.len() == 0,
                Secrets::Advanced(p) => p@.len() == 0,
            },
    {
        match self {
            Secrets::Simple(p) => p.len() == 0,
            Secrets::Advanced(p) => p.len() == 0,
        }
    }
}

impl Defaulted for Secrets {
    open spec fn is_default(&self) -> bool {
        self is Simple && self->Simple_0@.len() == 0
    }

    proof fn lemma_default_unique(a: Self, b: Self) {
        assert(a.is_default() && b.is_default());
        assert(a->Simple_0.equiv(b->Simple_0));
    }

    open spec fn empty(&self) -> bool {
        match self {
            Secrets::Simple(p) => p@.len() == 0,
            Secrets::Advanced(p) => p@.len() == 0,
        }
    }

    fn default_value() -> (r: Self) {
        Secrets::Simple(Vec::new())
    }

    fn is_empty(&self) -> (r: bool) {
        Secrets::is_empty(self)
    }
}

impl Default for Secrets {
    fn default() -> (r: Self)
        ensures
            r.is_default(),
    {
        Secrets::Simple(Vec::new())
    }
}

/// A secret mounted into a service with explicit settings.
#[derive(Clone, Debug, PartialEq)]
pub struct AdvancedSecrets {
    /// The name of the top-level secret.
    pub source: String,
    /// Where the secret is mounted.
    pub target: Option<String>,
    /// Owner user id, kept as text to keep leading zeros.
    pub uid: Option<String>,
    /// Owner group id, kept as text.
    pub gid: Option<String>,
    /// Permission bits, kept as text to keep octal notation.
    pub mode: Option<String>,
}

impl Record for AdvancedSecrets {
    open spec fn is_field(k: Seq<char>) -> bool {
        k == "source"@
            || k == "target"@
            || k == "uid"@
            || k == "gid"@
            || k == "mode"@
    }

    fn field(k: &str) -> (r: bool) {
        str_eq(k, "source")
            || str_eq(k, "target")
            || str_eq(k, "uid")
            || str_eq(k, "gid")
            || str_eq(k, "mode")
    }
}

/// How the fields of a `AdvancedSecrets` read the entries of the mapping `y`.
#[verifier::opaque]
pub open spec fn advanced_secrets_fields(v: AdvancedSecrets, y: Yaml) -> bool {
    &&& keys_ok::<AdvancedSecrets>(y->Mapping_0@, KeyPolicy::Strict)
    &&& req_matches(v.source, lookup(y->Mapping_0@, "source"@))
    &&& opt_matches(v.target, lookup(y->Mapping_0@, "target"@))
    &&& opt_matches(v.uid, lookup(y->Mapping_0@, "uid"@))
    &&& opt_matches(v.gid, lookup(y->Mapping_0@, "gid"@))
    &&& opt_matches(v.mode, lookup(y->Mapping_0@, "mode"@))
}

/// Every field of `a` holds the same data as that of `b`.
#[verifier::opaque]
pub open spec fn advanced_secrets_equiv(a: AdvancedSecrets, b: AdvancedSecrets) -> bool {
    &&& a.source.equiv(b.source)
    &&& opt_equiv(a.target, b.target)
    &&& opt_equiv(a.uid, b.uid)
    &&& opt_equiv(a.gid, b.gid)
    &&& opt_equiv(a.mode, b.mode)
}

/// Each field of a `AdvancedSecrets` is one that writing and reading back keeps.
#[verifier::opaque]
pub open spec fn advanced_secrets_written(v: AdvancedSecrets) -> bool {
    &&& v.source.canonical()
    &&& opt_written(v.target)
    &&& opt_written(v.uid)
    &&& opt_written(v.gid)
    &&& opt_written(v.mode)
}

impl Node for AdvancedSecrets {
    open spec fn matches(&self, y: Yaml) -> bool {
        y is Mapping && advanced_secrets_fields(*self, y)
    }

    open spec fn equiv(&self, o: Self) -> bool {
        advanced_secrets_equiv(*self, o)
    }

    proof fn lemma_unique(a: Self, b: Self, y: Yaml) {
        reveal(advanced_secrets_fields);
        reveal(advanced_secrets_equiv);
        let es = y->Mapping_0@;
        lemma_req_unique(a.source, b.source, lookup(es, "source"@));
        lemma_opt_unique(a.target, b.target, lookup(es, "target"@));
        lemma_opt_unique(a.uid, b.uid, lookup(es, "uid"@));
        lemma_opt_unique(a.gid, b.gid, lookup(es, "gid"@));
        lemma_opt_unique(a.mode, b.mode, lookup(es, "mode"@));
    }

    open spec fn canonical(&self) -> bool {
        advanced_secrets_written(*self)
    }

    /// A key that is not allowed here is the error, where all keys are strings.
    fn from_yaml(y: &Yaml) -> (r: Result<Self, ParseError>)
        ensures
            y is Mapping && all_string_keys(y->Mapping_0@) && !keys_allowed::<AdvancedSecrets>(
                y->Mapping_0@,
                KeyPolicy::Strict,
            ) ==> (r matches Err(ParseError::UnknownField(k)) && !AdvancedSecrets::is_field(k@)),
    {
        reveal(advanced_secrets_fields);
        match y {
            Yaml::Mapping(es) => {
                if let Err(e) = check_keys::<AdvancedSecrets>(es, KeyPolicy::Strict) {
                    return Err(e);
                }
                let source = req_field::<String>(es, "source")?;
                let target = opt_field::<String>(es, "target")?;
                let uid = opt_field::<String>(es, "uid")?;
                let gid = opt_field::<String>(es, "gid")?;
                let mode = opt_field::<String>(es, "mode")?;
                Ok(AdvancedSecrets { source, target, uid, gid, mode })
            },
            _ => Err(mismatch("a mapping")),
        }
    }

    fn to_yaml(&self) -> (r: Yaml)
        ensures
            r is Mapping,
            lookup(r->Mapping_0@, "source"@) is Some,
            (lookup(r->Mapping_0@, "target"@) is None) == (self.target is None),
            (lookup(r->Mapping_0@, "uid"@) is None) == (self.uid is None),
            (lookup(r->Mapping_0@, "gid"@) is None) == (self.gid is None),
            (lookup(r->Mapping_0@, "mode"@) is None) == (self.mode is None),
    {
        reveal(advanced_secrets_fields);
        reveal(advanced_secrets_written);
        let mut out: Vec<YamlEntry> = Vec::new();
        put_opt(&mut out, "source".to_owned(), Some(self.source.to_yaml()));
        put_opt(&mut out, "target".to_owned(), opt_yaml(&self.target));
        put_opt(&mut out, "uid".to_owned(), opt_yaml(&self.uid));
        put_opt(&mut out, "gid".to_owned(), opt_yaml(&self.gid));
        put_opt(&mut out, "mode".to_owned(), opt_yaml(&self.mode));
        proof {
            // Each key literal apart from the others: by length, or by a character.
            reveal_strlit("source");
            assert("source"@.len() == 6);
            assert("source"@[0] == 's');
            reveal_strlit("target");
            assert("target"@.len() == 6);
            assert("target"@[0] == 't');
            reveal_strlit("uid");
            assert("uid"@.len() == 3);
            assert("uid"@[0] == 'u');
            reveal_strlit("gid");
            assert("gid"@.len() == 3);
            assert("gid"@[0] == 'g');
            reveal_strlit("mode");
            assert("mode"@.len() == 4);
            assert("mode"@[0] == 'm');
            if self.canonical() {
                assert(self.matches(Yaml::Mapping(out)));
            }
        }
        Yaml::Mapping(out)
    }
}

} // verus!
