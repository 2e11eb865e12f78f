use vstd::prelude::*;
use crate::node::{
    all_string_keys, check_keys, dflt_field, dflt_matches, dflt_written, dflt_yaml, group_emit,
    keys_allowed, keys_ok, lemma_dflt_unique, lemma_opt_unique, lemma_req_unique, lookup, mismatch,
    opt_equiv, opt_field, opt_matches, opt_written, opt_yaml, put_opt, req_field, req_matches,
    str_eq, Defaulted, KeyPolicy, Node, Record,
};
use crate::omap::{group_ext, OrderedMap};
use crate::yaml::{ParseError, Yaml, YamlEntry};
use crate::service::Labels;
use crate::value::{MapOrEmpty, SingleValue};

verus! {

broadcast use {group_emit, group_ext};

/// The top-level volumes: name to settings, or to nothing for all defaults.
#[derive(Clone, Debug, PartialEq)]
pub struct TopLevelVolumes(pub OrderedMap<MapOrEmpty<ComposeVolume>>);

impl TopLevelVolumes {
    pub fn is_empty(&self) -> (r: bool)
        ensures
            r == (self.0.entries@.len() == 0),
    {
        self.0.is_empty()
    }
}

impl Node for TopLevelVolumes {
    open spec fn matches(&self, y: Yaml) -> bool {
        self.0.matches(y)
    }

    open spec fn equiv(&self, o: Self) -> bool {
        self.0.equiv(o.0)
    }

    proof fn lemma_unique(a: Self, b: Self, y: Yaml) {
        <OrderedMap<MapOrEmpty<ComposeVolume>> as Node>::lemma_unique(a.0, b.0, y);
    }

    open spec fn canonical(&self) -> bool {
        self.0.canonical()
    }

    fn from_yaml(y: &Yaml) -> (r: Result<Self, ParseError>) {
        let m = <OrderedMap<MapOrEmpty<ComposeVolume>> as Node>::from_yaml(y)?;
        Ok(TopLevelVolumes(m))
    }

    fn to_yaml(&self) -> (r: Yaml) {
        self.0.to_yaml()
    }
}

impl Defaulted for TopLevelVolumes {
    open spec fn is_default(&self) -> bool {
        self.0.entries@.len() == 0
    }

    proof fn lemma_default_unique(a: Self, b: Self) {
        assert(a.is_default() && b.is_default());
    }

    open spec fn empty(&self) -> bool {
        self.0.entries@.len() == 0
    }

    fn default_value() -> (r: Self) {
        TopLevelVolumes(OrderedMap::new())
    }

    fn is_empty(&self) -> (r: bool) {
        TopLevelVolumes::is_empty(self)
    }
}

impl Default for TopLevelVolumes {
    fn default() -> (r: Self)
        ensures
            r.is_default(),
    {
        TopLevelVolumes(OrderedMap::new())
    }
}

/// The settings of a top-level volume.
#[derive(Clone, Debug, PartialEq)]
pub struct ComposeVolume {
    /// The volume driver.
    pub driver: Option<String>,
    /// Options handed to the driver.
    pub driver_opts: OrderedMap<Option<SingleValue>>,
    /// Whether the volume is managed outside the project.
    pub external: Option<ExternalVolume>,
    /// Metadata labels.
    pub labels: Labels,
    /// A custom name for the volume.
    pub name: Option<String>,
}

impl Record for ComposeVolume {
    open spec fn is_field(k: Seq<char>) -> bool {
        k == "driver"@
            || k == "driver_opts"@
            || k == "external"@
            || k == "labels"@
            || k == "name"@
    }

    fn field(k: &str) -> (r: bool) {
        str_eq(k, "driver")
            || str_eq(k, "driver_opts")
            || str_eq(k, "external")
            || str_eq(k, "labels")
            || str_eq(k, "name")
    }
}

/// How the fields of a `ComposeVolume` read the entries of the mapping `y`.
#[verifier::opaque]
pub open spec fn compose_volume_fields(v: ComposeVolume, y: Yaml) -> bool {
    &&& keys_ok::<ComposeVolume>(y->Mapping_0@, KeyPolicy::Lenient)
    &&& opt_matches(v.driver, lookup(y->Mapping_0@, "driver"@))
    &&& dflt_matches(v.driver_opts, lookup(y->Mapping_0@, "driver_opts"@))
    &&& opt_matches(v.external, lookup(y->Mapping_0@, "external"@))
    &&& dflt_matches(v.labels, lookup(y->Mapping_0@, "labels"@))
    &&& opt_matches(v.name, lookup(y->Mapping_0@, "name"@))
}

/// Every field of `a` holds the same data as that of `b`.
#[verifier::opaque]
pub open spec fn compose_volume_equiv(a: ComposeVolume, b: ComposeVolume) -> bool {
    &&& opt_equiv(a.driver, b.driver)
    &&& a.driver_opts.equiv(b.driver_opts)
    &&& opt_equiv(a.external, b.external)
    &&& a.labels.equiv(b.labels)
    &&& opt_equiv(a.name, b.name)
}

/// Each field of a `ComposeVolume` is one that writing and reading back keeps.
#[verifier::opaque]
pub open spec fn compose_volume_written(v: ComposeVolume) -> bool {
    &&& opt_written(v.driver)
    &&& dflt_written(v.driver_opts)
    &&& opt_written(v.external)
    &&& dflt_written(v.labels)
    &&& opt_written(v.name)
}

impl Node for ComposeVolume {
    open spec fn matches(&self, y: Yaml) -> bool {
        y is Mapping && compose_volume_fields(*self, y)
    }

    open spec fn equiv(&self, o: Self) -> bool {
        compose_volume_equiv(*self, o)
    }

    proof fn lemma_unique(a: Self, b: Self, y: Yaml) {
        reveal(compose_volume_fields);
        reveal(compose_volume_equiv);
        let es = y->Mapping_0@;
        lemma_opt_unique(a.driver, b.driver, lookup(es, "driver"@));
        lemma_dflt_unique(a.driver_opts, b.driver_opts, lookup(es, "driver_opts"@));
        lemma_opt_unique(a.external, b.external, lookup(es, "external"@));
        lemma_dflt_unique(a.labels, b.labels, lookup(es, "labels"@));
        lemma_opt_unique(a.name, b.name, lookup(es, "name"@));
    }

    open spec fn canonical(&self) -> bool {
        compose_volume_written(*self)
    }

    fn from_yaml(y: &Yaml) -> (r: Result<Self, ParseError>) {
        reveal(compose_volume_fields);
        match y {
            Yaml::Mapping(es) => {
                if let Err(e) = check_keys::<ComposeVolume>(es, KeyPolicy::Lenient) {
                    return Err(e);
                }
                let driver = opt_field::<String>(es, "driver")?;
                let driver_opts = dflt_field::<OrderedMap<Option<SingleValue>>>(es, "driver_opts")?;
                let external = opt_field::<ExternalVolume>(es, "external")?;
                let labels = dflt_field::<Labels>(es, "labels")?;
                let name = opt_field::<String>(es, "name")?;
                Ok(ComposeVolume { driver, driver_opts, external, labels, name })
            },
            _ => Err(mismatch("a mapping")),
        }
    }

    fn to_yaml(&self) -> (r: Yaml)
        ensures
            r is Mapping,
            self.is_default() ==> r->Mapping_0@.len() == 0,
            (lookup(r->Mapping_0@, "driver"@) is None) == (self.driver is None),
            (lookup(r->Mapping_0@, "driver_opts"@) is None) == self.driver_opts.empty(),
            (lookup(r->Mapping_0@, "external"@) is None) == (self.external is None),
            (lookup(r->Mapping_0@, "labels"@) is None) == self.labels.empty(),
            (lookup(r->Mapping_0@, "name"@) is None) == (self.name is None),
    {
        reveal(compose_volume_fields);
        reveal(compose_volume_written);
        let mut out: Vec<YamlEntry> = Vec::new();
        put_opt(&mut out, "driver".to_owned(), opt_yaml(&self.driver));
        put_opt(&mut out, "driver_opts".to_owned(), dflt_yaml(&self.driver_opts));
        put_opt(&mut out, "external".to_owned(), opt_yaml(&self.external));
        put_opt(&mut out, "labels".to_owned(), dflt_yaml(&self.labels));
        put_opt(&mut out, "name".to_owned(), opt_yaml(&self.name));
        proof {
            // Each key literal apart from the others: by length, or by a character.
            reveal_strlit("driver");
            assert("driver"@.len() == 6);
            assert("driver"@[0] == 'd');
            reveal_strlit("driver_opts");
            assert("driver_opts"@.len() == 11);
            assert("driver_opts"@[0] == 'd');
            reveal_strlit("external");
            assert("external"@.len() == 8);
            assert("external"@[0] == 'e');
            reveal_strlit("labels");
            assert("labels"@.len() == 6);
            assert("labels"@[0] == 'l');
            reveal_strlit("name");
            assert("name"@.len() == 4);
            assert("name"@[0] == 'n');
            if self.canonical() {
                assert(self.matches(Yaml::Mapping(out)));
            }
        }
        Yaml::Mapping(out)
    }
}

impl ComposeVolume {
    /// Every field holds its default.
    pub open spec fn is_default(&self) -> bool {
        &&& self.driver is None
        &&& self.driver_opts.is_default()
        &&& self.external is None
        &&& self.labels.is_default()
        &&& self.name is None
    }
}

impl Default for ComposeVolume {
    fn default() -> (r: Self)
        ensures
            r.is_default(),
    {
        ComposeVolume {
            driver: None,
            driver_opts: <OrderedMap<Option<SingleValue>> as Defaulted>::default_value(),
            external: None,
            labels: <Labels as Defaulted>::default_value(),
            name: None,
        }
    }
}

/// The `external` setting of a volume: a flag, or the name the volume really has.
#[derive(Clone, Debug, PartialEq)]
pub enum ExternalVolume {
    Bool(bool),
    Name { name: String },
}

impl Record for ExternalVolume {
    open spec fn is_field(k: Seq<char>) -> bool {
        k == "name"@
    }

    fn field(k: &str) -> (r: bool) {
        str_eq(k, "name")
    }
}

impl Node for ExternalVolume {
    open spec fn equiv(&self, o: Self) -> bool {
        match self {
            ExternalVolume::Bool(a) => o is Bool && *a == o->Bool_0,
            ExternalVolume::Name { name } => o is Name && name@ == o->name@,
        }
    }

    proof fn lemma_unique(a: Self, b: Self, y: Yaml) {
        assert(a.matches(y) && b.matches(y));
    }

    /// A boolean, else a mapping with `name`.
    open spec fn matches(&self, y: Yaml) -> bool {
        match self {
            ExternalVolume::Bool(b) => b.matches(y),
            ExternalVolume::Name { name } => {
                &&& y is Mapping
                &&& keys_ok::<ExternalVolume>(y->Mapping_0@, KeyPolicy::Lenient)
                &&& req_matches(*name, lookup(y->Mapping_0@, "name"@))
            },
        }
    }

    open spec fn canonical(&self) -> bool {
        true
    }

    fn from_yaml(y: &Yaml) -> (r: Result<Self, ParseError>) {
        match y {
            Yaml::Bool(b) => Ok(ExternalVolume::Bool(*b)),
            Yaml::Mapping(es) => {
                check_keys::<ExternalVolume>(es, KeyPolicy::Lenient)?;
                let name = req_field::<String>(es, "name")?;
                Ok(ExternalVolume::Name { name })
            },
            _ => Err(mismatch("a boolean or a mapping with a name")),
        }
    }

    fn to_yaml(&self) -> (r: Yaml) {
        match self {
            ExternalVolume::Bool(b) => b.to_yaml(),
            ExternalVolume::Name { name } => {
                let mut out: Vec<YamlEntry> = Vec::new();
                put_opt(&mut out, "name".to_owned(), Some(name.to_yaml()));
                proof {
                    reveal_strlit("name");
                    assert("name"@.len() == 4);
                    assert("name"@[0] == 'n');
                    assert(self.matches(Yaml::Mapping(out)));
                }
                Yaml::Mapping(out)
            },
        }
    }
}

/// A volume of a service: `HOST:CONTAINER[:MODE]` kept as text, or a strict record.
#[derive(Clone, Debug, PartialEq)]
pub enum Volumes {
    Simple(String),
    Advanced(AdvancedVolumes),
}

impl Node for Volumes {
    open spec fn equiv(&self, o: Self) -> bool {
        match self {
            Volumes::Simple(p) => o is Simple && p.equiv(o->Simple_0),
            Volumes::Advanced(p) => o is Advanced && p.equiv(o->Advanced_0),
        }
    }

    proof fn lemma_unique(a: Self, b: Self, y: Yaml) {
        assert(a.matches(y) && b.matches(y));
        if a is Simple && b is Simple {
            <String as Node>::lemma_unique(a->Simple_0, b->Simple_0, y);
        }
        if a is Advanced && b is Advanced {
            <AdvancedVolumes as Node>::lemma_unique(a->Advanced_0, b->Advanced_0, y);
        }
    }

    /// The first variant, in declaration order, whose payload reads the node.
    open spec fn matches(&self, y: Yaml) -> bool {
        match self {
            Volumes::Simple(p) => p.matches(y),
            Volumes::Advanced(p) => p.matches(y) && (forall|q: String| !#[trigger] q.matches(y)),
        }
    }

    open spec fn canonical(&self) -> bool {
        match self {
            Volumes::Simple(p) => p.canonical(),
            Volumes::Advanced(p) => p.canonical(),
        }
    }

    fn from_yaml(y: &Yaml) -> (r: Result<Self, ParseError>) {
        if let Ok(p) = <String as Node>::from_yaml(y) {
            return Ok(Volumes::Simple(p));
        }
        match <AdvancedVolumes as Node>::from_yaml(y) {
            Ok(p) => Ok(Volumes::Advanced(p)),
            Err(_) => Err(mismatch("a volume string or a volume record")),
        }
    }

    fn to_yaml(&self) -> (r: Yaml) {
        match self {
            Volumes::Simple(p) => p.to_yaml(),
            Volumes::Advanced(p) => p.to_yaml(),
        }
    }
}

/// A volume of a service in the long form.
#[derive(Clone, Debug, PartialEq)]
pub struct AdvancedVolumes {
    /// The host path or volume name.
    pub source: Option<String>,
    /// The path in the container.
    pub target: String,
    /// The mount type: bind, volume or tmpfs (the `type` key).
    pub _type: String,
    /// Whether the mount is read-only.
    pub read_only: bool,
    /// Bind mount settings.
    pub bind: Option<Bind>,
    /// Volume settings.
    pub volume: Option<Volume>,
    /// tmpfs settings.
    pub tmpfs: Option<TmpfsSettings>,
}

impl Record for AdvancedVolumes {
    open spec fn is_field(k: Seq<char>) -> bool {
        k == "source"@
            || k == "target"@
            || k == "type"@
            || k == "read_only"@
            || k == "bind"@
            || k == "volume"@
            || k == "tmpfs"@
    }

    fn field(k: &str) -> (r: bool) {
        str_eq(k, "source")
            || str_eq(k, "target")
            || str_eq(k, "type")
            || str_eq(k, "read_only")
            || str_eq(k, "bind")
            || str_eq(k, "volume")
            || str_eq(k, "tmpfs")
    }
}

/// How the fields of a `AdvancedVolumes` read the entries of the mapping `y`.
#[verifier::opaque]
pub open spec fn advanced_volumes_fields(v: AdvancedVolumes, y: Yaml) -> bool {
    &&& keys_ok::<AdvancedVolumes>(y->Mapping_0@, KeyPolicy::Strict)
    &&& opt_matches(v.source, lookup(y->Mapping_0@, "source"@))
    &&& req_matches(v.target, lookup(y->Mapping_0@, "target"@))
    &&& req_matches(v._type, lookup(y->Mapping_0@, "type"@))
    &&& dflt_matches(v.read_only, lookup(y->Mapping_0@, "read_only"@))
    &&& opt_matches(v.bind, lookup(y->Mapping_0@, "bind"@))
    &&& opt_matches(v.volume, lookup(y->Mapping_0@, "volume"@))
    &&& opt_matches(v.tmpfs, lookup(y->Mapping_0@, "tmpfs"@))
}

/// Every field of `a` holds the same data as that of `b`.
#[verifier::opaque]
pub open spec fn advanced_volumes_equiv(a: AdvancedVolumes, b: AdvancedVolumes) -> bool {
    &&& opt_equiv(a.source, b.source)
    &&& a.target.equiv(b.target)
    &&& a._type.equiv(b._type)
    &&& a.read_only.equiv(b.read_only)
    &&& opt_equiv(a.bind, b.bind)
    &&& opt_equiv(a.volume, b.volume)
    &&& opt_equiv(a.tmpfs, b.tmpfs)
}

/// Each field of a `AdvancedVolumes` is one that writing and reading back keeps.
#[verifier::opaque]
pub open spec fn advanced_volumes_written(v: AdvancedVolumes) -> bool {
    &&& opt_written(v.source)
    &&& v.target.canonical()
    &&& v._type.canonical()
    &&& dflt_written(v.read_only)
    &&& opt_written(v.bind)
    &&& opt_written(v.volume)
    &&& opt_written(v.tmpfs)
}

impl Node for AdvancedVolumes {
    open spec fn matches(&self, y: Yaml) -> bool {
        y is Mapping && advanced_volumes_fields(*self, y)
    }

    open spec fn equiv(&self, o: Self) -> bool {
        advanced_volumes_equiv(*self, o)
    }

    proof fn lemma_unique(a: Self, b: Self, y: Yaml) {
        reveal(advanced_volumes_fields);
        reveal(advanced_volumes_equiv);
        let es = y->Mapping_0@;
        lemma_opt_unique(a.source, b.source, lookup(es, "source"@));
        lemma_req_unique(a.target, b.target, lookup(es, "target"@));
        lemma_req_unique(a._type, b._type, lookup(es, "type"@));
        lemma_dflt_unique(a.read_only, b.read_only, lookup(es, "read_only"@));
        lemma_opt_unique(a.bind, b.bind, lookup(es, "bind"@));
        lemma_opt_unique(a.volume, b.volume, lookup(es, "volume"@));
        lemma_opt_unique(a.tmpfs, b.tmpfs, lookup(es, "tmpfs"@));
    }

    open spec fn canonical(&self) -> bool {
        advanced_volumes_written(*self)
    }

    /// A key that is not allowed here is the error, where all keys are strings.
    fn from_yaml(y: &Yaml) -> (r: Result<Self, ParseError>)
        ensures
            y is Mapping && all_string_keys(y->Mapping_0@) && !keys_allowed::<AdvancedVolumes>(
                y->Mapping_0@,
                KeyPolicy::Strict,
            ) ==> (r matches Err(ParseError::UnknownField(k)) && !AdvancedVolumes::is_field(k@)),
    {
        reveal(advanced_volumes_fields);
        match y {
            Yaml::Mapping(es) => {
                if let Err(e) = check_keys::<AdvancedVolumes>(es, KeyPolicy::Strict) {
                    return Err(e);
                }
                let source = opt_field::<String>(es, "source")?;
                let target = req_field::<String>(es, "target")?;
                let _type = req_field::<String>(es, "type")?;
                let read_only = dflt_field::<bool>(es, "read_only")?;
                let bind = opt_field::<Bind>(es, "bind")?;
                let volume = opt_field::<Volume>(es, "volume")?;
                let tmpfs = opt_field::<TmpfsSettings>(es, "tmpfs")?;
                Ok(AdvancedVolumes { source, target, _type, read_only, bind, volume, tmpfs })
            },
            _ => Err(mismatch("a mapping")),
        }
    }

    fn to_yaml(&self) -> (r: Yaml)
        ensures
            r is Mapping,
            (lookup(r->Mapping_0@, "source"@) is None) == (self.source is None),
            lookup(r->Mapping_0@, "target"@) is Some,
            lookup(r->Mapping_0@, "type"@) is Some,
            (lookup(r->Mapping_0@, "read_only"@) is None) == self.read_only.empty(),
            (lookup(r->Mapping_0@, "bind"@) is None) == (self.bind is None),
            (lookup(r->Mapping_0@, "volume"@) is None) == (self.volume is None),
            (lookup(r->Mapping_0@, "tmpfs"@) is None) == (self.tmpfs is None),
    {
        reveal(advanced_volumes_fields);
        reveal(advanced_volumes_written);
        let mut out: Vec<YamlEntry> = Vec::new();
        put_opt(&mut out, "source".to_owned(), opt_yaml(&self.source));
        put_opt(&mut out, "target".to_owned(), Some(self.target.to_yaml()));
        put_opt(&mut out, "type".to_owned(), Some(self._type.to_yaml()));
        put_opt(&mut out, "read_only".to_owned(), dflt_yaml(&self.read_only));
        put_opt(&mut out, "bind".to_owned(), opt_yaml(&self.bind));
        put_opt(&mut out, "volume".to_owned(), opt_yaml(&self.volume));
        put_opt(&mut out, "tmpfs".to_owned(), opt_yaml(&self.tmpfs));
        proof {
            // Each key literal apart from the others: by length, or by a character.
            reveal_strlit("source");
            assert("source"@.len() == 6);
            assert("source"@[0] == 's');
            reveal_strlit("target");
            assert("target"@.len() == 6);
            assert("target"@[0] == 't');
            reveal_strlit("type");
            assert("type"@.len() == 4);
            assert("type"@[0] == 't');
            reveal_strlit("read_only");
            assert("read_only"@.len() == 9);
            assert("read_only"@[0] == 'r');
            reveal_strlit("bind");
            assert("bind"@.len() == 4);
            assert("bind"@[0] == 'b');
            reveal_strlit("volume");
            assert("volume"@.len() == 6);
            assert("volume"@[0] == 'v');
            reveal_strlit("tmpfs");
            assert("tmpfs"@.len() == 5);
            assert("tmpfs"@[0] == 't');
            if self.canonical() {
                assert(self.matches(Yaml::Mapping(out)));
            }
        }
        Yaml::Mapping(out)
    }
}

/// Bind mount settings.
#[derive(Clone, Debug, PartialEq)]
pub struct Bind {
    /// The propagation mode.
    pub propagation: Option<String>,
    /// Whether the host path is created.
    pub create_host_path: Option<bool>,
    /// The SELinux relabelling.
    pub selinux: Option<String>,
}

impl Record for Bind {
    open spec fn is_field(k: Seq<char>) -> bool {
        k == "propagation"@
            || k == "create_host_path"@
            || k == "selinux"@
    }

    fn field(k: &str) -> (r: bool) {
        str_eq(k, "propagation")
            || str_eq(k, "create_host_path")
            || str_eq(k, "selinux")
    }
}

/// How the fields of a `Bind` read the entries of the mapping `y`.
#[verifier::opaque]
pub open spec fn bind_fields(v: Bind, y: Yaml) -> bool {
    &&& keys_ok::<Bind>(y->Mapping_0@, KeyPolicy::Strict)
    &&& opt_matches(v.propagation, lookup(y->Mapping_0@, "propagation"@))
    &&& opt_matches(v.create_host_path, lookup(y->Mapping_0@, "create_host_path"@))
    &&& opt_matches(v.selinux, lookup(y->Mapping_0@, "selinux"@))
}

/// Every field of `a` holds the same data as that of `b`.
#[verifier::opaque]
pub open spec fn bind_equiv(a: Bind, b: Bind) -> bool {
    &&& opt_equiv(a.propagation, b.propagation)
    &&& opt_equiv(a.create_host_path, b.create_host_path)
    &&& opt_equiv(a.selinux, b.selinux)
}

/// Each field of a `Bind` is one that writing and reading back keeps.
#[verifier::opaque]
pub open spec fn bind_written(v: Bind) -> bool {
    &&& opt_written(v.propagation)
    &&& opt_written(v.create_host_path)
    &&& opt_written(v.selinux)
}

impl Node for Bind {
    open spec fn matches(&self, y: Yaml) -> bool {
        y is Mapping && bind_fields(*self, y)
    }

    open spec fn equiv(&self, o: Self) -> bool {
        bind_equiv(*self, o)
    }

    proof fn lemma_unique(a: Self, b: Self, y: Yaml) {
        reveal(bind_fields);
        reveal(bind_equiv);
        let es = y->Mapping_0@;
        lemma_opt_unique(a.propagation, b.propagation, lookup(es, "propagation"@));
        lemma_opt_unique(a.create_host_path, b.create_host_path, lookup(es, "create_host_path"@));
        lemma_opt_unique(a.selinux, b.selinux, lookup(es, "selinux"@));
    }

    open spec fn canonical(&self) -> bool {
        bind_written(*self)
    }

    /// A key that is not allowed here is the error, where all keys are strings.
    fn from_yaml(y: &Yaml) -> (r: Result<Self, ParseError>)
        ensures
            y is Mapping && all_string_keys(y->Mapping_0@) && !keys_allowed::<Bind>(
                y->Mapping_0@,
                KeyPolicy::Strict,
            ) ==> (r matches Err(ParseError::UnknownField(k)) && !Bind::is_field(k@)),
    {
        reveal(bind_fields);
        match y {
            Yaml::Mapping(es) => {
                if let Err(e) = check_keys::<Bind>(es, KeyPolicy::Strict) {
                    return Err(e);
                }
                let propagation = opt_field::<String>(es, "propagation")?;
                let create_host_path = opt_field::<bool>(es, "create_host_path")?;
                let selinux = opt_field::<String>(es, "selinux")?;
                Ok(Bind { propagation, create_host_path, selinux })
            },
            _ => Err(mismatch("a mapping")),
        }
    }

    fn to_yaml(&self) -> (r: Yaml)
        ensures
            r is Mapping,
            self.is_default() ==> r->Mapping_0@.len() == 0,
            (lookup(r->Mapping_0@, "propagation"@) is None) == (self.propagation is None),
            (lookup(r->Mapping_0@, "create_host_path"@) is None) == (self.create_host_path is None),
            (lookup(r->Mapping_0@, "selinux"@) is None) == (self.selinux is None),
    {
        reveal(bind_fields);
        reveal(bind_written);
        let mut out: Vec<YamlEntry> = Vec::new();
        put_opt(&mut out, "propagation".to_owned(), opt_yaml(&self.propagation));
        put_opt(&mut out, "create_host_path".to_owned(), opt_yaml(&self.create_host_path));
        put_opt(&mut out, "selinux".to_owned(), opt_yaml(&self.selinux));
        proof {
            // Each key literal apart from the others: by length, or by a character.
            reveal_strlit("propagation");
            assert("propagation"@.len() == 11);
            assert("propagation"@[0] == 'p');
            reveal_strlit("create_host_path");
            assert("create_host_path"@.len() == 16);
            assert("create_host_path"@[0] == 'c');
            reveal_strlit("selinux");
            assert("selinux"@.len() == 7);
            assert("selinux"@[0] == 's');
            if self.canonical() {
                assert(self.matches(Yaml::Mapping(out)));
            }
        }
        Yaml::Mapping(out)
    }
}

impl Bind {
    /// Every field holds its default.
    pub open spec fn is_default(&self) -> bool {
        &&& self.propagation is None
        &&& self.create_host_path is None
        &&& self.selinux is None
    }
}

impl Default for Bind {
    fn default() -> (r: Self)
        ensures
            r.is_default(),
    {
        Bind {
            propagation: None,
            create_host_path: None,
            selinux: None,
        }
    }
}

/// Volume mount settings.
#[derive(Clone, Debug, PartialEq)]
pub struct Volume {
    /// Whether copying data from the container is off.
    pub nocopy: Option<bool>,
    /// A path inside the volume.
    pub subpath: Option<String>,
}

impl Record for Volume {
    open spec fn is_field(k: Seq<char>) -> bool {
        k == "nocopy"@
            || k == "subpath"@
    }

    fn field(k: &str) -> (r: bool) {
        str_eq(k, "nocopy")
            || str_eq(k, "subpath")
    }
}

/// How the fields of a `Volume` read the entries of the mapping `y`.
#[verifier::opaque]
pub open spec fn volume_fields(v: Volume, y: Yaml) -> bool {
    &&& keys_ok::<Volume>(y->Mapping_0@, KeyPolicy::Strict)
    &&& opt_matches(v.nocopy, lookup(y->Mapping_0@, "nocopy"@))
    &&& opt_matches(v.subpath, lookup(y->Mapping_0@, "subpath"@))
}

/// Every field of `a` holds the same data as that of `b`.
#[verifier::opaque]
pub open spec fn volume_equiv(a: Volume, b: Volume) -> bool {
    &&& opt_equiv(a.nocopy, b.nocopy)
    &&& opt_equiv(a.subpath, b.subpath)
}

/// Each field of a `Volume` is one that writing and reading back keeps.
#[verifier::opaque]
pub open spec fn volume_written(v: Volume) -> bool {
    &&& opt_written(v.nocopy)
    &&& opt_written(v.subpath)
}

impl Node for Volume {
    open spec fn matches(&self, y: Yaml) -> bool {
        y is Mapping && volume_fields(*self, y)
    }

    open spec fn equiv(&self, o: Self) -> bool {
        volume_equiv(*self, o)
    }

    proof fn lemma_unique(a: Self, b: Self, y: Yaml) {
        reveal(volume_fields);
        reveal(volume_equiv);
        let es = y->Mapping_0@;
        lemma_opt_unique(a.nocopy, b.nocopy, lookup(es, "nocopy"@));
        lemma_opt_unique(a.subpath, b.subpath, lookup(es, "subpath"@));
    }

    open spec fn canonical(&self) -> bool {
        volume_written(*self)
    }

    /// A key that is not allowed here is the error, where all keys are strings.
    fn from_yaml(y: &Yaml) -> (r: Result<Self, ParseError>)
        ensures
            y is Mapping && all_string_keys(y->Mapping_0@) && !keys_allowed::<Volume>(
                y->Mapping_0@,
                KeyPolicy::Strict,
            ) ==> (r matches Err(ParseError::UnknownField(k)) && !Volume::is_field(k@)),
    {
        reveal(volume_fields);
        match y {
            Yaml::Mapping(es) => {
                if let Err(e) = check_keys::<Volume>(es, KeyPolicy::Strict) {
                    return Err(e);
                }
                let nocopy = opt_field::<bool>(es, "nocopy")?;
                let subpath = opt_field::<String>(es, "subpath")?;
                Ok(Volume { nocopy, subpath })
            },
            _ => Err(mismatch("a mapping")),
        }
    }

    fn to_yaml(&self) -> (r: Yaml)
        ensures
            r is Mapping,
            self.is_default() ==> r->Mapping_0@.len() == 0,
            (lookup(r->Mapping_0@, "nocopy"@) is None) == (self.nocopy is None),
            (lookup(r->Mapping_0@, "subpath"@) is None) == (self.subpath is None),
    {
        reveal(volume_fields);
        reveal(volume_written);
        let mut out: Vec<YamlEntry> = Vec::new();
        put_opt(&mut out, "nocopy".to_owned(), opt_yaml(&self.nocopy));
        put_opt(&mut out, "subpath".to_owned(), opt_yaml(&self.subpath));
        proof {
            // Each key literal apart from the others: by length, or by a character.
            reveal_strlit("nocopy");
            assert("nocopy"@.len() == 6);
            assert("nocopy"@[0] == 'n');
            reveal_strlit("subpath");
            assert("subpath"@.len() == 7);
            assert("subpath"@[0] == 's');
            if self.canonical() {
                assert(self.matches(Yaml::Mapping(out)));
            }
        }
        Yaml::Mapping(out)
    }
}

impl Volume {
    /// Every field holds its default.
    pub open spec fn is_default(&self) -> bool {
        &&& self.nocopy is None
        &&& self.subpath is None
    }
}

impl Default for Volume {
    fn default() -> (r: Self)
        ensures
            r.is_default(),
    {
        Volume {
            nocopy: None,
            subpath: None,
        }
    }
}

/// tmpfs mount settings.
#[derive(Clone, Debug, PartialEq)]
pub struct TmpfsSettings {
    /// The size in bytes.
    pub size: u64,
}

impl Record for TmpfsSettings {
    open spec fn is_field(k: Seq<char>) -> bool {
        k == "size"@
    }

    fn field(k: &str) -> (r: bool) {
        str_eq(k, "size")
    }
}

/// How the fields of a `TmpfsSettings` read the entries of the mapping `y`.
#[verifier::opaque]
pub open spec fn tmpfs_settings_fields(v: TmpfsSettings, y: Yaml) -> bool {
    &&& keys_ok::<TmpfsSettings>(y->Mapping_0@, KeyPolicy::Strict)
    &&& req_matches(v.size, lookup(y->Mapping_0@, "size"@))
}

/// Every field of `a` holds the same data as that of `b`.
#[verifier::opaque]
pub open spec fn tmpfs_settings_equiv(a: TmpfsSettings, b: TmpfsSettings) -> bool {
    &&& a.size.equiv(b.size)
}

/// Each field of a `TmpfsSettings` is one that writing and reading back keeps.
#[verifier::opaque]
pub open spec fn tmpfs_settings_written(v: TmpfsSettings) -> bool {
    &&& v.size.canonical()
}

impl Node for TmpfsSettings {
    open spec fn matches(&self, y: Yaml) -> bool {
        y is Mapping && tmpfs_settings_fields(*self, y)
    }

    open spec fn equiv(&self, o: Self) -> bool {
        tmpfs_settings_equiv(*self, o)
    }

    proof fn lemma_unique(a: Self, b: Self, y: Yaml) {
        reveal(tmpfs_settings_fields);
        reveal(tmpfs_settings_equiv);
        let es = y->Mapping_0@;
        lemma_req_unique(a.size, b.size, lookup(es, "size"@));
    }

    open spec fn canonical(&self) -> bool {
        tmpfs_settings_written(*self)
    }

    /// A key that is not allowed here is the error, where all keys are strings.
    fn from_yaml(y: &Yaml) -> (r: Result<Self, ParseError>)
        ensures
            y is Mapping && all_string_keys(y->Mapping_0@) && !keys_allowed::<TmpfsSettings>(
                y->Mapping_0@,
                KeyPolicy::Strict,
            ) ==> (r matches Err(ParseError::UnknownField(k)) && !TmpfsSettings::is_field(k@)),
    {
        reveal(tmpfs_settings_fields);
        match y {
            Yaml::Mapping(es) => {
                if let Err(e) = check_keys::<TmpfsSettings>(es, KeyPolicy::Strict) {
                    return Err(e);
                }
                let size = req_field::<u64>(es, "size")?;
                Ok(TmpfsSettings { size })
            },
            _ => Err(mismatch("a mapping")),
        }
    }

    fn to_yaml(&self) -> (r: Yaml)
        ensures
            r is Mapping,
            lookup(r->Mapping_0@, "size"@) is Some,
    {
        reveal(tmpfs_settings_fields);
        reveal(tmpfs_settings_written);
        let mut out: Vec<YamlEntry> = Vec::new();
        put_opt(&mut out, "size".to_owned(), Some(self.size.to_yaml()));
        proof {
            // Each key literal apart from the others: by length, or by a character.
            reveal_strlit("size");
            assert("size"@.len() == 4);
            assert("size"@[0] == 's');
            if self.canonical() {
                assert(self.matches(Yaml::Mapping(out)));
            }
        }
        Yaml::Mapping(out)
    }
}

} // verus!
