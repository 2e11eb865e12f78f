use vstd::prelude::*;
use crate::node::{
    all_string_keys, check_keys, dflt_field, dflt_matches, dflt_written, dflt_yaml, distinct_keys,
    group_emit, is_ext, key_is, keys_allowed, keys_ok, lemma_dflt_unique, lemma_opt_unique,
    lemma_req_unique, lookup, mismatch, opt_equiv, opt_field, opt_matches, opt_written, opt_yaml,
    put_opt, req_field, req_matches, str_eq, Defaulted, KeyPolicy, Node, Record,
};
use crate::omap::{
    ext_entries, ext_keys, ext_matches, extensions_of, group_ext, lemma_ext_unique, put_extensions,
    OrderedMap,
};
use crate::yaml::{ParseError, Yaml, YamlEntry};
use crate::network::ComposeNetworks;
use crate::secret::ComposeSecrets;
use crate::service::{EnvFile, Service, Services};
use crate::volume::TopLevelVolumes;

verus! {

broadcast use {group_emit, group_ext};

/// A full document. Keys that name no field must be `x-` extensions.
#[derive(Clone, Debug, PartialEq)]
pub struct Compose {
    /// The file format version.
    pub version: Option<String>,
    /// The project name.
    pub name: Option<String>,
    /// Other files included.
    pub includes: Option<Includes>,
    /// The services.
    pub services: Services,
    /// The named volumes.
    pub volumes: TopLevelVolumes,
    /// The named networks.
    pub networks: ComposeNetworks,
    /// A lone service.
    pub service: Option<Service>,
    /// The secrets.
    pub secrets: Option<ComposeSecrets>,
    /// Vendor extensions: the `x-` keys, in order.
    pub extensions: OrderedMap<Yaml>,
}

impl Record for Compose {
    open spec fn is_field(k: Seq<char>) -> bool {
        k == "version"@
            || k == "name"@
            || k == "includes"@
            || k == "services"@
            || k == "volumes"@
            || k == "networks"@
            || k == "service"@
            || k == "secrets"@
    }

    fn field(k: &str) -> (r: bool) {
        str_eq(k, "version")
            || str_eq(k, "name")
            || str_eq(k, "includes")
            || str_eq(k, "services")
            || str_eq(k, "volumes")
            || str_eq(k, "networks")
            || str_eq(k, "service")
            || str_eq(k, "secrets")
    }
}

/// How the fields of a `Compose` read the entries of the mapping `y`.
#[verifier::opaque]
pub open spec fn compose_fields(v: Compose, y: Yaml) -> bool {
    &&& keys_ok::<Compose>(y->Mapping_0@, KeyPolicy::Extensions)
    &&& opt_matches(v.version, lookup(y->Mapping_0@, "version"@))
    &&& opt_matches(v.name, lookup(y->Mapping_0@, "name"@))
    &&& opt_matches(v.includes, lookup(y->Mapping_0@, "includes"@))
    &&& dflt_matches(v.services, lookup(y->Mapping_0@, "services"@))
    &&& dflt_matches(v.volumes, lookup(y->Mapping_0@, "volumes"@))
    &&& dflt_matches(v.networks, lookup(y->Mapping_0@, "networks"@))
    &&& opt_matches(v.service, lookup(y->Mapping_0@, "service"@))
    &&& opt_matches(v.secrets, lookup(y->Mapping_0@, "secrets"@))
    &&& ext_matches(v.extensions, y->Mapping_0@)
}

/// Every field of `a` holds the same data as that of `b`.
#[verifier::opaque]
pub open spec fn compose_equiv(a: Compose, b: Compose) -> bool {
    &&& opt_equiv(a.version, b.version)
    &&& opt_equiv(a.name, b.name)
    &&& opt_equiv(a.includes, b.includes)
    &&& a.services.equiv(b.services)
    &&& a.volumes.equiv(b.volumes)
    &&& a.networks.equiv(b.networks)
    &&& opt_equiv(a.service, b.service)
    &&& opt_equiv(a.secrets, b.secrets)
    &&& a.extensions.equiv(b.extensions)
}

/// Each field of a `Compose` is one that writing and reading back keeps.
#[verifier::opaque]
pub open spec fn compose_written(v: Compose) -> bool {
    &&& opt_written(v.version)
    &&& opt_written(v.name)
    &&& opt_written(v.includes)
    &&& dflt_written(v.services)
    &&& dflt_written(v.volumes)
    &&& dflt_written(v.networks)
    &&& opt_written(v.service)
    &&& opt_written(v.secrets)
    &&& v.extensions.wf()
    &&& forall|i: int| 0 <= i < v.extensions.entries@.len() ==> is_ext(#[trigger] v.extensions.entries@[i].0@)
}

impl Node for Compose {
    open spec fn matches(&self, y: Yaml) -> bool {
        y is Mapping && compose_fields(*self, y)
    }

    open spec fn equiv(&self, o: Self) -> bool {
        compose_equiv(*self, o)
    }

    proof fn lemma_unique(a: Self, b: Self, y: Yaml) {
        reveal(compose_fields);
        reveal(compose_equiv);
        let es = y->Mapping_0@;
        lemma_opt_unique(a.version, b.version, lookup(es, "version"@));
        lemma_opt_unique(a.name, b.name, lookup(es, "name"@));
        lemma_opt_unique(a.includes, b.includes, lookup(es, "includes"@));
        lemma_dflt_unique(a.services, b.services, lookup(es, "services"@));
        lemma_dflt_unique(a.volumes, b.volumes, lookup(es, "volumes"@));
        lemma_dflt_unique(a.networks, b.networks, lookup(es, "networks"@));
        lemma_opt_unique(a.service, b.service, lookup(es, "service"@));
        lemma_opt_unique(a.secrets, b.secrets, lookup(es, "secrets"@));
        lemma_ext_unique(a.extensions, b.extensions, es);
    }

    open spec fn canonical(&self) -> bool {
        compose_written(*self)
    }

    /// A key that is not allowed here is the error, where all keys are strings.
    fn from_yaml(y: &Yaml) -> (r: Result<Self, ParseError>)
        ensures
            y is Mapping && all_string_keys(y->Mapping_0@) && !keys_allowed::<Compose>(
                y->Mapping_0@,
                KeyPolicy::Extensions,
            ) ==> (r matches Err(ParseError::ExtensionKey(k)) && !Compose::is_field(k@)
                && !is_ext(k@)),
    {
        reveal(compose_fields);
        match y {
            Yaml::Mapping(es) => {
                if let Err(e) = check_keys::<Compose>(es, KeyPolicy::Extensions) {
                    return Err(e);
                }
                let version = opt_field::<String>(es, "version")?;
                let name = opt_field::<String>(es, "name")?;
                let includes = opt_field::<Includes>(es, "includes")?;
                let services = dflt_field::<Services>(es, "services")?;
                let volumes = dflt_field::<TopLevelVolumes>(es, "volumes")?;
                let networks = dflt_field::<ComposeNetworks>(es, "networks")?;
                let service = opt_field::<Service>(es, "service")?;
                let secrets = opt_field::<ComposeSecrets>(es, "secrets")?;
                let extensions = extensions_of(es);
                Ok(Compose { version, name, includes, services, volumes, networks, service, secrets, extensions })
            },
            _ => Err(mismatch("a mapping")),
        }
    }

    fn to_yaml(&self) -> (r: Yaml)
        ensures
            r is Mapping,
            self.is_default() ==> r->Mapping_0@.len() == 0,
            ext_keys(self.extensions) ==> (lookup(r->Mapping_0@, "version"@) is None) == (self.version is None),
            ext_keys(self.extensions) ==> (lookup(r->Mapping_0@, "name"@) is None) == (self.name is None),
            ext_keys(self.extensions) ==> (lookup(r->Mapping_0@, "includes"@) is None) == (self.includes is None),
            ext_keys(self.extensions) ==> (lookup(r->Mapping_0@, "services"@) is None) == self.services.empty(),
            ext_keys(self.extensions) ==> (lookup(r->Mapping_0@, "volumes"@) is None) == self.volumes.empty(),
            ext_keys(self.extensions) ==> (lookup(r->Mapping_0@, "networks"@) is None) == self.networks.empty(),
            ext_keys(self.extensions) ==> (lookup(r->Mapping_0@, "service"@) is None) == (self.service is None),
            ext_keys(self.extensions) ==> (lookup(r->Mapping_0@, "secrets"@) is None) == (self.secrets is None),
    {
        reveal(compose_fields);
        reveal(compose_written);
        let mut out: Vec<YamlEntry> = Vec::new();
        put_opt(&mut out, "version".to_owned(), opt_yaml(&self.version));
        put_opt(&mut out, "name".to_owned(), opt_yaml(&self.name));
        put_opt(&mut out, "includes".to_owned(), opt_yaml(&self.includes));
        put_opt(&mut out, "services".to_owned(), dflt_yaml(&self.services));
        put_opt(&mut out, "volumes".to_owned(), dflt_yaml(&self.volumes));
        put_opt(&mut out, "networks".to_owned(), dflt_yaml(&self.networks));
        put_opt(&mut out, "service".to_owned(), opt_yaml(&self.service));
        put_opt(&mut out, "secrets".to_owned(), opt_yaml(&self.secrets));
        proof {
            // Each key literal apart from the others: by length, or by a character.
            reveal_strlit("version");
            assert("version"@.len() == 7);
            assert("version"@[0] == 'v');
            assert("version"@[1] == 'e');
            reveal_strlit("name");
            assert("name"@.len() == 4);
            assert("name"@[0] == 'n');
            reveal_strlit("includes");
            assert("includes"@.len() == 8);
            assert("includes"@[0] == 'i');
            reveal_strlit("services");
            assert("services"@.len() == 8);
            assert("services"@[0] == 's');
            reveal_strlit("volumes");
            assert("volumes"@.len() == 7);
            assert("volumes"@[0] == 'v');
            assert("volumes"@[1] == 'o');
            reveal_strlit("networks");
            assert("networks"@.len() == 8);
            assert("networks"@[0] == 'n');
            reveal_strlit("service");
            assert("service"@.len() == 7);
            assert("service"@[0] == 's');
            assert("service"@[2] == 'r');
            reveal_strlit("secrets");
            assert("secrets"@.len() == 7);
            assert("secrets"@[0] == 's');
            assert("secrets"@[2] == 'c');
            assert(ext_entries(out@).len() == 0);
            assert(keys_allowed::<Compose>(out@, KeyPolicy::Extensions));
            assert(distinct_keys(out@));
        }
        put_extensions::<Compose>(&mut out, &self.extensions);
        proof {
            if self.canonical() {
                assert(self.matches(Yaml::Mapping(out)));
            }
        }
        Yaml::Mapping(out)
    }
}

impl Compose {
    /// Every field holds its default.
    pub open spec fn is_default(&self) -> bool {
        &&& self.version is None
        &&& self.name is None
        &&& self.includes is None
        &&& self.services.is_default()
        &&& self.volumes.is_default()
        &&& self.networks.is_default()
        &&& self.service is None
        &&& self.secrets is None
        &&& self.extensions.entries@.len() == 0
    }
}

impl Default for Compose {
    fn default() -> (r: Self)
        ensures
            r.is_default(),
    {
        Compose {
            version: None,
            name: None,
            includes: None,
            services: <Services as Defaulted>::default_value(),
            volumes: <TopLevelVolumes as Defaulted>::default_value(),
            networks: <ComposeNetworks as Defaulted>::default_value(),
            service: None,
            secrets: None,
            extensions: OrderedMap::new(),
        }
    }
}

impl Compose {
    /// An empty document.
    pub fn new() -> (r: Self)
        ensures
            r.is_default(),
    {
        Compose::default()
    }
}

/// A parsed document, in one of three shapes.
#[derive(Clone, Debug, PartialEq)]
pub enum ComposeFile {
    /// A full document: version, services, volumes, networks, secrets, extensions.
    V2Plus(Compose),
    /// A legacy document: service names mapped straight to services.
    V1(OrderedMap<Service>),
    /// A document of one service under the key `service`.
    Single(SingleService),
}

/// A mapping whose only key is `service`: the single-service shape, which the
/// full and the legacy shapes leave to it.
pub open spec fn single_shape(y: Yaml) -> bool {
    y is Mapping && y->Mapping_0@.len() == 1 && key_is(y->Mapping_0@[0], "service"@)
}

fn is_single_shape(y: &Yaml) -> (r: bool)
    ensures
        r == single_shape(*y),
{
    if let Yaml::Mapping(es) = y {
        if es.len() == 1 {
            if let Yaml::Str(k) = &es[0].key {
                return str_eq(k.as_str(), "service");
            }
        }
    }
    false
}

impl Node for ComposeFile {
    open spec fn equiv(&self, o: Self) -> bool {
        match self {
            ComposeFile::V2Plus(c) => o is V2Plus && c.equiv(o->V2Plus_0),
            ComposeFile::V1(m) => o is V1 && m.equiv(o->V1_0),
            ComposeFile::Single(s) => o is Single && s.equiv(o->Single_0),
        }
    }

    proof fn lemma_unique(a: Self, b: Self, y: Yaml) {
        assert(a.matches(y) && b.matches(y));
        if a is V2Plus && b is V2Plus {
            Compose::lemma_unique(a->V2Plus_0, b->V2Plus_0, y);
        }
        if a is V1 && b is V1 {
            <OrderedMap<Service> as Node>::lemma_unique(a->V1_0, b->V1_0, y);
        }
        if a is Single && b is Single {
            SingleService::lemma_unique(a->Single_0, b->Single_0, y);
        }
    }

    /// The shapes are tried in order: full document, legacy map, single service;
    /// the first that reads the whole node wins.
    open spec fn matches(&self, y: Yaml) -> bool {
        match self {
            ComposeFile::V2Plus(c) => !single_shape(y) && c.matches(y),
            ComposeFile::V1(m) => {
                &&& !single_shape(y)
                &&& m.matches(y)
                &&& forall|c: Compose| !#[trigger] c.matches(y)
            },
            ComposeFile::Single(s) => {
                &&& s.matches(y)
                &&& single_shape(y) || ((forall|c: Compose| !#[trigger] c.matches(y)) && (forall|
                    m: OrderedMap<Service>,
                | !#[trigger] m.matches(y)))
            },
        }
    }

    /// The node the value writes is read back in the same shape.
    open spec fn canonical(&self) -> bool {
        match self {
            ComposeFile::V2Plus(c) => c.canonical() && forall|y: Yaml|
                #[trigger] c.matches(y) ==> !single_shape(y),
            ComposeFile::V1(m) => m.canonical() && forall|y: Yaml|
                #[trigger] m.matches(y) ==> !single_shape(y) && forall|c: Compose|
                    !#[trigger] c.matches(y),
            ComposeFile::Single(s) => s.canonical(),
        }
    }

    /// Where no shape reads the node, the error holds each shape's error, in order:
    /// three, or one where only the single-service shape was tried.
    fn from_yaml(y: &Yaml) -> (r: Result<Self, ParseError>)
        ensures
            r is Err ==> (r matches Err(ParseError::NoMatchingVariant(es)) && es@.len() == (if single_shape(*y) {
                1int
            } else {
                3int
            })),
    {
        let mut errors: Vec<ParseError> = Vec::new();
        if !is_single_shape(y) {
            match Compose::from_yaml(y) {
                Ok(c) => {
                    return Ok(ComposeFile::V2Plus(c));
                },
                Err(e) => errors.push(e),
            }
            match <OrderedMap<Service> as Node>::from_yaml(y) {
                Ok(m) => {
                    return Ok(ComposeFile::V1(m));
                },
                Err(e) => errors.push(e),
            }
        }
        match SingleService::from_yaml(y) {
            Ok(s) => Ok(ComposeFile::Single(s)),
            Err(e) => {
                errors.push(e);
                Err(ParseError::NoMatchingVariant(errors))
            },
        }
    }

    fn to_yaml(&self) -> (r: Yaml) {
        match self {
            ComposeFile::V2Plus(c) => c.to_yaml(),
            ComposeFile::V1(m) => m.to_yaml(),
            ComposeFile::Single(s) => {
                let r = s.to_yaml();
                proof {
                    if self.canonical() {
                        assert(single_shape(r));
                    }
                }
                r
            },
        }
    }
}

/// Round trip: where a canonical document writes the node `written` (what
/// `to_yaml` ensures), any document read back from that node (what `from_yaml`
/// ensures of its result) holds the same data, field for field.
pub proof fn lemma_round_trip(doc: ComposeFile, written: Yaml, back: ComposeFile)
    requires
        doc.canonical(),
        doc.matches(written),
        back.matches(written),
    ensures
        back.equiv(doc),
{
    ComposeFile::lemma_unique(back, doc, written);
}

/// Writes `doc` as a node and reads the node back. A canonical document always
/// reads back, as a document that holds the same data.
pub fn write_and_read(doc: &ComposeFile) -> (r: (Yaml, Result<ComposeFile, ParseError>))
    ensures
        doc.canonical() ==> doc.matches(r.0),
        doc.canonical() ==> (r.1 matches Ok(e) && e.matches(r.0) && e.equiv(*doc)),
{
    let y = doc.to_yaml();
    let back = ComposeFile::from_yaml(&y);
    proof {
        if doc.canonical() && back is Ok {
            lemma_round_trip(*doc, y, back->Ok_0);
        }
    }
    (y, back)
}

/// A document that holds one service.
#[derive(Clone, Debug, PartialEq)]
pub struct SingleService {
    /// The service.
    pub service: Service,
}

impl Record for SingleService {
    open spec fn is_field(k: Seq<char>) -> bool {
        k == "service"@
    }

    fn field(k: &str) -> (r: bool) {
        str_eq(k, "service")
    }
}

/// How the fields of a `SingleService` read the entries of the mapping `y`.
#[verifier::opaque]
pub open spec fn single_service_fields(v: SingleService, y: Yaml) -> bool {
    &&& keys_ok::<SingleService>(y->Mapping_0@, KeyPolicy::Lenient)
    &&& req_matches(v.service, lookup(y->Mapping_0@, "service"@))
}

/// Every field of `a` holds the same data as that of `b`.
#[verifier::opaque]
pub open spec fn single_service_equiv(a: SingleService, b: SingleService) -> bool {
    &&& a.service.equiv(b.service)
}

/// Each field of a `SingleService` is one that writing and reading back keeps.
#[verifier::opaque]
pub open spec fn single_service_written(v: SingleService) -> bool {
    &&& v.service.canonical()
}

impl Node for SingleService {
    open spec fn matches(&self, y: Yaml) -> bool {
        y is Mapping && single_service_fields(*self, y)
    }

    open spec fn equiv(&self, o: Self) -> bool {
        single_service_equiv(*self, o)
    }

    proof fn lemma_unique(a: Self, b: Self, y: Yaml) {
        reveal(single_service_fields);
        reveal(single_service_equiv);
        let es = y->Mapping_0@;
        lemma_req_unique(a.service, b.service, lookup(es, "service"@));
    }

    open spec fn canonical(&self) -> bool {
        single_service_written(*self)
    }

    fn from_yaml(y: &Yaml) -> (r: Result<Self, ParseError>) {
        reveal(single_service_fields);
        match y {
            Yaml::Mapping(es) => {
                if let Err(e) = check_keys::<SingleService>(es, KeyPolicy::Lenient) {
                    return Err(e);
                }
                let service = req_field::<Service>(es, "service")?;
                Ok(SingleService { service })
            },
            _ => Err(mismatch("a mapping")),
        }
    }

    fn to_yaml(&self) -> (r: Yaml)
        ensures
            r is Mapping,
            single_shape(r),
            lookup(r->Mapping_0@, "service"@) is Some,
    {
        reveal(single_service_fields);
        reveal(single_service_written);
        let mut out: Vec<YamlEntry> = Vec::new();
        put_opt(&mut out, "service".to_owned(), Some(self.service.to_yaml()));
        proof {
            // Each key literal apart from the others: by length, or by a character.
            reveal_strlit("service");
            assert("service"@.len() == 7);
            assert("service"@[0] == 's');
            if self.canonical() {
                assert(self.matches(Yaml::Mapping(out)));
            }
        }
        Yaml::Mapping(out)
    }
}

/// One included file in the long form.
#[derive(Clone, Debug, PartialEq)]
pub struct Include {
    /// The directory relative paths resolve against.
    pub project_directory: Option<String>,
    /// The file included.
    pub path: Option<String>,
    /// Environment files of the included project.
    pub env_file: Option<EnvFile>,
}

impl Record for Include {
    open spec fn is_field(k: Seq<char>) -> bool {
        k == "project_directory"@
            || k == "path"@
            || k == "env_file"@
    }

    fn field(k: &str) -> (r: bool) {
        str_eq(k, "project_directory")
            || str_eq(k, "path")
            || str_eq(k, "env_file")
    }
}

/// How the fields of a `Include` read the entries of the mapping `y`.
#[verifier::opaque]
pub open spec fn include_fields(v: Include, y: Yaml) -> bool {
    &&& keys_ok::<Include>(y->Mapping_0@, KeyPolicy::Lenient)
    &&& opt_matches(v.project_directory, lookup(y->Mapping_0@, "project_directory"@))
    &&& opt_matches(v.path, lookup(y->Mapping_0@, "path"@))
    &&& opt_matches(v.env_file, lookup(y->Mapping_0@, "env_file"@))
}

/// Every field of `a` holds the same data as that of `b`.
#[verifier::opaque]
pub open spec fn include_equiv(a: Include, b: Include) -> bool {
    &&& opt_equiv(a.project_directory, b.project_directory)
    &&& opt_equiv(a.path, b.path)
    &&& opt_equiv(a.env_file, b.env_file)
}

/// Each field of a `Include` is one that writing and reading back keeps.
#[verifier::opaque]
pub open spec fn include_written(v: Include) -> bool {
    &&& opt_written(v.project_directory)
    &&& opt_written(v.path)
    &&& opt_written(v.env_file)
}

impl Node for Include {
    open spec fn matches(&self, y: Yaml) -> bool {
        y is Mapping && include_fields(*self, y)
    }

    open spec fn equiv(&self, o: Self) -> bool {
        include_equiv(*self, o)
    }

    proof fn lemma_unique(a: Self, b: Self, y: Yaml) {
        reveal(include_fields);
        reveal(include_equiv);
        let es = y->Mapping_0@;
        lemma_opt_unique(a.project_directory, b.project_directory, lookup(es, "project_directory"@));
        lemma_opt_unique(a.path, b.path, lookup(es, "path"@));
        lemma_opt_unique(a.env_file, b.env_file, lookup(es, "env_file"@));
    }

    open spec fn canonical(&self) -> bool {
        include_written(*self)
    }

    fn from_yaml(y: &Yaml) -> (r: Result<Self, ParseError>) {
        reveal(include_fields);
        match y {
            Yaml::Mapping(es) => {
                if let Err(e) = check_keys::<Include>(es, KeyPolicy::Lenient) {
                    return Err(e);
                }
                let project_directory = opt_field::<String>(es, "project_directory")?;
                let path = opt_field::<String>(es, "path")?;
                let env_file = opt_field::<EnvFile>(es, "env_file")?;
                Ok(Include { project_directory, path, env_file })
            },
            _ => Err(mismatch("a mapping")),
        }
    }

    fn to_yaml(&self) -> (r: Yaml)
        ensures
            r is Mapping,
            self.is_default() ==> r->Mapping_0@.len() == 0,
            (lookup(r->Mapping_0@, "project_directory"@) is None) == (self.project_directory is None),
            (lookup(r->Mapping_0@, "path"@) is None) == (self.path is None),
            (lookup(r->Mapping_0@, "env_file"@) is None) == (self.env_file is None),
    {
        reveal(include_fields);
        reveal(include_written);
        let mut out: Vec<YamlEntry> = Vec::new();
        put_opt(&mut out, "project_directory".to_owned(), opt_yaml(&self.project_directory));
        put_opt(&mut out, "path".to_owned(), opt_yaml(&self.path));
        put_opt(&mut out, "env_file".to_owned(), opt_yaml(&self.env_file));
        proof {
            // Each key literal apart from the others: by length, or by a character.
            reveal_strlit("project_directory");
            assert("project_directory"@.len() == 17);
            assert("project_directory"@[0] == 'p');
            reveal_strlit("path");
            assert("path"@.len() == 4);
            assert("path"@[0] == 'p');
            reveal_strlit("env_file");
            assert("env_file"@.len() == 8);
            assert("env_file"@[0] == 'e');
            if self.canonical() {
                assert(self.matches(Yaml::Mapping(out)));
            }
        }
        Yaml::Mapping(out)
    }
}

impl Include {
    /// Every field holds its default.
    pub open spec fn is_default(&self) -> bool {
        &&& self.project_directory is None
        &&& self.path is None
        &&& self.env_file is None
    }
}

impl Default for Include {
    fn default() -> (r: Self)
        ensures
            r.is_default(),
    {
        Include {
            project_directory: None,
            path: None,
            env_file: None,
        }
    }
}

/// Builds an include record field by field.
pub struct IncludeBuilder {
    value: Include,
}

impl IncludeBuilder {
    /// What the builder holds so far.
    pub closed spec fn current(&self) -> Include {
        self.value
    }

    /// A builder with every field at its default.
    pub fn new() -> (r: Self)
        ensures
            r.current().project_directory is None,
            r.current().path is None,
            r.current().env_file is None,
    {
        IncludeBuilder {
            value: Include {
                project_directory: None,
                path: None,
                env_file: None,
            },
        }
    }

    /// Sets `project_directory`.
    pub fn project_directory(self, v: Option<String>) -> (r: Self)
        ensures
            r.current() == (Include { project_directory: v, ..self.current() }),
    {
        IncludeBuilder { value: Include { project_directory: v, ..self.value } }
    }

    /// Sets `path`.
    pub fn path(self, v: Option<String>) -> (r: Self)
        ensures
            r.current() == (Include { path: v, ..self.current() }),
    {
        IncludeBuilder { value: Include { path: v, ..self.value } }
    }

    /// Sets `env_file`.
    pub fn env_file(self, v: Option<EnvFile>) -> (r: Self)
        ensures
            r.current() == (Include { env_file: v, ..self.current() }),
    {
        IncludeBuilder { value: Include { env_file: v, ..self.value } }
    }

    /// The value built; every field not set keeps its default.
    pub fn build(self) -> (r: Result<Include, ParseError>)
        ensures
            r == Ok::<Include, ParseError>(self.current()),
    {
        Ok(self.value)
    }
}

/// Included files: paths, or records.
#[derive(Clone, Debug, PartialEq)]
pub enum Includes {
    Short(Vec<String>),
    Long(Vec<Include>),
}

impl Node for Includes {
    open spec fn equiv(&self, o: Self) -> bool {
        match self {
            Includes::Short(p) => o is Short && p.equiv(o->Short_0),
            Includes::Long(p) => o is Long && p.equiv(o->Long_0),
        }
    }

    proof fn lemma_unique(a: Self, b: Self, y: Yaml) {
        assert(a.matches(y) && b.matches(y));
        if a is Short && b is Short {
            <Vec<String> as Node>::lemma_unique(a->Short_0, b->Short_0, y);
        }
        if a is Long && b is Long {
            <Vec<Include> as Node>::lemma_unique(a->Long_0, b->Long_0, y);
        }
    }

    /// The first variant, in declaration order, whose payload reads the node.
    open spec fn matches(&self, y: Yaml) -> bool {
        match self {
            Includes::Short(p) => p.matches(y),
            Includes::Long(p) => p.matches(y) && (forall|q: Vec<String>| !#[trigger] q.matches(y)),
        }
    }

    open spec fn canonical(&self) -> bool {
        match self {
            Includes::Short(p) => p.canonical(),
            Includes::Long(p) => p.canonical() && p@.len() > 0,
        }
    }

    fn from_yaml(y: &Yaml) -> (r: Result<Self, ParseError>) {
        if let Ok(p) = <Vec<String> as Node>::from_yaml(y) {
            return Ok(Includes::Short(p));
        }
        match <Vec<Include> as Node>::from_yaml(y) {
            Ok(p) => Ok(Includes::Long(p)),
            Err(_) => Err(mismatch("a list of paths or of include records")),
        }
    }

    fn to_yaml(&self) -> (r: Yaml) {
        match self {
            Includes::Short(p) => p.to_yaml(),
            Includes::Long(p) => {
                let r = p.to_yaml();
                proof {
                    if self.canonical() {
                        assert forall|q: Vec<String>| !#[trigger] q.matches(r) by {
                            if q.matches(r) {
                                assert(p@[0].matches(r->List_0@[0]));
                                assert(q@[0].matches(r->List_0@[0]));
                            }
                        }
                    }
                }
                r
            },
        }
    }
}

impl Includes {
    /// Whether the value holds no entries, in either form.
    pub fn is_empty(&self) -> (r: bool)
        ensures
            r == match self {
                Includes::Short(p) => p@.len() == 0,
                Includes::Long(p) => p@.len() == 0,
            },
    {
        match self {
            Includes::Short(p) => p.len() == 0,
            Includes::Long(p) => p.len() == 0,
        }
    }
}

impl Defaulted for Includes {
    open spec fn is_default(&self) -> bool {
        self is Short && self->Short_0@.len() == 0
    }

    proof fn lemma_default_unique(a: Self, b: Self) {
        assert(a.is_default() && b.is_default());
        assert(a->Short_0.equiv(b->Short_0));
    }

    open spec fn empty(&self) -> bool {
        match self {
            Includes::Short(p) => p@.len() == 0,
            Includes::Long(p) => p@.len() == 0,
        }
    }

    fn default_value() -> (r: Self) {
        Includes::Short(Vec::new())
    }

    fn is_empty(&self) -> (r: bool) {
        Includes::is_empty(self)
    }
}

impl Default for Includes {
    fn default() -> (r: Self)
        ensures
            r.is_default(),
    {
        Includes::Short(Vec::new())
    }
}

} // verus!
