use vstd::prelude::*;
use crate::node::{
    all_string_keys, check_keys, dflt_field, dflt_matches, dflt_written, dflt_yaml, group_emit,
    keys_allowed, keys_ok, lemma_dflt_unique, lemma_opt_unique, lemma_req_unique, lookup, mismatch,
    opt_equiv, opt_field, opt_matches, opt_written, opt_yaml, put_opt, req_field, req_matches,
    str_eq, Defaulted, KeyPolicy, Node, Record,
};
use crate::omap::{group_ext, OrderedMap};
use crate::yaml::{ParseError, Yaml, YamlEntry};
use crate::service::Labels;
use crate::value::{MapOrEmpty, SingleValue};

verus! {

broadcast use {group_emit, group_ext};

/// The top-level networks: name to settings, or to nothing for all defaults.
#[derive(Clone, Debug, PartialEq)]
pub struct ComposeNetworks(pub OrderedMap<MapOrEmpty<NetworkSettings>>);

impl ComposeNetworks {
    pub fn is_empty(&self) -> (r: bool)
        ensures
            r == (self.0.entries@.len() == 0),
    {
        self.0.is_empty()
    }
}

impl Node for ComposeNetworks {
    open spec fn matches(&self, y: Yaml) -> bool {
        self.0.matches(y)
    }

    open spec fn equiv(&self, o: Self) -> bool {
        self.0.equiv(o.0)
    }

    proof fn lemma_unique(a: Self, b: Self, y: Yaml) {
        <OrderedMap<MapOrEmpty<NetworkSettings>> as Node>::lemma_unique(a.0, b.0, y);
    }

    open spec fn canonical(&self) -> bool {
        self.0.canonical()
    }

    fn from_yaml(y: &Yaml) -> (r: Result<Self, ParseError>) {
        let m = <OrderedMap<MapOrEmpty<NetworkSettings>> as Node>::from_yaml(y)?;
        Ok(ComposeNetworks(m))
    }

    fn to_yaml(&self) -> (r: Yaml) {
        self.0.to_yaml()
    }
}

impl Defaulted for ComposeNetworks {
    open spec fn is_default(&self) -> bool {
        self.0.entries@.len() == 0
    }

    proof fn lemma_default_unique(a: Self, b: Self) {
        assert(a.is_default() && b.is_default());
    }

    open spec fn empty(&self) -> bool {
        self.0.entries@.len() == 0
    }

    fn default_value() -> (r: Self) {
        ComposeNetworks(OrderedMap::new())
    }

    fn is_empty(&self) -> (r: bool) {
        ComposeNetworks::is_empty(self)
    }
}

impl Default for ComposeNetworks {
    fn default() -> (r: Self)
        ensures
            r.is_default(),
    {
        ComposeNetworks(OrderedMap::new())
    }
}

/// The `external` setting of a network: a flag, or the name the network really has.
#[derive(Clone, Debug, PartialEq)]
pub enum ComposeNetwork {
    Detailed(ComposeNetworkSettingDetails),
    Bool(bool),
}

impl Node for ComposeNetwork {
    open spec fn equiv(&self, o: Self) -> bool {
        match self {
            ComposeNetwork::Detailed(p) => o is Detailed && p.equiv(o->Detailed_0),
            ComposeNetwork::Bool(p) => o is Bool && p.equiv(o->Bool_0),
        }
    }

    proof fn lemma_unique(a: Self, b: Self, y: Yaml) {
        assert(a.matches(y) && b.matches(y));
        if a is Detailed && b is Detailed {
            <ComposeNetworkSettingDetails as Node>::lemma_unique(a->Detailed_0, b->Detailed_0, y);
        }
        if a is Bool && b is Bool {
            <bool as Node>::lemma_unique(a->Bool_0, b->Bool_0, y);
        }
    }

    /// The first variant, in declaration order, whose payload reads the node.
    open spec fn matches(&self, y: Yaml) -> bool {
        match self {
            ComposeNetwork::Detailed(p) => p.matches(y),
            ComposeNetwork::Bool(p) => p.matches(y) && (forall|q: ComposeNetworkSettingDetails| !#[trigger] q.matches(y)),
        }
    }

    open spec fn canonical(&self) -> bool {
        match self {
            ComposeNetwork::Detailed(p) => p.canonical(),
            ComposeNetwork::Bool(p) => p.canonical(),
        }
    }

    fn from_yaml(y: &Yaml) -> (r: Result<Self, ParseError>) {
        if let Ok(p) = <ComposeNetworkSettingDetails as Node>::from_yaml(y) {
            return Ok(ComposeNetwork::Detailed(p));
        }
        match <bool as Node>::from_yaml(y) {
            Ok(p) => Ok(ComposeNetwork::Bool(p)),
            Err(_) => Err(mismatch("a boolean or a mapping with a name")),
        }
    }

    fn to_yaml(&self) -> (r: Yaml) {
        match self {
            ComposeNetwork::Detailed(p) => p.to_yaml(),
            ComposeNetwork::Bool(p) => p.to_yaml(),
        }
    }
}

/// An externally managed network that goes by another name.
#[derive(Clone, Debug, PartialEq)]
pub struct ComposeNetworkSettingDetails {
    /// The name of the network outside the project.
    pub name: String,
}

impl Record for ComposeNetworkSettingDetails {
    open spec fn is_field(k: Seq<char>) -> bool {
        k == "name"@
    }

    fn field(k: &str) -> (r: bool) {
        str_eq(k, "name")
    }
}

/// How the fields of a `ComposeNetworkSettingDetails` read the entries of the mapping `y`.
#[verifier::opaque]
pub open spec fn compose_network_setting_details_fields(v: ComposeNetworkSettingDetails, y: Yaml) -> bool {
    &&& keys_ok::<ComposeNetworkSettingDetails>(y->Mapping_0@, KeyPolicy::Strict)
    &&& req_matches(v.name, lookup(y->Mapping_0@, "name"@))
}

/// Every field of `a` holds the same data as that of `b`.
#[verifier::opaque]
pub open spec fn compose_network_setting_details_equiv(a: ComposeNetworkSettingDetails, b: ComposeNetworkSettingDetails) -> bool {
    &&& a.name.equiv(b.name)
}

/// Each field of a `ComposeNetworkSettingDetails` is one that writing and reading back keeps.
#[verifier::opaque]
pub open spec fn compose_network_setting_details_written(v: ComposeNetworkSettingDetails) -> bool {
    &&& v.name.canonical()
}

impl Node for ComposeNetworkSettingDetails {
    open spec fn matches(&self, y: Yaml) -> bool {
        y is Mapping && compose_network_setting_details_fields(*self, y)
    }

    open spec fn equiv(&self, o: Self) -> bool {
        compose_network_setting_details_equiv(*self, o)
    }

    proof fn lemma_unique(a: Self, b: Self, y: Yaml) {
        reveal(compose_network_setting_details_fields);
        reveal(compose_network_setting_details_equiv);
        let es = y->Mapping_0@;
        lemma_req_unique(a.name, b.name, lookup(es, "name"@));
    }

    open spec fn canonical(&self) -> bool {
        compose_network_setting_details_written(*self)
    }

    /// A key that is not allowed here is the error, where all keys are strings.
    fn from_yaml(y: &Yaml) -> (r: Result<Self, ParseError>)
        ensures
            y is Mapping && all_string_keys(y->Mapping_0@) && !keys_allowed::<ComposeNetworkSettingDetails>(
                y->Mapping_0@,
                KeyPolicy::Strict,
            ) ==> (r matches Err(ParseError::UnknownField(k)) && !ComposeNetworkSettingDetails::is_field(k@)),
    {
        reveal(compose_network_setting_details_fields);
        match y {
            Yaml::Mapping(es) => {
                if let Err(e) = check_keys::<ComposeNetworkSettingDetails>(es, KeyPolicy::Strict) {
                    return Err(e);
                }
                let name = req_field::<String>(es, "name")?;
                Ok(ComposeNetworkSettingDetails { name })
            },
            _ => Err(mismatch("a mapping")),
        }
    }

    fn to_yaml(&self) -> (r: Yaml)
        ensures
            r is Mapping,
            lookup(r->Mapping_0@, "name"@) is Some,
    {
        reveal(compose_network_setting_details_fields);
        reveal(compose_network_setting_details_written);
        let mut out: Vec<YamlEntry> = Vec::new();
        put_opt(&mut out, "name".to_owned(), Some(self.name.to_yaml()));
        proof {
            // Each key literal apart from the others: by length, or by a character.
            reveal_strlit("name");
            assert("name"@.len() == 4);
            assert("name"@[0] == 'n');
            if self.canonical() {
                assert(self.matches(Yaml::Mapping(out)));
            }
        }
        Yaml::Mapping(out)
    }
}

/// A bare `external` flag.
#[derive(Clone, Debug, PartialEq)]
pub struct ExternalNetworkSettingBool(pub bool);

impl Node for ExternalNetworkSettingBool {
    open spec fn matches(&self, y: Yaml) -> bool {
        self.0.matches(y)
    }

    open spec fn equiv(&self, o: Self) -> bool {
        self.0 == o.0
    }

    proof fn lemma_unique(a: Self, b: Self, y: Yaml) {
        assert(a.matches(y) && b.matches(y));
    }

    open spec fn canonical(&self) -> bool {
        true
    }

    fn from_yaml(y: &Yaml) -> (r: Result<Self, ParseError>) {
        let b = <bool as Node>::from_yaml(y)?;
        Ok(ExternalNetworkSettingBool(b))
    }

    fn to_yaml(&self) -> (r: Yaml) {
        self.0.to_yaml()
    }
}

/// The settings of a top-level network.
#[derive(Clone, Debug, PartialEq)]
pub struct NetworkSettings {
    /// Whether standalone containers may attach.
    pub attachable: bool,
    /// The network driver.
    pub driver: Option<String>,
    /// Options handed to the driver.
    pub driver_opts: OrderedMap<Option<SingleValue>>,
    /// Whether IPv6 is enabled.
    pub enable_ipv6: bool,
    /// Whether the network is cut off from outside.
    pub internal: bool,
    /// Whether the network is managed outside the project.
    pub external: Option<ComposeNetwork>,
    /// Address management.
    pub ipam: Option<Ipam>,
    /// Metadata labels.
    pub labels: Labels,
    /// A custom name for the network.
    pub name: Option<String>,
}

impl Record for NetworkSettings {
    open spec fn is_field(k: Seq<char>) -> bool {
        k == "attachable"@
            || k == "driver"@
            || k == "driver_opts"@
            || k == "enable_ipv6"@
            || k == "internal"@
            || k == "external"@
            || k == "ipam"@
            || k == "labels"@
            || k == "name"@
    }

    fn field(k: &str) -> (r: bool) {
        str_eq(k, "attachable")
            || str_eq(k, "driver")
            || str_eq(k, "driver_opts")
            || str_eq(k, "enable_ipv6")
            || str_eq(k, "internal")
            || str_eq(k, "external")
            || str_eq(k, "ipam")
            || str_eq(k, "labels")
            || str_eq(k, "name")
    }
}

/// How the fields of a `NetworkSettings` read the entries of the mapping `y`.
#[verifier::opaque]
pub open spec fn network_settings_fields(v: NetworkSettings, y: Yaml) -> bool {
    &&& keys_ok::<NetworkSettings>(y->Mapping_0@, KeyPolicy::Strict)
    &&& dflt_matches(v.attachable, lookup(y->Mapping_0@, "attachable"@))
    &&& opt_matches(v.driver, lookup(y->Mapping_0@, "driver"@))
    &&& dflt_matches(v.driver_opts, lookup(y->Mapping_0@, "driver_opts"@))
    &&& dflt_matches(v.enable_ipv6, lookup(y->Mapping_0@, "enable_ipv6"@))
    &&& dflt_matches(v.internal, lookup(y->Mapping_0@, "internal"@))
    &&& opt_matches(v.external, lookup(y->Mapping_0@, "external"@))
    &&& opt_matches(v.ipam, lookup(y->Mapping_0@, "ipam"@))
    &&& dflt_matches(v.labels, lookup(y->Mapping_0@, "labels"@))
    &&& opt_matches(v.name, lookup(y->Mapping_0@, "name"@))
}

/// Every field of `a` holds the same data as that of `b`.
#[verifier::opaque]
pub open spec fn network_settings_equiv(a: NetworkSettings, b: NetworkSettings) -> bool {
    &&& a.attachable.equiv(b.attachable)
    &&& opt_equiv(a.driver, b.driver)
    &&& a.driver_opts.equiv(b.driver_opts)
    &&& a.enable_ipv6.equiv(b.enable_ipv6)
    &&& a.internal.equiv(b.internal)
    &&& opt_equiv(a.external, b.external)
    &&& opt_equiv(a.ipam, b.ipam)
    &&& a.labels.equiv(b.labels)
    &&& opt_equiv(a.name, b.name)
}

/// Each field of a `NetworkSettings` is one that writing and reading back keeps.
#[verifier::opaque]
pub open spec fn network_settings_written(v: NetworkSettings) -> bool {
    &&& dflt_written(v.attachable)
    &&& opt_written(v.driver)
    &&& dflt_written(v.driver_opts)
    &&& dflt_written(v.enable_ipv6)
    &&& dflt_written(v.internal)
    &&& opt_written(v.external)
    &&& opt_written(v.ipam)
    &&& dflt_written(v.labels)
    &&& opt_written(v.name)
}

impl Node for NetworkSettings {
    open spec fn matches(&self, y: Yaml) -> bool {
        y is Mapping && network_settings_fields(*self, y)
    }

    open spec fn equiv(&self, o: Self) -> bool {
        network_settings_equiv(*self, o)
    }

    proof fn lemma_unique(a: Self, b: Self, y: Yaml) {
        reveal(network_settings_fields);
        reveal(network_settings_equiv);
        let es = y->Mapping_0@;
        lemma_dflt_unique(a.attachable, b.attachable, lookup(es, "attachable"@));
        lemma_opt_unique(a.driver, b.driver, lookup(es, "driver"@));
        lemma_dflt_unique(a.driver_opts, b.driver_opts, lookup(es, "driver_opts"@));
        lemma_dflt_unique(a.enable_ipv6, b.enable_ipv6, lookup(es, "enable_ipv6"@));
        lemma_dflt_unique(a.internal, b.internal, lookup(es, "internal"@));
        lemma_opt_unique(a.external, b.external, lookup(es, "external"@));
        lemma_opt_unique(a.ipam, b.ipam, lookup(es, "ipam"@));
        lemma_dflt_unique(a.labels, b.labels, lookup(es, "labels"@));
        lemma_opt_unique(a.name, b.name, lookup(es, "name"@));
    }

    open spec fn canonical(&self) -> bool {
        network_settings_written(*self)
    }

    /// A key that is not allowed here is the error, where all keys are strings.
    fn from_yaml(y: &Yaml) -> (r: Result<Self, ParseError>)
        ensures
            y is Mapping && all_string_keys(y->Mapping_0@) && !keys_allowed::<NetworkSettings>(
                y->Mapping_0@,
                KeyPolicy::Strict,
            ) ==> (r matches Err(ParseError::UnknownField(k)) && !NetworkSettings::is_field(k@)),
    {
        reveal(network_settings_fields);
        match y {
            Yaml::Mapping(es) => {
                if let Err(e) = check_keys::<NetworkSettings>(es, KeyPolicy::Strict) {
                    return Err(e);
                }
                let attachable = dflt_field::<bool>(es, "attachable")?;
                let driver = opt_field::<String>(es, "driver")?;
                let driver_opts = dflt_field::<OrderedMap<Option<SingleValue>>>(es, "driver_opts")?;
                let enable_ipv6 = dflt_field::<bool>(es, "enable_ipv6")?;
                let internal = dflt_field::<bool>(es, "internal")?;
                let external = opt_field::<ComposeNetwork>(es, "external")?;
                let ipam = opt_field::<Ipam>(es, "ipam")?;
                let labels = dflt_field::<Labels>(es, "labels")?;
                let name = opt_field::<String>(es, "name")?;
                Ok(NetworkSettings { attachable, driver, driver_opts, enable_ipv6, internal, external, ipam, labels, name })
            },
            _ => Err(mismatch("a mapping")),
        }
    }

    fn to_yaml(&self) -> (r: Yaml)
        ensures
            r is Mapping,
            self.is_default() ==> r->Mapping_0@.len() == 0,
            (lookup(r->Mapping_0@, "attachable"@) is None) == self.attachable.empty(),
            (lookup(r->Mapping_0@, "driver"@) is None) == (self.driver is None),
            (lookup(r->Mapping_0@, "driver_opts"@) is None) == self.driver_opts.empty(),
            (lookup(r->Mapping_0@, "enable_ipv6"@) is None) == self.enable_ipv6.empty(),
            (lookup(r->Mapping_0@, "internal"@) is None) == self.internal.empty(),
            (lookup(r->Mapping_0@, "external"@) is None) == (self.external is None),
            (lookup(r->Mapping_0@, "ipam"@) is None) == (self.ipam is None),
            (lookup(r->Mapping_0@, "labels"@) is None) == self.labels.empty(),
            (lookup(r->Mapping_0@, "name"@) is None) == (self.name is None),
    {
        reveal(network_settings_fields);
        reveal(network_settings_written);
        let mut out: Vec<YamlEntry> = Vec::new();
        put_opt(&mut out, "attachable".to_owned(), dflt_yaml(&self.attachable));
        put_opt(&mut out, "driver".to_owned(), opt_yaml(&self.driver));
        put_opt(&mut out, "driver_opts".to_owned(), dflt_yaml(&self.driver_opts));
        put_opt(&mut out, "enable_ipv6".to_owned(), dflt_yaml(&self.enable_ipv6));
        put_opt(&mut out, "internal".to_owned(), dflt_yaml(&self.internal));
        put_opt(&mut out, "external".to_owned(), opt_yaml(&self.external));
        put_opt(&mut out, "ipam".to_owned(), opt_yaml(&self.ipam));
        put_opt(&mut out, "labels".to_owned(), dflt_yaml(&self.labels));
        put_opt(&mut out, "name".to_owned(), opt_yaml(&self.name));
        proof {
            // Each key literal apart from the others: by length, or by a character.
            reveal_strlit("attachable");
            assert("attachable"@.len() == 10);
            assert("attachable"@[0] == 'a');
            reveal_strlit("driver");
            assert("driver"@.len() == 6);
            assert("driver"@[0] == 'd');
            reveal_strlit("driver_opts");
            assert("driver_opts"@.len() == 11);
            assert("driver_opts"@[0] == 'd');
            reveal_strlit("enable_ipv6");
            assert("enable_ipv6"@.len() == 11);
            assert("enable_ipv6"@[0] == 'e');
            reveal_strlit("internal");
            assert("internal"@.len() == 8);
            assert("internal"@[0] == 'i');
            reveal_strlit("external");
            assert("external"@.len() == 8);
            assert("external"@[0] == 'e');
            reveal_strlit("ipam");
            assert("ipam"@.len() == 4);
            assert("ipam"@[0] == 'i');
            reveal_strlit("labels");
            assert("labels"@.len() == 6);
            assert("labels"@[0] == 'l');
            reveal_strlit("name");
            assert("name"@.len() == 4);
            assert("name"@[0] == 'n');
            if self.canonical() {
                assert(self.matches(Yaml::Mapping(out)));
            }
        }
        Yaml::Mapping(out)
    }
}

impl NetworkSettings {
    /// Every field holds its default.
    pub open spec fn is_default(&self) -> bool {
        &&& self.attachable.is_default()
        &&& self.driver is None
        &&& self.driver_opts.is_default()
        &&& self.enable_ipv6.is_default()
        &&& self.internal.is_default()
        &&& self.external is None
        &&& self.ipam is None
        &&& self.labels.is_default()
        &&& self.name is None
    }
}

impl Default for NetworkSettings {
    fn default() -> (r: Self)
        ensures
            r.is_default(),
    {
        NetworkSettings {
            attachable: <bool as Defaulted>::default_value(),
            driver: None,
            driver_opts: <OrderedMap<Option<SingleValue>> as Defaulted>::default_value(),
            enable_ipv6: <bool as Defaulted>::default_value(),
            internal: <bool as Defaulted>::default_value(),
            external: None,
            ipam: None,
            labels: <Labels as Defaulted>::default_value(),
            name: None,
        }
    }
}

/// IP address management of a network.
#[derive(Clone, Debug, PartialEq)]
pub struct Ipam {
    /// The address management driver.
    pub driver: Option<String>,
    /// The address pools.
    pub config: Vec<IpamConfig>,
}

impl Record for Ipam {
    open spec fn is_field(k: Seq<char>) -> bool {
        k == "driver"@
            || k == "config"@
    }

    fn field(k: &str) -> (r: bool) {
        str_eq(k, "driver")
            || str_eq(k, "config")
    }
}

/// How the fields of a `Ipam` read the entries of the mapping `y`.
#[verifier::opaque]
pub open spec fn ipam_fields(v: Ipam, y: Yaml) -> bool {
    &&& keys_ok::<Ipam>(y->Mapping_0@, KeyPolicy::Strict)
    &&& opt_matches(v.driver, lookup(y->Mapping_0@, "driver"@))
    &&& dflt_matches(v.config, lookup(y->Mapping_0@, "config"@))
}

/// Every field of `a` holds the same data as that of `b`.
#[verifier::opaque]
pub open spec fn ipam_equiv(a: Ipam, b: Ipam) -> bool {
    &&& opt_equiv(a.driver, b.driver)
    &&& a.config.equiv(b.config)
}

/// Each field of a `Ipam` is one that writing and reading back keeps.
#[verifier::opaque]
pub open spec fn ipam_written(v: Ipam) -> bool {
    &&& opt_written(v.driver)
    &&& dflt_written(v.config)
}

impl Node for Ipam {
    open spec fn matches(&self, y: Yaml) -> bool {
        y is Mapping && ipam_fields(*self, y)
    }

    open spec fn equiv(&self, o: Self) -> bool {
        ipam_equiv(*self, o)
    }

    proof fn lemma_unique(a: Self, b: Self, y: Yaml) {
        reveal(ipam_fields);
        reveal(ipam_equiv);
        let es = y->Mapping_0@;
        lemma_opt_unique(a.driver, b.driver, lookup(es, "driver"@));
        lemma_dflt_unique(a.config, b.config, lookup(es, "config"@));
    }

    open spec fn canonical(&self) -> bool {
        ipam_written(*self)
    }

    /// A key that is not allowed here is the error, where all keys are strings.
    fn from_yaml(y: &Yaml) -> (r: Result<Self, ParseError>)
        ensures
            y is Mapping && all_string_keys(y->Mapping_0@) && !keys_allowed::<Ipam>(
                y->Mapping_0@,
                KeyPolicy::Strict,
            ) ==> (r matches Err(ParseError::UnknownField(k)) && !Ipam::is_field(k@)),
    {
        reveal(ipam_fields);
        match y {
            Yaml::Mapping(es) => {
                if let Err(e) = check_keys::<Ipam>(es, KeyPolicy::Strict) {
                    return Err(e);
                }
                let driver = opt_field::<String>(es, "driver")?;
                let config = dflt_field::<Vec<IpamConfig>>(es, "config")?;
                Ok(Ipam { driver, config })
            },
            _ => Err(mismatch("a mapping")),
        }
    }

    fn to_yaml(&self) -> (r: Yaml)
        ensures
            r is Mapping,
            self.is_default() ==> r->Mapping_0@.len() == 0,
            (lookup(r->Mapping_0@, "driver"@) is None) == (self.driver is None),
            (lookup(r->Mapping_0@, "config"@) is None) == self.config.empty(),
    {
        reveal(ipam_fields);
        reveal(ipam_written);
        let mut out: Vec<YamlEntry> = Vec::new();
        put_opt(&mut out, "driver".to_owned(), opt_yaml(&self.driver));
        put_opt(&mut out, "config".to_owned(), dflt_yaml(&self.config));
        proof {
            // Each key literal apart from the others: by length, or by a character.
            reveal_strlit("driver");
            assert("driver"@.len() == 6);
            assert("driver"@[0] == 'd');
            reveal_strlit("config");
            assert("config"@.len() == 6);
            assert("config"@[0] == 'c');
            if self.canonical() {
                assert(self.matches(Yaml::Mapping(out)));
            }
        }
        Yaml::Mapping(out)
    }
}

impl Ipam {
    /// Every field holds its default.
    pub open spec fn is_default(&self) -> bool {
        &&& self.driver is None
        &&& self.config.is_default()
    }
}

impl Default for Ipam {
    fn default() -> (r: Self)
        ensures
            r.is_default(),
    {
        Ipam {
            driver: None,
            config: <Vec<IpamConfig> as Defaulted>::default_value(),
        }
    }
}

/// One address pool of a network.
#[derive(Clone, Debug, PartialEq)]
pub struct IpamConfig {
    /// The subnet, in CIDR notation.
    pub subnet: String,
    /// The gateway address.
    pub gateway: Option<String>,
}

impl Record for IpamConfig {
    open spec fn is_field(k: Seq<char>) -> bool {
        k == "subnet"@
            || k == "gateway"@
    }

    fn field(k: &str) -> (r: bool) {
        str_eq(k, "subnet")
            || str_eq(k, "gateway")
    }
}

/// How the fields of a `IpamConfig` read the entries of the mapping `y`.
#[verifier::opaque]
pub open spec fn ipam_config_fields(v: IpamConfig, y: Yaml) -> bool {
    &&& keys_ok::<IpamConfig>(y->Mapping_0@, KeyPolicy::Strict)
    &&& req_matches(v.subnet, lookup(y->Mapping_0@, "subnet"@))
    &&& opt_matches(v.gateway, lookup(y->Mapping_0@, "gateway"@))
}

/// Every field of `a` holds the same data as that of `b`.
#[verifier::opaque]
pub open spec fn ipam_config_equiv(a: IpamConfig, b: IpamConfig) -> bool {
    &&& a.subnet.equiv(b.subnet)
    &&& opt_equiv(a.gateway, b.gateway)
}

/// Each field of a `IpamConfig` is one that writing and reading back keeps.
#[verifier::opaque]
pub open spec fn ipam_config_written(v: IpamConfig) -> bool {
    &&& v.subnet.canonical()
    &&& opt_written(v.gateway)
}

impl Node for IpamConfig {
    open spec fn matches(&self, y: Yaml) -> bool {
        y is Mapping && ipam_config_fields(*self, y)
    }

    open spec fn equiv(&self, o: Self) -> bool {
        ipam_config_equiv(*self, o)
    }

    proof fn lemma_unique(a: Self, b: Self, y: Yaml) {
        reveal(ipam_config_fields);
        reveal(ipam_config_equiv);
        let es = y->Mapping_0@;
        lemma_req_unique(a.subnet, b.subnet, lookup(es, "subnet"@));
        lemma_opt_unique(a.gateway, b.gateway, lookup(es, "gateway"@));
    }

    open spec fn canonical(&self) -> bool {
        ipam_config_written(*self)
    }

    /// A key that is not allowed here is the error, where all keys are strings.
    fn from_yaml(y: &Yaml) -> (r: Result<Self, ParseError>)
        ensures
            y is Mapping && all_string_keys(y->Mapping_0@) && !keys_allowed::<IpamConfig>(
                y->Mapping_0@,
                KeyPolicy::Strict,
            ) ==> (r matches Err(ParseError::UnknownField(k)) && !IpamConfig::is_field(k@)),
    {
        reveal(ipam_config_fields);
        match y {
            Yaml::Mapping(es) => {
                if let Err(e) = check_keys::<IpamConfig>(es, KeyPolicy::Strict) {
                    return Err(e);
                }
                let subnet = req_field::<String>(es, "subnet")?;
                let gateway = opt_field::<String>(es, "gateway")?;
                Ok(IpamConfig { subnet, gateway })
            },
            _ => Err(mismatch("a mapping")),
        }
    }

    fn to_yaml(&self) -> (r: Yaml)
        ensures
            r is Mapping,
            lookup(r->Mapping_0@, "subnet"@) is Some,
            (lookup(r->Mapping_0@, "gateway"@) is None) == (self.gateway is None),
    {
        reveal(ipam_config_fields);
        reveal(ipam_config_written);
        let mut out: Vec<YamlEntry> = Vec::new();
        put_opt(&mut out, "subnet".to_owned(), Some(self.subnet.to_yaml()));
        put_opt(&mut out, "gateway".to_owned(), opt_yaml(&self.gateway));
        proof {
            // Each key literal apart from the others: by length, or by a character.
            reveal_strlit("subnet");
            assert("subnet"@.len() == 6);
            assert("subnet"@[0] == 's');
            reveal_strlit("gateway");
            assert("gateway"@.len() == 7);
            assert("gateway"@[0] == 'g');
            if self.canonical() {
                assert(self.matches(Yaml::Mapping(out)));
            }
        }
        Yaml::Mapping(out)
    }
}

} // verus!
