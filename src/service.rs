use vstd::prelude::*;
use crate::node::{
    all_string_keys, check_keys, dflt_field, dflt_matches, dflt_written, dflt_yaml, distinct_keys,
    get, group_emit, is_ext, keys_allowed, keys_ok, lemma_dflt_unique, lemma_opt_unique,
    lemma_req_unique, lookup, mismatch, opt_equiv, opt_field, opt_matches, opt_written, opt_yaml,
    put_opt, req_field, req_matches, str_eq, Defaulted, KeyPolicy, Node, Record,
};
use crate::omap::{
    ext_entries, ext_keys, ext_matches, extensions_of, group_ext, lemma_ext_unique, put_extensions,
    OrderedMap,
};
use crate::yaml::{ParseError, Yaml, YamlEntry};
use crate::secret::Secrets;
use crate::value::{MapOrEmpty, Number, SingleValue};
use crate::volume::Volumes;

verus! {

broadcast use {group_emit, group_ext};

/// One container definition. Keys that name no field must be `x-` extensions.
#[derive(Clone, Debug, PartialEq)]
pub struct Service {
    /// The container's host name.
    pub hostname: Option<String>,
    /// The container's domain name.
    pub domainname: Option<String>,
    /// Whether the container runs with extended privileges.
    pub privileged: bool,
    /// Whether the root filesystem is read-only.
    pub read_only: bool,
    /// How the container's health is checked.
    pub healthcheck: Option<Healthcheck>,
    /// Deployment settings.
    pub deploy: Option<Deploy>,
    /// The image to run.
    pub image: Option<String>,
    /// A custom container name.
    pub container_name: Option<String>,
    /// How the image is built (the `build` key).
    pub build_: Option<BuildStep>,
    /// The PID namespace.
    pub pid: Option<String>,
    /// Published ports.
    pub ports: Ports,
    /// Environment variables.
    pub environment: Environment,
    /// The network mode.
    pub network_mode: Option<String>,
    /// Devices mapped into the container.
    pub devices: Vec<String>,
    /// The restart policy.
    pub restart: Option<String>,
    /// Metadata labels.
    pub labels: Labels,
    /// tmpfs mounts.
    pub tmpfs: Option<Tmpfs>,
    /// Resource limits.
    pub ulimits: Ulimits,
    /// Mounted volumes.
    pub volumes: Vec<Volumes>,
    /// Networks the service joins.
    pub networks: Networks,
    /// Capabilities added.
    pub cap_add: Vec<String>,
    /// Capabilities dropped.
    pub cap_drop: Vec<String>,
    /// Services started first.
    pub depends_on: DependsOnOptions,
    /// The command run.
    pub command: Option<Command>,
    /// The entrypoint.
    pub entrypoint: Option<Entrypoint>,
    /// Files of environment variables.
    pub env_file: Option<EnvFile>,
    /// How long to wait before killing the container.
    pub stop_grace_period: Option<String>,
    /// Profiles the service belongs to.
    pub profiles: Vec<String>,
    /// Links to other services.
    pub links: Vec<String>,
    /// DNS servers.
    pub dns: Vec<String>,
    /// The IPC namespace.
    pub ipc: Option<String>,
    /// The network, in the legacy form.
    pub net: Option<String>,
    /// The signal that stops the container.
    pub stop_signal: Option<String>,
    /// The user the container runs as.
    pub user: Option<String>,
    /// The user namespace.
    pub userns_mode: Option<String>,
    /// The working directory.
    pub working_dir: Option<String>,
    /// Ports exposed to linked services.
    pub expose: Vec<String>,
    /// Containers whose volumes are mounted.
    pub volumes_from: Vec<String>,
    /// The service this one extends, and where it is defined.
    pub extends: OrderedMap<String>,
    /// Logging settings.
    pub logging: Option<LoggingParameters>,
    /// The number of containers.
    pub scale: i64,
    /// Whether an init process runs in the container.
    pub init: bool,
    /// Whether stdin stays open.
    pub stdin_open: bool,
    /// The size of /dev/shm.
    pub shm_size: Option<String>,
    /// Vendor extensions: the `x-` keys, in order.
    pub extensions: OrderedMap<Yaml>,
    /// Extra host name mappings.
    pub extra_hosts: Vec<String>,
    /// Extra groups of the user.
    pub group_add: Vec<Group>,
    /// Whether a TTY is allocated.
    pub tty: bool,
    /// Kernel parameters.
    pub sysctls: SysCtls,
    /// Security options.
    pub security_opt: Vec<String>,
    /// Secrets the service is given.
    pub secrets: Option<Secrets>,
    /// When the image is pulled.
    pub pull_policy: Option<PullPolicy>,
    /// The parent cgroup.
    pub cgroup_parent: Option<String>,
    /// The memory limit.
    pub mem_limit: Option<String>,
    /// The memory reservation.
    pub mem_reservation: Option<String>,
    /// The memory swappiness.
    pub mem_swappiness: Option<u16>,
    /// The container runtime.
    pub runtime: Option<String>,
}

impl Record for Service {
    open spec fn is_field(k: Seq<char>) -> bool {
        k == "hostname"@
            || k == "domainname"@
            || k == "privileged"@
            || k == "read_only"@
            || k == "healthcheck"@
            || k == "deploy"@
            || k == "image"@
            || k == "container_name"@
            || k == "build"@
            || k == "pid"@
            || k == "ports"@
            || k == "environment"@
            || k == "network_mode"@
            || k == "devices"@
            || k == "restart"@
            || k == "labels"@
            || k == "tmpfs"@
            || k == "ulimits"@
            || k == "volumes"@
            || k == "networks"@
            || k == "cap_add"@
            || k == "cap_drop"@
            || k == "depends_on"@
            || k == "command"@
            || k == "entrypoint"@
            || k == "env_file"@
            || k == "stop_grace_period"@
            || k == "profiles"@
            || k == "links"@
            || k == "dns"@
            || k == "ipc"@
            || k == "net"@
            || k == "stop_signal"@
            || k == "user"@
            || k == "userns_mode"@
            || k == "working_dir"@
            || k == "expose"@
            || k == "volumes_from"@
            || k == "extends"@
            || k == "logging"@
            || k == "scale"@
            || k == "init"@
            || k == "stdin_open"@
            || k == "shm_size"@
            || k == "extra_hosts"@
            || k == "group_add"@
            || k == "tty"@
            || k == "sysctls"@
            || k == "security_opt"@
            || k == "secrets"@
            || k == "pull_policy"@
            || k == "cgroup_parent"@
            || k == "mem_limit"@
            || k == "mem_reservation"@
            || k == "mem_swappiness"@
            || k == "runtime"@
    }

    fn field(k: &str) -> (r: bool) {
        str_eq(k, "hostname")
            || str_eq(k, "domainname")
            || str_eq(k, "privileged")
            || str_eq(k, "read_only")
            || str_eq(k, "healthcheck")
            || str_eq(k, "deploy")
            || str_eq(k, "image")
            || str_eq(k, "container_name")
            || str_eq(k, "build")
            || str_eq(k, "pid")
            || str_eq(k, "ports")
            || str_eq(k, "environment")
            || str_eq(k, "network_mode")
            || str_eq(k, "devices")
            || str_eq(k, "restart")
            || str_eq(k, "labels")
            || str_eq(k, "tmpfs")
            || str_eq(k, "ulimits")
            || str_eq(k, "volumes")
            || str_eq(k, "networks")
            || str_eq(k, "cap_add")
            || str_eq(k, "cap_drop")
            || str_eq(k, "depends_on")
            || str_eq(k, "command")
            || str_eq(k, "entrypoint")
            || str_eq(k, "env_file")
            || str_eq(k, "stop_grace_period")
            || str_eq(k, "profiles")
            || str_eq(k, "links")
            || str_eq(k, "dns")
            || str_eq(k, "ipc")
            || str_eq(k, "net")
            || str_eq(k, "stop_signal")
            || str_eq(k, "user")
            || str_eq(k, "userns_mode")
            || str_eq(k, "working_dir")
            || str_eq(k, "expose")
            || str_eq(k, "volumes_from")
            || str_eq(k, "extends")
            || str_eq(k, "logging")
            || str_eq(k, "scale")
            || str_eq(k, "init")
            || str_eq(k, "stdin_open")
            || str_eq(k, "shm_size")
            || str_eq(k, "extra_hosts")
            || str_eq(k, "group_add")
            || str_eq(k, "tty")
            || str_eq(k, "sysctls")
            || str_eq(k, "security_opt")
            || str_eq(k, "secrets")
            || str_eq(k, "pull_policy")
            || str_eq(k, "cgroup_parent")
            || str_eq(k, "mem_limit")
            || str_eq(k, "mem_reservation")
            || str_eq(k, "mem_swappiness")
            || str_eq(k, "runtime")
    }
}

/// How the fields of a `Service` read the entries of the mapping `y`.
#[verifier::opaque]
pub open spec fn service_fields(v: Service, y: Yaml) -> bool {
    &&& keys_ok::<Service>(y->Mapping_0@, KeyPolicy::Extensions)
    &&& opt_matches(v.hostname, lookup(y->Mapping_0@, "hostname"@))
    &&& opt_matches(v.domainname, lookup(y->Mapping_0@, "domainname"@))
    &&& dflt_matches(v.privileged, lookup(y->Mapping_0@, "privileged"@))
    &&& dflt_matches(v.read_only, lookup(y->Mapping_0@, "read_only"@))
    &&& opt_matches(v.healthcheck, lookup(y->Mapping_0@, "healthcheck"@))
    &&& opt_matches(v.deploy, lookup(y->Mapping_0@, "deploy"@))
    &&& opt_matches(v.image, lookup(y->Mapping_0@, "image"@))
    &&& opt_matches(v.container_name, lookup(y->Mapping_0@, "container_name"@))
    &&& opt_matches(v.build_, lookup(y->Mapping_0@, "build"@))
    &&& opt_matches(v.pid, lookup(y->Mapping_0@, "pid"@))
    &&& dflt_matches(v.ports, lookup(y->Mapping_0@, "ports"@))
    &&& dflt_matches(v.environment, lookup(y->Mapping_0@, "environment"@))
    &&& opt_matches(v.network_mode, lookup(y->Mapping_0@, "network_mode"@))
    &&& dflt_matches(v.devices, lookup(y->Mapping_0@, "devices"@))
    &&& opt_matches(v.restart, lookup(y->Mapping_0@, "restart"@))
    &&& dflt_matches(v.labels, lookup(y->Mapping_0@, "labels"@))
    &&& opt_matches(v.tmpfs, lookup(y->Mapping_0@, "tmpfs"@))
    &&& dflt_matches(v.ulimits, lookup(y->Mapping_0@, "ulimits"@))
    &&& dflt_matches(v.volumes, lookup(y->Mapping_0@, "volumes"@))
    &&& dflt_matches(v.networks, lookup(y->Mapping_0@, "networks"@))
    &&& dflt_matches(v.cap_add, lookup(y->Mapping_0@, "cap_add"@))
    &&& dflt_matches(v.cap_drop, lookup(y->Mapping_0@, "cap_drop"@))
    &&& dflt_matches(v.depends_on, lookup(y->Mapping_0@, "depends_on"@))
    &&& opt_matches(v.command, lookup(y->Mapping_0@, "command"@))
    &&& opt_matches(v.entrypoint, lookup(y->Mapping_0@, "entrypoint"@))
    &&& opt_matches(v.env_file, lookup(y->Mapping_0@, "env_file"@))
    &&& opt_matches(v.stop_grace_period, lookup(y->Mapping_0@, "stop_grace_period"@))
    &&& dflt_matches(v.profiles, lookup(y->Mapping_0@, "profiles"@))
    &&& dflt_matches(v.links, lookup(y->Mapping_0@, "links"@))
    &&& dflt_matches(v.dns, lookup(y->Mapping_0@, "dns"@))
    &&& opt_matches(v.ipc, lookup(y->Mapping_0@, "ipc"@))
    &&& opt_matches(v.net, lookup(y->Mapping_0@, "net"@))
    &&& opt_matches(v.stop_signal, lookup(y->Mapping_0@, "stop_signal"@))
    &&& opt_matches(v.user, lookup(y->Mapping_0@, "user"@))
    &&& opt_matches(v.userns_mode, lookup(y->Mapping_0@, "userns_mode"@))
    &&& opt_matches(v.working_dir, lookup(y->Mapping_0@, "working_dir"@))
    &&& dflt_matches(v.expose, lookup(y->Mapping_0@, "expose"@))
    &&& dflt_matches(v.volumes_from, lookup(y->Mapping_0@, "volumes_from"@))
    &&& extends_matches(v.extends, lookup(y->Mapping_0@, "extends"@))
    &&& opt_matches(v.logging, lookup(y->Mapping_0@, "logging"@))
    &&& dflt_matches(v.scale, lookup(y->Mapping_0@, "scale"@))
    &&& dflt_matches(v.init, lookup(y->Mapping_0@, "init"@))
    &&& dflt_matches(v.stdin_open, lookup(y->Mapping_0@, "stdin_open"@))
    &&& opt_matches(v.shm_size, lookup(y->Mapping_0@, "shm_size"@))
    &&& ext_matches(v.extensions, y->Mapping_0@)
    &&& dflt_matches(v.extra_hosts, lookup(y->Mapping_0@, "extra_hosts"@))
    &&& dflt_matches(v.group_add, lookup(y->Mapping_0@, "group_add"@))
    &&& dflt_matches(v.tty, lookup(y->Mapping_0@, "tty"@))
    &&& dflt_matches(v.sysctls, lookup(y->Mapping_0@, "sysctls"@))
    &&& dflt_matches(v.security_opt, lookup(y->Mapping_0@, "security_opt"@))
    &&& opt_matches(v.secrets, lookup(y->Mapping_0@, "secrets"@))
    &&& opt_matches(v.pull_policy, lookup(y->Mapping_0@, "pull_policy"@))
    &&& opt_matches(v.cgroup_parent, lookup(y->Mapping_0@, "cgroup_parent"@))
    &&& opt_matches(v.mem_limit, lookup(y->Mapping_0@, "mem_limit"@))
    &&& opt_matches(v.mem_reservation, lookup(y->Mapping_0@, "mem_reservation"@))
    &&& opt_matches(v.mem_swappiness, lookup(y->Mapping_0@, "mem_swappiness"@))
    &&& opt_matches(v.runtime, lookup(y->Mapping_0@, "runtime"@))
}

/// Every field of `a` holds the same data as that of `b`.
#[verifier::opaque]
pub open spec fn service_equiv(a: Service, b: Service) -> bool {
    &&& opt_equiv(a.hostname, b.hostname)
    &&& opt_equiv(a.domainname, b.domainname)
    &&& a.privileged.equiv(b.privileged)
    &&& a.read_only.equiv(b.read_only)
    &&& opt_equiv(a.healthcheck, b.healthcheck)
    &&& opt_equiv(a.deploy, b.deploy)
    &&& opt_equiv(a.image, b.image)
    &&& opt_equiv(a.container_name, b.container_name)
    &&& opt_equiv(a.build_, b.build_)
    &&& opt_equiv(a.pid, b.pid)
    &&& a.ports.equiv(b.ports)
    &&& a.environment.equiv(b.environment)
    &&& opt_equiv(a.network_mode, b.network_mode)
    &&& a.devices.equiv(b.devices)
    &&& opt_equiv(a.restart, b.restart)
    &&& a.labels.equiv(b.labels)
    &&& opt_equiv(a.tmpfs, b.tmpfs)
    &&& a.ulimits.equiv(b.ulimits)
    &&& a.volumes.equiv(b.volumes)
    &&& a.networks.equiv(b.networks)
    &&& a.cap_add.equiv(b.cap_add)
    &&& a.cap_drop.equiv(b.cap_drop)
    &&& a.depends_on.equiv(b.depends_on)
    &&& opt_equiv(a.command, b.command)
    &&& opt_equiv(a.entrypoint, b.entrypoint)
    &&& opt_equiv(a.env_file, b.env_file)
    &&& opt_equiv(a.stop_grace_period, b.stop_grace_period)
    &&& a.profiles.equiv(b.profiles)
    &&& a.links.equiv(b.links)
    &&& a.dns.equiv(b.dns)
    &&& opt_equiv(a.ipc, b.ipc)
    &&& opt_equiv(a.net, b.net)
    &&& opt_equiv(a.stop_signal, b.stop_signal)
    &&& opt_equiv(a.user, b.user)
    &&& opt_equiv(a.userns_mode, b.userns_mode)
    &&& opt_equiv(a.working_dir, b.working_dir)
    &&& a.expose.equiv(b.expose)
    &&& a.volumes_from.equiv(b.volumes_from)
    &&& a.extends.equiv(b.extends)
    &&& opt_equiv(a.logging, b.logging)
    &&& a.scale.equiv(b.scale)
    &&& a.init.equiv(b.init)
    &&& a.stdin_open.equiv(b.stdin_open)
    &&& opt_equiv(a.shm_size, b.shm_size)
    &&& a.extensions.equiv(b.extensions)
    &&& a.extra_hosts.equiv(b.extra_hosts)
    &&& a.group_add.equiv(b.group_add)
    &&& a.tty.equiv(b.tty)
    &&& a.sysctls.equiv(b.sysctls)
    &&& a.security_opt.equiv(b.security_opt)
    &&& opt_equiv(a.secrets, b.secrets)
    &&& opt_equiv(a.pull_policy, b.pull_policy)
    &&& opt_equiv(a.cgroup_parent, b.cgroup_parent)
    &&& opt_equiv(a.mem_limit, b.mem_limit)
    &&& opt_equiv(a.mem_reservation, b.mem_reservation)
    &&& opt_equiv(a.mem_swappiness, b.mem_swappiness)
    &&& opt_equiv(a.runtime, b.runtime)
}

/// Each field of a `Service` is one that writing and reading back keeps.
#[verifier::opaque]
pub open spec fn service_written(v: Service) -> bool {
    &&& opt_written(v.hostname)
    &&& opt_written(v.domainname)
    &&& dflt_written(v.privileged)
    &&& dflt_written(v.read_only)
    &&& opt_written(v.healthcheck)
    &&& opt_written(v.deploy)
    &&& opt_written(v.image)
    &&& opt_written(v.container_name)
    &&& opt_written(v.build_)
    &&& opt_written(v.pid)
    &&& dflt_written(v.ports)
    &&& dflt_written(v.environment)
    &&& opt_written(v.network_mode)
    &&& dflt_written(v.devices)
    &&& opt_written(v.restart)
    &&& dflt_written(v.labels)
    &&& opt_written(v.tmpfs)
    &&& dflt_written(v.ulimits)
    &&& dflt_written(v.volumes)
    &&& dflt_written(v.networks)
    &&& dflt_written(v.cap_add)
    &&& dflt_written(v.cap_drop)
    &&& dflt_written(v.depends_on)
    &&& opt_written(v.command)
    &&& opt_written(v.entrypoint)
    &&& opt_written(v.env_file)
    &&& opt_written(v.stop_grace_period)
    &&& dflt_written(v.profiles)
    &&& dflt_written(v.links)
    &&& dflt_written(v.dns)
    &&& opt_written(v.ipc)
    &&& opt_written(v.net)
    &&& opt_written(v.stop_signal)
    &&& opt_written(v.user)
    &&& opt_written(v.userns_mode)
    &&& opt_written(v.working_dir)
    &&& dflt_written(v.expose)
    &&& dflt_written(v.volumes_from)
    &&& v.extends.canonical()
    &&& opt_written(v.logging)
    &&& dflt_written(v.scale)
    &&& dflt_written(v.init)
    &&& dflt_written(v.stdin_open)
    &&& opt_written(v.shm_size)
    &&& v.extensions.wf()
    &&& forall|i: int| 0 <= i < v.extensions.entries@.len() ==> is_ext(#[trigger] v.extensions.entries@[i].0@)
    &&& dflt_written(v.extra_hosts)
    &&& dflt_written(v.group_add)
    &&& dflt_written(v.tty)
    &&& dflt_written(v.sysctls)
    &&& dflt_written(v.security_opt)
    &&& opt_written(v.secrets)
    &&& opt_written(v.pull_policy)
    &&& opt_written(v.cgroup_parent)
    &&& opt_written(v.mem_limit)
    &&& opt_written(v.mem_reservation)
    &&& opt_written(v.mem_swappiness)
    &&& opt_written(v.runtime)
}

impl Node for Service {
    open spec fn matches(&self, y: Yaml) -> bool {
        y is Mapping && service_fields(*self, y)
    }

    open spec fn equiv(&self, o: Self) -> bool {
        service_equiv(*self, o)
    }

    proof fn lemma_unique(a: Self, b: Self, y: Yaml) {
        reveal(service_fields);
        reveal(service_equiv);
        let es = y->Mapping_0@;
        lemma_opt_unique(a.hostname, b.hostname, lookup(es, "hostname"@));
        lemma_opt_unique(a.domainname, b.domainname, lookup(es, "domainname"@));
        lemma_dflt_unique(a.privileged, b.privileged, lookup(es, "privileged"@));
        lemma_dflt_unique(a.read_only, b.read_only, lookup(es, "read_only"@));
        lemma_opt_unique(a.healthcheck, b.healthcheck, lookup(es, "healthcheck"@));
        lemma_opt_unique(a.deploy, b.deploy, lookup(es, "deploy"@));
        lemma_opt_unique(a.image, b.image, lookup(es, "image"@));
        lemma_opt_unique(a.container_name, b.container_name, lookup(es, "container_name"@));
        lemma_opt_unique(a.build_, b.build_, lookup(es, "build"@));
        lemma_opt_unique(a.pid, b.pid, lookup(es, "pid"@));
        lemma_dflt_unique(a.ports, b.ports, lookup(es, "ports"@));
        lemma_dflt_unique(a.environment, b.environment, lookup(es, "environment"@));
        lemma_opt_unique(a.network_mode, b.network_mode, lookup(es, "network_mode"@));
        lemma_dflt_unique(a.devices, b.devices, lookup(es, "devices"@));
        lemma_opt_unique(a.restart, b.restart, lookup(es, "restart"@));
        lemma_dflt_unique(a.labels, b.labels, lookup(es, "labels"@));
        lemma_opt_unique(a.tmpfs, b.tmpfs, lookup(es, "tmpfs"@));
        lemma_dflt_unique(a.ulimits, b.ulimits, lookup(es, "ulimits"@));
        lemma_dflt_unique(a.volumes, b.volumes, lookup(es, "volumes"@));
        lemma_dflt_unique(a.networks, b.networks, lookup(es, "networks"@));
        lemma_dflt_unique(a.cap_add, b.cap_add, lookup(es, "cap_add"@));
        lemma_dflt_unique(a.cap_drop, b.cap_drop, lookup(es, "cap_drop"@));
        lemma_dflt_unique(a.depends_on, b.depends_on, lookup(es, "depends_on"@));
        lemma_opt_unique(a.command, b.command, lookup(es, "command"@));
        lemma_opt_unique(a.entrypoint, b.entrypoint, lookup(es, "entrypoint"@));
        lemma_opt_unique(a.env_file, b.env_file, lookup(es, "env_file"@));
        lemma_opt_unique(a.stop_grace_period, b.stop_grace_period, lookup(es, "stop_grace_period"@));
        lemma_dflt_unique(a.profiles, b.profiles, lookup(es, "profiles"@));
        lemma_dflt_unique(a.links, b.links, lookup(es, "links"@));
        lemma_dflt_unique(a.dns, b.dns, lookup(es, "dns"@));
        lemma_opt_unique(a.ipc, b.ipc, lookup(es, "ipc"@));
        lemma_opt_unique(a.net, b.net, lookup(es, "net"@));
        lemma_opt_unique(a.stop_signal, b.stop_signal, lookup(es, "stop_signal"@));
        lemma_opt_unique(a.user, b.user, lookup(es, "user"@));
        lemma_opt_unique(a.userns_mode, b.userns_mode, lookup(es, "userns_mode"@));
        lemma_opt_unique(a.working_dir, b.working_dir, lookup(es, "working_dir"@));
        lemma_dflt_unique(a.expose, b.expose, lookup(es, "expose"@));
        lemma_dflt_unique(a.volumes_from, b.volumes_from, lookup(es, "volumes_from"@));
        lemma_extends_unique(a.extends, b.extends, lookup(es, "extends"@));
        lemma_opt_unique(a.logging, b.logging, lookup(es, "logging"@));
        lemma_dflt_unique(a.scale, b.scale, lookup(es, "scale"@));
        lemma_dflt_unique(a.init, b.init, lookup(es, "init"@));
        lemma_dflt_unique(a.stdin_open, b.stdin_open, lookup(es, "stdin_open"@));
        lemma_opt_unique(a.shm_size, b.shm_size, lookup(es, "shm_size"@));
        lemma_ext_unique(a.extensions, b.extensions, es);
        lemma_dflt_unique(a.extra_hosts, b.extra_hosts, lookup(es, "extra_hosts"@));
        lemma_dflt_unique(a.group_add, b.group_add, lookup(es, "group_add"@));
        lemma_dflt_unique(a.tty, b.tty, lookup(es, "tty"@));
        lemma_dflt_unique(a.sysctls, b.sysctls, lookup(es, "sysctls"@));
        lemma_dflt_unique(a.security_opt, b.security_opt, lookup(es, "security_opt"@));
        lemma_opt_unique(a.secrets, b.secrets, lookup(es, "secrets"@));
        lemma_opt_unique(a.pull_policy, b.pull_policy, lookup(es, "pull_policy"@));
        lemma_opt_unique(a.cgroup_parent, b.cgroup_parent, lookup(es, "cgroup_parent"@));
        lemma_opt_unique(a.mem_limit, b.mem_limit, lookup(es, "mem_limit"@));
        lemma_opt_unique(a.mem_reservation, b.mem_reservation, lookup(es, "mem_reservation"@));
        lemma_opt_unique(a.mem_swappiness, b.mem_swappiness, lookup(es, "mem_swappiness"@));
        lemma_opt_unique(a.runtime, b.runtime, lookup(es, "runtime"@));
    }

    open spec fn canonical(&self) -> bool {
        service_written(*self)
    }

    /// A key that is not allowed here is the error, where all keys are strings.
    fn from_yaml(y: &Yaml) -> (r: Result<Self, ParseError>)
        ensures
            y is Mapping && all_string_keys(y->Mapping_0@) && !keys_allowed::<Service>(
                y->Mapping_0@,
                KeyPolicy::Extensions,
            ) ==> (r matches Err(ParseError::ExtensionKey(k)) && !Service::is_field(k@)
                && !is_ext(k@)),
    {
        reveal(service_fields);
        match y {
            Yaml::Mapping(es) => {
                if let Err(e) = check_keys::<Service>(es, KeyPolicy::Extensions) {
                    return Err(e);
                }
                let hostname = opt_field::<String>(es, "hostname")?;
                let domainname = opt_field::<String>(es, "domainname")?;
                let privileged = dflt_field::<bool>(es, "privileged")?;
                let read_only = dflt_field::<bool>(es, "read_only")?;
                let healthcheck = opt_field::<Healthcheck>(es, "healthcheck")?;
                let deploy = opt_field::<Deploy>(es, "deploy")?;
                let image = opt_field::<String>(es, "image")?;
                let container_name = opt_field::<String>(es, "container_name")?;
                let build_ = opt_field::<BuildStep>(es, "build")?;
                let pid = opt_field::<String>(es, "pid")?;
                let ports = dflt_field::<Ports>(es, "ports")?;
                let environment = dflt_field::<Environment>(es, "environment")?;
                let network_mode = opt_field::<String>(es, "network_mode")?;
                let devices = dflt_field::<Vec<String>>(es, "devices")?;
                let restart = opt_field::<String>(es, "restart")?;
                let labels = dflt_field::<Labels>(es, "labels")?;
                let tmpfs = opt_field::<Tmpfs>(es, "tmpfs")?;
                let ulimits = dflt_field::<Ulimits>(es, "ulimits")?;
                let volumes = dflt_field::<Vec<Volumes>>(es, "volumes")?;
                let networks = dflt_field::<Networks>(es, "networks")?;
                let cap_add = dflt_field::<Vec<String>>(es, "cap_add")?;
                let cap_drop = dflt_field::<Vec<String>>(es, "cap_drop")?;
                let depends_on = dflt_field::<DependsOnOptions>(es, "depends_on")?;
                let command = opt_field::<Command>(es, "command")?;
                let entrypoint = opt_field::<Entrypoint>(es, "entrypoint")?;
                let env_file = opt_field::<EnvFile>(es, "env_file")?;
                let stop_grace_period = opt_field::<String>(es, "stop_grace_period")?;
                let profiles = dflt_field::<Vec<String>>(es, "profiles")?;
                let links = dflt_field::<Vec<String>>(es, "links")?;
                let dns = dflt_field::<Vec<String>>(es, "dns")?;
                let ipc = opt_field::<String>(es, "ipc")?;
                let net = opt_field::<String>(es, "net")?;
                let stop_signal = opt_field::<String>(es, "stop_signal")?;
                let user = opt_field::<String>(es, "user")?;
                let userns_mode = opt_field::<String>(es, "userns_mode")?;
                let working_dir = opt_field::<String>(es, "working_dir")?;
                let expose = dflt_field::<Vec<String>>(es, "expose")?;
                let volumes_from = dflt_field::<Vec<String>>(es, "volumes_from")?;
                let extends = extends_field(es)?;
                let logging = opt_field::<LoggingParameters>(es, "logging")?;
                let scale = dflt_field::<i64>(es, "scale")?;
                let init = dflt_field::<bool>(es, "init")?;
                let stdin_open = dflt_field::<bool>(es, "stdin_open")?;
                let shm_size = opt_field::<String>(es, "shm_size")?;
                let extensions = extensions_of(es);
                let extra_hosts = dflt_field::<Vec<String>>(es, "extra_hosts")?;
                let group_add = dflt_field::<Vec<Group>>(es, "group_add")?;
                let tty = dflt_field::<bool>(es, "tty")?;
                let sysctls = dflt_field::<SysCtls>(es, "sysctls")?;
                let security_opt = dflt_field::<Vec<String>>(es, "security_opt")?;
                let secrets = opt_field::<Secrets>(es, "secrets")?;
                let pull_policy = opt_field::<PullPolicy>(es, "pull_policy")?;
                let cgroup_parent = opt_field::<String>(es, "cgroup_parent")?;
                let mem_limit = opt_field::<String>(es, "mem_limit")?;
                let mem_reservation = opt_field::<String>(es, "mem_reservation")?;
                let mem_swappiness = opt_field::<u16>(es, "mem_swappiness")?;
                let runtime = opt_field::<String>(es, "runtime")?;
                Ok(Service { hostname, domainname, privileged, read_only, healthcheck, deploy, image, container_name, build_, pid, ports, environment, network_mode, devices, restart, labels, tmpfs, ulimits, volumes, networks, cap_add, cap_drop, depends_on, command, entrypoint, env_file, stop_grace_period, profiles, links, dns, ipc, net, stop_signal, user, userns_mode, working_dir, expose, volumes_from, extends, logging, scale, init, stdin_open, shm_size, extensions, extra_hosts, group_add, tty, sysctls, security_opt, secrets, pull_policy, cgroup_parent, mem_limit, mem_reservation, mem_swappiness, runtime })
            },
            _ => Err(mismatch("a mapping")),
        }
    }

    fn to_yaml(&self) -> (r: Yaml)
        ensures
            r is Mapping,
            self.is_default() ==> r->Mapping_0@.len() == 0,
            ext_keys(self.extensions) ==> (lookup(r->Mapping_0@, "hostname"@) is None) == (self.hostname is None),
            ext_keys(self.extensions) ==> (lookup(r->Mapping_0@, "domainname"@) is None) == (self.domainname is None),
            ext_keys(self.extensions) ==> (lookup(r->Mapping_0@, "privileged"@) is None) == self.privileged.empty(),
            ext_keys(self.extensions) ==> (lookup(r->Mapping_0@, "read_only"@) is None) == self.read_only.empty(),
            ext_keys(self.extensions) ==> (lookup(r->Mapping_0@, "healthcheck"@) is None) == (self.healthcheck is None),
            ext_keys(self.extensions) ==> (lookup(r->Mapping_0@, "deploy"@) is None) == (self.deploy is None),
            ext_keys(self.extensions) ==> (lookup(r->Mapping_0@, "image"@) is None) == (self.image is None),
            ext_keys(self.extensions) ==> (lookup(r->Mapping_0@, "container_name"@) is None) == (self.container_name is None),
            ext_keys(self.extensions) ==> (lookup(r->Mapping_0@, "build"@) is None) == (self.build_ is None),
            ext_keys(self.extensions) ==> (lookup(r->Mapping_0@, "pid"@) is None) == (self.pid is None),
            ext_keys(self.extensions) ==> (lookup(r->Mapping_0@, "ports"@) is None) == self.ports.empty(),
            ext_keys(self.extensions) ==> (lookup(r->Mapping_0@, "environment"@) is None) == self.environment.empty(),
            ext_keys(self.extensions) ==> (lookup(r->Mapping_0@, "network_mode"@) is None) == (self.network_mode is None),
            ext_keys(self.extensions) ==> (lookup(r->Mapping_0@, "devices"@) is None) == self.devices.empty(),
            ext_keys(self.extensions) ==> (lookup(r->Mapping_0@, "restart"@) is None) == (self.restart is None),
            ext_keys(self.extensions) ==> (lookup(r->Mapping_0@, "labels"@) is None) == self.labels.empty(),
            ext_keys(self.extensions) ==> (lookup(r->Mapping_0@, "tmpfs"@) is None) == (self.tmpfs is None),
            ext_keys(self.extensions) ==> (lookup(r->Mapping_0@, "ulimits"@) is None) == self.ulimits.empty(),
            ext_keys(self.extensions) ==> (lookup(r->Mapping_0@, "volumes"@) is None) == self.volumes.empty(),
            ext_keys(self.extensions) ==> (lookup(r->Mapping_0@, "networks"@) is None) == self.networks.empty(),
            ext_keys(self.extensions) ==> (lookup(r->Mapping_0@, "cap_add"@) is None) == self.cap_add.empty(),
            ext_keys(self.extensions) ==> (lookup(r->Mapping_0@, "cap_drop"@) is None) == self.cap_drop.empty(),
            ext_keys(self.extensions) ==> (lookup(r->Mapping_0@, "depends_on"@) is None) == self.depends_on.empty(),
            ext_keys(self.extensions) ==> (lookup(r->Mapping_0@, "command"@) is None) == (self.command is None),
            ext_keys(self.extensions) ==> (lookup(r->Mapping_0@, "entrypoint"@) is None) == (self.entrypoint is None),
            ext_keys(self.extensions) ==> (lookup(r->Mapping_0@, "env_file"@) is None) == (self.env_file is None),
            ext_keys(self.extensions) ==> (lookup(r->Mapping_0@, "stop_grace_period"@) is None) == (self.stop_grace_period is None),
            ext_keys(self.extensions) ==> (lookup(r->Mapping_0@, "profiles"@) is None) == self.profiles.empty(),
            ext_keys(self.extensions) ==> (lookup(r->Mapping_0@, "links"@) is None) == self.links.empty(),
            ext_keys(self.extensions) ==> (lookup(r->Mapping_0@, "dns"@) is None) == self.dns.empty(),
            ext_keys(self.extensions) ==> (lookup(r->Mapping_0@, "ipc"@) is None) == (self.ipc is None),
            ext_keys(self.extensions) ==> (lookup(r->Mapping_0@, "net"@) is None) == (self.net is None),
            ext_keys(self.extensions) ==> (lookup(r->Mapping_0@, "stop_signal"@) is None) == (self.stop_signal is None),
            ext_keys(self.extensions) ==> (lookup(r->Mapping_0@, "user"@) is None) == (self.user is None),
            ext_keys(self.extensions) ==> (lookup(r->Mapping_0@, "userns_mode"@) is None) == (self.userns_mode is None),
            ext_keys(self.extensions) ==> (lookup(r->Mapping_0@, "working_dir"@) is None) == (self.working_dir is None),
            ext_keys(self.extensions) ==> (lookup(r->Mapping_0@, "expose"@) is None) == self.expose.empty(),
            ext_keys(self.extensions) ==> (lookup(r->Mapping_0@, "volumes_from"@) is None) == self.volumes_from.empty(),
            ext_keys(self.extensions) ==> (lookup(r->Mapping_0@, "extends"@) is None) == self.extends.empty(),
            ext_keys(self.extensions) ==> (lookup(r->Mapping_0@, "logging"@) is None) == (self.logging is None),
            ext_keys(self.extensions) ==> (lookup(r->Mapping_0@, "scale"@) is None) == self.scale.empty(),
            ext_keys(self.extensions) ==> (lookup(r->Mapping_0@, "init"@) is None) == self.init.empty(),
            ext_keys(self.extensions) ==> (lookup(r->Mapping_0@, "stdin_open"@) is None) == self.stdin_open.empty(),
            ext_keys(self.extensions) ==> (lookup(r->Mapping_0@, "shm_size"@) is None) == (self.shm_size is None),
            ext_keys(self.extensions) ==> (lookup(r->Mapping_0@, "extra_hosts"@) is None) == self.extra_hosts.empty(),
            ext_keys(self.extensions) ==> (lookup(r->Mapping_0@, "group_add"@) is None) == self.group_add.empty(),
            ext_keys(self.extensions) ==> (lookup(r->Mapping_0@, "tty"@) is None) == self.tty.empty(),
            ext_keys(self.extensions) ==> (lookup(r->Mapping_0@, "sysctls"@) is None) == self.sysctls.empty(),
            ext_keys(self.extensions) ==> (lookup(r->Mapping_0@, "security_opt"@) is None) == self.security_opt.empty(),
            ext_keys(self.extensions) ==> (lookup(r->Mapping_0@, "secrets"@) is None) == (self.secrets is None),
            ext_keys(self.extensions) ==> (lookup(r->Mapping_0@, "pull_policy"@) is None) == (self.pull_policy is None),
            ext_keys(self.extensions) ==> (lookup(r->Mapping_0@, "cgroup_parent"@) is None) == (self.cgroup_parent is None),
            ext_keys(self.extensions) ==> (lookup(r->Mapping_0@, "mem_limit"@) is None) == (self.mem_limit is None),
            ext_keys(self.extensions) ==> (lookup(r->Mapping_0@, "mem_reservation"@) is None) == (self.mem_reservation is None),
            ext_keys(self.extensions) ==> (lookup(r->Mapping_0@, "mem_swappiness"@) is None) == (self.mem_swappiness is None),
            ext_keys(self.extensions) ==> (lookup(r->Mapping_0@, "runtime"@) is None) == (self.runtime is None),
    {
        reveal(service_fields);
        reveal(service_written);
        let mut out: Vec<YamlEntry> = Vec::new();
        proof {
            // Each key literal apart from the others: by length, or by a character.
            reveal_strlit("hostname");
            assert("hostname"@.len() == 8);
            assert("hostname"@[0] == 'h');
            reveal_strlit("domainname");
            assert("domainname"@.len() == 10);
            assert("domainname"@[0] == 'd');
            assert("domainname"@[1] == 'o');
            reveal_strlit("privileged");
            assert("privileged"@.len() == 10);
            assert("privileged"@[0] == 'p');
            reveal_strlit("read_only");
            assert("read_only"@.len() == 9);
            assert("read_only"@[0] == 'r');
            reveal_strlit("healthcheck");
            assert("healthcheck"@.len() == 11);
            assert("healthcheck"@[0] == 'h');
            reveal_strlit("deploy");
            assert("deploy"@.len() == 6);
            assert("deploy"@[0] == 'd');
            reveal_strlit("image");
            assert("image"@.len() == 5);
            assert("image"@[0] == 'i');
            reveal_strlit("container_name");
            assert("container_name"@.len() == 14);
            assert("container_name"@[0] == 'c');
            reveal_strlit("build");
            assert("build"@.len() == 5);
            assert("build"@[0] == 'b');
            reveal_strlit("pid");
            assert("pid"@.len() == 3);
            assert("pid"@[0] == 'p');
            reveal_strlit("ports");
            assert("ports"@.len() == 5);
            assert("ports"@[0] == 'p');
            reveal_strlit("environment");
            assert("environment"@.len() == 11);
            assert("environment"@[0] == 'e');
            assert("environment"@[1] == 'n');
            reveal_strlit("network_mode");
            assert("network_mode"@.len() == 12);
            assert("network_mode"@[0] == 'n');
            reveal_strlit("devices");
            assert("devices"@.len() == 7);
            assert("devices"@[0] == 'd');
            reveal_strlit("restart");
            assert("restart"@.len() == 7);
            assert("restart"@[0] == 'r');
            assert("restart"@[1] == 'e');
            reveal_strlit("labels");
            assert("labels"@.len() == 6);
            assert("labels"@[0] == 'l');
            reveal_strlit("tmpfs");
            assert("tmpfs"@.len() == 5);
            assert("tmpfs"@[0] == 't');
            reveal_strlit("ulimits");
            assert("ulimits"@.len() == 7);
            assert("ulimits"@[0] == 'u');
            reveal_strlit("volumes");
            assert("volumes"@.len() == 7);
            assert("volumes"@[0] == 'v');
            reveal_strlit("networks");
            assert("networks"@.len() == 8);
            assert("networks"@[0] == 'n');
            reveal_strlit("cap_add");
            assert("cap_add"@.len() == 7);
            assert("cap_add"@[0] == 'c');
            assert("cap_add"@[1] == 'a');
            reveal_strlit("cap_drop");
            assert("cap_drop"@.len() == 8);
            assert("cap_drop"@[0] == 'c');
            reveal_strlit("depends_on");
            assert("depends_on"@.len() == 10);
            assert("depends_on"@[0] == 'd');
            assert("depends_on"@[1] == 'e');
            reveal_strlit("command");
            assert("command"@.len() == 7);
            assert("command"@[0] == 'c');
            assert("command"@[1] == 'o');
            reveal_strlit("entrypoint");
            assert("entrypoint"@.len() == 10);
            assert("entrypoint"@[0] == 'e');
            reveal_strlit("env_file");
            assert("env_file"@.len() == 8);
            assert("env_file"@[0] == 'e');
            reveal_strlit("stop_grace_period");
            assert("stop_grace_period"@.len() == 17);
            assert("stop_grace_period"@[0] == 's');
            reveal_strlit("profiles");
            assert("profiles"@.len() == 8);
            assert("profiles"@[0] == 'p');
            reveal_strlit("links");
            assert("links"@.len() == 5);
            assert("links"@[0] == 'l');
            reveal_strlit("dns");
            assert("dns"@.len() == 3);
            assert("dns"@[0] == 'd');
            reveal_strlit("ipc");
            assert("ipc"@.len() == 3);
            assert("ipc"@[0] == 'i');
            reveal_strlit("net");
            assert("net"@.len() == 3);
            assert("net"@[0] == 'n');
            reveal_strlit("stop_signal");
            assert("stop_signal"@.len() == 11);
            assert("stop_signal"@[0] == 's');
            reveal_strlit("user");
            assert("user"@.len() == 4);
            assert("user"@[0] == 'u');
            reveal_strlit("userns_mode");
            assert("userns_mode"@.len() == 11);
            assert("userns_mode"@[0] == 'u');
            reveal_strlit("working_dir");
            assert("working_dir"@.len() == 11);
            assert("working_dir"@[0] == 'w');
            reveal_strlit("expose");
            assert("expose"@.len() == 6);
            assert("expose"@[0] == 'e');
            reveal_strlit("volumes_from");
            assert("volumes_from"@.len() == 12);
            assert("volumes_from"@[0] == 'v');
            reveal_strlit("extends");
            assert("extends"@.len() == 7);
            assert("extends"@[0] == 'e');
            reveal_strlit("logging");
            assert("logging"@.len() == 7);
            assert("logging"@[0] == 'l');
            reveal_strlit("scale");
            assert("scale"@.len() == 5);
            assert("scale"@[0] == 's');
            reveal_strlit("init");
            assert("init"@.len() == 4);
            assert("init"@[0] == 'i');
            reveal_strlit("stdin_open");
            assert("stdin_open"@.len() == 10);
            assert("stdin_open"@[0] == 's');
            reveal_strlit("shm_size");
            assert("shm_size"@.len() == 8);
            assert("shm_size"@[0] == 's');
            reveal_strlit("extra_hosts");
            assert("extra_hosts"@.len() == 11);
            assert("extra_hosts"@[0] == 'e');
            assert("extra_hosts"@[1] == 'x');
            reveal_strlit("group_add");
            assert("group_add"@.len() == 9);
            assert("group_add"@[0] == 'g');
            reveal_strlit("tty");
            assert("tty"@.len() == 3);
            assert("tty"@[0] == 't');
            reveal_strlit("sysctls");
            assert("sysctls"@.len() == 7);
            assert("sysctls"@[0] == 's');
            assert("sysctls"@[1] == 'y');
            reveal_strlit("security_opt");
            assert("security_opt"@.len() == 12);
            assert("security_opt"@[0] == 's');
            reveal_strlit("secrets");
            assert("secrets"@.len() == 7);
            assert("secrets"@[0] == 's');
            assert("secrets"@[1] == 'e');
            reveal_strlit("pull_policy");
            assert("pull_policy"@.len() == 11);
            assert("pull_policy"@[0] == 'p');
            reveal_strlit("cgroup_parent");
            assert("cgroup_parent"@.len() == 13);
            assert("cgroup_parent"@[0] == 'c');
            reveal_strlit("mem_limit");
            assert("mem_limit"@.len() == 9);
            assert("mem_limit"@[0] == 'm');
            reveal_strlit("mem_reservation");
            assert("mem_reservation"@.len() == 15);
            assert("mem_reservation"@[0] == 'm');
            reveal_strlit("mem_swappiness");
            assert("mem_swappiness"@.len() == 14);
            assert("mem_swappiness"@[0] == 'm');
            reveal_strlit("runtime");
            assert("runtime"@.len() == 7);
            assert("runtime"@[0] == 'r');
            assert("runtime"@[1] == 'u');
        }
        self.put_fields(&mut out);
        let ghost written = out@;
        put_extensions::<Service>(&mut out, &self.extensions);
        proof {
            if self.canonical() {
                assert(self.matches(Yaml::Mapping(out)));
            }
        }
        Yaml::Mapping(out)
    }
}

impl Service {
    /// Writes the fields `hostname` to `healthcheck`.
    fn put_part0(&self, out: &mut Vec<YamlEntry>)
        requires
            distinct_keys(old(out)@),
            keys_allowed::<Service>(old(out)@, KeyPolicy::Extensions),
            ext_entries(old(out)@).len() == 0,
            lookup(old(out)@, "hostname"@) is None,
            lookup(old(out)@, "domainname"@) is None,
            lookup(old(out)@, "privileged"@) is None,
            lookup(old(out)@, "read_only"@) is None,
            lookup(old(out)@, "healthcheck"@) is None,
        ensures
            distinct_keys(final(out)@),
            keys_allowed::<Service>(final(out)@, KeyPolicy::Extensions),
            ext_entries(final(out)@).len() == 0,
            opt_written(self.hostname) ==> opt_matches(self.hostname, lookup(final(out)@, "hostname"@)),
            opt_written(self.domainname) ==> opt_matches(self.domainname, lookup(final(out)@, "domainname"@)),
            dflt_written(self.privileged) ==> dflt_matches(self.privileged, lookup(final(out)@, "privileged"@)),
            dflt_written(self.read_only) ==> dflt_matches(self.read_only, lookup(final(out)@, "read_only"@)),
            opt_written(self.healthcheck) ==> opt_matches(self.healthcheck, lookup(final(out)@, "healthcheck"@)),
            (lookup(final(out)@, "hostname"@) is None) == (self.hostname is None),
            (lookup(final(out)@, "domainname"@) is None) == (self.domainname is None),
            (lookup(final(out)@, "privileged"@) is None) == self.privileged.empty(),
            (lookup(final(out)@, "read_only"@) is None) == self.read_only.empty(),
            (lookup(final(out)@, "healthcheck"@) is None) == (self.healthcheck is None),
            lookup(final(out)@, "deploy"@) == lookup(old(out)@, "deploy"@),
            lookup(final(out)@, "image"@) == lookup(old(out)@, "image"@),
            lookup(final(out)@, "container_name"@) == lookup(old(out)@, "container_name"@),
            lookup(final(out)@, "build"@) == lookup(old(out)@, "build"@),
            lookup(final(out)@, "pid"@) == lookup(old(out)@, "pid"@),
            lookup(final(out)@, "ports"@) == lookup(old(out)@, "ports"@),
            lookup(final(out)@, "environment"@) == lookup(old(out)@, "environment"@),
            lookup(final(out)@, "network_mode"@) == lookup(old(out)@, "network_mode"@),
            lookup(final(out)@, "devices"@) == lookup(old(out)@, "devices"@),
            lookup(final(out)@, "restart"@) == lookup(old(out)@, "restart"@),
            lookup(final(out)@, "labels"@) == lookup(old(out)@, "labels"@),
            lookup(final(out)@, "tmpfs"@) == lookup(old(out)@, "tmpfs"@),
            lookup(final(out)@, "ulimits"@) == lookup(old(out)@, "ulimits"@),
            lookup(final(out)@, "volumes"@) == lookup(old(out)@, "volumes"@),
            lookup(final(out)@, "networks"@) == lookup(old(out)@, "networks"@),
            lookup(final(out)@, "cap_add"@) == lookup(old(out)@, "cap_add"@),
            lookup(final(out)@, "cap_drop"@) == lookup(old(out)@, "cap_drop"@),
            lookup(final(out)@, "depends_on"@) == lookup(old(out)@, "depends_on"@),
            lookup(final(out)@, "command"@) == lookup(old(out)@, "command"@),
            lookup(final(out)@, "entrypoint"@) == lookup(old(out)@, "entrypoint"@),
            lookup(final(out)@, "env_file"@) == lookup(old(out)@, "env_file"@),
            lookup(final(out)@, "stop_grace_period"@) == lookup(old(out)@, "stop_grace_period"@),
            lookup(final(out)@, "profiles"@) == lookup(old(out)@, "profiles"@),
            lookup(final(out)@, "links"@) == lookup(old(out)@, "links"@),
            lookup(final(out)@, "dns"@) == lookup(old(out)@, "dns"@),
            lookup(final(out)@, "ipc"@) == lookup(old(out)@, "ipc"@),
            lookup(final(out)@, "net"@) == lookup(old(out)@, "net"@),
            lookup(final(out)@, "stop_signal"@) == lookup(old(out)@, "stop_signal"@),
            lookup(final(out)@, "user"@) == lookup(old(out)@, "user"@),
            lookup(final(out)@, "userns_mode"@) == lookup(old(out)@, "userns_mode"@),
            lookup(final(out)@, "working_dir"@) == lookup(old(out)@, "working_dir"@),
            lookup(final(out)@, "expose"@) == lookup(old(out)@, "expose"@),
            lookup(final(out)@, "volumes_from"@) == lookup(old(out)@, "volumes_from"@),
            lookup(final(out)@, "extends"@) == lookup(old(out)@, "extends"@),
            lookup(final(out)@, "logging"@) == lookup(old(out)@, "logging"@),
            lookup(final(out)@, "scale"@) == lookup(old(out)@, "scale"@),
            lookup(final(out)@, "init"@) == lookup(old(out)@, "init"@),
            lookup(final(out)@, "stdin_open"@) == lookup(old(out)@, "stdin_open"@),
            lookup(final(out)@, "shm_size"@) == lookup(old(out)@, "shm_size"@),
            lookup(final(out)@, "extra_hosts"@) == lookup(old(out)@, "extra_hosts"@),
            lookup(final(out)@, "group_add"@) == lookup(old(out)@, "group_add"@),
            lookup(final(out)@, "tty"@) == lookup(old(out)@, "tty"@),
            lookup(final(out)@, "sysctls"@) == lookup(old(out)@, "sysctls"@),
            lookup(final(out)@, "security_opt"@) == lookup(old(out)@, "security_opt"@),
            lookup(final(out)@, "secrets"@) == lookup(old(out)@, "secrets"@),
            lookup(final(out)@, "pull_policy"@) == lookup(old(out)@, "pull_policy"@),
            lookup(final(out)@, "cgroup_parent"@) == lookup(old(out)@, "cgroup_parent"@),
            lookup(final(out)@, "mem_limit"@) == lookup(old(out)@, "mem_limit"@),
            lookup(final(out)@, "mem_reservation"@) == lookup(old(out)@, "mem_reservation"@),
            lookup(final(out)@, "mem_swappiness"@) == lookup(old(out)@, "mem_swappiness"@),
            lookup(final(out)@, "runtime"@) == lookup(old(out)@, "runtime"@),
            self.hostname is None && self.domainname is None && self.privileged.is_default() && self.read_only.is_default() && self.healthcheck is None ==> final(out)@ == old(out)@,
    {
        put_opt(out, "hostname".to_owned(), opt_yaml(&self.hostname));
        put_opt(out, "domainname".to_owned(), opt_yaml(&self.domainname));
        put_opt(out, "privileged".to_owned(), dflt_yaml(&self.privileged));
        put_opt(out, "read_only".to_owned(), dflt_yaml(&self.read_only));
        put_opt(out, "healthcheck".to_owned(), opt_yaml(&self.healthcheck));
        proof {
            lemma_service_keys();
            assert(distinct_keys(out@));
            assert(keys_allowed::<Service>(out@, KeyPolicy::Extensions));
            assert(ext_entries(out@).len() == 0);
            assert(opt_written(self.hostname) ==> opt_matches(self.hostname, lookup(out@, "hostname"@)));
            assert((lookup(out@, "hostname"@) is None) == (self.hostname is None));
            assert(opt_written(self.domainname) ==> opt_matches(self.domainname, lookup(out@, "domainname"@)));
            assert((lookup(out@, "domainname"@) is None) == (self.domainname is None));
            assert(dflt_written(self.privileged) ==> dflt_matches(self.privileged, lookup(out@, "privileged"@)));
            assert((lookup(out@, "privileged"@) is None) == self.privileged.empty());
            assert(dflt_written(self.read_only) ==> dflt_matches(self.read_only, lookup(out@, "read_only"@)));
            assert((lookup(out@, "read_only"@) is None) == self.read_only.empty());
            assert(opt_written(self.healthcheck) ==> opt_matches(self.healthcheck, lookup(out@, "healthcheck"@)));
            assert((lookup(out@, "healthcheck"@) is None) == (self.healthcheck is None));
        }
    }

    /// Writes the fields `deploy` to `pid`.
    fn put_part1(&self, out: &mut Vec<YamlEntry>)
        requires
            distinct_keys(old(out)@),
            keys_allowed::<Service>(old(out)@, KeyPolicy::Extensions),
            ext_entries(old(out)@).len() == 0,
            lookup(old(out)@, "deploy"@) is None,
            lookup(old(out)@, "image"@) is None,
            lookup(old(out)@, "container_name"@) is None,
            lookup(old(out)@, "build"@) is None,
            lookup(old(out)@, "pid"@) is None,
        ensures
            distinct_keys(final(out)@),
            keys_allowed::<Service>(final(out)@, KeyPolicy::Extensions),
            ext_entries(final(out)@).len() == 0,
            opt_written(self.deploy) ==> opt_matches(self.deploy, lookup(final(out)@, "deploy"@)),
            opt_written(self.image) ==> opt_matches(self.image, lookup(final(out)@, "image"@)),
            opt_written(self.container_name) ==> opt_matches(self.container_name, lookup(final(out)@, "container_name"@)),
            opt_written(self.build_) ==> opt_matches(self.build_, lookup(final(out)@, "build"@)),
            opt_written(self.pid) ==> opt_matches(self.pid, lookup(final(out)@, "pid"@)),
            (lookup(final(out)@, "deploy"@) is None) == (self.deploy is None),
            (lookup(final(out)@, "image"@) is None) == (self.image is None),
            (lookup(final(out)@, "container_name"@) is None) == (self.container_name is None),
            (lookup(final(out)@, "build"@) is None) == (self.build_ is None),
            (lookup(final(out)@, "pid"@) is None) == (self.pid is None),
            lookup(final(out)@, "hostname"@) == lookup(old(out)@, "hostname"@),
            lookup(final(out)@, "domainname"@) == lookup(old(out)@, "domainname"@),
            lookup(final(out)@, "privileged"@) == lookup(old(out)@, "privileged"@),
            lookup(final(out)@, "read_only"@) == lookup(old(out)@, "read_only"@),
            lookup(final(out)@, "healthcheck"@) == lookup(old(out)@, "healthcheck"@),
            lookup(final(out)@, "ports"@) == lookup(old(out)@, "ports"@),
            lookup(final(out)@, "environment"@) == lookup(old(out)@, "environment"@),
            lookup(final(out)@, "network_mode"@) == lookup(old(out)@, "network_mode"@),
            lookup(final(out)@, "devices"@) == lookup(old(out)@, "devices"@),
            lookup(final(out)@, "restart"@) == lookup(old(out)@, "restart"@),
            lookup(final(out)@, "labels"@) == lookup(old(out)@, "labels"@),
            lookup(final(out)@, "tmpfs"@) == lookup(old(out)@, "tmpfs"@),
            lookup(final(out)@, "ulimits"@) == lookup(old(out)@, "ulimits"@),
            lookup(final(out)@, "volumes"@) == lookup(old(out)@, "volumes"@),
            lookup(final(out)@, "networks"@) == lookup(old(out)@, "networks"@),
            lookup(final(out)@, "cap_add"@) == lookup(old(out)@, "cap_add"@),
            lookup(final(out)@, "cap_drop"@) == lookup(old(out)@, "cap_drop"@),
            lookup(final(out)@, "depends_on"@) == lookup(old(out)@, "depends_on"@),
            lookup(final(out)@, "command"@) == lookup(old(out)@, "command"@),
            lookup(final(out)@, "entrypoint"@) == lookup(old(out)@, "entrypoint"@),
            lookup(final(out)@, "env_file"@) == lookup(old(out)@, "env_file"@),
            lookup(final(out)@, "stop_grace_period"@) == lookup(old(out)@, "stop_grace_period"@),
            lookup(final(out)@, "profiles"@) == lookup(old(out)@, "profiles"@),
            lookup(final(out)@, "links"@) == lookup(old(out)@, "links"@),
            lookup(final(out)@, "dns"@) == lookup(old(out)@, "dns"@),
            lookup(final(out)@, "ipc"@) == lookup(old(out)@, "ipc"@),
            lookup(final(out)@, "net"@) == lookup(old(out)@, "net"@),
            lookup(final(out)@, "stop_signal"@) == lookup(old(out)@, "stop_signal"@),
            lookup(final(out)@, "user"@) == lookup(old(out)@, "user"@),
            lookup(final(out)@, "userns_mode"@) == lookup(old(out)@, "userns_mode"@),
            lookup(final(out)@, "working_dir"@) == lookup(old(out)@, "working_dir"@),
            lookup(final(out)@, "expose"@) == lookup(old(out)@, "expose"@),
            lookup(final(out)@, "volumes_from"@) == lookup(old(out)@, "volumes_from"@),
            lookup(final(out)@, "extends"@) == lookup(old(out)@, "extends"@),
            lookup(final(out)@, "logging"@) == lookup(old(out)@, "logging"@),
            lookup(final(out)@, "scale"@) == lookup(old(out)@, "scale"@),
            lookup(final(out)@, "init"@) == lookup(old(out)@, "init"@),
            lookup(final(out)@, "stdin_open"@) == lookup(old(out)@, "stdin_open"@),
            lookup(final(out)@, "shm_size"@) == lookup(old(out)@, "shm_size"@),
            lookup(final(out)@, "extra_hosts"@) == lookup(old(out)@, "extra_hosts"@),
            lookup(final(out)@, "group_add"@) == lookup(old(out)@, "group_add"@),
            lookup(final(out)@, "tty"@) == lookup(old(out)@, "tty"@),
            lookup(final(out)@, "sysctls"@) == lookup(old(out)@, "sysctls"@),
            lookup(final(out)@, "security_opt"@) == lookup(old(out)@, "security_opt"@),
            lookup(final(out)@, "secrets"@) == lookup(old(out)@, "secrets"@),
            lookup(final(out)@, "pull_policy"@) == lookup(old(out)@, "pull_policy"@),
            lookup(final(out)@, "cgroup_parent"@) == lookup(old(out)@, "cgroup_parent"@),
            lookup(final(out)@, "mem_limit"@) == lookup(old(out)@, "mem_limit"@),
            lookup(final(out)@, "mem_reservation"@) == lookup(old(out)@, "mem_reservation"@),
            lookup(final(out)@, "mem_swappiness"@) == lookup(old(out)@, "mem_swappiness"@),
            lookup(final(out)@, "runtime"@) == lookup(old(out)@, "runtime"@),
            self.deploy is None && self.image is None && self.container_name is None && self.build_ is None && self.pid is None ==> final(out)@ == old(out)@,
    {
        put_opt(out, "deploy".to_owned(), opt_yaml(&self.deploy));
        put_opt(out, "image".to_owned(), opt_yaml(&self.image));
        put_opt(out, "container_name".to_owned(), opt_yaml(&self.container_name));
        put_opt(out, "build".to_owned(), opt_yaml(&self.build_));
        put_opt(out, "pid".to_owned(), opt_yaml(&self.pid));
        proof {
            lemma_service_keys();
            assert(distinct_keys(out@));
            assert(keys_allowed::<Service>(out@, KeyPolicy::Extensions));
            assert(ext_entries(out@).len() == 0);
            assert(opt_written(self.deploy) ==> opt_matches(self.deploy, lookup(out@, "deploy"@)));
            assert((lookup(out@, "deploy"@) is None) == (self.deploy is None));
            assert(opt_written(self.image) ==> opt_matches(self.image, lookup(out@, "image"@)));
            assert((lookup(out@, "image"@) is None) == (self.image is None));
            assert(opt_written(self.container_name) ==> opt_matches(self.container_name, lookup(out@, "container_name"@)));
            assert((lookup(out@, "container_name"@) is None) == (self.container_name is None));
            assert(opt_written(self.build_) ==> opt_matches(self.build_, lookup(out@, "build"@)));
            assert((lookup(out@, "build"@) is None) == (self.build_ is None));
            assert(opt_written(self.pid) ==> opt_matches(self.pid, lookup(out@, "pid"@)));
            assert((lookup(out@, "pid"@) is None) == (self.pid is None));
        }
    }

    /// Writes the fields `ports` to `restart`.
    fn put_part2(&self, out: &mut Vec<YamlEntry>)
        requires
            distinct_keys(old(out)@),
            keys_allowed::<Service>(old(out)@, KeyPolicy::Extensions),
            ext_entries(old(out)@).len() == 0,
            lookup(old(out)@, "ports"@) is None,
            lookup(old(out)@, "environment"@) is None,
            lookup(old(out)@, "network_mode"@) is None,
            lookup(old(out)@, "devices"@) is None,
            lookup(old(out)@, "restart"@) is None,
        ensures
            distinct_keys(final(out)@),
            keys_allowed::<Service>(final(out)@, KeyPolicy::Extensions),
            ext_entries(final(out)@).len() == 0,
            dflt_written(self.ports) ==> dflt_matches(self.ports, lookup(final(out)@, "ports"@)),
            dflt_written(self.environment) ==> dflt_matches(self.environment, lookup(final(out)@, "environment"@)),
            opt_written(self.network_mode) ==> opt_matches(self.network_mode, lookup(final(out)@, "network_mode"@)),
            dflt_written(self.devices) ==> dflt_matches(self.devices, lookup(final(out)@, "devices"@)),
            opt_written(self.restart) ==> opt_matches(self.restart, lookup(final(out)@, "restart"@)),
            (lookup(final(out)@, "ports"@) is None) == self.ports.empty(),
            (lookup(final(out)@, "environment"@) is None) == self.environment.empty(),
            (lookup(final(out)@, "network_mode"@) is None) == (self.network_mode is None),
            (lookup(final(out)@, "devices"@) is None) == self.devices.empty(),
            (lookup(final(out)@, "restart"@) is None) == (self.restart is None),
            lookup(final(out)@, "hostname"@) == lookup(old(out)@, "hostname"@),
            lookup(final(out)@, "domainname"@) == lookup(old(out)@, "domainname"@),
            lookup(final(out)@, "privileged"@) == lookup(old(out)@, "privileged"@),
            lookup(final(out)@, "read_only"@) == lookup(old(out)@, "read_only"@),
            lookup(final(out)@, "healthcheck"@) == lookup(old(out)@, "healthcheck"@),
            lookup(final(out)@, "deploy"@) == lookup(old(out)@, "deploy"@),
            lookup(final(out)@, "image"@) == lookup(old(out)@, "image"@),
            lookup(final(out)@, "container_name"@) == lookup(old(out)@, "container_name"@),
            lookup(final(out)@, "build"@) == lookup(old(out)@, "build"@),
            lookup(final(out)@, "pid"@) == lookup(old(out)@, "pid"@),
            lookup(final(out)@, "labels"@) == lookup(old(out)@, "labels"@),
            lookup(final(out)@, "tmpfs"@) == lookup(old(out)@, "tmpfs"@),
            lookup(final(out)@, "ulimits"@) == lookup(old(out)@, "ulimits"@),
            lookup(final(out)@, "volumes"@) == lookup(old(out)@, "volumes"@),
            lookup(final(out)@, "networks"@) == lookup(old(out)@, "networks"@),
            lookup(final(out)@, "cap_add"@) == lookup(old(out)@, "cap_add"@),
            lookup(final(out)@, "cap_drop"@) == lookup(old(out)@, "cap_drop"@),
            lookup(final(out)@, "depends_on"@) == lookup(old(out)@, "depends_on"@),
            lookup(final(out)@, "command"@) == lookup(old(out)@, "command"@),
            lookup(final(out)@, "entrypoint"@) == lookup(old(out)@, "entrypoint"@),
            lookup(final(out)@, "env_file"@) == lookup(old(out)@, "env_file"@),
            lookup(final(out)@, "stop_grace_period"@) == lookup(old(out)@, "stop_grace_period"@),
            lookup(final(out)@, "profiles"@) == lookup(old(out)@, "profiles"@),
            lookup(final(out)@, "links"@) == lookup(old(out)@, "links"@),
            lookup(final(out)@, "dns"@) == lookup(old(out)@, "dns"@),
            lookup(final(out)@, "ipc"@) == lookup(old(out)@, "ipc"@),
            lookup(final(out)@, "net"@) == lookup(old(out)@, "net"@),
            lookup(final(out)@, "stop_signal"@) == lookup(old(out)@, "stop_signal"@),
            lookup(final(out)@, "user"@) == lookup(old(out)@, "user"@),
            lookup(final(out)@, "userns_mode"@) == lookup(old(out)@, "userns_mode"@),
            lookup(final(out)@, "working_dir"@) == lookup(old(out)@, "working_dir"@),
            lookup(final(out)@, "expose"@) == lookup(old(out)@, "expose"@),
            lookup(final(out)@, "volumes_from"@) == lookup(old(out)@, "volumes_from"@),
            lookup(final(out)@, "extends"@) == lookup(old(out)@, "extends"@),
            lookup(final(out)@, "logging"@) == lookup(old(out)@, "logging"@),
            lookup(final(out)@, "scale"@) == lookup(old(out)@, "scale"@),
            lookup(final(out)@, "init"@) == lookup(old(out)@, "init"@),
            lookup(final(out)@, "stdin_open"@) == lookup(old(out)@, "stdin_open"@),
            lookup(final(out)@, "shm_size"@) == lookup(old(out)@, "shm_size"@),
            lookup(final(out)@, "extra_hosts"@) == lookup(old(out)@, "extra_hosts"@),
            lookup(final(out)@, "group_add"@) == lookup(old(out)@, "group_add"@),
            lookup(final(out)@, "tty"@) == lookup(old(out)@, "tty"@),
            lookup(final(out)@, "sysctls"@) == lookup(old(out)@, "sysctls"@),
            lookup(final(out)@, "security_opt"@) == lookup(old(out)@, "security_opt"@),
            lookup(final(out)@, "secrets"@) == lookup(old(out)@, "secrets"@),
            lookup(final(out)@, "pull_policy"@) == lookup(old(out)@, "pull_policy"@),
            lookup(final(out)@, "cgroup_parent"@) == lookup(old(out)@, "cgroup_parent"@),
            lookup(final(out)@, "mem_limit"@) == lookup(old(out)@, "mem_limit"@),
            lookup(final(out)@, "mem_reservation"@) == lookup(old(out)@, "mem_reservation"@),
            lookup(final(out)@, "mem_swappiness"@) == lookup(old(out)@, "mem_swappiness"@),
            lookup(final(out)@, "runtime"@) == lookup(old(out)@, "runtime"@),
            self.ports.is_default() && self.environment.is_default() && self.network_mode is None && self.devices.is_default() && self.restart is None ==> final(out)@ == old(out)@,
    {
        put_opt(out, "ports".to_owned(), dflt_yaml(&self.ports));
        put_opt(out, "environment".to_owned(), dflt_yaml(&self.environment));
        put_opt(out, "network_mode".to_owned(), opt_yaml(&self.network_mode));
        put_opt(out, "devices".to_owned(), dflt_yaml(&self.devices));
        put_opt(out, "restart".to_owned(), opt_yaml(&self.restart));
        proof {
            lemma_service_keys();
            assert(distinct_keys(out@));
            assert(keys_allowed::<Service>(out@, KeyPolicy::Extensions));
            assert(ext_entries(out@).len() == 0);
            assert(dflt_written(self.ports) ==> dflt_matches(self.ports, lookup(out@, "ports"@)));
            assert((lookup(out@, "ports"@) is None) == self.ports.empty());
            assert(dflt_written(self.environment) ==> dflt_matches(self.environment, lookup(out@, "environment"@)));
            assert((lookup(out@, "environment"@) is None) == self.environment.empty());
            assert(opt_written(self.network_mode) ==> opt_matches(self.network_mode, lookup(out@, "network_mode"@)));
            assert((lookup(out@, "network_mode"@) is None) == (self.network_mode is None));
            assert(dflt_written(self.devices) ==> dflt_matches(self.devices, lookup(out@, "devices"@)));
            assert((lookup(out@, "devices"@) is None) == self.devices.empty());
            assert(opt_written(self.restart) ==> opt_matches(self.restart, lookup(out@, "restart"@)));
            assert((lookup(out@, "restart"@) is None) == (self.restart is None));
        }
    }

    /// Writes the fields `labels` to `networks`.
    fn put_part3(&self, out: &mut Vec<YamlEntry>)
        requires
            distinct_keys(old(out)@),
            keys_allowed::<Service>(old(out)@, KeyPolicy::Extensions),
            ext_entries(old(out)@).len() == 0,
            lookup(old(out)@, "labels"@) is None,
            lookup(old(out)@, "tmpfs"@) is None,
            lookup(old(out)@, "ulimits"@) is None,
            lookup(old(out)@, "volumes"@) is None,
            lookup(old(out)@, "networks"@) is None,
        ensures
            distinct_keys(final(out)@),
            keys_allowed::<Service>(final(out)@, KeyPolicy::Extensions),
            ext_entries(final(out)@).len() == 0,
            dflt_written(self.labels) ==> dflt_matches(self.labels, lookup(final(out)@, "labels"@)),
            opt_written(self.tmpfs) ==> opt_matches(self.tmpfs, lookup(final(out)@, "tmpfs"@)),
            dflt_written(self.ulimits) ==> dflt_matches(self.ulimits, lookup(final(out)@, "ulimits"@)),
            dflt_written(self.volumes) ==> dflt_matches(self.volumes, lookup(final(out)@, "volumes"@)),
            dflt_written(self.networks) ==> dflt_matches(self.networks, lookup(final(out)@, "networks"@)),
            (lookup(final(out)@, "labels"@) is None) == self.labels.empty(),
            (lookup(final(out)@, "tmpfs"@) is None) == (self.tmpfs is None),
            (lookup(final(out)@, "ulimits"@) is None) == self.ulimits.empty(),
            (lookup(final(out)@, "volumes"@) is None) == self.volumes.empty(),
            (lookup(final(out)@, "networks"@) is None) == self.networks.empty(),
            lookup(final(out)@, "hostname"@) == lookup(old(out)@, "hostname"@),
            lookup(final(out)@, "domainname"@) == lookup(old(out)@, "domainname"@),
            lookup(final(out)@, "privileged"@) == lookup(old(out)@, "privileged"@),
            lookup(final(out)@, "read_only"@) == lookup(old(out)@, "read_only"@),
            lookup(final(out)@, "healthcheck"@) == lookup(old(out)@, "healthcheck"@),
            lookup(final(out)@, "deploy"@) == lookup(old(out)@, "deploy"@),
            lookup(final(out)@, "image"@) == lookup(old(out)@, "image"@),
            lookup(final(out)@, "container_name"@) == lookup(old(out)@, "container_name"@),
            lookup(final(out)@, "build"@) == lookup(old(out)@, "build"@),
            lookup(final(out)@, "pid"@) == lookup(old(out)@, "pid"@),
            lookup(final(out)@, "ports"@) == lookup(old(out)@, "ports"@),
            lookup(final(out)@, "environment"@) == lookup(old(out)@, "environment"@),
            lookup(final(out)@, "network_mode"@) == lookup(old(out)@, "network_mode"@),
            lookup(final(out)@, "devices"@) == lookup(old(out)@, "devices"@),
            lookup(final(out)@, "restart"@) == lookup(old(out)@, "restart"@),
            lookup(final(out)@, "cap_add"@) == lookup(old(out)@, "cap_add"@),
            lookup(final(out)@, "cap_drop"@) == lookup(old(out)@, "cap_drop"@),
            lookup(final(out)@, "depends_on"@) == lookup(old(out)@, "depends_on"@),
            lookup(final(out)@, "command"@) == lookup(old(out)@, "command"@),
            lookup(final(out)@, "entrypoint"@) == lookup(old(out)@, "entrypoint"@),
            lookup(final(out)@, "env_file"@) == lookup(old(out)@, "env_file"@),
            lookup(final(out)@, "stop_grace_period"@) == lookup(old(out)@, "stop_grace_period"@),
            lookup(final(out)@, "profiles"@) == lookup(old(out)@, "profiles"@),
            lookup(final(out)@, "links"@) == lookup(old(out)@, "links"@),
            lookup(final(out)@, "dns"@) == lookup(old(out)@, "dns"@),
            lookup(final(out)@, "ipc"@) == lookup(old(out)@, "ipc"@),
            lookup(final(out)@, "net"@) == lookup(old(out)@, "net"@),
            lookup(final(out)@, "stop_signal"@) == lookup(old(out)@, "stop_signal"@),
            lookup(final(out)@, "user"@) == lookup(old(out)@, "user"@),
            lookup(final(out)@, "userns_mode"@) == lookup(old(out)@, "userns_mode"@),
            lookup(final(out)@, "working_dir"@) == lookup(old(out)@, "working_dir"@),
            lookup(final(out)@, "expose"@) == lookup(old(out)@, "expose"@),
            lookup(final(out)@, "volumes_from"@) == lookup(old(out)@, "volumes_from"@),
            lookup(final(out)@, "extends"@) == lookup(old(out)@, "extends"@),
            lookup(final(out)@, "logging"@) == lookup(old(out)@, "logging"@),
            lookup(final(out)@, "scale"@) == lookup(old(out)@, "scale"@),
            lookup(final(out)@, "init"@) == lookup(old(out)@, "init"@),
            lookup(final(out)@, "stdin_open"@) == lookup(old(out)@, "stdin_open"@),
            lookup(final(out)@, "shm_size"@) == lookup(old(out)@, "shm_size"@),
            lookup(final(out)@, "extra_hosts"@) == lookup(old(out)@, "extra_hosts"@),
            lookup(final(out)@, "group_add"@) == lookup(old(out)@, "group_add"@),
            lookup(final(out)@, "tty"@) == lookup(old(out)@, "tty"@),
            lookup(final(out)@, "sysctls"@) == lookup(old(out)@, "sysctls"@),
            lookup(final(out)@, "security_opt"@) == lookup(old(out)@, "security_opt"@),
            lookup(final(out)@, "secrets"@) == lookup(old(out)@, "secrets"@),
            lookup(final(out)@, "pull_policy"@) == lookup(old(out)@, "pull_policy"@),
            lookup(final(out)@, "cgroup_parent"@) == lookup(old(out)@, "cgroup_parent"@),
            lookup(final(out)@, "mem_limit"@) == lookup(old(out)@, "mem_limit"@),
            lookup(final(out)@, "mem_reservation"@) == lookup(old(out)@, "mem_reservation"@),
            lookup(final(out)@, "mem_swappiness"@) == lookup(old(out)@, "mem_swappiness"@),
            lookup(final(out)@, "runtime"@) == lookup(old(out)@, "runtime"@),
            self.labels.is_default() && self.tmpfs is None && self.ulimits.is_default() && self.volumes.is_default() && self.networks.is_default() ==> final(out)@ == old(out)@,
    {
        put_opt(out, "labels".to_owned(), dflt_yaml(&self.labels));
        put_opt(out, "tmpfs".to_owned(), opt_yaml(&self.tmpfs));
        put_opt(out, "ulimits".to_owned(), dflt_yaml(&self.ulimits));
        put_opt(out, "volumes".to_owned(), dflt_yaml(&self.volumes));
        put_opt(out, "networks".to_owned(), dflt_yaml(&self.networks));
        proof {
            lemma_service_keys();
            assert(distinct_keys(out@));
            assert(keys_allowed::<Service>(out@, KeyPolicy::Extensions));
            assert(ext_entries(out@).len() == 0);
            assert(dflt_written(self.labels) ==> dflt_matches(self.labels, lookup(out@, "labels"@)));
            assert((lookup(out@, "labels"@) is None) == self.labels.empty());
            assert(opt_written(self.tmpfs) ==> opt_matches(self.tmpfs, lookup(out@, "tmpfs"@)));
            assert((lookup(out@, "tmpfs"@) is None) == (self.tmpfs is None));
            assert(dflt_written(self.ulimits) ==> dflt_matches(self.ulimits, lookup(out@, "ulimits"@)));
            assert((lookup(out@, "ulimits"@) is None) == self.ulimits.empty());
            assert(dflt_written(self.volumes) ==> dflt_matches(self.volumes, lookup(out@, "volumes"@)));
            assert((lookup(out@, "volumes"@) is None) == self.volumes.empty());
            assert(dflt_written(self.networks) ==> dflt_matches(self.networks, lookup(out@, "networks"@)));
            assert((lookup(out@, "networks"@) is None) == self.networks.empty());
        }
    }

    /// Writes the fields `cap_add` to `entrypoint`.
    fn put_part4(&self, out: &mut Vec<YamlEntry>)
        requires
            distinct_keys(old(out)@),
            keys_allowed::<Service>(old(out)@, KeyPolicy::Extensions),
            ext_entries(old(out)@).len() == 0,
            lookup(old(out)@, "cap_add"@) is None,
            lookup(old(out)@, "cap_drop"@) is None,
            lookup(old(out)@, "depends_on"@) is None,
            lookup(old(out)@, "command"@) is None,
            lookup(old(out)@, "entrypoint"@) is None,
        ensures
            distinct_keys(final(out)@),
            keys_allowed::<Service>(final(out)@, KeyPolicy::Extensions),
            ext_entries(final(out)@).len() == 0,
            dflt_written(self.cap_add) ==> dflt_matches(self.cap_add, lookup(final(out)@, "cap_add"@)),
            dflt_written(self.cap_drop) ==> dflt_matches(self.cap_drop, lookup(final(out)@, "cap_drop"@)),
            dflt_written(self.depends_on) ==> dflt_matches(self.depends_on, lookup(final(out)@, "depends_on"@)),
            opt_written(self.command) ==> opt_matches(self.command, lookup(final(out)@, "command"@)),
            opt_written(self.entrypoint) ==> opt_matches(self.entrypoint, lookup(final(out)@, "entrypoint"@)),
            (lookup(final(out)@, "cap_add"@) is None) == self.cap_add.empty(),
            (lookup(final(out)@, "cap_drop"@) is None) == self.cap_drop.empty(),
            (lookup(final(out)@, "depends_on"@) is None) == self.depends_on.empty(),
            (lookup(final(out)@, "command"@) is None) == (self.command is None),
            (lookup(final(out)@, "entrypoint"@) is None) == (self.entrypoint is None),
            lookup(final(out)@, "hostname"@) == lookup(old(out)@, "hostname"@),
            lookup(final(out)@, "domainname"@) == lookup(old(out)@, "domainname"@),
            lookup(final(out)@, "privileged"@) == lookup(old(out)@, "privileged"@),
            lookup(final(out)@, "read_only"@) == lookup(old(out)@, "read_only"@),
            lookup(final(out)@, "healthcheck"@) == lookup(old(out)@, "healthcheck"@),
            lookup(final(out)@, "deploy"@) == lookup(old(out)@, "deploy"@),
            lookup(final(out)@, "image"@) == lookup(old(out)@, "image"@),
            lookup(final(out)@, "container_name"@) == lookup(old(out)@, "container_name"@),
            lookup(final(out)@, "build"@) == lookup(old(out)@, "build"@),
            lookup(final(out)@, "pid"@) == lookup(old(out)@, "pid"@),
            lookup(final(out)@, "ports"@) == lookup(old(out)@, "ports"@),
            lookup(final(out)@, "environment"@) == lookup(old(out)@, "environment"@),
            lookup(final(out)@, "network_mode"@) == lookup(old(out)@, "network_mode"@),
            lookup(final(out)@, "devices"@) == lookup(old(out)@, "devices"@),
            lookup(final(out)@, "restart"@) == lookup(old(out)@, "restart"@),
            lookup(final(out)@, "labels"@) == lookup(old(out)@, "labels"@),
            lookup(final(out)@, "tmpfs"@) == lookup(old(out)@, "tmpfs"@),
            lookup(final(out)@, "ulimits"@) == lookup(old(out)@, "ulimits"@),
            lookup(final(out)@, "volumes"@) == lookup(old(out)@, "volumes"@),
            lookup(final(out)@, "networks"@) == lookup(old(out)@, "networks"@),
            lookup(final(out)@, "env_file"@) == lookup(old(out)@, "env_file"@),
            lookup(final(out)@, "stop_grace_period"@) == lookup(old(out)@, "stop_grace_period"@),
            lookup(final(out)@, "profiles"@) == lookup(old(out)@, "profiles"@),
            lookup(final(out)@, "links"@) == lookup(old(out)@, "links"@),
            lookup(final(out)@, "dns"@) == lookup(old(out)@, "dns"@),
            lookup(final(out)@, "ipc"@) == lookup(old(out)@, "ipc"@),
            lookup(final(out)@, "net"@) == lookup(old(out)@, "net"@),
            lookup(final(out)@, "stop_signal"@) == lookup(old(out)@, "stop_signal"@),
            lookup(final(out)@, "user"@) == lookup(old(out)@, "user"@),
            lookup(final(out)@, "userns_mode"@) == lookup(old(out)@, "userns_mode"@),
            lookup(final(out)@, "working_dir"@) == lookup(old(out)@, "working_dir"@),
            lookup(final(out)@, "expose"@) == lookup(old(out)@, "expose"@),
            lookup(final(out)@, "volumes_from"@) == lookup(old(out)@, "volumes_from"@),
            lookup(final(out)@, "extends"@) == lookup(old(out)@, "extends"@),
            lookup(final(out)@, "logging"@) == lookup(old(out)@, "logging"@),
            lookup(final(out)@, "scale"@) == lookup(old(out)@, "scale"@),
            lookup(final(out)@, "init"@) == lookup(old(out)@, "init"@),
            lookup(final(out)@, "stdin_open"@) == lookup(old(out)@, "stdin_open"@),
            lookup(final(out)@, "shm_size"@) == lookup(old(out)@, "shm_size"@),
            lookup(final(out)@, "extra_hosts"@) == lookup(old(out)@, "extra_hosts"@),
            lookup(final(out)@, "group_add"@) == lookup(old(out)@, "group_add"@),
            lookup(final(out)@, "tty"@) == lookup(old(out)@, "tty"@),
            lookup(final(out)@, "sysctls"@) == lookup(old(out)@, "sysctls"@),
            lookup(final(out)@, "security_opt"@) == lookup(old(out)@, "security_opt"@),
            lookup(final(out)@, "secrets"@) == lookup(old(out)@, "secrets"@),
            lookup(final(out)@, "pull_policy"@) == lookup(old(out)@, "pull_policy"@),
            lookup(final(out)@, "cgroup_parent"@) == lookup(old(out)@, "cgroup_parent"@),
            lookup(final(out)@, "mem_limit"@) == lookup(old(out)@, "mem_limit"@),
            lookup(final(out)@, "mem_reservation"@) == lookup(old(out)@, "mem_reservation"@),
            lookup(final(out)@, "mem_swappiness"@) == lookup(old(out)@, "mem_swappiness"@),
            lookup(final(out)@, "runtime"@) == lookup(old(out)@, "runtime"@),
            self.cap_add.is_default() && self.cap_drop.is_default() && self.depends_on.is_default() && self.command is None && self.entrypoint is None ==> final(out)@ == old(out)@,
    {
        put_opt(out, "cap_add".to_owned(), dflt_yaml(&self.cap_add));
        put_opt(out, "cap_drop".to_owned(), dflt_yaml(&self.cap_drop));
        put_opt(out, "depends_on".to_owned(), dflt_yaml(&self.depends_on));
        put_opt(out, "command".to_owned(), opt_yaml(&self.command));
        put_opt(out, "entrypoint".to_owned(), opt_yaml(&self.entrypoint));
        proof {
            lemma_service_keys();
            assert(distinct_keys(out@));
            assert(keys_allowed::<Service>(out@, KeyPolicy::Extensions));
            assert(ext_entries(out@).len() == 0);
            assert(dflt_written(self.cap_add) ==> dflt_matches(self.cap_add, lookup(out@, "cap_add"@)));
            assert((lookup(out@, "cap_add"@) is None) == self.cap_add.empty());
            assert(dflt_written(self.cap_drop) ==> dflt_matches(self.cap_drop, lookup(out@, "cap_drop"@)));
            assert((lookup(out@, "cap_drop"@) is None) == self.cap_drop.empty());
            assert(dflt_written(self.depends_on) ==> dflt_matches(self.depends_on, lookup(out@, "depends_on"@)));
            assert((lookup(out@, "depends_on"@) is None) == self.depends_on.empty());
            assert(opt_written(self.command) ==> opt_matches(self.command, lookup(out@, "command"@)));
            assert((lookup(out@, "command"@) is None) == (self.command is None));
            assert(opt_written(self.entrypoint) ==> opt_matches(self.entrypoint, lookup(out@, "entrypoint"@)));
            assert((lookup(out@, "entrypoint"@) is None) == (self.entrypoint is None));
        }
    }

    /// Writes the fields `env_file` to `dns`.
    fn put_part5(&self, out: &mut Vec<YamlEntry>)
        requires
            distinct_keys(old(out)@),
            keys_allowed::<Service>(old(out)@, KeyPolicy::Extensions),
            ext_entries(old(out)@).len() == 0,
            lookup(old(out)@, "env_file"@) is None,
            lookup(old(out)@, "stop_grace_period"@) is None,
            lookup(old(out)@, "profiles"@) is None,
            lookup(old(out)@, "links"@) is None,
            lookup(old(out)@, "dns"@) is None,
        ensures
            distinct_keys(final(out)@),
            keys_allowed::<Service>(final(out)@, KeyPolicy::Extensions),
            ext_entries(final(out)@).len() == 0,
            opt_written(self.env_file) ==> opt_matches(self.env_file, lookup(final(out)@, "env_file"@)),
            opt_written(self.stop_grace_period) ==> opt_matches(self.stop_grace_period, lookup(final(out)@, "stop_grace_period"@)),
            dflt_written(self.profiles) ==> dflt_matches(self.profiles, lookup(final(out)@, "profiles"@)),
            dflt_written(self.links) ==> dflt_matches(self.links, lookup(final(out)@, "links"@)),
            dflt_written(self.dns) ==> dflt_matches(self.dns, lookup(final(out)@, "dns"@)),
            (lookup(final(out)@, "env_file"@) is None) == (self.env_file is None),
            (lookup(final(out)@, "stop_grace_period"@) is None) == (self.stop_grace_period is None),
            (lookup(final(out)@, "profiles"@) is None) == self.profiles.empty(),
            (lookup(final(out)@, "links"@) is None) == self.links.empty(),
            (lookup(final(out)@, "dns"@) is None) == self.dns.empty(),
            lookup(final(out)@, "hostname"@) == lookup(old(out)@, "hostname"@),
            lookup(final(out)@, "domainname"@) == lookup(old(out)@, "domainname"@),
            lookup(final(out)@, "privileged"@) == lookup(old(out)@, "privileged"@),
            lookup(final(out)@, "read_only"@) == lookup(old(out)@, "read_only"@),
            lookup(final(out)@, "healthcheck"@) == lookup(old(out)@, "healthcheck"@),
            lookup(final(out)@, "deploy"@) == lookup(old(out)@, "deploy"@),
            lookup(final(out)@, "image"@) == lookup(old(out)@, "image"@),
            lookup(final(out)@, "container_name"@) == lookup(old(out)@, "container_name"@),
            lookup(final(out)@, "build"@) == lookup(old(out)@, "build"@),
            lookup(final(out)@, "pid"@) == lookup(old(out)@, "pid"@),
            lookup(final(out)@, "ports"@) == lookup(old(out)@, "ports"@),
            lookup(final(out)@, "environment"@) == lookup(old(out)@, "environment"@),
            lookup(final(out)@, "network_mode"@) == lookup(old(out)@, "network_mode"@),
            lookup(final(out)@, "devices"@) == lookup(old(out)@, "devices"@),
            lookup(final(out)@, "restart"@) == lookup(old(out)@, "restart"@),
            lookup(final(out)@, "labels"@) == lookup(old(out)@, "labels"@),
            lookup(final(out)@, "tmpfs"@) == lookup(old(out)@, "tmpfs"@),
            lookup(final(out)@, "ulimits"@) == lookup(old(out)@, "ulimits"@),
            lookup(final(out)@, "volumes"@) == lookup(old(out)@, "volumes"@),
            lookup(final(out)@, "networks"@) == lookup(old(out)@, "networks"@),
            lookup(final(out)@, "cap_add"@) == lookup(old(out)@, "cap_add"@),
            lookup(final(out)@, "cap_drop"@) == lookup(old(out)@, "cap_drop"@),
            lookup(final(out)@, "depends_on"@) == lookup(old(out)@, "depends_on"@),
            lookup(final(out)@, "command"@) == lookup(old(out)@, "command"@),
            lookup(final(out)@, "entrypoint"@) == lookup(old(out)@, "entrypoint"@),
            lookup(final(out)@, "ipc"@) == lookup(old(out)@, "ipc"@),
            lookup(final(out)@, "net"@) == lookup(old(out)@, "net"@),
            lookup(final(out)@, "stop_signal"@) == lookup(old(out)@, "stop_signal"@),
            lookup(final(out)@, "user"@) == lookup(old(out)@, "user"@),
            lookup(final(out)@, "userns_mode"@) == lookup(old(out)@, "userns_mode"@),
            lookup(final(out)@, "working_dir"@) == lookup(old(out)@, "working_dir"@),
            lookup(final(out)@, "expose"@) == lookup(old(out)@, "expose"@),
            lookup(final(out)@, "volumes_from"@) == lookup(old(out)@, "volumes_from"@),
            lookup(final(out)@, "extends"@) == lookup(old(out)@, "extends"@),
            lookup(final(out)@, "logging"@) == lookup(old(out)@, "logging"@),
            lookup(final(out)@, "scale"@) == lookup(old(out)@, "scale"@),
            lookup(final(out)@, "init"@) == lookup(old(out)@, "init"@),
            lookup(final(out)@, "stdin_open"@) == lookup(old(out)@, "stdin_open"@),
            lookup(final(out)@, "shm_size"@) == lookup(old(out)@, "shm_size"@),
            lookup(final(out)@, "extra_hosts"@) == lookup(old(out)@, "extra_hosts"@),
            lookup(final(out)@, "group_add"@) == lookup(old(out)@, "group_add"@),
            lookup(final(out)@, "tty"@) == lookup(old(out)@, "tty"@),
            lookup(final(out)@, "sysctls"@) == lookup(old(out)@, "sysctls"@),
            lookup(final(out)@, "security_opt"@) == lookup(old(out)@, "security_opt"@),
            lookup(final(out)@, "secrets"@) == lookup(old(out)@, "secrets"@),
            lookup(final(out)@, "pull_policy"@) == lookup(old(out)@, "pull_policy"@),
            lookup(final(out)@, "cgroup_parent"@) == lookup(old(out)@, "cgroup_parent"@),
            lookup(final(out)@, "mem_limit"@) == lookup(old(out)@, "mem_limit"@),
            lookup(final(out)@, "mem_reservation"@) == lookup(old(out)@, "mem_reservation"@),
            lookup(final(out)@, "mem_swappiness"@) == lookup(old(out)@, "mem_swappiness"@),
            lookup(final(out)@, "runtime"@) == lookup(old(out)@, "runtime"@),
            self.env_file is None && self.stop_grace_period is None && self.profiles.is_default() && self.links.is_default() && self.dns.is_default() ==> final(out)@ == old(out)@,
    {
        put_opt(out, "env_file".to_owned(), opt_yaml(&self.env_file));
        put_opt(out, "stop_grace_period".to_owned(), opt_yaml(&self.stop_grace_period));
        put_opt(out, "profiles".to_owned(), dflt_yaml(&self.profiles));
        put_opt(out, "links".to_owned(), dflt_yaml(&self.links));
        put_opt(out, "dns".to_owned(), dflt_yaml(&self.dns));
        proof {
            lemma_service_keys();
            assert(distinct_keys(out@));
            assert(keys_allowed::<Service>(out@, KeyPolicy::Extensions));
            assert(ext_entries(out@).len() == 0);
            assert(opt_written(self.env_file) ==> opt_matches(self.env_file, lookup(out@, "env_file"@)));
            assert((lookup(out@, "env_file"@) is None) == (self.env_file is None));
            assert(opt_written(self.stop_grace_period) ==> opt_matches(self.stop_grace_period, lookup(out@, "stop_grace_period"@)));
            assert((lookup(out@, "stop_grace_period"@) is None) == (self.stop_grace_period is None));
            assert(dflt_written(self.profiles) ==> dflt_matches(self.profiles, lookup(out@, "profiles"@)));
            assert((lookup(out@, "profiles"@) is None) == self.profiles.empty());
            assert(dflt_written(self.links) ==> dflt_matches(self.links, lookup(out@, "links"@)));
            assert((lookup(out@, "links"@) is None) == self.links.empty());
            assert(dflt_written(self.dns) ==> dflt_matches(self.dns, lookup(out@, "dns"@)));
            assert((lookup(out@, "dns"@) is None) == self.dns.empty());
        }
    }

    /// Writes the fields `ipc` to `userns_mode`.
    fn put_part6(&self, out: &mut Vec<YamlEntry>)
        requires
            distinct_keys(old(out)@),
            keys_allowed::<Service>(old(out)@, KeyPolicy::Extensions),
            ext_entries(old(out)@).len() == 0,
            lookup(old(out)@, "ipc"@) is None,
            lookup(old(out)@, "net"@) is None,
            lookup(old(out)@, "stop_signal"@) is None,
            lookup(old(out)@, "user"@) is None,
            lookup(old(out)@, "userns_mode"@) is None,
        ensures
            distinct_keys(final(out)@),
            keys_allowed::<Service>(final(out)@, KeyPolicy::Extensions),
            ext_entries(final(out)@).len() == 0,
            opt_written(self.ipc) ==> opt_matches(self.ipc, lookup(final(out)@, "ipc"@)),
            opt_written(self.net) ==> opt_matches(self.net, lookup(final(out)@, "net"@)),
            opt_written(self.stop_signal) ==> opt_matches(self.stop_signal, lookup(final(out)@, "stop_signal"@)),
            opt_written(self.user) ==> opt_matches(self.user, lookup(final(out)@, "user"@)),
            opt_written(self.userns_mode) ==> opt_matches(self.userns_mode, lookup(final(out)@, "userns_mode"@)),
            (lookup(final(out)@, "ipc"@) is None) == (self.ipc is None),
            (lookup(final(out)@, "net"@) is None) == (self.net is None),
            (lookup(final(out)@, "stop_signal"@) is None) == (self.stop_signal is None),
            (lookup(final(out)@, "user"@) is None) == (self.user is None),
            (lookup(final(out)@, "userns_mode"@) is None) == (self.userns_mode is None),
            lookup(final(out)@, "hostname"@) == lookup(old(out)@, "hostname"@),
            lookup(final(out)@, "domainname"@) == lookup(old(out)@, "domainname"@),
            lookup(final(out)@, "privileged"@) == lookup(old(out)@, "privileged"@),
            lookup(final(out)@, "read_only"@) == lookup(old(out)@, "read_only"@),
            lookup(final(out)@, "healthcheck"@) == lookup(old(out)@, "healthcheck"@),
            lookup(final(out)@, "deploy"@) == lookup(old(out)@, "deploy"@),
            lookup(final(out)@, "image"@) == lookup(old(out)@, "image"@),
            lookup(final(out)@, "container_name"@) == lookup(old(out)@, "container_name"@),
            lookup(final(out)@, "build"@) == lookup(old(out)@, "build"@),
            lookup(final(out)@, "pid"@) == lookup(old(out)@, "pid"@),
            lookup(final(out)@, "ports"@) == lookup(old(out)@, "ports"@),
            lookup(final(out)@, "environment"@) == lookup(old(out)@, "environment"@),
            lookup(final(out)@, "network_mode"@) == lookup(old(out)@, "network_mode"@),
            lookup(final(out)@, "devices"@) == lookup(old(out)@, "devices"@),
            lookup(final(out)@, "restart"@) == lookup(old(out)@, "restart"@),
            lookup(final(out)@, "labels"@) == lookup(old(out)@, "labels"@),
            lookup(final(out)@, "tmpfs"@) == lookup(old(out)@, "tmpfs"@),
            lookup(final(out)@, "ulimits"@) == lookup(old(out)@, "ulimits"@),
            lookup(final(out)@, "volumes"@) == lookup(old(out)@, "volumes"@),
            lookup(final(out)@, "networks"@) == lookup(old(out)@, "networks"@),
            lookup(final(out)@, "cap_add"@) == lookup(old(out)@, "cap_add"@),
            lookup(final(out)@, "cap_drop"@) == lookup(old(out)@, "cap_drop"@),
            lookup(final(out)@, "depends_on"@) == lookup(old(out)@, "depends_on"@),
            lookup(final(out)@, "command"@) == lookup(old(out)@, "command"@),
            lookup(final(out)@, "entrypoint"@) == lookup(old(out)@, "entrypoint"@),
            lookup(final(out)@, "env_file"@) == lookup(old(out)@, "env_file"@),
            lookup(final(out)@, "stop_grace_period"@) == lookup(old(out)@, "stop_grace_period"@),
            lookup(final(out)@, "profiles"@) == lookup(old(out)@, "profiles"@),
            lookup(final(out)@, "links"@) == lookup(old(out)@, "links"@),
            lookup(final(out)@, "dns"@) == lookup(old(out)@, "dns"@),
            lookup(final(out)@, "working_dir"@) == lookup(old(out)@, "working_dir"@),
            lookup(final(out)@, "expose"@) == lookup(old(out)@, "expose"@),
            lookup(final(out)@, "volumes_from"@) == lookup(old(out)@, "volumes_from"@),
            lookup(final(out)@, "extends"@) == lookup(old(out)@, "extends"@),
            lookup(final(out)@, "logging"@) == lookup(old(out)@, "logging"@),
            lookup(final(out)@, "scale"@) == lookup(old(out)@, "scale"@),
            lookup(final(out)@, "init"@) == lookup(old(out)@, "init"@),
            lookup(final(out)@, "stdin_open"@) == lookup(old(out)@, "stdin_open"@),
            lookup(final(out)@, "shm_size"@) == lookup(old(out)@, "shm_size"@),
            lookup(final(out)@, "extra_hosts"@) == lookup(old(out)@, "extra_hosts"@),
            lookup(final(out)@, "group_add"@) == lookup(old(out)@, "group_add"@),
            lookup(final(out)@, "tty"@) == lookup(old(out)@, "tty"@),
            lookup(final(out)@, "sysctls"@) == lookup(old(out)@, "sysctls"@),
            lookup(final(out)@, "security_opt"@) == lookup(old(out)@, "security_opt"@),
            lookup(final(out)@, "secrets"@) == lookup(old(out)@, "secrets"@),
            lookup(final(out)@, "pull_policy"@) == lookup(old(out)@, "pull_policy"@),
            lookup(final(out)@, "cgroup_parent"@) == lookup(old(out)@, "cgroup_parent"@),
            lookup(final(out)@, "mem_limit"@) == lookup(old(out)@, "mem_limit"@),
            lookup(final(out)@, "mem_reservation"@) == lookup(old(out)@, "mem_reservation"@),
            lookup(final(out)@, "mem_swappiness"@) == lookup(old(out)@, "mem_swappiness"@),
            lookup(final(out)@, "runtime"@) == lookup(old(out)@, "runtime"@),
            self.ipc is None && self.net is None && self.stop_signal is None && self.user is None && self.userns_mode is None ==> final(out)@ == old(out)@,
    {
        put_opt(out, "ipc".to_owned(), opt_yaml(&self.ipc));
        put_opt(out, "net".to_owned(), opt_yaml(&self.net));
        put_opt(out, "stop_signal".to_owned(), opt_yaml(&self.stop_signal));
        put_opt(out, "user".to_owned(), opt_yaml(&self.user));
        put_opt(out, "userns_mode".to_owned(), opt_yaml(&self.userns_mode));
        proof {
            lemma_service_keys();
            assert(distinct_keys(out@));
            assert(keys_allowed::<Service>(out@, KeyPolicy::Extensions));
            assert(ext_entries(out@).len() == 0);
            assert(opt_written(self.ipc) ==> opt_matches(self.ipc, lookup(out@, "ipc"@)));
            assert((lookup(out@, "ipc"@) is None) == (self.ipc is None));
            assert(opt_written(self.net) ==> opt_matches(self.net, lookup(out@, "net"@)));
            assert((lookup(out@, "net"@) is None) == (self.net is None));
            assert(opt_written(self.stop_signal) ==> opt_matches(self.stop_signal, lookup(out@, "stop_signal"@)));
            assert((lookup(out@, "stop_signal"@) is None) == (self.stop_signal is None));
            assert(opt_written(self.user) ==> opt_matches(self.user, lookup(out@, "user"@)));
            assert((lookup(out@, "user"@) is None) == (self.user is None));
            assert(opt_written(self.userns_mode) ==> opt_matches(self.userns_mode, lookup(out@, "userns_mode"@)));
            assert((lookup(out@, "userns_mode"@) is None) == (self.userns_mode is None));
        }
    }

    /// Writes the fields `working_dir` to `logging`.
    fn put_part7(&self, out: &mut Vec<YamlEntry>)
        requires
            distinct_keys(old(out)@),
            keys_allowed::<Service>(old(out)@, KeyPolicy::Extensions),
            ext_entries(old(out)@).len() == 0,
            lookup(old(out)@, "working_dir"@) is None,
            lookup(old(out)@, "expose"@) is None,
            lookup(old(out)@, "volumes_from"@) is None,
            lookup(old(out)@, "extends"@) is None,
            lookup(old(out)@, "logging"@) is None,
        ensures
            distinct_keys(final(out)@),
            keys_allowed::<Service>(final(out)@, KeyPolicy::Extensions),
            ext_entries(final(out)@).len() == 0,
            opt_written(self.working_dir) ==> opt_matches(self.working_dir, lookup(final(out)@, "working_dir"@)),
            dflt_written(self.expose) ==> dflt_matches(self.expose, lookup(final(out)@, "expose"@)),
            dflt_written(self.volumes_from) ==> dflt_matches(self.volumes_from, lookup(final(out)@, "volumes_from"@)),
            self.extends.canonical() ==> extends_matches(self.extends, lookup(final(out)@, "extends"@)),
            opt_written(self.logging) ==> opt_matches(self.logging, lookup(final(out)@, "logging"@)),
            (lookup(final(out)@, "working_dir"@) is None) == (self.working_dir is None),
            (lookup(final(out)@, "expose"@) is None) == self.expose.empty(),
            (lookup(final(out)@, "volumes_from"@) is None) == self.volumes_from.empty(),
            (lookup(final(out)@, "extends"@) is None) == self.extends.empty(),
            (lookup(final(out)@, "logging"@) is None) == (self.logging is None),
            lookup(final(out)@, "hostname"@) == lookup(old(out)@, "hostname"@),
            lookup(final(out)@, "domainname"@) == lookup(old(out)@, "domainname"@),
            lookup(final(out)@, "privileged"@) == lookup(old(out)@, "privileged"@),
            lookup(final(out)@, "read_only"@) == lookup(old(out)@, "read_only"@),
            lookup(final(out)@, "healthcheck"@) == lookup(old(out)@, "healthcheck"@),
            lookup(final(out)@, "deploy"@) == lookup(old(out)@, "deploy"@),
            lookup(final(out)@, "image"@) == lookup(old(out)@, "image"@),
            lookup(final(out)@, "container_name"@) == lookup(old(out)@, "container_name"@),
            lookup(final(out)@, "build"@) == lookup(old(out)@, "build"@),
            lookup(final(out)@, "pid"@) == lookup(old(out)@, "pid"@),
            lookup(final(out)@, "ports"@) == lookup(old(out)@, "ports"@),
            lookup(final(out)@, "environment"@) == lookup(old(out)@, "environment"@),
            lookup(final(out)@, "network_mode"@) == lookup(old(out)@, "network_mode"@),
            lookup(final(out)@, "devices"@) == lookup(old(out)@, "devices"@),
            lookup(final(out)@, "restart"@) == lookup(old(out)@, "restart"@),
            lookup(final(out)@, "labels"@) == lookup(old(out)@, "labels"@),
            lookup(final(out)@, "tmpfs"@) == lookup(old(out)@, "tmpfs"@),
            lookup(final(out)@, "ulimits"@) == lookup(old(out)@, "ulimits"@),
            lookup(final(out)@, "volumes"@) == lookup(old(out)@, "volumes"@),
            lookup(final(out)@, "networks"@) == lookup(old(out)@, "networks"@),
            lookup(final(out)@, "cap_add"@) == lookup(old(out)@, "cap_add"@),
            lookup(final(out)@, "cap_drop"@) == lookup(old(out)@, "cap_drop"@),
            lookup(final(out)@, "depends_on"@) == lookup(old(out)@, "depends_on"@),
            lookup(final(out)@, "command"@) == lookup(old(out)@, "command"@),
            lookup(final(out)@, "entrypoint"@) == lookup(old(out)@, "entrypoint"@),
            lookup(final(out)@, "env_file"@) == lookup(old(out)@, "env_file"@),
            lookup(final(out)@, "stop_grace_period"@) == lookup(old(out)@, "stop_grace_period"@),
            lookup(final(out)@, "profiles"@) == lookup(old(out)@, "profiles"@),
            lookup(final(out)@, "links"@) == lookup(old(out)@, "links"@),
            lookup(final(out)@, "dns"@) == lookup(old(out)@, "dns"@),
            lookup(final(out)@, "ipc"@) == lookup(old(out)@, "ipc"@),
            lookup(final(out)@, "net"@) == lookup(old(out)@, "net"@),
            lookup(final(out)@, "stop_signal"@) == lookup(old(out)@, "stop_signal"@),
            lookup(final(out)@, "user"@) == lookup(old(out)@, "user"@),
            lookup(final(out)@, "userns_mode"@) == lookup(old(out)@, "userns_mode"@),
            lookup(final(out)@, "scale"@) == lookup(old(out)@, "scale"@),
            lookup(final(out)@, "init"@) == lookup(old(out)@, "init"@),
            lookup(final(out)@, "stdin_open"@) == lookup(old(out)@, "stdin_open"@),
            lookup(final(out)@, "shm_size"@) == lookup(old(out)@, "shm_size"@),
            lookup(final(out)@, "extra_hosts"@) == lookup(old(out)@, "extra_hosts"@),
            lookup(final(out)@, "group_add"@) == lookup(old(out)@, "group_add"@),
            lookup(final(out)@, "tty"@) == lookup(old(out)@, "tty"@),
            lookup(final(out)@, "sysctls"@) == lookup(old(out)@, "sysctls"@),
            lookup(final(out)@, "security_opt"@) == lookup(old(out)@, "security_opt"@),
            lookup(final(out)@, "secrets"@) == lookup(old(out)@, "secrets"@),
            lookup(final(out)@, "pull_policy"@) == lookup(old(out)@, "pull_policy"@),
            lookup(final(out)@, "cgroup_parent"@) == lookup(old(out)@, "cgroup_parent"@),
            lookup(final(out)@, "mem_limit"@) == lookup(old(out)@, "mem_limit"@),
            lookup(final(out)@, "mem_reservation"@) == lookup(old(out)@, "mem_reservation"@),
            lookup(final(out)@, "mem_swappiness"@) == lookup(old(out)@, "mem_swappiness"@),
            lookup(final(out)@, "runtime"@) == lookup(old(out)@, "runtime"@),
            self.working_dir is None && self.expose.is_default() && self.volumes_from.is_default() && self.extends.is_default() && self.logging is None ==> final(out)@ == old(out)@,
    {
        put_opt(out, "working_dir".to_owned(), opt_yaml(&self.working_dir));
        put_opt(out, "expose".to_owned(), dflt_yaml(&self.expose));
        put_opt(out, "volumes_from".to_owned(), dflt_yaml(&self.volumes_from));
        put_opt(out, "extends".to_owned(), dflt_yaml(&self.extends));
        put_opt(out, "logging".to_owned(), opt_yaml(&self.logging));
        proof {
            lemma_service_keys();
            assert(distinct_keys(out@));
            assert(keys_allowed::<Service>(out@, KeyPolicy::Extensions));
            assert(ext_entries(out@).len() == 0);
            assert(opt_written(self.working_dir) ==> opt_matches(self.working_dir, lookup(out@, "working_dir"@)));
            assert((lookup(out@, "working_dir"@) is None) == (self.working_dir is None));
            assert(dflt_written(self.expose) ==> dflt_matches(self.expose, lookup(out@, "expose"@)));
            assert((lookup(out@, "expose"@) is None) == self.expose.empty());
            assert(dflt_written(self.volumes_from) ==> dflt_matches(self.volumes_from, lookup(out@, "volumes_from"@)));
            assert((lookup(out@, "volumes_from"@) is None) == self.volumes_from.empty());
            assert(self.extends.canonical() ==> extends_matches(self.extends, lookup(out@, "extends"@)));
            assert((lookup(out@, "extends"@) is None) == self.extends.empty());
            assert(opt_written(self.logging) ==> opt_matches(self.logging, lookup(out@, "logging"@)));
            assert((lookup(out@, "logging"@) is None) == (self.logging is None));
        }
    }

    /// Writes the fields `scale` to `extra_hosts`.
    fn put_part8(&self, out: &mut Vec<YamlEntry>)
        requires
            distinct_keys(old(out)@),
            keys_allowed::<Service>(old(out)@, KeyPolicy::Extensions),
            ext_entries(old(out)@).len() == 0,
            lookup(old(out)@, "scale"@) is None,
            lookup(old(out)@, "init"@) is None,
            lookup(old(out)@, "stdin_open"@) is None,
            lookup(old(out)@, "shm_size"@) is None,
            lookup(old(out)@, "extra_hosts"@) is None,
        ensures
            distinct_keys(final(out)@),
            keys_allowed::<Service>(final(out)@, KeyPolicy::Extensions),
            ext_entries(final(out)@).len() == 0,
            dflt_written(self.scale) ==> dflt_matches(self.scale, lookup(final(out)@, "scale"@)),
            dflt_written(self.init) ==> dflt_matches(self.init, lookup(final(out)@, "init"@)),
            dflt_written(self.stdin_open) ==> dflt_matches(self.stdin_open, lookup(final(out)@, "stdin_open"@)),
            opt_written(self.shm_size) ==> opt_matches(self.shm_size, lookup(final(out)@, "shm_size"@)),
            dflt_written(self.extra_hosts) ==> dflt_matches(self.extra_hosts, lookup(final(out)@, "extra_hosts"@)),
            (lookup(final(out)@, "scale"@) is None) == self.scale.empty(),
            (lookup(final(out)@, "init"@) is None) == self.init.empty(),
            (lookup(final(out)@, "stdin_open"@) is None) == self.stdin_open.empty(),
            (lookup(final(out)@, "shm_size"@) is None) == (self.shm_size is None),
            (lookup(final(out)@, "extra_hosts"@) is None) == self.extra_hosts.empty(),
            lookup(final(out)@, "hostname"@) == lookup(old(out)@, "hostname"@),
            lookup(final(out)@, "domainname"@) == lookup(old(out)@, "domainname"@),
            lookup(final(out)@, "privileged"@) == lookup(old(out)@, "privileged"@),
            lookup(final(out)@, "read_only"@) == lookup(old(out)@, "read_only"@),
            lookup(final(out)@, "healthcheck"@) == lookup(old(out)@, "healthcheck"@),
            lookup(final(out)@, "deploy"@) == lookup(old(out)@, "deploy"@),
            lookup(final(out)@, "image"@) == lookup(old(out)@, "image"@),
            lookup(final(out)@, "container_name"@) == lookup(old(out)@, "container_name"@),
            lookup(final(out)@, "build"@) == lookup(old(out)@, "build"@),
            lookup(final(out)@, "pid"@) == lookup(old(out)@, "pid"@),
            lookup(final(out)@, "ports"@) == lookup(old(out)@, "ports"@),
            lookup(final(out)@, "environment"@) == lookup(old(out)@, "environment"@),
            lookup(final(out)@, "network_mode"@) == lookup(old(out)@, "network_mode"@),
            lookup(final(out)@, "devices"@) == lookup(old(out)@, "devices"@),
            lookup(final(out)@, "restart"@) == lookup(old(out)@, "restart"@),
            lookup(final(out)@, "labels"@) == lookup(old(out)@, "labels"@),
            lookup(final(out)@, "tmpfs"@) == lookup(old(out)@, "tmpfs"@),
            lookup(final(out)@, "ulimits"@) == lookup(old(out)@, "ulimits"@),
            lookup(final(out)@, "volumes"@) == lookup(old(out)@, "volumes"@),
            lookup(final(out)@, "networks"@) == lookup(old(out)@, "networks"@),
            lookup(final(out)@, "cap_add"@) == lookup(old(out)@, "cap_add"@),
            lookup(final(out)@, "cap_drop"@) == lookup(old(out)@, "cap_drop"@),
            lookup(final(out)@, "depends_on"@) == lookup(old(out)@, "depends_on"@),
            lookup(final(out)@, "command"@) == lookup(old(out)@, "command"@),
            lookup(final(out)@, "entrypoint"@) == lookup(old(out)@, "entrypoint"@),
            lookup(final(out)@, "env_file"@) == lookup(old(out)@, "env_file"@),
            lookup(final(out)@, "stop_grace_period"@) == lookup(old(out)@, "stop_grace_period"@),
            lookup(final(out)@, "profiles"@) == lookup(old(out)@, "profiles"@),
            lookup(final(out)@, "links"@) == lookup(old(out)@, "links"@),
            lookup(final(out)@, "dns"@) == lookup(old(out)@, "dns"@),
            lookup(final(out)@, "ipc"@) == lookup(old(out)@, "ipc"@),
            lookup(final(out)@, "net"@) == lookup(old(out)@, "net"@),
            lookup(final(out)@, "stop_signal"@) == lookup(old(out)@, "stop_signal"@),
            lookup(final(out)@, "user"@) == lookup(old(out)@, "user"@),
            lookup(final(out)@, "userns_mode"@) == lookup(old(out)@, "userns_mode"@),
            lookup(final(out)@, "working_dir"@) == lookup(old(out)@, "working_dir"@),
            lookup(final(out)@, "expose"@) == lookup(old(out)@, "expose"@),
            lookup(final(out)@, "volumes_from"@) == lookup(old(out)@, "volumes_from"@),
            lookup(final(out)@, "extends"@) == lookup(old(out)@, "extends"@),
            lookup(final(out)@, "logging"@) == lookup(old(out)@, "logging"@),
            lookup(final(out)@, "group_add"@) == lookup(old(out)@, "group_add"@),
            lookup(final(out)@, "tty"@) == lookup(old(out)@, "tty"@),
            lookup(final(out)@, "sysctls"@) == lookup(old(out)@, "sysctls"@),
            lookup(final(out)@, "security_opt"@) == lookup(old(out)@, "security_opt"@),
            lookup(final(out)@, "secrets"@) == lookup(old(out)@, "secrets"@),
            lookup(final(out)@, "pull_policy"@) == lookup(old(out)@, "pull_policy"@),
            lookup(final(out)@, "cgroup_parent"@) == lookup(old(out)@, "cgroup_parent"@),
            lookup(final(out)@, "mem_limit"@) == lookup(old(out)@, "mem_limit"@),
            lookup(final(out)@, "mem_reservation"@) == lookup(old(out)@, "mem_reservation"@),
            lookup(final(out)@, "mem_swappiness"@) == lookup(old(out)@, "mem_swappiness"@),
            lookup(final(out)@, "runtime"@) == lookup(old(out)@, "runtime"@),
            self.scale.is_default() && self.init.is_default() && self.stdin_open.is_default() && self.shm_size is None && self.extra_hosts.is_default() ==> final(out)@ == old(out)@,
    {
        put_opt(out, "scale".to_owned(), dflt_yaml(&self.scale));
        put_opt(out, "init".to_owned(), dflt_yaml(&self.init));
        put_opt(out, "stdin_open".to_owned(), dflt_yaml(&self.stdin_open));
        put_opt(out, "shm_size".to_owned(), opt_yaml(&self.shm_size));
        put_opt(out, "extra_hosts".to_owned(), dflt_yaml(&self.extra_hosts));
        proof {
            lemma_service_keys();
            assert(distinct_keys(out@));
            assert(keys_allowed::<Service>(out@, KeyPolicy::Extensions));
            assert(ext_entries(out@).len() == 0);
            assert(dflt_written(self.scale) ==> dflt_matches(self.scale, lookup(out@, "scale"@)));
            assert((lookup(out@, "scale"@) is None) == self.scale.empty());
            assert(dflt_written(self.init) ==> dflt_matches(self.init, lookup(out@, "init"@)));
            assert((lookup(out@, "init"@) is None) == self.init.empty());
            assert(dflt_written(self.stdin_open) ==> dflt_matches(self.stdin_open, lookup(out@, "stdin_open"@)));
            assert((lookup(out@, "stdin_open"@) is None) == self.stdin_open.empty());
            assert(opt_written(self.shm_size) ==> opt_matches(self.shm_size, lookup(out@, "shm_size"@)));
            assert((lookup(out@, "shm_size"@) is None) == (self.shm_size is None));
            assert(dflt_written(self.extra_hosts) ==> dflt_matches(self.extra_hosts, lookup(out@, "extra_hosts"@)));
            assert((lookup(out@, "extra_hosts"@) is None) == self.extra_hosts.empty());
        }
    }

    /// Writes the fields `group_add` to `secrets`.
    fn put_part9(&self, out: &mut Vec<YamlEntry>)
        requires
            distinct_keys(old(out)@),
            keys_allowed::<Service>(old(out)@, KeyPolicy::Extensions),
            ext_entries(old(out)@).len() == 0,
            lookup(old(out)@, "group_add"@) is None,
            lookup(old(out)@, "tty"@) is None,
            lookup(old(out)@, "sysctls"@) is None,
            lookup(old(out)@, "security_opt"@) is None,
            lookup(old(out)@, "secrets"@) is None,
        ensures
            distinct_keys(final(out)@),
            keys_allowed::<Service>(final(out)@, KeyPolicy::Extensions),
            ext_entries(final(out)@).len() == 0,
            dflt_written(self.group_add) ==> dflt_matches(self.group_add, lookup(final(out)@, "group_add"@)),
            dflt_written(self.tty) ==> dflt_matches(self.tty, lookup(final(out)@, "tty"@)),
            dflt_written(self.sysctls) ==> dflt_matches(self.sysctls, lookup(final(out)@, "sysctls"@)),
            dflt_written(self.security_opt) ==> dflt_matches(self.security_opt, lookup(final(out)@, "security_opt"@)),
            opt_written(self.secrets) ==> opt_matches(self.secrets, lookup(final(out)@, "secrets"@)),
            (lookup(final(out)@, "group_add"@) is None) == self.group_add.empty(),
            (lookup(final(out)@, "tty"@) is None) == self.tty.empty(),
            (lookup(final(out)@, "sysctls"@) is None) == self.sysctls.empty(),
            (lookup(final(out)@, "security_opt"@) is None) == self.security_opt.empty(),
            (lookup(final(out)@, "secrets"@) is None) == (self.secrets is None),
            lookup(final(out)@, "hostname"@) == lookup(old(out)@, "hostname"@),
            lookup(final(out)@, "domainname"@) == lookup(old(out)@, "domainname"@),
            lookup(final(out)@, "privileged"@) == lookup(old(out)@, "privileged"@),
            lookup(final(out)@, "read_only"@) == lookup(old(out)@, "read_only"@),
            lookup(final(out)@, "healthcheck"@) == lookup(old(out)@, "healthcheck"@),
            lookup(final(out)@, "deploy"@) == lookup(old(out)@, "deploy"@),
            lookup(final(out)@, "image"@) == lookup(old(out)@, "image"@),
            lookup(final(out)@, "container_name"@) == lookup(old(out)@, "container_name"@),
            lookup(final(out)@, "build"@) == lookup(old(out)@, "build"@),
            lookup(final(out)@, "pid"@) == lookup(old(out)@, "pid"@),
            lookup(final(out)@, "ports"@) == lookup(old(out)@, "ports"@),
            lookup(final(out)@, "environment"@) == lookup(old(out)@, "environment"@),
            lookup(final(out)@, "network_mode"@) == lookup(old(out)@, "network_mode"@),
            lookup(final(out)@, "devices"@) == lookup(old(out)@, "devices"@),
            lookup(final(out)@, "restart"@) == lookup(old(out)@, "restart"@),
            lookup(final(out)@, "labels"@) == lookup(old(out)@, "labels"@),
            lookup(final(out)@, "tmpfs"@) == lookup(old(out)@, "tmpfs"@),
            lookup(final(out)@, "ulimits"@) == lookup(old(out)@, "ulimits"@),
            lookup(final(out)@, "volumes"@) == lookup(old(out)@, "volumes"@),
            lookup(final(out)@, "networks"@) == lookup(old(out)@, "networks"@),
            lookup(final(out)@, "cap_add"@) == lookup(old(out)@, "cap_add"@),
            lookup(final(out)@, "cap_drop"@) == lookup(old(out)@, "cap_drop"@),
            lookup(final(out)@, "depends_on"@) == lookup(old(out)@, "depends_on"@),
            lookup(final(out)@, "command"@) == lookup(old(out)@, "command"@),
            lookup(final(out)@, "entrypoint"@) == lookup(old(out)@, "entrypoint"@),
            lookup(final(out)@, "env_file"@) == lookup(old(out)@, "env_file"@),
            lookup(final(out)@, "stop_grace_period"@) == lookup(old(out)@, "stop_grace_period"@),
            lookup(final(out)@, "profiles"@) == lookup(old(out)@, "profiles"@),
            lookup(final(out)@, "links"@) == lookup(old(out)@, "links"@),
            lookup(final(out)@, "dns"@) == lookup(old(out)@, "dns"@),
            lookup(final(out)@, "ipc"@) == lookup(old(out)@, "ipc"@),
            lookup(final(out)@, "net"@) == lookup(old(out)@, "net"@),
            lookup(final(out)@, "stop_signal"@) == lookup(old(out)@, "stop_signal"@),
            lookup(final(out)@, "user"@) == lookup(old(out)@, "user"@),
            lookup(final(out)@, "userns_mode"@) == lookup(old(out)@, "userns_mode"@),
            lookup(final(out)@, "working_dir"@) == lookup(old(out)@, "working_dir"@),
            lookup(final(out)@, "expose"@) == lookup(old(out)@, "expose"@),
            lookup(final(out)@, "volumes_from"@) == lookup(old(out)@, "volumes_from"@),
            lookup(final(out)@, "extends"@) == lookup(old(out)@, "extends"@),
            lookup(final(out)@, "logging"@) == lookup(old(out)@, "logging"@),
            lookup(final(out)@, "scale"@) == lookup(old(out)@, "scale"@),
            lookup(final(out)@, "init"@) == lookup(old(out)@, "init"@),
            lookup(final(out)@, "stdin_open"@) == lookup(old(out)@, "stdin_open"@),
            lookup(final(out)@, "shm_size"@) == lookup(old(out)@, "shm_size"@),
            lookup(final(out)@, "extra_hosts"@) == lookup(old(out)@, "extra_hosts"@),
            lookup(final(out)@, "pull_policy"@) == lookup(old(out)@, "pull_policy"@),
            lookup(final(out)@, "cgroup_parent"@) == lookup(old(out)@, "cgroup_parent"@),
            lookup(final(out)@, "mem_limit"@) == lookup(old(out)@, "mem_limit"@),
            lookup(final(out)@, "mem_reservation"@) == lookup(old(out)@, "mem_reservation"@),
            lookup(final(out)@, "mem_swappiness"@) == lookup(old(out)@, "mem_swappiness"@),
            lookup(final(out)@, "runtime"@) == lookup(old(out)@, "runtime"@),
            self.group_add.is_default() && self.tty.is_default() && self.sysctls.is_default() && self.security_opt.is_default() && self.secrets is None ==> final(out)@ == old(out)@,
    {
        put_opt(out, "group_add".to_owned(), dflt_yaml(&self.group_add));
        put_opt(out, "tty".to_owned(), dflt_yaml(&self.tty));
        put_opt(out, "sysctls".to_owned(), dflt_yaml(&self.sysctls));
        put_opt(out, "security_opt".to_owned(), dflt_yaml(&self.security_opt));
        put_opt(out, "secrets".to_owned(), opt_yaml(&self.secrets));
        proof {
            lemma_service_keys();
            assert(distinct_keys(out@));
            assert(keys_allowed::<Service>(out@, KeyPolicy::Extensions));
            assert(ext_entries(out@).len() == 0);
            assert(dflt_written(self.group_add) ==> dflt_matches(self.group_add, lookup(out@, "group_add"@)));
            assert((lookup(out@, "group_add"@) is None) == self.group_add.empty());
            assert(dflt_written(self.tty) ==> dflt_matches(self.tty, lookup(out@, "tty"@)));
            assert((lookup(out@, "tty"@) is None) == self.tty.empty());
            assert(dflt_written(self.sysctls) ==> dflt_matches(self.sysctls, lookup(out@, "sysctls"@)));
            assert((lookup(out@, "sysctls"@) is None) == self.sysctls.empty());
            assert(dflt_written(self.security_opt) ==> dflt_matches(self.security_opt, lookup(out@, "security_opt"@)));
            assert((lookup(out@, "security_opt"@) is None) == self.security_opt.empty());
            assert(opt_written(self.secrets) ==> opt_matches(self.secrets, lookup(out@, "secrets"@)));
            assert((lookup(out@, "secrets"@) is None) == (self.secrets is None));
        }
    }

    /// Writes the fields `pull_policy` to `mem_swappiness`.
    fn put_part10(&self, out: &mut Vec<YamlEntry>)
        requires
            distinct_keys(old(out)@),
            keys_allowed::<Service>(old(out)@, KeyPolicy::Extensions),
            ext_entries(old(out)@).len() == 0,
            lookup(old(out)@, "pull_policy"@) is None,
            lookup(old(out)@, "cgroup_parent"@) is None,
            lookup(old(out)@, "mem_limit"@) is None,
            lookup(old(out)@, "mem_reservation"@) is None,
            lookup(old(out)@, "mem_swappiness"@) is None,
        ensures
            distinct_keys(final(out)@),
            keys_allowed::<Service>(final(out)@, KeyPolicy::Extensions),
            ext_entries(final(out)@).len() == 0,
            opt_written(self.pull_policy) ==> opt_matches(self.pull_policy, lookup(final(out)@, "pull_policy"@)),
            opt_written(self.cgroup_parent) ==> opt_matches(self.cgroup_parent, lookup(final(out)@, "cgroup_parent"@)),
            opt_written(self.mem_limit) ==> opt_matches(self.mem_limit, lookup(final(out)@, "mem_limit"@)),
            opt_written(self.mem_reservation) ==> opt_matches(self.mem_reservation, lookup(final(out)@, "mem_reservation"@)),
            opt_written(self.mem_swappiness) ==> opt_matches(self.mem_swappiness, lookup(final(out)@, "mem_swappiness"@)),
            (lookup(final(out)@, "pull_policy"@) is None) == (self.pull_policy is None),
            (lookup(final(out)@, "cgroup_parent"@) is None) == (self.cgroup_parent is None),
            (lookup(final(out)@, "mem_limit"@) is None) == (self.mem_limit is None),
            (lookup(final(out)@, "mem_reservation"@) is None) == (self.mem_reservation is None),
            (lookup(final(out)@, "mem_swappiness"@) is None) == (self.mem_swappiness is None),
            lookup(final(out)@, "hostname"@) == lookup(old(out)@, "hostname"@),
            lookup(final(out)@, "domainname"@) == lookup(old(out)@, "domainname"@),
            lookup(final(out)@, "privileged"@) == lookup(old(out)@, "privileged"@),
            lookup(final(out)@, "read_only"@) == lookup(old(out)@, "read_only"@),
            lookup(final(out)@, "healthcheck"@) == lookup(old(out)@, "healthcheck"@),
            lookup(final(out)@, "deploy"@) == lookup(old(out)@, "deploy"@),
            lookup(final(out)@, "image"@) == lookup(old(out)@, "image"@),
            lookup(final(out)@, "container_name"@) == lookup(old(out)@, "container_name"@),
            lookup(final(out)@, "build"@) == lookup(old(out)@, "build"@),
            lookup(final(out)@, "pid"@) == lookup(old(out)@, "pid"@),
            lookup(final(out)@, "ports"@) == lookup(old(out)@, "ports"@),
            lookup(final(out)@, "environment"@) == lookup(old(out)@, "environment"@),
            lookup(final(out)@, "network_mode"@) == lookup(old(out)@, "network_mode"@),
            lookup(final(out)@, "devices"@) == lookup(old(out)@, "devices"@),
            lookup(final(out)@, "restart"@) == lookup(old(out)@, "restart"@),
            lookup(final(out)@, "labels"@) == lookup(old(out)@, "labels"@),
            lookup(final(out)@, "tmpfs"@) == lookup(old(out)@, "tmpfs"@),
            lookup(final(out)@, "ulimits"@) == lookup(old(out)@, "ulimits"@),
            lookup(final(out)@, "volumes"@) == lookup(old(out)@, "volumes"@),
            lookup(final(out)@, "networks"@) == lookup(old(out)@, "networks"@),
            lookup(final(out)@, "cap_add"@) == lookup(old(out)@, "cap_add"@),
            lookup(final(out)@, "cap_drop"@) == lookup(old(out)@, "cap_drop"@),
            lookup(final(out)@, "depends_on"@) == lookup(old(out)@, "depends_on"@),
            lookup(final(out)@, "command"@) == lookup(old(out)@, "command"@),
            lookup(final(out)@, "entrypoint"@) == lookup(old(out)@, "entrypoint"@),
            lookup(final(out)@, "env_file"@) == lookup(old(out)@, "env_file"@),
            lookup(final(out)@, "stop_grace_period"@) == lookup(old(out)@, "stop_grace_period"@),
            lookup(final(out)@, "profiles"@) == lookup(old(out)@, "profiles"@),
            lookup(final(out)@, "links"@) == lookup(old(out)@, "links"@),
            lookup(final(out)@, "dns"@) == lookup(old(out)@, "dns"@),
            lookup(final(out)@, "ipc"@) == lookup(old(out)@, "ipc"@),
            lookup(final(out)@, "net"@) == lookup(old(out)@, "net"@),
            lookup(final(out)@, "stop_signal"@) == lookup(old(out)@, "stop_signal"@),
            lookup(final(out)@, "user"@) == lookup(old(out)@, "user"@),
            lookup(final(out)@, "userns_mode"@) == lookup(old(out)@, "userns_mode"@),
            lookup(final(out)@, "working_dir"@) == lookup(old(out)@, "working_dir"@),
            lookup(final(out)@, "expose"@) == lookup(old(out)@, "expose"@),
            lookup(final(out)@, "volumes_from"@) == lookup(old(out)@, "volumes_from"@),
            lookup(final(out)@, "extends"@) == lookup(old(out)@, "extends"@),
            lookup(final(out)@, "logging"@) == lookup(old(out)@, "logging"@),
            lookup(final(out)@, "scale"@) == lookup(old(out)@, "scale"@),
            lookup(final(out)@, "init"@) == lookup(old(out)@, "init"@),
            lookup(final(out)@, "stdin_open"@) == lookup(old(out)@, "stdin_open"@),
            lookup(final(out)@, "shm_size"@) == lookup(old(out)@, "shm_size"@),
            lookup(final(out)@, "extra_hosts"@) == lookup(old(out)@, "extra_hosts"@),
            lookup(final(out)@, "group_add"@) == lookup(old(out)@, "group_add"@),
            lookup(final(out)@, "tty"@) == lookup(old(out)@, "tty"@),
            lookup(final(out)@, "sysctls"@) == lookup(old(out)@, "sysctls"@),
            lookup(final(out)@, "security_opt"@) == lookup(old(out)@, "security_opt"@),
            lookup(final(out)@, "secrets"@) == lookup(old(out)@, "secrets"@),
            lookup(final(out)@, "runtime"@) == lookup(old(out)@, "runtime"@),
            self.pull_policy is None && self.cgroup_parent is None && self.mem_limit is None && self.mem_reservation is None && self.mem_swappiness is None ==> final(out)@ == old(out)@,
    {
        put_opt(out, "pull_policy".to_owned(), opt_yaml(&self.pull_policy));
        put_opt(out, "cgroup_parent".to_owned(), opt_yaml(&self.cgroup_parent));
        put_opt(out, "mem_limit".to_owned(), opt_yaml(&self.mem_limit));
        put_opt(out, "mem_reservation".to_owned(), opt_yaml(&self.mem_reservation));
        put_opt(out, "mem_swappiness".to_owned(), opt_yaml(&self.mem_swappiness));
        proof {
            lemma_service_keys();
            assert(distinct_keys(out@));
            assert(keys_allowed::<Service>(out@, KeyPolicy::Extensions));
            assert(ext_entries(out@).len() == 0);
            assert(opt_written(self.pull_policy) ==> opt_matches(self.pull_policy, lookup(out@, "pull_policy"@)));
            assert((lookup(out@, "pull_policy"@) is None) == (self.pull_policy is None));
            assert(opt_written(self.cgroup_parent) ==> opt_matches(self.cgroup_parent, lookup(out@, "cgroup_parent"@)));
            assert((lookup(out@, "cgroup_parent"@) is None) == (self.cgroup_parent is None));
            assert(opt_written(self.mem_limit) ==> opt_matches(self.mem_limit, lookup(out@, "mem_limit"@)));
            assert((lookup(out@, "mem_limit"@) is None) == (self.mem_limit is None));
            assert(opt_written(self.mem_reservation) ==> opt_matches(self.mem_reservation, lookup(out@, "mem_reservation"@)));
            assert((lookup(out@, "mem_reservation"@) is None) == (self.mem_reservation is None));
            assert(opt_written(self.mem_swappiness) ==> opt_matches(self.mem_swappiness, lookup(out@, "mem_swappiness"@)));
            assert((lookup(out@, "mem_swappiness"@) is None) == (self.mem_swappiness is None));
        }
    }

    /// Writes the fields `runtime` to `runtime`.
    fn put_part11(&self, out: &mut Vec<YamlEntry>)
        requires
            distinct_keys(old(out)@),
            keys_allowed::<Service>(old(out)@, KeyPolicy::Extensions),
            ext_entries(old(out)@).len() == 0,
            lookup(old(out)@, "runtime"@) is None,
        ensures
            distinct_keys(final(out)@),
            keys_allowed::<Service>(final(out)@, KeyPolicy::Extensions),
            ext_entries(final(out)@).len() == 0,
            opt_written(self.runtime) ==> opt_matches(self.runtime, lookup(final(out)@, "runtime"@)),
            (lookup(final(out)@, "runtime"@) is None) == (self.runtime is None),
            lookup(final(out)@, "hostname"@) == lookup(old(out)@, "hostname"@),
            lookup(final(out)@, "domainname"@) == lookup(old(out)@, "domainname"@),
            lookup(final(out)@, "privileged"@) == lookup(old(out)@, "privileged"@),
            lookup(final(out)@, "read_only"@) == lookup(old(out)@, "read_only"@),
            lookup(final(out)@, "healthcheck"@) == lookup(old(out)@, "healthcheck"@),
            lookup(final(out)@, "deploy"@) == lookup(old(out)@, "deploy"@),
            lookup(final(out)@, "image"@) == lookup(old(out)@, "image"@),
            lookup(final(out)@, "container_name"@) == lookup(old(out)@, "container_name"@),
            lookup(final(out)@, "build"@) == lookup(old(out)@, "build"@),
            lookup(final(out)@, "pid"@) == lookup(old(out)@, "pid"@),
            lookup(final(out)@, "ports"@) == lookup(old(out)@, "ports"@),
            lookup(final(out)@, "environment"@) == lookup(old(out)@, "environment"@),
            lookup(final(out)@, "network_mode"@) == lookup(old(out)@, "network_mode"@),
            lookup(final(out)@, "devices"@) == lookup(old(out)@, "devices"@),
            lookup(final(out)@, "restart"@) == lookup(old(out)@, "restart"@),
            lookup(final(out)@, "labels"@) == lookup(old(out)@, "labels"@),
            lookup(final(out)@, "tmpfs"@) == lookup(old(out)@, "tmpfs"@),
            lookup(final(out)@, "ulimits"@) == lookup(old(out)@, "ulimits"@),
            lookup(final(out)@, "volumes"@) == lookup(old(out)@, "volumes"@),
            lookup(final(out)@, "networks"@) == lookup(old(out)@, "networks"@),
            lookup(final(out)@, "cap_add"@) == lookup(old(out)@, "cap_add"@),
            lookup(final(out)@, "cap_drop"@) == lookup(old(out)@, "cap_drop"@),
            lookup(final(out)@, "depends_on"@) == lookup(old(out)@, "depends_on"@),
            lookup(final(out)@, "command"@) == lookup(old(out)@, "command"@),
            lookup(final(out)@, "entrypoint"@) == lookup(old(out)@, "entrypoint"@),
            lookup(final(out)@, "env_file"@) == lookup(old(out)@, "env_file"@),
            lookup(final(out)@, "stop_grace_period"@) == lookup(old(out)@, "stop_grace_period"@),
            lookup(final(out)@, "profiles"@) == lookup(old(out)@, "profiles"@),
            lookup(final(out)@, "links"@) == lookup(old(out)@, "links"@),
            lookup(final(out)@, "dns"@) == lookup(old(out)@, "dns"@),
            lookup(final(out)@, "ipc"@) == lookup(old(out)@, "ipc"@),
            lookup(final(out)@, "net"@) == lookup(old(out)@, "net"@),
            lookup(final(out)@, "stop_signal"@) == lookup(old(out)@, "stop_signal"@),
            lookup(final(out)@, "user"@) == lookup(old(out)@, "user"@),
            lookup(final(out)@, "userns_mode"@) == lookup(old(out)@, "userns_mode"@),
            lookup(final(out)@, "working_dir"@) == lookup(old(out)@, "working_dir"@),
            lookup(final(out)@, "expose"@) == lookup(old(out)@, "expose"@),
            lookup(final(out)@, "volumes_from"@) == lookup(old(out)@, "volumes_from"@),
            lookup(final(out)@, "extends"@) == lookup(old(out)@, "extends"@),
            lookup(final(out)@, "logging"@) == lookup(old(out)@, "logging"@),
            lookup(final(out)@, "scale"@) == lookup(old(out)@, "scale"@),
            lookup(final(out)@, "init"@) == lookup(old(out)@, "init"@),
            lookup(final(out)@, "stdin_open"@) == lookup(old(out)@, "stdin_open"@),
            lookup(final(out)@, "shm_size"@) == lookup(old(out)@, "shm_size"@),
            lookup(final(out)@, "extra_hosts"@) == lookup(old(out)@, "extra_hosts"@),
            lookup(final(out)@, "group_add"@) == lookup(old(out)@, "group_add"@),
            lookup(final(out)@, "tty"@) == lookup(old(out)@, "tty"@),
            lookup(final(out)@, "sysctls"@) == lookup(old(out)@, "sysctls"@),
            lookup(final(out)@, "security_opt"@) == lookup(old(out)@, "security_opt"@),
            lookup(final(out)@, "secrets"@) == lookup(old(out)@, "secrets"@),
            lookup(final(out)@, "pull_policy"@) == lookup(old(out)@, "pull_policy"@),
            lookup(final(out)@, "cgroup_parent"@) == lookup(old(out)@, "cgroup_parent"@),
            lookup(final(out)@, "mem_limit"@) == lookup(old(out)@, "mem_limit"@),
            lookup(final(out)@, "mem_reservation"@) == lookup(old(out)@, "mem_reservation"@),
            lookup(final(out)@, "mem_swappiness"@) == lookup(old(out)@, "mem_swappiness"@),
            self.runtime is None ==> final(out)@ == old(out)@,
    {
        put_opt(out, "runtime".to_owned(), opt_yaml(&self.runtime));
        proof {
            lemma_service_keys();
            assert(distinct_keys(out@));
            assert(keys_allowed::<Service>(out@, KeyPolicy::Extensions));
            assert(ext_entries(out@).len() == 0);
            assert(opt_written(self.runtime) ==> opt_matches(self.runtime, lookup(out@, "runtime"@)));
            assert((lookup(out@, "runtime"@) is None) == (self.runtime is None));
        }
    }

    /// Writes the fields `hostname` to `networks`.
    fn put_group0(&self, out: &mut Vec<YamlEntry>)
        requires
            distinct_keys(old(out)@),
            keys_allowed::<Service>(old(out)@, KeyPolicy::Extensions),
            ext_entries(old(out)@).len() == 0,
            lookup(old(out)@, "hostname"@) is None,
            lookup(old(out)@, "domainname"@) is None,
            lookup(old(out)@, "privileged"@) is None,
            lookup(old(out)@, "read_only"@) is None,
            lookup(old(out)@, "healthcheck"@) is None,
            lookup(old(out)@, "deploy"@) is None,
            lookup(old(out)@, "image"@) is None,
            lookup(old(out)@, "container_name"@) is None,
            lookup(old(out)@, "build"@) is None,
            lookup(old(out)@, "pid"@) is None,
            lookup(old(out)@, "ports"@) is None,
            lookup(old(out)@, "environment"@) is None,
            lookup(old(out)@, "network_mode"@) is None,
            lookup(old(out)@, "devices"@) is None,
            lookup(old(out)@, "restart"@) is None,
            lookup(old(out)@, "labels"@) is None,
            lookup(old(out)@, "tmpfs"@) is None,
            lookup(old(out)@, "ulimits"@) is None,
            lookup(old(out)@, "volumes"@) is None,
            lookup(old(out)@, "networks"@) is None,
        ensures
            distinct_keys(final(out)@),
            keys_allowed::<Service>(final(out)@, KeyPolicy::Extensions),
            ext_entries(final(out)@).len() == 0,
            opt_written(self.hostname) ==> opt_matches(self.hostname, lookup(final(out)@, "hostname"@)),
            opt_written(self.domainname) ==> opt_matches(self.domainname, lookup(final(out)@, "domainname"@)),
            dflt_written(self.privileged) ==> dflt_matches(self.privileged, lookup(final(out)@, "privileged"@)),
            dflt_written(self.read_only) ==> dflt_matches(self.read_only, lookup(final(out)@, "read_only"@)),
            opt_written(self.healthcheck) ==> opt_matches(self.healthcheck, lookup(final(out)@, "healthcheck"@)),
            opt_written(self.deploy) ==> opt_matches(self.deploy, lookup(final(out)@, "deploy"@)),
            opt_written(self.image) ==> opt_matches(self.image, lookup(final(out)@, "image"@)),
            opt_written(self.container_name) ==> opt_matches(self.container_name, lookup(final(out)@, "container_name"@)),
            opt_written(self.build_) ==> opt_matches(self.build_, lookup(final(out)@, "build"@)),
            opt_written(self.pid) ==> opt_matches(self.pid, lookup(final(out)@, "pid"@)),
            dflt_written(self.ports) ==> dflt_matches(self.ports, lookup(final(out)@, "ports"@)),
            dflt_written(self.environment) ==> dflt_matches(self.environment, lookup(final(out)@, "environment"@)),
            opt_written(self.network_mode) ==> opt_matches(self.network_mode, lookup(final(out)@, "network_mode"@)),
            dflt_written(self.devices) ==> dflt_matches(self.devices, lookup(final(out)@, "devices"@)),
            opt_written(self.restart) ==> opt_matches(self.restart, lookup(final(out)@, "restart"@)),
            dflt_written(self.labels) ==> dflt_matches(self.labels, lookup(final(out)@, "labels"@)),
            opt_written(self.tmpfs) ==> opt_matches(self.tmpfs, lookup(final(out)@, "tmpfs"@)),
            dflt_written(self.ulimits) ==> dflt_matches(self.ulimits, lookup(final(out)@, "ulimits"@)),
            dflt_written(self.volumes) ==> dflt_matches(self.volumes, lookup(final(out)@, "volumes"@)),
            dflt_written(self.networks) ==> dflt_matches(self.networks, lookup(final(out)@, "networks"@)),
            (lookup(final(out)@, "hostname"@) is None) == (self.hostname is None),
            (lookup(final(out)@, "domainname"@) is None) == (self.domainname is None),
            (lookup(final(out)@, "privileged"@) is None) == self.privileged.empty(),
            (lookup(final(out)@, "read_only"@) is None) == self.read_only.empty(),
            (lookup(final(out)@, "healthcheck"@) is None) == (self.healthcheck is None),
            (lookup(final(out)@, "deploy"@) is None) == (self.deploy is None),
            (lookup(final(out)@, "image"@) is None) == (self.image is None),
            (lookup(final(out)@, "container_name"@) is None) == (self.container_name is None),
            (lookup(final(out)@, "build"@) is None) == (self.build_ is None),
            (lookup(final(out)@, "pid"@) is None) == (self.pid is None),
            (lookup(final(out)@, "ports"@) is None) == self.ports.empty(),
            (lookup(final(out)@, "environment"@) is None) == self.environment.empty(),
            (lookup(final(out)@, "network_mode"@) is None) == (self.network_mode is None),
            (lookup(final(out)@, "devices"@) is None) == self.devices.empty(),
            (lookup(final(out)@, "restart"@) is None) == (self.restart is None),
            (lookup(final(out)@, "labels"@) is None) == self.labels.empty(),
            (lookup(final(out)@, "tmpfs"@) is None) == (self.tmpfs is None),
            (lookup(final(out)@, "ulimits"@) is None) == self.ulimits.empty(),
            (lookup(final(out)@, "volumes"@) is None) == self.volumes.empty(),
            (lookup(final(out)@, "networks"@) is None) == self.networks.empty(),
            lookup(final(out)@, "cap_add"@) == lookup(old(out)@, "cap_add"@),
            lookup(final(out)@, "cap_drop"@) == lookup(old(out)@, "cap_drop"@),
            lookup(final(out)@, "depends_on"@) == lookup(old(out)@, "depends_on"@),
            lookup(final(out)@, "command"@) == lookup(old(out)@, "command"@),
            lookup(final(out)@, "entrypoint"@) == lookup(old(out)@, "entrypoint"@),
            lookup(final(out)@, "env_file"@) == lookup(old(out)@, "env_file"@),
            lookup(final(out)@, "stop_grace_period"@) == lookup(old(out)@, "stop_grace_period"@),
            lookup(final(out)@, "profiles"@) == lookup(old(out)@, "profiles"@),
            lookup(final(out)@, "links"@) == lookup(old(out)@, "links"@),
            lookup(final(out)@, "dns"@) == lookup(old(out)@, "dns"@),
            lookup(final(out)@, "ipc"@) == lookup(old(out)@, "ipc"@),
            lookup(final(out)@, "net"@) == lookup(old(out)@, "net"@),
            lookup(final(out)@, "stop_signal"@) == lookup(old(out)@, "stop_signal"@),
            lookup(final(out)@, "user"@) == lookup(old(out)@, "user"@),
            lookup(final(out)@, "userns_mode"@) == lookup(old(out)@, "userns_mode"@),
            lookup(final(out)@, "working_dir"@) == lookup(old(out)@, "working_dir"@),
            lookup(final(out)@, "expose"@) == lookup(old(out)@, "expose"@),
            lookup(final(out)@, "volumes_from"@) == lookup(old(out)@, "volumes_from"@),
            lookup(final(out)@, "extends"@) == lookup(old(out)@, "extends"@),
            lookup(final(out)@, "logging"@) == lookup(old(out)@, "logging"@),
            lookup(final(out)@, "scale"@) == lookup(old(out)@, "scale"@),
            lookup(final(out)@, "init"@) == lookup(old(out)@, "init"@),
            lookup(final(out)@, "stdin_open"@) == lookup(old(out)@, "stdin_open"@),
            lookup(final(out)@, "shm_size"@) == lookup(old(out)@, "shm_size"@),
            lookup(final(out)@, "extra_hosts"@) == lookup(old(out)@, "extra_hosts"@),
            lookup(final(out)@, "group_add"@) == lookup(old(out)@, "group_add"@),
            lookup(final(out)@, "tty"@) == lookup(old(out)@, "tty"@),
            lookup(final(out)@, "sysctls"@) == lookup(old(out)@, "sysctls"@),
            lookup(final(out)@, "security_opt"@) == lookup(old(out)@, "security_opt"@),
            lookup(final(out)@, "secrets"@) == lookup(old(out)@, "secrets"@),
            lookup(final(out)@, "pull_policy"@) == lookup(old(out)@, "pull_policy"@),
            lookup(final(out)@, "cgroup_parent"@) == lookup(old(out)@, "cgroup_parent"@),
            lookup(final(out)@, "mem_limit"@) == lookup(old(out)@, "mem_limit"@),
            lookup(final(out)@, "mem_reservation"@) == lookup(old(out)@, "mem_reservation"@),
            lookup(final(out)@, "mem_swappiness"@) == lookup(old(out)@, "mem_swappiness"@),
            lookup(final(out)@, "runtime"@) == lookup(old(out)@, "runtime"@),
            self.hostname is None && self.domainname is None && self.privileged.is_default() && self.read_only.is_default() && self.healthcheck is None && self.deploy is None && self.image is None && self.container_name is None && self.build_ is None && self.pid is None && self.ports.is_default() && self.environment.is_default() && self.network_mode is None && self.devices.is_default() && self.restart is None && self.labels.is_default() && self.tmpfs is None && self.ulimits.is_default() && self.volumes.is_default() && self.networks.is_default() ==> final(out)@ == old(out)@,
    {
        proof {
            lemma_service_keys();
        }
        proof {
            assert(lookup(out@, "hostname"@) is None);
            assert(lookup(out@, "domainname"@) is None);
            assert(lookup(out@, "privileged"@) is None);
            assert(lookup(out@, "read_only"@) is None);
            assert(lookup(out@, "healthcheck"@) is None);
        }
        self.put_part0(out);
        proof {
            assert(lookup(out@, "deploy"@) is None);
            assert(lookup(out@, "image"@) is None);
            assert(lookup(out@, "container_name"@) is None);
            assert(lookup(out@, "build"@) is None);
            assert(lookup(out@, "pid"@) is None);
        }
        self.put_part1(out);
        proof {
            assert(lookup(out@, "ports"@) is None);
            assert(lookup(out@, "environment"@) is None);
            assert(lookup(out@, "network_mode"@) is None);
            assert(lookup(out@, "devices"@) is None);
            assert(lookup(out@, "restart"@) is None);
        }
        self.put_part2(out);
        proof {
            assert(lookup(out@, "labels"@) is None);
            assert(lookup(out@, "tmpfs"@) is None);
            assert(lookup(out@, "ulimits"@) is None);
            assert(lookup(out@, "volumes"@) is None);
            assert(lookup(out@, "networks"@) is None);
        }
        self.put_part3(out);
        proof {
            lemma_service_keys();
            assert(distinct_keys(out@));
            assert(keys_allowed::<Service>(out@, KeyPolicy::Extensions));
            assert(ext_entries(out@).len() == 0);
            assert(opt_written(self.hostname) ==> opt_matches(self.hostname, lookup(out@, "hostname"@)));
            assert((lookup(out@, "hostname"@) is None) == (self.hostname is None));
            assert(opt_written(self.domainname) ==> opt_matches(self.domainname, lookup(out@, "domainname"@)));
            assert((lookup(out@, "domainname"@) is None) == (self.domainname is None));
            assert(dflt_written(self.privileged) ==> dflt_matches(self.privileged, lookup(out@, "privileged"@)));
            assert((lookup(out@, "privileged"@) is None) == self.privileged.empty());
            assert(dflt_written(self.read_only) ==> dflt_matches(self.read_only, lookup(out@, "read_only"@)));
            assert((lookup(out@, "read_only"@) is None) == self.read_only.empty());
            assert(opt_written(self.healthcheck) ==> opt_matches(self.healthcheck, lookup(out@, "healthcheck"@)));
            assert((lookup(out@, "healthcheck"@) is None) == (self.healthcheck is None));
            assert(opt_written(self.deploy) ==> opt_matches(self.deploy, lookup(out@, "deploy"@)));
            assert((lookup(out@, "deploy"@) is None) == (self.deploy is None));
            assert(opt_written(self.image) ==> opt_matches(self.image, lookup(out@, "image"@)));
            assert((lookup(out@, "image"@) is None) == (self.image is None));
            assert(opt_written(self.container_name) ==> opt_matches(self.container_name, lookup(out@, "container_name"@)));
            assert((lookup(out@, "container_name"@) is None) == (self.container_name is None));
            assert(opt_written(self.build_) ==> opt_matches(self.build_, lookup(out@, "build"@)));
            assert((lookup(out@, "build"@) is None) == (self.build_ is None));
            assert(opt_written(self.pid) ==> opt_matches(self.pid, lookup(out@, "pid"@)));
            assert((lookup(out@, "pid"@) is None) == (self.pid is None));
            assert(dflt_written(self.ports) ==> dflt_matches(self.ports, lookup(out@, "ports"@)));
            assert((lookup(out@, "ports"@) is None) == self.ports.empty());
            assert(dflt_written(self.environment) ==> dflt_matches(self.environment, lookup(out@, "environment"@)));
            assert((lookup(out@, "environment"@) is None) == self.environment.empty());
            assert(opt_written(self.network_mode) ==> opt_matches(self.network_mode, lookup(out@, "network_mode"@)));
            assert((lookup(out@, "network_mode"@) is None) == (self.network_mode is None));
            assert(dflt_written(self.devices) ==> dflt_matches(self.devices, lookup(out@, "devices"@)));
            assert((lookup(out@, "devices"@) is None) == self.devices.empty());
            assert(opt_written(self.restart) ==> opt_matches(self.restart, lookup(out@, "restart"@)));
            assert((lookup(out@, "restart"@) is None) == (self.restart is None));
            assert(dflt_written(self.labels) ==> dflt_matches(self.labels, lookup(out@, "labels"@)));
            assert((lookup(out@, "labels"@) is None) == self.labels.empty());
            assert(opt_written(self.tmpfs) ==> opt_matches(self.tmpfs, lookup(out@, "tmpfs"@)));
            assert((lookup(out@, "tmpfs"@) is None) == (self.tmpfs is None));
            assert(dflt_written(self.ulimits) ==> dflt_matches(self.ulimits, lookup(out@, "ulimits"@)));
            assert((lookup(out@, "ulimits"@) is None) == self.ulimits.empty());
            assert(dflt_written(self.volumes) ==> dflt_matches(self.volumes, lookup(out@, "volumes"@)));
            assert((lookup(out@, "volumes"@) is None) == self.volumes.empty());
            assert(dflt_written(self.networks) ==> dflt_matches(self.networks, lookup(out@, "networks"@)));
            assert((lookup(out@, "networks"@) is None) == self.networks.empty());
        }
    }

    /// Writes the fields `cap_add` to `logging`.
    fn put_group1(&self, out: &mut Vec<YamlEntry>)
        requires
            distinct_keys(old(out)@),
            keys_allowed::<Service>(old(out)@, KeyPolicy::Extensions),
            ext_entries(old(out)@).len() == 0,
            lookup(old(out)@, "cap_add"@) is None,
            lookup(old(out)@, "cap_drop"@) is None,
            lookup(old(out)@, "depends_on"@) is None,
            lookup(old(out)@, "command"@) is None,
            lookup(old(out)@, "entrypoint"@) is None,
            lookup(old(out)@, "env_file"@) is None,
            lookup(old(out)@, "stop_grace_period"@) is None,
            lookup(old(out)@, "profiles"@) is None,
            lookup(old(out)@, "links"@) is None,
            lookup(old(out)@, "dns"@) is None,
            lookup(old(out)@, "ipc"@) is None,
            lookup(old(out)@, "net"@) is None,
            lookup(old(out)@, "stop_signal"@) is None,
            lookup(old(out)@, "user"@) is None,
            lookup(old(out)@, "userns_mode"@) is None,
            lookup(old(out)@, "working_dir"@) is None,
            lookup(old(out)@, "expose"@) is None,
            lookup(old(out)@, "volumes_from"@) is None,
            lookup(old(out)@, "extends"@) is None,
            lookup(old(out)@, "logging"@) is None,
        ensures
            distinct_keys(final(out)@),
            keys_allowed::<Service>(final(out)@, KeyPolicy::Extensions),
            ext_entries(final(out)@).len() == 0,
            dflt_written(self.cap_add) ==> dflt_matches(self.cap_add, lookup(final(out)@, "cap_add"@)),
            dflt_written(self.cap_drop) ==> dflt_matches(self.cap_drop, lookup(final(out)@, "cap_drop"@)),
            dflt_written(self.depends_on) ==> dflt_matches(self.depends_on, lookup(final(out)@, "depends_on"@)),
            opt_written(self.command) ==> opt_matches(self.command, lookup(final(out)@, "command"@)),
            opt_written(self.entrypoint) ==> opt_matches(self.entrypoint, lookup(final(out)@, "entrypoint"@)),
            opt_written(self.env_file) ==> opt_matches(self.env_file, lookup(final(out)@, "env_file"@)),
            opt_written(self.stop_grace_period) ==> opt_matches(self.stop_grace_period, lookup(final(out)@, "stop_grace_period"@)),
            dflt_written(self.profiles) ==> dflt_matches(self.profiles, lookup(final(out)@, "profiles"@)),
            dflt_written(self.links) ==> dflt_matches(self.links, lookup(final(out)@, "links"@)),
            dflt_written(self.dns) ==> dflt_matches(self.dns, lookup(final(out)@, "dns"@)),
            opt_written(self.ipc) ==> opt_matches(self.ipc, lookup(final(out)@, "ipc"@)),
            opt_written(self.net) ==> opt_matches(self.net, lookup(final(out)@, "net"@)),
            opt_written(self.stop_signal) ==> opt_matches(self.stop_signal, lookup(final(out)@, "stop_signal"@)),
            opt_written(self.user) ==> opt_matches(self.user, lookup(final(out)@, "user"@)),
            opt_written(self.userns_mode) ==> opt_matches(self.userns_mode, lookup(final(out)@, "userns_mode"@)),
            opt_written(self.working_dir) ==> opt_matches(self.working_dir, lookup(final(out)@, "working_dir"@)),
            dflt_written(self.expose) ==> dflt_matches(self.expose, lookup(final(out)@, "expose"@)),
            dflt_written(self.volumes_from) ==> dflt_matches(self.volumes_from, lookup(final(out)@, "volumes_from"@)),
            self.extends.canonical() ==> extends_matches(self.extends, lookup(final(out)@, "extends"@)),
            opt_written(self.logging) ==> opt_matches(self.logging, lookup(final(out)@, "logging"@)),
            (lookup(final(out)@, "cap_add"@) is None) == self.cap_add.empty(),
            (lookup(final(out)@, "cap_drop"@) is None) == self.cap_drop.empty(),
            (lookup(final(out)@, "depends_on"@) is None) == self.depends_on.empty(),
            (lookup(final(out)@, "command"@) is None) == (self.command is None),
            (lookup(final(out)@, "entrypoint"@) is None) == (self.entrypoint is None),
            (lookup(final(out)@, "env_file"@) is None) == (self.env_file is None),
            (lookup(final(out)@, "stop_grace_period"@) is None) == (self.stop_grace_period is None),
            (lookup(final(out)@, "profiles"@) is None) == self.profiles.empty(),
            (lookup(final(out)@, "links"@) is None) == self.links.empty(),
            (lookup(final(out)@, "dns"@) is None) == self.dns.empty(),
            (lookup(final(out)@, "ipc"@) is None) == (self.ipc is None),
            (lookup(final(out)@, "net"@) is None) == (self.net is None),
            (lookup(final(out)@, "stop_signal"@) is None) == (self.stop_signal is None),
            (lookup(final(out)@, "user"@) is None) == (self.user is None),
            (lookup(final(out)@, "userns_mode"@) is None) == (self.userns_mode is None),
            (lookup(final(out)@, "working_dir"@) is None) == (self.working_dir is None),
            (lookup(final(out)@, "expose"@) is None) == self.expose.empty(),
            (lookup(final(out)@, "volumes_from"@) is None) == self.volumes_from.empty(),
            (lookup(final(out)@, "extends"@) is None) == self.extends.empty(),
            (lookup(final(out)@, "logging"@) is None) == (self.logging is None),
            lookup(final(out)@, "hostname"@) == lookup(old(out)@, "hostname"@),
            lookup(final(out)@, "domainname"@) == lookup(old(out)@, "domainname"@),
            lookup(final(out)@, "privileged"@) == lookup(old(out)@, "privileged"@),
            lookup(final(out)@, "read_only"@) == lookup(old(out)@, "read_only"@),
            lookup(final(out)@, "healthcheck"@) == lookup(old(out)@, "healthcheck"@),
            lookup(final(out)@, "deploy"@) == lookup(old(out)@, "deploy"@),
            lookup(final(out)@, "image"@) == lookup(old(out)@, "image"@),
            lookup(final(out)@, "container_name"@) == lookup(old(out)@, "container_name"@),
            lookup(final(out)@, "build"@) == lookup(old(out)@, "build"@),
            lookup(final(out)@, "pid"@) == lookup(old(out)@, "pid"@),
            lookup(final(out)@, "ports"@) == lookup(old(out)@, "ports"@),
            lookup(final(out)@, "environment"@) == lookup(old(out)@, "environment"@),
            lookup(final(out)@, "network_mode"@) == lookup(old(out)@, "network_mode"@),
            lookup(final(out)@, "devices"@) == lookup(old(out)@, "devices"@),
            lookup(final(out)@, "restart"@) == lookup(old(out)@, "restart"@),
            lookup(final(out)@, "labels"@) == lookup(old(out)@, "labels"@),
            lookup(final(out)@, "tmpfs"@) == lookup(old(out)@, "tmpfs"@),
            lookup(final(out)@, "ulimits"@) == lookup(old(out)@, "ulimits"@),
            lookup(final(out)@, "volumes"@) == lookup(old(out)@, "volumes"@),
            lookup(final(out)@, "networks"@) == lookup(old(out)@, "networks"@),
            lookup(final(out)@, "scale"@) == lookup(old(out)@, "scale"@),
            lookup(final(out)@, "init"@) == lookup(old(out)@, "init"@),
            lookup(final(out)@, "stdin_open"@) == lookup(old(out)@, "stdin_open"@),
            lookup(final(out)@, "shm_size"@) == lookup(old(out)@, "shm_size"@),
            lookup(final(out)@, "extra_hosts"@) == lookup(old(out)@, "extra_hosts"@),
            lookup(final(out)@, "group_add"@) == lookup(old(out)@, "group_add"@),
            lookup(final(out)@, "tty"@) == lookup(old(out)@, "tty"@),
            lookup(final(out)@, "sysctls"@) == lookup(old(out)@, "sysctls"@),
            lookup(final(out)@, "security_opt"@) == lookup(old(out)@, "security_opt"@),
            lookup(final(out)@, "secrets"@) == lookup(old(out)@, "secrets"@),
            lookup(final(out)@, "pull_policy"@) == lookup(old(out)@, "pull_policy"@),
            lookup(final(out)@, "cgroup_parent"@) == lookup(old(out)@, "cgroup_parent"@),
            lookup(final(out)@, "mem_limit"@) == lookup(old(out)@, "mem_limit"@),
            lookup(final(out)@, "mem_reservation"@) == lookup(old(out)@, "mem_reservation"@),
            lookup(final(out)@, "mem_swappiness"@) == lookup(old(out)@, "mem_swappiness"@),
            lookup(final(out)@, "runtime"@) == lookup(old(out)@, "runtime"@),
            self.cap_add.is_default() && self.cap_drop.is_default() && self.depends_on.is_default() && self.command is None && self.entrypoint is None && self.env_file is None && self.stop_grace_period is None && self.profiles.is_default() && self.links.is_default() && self.dns.is_default() && self.ipc is None && self.net is None && self.stop_signal is None && self.user is None && self.userns_mode is None && self.working_dir is None && self.expose.is_default() && self.volumes_from.is_default() && self.extends.is_default() && self.logging is None ==> final(out)@ == old(out)@,
    {
        proof {
            lemma_service_keys();
        }
        proof {
            assert(lookup(out@, "cap_add"@) is None);
            assert(lookup(out@, "cap_drop"@) is None);
            assert(lookup(out@, "depends_on"@) is None);
            assert(lookup(out@, "command"@) is None);
            assert(lookup(out@, "entrypoint"@) is None);
        }
        self.put_part4(out);
        proof {
            assert(lookup(out@, "env_file"@) is None);
            assert(lookup(out@, "stop_grace_period"@) is None);
            assert(lookup(out@, "profiles"@) is None);
            assert(lookup(out@, "links"@) is None);
            assert(lookup(out@, "dns"@) is None);
        }
        self.put_part5(out);
        proof {
            assert(lookup(out@, "ipc"@) is None);
            assert(lookup(out@, "net"@) is None);
            assert(lookup(out@, "stop_signal"@) is None);
            assert(lookup(out@, "user"@) is None);
            assert(lookup(out@, "userns_mode"@) is None);
        }
        self.put_part6(out);
        proof {
            assert(lookup(out@, "working_dir"@) is None);
            assert(lookup(out@, "expose"@) is None);
            assert(lookup(out@, "volumes_from"@) is None);
            assert(lookup(out@, "extends"@) is None);
            assert(lookup(out@, "logging"@) is None);
        }
        self.put_part7(out);
        proof {
            lemma_service_keys();
            assert(distinct_keys(out@));
            assert(keys_allowed::<Service>(out@, KeyPolicy::Extensions));
            assert(ext_entries(out@).len() == 0);
            assert(dflt_written(self.cap_add) ==> dflt_matches(self.cap_add, lookup(out@, "cap_add"@)));
            assert((lookup(out@, "cap_add"@) is None) == self.cap_add.empty());
            assert(dflt_written(self.cap_drop) ==> dflt_matches(self.cap_drop, lookup(out@, "cap_drop"@)));
            assert((lookup(out@, "cap_drop"@) is None) == self.cap_drop.empty());
            assert(dflt_written(self.depends_on) ==> dflt_matches(self.depends_on, lookup(out@, "depends_on"@)));
            assert((lookup(out@, "depends_on"@) is None) == self.depends_on.empty());
            assert(opt_written(self.command) ==> opt_matches(self.command, lookup(out@, "command"@)));
            assert((lookup(out@, "command"@) is None) == (self.command is None));
            assert(opt_written(self.entrypoint) ==> opt_matches(self.entrypoint, lookup(out@, "entrypoint"@)));
            assert((lookup(out@, "entrypoint"@) is None) == (self.entrypoint is None));
            assert(opt_written(self.env_file) ==> opt_matches(self.env_file, lookup(out@, "env_file"@)));
            assert((lookup(out@, "env_file"@) is None) == (self.env_file is None));
            assert(opt_written(self.stop_grace_period) ==> opt_matches(self.stop_grace_period, lookup(out@, "stop_grace_period"@)));
            assert((lookup(out@, "stop_grace_period"@) is None) == (self.stop_grace_period is None));
            assert(dflt_written(self.profiles) ==> dflt_matches(self.profiles, lookup(out@, "profiles"@)));
            assert((lookup(out@, "profiles"@) is None) == self.profiles.empty());
            assert(dflt_written(self.links) ==> dflt_matches(self.links, lookup(out@, "links"@)));
            assert((lookup(out@, "links"@) is None) == self.links.empty());
            assert(dflt_written(self.dns) ==> dflt_matches(self.dns, lookup(out@, "dns"@)));
            assert((lookup(out@, "dns"@) is None) == self.dns.empty());
            assert(opt_written(self.ipc) ==> opt_matches(self.ipc, lookup(out@, "ipc"@)));
            assert((lookup(out@, "ipc"@) is None) == (self.ipc is None));
            assert(opt_written(self.net) ==> opt_matches(self.net, lookup(out@, "net"@)));
            assert((lookup(out@, "net"@) is None) == (self.net is None));
            assert(opt_written(self.stop_signal) ==> opt_matches(self.stop_signal, lookup(out@, "stop_signal"@)));
            assert((lookup(out@, "stop_signal"@) is None) == (self.stop_signal is None));
            assert(opt_written(self.user) ==> opt_matches(self.user, lookup(out@, "user"@)));
            assert((lookup(out@, "user"@) is None) == (self.user is None));
            assert(opt_written(self.userns_mode) ==> opt_matches(self.userns_mode, lookup(out@, "userns_mode"@)));
            assert((lookup(out@, "userns_mode"@) is None) == (self.userns_mode is None));
            assert(opt_written(self.working_dir) ==> opt_matches(self.working_dir, lookup(out@, "working_dir"@)));
            assert((lookup(out@, "working_dir"@) is None) == (self.working_dir is None));
            assert(dflt_written(self.expose) ==> dflt_matches(self.expose, lookup(out@, "expose"@)));
            assert((lookup(out@, "expose"@) is None) == self.expose.empty());
            assert(dflt_written(self.volumes_from) ==> dflt_matches(self.volumes_from, lookup(out@, "volumes_from"@)));
            assert((lookup(out@, "volumes_from"@) is None) == self.volumes_from.empty());
            assert(self.extends.canonical() ==> extends_matches(self.extends, lookup(out@, "extends"@)));
            assert((lookup(out@, "extends"@) is None) == self.extends.empty());
            assert(opt_written(self.logging) ==> opt_matches(self.logging, lookup(out@, "logging"@)));
            assert((lookup(out@, "logging"@) is None) == (self.logging is None));
        }
    }

    /// Writes the fields `scale` to `runtime`.
    fn put_group2(&self, out: &mut Vec<YamlEntry>)
        requires
            distinct_keys(old(out)@),
            keys_allowed::<Service>(old(out)@, KeyPolicy::Extensions),
            ext_entries(old(out)@).len() == 0,
            lookup(old(out)@, "scale"@) is None,
            lookup(old(out)@, "init"@) is None,
            lookup(old(out)@, "stdin_open"@) is None,
            lookup(old(out)@, "shm_size"@) is None,
            lookup(old(out)@, "extra_hosts"@) is None,
            lookup(old(out)@, "group_add"@) is None,
            lookup(old(out)@, "tty"@) is None,
            lookup(old(out)@, "sysctls"@) is None,
            lookup(old(out)@, "security_opt"@) is None,
            lookup(old(out)@, "secrets"@) is None,
            lookup(old(out)@, "pull_policy"@) is None,
            lookup(old(out)@, "cgroup_parent"@) is None,
            lookup(old(out)@, "mem_limit"@) is None,
            lookup(old(out)@, "mem_reservation"@) is None,
            lookup(old(out)@, "mem_swappiness"@) is None,
            lookup(old(out)@, "runtime"@) is None,
        ensures
            distinct_keys(final(out)@),
            keys_allowed::<Service>(final(out)@, KeyPolicy::Extensions),
            ext_entries(final(out)@).len() == 0,
            dflt_written(self.scale) ==> dflt_matches(self.scale, lookup(final(out)@, "scale"@)),
            dflt_written(self.init) ==> dflt_matches(self.init, lookup(final(out)@, "init"@)),
            dflt_written(self.stdin_open) ==> dflt_matches(self.stdin_open, lookup(final(out)@, "stdin_open"@)),
            opt_written(self.shm_size) ==> opt_matches(self.shm_size, lookup(final(out)@, "shm_size"@)),
            dflt_written(self.extra_hosts) ==> dflt_matches(self.extra_hosts, lookup(final(out)@, "extra_hosts"@)),
            dflt_written(self.group_add) ==> dflt_matches(self.group_add, lookup(final(out)@, "group_add"@)),
            dflt_written(self.tty) ==> dflt_matches(self.tty, lookup(final(out)@, "tty"@)),
            dflt_written(self.sysctls) ==> dflt_matches(self.sysctls, lookup(final(out)@, "sysctls"@)),
            dflt_written(self.security_opt) ==> dflt_matches(self.security_opt, lookup(final(out)@, "security_opt"@)),
            opt_written(self.secrets) ==> opt_matches(self.secrets, lookup(final(out)@, "secrets"@)),
            opt_written(self.pull_policy) ==> opt_matches(self.pull_policy, lookup(final(out)@, "pull_policy"@)),
            opt_written(self.cgroup_parent) ==> opt_matches(self.cgroup_parent, lookup(final(out)@, "cgroup_parent"@)),
            opt_written(self.mem_limit) ==> opt_matches(self.mem_limit, lookup(final(out)@, "mem_limit"@)),
            opt_written(self.mem_reservation) ==> opt_matches(self.mem_reservation, lookup(final(out)@, "mem_reservation"@)),
            opt_written(self.mem_swappiness) ==> opt_matches(self.mem_swappiness, lookup(final(out)@, "mem_swappiness"@)),
            opt_written(self.runtime) ==> opt_matches(self.runtime, lookup(final(out)@, "runtime"@)),
            (lookup(final(out)@, "scale"@) is None) == self.scale.empty(),
            (lookup(final(out)@, "init"@) is None) == self.init.empty(),
            (lookup(final(out)@, "stdin_open"@) is None) == self.stdin_open.empty(),
            (lookup(final(out)@, "shm_size"@) is None) == (self.shm_size is None),
            (lookup(final(out)@, "extra_hosts"@) is None) == self.extra_hosts.empty(),
            (lookup(final(out)@, "group_add"@) is None) == self.group_add.empty(),
            (lookup(final(out)@, "tty"@) is None) == self.tty.empty(),
            (lookup(final(out)@, "sysctls"@) is None) == self.sysctls.empty(),
            (lookup(final(out)@, "security_opt"@) is None) == self.security_opt.empty(),
            (lookup(final(out)@, "secrets"@) is None) == (self.secrets is None),
            (lookup(final(out)@, "pull_policy"@) is None) == (self.pull_policy is None),
            (lookup(final(out)@, "cgroup_parent"@) is None) == (self.cgroup_parent is None),
            (lookup(final(out)@, "mem_limit"@) is None) == (self.mem_limit is None),
            (lookup(final(out)@, "mem_reservation"@) is None) == (self.mem_reservation is None),
            (lookup(final(out)@, "mem_swappiness"@) is None) == (self.mem_swappiness is None),
            (lookup(final(out)@, "runtime"@) is None) == (self.runtime is None),
            lookup(final(out)@, "hostname"@) == lookup(old(out)@, "hostname"@),
            lookup(final(out)@, "domainname"@) == lookup(old(out)@, "domainname"@),
            lookup(final(out)@, "privileged"@) == lookup(old(out)@, "privileged"@),
            lookup(final(out)@, "read_only"@) == lookup(old(out)@, "read_only"@),
            lookup(final(out)@, "healthcheck"@) == lookup(old(out)@, "healthcheck"@),
            lookup(final(out)@, "deploy"@) == lookup(old(out)@, "deploy"@),
            lookup(final(out)@, "image"@) == lookup(old(out)@, "image"@),
            lookup(final(out)@, "container_name"@) == lookup(old(out)@, "container_name"@),
            lookup(final(out)@, "build"@) == lookup(old(out)@, "build"@),
            lookup(final(out)@, "pid"@) == lookup(old(out)@, "pid"@),
            lookup(final(out)@, "ports"@) == lookup(old(out)@, "ports"@),
            lookup(final(out)@, "environment"@) == lookup(old(out)@, "environment"@),
            lookup(final(out)@, "network_mode"@) == lookup(old(out)@, "network_mode"@),
            lookup(final(out)@, "devices"@) == lookup(old(out)@, "devices"@),
            lookup(final(out)@, "restart"@) == lookup(old(out)@, "restart"@),
            lookup(final(out)@, "labels"@) == lookup(old(out)@, "labels"@),
            lookup(final(out)@, "tmpfs"@) == lookup(old(out)@, "tmpfs"@),
            lookup(final(out)@, "ulimits"@) == lookup(old(out)@, "ulimits"@),
            lookup(final(out)@, "volumes"@) == lookup(old(out)@, "volumes"@),
            lookup(final(out)@, "networks"@) == lookup(old(out)@, "networks"@),
            lookup(final(out)@, "cap_add"@) == lookup(old(out)@, "cap_add"@),
            lookup(final(out)@, "cap_drop"@) == lookup(old(out)@, "cap_drop"@),
            lookup(final(out)@, "depends_on"@) == lookup(old(out)@, "depends_on"@),
            lookup(final(out)@, "command"@) == lookup(old(out)@, "command"@),
            lookup(final(out)@, "entrypoint"@) == lookup(old(out)@, "entrypoint"@),
            lookup(final(out)@, "env_file"@) == lookup(old(out)@, "env_file"@),
            lookup(final(out)@, "stop_grace_period"@) == lookup(old(out)@, "stop_grace_period"@),
            lookup(final(out)@, "profiles"@) == lookup(old(out)@, "profiles"@),
            lookup(final(out)@, "links"@) == lookup(old(out)@, "links"@),
            lookup(final(out)@, "dns"@) == lookup(old(out)@, "dns"@),
            lookup(final(out)@, "ipc"@) == lookup(old(out)@, "ipc"@),
            lookup(final(out)@, "net"@) == lookup(old(out)@, "net"@),
            lookup(final(out)@, "stop_signal"@) == lookup(old(out)@, "stop_signal"@),
            lookup(final(out)@, "user"@) == lookup(old(out)@, "user"@),
            lookup(final(out)@, "userns_mode"@) == lookup(old(out)@, "userns_mode"@),
            lookup(final(out)@, "working_dir"@) == lookup(old(out)@, "working_dir"@),
            lookup(final(out)@, "expose"@) == lookup(old(out)@, "expose"@),
            lookup(final(out)@, "volumes_from"@) == lookup(old(out)@, "volumes_from"@),
            lookup(final(out)@, "extends"@) == lookup(old(out)@, "extends"@),
            lookup(final(out)@, "logging"@) == lookup(old(out)@, "logging"@),
            self.scale.is_default() && self.init.is_default() && self.stdin_open.is_default() && self.shm_size is None && self.extra_hosts.is_default() && self.group_add.is_default() && self.tty.is_default() && self.sysctls.is_default() && self.security_opt.is_default() && self.secrets is None && self.pull_policy is None && self.cgroup_parent is None && self.mem_limit is None && self.mem_reservation is None && self.mem_swappiness is None && self.runtime is None ==> final(out)@ == old(out)@,
    {
        proof {
            lemma_service_keys();
        }
        proof {
            assert(lookup(out@, "scale"@) is None);
            assert(lookup(out@, "init"@) is None);
            assert(lookup(out@, "stdin_open"@) is None);
            assert(lookup(out@, "shm_size"@) is None);
            assert(lookup(out@, "extra_hosts"@) is None);
        }
        self.put_part8(out);
        proof {
            assert(lookup(out@, "group_add"@) is None);
            assert(lookup(out@, "tty"@) is None);
            assert(lookup(out@, "sysctls"@) is None);
            assert(lookup(out@, "security_opt"@) is None);
            assert(lookup(out@, "secrets"@) is None);
        }
        self.put_part9(out);
        proof {
            assert(lookup(out@, "pull_policy"@) is None);
            assert(lookup(out@, "cgroup_parent"@) is None);
            assert(lookup(out@, "mem_limit"@) is None);
            assert(lookup(out@, "mem_reservation"@) is None);
            assert(lookup(out@, "mem_swappiness"@) is None);
        }
        self.put_part10(out);
        proof {
            assert(lookup(out@, "runtime"@) is None);
        }
        self.put_part11(out);
        proof {
            lemma_service_keys();
            assert(distinct_keys(out@));
            assert(keys_allowed::<Service>(out@, KeyPolicy::Extensions));
            assert(ext_entries(out@).len() == 0);
            assert(dflt_written(self.scale) ==> dflt_matches(self.scale, lookup(out@, "scale"@)));
            assert((lookup(out@, "scale"@) is None) == self.scale.empty());
            assert(dflt_written(self.init) ==> dflt_matches(self.init, lookup(out@, "init"@)));
            assert((lookup(out@, "init"@) is None) == self.init.empty());
            assert(dflt_written(self.stdin_open) ==> dflt_matches(self.stdin_open, lookup(out@, "stdin_open"@)));
            assert((lookup(out@, "stdin_open"@) is None) == self.stdin_open.empty());
            assert(opt_written(self.shm_size) ==> opt_matches(self.shm_size, lookup(out@, "shm_size"@)));
            assert((lookup(out@, "shm_size"@) is None) == (self.shm_size is None));
            assert(dflt_written(self.extra_hosts) ==> dflt_matches(self.extra_hosts, lookup(out@, "extra_hosts"@)));
            assert((lookup(out@, "extra_hosts"@) is None) == self.extra_hosts.empty());
            assert(dflt_written(self.group_add) ==> dflt_matches(self.group_add, lookup(out@, "group_add"@)));
            assert((lookup(out@, "group_add"@) is None) == self.group_add.empty());
            assert(dflt_written(self.tty) ==> dflt_matches(self.tty, lookup(out@, "tty"@)));
            assert((lookup(out@, "tty"@) is None) == self.tty.empty());
            assert(dflt_written(self.sysctls) ==> dflt_matches(self.sysctls, lookup(out@, "sysctls"@)));
            assert((lookup(out@, "sysctls"@) is None) == self.sysctls.empty());
            assert(dflt_written(self.security_opt) ==> dflt_matches(self.security_opt, lookup(out@, "security_opt"@)));
            assert((lookup(out@, "security_opt"@) is None) == self.security_opt.empty());
            assert(opt_written(self.secrets) ==> opt_matches(self.secrets, lookup(out@, "secrets"@)));
            assert((lookup(out@, "secrets"@) is None) == (self.secrets is None));
            assert(opt_written(self.pull_policy) ==> opt_matches(self.pull_policy, lookup(out@, "pull_policy"@)));
            assert((lookup(out@, "pull_policy"@) is None) == (self.pull_policy is None));
            assert(opt_written(self.cgroup_parent) ==> opt_matches(self.cgroup_parent, lookup(out@, "cgroup_parent"@)));
            assert((lookup(out@, "cgroup_parent"@) is None) == (self.cgroup_parent is None));
            assert(opt_written(self.mem_limit) ==> opt_matches(self.mem_limit, lookup(out@, "mem_limit"@)));
            assert((lookup(out@, "mem_limit"@) is None) == (self.mem_limit is None));
            assert(opt_written(self.mem_reservation) ==> opt_matches(self.mem_reservation, lookup(out@, "mem_reservation"@)));
            assert((lookup(out@, "mem_reservation"@) is None) == (self.mem_reservation is None));
            assert(opt_written(self.mem_swappiness) ==> opt_matches(self.mem_swappiness, lookup(out@, "mem_swappiness"@)));
            assert((lookup(out@, "mem_swappiness"@) is None) == (self.mem_swappiness is None));
            assert(opt_written(self.runtime) ==> opt_matches(self.runtime, lookup(out@, "runtime"@)));
            assert((lookup(out@, "runtime"@) is None) == (self.runtime is None));
        }
    }

    /// Writes the fields `hostname` to `runtime`.
    fn put_fields(&self, out: &mut Vec<YamlEntry>)
        requires
            distinct_keys(old(out)@),
            keys_allowed::<Service>(old(out)@, KeyPolicy::Extensions),
            ext_entries(old(out)@).len() == 0,
            lookup(old(out)@, "hostname"@) is None,
            lookup(old(out)@, "domainname"@) is None,
            lookup(old(out)@, "privileged"@) is None,
            lookup(old(out)@, "read_only"@) is None,
            lookup(old(out)@, "healthcheck"@) is None,
            lookup(old(out)@, "deploy"@) is None,
            lookup(old(out)@, "image"@) is None,
            lookup(old(out)@, "container_name"@) is None,
            lookup(old(out)@, "build"@) is None,
            lookup(old(out)@, "pid"@) is None,
            lookup(old(out)@, "ports"@) is None,
            lookup(old(out)@, "environment"@) is None,
            lookup(old(out)@, "network_mode"@) is None,
            lookup(old(out)@, "devices"@) is None,
            lookup(old(out)@, "restart"@) is None,
            lookup(old(out)@, "labels"@) is None,
            lookup(old(out)@, "tmpfs"@) is None,
            lookup(old(out)@, "ulimits"@) is None,
            lookup(old(out)@, "volumes"@) is None,
            lookup(old(out)@, "networks"@) is None,
            lookup(old(out)@, "cap_add"@) is None,
            lookup(old(out)@, "cap_drop"@) is None,
            lookup(old(out)@, "depends_on"@) is None,
            lookup(old(out)@, "command"@) is None,
            lookup(old(out)@, "entrypoint"@) is None,
            lookup(old(out)@, "env_file"@) is None,
            lookup(old(out)@, "stop_grace_period"@) is None,
            lookup(old(out)@, "profiles"@) is None,
            lookup(old(out)@, "links"@) is None,
            lookup(old(out)@, "dns"@) is None,
            lookup(old(out)@, "ipc"@) is None,
            lookup(old(out)@, "net"@) is None,
            lookup(old(out)@, "stop_signal"@) is None,
            lookup(old(out)@, "user"@) is None,
            lookup(old(out)@, "userns_mode"@) is None,
            lookup(old(out)@, "working_dir"@) is None,
            lookup(old(out)@, "expose"@) is None,
            lookup(old(out)@, "volumes_from"@) is None,
            lookup(old(out)@, "extends"@) is None,
            lookup(old(out)@, "logging"@) is None,
            lookup(old(out)@, "scale"@) is None,
            lookup(old(out)@, "init"@) is None,
            lookup(old(out)@, "stdin_open"@) is None,
            lookup(old(out)@, "shm_size"@) is None,
            lookup(old(out)@, "extra_hosts"@) is None,
            lookup(old(out)@, "group_add"@) is None,
            lookup(old(out)@, "tty"@) is None,
            lookup(old(out)@, "sysctls"@) is None,
            lookup(old(out)@, "security_opt"@) is None,
            lookup(old(out)@, "secrets"@) is None,
            lookup(old(out)@, "pull_policy"@) is None,
            lookup(old(out)@, "cgroup_parent"@) is None,
            lookup(old(out)@, "mem_limit"@) is None,
            lookup(old(out)@, "mem_reservation"@) is None,
            lookup(old(out)@, "mem_swappiness"@) is None,
            lookup(old(out)@, "runtime"@) is None,
        ensures
            distinct_keys(final(out)@),
            keys_allowed::<Service>(final(out)@, KeyPolicy::Extensions),
            ext_entries(final(out)@).len() == 0,
            opt_written(self.hostname) ==> opt_matches(self.hostname, lookup(final(out)@, "hostname"@)),
            opt_written(self.domainname) ==> opt_matches(self.domainname, lookup(final(out)@, "domainname"@)),
            dflt_written(self.privileged) ==> dflt_matches(self.privileged, lookup(final(out)@, "privileged"@)),
            dflt_written(self.read_only) ==> dflt_matches(self.read_only, lookup(final(out)@, "read_only"@)),
            opt_written(self.healthcheck) ==> opt_matches(self.healthcheck, lookup(final(out)@, "healthcheck"@)),
            opt_written(self.deploy) ==> opt_matches(self.deploy, lookup(final(out)@, "deploy"@)),
            opt_written(self.image) ==> opt_matches(self.image, lookup(final(out)@, "image"@)),
            opt_written(self.container_name) ==> opt_matches(self.container_name, lookup(final(out)@, "container_name"@)),
            opt_written(self.build_) ==> opt_matches(self.build_, lookup(final(out)@, "build"@)),
            opt_written(self.pid) ==> opt_matches(self.pid, lookup(final(out)@, "pid"@)),
            dflt_written(self.ports) ==> dflt_matches(self.ports, lookup(final(out)@, "ports"@)),
            dflt_written(self.environment) ==> dflt_matches(self.environment, lookup(final(out)@, "environment"@)),
            opt_written(self.network_mode) ==> opt_matches(self.network_mode, lookup(final(out)@, "network_mode"@)),
            dflt_written(self.devices) ==> dflt_matches(self.devices, lookup(final(out)@, "devices"@)),
            opt_written(self.restart) ==> opt_matches(self.restart, lookup(final(out)@, "restart"@)),
            dflt_written(self.labels) ==> dflt_matches(self.labels, lookup(final(out)@, "labels"@)),
            opt_written(self.tmpfs) ==> opt_matches(self.tmpfs, lookup(final(out)@, "tmpfs"@)),
            dflt_written(self.ulimits) ==> dflt_matches(self.ulimits, lookup(final(out)@, "ulimits"@)),
            dflt_written(self.volumes) ==> dflt_matches(self.volumes, lookup(final(out)@, "volumes"@)),
            dflt_written(self.networks) ==> dflt_matches(self.networks, lookup(final(out)@, "networks"@)),
            dflt_written(self.cap_add) ==> dflt_matches(self.cap_add, lookup(final(out)@, "cap_add"@)),
            dflt_written(self.cap_drop) ==> dflt_matches(self.cap_drop, lookup(final(out)@, "cap_drop"@)),
            dflt_written(self.depends_on) ==> dflt_matches(self.depends_on, lookup(final(out)@, "depends_on"@)),
            opt_written(self.command) ==> opt_matches(self.command, lookup(final(out)@, "command"@)),
            opt_written(self.entrypoint) ==> opt_matches(self.entrypoint, lookup(final(out)@, "entrypoint"@)),
            opt_written(self.env_file) ==> opt_matches(self.env_file, lookup(final(out)@, "env_file"@)),
            opt_written(self.stop_grace_period) ==> opt_matches(self.stop_grace_period, lookup(final(out)@, "stop_grace_period"@)),
            dflt_written(self.profiles) ==> dflt_matches(self.profiles, lookup(final(out)@, "profiles"@)),
            dflt_written(self.links) ==> dflt_matches(self.links, lookup(final(out)@, "links"@)),
            dflt_written(self.dns) ==> dflt_matches(self.dns, lookup(final(out)@, "dns"@)),
            opt_written(self.ipc) ==> opt_matches(self.ipc, lookup(final(out)@, "ipc"@)),
            opt_written(self.net) ==> opt_matches(self.net, lookup(final(out)@, "net"@)),
            opt_written(self.stop_signal) ==> opt_matches(self.stop_signal, lookup(final(out)@, "stop_signal"@)),
            opt_written(self.user) ==> opt_matches(self.user, lookup(final(out)@, "user"@)),
            opt_written(self.userns_mode) ==> opt_matches(self.userns_mode, lookup(final(out)@, "userns_mode"@)),
            opt_written(self.working_dir) ==> opt_matches(self.working_dir, lookup(final(out)@, "working_dir"@)),
            dflt_written(self.expose) ==> dflt_matches(self.expose, lookup(final(out)@, "expose"@)),
            dflt_written(self.volumes_from) ==> dflt_matches(self.volumes_from, lookup(final(out)@, "volumes_from"@)),
            self.extends.canonical() ==> extends_matches(self.extends, lookup(final(out)@, "extends"@)),
            opt_written(self.logging) ==> opt_matches(self.logging, lookup(final(out)@, "logging"@)),
            dflt_written(self.scale) ==> dflt_matches(self.scale, lookup(final(out)@, "scale"@)),
            dflt_written(self.init) ==> dflt_matches(self.init, lookup(final(out)@, "init"@)),
            dflt_written(self.stdin_open) ==> dflt_matches(self.stdin_open, lookup(final(out)@, "stdin_open"@)),
            opt_written(self.shm_size) ==> opt_matches(self.shm_size, lookup(final(out)@, "shm_size"@)),
            dflt_written(self.extra_hosts) ==> dflt_matches(self.extra_hosts, lookup(final(out)@, "extra_hosts"@)),
            dflt_written(self.group_add) ==> dflt_matches(self.group_add, lookup(final(out)@, "group_add"@)),
            dflt_written(self.tty) ==> dflt_matches(self.tty, lookup(final(out)@, "tty"@)),
            dflt_written(self.sysctls) ==> dflt_matches(self.sysctls, lookup(final(out)@, "sysctls"@)),
            dflt_written(self.security_opt) ==> dflt_matches(self.security_opt, lookup(final(out)@, "security_opt"@)),
            opt_written(self.secrets) ==> opt_matches(self.secrets, lookup(final(out)@, "secrets"@)),
            opt_written(self.pull_policy) ==> opt_matches(self.pull_policy, lookup(final(out)@, "pull_policy"@)),
            opt_written(self.cgroup_parent) ==> opt_matches(self.cgroup_parent, lookup(final(out)@, "cgroup_parent"@)),
            opt_written(self.mem_limit) ==> opt_matches(self.mem_limit, lookup(final(out)@, "mem_limit"@)),
            opt_written(self.mem_reservation) ==> opt_matches(self.mem_reservation, lookup(final(out)@, "mem_reservation"@)),
            opt_written(self.mem_swappiness) ==> opt_matches(self.mem_swappiness, lookup(final(out)@, "mem_swappiness"@)),
            opt_written(self.runtime) ==> opt_matches(self.runtime, lookup(final(out)@, "runtime"@)),
            (lookup(final(out)@, "hostname"@) is None) == (self.hostname is None),
            (lookup(final(out)@, "domainname"@) is None) == (self.domainname is None),
            (lookup(final(out)@, "privileged"@) is None) == self.privileged.empty(),
            (lookup(final(out)@, "read_only"@) is None) == self.read_only.empty(),
            (lookup(final(out)@, "healthcheck"@) is None) == (self.healthcheck is None),
            (lookup(final(out)@, "deploy"@) is None) == (self.deploy is None),
            (lookup(final(out)@, "image"@) is None) == (self.image is None),
            (lookup(final(out)@, "container_name"@) is None) == (self.container_name is None),
            (lookup(final(out)@, "build"@) is None) == (self.build_ is None),
            (lookup(final(out)@, "pid"@) is None) == (self.pid is None),
            (lookup(final(out)@, "ports"@) is None) == self.ports.empty(),
            (lookup(final(out)@, "environment"@) is None) == self.environment.empty(),
            (lookup(final(out)@, "network_mode"@) is None) == (self.network_mode is None),
            (lookup(final(out)@, "devices"@) is None) == self.devices.empty(),
            (lookup(final(out)@, "restart"@) is None) == (self.restart is None),
            (lookup(final(out)@, "labels"@) is None) == self.labels.empty(),
            (lookup(final(out)@, "tmpfs"@) is None) == (self.tmpfs is None),
            (lookup(final(out)@, "ulimits"@) is None) == self.ulimits.empty(),
            (lookup(final(out)@, "volumes"@) is None) == self.volumes.empty(),
            (lookup(final(out)@, "networks"@) is None) == self.networks.empty(),
            (lookup(final(out)@, "cap_add"@) is None) == self.cap_add.empty(),
            (lookup(final(out)@, "cap_drop"@) is None) == self.cap_drop.empty(),
            (lookup(final(out)@, "depends_on"@) is None) == self.depends_on.empty(),
            (lookup(final(out)@, "command"@) is None) == (self.command is None),
            (lookup(final(out)@, "entrypoint"@) is None) == (self.entrypoint is None),
            (lookup(final(out)@, "env_file"@) is None) == (self.env_file is None),
            (lookup(final(out)@, "stop_grace_period"@) is None) == (self.stop_grace_period is None),
            (lookup(final(out)@, "profiles"@) is None) == self.profiles.empty(),
            (lookup(final(out)@, "links"@) is None) == self.links.empty(),
            (lookup(final(out)@, "dns"@) is None) == self.dns.empty(),
            (lookup(final(out)@, "ipc"@) is None) == (self.ipc is None),
            (lookup(final(out)@, "net"@) is None) == (self.net is None),
            (lookup(final(out)@, "stop_signal"@) is None) == (self.stop_signal is None),
            (lookup(final(out)@, "user"@) is None) == (self.user is None),
            (lookup(final(out)@, "userns_mode"@) is None) == (self.userns_mode is None),
            (lookup(final(out)@, "working_dir"@) is None) == (self.working_dir is None),
            (lookup(final(out)@, "expose"@) is None) == self.expose.empty(),
            (lookup(final(out)@, "volumes_from"@) is None) == self.volumes_from.empty(),
            (lookup(final(out)@, "extends"@) is None) == self.extends.empty(),
            (lookup(final(out)@, "logging"@) is None) == (self.logging is None),
            (lookup(final(out)@, "scale"@) is None) == self.scale.empty(),
            (lookup(final(out)@, "init"@) is None) == self.init.empty(),
            (lookup(final(out)@, "stdin_open"@) is None) == self.stdin_open.empty(),
            (lookup(final(out)@, "shm_size"@) is None) == (self.shm_size is None),
            (lookup(final(out)@, "extra_hosts"@) is None) == self.extra_hosts.empty(),
            (lookup(final(out)@, "group_add"@) is None) == self.group_add.empty(),
            (lookup(final(out)@, "tty"@) is None) == self.tty.empty(),
            (lookup(final(out)@, "sysctls"@) is None) == self.sysctls.empty(),
            (lookup(final(out)@, "security_opt"@) is None) == self.security_opt.empty(),
            (lookup(final(out)@, "secrets"@) is None) == (self.secrets is None),
            (lookup(final(out)@, "pull_policy"@) is None) == (self.pull_policy is None),
            (lookup(final(out)@, "cgroup_parent"@) is None) == (self.cgroup_parent is None),
            (lookup(final(out)@, "mem_limit"@) is None) == (self.mem_limit is None),
            (lookup(final(out)@, "mem_reservation"@) is None) == (self.mem_reservation is None),
            (lookup(final(out)@, "mem_swappiness"@) is None) == (self.mem_swappiness is None),
            (lookup(final(out)@, "runtime"@) is None) == (self.runtime is None),
            self.hostname is None && self.domainname is None && self.privileged.is_default() && self.read_only.is_default() && self.healthcheck is None && self.deploy is None && self.image is None && self.container_name is None && self.build_ is None && self.pid is None && self.ports.is_default() && self.environment.is_default() && self.network_mode is None && self.devices.is_default() && self.restart is None && self.labels.is_default() && self.tmpfs is None && self.ulimits.is_default() && self.volumes.is_default() && self.networks.is_default() && self.cap_add.is_default() && self.cap_drop.is_default() && self.depends_on.is_default() && self.command is None && self.entrypoint is None && self.env_file is None && self.stop_grace_period is None && self.profiles.is_default() && self.links.is_default() && self.dns.is_default() && self.ipc is None && self.net is None && self.stop_signal is None && self.user is None && self.userns_mode is None && self.working_dir is None && self.expose.is_default() && self.volumes_from.is_default() && self.extends.is_default() && self.logging is None && self.scale.is_default() && self.init.is_default() && self.stdin_open.is_default() && self.shm_size is None && self.extra_hosts.is_default() && self.group_add.is_default() && self.tty.is_default() && self.sysctls.is_default() && self.security_opt.is_default() && self.secrets is None && self.pull_policy is None && self.cgroup_parent is None && self.mem_limit is None && self.mem_reservation is None && self.mem_swappiness is None && self.runtime is None ==> final(out)@ == old(out)@,
    {
        proof {
            lemma_service_keys();
        }
        proof {
            assert(lookup(out@, "hostname"@) is None);
            assert(lookup(out@, "domainname"@) is None);
            assert(lookup(out@, "privileged"@) is None);
            assert(lookup(out@, "read_only"@) is None);
            assert(lookup(out@, "healthcheck"@) is None);
            assert(lookup(out@, "deploy"@) is None);
            assert(lookup(out@, "image"@) is None);
            assert(lookup(out@, "container_name"@) is None);
            assert(lookup(out@, "build"@) is None);
            assert(lookup(out@, "pid"@) is None);
            assert(lookup(out@, "ports"@) is None);
            assert(lookup(out@, "environment"@) is None);
            assert(lookup(out@, "network_mode"@) is None);
            assert(lookup(out@, "devices"@) is None);
            assert(lookup(out@, "restart"@) is None);
            assert(lookup(out@, "labels"@) is None);
            assert(lookup(out@, "tmpfs"@) is None);
            assert(lookup(out@, "ulimits"@) is None);
            assert(lookup(out@, "volumes"@) is None);
            assert(lookup(out@, "networks"@) is None);
        }
        self.put_group0(out);
        proof {
            assert(lookup(out@, "cap_add"@) is None);
            assert(lookup(out@, "cap_drop"@) is None);
            assert(lookup(out@, "depends_on"@) is None);
            assert(lookup(out@, "command"@) is None);
            assert(lookup(out@, "entrypoint"@) is None);
            assert(lookup(out@, "env_file"@) is None);
            assert(lookup(out@, "stop_grace_period"@) is None);
            assert(lookup(out@, "profiles"@) is None);
            assert(lookup(out@, "links"@) is None);
            assert(lookup(out@, "dns"@) is None);
            assert(lookup(out@, "ipc"@) is None);
            assert(lookup(out@, "net"@) is None);
            assert(lookup(out@, "stop_signal"@) is None);
            assert(lookup(out@, "user"@) is None);
            assert(lookup(out@, "userns_mode"@) is None);
            assert(lookup(out@, "working_dir"@) is None);
            assert(lookup(out@, "expose"@) is None);
            assert(lookup(out@, "volumes_from"@) is None);
            assert(lookup(out@, "extends"@) is None);
            assert(lookup(out@, "logging"@) is None);
        }
        self.put_group1(out);
        proof {
            assert(lookup(out@, "scale"@) is None);
            assert(lookup(out@, "init"@) is None);
            assert(lookup(out@, "stdin_open"@) is None);
            assert(lookup(out@, "shm_size"@) is None);
            assert(lookup(out@, "extra_hosts"@) is None);
            assert(lookup(out@, "group_add"@) is None);
            assert(lookup(out@, "tty"@) is None);
            assert(lookup(out@, "sysctls"@) is None);
            assert(lookup(out@, "security_opt"@) is None);
            assert(lookup(out@, "secrets"@) is None);
            assert(lookup(out@, "pull_policy"@) is None);
            assert(lookup(out@, "cgroup_parent"@) is None);
            assert(lookup(out@, "mem_limit"@) is None);
            assert(lookup(out@, "mem_reservation"@) is None);
            assert(lookup(out@, "mem_swappiness"@) is None);
            assert(lookup(out@, "runtime"@) is None);
        }
        self.put_group2(out);
        proof {
            lemma_service_keys();
            assert(distinct_keys(out@));
            assert(keys_allowed::<Service>(out@, KeyPolicy::Extensions));
            assert(ext_entries(out@).len() == 0);
            assert(opt_written(self.hostname) ==> opt_matches(self.hostname, lookup(out@, "hostname"@)));
            assert((lookup(out@, "hostname"@) is None) == (self.hostname is None));
            assert(opt_written(self.domainname) ==> opt_matches(self.domainname, lookup(out@, "domainname"@)));
            assert((lookup(out@, "domainname"@) is None) == (self.domainname is None));
            assert(dflt_written(self.privileged) ==> dflt_matches(self.privileged, lookup(out@, "privileged"@)));
            assert((lookup(out@, "privileged"@) is None) == self.privileged.empty());
            assert(dflt_written(self.read_only) ==> dflt_matches(self.read_only, lookup(out@, "read_only"@)));
            assert((lookup(out@, "read_only"@) is None) == self.read_only.empty());
            assert(opt_written(self.healthcheck) ==> opt_matches(self.healthcheck, lookup(out@, "healthcheck"@)));
            assert((lookup(out@, "healthcheck"@) is None) == (self.healthcheck is None));
            assert(opt_written(self.deploy) ==> opt_matches(self.deploy, lookup(out@, "deploy"@)));
            assert((lookup(out@, "deploy"@) is None) == (self.deploy is None));
            assert(opt_written(self.image) ==> opt_matches(self.image, lookup(out@, "image"@)));
            assert((lookup(out@, "image"@) is None) == (self.image is None));
            assert(opt_written(self.container_name) ==> opt_matches(self.container_name, lookup(out@, "container_name"@)));
            assert((lookup(out@, "container_name"@) is None) == (self.container_name is None));
            assert(opt_written(self.build_) ==> opt_matches(self.build_, lookup(out@, "build"@)));
            assert((lookup(out@, "build"@) is None) == (self.build_ is None));
            assert(opt_written(self.pid) ==> opt_matches(self.pid, lookup(out@, "pid"@)));
            assert((lookup(out@, "pid"@) is None) == (self.pid is None));
            assert(dflt_written(self.ports) ==> dflt_matches(self.ports, lookup(out@, "ports"@)));
            assert((lookup(out@, "ports"@) is None) == self.ports.empty());
            assert(dflt_written(self.environment) ==> dflt_matches(self.environment, lookup(out@, "environment"@)));
            assert((lookup(out@, "environment"@) is None) == self.environment.empty());
            assert(opt_written(self.network_mode) ==> opt_matches(self.network_mode, lookup(out@, "network_mode"@)));
            assert((lookup(out@, "network_mode"@) is None) == (self.network_mode is None));
            assert(dflt_written(self.devices) ==> dflt_matches(self.devices, lookup(out@, "devices"@)));
            assert((lookup(out@, "devices"@) is None) == self.devices.empty());
            assert(opt_written(self.restart) ==> opt_matches(self.restart, lookup(out@, "restart"@)));
            assert((lookup(out@, "restart"@) is None) == (self.restart is None));
            assert(dflt_written(self.labels) ==> dflt_matches(self.labels, lookup(out@, "labels"@)));
            assert((lookup(out@, "labels"@) is None) == self.labels.empty());
            assert(opt_written(self.tmpfs) ==> opt_matches(self.tmpfs, lookup(out@, "tmpfs"@)));
            assert((lookup(out@, "tmpfs"@) is None) == (self.tmpfs is None));
            assert(dflt_written(self.ulimits) ==> dflt_matches(self.ulimits, lookup(out@, "ulimits"@)));
            assert((lookup(out@, "ulimits"@) is None) == self.ulimits.empty());
            assert(dflt_written(self.volumes) ==> dflt_matches(self.volumes, lookup(out@, "volumes"@)));
            assert((lookup(out@, "volumes"@) is None) == self.volumes.empty());
            assert(dflt_written(self.networks) ==> dflt_matches(self.networks, lookup(out@, "networks"@)));
            assert((lookup(out@, "networks"@) is None) == self.networks.empty());
            assert(dflt_written(self.cap_add) ==> dflt_matches(self.cap_add, lookup(out@, "cap_add"@)));
            assert((lookup(out@, "cap_add"@) is None) == self.cap_add.empty());
            assert(dflt_written(self.cap_drop) ==> dflt_matches(self.cap_drop, lookup(out@, "cap_drop"@)));
            assert((lookup(out@, "cap_drop"@) is None) == self.cap_drop.empty());
            assert(dflt_written(self.depends_on) ==> dflt_matches(self.depends_on, lookup(out@, "depends_on"@)));
            assert((lookup(out@, "depends_on"@) is None) == self.depends_on.empty());
            assert(opt_written(self.command) ==> opt_matches(self.command, lookup(out@, "command"@)));
            assert((lookup(out@, "command"@) is None) == (self.command is None));
            assert(opt_written(self.entrypoint) ==> opt_matches(self.entrypoint, lookup(out@, "entrypoint"@)));
            assert((lookup(out@, "entrypoint"@) is None) == (self.entrypoint is None));
            assert(opt_written(self.env_file) ==> opt_matches(self.env_file, lookup(out@, "env_file"@)));
            assert((lookup(out@, "env_file"@) is None) == (self.env_file is None));
            assert(opt_written(self.stop_grace_period) ==> opt_matches(self.stop_grace_period, lookup(out@, "stop_grace_period"@)));
            assert((lookup(out@, "stop_grace_period"@) is None) == (self.stop_grace_period is None));
            assert(dflt_written(self.profiles) ==> dflt_matches(self.profiles, lookup(out@, "profiles"@)));
            assert((lookup(out@, "profiles"@) is None) == self.profiles.empty());
            assert(dflt_written(self.links) ==> dflt_matches(self.links, lookup(out@, "links"@)));
            assert((lookup(out@, "links"@) is None) == self.links.empty());
            assert(dflt_written(self.dns) ==> dflt_matches(self.dns, lookup(out@, "dns"@)));
            assert((lookup(out@, "dns"@) is None) == self.dns.empty());
            assert(opt_written(self.ipc) ==> opt_matches(self.ipc, lookup(out@, "ipc"@)));
            assert((lookup(out@, "ipc"@) is None) == (self.ipc is None));
            assert(opt_written(self.net) ==> opt_matches(self.net, lookup(out@, "net"@)));
            assert((lookup(out@, "net"@) is None) == (self.net is None));
            assert(opt_written(self.stop_signal) ==> opt_matches(self.stop_signal, lookup(out@, "stop_signal"@)));
            assert((lookup(out@, "stop_signal"@) is None) == (self.stop_signal is None));
            assert(opt_written(self.user) ==> opt_matches(self.user, lookup(out@, "user"@)));
            assert((lookup(out@, "user"@) is None) == (self.user is None));
            assert(opt_written(self.userns_mode) ==> opt_matches(self.userns_mode, lookup(out@, "userns_mode"@)));
            assert((lookup(out@, "userns_mode"@) is None) == (self.userns_mode is None));
            assert(opt_written(self.working_dir) ==> opt_matches(self.working_dir, lookup(out@, "working_dir"@)));
            assert((lookup(out@, "working_dir"@) is None) == (self.working_dir is None));
            assert(dflt_written(self.expose) ==> dflt_matches(self.expose, lookup(out@, "expose"@)));
            assert((lookup(out@, "expose"@) is None) == self.expose.empty());
            assert(dflt_written(self.volumes_from) ==> dflt_matches(self.volumes_from, lookup(out@, "volumes_from"@)));
            assert((lookup(out@, "volumes_from"@) is None) == self.volumes_from.empty());
            assert(self.extends.canonical() ==> extends_matches(self.extends, lookup(out@, "extends"@)));
            assert((lookup(out@, "extends"@) is None) == self.extends.empty());
            assert(opt_written(self.logging) ==> opt_matches(self.logging, lookup(out@, "logging"@)));
            assert((lookup(out@, "logging"@) is None) == (self.logging is None));
            assert(dflt_written(self.scale) ==> dflt_matches(self.scale, lookup(out@, "scale"@)));
            assert((lookup(out@, "scale"@) is None) == self.scale.empty());
            assert(dflt_written(self.init) ==> dflt_matches(self.init, lookup(out@, "init"@)));
            assert((lookup(out@, "init"@) is None) == self.init.empty());
            assert(dflt_written(self.stdin_open) ==> dflt_matches(self.stdin_open, lookup(out@, "stdin_open"@)));
            assert((lookup(out@, "stdin_open"@) is None) == self.stdin_open.empty());
            assert(opt_written(self.shm_size) ==> opt_matches(self.shm_size, lookup(out@, "shm_size"@)));
            assert((lookup(out@, "shm_size"@) is None) == (self.shm_size is None));
            assert(dflt_written(self.extra_hosts) ==> dflt_matches(self.extra_hosts, lookup(out@, "extra_hosts"@)));
            assert((lookup(out@, "extra_hosts"@) is None) == self.extra_hosts.empty());
            assert(dflt_written(self.group_add) ==> dflt_matches(self.group_add, lookup(out@, "group_add"@)));
            assert((lookup(out@, "group_add"@) is None) == self.group_add.empty());
            assert(dflt_written(self.tty) ==> dflt_matches(self.tty, lookup(out@, "tty"@)));
            assert((lookup(out@, "tty"@) is None) == self.tty.empty());
            assert(dflt_written(self.sysctls) ==> dflt_matches(self.sysctls, lookup(out@, "sysctls"@)));
            assert((lookup(out@, "sysctls"@) is None) == self.sysctls.empty());
            assert(dflt_written(self.security_opt) ==> dflt_matches(self.security_opt, lookup(out@, "security_opt"@)));
            assert((lookup(out@, "security_opt"@) is None) == self.security_opt.empty());
            assert(opt_written(self.secrets) ==> opt_matches(self.secrets, lookup(out@, "secrets"@)));
            assert((lookup(out@, "secrets"@) is None) == (self.secrets is None));
            assert(opt_written(self.pull_policy) ==> opt_matches(self.pull_policy, lookup(out@, "pull_policy"@)));
            assert((lookup(out@, "pull_policy"@) is None) == (self.pull_policy is None));
            assert(opt_written(self.cgroup_parent) ==> opt_matches(self.cgroup_parent, lookup(out@, "cgroup_parent"@)));
            assert((lookup(out@, "cgroup_parent"@) is None) == (self.cgroup_parent is None));
            assert(opt_written(self.mem_limit) ==> opt_matches(self.mem_limit, lookup(out@, "mem_limit"@)));
            assert((lookup(out@, "mem_limit"@) is None) == (self.mem_limit is None));
            assert(opt_written(self.mem_reservation) ==> opt_matches(self.mem_reservation, lookup(out@, "mem_reservation"@)));
            assert((lookup(out@, "mem_reservation"@) is None) == (self.mem_reservation is None));
            assert(opt_written(self.mem_swappiness) ==> opt_matches(self.mem_swappiness, lookup(out@, "mem_swappiness"@)));
            assert((lookup(out@, "mem_swappiness"@) is None) == (self.mem_swappiness is None));
            assert(opt_written(self.runtime) ==> opt_matches(self.runtime, lookup(out@, "runtime"@)));
            assert((lookup(out@, "runtime"@) is None) == (self.runtime is None));
        }
    }
}

/// The field names of the record differ pairwise: by length, or by a character.
proof fn lemma_service_keys()
    ensures
        "hostname"@.len() == 8,
        "hostname"@[0] == 'h',
        "domainname"@.len() == 10,
        "domainname"@[0] == 'd',
        "domainname"@[1] == 'o',
        "privileged"@.len() == 10,
        "privileged"@[0] == 'p',
        "read_only"@.len() == 9,
        "read_only"@[0] == 'r',
        "healthcheck"@.len() == 11,
        "healthcheck"@[0] == 'h',
        "deploy"@.len() == 6,
        "deploy"@[0] == 'd',
        "image"@.len() == 5,
        "image"@[0] == 'i',
        "container_name"@.len() == 14,
        "container_name"@[0] == 'c',
        "build"@.len() == 5,
        "build"@[0] == 'b',
        "pid"@.len() == 3,
        "pid"@[0] == 'p',
        "ports"@.len() == 5,
        "ports"@[0] == 'p',
        "environment"@.len() == 11,
        "environment"@[0] == 'e',
        "environment"@[1] == 'n',
        "network_mode"@.len() == 12,
        "network_mode"@[0] == 'n',
        "devices"@.len() == 7,
        "devices"@[0] == 'd',
        "restart"@.len() == 7,
        "restart"@[0] == 'r',
        "restart"@[1] == 'e',
        "labels"@.len() == 6,
        "labels"@[0] == 'l',
        "tmpfs"@.len() == 5,
        "tmpfs"@[0] == 't',
        "ulimits"@.len() == 7,
        "ulimits"@[0] == 'u',
        "volumes"@.len() == 7,
        "volumes"@[0] == 'v',
        "networks"@.len() == 8,
        "networks"@[0] == 'n',
        "cap_add"@.len() == 7,
        "cap_add"@[0] == 'c',
        "cap_add"@[1] == 'a',
        "cap_drop"@.len() == 8,
        "cap_drop"@[0] == 'c',
        "depends_on"@.len() == 10,
        "depends_on"@[0] == 'd',
        "depends_on"@[1] == 'e',
        "command"@.len() == 7,
        "command"@[0] == 'c',
        "command"@[1] == 'o',
        "entrypoint"@.len() == 10,
        "entrypoint"@[0] == 'e',
        "env_file"@.len() == 8,
        "env_file"@[0] == 'e',
        "stop_grace_period"@.len() == 17,
        "stop_grace_period"@[0] == 's',
        "profiles"@.len() == 8,
        "profiles"@[0] == 'p',
        "links"@.len() == 5,
        "links"@[0] == 'l',
        "dns"@.len() == 3,
        "dns"@[0] == 'd',
        "ipc"@.len() == 3,
        "ipc"@[0] == 'i',
        "net"@.len() == 3,
        "net"@[0] == 'n',
        "stop_signal"@.len() == 11,
        "stop_signal"@[0] == 's',
        "user"@.len() == 4,
        "user"@[0] == 'u',
        "userns_mode"@.len() == 11,
        "userns_mode"@[0] == 'u',
        "working_dir"@.len() == 11,
        "working_dir"@[0] == 'w',
        "expose"@.len() == 6,
        "expose"@[0] == 'e',
        "volumes_from"@.len() == 12,
        "volumes_from"@[0] == 'v',
        "extends"@.len() == 7,
        "extends"@[0] == 'e',
        "logging"@.len() == 7,
        "logging"@[0] == 'l',
        "scale"@.len() == 5,
        "scale"@[0] == 's',
        "init"@.len() == 4,
        "init"@[0] == 'i',
        "stdin_open"@.len() == 10,
        "stdin_open"@[0] == 's',
        "shm_size"@.len() == 8,
        "shm_size"@[0] == 's',
        "extra_hosts"@.len() == 11,
        "extra_hosts"@[0] == 'e',
        "extra_hosts"@[1] == 'x',
        "group_add"@.len() == 9,
        "group_add"@[0] == 'g',
        "tty"@.len() == 3,
        "tty"@[0] == 't',
        "sysctls"@.len() == 7,
        "sysctls"@[0] == 's',
        "sysctls"@[1] == 'y',
        "security_opt"@.len() == 12,
        "security_opt"@[0] == 's',
        "secrets"@.len() == 7,
        "secrets"@[0] == 's',
        "secrets"@[1] == 'e',
        "pull_policy"@.len() == 11,
        "pull_policy"@[0] == 'p',
        "cgroup_parent"@.len() == 13,
        "cgroup_parent"@[0] == 'c',
        "mem_limit"@.len() == 9,
        "mem_limit"@[0] == 'm',
        "mem_reservation"@.len() == 15,
        "mem_reservation"@[0] == 'm',
        "mem_swappiness"@.len() == 14,
        "mem_swappiness"@[0] == 'm',
        "runtime"@.len() == 7,
        "runtime"@[0] == 'r',
        "runtime"@[1] == 'u',
{
    reveal_strlit("hostname");
    assert("hostname"@.len() == 8);
    assert("hostname"@[0] == 'h');
    reveal_strlit("domainname");
    assert("domainname"@.len() == 10);
    assert("domainname"@[0] == 'd');
    assert("domainname"@[1] == 'o');
    reveal_strlit("privileged");
    assert("privileged"@.len() == 10);
    assert("privileged"@[0] == 'p');
    reveal_strlit("read_only");
    assert("read_only"@.len() == 9);
    assert("read_only"@[0] == 'r');
    reveal_strlit("healthcheck");
    assert("healthcheck"@.len() == 11);
    assert("healthcheck"@[0] == 'h');
    reveal_strlit("deploy");
    assert("deploy"@.len() == 6);
    assert("deploy"@[0] == 'd');
    reveal_strlit("image");
    assert("image"@.len() == 5);
    assert("image"@[0] == 'i');
    reveal_strlit("container_name");
    assert("container_name"@.len() == 14);
    assert("container_name"@[0] == 'c');
    reveal_strlit("build");
    assert("build"@.len() == 5);
    assert("build"@[0] == 'b');
    reveal_strlit("pid");
    assert("pid"@.len() == 3);
    assert("pid"@[0] == 'p');
    reveal_strlit("ports");
    assert("ports"@.len() == 5);
    assert("ports"@[0] == 'p');
    reveal_strlit("environment");
    assert("environment"@.len() == 11);
    assert("environment"@[0] == 'e');
    assert("environment"@[1] == 'n');
    reveal_strlit("network_mode");
    assert("network_mode"@.len() == 12);
    assert("network_mode"@[0] == 'n');
    reveal_strlit("devices");
    assert("devices"@.len() == 7);
    assert("devices"@[0] == 'd');
    reveal_strlit("restart");
    assert("restart"@.len() == 7);
    assert("restart"@[0] == 'r');
    assert("restart"@[1] == 'e');
    reveal_strlit("labels");
    assert("labels"@.len() == 6);
    assert("labels"@[0] == 'l');
    reveal_strlit("tmpfs");
    assert("tmpfs"@.len() == 5);
    assert("tmpfs"@[0] == 't');
    reveal_strlit("ulimits");
    assert("ulimits"@.len() == 7);
    assert("ulimits"@[0] == 'u');
    reveal_strlit("volumes");
    assert("volumes"@.len() == 7);
    assert("volumes"@[0] == 'v');
    reveal_strlit("networks");
    assert("networks"@.len() == 8);
    assert("networks"@[0] == 'n');
    reveal_strlit("cap_add");
    assert("cap_add"@.len() == 7);
    assert("cap_add"@[0] == 'c');
    assert("cap_add"@[1] == 'a');
    reveal_strlit("cap_drop");
    assert("cap_drop"@.len() == 8);
    assert("cap_drop"@[0] == 'c');
    reveal_strlit("depends_on");
    assert("depends_on"@.len() == 10);
    assert("depends_on"@[0] == 'd');
    assert("depends_on"@[1] == 'e');
    reveal_strlit("command");
    assert("command"@.len() == 7);
    assert("command"@[0] == 'c');
    assert("command"@[1] == 'o');
    reveal_strlit("entrypoint");
    assert("entrypoint"@.len() == 10);
    assert("entrypoint"@[0] == 'e');
    reveal_strlit("env_file");
    assert("env_file"@.len() == 8);
    assert("env_file"@[0] == 'e');
    reveal_strlit("stop_grace_period");
    assert("stop_grace_period"@.len() == 17);
    assert("stop_grace_period"@[0] == 's');
    reveal_strlit("profiles");
    assert("profiles"@.len() == 8);
    assert("profiles"@[0] == 'p');
    reveal_strlit("links");
    assert("links"@.len() == 5);
    assert("links"@[0] == 'l');
    reveal_strlit("dns");
    assert("dns"@.len() == 3);
    assert("dns"@[0] == 'd');
    reveal_strlit("ipc");
    assert("ipc"@.len() == 3);
    assert("ipc"@[0] == 'i');
    reveal_strlit("net");
    assert("net"@.len() == 3);
    assert("net"@[0] == 'n');
    reveal_strlit("stop_signal");
    assert("stop_signal"@.len() == 11);
    assert("stop_signal"@[0] == 's');
    reveal_strlit("user");
    assert("user"@.len() == 4);
    assert("user"@[0] == 'u');
    reveal_strlit("userns_mode");
    assert("userns_mode"@.len() == 11);
    assert("userns_mode"@[0] == 'u');
    reveal_strlit("working_dir");
    assert("working_dir"@.len() == 11);
    assert("working_dir"@[0] == 'w');
    reveal_strlit("expose");
    assert("expose"@.len() == 6);
    assert("expose"@[0] == 'e');
    reveal_strlit("volumes_from");
    assert("volumes_from"@.len() == 12);
    assert("volumes_from"@[0] == 'v');
    reveal_strlit("extends");
    assert("extends"@.len() == 7);
    assert("extends"@[0] == 'e');
    reveal_strlit("logging");
    assert("logging"@.len() == 7);
    assert("logging"@[0] == 'l');
    reveal_strlit("scale");
    assert("scale"@.len() == 5);
    assert("scale"@[0] == 's');
    reveal_strlit("init");
    assert("init"@.len() == 4);
    assert("init"@[0] == 'i');
    reveal_strlit("stdin_open");
    assert("stdin_open"@.len() == 10);
    assert("stdin_open"@[0] == 's');
    reveal_strlit("shm_size");
    assert("shm_size"@.len() == 8);
    assert("shm_size"@[0] == 's');
    reveal_strlit("extra_hosts");
    assert("extra_hosts"@.len() == 11);
    assert("extra_hosts"@[0] == 'e');
    assert("extra_hosts"@[1] == 'x');
    reveal_strlit("group_add");
    assert("group_add"@.len() == 9);
    assert("group_add"@[0] == 'g');
    reveal_strlit("tty");
    assert("tty"@.len() == 3);
    assert("tty"@[0] == 't');
    reveal_strlit("sysctls");
    assert("sysctls"@.len() == 7);
    assert("sysctls"@[0] == 's');
    assert("sysctls"@[1] == 'y');
    reveal_strlit("security_opt");
    assert("security_opt"@.len() == 12);
    assert("security_opt"@[0] == 's');
    reveal_strlit("secrets");
    assert("secrets"@.len() == 7);
    assert("secrets"@[0] == 's');
    assert("secrets"@[1] == 'e');
    reveal_strlit("pull_policy");
    assert("pull_policy"@.len() == 11);
    assert("pull_policy"@[0] == 'p');
    reveal_strlit("cgroup_parent");
    assert("cgroup_parent"@.len() == 13);
    assert("cgroup_parent"@[0] == 'c');
    reveal_strlit("mem_limit");
    assert("mem_limit"@.len() == 9);
    assert("mem_limit"@[0] == 'm');
    reveal_strlit("mem_reservation");
    assert("mem_reservation"@.len() == 15);
    assert("mem_reservation"@[0] == 'm');
    reveal_strlit("mem_swappiness");
    assert("mem_swappiness"@.len() == 14);
    assert("mem_swappiness"@[0] == 'm');
    reveal_strlit("runtime");
    assert("runtime"@.len() == 7);
    assert("runtime"@[0] == 'r');
    assert("runtime"@[1] == 'u');
}

impl Service {
    /// Every field holds its default.
    pub open spec fn is_default(&self) -> bool {
        &&& self.hostname is None
        &&& self.domainname is None
        &&& self.privileged.is_default()
        &&& self.read_only.is_default()
        &&& self.healthcheck is None
        &&& self.deploy is None
        &&& self.image is None
        &&& self.container_name is None
        &&& self.build_ is None
        &&& self.pid is None
        &&& self.ports.is_default()
        &&& self.environment.is_default()
        &&& self.network_mode is None
        &&& self.devices.is_default()
        &&& self.restart is None
        &&& self.labels.is_default()
        &&& self.tmpfs is None
        &&& self.ulimits.is_default()
        &&& self.volumes.is_default()
        &&& self.networks.is_default()
        &&& self.cap_add.is_default()
        &&& self.cap_drop.is_default()
        &&& self.depends_on.is_default()
        &&& self.command is None
        &&& self.entrypoint is None
        &&& self.env_file is None
        &&& self.stop_grace_period is None
        &&& self.profiles.is_default()
        &&& self.links.is_default()
        &&& self.dns.is_default()
        &&& self.ipc is None
        &&& self.net is None
        &&& self.stop_signal is None
        &&& self.user is None
        &&& self.userns_mode is None
        &&& self.working_dir is None
        &&& self.expose.is_default()
        &&& self.volumes_from.is_default()
        &&& self.extends.is_default()
        &&& self.logging is None
        &&& self.scale.is_default()
        &&& self.init.is_default()
        &&& self.stdin_open.is_default()
        &&& self.shm_size is None
        &&& self.extensions.entries@.len() == 0
        &&& self.extra_hosts.is_default()
        &&& self.group_add.is_default()
        &&& self.tty.is_default()
        &&& self.sysctls.is_default()
        &&& self.security_opt.is_default()
        &&& self.secrets is None
        &&& self.pull_policy is None
        &&& self.cgroup_parent is None
        &&& self.mem_limit is None
        &&& self.mem_reservation is None
        &&& self.mem_swappiness is None
        &&& self.runtime is None
    }
}

impl Default for Service {
    fn default() -> (r: Self)
        ensures
            r.is_default(),
    {
        Service {
            hostname: None,
            domainname: None,
            privileged: <bool as Defaulted>::default_value(),
            read_only: <bool as Defaulted>::default_value(),
            healthcheck: None,
            deploy: None,
            image: None,
            container_name: None,
            build_: None,
            pid: None,
            ports: <Ports as Defaulted>::default_value(),
            environment: <Environment as Defaulted>::default_value(),
            network_mode: None,
            devices: <Vec<String> as Defaulted>::default_value(),
            restart: None,
            labels: <Labels as Defaulted>::default_value(),
            tmpfs: None,
            ulimits: <Ulimits as Defaulted>::default_value(),
            volumes: <Vec<Volumes> as Defaulted>::default_value(),
            networks: <Networks as Defaulted>::default_value(),
            cap_add: <Vec<String> as Defaulted>::default_value(),
            cap_drop: <Vec<String> as Defaulted>::default_value(),
            depends_on: <DependsOnOptions as Defaulted>::default_value(),
            command: None,
            entrypoint: None,
            env_file: None,
            stop_grace_period: None,
            profiles: <Vec<String> as Defaulted>::default_value(),
            links: <Vec<String> as Defaulted>::default_value(),
            dns: <Vec<String> as Defaulted>::default_value(),
            ipc: None,
            net: None,
            stop_signal: None,
            user: None,
            userns_mode: None,
            working_dir: None,
            expose: <Vec<String> as Defaulted>::default_value(),
            volumes_from: <Vec<String> as Defaulted>::default_value(),
            extends: <OrderedMap<String> as Defaulted>::default_value(),
            logging: None,
            scale: <i64 as Defaulted>::default_value(),
            init: <bool as Defaulted>::default_value(),
            stdin_open: <bool as Defaulted>::default_value(),
            shm_size: None,
            extensions: OrderedMap::new(),
            extra_hosts: <Vec<String> as Defaulted>::default_value(),
            group_add: <Vec<Group> as Defaulted>::default_value(),
            tty: <bool as Defaulted>::default_value(),
            sysctls: <SysCtls as Defaulted>::default_value(),
            security_opt: <Vec<String> as Defaulted>::default_value(),
            secrets: None,
            pull_policy: None,
            cgroup_parent: None,
            mem_limit: None,
            mem_reservation: None,
            mem_swappiness: None,
            runtime: None,
        }
    }
}

/// One resource limit: a single value, or a soft and a hard one.
#[derive(Clone, Debug, PartialEq)]
pub enum Ulimit {
    Single(i64),
    SoftHard { soft: i64, hard: i64 },
}

impl Record for Ulimit {
    open spec fn is_field(k: Seq<char>) -> bool {
        k == "soft"@ || k == "hard"@
    }

    fn field(k: &str) -> (r: bool) {
        str_eq(k, "soft") || str_eq(k, "hard")
    }
}

impl Node for Ulimit {
    open spec fn equiv(&self, o: Self) -> bool {
        *self == o
    }

    proof fn lemma_unique(a: Self, b: Self, y: Yaml) {
        assert(a.matches(y) && b.matches(y));
    }

    /// An integer, else a mapping with `soft` and `hard`.
    open spec fn matches(&self, y: Yaml) -> bool {
        match self {
            Ulimit::Single(v) => v.matches(y),
            Ulimit::SoftHard { soft, hard } => {
                &&& forall|v: i64| !#[trigger] v.matches(y)
                &&& y is Mapping
                &&& keys_ok::<Ulimit>(y->Mapping_0@, KeyPolicy::Lenient)
                &&& req_matches(*soft, lookup(y->Mapping_0@, "soft"@))
                &&& req_matches(*hard, lookup(y->Mapping_0@, "hard"@))
            },
        }
    }

    open spec fn canonical(&self) -> bool {
        true
    }

    fn from_yaml(y: &Yaml) -> (r: Result<Self, ParseError>) {
        if let Ok(v) = <i64 as Node>::from_yaml(y) {
            return Ok(Ulimit::Single(v));
        }
        match y {
            Yaml::Mapping(es) => {
                check_keys::<Ulimit>(es, KeyPolicy::Lenient)?;
                let soft = req_field::<i64>(es, "soft")?;
                let hard = req_field::<i64>(es, "hard")?;
                Ok(Ulimit::SoftHard { soft, hard })
            },
            _ => Err(mismatch("an integer or a mapping with soft and hard")),
        }
    }

    fn to_yaml(&self) -> (r: Yaml) {
        match self {
            Ulimit::Single(v) => v.to_yaml(),
            Ulimit::SoftHard { soft, hard } => {
                let mut out: Vec<YamlEntry> = Vec::new();
                put_opt(&mut out, "soft".to_owned(), Some(soft.to_yaml()));
                put_opt(&mut out, "hard".to_owned(), Some(hard.to_yaml()));
                proof {
                    reveal_strlit("soft");
                    assert("soft"@.len() == 4);
                    assert("soft"@[0] == 's');
                    reveal_strlit("hard");
                    assert("hard"@.len() == 4);
                    assert("hard"@[0] == 'h');
                    assert(self.matches(Yaml::Mapping(out)));
                }
                Yaml::Mapping(out)
            },
        }
    }
}

/// When to pull a service's image.
#[derive(Clone, Debug, PartialEq)]
pub enum PullPolicy {
    Always,
    Never,
    /// Pull only where the image is missing; also written `if_not_present`.
    Missing,
    Build,
}

impl Node for PullPolicy {
    open spec fn equiv(&self, o: Self) -> bool {
        *self == o
    }

    proof fn lemma_unique(a: Self, b: Self, y: Yaml) {
        assert(a.matches(y) && b.matches(y));
        // The accepted spellings differ pairwise: by length, or by their first character.
        reveal_strlit("always");
        reveal_strlit("never");
        reveal_strlit("missing");
        reveal_strlit("if_not_present");
        reveal_strlit("build");
        assert("always"@.len() == 6);
        assert("never"@.len() == 5 && "never"@[0] == 'n');
        assert("missing"@.len() == 7);
        assert("if_not_present"@.len() == 14);
        assert("build"@.len() == 5 && "build"@[0] == 'b');
    }

    open spec fn matches(&self, y: Yaml) -> bool {
        y is Str && match self {
            PullPolicy::Always => y->Str_0@ == "always"@,
            PullPolicy::Never => y->Str_0@ == "never"@,
            PullPolicy::Missing => y->Str_0@ == "missing"@ || y->Str_0@ == "if_not_present"@,
            PullPolicy::Build => y->Str_0@ == "build"@,
        }
    }

    open spec fn canonical(&self) -> bool {
        true
    }

    fn from_yaml(y: &Yaml) -> (r: Result<Self, ParseError>) {
        if let Yaml::Str(s) = y {
            let s = s.as_str();
            if str_eq(s, "always") {
                return Ok(PullPolicy::Always);
            } else if str_eq(s, "never") {
                return Ok(PullPolicy::Never);
            } else if str_eq(s, "missing") || str_eq(s, "if_not_present") {
                return Ok(PullPolicy::Missing);
            } else if str_eq(s, "build") {
                return Ok(PullPolicy::Build);
            }
        }
        Err(mismatch("one of always, never, missing, if_not_present, build"))
    }

    fn to_yaml(&self) -> (r: Yaml) {
        let s = match self {
            PullPolicy::Always => "always",
            PullPolicy::Never => "never",
            PullPolicy::Missing => "missing",
            PullPolicy::Build => "build",
        };
        Yaml::Str(s.to_owned())
    }
}

/// What the `extends` field holds: absent is empty; a string names the service
/// extended, under the key `service`; a mapping must hold strings only.
pub open spec fn extends_matches(m: OrderedMap<String>, n: Option<Yaml>) -> bool {
    match n {
        None => m.entries@.len() == 0,
        Some(y) => match y {
            Yaml::Str(s) => m.entries@.len() == 1 && m.entries@[0].0@ == "service"@
                && m.entries@[0].1@ == s@,
            Yaml::Mapping(_) => m.matches(y),
            _ => false,
        },
    }
}

/// The error for an `extends` mapping that holds anything but strings.
pub open spec fn extends_entries_message() -> Seq<char> {
    "extends must must have string type for both Keys and Values"@
}

/// The error for an `extends` value that is neither a mapping nor a string.
pub open spec fn extends_shape_message() -> Seq<char> {
    "extends must either be a map or a string"@
}

/// Reads an `extends` value: a string `s` becomes `{service: s}`, a mapping of
/// strings is kept as it is, and anything else fails with a type mismatch.
pub fn extends_from_yaml(y: &Yaml) -> (r: Result<OrderedMap<String>, ParseError>)
    ensures
        r matches Ok(m) ==> extends_matches(m, Some(*y)),
        r is Err ==> forall|m: OrderedMap<String>| !#[trigger] extends_matches(m, Some(*y)),
        y is Mapping && r is Err ==> (r matches Err(ParseError::TypeMismatch(msg))
            && msg@ == extends_entries_message()),
        !(y is Str || y is Mapping) ==> (r matches Err(ParseError::TypeMismatch(msg))
            && msg@ == extends_shape_message()),
{
    match y {
        Yaml::Str(s) => {
            let mut m: OrderedMap<String> = OrderedMap::new();
            m.insert("service".to_owned(), s.clone());
            Ok(m)
        },
        Yaml::Mapping(_) => match <OrderedMap<String> as Node>::from_yaml(y) {
            Ok(m) => Ok(m),
            Err(_) => Err(mismatch("extends must must have string type for both Keys and Values")),
        },
        _ => Err(mismatch("extends must either be a map or a string")),
    }
}

pub proof fn lemma_extends_unique(a: OrderedMap<String>, b: OrderedMap<String>, n: Option<Yaml>)
    requires
        extends_matches(a, n),
        extends_matches(b, n),
    ensures
        a.equiv(b),
{
    if let Some(y) = n {
        if y is Mapping {
            <OrderedMap<String> as Node>::lemma_unique(a, b, y);
        }
    }
}

fn extends_field(es: &Vec<YamlEntry>) -> (r: Result<OrderedMap<String>, ParseError>)
    ensures
        r matches Ok(m) ==> extends_matches(m, lookup(es@, "extends"@)),
        r is Err ==> forall|m: OrderedMap<String>| !#[trigger] extends_matches(m, lookup(es@, "extends"@)),
{
    match get(es, "extends") {
        None => Ok(OrderedMap::new()),
        Some(y) => extends_from_yaml(y),
    }
}

impl Service {
    /// The image, or the empty string where none is set.
    pub fn image(&self) -> (r: &str)
        ensures
            r@ == match self.image {
                Some(s) => s@,
                None => Seq::<char>::empty(),
            },
    {
        match &self.image {
            Some(s) => s.as_str(),
            None => {
                proof {
                    reveal_strlit("");
                }
                ""
            },
        }
    }

    /// The network mode, or the empty string where none is set.
    pub fn network_mode(&self) -> (r: &str)
        ensures
            r@ == match self.network_mode {
                Some(s) => s@,
                None => Seq::<char>::empty(),
            },
    {
        match &self.network_mode {
            Some(s) => s.as_str(),
            None => {
                proof {
                    reveal_strlit("");
                }
                ""
            },
        }
    }
}

/// Builds a service field by field.
pub struct ServiceBuilder {
    value: Service,
}

impl ServiceBuilder {
    /// What the builder holds so far.
    pub closed spec fn current(&self) -> Service {
        self.value
    }

    /// A builder with every field at its default.
    pub fn new() -> (r: Self)
        ensures
            r.current().hostname is None,
            r.current().domainname is None,
            r.current().privileged.is_default(),
            r.current().read_only.is_default(),
            r.current().healthcheck is None,
            r.current().deploy is None,
            r.current().image is None,
            r.current().container_name is None,
            r.current().build_ is None,
            r.current().pid is None,
            r.current().ports.is_default(),
            r.current().environment.is_default(),
            r.current().network_mode is None,
            r.current().devices.is_default(),
            r.current().restart is None,
            r.current().labels.is_default(),
            r.current().tmpfs is None,
            r.current().ulimits.is_default(),
            r.current().volumes.is_default(),
            r.current().networks.is_default(),
            r.current().cap_add.is_default(),
            r.current().cap_drop.is_default(),
            r.current().depends_on.is_default(),
            r.current().command is None,
            r.current().entrypoint is None,
            r.current().env_file is None,
            r.current().stop_grace_period is None,
            r.current().profiles.is_default(),
            r.current().links.is_default(),
            r.current().dns.is_default(),
            r.current().ipc is None,
            r.current().net is None,
            r.current().stop_signal is None,
            r.current().user is None,
            r.current().userns_mode is None,
            r.current().working_dir is None,
            r.current().expose.is_default(),
            r.current().volumes_from.is_default(),
            r.current().extends.is_default(),
            r.current().logging is None,
            r.current().scale.is_default(),
            r.current().init.is_default(),
            r.current().stdin_open.is_default(),
            r.current().shm_size is None,
            r.current().extensions.entries@.len() == 0,
            r.current().extra_hosts.is_default(),
            r.current().group_add.is_default(),
            r.current().tty.is_default(),
            r.current().sysctls.is_default(),
            r.current().security_opt.is_default(),
            r.current().secrets is None,
            r.current().pull_policy is None,
            r.current().cgroup_parent is None,
            r.current().mem_limit is None,
            r.current().mem_reservation is None,
            r.current().mem_swappiness is None,
            r.current().runtime is None,
    {
        ServiceBuilder {
            value: Service {
                hostname: None,
                domainname: None,
                privileged: <bool as Defaulted>::default_value(),
                read_only: <bool as Defaulted>::default_value(),
                healthcheck: None,
                deploy: None,
                image: None,
                container_name: None,
                build_: None,
                pid: None,
                ports: <Ports as Defaulted>::default_value(),
                environment: <Environment as Defaulted>::default_value(),
                network_mode: None,
                devices: <Vec<String> as Defaulted>::default_value(),
                restart: None,
                labels: <Labels as Defaulted>::default_value(),
                tmpfs: None,
                ulimits: <Ulimits as Defaulted>::default_value(),
                volumes: <Vec<Volumes> as Defaulted>::default_value(),
                networks: <Networks as Defaulted>::default_value(),
                cap_add: <Vec<String> as Defaulted>::default_value(),
                cap_drop: <Vec<String> as Defaulted>::default_value(),
                depends_on: <DependsOnOptions as Defaulted>::default_value(),
                command: None,
                entrypoint: None,
                env_file: None,
                stop_grace_period: None,
                profiles: <Vec<String> as Defaulted>::default_value(),
                links: <Vec<String> as Defaulted>::default_value(),
                dns: <Vec<String> as Defaulted>::default_value(),
                ipc: None,
                net: None,
                stop_signal: None,
                user: None,
                userns_mode: None,
                working_dir: None,
                expose: <Vec<String> as Defaulted>::default_value(),
                volumes_from: <Vec<String> as Defaulted>::default_value(),
                extends: <OrderedMap<String> as Defaulted>::default_value(),
                logging: None,
                scale: <i64 as Defaulted>::default_value(),
                init: <bool as Defaulted>::default_value(),
                stdin_open: <bool as Defaulted>::default_value(),
                shm_size: None,
                extensions: OrderedMap::new(),
                extra_hosts: <Vec<String> as Defaulted>::default_value(),
                group_add: <Vec<Group> as Defaulted>::default_value(),
                tty: <bool as Defaulted>::default_value(),
                sysctls: <SysCtls as Defaulted>::default_value(),
                security_opt: <Vec<String> as Defaulted>::default_value(),
                secrets: None,
                pull_policy: None,
                cgroup_parent: None,
                mem_limit: None,
                mem_reservation: None,
                mem_swappiness: None,
                runtime: None,
            },
        }
    }

    /// Sets `hostname`.
    pub fn hostname(self, v: Option<String>) -> (r: Self)
        ensures
            r.current() == (Service { hostname: v, ..self.current() }),
    {
        ServiceBuilder { value: Service { hostname: v, ..self.value } }
    }

    /// Sets `domainname`.
    pub fn domainname(self, v: Option<String>) -> (r: Self)
        ensures
            r.current() == (Service { domainname: v, ..self.current() }),
    {
        ServiceBuilder { value: Service { domainname: v, ..self.value } }
    }

    /// Sets `privileged`.
    pub fn privileged(self, v: bool) -> (r: Self)
        ensures
            r.current() == (Service { privileged: v, ..self.current() }),
    {
        ServiceBuilder { value: Service { privileged: v, ..self.value } }
    }

    /// Sets `read_only`.
    pub fn read_only(self, v: bool) -> (r: Self)
        ensures
            r.current() == (Service { read_only: v, ..self.current() }),
    {
        ServiceBuilder { value: Service { read_only: v, ..self.value } }
    }

    /// Sets `healthcheck`.
    pub fn healthcheck(self, v: Option<Healthcheck>) -> (r: Self)
        ensures
            r.current() == (Service { healthcheck: v, ..self.current() }),
    {
        ServiceBuilder { value: Service { healthcheck: v, ..self.value } }
    }

    /// Sets `deploy`.
    pub fn deploy(self, v: Option<Deploy>) -> (r: Self)
        ensures
            r.current() == (Service { deploy: v, ..self.current() }),
    {
        ServiceBuilder { value: Service { deploy: v, ..self.value } }
    }

    /// Sets `image`.
    pub fn image(self, v: Option<String>) -> (r: Self)
        ensures
            r.current() == (Service { image: v, ..self.current() }),
    {
        ServiceBuilder { value: Service { image: v, ..self.value } }
    }

    /// Sets `container_name`.
    pub fn container_name(self, v: Option<String>) -> (r: Self)
        ensures
            r.current() == (Service { container_name: v, ..self.current() }),
    {
        ServiceBuilder { value: Service { container_name: v, ..self.value } }
    }

    /// Sets `build_`.
    pub fn build_(self, v: Option<BuildStep>) -> (r: Self)
        ensures
            r.current() == (Service { build_: v, ..self.current() }),
    {
        ServiceBuilder { value: Service { build_: v, ..self.value } }
    }

    /// Sets `pid`.
    pub fn pid(self, v: Option<String>) -> (r: Self)
        ensures
            r.current() == (Service { pid: v, ..self.current() }),
    {
        ServiceBuilder { value: Service { pid: v, ..self.value } }
    }

    /// Sets `ports`.
    pub fn ports(self, v: Ports) -> (r: Self)
        ensures
            r.current() == (Service { ports: v, ..self.current() }),
    {
        ServiceBuilder { value: Service { ports: v, ..self.value } }
    }

    /// Sets `environment`.
    pub fn environment(self, v: Environment) -> (r: Self)
        ensures
            r.current() == (Service { environment: v, ..self.current() }),
    {
        ServiceBuilder { value: Service { environment: v, ..self.value } }
    }

    /// Sets `network_mode`.
    pub fn network_mode(self, v: Option<String>) -> (r: Self)
        ensures
            r.current() == (Service { network_mode: v, ..self.current() }),
    {
        ServiceBuilder { value: Service { network_mode: v, ..self.value } }
    }

    /// Sets `devices`.
    pub fn devices(self, v: Vec<String>) -> (r: Self)
        ensures
            r.current() == (Service { devices: v, ..self.current() }),
    {
        ServiceBuilder { value: Service { devices: v, ..self.value } }
    }

    /// Sets `restart`.
    pub fn restart(self, v: Option<String>) -> (r: Self)
        ensures
            r.current() == (Service { restart: v, ..self.current() }),
    {
        ServiceBuilder { value: Service { restart: v, ..self.value } }
    }

    /// Sets `labels`.
    pub fn labels(self, v: Labels) -> (r: Self)
        ensures
            r.current() == (Service { labels: v, ..self.current() }),
    {
        ServiceBuilder { value: Service { labels: v, ..self.value } }
    }

    /// Sets `tmpfs`.
    pub fn tmpfs(self, v: Option<Tmpfs>) -> (r: Self)
        ensures
            r.current() == (Service { tmpfs: v, ..self.current() }),
    {
        ServiceBuilder { value: Service { tmpfs: v, ..self.value } }
    }

    /// Sets `ulimits`.
    pub fn ulimits(self, v: Ulimits) -> (r: Self)
        ensures
            r.current() == (Service { ulimits: v, ..self.current() }),
    {
        ServiceBuilder { value: Service { ulimits: v, ..self.value } }
    }

    /// Sets `volumes`.
    pub fn volumes(self, v: Vec<Volumes>) -> (r: Self)
        ensures
            r.current() == (Service { volumes: v, ..self.current() }),
    {
        ServiceBuilder { value: Service { volumes: v, ..self.value } }
    }

    /// Sets `networks`.
    pub fn networks(self, v: Networks) -> (r: Self)
        ensures
            r.current() == (Service { networks: v, ..self.current() }),
    {
        ServiceBuilder { value: Service { networks: v, ..self.value } }
    }

    /// Sets `cap_add`.
    pub fn cap_add(self, v: Vec<String>) -> (r: Self)
        ensures
            r.current() == (Service { cap_add: v, ..self.current() }),
    {
        ServiceBuilder { value: Service { cap_add: v, ..self.value } }
    }

    /// Sets `cap_drop`.
    pub fn cap_drop(self, v: Vec<String>) -> (r: Self)
        ensures
            r.current() == (Service { cap_drop: v, ..self.current() }),
    {
        ServiceBuilder { value: Service { cap_drop: v, ..self.value } }
    }

    /// Sets `depends_on`.
    pub fn depends_on(self, v: DependsOnOptions) -> (r: Self)
        ensures
            r.current() == (Service { depends_on: v, ..self.current() }),
    {
        ServiceBuilder { value: Service { depends_on: v, ..self.value } }
    }

    /// Sets `command`.
    pub fn command(self, v: Option<Command>) -> (r: Self)
        ensures
            r.current() == (Service { command: v, ..self.current() }),
    {
        ServiceBuilder { value: Service { command: v, ..self.value } }
    }

    /// Sets `entrypoint`.
    pub fn entrypoint(self, v: Option<Entrypoint>) -> (r: Self)
        ensures
            r.current() == (Service { entrypoint: v, ..self.current() }),
    {
        ServiceBuilder { value: Service { entrypoint: v, ..self.value } }
    }

    /// Sets `env_file`.
    pub fn env_file(self, v: Option<EnvFile>) -> (r: Self)
        ensures
            r.current() == (Service { env_file: v, ..self.current() }),
    {
        ServiceBuilder { value: Service { env_file: v, ..self.value } }
    }

    /// Sets `stop_grace_period`.
    pub fn stop_grace_period(self, v: Option<String>) -> (r: Self)
        ensures
            r.current() == (Service { stop_grace_period: v, ..self.current() }),
    {
        ServiceBuilder { value: Service { stop_grace_period: v, ..self.value } }
    }

    /// Sets `profiles`.
    pub fn profiles(self, v: Vec<String>) -> (r: Self)
        ensures
            r.current() == (Service { profiles: v, ..self.current() }),
    {
        ServiceBuilder { value: Service { profiles: v, ..self.value } }
    }

    /// Sets `links`.
    pub fn links(self, v: Vec<String>) -> (r: Self)
        ensures
            r.current() == (Service { links: v, ..self.current() }),
    {
        ServiceBuilder { value: Service { links: v, ..self.value } }
    }

    /// Sets `dns`.
    pub fn dns(self, v: Vec<String>) -> (r: Self)
        ensures
            r.current() == (Service { dns: v, ..self.current() }),
    {
        ServiceBuilder { value: Service { dns: v, ..self.value } }
    }

    /// Sets `ipc`.
    pub fn ipc(self, v: Option<String>) -> (r: Self)
        ensures
            r.current() == (Service { ipc: v, ..self.current() }),
    {
        ServiceBuilder { value: Service { ipc: v, ..self.value } }
    }

    /// Sets `net`.
    pub fn net(self, v: Option<String>) -> (r: Self)
        ensures
            r.current() == (Service { net: v, ..self.current() }),
    {
        ServiceBuilder { value: Service { net: v, ..self.value } }
    }

    /// Sets `stop_signal`.
    pub fn stop_signal(self, v: Option<String>) -> (r: Self)
        ensures
            r.current() == (Service { stop_signal: v, ..self.current() }),
    {
        ServiceBuilder { value: Service { stop_signal: v, ..self.value } }
    }

    /// Sets `user`.
    pub fn user(self, v: Option<String>) -> (r: Self)
        ensures
            r.current() == (Service { user: v, ..self.current() }),
    {
        ServiceBuilder { value: Service { user: v, ..self.value } }
    }

    /// Sets `userns_mode`.
    pub fn userns_mode(self, v: Option<String>) -> (r: Self)
        ensures
            r.current() == (Service { userns_mode: v, ..self.current() }),
    {
        ServiceBuilder { value: Service { userns_mode: v, ..self.value } }
    }

    /// Sets `working_dir`.
    pub fn working_dir(self, v: Option<String>) -> (r: Self)
        ensures
            r.current() == (Service { working_dir: v, ..self.current() }),
    {
        ServiceBuilder { value: Service { working_dir: v, ..self.value } }
    }

    /// Sets `expose`.
    pub fn expose(self, v: Vec<String>) -> (r: Self)
        ensures
            r.current() == (Service { expose: v, ..self.current() }),
    {
        ServiceBuilder { value: Service { expose: v, ..self.value } }
    }

    /// Sets `volumes_from`.
    pub fn volumes_from(self, v: Vec<String>) -> (r: Self)
        ensures
            r.current() == (Service { volumes_from: v, ..self.current() }),
    {
        ServiceBuilder { value: Service { volumes_from: v, ..self.value } }
    }

    /// Sets `extends`.
    pub fn extends(self, v: OrderedMap<String>) -> (r: Self)
        ensures
            r.current() == (Service { extends: v, ..self.current() }),
    {
        ServiceBuilder { value: Service { extends: v, ..self.value } }
    }

    /// Sets `logging`.
    pub fn logging(self, v: Option<LoggingParameters>) -> (r: Self)
        ensures
            r.current() == (Service { logging: v, ..self.current() }),
    {
        ServiceBuilder { value: Service { logging: v, ..self.value } }
    }

    /// Sets `scale`.
    pub fn scale(self, v: i64) -> (r: Self)
        ensures
            r.current() == (Service { scale: v, ..self.current() }),
    {
        ServiceBuilder { value: Service { scale: v, ..self.value } }
    }

    /// Sets `init`.
    pub fn init(self, v: bool) -> (r: Self)
        ensures
            r.current() == (Service { init: v, ..self.current() }),
    {
        ServiceBuilder { value: Service { init: v, ..self.value } }
    }

    /// Sets `stdin_open`.
    pub fn stdin_open(self, v: bool) -> (r: Self)
        ensures
            r.current() == (Service { stdin_open: v, ..self.current() }),
    {
        ServiceBuilder { value: Service { stdin_open: v, ..self.value } }
    }

    /// Sets `shm_size`.
    pub fn shm_size(self, v: Option<String>) -> (r: Self)
        ensures
            r.current() == (Service { shm_size: v, ..self.current() }),
    {
        ServiceBuilder { value: Service { shm_size: v, ..self.value } }
    }

    /// Sets `extensions`.
    pub fn extensions(self, v: OrderedMap<Yaml>) -> (r: Self)
        ensures
            r.current() == (Service { extensions: v, ..self.current() }),
    {
        ServiceBuilder { value: Service { extensions: v, ..self.value } }
    }

    /// Sets `extra_hosts`.
    pub fn extra_hosts(self, v: Vec<String>) -> (r: Self)
        ensures
            r.current() == (Service { extra_hosts: v, ..self.current() }),
    {
        ServiceBuilder { value: Service { extra_hosts: v, ..self.value } }
    }

    /// Sets `group_add`.
    pub fn group_add(self, v: Vec<Group>) -> (r: Self)
        ensures
            r.current() == (Service { group_add: v, ..self.current() }),
    {
        ServiceBuilder { value: Service { group_add: v, ..self.value } }
    }

    /// Sets `tty`.
    pub fn tty(self, v: bool) -> (r: Self)
        ensures
            r.current() == (Service { tty: v, ..self.current() }),
    {
        ServiceBuilder { value: Service { tty: v, ..self.value } }
    }

    /// Sets `sysctls`.
    pub fn sysctls(self, v: SysCtls) -> (r: Self)
        ensures
            r.current() == (Service { sysctls: v, ..self.current() }),
    {
        ServiceBuilder { value: Service { sysctls: v, ..self.value } }
    }

    /// Sets `security_opt`.
    pub fn security_opt(self, v: Vec<String>) -> (r: Self)
        ensures
            r.current() == (Service { security_opt: v, ..self.current() }),
    {
        ServiceBuilder { value: Service { security_opt: v, ..self.value } }
    }

    /// Sets `secrets`.
    pub fn secrets(self, v: Option<Secrets>) -> (r: Self)
        ensures
            r.current() == (Service { secrets: v, ..self.current() }),
    {
        ServiceBuilder { value: Service { secrets: v, ..self.value } }
    }

    /// Sets `pull_policy`.
    pub fn pull_policy(self, v: Option<PullPolicy>) -> (r: Self)
        ensures
            r.current() == (Service { pull_policy: v, ..self.current() }),
    {
        ServiceBuilder { value: Service { pull_policy: v, ..self.value } }
    }

    /// Sets `cgroup_parent`.
    pub fn cgroup_parent(self, v: Option<String>) -> (r: Self)
        ensures
            r.current() == (Service { cgroup_parent: v, ..self.current() }),
    {
        ServiceBuilder { value: Service { cgroup_parent: v, ..self.value } }
    }

    /// Sets `mem_limit`.
    pub fn mem_limit(self, v: Option<String>) -> (r: Self)
        ensures
            r.current() == (Service { mem_limit: v, ..self.current() }),
    {
        ServiceBuilder { value: Service { mem_limit: v, ..self.value } }
    }

    /// Sets `mem_reservation`.
    pub fn mem_reservation(self, v: Option<String>) -> (r: Self)
        ensures
            r.current() == (Service { mem_reservation: v, ..self.current() }),
    {
        ServiceBuilder { value: Service { mem_reservation: v, ..self.value } }
    }

    /// Sets `mem_swappiness`.
    pub fn mem_swappiness(self, v: Option<u16>) -> (r: Self)
        ensures
            r.current() == (Service { mem_swappiness: v, ..self.current() }),
    {
        ServiceBuilder { value: Service { mem_swappiness: v, ..self.value } }
    }

    /// Sets `runtime`.
    pub fn runtime(self, v: Option<String>) -> (r: Self)
        ensures
            r.current() == (Service { runtime: v, ..self.current() }),
    {
        ServiceBuilder { value: Service { runtime: v, ..self.value } }
    }

    /// The value built; every field not set keeps its default.
    pub fn build(self) -> (r: Result<Service, ParseError>)
        ensures
            r == Ok::<Service, ParseError>(self.current()),
    {
        Ok(self.value)
    }
}

/// One environment file, or several.
#[derive(Clone, Debug, PartialEq)]
pub enum EnvFile {
    Simple(String),
    List(Vec<String>),
}

impl Node for EnvFile {
    open spec fn equiv(&self, o: Self) -> bool {
        match self {
            EnvFile::Simple(p) => o is Simple && p.equiv(o->Simple_0),
            EnvFile::List(p) => o is List && p.equiv(o->List_0),
        }
    }

    proof fn lemma_unique(a: Self, b: Self, y: Yaml) {
        assert(a.matches(y) && b.matches(y));
        if a is Simple && b is Simple {
            <String as Node>::lemma_unique(a->Simple_0, b->Simple_0, y);
        }
        if a is List && b is List {
            <Vec<String> as Node>::lemma_unique(a->List_0, b->List_0, y);
        }
    }

    /// The first variant, in declaration order, whose payload reads the node.
    open spec fn matches(&self, y: Yaml) -> bool {
        match self {
            EnvFile::Simple(p) => p.matches(y),
            EnvFile::List(p) => p.matches(y) && (forall|q: String| !#[trigger] q.matches(y)),
        }
    }

    open spec fn canonical(&self) -> bool {
        match self {
            EnvFile::Simple(p) => p.canonical(),
            EnvFile::List(p) => p.canonical(),
        }
    }

    fn from_yaml(y: &Yaml) -> (r: Result<Self, ParseError>) {
        if let Ok(p) = <String as Node>::from_yaml(y) {
            return Ok(EnvFile::Simple(p));
        }
        match <Vec<String> as Node>::from_yaml(y) {
            Ok(p) => Ok(EnvFile::List(p)),
            Err(_) => Err(mismatch("a string or a list of strings")),
        }
    }

    fn to_yaml(&self) -> (r: Yaml) {
        match self {
            EnvFile::Simple(p) => p.to_yaml(),
            EnvFile::List(p) => p.to_yaml(),
        }
    }
}

/// Services to start first: names, or names with a condition each.
#[derive(Clone, Debug, PartialEq)]
pub enum DependsOnOptions {
    Simple(Vec<String>),
    Conditional(OrderedMap<DependsCondition>),
}

impl Node for DependsOnOptions {
    open spec fn equiv(&self, o: Self) -> bool {
        match self {
            DependsOnOptions::Simple(p) => o is Simple && p.equiv(o->Simple_0),
            DependsOnOptions::Conditional(p) => o is Conditional && p.equiv(o->Conditional_0),
        }
    }

    proof fn lemma_unique(a: Self, b: Self, y: Yaml) {
        assert(a.matches(y) && b.matches(y));
        if a is Simple && b is Simple {
            <Vec<String> as Node>::lemma_unique(a->Simple_0, b->Simple_0, y);
        }
        if a is Conditional && b is Conditional {
            <OrderedMap<DependsCondition> as Node>::lemma_unique(a->Conditional_0, b->Conditional_0, y);
        }
    }

    /// The first variant, in declaration order, whose payload reads the node.
    open spec fn matches(&self, y: Yaml) -> bool {
        match self {
            DependsOnOptions::Simple(p) => p.matches(y),
            DependsOnOptions::Conditional(p) => p.matches(y) && (forall|q: Vec<String>| !#[trigger] q.matches(y)),
        }
    }

    open spec fn canonical(&self) -> bool {
        match self {
            DependsOnOptions::Simple(p) => p.canonical(),
            DependsOnOptions::Conditional(p) => p.canonical(),
        }
    }

    fn from_yaml(y: &Yaml) -> (r: Result<Self, ParseError>) {
        if let Ok(p) = <Vec<String> as Node>::from_yaml(y) {
            return Ok(DependsOnOptions::Simple(p));
        }
        match <OrderedMap<DependsCondition> as Node>::from_yaml(y) {
            Ok(p) => Ok(DependsOnOptions::Conditional(p)),
            Err(_) => Err(mismatch("a list of names or a mapping of conditions")),
        }
    }

    fn to_yaml(&self) -> (r: Yaml) {
        match self {
            DependsOnOptions::Simple(p) => p.to_yaml(),
            DependsOnOptions::Conditional(p) => p.to_yaml(),
        }
    }
}

impl DependsOnOptions {
    /// Whether the value holds no entries, in either form.
    pub fn is_empty(&self) -> (r: bool)
        ensures
            r == match self {
                DependsOnOptions::Simple(p) => p@.len() == 0,
                DependsOnOptions::Conditional(p) => p.entries@.len() == 0,
            },
    {
        match self {
            DependsOnOptions::Simple(p) => p.len() == 0,
            DependsOnOptions::Conditional(p) => p.is_empty(),
        }
    }
}

impl Defaulted for DependsOnOptions {
    open spec fn is_default(&self) -> bool {
        self is Simple && self->Simple_0@.len() == 0
    }

    proof fn lemma_default_unique(a: Self, b: Self) {
        assert(a.is_default() && b.is_default());
        assert(a->Simple_0.equiv(b->Simple_0));
    }

    open spec fn empty(&self) -> bool {
        match self {
            DependsOnOptions::Simple(p) => p@.len() == 0,
            DependsOnOptions::Conditional(p) => p.entries@.len() == 0,
        }
    }

    fn default_value() -> (r: Self) {
        DependsOnOptions::Simple(Vec::new())
    }

    fn is_empty(&self) -> (r: bool) {
        DependsOnOptions::is_empty(self)
    }
}

impl Default for DependsOnOptions {
    fn default() -> (r: Self)
        ensures
            r.is_default(),
    {
        DependsOnOptions::Simple(Vec::new())
    }
}

/// The condition a dependency must reach.
#[derive(Clone, Debug, PartialEq)]
pub struct DependsCondition {
    /// The condition awaited.
    pub condition: String,
}

impl Record for DependsCondition {
    open spec fn is_field(k: Seq<char>) -> bool {
        k == "condition"@
    }

    fn field(k: &str) -> (r: bool) {
        str_eq(k, "condition")
    }
}

/// How the fields of a `DependsCondition` read the entries of the mapping `y`.
#[verifier::opaque]
pub open spec fn depends_condition_fields(v: DependsCondition, y: Yaml) -> bool {
    &&& keys_ok::<DependsCondition>(y->Mapping_0@, KeyPolicy::Lenient)
    &&& req_matches(v.condition, lookup(y->Mapping_0@, "condition"@))
}

/// Every field of `a` holds the same data as that of `b`.
#[verifier::opaque]
pub open spec fn depends_condition_equiv(a: DependsCondition, b: DependsCondition) -> bool {
    &&& a.condition.equiv(b.condition)
}

/// Each field of a `DependsCondition` is one that writing and reading back keeps.
#[verifier::opaque]
pub open spec fn depends_condition_written(v: DependsCondition) -> bool {
    &&& v.condition.canonical()
}

impl Node for DependsCondition {
    open spec fn matches(&self, y: Yaml) -> bool {
        y is Mapping && depends_condition_fields(*self, y)
    }

    open spec fn equiv(&self, o: Self) -> bool {
        depends_condition_equiv(*self, o)
    }

    proof fn lemma_unique(a: Self, b: Self, y: Yaml) {
        reveal(depends_condition_fields);
        reveal(depends_condition_equiv);
        let es = y->Mapping_0@;
        lemma_req_unique(a.condition, b.condition, lookup(es, "condition"@));
    }

    open spec fn canonical(&self) -> bool {
        depends_condition_written(*self)
    }

    fn from_yaml(y: &Yaml) -> (r: Result<Self, ParseError>) {
        reveal(depends_condition_fields);
        match y {
            Yaml::Mapping(es) => {
                if let Err(e) = check_keys::<DependsCondition>(es, KeyPolicy::Lenient) {
                    return Err(e);
                }
                let condition = req_field::<String>(es, "condition")?;
                Ok(DependsCondition { condition })
            },
            _ => Err(mismatch("a mapping")),
        }
    }

    fn to_yaml(&self) -> (r: Yaml)
        ensures
            r is Mapping,
            lookup(r->Mapping_0@, "condition"@) is Some,
    {
        reveal(depends_condition_fields);
        reveal(depends_condition_written);
        let mut out: Vec<YamlEntry> = Vec::new();
        put_opt(&mut out, "condition".to_owned(), Some(self.condition.to_yaml()));
        proof {
            // Each key literal apart from the others: by length, or by a character.
            reveal_strlit("condition");
            assert("condition"@.len() == 9);
            assert("condition"@[0] == 'c');
            if self.canonical() {
                assert(self.matches(Yaml::Mapping(out)));
            }
        }
        Yaml::Mapping(out)
    }
}

/// Logging settings of a service.
#[derive(Clone, Debug, PartialEq)]
pub struct LoggingParameters {
    /// The logging driver.
    pub driver: Option<String>,
    /// Options of the driver.
    pub options: Option<OrderedMap<SingleValue>>,
}

impl Record for LoggingParameters {
    open spec fn is_field(k: Seq<char>) -> bool {
        k == "driver"@
            || k == "options"@
    }

    fn field(k: &str) -> (r: bool) {
        str_eq(k, "driver")
            || str_eq(k, "options")
    }
}

/// How the fields of a `LoggingParameters` read the entries of the mapping `y`.
#[verifier::opaque]
pub open spec fn logging_parameters_fields(v: LoggingParameters, y: Yaml) -> bool {
    &&& keys_ok::<LoggingParameters>(y->Mapping_0@, KeyPolicy::Lenient)
    &&& opt_matches(v.driver, lookup(y->Mapping_0@, "driver"@))
    &&& opt_matches(v.options, lookup(y->Mapping_0@, "options"@))
}

/// Every field of `a` holds the same data as that of `b`.
#[verifier::opaque]
pub open spec fn logging_parameters_equiv(a: LoggingParameters, b: LoggingParameters) -> bool {
    &&& opt_equiv(a.driver, b.driver)
    &&& opt_equiv(a.options, b.options)
}

/// Each field of a `LoggingParameters` is one that writing and reading back keeps.
#[verifier::opaque]
pub open spec fn logging_parameters_written(v: LoggingParameters) -> bool {
    &&& opt_written(v.driver)
    &&& opt_written(v.options)
}

impl Node for LoggingParameters {
    open spec fn matches(&self, y: Yaml) -> bool {
        y is Mapping && logging_parameters_fields(*self, y)
    }

    open spec fn equiv(&self, o: Self) -> bool {
        logging_parameters_equiv(*self, o)
    }

    proof fn lemma_unique(a: Self, b: Self, y: Yaml) {
        reveal(logging_parameters_fields);
        reveal(logging_parameters_equiv);
        let es = y->Mapping_0@;
        lemma_opt_unique(a.driver, b.driver, lookup(es, "driver"@));
        lemma_opt_unique(a.options, b.options, lookup(es, "options"@));
    }

    open spec fn canonical(&self) -> bool {
        logging_parameters_written(*self)
    }

    fn from_yaml(y: &Yaml) -> (r: Result<Self, ParseError>) {
        reveal(logging_parameters_fields);
        match y {
            Yaml::Mapping(es) => {
                if let Err(e) = check_keys::<LoggingParameters>(es, KeyPolicy::Lenient) {
                    return Err(e);
                }
                let driver = opt_field::<String>(es, "driver")?;
                let options = opt_field::<OrderedMap<SingleValue>>(es, "options")?;
                Ok(LoggingParameters { driver, options })
            },
            _ => Err(mismatch("a mapping")),
        }
    }

    fn to_yaml(&self) -> (r: Yaml)
        ensures
            r is Mapping,
            (lookup(r->Mapping_0@, "driver"@) is None) == (self.driver is None),
            (lookup(r->Mapping_0@, "options"@) is None) == (self.options is None),
    {
        reveal(logging_parameters_fields);
        reveal(logging_parameters_written);
        let mut out: Vec<YamlEntry> = Vec::new();
        put_opt(&mut out, "driver".to_owned(), opt_yaml(&self.driver));
        put_opt(&mut out, "options".to_owned(), opt_yaml(&self.options));
        proof {
            // Each key literal apart from the others: by length, or by a character.
            reveal_strlit("driver");
            assert("driver"@.len() == 6);
            assert("driver"@[0] == 'd');
            reveal_strlit("options");
            assert("options"@.len() == 7);
            assert("options"@[0] == 'o');
            if self.canonical() {
                assert(self.matches(Yaml::Mapping(out)));
            }
        }
        Yaml::Mapping(out)
    }
}

/// Published ports: short strings, or records.
#[derive(Clone, Debug, PartialEq)]
pub enum Ports {
    Short(Vec<String>),
    Long(Vec<Port>),
}

impl Node for Ports {
    open spec fn equiv(&self, o: Self) -> bool {
        match self {
            Ports::Short(p) => o is Short && p.equiv(o->Short_0),
            Ports::Long(p) => o is Long && p.equiv(o->Long_0),
        }
    }

    proof fn lemma_unique(a: Self, b: Self, y: Yaml) {
        assert(a.matches(y) && b.matches(y));
        if a is Short && b is Short {
            <Vec<String> as Node>::lemma_unique(a->Short_0, b->Short_0, y);
        }
        if a is Long && b is Long {
            <Vec<Port> as Node>::lemma_unique(a->Long_0, b->Long_0, y);
        }
    }

    /// The first variant, in declaration order, whose payload reads the node.
    open spec fn matches(&self, y: Yaml) -> bool {
        match self {
            Ports::Short(p) => p.matches(y),
            Ports::Long(p) => p.matches(y) && (forall|q: Vec<String>| !#[trigger] q.matches(y)),
        }
    }

    open spec fn canonical(&self) -> bool {
        match self {
            Ports::Short(p) => p.canonical(),
            Ports::Long(p) => p.canonical() && p@.len() > 0,
        }
    }

    fn from_yaml(y: &Yaml) -> (r: Result<Self, ParseError>) {
        if let Ok(p) = <Vec<String> as Node>::from_yaml(y) {
            return Ok(Ports::Short(p));
        }
        match <Vec<Port> as Node>::from_yaml(y) {
            Ok(p) => Ok(Ports::Long(p)),
            Err(_) => Err(mismatch("a list of port strings or of port records")),
        }
    }

    fn to_yaml(&self) -> (r: Yaml) {
        match self {
            Ports::Short(p) => p.to_yaml(),
            Ports::Long(p) => {
                let r = p.to_yaml();
                proof {
                    if self.canonical() {
                        assert forall|q: Vec<String>| !#[trigger] q.matches(r) by {
                            if q.matches(r) {
                                assert(p@[0].matches(r->List_0@[0]));
                                assert(q@[0].matches(r->List_0@[0]));
                            }
                        }
                    }
                }
                r
            },
        }
    }
}

impl Ports {
    /// Whether the value holds no entries, in either form.
    pub fn is_empty(&self) -> (r: bool)
        ensures
            r == match self {
                Ports::Short(p) => p@.len() == 0,
                Ports::Long(p) => p@.len() == 0,
            },
    {
        match self {
            Ports::Short(p) => p.len() == 0,
            Ports::Long(p) => p.len() == 0,
        }
    }
}

impl Defaulted for Ports {
    open spec fn is_default(&self) -> bool {
        self is Short && self->Short_0@.len() == 0
    }

    proof fn lemma_default_unique(a: Self, b: Self) {
        assert(a.is_default() && b.is_default());
        assert(a->Short_0.equiv(b->Short_0));
    }

    open spec fn empty(&self) -> bool {
        match self {
            Ports::Short(p) => p@.len() == 0,
            Ports::Long(p) => p@.len() == 0,
        }
    }

    fn default_value() -> (r: Self) {
        Ports::Short(Vec::new())
    }

    fn is_empty(&self) -> (r: bool) {
        Ports::is_empty(self)
    }
}

impl Default for Ports {
    fn default() -> (r: Self)
        ensures
            r.is_default(),
    {
        Ports::Short(Vec::new())
    }
}

/// A published port in the long form.
#[derive(Clone, Debug, PartialEq)]
pub struct Port {
    /// The container port.
    pub target: u16,
    /// The host address bound.
    pub host_ip: Option<String>,
    /// The host port or range.
    pub published: Option<PublishedPort>,
    /// The protocol.
    pub protocol: Option<String>,
    /// The publishing mode.
    pub mode: Option<String>,
}

impl Record for Port {
    open spec fn is_field(k: Seq<char>) -> bool {
        k == "target"@
            || k == "host_ip"@
            || k == "published"@
            || k == "protocol"@
            || k == "mode"@
    }

    fn field(k: &str) -> (r: bool) {
        str_eq(k, "target")
            || str_eq(k, "host_ip")
            || str_eq(k, "published")
            || str_eq(k, "protocol")
            || str_eq(k, "mode")
    }
}

/// How the fields of a `Port` read the entries of the mapping `y`.
#[verifier::opaque]
pub open spec fn port_fields(v: Port, y: Yaml) -> bool {
    &&& keys_ok::<Port>(y->Mapping_0@, KeyPolicy::Lenient)
    &&& req_matches(v.target, lookup(y->Mapping_0@, "target"@))
    &&& opt_matches(v.host_ip, lookup(y->Mapping_0@, "host_ip"@))
    &&& opt_matches(v.published, lookup(y->Mapping_0@, "published"@))
    &&& opt_matches(v.protocol, lookup(y->Mapping_0@, "protocol"@))
    &&& opt_matches(v.mode, lookup(y->Mapping_0@, "mode"@))
}

/// Every field of `a` holds the same data as that of `b`.
#[verifier::opaque]
pub open spec fn port_equiv(a: Port, b: Port) -> bool {
    &&& a.target.equiv(b.target)
    &&& opt_equiv(a.host_ip, b.host_ip)
    &&& opt_equiv(a.published, b.published)
    &&& opt_equiv(a.protocol, b.protocol)
    &&& opt_equiv(a.mode, b.mode)
}

/// Each field of a `Port` is one that writing and reading back keeps.
#[verifier::opaque]
pub open spec fn port_written(v: Port) -> bool {
    &&& v.target.canonical()
    &&& opt_written(v.host_ip)
    &&& opt_written(v.published)
    &&& opt_written(v.protocol)
    &&& opt_written(v.mode)
}

impl Node for Port {
    open spec fn matches(&self, y: Yaml) -> bool {
        y is Mapping && port_fields(*self, y)
    }

    open spec fn equiv(&self, o: Self) -> bool {
        port_equiv(*self, o)
    }

    proof fn lemma_unique(a: Self, b: Self, y: Yaml) {
        reveal(port_fields);
        reveal(port_equiv);
        let es = y->Mapping_0@;
        lemma_req_unique(a.target, b.target, lookup(es, "target"@));
        lemma_opt_unique(a.host_ip, b.host_ip, lookup(es, "host_ip"@));
        lemma_opt_unique(a.published, b.published, lookup(es, "published"@));
        lemma_opt_unique(a.protocol, b.protocol, lookup(es, "protocol"@));
        lemma_opt_unique(a.mode, b.mode, lookup(es, "mode"@));
    }

    open spec fn canonical(&self) -> bool {
        port_written(*self)
    }

    fn from_yaml(y: &Yaml) -> (r: Result<Self, ParseError>) {
        reveal(port_fields);
        match y {
            Yaml::Mapping(es) => {
                if let Err(e) = check_keys::<Port>(es, KeyPolicy::Lenient) {
                    return Err(e);
                }
                let target = req_field::<u16>(es, "target")?;
                let host_ip = opt_field::<String>(es, "host_ip")?;
                let published = opt_field::<PublishedPort>(es, "published")?;
                let protocol = opt_field::<String>(es, "protocol")?;
                let mode = opt_field::<String>(es, "mode")?;
                Ok(Port { target, host_ip, published, protocol, mode })
            },
            _ => Err(mismatch("a mapping")),
        }
    }

    fn to_yaml(&self) -> (r: Yaml)
        ensures
            r is Mapping,
            lookup(r->Mapping_0@, "target"@) is Some,
            (lookup(r->Mapping_0@, "host_ip"@) is None) == (self.host_ip is None),
            (lookup(r->Mapping_0@, "published"@) is None) == (self.published is None),
            (lookup(r->Mapping_0@, "protocol"@) is None) == (self.protocol is None),
            (lookup(r->Mapping_0@, "mode"@) is None) == (self.mode is None),
    {
        reveal(port_fields);
        reveal(port_written);
        let mut out: Vec<YamlEntry> = Vec::new();
        put_opt(&mut out, "target".to_owned(), Some(self.target.to_yaml()));
        put_opt(&mut out, "host_ip".to_owned(), opt_yaml(&self.host_ip));
        put_opt(&mut out, "published".to_owned(), opt_yaml(&self.published));
        put_opt(&mut out, "protocol".to_owned(), opt_yaml(&self.protocol));
        put_opt(&mut out, "mode".to_owned(), opt_yaml(&self.mode));
        proof {
            // Each key literal apart from the others: by length, or by a character.
            reveal_strlit("target");
            assert("target"@.len() == 6);
            assert("target"@[0] == 't');
            reveal_strlit("host_ip");
            assert("host_ip"@.len() == 7);
            assert("host_ip"@[0] == 'h');
            reveal_strlit("published");
            assert("published"@.len() == 9);
            assert("published"@[0] == 'p');
            reveal_strlit("protocol");
            assert("protocol"@.len() == 8);
            assert("protocol"@[0] == 'p');
            reveal_strlit("mode");
            assert("mode"@.len() == 4);
            assert("mode"@[0] == 'm');
            if self.canonical() {
                assert(self.matches(Yaml::Mapping(out)));
            }
        }
        Yaml::Mapping(out)
    }
}

/// A published host port, or a range written as text.
#[derive(Clone, Debug, PartialEq)]
pub enum PublishedPort {
    Single(u16),
    Range(String),
}

impl Node for PublishedPort {
    open spec fn equiv(&self, o: Self) -> bool {
        match self {
            PublishedPort::Single(p) => o is Single && p.equiv(o->Single_0),
            PublishedPort::Range(p) => o is Range && p.equiv(o->Range_0),
        }
    }

    proof fn lemma_unique(a: Self, b: Self, y: Yaml) {
        assert(a.matches(y) && b.matches(y));
        if a is Single && b is Single {
            <u16 as Node>::lemma_unique(a->Single_0, b->Single_0, y);
        }
        if a is Range && b is Range {
            <String as Node>::lemma_unique(a->Range_0, b->Range_0, y);
        }
    }

    /// The first variant, in declaration order, whose payload reads the node.
    open spec fn matches(&self, y: Yaml) -> bool {
        match self {
            PublishedPort::Single(p) => p.matches(y),
            PublishedPort::Range(p) => p.matches(y) && (forall|q: u16| !#[trigger] q.matches(y)),
        }
    }

    open spec fn canonical(&self) -> bool {
        match self {
            PublishedPort::Single(p) => p.canonical(),
            PublishedPort::Range(p) => p.canonical(),
        }
    }

    fn from_yaml(y: &Yaml) -> (r: Result<Self, ParseError>) {
        if let Ok(p) = <u16 as Node>::from_yaml(y) {
            return Ok(PublishedPort::Single(p));
        }
        match <String as Node>::from_yaml(y) {
            Ok(p) => Ok(PublishedPort::Range(p)),
            Err(_) => Err(mismatch("a port number or a string")),
        }
    }

    fn to_yaml(&self) -> (r: Yaml) {
        match self {
            PublishedPort::Single(p) => p.to_yaml(),
            PublishedPort::Range(p) => p.to_yaml(),
        }
    }
}

/// Environment variables: `KEY=VALUE` strings, or a mapping where null marks a key without a value.
#[derive(Clone, Debug, PartialEq)]
pub enum Environment {
    List(Vec<String>),
    KvPair(OrderedMap<Option<SingleValue>>),
}

impl Node for Environment {
    open spec fn equiv(&self, o: Self) -> bool {
        match self {
            Environment::List(p) => o is List && p.equiv(o->List_0),
            Environment::KvPair(p) => o is KvPair && p.equiv(o->KvPair_0),
        }
    }

    proof fn lemma_unique(a: Self, b: Self, y: Yaml) {
        assert(a.matches(y) && b.matches(y));
        if a is List && b is List {
            <Vec<String> as Node>::lemma_unique(a->List_0, b->List_0, y);
        }
        if a is KvPair && b is KvPair {
            <OrderedMap<Option<SingleValue>> as Node>::lemma_unique(a->KvPair_0, b->KvPair_0, y);
        }
    }

    /// The first variant, in declaration order, whose payload reads the node.
    open spec fn matches(&self, y: Yaml) -> bool {
        match self {
            Environment::List(p) => p.matches(y),
            Environment::KvPair(p) => p.matches(y) && (forall|q: Vec<String>| !#[trigger] q.matches(y)),
        }
    }

    open spec fn canonical(&self) -> bool {
        match self {
            Environment::List(p) => p.canonical(),
            Environment::KvPair(p) => p.canonical(),
        }
    }

    fn from_yaml(y: &Yaml) -> (r: Result<Self, ParseError>) {
        if let Ok(p) = <Vec<String> as Node>::from_yaml(y) {
            return Ok(Environment::List(p));
        }
        match <OrderedMap<Option<SingleValue>> as Node>::from_yaml(y) {
            Ok(p) => Ok(Environment::KvPair(p)),
            Err(_) => Err(mismatch("a list of strings or a mapping")),
        }
    }

    fn to_yaml(&self) -> (r: Yaml) {
        match self {
            Environment::List(p) => p.to_yaml(),
            Environment::KvPair(p) => p.to_yaml(),
        }
    }
}

impl Environment {
    /// Whether the value holds no entries, in either form.
    pub fn is_empty(&self) -> (r: bool)
        ensures
            r == match self {
                Environment::List(p) => p@.len() == 0,
                Environment::KvPair(p) => p.entries@.len() == 0,
            },
    {
        match self {
            Environment::List(p) => p.len() == 0,
            Environment::KvPair(p) => p.is_empty(),
        }
    }
}

impl Defaulted for Environment {
    open spec fn is_default(&self) -> bool {
        self is List && self->List_0@.len() == 0
    }

    proof fn lemma_default_unique(a: Self, b: Self) {
        assert(a.is_default() && b.is_default());
        assert(a->List_0.equiv(b->List_0));
    }

    open spec fn empty(&self) -> bool {
        match self {
            Environment::List(p) => p@.len() == 0,
            Environment::KvPair(p) => p.entries@.len() == 0,
        }
    }

    fn default_value() -> (r: Self) {
        Environment::List(Vec::new())
    }

    fn is_empty(&self) -> (r: bool) {
        Environment::is_empty(self)
    }
}

impl Default for Environment {
    fn default() -> (r: Self)
        ensures
            r.is_default(),
    {
        Environment::List(Vec::new())
    }
}

/// The services of a document: name to definition, or null.
#[derive(Clone, Debug, PartialEq)]
pub struct Services(pub OrderedMap<Option<Service>>);

impl Services {
    pub fn is_empty(&self) -> (r: bool)
        ensures
            r == (self.0.entries@.len() == 0),
    {
        self.0.is_empty()
    }
}

impl Node for Services {
    open spec fn matches(&self, y: Yaml) -> bool {
        self.0.matches(y)
    }

    open spec fn equiv(&self, o: Self) -> bool {
        self.0.equiv(o.0)
    }

    proof fn lemma_unique(a: Self, b: Self, y: Yaml) {
        <OrderedMap<Option<Service>> as Node>::lemma_unique(a.0, b.0, y);
    }

    open spec fn canonical(&self) -> bool {
        self.0.canonical()
    }

    fn from_yaml(y: &Yaml) -> (r: Result<Self, ParseError>) {
        let m = <OrderedMap<Option<Service>> as Node>::from_yaml(y)?;
        Ok(Services(m))
    }

    fn to_yaml(&self) -> (r: Yaml) {
        self.0.to_yaml()
    }
}

impl Defaulted for Services {
    open spec fn is_default(&self) -> bool {
        self.0.entries@.len() == 0
    }

    proof fn lemma_default_unique(a: Self, b: Self) {
        assert(a.is_default() && b.is_default());
    }

    open spec fn empty(&self) -> bool {
        self.0.entries@.len() == 0
    }

    fn default_value() -> (r: Self) {
        Services(OrderedMap::new())
    }

    fn is_empty(&self) -> (r: bool) {
        Services::is_empty(self)
    }
}

impl Default for Services {
    fn default() -> (r: Self)
        ensures
            r.is_default(),
    {
        Services(OrderedMap::new())
    }
}

/// Metadata labels: `KEY=VALUE` strings, or a mapping.
#[derive(Clone, Debug, PartialEq)]
pub enum Labels {
    List(Vec<String>),
    Mapping(OrderedMap<String>),
}

impl Node for Labels {
    open spec fn equiv(&self, o: Self) -> bool {
        match self {
            Labels::List(p) => o is List && p.equiv(o->List_0),
            Labels::Mapping(p) => o is Mapping && p.equiv(o->Mapping_0),
        }
    }

    proof fn lemma_unique(a: Self, b: Self, y: Yaml) {
        assert(a.matches(y) && b.matches(y));
        if a is List && b is List {
            <Vec<String> as Node>::lemma_unique(a->List_0, b->List_0, y);
        }
        if a is Mapping && b is Mapping {
            <OrderedMap<String> as Node>::lemma_unique(a->Mapping_0, b->Mapping_0, y);
        }
    }

    /// The first variant, in declaration order, whose payload reads the node.
    open spec fn matches(&self, y: Yaml) -> bool {
        match self {
            Labels::List(p) => p.matches(y),
            Labels::Mapping(p) => p.matches(y) && (forall|q: Vec<String>| !#[trigger] q.matches(y)),
        }
    }

    open spec fn canonical(&self) -> bool {
        match self {
            Labels::List(p) => p.canonical(),
            Labels::Mapping(p) => p.canonical(),
        }
    }

    fn from_yaml(y: &Yaml) -> (r: Result<Self, ParseError>) {
        if let Ok(p) = <Vec<String> as Node>::from_yaml(y) {
            return Ok(Labels::List(p));
        }
        match <OrderedMap<String> as Node>::from_yaml(y) {
            Ok(p) => Ok(Labels::Mapping(p)),
            Err(_) => Err(mismatch("a list of strings or a mapping of strings")),
        }
    }

    fn to_yaml(&self) -> (r: Yaml) {
        match self {
            Labels::List(p) => p.to_yaml(),
            Labels::Mapping(p) => p.to_yaml(),
        }
    }
}

impl Labels {
    /// Whether the value holds no entries, in either form.
    pub fn is_empty(&self) -> (r: bool)
        ensures
            r == match self {
                Labels::List(p) => p@.len() == 0,
                Labels::Mapping(p) => p.entries@.len() == 0,
            },
    {
        match self {
            Labels::List(p) => p.len() == 0,
            Labels::Mapping(p) => p.is_empty(),
        }
    }
}

impl Defaulted for Labels {
    open spec fn is_default(&self) -> bool {
        self is List && self->List_0@.len() == 0
    }

    proof fn lemma_default_unique(a: Self, b: Self) {
        assert(a.is_default() && b.is_default());
        assert(a->List_0.equiv(b->List_0));
    }

    open spec fn empty(&self) -> bool {
        match self {
            Labels::List(p) => p@.len() == 0,
            Labels::Mapping(p) => p.entries@.len() == 0,
        }
    }

    fn default_value() -> (r: Self) {
        Labels::List(Vec::new())
    }

    fn is_empty(&self) -> (r: bool) {
        Labels::is_empty(self)
    }
}

impl Default for Labels {
    fn default() -> (r: Self)
        ensures
            r.is_default(),
    {
        Labels::List(Vec::new())
    }
}

/// One tmpfs mount, or several.
#[derive(Clone, Debug, PartialEq)]
pub enum Tmpfs {
    Simple(String),
    List(Vec<String>),
}

impl Node for Tmpfs {
    open spec fn equiv(&self, o: Self) -> bool {
        match self {
            Tmpfs::Simple(p) => o is Simple && p.equiv(o->Simple_0),
            Tmpfs::List(p) => o is List && p.equiv(o->List_0),
        }
    }

    proof fn lemma_unique(a: Self, b: Self, y: Yaml) {
        assert(a.matches(y) && b.matches(y));
        if a is Simple && b is Simple {
            <String as Node>::lemma_unique(a->Simple_0, b->Simple_0, y);
        }
        if a is List && b is List {
            <Vec<String> as Node>::lemma_unique(a->List_0, b->List_0, y);
        }
    }

    /// The first variant, in declaration order, whose payload reads the node.
    open spec fn matches(&self, y: Yaml) -> bool {
        match self {
            Tmpfs::Simple(p) => p.matches(y),
            Tmpfs::List(p) => p.matches(y) && (forall|q: String| !#[trigger] q.matches(y)),
        }
    }

    open spec fn canonical(&self) -> bool {
        match self {
            Tmpfs::Simple(p) => p.canonical(),
            Tmpfs::List(p) => p.canonical(),
        }
    }

    fn from_yaml(y: &Yaml) -> (r: Result<Self, ParseError>) {
        if let Ok(p) = <String as Node>::from_yaml(y) {
            return Ok(Tmpfs::Simple(p));
        }
        match <Vec<String> as Node>::from_yaml(y) {
            Ok(p) => Ok(Tmpfs::List(p)),
            Err(_) => Err(mismatch("a string or a list of strings")),
        }
    }

    fn to_yaml(&self) -> (r: Yaml) {
        match self {
            Tmpfs::Simple(p) => p.to_yaml(),
            Tmpfs::List(p) => p.to_yaml(),
        }
    }
}

/// Resource limits by name.
#[derive(Clone, Debug, PartialEq)]
pub struct Ulimits(pub OrderedMap<Ulimit>);

impl Ulimits {
    pub fn is_empty(&self) -> (r: bool)
        ensures
            r == (self.0.entries@.len() == 0),
    {
        self.0.is_empty()
    }
}

impl Node for Ulimits {
    open spec fn matches(&self, y: Yaml) -> bool {
        self.0.matches(y)
    }

    open spec fn equiv(&self, o: Self) -> bool {
        self.0.equiv(o.0)
    }

    proof fn lemma_unique(a: Self, b: Self, y: Yaml) {
        <OrderedMap<Ulimit> as Node>::lemma_unique(a.0, b.0, y);
    }

    open spec fn canonical(&self) -> bool {
        self.0.canonical()
    }

    fn from_yaml(y: &Yaml) -> (r: Result<Self, ParseError>) {
        let m = <OrderedMap<Ulimit> as Node>::from_yaml(y)?;
        Ok(Ulimits(m))
    }

    fn to_yaml(&self) -> (r: Yaml) {
        self.0.to_yaml()
    }
}

impl Defaulted for Ulimits {
    open spec fn is_default(&self) -> bool {
        self.0.entries@.len() == 0
    }

    proof fn lemma_default_unique(a: Self, b: Self) {
        assert(a.is_default() && b.is_default());
    }

    open spec fn empty(&self) -> bool {
        self.0.entries@.len() == 0
    }

    fn default_value() -> (r: Self) {
        Ulimits(OrderedMap::new())
    }

    fn is_empty(&self) -> (r: bool) {
        Ulimits::is_empty(self)
    }
}

impl Default for Ulimits {
    fn default() -> (r: Self)
        ensures
            r.is_default(),
    {
        Ulimits(OrderedMap::new())
    }
}

/// The networks a service joins: names, or names with settings.
#[derive(Clone, Debug, PartialEq)]
pub enum Networks {
    Simple(Vec<String>),
    Advanced(AdvancedNetworks),
}

impl Node for Networks {
    open spec fn equiv(&self, o: Self) -> bool {
        match self {
            Networks::Simple(p) => o is Simple && p.equiv(o->Simple_0),
            Networks::Advanced(p) => o is Advanced && p.equiv(o->Advanced_0),
        }
    }

    proof fn lemma_unique(a: Self, b: Self, y: Yaml) {
        assert(a.matches(y) && b.matches(y));
        if a is Simple && b is Simple {
            <Vec<String> as Node>::lemma_unique(a->Simple_0, b->Simple_0, y);
        }
        if a is Advanced && b is Advanced {
            <AdvancedNetworks as Node>::lemma_unique(a->Advanced_0, b->Advanced_0, y);
        }
    }

    /// The first variant, in declaration order, whose payload reads the node.
    open spec fn matches(&self, y: Yaml) -> bool {
        match self {
            Networks::Simple(p) => p.matches(y),
            Networks::Advanced(p) => p.matches(y) && (forall|q: Vec<String>| !#[trigger] q.matches(y)),
        }
    }

    open spec fn canonical(&self) -> bool {
        match self {
            Networks::Simple(p) => p.canonical(),
            Networks::Advanced(p) => p.canonical(),
        }
    }

    fn from_yaml(y: &Yaml) -> (r: Result<Self, ParseError>) {
        if let Ok(p) = <Vec<String> as Node>::from_yaml(y) {
            return Ok(Networks::Simple(p));
        }
        match <AdvancedNetworks as Node>::from_yaml(y) {
            Ok(p) => Ok(Networks::Advanced(p)),
            Err(_) => Err(mismatch("a list of names or a mapping of networks")),
        }
    }

    fn to_yaml(&self) -> (r: Yaml) {
        match self {
            Networks::Simple(p) => p.to_yaml(),
            Networks::Advanced(p) => p.to_yaml(),
        }
    }
}

impl Networks {
    /// Whether the value holds no entries, in either form.
    pub fn is_empty(&self) -> (r: bool)
        ensures
            r == match self {
                Networks::Simple(p) => p@.len() == 0,
                Networks::Advanced(p) => p.0.entries@.len() == 0,
            },
    {
        match self {
            Networks::Simple(p) => p.len() == 0,
            Networks::Advanced(p) => p.is_empty(),
        }
    }
}

impl Defaulted for Networks {
    open spec fn is_default(&self) -> bool {
        self is Simple && self->Simple_0@.len() == 0
    }

    proof fn lemma_default_unique(a: Self, b: Self) {
        assert(a.is_default() && b.is_default());
        assert(a->Simple_0.equiv(b->Simple_0));
    }

    open spec fn empty(&self) -> bool {
        match self {
            Networks::Simple(p) => p@.len() == 0,
            Networks::Advanced(p) => p.0.entries@.len() == 0,
        }
    }

    fn default_value() -> (r: Self) {
        Networks::Simple(Vec::new())
    }

    fn is_empty(&self) -> (r: bool) {
        Networks::is_empty(self)
    }
}

impl Default for Networks {
    fn default() -> (r: Self)
        ensures
            r.is_default(),
    {
        Networks::Simple(Vec::new())
    }
}

/// How an image is built: a context path, or a strict record.
#[derive(Clone, Debug, PartialEq)]
pub enum BuildStep {
    Simple(String),
    Advanced(AdvancedBuildStep),
}

impl Node for BuildStep {
    open spec fn equiv(&self, o: Self) -> bool {
        match self {
            BuildStep::Simple(p) => o is Simple && p.equiv(o->Simple_0),
            BuildStep::Advanced(p) => o is Advanced && p.equiv(o->Advanced_0),
        }
    }

    proof fn lemma_unique(a: Self, b: Self, y: Yaml) {
        assert(a.matches(y) && b.matches(y));
        if a is Simple && b is Simple {
            <String as Node>::lemma_unique(a->Simple_0, b->Simple_0, y);
        }
        if a is Advanced && b is Advanced {
            <AdvancedBuildStep as Node>::lemma_unique(a->Advanced_0, b->Advanced_0, y);
        }
    }

    /// The first variant, in declaration order, whose payload reads the node.
    open spec fn matches(&self, y: Yaml) -> bool {
        match self {
            BuildStep::Simple(p) => p.matches(y),
            BuildStep::Advanced(p) => p.matches(y) && (forall|q: String| !#[trigger] q.matches(y)),
        }
    }

    open spec fn canonical(&self) -> bool {
        match self {
            BuildStep::Simple(p) => p.canonical(),
            BuildStep::Advanced(p) => p.canonical(),
        }
    }

    fn from_yaml(y: &Yaml) -> (r: Result<Self, ParseError>) {
        if let Ok(p) = <String as Node>::from_yaml(y) {
            return Ok(BuildStep::Simple(p));
        }
        match <AdvancedBuildStep as Node>::from_yaml(y) {
            Ok(p) => Ok(BuildStep::Advanced(p)),
            Err(_) => Err(mismatch("a context path or a build record")),
        }
    }

    fn to_yaml(&self) -> (r: Yaml) {
        match self {
            BuildStep::Simple(p) => p.to_yaml(),
            BuildStep::Advanced(p) => p.to_yaml(),
        }
    }
}

/// A build in the long form; a key that names no field is an error.
#[derive(Clone, Debug, PartialEq)]
pub struct AdvancedBuildStep {
    /// The build context.
    pub context: String,
    /// The Dockerfile, relative to the context.
    pub dockerfile: Option<String>,
    /// Build arguments.
    pub args: Option<BuildArgs>,
    /// The size of /dev/shm while building, in bytes.
    pub shm_size: Option<u64>,
    /// The stage built.
    pub target: Option<String>,
    /// The network used while building.
    pub network: Option<String>,
    /// Images used as cache sources.
    pub cache_from: Vec<String>,
    /// Labels of the image.
    pub labels: Labels,
}

impl Record for AdvancedBuildStep {
    open spec fn is_field(k: Seq<char>) -> bool {
        k == "context"@
            || k == "dockerfile"@
            || k == "args"@
            || k == "shm_size"@
            || k == "target"@
            || k == "network"@
            || k == "cache_from"@
            || k == "labels"@
    }

    fn field(k: &str) -> (r: bool) {
        str_eq(k, "context")
            || str_eq(k, "dockerfile")
            || str_eq(k, "args")
            || str_eq(k, "shm_size")
            || str_eq(k, "target")
            || str_eq(k, "network")
            || str_eq(k, "cache_from")
            || str_eq(k, "labels")
    }
}

/// How the fields of a `AdvancedBuildStep` read the entries of the mapping `y`.
#[verifier::opaque]
pub open spec fn advanced_build_step_fields(v: AdvancedBuildStep, y: Yaml) -> bool {
    &&& keys_ok::<AdvancedBuildStep>(y->Mapping_0@, KeyPolicy::Strict)
    &&& req_matches(v.context, lookup(y->Mapping_0@, "context"@))
    &&& opt_matches(v.dockerfile, lookup(y->Mapping_0@, "dockerfile"@))
    &&& opt_matches(v.args, lookup(y->Mapping_0@, "args"@))
    &&& opt_matches(v.shm_size, lookup(y->Mapping_0@, "shm_size"@))
    &&& opt_matches(v.target, lookup(y->Mapping_0@, "target"@))
    &&& opt_matches(v.network, lookup(y->Mapping_0@, "network"@))
    &&& dflt_matches(v.cache_from, lookup(y->Mapping_0@, "cache_from"@))
    &&& dflt_matches(v.labels, lookup(y->Mapping_0@, "labels"@))
}

/// Every field of `a` holds the same data as that of `b`.
#[verifier::opaque]
pub open spec fn advanced_build_step_equiv(a: AdvancedBuildStep, b: AdvancedBuildStep) -> bool {
    &&& a.context.equiv(b.context)
    &&& opt_equiv(a.dockerfile, b.dockerfile)
    &&& opt_equiv(a.args, b.args)
    &&& opt_equiv(a.shm_size, b.shm_size)
    &&& opt_equiv(a.target, b.target)
    &&& opt_equiv(a.network, b.network)
    &&& a.cache_from.equiv(b.cache_from)
    &&& a.labels.equiv(b.labels)
}

/// Each field of a `AdvancedBuildStep` is one that writing and reading back keeps.
#[verifier::opaque]
pub open spec fn advanced_build_step_written(v: AdvancedBuildStep) -> bool {
    &&& v.context.canonical()
    &&& opt_written(v.dockerfile)
    &&& opt_written(v.args)
    &&& opt_written(v.shm_size)
    &&& opt_written(v.target)
    &&& opt_written(v.network)
    &&& dflt_written(v.cache_from)
    &&& dflt_written(v.labels)
}

impl Node for AdvancedBuildStep {
    open spec fn matches(&self, y: Yaml) -> bool {
        y is Mapping && advanced_build_step_fields(*self, y)
    }

    open spec fn equiv(&self, o: Self) -> bool {
        advanced_build_step_equiv(*self, o)
    }

    proof fn lemma_unique(a: Self, b: Self, y: Yaml) {
        reveal(advanced_build_step_fields);
        reveal(advanced_build_step_equiv);
        let es = y->Mapping_0@;
        lemma_req_unique(a.context, b.context, lookup(es, "context"@));
        lemma_opt_unique(a.dockerfile, b.dockerfile, lookup(es, "dockerfile"@));
        lemma_opt_unique(a.args, b.args, lookup(es, "args"@));
        lemma_opt_unique(a.shm_size, b.shm_size, lookup(es, "shm_size"@));
        lemma_opt_unique(a.target, b.target, lookup(es, "target"@));
        lemma_opt_unique(a.network, b.network, lookup(es, "network"@));
        lemma_dflt_unique(a.cache_from, b.cache_from, lookup(es, "cache_from"@));
        lemma_dflt_unique(a.labels, b.labels, lookup(es, "labels"@));
    }

    open spec fn canonical(&self) -> bool {
        advanced_build_step_written(*self)
    }

    /// A key that is not allowed here is the error, where all keys are strings.
    fn from_yaml(y: &Yaml) -> (r: Result<Self, ParseError>)
        ensures
            y is Mapping && all_string_keys(y->Mapping_0@) && !keys_allowed::<AdvancedBuildStep>(
                y->Mapping_0@,
                KeyPolicy::Strict,
            ) ==> (r matches Err(ParseError::UnknownField(k)) && !AdvancedBuildStep::is_field(k@)),
    {
        reveal(advanced_build_step_fields);
        match y {
            Yaml::Mapping(es) => {
                if let Err(e) = check_keys::<AdvancedBuildStep>(es, KeyPolicy::Strict) {
                    return Err(e);
                }
                let context = req_field::<String>(es, "context")?;
                let dockerfile = opt_field::<String>(es, "dockerfile")?;
                let args = opt_field::<BuildArgs>(es, "args")?;
                let shm_size = opt_field::<u64>(es, "shm_size")?;
                let target = opt_field::<String>(es, "target")?;
                let network = opt_field::<String>(es, "network")?;
                let cache_from = dflt_field::<Vec<String>>(es, "cache_from")?;
                let labels = dflt_field::<Labels>(es, "labels")?;
                Ok(AdvancedBuildStep { context, dockerfile, args, shm_size, target, network, cache_from, labels })
            },
            _ => Err(mismatch("a mapping")),
        }
    }

    fn to_yaml(&self) -> (r: Yaml)
        ensures
            r is Mapping,
            lookup(r->Mapping_0@, "context"@) is Some,
            (lookup(r->Mapping_0@, "dockerfile"@) is None) == (self.dockerfile is None),
            (lookup(r->Mapping_0@, "args"@) is None) == (self.args is None),
            (lookup(r->Mapping_0@, "shm_size"@) is None) == (self.shm_size is None),
            (lookup(r->Mapping_0@, "target"@) is None) == (self.target is None),
            (lookup(r->Mapping_0@, "network"@) is None) == (self.network is None),
            (lookup(r->Mapping_0@, "cache_from"@) is None) == self.cache_from.empty(),
            (lookup(r->Mapping_0@, "labels"@) is None) == self.labels.empty(),
    {
        reveal(advanced_build_step_fields);
        reveal(advanced_build_step_written);
        let mut out: Vec<YamlEntry> = Vec::new();
        put_opt(&mut out, "context".to_owned(), Some(self.context.to_yaml()));
        put_opt(&mut out, "dockerfile".to_owned(), opt_yaml(&self.dockerfile));
        put_opt(&mut out, "args".to_owned(), opt_yaml(&self.args));
        put_opt(&mut out, "shm_size".to_owned(), opt_yaml(&self.shm_size));
        put_opt(&mut out, "target".to_owned(), opt_yaml(&self.target));
        put_opt(&mut out, "network".to_owned(), opt_yaml(&self.network));
        put_opt(&mut out, "cache_from".to_owned(), dflt_yaml(&self.cache_from));
        put_opt(&mut out, "labels".to_owned(), dflt_yaml(&self.labels));
        proof {
            // Each key literal apart from the others: by length, or by a character.
            reveal_strlit("context");
            assert("context"@.len() == 7);
            assert("context"@[0] == 'c');
            reveal_strlit("dockerfile");
            assert("dockerfile"@.len() == 10);
            assert("dockerfile"@[0] == 'd');
            reveal_strlit("args");
            assert("args"@.len() == 4);
            assert("args"@[0] == 'a');
            reveal_strlit("shm_size");
            assert("shm_size"@.len() == 8);
            assert("shm_size"@[0] == 's');
            reveal_strlit("target");
            assert("target"@.len() == 6);
            assert("target"@[0] == 't');
            reveal_strlit("network");
            assert("network"@.len() == 7);
            assert("network"@[0] == 'n');
            reveal_strlit("cache_from");
            assert("cache_from"@.len() == 10);
            assert("cache_from"@[0] == 'c');
            reveal_strlit("labels");
            assert("labels"@.len() == 6);
            assert("labels"@[0] == 'l');
            if self.canonical() {
                assert(self.matches(Yaml::Mapping(out)));
            }
        }
        Yaml::Mapping(out)
    }
}

/// Builds a build record field by field.
pub struct AdvancedBuildStepBuilder {
    value: AdvancedBuildStep,
}

impl AdvancedBuildStepBuilder {
    /// What the builder holds so far.
    pub closed spec fn current(&self) -> AdvancedBuildStep {
        self.value
    }

    /// A builder with every field at its default.
    pub fn new() -> (r: Self)
        ensures
            r.current().context@.len() == 0,
            r.current().dockerfile is None,
            r.current().args is None,
            r.current().shm_size is None,
            r.current().target is None,
            r.current().network is None,
            r.current().cache_from.is_default(),
            r.current().labels.is_default(),
    {
        AdvancedBuildStepBuilder {
            value: AdvancedBuildStep {
                context: String::new(),
                dockerfile: None,
                args: None,
                shm_size: None,
                target: None,
                network: None,
                cache_from: <Vec<String> as Defaulted>::default_value(),
                labels: <Labels as Defaulted>::default_value(),
            },
        }
    }

    /// Sets `context`.
    pub fn context(self, v: String) -> (r: Self)
        ensures
            r.current() == (AdvancedBuildStep { context: v, ..self.current() }),
    {
        AdvancedBuildStepBuilder { value: AdvancedBuildStep { context: v, ..self.value } }
    }

    /// Sets `dockerfile`.
    pub fn dockerfile(self, v: Option<String>) -> (r: Self)
        ensures
            r.current() == (AdvancedBuildStep { dockerfile: v, ..self.current() }),
    {
        AdvancedBuildStepBuilder { value: AdvancedBuildStep { dockerfile: v, ..self.value } }
    }

    /// Sets `args`.
    pub fn args(self, v: Option<BuildArgs>) -> (r: Self)
        ensures
            r.current() == (AdvancedBuildStep { args: v, ..self.current() }),
    {
        AdvancedBuildStepBuilder { value: AdvancedBuildStep { args: v, ..self.value } }
    }

    /// Sets `shm_size`.
    pub fn shm_size(self, v: Option<u64>) -> (r: Self)
        ensures
            r.current() == (AdvancedBuildStep { shm_size: v, ..self.current() }),
    {
        AdvancedBuildStepBuilder { value: AdvancedBuildStep { shm_size: v, ..self.value } }
    }

    /// Sets `target`.
    pub fn target(self, v: Option<String>) -> (r: Self)
        ensures
            r.current() == (AdvancedBuildStep { target: v, ..self.current() }),
    {
        AdvancedBuildStepBuilder { value: AdvancedBuildStep { target: v, ..self.value } }
    }

    /// Sets `network`.
    pub fn network(self, v: Option<String>) -> (r: Self)
        ensures
            r.current() == (AdvancedBuildStep { network: v, ..self.current() }),
    {
        AdvancedBuildStepBuilder { value: AdvancedBuildStep { network: v, ..self.value } }
    }

    /// Sets `cache_from`.
    pub fn cache_from(self, v: Vec<String>) -> (r: Self)
        ensures
            r.current() == (AdvancedBuildStep { cache_from: v, ..self.current() }),
    {
        AdvancedBuildStepBuilder { value: AdvancedBuildStep { cache_from: v, ..self.value } }
    }

    /// Sets `labels`.
    pub fn labels(self, v: Labels) -> (r: Self)
        ensures
            r.current() == (AdvancedBuildStep { labels: v, ..self.current() }),
    {
        AdvancedBuildStepBuilder { value: AdvancedBuildStep { labels: v, ..self.value } }
    }

    /// The value built; every field not set keeps its default.
    pub fn build(self) -> (r: Result<AdvancedBuildStep, ParseError>)
        ensures
            r == Ok::<AdvancedBuildStep, ParseError>(self.current()),
    {
        Ok(self.value)
    }
}

/// Build arguments: a string, a list, or a mapping.
#[derive(Clone, Debug, PartialEq)]
pub enum BuildArgs {
    Simple(String),
    List(Vec<String>),
    KvPair(OrderedMap<String>),
}

impl Node for BuildArgs {
    open spec fn equiv(&self, o: Self) -> bool {
        match self {
            BuildArgs::Simple(p) => o is Simple && p.equiv(o->Simple_0),
            BuildArgs::List(p) => o is List && p.equiv(o->List_0),
            BuildArgs::KvPair(p) => o is KvPair && p.equiv(o->KvPair_0),
        }
    }

    proof fn lemma_unique(a: Self, b: Self, y: Yaml) {
        assert(a.matches(y) && b.matches(y));
        if a is Simple && b is Simple {
            <String as Node>::lemma_unique(a->Simple_0, b->Simple_0, y);
        }
        if a is List && b is List {
            <Vec<String> as Node>::lemma_unique(a->List_0, b->List_0, y);
        }
        if a is KvPair && b is KvPair {
            <OrderedMap<String> as Node>::lemma_unique(a->KvPair_0, b->KvPair_0, y);
        }
    }

    /// The first variant, in declaration order, whose payload reads the node.
    open spec fn matches(&self, y: Yaml) -> bool {
        match self {
            BuildArgs::Simple(p) => p.matches(y),
            BuildArgs::List(p) => p.matches(y) && (forall|q: String| !#[trigger] q.matches(y)),
            BuildArgs::KvPair(p) => p.matches(y) && (forall|q: String| !#[trigger] q.matches(y)) && (forall|q: Vec<String>| !#[trigger] q.matches(y)),
        }
    }

    open spec fn canonical(&self) -> bool {
        match self {
            BuildArgs::Simple(p) => p.canonical(),
            BuildArgs::List(p) => p.canonical(),
            BuildArgs::KvPair(p) => p.canonical(),
        }
    }

    fn from_yaml(y: &Yaml) -> (r: Result<Self, ParseError>) {
        if let Ok(p) = <String as Node>::from_yaml(y) {
            return Ok(BuildArgs::Simple(p));
        }
        if let Ok(p) = <Vec<String> as Node>::from_yaml(y) {
            return Ok(BuildArgs::List(p));
        }
        match <OrderedMap<String> as Node>::from_yaml(y) {
            Ok(p) => Ok(BuildArgs::KvPair(p)),
            Err(_) => Err(mismatch("a string, a list of strings or a mapping of strings")),
        }
    }

    fn to_yaml(&self) -> (r: Yaml) {
        match self {
            BuildArgs::Simple(p) => p.to_yaml(),
            BuildArgs::List(p) => p.to_yaml(),
            BuildArgs::KvPair(p) => p.to_yaml(),
        }
    }
}

/// The networks of a service, each with its settings or none.
#[derive(Clone, Debug, PartialEq)]
pub struct AdvancedNetworks(pub OrderedMap<MapOrEmpty<AdvancedNetworkSettings>>);

impl AdvancedNetworks {
    pub fn is_empty(&self) -> (r: bool)
        ensures
            r == (self.0.entries@.len() == 0),
    {
        self.0.is_empty()
    }
}

impl Node for AdvancedNetworks {
    open spec fn matches(&self, y: Yaml) -> bool {
        self.0.matches(y)
    }

    open spec fn equiv(&self, o: Self) -> bool {
        self.0.equiv(o.0)
    }

    proof fn lemma_unique(a: Self, b: Self, y: Yaml) {
        <OrderedMap<MapOrEmpty<AdvancedNetworkSettings>> as Node>::lemma_unique(a.0, b.0, y);
    }

    open spec fn canonical(&self) -> bool {
        self.0.canonical()
    }

    fn from_yaml(y: &Yaml) -> (r: Result<Self, ParseError>) {
        let m = <OrderedMap<MapOrEmpty<AdvancedNetworkSettings>> as Node>::from_yaml(y)?;
        Ok(AdvancedNetworks(m))
    }

    fn to_yaml(&self) -> (r: Yaml) {
        self.0.to_yaml()
    }
}

impl Defaulted for AdvancedNetworks {
    open spec fn is_default(&self) -> bool {
        self.0.entries@.len() == 0
    }

    proof fn lemma_default_unique(a: Self, b: Self) {
        assert(a.is_default() && b.is_default());
    }

    open spec fn empty(&self) -> bool {
        self.0.entries@.len() == 0
    }

    fn default_value() -> (r: Self) {
        AdvancedNetworks(OrderedMap::new())
    }

    fn is_empty(&self) -> (r: bool) {
        AdvancedNetworks::is_empty(self)
    }
}

impl Default for AdvancedNetworks {
    fn default() -> (r: Self)
        ensures
            r.is_default(),
    {
        AdvancedNetworks(OrderedMap::new())
    }
}

/// How a service joins one network.
#[derive(Clone, Debug, PartialEq)]
pub struct AdvancedNetworkSettings {
    /// A fixed IPv4 address.
    pub ipv4_address: Option<String>,
    /// A fixed IPv6 address.
    pub ipv6_address: Option<String>,
    /// Other names on the network.
    pub aliases: Vec<String>,
}

impl Record for AdvancedNetworkSettings {
    open spec fn is_field(k: Seq<char>) -> bool {
        k == "ipv4_address"@
            || k == "ipv6_address"@
            || k == "aliases"@
    }

    fn field(k: &str) -> (r: bool) {
        str_eq(k, "ipv4_address")
            || str_eq(k, "ipv6_address")
            || str_eq(k, "aliases")
    }
}

/// How the fields of a `AdvancedNetworkSettings` read the entries of the mapping `y`.
#[verifier::opaque]
pub open spec fn advanced_network_settings_fields(v: AdvancedNetworkSettings, y: Yaml) -> bool {
    &&& keys_ok::<AdvancedNetworkSettings>(y->Mapping_0@, KeyPolicy::Strict)
    &&& opt_matches(v.ipv4_address, lookup(y->Mapping_0@, "ipv4_address"@))
    &&& opt_matches(v.ipv6_address, lookup(y->Mapping_0@, "ipv6_address"@))
    &&& dflt_matches(v.aliases, lookup(y->Mapping_0@, "aliases"@))
}

/// Every field of `a` holds the same data as that of `b`.
#[verifier::opaque]
pub open spec fn advanced_network_settings_equiv(a: AdvancedNetworkSettings, b: AdvancedNetworkSettings) -> bool {
    &&& opt_equiv(a.ipv4_address, b.ipv4_address)
    &&& opt_equiv(a.ipv6_address, b.ipv6_address)
    &&& a.aliases.equiv(b.aliases)
}

/// Each field of a `AdvancedNetworkSettings` is one that writing and reading back keeps.
#[verifier::opaque]
pub open spec fn advanced_network_settings_written(v: AdvancedNetworkSettings) -> bool {
    &&& opt_written(v.ipv4_address)
    &&& opt_written(v.ipv6_address)
    &&& dflt_written(v.aliases)
}

impl Node for AdvancedNetworkSettings {
    open spec fn matches(&self, y: Yaml) -> bool {
        y is Mapping && advanced_network_settings_fields(*self, y)
    }

    open spec fn equiv(&self, o: Self) -> bool {
        advanced_network_settings_equiv(*self, o)
    }

    proof fn lemma_unique(a: Self, b: Self, y: Yaml) {
        reveal(advanced_network_settings_fields);
        reveal(advanced_network_settings_equiv);
        let es = y->Mapping_0@;
        lemma_opt_unique(a.ipv4_address, b.ipv4_address, lookup(es, "ipv4_address"@));
        lemma_opt_unique(a.ipv6_address, b.ipv6_address, lookup(es, "ipv6_address"@));
        lemma_dflt_unique(a.aliases, b.aliases, lookup(es, "aliases"@));
    }

    open spec fn canonical(&self) -> bool {
        advanced_network_settings_written(*self)
    }

    /// A key that is not allowed here is the error, where all keys are strings.
    fn from_yaml(y: &Yaml) -> (r: Result<Self, ParseError>)
        ensures
            y is Mapping && all_string_keys(y->Mapping_0@) && !keys_allowed::<AdvancedNetworkSettings>(
                y->Mapping_0@,
                KeyPolicy::Strict,
            ) ==> (r matches Err(ParseError::UnknownField(k)) && !AdvancedNetworkSettings::is_field(k@)),
    {
        reveal(advanced_network_settings_fields);
        match y {
            Yaml::Mapping(es) => {
                if let Err(e) = check_keys::<AdvancedNetworkSettings>(es, KeyPolicy::Strict) {
                    return Err(e);
                }
                let ipv4_address = opt_field::<String>(es, "ipv4_address")?;
                let ipv6_address = opt_field::<String>(es, "ipv6_address")?;
                let aliases = dflt_field::<Vec<String>>(es, "aliases")?;
                Ok(AdvancedNetworkSettings { ipv4_address, ipv6_address, aliases })
            },
            _ => Err(mismatch("a mapping")),
        }
    }

    fn to_yaml(&self) -> (r: Yaml)
        ensures
            r is Mapping,
            self.is_default() ==> r->Mapping_0@.len() == 0,
            (lookup(r->Mapping_0@, "ipv4_address"@) is None) == (self.ipv4_address is None),
            (lookup(r->Mapping_0@, "ipv6_address"@) is None) == (self.ipv6_address is None),
            (lookup(r->Mapping_0@, "aliases"@) is None) == self.aliases.empty(),
    {
        reveal(advanced_network_settings_fields);
        reveal(advanced_network_settings_written);
        let mut out: Vec<YamlEntry> = Vec::new();
        put_opt(&mut out, "ipv4_address".to_owned(), opt_yaml(&self.ipv4_address));
        put_opt(&mut out, "ipv6_address".to_owned(), opt_yaml(&self.ipv6_address));
        put_opt(&mut out, "aliases".to_owned(), dflt_yaml(&self.aliases));
        proof {
            // Each key literal apart from the others: by length, or by a character.
            reveal_strlit("ipv4_address");
            assert("ipv4_address"@.len() == 12);
            assert("ipv4_address"@[0] == 'i');
            assert("ipv4_address"@[3] == '4');
            reveal_strlit("ipv6_address");
            assert("ipv6_address"@.len() == 12);
            assert("ipv6_address"@[0] == 'i');
            assert("ipv6_address"@[3] == '6');
            reveal_strlit("aliases");
            assert("aliases"@.len() == 7);
            assert("aliases"@[0] == 'a');
            if self.canonical() {
                assert(self.matches(Yaml::Mapping(out)));
            }
        }
        Yaml::Mapping(out)
    }
}

impl AdvancedNetworkSettings {
    /// Every field holds its default.
    pub open spec fn is_default(&self) -> bool {
        &&& self.ipv4_address is None
        &&& self.ipv6_address is None
        &&& self.aliases.is_default()
    }
}

impl Default for AdvancedNetworkSettings {
    fn default() -> (r: Self)
        ensures
            r.is_default(),
    {
        AdvancedNetworkSettings {
            ipv4_address: None,
            ipv6_address: None,
            aliases: <Vec<String> as Defaulted>::default_value(),
        }
    }
}

/// Kernel parameters: `KEY=VALUE` strings, or a mapping.
#[derive(Clone, Debug, PartialEq)]
pub enum SysCtls {
    List(Vec<String>),
    Mapping(OrderedMap<Option<SingleValue>>),
}

impl Node for SysCtls {
    open spec fn equiv(&self, o: Self) -> bool {
        match self {
            SysCtls::List(p) => o is List && p.equiv(o->List_0),
            SysCtls::Mapping(p) => o is Mapping && p.equiv(o->Mapping_0),
        }
    }

    proof fn lemma_unique(a: Self, b: Self, y: Yaml) {
        assert(a.matches(y) && b.matches(y));
        if a is List && b is List {
            <Vec<String> as Node>::lemma_unique(a->List_0, b->List_0, y);
        }
        if a is Mapping && b is Mapping {
            <OrderedMap<Option<SingleValue>> as Node>::lemma_unique(a->Mapping_0, b->Mapping_0, y);
        }
    }

    /// The first variant, in declaration order, whose payload reads the node.
    open spec fn matches(&self, y: Yaml) -> bool {
        match self {
            SysCtls::List(p) => p.matches(y),
            SysCtls::Mapping(p) => p.matches(y) && (forall|q: Vec<String>| !#[trigger] q.matches(y)),
        }
    }

    open spec fn canonical(&self) -> bool {
        match self {
            SysCtls::List(p) => p.canonical(),
            SysCtls::Mapping(p) => p.canonical(),
        }
    }

    fn from_yaml(y: &Yaml) -> (r: Result<Self, ParseError>) {
        if let Ok(p) = <Vec<String> as Node>::from_yaml(y) {
            return Ok(SysCtls::List(p));
        }
        match <OrderedMap<Option<SingleValue>> as Node>::from_yaml(y) {
            Ok(p) => Ok(SysCtls::Mapping(p)),
            Err(_) => Err(mismatch("a list of strings or a mapping")),
        }
    }

    fn to_yaml(&self) -> (r: Yaml) {
        match self {
            SysCtls::List(p) => p.to_yaml(),
            SysCtls::Mapping(p) => p.to_yaml(),
        }
    }
}

impl SysCtls {
    /// Whether the value holds no entries, in either form.
    pub fn is_empty(&self) -> (r: bool)
        ensures
            r == match self {
                SysCtls::List(p) => p@.len() == 0,
                SysCtls::Mapping(p) => p.entries@.len() == 0,
            },
    {
        match self {
            SysCtls::List(p) => p.len() == 0,
            SysCtls::Mapping(p) => p.is_empty(),
        }
    }
}

impl Defaulted for SysCtls {
    open spec fn is_default(&self) -> bool {
        self is List && self->List_0@.len() == 0
    }

    proof fn lemma_default_unique(a: Self, b: Self) {
        assert(a.is_default() && b.is_default());
        assert(a->List_0.equiv(b->List_0));
    }

    open spec fn empty(&self) -> bool {
        match self {
            SysCtls::List(p) => p@.len() == 0,
            SysCtls::Mapping(p) => p.entries@.len() == 0,
        }
    }

    fn default_value() -> (r: Self) {
        SysCtls::List(Vec::new())
    }

    fn is_empty(&self) -> (r: bool) {
        SysCtls::is_empty(self)
    }
}

impl Default for SysCtls {
    fn default() -> (r: Self)
        ensures
            r.is_default(),
    {
        SysCtls::List(Vec::new())
    }
}

/// Deployment settings.
#[derive(Clone, Debug, PartialEq)]
pub struct Deploy {
    /// The deployment mode.
    pub mode: Option<String>,
    /// The number of replicas.
    pub replicas: Option<i64>,
    /// Labels of the service.
    pub labels: Vec<String>,
    /// How updates roll out.
    pub update_config: Option<UpdateConfig>,
    /// Resource limits and reservations.
    pub resources: Option<Resources>,
    /// When containers restart.
    pub restart_policy: Option<RestartPolicy>,
    /// Where containers are placed.
    pub placement: Option<Placement>,
}

impl Record for Deploy {
    open spec fn is_field(k: Seq<char>) -> bool {
        k == "mode"@
            || k == "replicas"@
            || k == "labels"@
            || k == "update_config"@
            || k == "resources"@
            || k == "restart_policy"@
            || k == "placement"@
    }

    fn field(k: &str) -> (r: bool) {
        str_eq(k, "mode")
            || str_eq(k, "replicas")
            || str_eq(k, "labels")
            || str_eq(k, "update_config")
            || str_eq(k, "resources")
            || str_eq(k, "restart_policy")
            || str_eq(k, "placement")
    }
}

/// How the fields of a `Deploy` read the entries of the mapping `y`.
#[verifier::opaque]
pub open spec fn deploy_fields(v: Deploy, y: Yaml) -> bool {
    &&& keys_ok::<Deploy>(y->Mapping_0@, KeyPolicy::Strict)
    &&& opt_matches(v.mode, lookup(y->Mapping_0@, "mode"@))
    &&& opt_matches(v.replicas, lookup(y->Mapping_0@, "replicas"@))
    &&& dflt_matches(v.labels, lookup(y->Mapping_0@, "labels"@))
    &&& opt_matches(v.update_config, lookup(y->Mapping_0@, "update_config"@))
    &&& opt_matches(v.resources, lookup(y->Mapping_0@, "resources"@))
    &&& opt_matches(v.restart_policy, lookup(y->Mapping_0@, "restart_policy"@))
    &&& opt_matches(v.placement, lookup(y->Mapping_0@, "placement"@))
}

/// Every field of `a` holds the same data as that of `b`.
#[verifier::opaque]
pub open spec fn deploy_equiv(a: Deploy, b: Deploy) -> bool {
    &&& opt_equiv(a.mode, b.mode)
    &&& opt_equiv(a.replicas, b.replicas)
    &&& a.labels.equiv(b.labels)
    &&& opt_equiv(a.update_config, b.update_config)
    &&& opt_equiv(a.resources, b.resources)
    &&& opt_equiv(a.restart_policy, b.restart_policy)
    &&& opt_equiv(a.placement, b.placement)
}

/// Each field of a `Deploy` is one that writing and reading back keeps.
#[verifier::opaque]
pub open spec fn deploy_written(v: Deploy) -> bool {
    &&& opt_written(v.mode)
    &&& opt_written(v.replicas)
    &&& dflt_written(v.labels)
    &&& opt_written(v.update_config)
    &&& opt_written(v.resources)
    &&& opt_written(v.restart_policy)
    &&& opt_written(v.placement)
}

impl Node for Deploy {
    open spec fn matches(&self, y: Yaml) -> bool {
        y is Mapping && deploy_fields(*self, y)
    }

    open spec fn equiv(&self, o: Self) -> bool {
        deploy_equiv(*self, o)
    }

    proof fn lemma_unique(a: Self, b: Self, y: Yaml) {
        reveal(deploy_fields);
        reveal(deploy_equiv);
        let es = y->Mapping_0@;
        lemma_opt_unique(a.mode, b.mode, lookup(es, "mode"@));
        lemma_opt_unique(a.replicas, b.replicas, lookup(es, "replicas"@));
        lemma_dflt_unique(a.labels, b.labels, lookup(es, "labels"@));
        lemma_opt_unique(a.update_config, b.update_config, lookup(es, "update_config"@));
        lemma_opt_unique(a.resources, b.resources, lookup(es, "resources"@));
        lemma_opt_unique(a.restart_policy, b.restart_policy, lookup(es, "restart_policy"@));
        lemma_opt_unique(a.placement, b.placement, lookup(es, "placement"@));
    }

    open spec fn canonical(&self) -> bool {
        deploy_written(*self)
    }

    /// A key that is not allowed here is the error, where all keys are strings.
    fn from_yaml(y: &Yaml) -> (r: Result<Self, ParseError>)
        ensures
            y is Mapping && all_string_keys(y->Mapping_0@) && !keys_allowed::<Deploy>(
                y->Mapping_0@,
                KeyPolicy::Strict,
            ) ==> (r matches Err(ParseError::UnknownField(k)) && !Deploy::is_field(k@)),
    {
        reveal(deploy_fields);
        match y {
            Yaml::Mapping(es) => {
                if let Err(e) = check_keys::<Deploy>(es, KeyPolicy::Strict) {
                    return Err(e);
                }
                let mode = opt_field::<String>(es, "mode")?;
                let replicas = opt_field::<i64>(es, "replicas")?;
                let labels = dflt_field::<Vec<String>>(es, "labels")?;
                let update_config = opt_field::<UpdateConfig>(es, "update_config")?;
                let resources = opt_field::<Resources>(es, "resources")?;
                let restart_policy = opt_field::<RestartPolicy>(es, "restart_policy")?;
                let placement = opt_field::<Placement>(es, "placement")?;
                Ok(Deploy { mode, replicas, labels, update_config, resources, restart_policy, placement })
            },
            _ => Err(mismatch("a mapping")),
        }
    }

    fn to_yaml(&self) -> (r: Yaml)
        ensures
            r is Mapping,
            self.is_default() ==> r->Mapping_0@.len() == 0,
            (lookup(r->Mapping_0@, "mode"@) is None) == (self.mode is None),
            (lookup(r->Mapping_0@, "replicas"@) is None) == (self.replicas is None),
            (lookup(r->Mapping_0@, "labels"@) is None) == self.labels.empty(),
            (lookup(r->Mapping_0@, "update_config"@) is None) == (self.update_config is None),
            (lookup(r->Mapping_0@, "resources"@) is None) == (self.resources is None),
            (lookup(r->Mapping_0@, "restart_policy"@) is None) == (self.restart_policy is None),
            (lookup(r->Mapping_0@, "placement"@) is None) == (self.placement is None),
    {
        reveal(deploy_fields);
        reveal(deploy_written);
        let mut out: Vec<YamlEntry> = Vec::new();
        put_opt(&mut out, "mode".to_owned(), opt_yaml(&self.mode));
        put_opt(&mut out, "replicas".to_owned(), opt_yaml(&self.replicas));
        put_opt(&mut out, "labels".to_owned(), dflt_yaml(&self.labels));
        put_opt(&mut out, "update_config".to_owned(), opt_yaml(&self.update_config));
        put_opt(&mut out, "resources".to_owned(), opt_yaml(&self.resources));
        put_opt(&mut out, "restart_policy".to_owned(), opt_yaml(&self.restart_policy));
        put_opt(&mut out, "placement".to_owned(), opt_yaml(&self.placement));
        proof {
            // Each key literal apart from the others: by length, or by a character.
            reveal_strlit("mode");
            assert("mode"@.len() == 4);
            assert("mode"@[0] == 'm');
            reveal_strlit("replicas");
            assert("replicas"@.len() == 8);
            assert("replicas"@[0] == 'r');
            reveal_strlit("labels");
            assert("labels"@.len() == 6);
            assert("labels"@[0] == 'l');
            reveal_strlit("update_config");
            assert("update_config"@.len() == 13);
            assert("update_config"@[0] == 'u');
            reveal_strlit("resources");
            assert("resources"@.len() == 9);
            assert("resources"@[0] == 'r');
            reveal_strlit("restart_policy");
            assert("restart_policy"@.len() == 14);
            assert("restart_policy"@[0] == 'r');
            reveal_strlit("placement");
            assert("placement"@.len() == 9);
            assert("placement"@[0] == 'p');
            if self.canonical() {
                assert(self.matches(Yaml::Mapping(out)));
            }
        }
        Yaml::Mapping(out)
    }
}

impl Deploy {
    /// Every field holds its default.
    pub open spec fn is_default(&self) -> bool {
        &&& self.mode is None
        &&& self.replicas is None
        &&& self.labels.is_default()
        &&& self.update_config is None
        &&& self.resources is None
        &&& self.restart_policy is None
        &&& self.placement is None
    }
}

impl Default for Deploy {
    fn default() -> (r: Self)
        ensures
            r.is_default(),
    {
        Deploy {
            mode: None,
            replicas: None,
            labels: <Vec<String> as Defaulted>::default_value(),
            update_config: None,
            resources: None,
            restart_policy: None,
            placement: None,
        }
    }
}

/// How a container's health is checked.
#[derive(Clone, Debug, PartialEq)]
pub struct Healthcheck {
    /// The check run.
    pub test: Option<HealthcheckTest>,
    /// Time between checks.
    pub interval: Option<String>,
    /// Time a check may take.
    pub timeout: Option<String>,
    /// Failures before the container is unhealthy.
    pub retries: i64,
    /// Time to start up.
    pub start_period: Option<String>,
    /// Time between checks while starting.
    pub start_interval: Option<String>,
    /// Whether checking is off.
    pub disable: bool,
}

impl Record for Healthcheck {
    open spec fn is_field(k: Seq<char>) -> bool {
        k == "test"@
            || k == "interval"@
            || k == "timeout"@
            || k == "retries"@
            || k == "start_period"@
            || k == "start_interval"@
            || k == "disable"@
    }

    fn field(k: &str) -> (r: bool) {
        str_eq(k, "test")
            || str_eq(k, "interval")
            || str_eq(k, "timeout")
            || str_eq(k, "retries")
            || str_eq(k, "start_period")
            || str_eq(k, "start_interval")
            || str_eq(k, "disable")
    }
}

/// How the fields of a `Healthcheck` read the entries of the mapping `y`.
#[verifier::opaque]
pub open spec fn healthcheck_fields(v: Healthcheck, y: Yaml) -> bool {
    &&& keys_ok::<Healthcheck>(y->Mapping_0@, KeyPolicy::Strict)
    &&& opt_matches(v.test, lookup(y->Mapping_0@, "test"@))
    &&& opt_matches(v.interval, lookup(y->Mapping_0@, "interval"@))
    &&& opt_matches(v.timeout, lookup(y->Mapping_0@, "timeout"@))
    &&& dflt_matches(v.retries, lookup(y->Mapping_0@, "retries"@))
    &&& opt_matches(v.start_period, lookup(y->Mapping_0@, "start_period"@))
    &&& opt_matches(v.start_interval, lookup(y->Mapping_0@, "start_interval"@))
    &&& dflt_matches(v.disable, lookup(y->Mapping_0@, "disable"@))
}

/// Every field of `a` holds the same data as that of `b`.
#[verifier::opaque]
pub open spec fn healthcheck_equiv(a: Healthcheck, b: Healthcheck) -> bool {
    &&& opt_equiv(a.test, b.test)
    &&& opt_equiv(a.interval, b.interval)
    &&& opt_equiv(a.timeout, b.timeout)
    &&& a.retries.equiv(b.retries)
    &&& opt_equiv(a.start_period, b.start_period)
    &&& opt_equiv(a.start_interval, b.start_interval)
    &&& a.disable.equiv(b.disable)
}

/// Each field of a `Healthcheck` is one that writing and reading back keeps.
#[verifier::opaque]
pub open spec fn healthcheck_written(v: Healthcheck) -> bool {
    &&& opt_written(v.test)
    &&& opt_written(v.interval)
    &&& opt_written(v.timeout)
    &&& dflt_written(v.retries)
    &&& opt_written(v.start_period)
    &&& opt_written(v.start_interval)
    &&& dflt_written(v.disable)
}

impl Node for Healthcheck {
    open spec fn matches(&self, y: Yaml) -> bool {
        y is Mapping && healthcheck_fields(*self, y)
    }

    open spec fn equiv(&self, o: Self) -> bool {
        healthcheck_equiv(*self, o)
    }

    proof fn lemma_unique(a: Self, b: Self, y: Yaml) {
        reveal(healthcheck_fields);
        reveal(healthcheck_equiv);
        let es = y->Mapping_0@;
        lemma_opt_unique(a.test, b.test, lookup(es, "test"@));
        lemma_opt_unique(a.interval, b.interval, lookup(es, "interval"@));
        lemma_opt_unique(a.timeout, b.timeout, lookup(es, "timeout"@));
        lemma_dflt_unique(a.retries, b.retries, lookup(es, "retries"@));
        lemma_opt_unique(a.start_period, b.start_period, lookup(es, "start_period"@));
        lemma_opt_unique(a.start_interval, b.start_interval, lookup(es, "start_interval"@));
        lemma_dflt_unique(a.disable, b.disable, lookup(es, "disable"@));
    }

    open spec fn canonical(&self) -> bool {
        healthcheck_written(*self)
    }

    /// A key that is not allowed here is the error, where all keys are strings.
    fn from_yaml(y: &Yaml) -> (r: Result<Self, ParseError>)
        ensures
            y is Mapping && all_string_keys(y->Mapping_0@) && !keys_allowed::<Healthcheck>(
                y->Mapping_0@,
                KeyPolicy::Strict,
            ) ==> (r matches Err(ParseError::UnknownField(k)) && !Healthcheck::is_field(k@)),
    {
        reveal(healthcheck_fields);
        match y {
            Yaml::Mapping(es) => {
                if let Err(e) = check_keys::<Healthcheck>(es, KeyPolicy::Strict) {
                    return Err(e);
                }
                let test = opt_field::<HealthcheckTest>(es, "test")?;
                let interval = opt_field::<String>(es, "interval")?;
                let timeout = opt_field::<String>(es, "timeout")?;
                let retries = dflt_field::<i64>(es, "retries")?;
                let start_period = opt_field::<String>(es, "start_period")?;
                let start_interval = opt_field::<String>(es, "start_interval")?;
                let disable = dflt_field::<bool>(es, "disable")?;
                Ok(Healthcheck { test, interval, timeout, retries, start_period, start_interval, disable })
            },
            _ => Err(mismatch("a mapping")),
        }
    }

    fn to_yaml(&self) -> (r: Yaml)
        ensures
            r is Mapping,
            self.is_default() ==> r->Mapping_0@.len() == 0,
            (lookup(r->Mapping_0@, "test"@) is None) == (self.test is None),
            (lookup(r->Mapping_0@, "interval"@) is None) == (self.interval is None),
            (lookup(r->Mapping_0@, "timeout"@) is None) == (self.timeout is None),
            (lookup(r->Mapping_0@, "retries"@) is None) == self.retries.empty(),
            (lookup(r->Mapping_0@, "start_period"@) is None) == (self.start_period is None),
            (lookup(r->Mapping_0@, "start_interval"@) is None) == (self.start_interval is None),
            (lookup(r->Mapping_0@, "disable"@) is None) == self.disable.empty(),
    {
        reveal(healthcheck_fields);
        reveal(healthcheck_written);
        let mut out: Vec<YamlEntry> = Vec::new();
        put_opt(&mut out, "test".to_owned(), opt_yaml(&self.test));
        put_opt(&mut out, "interval".to_owned(), opt_yaml(&self.interval));
        put_opt(&mut out, "timeout".to_owned(), opt_yaml(&self.timeout));
        put_opt(&mut out, "retries".to_owned(), dflt_yaml(&self.retries));
        put_opt(&mut out, "start_period".to_owned(), opt_yaml(&self.start_period));
        put_opt(&mut out, "start_interval".to_owned(), opt_yaml(&self.start_interval));
        put_opt(&mut out, "disable".to_owned(), dflt_yaml(&self.disable));
        proof {
            // Each key literal apart from the others: by length, or by a character.
            reveal_strlit("test");
            assert("test"@.len() == 4);
            assert("test"@[0] == 't');
            reveal_strlit("interval");
            assert("interval"@.len() == 8);
            assert("interval"@[0] == 'i');
            reveal_strlit("timeout");
            assert("timeout"@.len() == 7);
            assert("timeout"@[0] == 't');
            reveal_strlit("retries");
            assert("retries"@.len() == 7);
            assert("retries"@[0] == 'r');
            reveal_strlit("start_period");
            assert("start_period"@.len() == 12);
            assert("start_period"@[0] == 's');
            reveal_strlit("start_interval");
            assert("start_interval"@.len() == 14);
            assert("start_interval"@[0] == 's');
            reveal_strlit("disable");
            assert("disable"@.len() == 7);
            assert("disable"@[0] == 'd');
            if self.canonical() {
                assert(self.matches(Yaml::Mapping(out)));
            }
        }
        Yaml::Mapping(out)
    }
}

impl Healthcheck {
    /// Every field holds its default.
    pub open spec fn is_default(&self) -> bool {
        &&& self.test is None
        &&& self.interval is None
        &&& self.timeout is None
        &&& self.retries.is_default()
        &&& self.start_period is None
        &&& self.start_interval is None
        &&& self.disable.is_default()
    }
}

impl Default for Healthcheck {
    fn default() -> (r: Self)
        ensures
            r.is_default(),
    {
        Healthcheck {
            test: None,
            interval: None,
            timeout: None,
            retries: <i64 as Defaulted>::default_value(),
            start_period: None,
            start_interval: None,
            disable: <bool as Defaulted>::default_value(),
        }
    }
}

/// A health check command: one string, or a list.
#[derive(Clone, Debug, PartialEq)]
pub enum HealthcheckTest {
    Single(String),
    Multiple(Vec<String>),
}

impl Node for HealthcheckTest {
    open spec fn equiv(&self, o: Self) -> bool {
        match self {
            HealthcheckTest::Single(p) => o is Single && p.equiv(o->Single_0),
            HealthcheckTest::Multiple(p) => o is Multiple && p.equiv(o->Multiple_0),
        }
    }

    proof fn lemma_unique(a: Self, b: Self, y: Yaml) {
        assert(a.matches(y) && b.matches(y));
        if a is Single && b is Single {
            <String as Node>::lemma_unique(a->Single_0, b->Single_0, y);
        }
        if a is Multiple && b is Multiple {
            <Vec<String> as Node>::lemma_unique(a->Multiple_0, b->Multiple_0, y);
        }
    }

    /// The first variant, in declaration order, whose payload reads the node.
    open spec fn matches(&self, y: Yaml) -> bool {
        match self {
            HealthcheckTest::Single(p) => p.matches(y),
            HealthcheckTest::Multiple(p) => p.matches(y) && (forall|q: String| !#[trigger] q.matches(y)),
        }
    }

    open spec fn canonical(&self) -> bool {
        match self {
            HealthcheckTest::Single(p) => p.canonical(),
            HealthcheckTest::Multiple(p) => p.canonical(),
        }
    }

    fn from_yaml(y: &Yaml) -> (r: Result<Self, ParseError>) {
        if let Ok(p) = <String as Node>::from_yaml(y) {
            return Ok(HealthcheckTest::Single(p));
        }
        match <Vec<String> as Node>::from_yaml(y) {
            Ok(p) => Ok(HealthcheckTest::Multiple(p)),
            Err(_) => Err(mismatch("a string or a list of strings")),
        }
    }

    fn to_yaml(&self) -> (r: Yaml) {
        match self {
            HealthcheckTest::Single(p) => p.to_yaml(),
            HealthcheckTest::Multiple(p) => p.to_yaml(),
        }
    }
}

/// Resource limits or reservations.
#[derive(Clone, Debug, PartialEq)]
pub struct Limits {
    /// CPUs.
    pub cpus: Option<String>,
    /// Memory.
    pub memory: Option<String>,
    /// Devices.
    pub devices: Option<Vec<Device>>,
}

impl Record for Limits {
    open spec fn is_field(k: Seq<char>) -> bool {
        k == "cpus"@
            || k == "memory"@
            || k == "devices"@
    }

    fn field(k: &str) -> (r: bool) {
        str_eq(k, "cpus")
            || str_eq(k, "memory")
            || str_eq(k, "devices")
    }
}

/// How the fields of a `Limits` read the entries of the mapping `y`.
#[verifier::opaque]
pub open spec fn limits_fields(v: Limits, y: Yaml) -> bool {
    &&& keys_ok::<Limits>(y->Mapping_0@, KeyPolicy::Strict)
    &&& opt_matches(v.cpus, lookup(y->Mapping_0@, "cpus"@))
    &&& opt_matches(v.memory, lookup(y->Mapping_0@, "memory"@))
    &&& opt_matches(v.devices, lookup(y->Mapping_0@, "devices"@))
}

/// Every field of `a` holds the same data as that of `b`.
#[verifier::opaque]
pub open spec fn limits_equiv(a: Limits, b: Limits) -> bool {
    &&& opt_equiv(a.cpus, b.cpus)
    &&& opt_equiv(a.memory, b.memory)
    &&& opt_equiv(a.devices, b.devices)
}

/// Each field of a `Limits` is one that writing and reading back keeps.
#[verifier::opaque]
pub open spec fn limits_written(v: Limits) -> bool {
    &&& opt_written(v.cpus)
    &&& opt_written(v.memory)
    &&& opt_written(v.devices)
}

impl Node for Limits {
    open spec fn matches(&self, y: Yaml) -> bool {
        y is Mapping && limits_fields(*self, y)
    }

    open spec fn equiv(&self, o: Self) -> bool {
        limits_equiv(*self, o)
    }

    proof fn lemma_unique(a: Self, b: Self, y: Yaml) {
        reveal(limits_fields);
        reveal(limits_equiv);
        let es = y->Mapping_0@;
        lemma_opt_unique(a.cpus, b.cpus, lookup(es, "cpus"@));
        lemma_opt_unique(a.memory, b.memory, lookup(es, "memory"@));
        lemma_opt_unique(a.devices, b.devices, lookup(es, "devices"@));
    }

    open spec fn canonical(&self) -> bool {
        limits_written(*self)
    }

    /// A key that is not allowed here is the error, where all keys are strings.
    fn from_yaml(y: &Yaml) -> (r: Result<Self, ParseError>)
        ensures
            y is Mapping && all_string_keys(y->Mapping_0@) && !keys_allowed::<Limits>(
                y->Mapping_0@,
                KeyPolicy::Strict,
            ) ==> (r matches Err(ParseError::UnknownField(k)) && !Limits::is_field(k@)),
    {
        reveal(limits_fields);
        match y {
            Yaml::Mapping(es) => {
                if let Err(e) = check_keys::<Limits>(es, KeyPolicy::Strict) {
                    return Err(e);
                }
                let cpus = opt_field::<String>(es, "cpus")?;
                let memory = opt_field::<String>(es, "memory")?;
                let devices = opt_field::<Vec<Device>>(es, "devices")?;
                Ok(Limits { cpus, memory, devices })
            },
            _ => Err(mismatch("a mapping")),
        }
    }

    fn to_yaml(&self) -> (r: Yaml)
        ensures
            r is Mapping,
            self.is_default() ==> r->Mapping_0@.len() == 0,
            (lookup(r->Mapping_0@, "cpus"@) is None) == (self.cpus is None),
            (lookup(r->Mapping_0@, "memory"@) is None) == (self.memory is None),
            (lookup(r->Mapping_0@, "devices"@) is None) == (self.devices is None),
    {
        reveal(limits_fields);
        reveal(limits_written);
        let mut out: Vec<YamlEntry> = Vec::new();
        put_opt(&mut out, "cpus".to_owned(), opt_yaml(&self.cpus));
        put_opt(&mut out, "memory".to_owned(), opt_yaml(&self.memory));
        put_opt(&mut out, "devices".to_owned(), opt_yaml(&self.devices));
        proof {
            // Each key literal apart from the others: by length, or by a character.
            reveal_strlit("cpus");
            assert("cpus"@.len() == 4);
            assert("cpus"@[0] == 'c');
            reveal_strlit("memory");
            assert("memory"@.len() == 6);
            assert("memory"@[0] == 'm');
            reveal_strlit("devices");
            assert("devices"@.len() == 7);
            assert("devices"@[0] == 'd');
            if self.canonical() {
                assert(self.matches(Yaml::Mapping(out)));
            }
        }
        Yaml::Mapping(out)
    }
}

impl Limits {
    /// Every field holds its default.
    pub open spec fn is_default(&self) -> bool {
        &&& self.cpus is None
        &&& self.memory is None
        &&& self.devices is None
    }
}

impl Default for Limits {
    fn default() -> (r: Self)
        ensures
            r.is_default(),
    {
        Limits {
            cpus: None,
            memory: None,
            devices: None,
        }
    }
}

/// A device reservation.
#[derive(Clone, Debug, PartialEq)]
pub struct Device {
    /// The device driver.
    pub driver: Option<String>,
    /// How many devices.
    pub count: Option<u32>,
    /// Which devices.
    pub device_ids: Option<Vec<String>>,
    /// Capabilities required.
    pub capabilities: Option<Vec<String>>,
    /// Driver options.
    pub options: Option<OrderedMap<Yaml>>,
}

impl Record for Device {
    open spec fn is_field(k: Seq<char>) -> bool {
        k == "driver"@
            || k == "count"@
            || k == "device_ids"@
            || k == "capabilities"@
            || k == "options"@
    }

    fn field(k: &str) -> (r: bool) {
        str_eq(k, "driver")
            || str_eq(k, "count")
            || str_eq(k, "device_ids")
            || str_eq(k, "capabilities")
            || str_eq(k, "options")
    }
}

/// How the fields of a `Device` read the entries of the mapping `y`.
#[verifier::opaque]
pub open spec fn device_fields(v: Device, y: Yaml) -> bool {
    &&& keys_ok::<Device>(y->Mapping_0@, KeyPolicy::Strict)
    &&& opt_matches(v.driver, lookup(y->Mapping_0@, "driver"@))
    &&& opt_matches(v.count, lookup(y->Mapping_0@, "count"@))
    &&& opt_matches(v.device_ids, lookup(y->Mapping_0@, "device_ids"@))
    &&& opt_matches(v.capabilities, lookup(y->Mapping_0@, "capabilities"@))
    &&& opt_matches(v.options, lookup(y->Mapping_0@, "options"@))
}

/// Every field of `a` holds the same data as that of `b`.
#[verifier::opaque]
pub open spec fn device_equiv(a: Device, b: Device) -> bool {
    &&& opt_equiv(a.driver, b.driver)
    &&& opt_equiv(a.count, b.count)
    &&& opt_equiv(a.device_ids, b.device_ids)
    &&& opt_equiv(a.capabilities, b.capabilities)
    &&& opt_equiv(a.options, b.options)
}

/// Each field of a `Device` is one that writing and reading back keeps.
#[verifier::opaque]
pub open spec fn device_written(v: Device) -> bool {
    &&& opt_written(v.driver)
    &&& opt_written(v.count)
    &&& opt_written(v.device_ids)
    &&& opt_written(v.capabilities)
    &&& opt_written(v.options)
}

impl Node for Device {
    open spec fn matches(&self, y: Yaml) -> bool {
        y is Mapping && device_fields(*self, y)
    }

    open spec fn equiv(&self, o: Self) -> bool {
        device_equiv(*self, o)
    }

    proof fn lemma_unique(a: Self, b: Self, y: Yaml) {
        reveal(device_fields);
        reveal(device_equiv);
        let es = y->Mapping_0@;
        lemma_opt_unique(a.driver, b.driver, lookup(es, "driver"@));
        lemma_opt_unique(a.count, b.count, lookup(es, "count"@));
        lemma_opt_unique(a.device_ids, b.device_ids, lookup(es, "device_ids"@));
        lemma_opt_unique(a.capabilities, b.capabilities, lookup(es, "capabilities"@));
        lemma_opt_unique(a.options, b.options, lookup(es, "options"@));
    }

    open spec fn canonical(&self) -> bool {
        device_written(*self)
    }

    /// A key that is not allowed here is the error, where all keys are strings.
    fn from_yaml(y: &Yaml) -> (r: Result<Self, ParseError>)
        ensures
            y is Mapping && all_string_keys(y->Mapping_0@) && !keys_allowed::<Device>(
                y->Mapping_0@,
                KeyPolicy::Strict,
            ) ==> (r matches Err(ParseError::UnknownField(k)) && !Device::is_field(k@)),
    {
        reveal(device_fields);
        match y {
            Yaml::Mapping(es) => {
                if let Err(e) = check_keys::<Device>(es, KeyPolicy::Strict) {
                    return Err(e);
                }
                let driver = opt_field::<String>(es, "driver")?;
                let count = opt_field::<u32>(es, "count")?;
                let device_ids = opt_field::<Vec<String>>(es, "device_ids")?;
                let capabilities = opt_field::<Vec<String>>(es, "capabilities")?;
                let options = opt_field::<OrderedMap<Yaml>>(es, "options")?;
                Ok(Device { driver, count, device_ids, capabilities, options })
            },
            _ => Err(mismatch("a mapping")),
        }
    }

    fn to_yaml(&self) -> (r: Yaml)
        ensures
            r is Mapping,
            self.is_default() ==> r->Mapping_0@.len() == 0,
            (lookup(r->Mapping_0@, "driver"@) is None) == (self.driver is None),
            (lookup(r->Mapping_0@, "count"@) is None) == (self.count is None),
            (lookup(r->Mapping_0@, "device_ids"@) is None) == (self.device_ids is None),
            (lookup(r->Mapping_0@, "capabilities"@) is None) == (self.capabilities is None),
            (lookup(r->Mapping_0@, "options"@) is None) == (self.options is None),
    {
        reveal(device_fields);
        reveal(device_written);
        let mut out: Vec<YamlEntry> = Vec::new();
        put_opt(&mut out, "driver".to_owned(), opt_yaml(&self.driver));
        put_opt(&mut out, "count".to_owned(), opt_yaml(&self.count));
        put_opt(&mut out, "device_ids".to_owned(), opt_yaml(&self.device_ids));
        put_opt(&mut out, "capabilities".to_owned(), opt_yaml(&self.capabilities));
        put_opt(&mut out, "options".to_owned(), opt_yaml(&self.options));
        proof {
            // Each key literal apart from the others: by length, or by a character.
            reveal_strlit("driver");
            assert("driver"@.len() == 6);
            assert("driver"@[0] == 'd');
            reveal_strlit("count");
            assert("count"@.len() == 5);
            assert("count"@[0] == 'c');
            reveal_strlit("device_ids");
            assert("device_ids"@.len() == 10);
            assert("device_ids"@[0] == 'd');
            reveal_strlit("capabilities");
            assert("capabilities"@.len() == 12);
            assert("capabilities"@[0] == 'c');
            reveal_strlit("options");
            assert("options"@.len() == 7);
            assert("options"@[0] == 'o');
            if self.canonical() {
                assert(self.matches(Yaml::Mapping(out)));
            }
        }
        Yaml::Mapping(out)
    }
}

impl Device {
    /// Every field holds its default.
    pub open spec fn is_default(&self) -> bool {
        &&& self.driver is None
        &&& self.count is None
        &&& self.device_ids is None
        &&& self.capabilities is None
        &&& self.options is None
    }
}

impl Default for Device {
    fn default() -> (r: Self)
        ensures
            r.is_default(),
    {
        Device {
            driver: None,
            count: None,
            device_ids: None,
            capabilities: None,
            options: None,
        }
    }
}

/// Where containers are placed.
#[derive(Clone, Debug, PartialEq)]
pub struct Placement {
    /// Placement constraints.
    pub constraints: Vec<String>,
    /// Placement preferences.
    pub preferences: Vec<Preferences>,
}

impl Record for Placement {
    open spec fn is_field(k: Seq<char>) -> bool {
        k == "constraints"@
            || k == "preferences"@
    }

    fn field(k: &str) -> (r: bool) {
        str_eq(k, "constraints")
            || str_eq(k, "preferences")
    }
}

/// How the fields of a `Placement` read the entries of the mapping `y`.
#[verifier::opaque]
pub open spec fn placement_fields(v: Placement, y: Yaml) -> bool {
    &&& keys_ok::<Placement>(y->Mapping_0@, KeyPolicy::Strict)
    &&& dflt_matches(v.constraints, lookup(y->Mapping_0@, "constraints"@))
    &&& dflt_matches(v.preferences, lookup(y->Mapping_0@, "preferences"@))
}

/// Every field of `a` holds the same data as that of `b`.
#[verifier::opaque]
pub open spec fn placement_equiv(a: Placement, b: Placement) -> bool {
    &&& a.constraints.equiv(b.constraints)
    &&& a.preferences.equiv(b.preferences)
}

/// Each field of a `Placement` is one that writing and reading back keeps.
#[verifier::opaque]
pub open spec fn placement_written(v: Placement) -> bool {
    &&& dflt_written(v.constraints)
    &&& dflt_written(v.preferences)
}

impl Node for Placement {
    open spec fn matches(&self, y: Yaml) -> bool {
        y is Mapping && placement_fields(*self, y)
    }

    open spec fn equiv(&self, o: Self) -> bool {
        placement_equiv(*self, o)
    }

    proof fn lemma_unique(a: Self, b: Self, y: Yaml) {
        reveal(placement_fields);
        reveal(placement_equiv);
        let es = y->Mapping_0@;
        lemma_dflt_unique(a.constraints, b.constraints, lookup(es, "constraints"@));
        lemma_dflt_unique(a.preferences, b.preferences, lookup(es, "preferences"@));
    }

    open spec fn canonical(&self) -> bool {
        placement_written(*self)
    }

    /// A key that is not allowed here is the error, where all keys are strings.
    fn from_yaml(y: &Yaml) -> (r: Result<Self, ParseError>)
        ensures
            y is Mapping && all_string_keys(y->Mapping_0@) && !keys_allowed::<Placement>(
                y->Mapping_0@,
                KeyPolicy::Strict,
            ) ==> (r matches Err(ParseError::UnknownField(k)) && !Placement::is_field(k@)),
    {
        reveal(placement_fields);
        match y {
            Yaml::Mapping(es) => {
                if let Err(e) = check_keys::<Placement>(es, KeyPolicy::Strict) {
                    return Err(e);
                }
                let constraints = dflt_field::<Vec<String>>(es, "constraints")?;
                let preferences = dflt_field::<Vec<Preferences>>(es, "preferences")?;
                Ok(Placement { constraints, preferences })
            },
            _ => Err(mismatch("a mapping")),
        }
    }

    fn to_yaml(&self) -> (r: Yaml)
        ensures
            r is Mapping,
            self.is_default() ==> r->Mapping_0@.len() == 0,
            (lookup(r->Mapping_0@, "constraints"@) is None) == self.constraints.empty(),
            (lookup(r->Mapping_0@, "preferences"@) is None) == self.preferences.empty(),
    {
        reveal(placement_fields);
        reveal(placement_written);
        let mut out: Vec<YamlEntry> = Vec::new();
        put_opt(&mut out, "constraints".to_owned(), dflt_yaml(&self.constraints));
        put_opt(&mut out, "preferences".to_owned(), dflt_yaml(&self.preferences));
        proof {
            // Each key literal apart from the others: by length, or by a character.
            reveal_strlit("constraints");
            assert("constraints"@.len() == 11);
            assert("constraints"@[0] == 'c');
            reveal_strlit("preferences");
            assert("preferences"@.len() == 11);
            assert("preferences"@[0] == 'p');
            if self.canonical() {
                assert(self.matches(Yaml::Mapping(out)));
            }
        }
        Yaml::Mapping(out)
    }
}

impl Placement {
    /// Every field holds its default.
    pub open spec fn is_default(&self) -> bool {
        &&& self.constraints.is_default()
        &&& self.preferences.is_default()
    }
}

impl Default for Placement {
    fn default() -> (r: Self)
        ensures
            r.is_default(),
    {
        Placement {
            constraints: <Vec<String> as Defaulted>::default_value(),
            preferences: <Vec<Preferences> as Defaulted>::default_value(),
        }
    }
}

/// A placement preference.
#[derive(Clone, Debug, PartialEq)]
pub struct Preferences {
    /// The label to spread over.
    pub spread: String,
}

impl Record for Preferences {
    open spec fn is_field(k: Seq<char>) -> bool {
        k == "spread"@
    }

    fn field(k: &str) -> (r: bool) {
        str_eq(k, "spread")
    }
}

/// How the fields of a `Preferences` read the entries of the mapping `y`.
#[verifier::opaque]
pub open spec fn preferences_fields(v: Preferences, y: Yaml) -> bool {
    &&& keys_ok::<Preferences>(y->Mapping_0@, KeyPolicy::Strict)
    &&& req_matches(v.spread, lookup(y->Mapping_0@, "spread"@))
}

/// Every field of `a` holds the same data as that of `b`.
#[verifier::opaque]
pub open spec fn preferences_equiv(a: Preferences, b: Preferences) -> bool {
    &&& a.spread.equiv(b.spread)
}

/// Each field of a `Preferences` is one that writing and reading back keeps.
#[verifier::opaque]
pub open spec fn preferences_written(v: Preferences) -> bool {
    &&& v.spread.canonical()
}

impl Node for Preferences {
    open spec fn matches(&self, y: Yaml) -> bool {
        y is Mapping && preferences_fields(*self, y)
    }

    open spec fn equiv(&self, o: Self) -> bool {
        preferences_equiv(*self, o)
    }

    proof fn lemma_unique(a: Self, b: Self, y: Yaml) {
        reveal(preferences_fields);
        reveal(preferences_equiv);
        let es = y->Mapping_0@;
        lemma_req_unique(a.spread, b.spread, lookup(es, "spread"@));
    }

    open spec fn canonical(&self) -> bool {
        preferences_written(*self)
    }

    /// A key that is not allowed here is the error, where all keys are strings.
    fn from_yaml(y: &Yaml) -> (r: Result<Self, ParseError>)
        ensures
            y is Mapping && all_string_keys(y->Mapping_0@) && !keys_allowed::<Preferences>(
                y->Mapping_0@,
                KeyPolicy::Strict,
            ) ==> (r matches Err(ParseError::UnknownField(k)) && !Preferences::is_field(k@)),
    {
        reveal(preferences_fields);
        match y {
            Yaml::Mapping(es) => {
                if let Err(e) = check_keys::<Preferences>(es, KeyPolicy::Strict) {
                    return Err(e);
                }
                let spread = req_field::<String>(es, "spread")?;
                Ok(Preferences { spread })
            },
            _ => Err(mismatch("a mapping")),
        }
    }

    fn to_yaml(&self) -> (r: Yaml)
        ensures
            r is Mapping,
            lookup(r->Mapping_0@, "spread"@) is Some,
    {
        reveal(preferences_fields);
        reveal(preferences_written);
        let mut out: Vec<YamlEntry> = Vec::new();
        put_opt(&mut out, "spread".to_owned(), Some(self.spread.to_yaml()));
        proof {
            // Each key literal apart from the others: by length, or by a character.
            reveal_strlit("spread");
            assert("spread"@.len() == 6);
            assert("spread"@[0] == 's');
            if self.canonical() {
                assert(self.matches(Yaml::Mapping(out)));
            }
        }
        Yaml::Mapping(out)
    }
}

/// Resource limits and reservations.
#[derive(Clone, Debug, PartialEq)]
pub struct Resources {
    /// Upper limits.
    pub limits: Option<Limits>,
    /// Reservations.
    pub reservations: Option<Limits>,
}

impl Record for Resources {
    open spec fn is_field(k: Seq<char>) -> bool {
        k == "limits"@
            || k == "reservations"@
    }

    fn field(k: &str) -> (r: bool) {
        str_eq(k, "limits")
            || str_eq(k, "reservations")
    }
}

/// How the fields of a `Resources` read the entries of the mapping `y`.
#[verifier::opaque]
pub open spec fn resources_fields(v: Resources, y: Yaml) -> bool {
    &&& keys_ok::<Resources>(y->Mapping_0@, KeyPolicy::Strict)
    &&& opt_matches(v.limits, lookup(y->Mapping_0@, "limits"@))
    &&& opt_matches(v.reservations, lookup(y->Mapping_0@, "reservations"@))
}

/// Every field of `a` holds the same data as that of `b`.
#[verifier::opaque]
pub open spec fn resources_equiv(a: Resources, b: Resources) -> bool {
    &&& opt_equiv(a.limits, b.limits)
    &&& opt_equiv(a.reservations, b.reservations)
}

/// Each field of a `Resources` is one that writing and reading back keeps.
#[verifier::opaque]
pub open spec fn resources_written(v: Resources) -> bool {
    &&& opt_written(v.limits)
    &&& opt_written(v.reservations)
}

impl Node for Resources {
    open spec fn matches(&self, y: Yaml) -> bool {
        y is Mapping && resources_fields(*self, y)
    }

    open spec fn equiv(&self, o: Self) -> bool {
        resources_equiv(*self, o)
    }

    proof fn lemma_unique(a: Self, b: Self, y: Yaml) {
        reveal(resources_fields);
        reveal(resources_equiv);
        let es = y->Mapping_0@;
        lemma_opt_unique(a.limits, b.limits, lookup(es, "limits"@));
        lemma_opt_unique(a.reservations, b.reservations, lookup(es, "reservations"@));
    }

    open spec fn canonical(&self) -> bool {
        resources_written(*self)
    }

    /// A key that is not allowed here is the error, where all keys are strings.
    fn from_yaml(y: &Yaml) -> (r: Result<Self, ParseError>)
        ensures
            y is Mapping && all_string_keys(y->Mapping_0@) && !keys_allowed::<Resources>(
                y->Mapping_0@,
                KeyPolicy::Strict,
            ) ==> (r matches Err(ParseError::UnknownField(k)) && !Resources::is_field(k@)),
    {
        reveal(resources_fields);
        match y {
            Yaml::Mapping(es) => {
                if let Err(e) = check_keys::<Resources>(es, KeyPolicy::Strict) {
                    return Err(e);
                }
                let limits = opt_field::<Limits>(es, "limits")?;
                let reservations = opt_field::<Limits>(es, "reservations")?;
                Ok(Resources { limits, reservations })
            },
            _ => Err(mismatch("a mapping")),
        }
    }

    fn to_yaml(&self) -> (r: Yaml)
        ensures
            r is Mapping,
            self.is_default() ==> r->Mapping_0@.len() == 0,
            (lookup(r->Mapping_0@, "limits"@) is None) == (self.limits is None),
            (lookup(r->Mapping_0@, "reservations"@) is None) == (self.reservations is None),
    {
        reveal(resources_fields);
        reveal(resources_written);
        let mut out: Vec<YamlEntry> = Vec::new();
        put_opt(&mut out, "limits".to_owned(), opt_yaml(&self.limits));
        put_opt(&mut out, "reservations".to_owned(), opt_yaml(&self.reservations));
        proof {
            // Each key literal apart from the others: by length, or by a character.
            reveal_strlit("limits");
            assert("limits"@.len() == 6);
            assert("limits"@[0] == 'l');
            reveal_strlit("reservations");
            assert("reservations"@.len() == 12);
            assert("reservations"@[0] == 'r');
            if self.canonical() {
                assert(self.matches(Yaml::Mapping(out)));
            }
        }
        Yaml::Mapping(out)
    }
}

impl Resources {
    /// Every field holds its default.
    pub open spec fn is_default(&self) -> bool {
        &&& self.limits is None
        &&& self.reservations is None
    }
}

impl Default for Resources {
    fn default() -> (r: Self)
        ensures
            r.is_default(),
    {
        Resources {
            limits: None,
            reservations: None,
        }
    }
}

/// When containers restart.
#[derive(Clone, Debug, PartialEq)]
pub struct RestartPolicy {
    /// When to restart.
    pub condition: Option<String>,
    /// Time between attempts.
    pub delay: Option<String>,
    /// Attempts before giving up.
    pub max_attempts: Option<i64>,
    /// Time to decide whether a restart worked.
    pub window: Option<String>,
}

impl Record for RestartPolicy {
    open spec fn is_field(k: Seq<char>) -> bool {
        k == "condition"@
            || k == "delay"@
            || k == "max_attempts"@
            || k == "window"@
    }

    fn field(k: &str) -> (r: bool) {
        str_eq(k, "condition")
            || str_eq(k, "delay")
            || str_eq(k, "max_attempts")
            || str_eq(k, "window")
    }
}

/// How the fields of a `RestartPolicy` read the entries of the mapping `y`.
#[verifier::opaque]
pub open spec fn restart_policy_fields(v: RestartPolicy, y: Yaml) -> bool {
    &&& keys_ok::<RestartPolicy>(y->Mapping_0@, KeyPolicy::Strict)
    &&& opt_matches(v.condition, lookup(y->Mapping_0@, "condition"@))
    &&& opt_matches(v.delay, lookup(y->Mapping_0@, "delay"@))
    &&& opt_matches(v.max_attempts, lookup(y->Mapping_0@, "max_attempts"@))
    &&& opt_matches(v.window, lookup(y->Mapping_0@, "window"@))
}

/// Every field of `a` holds the same data as that of `b`.
#[verifier::opaque]
pub open spec fn restart_policy_equiv(a: RestartPolicy, b: RestartPolicy) -> bool {
    &&& opt_equiv(a.condition, b.condition)
    &&& opt_equiv(a.delay, b.delay)
    &&& opt_equiv(a.max_attempts, b.max_attempts)
    &&& opt_equiv(a.window, b.window)
}

/// Each field of a `RestartPolicy` is one that writing and reading back keeps.
#[verifier::opaque]
pub open spec fn restart_policy_written(v: RestartPolicy) -> bool {
    &&& opt_written(v.condition)
    &&& opt_written(v.delay)
    &&& opt_written(v.max_attempts)
    &&& opt_written(v.window)
}

impl Node for RestartPolicy {
    open spec fn matches(&self, y: Yaml) -> bool {
        y is Mapping && restart_policy_fields(*self, y)
    }

    open spec fn equiv(&self, o: Self) -> bool {
        restart_policy_equiv(*self, o)
    }

    proof fn lemma_unique(a: Self, b: Self, y: Yaml) {
        reveal(restart_policy_fields);
        reveal(restart_policy_equiv);
        let es = y->Mapping_0@;
        lemma_opt_unique(a.condition, b.condition, lookup(es, "condition"@));
        lemma_opt_unique(a.delay, b.delay, lookup(es, "delay"@));
        lemma_opt_unique(a.max_attempts, b.max_attempts, lookup(es, "max_attempts"@));
        lemma_opt_unique(a.window, b.window, lookup(es, "window"@));
    }

    open spec fn canonical(&self) -> bool {
        restart_policy_written(*self)
    }

    /// A key that is not allowed here is the error, where all keys are strings.
    fn from_yaml(y: &Yaml) -> (r: Result<Self, ParseError>)
        ensures
            y is Mapping && all_string_keys(y->Mapping_0@) && !keys_allowed::<RestartPolicy>(
                y->Mapping_0@,
                KeyPolicy::Strict,
            ) ==> (r matches Err(ParseError::UnknownField(k)) && !RestartPolicy::is_field(k@)),
    {
        reveal(restart_policy_fields);
        match y {
            Yaml::Mapping(es) => {
                if let Err(e) = check_keys::<RestartPolicy>(es, KeyPolicy::Strict) {
                    return Err(e);
                }
                let condition = opt_field::<String>(es, "condition")?;
                let delay = opt_field::<String>(es, "delay")?;
                let max_attempts = opt_field::<i64>(es, "max_attempts")?;
                let window = opt_field::<String>(es, "window")?;
                Ok(RestartPolicy { condition, delay, max_attempts, window })
            },
            _ => Err(mismatch("a mapping")),
        }
    }

    fn to_yaml(&self) -> (r: Yaml)
        ensures
            r is Mapping,
            self.is_default() ==> r->Mapping_0@.len() == 0,
            (lookup(r->Mapping_0@, "condition"@) is None) == (self.condition is None),
            (lookup(r->Mapping_0@, "delay"@) is None) == (self.delay is None),
            (lookup(r->Mapping_0@, "max_attempts"@) is None) == (self.max_attempts is None),
            (lookup(r->Mapping_0@, "window"@) is None) == (self.window is None),
    {
        reveal(restart_policy_fields);
        reveal(restart_policy_written);
        let mut out: Vec<YamlEntry> = Vec::new();
        put_opt(&mut out, "condition".to_owned(), opt_yaml(&self.condition));
        put_opt(&mut out, "delay".to_owned(), opt_yaml(&self.delay));
        put_opt(&mut out, "max_attempts".to_owned(), opt_yaml(&self.max_attempts));
        put_opt(&mut out, "window".to_owned(), opt_yaml(&self.window));
        proof {
            // Each key literal apart from the others: by length, or by a character.
            reveal_strlit("condition");
            assert("condition"@.len() == 9);
            assert("condition"@[0] == 'c');
            reveal_strlit("delay");
            assert("delay"@.len() == 5);
            assert("delay"@[0] == 'd');
            reveal_strlit("max_attempts");
            assert("max_attempts"@.len() == 12);
            assert("max_attempts"@[0] == 'm');
            reveal_strlit("window");
            assert("window"@.len() == 6);
            assert("window"@[0] == 'w');
            if self.canonical() {
                assert(self.matches(Yaml::Mapping(out)));
            }
        }
        Yaml::Mapping(out)
    }
}

impl RestartPolicy {
    /// Every field holds its default.
    pub open spec fn is_default(&self) -> bool {
        &&& self.condition is None
        &&& self.delay is None
        &&& self.max_attempts is None
        &&& self.window is None
    }
}

impl Default for RestartPolicy {
    fn default() -> (r: Self)
        ensures
            r.is_default(),
    {
        RestartPolicy {
            condition: None,
            delay: None,
            max_attempts: None,
            window: None,
        }
    }
}

/// How updates roll out.
#[derive(Clone, Debug, PartialEq)]
pub struct UpdateConfig {
    /// Containers updated at a time.
    pub parallelism: Option<i64>,
    /// Time between updates.
    pub delay: Option<String>,
    /// What to do when an update fails.
    pub failure_action: Option<String>,
    /// Time to watch for failure.
    pub monitor: Option<String>,
    /// Failure rate tolerated.
    pub max_failure_ratio: Option<Number>,
}

impl Record for UpdateConfig {
    open spec fn is_field(k: Seq<char>) -> bool {
        k == "parallelism"@
            || k == "delay"@
            || k == "failure_action"@
            || k == "monitor"@
            || k == "max_failure_ratio"@
    }

    fn field(k: &str) -> (r: bool) {
        str_eq(k, "parallelism")
            || str_eq(k, "delay")
            || str_eq(k, "failure_action")
            || str_eq(k, "monitor")
            || str_eq(k, "max_failure_ratio")
    }
}

/// How the fields of a `UpdateConfig` read the entries of the mapping `y`.
#[verifier::opaque]
pub open spec fn update_config_fields(v: UpdateConfig, y: Yaml) -> bool {
    &&& keys_ok::<UpdateConfig>(y->Mapping_0@, KeyPolicy::Strict)
    &&& opt_matches(v.parallelism, lookup(y->Mapping_0@, "parallelism"@))
    &&& opt_matches(v.delay, lookup(y->Mapping_0@, "delay"@))
    &&& opt_matches(v.failure_action, lookup(y->Mapping_0@, "failure_action"@))
    &&& opt_matches(v.monitor, lookup(y->Mapping_0@, "monitor"@))
    &&& opt_matches(v.max_failure_ratio, lookup(y->Mapping_0@, "max_failure_ratio"@))
}

/// Every field of `a` holds the same data as that of `b`.
#[verifier::opaque]
pub open spec fn update_config_equiv(a: UpdateConfig, b: UpdateConfig) -> bool {
    &&& opt_equiv(a.parallelism, b.parallelism)
    &&& opt_equiv(a.delay, b.delay)
    &&& opt_equiv(a.failure_action, b.failure_action)
    &&& opt_equiv(a.monitor, b.monitor)
    &&& opt_equiv(a.max_failure_ratio, b.max_failure_ratio)
}

/// Each field of a `UpdateConfig` is one that writing and reading back keeps.
#[verifier::opaque]
pub open spec fn update_config_written(v: UpdateConfig) -> bool {
    &&& opt_written(v.parallelism)
    &&& opt_written(v.delay)
    &&& opt_written(v.failure_action)
    &&& opt_written(v.monitor)
    &&& opt_written(v.max_failure_ratio)
}

impl Node for UpdateConfig {
    open spec fn matches(&self, y: Yaml) -> bool {
        y is Mapping && update_config_fields(*self, y)
    }

    open spec fn equiv(&self, o: Self) -> bool {
        update_config_equiv(*self, o)
    }

    proof fn lemma_unique(a: Self, b: Self, y: Yaml) {
        reveal(update_config_fields);
        reveal(update_config_equiv);
        let es = y->Mapping_0@;
        lemma_opt_unique(a.parallelism, b.parallelism, lookup(es, "parallelism"@));
        lemma_opt_unique(a.delay, b.delay, lookup(es, "delay"@));
        lemma_opt_unique(a.failure_action, b.failure_action, lookup(es, "failure_action"@));
        lemma_opt_unique(a.monitor, b.monitor, lookup(es, "monitor"@));
        lemma_opt_unique(a.max_failure_ratio, b.max_failure_ratio, lookup(es, "max_failure_ratio"@));
    }

    open spec fn canonical(&self) -> bool {
        update_config_written(*self)
    }

    /// A key that is not allowed here is the error, where all keys are strings.
    fn from_yaml(y: &Yaml) -> (r: Result<Self, ParseError>)
        ensures
            y is Mapping && all_string_keys(y->Mapping_0@) && !keys_allowed::<UpdateConfig>(
                y->Mapping_0@,
                KeyPolicy::Strict,
            ) ==> (r matches Err(ParseError::UnknownField(k)) && !UpdateConfig::is_field(k@)),
    {
        reveal(update_config_fields);
        match y {
            Yaml::Mapping(es) => {
                if let Err(e) = check_keys::<UpdateConfig>(es, KeyPolicy::Strict) {
                    return Err(e);
                }
                let parallelism = opt_field::<i64>(es, "parallelism")?;
                let delay = opt_field::<String>(es, "delay")?;
                let failure_action = opt_field::<String>(es, "failure_action")?;
                let monitor = opt_field::<String>(es, "monitor")?;
                let max_failure_ratio = opt_field::<Number>(es, "max_failure_ratio")?;
                Ok(UpdateConfig { parallelism, delay, failure_action, monitor, max_failure_ratio })
            },
            _ => Err(mismatch("a mapping")),
        }
    }

    fn to_yaml(&self) -> (r: Yaml)
        ensures
            r is Mapping,
            self.is_default() ==> r->Mapping_0@.len() == 0,
            (lookup(r->Mapping_0@, "parallelism"@) is None) == (self.parallelism is None),
            (lookup(r->Mapping_0@, "delay"@) is None) == (self.delay is None),
            (lookup(r->Mapping_0@, "failure_action"@) is None) == (self.failure_action is None),
            (lookup(r->Mapping_0@, "monitor"@) is None) == (self.monitor is None),
            (lookup(r->Mapping_0@, "max_failure_ratio"@) is None) == (self.max_failure_ratio is None),
    {
        reveal(update_config_fields);
        reveal(update_config_written);
        let mut out: Vec<YamlEntry> = Vec::new();
        put_opt(&mut out, "parallelism".to_owned(), opt_yaml(&self.parallelism));
        put_opt(&mut out, "delay".to_owned(), opt_yaml(&self.delay));
        put_opt(&mut out, "failure_action".to_owned(), opt_yaml(&self.failure_action));
        put_opt(&mut out, "monitor".to_owned(), opt_yaml(&self.monitor));
        put_opt(&mut out, "max_failure_ratio".to_owned(), opt_yaml(&self.max_failure_ratio));
        proof {
            // Each key literal apart from the others: by length, or by a character.
            reveal_strlit("parallelism");
            assert("parallelism"@.len() == 11);
            assert("parallelism"@[0] == 'p');
            reveal_strlit("delay");
            assert("delay"@.len() == 5);
            assert("delay"@[0] == 'd');
            reveal_strlit("failure_action");
            assert("failure_action"@.len() == 14);
            assert("failure_action"@[0] == 'f');
            reveal_strlit("monitor");
            assert("monitor"@.len() == 7);
            assert("monitor"@[0] == 'm');
            reveal_strlit("max_failure_ratio");
            assert("max_failure_ratio"@.len() == 17);
            assert("max_failure_ratio"@[0] == 'm');
            if self.canonical() {
                assert(self.matches(Yaml::Mapping(out)));
            }
        }
        Yaml::Mapping(out)
    }
}

impl UpdateConfig {
    /// Every field holds its default.
    pub open spec fn is_default(&self) -> bool {
        &&& self.parallelism is None
        &&& self.delay is None
        &&& self.failure_action is None
        &&& self.monitor is None
        &&& self.max_failure_ratio is None
    }
}

impl Default for UpdateConfig {
    fn default() -> (r: Self)
        ensures
            r.is_default(),
    {
        UpdateConfig {
            parallelism: None,
            delay: None,
            failure_action: None,
            monitor: None,
            max_failure_ratio: None,
        }
    }
}

/// A command: one string, or its arguments.
#[derive(Clone, Debug, PartialEq)]
pub enum Command {
    Simple(String),
    Args(Vec<String>),
}

impl Node for Command {
    open spec fn equiv(&self, o: Self) -> bool {
        match self {
            Command::Simple(p) => o is Simple && p.equiv(o->Simple_0),
            Command::Args(p) => o is Args && p.equiv(o->Args_0),
        }
    }

    proof fn lemma_unique(a: Self, b: Self, y: Yaml) {
        assert(a.matches(y) && b.matches(y));
        if a is Simple && b is Simple {
            <String as Node>::lemma_unique(a->Simple_0, b->Simple_0, y);
        }
        if a is Args && b is Args {
            <Vec<String> as Node>::lemma_unique(a->Args_0, b->Args_0, y);
        }
    }

    /// The first variant, in declaration order, whose payload reads the node.
    open spec fn matches(&self, y: Yaml) -> bool {
        match self {
            Command::Simple(p) => p.matches(y),
            Command::Args(p) => p.matches(y) && (forall|q: String| !#[trigger] q.matches(y)),
        }
    }

    open spec fn canonical(&self) -> bool {
        match self {
            Command::Simple(p) => p.canonical(),
            Command::Args(p) => p.canonical(),
        }
    }

    fn from_yaml(y: &Yaml) -> (r: Result<Self, ParseError>) {
        if let Ok(p) = <String as Node>::from_yaml(y) {
            return Ok(Command::Simple(p));
        }
        match <Vec<String> as Node>::from_yaml(y) {
            Ok(p) => Ok(Command::Args(p)),
            Err(_) => Err(mismatch("a string or a list of strings")),
        }
    }

    fn to_yaml(&self) -> (r: Yaml) {
        match self {
            Command::Simple(p) => p.to_yaml(),
            Command::Args(p) => p.to_yaml(),
        }
    }
}

/// An entrypoint: one string, or a list.
#[derive(Clone, Debug, PartialEq)]
pub enum Entrypoint {
    Simple(String),
    List(Vec<String>),
}

impl Node for Entrypoint {
    open spec fn equiv(&self, o: Self) -> bool {
        match self {
            Entrypoint::Simple(p) => o is Simple && p.equiv(o->Simple_0),
            Entrypoint::List(p) => o is List && p.equiv(o->List_0),
        }
    }

    proof fn lemma_unique(a: Self, b: Self, y: Yaml) {
        assert(a.matches(y) && b.matches(y));
        if a is Simple && b is Simple {
            <String as Node>::lemma_unique(a->Simple_0, b->Simple_0, y);
        }
        if a is List && b is List {
            <Vec<String> as Node>::lemma_unique(a->List_0, b->List_0, y);
        }
    }

    /// The first variant, in declaration order, whose payload reads the node.
    open spec fn matches(&self, y: Yaml) -> bool {
        match self {
            Entrypoint::Simple(p) => p.matches(y),
            Entrypoint::List(p) => p.matches(y) && (forall|q: String| !#[trigger] q.matches(y)),
        }
    }

    open spec fn canonical(&self) -> bool {
        match self {
            Entrypoint::Simple(p) => p.canonical(),
            Entrypoint::List(p) => p.canonical(),
        }
    }

    fn from_yaml(y: &Yaml) -> (r: Result<Self, ParseError>) {
        if let Ok(p) = <String as Node>::from_yaml(y) {
            return Ok(Entrypoint::Simple(p));
        }
        match <Vec<String> as Node>::from_yaml(y) {
            Ok(p) => Ok(Entrypoint::List(p)),
            Err(_) => Err(mismatch("a string or a list of strings")),
        }
    }

    fn to_yaml(&self) -> (r: Yaml) {
        match self {
            Entrypoint::Simple(p) => p.to_yaml(),
            Entrypoint::List(p) => p.to_yaml(),
        }
    }
}

/// A supplementary group: a name or a numeric id.
#[derive(Clone, Debug, PartialEq)]
pub enum Group {
    Named(String),
    Gid(u32),
}

impl Node for Group {
    open spec fn equiv(&self, o: Self) -> bool {
        match self {
            Group::Named(p) => o is Named && p.equiv(o->Named_0),
            Group::Gid(p) => o is Gid && p.equiv(o->Gid_0),
        }
    }

    proof fn lemma_unique(a: Self, b: Self, y: Yaml) {
        assert(a.matches(y) && b.matches(y));
        if a is Named && b is Named {
            <String as Node>::lemma_unique(a->Named_0, b->Named_0, y);
        }
        if a is Gid && b is Gid {
            <u32 as Node>::lemma_unique(a->Gid_0, b->Gid_0, y);
        }
    }

    /// The first variant, in declaration order, whose payload reads the node.
    open spec fn matches(&self, y: Yaml) -> bool {
        match self {
            Group::Named(p) => p.matches(y),
            Group::Gid(p) => p.matches(y) && (forall|q: String| !#[trigger] q.matches(y)),
        }
    }

    open spec fn canonical(&self) -> bool {
        match self {
            Group::Named(p) => p.canonical(),
            Group::Gid(p) => p.canonical(),
        }
    }

    fn from_yaml(y: &Yaml) -> (r: Result<Self, ParseError>) {
        if let Ok(p) = <String as Node>::from_yaml(y) {
            return Ok(Group::Named(p));
        }
        match <u32 as Node>::from_yaml(y) {
            Ok(p) => Ok(Group::Gid(p)),
            Err(_) => Err(mismatch("a group name or id")),
        }
    }

    fn to_yaml(&self) -> (r: Yaml) {
        match self {
            Group::Named(p) => p.to_yaml(),
            Group::Gid(p) => p.to_yaml(),
        }
    }
}

} // verus!
