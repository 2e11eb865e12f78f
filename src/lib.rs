//! A typed model of Docker Compose documents, read from and written to YAML
//! nodes. Every polymorphic field is resolved by trying its shapes in a fixed
//! order; the first shape that reads the node wins.

pub mod compose;
pub mod network;
pub mod node;
pub mod omap;
pub mod secret;
pub mod service;
pub mod value;
pub mod volume;
pub mod yaml;

pub use compose::{
    write_and_read, Compose, ComposeFile, Include, IncludeBuilder, Includes, SingleService,
};
pub use network::{
    ComposeNetwork, ComposeNetworkSettingDetails, ComposeNetworks, ExternalNetworkSettingBool, Ipam,
    IpamConfig, NetworkSettings,
};
pub use node::{Defaulted, KeyPolicy, Node, Record};
pub use omap::OrderedMap;
pub use secret::{AdvancedSecrets, ComposeSecret, ComposeSecrets, Secrets};
pub use service::{
    AdvancedBuildStep, AdvancedBuildStepBuilder, AdvancedNetworkSettings, AdvancedNetworks,
    BuildArgs, BuildStep, Command, DependsCondition, DependsOnOptions, Deploy, Device, Entrypoint,
    EnvFile, Environment, Group, Healthcheck, HealthcheckTest, Labels, Limits, LoggingParameters,
    Networks, Placement, Port, Ports, Preferences, PublishedPort, PullPolicy, Resources,
    RestartPolicy, Service, ServiceBuilder, Services, SysCtls, Tmpfs, Ulimit, Ulimits, UpdateConfig,
};
pub use value::{Extension, ExtensionParseError, MapOrEmpty, Number, SingleValue};
pub use volume::{
    AdvancedVolumes, Bind, ComposeVolume, ExternalVolume, TmpfsSettings, TopLevelVolumes, Volume,
    Volumes,
};
pub use yaml::{ParseError, Yaml, YamlEntry};
