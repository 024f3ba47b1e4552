//! Node advertisement and bind settings. No secrets belong here.

use vstd::prelude::*;
use vstd::string::*;

use crate::addr::{law_printed_address_is_the_address, names_itself, IpAddr, IpBits};
use crate::eligibility::{
    Chassis, EgressPolicy, GuestOs, Intent, NodeClass, REQUIRED_GUEST_IMAGE,
};
use crate::text::{concat, debug_text, quoted};

verus! {

/// On-disk node advertisement (`$BERTHOS_HOME/node.toml`).
#[derive(Debug, PartialEq, Eq)]
pub struct NodeConfigFile {
    /// Advertised berth class.
    pub class: NodeClass,
    /// Attested chassis.
    pub chassis: Chassis,
    /// Private vs public participation.
    pub intent: Intent,
    /// Guest OS that will be leased.
    pub guest_os: GuestOs,
    /// Bind address. Must be loopback to pass the doctor.
    pub bind: String,
    /// TCP port.
    pub port: u16,
    /// Guest egress policy. Default-deny only.
    pub egress: EgressPolicy,
    /// Operator attests always-on.
    pub always_on: bool,
    /// Operator attests wired uplink.
    pub wired: bool,
    /// Guest image reference.
    pub image: String,
}

impl Clone for NodeConfigFile {
    fn clone(&self) -> (r: NodeConfigFile)
        ensures
            r == *self,
    {
        NodeConfigFile {
            class: self.class,
            chassis: self.chassis,
            intent: self.intent,
            guest_os: self.guest_os,
            bind: self.bind.clone(),
            port: self.port,
            egress: self.egress,
            always_on: self.always_on,
            wired: self.wired,
            image: self.image.clone(),
        }
    }
}

/// Class of a node that names none.
pub fn default_class() -> (r: NodeClass)
    ensures
        r == NodeClass::VmGuest,
{
    NodeClass::VmGuest
}

/// Bind address of a node that names none.
pub fn default_bind() -> (r: String)
    ensures
        r@ == "127.0.0.1"@,
{
    "127.0.0.1".to_string()
}

/// Port of a node that names none.
pub fn default_port() -> (r: u16)
    ensures
        r == 7432,
{
    7432
}

/// Guest image of a node that names none.
pub fn default_image() -> (r: String)
    ensures
        r@ == REQUIRED_GUEST_IMAGE@,
{
    REQUIRED_GUEST_IMAGE.to_string()
}

/// The advertisement of a node that says nothing about itself.
pub open spec fn is_default_file(file: NodeConfigFile) -> bool {
    &&& file.class == NodeClass::VmGuest
    &&& file.chassis == Chassis::Unknown
    &&& file.intent == Intent::Private
    &&& file.guest_os == GuestOs::Linux
    &&& file.bind@ == "127.0.0.1"@
    &&& file.port == 7432
    &&& file.egress == EgressPolicy::DefaultDeny
    &&& !file.always_on
    &&& !file.wired
    &&& file.image@ == REQUIRED_GUEST_IMAGE@
}

impl Default for NodeConfigFile {
    fn default() -> (r: NodeConfigFile)
        ensures
            is_default_file(r),
    {
        NodeConfigFile {
            class: default_class(),
            chassis: Chassis::Unknown,
            intent: Intent::Private,
            guest_os: GuestOs::Linux,
            bind: default_bind(),
            port: default_port(),
            egress: EgressPolicy::DefaultDeny,
            always_on: false,
            wired: false,
            image: default_image(),
        }
    }
}

/// Parsed, ready-to-use node config.
#[derive(Debug, PartialEq, Eq)]
pub struct NodeConfig {
    /// Advertised class.
    pub class: NodeClass,
    /// Attested chassis.
    pub chassis: Chassis,
    /// Private vs public.
    pub intent: Intent,
    /// Guest OS.
    pub guest_os: GuestOs,
    /// Bind IP.
    pub bind_ip: IpAddr,
    /// Port.
    pub port: u16,
    /// Egress policy applied to guests.
    pub egress: EgressPolicy,
    /// Always-on attestation.
    pub always_on: bool,
    /// Wired attestation.
    pub wired: bool,
    /// Guest image name.
    pub image: String,
}

impl Clone for NodeConfig {
    fn clone(&self) -> (r: NodeConfig)
        ensures
            r == *self,
    {
        NodeConfig {
            class: self.class,
            chassis: self.chassis,
            intent: self.intent,
            guest_os: self.guest_os,
            bind_ip: self.bind_ip.clone(),
            port: self.port,
            egress: self.egress,
            always_on: self.always_on,
            wired: self.wired,
            image: self.image.clone(),
        }
    }
}

/// The config that an advertisement describes, its bind address being `ip`.
pub open spec fn config_of(file: NodeConfigFile, ip: IpAddr) -> NodeConfig {
    NodeConfig {
        class: file.class,
        chassis: file.chassis,
        intent: file.intent,
        guest_os: file.guest_os,
        bind_ip: ip,
        port: file.port,
        egress: file.egress,
        always_on: file.always_on,
        wired: file.wired,
        image: file.image,
    }
}

/// The config of a node that says nothing about itself.
pub open spec fn is_default_config(config: NodeConfig) -> bool {
    &&& is_default_file(file_of(config))
    &&& config.bind_ip.bits == IpBits::V4([127u8, 0, 0, 1])
    &&& names_itself(config.bind_ip)
}

/// The advertisement of a config.
pub open spec fn file_of(config: NodeConfig) -> NodeConfigFile {
    NodeConfigFile {
        class: config.class,
        chassis: config.chassis,
        intent: config.intent,
        guest_os: config.guest_os,
        bind: config.bind_ip.text,
        port: config.port,
        egress: config.egress,
        always_on: config.always_on,
        wired: config.wired,
        image: config.image,
    }
}

/// Config load/save failure.
#[derive(Debug, PartialEq, Eq)]
pub enum ConfigError {
    /// Filesystem error.
    Io(String),
    /// TOML parse error.
    Parse {
        /// The file.
        path: String,
        /// What is wrong with it.
        message: String,
    },
    /// TOML serialize error.
    Serialize(String),
    /// Bind address unparseable.
    Bind(String, String),
}

/// Text of an unparseable bind address, the address as `{:?}` prints it.
pub open spec fn bind_error_text(quoted_bind: Seq<char>, reason: Seq<char>) -> Seq<char> {
    "invalid bind "@ + quoted_bind + ": "@ + reason
}

/// Text of a config failure.
pub open spec fn config_error_text(e: ConfigError) -> Seq<char> {
    match e {
        ConfigError::Io(reason) => "config io: "@ + reason@,
        ConfigError::Parse { path, message } => "parse "@ + path@ + ": "@ + message@,
        ConfigError::Serialize(reason) => "serialize: "@ + reason@,
        ConfigError::Bind(bind, reason) => bind_error_text(debug_text(bind@), reason@),
    }
}

/// Text of an unparseable bind address, the address as `{:?}` prints it.
pub fn bind_message(quoted_bind: &str, reason: &str) -> (r: String)
    ensures
        r@ == bind_error_text(quoted_bind@, reason@),
{
    let mut r = "invalid bind ".to_string();
    r.append(quoted_bind);
    r.append(": ");
    r.append(reason);
    r
}

impl ConfigError {
    /// Human-readable reason.
    pub fn message(&self) -> (r: String)
        ensures
            r@ == config_error_text(*self),
    {
        match self {
            ConfigError::Io(reason) => concat("config io: ", reason.as_str()),
            ConfigError::Parse { path, message } => {
                let mut r = "parse ".to_string();
                r.append(path.as_str());
                r.append(": ");
                r.append(message.as_str());
                r
            },
            ConfigError::Serialize(reason) => concat("serialize: ", reason.as_str()),
            ConfigError::Bind(bind, reason) => bind_message(
                quoted(bind.as_str()).as_str(),
                reason.as_str(),
            ),
        }
    }
}

impl NodeConfig {
    /// The config that an advertisement describes. `bind` is what reading the
    /// advertised bind address as an IP address came to.
    pub fn from_file(file: NodeConfigFile, bind: Result<IpAddr, String>) -> (r: Result<
        NodeConfig,
        ConfigError,
    >)
        ensures
            match bind {
                Ok(ip) => r == Ok::<NodeConfig, ConfigError>(config_of(file, ip)),
                Err(reason) => r == Err::<NodeConfig, ConfigError>(
                    ConfigError::Bind(file.bind, reason),
                ),
            },
    {
        match bind {
            Ok(bind_ip) => Ok(
                NodeConfig {
                    class: file.class,
                    chassis: file.chassis,
                    intent: file.intent,
                    guest_os: file.guest_os,
                    bind_ip,
                    port: file.port,
                    egress: file.egress,
                    always_on: file.always_on,
                    wired: file.wired,
                    image: file.image,
                },
            ),
            Err(reason) => Err(ConfigError::Bind(file.bind, reason)),
        }
    }

    /// The config of a node whose file holds `saved`: what it advertises, with
    /// what reading its bind address as an IP address came to. Without a file
    /// the node says nothing about itself.
    pub fn load(saved: Option<(NodeConfigFile, Result<IpAddr, String>)>) -> (r: Result<
        NodeConfig,
        ConfigError,
    >)
        ensures
            is_loaded(saved, r),
    {
        match saved {
            Some((file, bind)) => NodeConfig::from_file(file, bind),
            None => NodeConfig::from_file(NodeConfigFile::default(), Ok(IpAddr::localhost())),
        }
    }

    /// The advertisement to persist.
    pub fn to_file(&self) -> (r: NodeConfigFile)
        ensures
            r == file_of(*self),
    {
        NodeConfigFile {
            class: self.class,
            chassis: self.chassis,
            intent: self.intent,
            guest_os: self.guest_os,
            bind: self.bind_ip.text.clone(),
            port: self.port,
            egress: self.egress,
            always_on: self.always_on,
            wired: self.wired,
            image: self.image.clone(),
        }
    }
}

/// What [`NodeConfig::load`] comes to.
pub open spec fn is_loaded(
    saved: Option<(NodeConfigFile, Result<IpAddr, String>)>,
    r: Result<NodeConfig, ConfigError>,
) -> bool {
    match saved {
        None => r matches Ok(config) && is_default_config(config),
        Some((file, Ok(ip))) => r == Ok::<NodeConfig, ConfigError>(config_of(file, ip)),
        Some((file, Err(reason))) => r == Err::<NodeConfig, ConfigError>(
            ConfigError::Bind(file.bind, reason),
        ),
    }
}

/// What is saved is what is loaded, every field of it, where the bind address
/// reads back; and without a file the defaults are loaded.
pub proof fn law_saved_config_loads_back(
    config: NodeConfig,
    r: Result<NodeConfig, ConfigError>,
    defaults: Result<NodeConfig, ConfigError>,
)
    requires
        is_loaded(Some((file_of(config), Ok(config.bind_ip))), r),
        is_loaded(None, defaults),
    ensures
        r == Ok::<NodeConfig, ConfigError>(config),
        defaults matches Ok(config) && is_default_config(config),
{
}

/// A config on an IPv4 address loads back if only the address that was read
/// from the file prints as the file has it.
pub proof fn law_saved_ipv4_config_loads_back(
    config: NodeConfig,
    ip: IpAddr,
    r: Result<NodeConfig, ConfigError>,
)
    requires
        names_itself(config.bind_ip),
        config.bind_ip.bits is V4,
        names_itself(ip),
        ip.bits is V4,
        ip.text == file_of(config).bind,
        is_loaded(Some((file_of(config), Ok(ip))), r),
    ensures
        r == Ok::<NodeConfig, ConfigError>(config),
{
    law_printed_address_is_the_address(ip, config.bind_ip);
}

/// What is loaded is what was saved, as far as the bind address prints back.
pub proof fn law_loaded_file_saves_back(file: NodeConfigFile, ip: IpAddr)
    requires
        ip.text == file.bind,
    ensures
        file_of(config_of(file, ip)) == file,
{
}

} // verus!
