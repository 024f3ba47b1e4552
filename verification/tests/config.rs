//! Node configuration and node-level errors.

use berthos::addr::{IpAddr, IpBits, SocketAddr};
use berthos::config::{
    bind_message, default_bind, default_class, default_image, default_port, ConfigError,
    NodeConfig, NodeConfigFile,
};
use berthos::eligibility::{Chassis, EgressPolicy, GuestOs, Intent, NodeClass};
use berthos::probes::default_facts_config;
use berthos::{berthos_home, HomeDir, NodeError, PROTOCOL_VERSION};

fn ip(bits: IpBits, text: &str) -> IpAddr {
    IpAddr {
        bits,
        text: text.into(),
    }
}

#[test]
fn defaults_are_private_loopback_linux() {
    let file = NodeConfigFile::default();
    assert_eq!(file.class, NodeClass::VmGuest);
    assert_eq!(file.chassis, Chassis::Unknown);
    assert_eq!(file.intent, Intent::Private);
    assert_eq!(file.guest_os, GuestOs::Linux);
    assert_eq!(file.bind, "127.0.0.1");
    assert_eq!(file.port, 7432);
    assert_eq!(file.egress, EgressPolicy::DefaultDeny);
    assert!(!file.always_on);
    assert!(!file.wired);
    assert_eq!(file.image, "berthos-linux-desktop:v1");
    assert_eq!(default_class(), file.class);
    assert_eq!(default_bind(), file.bind);
    assert_eq!(default_port(), file.port);
    assert_eq!(default_image(), file.image);
    assert_eq!(
        NodeConfig::from_file(file, Ok(IpAddr::localhost())),
        Ok(default_facts_config())
    );
}

#[test]
fn saved_config_loads_back() {
    let mut config = default_facts_config();
    config.class = NodeClass::Laptop;
    config.wired = true;
    config.port = 9;
    let file = config.to_file();
    assert_eq!(file.bind, "127.0.0.1");
    let loaded = NodeConfig::from_file(file.clone(), Ok(config.bind_ip.clone())).unwrap();
    assert_eq!(loaded, config);
    assert_eq!(loaded.to_file(), file);
    assert_eq!(NodeConfig::load(Some((file, Ok(config.bind_ip.clone())))), Ok(config));
}

#[test]
fn without_a_file_the_defaults_are_loaded() {
    assert_eq!(NodeConfig::load(None), Ok(default_facts_config()));
    let mut file = NodeConfigFile::default();
    file.bind = "nowhere".into();
    assert_eq!(
        NodeConfig::load(Some((file, Err("no".into())))),
        Err(ConfigError::Bind("nowhere".into(), "no".into()))
    );
}

#[test]
fn addresses_name_themselves() {
    assert_eq!(IpAddr::v4([127, 0, 0, 1]), IpAddr::localhost());
    assert_eq!(IpAddr::v4([10, 0, 200, 255]).text, "10.0.200.255");
    assert_ne!(IpAddr::v4([1, 11, 0, 1]).text, IpAddr::v4([11, 1, 0, 1]).text);
    let one = IpAddr::v6([0, 0, 0, 0, 0, 0, 0, 1], "0:0:0:0:0:0:0:1".into());
    assert_eq!(one, ip(IpBits::V6([0, 0, 0, 0, 0, 0, 0, 1]), "::1"));
    let two = IpAddr::v6([0, 0, 0, 0, 0, 0, 0, 2], "::2".into());
    assert_eq!(two.text, "::2");
}

#[test]
fn unparseable_bind_is_reported() {
    let mut file = NodeConfigFile::default();
    file.bind = "local\thost".into();
    let error = NodeConfig::from_file(file, Err("invalid IP address syntax".into())).unwrap_err();
    assert_eq!(
        error.message(),
        "invalid bind \"local\\thost\": invalid IP address syntax"
    );
    assert_eq!(bind_message("\"x\"", "y"), "invalid bind \"x\": y");
}

#[test]
fn config_errors_have_their_texts() {
    assert_eq!(ConfigError::Io("denied".into()).message(), "config io: denied");
    assert_eq!(
        ConfigError::Parse {
            path: "/h/node.toml".into(),
            message: "bad".into()
        }
        .message(),
        "parse /h/node.toml: bad"
    );
    assert_eq!(ConfigError::Serialize("no".into()).message(), "serialize: no");
}

#[test]
fn node_errors_have_their_texts() {
    let all = ip(IpBits::V4([0, 0, 0, 0]), "0.0.0.0");
    assert_eq!(
        NodeError::BindAllRejected(all).message(),
        "bind-all rejected (0.0.0.0); node HTTP must listen on loopback"
    );
    assert_eq!(NodeError::Io("in use".into()).message(), "node io: in use");
    assert_eq!(
        NodeError::Config(ConfigError::Io("denied".into())).message(),
        "config io: denied"
    );
    assert_eq!(PROTOCOL_VERSION, "v1");
}

#[test]
fn loopback_addresses() {
    assert!(ip(IpBits::V4([127, 0, 0, 1]), "127.0.0.1").is_loopback());
    assert!(ip(IpBits::V4([127, 255, 0, 9]), "127.255.0.9").is_loopback());
    assert!(!ip(IpBits::V4([0, 0, 0, 0]), "0.0.0.0").is_loopback());
    assert!(ip(IpBits::V6([0, 0, 0, 0, 0, 0, 0, 1]), "::1").is_loopback());
    assert!(!ip(IpBits::V6([0, 0, 0, 0, 0, 0, 0, 0]), "::").is_loopback());
    assert!(!ip(IpBits::V6([1, 0, 0, 0, 0, 0, 0, 1]), "1::1").is_loopback());
}

#[test]
fn ipv4_addresses_are_printed_with_dots() {
    assert_eq!(IpAddr::v4([203, 0, 113, 9]).text, "203.0.113.9");
    assert_eq!(IpAddr::v4([127, 0, 0, 1]), IpAddr::localhost());
}

#[test]
fn addresses_are_printed_with_their_port() {
    let v6 = ip(IpBits::V6([0, 0, 0, 0, 0, 0, 0, 1]), "::1");
    assert_eq!(v6.with_port(80), "::1:80");
    assert_eq!(SocketAddr { ip: v6, port: 80 }.print(), "[::1]:80");
    let v4 = SocketAddr {
        ip: IpAddr::localhost(),
        port: 65535,
    };
    assert_eq!(v4.print(), "127.0.0.1:65535");
}

#[test]
fn home_directories() {
    assert_eq!(
        berthos_home(Some("/b".into()), Some("/h".into())),
        HomeDir::At("/b".into())
    );
    assert_eq!(berthos_home(None, Some("/h".into())), HomeDir::Below("/h".into()));
    assert_eq!(berthos_home(None, None), HomeDir::Below(".".into()));
}
