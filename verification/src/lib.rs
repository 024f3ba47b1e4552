//! Berthos node: fail-closed eligibility, leases, pairing and the clients that
//! talk to it.
//!
//! Isolation is the product. Nothing here drives the host desktop or accepts
//! `class=laptop` as a public node, and payments are not implemented. The
//! library decides; sockets, processes, files and clocks are handed in as
//! plain values.

use vstd::prelude::*;
use vstd::string::*;

pub mod action;
pub mod addr;
pub mod attestation;
pub mod cli;
pub mod clock;
pub mod config;
pub mod decimal;
pub mod doctor;
pub mod documents;
pub mod eligibility;
pub mod encoding;
pub mod guest;
pub mod http;
pub mod json;
pub mod laws;
pub mod mcp;
pub mod pairing;
pub mod probes;
pub mod readings;
pub mod rpc;
pub mod session;
pub mod text;
pub mod view;

pub use crate::action::{action_argv, argv_targets_host, GuestOp, MINIMAL_PNG, PNG_MAGIC};
pub use crate::config::{NodeConfig, NodeConfigFile};
pub use crate::doctor::{eligible_private_facts, evaluate, evaluate_at};
pub use crate::guest::{
    inspect_isolation, isolated_run_args, DockerGuest, GuestHandle, GuestIsolation, GuestRuntime,
    GuestSpec, MemoryGuest,
};
pub use crate::http::{new_state, new_state_with_report, reject_if_bind_all};
pub use crate::probes::{
    default_facts_config, docker_available, labeled_guest_image_ready, observe, simulate,
    SimulateCase,
};
pub use crate::view::{view_bind_is_loopback, LoopbackView};

use crate::addr::IpAddr;
use crate::config::{config_error_text, ConfigError};
use crate::text::concat;

verus! {

/// Wire protocol version this node speaks.
pub const PROTOCOL_VERSION: &'static str = "v1";

/// Node-level errors.
#[derive(Debug, PartialEq, Eq)]
pub enum NodeError {
    /// Listener was asked to bind every interface.
    BindAllRejected(IpAddr),
    /// IO / listen failure.
    Io(String),
    /// Config.
    Config(ConfigError),
}

/// Text of a node-level error.
pub open spec fn node_error_text(e: NodeError) -> Seq<char> {
    match e {
        NodeError::BindAllRejected(ip) => "bind-all rejected ("@ + ip.text@
            + "); node HTTP must listen on loopback"@,
        NodeError::Io(reason) => "node io: "@ + reason@,
        NodeError::Config(e) => config_error_text(e),
    }
}

impl NodeError {
    /// Human-readable reason.
    pub fn message(&self) -> (r: String)
        ensures
            r@ == node_error_text(*self),
    {
        match self {
            NodeError::BindAllRejected(ip) => {
                let mut r = "bind-all rejected (".to_string();
                r.append(ip.text.as_str());
                r.append("); node HTTP must listen on loopback");
                r
            },
            NodeError::Io(reason) => concat("node io: ", reason.as_str()),
            NodeError::Config(e) => e.message(),
        }
    }
}

/// Where node/client files are kept.
#[derive(Debug, PartialEq, Eq)]
pub enum HomeDir {
    /// Exactly there.
    At(String),
    /// In `.berthos` below this directory.
    Below(String),
}

/// Directory used for node/client files: `BERTHOS_HOME` if it is set, else
/// `.berthos` below `HOME`, or below the working directory.
pub fn berthos_home(override_dir: Option<String>, home: Option<String>) -> (r: HomeDir)
    ensures
        match (override_dir, home) {
            (Some(dir), _) => r == HomeDir::At(dir),
            (None, Some(base)) => r == HomeDir::Below(base),
            (None, None) => r matches HomeDir::Below(base) && base@ == "."@,
        },
{
    match override_dir {
        Some(dir) => HomeDir::At(dir),
        None => match home {
            Some(base) => HomeDir::Below(base),
            None => HomeDir::Below(".".to_string()),
        },
    }
}

} // verus!
