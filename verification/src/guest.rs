//! Isolated Linux desktop guest lifecycle.
//!
//! v1 revert is **destroy-and-recreate**. Snapshot/restore is the intended
//! later path; ending a lease always tears the container down so the next
//! tenant cannot inherit disk, processes, or cookies.
//!
//! Secrets stay on the node. The guest is started with `--network none`
//! (default-deny egress) and no env, no binds of `~/.berthos`, no host
//! display, no `--network=host`.

use vstd::prelude::*;
use vstd::string::*;

use crate::action::{is_host_display, path_is_host_display, MINIMAL_PNG};
use crate::decimal::{decimal, lemma_decimal_digits, print_u64};
use crate::doctor::{truth, truth_text};
use crate::eligibility::REQUIRED_GUEST_IMAGE;
use crate::json::{json_document, json_views, opt_json, Json, JsonView};
use crate::session::{all_hex, is_allocated_id, is_hex_digit, LeaseId};
use crate::text::{
    ascii_lower, chars_of, concat, contains, contains_text, copied, join_by_space,
    joined_by_space, lowercase, occurs_at, same, starts_with, starts_with_text, strip_prefix,
    texts, to_lower,
};

verus! {

/// What to boot. No credentials.
#[derive(Debug, PartialEq, Eq)]
pub struct GuestSpec {
    /// Image reference (`berthos-linux-desktop:v1`).
    pub image: String,
    /// vCPU limit.
    pub vcpu: u32,
    /// Memory limit in GiB.
    pub mem_gib: u32,
}

impl Clone for GuestSpec {
    fn clone(&self) -> (r: GuestSpec)
        ensures
            r == *self,
    {
        GuestSpec { image: self.image.clone(), vcpu: self.vcpu, mem_gib: self.mem_gib }
    }
}

/// Handle recorded while a guest is live.
#[derive(Debug, PartialEq, Eq)]
pub struct GuestHandle {
    /// Docker (or fake) container name.
    pub container: String,
}

impl Clone for GuestHandle {
    fn clone(&self) -> (r: GuestHandle)
        ensures
            r == *self,
    {
        GuestHandle { container: self.container.clone() }
    }
}

/// Observed isolation of a running guest. Used to fail closed if Docker
/// somehow applied host network, host display, or a privileged box.
#[derive(Debug, PartialEq, Eq)]
pub struct GuestIsolation {
    /// Docker `HostConfig.NetworkMode`. Must be `none`.
    pub network_mode: String,
    /// Privileged containers are rejected.
    pub privileged: bool,
    /// `PidMode`. `host` is rejected.
    pub pid_mode: String,
    /// `IpcMode`. `host` is rejected.
    pub ipc_mode: String,
    /// Bind mounts. Host display sockets are rejected.
    pub binds: Vec<String>,
    /// Other mounts (destination or source).
    pub mounts: Vec<String>,
}

/// Observed isolation with its texts.
pub struct IsolationView {
    /// `NetworkMode`.
    pub network_mode: Seq<char>,
    /// `Privileged`.
    pub privileged: bool,
    /// `PidMode`.
    pub pid_mode: Seq<char>,
    /// `IpcMode`.
    pub ipc_mode: Seq<char>,
    /// Bind mounts.
    pub binds: Seq<Seq<char>>,
    /// Other mounts.
    pub mounts: Seq<Seq<char>>,
}

impl View for GuestIsolation {
    type V = IsolationView;

    open spec fn view(&self) -> IsolationView {
        IsolationView {
            network_mode: self.network_mode@,
            privileged: self.privileged,
            pid_mode: self.pid_mode@,
            ipc_mode: self.ipc_mode@,
            binds: texts(self.binds@),
            mounts: texts(self.mounts@),
        }
    }
}

impl Clone for GuestIsolation {
    fn clone(&self) -> (r: GuestIsolation)
        ensures
            r@ == self@,
    {
        GuestIsolation {
            network_mode: self.network_mode.clone(),
            privileged: self.privileged,
            pid_mode: self.pid_mode.clone(),
            ipc_mode: self.ipc_mode.clone(),
            binds: copied(self.binds.as_slice()),
            mounts: copied(self.mounts.as_slice()),
        }
    }
}

/// Some path names a display socket of the host.
pub open spec fn any_host_display(paths: Seq<Seq<char>>) -> bool {
    exists|i: int| 0 <= i < paths.len() && is_host_display(#[trigger] paths[i])
}

/// The guest cannot see host net, host display, or host PID/IPC.
pub open spec fn isolated(g: IsolationView) -> bool {
    &&& g.network_mode == "none"@
    &&& !g.privileged
    &&& g.pid_mode != "host"@
    &&& g.ipc_mode != "host"@
    &&& !any_host_display(g.binds)
    &&& !any_host_display(g.mounts)
}

fn has_host_display(paths: &[String]) -> (r: bool)
    ensures
        r == any_host_display(texts(paths@)),
{
    let ghost all = texts(paths@);
    let mut i: usize = 0;
    while i < paths.len()
        invariant
            all == texts(paths@),
            i <= paths@.len(),
            forall|k: int| 0 <= k < i ==> !is_host_display(#[trigger] all[k]),
        decreases paths@.len() - i,
    {
        if path_is_host_display(paths[i].as_str()) {
            assert(is_host_display(all[i as int]));
            return true;
        }
        assert(!is_host_display(all[i as int]));
        i += 1;
    }
    false
}

impl GuestIsolation {
    /// True when the guest cannot see host net, host display, or host PID/IPC.
    pub fn is_isolated(&self) -> (r: bool)
        ensures
            r == isolated(self@),
    {
        same(self.network_mode.as_str(), "none") && !self.privileged && !same(
            self.pid_mode.as_str(),
            "host",
        ) && !same(self.ipc_mode.as_str(), "host") && !self.exposes_host_display()
    }

    fn exposes_host_display(&self) -> (r: bool)
        ensures
            r == (any_host_display(self@.binds) || any_host_display(self@.mounts)),
    {
        has_host_display(self.binds.as_slice()) || has_host_display(self.mounts.as_slice())
    }
}

/// Guest runtime errors.
#[derive(Debug, PartialEq, Eq)]
pub enum GuestError {
    /// Runtime failed to start or destroy.
    Runtime(String),
    /// Started container violated the isolation contract.
    Isolation(String),
}

/// A guest error with its text.
pub enum GuestErrorView {
    /// Runtime failed.
    Runtime(Seq<char>),
    /// Isolation contract violated.
    Isolation(Seq<char>),
}

impl View for GuestError {
    type V = GuestErrorView;

    open spec fn view(&self) -> GuestErrorView {
        match self {
            GuestError::Runtime(m) => GuestErrorView::Runtime(m@),
            GuestError::Isolation(m) => GuestErrorView::Isolation(m@),
        }
    }
}

/// Text of a guest error.
pub open spec fn guest_error_text(e: GuestErrorView) -> Seq<char> {
    match e {
        GuestErrorView::Runtime(m) => "guest runtime: "@ + m,
        GuestErrorView::Isolation(m) => "guest isolation: "@ + m,
    }
}

impl GuestError {
    /// Human-readable reason.
    pub fn message(&self) -> (r: String)
        ensures
            r@ == guest_error_text(self@),
    {
        match self {
            GuestError::Runtime(m) => concat("guest runtime: ", m.as_str()),
            GuestError::Isolation(m) => concat("guest isolation: ", m.as_str()),
        }
    }
}

/// The container that holds the guest of a lease.
pub open spec fn container_name(lease_id: Seq<char>) -> Seq<char> {
    "berthos-"@ + lease_id
}

/// `docker run` argv after the binary name.
pub open spec fn run_args(
    lease_id: Seq<char>,
    image: Seq<char>,
    vcpu: u32,
    mem_gib: u32,
) -> Seq<Seq<char>> {
    seq![
        "run"@,
        "-d"@,
        "--rm"@,
        "--name"@,
        container_name(lease_id),
        "--network"@,
        "none"@,
        "--memory"@,
        decimal(mem_gib as nat) + "g"@,
        "--cpus"@,
        decimal(vcpu as nat),
        "--label"@,
        "berthos.role=guest"@,
        "--label"@,
        "berthos.lease="@ + lease_id,
        image,
    ]
}

/// `docker run` argv after the binary name. Kept as a function so tests can
/// assert the isolation flags without talking to a daemon.
pub fn isolated_run_args(lease_id: &LeaseId, spec: &GuestSpec) -> (r: (String, Vec<String>))
    ensures
        r.0@ == container_name(lease_id.0@),
        texts(r.1@) == run_args(lease_id.0@, spec.image@, spec.vcpu, spec.mem_gib),
{
    let container = concat("berthos-", lease_id.0.as_str());
    let args: Vec<String> = vec![
        "run".to_string(),
        "-d".to_string(),
        "--rm".to_string(),
        "--name".to_string(),
        container.clone(),
        "--network".to_string(),
        "none".to_string(),
        "--memory".to_string(),
        concat(print_u64(spec.mem_gib as u64).as_str(), "g"),
        "--cpus".to_string(),
        print_u64(spec.vcpu as u64),
        "--label".to_string(),
        "berthos.role=guest".to_string(),
        "--label".to_string(),
        concat("berthos.lease=", lease_id.0.as_str()),
        spec.image.clone(),
    ];
    assert(texts(args@) =~= run_args(lease_id.0@, spec.image@, spec.vcpu, spec.mem_gib));
    (container, args)
}

/// An argument that asks for privileges, an environment or a mount.
pub open spec fn is_open_flag(arg: Seq<char>) -> bool {
    ||| arg == "--privileged"@
    ||| arg == "-e"@
    ||| starts_with_text(arg, "--env"@)
    ||| arg == "-v"@
    ||| starts_with_text(arg, "--volume"@)
    ||| arg == "--mount"@
}

/// An argument that opens a hole wherever it stands: privileges, an
/// environment, a mount, or a display socket of the host.
pub open spec fn opens_hole(arg: Seq<char>) -> bool {
    is_open_flag(arg) || is_host_display(arg)
}

/// A value by which a flag of `docker` is switched off.
pub open spec fn is_off(value: Seq<char>) -> bool {
    ||| value == "false"@
    ||| value == "False"@
    ||| value == "FALSE"@
    ||| value == "f"@
    ||| value == "F"@
    ||| value == "0"@
}

/// A short flag and its value in one argument.
pub open spec fn is_attached(arg: Seq<char>, flag: Seq<char>) -> bool {
    starts_with_text(arg, flag) && arg != flag
}

/// An option that opens a hole under another of the spellings that `docker`
/// has for it: the value in the same argument, or `--net` for `--network`.
pub open spec fn is_other_spelling(arg: Seq<char>) -> bool {
    ||| arg == "--net=host"@
    ||| starts_with_text(arg, "--privileged="@) && !is_off(
        arg.skip("--privileged="@.len() as int),
    )
    ||| is_attached(arg, "-e"@)
    ||| is_attached(arg, "-v"@)
    ||| starts_with_text(arg, "--mount="@)
}

/// The option at `i`, with its value, opens a hole under another spelling.
pub open spec fn is_spelled_otherwise(args: Seq<Seq<char>>, i: int) -> bool {
    ||| is_other_spelling(args[i])
    ||| args[i] == "--net"@ && i + 1 < args.len() && args[i + 1] == "host"@
}

/// An argument of `docker run` that is an option, and not yet the image.
pub open spec fn is_option(arg: Seq<char>) -> bool {
    arg.len() > 1 && arg[0] == '-' && arg != "--"@
}

/// An option of `docker run` that takes no value.
pub open spec fn is_switch(arg: Seq<char>) -> bool {
    ||| arg == "-d"@
    ||| arg == "--detach"@
    ||| arg == "-i"@
    ||| arg == "--interactive"@
    ||| arg == "-t"@
    ||| arg == "--tty"@
    ||| arg == "-P"@
    ||| arg == "--publish-all"@
    ||| arg == "-q"@
    ||| arg == "--quiet"@
    ||| arg == "--rm"@
    ||| arg == "--init"@
    ||| arg == "--privileged"@
    ||| arg == "--read-only"@
    ||| arg == "--no-healthcheck"@
    ||| arg == "--oom-kill-disable"@
    ||| arg == "--sig-proxy"@
    ||| arg == "--disable-content-trust"@
    ||| arg == "--help"@
}

/// An option whose value, if it takes one, is not the next argument: a switch,
/// a long option with its value behind `=`, or a short one with more letters.
pub open spec fn stands_alone(arg: Seq<char>) -> bool {
    ||| is_switch(arg)
    ||| starts_with_text(arg, "--"@) && contains_text(arg, "="@)
    ||| !starts_with_text(arg, "--"@) && arg.len() > 2
}

/// One of the options from the `i`-th argument on opens a hole under another
/// spelling. The options end where the image stands; what follows it is the
/// guest's own command.
pub open spec fn hole_in_options(args: Seq<Seq<char>>, i: int) -> bool
    decreases args.len() + 2 - i,
{
    if i < 0 || i >= args.len() || !is_option(args[i]) {
        false
    } else {
        is_spelled_otherwise(args, i) || hole_in_options(
            args,
            if stands_alone(args[i]) {
                i + 1
            } else {
                i + 2
            },
        )
    }
}

/// Where the options begin: behind the word `run`, where it is there.
pub open spec fn first_option(args: Seq<Seq<char>>) -> int {
    if args.len() > 0 && args[0] == "run"@ {
        1
    } else {
        0
    }
}

/// `args` would expose the host desktop, host cursor, or host net.
pub open spec fn violates_isolation(args: Seq<Seq<char>>) -> bool {
    ||| contains_text(joined_by_space(args), "--network host"@)
    ||| contains_text(joined_by_space(args), "--network=host"@)
    ||| exists|i: int| 0 <= i < args.len() && opens_hole(#[trigger] args[i])
    ||| hole_in_options(args, first_option(args))
}

fn arg_opens_hole(arg: &str) -> (r: bool)
    ensures
        r == opens_hole(arg@),
{
    same(arg, "--privileged") || same(arg, "-e") || starts_with(arg, "--env") || same(arg, "-v")
        || starts_with(arg, "--volume") || same(arg, "--mount") || path_is_host_display(arg)
}

fn switched_off(value: &str) -> (r: bool)
    ensures
        r == is_off(value@),
{
    same(value, "false") || same(value, "False") || same(value, "FALSE") || same(value, "f")
        || same(value, "F") || same(value, "0")
}

fn attached(arg: &str, flag: &str) -> (r: bool)
    ensures
        r == is_attached(arg@, flag@),
{
    starts_with(arg, flag) && !same(arg, flag)
}

fn other_spelling(arg: &str) -> (r: bool)
    ensures
        r == is_other_spelling(arg@),
{
    if same(arg, "--net=host") || attached(arg, "-e") || attached(arg, "-v") || starts_with(
        arg,
        "--mount=",
    ) {
        return true;
    }
    match strip_prefix(arg, "--privileged=") {
        Some(value) => !switched_off(value.as_str()),
        None => false,
    }
}

fn switch(arg: &str) -> (r: bool)
    ensures
        r == is_switch(arg@),
{
    same(arg, "-d") || same(arg, "--detach") || same(arg, "-i") || same(arg, "--interactive")
        || same(arg, "-t") || same(arg, "--tty") || same(arg, "-P") || same(arg, "--publish-all")
        || same(arg, "-q") || same(arg, "--quiet") || same(arg, "--rm") || same(arg, "--init")
        || same(arg, "--privileged") || same(arg, "--read-only") || same(arg, "--no-healthcheck")
        || same(arg, "--oom-kill-disable") || same(arg, "--sig-proxy") || same(
        arg,
        "--disable-content-trust",
    ) || same(arg, "--help")
}

fn option_stands_alone(arg: &str) -> (r: bool)
    ensures
        r == stands_alone(arg@),
{
    if switch(arg) {
        return true;
    }
    if starts_with(arg, "--") {
        contains(arg, "=")
    } else {
        chars_of(arg).len() > 2
    }
}

fn option(arg: &str) -> (r: bool)
    ensures
        r == is_option(arg@),
{
    let chars = chars_of(arg);
    chars.len() > 1 && chars[0] == '-' && !same(arg, "--")
}

fn options_open_hole(args: &[String]) -> (r: bool)
    ensures
        r == hole_in_options(texts(args@), first_option(texts(args@))),
{
    let ghost all = texts(args@);
    let mut i: usize = 0;
    if args.len() > 0 && same(args[0].as_str(), "run") {
        assert(all[0] == args@[0]@);
        i = 1;
    }
    assert(i == first_option(all)) by {
        if all.len() > 0 {
            assert(all[0] == args@[0]@);
        }
    }
    while i < args.len() && option(args[i].as_str())
        invariant
            all == texts(args@),
            hole_in_options(all, i as int) == hole_in_options(all, first_option(all)),
        ensures
            !hole_in_options(all, i as int),
            hole_in_options(all, i as int) == hole_in_options(all, first_option(all)),
        decreases args@.len() - i,
    {
        assert(all[i as int] == args@[i as int]@);
        let arg = args[i].as_str();
        if other_spelling(arg) {
            return true;
        }
        if args.len() - i > 1 {
            assert(all[i + 1] == args@[i + 1]@);
            if same(arg, "--net") && same(args[i + 1].as_str(), "host") {
                return true;
            }
        }
        if option_stands_alone(arg) {
            i += 1;
        } else if args.len() - i > 1 {
            i += 2;
        } else {
            assert(!hole_in_options(all, i + 2));
            return false;
        }
    }
    false
}

/// True when `args` would expose the host desktop, host cursor, or host net.
pub fn args_violate_isolation(args: &[String]) -> (r: bool)
    ensures
        r == violates_isolation(texts(args@)),
{
    let ghost all = texts(args@);
    let joined = join_by_space(args);
    let line = joined.as_str();
    if contains(line, "--network host") || contains(line, "--network=host") {
        return true;
    }
    let mut i: usize = 0;
    while i < args.len()
        invariant
            all == texts(args@),
            i <= args@.len(),
            forall|k: int| 0 <= k < i ==> !opens_hole(#[trigger] all[k]),
        decreases args@.len() - i,
    {
        if arg_opens_hole(args[i].as_str()) {
            assert(opens_hole(all[i as int]));
            return true;
        }
        assert(!opens_hole(all[i as int]));
        i += 1;
    }
    options_open_hole(args)
}

/// What came of running a command.
#[derive(Debug, PartialEq, Eq)]
pub enum CommandOutcome {
    /// It could not be run; the reason.
    Unavailable(String),
    /// It ran to its end.
    Exited {
        /// Exit status zero.
        success: bool,
        /// Standard output.
        stdout: Vec<u8>,
        /// Standard error as text.
        stderr: String,
    },
}

/// Docker-backed guests. Default-deny via `--network none`.
///
/// Commands are run by the caller; this type says which ones and what their
/// outcome means.
#[derive(Debug, Clone, Copy)]
pub struct DockerGuest;

/// `stderr` of a removal that had nothing to remove.
pub open spec fn says_already_gone(stderr: Seq<char>) -> bool {
    ||| contains_text(lowercase(stderr), "no such container"@)
    ||| contains_text(lowercase(stderr), "is not running"@)
}

fn container_already_gone(stderr: &str) -> (r: bool)
    ensures
        r == says_already_gone(stderr@),
{
    let lower = to_lower(stderr);
    contains(lower.as_str(), "no such container") || contains(lower.as_str(), "is not running")
}

/// What a failed `docker run` is reported as, if it failed.
pub open spec fn run_failure(
    container: Seq<char>,
    image: Seq<char>,
    outcome: CommandOutcome,
) -> Option<GuestErrorView> {
    match outcome {
        CommandOutcome::Unavailable(e) => Some(GuestErrorView::Runtime(e@)),
        CommandOutcome::Exited { success, stdout, stderr } => if success {
            None
        } else {
            Some(
                GuestErrorView::Runtime(
                    "docker run failed for "@ + container + "; is "@ + image + " built? "@
                        + stderr@,
                ),
            )
        },
    }
}

/// What a failed `docker rm -f` is reported as, if it failed.
pub open spec fn remove_failure(container: Seq<char>, outcome: CommandOutcome) -> Option<
    GuestErrorView,
> {
    match outcome {
        CommandOutcome::Unavailable(e) => Some(GuestErrorView::Runtime(e@)),
        CommandOutcome::Exited { success, stdout, stderr } => if success || says_already_gone(
            stderr@,
        ) {
            None
        } else {
            Some(
                GuestErrorView::Runtime(
                    "docker rm -f "@ + container + " failed: "@ + stderr@,
                ),
            )
        },
    }
}

/// Why an inspected container is refused.
pub open spec fn isolation_refusal(container: Seq<char>, seen: IsolationView) -> GuestErrorView {
    GuestErrorView::Isolation(
        "container "@ + container + " was not isolated (network_mode="@ + seen.network_mode
            + ", privileged="@ + truth_text(seen.privileged) + ")"@,
    )
}

/// What becomes of a container that was just started.
#[derive(Debug, PartialEq, Eq)]
pub enum Inspected {
    /// It is isolated: the guest is live.
    Keep(GuestHandle),
    /// It is not, or nobody can tell: it has to be destroyed, and the start
    /// fails with this error.
    Destroy(GuestHandle, GuestError),
}

/// Where the start of a guest stands: the `docker` command to run next, or how
/// it ended.
#[derive(Debug, PartialEq, Eq)]
pub enum StartStep {
    /// Start the container.
    Run {
        /// Name of the container.
        container: String,
        /// Image it is started from.
        image: String,
        /// `docker` argv.
        args: Vec<String>,
    },
    /// Look at the started container.
    Inspect {
        /// The container.
        handle: GuestHandle,
        /// `docker` argv.
        args: Vec<String>,
    },
    /// Destroy the container, because it may not be kept.
    Remove {
        /// `docker` argv.
        args: Vec<String>,
        /// Why it may not be kept.
        error: GuestError,
    },
    /// The guest is live and isolated.
    Started(GuestHandle),
    /// There is no guest.
    Failed(GuestError),
}

impl StartStep {
    /// The `docker` argv to run next, if there is one left to run.
    pub fn command(&self) -> (r: Option<&Vec<String>>)
        ensures
            match *self {
                StartStep::Run { container, image, args } => r == Some(&args),
                StartStep::Inspect { handle, args } => r == Some(&args),
                StartStep::Remove { args, error } => r == Some(&args),
                StartStep::Started(_) => r is None,
                StartStep::Failed(_) => r is None,
            },
    {
        match self {
            StartStep::Run { container, image, args } => Some(args),
            StartStep::Inspect { handle, args } => Some(args),
            StartStep::Remove { args, error } => Some(args),
            StartStep::Started(_) => None,
            StartStep::Failed(_) => None,
        }
    }

    /// How the start ended; an unfinished one counts as a failure.
    pub fn finish(self) -> (r: Result<GuestHandle, GuestError>)
        ensures
            match self {
                StartStep::Started(handle) => r == Ok::<GuestHandle, GuestError>(handle),
                StartStep::Failed(e) => r == Err::<GuestHandle, GuestError>(e),
                _ => r matches Err(e) && e@ == GuestErrorView::Runtime("start not finished"@),
            },
    {
        match self {
            StartStep::Started(handle) => Ok(handle),
            StartStep::Failed(e) => Err(e),
            _ => Err(GuestError::Runtime("start not finished".to_string())),
        }
    }
}

/// The step that follows when the command of `step` came to `outcome`.
pub open spec fn is_next_step(step: StartStep, outcome: CommandOutcome, next: StartStep) -> bool {
    match step {
        StartStep::Run { container, image, args } => match run_failure(
            container@,
            image@,
            outcome,
        ) {
            Some(e) => next matches StartStep::Failed(error) && error@ == e,
            None => {
                &&& next matches StartStep::Inspect { handle, args }
                &&& handle.container@ == container@
                &&& texts(args@) == seq!["inspect"@, container@]
            },
        },
        StartStep::Inspect { handle, args } => match seen_isolation(handle.container@, outcome) {
            Ok(seen) => if isolated(seen) {
                next == StartStep::Started(handle)
            } else {
                &&& next matches StartStep::Remove { args, error }
                &&& texts(args@) == seq!["rm"@, "-f"@, handle.container@]
                &&& error@ == isolation_refusal(handle.container@, seen)
            },
            Err(e) => {
                &&& next matches StartStep::Remove { args, error }
                &&& texts(args@) == seq!["rm"@, "-f"@, handle.container@]
                &&& error@ == e
            },
        },
        StartStep::Remove { args, error } => next == StartStep::Failed(error),
        StartStep::Started(_) => next == step,
        StartStep::Failed(_) => next == step,
    }
}

/// The isolation that `docker inspect` of a container shows.
pub open spec fn seen_isolation(container: Seq<char>, outcome: CommandOutcome) -> Result<
    IsolationView,
    GuestErrorView,
> {
    match outcome {
        CommandOutcome::Unavailable(e) => Err(GuestErrorView::Runtime(e@)),
        CommandOutcome::Exited { success, stdout, stderr } => if success {
            inspected_isolation(stdout@)
        } else {
            Err(
                GuestErrorView::Runtime(
                    "docker inspect "@ + container + " failed: "@ + stderr@,
                ),
            )
        },
    }
}

/// A guest counts as started only once an inspection has shown that it is
/// isolated; a container that was started and is not kept is removed.
pub proof fn law_started_guests_were_seen_isolated(
    step: StartStep,
    outcome: CommandOutcome,
    next: StartStep,
)
    requires
        is_next_step(step, outcome, next),
        !(step is Started),
    ensures
        next matches StartStep::Started(handle) ==> {
            &&& step matches StartStep::Inspect { handle: inspected, args }
            &&& inspected == handle
            &&& seen_isolation(handle.container@, outcome) matches Ok(seen)
            &&& isolated(seen)
        },
        step is Inspect ==> next is Started || next is Remove,
{
}

impl DockerGuest {
    /// First step of starting the guest of a lease.
    pub fn start(&self, lease_id: &LeaseId, spec: &GuestSpec) -> (r: StartStep)
        ensures
            if violates_isolation(run_args(lease_id.0@, spec.image@, spec.vcpu, spec.mem_gib)) {
                &&& r matches StartStep::Failed(e)
                &&& e@ == GuestErrorView::Isolation(
                    "refusing to start a guest with host net, host display, env, or binds"@,
                )
            } else {
                &&& r matches StartStep::Run { container, image, args }
                &&& container@ == container_name(lease_id.0@)
                &&& image@ == spec.image@
                &&& texts(args@) == run_args(
                    lease_id.0@,
                    spec.image@,
                    spec.vcpu,
                    spec.mem_gib,
                )
            },
    {
        match self.plan_start(lease_id, spec) {
            Ok((container, args)) => StartStep::Run { container, image: spec.image.clone(), args },
            Err(e) => StartStep::Failed(e),
        }
    }

    /// The step that follows, from what the command came to. A step without a
    /// command stays as it is.
    pub fn next(&self, step: StartStep, outcome: &CommandOutcome) -> (r: StartStep)
        ensures
            is_next_step(step, *outcome, r),
    {
        match step {
            StartStep::Run { container, image, args } => match self.after_run(
                container.as_str(),
                image.as_str(),
                outcome,
            ) {
                Ok(handle) => {
                    let args = self.inspect_args(&handle);
                    StartStep::Inspect { handle, args }
                },
                Err(e) => StartStep::Failed(e),
            },
            StartStep::Inspect { handle, args } => {
                let inspected = inspect_isolation(&handle, outcome);
                match self.after_inspect(handle, inspected) {
                    Inspected::Keep(handle) => StartStep::Started(handle),
                    Inspected::Destroy(handle, error) => StartStep::Remove {
                        args: self.remove_args(&handle),
                        error,
                    },
                }
            },
            StartStep::Remove { args, error } => StartStep::Failed(error),
            StartStep::Started(handle) => StartStep::Started(handle),
            StartStep::Failed(e) => StartStep::Failed(e),
        }
    }

    /// Container name and `docker run` argv for a lease. An argv that would
    /// break isolation is refused before anything runs.
    pub fn plan_start(&self, lease_id: &LeaseId, spec: &GuestSpec) -> (r: Result<
        (String, Vec<String>),
        GuestError,
    >)
        ensures
            match r {
                Ok(plan) => {
                    &&& plan.0@ == container_name(lease_id.0@)
                    &&& texts(plan.1@) == run_args(
                        lease_id.0@,
                        spec.image@,
                        spec.vcpu,
                        spec.mem_gib,
                    )
                    &&& !violates_isolation(texts(plan.1@))
                },
                Err(e) => {
                    &&& violates_isolation(
                        run_args(lease_id.0@, spec.image@, spec.vcpu, spec.mem_gib),
                    )
                    &&& e@ == GuestErrorView::Isolation(
                        "refusing to start a guest with host net, host display, env, or binds"@,
                    )
                },
            },
    {
        let (container, args) = isolated_run_args(lease_id, spec);
        if args_violate_isolation(args.as_slice()) {
            return Err(
                GuestError::Isolation(
                    "refusing to start a guest with host net, host display, env, or binds".to_string(),
                ),
            );
        }
        Ok((container, args))
    }

    /// What `docker run` came to. The handle still has to be inspected.
    pub fn after_run(&self, container: &str, image: &str, outcome: &CommandOutcome) -> (r: Result<
        GuestHandle,
        GuestError,
    >)
        ensures
            match r {
                Ok(handle) => run_failure(container@, image@, *outcome) is None
                    && handle.container@ == container@,
                Err(e) => run_failure(container@, image@, *outcome) == Some(e@),
            },
    {
        match outcome {
            CommandOutcome::Unavailable(e) => Err(GuestError::Runtime(e.clone())),
            CommandOutcome::Exited { success, stdout, stderr } => if *success {
                Ok(GuestHandle { container: container.to_string() })
            } else {
                let mut message = "docker run failed for ".to_string();
                message.append(container);
                message.append("; is ");
                message.append(image);
                message.append(" built? ");
                message.append(stderr.as_str());
                Err(GuestError::Runtime(message))
            },
        }
    }

    /// Whether a started container may be kept.
    pub fn after_inspect(
        &self,
        handle: GuestHandle,
        inspected: Result<GuestIsolation, GuestError>,
    ) -> (r: Inspected)
        ensures
            match inspected {
                Ok(seen) => if isolated(seen@) {
                    r == Inspected::Keep(handle)
                } else {
                    r matches Inspected::Destroy(doomed, e) && doomed == handle && e@
                        == isolation_refusal(handle.container@, seen@)
                },
                Err(e) => r == Inspected::Destroy(handle, e),
            },
    {
        match inspected {
            Ok(seen) => if seen.is_isolated() {
                Inspected::Keep(handle)
            } else {
                let mut message = "container ".to_string();
                message.append(handle.container.as_str());
                message.append(" was not isolated (network_mode=");
                message.append(seen.network_mode.as_str());
                message.append(", privileged=");
                message.append(truth(seen.privileged));
                message.append(")");
                Inspected::Destroy(handle, GuestError::Isolation(message))
            },
            Err(e) => Inspected::Destroy(handle, e),
        }
    }

    /// `docker` argv that destroys a guest.
    pub fn remove_args(&self, handle: &GuestHandle) -> (r: Vec<String>)
        ensures
            texts(r@) == seq!["rm"@, "-f"@, handle.container@],
    {
        let r: Vec<String> = vec!["rm".to_string(), "-f".to_string(), handle.container.clone()];
        assert(texts(r@) =~= seq!["rm"@, "-f"@, handle.container@]);
        r
    }

    /// What `docker rm -f` came to. A container that is already gone counts
    /// as destroyed.
    pub fn after_remove(&self, handle: &GuestHandle, outcome: &CommandOutcome) -> (r: Result<
        (),
        GuestError,
    >)
        ensures
            match r {
                Ok(_) => remove_failure(handle.container@, *outcome) is None,
                Err(e) => remove_failure(handle.container@, *outcome) == Some(e@),
            },
    {
        match outcome {
            CommandOutcome::Unavailable(e) => Err(GuestError::Runtime(e.clone())),
            CommandOutcome::Exited { success, stdout, stderr } => {
                if !*success && !container_already_gone(stderr.as_str()) {
                    let mut message = "docker rm -f ".to_string();
                    message.append(handle.container.as_str());
                    message.append(" failed: ");
                    message.append(stderr.as_str());
                    return Err(GuestError::Runtime(message));
                }
                Ok(())
            },
        }
    }

    /// `docker` argv that inspects a guest.
    pub fn inspect_args(&self, handle: &GuestHandle) -> (r: Vec<String>)
        ensures
            texts(r@) == seq!["inspect"@, handle.container@],
    {
        let r: Vec<String> = vec!["inspect".to_string(), handle.container.clone()];
        assert(texts(r@) =~= seq!["inspect"@, handle.container@]);
        r
    }

    /// `docker` argv that runs `argv` inside a guest.
    pub fn exec_args(&self, handle: &GuestHandle, argv: &Vec<String>) -> (r: Vec<String>)
        ensures
            texts(r@) == seq!["exec"@, handle.container@] + texts(argv@),
    {
        let mut r: Vec<String> = vec!["exec".to_string(), handle.container.clone()];
        let mut i: usize = 0;
        while i < argv.len()
            invariant
                i <= argv@.len(),
                texts(r@) =~= seq!["exec"@, handle.container@] + texts(argv@).take(i as int),
            decreases argv@.len() - i,
        {
            let ghost before = r@;
            r.push(argv[i].clone());
            assert(texts(r@) =~= texts(before).push(argv@[i as int]@));
            assert(texts(argv@).take(i + 1) =~= texts(argv@).take(i as int).push(
                argv@[i as int]@,
            ));
            i += 1;
        }
        assert(texts(argv@).take(i as int) =~= texts(argv@));
        r
    }

    /// What `docker exec` came to: the standard output, or why there is none.
    pub fn after_exec(&self, handle: &GuestHandle, outcome: CommandOutcome) -> (r: Result<
        Vec<u8>,
        GuestError,
    >)
        ensures
            match outcome {
                CommandOutcome::Unavailable(e) => r matches Err(g) && g@
                    == GuestErrorView::Runtime(e@),
                CommandOutcome::Exited { success, stdout, stderr } => if success {
                    r == Ok::<Vec<u8>, GuestError>(stdout)
                } else {
                    r matches Err(g) && g@ == GuestErrorView::Runtime(
                        "docker exec "@ + handle.container@ + " failed: "@ + stderr@,
                    )
                },
            },
    {
        match outcome {
            CommandOutcome::Unavailable(e) => Err(GuestError::Runtime(e)),
            CommandOutcome::Exited { success, stdout, stderr } => if success {
                Ok(stdout)
            } else {
                let mut message = "docker exec ".to_string();
                message.append(handle.container.as_str());
                message.append(" failed: ");
                message.append(stderr.as_str());
                Err(GuestError::Runtime(message))
            },
        }
    }
}

/// The `HostConfig` of the first container of an inspect document.
pub open spec fn host_config(doc: JsonView) -> Option<JsonView> {
    match doc.element(0) {
        Some(container) => container.field("HostConfig"@),
        None => None,
    }
}

/// The strings among `items`, in order.
pub open spec fn strings_among(items: Seq<JsonView>) -> Seq<Seq<char>>
    decreases items.len(),
{
    if items.len() == 0 {
        Seq::empty()
    } else {
        let before = strings_among(items.drop_last());
        match items.last().text() {
            Some(text) => before.push(text),
            None => before,
        }
    }
}

/// `list` followed by `path`, unless that is empty.
pub open spec fn with_path(list: Seq<Seq<char>>, path: Seq<char>) -> Seq<Seq<char>> {
    if path.len() == 0 {
        list
    } else {
        list.push(path)
    }
}

/// Source and destination of every mount in order, where there are any.
pub open spec fn mount_paths(items: Seq<JsonView>) -> Seq<Seq<char>>
    decreases items.len(),
{
    if items.len() == 0 {
        Seq::empty()
    } else {
        let mount = items.last();
        with_path(
            with_path(mount_paths(items.drop_last()), mount.text_or_empty("Source"@)),
            mount.text_or_empty("Destination"@),
        )
    }
}

/// The elements of a member that is an array; none otherwise.
pub open spec fn items_of(value: Option<JsonView>) -> Seq<JsonView> {
    match value {
        Some(json) => match json.items() {
            Some(items) => items,
            None => Seq::empty(),
        },
        None => Seq::empty(),
    }
}

/// The isolation that a `HostConfig` describes. What is missing reads as
/// empty, and as not privileged.
pub open spec fn isolation_in(host: JsonView) -> IsolationView {
    IsolationView {
        network_mode: host.text_or_empty("NetworkMode"@),
        privileged: match host.field("Privileged"@) {
            Some(value) => value.truth() == Some(true),
            None => false,
        },
        pid_mode: host.text_or_empty("PidMode"@),
        ipc_mode: host.text_or_empty("IpcMode"@),
        binds: strings_among(items_of(host.field("Binds"@))),
        mounts: mount_paths(items_of(host.field("Mounts"@))),
    }
}

/// The isolation that an inspect document describes.
pub open spec fn described_isolation(doc: JsonView) -> Result<IsolationView, GuestErrorView> {
    match host_config(doc) {
        Some(host) => Ok(isolation_in(host)),
        None => Err(GuestErrorView::Runtime("inspect missing HostConfig"@)),
    }
}

/// The isolation that the bytes of an inspect document describe.
pub open spec fn inspected_isolation(bytes: Seq<u8>) -> Result<IsolationView, GuestErrorView> {
    match json_document(bytes) {
        Ok(doc) => described_isolation(doc),
        Err(message) => Err(GuestErrorView::Runtime("inspect json: "@ + message)),
    }
}

/// The view of what reading an isolation came to.
pub open spec fn isolation_result(r: Result<GuestIsolation, GuestError>) -> Result<
    IsolationView,
    GuestErrorView,
> {
    match r {
        Ok(seen) => Ok(seen@),
        Err(e) => Err(e@),
    }
}

fn string_array(value: Option<&Json>) -> (r: Vec<String>)
    ensures
        texts(r@) == strings_among(items_of(opt_json(value))),
{
    let mut out: Vec<String> = Vec::new();
    assert(texts(out@) =~= Seq::empty());
    if let Some(json) = value {
        if let Some(items) = json.as_array() {
            let ghost views = json_views(items@);
            let mut i: usize = 0;
            assert(views.take(0) =~= Seq::empty());
            while i < items.len()
                invariant
                    views == json_views(items@),
                    i <= items@.len(),
                    texts(out@) == strings_among(views.take(i as int)),
                decreases items@.len() - i,
            {
                assert(views.take(i + 1).drop_last() =~= views.take(i as int));
                let ghost before = out@;
                if let Some(text) = items[i].as_str() {
                    out.push(text.to_string());
                    assert(texts(out@) =~= texts(before).push(text@));
                }
                i += 1;
            }
            assert(views.take(i as int) =~= views);
        }
    }
    out
}

fn push_path(list: &mut Vec<String>, path: String)
    ensures
        texts(final(list)@) == with_path(texts(old(list)@), path@),
{
    if !path.as_str().is_empty() {
        list.push(path);
        assert(texts(list@) =~= texts(old(list)@).push(path@));
    }
}

fn mount_list(value: Option<&Json>) -> (r: Vec<String>)
    ensures
        texts(r@) == mount_paths(items_of(opt_json(value))),
{
    let mut out: Vec<String> = Vec::new();
    assert(texts(out@) =~= Seq::empty());
    if let Some(json) = value {
        if let Some(items) = json.as_array() {
            let ghost views = json_views(items@);
            let mut i: usize = 0;
            assert(views.take(0) =~= Seq::empty());
            while i < items.len()
                invariant
                    views == json_views(items@),
                    i <= items@.len(),
                    texts(out@) == mount_paths(views.take(i as int)),
                decreases items@.len() - i,
            {
                assert(views.take(i + 1).drop_last() =~= views.take(i as int));
                push_path(&mut out, items[i].text_or_empty("Source"));
                push_path(&mut out, items[i].text_or_empty("Destination"));
                i += 1;
            }
            assert(views.take(i as int) =~= views);
        }
    }
    out
}

/// Reads the isolation of the first container of an inspect document.
pub fn isolation_from_document(doc: &Json) -> (r: Result<GuestIsolation, GuestError>)
    ensures
        isolation_result(r) == described_isolation(doc@),
{
    let host = match doc.at(0) {
        Some(container) => match container.get("HostConfig") {
            Some(host) => host,
            None => {
                return Err(GuestError::Runtime("inspect missing HostConfig".to_string()));
            },
        },
        None => {
            return Err(GuestError::Runtime("inspect missing HostConfig".to_string()));
        },
    };
    let privileged = match host.get("Privileged") {
        Some(value) => match value.as_bool() {
            Some(b) => b,
            None => false,
        },
        None => false,
    };
    Ok(
        GuestIsolation {
            network_mode: host.text_or_empty("NetworkMode"),
            privileged,
            pid_mode: host.text_or_empty("PidMode"),
            ipc_mode: host.text_or_empty("IpcMode"),
            binds: string_array(host.get("Binds")),
            mounts: mount_list(host.get("Mounts")),
        },
    )
}

/// Reads the isolation out of what `docker inspect` printed.
pub fn isolation_from_inspect_json(bytes: &[u8]) -> (r: Result<GuestIsolation, GuestError>)
    ensures
        isolation_result(r) == inspected_isolation(bytes@),
{
    match Json::parse(bytes) {
        Ok(doc) => isolation_from_document(&doc),
        Err(message) => Err(GuestError::Runtime(concat("inspect json: ", message.as_str()))),
    }
}

/// A running container's isolation, from what `docker inspect` came to. Used
/// by guest start to fail closed.
pub fn inspect_isolation(handle: &GuestHandle, outcome: &CommandOutcome) -> (r: Result<
    GuestIsolation,
    GuestError,
>)
    ensures
        isolation_result(r) == seen_isolation(handle.container@, *outcome),
{
    match outcome {
        CommandOutcome::Unavailable(e) => Err(GuestError::Runtime(e.clone())),
        CommandOutcome::Exited { success, stdout, stderr } => if *success {
            isolation_from_inspect_json(stdout.as_slice())
        } else {
            let mut message = "docker inspect ".to_string();
            message.append(handle.container.as_str());
            message.append(" failed: ");
            message.append(stderr.as_str());
            Err(GuestError::Runtime(message))
        },
    }
}

/// How a guest is started, driven and destroyed.
pub trait GuestRuntime: Send + Sync {
    /// Starting a guest may lead from `before` to `after` and return `r`. A
    /// runtime that says nothing of itself may do anything.
    open spec fn starts(
        before: Self,
        lease_id: LeaseId,
        spec: GuestSpec,
        after: Self,
        r: Result<GuestHandle, GuestError>,
    ) -> bool where Self: Sized {
        true
    }

    /// Destroying a guest may lead from `before` to `after` and return `r`.
    open spec fn destroys(
        before: Self,
        handle: GuestHandle,
        after: Self,
        r: Result<(), GuestError>,
    ) -> bool where Self: Sized {
        true
    }

    /// Running `argv` in a guest may lead from `before` to `after` and return
    /// `r`.
    open spec fn execs(
        before: Self,
        handle: GuestHandle,
        argv: Seq<Seq<char>>,
        after: Self,
        r: Result<Vec<u8>, GuestError>,
    ) -> bool where Self: Sized {
        true
    }

    /// Start an isolated guest. Must not mount secrets.
    fn start(&mut self, lease_id: &LeaseId, spec: &GuestSpec) -> (r: Result<
        GuestHandle,
        GuestError,
    >) where Self: Sized
        ensures
            Self::starts(*old(self), *lease_id, *spec, *final(self), r),
    ;

    /// Destroy the guest. v1 "revert".
    fn destroy(&mut self, handle: &GuestHandle) -> (r: Result<(), GuestError>) where Self: Sized
        ensures
            Self::destroys(*old(self), *handle, *final(self), r),
    ;

    /// Run `argv` inside the guest and return its standard output.
    fn exec(&mut self, handle: &GuestHandle, argv: &Vec<String>) -> (r: Result<
        Vec<u8>,
        GuestError,
    >) where Self: Sized
        ensures
            Self::execs(*old(self), *handle, texts(argv@), *final(self), r),
    ;
}

/// In-memory guest used by tests. Never talks to Docker.
#[derive(Debug)]
pub struct MemoryGuest {
    /// Containers that were started and not yet destroyed.
    pub live: Vec<String>,
}

impl Default for MemoryGuest {
    fn default() -> (r: MemoryGuest)
        ensures
            texts(r.live@) == Seq::<Seq<char>>::empty(),
    {
        let r = MemoryGuest { live: Vec::new() };
        assert(texts(r.live@) =~= Seq::empty());
        r
    }
}

/// `list` without every occurrence of `name`.
pub open spec fn without(list: Seq<Seq<char>>, name: Seq<char>) -> Seq<Seq<char>>
    decreases list.len(),
{
    if list.len() == 0 {
        Seq::empty()
    } else {
        let before = without(list.drop_last(), name);
        if list.last() == name {
            before
        } else {
            before.push(list.last())
        }
    }
}

impl GuestRuntime for MemoryGuest {
    /// The container is named after the lease and joins the live ones.
    open spec fn starts(
        before: MemoryGuest,
        lease_id: LeaseId,
        spec: GuestSpec,
        after: MemoryGuest,
        r: Result<GuestHandle, GuestError>,
    ) -> bool {
        &&& r matches Ok(handle)
        &&& handle.container@ == "memory-"@ + lease_id.0@
        &&& texts(after.live@) == texts(before.live@).push(handle.container@)
    }

    /// The container leaves the live ones.
    open spec fn destroys(
        before: MemoryGuest,
        handle: GuestHandle,
        after: MemoryGuest,
        r: Result<(), GuestError>,
    ) -> bool {
        &&& r is Ok
        &&& texts(after.live@) == without(texts(before.live@), handle.container@)
    }

    /// Everything is answered with the smallest picture.
    open spec fn execs(
        before: MemoryGuest,
        handle: GuestHandle,
        argv: Seq<Seq<char>>,
        after: MemoryGuest,
        r: Result<Vec<u8>, GuestError>,
    ) -> bool {
        &&& r matches Ok(bytes)
        &&& bytes@ == MINIMAL_PNG@
        &&& after == before
    }

    fn start(&mut self, lease_id: &LeaseId, spec: &GuestSpec) -> (r: Result<
        GuestHandle,
        GuestError,
    >)
    {
        let container = concat("memory-", lease_id.0.as_str());
        self.live.push(container.clone());
        assert(texts(self.live@) =~= texts(old(self).live@).push(container@));
        Ok(GuestHandle { container })
    }

    fn destroy(&mut self, handle: &GuestHandle) -> (r: Result<(), GuestError>)
    {
        let ghost all = texts(self.live@);
        let mut kept: Vec<String> = Vec::new();
        let mut i: usize = 0;
        assert(texts(kept@) =~= Seq::empty());
        assert(all.take(0) =~= Seq::empty());
        while i < self.live.len()
            invariant
                all == texts(self.live@),
                i <= self.live@.len(),
                texts(kept@) == without(all.take(i as int), handle.container@),
            decreases self.live@.len() - i,
        {
            assert(all.take(i + 1).drop_last() =~= all.take(i as int));
            let ghost before = kept@;
            if !same(self.live[i].as_str(), handle.container.as_str()) {
                kept.push(self.live[i].clone());
                assert(texts(kept@) =~= texts(before).push(all[i as int]));
            }
            i += 1;
        }
        assert(all.take(i as int) =~= all);
        self.live = kept;
        Ok(())
    }

    fn exec(&mut self, handle: &GuestHandle, argv: &Vec<String>) -> (r: Result<
        Vec<u8>,
        GuestError,
    >)
    {
        let mut bytes: Vec<u8> = Vec::new();
        let mut i: usize = 0;
        while i < MINIMAL_PNG.len()
            invariant
                i <= 67,
                bytes@ == MINIMAL_PNG@.take(i as int),
            decreases 67 - i,
        {
            bytes.push(MINIMAL_PNG[i]);
            i += 1;
        }
        assert(bytes@ =~= MINIMAL_PNG@);
        Ok(bytes)
    }
}

/// A name that gives nothing away to `docker`: no space, no double dash, no
/// display socket of the host.
pub open spec fn is_plain_name(s: Seq<char>) -> bool {
    &&& has_no_space(s)
    &&& !contains_text(s, "--"@)
    &&& !is_host_display(s)
}

/// An image that `docker` cannot take for anything but an image.
pub open spec fn is_plain_image(image: Seq<char>) -> bool {
    is_plain_name(image) && (image.len() > 0 ==> image[0] != '-')
}

/// No space in `s`.
pub open spec fn has_no_space(s: Seq<char>) -> bool {
    forall|i: int| 0 <= i < s.len() ==> #[trigger] s[i] != ' '
}

/// Every `h` is followed, three characters on, by something other than `t`:
/// such a text cannot hold the word `host`.
spec fn hostless(s: Seq<char>) -> bool {
    forall|i: int|
        0 <= i < s.len() && #[trigger] s[i] == 'h' ==> i + 3 < s.len() && s[i + 3] != 't'
}

/// No `x` runs into a `1` and no `w` into an `a`: such a text names no display
/// socket.
spec fn tame(s: Seq<char>) -> bool {
    forall|i: int| #![trigger s[i]]
        0 <= i < s.len() - 1 ==> {
            &&& (s[i] == 'x' || s[i] == 'X' ==> s[i + 1] != '1')
            &&& (s[i] == 'w' || s[i] == 'W' ==> s[i + 1] != 'a' && s[i + 1] != 'A')
        }
}

proof fn lemma_tame(s: Seq<char>)
    requires
        tame(s),
    ensures
        !is_host_display(s),
{
    reveal_strlit(".x11-unix");
    reveal_strlit("/tmp/.x11");
    reveal_strlit("wayland");
    let lower = lowercase(s);
    assert forall|at: int| !occurs_at(lower, ".x11-unix"@, at) by {
        if occurs_at(lower, ".x11-unix"@, at) {
            assert(lower[at + 1] == ".x11-unix"@[1]);
            assert(lower[at + 2] == ".x11-unix"@[2]);
            assert(ascii_lower(s[at + 1]) == 'x');
            assert(ascii_lower(s[at + 1 + 1]) == '1');
        }
    }
    assert forall|at: int| !occurs_at(lower, "/tmp/.x11"@, at) by {
        if occurs_at(lower, "/tmp/.x11"@, at) {
            assert(lower[at + 6] == "/tmp/.x11"@[6]);
            assert(lower[at + 7] == "/tmp/.x11"@[7]);
            assert(ascii_lower(s[at + 6]) == 'x');
            assert(ascii_lower(s[at + 6 + 1]) == '1');
        }
    }
    assert forall|at: int| !occurs_at(lower, "wayland"@, at) by {
        if occurs_at(lower, "wayland"@, at) {
            assert(lower[at + 0] == "wayland"@[0]);
            assert(lower[at + 1] == "wayland"@[1]);
            assert(ascii_lower(s[at]) == 'w');
            assert(ascii_lower(s[at + 1]) == 'a');
        }
    }
}

/// A needle without a space that no part holds is not in the joined parts.
proof fn lemma_not_joined(parts: Seq<Seq<char>>, needle: Seq<char>)
    requires
        needle.len() > 0,
        has_no_space(needle),
        forall|i: int| 0 <= i < parts.len() ==> !contains_text(#[trigger] parts[i], needle),
    ensures
        !contains_text(joined_by_space(parts), needle),
    decreases parts.len(),
{
    let all = joined_by_space(parts);
    if parts.len() == 1 {
        assert(!contains_text(parts[0], needle));
    } else if parts.len() > 1 {
        let front = parts.drop_last();
        assert forall|i: int| 0 <= i < front.len() implies !contains_text(
            #[trigger] front[i],
            needle,
        ) by {
            assert(front[i] == parts[i]);
        }
        lemma_not_joined(front, needle);
        let head = joined_by_space(front);
        let tail = parts.last();
        assert(tail == parts[parts.len() - 1]);
        assert forall|at: int| !occurs_at(all, needle, at) by {
            if occurs_at(all, needle, at) {
                if at + needle.len() <= head.len() {
                    assert forall|k: int| 0 <= k < needle.len() implies head[at + k]
                        == #[trigger] needle[k] by {
                        assert(all[at + k] == needle[k]);
                    }
                    assert(occurs_at(head, needle, at));
                } else if at > head.len() {
                    let from = at - head.len() - 1;
                    assert forall|k: int| 0 <= k < needle.len() implies tail[from + k]
                        == #[trigger] needle[k] by {
                        assert(all[at + k] == needle[k]);
                    }
                    assert(occurs_at(tail, needle, from));
                } else {
                    let k = head.len() - at;
                    assert(all[at + k] == needle[k]);
                    assert(all[head.len() as int] == ' ');
                }
            }
        }
    } else {
        assert forall|at: int| !occurs_at(all, needle, at) by {}
    }
}

/// The joined parts end with `suffix` only if the last part does, where the
/// suffix has no space.
proof fn lemma_joined_end(parts: Seq<Seq<char>>, suffix: Seq<char>)
    requires
        parts.len() > 0,
        has_no_space(suffix),
        suffix.len() > 0,
        occurs_at(joined_by_space(parts), suffix, joined_by_space(parts).len() - suffix.len()),
    ensures
        occurs_at(parts.last(), suffix, parts.last().len() - suffix.len()),
{
    let all = joined_by_space(parts);
    let tail = parts.last();
    let at = all.len() - suffix.len();
    if parts.len() > 1 {
        let head = joined_by_space(parts.drop_last());
        assert(all == head + seq![' '] + tail);
        if at <= head.len() {
            let k = head.len() - at;
            assert(all[at + k] == suffix[k]);
            assert(all[head.len() as int] == ' ');
        }
        let from = tail.len() - suffix.len();
        assert forall|k: int| 0 <= k < suffix.len() implies tail[from + k] == #[trigger] suffix[k] by {
            assert(all[at + k] == suffix[k]);
        }
    }
}

/// A needle with one space is in the joined parts only across two neighbours.
proof fn lemma_not_across(
    parts: Seq<Seq<char>>,
    before: Seq<char>,
    behind: Seq<char>,
    needle: Seq<char>,
)
    requires
        before.len() > 0,
        has_no_space(before),
        has_no_space(behind),
        needle == before + seq![' '] + behind,
        forall|i: int| 0 <= i < parts.len() ==> has_no_space(#[trigger] parts[i]),
        forall|i: int|
            0 <= i < parts.len() - 1 && occurs_at(
                #[trigger] parts[i],
                before,
                parts[i].len() - before.len(),
            ) ==> !starts_with_text(parts[i + 1], behind),
    ensures
        !contains_text(joined_by_space(parts), needle),
    decreases parts.len(),
{
    let all = joined_by_space(parts);
    let split = before.len() as int;
    assert(needle[split] == ' ');
    if parts.len() <= 1 {
        assert forall|at: int| !occurs_at(all, needle, at) by {
            if occurs_at(all, needle, at) {
                assert(all[at + split] == needle[split]);
                assert(has_no_space(parts[0]));
            }
        }
    } else {
        let front = parts.drop_last();
        let head = joined_by_space(front);
        let tail = parts.last();
        let n = parts.len() as int;
        assert(tail == parts[n - 1]);
        assert forall|i: int| 0 <= i < front.len() implies has_no_space(#[trigger] front[i]) by {
            assert(front[i] == parts[i]);
        }
        assert forall|i: int|
            0 <= i < front.len() - 1 && occurs_at(
                #[trigger] front[i],
                before,
                front[i].len() - before.len(),
            ) implies !starts_with_text(front[i + 1], behind) by {
            assert(front[i] == parts[i] && front[i + 1] == parts[i + 1]);
        }
        lemma_not_across(front, before, behind, needle);
        assert forall|at: int| !occurs_at(all, needle, at) by {
            if occurs_at(all, needle, at) {
                let gap = head.len() as int;
                assert(all[gap] == ' ');
                assert(all[at + split] == needle[split]);
                if at <= gap < at + needle.len() {
                    assert(all[at + (gap - at)] == needle[gap - at]);
                }
                if at + needle.len() <= gap {
                    assert forall|k: int| 0 <= k < needle.len() implies head[at + k]
                        == #[trigger] needle[k] by {
                        assert(all[at + k] == needle[k]);
                    }
                    assert(occurs_at(head, needle, at));
                } else if at > gap {
                    assert(tail[at + split - gap - 1] == ' ');
                } else if at + split == gap {
                    assert forall|k: int| 0 <= k < before.len() implies head[at + k]
                        == #[trigger] before[k] by {
                        assert(needle[k] == before[k]);
                        assert(all[at + k] == needle[k]);
                    }
                    assert(at == head.len() - before.len());
                    lemma_joined_end(front, before);
                    assert(front.last() == parts[n - 2]);
                    assert forall|k: int| 0 <= k < behind.len() implies tail[0 + k]
                        == #[trigger] behind[k] by {
                        assert(needle[split + 1 + k] == behind[k]);
                        assert(all[at + (split + 1 + k)] == needle[split + 1 + k]);
                    }
                    assert(starts_with_text(parts[n - 2 + 1], behind));
                } else if gap < at + split {
                    assert(needle[gap - at] == before[gap - at]);
                } else {
                    assert(needle[gap - at] == behind[gap - at - split - 1]);
                }
            }
        }
    }
}

/// What begins with a double dash is not in a text without one.
proof fn lemma_no_double_dash(s: Seq<char>, needle: Seq<char>)
    requires
        !contains_text(s, "--"@),
        needle.len() >= 2,
        needle[0] == '-' && needle[1] == '-',
    ensures
        !contains_text(s, needle),
{
    reveal_strlit("--");
    assert forall|at: int| !occurs_at(s, needle, at) by {
        if occurs_at(s, needle, at) {
            assert(s[at + 0] == needle[0] && s[at + 1] == needle[1]);
            assert(occurs_at(s, "--"@, at));
        }
    }
}

/// An argument that is no flag of a hole, in no spelling.
spec fn is_closed(arg: Seq<char>) -> bool {
    !is_open_flag(arg) && !is_other_spelling(arg) && arg != "--net"@
}

/// A fixed word of the command line.
spec fn is_fixed_word(arg: Seq<char>) -> bool {
    &&& has_no_space(arg)
    &&& hostless(arg)
    &&& !is_host_display(arg)
    &&& is_closed(arg)
}

/// Telling letters of an argument are enough to see that it is no flag of a
/// hole.
proof fn lemma_closed(arg: Seq<char>)
    requires
        arg.len() > 1 && arg[0] == '-' ==> arg[1] != 'e' && arg[1] != 'v',
        arg.len() > 3 && arg[0] == '-' ==> arg[2] != 'e' && arg[2] != 'p' && arg[2] != 'v' && (
        arg[2] != 'm' || arg[3] != 'o'),
        arg.len() == 5 || arg.len() == 10 ==> arg[0] != '-',
    ensures
        is_closed(arg),
{
    reveal_strlit("--privileged");
    reveal_strlit("--privileged=");
    reveal_strlit("-e");
    reveal_strlit("--env");
    reveal_strlit("-v");
    reveal_strlit("--volume");
    reveal_strlit("--mount");
    reveal_strlit("--mount=");
    reveal_strlit("--net");
    reveal_strlit("--net=host");
    if starts_with_text(arg, "--privileged="@) {
        assert(arg[0int + 0] == "--privileged="@[0]);
        assert(arg[0int + 2] == "--privileged="@[2]);
    }
    if starts_with_text(arg, "-e"@) {
        assert(arg[0int + 0] == "-e"@[0]);
        assert(arg[0int + 1] == "-e"@[1]);
    }
    if starts_with_text(arg, "-v"@) {
        assert(arg[0int + 0] == "-v"@[0]);
        assert(arg[0int + 1] == "-v"@[1]);
    }
    if starts_with_text(arg, "--env"@) {
        assert(arg[0int + 0] == "--env"@[0]);
        assert(arg[0int + 2] == "--env"@[2]);
    }
    if starts_with_text(arg, "--volume"@) {
        assert(arg[0int + 0] == "--volume"@[0]);
        assert(arg[0int + 2] == "--volume"@[2]);
    }
    if starts_with_text(arg, "--mount="@) {
        assert(arg[0int + 0] == "--mount="@[0]);
        assert(arg[0int + 2] == "--mount="@[2]);
        assert(arg[0int + 3] == "--mount="@[3]);
    }
}

/// Without other spellings there is no hole in the options.
proof fn lemma_no_hole_in_options(args: Seq<Seq<char>>, i: int)
    requires
        forall|k: int| 0 <= k < args.len() ==> is_closed(#[trigger] args[k]),
    ensures
        !hole_in_options(args, i),
    decreases args.len() + 2 - i,
{
    if 0 <= i < args.len() {
        assert(is_closed(args[i]));
        lemma_no_hole_in_options(args, i + 1);
        lemma_no_hole_in_options(args, i + 2);
    }
}

proof fn lemma_fixed_word(arg: Seq<char>)
    requires
        has_no_space(arg),
        hostless(arg),
        tame(arg),
        arg.len() > 1 && arg[0] == '-' ==> arg[1] != 'e' && arg[1] != 'v',
        arg.len() > 3 && arg[0] == '-' ==> arg[2] != 'e' && arg[2] != 'p' && arg[2] != 'v' && (
        arg[2] != 'm' || arg[3] != 'o'),
        arg.len() == 5 || arg.len() == 10 ==> arg[0] != '-',
    ensures
        is_fixed_word(arg),
{
    lemma_tame(arg);
    lemma_closed(arg);
}

proof fn lemma_fixed_words()
    ensures
        is_fixed_word("run"@),
        is_fixed_word("-d"@),
        is_fixed_word("--rm"@),
        is_fixed_word("--name"@),
        is_fixed_word("--network"@),
        is_fixed_word("none"@),
        is_fixed_word("--memory"@),
        is_fixed_word("--cpus"@),
        is_fixed_word("--label"@),
        is_fixed_word("berthos.role=guest"@),
{
    reveal_strlit("run");
    reveal_strlit("-d");
    reveal_strlit("--rm");
    reveal_strlit("--name");
    reveal_strlit("--network");
    reveal_strlit("none");
    reveal_strlit("--memory");
    reveal_strlit("--cpus");
    reveal_strlit("--label");
    reveal_strlit("berthos.role=guest");
    lemma_fixed_word("run"@);
    lemma_fixed_word("-d"@);
    lemma_fixed_word("--rm"@);
    lemma_fixed_word("--name"@);
    lemma_fixed_word("--network"@);
    lemma_fixed_word("none"@);
    lemma_fixed_word("--memory"@);
    lemma_fixed_word("--cpus"@);
    lemma_fixed_word("--label"@);
    lemma_fixed_word("berthos.role=guest"@);
}

/// A text without the word `host` asks for no network of the host.
proof fn lemma_hostless(s: Seq<char>)
    requires
        hostless(s),
    ensures
        !contains_text(s, "--network=host"@),
{
    reveal_strlit("--network=host");
    assert forall|at: int| !occurs_at(s, "--network=host"@, at) by {
        if occurs_at(s, "--network=host"@, at) {
            assert(s[at + 10] == "--network=host"@[10]);
            assert(s[at + 13] == "--network=host"@[13]);
        }
    }
}

/// Behind `berthos-` a plain name names no display socket.
proof fn lemma_prefixed_name(prefix: Seq<char>, name: Seq<char>)
    requires
        !is_host_display(name),
        prefix == "berthos-"@ || prefix == "berthos.lease="@,
    ensures
        !opens_hole(prefix + name),
        is_closed(prefix + name),
{
    reveal_strlit("berthos-");
    reveal_strlit("berthos.lease=");
    reveal_strlit(".x11-unix");
    reveal_strlit("/tmp/.x11");
    reveal_strlit("wayland");
    let arg = prefix + name;
    let lower = lowercase(arg);
    assert(arg[0] == 'b');
    lemma_closed(arg);
    assert forall|needle: Seq<char>, at: int|
        #![trigger occurs_at(lower, needle, at)]
        occurs_at(lower, needle, at) && at >= prefix.len() implies occurs_at(
        lowercase(name),
        needle,
        at - prefix.len(),
    ) by {
        let from = at - prefix.len();
        assert forall|k: int| 0 <= k < needle.len() implies lowercase(name)[from + k]
            == #[trigger] needle[k] by {
            assert(lower[at + k] == needle[k]);
            assert(arg[at + k] == name[from + k]);
        }
    }
    assert forall|i: int| 0 <= i < prefix.len() implies lower[i] == prefix[i] && #[trigger] prefix[i]
        != '/' && prefix[i] != 'w' && (prefix[i] == '.' ==> i + 1 < prefix.len() && prefix[i + 1]
        != 'x') by {}
    assert forall|at: int| !occurs_at(lower, ".x11-unix"@, at) by {
        if occurs_at(lower, ".x11-unix"@, at) {
            assert(lower[at + 0] == ".x11-unix"@[0]);
            assert(lower[at + 1] == ".x11-unix"@[1]);
            if at < prefix.len() {
                assert(lower[at] == prefix[at]);
                assert(lower[at + 1] == prefix[at + 1]);
            }
        }
    }
    assert forall|at: int| !occurs_at(lower, "/tmp/.x11"@, at) by {
        if occurs_at(lower, "/tmp/.x11"@, at) {
            assert(lower[at + 0] == "/tmp/.x11"@[0]);
            if at < prefix.len() {
                assert(lower[at] == prefix[at]);
            }
        }
    }
    assert forall|at: int| !occurs_at(lower, "wayland"@, at) by {
        if occurs_at(lower, "wayland"@, at) {
            assert(lower[at + 0] == "wayland"@[0]);
            if at < prefix.len() {
                assert(lower[at] == prefix[at]);
            }
        }
    }
}

/// A plain image opens no hole.
proof fn lemma_plain_image(image: Seq<char>)
    requires
        is_plain_image(image),
    ensures
        !opens_hole(image),
        is_closed(image),
{
    lemma_closed(image);
}

/// Behind the fixed beginnings a plain name asks for no network of the host,
/// but for the names that spell it out.
proof fn lemma_prefixed_network(name: Seq<char>)
    requires
        !contains_text(name, "--"@),
        !starts_with_text(name, "-network=host"@),
    ensures
        !contains_text("berthos-"@ + name, "--network=host"@),
        !contains_text("berthos.lease="@ + name, "--network=host"@),
{
    let needle = "--network=host"@;
    reveal_strlit("--network=host");
    reveal_strlit("-network=host");
    assert(needle.drop_first() =~= "-network=host"@);
    reveal_strlit("berthos-");
    reveal_strlit("berthos.lease=");
    reveal_strlit("--");
    let container = "berthos-"@ + name;
    assert forall|at: int| !occurs_at(container, needle, at) by {
        if occurs_at(container, needle, at) {
            assert(container[at + 0] == needle[0] && container[at + 1] == needle[1]);
            if at >= 8 {
                assert(occurs_at(name, "--"@, at - 8));
            } else if at == 7 {
                let rest = needle.drop_first();
                assert forall|k: int| 0 <= k < rest.len() implies name[0 + k] == #[trigger] rest[k] by {
                    assert(container[at + (k + 1)] == needle[k + 1]);
                }
                assert(starts_with_text(name, rest));
            }
        }
    }
    let label = "berthos.lease="@ + name;
    assert forall|at: int| !occurs_at(label, needle, at) by {
        if occurs_at(label, needle, at) {
            assert(label[at + 0] == needle[0] && label[at + 1] == needle[1]);
            if at >= 14 {
                assert(occurs_at(name, "--"@, at - 14));
            }
        }
    }
}

/// The guest of a plainly named lease, run from a plain image, never breaks
/// isolation, however large it is: it has no network, is named after its
/// lease, and nothing follows the image. Only a lease whose name begins with
/// `-network=host` would spell out a network behind the dash of its container.
pub proof fn law_plain_guests_are_started_isolated(
    id: Seq<char>,
    image: Seq<char>,
    vcpu: u32,
    mem_gib: u32,
)
    requires
        is_plain_name(id),
        is_plain_image(image),
        !starts_with_text(id, "-network=host"@),
    ensures
        ({
            let args = run_args(id, image, vcpu, mem_gib);
            &&& !violates_isolation(args)
            &&& args[3] == "--name"@ && args[4] == "berthos-"@ + id
            &&& args[5] == "--network"@ && args[6] == "none"@
            &&& forall|i: int|
                0 <= i < args.len() ==> !opens_hole(#[trigger] args[i]) && !is_other_spelling(
                    args[i],
                )
            &&& args.last() == image
        }),
{
    let args = run_args(id, image, vcpu, mem_gib);
    reveal_strlit("--network=host");
    reveal_strlit("--network host");
    reveal_strlit("--network");
    reveal_strlit("host");
    reveal_strlit("g");
    reveal_strlit("berthos-");
    reveal_strlit("berthos.lease=");
    lemma_fixed_words();
    lemma_decimal_digits(vcpu as nat);
    lemma_decimal_digits(mem_gib as nat);
    lemma_fixed_word(decimal(mem_gib as nat) + "g"@);
    lemma_fixed_word(decimal(vcpu as nat));
    lemma_prefixed_name("berthos-"@, id);
    lemma_prefixed_name("berthos.lease="@, id);
    lemma_plain_image(image);
    assert(has_no_space(container_name(id)));
    assert(has_no_space("berthos.lease="@ + id));
    lemma_prefixed_network(id);
    lemma_no_double_dash(image, "--network=host"@);
    assert forall|i: int| 0 <= i < args.len() implies !opens_hole(#[trigger] args[i]) && is_closed(
        args[i],
    ) && has_no_space(args[i]) && !contains_text(args[i], "--network=host"@) by {
        if i != 4 && i != 14 && i != 15 {
            assert(is_fixed_word(args[i]));
            lemma_hostless(args[i]);
        }
    }
    lemma_not_joined(args, "--network=host"@);
    lemma_first_letters(id, image, vcpu, mem_gib);
    assert("--network host"@ =~= "--network"@ + seq![' '] + "host"@);
    lemma_label_ends(id, "--network"@);
    lemma_not_across(args, "--network"@, "host"@, "--network host"@);
    lemma_no_hole_in_options(args, first_option(args));
}

/// No argument but the image begins with `host`.
proof fn lemma_first_letters(id: Seq<char>, image: Seq<char>, vcpu: u32, mem_gib: u32)
    ensures
        ({
            let args = run_args(id, image, vcpu, mem_gib);
            forall|i: int| 0 <= i < 15 ==> !starts_with_text(#[trigger] args[i], "host"@)
        }),
{
    let args = run_args(id, image, vcpu, mem_gib);
    reveal_strlit("host");
    reveal_strlit("run");
    reveal_strlit("-d");
    reveal_strlit("--rm");
    reveal_strlit("--name");
    reveal_strlit("--network");
    reveal_strlit("none");
    reveal_strlit("--memory");
    reveal_strlit("--cpus");
    reveal_strlit("--label");
    reveal_strlit("berthos.role=guest");
    reveal_strlit("berthos-");
    reveal_strlit("berthos.lease=");
    lemma_decimal_digits(vcpu as nat);
    lemma_decimal_digits(mem_gib as nat);
    assert forall|i: int| 0 <= i < 15 implies !starts_with_text(#[trigger] args[i], "host"@) by {
        assert(args[i].len() > 0);
        assert(args[i][0] != 'h');
        if starts_with_text(args[i], "host"@) {
            assert(args[i][0int + 0] == "host"@[0]);
        }
    }
}

/// The label of a plainly named lease does not end in a flag.
proof fn lemma_label_ends(id: Seq<char>, flag: Seq<char>)
    requires
        !contains_text(id, "--"@),
        flag.len() >= 2,
        flag[0] == '-' && flag[1] == '-',
    ensures
        !occurs_at("berthos.lease="@ + id, flag, ("berthos.lease="@ + id).len() - flag.len()),
{
    reveal_strlit("berthos.lease=");
    reveal_strlit("--");
    let label = "berthos.lease="@ + id;
    let at = label.len() - flag.len();
    if occurs_at(label, flag, at) {
        assert(label[at + 0] == flag[0] && label[at + 1] == flag[1]);
        if at >= 14 {
            assert(occurs_at(id, "--"@, at - 14));
        }
    }
}

/// A lease id as the node allocates them is a plain name.
proof fn lemma_allocated_ids_are_plain(id: Seq<char>)
    requires
        is_allocated_id(id),
    ensures
        is_plain_name(id),
        !starts_with_text(id, "-network=host"@),
{
    let digits = choose|digits: Seq<char>| #[trigger]
        all_hex(digits) && digits.len() == 32 && id == "l_"@ + digits;
    reveal_strlit("l_");
    reveal_strlit("--");
    reveal_strlit("-network=host");
    assert forall|i: int| 0 <= i < id.len() implies #[trigger] id[i] != '-' && id[i] != ' ' && id[i]
        != 'x' && id[i] != 'X' && id[i] != 'w' && id[i] != 'W' by {
        if i >= 2 {
            assert(is_hex_digit(digits[i - 2]));
        }
    }
    lemma_tame(id);
    assert forall|at: int| !occurs_at(id, "--"@, at) by {
        if occurs_at(id, "--"@, at) {
            assert(id[at + 0] == "--"@[0]);
        }
    }
    if starts_with_text(id, "-network=host"@) {
        assert(id[0int + 0] == "-network=host"@[0]);
    }
}

/// The required image is a plain one.
pub proof fn lemma_required_image_is_plain()
    ensures
        is_plain_image(REQUIRED_GUEST_IMAGE@),
{
    reveal_strlit("berthos-linux-desktop:v1");
    reveal_strlit("--");
    let image = REQUIRED_GUEST_IMAGE@;
    lemma_tame(image);
    assert forall|i: int| 0 <= i < image.len() - 1 && #[trigger] image[i] == '-' implies image[i + 1]
        != '-' by {}
    assert forall|at: int| !occurs_at(image, "--"@, at) by {
        if occurs_at(image, "--"@, at) {
            assert(image[at + 0] == "--"@[0] && image[at + 1] == "--"@[1]);
        }
    }
}

/// The guest of a lease that the node allocated, run from any plain image,
/// never breaks isolation, however large it is. The required image is one.
pub proof fn law_node_guests_are_started_isolated(
    id: Seq<char>,
    image: Seq<char>,
    vcpu: u32,
    mem_gib: u32,
)
    requires
        is_allocated_id(id),
        is_plain_image(image) || image == REQUIRED_GUEST_IMAGE@,
    ensures
        !violates_isolation(run_args(id, image, vcpu, mem_gib)),
{
    lemma_allocated_ids_are_plain(id);
    lemma_required_image_is_plain();
    law_plain_guests_are_started_isolated(id, image, vcpu, mem_gib);
}

/// Every guest is started without a network.
pub proof fn law_guests_are_started_without_a_network(
    id: Seq<char>,
    image: Seq<char>,
    vcpu: u32,
    mem_gib: u32,
)
    ensures
        exists|i: int|
            0 <= i < run_args(id, image, vcpu, mem_gib).len() - 1 && #[trigger] run_args(
                id,
                image,
                vcpu,
                mem_gib,
            )[i] == "--network"@ && run_args(id, image, vcpu, mem_gib)[i + 1] == "none"@,
{
    assert(run_args(id, image, vcpu, mem_gib)[5] == "--network"@);
}

/// A destroyed guest is gone: its name is no longer in the list, and every
/// other name still is.
pub proof fn law_destroyed_guest_is_gone(live: Seq<Seq<char>>, name: Seq<char>)
    ensures
        !without(live, name).contains(name),
        forall|other: Seq<char>|
            other != name ==> (#[trigger] without(live, name).contains(other) <==> live.contains(
                other,
            )),
    decreases live.len(),
{
    if live.len() > 0 {
        let rest = live.drop_last();
        law_destroyed_guest_is_gone(rest, name);
        let kept = without(rest, name);
        let all = without(live, name);
        assert(live =~= rest.push(live.last()));
        assert forall|other: Seq<char>| other != name implies (#[trigger] all.contains(other)
            <==> live.contains(other)) by {
            if live.contains(other) {
                let i = choose|i: int| 0 <= i < live.len() && live[i] == other;
                if i < rest.len() {
                    assert(rest[i] == other);
                    assert(kept.contains(other));
                    let k = choose|k: int| 0 <= k < kept.len() && kept[k] == other;
                    assert(all[k] == other);
                } else {
                    assert(all[all.len() - 1] == other);
                }
            }
            if all.contains(other) {
                let i = choose|i: int| 0 <= i < all.len() && all[i] == other;
                if i < kept.len() {
                    assert(kept[i] == other);
                    assert(kept.contains(other));
                    let k = choose|k: int| 0 <= k < rest.len() && rest[k] == other;
                    assert(live[k] == other);
                } else {
                    assert(live[live.len() - 1] == other);
                }
            }
        }
        if all.contains(name) {
            let i = choose|i: int| 0 <= i < all.len() && all[i] == name;
            assert(kept[i] == name);
            assert(kept.contains(name));
        }
    }
}

/// A name that is not in a list is not taken out of it.
proof fn lemma_nothing_to_take_out(list: Seq<Seq<char>>, name: Seq<char>)
    requires
        !list.contains(name),
    ensures
        without(list, name) == list,
    decreases list.len(),
{
    if list.len() > 0 {
        let rest = list.drop_last();
        assert(list[list.len() - 1] != name);
        assert forall|i: int| 0 <= i < rest.len() implies rest[i] != name by {
            assert(list[i] == rest[i]);
        }
        lemma_nothing_to_take_out(rest, name);
        assert(rest.push(list.last()) =~= list);
    } else {
        assert(list =~= Seq::empty());
    }
}

/// A guest in memory lives from its start to its end: it is in the list
/// meanwhile, and afterwards the list is what it was before.
pub proof fn law_guest_lives_until_it_is_destroyed(
    before: MemoryGuest,
    lease_id: LeaseId,
    spec: GuestSpec,
    between: MemoryGuest,
    handle: GuestHandle,
    after: MemoryGuest,
    ended: Result<(), GuestError>,
)
    requires
        MemoryGuest::starts(before, lease_id, spec, between, Ok(handle)),
        MemoryGuest::destroys(between, handle, after, ended),
        !texts(before.live@).contains("memory-"@ + lease_id.0@),
    ensures
        texts(between.live@).contains(handle.container@),
        !texts(after.live@).contains(handle.container@),
        texts(after.live@) == texts(before.live@),
{
    let name = handle.container@;
    let list = texts(before.live@);
    assert(list.push(name)[list.len() as int] == name);
    assert(list.push(name).drop_last() =~= list);
    lemma_nothing_to_take_out(list, name);
}

} // verus!
