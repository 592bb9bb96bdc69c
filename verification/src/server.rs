//! The supervisor of the single backend server process.
//!
//! The supervisor never touches a process itself. It records which child
//! is running, with which token and port, and decides what the caller has
//! to do next: what to launch, what to kill, what a liveness poll means.

use vstd::prelude::*;
use crate::config::AppConfig;
use crate::terminator::{
    child_setup_for,
    kill_action_for,
    setup_child_process,
    terminate_tree,
    ChildSetup,
    KillAction,
    Platform,
};
use crate::text::{decimal, decimal_string, join_path, joined, text_of, texts_of};
use crate::token::{generate_token, is_rendered_token, is_token};

verus! {

/// Why a supervisor operation failed.
#[derive(Clone, Copy, Debug, PartialEq, Eq, Structural)]
pub enum ServerError {
    /// A server child is already recorded.
    AlreadyRunning,
    /// No port is configured and no free port could be found.
    PortBindFailed,
    /// The directory of the running executable is unknown.
    ExecutableUnresolved,
    /// The bundled runtime is missing next to the executable.
    RuntimeNotFound,
    /// The installed server entry point is missing: setup has not run.
    EntryNotFound,
    /// The operating system refused to spawn the child.
    SpawnFailed,
    /// The operating system refused to kill the child.
    KillFailed,
    /// The liveness poll itself failed.
    PollFailed,
    /// The state was left locked by a caller that panicked.
    LockPoisoned,
}

/// Whether the backend is up.
#[derive(Clone, Copy, Debug, PartialEq, Eq, Structural)]
pub enum ServerStatus {
    Running,
    Stopped,
}

/// How the backend is run.
#[derive(Clone, Copy, Debug, PartialEq, Eq, Structural)]
pub enum RunMode {
    /// From local source, through the user's login shell.
    Development,
    /// The bundled runtime against the installed package.
    Production,
}

/// What a non-blocking liveness poll of the child found.
#[derive(Clone, Copy, Debug, PartialEq, Eq, Structural)]
pub enum ChildPoll {
    /// The child has exited and was reaped.
    Exited,
    /// The child is still running.
    Alive,
    /// The poll failed.
    Failed,
}

/// Where the port of the next launch comes from.
#[derive(Clone, Copy, Debug, PartialEq, Eq, Structural)]
pub enum PortPlan {
    /// The configured port is used as it is.
    Fixed(u16),
    /// A loopback socket is bound to port 0, its port read, and the socket
    /// released just before the launch.
    Ephemeral,
}

/// The abstract state of the supervisor.
pub struct ServerModel {
    /// Process id of the recorded child.
    pub child: Option<u32>,
    pub token: Option<Seq<char>>,
    pub port: Option<u16>,
}

impl ServerModel {
    /// Nothing is running.
    pub open spec fn stopped() -> ServerModel {
        ServerModel { child: None, token: None, port: None }
    }

    pub open spec fn running(self) -> bool {
        self.child is Some
    }

    /// Token and port are present exactly while a child is.
    pub open spec fn wf(self) -> bool {
        &&& self.token is Some <==> self.child is Some
        &&& self.port is Some <==> self.child is Some
    }

    /// The state after a launch was recorded: unchanged if a child was
    /// already there.
    pub open spec fn after_start(self, pid: u32, token: Seq<char>, port: u16) -> ServerModel {
        if self.running() {
            self
        } else {
            ServerModel { child: Some(pid), token: Some(token), port: Some(port) }
        }
    }

    /// The state after a liveness poll: an exit that was seen clears it.
    pub open spec fn after_poll(self, poll: ChildPoll) -> ServerModel {
        if self.running() && poll == ChildPoll::Exited {
            ServerModel::stopped()
        } else {
            self
        }
    }

    /// What a liveness poll reports.
    pub open spec fn status_of_poll(self, poll: ChildPoll) -> Result<ServerStatus, ServerError> {
        if !self.running() {
            Ok(ServerStatus::Stopped)
        } else {
            match poll {
                ChildPoll::Exited => Ok(ServerStatus::Stopped),
                ChildPoll::Alive => Ok(ServerStatus::Running),
                ChildPoll::Failed => Err(ServerError::PollFailed),
            }
        }
    }

    /// What has to be done to the process tree on teardown.
    pub open spec fn teardown(self, platform: Platform) -> KillAction {
        match self.child {
            Some(pid) => kill_action_for(platform, pid),
            None => KillAction::Nothing,
        }
    }
}

/// The supervisor's record of the backend server.
pub struct ServerState {
    child: Option<u32>,
    desktop_token: Option<String>,
    port: Option<u16>,
}

impl View for ServerState {
    type V = ServerModel;

    closed spec fn view(&self) -> ServerModel {
        ServerModel {
            child: self.child,
            token: match self.desktop_token {
                Some(t) => Some(t@),
                None => None,
            },
            port: self.port,
        }
    }
}

impl ServerState {
    /// Every supervisor is well formed: callers cannot reach the fields.
    #[verifier::type_invariant]
    spec fn well_formed(self) -> bool {
        self@.wf()
    }

    /// A supervisor with nothing running.
    pub fn new() -> (s: Self)
        ensures
            s@ == ServerModel::stopped(),
            s@.wf(),
    {
        ServerState { child: None, desktop_token: None, port: None }
    }

    /// Whether a child is recorded.
    pub fn is_running(&self) -> (r: bool)
        ensures
            r == self@.running(),
            self@.wf(),
    {
        proof {
            use_type_invariant(self);
        }
        self.child.is_some()
    }

    /// The child whose liveness the next status request has to poll.
    pub fn child_pid(&self) -> (r: Option<u32>)
        ensures
            r == self@.child,
            self@.wf(),
    {
        proof {
            use_type_invariant(self);
        }
        self.child
    }

    /// Emergency teardown at application exit: forgets the child, its token
    /// and its port, and says how to terminate the process tree.
    pub fn kill_sync(&mut self, platform: Platform) -> (action: KillAction)
        ensures
            final(self)@ == ServerModel::stopped(),
            action == old(self)@.teardown(platform),
    {
        let action = match self.child {
            Some(pid) => terminate_tree(platform, pid),
            None => KillAction::Nothing,
        };
        *self = ServerState { child: None, desktop_token: None, port: None };
        action
    }
}

/// One variable of the child's environment.
#[derive(Debug, Clone)]
pub struct EnvVar {
    pub name: String,
    pub value: String,
}

/// What the caller has found out about the machine before a launch.
#[derive(Debug, Clone)]
pub struct LaunchFacts {
    pub platform: Platform,
    /// The application's data directory.
    pub data_dir: String,
    /// The local source tree; present in development mode only.
    pub dev_dir: Option<String>,
    /// The user's login shell, if the environment names one.
    pub shell: Option<String>,
    /// The directory of the running executable, if it can be resolved.
    pub exe_dir: Option<String>,
    /// Whether a file exists at `bun_path_of(exe_dir, platform)`.
    pub runtime_exists: bool,
    /// Whether a file exists at `server_entry_of(data_dir)`.
    pub entry_exists: bool,
}

/// The abstract value of `LaunchFacts`.
pub struct FactsModel {
    pub platform: Platform,
    pub data_dir: Seq<char>,
    pub dev_dir: Option<Seq<char>>,
    pub shell: Option<Seq<char>>,
    pub exe_dir: Option<Seq<char>>,
    pub runtime_exists: bool,
    pub entry_exists: bool,
}

impl View for LaunchFacts {
    type V = FactsModel;

    open spec fn view(&self) -> FactsModel {
        FactsModel {
            platform: self.platform,
            data_dir: self.data_dir@,
            dev_dir: text_of(self.dev_dir),
            shell: text_of(self.shell),
            exe_dir: text_of(self.exe_dir),
            runtime_exists: self.runtime_exists,
            entry_exists: self.entry_exists,
        }
    }
}

/// Everything the caller needs to spawn the backend.
#[derive(Debug, Clone)]
pub struct LaunchPlan {
    pub mode: RunMode,
    pub program: String,
    pub args: Vec<String>,
    /// The working directory, where it differs from the caller's.
    pub cwd: Option<String>,
    pub env: Vec<EnvVar>,
    pub setup: ChildSetup,
    /// The bearer token of this run.
    pub token: String,
    /// The port the server is told to listen on.
    pub port: u16,
}

/// The abstract value of a `LaunchPlan`.
pub struct PlanModel {
    pub mode: RunMode,
    pub program: Seq<char>,
    pub args: Seq<Seq<char>>,
    pub cwd: Option<Seq<char>>,
    pub env: Seq<(Seq<char>, Seq<char>)>,
    pub setup: ChildSetup,
    pub token: Seq<char>,
    pub port: u16,
}

/// The names and values of a list of variables.
pub open spec fn env_of(vars: Seq<EnvVar>) -> Seq<(Seq<char>, Seq<char>)> {
    Seq::new(vars.len(), |i: int| (vars[i].name@, vars[i].value@))
}

impl View for LaunchPlan {
    type V = PlanModel;

    open spec fn view(&self) -> PlanModel {
        PlanModel {
            mode: self.mode,
            program: self.program@,
            args: texts_of(self.args@),
            cwd: text_of(self.cwd),
            env: env_of(self.env@),
            setup: self.setup,
            token: self.token@,
            port: self.port,
        }
    }
}

/// The bundled runtime next to the executable.
pub open spec fn bun_path_of(exe_dir: Seq<char>, platform: Platform) -> Seq<char> {
    match platform {
        Platform::Unix => joined(exe_dir, "bun"@),
        Platform::Windows => joined(exe_dir, "bun.exe"@),
    }
}

/// The entry point of the installed server package.
pub open spec fn server_entry_of(data_dir: Seq<char>) -> Seq<char> {
    joined(joined(joined(joined(data_dir, "node_modules"@), "yepanywhere"@), "dist"@), "index.js"@)
}

/// The three variables every backend child gets.
pub open spec fn common_env(data_dir: Seq<char>, port: u16, token: Seq<char>) -> Seq<
    (Seq<char>, Seq<char>),
> {
    seq![
        ("PORT"@, decimal(port as nat)),
        ("YEP_ANYWHERE_DATA_DIR"@, data_dir),
        ("DESKTOP_AUTH_TOKEN"@, token),
    ]
}

/// The development launch: `pnpm dev` in the source tree, through a login
/// shell so that the developer's own tools are found.
pub open spec fn dev_plan(f: FactsModel, dev_dir: Seq<char>, port: u16, token: Seq<char>)
    -> PlanModel {
    PlanModel {
        mode: RunMode::Development,
        program: match f.shell {
            Some(s) => s,
            None => "/bin/zsh"@,
        },
        args: seq!["--login"@, "-c"@, "exec pnpm dev"@],
        cwd: Some(dev_dir),
        env: common_env(f.data_dir, port, token),
        setup: child_setup_for(f.platform),
        token: token,
        port: port,
    }
}

/// The production launch: the bundled runtime runs the installed entry
/// point.
pub open spec fn production_plan(f: FactsModel, exe_dir: Seq<char>, port: u16, token: Seq<char>)
    -> PlanModel {
    PlanModel {
        mode: RunMode::Production,
        program: bun_path_of(exe_dir, f.platform),
        args: seq!["run"@, server_entry_of(f.data_dir)],
        cwd: None,
        env: seq![("NODE_ENV"@, "production"@)] + common_env(f.data_dir, port, token),
        setup: child_setup_for(f.platform),
        token: token,
        port: port,
    }
}

/// The launch for a port and a token, or the reason why there is none.
pub open spec fn planned(f: FactsModel, port: u16, token: Seq<char>) -> Result<
    PlanModel,
    ServerError,
> {
    match f.dev_dir {
        Some(dev_dir) => Ok(dev_plan(f, dev_dir, port, token)),
        None => match f.exe_dir {
            None => Err(ServerError::ExecutableUnresolved),
            Some(exe_dir) => if !f.runtime_exists {
                Err(ServerError::RuntimeNotFound)
            } else if !f.entry_exists {
                Err(ServerError::EntryNotFound)
            } else {
                Ok(production_plan(f, exe_dir, port, token))
            },
        },
    }
}

/// Where the port comes from.
pub open spec fn port_plan_of(configured: Option<u16>) -> PortPlan {
    match configured {
        Some(p) => PortPlan::Fixed(p),
        None => PortPlan::Ephemeral,
    }
}

/// The port of the launch: the configured one, else the probed one.
pub open spec fn resolved_port(configured: Option<u16>, probed: Option<u16>) -> Result<
    u16,
    ServerError,
> {
    match configured {
        Some(p) => Ok(p),
        None => match probed {
            Some(p) => Ok(p),
            None => Err(ServerError::PortBindFailed),
        },
    }
}

/// The whole decision of a start request.
pub open spec fn start_outcome(
    s: ServerModel,
    configured: Option<u16>,
    probed: Option<u16>,
    f: FactsModel,
    token: Seq<char>,
) -> Result<PlanModel, ServerError> {
    if s.running() {
        Err(ServerError::AlreadyRunning)
    } else {
        match resolved_port(configured, probed) {
            Err(e) => Err(e),
            Ok(port) => planned(f, port, token),
        }
    }
}

/// Whether a computed result is the one the model asks for.
pub open spec fn plan_agrees(r: Result<LaunchPlan, ServerError>, m: Result<PlanModel, ServerError>)
    -> bool {
    match (r, m) {
        (Ok(p), Ok(q)) => p@ == q,
        (Err(a), Err(b)) => a == b,
        _ => false,
    }
}

/// The fixed text of an error.
pub open spec fn error_text(e: ServerError) -> Seq<char> {
    match e {
        ServerError::AlreadyRunning => "Server is already running"@,
        ServerError::PortBindFailed => "Failed to find free port"@,
        ServerError::ExecutableUnresolved => "Could not resolve executable"@,
        ServerError::RuntimeNotFound => "Bun sidecar not found"@,
        ServerError::EntryNotFound => "Yep Anywhere server not found. Run setup first."@,
        ServerError::SpawnFailed => "Failed to start server"@,
        ServerError::KillFailed => "Failed to stop server"@,
        ServerError::PollFailed => "Failed to poll server"@,
        ServerError::LockPoisoned => "poisoned lock: another task failed inside"@,
    }
}

impl ServerError {
    /// The message shown to the user.
    pub fn message(&self) -> (r: String)
        ensures
            r@ == error_text(*self),
    {
        match self {
            ServerError::AlreadyRunning => String::from_str("Server is already running"),
            ServerError::PortBindFailed => String::from_str("Failed to find free port"),
            ServerError::ExecutableUnresolved => String::from_str("Could not resolve executable"),
            ServerError::RuntimeNotFound => String::from_str("Bun sidecar not found"),
            ServerError::EntryNotFound => String::from_str(
                "Yep Anywhere server not found. Run setup first.",
            ),
            ServerError::SpawnFailed => String::from_str("Failed to start server"),
            ServerError::KillFailed => String::from_str("Failed to stop server"),
            ServerError::PollFailed => String::from_str("Failed to poll server"),
            ServerError::LockPoisoned => String::from_str(
                "poisoned lock: another task failed inside",
            ),
        }
    }
}

/// The text of a status.
pub open spec fn status_text(s: ServerStatus) -> Seq<char> {
    match s {
        ServerStatus::Running => "running"@,
        ServerStatus::Stopped => "stopped"@,
    }
}

impl ServerStatus {
    /// The status as the front end spells it.
    pub fn label(&self) -> (r: String)
        ensures
            r@ == status_text(*self),
    {
        match self {
            ServerStatus::Running => String::from_str("running"),
            ServerStatus::Stopped => String::from_str("stopped"),
        }
    }
}

/// The path of the bundled runtime next to the executable.
pub fn bun_path(exe_dir: &str, platform: Platform) -> (r: String)
    ensures
        r@ == bun_path_of(exe_dir@, platform),
{
    match platform {
        Platform::Unix => join_path(exe_dir, "bun"),
        Platform::Windows => join_path(exe_dir, "bun.exe"),
    }
}

/// The path of the installed server's entry point.
pub fn server_entry(data_dir: &str) -> (r: String)
    ensures
        r@ == server_entry_of(data_dir@),
{
    let a = join_path(data_dir, "node_modules");
    let b = join_path(a.as_str(), "yepanywhere");
    let c = join_path(b.as_str(), "dist");
    join_path(c.as_str(), "index.js")
}

/// Says where the port of the next launch comes from, so that the caller
/// probes for a free one only when none is configured.
pub fn plan_port(cfg: &AppConfig) -> (r: PortPlan)
    ensures
        r == port_plan_of(cfg.port),
{
    match cfg.port {
        Some(p) => PortPlan::Fixed(p),
        None => PortPlan::Ephemeral,
    }
}

/// Picks the port of the launch. `probed` is the port that the operating
/// system assigned to a probe socket, `None` if binding failed.
pub fn resolve_port(configured: Option<u16>, probed: Option<u16>) -> (r: Result<u16, ServerError>)
    ensures
        r == resolved_port(configured, probed),
{
    match configured {
        Some(p) => Ok(p),
        None => match probed {
            Some(p) => Ok(p),
            None => Err(ServerError::PortBindFailed),
        },
    }
}

fn env_var(name: &str, value: &str) -> (v: EnvVar)
    ensures
        v.name@ == name@,
        v.value@ == value@,
{
    EnvVar { name: String::from_str(name), value: String::from_str(value) }
}

fn common_vars(env: &mut Vec<EnvVar>, data_dir: &str, port: u16, token: &str)
    ensures
        env_of(final(env)@) == env_of(old(env)@) + common_env(data_dir@, port, token@),
{
    let ghost before = env_of(env@);
    let port_text = decimal_string(port);
    env.push(env_var("PORT", port_text.as_str()));
    env.push(env_var("YEP_ANYWHERE_DATA_DIR", data_dir));
    env.push(env_var("DESKTOP_AUTH_TOKEN", token));
    assert(env_of(env@) =~= before + common_env(data_dir@, port, token@));
}

/// Builds the launch for a given port and token.
pub fn launch_plan(facts: &LaunchFacts, port: u16, token: String) -> (r: Result<
    LaunchPlan,
    ServerError,
>)
    ensures
        plan_agrees(r, planned(facts@, port, token@)),
{
    let setup = setup_child_process(facts.platform);
    match &facts.dev_dir {
        Some(dev_dir) => {
            let program = match &facts.shell {
                Some(s) => s.clone(),
                None => String::from_str("/bin/zsh"),
            };
            let mut args: Vec<String> = Vec::new();
            args.push(String::from_str("--login"));
            args.push(String::from_str("-c"));
            args.push(String::from_str("exec pnpm dev"));
            let mut env: Vec<EnvVar> = Vec::new();
            assert(env_of(env@) =~= Seq::empty());
            common_vars(&mut env, facts.data_dir.as_str(), port, token.as_str());
            let plan = LaunchPlan {
                mode: RunMode::Development,
                program,
                args,
                cwd: Some(dev_dir.clone()),
                env,
                setup,
                token,
                port,
            };
            proof {
                let want = dev_plan(facts@, dev_dir@, port, plan.token@);
                assert(plan@.args =~= want.args);
                assert(plan@.env =~= want.env);
            }
            Ok(plan)
        },
        None => match &facts.exe_dir {
            None => Err(ServerError::ExecutableUnresolved),
            Some(exe_dir) => {
                if !facts.runtime_exists {
                    return Err(ServerError::RuntimeNotFound);
                }
                if !facts.entry_exists {
                    return Err(ServerError::EntryNotFound);
                }
                let program = bun_path(exe_dir.as_str(), facts.platform);
                let mut args: Vec<String> = Vec::new();
                args.push(String::from_str("run"));
                args.push(server_entry(facts.data_dir.as_str()));
                let mut env: Vec<EnvVar> = Vec::new();
                env.push(env_var("NODE_ENV", "production"));
                assert(env_of(env@) =~= seq![("NODE_ENV"@, "production"@)]);
                common_vars(&mut env, facts.data_dir.as_str(), port, token.as_str());
                let plan = LaunchPlan {
                    mode: RunMode::Production,
                    program,
                    args,
                    cwd: None,
                    env,
                    setup,
                    token,
                    port,
                };
                proof {
                    let want = production_plan(facts@, exe_dir@, port, plan.token@);
                    assert(plan@.args =~= want.args);
                    assert(plan@.env =~= want.env);
                }
                Ok(plan)
            },
        },
    }
}

/// Decides a start request once the token is known: refuses while a child
/// is recorded, then picks the port, then builds the launch.
pub fn plan_start(
    state: &ServerState,
    cfg: &AppConfig,
    probed: Option<u16>,
    facts: &LaunchFacts,
    token: String,
) -> (r: Result<LaunchPlan, ServerError>)
    ensures
        plan_agrees(r, start_outcome(state@, cfg.port, probed, facts@, token@)),
{
    if state.is_running() {
        return Err(ServerError::AlreadyRunning);
    }
    match resolve_port(cfg.port, probed) {
        Err(e) => Err(e),
        Ok(port) => launch_plan(facts, port, token),
    }
}

/// Decides a start request with a freshly issued token. Nothing is
/// recorded yet: the caller spawns what the plan says and reports the
/// child with `record_started`.
pub fn start_server(
    state: &ServerState,
    cfg: &AppConfig,
    probed: Option<u16>,
    facts: &LaunchFacts,
) -> (r: Result<LaunchPlan, ServerError>)
    ensures
        exists|token: Seq<char>|
            is_rendered_token(token) && is_token(token) && plan_agrees(
                r,
                #[trigger] start_outcome(state@, cfg.port, probed, facts@, token),
            ),
{
    let token = generate_token();
    let ghost t = token@;
    let r = plan_start(state, cfg, probed, facts, token);
    assert(plan_agrees(r, start_outcome(state@, cfg.port, probed, facts@, t)));
    r
}

/// Records a spawned child with its token and port. A child that is
/// already recorded stays, and the request is refused.
pub fn record_started(state: &mut ServerState, pid: u32, token: String, port: u16) -> (r: Result<
    (),
    ServerError,
>)
    ensures
        final(state)@ == old(state)@.after_start(pid, token@, port),
        old(state)@.running() ==> r == Err::<(), ServerError>(ServerError::AlreadyRunning),
        !old(state)@.running() ==> r is Ok,
        final(state)@.wf(),
{
    proof {
        use_type_invariant(&*state);
    }
    if state.child.is_some() {
        return Err(ServerError::AlreadyRunning);
    }
    *state = ServerState { child: Some(pid), desktop_token: Some(token), port: Some(port) };
    Ok(())
}

/// Forgets the child, the token and the port, and hands the child back so
/// that the caller can kill it and wait for it with nothing held. `None`
/// means there is nothing to kill.
pub fn stop_server(state: &mut ServerState) -> (child: Option<u32>)
    ensures
        final(state)@ == ServerModel::stopped(),
        child == old(state)@.child,
{
    let child = state.child;
    *state = ServerState { child: None, desktop_token: None, port: None };
    child
}

/// Reports the status given what a liveness poll of the recorded child
/// found. With no child recorded the poll is not looked at. A child that
/// has exited is forgotten together with its token and port.
pub fn get_server_status(state: &mut ServerState, poll: ChildPoll) -> (r: Result<
    ServerStatus,
    ServerError,
>)
    ensures
        final(state)@ == old(state)@.after_poll(poll),
        r == old(state)@.status_of_poll(poll),
        final(state)@.wf(),
{
    proof {
        use_type_invariant(&*state);
    }
    if state.child.is_none() {
        return Ok(ServerStatus::Stopped);
    }
    match poll {
        ChildPoll::Exited => {
            *state = ServerState { child: None, desktop_token: None, port: None };
            Ok(ServerStatus::Stopped)
        },
        ChildPoll::Alive => Ok(ServerStatus::Running),
        ChildPoll::Failed => Err(ServerError::PollFailed),
    }
}

/// The token of the current run, `None` while stopped.
pub fn get_desktop_token(state: &ServerState) -> (r: Option<String>)
    ensures
        text_of(r) == state@.token,
        r is Some <==> state@.running(),
{
    proof {
        use_type_invariant(state);
    }
    match &state.desktop_token {
        Some(t) => Some(t.clone()),
        None => None,
    }
}

/// The port of the current run, `None` while stopped.
pub fn get_server_port(state: &ServerState) -> (r: Option<u16>)
    ensures
        r == state@.port,
        r is Some <==> state@.running(),
{
    proof {
        use_type_invariant(state);
    }
    state.port
}

/// Every transition keeps token and port present exactly while a child is.
pub proof fn law_transitions_keep_wf(
    s: ServerModel,
    pid: u32,
    token: Seq<char>,
    port: u16,
    poll: ChildPoll,
)
    requires
        s.wf(),
    ensures
        ServerModel::stopped().wf(),
        s.after_start(pid, token, port).wf(),
        s.after_poll(poll).wf(),
{
}

/// A start request while a child is recorded is refused with
/// `AlreadyRunning`, whatever else holds, and recording a launch then
/// leaves child, token and port as they were.
pub proof fn law_start_while_running(
    s: ServerModel,
    configured: Option<u16>,
    probed: Option<u16>,
    f: FactsModel,
    pid: u32,
    token: Seq<char>,
    port: u16,
)
    requires
        s.running(),
    ensures
        start_outcome(s, configured, probed, f, token) == Err::<PlanModel, ServerError>(
            ServerError::AlreadyRunning,
        ),
        s.after_start(pid, token, port) == s,
{
}

/// Stopping a supervisor that is not running changes nothing and leaves
/// no child to kill.
pub proof fn law_stop_when_stopped(s: ServerModel)
    requires
        s.wf(),
        !s.running(),
    ensures
        s.child is None,
        s == ServerModel::stopped(),
        forall|platform: Platform| s.teardown(platform) == KillAction::Nothing,
{
}

/// Once a poll has seen the child's exit the supervisor is stopped, with no
/// child, token or port, and every later status request says `Stopped` and
/// changes nothing, whatever poll result it is handed.
pub proof fn law_exit_is_seen(s: ServerModel, later: ChildPoll)
    requires
        s.running(),
    ensures
        s.status_of_poll(ChildPoll::Exited) == Ok::<ServerStatus, ServerError>(
            ServerStatus::Stopped,
        ),
        s.after_poll(ChildPoll::Exited) == ServerModel::stopped(),
        s.after_poll(ChildPoll::Exited).status_of_poll(later) == Ok::<ServerStatus, ServerError>(
            ServerStatus::Stopped,
        ),
        s.after_poll(ChildPoll::Exited).after_poll(later) == ServerModel::stopped(),
{
}

/// A start that succeeds uses the configured port if there is one, else the
/// probed one; the child is told that port in `PORT`, and once the launch is
/// recorded the supervisor reports the same port.
pub proof fn law_port_is_used_and_reported(
    s: ServerModel,
    configured: Option<u16>,
    probed: Option<u16>,
    f: FactsModel,
    token: Seq<char>,
    pid: u32,
)
    requires
        start_outcome(s, configured, probed, f, token) is Ok,
    ensures
        ({
            let plan = start_outcome(s, configured, probed, f, token)->Ok_0;
            &&& configured matches Some(p) ==> plan.port == p
            &&& configured is None ==> probed == Some(plan.port)
            &&& plan.token == token
            &&& plan.env.contains(("PORT"@, decimal(plan.port as nat)))
            &&& plan.env.contains(("DESKTOP_AUTH_TOKEN"@, token))
            &&& s.after_start(pid, plan.token, plan.port).port == Some(plan.port)
            &&& s.after_start(pid, plan.token, plan.port).token == Some(token)
        }),
{
    let plan = start_outcome(s, configured, probed, f, token)->Ok_0;
    let common = common_env(f.data_dir, plan.port, token);
    assert(common[0] == ("PORT"@, decimal(plan.port as nat)));
    assert(common[2] == ("DESKTOP_AUTH_TOKEN"@, token));
    if f.dev_dir is Some {
        assert(plan.env[0] == common[0]);
        assert(plan.env[2] == common[2]);
    } else {
        assert(plan.env[1] == common[0]);
        assert(plan.env[3] == common[2]);
    }
}

/// A full cycle: from stopped, a recorded launch makes the supervisor
/// running with exactly that port and token; a stop makes it stopped again.
pub proof fn law_start_stop_cycle(pid: u32, token: Seq<char>, port: u16, poll: ChildPoll)
    ensures
        ({
            let up = ServerModel::stopped().after_start(pid, token, port);
            &&& up.running()
            &&& up.port == Some(port)
            &&& up.token == Some(token)
            &&& up.status_of_poll(ChildPoll::Alive) == Ok::<ServerStatus, ServerError>(
                ServerStatus::Running,
            )
            &&& ServerModel::stopped().status_of_poll(poll) == Ok::<ServerStatus, ServerError>(
                ServerStatus::Stopped,
            )
            &&& ServerModel::stopped().port is None
            &&& ServerModel::stopped().token is None
        }),
{
}

} // verus!
