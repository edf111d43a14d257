//! The ICP function backend: scaffolding plan, the backend manifest
//! (`dfx.json`), the three-step build pipeline (native release compile,
//! interface extraction, client-binding generation), deployment against
//! the shared local node, and the singleton guard for that node.
//!
//! Subprocesses and files are handled by the unverified shell; the
//! functions here compute the commands to run and record the results in
//! the unit's state, and only complete steps are ever recorded.

use vstd::prelude::*;
use vstd::string::StringExecFns;

use crate::backends::{CmdSpec, RenderPlan};
use crate::errors::MuCliError;
use crate::project::config::MuFunctionConfig;
use crate::project::state::{MuBackendFunctionState, MuFunctionState};

verus! {

/// The fixed local port the shared node listens on; readiness is polled
/// against it.
pub const NODE_PORT: u16 = 4943;

/// A backend handle for one ICP function: the unit's root directory and
/// its declarative config. Stateless; derived facts are written into
/// the `MuFunctionState` passed to each recording step.
pub struct IcpFunction {
    pub root: String,
    pub config: MuFunctionConfig,
}

/// One deployable artifact named by the backend manifest.
pub struct Canister {
    pub candid: String,
    pub package: String,
    pub canister_type: String,
}

/// Default build settings written into the manifest.
pub struct BuildDefaults {
    pub args: String,
    pub packtool: String,
}

/// The `defaults` section of the manifest.
pub struct Defaults {
    pub build: BuildDefaults,
}

/// The backend manifest (`dfx.json`): exactly one deployable artifact,
/// keyed by the unit's name, pinned to a fixed schema version.
pub struct IcpConfig {
    pub canister_name: String,
    pub canister: Canister,
    pub defaults: Defaults,
    pub output_env_file: String,
    pub version: u32,
}

impl IcpConfig {
    /// The manifest derived from a unit's config: one canister under
    /// the unit's name, its interface file `<name>.did`, its package
    /// the unit's name, type tag `rust`, schema version 1.
    pub fn from_config(config: &MuFunctionConfig) -> (r: IcpConfig)
        ensures
            r.canister_name@ == config.name@,
            r.canister.candid@ == config.name@ + ".did"@,
            r.canister.package@ == config.name@,
            r.canister.canister_type@ == "rust"@,
            r.defaults.build.args@ == Seq::<char>::empty(),
            r.defaults.build.packtool@ == Seq::<char>::empty(),
            r.output_env_file@ == ".env"@,
            r.version == 1,
    {
        let mut candid = config.name.clone();
        candid.append(".did");
        IcpConfig {
            canister_name: config.name.clone(),
            canister: Canister {
                candid,
                package: config.name.clone(),
                canister_type: "rust".to_owned(),
            },
            defaults: Defaults {
                build: BuildDefaults { args: String::new(), packtool: String::new() },
            },
            output_env_file: ".env".to_owned(),
            version: 1,
        }
    }
}

/// Everything `init` asks the shell to do for an ICP unit: render the
/// function scaffold into the unit's root and write the backend
/// manifest beside it.
pub struct InitPlan {
    pub render: RenderPlan,
    pub dfx_config_path: String,
    pub dfx_config: IcpConfig,
}

impl IcpFunction {
    pub fn new(root: &str, config: &MuFunctionConfig) -> (r: IcpFunction)
        ensures
            r.root@ == root@,
            r.config == *config,
    {
        IcpFunction { root: root.to_owned(), config: config.clone() }
    }

    /// The backend manifest and the path it is persisted at, ready for
    /// the shell to serialize and write.
    pub fn save_dfx_config(&self) -> (r: (String, IcpConfig))
        ensures
            r.0@ == self.root@ + "/dfx.json"@,
            r.1.canister_name@ == self.config.name@,
            r.1.canister.candid@ == self.config.name@ + ".did"@,
            r.1.canister.package@ == self.config.name@,
            r.1.canister.canister_type@ == "rust"@,
            r.1.version == 1,
    {
        let mut path = self.root.clone();
        path.append("/dfx.json");
        (path, IcpConfig::from_config(&self.config))
    }

    /// The scaffold and manifest for a freshly added ICP unit: render
    /// the `icp/function` template into the unit's root, substituting
    /// the unit's name, then write the manifest.
    pub fn init(&self) -> (r: InitPlan)
        ensures
            r.render.template@ == "icp/function"@,
            r.render.dest@ == self.root@,
            r.render.unit_name@ == self.config.name@,
            r.dfx_config_path@ == self.root@ + "/dfx.json"@,
            r.dfx_config.canister_name@ == self.config.name@,
            r.dfx_config.version == 1,
    {
        let (dfx_config_path, dfx_config) = self.save_dfx_config();
        InitPlan {
            render: RenderPlan {
                template: "icp/function".to_owned(),
                dest: self.root.clone(),
                unit_name: self.config.name.clone(),
            },
            dfx_config_path,
            dfx_config,
        }
    }

    /// Step (a) of the build: the native release compile for the fixed
    /// cross-compilation target, run in the unit's root.
    pub fn build_command(&self) -> (r: CmdSpec)
        ensures
            r.program@ == "cargo"@,
            r.args@.len() == 4,
            r.args@[0]@ == "build"@,
            r.args@[1]@ == "--release"@,
            r.args@[2]@ == "--target"@,
            r.args@[3]@ == "wasm32-unknown-unknown"@,
            r.dir@ == self.root@,
    {
        let mut args: Vec<String> = Vec::new();
        args.push("build".to_owned());
        args.push("--release".to_owned());
        args.push("--target".to_owned());
        args.push("wasm32-unknown-unknown".to_owned());
        CmdSpec { program: "cargo".to_owned(), args, dir: self.root.clone() }
    }

    /// Step (b) of the build: extract the interface description from
    /// the compiled artifact, run in the unit's root with its output
    /// captured.
    pub fn extract_command(&self) -> (r: CmdSpec)
        ensures
            r.program@ == "candid-extractor"@,
            r.args@.len() == 1,
            r.args@[0]@ == "target/wasm32-unknown-unknown/release/"@ + self.config.name@
                + ".wasm"@,
            r.dir@ == self.root@,
    {
        let mut wasm = "target/wasm32-unknown-unknown/release/".to_owned();
        wasm.append(self.config.name.as_str());
        wasm.append(".wasm");
        let mut args: Vec<String> = Vec::new();
        args.push(wasm);
        CmdSpec { program: "candid-extractor".to_owned(), args, dir: self.root.clone() }
    }

    /// Record the extracted interface description in the unit's state
    /// and name the sidecar file it is also written to. Only called
    /// once extraction succeeded; a failed step records nothing.
    pub fn record_interface(&self, state: &mut MuFunctionState, did_text: &str) -> (r: String)
        requires
            old(state).backend_state is Icp,
        ensures
            final(state).name == old(state).name,
            final(state).backend_state matches MuBackendFunctionState::Icp(icp)
                && (icp.did matches Some(d) && d@ == did_text@)
                && icp.canister_id == old(state).backend_state->Icp_0.canister_id
                && icp.js_bindings == old(state).backend_state->Icp_0.js_bindings,
            r@ == self.root@ + "/"@ + self.config.name@ + ".did"@,
    {
        let icp = state.unwrap_icp_mut();
        icp.did = Some(did_text.to_owned());
        let mut path = self.root.clone();
        path.append("/");
        path.append(self.config.name.as_str());
        path.append(".did");
        path
    }

    /// Step (c) of the build: compile the recorded interface
    /// description into client bindings and store them in the unit's
    /// state. Fails, recording nothing, exactly when the description
    /// does not parse and type-check.
    pub fn generate_bindings(&self, state: &mut MuFunctionState) -> (r: Result<(), MuCliError>)
        requires
            old(state).backend_state is Icp,
            old(state).backend_state->Icp_0.did is Some,
        ensures
            final(state).name == old(state).name,
            r is Ok <==> js_bindings_of(old(state).backend_state->Icp_0.did->Some_0@) is Some,
            r is Err ==> r == Err::<(), MuCliError>(MuCliError::BindingsFailed)
                && *final(state) == *old(state),
            r is Ok ==> (final(state).backend_state matches MuBackendFunctionState::Icp(icp)
                && (icp.js_bindings matches Some(js)
                    && js@ == js_bindings_of(old(state).backend_state->Icp_0.did->Some_0@)->Some_0)
                && icp.did == old(state).backend_state->Icp_0.did
                && icp.canister_id == old(state).backend_state->Icp_0.canister_id),
    {
        let icp = state.unwrap_icp_mut();
        let did = match &icp.did {
            Some(d) => d,
            None => unreached(),
        };
        match compile_js_bindings(did.as_str()) {
            Some(js) => {
                icp.js_bindings = Some(js);
                Ok(())
            },
            None => Err(MuCliError::BindingsFailed),
        }
    }

    /// The deploy subcommand for this unit, run in the unit's root.
    pub fn deploy_command(&self) -> (r: CmdSpec)
        ensures
            r.program@ == "dfx"@,
            r.args@.len() == 1,
            r.args@[0]@ == "deploy"@,
            r.dir@ == self.root@,
    {
        let mut args: Vec<String> = Vec::new();
        args.push("deploy".to_owned());
        CmdSpec { program: "dfx".to_owned(), args, dir: self.root.clone() }
    }

    /// The identifier-mapping file the deploy subcommand generates.
    pub fn canister_ids_path(&self) -> (r: String)
        ensures
            r@ == self.root@ + "/.dfx/local/canister_ids.json"@,
    {
        let mut path = self.root.clone();
        path.append("/.dfx/local/canister_ids.json");
        path
    }

    /// Read this unit's locally assigned instance identifier out of the
    /// identifier-mapping document and record it in the unit's state.
    /// The mapping is parsed by an external collaborator, so success is
    /// not owed here; `lookup_local_canister_id` carries the exact
    /// extraction logic for any parsed mapping. On failure the state is
    /// left untouched.
    pub fn record_canister_id(&self, state: &mut MuFunctionState, ids_json: &str) -> (r: Result<
        (),
        MuCliError,
    >)
        requires
            old(state).backend_state is Icp,
        ensures
            final(state).name == old(state).name,
            r is Err ==> r == Err::<(), MuCliError>(MuCliError::MissingCanisterId)
                && *final(state) == *old(state),
            r is Ok ==> (final(state).backend_state matches MuBackendFunctionState::Icp(icp)
                && icp.canister_id is Some
                && icp.did == old(state).backend_state->Icp_0.did
                && icp.js_bindings == old(state).backend_state->Icp_0.js_bindings),
    {
        let entries = match parse_canister_ids(ids_json) {
            Some(entries) => entries,
            None => {
                return Err(MuCliError::MissingCanisterId);
            },
        };
        match lookup_local_canister_id(&entries, self.config.name.as_str()) {
            Some(id) => {
                let icp = state.unwrap_icp_mut();
                icp.canister_id = Some(id);
                Ok(())
            },
            None => Err(MuCliError::MissingCanisterId),
        }
    }
}

/// One network's entry for a canister in the identifier-mapping file.
pub struct NetworkIdEntry {
    pub network: String,
    pub id: String,
}

/// All network entries recorded for one canister.
pub struct CanisterIdEntry {
    pub canister: String,
    pub networks: Vec<NetworkIdEntry>,
}

/// The first entry for the given canister name, scanning in order.
pub open spec fn first_canister_match(es: Seq<CanisterIdEntry>, name: Seq<char>) -> Option<
    CanisterIdEntry,
>
    decreases es.len(),
{
    if es.len() == 0 {
        None
    } else if es[0].canister@ == name {
        Some(es[0])
    } else {
        first_canister_match(es.drop_first(), name)
    }
}

/// The first entry for the given network name, scanning in order.
pub open spec fn first_network_match(ns: Seq<NetworkIdEntry>, net: Seq<char>) -> Option<
    NetworkIdEntry,
>
    decreases ns.len(),
{
    if ns.len() == 0 {
        None
    } else if ns[0].network@ == net {
        Some(ns[0])
    } else {
        first_network_match(ns.drop_first(), net)
    }
}

proof fn lemma_first_canister_match_at(es: Seq<CanisterIdEntry>, name: Seq<char>, i: int)
    requires
        0 <= i < es.len(),
        es[i].canister@ == name,
        forall|k: int| 0 <= k < i ==> es[k].canister@ != name,
    ensures
        first_canister_match(es, name) == Some(es[i]),
    decreases i,
{
    if i > 0 {
        lemma_first_canister_match_at(es.drop_first(), name, i - 1);
    }
}

proof fn lemma_first_canister_match_none(es: Seq<CanisterIdEntry>, name: Seq<char>)
    requires
        forall|k: int| 0 <= k < es.len() ==> es[k].canister@ != name,
    ensures
        first_canister_match(es, name) is None,
    decreases es.len(),
{
    if es.len() > 0 {
        lemma_first_canister_match_none(es.drop_first(), name);
    }
}

proof fn lemma_first_network_match_at(ns: Seq<NetworkIdEntry>, net: Seq<char>, i: int)
    requires
        0 <= i < ns.len(),
        ns[i].network@ == net,
        forall|k: int| 0 <= k < i ==> ns[k].network@ != net,
    ensures
        first_network_match(ns, net) == Some(ns[i]),
    decreases i,
{
    if i > 0 {
        lemma_first_network_match_at(ns.drop_first(), net, i - 1);
    }
}

proof fn lemma_first_network_match_none(ns: Seq<NetworkIdEntry>, net: Seq<char>)
    requires
        forall|k: int| 0 <= k < ns.len() ==> ns[k].network@ != net,
    ensures
        first_network_match(ns, net) is None,
    decreases ns.len(),
{
    if ns.len() > 0 {
        lemma_first_network_match_none(ns.drop_first(), net);
    }
}

/// The engine reads only the `local` environment's identifier: find the
/// first entry for this canister, then its first `local` network entry.
pub fn lookup_local_canister_id(entries: &Vec<CanisterIdEntry>, canister: &str) -> (r: Option<
    String,
>)
    ensures
        match first_canister_match(entries@, canister@) {
            None => r is None,
            Some(e) => match first_network_match(e.networks@, "local"@) {
                None => r is None,
                Some(n) => r matches Some(id) && id@ == n.id@,
            },
        },
{
    let mut i: usize = 0;
    while i < entries.len()
        invariant
            i <= entries.len(),
            forall|k: int| 0 <= k < i ==> entries@[k].canister@ != canister@,
        decreases entries.len() - i,
    {
        if str_eq(entries[i].canister.as_str(), canister) {
            let entry = &entries[i];
            let mut j: usize = 0;
            while j < entry.networks.len()
                invariant
                    j <= entry.networks.len(),
                    forall|k: int| 0 <= k < j ==> entry.networks@[k].network@ != "local"@,
                    0 <= i < entries.len(),
                    entries@[i as int].canister@ == canister@,
                    forall|k: int| 0 <= k < i ==> entries@[k].canister@ != canister@,
                    *entry == entries@[i as int],
                decreases entry.networks.len() - j,
            {
                if str_eq(entry.networks[j].network.as_str(), "local") {
                    proof {
                        lemma_first_canister_match_at(entries@, canister@, i as int);
                        lemma_first_network_match_at(entry.networks@, "local"@, j as int);
                    }
                    return Some(entry.networks[j].id.clone());
                }
                j += 1;
            }
            proof {
                lemma_first_canister_match_at(entries@, canister@, i as int);
                lemma_first_network_match_none(entry.networks@, "local"@);
            }
            return None;
        }
        i += 1;
    }
    proof {
        lemma_first_canister_match_none(entries@, canister@);
    }
    None
}

/// What client-binding compilation yields for an interface description:
/// the generated source, or nothing when the description is rejected.
/// A function of the text alone.
pub uninterp spec fn js_bindings_of(did: Seq<char>) -> Option<Seq<char>>;

/// Relies on candid_parser: `str::parse::<IDLProg>`,
/// `typing::check_prog` and `bindings::javascript::compile` together
/// turn an interface description into client-binding source, and their
/// result depends on the text alone.
#[verifier::external_body]
fn compile_js_bindings(did: &str) -> (r: Option<String>)
    ensures
        r is Some <==> js_bindings_of(did@) is Some,
        r matches Some(js) ==> js@ == js_bindings_of(did@)->Some_0,
{
    let ast: candid_parser::IDLProg = did.parse().ok()?;
    let mut env = candid::TypeEnv::new();
    let actor = candid_parser::typing::check_prog(&mut env, &ast).ok()?;
    Some(candid_parser::bindings::javascript::compile(&env, &actor))
}

/// Relies on serde_json::from_str to parse the identifier-mapping
/// document (artifact name, then environment name, then identifier)
/// into entries; the order of entries follows a hash map's iteration
/// and is unspecified, so nothing is promised of the result.
#[verifier::external_body]
fn parse_canister_ids(json: &str) -> (r: Option<Vec<CanisterIdEntry>>) {
    let m: std::collections::HashMap<String, std::collections::HashMap<String, String>> =
        serde_json::from_str(json).ok()?;
    Some(
        m.into_iter().map(
            |(canister, nets)| CanisterIdEntry {
                canister,
                networks: nets.into_iter().map(
                    |(network, id)| NetworkIdEntry { network, id },
                ).collect(),
            },
        ).collect(),
    )
}

/// Relies on str's PartialEq: equal byte content means equal views.
#[verifier::external_body]
fn str_eq(a: &str, b: &str) -> (r: bool)
    ensures
        r == (a@ == b@),
{
    a == b
}

/// The process-wide guard for the shared local node: the node is
/// spawned at most once per orchestrator run and reused by every
/// deploy.
pub struct NodeSupervisor {
    pub started: bool,
}

/// The guard's transition: after an acquisition the node counts as
/// started, and a spawn is requested exactly when it was not yet.
pub open spec fn spec_acquire(s: NodeSupervisor) -> (NodeSupervisor, bool) {
    (NodeSupervisor { started: true }, !s.started)
}

impl NodeSupervisor {
    /// A fresh run: no node has been spawned yet.
    pub fn new() -> (r: NodeSupervisor)
        ensures
            !r.started,
    {
        NodeSupervisor { started: false }
    }

    /// Ensure the shared node counts as started; returns whether the
    /// caller must actually spawn it (idempotent start).
    pub fn acquire_start(&mut self) -> (spawn: bool)
        ensures
            (*final(self), spawn) == spec_acquire(*old(self)),
            final(self).started,
            spawn == !old(self).started,
    {
        let spawn = !self.started;
        self.started = true;
        spawn
    }
}

/// The shared local node's start command, run once per orchestrator run
/// from the project root.
pub fn node_start_command() -> (r: CmdSpec)
    ensures
        r.program@ == "dfx"@,
        r.args@.len() == 1,
        r.args@[0]@ == "start"@,
        r.dir@ == "."@,
{
    let mut args: Vec<String> = Vec::new();
    args.push("start".to_owned());
    CmdSpec { program: "dfx".to_owned(), args, dir: ".".to_owned() }
}

/// The shared node start routine spawns the underlying process at most
/// once: however many times the guard is acquired, only an acquisition
/// of a fresh guard requests a spawn, and every later one is a no-op.
/// Concurrent invocations are serialized by the guarded handle, so
/// consecutive transitions model them as well.
pub proof fn lemma_node_spawned_at_most_once(s0: NodeSupervisor)
    ensures
        ({
            let (s1, first) = spec_acquire(s0);
            let (s2, second) = spec_acquire(s1);
            &&& !second
            &&& first ==> !s0.started
            &&& s1.started && s2.started
        }),
{
}

} // verus!
