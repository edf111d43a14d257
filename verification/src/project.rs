//! The project aggregate and its persistence split: user-declared
//! configuration on one side, engine-derived state on the other, paired
//! by position and flushed together after every mutating step.

use vstd::assert_by_contradiction;
use vstd::prelude::*;
use vstd::string::StringExecFns;

use crate::backends::icp::{IcpFunction, InitPlan};
use crate::backends::js::JsBackend;
use crate::dev::{dev_wf, DevOrchestrator, DevPhase};
use crate::errors::MuCliError;

pub mod config;
pub mod state;

use config::{
    MuFrontendConfig, MuFunctionConfig, MuFunctionType, MuFrontendTemplate, MuProjectConfig,
    MuProjectMetadata,
};
use state::{MuBackendFunctionState, MuFunctionState, MuProjectState};

verus! {

/// One function unit: its declarative config paired with the derived
/// state the engine maintains for it.
pub struct MuFunction {
    pub state: MuFunctionState,
    pub config: MuFunctionConfig,
}

/// One frontend unit. It has no derived state beyond its config: it is
/// scaffolded once and only re-served afterwards.
pub struct MuFrontend {
    pub config: MuFrontendConfig,
}

/// The runtime aggregate: metadata plus the ordered unit lists. The
/// whole aggregate is loaded once, mutated only by the single
/// orchestrating loop, and persisted after every mutating step.
pub struct MuProject {
    pub metadata: MuProjectMetadata,
    pub functions: Vec<MuFunction>,
    pub frontends: Vec<MuFrontend>,
}

impl MuFunction {
    /// The pairing invariant: a unit's derived record carries the same
    /// name as its config entry.
    pub open spec fn wf(self) -> bool {
        self.state.name@ == self.config.name@
    }

    /// A fresh unit of the given kind: config entry and an empty state
    /// record under the same name.
    pub fn new(name: &str, fn_type: MuFunctionType) -> (r: MuFunction)
        ensures
            r.config.name@ == name@,
            r.config.fn_type == fn_type,
            r.state.name@ == name@,
            fn_type is ICP ==> (r.state.backend_state matches MuBackendFunctionState::Icp(icp)
                && icp.did is None && icp.canister_id is None && icp.js_bindings is None),
            fn_type is Solana ==> r.state.backend_state is Solana,
            r.wf(),
    {
        MuFunction {
            state: MuFunctionState::new(name, fn_type),
            config: MuFunctionConfig::new(name, fn_type),
        }
    }

    /// This unit's root directory under the project.
    pub fn get_root(&self) -> (r: String)
        ensures
            r@ == "functions/"@ + self.state.name@,
    {
        let mut root = "functions/".to_owned();
        root.append(self.state.name.as_str());
        root
    }

    /// The backend handle for this unit, or a clear error for a kind
    /// with no implementation.
    fn backend(&self) -> (r: Result<IcpFunction, MuCliError>)
        ensures
            self.state.backend_state is Icp ==> (r matches Ok(b)
                && b.root@ == "functions/"@ + self.state.name@ && b.config == self.config),
            !(self.state.backend_state is Icp) ==> r == Err::<IcpFunction, MuCliError>(
                MuCliError::UnsupportedBackend,
            ),
    {
        match &self.state.backend_state {
            MuBackendFunctionState::Icp(_) => {
                let root = self.get_root();
                Ok(IcpFunction::new(root.as_str(), &self.config))
            },
            MuBackendFunctionState::Solana(_) => Err(MuCliError::UnsupportedBackend),
        }
    }

    /// The scaffold-and-manifest plan that initializes this unit's
    /// directory, or an error for an unimplemented backend kind.
    pub fn init(&self) -> (r: Result<InitPlan, MuCliError>)
        ensures
            self.state.backend_state is Icp ==> (r matches Ok(plan)
                && plan.render.template@ == "icp/function"@
                && plan.render.dest@ == "functions/"@ + self.state.name@
                && plan.render.unit_name@ == self.config.name@
                && plan.dfx_config.canister_name@ == self.config.name@),
            !(self.state.backend_state is Icp) ==> r == Err::<InitPlan, MuCliError>(
                MuCliError::UnsupportedBackend,
            ),
    {
        match self.backend() {
            Ok(b) => Ok(b.init()),
            Err(e) => Err(e),
        }
    }

    /// The backend handle that drives this unit's build pipeline, or an
    /// error for an unimplemented backend kind.
    pub fn build(&self) -> (r: Result<IcpFunction, MuCliError>)
        ensures
            self.state.backend_state is Icp ==> (r matches Ok(b)
                && b.root@ == "functions/"@ + self.state.name@ && b.config == self.config),
            !(self.state.backend_state is Icp) ==> r == Err::<IcpFunction, MuCliError>(
                MuCliError::UnsupportedBackend,
            ),
    {
        self.backend()
    }

    /// The backend handle that drives this unit's deployment, or an
    /// error for an unimplemented backend kind.
    pub fn deploy(&self) -> (r: Result<IcpFunction, MuCliError>)
        ensures
            self.state.backend_state is Icp ==> (r matches Ok(b)
                && b.root@ == "functions/"@ + self.state.name@ && b.config == self.config),
            !(self.state.backend_state is Icp) ==> r == Err::<IcpFunction, MuCliError>(
                MuCliError::UnsupportedBackend,
            ),
    {
        self.backend()
    }
}

impl MuFrontend {
    /// A fresh frontend unit. The scaffold itself is a separate plan,
    /// obtained from `get_backend().create_frontend()`.
    pub fn new(name: &str, template: MuFrontendTemplate) -> (r: MuFrontend)
        ensures
            r.config.name@ == name@,
            r.config.template == template,
    {
        MuFrontend {
            config: MuFrontendConfig { name: name.to_owned(), template },
        }
    }

    /// This unit's root directory under the project.
    pub fn get_root(&self) -> (r: String)
        ensures
            r@ == "frontends/"@ + self.config.name@,
    {
        let mut root = "frontends/".to_owned();
        root.append(self.config.name.as_str());
        root
    }

    /// The backend handle that scaffolds and serves this frontend.
    pub fn get_backend(&self) -> (r: JsBackend)
        ensures
            r.root@ == "frontends/"@ + self.config.name@,
            r.name@ == self.config.name@,
            r.template == self.config.template,
    {
        let root = self.get_root();
        JsBackend::new(root.as_str(), &self.config)
    }
}

/// The declarative document `c` captures exactly the user-declared side
/// of project `p`.
pub open spec fn config_matches(p: MuProject, c: MuProjectConfig) -> bool {
    &&& c.metadata == p.metadata
    &&& c.functions@.len() == p.functions@.len()
    &&& forall|i: int|
        0 <= i < p.functions@.len() ==> (#[trigger] c.functions@[i]) == p.functions@[i].config
    &&& c.frontends@.len() == p.frontends@.len()
    &&& forall|i: int|
        0 <= i < p.frontends@.len() ==> (#[trigger] c.frontends@[i]) == p.frontends@[i].config
}

/// The derived document `s` captures exactly the engine-derived side of
/// project `p`, in the same order as the config document.
pub open spec fn state_matches(p: MuProject, s: MuProjectState) -> bool {
    &&& s.functions@.len() == p.functions@.len()
    &&& forall|i: int|
        0 <= i < p.functions@.len() ==> (#[trigger] s.functions@[i]) == p.functions@[i].state
}

/// The two persisted documents can be paired up: one state record per
/// config entry, in order, under the same name.
pub open spec fn structurally_consistent(c: MuProjectConfig, s: MuProjectState) -> bool {
    &&& c.functions@.len() == s.functions@.len()
    &&& forall|i: int|
        0 <= i < c.functions@.len() ==> (#[trigger] c.functions@[i]).name@
            == (#[trigger] s.functions@[i]).name@
}

/// Project `p` is the aggregate rebuilt from the two documents: the
/// config's metadata, each config entry zipped by position with its
/// state record, and one frontend per frontend config.
pub open spec fn loads_to(c: MuProjectConfig, s: MuProjectState, p: MuProject) -> bool {
    &&& p.metadata == c.metadata
    &&& p.functions@.len() == c.functions@.len()
    &&& forall|i: int|
        0 <= i < c.functions@.len() ==> (#[trigger] p.functions@[i]).config == c.functions@[i]
            && p.functions@[i].state == s.functions@[i]
    &&& p.frontends@.len() == c.frontends@.len()
    &&& forall|i: int|
        0 <= i < c.frontends@.len() ==> (#[trigger] p.frontends@[i]).config == c.frontends@[i]
}

impl MuProject {
    /// Every unit satisfies the pairing invariant. Constructors
    /// establish this and every operation preserves it.
    pub open spec fn wf(self) -> bool {
        forall|i: int| 0 <= i < self.functions@.len() ==> (#[trigger] self.functions@[i]).wf()
    }

    /// A brand-new project: fixed initial version and description,
    /// no units. The caller persists it via `save`.
    pub fn init(name: String) -> (p: MuProject)
        ensures
            p.metadata.name == name,
            p.metadata.version@ == "0.1.0"@,
            p.metadata.description@ == "A new Mu project"@,
            p.functions@.len() == 0,
            p.frontends@.len() == 0,
            p.wf(),
    {
        MuProject {
            metadata: MuProjectMetadata {
                name,
                version: "0.1.0".to_owned(),
                description: "A new Mu project".to_owned(),
            },
            functions: Vec::new(),
            frontends: Vec::new(),
        }
    }

    /// The declarative document for this aggregate.
    pub fn as_config(&self) -> (c: MuProjectConfig)
        ensures
            config_matches(*self, c),
    {
        let mut functions: Vec<MuFunctionConfig> = Vec::new();
        let mut i: usize = 0;
        while i < self.functions.len()
            invariant
                i <= self.functions.len(),
                functions@.len() == i as int,
                forall|j: int| 0 <= j < i ==> functions@[j] == self.functions@[j].config,
            decreases self.functions.len() - i,
        {
            functions.push(self.functions[i].config.clone());
            i += 1;
        }
        let mut frontends: Vec<MuFrontendConfig> = Vec::new();
        let mut i: usize = 0;
        while i < self.frontends.len()
            invariant
                i <= self.frontends.len(),
                frontends@.len() == i as int,
                forall|j: int| 0 <= j < i ==> frontends@[j] == self.frontends@[j].config,
            decreases self.frontends.len() - i,
        {
            frontends.push(self.frontends[i].config.clone());
            i += 1;
        }
        MuProjectConfig { functions, frontends, metadata: self.metadata.clone() }
    }

    /// The derived document for this aggregate.
    pub fn as_state(&self) -> (s: MuProjectState)
        ensures
            state_matches(*self, s),
    {
        let mut functions: Vec<MuFunctionState> = Vec::new();
        let mut i: usize = 0;
        while i < self.functions.len()
            invariant
                i <= self.functions.len(),
                functions@.len() == i as int,
                forall|j: int| 0 <= j < i ==> functions@[j] == self.functions@[j].state,
            decreases self.functions.len() - i,
        {
            functions.push(self.functions[i].state.clone());
            i += 1;
        }
        MuProjectState { functions }
    }

    /// Both persisted documents, config first then state; the shell
    /// writes them in that fixed order.
    pub fn save(&self) -> (r: (MuProjectConfig, MuProjectState))
        ensures
            config_matches(*self, r.0),
            state_matches(*self, r.1),
    {
        (self.as_config(), self.as_state())
    }

    /// Rebuild the aggregate from the two persisted documents. If
    /// either is absent there is no project (`Ok(None)`, not an error).
    /// If they cannot be paired up — differing lengths or diverging
    /// names at a position — the result is a structural error, never a
    /// silently misaligned aggregate.
    #[verifier::loop_isolation(false)]
    pub fn load(config: Option<MuProjectConfig>, state: Option<MuProjectState>) -> (r: Result<
        Option<MuProject>,
        MuCliError,
    >)
        ensures
            config is None || state is None ==> r == Ok::<Option<MuProject>, MuCliError>(None),
            config matches Some(c) ==> state matches Some(s) ==> !structurally_consistent(c, s)
                ==> r == Err::<Option<MuProject>, MuCliError>(MuCliError::StructuralMismatch),
            config matches Some(c) ==> state matches Some(s) ==> structurally_consistent(c, s)
                ==> (r matches Ok(op) && op matches Some(p) && loads_to(c, s, p) && p.wf()),
    {
        let c = match config {
            Some(c) => c,
            None => {
                return Ok(None);
            },
        };
        let s = match state {
            Some(s) => s,
            None => {
                return Ok(None);
            },
        };
        if c.functions.len() != s.functions.len() {
            return Err(MuCliError::StructuralMismatch);
        }
        let mut i: usize = 0;
        while i < c.functions.len()
            invariant
                i <= c.functions@.len(),
                c.functions@.len() == s.functions@.len(),
                forall|k: int|
                    0 <= k < i ==> (#[trigger] c.functions@[k]).name@
                        == (#[trigger] s.functions@[k]).name@,
            decreases c.functions.len() - i,
        {
            if !(c.functions[i].name == s.functions[i].name) {
                proof {
                    assert_by_contradiction!(!structurally_consistent(c, s), {
                        assert(c.functions@[i as int].name@ == s.functions@[i as int].name@);
                    });
                }
                return Err(MuCliError::StructuralMismatch);
            }
            i += 1;
        }
        let mut functions: Vec<MuFunction> = Vec::new();
        let mut i: usize = 0;
        while i < c.functions.len()
            invariant
                i <= c.functions@.len(),
                c.functions@.len() == s.functions@.len(),
                functions@.len() == i as int,
                forall|j: int|
                    0 <= j < i ==> (#[trigger] functions@[j]).config == c.functions@[j]
                        && functions@[j].state == s.functions@[j],
            decreases c.functions.len() - i,
        {
            functions.push(
                MuFunction { config: c.functions[i].clone(), state: s.functions[i].clone() },
            );
            i += 1;
        }
        let mut frontends: Vec<MuFrontend> = Vec::new();
        let mut i: usize = 0;
        while i < c.frontends.len()
            invariant
                i <= c.frontends@.len(),
                frontends@.len() == i as int,
                forall|j: int| 0 <= j < i ==> (#[trigger] frontends@[j]).config == c.frontends@[j],
            decreases c.frontends.len() - i,
        {
            frontends.push(MuFrontend { config: c.frontends[i].clone() });
            i += 1;
        }
        let ghost gc = c;
        let ghost gs = s;
        let p = MuProject { metadata: c.metadata, functions, frontends };
        proof {
            assert(structurally_consistent(gc, gs));
            assert(loads_to(gc, gs, p));
            assert forall|j: int|
                0 <= j < p.functions@.len() implies (#[trigger] p.functions@[j]).wf() by {
                assert(p.functions@[j].config == gc.functions@[j]);
                assert(p.functions@[j].state == gs.functions@[j]);
                assert(gc.functions@[j].name@ == gs.functions@[j].name@);
            }
        }
        Ok(Some(p))
    }

    /// Append a fresh unit of the given kind. The shell creates the
    /// unit's directory, executes the unit's init plan and then
    /// persists the whole project; every other unit is untouched.
    pub fn add_function(&mut self, name: &str, fn_type: MuFunctionType)
        ensures
            final(self).metadata == old(self).metadata,
            final(self).frontends@ == old(self).frontends@,
            final(self).functions@.len() == old(self).functions@.len() + 1,
            forall|i: int|
                0 <= i < old(self).functions@.len() ==> final(self).functions@[i] == old(
                    self,
                ).functions@[i],
            final(self).functions@.last().config.name@ == name@,
            final(self).functions@.last().config.fn_type == fn_type,
            final(self).functions@.last().state.name@ == name@,
            fn_type is ICP ==> (final(self).functions@.last().state.backend_state matches
                MuBackendFunctionState::Icp(icp) && icp.did is None && icp.canister_id is None
                && icp.js_bindings is None),
            old(self).wf() ==> final(self).wf(),
    {
        let f = MuFunction::new(name, fn_type);
        self.functions.push(f);
    }

    /// Append a fresh frontend. The shell creates the unit's directory,
    /// executes its scaffold plan and then persists the whole project.
    pub fn add_frontend(&mut self, name: &str, template: MuFrontendTemplate)
        ensures
            final(self).metadata == old(self).metadata,
            final(self).functions@ == old(self).functions@,
            final(self).frontends@.len() == old(self).frontends@.len() + 1,
            forall|i: int|
                0 <= i < old(self).frontends@.len() ==> final(self).frontends@[i] == old(
                    self,
                ).frontends@[i],
            final(self).frontends@.last().config.name@ == name@,
            final(self).frontends@.last().config.template == template,
            old(self).wf() ==> final(self).wf(),
    {
        let fe = MuFrontend::new(name, template);
        self.frontends.push(fe);
    }

    /// The backend handles that drive a whole-project build, one per
    /// function in order, or the first unsupported-backend error. The
    /// shell runs each unit's pipeline sequentially and then persists
    /// the project.
    pub fn build(&self) -> (r: Result<Vec<IcpFunction>, MuCliError>)
        ensures
            (forall|i: int|
                0 <= i < self.functions@.len() ==> (#[trigger] self.functions@[i]).state
                    .backend_state is Icp) <==> r is Ok,
            r matches Ok(bs) ==> bs@.len() == self.functions@.len() && (forall|i: int|
                0 <= i < self.functions@.len() ==> (#[trigger] bs@[i]).root@ == "functions/"@
                    + self.functions@[i].state.name@ && bs@[i].config
                    == self.functions@[i].config),
            r is Err ==> r == Err::<Vec<IcpFunction>, MuCliError>(MuCliError::UnsupportedBackend),
    {
        self.function_backends()
    }

    /// The backend handles that drive a whole-project deploy, one per
    /// function in order, or the first unsupported-backend error. The
    /// shell deploys each unit sequentially against the shared node and
    /// then persists the project.
    pub fn deploy(&self) -> (r: Result<Vec<IcpFunction>, MuCliError>)
        ensures
            (forall|i: int|
                0 <= i < self.functions@.len() ==> (#[trigger] self.functions@[i]).state
                    .backend_state is Icp) <==> r is Ok,
            r matches Ok(bs) ==> bs@.len() == self.functions@.len() && (forall|i: int|
                0 <= i < self.functions@.len() ==> (#[trigger] bs@[i]).root@ == "functions/"@
                    + self.functions@[i].state.name@ && bs@[i].config
                    == self.functions@[i].config),
            r is Err ==> r == Err::<Vec<IcpFunction>, MuCliError>(MuCliError::UnsupportedBackend),
    {
        self.function_backends()
    }

    /// Enter development mode: the control loop for this project,
    /// about to build and deploy the first function, one unarmed
    /// watcher latch per function. The shell drives it by performing
    /// each action `step` returns and forwarding notifications.
    pub fn dev(&self) -> (r: DevOrchestrator)
        ensures
            r@.phase == (DevPhase::Initializing { next: 0 }),
            r@.watchers.len() == self.functions@.len(),
            forall|i: int|
                0 <= i < self.functions@.len() ==> (#[trigger] r@.watchers[i]).queued == 0
                    && !r@.watchers[i].enabled,
            dev_wf(r@),
    {
        DevOrchestrator::new(self.functions.len())
    }

    /// One backend handle per function, in list order.
    #[verifier::loop_isolation(false)]
    fn function_backends(&self) -> (r: Result<Vec<IcpFunction>, MuCliError>)
        ensures
            (forall|i: int|
                0 <= i < self.functions@.len() ==> (#[trigger] self.functions@[i]).state
                    .backend_state is Icp) <==> r is Ok,
            r matches Ok(bs) ==> bs@.len() == self.functions@.len() && (forall|i: int|
                0 <= i < self.functions@.len() ==> (#[trigger] bs@[i]).root@ == "functions/"@
                    + self.functions@[i].state.name@ && bs@[i].config
                    == self.functions@[i].config),
            r is Err ==> r == Err::<Vec<IcpFunction>, MuCliError>(MuCliError::UnsupportedBackend),
    {
        let mut backends: Vec<IcpFunction> = Vec::new();
        let mut i: usize = 0;
        while i < self.functions.len()
            invariant
                i <= self.functions@.len(),
                backends@.len() == i as int,
                forall|j: int|
                    0 <= j < i ==> (#[trigger] self.functions@[j]).state.backend_state is Icp,
                forall|j: int|
                    0 <= j < i ==> (#[trigger] backends@[j]).root@ == "functions/"@
                        + self.functions@[j].state.name@ && backends@[j].config
                        == self.functions@[j].config,
            decreases self.functions.len() - i,
        {
            match self.functions[i].build() {
                Ok(b) => backends.push(b),
                Err(e) => {
                    return Err(e);
                },
            }
            i += 1;
        }
        Ok(backends)
    }
}

/// Round-trip law: loading what `save` produced rebuilds an aggregate
/// equal in every field to the one saved. For any well-formed project,
/// its two documents pair up cleanly (so `load` is owed success on
/// them), and any aggregate they load to has the same metadata, the
/// same function list and the same frontend list.
pub proof fn lemma_load_after_save(p: MuProject, c: MuProjectConfig, s: MuProjectState, q: MuProject)
    requires
        p.wf(),
        config_matches(p, c),
        state_matches(p, s),
        loads_to(c, s, q),
    ensures
        structurally_consistent(c, s),
        q.metadata == p.metadata,
        q.functions@ == p.functions@,
        q.frontends@ == p.frontends@,
{
    assert forall|i: int| 0 <= i < c.functions@.len() implies (#[trigger] c.functions@[i]).name@
        == (#[trigger] s.functions@[i]).name@ by {
        assert(c.functions@[i] == p.functions@[i].config);
        assert(s.functions@[i] == p.functions@[i].state);
        assert(p.functions@[i].wf());
    }
    assert forall|i: int| 0 <= i < p.functions@.len() implies q.functions@[i]
        == p.functions@[i] by {
        assert(c.functions@[i] == p.functions@[i].config);
        assert(s.functions@[i] == p.functions@[i].state);
        assert((#[trigger] q.functions@[i]).config == c.functions@[i]);
        assert(q.functions@[i].state == s.functions@[i]);
    }
    assert(q.functions@ =~= p.functions@);
    assert forall|i: int| 0 <= i < p.frontends@.len() implies q.frontends@[i]
        == p.frontends@[i] by {
        assert(c.frontends@[i] == p.frontends@[i].config);
        assert((#[trigger] q.frontends@[i]).config == c.frontends@[i]);
    }
    assert(q.frontends@ =~= p.frontends@);
}

} // verus!
