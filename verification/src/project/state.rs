//! The derived half of the persisted project: facts the engine learns
//! about each function by building and deploying it. Config edits never
//! touch these; build and deploy rewrite them.

use vstd::prelude::*;

use crate::project::config::MuFunctionType;

verus! {

/// Backend-derived facts for an ICP function. All three start unset and
/// are filled incrementally: `did` and `js_bindings` by build,
/// `canister_id` by deploy.
pub struct MuIcpFunctionState {
    pub did: Option<String>,
    pub canister_id: Option<String>,
    pub js_bindings: Option<String>,
}

impl Clone for MuIcpFunctionState {
    fn clone(&self) -> (r: Self)
        ensures
            r == *self,
    {
        MuIcpFunctionState {
            did: clone_optional_string(&self.did),
            canister_id: clone_optional_string(&self.canister_id),
            js_bindings: clone_optional_string(&self.js_bindings),
        }
    }
}

impl MuIcpFunctionState {
    /// The fresh state of a function that has never been built or
    /// deployed: every derived fact unset.
    pub fn empty() -> (r: MuIcpFunctionState)
        ensures
            r.did is None,
            r.canister_id is None,
            r.js_bindings is None,
    {
        MuIcpFunctionState { did: None, canister_id: None, js_bindings: None }
    }
}

/// Backend-derived facts for a Solana function. The backend itself is
/// unimplemented; the record only reserves the shape.
pub struct MuSolanaFunctionState {
    pub name: String,
}

impl Clone for MuSolanaFunctionState {
    fn clone(&self) -> (r: Self)
        ensures
            r == *self,
    {
        MuSolanaFunctionState { name: self.name.clone() }
    }
}

/// The backend-specific part of a function's state, tagged by backend
/// kind.
pub enum MuBackendFunctionState {
    Icp(MuIcpFunctionState),
    Solana(MuSolanaFunctionState),
}

impl Clone for MuBackendFunctionState {
    fn clone(&self) -> (r: Self)
        ensures
            r == *self,
    {
        match self {
            MuBackendFunctionState::Icp(icp) => MuBackendFunctionState::Icp(icp.clone()),
            MuBackendFunctionState::Solana(s) => MuBackendFunctionState::Solana(s.clone()),
        }
    }
}

/// The engine-derived record for one function. Its name must equal the
/// owning config entry's name: the two persisted lists are paired by
/// position, and the loader rejects documents where they diverge.
pub struct MuFunctionState {
    pub name: String,
    pub backend_state: MuBackendFunctionState,
}

impl Clone for MuFunctionState {
    fn clone(&self) -> (r: Self)
        ensures
            r == *self,
    {
        MuFunctionState { name: self.name.clone(), backend_state: self.backend_state.clone() }
    }
}

impl MuFunctionState {
    /// A fresh state record for a unit of the given kind: no derived
    /// fact is set yet.
    pub fn new(name: &str, fn_type: MuFunctionType) -> (r: MuFunctionState)
        ensures
            r.name@ == name@,
            fn_type is ICP ==> (r.backend_state matches MuBackendFunctionState::Icp(icp)
                && icp.did is None && icp.canister_id is None && icp.js_bindings is None),
            fn_type is Solana ==> (r.backend_state matches MuBackendFunctionState::Solana(s)
                && s.name@ == Seq::<char>::empty()),
    {
        MuFunctionState {
            name: name.to_owned(),
            backend_state: match fn_type {
                MuFunctionType::ICP => MuBackendFunctionState::Icp(MuIcpFunctionState::empty()),
                MuFunctionType::Solana => MuBackendFunctionState::Solana(
                    MuSolanaFunctionState { name: String::new() },
                ),
            },
        }
    }

    /// Borrow the ICP facts of a function known to target the ICP
    /// backend. The original aborted on other kinds; here that input is
    /// excluded up front.
    pub fn unwrap_icp(&self) -> (r: &MuIcpFunctionState)
        requires
            self.backend_state is Icp,
        ensures
            *r == self.backend_state->Icp_0,
    {
        match &self.backend_state {
            MuBackendFunctionState::Icp(icp) => icp,
            MuBackendFunctionState::Solana(_) => unreached(),
        }
    }

    /// Mutably borrow the ICP facts; build and deploy write through
    /// this.
    pub fn unwrap_icp_mut(&mut self) -> (r: &mut MuIcpFunctionState)
        requires
            old(self).backend_state is Icp,
        ensures
            *r == old(self).backend_state->Icp_0,
            final(self).name == old(self).name,
            final(self).backend_state == MuBackendFunctionState::Icp(*final(r)),
    {
        match &mut self.backend_state {
            MuBackendFunctionState::Icp(icp) => icp,
            MuBackendFunctionState::Solana(_) => unreached(),
        }
    }
}

/// The whole derived document: one state record per function, in the
/// same order as the config document's function list.
pub struct MuProjectState {
    pub functions: Vec<MuFunctionState>,
}

/// Clone an optional string, preserving the value exactly.
fn clone_optional_string(s: &Option<String>) -> (r: Option<String>)
    ensures
        r == *s,
{
    match s {
        Some(v) => Some(v.clone()),
        None => None,
    }
}

} // verus!
