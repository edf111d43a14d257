//! The declarative half of the persisted project: hand-editable
//! metadata and the ordered unit configuration lists.

use vstd::prelude::*;

verus! {

/// The kind of backend a function targets. A closed set; only the ICP
/// variant is implemented.
#[derive(Clone, Copy, Debug, PartialEq, Eq, Structural)]
pub enum MuFunctionType {
    ICP,
    Solana,
}

impl MuFunctionType {
    /// The identifier this kind goes by on the command line and in
    /// persisted documents.
    pub fn to_string(&self) -> (r: String)
        ensures
            *self is ICP ==> r@ == "icp"@,
            *self is Solana ==> r@ == "solana"@,
    {
        match self {
            MuFunctionType::ICP => "icp".to_owned(),
            MuFunctionType::Solana => "solana".to_owned(),
        }
    }
}

/// The template a frontend is scaffolded from. Only `Vanilla` is
/// implemented.
#[derive(Clone, Copy, Debug, PartialEq, Eq, Structural)]
pub enum MuFrontendTemplate {
    Vanilla,
    React,
    Vue,
}

/// Project-wide metadata; written once by `init` and edited only by
/// hand afterwards.
pub struct MuProjectMetadata {
    pub name: String,
    pub version: String,
    pub description: String,
}

impl Clone for MuProjectMetadata {
    fn clone(&self) -> (r: Self)
        ensures
            r == *self,
    {
        MuProjectMetadata {
            name: self.name.clone(),
            version: self.version.clone(),
            description: self.description.clone(),
        }
    }
}

/// The user-declared description of one function unit. The name is the
/// unit's key and is used as a filesystem path component.
pub struct MuFunctionConfig {
    pub name: String,
    pub fn_type: MuFunctionType,
}

impl Clone for MuFunctionConfig {
    fn clone(&self) -> (r: Self)
        ensures
            r == *self,
    {
        MuFunctionConfig { name: self.name.clone(), fn_type: self.fn_type }
    }
}

impl MuFunctionConfig {
    pub fn new(name: &str, fn_type: MuFunctionType) -> (r: MuFunctionConfig)
        ensures
            r.name@ == name@,
            r.fn_type == fn_type,
    {
        MuFunctionConfig { name: name.to_owned(), fn_type }
    }
}

/// The user-declared description of one frontend unit.
pub struct MuFrontendConfig {
    pub name: String,
    pub template: MuFrontendTemplate,
}

impl Clone for MuFrontendConfig {
    fn clone(&self) -> (r: Self)
        ensures
            r == *self,
    {
        MuFrontendConfig { name: self.name.clone(), template: self.template }
    }
}

/// The whole declarative document: metadata plus the ordered unit
/// lists. The unverified shell serializes this to the config file and
/// parses it back; the pairing with the state document is checked by
/// the loader.
pub struct MuProjectConfig {
    pub functions: Vec<MuFunctionConfig>,
    pub frontends: Vec<MuFrontendConfig>,
    pub metadata: MuProjectMetadata,
}

} // verus!
