//! Shared backend plumbing: the description of an external command a
//! backend wants run, and the scaffold-rendering plan handed to the
//! unverified shell. Template rendering itself (template name plus
//! structured data to files on disk) is an external collaborator.

use vstd::prelude::*;

pub mod icp;
pub mod js;

verus! {

/// The capability surface a function backend offers. Only the ICP
/// backend exists today; further targets would implement this.
pub trait FunctionBackend {
    fn new_function(&mut self, name: String);

    fn build(&self);
}

/// One external command: a program, its arguments in order, and the
/// working directory to run it in. The unverified shell spawns it and
/// reports the exit status back.
pub struct CmdSpec {
    pub program: String,
    pub args: Vec<String>,
    pub dir: String,
}

/// A scaffold to render: the embedded template tree to instantiate, the
/// destination directory, and the unit name substituted into the
/// templated files.
pub struct RenderPlan {
    pub template: String,
    pub dest: String,
    pub unit_name: String,
}

} // verus!
