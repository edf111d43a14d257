//! The frontend backend: scaffolding a web client from an embedded
//! template and serving it with a package-manager dev server. Frontends
//! are not built or deployed by the engine; they are only scaffolded
//! once and re-served.

use vstd::prelude::*;

use crate::backends::{CmdSpec, RenderPlan};
use crate::errors::MuCliError;
use crate::project::config::{MuFrontendConfig, MuFrontendTemplate};

verus! {

/// The fixed local port the dev server listens on; readiness is polled
/// against it.
pub const DEV_SERVER_PORT: u16 = 5173;

/// A backend handle for one frontend unit: its root directory, its name
/// and the template it is scaffolded from.
pub struct JsBackend {
    pub root: String,
    pub name: String,
    pub template: MuFrontendTemplate,
}

/// Everything scaffolding a frontend asks the shell to do: render the
/// chosen template into the unit's root, substituting the unit's name,
/// then install its dependencies there.
pub struct FrontendPlan {
    pub render: RenderPlan,
    pub install: CmdSpec,
}

impl JsBackend {
    pub fn new(root: &str, config: &MuFrontendConfig) -> (r: JsBackend)
        ensures
            r.root@ == root@,
            r.name@ == config.name@,
            r.template == config.template,
    {
        JsBackend { root: root.to_owned(), name: config.name.clone(), template: config.template }
    }

    /// The template tree for this frontend's kind. Only the vanilla
    /// template is implemented; the other kinds are rejected with a
    /// clear error instead of aborting.
    pub fn template_path(&self) -> (r: Result<&'static str, MuCliError>)
        ensures
            self.template is Vanilla ==> (r matches Ok(p) && p@ == "js/vanilla"@),
            !(self.template is Vanilla) ==> r == Err::<&'static str, MuCliError>(
                MuCliError::UnsupportedTemplate,
            ),
    {
        match self.template {
            MuFrontendTemplate::Vanilla => Ok("js/vanilla"),
            MuFrontendTemplate::React => Err(MuCliError::UnsupportedTemplate),
            MuFrontendTemplate::Vue => Err(MuCliError::UnsupportedTemplate),
        }
    }

    /// The scaffold-and-install plan for a freshly added frontend, or
    /// an error for an unimplemented template kind.
    pub fn create_frontend(&self) -> (r: Result<FrontendPlan, MuCliError>)
        ensures
            self.template is Vanilla ==> (r matches Ok(plan)
                && plan.render.template@ == "js/vanilla"@
                && plan.render.dest@ == self.root@
                && plan.render.unit_name@ == self.name@
                && plan.install.program@ == "npm"@
                && plan.install.args@.len() == 1
                && plan.install.args@[0]@ == "install"@
                && plan.install.dir@ == self.root@),
            !(self.template is Vanilla) ==> r == Err::<FrontendPlan, MuCliError>(
                MuCliError::UnsupportedTemplate,
            ),
    {
        let template = match self.template_path() {
            Ok(p) => p,
            Err(e) => {
                return Err(e);
            },
        };
        let mut args: Vec<String> = Vec::new();
        args.push("install".to_owned());
        Ok(
            FrontendPlan {
                render: RenderPlan {
                    template: template.to_owned(),
                    dest: self.root.clone(),
                    unit_name: self.name.clone(),
                },
                install: CmdSpec { program: "npm".to_owned(), args, dir: self.root.clone() },
            },
        )
    }

    /// The dev-server command for this frontend, run in the unit's
    /// root; the shell polls `DEV_SERVER_PORT` until it accepts.
    pub fn dev_command(&self) -> (r: CmdSpec)
        ensures
            r.program@ == "npm"@,
            r.args@.len() == 2,
            r.args@[0]@ == "run"@,
            r.args@[1]@ == "dev"@,
            r.dir@ == self.root@,
    {
        let mut args: Vec<String> = Vec::new();
        args.push("run".to_owned());
        args.push("dev".to_owned());
        CmdSpec { program: "npm".to_owned(), args, dir: self.root.clone() }
    }
}

} // verus!
