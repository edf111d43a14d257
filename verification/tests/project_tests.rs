use mu_cli::errors::MuCliError;
use mu_cli::project::config::{MuFunctionConfig, MuFunctionType, MuFrontendTemplate};
use mu_cli::project::state::{MuBackendFunctionState, MuFunctionState};
use mu_cli::project::MuProject;

#[test]
fn init_fresh_project_has_fixed_metadata_and_empty_lists() {
    let p = MuProject::init("demo".to_string());
    assert_eq!(p.metadata.name, "demo");
    assert_eq!(p.metadata.version, "0.1.0");
    assert_eq!(p.metadata.description, "A new Mu project");
    assert_eq!(p.functions.len(), 0);
    assert_eq!(p.frontends.len(), 0);
}

#[test]
fn add_function_appends_one_config_and_one_unset_state() {
    let mut p = MuProject::init("demo".to_string());
    p.add_function("svc", MuFunctionType::ICP);
    let (config, state) = p.save();
    assert_eq!(config.functions.len(), 1);
    assert_eq!(state.functions.len(), 1);
    assert_eq!(config.functions[0].name, "svc");
    assert_eq!(state.functions[0].name, "svc");
    match &state.functions[0].backend_state {
        MuBackendFunctionState::Icp(icp) => {
            assert_eq!(icp.did, None);
            assert_eq!(icp.canister_id, None);
            assert_eq!(icp.js_bindings, None);
        }
        MuBackendFunctionState::Solana(_) => panic!("expected an ICP state"),
    }
    assert_eq!(p.functions[0].get_root(), "functions/svc");
}

#[test]
fn add_frontend_appends_one_config() {
    let mut p = MuProject::init("demo".to_string());
    p.add_frontend("web", MuFrontendTemplate::Vanilla);
    let (config, _state) = p.save();
    assert_eq!(config.frontends.len(), 1);
    assert_eq!(config.frontends[0].name, "web");
    assert_eq!(config.frontends[0].template, MuFrontendTemplate::Vanilla);
    assert_eq!(p.frontends[0].get_root(), "frontends/web");
}

#[test]
fn load_after_save_round_trips_every_field() {
    let mut p = MuProject::init("demo".to_string());
    p.add_function("alpha", MuFunctionType::ICP);
    p.add_function("beta", MuFunctionType::ICP);
    p.add_frontend("web", MuFrontendTemplate::Vanilla);
    let (config, state) = p.save();
    let q = MuProject::load(Some(config), Some(state))
        .expect("a saved project loads")
        .expect("a saved project exists");
    assert_eq!(q.metadata.name, p.metadata.name);
    assert_eq!(q.metadata.version, p.metadata.version);
    assert_eq!(q.metadata.description, p.metadata.description);
    assert_eq!(q.functions.len(), p.functions.len());
    for (qf, pf) in q.functions.iter().zip(p.functions.iter()) {
        assert_eq!(qf.config.name, pf.config.name);
        assert_eq!(qf.state.name, pf.state.name);
    }
    assert_eq!(q.frontends.len(), p.frontends.len());
    for (qf, pf) in q.frontends.iter().zip(p.frontends.iter()) {
        assert_eq!(qf.config.name, pf.config.name);
    }
}

#[test]
fn load_with_either_document_absent_is_no_project() {
    let p = MuProject::init("demo".to_string());
    let (config, state) = p.save();
    let r = MuProject::load(None, Some(state)).expect("missing config is not an error");
    assert!(r.is_none());
    let r = MuProject::load(Some(config), None).expect("missing state is not an error");
    assert!(r.is_none());
    let r = MuProject::load(None, None).expect("missing both is not an error");
    assert!(r.is_none());
}

#[test]
fn load_with_mismatched_list_lengths_is_a_structural_error() {
    let mut p = MuProject::init("demo".to_string());
    p.add_function("alpha", MuFunctionType::ICP);
    p.add_function("beta", MuFunctionType::ICP);
    let (config, mut state) = p.save();
    state.functions.pop();
    let r = MuProject::load(Some(config), Some(state));
    match r {
        Err(e) => assert_eq!(e, MuCliError::StructuralMismatch),
        Ok(_) => panic!("a shorter state list must be a structural error"),
    }
}

#[test]
fn load_with_diverging_names_is_a_structural_error() {
    let mut p = MuProject::init("demo".to_string());
    p.add_function("alpha", MuFunctionType::ICP);
    let (config, mut state) = p.save();
    state.functions[0] = MuFunctionState::new("omega", MuFunctionType::ICP);
    let r = MuProject::load(Some(config), Some(state));
    match r {
        Err(e) => assert_eq!(e, MuCliError::StructuralMismatch),
        Ok(_) => panic!("diverging names must be a structural error"),
    }
}

#[test]
fn solana_units_are_rejected_with_a_clear_error() {
    let mut p = MuProject::init("demo".to_string());
    p.add_function("svc", MuFunctionType::Solana);
    assert_eq!(p.functions[0].init().err(), Some(MuCliError::UnsupportedBackend));
    assert_eq!(p.functions[0].build().err(), Some(MuCliError::UnsupportedBackend));
    assert_eq!(p.functions[0].deploy().err(), Some(MuCliError::UnsupportedBackend));
    match p.build() {
        Err(e) => assert_eq!(e, MuCliError::UnsupportedBackend),
        Ok(_) => panic!("a solana unit must fail the whole build"),
    }
}

#[test]
fn function_type_names() {
    assert_eq!(MuFunctionType::ICP.to_string(), "icp");
    assert_eq!(MuFunctionType::Solana.to_string(), "solana");
}

#[test]
fn function_config_new_carries_name_and_kind() {
    let c = MuFunctionConfig::new("svc", MuFunctionType::ICP);
    assert_eq!(c.name, "svc");
    assert_eq!(c.fn_type, MuFunctionType::ICP);
}

#[test]
fn unwrap_icp_exposes_the_icp_state() {
    let mut s = MuFunctionState::new("svc", MuFunctionType::ICP);
    assert!(s.unwrap_icp().did.is_none());
    s.unwrap_icp_mut().did = Some("service : {}".to_string());
    assert_eq!(s.unwrap_icp().did.as_deref(), Some("service : {}"));
}

#[test]
fn error_messages_are_the_fatal_one_liners() {
    assert_eq!(MuCliError::CompileFailed.message(), "Failed to build ICP project");
    assert_eq!(MuCliError::ExtractFailed.message(), "Failed to extract candid file");
    assert_eq!(
        MuCliError::BindingsFailed.message(),
        "Failed to generate JavaScript bindings"
    );
    assert_eq!(MuCliError::DeployFailed.message(), "Failed to deploy ICP project");
    assert_eq!(
        MuCliError::StructuralMismatch.message(),
        "config and state lists do not match"
    );
    assert_eq!(MuCliError::UnsupportedBackend.message(), "unsupported backend");
    assert_eq!(MuCliError::UnsupportedTemplate.message(), "unsupported template");
    assert_eq!(
        MuCliError::MissingCanisterId.message(),
        "no canister id recorded for this function"
    );
}
