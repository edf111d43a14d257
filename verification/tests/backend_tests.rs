use mu_cli::backends::icp::{
    CanisterIdEntry, IcpConfig, IcpFunction, NetworkIdEntry, NodeSupervisor,
    lookup_local_canister_id, node_start_command, NODE_PORT,
};
use mu_cli::backends::js::{JsBackend, DEV_SERVER_PORT};
use mu_cli::errors::MuCliError;
use mu_cli::project::config::{
    MuFrontendConfig, MuFrontendTemplate, MuFunctionConfig, MuFunctionType,
};
use mu_cli::project::state::{MuFunctionState, MuBackendFunctionState};
use mu_cli::util::{exit_to_result, readiness_step, PollStep, RETRY_INTERVAL_SECS};

fn icp_function(name: &str) -> IcpFunction {
    let config = MuFunctionConfig::new(name, MuFunctionType::ICP);
    let root = format!("functions/{}", name);
    IcpFunction::new(&root, &config)
}

#[test]
fn dfx_config_names_exactly_one_canister() {
    let config = MuFunctionConfig::new("svc", MuFunctionType::ICP);
    let dfx = IcpConfig::from_config(&config);
    assert_eq!(dfx.canister_name, "svc");
    assert_eq!(dfx.canister.candid, "svc.did");
    assert_eq!(dfx.canister.package, "svc");
    assert_eq!(dfx.canister.canister_type, "rust");
    assert_eq!(dfx.output_env_file, ".env");
    assert_eq!(dfx.version, 1);
    assert_eq!(dfx.defaults.build.args, "");
    assert_eq!(dfx.defaults.build.packtool, "");
}

#[test]
fn save_dfx_config_targets_the_unit_root() {
    let f = icp_function("svc");
    let (path, dfx) = f.save_dfx_config();
    assert_eq!(path, "functions/svc/dfx.json");
    assert_eq!(dfx.canister_name, "svc");
}

#[test]
fn init_plan_renders_the_icp_scaffold() {
    let f = icp_function("svc");
    let plan = f.init();
    assert_eq!(plan.render.template, "icp/function");
    assert_eq!(plan.render.dest, "functions/svc");
    assert_eq!(plan.render.unit_name, "svc");
    assert_eq!(plan.dfx_config_path, "functions/svc/dfx.json");
    assert_eq!(plan.dfx_config.version, 1);
}

#[test]
fn build_pipeline_commands_are_fixed() {
    let f = icp_function("svc");
    let compile = f.build_command();
    assert_eq!(compile.program, "cargo");
    assert_eq!(compile.args, vec!["build", "--release", "--target", "wasm32-unknown-unknown"]);
    assert_eq!(compile.dir, "functions/svc");
    let extract = f.extract_command();
    assert_eq!(extract.program, "candid-extractor");
    assert_eq!(extract.args, vec!["target/wasm32-unknown-unknown/release/svc.wasm"]);
    assert_eq!(extract.dir, "functions/svc");
    let deploy = f.deploy_command();
    assert_eq!(deploy.program, "dfx");
    assert_eq!(deploy.args, vec!["deploy"]);
    assert_eq!(deploy.dir, "functions/svc");
    assert_eq!(f.canister_ids_path(), "functions/svc/.dfx/local/canister_ids.json");
}

#[test]
fn failed_compile_is_fatal_and_records_nothing() {
    let state = MuFunctionState::new("svc", MuFunctionType::ICP);
    let r = exit_to_result(false, MuCliError::CompileFailed);
    assert_eq!(r, Err(MuCliError::CompileFailed));
    // The pipeline stops here: the interface description stays unset.
    assert!(state.unwrap_icp().did.is_none());
    // A successful compile alone records nothing either.
    assert_eq!(exit_to_result(true, MuCliError::CompileFailed), Ok(()));
    assert!(state.unwrap_icp().did.is_none());
}

#[test]
fn successful_extraction_records_the_interface_and_its_sidecar() {
    let f = icp_function("svc");
    let mut state = MuFunctionState::new("svc", MuFunctionType::ICP);
    let did = "service : { ping : () -> (nat64) query }";
    let sidecar = f.record_interface(&mut state, did);
    assert_eq!(sidecar, "functions/svc/svc.did");
    assert_eq!(state.unwrap_icp().did.as_deref(), Some(did));
    assert!(state.unwrap_icp().js_bindings.is_none());
    assert!(state.unwrap_icp().canister_id.is_none());
}

#[test]
fn bindings_are_generated_from_a_valid_interface() {
    let f = icp_function("svc");
    let mut state = MuFunctionState::new("svc", MuFunctionType::ICP);
    f.record_interface(&mut state, "service : { ping : () -> (nat64) query }");
    let r = f.generate_bindings(&mut state);
    assert_eq!(r, Ok(()));
    let js = state.unwrap_icp().js_bindings.clone().expect("bindings are recorded");
    assert!(js.contains("ping"));
    assert!(js.contains("IDL"));
    assert_ne!(js, "service : { ping : () -> (nat64) query }");
}

#[test]
fn bindings_failure_is_fatal_and_records_nothing() {
    let f = icp_function("svc");
    let mut state = MuFunctionState::new("svc", MuFunctionType::ICP);
    f.record_interface(&mut state, "this is not a candid interface {");
    let r = f.generate_bindings(&mut state);
    assert_eq!(r, Err(MuCliError::BindingsFailed));
    assert!(state.unwrap_icp().js_bindings.is_none());
}

#[test]
fn lookup_takes_the_local_entry_of_the_named_canister() {
    let entries = vec![
        CanisterIdEntry {
            canister: "other".to_string(),
            networks: vec![NetworkIdEntry {
                network: "local".to_string(),
                id: "aaaaa-aa".to_string(),
            }],
        },
        CanisterIdEntry {
            canister: "svc".to_string(),
            networks: vec![
                NetworkIdEntry { network: "ic".to_string(), id: "mainnet-id".to_string() },
                NetworkIdEntry {
                    network: "local".to_string(),
                    id: "bkyz2-fmaaa-aaaaa-qaaaq-cai".to_string(),
                },
            ],
        },
    ];
    assert_eq!(
        lookup_local_canister_id(&entries, "svc").as_deref(),
        Some("bkyz2-fmaaa-aaaaa-qaaaq-cai")
    );
    assert_eq!(lookup_local_canister_id(&entries, "absent"), None);
    let no_local = vec![CanisterIdEntry {
        canister: "svc".to_string(),
        networks: vec![NetworkIdEntry { network: "ic".to_string(), id: "x".to_string() }],
    }];
    assert_eq!(lookup_local_canister_id(&no_local, "svc"), None);
}

#[test]
fn deploy_records_the_locally_assigned_identifier() {
    let f = icp_function("svc");
    let mut state = MuFunctionState::new("svc", MuFunctionType::ICP);
    let ids_json = r#"{ "svc": { "local": "bkyz2-fmaaa-aaaaa-qaaaq-cai" },
                       "other": { "local": "bd3sg-teaaa-aaaaa-qaaba-cai" } }"#;
    let r = f.record_canister_id(&mut state, ids_json);
    assert_eq!(r, Ok(()));
    assert_eq!(
        state.unwrap_icp().canister_id.as_deref(),
        Some("bkyz2-fmaaa-aaaaa-qaaaq-cai")
    );
}

#[test]
fn deploy_without_a_mapping_entry_is_fatal_and_records_nothing() {
    let f = icp_function("svc");
    let mut state = MuFunctionState::new("svc", MuFunctionType::ICP);
    let r = f.record_canister_id(&mut state, r#"{ "other": { "local": "x" } }"#);
    assert_eq!(r, Err(MuCliError::MissingCanisterId));
    assert!(state.unwrap_icp().canister_id.is_none());
    let r = f.record_canister_id(&mut state, "not json at all");
    assert_eq!(r, Err(MuCliError::MissingCanisterId));
    assert!(state.unwrap_icp().canister_id.is_none());
}

#[test]
fn the_shared_node_is_spawned_at_most_once() {
    let mut supervisor = NodeSupervisor::new();
    assert!(supervisor.acquire_start());
    assert!(!supervisor.acquire_start());
    assert!(!supervisor.acquire_start());
}

#[test]
fn node_start_and_readiness_protocol() {
    let cmd = node_start_command();
    assert_eq!(cmd.program, "dfx");
    assert_eq!(cmd.args, vec!["start"]);
    assert_eq!(cmd.dir, ".");
    assert_eq!(NODE_PORT, 4943);
    assert_eq!(RETRY_INTERVAL_SECS, 1);
    assert_eq!(readiness_step(false), PollStep::RetryAfterInterval);
    assert_eq!(readiness_step(true), PollStep::Ready);
}

#[test]
fn deploy_when_node_not_running_starts_it_then_records_the_id() {
    // Scenario: deploy with the node down. The supervisor requests one
    // spawn, readiness polling retries until the port opens, the deploy
    // subcommand runs, and the identifier is extracted and recorded.
    let mut supervisor = NodeSupervisor::new();
    assert!(supervisor.acquire_start());
    assert_eq!(readiness_step(false), PollStep::RetryAfterInterval);
    assert_eq!(readiness_step(true), PollStep::Ready);
    let f = icp_function("svc");
    assert_eq!(f.deploy_command().program, "dfx");
    assert_eq!(exit_to_result(true, MuCliError::DeployFailed), Ok(()));
    let mut project = mu_cli::project::MuProject::init("demo".to_string());
    project.add_function("svc", MuFunctionType::ICP);
    let r = f.record_canister_id(
        &mut project.functions[0].state,
        r#"{ "svc": { "local": "rrkah-fqaaa-aaaaa-aaaaq-cai" } }"#,
    );
    assert_eq!(r, Ok(()));
    // The identifier is recorded and survives persisting the project.
    let (_config, state_doc) = project.save();
    assert_eq!(
        state_doc.functions[0].unwrap_icp().canister_id.as_deref(),
        Some("rrkah-fqaaa-aaaaa-aaaaq-cai")
    );
    // A second unit's deploy reuses the running node.
    assert!(!supervisor.acquire_start());
}

#[test]
fn failed_subprocesses_map_to_their_errors() {
    assert_eq!(exit_to_result(false, MuCliError::ExtractFailed), Err(MuCliError::ExtractFailed));
    assert_eq!(exit_to_result(false, MuCliError::DeployFailed), Err(MuCliError::DeployFailed));
}

#[test]
fn frontend_scaffold_plan_and_dev_server() {
    let config = MuFrontendConfig { name: "web".to_string(), template: MuFrontendTemplate::Vanilla };
    let b = JsBackend::new("frontends/web", &config);
    assert_eq!(b.template_path(), Ok("js/vanilla"));
    let plan = b.create_frontend().expect("the vanilla template is implemented");
    assert_eq!(plan.render.template, "js/vanilla");
    assert_eq!(plan.render.dest, "frontends/web");
    assert_eq!(plan.render.unit_name, "web");
    assert_eq!(plan.install.program, "npm");
    assert_eq!(plan.install.args, vec!["install"]);
    assert_eq!(plan.install.dir, "frontends/web");
    let dev = b.dev_command();
    assert_eq!(dev.program, "npm");
    assert_eq!(dev.args, vec!["run", "dev"]);
    assert_eq!(dev.dir, "frontends/web");
    assert_eq!(DEV_SERVER_PORT, 5173);
}

#[test]
fn unimplemented_templates_are_rejected_with_a_clear_error() {
    let config = MuFrontendConfig { name: "web".to_string(), template: MuFrontendTemplate::React };
    let b = JsBackend::new("frontends/web", &config);
    assert_eq!(b.template_path(), Err(MuCliError::UnsupportedTemplate));
    match b.create_frontend() {
        Err(e) => assert_eq!(e, MuCliError::UnsupportedTemplate),
        Ok(_) => panic!("the react template is not implemented"),
    }
    let config = MuFrontendConfig { name: "web".to_string(), template: MuFrontendTemplate::Vue };
    let b = JsBackend::new("frontends/web", &config);
    assert_eq!(b.template_path(), Err(MuCliError::UnsupportedTemplate));
}
