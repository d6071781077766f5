use pkg_export_container::buildspec::BuildSpec;
use pkg_export_container::engine::Engine;
use pkg_export_container::error::ExportError;
use pkg_export_container::export::{Action, Event, ExportPipeline, ExportRequest, Stage};
use pkg_export_container::ident::PackageIdent;
use pkg_export_container::naming::Naming;
use pkg_export_container::registry::RegistryType;

fn s(v: &str) -> String {
    String::from(v)
}

fn request(refs: &[&str], push: bool, rm: bool, registry_type: RegistryType) -> ExportRequest {
    ExportRequest {
        spec: BuildSpec {
            idents_or_archives: refs.iter().map(|r| s(r)).collect(),
            base_image: s("scratch"),
            default_origin: s("core"),
        },
        naming: Naming {
            custom_image_name: None,
            latest_tag: true,
            version_tag: true,
            version_release_tag: false,
            custom_tag: None,
            registry_url: None,
            registry_type,
        },
        engine: Engine::Docker,
        memory: None,
        push_image: push,
        rm_image: rm,
        username: if push { Some(s("username")) } else { None },
        password: if push { Some(s("password")) } else { None },
    }
}

/// Drives a pipeline up to (and including) the build-image action.
/// Returns the tags the build was asked to apply.
fn drive_to_built(p: &mut ExportPipeline) -> (String, Vec<String>) {
    match p.start() {
        Action::Lookup { references } => assert_eq!(references.len(), 1),
        _ => panic!("expected a lookup"),
    }
    match p.step(Event::LookupDone { answers: vec![None] }) {
        Action::Assemble { units, base_image } => {
            assert_eq!(units.len(), 1);
            assert_eq!(base_image, "scratch");
        }
        _ => panic!("expected assembly"),
    }
    let primary = PackageIdent::parse("acme/web/1.2.0/20200101000000").unwrap();
    let (name, tags) = match p.step(Event::AssembleOk { workspace: s("/tmp/workspace"), primary })
    {
        Action::BuildImage { name, tags, engine, memory, workspace } => {
            assert_eq!(workspace, "/tmp/workspace");
            assert!(matches!(engine, Engine::Docker));
            assert!(memory.is_none());
            (name, tags)
        }
        _ => panic!("expected an engine build"),
    };
    match p.step(Event::BuildOk { image_id: s("sha256:0123") }) {
        Action::Destroy => {}
        _ => panic!("expected workspace destruction"),
    }
    (name, tags)
}

#[test]
fn scenario_local_build_without_push() {
    let mut p = ExportPipeline::new(request(
        &["acme/web/1.2.0/20200101000000"],
        false,
        false,
        RegistryType::Docker,
    ));
    let (name, tags) = drive_to_built(&mut p);
    assert_eq!(name, "acme/web");
    assert_eq!(tags, vec![s("1.2.0"), s("latest")]);
    assert_eq!(p.destroys, 1);
    match p.step(Event::DestroyOk) {
        Action::WriteReport { lines } => {
            assert_eq!(
                lines,
                vec![
                    s("name=acme/web"),
                    s("id=sha256:0123"),
                    s("tag=acme/web:1.2.0"),
                    s("tag=acme/web:latest"),
                ]
            );
        }
        _ => panic!("expected the report"),
    }
    match p.step(Event::ReportOk) {
        Action::Finished => {}
        _ => panic!("expected the export to finish"),
    }
    assert!(matches!(p.stage, Stage::Done));
    assert!(p.failure.is_none());
    let image = p.image.as_ref().expect("image kept");
    assert_eq!(image.name, "acme/web");
    assert_eq!(image.tags, vec![s("1.2.0"), s("latest")]);
    // No credential resolution happened: no token exchange was requested.
    assert_eq!(p.token_exchanges, 0);
    assert_eq!(p.destroys, 1);
}

#[test]
fn scenario_push_with_generic_credentials() {
    let mut p = ExportPipeline::new(request(
        &["acme/web/1.2.0/20200101000000"],
        true,
        false,
        RegistryType::Docker,
    ));
    drive_to_built(&mut p);
    match p.step(Event::DestroyOk) {
        Action::WriteReport { .. } => {}
        _ => panic!("expected the report"),
    }
    match p.step(Event::ReportOk) {
        Action::Login { token, registry_url } => {
            assert_eq!(token, base64::encode("username:password"));
            assert!(registry_url.is_none());
        }
        _ => panic!("expected a registry login"),
    }
    match p.step(Event::LoginOk) {
        Action::PushTag { target } => assert_eq!(target, "acme/web:1.2.0"),
        _ => panic!("expected the first upload"),
    }
    match p.step(Event::PushTagOk) {
        Action::PushTag { target } => assert_eq!(target, "acme/web:latest"),
        _ => panic!("expected the second upload"),
    }
    match p.step(Event::PushTagOk) {
        Action::Finished => {}
        _ => panic!("expected the export to finish"),
    }
    assert!(matches!(p.stage, Stage::Done));
    assert_eq!(p.push_index, 2);
    assert_eq!(p.remote_targets, vec![s("acme/web:1.2.0"), s("acme/web:latest")]);
    assert_eq!(p.token_exchanges, 0);
    assert_eq!(p.destroys, 1);
}

#[test]
fn scenario_unresolvable_reference() {
    let mut p = ExportPipeline::new(request(&["doesnotexist/pkg"], false, false,
        RegistryType::Docker));
    match p.start() {
        Action::Lookup { .. } => {}
        _ => panic!("expected a lookup"),
    }
    match p.step(Event::LookupDone { answers: vec![None] }) {
        Action::Finished => {}
        _ => panic!("expected the export to stop"),
    }
    assert!(matches!(p.stage, Stage::Failed));
    assert!(!p.root_created);
    assert_eq!(p.destroys, 0);
    match p.failure.as_ref().expect("a fatal error") {
        ExportError::Resolution { reference } => assert_eq!(reference, "doesnotexist/pkg"),
        other => panic!("wrong error: {:?}", other),
    }
}

#[test]
fn scenario_engine_build_failure_still_cleans_up() {
    let mut p = ExportPipeline::new(request(
        &["acme/web/1.2.0/20200101000000"],
        false,
        false,
        RegistryType::Docker,
    ));
    match p.start() {
        Action::Lookup { .. } => {}
        _ => panic!("expected a lookup"),
    }
    p.step(Event::LookupDone { answers: vec![None] });
    let primary = PackageIdent::parse("acme/web/1.2.0/20200101000000").unwrap();
    p.step(Event::AssembleOk { workspace: s("/tmp/workspace"), primary });
    match p.step(Event::BuildFailed { diagnostic: s("no space left on device") }) {
        Action::Destroy => {}
        _ => panic!("expected workspace destruction"),
    }
    assert_eq!(p.destroys, 1);
    match p.step(Event::DestroyOk) {
        Action::Finished => {}
        _ => panic!("expected the export to stop"),
    }
    assert!(matches!(p.stage, Stage::Failed));
    assert_eq!(p.destroys, 1);
    match p.failure.as_ref().expect("a fatal error") {
        ExportError::EngineBuild { diagnostic } => {
            assert_eq!(diagnostic, "no space left on device")
        }
        other => panic!("wrong error: {:?}", other),
    }
}

#[test]
fn assembly_failure_destroys_partial_workspace() {
    let mut p = ExportPipeline::new(request(
        &["acme/web/1.2.0/20200101000000"],
        false,
        false,
        RegistryType::Docker,
    ));
    p.start();
    p.step(Event::LookupDone { answers: vec![None] });
    match p.step(Event::AssembleFailed { reason: s("permission denied") }) {
        Action::Destroy => {}
        _ => panic!("expected destruction of the partial workspace"),
    }
    assert_eq!(p.destroys, 1);
    match p.step(Event::DestroyOk) {
        Action::Finished => {}
        _ => panic!("expected the export to stop"),
    }
    assert!(matches!(p.stage, Stage::Failed));
    assert!(matches!(p.failure, Some(ExportError::BuildRoot { .. })));
    assert_eq!(p.destroys, 1);
}

#[test]
fn push_failure_keeps_uploaded_tags() {
    let mut p = ExportPipeline::new(request(
        &["acme/web/1.2.0/20200101000000"],
        true,
        false,
        RegistryType::Docker,
    ));
    drive_to_built(&mut p);
    p.step(Event::DestroyOk);
    p.step(Event::ReportOk);
    p.step(Event::LoginOk);
    match p.step(Event::PushTagOk) {
        Action::PushTag { target } => assert_eq!(target, "acme/web:latest"),
        _ => panic!("expected the second upload"),
    }
    match p.step(Event::PushTagFailed { reason: s("connection reset") }) {
        Action::Finished => {}
        _ => panic!("expected the export to stop"),
    }
    assert!(matches!(p.stage, Stage::Failed));
    // The first upload is not retracted: the upload count stands at one and
    // no action ever removes a pushed tag.
    assert_eq!(p.push_index, 1);
    assert_eq!(p.remote_targets[0], "acme/web:1.2.0");
    assert!(matches!(p.failure, Some(ExportError::Push { .. })));
    assert_eq!(p.destroys, 1);
}

#[test]
fn amazon_push_exchanges_exactly_one_token() {
    let mut p = ExportPipeline::new(request(
        &["acme/web/1.2.0/20200101000000"],
        true,
        false,
        RegistryType::Amazon,
    ));
    drive_to_built(&mut p);
    p.step(Event::DestroyOk);
    match p.step(Event::ReportOk) {
        Action::FetchToken { username, password } => {
            assert_eq!(username, "username");
            assert_eq!(password, "password");
        }
        _ => panic!("expected a token exchange"),
    }
    assert_eq!(p.token_exchanges, 1);
    match p.step(Event::TokenExchangeDone {
        authorization_data: Some(vec![Some(s("exchanged-token"))]),
    }) {
        Action::Login { token, .. } => assert_eq!(token, "exchanged-token"),
        _ => panic!("expected a registry login"),
    }
    p.step(Event::LoginOk);
    p.step(Event::PushTagOk);
    match p.step(Event::PushTagOk) {
        Action::Finished => {}
        _ => panic!("expected the export to finish"),
    }
    assert!(matches!(p.stage, Stage::Done));
    assert_eq!(p.token_exchanges, 1);
}

#[test]
fn amazon_exchange_without_token_fails_credential_step() {
    let mut p = ExportPipeline::new(request(
        &["acme/web/1.2.0/20200101000000"],
        true,
        false,
        RegistryType::Amazon,
    ));
    drive_to_built(&mut p);
    p.step(Event::DestroyOk);
    p.step(Event::ReportOk);
    match p.step(Event::TokenExchangeDone { authorization_data: None }) {
        Action::Finished => {}
        _ => panic!("expected the export to stop"),
    }
    assert!(matches!(p.stage, Stage::Failed));
    assert!(matches!(p.failure, Some(ExportError::NoECRTokensReturned)));
    // The local build survives the credential failure.
    assert!(p.image.is_some());
    assert_eq!(p.destroys, 1);
}

#[test]
fn remove_after_build_leaves_no_local_image() {
    let mut p = ExportPipeline::new(request(
        &["acme/web/1.2.0/20200101000000"],
        false,
        true,
        RegistryType::Docker,
    ));
    drive_to_built(&mut p);
    p.step(Event::DestroyOk);
    match p.step(Event::ReportOk) {
        Action::RemoveImage { targets } => {
            assert_eq!(targets, vec![s("acme/web:1.2.0"), s("acme/web:latest")]);
        }
        _ => panic!("expected local removal"),
    }
    match p.step(Event::RemoveOk) {
        Action::Finished => {}
        _ => panic!("expected the export to finish"),
    }
    assert!(matches!(p.stage, Stage::Done));
    assert!(p.image.is_none());
}

#[test]
fn cleanup_failure_is_a_warning_not_an_error() {
    let mut p = ExportPipeline::new(request(
        &["acme/web/1.2.0/20200101000000"],
        false,
        false,
        RegistryType::Docker,
    ));
    drive_to_built(&mut p);
    match p.step(Event::DestroyFailed { reason: s("workspace already gone") }) {
        Action::WriteReport { .. } => {}
        _ => panic!("expected the report despite the cleanup failure"),
    }
    p.step(Event::ReportOk);
    assert!(matches!(p.stage, Stage::Done));
    assert!(p.failure.is_none());
    assert_eq!(p.warnings.len(), 1);
}

#[test]
fn token_exchange_transport_failure_is_fatal() {
    let mut p = ExportPipeline::new(request(
        &["acme/web/1.2.0/20200101000000"],
        true,
        false,
        RegistryType::Amazon,
    ));
    drive_to_built(&mut p);
    p.step(Event::DestroyOk);
    p.step(Event::ReportOk);
    match p.step(Event::TokenFailed { reason: s("connection timed out") }) {
        Action::Finished => {}
        _ => panic!("expected the export to stop"),
    }
    assert!(matches!(p.stage, Stage::Failed));
    match p.failure.as_ref().expect("a fatal error") {
        ExportError::TokenFetchFailed { reason } => assert_eq!(reason, "connection timed out"),
        other => panic!("wrong error: {:?}", other),
    }
}

#[test]
fn local_removal_failure_is_fatal() {
    let mut p = ExportPipeline::new(request(
        &["acme/web/1.2.0/20200101000000"],
        false,
        true,
        RegistryType::Docker,
    ));
    drive_to_built(&mut p);
    p.step(Event::DestroyOk);
    p.step(Event::ReportOk);
    match p.step(Event::RemoveFailed { reason: s("image in use") }) {
        Action::Finished => {}
        _ => panic!("expected the export to stop"),
    }
    assert!(matches!(p.stage, Stage::Failed));
    assert!(matches!(p.failure, Some(ExportError::Remove { .. })));
    assert_eq!(p.destroys, 1);
}

#[test]
fn report_failure_is_a_warning_not_an_error() {
    let mut p = ExportPipeline::new(request(
        &["acme/web/1.2.0/20200101000000"],
        false,
        false,
        RegistryType::Docker,
    ));
    drive_to_built(&mut p);
    p.step(Event::DestroyOk);
    match p.step(Event::ReportFailed { reason: s("results directory is read-only") }) {
        Action::Finished => {}
        _ => panic!("expected the export to finish"),
    }
    assert!(matches!(p.stage, Stage::Done));
    assert!(p.failure.is_none());
    assert_eq!(p.warnings.len(), 1);
}

#[test]
fn registry_url_prefixes_pushed_tags() {
    let mut req = request(&["acme/web/1.2.0/20200101000000"], true, false, RegistryType::Azure);
    req.naming.registry_url = Some(s("registry.example.com"));
    let mut p = ExportPipeline::new(req);
    drive_to_built(&mut p);
    p.step(Event::DestroyOk);
    match p.step(Event::ReportOk) {
        Action::Login { registry_url, .. } => {
            assert_eq!(registry_url.as_deref(), Some("registry.example.com"));
        }
        _ => panic!("expected a registry login"),
    }
    match p.step(Event::LoginOk) {
        Action::PushTag { target } => {
            assert_eq!(target, "registry.example.com/acme/web:1.2.0");
        }
        _ => panic!("expected the first upload"),
    }
}
