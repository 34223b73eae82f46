use ipc_endpoint::Artifact;
use ipc_endpoint::Endpoint;
use ipc_endpoint::SecurityAttributes;

#[test]
fn empty_sets_no_mode() {
    let mut endpoint = Endpoint::new(String::from("/run/a.sock"));
    endpoint.set_security_attributes(SecurityAttributes::empty());
    let plan = endpoint.incoming_plan().unwrap();
    assert_eq!(plan.set_mode, None);
}

#[test]
fn allow_everyone_create_sets_no_mode() {
    let mut endpoint = Endpoint::new(String::from("/run/a.sock"));
    endpoint.set_security_attributes(SecurityAttributes::allow_everyone_create().unwrap());
    let plan = endpoint.incoming_plan().unwrap();
    assert_eq!(plan.set_mode, None);
}

#[test]
fn set_mode_replaces_a_prior_mode_outright() {
    let mut endpoint = Endpoint::new(String::from("/run/a.sock"));
    let attrs = SecurityAttributes::empty()
        .allow_everyone_connect()
        .unwrap()
        .set_mode(0o600)
        .unwrap();
    endpoint.set_security_attributes(attrs);
    let plan = endpoint.incoming_plan().unwrap();
    assert_eq!(plan.set_mode, Some(0o600));
}

#[test]
fn permission_default_leaves_a_fresh_artifact_unchanged() {
    let endpoint = Endpoint::new(String::from("/run/a.sock"));
    let plan = endpoint.incoming_plan().unwrap();

    let fresh = Artifact { exists: true, mode: 0o755 };
    let after = fresh.apply_plan(&plan, 0o755);
    assert_eq!(after.mode, 0o755);
    assert!(after.exists);
}

#[test]
fn chmod_without_artifact_changes_nothing() {
    let mut endpoint = Endpoint::new(String::from("/run/a.sock"));
    endpoint.set_security_attributes(SecurityAttributes::empty().set_mode(0o777).unwrap());
    endpoint.record_outcome(ipc_endpoint::PlanOutcome {
        bind_ok: true,
        chmod_ok: true,
    });
    let plan = endpoint.incoming_plan().unwrap();
    assert!(!plan.bind);

    let absent = Artifact { exists: false, mode: 0 };
    let after = absent.apply_plan(&plan, 0o755);
    assert!(!after.exists);
}
