use ipc_endpoint::Artifact;
use ipc_endpoint::Endpoint;
use ipc_endpoint::PlanError;
use ipc_endpoint::PlanOutcome;
use ipc_endpoint::SecurityAttributes;

const OS_DEFAULT: u16 = 0o755;

const ALL_STEPS_OK: PlanOutcome = PlanOutcome {
    bind_ok: true,
    chmod_ok: true,
};

#[test]
fn ordering_invariant_everyone_connect_yields_0o777() {
    let mut endpoint = Endpoint::new(String::from("/run/app.sock"));
    let attrs = SecurityAttributes::empty().allow_everyone_connect().unwrap();
    endpoint.set_security_attributes(attrs);

    let plan = endpoint.incoming_plan().unwrap();
    assert!(plan.bind);
    assert_eq!(plan.set_mode, Some(0o777));

    let before = Artifact { exists: false, mode: 0 };
    let after = before.apply_plan(&plan, OS_DEFAULT);
    assert!(after.exists);
    assert_eq!(after.mode, 0o777);
}

#[test]
fn ordering_invariant_default_attributes_keep_os_default() {
    let endpoint = Endpoint::new(String::from("/run/app.sock"));

    let plan = endpoint.incoming_plan().unwrap();
    assert!(plan.bind);
    assert_eq!(plan.set_mode, None);

    let before = Artifact { exists: false, mode: 0 };
    let after = before.apply_plan(&plan, OS_DEFAULT);
    assert!(after.exists);
    assert_eq!(after.mode, OS_DEFAULT);
}

#[test]
fn custom_mode_is_applied_verbatim() {
    let mut endpoint = Endpoint::new(String::from("/run/app.sock"));
    let attrs = SecurityAttributes::empty().set_mode(0o640).unwrap();
    endpoint.set_security_attributes(attrs);

    let plan = endpoint.incoming_plan().unwrap();
    assert_eq!(plan.set_mode, Some(0o640));

    let before = Artifact { exists: false, mode: 0 };
    let after = before.apply_plan(&plan, OS_DEFAULT);
    assert!(after.exists);
    assert_eq!(after.mode, 0o640);
}

#[test]
fn rebind_guard_second_call_binds_nothing() {
    let mut endpoint = Endpoint::new(String::from("/run/app.sock"));

    let first = endpoint.incoming_plan().unwrap();
    assert!(first.bind);
    endpoint.record_outcome(ALL_STEPS_OK);
    assert!(endpoint.is_bound());

    let second = endpoint.incoming_plan().unwrap();
    assert!(!second.bind);

    let after_first = Artifact { exists: false, mode: 0 }.apply_plan(&first, OS_DEFAULT);
    let after_second = after_first.apply_plan(&second, OS_DEFAULT);
    assert!(after_first.exists);
    assert!(after_second.exists);
    assert_eq!(after_second.mode, after_first.mode);
}

#[test]
fn replaced_policy_takes_effect_on_next_incoming() {
    let mut endpoint = Endpoint::new(String::from("/run/app.sock"));

    let first = endpoint.incoming_plan().unwrap();
    assert_eq!(first.set_mode, None);
    endpoint.record_outcome(ALL_STEPS_OK);
    let after_first = Artifact { exists: false, mode: 0 }.apply_plan(&first, OS_DEFAULT);
    assert_eq!(after_first.mode, OS_DEFAULT);

    let attrs = SecurityAttributes::empty().allow_everyone_connect().unwrap();
    endpoint.set_security_attributes(attrs);

    let second = endpoint.incoming_plan().unwrap();
    assert!(!second.bind);
    assert_eq!(second.set_mode, Some(0o777));
    let after_second = after_first.apply_plan(&second, OS_DEFAULT);
    assert!(after_second.exists);
    assert_eq!(after_second.mode, 0o777);
}

#[test]
fn nul_in_path_is_rejected_when_a_permission_change_is_planned() {
    let mut endpoint = Endpoint::new(String::from("/run/app\0.sock"));
    let attrs = SecurityAttributes::empty().allow_everyone_connect().unwrap();
    endpoint.set_security_attributes(attrs);
    let plan = endpoint.incoming_plan();
    assert_eq!(plan, Err(PlanError::NulInPath));
}

#[test]
fn nul_in_path_without_a_mask_plans_no_permission_call_and_succeeds() {
    // no mask is set, so there is no permission call to make: planning
    // succeeds, and the bind's own failure is the operating system's to
    // report
    let mut endpoint = Endpoint::new(String::from("/run/app\0.sock"));
    let first = endpoint.incoming_plan().unwrap();
    assert!(first.bind);
    assert_eq!(first.set_mode, None);

    // once bound, no call on the path is planned at all
    endpoint.record_outcome(ALL_STEPS_OK);
    let second = endpoint.incoming_plan().unwrap();
    assert!(!second.bind);
    assert_eq!(second.set_mode, None);
}

#[test]
fn failed_step_leaves_a_first_attempt_unbound_for_a_retry() {
    let mut endpoint = Endpoint::new(String::from("/run/app.sock"));
    let first = endpoint.incoming_plan().unwrap();
    assert!(first.bind);

    endpoint.record_outcome(PlanOutcome {
        bind_ok: false,
        chmod_ok: true,
    });
    assert!(!endpoint.is_bound());

    let retry = endpoint.incoming_plan().unwrap();
    assert!(retry.bind);
}

#[test]
fn failed_permission_step_leaves_a_bound_endpoint_bound() {
    let mut endpoint = Endpoint::new(String::from("/run/app.sock"));
    endpoint.record_outcome(ALL_STEPS_OK);
    assert!(endpoint.is_bound());

    endpoint.record_outcome(PlanOutcome {
        bind_ok: true,
        chmod_ok: false,
    });
    assert!(endpoint.is_bound());
}

#[test]
fn cleanup_on_drop_removes_owned_artifact() {
    let endpoint = Endpoint::new(String::from("/run/app.sock"));
    let cleanup = endpoint.cleanup_path();
    assert_eq!(cleanup, Some("/run/app.sock"));

    let bound = Artifact { exists: true, mode: 0o777 };
    let after = bound.unlinked();
    assert!(!after.exists);
}

#[test]
fn adopted_endpoint_skips_cleanup() {
    let endpoint = Endpoint::adopted();
    assert!(endpoint.is_bound());
    assert_eq!(endpoint.path(), "");
    assert_eq!(endpoint.cleanup_path(), None);
}

#[test]
fn adopted_endpoint_needs_no_bind() {
    let endpoint = Endpoint::adopted();
    let plan = endpoint.incoming_plan().unwrap();
    assert!(!plan.bind);
    assert_eq!(plan.set_mode, None);
}

#[test]
fn path_returns_the_stored_path() {
    let endpoint = Endpoint::new(String::from("/tmp/some.sock"));
    assert_eq!(endpoint.path(), "/tmp/some.sock");
    assert!(!endpoint.is_bound());
}
