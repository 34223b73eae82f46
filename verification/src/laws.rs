//! The laws of the endpoint lifecycle, stated over the artifact model.
//!
//! Each law relates the plans an [`Endpoint`](crate::endpoint::Endpoint)
//! produces to the artifact model of [`crate::artifact`]: what the artifact
//! looks like after the first successful production of the incoming stream,
//! why a second production creates no second artifact, and what teardown
//! does for owned and for adopted endpoints.

use vstd::prelude::*;
use crate::artifact::Artifact;
use crate::artifact::run_cleanup;
use crate::artifact::run_plan;
use crate::endpoint::Endpoint;
use crate::endpoint::cleanup_spec;
use crate::endpoint::incoming_spec;
use crate::plan::PlanAction;
use crate::security::implied_mode;

verus! {

/// Ordering invariant: after the first successful production of the
/// incoming stream on an endpoint that is not yet bound — so the artifact
/// does not exist beforehand — the artifact exists and its permission bits
/// are exactly those implied by the endpoint's current security attributes:
/// the configured mask if one is set, the filesystem's default bits if not.
pub proof fn lemma_first_incoming_mode(e: Endpoint, before: Artifact, os_default: u16)
    requires
        !e.bound_spec(),
        !before.exists,
        incoming_spec(e) is Ok,
    ensures
        run_plan(before, incoming_spec(e)->Ok_0, os_default).exists,
        run_plan(before, incoming_spec(e)->Ok_0, os_default).mode == implied_mode(
            e.mode_spec(),
            os_default,
        ),
{
}

/// Idempotent re-bind guard: an endpoint that went through a successful
/// first production of the incoming stream — it was unbound, its plan bound
/// it, and the bind was recorded — plans no second bind when the stream is
/// produced again: no second listening socket and no second artifact, only
/// a re-application of the current permission mask to the artifact that
/// already exists.
pub proof fn lemma_rebind_guard(e0: Endpoint, e1: Endpoint, a: Artifact, os_default: u16)
    requires
        !e0.bound_spec(),
        incoming_spec(e0) is Ok,
        // e1 is e0 after a fully successful outcome was recorded, exactly
        // as `record_outcome` ensures.
        e1.bound_spec(),
        e1.path_spec() == e0.path_spec(),
        e1.mode_spec() == e0.mode_spec(),
        e1.adopted_spec() == e0.adopted_spec(),
    ensures
        incoming_spec(e0)->Ok_0.bind,
        incoming_spec(e1) is Ok,
        !incoming_spec(e1)->Ok_0.bind,
        forall|i: int|
            0 <= i < incoming_spec(e1)->Ok_0.actions().len()
                ==> !(incoming_spec(e1)->Ok_0.actions()[i] is Bind),
        run_plan(a, incoming_spec(e1)->Ok_0, os_default).exists == a.exists,
{
}

/// Exclusive bind, the half this layer controls: an endpoint that is not
/// yet bound can only reach the bound state through a bind step, which its
/// plan puts first — so the operating system, which refuses a second bind
/// to a path with a live listener, is always consulted before anything else
/// is done.  A refused bind is a failed step, after which
/// [`Endpoint::record_outcome`](crate::endpoint::Endpoint::record_outcome)
/// leaves the endpoint unbound, free for a later retry.
pub proof fn lemma_unbound_plan_binds_first(e: Endpoint)
    requires
        !e.bound_spec(),
        incoming_spec(e) is Ok,
    ensures
        incoming_spec(e)->Ok_0.bind,
        incoming_spec(e)->Ok_0.actions()[0] is Bind,
{
}

/// Deferred permission re-application: a policy replaced after the first
/// bind takes effect when the stream is next produced — the new plan
/// applies the replacement mask to the existing artifact.
pub proof fn lemma_policy_reapplied(e: Endpoint, a: Artifact, m: u16, os_default: u16)
    requires
        e.bound_spec(),
        e.mode_spec() == Some(m),
        a.exists,
        incoming_spec(e) is Ok,
    ensures
        run_plan(a, incoming_spec(e)->Ok_0, os_default).mode == m,
{
}

/// Cleanup on drop: after an endpoint that owns its path is destroyed and
/// its advisory unlink succeeds, the artifact at that path no longer
/// exists.
pub proof fn lemma_cleanup_on_drop(e: Endpoint, a: Artifact)
    requires
        !e.adopted_spec(),
    ensures
        cleanup_spec(e) matches Some(p) && p == e.path_spec(),
        !run_cleanup(a, cleanup_spec(e)).exists,
{
}

/// Adopted endpoint skip: an endpoint that adopted a descriptor owns no
/// artifact, so its teardown attempts no removal and the artifact stands
/// untouched.
pub proof fn lemma_adopted_skips_cleanup(e: Endpoint, a: Artifact)
    requires
        e.adopted_spec(),
    ensures
        cleanup_spec(e) is None,
        run_cleanup(a, cleanup_spec(e)) == a,
{
}

/// Permission default: an endpoint whose security attributes set no mask
/// has no permission call to make, so planning succeeds whatever the path
/// holds, no permission change is planned at all, and the artifact keeps
/// the bits the operating system assigned at creation.
pub proof fn lemma_default_mode_untouched(e: Endpoint, before: Artifact, os_default: u16)
    requires
        e.mode_spec() is None,
    ensures
        incoming_spec(e) is Ok,
        forall|i: int|
            0 <= i < incoming_spec(e)->Ok_0.actions().len()
                ==> !(incoming_spec(e)->Ok_0.actions()[i] is Chmod),
        !e.bound_spec() && !before.exists ==> run_plan(
            before,
            incoming_spec(e)->Ok_0,
            os_default,
        ).mode == os_default,
{
}

} // verus!
