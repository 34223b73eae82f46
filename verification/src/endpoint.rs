//! The endpoint lifecycle: lazy binding, permission sequencing, adoption of
//! pre-opened descriptors, and teardown of the filesystem artifact.
//!
//! An [`Endpoint`] owns a path and a [`SecurityAttributes`] policy and moves
//! through a two-state lifecycle, unbound to bound, never back.  It does not
//! touch the operating system itself: [`Endpoint::incoming_plan`] decides
//! what producing the incoming-connection stream must do (bind first, change
//! permissions second), the surrounding runtime layer executes those steps
//! and reports how they went through [`Endpoint::record_outcome`], and
//! [`Endpoint::cleanup_path`] decides which artifact teardown may remove.

use vstd::prelude::*;
use crate::plan::IncomingPlan;
use crate::plan::PlanOutcome;
use crate::security::SecurityAttributes;

verus! {

/// Whether the string holds an interior NUL character, which no
/// operating-system path string can encode.
pub open spec fn has_nul(s: Seq<char>) -> bool {
    exists|i: int| 0 <= i < s.len() && s[i] == '\0'
}

/// Whether the string holds an interior NUL character.
fn contains_nul(s: &str) -> (r: bool)
    ensures
        r == has_nul(s@),
{
    let n = s.unicode_len();
    let mut i: usize = 0;
    while i < n
        invariant
            n == s@.len(),
            i <= n,
            forall|j: int| 0 <= j < i ==> s@[j] != '\0',
        decreases n - i,
    {
        if s.get_char(i) == '\0' {
            return true;
        }
        i = i + 1;
    }
    false
}

/// The failure an endpoint detects itself, before any operating-system call
/// is attempted.
#[derive(Clone, Copy, Debug, PartialEq, Eq)]
pub enum PlanError {
    /// A permission change was to be issued, but the endpoint's path holds
    /// an interior NUL character and cannot be encoded for that call.
    NulInPath,
}

/// Whether the endpoint owns the artifact at a path of its own, or adopted
/// an already-listening descriptor whose path is unknown.
enum Ownership {
    /// The endpoint was created with this path; the artifact that binding
    /// creates there is the endpoint's to clean up.
    Owned(String),
    /// The endpoint adopted a pre-opened descriptor: no path is known and
    /// no artifact is owned.
    Adopted,
}

/// The owning handle for a local-domain listening channel at a filesystem
/// path.
///
/// The listening socket itself lives in the unverified runtime layer; the
/// endpoint records whether it exists (`bound`), and every method states
/// exactly how it drives the lifecycle.
pub struct Endpoint {
    ownership: Ownership,
    security_attributes: SecurityAttributes,
    bound: bool,
}

/// What a call that produces the incoming-connection stream must do to the
/// given endpoint: bind first exactly when no listener exists yet, then
/// apply the configured permission mask, if any — on every call, so that a
/// policy replaced after the first bind takes effect on the next.  The one
/// failure the endpoint detects itself is a permission change planned on a
/// path that cannot be encoded for that call; with no mask set there is no
/// permission call to make and planning succeeds whatever the path holds,
/// an unencodable path handed to the bind step failing in the runtime
/// layer with the operating system's own error.
pub open spec fn incoming_spec(e: Endpoint) -> Result<IncomingPlan, PlanError> {
    if e.mode_spec() is Some && has_nul(e.path_spec()) {
        Err(PlanError::NulInPath)
    } else {
        Ok(IncomingPlan { bind: !e.bound_spec(), set_mode: e.mode_spec() })
    }
}

/// The advisory cleanup of endpoint teardown: the path whose artifact may be
/// removed, for an endpoint that owns one, and nothing for an adopted one.
pub open spec fn cleanup_spec(e: Endpoint) -> Option<Seq<char>> {
    if e.adopted_spec() {
        Option::None
    } else {
        Option::Some(e.path_spec())
    }
}

impl Endpoint {
    /// The endpoint's path; the empty sequence for an adopted endpoint.
    pub closed spec fn path_spec(&self) -> Seq<char> {
        match self.ownership {
            Ownership::Owned(p) => p@,
            Ownership::Adopted => Seq::<char>::empty(),
        }
    }

    /// Whether the listening socket exists.
    pub closed spec fn bound_spec(&self) -> bool {
        self.bound
    }

    /// Whether the endpoint adopted a pre-opened descriptor rather than
    /// owning a path of its own.
    pub closed spec fn adopted_spec(&self) -> bool {
        self.ownership is Adopted
    }

    /// The permission mask of the endpoint's current policy, if any.
    pub closed spec fn mode_spec(&self) -> Option<u16> {
        self.security_attributes.mode_spec()
    }

    /// The lifecycle invariant: an endpoint that adopted a descriptor is
    /// bound from the start, and its path is the empty sentinel.
    pub open spec fn wf(&self) -> bool {
        self.adopted_spec() ==> self.bound_spec() && self.path_spec().len() == 0
    }

    /// New endpoint at the given path: default security attributes, no
    /// listening socket yet, no operating-system interaction.
    pub fn new(path: String) -> (r: Self)
        ensures
            r.path_spec() == path@,
            !r.bound_spec(),
            !r.adopted_spec(),
            r.mode_spec() is None,
            r.wf(),
    {
        Endpoint {
            ownership: Ownership::Owned(path),
            security_attributes: SecurityAttributes::empty(),
            bound: false,
        }
    }

    /// The state of an endpoint that adopted an already-open,
    /// already-listening descriptor: bound from the start, with the empty
    /// path sentinel, owning no artifact, and with default security
    /// attributes — binding and permission application are bypassed, the
    /// caller having established correct permissions out of band.
    pub fn adopted() -> (r: Self)
        ensures
            r.path_spec().len() == 0,
            r.bound_spec(),
            r.adopted_spec(),
            r.mode_spec() is None,
            r.wf(),
    {
        Endpoint {
            ownership: Ownership::Adopted,
            security_attributes: SecurityAttributes::empty(),
            bound: true,
        }
    }

    /// The path of the endpoint; empty for an adopted endpoint.
    pub fn path(&self) -> (r: &str)
        ensures
            r@ == self.path_spec(),
    {
        match &self.ownership {
            Ownership::Owned(p) => p.as_str(),
            Ownership::Adopted => {
                let r = "";
                proof {
                    reveal_strlit("");
                    assert(r@ =~= Seq::<char>::empty());
                }
                r
            },
        }
    }

    /// Whether the listening socket exists.
    pub fn is_bound(&self) -> (r: bool)
        ensures
            r == self.bound_spec(),
    {
        self.bound
    }

    /// Replace the stored security policy.  An already-bound listener is
    /// not touched: the new policy takes effect when the incoming stream is
    /// next produced, whose plan re-applies the mask.
    pub fn set_security_attributes(&mut self, security_attributes: SecurityAttributes)
        ensures
            final(self).mode_spec() == security_attributes.mode_spec(),
            final(self).path_spec() == old(self).path_spec(),
            final(self).bound_spec() == old(self).bound_spec(),
            final(self).adopted_spec() == old(self).adopted_spec(),
            old(self).wf() ==> final(self).wf(),
    {
        self.security_attributes = security_attributes;
    }

    /// What producing the incoming-connection stream must do, in order, for
    /// this endpoint: fails exactly when a permission change is planned on
    /// a path that cannot be encoded for the operating system; otherwise
    /// the plan binds exactly when no listener exists yet and then applies
    /// the current permission mask, if any.  The endpoint itself is
    /// untouched: a failed plan, like a plan whose execution fails, leaves
    /// the listening state whatever it was before.
    pub fn incoming_plan(&self) -> (r: Result<IncomingPlan, PlanError>)
        ensures
            r == incoming_spec(*self),
    {
        let mode = self.security_attributes.mode();
        if mode.is_some() && contains_nul(self.path()) {
            Err(PlanError::NulInPath)
        } else {
            Ok(IncomingPlan { bind: !self.bound, set_mode: mode })
        }
    }

    /// Absorb the runtime layer's report of executing a plan: the one
    /// transition of the lifecycle, from unbound to bound, taken exactly
    /// when every planned step succeeded.  A failed step leaves the
    /// listening state whatever it was before — unset, on a first attempt,
    /// so the endpoint stays free for a retry — everything else about the
    /// endpoint is unchanged, and a bound endpoint never becomes unbound.
    pub fn record_outcome(&mut self, outcome: PlanOutcome)
        ensures
            final(self).bound_spec() == (old(self).bound_spec() || outcome.all_ok()),
            final(self).path_spec() == old(self).path_spec(),
            final(self).mode_spec() == old(self).mode_spec(),
            final(self).adopted_spec() == old(self).adopted_spec(),
            old(self).wf() ==> final(self).wf(),
    {
        if outcome.bind_ok && outcome.chmod_ok {
            self.bound = true;
        }
    }

    /// The advisory cleanup of teardown: the path whose artifact may be
    /// removed, best-effort, once the endpoint is destroyed.  An endpoint
    /// that owns its path yields that path; an adopted endpoint yields
    /// nothing and never attempts a removal.
    pub fn cleanup_path(&self) -> (r: Option<&str>)
        ensures
            r matches Some(p) ==> cleanup_spec(*self) matches Some(q) && p@ == q,
            r is Some <==> cleanup_spec(*self) is Some,
            r is None <==> self.adopted_spec(),
    {
        match &self.ownership {
            Ownership::Owned(p) => Some(p.as_str()),
            Ownership::Adopted => None,
        }
    }
}

} // verus!
