//! The ordered plan of operating-system calls behind producing the stream
//! of incoming connections.
//!
//! Producing the stream may require two filesystem-visible steps: creating
//! the listening socket (which makes the artifact appear at the endpoint's
//! path) and changing the artifact's permission bits.  Their order is the
//! security-critical part of the whole design: tightening permissions before
//! the artifact exists does nothing, and creating the artifact without then
//! tightening it leaves it world-accessible under the filesystem's defaults.
//! An [`IncomingPlan`] fixes that order by construction, and its
//! [`IncomingPlan::actions`] view states it explicitly.

use vstd::prelude::*;

verus! {

/// One filesystem-visible step of an [`IncomingPlan`].
#[derive(Clone, Copy, Debug, PartialEq, Eq)]
pub enum PlanAction {
    /// Bind the listening socket at the endpoint's path, creating the
    /// artifact with the operating system's default permission bits.
    Bind,
    /// Change the permission bits of the artifact at the endpoint's path
    /// to the given mask.
    Chmod(u16),
}

/// What producing the incoming-connection stream must do, in order: first
/// bind the listener if none exists yet, then apply the configured
/// permission mask, if any, to the artifact.
#[derive(Clone, Copy, Debug, PartialEq, Eq)]
pub struct IncomingPlan {
    /// Whether the listening socket must be created first.  This is the
    /// only step that makes the artifact appear in the filesystem.
    pub bind: bool,
    /// The permission mask to apply to the artifact afterwards, if the
    /// endpoint's policy sets one.
    pub set_mode: Option<u16>,
}

/// The runtime layer's report of executing one [`IncomingPlan`]: whether
/// each step succeeded, a step that was not planned counting as trivially
/// successful.
#[derive(Clone, Copy, Debug, PartialEq, Eq)]
pub struct PlanOutcome {
    /// Whether the bind step succeeded, or no bind was planned.
    pub bind_ok: bool,
    /// Whether the permission-change step succeeded, or none was planned.
    pub chmod_ok: bool,
}

impl PlanOutcome {
    /// Whether every planned step ran successfully.
    pub open spec fn all_ok(self) -> bool {
        self.bind_ok && self.chmod_ok
    }
}

impl IncomingPlan {
    /// The plan as the exact sequence of steps to execute, in execution
    /// order: a bind, if one is needed, always precedes a permission change.
    pub open spec fn actions(self) -> Seq<PlanAction> {
        let bind_part = if self.bind {
            seq![PlanAction::Bind]
        } else {
            Seq::<PlanAction>::empty()
        };
        let chmod_part = match self.set_mode {
            Option::Some(m) => seq![PlanAction::Chmod(m)],
            Option::None => Seq::<PlanAction>::empty(),
        };
        bind_part + chmod_part
    }
}

/// Every bind in a plan comes before every permission change: the artifact
/// is created first and its access policy tightened second, never the other
/// way around.
pub proof fn lemma_bind_before_chmod(p: IncomingPlan)
    ensures
        forall|i: int, j: int|
            0 <= i < p.actions().len() && 0 <= j < p.actions().len()
                && p.actions()[i] is Bind && p.actions()[j] is Chmod ==> i < j,
{
    assert forall|i: int, j: int|
        0 <= i < p.actions().len() && 0 <= j < p.actions().len()
            && p.actions()[i] is Bind && p.actions()[j] is Chmod implies i < j by {
        assert(p.actions()[i] == PlanAction::Bind ==> p.bind && i == 0);
        assert(p.actions()[j] is Chmod ==> j == p.actions().len() - 1);
    }
}

} // verus!
