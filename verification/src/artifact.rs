//! A model of the filesystem artifact at an endpoint's path.
//!
//! The artifact is the directory entry the operating system creates when the
//! listening socket is bound.  This module says what each step of an
//! [`IncomingPlan`](crate::plan::IncomingPlan) does to it when the step
//! succeeds: a bind makes the artifact exist with the filesystem's default
//! permission bits, a permission change replaces the bits of an existing
//! artifact, and an unlink on teardown removes it.  The laws of the endpoint
//! lifecycle are stated over this model.

use vstd::prelude::*;
use crate::plan::IncomingPlan;
use crate::plan::PlanAction;

verus! {

/// The state of the directory entry at an endpoint's path: whether it
/// exists, and with which permission bits.  The bits are meaningful only
/// while the artifact exists.
#[derive(Clone, Copy, Debug, PartialEq, Eq)]
pub struct Artifact {
    /// Whether a directory entry is present at the path.
    pub exists: bool,
    /// The permission bits of the entry, in the owner/group/other octal
    /// encoding.
    pub mode: u16,
}

/// The artifact after one successful plan step on a filesystem whose
/// default permission bits are `os_default`: a bind creates the artifact
/// with the default bits, a permission change replaces the bits of an
/// existing artifact and does nothing to an absent one.
pub open spec fn apply_action(a: Artifact, act: PlanAction, os_default: u16) -> Artifact {
    match act {
        PlanAction::Bind => Artifact { exists: true, mode: os_default },
        PlanAction::Chmod(m) => if a.exists {
            Artifact { exists: true, mode: m }
        } else {
            a
        },
    }
}

/// The artifact after a sequence of successful plan steps, applied in order.
pub open spec fn apply_actions(a: Artifact, steps: Seq<PlanAction>, os_default: u16) -> Artifact
    decreases steps.len(),
{
    if steps.len() == 0 {
        a
    } else {
        apply_actions(apply_action(a, steps[0], os_default), steps.drop_first(), os_default)
    }
}

/// The artifact after a whole plan ran successfully, stated directly over
/// the plan's two fields: the bind first, the permission change second.
pub open spec fn run_plan(a: Artifact, p: IncomingPlan, os_default: u16) -> Artifact {
    let after_bind = if p.bind {
        Artifact { exists: true, mode: os_default }
    } else {
        a
    };
    match p.set_mode {
        Option::Some(m) => if after_bind.exists {
            Artifact { exists: true, mode: m }
        } else {
            after_bind
        },
        Option::None => after_bind,
    }
}

/// Running a plan is exactly folding its action sequence over the artifact,
/// in order.
pub proof fn lemma_run_plan_is_action_fold(a: Artifact, p: IncomingPlan, os_default: u16)
    ensures
        run_plan(a, p, os_default) == apply_actions(a, p.actions(), os_default),
{
    reveal_with_fuel(apply_actions, 4);
    let steps = p.actions();
    if p.bind {
        match p.set_mode {
            Option::Some(m) => {
                assert(steps.drop_first() =~= seq![PlanAction::Chmod(m)]);
                assert(steps.drop_first().drop_first() =~= Seq::<PlanAction>::empty());
            },
            Option::None => {
                assert(steps.drop_first() =~= Seq::<PlanAction>::empty());
            },
        }
    } else {
        match p.set_mode {
            Option::Some(m) => {
                assert(steps =~= seq![PlanAction::Chmod(m)]);
                assert(steps.drop_first() =~= Seq::<PlanAction>::empty());
            },
            Option::None => {
                assert(steps =~= Seq::<PlanAction>::empty());
            },
        }
    }
}

/// The artifact after the advisory unlink of endpoint teardown: removed
/// where a path was to be cleaned up, untouched where none was.
pub open spec fn run_cleanup(a: Artifact, cleanup: Option<Seq<char>>) -> Artifact {
    match cleanup {
        Option::Some(_) => Artifact { exists: false, mode: a.mode },
        Option::None => a,
    }
}

impl Artifact {
    /// The artifact after the given plan ran successfully against this one,
    /// on a filesystem whose default permission bits are `os_default`.
    pub fn apply_plan(&self, p: &IncomingPlan, os_default: u16) -> (r: Artifact)
        ensures
            r == run_plan(*self, *p, os_default),
            r == apply_actions(*self, p.actions(), os_default),
    {
        proof {
            lemma_run_plan_is_action_fold(*self, *p, os_default);
        }
        let mut cur = *self;
        if p.bind {
            cur = Artifact { exists: true, mode: os_default };
        }
        match p.set_mode {
            Option::Some(m) => {
                if cur.exists {
                    cur = Artifact { exists: true, mode: m };
                }
            },
            Option::None => {},
        }
        cur
    }

    /// The artifact after a successful unlink of the entry at its path.
    pub fn unlinked(&self) -> (r: Artifact)
        ensures
            !r.exists,
            r.mode == self.mode,
    {
        Artifact { exists: false, mode: self.mode }
    }
}

} // verus!
