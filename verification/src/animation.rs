//! How a request to play one of the scene's pre-authored animations
//! resolves to an engine-level animation command.

use vstd::prelude::*;

verus! {

/// Progress through an animation is measured in thousandths of its full
/// length, so a fraction of it can be stated without floating point.
pub const FULL_PROGRESS_PERMILLE: u32 = 1000;

/// The three pre-authored animations the scene can play on its head entity.
#[derive(Copy, Clone, Debug, PartialEq, Eq, Hash)]
pub enum AnimationId {
    Scale,
    Rotate,
    Translate,
}

/// How a deferred animation start is tied to the animation it waits on.
#[derive(Copy, Clone, Debug, PartialEq, Eq)]
pub enum DeferRelation {
    /// Start when the awaited animation has ended.
    End,
    /// Start once the awaited animation has played the given share of its
    /// full length, in thousandths.
    Start { progress_permille: u32 },
}

impl DeferRelation {
    /// A progress share never exceeds the animation's full length.
    pub open spec fn wf(self) -> bool {
        self matches DeferRelation::Start { progress_permille }
            ==> progress_permille <= FULL_PROGRESS_PERMILLE
    }
}

/// Whether an animation is asked to start at once or to wait on another.
#[derive(Copy, Clone, Debug, PartialEq, Eq)]
pub enum DeferChoice {
    Immediate,
    After { after: AnimationId, relation: DeferRelation },
}

impl DeferChoice {
    /// Any relation carried by the choice is well formed.
    pub open spec fn wf(self) -> bool {
        self matches DeferChoice::After { relation, .. } ==> relation.wf()
    }
}

/// The engine-level command that a request to play an animation resolves to.
#[derive(Copy, Clone, Debug, PartialEq, Eq)]
pub enum AnimationDirective {
    /// Pause or resume the control the entity already carries for this
    /// animation.
    Toggle { id: AnimationId },
    /// Queue the animation and start it at the given rate, in thousandths
    /// of its authored speed.
    Start { id: AnimationId, rate_permille: u32 },
    /// Queue the animation to start at the given rate once `after` reaches
    /// `relation`.
    StartDeferred {
        id: AnimationId,
        rate_permille: u32,
        after: AnimationId,
        relation: DeferRelation,
    },
}

/// Resolves a request to play an animation into the one engine command the
/// scene issues for it.
///
/// A deferred request always becomes a deferred start. An immediate request
/// becomes a toggle exactly when the caller asked for toggling and the
/// entity already carries a control for this animation; otherwise it
/// becomes a fresh start.
pub fn animation_directive(
    id: AnimationId,
    rate_permille: u32,
    defer: DeferChoice,
    toggle_if_exists: bool,
    has_animation: bool,
) -> (d: AnimationDirective)
    ensures
        defer matches DeferChoice::After { after, relation } ==> d
            == (AnimationDirective::StartDeferred { id, rate_permille, after, relation }),
        defer is Immediate && toggle_if_exists && has_animation ==> d
            == (AnimationDirective::Toggle { id }),
        defer is Immediate && !(toggle_if_exists && has_animation) ==> d
            == (AnimationDirective::Start { id, rate_permille }),
{
    match defer {
        DeferChoice::Immediate => {
            if toggle_if_exists && has_animation {
                AnimationDirective::Toggle { id }
            } else {
                AnimationDirective::Start { id, rate_permille }
            }
        },
        DeferChoice::After { after, relation } => {
            AnimationDirective::StartDeferred { id, rate_permille, after, relation }
        },
    }
}

} // verus!
