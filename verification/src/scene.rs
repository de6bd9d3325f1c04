//! The demo scene's reaction to window and UI events: which animation
//! requests, steps and prints each key press asks for, whether the scene
//! quits, and when the FPS readout is due for a refresh.

use crate::animation::{AnimationId, DeferChoice, DeferRelation};
use vstd::prelude::*;

verus! {

/// The authored playback rate, in thousandths of the animations' own speed.
pub const DEFAULT_RATE_PERMILLE: u32 = 1000;

/// The share of the rotation after which the deferred scaling starts, in
/// thousandths of the rotation's full length.
pub const SCALE_DEFER_PROGRESS_PERMILLE: u32 = 666;

/// The FPS readout is refreshed once every this many frames.
pub const FPS_REFRESH_INTERVAL: u64 = 20;

/// The keys the scene reacts to; any other key is `Other`.
#[derive(Copy, Clone, Debug, PartialEq, Eq)]
pub enum SceneKey {
    Escape,
    Space,
    D,
    F,
    Left,
    Right,
    Other,
}

/// A window or UI event, reduced to what the scene's rules read of it.
#[derive(Copy, Clone, Debug, PartialEq, Eq)]
pub enum SceneEvent {
    /// The window was asked to close.
    CloseRequested,
    /// A key went down.
    KeyPressed { key: SceneKey },
    /// A key came up.
    KeyReleased { key: SceneKey },
    /// A window event that carries no key at all.
    OtherWindow,
    /// The user interacted with a UI element.
    Ui,
}

/// Whether the scene keeps running or quits.
#[derive(Copy, Clone, Debug, PartialEq, Eq)]
pub enum Transition {
    Stay,
    Quit,
}

/// The direction in which an animation is stepped to its next keyframe.
#[derive(Copy, Clone, Debug, PartialEq, Eq)]
pub enum StepDirection {
    Forward,
    Backward,
}

/// One action the scene asks its engine shell to carry out on the head
/// entity.
#[derive(Copy, Clone, Debug, PartialEq, Eq)]
pub enum SceneAction {
    /// Ask to play an animation; the shell resolves the request against
    /// the entity's current controls (see `animation_directive`).
    Animate { id: AnimationId, rate_permille: u32, defer: DeferChoice, toggle_if_exists: bool },
    /// Print the head entity's handle.
    PrintHead,
    /// Step an animation one keyframe in the given direction.
    Step { id: AnimationId, direction: StepDirection },
    /// Log the UI interaction.
    LogUi,
}

impl SceneAction {
    /// Any deferral carried by the action is well formed.
    pub open spec fn wf(self) -> bool {
        self matches SceneAction::Animate { defer, .. } ==> defer.wf()
    }
}

/// The scene's own state: which animation the direct keys act on, and at
/// what rate animations are started.
#[derive(Copy, Clone, Debug, PartialEq, Eq)]
pub struct SceneControl {
    /// The animation that the space bar and the step keys act on.
    pub current_animation: AnimationId,
    /// The rate animations are started at, in thousandths of their
    /// authored speed.
    pub rate_permille: u32,
}

impl Default for SceneControl {
    /// A fresh scene acts on the rotation and plays at the authored speed.
    fn default() -> (s: Self)
        ensures
            s.current_animation is Rotate,
            s.rate_permille == DEFAULT_RATE_PERMILLE,
    {
        SceneControl { current_animation: AnimationId::Rotate, rate_permille: DEFAULT_RATE_PERMILLE }
    }
}

impl SceneControl {
    /// The scene's whole reaction to one event.
    ///
    /// A close request and the escape key quit the scene and ask nothing
    /// else. The space bar asks to play the current animation, toggling it
    /// if the entity already carries it. The `D` key asks for the authored
    /// sequence: a translation, a rotation deferred to the translation's
    /// end, and a scaling deferred to two thirds of the rotation. `F`
    /// prints the head entity; the arrow keys step the current animation;
    /// a UI interaction is logged; every other event asks for nothing.
    pub fn handle_event(&self, event: SceneEvent) -> (r: (Transition, Vec<SceneAction>))
        ensures
            r.0 is Quit <==> (event is CloseRequested || event == (SceneEvent::KeyPressed {
                key: SceneKey::Escape,
            })),
            (event is CloseRequested || event == (SceneEvent::KeyPressed { key: SceneKey::Escape }))
                ==> r.1@ == Seq::<SceneAction>::empty(),
            event == (SceneEvent::KeyPressed { key: SceneKey::Space }) ==> r.1@ == seq![
                (SceneAction::Animate {
                    id: self.current_animation,
                    rate_permille: self.rate_permille,
                    defer: DeferChoice::Immediate,
                    toggle_if_exists: true,
                }),
            ],
            event == (SceneEvent::KeyPressed { key: SceneKey::D }) ==> r.1@ == seq![
                (SceneAction::Animate {
                    id: AnimationId::Translate,
                    rate_permille: self.rate_permille,
                    defer: DeferChoice::Immediate,
                    toggle_if_exists: false,
                }),
                (SceneAction::Animate {
                    id: AnimationId::Rotate,
                    rate_permille: self.rate_permille,
                    defer: (DeferChoice::After {
                        after: AnimationId::Translate,
                        relation: DeferRelation::End,
                    }),
                    toggle_if_exists: false,
                }),
                (SceneAction::Animate {
                    id: AnimationId::Scale,
                    rate_permille: self.rate_permille,
                    defer: (DeferChoice::After {
                        after: AnimationId::Rotate,
                        relation: (DeferRelation::Start {
                            progress_permille: SCALE_DEFER_PROGRESS_PERMILLE,
                        }),
                    }),
                    toggle_if_exists: false,
                }),
            ],
            event == (SceneEvent::KeyPressed { key: SceneKey::F }) ==> r.1@ == seq![
                SceneAction::PrintHead,
            ],
            event == (SceneEvent::KeyPressed { key: SceneKey::Left }) ==> r.1@ == seq![
                (SceneAction::Step {
                    id: self.current_animation,
                    direction: StepDirection::Backward,
                }),
            ],
            event == (SceneEvent::KeyPressed { key: SceneKey::Right }) ==> r.1@ == seq![
                (SceneAction::Step {
                    id: self.current_animation,
                    direction: StepDirection::Forward,
                }),
            ],
            (event == (SceneEvent::KeyPressed { key: SceneKey::Other }) || event is KeyReleased
                || event is OtherWindow) ==> r.1@ == Seq::<SceneAction>::empty(),
            event is Ui ==> r.1@ == seq![SceneAction::LogUi],
            forall|i: int| 0 <= i < r.1@.len() ==> #[trigger] r.1@[i].wf(),
    {
        let mut actions: Vec<SceneAction> = Vec::new();
        let transition: Transition;
        match event {
            SceneEvent::CloseRequested => {
                transition = Transition::Quit;
            },
            SceneEvent::KeyPressed { key } => {
                match key {
                    SceneKey::Escape => {
                        transition = Transition::Quit;
                        return (transition, actions);
                    },
                    SceneKey::Space => {
                        actions.push(
                            SceneAction::Animate {
                                id: self.current_animation,
                                rate_permille: self.rate_permille,
                                defer: DeferChoice::Immediate,
                                toggle_if_exists: true,
                            },
                        );
                    },
                    SceneKey::D => {
                        actions.push(
                            SceneAction::Animate {
                                id: AnimationId::Translate,
                                rate_permille: self.rate_permille,
                                defer: DeferChoice::Immediate,
                                toggle_if_exists: false,
                            },
                        );
                        actions.push(
                            SceneAction::Animate {
                                id: AnimationId::Rotate,
                                rate_permille: self.rate_permille,
                                defer: DeferChoice::After {
                                    after: AnimationId::Translate,
                                    relation: DeferRelation::End,
                                },
                                toggle_if_exists: false,
                            },
                        );
                        actions.push(
                            SceneAction::Animate {
                                id: AnimationId::Scale,
                                rate_permille: self.rate_permille,
                                defer: DeferChoice::After {
                                    after: AnimationId::Rotate,
                                    relation: DeferRelation::Start {
                                        progress_permille: SCALE_DEFER_PROGRESS_PERMILLE,
                                    },
                                },
                                toggle_if_exists: false,
                            },
                        );
                    },
                    SceneKey::F => {
                        actions.push(SceneAction::PrintHead);
                    },
                    SceneKey::Left => {
                        actions.push(
                            SceneAction::Step {
                                id: self.current_animation,
                                direction: StepDirection::Backward,
                            },
                        );
                    },
                    SceneKey::Right => {
                        actions.push(
                            SceneAction::Step {
                                id: self.current_animation,
                                direction: StepDirection::Forward,
                            },
                        );
                    },
                    SceneKey::Other => {},
                }
                transition = Transition::Stay;
            },
            SceneEvent::KeyReleased { .. } => {
                transition = Transition::Stay;
            },
            SceneEvent::OtherWindow => {
                transition = Transition::Stay;
            },
            SceneEvent::Ui => {
                actions.push(SceneAction::LogUi);
                transition = Transition::Stay;
            },
        }
        (transition, actions)
    }
}

/// Whether the FPS readout is refreshed on this frame: once every
/// `FPS_REFRESH_INTERVAL` frames, counting from frame zero.
pub fn fps_refresh_due(frame_number: u64) -> (due: bool)
    ensures
        due == (frame_number % FPS_REFRESH_INTERVAL == 0),
{
    frame_number % FPS_REFRESH_INTERVAL == 0
}

} // verus!
