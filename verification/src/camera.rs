//! Which camera action each polled key of the free-look walkthrough asks
//! for. The walkthrough's mouse handling is floating-point vector math and
//! stays with the window shell; the key-to-action rule is decided here.

use vstd::prelude::*;

verus! {

/// The keys the walkthrough polls every frame.
#[derive(Copy, Clone, Debug, PartialEq, Eq)]
pub enum CameraKey {
    W,
    A,
    S,
    D,
    Escape,
}

/// The four directions the free-look camera can be driven in.
#[derive(Copy, Clone, Debug, PartialEq, Eq)]
pub enum CameraMovement {
    Forward,
    Backward,
    Left,
    Right,
}

/// What a pressed key asks of the window shell.
#[derive(Copy, Clone, Debug, PartialEq, Eq)]
pub enum CameraDirective {
    /// Ask the window to close.
    CloseWindow,
    /// Drive the camera in the given direction for the elapsed frame time.
    Move { movement: CameraMovement },
}

/// The action a pressed key asks for: escape closes the window, and the
/// four letter keys drive the camera forward, left, backward and right.
pub fn camera_directive(key: CameraKey) -> (d: CameraDirective)
    ensures
        key is Escape <==> d is CloseWindow,
        key is W ==> d == (CameraDirective::Move { movement: CameraMovement::Forward }),
        key is S ==> d == (CameraDirective::Move { movement: CameraMovement::Backward }),
        key is A ==> d == (CameraDirective::Move { movement: CameraMovement::Left }),
        key is D ==> d == (CameraDirective::Move { movement: CameraMovement::Right }),
{
    match key {
        CameraKey::Escape => CameraDirective::CloseWindow,
        CameraKey::W => CameraDirective::Move { movement: CameraMovement::Forward },
        CameraKey::S => CameraDirective::Move { movement: CameraMovement::Backward },
        CameraKey::A => CameraDirective::Move { movement: CameraMovement::Left },
        CameraKey::D => CameraDirective::Move { movement: CameraMovement::Right },
    }
}

} // verus!
