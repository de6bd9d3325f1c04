use scene_control::camera::{camera_directive, CameraDirective, CameraKey, CameraMovement};

#[test]
fn escape_asks_the_window_to_close() {
    assert_eq!(camera_directive(CameraKey::Escape), CameraDirective::CloseWindow);
}

#[test]
fn letter_keys_drive_the_camera() {
    assert_eq!(
        camera_directive(CameraKey::W),
        CameraDirective::Move { movement: CameraMovement::Forward }
    );
    assert_eq!(
        camera_directive(CameraKey::S),
        CameraDirective::Move { movement: CameraMovement::Backward }
    );
    assert_eq!(
        camera_directive(CameraKey::A),
        CameraDirective::Move { movement: CameraMovement::Left }
    );
    assert_eq!(
        camera_directive(CameraKey::D),
        CameraDirective::Move { movement: CameraMovement::Right }
    );
}
