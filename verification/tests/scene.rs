use scene_control::animation::{AnimationId, DeferChoice, DeferRelation};
use scene_control::scene::{
    fps_refresh_due, SceneAction, SceneControl, SceneEvent, SceneKey, StepDirection, Transition,
    DEFAULT_RATE_PERMILLE, SCALE_DEFER_PROGRESS_PERMILLE,
};

#[test]
fn fresh_scene_rotates_at_authored_speed() {
    let s = SceneControl::default();
    assert_eq!(s.current_animation, AnimationId::Rotate);
    assert_eq!(s.rate_permille, DEFAULT_RATE_PERMILLE);
}

#[test]
fn close_request_quits_with_nothing_to_do() {
    let s = SceneControl::default();
    let (t, actions) = s.handle_event(SceneEvent::CloseRequested);
    assert_eq!(t, Transition::Quit);
    assert!(actions.is_empty());
}

#[test]
fn escape_quits_with_nothing_to_do() {
    let s = SceneControl::default();
    let (t, actions) = s.handle_event(SceneEvent::KeyPressed { key: SceneKey::Escape });
    assert_eq!(t, Transition::Quit);
    assert!(actions.is_empty());
}

#[test]
fn space_asks_to_toggle_or_start_the_current_animation() {
    let s = SceneControl { current_animation: AnimationId::Scale, rate_permille: 750 };
    let (t, actions) = s.handle_event(SceneEvent::KeyPressed { key: SceneKey::Space });
    assert_eq!(t, Transition::Stay);
    assert_eq!(
        actions,
        vec![SceneAction::Animate {
            id: AnimationId::Scale,
            rate_permille: 750,
            defer: DeferChoice::Immediate,
            toggle_if_exists: true,
        }]
    );
}

#[test]
fn d_asks_for_the_authored_deferred_sequence() {
    let s = SceneControl::default();
    let (t, actions) = s.handle_event(SceneEvent::KeyPressed { key: SceneKey::D });
    assert_eq!(t, Transition::Stay);
    assert_eq!(
        actions,
        vec![
            SceneAction::Animate {
                id: AnimationId::Translate,
                rate_permille: DEFAULT_RATE_PERMILLE,
                defer: DeferChoice::Immediate,
                toggle_if_exists: false,
            },
            SceneAction::Animate {
                id: AnimationId::Rotate,
                rate_permille: DEFAULT_RATE_PERMILLE,
                defer: DeferChoice::After {
                    after: AnimationId::Translate,
                    relation: DeferRelation::End,
                },
                toggle_if_exists: false,
            },
            SceneAction::Animate {
                id: AnimationId::Scale,
                rate_permille: DEFAULT_RATE_PERMILLE,
                defer: DeferChoice::After {
                    after: AnimationId::Rotate,
                    relation: DeferRelation::Start {
                        progress_permille: SCALE_DEFER_PROGRESS_PERMILLE,
                    },
                },
                toggle_if_exists: false,
            },
        ]
    );
}

#[test]
fn f_asks_to_print_the_head_entity() {
    let s = SceneControl::default();
    let (t, actions) = s.handle_event(SceneEvent::KeyPressed { key: SceneKey::F });
    assert_eq!(t, Transition::Stay);
    assert_eq!(actions, vec![SceneAction::PrintHead]);
}

#[test]
fn arrow_keys_step_the_current_animation() {
    let s = SceneControl::default();
    let (t, left) = s.handle_event(SceneEvent::KeyPressed { key: SceneKey::Left });
    assert_eq!(t, Transition::Stay);
    assert_eq!(
        left,
        vec![SceneAction::Step { id: AnimationId::Rotate, direction: StepDirection::Backward }]
    );
    let (t, right) = s.handle_event(SceneEvent::KeyPressed { key: SceneKey::Right });
    assert_eq!(t, Transition::Stay);
    assert_eq!(
        right,
        vec![SceneAction::Step { id: AnimationId::Rotate, direction: StepDirection::Forward }]
    );
}

#[test]
fn other_keys_releases_and_plain_window_events_do_nothing() {
    let s = SceneControl::default();
    for event in [
        SceneEvent::KeyPressed { key: SceneKey::Other },
        SceneEvent::KeyReleased { key: SceneKey::Escape },
        SceneEvent::KeyReleased { key: SceneKey::Space },
        SceneEvent::OtherWindow,
    ] {
        let (t, actions) = s.handle_event(event);
        assert_eq!(t, Transition::Stay);
        assert!(actions.is_empty());
    }
}

#[test]
fn ui_interaction_is_logged_and_the_scene_stays() {
    let s = SceneControl::default();
    let (t, actions) = s.handle_event(SceneEvent::Ui);
    assert_eq!(t, Transition::Stay);
    assert_eq!(actions, vec![SceneAction::LogUi]);
}

#[test]
fn fps_readout_refreshes_every_twentieth_frame() {
    assert!(fps_refresh_due(0));
    assert!(fps_refresh_due(20));
    assert!(fps_refresh_due(40));
    assert!(!fps_refresh_due(1));
    assert!(!fps_refresh_due(7));
    assert!(!fps_refresh_due(19));
    assert!(!fps_refresh_due(21));
}
