use rb_game::button::{button_response, ButtonColor, ButtonState};
use rb_game::culling::{cull_targets, is_eligible, CullCandidate, EntityKind};
use rb_game::movement::{movement_steps, Axis, HeldKeys, Step};
use rb_game::pause::{initial_grab_cursor, on_pause_key, toggle_grab_cursor, toggle_pause_menu, CursorGrab};

fn no_keys() -> HeldKeys {
    HeldKeys { forward: false, back: false, right: false, left: false, up: false, down: false }
}

#[test]
fn startup_grab_locks_and_hides_cursor() {
    let mut c = CursorGrab::released();
    assert!(!c.locked && c.visible);
    let recenter = initial_grab_cursor(&mut c);
    assert!(c.locked);
    assert!(!c.visible);
    assert!(!recenter);
}

#[test]
fn releasing_cursor_asks_for_recentre() {
    let mut c = CursorGrab { locked: true, visible: false };
    let recenter = toggle_grab_cursor(&mut c);
    assert_eq!(c, CursorGrab { locked: false, visible: true });
    assert!(recenter);
}

#[test]
fn pause_menu_flips_every_root() {
    let mut menus = vec![false, true, false];
    toggle_pause_menu(&mut menus);
    assert_eq!(menus, vec![true, false, true]);
    let mut none: Vec<bool> = vec![];
    toggle_pause_menu(&mut none);
    assert!(none.is_empty());
}

#[test]
fn pause_twice_restores_state() {
    let mut c = CursorGrab { locked: true, visible: false };
    let mut menus = vec![false];
    let first = on_pause_key(true, &mut c, &mut menus);
    assert!(first);
    assert_eq!(c, CursorGrab { locked: false, visible: true });
    assert_eq!(menus, vec![true]);
    let second = on_pause_key(true, &mut c, &mut menus);
    assert!(!second);
    assert_eq!(c, CursorGrab { locked: true, visible: false });
    assert_eq!(menus, vec![false]);
}

#[test]
fn no_pause_edge_changes_nothing() {
    let mut c = CursorGrab { locked: true, visible: false };
    let mut menus = vec![false, false];
    let recenter = on_pause_key(false, &mut c, &mut menus);
    assert!(!recenter);
    assert_eq!(c, CursorGrab { locked: true, visible: false });
    assert_eq!(menus, vec![false, false]);
}

#[test]
fn button_labels_follow_interaction() {
    let idle = button_response(ButtonState::Idle);
    assert_eq!(idle.label, "Quit");
    assert_eq!(idle.color, ButtonColor::Gray);
    assert!(!idle.close_window);

    let hovered = button_response(ButtonState::Hovered);
    assert_eq!(hovered.label, "Quit");
    assert_eq!(hovered.color, ButtonColor::OrangeRed);
    assert!(!hovered.close_window);

    let pressed = button_response(ButtonState::Pressed);
    assert_eq!(pressed.label, "Quitting");
    assert_eq!(pressed.color, ButtonColor::Black);
    assert!(pressed.close_window);
}

#[test]
fn no_keys_no_movement() {
    assert!(movement_steps(&no_keys()).is_empty());
}

#[test]
fn held_keys_give_steps_in_order() {
    let keys = HeldKeys { forward: true, back: false, right: false, left: true, up: true, down: false };
    assert_eq!(
        movement_steps(&keys),
        vec![
            Step { axis: Axis::Forward, positive: true },
            Step { axis: Axis::Right, positive: false },
            Step { axis: Axis::WorldUp, positive: true },
        ]
    );
}

#[test]
fn all_keys_give_six_steps() {
    let keys = HeldKeys { forward: true, back: true, right: true, left: true, up: true, down: true };
    let steps = movement_steps(&keys);
    assert_eq!(steps.len(), 6);
    assert_eq!(steps[1], Step { axis: Axis::Forward, positive: false });
    assert_eq!(steps[5], Step { axis: Axis::WorldUp, positive: false });
}

#[test]
fn only_plain_entities_are_eligible() {
    assert!(is_eligible(EntityKind::Other));
    assert!(!is_eligible(EntityKind::Camera));
    assert!(!is_eligible(EntityKind::Light));
    assert!(!is_eligible(EntityKind::UiNode));
}

#[test]
fn culling_removes_far_eligible_entities_only() {
    let entities = vec![
        CullCandidate { kind: EntityKind::Other, beyond_range: false },
        CullCandidate { kind: EntityKind::Other, beyond_range: true },
        CullCandidate { kind: EntityKind::Light, beyond_range: true },
        CullCandidate { kind: EntityKind::UiNode, beyond_range: true },
        CullCandidate { kind: EntityKind::Camera, beyond_range: true },
        CullCandidate { kind: EntityKind::Other, beyond_range: true },
    ];
    assert_eq!(cull_targets(&entities), vec![1, 5]);
}

#[test]
fn culling_empty_world() {
    assert!(cull_targets(&vec![]).is_empty());
}
