use quillspeak::hotkey::{HotkeyStateMachine, HotkeyTransition, KeyRequirement, KeyTransition};

const LEFT_CTRL: u16 = 29;
const RIGHT_CTRL: u16 = 97;
const SPACE: u16 = 57;
const A: u16 = 30;

fn ctrl_space_machine() -> HotkeyStateMachine<u16> {
    HotkeyStateMachine::new(vec![
        KeyRequirement::any([LEFT_CTRL, RIGHT_CTRL]),
        KeyRequirement::any([SPACE]),
    ])
}

#[test]
fn starts_only_when_all_required_keys_are_down() {
    let mut machine = ctrl_space_machine();

    assert_eq!(
        machine.handle_key(LEFT_CTRL, KeyTransition::Pressed),
        HotkeyTransition::Unchanged
    );
    assert_eq!(
        machine.handle_key(SPACE, KeyTransition::Pressed),
        HotkeyTransition::HotkeyDown
    );
}

#[test]
fn stops_when_any_required_key_is_released() {
    let mut machine = ctrl_space_machine();
    machine.handle_key(LEFT_CTRL, KeyTransition::Pressed);
    machine.handle_key(SPACE, KeyTransition::Pressed);

    assert_eq!(
        machine.handle_key(LEFT_CTRL, KeyTransition::Released),
        HotkeyTransition::HotkeyUp
    );
}

#[test]
fn ignores_repeats_and_unrelated_keys() {
    let mut machine = ctrl_space_machine();
    machine.handle_key(LEFT_CTRL, KeyTransition::Pressed);
    machine.handle_key(SPACE, KeyTransition::Pressed);

    assert_eq!(
        machine.handle_key(SPACE, KeyTransition::Repeat),
        HotkeyTransition::Unchanged
    );
    assert_eq!(
        machine.handle_key(A, KeyTransition::Pressed),
        HotkeyTransition::Unchanged
    );
}

#[test]
fn accepts_left_or_right_modifier_aliases() {
    let mut machine = ctrl_space_machine();

    machine.handle_key(RIGHT_CTRL, KeyTransition::Pressed);
    assert_eq!(
        machine.handle_key(SPACE, KeyTransition::Pressed),
        HotkeyTransition::HotkeyDown
    );
}

#[test]
fn reset_releases_active_hotkey() {
    let mut machine = ctrl_space_machine();
    machine.handle_key(LEFT_CTRL, KeyTransition::Pressed);
    machine.handle_key(SPACE, KeyTransition::Pressed);

    assert_eq!(machine.reset(), HotkeyTransition::HotkeyUp);
    assert_eq!(machine.reset(), HotkeyTransition::Unchanged);
}

#[test]
fn chord_stays_down_while_one_alias_is_still_held() {
    let mut machine = ctrl_space_machine();
    machine.handle_key(LEFT_CTRL, KeyTransition::Pressed);
    machine.handle_key(RIGHT_CTRL, KeyTransition::Pressed);
    assert_eq!(machine.handle_key(SPACE, KeyTransition::Pressed), HotkeyTransition::HotkeyDown);

    assert_eq!(machine.handle_key(LEFT_CTRL, KeyTransition::Released), HotkeyTransition::Unchanged);
    assert_eq!(machine.handle_key(RIGHT_CTRL, KeyTransition::Released), HotkeyTransition::HotkeyUp);
    assert_eq!(machine.handle_key(RIGHT_CTRL, KeyTransition::Released), HotkeyTransition::Unchanged);
}

#[test]
fn watched_keys_hold_each_alternative_once() {
    let machine = HotkeyStateMachine::new(vec![
        KeyRequirement::any([LEFT_CTRL, RIGHT_CTRL]),
        KeyRequirement::any([SPACE, LEFT_CTRL]),
    ]);
    let keys = machine.watched_keys();

    assert_eq!(keys.len(), 3);
    assert!(keys.contains(&LEFT_CTRL));
    assert!(keys.contains(&RIGHT_CTRL));
    assert!(keys.contains(&SPACE));
}

#[test]
fn chord_without_requirements_never_fires() {
    let mut machine: HotkeyStateMachine<u16> = HotkeyStateMachine::new(Vec::new());

    assert_eq!(machine.handle_key(SPACE, KeyTransition::Pressed), HotkeyTransition::Unchanged);
    assert_eq!(machine.reset(), HotkeyTransition::Unchanged);
}
