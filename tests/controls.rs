use lander::input::{Controls, InputState, Key, KeyAction};

#[test]
fn controls_start_at_rest() {
    let c = Controls::new();
    assert_eq!(c.input.xaxis, 0);
    assert_eq!(c.input.yaxis, 0);
    assert!(!c.thrust);
    assert!(!c.input.thrusting());
}

#[test]
fn default_input_is_neutral() {
    let i = InputState::default();
    assert_eq!(i.xaxis, 0);
    assert_eq!(i.yaxis, 0);
}

#[test]
fn engine_keys_start_and_stop_thrust() {
    for key in [Key::Up, Key::K] {
        let mut c = Controls::new();
        assert_eq!(c.key_down(key), KeyAction::Nothing);
        assert_eq!(c.input.yaxis, 1);
        assert!(c.thrust);
        assert!(c.input.thrusting());
        c.key_up(key);
        assert_eq!(c.input.yaxis, 0);
        assert!(!c.thrust);
        assert!(!c.input.thrusting());
    }
}

#[test]
fn turn_keys_set_direction() {
    let mut c = Controls::new();
    assert_eq!(c.key_down(Key::Left), KeyAction::Nothing);
    assert_eq!(c.input.xaxis, -1);
    assert_eq!(c.key_down(Key::L), KeyAction::Nothing);
    assert_eq!(c.input.xaxis, 1);
    assert_eq!(c.key_down(Key::H), KeyAction::Nothing);
    assert_eq!(c.input.xaxis, -1);
    assert_eq!(c.key_down(Key::Right), KeyAction::Nothing);
    assert_eq!(c.input.xaxis, 1);
    assert!(!c.thrust);
}

#[test]
fn releasing_any_turn_key_stops_turning() {
    for key in [Key::Left, Key::H, Key::Right, Key::L] {
        let mut c = Controls::new();
        c.key_down(Key::Left);
        c.key_down(Key::Up);
        c.key_up(key);
        assert_eq!(c.input.xaxis, 0);
        assert_eq!(c.input.yaxis, 1);
        assert!(c.thrust);
    }
}

#[test]
fn turning_and_thrust_are_independent() {
    let mut c = Controls::new();
    c.key_down(Key::Right);
    c.key_down(Key::K);
    c.key_up(Key::K);
    assert_eq!(c.input.xaxis, 1);
    assert_eq!(c.input.yaxis, 0);
    assert!(!c.thrust);
}

#[test]
fn space_asks_to_stop() {
    let mut c = Controls::new();
    c.key_down(Key::Up);
    assert_eq!(c.key_down(Key::Space), KeyAction::Stop);
    assert_eq!(c.input.yaxis, 1);
    assert!(c.thrust);
}

#[test]
fn escape_asks_to_quit() {
    let mut c = Controls::new();
    assert_eq!(c.key_down(Key::Escape), KeyAction::Quit);
    assert_eq!(c.input.xaxis, 0);
    assert_eq!(c.input.yaxis, 0);
}

#[test]
fn other_keys_change_nothing() {
    let mut c = Controls::new();
    c.key_down(Key::Left);
    c.key_down(Key::Up);
    assert_eq!(c.key_down(Key::Other), KeyAction::Nothing);
    c.key_up(Key::Other);
    c.key_up(Key::Space);
    c.key_up(Key::Escape);
    assert_eq!(c.input.xaxis, -1);
    assert_eq!(c.input.yaxis, 1);
    assert!(c.thrust);
}
