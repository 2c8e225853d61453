use vstd::prelude::*;

verus! {

/// The two control axes, as the keys set them: `xaxis` turns the ship
/// (-1 left, 1 right, 0 straight) and `yaxis` fires the engine (1 on, 0 off).
pub struct InputState {
    pub xaxis: i8,
    pub yaxis: i8,
}

impl InputState {
    /// Whether the axes call for thrust this step.
    pub fn thrusting(&self) -> (r: bool)
        ensures
            r == (self.yaxis > 0),
    {
        self.yaxis > 0
    }
}

impl Default for InputState {
    fn default() -> (r: Self)
        ensures
            r.xaxis == 0,
            r.yaxis == 0,
    {
        InputState { xaxis: 0, yaxis: 0 }
    }
}


/// The keys the game reacts to; any other key is `Other`.
#[derive(Clone, Copy, Debug, PartialEq, Eq, Structural)]
pub enum Key {
    Up,
    K,
    Left,
    H,
    Right,
    L,
    Space,
    Escape,
    Other,
}

/// What the caller has to do after a key press, beyond taking the new controls.
#[derive(Clone, Copy, Debug, PartialEq, Eq, Structural)]
pub enum KeyAction {
    /// Nothing more.
    Nothing,
    /// Bring the ship to a standstill: both velocity components become zero.
    Stop,
    /// Save a screenshot, then leave the game.
    Quit,
}

/// The pilot's controls: the axes, and whether the engine flame shows.
pub struct Controls {
    pub input: InputState,
    pub thrust: bool,
}

/// Whether a key belongs to the engine (up arrow, or `k`).
pub open spec fn is_engine_key(key: Key) -> bool {
    key == Key::Up || key == Key::K
}

/// Whether a key turns the ship to the left (left arrow, or `h`).
pub open spec fn is_left_key(key: Key) -> bool {
    key == Key::Left || key == Key::H
}

/// Whether a key turns the ship to the right (right arrow, or `l`).
pub open spec fn is_right_key(key: Key) -> bool {
    key == Key::Right || key == Key::L
}

/// The controls after `key` goes down.
pub open spec fn pressed(c: Controls, key: Key) -> Controls {
    if is_engine_key(key) {
        Controls { input: InputState { xaxis: c.input.xaxis, yaxis: 1 }, thrust: true }
    } else if is_left_key(key) {
        Controls { input: InputState { xaxis: -1i8, yaxis: c.input.yaxis }, thrust: c.thrust }
    } else if is_right_key(key) {
        Controls { input: InputState { xaxis: 1, yaxis: c.input.yaxis }, thrust: c.thrust }
    } else {
        c
    }
}

/// What a key press asks of the caller.
pub open spec fn press_action(key: Key) -> KeyAction {
    match key {
        Key::Space => KeyAction::Stop,
        Key::Escape => KeyAction::Quit,
        _ => KeyAction::Nothing,
    }
}

/// The controls after `key` comes up.
pub open spec fn released(c: Controls, key: Key) -> Controls {
    if is_engine_key(key) {
        Controls { input: InputState { xaxis: c.input.xaxis, yaxis: 0 }, thrust: false }
    } else if is_left_key(key) || is_right_key(key) {
        Controls { input: InputState { xaxis: 0, yaxis: c.input.yaxis }, thrust: c.thrust }
    } else {
        c
    }
}

impl Controls {
    /// The axes hold one of their settings, and the flame shows exactly while
    /// the engine axis is on.
    pub open spec fn wf(self) -> bool {
        &&& -1 <= self.input.xaxis <= 1
        &&& 0 <= self.input.yaxis <= 1
        &&& self.thrust == (self.input.yaxis == 1)
    }

    /// Controls at rest: no turn, no thrust.
    pub fn new() -> (r: Controls)
        ensures
            r.wf(),
            r.input.xaxis == 0,
            r.input.yaxis == 0,
            !r.thrust,
    {
        Controls { input: InputState::default(), thrust: false }
    }

    /// Takes a key press: the engine keys start thrust, the turn keys set the
    /// turn direction, and space and escape ask the caller to stop the ship or
    /// to quit.
    pub fn key_down(&mut self, key: Key) -> (r: KeyAction)
        requires
            old(self).wf(),
        ensures
            final(self).wf(),
            *final(self) == pressed(*old(self), key),
            r == press_action(key),
    {
        match key {
            Key::Up | Key::K => {
                self.input.yaxis = 1;
                self.thrust = true;
                KeyAction::Nothing
            },
            Key::Left | Key::H => {
                self.input.xaxis = -1;
                KeyAction::Nothing
            },
            Key::Right | Key::L => {
                self.input.xaxis = 1;
                KeyAction::Nothing
            },
            Key::Space => KeyAction::Stop,
            Key::Escape => KeyAction::Quit,
            Key::Other => KeyAction::Nothing,
        }
    }

    /// Takes a key release: an engine key stops thrust, a turn key (either
    /// direction) stops the turn.
    pub fn key_up(&mut self, key: Key)
        requires
            old(self).wf(),
        ensures
            final(self).wf(),
            *final(self) == released(*old(self), key),
    {
        match key {
            Key::Up | Key::K => {
                self.input.yaxis = 0;
                self.thrust = false;
            },
            Key::Left | Key::Right | Key::L | Key::H => {
                self.input.xaxis = 0;
            },
            _ => {},
        }
    }
}

} // verus!
