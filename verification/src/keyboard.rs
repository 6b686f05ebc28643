//! The sixteen-key pad and the state of a pending key wait.

use vstd::prelude::*;

verus! {

/// Number of keys on the pad.
pub const NUM_KEYS: usize = 16;

/// One key of the hexadecimal pad.
#[derive(Clone, Copy, Debug, PartialEq, Eq, Structural)]
pub enum Key {
    K0,
    K1,
    K2,
    K3,
    K4,
    K5,
    K6,
    K7,
    K8,
    K9,
    KA,
    KB,
    KC,
    KD,
    KE,
    KF,
}

impl Key {
    /// The value of the key, `0x0` to `0xF`.
    pub open spec fn spec_code(&self) -> u8 {
        match *self {
            Key::K0 => 0x0,
            Key::K1 => 0x1,
            Key::K2 => 0x2,
            Key::K3 => 0x3,
            Key::K4 => 0x4,
            Key::K5 => 0x5,
            Key::K6 => 0x6,
            Key::K7 => 0x7,
            Key::K8 => 0x8,
            Key::K9 => 0x9,
            Key::KA => 0xA,
            Key::KB => 0xB,
            Key::KC => 0xC,
            Key::KD => 0xD,
            Key::KE => 0xE,
            Key::KF => 0xF,
        }
    }

    /// The value of the key, `0x0` to `0xF`.
    #[verifier::when_used_as_spec(spec_code)]
    pub fn code(&self) -> (r: u8)
        ensures
            r == self.spec_code(),
            r < 16,
    {
        match *self {
            Key::K0 => 0x0,
            Key::K1 => 0x1,
            Key::K2 => 0x2,
            Key::K3 => 0x3,
            Key::K4 => 0x4,
            Key::K5 => 0x5,
            Key::K6 => 0x6,
            Key::K7 => 0x7,
            Key::K8 => 0x8,
            Key::K9 => 0x9,
            Key::KA => 0xA,
            Key::KB => 0xB,
            Key::KC => 0xC,
            Key::KD => 0xD,
            Key::KE => 0xE,
            Key::KF => 0xF,
        }
    }
}

/// Where a "wait for a key" instruction stands.
#[derive(Clone, Copy, Debug, PartialEq, Eq, Structural)]
pub enum KeyWait {
    /// No instruction is waiting.
    Idle,
    /// An instruction waits and no key has gone down since.
    Waiting,
    /// The key with this value went down while an instruction waited.
    Pressed(u8),
}

/// What a keyboard holds: the state of each key and the wait state.
pub struct KeyboardView {
    pub keys: Seq<bool>,
    pub wait: KeyWait,
}

impl KeyboardView {
    /// The pad after the key with value `code` was set to `pressed`: a press
    /// that meets a waiting instruction is recorded for it.
    pub open spec fn toggle(self, code: u8, pressed: bool) -> KeyboardView {
        KeyboardView {
            keys: self.keys.update(code as int, pressed),
            wait: if pressed && self.wait == KeyWait::Waiting {
                KeyWait::Pressed(code)
            } else {
                self.wait
            },
        }
    }
}

/// The key pad.
pub struct Keyboard {
    keys: [bool; 16],
    keywait: KeyWait,
}

impl View for Keyboard {
    type V = KeyboardView;

    closed spec fn view(&self) -> KeyboardView {
        KeyboardView { keys: self.keys@, wait: self.keywait }
    }
}

impl Keyboard {
    /// A pad with every key up and nothing waiting.
    pub fn new() -> (r: Keyboard)
        ensures
            r@.keys == Seq::new(16, |i: int| false),
            r@.wait == KeyWait::Idle,
    {
        let r = Keyboard { keys: [false; 16], keywait: KeyWait::Idle };
        assert(r@.keys =~= Seq::new(16, |i: int| false));
        r
    }

    /// Every pad has sixteen keys.
    pub proof fn lemma_sixteen_keys(&self)
        ensures
            self@.keys.len() == 16,
    {
    }

    /// Whether the key with value `keycode` is down.
    pub fn key_pressed(&self, keycode: u8) -> (r: bool)
        requires
            keycode < 16,
        ensures
            r == self@.keys[keycode as int],
    {
        self.keys[keycode as usize]
    }

    /// Sets a key down or up. A key that goes down while an instruction waits
    /// becomes the key that the instruction receives.
    pub fn toggle_key(&mut self, key: Key, pressed: bool)
        ensures
            final(self)@ == old(self)@.toggle(key.spec_code(), pressed),
    {
        let code: u8 = key.code();
        self.keys[code as usize] = pressed;
        if pressed && self.keywait == KeyWait::Waiting {
            self.keywait = KeyWait::Pressed(code);
        }
    }

    /// The current wait state.
    pub fn wait_state(&self) -> (r: KeyWait)
        ensures
            r == self@.wait,
    {
        self.keywait
    }

    /// Replaces the wait state and leaves the keys as they are.
    pub fn set_wait_state(&mut self, wait: KeyWait)
        ensures
            final(self)@ == (KeyboardView { keys: old(self)@.keys, wait }),
    {
        self.keywait = wait;
    }
}

impl Default for Keyboard {
    fn default() -> (r: Keyboard)
        ensures
            r@.keys == Seq::new(16, |i: int| false),
            r@.wait == KeyWait::Idle,
    {
        Keyboard::new()
    }
}

} // verus!
