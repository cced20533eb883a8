//! Keyboard and pointer state.
use crate::math::Vec2;
use std::collections::BTreeSet;
use vstd::prelude::*;
use vstd::string::StrSliceExecFns;

verus! {

/// Number of keys, `Key::Unknown` included.
pub const KEY_COUNT: u8 = 38;

/// A key of the keyboard: a letter, a digit, the space bar, or any other key.
#[derive(Clone, Copy, Debug, PartialEq, Eq, Structural, PartialOrd, Ord, Hash)]
pub enum Key {
    Space,
    A,
    B,
    C,
    D,
    E,
    F,
    G,
    H,
    I,
    J,
    K,
    L,
    M,
    N,
    O,
    P,
    Q,
    R,
    S,
    T,
    U,
    V,
    W,
    X,
    Y,
    Z,
    Num0,
    Num1,
    Num2,
    Num3,
    Num4,
    Num5,
    Num6,
    Num7,
    Num8,
    Num9,
    Unknown,
}

/// Position of a key in the order of the enumeration.
pub open spec fn key_code(k: Key) -> int {
    match k {
        Key::Space => 0,
        Key::A => 1,
        Key::B => 2,
        Key::C => 3,
        Key::D => 4,
        Key::E => 5,
        Key::F => 6,
        Key::G => 7,
        Key::H => 8,
        Key::I => 9,
        Key::J => 10,
        Key::K => 11,
        Key::L => 12,
        Key::M => 13,
        Key::N => 14,
        Key::O => 15,
        Key::P => 16,
        Key::Q => 17,
        Key::R => 18,
        Key::S => 19,
        Key::T => 20,
        Key::U => 21,
        Key::V => 22,
        Key::W => 23,
        Key::X => 24,
        Key::Y => 25,
        Key::Z => 26,
        Key::Num0 => 27,
        Key::Num1 => 28,
        Key::Num2 => 29,
        Key::Num3 => 30,
        Key::Num4 => 31,
        Key::Num5 => 32,
        Key::Num6 => 33,
        Key::Num7 => 34,
        Key::Num8 => 35,
        Key::Num9 => 36,
        Key::Unknown => 37,
    }
}

/// The key at position `n` of the enumeration; `Unknown` past the digits.
pub open spec fn key_from_code(n: int) -> Key {
    if n == 0 {
        Key::Space
    } else if n == 1 {
        Key::A
    } else if n == 2 {
        Key::B
    } else if n == 3 {
        Key::C
    } else if n == 4 {
        Key::D
    } else if n == 5 {
        Key::E
    } else if n == 6 {
        Key::F
    } else if n == 7 {
        Key::G
    } else if n == 8 {
        Key::H
    } else if n == 9 {
        Key::I
    } else if n == 10 {
        Key::J
    } else if n == 11 {
        Key::K
    } else if n == 12 {
        Key::L
    } else if n == 13 {
        Key::M
    } else if n == 14 {
        Key::N
    } else if n == 15 {
        Key::O
    } else if n == 16 {
        Key::P
    } else if n == 17 {
        Key::Q
    } else if n == 18 {
        Key::R
    } else if n == 19 {
        Key::S
    } else if n == 20 {
        Key::T
    } else if n == 21 {
        Key::U
    } else if n == 22 {
        Key::V
    } else if n == 23 {
        Key::W
    } else if n == 24 {
        Key::X
    } else if n == 25 {
        Key::Y
    } else if n == 26 {
        Key::Z
    } else if n == 27 {
        Key::Num0
    } else if n == 28 {
        Key::Num1
    } else if n == 29 {
        Key::Num2
    } else if n == 30 {
        Key::Num3
    } else if n == 31 {
        Key::Num4
    } else if n == 32 {
        Key::Num5
    } else if n == 33 {
        Key::Num6
    } else if n == 34 {
        Key::Num7
    } else if n == 35 {
        Key::Num8
    } else if n == 36 {
        Key::Num9
    } else {
        Key::Unknown
    }
}

/// Position of an ASCII letter in the alphabet, either case.
pub open spec fn letter_index(c: char) -> int {
    if 'a' <= c && c <= 'z' {
        c as u32 - 'a' as u32
    } else {
        c as u32 - 'A' as u32
    }
}

pub open spec fn is_ascii_letter(c: char) -> bool {
    ('a' <= c && c <= 'z') || ('A' <= c && c <= 'Z')
}

pub open spec fn is_ascii_digit(c: char) -> bool {
    '0' <= c && c <= '9'
}

/// `c` is the lower case ASCII letter `lower`, or its upper case form.
pub open spec fn folds_to(c: char, lower: char) -> bool {
    c == lower || c as u32 + 32 == lower as u32
}

/// The label is the word "space", in any mix of cases.
pub open spec fn is_space_label(s: Seq<char>) -> bool {
    &&& s.len() == 5
    &&& folds_to(s[0], 's')
    &&& folds_to(s[1], 'p')
    &&& folds_to(s[2], 'a')
    &&& folds_to(s[3], 'c')
    &&& folds_to(s[4], 'e')
}

/// The label names a letter, a digit or the space bar.
pub open spec fn is_known_label(s: Seq<char>) -> bool {
    (s.len() == 1 && (is_ascii_letter(s[0]) || is_ascii_digit(s[0]))) || is_space_label(s)
}

/// The key that a label names, ignoring case.
pub open spec fn key_of_label(s: Seq<char>) -> Key {
    if s.len() == 1 && is_ascii_letter(s[0]) {
        key_from_code(1 + letter_index(s[0]))
    } else if s.len() == 1 && is_ascii_digit(s[0]) {
        key_from_code(27 + (s[0] as u32 - '0' as u32))
    } else if is_space_label(s) {
        Key::Space
    } else {
        Key::Unknown
    }
}

/// Distinct keys have distinct positions.
pub proof fn lemma_key_code_injective(a: Key, b: Key)
    ensures
        0 <= key_code(a) < KEY_COUNT,
        key_from_code(key_code(a)) == a,
        key_code(a) == key_code(b) ==> a == b,
{
}

/// A label that names no letter, digit or space bar gives `Key::Unknown`.
pub proof fn unknown_label_gives_unknown_key(s: Seq<char>)
    requires
        !is_known_label(s),
    ensures
        key_of_label(s) == Key::Unknown,
{
}

impl Key {
    /// Position of the key in the order of the enumeration.
    pub fn code(&self) -> (r: u8)
        ensures
            r == key_code(*self),
    {
        match self {
            Key::Space => 0,
            Key::A => 1,
            Key::B => 2,
            Key::C => 3,
            Key::D => 4,
            Key::E => 5,
            Key::F => 6,
            Key::G => 7,
            Key::H => 8,
            Key::I => 9,
            Key::J => 10,
            Key::K => 11,
            Key::L => 12,
            Key::M => 13,
            Key::N => 14,
            Key::O => 15,
            Key::P => 16,
            Key::Q => 17,
            Key::R => 18,
            Key::S => 19,
            Key::T => 20,
            Key::U => 21,
            Key::V => 22,
            Key::W => 23,
            Key::X => 24,
            Key::Y => 25,
            Key::Z => 26,
            Key::Num0 => 27,
            Key::Num1 => 28,
            Key::Num2 => 29,
            Key::Num3 => 30,
            Key::Num4 => 31,
            Key::Num5 => 32,
            Key::Num6 => 33,
            Key::Num7 => 34,
            Key::Num8 => 35,
            Key::Num9 => 36,
            Key::Unknown => 37,
        }
    }

    /// The key at position `n` of the enumeration; `Unknown` past the digits.
    pub fn from_code(n: u8) -> (r: Key)
        ensures
            r == key_from_code(n as int),
    {
        match n {
            0 => Key::Space,
            1 => Key::A,
            2 => Key::B,
            3 => Key::C,
            4 => Key::D,
            5 => Key::E,
            6 => Key::F,
            7 => Key::G,
            8 => Key::H,
            9 => Key::I,
            10 => Key::J,
            11 => Key::K,
            12 => Key::L,
            13 => Key::M,
            14 => Key::N,
            15 => Key::O,
            16 => Key::P,
            17 => Key::Q,
            18 => Key::R,
            19 => Key::S,
            20 => Key::T,
            21 => Key::U,
            22 => Key::V,
            23 => Key::W,
            24 => Key::X,
            25 => Key::Y,
            26 => Key::Z,
            27 => Key::Num0,
            28 => Key::Num1,
            29 => Key::Num2,
            30 => Key::Num3,
            31 => Key::Num4,
            32 => Key::Num5,
            33 => Key::Num6,
            34 => Key::Num7,
            35 => Key::Num8,
            36 => Key::Num9,
            _ => Key::Unknown,
        }
    }

    /// The key that a raw label names: a single letter or digit, or the word
    /// "space", in any case. Every other label gives `Key::Unknown`.
    pub fn from_label(label: &str) -> (r: Key)
        ensures
            r == key_of_label(label@),
    {
        let len = label.unicode_len();
        if len == 1 {
            let c = label.get_char(0);
            if 'a' <= c && c <= 'z' {
                return Key::from_code(1 + (c as u32 - 'a' as u32) as u8);
            }
            if 'A' <= c && c <= 'Z' {
                return Key::from_code(1 + (c as u32 - 'A' as u32) as u8);
            }
            if '0' <= c && c <= '9' {
                return Key::from_code(27 + (c as u32 - '0' as u32) as u8);
            }
            Key::Unknown
        } else if len == 5 && char_folds_to(label.get_char(0), 's') && char_folds_to(
            label.get_char(1),
            'p',
        ) && char_folds_to(label.get_char(2), 'a') && char_folds_to(label.get_char(3), 'c')
            && char_folds_to(label.get_char(4), 'e') {
            Key::Space
        } else {
            Key::Unknown
        }
    }
}

fn char_folds_to(c: char, lower: char) -> (r: bool)
    requires
        'a' <= lower <= 'z',
    ensures
        r == folds_to(c, lower),
{
    c == lower || c as u32 + 32 == lower as u32
}

impl From<&str> for Key {
    fn from(label: &str) -> Key {
        Key::from_label(label)
    }
}

impl vstd::std_specs::convert::FromSpecImpl<&str> for Key {
    open spec fn obeys_from_spec() -> bool {
        true
    }

    open spec fn from_spec(label: &str) -> Key {
        key_of_label(label@)
    }
}

/// The keys that are held down, and where the pointer last was.
pub struct InputManager {
    /// Codes of the keys that are held down.
    keyboard_states: BTreeSet<u8>,
    /// Screen position of the pointer, in pixels.
    mouse_position: Vec2,
}

/// What an `InputManager` holds: the keys that are down, and the pointer.
pub struct InputState {
    pub pressed: Set<Key>,
    pub mouse_position: Vec2,
}

impl View for InputManager {
    type V = InputState;

    closed spec fn view(&self) -> InputState {
        InputState {
            pressed: Set::new(|k: Key| self.keyboard_states@.contains(key_code(k) as u8)),
            mouse_position: self.mouse_position,
        }
    }
}

impl InputManager {
    /// No key held down, pointer at the origin.
    pub fn new() -> (r: InputManager)
        ensures
            r@.pressed == Set::<Key>::empty(),
            r@.mouse_position == (Vec2 { x: 0, y: 0 }),
    {
        let r = InputManager { keyboard_states: BTreeSet::new(), mouse_position: Vec2::zeros() };
        assert(r@.pressed =~= Set::<Key>::empty());
        r
    }

    /// Marks `key` as held down.
    pub fn key_down(&mut self, key: Key)
        ensures
            final(self)@.pressed == old(self)@.pressed.insert(key),
            final(self)@.mouse_position == old(self)@.mouse_position,
    {
        broadcast use vstd::std_specs::btree::group_btree_axioms;
        broadcast use vstd::laws_cmp::group_laws_cmp;

        let ghost before = self@.pressed;
        self.keyboard_states.insert(key.code());
        proof {
            assert forall|k: Key| #[trigger] self@.pressed.contains(k) == before.insert(key).contains(k) by {
                lemma_key_code_injective(k, key);
            }
            assert(self@.pressed =~= before.insert(key));
        }
    }

    /// Marks `key` as released; nothing changes if it was not held down.
    pub fn key_up(&mut self, key: Key)
        ensures
            final(self)@.pressed == old(self)@.pressed.remove(key),
            final(self)@.mouse_position == old(self)@.mouse_position,
    {
        self.consume_key_state(key);
    }

    /// Presses or releases the key that `label` names (see `Key::from_label`).
    pub fn set_key_state(&mut self, label: &str, is_down: bool)
        ensures
            final(self)@.pressed == if is_down {
                old(self)@.pressed.insert(key_of_label(label@))
            } else {
                old(self)@.pressed.remove(key_of_label(label@))
            },
            final(self)@.mouse_position == old(self)@.mouse_position,
    {
        let key = Key::from_label(label);
        if is_down {
            self.key_down(key);
        } else {
            self.key_up(key);
        }
    }

    /// Whether `key` is held down.
    pub fn get_key_state(&self, key: Key) -> (r: bool)
        ensures
            r == self@.pressed.contains(key),
    {
        broadcast use vstd::std_specs::btree::group_btree_axioms;
        broadcast use vstd::laws_cmp::group_laws_cmp;

        self.keyboard_states.contains(&key.code())
    }

    /// Whether `key` is held down; releases it in the same step, so that a
    /// press is seen at most once.
    pub fn consume_key_state(&mut self, key: Key) -> (r: bool)
        ensures
            r == old(self)@.pressed.contains(key),
            final(self)@.pressed == old(self)@.pressed.remove(key),
            final(self)@.mouse_position == old(self)@.mouse_position,
    {
        broadcast use vstd::std_specs::btree::group_btree_axioms;
        broadcast use vstd::laws_cmp::group_laws_cmp;

        let ghost before = self@.pressed;
        let r = self.keyboard_states.remove(&key.code());
        proof {
            assert forall|k: Key| #[trigger] self@.pressed.contains(k) == before.remove(key).contains(k) by {
                lemma_key_code_injective(k, key);
            }
            assert(self@.pressed =~= before.remove(key));
        }
        r
    }

    pub fn mouse_position(&self) -> (r: Vec2)
        ensures
            r == self@.mouse_position,
    {
        self.mouse_position
    }

    /// Records the pointer position, whatever it was before.
    pub fn set_mouse_position(&mut self, x: i64, y: i64)
        ensures
            final(self)@.pressed == old(self)@.pressed,
            final(self)@.mouse_position == (Vec2 { x, y }),
    {
        self.mouse_position.x = x;
        self.mouse_position.y = y;
    }
}

impl Default for InputManager {
    fn default() -> (r: InputManager)
        ensures
            r@.pressed == Set::<Key>::empty(),
            r@.mouse_position == (Vec2 { x: 0, y: 0 }),
    {
        InputManager::new()
    }
}

/// Pressing a key leaves it held down, whatever the state before.
pub proof fn pressed_after_key_down(before: InputManager, after: InputManager, k: Key)
    requires
        after@.pressed == before@.pressed.insert(k),
    ensures
        after@.pressed.contains(k),
{
}

/// Releasing a key, or consuming its state, leaves it up, whatever the state
/// before.
pub proof fn released_after_key_up(before: InputManager, after: InputManager, k: Key)
    requires
        after@.pressed == before@.pressed.remove(k),
    ensures
        !after@.pressed.contains(k),
{
}

} // verus!
