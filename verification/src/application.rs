use vstd::prelude::*;
use crate::emulator::DEFAULT_INSTRUCTIONS_PER_SECOND;
use crate::keys::{Key, KeySet};
use crate::settings::InstructionSettings;

verus! {

/// A key of the keyboard: a digit or a letter.
#[derive(Debug, Copy, Clone, PartialEq, Eq, Hash, Structural)]
pub enum PhysicalKey {
    Num0,
    Num1,
    Num2,
    Num3,
    Num4,
    Num5,
    Num6,
    Num7,
    Num8,
    Num9,
    A,
    B,
    C,
    D,
    E,
    F,
    G,
    H,
    I,
    J,
    K,
    L,
    M,
    N,
    O,
    P,
    Q,
    R,
    S,
    T,
    U,
    V,
    W,
    X,
    Y,
    Z,
}

/// The built-in ways to lay the keypad out on a keyboard.
#[derive(Debug, Copy, Clone, PartialEq, Eq, Structural)]
pub enum KeyMapType {
    /// The keypad on the block 1234 / QWER / ASDF / ZXCV.
    CommonQWERTY,
    /// The keypad on the block 1234 / QWER / ASDF / YXCV.
    CommonQWERTZ,
    /// Each keypad key on the keyboard key that shows its digit.
    Literal,
}

impl Default for KeyMapType {
    fn default() -> (kind: KeyMapType)
        ensures
            kind == KeyMapType::CommonQWERTY,
    {
        KeyMapType::CommonQWERTY
    }
}

/// The keypad laid out on a block of four by four keys whose bottom-left key is
/// `bottom_left`.
pub open spec fn common_layout(bottom_left: PhysicalKey) -> Map<PhysicalKey, Key> {
    map![
        PhysicalKey::Num1 => Key::Num1,
        PhysicalKey::Num2 => Key::Num2,
        PhysicalKey::Num3 => Key::Num3,
        PhysicalKey::Num4 => Key::C,
        PhysicalKey::Q => Key::Num4,
        PhysicalKey::W => Key::Num5,
        PhysicalKey::E => Key::Num6,
        PhysicalKey::R => Key::D,
        PhysicalKey::A => Key::Num7,
        PhysicalKey::S => Key::Num8,
        PhysicalKey::D => Key::Num9,
        PhysicalKey::F => Key::E,
        bottom_left => Key::A,
        PhysicalKey::X => Key::Num0,
        PhysicalKey::C => Key::B,
        PhysicalKey::V => Key::F
    ]
}

/// Each keypad key on the keyboard key that shows its digit.
pub open spec fn literal_layout() -> Map<PhysicalKey, Key> {
    map![
        PhysicalKey::Num0 => Key::Num0,
        PhysicalKey::Num1 => Key::Num1,
        PhysicalKey::Num2 => Key::Num2,
        PhysicalKey::Num3 => Key::Num3,
        PhysicalKey::Num4 => Key::Num4,
        PhysicalKey::Num5 => Key::Num5,
        PhysicalKey::Num6 => Key::Num6,
        PhysicalKey::Num7 => Key::Num7,
        PhysicalKey::Num8 => Key::Num8,
        PhysicalKey::Num9 => Key::Num9,
        PhysicalKey::A => Key::A,
        PhysicalKey::B => Key::B,
        PhysicalKey::C => Key::C,
        PhysicalKey::D => Key::D,
        PhysicalKey::E => Key::E,
        PhysicalKey::F => Key::F
    ]
}

/// The keyboard keys of a layout and the keypad key of each.
pub open spec fn layout(kind: KeyMapType) -> Map<PhysicalKey, Key> {
    match kind {
        KeyMapType::CommonQWERTY => common_layout(PhysicalKey::Z),
        KeyMapType::CommonQWERTZ => common_layout(PhysicalKey::Y),
        KeyMapType::Literal => literal_layout(),
    }
}

/// The map that a list of bindings stands for. A later binding of a keyboard
/// key replaces an earlier one.
pub open spec fn bindings_map(bindings: Seq<(PhysicalKey, Key)>) -> Map<PhysicalKey, Key>
    decreases bindings.len(),
{
    if bindings.len() == 0 {
        Map::empty()
    } else {
        bindings_map(bindings.drop_last()).insert(bindings.last().0, bindings.last().1)
    }
}

/// A keyboard key that no binding from `from` on names is bound as in the
/// bindings before `from`.
proof fn lemma_unbound_tail(bindings: Seq<(PhysicalKey, Key)>, from: int, key: PhysicalKey)
    requires
        0 <= from <= bindings.len(),
        forall|j: int| from <= j < bindings.len() ==> bindings[j].0 != key,
    ensures
        bindings_map(bindings).dom().contains(key) == bindings_map(bindings.take(from)).dom().contains(
            key,
        ),
        bindings_map(bindings)[key] == bindings_map(bindings.take(from))[key],
    decreases bindings.len() - from,
{
    if from == bindings.len() {
        assert(bindings.take(from) =~= bindings);
    } else {
        lemma_unbound_tail(bindings.drop_last(), from, key);
        assert(bindings.drop_last().take(from) =~= bindings.take(from));
    }
}

/// A mapping from keyboard keys to keypad keys.
#[derive(Debug, Clone)]
pub struct KeyMap {
    map: Vec<(PhysicalKey, Key)>,
}

impl View for KeyMap {
    type V = Map<PhysicalKey, Key>;

    closed spec fn view(&self) -> Map<PhysicalKey, Key> {
        bindings_map(self.map@)
    }
}

impl KeyMap {
    /// A map that binds no key.
    fn empty() -> (key_map: KeyMap)
        ensures
            key_map@ == Map::<PhysicalKey, Key>::empty(),
    {
        KeyMap { map: Vec::new() }
    }

    /// Binds `physical` to `key`.
    fn bind(&mut self, physical: PhysicalKey, key: Key)
        ensures
            final(self)@ == old(self)@.insert(physical, key),
    {
        self.map.push((physical, key));
        assert(self.map@.drop_last() =~= old(self).map@);
    }

    /// The block of four by four keys whose bottom-left key is `bottom_left`.
    fn common(bottom_left: PhysicalKey) -> (key_map: KeyMap)
        ensures
            key_map@ == common_layout(bottom_left),
    {
        let mut key_map = KeyMap::empty();
        key_map.bind(PhysicalKey::Num1, Key::Num1);
        key_map.bind(PhysicalKey::Num2, Key::Num2);
        key_map.bind(PhysicalKey::Num3, Key::Num3);
        key_map.bind(PhysicalKey::Num4, Key::C);
        key_map.bind(PhysicalKey::Q, Key::Num4);
        key_map.bind(PhysicalKey::W, Key::Num5);
        key_map.bind(PhysicalKey::E, Key::Num6);
        key_map.bind(PhysicalKey::R, Key::D);
        key_map.bind(PhysicalKey::A, Key::Num7);
        key_map.bind(PhysicalKey::S, Key::Num8);
        key_map.bind(PhysicalKey::D, Key::Num9);
        key_map.bind(PhysicalKey::F, Key::E);
        key_map.bind(bottom_left, Key::A);
        key_map.bind(PhysicalKey::X, Key::Num0);
        key_map.bind(PhysicalKey::C, Key::B);
        key_map.bind(PhysicalKey::V, Key::F);
        key_map
    }

    /// The key map of one of the built-in layouts.
    pub fn from_type(key_map_type: KeyMapType) -> (key_map: KeyMap)
        ensures
            key_map@ == layout(key_map_type),
    {
        match key_map_type {
            KeyMapType::CommonQWERTZ => KeyMap::common(PhysicalKey::Y),
            KeyMapType::CommonQWERTY => KeyMap::common(PhysicalKey::Z),
            KeyMapType::Literal => {
                let mut key_map = KeyMap::empty();
                key_map.bind(PhysicalKey::Num0, Key::Num0);
                key_map.bind(PhysicalKey::Num1, Key::Num1);
                key_map.bind(PhysicalKey::Num2, Key::Num2);
                key_map.bind(PhysicalKey::Num3, Key::Num3);
                key_map.bind(PhysicalKey::Num4, Key::Num4);
                key_map.bind(PhysicalKey::Num5, Key::Num5);
                key_map.bind(PhysicalKey::Num6, Key::Num6);
                key_map.bind(PhysicalKey::Num7, Key::Num7);
                key_map.bind(PhysicalKey::Num8, Key::Num8);
                key_map.bind(PhysicalKey::Num9, Key::Num9);
                key_map.bind(PhysicalKey::A, Key::A);
                key_map.bind(PhysicalKey::B, Key::B);
                key_map.bind(PhysicalKey::C, Key::C);
                key_map.bind(PhysicalKey::D, Key::D);
                key_map.bind(PhysicalKey::E, Key::E);
                key_map.bind(PhysicalKey::F, Key::F);
                key_map
            },
        }
    }

    /// The keypad key that `key` is bound to, if it is bound.
    pub open spec fn spec_apply(&self, key: PhysicalKey) -> Option<Key> {
        if self@.dom().contains(key) {
            Some(self@[key])
        } else {
            None
        }
    }

    /// The keypad key that `key` is bound to, if it is bound.
    #[verifier::when_used_as_spec(spec_apply)]
    pub fn apply(&self, key: PhysicalKey) -> (bound: Option<Key>)
        ensures
            bound == self.spec_apply(key),
    {
        let mut i = self.map.len();
        while i > 0
            invariant
                i <= self.map.len(),
                forall|j: int| i <= j < self.map.len() ==> self.map@[j].0 != key,
            decreases i,
        {
            i -= 1;
            if self.map[i].0 == key {
                proof {
                    lemma_unbound_tail(self.map@, i + 1, key);
                    assert(self.map@.take(i + 1).drop_last() =~= self.map@.take(i as int));
                }
                return Some(self.map[i].1);
            }
        }
        proof {
            lemma_unbound_tail(self.map@, 0, key);
            assert(self.map@.take(0) =~= Seq::<(PhysicalKey, Key)>::empty());
        }
        None
    }

    /// The keypad keys that the keyboard keys `keys` are bound to.
    pub fn map_keys(&self, keys: &Vec<PhysicalKey>) -> (pressed: KeySet)
        ensures
            forall|key: Key|
                pressed@.contains(key) <==> exists|i: int|
                    0 <= i < keys.len() && self.spec_apply(#[trigger] keys[i]) == Some(key),
    {
        let mut pressed = KeySet::new();
        let mut n: usize = 0;
        while n < keys.len()
            invariant
                n <= keys.len(),
                forall|key: Key|
                    pressed@.contains(key) <==> exists|i: int|
                        0 <= i < n && self.spec_apply(#[trigger] keys[i]) == Some(key),
            decreases keys.len() - n,
        {
            let ghost before = pressed@;
            match self.apply(keys[n]) {
                Some(key) => {
                    pressed.insert(key);
                },
                None => {},
            }
            proof {
                assert forall|key: Key|
                    pressed@.contains(key) <==> exists|i: int|
                        0 <= i < n + 1 && self.spec_apply(#[trigger] keys[i]) == Some(key) by {
                    if pressed@.contains(key) {
                        if before.contains(key) {
                            let i = choose|i: int|
                                0 <= i < n && self.spec_apply(#[trigger] keys[i]) == Some(key);
                            assert(0 <= i < n + 1 && self.spec_apply(keys[i]) == Some(key));
                        } else {
                            assert(self.spec_apply(keys[n as int]) == Some(key));
                        }
                    }
                    if exists|i: int|
                        0 <= i < n + 1 && self.spec_apply(#[trigger] keys[i]) == Some(key) {
                        let i = choose|i: int|
                            0 <= i < n + 1 && self.spec_apply(#[trigger] keys[i]) == Some(key);
                        if i < n {
                            assert(before.contains(key));
                        }
                    }
                }
            }
            n += 1;
        }
        pressed
    }
}

/// What a user can configure.
#[derive(Debug, Copy, Clone, PartialEq, Eq, Structural)]
pub struct Settings {
    pub key_map: KeyMapType,
    pub instructions_per_second: usize,
    pub instructions: InstructionSettings,
}

impl Default for Settings {
    /// The common QWERTY layout, the default speed and every switch off.
    fn default() -> (settings: Settings)
        ensures
            settings == (Settings {
                key_map: KeyMapType::CommonQWERTY,
                instructions_per_second: DEFAULT_INSTRUCTIONS_PER_SECOND,
                instructions: InstructionSettings::spec_default(),
            }),
    {
        Settings {
            key_map: KeyMapType::CommonQWERTY,
            instructions_per_second: DEFAULT_INSTRUCTIONS_PER_SECOND,
            instructions: InstructionSettings::default(),
        }
    }
}

} // verus!
