use vstd::prelude::*;

verus! {

/// One of the sixteen keys of the hexadecimal keypad.
#[derive(Debug, Copy, Clone, PartialEq, Eq, Hash, PartialOrd, Ord, Structural)]
pub enum Key {
    Num0,
    Num1,
    Num2,
    Num3,
    Num4,
    Num5,
    Num6,
    Num7,
    Num8,
    Num9,
    A,
    B,
    C,
    D,
    E,
    F,
}

/// The key whose keypad value is `code`, if `code` names a key.
pub open spec fn key_of(code: u8) -> Option<Key> {
    match code {
        0 => Some(Key::Num0),
        1 => Some(Key::Num1),
        2 => Some(Key::Num2),
        3 => Some(Key::Num3),
        4 => Some(Key::Num4),
        5 => Some(Key::Num5),
        6 => Some(Key::Num6),
        7 => Some(Key::Num7),
        8 => Some(Key::Num8),
        9 => Some(Key::Num9),
        10 => Some(Key::A),
        11 => Some(Key::B),
        12 => Some(Key::C),
        13 => Some(Key::D),
        14 => Some(Key::E),
        15 => Some(Key::F),
        _ => None,
    }
}

impl Key {
    /// The keypad value of the key, between 0 and 15.
    pub open spec fn spec_code(self) -> u8 {
        match self {
            Key::Num0 => 0,
            Key::Num1 => 1,
            Key::Num2 => 2,
            Key::Num3 => 3,
            Key::Num4 => 4,
            Key::Num5 => 5,
            Key::Num6 => 6,
            Key::Num7 => 7,
            Key::Num8 => 8,
            Key::Num9 => 9,
            Key::A => 10,
            Key::B => 11,
            Key::C => 12,
            Key::D => 13,
            Key::E => 14,
            Key::F => 15,
        }
    }

    /// The keypad value of the key, between 0 and 15.
    #[verifier::when_used_as_spec(spec_code)]
    pub fn code(self) -> (code: u8)
        ensures
            code == self.spec_code(),
            code < 16,
            key_of(code) == Some(self),
    {
        match self {
            Key::Num0 => 0,
            Key::Num1 => 1,
            Key::Num2 => 2,
            Key::Num3 => 3,
            Key::Num4 => 4,
            Key::Num5 => 5,
            Key::Num6 => 6,
            Key::Num7 => 7,
            Key::Num8 => 8,
            Key::Num9 => 9,
            Key::A => 10,
            Key::B => 11,
            Key::C => 12,
            Key::D => 13,
            Key::E => 14,
            Key::F => 15,
        }
    }
}

impl TryFrom<u8> for Key {
    type Error = ();

    /// The key with keypad value `value`; values above 15 name no key.
    fn try_from(value: u8) -> (result: Result<Key, ()>) {
        match value {
            0x0 => Ok(Key::Num0),
            0x1 => Ok(Key::Num1),
            0x2 => Ok(Key::Num2),
            0x3 => Ok(Key::Num3),
            0x4 => Ok(Key::Num4),
            0x5 => Ok(Key::Num5),
            0x6 => Ok(Key::Num6),
            0x7 => Ok(Key::Num7),
            0x8 => Ok(Key::Num8),
            0x9 => Ok(Key::Num9),
            0xA => Ok(Key::A),
            0xB => Ok(Key::B),
            0xC => Ok(Key::C),
            0xD => Ok(Key::D),
            0xE => Ok(Key::E),
            0xF => Ok(Key::F),
            _ => Err(()),
        }
    }
}

impl vstd::std_specs::convert::TryFromSpecImpl<u8> for Key {
    open spec fn obeys_try_from_spec() -> bool {
        true
    }

    open spec fn try_from_spec(value: u8) -> Result<Key, ()> {
        match key_of(value) {
            Some(key) => Ok(key),
            None => Err(()),
        }
    }
}

/// `key_of` and `Key::code` are inverse to each other.
pub proof fn lemma_key_code_round_trip()
    ensures
        forall|key: Key| #[trigger] key_of(key.spec_code()) == Some(key),
        forall|key: Key| #[trigger] key.spec_code() < 16,
        forall|code: u8| code < 16 ==> (#[trigger] key_of(code)) is Some && key_of(code).unwrap().spec_code() == code,
        forall|code: u8| code >= 16 ==> (#[trigger] key_of(code)) is None,
{
}

/// A set of keypad keys: the keys that are held down at one moment.
#[derive(Debug, Copy, Clone, PartialEq, Eq)]
pub struct KeySet {
    pressed: [bool; 16],
}

impl View for KeySet {
    type V = Set<Key>;

    closed spec fn view(&self) -> Set<Key> {
        Set::new(|key: Key| self.pressed@[key.spec_code() as int])
    }
}

impl KeySet {
    /// The empty set.
    pub fn new() -> (keys: KeySet)
        ensures
            keys@ == Set::<Key>::empty(),
    {
        let keys = KeySet { pressed: [false; 16] };
        assert(keys@ =~= Set::<Key>::empty());
        keys
    }

    /// Adds `key` to the set.
    pub fn insert(&mut self, key: Key)
        ensures
            final(self)@ == old(self)@.insert(key),
    {
        let code = key.code();
        self.pressed[code as usize] = true;
        assert(self@ =~= old(self)@.insert(key));
    }

    /// Takes `key` out of the set.
    pub fn remove(&mut self, key: Key)
        ensures
            final(self)@ == old(self)@.remove(key),
    {
        let code = key.code();
        self.pressed[code as usize] = false;
        assert(self@ =~= old(self)@.remove(key));
    }

    /// Whether `key` is in the set.
    pub fn contains(&self, key: Key) -> (held: bool)
        ensures
            held == self@.contains(key),
    {
        self.pressed[key.code() as usize]
    }

    /// Whether the set holds no key.
    pub fn is_empty(&self) -> (empty: bool)
        ensures
            empty == (self@ == Set::<Key>::empty()),
    {
        let mut code: u8 = 0;
        while code < 16
            invariant
                code <= 16,
                forall|c: u8| c < code ==> !self.pressed@[c as int],
            decreases 16 - code,
        {
            if self.pressed[code as usize] {
                proof {
                    lemma_key_code_round_trip();
                    let key = key_of(code).unwrap();
                    assert(self@.contains(key));
                }
                return false;
            }
            code += 1;
        }
        assert(self@ =~= Set::<Key>::empty());
        true
    }

    /// The set of the keys listed in `keys`.
    pub fn from_keys(keys: &Vec<Key>) -> (set: KeySet)
        ensures
            set@ == keys@.to_set(),
    {
        let mut set = KeySet::new();
        let mut i: usize = 0;
        while i < keys.len()
            invariant
                i <= keys.len(),
                set@ == keys@.take(i as int).to_set(),
            decreases keys.len() - i,
        {
            set.insert(keys[i]);
            proof {
                assert(keys@.take(i + 1) =~= keys@.take(i as int).push(keys@[i as int]));
                keys@.take(i as int).lemma_push_to_set_commute(keys@[i as int]);
            }
            i += 1;
        }
        assert(keys@.take(keys.len() as int) =~= keys@);
        set
    }

    /// The keys of the set, by rising keypad value.
    pub fn to_keys(&self) -> (keys: Vec<Key>)
        ensures
            keys@.to_set() == self@,
            keys@.no_duplicates(),
            forall|i: int, j: int| 0 <= i < j < keys.len() ==> keys[i].spec_code() < keys[j].spec_code(),
    {
        let mut keys: Vec<Key> = Vec::new();
        let mut code: u8 = 0;
        while code < 16
            invariant
                code <= 16,
                forall|key: Key| keys@.contains(key) <==> (self@.contains(key) && key.spec_code() < code),
                forall|i: int, j: int| 0 <= i < j < keys.len() ==> keys[i].spec_code() < keys[j].spec_code(),
            decreases 16 - code,
        {
            proof {
                lemma_key_code_round_trip();
            }
            if self.pressed[code as usize] {
                match Key::try_from(code) {
                    Ok(key) => {
                        let ghost before = keys@;
                        keys.push(key);
                        assert forall|k: Key| keys@.contains(k) <==> (self@.contains(k) && k.spec_code() < code + 1) by {
                            if keys@.contains(k) {
                                let idx = choose|idx: int| 0 <= idx < keys@.len() && keys@[idx] == k;
                                if idx < before.len() {
                                    assert(before[idx] == k);
                                    assert(before.contains(k));
                                }
                            }
                            if self@.contains(k) && k.spec_code() < code + 1 {
                                if k.spec_code() < code {
                                    assert(before.contains(k));
                                    let idx = choose|idx: int| 0 <= idx < before.len() && before[idx] == k;
                                    assert(keys@[idx] == k);
                                } else {
                                    assert(keys@[before.len() as int] == k);
                                }
                            }
                        }
                        assert forall|i: int, j: int| 0 <= i < j < keys.len() implies keys[i].spec_code() < keys[j].spec_code() by {
                            if j == before.len() {
                                assert(before.contains(before[i]));
                            }
                        }
                    },
                    Err(_) => {},
                }
            } else {
                assert forall|k: Key| keys@.contains(k) <==> (self@.contains(k) && k.spec_code() < code + 1) by {
                    if k.spec_code() == code {
                        assert(!self@.contains(k));
                    }
                }
            }
            code += 1;
        }
        proof {
            lemma_key_code_round_trip();
            assert(keys@.to_set() =~= self@);
        }
        keys
    }
}

impl Default for KeySet {
    fn default() -> (keys: KeySet)
        ensures
            keys@ == Set::<Key>::empty(),
    {
        KeySet::new()
    }
}

} // verus!
