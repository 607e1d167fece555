use vstd::prelude::*;

verus! {

/// The 4-bit field of `value` at position `index`, position 0 being the most
/// significant one.
pub open spec fn spec_nibble(value: u16, index: u8) -> u8 {
    if index == 0 {
        (value / 4096) as u8
    } else if index == 1 {
        (value / 256 % 16) as u8
    } else if index == 2 {
        (value / 16 % 16) as u8
    } else {
        (value % 16) as u8
    }
}

/// Get the nibble (half-byte) at `index` of `value`.
#[verifier::when_used_as_spec(spec_nibble)]
pub fn nibble(value: u16, index: u8) -> (result: u8)
    requires
        index <= 3,
    ensures
        result == spec_nibble(value, index),
        result < 16,
{
    assert(((value >> 12u16) & 0x000f) == value / 4096) by (bit_vector);
    assert(((value >> 8u16) & 0x000f) == value / 256 % 16) by (bit_vector);
    assert(((value >> 4u16) & 0x000f) == value / 16 % 16) by (bit_vector);
    assert((value & 0x000f) == value % 16) by (bit_vector);
    match index {
        0 => (value >> 12 & 0x000f) as u8,
        1 => (value >> 8 & 0x000f) as u8,
        2 => (value >> 4 & 0x000f) as u8,
        _ => (value & 0x000f) as u8,
    }
}

/// One instruction of the machine, decoded. `x` and `y` are register indices,
/// `nn` is an 8-bit immediate, an address is 12 bits wide.
#[derive(Debug, Copy, Clone, PartialEq, Eq, Structural)]
pub enum Instruction {
    /// `00E0`: switch every pixel off.
    ClearScreen,
    /// `00EE`: return from a subroutine.
    Return,
    /// `1NNN`: continue at the address.
    Jump(u16),
    /// `2NNN`: call the subroutine at the address.
    Call(u16),
    /// `3XNN`: skip the next instruction if register `x` equals `nn`.
    SkipIfEqual { x: u8, nn: u8 },
    /// `4XNN`: skip the next instruction if register `x` differs from `nn`.
    SkipIfNotEqual { x: u8, nn: u8 },
    /// `5XY0`: skip the next instruction if registers `x` and `y` are equal.
    SkipIfRegistersEqual { x: u8, y: u8 },
    /// `6XNN`: set register `x` to `nn`.
    LoadImmediate { x: u8, nn: u8 },
    /// `7XNN`: add `nn` to register `x`, without touching the flag.
    AddImmediate { x: u8, nn: u8 },
    /// `8XY0`: copy register `y` to register `x`.
    Move { x: u8, y: u8 },
    /// `8XY1`: bitwise OR of register `y` into register `x`.
    Or { x: u8, y: u8 },
    /// `8XY2`: bitwise AND of register `y` into register `x`.
    And { x: u8, y: u8 },
    /// `8XY3`: bitwise XOR of register `y` into register `x`.
    Xor { x: u8, y: u8 },
    /// `8XY4`: add register `y` to register `x`; the flag tells a carry.
    Add { x: u8, y: u8 },
    /// `8XY5`: register `x` minus register `y`; the flag tells that nothing was borrowed.
    Subtract { x: u8, y: u8 },
    /// `8XY6`: shift right by one bit; the flag receives the bit shifted out.
    ShiftRight { x: u8, y: u8 },
    /// `8XY7`: register `y` minus register `x`, stored in register `x`.
    SubtractReversed { x: u8, y: u8 },
    /// `8XYE`: shift left by one bit; the flag receives the bit shifted out.
    ShiftLeft { x: u8, y: u8 },
    /// `9XY0`: skip the next instruction if registers `x` and `y` differ.
    SkipIfRegistersNotEqual { x: u8, y: u8 },
    /// `ANNN`: set the index register to the address.
    LoadIndex(u16),
    /// `BNNN`: jump to the address plus the value of a register: register 0, or
    /// the register that the high nibble of the address names.
    JumpWithOffset(u16),
    /// `CXNN`: set register `x` to a random byte masked with `nn`.
    Random { x: u8, nn: u8 },
    /// `DXYN`: draw a sprite of `rows` rows at the position held in registers `x` and `y`.
    Draw { x: u8, y: u8, rows: u8 },
    /// `EX9E`: skip the next instruction if the key named by register `x` is held.
    SkipIfKeyPressed { x: u8 },
    /// `EXA1`: skip the next instruction if the key named by register `x` is not held.
    SkipIfKeyNotPressed { x: u8 },
    /// `FX07`: copy the delay timer to register `x`.
    ReadDelayTimer { x: u8 },
    /// `FX0A`: wait until a key is released and store it in register `x`.
    WaitForKey { x: u8 },
    /// `FX15`: copy register `x` to the delay timer.
    SetDelayTimer { x: u8 },
    /// `FX18`: copy register `x` to the sound timer.
    SetSoundTimer { x: u8 },
    /// `FX1E`: add register `x` to the index register.
    AddToIndex { x: u8 },
    /// `FX29`: point the index register at the glyph of the digit in register `x`.
    FontAddress { x: u8 },
    /// `FX33`: store the three decimal digits of register `x` at the index register.
    StoreDecimal { x: u8 },
    /// `FX55`: store registers 0 to `x` at the index register.
    StoreRegisters { x: u8 },
    /// `FX65`: load registers 0 to `x` from the index register.
    LoadRegisters { x: u8 },
}

impl Instruction {
    /// Every field fits the bits that an instruction word has for it.
    pub open spec fn wf(self) -> bool {
        match self {
            Instruction::ClearScreen | Instruction::Return => true,
            Instruction::Jump(address)
            | Instruction::Call(address)
            | Instruction::LoadIndex(address)
            | Instruction::JumpWithOffset(address) => address < 4096,
            Instruction::SkipIfEqual { x, .. }
            | Instruction::SkipIfNotEqual { x, .. }
            | Instruction::LoadImmediate { x, .. }
            | Instruction::AddImmediate { x, .. }
            | Instruction::Random { x, .. }
            | Instruction::SkipIfKeyPressed { x }
            | Instruction::SkipIfKeyNotPressed { x }
            | Instruction::ReadDelayTimer { x }
            | Instruction::WaitForKey { x }
            | Instruction::SetDelayTimer { x }
            | Instruction::SetSoundTimer { x }
            | Instruction::AddToIndex { x }
            | Instruction::FontAddress { x }
            | Instruction::StoreDecimal { x }
            | Instruction::StoreRegisters { x }
            | Instruction::LoadRegisters { x } => x < 16,
            Instruction::SkipIfRegistersEqual { x, y }
            | Instruction::Move { x, y }
            | Instruction::Or { x, y }
            | Instruction::And { x, y }
            | Instruction::Xor { x, y }
            | Instruction::Add { x, y }
            | Instruction::Subtract { x, y }
            | Instruction::ShiftRight { x, y }
            | Instruction::SubtractReversed { x, y }
            | Instruction::ShiftLeft { x, y }
            | Instruction::SkipIfRegistersNotEqual { x, y } => x < 16 && y < 16,
            Instruction::Draw { x, y, rows } => x < 16 && y < 16 && rows < 16,
        }
    }
}

/// The word that encodes `instruction`: the digits that name the instruction
/// with its fields in the places that the instruction set gives them.
pub open spec fn spec_encode(instruction: Instruction) -> int {
    match instruction {
        Instruction::ClearScreen => 0x00e0,
        Instruction::Return => 0x00ee,
        Instruction::Jump(address) => 0x1000 + address,
        Instruction::Call(address) => 0x2000 + address,
        Instruction::SkipIfEqual { x, nn } => 0x3000 + x * 0x100 + nn,
        Instruction::SkipIfNotEqual { x, nn } => 0x4000 + x * 0x100 + nn,
        Instruction::SkipIfRegistersEqual { x, y } => 0x5000 + x * 0x100 + y * 0x10,
        Instruction::LoadImmediate { x, nn } => 0x6000 + x * 0x100 + nn,
        Instruction::AddImmediate { x, nn } => 0x7000 + x * 0x100 + nn,
        Instruction::Move { x, y } => 0x8000 + x * 0x100 + y * 0x10,
        Instruction::Or { x, y } => 0x8001 + x * 0x100 + y * 0x10,
        Instruction::And { x, y } => 0x8002 + x * 0x100 + y * 0x10,
        Instruction::Xor { x, y } => 0x8003 + x * 0x100 + y * 0x10,
        Instruction::Add { x, y } => 0x8004 + x * 0x100 + y * 0x10,
        Instruction::Subtract { x, y } => 0x8005 + x * 0x100 + y * 0x10,
        Instruction::ShiftRight { x, y } => 0x8006 + x * 0x100 + y * 0x10,
        Instruction::SubtractReversed { x, y } => 0x8007 + x * 0x100 + y * 0x10,
        Instruction::ShiftLeft { x, y } => 0x800e + x * 0x100 + y * 0x10,
        Instruction::SkipIfRegistersNotEqual { x, y } => 0x9000 + x * 0x100 + y * 0x10,
        Instruction::LoadIndex(address) => 0xa000 + address,
        Instruction::JumpWithOffset(address) => 0xb000 + address,
        Instruction::Random { x, nn } => 0xc000 + x * 0x100 + nn,
        Instruction::Draw { x, y, rows } => 0xd000 + x * 0x100 + y * 0x10 + rows,
        Instruction::SkipIfKeyPressed { x } => 0xe09e + x * 0x100,
        Instruction::SkipIfKeyNotPressed { x } => 0xe0a1 + x * 0x100,
        Instruction::ReadDelayTimer { x } => 0xf007 + x * 0x100,
        Instruction::WaitForKey { x } => 0xf00a + x * 0x100,
        Instruction::SetDelayTimer { x } => 0xf015 + x * 0x100,
        Instruction::SetSoundTimer { x } => 0xf018 + x * 0x100,
        Instruction::AddToIndex { x } => 0xf01e + x * 0x100,
        Instruction::FontAddress { x } => 0xf029 + x * 0x100,
        Instruction::StoreDecimal { x } => 0xf033 + x * 0x100,
        Instruction::StoreRegisters { x } => 0xf055 + x * 0x100,
        Instruction::LoadRegisters { x } => 0xf065 + x * 0x100,
    }
}

/// The instruction that `word` encodes, `None` if it encodes none. The word is
/// read as the four nibbles `n0 x y n`, with `nn` its low byte and `address`
/// its low twelve bits.
pub open spec fn spec_decode(word: u16) -> Option<Instruction> {
    let n0 = spec_nibble(word, 0);
    let x = spec_nibble(word, 1);
    let y = spec_nibble(word, 2);
    let n = spec_nibble(word, 3);
    let nn = (word % 256) as u8;
    let address = (word % 4096) as u16;
    if word == 0x00e0 {
        Some(Instruction::ClearScreen)
    } else if word == 0x00ee {
        Some(Instruction::Return)
    } else if n0 == 0x1 {
        Some(Instruction::Jump(address))
    } else if n0 == 0x2 {
        Some(Instruction::Call(address))
    } else if n0 == 0x3 {
        Some(Instruction::SkipIfEqual { x, nn })
    } else if n0 == 0x4 {
        Some(Instruction::SkipIfNotEqual { x, nn })
    } else if n0 == 0x5 && n == 0x0 {
        Some(Instruction::SkipIfRegistersEqual { x, y })
    } else if n0 == 0x6 {
        Some(Instruction::LoadImmediate { x, nn })
    } else if n0 == 0x7 {
        Some(Instruction::AddImmediate { x, nn })
    } else if n0 == 0x8 && n == 0x0 {
        Some(Instruction::Move { x, y })
    } else if n0 == 0x8 && n == 0x1 {
        Some(Instruction::Or { x, y })
    } else if n0 == 0x8 && n == 0x2 {
        Some(Instruction::And { x, y })
    } else if n0 == 0x8 && n == 0x3 {
        Some(Instruction::Xor { x, y })
    } else if n0 == 0x8 && n == 0x4 {
        Some(Instruction::Add { x, y })
    } else if n0 == 0x8 && n == 0x5 {
        Some(Instruction::Subtract { x, y })
    } else if n0 == 0x8 && n == 0x6 {
        Some(Instruction::ShiftRight { x, y })
    } else if n0 == 0x8 && n == 0x7 {
        Some(Instruction::SubtractReversed { x, y })
    } else if n0 == 0x8 && n == 0xe {
        Some(Instruction::ShiftLeft { x, y })
    } else if n0 == 0x9 && n == 0x0 {
        Some(Instruction::SkipIfRegistersNotEqual { x, y })
    } else if n0 == 0xa {
        Some(Instruction::LoadIndex(address))
    } else if n0 == 0xb {
        Some(Instruction::JumpWithOffset(address))
    } else if n0 == 0xc {
        Some(Instruction::Random { x, nn })
    } else if n0 == 0xd {
        Some(Instruction::Draw { x, y, rows: n })
    } else if n0 == 0xe && nn == 0x9e {
        Some(Instruction::SkipIfKeyPressed { x })
    } else if n0 == 0xe && nn == 0xa1 {
        Some(Instruction::SkipIfKeyNotPressed { x })
    } else if n0 == 0xf && nn == 0x07 {
        Some(Instruction::ReadDelayTimer { x })
    } else if n0 == 0xf && nn == 0x0a {
        Some(Instruction::WaitForKey { x })
    } else if n0 == 0xf && nn == 0x15 {
        Some(Instruction::SetDelayTimer { x })
    } else if n0 == 0xf && nn == 0x18 {
        Some(Instruction::SetSoundTimer { x })
    } else if n0 == 0xf && nn == 0x1e {
        Some(Instruction::AddToIndex { x })
    } else if n0 == 0xf && nn == 0x29 {
        Some(Instruction::FontAddress { x })
    } else if n0 == 0xf && nn == 0x33 {
        Some(Instruction::StoreDecimal { x })
    } else if n0 == 0xf && nn == 0x55 {
        Some(Instruction::StoreRegisters { x })
    } else if n0 == 0xf && nn == 0x65 {
        Some(Instruction::LoadRegisters { x })
    } else {
        None
    }
}

/// Decodes an instruction word. Every word that encodes no instruction gives
/// `None`.
#[verifier::when_used_as_spec(spec_decode)]
pub fn decode(word: u16) -> (result: Option<Instruction>)
    ensures
        result == spec_decode(word),
        result matches Some(instruction) ==> instruction.wf(),
{
    let n0 = nibble(word, 0);
    let x = nibble(word, 1);
    let y = nibble(word, 2);
    let n = nibble(word, 3);
    assert((word & 0x00ff) == word % 256) by (bit_vector);
    assert((word & 0x0fff) == word % 4096) by (bit_vector);
    let nn = (word & 0x00ff) as u8;
    let address = word & 0x0fff;
    if word == 0x00e0 {
        return Some(Instruction::ClearScreen);
    }
    if word == 0x00ee {
        return Some(Instruction::Return);
    }
    match (n0, n) {
        (0x1, _) => Some(Instruction::Jump(address)),
        (0x2, _) => Some(Instruction::Call(address)),
        (0x3, _) => Some(Instruction::SkipIfEqual { x, nn }),
        (0x4, _) => Some(Instruction::SkipIfNotEqual { x, nn }),
        (0x5, 0x0) => Some(Instruction::SkipIfRegistersEqual { x, y }),
        (0x6, _) => Some(Instruction::LoadImmediate { x, nn }),
        (0x7, _) => Some(Instruction::AddImmediate { x, nn }),
        (0x8, 0x0) => Some(Instruction::Move { x, y }),
        (0x8, 0x1) => Some(Instruction::Or { x, y }),
        (0x8, 0x2) => Some(Instruction::And { x, y }),
        (0x8, 0x3) => Some(Instruction::Xor { x, y }),
        (0x8, 0x4) => Some(Instruction::Add { x, y }),
        (0x8, 0x5) => Some(Instruction::Subtract { x, y }),
        (0x8, 0x6) => Some(Instruction::ShiftRight { x, y }),
        (0x8, 0x7) => Some(Instruction::SubtractReversed { x, y }),
        (0x8, 0xe) => Some(Instruction::ShiftLeft { x, y }),
        (0x9, 0x0) => Some(Instruction::SkipIfRegistersNotEqual { x, y }),
        (0xa, _) => Some(Instruction::LoadIndex(address)),
        (0xb, _) => Some(Instruction::JumpWithOffset(address)),
        (0xc, _) => Some(Instruction::Random { x, nn }),
        (0xd, _) => Some(Instruction::Draw { x, y, rows: n }),
        (0xe, _) => match nn {
            0x9e => Some(Instruction::SkipIfKeyPressed { x }),
            0xa1 => Some(Instruction::SkipIfKeyNotPressed { x }),
            _ => None,
        },
        (0xf, _) => match nn {
            0x07 => Some(Instruction::ReadDelayTimer { x }),
            0x0a => Some(Instruction::WaitForKey { x }),
            0x15 => Some(Instruction::SetDelayTimer { x }),
            0x18 => Some(Instruction::SetSoundTimer { x }),
            0x1e => Some(Instruction::AddToIndex { x }),
            0x29 => Some(Instruction::FontAddress { x }),
            0x33 => Some(Instruction::StoreDecimal { x }),
            0x55 => Some(Instruction::StoreRegisters { x }),
            0x65 => Some(Instruction::LoadRegisters { x }),
            _ => None,
        },
        _ => None,
    }
}

} // verus!
