use vstd::prelude::*;
use crate::error::{EmulatorError, ExecutionError};
use crate::font::FONT;
use crate::instruction::{spec_decode, Instruction};
use crate::keys::{key_of, Key};
use crate::settings::InstructionSettings;
use crate::sprite::{blank_display, collides, drawn, DISPLAY_HEIGHT, DISPLAY_SIZE, DISPLAY_WIDTH};

verus! {

/// Number of general-purpose registers.
pub const NUM_VARIABLE_REGISTERS: u8 = 16;

/// Index of the register that receives carry, borrow and collision flags.
pub const FLAG_REGISTER_INDEX: u8 = 0xF;

/// Address at which a program is loaded and started.
pub const ROM_START_ADDR: u16 = 0x200;

/// Address of the first glyph of the built-in font.
pub const FONT_START_ADDR: u16 = 0x50;

/// Number of bytes of memory.
pub const MEMORY_SIZE: usize = 4096;

/// Number of glyphs of the built-in font.
pub const NUM_FONT_CHARS: u8 = 16;

/// Number of bytes of one glyph.
pub const BYTES_PER_CHAR: u8 = 5;

/// The state of a wait for a key.
#[verifier::ext_equal]
pub enum KeyWait {
    /// No wait is in progress.
    Idle,
    /// A wait is in progress; the set holds the keys that were held when the
    /// waiting instruction was last executed.
    AwaitingRelease(Set<Key>),
}

/// The key of `keys` with the lowest keypad value that is at least `from`.
pub open spec fn lowest_key_from(keys: Set<Key>, from: u8) -> Option<Key>
    decreases 16 - from,
{
    if from >= 16 {
        None
    } else if keys.contains(key_of(from).unwrap()) {
        key_of(from)
    } else {
        lowest_key_from(keys, (from + 1) as u8)
    }
}

/// The key with the lowest keypad value among those that are in `before` and
/// no longer in `now`.
pub open spec fn released_key(before: Set<Key>, now: Set<Key>) -> Option<Key> {
    lowest_key_from(before.difference(now), 0)
}

/// The state of the virtual machine, as mathematical values.
#[verifier::ext_equal]
pub struct Machine {
    pub settings: InstructionSettings,
    /// 4096 bytes.
    pub memory: Seq<u8>,
    /// Return addresses, the most recent one last.
    pub stack: Seq<u16>,
    pub program_counter: u16,
    /// 64 x 32 pixels, row by row.
    pub display: Seq<bool>,
    pub index_register: u16,
    /// 16 registers; the last one is the flag register.
    pub registers: Seq<u8>,
    pub delay_timer: u8,
    pub sound_timer: u8,
    pub wait: KeyWait,
    /// The keys that are held down.
    pub keys: Set<Key>,
}

/// Memory as a loaded program finds it: the font at its address, the program
/// at the load address, zero elsewhere.
pub open spec fn initial_memory(program: Seq<u8>) -> Seq<u8> {
    Seq::new(
        MEMORY_SIZE as nat,
        |a: int|
            if FONT_START_ADDR <= a < FONT_START_ADDR + FONT@.len() {
                FONT@[a - FONT_START_ADDR]
            } else if ROM_START_ADDR <= a < ROM_START_ADDR + program.len() {
                program[a - ROM_START_ADDR]
            } else {
                0u8
            },
    )
}

impl Machine {
    /// The machine right after `program` was loaded: everything is reset but
    /// the settings and the keys that are held.
    pub open spec fn loaded(settings: InstructionSettings, keys: Set<Key>, program: Seq<u8>) -> Machine {
        Machine {
            settings,
            memory: initial_memory(program),
            stack: Seq::empty(),
            program_counter: ROM_START_ADDR,
            display: blank_display(),
            index_register: 0,
            registers: Seq::new(NUM_VARIABLE_REGISTERS as nat, |r: int| 0u8),
            delay_timer: 0,
            sound_timer: 0,
            wait: KeyWait::Idle,
            keys,
        }
    }

    /// Memory, display and register file have their fixed sizes.
    pub open spec fn wf(self) -> bool {
        &&& self.memory.len() == MEMORY_SIZE
        &&& self.display.len() == DISPLAY_SIZE
        &&& self.registers.len() == NUM_VARIABLE_REGISTERS
    }

    /// The value of register `x`.
    pub open spec fn reg(self, x: u8) -> u8 {
        self.registers[x as int]
    }

    /// The machine with register `x` set to `value`.
    pub open spec fn with_register(self, x: u8, value: u8) -> Machine {
        Machine { registers: self.registers.update(x as int, value), ..self }
    }

    /// The machine with the flag register set to `value`.
    pub open spec fn with_flag(self, value: u8) -> Machine {
        self.with_register(FLAG_REGISTER_INDEX, value)
    }

    /// The machine with the program counter moved to `address`.
    pub open spec fn at(self, address: u16) -> Machine {
        Machine { program_counter: address, ..self }
    }

    /// The machine with the next instruction skipped if `condition` holds.
    pub open spec fn skip_if(self, condition: bool) -> Machine
        recommends
            self.program_counter <= MEMORY_SIZE,
    {
        if condition {
            self.at((self.program_counter + 2) as u16)
        } else {
            self
        }
    }

    /// The machine after a timer tick: each timer that is not zero goes down by one.
    pub open spec fn tick(self) -> Machine {
        Machine {
            delay_timer: if self.delay_timer > 0 {
                (self.delay_timer - 1) as u8
            } else {
                0
            },
            sound_timer: if self.sound_timer > 0 {
                (self.sound_timer - 1) as u8
            } else {
                0
            },
            ..self
        }
    }

    /// Effect of `7XNN`: the sum wraps around and the flag stays as it is.
    pub open spec fn add_immediate(self, x: u8, nn: u8) -> Machine {
        self.with_register(x, ((self.reg(x) + nn) % 256) as u8)
    }

    /// Effect of `8XY4`.
    pub open spec fn add_registers(self, x: u8, y: u8) -> Machine {
        let sum = self.reg(x) + self.reg(y);
        self.with_register(x, (sum % 256) as u8).with_flag(if sum > 255 { 1 } else { 0 })
    }

    /// Effect of `8XY5` (`minuend` is `x`) and of `8XY7` (`minuend` is `y`):
    /// register `x` receives the difference, the flag tells that no borrow was
    /// needed.
    pub open spec fn subtract(self, x: u8, minuend: u8, subtrahend: u8) -> Machine {
        let a = self.reg(minuend);
        let b = self.reg(subtrahend);
        self.with_register(x, ((a - b) % 256) as u8).with_flag(if a >= b { 1 } else { 0 })
    }

    /// Effect of `8XY6`.
    pub open spec fn shift_right(self, x: u8, y: u8) -> Machine {
        let source = if self.settings.use_vy_in_8xy6 { self.reg(y) } else { self.reg(x) };
        self.with_register(x, source / 2).with_flag(source % 2)
    }

    /// Effect of `8XYE`.
    pub open spec fn shift_left(self, x: u8, y: u8) -> Machine {
        let source = if self.settings.use_vy_in_8xye { self.reg(y) } else { self.reg(x) };
        self.with_register(x, ((source * 2) % 256) as u8).with_flag(source / 128)
    }

    /// Target of `BNNN`: the address plus the value of register 0 or, where the
    /// settings ask for it, of the register that the high nibble of the address
    /// names.
    pub open spec fn jump_target(self, address: u16) -> u16 {
        let offset = if self.settings.use_bxnn_instead_bnnn {
            self.reg((address / 256) as u8)
        } else {
            self.reg(0)
        };
        (address + offset) as u16
    }

    /// Column at which a sprite is placed by `DXYN`.
    pub open spec fn sprite_x(self, x: u8) -> int {
        self.reg(x) as int % (DISPLAY_WIDTH as int)
    }

    /// Row at which a sprite is placed by `DXYN`.
    pub open spec fn sprite_y(self, y: u8) -> int {
        self.reg(y) as int % (DISPLAY_HEIGHT as int)
    }

    /// Number of sprite rows that `DXYN` reads: those that start above the
    /// lower edge of the display.
    pub open spec fn sprite_rows(self, y: u8, rows: u8) -> int {
        if rows as int <= DISPLAY_HEIGHT as int - self.sprite_y(y) {
            rows as int
        } else {
            DISPLAY_HEIGHT as int - self.sprite_y(y)
        }
    }

    /// Effect of `DXYN`.
    pub open spec fn draw(self, x: u8, y: u8, rows: u8) -> (Machine, Result<(), ExecutionError>) {
        let count = self.sprite_rows(y, rows);
        let first = self.index_register as int;
        if first + count > MEMORY_SIZE {
            (self, Err(ExecutionError::MemoryAccessOutOfBounds))
        } else {
            let sprite = self.memory.subrange(first, first + count);
            let x0 = self.sprite_x(x);
            let y0 = self.sprite_y(y);
            let after = Machine { display: drawn(self.display, sprite, x0, y0), ..self };
            (
                after.with_flag(if collides(self.display, sprite, x0, y0) { 1 } else { 0 }),
                Ok(()),
            )
        }
    }

    /// Effect of `FX1E`. The index register is 16 bits wide and wraps around.
    pub open spec fn add_to_index(self, x: u8) -> Machine {
        let index = ((self.index_register + self.reg(x)) % 0x10000) as u16;
        let after = Machine { index_register: index, ..self };
        if self.settings.set_vf_on_overflow_in_fx1e && index >= MEMORY_SIZE {
            after.with_flag(1)
        } else {
            after
        }
    }

    /// Effect of `FX0A`, executed with the program counter already past the
    /// instruction.
    pub open spec fn wait_for_key(self, x: u8) -> Machine
        recommends
            self.program_counter >= 2,
    {
        let rewound = (self.program_counter - 2) as u16;
        match self.wait {
            KeyWait::Idle => Machine { wait: KeyWait::AwaitingRelease(self.keys), ..self }.at(
                rewound,
            ),
            KeyWait::AwaitingRelease(before) => match released_key(before, self.keys) {
                Some(key) => Machine { wait: KeyWait::Idle, ..self }.with_register(
                    x,
                    key.spec_code(),
                ),
                None => Machine { wait: KeyWait::AwaitingRelease(self.keys), ..self }.at(rewound),
            },
        }
    }

    /// Effect of `FX29`.
    pub open spec fn font_address(self, x: u8) -> Machine {
        if self.reg(x) < NUM_FONT_CHARS {
            Machine {
                index_register: (FONT_START_ADDR + self.reg(x) * BYTES_PER_CHAR) as u16,
                ..self
            }
        } else {
            self
        }
    }

    /// Effect of `FX33`.
    pub open spec fn store_decimal(self, x: u8) -> (Machine, Result<(), ExecutionError>) {
        let first = self.index_register as int;
        let value = self.reg(x);
        if first + 2 >= MEMORY_SIZE {
            (self, Err(ExecutionError::MemoryAccessOutOfBounds))
        } else {
            (
                Machine {
                    memory: self.memory.update(first, value / 100).update(
                        first + 1,
                        value / 10 % 10,
                    ).update(first + 2, value % 10),
                    ..self
                },
                Ok(()),
            )
        }
    }

    /// Number of cells, starting at the index register, that lie within memory,
    /// but at most `wanted`.
    pub open spec fn cells_in_reach(self, wanted: int) -> int {
        let first = self.index_register as int;
        if first >= MEMORY_SIZE {
            0
        } else if first + wanted <= MEMORY_SIZE {
            wanted
        } else {
            MEMORY_SIZE - first
        }
    }

    /// The index register after `FX55` or `FX65` has copied registers 0 to `x`.
    pub open spec fn index_after_copy(self, x: u8) -> u16 {
        if self.settings.inc_i_in_fx55_and_fx65 {
            (self.index_register + x + 1) as u16
        } else {
            self.index_register
        }
    }

    /// Effect of `FX55`. Registers are stored one by one; the first cell outside
    /// memory ends the instruction with an error, after the cells before it were
    /// written.
    pub open spec fn store_registers(self, x: u8) -> (Machine, Result<(), ExecutionError>) {
        let first = self.index_register as int;
        let count = self.cells_in_reach(x + 1);
        let memory = Seq::new(
            self.memory.len(),
            |a: int|
                if first <= a < first + count {
                    self.registers[a - first]
                } else {
                    self.memory[a]
                },
        );
        if count < x + 1 {
            (Machine { memory, ..self }, Err(ExecutionError::MemoryAccessOutOfBounds))
        } else {
            (Machine { memory, index_register: self.index_after_copy(x), ..self }, Ok(()))
        }
    }

    /// Effect of `FX65`. Registers are loaded one by one; the first cell outside
    /// memory ends the instruction with an error, after the registers before it
    /// were loaded.
    pub open spec fn load_registers(self, x: u8) -> (Machine, Result<(), ExecutionError>) {
        let first = self.index_register as int;
        let count = self.cells_in_reach(x + 1);
        let registers = Seq::new(
            self.registers.len(),
            |r: int|
                if r < count {
                    self.memory[first + r]
                } else {
                    self.registers[r]
                },
        );
        if count < x + 1 {
            (Machine { registers, ..self }, Err(ExecutionError::MemoryAccessOutOfBounds))
        } else {
            (Machine { registers, index_register: self.index_after_copy(x), ..self }, Ok(()))
        }
    }

    /// Whether the key named by `value` is held; values above 15 name no key.
    pub open spec fn key_held(self, value: u8) -> bool {
        key_of(value) matches Some(key) && self.keys.contains(key)
    }

    /// Whether the key named by `value` exists and is not held.
    pub open spec fn key_idle(self, value: u8) -> bool {
        key_of(value) matches Some(key) && !self.keys.contains(key)
    }

    /// The effect of one instruction on a machine whose program counter is
    /// already past that instruction. `random` is the byte that the random
    /// source delivers; only `CXNN` uses it.
    pub open spec fn execute(self, instruction: Instruction, random: u8) -> (
        Machine,
        Result<(), ExecutionError>,
    )
        recommends
            self.wf(),
            instruction.wf(),
            2 <= self.program_counter <= MEMORY_SIZE,
    {
        match instruction {
            Instruction::ClearScreen => (Machine { display: blank_display(), ..self }, Ok(())),
            Instruction::Return => if self.stack.len() == 0 {
                (self, Err(ExecutionError::StackUnderflow))
            } else {
                (Machine { stack: self.stack.drop_last(), ..self }.at(self.stack.last()), Ok(()))
            },
            Instruction::Jump(address) => (self.at(address), Ok(())),
            Instruction::Call(address) => (
                Machine { stack: self.stack.push(self.program_counter), ..self }.at(address),
                Ok(()),
            ),
            Instruction::SkipIfEqual { x, nn } => (self.skip_if(self.reg(x) == nn), Ok(())),
            Instruction::SkipIfNotEqual { x, nn } => (self.skip_if(self.reg(x) != nn), Ok(())),
            Instruction::SkipIfRegistersEqual { x, y } => (
                self.skip_if(self.reg(x) == self.reg(y)),
                Ok(()),
            ),
            Instruction::LoadImmediate { x, nn } => (self.with_register(x, nn), Ok(())),
            Instruction::AddImmediate { x, nn } => (self.add_immediate(x, nn), Ok(())),
            Instruction::Move { x, y } => (self.with_register(x, self.reg(y)), Ok(())),
            Instruction::Or { x, y } => (self.with_register(x, self.reg(x) | self.reg(y)), Ok(())),
            Instruction::And { x, y } => (self.with_register(x, self.reg(x) & self.reg(y)), Ok(())),
            Instruction::Xor { x, y } => (self.with_register(x, self.reg(x) ^ self.reg(y)), Ok(())),
            Instruction::Add { x, y } => (self.add_registers(x, y), Ok(())),
            Instruction::Subtract { x, y } => (self.subtract(x, x, y), Ok(())),
            Instruction::ShiftRight { x, y } => (self.shift_right(x, y), Ok(())),
            Instruction::SubtractReversed { x, y } => (self.subtract(x, y, x), Ok(())),
            Instruction::ShiftLeft { x, y } => (self.shift_left(x, y), Ok(())),
            Instruction::SkipIfRegistersNotEqual { x, y } => (
                self.skip_if(self.reg(x) != self.reg(y)),
                Ok(()),
            ),
            Instruction::LoadIndex(address) => (Machine { index_register: address, ..self }, Ok(())),
            Instruction::JumpWithOffset(address) => (self.at(self.jump_target(address)), Ok(())),
            Instruction::Random { x, nn } => (self.with_register(x, random & nn), Ok(())),
            Instruction::Draw { x, y, rows } => self.draw(x, y, rows),
            Instruction::SkipIfKeyPressed { x } => (self.skip_if(self.key_held(self.reg(x))), Ok(())),
            Instruction::SkipIfKeyNotPressed { x } => (
                self.skip_if(self.key_idle(self.reg(x))),
                Ok(()),
            ),
            Instruction::ReadDelayTimer { x } => (self.with_register(x, self.delay_timer), Ok(())),
            Instruction::WaitForKey { x } => (self.wait_for_key(x), Ok(())),
            Instruction::SetDelayTimer { x } => (Machine { delay_timer: self.reg(x), ..self }, Ok(())),
            Instruction::SetSoundTimer { x } => (Machine { sound_timer: self.reg(x), ..self }, Ok(())),
            Instruction::AddToIndex { x } => (self.add_to_index(x), Ok(())),
            Instruction::FontAddress { x } => (self.font_address(x), Ok(())),
            Instruction::StoreDecimal { x } => self.store_decimal(x),
            Instruction::StoreRegisters { x } => self.store_registers(x),
            Instruction::LoadRegisters { x } => self.load_registers(x),
        }
    }

    /// Whether the two bytes of the next instruction lie within memory.
    pub open spec fn can_fetch(self) -> bool {
        self.program_counter + 1 < MEMORY_SIZE
    }

    /// The instruction word at the program counter, most significant byte first.
    pub open spec fn fetch(self) -> u16 {
        (self.memory[self.program_counter as int] * 256 + self.memory[self.program_counter + 1]) as u16
    }

    /// Whether the next step executes `instruction`: the word at the program
    /// counter can be fetched and encodes it.
    pub open spec fn next_is(self, instruction: Instruction) -> bool {
        self.can_fetch() && spec_decode(self.fetch()) == Some(instruction)
    }

    /// Whether the next step executes the instruction that asks for a random
    /// byte.
    pub open spec fn draws_random(self) -> bool {
        self.can_fetch() && spec_decode(self.fetch()) matches Some(Instruction::Random { .. })
    }

    /// One step of the machine: fetch the word at the program counter, move the
    /// program counter past it, decode and execute. A failure names the address
    /// of the instruction and its word. Where no word can be fetched the machine
    /// stays as it is and the word of the failure is 0.
    pub open spec fn step(self, random: u8) -> (Machine, Result<(), EmulatorError>) {
        let address = self.program_counter;
        if !self.can_fetch() {
            (
                self,
                Err(
                    EmulatorError::Execution {
                        address,
                        instruction: 0,
                        source: ExecutionError::MemoryAccessOutOfBounds,
                    },
                ),
            )
        } else {
            let word = self.fetch();
            let fetched = self.at((address + 2) as u16);
            match spec_decode(word) {
                None => (
                    fetched,
                    Err(
                        EmulatorError::Execution {
                            address,
                            instruction: word,
                            source: ExecutionError::UnknownInstruction(word),
                        },
                    ),
                ),
                Some(instruction) => {
                    let (after, outcome) = fetched.execute(instruction, random);
                    (
                        after,
                        match outcome {
                            Ok(_) => Ok(()),
                            Err(source) => Err(
                                EmulatorError::Execution { address, instruction: word, source },
                            ),
                        },
                    )
                },
            }
        }
    }
}

impl Machine {
    /// The machine after one step for each byte of `randoms`, in order, or
    /// after the first step that failed, together with that failure.
    pub open spec fn run(self, randoms: Seq<u8>) -> (Machine, Option<EmulatorError>)
        decreases randoms.len(),
    {
        if randoms.len() == 0 {
            (self, None)
        } else {
            let (reached, failure) = self.run(randoms.drop_last());
            match failure {
                Some(_) => (reached, failure),
                None => {
                    let (after, outcome) = reached.step(randoms.last());
                    (
                        after,
                        match outcome {
                            Ok(_) => None,
                            Err(error) => Some(error),
                        },
                    )
                },
            }
        }
    }
}

/// One more step after a run without failure.
pub proof fn lemma_run_push(machine: Machine, randoms: Seq<u8>, random: u8)
    requires
        machine.run(randoms).1 is None,
    ensures
        machine.run(randoms.push(random)).0 == machine.run(randoms).0.step(random).0,
        machine.run(randoms.push(random)).1 == match machine.run(randoms).0.step(random).1 {
            Ok(_) => None::<EmulatorError>,
            Err(error) => Some(error),
        },
{
    assert(randoms.push(random).drop_last() =~= randoms);
}

/// A run ends at its first failure: the bytes after it change nothing.
pub proof fn lemma_run_ends_at_failure(machine: Machine, randoms: Seq<u8>, rest: Seq<u8>)
    requires
        machine.run(randoms).1 is Some,
    ensures
        machine.run(randoms + rest) == machine.run(randoms),
    decreases rest.len(),
{
    if rest.len() == 0 {
        assert(randoms + rest =~= randoms);
    } else {
        lemma_run_ends_at_failure(machine, randoms, rest.drop_last());
        assert((randoms + rest).drop_last() =~= randoms + rest.drop_last());
    }
}

} // verus!
