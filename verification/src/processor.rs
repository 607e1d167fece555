use vstd::prelude::*;
pub use crate::error::{EmulatorError, ExecutionError, LoadingError};
pub use crate::font::FONT;
pub use crate::instruction::{decode, nibble, Instruction};
pub use crate::keys::{Key, KeySet};
use crate::keys::lemma_key_code_round_trip;
pub use crate::machine::{
    BYTES_PER_CHAR, FLAG_REGISTER_INDEX, FONT_START_ADDR, MEMORY_SIZE, NUM_FONT_CHARS,
    NUM_VARIABLE_REGISTERS, ROM_START_ADDR,
};
use crate::machine::{initial_memory, lowest_key_from, released_key, KeyWait, Machine};
pub use crate::settings::InstructionSettings;
pub use crate::sprite::{DISPLAY_HEIGHT, DISPLAY_WIDTH};
use crate::sprite::{blank_display, draw_sprite, DISPLAY_SIZE};

verus! {

/// The keys that were held when a waiting instruction was last executed.
#[derive(Debug, Copy, Clone)]
pub struct BlockingState {
    keys_on_enter: KeySet,
}

impl View for BlockingState {
    type V = Set<Key>;

    closed spec fn view(&self) -> Set<Key> {
        self.keys_on_enter@
    }
}

impl BlockingState {
    /// Starts a wait while `keys` are held.
    pub fn new(keys: &KeySet) -> (state: BlockingState)
        ensures
            state@ == keys@,
    {
        BlockingState { keys_on_enter: *keys }
    }

    /// Compares the keys held when the wait was last looked at with those held
    /// now. Returns the key with the lowest keypad value among those that were
    /// released, `None` if none was. In either case `keys` become the keys to
    /// compare with next time.
    pub fn compare_and_update(&mut self, keys: &KeySet) -> (released: Option<Key>)
        ensures
            released == released_key(old(self)@, keys@),
            final(self)@ == keys@,
    {
        let ghost gone = self@.difference(keys@);
        let mut released: Option<Key> = None;
        let mut code: u8 = 0;
        while code < 16 && released.is_none()
            invariant
                code <= 16,
                gone == self@.difference(keys@),
                released is None ==> lowest_key_from(gone, 0) == lowest_key_from(gone, code),
                released is Some ==> released == lowest_key_from(gone, 0),
            decreases 16 - code + if released is None { 1int } else { 0int },
        {
            proof {
                lemma_key_code_round_trip();
            }
            match Key::try_from(code) {
                Ok(key) => {
                    if self.keys_on_enter.contains(key) && !keys.contains(key) {
                        released = Some(key);
                    } else {
                        code += 1;
                    }
                },
                Err(_) => {
                    code += 1;
                },
            }
        }
        self.keys_on_enter = *keys;
        released
    }
}

/// A snapshot of the display: 64 x 32 pixels, row by row. An empty snapshot
/// stands for a blank display.
#[derive(Debug, Clone, PartialEq, Eq)]
pub struct Display {
    pub content: Vec<bool>,
}

impl View for Display {
    type V = Seq<bool>;

    open spec fn view(&self) -> Seq<bool> {
        self.content@
    }
}

impl Display {
    /// The pixel at column `x`, row `y`, which has the index `y * 64 + x`. A
    /// pixel outside the 64 columns and 32 rows, or one that the snapshot does
    /// not hold, is off.
    pub open spec fn spec_get(&self, x: u8, y: u8) -> bool {
        let index = y as int * DISPLAY_WIDTH as int + x as int;
        if x < DISPLAY_WIDTH && y < DISPLAY_HEIGHT && index < self.content@.len() {
            self.content@[index]
        } else {
            false
        }
    }

    /// The pixel at column `x`, row `y`. A pixel outside the 64 columns and 32
    /// rows, or one that the snapshot does not hold, is off.
    #[verifier::when_used_as_spec(spec_get)]
    pub fn get(&self, x: u8, y: u8) -> (on: bool)
        ensures
            on == self.spec_get(x, y),
    {
        if x >= DISPLAY_WIDTH || y >= DISPLAY_HEIGHT {
            return false;
        }
        let index = y as usize * 64 + x as usize;
        if index < self.content.len() {
            self.content[index]
        } else {
            false
        }
    }
}

impl Default for Display {
    fn default() -> (display: Display)
        ensures
            display@ == Seq::<bool>::empty(),
    {
        Display { content: Vec::new() }
    }
}

/// The virtual machine: memory, stack, registers, display, timers and keys,
/// and the instructions that act on them.
pub struct Processor {
    settings: InstructionSettings,
    memory: Vec<u8>,
    stack: Vec<u16>,
    program_counter: u16,
    display: Vec<bool>,
    index_register: u16,
    variable_registers: [u8; 16],
    delay_timer: u8,
    sound_timer: u8,
    blocking: Option<BlockingState>,
    keys: KeySet,
}

impl View for Processor {
    type V = Machine;

    closed spec fn view(&self) -> Machine {
        Machine {
            settings: self.settings,
            memory: self.memory@,
            stack: self.stack@,
            program_counter: self.program_counter,
            display: self.display@,
            index_register: self.index_register,
            registers: self.variable_registers@,
            delay_timer: self.delay_timer,
            sound_timer: self.sound_timer,
            wait: match self.blocking {
                None => KeyWait::Idle,
                Some(state) => KeyWait::AwaitingRelease(state@),
            },
            keys: self.keys@,
        }
    }
}

impl Default for Processor {
    /// A new processor, as `Processor::new` makes it.
    fn default() -> (processor: Processor)
        ensures
            processor.wf(),
            processor@ == Machine::loaded(
                InstructionSettings::spec_default(),
                Set::<Key>::empty(),
                Seq::<u8>::empty(),
            ),
    {
        Processor::new()
    }
}

/// Memory with the font in place and `program` at the load address.
fn build_memory(program: &Vec<u8>) -> (memory: Vec<u8>)
    requires
        program.len() <= MEMORY_SIZE - ROM_START_ADDR,
    ensures
        memory@ == initial_memory(program@),
{
    let mut memory = vec![0u8; MEMORY_SIZE];
    let mut i: usize = 0;
    while i < 80
        invariant
            i <= 80,
            memory.len() == MEMORY_SIZE,
            forall|a: int|
                0 <= a < MEMORY_SIZE ==> memory@[a] == if FONT_START_ADDR <= a < FONT_START_ADDR
                    + i {
                    FONT@[a - FONT_START_ADDR]
                } else {
                    0u8
                },
        decreases 80 - i,
    {
        memory[FONT_START_ADDR as usize + i] = FONT[i];
        i += 1;
    }
    let mut j: usize = 0;
    while j < program.len()
        invariant
            j <= program.len(),
            program.len() <= MEMORY_SIZE - ROM_START_ADDR,
            memory.len() == MEMORY_SIZE,
            forall|a: int|
                0 <= a < MEMORY_SIZE ==> memory@[a] == if FONT_START_ADDR <= a < FONT_START_ADDR
                    + 80 {
                    FONT@[a - FONT_START_ADDR]
                } else if ROM_START_ADDR <= a < ROM_START_ADDR + j {
                    program@[a - ROM_START_ADDR]
                } else {
                    0u8
                },
        decreases program.len() - j,
    {
        memory[ROM_START_ADDR as usize + j] = program[j];
        j += 1;
    }
    assert(memory@ =~= initial_memory(program@));
    memory
}

impl Processor {
    /// Memory, display and register file have their fixed sizes. Every
    /// processor that this library hands out is well-formed.
    pub open spec fn wf(&self) -> bool {
        self@.wf()
    }

    /// Create a new processor with default settings, no program and no key held.
    pub fn new() -> (processor: Processor)
        ensures
            processor.wf(),
            processor@ == Machine::loaded(
                InstructionSettings::spec_default(),
                Set::<Key>::empty(),
                Seq::<u8>::empty(),
            ),
    {
        let program: Vec<u8> = Vec::new();
        let processor = Processor {
            settings: InstructionSettings::default(),
            memory: build_memory(&program),
            stack: Vec::new(),
            program_counter: ROM_START_ADDR,
            display: vec![false; DISPLAY_SIZE],
            index_register: 0,
            variable_registers: [0u8; 16],
            delay_timer: 0,
            sound_timer: 0,
            blocking: None,
            keys: KeySet::new(),
        };
        assert(processor@ =~= Machine::loaded(
            InstructionSettings::spec_default(),
            Set::<Key>::empty(),
            Seq::<u8>::empty(),
        ));
        processor
    }

    /// Configure how certain instructions are interpreted.
    pub fn load_settings(&mut self, settings: InstructionSettings)
        ensures
            final(self)@ == (Machine { settings, ..old(self)@ }),
    {
        self.settings = settings;
    }

    /// Reset the machine (memory, registers, stack, display, timers, key wait)
    /// and load a program at the load address. Settings and held keys stay. A
    /// program that does not fit is rejected and changes nothing.
    pub fn load_program(&mut self, program_data: Vec<u8>) -> (result: Result<(), EmulatorError>)
        ensures
            program_data.len() <= MEMORY_SIZE - ROM_START_ADDR ==> result == Ok::<
                (),
                EmulatorError,
            >(()) && final(self)@ == Machine::loaded(
                old(self)@.settings,
                old(self)@.keys,
                program_data@,
            ) && final(self).wf(),
            program_data.len() > MEMORY_SIZE - ROM_START_ADDR ==> result == Err::<
                (),
                EmulatorError,
            >(EmulatorError::Loading(LoadingError::RomTooLarge)) && final(self)@ == old(self)@,
    {
        if program_data.len() > MEMORY_SIZE - ROM_START_ADDR as usize {
            return Err(EmulatorError::Loading(LoadingError::RomTooLarge));
        }
        self.memory = build_memory(&program_data);
        self.stack = Vec::new();
        self.program_counter = ROM_START_ADDR;
        self.display = vec![false; DISPLAY_SIZE];
        self.index_register = 0;
        self.variable_registers = [0u8; 16];
        self.delay_timer = 0;
        self.sound_timer = 0;
        self.blocking = None;
        assert(self@ =~= Machine::loaded(old(self)@.settings, old(self)@.keys, program_data@));
        Ok(())
    }

    /// Handle the clock signal (60 times per second) by decreasing the delay
    /// timer and the sound timer, each unless it is zero.
    pub fn handle_timer_tick(&mut self)
        ensures
            final(self)@ == old(self)@.tick(),
    {
        if self.delay_timer > 0 {
            self.delay_timer -= 1;
        }
        if self.sound_timer > 0 {
            self.sound_timer -= 1;
        }
    }

    /// Get the value in register `index`.
    pub fn register(&self, index: u8) -> (result: Result<u8, ExecutionError>)
        ensures
            index < NUM_VARIABLE_REGISTERS ==> result == Ok::<u8, ExecutionError>(
                self@.reg(index),
            ),
            index >= NUM_VARIABLE_REGISTERS ==> result == Err::<u8, ExecutionError>(
                ExecutionError::RegisterIndexOutOfRange(index),
            ),
    {
        if index < NUM_VARIABLE_REGISTERS {
            Ok(self.variable_registers[index as usize])
        } else {
            Err(ExecutionError::RegisterIndexOutOfRange(index))
        }
    }

    /// Set the value in register `index`.
    pub fn set_register(&mut self, index: u8, value: u8) -> (result: Result<(), ExecutionError>)
        ensures
            index < NUM_VARIABLE_REGISTERS ==> result == Ok::<(), ExecutionError>(())
                && final(self)@ == old(self)@.with_register(index, value),
            index >= NUM_VARIABLE_REGISTERS ==> result == Err::<(), ExecutionError>(
                ExecutionError::RegisterIndexOutOfRange(index),
            ) && final(self)@ == old(self)@,
    {
        if index < NUM_VARIABLE_REGISTERS {
            self.variable_registers[index as usize] = value;
            assert(self@ =~= old(self)@.with_register(index, value));
            Ok(())
        } else {
            Err(ExecutionError::RegisterIndexOutOfRange(index))
        }
    }

    /// Get the value of the flag register.
    pub fn flag_register(&self) -> (value: u8)
        ensures
            value == self@.reg(FLAG_REGISTER_INDEX),
    {
        self.variable_registers[FLAG_REGISTER_INDEX as usize]
    }

    /// Set the flag register.
    pub fn set_flag_register(&mut self, value: u8)
        ensures
            final(self)@ == old(self)@.with_flag(value),
    {
        self.variable_registers[FLAG_REGISTER_INDEX as usize] = value;
        assert(self@ =~= old(self)@.with_flag(value));
    }

    /// Read the memory cell at `address`.
    pub fn memory(&self, address: u16) -> (result: Result<u8, ExecutionError>)
        requires
            self.wf(),
        ensures
            address < MEMORY_SIZE ==> result == Ok::<u8, ExecutionError>(
                self@.memory[address as int],
            ),
            address >= MEMORY_SIZE ==> result == Err::<u8, ExecutionError>(
                ExecutionError::MemoryAccessOutOfBounds,
            ),
    {
        if (address as usize) < self.memory.len() {
            Ok(self.memory[address as usize])
        } else {
            Err(ExecutionError::MemoryAccessOutOfBounds)
        }
    }

    /// Write to the memory cell at `address`.
    pub fn set_memory(&mut self, address: u16, value: u8) -> (result: Result<(), ExecutionError>)
        requires
            old(self).wf(),
        ensures
            final(self).wf(),
            address < MEMORY_SIZE ==> result == Ok::<(), ExecutionError>(()) && final(self)@ == (
                Machine { memory: old(self)@.memory.update(address as int, value), ..old(self)@ }
            ),
            address >= MEMORY_SIZE ==> result == Err::<(), ExecutionError>(
                ExecutionError::MemoryAccessOutOfBounds,
            ) && final(self)@ == old(self)@,
    {
        if (address as usize) < self.memory.len() {
            self.memory[address as usize] = value;
            Ok(())
        } else {
            Err(ExecutionError::MemoryAccessOutOfBounds)
        }
    }

    /// Get the current content of the display.
    pub fn display(&self) -> (display: Display)
        ensures
            display@ == self@.display,
    {
        let content = self.display.clone();
        assert(content@ =~= self.display@);
        Display { content }
    }

    /// Whether an instruction is waiting for a key.
    pub fn is_blocking(&self) -> (blocking: bool)
        ensures
            blocking == (self@.wait is AwaitingRelease),
    {
        self.blocking.is_some()
    }

    /// Return true if sound is currently playing.
    pub fn playing_sound(&self) -> (playing: bool)
        ensures
            playing == (self@.sound_timer > 0),
    {
        self.sound_timer > 0
    }

    /// Accept keyboard input: `keys` replaces the set of held keys.
    pub fn handle_keys(&mut self, keys: KeySet)
        ensures
            final(self)@ == (Machine { keys: keys@, ..old(self)@ }),
    {
        self.keys = keys;
    }

    /// The address of the next instruction.
    pub fn program_counter(&self) -> (address: u16)
        ensures
            address == self@.program_counter,
    {
        self.program_counter
    }

    /// The value of the index register.
    pub fn index_register(&self) -> (value: u16)
        ensures
            value == self@.index_register,
    {
        self.index_register
    }

    /// The value of the delay timer.
    pub fn delay_timer(&self) -> (value: u8)
        ensures
            value == self@.delay_timer,
    {
        self.delay_timer
    }

    /// The value of the sound timer.
    pub fn sound_timer(&self) -> (value: u8)
        ensures
            value == self@.sound_timer,
    {
        self.sound_timer
    }

    /// The number of return addresses on the stack.
    pub fn stack_depth(&self) -> (depth: usize)
        ensures
            depth == self@.stack.len(),
    {
        self.stack.len()
    }
}

impl Processor {
    /// Moves the program counter past the next instruction if `condition` holds.
    fn skip_if(&mut self, condition: bool)
        requires
            old(self)@.program_counter <= MEMORY_SIZE,
        ensures
            final(self)@ == old(self)@.skip_if(condition),
    {
        if condition {
            self.program_counter += 2;
        }
    }

    /// `00E0`: switches every pixel off.
    fn clear_screen(&mut self) -> (result: Result<(), ExecutionError>)
        requires
            old(self).wf(),
        ensures
            final(self).wf(),
            result == Ok::<(), ExecutionError>(()),
            final(self)@ == (Machine { display: blank_display(), ..old(self)@ }),
    {
        self.display = vec![false; DISPLAY_SIZE];
        assert(self.display@ =~= blank_display());
        Ok(())
    }

    /// `00EE`: returns from a subroutine to the address on top of the stack,
    /// which it takes off. With an empty stack it fails and changes nothing.
    fn return_from_subroutine(&mut self) -> (result: Result<(), ExecutionError>)
        ensures
            old(self)@.stack.len() == 0 ==> result == Err::<(), ExecutionError>(
                ExecutionError::StackUnderflow,
            ) && final(self)@ == old(self)@,
            old(self)@.stack.len() > 0 ==> result == Ok::<(), ExecutionError>(()) && final(self)@
                == (Machine { stack: old(self)@.stack.drop_last(), ..old(self)@ }).at(
                old(self)@.stack.last(),
            ),
    {
        if let Some(address) = self.stack.pop() {
            self.program_counter = address;
            Ok(())
        } else {
            Err(ExecutionError::StackUnderflow)
        }
    }

    /// `1NNN`: continues at `address`.
    fn jump(&mut self, address: u16) -> (result: Result<(), ExecutionError>)
        ensures
            result == Ok::<(), ExecutionError>(()),
            final(self)@ == old(self)@.at(address),
    {
        self.program_counter = address;
        Ok(())
    }

    /// `2NNN`: calls the subroutine at `address`.
    fn call(&mut self, address: u16) -> (result: Result<(), ExecutionError>)
        ensures
            result == Ok::<(), ExecutionError>(()),
            final(self)@ == (Machine {
                stack: old(self)@.stack.push(old(self)@.program_counter),
                ..old(self)@
            }).at(address),
    {
        self.stack.push(self.program_counter);
        self.program_counter = address;
        Ok(())
    }

    /// `3XNN` and `4XNN`: skips the next instruction if register `x` equals
    /// `nn`, or if it differs where `equal` is false.
    fn skip_on_immediate(&mut self, x: u8, nn: u8, equal: bool) -> (result: Result<
        (),
        ExecutionError,
    >)
        requires
            x < 16,
            old(self)@.program_counter <= MEMORY_SIZE,
        ensures
            result == Ok::<(), ExecutionError>(()),
            final(self)@ == old(self)@.skip_if((old(self)@.reg(x) == nn) == equal),
    {
        let value = self.register(x)?;
        self.skip_if((value == nn) == equal);
        Ok(())
    }

    /// `5XY0` and `9XY0`: skips the next instruction if registers `x` and `y`
    /// are equal, or if they differ where `equal` is false.
    fn skip_on_registers(&mut self, x: u8, y: u8, equal: bool) -> (result: Result<
        (),
        ExecutionError,
    >)
        requires
            x < 16,
            y < 16,
            old(self)@.program_counter <= MEMORY_SIZE,
        ensures
            result == Ok::<(), ExecutionError>(()),
            final(self)@ == old(self)@.skip_if((old(self)@.reg(x) == old(self)@.reg(y)) == equal),
    {
        let a = self.register(x)?;
        let b = self.register(y)?;
        self.skip_if((a == b) == equal);
        Ok(())
    }

    /// `EX9E` and `EXA1`: skips the next instruction if the key named by
    /// register `x` is held, or if it is not held where `pressed` is false. A
    /// value above 15 names no key and never skips.
    fn skip_on_key(&mut self, x: u8, pressed: bool) -> (result: Result<(), ExecutionError>)
        requires
            x < 16,
            old(self)@.program_counter <= MEMORY_SIZE,
        ensures
            result == Ok::<(), ExecutionError>(()),
            final(self)@ == old(self)@.skip_if(
                if pressed {
                    old(self)@.key_held(old(self)@.reg(x))
                } else {
                    old(self)@.key_idle(old(self)@.reg(x))
                },
            ),
    {
        let value = self.register(x)?;
        let skip = match Key::try_from(value) {
            Ok(key) => self.keys.contains(key) == pressed,
            Err(_) => false,
        };
        self.skip_if(skip);
        Ok(())
    }

    /// `8XY0`: copies register `y` to register `x`.
    fn move_register(&mut self, x: u8, y: u8) -> (result: Result<(), ExecutionError>)
        requires
            x < 16,
            y < 16,
        ensures
            result == Ok::<(), ExecutionError>(()),
            final(self)@ == old(self)@.with_register(x, old(self)@.reg(y)),
    {
        let value = self.register(y)?;
        self.set_register(x, value)
    }

    /// `8XY1`: bitwise OR of register `y` into register `x`.
    fn or_registers(&mut self, x: u8, y: u8) -> (result: Result<(), ExecutionError>)
        requires
            x < 16,
            y < 16,
        ensures
            result == Ok::<(), ExecutionError>(()),
            final(self)@ == old(self)@.with_register(x, old(self)@.reg(x) | old(self)@.reg(y)),
    {
        let a = self.register(x)?;
        let b = self.register(y)?;
        self.set_register(x, a | b)
    }

    /// `8XY2`: bitwise AND of register `y` into register `x`.
    fn and_registers(&mut self, x: u8, y: u8) -> (result: Result<(), ExecutionError>)
        requires
            x < 16,
            y < 16,
        ensures
            result == Ok::<(), ExecutionError>(()),
            final(self)@ == old(self)@.with_register(x, old(self)@.reg(x) & old(self)@.reg(y)),
    {
        let a = self.register(x)?;
        let b = self.register(y)?;
        self.set_register(x, a & b)
    }

    /// `8XY3`: bitwise XOR of register `y` into register `x`.
    fn xor_registers(&mut self, x: u8, y: u8) -> (result: Result<(), ExecutionError>)
        requires
            x < 16,
            y < 16,
        ensures
            result == Ok::<(), ExecutionError>(()),
            final(self)@ == old(self)@.with_register(x, old(self)@.reg(x) ^ old(self)@.reg(y)),
    {
        let a = self.register(x)?;
        let b = self.register(y)?;
        self.set_register(x, a ^ b)
    }

    /// `ANNN`: sets the index register to `address`.
    fn load_index(&mut self, address: u16) -> (result: Result<(), ExecutionError>)
        ensures
            result == Ok::<(), ExecutionError>(()),
            final(self)@ == (Machine { index_register: address, ..old(self)@ }),
    {
        self.index_register = address;
        Ok(())
    }

    /// `FX15`: copies register `x` to the delay timer.
    fn set_delay_timer(&mut self, x: u8) -> (result: Result<(), ExecutionError>)
        requires
            x < 16,
        ensures
            result == Ok::<(), ExecutionError>(()),
            final(self)@ == (Machine { delay_timer: old(self)@.reg(x), ..old(self)@ }),
    {
        self.delay_timer = self.register(x)?;
        Ok(())
    }

    /// `FX18`: copies register `x` to the sound timer.
    fn set_sound_timer(&mut self, x: u8) -> (result: Result<(), ExecutionError>)
        requires
            x < 16,
        ensures
            result == Ok::<(), ExecutionError>(()),
            final(self)@ == (Machine { sound_timer: old(self)@.reg(x), ..old(self)@ }),
    {
        self.sound_timer = self.register(x)?;
        Ok(())
    }

    /// `7XNN`: adds `nn` to register `x`; the carry is dropped.
    fn add_immediate(&mut self, x: u8, nn: u8) -> (result: Result<(), ExecutionError>)
        requires
            x < 16,
        ensures
            result == Ok::<(), ExecutionError>(()),
            final(self)@ == old(self)@.add_immediate(x, nn),
    {
        let value = self.register(x)?;
        self.set_register(x, value.wrapping_add(nn))?;
        Ok(())
    }

    /// `BNNN`: jumps to `address` plus the value of register 0 or, where the
    /// settings ask for it, of the register that the high nibble of `address`
    /// names.
    fn jump_with_offset(&mut self, address: u16) -> (result: Result<(), ExecutionError>)
        requires
            address < 4096,
        ensures
            result == Ok::<(), ExecutionError>(()),
            final(self)@ == old(self)@.at(old(self)@.jump_target(address)),
    {
        let offset = if self.settings.use_bxnn_instead_bnnn {
            self.register((address / 256) as u8)?
        } else {
            self.register(0)?
        };
        self.program_counter = address + offset as u16;
        Ok(())
    }

    /// `8XY4`: adds register `y` to register `x`; the flag tells a carry.
    fn add_registers(&mut self, x: u8, y: u8) -> (result: Result<(), ExecutionError>)
        requires
            x < 16,
            y < 16,
        ensures
            result == Ok::<(), ExecutionError>(()),
            final(self)@ == old(self)@.add_registers(x, y),
    {
        let a = self.register(x)?;
        let b = self.register(y)?;
        let carry: u8 = if a as u16 + b as u16 > 255 { 1 } else { 0 };
        self.set_register(x, a.wrapping_add(b))?;
        self.set_flag_register(carry);
        Ok(())
    }

    /// `8XY5` and `8XY7`: stores in register `x` the value of register `minuend`
    /// minus that of register `subtrahend`; the flag tells that no borrow was
    /// needed.
    fn subtract_registers(&mut self, x: u8, minuend: u8, subtrahend: u8) -> (result: Result<
        (),
        ExecutionError,
    >)
        requires
            x < 16,
            minuend < 16,
            subtrahend < 16,
        ensures
            result == Ok::<(), ExecutionError>(()),
            final(self)@ == old(self)@.subtract(x, minuend, subtrahend),
    {
        let a = self.register(minuend)?;
        let b = self.register(subtrahend)?;
        let no_borrow: u8 = if a >= b { 1 } else { 0 };
        self.set_register(x, a.wrapping_sub(b))?;
        self.set_flag_register(no_borrow);
        Ok(())
    }

    /// `8XY6`: shifts one bit to the right; the flag receives the bit shifted out.
    fn shift_right(&mut self, x: u8, y: u8) -> (result: Result<(), ExecutionError>)
        requires
            x < 16,
            y < 16,
        ensures
            result == Ok::<(), ExecutionError>(()),
            final(self)@ == old(self)@.shift_right(x, y),
    {
        let source = if self.settings.use_vy_in_8xy6 {
            self.register(y)?
        } else {
            self.register(x)?
        };
        let lowest_bit = source & 0b1;
        let shifted = source >> 1;
        assert(source & 0b1 == source % 2) by (bit_vector);
        assert(source >> 1 == source / 2) by (bit_vector);
        self.set_register(x, shifted)?;
        self.set_flag_register(lowest_bit);
        Ok(())
    }

    /// `8XYE`: shifts one bit to the left; the flag receives the bit shifted out.
    fn shift_left(&mut self, x: u8, y: u8) -> (result: Result<(), ExecutionError>)
        requires
            x < 16,
            y < 16,
        ensures
            result == Ok::<(), ExecutionError>(()),
            final(self)@ == old(self)@.shift_left(x, y),
    {
        let source = if self.settings.use_vy_in_8xye {
            self.register(y)?
        } else {
            self.register(x)?
        };
        let highest_bit = (source & 0b10000000) >> 7;
        let shifted = source << 1;
        assert((source & 0b10000000) >> 7 == source / 128) by (bit_vector);
        assert(source << 1 == (source * 2) % 256) by (bit_vector);
        self.set_register(x, shifted)?;
        self.set_flag_register(highest_bit);
        Ok(())
    }

    /// `FX1E`: adds register `x` to the index register, which wraps around at 16
    /// bits; where the settings ask for it, the flag is set when the index
    /// register then points outside memory.
    fn add_to_index(&mut self, x: u8) -> (result: Result<(), ExecutionError>)
        requires
            x < 16,
        ensures
            result == Ok::<(), ExecutionError>(()),
            final(self)@ == old(self)@.add_to_index(x),
    {
        let value = self.register(x)?;
        self.index_register = self.index_register.wrapping_add(value as u16);
        if self.settings.set_vf_on_overflow_in_fx1e {
            // Not the overflow of 16 bits: an address outside memory.
            if self.index_register as usize >= MEMORY_SIZE {
                self.set_flag_register(1);
            }
        }
        Ok(())
    }

    /// `FX29`: points the index register at the glyph of the digit in register
    /// `x`; a value that is no digit changes nothing.
    fn font_address(&mut self, x: u8) -> (result: Result<(), ExecutionError>)
        requires
            x < 16,
        ensures
            result == Ok::<(), ExecutionError>(()),
            final(self)@ == old(self)@.font_address(x),
    {
        let value = self.register(x)?;
        if value < NUM_FONT_CHARS {
            let glyph_size = BYTES_PER_CHAR as u16;
            assert(value as u16 * glyph_size <= 75) by (nonlinear_arith)
                requires
                    value < 16,
                    glyph_size == 5,
            ;
            self.index_register = FONT_START_ADDR + value as u16 * glyph_size;
        }
        Ok(())
    }

    /// `FX0A`: waits for the release of a key.
    fn wait_for_key(&mut self, x: u8) -> (result: Result<(), ExecutionError>)
        requires
            x < 16,
            old(self)@.program_counter >= 2,
        ensures
            result == Ok::<(), ExecutionError>(()),
            final(self)@ == old(self)@.wait_for_key(x),
    {
        match self.blocking {
            Some(mut state) => {
                match state.compare_and_update(&self.keys) {
                    Some(key) => {
                        // A key was released: store it and go on.
                        self.set_register(x, key.code())?;
                        self.blocking = None;
                    },
                    None => {
                        self.blocking = Some(state);
                        self.program_counter -= 2;
                    },
                }
            },
            None => {
                // Remember the keys that are held and stay at this instruction.
                self.blocking = Some(BlockingState::new(&self.keys));
                self.program_counter -= 2;
            },
        }
        assert(self@ =~= old(self)@.wait_for_key(x));
        Ok(())
    }

    /// `DXYN`: draws the sprite of `rows` rows that the index register points
    /// at, at the column and row held in registers `x` and `y`, each wrapped to
    /// the display once. The flag tells whether a pixel was switched off.
    fn draw(&mut self, x: u8, y: u8, rows: u8) -> (result: Result<(), ExecutionError>)
        requires
            x < 16,
            y < 16,
            old(self).wf(),
        ensures
            final(self).wf(),
            result == old(self)@.draw(x, y, rows).1,
            final(self)@ == old(self)@.draw(x, y, rows).0,
    {
        let x0 = self.register(x)? % DISPLAY_WIDTH;
        let y0 = self.register(y)? % DISPLAY_HEIGHT;
        // Rows that would start below the lower edge are not read.
        let count = if rows <= DISPLAY_HEIGHT - y0 {
            rows
        } else {
            DISPLAY_HEIGHT - y0
        };
        let first = self.index_register as usize;
        if first + count as usize > MEMORY_SIZE {
            return Err(ExecutionError::MemoryAccessOutOfBounds);
        }
        let collision = draw_sprite(&mut self.display, &self.memory, first, count, x0, y0);
        self.set_flag_register(if collision { 1 } else { 0 });
        assert(self@ =~= old(self)@.draw(x, y, rows).0);
        Ok(())
    }

    /// `FX33`: stores the decimal digits of register `x` in three cells.
    fn store_decimal(&mut self, x: u8) -> (result: Result<(), ExecutionError>)
        requires
            x < 16,
            old(self).wf(),
        ensures
            final(self).wf(),
            result == old(self)@.store_decimal(x).1,
            final(self)@ == old(self)@.store_decimal(x).0,
    {
        let value = self.register(x)?;
        let first = self.index_register as usize;
        if first + 2 >= MEMORY_SIZE {
            return Err(ExecutionError::MemoryAccessOutOfBounds);
        }
        self.memory[first] = value / 100;
        self.memory[first + 1] = value / 10 % 10;
        self.memory[first + 2] = value % 10;
        assert(self@ =~= old(self)@.store_decimal(x).0);
        Ok(())
    }

    /// `FX55`: stores registers 0 to `x` in memory.
    fn store_registers(&mut self, x: u8) -> (result: Result<(), ExecutionError>)
        requires
            x < 16,
            old(self).wf(),
        ensures
            final(self).wf(),
            result == old(self)@.store_registers(x).1,
            final(self)@ == old(self)@.store_registers(x).0,
    {
        let first = self.index_register as usize;
        let mut i: u8 = 0;
        while i <= x
            invariant
                x < 16,
                i <= x + 1,
                self.wf(),
                first == old(self)@.index_register,
                i > 0 ==> first + i <= MEMORY_SIZE,
                self@ == (Machine {
                    memory: Seq::new(
                        old(self)@.memory.len(),
                        |a: int|
                            if first <= a < first + i {
                                old(self)@.registers[a - first]
                            } else {
                                old(self)@.memory[a]
                            },
                    ),
                    ..old(self)@
                }),
            decreases x + 1 - i,
        {
            let address = first + i as usize;
            if address >= MEMORY_SIZE {
                assert(self@ =~= old(self)@.store_registers(x).0);
                return Err(ExecutionError::MemoryAccessOutOfBounds);
            }
            let value = self.register(i)?;
            self.memory[address] = value;
            i += 1;
            assert(self@ =~= (Machine {
                memory: Seq::new(
                    old(self)@.memory.len(),
                    |a: int|
                        if first <= a < first + i {
                            old(self)@.registers[a - first]
                        } else {
                            old(self)@.memory[a]
                        },
                ),
                ..old(self)@
            }));
        }
        if self.settings.inc_i_in_fx55_and_fx65 {
            self.index_register += x as u16 + 1;
        }
        assert(self@ =~= old(self)@.store_registers(x).0);
        Ok(())
    }

    /// `FX65`: loads registers 0 to `x` from memory.
    fn load_registers(&mut self, x: u8) -> (result: Result<(), ExecutionError>)
        requires
            x < 16,
            old(self).wf(),
        ensures
            final(self).wf(),
            result == old(self)@.load_registers(x).1,
            final(self)@ == old(self)@.load_registers(x).0,
    {
        let first = self.index_register as usize;
        let mut i: u8 = 0;
        while i <= x
            invariant
                x < 16,
                i <= x + 1,
                self.wf(),
                first == old(self)@.index_register,
                i > 0 ==> first + i <= MEMORY_SIZE,
                self@ == (Machine {
                    registers: Seq::new(
                        old(self)@.registers.len(),
                        |r: int|
                            if r < i {
                                old(self)@.memory[first + r]
                            } else {
                                old(self)@.registers[r]
                            },
                    ),
                    ..old(self)@
                }),
            decreases x + 1 - i,
        {
            let address = first + i as usize;
            if address >= MEMORY_SIZE {
                assert(self@ =~= old(self)@.load_registers(x).0);
                return Err(ExecutionError::MemoryAccessOutOfBounds);
            }
            let value = self.memory[address];
            self.set_register(i, value)?;
            i += 1;
            assert(self@ =~= (Machine {
                registers: Seq::new(
                    old(self)@.registers.len(),
                    |r: int|
                        if r < i {
                            old(self)@.memory[first + r]
                        } else {
                            old(self)@.registers[r]
                        },
                ),
                ..old(self)@
            }));
        }
        if self.settings.inc_i_in_fx55_and_fx65 {
            self.index_register += x as u16 + 1;
        }
        assert(self@ =~= old(self)@.load_registers(x).0);
        Ok(())
    }
}

/// A byte from `rand::random`, which draws from the thread-local generator of
/// the `rand` crate. Nothing is claimed of the byte. The generator is seeded
/// from the operating system when a thread first uses it, and `rand` panics if
/// that seeding fails.
#[verifier::external_body]
fn random_byte() -> (byte: u8) {
    rand::random::<u8>()
}

impl Processor {
    /// Execute a single instruction. The program counter is already past it.
    fn execute(&mut self, instruction: Instruction, random: u8) -> (result: Result<
        (),
        ExecutionError,
    >)
        requires
            old(self).wf(),
            instruction.wf(),
            2 <= old(self)@.program_counter <= MEMORY_SIZE,
        ensures
            final(self).wf(),
            result == old(self)@.execute(instruction, random).1,
            final(self)@ == old(self)@.execute(instruction, random).0,
    {
        match instruction {
            Instruction::ClearScreen => self.clear_screen(),
            Instruction::Return => self.return_from_subroutine(),
            Instruction::Jump(address) => self.jump(address),
            Instruction::Call(address) => self.call(address),
            Instruction::SkipIfEqual { x, nn } => self.skip_on_immediate(x, nn, true),
            Instruction::SkipIfNotEqual { x, nn } => self.skip_on_immediate(x, nn, false),
            Instruction::SkipIfRegistersEqual { x, y } => self.skip_on_registers(x, y, true),
            Instruction::LoadImmediate { x, nn } => self.set_register(x, nn),
            Instruction::AddImmediate { x, nn } => self.add_immediate(x, nn),
            Instruction::Move { x, y } => self.move_register(x, y),
            Instruction::Or { x, y } => self.or_registers(x, y),
            Instruction::And { x, y } => self.and_registers(x, y),
            Instruction::Xor { x, y } => self.xor_registers(x, y),
            Instruction::Add { x, y } => self.add_registers(x, y),
            Instruction::Subtract { x, y } => self.subtract_registers(x, x, y),
            Instruction::ShiftRight { x, y } => self.shift_right(x, y),
            Instruction::SubtractReversed { x, y } => self.subtract_registers(x, y, x),
            Instruction::ShiftLeft { x, y } => self.shift_left(x, y),
            Instruction::SkipIfRegistersNotEqual { x, y } => self.skip_on_registers(x, y, false),
            Instruction::LoadIndex(address) => self.load_index(address),
            Instruction::JumpWithOffset(address) => self.jump_with_offset(address),
            Instruction::Random { x, nn } => self.set_register(x, random & nn),
            Instruction::Draw { x, y, rows } => self.draw(x, y, rows),
            Instruction::SkipIfKeyPressed { x } => self.skip_on_key(x, true),
            Instruction::SkipIfKeyNotPressed { x } => self.skip_on_key(x, false),
            Instruction::ReadDelayTimer { x } => self.set_register(x, self.delay_timer),
            Instruction::WaitForKey { x } => self.wait_for_key(x),
            Instruction::SetDelayTimer { x } => self.set_delay_timer(x),
            Instruction::SetSoundTimer { x } => self.set_sound_timer(x),
            Instruction::AddToIndex { x } => self.add_to_index(x),
            Instruction::FontAddress { x } => self.font_address(x),
            Instruction::StoreDecimal { x } => self.store_decimal(x),
            Instruction::StoreRegisters { x } => self.store_registers(x),
            Instruction::LoadRegisters { x } => self.load_registers(x),
        }
    }

    /// The instruction word at the program counter, if its two bytes lie within
    /// memory.
    fn fetch(&self) -> (word: Option<u16>)
        requires
            self.wf(),
        ensures
            self@.can_fetch() ==> word == Some(self@.fetch()),
            !self@.can_fetch() ==> word is None,
    {
        let pc = self.program_counter as usize;
        if pc + 1 < MEMORY_SIZE {
            Some(self.memory[pc] as u16 * 256 + self.memory[pc + 1] as u16)
        } else {
            None
        }
    }

    /// Perform a single step with `random` as the byte that the random source
    /// delivers: load the instruction at the program counter, move the program
    /// counter past it and execute the instruction.
    pub fn step_with(&mut self, random: u8) -> (result: Result<(), EmulatorError>)
        requires
            old(self).wf(),
        ensures
            final(self).wf(),
            result == old(self)@.step(random).1,
            final(self)@ == old(self)@.step(random).0,
    {
        let address = self.program_counter;
        let word = match self.fetch() {
            Some(word) => word,
            None => {
                return Err(
                    EmulatorError::Execution {
                        address,
                        instruction: 0,
                        source: ExecutionError::MemoryAccessOutOfBounds,
                    },
                );
            },
        };
        self.program_counter += 2;
        let outcome = match decode(word) {
            Some(instruction) => self.execute(instruction, random),
            None => Err(ExecutionError::UnknownInstruction(word)),
        };
        match outcome {
            Ok(_) => Ok(()),
            Err(source) => Err(EmulatorError::Execution { address, instruction: word, source }),
        }
    }

    /// Whether the next step executes the instruction that asks for a random
    /// byte.
    fn next_is_random(&self) -> (random: bool)
        requires
            self.wf(),
        ensures
            random == self@.draws_random(),
    {
        match self.fetch() {
            Some(word) => match decode(word) {
                Some(Instruction::Random { .. }) => true,
                _ => false,
            },
            None => false,
        }
    }

    /// Perform a single step, i.e. load the instruction at the program counter
    /// and execute it. The one instruction that asks for a random byte gets it
    /// from the random source, and the result is that of `step_with` for the
    /// byte that came. For every other instruction the byte does not matter and
    /// the result is that of `step_with` whatever byte it is given.
    pub fn step(&mut self) -> (result: Result<(), EmulatorError>)
        requires
            old(self).wf(),
        ensures
            final(self).wf(),
            exists|random: u8|
                result == (#[trigger] old(self)@.step(random)).1 && final(self)@ == old(
                    self,
                )@.step(random).0,
            !old(self)@.draws_random() ==> forall|random: u8|
                result == (#[trigger] old(self)@.step(random)).1 && final(self)@ == old(
                    self,
                )@.step(random).0,
    {
        let random = if self.next_is_random() {
            random_byte()
        } else {
            0
        };
        self.step_with(random)
    }
}

} // verus!
