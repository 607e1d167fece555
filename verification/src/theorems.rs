use vstd::arithmetic::div_mod::lemma_fundamental_div_mod_converse;
use vstd::prelude::*;
use crate::emulator::{
    tick_budget, Host, ProgramState, Request, ResponseView, TIMER_INTERVAL_MICROS,
};
use crate::error::{EmulatorError, ExecutionError, LoadingError};
use crate::font::FONT;
use crate::instruction::{spec_decode, spec_encode, Instruction};
use crate::keys::{key_of, lemma_key_code_round_trip, Key};
use crate::machine::{
    lowest_key_from, released_key, KeyWait, Machine, BYTES_PER_CHAR, FLAG_REGISTER_INDEX,
    FONT_START_ADDR, MEMORY_SIZE, NUM_FONT_CHARS, ROM_START_ADDR,
};
use crate::settings::InstructionSettings;
use crate::sprite::{collides, drawn, sprite_at, DISPLAY_HEIGHT, DISPLAY_SIZE, DISPLAY_WIDTH};

verus! {

/// Every instruction that a word decodes to has fields that fit their bits.
pub proof fn lemma_decoded_is_well_formed(word: u16)
    ensures
        spec_decode(word) matches Some(instruction) ==> instruction.wf(),
{
}

/// The four nibbles of a word are its digits to the base 16.
proof fn lemma_nibbles(n0: int, x: int, y: int, n: int)
    requires
        0 <= n0 < 16,
        0 <= x < 16,
        0 <= y < 16,
        0 <= n < 16,
    ensures
        ({
            let word = n0 * 4096 + x * 256 + y * 16 + n;
            &&& 0 <= word < 0x10000
            &&& word / 4096 == n0
            &&& word / 256 % 16 == x
            &&& word / 16 % 16 == y
            &&& word % 16 == n
            &&& word % 256 == y * 16 + n
            &&& word % 4096 == x * 256 + y * 16 + n
        }),
{
    let word = n0 * 4096 + x * 256 + y * 16 + n;
    lemma_fundamental_div_mod_converse(word, 4096, n0, x * 256 + y * 16 + n);
    lemma_fundamental_div_mod_converse(word, 256, n0 * 16 + x, y * 16 + n);
    lemma_fundamental_div_mod_converse(n0 * 16 + x, 16, n0, x);
    lemma_fundamental_div_mod_converse(word, 16, n0 * 256 + x * 16 + y, n);
    lemma_fundamental_div_mod_converse(n0 * 256 + x * 16 + y, 16, n0 * 16 + x, y);
}

/// Decoding undoes encoding: the word of an instruction whose fields fit their
/// bits decodes to that instruction.
pub proof fn lemma_decode_inverts_encode(instruction: Instruction)
    requires
        instruction.wf(),
    ensures
        0 <= spec_encode(instruction) < 0x10000,
        spec_decode(spec_encode(instruction) as u16) == Some(instruction),
{
    match instruction {
        Instruction::ClearScreen => {
            lemma_nibbles(0, 0, 0xe, 0);
        },
        Instruction::Return => {
            lemma_nibbles(0, 0, 0xe, 0xe);
        },
        Instruction::Jump(address) => {
            lemma_nibbles(1, address as int / 256, address as int / 16 % 16, address as int % 16);
        },
        Instruction::Call(address) => {
            lemma_nibbles(2, address as int / 256, address as int / 16 % 16, address as int % 16);
        },
        Instruction::SkipIfEqual { x, nn } => {
            lemma_nibbles(3, x as int, nn as int / 16, nn as int % 16);
        },
        Instruction::SkipIfNotEqual { x, nn } => {
            lemma_nibbles(4, x as int, nn as int / 16, nn as int % 16);
        },
        Instruction::SkipIfRegistersEqual { x, y } => {
            lemma_nibbles(5, x as int, y as int, 0);
        },
        Instruction::LoadImmediate { x, nn } => {
            lemma_nibbles(6, x as int, nn as int / 16, nn as int % 16);
        },
        Instruction::AddImmediate { x, nn } => {
            lemma_nibbles(7, x as int, nn as int / 16, nn as int % 16);
        },
        Instruction::Move { x, y } => {
            lemma_nibbles(8, x as int, y as int, 0);
        },
        Instruction::Or { x, y } => {
            lemma_nibbles(8, x as int, y as int, 1);
        },
        Instruction::And { x, y } => {
            lemma_nibbles(8, x as int, y as int, 2);
        },
        Instruction::Xor { x, y } => {
            lemma_nibbles(8, x as int, y as int, 3);
        },
        Instruction::Add { x, y } => {
            lemma_nibbles(8, x as int, y as int, 4);
        },
        Instruction::Subtract { x, y } => {
            lemma_nibbles(8, x as int, y as int, 5);
        },
        Instruction::ShiftRight { x, y } => {
            lemma_nibbles(8, x as int, y as int, 6);
        },
        Instruction::SubtractReversed { x, y } => {
            lemma_nibbles(8, x as int, y as int, 7);
        },
        Instruction::ShiftLeft { x, y } => {
            lemma_nibbles(8, x as int, y as int, 0xe);
        },
        Instruction::SkipIfRegistersNotEqual { x, y } => {
            lemma_nibbles(9, x as int, y as int, 0);
        },
        Instruction::LoadIndex(address) => {
            lemma_nibbles(0xa, address as int / 256, address as int / 16 % 16, address as int % 16);
        },
        Instruction::JumpWithOffset(address) => {
            lemma_nibbles(0xb, address as int / 256, address as int / 16 % 16, address as int % 16);
        },
        Instruction::Random { x, nn } => {
            lemma_nibbles(0xc, x as int, nn as int / 16, nn as int % 16);
        },
        Instruction::Draw { x, y, rows } => {
            lemma_nibbles(0xd, x as int, y as int, rows as int);
        },
        Instruction::SkipIfKeyPressed { x } => {
            lemma_nibbles(0xe, x as int, 0x9, 0xe);
        },
        Instruction::SkipIfKeyNotPressed { x } => {
            lemma_nibbles(0xe, x as int, 0xa, 0x1);
        },
        Instruction::ReadDelayTimer { x } => {
            lemma_nibbles(0xf, x as int, 0x0, 0x7);
        },
        Instruction::WaitForKey { x } => {
            lemma_nibbles(0xf, x as int, 0x0, 0xa);
        },
        Instruction::SetDelayTimer { x } => {
            lemma_nibbles(0xf, x as int, 0x1, 0x5);
        },
        Instruction::SetSoundTimer { x } => {
            lemma_nibbles(0xf, x as int, 0x1, 0x8);
        },
        Instruction::AddToIndex { x } => {
            lemma_nibbles(0xf, x as int, 0x1, 0xe);
        },
        Instruction::FontAddress { x } => {
            lemma_nibbles(0xf, x as int, 0x2, 0x9);
        },
        Instruction::StoreDecimal { x } => {
            lemma_nibbles(0xf, x as int, 0x3, 0x3);
        },
        Instruction::StoreRegisters { x } => {
            lemma_nibbles(0xf, x as int, 0x5, 0x5);
        },
        Instruction::LoadRegisters { x } => {
            lemma_nibbles(0xf, x as int, 0x6, 0x5);
        },
    }
}

/// Whether `word` decodes to nothing or to an instruction with fitting fields
/// of which it is the word.
pub open spec fn decodes_to_its_instruction(word: u16) -> bool {
    spec_decode(word) matches Some(instruction) ==> instruction.wf() && spec_encode(instruction)
        == word
}

/// The words that start with a nibble from 0 to 7 decode to their instructions.
#[verifier::rlimit(30)]
proof fn lemma_decodes_flow_and_immediates(word: u16)
    requires
        word as int / 4096 < 0x8,
    ensures
        decodes_to_its_instruction(word),
{
    lemma_nibbles(
        word as int / 4096,
        word as int / 256 % 16,
        word as int / 16 % 16,
        word as int % 16,
    );
}

/// The words that start with the nibble 8 decode to their instructions.
#[verifier::rlimit(30)]
proof fn lemma_decodes_arithmetic(word: u16)
    requires
        word as int / 4096 == 0x8,
    ensures
        decodes_to_its_instruction(word),
{
    lemma_nibbles(
        word as int / 4096,
        word as int / 256 % 16,
        word as int / 16 % 16,
        word as int % 16,
    );
}

/// The words that start with a nibble from 9 to D decode to their instructions.
#[verifier::rlimit(30)]
proof fn lemma_decodes_memory_and_display(word: u16)
    requires
        0x9 <= word as int / 4096 <= 0xd,
    ensures
        decodes_to_its_instruction(word),
{
    lemma_nibbles(
        word as int / 4096,
        word as int / 256 % 16,
        word as int / 16 % 16,
        word as int % 16,
    );
}

/// The words that start with the nibble E decode to their instructions.
#[verifier::rlimit(30)]
proof fn lemma_decodes_key_tests(word: u16)
    requires
        word as int / 4096 == 0xe,
    ensures
        decodes_to_its_instruction(word),
{
    lemma_nibbles(
        word as int / 4096,
        word as int / 256 % 16,
        word as int / 16 % 16,
        word as int % 16,
    );
}

/// The words that start with the nibble F decode to their instructions.
#[verifier::rlimit(30)]
proof fn lemma_decodes_timers_and_memory(word: u16)
    requires
        word as int / 4096 == 0xf,
    ensures
        decodes_to_its_instruction(word),
{
    lemma_nibbles(
        word as int / 4096,
        word as int / 256 % 16,
        word as int / 16 % 16,
        word as int % 16,
    );
}

/// Encoding undoes decoding: a word decodes to no instruction but the one that
/// it is the word of, so a word that is the word of no instruction with
/// fitting fields is unknown.
pub proof fn lemma_encode_inverts_decode(word: u16)
    ensures
        decodes_to_its_instruction(word),
{
    let family = word as int / 4096;
    if family < 0x8 {
        lemma_decodes_flow_and_immediates(word);
    } else if family == 0x8 {
        lemma_decodes_arithmetic(word);
    } else if family <= 0xd {
        lemma_decodes_memory_and_display(word);
    } else if family == 0xe {
        lemma_decodes_key_tests(word);
    } else {
        lemma_decodes_timers_and_memory(word);
    }
}

/// Addition sets the flag register to 1 if and only if the sum of the two
/// registers exceeds 255, and to 0 otherwise.
pub proof fn lemma_add_flags_carry(machine: Machine, x: u8, y: u8, random: u8)
    requires
        machine.wf(),
        machine.next_is(Instruction::Add { x, y }),
    ensures
        machine.step(random).1 == Ok::<(), EmulatorError>(()),
        machine.reg(x) + machine.reg(y) > 255 ==> machine.step(random).0.reg(FLAG_REGISTER_INDEX)
            == 1,
        machine.reg(x) + machine.reg(y) <= 255 ==> machine.step(random).0.reg(
            FLAG_REGISTER_INDEX,
        ) == 0,
        x != FLAG_REGISTER_INDEX ==> machine.step(random).0.reg(x) == (machine.reg(x)
            + machine.reg(y)) % 256,
{
    lemma_decoded_is_well_formed(machine.fetch());
}

/// Subtraction, in either order of the operands, sets the flag register to 1 if
/// and only if no borrow was needed, that is if the minuend is at least the
/// subtrahend, and to 0 otherwise.
pub proof fn lemma_subtract_flags_no_borrow(machine: Machine, x: u8, y: u8, random: u8)
    requires
        machine.wf(),
    ensures
        machine.next_is(Instruction::Subtract { x, y }) ==> machine.step(random).1 == Ok::<
            (),
            EmulatorError,
        >(())
            && machine.step(random).0.reg(FLAG_REGISTER_INDEX) == (if machine.reg(x)
            >= machine.reg(y) {
            1u8
        } else {
            0u8
        }),
        machine.next_is(Instruction::SubtractReversed { x, y }) ==> machine.step(random).1 == Ok::<
            (),
            EmulatorError,
        >(())
            && machine.step(random).0.reg(FLAG_REGISTER_INDEX) == (if machine.reg(y)
            >= machine.reg(x) {
            1u8
        } else {
            0u8
        }),
{
    lemma_decoded_is_well_formed(machine.fetch());
}

/// A sprite touches no pixel outside the rectangle of eight columns and as many
/// rows as it has that starts at its position: what lies beyond the right or
/// lower edge is cut off, and no pixel to the left of or above the position
/// changes.
pub proof fn lemma_sprite_is_clipped(display: Seq<bool>, rows: Seq<u8>, x0: int, y0: int, i: int)
    requires
        0 <= i < display.len(),
    ensures
        sprite_at(rows, x0, y0, i) ==> x0 <= i % (DISPLAY_WIDTH as int) < x0 + 8 && y0 <= i / (
        DISPLAY_WIDTH as int) < y0 + rows.len(),
        !(x0 <= i % (DISPLAY_WIDTH as int) < x0 + 8 && y0 <= i / (DISPLAY_WIDTH as int) < y0
            + rows.len()) ==> drawn(display, rows, x0, y0)[i] == display[i],
{
}

/// Drawing the same sprite twice at the same place gives the display back as
/// it was. The second drawing switches a pixel off, and so reports a
/// collision, if and only if the first one switched a pixel on.
pub proof fn lemma_draw_twice_restores(display: Seq<bool>, rows: Seq<u8>, x0: int, y0: int)
    ensures
        drawn(drawn(display, rows, x0, y0), rows, x0, y0) == display,
        collides(drawn(display, rows, x0, y0), rows, x0, y0) <==> exists|i: int|
            0 <= i < display.len() && !display[i] && #[trigger] sprite_at(rows, x0, y0, i),
{
    let once = drawn(display, rows, x0, y0);
    assert(drawn(once, rows, x0, y0) =~= display);
    if collides(once, rows, x0, y0) {
        let w = choose|i: int| 0 <= i < once.len() && once[i] && #[trigger] sprite_at(
            rows,
            x0,
            y0,
            i,
        );
        assert(!display[w] && sprite_at(rows, x0, y0, w));
    }
    if exists|i: int| 0 <= i < display.len() && !display[i] && #[trigger] sprite_at(rows, x0, y0, i) {
        let w = choose|i: int|
            0 <= i < display.len() && !display[i] && #[trigger] sprite_at(rows, x0, y0, i);
        assert(once[w] && sprite_at(rows, x0, y0, w));
    }
}

/// Two draw instructions in a row, with registers other than the flag register
/// holding the position: the second one puts the display back and sets the
/// flag register to 1 if and only if the first one switched a pixel on.
pub proof fn lemma_draw_instruction_twice(machine: Machine, x: u8, y: u8, rows: u8)
    requires
        machine.wf(),
        x < FLAG_REGISTER_INDEX,
        y < FLAG_REGISTER_INDEX,
        machine.draw(x, y, rows).1 is Ok,
    ensures
        ({
            let once = machine.draw(x, y, rows).0;
            let twice = once.draw(x, y, rows).0;
            let sprite = machine.memory.subrange(
                machine.index_register as int,
                machine.index_register + machine.sprite_rows(y, rows),
            );
            &&& once.draw(x, y, rows).1 == Ok::<(), ExecutionError>(())
            &&& twice.display == machine.display
            &&& twice.reg(FLAG_REGISTER_INDEX) == 1 <==> exists|i: int|
                0 <= i < DISPLAY_SIZE && !machine.display[i] && #[trigger] sprite_at(
                    sprite,
                    machine.sprite_x(x),
                    machine.sprite_y(y),
                    i,
                )
            &&& twice.reg(FLAG_REGISTER_INDEX) == 0 || twice.reg(FLAG_REGISTER_INDEX) == 1
        }),
{
    let sprite = machine.memory.subrange(
        machine.index_register as int,
        machine.index_register + machine.sprite_rows(y, rows),
    );
    lemma_draw_twice_restores(machine.display, sprite, machine.sprite_x(x), machine.sprite_y(y));
}

/// The position of a sprite wraps around the display once: only the column
/// modulo 64 and the row modulo 32 count.
pub proof fn lemma_sprite_position_wraps(machine: Machine, x: u8, y: u8, rows: u8)
    requires
        machine.wf(),
        x < FLAG_REGISTER_INDEX,
        y < FLAG_REGISTER_INDEX,
        x != y,
    ensures
        ({
            let wrapped = machine.with_register(
                x,
                machine.reg(x) % DISPLAY_WIDTH,
            ).with_register(y, machine.reg(y) % DISPLAY_HEIGHT);
            &&& 0 <= machine.sprite_x(x) < DISPLAY_WIDTH
            &&& 0 <= machine.sprite_y(y) < DISPLAY_HEIGHT
            &&& machine.draw(x, y, rows).1 == wrapped.draw(x, y, rows).1
            &&& machine.draw(x, y, rows).0.display == wrapped.draw(x, y, rows).0.display
            &&& machine.draw(x, y, rows).0.reg(FLAG_REGISTER_INDEX) == wrapped.draw(
                x,
                y,
                rows,
            ).0.reg(FLAG_REGISTER_INDEX)
        }),
{
}

/// The key that `lowest_key_from` finds is in the set, has a keypad value of
/// at least `from`, and no key of the set from `from` on has a lower one; it
/// finds none only if the set holds no key from `from` on.
pub proof fn lemma_lowest_key_from(keys: Set<Key>, from: u8)
    ensures
        match lowest_key_from(keys, from) {
            Some(key) => keys.contains(key) && key.spec_code() >= from && forall|other: Key|
                keys.contains(other) && other.spec_code() >= from ==> key.spec_code()
                    <= other.spec_code(),
            None => forall|other: Key| keys.contains(other) ==> other.spec_code() < from,
        },
    decreases 16 - from,
{
    lemma_key_code_round_trip();
    if from < 16 {
        if !keys.contains(key_of(from).unwrap()) {
            lemma_lowest_key_from(keys, (from + 1) as u8);
            assert forall|other: Key|
                keys.contains(other) && other.spec_code() >= from implies other.spec_code() >= from
                + 1 by {
                if other.spec_code() == from {
                    assert(key_of(other.spec_code()) == Some(other));
                }
            }
        }
    }
}

/// The key that a wait reports was held before and is not held now. None is
/// reported only if every key that was held before is still held.
pub proof fn lemma_released_key_was_released(before: Set<Key>, now: Set<Key>)
    ensures
        match released_key(before, now) {
            Some(key) => before.contains(key) && !now.contains(key),
            None => forall|key: Key| before.contains(key) ==> now.contains(key),
        },
{
    lemma_lowest_key_from(before.difference(now), 0);
    if released_key(before, now) is None {
        assert forall|key: Key| before.contains(key) implies now.contains(key) by {
            if !now.contains(key) {
                assert(before.difference(now).contains(key));
            }
        }
    }
}

/// The instruction that waits for a key. While no key that was held at the
/// last look is released, the program counter stays at the instruction and the
/// registers stay as they are. Once one is released, the destination register
/// receives the keypad value of a released key, the wait is over and the
/// program counter is past the instruction.
pub proof fn lemma_wait_for_key(machine: Machine, x: u8, random: u8)
    requires
        machine.wf(),
        machine.next_is(Instruction::WaitForKey { x }),
    ensures
        ({
            let (after, outcome) = machine.step(random);
            &&& outcome == Ok::<(), EmulatorError>(())
            &&& after.memory == machine.memory
            &&& machine.wait is Idle ==> after == (Machine {
                wait: KeyWait::AwaitingRelease(machine.keys),
                ..machine
            })
            &&& machine.wait matches KeyWait::AwaitingRelease(before) ==> if (forall|key: Key|
                before.contains(key) ==> machine.keys.contains(key)) {
                after == (Machine { wait: KeyWait::AwaitingRelease(machine.keys), ..machine })
            } else {
                &&& after.program_counter == machine.program_counter + 2
                &&& after.wait is Idle
                &&& exists|key: Key|
                    before.contains(key) && !machine.keys.contains(key) && after.reg(x)
                        == #[trigger] key.spec_code()
                &&& forall|r: u8| r < 16 && r != x ==> after.reg(r) == machine.reg(r)
            }
        }),
{
    lemma_decoded_is_well_formed(machine.fetch());
    let (after, outcome) = machine.step(random);
    match machine.wait {
        KeyWait::Idle => {
            assert(after =~= (Machine { wait: KeyWait::AwaitingRelease(machine.keys), ..machine }));
        },
        KeyWait::AwaitingRelease(before) => {
            lemma_released_key_was_released(before, machine.keys);
            match released_key(before, machine.keys) {
                Some(key) => {
                    assert(before.contains(key) && !machine.keys.contains(key) && after.reg(x)
                        == key.spec_code());
                },
                None => {
                    assert(after =~= (Machine {
                        wait: KeyWait::AwaitingRelease(machine.keys),
                        ..machine
                    }));
                },
            }
        },
    }
}

/// A machine that waits for a key and whose held keys do not change never gets
/// past the waiting instruction, however many steps it makes.
pub proof fn lemma_wait_never_ends_without_release(machine: Machine, x: u8, randoms: Seq<u8>)
    requires
        machine.wf(),
        machine.next_is(Instruction::WaitForKey { x }),
        machine.wait matches KeyWait::AwaitingRelease(before) ==> (forall|key: Key|
            before.contains(key) ==> machine.keys.contains(key)),
    ensures
        machine.run(randoms).1 is None,
        machine.run(randoms).0 == if randoms.len() == 0 {
            machine
        } else {
            Machine { wait: KeyWait::AwaitingRelease(machine.keys), ..machine }
        },
    decreases randoms.len(),
{
    if randoms.len() > 0 {
        lemma_wait_never_ends_without_release(machine, x, randoms.drop_last());
        let reached = machine.run(randoms.drop_last()).0;
        lemma_wait_for_key(reached, x, randoms.last());
        assert(machine.run(randoms).0 =~= (Machine {
            wait: KeyWait::AwaitingRelease(machine.keys),
            ..machine
        }));
    }
}

/// A return with an empty stack fails with a stack underflow that names the
/// address and the word of the instruction. Nothing changes but the program
/// counter, which is already past the instruction.
pub proof fn lemma_return_on_empty_stack(machine: Machine, random: u8)
    requires
        machine.wf(),
        machine.next_is(Instruction::Return),
        machine.stack.len() == 0,
    ensures
        machine.step(random).1 == Err::<(), EmulatorError>(
            EmulatorError::Execution {
                address: machine.program_counter,
                instruction: 0x00ee,
                source: ExecutionError::StackUnderflow,
            },
        ),
        machine.step(random).0 == machine.at((machine.program_counter + 2) as u16),
{
}

/// A failed step names the address from which the instruction was fetched, or
/// would have been.
pub proof fn lemma_failure_names_address(machine: Machine, random: u8)
    requires
        machine.wf(),
    ensures
        machine.step(random).1 matches Err(error) ==> error matches EmulatorError::Execution {
            address,
            instruction,
            ..
        } && address == machine.program_counter && (machine.can_fetch() ==> instruction
            == machine.fetch()),
{
}

/// An instruction keeps the machine well-formed and never touches the
/// settings or the keys that are held.
pub proof fn lemma_execute_preserves(machine: Machine, instruction: Instruction, random: u8)
    requires
        machine.wf(),
        instruction.wf(),
    ensures
        machine.execute(instruction, random).0.wf(),
        machine.execute(instruction, random).0.settings == machine.settings,
        machine.execute(instruction, random).0.keys == machine.keys,
{
    match instruction {
        Instruction::Draw { x, y, rows } => {
            assert(machine.draw(x, y, rows).0.wf());
        },
        Instruction::WaitForKey { x } => {
            assert(machine.wait_for_key(x).wf());
        },
        Instruction::StoreDecimal { x } => {
            assert(machine.store_decimal(x).0.wf());
        },
        Instruction::StoreRegisters { x } => {
            assert(machine.store_registers(x).0.wf());
        },
        Instruction::LoadRegisters { x } => {
            assert(machine.load_registers(x).0.wf());
        },
        _ => {},
    }
}

/// A step keeps the machine well-formed and never touches the settings or the
/// keys that are held.
pub proof fn lemma_step_preserves(machine: Machine, random: u8)
    requires
        machine.wf(),
    ensures
        machine.step(random).0.wf(),
        machine.step(random).0.settings == machine.settings,
        machine.step(random).0.keys == machine.keys,
{
    if machine.can_fetch() {
        lemma_decoded_is_well_formed(machine.fetch());
        match spec_decode(machine.fetch()) {
            Some(instruction) => {
                lemma_execute_preserves(
                    machine.at((machine.program_counter + 2) as u16),
                    instruction,
                    random,
                );
            },
            None => {},
        }
    }
}

/// Only the instruction that asks for a random byte depends on it.
pub proof fn lemma_random_only_matters_to_random(machine: Machine, a: u8, b: u8)
    requires
        !machine.draws_random(),
    ensures
        machine.step(a) == machine.step(b),
{
}

/// A jump to its own address leaves the machine exactly as it is.
pub proof fn lemma_self_jump_is_idle(machine: Machine, random: u8)
    requires
        machine.wf(),
        machine.next_is(Instruction::Jump(machine.program_counter)),
    ensures
        machine.step(random) == (machine, Ok::<(), EmulatorError>(())),
{
    assert(machine.step(random).0 =~= machine);
}

/// A machine at a jump to its own address stays as it is for any number of
/// steps.
pub proof fn lemma_self_jump_runs_forever(machine: Machine, randoms: Seq<u8>)
    requires
        machine.wf(),
        machine.next_is(Instruction::Jump(machine.program_counter)),
    ensures
        machine.run(randoms) == (machine, None::<EmulatorError>),
    decreases randoms.len(),
{
    if randoms.len() > 0 {
        lemma_self_jump_runs_forever(machine, randoms.drop_last());
        lemma_self_jump_is_idle(machine, randoms.last());
    }
}

/// A timer tick takes one off each timer that is not zero and leaves a timer
/// that is zero at zero; nothing else changes.
pub proof fn lemma_tick_counts_down(machine: Machine)
    ensures
        machine.tick().delay_timer == if machine.delay_timer == 0 {
            0
        } else {
            machine.delay_timer - 1
        },
        machine.tick().sound_timer == if machine.sound_timer == 0 {
            0
        } else {
            machine.sound_timer - 1
        },
        machine.tick() == (Machine {
            delay_timer: machine.tick().delay_timer,
            sound_timer: machine.tick().sound_timer,
            ..machine
        }),
{
}

/// The budget of a tick is the rate times the length of a tick, rounded up: the
/// least number of instructions that is not less than that product.
pub proof fn lemma_tick_budget_is_ceiling(instructions_per_second: nat)
    ensures
        tick_budget(instructions_per_second) * 1_000_000 >= instructions_per_second
            * TIMER_INTERVAL_MICROS,
        (tick_budget(instructions_per_second) - 1) * 1_000_000 < instructions_per_second
            * TIMER_INTERVAL_MICROS,
{
}

/// After a load the font stands at its address, the program at the load
/// address, and every other cell is zero.
pub proof fn lemma_loaded_memory(
    settings: InstructionSettings,
    keys: Set<Key>,
    program: Seq<u8>,
    address: int,
)
    requires
        program.len() <= MEMORY_SIZE - ROM_START_ADDR,
        0 <= address < MEMORY_SIZE,
    ensures
        ({
            let memory = Machine::loaded(settings, keys, program).memory;
            &&& Machine::loaded(settings, keys, program).wf()
            &&& FONT_START_ADDR <= address < FONT_START_ADDR + 80 ==> memory[address] == FONT@[address
                - FONT_START_ADDR]
            &&& ROM_START_ADDR <= address < ROM_START_ADDR + program.len() ==> memory[address]
                == program[address - ROM_START_ADDR]
            &&& !(FONT_START_ADDR <= address < FONT_START_ADDR + 80) && !(ROM_START_ADDR <= address
                < ROM_START_ADDR + program.len()) ==> memory[address] == 0
        }),
{
}

/// The instruction that asks for the glyph of a digit points the index
/// register at the first of the five rows of that glyph, wherever the font is
/// still in place; a value that is no digit changes nothing.
pub proof fn lemma_font_address_points_at_glyph(machine: Machine, x: u8, random: u8, row: int)
    requires
        machine.wf(),
        machine.next_is(Instruction::FontAddress { x }),
        forall|i: int| 0 <= i < 80 ==> machine.memory[FONT_START_ADDR + i] == FONT@[i],
        0 <= row < BYTES_PER_CHAR,
    ensures
        machine.step(random).1 == Ok::<(), EmulatorError>(()),
        machine.reg(x) < NUM_FONT_CHARS ==> machine.step(random).0.memory[machine.step(
            random,
        ).0.index_register + row] == FONT@[machine.reg(x) * BYTES_PER_CHAR + row],
        machine.reg(x) >= NUM_FONT_CHARS ==> machine.step(random).0 == machine.at(
            (machine.program_counter + 2) as u16,
        ),
{
    lemma_decoded_is_well_formed(machine.fetch());
    if machine.reg(x) < NUM_FONT_CHARS {
        let i = machine.reg(x) * BYTES_PER_CHAR + row;
        assert(0 <= i < 80) by (nonlinear_arith)
            requires
                i == machine.reg(x) * BYTES_PER_CHAR + row,
                0 <= machine.reg(x) < 16,
                BYTES_PER_CHAR == 5,
                0 <= row < 5,
        ;
        assert(machine.memory[FONT_START_ADDR + i] == FONT@[i]);
    }
}

/// The requests that are answered are the load of a program, the step and the
/// two queries; the others change the host in silence.
pub proof fn lemma_answered_requests(host: Host, request: Request, random: u8)
    ensures
        host.handle(request, random).1 is Some <==> (request is LoadProgram || request is Step
            || request is Display || request is State),
        (request is Display || request is State) ==> host.handle(request, random).0 == host,
{
}

/// A host that has no budget left over has none after a request either:
/// whatever a tick pays for is spent, or dropped at a failure, before the
/// request is done.
pub proof fn lemma_process_spends_budget(
    host: Host,
    request: Request,
    random: u8,
    randoms: Seq<u8>,
)
    requires
        host.budget == 0,
    ensures
        host.process(request, random, randoms).0.budget == 0,
{
}

/// A tick that reaches a stopped host without budget counts the timers down
/// and does nothing else: no instruction is executed and nothing is answered.
pub proof fn lemma_tick_while_stopped(host: Host, random: u8, randoms: Seq<u8>)
    requires
        host.state == ProgramState::Stopped,
    ensures
        host.process(Request::TimerTick, random, randoms) == (
            Host { machine: host.machine.tick(), ..host },
            Seq::<ResponseView>::empty(),
        ),
{
    assert(host.process(Request::TimerTick, random, randoms).1 =~= Seq::<ResponseView>::empty());
}

/// A tick that reaches a running host pays for the budget of its speed, which
/// is spent on steps of the machine after the timers were counted down. If a
/// step fails the host stops and the failure is the one response; else the
/// host runs on and nothing is answered.
pub proof fn lemma_tick_while_running(host: Host, random: u8, randoms: Seq<u8>)
    requires
        host.state == ProgramState::Running,
    ensures
        ({
            let (after, responses) = host.process(Request::TimerTick, random, randoms);
            let (machine, failure) = host.machine.tick().run(randoms);
            &&& host.handle(Request::TimerTick, random).0.budget == tick_budget(host.speed)
            &&& after.machine == machine
            &&& after.budget == 0
            &&& after.speed == host.speed
            &&& match failure {
                Some(error) => after.state == ProgramState::Stopped && responses == seq![
                    ResponseView::RunError(error),
                ],
                None => after.state == ProgramState::Running && responses == Seq::<
                    ResponseView,
                >::empty(),
            }
        }),
{
    let (after, responses) = host.process(Request::TimerTick, random, randoms);
    match host.machine.tick().run(randoms).1 {
        Some(error) => {
            assert(responses =~= seq![ResponseView::RunError(error)]);
        },
        None => {
            assert(responses =~= Seq::<ResponseView>::empty());
        },
    }
}

/// A program that is too large is rejected as a whole: the host is as it was
/// and the response carries the loading failure. A program that fits is
/// accepted, and the settings and the held keys stay.
pub proof fn lemma_load_is_all_or_nothing(host: Host, data: Vec<u8>, random: u8)
    ensures
        data@.len() > MEMORY_SIZE - ROM_START_ADDR ==> host.handle(
            Request::LoadProgram(data),
            random,
        ) == (
            host,
            Some(
                ResponseView::LoadProgram(Err(EmulatorError::Loading(LoadingError::RomTooLarge))),
            ),
        ),
        data@.len() <= MEMORY_SIZE - ROM_START_ADDR ==> host.handle(
            Request::LoadProgram(data),
            random,
        ).1 == Some(ResponseView::LoadProgram(Ok(()))) && host.handle(
            Request::LoadProgram(data),
            random,
        ).0.machine.settings == host.machine.settings && host.handle(
            Request::LoadProgram(data),
            random,
        ).0.machine.keys == host.machine.keys,
{
}

/// A step that was asked for is executed whether the host runs or not, and
/// its failure changes neither the state nor the budget of the host.
pub proof fn lemma_step_request_keeps_state(host: Host, random: u8)
    ensures
        host.handle(Request::Step, random).0 == (Host {
            machine: host.machine.step(random).0,
            ..host
        }),
        host.handle(Request::Step, random).1 == Some(
            ResponseView::Step(host.machine.step(random).1),
        ),
{
}

} // verus!
