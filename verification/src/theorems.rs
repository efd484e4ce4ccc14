//! What holds of the machine in general: statements over the model that
//! relate several instructions or many steps.

use vstd::prelude::*;
use crate::display::Sprite;
use crate::error::Chip8Error;
use crate::instruction::{
    decode_spec, encode, family_of, lemma_decode_encode, lemma_decoded_wf, Instruction,
};
use crate::keypad::{any_pressed, is_lowest_pressed, lemma_lowest_pressed};
use crate::machine::{Machine, MEMORY_SIZE, SCREEN_SIZE, STACK_SIZE};
use crate::semantics::{
    after_fault, apply, call, can_fetch, draw, execute, fetched, load_registers, ret, run,
    skip_on_key, step, store_decimal, store_registers, tick_timers, tick_timers_n,
};

verus! {

/// The opcode written for an instruction does what the instruction does.
pub proof fn lemma_execute_encoded(m: Machine, instruction: Instruction, random: u8)
    requires
        instruction.wf(),
    ensures
        execute(m, encode(instruction), random) == apply(m, instruction, random),
{
    lemma_decode_encode(instruction);
}

/// Loading `nn` into `VX` (`6XNN`) and then adding `nn2` to `VX` (`7XNN`)
/// leaves `(nn + nn2) mod 256` in `VX`, whatever the machine held before.
pub proof fn lemma_load_then_add(m: Machine, x: u8, nn: u8, nn2: u8, random: u8)
    requires
        m.wf(),
        x < 16,
    ensures
        ({
            &&& execute(m, encode(Instruction::Load { x, value: nn }), random) matches Ok(m1)
            &&& execute(m1, encode(Instruction::Add { x, value: nn2 }), random) matches Ok(m2)
            &&& m2.registers[x as int] == (nn + nn2) % 256
        }),
{
    lemma_execute_encoded(m, Instruction::Load { x, value: nn }, random);
    let m1 = m.with_register(x as int, nn);
    lemma_execute_encoded(m1, Instruction::Add { x, value: nn2 }, random);
}

/// A return resumes behind the call: after a call (`2NNN`) from a machine
/// whose program counter points behind the call instruction, a return
/// (`00EE`) from any machine that holds the stack the call left puts the
/// program counter behind the call instruction again and the stack back as
/// it was before the call.
pub proof fn lemma_return_resumes_after_call(
    m: Machine,
    addr: u16,
    callee: Machine,
    random: u8,
)
    requires
        m.wf(),
        addr < 0x1000,
        m.stack.len() < STACK_SIZE,
        ({
            &&& execute(m, encode(Instruction::Call { addr }), random) matches Ok(m1)
            &&& callee.stack == m1.stack
        }),
    ensures
        ({
            &&& execute(m, encode(Instruction::Call { addr }), random) matches Ok(m1)
            &&& m1.pc == addr
        }),
        ({
            &&& execute(callee, encode(Instruction::Return), random) matches Ok(m2)
            &&& m2.pc == m.pc
            &&& m2.stack == m.stack
        }),
{
    lemma_execute_encoded(m, Instruction::Call { addr }, random);
    lemma_execute_encoded(callee, Instruction::Return, random);
    assert(m.stack.push(m.pc as u16).drop_last() =~= m.stack);
}

/// A call straight to a return: where the instruction at the program
/// counter is a call (`2NNN`), the stack has room and the instruction at
/// `NNN` is a return (`00EE`), two steps lead to the instruction that
/// follows the call, and nothing but the program counter has changed.
pub proof fn lemma_call_then_return(m: Machine, addr: u16, random: u8)
    requires
        m.wf(),
        can_fetch(m),
        addr < 0x1000,
        m.word_at(m.pc) == encode(Instruction::Call { addr }),
        m.stack.len() < STACK_SIZE,
        addr + 1 < MEMORY_SIZE,
        m.word_at(addr as int) == encode(Instruction::Return),
    ensures
        ({
            &&& step(m, random) matches Ok(m1)
            &&& m1.pc == addr
            &&& step(m1, random) matches Ok(m2)
            &&& m2 == fetched(m)
        }),
{
    lemma_execute_encoded(fetched(m), Instruction::Call { addr }, random);
    let m1 = Machine {
        pc: addr as int,
        stack: fetched(m).stack.push(fetched(m).pc as u16),
        ..fetched(m)
    };
    assert(step(m, random) == Ok::<Machine, Chip8Error>(m1));
    lemma_execute_encoded(fetched(m1), Instruction::Return, random);
    assert(m1.stack.drop_last() =~= m.stack);
}

/// Drawing is its own inverse: a sprite drawn twice onto a screen leaves
/// the screen as it was.
pub proof fn lemma_drawn_twice(sprite: Sprite, screen: Seq<bool>)
    requires
        screen.len() == SCREEN_SIZE,
    ensures
        sprite.drawn_onto(sprite.drawn_onto(screen)) == screen,
{
    assert(sprite.drawn_onto(sprite.drawn_onto(screen)) =~= screen);
}

/// The second of two draws collides exactly where the first switched a
/// pixel on: on a pixel that the sprite covers and that was off before.
pub proof fn lemma_second_draw_collides(sprite: Sprite, screen: Seq<bool>)
    requires
        screen.len() == SCREEN_SIZE,
    ensures
        sprite.collides_with(sprite.drawn_onto(screen)) <==> exists|p: int|
            0 <= p < SCREEN_SIZE && #[trigger] sprite.covers_index(p) && !screen[p],
{
    let once = sprite.drawn_onto(screen);
    if sprite.collides_with(once) {
        let p = choose|p: int| 0 <= p < SCREEN_SIZE && #[trigger] sprite.covers_index(p) && once[p];
        assert(sprite.covers_index(p) && !screen[p]);
    }
    if exists|p: int| 0 <= p < SCREEN_SIZE && #[trigger] sprite.covers_index(p) && !screen[p] {
        let p = choose|p: int|
            0 <= p < SCREEN_SIZE && #[trigger] sprite.covers_index(p) && !screen[p];
        assert(sprite.covers_index(p) && once[p]);
    }
}

/// Two draws of one sprite at one place (`DXYN` twice): where the first
/// draw succeeds and leaves `VX` and `VY` as they were, the second
/// succeeds too and restores the framebuffer, and it sets `VF` to 1 exactly
/// if the first draw left a pixel of the sprite on, else to 0.
pub proof fn lemma_draw_twice(m: Machine, x: u8, y: u8, rows: u8, random: u8)
    requires
        m.wf(),
        x < 16,
        y < 16,
        rows < 16,
        ({
            &&& execute(m, encode(Instruction::Draw { x, y, rows }), random) matches Ok(m1)
            &&& m1.registers[x as int] == m.registers[x as int]
            &&& m1.registers[y as int] == m.registers[y as int]
        }),
    ensures
        ({
            let sprite = m.sprite(x as int, y as int, rows as int);
            &&& execute(m, encode(Instruction::Draw { x, y, rows }), random) matches Ok(m1)
            &&& execute(m1, encode(Instruction::Draw { x, y, rows }), random) matches Ok(m2)
            &&& m2.screen == m.screen
            &&& m2.registers[0xF] == 1 || m2.registers[0xF] == 0
            &&& m2.registers[0xF] == 1 <==> exists|p: int|
                0 <= p < SCREEN_SIZE && #[trigger] sprite.covers_index(p) && m1.screen[p]
        }),
{
    let instruction = Instruction::Draw { x, y, rows };
    lemma_execute_encoded(m, instruction, random);
    let m1 = draw(m, x as int, y as int, rows as int)->Ok_0;
    lemma_execute_encoded(m1, instruction, random);
    let sprite = m.sprite(x as int, y as int, rows as int);
    assert(m1.sprite(x as int, y as int, rows as int) == sprite);
    lemma_drawn_twice(sprite, m.screen);
}

/// Waiting for a key with none pressed (`FX0A`): the step changes nothing
/// at all, so the same instruction is fetched again by the next step.
pub proof fn lemma_wait_key_idle(m: Machine, x: u8, random: u8)
    requires
        m.wf(),
        x < 16,
        can_fetch(m),
        m.word_at(m.pc) == encode(Instruction::WaitKey { x }),
        !any_pressed(m.keys),
    ensures
        step(m, random) == Ok::<Machine, Chip8Error>(m),
{
    lemma_execute_encoded(fetched(m), Instruction::WaitKey { x }, random);
}

/// Waiting for a key with none pressed, over any number of steps: the
/// machine stays as it is.
pub proof fn lemma_wait_key_idles(m: Machine, x: u8, randoms: Seq<u8>)
    requires
        m.wf(),
        x < 16,
        can_fetch(m),
        m.word_at(m.pc) == encode(Instruction::WaitKey { x }),
        !any_pressed(m.keys),
    ensures
        run(m, randoms) == Ok::<Machine, Chip8Error>(m),
    decreases randoms.len(),
{
    if randoms.len() > 0 {
        lemma_wait_key_idle(m, x, randoms[0]);
        lemma_wait_key_idles(m, x, randoms.subrange(1, randoms.len() as int));
    }
}

/// Waiting for a key with one pressed (`FX0A`): the step moves on to the
/// next instruction and leaves in `VX` the index of a pressed key below
/// which no key is pressed. Nothing else changes.
pub proof fn lemma_wait_key_pressed(m: Machine, x: u8, random: u8)
    requires
        m.wf(),
        x < 16,
        can_fetch(m),
        m.word_at(m.pc) == encode(Instruction::WaitKey { x }),
        any_pressed(m.keys),
    ensures
        ({
            &&& step(m, random) matches Ok(m1)
            &&& m1.pc == m.pc + 2
            &&& is_lowest_pressed(m.keys, m1.registers[x as int] as int)
            &&& m1 == fetched(m).with_register(x as int, m1.registers[x as int])
        }),
{
    lemma_execute_encoded(fetched(m), Instruction::WaitKey { x }, random);
    let k = choose|k: int| 0 <= k < m.keys.len() && m.keys[k];
    lemma_lowest_pressed(m.keys, k);
}

/// The timers after `n` ticks: each has gone down by `n`, but not below
/// zero. Nothing else changes.
pub proof fn lemma_timers_after_ticks(m: Machine, n: nat)
    ensures
        tick_timers_n(m, n) == (Machine {
            delay_timer: if m.delay_timer >= n {
                (m.delay_timer - n) as u8
            } else {
                0
            },
            sound_timer: if m.sound_timer >= n {
                (m.sound_timer - n) as u8
            } else {
                0
            },
            ..m
        }),
    decreases n,
{
    if n > 0 {
        lemma_timers_after_ticks(tick_timers(m), (n - 1) as nat);
    }
}

/// The machine keeps its shape: a step from a well-formed machine leads to
/// a well-formed machine, whether it succeeds or fails. In particular the
/// stack never holds more than sixteen addresses and the program counter
/// and the index register stay 16-bit values.
pub proof fn lemma_step_preserves_wf(m: Machine, random: u8)
    requires
        m.wf(),
    ensures
        step(m, random) matches Ok(next) ==> next.wf(),
        after_fault(m).wf(),
{
    if can_fetch(m) {
        let op = m.word_at(m.pc);
        lemma_decoded_wf(op);
        match decode_spec(op) {
            Some(instruction) => {
                lemma_apply_preserves_wf(fetched(m), instruction, random);
            },
            None => {},
        }
    }
}

/// One instruction keeps the machine's shape, given that the program
/// counter points behind an instruction that was fetched from memory.
pub proof fn lemma_apply_preserves_wf(m: Machine, instruction: Instruction, random: u8)
    requires
        m.wf(),
        2 <= m.pc <= MEMORY_SIZE,
        instruction.wf(),
    ensures
        apply(m, instruction, random) matches Ok(next) ==> next.wf(),
{
    match instruction {
        Instruction::WaitKey { x } => {
            if any_pressed(m.keys) {
                let k = choose|k: int| 0 <= k < m.keys.len() && m.keys[k];
                lemma_lowest_pressed(m.keys, k);
            }
        },
        Instruction::Draw { x, y, rows } => {
            assert(draw(m, x as int, y as int, rows as int) matches Ok(next) ==> next.wf());
        },
        Instruction::StoreDecimal { x } => {
            assert(store_decimal(m, x as int) matches Ok(next) ==> next.wf());
        },
        Instruction::StoreRegisters { x } => {
            assert(store_registers(m, x as int) matches Ok(next) ==> next.wf());
        },
        Instruction::LoadRegisters { x } => {
            assert(load_registers(m, x as int) matches Ok(next) ==> next.wf());
        },
        Instruction::SkipIfKey { x } => {
            assert(skip_on_key(m, x as int, true) matches Ok(next) ==> next.wf());
        },
        Instruction::SkipIfNotKey { x } => {
            assert(skip_on_key(m, x as int, false) matches Ok(next) ==> next.wf());
        },
        Instruction::Call { addr } => {
            assert(call(m, addr) matches Ok(next) ==> next.wf());
        },
        Instruction::Return => {
            assert(ret(m) matches Ok(next) ==> next.wf());
        },
        _ => {},
    }
}

/// No instruction touches the key latches: they are the host's to set and
/// to clear.
pub proof fn lemma_step_keeps_keys(m: Machine, random: u8)
    ensures
        step(m, random) matches Ok(next) ==> next.keys == m.keys,
        after_fault(m).keys == m.keys,
{
    if can_fetch(m) {
        match decode_spec(m.word_at(m.pc)) {
            Some(instruction) => {
                lemma_apply_keeps_keys(fetched(m), instruction, random);
            },
            None => {},
        }
    }
}

/// One instruction leaves the key latches as they are.
pub proof fn lemma_apply_keeps_keys(m: Machine, instruction: Instruction, random: u8)
    ensures
        apply(m, instruction, random) matches Ok(next) ==> next.keys == m.keys,
{
}

/// No instruction counts a timer down. A step leaves the delay timer as it
/// is unless the instruction sets it (`FX15`), and the sound timer as it is
/// unless the instruction sets it (`FX18`); the timer set holds `VX`.
pub proof fn lemma_step_sets_timers_only(m: Machine, random: u8)
    requires
        can_fetch(m),
    ensures
        step(m, random) matches Ok(next) ==> ({
            let instruction = decode_spec(m.word_at(m.pc));
            &&& next.delay_timer == (match instruction {
                Some(Instruction::SetDelay { x }) => m.registers[x as int],
                _ => m.delay_timer,
            })
            &&& next.sound_timer == (match instruction {
                Some(Instruction::SetSound { x }) => m.registers[x as int],
                _ => m.sound_timer,
            })
        }),
{
}

/// Only the random instruction (`CXNN`) looks at the random byte: a step
/// that fetches an opcode of another family does the same for every byte.
pub proof fn lemma_random_byte_unused(m: Machine, random1: u8, random2: u8)
    requires
        can_fetch(m) ==> family_of(m.word_at(m.pc)) != 0xC,
    ensures
        step(m, random1) == step(m, random2),
{
}

} // verus!
