//! What each instruction does to a machine, as functions on the model.

use vstd::prelude::*;
use crate::display::Sprite;
use crate::error::Chip8Error;
use crate::instruction::{decode_spec, Instruction};
use crate::keypad::{any_pressed, lowest_pressed};
use crate::machine::{Machine, KEY_COUNT, MEMORY_SIZE, SCREEN_SIZE, STACK_SIZE, START_ADDRESS};

verus! {

impl Machine {
    /// The machine with `VX := value`.
    pub open spec fn with_register(self, x: int, value: u8) -> Machine {
        Machine { registers: self.registers.update(x, value), ..self }
    }

    /// The machine with `VX := value` and then `VF := flag`: the flag is
    /// written last, so it wins where `X` is `F`.
    pub open spec fn with_flagged(self, x: int, value: u8, flag: u8) -> Machine {
        Machine { registers: self.registers.update(x, value).update(0xF, flag), ..self }
    }

    /// The machine with the next instruction skipped if `condition` holds.
    pub open spec fn skip_if(self, condition: bool) -> Machine {
        if condition {
            Machine { pc: self.pc + 2, ..self }
        } else {
            self
        }
    }

    /// The sprite that a draw instruction with operands `x`, `y` and `rows`
    /// reads: `rows` bytes from `I`, placed at `(VX, VY)`.
    pub open spec fn sprite(self, x: int, y: int, rows: int) -> Sprite {
        Sprite {
            rows: Seq::new(rows as nat, |r: int| self.memory[self.index + r]),
            x: self.registers[x] as int,
            y: self.registers[y] as int,
        }
    }
}

/// `00E0`: every pixel off.
pub open spec fn clear_screen(m: Machine) -> Machine {
    Machine { screen: Seq::new(SCREEN_SIZE as nat, |p: int| false), ..m }
}

/// `2NNN`: the address of the next instruction goes onto the stack and
/// execution continues at `addr`. Fails on a full stack.
pub open spec fn call(m: Machine, addr: u16) -> Result<Machine, Chip8Error> {
    if m.stack.len() >= STACK_SIZE {
        Err(Chip8Error::StackOverflow)
    } else {
        Ok(Machine { pc: addr as int, stack: m.stack.push(m.pc as u16), ..m })
    }
}

/// `00EE`: execution continues at the address last pushed, which leaves the
/// stack. Fails on an empty stack.
pub open spec fn ret(m: Machine) -> Result<Machine, Chip8Error> {
    if m.stack.len() == 0 {
        Err(Chip8Error::StackUnderflow)
    } else {
        Ok(Machine { pc: m.stack.last() as int, stack: m.stack.drop_last(), ..m })
    }
}

/// `DXYN`: the sprite is XORed onto the screen and `VF` tells whether a
/// pixel went from on to off. Fails where a sprite row lies outside memory.
pub open spec fn draw(m: Machine, x: int, y: int, rows: int) -> Result<Machine, Chip8Error> {
    if rows > 0 && m.index + rows > MEMORY_SIZE {
        Err(Chip8Error::MemoryOutOfBounds)
    } else {
        let sprite = m.sprite(x, y, rows);
        let flag = if sprite.collides_with(m.screen) { 1u8 } else { 0u8 };
        Ok(
            Machine {
                screen: sprite.drawn_onto(m.screen),
                registers: m.registers.update(0xF, flag),
                ..m
            },
        )
    }
}

/// `EX9E` and `EXA1`: skip the next instruction if key `VX` is pressed
/// (`wanted`) or is not pressed (`!wanted`). Fails where `VX` names no key.
pub open spec fn skip_on_key(m: Machine, x: int, wanted: bool) -> Result<Machine, Chip8Error> {
    let key = m.registers[x] as int;
    if key >= KEY_COUNT {
        Err(Chip8Error::KeyOutOfRange)
    } else {
        Ok(m.skip_if(m.keys[key] == wanted))
    }
}

/// `FX0A`: with a key pressed, `VX` receives the lowest pressed index;
/// with none, the program counter goes back to this instruction.
pub open spec fn wait_key(m: Machine, x: int) -> Machine {
    if any_pressed(m.keys) {
        m.with_register(x, lowest_pressed(m.keys) as u8)
    } else {
        Machine { pc: m.pc - 2, ..m }
    }
}

/// `FX33`: the hundreds, tens and ones of `VX` go to `I`, `I+1` and `I+2`.
/// Fails where one of the three lies outside memory.
pub open spec fn store_decimal(m: Machine, x: int) -> Result<Machine, Chip8Error> {
    let v = m.registers[x];
    if m.index + 2 >= MEMORY_SIZE {
        Err(Chip8Error::MemoryOutOfBounds)
    } else {
        Ok(
            Machine {
                memory: m.memory.update(m.index, v / 100).update(m.index + 1, (v / 10) % 10).update(
                    m.index + 2,
                    v % 10,
                ),
                ..m
            },
        )
    }
}

/// `FX55`: `V0..=VX` go to memory from `I`. Fails where `I + X` lies
/// outside memory.
pub open spec fn store_registers(m: Machine, x: int) -> Result<Machine, Chip8Error> {
    if m.index + x >= MEMORY_SIZE {
        Err(Chip8Error::MemoryOutOfBounds)
    } else {
        Ok(
            Machine {
                memory: Seq::new(
                    MEMORY_SIZE as nat,
                    |a: int|
                        if m.index <= a <= m.index + x {
                            m.registers[a - m.index]
                        } else {
                            m.memory[a]
                        },
                ),
                ..m
            },
        )
    }
}

/// `FX65`: `V0..=VX` are read from memory from `I`. Fails where `I + X`
/// lies outside memory.
pub open spec fn load_registers(m: Machine, x: int) -> Result<Machine, Chip8Error> {
    if m.index + x >= MEMORY_SIZE {
        Err(Chip8Error::MemoryOutOfBounds)
    } else {
        Ok(
            Machine {
                registers: Seq::new(
                    m.registers.len(),
                    |r: int| if r <= x { m.memory[m.index + r] } else { m.registers[r] },
                ),
                ..m
            },
        )
    }
}

/// The effect of one decoded instruction on a machine whose program counter
/// already points behind it. `random` is the byte that `CXNN` draws.
pub open spec fn apply(m: Machine, instruction: Instruction, random: u8) -> Result<
    Machine,
    Chip8Error,
> {
    match instruction {
        Instruction::Nop => Ok(m),
        Instruction::ClearScreen => Ok(clear_screen(m)),
        Instruction::Return => ret(m),
        Instruction::Jump { addr } => Ok(Machine { pc: addr as int, ..m }),
        Instruction::Call { addr } => call(m, addr),
        Instruction::SkipIfEqual { x, value } => Ok(m.skip_if(m.registers[x as int] == value)),
        Instruction::SkipIfNotEqual { x, value } => Ok(m.skip_if(m.registers[x as int] != value)),
        Instruction::SkipIfRegistersEqual { x, y } => Ok(
            m.skip_if(m.registers[x as int] == m.registers[y as int]),
        ),
        Instruction::Load { x, value } => Ok(m.with_register(x as int, value)),
        Instruction::Add { x, value } => Ok(
            m.with_register(x as int, ((m.registers[x as int] + value) % 256) as u8),
        ),
        Instruction::Move { x, y } => Ok(m.with_register(x as int, m.registers[y as int])),
        Instruction::Or { x, y } => Ok(
            m.with_register(x as int, m.registers[x as int] | m.registers[y as int]),
        ),
        Instruction::And { x, y } => Ok(
            m.with_register(x as int, m.registers[x as int] & m.registers[y as int]),
        ),
        Instruction::Xor { x, y } => Ok(
            m.with_register(x as int, m.registers[x as int] ^ m.registers[y as int]),
        ),
        Instruction::AddRegister { x, y } => {
            let sum = m.registers[x as int] + m.registers[y as int];
            Ok(m.with_flagged(x as int, (sum % 256) as u8, if sum > 255 { 1 } else { 0 }))
        },
        Instruction::SubRegister { x, y } => {
            let difference = m.registers[x as int] - m.registers[y as int];
            Ok(
                m.with_flagged(
                    x as int,
                    (difference % 256) as u8,
                    if difference < 0 { 0 } else { 1 },
                ),
            )
        },
        Instruction::ShiftRight { x } => {
            let v = m.registers[x as int];
            Ok(m.with_flagged(x as int, v / 2, v % 2))
        },
        Instruction::SubReversed { x, y } => {
            let difference = m.registers[y as int] - m.registers[x as int];
            Ok(
                m.with_flagged(
                    x as int,
                    (difference % 256) as u8,
                    if difference < 0 { 0 } else { 1 },
                ),
            )
        },
        Instruction::ShiftLeft { x } => {
            let v = m.registers[x as int];
            Ok(m.with_flagged(x as int, ((v * 2) % 256) as u8, v / 128))
        },
        Instruction::SkipIfRegistersDiffer { x, y } => Ok(
            m.skip_if(m.registers[x as int] != m.registers[y as int]),
        ),
        Instruction::LoadIndex { addr } => Ok(Machine { index: addr as int, ..m }),
        Instruction::JumpOffset { addr } => Ok(Machine { pc: m.registers[0] + addr, ..m }),
        Instruction::Random { x, mask } => Ok(m.with_register(x as int, random & mask)),
        Instruction::Draw { x, y, rows } => draw(m, x as int, y as int, rows as int),
        Instruction::SkipIfKey { x } => skip_on_key(m, x as int, true),
        Instruction::SkipIfNotKey { x } => skip_on_key(m, x as int, false),
        Instruction::ReadDelay { x } => Ok(m.with_register(x as int, m.delay_timer)),
        Instruction::WaitKey { x } => Ok(wait_key(m, x as int)),
        Instruction::SetDelay { x } => Ok(Machine { delay_timer: m.registers[x as int], ..m }),
        Instruction::SetSound { x } => Ok(Machine { sound_timer: m.registers[x as int], ..m }),
        Instruction::AddIndex { x } => Ok(
            Machine { index: (m.index + m.registers[x as int]) % 0x10000, ..m },
        ),
        Instruction::FontAddress { x } => Ok(Machine { index: 5 * m.registers[x as int], ..m }),
        Instruction::StoreDecimal { x } => store_decimal(m, x as int),
        Instruction::StoreRegisters { x } => store_registers(m, x as int),
        Instruction::LoadRegisters { x } => load_registers(m, x as int),
    }
}

/// The effect of the opcode `op`: that of the instruction it decodes to, or
/// a decode failure that names the opcode.
pub open spec fn execute(m: Machine, op: u16, random: u8) -> Result<Machine, Chip8Error> {
    match decode_spec(op) {
        Some(instruction) => apply(m, instruction, random),
        None => Err(Chip8Error::UnknownOpcode(op)),
    }
}

/// Whether both bytes of the instruction at the program counter lie inside
/// memory.
pub open spec fn can_fetch(m: Machine) -> bool {
    0 <= m.pc && m.pc + 1 < MEMORY_SIZE
}

/// The machine after a fetch: the program counter points behind the
/// instruction.
pub open spec fn fetched(m: Machine) -> Machine {
    Machine { pc: m.pc + 2, ..m }
}

/// One whole step: fetch the opcode at the program counter, advance the
/// program counter by two, then execute the opcode.
pub open spec fn step(m: Machine, random: u8) -> Result<Machine, Chip8Error> {
    if can_fetch(m) {
        execute(fetched(m), m.word_at(m.pc), random)
    } else {
        Err(Chip8Error::MemoryOutOfBounds)
    }
}

/// The state a failed step leaves behind: where the fetch succeeded, the
/// program counter points behind the instruction that failed; nothing else
/// has changed.
pub open spec fn after_fault(m: Machine) -> Machine {
    if can_fetch(m) {
        fetched(m)
    } else {
        m
    }
}

/// A timer after one tick: one less, unless it was already zero.
pub open spec fn ticked(timer: u8) -> u8 {
    if timer > 0 {
        (timer - 1) as u8
    } else {
        0
    }
}

/// The machine after one tick of the 60 Hz clock.
pub open spec fn tick_timers(m: Machine) -> Machine {
    Machine { delay_timer: ticked(m.delay_timer), sound_timer: ticked(m.sound_timer), ..m }
}

/// The machine after `n` ticks of the 60 Hz clock.
pub open spec fn tick_timers_n(m: Machine, n: nat) -> Machine
    decreases n,
{
    if n == 0 {
        m
    } else {
        tick_timers_n(tick_timers(m), (n - 1) as nat)
    }
}

/// The machine after one step for each byte of `randoms`, in order, each
/// step with its byte. The first step that fails ends the run with its
/// error.
pub open spec fn run(m: Machine, randoms: Seq<u8>) -> Result<Machine, Chip8Error>
    decreases randoms.len(),
{
    if randoms.len() == 0 {
        Ok(m)
    } else {
        match step(m, randoms[0]) {
            Ok(next) => run(next, randoms.subrange(1, randoms.len() as int)),
            Err(e) => Err(e),
        }
    }
}

/// The machine with `program` copied into memory from the start address.
pub open spec fn load_program(m: Machine, program: Seq<u8>) -> Machine {
    Machine {
        memory: Seq::new(
            MEMORY_SIZE as nat,
            |a: int|
                if START_ADDRESS <= a < START_ADDRESS + program.len() {
                    program[a - START_ADDRESS]
                } else {
                    m.memory[a]
                },
        ),
        ..m
    }
}

} // verus!
