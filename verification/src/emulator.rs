//! The emulator: the machine state in executable form and the operations
//! that a host drives it with.

use vstd::prelude::*;
use crate::alu::{add_with_carry, decimal_digits, shift_left, shift_right, sub_with_borrow};
use crate::display::draw_sprite;
use crate::error::Chip8Error;
use crate::instruction::{decode, Instruction};
use crate::keypad::first_pressed;
use crate::random::random_byte;
use crate::machine::{
    Machine, FONT, KEY_COUNT, MEMORY_SIZE, REGISTER_COUNT, SCREEN_SIZE, STACK_SIZE,
    START_ADDRESS,
};
use crate::semantics::{
    after_fault, apply, can_fetch, execute, fetched, load_program, step, tick_timers,
};
use crate::stack::CallStack;

verus! {

/// A CHIP-8 machine. Its view is the [`Machine`] it stands for.
pub struct Emulator {
    pc: u16,
    ram: [u8; MEMORY_SIZE],
    screen: [bool; SCREEN_SIZE],
    v_reg: [u8; REGISTER_COUNT],
    i_reg: u16,
    stack: CallStack,
    keys: [bool; KEY_COUNT],
    delay_timer: u8,
    sound_timer: u8,
}

impl View for Emulator {
    type V = Machine;

    closed spec fn view(&self) -> Machine {
        Machine {
            pc: self.pc as int,
            memory: self.ram@,
            registers: self.v_reg@,
            index: self.i_reg as int,
            stack: self.stack@,
            keys: self.keys@,
            screen: self.screen@,
            delay_timer: self.delay_timer,
            sound_timer: self.sound_timer,
        }
    }
}

/// Copies `src` into `dst` from position `start`.
fn copy_bytes<const N: usize>(dst: &mut [u8; N], start: usize, src: &[u8])
    requires
        start + src.len() <= N,
    ensures
        forall|a: int|
            0 <= a < N ==> final(dst)@[a] == if start <= a < start + src.len() {
                src@[a - start]
            } else {
                old(dst)@[a]
            },
{
    let mut i: usize = 0;
    while i < src.len()
        invariant
            i <= src.len(),
            start + src.len() <= N,
            forall|a: int|
                0 <= a < N ==> dst@[a] == if start <= a < start + i {
                    src@[a - start]
                } else {
                    old(dst)@[a]
                },
        decreases src.len() - i,
    {
        dst[start + i] = src[i];
        i += 1;
    }
}

/// The memory of a machine that was just switched on.
fn initial_memory() -> (ram: [u8; MEMORY_SIZE])
    ensures
        ram@ == Machine::initial().memory,
{
    let mut ram: [u8; MEMORY_SIZE] = [0; MEMORY_SIZE];
    copy_bytes(&mut ram, 0, &FONT);
    assert(ram@ =~= Machine::initial().memory);
    ram
}

impl Emulator {
    /// The view of every emulator is a well-formed machine.
    pub proof fn lemma_view_wf(&self)
        ensures
            self@.wf(),
    {
        self.stack.lemma_view_bounded();
    }

    /// A machine that was just switched on: the font in memory, the program
    /// counter at the start address, everything else cleared.
    pub fn new() -> (emulator: Self)
        ensures
            emulator@ == Machine::initial(),
    {
        let emulator = Emulator {
            pc: START_ADDRESS,
            ram: initial_memory(),
            screen: [false; SCREEN_SIZE],
            v_reg: [0; REGISTER_COUNT],
            i_reg: 0,
            stack: CallStack::new(),
            keys: [false; KEY_COUNT],
            delay_timer: 0,
            sound_timer: 0,
        };
        emulator
    }

    /// Puts the machine back into the state it was created in.
    pub fn reset(&mut self)
        ensures
            final(self)@ == Machine::initial(),
    {
        self.pc = START_ADDRESS;
        self.ram = initial_memory();
        self.screen = [false; SCREEN_SIZE];
        self.v_reg = [0; REGISTER_COUNT];
        self.i_reg = 0;
        self.stack.clear();
        self.keys = [false; KEY_COUNT];
        self.delay_timer = 0;
        self.sound_timer = 0;
    }

    /// Pushes a return address onto the call stack. A full stack is
    /// reported as `StackOverflow` and nothing changes.
    pub fn push(&mut self, val: u16) -> (r: Result<(), Chip8Error>)
        ensures
            match r {
                Ok(()) => old(self)@.stack.len() < STACK_SIZE && final(self)@ == (Machine {
                    stack: old(self)@.stack.push(val),
                    ..old(self)@
                }),
                Err(e) => old(self)@.stack.len() >= STACK_SIZE && e == Chip8Error::StackOverflow
                    && final(self)@ == old(self)@,
            },
    {
        self.stack.push(val)
    }

    /// Pops the most recent return address off the call stack. An empty
    /// stack is reported as `StackUnderflow` and nothing changes.
    pub fn pop(&mut self) -> (r: Result<u16, Chip8Error>)
        ensures
            match r {
                Ok(val) => old(self)@.stack.len() > 0 && val == old(self)@.stack.last()
                    && final(self)@ == (Machine {
                    stack: old(self)@.stack.drop_last(),
                    ..old(self)@
                }),
                Err(e) => old(self)@.stack.len() == 0 && e == Chip8Error::StackUnderflow
                    && final(self)@ == old(self)@,
            },
    {
        self.stack.pop()
    }

    /// Advances both timers by one tick of the 60 Hz clock: each goes down
    /// by one unless it is zero already.
    pub fn tick_timers(&mut self)
        ensures
            final(self)@ == tick_timers(old(self)@),
    {
        if self.delay_timer > 0 {
            self.delay_timer -= 1;
        }
        if self.sound_timer > 0 {
            self.sound_timer -= 1;
        }
    }

    /// Copies a program into memory from the start address `0x200`. A
    /// program longer than the 3584 bytes behind that address is refused
    /// with `MemoryOutOfBounds` and nothing changes.
    pub fn load_program(&mut self, program: &[u8]) -> (r: Result<(), Chip8Error>)
        ensures
            match r {
                Ok(()) => START_ADDRESS + program.len() <= MEMORY_SIZE && final(self)@
                    == load_program(old(self)@, program@),
                Err(e) => START_ADDRESS + program.len() > MEMORY_SIZE && e
                    == Chip8Error::MemoryOutOfBounds && final(self)@ == old(self)@,
            },
    {
        if program.len() > MEMORY_SIZE - START_ADDRESS as usize {
            return Err(Chip8Error::MemoryOutOfBounds);
        }
        copy_bytes(&mut self.ram, START_ADDRESS as usize, program);
        Ok(())
    }

    /// Latches key `key` as pressed or released. An index that names none
    /// of the sixteen keys is refused with `KeyOutOfRange` and nothing
    /// changes.
    pub fn set_key(&mut self, key: usize, pressed: bool) -> (r: Result<(), Chip8Error>)
        ensures
            match r {
                Ok(()) => key < KEY_COUNT && final(self)@ == (Machine {
                    keys: old(self)@.keys.update(key as int, pressed),
                    ..old(self)@
                }),
                Err(e) => key >= KEY_COUNT && e == Chip8Error::KeyOutOfRange && final(self)@
                    == old(self)@,
            },
    {
        if key >= KEY_COUNT {
            return Err(Chip8Error::KeyOutOfRange);
        }
        self.keys[key] = pressed;
        Ok(())
    }

    /// The framebuffer: 64 by 32 pixels, row by row.
    pub fn get_framebuffer(&self) -> (pixels: &[bool; SCREEN_SIZE])
        ensures
            pixels@ == self@.screen,
    {
        &self.screen
    }

    /// The sound timer. The host sounds a tone while it is above zero.
    pub fn get_sound_timer(&self) -> (timer: u8)
        ensures
            timer == self@.sound_timer,
    {
        self.sound_timer
    }

    /// The delay timer.
    pub fn get_delay_timer(&self) -> (timer: u8)
        ensures
            timer == self@.delay_timer,
    {
        self.delay_timer
    }

    /// The program counter.
    pub fn get_pc(&self) -> (pc: u16)
        ensures
            pc == self@.pc,
    {
        self.pc
    }

    /// The index register `I`.
    pub fn get_index(&self) -> (index: u16)
        ensures
            index == self@.index,
    {
        self.i_reg
    }

    /// The registers `V0` to `VF`.
    pub fn get_registers(&self) -> (registers: &[u8; REGISTER_COUNT])
        ensures
            registers@ == self@.registers,
    {
        &self.v_reg
    }

    /// The whole memory.
    pub fn get_memory(&self) -> (memory: &[u8; MEMORY_SIZE])
        ensures
            memory@ == self@.memory,
    {
        &self.ram
    }

    /// The key latches.
    pub fn get_keys(&self) -> (keys: &[bool; KEY_COUNT])
        ensures
            keys@ == self@.keys,
    {
        &self.keys
    }

    /// The number of return addresses on the call stack.
    pub fn stack_depth(&self) -> (depth: usize)
        ensures
            depth == self@.stack.len(),
    {
        self.stack.len()
    }

    /// `00E0`.
    fn clear_screen(&mut self)
        ensures
            final(self)@ == crate::semantics::clear_screen(old(self)@),
    {
        self.screen = [false; SCREEN_SIZE];
    }

    /// `VX := value`.
    fn set_register(&mut self, x: u8, value: u8)
        requires
            x < REGISTER_COUNT,
        ensures
            final(self)@ == old(self)@.with_register(x as int, value),
    {
        self.v_reg[x as usize] = value;
    }

    /// `VX := value`, then `VF := flag`.
    fn set_flagged(&mut self, x: u8, value: u8, flag: u8)
        requires
            x < REGISTER_COUNT,
        ensures
            final(self)@ == old(self)@.with_flagged(x as int, value, flag),
    {
        self.v_reg[x as usize] = value;
        self.v_reg[0xF] = flag;
    }

    /// Skips the next instruction if `condition` holds.
    fn skip_if(&mut self, condition: bool)
        requires
            old(self)@.pc + 2 <= u16::MAX,
        ensures
            final(self)@ == old(self)@.skip_if(condition),
    {
        if condition {
            self.pc += 2;
        }
    }

    /// Reads the opcode at the program counter, big-endian, and moves the
    /// program counter behind it. Where one of the two bytes lies outside
    /// memory, nothing changes and `MemoryOutOfBounds` is returned.
    fn fetch(&mut self) -> (r: Result<u16, Chip8Error>)
        ensures
            match r {
                Ok(op) => can_fetch(old(self)@) && op == old(self)@.word_at(old(self)@.pc)
                    && final(self)@ == fetched(old(self)@),
                Err(e) => !can_fetch(old(self)@) && e == Chip8Error::MemoryOutOfBounds
                    && final(self)@ == old(self)@,
            },
    {
        let at: usize = self.pc as usize;
        if at + 1 >= MEMORY_SIZE {
            return Err(Chip8Error::MemoryOutOfBounds);
        }
        let higher_byte: u16 = self.ram[at] as u16;
        let lower_byte: u16 = self.ram[at + 1] as u16;
        let op: u16 = (higher_byte << 8) | lower_byte;
        assert((higher_byte << 8) | lower_byte == higher_byte * 256 + lower_byte) by (bit_vector)
            requires
                higher_byte < 256,
                lower_byte < 256,
        ;
        self.pc += 2;
        Ok(op)
    }

    /// `DXYN`.
    fn draw(&mut self, x: u8, y: u8, rows: u8) -> (r: Result<(), Chip8Error>)
        requires
            x < REGISTER_COUNT,
            y < REGISTER_COUNT,
            rows < 16,
        ensures
            match r {
                Ok(()) => crate::semantics::draw(old(self)@, x as int, y as int, rows as int)
                    matches Ok(m) && final(self)@ == m,
                Err(e) => crate::semantics::draw(old(self)@, x as int, y as int, rows as int)
                    == Err::<Machine, Chip8Error>(e) && final(self)@ == old(self)@,
            },
    {
        let count: usize = rows as usize;
        let start: usize = if count == 0 { 0 } else { self.i_reg as usize };
        if start + count > MEMORY_SIZE {
            return Err(Chip8Error::MemoryOutOfBounds);
        }
        let vx: u8 = self.v_reg[x as usize];
        let vy: u8 = self.v_reg[y as usize];
        let collision = draw_sprite(&mut self.screen, &self.ram[start..start + count], vx, vy);
        self.v_reg[0xF] = if collision { 1 } else { 0 };
        proof {
            let sprite = old(self)@.sprite(x as int, y as int, rows as int);
            assert(sprite.rows =~= old(self).ram@.subrange(start as int, start + count));
        }
        Ok(())
    }

    /// `EX9E` and `EXA1`.
    fn skip_on_key(&mut self, x: u8, wanted: bool) -> (r: Result<(), Chip8Error>)
        requires
            x < REGISTER_COUNT,
            old(self)@.pc + 2 <= u16::MAX,
        ensures
            match r {
                Ok(()) => crate::semantics::skip_on_key(old(self)@, x as int, wanted) matches Ok(m)
                    && final(self)@ == m,
                Err(e) => crate::semantics::skip_on_key(old(self)@, x as int, wanted) == Err::<
                    Machine,
                    Chip8Error,
                >(e) && final(self)@ == old(self)@,
            },
    {
        let key: usize = self.v_reg[x as usize] as usize;
        if key >= KEY_COUNT {
            return Err(Chip8Error::KeyOutOfRange);
        }
        let pressed: bool = self.keys[key];
        self.skip_if(pressed == wanted);
        Ok(())
    }

    /// `FX0A`.
    fn wait_key(&mut self, x: u8)
        requires
            x < REGISTER_COUNT,
            old(self)@.pc >= 2,
        ensures
            final(self)@ == crate::semantics::wait_key(old(self)@, x as int),
    {
        match first_pressed(&self.keys) {
            Some(key) => {
                self.set_register(x, key);
            },
            None => {
                self.pc -= 2;
            },
        }
    }

    /// `FX33`.
    fn store_decimal(&mut self, x: u8) -> (r: Result<(), Chip8Error>)
        requires
            x < REGISTER_COUNT,
        ensures
            match r {
                Ok(()) => crate::semantics::store_decimal(old(self)@, x as int) matches Ok(m)
                    && final(self)@ == m,
                Err(e) => crate::semantics::store_decimal(old(self)@, x as int) == Err::<
                    Machine,
                    Chip8Error,
                >(e) && final(self)@ == old(self)@,
            },
    {
        let at: usize = self.i_reg as usize;
        if at + 2 >= MEMORY_SIZE {
            return Err(Chip8Error::MemoryOutOfBounds);
        }
        let (hundreds, tens, ones) = decimal_digits(self.v_reg[x as usize]);
        self.ram[at] = hundreds;
        self.ram[at + 1] = tens;
        self.ram[at + 2] = ones;
        Ok(())
    }

    /// `FX55`.
    fn store_registers(&mut self, x: u8) -> (r: Result<(), Chip8Error>)
        requires
            x < REGISTER_COUNT,
        ensures
            match r {
                Ok(()) => crate::semantics::store_registers(old(self)@, x as int) matches Ok(m)
                    && final(self)@ == m,
                Err(e) => crate::semantics::store_registers(old(self)@, x as int) == Err::<
                    Machine,
                    Chip8Error,
                >(e) && final(self)@ == old(self)@,
            },
    {
        let at: usize = self.i_reg as usize;
        let count: usize = x as usize + 1;
        if at + count > MEMORY_SIZE {
            return Err(Chip8Error::MemoryOutOfBounds);
        }
        copy_bytes(&mut self.ram, at, &self.v_reg[0..count]);
        Ok(())
    }

    /// `FX65`.
    fn load_registers(&mut self, x: u8) -> (r: Result<(), Chip8Error>)
        requires
            x < REGISTER_COUNT,
        ensures
            match r {
                Ok(()) => crate::semantics::load_registers(old(self)@, x as int) matches Ok(m)
                    && final(self)@ == m,
                Err(e) => crate::semantics::load_registers(old(self)@, x as int) == Err::<
                    Machine,
                    Chip8Error,
                >(e) && final(self)@ == old(self)@,
            },
    {
        let at: usize = self.i_reg as usize;
        let count: usize = x as usize + 1;
        if at + count > MEMORY_SIZE {
            return Err(Chip8Error::MemoryOutOfBounds);
        }
        copy_bytes(&mut self.v_reg, 0, &self.ram[at..at + count]);
        Ok(())
    }

    /// Carries out one decoded instruction. The program counter already
    /// points behind it. On a failure nothing changes.
    fn apply(&mut self, instruction: Instruction, random: u8) -> (r: Result<(), Chip8Error>)
        requires
            instruction.wf(),
            2 <= old(self)@.pc <= u16::MAX - 2,
        ensures
            match r {
                Ok(()) => apply(old(self)@, instruction, random) matches Ok(m) && final(self)@
                    == m,
                Err(e) => apply(old(self)@, instruction, random) == Err::<Machine, Chip8Error>(e)
                    && final(self)@ == old(self)@,
            },
    {
        match instruction {
            Instruction::Nop => {},
            Instruction::ClearScreen => {
                self.clear_screen();
            },
            Instruction::Return => {
                let return_address = self.stack.pop()?;
                self.pc = return_address;
            },
            Instruction::Jump { addr } => {
                self.pc = addr;
            },
            Instruction::Call { addr } => {
                self.stack.push(self.pc)?;
                self.pc = addr;
            },
            Instruction::SkipIfEqual { x, value } => {
                self.skip_if(self.v_reg[x as usize] == value);
            },
            Instruction::SkipIfNotEqual { x, value } => {
                self.skip_if(self.v_reg[x as usize] != value);
            },
            Instruction::SkipIfRegistersEqual { x, y } => {
                self.skip_if(self.v_reg[x as usize] == self.v_reg[y as usize]);
            },
            Instruction::Load { x, value } => {
                self.set_register(x, value);
            },
            Instruction::Add { x, value } => {
                self.set_register(x, self.v_reg[x as usize].wrapping_add(value));
            },
            Instruction::Move { x, y } => {
                self.set_register(x, self.v_reg[y as usize]);
            },
            Instruction::Or { x, y } => {
                self.set_register(x, self.v_reg[x as usize] | self.v_reg[y as usize]);
            },
            Instruction::And { x, y } => {
                self.set_register(x, self.v_reg[x as usize] & self.v_reg[y as usize]);
            },
            Instruction::Xor { x, y } => {
                self.set_register(x, self.v_reg[x as usize] ^ self.v_reg[y as usize]);
            },
            Instruction::AddRegister { x, y } => {
                let (sum, carry) = add_with_carry(self.v_reg[x as usize], self.v_reg[y as usize]);
                self.set_flagged(x, sum, carry);
            },
            Instruction::SubRegister { x, y } => {
                let (difference, flag) = sub_with_borrow(
                    self.v_reg[x as usize],
                    self.v_reg[y as usize],
                );
                self.set_flagged(x, difference, flag);
            },
            Instruction::ShiftRight { x } => {
                let (shifted, bit) = shift_right(self.v_reg[x as usize]);
                self.set_flagged(x, shifted, bit);
            },
            Instruction::SubReversed { x, y } => {
                let (difference, flag) = sub_with_borrow(
                    self.v_reg[y as usize],
                    self.v_reg[x as usize],
                );
                self.set_flagged(x, difference, flag);
            },
            Instruction::ShiftLeft { x } => {
                let (shifted, bit) = shift_left(self.v_reg[x as usize]);
                self.set_flagged(x, shifted, bit);
            },
            Instruction::SkipIfRegistersDiffer { x, y } => {
                self.skip_if(self.v_reg[x as usize] != self.v_reg[y as usize]);
            },
            Instruction::LoadIndex { addr } => {
                self.i_reg = addr;
            },
            Instruction::JumpOffset { addr } => {
                self.pc = self.v_reg[0] as u16 + addr;
            },
            Instruction::Random { x, mask } => {
                self.set_register(x, random & mask);
            },
            Instruction::Draw { x, y, rows } => {
                self.draw(x, y, rows)?;
            },
            Instruction::SkipIfKey { x } => {
                self.skip_on_key(x, true)?;
            },
            Instruction::SkipIfNotKey { x } => {
                self.skip_on_key(x, false)?;
            },
            Instruction::ReadDelay { x } => {
                self.set_register(x, self.delay_timer);
            },
            Instruction::WaitKey { x } => {
                self.wait_key(x);
            },
            Instruction::SetDelay { x } => {
                self.delay_timer = self.v_reg[x as usize];
            },
            Instruction::SetSound { x } => {
                self.sound_timer = self.v_reg[x as usize];
            },
            Instruction::AddIndex { x } => {
                self.i_reg = self.i_reg.wrapping_add(self.v_reg[x as usize] as u16);
            },
            Instruction::FontAddress { x } => {
                self.i_reg = 5 * (self.v_reg[x as usize] as u16);
            },
            Instruction::StoreDecimal { x } => {
                self.store_decimal(x)?;
            },
            Instruction::StoreRegisters { x } => {
                self.store_registers(x)?;
            },
            Instruction::LoadRegisters { x } => {
                self.load_registers(x)?;
            },
        }
        Ok(())
    }

    /// Decodes `op` and carries it out. An opcode that matches no
    /// instruction is reported as `UnknownOpcode`. On a failure nothing
    /// changes.
    fn execute(&mut self, op: u16, random: u8) -> (r: Result<(), Chip8Error>)
        requires
            2 <= old(self)@.pc <= u16::MAX - 2,
        ensures
            match r {
                Ok(()) => execute(old(self)@, op, random) matches Ok(m) && final(self)@ == m,
                Err(e) => execute(old(self)@, op, random) == Err::<Machine, Chip8Error>(e)
                    && final(self)@ == old(self)@,
            },
    {
        match decode(op) {
            Some(instruction) => self.apply(instruction, random),
            None => Err(Chip8Error::UnknownOpcode(op)),
        }
    }

    /// Executes one instruction: fetches the opcode at the program counter,
    /// moves the program counter behind it, decodes the opcode and carries
    /// it out. `random` is the byte that a `CXNN` instruction uses; no
    /// other instruction looks at it.
    ///
    /// The result is that of `step` on the machine's state. A failed step
    /// reports its error and changes nothing but the program counter, which
    /// points behind the failed instruction where the fetch succeeded.
    pub fn tick_with(&mut self, random: u8) -> (r: Result<(), Chip8Error>)
        ensures
            match r {
                Ok(()) => step(old(self)@, random) matches Ok(m) && final(self)@ == m,
                Err(e) => step(old(self)@, random) == Err::<Machine, Chip8Error>(e) && final(self)@
                    == after_fault(old(self)@),
            },
    {
        let op = self.fetch()?;
        self.execute(op, random)
    }

    /// Executes one instruction, as `tick_with` does. Where the instruction
    /// is `CXNN`, its byte comes from the random number generator: the
    /// step is that of `tick_with` for some byte, and nothing says which.
    pub fn tick(&mut self) -> (r: Result<(), Chip8Error>)
        ensures
            exists|random: u8|
                match r {
                    Ok(()) => #[trigger] step(old(self)@, random) matches Ok(m) && final(self)@
                        == m,
                    Err(e) => step(old(self)@, random) == Err::<Machine, Chip8Error>(e) && final(self)@
                        == after_fault(old(self)@),
                },
    {
        let op = self.fetch()?;
        match decode(op) {
            Some(instruction) => {
                let random: u8 = match instruction {
                    Instruction::Random { .. } => random_byte(),
                    _ => 0,
                };
                let r = self.apply(instruction, random);
                assert(match r {
                    Ok(()) => step(old(self)@, random) matches Ok(m) && self@ == m,
                    Err(e) => step(old(self)@, random) == Err::<Machine, Chip8Error>(e) && self@
                        == after_fault(old(self)@),
                });
                r
            },
            None => {
                assert(step(old(self)@, 0) == Err::<Machine, Chip8Error>(
                    Chip8Error::UnknownOpcode(op),
                ));
                Err(Chip8Error::UnknownOpcode(op))
            },
        }
    }
}

} // verus!
