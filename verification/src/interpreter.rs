//! The interpreter: the machine in executable form.
//!
//! Every operation is total. What cannot be carried out comes back as an
//! error and leaves the machine as it was.

use crate::font::{FONT, FONT_BYTES, GLYPH_BYTES};
use crate::framebuffer::{blank, Framebuffer};
use crate::instruction::{decode, lemma_encoding_decoded, Instruction};
use crate::keyboard::{Chip8Key, Keyboard};
use crate::laws::lemma_step_keeps_wf;
use crate::machine::{
    next_rng, random_byte, with_font, with_program, Fault, Machine, DEFAULT_SEED, MEMORY_SIZE,
    PROGRAM_CAPACITY, PROGRAM_START, STACK_DEPTH,
};
use vstd::prelude::*;

verus! {

/// Why a program could not be loaded.
#[derive(Clone, Copy, Debug, PartialEq, Eq, Structural)]
pub enum LoadError {
    /// The program has `size` bytes, and only `capacity` fit.
    TooLarge { size: usize, capacity: usize },
}

/// Whether a call that came back with `result` and left the machine in
/// the state `after` did what `outcome` asks for: on `Ok(next)` it
/// succeeded and the state is `next`; on a fault it returned that fault
/// and the state is still `before`.
pub open spec fn carried_out(
    before: Machine,
    outcome: Result<Machine, Fault>,
    result: Result<(), Fault>,
    after: Machine,
) -> bool {
    match outcome {
        Ok(next) => result is Ok && after == next,
        Err(fault) => result == Err::<(), Fault>(fault) && after == before,
    }
}

/// A CHIP-8 machine. Its view is the `Machine` that it stands for.
pub struct Chip8 {
    memory: [u8; 4096],
    v: [u8; 16],
    i: u16,
    pc: u16,
    stack: Vec<u16>,
    delay_timer: u8,
    sound_timer: u8,
    framebuffer: Framebuffer,
    keyboard: Keyboard,
    rng: u64,
}

impl View for Chip8 {
    type V = Machine;

    closed spec fn view(&self) -> Machine {
        Machine {
            memory: self.memory@,
            v: self.v@,
            i: self.i,
            pc: self.pc,
            stack: self.stack@,
            delay: self.delay_timer,
            sound: self.sound_timer,
            screen: self.framebuffer@,
            keys: self.keyboard@,
            rng: self.rng,
        }
    }
}

impl Chip8 {
    /// A machine as it is switched on.
    pub fn new() -> (chip8: Chip8)
        ensures
            chip8@ == Machine::initial(),
            chip8@.wf(),
    {
        let chip8 = Chip8 {
            memory: [0u8; 4096],
            v: [0u8; 16],
            i: 0,
            pc: PROGRAM_START,
            stack: Vec::new(),
            delay_timer: 0,
            sound_timer: 0,
            framebuffer: Framebuffer::new(),
            keyboard: Keyboard::new(),
            rng: DEFAULT_SEED,
        };
        assert(chip8@ =~= Machine::initial());
        chip8
    }

    /// The program counter.
    pub fn pc(&self) -> (pc: u16)
        ensures
            pc == self@.pc,
    {
        self.pc
    }

    /// The index register `I`.
    pub fn index(&self) -> (index: u16)
        ensures
            index == self@.i,
    {
        self.i
    }

    /// The registers `V0` to `VF`.
    pub fn registers(&self) -> (registers: [u8; 16])
        ensures
            registers@ == self@.v,
    {
        self.v
    }

    /// The memory.
    pub fn memory(&self) -> (memory: &[u8; 4096])
        ensures
            memory@ == self@.memory,
    {
        &self.memory
    }

    /// The delay timer.
    pub fn delay_timer(&self) -> (timer: u8)
        ensures
            timer == self@.delay,
    {
        self.delay_timer
    }

    /// The sound timer.
    pub fn sound_timer(&self) -> (timer: u8)
        ensures
            timer == self@.sound,
    {
        self.sound_timer
    }

    /// Number of calls in progress.
    pub fn stack_depth(&self) -> (depth: usize)
        ensures
            depth == self@.stack.len(),
    {
        self.stack.len()
    }

    /// The display.
    pub fn framebuffer(&self) -> (framebuffer: &Framebuffer)
        ensures
            framebuffer@ == self@.screen,
    {
        &self.framebuffer
    }

    /// The keypad.
    pub fn keyboard(&self) -> (keyboard: &Keyboard)
        ensures
            keyboard@ == self@.keys,
    {
        &self.keyboard
    }

    /// Writes the font into memory from address 0 on. Nothing else
    /// changes, so a second call changes nothing at all.
    pub fn load_glyphs(&mut self)
        ensures
            final(self)@ == (Machine { memory: with_font(old(self)@.memory), ..old(self)@ }),
            final(self)@.memory.subrange(0, 80) == FONT@,
            old(self)@.wf() ==> final(self)@.wf(),
    {
        let mut k: usize = 0;
        while k < FONT_BYTES
            invariant
                k <= 80,
                self@ == (Machine { memory: self@.memory, ..old(self)@ }),
                forall|a: int| 0 <= a < k ==> self@.memory[a] == FONT@[a],
                forall|a: int| k <= a < 4096 ==> self@.memory[a] == old(self)@.memory[a],
            decreases 80 - k,
        {
            self.memory[k] = FONT[k];
            k = k + 1;
        }
        assert(self@.memory =~= with_font(old(self)@.memory));
        assert(self@.memory.subrange(0, 80) =~= FONT@);
        proof {
            self.framebuffer.lemma_len();
            self.keyboard.lemma_len();
        }
    }

    /// Copies `program` into memory from `PROGRAM_START` on. A program
    /// of more than `PROGRAM_CAPACITY` bytes is refused, and the machine
    /// stays as it was. The program counter is not moved. Before the
    /// first program is loaded it stands at `PROGRAM_START`, where a new
    /// machine has it: a machine without a program cannot take a step.
    /// A program loaded later, in the middle of a run, does not start
    /// the run again.
    pub fn load_program(&mut self, program: &[u8]) -> (result: Result<(), LoadError>)
        ensures
            match result {
                Ok(()) => program@.len() <= 3584 && final(self)@ == (Machine {
                    memory: with_program(old(self)@.memory, program@),
                    ..old(self)@
                }),
                Err(error) => program@.len() > 3584 && error == (LoadError::TooLarge {
                    size: program@.len() as usize,
                    capacity: 3584,
                }) && final(self)@ == old(self)@,
            },
            old(self)@.wf() ==> final(self)@.wf(),
    {
        let size = program.len();
        if size > PROGRAM_CAPACITY {
            return Err(LoadError::TooLarge { size, capacity: PROGRAM_CAPACITY });
        }
        let mut k: usize = 0;
        while k < size
            invariant
                k <= size <= 3584,
                size == program@.len(),
                self@ == (Machine { memory: self@.memory, ..old(self)@ }),
                forall|a: int| 0x200 <= a < 0x200 + k ==> self@.memory[a] == program@[a - 0x200],
                forall|a: int|
                    0 <= a < 4096 && !(0x200 <= a < 0x200 + k) ==> self@.memory[a] == old(
                        self,
                    )@.memory[a],
            decreases size - k,
        {
            self.memory[0x200 + k] = program[k];
            k = k + 1;
        }
        assert(self@.memory =~= with_program(old(self)@.memory, program@));
        Ok(())
    }

    /// Sets the state of the random number generator.
    pub fn seed(&mut self, seed: u64)
        ensures
            final(self)@ == (Machine { rng: seed, ..old(self)@ }),
            old(self)@.wf() ==> final(self)@.wf(),
    {
        self.rng = seed;
    }

    /// Marks `key` as down.
    pub fn press(&mut self, key: Chip8Key)
        ensures
            final(self)@ == (Machine {
                keys: old(self)@.keys.update(key.code() as int, true),
                ..old(self)@
            }),
            old(self)@.wf() ==> final(self)@.wf(),
    {
        self.keyboard.press(key);
    }

    /// Marks `key` as up.
    pub fn release(&mut self, key: Chip8Key)
        ensures
            final(self)@ == (Machine {
                keys: old(self)@.keys.update(key.code() as int, false),
                ..old(self)@
            }),
            old(self)@.wf() ==> final(self)@.wf(),
    {
        self.keyboard.release(key);
    }

    /// Whether the tone should sound: whether the sound timer is not
    /// zero.
    pub fn check_sound(&self) -> (on: bool)
        ensures
            on == (self@.sound > 0),
    {
        self.sound_timer > 0
    }

    /// One step: fetch, decode, execute, timers. The random byte, should
    /// the instruction ask for one, comes from the machine's own
    /// generator.
    pub fn step(&mut self) -> (result: Result<(), Fault>)
        ensures
            carried_out(old(self)@, old(self)@.step(), result, final(self)@),
            old(self)@.wf() ==> final(self)@.wf(),
    {
        proof {
            if self@.wf() {
                lemma_step_keeps_wf(self@, random_byte(next_rng(self@.rng)));
            }
        }
        let rng: u64 = ((self.rng as u128 * 6364136223846793005u128 + 1442695040888963407u128)
            % 0x1_0000_0000_0000_0000u128) as u64;
        let random: u8 = (rng / 0x100_0000_0000_0000u64) as u8;
        let result = self.step_with(random);
        if result.is_ok() {
            self.rng = rng;
        }
        result
    }

    /// One step: fetch, decode, execute, timers. The random byte, should
    /// the instruction ask for one, is `random`.
    pub fn step_with(&mut self, random: u8) -> (result: Result<(), Fault>)
        ensures
            carried_out(old(self)@, old(self)@.step_with(random), result, final(self)@),
            old(self)@.wf() ==> final(self)@.wf(),
    {
        proof {
            if self@.wf() {
                lemma_step_keeps_wf(self@, random);
            }
        }
        if self.pc > 4094 {
            return Err(Fault::ProgramCounterOutOfRange { pc: self.pc });
        }
        let high: u16 = self.memory[self.pc as usize] as u16;
        let low: u16 = self.memory[self.pc as usize + 1] as u16;
        let opcode: u16 = high * 0x100 + low;
        match decode(opcode) {
            None => Err(Fault::InvalidOpcode { pc: self.pc, opcode }),
            Some(ins) => {
                proof {
                    lemma_encoding_decoded(opcode);
                }
                match self.execute(ins, random) {
                    Ok(()) => {
                        if self.delay_timer > 0 {
                            self.delay_timer = self.delay_timer - 1;
                        }
                        if self.sound_timer > 0 {
                            self.sound_timer = self.sound_timer - 1;
                        }
                        Ok(())
                    },
                    Err(fault) => Err(fault),
                }
            },
        }
    }

    /// Executes one instruction, the timers aside.
    #[verifier::rlimit(30)]
    fn execute(&mut self, ins: Instruction, random: u8) -> (result: Result<(), Fault>)
        requires
            ins.wf(),
            old(self)@.pc <= 4094,
        ensures
            carried_out(old(self)@, old(self)@.execute(ins, random), result, final(self)@),
    {
        match ins {
            Instruction::ClearScreen => {
                self.clear_screen();
                Ok(())
            },
            Instruction::Return => self.return_from_call(Ghost(random)),
            Instruction::Jump { addr } => {
                self.jump(addr);
                Ok(())
            },
            Instruction::Call { addr } => self.call(addr, Ghost(random)),
            Instruction::SkipEqImm { x, nn } => {
                self.skip_if(self.v[x as usize] == nn);
                Ok(())
            },
            Instruction::SkipNeImm { x, nn } => {
                self.skip_if(self.v[x as usize] != nn);
                Ok(())
            },
            Instruction::SkipEqReg { x, y } => {
                self.skip_if(self.v[x as usize] == self.v[y as usize]);
                Ok(())
            },
            Instruction::LoadImm { x, nn } => {
                self.set_register(x, nn);
                Ok(())
            },
            Instruction::AddImm { x, nn } => {
                let sum: u16 = self.v[x as usize] as u16 + nn as u16;
                self.set_register(x, (sum % 256) as u8);
                Ok(())
            },
            Instruction::Move { x, y } => {
                self.set_register(x, self.v[y as usize]);
                Ok(())
            },
            Instruction::Or { x, y } => {
                self.set_register(x, self.v[x as usize] | self.v[y as usize]);
                Ok(())
            },
            Instruction::And { x, y } => {
                self.set_register(x, self.v[x as usize] & self.v[y as usize]);
                Ok(())
            },
            Instruction::Xor { x, y } => {
                self.set_register(x, self.v[x as usize] ^ self.v[y as usize]);
                Ok(())
            },
            Instruction::Add { x, y } => {
                let sum: u16 = self.v[x as usize] as u16 + self.v[y as usize] as u16;
                self.set_result(x, (sum % 256) as u8, if sum > 255 { 1 } else { 0 });
                Ok(())
            },
            Instruction::Sub { x, y } => {
                let vx = self.v[x as usize];
                let vy = self.v[y as usize];
                let difference: u16 = (256 + vx as u16 - vy as u16) % 256;
                self.set_result(x, difference as u8, if vx >= vy { 1 } else { 0 });
                Ok(())
            },
            Instruction::ShiftRight { x, y: _ } => {
                let vx = self.v[x as usize];
                self.set_result(x, vx / 2, vx % 2);
                Ok(())
            },
            Instruction::SubFrom { x, y } => {
                let vx = self.v[x as usize];
                let vy = self.v[y as usize];
                let difference: u16 = (256 + vy as u16 - vx as u16) % 256;
                self.set_result(x, difference as u8, if vy >= vx { 1 } else { 0 });
                Ok(())
            },
            Instruction::ShiftLeft { x, y: _ } => {
                let vx = self.v[x as usize];
                let doubled: u16 = (vx as u16 * 2) % 256;
                self.set_result(x, doubled as u8, vx / 128);
                Ok(())
            },
            Instruction::SkipNeReg { x, y } => {
                self.skip_if(self.v[x as usize] != self.v[y as usize]);
                Ok(())
            },
            Instruction::LoadIndex { addr } => {
                self.set_index(addr);
                Ok(())
            },
            Instruction::JumpOffset { addr } => {
                self.jump(addr + self.v[0] as u16);
                Ok(())
            },
            Instruction::Random { x, nn } => {
                self.set_register(x, random & nn);
                Ok(())
            },
            Instruction::Draw { x, y, n } => self.draw(x, y, n, Ghost(random)),
            Instruction::SkipKey { x } => {
                let down = self.keyboard.is_digit_pressed(self.v[x as usize]);
                self.skip_if(down);
                Ok(())
            },
            Instruction::SkipNotKey { x } => {
                let down = self.keyboard.is_digit_pressed(self.v[x as usize]);
                self.skip_if(!down);
                Ok(())
            },
            Instruction::ReadDelay { x } => {
                self.set_register(x, self.delay_timer);
                Ok(())
            },
            Instruction::WaitKey { x } => {
                self.wait_key(x, Ghost(random));
                Ok(())
            },
            Instruction::SetDelay { x } => {
                self.set_delay(self.v[x as usize]);
                Ok(())
            },
            Instruction::SetSound { x } => {
                self.set_sound(self.v[x as usize]);
                Ok(())
            },
            Instruction::AddIndex { x } => self.add_index(x, Ghost(random)),
            Instruction::Glyph { x } => {
                self.set_index((self.v[x as usize] % 16) as u16 * GLYPH_BYTES);
                Ok(())
            },
            Instruction::Bcd { x } => self.store_bcd(x, Ghost(random)),
            Instruction::Dump { x } => self.dump_registers(x, Ghost(random)),
            Instruction::Load { x } => self.load_registers(x, Ghost(random)),
        }
    }

    /// Sets register `x` and moves on to the next instruction.
    fn set_register(&mut self, x: u8, value: u8)
        requires
            x < 16,
            old(self)@.pc <= 4094,
        ensures
            final(self)@ == old(self)@.with_register(x, value).advance(),
    {
        self.v[x as usize] = value;
        self.pc = self.pc + 2;
    }

    /// Sets register `x`, then the flag register, and moves on to the
    /// next instruction.
    fn set_result(&mut self, x: u8, value: u8, flag: u8)
        requires
            x < 16,
            old(self)@.pc <= 4094,
        ensures
            final(self)@ == old(self)@.with_result(x, value, flag).advance(),
    {
        self.v[x as usize] = value;
        self.v[0xF] = flag;
        self.pc = self.pc + 2;
    }

    /// Moves on to the next instruction, or past it if `skip` holds.
    fn skip_if(&mut self, skip: bool)
        requires
            old(self)@.pc <= 4094,
        ensures
            final(self)@ == old(self)@.advance_or_skip(skip),
    {
        if skip {
            self.pc = self.pc + 4;
        } else {
            self.pc = self.pc + 2;
        }
    }

    /// Continues at `addr`.
    fn jump(&mut self, addr: u16)
        ensures
            final(self)@ == (Machine { pc: addr, ..old(self)@ }),
    {
        self.pc = addr;
    }

    /// Sets `I` and moves on to the next instruction.
    fn set_index(&mut self, value: u16)
        requires
            old(self)@.pc <= 4094,
        ensures
            final(self)@ == (Machine { i: value, ..old(self)@ }).advance(),
    {
        self.i = value;
        self.pc = self.pc + 2;
    }

    /// Sets the delay timer and moves on to the next instruction.
    fn set_delay(&mut self, value: u8)
        requires
            old(self)@.pc <= 4094,
        ensures
            final(self)@ == (Machine { delay: value, ..old(self)@ }).advance(),
    {
        self.delay_timer = value;
        self.pc = self.pc + 2;
    }

    /// Sets the sound timer and moves on to the next instruction.
    fn set_sound(&mut self, value: u8)
        requires
            old(self)@.pc <= 4094,
        ensures
            final(self)@ == (Machine { sound: value, ..old(self)@ }).advance(),
    {
        self.sound_timer = value;
        self.pc = self.pc + 2;
    }

    /// Turns the display dark and moves on to the next instruction.
    fn clear_screen(&mut self)
        requires
            old(self)@.pc <= 4094,
        ensures
            final(self)@ == (Machine { screen: blank(), ..old(self)@ }).advance(),
    {
        self.framebuffer.clear();
        self.pc = self.pc + 2;
    }

    /// Calls the subroutine at `addr`.
    fn call(&mut self, addr: u16, Ghost(random): Ghost<u8>) -> (result: Result<(), Fault>)
        requires
            old(self)@.pc <= 4094,
        ensures
            carried_out(
                old(self)@,
                old(self)@.execute(Instruction::Call { addr }, random),
                result,
                final(self)@,
            ),
    {
        if self.stack.len() >= STACK_DEPTH {
            return Err(Fault::StackOverflow { pc: self.pc });
        }
        self.stack.push(self.pc + 2);
        self.pc = addr;
        Ok(())
    }

    /// Returns from the subroutine in progress.
    fn return_from_call(&mut self, Ghost(random): Ghost<u8>) -> (result: Result<(), Fault>)
        ensures
            carried_out(
                old(self)@,
                old(self)@.execute(Instruction::Return, random),
                result,
                final(self)@,
            ),
    {
        match self.stack.pop() {
            Some(addr) => {
                self.pc = addr;
                Ok(())
            },
            None => Err(Fault::StackUnderflow { pc: self.pc }),
        }
    }

    /// Stores the digit of the lowest key that is down in `Vx` and moves
    /// on; stays at the instruction if no key is down.
    fn wait_key(&mut self, x: u8, Ghost(random): Ghost<u8>)
        requires
            x < 16,
            old(self)@.pc <= 4094,
        ensures
            Ok::<Machine, Fault>(final(self)@) == old(self)@.execute(Instruction::WaitKey { x }, random),
    {
        match self.keyboard.pressed_digit() {
            Some(digit) => {
                self.set_register(x, digit);
            },
            None => {},
        }
    }

    /// Adds `Vx` to `I`.
    fn add_index(&mut self, x: u8, Ghost(random): Ghost<u8>) -> (result: Result<(), Fault>)
        requires
            x < 16,
            old(self)@.pc <= 4094,
        ensures
            carried_out(
                old(self)@,
                old(self)@.execute(Instruction::AddIndex { x }, random),
                result,
                final(self)@,
            ),
    {
        let sum: u32 = self.i as u32 + self.v[x as usize] as u32;
        if sum > 0xFFF {
            return Err(Fault::AddressOutOfRange { pc: self.pc, address: sum });
        }
        self.i = sum as u16;
        self.pc = self.pc + 2;
        Ok(())
    }

    /// Draws the `n`-byte sprite at `I` with its corner at (`Vx`, `Vy`)
    /// and sets the flag register to 1 if a lit cell turned dark, else
    /// to 0.
    fn draw(&mut self, x: u8, y: u8, n: u8, Ghost(random): Ghost<u8>) -> (result: Result<
        (),
        Fault,
    >)
        requires
            x < 16,
            y < 16,
            n < 16,
            old(self)@.pc <= 4094,
        ensures
            carried_out(
                old(self)@,
                old(self)@.execute(Instruction::Draw { x, y, n }, random),
                result,
                final(self)@,
            ),
    {
        let start = self.i as usize;
        if start + n as usize > MEMORY_SIZE {
            return Err(
                Fault::AddressOutOfRange { pc: self.pc, address: self.i as u32 + n as u32 - 1 },
            );
        }
        let vx = self.v[x as usize];
        let vy = self.v[y as usize];
        let collision = self.framebuffer.draw_sprite(&self.memory, start, n as usize, vx, vy);
        self.v[0xF] = if collision {
            1
        } else {
            0
        };
        self.pc = self.pc + 2;
        Ok(())
    }

    /// Stores the hundreds, tens and units of `Vx` at `I`, `I + 1` and
    /// `I + 2`.
    fn store_bcd(&mut self, x: u8, Ghost(random): Ghost<u8>) -> (result: Result<(), Fault>)
        requires
            x < 16,
            old(self)@.pc <= 4094,
        ensures
            carried_out(
                old(self)@,
                old(self)@.execute(Instruction::Bcd { x }, random),
                result,
                final(self)@,
            ),
    {
        if self.i > 0xFFF - 2 {
            return Err(Fault::AddressOutOfRange { pc: self.pc, address: self.i as u32 + 2 });
        }
        let at = self.i as usize;
        let vx = self.v[x as usize];
        self.memory[at] = vx / 100;
        self.memory[at + 1] = (vx / 10) % 10;
        self.memory[at + 2] = vx % 10;
        self.pc = self.pc + 2;
        Ok(())
    }

    /// Stores `V0` to `Vx` at `I` and the addresses after it.
    fn dump_registers(&mut self, x: u8, Ghost(random): Ghost<u8>) -> (result: Result<(), Fault>)
        requires
            x < 16,
            old(self)@.pc <= 4094,
        ensures
            carried_out(
                old(self)@,
                old(self)@.execute(Instruction::Dump { x }, random),
                result,
                final(self)@,
            ),
    {
        if self.i > 0xFFF - x as u16 {
            return Err(Fault::AddressOutOfRange { pc: self.pc, address: self.i as u32 + x as u32 });
        }
        let at = self.i as usize;
        let mut k: usize = 0;
        while k <= x as usize
            invariant
                x < 16,
                at == old(self)@.i,
                at + x <= 0xFFF,
                k <= x + 1,
                self@ == (Machine { memory: self@.memory, ..old(self)@ }),
                forall|a: int| at <= a < at + k ==> self@.memory[a] == old(self)@.v[a - at],
                forall|a: int|
                    0 <= a < 4096 && !(at <= a < at + k) ==> self@.memory[a] == old(self)@.memory[a],
            decreases x + 1 - k,
        {
            self.memory[at + k] = self.v[k];
            k = k + 1;
        }
        self.pc = self.pc + 2;
        assert(self@ =~= old(self)@.execute(Instruction::Dump { x }, random)->Ok_0);
        Ok(())
    }

    /// Loads `V0` to `Vx` from `I` and the addresses after it.
    fn load_registers(&mut self, x: u8, Ghost(random): Ghost<u8>) -> (result: Result<(), Fault>)
        requires
            x < 16,
            old(self)@.pc <= 4094,
        ensures
            carried_out(
                old(self)@,
                old(self)@.execute(Instruction::Load { x }, random),
                result,
                final(self)@,
            ),
    {
        if self.i > 0xFFF - x as u16 {
            return Err(Fault::AddressOutOfRange { pc: self.pc, address: self.i as u32 + x as u32 });
        }
        let at = self.i as usize;
        let mut k: usize = 0;
        while k <= x as usize
            invariant
                x < 16,
                at == old(self)@.i,
                at + x <= 0xFFF,
                k <= x + 1,
                self@ == (Machine { v: self@.v, ..old(self)@ }),
                forall|j: int| 0 <= j < k ==> self@.v[j] == old(self)@.memory[at + j],
                forall|j: int| k <= j < 16 ==> self@.v[j] == old(self)@.v[j],
            decreases x + 1 - k,
        {
            self.v[k] = self.memory[at + k];
            k = k + 1;
        }
        self.pc = self.pc + 2;
        assert(self@ =~= old(self)@.execute(Instruction::Load { x }, random)->Ok_0);
        Ok(())
    }
}

} // verus!
