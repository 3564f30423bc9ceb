//! The mathematical model of the machine: its state, and what one step
//! does to it.
//!
//! A step fetches the two bytes at the program counter, most significant
//! first, reads them as an instruction, executes it, and then lets both
//! timers run down by one. The timers are tied to the step, not to a
//! clock of their own: a host that steps sixty times a second gets the
//! customary sixty-hertz timers.
//!
//! A step that cannot be carried out is a fault. A fault leaves the
//! state as it was.

use crate::font::glyph_address;
use crate::framebuffer::{blank, collides, drawn};
use crate::instruction::{decoded, Instruction};
use crate::keyboard::first_pressed;
use vstd::prelude::*;

verus! {

/// Number of bytes of memory.
pub const MEMORY_SIZE: usize = 4096;

/// Address at which programs are loaded and start.
pub const PROGRAM_START: u16 = 0x200;

/// Largest program that fits between `PROGRAM_START` and the end of
/// memory.
pub const PROGRAM_CAPACITY: usize = 3584;

/// Number of return addresses that the call stack holds.
pub const STACK_DEPTH: usize = 16;

/// State of the random number generator of a new machine.
pub const DEFAULT_SEED: u64 = 0x2545_F491_4F6C_DD1D;

/// Why a step could not be carried out. `pc` is the address of the
/// instruction at fault.
#[derive(Clone, Copy, Debug, PartialEq, Eq, Structural)]
pub enum Fault {
    /// The two bytes of the opcode do not both lie in memory.
    ProgramCounterOutOfRange { pc: u16 },
    /// The opcode stands for no instruction.
    InvalidOpcode { pc: u16, opcode: u16 },
    /// A call with sixteen return addresses on the stack already.
    StackOverflow { pc: u16 },
    /// A return with no return address on the stack.
    StackUnderflow { pc: u16 },
    /// The instruction would read or write memory up to `address`, or
    /// set `I` to `address`, which lies beyond the end of memory.
    AddressOutOfRange { pc: u16, address: u32 },
}

/// The state of the machine.
#[verifier::ext_equal]
pub struct Machine {
    /// The 4096 bytes of memory.
    pub memory: Seq<u8>,
    /// The registers `V0` to `VF`.
    pub v: Seq<u8>,
    /// The index register `I`, a 12-bit address.
    pub i: u16,
    /// The program counter.
    pub pc: u16,
    /// The return addresses of the calls in progress, oldest first.
    pub stack: Seq<u16>,
    /// The delay timer.
    pub delay: u8,
    /// The sound timer; the tone sounds while it is not zero.
    pub sound: u8,
    /// The 2048 cells of the display in row-major order.
    pub screen: Seq<bool>,
    /// The sixteen keys, `true` for a key that is down.
    pub keys: Seq<bool>,
    /// State of the random number generator.
    pub rng: u64,
}

/// A timer after one step: one less, unless it is zero already.
pub open spec fn run_down(timer: u8) -> u8 {
    if timer > 0 {
        (timer - 1) as u8
    } else {
        0
    }
}

/// State of the random number generator after `rng`: a linear
/// congruential step modulo 2^64.
pub open spec fn next_rng(rng: u64) -> u64 {
    ((rng as int * 6364136223846793005 + 1442695040888963407) % 0x1_0000_0000_0000_0000) as u64
}

/// The byte that the random number generator gives in state `rng`: its
/// most significant one.
pub open spec fn random_byte(rng: u64) -> u8 {
    (rng as int / 0x100_0000_0000_0000) as u8
}

/// Memory with `program` copied in from `PROGRAM_START` on.
pub open spec fn with_program(memory: Seq<u8>, program: Seq<u8>) -> Seq<u8> {
    Seq::new(
        memory.len(),
        |a: int|
            if 0x200 <= a < 0x200 + program.len() {
                program[a - 0x200]
            } else {
                memory[a]
            },
    )
}

/// Memory with the font copied in from address 0 on.
pub open spec fn with_font(memory: Seq<u8>) -> Seq<u8> {
    Seq::new(
        memory.len(),
        |a: int|
            if 0 <= a < 80 {
                crate::font::FONT@[a]
            } else {
                memory[a]
            },
    )
}

impl Machine {
    /// Whether every part has its size: 4096 bytes of memory, sixteen
    /// registers, a 12-bit `I`, at most sixteen return addresses, 2048
    /// cells and sixteen keys.
    pub open spec fn wf(self) -> bool {
        &&& self.memory.len() == 4096
        &&& self.v.len() == 16
        &&& self.i <= 0xFFF
        &&& self.stack.len() <= 16
        &&& self.screen.len() == 2048
        &&& self.keys.len() == 16
    }

    /// The machine as it is switched on: memory, registers and timers
    /// zero, the stack empty, the display dark, no key down, and the
    /// program counter at `PROGRAM_START`.
    pub open spec fn initial() -> Machine {
        Machine {
            memory: Seq::new(4096, |a: int| 0u8),
            v: Seq::new(16, |k: int| 0u8),
            i: 0,
            pc: PROGRAM_START,
            stack: Seq::empty(),
            delay: 0,
            sound: 0,
            screen: blank(),
            keys: Seq::new(16, |k: int| false),
            rng: DEFAULT_SEED,
        }
    }

    /// The opcode at the program counter: two bytes, the most
    /// significant first.
    pub open spec fn opcode(self) -> u16 {
        (self.memory[self.pc as int] as int * 0x100 + self.memory[self.pc + 1] as int) as u16
    }

    /// The state with the program counter on the next instruction.
    pub open spec fn advance(self) -> Machine {
        Machine { pc: (self.pc + 2) as u16, ..self }
    }

    /// The state with the program counter on the next instruction, or on
    /// the one after it if `skip` holds.
    pub open spec fn advance_or_skip(self, skip: bool) -> Machine {
        Machine { pc: (self.pc + if skip { 4int } else { 2int }) as u16, ..self }
    }

    /// The state with `value` in register `x`.
    pub open spec fn with_register(self, x: u8, value: u8) -> Machine {
        Machine { v: self.v.update(x as int, value), ..self }
    }

    /// The state with `value` in register `x` and then `flag` in `VF`.
    /// The flag is written last: where `x` is `VF` itself, the flag stays.
    pub open spec fn with_result(self, x: u8, value: u8, flag: u8) -> Machine {
        Machine { v: self.v.update(x as int, value).update(0xF, flag), ..self }
    }

    /// What executing `ins` with the random byte `random` makes of the
    /// state, the timers aside; or the fault that it ends in.
    pub open spec fn execute(self, ins: Instruction, random: u8) -> Result<Machine, Fault> {
        let pc = self.pc;
        match ins {
            Instruction::ClearScreen => Ok(Machine { screen: blank(), ..self }.advance()),
            Instruction::Return => if self.stack.len() == 0 {
                Err(Fault::StackUnderflow { pc })
            } else {
                Ok(Machine { pc: self.stack.last(), stack: self.stack.drop_last(), ..self })
            },
            Instruction::Jump { addr } => Ok(Machine { pc: addr, ..self }),
            Instruction::Call { addr } => if self.stack.len() >= 16 {
                Err(Fault::StackOverflow { pc })
            } else {
                Ok(Machine { pc: addr, stack: self.stack.push((pc + 2) as u16), ..self })
            },
            Instruction::SkipEqImm { x, nn } => Ok(self.advance_or_skip(self.v[x as int] == nn)),
            Instruction::SkipNeImm { x, nn } => Ok(self.advance_or_skip(self.v[x as int] != nn)),
            Instruction::SkipEqReg { x, y } => Ok(
                self.advance_or_skip(self.v[x as int] == self.v[y as int]),
            ),
            Instruction::LoadImm { x, nn } => Ok(self.with_register(x, nn).advance()),
            Instruction::AddImm { x, nn } => Ok(
                self.with_register(x, ((self.v[x as int] + nn) % 256) as u8).advance(),
            ),
            Instruction::Move { x, y } => Ok(self.with_register(x, self.v[y as int]).advance()),
            Instruction::Or { x, y } => Ok(
                self.with_register(x, self.v[x as int] | self.v[y as int]).advance(),
            ),
            Instruction::And { x, y } => Ok(
                self.with_register(x, self.v[x as int] & self.v[y as int]).advance(),
            ),
            Instruction::Xor { x, y } => Ok(
                self.with_register(x, self.v[x as int] ^ self.v[y as int]).advance(),
            ),
            Instruction::Add { x, y } => {
                let sum = self.v[x as int] + self.v[y as int];
                Ok(self.with_result(x, (sum % 256) as u8, if sum > 255 { 1 } else { 0 }).advance())
            },
            Instruction::Sub { x, y } => {
                let vx = self.v[x as int];
                let vy = self.v[y as int];
                Ok(
                    self.with_result(x, ((vx - vy) % 256) as u8, if vx >= vy { 1 } else { 0 })
                        .advance(),
                )
            },
            Instruction::ShiftRight { x, y } => {
                let vx = self.v[x as int];
                Ok(self.with_result(x, vx / 2, vx % 2).advance())
            },
            Instruction::SubFrom { x, y } => {
                let vx = self.v[x as int];
                let vy = self.v[y as int];
                Ok(
                    self.with_result(x, ((vy - vx) % 256) as u8, if vy >= vx { 1 } else { 0 })
                        .advance(),
                )
            },
            Instruction::ShiftLeft { x, y } => {
                let vx = self.v[x as int];
                Ok(self.with_result(x, ((vx * 2) % 256) as u8, vx / 128).advance())
            },
            Instruction::SkipNeReg { x, y } => Ok(
                self.advance_or_skip(self.v[x as int] != self.v[y as int]),
            ),
            Instruction::LoadIndex { addr } => Ok(Machine { i: addr, ..self }.advance()),
            Instruction::JumpOffset { addr } => Ok(
                Machine { pc: (addr + self.v[0]) as u16, ..self },
            ),
            Instruction::Random { x, nn } => Ok(self.with_register(x, random & nn).advance()),
            Instruction::Draw { x, y, n } => if self.i + n > 4096 {
                Err(Fault::AddressOutOfRange { pc, address: (self.i + n - 1) as u32 })
            } else {
                let rows = self.memory.subrange(self.i as int, self.i + n);
                let vx = self.v[x as int] as int;
                let vy = self.v[y as int] as int;
                let flag: u8 = if collides(self.screen, rows, vx, vy) {
                    1
                } else {
                    0
                };
                Ok(
                    Machine {
                        screen: drawn(self.screen, rows, vx, vy),
                        v: self.v.update(0xF, flag),
                        ..self
                    }.advance(),
                )
            },
            Instruction::SkipKey { x } => Ok(
                self.advance_or_skip(self.keys[self.v[x as int] as int % 16]),
            ),
            Instruction::SkipNotKey { x } => Ok(
                self.advance_or_skip(!self.keys[self.v[x as int] as int % 16]),
            ),
            Instruction::ReadDelay { x } => Ok(self.with_register(x, self.delay).advance()),
            Instruction::WaitKey { x } => match first_pressed(self.keys) {
                Some(digit) => Ok(self.with_register(x, digit as u8).advance()),
                None => Ok(self),
            },
            Instruction::SetDelay { x } => Ok(Machine { delay: self.v[x as int], ..self }.advance()),
            Instruction::SetSound { x } => Ok(Machine { sound: self.v[x as int], ..self }.advance()),
            Instruction::AddIndex { x } => if self.i + self.v[x as int] > 0xFFF {
                Err(Fault::AddressOutOfRange { pc, address: (self.i + self.v[x as int]) as u32 })
            } else {
                Ok(Machine { i: (self.i + self.v[x as int]) as u16, ..self }.advance())
            },
            Instruction::Glyph { x } => Ok(
                Machine { i: glyph_address(self.v[x as int]) as u16, ..self }.advance(),
            ),
            Instruction::Bcd { x } => if self.i + 2 > 0xFFF {
                Err(Fault::AddressOutOfRange { pc, address: (self.i + 2) as u32 })
            } else {
                let vx = self.v[x as int];
                Ok(
                    Machine {
                        memory: self.memory.update(self.i as int, vx / 100).update(
                            self.i + 1,
                            (vx / 10) % 10,
                        ).update(self.i + 2, vx % 10),
                        ..self
                    }.advance(),
                )
            },
            Instruction::Dump { x } => if self.i + x > 0xFFF {
                Err(Fault::AddressOutOfRange { pc, address: (self.i + x) as u32 })
            } else {
                Ok(
                    Machine {
                        memory: Seq::new(
                            4096,
                            |a: int|
                                if self.i <= a <= self.i + x {
                                    self.v[a - self.i]
                                } else {
                                    self.memory[a]
                                },
                        ),
                        ..self
                    }.advance(),
                )
            },
            Instruction::Load { x } => if self.i + x > 0xFFF {
                Err(Fault::AddressOutOfRange { pc, address: (self.i + x) as u32 })
            } else {
                Ok(
                    Machine {
                        v: Seq::new(
                            16,
                            |k: int|
                                if k <= x {
                                    self.memory[self.i + k]
                                } else {
                                    self.v[k]
                                },
                        ),
                        ..self
                    }.advance(),
                )
            },
        }
    }

    /// The state with both timers run down by one.
    pub open spec fn tick(self) -> Machine {
        Machine { delay: run_down(self.delay), sound: run_down(self.sound), ..self }
    }

    /// One step with the random byte `random`: fetch, decode, execute,
    /// then the timers. The random number generator is left alone.
    pub open spec fn step_with(self, random: u8) -> Result<Machine, Fault> {
        if self.pc > 4094 {
            Err(Fault::ProgramCounterOutOfRange { pc: self.pc })
        } else {
            match decoded(self.opcode()) {
                None => Err(Fault::InvalidOpcode { pc: self.pc, opcode: self.opcode() }),
                Some(ins) => match self.execute(ins, random) {
                    Ok(next) => Ok(next.tick()),
                    Err(fault) => Err(fault),
                },
            }
        }
    }

    /// One step that draws its random byte from the machine's own
    /// generator, which moves on by one state.
    pub open spec fn step(self) -> Result<Machine, Fault> {
        let rng = next_rng(self.rng);
        match self.step_with(random_byte(rng)) {
            Ok(next) => Ok(Machine { rng, ..next }),
            Err(fault) => Err(fault),
        }
    }
}

} // verus!
