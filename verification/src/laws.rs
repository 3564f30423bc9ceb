//! What holds of every machine: facts about the model that follow from
//! the meaning of the instructions.

use crate::font::FONT;
use crate::framebuffer::{
    blank, collides, drawn, lemma_draw_twice_restores, lemma_second_draw_collides, sprite_hits,
};
use crate::instruction::{decoded, lemma_encoding_decoded, Instruction};
use crate::keyboard::lemma_first_pressed_from;
use crate::machine::{next_rng, random_byte, run_down, with_font, Fault, Machine};
use vstd::prelude::*;

verus! {

/// No instruction takes a part of the machine out of its size: a
/// well-formed state stays well-formed under every instruction.
pub proof fn lemma_execute_keeps_wf(s: Machine, ins: Instruction, random: u8)
    requires
        s.wf(),
        ins.wf(),
    ensures
        s.execute(ins, random) matches Ok(next) ==> next.wf(),
{
    match ins {
        Instruction::WaitKey { x } => {
            lemma_first_pressed_from(s.keys, 0);
        },
        _ => {},
    }
}

/// A well-formed state stays well-formed under every step.
pub proof fn lemma_step_keeps_wf(s: Machine, random: u8)
    requires
        s.wf(),
    ensures
        s.step_with(random) matches Ok(next) ==> next.wf(),
        s.step() matches Ok(next) ==> next.wf(),
{
    if s.pc <= 4094 {
        lemma_encoding_decoded(s.opcode());
        match decoded(s.opcode()) {
            Some(ins) => {
                lemma_execute_keeps_wf(s, ins, random);
                lemma_execute_keeps_wf(s, ins, random_byte(next_rng(s.rng)));
            },
            None => {},
        }
    }
}

/// Loading the font a second time changes nothing.
pub proof fn lemma_font_twice(memory: Seq<u8>)
    requires
        memory.len() == 4096,
    ensures
        with_font(with_font(memory)) == with_font(memory),
        with_font(memory).subrange(0, 80) == FONT@,
{
    assert(with_font(with_font(memory)) =~= with_font(memory));
    assert(with_font(memory).subrange(0, 80) =~= FONT@);
}

/// A machine into which no program has been loaded cannot take a step:
/// where memory is zero at the program counter there is no instruction.
/// So until the first program is loaded the program counter stays where
/// it was when the machine was switched on.
pub proof fn lemma_no_program_no_step(s: Machine, random: u8)
    requires
        s.wf(),
        s.pc <= 4094,
        s.memory[s.pc as int] == 0,
        s.memory[s.pc + 1] == 0,
    ensures
        s.step_with(random) == Err::<Machine, Fault>(Fault::InvalidOpcode { pc: s.pc, opcode: 0 }),
        s.step() == Err::<Machine, Fault>(Fault::InvalidOpcode { pc: s.pc, opcode: 0 }),
{
}

/// After the clear-screen instruction every cell is dark, whatever was
/// drawn before.
pub proof fn lemma_clear_screen_darkens(s: Machine, random: u8)
    requires
        s.pc <= 4094,
        s.opcode() == 0x00E0,
    ensures
        s.step_with(random) is Ok,
        s.step_with(random)->Ok_0.screen == blank(),
        forall|k: int| 0 <= k < 2048 ==> !s.step_with(random)->Ok_0.screen[k],
{
}

/// The add-immediate instruction leaves the flag register alone.
pub proof fn lemma_add_immediate_keeps_flag(s: Machine, x: u8, nn: u8, random: u8)
    requires
        s.wf(),
        x < 15,
    ensures
        s.execute(Instruction::AddImm { x, nn }, random) is Ok,
        s.execute(Instruction::AddImm { x, nn }, random)->Ok_0.v[0xF] == s.v[0xF],
        s.execute(Instruction::AddImm { x, nn }, random)->Ok_0.v[x as int] == (s.v[x as int] + nn)
            % 256,
{
}

/// A call followed by a return comes back to the instruction after the
/// call, with the stack as it was before the call.
pub proof fn lemma_call_then_return(s: Machine, addr: u16, random: u8)
    requires
        s.wf(),
        s.pc <= 4094,
        s.stack.len() < 16,
    ensures
        ({
            &&& s.execute(Instruction::Call { addr }, random) matches Ok(called)
            &&& called.pc == addr
            &&& called.execute(Instruction::Return, random) matches Ok(back)
            &&& back.pc == s.pc + 2
            &&& back.stack == s.stack
            &&& back == s.advance()
        }),
{
    let called = s.execute(Instruction::Call { addr }, random)->Ok_0;
    let back = called.execute(Instruction::Return, random)->Ok_0;
    assert(called.stack.drop_last() =~= s.stack);
    assert(back =~= s.advance());
}

/// The same, step by step: a call instruction whose subroutine begins
/// with a return instruction takes two steps to arrive at the
/// instruction after the call.
pub proof fn lemma_call_then_return_steps(s: Machine, addr: u16, first: u8, second: u8)
    requires
        s.wf(),
        s.pc <= 4094,
        s.stack.len() < 16,
        decoded(s.opcode()) == Some(Instruction::Call { addr }),
        addr <= 4094,
        s.memory[addr as int] == 0x00,
        s.memory[addr + 1] == 0xEE,
    ensures
        ({
            &&& s.step_with(first) matches Ok(called)
            &&& called.step_with(second) matches Ok(back)
            &&& back.pc == s.pc + 2
            &&& back.stack == s.stack
        }),
{
    lemma_call_then_return(s, addr, first);
    let called = s.step_with(first)->Ok_0;
    assert(called.opcode() == 0x00EE);
    let inner = s.execute(Instruction::Call { addr }, first)->Ok_0;
    assert(inner.stack.drop_last() =~= s.stack);
}

/// Drawing the same sprite twice at the same place restores the
/// display, and the second draw sets the flag register to 1 exactly
/// when the first one lit a cell. The coordinates must not come from the
/// flag register, which the first draw overwrites.
pub proof fn lemma_draw_twice(s: Machine, x: u8, y: u8, n: u8, random: u8)
    requires
        s.wf(),
        x < 15,
        y < 15,
        n < 16,
        s.i + n <= 4096,
    ensures
        ({
            let draw = Instruction::Draw { x, y, n };
            let rows = s.memory.subrange(s.i as int, s.i + n);
            let vx = s.v[x as int] as int;
            let vy = s.v[y as int] as int;
            &&& s.execute(draw, random) matches Ok(once)
            &&& once.execute(draw, random) matches Ok(twice)
            &&& once.screen == drawn(s.screen, rows, vx, vy)
            &&& twice.screen == s.screen
            &&& (twice.v[0xF] == 1 <==> exists|k: int|
                0 <= k < 2048 && !#[trigger] s.screen[k] && sprite_hits(rows, vx, vy, k))
            &&& (twice.v[0xF] == 1 || twice.v[0xF] == 0)
        }),
{
    let draw = Instruction::Draw { x, y, n };
    let rows = s.memory.subrange(s.i as int, s.i + n);
    let vx = s.v[x as int] as int;
    let vy = s.v[y as int] as int;
    let once = s.execute(draw, random)->Ok_0;
    let twice = once.execute(draw, random)->Ok_0;
    lemma_draw_twice_restores(s.screen, rows, vx, vy);
    lemma_second_draw_collides(s.screen, rows, vx, vy);
    assert(once.memory.subrange(once.i as int, once.i + n) == rows);
    assert(twice.screen == drawn(once.screen, rows, vx, vy));
    assert(twice.v[0xF] == 1 <==> collides(once.screen, rows, vx, vy));
}

/// Only two instructions touch the display: clear-screen and draw.
/// Every other instruction leaves each cell as it was.
pub proof fn lemma_display_changes_by_draw_or_clear(s: Machine, ins: Instruction, random: u8)
    requires
        !(ins is ClearScreen),
        !(ins is Draw),
    ensures
        s.execute(ins, random) matches Ok(next) ==> next.screen == s.screen,
{
}

/// Whether the next step of `s` executes the instruction that sets the
/// sound timer.
pub open spec fn sets_sound(s: Machine) -> bool {
    s.pc <= 4094 && decoded(s.opcode()) matches Some(Instruction::SetSound { .. })
}

/// Whether the next step of `s` executes the instruction that sets the
/// delay timer.
pub open spec fn sets_delay(s: Machine) -> bool {
    s.pc <= 4094 && decoded(s.opcode()) matches Some(Instruction::SetDelay { .. })
}

/// A step that does not set a timer runs it down by one; at zero it
/// stays at zero.
pub proof fn lemma_timers_run_down(s: Machine, random: u8)
    ensures
        !sets_sound(s) ==> (s.step_with(random) matches Ok(next) ==> next.sound == run_down(
            s.sound,
        )),
        !sets_sound(s) ==> (s.step() matches Ok(next) ==> next.sound == run_down(s.sound)),
        !sets_delay(s) ==> (s.step_with(random) matches Ok(next) ==> next.delay == run_down(
            s.delay,
        )),
        !sets_delay(s) ==> (s.step() matches Ok(next) ==> next.delay == run_down(s.delay)),
{
}

/// The state after `n` steps, each with a random byte from the
/// machine's own generator. A step that faults leaves the state as it
/// is, and so does every step after it.
pub open spec fn after_steps(s: Machine, n: nat) -> Machine
    decreases n,
{
    if n == 0 {
        s
    } else {
        let before = after_steps(s, (n - 1) as nat);
        match before.step() {
            Ok(next) => next,
            Err(_) => before,
        }
    }
}

/// Whether none of the first `n` steps from `s` sets the sound timer.
pub open spec fn never_sets_sound(s: Machine, n: nat) -> bool {
    forall|k: nat| k < n ==> !sets_sound(#[trigger] after_steps(s, k))
}

/// Whether each of the first `n` steps from `s` succeeds.
pub open spec fn never_faults(s: Machine, n: nat) -> bool {
    forall|k: nat| k < n ==> (#[trigger] after_steps(s, k)).step() is Ok
}

/// The sound timer never goes up unless an instruction sets it: after
/// any number of steps none of which sets the sound timer, it is no
/// higher than before.
pub proof fn lemma_sound_never_rises(s: Machine, n: nat)
    requires
        never_sets_sound(s, n),
    ensures
        after_steps(s, n).sound <= s.sound,
    decreases n,
{
    if n > 0 {
        let shorter = (n - 1) as nat;
        lemma_sound_never_rises(s, shorter);
        assert(!sets_sound(after_steps(s, shorter)));
        lemma_timers_run_down(after_steps(s, shorter), 0);
    }
}

/// Once the sound timer is zero the tone stays off for ever, as long as
/// no instruction sets the sound timer.
pub proof fn lemma_silence_lasts(s: Machine, n: nat)
    requires
        s.sound == 0,
        never_sets_sound(s, n),
    ensures
        after_steps(s, n).sound == 0,
{
    lemma_sound_never_rises(s, n);
}

/// Steps drive the sound timer to zero: after `n` steps that succeed and
/// do not set the sound timer it has gone down by `n`, or to zero if it
/// was less than `n`.
pub proof fn lemma_sound_reaches_zero(s: Machine, n: nat)
    requires
        never_sets_sound(s, n),
        never_faults(s, n),
    ensures
        after_steps(s, n).sound == if s.sound >= n {
            s.sound - n
        } else {
            0
        },
    decreases n,
{
    if n > 0 {
        let shorter = (n - 1) as nat;
        lemma_sound_reaches_zero(s, shorter);
        assert(!sets_sound(after_steps(s, shorter)));
        assert(after_steps(s, shorter).step() is Ok);
        lemma_timers_run_down(after_steps(s, shorter), 0);
    }
}

/// The same holds whatever random bytes the steps are given: the state
/// after one step for each byte of `randoms`, taken in order as that
/// step's random byte. A step that faults leaves the state as it is.
pub open spec fn after_steps_with(s: Machine, randoms: Seq<u8>) -> Machine
    decreases randoms.len(),
{
    if randoms.len() == 0 {
        s
    } else {
        let before = after_steps_with(s, randoms.drop_last());
        match before.step_with(randoms.last()) {
            Ok(next) => next,
            Err(_) => before,
        }
    }
}

/// Whether none of the steps of `after_steps_with(s, randoms)` sets the
/// sound timer.
pub open spec fn never_sets_sound_with(s: Machine, randoms: Seq<u8>) -> bool {
    forall|k: int|
        0 <= k < randoms.len() ==> !sets_sound(#[trigger] after_steps_with(s, randoms.take(k)))
}

/// Once the sound timer is zero it stays zero under steps with any
/// random bytes, as long as no instruction sets the sound timer.
pub proof fn lemma_silence_lasts_with(s: Machine, randoms: Seq<u8>)
    requires
        s.sound == 0,
        never_sets_sound_with(s, randoms),
    ensures
        after_steps_with(s, randoms).sound == 0,
    decreases randoms.len(),
{
    if randoms.len() > 0 {
        let shorter = randoms.drop_last();
        assert forall|k: int| 0 <= k < shorter.len() implies !sets_sound(
            #[trigger] after_steps_with(s, shorter.take(k)),
        ) by {
            assert(shorter.take(k) =~= randoms.take(k));
        }
        lemma_silence_lasts_with(s, shorter);
        assert(randoms.take(shorter.len() as int) =~= shorter);
        lemma_timers_run_down(after_steps_with(s, shorter), randoms.last());
    }
}

} // verus!
