use vstd::prelude::*;
use crate::error::EmuError;
use crate::instruction::{decode_spec, Instruction};
use crate::state::MachineState;

verus! {

/// Adding an immediate byte to `Vx` gives the sum modulo 256 and writes no
/// other register: no flag is set.
pub proof fn lemma_add_immediate_wraps(state: MachineState, x: u8, kk: u8, random: u8)
    requires
        state.wf(),
        x < 16,
    ensures
        state.apply(Instruction::AddImm { x, kk }, random) matches Ok(after) && {
            &&& after.registers[x as int] == (state.registers[x as int] + kk) % 256
            &&& forall|r: int| 0 <= r < 16 && r != x ==> after.registers[r] == state.registers[r]
            &&& after == MachineState { registers: after.registers, ..state }
        },
{
}

/// Adding `Vy` to `Vx` sets `VF` to 1 if and only if the sum is 256 or
/// more, to 0 otherwise, and, where `Vx` is not `VF` itself, leaves the
/// sum modulo 256 in `Vx`.
pub proof fn lemma_add_carry(state: MachineState, x: u8, y: u8, random: u8)
    requires
        state.wf(),
        x < 16,
        y < 16,
    ensures
        state.apply(Instruction::AddCarry { x, y }, random) matches Ok(after) && {
            let sum = state.registers[x as int] + state.registers[y as int];
            &&& after.registers[0xF] == 1 <==> sum >= 256
            &&& after.registers[0xF] == 0 <==> sum < 256
            &&& x != 0xF ==> after.registers[x as int] == sum % 256
        },
{
}

/// Subtracting in either operand order sets `VF` to 1 if and only if no
/// borrow occurs, that is if the minuend is at least the subtrahend, to 0
/// otherwise, and, where `Vx` is not `VF` itself, leaves the difference
/// modulo 256 in `Vx`.
pub proof fn lemma_sub_flag(state: MachineState, x: u8, y: u8, random: u8)
    requires
        state.wf(),
        x < 16,
        y < 16,
    ensures
        state.apply(Instruction::Sub { x, y }, random) matches Ok(after) && {
            let minuend = state.registers[x as int];
            let subtrahend = state.registers[y as int];
            &&& after.registers[0xF] == 1 <==> minuend >= subtrahend
            &&& after.registers[0xF] == 0 <==> minuend < subtrahend
            &&& x != 0xF ==> after.registers[x as int] == (minuend - subtrahend) % 256
        },
        state.apply(Instruction::SubReverse { x, y }, random) matches Ok(after) && {
            let minuend = state.registers[y as int];
            let subtrahend = state.registers[x as int];
            &&& after.registers[0xF] == 1 <==> minuend >= subtrahend
            &&& after.registers[0xF] == 0 <==> minuend < subtrahend
            &&& x != 0xF ==> after.registers[x as int] == (minuend - subtrahend) % 256
        },
{
}

/// Clearing the display always succeeds, leaves every pixel off whatever
/// was lit before, and changes nothing when done a second time.
pub proof fn lemma_clear_screen(state: MachineState, random: u8)
    ensures
        state.apply(Instruction::ClearScreen, random) matches Ok(after) && {
            &&& after.display.len() == 2048
            &&& forall|p: int| 0 <= p < 2048 ==> !after.display[p]
            &&& after == MachineState { display: after.display, ..state }
            &&& after.apply(Instruction::ClearScreen, random) == Ok::<MachineState, EmuError>(after)
        },
{
    let after = state.apply(Instruction::ClearScreen, random)->Ok_0;
    let again = after.apply(Instruction::ClearScreen, random)->Ok_0;
    assert(again.display =~= after.display);
}

/// After a sprite is drawn, `VF` is 1 if and only if some pixel under a set
/// bit of the sprite was lit before the draw and is unlit after it; else
/// `VF` is 0. Every pixel under a set bit is flipped and no other.
pub proof fn lemma_draw_collision(state: MachineState, x: u8, y: u8, n: u8, random: u8)
    requires
        state.wf(),
        x < 16,
        y < 16,
        n < 16,
    ensures
        state.apply(Instruction::Draw { x, y, n }, random) matches Ok(after) ==> {
            let vx = state.registers[x as int];
            let vy = state.registers[y as int];
            &&& after.registers[0xF] == 1 <==> exists|p: int|
                0 <= p < 2048 && #[trigger] state.sprite_hits(vx, vy, n, p) && state.display[p]
                    && !after.display[p]
            &&& after.registers[0xF] == 0 || after.registers[0xF] == 1
            &&& forall|p: int|
                0 <= p < 2048 ==> (after.display[p] != state.display[p] <==> #[trigger] state.sprite_hits(
                    vx,
                    vy,
                    n,
                    p,
                ))
        },
{
    let vx = state.registers[x as int];
    let vy = state.registers[y as int];
    let after = state.apply(Instruction::Draw { x, y, n }, random)->Ok_0;
    if state.apply(Instruction::Draw { x, y, n }, random) is Ok && state.sprite_collides(vx, vy, n) {
        let p = choose|p: int|
            0 <= p < 2048 && state.display[p] && #[trigger] state.sprite_hits(vx, vy, n, p);
        assert(state.sprite_hits(vx, vy, n, p) && state.display[p] && !after.display[p]);
    }
}

/// The timers never go below zero, and a tick of the timer clock that beeps
/// is followed by one that does not: the beep comes once for each passage
/// of the sound timer from one to zero, and never while it rests at zero.
pub proof fn lemma_beep_once(state: MachineState)
    ensures
        state.tick_timers().delay_timer >= 0,
        state.tick_timers().sound_timer >= 0,
        state.delay_timer > 0 ==> state.tick_timers().delay_timer == state.delay_timer - 1,
        state.sound_timer > 0 ==> state.tick_timers().sound_timer == state.sound_timer - 1,
        state.delay_timer == 0 ==> state.tick_timers().delay_timer == 0,
        state.sound_timer == 0 ==> state.tick_timers().sound_timer == 0 && !state.beeps(),
        state.beeps() <==> state.sound_timer == 1 && state.tick_timers().sound_timer == 0,
        state.beeps() ==> !state.tick_timers().beeps(),
{
}

/// A call followed at once by a return: the program counter is on the
/// instruction after the call, and the stack, and the rest of the machine,
/// are as they were before the call.
pub proof fn lemma_call_return(state: MachineState, addr: u16, r1: u8, r2: u8)
    requires
        state.wf(),
        state.stack.len() < 16,
    ensures
        state.apply(Instruction::Call { addr }, r1) matches Ok(called) && {
            &&& called.pc == addr
            &&& called.stack.len() == state.stack.len() + 1
            &&& called.apply(Instruction::Return, r2) == Ok::<MachineState, EmuError>(state)
        },
{
    let called = state.apply(Instruction::Call { addr }, r1)->Ok_0;
    let returned = called.apply(Instruction::Return, r2)->Ok_0;
    assert(returned.stack =~= state.stack);
}

/// Two steps of the machine, the first on a call to `addr` and the second
/// on a return that lies at `addr`: the program counter is on the
/// instruction after the call, and the stack depth, and the rest of the
/// machine, are as they were before the call.
pub proof fn lemma_call_return_steps(state: MachineState, addr: u16, r1: u8, r2: u8)
    requires
        state.wf(),
        state.stack.len() < 16,
        state.pc + 1 < 4096,
        addr + 1 < 4096,
        decode_spec(state.opcode_at(state.pc as int)) == Some(Instruction::Call { addr }),
        decode_spec(state.opcode_at(addr as int)) == Some(Instruction::Return),
    ensures
        state.step(r1) matches Ok(called) && called.step(r2) matches Ok(returned) && {
            &&& called.stack.len() == state.stack.len() + 1
            &&& returned.pc == state.pc + 2
            &&& returned.stack == state.stack
            &&& returned == MachineState { pc: returned.pc, ..state }
        },
{
    let called = state.step(r1)->Ok_0;
    let returned = called.step(r2)->Ok_0;
    assert(returned.stack =~= state.stack);
}

/// A machine that waits for a key stays as it is, step after step, until a
/// key is pressed: the wait hands the program counter back to itself and
/// touches nothing else.
pub proof fn lemma_wait_key_blocks(state: MachineState, random: u8)
    requires
        state.wf(),
        state.awaiting_key(),
    ensures
        state.step(random) == Ok::<MachineState, EmuError>(state),
{
    let fetched = state.fetch()->Ok_0;
    assert(fetched.1.keys == state.keys);
    let stepped = state.step(random)->Ok_0;
    assert(stepped =~= state);
}

/// With a key pressed, a wait ends on the first step: the lowest pressed
/// key's index is in `Vx`, and the program counter has moved on.
pub proof fn lemma_wait_key_ends(state: MachineState, x: u8, key: int, random: u8)
    requires
        state.wf(),
        state.pc + 1 < 4096,
        decode_spec(state.opcode_at(state.pc as int)) == Some(Instruction::WaitKey { x }),
        0 <= key < 16,
        state.keys[key],
        forall|j: int| 0 <= j < key ==> !state.keys[j],
    ensures
        state.step(random) == Ok::<MachineState, EmuError>(
            MachineState {
                pc: (state.pc + 2) as u16,
                registers: state.registers.update(x as int, key as u8),
                ..state
            },
        ),
{
    let chosen = crate::state::first_pressed(state.keys);
    assert(0 <= chosen < 16 && state.keys[chosen] && forall|j: int|
        0 <= j < chosen ==> !state.keys[j]);
    assert(chosen == key);
    let fetched = state.fetch()->Ok_0.1;
    assert(fetched.keys[key]);
}

/// What an instruction leaves alone. No instruction touches the keypad or
/// the quirks; the timers change only when an instruction sets them, the
/// display only on a clear or a draw, memory only when digits or registers
/// are stored, and the stack only on a call or a return.
pub proof fn lemma_apply_frame(state: MachineState, instr: Instruction, random: u8)
    requires
        state.wf(),
        instr.wf(),
    ensures
        state.apply(instr, random) matches Ok(after) ==> {
            &&& after.keys == state.keys
            &&& after.quirks == state.quirks
            &&& !(instr is SetDelay) ==> after.delay_timer == state.delay_timer
            &&& !(instr is SetSound) ==> after.sound_timer == state.sound_timer
            &&& !(instr is ClearScreen || instr is Draw) ==> after.display == state.display
            &&& !(instr is Bcd || instr is StoreRegs) ==> after.memory == state.memory
            &&& !(instr is Call || instr is Return) ==> after.stack == state.stack
        },
{
}

/// A tick of the timer clock touches the two timers and nothing else.
pub proof fn lemma_tick_timers_frame(state: MachineState)
    ensures
        state.tick_timers() == (MachineState {
            delay_timer: state.tick_timers().delay_timer,
            sound_timer: state.tick_timers().sound_timer,
            ..state
        }),
{
}

/// A transition that succeeds leads from a well-formed state to a
/// well-formed state.
pub proof fn lemma_apply_preserves_wf(state: MachineState, instr: Instruction, random: u8)
    requires
        state.wf(),
        instr.wf(),
    ensures
        state.apply(instr, random) matches Ok(after) ==> after.wf(),
{
}

} // verus!
