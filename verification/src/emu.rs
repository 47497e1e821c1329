use vstd::prelude::*;
use crate::error::EmuError;
use crate::font::{FONTSET, FONTSET_SIZE, GLYPH_SIZE};
use crate::instruction::{decode, decode_spec, Instruction};
use crate::random::random_byte;
use crate::state::{
    first_pressed, lemma_random_byte_unused, outcome_is, pixel_index, sprite_col, sprite_covers,
    sprite_row, MachineState, Quirks, DISPLAY_SIZE, FLAG_REG, NUM_KEYS, NUM_REGS, RAM_SIZE,
    SCREEN_HEIGHT, SCREEN_WIDTH, STACK_SIZE, START_ADDR,
};

verus! {

/// The machine: memory, registers, call stack, timers, display and keypad.
pub struct Emu {
    pc: u16,
    ram: [u8; RAM_SIZE],
    screen: [bool; DISPLAY_SIZE],
    v_reg: [u8; NUM_REGS],
    i_reg: u16,
    sp: u16,
    stack: [u16; STACK_SIZE],
    keys: [bool; NUM_KEYS],
    dt: u8,
    st: u8,
    quirks: Quirks,
}

impl View for Emu {
    type V = MachineState;

    /// The machine as the model sees it; of the stack's sixteen slots only
    /// those below the stack pointer count.
    closed spec fn view(&self) -> MachineState {
        MachineState {
            pc: self.pc,
            memory: self.ram@,
            display: self.screen@,
            registers: self.v_reg@,
            index: self.i_reg,
            stack: self.stack@.take(self.sp as int),
            keys: self.keys@,
            delay_timer: self.dt,
            sound_timer: self.st,
            quirks: self.quirks,
        }
    }
}

/// Copies the built-in font to the bottom of `ram`.
fn install_font(ram: &mut [u8; RAM_SIZE])
    ensures
        forall|a: int| 0 <= a < 80 ==> final(ram)@[a] == FONTSET[a],
        forall|a: int| 80 <= a < 4096 ==> final(ram)@[a] == old(ram)@[a],
    no_unwind
{
    let mut i: usize = 0;
    while i < FONTSET_SIZE
        invariant
            i <= 80,
            forall|a: int| 0 <= a < i ==> ram@[a] == FONTSET[a],
            forall|a: int| i <= a < 4096 ==> ram@[a] == old(ram)@[a],
        decreases 80 - i,
    {
        ram[i] = FONTSET[i];
        i += 1;
    }
}

/// Whether pixel `p` is under a set bit of the sprite that comes before row
/// `row`, column `col` in drawing order.
spec fn drawn_before(
    memory: Seq<u8>,
    base: int,
    vx: u8,
    vy: u8,
    n: u8,
    p: int,
    row: int,
    col: int,
) -> bool {
    &&& sprite_covers(memory, base, vx, vy, n, p)
    &&& (sprite_row(vy, p) < row || (sprite_row(vy, p) == row && sprite_col(vx, p) < col))
}

/// The pixel on which a sprite position lands lies on the display, and its
/// sprite position is that one.
proof fn lemma_pixel_position(vx: u8, vy: u8, row: int, col: int)
    requires
        0 <= row < 32,
        0 <= col < 64,
    ensures
        0 <= pixel_index(vx, vy, row, col) < 2048,
        sprite_col(vx, pixel_index(vx, vy, row, col)) == col,
        sprite_row(vy, pixel_index(vx, vy, row, col)) == row,
{
    let x = (vx + col) % 64;
    let y = (vy + row) % 32;
    let idx = x + 64 * y;
    assert(idx % 64 == x && idx / 64 == y);
    assert((x - vx) % 64 == col);
    assert((y - vy) % 32 == row);
}

/// Only one pixel of the display has a given sprite position.
proof fn lemma_pixel_unique(vx: u8, vy: u8, row: int, col: int, p: int)
    requires
        0 <= row < 32,
        0 <= col < 64,
        0 <= p < 2048,
        sprite_col(vx, p) == col,
        sprite_row(vy, p) == row,
    ensures
        p == pixel_index(vx, vy, row, col),
{
    let x = p % 64;
    let y = p / 64;
    assert(p == x + 64 * y);
    assert(x == (vx + col) % 64);
    assert(y == (vy + row) % 32);
}

/// A sprite position and the pixel it lands on determine each other.
proof fn lemma_pixel_index(vx: u8, vy: u8, row: int, col: int)
    requires
        0 <= row < 32,
        0 <= col < 64,
    ensures
        0 <= pixel_index(vx, vy, row, col) < 2048,
        sprite_col(vx, pixel_index(vx, vy, row, col)) == col,
        sprite_row(vy, pixel_index(vx, vy, row, col)) == row,
        forall|p: int|
            0 <= p < 2048 && #[trigger] sprite_col(vx, p) == col && sprite_row(vy, p) == row
                ==> p == pixel_index(vx, vy, row, col),
{
    lemma_pixel_position(vx, vy, row, col);
    assert forall|p: int|
        0 <= p < 2048 && #[trigger] sprite_col(vx, p) == col && sprite_row(vy, p)
            == row implies p == pixel_index(vx, vy, row, col) by {
        lemma_pixel_unique(vx, vy, row, col, p);
    }
}

/// Draws the `n`-row sprite that starts at `ram[base]` at `(vx, vy)`: flips
/// each pixel under a set bit, and tells whether one of them was lit.
fn blit_sprite(
    screen: &mut [bool; DISPLAY_SIZE],
    ram: &[u8; RAM_SIZE],
    base: usize,
    n: u8,
    vx: u8,
    vy: u8,
) -> (collision: bool)
    requires
        n < 16,
        n > 0 ==> base + n <= 4096,
    ensures
        forall|p: int|
            0 <= p < 2048 ==> final(screen)@[p] == (old(screen)@[p] != sprite_covers(
                ram@,
                base as int,
                vx,
                vy,
                n,
                p,
            )),
        collision <==> exists|p: int|
            0 <= p < 2048 && old(screen)@[p] && #[trigger] sprite_covers(
                ram@,
                base as int,
                vx,
                vy,
                n,
                p,
            ),
    no_unwind
{
    let ghost orig = screen@;
    let ghost mem = ram@;
    let ghost b = base as int;
    let mut collision = false;
    let mut row: u8 = 0;
    while row < n
        invariant
            row <= n < 16,
            n > 0 ==> base + n <= 4096,
            mem == ram@,
            b == base,
            orig.len() == 2048,
            forall|p: int|
                0 <= p < 2048 ==> screen@[p] == (orig[p] != drawn_before(
                    mem,
                    b,
                    vx,
                    vy,
                    n,
                    p,
                    row as int,
                    0,
                )),
            collision ==> exists|p: int|
                0 <= p < 2048 && orig[p] && #[trigger] sprite_covers(mem, b, vx, vy, n, p),
            !collision ==> forall|p: int|
                0 <= p < 2048 && #[trigger] drawn_before(mem, b, vx, vy, n, p, row as int, 0)
                    ==> !orig[p],
        decreases n - row,
    {
        let pixels = ram[base + row as usize];
        let mut col: u8 = 0;
        while col < 8
            invariant
                row < n < 16,
                col <= 8,
                base + n <= 4096,
                pixels == mem[b + row],
                orig.len() == 2048,
                forall|p: int|
                    0 <= p < 2048 ==> screen@[p] == (orig[p] != drawn_before(
                        mem,
                        b,
                        vx,
                        vy,
                        n,
                        p,
                        row as int,
                        col as int,
                    )),
                collision ==> exists|p: int|
                    0 <= p < 2048 && orig[p] && #[trigger] sprite_covers(mem, b, vx, vy, n, p),
                !collision ==> forall|p: int|
                    0 <= p < 2048 && #[trigger] drawn_before(
                        mem,
                        b,
                        vx,
                        vy,
                        n,
                        p,
                        row as int,
                        col as int,
                    ) ==> !orig[p],
            decreases 8 - col,
        {
            proof {
                lemma_pixel_index(vx, vy, row as int, col as int);
            }
            if pixels & (0x80u8 >> col) != 0 {
                let x = (vx as usize + col as usize) % SCREEN_WIDTH;
                let y = (vy as usize + row as usize) % SCREEN_HEIGHT;
                let idx = x + SCREEN_WIDTH * y;
                assert(idx == pixel_index(vx, vy, row as int, col as int));
                assert(sprite_covers(mem, b, vx, vy, n, idx as int));
                assert(!drawn_before(mem, b, vx, vy, n, idx as int, row as int, col as int));
                if screen[idx] {
                    collision = true;
                }
                screen[idx] = !screen[idx];
            }
            col += 1;
        }
        row += 1;
    }
    proof {
        assert forall|p: int| 0 <= p < 2048 implies drawn_before(mem, b, vx, vy, n, p, n as int, 0)
            == sprite_covers(mem, b, vx, vy, n, p) by {}
    }
    collision
}

/// Copies `regs[0..=x]` to `ram[base..=base + x]`.
fn store_registers(ram: &mut [u8; RAM_SIZE], regs: &[u8; NUM_REGS], base: usize, x: u8)
    requires
        x < 16,
        base + x < 4096,
    ensures
        forall|a: int|
            0 <= a < 4096 ==> final(ram)@[a] == if base <= a <= base + x {
                regs@[a - base]
            } else {
                old(ram)@[a]
            },
    no_unwind
{
    let mut r: usize = 0;
    while r <= x as usize
        invariant
            x < 16,
            base + x < 4096,
            r <= x + 1,
            forall|a: int|
                0 <= a < 4096 ==> ram@[a] == if base <= a < base + r {
                    regs@[a - base]
                } else {
                    old(ram)@[a]
                },
        decreases x + 1 - r,
    {
        ram[base + r] = regs[r];
        r += 1;
    }
}

/// Copies `ram[base..=base + x]` to `regs[0..=x]`.
fn load_registers(regs: &mut [u8; NUM_REGS], ram: &[u8; RAM_SIZE], base: usize, x: u8)
    requires
        x < 16,
        base + x < 4096,
    ensures
        forall|r: int|
            0 <= r < 16 ==> final(regs)@[r] == if r <= x {
                ram@[base + r]
            } else {
                old(regs)@[r]
            },
    no_unwind
{
    let mut r: usize = 0;
    while r <= x as usize
        invariant
            x < 16,
            base + x < 4096,
            r <= x + 1,
            forall|k: int|
                0 <= k < 16 ==> regs@[k] == if k < r {
                    ram@[base + k]
                } else {
                    old(regs)@[k]
                },
        decreases x + 1 - r,
    {
        regs[r] = ram[base + r];
        r += 1;
    }
}

/// Copies `data` to `ram`, starting at the program origin.
fn copy_program(ram: &mut [u8; RAM_SIZE], data: &[u8], len: usize)
    requires
        len == data@.len(),
        len <= 4096 - 0x200,
    ensures
        forall|a: int|
            0 <= a < 4096 ==> final(ram)@[a] == if 0x200 <= a < 0x200 + data@.len() {
                data@[a - 0x200]
            } else {
                old(ram)@[a]
            },
    no_unwind
{
    let start = START_ADDR as usize;
    let mut i: usize = 0;
    while i < len
        invariant
            start == 0x200,
            len == data@.len(),
            len <= 4096 - 0x200,
            i <= data@.len(),
            forall|a: int|
                0 <= a < 4096 ==> ram@[a] == if 0x200 <= a < 0x200 + i {
                    data@[a - 0x200]
                } else {
                    old(ram)@[a]
                },
        decreases data@.len() - i,
    {
        ram[start + i] = data[i];
        i += 1;
    }
}

/// The index of the lowest pressed key, if any key is pressed.
fn lowest_pressed(keys: &[bool; NUM_KEYS]) -> (found: Option<u8>)
    ensures
        match found {
            Some(k) => k < 16 && keys@[k as int] && k == first_pressed(keys@),
            None => forall|k: int| 0 <= k < 16 ==> !keys@[k],
        },
{
    let mut k: u8 = 0;
    while k < 16
        invariant
            k <= 16,
            forall|j: int| 0 <= j < k ==> !keys@[j],
        decreases 16 - k,
    {
        if keys[k as usize] {
            proof {
                let chosen = first_pressed(keys@);
                assert(0 <= chosen < 16 && keys@[chosen] && forall|j: int|
                    0 <= j < chosen ==> !keys@[j]);
            }
            return Some(k);
        }
        k += 1;
    }
    None
}

/// The instructions that move the program counter without a condition,
/// clear the display or do nothing.
spec fn is_control(instr: Instruction) -> bool {
    match instr {
        Instruction::Nop | Instruction::ClearScreen | Instruction::Return => true,
        Instruction::Jump { .. } | Instruction::Call { .. } => true,
        Instruction::JumpOffset { .. } | Instruction::WaitKey { .. } => true,
        _ => false,
    }
}

/// The conditional skips.
spec fn is_skip(instr: Instruction) -> bool {
    match instr {
        Instruction::SkipEqImm { .. } | Instruction::SkipNeImm { .. } => true,
        Instruction::SkipEqReg { .. } | Instruction::SkipNeReg { .. } => true,
        Instruction::SkipKeyPressed { .. } | Instruction::SkipKeyNotPressed { .. } => true,
        _ => false,
    }
}

/// The instructions that write `Vx` and nothing else.
spec fn is_load(instr: Instruction) -> bool {
    match instr {
        Instruction::LoadImm { .. } | Instruction::AddImm { .. } => true,
        Instruction::Move { .. } | Instruction::Or { .. } => true,
        Instruction::And { .. } | Instruction::Xor { .. } => true,
        Instruction::Random { .. } | Instruction::ReadDelay { .. } => true,
        _ => false,
    }
}

/// The instructions that write `Vx` and a flag in `VF`.
spec fn is_flagged(instr: Instruction) -> bool {
    match instr {
        Instruction::AddCarry { .. } | Instruction::Sub { .. } => true,
        Instruction::SubReverse { .. } => true,
        Instruction::ShiftRight { .. } | Instruction::ShiftLeft { .. } => true,
        _ => false,
    }
}

/// The instructions that work on the index register, the timers, memory
/// or the display.
spec fn is_memory(instr: Instruction) -> bool {
    match instr {
        Instruction::LoadIndex { .. } | Instruction::Draw { .. } => true,
        Instruction::SetDelay { .. } | Instruction::SetSound { .. } => true,
        Instruction::AddIndex { .. } | Instruction::FontAddr { .. } => true,
        Instruction::Bcd { .. } | Instruction::StoreRegs { .. } => true,
        Instruction::LoadRegs { .. } => true,
        _ => false,
    }
}

impl Emu {
    #[verifier::type_invariant]
    spec fn stack_pointer_in_range(self) -> bool {
        self.sp <= 16
    }

    /// A machine in its startup state, with the baseline behaviour.
    pub fn new() -> (emu: Emu)
        ensures
            emu@ == MachineState::initial(Quirks::baseline()),
            emu@.wf(),
    {
        Emu::with_quirks(Quirks::baseline())
    }

    /// A machine in its startup state, with the behaviour that `quirks` selects.
    pub fn with_quirks(quirks: Quirks) -> (emu: Emu)
        ensures
            emu@ == MachineState::initial(quirks),
            emu@.wf(),
    {
        let mut emu = Emu {
            pc: START_ADDR,
            ram: [0u8; RAM_SIZE],
            screen: [false; DISPLAY_SIZE],
            v_reg: [0u8; NUM_REGS],
            i_reg: 0,
            sp: 0,
            stack: [0u16; STACK_SIZE],
            keys: [false; NUM_KEYS],
            dt: 0,
            st: 0,
            quirks,
        };
        install_font(&mut emu.ram);
        emu
    }

    /// Puts the machine back in its startup state; the quirks stay.
    pub fn reset(&mut self)
        ensures
            final(self)@ == MachineState::initial(old(self)@.quirks),
            final(self)@.wf(),
    {
        *self = Emu::with_quirks(self.quirks);
    }
    /// The big-endian opcode whose two bytes lie at `addr` and `addr + 1`.
    fn opcode_at(&self, addr: u16) -> (op: u16)
        requires
            addr + 1 < 4096,
        ensures
            op == self@.opcode_at(addr as int),
    {
        let hb = self.ram[addr as usize] as u16;
        let lb = self.ram[addr as usize + 1] as u16;
        assert((hb << 8) | lb == hb * 256 + lb) by (bit_vector)
            requires
                hb < 256,
                lb < 256,
        ;
        (hb << 8) | lb
    }

    /// Reads the opcode at the program counter and moves the program counter
    /// past it. Refused, with nothing changed, if the opcode's two bytes do
    /// not both lie inside memory.
    pub fn fetch(&mut self) -> (r: Result<u16, EmuError>)
        ensures
            match old(self)@.fetch() {
                Ok(fetched) => r == Ok::<u16, EmuError>(fetched.0) && final(self)@ == fetched.1,
                Err(e) => r == Err::<u16, EmuError>(e) && final(self)@ == old(self)@,
            },
            final(self)@.wf(),
    {
        proof {
            use_type_invariant(&*self);
        }
        if self.pc as usize + 1 >= RAM_SIZE {
            return Err(EmuError::PcOutOfRange);
        }
        let op = self.opcode_at(self.pc);
        self.pc = self.pc + 2;
        Ok(op)
    }

    /// Puts `val` on the call stack. Refused, with nothing changed, if the
    /// stack is full.
    fn push(&mut self, val: u16) -> (r: Result<(), EmuError>)
        ensures
            outcome_is(
                old(self)@,
                if old(self)@.stack.len() >= 16 {
                    Err(EmuError::StackOverflow)
                } else {
                    Ok(MachineState { stack: old(self)@.stack.push(val), ..old(self)@ })
                },
                r,
                final(self)@,
            ),
    {
        proof {
            use_type_invariant(&*self);
        }
        if self.sp as usize >= STACK_SIZE {
            return Err(EmuError::StackOverflow);
        }
        self.stack[self.sp as usize] = val;
        self.sp = self.sp + 1;
        assert(self@.stack =~= old(self)@.stack.push(val));
        Ok(())
    }

    /// Takes the latest return address off the call stack. Refused, with
    /// nothing changed, if the stack is empty.
    fn pop(&mut self) -> (r: Result<u16, EmuError>)
        ensures
            old(self)@.stack.len() == 0 ==> r == Err::<u16, EmuError>(EmuError::StackUnderflow)
                && final(self)@ == old(self)@,
            old(self)@.stack.len() > 0 ==> r == Ok::<u16, EmuError>(old(self)@.stack.last())
                && final(self)@ == (MachineState {
                stack: old(self)@.stack.drop_last(),
                ..old(self)@
            }),
    {
        proof {
            use_type_invariant(&*self);
        }
        if self.sp == 0 {
            return Err(EmuError::StackUnderflow);
        }
        self.sp = self.sp - 1;
        assert(self@.stack =~= old(self)@.stack.drop_last());
        Ok(self.stack[self.sp as usize])
    }

    /// One tick of the timer clock: each timer that is not zero goes down by
    /// one. Returns whether this tick took the sound timer from one to zero.
    pub fn tick_timers(&mut self) -> (beep: bool)
        ensures
            final(self)@ == old(self)@.tick_timers(),
            beep == old(self)@.beeps(),
            beep <==> old(self)@.sound_timer == 1 && final(self)@.sound_timer == 0,
            final(self)@.wf(),
    {
        proof {
            use_type_invariant(&*self);
        }
        let mut beep = false;
        if self.dt > 0 {
            self.dt -= 1;
        }
        if self.st > 0 {
            if self.st == 1 {
                beep = true;
            }
            self.st -= 1;
        }
        beep
    }

    /// The display, row by row, 64 pixels to the row; `true` is lit.
    pub fn get_display(&self) -> (display: &[bool])
        ensures
            display@ == self@.display,
            display@.len() == 2048,
    {
        &self.screen
    }

    /// Copies a program to memory, starting at the program origin. Refused,
    /// with nothing changed, if the program does not fit.
    pub fn load(&mut self, data: &[u8]) -> (r: Result<(), EmuError>)
        ensures
            outcome_is(old(self)@, old(self)@.load(data@), r, final(self)@),
            r is Ok <==> data@.len() <= 4096 - 0x200,
            final(self)@.wf(),
    {
        proof {
            use_type_invariant(&*self);
        }
        if data.len() > RAM_SIZE - START_ADDR as usize {
            return Err(EmuError::RomTooLarge);
        }
        copy_program(&mut self.ram, data, data.len());
        assert(self@.memory =~= old(self)@.load(data@)->Ok_0.memory);
        Ok(())
    }

    /// Records that key `idx` is pressed or released. Refused, with nothing
    /// changed, if there is no such key.
    pub fn keypress(&mut self, idx: usize, pressed: bool) -> (r: Result<(), EmuError>)
        ensures
            outcome_is(old(self)@, old(self)@.keypress(idx as int, pressed), r, final(self)@),
            r is Ok <==> idx < 16,
            final(self)@.wf(),
    {
        proof {
            use_type_invariant(&*self);
        }
        if idx >= NUM_KEYS {
            return Err(EmuError::KeyOutOfRange);
        }
        self.keys[idx] = pressed;
        Ok(())
    }
    /// Writes `value` to register `x`, then `flag` to `VF`.
    fn set_reg_and_flag(&mut self, x: u8, value: u8, flag: u8)
        requires
            x < 16,
        ensures
            final(self)@ == old(self)@.set_reg_and_flag(x, value, flag),
    {
        proof {
            use_type_invariant(&*self);
        }
        self.v_reg[x as usize] = value;
        self.v_reg[FLAG_REG] = flag;
    }

    /// Moves the program counter past one more instruction if `cond` holds.
    fn skip_if(&mut self, cond: bool) -> (r: Result<(), EmuError>)
        ensures
            outcome_is(old(self)@, old(self)@.skip_if(cond), r, final(self)@),
    {
        proof {
            use_type_invariant(&*self);
        }
        if cond {
            if self.pc > 0xFFFF - 2 {
                return Err(EmuError::PcOutOfRange);
            }
            self.pc = self.pc + 2;
        }
        Ok(())
    }

    /// The operand of a shift on `Vx`.
    fn shift_source(&self, x: u8, y: u8) -> (v: u8)
        requires
            x < 16,
            y < 16,
        ensures
            v == self@.shift_source(x, y),
    {
        if self.quirks.shift_uses_vy {
            self.v_reg[y as usize]
        } else {
            self.v_reg[x as usize]
        }
    }
    /// Draws the `n`-row sprite at `I` at `(Vx, Vy)` and writes the collision
    /// flag to `VF`.
    fn draw(&mut self, x: u8, y: u8, n: u8) -> (r: Result<(), EmuError>)
        requires
            x < 16,
            y < 16,
            n < 16,
        ensures
            outcome_is(old(self)@, old(self)@.draw(x, y, n), r, final(self)@),
    {
        proof {
            use_type_invariant(&*self);
        }
        let vx = self.v_reg[x as usize];
        let vy = self.v_reg[y as usize];
        let base = self.i_reg as usize;
        if n > 0 && base + n as usize > RAM_SIZE {
            return Err(EmuError::MemoryOutOfRange);
        }
        let collision = blit_sprite(&mut self.screen, &self.ram, base, n, vx, vy);
        self.v_reg[FLAG_REG] = if collision {
            1
        } else {
            0
        };
        proof {
            let expected = old(self)@.draw(x, y, n)->Ok_0;
            assert(self@.display =~= expected.display);
            assert(collision == old(self)@.sprite_collides(vx, vy, n));
            assert(self@.registers =~= expected.registers);
        }
        Ok(())
    }

    /// Stores the lowest pressed key in `Vx`, or, with no key pressed, puts
    /// the program counter back on the instruction.
    fn wait_key(&mut self, x: u8) -> (r: Result<(), EmuError>)
        requires
            x < 16,
        ensures
            outcome_is(old(self)@, old(self)@.wait_key(x), r, final(self)@),
    {
        proof {
            use_type_invariant(&*self);
        }
        match lowest_pressed(&self.keys) {
            Some(k) => {
                assert(self@.keys[k as int]);
                self.v_reg[x as usize] = k;
                Ok(())
            },
            None => {
                if self.pc < 2 {
                    return Err(EmuError::PcOutOfRange);
                }
                self.pc = self.pc - 2;
                Ok(())
            },
        }
    }

    /// Writes the decimal digits of `Vx` to `I`, `I + 1` and `I + 2`.
    fn store_bcd(&mut self, x: u8) -> (r: Result<(), EmuError>)
        requires
            x < 16,
        ensures
            outcome_is(old(self)@, old(self)@.store_bcd(x), r, final(self)@),
    {
        proof {
            use_type_invariant(&*self);
        }
        let value = self.v_reg[x as usize];
        let i = self.i_reg as usize;
        if i + 2 >= RAM_SIZE {
            return Err(EmuError::MemoryOutOfRange);
        }
        self.ram[i] = value / 100;
        self.ram[i + 1] = (value / 10) % 10;
        self.ram[i + 2] = value % 10;
        Ok(())
    }

    /// Copies `V0..=Vx` to memory at `I`.
    fn store_regs(&mut self, x: u8) -> (r: Result<(), EmuError>)
        requires
            x < 16,
        ensures
            outcome_is(old(self)@, old(self)@.store_regs(x), r, final(self)@),
    {
        proof {
            use_type_invariant(&*self);
        }
        let i = self.i_reg as usize;
        if i + x as usize >= RAM_SIZE {
            return Err(EmuError::MemoryOutOfRange);
        }
        store_registers(&mut self.ram, &self.v_reg, i, x);
        assert(self@.memory =~= old(self)@.store_regs(x)->Ok_0.memory);
        Ok(())
    }

    /// Copies memory at `I` to `V0..=Vx`.
    fn load_regs(&mut self, x: u8) -> (r: Result<(), EmuError>)
        requires
            x < 16,
        ensures
            outcome_is(old(self)@, old(self)@.load_regs(x), r, final(self)@),
    {
        proof {
            use_type_invariant(&*self);
        }
        let i = self.i_reg as usize;
        if i + x as usize >= RAM_SIZE {
            return Err(EmuError::MemoryOutOfRange);
        }
        load_registers(&mut self.v_reg, &self.ram, i, x);
        assert(self@.registers =~= old(self)@.load_regs(x)->Ok_0.registers);
        Ok(())
    }
    /// Writes `value` to register `x`.
    fn set_reg(&mut self, x: u8, value: u8)
        requires
            x < 16,
        ensures
            final(self)@ == old(self)@.set_reg(x, value),
    {
        proof {
            use_type_invariant(&*self);
        }
        self.v_reg[x as usize] = value;
    }

    /// Runs an instruction that moves the program counter or clears the
    /// display.
    fn apply_control(&mut self, instr: Instruction) -> (r: Result<(), EmuError>)
        requires
            instr.wf(),
            is_control(instr),
        ensures
            outcome_is(old(self)@, old(self)@.apply(instr, 0), r, final(self)@),
    {
        proof {
            use_type_invariant(&*self);
        }
        match instr {
            Instruction::ClearScreen => {
                self.screen = [false; DISPLAY_SIZE];
                assert(self@.display =~= Seq::new(2048, |p: int| false));
                Ok(())
            },
            Instruction::Return => {
                match self.pop() {
                    Ok(addr) => {
                        proof {
                            use_type_invariant(&*self);
                        }
                        self.pc = addr;
                        Ok(())
                    },
                    Err(e) => Err(e),
                }
            },
            Instruction::Jump { addr } => {
                self.pc = addr;
                Ok(())
            },
            Instruction::Call { addr } => {
                match self.push(self.pc) {
                    Ok(()) => {
                        proof {
                            use_type_invariant(&*self);
                        }
                        self.pc = addr;
                        Ok(())
                    },
                    Err(e) => Err(e),
                }
            },
            Instruction::JumpOffset { addr } => {
                self.pc = self.v_reg[0] as u16 + addr;
                Ok(())
            },
            Instruction::WaitKey { x } => self.wait_key(x),
            _ => Ok(()),
        }
    }

    /// Runs a conditional skip.
    fn apply_skip(&mut self, instr: Instruction) -> (r: Result<(), EmuError>)
        requires
            instr.wf(),
            is_skip(instr),
        ensures
            outcome_is(old(self)@, old(self)@.apply(instr, 0), r, final(self)@),
    {
        match instr {
            Instruction::SkipEqImm { x, kk } => {
                let cond = self.v_reg[x as usize] == kk;
                self.skip_if(cond)
            },
            Instruction::SkipNeImm { x, kk } => {
                let cond = self.v_reg[x as usize] != kk;
                self.skip_if(cond)
            },
            Instruction::SkipEqReg { x, y } => {
                let cond = self.v_reg[x as usize] == self.v_reg[y as usize];
                self.skip_if(cond)
            },
            Instruction::SkipNeReg { x, y } => {
                let cond = self.v_reg[x as usize] != self.v_reg[y as usize];
                self.skip_if(cond)
            },
            Instruction::SkipKeyPressed { x } => {
                let key = self.v_reg[x as usize] as usize;
                if key >= NUM_KEYS {
                    return Err(EmuError::KeyOutOfRange);
                }
                let cond = self.keys[key];
                self.skip_if(cond)
            },
            Instruction::SkipKeyNotPressed { x } => {
                let key = self.v_reg[x as usize] as usize;
                if key >= NUM_KEYS {
                    return Err(EmuError::KeyOutOfRange);
                }
                let cond = !self.keys[key];
                self.skip_if(cond)
            },
            _ => Ok(()),
        }
    }

    /// Runs an instruction that writes `Vx` alone.
    fn apply_load(&mut self, instr: Instruction, random: u8)
        requires
            instr.wf(),
            is_load(instr),
        ensures
            old(self)@.apply(instr, random) == Ok::<MachineState, EmuError>(final(self)@),
    {
        match instr {
            Instruction::LoadImm { x, kk } => {
                self.set_reg(x, kk);
            },
            Instruction::AddImm { x, kk } => {
                let sum = self.v_reg[x as usize] as u16 + kk as u16;
                self.set_reg(x, (sum % 256) as u8);
            },
            Instruction::Move { x, y } => {
                let v = self.v_reg[y as usize];
                self.set_reg(x, v);
            },
            Instruction::Or { x, y } => {
                let v = self.v_reg[x as usize] | self.v_reg[y as usize];
                self.set_reg(x, v);
            },
            Instruction::And { x, y } => {
                let v = self.v_reg[x as usize] & self.v_reg[y as usize];
                self.set_reg(x, v);
            },
            Instruction::Xor { x, y } => {
                let v = self.v_reg[x as usize] ^ self.v_reg[y as usize];
                self.set_reg(x, v);
            },
            Instruction::Random { x, kk } => {
                self.set_reg(x, random & kk);
            },
            Instruction::ReadDelay { x } => {
                let v = self.dt;
                self.set_reg(x, v);
            },
            _ => {},
        }
    }

    /// Runs an instruction that writes `Vx` and the flag in `VF`.
    fn apply_flagged(&mut self, instr: Instruction)
        requires
            instr.wf(),
            is_flagged(instr),
        ensures
            old(self)@.apply(instr, 0) == Ok::<MachineState, EmuError>(final(self)@),
    {
        match instr {
            Instruction::AddCarry { x, y } => {
                let sum = self.v_reg[x as usize] as u16 + self.v_reg[y as usize] as u16;
                let flag: u8 = if sum > 255 {
                    1
                } else {
                    0
                };
                self.set_reg_and_flag(x, (sum % 256) as u8, flag);
            },
            Instruction::Sub { x, y } => {
                let a = self.v_reg[x as usize];
                let b = self.v_reg[y as usize];
                let flag: u8 = if a >= b {
                    1
                } else {
                    0
                };
                self.set_reg_and_flag(x, a.wrapping_sub(b), flag);
            },
            Instruction::ShiftRight { x, y } => {
                let v = self.shift_source(x, y);
                assert(v >> 1 == v / 2 && v & 1 == v % 2) by (bit_vector);
                self.set_reg_and_flag(x, v >> 1, v & 1);
            },
            Instruction::SubReverse { x, y } => {
                let a = self.v_reg[y as usize];
                let b = self.v_reg[x as usize];
                let flag: u8 = if a >= b {
                    1
                } else {
                    0
                };
                self.set_reg_and_flag(x, a.wrapping_sub(b), flag);
            },
            Instruction::ShiftLeft { x, y } => {
                let v = self.shift_source(x, y);
                assert(v << 1 == (v * 2) % 256 && v >> 7 == v / 128) by (bit_vector);
                self.set_reg_and_flag(x, v << 1, v >> 7);
            },
            _ => {},
        }
    }

    /// Runs an instruction that works on the index register, the timers,
    /// memory or the display.
    fn apply_memory(&mut self, instr: Instruction) -> (r: Result<(), EmuError>)
        requires
            instr.wf(),
            is_memory(instr),
        ensures
            outcome_is(old(self)@, old(self)@.apply(instr, 0), r, final(self)@),
    {
        proof {
            use_type_invariant(&*self);
        }
        match instr {
            Instruction::LoadIndex { addr } => {
                self.i_reg = addr;
                Ok(())
            },
            Instruction::Draw { x, y, n } => self.draw(x, y, n),
            Instruction::SetDelay { x } => {
                self.dt = self.v_reg[x as usize];
                Ok(())
            },
            Instruction::SetSound { x } => {
                self.st = self.v_reg[x as usize];
                Ok(())
            },
            Instruction::AddIndex { x } => {
                let sum = self.i_reg as u32 + self.v_reg[x as usize] as u32;
                self.i_reg = (sum % 0x10000) as u16;
                Ok(())
            },
            Instruction::FontAddr { x } => {
                let digit = self.v_reg[x as usize] % 16;
                self.i_reg = digit as u16 * GLYPH_SIZE as u16;
                Ok(())
            },
            Instruction::Bcd { x } => self.store_bcd(x),
            Instruction::StoreRegs { x } => self.store_regs(x),
            Instruction::LoadRegs { x } => self.load_regs(x),
            _ => Ok(()),
        }
    }
    /// Runs one decoded instruction, `random` being the byte drawn for it.
    fn apply(&mut self, instr: Instruction, random: u8) -> (r: Result<(), EmuError>)
        requires
            instr.wf(),
        ensures
            outcome_is(old(self)@, old(self)@.apply(instr, random), r, final(self)@),
    {
        proof {
            if !(instr is Random) {
                lemma_random_byte_unused(self@, instr, random, 0);
            }
        }
        match instr {
            Instruction::Nop
            | Instruction::ClearScreen
            | Instruction::Return
            | Instruction::Jump { .. }
            | Instruction::Call { .. }
            | Instruction::JumpOffset { .. }
            | Instruction::WaitKey { .. } => self.apply_control(instr),
            Instruction::SkipEqImm { .. }
            | Instruction::SkipNeImm { .. }
            | Instruction::SkipEqReg { .. }
            | Instruction::SkipNeReg { .. }
            | Instruction::SkipKeyPressed { .. }
            | Instruction::SkipKeyNotPressed { .. } => self.apply_skip(instr),
            Instruction::LoadImm { .. }
            | Instruction::AddImm { .. }
            | Instruction::Move { .. }
            | Instruction::Or { .. }
            | Instruction::And { .. }
            | Instruction::Xor { .. }
            | Instruction::Random { .. }
            | Instruction::ReadDelay { .. } => {
                self.apply_load(instr, random);
                Ok(())
            },
            Instruction::AddCarry { .. }
            | Instruction::Sub { .. }
            | Instruction::SubReverse { .. }
            | Instruction::ShiftRight { .. }
            | Instruction::ShiftLeft { .. } => {
                self.apply_flagged(instr);
                Ok(())
            },
            Instruction::LoadIndex { .. }
            | Instruction::Draw { .. }
            | Instruction::SetDelay { .. }
            | Instruction::SetSound { .. }
            | Instruction::AddIndex { .. }
            | Instruction::FontAddr { .. }
            | Instruction::Bcd { .. }
            | Instruction::StoreRegs { .. }
            | Instruction::LoadRegs { .. } => self.apply_memory(instr),
        }
    }

    /// Decodes and runs the opcode `op`, with `random` as the byte that a
    /// `CXKK` instruction reads. Refused, with nothing changed, if `op`
    /// encodes no instruction or the instruction cannot run.
    pub fn execute_with(&mut self, op: u16, random: u8) -> (r: Result<(), EmuError>)
        ensures
            outcome_is(old(self)@, old(self)@.execute(op, random), r, final(self)@),
            final(self)@.wf(),
    {
        let r = match decode(op) {
            Some(instr) => self.apply(instr, random),
            None => Err(EmuError::UnknownInstruction { opcode: op }),
        };
        proof {
            use_type_invariant(&*self);
        }
        r
    }

    /// Decodes and runs the opcode `op`; a `CXKK` instruction draws its byte
    /// from the random generator. Refused, with nothing changed, if `op`
    /// encodes no instruction or the instruction cannot run.
    pub fn execute(&mut self, op: u16) -> (r: Result<(), EmuError>)
        ensures
            decode_spec(op) matches Some(Instruction::Random { .. }) ==> exists|random: u8|
                outcome_is(old(self)@, #[trigger] old(self)@.execute(op, random), r, final(self)@),
            !(decode_spec(op) matches Some(Instruction::Random { .. })) ==> outcome_is(
                old(self)@,
                old(self)@.execute(op, 0),
                r,
                final(self)@,
            ),
            final(self)@.wf(),
    {
        let r = match decode(op) {
            Some(instr) => {
                let random = match instr {
                    Instruction::Random { .. } => random_byte(),
                    _ => 0,
                };
                let r = self.apply(instr, random);
                assert(outcome_is(old(self)@, old(self)@.execute(op, random), r, self@));
                r
            },
            None => Err(EmuError::UnknownInstruction { opcode: op }),
        };
        proof {
            use_type_invariant(&*self);
        }
        r
    }

    /// One fetch, decode and execute cycle. Refused, with nothing changed,
    /// if the opcode cannot be fetched, encodes no instruction, or the
    /// instruction cannot run.
    pub fn tick(&mut self) -> (r: Result<(), EmuError>)
        ensures
            old(self)@.draws_random() ==> exists|random: u8|
                outcome_is(old(self)@, #[trigger] old(self)@.step(random), r, final(self)@),
            !old(self)@.draws_random() ==> outcome_is(
                old(self)@,
                old(self)@.step(0),
                r,
                final(self)@,
            ),
            final(self)@.wf(),
    {
        let resume_at = self.pc;
        let op = match self.fetch() {
            Ok(op) => op,
            Err(e) => {
                return Err(e);
            },
        };
        let ghost fetched = self@;
        let r = self.execute(op);
        let ghost executed = self@;
        proof {
            use_type_invariant(&*self);
        }
        if r.is_err() {
            self.pc = resume_at;
        }
        proof {
            if old(self)@.draws_random() {
                let random = choose|random: u8|
                    outcome_is(fetched, #[trigger] fetched.execute(op, random), r, executed);
                assert(outcome_is(old(self)@, old(self)@.step(random), r, self@));
            }
        }
        r
    }

    /// Whether the machine is waiting for a key: the next opcode is a wait
    /// and no key is pressed. While this holds, a step changes nothing.
    pub fn awaiting_key(&self) -> (waiting: bool)
        ensures
            waiting == self@.awaiting_key(),
    {
        if self.pc as usize + 1 >= RAM_SIZE {
            return false;
        }
        match decode(self.opcode_at(self.pc)) {
            Some(Instruction::WaitKey { .. }) => lowest_pressed(&self.keys).is_none(),
            _ => false,
        }
    }

    /// The program counter.
    pub fn pc(&self) -> (pc: u16)
        ensures
            pc == self@.pc,
    {
        self.pc
    }

    /// The index register `I`.
    pub fn index(&self) -> (index: u16)
        ensures
            index == self@.index,
    {
        self.i_reg
    }

    /// The registers `V0` to `VF`.
    pub fn registers(&self) -> (registers: &[u8])
        ensures
            registers@ == self@.registers,
            registers@.len() == 16,
    {
        &self.v_reg
    }

    /// The 4096 bytes of memory.
    pub fn memory(&self) -> (memory: &[u8])
        ensures
            memory@ == self@.memory,
            memory@.len() == 4096,
    {
        &self.ram
    }

    /// The delay timer.
    pub fn delay_timer(&self) -> (value: u8)
        ensures
            value == self@.delay_timer,
    {
        self.dt
    }

    /// The sound timer.
    pub fn sound_timer(&self) -> (value: u8)
        ensures
            value == self@.sound_timer,
    {
        self.st
    }

    /// The number of return addresses on the call stack.
    pub fn stack_depth(&self) -> (depth: usize)
        ensures
            depth == self@.stack.len(),
            depth <= 16,
    {
        proof {
            use_type_invariant(self);
        }
        self.sp as usize
    }
}

} // verus!
