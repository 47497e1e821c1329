use vstd::prelude::*;
use crate::error::EmuError;
use crate::font::FONTSET;
use crate::instruction::{decode_spec, Instruction};

verus! {

/// Width of the display in pixels.
pub const SCREEN_WIDTH: usize = 64;

/// Height of the display in pixels.
pub const SCREEN_HEIGHT: usize = 32;

/// Number of pixels of the display.
pub const DISPLAY_SIZE: usize = 2048;

/// Number of addressable bytes.
pub const RAM_SIZE: usize = 4096;

/// Number of general registers.
pub const NUM_REGS: usize = 16;

/// Number of keys of the keypad.
pub const NUM_KEYS: usize = 16;

/// Number of return addresses that the call stack holds.
pub const STACK_SIZE: usize = 16;

/// Address at which programs are loaded and execution starts.
pub const START_ADDR: u16 = 0x200;

/// Index of `VF`, the register that doubles as carry, borrow and collision flag.
pub const FLAG_REG: usize = 0xF;

/// The points on which variants of the instruction set differ.
#[derive(Clone, Copy, Debug, PartialEq, Eq, Structural)]
pub struct Quirks {
    /// Where the shift instructions read their operand: `Vy` if set, `Vx`
    /// itself if not.
    pub shift_uses_vy: bool,
}

impl Quirks {
    /// The baseline behaviour: shifts operate on `Vx` in place.
    pub open spec fn baseline_spec() -> Quirks {
        Quirks { shift_uses_vy: false }
    }

    /// The baseline behaviour: shifts operate on `Vx` in place.
    #[verifier::when_used_as_spec(baseline_spec)]
    pub fn baseline() -> (q: Quirks)
        ensures
            q == Quirks::baseline_spec(),
    {
        Quirks { shift_uses_vy: false }
    }
}

/// The mathematical model of the machine.
#[verifier::ext_equal]
pub struct MachineState {
    /// Address of the next opcode.
    pub pc: u16,
    /// The 4096 bytes of memory.
    pub memory: Seq<u8>,
    /// The 64 by 32 pixels, row by row; `true` is lit.
    pub display: Seq<bool>,
    /// The registers `V0` to `VF`.
    pub registers: Seq<u8>,
    /// The index register `I`.
    pub index: u16,
    /// The return addresses of the calls in progress, the latest last.
    pub stack: Seq<u16>,
    /// The sixteen keys; `true` is pressed.
    pub keys: Seq<bool>,
    /// The delay timer.
    pub delay_timer: u8,
    /// The sound timer.
    pub sound_timer: u8,
    /// The compatibility settings the machine was made with.
    pub quirks: Quirks,
}

/// What a machine operation returned, held against the transition that the
/// model gives: on `Ok` the machine is in the state the model gives, on
/// `Err` the error is the model's and the machine is as it was.
pub open spec fn outcome_is(
    before: MachineState,
    expected: Result<MachineState, EmuError>,
    returned: Result<(), EmuError>,
    after: MachineState,
) -> bool {
    match expected {
        Ok(state) => returned is Ok && after == state,
        Err(e) => returned == Err::<(), EmuError>(e) && after == before,
    }
}

/// Whether column `col` of a sprite row is set; column 0 is the leftmost
/// pixel and the highest bit.
pub open spec fn sprite_bit(row_bits: u8, col: u8) -> bool {
    row_bits & (0x80u8 >> col) != 0
}

/// The sprite column that lands on pixel `p` when the sprite's left edge is
/// at `vx`, counted with wraparound.
pub open spec fn sprite_col(vx: u8, p: int) -> int {
    (p % 64 - vx) % 64
}

/// The sprite row that lands on pixel `p` when the sprite's top edge is at
/// `vy`, counted with wraparound.
pub open spec fn sprite_row(vy: u8, p: int) -> int {
    (p / 64 - vy) % 32
}

/// The pixel on which row `row`, column `col` of a sprite at `(vx, vy)` lands.
pub open spec fn pixel_index(vx: u8, vy: u8, row: int, col: int) -> int {
    (vx + col) % 64 + 64 * ((vy + row) % 32)
}

/// Whether the `n`-row sprite that starts at `memory[base]`, drawn at
/// `(vx, vy)`, has a set bit that lands on pixel `p`. Both axes wrap, each
/// pixel by itself.
pub open spec fn sprite_covers(memory: Seq<u8>, base: int, vx: u8, vy: u8, n: u8, p: int) -> bool {
    let col = sprite_col(vx, p);
    let row = sprite_row(vy, p);
    &&& col < 8
    &&& row < n
    &&& sprite_bit(memory[base + row], col as u8)
}

/// The lowest pressed key, where `keys` holds one.
pub open spec fn first_pressed(keys: Seq<bool>) -> int {
    choose|k: int| 0 <= k < keys.len() && keys[k] && forall|j: int| 0 <= j < k ==> !keys[j]
}

impl MachineState {
    /// Every part has its fixed size and the stack holds at most sixteen
    /// return addresses.
    pub open spec fn wf(self) -> bool {
        &&& self.memory.len() == 4096
        &&& self.display.len() == 2048
        &&& self.registers.len() == 16
        &&& self.keys.len() == 16
        &&& self.stack.len() <= 16
    }

    /// The startup state: the font at the bottom of memory, the program
    /// counter at the program origin, everything else zero.
    pub open spec fn initial(quirks: Quirks) -> MachineState {
        MachineState {
            pc: 0x200,
            memory: Seq::new(4096, |a: int| if a < 80 { FONTSET[a] } else { 0u8 }),
            display: Seq::new(2048, |p: int| false),
            registers: Seq::new(16, |r: int| 0u8),
            index: 0,
            stack: Seq::empty(),
            keys: Seq::new(16, |k: int| false),
            delay_timer: 0,
            sound_timer: 0,
            quirks,
        }
    }

    /// The state after `data` was copied to the program origin; refused if
    /// `data` does not fit below the end of memory.
    pub open spec fn load(self, data: Seq<u8>) -> Result<MachineState, EmuError> {
        if data.len() > 4096 - 0x200 {
            Err(EmuError::RomTooLarge)
        } else {
            Ok(
                MachineState {
                    memory: Seq::new(
                        4096,
                        |a: int|
                            if 0x200 <= a < 0x200 + data.len() {
                                data[a - 0x200]
                            } else {
                                self.memory[a]
                            },
                    ),
                    ..self
                },
            )
        }
    }

    /// The state after key `idx` was pressed or released; refused if there
    /// is no such key.
    pub open spec fn keypress(self, idx: int, pressed: bool) -> Result<MachineState, EmuError> {
        if 0 <= idx < 16 {
            Ok(MachineState { keys: self.keys.update(idx, pressed), ..self })
        } else {
            Err(EmuError::KeyOutOfRange)
        }
    }

    /// The state after one tick of the timer clock: each timer is one less,
    /// unless it was zero.
    pub open spec fn tick_timers(self) -> MachineState {
        MachineState {
            delay_timer: if self.delay_timer > 0 {
                (self.delay_timer - 1) as u8
            } else {
                0
            },
            sound_timer: if self.sound_timer > 0 {
                (self.sound_timer - 1) as u8
            } else {
                0
            },
            ..self
        }
    }

    /// Whether the next tick of the timer clock takes the sound timer from
    /// one to zero.
    pub open spec fn beeps(self) -> bool {
        self.sound_timer == 1
    }

    /// The big-endian opcode whose two bytes lie at `addr` and `addr + 1`.
    pub open spec fn opcode_at(self, addr: int) -> u16 {
        (self.memory[addr] * 256 + self.memory[addr + 1]) as u16
    }

    /// The opcode at the program counter, with the state in which the
    /// program counter has moved past it.
    pub open spec fn fetch(self) -> Result<(u16, MachineState), EmuError> {
        if self.pc + 1 < 4096 {
            Ok((self.opcode_at(self.pc as int), MachineState { pc: (self.pc + 2) as u16, ..self }))
        } else {
            Err(EmuError::PcOutOfRange)
        }
    }

    /// The value of register `x`.
    pub open spec fn reg(self, x: u8) -> u8 {
        self.registers[x as int]
    }

    /// The state with `value` in register `x`.
    pub open spec fn set_reg(self, x: u8, value: u8) -> MachineState {
        MachineState { registers: self.registers.update(x as int, value), ..self }
    }

    /// The state with `value` in register `x` and then `flag` in `VF`: where
    /// `x` is `VF` itself, the flag is what stays.
    pub open spec fn set_reg_and_flag(self, x: u8, value: u8, flag: u8) -> MachineState {
        MachineState {
            registers: self.registers.update(x as int, value).update(0xF, flag),
            ..self
        }
    }

    /// The state with the program counter moved past one more instruction if
    /// `cond` holds, unchanged if not.
    pub open spec fn skip_if(self, cond: bool) -> Result<MachineState, EmuError> {
        if !cond {
            Ok(self)
        } else if self.pc + 2 > 0xFFFF {
            Err(EmuError::PcOutOfRange)
        } else {
            Ok(MachineState { pc: (self.pc + 2) as u16, ..self })
        }
    }

    /// The operand of a shift on `Vx`: `Vy` under the quirk, `Vx` without it.
    pub open spec fn shift_source(self, x: u8, y: u8) -> u8 {
        if self.quirks.shift_uses_vy {
            self.reg(y)
        } else {
            self.reg(x)
        }
    }

    /// Whether the `n`-row sprite at `I`, drawn at `(vx, vy)`, has a set bit
    /// that lands on pixel `p`.
    pub open spec fn sprite_hits(self, vx: u8, vy: u8, n: u8, p: int) -> bool {
        sprite_covers(self.memory, self.index as int, vx, vy, n, p)
    }

    /// Whether drawing the `n`-row sprite at `I` at `(vx, vy)` lands a set
    /// bit on a pixel that is lit.
    pub open spec fn sprite_collides(self, vx: u8, vy: u8, n: u8) -> bool {
        exists|p: int| 0 <= p < 2048 && self.display[p] && #[trigger] self.sprite_hits(vx, vy, n, p)
    }

    /// The state after the `n`-row sprite at `I` was drawn at `(Vx, Vy)`:
    /// each pixel under a set bit is flipped, and `VF` tells whether a lit
    /// pixel was among them. Refused if the sprite's rows reach past the end
    /// of memory.
    pub open spec fn draw(self, x: u8, y: u8, n: u8) -> Result<MachineState, EmuError> {
        let vx = self.reg(x);
        let vy = self.reg(y);
        if n > 0 && self.index + n > 4096 {
            Err(EmuError::MemoryOutOfRange)
        } else {
            Ok(
                MachineState {
                    display: Seq::new(
                        2048,
                        |p: int| self.display[p] != self.sprite_hits(vx, vy, n, p),
                    ),
                    registers: self.registers.update(
                        0xF,
                        if self.sprite_collides(vx, vy, n) {
                            1u8
                        } else {
                            0u8
                        },
                    ),
                    ..self
                },
            )
        }
    }

    /// Whether any key is pressed.
    pub open spec fn any_key_pressed(self) -> bool {
        exists|k: int| 0 <= k < 16 && self.keys[k]
    }

    /// The state after a wait for a key: with a key pressed, the lowest
    /// pressed key's index is in `Vx`; with none, the program counter is
    /// back on the instruction, which then runs again.
    pub open spec fn wait_key(self, x: u8) -> Result<MachineState, EmuError> {
        if self.any_key_pressed() {
            Ok(self.set_reg(x, first_pressed(self.keys) as u8))
        } else if self.pc < 2 {
            Err(EmuError::PcOutOfRange)
        } else {
            Ok(MachineState { pc: (self.pc - 2) as u16, ..self })
        }
    }

    /// The state with the hundreds, tens and ones of `Vx` at `I`, `I + 1`
    /// and `I + 2`.
    pub open spec fn store_bcd(self, x: u8) -> Result<MachineState, EmuError> {
        let value = self.reg(x);
        let i = self.index as int;
        if i + 2 >= 4096 {
            Err(EmuError::MemoryOutOfRange)
        } else {
            Ok(
                MachineState {
                    memory: self.memory.update(i, value / 100).update(
                        i + 1,
                        (value / 10) % 10,
                    ).update(i + 2, value % 10),
                    ..self
                },
            )
        }
    }

    /// The state with `V0..=Vx` copied to `I..=I + x`.
    pub open spec fn store_regs(self, x: u8) -> Result<MachineState, EmuError> {
        let i = self.index as int;
        if i + x >= 4096 {
            Err(EmuError::MemoryOutOfRange)
        } else {
            Ok(
                MachineState {
                    memory: Seq::new(
                        4096,
                        |a: int|
                            if i <= a <= i + x {
                                self.registers[a - i]
                            } else {
                                self.memory[a]
                            },
                    ),
                    ..self
                },
            )
        }
    }

    /// The state with `I..=I + x` copied to `V0..=Vx`.
    pub open spec fn load_regs(self, x: u8) -> Result<MachineState, EmuError> {
        let i = self.index as int;
        if i + x >= 4096 {
            Err(EmuError::MemoryOutOfRange)
        } else {
            Ok(
                MachineState {
                    registers: Seq::new(
                        16,
                        |r: int|
                            if r <= x {
                                self.memory[i + r]
                            } else {
                                self.registers[r]
                            },
                    ),
                    ..self
                },
            )
        }
    }

    /// The state after `instr` ran, `random` being the byte that was drawn
    /// for it; only `Random` reads that byte.
    pub open spec fn apply(self, instr: Instruction, random: u8) -> Result<MachineState, EmuError> {
        match instr {
            Instruction::Nop => Ok(self),
            Instruction::ClearScreen => Ok(
                MachineState { display: Seq::new(2048, |p: int| false), ..self },
            ),
            Instruction::Return => if self.stack.len() == 0 {
                Err(EmuError::StackUnderflow)
            } else {
                Ok(MachineState { pc: self.stack.last(), stack: self.stack.drop_last(), ..self })
            },
            Instruction::Jump { addr } => Ok(MachineState { pc: addr, ..self }),
            Instruction::Call { addr } => if self.stack.len() >= 16 {
                Err(EmuError::StackOverflow)
            } else {
                Ok(MachineState { pc: addr, stack: self.stack.push(self.pc), ..self })
            },
            Instruction::SkipEqImm { x, kk } => self.skip_if(self.reg(x) == kk),
            Instruction::SkipNeImm { x, kk } => self.skip_if(self.reg(x) != kk),
            Instruction::SkipEqReg { x, y } => self.skip_if(self.reg(x) == self.reg(y)),
            Instruction::LoadImm { x, kk } => Ok(self.set_reg(x, kk)),
            Instruction::AddImm { x, kk } => Ok(self.set_reg(x, ((self.reg(x) + kk) % 256) as u8)),
            Instruction::Move { x, y } => Ok(self.set_reg(x, self.reg(y))),
            Instruction::Or { x, y } => Ok(self.set_reg(x, self.reg(x) | self.reg(y))),
            Instruction::And { x, y } => Ok(self.set_reg(x, self.reg(x) & self.reg(y))),
            Instruction::Xor { x, y } => Ok(self.set_reg(x, self.reg(x) ^ self.reg(y))),
            Instruction::AddCarry { x, y } => {
                let sum = self.reg(x) + self.reg(y);
                Ok(self.set_reg_and_flag(x, (sum % 256) as u8, if sum >= 256 { 1 } else { 0 }))
            },
            Instruction::Sub { x, y } => {
                let a = self.reg(x);
                let b = self.reg(y);
                Ok(self.set_reg_and_flag(x, ((a - b) % 256) as u8, if a >= b { 1 } else { 0 }))
            },
            Instruction::ShiftRight { x, y } => {
                let v = self.shift_source(x, y);
                Ok(self.set_reg_and_flag(x, v / 2, v % 2))
            },
            Instruction::SubReverse { x, y } => {
                let a = self.reg(y);
                let b = self.reg(x);
                Ok(self.set_reg_and_flag(x, ((a - b) % 256) as u8, if a >= b { 1 } else { 0 }))
            },
            Instruction::ShiftLeft { x, y } => {
                let v = self.shift_source(x, y);
                Ok(self.set_reg_and_flag(x, ((v * 2) % 256) as u8, v / 128))
            },
            Instruction::SkipNeReg { x, y } => self.skip_if(self.reg(x) != self.reg(y)),
            Instruction::LoadIndex { addr } => Ok(MachineState { index: addr, ..self }),
            Instruction::JumpOffset { addr } => Ok(
                MachineState { pc: (self.reg(0) + addr) as u16, ..self },
            ),
            Instruction::Random { x, kk } => Ok(self.set_reg(x, random & kk)),
            Instruction::Draw { x, y, n } => self.draw(x, y, n),
            Instruction::SkipKeyPressed { x } => if self.reg(x) >= 16 {
                Err(EmuError::KeyOutOfRange)
            } else {
                self.skip_if(self.keys[self.reg(x) as int])
            },
            Instruction::SkipKeyNotPressed { x } => if self.reg(x) >= 16 {
                Err(EmuError::KeyOutOfRange)
            } else {
                self.skip_if(!self.keys[self.reg(x) as int])
            },
            Instruction::ReadDelay { x } => Ok(self.set_reg(x, self.delay_timer)),
            Instruction::WaitKey { x } => self.wait_key(x),
            Instruction::SetDelay { x } => Ok(MachineState { delay_timer: self.reg(x), ..self }),
            Instruction::SetSound { x } => Ok(MachineState { sound_timer: self.reg(x), ..self }),
            Instruction::AddIndex { x } => Ok(
                MachineState { index: ((self.index + self.reg(x)) % 0x10000) as u16, ..self },
            ),
            Instruction::FontAddr { x } => Ok(
                MachineState { index: ((self.reg(x) % 16) * 5) as u16, ..self },
            ),
            Instruction::Bcd { x } => self.store_bcd(x),
            Instruction::StoreRegs { x } => self.store_regs(x),
            Instruction::LoadRegs { x } => self.load_regs(x),
        }
    }

    /// The state after the opcode `op` ran; refused if `op` encodes no
    /// instruction.
    pub open spec fn execute(self, op: u16, random: u8) -> Result<MachineState, EmuError> {
        match decode_spec(op) {
            Some(instr) => self.apply(instr, random),
            None => Err(EmuError::UnknownInstruction { opcode: op }),
        }
    }

    /// Whether the opcode at the program counter draws a random byte.
    pub open spec fn draws_random(self) -> bool {
        self.fetch() matches Ok(fetched) && decode_spec(fetched.0) matches Some(
            Instruction::Random { .. },
        )
    }

    /// Whether the machine is waiting for a key: the opcode at the program
    /// counter is a wait and no key is pressed.
    pub open spec fn awaiting_key(self) -> bool {
        &&& self.fetch() matches Ok(fetched)
        &&& decode_spec(fetched.0) matches Some(Instruction::WaitKey { .. })
        &&& !self.any_key_pressed()
    }

    /// The state after one fetch, decode and execute cycle, `random` being
    /// the byte drawn if the instruction asks for one.
    pub open spec fn step(self, random: u8) -> Result<MachineState, EmuError> {
        match self.fetch() {
            Ok(fetched) => fetched.1.execute(fetched.0, random),
            Err(e) => Err(e),
        }
    }
}

/// Only `Random` reads the random byte: every other instruction gives the
/// same state whatever byte was drawn.
pub proof fn lemma_random_byte_unused(state: MachineState, instr: Instruction, r1: u8, r2: u8)
    requires
        !(instr is Random),
    ensures
        state.apply(instr, r1) == state.apply(instr, r2),
{
}

} // verus!
