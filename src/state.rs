use vstd::prelude::*;
use crate::display::{blank_screen, flip, screen_wf};
use crate::instruction::{decode_spec, Instruction};

verus! {

/// Number of addressable memory cells.
pub const MEMORY_SIZE: usize = 4096;

/// Address at which programs are loaded and execution begins.
pub const PROGRAM_START: u16 = 0x200;

/// Number of return addresses the call stack holds.
pub const STACK_DEPTH: usize = 16;

/// Number of keys on the keypad.
pub const KEY_COUNT: usize = 16;

/// A memory address, reduced into the 4096-cell address space.
pub open spec fn addr(a: int) -> int {
    a % 4096
}

/// A 16-bit value after wraparound.
pub open spec fn wrap16(a: int) -> u16 {
    (a % 65536) as u16
}

/// An 8-bit value after wraparound.
pub open spec fn wrap8(a: int) -> u8 {
    (a % 256) as u8
}

/// Bit `col` of a sprite row, counting from the most significant bit (column 0)
/// to the least significant (column 7).
pub open spec fn sprite_bit(row: u8, col: int) -> bool {
    (row >> ((7 - col) as u8)) & 1 == 1
}

/// The state of the interpreter, as plain mathematical values.
pub struct CpuState {
    pub memory: Seq<u8>,
    pub stack: Seq<u16>,
    pub sp: nat,
    pub v: Seq<u8>,
    pub i: u16,
    pub pc: u16,
    pub screen: Seq<Seq<u8>>,
    pub keys: Seq<bool>,
    /// The key that a pending wait-for-key instruction has seen pressed.
    pub waiting: Option<u8>,
    pub delay_timer: u8,
    pub sound_timer: u8,
    /// Whether a draw holds off further instructions until the frame ends.
    pub display_wait: bool,
    /// Whether sprites are clipped at the screen's edges rather than wrapped.
    pub clip: bool,
    /// Whether a sprite was drawn since the last frame boundary.
    pub drawn: bool,
}

impl CpuState {
    pub open spec fn wf(self) -> bool {
        &&& self.memory.len() == 4096
        &&& self.stack.len() == 16
        &&& self.sp <= 16
        &&& self.v.len() == 16
        &&& self.keys.len() == 16
        &&& screen_wf(self.screen)
        &&& (self.waiting matches Some(k) ==> k < 16)
    }

    pub open spec fn reg(self, r: u8) -> u8 {
        self.v[r as int]
    }

    pub open spec fn with_reg(self, r: int, val: u8) -> CpuState {
        CpuState { v: self.v.update(r, val), ..self }
    }

    /// The flag register VF set to 1 or 0.
    pub open spec fn with_flag(self, f: bool) -> CpuState {
        self.with_reg(15, if f { 1 } else { 0 })
    }

    pub open spec fn advance(self, by: int) -> CpuState {
        CpuState { pc: wrap16(self.pc + by), ..self }
    }

    /// The program counter moved past the current instruction.
    pub open spec fn next(self) -> CpuState {
        self.advance(2)
    }

    /// The program counter moved past the next instruction too when `cond` holds.
    pub open spec fn skip_if(self, cond: bool) -> CpuState {
        self.advance(if cond { 4 } else { 2 })
    }

    /// Whether key `k` is held; a key outside the keypad never is.
    pub open spec fn key_down(self, k: u8) -> bool {
        k < 16 && self.keys[k as int]
    }

    /// `k` is the lowest-numbered key that is held.
    pub open spec fn is_lowest_pressed(self, k: int) -> bool {
        &&& 0 <= k < 16
        &&& self.keys[k]
        &&& forall|j: int| 0 <= j < k ==> !self.keys[j]
    }

    /// The lowest-numbered key that is held, if any is.
    pub open spec fn lowest_pressed(self) -> Option<u8> {
        if exists|k: int| self.is_lowest_pressed(k) {
            Some((choose|k: int| self.is_lowest_pressed(k)) as u8)
        } else {
            None
        }
    }

    /// The instruction word at the program counter, high byte first.
    pub open spec fn fetch(self) -> u16 {
        (self.memory[addr(self.pc as int)] * 256 + self.memory[addr(self.pc + 1)]) as u16
    }

    /// Whether instructions are held off until the frame boundary.
    pub open spec fn gated(self) -> bool {
        self.display_wait && self.drawn
    }

    /// Whether a sprite of `n` rows read from address `i`, with its top-left
    /// corner at `(x0, y0)`, has a set bit over the pixel `(px, py)`.
    pub open spec fn sprite_covers(self, x0: int, y0: int, n: int, px: int, py: int) -> bool {
        let dx = self.col_offset(x0, px);
        let dy = self.row_offset(y0, py);
        &&& 0 <= dx < 8
        &&& 0 <= dy < n
        &&& sprite_bit(self.memory[addr(self.i + dy)], dx)
    }

    /// The sprite column that lands on screen column `px` when the sprite starts at `x0`.
    pub open spec fn col_offset(self, x0: int, px: int) -> int {
        if self.clip {
            px - x0
        } else {
            (px - x0) % 64
        }
    }

    /// The sprite row that lands on screen row `py` when the sprite starts at `y0`.
    pub open spec fn row_offset(self, y0: int, py: int) -> int {
        if self.clip {
            py - y0
        } else {
            (py - y0) % 32
        }
    }

    /// The screen after XOR-drawing that sprite.
    pub open spec fn drawn_screen(self, x0: int, y0: int, n: int) -> Seq<Seq<u8>> {
        Seq::new(
            32,
            |py: int|
                Seq::new(
                    64,
                    |px: int|
                        if self.sprite_covers(x0, y0, n, px, py) {
                            flip(self.screen[py][px])
                        } else {
                            self.screen[py][px]
                        },
                ),
        )
    }

    /// Whether drawing that sprite turns off a pixel that was on.
    pub open spec fn collides(self, x0: int, y0: int, n: int) -> bool {
        exists|px: int, py: int|
            0 <= px < 64 && 0 <= py < 32 && #[trigger] self.sprite_covers(x0, y0, n, px, py)
                && self.screen[py][px] == 1
    }

    /// The draw instruction: the sprite goes at `(Vx mod 64, Vy mod 32)`.
    #[verifier::opaque]
    pub open spec fn draw(self, x: u8, y: u8, n: u8) -> CpuState {
        let x0 = self.reg(x) as int % 64;
        let y0 = self.reg(y) as int % 32;
        CpuState {
            screen: self.drawn_screen(x0, y0, n as int),
            drawn: true,
            ..self
        }.with_flag(self.collides(x0, y0, n as int)).next()
    }

    /// The wait-for-key instruction: it latches the lowest held key, and
    /// completes, writing that key to `Vx`, once the latched key is released.
    #[verifier::opaque]
    pub open spec fn wait_for_key(self, x: u8) -> CpuState {
        match self.waiting {
            None => match self.lowest_pressed() {
                Some(k) => CpuState { waiting: Some(k), ..self },
                None => self,
            },
            Some(k) => if self.keys[k as int] {
                self
            } else {
                CpuState { waiting: None, ..self }.with_reg(x as int, k).next()
            },
        }
    }

    /// Memory with `V0..=Vx` copied to the addresses from `I` on.
    pub open spec fn stored_registers(self, x: int) -> Seq<u8> {
        Seq::new(
            4096,
            |a: int|
                if (a - self.i) % 4096 <= x {
                    self.v[(a - self.i) % 4096]
                } else {
                    self.memory[a]
                },
        )
    }

    /// Registers with `V0..=Vx` read from the addresses from `I` on.
    pub open spec fn loaded_registers(self, x: int) -> Seq<u8> {
        Seq::new(16, |k: int| if k <= x { self.memory[addr(self.i + k)] } else { self.v[k] })
    }

    /// The state after one instruction; `r` is the random byte that a random
    /// instruction draws, and no other instruction reads it.
    ///
    /// Memory addresses wrap round the 4096-cell address space, and the program
    /// counter and `I` wrap at 16 bits. A call with a full stack, or a return with
    /// an empty one, only moves past the instruction. An unknown instruction
    /// changes nothing, the program counter included.
    pub open spec fn execute(self, ins: Instruction, r: u8) -> CpuState {
        match ins {
            Instruction::ClearScreen => CpuState { screen: blank_screen(), ..self }.next(),
            Instruction::Return => if self.sp == 0 {
                self.next()
            } else {
                CpuState { sp: (self.sp - 1) as nat, pc: self.stack[self.sp - 1], ..self }
            },
            Instruction::Jump { nnn } => CpuState { pc: nnn, ..self },
            Instruction::Call { nnn } => if self.sp >= 16 {
                self.next()
            } else {
                CpuState {
                    stack: self.stack.update(self.sp as int, wrap16(self.pc + 2)),
                    sp: self.sp + 1,
                    pc: nnn,
                    ..self
                }
            },
            Instruction::SkipIfVxEquals { x, nn } => self.skip_if(self.reg(x) == nn),
            Instruction::SkipIfVxNotEquals { x, nn } => self.skip_if(self.reg(x) != nn),
            Instruction::SkipIfVxEqualsVy { x, y } => self.skip_if(self.reg(x) == self.reg(y)),
            Instruction::SetVx { x, nn } => self.with_reg(x as int, nn).next(),
            Instruction::AddToVx { x, nn } => self.with_reg(x as int, wrap8(self.reg(x) + nn)).next(),
            Instruction::SetVxToVy { x, y } => self.with_reg(x as int, self.reg(y)).next(),
            Instruction::Or { x, y } => self.with_reg(x as int, self.reg(x) | self.reg(y)).with_flag(
                false,
            ).next(),
            Instruction::And { x, y } => self.with_reg(x as int, self.reg(x) & self.reg(y)).with_flag(
                false,
            ).next(),
            Instruction::Xor { x, y } => self.with_reg(x as int, self.reg(x) ^ self.reg(y)).with_flag(
                false,
            ).next(),
            Instruction::AddVyToVx { x, y } => self.with_reg(
                x as int,
                wrap8(self.reg(x) + self.reg(y)),
            ).with_flag(self.reg(x) + self.reg(y) > 255).next(),
            Instruction::SubVyFromVx { x, y } => self.with_reg(
                x as int,
                wrap8(self.reg(x) - self.reg(y)),
            ).with_flag(self.reg(x) >= self.reg(y)).next(),
            Instruction::ShiftRight { x, y } => self.with_reg(x as int, self.reg(y) / 2).with_reg(
                15,
                self.reg(y) % 2,
            ).next(),
            Instruction::SubVxFromVy { x, y } => self.with_reg(
                x as int,
                wrap8(self.reg(y) - self.reg(x)),
            ).with_flag(self.reg(y) >= self.reg(x)).next(),
            Instruction::ShiftLeft { x, y } => self.with_reg(x as int, wrap8(self.reg(y) * 2)).with_reg(
                15,
                self.reg(y) / 128,
            ).next(),
            Instruction::SkipIfVxNotEqualsVy { x, y } => self.skip_if(self.reg(x) != self.reg(y)),
            Instruction::SetI { nnn } => CpuState { i: nnn, ..self }.next(),
            Instruction::JumpV0Plus { nnn } => CpuState { pc: (self.reg(0) + nnn) as u16, ..self },
            Instruction::Random { x, nn } => self.with_reg(x as int, r & nn).next(),
            Instruction::Draw { x, y, n } => self.draw(x, y, n),
            Instruction::SkipIfKeyPressed { x } => self.skip_if(self.key_down(self.reg(x))),
            Instruction::SkipIfKeyNotPressed { x } => self.skip_if(!self.key_down(self.reg(x))),
            Instruction::SetVxToDelayTimer { x } => self.with_reg(x as int, self.delay_timer).next(),
            Instruction::WaitForKey { x } => self.wait_for_key(x),
            Instruction::SetDelayTimer { x } => CpuState { delay_timer: self.reg(x), ..self }.next(),
            Instruction::SetSoundTimer { x } => CpuState { sound_timer: self.reg(x), ..self }.next(),
            Instruction::AddVxToI { x } => CpuState { i: wrap16(self.i + self.reg(x)), ..self }.next(),
            Instruction::SetIToSprite { x } => CpuState { i: (self.reg(x) * 5) as u16, ..self }.next(),
            Instruction::StoreBcd { x } => CpuState {
                memory: self.memory.update(addr(self.i as int), self.reg(x) / 100).update(
                    addr(self.i + 1),
                    (self.reg(x) / 10) % 10,
                ).update(addr(self.i + 2), self.reg(x) % 10),
                ..self
            }.next(),
            Instruction::StoreRegisters { x } => CpuState {
                memory: self.stored_registers(x as int),
                i: wrap16(self.i + x + 1),
                ..self
            }.next(),
            Instruction::LoadRegisters { x } => CpuState {
                v: self.loaded_registers(x as int),
                i: wrap16(self.i + x + 1),
                ..self
            }.next(),
            Instruction::Unknown { .. } => self,
        }
    }

    /// The state after one cycle: nothing happens while instructions are held
    /// off; otherwise the instruction at the program counter runs.
    pub open spec fn cycle(self, r: u8) -> CpuState {
        if self.gated() {
            self
        } else {
            self.execute(decode_spec(self.fetch()), r)
        }
    }

    /// A timer after one tick: one less, but never below zero.
    pub open spec fn tick(t: u8) -> u8 {
        if t > 0 {
            (t - 1) as u8
        } else {
            0
        }
    }
}

} // verus!
