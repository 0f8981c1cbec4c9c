use vstd::prelude::*;
use vstd::arithmetic::div_mod::lemma_mod_multiples_vanish;
use crate::display::{build_display, blank_screen, flip, rows_view, Display};
use crate::instruction::{decode, decode_spec, Instruction};
use crate::state::{addr, sprite_bit, wrap16, wrap8, CpuState, PROGRAM_START};

verus! {

/// The sixteen hexadecimal digit glyphs, five bytes each; glyph `d` starts at `d * 5`.
pub const FONT_SET: [u8; 80] = [
    0xF0, 0x90, 0x90, 0x90, 0xF0, // 0
    0x20, 0x60, 0x20, 0x20, 0x70, // 1
    0xF0, 0x10, 0xF0, 0x80, 0xF0, // 2
    0xF0, 0x10, 0xF0, 0x10, 0xF0, // 3
    0x90, 0x90, 0xF0, 0x10, 0x10, // 4
    0xF0, 0x80, 0xF0, 0x10, 0xF0, // 5
    0xF0, 0x80, 0xF0, 0x90, 0xF0, // 6
    0xF0, 0x10, 0x20, 0x40, 0x40, // 7
    0xF0, 0x90, 0xF0, 0x90, 0xF0, // 8
    0xF0, 0x90, 0xF0, 0x10, 0xF0, // 9
    0xF0, 0x90, 0xF0, 0x90, 0x90, // A
    0xE0, 0x90, 0xE0, 0x90, 0xE0, // B
    0xF0, 0x80, 0x80, 0x80, 0xF0, // C
    0xE0, 0x90, 0x90, 0x90, 0xE0, // D
    0xF0, 0x80, 0xF0, 0x80, 0xF0, // E
    0xF0, 0x80, 0xF0, 0x80, 0x80, // F
];

/// Largest program, in bytes, that fits between the program origin and the end of memory.
pub const MAX_ROM_SIZE: usize = 3584;

/// Time between two ticks of the 60 Hz timers, in microseconds.
pub const TIMER_INTERVAL_MICROS: u64 = 16667;

/// Why a program could not be loaded.
#[derive(Clone, Copy, Debug, PartialEq, Eq, Structural)]
pub enum RomError {
    /// The program, of `size` bytes, does not fit in memory above the program origin.
    TooLarge { size: usize },
}

/// Relies on `rand::random::<u8>`: a byte from the thread-local generator.
/// Nothing is known of its value.
#[verifier::external_body]
fn random_byte() -> u8 {
    rand::random::<u8>()
}

/// The interpreter: memory, registers, timers, keypad and framebuffer.
pub struct Cpu {
    memory: [u8; 4096],
    stack: [u16; 16],
    v_registers: [u8; 16],
    i_register: u16,
    pc: u16,
    sp: usize,
    display: Display,
    display_wait_quirk: bool,
    clip_quirk: bool,
    draw_occurred_this_frame: bool,
    keys: [bool; 16],
    key_pressed_while_waiting: Option<u8>,
    delay_timer: u8,
    sound_timer: u8,
}

impl View for Cpu {
    type V = CpuState;

    closed spec fn view(&self) -> CpuState {
        CpuState {
            memory: self.memory@,
            stack: self.stack@,
            sp: self.sp as nat,
            v: self.v_registers@,
            i: self.i_register,
            pc: self.pc,
            screen: self.display@,
            keys: self.keys@,
            waiting: self.key_pressed_while_waiting,
            delay_timer: self.delay_timer,
            sound_timer: self.sound_timer,
            display_wait: self.display_wait_quirk,
            clip: self.clip_quirk,
            drawn: self.draw_occurred_this_frame,
        }
    }
}

/// An interpreter in its start state, with the given quirks: memory holds the
/// font and nothing else, and the program counter is at the program origin.
pub fn build_cpu_with_quirks(display_wait: bool, clip: bool) -> (cpu: Cpu)
    ensures
        cpu.wf(),
        cpu@.memory == Seq::new(4096, |a: int| if a < 80 { FONT_SET@[a] } else { 0u8 }),
        cpu@.stack == Seq::new(16, |k: int| 0u16),
        cpu@.sp == 0,
        cpu@.v == Seq::new(16, |k: int| 0u8),
        cpu@.i == 0,
        cpu@.pc == PROGRAM_START,
        cpu@.screen == blank_screen(),
        cpu@.keys == Seq::new(16, |k: int| false),
        cpu@.waiting is None,
        cpu@.delay_timer == 0,
        cpu@.sound_timer == 0,
        cpu@.display_wait == display_wait,
        cpu@.clip == clip,
        !cpu@.drawn,
{
    let mut cpu = Cpu {
        memory: [0u8; 4096],
        stack: [0u16; 16],
        v_registers: [0u8; 16],
        i_register: 0,
        pc: PROGRAM_START,
        sp: 0,
        display: build_display(),
        display_wait_quirk: display_wait,
        clip_quirk: clip,
        draw_occurred_this_frame: false,
        keys: [false; 16],
        key_pressed_while_waiting: None,
        delay_timer: 0,
        sound_timer: 0,
    };
    proof {
        assert(blank_screen()[0].len() == 64);
    }
    cpu.load_font_data();
    assert(cpu@.memory =~= Seq::new(4096, |a: int| if a < 80 { FONT_SET@[a] } else { 0u8 }));
    assert(cpu@.stack =~= Seq::new(16, |k: int| 0u16));
    assert(cpu@.v =~= Seq::new(16, |k: int| 0u8));
    assert(cpu@.keys =~= Seq::new(16, |k: int| false));
    cpu
}

/// An interpreter in its start state, with both quirks on: a draw holds off
/// further instructions until the frame ends, and sprites are clipped.
pub fn build_cpu() -> (cpu: Cpu)
    ensures
        cpu.wf(),
        cpu@.memory == Seq::new(4096, |a: int| if a < 80 { FONT_SET@[a] } else { 0u8 }),
        cpu@.stack == Seq::new(16, |k: int| 0u16),
        cpu@.sp == 0,
        cpu@.v == Seq::new(16, |k: int| 0u8),
        cpu@.i == 0,
        cpu@.pc == PROGRAM_START,
        cpu@.screen == blank_screen(),
        cpu@.keys == Seq::new(16, |k: int| false),
        cpu@.waiting is None,
        cpu@.delay_timer == 0,
        cpu@.sound_timer == 0,
        cpu@.display_wait,
        cpu@.clip,
        !cpu@.drawn,
{
    build_cpu_with_quirks(true, true)
}

impl Cpu {
    pub open spec fn wf(&self) -> bool {
        self@.wf()
    }

    /// Copies the font glyphs to the start of memory.
    #[verifier::spinoff_prover]
    pub fn load_font_data(&mut self)
        requires
            old(self).wf(),
        ensures
            final(self).wf(),
            final(self)@ == (CpuState {
                memory: FONT_SET@ + old(self)@.memory.subrange(80, 4096),
                ..old(self)@
            }),
    {
        let mut k: usize = 0;
        assert(self.memory@ =~= FONT_SET@.subrange(0, 0) + old(self)@.memory.subrange(0, 4096));
        while k < 80
            invariant
                k <= 80,
                self.wf(),
                self@ == (CpuState {
                    memory: FONT_SET@.subrange(0, k as int) + old(self)@.memory.subrange(k as int, 4096),
                    ..old(self)@
                }),
            decreases 80 - k,
        {
            self.memory[k] = FONT_SET[k];
            k = k + 1;
            assert(self.memory@ =~= FONT_SET@.subrange(0, k as int) + old(self)@.memory.subrange(
                k as int,
                4096,
            ));
        }
        assert(FONT_SET@.subrange(0, 80) =~= FONT_SET@);
    }

    /// Lets instructions run again after a frame boundary.
    pub fn end_frame(&mut self)
        ensures
            final(self)@ == (CpuState { drawn: false, ..old(self)@ }),
    {
        self.draw_occurred_this_frame = false;
    }

    /// Records that keypad key `key` is held.
    pub fn key_press(&mut self, key: u8)
        requires
            key < 16,
        ensures
            final(self)@ == (CpuState { keys: old(self)@.keys.update(key as int, true), ..old(self)@ }),
    {
        self.keys[key as usize] = true;
    }

    /// Records that keypad key `key` is released.
    pub fn key_release(&mut self, key: u8)
        requires
            key < 16,
        ensures
            final(self)@ == (CpuState { keys: old(self)@.keys.update(key as int, false), ..old(self)@ }),
    {
        self.keys[key as usize] = false;
    }

    /// One 60 Hz tick: each timer that is above zero goes down by one.
    pub fn decrement_timers(&mut self)
        ensures
            final(self)@ == (CpuState {
                delay_timer: CpuState::tick(old(self)@.delay_timer),
                sound_timer: CpuState::tick(old(self)@.sound_timer),
                ..old(self)@
            }),
    {
        if self.delay_timer > 0 {
            self.delay_timer = self.delay_timer - 1;
        }
        if self.sound_timer > 0 {
            self.sound_timer = self.sound_timer - 1;
        }
    }

    /// The pixel grid, row by row.
    pub fn get_display(&self) -> (g: [[u8; 64]; 32])
        ensures
            rows_view(g) == self@.screen,
    {
        self.display.get_display()
    }

    /// The two bytes at the program counter, high byte first.
    pub fn fetch_instruction(&self) -> (opcode: u16)
        requires
            self.wf(),
        ensures
            opcode == self@.fetch(),
    {
        let high = self.memory[self.pc as usize % 4096] as u16;
        let low = self.memory[(self.pc as usize + 1) % 4096] as u16;
        assert((high << 8u16) | low == high * 256 + low) by (bit_vector)
            requires
                high < 256,
                low < 256,
        ;
        (high << 8) | low
    }

    fn advance_pc(&mut self)
        ensures
            final(self)@ == old(self)@.next(),
    {
        self.pc = self.pc.wrapping_add(2);
    }

    fn skip_if(&mut self, cond: bool)
        ensures
            final(self)@ == old(self)@.skip_if(cond),
    {
        self.pc = self.pc.wrapping_add(if cond { 4 } else { 2 });
    }

    fn clear_screen(&mut self)
        requires
            old(self).wf(),
        ensures
            final(self).wf(),
            final(self)@ == old(self)@.execute(Instruction::ClearScreen, 0),
    {
        self.display.clear();
        self.advance_pc();
    }

    fn return_from_subroutine(&mut self)
        requires
            old(self).wf(),
        ensures
            final(self).wf(),
            final(self)@ == old(self)@.execute(Instruction::Return, 0),
    {
        if self.sp == 0 {
            self.advance_pc();
        } else {
            self.sp = self.sp - 1;
            self.pc = self.stack[self.sp];
        }
    }

    fn jump(&mut self, address: u16)
        requires
            old(self).wf(),
        ensures
            final(self).wf(),
            final(self)@ == old(self)@.execute(Instruction::Jump { nnn: address }, 0),
    {
        self.pc = address;
    }

    fn call_subroutine(&mut self, address: u16)
        requires
            old(self).wf(),
        ensures
            final(self).wf(),
            final(self)@ == old(self)@.execute(Instruction::Call { nnn: address }, 0),
    {
        if self.sp >= 16 {
            self.advance_pc();
        } else {
            self.stack[self.sp] = self.pc.wrapping_add(2);
            self.sp = self.sp + 1;
            self.pc = address;
        }
    }

    fn skip_if_vx_equals(&mut self, register: usize, value: u8)
        requires
            old(self).wf(),
            register < 16,
        ensures
            final(self).wf(),
            final(self)@ == old(self)@.execute(
                Instruction::SkipIfVxEquals { x: register as u8, nn: value },
                0,
            ),
    {
        let cond = self.v_registers[register] == value;
        self.skip_if(cond);
    }

    fn skip_if_vx_not_equals(&mut self, register: usize, value: u8)
        requires
            old(self).wf(),
            register < 16,
        ensures
            final(self).wf(),
            final(self)@ == old(self)@.execute(
                Instruction::SkipIfVxNotEquals { x: register as u8, nn: value },
                0,
            ),
    {
        let cond = self.v_registers[register] != value;
        self.skip_if(cond);
    }

    fn skip_if_vx_equals_vy(&mut self, x: usize, y: usize)
        requires
            old(self).wf(),
            x < 16,
            y < 16,
        ensures
            final(self).wf(),
            final(self)@ == old(self)@.execute(
                Instruction::SkipIfVxEqualsVy { x: x as u8, y: y as u8 },
                0,
            ),
    {
        let cond = self.v_registers[x] == self.v_registers[y];
        self.skip_if(cond);
    }

    fn skip_if_vx_not_equals_vy(&mut self, x: usize, y: usize)
        requires
            old(self).wf(),
            x < 16,
            y < 16,
        ensures
            final(self).wf(),
            final(self)@ == old(self)@.execute(
                Instruction::SkipIfVxNotEqualsVy { x: x as u8, y: y as u8 },
                0,
            ),
    {
        let cond = self.v_registers[x] != self.v_registers[y];
        self.skip_if(cond);
    }

    fn set_vx(&mut self, register: usize, value: u8)
        requires
            old(self).wf(),
            register < 16,
        ensures
            final(self).wf(),
            final(self)@ == old(self)@.execute(Instruction::SetVx { x: register as u8, nn: value }, 0),
    {
        self.v_registers[register] = value;
        self.advance_pc();
    }

    fn add_to_vx(&mut self, register: usize, value: u8)
        requires
            old(self).wf(),
            register < 16,
        ensures
            final(self).wf(),
            final(self)@ == old(self)@.execute(
                Instruction::AddToVx { x: register as u8, nn: value },
                0,
            ),
    {
        self.v_registers[register] = self.v_registers[register].wrapping_add(value);
        self.advance_pc();
    }

    fn set_vx_to_vy(&mut self, x: usize, y: usize)
        requires
            old(self).wf(),
            x < 16,
            y < 16,
        ensures
            final(self).wf(),
            final(self)@ == old(self)@.execute(Instruction::SetVxToVy { x: x as u8, y: y as u8 }, 0),
    {
        self.v_registers[x] = self.v_registers[y];
        self.advance_pc();
    }

    fn set_vx_to_vx_or_vy(&mut self, x: usize, y: usize)
        requires
            old(self).wf(),
            x < 16,
            y < 16,
        ensures
            final(self).wf(),
            final(self)@ == old(self)@.execute(Instruction::Or { x: x as u8, y: y as u8 }, 0),
    {
        self.v_registers[x] = self.v_registers[x] | self.v_registers[y];
        self.v_registers[15] = 0;
        self.advance_pc();
    }

    fn set_vx_to_vx_and_vy(&mut self, x: usize, y: usize)
        requires
            old(self).wf(),
            x < 16,
            y < 16,
        ensures
            final(self).wf(),
            final(self)@ == old(self)@.execute(Instruction::And { x: x as u8, y: y as u8 }, 0),
    {
        self.v_registers[x] = self.v_registers[x] & self.v_registers[y];
        self.v_registers[15] = 0;
        self.advance_pc();
    }

    fn set_vx_to_vx_xor_vy(&mut self, x: usize, y: usize)
        requires
            old(self).wf(),
            x < 16,
            y < 16,
        ensures
            final(self).wf(),
            final(self)@ == old(self)@.execute(Instruction::Xor { x: x as u8, y: y as u8 }, 0),
    {
        self.v_registers[x] = self.v_registers[x] ^ self.v_registers[y];
        self.v_registers[15] = 0;
        self.advance_pc();
    }

    fn add_vy_to_vx(&mut self, x: usize, y: usize)
        requires
            old(self).wf(),
            x < 16,
            y < 16,
        ensures
            final(self).wf(),
            final(self)@ == old(self)@.execute(Instruction::AddVyToVx { x: x as u8, y: y as u8 }, 0),
    {
        let vx = self.v_registers[x];
        let vy = self.v_registers[y];
        let wrap = vx as u16 + vy as u16 > 255;
        self.v_registers[x] = vx.wrapping_add(vy);
        self.v_registers[15] = if wrap { 1 } else { 0 };
        self.advance_pc();
    }

    fn sub_vy_from_vx(&mut self, x: usize, y: usize)
        requires
            old(self).wf(),
            x < 16,
            y < 16,
        ensures
            final(self).wf(),
            final(self)@ == old(self)@.execute(Instruction::SubVyFromVx { x: x as u8, y: y as u8 }, 0),
    {
        let vx = self.v_registers[x];
        let vy = self.v_registers[y];
        let no_borrow = vx >= vy;
        assert(vx.wrapping_sub(vy) == wrap8(vx - vy));
        self.v_registers[x] = vx.wrapping_sub(vy);
        self.v_registers[15] = if no_borrow { 1 } else { 0 };
        self.advance_pc();
    }

    fn shift_vx_right(&mut self, x: usize, y: usize)
        requires
            old(self).wf(),
            x < 16,
            y < 16,
        ensures
            final(self).wf(),
            final(self)@ == old(self)@.execute(Instruction::ShiftRight { x: x as u8, y: y as u8 }, 0),
    {
        let vy = self.v_registers[y];
        assert(vy >> 1u8 == vy / 2 && vy & 1u8 == vy % 2) by (bit_vector);
        self.v_registers[x] = vy >> 1;
        self.v_registers[15] = vy & 1;
        self.advance_pc();
    }

    fn set_vx_to_vy_minus_vx(&mut self, x: usize, y: usize)
        requires
            old(self).wf(),
            x < 16,
            y < 16,
        ensures
            final(self).wf(),
            final(self)@ == old(self)@.execute(Instruction::SubVxFromVy { x: x as u8, y: y as u8 }, 0),
    {
        let vx = self.v_registers[x];
        let vy = self.v_registers[y];
        let no_borrow = vy >= vx;
        assert(vy.wrapping_sub(vx) == wrap8(vy - vx));
        self.v_registers[x] = vy.wrapping_sub(vx);
        self.v_registers[15] = if no_borrow { 1 } else { 0 };
        self.advance_pc();
    }

    fn shift_vx_left(&mut self, x: usize, y: usize)
        requires
            old(self).wf(),
            x < 16,
            y < 16,
        ensures
            final(self).wf(),
            final(self)@ == old(self)@.execute(Instruction::ShiftLeft { x: x as u8, y: y as u8 }, 0),
    {
        let vy = self.v_registers[y];
        assert(vy << 1u8 == ((vy * 2) % 256) as u8 && vy >> 7u8 == vy / 128) by (bit_vector);
        self.v_registers[x] = vy << 1;
        self.v_registers[15] = vy >> 7;
        self.advance_pc();
    }

    fn set_i(&mut self, value: u16)
        requires
            old(self).wf(),
        ensures
            final(self).wf(),
            final(self)@ == old(self)@.execute(Instruction::SetI { nnn: value }, 0),
    {
        self.i_register = value;
        self.advance_pc();
    }

    fn jump_to_v0_plus_nnn(&mut self, value: u16)
        requires
            old(self).wf(),
            value < 4096,
        ensures
            final(self).wf(),
            final(self)@ == old(self)@.execute(Instruction::JumpV0Plus { nnn: value }, 0),
    {
        self.pc = self.v_registers[0] as u16 + value;
    }

    fn random(&mut self, x: usize, mask: u8, random_byte: u8)
        requires
            old(self).wf(),
            x < 16,
        ensures
            final(self).wf(),
            final(self)@ == old(self)@.execute(Instruction::Random { x: x as u8, nn: mask }, random_byte),
    {
        self.v_registers[x] = random_byte & mask;
        self.advance_pc();
    }

    fn skip_if_key_pressed(&mut self, register: usize)
        requires
            old(self).wf(),
            register < 16,
        ensures
            final(self).wf(),
            final(self)@ == old(self)@.execute(Instruction::SkipIfKeyPressed { x: register as u8 }, 0),
    {
        let key = self.v_registers[register] as usize;
        let pressed = key < 16 && self.keys[key];
        self.skip_if(pressed);
    }

    fn skip_if_key_not_pressed(&mut self, register: usize)
        requires
            old(self).wf(),
            register < 16,
        ensures
            final(self).wf(),
            final(self)@ == old(self)@.execute(
                Instruction::SkipIfKeyNotPressed { x: register as u8 },
                0,
            ),
    {
        let key = self.v_registers[register] as usize;
        let pressed = key < 16 && self.keys[key];
        self.skip_if(!pressed);
    }

    fn set_vx_to_delay_timer(&mut self, register: usize)
        requires
            old(self).wf(),
            register < 16,
        ensures
            final(self).wf(),
            final(self)@ == old(self)@.execute(Instruction::SetVxToDelayTimer { x: register as u8 }, 0),
    {
        self.v_registers[register] = self.delay_timer;
        self.advance_pc();
    }

    fn set_delay_timer(&mut self, register: usize)
        requires
            old(self).wf(),
            register < 16,
        ensures
            final(self).wf(),
            final(self)@ == old(self)@.execute(Instruction::SetDelayTimer { x: register as u8 }, 0),
    {
        self.delay_timer = self.v_registers[register];
        self.advance_pc();
    }

    fn set_sound_timer(&mut self, register: usize)
        requires
            old(self).wf(),
            register < 16,
        ensures
            final(self).wf(),
            final(self)@ == old(self)@.execute(Instruction::SetSoundTimer { x: register as u8 }, 0),
    {
        self.sound_timer = self.v_registers[register];
        self.advance_pc();
    }

    fn add_vx_to_i(&mut self, x: usize)
        requires
            old(self).wf(),
            x < 16,
        ensures
            final(self).wf(),
            final(self)@ == old(self)@.execute(Instruction::AddVxToI { x: x as u8 }, 0),
    {
        let vx = self.v_registers[x];
        self.i_register = self.i_register.wrapping_add(vx as u16);
        self.advance_pc();
    }

    fn set_i_to_sprite(&mut self, register: usize)
        requires
            old(self).wf(),
            register < 16,
        ensures
            final(self).wf(),
            final(self)@ == old(self)@.execute(Instruction::SetIToSprite { x: register as u8 }, 0),
    {
        let value = self.v_registers[register];
        self.i_register = value as u16 * 5;
        self.advance_pc();
    }

    fn store_bcd(&mut self, x: usize)
        requires
            old(self).wf(),
            x < 16,
        ensures
            final(self).wf(),
            final(self)@ == old(self)@.execute(Instruction::StoreBcd { x: x as u8 }, 0),
    {
        let value = self.v_registers[x];
        let hundreds = value / 100;
        let tens = (value / 10) % 10;
        let ones = value % 10;
        let i = self.i_register as usize;
        self.memory[i % 4096] = hundreds;
        self.memory[(i + 1) % 4096] = tens;
        self.memory[(i + 2) % 4096] = ones;
        self.advance_pc();
    }

    #[verifier::spinoff_prover]
    fn draw_sprite(&mut self, x: usize, y: usize, height: u8)
        requires
            old(self).wf(),
            x < 16,
            y < 16,
            height < 16,
        ensures
            final(self).wf(),
            final(self)@ == old(self)@.execute(
                Instruction::Draw { x: x as u8, y: y as u8, n: height },
                0,
            ),
    {
        let x_pos = (self.v_registers[x] % 64) as usize;
        let y_pos = (self.v_registers[y] % 32) as usize;
        let ghost s0 = self@;
        let ghost x0 = x_pos as int;
        let ghost y0 = y_pos as int;
        let ghost n = height as int;
        let mut collision = false;
        let mut row: u8 = 0;
        while row < height
            invariant
                row <= height < 16,
                x_pos < 64,
                y_pos < 32,
                x0 == x_pos,
                y0 == y_pos,
                n == height,
                s0.wf(),
                self.wf(),
                self@ == (CpuState { screen: self@.screen, ..s0 }),
                forall|px: int, py: int|
                    0 <= px < 64 && 0 <= py < 32 ==> #[trigger] self@.screen[py][px] == if drawn_before(
                        s0,
                        x0,
                        y0,
                        n,
                        row as int,
                        0,
                        px,
                        py,
                    ) {
                        flip(s0.screen[py][px])
                    } else {
                        s0.screen[py][px]
                    },
                collision <==> exists|px: int, py: int|
                    0 <= px < 64 && 0 <= py < 32 && #[trigger] drawn_before(
                        s0,
                        x0,
                        y0,
                        n,
                        row as int,
                        0,
                        px,
                        py,
                    ) && s0.screen[py][px] == 1,
            decreases height - row,
        {
            let sprite = self.memory[(self.i_register as usize + row as usize) % 4096];
            let py_raw = y_pos + row as usize;
            let mut col: usize = 0;
            while col < 8
                invariant
                    col <= 8,
                    row < height < 16,
                    x_pos < 64,
                    y_pos < 32,
                    x0 == x_pos,
                    y0 == y_pos,
                    n == height,
                    py_raw == y_pos + row,
                    sprite == s0.memory[addr(s0.i + row)],
                    s0.wf(),
                    self.wf(),
                    self@ == (CpuState { screen: self@.screen, ..s0 }),
                    forall|px: int, py: int|
                        0 <= px < 64 && 0 <= py < 32 ==> #[trigger] self@.screen[py][px]
                            == if drawn_before(s0, x0, y0, n, row as int, col as int, px, py) {
                            flip(s0.screen[py][px])
                        } else {
                            s0.screen[py][px]
                        },
                    collision <==> exists|px: int, py: int|
                        0 <= px < 64 && 0 <= py < 32 && #[trigger] drawn_before(
                            s0,
                            x0,
                            y0,
                            n,
                            row as int,
                            col as int,
                            px,
                            py,
                        ) && s0.screen[py][px] == 1,
                decreases 8 - col,
            {
                let px_raw = x_pos + col;
                let bit_set = (sprite & (0x80u8 >> col as u8)) != 0;
                let visible = (px_raw < 64 && py_raw < 32) || !self.clip_quirk;
                let ghost c = col as u8;
                let ghost sh = (7 - col) as u8;
                assert(((sprite & (0x80u8 >> c)) != 0) == (((sprite >> sh) & 1u8) == 1u8))
                    by (bit_vector)
                    requires
                        c < 8,
                        sh == 7 - c,
                ;
                assert(bit_set == sprite_bit(sprite, col as int));
                let ghost prev = self@.screen;
                let ghost prev_collision = collision;
                if visible && bit_set {
                    let px = px_raw % 64;
                    let py = py_raw % 32;
                    proof {
                        lemma_lands_on(s0, x0, y0, n, row as int, col as int, px as int, py as int);
                    }
                    if self.display.set_pixel(px, py) {
                        collision = true;
                    }
                    proof {
                        assert forall|qx: int, qy: int|
                            0 <= qx < 64 && 0 <= qy < 32 implies #[trigger] self@.screen[qy][qx]
                            == if drawn_before(s0, x0, y0, n, row as int, col + 1, qx, qy) {
                            flip(s0.screen[qy][qx])
                        } else {
                            s0.screen[qy][qx]
                        } by {
                            if qx != px || qy != py {
                                assert(self@.screen[qy][qx] == prev[qy][qx]);
                            }
                        }
                        if collision && !prev_collision {
                            assert(drawn_before(
                                s0,
                                x0,
                                y0,
                                n,
                                row as int,
                                col + 1,
                                px as int,
                                py as int,
                            ));
                        }
                        if prev_collision {
                            let (wx, wy) = choose|wx: int, wy: int|
                                0 <= wx < 64 && 0 <= wy < 32 && #[trigger] drawn_before(
                                    s0,
                                    x0,
                                    y0,
                                    n,
                                    row as int,
                                    col as int,
                                    wx,
                                    wy,
                                ) && s0.screen[wy][wx] == 1;
                            assert(drawn_before(s0, x0, y0, n, row as int, col + 1, wx, wy));
                        }
                        if !collision {
                            assert forall|qx: int, qy: int|
                                0 <= qx < 64 && 0 <= qy < 32 && #[trigger] drawn_before(
                                    s0,
                                    x0,
                                    y0,
                                    n,
                                    row as int,
                                    col + 1,
                                    qx,
                                    qy,
                                ) implies s0.screen[qy][qx] != 1 by {
                                if qx == px && qy == py {
                                    assert(prev[qy][qx] == s0.screen[qy][qx]);
                                } else {
                                    assert(drawn_before(
                                        s0,
                                        x0,
                                        y0,
                                        n,
                                        row as int,
                                        col as int,
                                        qx,
                                        qy,
                                    ));
                                }
                            }
                        }
                    }
                } else {
                    proof {
                        lemma_lands_nowhere(
                            s0,
                            x0,
                            y0,
                            n,
                            row as int,
                            col as int,
                            py_raw as int,
                            px_raw as int,
                        );
                        if prev_collision {
                            let (wx, wy) = choose|wx: int, wy: int|
                                0 <= wx < 64 && 0 <= wy < 32 && #[trigger] drawn_before(
                                    s0,
                                    x0,
                                    y0,
                                    n,
                                    row as int,
                                    col as int,
                                    wx,
                                    wy,
                                ) && s0.screen[wy][wx] == 1;
                            assert(drawn_before(s0, x0, y0, n, row as int, col + 1, wx, wy));
                        }
                        if !collision {
                            assert forall|qx: int, qy: int|
                                0 <= qx < 64 && 0 <= qy < 32 && #[trigger] drawn_before(
                                    s0,
                                    x0,
                                    y0,
                                    n,
                                    row as int,
                                    col + 1,
                                    qx,
                                    qy,
                                ) implies s0.screen[qy][qx] != 1 by {
                                assert(drawn_before(
                                    s0,
                                    x0,
                                    y0,
                                    n,
                                    row as int,
                                    col as int,
                                    qx,
                                    qy,
                                ));
                            }
                        }
                    }
                }
                col = col + 1;
            }
            proof {
                if collision {
                    let (wx, wy) = choose|wx: int, wy: int|
                        0 <= wx < 64 && 0 <= wy < 32 && #[trigger] drawn_before(
                            s0,
                            x0,
                            y0,
                            n,
                            row as int,
                            8,
                            wx,
                            wy,
                        ) && s0.screen[wy][wx] == 1;
                    assert(drawn_before(s0, x0, y0, n, row + 1, 0, wx, wy));
                } else {
                    assert forall|qx: int, qy: int|
                        0 <= qx < 64 && 0 <= qy < 32 && #[trigger] drawn_before(
                            s0,
                            x0,
                            y0,
                            n,
                            row + 1,
                            0,
                            qx,
                            qy,
                        ) implies s0.screen[qy][qx] != 1 by {
                        assert(drawn_before(s0, x0, y0, n, row as int, 8, qx, qy));
                    }
                }
            }
            row = row + 1;
        }
        proof {
            assert(self@.screen =~= s0.drawn_screen(x0, y0, n)) by {
                assert forall|py: int| 0 <= py < 32 implies self@.screen[py] =~= s0.drawn_screen(
                    x0,
                    y0,
                    n,
                )[py] by {
                    assert forall|px: int| 0 <= px < 64 implies self@.screen[py][px]
                        == s0.drawn_screen(x0, y0, n)[py][px] by {
                        assert(drawn_before(s0, x0, y0, n, n, 0, px, py) == s0.sprite_covers(
                            x0,
                            y0,
                            n,
                            px,
                            py,
                        ));
                    }
                }
            }
            if collision {
                let (wx, wy) = choose|wx: int, wy: int|
                    0 <= wx < 64 && 0 <= wy < 32 && #[trigger] drawn_before(
                        s0,
                        x0,
                        y0,
                        n,
                        n,
                        0,
                        wx,
                        wy,
                    ) && s0.screen[wy][wx] == 1;
                assert(s0.sprite_covers(x0, y0, n, wx, wy));
            }
            if s0.collides(x0, y0, n) {
                let (wx, wy) = choose|wx: int, wy: int|
                    0 <= wx < 64 && 0 <= wy < 32 && #[trigger] s0.sprite_covers(x0, y0, n, wx, wy)
                        && s0.screen[wy][wx] == 1;
                assert(drawn_before(s0, x0, y0, n, n, 0, wx, wy));
            }
        }
        self.v_registers[15] = if collision { 1 } else { 0 };
        self.draw_occurred_this_frame = true;
        self.advance_pc();
        proof {
            reveal(CpuState::draw);
        }
    }

    #[verifier::spinoff_prover]
    fn wait_for_key(&mut self, x: usize)
        requires
            old(self).wf(),
            x < 16,
        ensures
            final(self).wf(),
            final(self)@ == old(self)@.execute(Instruction::WaitForKey { x: x as u8 }, 0),
    {
        reveal(CpuState::wait_for_key);
        match self.key_pressed_while_waiting {
            None => {
                let mut k: usize = 0;
                while k < 16
                    invariant_except_break
                        k <= 16,
                        forall|j: int| 0 <= j < k ==> !self.keys@[j],
                    ensures
                        k <= 16,
                        forall|j: int| 0 <= j < k ==> !self.keys@[j],
                        k < 16 ==> self.keys@[k as int],
                    decreases 16 - k,
                {
                    if self.keys[k] {
                        break;
                    }
                    k = k + 1;
                }
                if k < 16 {
                    proof {
                        let s = self@;
                        assert(s.is_lowest_pressed(k as int));
                        let c = choose|c: int| s.is_lowest_pressed(c);
                        assert(c == k);
                    }
                    self.key_pressed_while_waiting = Some(k as u8);
                } else {
                    assert(self@.lowest_pressed() is None);
                }
            },
            Some(key) => {
                if !self.keys[key as usize] {
                    self.v_registers[x] = key;
                    self.key_pressed_while_waiting = None;
                    self.advance_pc();
                }
            },
        }
    }

    /// Copies `V0..=Vx` to memory from `I` on.
    #[verifier::spinoff_prover]
    fn copy_registers_to_memory(&mut self, x: usize)
        requires
            old(self).wf(),
            x < 16,
        ensures
            final(self).wf(),
            final(self)@ == (CpuState { memory: old(self)@.stored_registers(x as int), ..old(self)@ }),
    {
        let i = self.i_register as usize;
        let mut idx: usize = 0;
        let ghost s0 = self@;
        assert(self@.memory =~= Seq::new(
            4096,
            |a: int| if (a - i) % 4096 < idx { s0.v[(a - i) % 4096] } else { s0.memory[a] },
        ));
        while idx <= x
            invariant
                x < 16,
                idx <= x + 1,
                i == s0.i,
                s0.wf(),
                self.wf(),
                self@ == (CpuState { memory: self@.memory, ..s0 }),
                self@.memory == Seq::new(
                    4096,
                    |a: int| if (a - i) % 4096 < idx { s0.v[(a - i) % 4096] } else { s0.memory[a] },
                ),
            decreases x + 1 - idx,
        {
            let a = (i + idx) % 4096;
            proof {
                lemma_store_step(self@.memory, s0.v, s0.memory, i as int, idx as int);
            }
            self.memory[a] = self.v_registers[idx];
            idx = idx + 1;
        }
        assert(self@.memory =~= s0.stored_registers(x as int));
    }

    #[verifier::spinoff_prover]
    fn store_registers(&mut self, x: usize)
        requires
            old(self).wf(),
            x < 16,
        ensures
            final(self).wf(),
            final(self)@ == old(self)@.execute(Instruction::StoreRegisters { x: x as u8 }, 0),
    {
        self.copy_registers_to_memory(x);
        self.i_register = self.i_register.wrapping_add(x as u16 + 1);
        self.advance_pc();
    }

    /// Reads `V0..=Vx` from memory from `I` on.
    #[verifier::spinoff_prover]
    fn copy_memory_to_registers(&mut self, x: usize)
        requires
            old(self).wf(),
            x < 16,
        ensures
            final(self).wf(),
            final(self)@ == (CpuState { v: old(self)@.loaded_registers(x as int), ..old(self)@ }),
    {
        let i = self.i_register as usize;
        let mut idx: usize = 0;
        let ghost s0 = self@;
        assert(self@.v =~= Seq::new(
            16,
            |k: int| if k < idx { s0.memory[addr(i + k)] } else { s0.v[k] },
        ));
        while idx <= x
            invariant
                x < 16,
                idx <= x + 1,
                i == s0.i,
                s0.wf(),
                self.wf(),
                self@ == (CpuState { v: self@.v, ..s0 }),
                self@.v == Seq::new(
                    16,
                    |k: int| if k < idx { s0.memory[addr(i + k)] } else { s0.v[k] },
                ),
            decreases x + 1 - idx,
        {
            self.v_registers[idx] = self.memory[(i + idx) % 4096];
            idx = idx + 1;
            assert(self@.v =~= Seq::new(
                16,
                |k: int| if k < idx { s0.memory[addr(i + k)] } else { s0.v[k] },
            ));
        }
        assert(self@.v =~= s0.loaded_registers(x as int));
    }

    #[verifier::spinoff_prover]
    fn load_registers(&mut self, x: usize)
        requires
            old(self).wf(),
            x < 16,
        ensures
            final(self).wf(),
            final(self)@ == old(self)@.execute(Instruction::LoadRegisters { x: x as u8 }, 0),
    {
        self.copy_memory_to_registers(x);
        let ghost s0 = old(self)@;
        let ghost s1 = self@;
        assert((x as u8) as int == x as int);
        assert(vstd::wrapping::u16_specs::wrapping_add(s0.i, (x + 1) as u16) == wrap16(s0.i + x + 1));
        self.i_register = self.i_register.wrapping_add(x as u16 + 1);
        assert(self@ == CpuState { i: wrap16(s0.i + x + 1), ..s1 });
        self.advance_pc();
    }

    /// Runs one decoded instruction; `random_byte` is the byte that a random
    /// instruction masks, and no other instruction reads it.
    pub fn execute(&mut self, ins: Instruction, random_byte: u8)
        requires
            old(self).wf(),
            ins.wf(),
        ensures
            final(self).wf(),
            final(self)@ == old(self)@.execute(ins, random_byte),
    {
        match ins {
            Instruction::ClearScreen => self.clear_screen(),
            Instruction::Return => self.return_from_subroutine(),
            Instruction::Jump { nnn } => self.jump(nnn),
            Instruction::Call { nnn } => self.call_subroutine(nnn),
            Instruction::SkipIfVxEquals { x, nn } => self.skip_if_vx_equals(x as usize, nn),
            Instruction::SkipIfVxNotEquals { x, nn } => self.skip_if_vx_not_equals(x as usize, nn),
            Instruction::SkipIfVxEqualsVy { x, y } => self.skip_if_vx_equals_vy(x as usize, y as usize),
            Instruction::SetVx { x, nn } => self.set_vx(x as usize, nn),
            Instruction::AddToVx { x, nn } => self.add_to_vx(x as usize, nn),
            Instruction::SetVxToVy { x, y } => self.set_vx_to_vy(x as usize, y as usize),
            Instruction::Or { x, y } => self.set_vx_to_vx_or_vy(x as usize, y as usize),
            Instruction::And { x, y } => self.set_vx_to_vx_and_vy(x as usize, y as usize),
            Instruction::Xor { x, y } => self.set_vx_to_vx_xor_vy(x as usize, y as usize),
            Instruction::AddVyToVx { x, y } => self.add_vy_to_vx(x as usize, y as usize),
            Instruction::SubVyFromVx { x, y } => self.sub_vy_from_vx(x as usize, y as usize),
            Instruction::ShiftRight { x, y } => self.shift_vx_right(x as usize, y as usize),
            Instruction::SubVxFromVy { x, y } => self.set_vx_to_vy_minus_vx(x as usize, y as usize),
            Instruction::ShiftLeft { x, y } => self.shift_vx_left(x as usize, y as usize),
            Instruction::SkipIfVxNotEqualsVy { x, y } => self.skip_if_vx_not_equals_vy(
                x as usize,
                y as usize,
            ),
            Instruction::SetI { nnn } => self.set_i(nnn),
            Instruction::JumpV0Plus { nnn } => self.jump_to_v0_plus_nnn(nnn),
            Instruction::Random { x, nn } => self.random(x as usize, nn, random_byte),
            Instruction::Draw { x, y, n } => self.draw_sprite(x as usize, y as usize, n),
            Instruction::SkipIfKeyPressed { x } => self.skip_if_key_pressed(x as usize),
            Instruction::SkipIfKeyNotPressed { x } => self.skip_if_key_not_pressed(x as usize),
            Instruction::SetVxToDelayTimer { x } => self.set_vx_to_delay_timer(x as usize),
            Instruction::WaitForKey { x } => self.wait_for_key(x as usize),
            Instruction::SetDelayTimer { x } => self.set_delay_timer(x as usize),
            Instruction::SetSoundTimer { x } => self.set_sound_timer(x as usize),
            Instruction::AddVxToI { x } => self.add_vx_to_i(x as usize),
            Instruction::SetIToSprite { x } => self.set_i_to_sprite(x as usize),
            Instruction::StoreBcd { x } => self.store_bcd(x as usize),
            Instruction::StoreRegisters { x } => self.store_registers(x as usize),
            Instruction::LoadRegisters { x } => self.load_registers(x as usize),
            Instruction::Unknown { .. } => {},
        }
    }

    /// Decodes and runs one instruction word. A random instruction draws its
    /// byte from the thread-local generator; every other instruction is
    /// determined by the state alone. An unknown word changes nothing.
    pub fn execute_instruction(&mut self, opcode: u16)
        requires
            old(self).wf(),
        ensures
            final(self).wf(),
            exists|r: u8| final(self)@ == old(self)@.execute(decode_spec(opcode), r),
            !(decode_spec(opcode) is Random) ==> final(self)@ == old(self)@.execute(
                decode_spec(opcode),
                0,
            ),
    {
        let ins = decode(opcode);
        let random_byte = match ins {
            Instruction::Random { .. } => random_byte(),
            _ => 0,
        };
        self.execute(ins, random_byte);
    }

    /// One step of the machine: while a draw holds instructions off until the
    /// frame boundary nothing happens; otherwise the instruction at the program
    /// counter runs.
    pub fn cycle(&mut self)
        requires
            old(self).wf(),
        ensures
            final(self).wf(),
            exists|r: u8| final(self)@ == old(self)@.cycle(r),
            !(decode_spec(old(self)@.fetch()) is Random) ==> final(self)@ == old(self)@.cycle(0),
    {
        if self.display_wait_quirk && self.draw_occurred_this_frame {
            assert(self@ == old(self)@.cycle(0));
            return;
        }
        let opcode = self.fetch_instruction();
        self.execute_instruction(opcode);
        proof {
            let r = choose|r: u8| self@ == old(self)@.execute(decode_spec(opcode), r);
            assert(self@ == old(self)@.cycle(r));
        }
    }

    /// Copies a program into memory from the program origin on. A program that
    /// does not fit between the origin and the end of memory is refused and
    /// memory is left as it was.
    #[verifier::spinoff_prover]
    pub fn load_rom(&mut self, rom: &[u8]) -> (r: Result<(), RomError>)
        requires
            old(self).wf(),
        ensures
            final(self).wf(),
            r is Ok <==> rom@.len() <= MAX_ROM_SIZE,
            r is Ok ==> final(self)@ == (CpuState {
                memory: old(self)@.memory.subrange(0, 0x200) + rom@ + old(self)@.memory.subrange(
                    0x200 + rom@.len() as int,
                    4096,
                ),
                ..old(self)@
            }),
            r is Err ==> final(self)@ == old(self)@ && r == Err::<(), RomError>(
                RomError::TooLarge { size: rom@.len() as usize },
            ),
    {
        if rom.len() > MAX_ROM_SIZE {
            return Err(RomError::TooLarge { size: rom.len() });
        }
        let ghost m0 = self@.memory;
        let mut k: usize = 0;
        assert(self@.memory =~= m0.subrange(0, 0x200) + rom@.subrange(0, 0) + m0.subrange(
            0x200,
            4096,
        ));
        while k < rom.len()
            invariant
                k <= rom@.len() <= MAX_ROM_SIZE,
                m0 == old(self)@.memory,
                self.wf(),
                self@ == (CpuState { memory: self@.memory, ..old(self)@ }),
                self@.memory == m0.subrange(0, 0x200) + rom@.subrange(0, k as int) + m0.subrange(
                    0x200 + k,
                    4096,
                ),
            decreases rom@.len() - k,
        {
            self.memory[0x200 + k] = rom[k];
            k = k + 1;
            assert(self@.memory =~= m0.subrange(0, 0x200) + rom@.subrange(0, k as int)
                + m0.subrange(0x200 + k, 4096));
        }
        assert(rom@.subrange(0, rom@.len() as int) =~= rom@);
        Ok(())
    }

    /// Ticks the timers when at least one timer interval has passed since the
    /// last tick, and tells whether it did.
    pub fn update_timers(&mut self, elapsed_micros: u64) -> (ticked: bool)
        ensures
            ticked == (elapsed_micros >= TIMER_INTERVAL_MICROS),
            ticked ==> final(self)@ == (CpuState {
                delay_timer: CpuState::tick(old(self)@.delay_timer),
                sound_timer: CpuState::tick(old(self)@.sound_timer),
                ..old(self)@
            }),
            !ticked ==> final(self)@ == old(self)@,
    {
        if elapsed_micros >= TIMER_INTERVAL_MICROS {
            self.decrement_timers();
            true
        } else {
            false
        }
    }

    /// The value of register `Vx`.
    pub fn v_register(&self, x: u8) -> (r: u8)
        requires
            self.wf(),
            x < 16,
        ensures
            r == self@.reg(x),
    {
        self.v_registers[x as usize]
    }

    /// The program counter.
    pub fn program_counter(&self) -> (r: u16)
        ensures
            r == self@.pc,
    {
        self.pc
    }

    /// The index register `I`.
    pub fn index_register(&self) -> (r: u16)
        ensures
            r == self@.i,
    {
        self.i_register
    }

    /// The delay timer.
    pub fn delay_timer(&self) -> (r: u8)
        ensures
            r == self@.delay_timer,
    {
        self.delay_timer
    }

    /// The sound timer.
    pub fn sound_timer(&self) -> (r: u8)
        ensures
            r == self@.sound_timer,
    {
        self.sound_timer
    }

    /// The byte at `address`, reduced into the address space.
    pub fn read_memory(&self, address: u16) -> (r: u8)
        requires
            self.wf(),
        ensures
            r == self@.memory[addr(address as int)],
    {
        self.memory[address as usize % 4096]
    }

    /// The number of return addresses on the call stack.
    pub fn stack_depth(&self) -> (r: usize)
        ensures
            r == self@.sp,
    {
        self.sp
    }

    /// Whether keypad key `key` is held.
    pub fn is_key_pressed(&self, key: u8) -> (r: bool)
        requires
            self.wf(),
            key < 16,
        ensures
            r == self@.keys[key as int],
    {
        self.keys[key as usize]
    }
}

/// The pixel `(px, py)` is covered by the sprite and its sprite position comes
/// before `(row, col)` in row-major order.
spec fn drawn_before(
    s: CpuState,
    x0: int,
    y0: int,
    n: int,
    row: int,
    col: int,
    px: int,
    py: int,
) -> bool {
    let dx = s.col_offset(x0, px);
    let dy = s.row_offset(y0, py);
    &&& s.sprite_covers(x0, y0, n, px, py)
    &&& (dy < row || (dy == row && dx < col))
}

proof fn lemma_wrap_offset(q: int, a: int, d: int, m: int)
    requires
        m == 64 || m == 32 || m == 4096,
        0 <= q < m,
        0 <= a < m,
        0 <= d < m,
    ensures
        ((q - a) % m == d) <==> (q == (a + d) % m),
{
    if a + d < m {
        assert((a + d) % m == a + d);
    } else {
        assert((a + d) % m == a + d - m);
    }
    if q >= a {
        assert((q - a) % m == q - a);
    } else {
        assert((q - a) % m == q - a + m);
    }
}

/// Address `a` lies `d` cells past `i`, counting round the address space.
proof fn lemma_addr_offset(a: int, i: int, d: int)
    requires
        0 <= a < 4096,
        0 <= i,
        0 <= d < 4096,
    ensures
        ((a - i) % 4096 == d) <==> (a == (i + d) % 4096),
{
    let q = i / 4096;
    let r = i % 4096;
    assert(i == 4096 * q + r);
    lemma_mod_multiples_vanish(q, a - i, 4096);
    lemma_mod_multiples_vanish(q, r + d, 4096);
    assert(4096 * q + (a - i) == a - r);
    assert(4096 * q + (r + d) == i + d);
    lemma_wrap_offset(a, r, d, 4096);
}

/// Copying register `idx` to the cell `idx` past `i` extends a copy of the
/// registers below it by one.
proof fn lemma_store_step(prev: Seq<u8>, v: Seq<u8>, mem0: Seq<u8>, i: int, idx: int)
    requires
        v.len() == 16,
        mem0.len() == 4096,
        0 <= i,
        0 <= idx < 16,
        prev == Seq::new(
            4096,
            |a: int| if (a - i) % 4096 < idx { v[(a - i) % 4096] } else { mem0[a] },
        ),
    ensures
        prev.update((i + idx) % 4096, v[idx]) == Seq::new(
            4096,
            |a: int| if (a - i) % 4096 < idx + 1 { v[(a - i) % 4096] } else { mem0[a] },
        ),
{
    assert forall|b: int| 0 <= b < 4096 implies prev.update((i + idx) % 4096, v[idx])[b] == (if (b
        - i) % 4096 < idx + 1 {
        v[(b - i) % 4096]
    } else {
        mem0[b]
    }) by {
        lemma_addr_offset(b, i, idx);
    }
    assert(prev.update((i + idx) % 4096, v[idx]) =~= Seq::new(
        4096,
        |a: int| if (a - i) % 4096 < idx + 1 { v[(a - i) % 4096] } else { mem0[a] },
    ));
}

/// The sprite bit at `(row, col)`, when it is set and lands on the screen, lands
/// on `(px, py)` and on no other pixel.
proof fn lemma_lands_on(s: CpuState, x0: int, y0: int, n: int, row: int, col: int, px: int, py: int)
    requires
        s.wf(),
        0 <= x0 < 64,
        0 <= y0 < 32,
        0 <= row < n < 16,
        0 <= col < 8,
        px == (x0 + col) % 64,
        py == (y0 + row) % 32,
        s.clip ==> x0 + col < 64 && y0 + row < 32,
        sprite_bit(s.memory[addr(s.i + row)], col),
    ensures
        s.col_offset(x0, px) == col,
        s.row_offset(y0, py) == row,
        s.sprite_covers(x0, y0, n, px, py),
        forall|qx: int, qy: int|
            0 <= qx < 64 && 0 <= qy < 32 && s.col_offset(x0, qx) == col && s.row_offset(y0, qy)
                == row ==> qx == px && qy == py,
{
    lemma_wrap_offset(px, x0, col, 64);
    lemma_wrap_offset(py, y0, row, 32);
    assert forall|qx: int, qy: int|
        0 <= qx < 64 && 0 <= qy < 32 && s.col_offset(x0, qx) == col && s.row_offset(y0, qy)
            == row implies qx == px && qy == py by {
        lemma_wrap_offset(qx, x0, col, 64);
        lemma_wrap_offset(qy, y0, row, 32);
    }
}

/// A sprite position whose bit is clear, or which falls off a clipped screen,
/// covers no pixel.
proof fn lemma_lands_nowhere(
    s: CpuState,
    x0: int,
    y0: int,
    n: int,
    row: int,
    col: int,
    py_raw: int,
    px_raw: int,
)
    requires
        s.wf(),
        0 <= x0 < 64,
        0 <= y0 < 32,
        0 <= row < n < 16,
        0 <= col < 8,
        px_raw == x0 + col,
        py_raw == y0 + row,
        !sprite_bit(s.memory[addr(s.i + row)], col) || (s.clip && (px_raw >= 64 || py_raw >= 32)),
    ensures
        forall|qx: int, qy: int|
            0 <= qx < 64 && 0 <= qy < 32 && s.col_offset(x0, qx) == col && s.row_offset(y0, qy)
                == row ==> !s.sprite_covers(x0, y0, n, qx, qy),
{
}

} // verus!
