use vstd::prelude::*;
use crate::utility::{lower_nibble, upper_nibble};

verus! {

/// One decoded instruction word, with its operands. `x` and `y` name registers,
/// `nn` is an 8-bit value, `nnn` a 12-bit address and `n` a 4-bit row count.
#[derive(Clone, Copy, Debug, PartialEq, Eq, Structural)]
pub enum Instruction {
    ClearScreen,
    Return,
    Jump { nnn: u16 },
    Call { nnn: u16 },
    SkipIfVxEquals { x: u8, nn: u8 },
    SkipIfVxNotEquals { x: u8, nn: u8 },
    SkipIfVxEqualsVy { x: u8, y: u8 },
    SetVx { x: u8, nn: u8 },
    AddToVx { x: u8, nn: u8 },
    SetVxToVy { x: u8, y: u8 },
    Or { x: u8, y: u8 },
    And { x: u8, y: u8 },
    Xor { x: u8, y: u8 },
    AddVyToVx { x: u8, y: u8 },
    SubVyFromVx { x: u8, y: u8 },
    ShiftRight { x: u8, y: u8 },
    SubVxFromVy { x: u8, y: u8 },
    ShiftLeft { x: u8, y: u8 },
    SkipIfVxNotEqualsVy { x: u8, y: u8 },
    SetI { nnn: u16 },
    JumpV0Plus { nnn: u16 },
    Random { x: u8, nn: u8 },
    Draw { x: u8, y: u8, n: u8 },
    SkipIfKeyPressed { x: u8 },
    SkipIfKeyNotPressed { x: u8 },
    SetVxToDelayTimer { x: u8 },
    WaitForKey { x: u8 },
    SetDelayTimer { x: u8 },
    SetSoundTimer { x: u8 },
    AddVxToI { x: u8 },
    SetIToSprite { x: u8 },
    StoreBcd { x: u8 },
    StoreRegisters { x: u8 },
    LoadRegisters { x: u8 },
    Unknown { opcode: u16 },
}

/// The instruction that an opcode denotes. The opcode splits into the nibbles
/// `op x y n`, with `nnn` its low twelve bits and `nn` its low byte.
pub open spec fn decode_spec(opcode: u16) -> Instruction {
    let op = opcode / 4096;
    let x = ((opcode / 256) % 16) as u8;
    let y = ((opcode / 16) % 16) as u8;
    let n = (opcode % 16) as u8;
    let nn = (opcode % 256) as u8;
    let nnn = (opcode % 4096) as u16;
    if opcode == 0x00E0 {
        Instruction::ClearScreen
    } else if opcode == 0x00EE {
        Instruction::Return
    } else if op == 1 {
        Instruction::Jump { nnn }
    } else if op == 2 {
        Instruction::Call { nnn }
    } else if op == 3 {
        Instruction::SkipIfVxEquals { x, nn }
    } else if op == 4 {
        Instruction::SkipIfVxNotEquals { x, nn }
    } else if op == 5 && n == 0 {
        Instruction::SkipIfVxEqualsVy { x, y }
    } else if op == 6 {
        Instruction::SetVx { x, nn }
    } else if op == 7 {
        Instruction::AddToVx { x, nn }
    } else if op == 8 && n == 0 {
        Instruction::SetVxToVy { x, y }
    } else if op == 8 && n == 1 {
        Instruction::Or { x, y }
    } else if op == 8 && n == 2 {
        Instruction::And { x, y }
    } else if op == 8 && n == 3 {
        Instruction::Xor { x, y }
    } else if op == 8 && n == 4 {
        Instruction::AddVyToVx { x, y }
    } else if op == 8 && n == 5 {
        Instruction::SubVyFromVx { x, y }
    } else if op == 8 && n == 6 {
        Instruction::ShiftRight { x, y }
    } else if op == 8 && n == 7 {
        Instruction::SubVxFromVy { x, y }
    } else if op == 8 && n == 0xE {
        Instruction::ShiftLeft { x, y }
    } else if op == 9 && n == 0 {
        Instruction::SkipIfVxNotEqualsVy { x, y }
    } else if op == 0xA {
        Instruction::SetI { nnn }
    } else if op == 0xB {
        Instruction::JumpV0Plus { nnn }
    } else if op == 0xC {
        Instruction::Random { x, nn }
    } else if op == 0xD {
        Instruction::Draw { x, y, n }
    } else if op == 0xE && nn == 0x9E {
        Instruction::SkipIfKeyPressed { x }
    } else if op == 0xE && nn == 0xA1 {
        Instruction::SkipIfKeyNotPressed { x }
    } else if op == 0xF && nn == 0x07 {
        Instruction::SetVxToDelayTimer { x }
    } else if op == 0xF && nn == 0x0A {
        Instruction::WaitForKey { x }
    } else if op == 0xF && nn == 0x15 {
        Instruction::SetDelayTimer { x }
    } else if op == 0xF && nn == 0x18 {
        Instruction::SetSoundTimer { x }
    } else if op == 0xF && nn == 0x1E {
        Instruction::AddVxToI { x }
    } else if op == 0xF && nn == 0x29 {
        Instruction::SetIToSprite { x }
    } else if op == 0xF && nn == 0x33 {
        Instruction::StoreBcd { x }
    } else if op == 0xF && nn == 0x55 {
        Instruction::StoreRegisters { x }
    } else if op == 0xF && nn == 0x65 {
        Instruction::LoadRegisters { x }
    } else {
        Instruction::Unknown { opcode }
    }
}

impl Instruction {
    /// Register operands name one of the sixteen registers, addresses fit in
    /// twelve bits and row counts in four.
    pub open spec fn wf(self) -> bool {
        match self {
            Instruction::Jump { nnn } => nnn < 4096,
            Instruction::Call { nnn } => nnn < 4096,
            Instruction::SetI { nnn } => nnn < 4096,
            Instruction::JumpV0Plus { nnn } => nnn < 4096,
            Instruction::SkipIfVxEquals { x, .. } => x < 16,
            Instruction::SkipIfVxNotEquals { x, .. } => x < 16,
            Instruction::SetVx { x, .. } => x < 16,
            Instruction::AddToVx { x, .. } => x < 16,
            Instruction::Random { x, .. } => x < 16,
            Instruction::SkipIfVxEqualsVy { x, y } => x < 16 && y < 16,
            Instruction::SetVxToVy { x, y } => x < 16 && y < 16,
            Instruction::Or { x, y } => x < 16 && y < 16,
            Instruction::And { x, y } => x < 16 && y < 16,
            Instruction::Xor { x, y } => x < 16 && y < 16,
            Instruction::AddVyToVx { x, y } => x < 16 && y < 16,
            Instruction::SubVyFromVx { x, y } => x < 16 && y < 16,
            Instruction::ShiftRight { x, y } => x < 16 && y < 16,
            Instruction::SubVxFromVy { x, y } => x < 16 && y < 16,
            Instruction::ShiftLeft { x, y } => x < 16 && y < 16,
            Instruction::SkipIfVxNotEqualsVy { x, y } => x < 16 && y < 16,
            Instruction::Draw { x, y, n } => x < 16 && y < 16 && n < 16,
            Instruction::SkipIfKeyPressed { x } => x < 16,
            Instruction::SkipIfKeyNotPressed { x } => x < 16,
            Instruction::SetVxToDelayTimer { x } => x < 16,
            Instruction::WaitForKey { x } => x < 16,
            Instruction::SetDelayTimer { x } => x < 16,
            Instruction::SetSoundTimer { x } => x < 16,
            Instruction::AddVxToI { x } => x < 16,
            Instruction::SetIToSprite { x } => x < 16,
            Instruction::StoreBcd { x } => x < 16,
            Instruction::StoreRegisters { x } => x < 16,
            Instruction::LoadRegisters { x } => x < 16,
            _ => true,
        }
    }
}

/// Decodes one instruction word.
pub fn decode(opcode: u16) -> (ins: Instruction)
    ensures
        ins == decode_spec(opcode),
        ins.wf(),
{
    let high = (opcode >> 8) as u8;
    let low = (opcode & 0x00FF) as u8;
    assert((opcode >> 8) as u8 == opcode / 256) by (bit_vector);
    assert((opcode & 0x00FF) as u8 == opcode % 256) by (bit_vector);
    let op = upper_nibble(high);
    let x = lower_nibble(high);
    let y = upper_nibble(low);
    let n = lower_nibble(low);
    let nn = low;
    let nnn = opcode & 0x0FFF;
    assert(opcode & 0x0FFF == opcode % 4096) by (bit_vector);
    assert(op == opcode / 4096 && x == (opcode / 256) % 16 && y == (opcode / 16) % 16 && n == opcode
        % 16) by {
        assert(high / 16 == opcode / 4096);
        assert((opcode % 256) / 16 == (opcode / 16) % 16);
        assert((opcode % 256) % 16 == opcode % 16);
    }
    match (op, x, y, n) {
        (0x0, 0x0, 0xE, 0x0) => Instruction::ClearScreen,
        (0x0, 0x0, 0xE, 0xE) => Instruction::Return,
        (0x1, _, _, _) => Instruction::Jump { nnn },
        (0x2, _, _, _) => Instruction::Call { nnn },
        (0x3, _, _, _) => Instruction::SkipIfVxEquals { x, nn },
        (0x4, _, _, _) => Instruction::SkipIfVxNotEquals { x, nn },
        (0x5, _, _, 0x0) => Instruction::SkipIfVxEqualsVy { x, y },
        (0x6, _, _, _) => Instruction::SetVx { x, nn },
        (0x7, _, _, _) => Instruction::AddToVx { x, nn },
        (0x8, _, _, 0x0) => Instruction::SetVxToVy { x, y },
        (0x8, _, _, 0x1) => Instruction::Or { x, y },
        (0x8, _, _, 0x2) => Instruction::And { x, y },
        (0x8, _, _, 0x3) => Instruction::Xor { x, y },
        (0x8, _, _, 0x4) => Instruction::AddVyToVx { x, y },
        (0x8, _, _, 0x5) => Instruction::SubVyFromVx { x, y },
        (0x8, _, _, 0x6) => Instruction::ShiftRight { x, y },
        (0x8, _, _, 0x7) => Instruction::SubVxFromVy { x, y },
        (0x8, _, _, 0xE) => Instruction::ShiftLeft { x, y },
        (0x9, _, _, 0x0) => Instruction::SkipIfVxNotEqualsVy { x, y },
        (0xA, _, _, _) => Instruction::SetI { nnn },
        (0xB, _, _, _) => Instruction::JumpV0Plus { nnn },
        (0xC, _, _, _) => Instruction::Random { x, nn },
        (0xD, _, _, _) => Instruction::Draw { x, y, n },
        (0xE, _, 0x9, 0xE) => Instruction::SkipIfKeyPressed { x },
        (0xE, _, 0xA, 0x1) => Instruction::SkipIfKeyNotPressed { x },
        (0xF, _, 0x0, 0x7) => Instruction::SetVxToDelayTimer { x },
        (0xF, _, 0x0, 0xA) => Instruction::WaitForKey { x },
        (0xF, _, 0x1, 0x5) => Instruction::SetDelayTimer { x },
        (0xF, _, 0x1, 0x8) => Instruction::SetSoundTimer { x },
        (0xF, _, 0x1, 0xE) => Instruction::AddVxToI { x },
        (0xF, _, 0x2, 0x9) => Instruction::SetIToSprite { x },
        (0xF, _, 0x3, 0x3) => Instruction::StoreBcd { x },
        (0xF, _, 0x5, 0x5) => Instruction::StoreRegisters { x },
        (0xF, _, 0x6, 0x5) => Instruction::LoadRegisters { x },
        _ => Instruction::Unknown { opcode },
    }
}

} // verus!
