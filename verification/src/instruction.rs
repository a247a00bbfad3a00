//! CHIP-8 instruction words: 16-bit big-endian values split into four 4-bit
//! fields (nibbles), numbered 1 to 4 from most to least significant.

use vstd::prelude::*;

verus! {

/// Nibble `n` of the word `w`, for `n` between 1 (most significant) and 4
/// (least significant).
pub open spec fn nibble_of(w: u16, n: int) -> u8
    recommends
        1 <= n <= 4,
{
    if n == 1 {
        (w / 4096) as u8
    } else if n == 2 {
        ((w / 256) % 16) as u8
    } else if n == 3 {
        ((w / 16) % 16) as u8
    } else {
        (w % 16) as u8
    }
}

/// The low 12 bits of the word `w`: the address field `nnn` of jump, call
/// and set-index instructions.
pub open spec fn addr_of(w: u16) -> u16 {
    ((nibble_of(w, 2) as int) * 256 + (nibble_of(w, 3) as int) * 16 + nibble_of(w, 4) as int) as u16
}

/// The low byte of the word `w`: the immediate field `kk` of the
/// register-immediate instructions.
pub open spec fn byte_of(w: u16) -> u8 {
    ((nibble_of(w, 3) as int) * 16 + nibble_of(w, 4) as int) as u8
}

/// A CHIP-8 instruction, modeled as the 16-bit word it was decoded from.
#[derive(Clone, Copy, Debug, PartialEq, Eq, Structural)]
pub struct Chip8Instruction(pub u16);

impl Chip8Instruction {
    /// Extract nibble `n` (1 to 4) of the instruction word.
    pub fn nibble(&self, n: u8) -> (r: u8)
        requires
            1 <= n <= 4,
        ensures
            r == nibble_of(self.0, n as int),
            r < 16,
    {
        match n {
            1 => (self.0 / 4096) as u8,
            2 => ((self.0 / 256) % 16) as u8,
            3 => ((self.0 / 16) % 16) as u8,
            _ => (self.0 % 16) as u8,
        }
    }
}

/// The closed set of CHIP-8 operations, each variant carrying its decoded
/// operand fields: `x` and `y` name registers, `kk` is an immediate byte,
/// `nnn` a 12-bit address and `n` a nibble count.
pub enum Opcode {
    ClearScreen,
    Return,
    Jump { nnn: u16 },
    Call { nnn: u16 },
    SkipEqImm { x: u8, kk: u8 },
    SkipNeImm { x: u8, kk: u8 },
    SkipEqReg { x: u8, y: u8 },
    SkipNeReg { x: u8, y: u8 },
    LoadImm { x: u8, kk: u8 },
    AddImm { x: u8, kk: u8 },
    MoveReg { x: u8, y: u8 },
    OrReg { x: u8, y: u8 },
    AndReg { x: u8, y: u8 },
    XorReg { x: u8, y: u8 },
    AddReg { x: u8, y: u8 },
    SubReg { x: u8, y: u8 },
    ShrReg { x: u8 },
    SubnReg { x: u8, y: u8 },
    ShlReg { x: u8 },
    SetIndex { nnn: u16 },
    IndexedJump { nnn: u16 },
    Rand { x: u8, kk: u8 },
    Draw { x: u8, y: u8, n: u8 },
    SkipKeyDown { x: u8 },
    SkipKeyUp { x: u8 },
    LoadDelay { x: u8 },
    WaitKey { x: u8 },
    SetDelay { x: u8 },
    SetSound { x: u8 },
    AddIndex { x: u8 },
    SpriteAddr { x: u8 },
    Bcd { x: u8 },
    DumpRegs { x: u8 },
    LoadRegs { x: u8 },
}

/// Decode the word `w` by its four nibbles into the operation it names,
/// or `None` for a word outside the closed instruction set.  The patterns
/// are mutually exclusive by construction.
pub open spec fn decode(w: u16) -> Option<Opcode> {
    let n1 = nibble_of(w, 1);
    let n2 = nibble_of(w, 2);
    let n3 = nibble_of(w, 3);
    let n4 = nibble_of(w, 4);
    if n1 == 0 && n2 == 0 && n3 == 0xE && n4 == 0 {
        Some(Opcode::ClearScreen)
    } else if n1 == 0 && n2 == 0 && n3 == 0xE && n4 == 0xE {
        Some(Opcode::Return)
    } else if n1 == 1 {
        Some(Opcode::Jump { nnn: addr_of(w) })
    } else if n1 == 2 {
        Some(Opcode::Call { nnn: addr_of(w) })
    } else if n1 == 3 {
        Some(Opcode::SkipEqImm { x: n2, kk: byte_of(w) })
    } else if n1 == 4 {
        Some(Opcode::SkipNeImm { x: n2, kk: byte_of(w) })
    } else if n1 == 5 && n4 == 0 {
        Some(Opcode::SkipEqReg { x: n2, y: n3 })
    } else if n1 == 6 {
        Some(Opcode::LoadImm { x: n2, kk: byte_of(w) })
    } else if n1 == 7 {
        Some(Opcode::AddImm { x: n2, kk: byte_of(w) })
    } else if n1 == 8 && n4 == 0 {
        Some(Opcode::MoveReg { x: n2, y: n3 })
    } else if n1 == 8 && n4 == 1 {
        Some(Opcode::OrReg { x: n2, y: n3 })
    } else if n1 == 8 && n4 == 2 {
        Some(Opcode::AndReg { x: n2, y: n3 })
    } else if n1 == 8 && n4 == 3 {
        Some(Opcode::XorReg { x: n2, y: n3 })
    } else if n1 == 8 && n4 == 4 {
        Some(Opcode::AddReg { x: n2, y: n3 })
    } else if n1 == 8 && n4 == 5 {
        Some(Opcode::SubReg { x: n2, y: n3 })
    } else if n1 == 8 && n4 == 6 {
        Some(Opcode::ShrReg { x: n2 })
    } else if n1 == 8 && n4 == 7 {
        Some(Opcode::SubnReg { x: n2, y: n3 })
    } else if n1 == 8 && n4 == 0xE {
        Some(Opcode::ShlReg { x: n2 })
    } else if n1 == 9 && n4 == 0 {
        Some(Opcode::SkipNeReg { x: n2, y: n3 })
    } else if n1 == 0xA {
        Some(Opcode::SetIndex { nnn: addr_of(w) })
    } else if n1 == 0xB {
        Some(Opcode::IndexedJump { nnn: addr_of(w) })
    } else if n1 == 0xC {
        Some(Opcode::Rand { x: n2, kk: byte_of(w) })
    } else if n1 == 0xD {
        Some(Opcode::Draw { x: n2, y: n3, n: n4 })
    } else if n1 == 0xE && n3 == 9 && n4 == 0xE {
        Some(Opcode::SkipKeyDown { x: n2 })
    } else if n1 == 0xE && n3 == 0xA && n4 == 1 {
        Some(Opcode::SkipKeyUp { x: n2 })
    } else if n1 == 0xF && n3 == 0 && n4 == 7 {
        Some(Opcode::LoadDelay { x: n2 })
    } else if n1 == 0xF && n3 == 0 && n4 == 0xA {
        Some(Opcode::WaitKey { x: n2 })
    } else if n1 == 0xF && n3 == 1 && n4 == 5 {
        Some(Opcode::SetDelay { x: n2 })
    } else if n1 == 0xF && n3 == 1 && n4 == 8 {
        Some(Opcode::SetSound { x: n2 })
    } else if n1 == 0xF && n3 == 1 && n4 == 0xE {
        Some(Opcode::AddIndex { x: n2 })
    } else if n1 == 0xF && n3 == 2 && n4 == 9 {
        Some(Opcode::SpriteAddr { x: n2 })
    } else if n1 == 0xF && n3 == 3 && n4 == 3 {
        Some(Opcode::Bcd { x: n2 })
    } else if n1 == 0xF && n3 == 5 && n4 == 5 {
        Some(Opcode::DumpRegs { x: n2 })
    } else if n1 == 0xF && n3 == 6 && n4 == 5 {
        Some(Opcode::LoadRegs { x: n2 })
    } else {
        None
    }
}

/// Assemble a 16-bit word from four nibbles, most significant first.
pub fn u16_from_nibbles(n0: u8, n1: u8, n2: u8, n3: u8) -> (w: u16)
    requires
        n0 < 16,
        n1 < 16,
        n2 < 16,
        n3 < 16,
    ensures
        w == n0 * 4096 + n1 * 256 + n2 * 16 + n3,
{
    (n0 as u16) * 4096 + (n1 as u16) * 256 + (n2 as u16) * 16 + (n3 as u16)
}

/// Assemble a byte from two nibbles, most significant first.
pub fn u8_from_nibbles(n0: u8, n1: u8) -> (b: u8)
    requires
        n0 < 16,
        n1 < 16,
    ensures
        b == n0 * 16 + n1,
{
    n0 * 16 + n1
}

} // verus!
