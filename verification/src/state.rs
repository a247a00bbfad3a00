//! The CHIP-8 machine state and its transition engine: every operation
//! consumes one state value and produces the successor state, described
//! exactly by its contract.

use vstd::prelude::*;

use crate::display::Chip8Display;
use crate::instruction::Chip8Instruction;
use crate::instruction::Opcode;
use crate::instruction::decode;
use crate::instruction::u16_from_nibbles;
use crate::instruction::u8_from_nibbles;
use crate::keyboard::Chip8Keyboard;

verus! {

broadcast use vstd::array::group_array_axioms;

/// Relies on rand::random: a value of the requested type drawn from the
/// thread-local generator.  Nothing is promised of the result.
pub assume_specification<T>[ rand::random::<T> ]() -> (r: T)
    where
        rand::distributions::Standard: rand::distributions::Distribution<T>,
;

/// The font table: 16 glyphs for the hexadecimal digits, 5 bytes each,
/// preloaded at the base of memory; glyph `d` starts at offset `5 * d`.
pub const FONT_SPRITES: [u8; 80] = [
    0xF0, 0x90, 0x90, 0x90, 0xF0,  // "0"
    0x20, 0x60, 0x20, 0x20, 0x70,  // "1"
    0xF0, 0x10, 0xF0, 0x80, 0xF0,  // "2"
    0xF0, 0x10, 0xF0, 0x10, 0xF0,  // "3"
    0x90, 0x90, 0xF0, 0x10, 0x10,  // "4"
    0xF0, 0x80, 0xF0, 0x10, 0xF0,  // "5"
    0xF0, 0x80, 0xF0, 0x90, 0xF0,  // "6"
    0xF0, 0x10, 0x20, 0x40, 0x40,  // "7"
    0xF0, 0x90, 0xF0, 0x90, 0xF0,  // "8"
    0xF0, 0x90, 0xF0, 0x10, 0xF0,  // "9"
    0xF0, 0x90, 0xF0, 0x90, 0x90,  // "A"
    0xE0, 0x90, 0xE0, 0x90, 0xE0,  // "B"
    0xF0, 0x80, 0x80, 0x80, 0xF0,  // "C"
    0xE0, 0x90, 0x90, 0x90, 0xE0,  // "D"
    0xF0, 0x80, 0xF0, 0x80, 0xF0,  // "E"
    0xF0, 0x80, 0xF0, 0x80, 0x80,  // "F"
];

/// The big-endian 16-bit word formed by the bytes of `ram` at offsets `a`
/// and `a + 1`.
pub open spec fn word_at(ram: Seq<u8>, a: int) -> u16
    recommends
        0 <= a,
        a + 1 < ram.len(),
{
    (ram[a] * 256 + ram[a + 1]) as u16
}

// ---------------------------------------------------------------------------
// Transition predicates: one spec predicate per operation, stating the
// successor state exactly.  Each predicate's first clause pins every field
// the operation does not touch to its prior value.
// ---------------------------------------------------------------------------

/// Clear-screen: every pixel goes off; the program counter advances.
pub open spec fn spec_clear_screen(pre: Chip8State, post: Chip8State) -> bool {
    &&& post == (Chip8State { display: post.display, pc: post.pc, ..pre })
    &&& post.display.all_off()
    &&& post.pc == pre.pc + 2
}

/// Return: the program counter reloads the big-endian return address the
/// stack pointer points at, and the stack pointer moves back one slot.
pub open spec fn spec_return(pre: Chip8State, post: Chip8State) -> bool {
    &&& post == (Chip8State { sp: post.sp, pc: post.pc, ..pre })
    &&& post.pc == word_at(pre.ram@, pre.sp as int)
    &&& post.sp == pre.sp - 2
}

/// Jump: the program counter is set to `nnn`.
pub open spec fn spec_jump(pre: Chip8State, post: Chip8State, nnn: u16) -> bool {
    &&& post == (Chip8State { pc: post.pc, ..pre })
    &&& post.pc == nnn
}

/// Indexed jump: the program counter is set to `nnn + V0`.
pub open spec fn spec_indexed_jump(pre: Chip8State, post: Chip8State, nnn: u16) -> bool {
    &&& post == (Chip8State { pc: post.pc, ..pre })
    &&& post.pc == nnn + pre.reg@[0]
}

/// Call: the address of the next instruction is pushed as two big-endian
/// bytes into the new top stack slot, and execution jumps to `nnn`.
pub open spec fn spec_call(pre: Chip8State, post: Chip8State, nnn: u16) -> bool {
    &&& post == (Chip8State { ram: post.ram, sp: post.sp, pc: post.pc, ..pre })
    &&& post.sp == pre.sp + 2
    &&& post.ram@ == pre.ram@.update(pre.sp + 2, ((pre.pc + 2) / 256) as u8).update(
        pre.sp + 3,
        ((pre.pc + 2) % 256) as u8,
    )
    &&& post.pc == nnn
}

/// Skip-if-equal-immediate: the program counter advances by 4 when
/// `Vx == kk`, by 2 otherwise.
pub open spec fn spec_skip_eq_imm(pre: Chip8State, post: Chip8State, x: u8, kk: u8) -> bool {
    &&& post == (Chip8State { pc: post.pc, ..pre })
    &&& post.pc == pre.pc + (if pre.reg@[x as int] == kk { 4int } else { 2int })
}

/// Skip-if-not-equal-immediate: the program counter advances by 4 when
/// `Vx != kk`, by 2 otherwise.
pub open spec fn spec_skip_ne_imm(pre: Chip8State, post: Chip8State, x: u8, kk: u8) -> bool {
    &&& post == (Chip8State { pc: post.pc, ..pre })
    &&& post.pc == pre.pc + (if pre.reg@[x as int] != kk { 4int } else { 2int })
}

/// Skip-if-registers-equal: the program counter advances by 4 when
/// `Vx == Vy`, by 2 otherwise.
pub open spec fn spec_skip_eq_reg(pre: Chip8State, post: Chip8State, x: u8, y: u8) -> bool {
    &&& post == (Chip8State { pc: post.pc, ..pre })
    &&& post.pc == pre.pc + (if pre.reg@[x as int] == pre.reg@[y as int] { 4int } else { 2int })
}

/// Skip-if-registers-not-equal: the program counter advances by 4 when
/// `Vx != Vy`, by 2 otherwise.
pub open spec fn spec_skip_ne_reg(pre: Chip8State, post: Chip8State, x: u8, y: u8) -> bool {
    &&& post == (Chip8State { pc: post.pc, ..pre })
    &&& post.pc == pre.pc + (if pre.reg@[x as int] != pre.reg@[y as int] { 4int } else { 2int })
}

/// Load-immediate: `Vx` is set to `kk`.
pub open spec fn spec_load_imm(pre: Chip8State, post: Chip8State, x: u8, kk: u8) -> bool {
    &&& post == (Chip8State { reg: post.reg, pc: post.pc, ..pre })
    &&& post.reg@ == pre.reg@.update(x as int, kk)
    &&& post.pc == pre.pc + 2
}

/// Add-immediate: `Vx` gains `kk` modulo 256.  The flag register is left
/// alone: unlike add-reg this operation records no carry, and the sum
/// wraps.
pub open spec fn spec_add_imm(pre: Chip8State, post: Chip8State, x: u8, kk: u8) -> bool {
    &&& post == (Chip8State { reg: post.reg, pc: post.pc, ..pre })
    &&& post.reg@ == pre.reg@.update(
        x as int,
        if pre.reg@[x as int] + kk > 255 {
            (pre.reg@[x as int] + kk - 256) as u8
        } else {
            (pre.reg@[x as int] + kk) as u8
        },
    )
    &&& post.pc == pre.pc + 2
}

/// Move: `Vx` is set to `Vy`.
pub open spec fn spec_move_reg(pre: Chip8State, post: Chip8State, x: u8, y: u8) -> bool {
    &&& post == (Chip8State { reg: post.reg, pc: post.pc, ..pre })
    &&& post.reg@ == pre.reg@.update(x as int, pre.reg@[y as int])
    &&& post.pc == pre.pc + 2
}

/// Bitwise or: `Vx` is set to `Vx | Vy`.
pub open spec fn spec_or_reg(pre: Chip8State, post: Chip8State, x: u8, y: u8) -> bool {
    &&& post == (Chip8State { reg: post.reg, pc: post.pc, ..pre })
    &&& post.reg@ == pre.reg@.update(x as int, pre.reg@[x as int] | pre.reg@[y as int])
    &&& post.pc == pre.pc + 2
}

/// Bitwise and: `Vx` is set to `Vx & Vy`.
pub open spec fn spec_and_reg(pre: Chip8State, post: Chip8State, x: u8, y: u8) -> bool {
    &&& post == (Chip8State { reg: post.reg, pc: post.pc, ..pre })
    &&& post.reg@ == pre.reg@.update(x as int, pre.reg@[x as int] & pre.reg@[y as int])
    &&& post.pc == pre.pc + 2
}

/// Bitwise xor: `Vx` is set to `Vx ^ Vy`.
pub open spec fn spec_xor_reg(pre: Chip8State, post: Chip8State, x: u8, y: u8) -> bool {
    &&& post == (Chip8State { reg: post.reg, pc: post.pc, ..pre })
    &&& post.reg@ == pre.reg@.update(x as int, pre.reg@[x as int] ^ pre.reg@[y as int])
    &&& post.pc == pre.pc + 2
}

/// Add with carry: `Vx` takes the low 8 bits of `Vx + Vy` and `VF`
/// records whether the sum exceeded 255.  `VF` is written after `Vx`, so
/// when `x` is 15 the carry flag wins.
pub open spec fn spec_add_reg(pre: Chip8State, post: Chip8State, x: u8, y: u8) -> bool {
    let sum = pre.reg@[x as int] + pre.reg@[y as int];
    &&& post == (Chip8State { reg: post.reg, pc: post.pc, ..pre })
    &&& post.reg@ == pre.reg@.update(
        x as int,
        if sum > 255 {
            (sum - 256) as u8
        } else {
            sum as u8
        },
    ).update(15, if sum > 255 { 1u8 } else { 0u8 })
    &&& post.pc == pre.pc + 2
}

/// Subtract: `VF` records `Vx > Vy` (no borrow needed), then `Vx` takes
/// `Vx - Vy` wrapping modulo 256.  `Vx` is written after `VF`, so when `x`
/// is 15 the difference wins.
pub open spec fn spec_sub_reg(pre: Chip8State, post: Chip8State, x: u8, y: u8) -> bool {
    let xv = pre.reg@[x as int];
    let yv = pre.reg@[y as int];
    &&& post == (Chip8State { reg: post.reg, pc: post.pc, ..pre })
    &&& post.reg@ == pre.reg@.update(15, if xv > yv { 1u8 } else { 0u8 }).update(
        x as int,
        if xv - yv < 0 {
            (xv - yv + 256) as u8
        } else {
            (xv - yv) as u8
        },
    )
    &&& post.pc == pre.pc + 2
}

/// Reverse subtract: `VF` records `Vy > Vx`, then `Vx` takes `Vy - Vx`
/// wrapping modulo 256.
pub open spec fn spec_subn_reg(pre: Chip8State, post: Chip8State, x: u8, y: u8) -> bool {
    let xv = pre.reg@[x as int];
    let yv = pre.reg@[y as int];
    &&& post == (Chip8State { reg: post.reg, pc: post.pc, ..pre })
    &&& post.reg@ == pre.reg@.update(15, if yv > xv { 1u8 } else { 0u8 }).update(
        x as int,
        if yv - xv < 0 {
            (yv - xv + 256) as u8
        } else {
            (yv - xv) as u8
        },
    )
    &&& post.pc == pre.pc + 2
}

/// Shift right: `VF` records the low bit of `Vx`, then `Vx` is halved.
pub open spec fn spec_shr_reg(pre: Chip8State, post: Chip8State, x: u8) -> bool {
    let xv = pre.reg@[x as int];
    &&& post == (Chip8State { reg: post.reg, pc: post.pc, ..pre })
    &&& post.reg@ == pre.reg@.update(15, xv & 1).update(x as int, xv >> 1u8)
    &&& post.pc == pre.pc + 2
}

/// Shift left: `VF` records the high bit of `Vx`, then `Vx` is doubled,
/// dropping the bit shifted out.
pub open spec fn spec_shl_reg(pre: Chip8State, post: Chip8State, x: u8) -> bool {
    let xv = pre.reg@[x as int];
    &&& post == (Chip8State { reg: post.reg, pc: post.pc, ..pre })
    &&& post.reg@ == pre.reg@.update(15, xv >> 7u8).update(x as int, xv << 1u8)
    &&& post.pc == pre.pc + 2
}

/// Set-index: the address register I is set to `nnn`.
pub open spec fn spec_set_index(pre: Chip8State, post: Chip8State, nnn: u16) -> bool {
    &&& post == (Chip8State { i: post.i, pc: post.pc, ..pre })
    &&& post.i == nnn
    &&& post.pc == pre.pc + 2
}

/// Masked random: `Vx` is set to some byte bitwise-anded with `kk`.
/// Nothing more is promised of the drawn byte.
pub open spec fn spec_rand(pre: Chip8State, post: Chip8State, x: u8, kk: u8) -> bool {
    &&& post == (Chip8State { reg: post.reg, pc: post.pc, ..pre })
    &&& exists|b: u8| post.reg@ == pre.reg@.update(x as int, b & kk)
    &&& post.pc == pre.pc + 2
}

/// Load-delay: `Vx` is set to the delay timer.
pub open spec fn spec_load_delay(pre: Chip8State, post: Chip8State, x: u8) -> bool {
    &&& post == (Chip8State { reg: post.reg, pc: post.pc, ..pre })
    &&& post.reg@ == pre.reg@.update(x as int, pre.t_delay)
    &&& post.pc == pre.pc + 2
}

/// Wait-key: the engine suspends, recording in `waiting_for_key` the
/// register the next pressed key goes to.  The program counter does not
/// move, so the instruction re-executes until a key press resolves it.
pub open spec fn spec_wait_key(pre: Chip8State, post: Chip8State, x: u8) -> bool {
    &&& post == (Chip8State { waiting_for_key: post.waiting_for_key, ..pre })
    &&& post.waiting_for_key == Some(x)
}

/// Set-delay: the delay timer is set to `Vx`.
pub open spec fn spec_set_delay(pre: Chip8State, post: Chip8State, x: u8) -> bool {
    &&& post == (Chip8State { t_delay: post.t_delay, pc: post.pc, ..pre })
    &&& post.t_delay == pre.reg@[x as int]
    &&& post.pc == pre.pc + 2
}

/// Set-sound: the sound timer is set to `Vx`.
pub open spec fn spec_set_sound(pre: Chip8State, post: Chip8State, x: u8) -> bool {
    &&& post == (Chip8State { t_sound: post.t_sound, pc: post.pc, ..pre })
    &&& post.t_sound == pre.reg@[x as int]
    &&& post.pc == pre.pc + 2
}

/// Add-index: the address register I gains `Vx`, wrapping modulo 2^16.
pub open spec fn spec_add_index(pre: Chip8State, post: Chip8State, x: u8) -> bool {
    &&& post == (Chip8State { i: post.i, pc: post.pc, ..pre })
    &&& post.i == if pre.i + pre.reg@[x as int] > 0xFFFF {
        (pre.i + pre.reg@[x as int] - 0x10000) as u16
    } else {
        (pre.i + pre.reg@[x as int]) as u16
    }
    &&& post.pc == pre.pc + 2
}

/// Sprite-addr: the address register I is pointed at the font glyph for
/// the digit `Vx`, which starts at offset `5 * Vx`.
pub open spec fn spec_sprite_addr(pre: Chip8State, post: Chip8State, x: u8) -> bool {
    &&& post == (Chip8State { i: post.i, pc: post.pc, ..pre })
    &&& post.i == pre.reg@[x as int] * 5
    &&& post.pc == pre.pc + 2
}

/// Draw: the `n`-byte sprite at memory offset I is XOR-drawn at the
/// coordinates held in `Vx` and `Vy`, clipped at the edges of the grid,
/// and `VF` records whether any flipped pixel was already on.
pub open spec fn spec_draw(pre: Chip8State, post: Chip8State, x: u8, y: u8, n: u8) -> bool {
    let col = pre.reg@[x as int] as int;
    let row = pre.reg@[y as int] as int;
    let sprite = pre.ram@.subrange(pre.i as int, pre.i + n);
    &&& post == (Chip8State { display: post.display, reg: post.reg, pc: post.pc, ..pre })
    &&& post.display.pixels@ == crate::display::sprite_drawn(pre.display.pixels@, col, row, sprite)
    &&& post.reg@ == pre.reg@.update(
        15,
        if crate::display::sprite_collides(pre.display.pixels@, col, row, sprite) {
            1u8
        } else {
            0u8
        },
    )
    &&& post.pc == pre.pc + 2
}

/// Skip-if-key-down: the program counter advances by 4 when the key
/// numbered by `Vx` is pressed, by 2 otherwise.
pub open spec fn spec_skip_key_down(pre: Chip8State, post: Chip8State, x: u8) -> bool {
    &&& post == (Chip8State { pc: post.pc, ..pre })
    &&& post.pc == pre.pc + (if pre.keyboard.keys@[pre.reg@[x as int] as int] {
        4int
    } else {
        2int
    })
}

/// Skip-if-key-up: the program counter advances by 4 when the key
/// numbered by `Vx` is not pressed, by 2 otherwise.
pub open spec fn spec_skip_key_up(pre: Chip8State, post: Chip8State, x: u8) -> bool {
    &&& post == (Chip8State { pc: post.pc, ..pre })
    &&& post.pc == pre.pc + (if pre.keyboard.keys@[pre.reg@[x as int] as int] {
        2int
    } else {
        4int
    })
}

/// Key press: the key's flag goes on.  If the engine was waiting for a
/// key, the key's number lands in the recorded register, the program
/// counter advances, and the wait is cleared; otherwise nothing else
/// moves.
pub open spec fn spec_key_down(pre: Chip8State, post: Chip8State, key: u8) -> bool {
    match pre.waiting_for_key {
        Some(x) => {
            &&& post == (Chip8State {
                keyboard: post.keyboard,
                reg: post.reg,
                pc: post.pc,
                waiting_for_key: post.waiting_for_key,
                ..pre
            })
            &&& post.keyboard.keys@ == pre.keyboard.keys@.update(key as int, true)
            &&& post.reg@ == pre.reg@.update(x as int, key)
            &&& post.pc == pre.pc + 2
            &&& post.waiting_for_key is None
        },
        None => {
            &&& post == (Chip8State { keyboard: post.keyboard, ..pre })
            &&& post.keyboard.keys@ == pre.keyboard.keys@.update(key as int, true)
        },
    }
}

/// Key release: the key's flag goes off and nothing else moves, whether
/// or not the engine is waiting for a key.
pub open spec fn spec_key_up(pre: Chip8State, post: Chip8State, key: u8) -> bool {
    &&& post == (Chip8State { keyboard: post.keyboard, ..pre })
    &&& post.keyboard.keys@ == pre.keyboard.keys@.update(key as int, false)
}

/// Binary-coded decimal: the hundreds, tens and units digits of `Vx` are
/// written to memory at offsets I, I+1 and I+2.
pub open spec fn spec_bcd(pre: Chip8State, post: Chip8State, x: u8) -> bool {
    let v = pre.reg@[x as int] as int;
    let a = pre.i as int;
    &&& post == (Chip8State { ram: post.ram, pc: post.pc, ..pre })
    &&& post.ram@ == pre.ram@.update(a, ((v / 100) % 10) as u8).update(
        a + 1,
        ((v / 10) % 10) as u8,
    ).update(a + 2, (v % 10) as u8)
    &&& post.pc == pre.pc + 2
}

/// Dump registers: `V0` through `Vx` are copied into memory starting at
/// offset I; every byte outside the written range keeps its value.
pub open spec fn spec_dump_regs(pre: Chip8State, post: Chip8State, x: u8) -> bool {
    let a = pre.i as int;
    &&& post == (Chip8State { ram: post.ram, pc: post.pc, ..pre })
    &&& forall|j: int| 0 <= j <= x ==> post.ram@[a + j] == pre.reg@[j]
    &&& forall|b: int| 0 <= b < 4096 && !(a <= b <= a + x) ==> post.ram@[b] == pre.ram@[b]
    &&& post.pc == pre.pc + 2
}

/// Load registers: `V0` through `Vx` are read from memory starting at
/// offset I; every register above `Vx` keeps its value.
pub open spec fn spec_load_regs(pre: Chip8State, post: Chip8State, x: u8) -> bool {
    let a = pre.i as int;
    &&& post == (Chip8State { reg: post.reg, pc: post.pc, ..pre })
    &&& forall|j: int| 0 <= j <= x ==> post.reg@[j] == pre.ram@[a + j]
    &&& forall|r: int| x < r < 16 ==> post.reg@[r] == pre.reg@[r]
    &&& post.pc == pre.pc + 2
}

/// A CHIP-8 machine state.
///
/// The call stack lives inside general memory: `sp` points at the most
/// recently pushed 2-byte big-endian return address, and grows upward from
/// its initial value `0xEA0`.
#[derive(Clone, Copy)]
pub struct Chip8State {
    /// 4096 bytes of memory; the font table sits at the base, the loaded
    /// program starts at `0x200`.
    pub ram: [u8; 4096],
    /// The 16 general-purpose registers V0 to VF; VF doubles as the
    /// carry, borrow and collision flag.
    pub reg: [u8; 16],
    /// The memory address register I.
    pub i: u16,
    /// The stack pointer.
    pub sp: u16,
    /// The delay timer, decremented externally, saturating at 0.
    pub t_delay: u8,
    /// The sound timer, decremented externally, saturating at 0.
    pub t_sound: u8,
    /// The program counter.
    pub pc: u16,
    /// The 64x32 monochrome framebuffer.
    pub display: Chip8Display,
    /// The 16-key input device.
    pub keyboard: Chip8Keyboard,
    /// When the engine executed a wait-key instruction, the index of the
    /// register the next pressed key goes to; `None` while running
    /// normally.
    pub waiting_for_key: Option<u8>,
}

impl Chip8State {
    /// The word of the instruction the program counter points at.
    pub open spec fn spec_word(self) -> u16 {
        word_at(self.ram@, self.pc as int)
    }

    /// The memory and register bounds the operation `op` needs before it
    /// can run: the conditions under which the machine being modeled has
    /// defined behavior.  Violating them is a defect of the loaded
    /// program or the driver, not a recoverable condition.
    pub open spec fn op_enabled(self, op: Opcode) -> bool {
        match op {
            Opcode::Return => self.sp >= 2 && self.sp + 1 < 4096,
            Opcode::Call { nnn } => self.sp + 3 < 4096,
            Opcode::Draw { x, y, n } => self.i + n <= 4096,
            Opcode::SkipKeyDown { x } => self.reg@[x as int] < 16,
            Opcode::SkipKeyUp { x } => self.reg@[x as int] < 16,
            Opcode::Bcd { x } => self.i + 2 < 4096,
            Opcode::DumpRegs { x } => self.i + x < 4096,
            Opcode::LoadRegs { x } => self.i + x < 4096,
            _ => true,
        }
    }

    /// The transition the operation `op` performs, as a relation between
    /// this state and the successor state `post`.
    pub open spec fn op_steps(self, op: Opcode, post: Chip8State) -> bool {
        match op {
            Opcode::ClearScreen => spec_clear_screen(self, post),
            Opcode::Return => spec_return(self, post),
            Opcode::Jump { nnn } => spec_jump(self, post, nnn),
            Opcode::Call { nnn } => spec_call(self, post, nnn),
            Opcode::SkipEqImm { x, kk } => spec_skip_eq_imm(self, post, x, kk),
            Opcode::SkipNeImm { x, kk } => spec_skip_ne_imm(self, post, x, kk),
            Opcode::SkipEqReg { x, y } => spec_skip_eq_reg(self, post, x, y),
            Opcode::SkipNeReg { x, y } => spec_skip_ne_reg(self, post, x, y),
            Opcode::LoadImm { x, kk } => spec_load_imm(self, post, x, kk),
            Opcode::AddImm { x, kk } => spec_add_imm(self, post, x, kk),
            Opcode::MoveReg { x, y } => spec_move_reg(self, post, x, y),
            Opcode::OrReg { x, y } => spec_or_reg(self, post, x, y),
            Opcode::AndReg { x, y } => spec_and_reg(self, post, x, y),
            Opcode::XorReg { x, y } => spec_xor_reg(self, post, x, y),
            Opcode::AddReg { x, y } => spec_add_reg(self, post, x, y),
            Opcode::SubReg { x, y } => spec_sub_reg(self, post, x, y),
            Opcode::ShrReg { x } => spec_shr_reg(self, post, x),
            Opcode::SubnReg { x, y } => spec_subn_reg(self, post, x, y),
            Opcode::ShlReg { x } => spec_shl_reg(self, post, x),
            Opcode::SetIndex { nnn } => spec_set_index(self, post, nnn),
            Opcode::IndexedJump { nnn } => spec_indexed_jump(self, post, nnn),
            Opcode::Rand { x, kk } => spec_rand(self, post, x, kk),
            Opcode::Draw { x, y, n } => spec_draw(self, post, x, y, n),
            Opcode::SkipKeyDown { x } => spec_skip_key_down(self, post, x),
            Opcode::SkipKeyUp { x } => spec_skip_key_up(self, post, x),
            Opcode::LoadDelay { x } => spec_load_delay(self, post, x),
            Opcode::WaitKey { x } => spec_wait_key(self, post, x),
            Opcode::SetDelay { x } => spec_set_delay(self, post, x),
            Opcode::SetSound { x } => spec_set_sound(self, post, x),
            Opcode::AddIndex { x } => spec_add_index(self, post, x),
            Opcode::SpriteAddr { x } => spec_sprite_addr(self, post, x),
            Opcode::Bcd { x } => spec_bcd(self, post, x),
            Opcode::DumpRegs { x } => spec_dump_regs(self, post, x),
            Opcode::LoadRegs { x } => spec_load_regs(self, post, x),
        }
    }

    /// One instruction can execute from this state: the program counter
    /// points at a word inside memory, that word decodes to a known
    /// operation, and the operation's own bounds hold.
    pub open spec fn can_step(self) -> bool {
        &&& self.pc + 1 < 4096
        &&& match decode(self.spec_word()) {
            Some(op) => self.op_enabled(op),
            None => false,
        }
    }

    /// Executing one instruction takes this state to `post`.
    pub open spec fn steps_to(self, post: Chip8State) -> bool {
        match decode(self.spec_word()) {
            Some(op) => self.op_steps(op, post),
            None => false,
        }
    }

    /// A freshly constructed machine: font preloaded at the base of
    /// memory, everything else zeroed, with the conventional initial stack
    /// pointer and program counter.
    #[verifier::loop_isolation(false)]
    pub fn new() -> (s: Chip8State)
        ensures
            forall|a: int| 0 <= a < 80 ==> s.ram@[a] == FONT_SPRITES@[a],
            forall|a: int| 80 <= a < 4096 ==> s.ram@[a] == 0,
            forall|x: int| 0 <= x < 16 ==> s.reg@[x] == 0,
            s.i == 0,
            s.sp == 0xEA0,
            s.t_delay == 0,
            s.t_sound == 0,
            s.pc == 0x200,
            s.display.all_off(),
            s.keyboard.all_released(),
            s.waiting_for_key is None,
    {
        let mut state = Chip8State {
            ram: [0; 4096],
            reg: [0; 16],
            i: 0,
            sp: 0xEA0,
            t_delay: 0,
            t_sound: 0,
            pc: 0x200,
            display: Chip8Display::new(),
            keyboard: Chip8Keyboard::new(),
            waiting_for_key: None,
        };
        let ghost init = state;
        let mut j: usize = 0;
        while j < 80
            invariant
                0 <= j <= 80,
                forall|a: int| 0 <= a < j ==> state.ram@[a] == FONT_SPRITES@[a],
                forall|a: int| j <= a < 4096 ==> state.ram@[a] == 0,
                state == (Chip8State { ram: state.ram, ..init }),
            decreases 80 - j,
        {
            state.ram[j] = FONT_SPRITES[j];
            j = j + 1;
        }
        state
    }

    /// Copy `data` into memory starting at `0x200`, leaving every byte
    /// outside the written range and every other part of the state
    /// untouched.
    #[verifier::loop_isolation(false)]
    pub fn load(&self, data: &[u8]) -> (s: Chip8State)
        requires
            data@.len() <= 4096 - 0x200,
        ensures
            s == (Chip8State { ram: s.ram, ..*self }),
            forall|j: int| 0 <= j < data@.len() ==> s.ram@[0x200 + j] == data@[j],
            forall|a: int|
                0 <= a < 4096 && !(0x200 <= a < 0x200 + data@.len()) ==> s.ram@[a] == self.ram@[a],
    {
        let mut new_state = *self;
        let mut j: usize = 0;
        while j < data.len()
            invariant
                0 <= j <= data@.len(),
                data@.len() <= 4096 - 0x200,
                new_state == (Chip8State { ram: new_state.ram, ..*self }),
                forall|a: int| 0 <= a < data@.len() && a < j ==> new_state.ram@[0x200 + a] == data@[a],
                forall|a: int|
                    0 <= a < 4096 && !(0x200 <= a < 0x200 + j) ==> new_state.ram@[a] == self.ram@[a],
            decreases data@.len() - j,
        {
            new_state.ram[0x200 + j] = data[j];
            j = j + 1;
        }
        new_state
    }

    pub fn get_pixel(&self, col: u8, row: u8) -> (b: bool)
        requires
            col < 64,
            row < 32,
        ensures
            b == self.display.spec_pixel(col as int, row as int),
    {
        self.display.get_pixel(col, row)
    }

    /// Read the big-endian instruction word the program counter points at.
    pub fn read_instruction(&self) -> (op: crate::instruction::Chip8Instruction)
        requires
            self.pc + 1 < 4096,
        ensures
            op.0 == self.spec_word(),
    {
        let hi = self.ram[self.pc as usize];
        let lo = self.ram[(self.pc + 1) as usize];
        crate::instruction::Chip8Instruction((hi as u16) * 256 + (lo as u16))
    }

    /// Read the return address the stack pointer points at.
    pub fn read_return_address(&self) -> (a: u16)
        requires
            self.sp + 1 < 4096,
        ensures
            a == word_at(self.ram@, self.sp as int),
    {
        let hi = self.ram[self.sp as usize];
        let lo = self.ram[(self.sp + 1) as usize];
        (hi as u16) * 256 + (lo as u16)
    }

    /// Reset the display, advancing the program counter.
    pub fn clear_screen(&self) -> (s: Chip8State)
        requires
            self.pc + 2 <= 0xFFFF,
        ensures
            spec_clear_screen(*self, s),
    {
        let mut new_state = *self;
        new_state.display = Chip8Display::new();
        new_state.pc = new_state.pc + 2;
        new_state
    }

    /// Return from a subroutine: reload the saved program counter from the
    /// stack and pop the slot.
    pub fn return_from_subroutine(&self) -> (s: Chip8State)
        requires
            self.sp >= 2,
            self.sp + 1 < 4096,
        ensures
            spec_return(*self, s),
    {
        let ret_addr = self.read_return_address();
        let mut new_state = *self;
        new_state.pc = ret_addr;
        new_state.sp = new_state.sp - 2;
        new_state
    }

    /// Jump to `addr`.
    pub fn jump_to(&self, addr: u16) -> (s: Chip8State)
        ensures
            spec_jump(*self, s, addr),
    {
        let mut new_state = *self;
        new_state.pc = addr;
        new_state
    }

    /// Jump to `addr + V0`.
    pub fn indexed_jump(&self, addr: u16) -> (s: Chip8State)
        requires
            addr + self.reg@[0] <= 0xFFFF,
        ensures
            spec_indexed_jump(*self, s, addr),
    {
        let mut new_state = *self;
        new_state.pc = addr + new_state.reg[0] as u16;
        new_state
    }

    /// Call the subroutine at `subroutine_addr`, pushing the address of
    /// the next instruction onto the in-memory stack.
    pub fn call_subroutine(&self, subroutine_addr: u16) -> (s: Chip8State)
        requires
            self.sp + 3 < 4096,
            self.pc + 2 <= 0xFFFF,
        ensures
            spec_call(*self, s, subroutine_addr),
    {
        let mut new_state = *self;
        let return_address = self.pc + 2;
        new_state.sp = new_state.sp + 2;
        new_state.ram[new_state.sp as usize] = (return_address / 256) as u8;
        new_state.ram[(new_state.sp + 1) as usize] = (return_address % 256) as u8;
        new_state.pc = subroutine_addr;
        new_state
    }

    /// Skip the next instruction when `Vx == value`.
    pub fn skip_if_equals_immediate(&self, reg_index: u8, value: u8) -> (s: Chip8State)
        requires
            reg_index < 16,
            self.pc + 4 <= 0xFFFF,
        ensures
            spec_skip_eq_imm(*self, s, reg_index, value),
    {
        let mut new_state = *self;
        let reg_value = self.reg[reg_index as usize];
        new_state.pc = new_state.pc + 2;
        if reg_value == value {
            new_state.pc = new_state.pc + 2;
        }
        new_state
    }

    /// Skip the next instruction when `Vx != value`.
    pub fn skip_if_not_equals_immediate(&self, reg_index: u8, value: u8) -> (s: Chip8State)
        requires
            reg_index < 16,
            self.pc + 4 <= 0xFFFF,
        ensures
            spec_skip_ne_imm(*self, s, reg_index, value),
    {
        let mut new_state = *self;
        let reg_value = self.reg[reg_index as usize];
        new_state.pc = new_state.pc + 2;
        if reg_value != value {
            new_state.pc = new_state.pc + 2;
        }
        new_state
    }

    /// Skip the next instruction when `Vx == Vy`.
    pub fn skip_if_registers_equal(&self, vx: u8, vy: u8) -> (s: Chip8State)
        requires
            vx < 16,
            vy < 16,
            self.pc + 4 <= 0xFFFF,
        ensures
            spec_skip_eq_reg(*self, s, vx, vy),
    {
        let mut new_state = *self;
        let vx_value = self.reg[vx as usize];
        let vy_value = self.reg[vy as usize];
        new_state.pc = new_state.pc + 2;
        if vx_value == vy_value {
            new_state.pc = new_state.pc + 2;
        }
        new_state
    }

    /// Skip the next instruction when `Vx != Vy`.
    pub fn skip_if_registers_not_equal(&self, vx: u8, vy: u8) -> (s: Chip8State)
        requires
            vx < 16,
            vy < 16,
            self.pc + 4 <= 0xFFFF,
        ensures
            spec_skip_ne_reg(*self, s, vx, vy),
    {
        let mut new_state = *self;
        let vx_value = self.reg[vx as usize];
        let vy_value = self.reg[vy as usize];
        new_state.pc = new_state.pc + 2;
        if vx_value != vy_value {
            new_state.pc = new_state.pc + 2;
        }
        new_state
    }

    /// Put `value` into `Vx`.
    pub fn load_immediate(&self, reg_index: u8, value: u8) -> (s: Chip8State)
        requires
            reg_index < 16,
            self.pc + 2 <= 0xFFFF,
        ensures
            spec_load_imm(*self, s, reg_index, value),
    {
        let mut new_state = *self;
        new_state.reg[reg_index as usize] = value;
        new_state.pc = new_state.pc + 2;
        new_state
    }

    /// Add `value` to `Vx`, wrapping modulo 256 and leaving the flag
    /// register alone.
    pub fn add_immediate(&self, reg_index: u8, value: u8) -> (s: Chip8State)
        requires
            reg_index < 16,
            self.pc + 2 <= 0xFFFF,
        ensures
            spec_add_imm(*self, s, reg_index, value),
    {
        let mut new_state = *self;
        let current = new_state.reg[reg_index as usize];
        new_state.reg[reg_index as usize] = current.wrapping_add(value);
        new_state.pc = new_state.pc + 2;
        new_state
    }

    /// Store `Vy` into `Vx`.
    pub fn move_register(&self, vx: u8, vy: u8) -> (s: Chip8State)
        requires
            vx < 16,
            vy < 16,
            self.pc + 2 <= 0xFFFF,
        ensures
            spec_move_reg(*self, s, vx, vy),
    {
        let mut new_state = *self;
        new_state.reg[vx as usize] = new_state.reg[vy as usize];
        new_state.pc = new_state.pc + 2;
        new_state
    }

    /// Store `Vx | Vy` into `Vx`.
    pub fn or_registers(&self, vx: u8, vy: u8) -> (s: Chip8State)
        requires
            vx < 16,
            vy < 16,
            self.pc + 2 <= 0xFFFF,
        ensures
            spec_or_reg(*self, s, vx, vy),
    {
        let mut new_state = *self;
        new_state.reg[vx as usize] = new_state.reg[vx as usize] | new_state.reg[vy as usize];
        new_state.pc = new_state.pc + 2;
        new_state
    }

    /// Store `Vx & Vy` into `Vx`.
    pub fn and_registers(&self, vx: u8, vy: u8) -> (s: Chip8State)
        requires
            vx < 16,
            vy < 16,
            self.pc + 2 <= 0xFFFF,
        ensures
            spec_and_reg(*self, s, vx, vy),
    {
        let mut new_state = *self;
        new_state.reg[vx as usize] = new_state.reg[vx as usize] & new_state.reg[vy as usize];
        new_state.pc = new_state.pc + 2;
        new_state
    }

    /// Store `Vx ^ Vy` into `Vx`.
    pub fn xor_registers(&self, vx: u8, vy: u8) -> (s: Chip8State)
        requires
            vx < 16,
            vy < 16,
            self.pc + 2 <= 0xFFFF,
        ensures
            spec_xor_reg(*self, s, vx, vy),
    {
        let mut new_state = *self;
        new_state.reg[vx as usize] = new_state.reg[vx as usize] ^ new_state.reg[vy as usize];
        new_state.pc = new_state.pc + 2;
        new_state
    }

    /// Add `Vy` to `Vx`, keeping the low 8 bits and recording the carry
    /// in `VF`.
    pub fn add_registers(&self, vx: u8, vy: u8) -> (s: Chip8State)
        requires
            vx < 16,
            vy < 16,
            self.pc + 2 <= 0xFFFF,
        ensures
            spec_add_reg(*self, s, vx, vy),
    {
        let mut new_state = *self;
        let r1 = new_state.reg[vx as usize];
        let r2 = new_state.reg[vy as usize];
        let sum = r1.wrapping_add(r2);
        let carry: u8 = if (r1 as u16) + (r2 as u16) > 255 {
            1
        } else {
            0
        };
        new_state.reg[vx as usize] = sum;
        new_state.reg[0xF] = carry;
        new_state.pc = new_state.pc + 2;
        new_state
    }

    /// Record `Vx > Vy` in `VF`, then store `Vx - Vy` (wrapping) into
    /// `Vx`.
    pub fn sub_registers(&self, vx: u8, vy: u8) -> (s: Chip8State)
        requires
            vx < 16,
            vy < 16,
            self.pc + 2 <= 0xFFFF,
        ensures
            spec_sub_reg(*self, s, vx, vy),
    {
        let mut new_state = *self;
        let x = new_state.reg[vx as usize];
        let y = new_state.reg[vy as usize];
        new_state.reg[0xF] = if x > y {
            1
        } else {
            0
        };
        new_state.reg[vx as usize] = x.wrapping_sub(y);
        new_state.pc = new_state.pc + 2;
        new_state
    }

    /// Record `Vy > Vx` in `VF`, then store `Vy - Vx` (wrapping) into
    /// `Vx`.
    pub fn subn_registers(&self, vx: u8, vy: u8) -> (s: Chip8State)
        requires
            vx < 16,
            vy < 16,
            self.pc + 2 <= 0xFFFF,
        ensures
            spec_subn_reg(*self, s, vx, vy),
    {
        let mut new_state = *self;
        let x = new_state.reg[vx as usize];
        let y = new_state.reg[vy as usize];
        new_state.reg[0xF] = if y > x {
            1
        } else {
            0
        };
        new_state.reg[vx as usize] = y.wrapping_sub(x);
        new_state.pc = new_state.pc + 2;
        new_state
    }

    /// Record the low bit of `Vx` in `VF`, then halve `Vx`.
    pub fn shr_register(&self, vx: u8) -> (s: Chip8State)
        requires
            vx < 16,
            self.pc + 2 <= 0xFFFF,
        ensures
            spec_shr_reg(*self, s, vx),
    {
        let mut new_state = *self;
        let x = new_state.reg[vx as usize];
        new_state.reg[0xF] = x & 1;
        new_state.reg[vx as usize] = x >> 1u8;
        new_state.pc = new_state.pc + 2;
        new_state
    }

    /// Record the high bit of `Vx` in `VF`, then double `Vx`, dropping
    /// the bit shifted out.
    pub fn shl_register(&self, vx: u8) -> (s: Chip8State)
        requires
            vx < 16,
            self.pc + 2 <= 0xFFFF,
        ensures
            spec_shl_reg(*self, s, vx),
    {
        let mut new_state = *self;
        let x = new_state.reg[vx as usize];
        new_state.reg[0xF] = x >> 7u8;
        new_state.reg[vx as usize] = x << 1u8;
        new_state.pc = new_state.pc + 2;
        new_state
    }

    /// Set the address register I to `n`.
    pub fn set_i(&self, n: u16) -> (s: Chip8State)
        requires
            self.pc + 2 <= 0xFFFF,
        ensures
            spec_set_index(*self, s, n),
    {
        let mut new_state = *self;
        new_state.i = n;
        new_state.pc = new_state.pc + 2;
        new_state
    }

    /// Store the delay timer into `Vx`.
    pub fn move_delay_timer_value_to_register(&self, x: u8) -> (s: Chip8State)
        requires
            x < 16,
            self.pc + 2 <= 0xFFFF,
        ensures
            spec_load_delay(*self, s, x),
    {
        let mut new_state = *self;
        new_state.reg[x as usize] = new_state.t_delay;
        new_state.pc = new_state.pc + 2;
        new_state
    }

    /// Suspend until a key press, which will land in `Vx`; the program
    /// counter stays put.
    pub fn wait_for_key(&self, x: u8) -> (s: Chip8State)
        requires
            x < 16,
        ensures
            spec_wait_key(*self, s, x),
    {
        let mut new_state = *self;
        new_state.waiting_for_key = Some(x);
        new_state
    }

    /// Set the delay timer to `Vx`.
    pub fn set_delay_timer(&self, x: u8) -> (s: Chip8State)
        requires
            x < 16,
            self.pc + 2 <= 0xFFFF,
        ensures
            spec_set_delay(*self, s, x),
    {
        let mut new_state = *self;
        new_state.t_delay = new_state.reg[x as usize];
        new_state.pc = new_state.pc + 2;
        new_state
    }

    /// Set the sound timer to `Vx`.
    pub fn set_sound_timer(&self, x: u8) -> (s: Chip8State)
        requires
            x < 16,
            self.pc + 2 <= 0xFFFF,
        ensures
            spec_set_sound(*self, s, x),
    {
        let mut new_state = *self;
        new_state.t_sound = new_state.reg[x as usize];
        new_state.pc = new_state.pc + 2;
        new_state
    }

    /// Add `Vx` to the address register I, wrapping modulo 2^16.
    pub fn add_register_to_i(&self, x: u8) -> (s: Chip8State)
        requires
            x < 16,
            self.pc + 2 <= 0xFFFF,
        ensures
            spec_add_index(*self, s, x),
    {
        let mut new_state = *self;
        let vx = new_state.reg[x as usize];
        new_state.i = new_state.i.wrapping_add(vx as u16);
        new_state.pc = new_state.pc + 2;
        new_state
    }

    /// Point the address register I at the font glyph for the digit `Vx`.
    pub fn set_sprite_location(&self, x: u8) -> (s: Chip8State)
        requires
            x < 16,
            self.pc + 2 <= 0xFFFF,
        ensures
            spec_sprite_addr(*self, s, x),
    {
        let mut new_state = *self;
        let vx = new_state.reg[x as usize];
        new_state.i = (vx as u16) * 5;
        new_state.pc = new_state.pc + 2;
        new_state
    }

    /// Decode and execute the instruction the program counter points at,
    /// returning the successor state.
    ///
    /// The precondition `can_step` is the engine's fatal-failure policy
    /// made explicit: a word outside the closed instruction set, or an
    /// operation that would reach outside the modeled memory or key
    /// space, has no defined behavior and must not be executed.  A driver
    /// can test it first through [`Chip8State::can_exec_instruction`].
    pub fn exec_instruction(&self) -> (s: Chip8State)
        requires
            self.can_step(),
        ensures
            self.steps_to(s),
    {
        let op = self.read_instruction();
        let nibbles = (op.nibble(1), op.nibble(2), op.nibble(3), op.nibble(4));
        match nibbles {
            // 00E0: Clear screen
            (0, 0, 0xE, 0) => self.clear_screen(),
            // 00EE: Return from subroutine
            (0, 0, 0xE, 0xE) => self.return_from_subroutine(),
            // 1nnn: Jump to 'nnn'
            (1, a1, a2, a3) => self.jump_to(u16_from_nibbles(0, a1, a2, a3)),
            // 2nnn: Call subroutine at 'nnn'
            (2, a1, a2, a3) => self.call_subroutine(u16_from_nibbles(0, a1, a2, a3)),
            // 3xkk: Skip next instruction if Vx == kk
            (3, x, k1, k2) => self.skip_if_equals_immediate(x, u8_from_nibbles(k1, k2)),
            // 4xkk: Skip next instruction if Vx != kk
            (4, x, k1, k2) => self.skip_if_not_equals_immediate(x, u8_from_nibbles(k1, k2)),
            // 5xy0: Skip next instruction if Vx == Vy
            (5, x, y, 0) => self.skip_if_registers_equal(x, y),
            // 6xkk: Put the value kk into Vx
            (6, x, k1, k2) => self.load_immediate(x, u8_from_nibbles(k1, k2)),
            // 7xkk: Add the value kk to Vx
            (7, x, k1, k2) => self.add_immediate(x, u8_from_nibbles(k1, k2)),
            // 8xy0: Store Vy in Vx
            (8, x, y, 0) => self.move_register(x, y),
            // 8xy1: Vx |= Vy
            (8, x, y, 1) => self.or_registers(x, y),
            // 8xy2: Vx &= Vy
            (8, x, y, 2) => self.and_registers(x, y),
            // 8xy3: Vx ^= Vy
            (8, x, y, 3) => self.xor_registers(x, y),
            // 8xy4: Vx += Vy with carry in VF
            (8, x, y, 4) => self.add_registers(x, y),
            // 8xy5: Vx -= Vy, VF = (Vx > Vy)
            (8, x, y, 5) => self.sub_registers(x, y),
            // 8xy6: Vx >>= 1, VF = low bit
            (8, x, _, 6) => self.shr_register(x),
            // 8xy7: Vx = Vy - Vx, VF = (Vy > Vx)
            (8, x, y, 7) => self.subn_registers(x, y),
            // 8xyE: Vx <<= 1, VF = high bit
            (8, x, _, 0xE) => self.shl_register(x),
            // 9xy0: Skip next instruction if Vx != Vy
            (9, x, y, 0) => self.skip_if_registers_not_equal(x, y),
            // Annn: I = nnn
            (0xA, a1, a2, a3) => self.set_i(u16_from_nibbles(0, a1, a2, a3)),
            // Bnnn: Jump to nnn + V0
            (0xB, a1, a2, a3) => self.indexed_jump(u16_from_nibbles(0, a1, a2, a3)),
            // Cxkk: Vx = random byte AND kk
            (0xC, x, k1, k2) => self.masked_random(x, u8_from_nibbles(k1, k2)),
            // Dxyn: Draw the n-byte sprite at I at (Vx, Vy)
            (0xD, x, y, n) => self.draw_sprite(x, y, n),
            // Ex9E: Skip next instruction if key Vx is pressed
            (0xE, x, 9, 0xE) => self.skip_if_key_down(x),
            // ExA1: Skip next instruction if key Vx is not pressed
            (0xE, x, 0xA, 1) => self.skip_if_key_up(x),
            // Fx07: Vx = delay timer
            (0xF, x, 0, 7) => self.move_delay_timer_value_to_register(x),
            // Fx0A: Suspend until a key press lands in Vx
            (0xF, x, 0, 0xA) => self.wait_for_key(x),
            // Fx15: delay timer = Vx
            (0xF, x, 1, 5) => self.set_delay_timer(x),
            // Fx18: sound timer = Vx
            (0xF, x, 1, 8) => self.set_sound_timer(x),
            // Fx1E: I += Vx
            (0xF, x, 1, 0xE) => self.add_register_to_i(x),
            // Fx29: I = font glyph address of digit Vx
            (0xF, x, 2, 9) => self.set_sprite_location(x),
            // Fx33: BCD digits of Vx at I, I+1, I+2
            (0xF, x, 3, 3) => self.binary_coded_decimal_conversion(x),
            // Fx55: Store V0..Vx at I
            (0xF, x, 5, 5) => self.dump_registers_up_to(x),
            // Fx65: Load V0..Vx from I
            (0xF, x, 6, 5) => self.load_registers_up_to(x),
            // Unknown patterns are ruled out by the precondition.
            _ => {
                proof {
                    assert(false);
                }
                *self
            },
        }
    }

    /// Whether the next instruction can execute: computes
    /// [`Chip8State::can_step`], so a driver can fail loudly on an
    /// unknown or ill-formed instruction instead of calling
    /// [`Chip8State::exec_instruction`] outside its precondition.
    pub fn can_exec_instruction(&self) -> (b: bool)
        ensures
            b == self.can_step(),
    {
        if !(self.pc < 4095) {
            return false;
        }
        let op = self.read_instruction();
        let nibbles = (op.nibble(1), op.nibble(2), op.nibble(3), op.nibble(4));
        match nibbles {
            (0, 0, 0xE, 0) => true,
            (0, 0, 0xE, 0xE) => self.sp >= 2 && self.sp < 4095,
            (1, _, _, _) => true,
            (2, _, _, _) => self.sp < 4093,
            (3, _, _, _) => true,
            (4, _, _, _) => true,
            (5, _, _, 0) => true,
            (6, _, _, _) => true,
            (7, _, _, _) => true,
            (8, _, _, 0) => true,
            (8, _, _, 1) => true,
            (8, _, _, 2) => true,
            (8, _, _, 3) => true,
            (8, _, _, 4) => true,
            (8, _, _, 5) => true,
            (8, _, _, 6) => true,
            (8, _, _, 7) => true,
            (8, _, _, 0xE) => true,
            (9, _, _, 0) => true,
            (0xA, _, _, _) => true,
            (0xB, _, _, _) => true,
            (0xC, _, _, _) => true,
            (0xD, _, _, n) => self.i as usize + n as usize <= 4096,
            (0xE, x, 9, 0xE) => self.reg[x as usize] < 16,
            (0xE, x, 0xA, 1) => self.reg[x as usize] < 16,
            (0xF, _, 0, 7) => true,
            (0xF, _, 0, 0xA) => true,
            (0xF, _, 1, 5) => true,
            (0xF, _, 1, 8) => true,
            (0xF, _, 1, 0xE) => true,
            (0xF, _, 2, 9) => true,
            (0xF, _, 3, 3) => self.i < 4094,
            (0xF, x, 5, 5) => self.i as usize + (x as usize) < 4096,
            (0xF, x, 6, 5) => self.i as usize + (x as usize) < 4096,
            _ => false,
        }
    }

    /// Set `Vx` to a random byte bitwise-anded with `mask`.
    pub fn masked_random(&self, vx: u8, mask: u8) -> (s: Chip8State)
        requires
            vx < 16,
            self.pc + 2 <= 0xFFFF,
        ensures
            spec_rand(*self, s, vx, mask),
    {
        let mut new_state = *self;
        let random = rand::random::<u8>();
        new_state.reg[vx as usize] = random & mask;
        new_state.pc = new_state.pc + 2;
        proof {
            assert(new_state.reg@ == self.reg@.update(vx as int, random & mask));
        }
        new_state
    }

    /// XOR-draw the `n`-byte sprite at memory offset I at the coordinates
    /// held in `Vx` and `Vy`, recording any collision in `VF`.
    #[verifier::loop_isolation(false)]
    pub fn draw_sprite(&self, x: u8, y: u8, n: u8) -> (s: Chip8State)
        requires
            x < 16,
            y < 16,
            self.i + n <= 4096,
            self.pc + 2 <= 0xFFFF,
        ensures
            spec_draw(*self, s, x, y, n),
    {
        let mut new_state = *self;
        let col = new_state.reg[x as usize];
        let row = new_state.reg[y as usize];
        let sprite_begin = new_state.i as usize;
        // Copy the sprite out of memory, then draw it.
        let mut sprite: Vec<u8> = Vec::new();
        let mut j: usize = 0;
        while j < n as usize
            invariant
                0 <= j <= n,
                sprite@ =~= self.ram@.subrange(self.i as int, self.i + j),
            decreases n - j,
        {
            sprite.push(new_state.ram[sprite_begin + j]);
            proof {
                assert(sprite@ =~= self.ram@.subrange(self.i as int, self.i + j + 1));
            }
            j = j + 1;
        }
        proof {
            assert(sprite@ =~= self.ram@.subrange(self.i as int, self.i + n));
        }
        let collision = new_state.display.draw_sprite(col, row, sprite.as_slice());
        new_state.reg[0xF] = if collision {
            1
        } else {
            0
        };
        new_state.pc = new_state.pc + 2;
        new_state
    }

    /// Skip the next instruction when the key numbered by `Vx` is
    /// pressed.
    pub fn skip_if_key_down(&self, x: u8) -> (s: Chip8State)
        requires
            x < 16,
            self.reg@[x as int] < 16,
            self.pc + 4 <= 0xFFFF,
        ensures
            spec_skip_key_down(*self, s, x),
    {
        let mut new_state = *self;
        let key = new_state.reg[x as usize];
        new_state.pc = new_state.pc + 2;
        if new_state.is_key_down(key) {
            new_state.pc = new_state.pc + 2;
        }
        new_state
    }

    /// Skip the next instruction when the key numbered by `Vx` is not
    /// pressed.
    pub fn skip_if_key_up(&self, x: u8) -> (s: Chip8State)
        requires
            x < 16,
            self.reg@[x as int] < 16,
            self.pc + 4 <= 0xFFFF,
        ensures
            spec_skip_key_up(*self, s, x),
    {
        let mut new_state = *self;
        let key = new_state.reg[x as usize];
        new_state.pc = new_state.pc + 2;
        if !new_state.is_key_down(key) {
            new_state.pc = new_state.pc + 2;
        }
        new_state
    }

    /// Whether the key numbered `key` is currently pressed.
    pub fn is_key_down(&self, key: u8) -> (b: bool)
        requires
            key < 16,
        ensures
            b == self.keyboard.keys@[key as int],
    {
        self.keyboard.is_key_pressed(key)
    }

    /// Handle a key-press event: set the key's flag, and resolve a
    /// pending wait-key instruction if one is suspended.
    pub fn key_down(&mut self, key: u8) -> (s: Chip8State)
        requires
            key < 16,
            old(self).waiting_for_key matches Some(x) ==> x < 16 && old(self).pc + 2 <= 0xFFFF,
        ensures
            *final(self) == *old(self),
            spec_key_down(*old(self), s, key),
    {
        let mut new_state = *self;
        new_state.keyboard.key_pressed(key);
        match new_state.waiting_for_key {
            Some(x) => {
                new_state.reg[x as usize] = key;
                new_state.pc = new_state.pc + 2;
                new_state.waiting_for_key = None;
            },
            _ => {},
        }
        new_state
    }

    /// Handle a key-release event: clear the key's flag.
    pub fn key_up(&mut self, key: u8) -> (s: Chip8State)
        requires
            key < 16,
        ensures
            *final(self) == *old(self),
            spec_key_up(*old(self), s, key),
    {
        let mut new_state = *self;
        new_state.keyboard.key_released(key);
        new_state
    }

    /// Write the hundreds, tens and units digits of `Vx` to memory at
    /// offsets I, I+1 and I+2.
    pub fn binary_coded_decimal_conversion(&self, x: u8) -> (s: Chip8State)
        requires
            x < 16,
            self.i + 2 < 4096,
            self.pc + 2 <= 0xFFFF,
        ensures
            spec_bcd(*self, s, x),
    {
        let mut new_state = *self;
        let target_address = new_state.i as usize;
        let vx = new_state.reg[x as usize];
        let units = vx % 10;
        let tens = (vx / 10) % 10;
        let hundreds = (vx / 100) % 10;
        new_state.ram[target_address] = hundreds;
        new_state.ram[target_address + 1] = tens;
        new_state.ram[target_address + 2] = units;
        new_state.pc = new_state.pc + 2;
        new_state
    }

    /// Copy `V0` through `Vx` into memory starting at offset I.
    #[verifier::loop_isolation(false)]
    pub fn dump_registers_up_to(&self, x: u8) -> (s: Chip8State)
        requires
            x < 16,
            self.i + x < 4096,
            self.pc + 2 <= 0xFFFF,
        ensures
            spec_dump_regs(*self, s, x),
    {
        let mut new_state = *self;
        let target_address = new_state.i as usize;
        let mut j: usize = 0;
        while j <= x as usize
            invariant
                0 <= j <= x + 1,
                new_state == (Chip8State { ram: new_state.ram, ..*self }),
                forall|a: int| 0 <= a < j ==> new_state.ram@[self.i + a] == self.reg@[a],
                forall|b: int|
                    0 <= b < 4096 && !(self.i <= b < self.i + j) ==> new_state.ram@[b]
                        == self.ram@[b],
            decreases x + 1 - j,
        {
            new_state.ram[target_address + j] = new_state.reg[j];
            j = j + 1;
        }
        new_state.pc = new_state.pc + 2;
        new_state
    }

    /// Copy memory starting at offset I into `V0` through `Vx`.
    #[verifier::loop_isolation(false)]
    pub fn load_registers_up_to(&self, x: u8) -> (s: Chip8State)
        requires
            x < 16,
            self.i + x < 4096,
            self.pc + 2 <= 0xFFFF,
        ensures
            spec_load_regs(*self, s, x),
    {
        let mut new_state = *self;
        let source_address = new_state.i as usize;
        let mut j: usize = 0;
        while j <= x as usize
            invariant
                0 <= j <= x + 1,
                new_state == (Chip8State { reg: new_state.reg, ..*self }),
                forall|a: int| 0 <= a < j ==> new_state.reg@[a] == self.ram@[self.i + a],
                forall|r: int| j <= r < 16 ==> new_state.reg@[r] == self.reg@[r],
            decreases x + 1 - j,
        {
            new_state.reg[j] = new_state.ram[source_address + j];
            j = j + 1;
        }
        new_state.pc = new_state.pc + 2;
        new_state
    }

    /// Tick both countdown timers: each decrements by one unless it is
    /// already 0, where it stays.
    pub fn decrease_timers(&self) -> (s: Chip8State)
        ensures
            s == (Chip8State { t_delay: s.t_delay, t_sound: s.t_sound, ..*self }),
            s.t_delay == if self.t_delay > 0 { self.t_delay - 1 } else { 0 },
            s.t_sound == if self.t_sound > 0 { self.t_sound - 1 } else { 0 },
    {
        let mut new_state = *self;
        if new_state.t_delay > 0 {
            new_state.t_delay = new_state.t_delay - 1;
        }
        if new_state.t_sound > 0 {
            new_state.t_sound = new_state.t_sound - 1;
        }
        new_state
    }
}

} // verus!
