use vstd::prelude::*;

verus! {

/// One decoded CHIP-8 instruction, with its operand fields.
///
/// Register operands `x` and `y` are always below 16, `addr` is a 12-bit
/// address and `n` a 4-bit sprite height.
#[derive(Clone, Copy, Debug, PartialEq, Eq, Structural)]
pub enum Instruction {
    /// 00E0: clear the display.
    Cls,
    /// 00EE: return from a subroutine.
    Ret,
    /// 1nnn: jump to `addr`.
    Jp { addr: usize },
    /// 2nnn: call the subroutine at `addr`.
    Call { addr: usize },
    /// 3xkk: skip the next instruction if Vx == kk.
    SeByte { x: usize, kk: u8 },
    /// 4xkk: skip the next instruction if Vx != kk.
    SneByte { x: usize, kk: u8 },
    /// 5xy0: skip the next instruction if Vx == Vy.
    SeReg { x: usize, y: usize },
    /// 6xkk: Vx := kk.
    LdByte { x: usize, kk: u8 },
    /// 7xkk: Vx := Vx + kk, wrapping, flags untouched.
    AddByte { x: usize, kk: u8 },
    /// 8xy0: Vx := Vy.
    LdReg { x: usize, y: usize },
    /// 8xy1: Vx := Vx | Vy.
    Or { x: usize, y: usize },
    /// 8xy2: Vx := Vx & Vy.
    And { x: usize, y: usize },
    /// 8xy3: Vx := Vx ^ Vy.
    Xor { x: usize, y: usize },
    /// 8xy4: Vx := Vx + Vy, VF := carry.
    AddReg { x: usize, y: usize },
    /// 8xy5: Vx := Vx - Vy, VF := not borrow.
    Sub { x: usize, y: usize },
    /// 8xy6: VF := low bit of Vx, Vx := Vx >> 1.
    Shr { x: usize },
    /// 8xy7: Vx := Vy - Vx, VF := not borrow.
    Subn { x: usize, y: usize },
    /// 8xyE: VF := high bit of Vx, Vx := Vx << 1.
    Shl { x: usize },
    /// 9xy0: skip the next instruction if Vx != Vy.
    SneReg { x: usize, y: usize },
    /// Annn: I := addr.
    LdI { addr: usize },
    /// Bnnn: jump to addr + V0.
    JpV0 { addr: usize },
    /// Cxkk: Vx := random byte & kk.
    Rnd { x: usize, kk: u8 },
    /// Dxyn: draw an n-row sprite from memory at I at (Vx, Vy); VF := 1 on a
    /// collision.
    Drw { x: usize, y: usize, n: u8 },
    /// Ex9E: skip the next instruction if key Vx is pressed.
    Skp { x: usize },
    /// ExA1: skip the next instruction if key Vx is not pressed.
    Sknp { x: usize },
    /// Fx07: Vx := delay timer.
    LdVxDt { x: usize },
    /// Fx0A: wait for a key press and store its index in Vx.
    LdKey { x: usize },
    /// Fx15: delay timer := Vx.
    LdDtVx { x: usize },
    /// Fx18: sound timer := Vx.
    LdStVx { x: usize },
    /// Fx1E: I := I + Vx, wrapping at 16 bits.
    AddI { x: usize },
    /// Fx29: I := address of the font glyph for digit Vx.
    LdFont { x: usize },
    /// Fx33: store the decimal digits of Vx at I, I+1, I+2.
    Bcd { x: usize },
    /// Fx55: store V0..=Vx in memory from I on.
    Store { x: usize },
    /// Fx65: load V0..=Vx from memory from I on.
    Load { x: usize },
}

/// The top nibble: the operation family.
pub open spec fn family(op: u16) -> int {
    op as int / 4096
}

/// The second nibble: the first register operand.
pub open spec fn field_x(op: u16) -> usize {
    ((op as int / 256) % 16) as usize
}

/// The third nibble: the second register operand.
pub open spec fn field_y(op: u16) -> usize {
    ((op as int / 16) % 16) as usize
}

/// The low nibble.
pub open spec fn field_n(op: u16) -> u8 {
    (op as int % 16) as u8
}

/// The low byte.
pub open spec fn field_kk(op: u16) -> u8 {
    (op as int % 256) as u8
}

/// The low twelve bits: an address.
pub open spec fn field_nnn(op: u16) -> usize {
    (op as int % 4096) as usize
}

/// The instruction that an opcode word stands for, if any.
pub open spec fn decode_spec(op: u16) -> Option<Instruction> {
    let x = field_x(op);
    let y = field_y(op);
    let kk = field_kk(op);
    let addr = field_nnn(op);
    let f = family(op);
    if f == 0 {
        if kk == 0xE0 {
            Some(Instruction::Cls)
        } else if kk == 0xEE {
            Some(Instruction::Ret)
        } else {
            None
        }
    } else if f == 1 {
        Some(Instruction::Jp { addr })
    } else if f == 2 {
        Some(Instruction::Call { addr })
    } else if f == 3 {
        Some(Instruction::SeByte { x, kk })
    } else if f == 4 {
        Some(Instruction::SneByte { x, kk })
    } else if f == 5 {
        Some(Instruction::SeReg { x, y })
    } else if f == 6 {
        Some(Instruction::LdByte { x, kk })
    } else if f == 7 {
        Some(Instruction::AddByte { x, kk })
    } else if f == 8 {
        let n = field_n(op);
        if n == 0 {
            Some(Instruction::LdReg { x, y })
        } else if n == 1 {
            Some(Instruction::Or { x, y })
        } else if n == 2 {
            Some(Instruction::And { x, y })
        } else if n == 3 {
            Some(Instruction::Xor { x, y })
        } else if n == 4 {
            Some(Instruction::AddReg { x, y })
        } else if n == 5 {
            Some(Instruction::Sub { x, y })
        } else if n == 6 {
            Some(Instruction::Shr { x })
        } else if n == 7 {
            Some(Instruction::Subn { x, y })
        } else if n == 0xE {
            Some(Instruction::Shl { x })
        } else {
            None
        }
    } else if f == 9 {
        Some(Instruction::SneReg { x, y })
    } else if f == 0xA {
        Some(Instruction::LdI { addr })
    } else if f == 0xB {
        Some(Instruction::JpV0 { addr })
    } else if f == 0xC {
        Some(Instruction::Rnd { x, kk })
    } else if f == 0xD {
        Some(Instruction::Drw { x, y, n: field_n(op) })
    } else if f == 0xE {
        if kk == 0x9E {
            Some(Instruction::Skp { x })
        } else if kk == 0xA1 {
            Some(Instruction::Sknp { x })
        } else {
            None
        }
    } else {
        if kk == 0x07 {
            Some(Instruction::LdVxDt { x })
        } else if kk == 0x0A {
            Some(Instruction::LdKey { x })
        } else if kk == 0x15 {
            Some(Instruction::LdDtVx { x })
        } else if kk == 0x18 {
            Some(Instruction::LdStVx { x })
        } else if kk == 0x1E {
            Some(Instruction::AddI { x })
        } else if kk == 0x29 {
            Some(Instruction::LdFont { x })
        } else if kk == 0x33 {
            Some(Instruction::Bcd { x })
        } else if kk == 0x55 {
            Some(Instruction::Store { x })
        } else if kk == 0x65 {
            Some(Instruction::Load { x })
        } else {
            None
        }
    }
}

/// Operand bounds that every decoded instruction meets.
pub open spec fn operands_in_range(ins: Instruction) -> bool {
    match ins {
        Instruction::Cls | Instruction::Ret => true,
        Instruction::Jp { addr } | Instruction::Call { addr } | Instruction::LdI { addr }
        | Instruction::JpV0 { addr } => addr < 4096,
        Instruction::SeByte { x, .. } | Instruction::SneByte { x, .. } | Instruction::LdByte {
            x,
            ..
        } | Instruction::AddByte { x, .. } | Instruction::Rnd { x, .. } => x < 16,
        Instruction::SeReg { x, y } | Instruction::LdReg { x, y } | Instruction::Or { x, y }
        | Instruction::And { x, y } | Instruction::Xor { x, y } | Instruction::AddReg { x, y }
        | Instruction::Sub { x, y } | Instruction::Subn { x, y } | Instruction::SneReg {
            x,
            y,
        } => x < 16 && y < 16,
        Instruction::Drw { x, y, n } => x < 16 && y < 16 && n < 16,
        Instruction::Shr { x } | Instruction::Shl { x } | Instruction::Skp { x }
        | Instruction::Sknp { x } | Instruction::LdVxDt { x } | Instruction::LdKey { x }
        | Instruction::LdDtVx { x } | Instruction::LdStVx { x } | Instruction::AddI { x }
        | Instruction::LdFont { x } | Instruction::Bcd { x } | Instruction::Store { x }
        | Instruction::Load { x } => x < 16,
    }
}

/// Splits an opcode word into its instruction and operands; `None` for a
/// word that names no instruction.
pub fn decode(opcode: u16) -> (r: Option<Instruction>)
    ensures
        r == decode_spec(opcode),
        r matches Some(ins) ==> operands_in_range(ins),
{
    let f = opcode / 4096;
    let x = ((opcode / 256) % 16) as usize;
    let y = ((opcode / 16) % 16) as usize;
    let n = (opcode % 16) as u8;
    let kk = (opcode % 256) as u8;
    let addr = (opcode % 4096) as usize;
    match f {
        0 => match kk {
            0xE0 => Some(Instruction::Cls),
            0xEE => Some(Instruction::Ret),
            _ => None,
        },
        1 => Some(Instruction::Jp { addr }),
        2 => Some(Instruction::Call { addr }),
        3 => Some(Instruction::SeByte { x, kk }),
        4 => Some(Instruction::SneByte { x, kk }),
        5 => Some(Instruction::SeReg { x, y }),
        6 => Some(Instruction::LdByte { x, kk }),
        7 => Some(Instruction::AddByte { x, kk }),
        8 => match n {
            0x0 => Some(Instruction::LdReg { x, y }),
            0x1 => Some(Instruction::Or { x, y }),
            0x2 => Some(Instruction::And { x, y }),
            0x3 => Some(Instruction::Xor { x, y }),
            0x4 => Some(Instruction::AddReg { x, y }),
            0x5 => Some(Instruction::Sub { x, y }),
            0x6 => Some(Instruction::Shr { x }),
            0x7 => Some(Instruction::Subn { x, y }),
            0xE => Some(Instruction::Shl { x }),
            _ => None,
        },
        9 => Some(Instruction::SneReg { x, y }),
        0xA => Some(Instruction::LdI { addr }),
        0xB => Some(Instruction::JpV0 { addr }),
        0xC => Some(Instruction::Rnd { x, kk }),
        0xD => Some(Instruction::Drw { x, y, n }),
        0xE => match kk {
            0x9E => Some(Instruction::Skp { x }),
            0xA1 => Some(Instruction::Sknp { x }),
            _ => None,
        },
        _ => match kk {
            0x07 => Some(Instruction::LdVxDt { x }),
            0x0A => Some(Instruction::LdKey { x }),
            0x15 => Some(Instruction::LdDtVx { x }),
            0x18 => Some(Instruction::LdStVx { x }),
            0x1E => Some(Instruction::AddI { x }),
            0x29 => Some(Instruction::LdFont { x }),
            0x33 => Some(Instruction::Bcd { x }),
            0x55 => Some(Instruction::Store { x }),
            0x65 => Some(Instruction::Load { x }),
            _ => None,
        },
    }
}

} // verus!
