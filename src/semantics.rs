use vstd::arithmetic::div_mod::{
    lemma_fundamental_div_mod, lemma_fundamental_div_mod_converse, lemma_mod_multiples_vanish,
    lemma_small_mod,
};
use vstd::prelude::*;

use crate::display::{collides, drawn};
use crate::instruction::{decode_spec, Instruction};
use crate::machine::{Chip8Error, Chip8View, FONT_START, MEMORY_SIZE, STACK_SIZE};

verus! {

/// `pc` moved on by one instruction, wrapping at the end of memory.
pub open spec fn next_pc(pc: usize) -> usize {
    ((pc + 2) % (MEMORY_SIZE as int)) as usize
}

/// The machine with its program counter moved on by one instruction.
pub open spec fn advance(m: Chip8View) -> Chip8View {
    Chip8View { pc: next_pc(m.pc), ..m }
}

/// The machine with the next instruction skipped when `cond` holds.
pub open spec fn skip_if(m: Chip8View, cond: bool) -> Chip8View {
    if cond {
        advance(m)
    } else {
        m
    }
}

/// The machine with `Vx := val`.
pub open spec fn set_reg(m: Chip8View, x: usize, val: u8) -> Chip8View {
    Chip8View { v: m.v.update(x as int, val), ..m }
}

/// The machine with `Vx := val`, then `VF := flag`.
pub open spec fn set_reg_flag(m: Chip8View, x: usize, val: u8, flag: u8) -> Chip8View {
    Chip8View { v: m.v.update(x as int, val).update(15, flag), ..m }
}

/// The machine with `VF := flag`, then `Vx := val`.
pub open spec fn set_flag_reg(m: Chip8View, x: usize, val: u8, flag: u8) -> Chip8View {
    Chip8View { v: m.v.update(15, flag).update(x as int, val), ..m }
}

/// Whether key `k` is held; there is no key above 0xF.
pub open spec fn key_down(m: Chip8View, k: u8) -> bool {
    k < 16 && m.keypad[k as int]
}

/// Whether `k` is the lowest-numbered held key.
pub open spec fn is_first_key(keypad: Seq<bool>, k: int) -> bool {
    &&& 0 <= k < 16
    &&& keypad[k]
    &&& forall|j: int| 0 <= j < k ==> !keypad[j]
}

/// Whether any of the sixteen keys is held.
pub open spec fn any_key(keypad: Seq<bool>) -> bool {
    exists|k: int| 0 <= k < 16 && keypad[k]
}

/// The lowest-numbered held key, where one is held.
pub open spec fn first_key(keypad: Seq<bool>) -> int {
    choose|k: int| is_first_key(keypad, k)
}

/// Where `I + k` points, reduced into memory.
pub open spec fn index_addr(i: u16, k: int) -> int {
    (i as int + k) % (MEMORY_SIZE as int)
}

/// Memory after `V0..=Vx` are stored from `I` on.
pub open spec fn stored(mem: Seq<u8>, v: Seq<u8>, i: u16, x: usize) -> Seq<u8> {
    Seq::new(
        mem.len(),
        |a: int|
            if (a - i as int) % (MEMORY_SIZE as int) <= x {
                v[(a - i as int) % (MEMORY_SIZE as int)]
            } else {
                mem[a]
            },
    )
}

/// Registers after `V0..=Vx` are loaded from `I` on.
pub open spec fn loaded(v: Seq<u8>, mem: Seq<u8>, i: u16, x: usize) -> Seq<u8> {
    Seq::new(v.len(), |k: int| if k <= x { mem[index_addr(i, k)] } else { v[k] })
}

/// The error, if any, that executing `ins` on `m` meets.
pub open spec fn error_of(m: Chip8View, ins: Instruction) -> Option<Chip8Error> {
    match ins {
        Instruction::Ret => if m.sp == 0 {
            Some(Chip8Error::StackUnderflow)
        } else {
            None
        },
        Instruction::Call { .. } => if m.sp >= STACK_SIZE {
            Some(Chip8Error::StackOverflow)
        } else {
            None
        },
        _ => None,
    }
}

/// The effect of `ins` on a machine whose program counter already points
/// past it. `rnd` is the random byte that `Rnd` draws; no other instruction
/// reads it.
pub open spec fn execute_spec(m: Chip8View, ins: Instruction, rnd: u8) -> Chip8View {
    match ins {
        Instruction::Cls => Chip8View {
            display: Seq::new(m.display.len(), |p: int| false),
            draw_flag: true,
            ..m
        },
        Instruction::Ret => Chip8View { sp: (m.sp - 1) as usize, pc: m.stack[m.sp - 1], ..m },
        Instruction::Jp { addr } => Chip8View { pc: addr, ..m },
        Instruction::Call { addr } => Chip8View {
            stack: m.stack.update(m.sp as int, m.pc),
            sp: (m.sp + 1) as usize,
            pc: addr,
            ..m
        },
        Instruction::SeByte { x, kk } => skip_if(m, m.v[x as int] == kk),
        Instruction::SneByte { x, kk } => skip_if(m, m.v[x as int] != kk),
        Instruction::SeReg { x, y } => skip_if(m, m.v[x as int] == m.v[y as int]),
        Instruction::LdByte { x, kk } => set_reg(m, x, kk),
        Instruction::AddByte { x, kk } => set_reg(m, x, ((m.v[x as int] + kk) % 256) as u8),
        Instruction::LdReg { x, y } => set_reg(m, x, m.v[y as int]),
        Instruction::Or { x, y } => set_reg(m, x, m.v[x as int] | m.v[y as int]),
        Instruction::And { x, y } => set_reg(m, x, m.v[x as int] & m.v[y as int]),
        Instruction::Xor { x, y } => set_reg(m, x, m.v[x as int] ^ m.v[y as int]),
        Instruction::AddReg { x, y } => set_reg_flag(
            m,
            x,
            ((m.v[x as int] + m.v[y as int]) % 256) as u8,
            if m.v[x as int] + m.v[y as int] > 255 {
                1
            } else {
                0
            },
        ),
        Instruction::Sub { x, y } => set_reg_flag(
            m,
            x,
            ((m.v[x as int] - m.v[y as int]) % 256) as u8,
            if m.v[x as int] >= m.v[y as int] {
                1
            } else {
                0
            },
        ),
        Instruction::Shr { x } => set_flag_reg(m, x, m.v[x as int] / 2, m.v[x as int] % 2),
        Instruction::Subn { x, y } => set_reg_flag(
            m,
            x,
            ((m.v[y as int] - m.v[x as int]) % 256) as u8,
            if m.v[y as int] >= m.v[x as int] {
                1
            } else {
                0
            },
        ),
        Instruction::Shl { x } => set_flag_reg(
            m,
            x,
            ((m.v[x as int] * 2) % 256) as u8,
            m.v[x as int] / 128,
        ),
        Instruction::SneReg { x, y } => skip_if(m, m.v[x as int] != m.v[y as int]),
        Instruction::LdI { addr } => Chip8View { i: addr as u16, ..m },
        Instruction::JpV0 { addr } => Chip8View {
            pc: ((addr + m.v[0]) % (MEMORY_SIZE as int)) as usize,
            ..m
        },
        Instruction::Rnd { x, kk } => set_reg(m, x, rnd & kk),
        Instruction::Drw { x, y, n } => {
            let vx = m.v[x as int];
            let vy = m.v[y as int];
            let hit = collides(m.display, m.memory, m.i, vx, vy, n);
            Chip8View {
                display: drawn(m.display, m.memory, m.i, vx, vy, n),
                v: if hit {
                    m.v.update(15, 1)
                } else {
                    m.v
                },
                draw_flag: true,
                ..m
            }
        },
        Instruction::Skp { x } => skip_if(m, key_down(m, m.v[x as int])),
        Instruction::Sknp { x } => skip_if(m, !key_down(m, m.v[x as int])),
        Instruction::LdVxDt { x } => set_reg(m, x, m.delay),
        Instruction::LdKey { x } => if any_key(m.keypad) {
            set_reg(m, x, first_key(m.keypad) as u8)
        } else {
            Chip8View {
                pc: ((m.pc + MEMORY_SIZE - 2) % (MEMORY_SIZE as int)) as usize,
                ..m
            }
        },
        Instruction::LdDtVx { x } => Chip8View { delay: m.v[x as int], ..m },
        Instruction::LdStVx { x } => Chip8View { sound: m.v[x as int], ..m },
        Instruction::AddI { x } => Chip8View { i: ((m.i + m.v[x as int]) % 65536) as u16, ..m },
        Instruction::LdFont { x } => Chip8View { i: (m.v[x as int] * 5 + FONT_START) as u16, ..m },
        Instruction::Bcd { x } => {
            let val = m.v[x as int];
            Chip8View {
                memory: m.memory.update(index_addr(m.i, 0), val / 100).update(
                    index_addr(m.i, 1),
                    (val % 100) / 10,
                ).update(index_addr(m.i, 2), val % 10),
                ..m
            }
        },
        Instruction::Store { x } => Chip8View { memory: stored(m.memory, m.v, m.i, x), ..m },
        Instruction::Load { x } => Chip8View { v: loaded(m.v, m.memory, m.i, x), ..m },
    }
}

/// The outcome of executing the opcode word `op` on `m`: the next machine,
/// or the error, in which case the machine stays as it was.
pub open spec fn cycle_spec(m: Chip8View, op: u16, rnd: u8) -> Result<Chip8View, Chip8Error> {
    match decode_spec(op) {
        None => Err(Chip8Error::UnknownOpcode(op)),
        Some(ins) => match error_of(m, ins) {
            Some(e) => Err(e),
            None => Ok(execute_spec(advance(m), ins, rnd)),
        },
    }
}

/// Whether `op` draws a random byte.
pub open spec fn uses_random(op: u16) -> bool {
    decode_spec(op) matches Some(Instruction::Rnd { .. })
}

/// Whether `(r, after)` is what executing `op` on `before` gives, `rnd` being
/// the random byte.
pub open spec fn cycle_outcome(
    before: Chip8View,
    op: u16,
    rnd: u8,
    r: Result<(), Chip8Error>,
    after: Chip8View,
) -> bool {
    match cycle_spec(before, op, rnd) {
        Ok(m) => r is Ok && after == m,
        Err(e) => r == Err::<(), Chip8Error>(e) && after == before,
    }
}

/// The opcode word at the program counter, high byte first.
pub open spec fn fetch_spec(m: Chip8View) -> u16 {
    (m.memory[m.pc as int] as int * 256 + m.memory[(m.pc + 1) % (MEMORY_SIZE as int)]) as u16
}

/// The machine at the start of a cycle: the redraw signal cleared.
pub open spec fn begin_cycle(m: Chip8View) -> Chip8View {
    Chip8View { draw_flag: false, ..m }
}

/// The address `I + k` reduced into memory is the one address whose offset
/// from `I`, modulo the memory size, is `k`.
pub proof fn lemma_index_addr(i: u16, k: int)
    requires
        0 <= k < 16,
    ensures
        0 <= index_addr(i, k) < MEMORY_SIZE,
        (index_addr(i, k) - i as int) % (MEMORY_SIZE as int) == k,
        forall|a: int|
            0 <= a < MEMORY_SIZE && #[trigger] ((a - i as int) % (MEMORY_SIZE as int)) == k ==> a
                == index_addr(i, k),
{
    let m = MEMORY_SIZE as int;
    let s = i as int + k;
    lemma_fundamental_div_mod(s, m);
    let q = s / m;
    lemma_mod_multiples_vanish(-q, k, m);
    lemma_small_mod(k as nat, m as nat);
    assert(index_addr(i, k) - i as int == m * (-q) + k);
    assert forall|a: int|
        0 <= a < m && #[trigger] ((a - i as int) % m) == k implies a == index_addr(i, k) by {
        lemma_fundamental_div_mod(a - i as int, m);
        let d = (a - i as int) / m;
        lemma_fundamental_div_mod_converse(s, m, -d, a);
    }
}

} // verus!
