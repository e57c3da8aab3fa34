use vstd::prelude::*;

use crate::display::drawn;
use crate::instruction::{decode_spec, Instruction};
use crate::machine::Chip8View;
use crate::semantics::{
    any_key, cycle_spec, execute_spec, first_key, is_first_key, lemma_index_addr, next_pc,
};

verus! {

/// The arithmetic and shift instructions set VF from the operand values read
/// before anything is written, whatever `x` and `y` are, `x == y` included.
/// ADD, SUB and SUBN write VF last, so VF ends as the flag even when `x` is
/// 15; SHR and SHL write VF first, so there VF ends as the flag unless `x` is
/// 15, in which case it holds the shifted value. `Vx` holds the result
/// unless it is VF itself.
pub proof fn lemma_flag_from_operands(m: Chip8View, x: usize, y: usize, rnd: u8)
    requires
        m.wf(),
        x < 16,
        y < 16,
    ensures
        ({
            let a = m.v[x as int];
            let b = m.v[y as int];
            let add = execute_spec(m, Instruction::AddReg { x, y }, rnd);
            let sub = execute_spec(m, Instruction::Sub { x, y }, rnd);
            let subn = execute_spec(m, Instruction::Subn { x, y }, rnd);
            let shr = execute_spec(m, Instruction::Shr { x }, rnd);
            let shl = execute_spec(m, Instruction::Shl { x }, rnd);
            &&& add.v[15] == if a + b > 255 { 1u8 } else { 0u8 }
            &&& sub.v[15] == if a >= b { 1u8 } else { 0u8 }
            &&& subn.v[15] == if b >= a { 1u8 } else { 0u8 }
            &&& x != 15 ==> shr.v[15] == a % 2
            &&& x != 15 ==> shl.v[15] == a / 128
            &&& x == 15 ==> shr.v[15] == a / 2
            &&& x == 15 ==> shl.v[15] == (a * 2) % 256
            &&& x != 15 ==> {
                &&& add.v[x as int] == (a + b) % 256
                &&& sub.v[x as int] == (a - b) % 256
                &&& subn.v[x as int] == (b - a) % 256
                &&& shr.v[x as int] == a / 2
                &&& shl.v[x as int] == (a * 2) % 256
            }
        }),
{
}

/// The machine after each opcode of `ops` in turn, `rnds[k]` being the random
/// byte of the `k`-th; a cycle that fails leaves the machine as it was.
pub open spec fn run_ops(m: Chip8View, ops: Seq<u16>, rnds: Seq<u8>) -> Chip8View
    decreases ops.len(),
{
    if ops.len() == 0 {
        m
    } else {
        let next = match cycle_spec(m, ops[0], rnds[0]) {
            Ok(n) => n,
            Err(_) => m,
        };
        run_ops(next, ops.drop_first(), rnds.drop_first())
    }
}

/// Whether every pixel is off.
pub open spec fn display_dark(m: Chip8View) -> bool {
    forall|p: int| 0 <= p < m.display.len() ==> !#[trigger] m.display[p]
}

/// After CLS, any number of cycles that draw no sprite leave every pixel off.
pub proof fn lemma_clear_stays_dark(m: Chip8View, ops: Seq<u16>, rnds: Seq<u8>)
    requires
        m.wf(),
        forall|k: int| 0 <= k < ops.len() ==> !(decode_spec(#[trigger] ops[k]) matches Some(
            Instruction::Drw { .. },
        )),
    ensures
        cycle_spec(m, 0x00E0, 0) is Ok,
        display_dark(run_ops(cycle_spec(m, 0x00E0, 0)->Ok_0, ops, rnds)),
{
    lemma_dark_preserved(cycle_spec(m, 0x00E0, 0)->Ok_0, ops, rnds);
}

/// Cycles that draw no sprite keep a dark display dark.
proof fn lemma_dark_preserved(m: Chip8View, ops: Seq<u16>, rnds: Seq<u8>)
    requires
        display_dark(m),
        forall|k: int| 0 <= k < ops.len() ==> !(decode_spec(#[trigger] ops[k]) matches Some(
            Instruction::Drw { .. },
        )),
    ensures
        display_dark(run_ops(m, ops, rnds)),
    decreases ops.len(),
{
    if ops.len() > 0 {
        let next = match cycle_spec(m, ops[0], rnds[0]) {
            Ok(n) => n,
            Err(_) => m,
        };
        assert(!(decode_spec(ops[0]) matches Some(Instruction::Drw { .. })));
        assert(display_dark(next));
        let rest = ops.drop_first();
        assert forall|k: int| 0 <= k < rest.len() implies !(decode_spec(#[trigger] rest[k]) matches Some(
            Instruction::Drw { .. },
        )) by {
            assert(rest[k] == ops[k + 1]);
        }
        lemma_dark_preserved(next, rest, rnds.drop_first());
    }
}

/// Drawing the same sprite twice at the same place gives back the display
/// as it was.
pub proof fn lemma_draw_twice_restores(
    display: Seq<bool>,
    memory: Seq<u8>,
    i: u16,
    vx: u8,
    vy: u8,
    n: u8,
)
    ensures
        drawn(drawn(display, memory, i, vx, vy, n), memory, i, vx, vy, n) == display,
{
    assert(drawn(drawn(display, memory, i, vx, vy, n), memory, i, vx, vy, n) =~= display);
}

/// DRW executed twice with the same registers, neither of them VF (which the
/// first draw may change), restores the display exactly.
pub proof fn lemma_drw_twice_restores(m: Chip8View, x: usize, y: usize, n: u8, rnd: u8)
    requires
        m.wf(),
        x < 15,
        y < 15,
        n < 16,
    ensures
        execute_spec(
            execute_spec(m, Instruction::Drw { x, y, n }, rnd),
            Instruction::Drw { x, y, n },
            rnd,
        ).display == m.display,
{
    let m1 = execute_spec(m, Instruction::Drw { x, y, n }, rnd);
    assert(m1.v[x as int] == m.v[x as int]);
    assert(m1.v[y as int] == m.v[y as int]);
    lemma_draw_twice_restores(m.display, m.memory, m.i, m.v[x as int], m.v[y as int], n);
}

/// CALL followed at once by RET comes back two bytes past the CALL, with the
/// stack pointer as it was.
pub proof fn lemma_call_then_ret(m: Chip8View, call: u16, addr: usize, r1: u8, r2: u8)
    requires
        m.wf(),
        m.sp < 16,
        decode_spec(call) == Some(Instruction::Call { addr }),
    ensures
        cycle_spec(m, call, r1) is Ok,
        cycle_spec(cycle_spec(m, call, r1)->Ok_0, 0x00EE, r2) is Ok,
        cycle_spec(cycle_spec(m, call, r1)->Ok_0, 0x00EE, r2)->Ok_0.pc == next_pc(m.pc),
        cycle_spec(cycle_spec(m, call, r1)->Ok_0, 0x00EE, r2)->Ok_0.sp == m.sp,
{
}

/// Fx0A with no key held leaves the machine exactly as it was, so that it
/// runs again next cycle; with a key held it stores the lowest held key in
/// Vx and moves on.
pub proof fn lemma_wait_for_key(m: Chip8View, op: u16, x: usize, rnd: u8)
    requires
        m.wf(),
        decode_spec(op) == Some(Instruction::LdKey { x }),
    ensures
        !any_key(m.keypad) ==> cycle_spec(m, op, rnd) == Ok::<Chip8View, crate::machine::Chip8Error>(m),
        any_key(m.keypad) ==> {
            let k = first_key(m.keypad);
            &&& is_first_key(m.keypad, k)
            &&& cycle_spec(m, op, rnd) is Ok
            &&& cycle_spec(m, op, rnd)->Ok_0.pc == next_pc(m.pc)
            &&& cycle_spec(m, op, rnd)->Ok_0.v == m.v.update(x as int, k as u8)
        },
{
    if !any_key(m.keypad) {
        assert(cycle_spec(m, op, rnd)->Ok_0 =~= m);
    } else {
        let w = choose|k: int| 0 <= k < 16 && m.keypad[k];
        lemma_first_key_exists(m.keypad, w);
    }
}

/// Where some key is held, a lowest one is.
proof fn lemma_first_key_exists(keypad: Seq<bool>, w: int)
    requires
        0 <= w < 16,
        keypad[w],
    ensures
        is_first_key(keypad, first_key(keypad)),
    decreases w,
{
    if exists|j: int| 0 <= j < w && keypad[j] {
        let j = choose|j: int| 0 <= j < w && keypad[j];
        lemma_first_key_exists(keypad, j);
    } else {
        assert(is_first_key(keypad, w));
    }
}

/// Storing V0..=Vx at I and loading V0..=Vx back from I gives back the
/// registers as they were.
pub proof fn lemma_store_load_round_trip(m: Chip8View, x: usize, rnd: u8)
    requires
        m.wf(),
        x < 16,
    ensures
        execute_spec(
            execute_spec(m, Instruction::Store { x }, rnd),
            Instruction::Load { x },
            rnd,
        ).v == m.v,
{
    let m1 = execute_spec(m, Instruction::Store { x }, rnd);
    let m2 = execute_spec(m1, Instruction::Load { x }, rnd);
    assert forall|k: int| 0 <= k < 16 implies m2.v[k] == m.v[k] by {
        if k <= x {
            lemma_index_addr(m.i, k);
        }
    }
    assert(m2.v =~= m.v);
}

/// SE Vx, kk skips one instruction exactly when Vx == kk, and otherwise
/// moves on by one; nothing else changes.
pub proof fn lemma_skip_se_byte(m: Chip8View, op: u16, x: usize, kk: u8, rnd: u8)
    requires
        m.wf(),
        decode_spec(op) == Some(Instruction::SeByte { x, kk }),
    ensures
        cycle_spec(m, op, rnd) == Ok::<Chip8View, crate::machine::Chip8Error>(
            Chip8View {
                pc: if m.v[x as int] == kk { next_pc(next_pc(m.pc)) } else { next_pc(m.pc) },
                ..m
            },
        ),
{
    assert(cycle_spec(m, op, rnd)->Ok_0 =~= Chip8View {
        pc: if m.v[x as int] == kk { next_pc(next_pc(m.pc)) } else { next_pc(m.pc) },
        ..m
    });
}

/// SNE Vx, kk skips one instruction exactly when Vx != kk, and otherwise
/// moves on by one; nothing else changes.
pub proof fn lemma_skip_sne_byte(m: Chip8View, op: u16, x: usize, kk: u8, rnd: u8)
    requires
        m.wf(),
        decode_spec(op) == Some(Instruction::SneByte { x, kk }),
    ensures
        cycle_spec(m, op, rnd) == Ok::<Chip8View, crate::machine::Chip8Error>(
            Chip8View {
                pc: if m.v[x as int] != kk { next_pc(next_pc(m.pc)) } else { next_pc(m.pc) },
                ..m
            },
        ),
{
    assert(cycle_spec(m, op, rnd)->Ok_0 =~= Chip8View {
        pc: if m.v[x as int] != kk { next_pc(next_pc(m.pc)) } else { next_pc(m.pc) },
        ..m
    });
}

/// SE Vx, Vy skips one instruction exactly when Vx == Vy, and otherwise
/// moves on by one; nothing else changes.
pub proof fn lemma_skip_se_reg(m: Chip8View, op: u16, x: usize, y: usize, rnd: u8)
    requires
        m.wf(),
        decode_spec(op) == Some(Instruction::SeReg { x, y }),
    ensures
        cycle_spec(m, op, rnd) == Ok::<Chip8View, crate::machine::Chip8Error>(
            Chip8View {
                pc: if m.v[x as int] == m.v[y as int] {
                    next_pc(next_pc(m.pc))
                } else {
                    next_pc(m.pc)
                },
                ..m
            },
        ),
{
    assert(cycle_spec(m, op, rnd)->Ok_0 =~= Chip8View {
        pc: if m.v[x as int] == m.v[y as int] {
            next_pc(next_pc(m.pc))
        } else {
            next_pc(m.pc)
        },
        ..m
    });
}

/// SNE Vx, Vy skips one instruction exactly when Vx != Vy, and otherwise
/// moves on by one; nothing else changes.
pub proof fn lemma_skip_sne_reg(m: Chip8View, op: u16, x: usize, y: usize, rnd: u8)
    requires
        m.wf(),
        decode_spec(op) == Some(Instruction::SneReg { x, y }),
    ensures
        cycle_spec(m, op, rnd) == Ok::<Chip8View, crate::machine::Chip8Error>(
            Chip8View {
                pc: if m.v[x as int] != m.v[y as int] {
                    next_pc(next_pc(m.pc))
                } else {
                    next_pc(m.pc)
                },
                ..m
            },
        ),
{
    assert(cycle_spec(m, op, rnd)->Ok_0 =~= Chip8View {
        pc: if m.v[x as int] != m.v[y as int] {
            next_pc(next_pc(m.pc))
        } else {
            next_pc(m.pc)
        },
        ..m
    });
}

} // verus!
