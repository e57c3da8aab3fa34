use rand::Rng;
use vstd::prelude::*;

use crate::display::draw_sprite;
use crate::instruction::{decode, operands_in_range, Instruction};
use crate::machine::{Chip8, Chip8Error, FONT_START, MEMORY_SIZE, STACK_SIZE};
use crate::semantics::{
    advance, any_key, begin_cycle, cycle_outcome, error_of, execute_spec, fetch_spec, first_key,
    index_addr, is_first_key, lemma_index_addr, loaded, stored, uses_random,
};

verus! {

/// Relies on `rand::thread_rng` and `rand::Rng::gen`: a byte drawn from the
/// thread-local generator. Nothing is known of its value.
#[verifier::external_body]
fn random_byte() -> (r: u8) {
    rand::thread_rng().gen::<u8>()
}

impl Chip8 {
    /// 00E0 - CLS: turn every pixel off.
    fn op_00e0(&mut self)
        requires
            old(self).wf(),
        ensures
            final(self).wf(),
            final(self)@ == execute_spec(old(self)@, Instruction::Cls, 0),
    {
        self.display = [0; 2048];
        self.draw_flag = true;
        assert(self@ =~= execute_spec(old(self)@, Instruction::Cls, 0));
    }

    /// 00EE - RET: pop the return address into the program counter.
    fn op_00ee(&mut self)
        requires
            old(self).wf(),
            old(self).sp > 0,
        ensures
            final(self).wf(),
            final(self)@ == execute_spec(old(self)@, Instruction::Ret, 0),
    {
        self.sp -= 1;
        self.pc = self.stack[self.sp];
        assert(self@ =~= execute_spec(old(self)@, Instruction::Ret, 0));
    }

    /// 1nnn - JP addr.
    fn op_1nnn(&mut self, addr: usize)
        requires
            old(self).wf(),
            addr < MEMORY_SIZE,
        ensures
            final(self).wf(),
            final(self)@ == execute_spec(old(self)@, Instruction::Jp { addr }, 0),
    {
        self.pc = addr;
        assert(self@ =~= execute_spec(old(self)@, Instruction::Jp { addr }, 0));
    }

    /// 2nnn - CALL addr: push the program counter and jump.
    fn op_2nnn(&mut self, addr: usize)
        requires
            old(self).wf(),
            old(self).sp < STACK_SIZE,
            addr < MEMORY_SIZE,
        ensures
            final(self).wf(),
            final(self)@ == execute_spec(old(self)@, Instruction::Call { addr }, 0),
    {
        self.stack[self.sp] = self.pc;
        self.sp += 1;
        self.pc = addr;
        assert(self@ =~= execute_spec(old(self)@, Instruction::Call { addr }, 0));
    }

    /// Moves the program counter past the next instruction.
    fn skip(&mut self)
        requires
            old(self).wf(),
        ensures
            final(self).wf(),
            final(self)@ == advance(old(self)@),
    {
        self.pc = (self.pc + 2) % MEMORY_SIZE;
        assert(self@ =~= advance(old(self)@));
    }

    /// 3xkk - SE Vx, byte.
    fn op_3xkk(&mut self, x: usize, byte: u8)
        requires
            old(self).wf(),
            x < 16,
        ensures
            final(self).wf(),
            final(self)@ == execute_spec(old(self)@, Instruction::SeByte { x, kk: byte }, 0),
    {
        if self.v[x] == byte {
            self.skip();
        }
    }

    /// 4xkk - SNE Vx, byte.
    fn op_4xkk(&mut self, x: usize, byte: u8)
        requires
            old(self).wf(),
            x < 16,
        ensures
            final(self).wf(),
            final(self)@ == execute_spec(old(self)@, Instruction::SneByte { x, kk: byte }, 0),
    {
        if self.v[x] != byte {
            self.skip();
        }
    }

    /// 5xy0 - SE Vx, Vy.
    fn op_5xy0(&mut self, x: usize, y: usize)
        requires
            old(self).wf(),
            x < 16,
            y < 16,
        ensures
            final(self).wf(),
            final(self)@ == execute_spec(old(self)@, Instruction::SeReg { x, y }, 0),
    {
        if self.v[x] == self.v[y] {
            self.skip();
        }
    }

    /// Sets `Vx` and leaves everything else alone.
    fn set_v(&mut self, x: usize, val: u8)
        requires
            old(self).wf(),
            x < 16,
        ensures
            final(self).wf(),
            final(self)@ == (crate::machine::Chip8View {
                v: old(self)@.v.update(x as int, val),
                ..old(self)@
            }),
    {
        self.v[x] = val;
        assert(self@ =~= (crate::machine::Chip8View {
            v: old(self)@.v.update(x as int, val),
            ..old(self)@
        }));
    }

    /// Sets `Vx`, then the flag register `VF`.
    fn set_v_flag(&mut self, x: usize, val: u8, flag: u8)
        requires
            old(self).wf(),
            x < 16,
        ensures
            final(self).wf(),
            final(self)@ == (crate::machine::Chip8View {
                v: old(self)@.v.update(x as int, val).update(15, flag),
                ..old(self)@
            }),
    {
        self.v[x] = val;
        self.v[15] = flag;
        assert(self@ =~= (crate::machine::Chip8View {
            v: old(self)@.v.update(x as int, val).update(15, flag),
            ..old(self)@
        }));
    }

    /// Sets the flag register `VF`, then `Vx`.
    fn set_flag_v(&mut self, x: usize, val: u8, flag: u8)
        requires
            old(self).wf(),
            x < 16,
        ensures
            final(self).wf(),
            final(self)@ == (crate::machine::Chip8View {
                v: old(self)@.v.update(15, flag).update(x as int, val),
                ..old(self)@
            }),
    {
        self.v[15] = flag;
        self.v[x] = val;
        assert(self@ =~= (crate::machine::Chip8View {
            v: old(self)@.v.update(15, flag).update(x as int, val),
            ..old(self)@
        }));
    }

    /// 6xkk - LD Vx, byte.
    fn op_6xkk(&mut self, x: usize, byte: u8)
        requires
            old(self).wf(),
            x < 16,
        ensures
            final(self).wf(),
            final(self)@ == execute_spec(old(self)@, Instruction::LdByte { x, kk: byte }, 0),
    {
        self.set_v(x, byte);
    }

    /// 7xkk - ADD Vx, byte, wrapping, without touching VF.
    fn op_7xkk(&mut self, x: usize, byte: u8)
        requires
            old(self).wf(),
            x < 16,
        ensures
            final(self).wf(),
            final(self)@ == execute_spec(old(self)@, Instruction::AddByte { x, kk: byte }, 0),
    {
        let sum = ((self.v[x] as u16 + byte as u16) % 256) as u8;
        self.set_v(x, sum);
    }

    /// 8xy0 - LD Vx, Vy.
    fn op_8xy0(&mut self, x: usize, y: usize)
        requires
            old(self).wf(),
            x < 16,
            y < 16,
        ensures
            final(self).wf(),
            final(self)@ == execute_spec(old(self)@, Instruction::LdReg { x, y }, 0),
    {
        let val = self.v[y];
        self.set_v(x, val);
    }

    /// 8xy1 - OR Vx, Vy.
    fn op_8xy1(&mut self, x: usize, y: usize)
        requires
            old(self).wf(),
            x < 16,
            y < 16,
        ensures
            final(self).wf(),
            final(self)@ == execute_spec(old(self)@, Instruction::Or { x, y }, 0),
    {
        let val = self.v[x] | self.v[y];
        self.set_v(x, val);
    }

    /// 8xy2 - AND Vx, Vy.
    fn op_8xy2(&mut self, x: usize, y: usize)
        requires
            old(self).wf(),
            x < 16,
            y < 16,
        ensures
            final(self).wf(),
            final(self)@ == execute_spec(old(self)@, Instruction::And { x, y }, 0),
    {
        let val = self.v[x] & self.v[y];
        self.set_v(x, val);
    }

    /// 8xy3 - XOR Vx, Vy.
    fn op_8xy3(&mut self, x: usize, y: usize)
        requires
            old(self).wf(),
            x < 16,
            y < 16,
        ensures
            final(self).wf(),
            final(self)@ == execute_spec(old(self)@, Instruction::Xor { x, y }, 0),
    {
        let val = self.v[x] ^ self.v[y];
        self.set_v(x, val);
    }

    /// 8xy4 - ADD Vx, Vy: VF is the carry out of the 8-bit sum.
    fn op_8xy4(&mut self, x: usize, y: usize)
        requires
            old(self).wf(),
            x < 16,
            y < 16,
        ensures
            final(self).wf(),
            final(self)@ == execute_spec(old(self)@, Instruction::AddReg { x, y }, 0),
    {
        let sum = self.v[x] as u16 + self.v[y] as u16;
        let carry: u8 = if sum > 255 {
            1
        } else {
            0
        };
        self.set_v_flag(x, (sum % 256) as u8, carry);
    }

    /// 8xy5 - SUB Vx, Vy: VF is 1 when no borrow occurs.
    fn op_8xy5(&mut self, x: usize, y: usize)
        requires
            old(self).wf(),
            x < 16,
            y < 16,
        ensures
            final(self).wf(),
            final(self)@ == execute_spec(old(self)@, Instruction::Sub { x, y }, 0),
    {
        let a = self.v[x];
        let b = self.v[y];
        let (diff, no_borrow) = if a >= b {
            (a - b, 1u8)
        } else {
            ((256 - b as u16 + a as u16) as u8, 0u8)
        };
        self.set_v_flag(x, diff, no_borrow);
    }

    /// 8xy6 - SHR Vx: VF := the bit shifted out, then Vx := Vx >> 1.
    fn op_8xy6(&mut self, x: usize)
        requires
            old(self).wf(),
            x < 16,
        ensures
            final(self).wf(),
            final(self)@ == execute_spec(old(self)@, Instruction::Shr { x }, 0),
    {
        let a = self.v[x];
        self.set_flag_v(x, a / 2, a % 2);
    }

    /// 8xy7 - SUBN Vx, Vy: Vx := Vy - Vx, VF is 1 when no borrow occurs.
    fn op_8xy7(&mut self, x: usize, y: usize)
        requires
            old(self).wf(),
            x < 16,
            y < 16,
        ensures
            final(self).wf(),
            final(self)@ == execute_spec(old(self)@, Instruction::Subn { x, y }, 0),
    {
        let a = self.v[x];
        let b = self.v[y];
        let (diff, no_borrow) = if b >= a {
            (b - a, 1u8)
        } else {
            ((256 - a as u16 + b as u16) as u8, 0u8)
        };
        self.set_v_flag(x, diff, no_borrow);
    }

    /// 8xyE - SHL Vx: VF := the bit shifted out, then Vx := Vx << 1.
    fn op_8xye(&mut self, x: usize)
        requires
            old(self).wf(),
            x < 16,
        ensures
            final(self).wf(),
            final(self)@ == execute_spec(old(self)@, Instruction::Shl { x }, 0),
    {
        let a = self.v[x];
        self.set_flag_v(x, ((a as u16 * 2) % 256) as u8, a / 128);
    }

    /// 9xy0 - SNE Vx, Vy.
    fn op_9xy0(&mut self, x: usize, y: usize)
        requires
            old(self).wf(),
            x < 16,
            y < 16,
        ensures
            final(self).wf(),
            final(self)@ == execute_spec(old(self)@, Instruction::SneReg { x, y }, 0),
    {
        if self.v[x] != self.v[y] {
            self.skip();
        }
    }

    /// Annn - LD I, addr.
    fn op_annn(&mut self, addr: usize)
        requires
            old(self).wf(),
            addr < MEMORY_SIZE,
        ensures
            final(self).wf(),
            final(self)@ == execute_spec(old(self)@, Instruction::LdI { addr }, 0),
    {
        self.i = addr as u16;
        assert(self@ =~= execute_spec(old(self)@, Instruction::LdI { addr }, 0));
    }

    /// Bnnn - JP V0, addr: the target is reduced into memory.
    fn op_bnnn(&mut self, addr: usize)
        requires
            old(self).wf(),
            addr < MEMORY_SIZE,
        ensures
            final(self).wf(),
            final(self)@ == execute_spec(old(self)@, Instruction::JpV0 { addr }, 0),
    {
        self.pc = (addr + self.v[0] as usize) % MEMORY_SIZE;
        assert(self@ =~= execute_spec(old(self)@, Instruction::JpV0 { addr }, 0));
    }

    /// Cxkk - RND Vx, byte, given the random byte `rnd`.
    fn op_cxkk(&mut self, x: usize, byte: u8, rnd: u8)
        requires
            old(self).wf(),
            x < 16,
        ensures
            final(self).wf(),
            final(self)@ == execute_spec(old(self)@, Instruction::Rnd { x, kk: byte }, rnd),
    {
        self.set_v(x, rnd & byte);
    }

    /// Dxyn - DRW Vx, Vy, nibble: XOR a sprite onto the display; VF := 1
    /// when a lit pixel goes dark, and is left alone otherwise.
    fn op_dxyn(&mut self, x: usize, y: usize, nibble: u8)
        requires
            old(self).wf(),
            x < 16,
            y < 16,
            nibble < 16,
        ensures
            final(self).wf(),
            final(self)@ == execute_spec(old(self)@, Instruction::Drw { x, y, n: nibble }, 0),
    {
        let vx = self.v[x];
        let vy = self.v[y];
        let collided = draw_sprite(&mut self.display, &self.memory, self.i, vx, vy, nibble);
        if collided {
            self.v[15] = 1;
        }
        self.draw_flag = true;
        assert(self@ =~= execute_spec(old(self)@, Instruction::Drw { x, y, n: nibble }, 0));
    }

    /// Whether key `k` is held; there is no key above 0xF.
    fn key_down(&self, k: u8) -> (r: bool)
        requires
            self.wf(),
        ensures
            r == crate::semantics::key_down(self@, k),
    {
        k < 16 && self.keypad[k as usize]
    }

    /// Ex9E - SKP Vx.
    fn op_ex9e(&mut self, x: usize)
        requires
            old(self).wf(),
            x < 16,
        ensures
            final(self).wf(),
            final(self)@ == execute_spec(old(self)@, Instruction::Skp { x }, 0),
    {
        if self.key_down(self.v[x]) {
            self.skip();
        }
    }

    /// ExA1 - SKNP Vx.
    fn op_exa1(&mut self, x: usize)
        requires
            old(self).wf(),
            x < 16,
        ensures
            final(self).wf(),
            final(self)@ == execute_spec(old(self)@, Instruction::Sknp { x }, 0),
    {
        if !self.key_down(self.v[x]) {
            self.skip();
        }
    }

    /// Fx07 - LD Vx, DT.
    fn op_fx07(&mut self, x: usize)
        requires
            old(self).wf(),
            x < 16,
        ensures
            final(self).wf(),
            final(self)@ == execute_spec(old(self)@, Instruction::LdVxDt { x }, 0),
    {
        let d = self.delay;
        self.set_v(x, d);
    }

    /// Fx0A - LD Vx, K: store the lowest held key in Vx; with no key held,
    /// step the program counter back so that this instruction runs again.
    fn op_fx0a(&mut self, x: usize)
        requires
            old(self).wf(),
            x < 16,
        ensures
            final(self).wf(),
            final(self)@ == execute_spec(old(self)@, Instruction::LdKey { x }, 0),
    {
        let mut k: usize = 0;
        while k < 16
            invariant
                k <= 16,
                x < 16,
                *self == *old(self),
                self.wf(),
                forall|j: int| 0 <= j < k ==> !self.keypad@[j],
            decreases 16 - k,
        {
            if self.keypad[k] {
                proof {
                    assert(is_first_key(self.keypad@, k as int));
                    let c = first_key(self.keypad@);
                    assert(is_first_key(self.keypad@, c));
                    assert(c == k as int);
                    assert(any_key(self.keypad@));
                }
                self.set_v(x, k as u8);
                return;
            }
            k += 1;
        }
        self.pc = (self.pc + MEMORY_SIZE - 2) % MEMORY_SIZE;
        assert(!any_key(self.keypad@));
        assert(self@ =~= execute_spec(old(self)@, Instruction::LdKey { x }, 0));
    }

    /// Fx15 - LD DT, Vx.
    fn op_fx15(&mut self, x: usize)
        requires
            old(self).wf(),
            x < 16,
        ensures
            final(self).wf(),
            final(self)@ == execute_spec(old(self)@, Instruction::LdDtVx { x }, 0),
    {
        self.delay = self.v[x];
        assert(self@ =~= execute_spec(old(self)@, Instruction::LdDtVx { x }, 0));
    }

    /// Fx18 - LD ST, Vx.
    fn op_fx18(&mut self, x: usize)
        requires
            old(self).wf(),
            x < 16,
        ensures
            final(self).wf(),
            final(self)@ == execute_spec(old(self)@, Instruction::LdStVx { x }, 0),
    {
        self.sound = self.v[x];
        assert(self@ =~= execute_spec(old(self)@, Instruction::LdStVx { x }, 0));
    }

    /// Fx1E - ADD I, Vx, wrapping at 16 bits.
    fn op_fx1e(&mut self, x: usize)
        requires
            old(self).wf(),
            x < 16,
        ensures
            final(self).wf(),
            final(self)@ == execute_spec(old(self)@, Instruction::AddI { x }, 0),
    {
        self.i = ((self.i as u32 + self.v[x] as u32) % 65536) as u16;
        assert(self@ =~= execute_spec(old(self)@, Instruction::AddI { x }, 0));
    }

    /// Fx29 - LD F, Vx: point I at the glyph of digit Vx.
    fn op_fx29(&mut self, x: usize)
        requires
            old(self).wf(),
            x < 16,
        ensures
            final(self).wf(),
            final(self)@ == execute_spec(old(self)@, Instruction::LdFont { x }, 0),
    {
        self.i = self.v[x] as u16 * 5 + FONT_START as u16;
        assert(self@ =~= execute_spec(old(self)@, Instruction::LdFont { x }, 0));
    }

    /// Fx33 - LD B, Vx: hundreds, tens and ones of Vx at I, I+1, I+2.
    fn op_fx33(&mut self, x: usize)
        requires
            old(self).wf(),
            x < 16,
        ensures
            final(self).wf(),
            final(self)@ == execute_spec(old(self)@, Instruction::Bcd { x }, 0),
    {
        let val = self.v[x];
        let base = self.i as usize;
        self.memory[base % MEMORY_SIZE] = val / 100;
        self.memory[(base + 1) % MEMORY_SIZE] = (val % 100) / 10;
        self.memory[(base + 2) % MEMORY_SIZE] = val % 10;
        assert(self@ =~= execute_spec(old(self)@, Instruction::Bcd { x }, 0));
    }

    /// Fx55 - LD [I], Vx: V0..=Vx to memory from I on.
    fn op_fx55(&mut self, x: usize)
        requires
            old(self).wf(),
            x < 16,
        ensures
            final(self).wf(),
            final(self)@ == execute_spec(old(self)@, Instruction::Store { x }, 0),
    {
        let base = self.i as usize;
        let mut k: usize = 0;
        while k <= x
            invariant
                k <= x + 1,
                x < 16,
                base == self.i,
                self.wf(),
                self.v == old(self).v,
                self.i == old(self).i,
                self.memory@ =~= Seq::new(
                    MEMORY_SIZE as nat,
                    |a: int|
                        if (a - self.i as int) % (MEMORY_SIZE as int) < k {
                            self.v@[(a - self.i as int) % (MEMORY_SIZE as int)]
                        } else {
                            old(self).memory@[a]
                        },
                ),
                self.display == old(self).display,
                self.pc == old(self).pc,
                self.sp == old(self).sp,
                self.stack == old(self).stack,
                self.delay == old(self).delay,
                self.sound == old(self).sound,
                self.keypad == old(self).keypad,
                self.draw_flag == old(self).draw_flag,
            decreases x + 1 - k,
        {
            let addr = (base + k) % MEMORY_SIZE;
            proof {
                lemma_index_addr(self.i, k as int);
            }
            self.memory[addr] = self.v[k];
            assert forall|a: int| 0 <= a < MEMORY_SIZE && a != addr implies #[trigger] ((a
                - self.i as int) % (MEMORY_SIZE as int)) != k as int by {}
            assert(self.memory@ =~= Seq::new(
                MEMORY_SIZE as nat,
                |a: int|
                    if (a - self.i as int) % (MEMORY_SIZE as int) < k + 1 {
                        self.v@[(a - self.i as int) % (MEMORY_SIZE as int)]
                    } else {
                        old(self).memory@[a]
                    },
            ));
            k += 1;
        }
        assert(self@ =~= execute_spec(old(self)@, Instruction::Store { x }, 0));
    }

    /// Fx65 - LD Vx, [I]: V0..=Vx from memory from I on.
    fn op_fx65(&mut self, x: usize)
        requires
            old(self).wf(),
            x < 16,
        ensures
            final(self).wf(),
            final(self)@ == execute_spec(old(self)@, Instruction::Load { x }, 0),
    {
        let base = self.i as usize;
        let mut k: usize = 0;
        while k <= x
            invariant
                k <= x + 1,
                x < 16,
                base == self.i,
                self.wf(),
                self.v@ =~= Seq::new(
                    16,
                    |j: int|
                        if j < k {
                            old(self).memory@[index_addr(self.i, j)]
                        } else {
                            old(self).v@[j]
                        },
                ),
                self.memory == old(self).memory,
                self.i == old(self).i,
                self.display == old(self).display,
                self.pc == old(self).pc,
                self.sp == old(self).sp,
                self.stack == old(self).stack,
                self.delay == old(self).delay,
                self.sound == old(self).sound,
                self.keypad == old(self).keypad,
                self.draw_flag == old(self).draw_flag,
            decreases x + 1 - k,
        {
            self.v[k] = self.memory[(base + k) % MEMORY_SIZE];
            k += 1;
        }
        assert(self@.v =~= loaded(old(self)@.v, old(self)@.memory, old(self)@.i, x));
        assert(self@ =~= execute_spec(old(self)@, Instruction::Load { x }, 0));
    }

    /// Applies one decoded instruction to a machine whose program counter
    /// already points past it; `rnd` is the byte that `Rnd` uses. On a
    /// return with an empty stack or a call with a full one, nothing changes.
    pub fn execute(&mut self, ins: Instruction, rnd: u8) -> (r: Result<(), Chip8Error>)
        requires
            old(self).wf(),
            operands_in_range(ins),
        ensures
            final(self).wf(),
            match error_of(old(self)@, ins) {
                Some(e) => r == Err::<(), Chip8Error>(e) && final(self)@ == old(self)@,
                None => r is Ok && final(self)@ == execute_spec(old(self)@, ins, rnd),
            },
    {
        match ins {
            Instruction::Cls => self.op_00e0(),
            Instruction::Ret => {
                if self.sp == 0 {
                    return Err(Chip8Error::StackUnderflow);
                }
                self.op_00ee()
            },
            Instruction::Jp { addr } => self.op_1nnn(addr),
            Instruction::Call { addr } => {
                if self.sp >= STACK_SIZE {
                    return Err(Chip8Error::StackOverflow);
                }
                self.op_2nnn(addr)
            },
            Instruction::SeByte { x, kk } => self.op_3xkk(x, kk),
            Instruction::SneByte { x, kk } => self.op_4xkk(x, kk),
            Instruction::SeReg { x, y } => self.op_5xy0(x, y),
            Instruction::LdByte { x, kk } => self.op_6xkk(x, kk),
            Instruction::AddByte { x, kk } => self.op_7xkk(x, kk),
            Instruction::LdReg { x, y } => self.op_8xy0(x, y),
            Instruction::Or { x, y } => self.op_8xy1(x, y),
            Instruction::And { x, y } => self.op_8xy2(x, y),
            Instruction::Xor { x, y } => self.op_8xy3(x, y),
            Instruction::AddReg { x, y } => self.op_8xy4(x, y),
            Instruction::Sub { x, y } => self.op_8xy5(x, y),
            Instruction::Shr { x } => self.op_8xy6(x),
            Instruction::Subn { x, y } => self.op_8xy7(x, y),
            Instruction::Shl { x } => self.op_8xye(x),
            Instruction::SneReg { x, y } => self.op_9xy0(x, y),
            Instruction::LdI { addr } => self.op_annn(addr),
            Instruction::JpV0 { addr } => self.op_bnnn(addr),
            Instruction::Rnd { x, kk } => self.op_cxkk(x, kk, rnd),
            Instruction::Drw { x, y, n } => self.op_dxyn(x, y, n),
            Instruction::Skp { x } => self.op_ex9e(x),
            Instruction::Sknp { x } => self.op_exa1(x),
            Instruction::LdVxDt { x } => self.op_fx07(x),
            Instruction::LdKey { x } => self.op_fx0a(x),
            Instruction::LdDtVx { x } => self.op_fx15(x),
            Instruction::LdStVx { x } => self.op_fx18(x),
            Instruction::AddI { x } => self.op_fx1e(x),
            Instruction::LdFont { x } => self.op_fx29(x),
            Instruction::Bcd { x } => self.op_fx33(x),
            Instruction::Store { x } => self.op_fx55(x),
            Instruction::Load { x } => self.op_fx65(x),
        }
        Ok(())
    }

    /// Executes the opcode word `opcode`: moves the program counter past it,
    /// then applies its instruction. A word that names no instruction, and a
    /// stack error, leave the machine as it was and are returned as `Err`.
    /// Only `Cxkk` draws a random byte.
    pub fn handle_opcode(&mut self, opcode: u16) -> (r: Result<(), Chip8Error>)
        requires
            old(self).wf(),
        ensures
            final(self).wf(),
            exists|rnd: u8| cycle_outcome(old(self)@, opcode, rnd, r, final(self)@),
            !uses_random(opcode) ==> cycle_outcome(old(self)@, opcode, 0, r, final(self)@),
    {
        let ins = match decode(opcode) {
            Some(ins) => ins,
            None => {
                let err = Chip8Error::UnknownOpcode(opcode);
                assert(cycle_outcome(old(self)@, opcode, 0, Err(err), self@));
                return Err(err);
            },
        };
        let start = self.pc;
        self.skip();
        let rnd = match ins {
            Instruction::Rnd { .. } => random_byte(),
            _ => 0,
        };
        let r = self.execute(ins, rnd);
        if r.is_err() {
            self.pc = start;
            assert(self@ =~= old(self)@);
        }
        assert(cycle_outcome(old(self)@, opcode, rnd, r, self@));
        r
    }

    /// One fetch-decode-execute cycle: clears the redraw signal, reads the
    /// opcode word at the program counter (high byte first) and executes it.
    pub fn step(&mut self) -> (r: Result<(), Chip8Error>)
        requires
            old(self).wf(),
        ensures
            final(self).wf(),
            exists|rnd: u8|
                cycle_outcome(
                    begin_cycle(old(self)@),
                    fetch_spec(old(self)@),
                    rnd,
                    r,
                    final(self)@,
                ),
            !uses_random(fetch_spec(old(self)@)) ==> cycle_outcome(
                begin_cycle(old(self)@),
                fetch_spec(old(self)@),
                0,
                r,
                final(self)@,
            ),
    {
        self.draw_flag = false;
        assert(self@ =~= begin_cycle(old(self)@));
        let high = self.memory[self.pc] as u16;
        let low = self.memory[(self.pc + 1) % MEMORY_SIZE] as u16;
        let opcode = high * 256 + low;
        assert(opcode == fetch_spec(old(self)@));
        self.handle_opcode(opcode)
    }
}

} // verus!
