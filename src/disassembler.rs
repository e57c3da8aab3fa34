use vstd::prelude::*;
use vstd::string::StringExecFns;

use crate::instruction::{family, field_kk, field_n, field_nnn, field_x, field_y};

verus! {

/// The lower-case hexadecimal digits.
pub open spec fn hex_digits() -> Seq<char> {
    seq!['0', '1', '2', '3', '4', '5', '6', '7', '8', '9', 'a', 'b', 'c', 'd', 'e', 'f']
}

/// The digit for `d`, below 16.
pub open spec fn hex_digit(d: nat) -> char {
    hex_digits()[d as int]
}

/// `v` in lower-case hexadecimal, zero-padded on the left to at least `w`
/// digits.
pub open spec fn hex_min(v: nat, w: nat) -> Seq<char>
    decreases v, w,
{
    if v < 16 && w <= 1 {
        seq![hex_digit(v)]
    } else {
        hex_min(v / 16, if w > 0 { (w - 1) as nat } else { 0 }) + seq![hex_digit(v % 16)]
    }
}

/// A register operand: `V` and its digit.
pub open spec fn reg_text(r: nat) -> Seq<char> {
    "V"@ + hex_min(r, 1)
}

/// `mnemonic Vx, #$kk`.
pub open spec fn reg_byte_text(mn: Seq<char>, x: nat, kk: nat) -> Seq<char> {
    mn + " "@ + reg_text(x) + ", #$"@ + hex_min(kk, 2)
}

/// `mnemonic Vx, Vy`.
pub open spec fn reg_reg_text(mn: Seq<char>, x: nat, y: nat) -> Seq<char> {
    mn + " "@ + reg_text(x) + ", "@ + reg_text(y)
}

/// `mnemonic` and `pre` followed by a three-digit address.
pub open spec fn addr_text(mn: Seq<char>, pre: Seq<char>, a: nat) -> Seq<char> {
    mn + pre + hex_min(a, 3)
}

/// `mnemonic pre Vx post`.
pub open spec fn one_reg_text(mn: Seq<char>, pre: Seq<char>, x: nat, post: Seq<char>) -> Seq<char> {
    mn + " "@ + pre + reg_text(x) + post
}

/// The assembly text of an opcode word; the mnemonic column is ten wide.
pub open spec fn assembly_text(op: u16) -> Seq<char> {
    let x = field_x(op) as nat;
    let y = field_y(op) as nat;
    let n = field_n(op) as nat;
    let kk = field_kk(op) as nat;
    let nnn = field_nnn(op) as nat;
    let f = family(op);
    if f == 0 {
        if kk == 0xE0 {
            "CLS       "@
        } else if kk == 0xEE {
            "RET       "@
        } else {
            addr_text("SYS       "@, " #$"@, nnn)
        }
    } else if f == 1 {
        addr_text("JP        "@, " #$"@, nnn)
    } else if f == 2 {
        addr_text("CALL      "@, " #$"@, nnn)
    } else if f == 3 {
        reg_byte_text("SE        "@, x, kk)
    } else if f == 4 {
        reg_byte_text("SNE       "@, x, kk)
    } else if f == 5 {
        reg_reg_text("SE        "@, x, y)
    } else if f == 6 {
        reg_byte_text("LD        "@, x, kk)
    } else if f == 7 {
        reg_byte_text("ADD       "@, x, kk)
    } else if f == 8 {
        if n == 0 {
            reg_reg_text("LD        "@, x, y)
        } else if n == 1 {
            reg_reg_text("OR        "@, x, y)
        } else if n == 2 {
            reg_reg_text("AND       "@, x, y)
        } else if n == 3 {
            reg_reg_text("XOR       "@, x, y)
        } else if n == 4 {
            reg_reg_text("ADD       "@, x, y)
        } else if n == 5 {
            reg_reg_text("SUB       "@, x, y)
        } else if n == 6 {
            reg_reg_text("SHR       "@, x, y)
        } else if n == 7 {
            reg_reg_text("SUBN      "@, x, y)
        } else if n == 0xE {
            one_reg_text("SHL       "@, ""@, x, " {,"@ + reg_text(y) + "}"@)
        } else {
            "UNKNOWN"@
        }
    } else if f == 9 {
        reg_reg_text("SNE       "@, x, y)
    } else if f == 0xA {
        addr_text("LD        "@, " I, #$"@, nnn)
    } else if f == 0xB {
        addr_text("JP        "@, " V0, #$"@, nnn)
    } else if f == 0xC {
        reg_byte_text("RND       "@, x, kk)
    } else if f == 0xD {
        reg_reg_text("DRW       "@, x, y) + " ,#$"@ + hex_min(n, 1)
    } else if f == 0xE {
        one_reg_text("SKP       "@, ""@, x, ""@)
    } else {
        if kk == 0x07 {
            one_reg_text("LD        "@, ""@, x, ", DT"@)
        } else if kk == 0x0A {
            one_reg_text("LD        "@, ""@, x, ", K"@)
        } else if kk == 0x15 {
            one_reg_text("LD        "@, "DT, "@, x, ""@)
        } else if kk == 0x18 {
            one_reg_text("LD        "@, "ST, "@, x, ""@)
        } else if kk == 0x1E {
            one_reg_text("ADD       "@, "I, "@, x, ""@)
        } else if kk == 0x29 {
            one_reg_text("LD        "@, "F, "@, x, ""@)
        } else if kk == 0x33 {
            one_reg_text("LD        "@, "B, "@, x, ""@)
        } else if kk == 0x55 {
            one_reg_text("LD        "@, "[I], "@, x, ""@)
        } else if kk == 0x65 {
            one_reg_text("LD        "@, ""@, x, ", [I]"@)
        } else {
            "UNKNOWN"@
        }
    }
}

/// One listing line: the address (at least four hex digits), the two bytes
/// of the word, and its assembly text.
pub open spec fn disassembly(pc: nat, op: u16) -> Seq<char> {
    hex_min(pc, 4) + " "@ + hex_min(op as nat / 256, 2) + " "@ + hex_min(op as nat % 256, 2)
        + " "@ + assembly_text(op)
}

/// Relies on `String::push`: appends one character.
#[verifier::external_body]
fn push_char(s: &mut String, c: char)
    ensures
        final(s)@ == old(s)@.push(c),
{
    s.push(c);
}

fn hex_char(d: usize) -> (c: char)
    requires
        d < 16,
    ensures
        c == hex_digit(d as nat),
{
    let digits: [char; 16] = [
        '0', '1', '2', '3', '4', '5', '6', '7', '8', '9', 'a', 'b', 'c', 'd', 'e', 'f',
    ];
    assert(digits@ =~= hex_digits());
    digits[d]
}

/// Appends `v` in hexadecimal, zero-padded to at least `w` digits.
fn push_hex(out: &mut String, v: usize, w: usize)
    ensures
        final(out)@ == old(out)@ + hex_min(v as nat, w as nat),
    decreases v, w,
{
    if v < 16 && w <= 1 {
        push_char(out, hex_char(v));
    } else {
        let rest: usize = if w > 0 {
            w - 1
        } else {
            0
        };
        push_hex(out, v / 16, rest);
        push_char(out, hex_char(v % 16));
        assert(out@ =~= old(out)@ + hex_min(v as nat, w as nat));
    }
}

fn push_reg(out: &mut String, r: usize)
    ensures
        final(out)@ == old(out)@ + reg_text(r as nat),
{
    out.append("V");
    push_hex(out, r, 1);
    assert(out@ =~= old(out)@ + reg_text(r as nat));
}

fn push_reg_byte(out: &mut String, mn: &str, x: usize, kk: usize)
    ensures
        final(out)@ == old(out)@ + reg_byte_text(mn@, x as nat, kk as nat),
{
    out.append(mn);
    out.append(" ");
    push_reg(out, x);
    out.append(", #$");
    push_hex(out, kk, 2);
    assert(out@ =~= old(out)@ + reg_byte_text(mn@, x as nat, kk as nat));
}

fn push_reg_reg(out: &mut String, mn: &str, x: usize, y: usize)
    ensures
        final(out)@ == old(out)@ + reg_reg_text(mn@, x as nat, y as nat),
{
    out.append(mn);
    out.append(" ");
    push_reg(out, x);
    out.append(", ");
    push_reg(out, y);
    assert(out@ =~= old(out)@ + reg_reg_text(mn@, x as nat, y as nat));
}

fn push_addr(out: &mut String, mn: &str, pre: &str, a: usize)
    ensures
        final(out)@ == old(out)@ + addr_text(mn@, pre@, a as nat),
{
    out.append(mn);
    out.append(pre);
    push_hex(out, a, 3);
    assert(out@ =~= old(out)@ + addr_text(mn@, pre@, a as nat));
}

fn push_one_reg(out: &mut String, mn: &str, pre: &str, x: usize, post: &str)
    ensures
        final(out)@ == old(out)@ + one_reg_text(mn@, pre@, x as nat, post@),
{
    out.append(mn);
    out.append(" ");
    out.append(pre);
    push_reg(out, x);
    out.append(post);
    assert(out@ =~= old(out)@ + one_reg_text(mn@, pre@, x as nat, post@));
}

/// The assembly text of an opcode word.
fn assembly(opcode: u16) -> (r: String)
    ensures
        r@ == assembly_text(opcode),
{
    let x = ((opcode / 256) % 16) as usize;
    let y = ((opcode / 16) % 16) as usize;
    let n = (opcode % 16) as usize;
    let kk = (opcode % 256) as usize;
    let nnn = (opcode % 4096) as usize;
    let mut out = String::new();
    match opcode / 4096 {
        0 => match kk {
            0xE0 => out.append("CLS       "),
            0xEE => out.append("RET       "),
            _ => push_addr(&mut out, "SYS       ", " #$", nnn),
        },
        1 => push_addr(&mut out, "JP        ", " #$", nnn),
        2 => push_addr(&mut out, "CALL      ", " #$", nnn),
        3 => push_reg_byte(&mut out, "SE        ", x, kk),
        4 => push_reg_byte(&mut out, "SNE       ", x, kk),
        5 => push_reg_reg(&mut out, "SE        ", x, y),
        6 => push_reg_byte(&mut out, "LD        ", x, kk),
        7 => push_reg_byte(&mut out, "ADD       ", x, kk),
        8 => match n {
            0x0 => push_reg_reg(&mut out, "LD        ", x, y),
            0x1 => push_reg_reg(&mut out, "OR        ", x, y),
            0x2 => push_reg_reg(&mut out, "AND       ", x, y),
            0x3 => push_reg_reg(&mut out, "XOR       ", x, y),
            0x4 => push_reg_reg(&mut out, "ADD       ", x, y),
            0x5 => push_reg_reg(&mut out, "SUB       ", x, y),
            0x6 => push_reg_reg(&mut out, "SHR       ", x, y),
            0x7 => push_reg_reg(&mut out, "SUBN      ", x, y),
            0xE => {
                let mut tail = String::new();
                tail.append(" {,");
                push_reg(&mut tail, y);
                tail.append("}");
                push_one_reg(&mut out, "SHL       ", "", x, tail.as_str());
            },
            _ => out.append("UNKNOWN"),
        },
        9 => push_reg_reg(&mut out, "SNE       ", x, y),
        0xA => push_addr(&mut out, "LD        ", " I, #$", nnn),
        0xB => push_addr(&mut out, "JP        ", " V0, #$", nnn),
        0xC => push_reg_byte(&mut out, "RND       ", x, kk),
        0xD => {
            push_reg_reg(&mut out, "DRW       ", x, y);
            out.append(" ,#$");
            push_hex(&mut out, n, 1);
        },
        0xE => push_one_reg(&mut out, "SKP       ", "", x, ""),
        _ => match kk {
            0x07 => push_one_reg(&mut out, "LD        ", "", x, ", DT"),
            0x0A => push_one_reg(&mut out, "LD        ", "", x, ", K"),
            0x15 => push_one_reg(&mut out, "LD        ", "DT, ", x, ""),
            0x18 => push_one_reg(&mut out, "LD        ", "ST, ", x, ""),
            0x1E => push_one_reg(&mut out, "ADD       ", "I, ", x, ""),
            0x29 => push_one_reg(&mut out, "LD        ", "F, ", x, ""),
            0x33 => push_one_reg(&mut out, "LD        ", "B, ", x, ""),
            0x55 => push_one_reg(&mut out, "LD        ", "[I], ", x, ""),
            0x65 => push_one_reg(&mut out, "LD        ", "", x, ", [I]"),
            _ => out.append("UNKNOWN"),
        },
    }
    assert(out@ =~= assembly_text(opcode));
    out
}

/// One line of a program listing for the word `opcode` found at `pc`: the
/// address in at least four hex digits, the word's two bytes in two digits
/// each, and its assembly text, separated by single spaces.
pub fn disassemble_opcode(pc: usize, opcode: u16) -> (r: String)
    ensures
        r@ == disassembly(pc as nat, opcode),
{
    let mut out = String::new();
    push_hex(&mut out, pc, 4);
    out.append(" ");
    push_hex(&mut out, (opcode / 256) as usize, 2);
    out.append(" ");
    push_hex(&mut out, (opcode % 256) as usize, 2);
    out.append(" ");
    let text = assembly(opcode);
    out.append(text.as_str());
    assert(out@ =~= disassembly(pc as nat, opcode));
    out
}

} // verus!
