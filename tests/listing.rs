use chip8::disassemble_opcode;

#[test]
fn lists_clear() {
    assert_eq!(disassemble_opcode(0x200, 0x00E0), "0200 00 e0 CLS       ");
}

#[test]
fn lists_register_and_byte() {
    assert_eq!(disassemble_opcode(0x200, 0x6A2F), "0200 6a 2f LD         Va, #$2f");
    assert_eq!(disassemble_opcode(0x20, 0xC1FF), "0020 c1 ff RND        V1, #$ff");
}

#[test]
fn lists_draw() {
    assert_eq!(disassemble_opcode(0x202, 0xD125), "0202 d1 25 DRW        V1, V2 ,#$5");
}

#[test]
fn lists_shift_left() {
    assert_eq!(disassemble_opcode(0x204, 0x8ABE), "0204 8a be SHL        Va {,Vb}");
}

#[test]
fn lists_wide_address() {
    assert_eq!(disassemble_opcode(0x12345, 0x1ABC), "12345 1a bc JP         #$abc");
}

#[test]
fn lists_memory_transfers() {
    assert_eq!(disassemble_opcode(0x206, 0xF165), "0206 f1 65 LD         V1, [I]");
    assert_eq!(disassemble_opcode(0x208, 0xF255), "0208 f2 55 LD         [I], V2");
}

#[test]
fn lists_unknown_and_system() {
    assert_eq!(disassemble_opcode(0x20a, 0x8009), "020a 80 09 UNKNOWN");
    assert_eq!(disassemble_opcode(0, 0x0123), "0000 01 23 SYS        #$123");
    assert_eq!(disassemble_opcode(0, 0xF0FF), "0000 f0 ff UNKNOWN");
}

#[test]
fn lists_keys_and_addresses() {
    assert_eq!(disassemble_opcode(0x20c, 0xE5A1), "020c e5 a1 SKP        V5");
    assert_eq!(disassemble_opcode(0x20e, 0xB300), "020e b3 00 JP         V0, #$300");
    assert_eq!(disassemble_opcode(0x210, 0xA050), "0210 a0 50 LD         I, #$050");
    assert_eq!(disassemble_opcode(0x212, 0xF71E), "0212 f7 1e ADD        I, V7");
}
