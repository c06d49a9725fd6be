use metalboy::cpu::Cpu;
use metalboy::decode::{decode, unknown};

#[test]
fn decode_formats_table_line() {
    let mut cpu = Cpu::new();
    cpu.opcode = 0x00;
    assert_eq!(decode(&cpu).unwrap(), "| 00 - NOP        | LEN: 1 | CYC: [1]      | GRP: control/misc |");
    cpu.opcode = 0x20;
    assert_eq!(decode(&cpu).unwrap(), "| 20 - JR NZ r8   | LEN: 2 | CYC: [3, 2]   | GRP: control/br   |");
    cpu.opcode = 0xF8;
    assert_eq!(decode(&cpu).unwrap(), "| F8 - LD HL SP+r8 | LEN: 2 | CYC: [3]      | GRP: x16/lsm      |");
}

#[test]
fn decode_rejects_illegal_opcodes() {
    let mut cpu = Cpu::new();
    for op in [0xD3u8, 0xDB, 0xDD, 0xE3, 0xE4, 0xEB, 0xEC, 0xED, 0xF4, 0xFC, 0xFD] {
        cpu.opcode = op;
        assert!(decode(&cpu).is_none());
    }
    cpu.opcode = 0xD3;
    assert_eq!(unknown(&cpu), "| D3 - ??? | Unknown opcode |");
}
