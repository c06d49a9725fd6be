use vstd::prelude::*;
use vstd::string::{StrSliceExecFns, StringExecFns};
use crate::cpu::Cpu;

verus! {

/// Mnemonic of each primary opcode; empty for an illegal opcode.
pub const MNEMONICS: [&'static str; 256] = [
    "NOP ", "LD BC d16", "LD (BC) A", "INC BC ", "INC B ", "DEC B ", "LD B d8", "RLCA ",
    "LD (a16) SP", "ADD HL BC", "LD A (BC)", "DEC BC ", "INC C ", "DEC C ", "LD C d8", "RRCA ",
    "STOP 0 ", "LD DE d16", "LD (DE) A", "INC DE ", "INC D ", "DEC D ", "LD D d8", "RLA ",
    "JR r8 ", "ADD HL DE", "LD A (DE)", "DEC DE ", "INC E ", "DEC E ", "LD E d8", "RRA ",
    "JR NZ r8", "LD HL d16", "LD (HL+) A", "INC HL ", "INC H ", "DEC H ", "LD H d8", "DAA ",
    "JR Z r8", "ADD HL HL", "LD A (HL+)", "DEC HL ", "INC L ", "DEC L ", "LD L d8", "CPL ",
    "JR NC r8", "LD SP d16", "LD (HL-) A", "INC SP ", "INC (HL) ", "DEC (HL) ", "LD (HL) d8", "SCF ",
    "JR C r8", "ADD HL SP", "LD A (HL-)", "DEC SP ", "INC A ", "DEC A ", "LD A d8", "CCF ",
    "LD B B", "LD B C", "LD B D", "LD B E", "LD B H", "LD B L", "LD B (HL)", "LD B A",
    "LD C B", "LD C C", "LD C D", "LD C E", "LD C H", "LD C L", "LD C (HL)", "LD C A",
    "LD D B", "LD D C", "LD D D", "LD D E", "LD D H", "LD D L", "LD D (HL)", "LD D A",
    "LD E B", "LD E C", "LD E D", "LD E E", "LD E H", "LD E L", "LD E (HL)", "LD E A",
    "LD H B", "LD H C", "LD H D", "LD H E", "LD H H", "LD H L", "LD H (HL)", "LD H A",
    "LD L B", "LD L C", "LD L D", "LD L E", "LD L H", "LD L L", "LD L (HL)", "LD L A",
    "LD (HL) B", "LD (HL) C", "LD (HL) D", "LD (HL) E", "LD (HL) H", "LD (HL) L", "HALT ", "LD (HL) A",
    "LD A B", "LD A C", "LD A D", "LD A E", "LD A H", "LD A L", "LD A (HL)", "LD A A",
    "ADD A B", "ADD A C", "ADD A D", "ADD A E", "ADD A H", "ADD A L", "ADD A (HL)", "ADD A A",
    "ADC A B", "ADC A C", "ADC A D", "ADC A E", "ADC A H", "ADC A L", "ADC A (HL)", "ADC A A",
    "SUB B ", "SUB C ", "SUB D ", "SUB E ", "SUB H ", "SUB L ", "SUB (HL) ", "SUB A ",
    "SBC A B", "SBC A C", "SBC A D", "SBC A E", "SBC A H", "SBC A L", "SBC A (HL)", "SBC A A",
    "AND B ", "AND C ", "AND D ", "AND E ", "AND H ", "AND L ", "AND (HL) ", "AND A ",
    "XOR B ", "XOR C ", "XOR D ", "XOR E ", "XOR H ", "XOR L ", "XOR (HL) ", "XOR A ",
    "OR B ", "OR C ", "OR D ", "OR E ", "OR H ", "OR L ", "OR (HL) ", "OR A ",
    "CP B ", "CP C ", "CP D ", "CP E ", "CP H ", "CP L ", "CP (HL) ", "CP A ",
    "RET NZ ", "POP BC ", "JP NZ a16", "JP a16 ", "CALL NZ a16", "PUSH BC ", "ADD A d8", "RST 00H ",
    "RET Z ", "RET ", "JP Z a16", "PREFIX CB ", "CALL Z a16", "CALL a16 ", "ADC A d8", "RST 08H ",
    "RET NC ", "POP DE ", "JP NC a16", "", "CALL NC a16", "PUSH DE ", "SUB d8 ", "RST 10H ",
    "RET C ", "RETI ", "JP C a16", "", "CALL C a16", "", "SBC A d8", "RST 18H ",
    "LDH (a8) A", "POP HL ", "LD (C) A", "", "", "PUSH HL ", "AND d8 ", "RST 20H ",
    "ADD SP r8", "JP (HL) ", "LD (a16) A", "", "", "", "XOR d8 ", "RST 28H ",
    "LDH A (a8)", "POP AF ", "LD A (C)", "DI ", "", "PUSH AF ", "OR d8 ", "RST 30H ",
    "LD HL SP+r8", "LD SP HL", "LD A (a16)", "EI ", "", "", "CP d8 ", "RST 38H ",
];

/// Length in bytes of each primary opcode (the prefix byte alone for 0xCB);
/// 0 for an illegal opcode.
pub const LENGTHS: [u8; 256] = [
    1, 3, 1, 1, 1, 1, 2, 1, 3, 1, 1, 1, 1, 1, 2, 1,
    1, 3, 1, 1, 1, 1, 2, 1, 2, 1, 1, 1, 1, 1, 2, 1,
    2, 3, 1, 1, 1, 1, 2, 1, 2, 1, 1, 1, 1, 1, 2, 1,
    2, 3, 1, 1, 1, 1, 2, 1, 2, 1, 1, 1, 1, 1, 2, 1,
    1, 1, 1, 1, 1, 1, 1, 1, 1, 1, 1, 1, 1, 1, 1, 1,
    1, 1, 1, 1, 1, 1, 1, 1, 1, 1, 1, 1, 1, 1, 1, 1,
    1, 1, 1, 1, 1, 1, 1, 1, 1, 1, 1, 1, 1, 1, 1, 1,
    1, 1, 1, 1, 1, 1, 1, 1, 1, 1, 1, 1, 1, 1, 1, 1,
    1, 1, 1, 1, 1, 1, 1, 1, 1, 1, 1, 1, 1, 1, 1, 1,
    1, 1, 1, 1, 1, 1, 1, 1, 1, 1, 1, 1, 1, 1, 1, 1,
    1, 1, 1, 1, 1, 1, 1, 1, 1, 1, 1, 1, 1, 1, 1, 1,
    1, 1, 1, 1, 1, 1, 1, 1, 1, 1, 1, 1, 1, 1, 1, 1,
    1, 1, 3, 3, 3, 1, 2, 1, 1, 1, 3, 1, 3, 3, 2, 1,
    1, 1, 3, 0, 3, 1, 2, 1, 1, 1, 3, 0, 3, 0, 2, 1,
    2, 1, 1, 0, 0, 1, 2, 1, 2, 1, 3, 0, 0, 0, 2, 1,
    2, 1, 1, 1, 0, 1, 2, 1, 2, 1, 3, 1, 0, 0, 2, 1,
];

/// Machine cycles of each primary opcode as listed (taken, not taken).
pub const CYCLE_NOTES: [&'static str; 256] = [
    "[1]", "[3]", "[2]", "[2]", "[1]", "[1]", "[2]", "[1]",
    "[5]", "[2]", "[2]", "[2]", "[1]", "[1]", "[2]", "[1]",
    "[1]", "[3]", "[2]", "[2]", "[1]", "[1]", "[2]", "[1]",
    "[3]", "[2]", "[2]", "[2]", "[1]", "[1]", "[2]", "[1]",
    "[3, 2]", "[3]", "[2]", "[2]", "[1]", "[1]", "[2]", "[1]",
    "[3, 2]", "[2]", "[2]", "[2]", "[1]", "[1]", "[2]", "[1]",
    "[3, 2]", "[3]", "[2]", "[2]", "[3]", "[3]", "[3]", "[1]",
    "[3, 2]", "[2]", "[2]", "[2]", "[1]", "[1]", "[2]", "[1]",
    "[1]", "[1]", "[1]", "[1]", "[1]", "[1]", "[2]", "[1]",
    "[1]", "[1]", "[1]", "[1]", "[1]", "[1]", "[2]", "[1]",
    "[1]", "[1]", "[1]", "[1]", "[1]", "[1]", "[2]", "[1]",
    "[1]", "[1]", "[1]", "[1]", "[1]", "[1]", "[2]", "[1]",
    "[1]", "[1]", "[1]", "[1]", "[1]", "[1]", "[2]", "[1]",
    "[1]", "[1]", "[1]", "[1]", "[1]", "[1]", "[2]", "[1]",
    "[2]", "[2]", "[2]", "[2]", "[2]", "[2]", "[1]", "[2]",
    "[1]", "[1]", "[1]", "[1]", "[1]", "[1]", "[2]", "[1]",
    "[1]", "[1]", "[1]", "[1]", "[1]", "[1]", "[2]", "[1]",
    "[1]", "[1]", "[1]", "[1]", "[1]", "[1]", "[2]", "[1]",
    "[1]", "[1]", "[1]", "[1]", "[1]", "[1]", "[2]", "[1]",
    "[1]", "[1]", "[1]", "[1]", "[1]", "[1]", "[2]", "[1]",
    "[1]", "[1]", "[1]", "[1]", "[1]", "[1]", "[2]", "[1]",
    "[1]", "[1]", "[1]", "[1]", "[1]", "[1]", "[2]", "[1]",
    "[1]", "[1]", "[1]", "[1]", "[1]", "[1]", "[2]", "[1]",
    "[1]", "[1]", "[1]", "[1]", "[1]", "[1]", "[2]", "[1]",
    "[5, 2]", "[3]", "[4, 3]", "[4]", "[6, 3]", "[4]", "[2]", "[4]",
    "[5, 2]", "[4]", "[4, 3]", "[1]", "[6, 3]", "[6]", "[2]", "[4]",
    "[5, 2]", "[3]", "[4, 3]", "", "[6, 3]", "[4]", "[2]", "[4]",
    "[5, 2]", "[4]", "[4, 3]", "", "[6, 3]", "", "[2]", "[4]",
    "[3]", "[3]", "[2]", "", "", "[4]", "[2]", "[4]",
    "[4]", "[1]", "[4]", "", "", "", "[2]", "[4]",
    "[3]", "[3]", "[2]", "[1]", "", "[4]", "[2]", "[4]",
    "[3]", "[2]", "[4]", "[1]", "", "", "[2]", "[4]",
];

/// Instruction group of each primary opcode.
pub const GROUPS: [&'static str; 256] = [
    "control/misc", "x16/lsm", "x8/lsm", "x16/alu", "x8/alu", "x8/alu",
    "x8/lsm", "x8/rsb", "x16/lsm", "x16/alu", "x8/lsm", "x16/alu",
    "x8/alu", "x8/alu", "x8/lsm", "x8/rsb", "control/misc", "x16/lsm",
    "x8/lsm", "x16/alu", "x8/alu", "x8/alu", "x8/lsm", "x8/rsb",
    "control/br", "x16/alu", "x8/lsm", "x16/alu", "x8/alu", "x8/alu",
    "x8/lsm", "x8/rsb", "control/br", "x16/lsm", "x8/lsm", "x16/alu",
    "x8/alu", "x8/alu", "x8/lsm", "x8/alu", "control/br", "x16/alu",
    "x8/lsm", "x16/alu", "x8/alu", "x8/alu", "x8/lsm", "x8/alu",
    "control/br", "x16/lsm", "x8/lsm", "x16/alu", "x8/alu", "x8/alu",
    "x8/lsm", "x8/alu", "control/br", "x16/alu", "x8/lsm", "x16/alu",
    "x8/alu", "x8/alu", "x8/lsm", "x8/alu", "x8/lsm", "x8/lsm",
    "x8/lsm", "x8/lsm", "x8/lsm", "x8/lsm", "x8/lsm", "x8/lsm",
    "x8/lsm", "x8/lsm", "x8/lsm", "x8/lsm", "x8/lsm", "x8/lsm",
    "x8/lsm", "x8/lsm", "x8/lsm", "x8/lsm", "x8/lsm", "x8/lsm",
    "x8/lsm", "x8/lsm", "x8/lsm", "x8/lsm", "x8/lsm", "x8/lsm",
    "x8/lsm", "x8/lsm", "x8/lsm", "x8/lsm", "x8/lsm", "x8/lsm",
    "x8/lsm", "x8/lsm", "x8/lsm", "x8/lsm", "x8/lsm", "x8/lsm",
    "x8/lsm", "x8/lsm", "x8/lsm", "x8/lsm", "x8/lsm", "x8/lsm",
    "x8/lsm", "x8/lsm", "x8/lsm", "x8/lsm", "x8/lsm", "x8/lsm",
    "x8/lsm", "x8/lsm", "x8/lsm", "x8/lsm", "control/misc", "x8/lsm",
    "x8/lsm", "x8/lsm", "x8/lsm", "x8/lsm", "x8/lsm", "x8/lsm",
    "x8/lsm", "x8/lsm", "x8/alu", "x8/alu", "x8/alu", "x8/alu",
    "x8/alu", "x8/alu", "x8/alu", "x8/alu", "x8/alu", "x8/alu",
    "x8/alu", "x8/alu", "x8/alu", "x8/alu", "x8/alu", "x8/alu",
    "x8/alu", "x8/alu", "x8/alu", "x8/alu", "x8/alu", "x8/alu",
    "x8/alu", "x8/alu", "x8/alu", "x8/alu", "x8/alu", "x8/alu",
    "x8/alu", "x8/alu", "x8/alu", "x8/alu", "x8/alu", "x8/alu",
    "x8/alu", "x8/alu", "x8/alu", "x8/alu", "x8/alu", "x8/alu",
    "x8/alu", "x8/alu", "x8/alu", "x8/alu", "x8/alu", "x8/alu",
    "x8/alu", "x8/alu", "x8/alu", "x8/alu", "x8/alu", "x8/alu",
    "x8/alu", "x8/alu", "x8/alu", "x8/alu", "x8/alu", "x8/alu",
    "x8/alu", "x8/alu", "x8/alu", "x8/alu", "x8/alu", "x8/alu",
    "control/br", "x16/lsm", "control/br", "control/br", "control/br", "x16/lsm",
    "x8/alu", "control/br", "control/br", "control/br", "control/br", "control/misc",
    "control/br", "control/br", "x8/alu", "control/br", "control/br", "x16/lsm",
    "control/br", "", "control/br", "x16/lsm", "x8/alu", "control/br",
    "control/br", "control/br", "control/br", "", "control/br", "",
    "x8/alu", "control/br", "x8/lsm", "x16/lsm", "x8/lsm", "",
    "", "x16/lsm", "x8/alu", "control/br", "x16/alu", "control/br",
    "x8/lsm", "", "", "", "x8/alu", "control/br",
    "x8/lsm", "x16/lsm", "x8/lsm", "control/misc", "", "x16/lsm",
    "x8/alu", "control/br", "x16/lsm", "x16/lsm", "x8/lsm", "control/misc",
    "", "", "x8/alu", "control/br",
];

/// Upper-case hexadecimal digits.
pub const HEX_DIGITS: [&'static str; 16] = ["0", "1", "2", "3", "4", "5", "6", "7", "8", "9", "A", "B", "C", "D", "E", "F"];

/// `s` padded with blanks on the right to at least `width` characters.
pub open spec fn padded(s: Seq<char>, width: nat) -> Seq<char> {
    if s.len() >= width {
        s
    } else {
        s + Seq::new((width - s.len()) as nat, |i: int| ' ')
    }
}

/// Two upper-case hexadecimal digits of a byte.
pub open spec fn hex_text(b: u8) -> Seq<char> {
    HEX_DIGITS@[(b / 16) as int]@ + HEX_DIGITS@[(b % 16) as int]@
}

/// The table line of a legal opcode:
/// `| OP - MNEMONIC   | LEN: n | CYC: [..]     | GRP: group        |`.
pub open spec fn decode_line(op: u8) -> Seq<char> {
    "| "@ + hex_text(op) + " - "@ + padded(MNEMONICS@[op as int]@, 10) + " | LEN: "@
        + HEX_DIGITS@[LENGTHS@[op as int] as int]@ + " | CYC: "@ + padded(CYCLE_NOTES@[op as int]@, 8)
        + " | GRP: "@ + padded(GROUPS@[op as int]@, 12) + " |"@
}

/// The line for an opcode missing from the table.
pub open spec fn unknown_line(op: u8) -> Seq<char> {
    "| "@ + hex_text(op) + " - ??? | Unknown opcode |"@
}

/// Appends `s` to `out`, then blanks up to `width` characters for `s`.
fn append_padded(out: &mut String, s: &str, width: usize)
    requires
        width <= 16,
    ensures
        final(out)@ == old(out)@ + padded(s@, width as nat),
{
    out.append(s);
    let len = s.unicode_len();
    let mut n = len;
    let ghost start = out@;
    while n < width
        invariant
            len == s@.len(),
            len < width ==> n <= width,
            len >= width ==> n == len,
            start == old(out)@ + s@,
            n >= len,
            out@ == start + Seq::new((n - len) as nat, |i: int| ' '),
        decreases width - n,
    {
        out.append(" ");
        proof {
            reveal_strlit(" ");
            assert(out@ =~= start + Seq::new((n + 1 - len) as nat, |i: int| ' '));
        }
        n = n + 1;
    }
    proof {
        if len >= width {
            assert(out@ =~= old(out)@ + padded(s@, width as nat));
        } else {
            assert(out@ =~= old(out)@ + padded(s@, width as nat));
        }
    }
}

/// Appends the two hexadecimal digits of a byte.
fn append_hex(out: &mut String, b: u8)
    ensures
        final(out)@ == old(out)@ + hex_text(b),
{
    out.append(HEX_DIGITS[(b / 16) as usize]);
    out.append(HEX_DIGITS[(b % 16) as usize]);
    assert(out@ =~= old(out)@ + hex_text(b));
}

/// The table line of the latched opcode, or `None` for an illegal one.
pub fn decode(cpu: &Cpu) -> (r: Option<String>)
    ensures
        LENGTHS@[cpu.opcode as int] == 0 ==> r.is_none(),
        LENGTHS@[cpu.opcode as int] != 0 ==> r.is_some() && r.unwrap()@ == decode_line(cpu.opcode),
{
    let op = cpu.opcode;
    let length = LENGTHS[op as usize];
    if length == 0 {
        return None;
    }
    let mut out = String::new();
    out.append("| ");
    append_hex(&mut out, op);
    out.append(" - ");
    append_padded(&mut out, MNEMONICS[op as usize], 10);
    out.append(" | LEN: ");
    out.append(HEX_DIGITS[length as usize]);
    out.append(" | CYC: ");
    append_padded(&mut out, CYCLE_NOTES[op as usize], 8);
    out.append(" | GRP: ");
    append_padded(&mut out, GROUPS[op as usize], 12);
    out.append(" |");
    assert(out@ =~= decode_line(op));
    Some(out)
}

/// The line that reports an opcode missing from the table.
pub fn unknown(cpu: &Cpu) -> (r: String)
    ensures
        r@ == unknown_line(cpu.opcode),
{
    let mut out = String::new();
    out.append("| ");
    append_hex(&mut out, cpu.opcode);
    out.append(" - ??? | Unknown opcode |");
    assert(out@ =~= unknown_line(cpu.opcode));
    out
}

} // verus!
