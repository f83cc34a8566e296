//! Instruction set: the decoded form of every opcode and the decoder that
//! produces it. The interpreter and the disassembler share this one definition.
use vstd::prelude::*;

verus! {

/// Errors of the instruction decoder.
#[derive(Debug, Clone, Copy, PartialEq, Eq, Structural)]
pub enum DecodeError {
    UnknownInstruction { opcode: u16 },
    InvalidRegister { register: usize },
}

/// Every instruction with its operands. Register operands (`vx`, `vy`) are
/// indices 0..=15 when the value comes from `decode_opcode`.
#[derive(Debug, Clone, Copy, PartialEq, Eq, Structural)]
pub enum Instruction {
    /// CLS: clear the display.
    Cls,
    /// RET: return from a subroutine.
    Ret,
    /// SYS addr: machine code routine (ignored by the interpreter).
    Sys { addr: u16 },
    /// JP addr.
    Jump { addr: u16 },
    /// CALL addr.
    Call { addr: u16 },
    /// JP V0, addr: jump to addr + V0.
    JumpV0 { addr: u16 },
    /// SE Vx, byte.
    SkipEqImm { vx: usize, value: u8 },
    /// SNE Vx, byte.
    SkipNeImm { vx: usize, value: u8 },
    /// SE Vx, Vy.
    SkipEqReg { vx: usize, vy: usize },
    /// SNE Vx, Vy.
    SkipNeReg { vx: usize, vy: usize },
    /// LD Vx, byte.
    LoadImm { vx: usize, value: u8 },
    /// LD Vx, Vy.
    LoadReg { vx: usize, vy: usize },
    /// LD I, addr.
    SetIndex { addr: u16 },
    /// ADD Vx, byte (wrapping, no flag).
    AddImm { vx: usize, value: u8 },
    /// ADD Vx, Vy (VF = carry).
    AddReg { vx: usize, vy: usize },
    /// SUB Vx, Vy (VF = not borrow).
    SubReg { vx: usize, vy: usize },
    /// SUBN Vx, Vy (VF = not borrow).
    SubnReg { vx: usize, vy: usize },
    /// OR Vx, Vy.
    OrReg { vx: usize, vy: usize },
    /// AND Vx, Vy.
    AndReg { vx: usize, vy: usize },
    /// XOR Vx, Vy.
    XorReg { vx: usize, vy: usize },
    /// SHR Vx (VF = low bit).
    ShrReg { vx: usize },
    /// SHL Vx (VF = high bit).
    ShlReg { vx: usize },
    /// DRW Vx, Vy, n: draw an n-row sprite read from I.
    Draw { vx: usize, vy: usize, n: u8 },
    /// SKP Vx.
    SkipKeyPressed { vx: usize },
    /// SKNP Vx.
    SkipKeyNotPressed { vx: usize },
    /// RND Vx, byte.
    Random { vx: usize, mask: u8 },
    /// LD Vx, DT.
    LoadDelayTimer { vx: usize },
    /// LD DT, Vx.
    SetDelayTimer { vx: usize },
    /// LD ST, Vx.
    SetSoundTimer { vx: usize },
    /// LD Vx, K: wait for a key.
    WaitKey { vx: usize },
    /// ADD I, Vx.
    AddIndex { vx: usize },
    /// LD F, Vx: I = glyph address of digit Vx.
    LoadFont { vx: usize },
    /// LD B, Vx: BCD of Vx at I, I+1, I+2.
    StoreBcd { vx: usize },
    /// LD [I], Vx: store V0..=Vx at I.
    StoreRegisters { vx: usize },
    /// LD Vx, [I]: load V0..=Vx from I.
    LoadRegisters { vx: usize },
}

/// Bits 8..11 of an opcode.
pub open spec fn field_x(op: u16) -> usize {
    ((op as int / 256) % 16) as usize
}

/// Bits 4..7 of an opcode.
pub open spec fn field_y(op: u16) -> usize {
    ((op as int / 16) % 16) as usize
}

/// The low 12 bits of an opcode.
pub open spec fn field_addr(op: u16) -> u16 {
    (op as int % 4096) as u16
}

/// The low 8 bits of an opcode.
pub open spec fn field_byte(op: u16) -> u8 {
    (op as int % 256) as u8
}

/// The low 4 bits of an opcode.
pub open spec fn field_nibble(op: u16) -> u8 {
    (op as int % 16) as u8
}

/// The decoding table: the high nibble picks the family, and the low byte or
/// nibble the member within the `0`, `5`, `8`, `9`, `E` and `F` families.
pub open spec fn decode_spec(op: u16) -> Result<Instruction, DecodeError> {
    let family = op as int / 4096;
    let vx = field_x(op);
    let vy = field_y(op);
    let addr = field_addr(op);
    let byte = field_byte(op);
    let n = field_nibble(op);
    let unknown = Err(DecodeError::UnknownInstruction { opcode: op });
    if family == 0 {
        if op == 0x00E0 {
            Ok(Instruction::Cls)
        } else if op == 0x00EE {
            Ok(Instruction::Ret)
        } else {
            Ok(Instruction::Sys { addr })
        }
    } else if family == 1 {
        Ok(Instruction::Jump { addr })
    } else if family == 2 {
        Ok(Instruction::Call { addr })
    } else if family == 3 {
        Ok(Instruction::SkipEqImm { vx, value: byte })
    } else if family == 4 {
        Ok(Instruction::SkipNeImm { vx, value: byte })
    } else if family == 5 {
        if n == 0 { Ok(Instruction::SkipEqReg { vx, vy }) } else { unknown }
    } else if family == 6 {
        Ok(Instruction::LoadImm { vx, value: byte })
    } else if family == 7 {
        Ok(Instruction::AddImm { vx, value: byte })
    } else if family == 8 {
        if n == 0 {
            Ok(Instruction::LoadReg { vx, vy })
        } else if n == 1 {
            Ok(Instruction::OrReg { vx, vy })
        } else if n == 2 {
            Ok(Instruction::AndReg { vx, vy })
        } else if n == 3 {
            Ok(Instruction::XorReg { vx, vy })
        } else if n == 4 {
            Ok(Instruction::AddReg { vx, vy })
        } else if n == 5 {
            Ok(Instruction::SubReg { vx, vy })
        } else if n == 6 {
            Ok(Instruction::ShrReg { vx })
        } else if n == 7 {
            Ok(Instruction::SubnReg { vx, vy })
        } else if n == 0xE {
            Ok(Instruction::ShlReg { vx })
        } else {
            unknown
        }
    } else if family == 9 {
        if n == 0 { Ok(Instruction::SkipNeReg { vx, vy }) } else { unknown }
    } else if family == 0xA {
        Ok(Instruction::SetIndex { addr })
    } else if family == 0xB {
        Ok(Instruction::JumpV0 { addr })
    } else if family == 0xC {
        Ok(Instruction::Random { vx, mask: byte })
    } else if family == 0xD {
        Ok(Instruction::Draw { vx, vy, n })
    } else if family == 0xE {
        if byte == 0x9E {
            Ok(Instruction::SkipKeyPressed { vx })
        } else if byte == 0xA1 {
            Ok(Instruction::SkipKeyNotPressed { vx })
        } else {
            unknown
        }
    } else {
        if byte == 0x07 {
            Ok(Instruction::LoadDelayTimer { vx })
        } else if byte == 0x0A {
            Ok(Instruction::WaitKey { vx })
        } else if byte == 0x15 {
            Ok(Instruction::SetDelayTimer { vx })
        } else if byte == 0x18 {
            Ok(Instruction::SetSoundTimer { vx })
        } else if byte == 0x1E {
            Ok(Instruction::AddIndex { vx })
        } else if byte == 0x29 {
            Ok(Instruction::LoadFont { vx })
        } else if byte == 0x33 {
            Ok(Instruction::StoreBcd { vx })
        } else if byte == 0x55 {
            Ok(Instruction::StoreRegisters { vx })
        } else if byte == 0x65 {
            Ok(Instruction::LoadRegisters { vx })
        } else {
            unknown
        }
    }
}

/// The sixteen hexadecimal digits, upper case.
pub open spec fn hex_table() -> Seq<char> {
    seq!['0', '1', '2', '3', '4', '5', '6', '7', '8', '9', 'A', 'B', 'C', 'D', 'E', 'F']
}

/// Upper-case hexadecimal form of `v`, without leading zeros.
pub open spec fn hex(v: nat) -> Seq<char>
    decreases v,
{
    if v < 16 {
        seq![hex_table()[v as int]]
    } else {
        hex(v / 16).push(hex_table()[(v % 16) as int])
    }
}

/// Upper-case hexadecimal form of `v`, zero-padded to at least `width` digits.
pub open spec fn hex_padded(v: nat, width: nat) -> Seq<char> {
    if hex(v).len() >= width {
        hex(v)
    } else {
        Seq::new((width - hex(v).len()) as nat, |i: int| '0') + hex(v)
    }
}

/// Register operand `V<x>`.
pub open spec fn reg_text(r: usize) -> Seq<char> {
    seq!['V'] + hex(r as nat)
}

/// The assembly text of an instruction.
pub open spec fn mnemonic_spec(ins: Instruction) -> Seq<char> {
    match ins {
        Instruction::Cls => "CLS"@,
        Instruction::Ret => "RET"@,
        Instruction::Sys { addr } => "SYS "@ + hex_padded(addr as nat, 3),
        Instruction::Jump { addr } => "JP "@ + hex_padded(addr as nat, 3),
        Instruction::Call { addr } => "CALL "@ + hex_padded(addr as nat, 3),
        Instruction::JumpV0 { addr } => "JP V0, "@ + hex_padded(addr as nat, 3),
        Instruction::SkipEqImm { vx, value } => "SE "@ + reg_text(vx) + ", "@ + hex_padded(value as nat, 2),
        Instruction::SkipNeImm { vx, value } => "SNE "@ + reg_text(vx) + ", "@ + hex_padded(value as nat, 2),
        Instruction::SkipEqReg { vx, vy } => "SE "@ + reg_text(vx) + ", "@ + reg_text(vy),
        Instruction::SkipNeReg { vx, vy } => "SNE "@ + reg_text(vx) + ", "@ + reg_text(vy),
        Instruction::LoadImm { vx, value } => "LD "@ + reg_text(vx) + ", "@ + hex_padded(value as nat, 2),
        Instruction::LoadReg { vx, vy } => "LD "@ + reg_text(vx) + ", "@ + reg_text(vy),
        Instruction::SetIndex { addr } => "LD I, "@ + hex_padded(addr as nat, 3),
        Instruction::AddImm { vx, value } => "ADD "@ + reg_text(vx) + ", "@ + hex_padded(value as nat, 2),
        Instruction::AddReg { vx, vy } => "ADD "@ + reg_text(vx) + ", "@ + reg_text(vy),
        Instruction::SubReg { vx, vy } => "SUB "@ + reg_text(vx) + ", "@ + reg_text(vy),
        Instruction::SubnReg { vx, vy } => "SUBN "@ + reg_text(vx) + ", "@ + reg_text(vy),
        Instruction::OrReg { vx, vy } => "OR "@ + reg_text(vx) + ", "@ + reg_text(vy),
        Instruction::AndReg { vx, vy } => "AND "@ + reg_text(vx) + ", "@ + reg_text(vy),
        Instruction::XorReg { vx, vy } => "XOR "@ + reg_text(vx) + ", "@ + reg_text(vy),
        Instruction::ShrReg { vx } => "SHR "@ + reg_text(vx),
        Instruction::ShlReg { vx } => "SHL "@ + reg_text(vx),
        Instruction::Draw { vx, vy, n } => "DRW "@ + reg_text(vx) + ", "@ + reg_text(vy) + ", "@ + hex(n as nat),
        Instruction::SkipKeyPressed { vx } => "SKP "@ + reg_text(vx),
        Instruction::SkipKeyNotPressed { vx } => "SKNP "@ + reg_text(vx),
        Instruction::Random { vx, mask } => "RND "@ + reg_text(vx) + ", "@ + hex_padded(mask as nat, 2),
        Instruction::LoadDelayTimer { vx } => "LD "@ + reg_text(vx) + ", DT"@,
        Instruction::SetDelayTimer { vx } => "LD DT, "@ + reg_text(vx),
        Instruction::SetSoundTimer { vx } => "LD ST, "@ + reg_text(vx),
        Instruction::WaitKey { vx } => "LD "@ + reg_text(vx) + ", K"@,
        Instruction::AddIndex { vx } => "ADD I, "@ + reg_text(vx),
        Instruction::LoadFont { vx } => "LD F, "@ + reg_text(vx),
        Instruction::StoreBcd { vx } => "LD B, "@ + reg_text(vx),
        Instruction::StoreRegisters { vx } => "LD [I], "@ + reg_text(vx),
        Instruction::LoadRegisters { vx } => "LD "@ + reg_text(vx) + ", [I]"@,
    }
}

/// The hexadecimal digit of `d` (0-15).
fn hex_digit(d: u64) -> (r: char)
    requires
        d < 16,
    ensures
        r == hex_table()[d as int],
{
    match d {
        0 => '0',
        1 => '1',
        2 => '2',
        3 => '3',
        4 => '4',
        5 => '5',
        6 => '6',
        7 => '7',
        8 => '8',
        9 => '9',
        10 => 'A',
        11 => 'B',
        12 => 'C',
        13 => 'D',
        14 => 'E',
        _ => 'F',
    }
}

/// Hexadecimal forms have one digit below 16, two below 256, and at least
/// three from 256 on.
proof fn lemma_hex_len(v: nat)
    ensures
        v < 16 ==> hex(v).len() == 1,
        16 <= v < 256 ==> hex(v).len() == 2,
        v >= 256 ==> hex(v).len() >= 3,
        hex(v).len() >= 1,
    decreases v,
{
    if v >= 16 {
        lemma_hex_len(v / 16);
    }
}

/// Append `s` to `out`.
fn push_str(out: &mut Vec<char>, s: &str)
    ensures
        final(out)@ == old(out)@ + s@,
{
    let n = s.unicode_len();
    let mut i: usize = 0;
    while i < n
        invariant
            n == s@.len(),
            i <= n,
            out@ == old(out)@ + s@.subrange(0, i as int),
        decreases n - i,
    {
        out.push(s.get_char(i));
        i += 1;
        assert(out@ =~= old(out)@ + s@.subrange(0, i as int));
    }
    assert(s@.subrange(0, n as int) =~= s@);
}

/// Append the hexadecimal form of `v`.
fn push_hex(out: &mut Vec<char>, v: u64)
    ensures
        final(out)@ == old(out)@ + hex(v as nat),
    decreases v,
{
    if v >= 16 {
        push_hex(out, v / 16);
    }
    out.push(hex_digit(v % 16));
    assert(out@ =~= old(out)@ + hex(v as nat));
}

/// Append the hexadecimal form of `v`, zero-padded to `width` digits.
fn push_hex_padded(out: &mut Vec<char>, v: u64, width: usize)
    requires
        width == 2 || width == 3,
    ensures
        final(out)@ == old(out)@ + hex_padded(v as nat, width as nat),
{
    proof {
        lemma_hex_len(v as nat);
    }
    let zeros: usize = if v < 16 {
        width - 1
    } else if v < 256 {
        width - 2
    } else {
        0
    };
    assert(zeros == if hex(v as nat).len() >= width { 0 } else { width - hex(v as nat).len() });
    let mut k: usize = 0;
    while k < zeros
        invariant
            k <= zeros,
            out@ == old(out)@ + Seq::new(k as nat, |i: int| '0'),
        decreases zeros - k,
    {
        out.push('0');
        k += 1;
        assert(out@ =~= old(out)@ + Seq::new(k as nat, |i: int| '0'));
    }
    push_hex(out, v);
    assert(out@ =~= old(out)@ + hex_padded(v as nat, width as nat));
}

/// Append the register operand `V<x>`.
fn push_reg(out: &mut Vec<char>, r: usize)
    ensures
        final(out)@ == old(out)@ + reg_text(r),
{
    out.push('V');
    push_hex(out, r as u64);
    assert(out@ =~= old(out)@ + reg_text(r));
}

/// Relies on `String`'s `FromIterator<char>`, to turn assembled text into a
/// `String`: the characters in order.
#[verifier::external_body]
fn string_from_chars(chars: &Vec<char>) -> (r: String)
    ensures
        r@ == chars@,
{
    chars.iter().collect()
}

impl Instruction {
    /// Every operand is within what its opcode field can hold: registers
    /// 0..=15, jump-with-offset targets under 4096, sprite heights under 16.
    pub open spec fn operands_in_range(self) -> bool {
        match self {
            Instruction::SkipEqImm { vx, .. } | Instruction::SkipNeImm { vx, .. }
            | Instruction::LoadImm { vx, .. } | Instruction::AddImm { vx, .. }
            | Instruction::Random { vx, .. } | Instruction::ShrReg { vx }
            | Instruction::ShlReg { vx } | Instruction::SkipKeyPressed { vx }
            | Instruction::SkipKeyNotPressed { vx } | Instruction::LoadDelayTimer { vx }
            | Instruction::SetDelayTimer { vx } | Instruction::SetSoundTimer { vx }
            | Instruction::WaitKey { vx } | Instruction::AddIndex { vx }
            | Instruction::LoadFont { vx } | Instruction::StoreBcd { vx }
            | Instruction::StoreRegisters { vx } | Instruction::LoadRegisters { vx } => vx < 16,
            Instruction::SkipEqReg { vx, vy } | Instruction::SkipNeReg { vx, vy }
            | Instruction::LoadReg { vx, vy } | Instruction::AddReg { vx, vy }
            | Instruction::SubReg { vx, vy } | Instruction::SubnReg { vx, vy }
            | Instruction::OrReg { vx, vy } | Instruction::AndReg { vx, vy }
            | Instruction::XorReg { vx, vy } => vx < 16 && vy < 16,
            Instruction::Draw { vx, vy, n } => vx < 16 && vy < 16 && n < 16,
            Instruction::JumpV0 { addr } => addr < 4096,
            _ => true,
        }
    }

    /// The instruction is one of the conditional skips.
    pub open spec fn is_skip(self) -> bool {
        ||| self is SkipEqImm
        ||| self is SkipNeImm
        ||| self is SkipEqReg
        ||| self is SkipNeReg
        ||| self is SkipKeyPressed
        ||| self is SkipKeyNotPressed
    }

    /// The assembly text, e.g. `LD V3, 42`: addresses in three hex digits,
    /// bytes in two, registers and sprite heights without padding.
    #[verifier::rlimit(60)]
    pub fn mnemonic(&self) -> (r: String)
        ensures
            r@ == mnemonic_spec(*self),
    {
        let mut out: Vec<char> = Vec::new();
        match *self {
            Instruction::Cls => push_str(&mut out, "CLS"),
            Instruction::Ret => push_str(&mut out, "RET"),
            Instruction::Sys { addr } => {
                push_str(&mut out, "SYS ");
                push_hex_padded(&mut out, addr as u64, 3);
            },
            Instruction::Jump { addr } => {
                push_str(&mut out, "JP ");
                push_hex_padded(&mut out, addr as u64, 3);
            },
            Instruction::Call { addr } => {
                push_str(&mut out, "CALL ");
                push_hex_padded(&mut out, addr as u64, 3);
            },
            Instruction::JumpV0 { addr } => {
                push_str(&mut out, "JP V0, ");
                push_hex_padded(&mut out, addr as u64, 3);
            },
            Instruction::SkipEqImm { vx, value } => push_reg_byte(&mut out, "SE ", vx, value),
            Instruction::SkipNeImm { vx, value } => push_reg_byte(&mut out, "SNE ", vx, value),
            Instruction::SkipEqReg { vx, vy } => push_reg_reg(&mut out, "SE ", vx, vy),
            Instruction::SkipNeReg { vx, vy } => push_reg_reg(&mut out, "SNE ", vx, vy),
            Instruction::LoadImm { vx, value } => push_reg_byte(&mut out, "LD ", vx, value),
            Instruction::LoadReg { vx, vy } => push_reg_reg(&mut out, "LD ", vx, vy),
            Instruction::SetIndex { addr } => {
                push_str(&mut out, "LD I, ");
                push_hex_padded(&mut out, addr as u64, 3);
            },
            Instruction::AddImm { vx, value } => push_reg_byte(&mut out, "ADD ", vx, value),
            Instruction::AddReg { vx, vy } => push_reg_reg(&mut out, "ADD ", vx, vy),
            Instruction::SubReg { vx, vy } => push_reg_reg(&mut out, "SUB ", vx, vy),
            Instruction::SubnReg { vx, vy } => push_reg_reg(&mut out, "SUBN ", vx, vy),
            Instruction::OrReg { vx, vy } => push_reg_reg(&mut out, "OR ", vx, vy),
            Instruction::AndReg { vx, vy } => push_reg_reg(&mut out, "AND ", vx, vy),
            Instruction::XorReg { vx, vy } => push_reg_reg(&mut out, "XOR ", vx, vy),
            Instruction::ShrReg { vx } => push_op_reg(&mut out, "SHR ", vx),
            Instruction::ShlReg { vx } => push_op_reg(&mut out, "SHL ", vx),
            Instruction::Draw { vx, vy, n } => {
                push_reg_reg(&mut out, "DRW ", vx, vy);
                push_str(&mut out, ", ");
                push_hex(&mut out, n as u64);
            },
            Instruction::SkipKeyPressed { vx } => push_op_reg(&mut out, "SKP ", vx),
            Instruction::SkipKeyNotPressed { vx } => push_op_reg(&mut out, "SKNP ", vx),
            Instruction::Random { vx, mask } => push_reg_byte(&mut out, "RND ", vx, mask),
            Instruction::LoadDelayTimer { vx } => {
                push_op_reg(&mut out, "LD ", vx);
                push_str(&mut out, ", DT");
            },
            Instruction::SetDelayTimer { vx } => push_op_reg(&mut out, "LD DT, ", vx),
            Instruction::SetSoundTimer { vx } => push_op_reg(&mut out, "LD ST, ", vx),
            Instruction::WaitKey { vx } => {
                push_op_reg(&mut out, "LD ", vx);
                push_str(&mut out, ", K");
            },
            Instruction::AddIndex { vx } => push_op_reg(&mut out, "ADD I, ", vx),
            Instruction::LoadFont { vx } => push_op_reg(&mut out, "LD F, ", vx),
            Instruction::StoreBcd { vx } => push_op_reg(&mut out, "LD B, ", vx),
            Instruction::StoreRegisters { vx } => push_op_reg(&mut out, "LD [I], ", vx),
            Instruction::LoadRegisters { vx } => {
                push_op_reg(&mut out, "LD ", vx);
                push_str(&mut out, ", [I]");
            },
        }
        assert(out@ =~= mnemonic_spec(*self));
        string_from_chars(&out)
    }

    /// Check if this instruction is a conditional skip. A skip adds 2 to the
    /// program counter on top of the fetch's own advance.
    pub fn is_skip_instruction(&self) -> (r: bool)
        ensures
            r == self.is_skip(),
    {
        match self {
            Instruction::SkipEqImm { .. } | Instruction::SkipNeImm { .. }
            | Instruction::SkipEqReg { .. } | Instruction::SkipNeReg { .. }
            | Instruction::SkipKeyPressed { .. } | Instruction::SkipKeyNotPressed { .. } => true,
            _ => false,
        }
    }
}

/// Append `op`, then `V<x>`.
fn push_op_reg(out: &mut Vec<char>, op: &str, vx: usize)
    ensures
        final(out)@ == old(out)@ + op@ + reg_text(vx),
{
    push_str(out, op);
    push_reg(out, vx);
    assert(out@ =~= old(out)@ + op@ + reg_text(vx));
}

/// Append `op`, then `V<x>, V<y>`.
fn push_reg_reg(out: &mut Vec<char>, op: &str, vx: usize, vy: usize)
    ensures
        final(out)@ == old(out)@ + op@ + reg_text(vx) + ", "@ + reg_text(vy),
{
    push_op_reg(out, op, vx);
    push_str(out, ", ");
    push_reg(out, vy);
    assert(out@ =~= old(out)@ + op@ + reg_text(vx) + ", "@ + reg_text(vy));
}

/// Append `op`, then `V<x>, <byte>`.
fn push_reg_byte(out: &mut Vec<char>, op: &str, vx: usize, value: u8)
    ensures
        final(out)@ == old(out)@ + op@ + reg_text(vx) + ", "@ + hex_padded(value as nat, 2),
{
    push_op_reg(out, op, vx);
    push_str(out, ", ");
    push_hex_padded(out, value as u64, 2);
    assert(out@ =~= old(out)@ + op@ + reg_text(vx) + ", "@ + hex_padded(value as nat, 2));
}

/// Decode a 16-bit opcode. Total over all of `u16`: the result is either an
/// instruction whose operands are in range, or `UnknownInstruction`
/// carrying the opcode.
pub fn decode_opcode(opcode: u16) -> (r: Result<Instruction, DecodeError>)
    ensures
        r == decode_spec(opcode),
        r is Ok ==> r->Ok_0.operands_in_range(),
        r is Err ==> r == Err::<Instruction, DecodeError>(
            DecodeError::UnknownInstruction { opcode },
        ),
{
    let addr: u16 = opcode % 0x1000;
    let vx: usize = ((opcode / 0x100) % 0x10) as usize;
    let vy: usize = ((opcode / 0x10) % 0x10) as usize;
    let byte: u8 = (opcode % 0x100) as u8;
    let nibble: u8 = (opcode % 0x10) as u8;
    let unknown = Err(DecodeError::UnknownInstruction { opcode });
    match opcode / 0x1000 {
        0x0 => {
            if opcode == 0x00E0 {
                Ok(Instruction::Cls)
            } else if opcode == 0x00EE {
                Ok(Instruction::Ret)
            } else {
                Ok(Instruction::Sys { addr })
            }
        },
        0x1 => Ok(Instruction::Jump { addr }),
        0x2 => Ok(Instruction::Call { addr }),
        0x3 => Ok(Instruction::SkipEqImm { vx, value: byte }),
        0x4 => Ok(Instruction::SkipNeImm { vx, value: byte }),
        0x5 => match nibble {
            0x0 => Ok(Instruction::SkipEqReg { vx, vy }),
            _ => unknown,
        },
        0x6 => Ok(Instruction::LoadImm { vx, value: byte }),
        0x7 => Ok(Instruction::AddImm { vx, value: byte }),
        0x8 => match nibble {
            0x0 => Ok(Instruction::LoadReg { vx, vy }),
            0x1 => Ok(Instruction::OrReg { vx, vy }),
            0x2 => Ok(Instruction::AndReg { vx, vy }),
            0x3 => Ok(Instruction::XorReg { vx, vy }),
            0x4 => Ok(Instruction::AddReg { vx, vy }),
            0x5 => Ok(Instruction::SubReg { vx, vy }),
            0x6 => Ok(Instruction::ShrReg { vx }),
            0x7 => Ok(Instruction::SubnReg { vx, vy }),
            0xE => Ok(Instruction::ShlReg { vx }),
            _ => unknown,
        },
        0x9 => match nibble {
            0x0 => Ok(Instruction::SkipNeReg { vx, vy }),
            _ => unknown,
        },
        0xA => Ok(Instruction::SetIndex { addr }),
        0xB => Ok(Instruction::JumpV0 { addr }),
        0xC => Ok(Instruction::Random { vx, mask: byte }),
        0xD => Ok(Instruction::Draw { vx, vy, n: nibble }),
        0xE => match byte {
            0x9E => Ok(Instruction::SkipKeyPressed { vx }),
            0xA1 => Ok(Instruction::SkipKeyNotPressed { vx }),
            _ => unknown,
        },
        _ => match byte {
            0x07 => Ok(Instruction::LoadDelayTimer { vx }),
            0x0A => Ok(Instruction::WaitKey { vx }),
            0x15 => Ok(Instruction::SetDelayTimer { vx }),
            0x18 => Ok(Instruction::SetSoundTimer { vx }),
            0x1E => Ok(Instruction::AddIndex { vx }),
            0x29 => Ok(Instruction::LoadFont { vx }),
            0x33 => Ok(Instruction::StoreBcd { vx }),
            0x55 => Ok(Instruction::StoreRegisters { vx }),
            0x65 => Ok(Instruction::LoadRegisters { vx }),
            _ => unknown,
        },
    }
}

} // verus!
