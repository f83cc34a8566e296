//! Static disassembly of a loaded ROM and a tally of the instruction
//! families it uses.
use vstd::prelude::*;
use crate::constants::{MEMORY_SIZE, PROGRAM_START_ADDR};
use crate::instruction::{decode_opcode, decode_spec, mnemonic_spec, DecodeError, Instruction};
use crate::memory::{word_at, Memory, MemoryError};

verus! {

/// Disassembly errors.
#[derive(Debug, Clone, Copy, PartialEq, Eq, Structural)]
pub enum DisassemblyError {
    Memory(MemoryError),
    Decode(DecodeError),
}

/// An instruction with its address and opcode.
#[derive(Debug, Clone, Copy, PartialEq, Eq, Structural)]
pub struct DisassembledInstruction {
    pub address: u16,
    pub opcode: u16,
    pub instruction: Instruction,
}

impl DisassembledInstruction {
    /// The assembly text of the instruction.
    pub fn mnemonic(&self) -> (r: String)
        ensures
            r@ == mnemonic_spec(self.instruction),
    {
        self.instruction.mnemonic()
    }
}

/// The instructions found from `addr` on: one per word, stopping at the end
/// of memory, at an all-zero word, or at a word that does not decode.
pub open spec fn disassembly_from(mem: Seq<u8>, addr: int) -> Seq<DisassembledInstruction>
    decreases MEMORY_SIZE - addr,
{
    if addr < 0 || addr >= MEMORY_SIZE - 1 {
        Seq::empty()
    } else {
        let op = word_at(mem, addr);
        if op == 0 {
            Seq::empty()
        } else {
            match decode_spec(op) {
                Err(_) => Seq::empty(),
                Ok(ins) => seq![
                    DisassembledInstruction { address: addr as u16, opcode: op, instruction: ins },
                ] + disassembly_from(mem, addr + 2),
            }
        }
    }
}

/// Walk memory from the program start, decoding word by word until an
/// all-zero word, an undecodable word, or the end of memory. Best effort:
/// data mixed with code is not told apart.
pub fn disassemble_rom(memory: &Memory) -> (r: Result<Vec<DisassembledInstruction>, DisassemblyError>)
    ensures
        r is Ok,
        r->Ok_0@ == disassembly_from(memory@, PROGRAM_START_ADDR as int),
{
    proof {
        memory.lemma_len();
    }
    let mut instructions: Vec<DisassembledInstruction> = Vec::new();
    let mut addr: u16 = PROGRAM_START_ADDR;
    while addr < 0x1000 - 1
        invariant
            memory@.len() == MEMORY_SIZE,
            PROGRAM_START_ADDR <= addr <= MEMORY_SIZE,
            instructions@ + disassembly_from(memory@, addr as int) == disassembly_from(
                memory@,
                PROGRAM_START_ADDR as int,
            ),
        ensures
            instructions@ == disassembly_from(memory@, PROGRAM_START_ADDR as int),
        decreases MEMORY_SIZE - addr,
    {
        proof {
            if addr + 2 >= 0x1000 {
                assert(disassembly_from(memory@, addr + 2) =~= Seq::empty());
            }
        }
        let opcode = match memory.read_word(addr) {
            Ok(op) => op,
            Err(_) => {
                break;
            },
        };
        if opcode == 0x0000 {
            assert(disassembly_from(memory@, addr as int) =~= Seq::empty());
            assert(instructions@ + Seq::<DisassembledInstruction>::empty() =~= instructions@);
            break;
        }
        match decode_opcode(opcode) {
            Ok(decoded) => {
                let ghost before = instructions@;
                instructions.push(
                    DisassembledInstruction { address: addr, opcode, instruction: decoded },
                );
                assert(before + disassembly_from(memory@, addr as int) =~= instructions@
                    + disassembly_from(memory@, addr + 2));
            },
            Err(_) => {
                assert(instructions@ + Seq::<DisassembledInstruction>::empty() =~= instructions@);
                break;
            },
        }
        addr = addr + 2;
    }
    Ok(instructions)
}

/// How many of the instructions fit `p`.
#[verifier::opaque]
pub open spec fn count_where(s: Seq<DisassembledInstruction>, p: Pattern) -> nat
    decreases s.len(),
{
    if s.len() == 0 {
        0
    } else {
        count_where(s.drop_last(), p) + if matches_pattern(p, s.last().instruction) {
            1nat
        } else {
            0nat
        }
    }
}

/// Whether some instruction satisfies `p`.
pub open spec fn any_where(s: Seq<DisassembledInstruction>, p: Pattern) -> bool {
    count_where(s, p) > 0
}

/// Instruction families and the specific instructions a ROM uses.
#[derive(Debug, Default)]
pub struct InstructionAnalysis {
    pub system: usize,
    pub jump: usize,
    pub call: usize,
    pub skip_eq_imm: usize,
    pub skip_ne_imm: usize,
    pub skip_eq_reg: usize,
    pub load_imm: usize,
    pub add_imm: usize,
    pub arithmetic: usize,
    pub skip_ne_reg: usize,
    pub set_index: usize,
    pub jump_v0: usize,
    pub random: usize,
    pub draw: usize,
    pub input: usize,
    pub misc: usize,
    pub unknown: usize,
    pub cls: bool,
    pub ret: bool,
    pub sys: bool,
    pub load_reg: bool,
    pub or_reg: bool,
    pub and_reg: bool,
    pub xor_reg: bool,
    pub add_reg: bool,
    pub sub_reg: bool,
    pub shr_reg: bool,
    pub subn_reg: bool,
    pub shl_reg: bool,
    pub load_delay: bool,
    pub wait_key: bool,
    pub set_delay: bool,
    pub set_sound: bool,
    pub add_index: bool,
    pub font_sprite: bool,
    pub bcd: bool,
    pub store_regs: bool,
    pub load_regs: bool,
}

/// System instructions: CLS, RET, SYS.
pub open spec fn is_system(i: Instruction) -> bool {
    i is Cls || i is Ret || i is Sys
}

/// The register-to-register arithmetic and logic family (`8xyN`).
pub open spec fn is_arithmetic(i: Instruction) -> bool {
    ||| i is LoadReg
    ||| i is OrReg
    ||| i is AndReg
    ||| i is XorReg
    ||| i is AddReg
    ||| i is SubReg
    ||| i is SubnReg
    ||| i is ShrReg
    ||| i is ShlReg
}

/// The miscellaneous `Fx..` family.
pub open spec fn is_misc(i: Instruction) -> bool {
    ||| i is LoadDelayTimer
    ||| i is SetDelayTimer
    ||| i is SetSoundTimer
    ||| i is WaitKey
    ||| i is AddIndex
    ||| i is LoadFont
    ||| i is StoreBcd
    ||| i is StoreRegisters
    ||| i is LoadRegisters
}

/// The key-skip family.
pub open spec fn is_input(i: Instruction) -> bool {
    i is SkipKeyPressed || i is SkipKeyNotPressed
}

/// What is tallied of a disassembly: an instruction family or one instruction.
#[derive(Clone, Copy)]
pub enum Pattern {
    System,
    Jump,
    Call,
    JumpV0,
    SkipEqImm,
    SkipNeImm,
    SkipEqReg,
    SkipNeReg,
    LoadImm,
    AddImm,
    Arithmetic,
    SetIndex,
    Random,
    Draw,
    Input,
    Misc,
    Cls,
    Ret,
    Sys,
    LoadReg,
    OrReg,
    AndReg,
    XorReg,
    AddReg,
    SubReg,
    SubnReg,
    ShrReg,
    ShlReg,
    LoadDelayTimer,
    SetDelayTimer,
    SetSoundTimer,
    WaitKey,
    AddIndex,
    LoadFont,
    StoreBcd,
    StoreRegisters,
    LoadRegisters,
}

/// Whether an instruction fits a pattern.
pub open spec fn matches_pattern(p: Pattern, i: Instruction) -> bool {
    match p {
        Pattern::System => is_system(i),
        Pattern::Jump => i is Jump,
        Pattern::Call => i is Call,
        Pattern::JumpV0 => i is JumpV0,
        Pattern::SkipEqImm => i is SkipEqImm,
        Pattern::SkipNeImm => i is SkipNeImm,
        Pattern::SkipEqReg => i is SkipEqReg,
        Pattern::SkipNeReg => i is SkipNeReg,
        Pattern::LoadImm => i is LoadImm,
        Pattern::AddImm => i is AddImm,
        Pattern::Arithmetic => is_arithmetic(i),
        Pattern::SetIndex => i is SetIndex,
        Pattern::Random => i is Random,
        Pattern::Draw => i is Draw,
        Pattern::Input => is_input(i),
        Pattern::Misc => is_misc(i),
        Pattern::Cls => i is Cls,
        Pattern::Ret => i is Ret,
        Pattern::Sys => i is Sys,
        Pattern::LoadReg => i is LoadReg,
        Pattern::OrReg => i is OrReg,
        Pattern::AndReg => i is AndReg,
        Pattern::XorReg => i is XorReg,
        Pattern::AddReg => i is AddReg,
        Pattern::SubReg => i is SubReg,
        Pattern::SubnReg => i is SubnReg,
        Pattern::ShrReg => i is ShrReg,
        Pattern::ShlReg => i is ShlReg,
        Pattern::LoadDelayTimer => i is LoadDelayTimer,
        Pattern::SetDelayTimer => i is SetDelayTimer,
        Pattern::SetSoundTimer => i is SetSoundTimer,
        Pattern::WaitKey => i is WaitKey,
        Pattern::AddIndex => i is AddIndex,
        Pattern::LoadFont => i is LoadFont,
        Pattern::StoreBcd => i is StoreBcd,
        Pattern::StoreRegisters => i is StoreRegisters,
        Pattern::LoadRegisters => i is LoadRegisters,
    }
}

/// The counts of an analysis.
pub open spec fn counts_match(a: InstructionAnalysis, s: Seq<DisassembledInstruction>) -> bool {
    &&& a.system == count_where(s, Pattern::System)
    &&& a.jump == count_where(s, Pattern::Jump)
    &&& a.call == count_where(s, Pattern::Call)
    &&& a.jump_v0 == count_where(s, Pattern::JumpV0)
    &&& a.skip_eq_imm == count_where(s, Pattern::SkipEqImm)
    &&& a.skip_ne_imm == count_where(s, Pattern::SkipNeImm)
    &&& a.skip_eq_reg == count_where(s, Pattern::SkipEqReg)
    &&& a.skip_ne_reg == count_where(s, Pattern::SkipNeReg)
    &&& a.load_imm == count_where(s, Pattern::LoadImm)
    &&& a.add_imm == count_where(s, Pattern::AddImm)
    &&& a.arithmetic == count_where(s, Pattern::Arithmetic)
    &&& a.set_index == count_where(s, Pattern::SetIndex)
    &&& a.random == count_where(s, Pattern::Random)
    &&& a.draw == count_where(s, Pattern::Draw)
    &&& a.input == count_where(s, Pattern::Input)
    &&& a.misc == count_where(s, Pattern::Misc)
    &&& a.unknown == 0
}

/// The flags of an analysis.
pub open spec fn flags_match(a: InstructionAnalysis, s: Seq<DisassembledInstruction>) -> bool {
    &&& a.cls == any_where(s, Pattern::Cls)
    &&& a.ret == any_where(s, Pattern::Ret)
    &&& a.sys == any_where(s, Pattern::Sys)
    &&& a.load_reg == any_where(s, Pattern::LoadReg)
    &&& a.or_reg == any_where(s, Pattern::OrReg)
    &&& a.and_reg == any_where(s, Pattern::AndReg)
    &&& a.xor_reg == any_where(s, Pattern::XorReg)
    &&& a.add_reg == any_where(s, Pattern::AddReg)
    &&& a.sub_reg == any_where(s, Pattern::SubReg)
    &&& a.subn_reg == any_where(s, Pattern::SubnReg)
    &&& a.shr_reg == any_where(s, Pattern::ShrReg)
    &&& a.shl_reg == any_where(s, Pattern::ShlReg)
    &&& a.load_delay == any_where(s, Pattern::LoadDelayTimer)
    &&& a.set_delay == any_where(s, Pattern::SetDelayTimer)
    &&& a.set_sound == any_where(s, Pattern::SetSoundTimer)
    &&& a.wait_key == any_where(s, Pattern::WaitKey)
    &&& a.add_index == any_where(s, Pattern::AddIndex)
    &&& a.font_sprite == any_where(s, Pattern::LoadFont)
    &&& a.bcd == any_where(s, Pattern::StoreBcd)
    &&& a.store_regs == any_where(s, Pattern::StoreRegisters)
    &&& a.load_regs == any_where(s, Pattern::LoadRegisters)
}

/// Counting over one more instruction adds one exactly when it matches.
proof fn lemma_count_step(s: Seq<DisassembledInstruction>, n: int, p: Pattern)
    requires
        0 <= n < s.len(),
    ensures
        count_where(s.subrange(0, n + 1), p) == count_where(s.subrange(0, n), p) + if matches_pattern(
            p,
            s[n].instruction,
        ) {
            1nat
        } else {
            0nat
        },
        count_where(s.subrange(0, n), p) <= n,
{
    reveal(count_where);
    assert(s.subrange(0, n + 1).drop_last() =~= s.subrange(0, n));
    lemma_count_bound(s.subrange(0, n), p);
}

/// A count is at most the number of instructions.
proof fn lemma_count_bound(s: Seq<DisassembledInstruction>, p: Pattern)
    ensures
        count_where(s, p) <= s.len(),
    decreases s.len(),
{
    reveal(count_where);
    if s.len() > 0 {
        lemma_count_bound(s.drop_last(), p);
    }
}

/// Whether an instruction fits a pattern.
fn fits(p: Pattern, ins: Instruction) -> (r: bool)
    ensures
        r == matches_pattern(p, ins),
{
    match p {
        Pattern::System => matches!(ins, Instruction::Cls | Instruction::Ret | Instruction::Sys { .. }),
        Pattern::Jump => matches!(ins, Instruction::Jump { .. }),
        Pattern::Call => matches!(ins, Instruction::Call { .. }),
        Pattern::JumpV0 => matches!(ins, Instruction::JumpV0 { .. }),
        Pattern::SkipEqImm => matches!(ins, Instruction::SkipEqImm { .. }),
        Pattern::SkipNeImm => matches!(ins, Instruction::SkipNeImm { .. }),
        Pattern::SkipEqReg => matches!(ins, Instruction::SkipEqReg { .. }),
        Pattern::SkipNeReg => matches!(ins, Instruction::SkipNeReg { .. }),
        Pattern::LoadImm => matches!(ins, Instruction::LoadImm { .. }),
        Pattern::AddImm => matches!(ins, Instruction::AddImm { .. }),
        Pattern::Arithmetic => matches!(
            ins,
            Instruction::LoadReg { .. } | Instruction::OrReg { .. } | Instruction::AndReg { .. }
                | Instruction::XorReg { .. } | Instruction::AddReg { .. } | Instruction::SubReg { .. }
                | Instruction::SubnReg { .. } | Instruction::ShrReg { .. } | Instruction::ShlReg { .. }
        ),
        Pattern::SetIndex => matches!(ins, Instruction::SetIndex { .. }),
        Pattern::Random => matches!(ins, Instruction::Random { .. }),
        Pattern::Draw => matches!(ins, Instruction::Draw { .. }),
        Pattern::Input => matches!(ins, Instruction::SkipKeyPressed { .. } | Instruction::SkipKeyNotPressed { .. }),
        Pattern::Misc => matches!(
            ins,
            Instruction::LoadDelayTimer { .. } | Instruction::SetDelayTimer { .. }
                | Instruction::SetSoundTimer { .. } | Instruction::WaitKey { .. }
                | Instruction::AddIndex { .. } | Instruction::LoadFont { .. }
                | Instruction::StoreBcd { .. } | Instruction::StoreRegisters { .. }
                | Instruction::LoadRegisters { .. }
        ),
        Pattern::Cls => matches!(ins, Instruction::Cls { .. }),
        Pattern::Ret => matches!(ins, Instruction::Ret { .. }),
        Pattern::Sys => matches!(ins, Instruction::Sys { .. }),
        Pattern::LoadReg => matches!(ins, Instruction::LoadReg { .. }),
        Pattern::OrReg => matches!(ins, Instruction::OrReg { .. }),
        Pattern::AndReg => matches!(ins, Instruction::AndReg { .. }),
        Pattern::XorReg => matches!(ins, Instruction::XorReg { .. }),
        Pattern::AddReg => matches!(ins, Instruction::AddReg { .. }),
        Pattern::SubReg => matches!(ins, Instruction::SubReg { .. }),
        Pattern::SubnReg => matches!(ins, Instruction::SubnReg { .. }),
        Pattern::ShrReg => matches!(ins, Instruction::ShrReg { .. }),
        Pattern::ShlReg => matches!(ins, Instruction::ShlReg { .. }),
        Pattern::LoadDelayTimer => matches!(ins, Instruction::LoadDelayTimer { .. }),
        Pattern::SetDelayTimer => matches!(ins, Instruction::SetDelayTimer { .. }),
        Pattern::SetSoundTimer => matches!(ins, Instruction::SetSoundTimer { .. }),
        Pattern::WaitKey => matches!(ins, Instruction::WaitKey { .. }),
        Pattern::AddIndex => matches!(ins, Instruction::AddIndex { .. }),
        Pattern::LoadFont => matches!(ins, Instruction::LoadFont { .. }),
        Pattern::StoreBcd => matches!(ins, Instruction::StoreBcd { .. }),
        Pattern::StoreRegisters => matches!(ins, Instruction::StoreRegisters { .. }),
        Pattern::LoadRegisters => matches!(ins, Instruction::LoadRegisters { .. }),
    }
}

/// How many of the instructions fit a pattern.
fn count_pattern(instructions: &[DisassembledInstruction], p: Pattern) -> (r: usize)
    ensures
        r == count_where(instructions@, p),
{
    let mut count: usize = 0;
    let mut k: usize = 0;
    assert(instructions@.subrange(0, 0) =~= Seq::<DisassembledInstruction>::empty());
    proof {
        reveal(count_where);
    }
    while k < instructions.len()
        invariant
            k <= instructions@.len(),
            count == count_where(instructions@.subrange(0, k as int), p),
        decreases instructions@.len() - k,
    {
        proof {
            lemma_count_step(instructions@, k as int, p);
        }
        if fits(p, instructions[k].instruction) {
            count += 1;
        }
        k += 1;
    }
    assert(instructions@.subrange(0, k as int) =~= instructions@);
    count
}

/// Count the instruction families and note the specific instructions used.
pub fn analyze_instruction_usage(instructions: &[DisassembledInstruction]) -> (r: InstructionAnalysis)
    ensures
        counts_match(r, instructions@),
        flags_match(r, instructions@),
{
    InstructionAnalysis {
        system: count_pattern(instructions, Pattern::System),
        jump: count_pattern(instructions, Pattern::Jump),
        call: count_pattern(instructions, Pattern::Call),
        jump_v0: count_pattern(instructions, Pattern::JumpV0),
        skip_eq_imm: count_pattern(instructions, Pattern::SkipEqImm),
        skip_ne_imm: count_pattern(instructions, Pattern::SkipNeImm),
        skip_eq_reg: count_pattern(instructions, Pattern::SkipEqReg),
        skip_ne_reg: count_pattern(instructions, Pattern::SkipNeReg),
        load_imm: count_pattern(instructions, Pattern::LoadImm),
        add_imm: count_pattern(instructions, Pattern::AddImm),
        arithmetic: count_pattern(instructions, Pattern::Arithmetic),
        set_index: count_pattern(instructions, Pattern::SetIndex),
        random: count_pattern(instructions, Pattern::Random),
        draw: count_pattern(instructions, Pattern::Draw),
        input: count_pattern(instructions, Pattern::Input),
        misc: count_pattern(instructions, Pattern::Misc),
        unknown: 0,
        cls: count_pattern(instructions, Pattern::Cls) > 0,
        ret: count_pattern(instructions, Pattern::Ret) > 0,
        sys: count_pattern(instructions, Pattern::Sys) > 0,
        load_reg: count_pattern(instructions, Pattern::LoadReg) > 0,
        or_reg: count_pattern(instructions, Pattern::OrReg) > 0,
        and_reg: count_pattern(instructions, Pattern::AndReg) > 0,
        xor_reg: count_pattern(instructions, Pattern::XorReg) > 0,
        add_reg: count_pattern(instructions, Pattern::AddReg) > 0,
        sub_reg: count_pattern(instructions, Pattern::SubReg) > 0,
        subn_reg: count_pattern(instructions, Pattern::SubnReg) > 0,
        shr_reg: count_pattern(instructions, Pattern::ShrReg) > 0,
        shl_reg: count_pattern(instructions, Pattern::ShlReg) > 0,
        load_delay: count_pattern(instructions, Pattern::LoadDelayTimer) > 0,
        set_delay: count_pattern(instructions, Pattern::SetDelayTimer) > 0,
        set_sound: count_pattern(instructions, Pattern::SetSoundTimer) > 0,
        wait_key: count_pattern(instructions, Pattern::WaitKey) > 0,
        add_index: count_pattern(instructions, Pattern::AddIndex) > 0,
        font_sprite: count_pattern(instructions, Pattern::LoadFont) > 0,
        bcd: count_pattern(instructions, Pattern::StoreBcd) > 0,
        store_regs: count_pattern(instructions, Pattern::StoreRegisters) > 0,
        load_regs: count_pattern(instructions, Pattern::LoadRegisters) > 0,
    }
}

} // verus!
