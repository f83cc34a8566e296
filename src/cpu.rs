//! The interpreter: registers, program counter, call stack, timers and the
//! execution state, and the fetch/decode/execute cycle over memory, display
//! and keypad.
use vstd::prelude::*;
use crate::constants::{MEMORY_SIZE, NUM_REGISTERS, PROGRAM_START_ADDR, STACK_SIZE};
use crate::display::{blank, draw_result, draw_spec, DisplayBus, DisplayError};
use crate::input::{InputBus, InputError};
use crate::instruction::{decode_opcode, decode_spec, DecodeError, Instruction};
use crate::memory::{font_addr_spec, font_glyph_address, word_at, write_byte_spec, MemoryBus, MemoryError};

verus! {

/// CPU errors.
#[derive(Debug)]
pub enum CpuError {
    Memory(MemoryError),
    Decode(DecodeError),
    Display(DisplayError),
    Input(InputError),
    StackOverflow { max_depth: usize },
    StackUnderflow,
    InvalidRegister { register: usize },
    /// An instruction failed; carries its opcode, the address it was
    /// fetched from, and the cause.
    InstructionExecutionFailed { instruction: u16, addr: u16, source: Box<CpuError> },
    InvalidProgramCounter { pc: u16 },
}

/// Execution state.
#[derive(Debug, Clone, Copy, PartialEq, Eq, Structural)]
pub enum CpuState {
    /// Fetch, decode and execute instructions.
    Running,
    /// Blocked until a key is available; it goes to register `vx`.
    WaitingForKey { vx: usize },
}

/// The abstract CPU state.
pub struct CpuView {
    /// Registers V0..VF.
    pub v: Seq<u8>,
    /// The index register I.
    pub i: u16,
    /// The program counter.
    pub pc: u16,
    /// Return addresses, innermost call last.
    pub stack: Seq<u16>,
    pub delay: u8,
    pub sound: u8,
    pub state: CpuState,
    /// State of the generator behind the random instruction.
    pub rng: u32,
}

/// Memory contents and framebuffer, alongside the CPU state.
pub struct MachineView {
    pub cpu: CpuView,
    pub mem: Seq<u8>,
    pub fb: Seq<bool>,
}

/// What executing one instruction yields: the new machine, whether a key
/// was taken from the keypad, and the outcome.
pub struct StepView {
    pub machine: MachineView,
    pub took_key: bool,
    pub result: Result<(), CpuError>,
}

/// One xorshift step of the random generator.
pub open spec fn next_rng(s: u32) -> u32 {
    let a = s ^ (s << 13u32);
    let b = a ^ (a >> 17u32);
    b ^ (b << 5u32)
}

/// Memory after writing `data` at `addr`, `addr + 1`, ... in order, stopping
/// at the first write that fails, with that failure.
pub open spec fn store_seq(mem: Seq<u8>, protected: bool, addr: int, data: Seq<u8>) -> (
    Seq<u8>,
    Option<MemoryError>,
)
    decreases data.len(),
{
    if data.len() == 0 {
        (mem, None)
    } else {
        let (m, e) = store_seq(mem, protected, addr, data.drop_last());
        if e is Some {
            (m, e)
        } else {
            let a = addr + data.len() - 1;
            match write_byte_spec(protected, a as u16) {
                Ok(_) => (m.update(a, data.last()), None),
                Err(err) => (m, Some(err)),
            }
        }
    }
}

/// The decimal digits of a byte: hundreds, tens, units.
pub open spec fn bcd_digits(value: u8) -> Seq<u8> {
    seq![value / 100, (value / 10) % 10, value % 10]
}

/// The error of reading `count` bytes from `start` when the span does not
/// fit in memory: the first address past the end that is read.
pub open spec fn span_read_error(start: u16) -> MemoryError {
    MemoryError::OutOfBounds {
        addr: if start >= MEMORY_SIZE {
            start
        } else {
            MEMORY_SIZE as u16
        },
        max: (MEMORY_SIZE - 1) as u16,
    }
}

/// The `count` bytes of memory from `start` on.
pub open spec fn span(mem: Seq<u8>, start: int, count: nat) -> Seq<u8> {
    Seq::new(count, |k: int| mem[start + k])
}

/// A CPU state with the program counter moved on by one instruction.
pub open spec fn skip_if(c: CpuView, cond: bool) -> CpuView {
    if cond {
        CpuView { pc: (c.pc + 2) as u16, ..c }
    } else {
        c
    }
}

/// Registers with `vx` set and then VF set to a flag.
pub open spec fn set_with_flag(v: Seq<u8>, vx: usize, value: u8, flag: bool) -> Seq<u8> {
    v.update(vx as int, value).update(15, if flag {
        1u8
    } else {
        0u8
    })
}

/// Registers V0..=Vx loaded from memory at `start`.
pub open spec fn loaded_registers(v: Seq<u8>, mem: Seq<u8>, start: int, vx: usize) -> Seq<u8> {
    Seq::new(v.len(), |k: int| if k <= vx { mem[start + k] } else { v[k] })
}

/// The effect of one decoded instruction. `c` is the CPU state after the
/// fetch (program counter already advanced), `keys` the pressed keys and
/// `next_key` what a non-blocking take from the keypad would return.
pub open spec fn execute_spec(
    c: CpuView,
    mem: Seq<u8>,
    protected: bool,
    fb: Seq<bool>,
    keys: Seq<bool>,
    next_key: Option<u8>,
    ins: Instruction,
) -> StepView {
    let v = c.v;
    let same = |cpu: CpuView| StepView {
        machine: MachineView { cpu, mem, fb },
        took_key: false,
        result: Ok(()),
    };
    let fail = |cpu: CpuView, e: CpuError| StepView {
        machine: MachineView { cpu, mem, fb },
        took_key: false,
        result: Err(e),
    };
    match ins {
        Instruction::Cls => StepView {
            machine: MachineView { cpu: c, mem, fb: blank() },
            took_key: false,
            result: Ok(()),
        },
        Instruction::Ret => if c.stack.len() == 0 {
            fail(c, CpuError::StackUnderflow)
        } else {
            same(CpuView { pc: c.stack.last(), stack: c.stack.drop_last(), ..c })
        },
        Instruction::Sys { .. } => same(c),
        Instruction::Jump { addr } => same(CpuView { pc: addr, ..c }),
        Instruction::Call { addr } => if c.stack.len() >= STACK_SIZE {
            fail(c, CpuError::StackOverflow { max_depth: STACK_SIZE })
        } else {
            same(CpuView { pc: addr, stack: c.stack.push(c.pc), ..c })
        },
        Instruction::JumpV0 { addr } => same(CpuView { pc: (addr + v[0]) as u16, ..c }),
        Instruction::SkipEqImm { vx, value } => same(skip_if(c, v[vx as int] == value)),
        Instruction::SkipNeImm { vx, value } => same(skip_if(c, v[vx as int] != value)),
        Instruction::SkipEqReg { vx, vy } => same(skip_if(c, v[vx as int] == v[vy as int])),
        Instruction::SkipNeReg { vx, vy } => same(skip_if(c, v[vx as int] != v[vy as int])),
        Instruction::LoadImm { vx, value } => same(CpuView { v: v.update(vx as int, value), ..c }),
        Instruction::LoadReg { vx, vy } => same(
            CpuView { v: v.update(vx as int, v[vy as int]), ..c },
        ),
        Instruction::SetIndex { addr } => same(CpuView { i: addr, ..c }),
        Instruction::AddImm { vx, value } => same(
            CpuView { v: v.update(vx as int, ((v[vx as int] + value) % 256) as u8), ..c },
        ),
        Instruction::AddReg { vx, vy } => {
            let sum = v[vx as int] + v[vy as int];
            same(CpuView { v: set_with_flag(v, vx, (sum % 256) as u8, sum > 255), ..c })
        },
        Instruction::SubReg { vx, vy } => {
            let (a, b) = (v[vx as int], v[vy as int]);
            same(CpuView { v: set_with_flag(v, vx, ((a - b + 256) % 256) as u8, a >= b), ..c })
        },
        Instruction::SubnReg { vx, vy } => {
            let (a, b) = (v[vx as int], v[vy as int]);
            same(CpuView { v: set_with_flag(v, vx, ((b - a + 256) % 256) as u8, b >= a), ..c })
        },
        Instruction::OrReg { vx, vy } => same(
            CpuView { v: v.update(vx as int, v[vx as int] | v[vy as int]), ..c },
        ),
        Instruction::AndReg { vx, vy } => same(
            CpuView { v: v.update(vx as int, v[vx as int] & v[vy as int]), ..c },
        ),
        Instruction::XorReg { vx, vy } => same(
            CpuView { v: v.update(vx as int, v[vx as int] ^ v[vy as int]), ..c },
        ),
        Instruction::ShrReg { vx } => {
            let flagged = v.update(15, v[vx as int] & 1u8);
            same(CpuView { v: flagged.update(vx as int, flagged[vx as int] >> 1u8), ..c })
        },
        Instruction::ShlReg { vx } => {
            let flagged = v.update(15, (v[vx as int] & 0x80u8) >> 7u8);
            same(CpuView { v: flagged.update(vx as int, flagged[vx as int] << 1u8), ..c })
        },
        Instruction::Draw { vx, vy, n } => if n > 0 && c.i + n > MEMORY_SIZE {
            fail(c, CpuError::Memory(span_read_error(c.i)))
        } else {
            let rows = span(mem, c.i as int, n as nat);
            match draw_result(fb, v[vx as int], v[vy as int], rows) {
                Err(e) => fail(c, CpuError::Display(e)),
                Ok(collided) => StepView {
                    machine: MachineView {
                        cpu: CpuView {
                            v: v.update(15, if collided {
                                1u8
                            } else {
                                0u8
                            }),
                            ..c
                        },
                        mem,
                        fb: draw_spec(fb, v[vx as int], v[vy as int], rows),
                    },
                    took_key: false,
                    result: Ok(()),
                },
            }
        },
        Instruction::SkipKeyPressed { vx } => same(skip_if(c, keys[(v[vx as int] & 15u8) as int])),
        Instruction::SkipKeyNotPressed { vx } => same(
            skip_if(c, !keys[(v[vx as int] & 15u8) as int]),
        ),
        Instruction::Random { vx, mask } => {
            let s = next_rng(c.rng);
            same(CpuView { v: v.update(vx as int, (s as u8) & mask), rng: s, ..c })
        },
        Instruction::LoadDelayTimer { vx } => same(
            CpuView { v: v.update(vx as int, c.delay), ..c },
        ),
        Instruction::SetDelayTimer { vx } => same(CpuView { delay: v[vx as int], ..c }),
        Instruction::SetSoundTimer { vx } => same(CpuView { sound: v[vx as int], ..c }),
        Instruction::WaitKey { vx } => StepView {
            machine: MachineView {
                cpu: match next_key {
                    Some(k) => CpuView { v: v.update(vx as int, k), ..c },
                    None => CpuView { state: CpuState::WaitingForKey { vx }, ..c },
                },
                mem,
                fb,
            },
            took_key: true,
            result: Ok(()),
        },
        Instruction::AddIndex { vx } => same(CpuView { i: ((c.i + v[vx as int]) % 65536) as u16, ..c }),
        Instruction::LoadFont { vx } => match font_addr_spec(v[vx as int]) {
            Err(e) => fail(c, CpuError::Memory(e)),
            Ok(a) => same(CpuView { i: a, ..c }),
        },
        Instruction::StoreBcd { vx } => {
            let (m, e) = store_seq(mem, protected, c.i as int, bcd_digits(v[vx as int]));
            StepView {
                machine: MachineView { cpu: c, mem: m, fb },
                took_key: false,
                result: match e {
                    Some(err) => Err(CpuError::Memory(err)),
                    None => Ok(()),
                },
            }
        },
        Instruction::StoreRegisters { vx } => {
            let (m, e) = store_seq(mem, protected, c.i as int, v.subrange(0, vx + 1));
            StepView {
                machine: MachineView { cpu: c, mem: m, fb },
                took_key: false,
                result: match e {
                    Some(err) => Err(CpuError::Memory(err)),
                    None => Ok(()),
                },
            }
        },
        Instruction::LoadRegisters { vx } => if c.i + vx >= MEMORY_SIZE {
            fail(c, CpuError::Memory(span_read_error(c.i)))
        } else {
            same(CpuView { v: loaded_registers(v, mem, c.i as int, vx), ..c })
        },
    }
}

/// Control flow, skips, loads and the immediate add.
spec fn is_control_or_load(ins: Instruction) -> bool {
    ||| ins is Cls
    ||| ins is Ret
    ||| ins is Sys
    ||| ins is Jump
    ||| ins is Call
    ||| ins is JumpV0
    ||| ins is SkipEqImm
    ||| ins is SkipNeImm
    ||| ins is SkipEqReg
    ||| ins is SkipNeReg
    ||| ins is LoadImm
    ||| ins is LoadReg
    ||| ins is SetIndex
    ||| ins is AddImm
}

/// The error reported for a failed instruction.
pub open spec fn wrap_error(opcode: u16, addr: u16, cause: CpuError) -> CpuError {
    CpuError::InstructionExecutionFailed { instruction: opcode, addr, source: Box::new(cause) }
}

/// The effect of one cycle. A waiting CPU polls the keypad once and resumes
/// when a key is there; a running CPU fetches the opcode at the program
/// counter (which must leave room for two bytes), advances the program
/// counter by 2, decodes and executes. A failure while decoding or executing
/// is reported with the opcode and the address it was fetched from.
pub open spec fn cycle_spec(
    c: CpuView,
    mem: Seq<u8>,
    protected: bool,
    fb: Seq<bool>,
    keys: Seq<bool>,
    next_key: Option<u8>,
) -> StepView {
    match c.state {
        CpuState::WaitingForKey { vx } => StepView {
            machine: MachineView {
                cpu: match next_key {
                    Some(k) => CpuView { v: c.v.update(vx as int, k), state: CpuState::Running, ..c },
                    None => c,
                },
                mem,
                fb,
            },
            took_key: true,
            result: Ok(()),
        },
        CpuState::Running => if c.pc >= MEMORY_SIZE - 1 {
            StepView {
                machine: MachineView { cpu: c, mem, fb },
                took_key: false,
                result: Err(CpuError::InvalidProgramCounter { pc: c.pc }),
            }
        } else {
            let op = word_at(mem, c.pc as int);
            let fetched = CpuView { pc: (c.pc + 2) as u16, ..c };
            match decode_spec(op) {
                Err(e) => StepView {
                    machine: MachineView { cpu: fetched, mem, fb },
                    took_key: false,
                    result: Err(wrap_error(op, c.pc, CpuError::Decode(e))),
                },
                Ok(ins) => {
                    let s = execute_spec(fetched, mem, protected, fb, keys, next_key, ins);
                    StepView {
                        result: match s.result {
                            Ok(_) => Ok(()),
                            Err(e) => Err(wrap_error(op, c.pc, e)),
                        },
                        ..s
                    }
                },
            }
        },
    }
}

/// Read `count` bytes from `start` on; fails with the first address read
/// past the end of memory.
fn read_span<M: MemoryBus>(memory: &M, start: u16, count: usize) -> (r: Result<Vec<u8>, MemoryError>)
    requires
        memory.bytes().len() == MEMORY_SIZE,
        count <= 16,
    ensures
        count > 0 && start + count > MEMORY_SIZE ==> r == Err::<Vec<u8>, MemoryError>(
            span_read_error(start),
        ),
        !(count > 0 && start + count > MEMORY_SIZE) ==> r is Ok && r->Ok_0@ == span(
            memory.bytes(),
            start as int,
            count as nat,
        ),
{
    let mut rows: Vec<u8> = Vec::new();
    let mut k: usize = 0;
    while k < count
        invariant
            k <= count <= 16,
            memory.bytes().len() == MEMORY_SIZE,
            k == 0 || start + k <= MEMORY_SIZE,
            rows@ == span(memory.bytes(), start as int, k as nat),
        decreases count - k,
    {
        let addr: u16 = start + k as u16;
        match memory.read_byte(addr) {
            Ok(b) => {
                rows.push(b);
            },
            Err(e) => {
                return Err(e);
            },
        }
        k += 1;
        assert(rows@ =~= span(memory.bytes(), start as int, k as nat));
    }
    Ok(rows)
}

/// Writing a failing prefix leaves the failure of the whole.
proof fn lemma_store_seq_error_extends(mem: Seq<u8>, protected: bool, addr: int, data: Seq<u8>, n: int)
    requires
        0 < n <= data.len(),
        store_seq(mem, protected, addr, data.subrange(0, n)).1 is Some,
    ensures
        store_seq(mem, protected, addr, data) == store_seq(mem, protected, addr, data.subrange(0, n)),
    decreases data.len() - n,
{
    if n < data.len() {
        assert(data.drop_last().subrange(0, n) =~= data.subrange(0, n));
        lemma_store_seq_error_extends(mem, protected, addr, data.drop_last(), n);
    } else {
        assert(data.subrange(0, n) =~= data);
    }
}

/// Write `data` at `start`, `start + 1`, ... in order, stopping at the first
/// write that fails.
fn store_bytes<M: MemoryBus>(memory: &mut M, start: u16, data: &Vec<u8>) -> (r: Result<(), MemoryError>)
    requires
        data@.len() <= 16,
    ensures
        ({
            let (m, e) = store_seq(old(memory).bytes(), old(memory).write_protected(), start as int, data@);
            &&& final(memory).bytes() == m
            &&& final(memory).write_protected() == old(memory).write_protected()
            &&& r == match e {
                Some(err) => Err::<(), MemoryError>(err),
                None => Ok(()),
            }
        }),
{
    let ghost mem0 = memory.bytes();
    let ghost prot = memory.write_protected();
    let mut k: usize = 0;
    while k < data.len()
        invariant
            k <= data@.len() <= 16,
            prot == memory.write_protected(),
            prot == old(memory).write_protected(),
            mem0 == old(memory).bytes(),
            k == 0 || start + k <= MEMORY_SIZE,
            store_seq(mem0, prot, start as int, data@.subrange(0, k as int)) == (memory.bytes(), None::<MemoryError>),
        decreases data@.len() - k,
    {
        assert(data@.subrange(0, k + 1).drop_last() =~= data@.subrange(0, k as int));
        let addr: u16 = start + k as u16;
        match memory.write_byte(addr, data[k]) {
            Ok(()) => {},
            Err(e) => {
                proof {
                    lemma_store_seq_error_extends(mem0, prot, start as int, data@, k + 1);
                }
                return Err(e);
            },
        }
        k += 1;
    }
    assert(data@.subrange(0, k as int) =~= data@);
    Ok(())
}

/// The key wait: a running CPU that executes `Fx0A` while no key is
/// available moves past it and starts waiting for register `x`; while
/// waiting with no key, a cycle changes nothing, the program counter
/// included; once a key is available, a cycle stores it in that register
/// and resumes running, the program counter still unchanged.
pub proof fn lemma_wait_key(
    c: CpuView,
    mem: Seq<u8>,
    protected: bool,
    fb: Seq<bool>,
    keys: Seq<bool>,
    vx: usize,
    key: u8,
)
    requires
        vx < NUM_REGISTERS,
    ensures
        c.state is Running && c.pc < MEMORY_SIZE - 1 && decode_spec(word_at(mem, c.pc as int))
            == Ok::<Instruction, DecodeError>(Instruction::WaitKey { vx }) ==> ({
            let s = cycle_spec(c, mem, protected, fb, keys, None);
            &&& s.result is Ok
            &&& s.machine.cpu == CpuView {
                pc: (c.pc + 2) as u16,
                state: CpuState::WaitingForKey { vx },
                ..c
            }
        }),
        c.state == (CpuState::WaitingForKey { vx }) ==> ({
            let s = cycle_spec(c, mem, protected, fb, keys, None);
            &&& s.result is Ok
            &&& s.machine.cpu == c
            &&& s.machine.mem == mem
            &&& s.machine.fb == fb
        }),
        c.state == (CpuState::WaitingForKey { vx }) ==> ({
            let s = cycle_spec(c, mem, protected, fb, keys, Some(key));
            &&& s.result is Ok
            &&& s.machine.cpu == CpuView { v: c.v.update(vx as int, key), state: CpuState::Running, ..c }
            &&& s.machine.cpu.pc == c.pc
        }),
{
}

/// The call stack is bounded: a call with 16 return addresses already
/// stacked fails with `StackOverflow` and leaves the stack as it was, and a
/// return with an empty stack fails with `StackUnderflow`.
pub proof fn lemma_stack_bounds(
    c: CpuView,
    mem: Seq<u8>,
    protected: bool,
    fb: Seq<bool>,
    keys: Seq<bool>,
    next_key: Option<u8>,
    addr: u16,
)
    ensures
        c.stack.len() == STACK_SIZE ==> ({
            let s = execute_spec(c, mem, protected, fb, keys, next_key, Instruction::Call { addr });
            &&& s.result == Err::<(), CpuError>(CpuError::StackOverflow { max_depth: STACK_SIZE })
            &&& s.machine.cpu.stack == c.stack
        }),
        c.stack.len() < STACK_SIZE ==> ({
            let s = execute_spec(c, mem, protected, fb, keys, next_key, Instruction::Call { addr });
            &&& s.result is Ok
            &&& s.machine.cpu.stack == c.stack.push(c.pc)
            &&& s.machine.cpu.pc == addr
        }),
        c.stack.len() == 0 ==> execute_spec(c, mem, protected, fb, keys, next_key, Instruction::Ret).result
            == Err::<(), CpuError>(CpuError::StackUnderflow),
{
}

/// The CPU.
pub struct Cpu {
    v: [u8; NUM_REGISTERS],
    i: u16,
    pc: u16,
    sp: u8,
    stack: [u16; STACK_SIZE],
    delay_timer: u8,
    sound_timer: u8,
    state: CpuState,
    rng: u32,
}

/// Seed of the random generator after construction or reset.
pub const DEFAULT_RANDOM_SEED: u32 = 0x2545_F491;

impl View for Cpu {
    type V = CpuView;

    closed spec fn view(&self) -> CpuView {
        CpuView {
            v: self.v@,
            i: self.i,
            pc: self.pc,
            stack: self.stack@.subrange(0, self.sp as int),
            delay: self.delay_timer,
            sound: self.sound_timer,
            state: self.state,
            rng: self.rng,
        }
    }
}

/// The CPU state after construction or reset.
pub open spec fn initial_cpu() -> CpuView {
    CpuView {
        v: Seq::new(NUM_REGISTERS as nat, |k: int| 0u8),
        i: 0,
        pc: PROGRAM_START_ADDR,
        stack: Seq::empty(),
        delay: 0,
        sound: 0,
        state: CpuState::Running,
        rng: DEFAULT_RANDOM_SEED,
    }
}

impl Cpu {
    #[verifier::type_invariant]
    spec fn inv(&self) -> bool {
        &&& self.sp <= STACK_SIZE
        &&& self.state matches CpuState::WaitingForKey { vx } ==> vx < NUM_REGISTERS
    }

    /// A CPU in its initial state.
    pub fn new() -> (r: Self)
        ensures
            r@ == initial_cpu(),
    {
        let r = Cpu {
            v: [0u8; NUM_REGISTERS],
            i: 0,
            pc: PROGRAM_START_ADDR,
            sp: 0,
            stack: [0u16; STACK_SIZE],
            delay_timer: 0,
            sound_timer: 0,
            state: CpuState::Running,
            rng: DEFAULT_RANDOM_SEED,
        };
        assert(r@.v =~= initial_cpu().v);
        assert(r@.stack =~= initial_cpu().stack);
        r
    }

    /// Back to the initial state.
    pub fn reset(&mut self)
        ensures
            final(self)@ == initial_cpu(),
    {
        *self = Cpu::new();
    }

    /// Fetch the big-endian opcode at the program counter and advance the
    /// program counter by 2.
    fn fetch_instruction<M: MemoryBus>(&mut self, memory: &M) -> (r: Result<u16, CpuError>)
        ensures
            old(self)@.pc >= MEMORY_SIZE - 1 ==> r == Err::<u16, CpuError>(
                CpuError::InvalidProgramCounter { pc: old(self)@.pc },
            ) && final(self)@ == old(self)@,
            old(self)@.pc < MEMORY_SIZE - 1 ==> r == Ok::<u16, CpuError>(
                word_at(memory.bytes(), old(self)@.pc as int),
            ) && final(self)@ == (CpuView { pc: (old(self)@.pc + 2) as u16, ..old(self)@ }),
    {
        proof {
            use_type_invariant(&*self);
        }
        if self.pc as usize >= MEMORY_SIZE - 1 {
            return Err(CpuError::InvalidProgramCounter { pc: self.pc });
        }
        let high_byte = match memory.read_byte(self.pc) {
            Ok(b) => b,
            Err(e) => {
                return Err(CpuError::Memory(e));
            },
        };
        let low_byte = match memory.read_byte(self.pc + 1) {
            Ok(b) => b,
            Err(e) => {
                return Err(CpuError::Memory(e));
            },
        };
        let instruction = (high_byte as u16) * 256 + (low_byte as u16);
        self.pc = self.pc + 2;
        Ok(instruction)
    }

    /// Push the return address and jump; at most 16 levels.
    pub fn call_subroutine(&mut self, addr: u16) -> (r: Result<(), CpuError>)
        ensures
            old(self)@.stack.len() >= STACK_SIZE ==> r == Err::<(), CpuError>(
                CpuError::StackOverflow { max_depth: STACK_SIZE },
            ) && final(self)@ == old(self)@,
            old(self)@.stack.len() < STACK_SIZE ==> r == Ok::<(), CpuError>(()) && final(self)@
                == (CpuView { pc: addr, stack: old(self)@.stack.push(old(self)@.pc), ..old(self)@ }),
    {
        proof {
            use_type_invariant(&*self);
        }
        if self.sp as usize >= STACK_SIZE {
            return Err(CpuError::StackOverflow { max_depth: STACK_SIZE });
        }
        let ghost before = self.stack@;
        self.stack[self.sp as usize] = self.pc;
        self.sp = self.sp + 1;
        self.pc = addr;
        assert(self.stack@.subrange(0, self.sp as int) =~= before.subrange(0, self.sp - 1).push(
            self.stack@[self.sp - 1],
        ));
        Ok(())
    }

    /// Pop the innermost return address into the program counter.
    pub fn return_from_subroutine(&mut self) -> (r: Result<(), CpuError>)
        ensures
            old(self)@.stack.len() == 0 ==> r == Err::<(), CpuError>(CpuError::StackUnderflow)
                && final(self)@ == old(self)@,
            old(self)@.stack.len() > 0 ==> r == Ok::<(), CpuError>(()) && final(self)@ == (CpuView {
                pc: old(self)@.stack.last(),
                stack: old(self)@.stack.drop_last(),
                ..old(self)@
            }),
    {
        proof {
            use_type_invariant(&*self);
        }
        if self.sp == 0 {
            return Err(CpuError::StackUnderflow);
        }
        self.sp = self.sp - 1;
        self.pc = self.stack[self.sp as usize];
        assert(self.stack@.subrange(0, self.sp as int) =~= old(self)@.stack.drop_last());
        Ok(())
    }

    /// Execute one decoded instruction; the program counter has already been
    /// advanced past it.
    #[verifier::rlimit(40)]
    fn execute_instruction<M: MemoryBus, D: DisplayBus, I: InputBus>(
        &mut self,
        instruction: Instruction,
        memory: &mut M,
        display: &mut D,
        input: &mut I,
    ) -> (r: Result<(), CpuError>)
        requires
            instruction.operands_in_range(),
            old(self)@.pc <= MEMORY_SIZE,
            old(memory).bytes().len() == MEMORY_SIZE,
        ensures
            ({
                let s = execute_spec(
                    old(self)@,
                    old(memory).bytes(),
                    old(memory).write_protected(),
                    old(display).pixels(),
                    old(input).key_states(),
                    old(input).next_key(),
                    instruction,
                );
                &&& final(self)@ == s.machine.cpu
                &&& final(memory).bytes() == s.machine.mem
                &&& final(memory).write_protected() == old(memory).write_protected()
                &&& final(display).pixels() == s.machine.fb
                &&& r == s.result
                &&& s.took_key ==> old(input).key_taken(*final(input))
                &&& !s.took_key ==> *final(input) == *old(input)
            }),
    {
        proof {
            use_type_invariant(&*self);
        }
        match instruction {
            Instruction::Cls => {
                display.clear();
                Ok(())
            },
            Instruction::Ret => self.return_from_subroutine(),
            Instruction::Sys { .. } => Ok(()),
            Instruction::Jump { addr } => {
                self.pc = addr;
                Ok(())
            },
            Instruction::Call { addr } => self.call_subroutine(addr),
            Instruction::JumpV0 { addr } => {
                self.pc = addr + (self.v[0] as u16);
                Ok(())
            },
            Instruction::SkipEqImm { vx, value } => {
                if self.v[vx] == value {
                    self.pc = self.pc + 2;
                }
                Ok(())
            },
            Instruction::SkipNeImm { vx, value } => {
                if self.v[vx] != value {
                    self.pc = self.pc + 2;
                }
                Ok(())
            },
            Instruction::SkipEqReg { vx, vy } => {
                if self.v[vx] == self.v[vy] {
                    self.pc = self.pc + 2;
                }
                Ok(())
            },
            Instruction::SkipNeReg { vx, vy } => {
                if self.v[vx] != self.v[vy] {
                    self.pc = self.pc + 2;
                }
                Ok(())
            },
            Instruction::LoadImm { vx, value } => {
                self.v[vx] = value;
                Ok(())
            },
            Instruction::LoadReg { vx, vy } => {
                self.v[vx] = self.v[vy];
                Ok(())
            },
            Instruction::SetIndex { addr } => {
                self.i = addr;
                Ok(())
            },
            Instruction::AddImm { vx, value } => {
                self.v[vx] = self.v[vx].wrapping_add(value);
                Ok(())
            },
            _ => self.execute_alu_or_io(instruction, memory, display, input),
        }
    }

    /// The arithmetic, drawing, keypad, timer and memory-transfer
    /// instructions.
    #[verifier::rlimit(60)]
    fn execute_alu_or_io<M: MemoryBus, D: DisplayBus, I: InputBus>(
        &mut self,
        instruction: Instruction,
        memory: &mut M,
        display: &mut D,
        input: &mut I,
    ) -> (r: Result<(), CpuError>)
        requires
            instruction.operands_in_range(),
            !is_control_or_load(instruction),
            old(self)@.pc <= MEMORY_SIZE,
            old(memory).bytes().len() == MEMORY_SIZE,
        ensures
            ({
                let s = execute_spec(
                    old(self)@,
                    old(memory).bytes(),
                    old(memory).write_protected(),
                    old(display).pixels(),
                    old(input).key_states(),
                    old(input).next_key(),
                    instruction,
                );
                &&& final(self)@ == s.machine.cpu
                &&& final(memory).bytes() == s.machine.mem
                &&& final(memory).write_protected() == old(memory).write_protected()
                &&& final(display).pixels() == s.machine.fb
                &&& r == s.result
                &&& s.took_key ==> old(input).key_taken(*final(input))
                &&& !s.took_key ==> *final(input) == *old(input)
            }),
    {
        proof {
            use_type_invariant(&*self);
        }
        match instruction {
            Instruction::AddReg { vx, vy } => {
                let a = self.v[vx];
                let b = self.v[vy];
                let overflow = a as u16 + b as u16 > 255;
                self.v[vx] = a.wrapping_add(b);
                self.v[0xF] = if overflow { 1 } else { 0 };
                Ok(())
            },
            Instruction::SubReg { vx, vy } => {
                let a = self.v[vx];
                let b = self.v[vy];
                self.v[vx] = a.wrapping_sub(b);
                self.v[0xF] = if a >= b { 1 } else { 0 };
                Ok(())
            },
            Instruction::SubnReg { vx, vy } => {
                let a = self.v[vx];
                let b = self.v[vy];
                self.v[vx] = b.wrapping_sub(a);
                self.v[0xF] = if b >= a { 1 } else { 0 };
                Ok(())
            },
            Instruction::OrReg { vx, vy } => {
                self.v[vx] = self.v[vx] | self.v[vy];
                Ok(())
            },
            Instruction::AndReg { vx, vy } => {
                self.v[vx] = self.v[vx] & self.v[vy];
                Ok(())
            },
            Instruction::XorReg { vx, vy } => {
                self.v[vx] = self.v[vx] ^ self.v[vy];
                Ok(())
            },
            Instruction::ShrReg { vx } => {
                self.v[0xF] = self.v[vx] & 0x01;
                self.v[vx] = self.v[vx] >> 1;
                Ok(())
            },
            Instruction::ShlReg { vx } => {
                self.v[0xF] = (self.v[vx] & 0x80) >> 7;
                self.v[vx] = self.v[vx] << 1;
                Ok(())
            },
            Instruction::Draw { vx, vy, n } => self.execute_draw(vx, vy, n, memory, display),
            Instruction::SkipKeyPressed { vx } => {
                let reg = self.v[vx];
                let key = reg & 0x0F;
                assert(key <= 15) by (bit_vector)
                    requires
                        key == reg & 0x0Fu8,
                ;
                match input.is_key_pressed(key) {
                    Ok(pressed) => {
                        if pressed {
                            self.pc = self.pc + 2;
                        }
                        Ok(())
                    },
                    Err(e) => Err(CpuError::Input(e)),
                }
            },
            Instruction::SkipKeyNotPressed { vx } => {
                let reg = self.v[vx];
                let key = reg & 0x0F;
                assert(key <= 15) by (bit_vector)
                    requires
                        key == reg & 0x0Fu8,
                ;
                match input.is_key_pressed(key) {
                    Ok(pressed) => {
                        if !pressed {
                            self.pc = self.pc + 2;
                        }
                        Ok(())
                    },
                    Err(e) => Err(CpuError::Input(e)),
                }
            },
            Instruction::Random { vx, mask } => {
                let mut s = self.rng;
                s = s ^ (s << 13u32);
                s = s ^ (s >> 17u32);
                s = s ^ (s << 5u32);
                self.rng = s;
                self.v[vx] = (#[verifier::truncate] (s as u8)) & mask;
                Ok(())
            },
            Instruction::LoadDelayTimer { vx } => {
                self.v[vx] = self.delay_timer;
                Ok(())
            },
            Instruction::SetDelayTimer { vx } => {
                self.delay_timer = self.v[vx];
                Ok(())
            },
            Instruction::SetSoundTimer { vx } => {
                self.sound_timer = self.v[vx];
                Ok(())
            },
            Instruction::WaitKey { vx } => {
                match input.try_get_key_press() {
                    Some(key) => {
                        self.v[vx] = key;
                    },
                    None => {
                        self.state = CpuState::WaitingForKey { vx };
                    },
                }
                Ok(())
            },
            Instruction::AddIndex { vx } => {
                self.i = self.i.wrapping_add(self.v[vx] as u16);
                Ok(())
            },
            Instruction::LoadFont { vx } => {
                match font_glyph_address(self.v[vx]) {
                    Ok(addr) => {
                        self.i = addr;
                        Ok(())
                    },
                    Err(e) => Err(CpuError::Memory(e)),
                }
            },
            Instruction::StoreBcd { vx } => {
                let value = self.v[vx];
                let digits: Vec<u8> = vec![value / 100, (value / 10) % 10, value % 10];
                assert(digits@ =~= bcd_digits(value));
                match store_bytes(memory, self.i, &digits) {
                    Ok(()) => Ok(()),
                    Err(e) => Err(CpuError::Memory(e)),
                }
            },
            Instruction::StoreRegisters { vx } => {
                let mut values: Vec<u8> = Vec::new();
                let mut k: usize = 0;
                while k <= vx
                    invariant
                        vx < NUM_REGISTERS,
                        k <= vx + 1,
                        values@ == self.v@.subrange(0, k as int),
                    decreases vx + 1 - k,
                {
                    values.push(self.v[k]);
                    k += 1;
                    assert(values@ =~= self.v@.subrange(0, k as int));
                }
                match store_bytes(memory, self.i, &values) {
                    Ok(()) => Ok(()),
                    Err(e) => Err(CpuError::Memory(e)),
                }
            },
            Instruction::LoadRegisters { vx } => {
                let values = match read_span(memory, self.i, vx + 1) {
                    Ok(values) => values,
                    Err(e) => {
                        return Err(CpuError::Memory(e));
                    },
                };
                let mut regs = self.v;
                let ghost start = self.v@;
                let mut k: usize = 0;
                while k <= vx
                    invariant
                        vx < NUM_REGISTERS,
                        k <= vx + 1,
                        values@.len() == vx + 1,
                        regs@.len() == NUM_REGISTERS,
                        start.len() == NUM_REGISTERS,
                        forall|j: int|
                            0 <= j < NUM_REGISTERS ==> #[trigger] regs@[j] == if j < k {
                                values@[j]
                            } else {
                                start[j]
                            },
                    decreases vx + 1 - k,
                {
                    regs[k] = values[k];
                    k += 1;
                }
                self.v = regs;
                assert(self.v@ =~= loaded_registers(start, memory.bytes(), self.i as int, vx));
                Ok(())
            },
            _ => {
                proof {
                    assert(false);
                }
                Ok(())
            },
        }
    }

    /// Read an `n`-row sprite at I and draw it at `(Vx, Vy)`; VF reports a
    /// collision.
    fn execute_draw<M: MemoryBus, D: DisplayBus>(
        &mut self,
        vx: usize,
        vy: usize,
        n: u8,
        memory: &mut M,
        display: &mut D,
    ) -> (r: Result<(), CpuError>)
        requires
            vx < 16,
            vy < 16,
            n < 16,
            old(memory).bytes().len() == MEMORY_SIZE,
        ensures
            ({
                let s = execute_spec(
                    old(self)@,
                    old(memory).bytes(),
                    old(memory).write_protected(),
                    old(display).pixels(),
                    Seq::empty(),
                    None,
                    Instruction::Draw { vx, vy, n },
                );
                &&& final(self)@ == s.machine.cpu
                &&& *final(memory) == *old(memory)
                &&& final(display).pixels() == s.machine.fb
                &&& r == s.result
            }),
    {
        proof {
            use_type_invariant(&*self);
        }
        let x = self.v[vx];
        let y = self.v[vy];
        let sprite_data = match read_span(memory, self.i, n as usize) {
            Ok(rows) => rows,
            Err(e) => {
                return Err(CpuError::Memory(e));
            },
        };
        match display.draw_sprite(x, y, sprite_data.as_slice()) {
            Ok(collision) => {
                self.v[0xF] = if collision { 1 } else { 0 };
                Ok(())
            },
            Err(e) => Err(CpuError::Display(e)),
        }
    }

    /// Run one cycle: poll the keypad while waiting for a key, otherwise
    /// fetch, decode and execute the instruction at the program counter.
    pub fn execute_cycle<M: MemoryBus, D: DisplayBus, I: InputBus>(
        &mut self,
        memory: &mut M,
        display: &mut D,
        input: &mut I,
    ) -> (r: Result<(), CpuError>)
        requires
            old(memory).bytes().len() == MEMORY_SIZE,
        ensures
            ({
                let s = cycle_spec(
                    old(self)@,
                    old(memory).bytes(),
                    old(memory).write_protected(),
                    old(display).pixels(),
                    old(input).key_states(),
                    old(input).next_key(),
                );
                &&& final(self)@ == s.machine.cpu
                &&& final(memory).bytes() == s.machine.mem
                &&& final(memory).write_protected() == old(memory).write_protected()
                &&& final(display).pixels() == s.machine.fb
                &&& r == s.result
                &&& s.took_key ==> old(input).key_taken(*final(input))
                &&& !s.took_key ==> *final(input) == *old(input)
            }),
    {
        proof {
            use_type_invariant(&*self);
        }
        match self.state {
            CpuState::Running => {
                let instruction_addr = self.pc;
                let opcode = match self.fetch_instruction(memory) {
                    Ok(op) => op,
                    Err(e) => {
                        return Err(e);
                    },
                };
                let decoded = match decode_opcode(opcode) {
                    Ok(ins) => ins,
                    Err(e) => {
                        return Err(
                            CpuError::InstructionExecutionFailed {
                                instruction: opcode,
                                addr: instruction_addr,
                                source: Box::new(CpuError::Decode(e)),
                            },
                        );
                    },
                };
                match self.execute_instruction(decoded, memory, display, input) {
                    Ok(()) => Ok(()),
                    Err(err) => Err(
                        CpuError::InstructionExecutionFailed {
                            instruction: opcode,
                            addr: instruction_addr,
                            source: Box::new(err),
                        },
                    ),
                }
            },
            CpuState::WaitingForKey { vx } => {
                match input.try_get_key_press() {
                    Some(key) => {
                        self.v[vx] = key;
                        self.state = CpuState::Running;
                    },
                    None => {},
                }
                Ok(())
            },
        }
    }

    /// Count both timers down by one, never below zero (60Hz).
    pub fn update_timers(&mut self)
        ensures
            final(self)@ == (CpuView {
                delay: if old(self)@.delay > 0 {
                    (old(self)@.delay - 1) as u8
                } else {
                    0
                },
                sound: if old(self)@.sound > 0 {
                    (old(self)@.sound - 1) as u8
                } else {
                    0
                },
                ..old(self)@
            }),
    {
        proof {
            use_type_invariant(&*self);
        }
        if self.delay_timer > 0 {
            self.delay_timer -= 1;
        }
        if self.sound_timer > 0 {
            self.sound_timer -= 1;
        }
    }

    /// The value of a register; registers are 0-15.
    pub fn get_register(&self, register: usize) -> (r: Result<u8, CpuError>)
        ensures
            register >= NUM_REGISTERS ==> r == Err::<u8, CpuError>(
                CpuError::InvalidRegister { register },
            ),
            register < NUM_REGISTERS ==> r == Ok::<u8, CpuError>(self@.v[register as int]),
    {
        if register >= NUM_REGISTERS {
            return Err(CpuError::InvalidRegister { register });
        }
        Ok(self.v[register])
    }

    /// Set a register; registers are 0-15.
    pub fn set_register(&mut self, register: usize, value: u8) -> (r: Result<(), CpuError>)
        ensures
            register >= NUM_REGISTERS ==> r == Err::<(), CpuError>(
                CpuError::InvalidRegister { register },
            ) && final(self)@ == old(self)@,
            register < NUM_REGISTERS ==> r == Ok::<(), CpuError>(()) && final(self)@ == (CpuView {
                v: old(self)@.v.update(register as int, value),
                ..old(self)@
            }),
    {
        proof {
            use_type_invariant(&*self);
        }
        if register >= NUM_REGISTERS {
            return Err(CpuError::InvalidRegister { register });
        }
        self.v[register] = value;
        Ok(())
    }

    /// The program counter.
    pub fn get_pc(&self) -> (r: u16)
        ensures
            r == self@.pc,
    {
        self.pc
    }

    /// Move the program counter.
    pub fn set_pc(&mut self, pc: u16)
        ensures
            final(self)@ == (CpuView { pc, ..old(self)@ }),
    {
        proof {
            use_type_invariant(&*self);
        }
        self.pc = pc;
    }

    /// The index register.
    pub fn get_index(&self) -> (r: u16)
        ensures
            r == self@.i,
    {
        self.i
    }

    /// Set the index register.
    pub fn set_index(&mut self, i: u16)
        ensures
            final(self)@ == (CpuView { i, ..old(self)@ }),
    {
        proof {
            use_type_invariant(&*self);
        }
        self.i = i;
    }

    /// Number of return addresses on the call stack.
    pub fn get_stack_pointer(&self) -> (r: u8)
        ensures
            r == self@.stack.len(),
    {
        proof {
            use_type_invariant(&*self);
        }
        self.sp
    }

    /// The return address at a call level, innermost last.
    pub fn get_stack_entry(&self, level: usize) -> (r: Option<u16>)
        ensures
            level < self@.stack.len() ==> r == Some(self@.stack[level as int]),
            level >= self@.stack.len() ==> r is None,
    {
        proof {
            use_type_invariant(self);
        }
        if level < self.sp as usize {
            Some(self.stack[level])
        } else {
            None
        }
    }

    /// The delay timer.
    pub fn get_delay_timer(&self) -> (r: u8)
        ensures
            r == self@.delay,
    {
        self.delay_timer
    }

    /// Set the delay timer.
    pub fn set_delay_timer(&mut self, value: u8)
        ensures
            final(self)@ == (CpuView { delay: value, ..old(self)@ }),
    {
        proof {
            use_type_invariant(&*self);
        }
        self.delay_timer = value;
    }

    /// The sound timer.
    pub fn get_sound_timer(&self) -> (r: u8)
        ensures
            r == self@.sound,
    {
        self.sound_timer
    }

    /// Set the sound timer.
    pub fn set_sound_timer(&mut self, value: u8)
        ensures
            final(self)@ == (CpuView { sound: value, ..old(self)@ }),
    {
        proof {
            use_type_invariant(&*self);
        }
        self.sound_timer = value;
    }

    /// Seed the generator behind the random instruction.
    pub fn set_random_seed(&mut self, seed: u32)
        ensures
            final(self)@ == (CpuView { rng: seed, ..old(self)@ }),
    {
        proof {
            use_type_invariant(&*self);
        }
        self.rng = seed;
    }

    /// Sound plays while the sound timer is non-zero.
    pub fn should_beep(&self) -> (r: bool)
        ensures
            r == (self@.sound > 0),
    {
        self.sound_timer > 0
    }

    /// The execution state.
    pub fn get_state(&self) -> (r: &CpuState)
        ensures
            *r == self@.state,
    {
        &self.state
    }
}

impl Default for Cpu {
    /// A CPU in its initial state.
    fn default() -> (r: Self)
        ensures
            r@ == initial_cpu(),
    {
        Self::new()
    }
}

} // verus!
