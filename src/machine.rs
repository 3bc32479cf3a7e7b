//! The execution engine: fetch, decode and execute until the program counter
//! leaves the memory.

use vstd::prelude::*;
use crate::memory::{Memory, VmError, loaded, source_half, destination_half};
use crate::registers::{
    Registers,
    Key,
    Output,
    REGISTER_COUNT,
    REG_CONSOLE,
    REG_PC,
    after_read,
    after_write,
};

verus! {

/// The flag in an instruction's source half that marks an immediate value.
pub const IMMEDIATE_FLAG: u16 = 0x8000;

/// The bits of an instruction's source half that hold an immediate value.
pub const IMMEDIATE_MASK: u16 = 0x7FFF;

/// What one step of the machine did.
#[derive(Debug, Clone, Copy, PartialEq, Eq, Structural)]
pub enum Step {
    /// The program counter lay outside the memory: the program is over.
    Halted,
    /// One instruction ran; this is what it asks of the console.
    Ran(Output),
}

/// The address of the next instruction, if it lies inside the memory.
pub open spec fn fetch_address(regs: Seq<i64>, mem: Seq<u32>) -> Option<int> {
    let pc = regs[REG_PC as int];
    if 0 <= pc < mem.len() {
        Some(pc as int)
    } else {
        None
    }
}

/// Whether the source half `src` of an instruction holds an immediate value.
pub open spec fn is_immediate(src: int) -> bool {
    src >= IMMEDIATE_FLAG as int
}

/// Whether the next step reads the console port, and so needs a key poll.
pub open spec fn polls_console(regs: Seq<i64>, mem: Seq<u32>) -> bool {
    match fetch_address(regs, mem) {
        Some(a) => source_half(mem[a]) == REG_CONSOLE as int,
        None => false,
    }
}

/// One step of the machine from registers `regs` and memory `mem`, with
/// `input` what polling the console gave: the step's outcome and the
/// registers and memory after it.
///
/// A program counter outside the memory halts with nothing changed.
/// Otherwise the instruction at the program counter is decoded; its source
/// is an immediate or a register read (firing read triggers); the program
/// counter is advanced; then the source value is written to the destination
/// register (firing write triggers, which may set the program counter).
pub open spec fn step_outcome(regs: Seq<i64>, mem: Seq<u32>, input: Option<Key>) -> (
    Result<Step, VmError>,
    Seq<i64>,
    Seq<u32>,
) {
    match fetch_address(regs, mem) {
        None => (Ok(Step::Halted), regs, mem),
        Some(a) => {
            let src = source_half(mem[a]);
            let dst = destination_half(mem[a]);
            let fetched: Result<(Seq<i64>, i64), VmError> = if is_immediate(src) {
                Ok((regs, (src - IMMEDIATE_FLAG as int) as i64))
            } else {
                match after_read(regs, mem, src, input) {
                    Ok(r) => Ok((r, r[src])),
                    Err(e) => Err(e),
                }
            };
            match fetched {
                Err(e) => (Err(e), regs, mem),
                Ok((r, value)) => {
                    let advanced = r.update(REG_PC as int, (a + 1) as i64);
                    let (res, r2, m2) = after_write(advanced, mem, dst, value);
                    match res {
                        Ok(out) => (Ok(Step::Ran(out)), r2, m2),
                        Err(e) => (Err(e), r2, m2),
                    }
                },
            }
        },
    }
}

/// The machine: a memory and a register file, both zero when created.
pub struct Machine {
    memory: Memory,
    registers: Registers,
}

proof fn lemma_source_flag(src: u16)
    ensures
        ((src & IMMEDIATE_FLAG) != 0) == (src >= IMMEDIATE_FLAG),
        src >= IMMEDIATE_FLAG ==> (src & IMMEDIATE_MASK) == src - IMMEDIATE_FLAG,
{
    assert(((src & 0x8000u16) != 0) == (src >= 0x8000u16)) by (bit_vector);
    assert(src >= 0x8000u16 ==> (src & 0x7FFFu16) == src - 0x8000u16) by (bit_vector);
}

impl Machine {
    /// The machine's memory words.
    pub closed spec fn mem(&self) -> Seq<u32> {
        self.memory@
    }

    /// The machine's registers.
    pub closed spec fn regs(&self) -> Seq<i64> {
        self.registers@
    }

    /// The register file has its fixed size, and every address the program
    /// counter can hold past a word of memory fits in a register.
    pub closed spec fn wf(&self) -> bool {
        &&& self.registers.wf()
        &&& self.memory@.len() <= i64::MAX
    }

    /// A machine with `capacity` words of memory, all zero, and all
    /// registers zero.
    pub fn new(capacity: usize) -> (m: Machine)
        requires
            capacity <= i64::MAX,
        ensures
            m.wf(),
            m.mem() == Seq::new(capacity as nat, |i: int| 0u32),
            m.regs() == Seq::new(REGISTER_COUNT as nat, |i: int| 0i64),
    {
        Machine { memory: Memory::new(capacity), registers: Registers::new() }
    }

    /// The machine's memory.
    pub fn memory(&self) -> (m: &Memory)
        ensures
            m@ == self.mem(),
    {
        &self.memory
    }

    /// The machine's register file.
    pub fn registers(&self) -> (r: &Registers)
        requires
            self.wf(),
        ensures
            r.wf(),
            r@ == self.regs(),
    {
        &self.registers
    }

    /// Loads a program image into memory from word `base` on (see
    /// `Memory::bulk_load`).
    pub fn load_program(&mut self, bytes: &[u8], base: usize)
        requires
            old(self).wf(),
        ensures
            final(self).wf(),
            final(self).mem() == loaded(old(self).mem(), bytes@, base as int),
            final(self).regs() == old(self).regs(),
    {
        self.memory.bulk_load(bytes, base);
    }

    /// Writes `value` to register `index`, firing its write trigger.
    pub fn write_register(&mut self, index: usize, value: i64) -> (r: Result<Output, VmError>)
        requires
            old(self).wf(),
        ensures
            final(self).wf(),
            (r, final(self).regs(), final(self).mem()) == after_write(
                old(self).regs(),
                old(self).mem(),
                index as int,
                value,
            ),
    {
        self.registers.write(index, value, &mut self.memory)
    }

    /// Whether the next step reads the console port. A host polls the input
    /// source for the next step exactly when this holds.
    pub fn wants_input(&self) -> (b: bool)
        requires
            self.wf(),
        ensures
            b == polls_console(self.regs(), self.mem()),
    {
        let pc = self.registers.get(REG_PC);
        if pc < 0 || pc as u64 >= self.memory.capacity() as u64 {
            return false;
        }
        match self.memory.load_opcode(pc as u64) {
            Ok((src, _)) => src as usize == REG_CONSOLE,
            Err(_) => false,
        }
    }

    /// Runs one instruction, or halts when the program counter lies outside
    /// the memory. `input` is what polling the console gave; it is consulted
    /// only when the instruction reads the console port.
    pub fn step(&mut self, input: Option<Key>) -> (r: Result<Step, VmError>)
        requires
            old(self).wf(),
        ensures
            final(self).wf(),
            (r, final(self).regs(), final(self).mem()) == step_outcome(
                old(self).regs(),
                old(self).mem(),
                input,
            ),
    {
        let pc = match self.registers.read(REG_PC, &self.memory, None) {
            Ok(v) => v,
            Err(e) => return Err(e),
        };
        if pc < 0 || pc as u64 >= self.memory.capacity() as u64 {
            return Ok(Step::Halted);
        }
        let (src, dst) = match self.memory.load_opcode(pc as u64) {
            Ok(halves) => halves,
            Err(e) => return Err(e),
        };
        proof {
            lemma_source_flag(src);
        }
        let value: i64 = if src & IMMEDIATE_FLAG != 0 {
            (src & IMMEDIATE_MASK) as i64
        } else {
            match self.registers.read(src as usize, &self.memory, input) {
                Ok(v) => v,
                Err(e) => return Err(e),
            }
        };
        match self.registers.write(REG_PC, pc + 1, &mut self.memory) {
            Ok(_) => {},
            Err(e) => return Err(e),
        }
        match self.registers.write(dst as usize, value, &mut self.memory) {
            Ok(out) => Ok(Step::Ran(out)),
            Err(e) => Err(e),
        }
    }
}

} // verus!
