//! The register file and the static wiring of side effects to register
//! indices, which together form the machine's instruction set.
//!
//! Each register has at most one read trigger and one write trigger, chosen
//! from a closed set of behaviours. A trigger updates the register buffer and
//! the memory directly rather than through `Registers::write`, so no trigger
//! ever fires another one and a single access never recurses.

use vstd::prelude::*;
use crate::memory::{Memory, VmError, double_at, stored};

verus! {

/// The number of registers.
pub const REGISTER_COUNT: usize = 36;

/// First addend; writing it recomputes the sum.
pub const REG_ADD_A: usize = 0;
/// Second addend; writing it recomputes the sum.
pub const REG_ADD_B: usize = 1;
/// The sum of the two addends.
pub const REG_SUM: usize = 2;
/// Minuend; writing it recomputes the difference.
pub const REG_SUB_A: usize = 3;
/// Subtrahend; writing it recomputes the difference.
pub const REG_SUB_B: usize = 4;
/// The difference of minuend and subtrahend.
pub const REG_DIFFERENCE: usize = 5;
/// First factor; writing it recomputes the product.
pub const REG_MUL_A: usize = 6;
/// Second factor; writing it recomputes the product.
pub const REG_MUL_B: usize = 7;
/// The product of the two factors.
pub const REG_PRODUCT: usize = 8;
/// Dividend; writing it recomputes quotient and remainder.
pub const REG_DIVIDEND: usize = 9;
/// Divisor; writing it recomputes quotient and remainder.
pub const REG_DIVISOR: usize = 10;
/// The truncated quotient, zero for a zero divisor.
pub const REG_QUOTIENT: usize = 11;
/// The remainder of truncated division, zero for a zero divisor.
pub const REG_REMAINDER: usize = 12;
/// Left operand of the comparison.
pub const REG_LESS_A: usize = 13;
/// Right operand of the comparison.
pub const REG_LESS_B: usize = 14;
/// One when the left operand is below the right one, else zero.
pub const REG_LESS: usize = 15;
/// The console port: a write emits a character, a read polls a key.
pub const REG_CONSOLE: usize = 16;
/// A register with no effect on write.
pub const REG_SCRATCH: usize = 18;
/// A register that reads as the line-feed code.
pub const REG_NEWLINE: usize = 19;
/// The condition of the select: zero picks the first choice.
pub const REG_CONDITION: usize = 20;
/// The choice taken when the condition is zero.
pub const REG_IF_ZERO: usize = 21;
/// The choice taken when the condition is not zero.
pub const REG_IF_NONZERO: usize = 22;
/// The chosen value.
pub const REG_SELECTED: usize = 23;
/// The memory data port: writing stores it, reading loads it.
pub const REG_MEM_VALUE: usize = 24;
/// The double-word address used by the memory data port.
pub const REG_MEM_ADDRESS: usize = 26;
/// The program counter.
pub const REG_PC: usize = 27;

/// The code a console write asks to clear the screen with.
pub const CLEAR_SCREEN_CODE: i64 = 256;
/// The line-feed code.
pub const LINE_FEED: i64 = 10;
/// What the console port reads as when no printable key is waiting.
pub const NO_KEY: i64 = -1;

/// A key reported by the console input source.
#[derive(Debug, Clone, Copy, PartialEq, Eq, Structural)]
pub enum Key {
    /// A printable key with its character.
    Printable(char),
    /// A key with no printable character (arrows, function keys, ...).
    Special,
}

/// What a register write asks the console output sink to do.
#[derive(Debug, Clone, Copy, PartialEq, Eq, Structural)]
pub enum Output {
    /// Nothing.
    Silent,
    /// Clear the screen.
    ClearScreen,
    /// Emit the character with code point `code`, after a carriage return
    /// when `carriage_return` is set.
    Emit { code: i64, carriage_return: bool },
}

/// A side effect that fires after a register is written.
#[derive(Debug, Clone, Copy, PartialEq, Eq, Structural)]
pub enum WriteTrigger {
    /// Register 2 becomes register 0 plus register 1, wrapping.
    Sum,
    /// Register 5 becomes register 3 minus register 4, wrapping.
    Difference,
    /// Register 8 becomes register 6 times register 7, wrapping.
    Product,
    /// Registers 11 and 12 become the quotient and remainder of register 9
    /// by register 10.
    Division,
    /// Register 15 becomes one when register 13 is below register 14.
    LessThan,
    /// Register 23 becomes register 21 when register 20 is zero, else
    /// register 22.
    Select,
    /// Register 16 is handed to the console output sink.
    ConsoleOut,
    /// Register 24 is stored at the double-word that register 26 names.
    MemoryStore,
}

/// A side effect that fires before a register is read.
#[derive(Debug, Clone, Copy, PartialEq, Eq, Structural)]
pub enum ReadTrigger {
    /// Register 16 becomes the code of the polled key, or minus one.
    ConsoleIn,
    /// Register 19 becomes the line-feed code.
    NewlineConstant,
    /// Register 24 becomes the double-word that register 26 names.
    MemoryLoad,
}

/// The trigger wired to writes of register `index`, if any.
pub open spec fn write_trigger(index: int) -> Option<WriteTrigger> {
    if index == 0 || index == 1 {
        Some(WriteTrigger::Sum)
    } else if index == 3 || index == 4 {
        Some(WriteTrigger::Difference)
    } else if index == 6 || index == 7 {
        Some(WriteTrigger::Product)
    } else if index == 9 || index == 10 {
        Some(WriteTrigger::Division)
    } else if index == 13 || index == 14 {
        Some(WriteTrigger::LessThan)
    } else if index == 16 {
        Some(WriteTrigger::ConsoleOut)
    } else if index == 20 || index == 21 || index == 22 {
        Some(WriteTrigger::Select)
    } else if index == 24 || index == 26 {
        Some(WriteTrigger::MemoryStore)
    } else {
        None
    }
}

/// The trigger wired to reads of register `index`, if any.
pub open spec fn read_trigger(index: int) -> Option<ReadTrigger> {
    if index == 16 {
        Some(ReadTrigger::ConsoleIn)
    } else if index == 19 {
        Some(ReadTrigger::NewlineConstant)
    } else if index == 24 {
        Some(ReadTrigger::MemoryLoad)
    } else {
        None
    }
}

/// Looks up the trigger wired to writes of register `index`.
pub fn on_write(index: usize) -> (r: Option<WriteTrigger>)
    ensures
        r == write_trigger(index as int),
{
    match index {
        0 | 1 => Some(WriteTrigger::Sum),
        3 | 4 => Some(WriteTrigger::Difference),
        6 | 7 => Some(WriteTrigger::Product),
        9 | 10 => Some(WriteTrigger::Division),
        13 | 14 => Some(WriteTrigger::LessThan),
        16 => Some(WriteTrigger::ConsoleOut),
        20 | 21 | 22 => Some(WriteTrigger::Select),
        24 | 26 => Some(WriteTrigger::MemoryStore),
        _ => None,
    }
}

/// Looks up the trigger wired to reads of register `index`.
pub fn on_read(index: usize) -> (r: Option<ReadTrigger>)
    ensures
        r == read_trigger(index as int),
{
    match index {
        16 => Some(ReadTrigger::ConsoleIn),
        19 => Some(ReadTrigger::NewlineConstant),
        24 => Some(ReadTrigger::MemoryLoad),
        _ => None,
    }
}

/// The absolute value of `x`.
pub open spec fn abs(x: int) -> int {
    if x < 0 {
        -x
    } else {
        x
    }
}

/// Division rounding toward zero, for a nonzero `y`.
pub open spec fn trunc_div(x: int, y: int) -> int {
    if (x < 0) == (y < 0) {
        abs(x) / abs(y)
    } else {
        -(abs(x) / abs(y))
    }
}

/// The remainder of division rounding toward zero: it takes the sign of `x`.
pub open spec fn trunc_rem(x: int, y: int) -> int {
    if x < 0 {
        -(abs(x) % abs(y))
    } else {
        abs(x) % abs(y)
    }
}

/// The quotient register's value: zero for a zero divisor, the truncated
/// quotient otherwise, wrapping to the minimum for the minimum over minus one.
pub open spec fn quotient(n: i64, d: i64) -> i64 {
    if d == 0 {
        0
    } else if n == i64::MIN && d == -1 {
        i64::MIN
    } else {
        trunc_div(n as int, d as int) as i64
    }
}

/// The remainder register's value: zero for a zero divisor, the remainder of
/// truncated division otherwise.
pub open spec fn remainder(n: i64, d: i64) -> i64 {
    if d == 0 {
        0
    } else if n == i64::MIN && d == -1 {
        0
    } else {
        trunc_rem(n as int, d as int) as i64
    }
}

/// Whether register value `a` names a double-word of `mem`.
pub open spec fn double_in_range(mem: Seq<u32>, a: i64) -> bool {
    0 <= a && a < mem.len() / 2
}

/// What a write of `value` to the console port asks of the output sink.
pub open spec fn console_output(value: i64) -> Output {
    if value == CLEAR_SCREEN_CODE {
        Output::ClearScreen
    } else {
        Output::Emit { code: value, carriage_return: value == LINE_FEED }
    }
}

/// What the console port reads as after polling gave `input`.
pub open spec fn key_code(input: Option<Key>) -> i64 {
    match input {
        Some(Key::Printable(c)) => c as u32 as i64,
        _ => NO_KEY,
    }
}

/// The registers after a purely arithmetic trigger recomputed its result.
pub open spec fn recomputed(t: WriteTrigger, r: Seq<i64>) -> Seq<i64> {
    match t {
        WriteTrigger::Sum => r.update(2, r[0].wrapping_add(r[1])),
        WriteTrigger::Difference => r.update(5, r[3].wrapping_sub(r[4])),
        WriteTrigger::Product => r.update(8, r[6].wrapping_mul(r[7])),
        WriteTrigger::Division => r.update(11, quotient(r[9], r[10])).update(
            12,
            remainder(r[9], r[10]),
        ),
        WriteTrigger::LessThan => r.update(
            15,
            if r[13] < r[14] {
                1i64
            } else {
                0i64
            },
        ),
        WriteTrigger::Select => r.update(
            23,
            if r[20] == 0 {
                r[21]
            } else {
                r[22]
            },
        ),
        _ => r,
    }
}

/// The outcome of write trigger `t` on registers `r` and memory `mem`: what
/// it asks of the console, or the error it stops on, and the registers and
/// memory after it.
pub open spec fn write_effect(t: WriteTrigger, r: Seq<i64>, mem: Seq<u32>) -> (
    Result<Output, VmError>,
    Seq<i64>,
    Seq<u32>,
) {
    match t {
        WriteTrigger::ConsoleOut => (Ok(console_output(r[16])), r, mem),
        WriteTrigger::MemoryStore => if double_in_range(mem, r[26]) {
            (Ok(Output::Silent), r, stored(mem, r[26] as int, r[24] as u64))
        } else {
            (Err(VmError::AddressOutOfRange), r, mem)
        },
        _ => (Ok(Output::Silent), recomputed(t, r), mem),
    }
}

/// The registers after read trigger `t` fired, or the error it stops on.
pub open spec fn read_effect(t: ReadTrigger, r: Seq<i64>, mem: Seq<u32>, input: Option<Key>) -> Result<
    Seq<i64>,
    VmError,
> {
    match t {
        ReadTrigger::ConsoleIn => Ok(r.update(16, key_code(input))),
        ReadTrigger::NewlineConstant => Ok(r.update(19, LINE_FEED)),
        ReadTrigger::MemoryLoad => if double_in_range(mem, r[26]) {
            Ok(r.update(24, double_at(mem, r[26] as int) as u64 as i64))
        } else {
            Err(VmError::AddressOutOfRange)
        },
    }
}

/// The outcome of writing `value` to register `index`: the value is stored
/// first, then the trigger wired to `index`, if any, fires. An index outside
/// the register file changes nothing.
pub open spec fn after_write(r: Seq<i64>, mem: Seq<u32>, index: int, value: i64) -> (
    Result<Output, VmError>,
    Seq<i64>,
    Seq<u32>,
) {
    if !(0 <= index < REGISTER_COUNT) {
        (Err(VmError::RegisterOutOfRange), r, mem)
    } else {
        match write_trigger(index) {
            Some(t) => write_effect(t, r.update(index, value), mem),
            None => (Ok(Output::Silent), r.update(index, value), mem),
        }
    }
}

/// The registers after reading register `index`: the trigger wired to
/// `index`, if any, fires first; the value read is then the new `index`-th
/// register. An index outside the register file is an error.
pub open spec fn after_read(r: Seq<i64>, mem: Seq<u32>, index: int, input: Option<Key>) -> Result<
    Seq<i64>,
    VmError,
> {
    if !(0 <= index < REGISTER_COUNT) {
        Err(VmError::RegisterOutOfRange)
    } else {
        match read_trigger(index) {
            Some(t) => read_effect(t, r, mem, input),
            None => Ok(r),
        }
    }
}

/// The register file: thirty-six signed 64-bit registers.
pub struct Registers {
    slots: Vec<i64>,
}

impl View for Registers {
    type V = Seq<i64>;

    closed spec fn view(&self) -> Seq<i64> {
        self.slots@
    }
}

impl Registers {
    /// The register file holds exactly `REGISTER_COUNT` registers.
    pub open spec fn wf(&self) -> bool {
        self@.len() == REGISTER_COUNT
    }

    /// A register file with every register zero.
    pub fn new() -> (r: Registers)
        ensures
            r.wf(),
            r@ == Seq::new(REGISTER_COUNT as nat, |i: int| 0i64),
    {
        let mut slots: Vec<i64> = Vec::new();
        let mut i: usize = 0;
        while i < REGISTER_COUNT
            invariant
                i <= REGISTER_COUNT,
                slots@ == Seq::new(i as nat, |j: int| 0i64),
            decreases REGISTER_COUNT - i,
        {
            slots.push(0);
            i = i + 1;
        }
        Registers { slots }
    }

    /// The value held by register `index`, without firing any trigger.
    pub fn get(&self, index: usize) -> (v: i64)
        requires
            self.wf(),
            index < REGISTER_COUNT,
        ensures
            v == self@[index as int],
    {
        self.slots[index]
    }

    fn fire_write(&mut self, t: WriteTrigger, mem: &mut Memory) -> (r: Result<Output, VmError>)
        requires
            old(self).wf(),
        ensures
            final(self).wf(),
            (r, final(self)@, final(mem)@) == write_effect(t, old(self)@, old(mem)@),
    {
        match t {
            WriteTrigger::Sum => {
                let v = self.slots[0].wrapping_add(self.slots[1]);
                self.slots.set(2, v);
            },
            WriteTrigger::Difference => {
                let v = self.slots[3].wrapping_sub(self.slots[4]);
                self.slots.set(5, v);
            },
            WriteTrigger::Product => {
                let v = self.slots[6].wrapping_mul(self.slots[7]);
                self.slots.set(8, v);
            },
            WriteTrigger::Division => {
                let q = divide(self.slots[9], self.slots[10]);
                let m = modulo(self.slots[9], self.slots[10]);
                self.slots.set(11, q);
                self.slots.set(12, m);
            },
            WriteTrigger::LessThan => {
                let v: i64 = if self.slots[13] < self.slots[14] {
                    1
                } else {
                    0
                };
                self.slots.set(15, v);
            },
            WriteTrigger::Select => {
                let v = if self.slots[20] == 0 {
                    self.slots[21]
                } else {
                    self.slots[22]
                };
                self.slots.set(23, v);
            },
            WriteTrigger::ConsoleOut => {
                let v = self.slots[REG_CONSOLE];
                if v == CLEAR_SCREEN_CODE {
                    return Ok(Output::ClearScreen);
                }
                return Ok(Output::Emit { code: v, carriage_return: v == LINE_FEED });
            },
            WriteTrigger::MemoryStore => {
                let addr = self.slots[REG_MEM_ADDRESS];
                if addr < 0 {
                    return Err(VmError::AddressOutOfRange);
                }
                return match mem.store_double(addr as u64, self.slots[REG_MEM_VALUE] as u64) {
                    Ok(()) => Ok(Output::Silent),
                    Err(e) => Err(e),
                };
            },
        }
        Ok(Output::Silent)
    }

    fn fire_read(&mut self, t: ReadTrigger, mem: &Memory, input: Option<Key>) -> (r: Result<
        (),
        VmError,
    >)
        requires
            old(self).wf(),
        ensures
            final(self).wf(),
            match read_effect(t, old(self)@, mem@, input) {
                Ok(regs) => r is Ok && final(self)@ == regs,
                Err(e) => r == Err::<(), VmError>(e) && final(self)@ == old(self)@,
            },
    {
        match t {
            ReadTrigger::ConsoleIn => {
                let code: i64 = match input {
                    Some(Key::Printable(c)) => (c as u32) as i64,
                    _ => NO_KEY,
                };
                self.slots.set(REG_CONSOLE, code);
            },
            ReadTrigger::NewlineConstant => {
                self.slots.set(REG_NEWLINE, LINE_FEED);
            },
            ReadTrigger::MemoryLoad => {
                let addr = self.slots[REG_MEM_ADDRESS];
                if addr < 0 {
                    return Err(VmError::AddressOutOfRange);
                }
                match mem.load_double(addr as u64) {
                    Ok(v) => self.slots.set(REG_MEM_VALUE, v as i64),
                    Err(e) => return Err(e),
                }
            },
        }
        Ok(())
    }

    /// Writes `value` to register `index`, then fires the trigger wired to
    /// writes of `index`, if any.
    pub fn write(&mut self, index: usize, value: i64, mem: &mut Memory) -> (r: Result<
        Output,
        VmError,
    >)
        requires
            old(self).wf(),
        ensures
            final(self).wf(),
            (r, final(self)@, final(mem)@) == after_write(
                old(self)@,
                old(mem)@,
                index as int,
                value,
            ),
    {
        if index >= REGISTER_COUNT {
            return Err(VmError::RegisterOutOfRange);
        }
        self.slots.set(index, value);
        match on_write(index) {
            Some(t) => self.fire_write(t, mem),
            None => Ok(Output::Silent),
        }
    }

    /// Reads register `index`: fires the trigger wired to reads of `index`,
    /// if any, and returns the register's value afterwards. `input` is what
    /// polling the console gave; only the console port consults it.
    pub fn read(&mut self, index: usize, mem: &Memory, input: Option<Key>) -> (r: Result<
        i64,
        VmError,
    >)
        requires
            old(self).wf(),
        ensures
            final(self).wf(),
            match after_read(old(self)@, mem@, index as int, input) {
                Ok(regs) => r == Ok::<i64, VmError>(regs[index as int]) && final(self)@ == regs,
                Err(e) => r == Err::<i64, VmError>(e) && final(self)@ == old(self)@,
            },
    {
        if index >= REGISTER_COUNT {
            return Err(VmError::RegisterOutOfRange);
        }
        match on_read(index) {
            Some(t) => {
                match self.fire_read(t, mem, input) {
                    Ok(()) => {},
                    Err(e) => return Err(e),
                }
            },
            None => {},
        }
        Ok(self.slots[index])
    }
}

/// The quotient register's value for dividend `n` and divisor `d`.
pub fn divide(n: i64, d: i64) -> (q: i64)
    ensures
        q == quotient(n, d),
{
    if d == 0 {
        0
    } else if n == i64::MIN && d == -1 {
        i64::MIN
    } else {
        proof {
            lemma_trunc_div_bounded(n, d);
        }
        match n.checked_div(d) {
            Some(q) => q,
            None => i64::MIN,
        }
    }
}

/// The remainder register's value for dividend `n` and divisor `d`.
pub fn modulo(n: i64, d: i64) -> (m: i64)
    ensures
        m == remainder(n, d),
{
    if d == 0 {
        0
    } else if n == i64::MIN && d == -1 {
        0
    } else {
        proof {
            lemma_trunc_rem_bounded(n, d);
        }
        match n.checked_rem(d) {
            Some(m) => m,
            None => 0,
        }
    }
}

proof fn lemma_trunc_div_bounded(n: i64, d: i64)
    requires
        d != 0,
        !(n == i64::MIN && d == -1),
    ensures
        i64::MIN <= trunc_div(n as int, d as int) <= i64::MAX,
{
    let a = abs(n as int);
    let b = abs(d as int);
    assert(0 <= a / b <= a) by (nonlinear_arith)
        requires
            a >= 0,
            b >= 1,
    ;
    if b == 1 {
        assert(a / b == a) by (nonlinear_arith)
            requires
                b == 1,
        ;
    } else {
        assert(a / b <= a / 2) by (nonlinear_arith)
            requires
                a >= 0,
                b >= 2,
        ;
    }
}

proof fn lemma_trunc_rem_bounded(n: i64, d: i64)
    requires
        d != 0,
    ensures
        i64::MIN <= trunc_rem(n as int, d as int) <= i64::MAX,
        n == 0 ==> trunc_rem(n as int, d as int) == 0,
{
    let a = abs(n as int);
    let b = abs(d as int);
    assert(0 <= a % b < b) by (nonlinear_arith)
        requires
            a >= 0,
            b >= 1,
    ;
    assert(0int % b == 0) by (nonlinear_arith)
        requires
            b >= 1,
    ;
}

} // verus!
