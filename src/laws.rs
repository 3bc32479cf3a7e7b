//! Properties of the machine that relate several operations.

use vstd::prelude::*;
use crate::memory::{VmError, double_at, stored};
use crate::registers::{Key, Output, REGISTER_COUNT, after_write};
use crate::machine::{Step, fetch_address, polls_console, step_outcome};

verus! {

/// Writing `a` to the first addend and then `b` to the second leaves the
/// wrapped sum `a + b` in the sum register, and so does writing them in the
/// other order; when `a + b` fits in a register the sum is exact.
pub proof fn law_sum_after_writes(regs: Seq<i64>, mem: Seq<u32>, a: i64, b: i64)
    requires
        regs.len() == REGISTER_COUNT,
    ensures
        after_write(after_write(regs, mem, 0, a).1, mem, 1, b).1[2] == a.wrapping_add(b),
        after_write(after_write(regs, mem, 1, b).1, mem, 0, a).1[2] == a.wrapping_add(b),
        i64::MIN <= a + b <= i64::MAX ==> after_write(after_write(regs, mem, 0, a).1, mem, 1, b).1[2]
            == a + b,
{
}

/// Writing any dividend and a zero divisor, in either order, leaves zero in
/// both the quotient and the remainder register, without an error.
pub proof fn law_division_by_zero(regs: Seq<i64>, mem: Seq<u32>, a: i64)
    requires
        regs.len() == REGISTER_COUNT,
    ensures
        after_write(after_write(regs, mem, 9, a).1, mem, 10, 0).0 is Ok,
        after_write(after_write(regs, mem, 9, a).1, mem, 10, 0).1[11] == 0,
        after_write(after_write(regs, mem, 9, a).1, mem, 10, 0).1[12] == 0,
        after_write(after_write(regs, mem, 10, 0).1, mem, 9, a).0 is Ok,
        after_write(after_write(regs, mem, 10, 0).1, mem, 9, a).1[11] == 0,
        after_write(after_write(regs, mem, 10, 0).1, mem, 9, a).1[12] == 0,
{
}

/// With `p` and `q` in the two choice registers, writing `v` to the condition
/// register selects `p` when `v` is zero and `q` for any other `v`.
pub proof fn law_select(regs: Seq<i64>, mem: Seq<u32>, v: i64, p: i64, q: i64)
    requires
        regs.len() == REGISTER_COUNT,
        regs[21] == p,
        regs[22] == q,
    ensures
        after_write(regs, mem, 20, v).1[23] == if v == 0 {
            p
        } else {
            q
        },
{
}

/// Storing a double-word and loading it back at the same address gives the
/// value stored.
pub proof fn law_double_round_trip(mem: Seq<u32>, addr: int, v: u64)
    requires
        0 <= addr < mem.len() / 2,
    ensures
        double_at(stored(mem, addr, v), addr) == v,
{
    assert(v as int == (v as int / 0x1_0000_0000) * 0x1_0000_0000 + v as int % 0x1_0000_0000);
}

/// An instruction that writes the immediate `t` into the program counter
/// makes the next fetch happen at `t`, not at the following word.
pub proof fn law_jump(regs: Seq<i64>, mem: Seq<u32>, input: Option<Key>, t: int)
    requires
        regs.len() == REGISTER_COUNT,
        0 <= t < 0x8000,
        fetch_address(regs, mem) matches Some(a) && mem[a] as int == (0x8000 + t) * 0x1_0000 + 27,
    ensures
        step_outcome(regs, mem, input).0 == Ok::<Step, VmError>(Step::Ran(Output::Silent)),
        step_outcome(regs, mem, input).1[27] == t,
        t < mem.len() ==> fetch_address(step_outcome(regs, mem, input).1, mem) == Some(t),
{
}

/// A program counter outside the memory (at its capacity, past it, or
/// negative) halts the machine and leaves registers and memory untouched.
pub proof fn law_halt(regs: Seq<i64>, mem: Seq<u32>, input: Option<Key>)
    requires
        regs.len() == REGISTER_COUNT,
        regs[27] >= mem.len() || regs[27] < 0,
    ensures
        step_outcome(regs, mem, input) == (Ok::<Step, VmError>(Step::Halted), regs, mem),
{
}

/// A step that does not read the console port does not depend on what
/// polling the console would have given.
pub proof fn law_input_only_when_polled(
    regs: Seq<i64>,
    mem: Seq<u32>,
    input: Option<Key>,
    other: Option<Key>,
)
    requires
        regs.len() == REGISTER_COUNT,
        !polls_console(regs, mem),
    ensures
        step_outcome(regs, mem, input) == step_outcome(regs, mem, other),
{
}

} // verus!
