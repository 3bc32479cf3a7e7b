//! Flat word memory with double-word and opcode views and a program loader.

use vstd::prelude::*;

verus! {

/// Why a memory or register access could not be carried out.
#[derive(Debug, Clone, Copy, PartialEq, Eq, Structural)]
pub enum VmError {
    /// A word or double-word address lies outside the memory.
    AddressOutOfRange,
    /// A register index lies outside the register file.
    RegisterOutOfRange,
}

/// The memory size a machine is usually given, in words.
pub const MEMORY_CAPACITY: usize = 1_048_576;

/// Two to the thirty-second: the weight of the high word of a double-word.
pub const WORD_SPAN: u64 = 0x1_0000_0000;

/// The value of a double-word whose high word is `high` and low word `low`.
pub open spec fn double_value(high: u32, low: u32) -> int {
    high as int * WORD_SPAN as int + low as int
}

/// The source half of an instruction word: its upper sixteen bits.
pub open spec fn source_half(w: u32) -> int {
    w as int / 0x1_0000
}

/// The destination half of an instruction word: its lower sixteen bits.
pub open spec fn destination_half(w: u32) -> int {
    w as int % 0x1_0000
}

/// The word that four bytes spell in big-endian order.
pub open spec fn be_word(b0: u8, b1: u8, b2: u8, b3: u8) -> int {
    b0 as int * 0x100_0000 + b1 as int * 0x1_0000 + b2 as int * 0x100 + b3 as int
}

/// The word that the loader decodes from the `k`-th quartet of `bytes`.
pub open spec fn quartet(bytes: Seq<u8>, k: int) -> int {
    be_word(bytes[4 * k], bytes[4 * k + 1], bytes[4 * k + 2], bytes[4 * k + 3])
}

/// The memory after loading `bytes` at `base`: each complete quartet becomes
/// one word from `base` on, as far as the memory reaches; a trailing partial
/// quartet is dropped, and every other word is kept.
pub open spec fn loaded(mem: Seq<u32>, bytes: Seq<u8>, base: int) -> Seq<u32> {
    Seq::new(
        mem.len(),
        |i: int|
            if base <= i < base + bytes.len() / 4 {
                quartet(bytes, i - base) as u32
            } else {
                mem[i]
            },
    )
}

/// The memory after storing `value` at double-word address `addr`.
pub open spec fn stored(mem: Seq<u32>, addr: int, value: u64) -> Seq<u32> {
    mem.update(2 * addr, (value as int / WORD_SPAN as int) as u32).update(
        2 * addr + 1,
        (value as int % WORD_SPAN as int) as u32,
    )
}

/// The double-word at double-word address `addr`.
pub open spec fn double_at(mem: Seq<u32>, addr: int) -> int {
    double_value(mem[2 * addr], mem[2 * addr + 1])
}

proof fn lemma_split_double(v: u64)
    ensures
        double_value((v >> 32u64) as u32, v as u32) == v as int,
        (v >> 32u64) as u32 as int == v as int / WORD_SPAN as int,
        v as u32 as int == v as int % WORD_SPAN as int,
{
    assert((v >> 32u64) as u32 == v / 0x1_0000_0000) by (bit_vector);
    assert(v as u32 == v % 0x1_0000_0000) by (bit_vector);
}

proof fn lemma_join_double(high: u32, low: u32)
    ensures
        ((high as u64) << 32u64) | (low as u64) == double_value(high, low),
{
    assert(((high as u64) << 32u64) | (low as u64) == (high as u64) * 0x1_0000_0000 + (low as u64))
        by (bit_vector);
}

proof fn lemma_split_word(w: u32)
    ensures
        (w >> 16u32) as u16 as int == source_half(w),
        (w & 0xFFFFu32) as u16 as int == destination_half(w),
{
    assert((w >> 16u32) as u16 == w / 0x1_0000) by (bit_vector);
    assert((w & 0xFFFFu32) as u16 == w % 0x1_0000) by (bit_vector);
}

/// Fixed-capacity storage of 32-bit words, all zero when created.
pub struct Memory {
    words: Vec<u32>,
}

impl View for Memory {
    type V = Seq<u32>;

    closed spec fn view(&self) -> Seq<u32> {
        self.words@
    }
}

impl Memory {
    /// A memory of `capacity` words, each zero.
    pub fn new(capacity: usize) -> (m: Memory)
        ensures
            m@ == Seq::new(capacity as nat, |i: int| 0u32),
    {
        let mut words: Vec<u32> = Vec::new();
        let mut i: usize = 0;
        while i < capacity
            invariant
                i <= capacity,
                words@ == Seq::new(i as nat, |j: int| 0u32),
            decreases capacity - i,
        {
            words.push(0);
            i = i + 1;
        }
        Memory { words }
    }

    /// The number of words the memory holds.
    pub fn capacity(&self) -> (n: usize)
        ensures
            n == self@.len(),
    {
        self.words.len()
    }

    /// The word at `addr`.
    pub fn load_word(&self, addr: u64) -> (r: Result<u32, VmError>)
        ensures
            addr < self@.len() ==> r == Ok::<u32, VmError>(self@[addr as int]),
            addr >= self@.len() ==> r == Err::<u32, VmError>(VmError::AddressOutOfRange),
    {
        if addr < self.words.len() as u64 {
            Ok(self.words[addr as usize])
        } else {
            Err(VmError::AddressOutOfRange)
        }
    }

    /// Loads a program image: each complete quartet of `bytes`, read
    /// big-endian, becomes one word, starting at word `base` and stopping at
    /// the end of the memory. A trailing partial quartet is dropped.
    pub fn bulk_load(&mut self, bytes: &[u8], base: usize)
        ensures
            final(self)@ == loaded(old(self)@, bytes@, base as int),
    {
        let cap = self.words.len();
        if base >= cap {
            assert(self@ =~= loaded(old(self)@, bytes@, base as int));
            return;
        }
        let len = bytes.len();
        let n = len / 4;
        let mut k: usize = 0;
        while k < n && k < cap - base
            invariant
                base < cap,
                len == bytes@.len(),
                n == len / 4,
                k <= n,
                k <= cap - base,
                self@.len() == cap,
                cap == old(self)@.len(),
                forall|i: int|
                    0 <= i < cap ==> #[trigger] self@[i] == if base <= i < base + k {
                        quartet(bytes@, i - base) as u32
                    } else {
                        old(self)@[i]
                    },
            decreases n - k,
        {
            let j: usize = 4 * k;
            let w: u32 = (bytes[j] as u32) * 0x100_0000 + (bytes[j + 1] as u32) * 0x1_0000
                + (bytes[j + 2] as u32) * 0x100 + (bytes[j + 3] as u32);
            self.words.set(base + k, w);
            k = k + 1;
        }
        assert(self@ =~= loaded(old(self)@, bytes@, base as int));
    }

    /// The double-word at double-word address `addr`: the word at `2 * addr`
    /// is its high half and the word at `2 * addr + 1` its low half.
    pub fn load_double(&self, addr: u64) -> (r: Result<u64, VmError>)
        ensures
            addr < self@.len() / 2 ==> (r is Ok && r->Ok_0 as int == double_at(self@, addr as int)),
            addr >= self@.len() / 2 ==> r == Err::<u64, VmError>(VmError::AddressOutOfRange),
    {
        if addr < (self.words.len() / 2) as u64 {
            let high = self.words[(2 * addr) as usize];
            let low = self.words[(2 * addr + 1) as usize];
            proof {
                lemma_join_double(high, low);
            }
            Ok(((high as u64) << 32u64) | (low as u64))
        } else {
            Err(VmError::AddressOutOfRange)
        }
    }

    /// Stores `value` at double-word address `addr`: its high half at word
    /// `2 * addr` and its low half at word `2 * addr + 1`.
    pub fn store_double(&mut self, addr: u64, value: u64) -> (r: Result<(), VmError>)
        ensures
            addr < old(self)@.len() / 2 ==> r is Ok && final(self)@ == stored(
                old(self)@,
                addr as int,
                value,
            ),
            addr >= old(self)@.len() / 2 ==> r == Err::<(), VmError>(VmError::AddressOutOfRange)
                && final(self)@ == old(self)@,
    {
        if addr < (self.words.len() / 2) as u64 {
            proof {
                lemma_split_double(value);
            }
            self.words.set((2 * addr) as usize, (value >> 32u64) as u32);
            self.words.set((2 * addr + 1) as usize, value as u32);
            Ok(())
        } else {
            Err(VmError::AddressOutOfRange)
        }
    }

    /// The two halves of the instruction word at `addr`: the source half
    /// (upper sixteen bits) and the destination half (lower sixteen bits).
    pub fn load_opcode(&self, addr: u64) -> (r: Result<(u16, u16), VmError>)
        ensures
            addr < self@.len() ==> (r is Ok && r->Ok_0.0 as int == source_half(self@[addr as int])
                && r->Ok_0.1 as int == destination_half(self@[addr as int])),
            addr >= self@.len() ==> r == Err::<(u16, u16), VmError>(VmError::AddressOutOfRange),
    {
        if addr < self.words.len() as u64 {
            let w = self.words[addr as usize];
            proof {
                lemma_split_word(w);
            }
            Ok(((w >> 16u32) as u16, (w & 0xFFFFu32) as u16))
        } else {
            Err(VmError::AddressOutOfRange)
        }
    }
}

} // verus!
