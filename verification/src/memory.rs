//! The linear memory: a fixed array of bytes with little-endian word
//! access.

use vstd::prelude::*;
use crate::word::{high_byte, lemma_join_bytes, lemma_split_word, low_byte, make_word};

verus! {

/// The number of bytes in the linear memory.
pub const MEMORY_SIZE: usize = 16 * 1024;

/// The word stored at `ptr`: low byte first, high byte at the next address.
pub open spec fn word_at(mem: Seq<u8>, ptr: int) -> u16
    recommends
        0 <= ptr,
        ptr + 1 < mem.len(),
{
    make_word(mem[ptr], mem[ptr + 1])
}

/// The memory after `value` is stored at `ptr`, low byte first.
pub open spec fn store_word(mem: Seq<u8>, ptr: int, value: u16) -> Seq<u8>
    recommends
        0 <= ptr,
        ptr + 1 < mem.len(),
{
    mem.update(ptr, low_byte(value)).update(ptr + 1, high_byte(value))
}

/// A flat array of `MEMORY_SIZE` bytes.
pub struct LinearMemory {
    pub data: [u8; MEMORY_SIZE],
}

impl View for LinearMemory {
    type V = Seq<u8>;

    open spec fn view(&self) -> Seq<u8> {
        self.data@
    }
}

impl LinearMemory {
    pub fn read_byte(&self, ptr: usize) -> (value: u8)
        requires
            ptr < MEMORY_SIZE,
        ensures
            value == self@[ptr as int],
    {
        self.data[ptr]
    }

    pub fn read_word(&self, ptr: usize) -> (value: u16)
        requires
            ptr + 1 < MEMORY_SIZE,
        ensures
            value == word_at(self@, ptr as int),
            value == (self@[ptr as int] as u16) | ((self@[ptr + 1] as u16) << 8),
    {
        proof {
            lemma_join_bytes(self@[ptr as int], self@[ptr + 1]);
        }
        ((self.data[ptr + 1] as u16) << 8) | self.data[ptr] as u16
    }

    pub fn write_byte(&mut self, ptr: usize, value: u8)
        requires
            ptr < MEMORY_SIZE,
        ensures
            final(self)@ == old(self)@.update(ptr as int, value),
    {
        self.data[ptr] = value;
    }

    pub fn write_word(&mut self, ptr: usize, value: u16)
        requires
            ptr + 1 < MEMORY_SIZE,
        ensures
            final(self)@ == store_word(old(self)@, ptr as int, value),
            word_at(final(self)@, ptr as int) == value,
    {
        proof {
            lemma_split_word(value);
        }
        self.data[ptr + 1] = (value >> 8) as u8;
        self.data[ptr] = (value & 0xFF) as u8;
        assert(self@ =~= store_word(old(self)@, ptr as int, value));
    }
}

impl Default for LinearMemory {
    fn default() -> (memory: Self)
        ensures
            memory@ == Seq::new(MEMORY_SIZE as nat, |i: int| 0u8),
    {
        let memory = Self { data: [0;MEMORY_SIZE] };
        assert(memory@ =~= Seq::new(MEMORY_SIZE as nat, |i: int| 0u8));
        memory
    }
}

/// A word reads back as the two bytes at its address, low byte first.
pub proof fn lemma_word_at_is_bytes(mem: Seq<u8>, ptr: int)
    requires
        0 <= ptr,
        ptr + 1 < mem.len(),
    ensures
        word_at(mem, ptr) == (mem[ptr] as u16) | ((mem[ptr + 1] as u16) << 8),
        word_at(mem, ptr) == mem[ptr] + 256 * mem[ptr + 1],
{
    lemma_join_bytes(mem[ptr], mem[ptr + 1]);
}

/// A word that was stored reads back unchanged, and the store touches the
/// two bytes at its address and no others.
pub proof fn lemma_store_then_read_word(mem: Seq<u8>, ptr: int, value: u16)
    requires
        0 <= ptr,
        ptr + 1 < mem.len(),
    ensures
        word_at(store_word(mem, ptr, value), ptr) == value,
        store_word(mem, ptr, value).len() == mem.len(),
        store_word(mem, ptr, value)[ptr] == low_byte(value),
        store_word(mem, ptr, value)[ptr + 1] == high_byte(value),
        forall|i: int|
            0 <= i < mem.len() && i != ptr && i != ptr + 1 ==> store_word(mem, ptr, value)[i]
                == mem[i],
{
}

} // verus!
