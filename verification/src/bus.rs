//! The memory bus: a flat space of 65536 bytes, one per 16-bit address.
//!
//! Every address is in range, so reads and writes never fail. A 16-bit
//! value occupies two neighbouring addresses, low byte first; the
//! neighbour of the last address is the first one.

use vstd::prelude::*;

verus! {

/// The number of bytes on the bus.
pub const BUS_SIZE: usize = 0x1_0000;

/// The address at which a program image starts.
pub const PROGRAM_BASE: u16 = 0x0600;

/// The longest program image that does not reach around the top of the
/// address space.
pub const PROGRAM_MAX: usize = 0xFA00;

/// `i` reduced to eight bits.
pub open spec fn wrap8(i: int) -> u8 {
    (i % 0x100) as u8
}

/// `i` reduced to sixteen bits.
pub open spec fn wrap16(i: int) -> u16 {
    (i % 0x1_0000) as u16
}

/// The 16-bit value with low byte `lo` and high byte `hi`.
pub open spec fn word(lo: u8, hi: u8) -> u16 {
    (hi as int * 0x100 + lo as int) as u16
}

/// The low byte of `w`.
pub open spec fn low_byte(w: u16) -> u8 {
    (w % 0x100) as u8
}

/// The high byte of `w`.
pub open spec fn high_byte(w: u16) -> u8 {
    (w / 0x100) as u8
}

/// The little-endian 16-bit value at `pos`: the byte at `pos` is the low
/// one, the byte at the address after it the high one.
pub open spec fn read16(mem: Seq<u8>, pos: u16) -> u16 {
    word(mem[pos as int], mem[wrap16(pos + 1) as int])
}

/// `mem` after `data` is stored at `pos`, low byte first.
pub open spec fn write16(mem: Seq<u8>, pos: u16, data: u16) -> Seq<u8> {
    mem.update(pos as int, low_byte(data)).update(wrap16(pos + 1) as int, high_byte(data))
}

/// The address of byte `i` of a program image: `PROGRAM_BASE + i`, around
/// the top of the address space.
pub open spec fn program_address(i: int) -> u16 {
    wrap16(PROGRAM_BASE + i)
}

/// `mem` after the bytes of `program` are stored one after the other,
/// each at its `program_address`.
pub open spec fn with_program(mem: Seq<u8>, program: Seq<u8>) -> Seq<u8>
    decreases program.len(),
{
    if program.len() == 0 {
        mem
    } else {
        with_program(mem, program.drop_last()).update(
            program_address(program.len() - 1) as int,
            program.last(),
        )
    }
}

/// Storing a program image keeps the size of the memory.
pub proof fn lemma_with_program_len(mem: Seq<u8>, program: Seq<u8>)
    requires
        mem.len() == BUS_SIZE,
    ensures
        with_program(mem, program).len() == BUS_SIZE,
    decreases program.len(),
{
    if program.len() > 0 {
        lemma_with_program_len(mem, program.drop_last());
    }
}

/// A program image that does not reach around the top of the address
/// space lies in memory verbatim from `PROGRAM_BASE` on, and every byte
/// outside it is as before.
pub proof fn lemma_with_program_at(mem: Seq<u8>, program: Seq<u8>, addr: u16)
    requires
        mem.len() == BUS_SIZE,
        program.len() <= PROGRAM_MAX,
    ensures
        with_program(mem, program)[addr as int] == (if PROGRAM_BASE <= addr < PROGRAM_BASE
            + program.len() {
            program[addr - PROGRAM_BASE]
        } else {
            mem[addr as int]
        }),
    decreases program.len(),
{
    if program.len() > 0 {
        lemma_with_program_at(mem, program.drop_last(), addr);
        lemma_with_program_len(mem, program.drop_last());
    }
}

/// A word is put together from its two bytes and taken apart again
/// without loss.
pub proof fn lemma_word_bytes(lo: u8, hi: u8)
    ensures
        low_byte(word(lo, hi)) == lo,
        high_byte(word(lo, hi)) == hi,
{
}

/// The two bytes of a word give the word back.
pub proof fn lemma_bytes_word(w: u16)
    ensures
        word(low_byte(w), high_byte(w)) == w,
{
}

/// Puts a 16-bit value together from its bytes.
pub fn make_word(lo: u8, hi: u8) -> (w: u16)
    ensures
        w == word(lo, hi),
{
    let w: u16 = ((hi as u16) << 8) | (lo as u16);
    assert(((hi as u16) << 8) | (lo as u16) == (hi as u16) * 0x100 + (lo as u16)) by (bit_vector);
    w
}

/// The low byte of a 16-bit value.
pub fn low_byte_of(w: u16) -> (lo: u8)
    ensures
        lo == low_byte(w),
{
    let lo: u8 = (w & 0xff) as u8;
    assert((w & 0xff) as u8 == (w % 0x100) as u8) by (bit_vector);
    lo
}

/// The high byte of a 16-bit value.
pub fn high_byte_of(w: u16) -> (hi: u8)
    ensures
        hi == high_byte(w),
{
    let hi: u8 = (w >> 8) as u8;
    assert((w >> 8) as u8 == (w / 0x100) as u8) by (bit_vector);
    hi
}

/// Byte-wise access to an address space, and the 16-bit access derived
/// from it.
pub trait Mem {
    /// The bytes of the address space, indexed by address.
    spec fn memory(&self) -> Seq<u8>;

    /// The byte at `addr`. The address space has a byte for every
    /// address.
    fn mem_read(&self, addr: u16) -> (data: u8)
        ensures
            self.memory().len() == BUS_SIZE,
            data == self.memory()[addr as int],
    ;

    /// Stores `data` at `addr`; nothing else changes.
    fn mem_write(&mut self, addr: u16, data: u8)
        ensures
            final(self).memory() == old(self).memory().update(addr as int, data),
    ;

    /// The little-endian 16-bit value at `pos`, read low byte first.
    fn mem_read_u16(&self, pos: u16) -> (data: u16)
        ensures
            data == read16(self.memory(), pos),
    {
        let lo: u8 = self.mem_read(pos);
        let hi: u8 = self.mem_read(pos.wrapping_add(1));
        make_word(lo, hi)
    }

    /// Stores `data` at `pos` as two bytes, low byte first.
    fn mem_write_u16(&mut self, pos: u16, data: u16)
        ensures
            final(self).memory() == write16(old(self).memory(), pos, data),
    {
        let hi: u8 = high_byte_of(data);
        let lo: u8 = low_byte_of(data);
        self.mem_write(pos, lo);
        self.mem_write(pos.wrapping_add(1), hi);
    }
}

/// A program image: raw bytes that are laid out in memory from
/// `PROGRAM_BASE` on.
pub struct Rom {
    pub program: Vec<u8>,
}

impl View for Rom {
    type V = Seq<u8>;

    open spec fn view(&self) -> Seq<u8> {
        self.program@
    }
}

impl Rom {
    /// The image with the bytes of `program`.
    pub fn new(program: Vec<u8>) -> (rom: Rom)
        ensures
            rom@ == program@,
    {
        Rom { program }
    }
}

/// The bus: 65536 bytes of memory.
pub struct Bus {
    memory: [u8; 0x1_0000],
}

impl View for Bus {
    type V = Seq<u8>;

    closed spec fn view(&self) -> Seq<u8> {
        self.memory@
    }
}

impl Bus {
    /// A bus whose memory is zero but for the image of `rom`, which lies
    /// from `PROGRAM_BASE` on.
    pub fn new(rom: Rom) -> (bus: Bus)
        ensures
            bus@ == with_program(Seq::new(BUS_SIZE as nat, |a: int| 0u8), rom@),
    {
        let mut bus = Bus { memory: [0u8; 0x1_0000] };
        assert(bus@ =~= Seq::new(BUS_SIZE as nat, |a: int| 0u8));
        bus.load(&rom.program);
        bus
    }

    /// Stores the bytes of `program` one after the other from
    /// `PROGRAM_BASE` on. An image that reaches the top of the address
    /// space goes on at address zero.
    pub fn load(&mut self, program: &Vec<u8>)
        ensures
            final(self)@ == with_program(old(self)@, program@),
    {
        let mut i: usize = 0;
        assert(program@.take(0) =~= Seq::<u8>::empty());
        while i < program.len()
            invariant
                i <= program@.len(),
                self@ == with_program(old(self)@, program@.take(i as int)),
            decreases program@.len() - i,
        {
            let offset: u16 = (i % 0x1_0000) as u16;
            self.memory[PROGRAM_BASE.wrapping_add(offset) as usize] = program[i];
            assert(program@.take(i + 1).drop_last() =~= program@.take(i as int));
            i = i + 1;
        }
        assert(program@.take(i as int) =~= program@);
    }

    /// A bus always holds `BUS_SIZE` bytes.
    pub proof fn lemma_size(&self)
        ensures
            self@.len() == BUS_SIZE,
    {
    }
}

impl Mem for Bus {
    open spec fn memory(&self) -> Seq<u8> {
        self@
    }

    fn mem_read(&self, addr: u16) -> (data: u8) {
        self.memory[addr as usize]
    }

    fn mem_write(&mut self, addr: u16, data: u8) {
        self.memory[addr as usize] = data;
    }
}

} // verus!
