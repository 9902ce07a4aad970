//! The processor as a mathematical value, and what each instruction does
//! to it.
//!
//! `CpuState` holds the registers, the status byte and the 65536 bytes of
//! memory. Every instruction is a function from states to states;
//! `execute` picks the function for an opcode byte and `step` is one whole
//! tick: fetch, look up, execute, skip the operand bytes.

use vstd::prelude::*;
use crate::bus::{high_byte, low_byte, read16, word, wrap16, wrap8, BUS_SIZE, PROGRAM_BASE};
use crate::flags::{flag_on, with_flag, BREAK, BREAK2, CARRY, NEGATIVE, OVERFLOW, POWER_ON, ZERO};
use crate::opcodes::AddressingMode;

verus! {

/// The first address of the stack page.
pub const STACK: u16 = 0x0100;

/// The stack pointer after a reset.
pub const STACK_RESET: u8 = 0xfd;

/// How a tick, or a run of ticks, ended.
#[derive(Clone, Copy, Debug, PartialEq, Eq, Structural)]
pub enum Outcome {
    /// An instruction was executed and the next one can follow.
    Continue,
    /// The opcode was BRK: the program has ended.
    Break,
    /// The byte at the program counter, carried along here, is no opcode.
    /// This is fatal: the run is over and the processor is not to be
    /// ticked on. Telling the user is up to the host.
    Unrecognized(u8),
}

/// The processor and its memory.
pub struct CpuState {
    /// The accumulator.
    pub a: u8,
    /// Index register X.
    pub x: u8,
    /// Index register Y.
    pub y: u8,
    /// The status register as a byte.
    pub status: u8,
    /// The program counter.
    pub pc: u16,
    /// The stack pointer, an offset into the stack page.
    pub sp: u8,
    /// The bus: one byte for each address.
    pub mem: Seq<u8>,
}

/// `v` read as a signed byte.
pub open spec fn signed(v: u8) -> int {
    if v >= 0x80 {
        v - 0x100
    } else {
        v as int
    }
}

/// `status` with Zero set exactly when `v` is zero and Negative set
/// exactly when bit 7 of `v` is.
pub open spec fn set_zn(status: u8, v: u8) -> u8 {
    with_flag(with_flag(status, ZERO, v == 0), NEGATIVE, flag_on(v, NEGATIVE))
}

/// `status` with Break cleared and the second break bit set.
pub open spec fn break_pattern(status: u8) -> u8 {
    with_flag(with_flag(status, BREAK, false), BREAK2, true)
}

/// The address of the stack slot that `sp` names.
pub open spec fn stack_address(sp: u8) -> u16 {
    (STACK + sp) as u16
}

/// The address after `ptr` within the page of `ptr`: the last address of
/// a page is followed by the first one of the same page.
pub open spec fn next_in_page(ptr: u16) -> u16 {
    word(wrap8(low_byte(ptr) + 1), high_byte(ptr))
}

/// The 16-bit value whose low byte lies at `ptr` in page zero and whose
/// high byte lies after it in page zero.
pub open spec fn zero_page_word(mem: Seq<u8>, ptr: u8) -> u16 {
    word(mem[ptr as int], mem[wrap8(ptr + 1) as int])
}

/// The sum of an addition with carry, before it is cut to eight bits.
pub open spec fn carry_sum(a: u8, v: u8, carry: bool) -> int {
    a + v + if carry {
        1int
    } else {
        0int
    }
}

/// Whether adding `v` to `a` with result `r` overflowed as a signed
/// addition: the operands agree in sign and the result does not.
pub open spec fn sign_overflow(a: u8, v: u8, r: u8) -> bool {
    (v ^ r) & (r ^ a) & 0x80 != 0
}

/// The byte that, added with carry, subtracts `v` with borrow: `-v - 1`
/// as an unsigned byte.
pub open spec fn negated(v: u8) -> u8 {
    (0xff - v) as u8
}

impl AddressingMode {
    /// Whether the mode names an operand at all.
    pub open spec fn resolvable(self) -> bool {
        self != AddressingMode::NoneAddressing
    }
}

impl CpuState {
    /// Whether the memory has one byte for each address.
    pub open spec fn wf(self) -> bool {
        self.mem.len() == BUS_SIZE
    }

    /// The state after a reset, which keeps nothing but the memory.
    pub open spec fn reset(self) -> CpuState {
        CpuState {
            a: 0,
            x: 0,
            y: 0,
            status: POWER_ON,
            pc: PROGRAM_BASE,
            sp: STACK_RESET,
            mem: self.mem,
        }
    }

    /// Whether the flag `mask` is set.
    pub open spec fn flag(self, mask: u8) -> bool {
        flag_on(self.status, mask)
    }

    /// The state with flag `mask` set or cleared.
    pub open spec fn with_flag(self, mask: u8, on: bool) -> CpuState {
        CpuState { status: with_flag(self.status, mask, on), ..self }
    }

    /// The state with Zero and Negative taken from `v`.
    pub open spec fn with_zn(self, v: u8) -> CpuState {
        CpuState { status: set_zn(self.status, v), ..self }
    }

    /// The state with `v` stored at `addr`.
    pub open spec fn with_byte(self, addr: u16, v: u8) -> CpuState {
        CpuState { mem: self.mem.update(addr as int, v), ..self }
    }

    /// The effective address of an operand whose addressing bytes lie at
    /// `at`. For `Immediate` that is `at` itself. `NoneAddressing` names
    /// no operand: the value given for it means nothing.
    pub open spec fn effective_address(self, mode: AddressingMode, at: u16) -> u16 {
        match mode {
            AddressingMode::Immediate => at,
            AddressingMode::ZeroPage => self.mem[at as int] as u16,
            AddressingMode::ZeroPage_X => wrap8(self.mem[at as int] + self.x) as u16,
            AddressingMode::ZeroPage_Y => wrap8(self.mem[at as int] + self.y) as u16,
            AddressingMode::Absolute => read16(self.mem, at),
            AddressingMode::Absolute_X => wrap16(read16(self.mem, at) + self.x),
            AddressingMode::Absolute_Y => wrap16(read16(self.mem, at) + self.y),
            AddressingMode::Indirect_X => zero_page_word(
                self.mem,
                wrap8(self.mem[at as int] + self.x),
            ),
            AddressingMode::Indirect_Y => wrap16(
                zero_page_word(self.mem, self.mem[at as int]) + self.y,
            ),
            AddressingMode::NoneAddressing => at,
        }
    }

    /// The address of the operand of the instruction whose addressing
    /// bytes lie at the program counter.
    pub open spec fn operand_address(self, mode: AddressingMode) -> u16 {
        self.effective_address(mode, self.pc)
    }

    /// The operand itself.
    pub open spec fn operand(self, mode: AddressingMode) -> u8 {
        self.mem[self.operand_address(mode) as int]
    }

    /// The state with `v` stored where the operand lies.
    pub open spec fn store(self, mode: AddressingMode, v: u8) -> CpuState {
        self.with_byte(self.operand_address(mode), v)
    }

    /// The state after `v` is pushed: stored in the slot the stack pointer
    /// names, the pointer then moved down by one, around the page's edge.
    pub open spec fn push(self, v: u8) -> CpuState {
        CpuState {
            mem: self.mem.update(stack_address(self.sp) as int, v),
            sp: wrap8(self.sp - 1),
            ..self
        }
    }

    /// The state after one byte is popped: the pointer moved up by one.
    pub open spec fn popped(self) -> CpuState {
        CpuState { sp: wrap8(self.sp + 1), ..self }
    }

    /// The byte that a pop returns: the one in the slot above the stack
    /// pointer.
    pub open spec fn top(self) -> u8 {
        self.mem[stack_address(wrap8(self.sp + 1)) as int]
    }

    /// The state after `w` is pushed, high byte first.
    pub open spec fn push16(self, w: u16) -> CpuState {
        self.push(high_byte(w)).push(low_byte(w))
    }

    /// The 16-bit value that a two-byte pop returns: low byte first.
    pub open spec fn top16(self) -> u16 {
        word(self.top(), self.popped().top())
    }

    /// The state after two bytes are popped.
    pub open spec fn popped16(self) -> CpuState {
        self.popped().popped()
    }

    /// The state with `v` in the accumulator and Zero and Negative taken
    /// from it.
    pub open spec fn set_a(self, v: u8) -> CpuState {
        CpuState { a: v, ..self }.with_zn(v)
    }

    /// Addition with carry: the accumulator receives the sum of itself,
    /// `v` and the carry, cut to eight bits; Carry tells whether the sum
    /// passed 255 and Overflow whether it overflowed as a signed sum.
    pub open spec fn add_to_a(self, v: u8) -> CpuState {
        let sum = carry_sum(self.a, v, self.flag(CARRY));
        let r = wrap8(sum);
        self.with_flag(CARRY, sum > 0xff).with_flag(OVERFLOW, sign_overflow(self.a, v, r)).set_a(r)
    }

    /// Comparison of `reg` with `v`: Carry tells whether `v <= reg`, Zero
    /// and Negative come from `reg - v` cut to eight bits. Nothing else
    /// changes.
    pub open spec fn compare_with(self, reg: u8, v: u8) -> CpuState {
        self.with_flag(CARRY, v <= reg).with_zn(wrap8(reg - v))
    }

    /// LDA: the accumulator takes the operand; Zero and Negative follow it.
    pub open spec fn lda(self, mode: AddressingMode) -> CpuState {
        self.set_a(self.operand(mode))
    }

    /// LDX: X takes the operand; Zero and Negative follow it.
    pub open spec fn ldx(self, mode: AddressingMode) -> CpuState {
        let v = self.operand(mode);
        CpuState { x: v, ..self }.with_zn(v)
    }

    /// LDY: Y takes the operand; Zero and Negative follow it.
    pub open spec fn ldy(self, mode: AddressingMode) -> CpuState {
        let v = self.operand(mode);
        CpuState { y: v, ..self }.with_zn(v)
    }

    /// STA: the accumulator is stored where the operand lies. No flag changes.
    pub open spec fn sta(self, mode: AddressingMode) -> CpuState {
        self.store(mode, self.a)
    }

    /// STX: X is stored where the operand lies. No flag changes.
    pub open spec fn stx(self, mode: AddressingMode) -> CpuState {
        self.store(mode, self.x)
    }

    /// STY: Y is stored where the operand lies. No flag changes.
    pub open spec fn sty(self, mode: AddressingMode) -> CpuState {
        self.store(mode, self.y)
    }

    /// TAX: X takes the accumulator; Zero and Negative follow it.
    pub open spec fn tax(self) -> CpuState {
        CpuState { x: self.a, ..self }.with_zn(self.a)
    }

    /// TAY: Y takes the accumulator; Zero and Negative follow it.
    pub open spec fn tay(self) -> CpuState {
        CpuState { y: self.a, ..self }.with_zn(self.a)
    }

    /// TXA: the accumulator takes X; Zero and Negative follow it.
    pub open spec fn txa(self) -> CpuState {
        self.set_a(self.x)
    }

    /// TYA: the accumulator takes Y; Zero and Negative follow it.
    pub open spec fn tya(self) -> CpuState {
        self.set_a(self.y)
    }

    /// TSX: X takes the stack pointer; Zero and Negative follow it.
    pub open spec fn tsx(self) -> CpuState {
        CpuState { x: self.sp, ..self }.with_zn(self.sp)
    }

    /// The one transfer that leaves the flags alone.
    pub open spec fn txs(self) -> CpuState {
        CpuState { sp: self.x, ..self }
    }

    /// PHA: the accumulator is pushed.
    pub open spec fn pha(self) -> CpuState {
        self.push(self.a)
    }

    /// The status byte is pushed with Break cleared and the second break
    /// bit set; the register itself keeps its value.
    pub open spec fn php(self) -> CpuState {
        self.push(break_pattern(self.status))
    }

    /// PLA: the accumulator takes the popped byte; Zero and Negative follow it.
    pub open spec fn pla(self) -> CpuState {
        self.popped().set_a(self.top())
    }

    /// PLP: the status takes the popped byte, with Break cleared and the
    /// second break bit set.
    pub open spec fn plp(self) -> CpuState {
        CpuState { status: break_pattern(self.top()), ..self.popped() }
    }

    /// AND: the accumulator keeps the bits that it shares with the operand.
    pub open spec fn and(self, mode: AddressingMode) -> CpuState {
        self.set_a(self.operand(mode) & self.a)
    }

    /// EOR: the accumulator keeps the bits in which it differs from the
    /// operand.
    pub open spec fn eor(self, mode: AddressingMode) -> CpuState {
        self.set_a(self.operand(mode) ^ self.a)
    }

    /// ORA: the accumulator takes the bits of the operand in addition to its
    /// own.
    pub open spec fn ora(self, mode: AddressingMode) -> CpuState {
        self.set_a(self.operand(mode) | self.a)
    }

    /// Zero tells whether accumulator and operand share no bit; Negative
    /// and Overflow are bits 7 and 6 of the operand itself.
    pub open spec fn bit(self, mode: AddressingMode) -> CpuState {
        let v = self.operand(mode);
        self.with_flag(ZERO, self.a & v == 0).with_flag(NEGATIVE, flag_on(v, NEGATIVE)).with_flag(
            OVERFLOW,
            flag_on(v, OVERFLOW),
        )
    }

    /// ADC: the operand and the carry are added to the accumulator.
    pub open spec fn adc(self, mode: AddressingMode) -> CpuState {
        self.add_to_a(self.operand(mode))
    }

    /// SBC: the operand is subtracted from the accumulator, and one more
    /// when the carry is clear.
    pub open spec fn sbc(self, mode: AddressingMode) -> CpuState {
        self.add_to_a(negated(self.operand(mode)))
    }

    /// CMP, CPX, CPY: `reg` is compared with the operand.
    pub open spec fn compare(self, mode: AddressingMode, reg: u8) -> CpuState {
        self.compare_with(reg, self.operand(mode))
    }

    /// INC: the operand in memory goes up by one, past 255 to zero.
    pub open spec fn inc(self, mode: AddressingMode) -> CpuState {
        let v = wrap8(self.operand(mode) + 1);
        self.store(mode, v).with_zn(v)
    }

    /// INX: X goes up by one, past 255 to zero.
    pub open spec fn inx(self) -> CpuState {
        let v = wrap8(self.x + 1);
        CpuState { x: v, ..self }.with_zn(v)
    }

    /// INY: Y goes up by one, past 255 to zero.
    pub open spec fn iny(self) -> CpuState {
        let v = wrap8(self.y + 1);
        CpuState { y: v, ..self }.with_zn(v)
    }

    /// DEC: the operand in memory goes down by one, past zero to 255.
    pub open spec fn dec(self, mode: AddressingMode) -> CpuState {
        let v = wrap8(self.operand(mode) - 1);
        self.store(mode, v).with_zn(v)
    }

    /// DEX: X goes down by one, past zero to 255.
    pub open spec fn dex(self) -> CpuState {
        let v = wrap8(self.x - 1);
        CpuState { x: v, ..self }.with_zn(v)
    }

    /// DEY: Y goes down by one, past zero to 255.
    pub open spec fn dey(self) -> CpuState {
        let v = wrap8(self.y - 1);
        CpuState { y: v, ..self }.with_zn(v)
    }

    /// ASL: the operand in memory is shifted left; Carry takes bit 7.
    pub open spec fn asl(self, mode: AddressingMode) -> CpuState {
        let v = self.operand(mode);
        let r = shifted_left(v, false);
        self.with_flag(CARRY, v >= 0x80).store(mode, r).with_zn(r)
    }

    /// ASL on the accumulator.
    pub open spec fn asl_accumulator(self) -> CpuState {
        self.with_flag(CARRY, self.a >= 0x80).set_a(shifted_left(self.a, false))
    }

    /// LSR: the operand in memory is shifted right; Carry takes bit 0.
    pub open spec fn lsr(self, mode: AddressingMode) -> CpuState {
        let v = self.operand(mode);
        let r = shifted_right(v, false);
        self.with_flag(CARRY, v % 2 == 1).store(mode, r).with_zn(r)
    }

    /// LSR on the accumulator.
    pub open spec fn lsr_accumulator(self) -> CpuState {
        self.with_flag(CARRY, self.a % 2 == 1).set_a(shifted_right(self.a, false))
    }

    /// ROL: the operand in memory is shifted left, the old Carry comes in as
    /// bit 0, and Carry takes bit 7.
    pub open spec fn rol(self, mode: AddressingMode) -> CpuState {
        let v = self.operand(mode);
        let r = shifted_left(v, self.flag(CARRY));
        self.with_flag(CARRY, v >= 0x80).store(mode, r).with_zn(r)
    }

    /// ROL on the accumulator.
    pub open spec fn rol_accumulator(self) -> CpuState {
        self.with_flag(CARRY, self.a >= 0x80).set_a(shifted_left(self.a, self.flag(CARRY)))
    }

    /// ROR: the operand in memory is shifted right, the old Carry comes in
    /// as bit 7, and Carry takes bit 0.
    pub open spec fn ror(self, mode: AddressingMode) -> CpuState {
        let v = self.operand(mode);
        let r = shifted_right(v, self.flag(CARRY));
        self.with_flag(CARRY, v % 2 == 1).store(mode, r).with_zn(r)
    }

    /// ROR on the accumulator.
    pub open spec fn ror_accumulator(self) -> CpuState {
        self.with_flag(CARRY, self.a % 2 == 1).set_a(shifted_right(self.a, self.flag(CARRY)))
    }

    /// JMP: the program counter takes the address that lies at it.
    pub open spec fn jmp_absolute(self) -> CpuState {
        CpuState { pc: read16(self.mem, self.pc), ..self }
    }

    /// The target's low byte lies at the pointer, its high byte at the
    /// address after the pointer within the pointer's page: a pointer at
    /// the end of a page takes its high byte from the start of that page.
    pub open spec fn jump_indirect(self) -> CpuState {
        let ptr = read16(self.mem, self.pc);
        CpuState { pc: word(self.mem[ptr as int], self.mem[next_in_page(ptr) as int]), ..self }
    }

    /// The address of the call's last byte is pushed, then the program
    /// counter takes the target that lies at its old value.
    pub open spec fn jsr(self) -> CpuState {
        let pushed = self.push16(wrap16(self.pc + 1));
        CpuState { pc: read16(pushed.mem, self.pc), ..pushed }
    }

    /// RTS: the program counter takes the popped address plus one.
    pub open spec fn rts(self) -> CpuState {
        CpuState { pc: wrap16(self.top16() + 1), ..self.popped16() }
    }

    /// A taken branch moves the program counter past the displacement
    /// byte and then by the displacement, a signed byte; one not taken
    /// changes nothing.
    pub open spec fn branch(self, condition: bool) -> CpuState {
        if condition {
            CpuState { pc: wrap16(self.pc + 1 + signed(self.mem[self.pc as int])), ..self }
        } else {
            self
        }
    }

    /// RTI: the status is popped as by PLP, then the program counter.
    pub open spec fn rti(self) -> CpuState {
        let flags_popped = self.plp();
        CpuState { pc: flags_popped.top16(), ..flags_popped.popped16() }
    }

    /// LAX: the accumulator and X take the operand.
    pub open spec fn lax(self, mode: AddressingMode) -> CpuState {
        self.lda(mode).tax()
    }

    /// AAX: the bits that the accumulator and X share are stored where the
    /// operand lies. No flag changes.
    pub open spec fn aax(self, mode: AddressingMode) -> CpuState {
        self.store(mode, self.a & self.x)
    }

    /// The operand is decremented in memory and the accumulator is then
    /// compared with it.
    pub open spec fn dcp(self, mode: AddressingMode) -> CpuState {
        let v = wrap8(self.operand(mode) - 1);
        self.store(mode, v).compare_with(self.a, v)
    }

    /// The operand is incremented in memory and then subtracted, with
    /// borrow, from the accumulator.
    pub open spec fn isc(self, mode: AddressingMode) -> CpuState {
        let v = wrap8(self.operand(mode) + 1);
        self.store(mode, v).add_to_a(negated(v))
    }

    /// The operand is shifted left in memory and then combined by OR into
    /// the accumulator.
    pub open spec fn slo(self, mode: AddressingMode) -> CpuState {
        let shifted = self.asl(mode);
        shifted.set_a(shifted_left(self.operand(mode), false) | self.a)
    }
}

/// `v` shifted left by one bit, with `carry_in` moved into bit 0.
pub open spec fn shifted_left(v: u8, carry_in: bool) -> u8 {
    wrap8(
        v * 2 + if carry_in {
            1int
        } else {
            0int
        },
    )
}

/// `v` shifted right by one bit, with `carry_in` moved into bit 7.
pub open spec fn shifted_right(v: u8, carry_in: bool) -> u8 {
    (v / 2 + if carry_in {
        0x80int
    } else {
        0int
    }) as u8
}

} // verus!
