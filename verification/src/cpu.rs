//! The processor: registers, flags, the bus, and the interpreter that
//! executes one instruction per tick.
//!
//! Every method states its effect on the processor's model, a `CpuState`;
//! the functions of that model are in `state` and `step`.

use vstd::prelude::*;
use crate::bus::{
    high_byte, high_byte_of, low_byte, low_byte_of, make_word, with_program, word, write16, Bus,
    Mem, Rom, BUS_SIZE, PROGRAM_BASE,
};
use crate::flags::{
    CpuFlags, BREAK, BREAK2, CARRY, DECIMAL_MODE, INTERRUPT_DISABLE, NEGATIVE, OVERFLOW, POWER_ON,
    ZERO,
};
use crate::laws::lemma_zero_negative;
use crate::opcodes::{lemma_descriptor_shape, AddressingMode, OpCode, OpcodeMap};
use crate::state::{shifted_left, shifted_right, CpuState, Outcome, STACK, STACK_RESET};
use crate::step::{
    arithmetic, branch_condition, branches, execute, flag_changes, increments, jumps,
    lemma_operand_modes, load_store, logical, recognized, run, sets_pc, shifts, stack, step,
    system, takes_operand, transfers, undocumented,
};

verus! {

/// The processor with its bus.
pub struct CPU {
    pub register_a: u8,
    pub register_x: u8,
    pub register_y: u8,
    pub status: CpuFlags,
    pub program_counter: u16,
    pub stack_pointer: u8,
    pub bus: Bus,
    /// The opcode table, looked up on every tick.
    pub opcodes: OpcodeMap,
}

impl View for CPU {
    type V = CpuState;

    open spec fn view(&self) -> CpuState {
        CpuState {
            a: self.register_a,
            x: self.register_x,
            y: self.register_y,
            status: self.status@,
            pc: self.program_counter,
            sp: self.stack_pointer,
            mem: self.bus@,
        }
    }
}

impl Mem for CPU {
    open spec fn memory(&self) -> Seq<u8> {
        self.bus@
    }

    fn mem_read(&self, addr: u16) -> (data: u8) {
        proof {
            self.bus.lemma_size();
        }
        self.bus.mem_read(addr)
    }

    fn mem_write(&mut self, addr: u16, data: u8)
        ensures
            final(self)@ == old(self)@.with_byte(addr, data),
    {
        self.bus.mem_write(addr, data)
    }

    fn mem_read_u16(&self, pos: u16) -> (data: u16) {
        self.bus.mem_read_u16(pos)
    }

    fn mem_write_u16(&mut self, pos: u16, data: u16)
        ensures
            final(self)@ == (CpuState { mem: write16(old(self)@.mem, pos, data), ..old(self)@ }),
    {
        self.bus.mem_write_u16(pos, data)
    }
}

impl CPU {
    /// A processor in its power-on state over a bus that holds the image
    /// of `rom`. The program counter is zero until `reset`.
    pub fn new(rom: Rom) -> (cpu: CPU)
        ensures
            cpu@ == (CpuState {
                a: 0,
                x: 0,
                y: 0,
                status: POWER_ON,
                pc: 0,
                sp: STACK_RESET,
                mem: with_program(Seq::new(BUS_SIZE as nat, |a: int| 0u8), rom@),
            }),
    {
        CPU {
            register_a: 0,
            register_x: 0,
            register_y: 0,
            status: CpuFlags::from_bits_truncate(POWER_ON),
            program_counter: 0,
            stack_pointer: STACK_RESET,
            bus: Bus::new(rom),
            opcodes: OpcodeMap::new(),
        }
    }

    /// A processor in its power-on state over `bus`. The program counter
    /// is zero until `reset`.
    pub fn from_bus(bus: Bus) -> (cpu: CPU)
        ensures
            cpu@ == (CpuState {
                a: 0,
                x: 0,
                y: 0,
                status: POWER_ON,
                pc: 0,
                sp: STACK_RESET,
                mem: bus@,
            }),
    {
        CPU {
            register_a: 0,
            register_x: 0,
            register_y: 0,
            status: CpuFlags::from_bits_truncate(POWER_ON),
            program_counter: 0,
            stack_pointer: STACK_RESET,
            bus: bus,
            opcodes: OpcodeMap::new(),
        }
    }

    /// The model of a processor always has one byte for each address.
    pub proof fn lemma_view_wf(&self)
        ensures
            self@.wf(),
    {
        self.bus.lemma_size();
    }

    /// The effective address of an operand whose addressing bytes lie at
    /// `addr`. An immediate operand is the byte at `addr` itself.
    pub fn get_absolute_address(&self, mode: &AddressingMode, addr: u16) -> (target: u16)
        requires
            mode.resolvable(),
        ensures
            target == self@.effective_address(*mode, addr),
    {
        match mode {
            AddressingMode::Immediate => addr,
            AddressingMode::ZeroPage => self.mem_read(addr) as u16,
            AddressingMode::Absolute => self.mem_read_u16(addr),
            AddressingMode::ZeroPage_X => {
                let pos: u8 = self.mem_read(addr);
                pos.wrapping_add(self.register_x) as u16
            },
            AddressingMode::ZeroPage_Y => {
                let pos: u8 = self.mem_read(addr);
                pos.wrapping_add(self.register_y) as u16
            },
            AddressingMode::Absolute_X => {
                let base: u16 = self.mem_read_u16(addr);
                base.wrapping_add(self.register_x as u16)
            },
            AddressingMode::Absolute_Y => {
                let base: u16 = self.mem_read_u16(addr);
                base.wrapping_add(self.register_y as u16)
            },
            AddressingMode::Indirect_X => {
                let base: u8 = self.mem_read(addr);
                let ptr: u8 = base.wrapping_add(self.register_x);
                let lo: u8 = self.mem_read(ptr as u16);
                let hi: u8 = self.mem_read(ptr.wrapping_add(1) as u16);
                make_word(lo, hi)
            },
            AddressingMode::Indirect_Y => {
                let base: u8 = self.mem_read(addr);
                let lo: u8 = self.mem_read(base as u16);
                let hi: u8 = self.mem_read(base.wrapping_add(1) as u16);
                let deref_base: u16 = make_word(lo, hi);
                deref_base.wrapping_add(self.register_y as u16)
            },
            AddressingMode::NoneAddressing => addr,
        }
    }

    /// The address of the operand of the instruction whose addressing
    /// bytes lie at the program counter.
    pub fn get_operand_address(&self, mode: &AddressingMode) -> (target: u16)
        requires
            mode.resolvable(),
        ensures
            target == self@.operand_address(*mode),
    {
        match mode {
            AddressingMode::Immediate => self.program_counter,
            _ => self.get_absolute_address(mode, self.program_counter),
        }
    }

    /// Puts the registers into their power-on state and the program
    /// counter at `PROGRAM_BASE`. The memory stays as it is.
    pub fn reset(&mut self)
        ensures
            final(self)@ == old(self)@.reset(),
    {
        self.register_a = 0;
        self.register_x = 0;
        self.register_y = 0;
        self.stack_pointer = STACK_RESET;
        self.status = CpuFlags::from_bits_truncate(POWER_ON);
        self.program_counter = PROGRAM_BASE;
    }

    /// Takes the top byte off the stack.
    pub fn stack_pop(&mut self) -> (data: u8)
        ensures
            final(self)@ == old(self)@.popped(),
            data == old(self)@.top(),
    {
        self.stack_pointer = self.stack_pointer.wrapping_add(1);
        self.mem_read(STACK + self.stack_pointer as u16)
    }

    /// Puts `data` on the stack.
    pub fn stack_push(&mut self, data: u8)
        ensures
            final(self)@ == old(self)@.push(data),
    {
        self.mem_write(STACK + self.stack_pointer as u16, data);
        self.stack_pointer = self.stack_pointer.wrapping_sub(1)
    }

    /// Puts `data` on the stack, high byte first.
    pub fn stack_push_u16(&mut self, data: u16)
        ensures
            final(self)@ == old(self)@.push16(data),
    {
        let hi: u8 = high_byte_of(data);
        let lo: u8 = low_byte_of(data);
        self.stack_push(hi);
        self.stack_push(lo);
    }

    /// Takes a 16-bit value off the stack, low byte first.
    pub fn stack_pop_u16(&mut self) -> (data: u16)
        ensures
            final(self)@ == old(self)@.popped16(),
            data == old(self)@.top16(),
    {
        let lo: u8 = self.stack_pop();
        let hi: u8 = self.stack_pop();
        make_word(lo, hi)
    }

    /// Sets Zero exactly when `result` is zero and Negative exactly when
    /// bit 7 of `result` is set, whatever the two flags were before.
    pub fn update_zero_and_negative_flags(&mut self, result: u8)
        ensures
            final(self)@ == old(self)@.with_zn(result),
            final(self)@.flag(ZERO) == (result == 0),
            final(self)@.flag(NEGATIVE) == (result >= 0x80),
    {
        proof {
            lemma_zero_negative(self.status@, result);
        }
        if result == 0 {
            self.status.insert(ZERO);
        } else {
            self.status.remove(ZERO);
        }
        if result & 0b1000_0000 == 0b1000_0000 {
            self.status.insert(NEGATIVE);
        } else {
            self.status.remove(NEGATIVE);
        }
    }

    /// Puts `value` into the accumulator and sets Zero and Negative from
    /// it.
    pub fn set_register_a(&mut self, value: u8)
        ensures
            final(self)@ == old(self)@.set_a(value),
    {
        self.register_a = value;
        self.update_zero_and_negative_flags(self.register_a);
    }

    /// Adds `data` and the carry to the accumulator. Decimal mode is
    /// ignored.
    pub fn add_to_register_a(&mut self, data: u8)
        ensures
            final(self)@ == old(self)@.add_to_a(data),
    {
        let carry_in: u16 = if self.status.contains(CARRY) {
            1
        } else {
            0
        };
        let sum: u16 = self.register_a as u16 + data as u16 + carry_in;
        let carry = sum > 0xff;
        if carry {
            self.status.insert(CARRY);
        } else {
            self.status.remove(CARRY);
        }
        let result: u8 = low_byte_of(sum);
        if (data ^ result) & (result ^ self.register_a) & 0x80 != 0 {
            self.status.insert(OVERFLOW);
        } else {
            self.status.remove(OVERFLOW)
        }
        self.set_register_a(result);
    }

    /// Loads a program, resets the processor and runs it for at most
    /// `max_ticks` ticks.
    pub fn load_and_run(&mut self, program: Vec<u8>, max_ticks: u64) -> (outcome: Outcome)
        ensures
            (final(self)@, outcome) == run(
                (CpuState { mem: with_program(old(self)@.mem, program@), ..old(self)@ }).reset(),
                max_ticks as nat,
            ),
    {
        self.load(program);
        self.reset();
        self.program_counter = PROGRAM_BASE;
        self.run(max_ticks)
    }

    /// Copies a program image into memory from `PROGRAM_BASE` on. The
    /// registers stay as they are.
    pub fn load(&mut self, program: Vec<u8>)
        ensures
            final(self)@ == (CpuState {
                mem: with_program(old(self)@.mem, program@),
                ..old(self)@
            }),
    {
        self.bus.load(&program);
    }

    /// LDA: the accumulator takes the operand; Zero and Negative follow it.
    pub fn lda(&mut self, mode: &AddressingMode)
        requires
            mode.resolvable(),
        ensures
            final(self)@ == old(self)@.lda(*mode),
    {
        let addr: u16 = self.get_operand_address(mode);
        let value: u8 = self.mem_read(addr);
        self.register_a = value;
        self.update_zero_and_negative_flags(self.register_a);
    }

    /// LDX: X takes the operand; Zero and Negative follow it.
    pub fn ldx(&mut self, mode: &AddressingMode)
        requires
            mode.resolvable(),
        ensures
            final(self)@ == old(self)@.ldx(*mode),
    {
        let addr: u16 = self.get_operand_address(mode);
        let data: u8 = self.mem_read(addr);
        self.register_x = data;
        self.update_zero_and_negative_flags(self.register_x);
    }

    /// LDY: Y takes the operand; Zero and Negative follow it.
    pub fn ldy(&mut self, mode: &AddressingMode)
        requires
            mode.resolvable(),
        ensures
            final(self)@ == old(self)@.ldy(*mode),
    {
        let addr: u16 = self.get_operand_address(mode);
        let data: u8 = self.mem_read(addr);
        self.register_y = data;
        self.update_zero_and_negative_flags(self.register_y);
    }

    /// STA: the accumulator is stored where the operand lies. No flag changes.
    pub fn sta(&mut self, mode: &AddressingMode)
        requires
            mode.resolvable(),
        ensures
            final(self)@ == old(self)@.sta(*mode),
    {
        let addr: u16 = self.get_operand_address(mode);
        self.mem_write(addr, self.register_a);
    }

    /// STX: X is stored where the operand lies. No flag changes.
    pub fn stx(&mut self, mode: &AddressingMode)
        requires
            mode.resolvable(),
        ensures
            final(self)@ == old(self)@.stx(*mode),
    {
        let addr: u16 = self.get_operand_address(mode);
        self.mem_write(addr, self.register_x);
    }

    /// STY: Y is stored where the operand lies. No flag changes.
    pub fn sty(&mut self, mode: &AddressingMode)
        requires
            mode.resolvable(),
        ensures
            final(self)@ == old(self)@.sty(*mode),
    {
        let addr: u16 = self.get_operand_address(mode);
        self.mem_write(addr, self.register_y);
    }

    /// TAX: X takes the accumulator; Zero and Negative follow it.
    pub fn tax(&mut self)
        ensures
            final(self)@ == old(self)@.tax(),
    {
        self.register_x = self.register_a;
        self.update_zero_and_negative_flags(self.register_x);
    }

    /// TAY: Y takes the accumulator; Zero and Negative follow it.
    pub fn tay(&mut self)
        ensures
            final(self)@ == old(self)@.tay(),
    {
        self.register_y = self.register_a;
        self.update_zero_and_negative_flags(self.register_y);
    }

    /// TXA: the accumulator takes X; Zero and Negative follow it.
    pub fn txa(&mut self)
        ensures
            final(self)@ == old(self)@.txa(),
    {
        self.register_a = self.register_x;
        self.update_zero_and_negative_flags(self.register_a);
    }

    /// TYA: the accumulator takes Y; Zero and Negative follow it.
    pub fn tya(&mut self)
        ensures
            final(self)@ == old(self)@.tya(),
    {
        self.register_a = self.register_y;
        self.update_zero_and_negative_flags(self.register_a);
    }

    /// TSX: X takes the stack pointer; Zero and Negative follow it.
    pub fn tsx(&mut self)
        ensures
            final(self)@ == old(self)@.tsx(),
    {
        self.register_x = self.stack_pointer;
        self.update_zero_and_negative_flags(self.register_x);
    }

    /// Copies X into the stack pointer. No flag changes.
    pub fn txs(&mut self)
        ensures
            final(self)@ == old(self)@.txs(),
    {
        self.stack_pointer = self.register_x;
    }

    /// Pushes the status byte with Break cleared and the second break bit
    /// set.
    pub fn php(&mut self)
        ensures
            final(self)@ == old(self)@.php(),
    {
        let mut flags = self.status;
        flags.remove(BREAK);
        flags.insert(BREAK2);
        self.stack_push(flags.bits());
    }

    /// PLA: the accumulator takes the popped byte; Zero and Negative follow it.
    pub fn pla(&mut self)
        ensures
            final(self)@ == old(self)@.pla(),
    {
        let data: u8 = self.stack_pop();
        self.set_register_a(data);
    }

    /// Pops the status byte, then clears Break and sets the second break
    /// bit.
    pub fn plp(&mut self)
        ensures
            final(self)@ == old(self)@.plp(),
    {
        let data: u8 = self.stack_pop();
        self.status = CpuFlags::from_bits_truncate(data);
        self.status.remove(BREAK);
        self.status.insert(BREAK2);
    }

    /// AND: the accumulator keeps the bits that it shares with the operand.
    pub fn and(&mut self, mode: &AddressingMode)
        requires
            mode.resolvable(),
        ensures
            final(self)@ == old(self)@.and(*mode),
    {
        let addr: u16 = self.get_operand_address(mode);
        let data: u8 = self.mem_read(addr);
        self.set_register_a(data & self.register_a);
    }

    /// EOR: the accumulator keeps the bits in which it differs from the
    /// operand.
    pub fn eor(&mut self, mode: &AddressingMode)
        requires
            mode.resolvable(),
        ensures
            final(self)@ == old(self)@.eor(*mode),
    {
        let addr: u16 = self.get_operand_address(mode);
        let data: u8 = self.mem_read(addr);
        self.set_register_a(data ^ self.register_a);
    }

    /// ORA: the accumulator takes the bits of the operand in addition to its
    /// own.
    pub fn ora(&mut self, mode: &AddressingMode)
        requires
            mode.resolvable(),
        ensures
            final(self)@ == old(self)@.ora(*mode),
    {
        let addr: u16 = self.get_operand_address(mode);
        let data: u8 = self.mem_read(addr);
        self.set_register_a(data | self.register_a);
    }

    /// BIT: tests the accumulator against the operand. Zero tells whether
    /// they share no bit; Negative and Overflow are bits 7 and 6 of the
    /// operand itself.
    pub fn bit(&mut self, mode: &AddressingMode)
        requires
            mode.resolvable(),
        ensures
            final(self)@ == old(self)@.bit(*mode),
    {
        let addr: u16 = self.get_operand_address(mode);
        let data: u8 = self.mem_read(addr);
        let result: u8 = self.register_a & data;
        self.status.set(ZERO, result == 0);
        self.status.set(NEGATIVE, data & 0x80 == 0x80);
        self.status.set(OVERFLOW, data & 0x40 == 0x40);
    }

    /// ADC: the operand and the carry are added to the accumulator.
    pub fn adc(&mut self, mode: &AddressingMode)
        requires
            mode.resolvable(),
        ensures
            final(self)@ == old(self)@.adc(*mode),
    {
        let addr: u16 = self.get_operand_address(mode);
        let value: u8 = self.mem_read(addr);
        self.add_to_register_a(value);
    }

    /// SBC: the operand is subtracted from the accumulator, and one more
    /// when the carry is clear.
    pub fn sbc(&mut self, mode: &AddressingMode)
        requires
            mode.resolvable(),
        ensures
            final(self)@ == old(self)@.sbc(*mode),
    {
        let addr: u16 = self.get_operand_address(mode);
        let value: u8 = self.mem_read(addr);
        self.add_to_register_a(0u8.wrapping_sub(value).wrapping_sub(1));
    }

    /// Compares `compare_with` with the operand. Only flags change: the
    /// registers and the memory, the operand among them, stay as they
    /// are.
    pub fn compare(&mut self, mode: &AddressingMode, compare_with: u8)
        requires
            mode.resolvable(),
        ensures
            final(self)@ == old(self)@.compare(*mode, compare_with),
            final(self)@ == (CpuState { status: final(self)@.status, ..old(self)@ }),
    {
        let addr: u16 = self.get_operand_address(mode);
        let data: u8 = self.mem_read(addr);
        if data <= compare_with {
            self.status.insert(CARRY);
        } else {
            self.status.remove(CARRY);
        }
        self.update_zero_and_negative_flags(compare_with.wrapping_sub(data));
    }

    /// INC: the operand in memory goes up by one, past 255 to zero.
    pub fn inc(&mut self, mode: &AddressingMode)
        requires
            mode.resolvable(),
        ensures
            final(self)@ == old(self)@.inc(*mode),
    {
        let addr: u16 = self.get_operand_address(mode);
        let mut data: u8 = self.mem_read(addr);
        data = data.wrapping_add(1);
        self.mem_write(addr, data);
        self.update_zero_and_negative_flags(data);
    }

    /// INX: X goes up by one, past 255 to zero.
    pub fn inx(&mut self)
        ensures
            final(self)@ == old(self)@.inx(),
    {
        self.register_x = self.register_x.wrapping_add(1);
        self.update_zero_and_negative_flags(self.register_x);
    }

    /// INY: Y goes up by one, past 255 to zero.
    pub fn iny(&mut self)
        ensures
            final(self)@ == old(self)@.iny(),
    {
        self.register_y = self.register_y.wrapping_add(1);
        self.update_zero_and_negative_flags(self.register_y);
    }

    /// DEC: the operand in memory goes down by one, past zero to 255.
    pub fn dec(&mut self, mode: &AddressingMode)
        requires
            mode.resolvable(),
        ensures
            final(self)@ == old(self)@.dec(*mode),
    {
        let addr: u16 = self.get_operand_address(mode);
        let mut data: u8 = self.mem_read(addr);
        data = data.wrapping_sub(1);
        self.mem_write(addr, data);
        self.update_zero_and_negative_flags(data);
    }

    /// DEX: X goes down by one, past zero to 255.
    pub fn dex(&mut self)
        ensures
            final(self)@ == old(self)@.dex(),
    {
        self.register_x = self.register_x.wrapping_sub(1);
        self.update_zero_and_negative_flags(self.register_x);
    }

    /// DEY: Y goes down by one, past zero to 255.
    pub fn dey(&mut self)
        ensures
            final(self)@ == old(self)@.dey(),
    {
        self.register_y = self.register_y.wrapping_sub(1);
        self.update_zero_and_negative_flags(self.register_y);
    }
}

/// Whether bit 7 of `data` is set.
fn top_bit(data: u8) -> (on: bool)
    ensures
        on == (data >= 0x80),
{
    assert((data >> 7 == 1) == (data >= 0x80)) by (bit_vector);
    data >> 7 == 1
}

/// Whether bit 0 of `data` is set.
fn low_bit(data: u8) -> (on: bool)
    ensures
        on == (data % 2 == 1),
{
    assert((data & 1 == 1) == (data % 2 == 1)) by (bit_vector);
    data & 1 == 1
}

/// `data` shifted left by one bit, with `carry_in` moved into bit 0.
fn shift_left(data: u8, carry_in: bool) -> (shifted: u8)
    ensures
        shifted == shifted_left(data, carry_in),
{
    let mut shifted: u8 = data << 1;
    assert(data << 1 == (data * 2) % 0x100) by (bit_vector);
    if carry_in {
        assert((data << 1) | 1 == (data * 2) % 0x100 + 1) by (bit_vector);
        shifted = shifted | 1;
    }
    shifted
}

/// `data` shifted right by one bit, with `carry_in` moved into bit 7.
fn shift_right(data: u8, carry_in: bool) -> (shifted: u8)
    ensures
        shifted == shifted_right(data, carry_in),
{
    let mut shifted: u8 = data >> 1;
    assert(data >> 1 == data / 2) by (bit_vector);
    if carry_in {
        assert((data >> 1) | 0b1000_0000 == data / 2 + 0x80) by (bit_vector);
        shifted = shifted | 0b1000_0000;
    }
    shifted
}

impl CPU {
    /// ASL: the operand in memory is shifted left; Carry takes bit 7.
    pub fn asl(&mut self, mode: &AddressingMode)
        requires
            mode.resolvable(),
        ensures
            final(self)@ == old(self)@.asl(*mode),
    {
        let addr: u16 = self.get_operand_address(mode);
        let mut data: u8 = self.mem_read(addr);
        if top_bit(data) {
            self.status.insert(CARRY);
        } else {
            self.status.remove(CARRY);
        }
        data = shift_left(data, false);
        self.mem_write(addr, data);
        self.update_zero_and_negative_flags(data);
    }

    /// ASL on the accumulator.
    pub fn asl_accumulator(&mut self)
        ensures
            final(self)@ == old(self)@.asl_accumulator(),
    {
        let mut data: u8 = self.register_a;
        if top_bit(data) {
            self.status.insert(CARRY);
        } else {
            self.status.remove(CARRY);
        }
        data = shift_left(data, false);
        self.set_register_a(data);
    }

    /// LSR: the operand in memory is shifted right; Carry takes bit 0.
    pub fn lsr(&mut self, mode: &AddressingMode)
        requires
            mode.resolvable(),
        ensures
            final(self)@ == old(self)@.lsr(*mode),
    {
        let addr: u16 = self.get_operand_address(mode);
        let mut data: u8 = self.mem_read(addr);
        if low_bit(data) {
            self.status.insert(CARRY);
        } else {
            self.status.remove(CARRY);
        }
        data = shift_right(data, false);
        self.mem_write(addr, data);
        self.update_zero_and_negative_flags(data);
    }

    /// LSR on the accumulator.
    pub fn lsr_accumulator(&mut self)
        ensures
            final(self)@ == old(self)@.lsr_accumulator(),
    {
        let mut data: u8 = self.register_a;
        if low_bit(data) {
            self.status.insert(CARRY);
        } else {
            self.status.remove(CARRY);
        }
        data = shift_right(data, false);
        self.set_register_a(data);
    }

    /// ROL: the operand in memory is shifted left, the old Carry comes in as
    /// bit 0, and Carry takes bit 7.
    pub fn rol(&mut self, mode: &AddressingMode)
        requires
            mode.resolvable(),
        ensures
            final(self)@ == old(self)@.rol(*mode),
    {
        let addr: u16 = self.get_operand_address(mode);
        let mut data: u8 = self.mem_read(addr);
        let old_carry = self.status.contains(CARRY);
        if top_bit(data) {
            self.status.insert(CARRY);
        } else {
            self.status.remove(CARRY);
        }
        data = shift_left(data, old_carry);
        self.mem_write(addr, data);
        self.update_zero_and_negative_flags(data);
    }

    /// ROL on the accumulator.
    pub fn rol_accumulator(&mut self)
        ensures
            final(self)@ == old(self)@.rol_accumulator(),
    {
        let mut data: u8 = self.register_a;
        let old_carry = self.status.contains(CARRY);
        if top_bit(data) {
            self.status.insert(CARRY);
        } else {
            self.status.remove(CARRY);
        }
        data = shift_left(data, old_carry);
        self.set_register_a(data);
    }

    /// ROR: the operand in memory is shifted right, the old Carry comes in
    /// as bit 7, and Carry takes bit 0.
    pub fn ror(&mut self, mode: &AddressingMode)
        requires
            mode.resolvable(),
        ensures
            final(self)@ == old(self)@.ror(*mode),
    {
        let addr: u16 = self.get_operand_address(mode);
        let mut data: u8 = self.mem_read(addr);
        let old_carry = self.status.contains(CARRY);
        if low_bit(data) {
            self.status.insert(CARRY);
        } else {
            self.status.remove(CARRY);
        }
        data = shift_right(data, old_carry);
        self.mem_write(addr, data);
        self.update_zero_and_negative_flags(data);
    }

    /// ROR on the accumulator.
    pub fn ror_accumulator(&mut self)
        ensures
            final(self)@ == old(self)@.ror_accumulator(),
    {
        let mut data: u8 = self.register_a;
        let old_carry = self.status.contains(CARRY);
        if low_bit(data) {
            self.status.insert(CARRY);
        } else {
            self.status.remove(CARRY);
        }
        data = shift_right(data, old_carry);
        self.set_register_a(data);
    }

    /// JMP: the program counter takes the address that lies at it.
    pub fn jmp_absolute(&mut self)
        ensures
            final(self)@ == old(self)@.jmp_absolute(),
    {
        let addr: u16 = self.mem_read_u16(self.program_counter);
        self.program_counter = addr;
    }

    /// The indirect jump. A pointer whose low byte is 0xFF takes the
    /// target's high byte from the start of the pointer's own page, not
    /// from the next page.
    pub fn jump_indirect(&mut self)
        ensures
            final(self)@ == old(self)@.jump_indirect(),
    {
        let mem_address: u16 = self.mem_read_u16(self.program_counter);
        proof {
            lemma_page_edge(mem_address);
        }
        let indirect_ref: u16 = if mem_address & 0x00FF == 0x00FF {
            let lo: u8 = self.mem_read(mem_address);
            let hi: u8 = self.mem_read(mem_address & 0xFF00);
            make_word(lo, hi)
        } else {
            self.mem_read_u16(mem_address)
        };
        self.program_counter = indirect_ref;
    }

    /// JSR: pushes the address of the call's last byte and jumps to the
    /// address that lies at the program counter.
    pub fn jsr(&mut self)
        ensures
            final(self)@ == old(self)@.jsr(),
    {
        let target_at: u16 = self.program_counter;
        self.stack_push_u16(target_at.wrapping_add(2).wrapping_sub(1));
        let target_address: u16 = self.mem_read_u16(target_at);
        self.program_counter = target_address;
    }

    /// RTS: the program counter takes the popped address plus one.
    pub fn rts(&mut self)
        ensures
            final(self)@ == old(self)@.rts(),
    {
        let return_address: u16 = self.stack_pop_u16();
        self.program_counter = return_address.wrapping_add(1);
    }

    /// A conditional branch: when `condition` holds, the program counter
    /// moves past the displacement byte and then by the displacement, a
    /// signed byte.
    pub fn branch(&mut self, condition: bool)
        ensures
            final(self)@ == old(self)@.branch(condition),
    {
        if condition {
            let jump: u8 = self.mem_read(self.program_counter);
            let extended: u16 = if jump >= 0x80 {
                0xFF00 + jump as u16
            } else {
                jump as u16
            };
            self.program_counter = self.program_counter.wrapping_add(1).wrapping_add(extended);
        }
    }

    /// Pops the status byte, with Break cleared and the second break bit
    /// set, then the program counter.
    pub fn rti(&mut self)
        ensures
            final(self)@ == old(self)@.rti(),
    {
        self.plp();
        self.program_counter = self.stack_pop_u16();
    }

    /// LAX: the accumulator and X take the operand.
    pub fn lax(&mut self, mode: &AddressingMode)
        requires
            mode.resolvable(),
        ensures
            final(self)@ == old(self)@.lax(*mode),
    {
        self.lda(mode);
        self.tax();
    }

    /// AAX: the bits that the accumulator and X share are stored where the
    /// operand lies. No flag changes.
    pub fn aax(&mut self, mode: &AddressingMode)
        requires
            mode.resolvable(),
        ensures
            final(self)@ == old(self)@.aax(*mode),
    {
        let addr: u16 = self.get_operand_address(mode);
        let data: u8 = self.register_a & self.register_x;
        self.mem_write(addr, data);
    }

    /// DCP: the operand in memory goes down by one and the accumulator is
    /// compared with it.
    pub fn dcp(&mut self, mode: &AddressingMode)
        requires
            mode.resolvable(),
        ensures
            final(self)@ == old(self)@.dcp(*mode),
    {
        let addr: u16 = self.get_operand_address(mode);
        let mut data: u8 = self.mem_read(addr);
        data = data.wrapping_sub(1);
        self.mem_write(addr, data);
        if data <= self.register_a {
            self.status.insert(CARRY);
        } else {
            self.status.remove(CARRY);
        }
        self.update_zero_and_negative_flags(self.register_a.wrapping_sub(data));
    }

    /// ISC: the operand in memory goes up by one and is subtracted, with
    /// borrow, from the accumulator.
    pub fn isc(&mut self, mode: &AddressingMode)
        requires
            mode.resolvable(),
        ensures
            final(self)@ == old(self)@.isc(*mode),
    {
        let addr: u16 = self.get_operand_address(mode);
        let mut data: u8 = self.mem_read(addr);
        data = data.wrapping_add(1);
        self.mem_write(addr, data);
        self.add_to_register_a(0u8.wrapping_sub(data).wrapping_sub(1));
    }

    /// SLO: the operand in memory is shifted left and its bits are added to
    /// those of the accumulator.
    pub fn slo(&mut self, mode: &AddressingMode)
        requires
            mode.resolvable(),
        ensures
            final(self)@ == old(self)@.slo(*mode),
    {
        let addr: u16 = self.get_operand_address(mode);
        let mut data: u8 = self.mem_read(addr);
        if top_bit(data) {
            self.status.insert(CARRY);
        } else {
            self.status.remove(CARRY);
        }
        data = shift_left(data, false);
        self.mem_write(addr, data);
        self.update_zero_and_negative_flags(data);
        self.set_register_a(data | self.register_a);
    }

    /// Runs for at most `max_ticks` ticks: until BRK, until a byte that is
    /// no opcode, or until the ticks are used up, in which case the
    /// outcome is `Continue` and a further run goes on where this one
    /// stopped.
    pub fn run(&mut self, max_ticks: u64) -> (outcome: Outcome)
        ensures
            (final(self)@, outcome) == run(old(self)@, max_ticks as nat),
    {
        let idle = |cpu: &mut CPU|
            ensures
                *final(cpu) == *old(cpu),
            {
            };
        self.run_with_callback(idle, max_ticks)
    }

    /// Runs like `run`, and calls `callback` on the processor immediately
    /// before each fetch of an opcode byte: once for every tick, and once
    /// more before a byte that is no opcode. The callback may change the
    /// processor in any way; each tick starts from the state that the call
    /// before it left. With a callback that leaves the processor as it
    /// is, this is `run`.
    pub fn run_with_callback<F>(&mut self, callback: F, max_ticks: u64) -> (outcome: Outcome)
        where F: FnMut(&mut CPU)
        requires
            forall|cpu: &mut CPU| call_requires(callback, (cpu,)),
        ensures
            max_ticks == 0 ==> outcome == Outcome::Continue && final(self)@ == old(self)@,
            max_ticks > 0 ==> exists|cpu: &mut CPU| #[trigger]
                call_ensures(callback, (cpu,), ()) && step(final(cpu)@) == (final(self)@, outcome),
            (forall|cpu: &mut CPU| #[trigger]
                call_ensures(callback, (cpu,), ()) ==> final(cpu)@ == cpu@) ==> (
            final(self)@, outcome) == run(old(self)@, max_ticks as nat),
    {
        let mut call = callback;
        let mut left: u64 = max_ticks;
        while left > 0
            invariant
                call == callback,
                forall|cpu: &mut CPU| call_requires(callback, (cpu,)),
                left <= max_ticks,
                left == max_ticks ==> self@ == old(self)@,
                left < max_ticks ==> exists|cpu: &mut CPU| #[trigger]
                    call_ensures(callback, (cpu,), ()) && step(final(cpu)@) == (
                    self@,
                    Outcome::Continue,
                ),
                (forall|cpu: &mut CPU| #[trigger]
                    call_ensures(callback, (cpu,), ()) ==> final(cpu)@ == cpu@) ==> run(
                    self@,
                    left as nat,
                ) == run(old(self)@, max_ticks as nat),
            decreases left,
        {
            call(self);
            let ghost before = self@;
            let outcome = self.tick_if_recognized();
            assert(step(before) == (self@, outcome));
            match outcome {
                Outcome::Continue => {},
                _ => {
                    return outcome;
                },
            }
            left = left - 1;
        }
        Outcome::Continue
    }

    /// Loads and stores: a byte moves between memory and a register. Tells
    /// whether `code` is one of them; if it is not, nothing changes.
    fn execute_load_store(&mut self, code: u8, mode: &AddressingMode) -> (handled: bool)
        requires
            takes_operand(code) ==> mode.resolvable(),
        ensures
            handled == load_store(old(self)@, code, *mode).is_some(),
            final(self)@ == (match load_store(old(self)@, code, *mode) {
                Some(done) => done,
                None => old(self)@,
            }),
    {
        match code {
            0xA9 | 0xA5 | 0xB5 | 0xAD | 0xBD | 0xB9 | 0xA1 | 0xB1 => {
                self.lda(mode);
                true
            },
            0xA2 | 0xA6 | 0xB6 | 0xAE | 0xBE => {
                self.ldx(mode);
                true
            },
            0xA0 | 0xA4 | 0xB4 | 0xAC | 0xBC => {
                self.ldy(mode);
                true
            },
            0x85 | 0x95 | 0x8D | 0x9D | 0x99 | 0x81 | 0x91 => {
                self.sta(mode);
                true
            },
            0x86 | 0x96 | 0x8E => {
                self.stx(mode);
                true
            },
            0x84 | 0x94 | 0x8C => {
                self.sty(mode);
                true
            },
            _ => false,
        }
    }

    /// Transfers between registers and the stack pointer. Tells whether
    /// `code` is one of them; if it is not, nothing changes.
    fn execute_transfers(&mut self, code: u8) -> (handled: bool)
        ensures
            handled == transfers(old(self)@, code).is_some(),
            final(self)@ == (match transfers(old(self)@, code) {
                Some(done) => done,
                None => old(self)@,
            }),
    {
        match code {
            0xAA => {
                self.tax();
                true
            },
            0xA8 => {
                self.tay();
                true
            },
            0x8A => {
                self.txa();
                true
            },
            0x98 => {
                self.tya();
                true
            },
            0xBA => {
                self.tsx();
                true
            },
            0x9A => {
                self.txs();
                true
            },
            _ => false,
        }
    }

    /// Pushes and pops of the accumulator and the status byte. Tells whether
    /// `code` is one of them; if it is not, nothing changes.
    fn execute_stack(&mut self, code: u8) -> (handled: bool)
        ensures
            handled == stack(old(self)@, code).is_some(),
            final(self)@ == (match stack(old(self)@, code) {
                Some(done) => done,
                None => old(self)@,
            }),
    {
        match code {
            0x48 => {
                self.stack_push(self.register_a);
                true
            },
            0x08 => {
                self.php();
                true
            },
            0x68 => {
                self.pla();
                true
            },
            0x28 => {
                self.plp();
                true
            },
            _ => false,
        }
    }

    /// AND, EOR, ORA and BIT. Tells whether `code` is one of them; if it is
    /// not, nothing changes.
    fn execute_logical(&mut self, code: u8, mode: &AddressingMode) -> (handled: bool)
        requires
            takes_operand(code) ==> mode.resolvable(),
        ensures
            handled == logical(old(self)@, code, *mode).is_some(),
            final(self)@ == (match logical(old(self)@, code, *mode) {
                Some(done) => done,
                None => old(self)@,
            }),
    {
        match code {
            0x29 | 0x25 | 0x35 | 0x2D | 0x3D | 0x39 | 0x21 | 0x31 => {
                self.and(mode);
                true
            },
            0x49 | 0x45 | 0x55 | 0x4D | 0x5D | 0x59 | 0x41 | 0x51 => {
                self.eor(mode);
                true
            },
            0x09 | 0x05 | 0x15 | 0x0D | 0x1D | 0x19 | 0x01 | 0x11 => {
                self.ora(mode);
                true
            },
            0x24 | 0x2C => {
                self.bit(mode);
                true
            },
            _ => false,
        }
    }

    /// Addition, subtraction and the comparisons. Tells whether `code` is one
    /// of them; if it is not, nothing changes.
    fn execute_arithmetic(&mut self, code: u8, mode: &AddressingMode) -> (handled: bool)
        requires
            takes_operand(code) ==> mode.resolvable(),
        ensures
            handled == arithmetic(old(self)@, code, *mode).is_some(),
            final(self)@ == (match arithmetic(old(self)@, code, *mode) {
                Some(done) => done,
                None => old(self)@,
            }),
    {
        match code {
            0x69 | 0x65 | 0x75 | 0x6D | 0x7D | 0x79 | 0x61 | 0x71 => {
                self.adc(mode);
                true
            },
            0xE9 | 0xE5 | 0xF5 | 0xED | 0xFD | 0xF9 | 0xE1 | 0xF1 | 0xEB => {
                self.sbc(mode);
                true
            },
            0xC9 | 0xC5 | 0xD5 | 0xCD | 0xDD | 0xD9 | 0xC1 | 0xD1 => {
                self.compare(mode, self.register_a);
                true
            },
            0xE0 | 0xE4 | 0xEC => {
                self.compare(mode, self.register_x);
                true
            },
            0xC0 | 0xC4 | 0xCC => {
                self.compare(mode, self.register_y);
                true
            },
            _ => false,
        }
    }

    /// Increments and decrements of memory and of the index registers. Tells
    /// whether `code` is one of them; if it is not, nothing changes.
    fn execute_increments(&mut self, code: u8, mode: &AddressingMode) -> (handled: bool)
        requires
            takes_operand(code) ==> mode.resolvable(),
        ensures
            handled == increments(old(self)@, code, *mode).is_some(),
            final(self)@ == (match increments(old(self)@, code, *mode) {
                Some(done) => done,
                None => old(self)@,
            }),
    {
        match code {
            0xE6 | 0xF6 | 0xEE | 0xFE => {
                self.inc(mode);
                true
            },
            0xE8 => {
                self.inx();
                true
            },
            0xC8 => {
                self.iny();
                true
            },
            0xC6 | 0xD6 | 0xCE | 0xDE => {
                self.dec(mode);
                true
            },
            0xCA => {
                self.dex();
                true
            },
            0x88 => {
                self.dey();
                true
            },
            _ => false,
        }
    }

    /// Shifts and rotations of memory and of the accumulator. Tells whether
    /// `code` is one of them; if it is not, nothing changes.
    fn execute_shifts(&mut self, code: u8, mode: &AddressingMode) -> (handled: bool)
        requires
            takes_operand(code) ==> mode.resolvable(),
        ensures
            handled == shifts(old(self)@, code, *mode).is_some(),
            final(self)@ == (match shifts(old(self)@, code, *mode) {
                Some(done) => done,
                None => old(self)@,
            }),
    {
        match code {
            0x0A => {
                self.asl_accumulator();
                true
            },
            0x06 | 0x16 | 0x0E | 0x1E => {
                self.asl(mode);
                true
            },
            0x4A => {
                self.lsr_accumulator();
                true
            },
            0x46 | 0x56 | 0x4E | 0x5E => {
                self.lsr(mode);
                true
            },
            0x2A => {
                self.rol_accumulator();
                true
            },
            0x26 | 0x36 | 0x2E | 0x3E => {
                self.rol(mode);
                true
            },
            0x6A => {
                self.ror_accumulator();
                true
            },
            0x66 | 0x76 | 0x6E | 0x7E => {
                self.ror(mode);
                true
            },
            _ => false,
        }
    }

    /// Jumps, the call and the return. Tells whether `code` is one of them;
    /// if it is not, nothing changes.
    fn execute_jumps(&mut self, code: u8) -> (handled: bool)
        ensures
            handled == jumps(old(self)@, code).is_some(),
            final(self)@ == (match jumps(old(self)@, code) {
                Some(done) => done,
                None => old(self)@,
            }),
    {
        match code {
            0x4C => {
                self.jmp_absolute();
                true
            },
            0x6C => {
                self.jump_indirect();
                true
            },
            0x20 => {
                self.jsr();
                true
            },
            0x60 => {
                self.rts();
                true
            },
            _ => false,
        }
    }

    /// For the opcode byte of a conditional branch, whether its condition
    /// holds now; `None` for every other byte.
    fn branch_condition(&self, code: u8) -> (condition: Option<bool>)
        ensures
            condition == branch_condition(self@, code),
    {
        match code {
            0x90 => Some(!self.status.contains(CARRY)),
            0xB0 => Some(self.status.contains(CARRY)),
            0xF0 => Some(self.status.contains(ZERO)),
            0x30 => Some(self.status.contains(NEGATIVE)),
            0xD0 => Some(!self.status.contains(ZERO)),
            0x10 => Some(!self.status.contains(NEGATIVE)),
            0x70 => Some(self.status.contains(OVERFLOW)),
            0x50 => Some(!self.status.contains(OVERFLOW)),
            _ => None,
        }
    }

    /// The conditional branches. Tells whether `code` is one of them; if it
    /// is not, nothing changes.
    fn execute_branches(&mut self, code: u8) -> (handled: bool)
        ensures
            handled == branches(old(self)@, code).is_some(),
            final(self)@ == (match branches(old(self)@, code) {
                Some(done) => done,
                None => old(self)@,
            }),
    {
        match self.branch_condition(code) {
            Some(condition) => {
                self.branch(condition);
                true
            },
            None => false,
        }
    }

    /// Whether the instruction with opcode byte `code` sets the program
    /// counter itself when it is executed now: a jump, the call, a return,
    /// or a branch whose condition holds.
    fn sets_program_counter(&self, code: u8) -> (sets: bool)
        ensures
            sets == sets_pc(self@, code),
    {
        reveal(sets_pc);
        match code {
            0x4C | 0x6C | 0x20 | 0x60 | 0x40 => true,
            _ => match self.branch_condition(code) {
                Some(condition) => condition,
                None => false,
            },
        }
    }

    /// Instructions that set or clear one flag. Tells whether `code` is one
    /// of them; if it is not, nothing changes.
    fn execute_flag_changes(&mut self, code: u8) -> (handled: bool)
        ensures
            handled == flag_changes(old(self)@, code).is_some(),
            final(self)@ == (match flag_changes(old(self)@, code) {
                Some(done) => done,
                None => old(self)@,
            }),
    {
        match code {
            0x18 => {
                self.status.remove(CARRY);
                true
            },
            0xD8 => {
                self.status.remove(DECIMAL_MODE);
                true
            },
            0x58 => {
                self.status.remove(INTERRUPT_DISABLE);
                true
            },
            0xB8 => {
                self.status.remove(OVERFLOW);
                true
            },
            0x38 => {
                self.status.insert(CARRY);
                true
            },
            0xF8 => {
                self.status.insert(DECIMAL_MODE);
                true
            },
            0x78 => {
                self.status.insert(INTERRUPT_DISABLE);
                true
            },
            _ => false,
        }
    }

    /// NOP and the return from an interrupt. Tells whether `code` is one of
    /// them; if it is not, nothing changes.
    fn execute_system(&mut self, code: u8) -> (handled: bool)
        ensures
            handled == system(old(self)@, code).is_some(),
            final(self)@ == (match system(old(self)@, code) {
                Some(done) => done,
                None => old(self)@,
            }),
    {
        match code {
            0xEA => true,
            0x40 => {
                self.rti();
                true
            },
            _ => false,
        }
    }

    /// Undocumented opcodes: no-ops of several lengths, LAX, AAX, DCP, ISC
    /// and SLO. Tells whether `code` is one of them; if it is not, nothing
    /// changes.
    fn execute_undocumented(&mut self, code: u8, mode: &AddressingMode) -> (handled: bool)
        requires
            takes_operand(code) ==> mode.resolvable(),
        ensures
            handled == undocumented(old(self)@, code, *mode).is_some(),
            final(self)@ == (match undocumented(old(self)@, code, *mode) {
                Some(done) => done,
                None => old(self)@,
            }),
    {
        match code {
            0x04 | 0x14 | 0x34 | 0x44 | 0x54 | 0x64 | 0x74 | 0x80 | 0x82 | 0x89 | 0xC2 | 0xD4
            | 0xE2 | 0xF4 => true,
            0x0C | 0x1C | 0x3C | 0x5C | 0x7C | 0xDC | 0xFC => true,
            0x1A | 0x3A | 0x5A | 0x7A | 0xDA | 0xFA => true,
            0xA7 | 0xB7 | 0xAF | 0xBF | 0xA3 | 0xB3 => {
                self.lax(mode);
                true
            },
            0x87 | 0x97 | 0x83 | 0x8F => {
                self.aax(mode);
                true
            },
            0xC7 | 0xD7 | 0xCF | 0xDF | 0xDB | 0xC3 | 0xD3 => {
                self.dcp(mode);
                true
            },
            0xE7 | 0xF7 | 0xEF | 0xFF | 0xFB | 0xE3 | 0xF3 => {
                self.isc(mode);
                true
            },
            0x07 | 0x17 | 0x0F | 0x1F | 0x1B | 0x03 | 0x13 => {
                self.slo(mode);
                true
            },
            _ => false,
        }
    }

    /// Executes the instruction with opcode byte `code`, the program
    /// counter being already past that byte.
    fn execute(&mut self, code: u8, mode: &AddressingMode)
        requires
            takes_operand(code) ==> mode.resolvable(),
        ensures
            final(self)@ == execute(old(self)@, code, *mode),
    {
        reveal(execute);
        let _handled = self.execute_load_store(code, mode)
            || self.execute_transfers(code)
            || self.execute_stack(code)
            || self.execute_logical(code, mode)
            || self.execute_arithmetic(code, mode)
            || self.execute_increments(code, mode)
            || self.execute_shifts(code, mode)
            || self.execute_jumps(code)
            || self.execute_branches(code)
            || self.execute_flag_changes(code)
            || self.execute_system(code)
            || self.execute_undocumented(code, mode);
    }

    /// One step of a run: a tick where the byte at the program counter is
    /// an opcode. Where it is not, the byte is fetched and the run is
    /// over.
    fn tick_if_recognized(&mut self) -> (outcome: Outcome)
        ensures
            (final(self)@, outcome) == step(old(self)@),
    {
        if self.can_tick() {
            self.tick()
        } else {
            let code: u8 = self.mem_read(self.program_counter);
            self.program_counter = self.program_counter.wrapping_add(1);
            Outcome::Unrecognized(code)
        }
    }

    /// Whether the byte at the program counter is an opcode, so that the
    /// processor can be ticked.
    pub fn can_tick(&self) -> (ready: bool)
        ensures
            ready == recognized(self@),
    {
        let code: u8 = self.mem_read(self.program_counter);
        self.opcodes.get(code).is_some()
    }

    /// Executes one instruction: fetches the opcode byte, looks up its
    /// descriptor, executes, and moves the program counter past the
    /// operand bytes unless the instruction sets it itself.
    ///
    /// The byte at the program counter has to be an opcode: a byte without
    /// descriptor is fatal, and no tick is made on it. `can_tick` tells,
    /// and `run` tests before every tick.
    ///
    /// Time is not modelled: the cycles of the descriptor are not counted,
    /// and neither are the penalties for crossed pages and taken branches.
    /// There are no interrupts and no reset vector.
    pub fn tick(&mut self) -> (outcome: Outcome)
        requires
            recognized(old(self)@),
        ensures
            (final(self)@, outcome) == step(old(self)@),
            outcome == Outcome::Continue || outcome == Outcome::Break,
    {
        let code: u8 = self.mem_read(self.program_counter);
        self.program_counter = self.program_counter.wrapping_add(1);
        let opcode: OpCode = *self.opcodes.get(code).unwrap();
        if code == 0x00 {
            return Outcome::Break;
        }
        proof {
            lemma_descriptor_shape(code);
            if takes_operand(code) {
                lemma_operand_modes(code);
            }
        }
        let jumps = self.sets_program_counter(code);
        self.execute(code, &opcode.mode);
        if !jumps {
            self.program_counter = self.program_counter.wrapping_add((opcode.len - 1) as u16);
        }
        Outcome::Continue
    }
}

/// The low byte of `ptr` is 0xFF exactly when `ptr` is the last address of
/// its page, and clearing the low byte gives the page's first address.
proof fn lemma_page_edge(ptr: u16)
    ensures
        (ptr & 0x00FF == 0x00FF) == (low_byte(ptr) == 0xFF),
        ptr & 0xFF00 == word(0, high_byte(ptr)),
{
    assert((ptr & 0x00FF == 0x00FF) == (ptr % 0x100 == 0xFF)) by (bit_vector);
    assert(ptr & 0xFF00 == (ptr / 0x100) * 0x100) by (bit_vector);
}

} // verus!
