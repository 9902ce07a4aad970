//! Laws of the processor's model: what holds of every state and every
//! operand.

use vstd::prelude::*;
use crate::bus::{high_byte, low_byte, read16, wrap8, write16, BUS_SIZE};
use crate::flags::{
    flag_on, with_flag, BREAK, BREAK2, CARRY, DECIMAL_MODE, INTERRUPT_DISABLE, NEGATIVE, OVERFLOW,
    ZERO,
};
use crate::opcodes::AddressingMode;
use crate::state::{
    carry_sum, negated, set_zn, sign_overflow, signed, stack_address, CpuState,
};

verus! {

/// A 16-bit value stored at any address is read back from that address
/// unchanged, also where its two bytes lie at the last and the first
/// address of the bus.
pub proof fn lemma_word_round_trip(mem: Seq<u8>, pos: u16, data: u16)
    requires
        mem.len() == BUS_SIZE,
    ensures
        read16(write16(mem, pos, data), pos) == data,
{
}

/// A byte stored at any address is read back from that address unchanged,
/// and every other address keeps its byte.
pub proof fn lemma_byte_round_trip(mem: Seq<u8>, addr: u16, data: u8, other: u16)
    requires
        mem.len() == BUS_SIZE,
    ensures
        mem.update(addr as int, data)[addr as int] == data,
        other != addr ==> mem.update(addr as int, data)[other as int] == mem[other as int],
{
}

/// A reset after a reset changes nothing: the second one finds the state
/// that it would make.
pub proof fn lemma_reset_idempotent(s: CpuState)
    ensures
        s.reset().reset() == s.reset(),
{
}

/// Two resets from states with the same memory give the same state,
/// whatever the registers held.
pub proof fn lemma_reset_forgets_registers(s: CpuState, t: CpuState)
    requires
        s.mem == t.mem,
    ensures
        s.reset() == t.reset(),
{
}

/// After the Zero and Negative flags are taken from `v`, Zero is set
/// exactly when `v` is zero and Negative exactly when bit 7 of `v` is
/// set, whatever the status held before; the six other flags are as
/// before.
pub proof fn lemma_zero_negative(status: u8, v: u8)
    ensures
        flag_on(set_zn(status, v), ZERO) == (v == 0),
        flag_on(set_zn(status, v), NEGATIVE) == (v >= 0x80),
        flag_on(set_zn(status, v), NEGATIVE) == (v & 0x80 == 0x80),
        flag_on(set_zn(status, v), CARRY) == flag_on(status, CARRY),
        flag_on(set_zn(status, v), INTERRUPT_DISABLE) == flag_on(status, INTERRUPT_DISABLE),
        flag_on(set_zn(status, v), DECIMAL_MODE) == flag_on(status, DECIMAL_MODE),
        flag_on(set_zn(status, v), BREAK) == flag_on(status, BREAK),
        flag_on(set_zn(status, v), BREAK2) == flag_on(status, BREAK2),
        flag_on(set_zn(status, v), OVERFLOW) == flag_on(status, OVERFLOW),
{
    let z = v == 0;
    let n = v & 0x80 == 0x80;
    assert((v & 0x80 == 0x80) == (v >= 0x80)) by (bit_vector);
    let mid = if z {
        status | 0x02
    } else {
        status & !0x02u8
    };
    let end = if n {
        mid | 0x80
    } else {
        mid & !0x80u8
    };
    assert(set_zn(status, v) == end);
    assert(((status | 0x02) | 0x80) & 0x7d == status & 0x7d) by (bit_vector);
    assert(((status | 0x02) & !0x80u8) & 0x7d == status & 0x7d) by (bit_vector);
    assert(((status & !0x02u8) | 0x80) & 0x7d == status & 0x7d) by (bit_vector);
    assert(((status & !0x02u8) & !0x80u8) & 0x7d == status & 0x7d) by (bit_vector);
    assert(end & 0x7d == status & 0x7d);
    lemma_flags_of_byte(end, status);
    assert((((status | 0x02) | 0x80) & 0x02 == 0x02) && (((status | 0x02) & !0x80u8) & 0x02
        == 0x02)) by (bit_vector);
    assert((((status & !0x02u8) | 0x80) & 0x02 != 0x02) && (((status & !0x02u8) & !0x80u8) & 0x02
        != 0x02)) by (bit_vector);
    assert(((mid | 0x80) & 0x80 == 0x80) && ((mid & !0x80u8) & 0x80 != 0x80)) by (bit_vector);
}

/// Two status bytes that agree outside Zero and Negative agree in each of
/// the six other flags.
proof fn lemma_flags_of_byte(a: u8, b: u8)
    requires
        a & 0x7d == b & 0x7d,
    ensures
        flag_on(a, CARRY) == flag_on(b, CARRY),
        flag_on(a, INTERRUPT_DISABLE) == flag_on(b, INTERRUPT_DISABLE),
        flag_on(a, DECIMAL_MODE) == flag_on(b, DECIMAL_MODE),
        flag_on(a, BREAK) == flag_on(b, BREAK),
        flag_on(a, BREAK2) == flag_on(b, BREAK2),
        flag_on(a, OVERFLOW) == flag_on(b, OVERFLOW),
{
    assert(a & 0x7d == b & 0x7d ==> ((a & 0x01 == 0x01) == (b & 0x01 == 0x01)) && ((a & 0x04
        == 0x04) == (b & 0x04 == 0x04)) && ((a & 0x08 == 0x08) == (b & 0x08 == 0x08)) && ((a
        & 0x10 == 0x10) == (b & 0x10 == 0x10)) && ((a & 0x20 == 0x20) == (b & 0x20 == 0x20)) && ((a
        & 0x40 == 0x40) == (b & 0x40 == 0x40))) by (bit_vector);
}

/// The accumulator after an addition with carry, as a number.
pub open spec fn sum_result(a: u8, v: u8, carry: bool) -> u8 {
    wrap8(carry_sum(a, v, carry))
}

/// Subtracting `b` again after it was added gives the accumulator back,
/// up to the two carries: with `carry_in` added and a borrow taken
/// exactly when `carry_back` is clear, the result is `a + carry_in - 1`
/// or `a + carry_in`, cut to eight bits.
pub proof fn lemma_add_then_subtract(a: u8, b: u8, carry_in: bool, carry_back: bool)
    ensures
        sum_result(sum_result(a, b, carry_in), negated(b), carry_back) == wrap8(
            a + (if carry_in {
                1int
            } else {
                0int
            }) - (if carry_back {
                0int
            } else {
                1int
            }),
        ),
{
    let c_in = if carry_in {
        1int
    } else {
        0int
    };
    let c_back = if carry_back {
        1int
    } else {
        0int
    };
    let first = a + b + c_in;
    let cut = if first > 0xff {
        first - 0x100
    } else {
        first
    };
    assert(sum_result(a, b, carry_in) == cut);
    let second = cut + (0xff - b) + c_back;
    assert(carry_sum(cut as u8, negated(b), carry_back) == second);
    let wanted = a + c_in - (1 - c_back);
    assert(second == wanted + 0x100 || second == wanted);
    assert(-1 <= wanted <= 0x100);
}

/// Subtracting `b` again after it was added restores the accumulator when
/// the borrow of the subtraction takes back the carry of the addition:
/// the subtraction's carry flag is the opposite of the addition's.
pub proof fn lemma_add_then_subtract_restores(a: u8, b: u8, carry_in: bool)
    ensures
        sum_result(sum_result(a, b, carry_in), negated(b), !carry_in) == a,
{
    lemma_add_then_subtract(a, b, carry_in, !carry_in);
}

/// The same on states: ADC and then SBC of one operand, the carry flag
/// set between them to the opposite of what it was before the addition,
/// leave the accumulator as it was.
pub proof fn lemma_adc_then_sbc_restores(s: CpuState, b: u8)
    ensures
        s.add_to_a(b).with_flag(CARRY, !s.flag(CARRY)).add_to_a(negated(b)).a == s.a,
{
    let c = s.flag(CARRY);
    let added = s.add_to_a(b);
    assert(added.a == sum_result(s.a, b, c));
    let between = added.with_flag(CARRY, !c);
    crate::flags::lemma_with_flag_reads_back(added.status, CARRY, !c);
    assert(between.flag(CARRY) == !c);
    assert(between.add_to_a(negated(b)).a == sum_result(between.a, negated(b), !c));
    lemma_add_then_subtract_restores(s.a, b, c);
}

/// The sum of `a` and `v`, read as signed bytes, and of the carry.
pub open spec fn signed_sum(a: u8, v: u8, carry: bool) -> int {
    signed(a) + signed(v) + if carry {
        1int
    } else {
        0int
    }
}

/// The Overflow flag of an addition tells whether the sum of the two
/// operands, read as signed bytes, and of the carry lies outside the
/// range of a signed byte.
pub proof fn lemma_sign_overflow(a: u8, v: u8, carry: bool)
    ensures
        sign_overflow(a, v, sum_result(a, v, carry)) == !(-128 <= signed_sum(a, v, carry) <= 127),
{
    let r = sum_result(a, v, carry);
    assert(((v ^ r) & (r ^ a) & 0x80 != 0) == ((v >= 0x80) == (a >= 0x80) && (r >= 0x80) != (a
        >= 0x80))) by (bit_vector);
}

/// A comparison changes flags only: the three registers, the stack
/// pointer, the program counter and every byte of memory, the operand
/// among them, stay as they are.
pub proof fn lemma_compare_changes_flags_only(s: CpuState, mode: AddressingMode, reg: u8)
    ensures
        s.compare(mode, reg) == (CpuState { status: s.compare(mode, reg).status, ..s }),
        s.compare(mode, reg).operand(mode) == s.operand(mode),
{
}

/// What a comparison leaves in the flags: Carry tells whether the operand
/// is at most the register, Zero whether the two are equal, and Negative
/// is bit 7 of their difference.
pub proof fn lemma_compare_flags(s: CpuState, mode: AddressingMode, reg: u8)
    ensures
        s.compare(mode, reg).flag(CARRY) == (s.operand(mode) <= reg),
        s.compare(mode, reg).flag(ZERO) == (s.operand(mode) == reg),
        s.compare(mode, reg).flag(NEGATIVE) == (wrap8(reg - s.operand(mode)) >= 0x80),
{
    let v = s.operand(mode);
    let carried = with_flag(s.status, CARRY, v <= reg);
    crate::flags::lemma_with_flag_reads_back(s.status, CARRY, v <= reg);
    lemma_zero_negative(carried, wrap8(reg - v));
}

/// The indirect jump never leaves the pointer's page for the target's
/// high byte: for a pointer whose low byte is 0xFF the high byte comes
/// from the first address of the pointer's page, for every other pointer
/// from the address after it.
pub proof fn lemma_indirect_jump_page_edge(s: CpuState)
    ensures
        ({
            let ptr = read16(s.mem, s.pc);
            let target = s.jump_indirect().pc;
            &&& low_byte(target) == s.mem[ptr as int]
            &&& low_byte(ptr) == 0xFF ==> high_byte(target) == s.mem[ptr - 0xFF]
            &&& low_byte(ptr) != 0xFF ==> high_byte(target) == s.mem[ptr + 1]
        }),
{
}

/// A value on the stack: one byte, or a 16-bit value in two bytes.
pub enum StackItem {
    Byte(u8),
    Word(u16),
}

impl StackItem {
    /// The number of stack slots that the value takes.
    pub open spec fn width(self) -> nat {
        match self {
            StackItem::Byte(_) => 1,
            StackItem::Word(_) => 2,
        }
    }
}

/// The number of stack slots that `items` take together.
pub open spec fn total_width(items: Seq<StackItem>) -> nat
    decreases items.len(),
{
    if items.len() == 0 {
        0
    } else {
        total_width(items.drop_last()) + items.last().width()
    }
}

impl CpuState {
    /// The state after `item` is pushed.
    pub open spec fn push_item(self, item: StackItem) -> CpuState {
        match item {
            StackItem::Byte(v) => self.push(v),
            StackItem::Word(w) => self.push16(w),
        }
    }

    /// The state after a value as wide as `like` is popped, and that
    /// value.
    pub open spec fn pop_item(self, like: StackItem) -> (CpuState, StackItem) {
        match like {
            StackItem::Byte(_) => (self.popped(), StackItem::Byte(self.top())),
            StackItem::Word(_) => (self.popped16(), StackItem::Word(self.top16())),
        }
    }

    /// The state after `items` are pushed, the first one first.
    pub open spec fn push_all(self, items: Seq<StackItem>) -> CpuState
        decreases items.len(),
    {
        if items.len() == 0 {
            self
        } else {
            self.push_all(items.drop_last()).push_item(items.last())
        }
    }

    /// The state after one value is popped for each of `items`, as wide
    /// as that item and for the last item first, and the popped values in
    /// the order in which they came off.
    pub open spec fn pop_all(self, items: Seq<StackItem>) -> (CpuState, Seq<StackItem>)
        decreases items.len(),
    {
        if items.len() == 0 {
            (self, Seq::empty())
        } else {
            let (after_one, value) = self.pop_item(items.last());
            let (after_all, rest) = after_one.pop_all(items.drop_last());
            (after_all, seq![value] + rest)
        }
    }
}

/// Pushing changes nothing but the stack pointer and the memory.
proof fn lemma_push_all_frame(s: CpuState, items: Seq<StackItem>)
    requires
        s.wf(),
    ensures
        s.push_all(items).wf(),
        s.push_all(items) == (CpuState {
            sp: s.push_all(items).sp,
            mem: s.push_all(items).mem,
            ..s
        }),
    decreases items.len(),
{
    if items.len() > 0 {
        lemma_push_all_frame(s, items.drop_last());
    }
}

/// The address of the stack slot `k` slots above the one that `sp` names,
/// around the edge of the stack page.
#[verifier::opaque]
pub open spec fn slot_above(sp: u8, k: int) -> int {
    stack_address(wrap8(sp + k)) as int
}

/// A push leaves the slots above the stack pointer alone, as long as the
/// pushed value and those slots fit into the stack page together.
proof fn lemma_push_item_keeps(p: CpuState, item: StackItem, k: int)
    requires
        p.wf(),
        1 <= k <= 0x100 - item.width(),
    ensures
        p.push_item(item).mem[slot_above(p.sp, k)] == p.mem[slot_above(p.sp, k)],
{
    reveal(slot_above);
    assert(wrap8(p.sp + k) != p.sp);
    assert(item.width() == 2 ==> wrap8(p.sp + k) != wrap8(p.sp - 1));
}

/// A pop from any state that has the stack pointer and the top slots that
/// a push of `item` onto `p` leaves gives `item` back and the stack
/// pointer of `p`.
proof fn lemma_pop_item_returns(t: CpuState, p: CpuState, item: StackItem)
    requires
        p.wf(),
        t.wf(),
        t.sp == p.push_item(item).sp,
        forall|k: int|
            1 <= k <= item.width() ==> t.mem[#[trigger] slot_above(t.sp, k)] == p.push_item(
                item,
            ).mem[slot_above(t.sp, k)],
    ensures
        t.pop_item(item) == (CpuState { sp: p.sp, ..t }, item),
{
    reveal(slot_above);
    let q = p.push_item(item);
    assert(t.mem[slot_above(t.sp, 1)] == q.mem[slot_above(t.sp, 1)]);
    match item {
        StackItem::Byte(v) => {
            assert(wrap8(t.sp + 1) == p.sp);
        },
        StackItem::Word(v) => {
            assert(t.mem[slot_above(t.sp, 2)] == q.mem[slot_above(t.sp, 2)]);
            assert(wrap8(t.sp + 1) == wrap8(p.sp - 1));
            assert(wrap8(t.sp + 2) == p.sp);
            assert(wrap8(wrap8(t.sp + 1) + 1) == p.sp);
            assert(wrap8(wrap8(t.sp + 1) + 1) == wrap8(t.sp + 2));
            crate::bus::lemma_bytes_word(v);
        },
    }
}

/// Popping from any state whose stack pointer and live stack slots are
/// those that pushing `items` onto `s` leaves gives the items back, the
/// last first, and the stack pointer of `s`.
proof fn lemma_pop_all_returns(t: CpuState, s: CpuState, items: Seq<StackItem>)
    requires
        s.wf(),
        t.wf(),
        total_width(items) <= 0x100,
        t.sp == s.push_all(items).sp,
        forall|k: int|
            1 <= k <= total_width(items) ==> t.mem[#[trigger] slot_above(t.sp, k)] == s.push_all(
                items,
            ).mem[slot_above(t.sp, k)],
    ensures
        t.pop_all(items).1 == items.reverse(),
        t.pop_all(items).0 == (CpuState { sp: s.sp, ..t }),
    decreases items.len(),
{
    if items.len() == 0 {
        assert(items.reverse() =~= Seq::<StackItem>::empty());
    } else {
        let init = items.drop_last();
        let last = items.last();
        let p = s.push_all(init);
        let w = last.width() as int;
        lemma_push_all_frame(s, init);
        assert(s.push_all(items) == p.push_item(last));
        assert(total_width(items) == total_width(init) + w);
        assert forall|k: int| 1 <= k <= last.width() implies t.mem[#[trigger] slot_above(t.sp, k)]
            == p.push_item(last).mem[slot_above(t.sp, k)] by {
        }
        lemma_pop_item_returns(t, p, last);
        let after_one = CpuState { sp: p.sp, ..t };
        assert(t.pop_item(last) == (after_one, last));
        assert forall|k: int| 1 <= k <= total_width(init) implies 
            after_one.mem[#[trigger] slot_above(after_one.sp, k)] == p.mem[slot_above(after_one.sp, k)] by {
            lemma_slot_shift(p.sp, w, k);
            assert(slot_above(p.sp, k) == slot_above(t.sp, k + w));
            assert(t.mem[slot_above(t.sp, k + w)] == p.push_item(last).mem[slot_above(
                t.sp,
                k + w,
            )]);
            lemma_push_item_keeps(p, last, k);
        }
        lemma_pop_all_returns(after_one, s, init);
        assert(items.reverse() =~= seq![last] + init.reverse());
    }
}

/// The slot `k` above a stack pointer is the slot `k + w` above the
/// pointer that lies `w` slots lower.
proof fn lemma_slot_shift(sp: u8, w: int, k: int)
    requires
        1 <= w <= 2,
        0 <= k <= 0x100,
    ensures
        slot_above(sp, k) == slot_above(wrap8(sp - w), k + w),
{
    reveal(slot_above);
}

/// Pushes followed by the matching pops are last in, first out. After
/// any values, one or two bytes wide in any mix, are pushed and as many
/// values of the same widths are popped, the last width first, the
/// popped values are the pushed ones in reverse order, the stack pointer
/// is where it was, and the registers and flags are as before. The
/// values may take up to 256 slots together: the stack page has no more.
pub proof fn lemma_stack_last_in_first_out(s: CpuState, items: Seq<StackItem>)
    requires
        s.wf(),
        total_width(items) <= 0x100,
    ensures
        s.push_all(items).pop_all(items).1 == items.reverse(),
        s.push_all(items).pop_all(items).0.sp == s.sp,
        s.push_all(items).pop_all(items).0 == (CpuState {
            mem: s.push_all(items).mem,
            ..s
        }),
{
    lemma_push_all_frame(s, items);
    lemma_pop_all_returns(s.push_all(items), s, items);
}

} // verus!
