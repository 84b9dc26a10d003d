use vstd::prelude::*;

use crate::isa::{
    decode, lemma_opcode_byte_injective, mode_bits, reg1_bits, reg2_bits, AddressingMode,
    Instruction, Opcode,
};
use crate::memory::MAX_MEMORY_SIZE;
use crate::semantics::{wrap16, CpuState};

verus! {

/// Whatever decoding yields is a well-formed instruction.
pub proof fn lemma_decoded_wf(mem: Seq<u8>, pc: u16)
    ensures
        decode(mem, pc).0 matches Ok(i) ==> i.wf(),
{
}

/// An operand byte is the sum of its three fields.
proof fn lemma_operand_fields(b: u8)
    ensures
        mode_bits(b) < 4,
        b == mode_bits(b) * 64 + reg1_bits(b) * 8 + reg2_bits(b),
{
    assert(b / 64 < 4 && b == (b / 64) * 64 + ((b / 8) % 8) * 8 + b % 8) by (nonlinear_arith)
        requires
            b < 256,
    ;
}

/// The fields of an operand byte built from a mode code and two register numbers.
proof fn lemma_operand_of_fields(c: u8, r1: u8, r2: u8)
    requires
        c < 4,
        r1 < 8,
        r2 < 8,
    ensures
        mode_bits((c * 64 + r1 * 8 + r2) as u8) == c,
        reg1_bits((c * 64 + r1 * 8 + r2) as u8) == r1,
        reg2_bits((c * 64 + r1 * 8 + r2) as u8) == r2,
{
    let b: int = c * 64 + r1 * 8 + r2;
    assert(b / 64 == c && (b / 8) % 8 == r1 && b % 8 == r2 && 0 <= b < 256) by (nonlinear_arith)
        requires
            b == c * 64 + r1 * 8 + r2,
            c < 4,
            r1 < 8,
            r2 < 8,
    ;
}

/// Decoding then re-encoding gives back the bytes that were decoded: the
/// instruction decoded at `pc` is encoded by exactly the bytes from `pc` up
/// to where decoding left the program counter.
pub proof fn lemma_decode_then_encode(mem: Seq<u8>, pc: u16)
    requires
        mem.len() <= MAX_MEMORY_SIZE,
        decode(mem, pc).0 is Ok,
    ensures
        ({
            let (d, end) = decode(mem, pc);
            &&& end == pc + d->Ok_0.encoding().len()
            &&& mem.subrange(pc as int, end as int) == d->Ok_0.encoding()
        }),
{
    let (d, end) = decode(mem, pc);
    let i = d->Ok_0;
    let b = mem[pc + 1];
    lemma_operand_fields(b);
    assert(i.opcode.byte() == mem[pc as int]);
    assert(i.mode.code() == mode_bits(b));
    assert(i.operand_byte() == b);
    match i.data {
        Some(v) => {
            assert(end == pc + 3);
            assert(v == mem[pc + 2]);
            assert(mem.subrange(pc as int, end as int) =~= seq![mem[pc as int], b, v]);
        },
        None => {
            assert(end == pc + 2);
            assert(mem.subrange(pc as int, end as int) =~= seq![mem[pc as int], b]);
        },
    }
}

/// Encoding then decoding gives back the instruction: a well-formed
/// instruction decodes from its own bytes, consuming all of them.
pub proof fn lemma_encode_then_decode(i: Instruction)
    requires
        i.wf(),
    ensures
        decode(i.encoding(), 0) == (Ok::<Instruction, crate::Fault>(i), i.encoding().len() as u16),
{
    let mem = i.encoding();
    let b = i.operand_byte();
    lemma_operand_of_fields(i.mode.code(), i.reg1, i.reg2);
    lemma_opcode_byte_injective();
    assert(Opcode::spec_from_byte(i.opcode.byte()) == Some(i.opcode));
    assert(AddressingMode::spec_from_byte(i.mode.code()) == Some(i.mode));
    assert(mem[0] == i.opcode.byte());
    assert(mem[1] == b);
}

/// LOAD and MOV with an immediate `v` into register `r`: afterwards `r` holds
/// `v` zero-extended, `zero` tells whether `v` is 0, and no other register
/// changes.
pub proof fn lemma_load_immediate(s: CpuState, i: Instruction, v: u8)
    requires
        s.regs.len() == 8,
        i.wf(),
        i.opcode == Opcode::LOAD || i.opcode == Opcode::MOV,
        i.data == Some(v),
    ensures
        s.operate(i) matches Ok(t) && {
            &&& t.reg(i.reg1) == v as u16
            &&& t.flags.zero == (v == 0)
            &&& forall|k: u8| k < 8 && k != i.reg1 ==> t.reg(k) == s.reg(k)
        },
{
}

/// ADD of `v` to register `r`: `r` becomes `r + v` modulo 2^16, `zero` tells
/// whether the new value is 0, and carry and overflow are set exactly when the
/// wrapped sum is below the value before, which is exactly when the true sum
/// exceeds 16 bits.
pub proof fn lemma_add_immediate(s: CpuState, i: Instruction, v: u8)
    requires
        s.regs.len() == 8,
        i.wf(),
        i.opcode == Opcode::ADD,
        i.data == Some(v),
    ensures
        s.operate(i) matches Ok(t) && {
            let before = s.reg(i.reg1);
            let after = t.reg(i.reg1);
            &&& after == (before + v) % 0x10000
            &&& t.flags.zero == (after == 0)
            &&& t.flags.carry == (after < before)
            &&& t.flags.overflow == (after < before)
            &&& (after < before) == (before + v > 0xFFFF)
        },
{
}

/// SWAP of registers `a` and `b`: each ends with the other's value, and no
/// flag changes.
pub proof fn lemma_swap(s: CpuState, i: Instruction)
    requires
        s.regs.len() == 8,
        i.wf(),
        i.opcode == Opcode::SWAP,
    ensures
        s.operate(i) matches Ok(t) && {
            &&& t.reg(i.reg1) == s.reg(i.reg2)
            &&& t.reg(i.reg2) == s.reg(i.reg1)
            &&& t.flags == s.flags
        },
{
}

/// Moving a 16-bit pointer down by `k` and back up by `k` returns it.
proof fn lemma_wrap_down_up(p: u16, k: int)
    requires
        0 <= k <= 2,
    ensures
        wrap16(wrap16(p - k) + k) == p,
{
}

proof fn lemma_push_pop_stack(s: CpuState, push: Instruction, pop: Instruction, v: u8)
    requires
        s.regs.len() == 8,
        pop.wf(),
        push.data == Some(v),
        s.push(push) is Ok,
    ensures
        s.push(push)->Ok_0.pop(pop) matches Ok(t) && t.sp == s.sp && t.reg(pop.reg1) == v as u16,
{
    lemma_wrap_down_up(s.sp, 1);
}

/// PUSH of `v` then POP into a register: the stack pointer is back where it
/// was before the push, and the register holds `v` zero-extended.
pub proof fn lemma_push_then_pop(s: CpuState, push: Instruction, pop: Instruction, v: u8)
    requires
        s.regs.len() == 8,
        push.opcode == Opcode::PUSH,
        push.data == Some(v),
        pop.wf(),
        pop.opcode == Opcode::POP,
        s.operate(push) is Ok,
    ensures
        s.operate(push)->Ok_0.operate(pop) matches Ok(t) && {
            &&& t.sp == s.sp
            &&& t.reg(pop.reg1) == v as u16
        },
{
    assert(s.operate(push) == s.push(push));
    assert(s.push(push)->Ok_0.operate(pop) == s.push(push)->Ok_0.pop(pop));
    lemma_push_pop_stack(s, push, pop, v);
}

proof fn lemma_call_ret_stack(s: CpuState, call: Instruction)
    requires
        call.data is Some,
        s.call(call) is Ok,
    ensures
        s.call(call)->Ok_0.ret() matches Ok(t) && t.pc == s.pc && t.sp == s.sp,
{
    let t1 = s.call(call)->Ok_0;
    let lo_at = wrap16(s.sp - 2);
    let hi_at = wrap16(s.sp - 1);
    lemma_wrap_down_up(s.sp, 2);
    lemma_wrap_down_up(s.sp, 1);
    assert(wrap16(lo_at + 1) == hi_at);
    assert(lo_at != hi_at);
    assert(t1.mem[lo_at as int] == (s.pc % 256) as u8);
    assert(t1.mem[hi_at as int] == (s.pc / 256) as u8);
}

/// CALL then RET: the program counter returns to where it stood when CALL
/// executed, and the stack pointer to where it stood before CALL.
pub proof fn lemma_call_then_ret(s: CpuState, call: Instruction, ret: Instruction)
    requires
        call.opcode == Opcode::CALL,
        call.data is Some,
        ret.opcode == Opcode::RET,
        s.operate(call) is Ok,
    ensures
        s.operate(call)->Ok_0.operate(ret) matches Ok(t) && t.pc == s.pc && t.sp == s.sp,
{
    assert(s.operate(call) == s.call(call));
    assert(s.call(call)->Ok_0.operate(ret) == s.call(call)->Ok_0.ret());
    lemma_call_ret_stack(s, call);
}

/// A CALL reached by a cycle, then RET: the program counter after RET is the
/// address right after the CALL instruction's bytes, and the stack pointer is
/// back where it was before the cycle.
pub proof fn lemma_call_cycle_then_ret(s: CpuState, ret: Instruction)
    requires
        s.mem.len() <= MAX_MEMORY_SIZE,
        decode(s.mem, s.pc).0 matches Ok(i) && i.opcode == Opcode::CALL && i.data is Some,
        s.step().1 is Ok,
        ret.opcode == Opcode::RET,
    ensures
        s.step().0.operate(ret) matches Ok(t) && {
            &&& t.pc == s.pc + decode(s.mem, s.pc).0->Ok_0.encoding().len()
            &&& t.sp == s.sp
        },
{
    reveal(CpuState::step);
    let (d, end) = decode(s.mem, s.pc);
    let call = d->Ok_0;
    lemma_decode_then_encode(s.mem, s.pc);
    let s1 = CpuState { pc: end, ..s };
    let s2 = CpuState { last: Some(call), ..s1 };
    lemma_call_then_ret(s2, call, ret);
}

} // verus!
