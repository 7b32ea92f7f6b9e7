//! Arithmetic, logic, shift, conversion and comparison instructions.
use vstd::prelude::*;
use crate::class::ARITHMETIC;
use crate::frame::{
    double_of, double_on, float_of, float_on, int_of, int_on, long_of, long_on, popped, room, stack_is,
    stack_step, Frame,
};
use crate::thread::{raised, JavaThread};
use crate::value::{
    add_i32, add_i64, f32_to_int, f32_to_integer, f64_to_int, f64_to_integer, cmp_f32, cmp_f64, cmp_i64, compare, dcmp, fcmp, neg_i32, neg_i64, div_i32, div_i64, mul_i32, mul_i64, rem_i32, rem_i64, sub_i32, sub_i64, trunc_div,
    trunc_rem, wrap_i32, wrap_i64, Slot, VmError,
};

verus! {

/// The binary `int` and `long` operations that cannot fail.
#[derive(Clone, Copy, Debug, PartialEq, Eq, Structural)]
pub enum BinOp {
    Add,
    Sub,
    Mul,
    And,
    Or,
    Xor,
}

/// The shifts. The count is masked to 5 bits for `int`, 6 bits for `long`.
#[derive(Clone, Copy, Debug, PartialEq, Eq, Structural)]
pub enum ShiftOp {
    Shl,
    Shr,
    Ushr,
}

/// Result of an `int` operation: two's complement, wrapping modulo 2^32.
pub open spec fn int_op(op: BinOp, x: i32, y: i32) -> i32 {
    match op {
        BinOp::Add => wrap_i32(x + y) as i32,
        BinOp::Sub => wrap_i32(x - y) as i32,
        BinOp::Mul => wrap_i32(x * y) as i32,
        BinOp::And => x & y,
        BinOp::Or => x | y,
        BinOp::Xor => x ^ y,
    }
}

/// Result of a `long` operation: two's complement, wrapping modulo 2^64.
pub open spec fn long_op(op: BinOp, x: i64, y: i64) -> i64 {
    match op {
        BinOp::Add => wrap_i64(x + y) as i64,
        BinOp::Sub => wrap_i64(x - y) as i64,
        BinOp::Mul => wrap_i64(x * y) as i64,
        BinOp::And => x & y,
        BinOp::Or => x | y,
        BinOp::Xor => x ^ y,
    }
}

/// `ishl`, `ishr`, `iushr`: the count is `y & 0x1f`.
pub open spec fn int_shift(op: ShiftOp, x: i32, y: i32) -> i32 {
    let n = (y & 0x1f) as u32;
    match op {
        ShiftOp::Shl => x.wrapping_shl(n),
        ShiftOp::Shr => x.wrapping_shr(n),
        ShiftOp::Ushr => (x as u32).wrapping_shr(n) as i32,
    }
}

/// `lshl`, `lshr`, `lushr`: the count is `y & 0x3f`.
pub open spec fn long_shift(op: ShiftOp, x: i64, y: i32) -> i64 {
    let n = (y & 0x3f) as u32;
    match op {
        ShiftOp::Shl => x.wrapping_shl(n),
        ShiftOp::Shr => x.wrapping_shr(n),
        ShiftOp::Ushr => (x as u64).wrapping_shr(n) as i64,
    }
}

/// The detail message of an integer division by zero: `/ by zero`.
pub open spec fn by_zero_message() -> Seq<u8> {
    seq![47u8, 32u8, 98u8, 121u8, 32u8, 122u8, 101u8, 114u8, 111u8]
}

pub fn by_zero_text() -> (r: Vec<u8>)
    ensures
        r@ == by_zero_message(),
{
    let r = vec![47u8, 32u8, 98u8, 121u8, 32u8, 122u8, 101u8, 114u8, 111u8];
    assert(r@ =~= by_zero_message());
    r
}

pub open spec fn int_binop_step(a: Frame, b: Frame, r: Result<(), VmError>, op: BinOp) -> bool {
    let s = a.stack@;
    stack_step(a, b, r, int_on(s, 0) && int_on(s, 1),
        popped(s, 2).push(Slot::Int(int_op(op, int_of(s, 1), int_of(s, 0)))))
}

pub open spec fn long_binop_step(a: Frame, b: Frame, r: Result<(), VmError>, op: BinOp) -> bool {
    let s = a.stack@;
    stack_step(a, b, r, long_on(s, 0) && long_on(s, 2),
        popped(s, 4).push(Slot::Long(long_op(op, long_of(s, 2), long_of(s, 0)))).push(Slot::Top))
}

pub open spec fn int_shift_step(a: Frame, b: Frame, r: Result<(), VmError>, op: ShiftOp) -> bool {
    let s = a.stack@;
    stack_step(a, b, r, int_on(s, 0) && int_on(s, 1),
        popped(s, 2).push(Slot::Int(int_shift(op, int_of(s, 1), int_of(s, 0)))))
}

pub open spec fn long_shift_step(a: Frame, b: Frame, r: Result<(), VmError>, op: ShiftOp) -> bool {
    let s = a.stack@;
    stack_step(a, b, r, int_on(s, 0) && long_on(s, 1),
        popped(s, 3).push(Slot::Long(long_shift(op, long_of(s, 1), int_of(s, 0)))).push(Slot::Top))
}

/// `idiv`/`irem` (`long == false`) and `ldiv`/`lrem` (`long == true`): a zero
/// divisor raises `ArithmeticException("/ by zero")` and pops both operands.
pub open spec fn div_step(
    a: Frame, b: Frame, ta: JavaThread, tb: JavaThread, r: Result<(), VmError>, long: bool, rem: bool,
) -> bool {
    let s = a.stack@;
    let pre = if long { long_on(s, 0) && long_on(s, 2) } else { int_on(s, 0) && int_on(s, 1) };
    let n: int = if long { 4 } else { 2 };
    let x: int = if long { long_of(s, 2) as int } else { int_of(s, 1) as int };
    let y: int = if long { long_of(s, 0) as int } else { int_of(s, 0) as int };
    let q: int = if rem { trunc_rem(x, y) } else if long { wrap_i64(trunc_div(x, y)) } else { wrap_i32(trunc_div(x, y)) };
    let pushed = if long { popped(s, n).push(Slot::Long(q as i64)).push(Slot::Top) } else { popped(s, n).push(Slot::Int(q as i32)) };
    &&& (r is Ok <==> pre)
    &&& (r is Err ==> b == a && tb == ta)
    &&& (r is Ok ==> if y == 0 {
        stack_is(a, b, popped(s, n)) && raised(ta, tb, ARITHMETIC, Some(by_zero_message()))
    } else {
        stack_is(a, b, pushed) && tb == ta
    })
}

impl Frame {
    fn int_binop(&mut self, op: BinOp) -> (r: Result<(), VmError>)
        requires
            old(self).wf(),
        ensures
            final(self).wf(),
            int_binop_step(*old(self), *final(self), r, op),
    {
        if !(self.has_int(0) && self.has_int(1)) {
            return Err(VmError::BadOperand);
        }
        let y = self.int_at(0);
        let x = self.int_at(1);
        let v = match op {
            BinOp::Add => add_i32(x, y),
            BinOp::Sub => sub_i32(x, y),
            BinOp::Mul => mul_i32(x, y),
            BinOp::And => x & y,
            BinOp::Or => x | y,
            BinOp::Xor => x ^ y,
        };
        self.replace_top(2, Slot::Int(v));
        Ok(())
    }

    fn long_binop(&mut self, op: BinOp) -> (r: Result<(), VmError>)
        requires
            old(self).wf(),
        ensures
            final(self).wf(),
            long_binop_step(*old(self), *final(self), r, op),
    {
        if !(self.has_long(0) && self.has_long(2)) {
            return Err(VmError::BadOperand);
        }
        let y = self.long_at(0);
        let x = self.long_at(2);
        let v = match op {
            BinOp::Add => add_i64(x, y),
            BinOp::Sub => sub_i64(x, y),
            BinOp::Mul => mul_i64(x, y),
            BinOp::And => x & y,
            BinOp::Or => x | y,
            BinOp::Xor => x ^ y,
        };
        self.replace_top_wide(4, Slot::Long(v));
        Ok(())
    }

    fn int_shift(&mut self, op: ShiftOp) -> (r: Result<(), VmError>)
        requires
            old(self).wf(),
        ensures
            final(self).wf(),
            int_shift_step(*old(self), *final(self), r, op),
    {
        if !(self.has_int(0) && self.has_int(1)) {
            return Err(VmError::BadOperand);
        }
        let y = self.int_at(0);
        let x = self.int_at(1);
        let n = (y & 0x1f) as u32;
        let v = match op {
            ShiftOp::Shl => x.wrapping_shl(n),
            ShiftOp::Shr => x.wrapping_shr(n),
            ShiftOp::Ushr => (x as u32).wrapping_shr(n) as i32,
        };
        self.replace_top(2, Slot::Int(v));
        Ok(())
    }

    fn long_shift(&mut self, op: ShiftOp) -> (r: Result<(), VmError>)
        requires
            old(self).wf(),
        ensures
            final(self).wf(),
            long_shift_step(*old(self), *final(self), r, op),
    {
        if !(self.has_int(0) && self.has_long(1)) {
            return Err(VmError::BadOperand);
        }
        let y = self.int_at(0);
        let x = self.long_at(1);
        let n = (y & 0x3f) as u32;
        let v = match op {
            ShiftOp::Shl => x.wrapping_shl(n),
            ShiftOp::Shr => x.wrapping_shr(n),
            ShiftOp::Ushr => (x as u64).wrapping_shr(n) as i64,
        };
        self.replace_top_wide(3, Slot::Long(v));
        Ok(())
    }

    fn divide(&mut self, thread: &mut JavaThread, long: bool, rem: bool) -> (r: Result<(), VmError>)
        requires
            old(thread).wf(),
            old(self).wf(),
        ensures
            final(thread).wf(),
            final(self).wf(),
            div_step(*old(self), *final(self), *old(thread), *final(thread), r, long, rem),
    {
        if long {
            if !(self.has_long(0) && self.has_long(2)) {
                return Err(VmError::BadOperand);
            }
            let y = self.long_at(0);
            let x = self.long_at(2);
            if y == 0 {
                self.drop_slots(4);
                thread.raise(ARITHMETIC, Some(by_zero_text()));
            } else {
                let v = if rem { rem_i64(x, y) } else { div_i64(x, y) };
                self.replace_top_wide(4, Slot::Long(v));
            }
        } else {
            if !(self.has_int(0) && self.has_int(1)) {
                return Err(VmError::BadOperand);
            }
            let y = self.int_at(0);
            let x = self.int_at(1);
            if y == 0 {
                self.drop_slots(2);
                thread.raise(ARITHMETIC, Some(by_zero_text()));
            } else {
                let v = if rem { rem_i32(x, y) } else { div_i32(x, y) };
                self.replace_top(2, Slot::Int(v));
            }
        }
        Ok(())
    }

    pub fn iadd(&mut self) -> (r: Result<(), VmError>)
        requires
            old(self).wf(),
        ensures
            final(self).wf(),
            int_binop_step(*old(self), *final(self), r, BinOp::Add),
    {
        self.int_binop(BinOp::Add)
    }

    pub fn isub(&mut self) -> (r: Result<(), VmError>)
        requires
            old(self).wf(),
        ensures
            final(self).wf(),
            int_binop_step(*old(self), *final(self), r, BinOp::Sub),
    {
        self.int_binop(BinOp::Sub)
    }

    pub fn imul(&mut self) -> (r: Result<(), VmError>)
        requires
            old(self).wf(),
        ensures
            final(self).wf(),
            int_binop_step(*old(self), *final(self), r, BinOp::Mul),
    {
        self.int_binop(BinOp::Mul)
    }

    pub fn iand(&mut self) -> (r: Result<(), VmError>)
        requires
            old(self).wf(),
        ensures
            final(self).wf(),
            int_binop_step(*old(self), *final(self), r, BinOp::And),
    {
        self.int_binop(BinOp::And)
    }

    pub fn ior(&mut self) -> (r: Result<(), VmError>)
        requires
            old(self).wf(),
        ensures
            final(self).wf(),
            int_binop_step(*old(self), *final(self), r, BinOp::Or),
    {
        self.int_binop(BinOp::Or)
    }

    pub fn ixor(&mut self) -> (r: Result<(), VmError>)
        requires
            old(self).wf(),
        ensures
            final(self).wf(),
            int_binop_step(*old(self), *final(self), r, BinOp::Xor),
    {
        self.int_binop(BinOp::Xor)
    }

    pub fn ladd(&mut self) -> (r: Result<(), VmError>)
        requires
            old(self).wf(),
        ensures
            final(self).wf(),
            long_binop_step(*old(self), *final(self), r, BinOp::Add),
    {
        self.long_binop(BinOp::Add)
    }

    pub fn lsub(&mut self) -> (r: Result<(), VmError>)
        requires
            old(self).wf(),
        ensures
            final(self).wf(),
            long_binop_step(*old(self), *final(self), r, BinOp::Sub),
    {
        self.long_binop(BinOp::Sub)
    }

    pub fn lmul(&mut self) -> (r: Result<(), VmError>)
        requires
            old(self).wf(),
        ensures
            final(self).wf(),
            long_binop_step(*old(self), *final(self), r, BinOp::Mul),
    {
        self.long_binop(BinOp::Mul)
    }

    pub fn land(&mut self) -> (r: Result<(), VmError>)
        requires
            old(self).wf(),
        ensures
            final(self).wf(),
            long_binop_step(*old(self), *final(self), r, BinOp::And),
    {
        self.long_binop(BinOp::And)
    }

    pub fn lor(&mut self) -> (r: Result<(), VmError>)
        requires
            old(self).wf(),
        ensures
            final(self).wf(),
            long_binop_step(*old(self), *final(self), r, BinOp::Or),
    {
        self.long_binop(BinOp::Or)
    }

    pub fn lxor(&mut self) -> (r: Result<(), VmError>)
        requires
            old(self).wf(),
        ensures
            final(self).wf(),
            long_binop_step(*old(self), *final(self), r, BinOp::Xor),
    {
        self.long_binop(BinOp::Xor)
    }

    pub fn ishl(&mut self) -> (r: Result<(), VmError>)
        requires
            old(self).wf(),
        ensures
            final(self).wf(),
            int_shift_step(*old(self), *final(self), r, ShiftOp::Shl),
    {
        self.int_shift(ShiftOp::Shl)
    }

    pub fn ishr(&mut self) -> (r: Result<(), VmError>)
        requires
            old(self).wf(),
        ensures
            final(self).wf(),
            int_shift_step(*old(self), *final(self), r, ShiftOp::Shr),
    {
        self.int_shift(ShiftOp::Shr)
    }

    pub fn iushr(&mut self) -> (r: Result<(), VmError>)
        requires
            old(self).wf(),
        ensures
            final(self).wf(),
            int_shift_step(*old(self), *final(self), r, ShiftOp::Ushr),
    {
        self.int_shift(ShiftOp::Ushr)
    }

    pub fn lshl(&mut self) -> (r: Result<(), VmError>)
        requires
            old(self).wf(),
        ensures
            final(self).wf(),
            long_shift_step(*old(self), *final(self), r, ShiftOp::Shl),
    {
        self.long_shift(ShiftOp::Shl)
    }

    pub fn lshr(&mut self) -> (r: Result<(), VmError>)
        requires
            old(self).wf(),
        ensures
            final(self).wf(),
            long_shift_step(*old(self), *final(self), r, ShiftOp::Shr),
    {
        self.long_shift(ShiftOp::Shr)
    }

    pub fn lushr(&mut self) -> (r: Result<(), VmError>)
        requires
            old(self).wf(),
        ensures
            final(self).wf(),
            long_shift_step(*old(self), *final(self), r, ShiftOp::Ushr),
    {
        self.long_shift(ShiftOp::Ushr)
    }

    pub fn idiv(&mut self, thread: &mut JavaThread) -> (r: Result<(), VmError>)
        requires
            old(thread).wf(),
            old(self).wf(),
        ensures
            final(thread).wf(),
            final(self).wf(),
            div_step(*old(self), *final(self), *old(thread), *final(thread), r, false, false),
    {
        self.divide(thread, false, false)
    }

    pub fn irem(&mut self, thread: &mut JavaThread) -> (r: Result<(), VmError>)
        requires
            old(thread).wf(),
            old(self).wf(),
        ensures
            final(thread).wf(),
            final(self).wf(),
            div_step(*old(self), *final(self), *old(thread), *final(thread), r, false, true),
    {
        self.divide(thread, false, true)
    }

    pub fn ldiv(&mut self, thread: &mut JavaThread) -> (r: Result<(), VmError>)
        requires
            old(thread).wf(),
            old(self).wf(),
        ensures
            final(thread).wf(),
            final(self).wf(),
            div_step(*old(self), *final(self), *old(thread), *final(thread), r, true, false),
    {
        self.divide(thread, true, false)
    }

    pub fn lrem(&mut self, thread: &mut JavaThread) -> (r: Result<(), VmError>)
        requires
            old(thread).wf(),
            old(self).wf(),
        ensures
            final(thread).wf(),
            final(self).wf(),
            div_step(*old(self), *final(self), *old(thread), *final(thread), r, true, true),
    {
        self.divide(thread, true, true)
    }

    pub fn ineg(&mut self) -> (r: Result<(), VmError>)
        requires
            old(self).wf(),
        ensures
            final(self).wf(),
            stack_step(*old(self), *final(self), r, int_on(old(self).stack@, 0),
                popped(old(self).stack@, 1).push(Slot::Int(wrap_i32(-int_of(old(self).stack@, 0)) as i32))),
    {
        if !self.has_int(0) {
            return Err(VmError::BadOperand);
        }
        let v = neg_i32(self.int_at(0));
        self.replace_top(1, Slot::Int(v));
        Ok(())
    }

    pub fn lneg(&mut self) -> (r: Result<(), VmError>)
        requires
            old(self).wf(),
        ensures
            final(self).wf(),
            stack_step(*old(self), *final(self), r, long_on(old(self).stack@, 0),
                popped(old(self).stack@, 2).push(Slot::Long(wrap_i64(-long_of(old(self).stack@, 0)) as i64)).push(Slot::Top)),
    {
        if !self.has_long(0) {
            return Err(VmError::BadOperand);
        }
        let v = neg_i64(self.long_at(0));
        self.replace_top_wide(2, Slot::Long(v));
        Ok(())
    }

    /// `int` to `long`: sign extension.
    pub fn i2l(&mut self) -> (r: Result<(), VmError>)
        requires
            old(self).wf(),
        ensures
            final(self).wf(),
            stack_step(*old(self), *final(self), r, int_on(old(self).stack@, 0) && room(*old(self), 1),
                popped(old(self).stack@, 1).push(Slot::Long(int_of(old(self).stack@, 0) as i64)).push(Slot::Top)),
    {
        if !(self.has_int(0) && self.has_room(1)) {
            return Err(VmError::BadOperand);
        }
        let v = self.int_at(0) as i64;
        self.drop_slots(1);
        self.push_slot(Slot::Long(v));
        self.push_slot(Slot::Top);
        Ok(())
    }

    /// `long` to `int`: the low 32 bits.
    pub fn l2i(&mut self) -> (r: Result<(), VmError>)
        requires
            old(self).wf(),
        ensures
            final(self).wf(),
            stack_step(*old(self), *final(self), r, long_on(old(self).stack@, 0),
                popped(old(self).stack@, 2).push(Slot::Int(wrap_i32(long_of(old(self).stack@, 0) as int) as i32))),
    {
        if !self.has_long(0) {
            return Err(VmError::BadOperand);
        }
        let x = self.long_at(0);
        let v = (x & 0xffff_ffff) as u32 as i32;
        assert((x & 0xffff_ffff) as u32 as i32 == wrap_i32(x as int) as i32) by (bit_vector);
        self.replace_top(2, Slot::Int(v));
        Ok(())
    }

    /// `int` to `byte`: the low 8 bits, sign-extended.
    pub fn i2b(&mut self) -> (r: Result<(), VmError>)
        requires
            old(self).wf(),
        ensures
            final(self).wf(),
            stack_step(*old(self), *final(self), r, int_on(old(self).stack@, 0),
                popped(old(self).stack@, 1).push(Slot::Int(int_of(old(self).stack@, 0) as i8 as i32))),
    {
        if !self.has_int(0) {
            return Err(VmError::BadOperand);
        }
        let v = self.int_at(0) as i8 as i32;
        self.replace_top(1, Slot::Int(v));
        Ok(())
    }

    /// `int` to `char`: the low 16 bits, zero-extended.
    pub fn i2c(&mut self) -> (r: Result<(), VmError>)
        requires
            old(self).wf(),
        ensures
            final(self).wf(),
            stack_step(*old(self), *final(self), r, int_on(old(self).stack@, 0),
                popped(old(self).stack@, 1).push(Slot::Int(int_of(old(self).stack@, 0) as u16 as i32))),
    {
        if !self.has_int(0) {
            return Err(VmError::BadOperand);
        }
        let v = self.int_at(0) as u16 as i32;
        self.replace_top(1, Slot::Int(v));
        Ok(())
    }

    /// `int` to `short`: the low 16 bits, sign-extended.
    pub fn i2s(&mut self) -> (r: Result<(), VmError>)
        requires
            old(self).wf(),
        ensures
            final(self).wf(),
            stack_step(*old(self), *final(self), r, int_on(old(self).stack@, 0),
                popped(old(self).stack@, 1).push(Slot::Int(int_of(old(self).stack@, 0) as i16 as i32))),
    {
        if !self.has_int(0) {
            return Err(VmError::BadOperand);
        }
        let v = self.int_at(0) as i16 as i32;
        self.replace_top(1, Slot::Int(v));
        Ok(())
    }

    /// Compares two longs: 1 when the deeper is greater, -1 when smaller, else 0.
    pub fn lcmp(&mut self) -> (r: Result<(), VmError>)
        requires
            old(self).wf(),
        ensures
            final(self).wf(),
            stack_step(*old(self), *final(self), r, long_on(old(self).stack@, 0) && long_on(old(self).stack@, 2),
                popped(old(self).stack@, 4).push(Slot::Int(
                    compare(long_of(old(self).stack@, 2) as int, long_of(old(self).stack@, 0) as int)))),
    {
        if !(self.has_long(0) && self.has_long(2)) {
            return Err(VmError::BadOperand);
        }
        let v = cmp_i64(self.long_at(2), self.long_at(0));
        self.replace_top(4, Slot::Int(v));
        Ok(())
    }

    fn float_compare(&mut self, nan_result: i32) -> (r: Result<(), VmError>)
        requires
            old(self).wf(),
        ensures
            final(self).wf(),
            stack_step(*old(self), *final(self), r, float_on(old(self).stack@, 0) && float_on(old(self).stack@, 1),
                popped(old(self).stack@, 2).push(Slot::Int(
                    fcmp(float_of(old(self).stack@, 1), float_of(old(self).stack@, 0), nan_result)))),
    {
        if !(self.has_float(0) && self.has_float(1)) {
            return Err(VmError::BadOperand);
        }
        let v = cmp_f32(self.float_at(1), self.float_at(0), nan_result);
        self.replace_top(2, Slot::Int(v));
        Ok(())
    }

    fn double_compare(&mut self, nan_result: i32) -> (r: Result<(), VmError>)
        requires
            old(self).wf(),
        ensures
            final(self).wf(),
            stack_step(*old(self), *final(self), r, double_on(old(self).stack@, 0) && double_on(old(self).stack@, 2),
                popped(old(self).stack@, 4).push(Slot::Int(
                    dcmp(double_of(old(self).stack@, 2), double_of(old(self).stack@, 0), nan_result)))),
    {
        if !(self.has_double(0) && self.has_double(2)) {
            return Err(VmError::BadOperand);
        }
        let v = cmp_f64(self.double_at(2), self.double_at(0), nan_result);
        self.replace_top(4, Slot::Int(v));
        Ok(())
    }

    /// Compares two floats; a NaN operand gives -1.
    pub fn fcmpl(&mut self) -> (r: Result<(), VmError>)
        requires
            old(self).wf(),
        ensures
            final(self).wf(),
            stack_step(*old(self), *final(self), r, float_on(old(self).stack@, 0) && float_on(old(self).stack@, 1),
                popped(old(self).stack@, 2).push(Slot::Int(
                    fcmp(float_of(old(self).stack@, 1), float_of(old(self).stack@, 0), -1i32)))),
    {
        self.float_compare(-1)
    }

    /// Compares two floats; a NaN operand gives 1.
    pub fn fcmpg(&mut self) -> (r: Result<(), VmError>)
        requires
            old(self).wf(),
        ensures
            final(self).wf(),
            stack_step(*old(self), *final(self), r, float_on(old(self).stack@, 0) && float_on(old(self).stack@, 1),
                popped(old(self).stack@, 2).push(Slot::Int(
                    fcmp(float_of(old(self).stack@, 1), float_of(old(self).stack@, 0), 1i32)))),
    {
        self.float_compare(1)
    }

    /// Compares two doubles; a NaN operand gives -1.
    pub fn dcmpl(&mut self) -> (r: Result<(), VmError>)
        requires
            old(self).wf(),
        ensures
            final(self).wf(),
            stack_step(*old(self), *final(self), r, double_on(old(self).stack@, 0) && double_on(old(self).stack@, 2),
                popped(old(self).stack@, 4).push(Slot::Int(
                    dcmp(double_of(old(self).stack@, 2), double_of(old(self).stack@, 0), -1i32)))),
    {
        self.double_compare(-1)
    }

    /// Compares two doubles; a NaN operand gives 1.
    pub fn dcmpg(&mut self) -> (r: Result<(), VmError>)
        requires
            old(self).wf(),
        ensures
            final(self).wf(),
            stack_step(*old(self), *final(self), r, double_on(old(self).stack@, 0) && double_on(old(self).stack@, 2),
                popped(old(self).stack@, 4).push(Slot::Int(
                    dcmp(double_of(old(self).stack@, 2), double_of(old(self).stack@, 0), 1i32)))),
    {
        self.double_compare(1)
    }

    /// A deprecated instruction, refused.
    pub fn frem(&mut self) -> (r: Result<(), VmError>)
        requires
            old(self).wf(),
        ensures
            final(self).wf(),
            r == Err::<(), VmError>(VmError::Unsupported(0x72)),
            *final(self) == *old(self),
    {
        Err(VmError::Unsupported(0x72))
    }

    /// A deprecated instruction, refused.
    pub fn drem(&mut self) -> (r: Result<(), VmError>)
        requires
            old(self).wf(),
        ensures
            final(self).wf(),
            r == Err::<(), VmError>(VmError::Unsupported(0x73)),
            *final(self) == *old(self),
    {
        Err(VmError::Unsupported(0x73))
    }

    /// A deprecated instruction, refused.
    pub fn fneg(&mut self) -> (r: Result<(), VmError>)
        requires
            old(self).wf(),
        ensures
            final(self).wf(),
            r == Err::<(), VmError>(VmError::Unsupported(0x76)),
            *final(self) == *old(self),
    {
        Err(VmError::Unsupported(0x76))
    }

    /// A deprecated instruction, refused.
    pub fn dneg(&mut self) -> (r: Result<(), VmError>)
        requires
            old(self).wf(),
        ensures
            final(self).wf(),
            r == Err::<(), VmError>(VmError::Unsupported(0x77)),
            *final(self) == *old(self),
    {
        Err(VmError::Unsupported(0x77))
    }

    /// `float` to `int`: NaN gives 0, out-of-range values saturate, others
    /// truncate toward zero.
    pub fn f2i(&mut self) -> (r: Result<(), VmError>)
        requires
            old(self).wf(),
        ensures
            final(self).wf(),
            stack_step(*old(self), *final(self), r, float_on(old(self).stack@, 0),
                popped(old(self).stack@, 1).push(Slot::Int(f32_to_integer(float_of(old(self).stack@, 0), 31) as i32))),
    {
        if !self.has_float(0) {
            return Err(VmError::BadOperand);
        }
        let v = f32_to_int(self.float_at(0), false);
        proof {
            vstd::arithmetic::power2::lemma2_to64();
        }
        self.replace_top(1, Slot::Int(v as i32));
        Ok(())
    }

    /// `float` to `long`.
    pub fn f2l(&mut self) -> (r: Result<(), VmError>)
        requires
            old(self).wf(),
        ensures
            final(self).wf(),
            stack_step(*old(self), *final(self), r, float_on(old(self).stack@, 0) && room(*old(self), 1),
                popped(old(self).stack@, 1).push(Slot::Long(f32_to_integer(float_of(old(self).stack@, 0), 63) as i64))
                    .push(Slot::Top)),
    {
        if !(self.has_float(0) && self.has_room(1)) {
            return Err(VmError::BadOperand);
        }
        let v = f32_to_int(self.float_at(0), true);
        self.drop_slots(1);
        self.push_slot(Slot::Long(v));
        self.push_slot(Slot::Top);
        Ok(())
    }

    /// `double` to `int`.
    pub fn d2i(&mut self) -> (r: Result<(), VmError>)
        requires
            old(self).wf(),
        ensures
            final(self).wf(),
            stack_step(*old(self), *final(self), r, double_on(old(self).stack@, 0),
                popped(old(self).stack@, 2).push(Slot::Int(f64_to_integer(double_of(old(self).stack@, 0), 31) as i32))),
    {
        if !self.has_double(0) {
            return Err(VmError::BadOperand);
        }
        let v = f64_to_int(self.double_at(0), false);
        proof {
            vstd::arithmetic::power2::lemma2_to64();
        }
        self.replace_top(2, Slot::Int(v as i32));
        Ok(())
    }

    /// `double` to `long`.
    pub fn d2l(&mut self) -> (r: Result<(), VmError>)
        requires
            old(self).wf(),
        ensures
            final(self).wf(),
            stack_step(*old(self), *final(self), r, double_on(old(self).stack@, 0),
                popped(old(self).stack@, 2).push(Slot::Long(f64_to_integer(double_of(old(self).stack@, 0), 63) as i64))
                    .push(Slot::Top)),
    {
        if !self.has_double(0) {
            return Err(VmError::BadOperand);
        }
        let v = f64_to_int(self.double_at(0), true);
        self.replace_top_wide(2, Slot::Long(v));
        Ok(())
    }
}

} // verus!
