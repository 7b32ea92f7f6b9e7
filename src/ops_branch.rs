//! Conditional and unconditional branches, `tableswitch`, `lookupswitch`,
//! and the return instructions.
use vstd::prelude::*;
use crate::frame::{depth, double_on, float_on, int_of, int_on, long_on, popped, ref_on, Frame};
use crate::ops_local::i2_at;
use crate::value::{Slot, VmError};

verus! {

/// The comparisons of the conditional branches.
#[derive(Clone, Copy, Debug, PartialEq, Eq, Structural)]
pub enum Cond {
    Eq,
    Ne,
    Lt,
    Ge,
    Gt,
    Le,
}

pub open spec fn holds(c: Cond, x: int, y: int) -> bool {
    match c {
        Cond::Eq => x == y,
        Cond::Ne => x != y,
        Cond::Lt => x < y,
        Cond::Ge => x >= y,
        Cond::Gt => x > y,
        Cond::Le => x <= y,
    }
}

/// The target of a 16-bit branch whose opcode precedes the program counter.
pub open spec fn branch_target(f: Frame) -> int {
    f.pc - 1 + i2_at(f.code@, f.pc as int)
}

/// A branch that pops `n` slots when `pre` holds, and jumps when `taken`.
pub open spec fn branch_step(a: Frame, b: Frame, r: Result<(), VmError>, pre: bool, n: int, taken: bool) -> bool {
    let t = branch_target(a);
    let ok = pre && 1 <= a.pc && a.pc + 2 <= a.code@.len() && (taken ==> 0 <= t < a.code@.len());
    &&& (r is Ok <==> ok)
    &&& (r is Err ==> b == a)
    &&& (r is Ok ==> {
        &&& b == (Frame { stack: b.stack, pc: (if taken { t } else { a.pc + 2 }) as usize, ..a })
        &&& b.stack@ == popped(a.stack@, n)
    })
}

/// Signed big-endian 32-bit value at `i`.
pub open spec fn i4_at(code: Seq<u8>, i: int) -> int {
    let u = code[i] * 0x100_0000 + code[i + 1] * 0x1_0000 + code[i + 2] * 0x100 + code[i + 3];
    if u >= 0x8000_0000 { u - 0x1_0000_0000 } else { u }
}

/// Where the operands of a switch start: the first multiple of 4 after
/// the opcode at `op`.
pub open spec fn switch_base(op: int) -> int {
    op + 4 - op % 4
}

/// The `tableswitch` at `op` is complete within `code`.
pub open spec fn table_fits(code: Seq<u8>, op: int) -> bool {
    let base = switch_base(op);
    &&& base + 12 <= code.len()
    &&& i4_at(code, base + 4) <= i4_at(code, base + 8)
    &&& base + 12 + 4 * (i4_at(code, base + 8) - i4_at(code, base + 4) + 1) <= code.len()
}

/// The target of the `tableswitch` at `op` for `key`.
pub open spec fn table_target(code: Seq<u8>, op: int, key: int) -> int {
    let base = switch_base(op);
    let low = i4_at(code, base + 4);
    let high = i4_at(code, base + 8);
    if key < low || key > high {
        op + i4_at(code, base)
    } else {
        op + i4_at(code, base + 12 + 4 * (key - low))
    }
}

/// The `lookupswitch` at `op` is complete within `code`.
pub open spec fn lookup_fits(code: Seq<u8>, op: int) -> bool {
    let base = switch_base(op);
    &&& base + 8 <= code.len()
    &&& i4_at(code, base + 4) >= 0
    &&& base + 8 + 8 * i4_at(code, base + 4) <= code.len()
}

/// The target for `key` among the pairs `j..` of the `lookupswitch` at `op`:
/// the offset of the first pair that matches, else the default.
pub open spec fn lookup_from(code: Seq<u8>, op: int, key: int, j: int) -> int
    decreases i4_at(code, switch_base(op) + 4) - j,
{
    let base = switch_base(op);
    if j < 0 || j >= i4_at(code, base + 4) {
        op + i4_at(code, base)
    } else if i4_at(code, base + 8 + 8 * j) == key {
        op + i4_at(code, base + 12 + 8 * j)
    } else {
        lookup_from(code, op, key, j + 1)
    }
}

/// A switch: the key is popped and control moves to `target`.
pub open spec fn switch_step(a: Frame, b: Frame, r: Result<(), VmError>, fits: bool, target: int) -> bool {
    let ok = 1 <= a.pc && int_on(a.stack@, 0) && fits && 0 <= target < a.code@.len();
    &&& (r is Ok <==> ok)
    &&& (r is Err ==> b == a)
    &&& (r is Ok ==> {
        &&& b == (Frame { stack: b.stack, pc: target as usize, ..a })
        &&& b.stack@ == popped(a.stack@, 1)
    })
}

/// A return: `n` slots popped and `v` recorded as the return value.
pub open spec fn return_step(a: Frame, b: Frame, r: Result<(), VmError>, pre: bool, n: int, v: Option<Slot>) -> bool {
    &&& (r is Ok <==> pre)
    &&& (r is Err ==> b == a)
    &&& (r is Ok ==> {
        &&& b == (Frame { stack: b.stack, return_v: v, ..a })
        &&& b.stack@ == popped(a.stack@, n)
    })
}

impl Frame {
    /// Reads the signed 32-bit value at `i`.
    fn i4(&self, i: usize) -> (r: i32)
        requires
            i + 4 <= self.code@.len(),
        ensures
            r as int == i4_at(self.code@, i as int),
    {
        let _len = self.code.len();
        let u: i64 = (self.code[i] as i64) * 0x100_0000 + (self.code[i + 1] as i64) * 0x1_0000
            + (self.code[i + 2] as i64) * 0x100 + (self.code[i + 3] as i64);
        if u >= 0x8000_0000 { (u - 0x1_0000_0000) as i32 } else { u as i32 }
    }

    /// Pops `n` slots and branches when `taken`, else skips the offset.
    fn branch(&mut self, n: usize, taken: bool) -> (r: Result<(), VmError>)
        requires
            old(self).wf(),
            n <= old(self).stack@.len(),
        ensures
            final(self).wf(),
            branch_step(*old(self), *final(self), r, true, n as int, taken),
    {
        let _len = self.code.len();
        if !(1 <= self.pc && self.has_code2()) {
            return Err(VmError::BadCode);
        }
        let off = {
            let u = (self.code[self.pc] as i32) * 256 + (self.code[self.pc + 1] as i32);
            if u >= 0x8000 { u - 0x1_0000 } else { u }
        };
        let t: i128 = (self.pc as i128) - 1 + (off as i128);
        if taken {
            if t < 0 || t >= self.code.len() as i128 {
                return Err(VmError::BadCode);
            }
            self.pc = t as usize;
        } else {
            self.pc = self.pc + 2;
        }
        self.drop_slots(n);
        Ok(())
    }

    fn has_code2(&self) -> (r: bool)
        ensures
            r == (self.pc + 2 <= self.code@.len()),
    {
        self.pc <= self.code.len() && 2 <= self.code.len() - self.pc
    }

    fn if_int(&mut self, c: Cond) -> (r: Result<(), VmError>)
        requires
            old(self).wf(),
        ensures
            final(self).wf(),
            branch_step(*old(self), *final(self), r, int_on(old(self).stack@, 0), 1,
                holds(c, int_of(old(self).stack@, 0) as int, 0)),
    {
        if !self.has_int(0) {
            return Err(VmError::BadOperand);
        }
        let v = self.int_at(0);
        let taken = match c {
            Cond::Eq => v == 0,
            Cond::Ne => v != 0,
            Cond::Lt => v < 0,
            Cond::Ge => v >= 0,
            Cond::Gt => v > 0,
            Cond::Le => v <= 0,
        };
        self.branch(1, taken)
    }

    fn if_icmp(&mut self, c: Cond) -> (r: Result<(), VmError>)
        requires
            old(self).wf(),
        ensures
            final(self).wf(),
            branch_step(*old(self), *final(self), r, int_on(old(self).stack@, 0) && int_on(old(self).stack@, 1), 2,
                holds(c, int_of(old(self).stack@, 1) as int, int_of(old(self).stack@, 0) as int)),
    {
        if !(self.has_int(0) && self.has_int(1)) {
            return Err(VmError::BadOperand);
        }
        let y = self.int_at(0);
        let x = self.int_at(1);
        let taken = match c {
            Cond::Eq => x == y,
            Cond::Ne => x != y,
            Cond::Lt => x < y,
            Cond::Ge => x >= y,
            Cond::Gt => x > y,
            Cond::Le => x <= y,
        };
        self.branch(2, taken)
    }

    pub fn ifeq(&mut self) -> (r: Result<(), VmError>)
        requires
            old(self).wf(),
        ensures
            final(self).wf(),
            branch_step(*old(self), *final(self), r, int_on(old(self).stack@, 0), 1,
                holds(Cond::Eq, int_of(old(self).stack@, 0) as int, 0)),
    {
        self.if_int(Cond::Eq)
    }

    pub fn ifne(&mut self) -> (r: Result<(), VmError>)
        requires
            old(self).wf(),
        ensures
            final(self).wf(),
            branch_step(*old(self), *final(self), r, int_on(old(self).stack@, 0), 1,
                holds(Cond::Ne, int_of(old(self).stack@, 0) as int, 0)),
    {
        self.if_int(Cond::Ne)
    }

    pub fn iflt(&mut self) -> (r: Result<(), VmError>)
        requires
            old(self).wf(),
        ensures
            final(self).wf(),
            branch_step(*old(self), *final(self), r, int_on(old(self).stack@, 0), 1,
                holds(Cond::Lt, int_of(old(self).stack@, 0) as int, 0)),
    {
        self.if_int(Cond::Lt)
    }

    pub fn ifge(&mut self) -> (r: Result<(), VmError>)
        requires
            old(self).wf(),
        ensures
            final(self).wf(),
            branch_step(*old(self), *final(self), r, int_on(old(self).stack@, 0), 1,
                holds(Cond::Ge, int_of(old(self).stack@, 0) as int, 0)),
    {
        self.if_int(Cond::Ge)
    }

    pub fn ifgt(&mut self) -> (r: Result<(), VmError>)
        requires
            old(self).wf(),
        ensures
            final(self).wf(),
            branch_step(*old(self), *final(self), r, int_on(old(self).stack@, 0), 1,
                holds(Cond::Gt, int_of(old(self).stack@, 0) as int, 0)),
    {
        self.if_int(Cond::Gt)
    }

    pub fn ifle(&mut self) -> (r: Result<(), VmError>)
        requires
            old(self).wf(),
        ensures
            final(self).wf(),
            branch_step(*old(self), *final(self), r, int_on(old(self).stack@, 0), 1,
                holds(Cond::Le, int_of(old(self).stack@, 0) as int, 0)),
    {
        self.if_int(Cond::Le)
    }

    pub fn if_icmpeq(&mut self) -> (r: Result<(), VmError>)
        requires
            old(self).wf(),
        ensures
            final(self).wf(),
            branch_step(*old(self), *final(self), r, int_on(old(self).stack@, 0) && int_on(old(self).stack@, 1), 2,
                holds(Cond::Eq, int_of(old(self).stack@, 1) as int, int_of(old(self).stack@, 0) as int)),
    {
        self.if_icmp(Cond::Eq)
    }

    pub fn if_icmpne(&mut self) -> (r: Result<(), VmError>)
        requires
            old(self).wf(),
        ensures
            final(self).wf(),
            branch_step(*old(self), *final(self), r, int_on(old(self).stack@, 0) && int_on(old(self).stack@, 1), 2,
                holds(Cond::Ne, int_of(old(self).stack@, 1) as int, int_of(old(self).stack@, 0) as int)),
    {
        self.if_icmp(Cond::Ne)
    }

    pub fn if_icmplt(&mut self) -> (r: Result<(), VmError>)
        requires
            old(self).wf(),
        ensures
            final(self).wf(),
            branch_step(*old(self), *final(self), r, int_on(old(self).stack@, 0) && int_on(old(self).stack@, 1), 2,
                holds(Cond::Lt, int_of(old(self).stack@, 1) as int, int_of(old(self).stack@, 0) as int)),
    {
        self.if_icmp(Cond::Lt)
    }

    pub fn if_icmpge(&mut self) -> (r: Result<(), VmError>)
        requires
            old(self).wf(),
        ensures
            final(self).wf(),
            branch_step(*old(self), *final(self), r, int_on(old(self).stack@, 0) && int_on(old(self).stack@, 1), 2,
                holds(Cond::Ge, int_of(old(self).stack@, 1) as int, int_of(old(self).stack@, 0) as int)),
    {
        self.if_icmp(Cond::Ge)
    }

    pub fn if_icmpgt(&mut self) -> (r: Result<(), VmError>)
        requires
            old(self).wf(),
        ensures
            final(self).wf(),
            branch_step(*old(self), *final(self), r, int_on(old(self).stack@, 0) && int_on(old(self).stack@, 1), 2,
                holds(Cond::Gt, int_of(old(self).stack@, 1) as int, int_of(old(self).stack@, 0) as int)),
    {
        self.if_icmp(Cond::Gt)
    }

    pub fn if_icmple(&mut self) -> (r: Result<(), VmError>)
        requires
            old(self).wf(),
        ensures
            final(self).wf(),
            branch_step(*old(self), *final(self), r, int_on(old(self).stack@, 0) && int_on(old(self).stack@, 1), 2,
                holds(Cond::Le, int_of(old(self).stack@, 1) as int, int_of(old(self).stack@, 0) as int)),
    {
        self.if_icmp(Cond::Le)
    }

    /// Branches when the two references are the same.
    pub fn if_acmpeq(&mut self) -> (r: Result<(), VmError>)
        requires
            old(self).wf(),
        ensures
            final(self).wf(),
            branch_step(*old(self), *final(self), r, ref_on(old(self).stack@, 0) && ref_on(old(self).stack@, 1), 2,
                depth(old(self).stack@, 1) == depth(old(self).stack@, 0)),
    {
        if !(self.has_ref(0) && self.has_ref(1)) {
            return Err(VmError::BadOperand);
        }
        let y = self.stack[self.stack.len() - 1];
        let x = self.stack[self.stack.len() - 2];
        let same = match (x, y) {
            (Slot::Null, Slot::Null) => true,
            (Slot::Ref(i), Slot::Ref(j)) => i == j,
            _ => false,
        };
        self.branch(2, same)
    }

    /// Branches when the two references are different.
    pub fn if_acmpne(&mut self) -> (r: Result<(), VmError>)
        requires
            old(self).wf(),
        ensures
            final(self).wf(),
            branch_step(*old(self), *final(self), r, ref_on(old(self).stack@, 0) && ref_on(old(self).stack@, 1), 2,
                depth(old(self).stack@, 1) != depth(old(self).stack@, 0)),
    {
        if !(self.has_ref(0) && self.has_ref(1)) {
            return Err(VmError::BadOperand);
        }
        let y = self.stack[self.stack.len() - 1];
        let x = self.stack[self.stack.len() - 2];
        let same = match (x, y) {
            (Slot::Null, Slot::Null) => true,
            (Slot::Ref(i), Slot::Ref(j)) => i == j,
            _ => false,
        };
        self.branch(2, !same)
    }

    pub fn if_null(&mut self) -> (r: Result<(), VmError>)
        requires
            old(self).wf(),
        ensures
            final(self).wf(),
            branch_step(*old(self), *final(self), r, ref_on(old(self).stack@, 0), 1,
                (depth(old(self).stack@, 0) is Null)),
    {
        if !self.has_ref(0) {
            return Err(VmError::BadOperand);
        }
        let v = self.stack[self.stack.len() - 1];
        self.branch(1, matches!(v, Slot::Null))
    }

    pub fn if_non_null(&mut self) -> (r: Result<(), VmError>)
        requires
            old(self).wf(),
        ensures
            final(self).wf(),
            branch_step(*old(self), *final(self), r, ref_on(old(self).stack@, 0), 1,
                !(depth(old(self).stack@, 0) is Null)),
    {
        if !self.has_ref(0) {
            return Err(VmError::BadOperand);
        }
        let v = self.stack[self.stack.len() - 1];
        self.branch(1, !matches!(v, Slot::Null))
    }

    pub fn goto(&mut self) -> (r: Result<(), VmError>)
        requires
            old(self).wf(),
        ensures
            final(self).wf(),
            branch_step(*old(self), *final(self), r, true, 0, true),
    {
        self.branch(0, true)
    }

    /// Jumps through the table by the popped key, or to the default.
    pub fn table_switch(&mut self) -> (r: Result<(), VmError>)
        requires
            old(self).wf(),
        ensures
            final(self).wf(),
            switch_step(*old(self), *final(self), r, table_fits(old(self).code@, old(self).pc - 1),
                table_target(old(self).code@, old(self).pc - 1, int_of(old(self).stack@, 0) as int)),
    {
        let len = self.code.len();
        if !(1 <= self.pc && self.pc <= len && self.has_int(0)) {
            return Err(VmError::BadCode);
        }
        let op = self.pc - 1;
        let pad = 4 - op % 4;
        if len - op < pad {
            return Err(VmError::BadCode);
        }
        let base = op + pad;
        if base > len || len - base < 12 {
            return Err(VmError::BadCode);
        }
        let default = self.i4(base);
        let low = self.i4(base + 4);
        let high = self.i4(base + 8);
        if low > high {
            return Err(VmError::BadCode);
        }
        let n: i64 = (high as i64) - (low as i64) + 1;
        if n > ((len - base - 12) / 4) as i64 {
            return Err(VmError::BadCode);
        }
        let key = self.int_at(0);
        let off: i32 = if key < low || key > high {
            default
        } else {
            let at = base + 12 + 4 * ((key as i64 - low as i64) as usize);
            self.i4(at)
        };
        let t: i128 = op as i128 + off as i128;
        if t < 0 || t >= len as i128 {
            return Err(VmError::BadCode);
        }
        self.pc = t as usize;
        self.drop_slots(1);
        Ok(())
    }

    /// Jumps to the offset of the first pair that matches the popped key,
    /// or to the default.
    pub fn lookup_switch(&mut self) -> (r: Result<(), VmError>)
        requires
            old(self).wf(),
        ensures
            final(self).wf(),
            switch_step(*old(self), *final(self), r, lookup_fits(old(self).code@, old(self).pc - 1),
                lookup_from(old(self).code@, old(self).pc - 1, int_of(old(self).stack@, 0) as int, 0)),
    {
        let len = self.code.len();
        if !(1 <= self.pc && self.pc <= len && self.has_int(0)) {
            return Err(VmError::BadCode);
        }
        let op = self.pc - 1;
        let pad = 4 - op % 4;
        if len - op < pad {
            return Err(VmError::BadCode);
        }
        let base = op + pad;
        if base > len || len - base < 8 {
            return Err(VmError::BadCode);
        }
        let default = self.i4(base);
        let npairs = self.i4(base + 4);
        if npairs < 0 || npairs as usize > (len - base - 8) / 8 {
            return Err(VmError::BadCode);
        }
        let key = self.int_at(0);
        let ghost code = self.code@;
        let mut off = default;
        let mut j: usize = 0;
        let mut found = false;
        while j < npairs as usize && !found
            invariant
                self.code@ == code,
                code.len() == len,
                base == switch_base(op as int),
                base + 8 + 8 * npairs <= len,
                npairs == i4_at(code, base + 4),
                default == i4_at(code, base as int),
                j <= npairs,
                found ==> op + off == lookup_from(code, op as int, key as int, 0),
                !found ==> lookup_from(code, op as int, key as int, 0) == lookup_from(code, op as int, key as int, j as int),
                !found ==> off == default,
            decreases npairs - j + (if found { 0int } else { 1int }),
        {
            let m = self.i4(base + 8 + 8 * j);
            if m == key {
                off = self.i4(base + 12 + 8 * j);
                found = true;
            } else {
                j += 1;
            }
        }
        let t: i128 = op as i128 + off as i128;
        if t < 0 || t >= len as i128 {
            return Err(VmError::BadCode);
        }
        self.pc = t as usize;
        self.drop_slots(1);
        Ok(())
    }

    pub fn ireturn(&mut self) -> (r: Result<(), VmError>)
        requires
            old(self).wf(),
        ensures
            final(self).wf(),
            return_step(*old(self), *final(self), r, int_on(old(self).stack@, 0), 1, Some(depth(old(self).stack@, 0))),
    {
        if !self.has_int(0) {
            return Err(VmError::BadOperand);
        }
        let v = self.stack[self.stack.len() - 1];
        self.drop_slots(1);
        self.return_v = Some(v);
        Ok(())
    }

    pub fn freturn(&mut self) -> (r: Result<(), VmError>)
        requires
            old(self).wf(),
        ensures
            final(self).wf(),
            return_step(*old(self), *final(self), r, float_on(old(self).stack@, 0), 1, Some(depth(old(self).stack@, 0))),
    {
        if !self.has_float(0) {
            return Err(VmError::BadOperand);
        }
        let v = self.stack[self.stack.len() - 1];
        self.drop_slots(1);
        self.return_v = Some(v);
        Ok(())
    }

    pub fn areturn(&mut self) -> (r: Result<(), VmError>)
        requires
            old(self).wf(),
        ensures
            final(self).wf(),
            return_step(*old(self), *final(self), r, ref_on(old(self).stack@, 0), 1, Some(depth(old(self).stack@, 0))),
    {
        if !self.has_ref(0) {
            return Err(VmError::BadOperand);
        }
        let v = self.stack[self.stack.len() - 1];
        self.drop_slots(1);
        self.return_v = Some(v);
        Ok(())
    }

    pub fn lreturn(&mut self) -> (r: Result<(), VmError>)
        requires
            old(self).wf(),
        ensures
            final(self).wf(),
            return_step(*old(self), *final(self), r, long_on(old(self).stack@, 0), 2, Some(depth(old(self).stack@, 1))),
    {
        if !self.has_long(0) {
            return Err(VmError::BadOperand);
        }
        let v = self.stack[self.stack.len() - 2];
        self.drop_slots(2);
        self.return_v = Some(v);
        Ok(())
    }

    pub fn dreturn(&mut self) -> (r: Result<(), VmError>)
        requires
            old(self).wf(),
        ensures
            final(self).wf(),
            return_step(*old(self), *final(self), r, double_on(old(self).stack@, 0), 2, Some(depth(old(self).stack@, 1))),
    {
        if !self.has_double(0) {
            return Err(VmError::BadOperand);
        }
        let v = self.stack[self.stack.len() - 2];
        self.drop_slots(2);
        self.return_v = Some(v);
        Ok(())
    }

    pub fn return_void(&mut self) -> (r: Result<(), VmError>)
        requires
            old(self).wf(),
        ensures
            final(self).wf(),
            return_step(*old(self), *final(self), r, true, 0, None),
    {
        self.return_v = None;
        proof {
            assert(self.stack@ =~= popped(old(self).stack@, 0));
        }
        Ok(())
    }

    /// A subroutine or wide-branch instruction, refused.
    pub fn jsr(&mut self) -> (r: Result<(), VmError>)
        requires
            old(self).wf(),
        ensures
            final(self).wf(),
            r == Err::<(), VmError>(VmError::Unsupported(0xa8)),
            *final(self) == *old(self),
    {
        Err(VmError::Unsupported(0xa8))
    }

    /// A subroutine or wide-branch instruction, refused.
    pub fn ret(&mut self) -> (r: Result<(), VmError>)
        requires
            old(self).wf(),
        ensures
            final(self).wf(),
            r == Err::<(), VmError>(VmError::Unsupported(0xa9)),
            *final(self) == *old(self),
    {
        Err(VmError::Unsupported(0xa9))
    }

    /// A subroutine or wide-branch instruction, refused.
    pub fn goto_w(&mut self) -> (r: Result<(), VmError>)
        requires
            old(self).wf(),
        ensures
            final(self).wf(),
            r == Err::<(), VmError>(VmError::Unsupported(0xc8)),
            *final(self) == *old(self),
    {
        Err(VmError::Unsupported(0xc8))
    }

    /// A subroutine or wide-branch instruction, refused.
    pub fn jsr_w(&mut self) -> (r: Result<(), VmError>)
        requires
            old(self).wf(),
        ensures
            final(self).wf(),
            r == Err::<(), VmError>(VmError::Unsupported(0xc9)),
            *final(self) == *old(self),
    {
        Err(VmError::Unsupported(0xc9))
    }

    /// An opcode that the JVM does not define, refused with the opcode
    /// just read.
    pub fn other_wise(&mut self) -> (r: Result<(), VmError>)
        requires
            old(self).wf(),
            1 <= old(self).pc <= old(self).code@.len(),
        ensures
            final(self).wf(),
            r == Err::<(), VmError>(VmError::Unsupported(old(self).code@[old(self).pc - 1])),
            *final(self) == *old(self),
    {
        Err(VmError::Unsupported(self.code[self.pc - 1]))
    }
}

} // verus!
