//! Constants, local-variable loads and stores, `iinc`, `wide`, and the
//! operand-stack shuffles.
use vstd::prelude::*;
use crate::frame::{depth, double_on, float_on, int_on, long_on, popped, ref_on, room, stack_step, Frame};
use crate::value::{add_i32, wrap_i32, Slot, VmError};

verus! {

/// The category of a value that a load or store moves.
#[derive(Clone, Copy, Debug, PartialEq, Eq, Structural)]
pub enum Cat {
    Int,
    Float,
    Ref,
    Long,
    Double,
}

/// Slots that a value of the category takes.
pub open spec fn width(k: Cat) -> int {
    match k {
        Cat::Long | Cat::Double => 2,
        _ => 1,
    }
}

/// Local `i` holds a value of category `k` (a two-slot value has `Top` in `i + 1`).
pub open spec fn local_holds(l: Seq<Slot>, i: int, k: Cat) -> bool {
    &&& 0 <= i && i + width(k) <= l.len()
    &&& match k {
        Cat::Int => l[i] is Int,
        Cat::Float => l[i] is Float,
        Cat::Ref => l[i].is_reference(),
        Cat::Long => l[i] is Long && l[i + 1] is Top,
        Cat::Double => l[i] is Double && l[i + 1] is Top,
    }
}

/// The top of the stack holds a value of category `k`.
pub open spec fn stack_holds(s: Seq<Slot>, k: Cat) -> bool {
    match k {
        Cat::Int => int_on(s, 0),
        Cat::Float => float_on(s, 0),
        Cat::Ref => ref_on(s, 0),
        Cat::Long => long_on(s, 0),
        Cat::Double => double_on(s, 0),
    }
}

/// `s` with the value `v` of category `k` pushed.
pub open spec fn pushed(s: Seq<Slot>, v: Slot, k: Cat) -> Seq<Slot> {
    if width(k) == 2 { s.push(v).push(Slot::Top) } else { s.push(v) }
}

/// Locals `l` with the value `v` of category `k` stored at `i`.
pub open spec fn stored(l: Seq<Slot>, i: int, v: Slot, k: Cat) -> Seq<Slot> {
    if width(k) == 2 { l.update(i, v).update(i + 1, Slot::Top) } else { l.update(i, v) }
}

/// Unsigned byte operand at `i`.
pub open spec fn u1_at(code: Seq<u8>, i: int) -> int {
    code[i] as int
}

/// Unsigned big-endian 16-bit operand at `i`.
pub open spec fn u2_at(code: Seq<u8>, i: int) -> int {
    code[i] * 256 + code[i + 1]
}

/// Signed big-endian 16-bit operand at `i`.
pub open spec fn i2_at(code: Seq<u8>, i: int) -> int {
    let u = u2_at(code, i);
    if u >= 0x8000 { u - 0x1_0000 } else { u }
}

/// Bytes of a local-index operand: two after `wide`, else one.
pub open spec fn index_bytes(f: Frame) -> int {
    if f.op_widen { 2 } else { 1 }
}

/// The local index operand at the program counter.
pub open spec fn index_operand(f: Frame) -> int {
    if f.op_widen { u2_at(f.code@, f.pc as int) } else { u1_at(f.code@, f.pc as int) }
}

/// A load of local `i` of category `k`, after `adv` operand bytes; `wide` is
/// cleared when `clear` holds.
pub open spec fn load_step(a: Frame, b: Frame, r: Result<(), VmError>, i: int, k: Cat, adv: int, clear: bool) -> bool {
    &&& (r is Ok <==> a.pc + adv <= a.code@.len() && local_holds(a.local@, i, k) && room(a, width(k)))
    &&& (r is Err ==> b == a)
    &&& (r is Ok ==> {
        &&& b == (Frame { stack: b.stack, pc: (a.pc + adv) as usize, op_widen: if clear { false } else { a.op_widen }, ..a })
        &&& b.stack@ == pushed(a.stack@, a.local@[i], k)
    })
}

/// A store of the top value, of category `k`, to local `i`.
pub open spec fn store_step(a: Frame, b: Frame, r: Result<(), VmError>, i: int, k: Cat, adv: int, clear: bool) -> bool {
    &&& (r is Ok <==> a.pc + adv <= a.code@.len() && stack_holds(a.stack@, k) && 0 <= i && i + width(k) <= a.local@.len())
    &&& (r is Err ==> b == a)
    &&& (r is Ok ==> {
        &&& b == (Frame { stack: b.stack, local: b.local, pc: (a.pc + adv) as usize,
            op_widen: if clear { false } else { a.op_widen }, ..a })
        &&& b.stack@ == popped(a.stack@, width(k))
        &&& b.local@ == stored(a.local@, i, depth(a.stack@, width(k) - 1), k)
    })
}

/// A slot that is a whole one-slot value.
pub open spec fn single(s: Seq<Slot>, k: int) -> bool {
    0 <= k < s.len() && !(depth(s, k) is Top) && !(depth(s, k) is Long) && !(depth(s, k) is Double)
}

/// Two slots that form one two-slot value or two one-slot values.
pub open spec fn pair(s: Seq<Slot>, k: int) -> bool {
    ||| (0 <= k && k + 1 < s.len() && depth(s, k) is Top && (depth(s, k + 1) is Long || depth(s, k + 1) is Double))
    ||| (single(s, k) && single(s, k + 1))
}

impl Frame {
    /// Whether `n` operand bytes follow the program counter.
    pub fn has_code(&self, n: usize) -> (r: bool)
        ensures
            r == (self.pc + n <= self.code@.len()),
            self.code@.len() <= usize::MAX,
    {
        let _len = self.code.len();
        self.pc <= self.code.len() && n <= self.code.len() - self.pc
    }

    /// Reads one operand byte.
    pub fn read_u1(&mut self) -> (r: u8)
        requires
            old(self).wf(),
            old(self).pc < old(self).code@.len(),
        ensures
            final(self).wf(),
            r == old(self).code@[old(self).pc as int],
            *final(self) == (Frame { pc: (old(self).pc + 1) as usize, ..*old(self) }),
    {
        let _len = self.code.len();
        let v = self.code[self.pc];
        self.pc = self.pc + 1;
        v
    }

    /// Reads an unsigned 16-bit operand.
    pub fn read_u2(&mut self) -> (r: u16)
        requires
            old(self).wf(),
            old(self).pc + 2 <= old(self).code@.len(),
        ensures
            final(self).wf(),
            r as int == u2_at(old(self).code@, old(self).pc as int),
            *final(self) == (Frame { pc: (old(self).pc + 2) as usize, ..*old(self) }),
    {
        let _len = self.code.len();
        let h = self.code[self.pc];
        let l = self.code[self.pc + 1];
        self.pc = self.pc + 2;
        (h as u16) * 256 + (l as u16)
    }

    /// Reads a signed 16-bit operand.
    pub fn read_i2(&mut self) -> (r: i32)
        requires
            old(self).wf(),
            old(self).pc + 2 <= old(self).code@.len(),
        ensures
            final(self).wf(),
            r as int == i2_at(old(self).code@, old(self).pc as int),
            *final(self) == (Frame { pc: (old(self).pc + 2) as usize, ..*old(self) }),
    {
        let u = self.read_u2() as i32;
        if u >= 0x8000 { u - 0x1_0000 } else { u }
    }

    /// Reads a local index: two bytes after `wide`, else one.
    fn read_index(&mut self) -> (r: usize)
        requires
            old(self).wf(),
            old(self).pc + index_bytes(*old(self)) <= old(self).code@.len(),
        ensures
            final(self).wf(),
            r as int == index_operand(*old(self)),
            *final(self) == (Frame { pc: (old(self).pc + index_bytes(*old(self))) as usize, ..*old(self) }),
    {
        if self.op_widen {
            self.read_u2() as usize
        } else {
            self.read_u1() as usize
        }
    }

    fn local_holds_exec(&self, i: usize, k: Cat) -> (r: bool)
        ensures
            r == local_holds(self.local@, i as int, k),
    {
        let w: usize = match k {
            Cat::Long | Cat::Double => 2,
            _ => 1,
        };
        if i >= self.local.len() || self.local.len() - i < w {
            return false;
        }
        match k {
            Cat::Int => matches!(self.local[i], Slot::Int(_)),
            Cat::Float => matches!(self.local[i], Slot::Float(_)),
            Cat::Ref => matches!(self.local[i], Slot::Null | Slot::Ref(_)),
            Cat::Long => matches!(self.local[i], Slot::Long(_)) && matches!(self.local[i + 1], Slot::Top),
            Cat::Double => matches!(self.local[i], Slot::Double(_)) && matches!(self.local[i + 1], Slot::Top),
        }
    }

    fn stack_holds_exec(&self, k: Cat) -> (r: bool)
        ensures
            r == stack_holds(self.stack@, k),
    {
        match k {
            Cat::Int => self.has_int(0),
            Cat::Float => self.has_float(0),
            Cat::Ref => self.has_ref(0),
            Cat::Long => self.has_long(0),
            Cat::Double => self.has_double(0),
        }
    }

    /// Pushes local `i` of category `k`.
    fn load_at(&mut self, i: usize, k: Cat) -> (r: Result<(), VmError>)
        requires
            old(self).wf(),
        ensures
            final(self).wf(),
            load_step(*old(self), *final(self), r, i as int, k, 0, false),
    {
        let w: usize = match k {
            Cat::Long | Cat::Double => 2,
            _ => 1,
        };
        if !(self.has_code(0) && self.local_holds_exec(i, k) && self.has_room(w)) {
            return Err(VmError::BadLocal);
        }
        let v = self.local[i];
        self.push_slot(v);
        if w == 2 {
            self.push_slot(Slot::Top);
        }
        Ok(())
    }

    /// Pops the top value of category `k` into local `i`.
    fn store_at(&mut self, i: usize, k: Cat) -> (r: Result<(), VmError>)
        requires
            old(self).wf(),
        ensures
            final(self).wf(),
            store_step(*old(self), *final(self), r, i as int, k, 0, false),
    {
        let w: usize = match k {
            Cat::Long | Cat::Double => 2,
            _ => 1,
        };
        if !(self.has_code(0) && self.stack_holds_exec(k) && i < self.local.len() && w <= self.local.len() - i) {
            return Err(VmError::BadLocal);
        }
        let v = self.stack[self.stack.len() - w];
        self.drop_slots(w);
        self.local.set(i, v);
        if w == 2 {
            self.local.set(i + 1, Slot::Top);
        }
        Ok(())
    }

    /// A load whose index is an operand (`iload`, `lload`, ...).
    fn load_operand(&mut self, k: Cat) -> (r: Result<(), VmError>)
        requires
            old(self).wf(),
        ensures
            final(self).wf(),
            load_step(*old(self), *final(self), r, index_operand(*old(self)), k, index_bytes(*old(self)), true),
    {
        let n: usize = if self.op_widen { 2 } else { 1 };
        let _len = self.code.len();
        if !self.has_code(n) {
            return Err(VmError::BadCode);
        }
        let i = self.index_peek();
        let w: usize = match k {
            Cat::Long | Cat::Double => 2,
            _ => 1,
        };
        if !(self.local_holds_exec(i, k) && self.has_room(w)) {
            return Err(VmError::BadLocal);
        }
        self.pc = self.pc + n;
        self.op_widen = false;
        let v = self.local[i];
        self.push_slot(v);
        if w == 2 {
            self.push_slot(Slot::Top);
        }
        Ok(())
    }

    /// The local index operand at the program counter, without moving it.
    fn index_peek(&self) -> (r: usize)
        requires
            self.pc + index_bytes(*self) <= self.code@.len(),
        ensures
            r as int == index_operand(*self),
    {
        let _len = self.code.len();
        if self.op_widen {
            (self.code[self.pc] as usize) * 256 + (self.code[self.pc + 1] as usize)
        } else {
            self.code[self.pc] as usize
        }
    }

    /// A store whose index is an operand (`istore`, `lstore`, ...).
    fn store_operand(&mut self, k: Cat) -> (r: Result<(), VmError>)
        requires
            old(self).wf(),
        ensures
            final(self).wf(),
            store_step(*old(self), *final(self), r, index_operand(*old(self)), k, index_bytes(*old(self)), true),
    {
        let n: usize = if self.op_widen { 2 } else { 1 };
        let _len = self.code.len();
        if !self.has_code(n) {
            return Err(VmError::BadCode);
        }
        let i = self.index_peek();
        let w: usize = match k {
            Cat::Long | Cat::Double => 2,
            _ => 1,
        };
        if !(self.stack_holds_exec(k) && i < self.local.len() && w <= self.local.len() - i) {
            return Err(VmError::BadLocal);
        }
        self.pc = self.pc + n;
        self.op_widen = false;
        let v = self.stack[self.stack.len() - w];
        self.drop_slots(w);
        self.local.set(i, v);
        if w == 2 {
            self.local.set(i + 1, Slot::Top);
        }
        Ok(())
    }

    pub fn iload(&mut self) -> (r: Result<(), VmError>)
        requires
            old(self).wf(),
        ensures
            final(self).wf(),
            load_step(*old(self), *final(self), r, index_operand(*old(self)), Cat::Int, index_bytes(*old(self)), true),
    {
        self.load_operand(Cat::Int)
    }

    pub fn iload_0(&mut self) -> (r: Result<(), VmError>)
        requires
            old(self).wf(),
        ensures
            final(self).wf(),
            load_step(*old(self), *final(self), r, 0, Cat::Int, 0, false),
    {
        self.load_at(0, Cat::Int)
    }

    pub fn iload_1(&mut self) -> (r: Result<(), VmError>)
        requires
            old(self).wf(),
        ensures
            final(self).wf(),
            load_step(*old(self), *final(self), r, 1, Cat::Int, 0, false),
    {
        self.load_at(1, Cat::Int)
    }

    pub fn iload_2(&mut self) -> (r: Result<(), VmError>)
        requires
            old(self).wf(),
        ensures
            final(self).wf(),
            load_step(*old(self), *final(self), r, 2, Cat::Int, 0, false),
    {
        self.load_at(2, Cat::Int)
    }

    pub fn iload_3(&mut self) -> (r: Result<(), VmError>)
        requires
            old(self).wf(),
        ensures
            final(self).wf(),
            load_step(*old(self), *final(self), r, 3, Cat::Int, 0, false),
    {
        self.load_at(3, Cat::Int)
    }

    pub fn istore(&mut self) -> (r: Result<(), VmError>)
        requires
            old(self).wf(),
        ensures
            final(self).wf(),
            store_step(*old(self), *final(self), r, index_operand(*old(self)), Cat::Int, index_bytes(*old(self)), true),
    {
        self.store_operand(Cat::Int)
    }

    pub fn istore_0(&mut self) -> (r: Result<(), VmError>)
        requires
            old(self).wf(),
        ensures
            final(self).wf(),
            store_step(*old(self), *final(self), r, 0, Cat::Int, 0, false),
    {
        self.store_at(0, Cat::Int)
    }

    pub fn istore_1(&mut self) -> (r: Result<(), VmError>)
        requires
            old(self).wf(),
        ensures
            final(self).wf(),
            store_step(*old(self), *final(self), r, 1, Cat::Int, 0, false),
    {
        self.store_at(1, Cat::Int)
    }

    pub fn istore_2(&mut self) -> (r: Result<(), VmError>)
        requires
            old(self).wf(),
        ensures
            final(self).wf(),
            store_step(*old(self), *final(self), r, 2, Cat::Int, 0, false),
    {
        self.store_at(2, Cat::Int)
    }

    pub fn istore_3(&mut self) -> (r: Result<(), VmError>)
        requires
            old(self).wf(),
        ensures
            final(self).wf(),
            store_step(*old(self), *final(self), r, 3, Cat::Int, 0, false),
    {
        self.store_at(3, Cat::Int)
    }

    pub fn lload(&mut self) -> (r: Result<(), VmError>)
        requires
            old(self).wf(),
        ensures
            final(self).wf(),
            load_step(*old(self), *final(self), r, index_operand(*old(self)), Cat::Long, index_bytes(*old(self)), true),
    {
        self.load_operand(Cat::Long)
    }

    pub fn lload_0(&mut self) -> (r: Result<(), VmError>)
        requires
            old(self).wf(),
        ensures
            final(self).wf(),
            load_step(*old(self), *final(self), r, 0, Cat::Long, 0, false),
    {
        self.load_at(0, Cat::Long)
    }

    pub fn lload_1(&mut self) -> (r: Result<(), VmError>)
        requires
            old(self).wf(),
        ensures
            final(self).wf(),
            load_step(*old(self), *final(self), r, 1, Cat::Long, 0, false),
    {
        self.load_at(1, Cat::Long)
    }

    pub fn lload_2(&mut self) -> (r: Result<(), VmError>)
        requires
            old(self).wf(),
        ensures
            final(self).wf(),
            load_step(*old(self), *final(self), r, 2, Cat::Long, 0, false),
    {
        self.load_at(2, Cat::Long)
    }

    pub fn lload_3(&mut self) -> (r: Result<(), VmError>)
        requires
            old(self).wf(),
        ensures
            final(self).wf(),
            load_step(*old(self), *final(self), r, 3, Cat::Long, 0, false),
    {
        self.load_at(3, Cat::Long)
    }

    pub fn lstore(&mut self) -> (r: Result<(), VmError>)
        requires
            old(self).wf(),
        ensures
            final(self).wf(),
            store_step(*old(self), *final(self), r, index_operand(*old(self)), Cat::Long, index_bytes(*old(self)), true),
    {
        self.store_operand(Cat::Long)
    }

    pub fn lstore_0(&mut self) -> (r: Result<(), VmError>)
        requires
            old(self).wf(),
        ensures
            final(self).wf(),
            store_step(*old(self), *final(self), r, 0, Cat::Long, 0, false),
    {
        self.store_at(0, Cat::Long)
    }

    pub fn lstore_1(&mut self) -> (r: Result<(), VmError>)
        requires
            old(self).wf(),
        ensures
            final(self).wf(),
            store_step(*old(self), *final(self), r, 1, Cat::Long, 0, false),
    {
        self.store_at(1, Cat::Long)
    }

    pub fn lstore_2(&mut self) -> (r: Result<(), VmError>)
        requires
            old(self).wf(),
        ensures
            final(self).wf(),
            store_step(*old(self), *final(self), r, 2, Cat::Long, 0, false),
    {
        self.store_at(2, Cat::Long)
    }

    pub fn lstore_3(&mut self) -> (r: Result<(), VmError>)
        requires
            old(self).wf(),
        ensures
            final(self).wf(),
            store_step(*old(self), *final(self), r, 3, Cat::Long, 0, false),
    {
        self.store_at(3, Cat::Long)
    }

    pub fn fload(&mut self) -> (r: Result<(), VmError>)
        requires
            old(self).wf(),
        ensures
            final(self).wf(),
            load_step(*old(self), *final(self), r, index_operand(*old(self)), Cat::Float, index_bytes(*old(self)), true),
    {
        self.load_operand(Cat::Float)
    }

    pub fn fload_0(&mut self) -> (r: Result<(), VmError>)
        requires
            old(self).wf(),
        ensures
            final(self).wf(),
            load_step(*old(self), *final(self), r, 0, Cat::Float, 0, false),
    {
        self.load_at(0, Cat::Float)
    }

    pub fn fload_1(&mut self) -> (r: Result<(), VmError>)
        requires
            old(self).wf(),
        ensures
            final(self).wf(),
            load_step(*old(self), *final(self), r, 1, Cat::Float, 0, false),
    {
        self.load_at(1, Cat::Float)
    }

    pub fn fload_2(&mut self) -> (r: Result<(), VmError>)
        requires
            old(self).wf(),
        ensures
            final(self).wf(),
            load_step(*old(self), *final(self), r, 2, Cat::Float, 0, false),
    {
        self.load_at(2, Cat::Float)
    }

    pub fn fload_3(&mut self) -> (r: Result<(), VmError>)
        requires
            old(self).wf(),
        ensures
            final(self).wf(),
            load_step(*old(self), *final(self), r, 3, Cat::Float, 0, false),
    {
        self.load_at(3, Cat::Float)
    }

    pub fn fstore(&mut self) -> (r: Result<(), VmError>)
        requires
            old(self).wf(),
        ensures
            final(self).wf(),
            store_step(*old(self), *final(self), r, index_operand(*old(self)), Cat::Float, index_bytes(*old(self)), true),
    {
        self.store_operand(Cat::Float)
    }

    pub fn fstore_0(&mut self) -> (r: Result<(), VmError>)
        requires
            old(self).wf(),
        ensures
            final(self).wf(),
            store_step(*old(self), *final(self), r, 0, Cat::Float, 0, false),
    {
        self.store_at(0, Cat::Float)
    }

    pub fn fstore_1(&mut self) -> (r: Result<(), VmError>)
        requires
            old(self).wf(),
        ensures
            final(self).wf(),
            store_step(*old(self), *final(self), r, 1, Cat::Float, 0, false),
    {
        self.store_at(1, Cat::Float)
    }

    pub fn fstore_2(&mut self) -> (r: Result<(), VmError>)
        requires
            old(self).wf(),
        ensures
            final(self).wf(),
            store_step(*old(self), *final(self), r, 2, Cat::Float, 0, false),
    {
        self.store_at(2, Cat::Float)
    }

    pub fn fstore_3(&mut self) -> (r: Result<(), VmError>)
        requires
            old(self).wf(),
        ensures
            final(self).wf(),
            store_step(*old(self), *final(self), r, 3, Cat::Float, 0, false),
    {
        self.store_at(3, Cat::Float)
    }

    pub fn dload(&mut self) -> (r: Result<(), VmError>)
        requires
            old(self).wf(),
        ensures
            final(self).wf(),
            load_step(*old(self), *final(self), r, index_operand(*old(self)), Cat::Double, index_bytes(*old(self)), true),
    {
        self.load_operand(Cat::Double)
    }

    pub fn dload_0(&mut self) -> (r: Result<(), VmError>)
        requires
            old(self).wf(),
        ensures
            final(self).wf(),
            load_step(*old(self), *final(self), r, 0, Cat::Double, 0, false),
    {
        self.load_at(0, Cat::Double)
    }

    pub fn dload_1(&mut self) -> (r: Result<(), VmError>)
        requires
            old(self).wf(),
        ensures
            final(self).wf(),
            load_step(*old(self), *final(self), r, 1, Cat::Double, 0, false),
    {
        self.load_at(1, Cat::Double)
    }

    pub fn dload_2(&mut self) -> (r: Result<(), VmError>)
        requires
            old(self).wf(),
        ensures
            final(self).wf(),
            load_step(*old(self), *final(self), r, 2, Cat::Double, 0, false),
    {
        self.load_at(2, Cat::Double)
    }

    pub fn dload_3(&mut self) -> (r: Result<(), VmError>)
        requires
            old(self).wf(),
        ensures
            final(self).wf(),
            load_step(*old(self), *final(self), r, 3, Cat::Double, 0, false),
    {
        self.load_at(3, Cat::Double)
    }

    pub fn dstore(&mut self) -> (r: Result<(), VmError>)
        requires
            old(self).wf(),
        ensures
            final(self).wf(),
            store_step(*old(self), *final(self), r, index_operand(*old(self)), Cat::Double, index_bytes(*old(self)), true),
    {
        self.store_operand(Cat::Double)
    }

    pub fn dstore_0(&mut self) -> (r: Result<(), VmError>)
        requires
            old(self).wf(),
        ensures
            final(self).wf(),
            store_step(*old(self), *final(self), r, 0, Cat::Double, 0, false),
    {
        self.store_at(0, Cat::Double)
    }

    pub fn dstore_1(&mut self) -> (r: Result<(), VmError>)
        requires
            old(self).wf(),
        ensures
            final(self).wf(),
            store_step(*old(self), *final(self), r, 1, Cat::Double, 0, false),
    {
        self.store_at(1, Cat::Double)
    }

    pub fn dstore_2(&mut self) -> (r: Result<(), VmError>)
        requires
            old(self).wf(),
        ensures
            final(self).wf(),
            store_step(*old(self), *final(self), r, 2, Cat::Double, 0, false),
    {
        self.store_at(2, Cat::Double)
    }

    pub fn dstore_3(&mut self) -> (r: Result<(), VmError>)
        requires
            old(self).wf(),
        ensures
            final(self).wf(),
            store_step(*old(self), *final(self), r, 3, Cat::Double, 0, false),
    {
        self.store_at(3, Cat::Double)
    }

    pub fn aload(&mut self) -> (r: Result<(), VmError>)
        requires
            old(self).wf(),
        ensures
            final(self).wf(),
            load_step(*old(self), *final(self), r, index_operand(*old(self)), Cat::Ref, index_bytes(*old(self)), true),
    {
        self.load_operand(Cat::Ref)
    }

    pub fn aload_0(&mut self) -> (r: Result<(), VmError>)
        requires
            old(self).wf(),
        ensures
            final(self).wf(),
            load_step(*old(self), *final(self), r, 0, Cat::Ref, 0, false),
    {
        self.load_at(0, Cat::Ref)
    }

    pub fn aload_1(&mut self) -> (r: Result<(), VmError>)
        requires
            old(self).wf(),
        ensures
            final(self).wf(),
            load_step(*old(self), *final(self), r, 1, Cat::Ref, 0, false),
    {
        self.load_at(1, Cat::Ref)
    }

    pub fn aload_2(&mut self) -> (r: Result<(), VmError>)
        requires
            old(self).wf(),
        ensures
            final(self).wf(),
            load_step(*old(self), *final(self), r, 2, Cat::Ref, 0, false),
    {
        self.load_at(2, Cat::Ref)
    }

    pub fn aload_3(&mut self) -> (r: Result<(), VmError>)
        requires
            old(self).wf(),
        ensures
            final(self).wf(),
            load_step(*old(self), *final(self), r, 3, Cat::Ref, 0, false),
    {
        self.load_at(3, Cat::Ref)
    }

    pub fn astore(&mut self) -> (r: Result<(), VmError>)
        requires
            old(self).wf(),
        ensures
            final(self).wf(),
            store_step(*old(self), *final(self), r, index_operand(*old(self)), Cat::Ref, index_bytes(*old(self)), true),
    {
        self.store_operand(Cat::Ref)
    }

    pub fn astore_0(&mut self) -> (r: Result<(), VmError>)
        requires
            old(self).wf(),
        ensures
            final(self).wf(),
            store_step(*old(self), *final(self), r, 0, Cat::Ref, 0, false),
    {
        self.store_at(0, Cat::Ref)
    }

    pub fn astore_1(&mut self) -> (r: Result<(), VmError>)
        requires
            old(self).wf(),
        ensures
            final(self).wf(),
            store_step(*old(self), *final(self), r, 1, Cat::Ref, 0, false),
    {
        self.store_at(1, Cat::Ref)
    }

    pub fn astore_2(&mut self) -> (r: Result<(), VmError>)
        requires
            old(self).wf(),
        ensures
            final(self).wf(),
            store_step(*old(self), *final(self), r, 2, Cat::Ref, 0, false),
    {
        self.store_at(2, Cat::Ref)
    }

    pub fn astore_3(&mut self) -> (r: Result<(), VmError>)
        requires
            old(self).wf(),
        ensures
            final(self).wf(),
            store_step(*old(self), *final(self), r, 3, Cat::Ref, 0, false),
    {
        self.store_at(3, Cat::Ref)
    }

    /// Pushes `null`.
    pub fn aconst_null(&mut self) -> (r: Result<(), VmError>)
        requires
            old(self).wf(),
        ensures
            final(self).wf(),
            stack_step(*old(self), *final(self), r, room(*old(self), 1), old(self).stack@.push(Slot::Null)),
    {
        self.push(Slot::Null)
    }

    pub fn iconst_m1(&mut self) -> (r: Result<(), VmError>)
        requires
            old(self).wf(),
        ensures
            final(self).wf(),
            stack_step(*old(self), *final(self), r, room(*old(self), 1), old(self).stack@.push(Slot::Int(-1i32))),
    {
        self.push(Slot::Int(-1))
    }

    pub fn iconst_0(&mut self) -> (r: Result<(), VmError>)
        requires
            old(self).wf(),
        ensures
            final(self).wf(),
            stack_step(*old(self), *final(self), r, room(*old(self), 1), old(self).stack@.push(Slot::Int(0))),
    {
        self.push(Slot::Int(0))
    }

    pub fn iconst_1(&mut self) -> (r: Result<(), VmError>)
        requires
            old(self).wf(),
        ensures
            final(self).wf(),
            stack_step(*old(self), *final(self), r, room(*old(self), 1), old(self).stack@.push(Slot::Int(1))),
    {
        self.push(Slot::Int(1))
    }

    pub fn iconst_2(&mut self) -> (r: Result<(), VmError>)
        requires
            old(self).wf(),
        ensures
            final(self).wf(),
            stack_step(*old(self), *final(self), r, room(*old(self), 1), old(self).stack@.push(Slot::Int(2))),
    {
        self.push(Slot::Int(2))
    }

    pub fn iconst_3(&mut self) -> (r: Result<(), VmError>)
        requires
            old(self).wf(),
        ensures
            final(self).wf(),
            stack_step(*old(self), *final(self), r, room(*old(self), 1), old(self).stack@.push(Slot::Int(3))),
    {
        self.push(Slot::Int(3))
    }

    pub fn iconst_4(&mut self) -> (r: Result<(), VmError>)
        requires
            old(self).wf(),
        ensures
            final(self).wf(),
            stack_step(*old(self), *final(self), r, room(*old(self), 1), old(self).stack@.push(Slot::Int(4))),
    {
        self.push(Slot::Int(4))
    }

    pub fn iconst_5(&mut self) -> (r: Result<(), VmError>)
        requires
            old(self).wf(),
        ensures
            final(self).wf(),
            stack_step(*old(self), *final(self), r, room(*old(self), 1), old(self).stack@.push(Slot::Int(5))),
    {
        self.push(Slot::Int(5))
    }

    pub fn lconst_0(&mut self) -> (r: Result<(), VmError>)
        requires
            old(self).wf(),
        ensures
            final(self).wf(),
            stack_step(*old(self), *final(self), r, room(*old(self), 2), old(self).stack@.push(Slot::Long(0)).push(Slot::Top)),
    {
        self.push_wide(Slot::Long(0))
    }

    pub fn lconst_1(&mut self) -> (r: Result<(), VmError>)
        requires
            old(self).wf(),
        ensures
            final(self).wf(),
            stack_step(*old(self), *final(self), r, room(*old(self), 2), old(self).stack@.push(Slot::Long(1)).push(Slot::Top)),
    {
        self.push_wide(Slot::Long(1))
    }

    /// Pushes `0.0f`.
    pub fn fconst_0(&mut self) -> (r: Result<(), VmError>)
        requires
            old(self).wf(),
        ensures
            final(self).wf(),
            stack_step(*old(self), *final(self), r, room(*old(self), 1), old(self).stack@.push(Slot::Float(0))),
    {
        self.push(Slot::Float(0))
    }

    /// Pushes `1.0f`.
    pub fn fconst_1(&mut self) -> (r: Result<(), VmError>)
        requires
            old(self).wf(),
        ensures
            final(self).wf(),
            stack_step(*old(self), *final(self), r, room(*old(self), 1), old(self).stack@.push(Slot::Float(0x3f80_0000))),
    {
        self.push(Slot::Float(0x3f80_0000))
    }

    /// Pushes `2.0f`.
    pub fn fconst_2(&mut self) -> (r: Result<(), VmError>)
        requires
            old(self).wf(),
        ensures
            final(self).wf(),
            stack_step(*old(self), *final(self), r, room(*old(self), 1), old(self).stack@.push(Slot::Float(0x4000_0000))),
    {
        self.push(Slot::Float(0x4000_0000))
    }

    /// Pushes `0.0`.
    pub fn dconst_0(&mut self) -> (r: Result<(), VmError>)
        requires
            old(self).wf(),
        ensures
            final(self).wf(),
            stack_step(*old(self), *final(self), r, room(*old(self), 2), old(self).stack@.push(Slot::Double(0)).push(Slot::Top)),
    {
        self.push_wide(Slot::Double(0))
    }

    /// Pushes `1.0`.
    pub fn dconst_1(&mut self) -> (r: Result<(), VmError>)
        requires
            old(self).wf(),
        ensures
            final(self).wf(),
            stack_step(*old(self), *final(self), r, room(*old(self), 2), old(self).stack@.push(Slot::Double(0x3ff0_0000_0000_0000)).push(Slot::Top)),
    {
        self.push_wide(Slot::Double(0x3ff0_0000_0000_0000))
    }

    pub fn nop(&mut self)
        requires
            old(self).wf(),
        ensures
            final(self).wf(),
            *final(self) == *old(self),
    {
    }

    /// Pushes the signed byte operand.
    pub fn bipush(&mut self) -> (r: Result<(), VmError>)
        requires
            old(self).wf(),
        ensures
            final(self).wf(),
            r is Ok <==> old(self).pc + 1 <= old(self).code@.len() && room(*old(self), 1),
            r is Err ==> *final(self) == *old(self),
            r is Ok ==> *final(self) == (Frame { stack: final(self).stack, pc: (old(self).pc + 1) as usize, ..*old(self) })
                && final(self).stack@ == old(self).stack@.push(Slot::Int(old(self).code@[old(self).pc as int] as i8 as i32)),
    {
        if !(self.has_code(1) && self.has_room(1)) {
            return Err(VmError::BadCode);
        }
        let v = self.read_u1() as i8 as i32;
        self.push_slot(Slot::Int(v));
        Ok(())
    }

    /// Pushes the signed 16-bit operand.
    pub fn sipush(&mut self) -> (r: Result<(), VmError>)
        requires
            old(self).wf(),
        ensures
            final(self).wf(),
            r is Ok <==> old(self).pc + 2 <= old(self).code@.len() && room(*old(self), 1),
            r is Err ==> *final(self) == *old(self),
            r is Ok ==> *final(self) == (Frame { stack: final(self).stack, pc: (old(self).pc + 2) as usize, ..*old(self) })
                && final(self).stack@ == old(self).stack@.push(Slot::Int(i2_at(old(self).code@, old(self).pc as int) as i32)),
    {
        if !(self.has_code(2) && self.has_room(1)) {
            return Err(VmError::BadCode);
        }
        let v = self.read_i2();
        self.push_slot(Slot::Int(v));
        Ok(())
    }

    /// Adds the signed constant operand to the `int` in a local.
    pub fn iinc(&mut self) -> (r: Result<(), VmError>)
        requires
            old(self).wf(),
        ensures
            final(self).wf(),
            ({
                let a = *old(self);
                let n: int = if a.op_widen { 4 } else { 2 };
                let i = index_operand(a);
                let c: int = if a.op_widen { i2_at(a.code@, a.pc + 2) } else { a.code@[a.pc + 1] as i8 as int };
                &&& (r is Ok <==> a.pc + n <= a.code@.len() && local_holds(a.local@, i, Cat::Int))
                &&& (r is Err ==> *final(self) == a)
                &&& (r is Ok ==> *final(self) == (Frame { local: final(self).local, pc: (a.pc + n) as usize, op_widen: false, ..a })
                    && final(self).local@ == a.local@.update(i, Slot::Int(wrap_i32(a.local@[i]->Int_0 + c) as i32)))
            }),
    {
        let n: usize = if self.op_widen { 4 } else { 2 };
        let _len = self.code.len();
        if !self.has_code(n) {
            return Err(VmError::BadCode);
        }
        let i = self.index_peek();
        if !self.local_holds_exec(i, Cat::Int) {
            return Err(VmError::BadLocal);
        }
        let c: i32 = if self.op_widen {
            let u = (self.code[self.pc + 2] as i32) * 256 + (self.code[self.pc + 3] as i32);
            if u >= 0x8000 { u - 0x1_0000 } else { u }
        } else {
            self.code[self.pc + 1] as i8 as i32
        };
        let v = match self.local[i] {
            Slot::Int(x) => x,
            _ => 0,
        };
        self.local.set(i, Slot::Int(add_i32(v, c)));
        self.pc = self.pc + n;
        self.op_widen = false;
        Ok(())
    }

    /// Makes the next local-variable instruction take 16-bit operands.
    pub fn wide(&mut self)
        requires
            old(self).wf(),
        ensures
            final(self).wf(),
            *final(self) == (Frame { op_widen: true, ..*old(self) }),
    {
        self.op_widen = true;
    }

    /// Drops a one-slot value.
    pub fn pop(&mut self) -> (r: Result<(), VmError>)
        requires
            old(self).wf(),
        ensures
            final(self).wf(),
            stack_step(*old(self), *final(self), r, single(old(self).stack@, 0), popped(old(self).stack@, 1)),
    {
        if !self.is_single(0) {
            return Err(VmError::BadOperand);
        }
        self.drop_slots(1);
        Ok(())
    }

    /// Drops a two-slot value or two one-slot values.
    pub fn pop2(&mut self) -> (r: Result<(), VmError>)
        requires
            old(self).wf(),
        ensures
            final(self).wf(),
            stack_step(*old(self), *final(self), r, pair(old(self).stack@, 0), popped(old(self).stack@, 2)),
    {
        if !self.is_pair(0) {
            return Err(VmError::BadOperand);
        }
        self.drop_slots(2);
        Ok(())
    }

    pub fn dup(&mut self) -> (r: Result<(), VmError>)
        requires
            old(self).wf(),
        ensures
            final(self).wf(),
            ({
                let s = old(self).stack@;
                stack_step(*old(self), *final(self), r, single(s, 0) && room(*old(self), 1), s.push(depth(s, 0)))
            }),
    {
        if !(self.is_single(0) && self.has_room(1)) {
            return Err(VmError::BadOperand);
        }
        let v = self.stack[self.stack.len() - 1];
        self.push_slot(v);
        Ok(())
    }

    pub fn dup_x1(&mut self) -> (r: Result<(), VmError>)
        requires
            old(self).wf(),
        ensures
            final(self).wf(),
            ({
                let s = old(self).stack@;
                stack_step(*old(self), *final(self), r, single(s, 0) && single(s, 1) && room(*old(self), 1),
                    popped(s, 2).push(depth(s, 0)).push(depth(s, 1)).push(depth(s, 0)))
            }),
    {
        if !(self.is_single(0) && self.is_single(1) && self.has_room(1)) {
            return Err(VmError::BadOperand);
        }
        let v1 = self.pop_slot();
        let v2 = self.pop_slot();
        self.push_slot(v1);
        self.push_slot(v2);
        self.push_slot(v1);
        proof {
            let s = old(self).stack@;
            assert(self.stack@ =~= popped(s, 2).push(depth(s, 0)).push(depth(s, 1)).push(depth(s, 0)));
        }
        Ok(())
    }

    pub fn dup_x2(&mut self) -> (r: Result<(), VmError>)
        requires
            old(self).wf(),
        ensures
            final(self).wf(),
            ({
                let s = old(self).stack@;
                stack_step(*old(self), *final(self), r, single(s, 0) && pair(s, 1) && room(*old(self), 1),
                    popped(s, 3).push(depth(s, 0)).push(depth(s, 2)).push(depth(s, 1)).push(depth(s, 0)))
            }),
    {
        if !(self.is_single(0) && self.is_pair(1) && self.has_room(1)) {
            return Err(VmError::BadOperand);
        }
        let v1 = self.pop_slot();
        let v2 = self.pop_slot();
        let v3 = self.pop_slot();
        self.push_slot(v1);
        self.push_slot(v3);
        self.push_slot(v2);
        self.push_slot(v1);
        proof {
            let s = old(self).stack@;
            assert(self.stack@ =~= popped(s, 3).push(depth(s, 0)).push(depth(s, 2)).push(depth(s, 1)).push(depth(s, 0)));
        }
        Ok(())
    }

    pub fn dup2(&mut self) -> (r: Result<(), VmError>)
        requires
            old(self).wf(),
        ensures
            final(self).wf(),
            ({
                let s = old(self).stack@;
                stack_step(*old(self), *final(self), r, pair(s, 0) && room(*old(self), 2),
                    s.push(depth(s, 1)).push(depth(s, 0)))
            }),
    {
        if !(self.is_pair(0) && self.has_room(2)) {
            return Err(VmError::BadOperand);
        }
        let v1 = self.stack[self.stack.len() - 1];
        let v2 = self.stack[self.stack.len() - 2];
        self.push_slot(v2);
        self.push_slot(v1);
        Ok(())
    }

    pub fn dup2_x1(&mut self) -> (r: Result<(), VmError>)
        requires
            old(self).wf(),
        ensures
            final(self).wf(),
            ({
                let s = old(self).stack@;
                stack_step(*old(self), *final(self), r, pair(s, 0) && single(s, 2) && room(*old(self), 2),
                    popped(s, 3).push(depth(s, 1)).push(depth(s, 0)).push(depth(s, 2)).push(depth(s, 1)).push(depth(s, 0)))
            }),
    {
        if !(self.is_pair(0) && self.is_single(2) && self.has_room(2)) {
            return Err(VmError::BadOperand);
        }
        let v1 = self.pop_slot();
        let v2 = self.pop_slot();
        let v3 = self.pop_slot();
        self.push_slot(v2);
        self.push_slot(v1);
        self.push_slot(v3);
        self.push_slot(v2);
        self.push_slot(v1);
        proof {
            let s = old(self).stack@;
            assert(self.stack@ =~= popped(s, 3).push(depth(s, 1)).push(depth(s, 0)).push(depth(s, 2)).push(depth(s, 1)).push(depth(s, 0)));
        }
        Ok(())
    }

    pub fn dup2_x2(&mut self) -> (r: Result<(), VmError>)
        requires
            old(self).wf(),
        ensures
            final(self).wf(),
            ({
                let s = old(self).stack@;
                stack_step(*old(self), *final(self), r, pair(s, 0) && pair(s, 2) && room(*old(self), 2),
                    popped(s, 4).push(depth(s, 1)).push(depth(s, 0)).push(depth(s, 3)).push(depth(s, 2))
                        .push(depth(s, 1)).push(depth(s, 0)))
            }),
    {
        if !(self.is_pair(0) && self.is_pair(2) && self.has_room(2)) {
            return Err(VmError::BadOperand);
        }
        let v1 = self.pop_slot();
        let v2 = self.pop_slot();
        let v3 = self.pop_slot();
        let v4 = self.pop_slot();
        self.push_slot(v2);
        self.push_slot(v1);
        self.push_slot(v4);
        self.push_slot(v3);
        self.push_slot(v2);
        self.push_slot(v1);
        proof {
            let s = old(self).stack@;
            assert(self.stack@ =~= popped(s, 4).push(depth(s, 1)).push(depth(s, 0)).push(depth(s, 3)).push(depth(s, 2)).push(depth(s, 1)).push(depth(s, 0)));
        }
        Ok(())
    }

    pub fn swap(&mut self) -> (r: Result<(), VmError>)
        requires
            old(self).wf(),
        ensures
            final(self).wf(),
            ({
                let s = old(self).stack@;
                stack_step(*old(self), *final(self), r, single(s, 0) && single(s, 1),
                    popped(s, 2).push(depth(s, 0)).push(depth(s, 1)))
            }),
    {
        if !(self.is_single(0) && self.is_single(1)) {
            return Err(VmError::BadOperand);
        }
        let v1 = self.pop_slot();
        let v2 = self.pop_slot();
        self.push_slot(v1);
        self.push_slot(v2);
        proof {
            let s = old(self).stack@;
            assert(self.stack@ =~= popped(s, 2).push(depth(s, 0)).push(depth(s, 1)));
        }
        Ok(())
    }

    fn is_single(&self, k: usize) -> (r: bool)
        ensures
            r == single(self.stack@, k as int),
    {
        matches!(self.peek(k), Some(Slot::Int(_)) | Some(Slot::Float(_)) | Some(Slot::Null) | Some(Slot::Ref(_)))
    }

    fn is_pair(&self, k: usize) -> (r: bool)
        ensures
            r == pair(self.stack@, k as int),
    {
        if k >= self.stack.len() || self.stack.len() - k < 2 {
            return false;
        }
        let wide = matches!(self.peek(k), Some(Slot::Top))
            && matches!(self.peek(k + 1), Some(Slot::Long(_)) | Some(Slot::Double(_)));
        wide || (self.is_single(k) && self.is_single(k + 1))
    }
}

} // verus!
