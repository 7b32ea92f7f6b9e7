//! A method activation: operand stack, local variables and program counter,
//! with the checked primitives that every instruction is built from.
use vstd::prelude::*;
use crate::class::ClassTable;
use crate::value::{Slot, VmError};

verus! {

/// One activation of a method.
pub struct Frame {
    pub frame_id: usize,
    /// Index of the class that declares the method.
    pub class: usize,
    /// Index of the method in its class.
    pub method: usize,
    pub code: Vec<u8>,
    pub local: Vec<Slot>,
    pub stack: Vec<Slot>,
    pub max_stack: usize,
    /// Byte offset of the next instruction or operand in `code`.
    pub pc: usize,
    pub return_v: Option<Slot>,
    /// Set by `wide`: the next local-variable instruction has 16-bit operands.
    pub op_widen: bool,
    /// Offset of the instruction being executed, where exception handlers are searched.
    pub inst_pc: usize,
    /// The class whose `<clinit>` this frame runs, if it runs one.
    pub init_class: Option<usize>,
}

/// The slot `k` places below the top of `s` (`k == 0` is the top).
pub open spec fn depth(s: Seq<Slot>, k: int) -> Slot {
    s[s.len() - 1 - k]
}

/// `s` without its top `n` slots.
pub open spec fn popped(s: Seq<Slot>, n: int) -> Seq<Slot> {
    s.subrange(0, s.len() - n)
}

pub open spec fn int_on(s: Seq<Slot>, k: int) -> bool {
    0 <= k < s.len() && depth(s, k) is Int
}

pub open spec fn int_of(s: Seq<Slot>, k: int) -> i32 {
    depth(s, k)->Int_0
}

pub open spec fn float_on(s: Seq<Slot>, k: int) -> bool {
    0 <= k < s.len() && depth(s, k) is Float
}

pub open spec fn float_of(s: Seq<Slot>, k: int) -> u32 {
    depth(s, k)->Float_0
}

/// A `long` whose upper (`Top`) slot is `k` below the top.
pub open spec fn long_on(s: Seq<Slot>, k: int) -> bool {
    0 <= k && k + 1 < s.len() && depth(s, k) is Top && depth(s, k + 1) is Long
}

pub open spec fn long_of(s: Seq<Slot>, k: int) -> i64 {
    depth(s, k + 1)->Long_0
}

pub open spec fn double_on(s: Seq<Slot>, k: int) -> bool {
    0 <= k && k + 1 < s.len() && depth(s, k) is Top && depth(s, k + 1) is Double
}

pub open spec fn double_of(s: Seq<Slot>, k: int) -> u64 {
    depth(s, k + 1)->Double_0
}

pub open spec fn ref_on(s: Seq<Slot>, k: int) -> bool {
    0 <= k < s.len() && depth(s, k).is_reference()
}

/// `b` is `a` with only the operand stack changed, to `s`.
pub open spec fn stack_is(a: Frame, b: Frame, s: Seq<Slot>) -> bool {
    &&& b == (Frame { stack: b.stack, ..a })
    &&& b.stack@ == s
}

/// An instruction that only rewrites the operand stack: it succeeds exactly
/// when `pre` holds and then leaves `post`; on failure nothing changes.
pub open spec fn stack_step(a: Frame, b: Frame, r: Result<(), VmError>, pre: bool, post: Seq<Slot>) -> bool {
    &&& (r is Ok <==> pre)
    &&& (r is Ok ==> stack_is(a, b, post))
    &&& (r is Err ==> b == a)
}

/// The operand stack has room for `n` more slots.
pub open spec fn room(f: Frame, n: int) -> bool {
    f.stack@.len() + n <= f.max_stack
}

/// What `Frame::new` gives for method `method` of class `class`.
pub open spec fn new_frame_post(classes: ClassTable, class: usize, method: usize, frame_id: usize, r: Result<Frame, VmError>) -> bool {
    &&& (r is Ok <==> class < classes.classes@.len() && method < classes.classes@[class as int].methods@.len())
    &&& (r matches Ok(f) ==> {
        let m = classes.classes@[class as int].methods@[method as int];
        &&& f.wf()
        &&& f.class == class && f.method == method && f.frame_id == frame_id
        &&& f.pc == 0 && f.stack@.len() == 0 && f.return_v is None && !f.op_widen && f.init_class is None
        &&& match m.code {
            Some(c) => f.code@ == c.code@ && f.max_stack == c.max_stack
                && f.local@ == Seq::new(c.max_locals as nat, |i: int| Slot::Top),
            None => f.code@.len() == 0 && f.max_stack == 0 && f.local@.len() == 0,
        }
    })
}

impl Frame {
    /// The frame is within its limits: the stack within `max_stack` and the
    /// program counter within the code.
    pub open spec fn wf(&self) -> bool {
        &&& self.stack@.len() <= self.max_stack
        &&& self.pc <= self.code@.len()
    }

    /// A frame for method `method` of class `class`, with locals and an
    /// operand stack sized by its `Code` attribute, or an empty one for a
    /// method without code.
    pub fn new(classes: &ClassTable, class: usize, method: usize, frame_id: usize) -> (r: Result<Frame, VmError>)
        ensures
            new_frame_post(*classes, class, method, frame_id, r),
    {
        if class >= classes.classes.len() || method >= classes.classes[class].methods.len() {
            return Err(VmError::Unresolved);
        }
        let m = &classes.classes[class].methods[method];
        match &m.code {
            Some(c) => {
                let mut local: Vec<Slot> = Vec::new();
                let mut i: usize = 0;
                while i < c.max_locals
                    invariant
                        i <= c.max_locals,
                        local@ == Seq::new(i as nat, |j: int| Slot::Top),
                    decreases c.max_locals - i,
                {
                    local.push(Slot::Top);
                    i += 1;
                    assert(local@ =~= Seq::new(i as nat, |j: int| Slot::Top));
                }
                Ok(Frame {
                    frame_id,
                    class,
                    method,
                    code: copy_bytes(&c.code),
                    local,
                    stack: Vec::new(),
                    max_stack: c.max_stack,
                    pc: 0,
                    return_v: None,
                    op_widen: false,
                    inst_pc: 0,
                    init_class: None,
                })
            },
            None => Ok(Frame {
                frame_id,
                class,
                method,
                code: Vec::new(),
                local: Vec::new(),
                stack: Vec::new(),
                max_stack: 0,
                pc: 0,
                return_v: None,
                op_widen: false,
                inst_pc: 0,
                init_class: None,
            }),
        }
    }

    /// The slot `k` places below the top, if there is one.
    pub fn peek(&self, k: usize) -> (r: Option<Slot>)
        ensures
            r == (if k < self.stack@.len() { Some(depth(self.stack@, k as int)) } else { None }),
    {
        if k < self.stack.len() {
            Some(self.stack[self.stack.len() - 1 - k])
        } else {
            None
        }
    }

    pub fn has_int(&self, k: usize) -> (r: bool)
        ensures
            r == int_on(self.stack@, k as int),
    {
        matches!(self.peek(k), Some(Slot::Int(_)))
    }

    pub fn has_float(&self, k: usize) -> (r: bool)
        ensures
            r == float_on(self.stack@, k as int),
    {
        matches!(self.peek(k), Some(Slot::Float(_)))
    }

    pub fn has_long(&self, k: usize) -> (r: bool)
        ensures
            r == long_on(self.stack@, k as int),
    {
        if k >= self.stack.len() || self.stack.len() - k < 2 {
            return false;
        }
        matches!(self.peek(k), Some(Slot::Top)) && matches!(self.peek(k + 1), Some(Slot::Long(_)))
    }

    pub fn has_double(&self, k: usize) -> (r: bool)
        ensures
            r == double_on(self.stack@, k as int),
    {
        if k >= self.stack.len() || self.stack.len() - k < 2 {
            return false;
        }
        matches!(self.peek(k), Some(Slot::Top)) && matches!(self.peek(k + 1), Some(Slot::Double(_)))
    }

    pub fn has_ref(&self, k: usize) -> (r: bool)
        ensures
            r == ref_on(self.stack@, k as int),
    {
        matches!(self.peek(k), Some(Slot::Null) | Some(Slot::Ref(_)))
    }

    pub fn int_at(&self, k: usize) -> (r: i32)
        requires
            int_on(self.stack@, k as int),
        ensures
            r == int_of(self.stack@, k as int),
    {
        match self.stack[self.stack.len() - 1 - k] {
            Slot::Int(v) => v,
            _ => 0,
        }
    }

    pub fn float_at(&self, k: usize) -> (r: u32)
        requires
            float_on(self.stack@, k as int),
        ensures
            r == float_of(self.stack@, k as int),
    {
        match self.stack[self.stack.len() - 1 - k] {
            Slot::Float(v) => v,
            _ => 0,
        }
    }

    pub fn long_at(&self, k: usize) -> (r: i64)
        requires
            long_on(self.stack@, k as int),
        ensures
            r == long_of(self.stack@, k as int),
    {
        match self.stack[self.stack.len() - 2 - k] {
            Slot::Long(v) => v,
            _ => 0,
        }
    }

    pub fn double_at(&self, k: usize) -> (r: u64)
        requires
            double_on(self.stack@, k as int),
        ensures
            r == double_of(self.stack@, k as int),
    {
        match self.stack[self.stack.len() - 2 - k] {
            Slot::Double(v) => v,
            _ => 0,
        }
    }

    /// Whether `n` more slots fit on the operand stack.
    pub fn has_room(&self, n: usize) -> (r: bool)
        ensures
            r == room(*self, n as int),
    {
        self.stack.len() <= self.max_stack && n <= self.max_stack - self.stack.len()
    }

    /// Removes and returns the top slot.
    pub fn pop_slot(&mut self) -> (r: Slot)
        requires
            old(self).stack@.len() > 0,
        ensures
            r == depth(old(self).stack@, 0),
            stack_is(*old(self), *final(self), popped(old(self).stack@, 1)),
    {
        let r = self.stack.pop().unwrap();
        proof {
            assert(self.stack@ =~= popped(old(self).stack@, 1));
        }
        r
    }

    /// Pushes `v`, which fits.
    pub fn push_slot(&mut self, v: Slot)
        requires
            room(*old(self), 1),
        ensures
            stack_is(*old(self), *final(self), old(self).stack@.push(v)),
    {
        self.stack.push(v);
    }

    /// Removes the top `n` slots.
    pub fn drop_slots(&mut self, n: usize)
        requires
            n <= old(self).stack@.len(),
        ensures
            stack_is(*old(self), *final(self), popped(old(self).stack@, n as int)),
        decreases n,
    {
        if n > 0 {
            self.pop_slot();
            self.drop_slots(n - 1);
            proof {
                assert(popped(popped(old(self).stack@, 1), n - 1) =~= popped(old(self).stack@, n as int));
            }
        } else {
            proof {
                assert(popped(old(self).stack@, 0) =~= old(self).stack@);
            }
        }
    }

    /// Pushes one slot when it fits.
    pub fn push(&mut self, v: Slot) -> (r: Result<(), VmError>)
        ensures
            stack_step(*old(self), *final(self), r, room(*old(self), 1), old(self).stack@.push(v)),
    {
        if !self.has_room(1) {
            return Err(VmError::StackOverflow);
        }
        self.push_slot(v);
        Ok(())
    }

    /// Pushes a two-slot value (`long` or `double`) when it fits.
    pub fn push_wide(&mut self, v: Slot) -> (r: Result<(), VmError>)
        ensures
            stack_step(*old(self), *final(self), r, room(*old(self), 2), old(self).stack@.push(v).push(Slot::Top)),
    {
        if !self.has_room(2) {
            return Err(VmError::StackOverflow);
        }
        self.push_slot(v);
        self.push_slot(Slot::Top);
        Ok(())
    }

    /// Replaces the top `n` slots with `v`, which always fits when `n >= 1`.
    pub fn replace_top(&mut self, n: usize, v: Slot)
        requires
            1 <= n <= old(self).stack@.len(),
            old(self).stack@.len() <= old(self).max_stack,
        ensures
            stack_is(*old(self), *final(self), popped(old(self).stack@, n as int).push(v)),
    {
        self.drop_slots(n);
        self.push_slot(v);
    }

    /// Replaces the top `n` slots with the two-slot value `v`.
    pub fn replace_top_wide(&mut self, n: usize, v: Slot)
        requires
            2 <= n <= old(self).stack@.len(),
            old(self).stack@.len() <= old(self).max_stack,
        ensures
            stack_is(*old(self), *final(self), popped(old(self).stack@, n as int).push(v).push(Slot::Top)),
    {
        self.drop_slots(n);
        self.push_slot(v);
        self.push_slot(Slot::Top);
    }
}

/// A copy of a byte vector.
pub fn copy_bytes(v: &Vec<u8>) -> (r: Vec<u8>)
    ensures
        r@ == v@,
{
    let mut r: Vec<u8> = Vec::new();
    let mut i: usize = 0;
    while i < v.len()
        invariant
            i <= v@.len(),
            r@ == v@.subrange(0, i as int),
        decreases v@.len() - i,
    {
        r.push(v[i]);
        i += 1;
        assert(r@ =~= v@.subrange(0, i as int));
    }
    assert(r@ =~= v@);
    r
}

} // verus!
