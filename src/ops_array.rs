//! Array instructions: element loads and stores, `arraylength` and
//! `newarray`, with the exceptions they raise.
use vstd::prelude::*;
use crate::class::{ClassKind, ARRAY_INDEX_OUT_OF_BOUNDS, ARRAY_STORE, NEGATIVE_ARRAY_SIZE, NULL_POINTER};
use crate::frame::{depth, int_of, int_on, popped, ref_on, stack_is, Frame};
use crate::heap::{elements_of, element_stored, HeapObj, ObjKind};
use crate::ops_local::{stack_holds, Cat};
use crate::thread::{instance_test, obj_class, raised, JavaThread};
use crate::value::{decimal, push_decimal, push_signed_decimal, signed_decimal, zero_of, Slot, ValueType, VmError};

verus! {

/// The element kind that an array instruction works on. `Byte` covers
/// `byte[]` and `boolean[]`, as `baload` and `bastore` do.
#[derive(Clone, Copy, Debug, PartialEq, Eq, Structural)]
pub enum ArrKind {
    Int,
    Short,
    Char,
    Byte,
    Long,
    Float,
    Double,
    Ref,
}

/// The category of the values an array kind holds on the stack.
pub open spec fn arr_cat(k: ArrKind) -> Cat {
    match k {
        ArrKind::Long => Cat::Long,
        ArrKind::Float => Cat::Float,
        ArrKind::Double => Cat::Double,
        ArrKind::Ref => Cat::Ref,
        _ => Cat::Int,
    }
}

pub open spec fn arr_width(k: ArrKind) -> int {
    if k is Long || k is Double { 2 } else { 1 }
}

/// Object `o` is an array that instructions of kind `k` work on.
pub open spec fn array_matches(o: HeapObj, k: ArrKind) -> bool {
    match o.kind {
        ObjKind::TypeArray { elem, .. } => match k {
            ArrKind::Int => elem == ValueType::Int,
            ArrKind::Short => elem == ValueType::Short,
            ArrKind::Char => elem == ValueType::Char,
            ArrKind::Byte => elem == ValueType::Byte || elem == ValueType::Boolean,
            ArrKind::Long => elem == ValueType::Long,
            ArrKind::Float => elem == ValueType::Float,
            ArrKind::Double => elem == ValueType::Double,
            ArrKind::Ref => false,
        },
        ObjKind::Array { .. } => k is Ref,
        _ => false,
    }
}

/// `v` narrowed to the element type of array `o`.
pub open spec fn narrowed(o: HeapObj, v: Slot) -> Slot {
    match (o.kind, v) {
        (ObjKind::TypeArray { elem: ValueType::Byte, .. }, Slot::Int(x)) => Slot::Int(x as i8 as i32),
        (ObjKind::TypeArray { elem: ValueType::Boolean, .. }, Slot::Int(x)) => Slot::Int(x & 1),
        (ObjKind::TypeArray { elem: ValueType::Char, .. }, Slot::Int(x)) => Slot::Int(x as u16 as i32),
        (ObjKind::TypeArray { elem: ValueType::Short, .. }, Slot::Int(x)) => Slot::Int(x as i16 as i32),
        _ => v,
    }
}

/// `length is <len>, but index is <idx>`.
pub open spec fn index_message(len: int, idx: int) -> Seq<u8> {
    seq![108u8, 101, 110, 103, 116, 104, 32, 105, 115, 32] + decimal(len as nat)
        + seq![44u8, 32, 98, 117, 116, 32, 105, 110, 100, 101, 120, 32, 105, 115, 32] + signed_decimal(idx)
}

pub fn index_text(len: usize, idx: i32) -> (r: Vec<u8>)
    ensures
        r@ == index_message(len as int, idx as int),
{
    let mut r = vec![108u8, 101, 110, 103, 116, 104, 32, 105, 115, 32];
    push_decimal(&mut r, len as u64);
    let mut mid = vec![44u8, 32, 98, 117, 116, 32, 105, 110, 100, 101, 120, 32, 105, 115, 32];
    r.append(&mut mid);
    push_signed_decimal(&mut r, idx as i64);
    r
}

/// An element load of kind `k`: null raises `NullPointerException`, an
/// index out of range `ArrayIndexOutOfBoundsException`; both pop the operands.
pub open spec fn load_elem_step(
    a: Frame, b: Frame, ta: JavaThread, tb: JavaThread, r: Result<(), VmError>, k: ArrKind,
) -> bool {
    let s = a.stack@;
    let arr = depth(s, 1);
    let idx = int_of(s, 0) as int;
    let pre = int_on(s, 0) && ref_on(s, 1) && (arr matches Slot::Ref(p) ==> p < ta.heap.objs@.len()
        && array_matches(ta.heap.objs@[p as int], k));
    &&& (r is Ok <==> pre)
    &&& (r is Err ==> b == a && tb == ta)
    &&& (r is Ok ==> match arr {
        Slot::Ref(p) => {
            let el = elements_of(ta.heap.objs@[p as int])->Some_0;
            if 0 <= idx < el.len() {
                let v = el[idx];
                stack_is(a, b, if arr_width(k) == 2 { popped(s, 2).push(v).push(Slot::Top) } else { popped(s, 2).push(v) })
                    && tb == ta
            } else {
                stack_is(a, b, popped(s, 2)) && raised(ta, tb, ARRAY_INDEX_OUT_OF_BOUNDS, Some(index_message(el.len() as int, idx)))
            }
        },
        _ => stack_is(a, b, popped(s, 2)) && raised(ta, tb, NULL_POINTER, None),
    })
}

/// An element store of kind `k`. Null raises `NullPointerException`, an
/// index out of range `ArrayIndexOutOfBoundsException`, and a reference that
/// is no instance of the component class `ArrayStoreException`.
pub open spec fn store_elem_step(
    a: Frame, b: Frame, ta: JavaThread, tb: JavaThread, r: Result<(), VmError>, k: ArrKind,
) -> bool {
    let s = a.stack@;
    let w = arr_width(k);
    let v = depth(s, w - 1);
    let idx = int_of(s, w) as int;
    let arr = depth(s, w + 1);
    let cs = ta.classes.classes@;
    let objs = ta.heap.objs@;
    let pre = stack_holds(s, arr_cat(k)) && int_on(s, w) && ref_on(s, w + 1)
        && (arr matches Slot::Ref(p) ==> p < objs.len() && array_matches(objs[p as int], k)
            && (k is Ref ==> (objs[p as int].kind matches ObjKind::Array { class, .. }
                && cs[class as int].kind is ObjectArray)))
        && (k is Ref ==> (v matches Slot::Ref(q) ==> q < objs.len()));
    &&& (r is Ok <==> pre)
    &&& (r is Err ==> b == a && tb == ta)
    &&& (r is Ok ==> stack_is(a, b, popped(s, w + 2)))
    &&& (r is Ok ==> match arr {
        Slot::Ref(p) => {
            let o = objs[p as int];
            let el = elements_of(o)->Some_0;
            if !(0 <= idx < el.len()) {
                raised(ta, tb, ARRAY_INDEX_OUT_OF_BOUNDS, Some(index_message(el.len() as int, idx)))
            } else if k is Ref && v is Ref && !instance_test(cs, objs[v->Ref_0 as int],
                cs[o.kind->Array_class as int].kind->component as int) {
                raised(ta, tb, ARRAY_STORE, None)
            } else {
                &&& element_stored(objs, tb.heap.objs@, p as int, idx, narrowed(o, v))
                &&& tb == (JavaThread { heap: tb.heap, ..ta })
            }
        },
        _ => raised(ta, tb, NULL_POINTER, None),
    })
}

impl Frame {
    fn array_load(&mut self, thread: &mut JavaThread, k: ArrKind) -> (r: Result<(), VmError>)
        requires
            old(thread).wf(),
            old(self).wf(),
        ensures
            final(thread).wf(),
            final(self).wf(),
            load_elem_step(*old(self), *final(self), *old(thread), *final(thread), r, k),
    {
        if !(self.has_int(0) && self.has_ref(1)) {
            return Err(VmError::BadOperand);
        }
        let idx = self.int_at(0);
        match self.stack[self.stack.len() - 2] {
            Slot::Ref(p) => {
                if !(p < thread.heap.objs.len() && matches_kind(&thread.heap.objs[p], k)) {
                    return Err(VmError::BadObject);
                }
                let n = thread.heap.array_length(p).unwrap();
                if idx < 0 || idx as usize >= n {
                    self.drop_slots(2);
                    thread.raise(ARRAY_INDEX_OUT_OF_BOUNDS, Some(index_text(n, idx)));
                } else {
                    let v = thread.heap.element(p, idx as usize);
                    self.drop_slots(2);
                    self.push_slot(v);
                    if matches!(k, ArrKind::Long | ArrKind::Double) {
                        self.push_slot(Slot::Top);
                    }
                }
            },
            _ => {
                self.drop_slots(2);
                thread.raise(NULL_POINTER, None);
            },
        }
        Ok(())
    }

    fn array_store(&mut self, thread: &mut JavaThread, k: ArrKind) -> (r: Result<(), VmError>)
        requires
            old(self).wf(),
            old(thread).wf(),
        ensures
            final(thread).wf(),
            final(self).wf(),
            store_elem_step(*old(self), *final(self), *old(thread), *final(thread), r, k),
    {
        let w: usize = if matches!(k, ArrKind::Long | ArrKind::Double) { 2 } else { 1 };
        let vok = match k {
            ArrKind::Long => self.has_long(0),
            ArrKind::Double => self.has_double(0),
            ArrKind::Float => self.has_float(0),
            ArrKind::Ref => self.has_ref(0),
            _ => self.has_int(0),
        };
        if !(vok && self.has_int(w) && self.has_ref(w + 1)) {
            return Err(VmError::BadOperand);
        }
        let v = self.stack[self.stack.len() - w];
        let idx = self.int_at(w);
        let arr = self.stack[self.stack.len() - 2 - w];
        if let Slot::Ref(q) = v {
            if matches!(k, ArrKind::Ref) && q >= thread.heap.objs.len() {
                return Err(VmError::BadObject);
            }
        }
        match arr {
            Slot::Ref(p) => {
                if !(p < thread.heap.objs.len() && matches_kind(&thread.heap.objs[p], k)) {
                    return Err(VmError::BadObject);
                }
                let mut component: usize = 0;
                if matches!(k, ArrKind::Ref) {
                    let c = match &thread.heap.objs[p].kind {
                        ObjKind::Array { class, .. } => *class,
                        _ => 0,
                    };
                    proof {
                        assert(obj_class(thread.heap.objs@[p as int]) == Some(c));
                    }
                    match thread.classes.classes[c].kind {
                        ClassKind::ObjectArray { component: t } => {
                            component = t;
                        },
                        _ => {
                            return Err(VmError::BadObject);
                        },
                    }
                }
                let n = thread.heap.array_length(p).unwrap();
                self.drop_slots(w + 2);
                if idx < 0 || idx as usize >= n {
                    thread.raise(ARRAY_INDEX_OUT_OF_BOUNDS, Some(index_text(n, idx)));
                    return Ok(());
                }
                if let Slot::Ref(q) = v {
                    if matches!(k, ArrKind::Ref) {
                        proof {
                            assert(obj_class(thread.heap.objs@[q as int]) matches Some(c) ==> c < thread.classes.classes@.len());
                        }
                        if !thread.is_instance(q, component) {
                            thread.raise(ARRAY_STORE, None);
                            return Ok(());
                        }
                    }
                }
                let nv = narrow_for(&thread.heap.objs[p], v);
                thread.heap.set_element(p, idx as usize, nv);
            },
            _ => {
                self.drop_slots(w + 2);
                thread.raise(NULL_POINTER, None);
            },
        }
        Ok(())
    }

    pub fn iaload(&mut self, thread: &mut JavaThread) -> (r: Result<(), VmError>)
        requires
            old(thread).wf(),
            old(self).wf(),
        ensures
            final(thread).wf(),
            final(self).wf(),
            load_elem_step(*old(self), *final(self), *old(thread), *final(thread), r, ArrKind::Int),
    {
        self.array_load(thread, ArrKind::Int)
    }

    pub fn saload(&mut self, thread: &mut JavaThread) -> (r: Result<(), VmError>)
        requires
            old(thread).wf(),
            old(self).wf(),
        ensures
            final(thread).wf(),
            final(self).wf(),
            load_elem_step(*old(self), *final(self), *old(thread), *final(thread), r, ArrKind::Short),
    {
        self.array_load(thread, ArrKind::Short)
    }

    pub fn caload(&mut self, thread: &mut JavaThread) -> (r: Result<(), VmError>)
        requires
            old(thread).wf(),
            old(self).wf(),
        ensures
            final(thread).wf(),
            final(self).wf(),
            load_elem_step(*old(self), *final(self), *old(thread), *final(thread), r, ArrKind::Char),
    {
        self.array_load(thread, ArrKind::Char)
    }

    pub fn baload(&mut self, thread: &mut JavaThread) -> (r: Result<(), VmError>)
        requires
            old(thread).wf(),
            old(self).wf(),
        ensures
            final(thread).wf(),
            final(self).wf(),
            load_elem_step(*old(self), *final(self), *old(thread), *final(thread), r, ArrKind::Byte),
    {
        self.array_load(thread, ArrKind::Byte)
    }

    pub fn laload(&mut self, thread: &mut JavaThread) -> (r: Result<(), VmError>)
        requires
            old(thread).wf(),
            old(self).wf(),
        ensures
            final(thread).wf(),
            final(self).wf(),
            load_elem_step(*old(self), *final(self), *old(thread), *final(thread), r, ArrKind::Long),
    {
        self.array_load(thread, ArrKind::Long)
    }

    pub fn faload(&mut self, thread: &mut JavaThread) -> (r: Result<(), VmError>)
        requires
            old(thread).wf(),
            old(self).wf(),
        ensures
            final(thread).wf(),
            final(self).wf(),
            load_elem_step(*old(self), *final(self), *old(thread), *final(thread), r, ArrKind::Float),
    {
        self.array_load(thread, ArrKind::Float)
    }

    pub fn daload(&mut self, thread: &mut JavaThread) -> (r: Result<(), VmError>)
        requires
            old(thread).wf(),
            old(self).wf(),
        ensures
            final(thread).wf(),
            final(self).wf(),
            load_elem_step(*old(self), *final(self), *old(thread), *final(thread), r, ArrKind::Double),
    {
        self.array_load(thread, ArrKind::Double)
    }

    pub fn aaload(&mut self, thread: &mut JavaThread) -> (r: Result<(), VmError>)
        requires
            old(thread).wf(),
            old(self).wf(),
        ensures
            final(thread).wf(),
            final(self).wf(),
            load_elem_step(*old(self), *final(self), *old(thread), *final(thread), r, ArrKind::Ref),
    {
        self.array_load(thread, ArrKind::Ref)
    }

    pub fn iastore(&mut self, thread: &mut JavaThread) -> (r: Result<(), VmError>)
        requires
            old(self).wf(),
            old(thread).wf(),
        ensures
            final(thread).wf(),
            final(self).wf(),
            store_elem_step(*old(self), *final(self), *old(thread), *final(thread), r, ArrKind::Int),
    {
        self.array_store(thread, ArrKind::Int)
    }

    pub fn sastore(&mut self, thread: &mut JavaThread) -> (r: Result<(), VmError>)
        requires
            old(self).wf(),
            old(thread).wf(),
        ensures
            final(thread).wf(),
            final(self).wf(),
            store_elem_step(*old(self), *final(self), *old(thread), *final(thread), r, ArrKind::Short),
    {
        self.array_store(thread, ArrKind::Short)
    }

    pub fn castore(&mut self, thread: &mut JavaThread) -> (r: Result<(), VmError>)
        requires
            old(self).wf(),
            old(thread).wf(),
        ensures
            final(thread).wf(),
            final(self).wf(),
            store_elem_step(*old(self), *final(self), *old(thread), *final(thread), r, ArrKind::Char),
    {
        self.array_store(thread, ArrKind::Char)
    }

    pub fn bastore(&mut self, thread: &mut JavaThread) -> (r: Result<(), VmError>)
        requires
            old(self).wf(),
            old(thread).wf(),
        ensures
            final(thread).wf(),
            final(self).wf(),
            store_elem_step(*old(self), *final(self), *old(thread), *final(thread), r, ArrKind::Byte),
    {
        self.array_store(thread, ArrKind::Byte)
    }

    pub fn lastore(&mut self, thread: &mut JavaThread) -> (r: Result<(), VmError>)
        requires
            old(self).wf(),
            old(thread).wf(),
        ensures
            final(thread).wf(),
            final(self).wf(),
            store_elem_step(*old(self), *final(self), *old(thread), *final(thread), r, ArrKind::Long),
    {
        self.array_store(thread, ArrKind::Long)
    }

    pub fn fastore(&mut self, thread: &mut JavaThread) -> (r: Result<(), VmError>)
        requires
            old(self).wf(),
            old(thread).wf(),
        ensures
            final(thread).wf(),
            final(self).wf(),
            store_elem_step(*old(self), *final(self), *old(thread), *final(thread), r, ArrKind::Float),
    {
        self.array_store(thread, ArrKind::Float)
    }

    pub fn dastore(&mut self, thread: &mut JavaThread) -> (r: Result<(), VmError>)
        requires
            old(self).wf(),
            old(thread).wf(),
        ensures
            final(thread).wf(),
            final(self).wf(),
            store_elem_step(*old(self), *final(self), *old(thread), *final(thread), r, ArrKind::Double),
    {
        self.array_store(thread, ArrKind::Double)
    }

    pub fn aastore(&mut self, thread: &mut JavaThread) -> (r: Result<(), VmError>)
        requires
            old(self).wf(),
            old(thread).wf(),
        ensures
            final(thread).wf(),
            final(self).wf(),
            store_elem_step(*old(self), *final(self), *old(thread), *final(thread), r, ArrKind::Ref),
    {
        self.array_store(thread, ArrKind::Ref)
    }

    /// Pushes the length of the popped array; null raises `NullPointerException`.
    pub fn array_length(&mut self, thread: &mut JavaThread) -> (r: Result<(), VmError>)
        requires
            old(thread).wf(),
            old(self).wf(),
        ensures
            final(thread).wf(),
            final(self).wf(),
            ({
                let s = old(self).stack@;
                let objs = old(thread).heap.objs@;
                let arr = depth(s, 0);
                &&& (r is Ok <==> ref_on(s, 0) && (arr matches Slot::Ref(p) ==> p < objs.len()
                    && elements_of(objs[p as int]) is Some && elements_of(objs[p as int])->Some_0.len() <= i32::MAX))
                &&& (r is Err ==> *final(self) == *old(self) && *final(thread) == *old(thread))
                &&& (r is Ok ==> match arr {
                    Slot::Ref(p) => stack_is(*old(self), *final(self),
                        popped(s, 1).push(Slot::Int(elements_of(objs[p as int])->Some_0.len() as i32)))
                        && *final(thread) == *old(thread),
                    _ => stack_is(*old(self), *final(self), popped(s, 1)) && raised(*old(thread), *final(thread), NULL_POINTER, None),
                })
            }),
    {
        if !self.has_ref(0) {
            return Err(VmError::BadOperand);
        }
        match self.stack[self.stack.len() - 1] {
            Slot::Ref(p) => {
                match thread.heap.array_length(p) {
                    Some(n) => {
                        if n > i32::MAX as usize {
                            return Err(VmError::BadObject);
                        }
                        self.replace_top(1, Slot::Int(n as i32));
                    },
                    None => {
                        return Err(VmError::BadObject);
                    },
                }
            },
            _ => {
                self.drop_slots(1);
                thread.raise(NULL_POINTER, None);
            },
        }
        Ok(())
    }

    /// Allocates a primitive array whose element type is the operand and
    /// whose length is popped; a negative length raises
    /// `NegativeArraySizeException`.
    pub fn new_array(&mut self, thread: &mut JavaThread) -> (r: Result<(), VmError>)
        requires
            old(thread).wf(),
            old(self).wf(),
        ensures
            final(thread).wf(),
            final(self).wf(),
            ({
                let a = *old(self);
                let s = a.stack@;
                let n = int_of(s, 0);
                let t = atype_elem(a.code@[a.pc as int]);
                &&& (r is Ok <==> a.pc + 1 <= a.code@.len() && int_on(s, 0) && t is Some)
                &&& (r is Err ==> *final(self) == a && *final(thread) == *old(thread))
                &&& (r is Ok ==> *final(self) == (Frame { stack: final(self).stack, pc: (a.pc + 1) as usize, ..a }))
                &&& (r is Ok ==> if n < 0 {
                    final(self).stack@ == popped(s, 1)
                        && raised(*old(thread), *final(thread), NEGATIVE_ARRAY_SIZE, Some(negative_length_message()))
                } else {
                    let objs = old(thread).heap.objs@;
                    &&& final(self).stack@ == popped(s, 1).push(Slot::Ref(objs.len() as usize))
                    &&& final(thread).heap.objs@.len() == objs.len() + 1
                    &&& final(thread).heap.objs@.drop_last() == objs
                    &&& final(thread).heap.objs@.last().count == 0
                    &&& final(thread).heap.objs@.last().kind matches ObjKind::TypeArray { elem, elements }
                        && elem == t->Some_0 && elements@ == Seq::new(n as nat, |i: int| zero_of(t->Some_0))
                    &&& *final(thread) == (JavaThread { heap: final(thread).heap, ..*old(thread) })
                })
            }),
    {
        let _len = self.code.len();
        if !(self.has_code(1) && self.has_int(0)) {
            return Err(VmError::BadCode);
        }
        let t = match elem_of_atype(self.code[self.pc]) {
            Some(t) => t,
            None => {
                return Err(VmError::BadCode);
            },
        };
        let n = self.int_at(0);
        self.pc = self.pc + 1;
        self.drop_slots(1);
        if n < 0 {
            thread.raise(NEGATIVE_ARRAY_SIZE, Some(negative_length_text()));
            return Ok(());
        }
        let z = t.zero();
        let mut elements: Vec<Slot> = Vec::new();
        let mut i: usize = 0;
        while i < n as usize
            invariant
                i <= n,
                z == zero_of(t),
                elements@ == Seq::new(i as nat, |j: int| zero_of(t)),
            decreases n - i,
        {
            elements.push(z);
            i += 1;
            assert(elements@ =~= Seq::new(i as nat, |j: int| zero_of(t)));
        }
        let p = thread.heap.allocate(ObjKind::TypeArray { elem: t, elements });
        self.push_slot(Slot::Ref(p));
        proof {
            assert(thread.heap.objs@.drop_last() =~= old(thread).heap.objs@);
        }
        Ok(())
    }
}

/// The element type of a `newarray` type code.
pub open spec fn atype_elem(b: u8) -> Option<ValueType> {
    if b == 4 {
        Some(ValueType::Boolean)
    } else if b == 5 {
        Some(ValueType::Char)
    } else if b == 6 {
        Some(ValueType::Float)
    } else if b == 7 {
        Some(ValueType::Double)
    } else if b == 8 {
        Some(ValueType::Byte)
    } else if b == 9 {
        Some(ValueType::Short)
    } else if b == 10 {
        Some(ValueType::Int)
    } else if b == 11 {
        Some(ValueType::Long)
    } else {
        None
    }
}

pub fn elem_of_atype(b: u8) -> (r: Option<ValueType>)
    ensures
        r == atype_elem(b),
{
    if b == 4 {
        Some(ValueType::Boolean)
    } else if b == 5 {
        Some(ValueType::Char)
    } else if b == 6 {
        Some(ValueType::Float)
    } else if b == 7 {
        Some(ValueType::Double)
    } else if b == 8 {
        Some(ValueType::Byte)
    } else if b == 9 {
        Some(ValueType::Short)
    } else if b == 10 {
        Some(ValueType::Int)
    } else if b == 11 {
        Some(ValueType::Long)
    } else {
        None
    }
}

/// The detail message of a negative array length: `length < 0`.
pub open spec fn negative_length_message() -> Seq<u8> {
    seq![108u8, 101, 110, 103, 116, 104, 32, 60, 32, 48]
}

pub fn negative_length_text() -> (r: Vec<u8>)
    ensures
        r@ == negative_length_message(),
{
    let r = vec![108u8, 101, 110, 103, 116, 104, 32, 60, 32, 48];
    assert(r@ =~= negative_length_message());
    r
}

fn matches_kind(o: &HeapObj, k: ArrKind) -> (r: bool)
    ensures
        r == array_matches(*o, k),
{
    match &o.kind {
        ObjKind::TypeArray { elem, .. } => match k {
            ArrKind::Int => matches!(elem, ValueType::Int),
            ArrKind::Short => matches!(elem, ValueType::Short),
            ArrKind::Char => matches!(elem, ValueType::Char),
            ArrKind::Byte => matches!(elem, ValueType::Byte | ValueType::Boolean),
            ArrKind::Long => matches!(elem, ValueType::Long),
            ArrKind::Float => matches!(elem, ValueType::Float),
            ArrKind::Double => matches!(elem, ValueType::Double),
            ArrKind::Ref => false,
        },
        ObjKind::Array { .. } => matches!(k, ArrKind::Ref),
        _ => false,
    }
}

fn narrow_for(o: &HeapObj, v: Slot) -> (r: Slot)
    ensures
        r == narrowed(*o, v),
{
    match (&o.kind, v) {
        (ObjKind::TypeArray { elem: ValueType::Byte, .. }, Slot::Int(x)) => Slot::Int(x as i8 as i32),
        (ObjKind::TypeArray { elem: ValueType::Boolean, .. }, Slot::Int(x)) => Slot::Int(x & 1),
        (ObjKind::TypeArray { elem: ValueType::Char, .. }, Slot::Int(x)) => Slot::Int(x as u16 as i32),
        (ObjKind::TypeArray { elem: ValueType::Short, .. }, Slot::Int(x)) => Slot::Int(x as i16 as i32),
        _ => v,
    }
}

} // verus!
