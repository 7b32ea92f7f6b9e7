//! Field access (`getstatic`, `putstatic`, `getfield`, `putfield`) and
//! object creation (`new`).
use vstd::prelude::*;
use crate::class::{cp_member, lookup_class, resolved_class, Class, ClassKind, FieldInfo, member_at, ACC_STATIC, NULL_POINTER};
use crate::frame::{depth, popped, ref_on, room, Frame};
use crate::heap::{HeapObj, ObjKind};
use crate::init::init_ready;
use crate::ops_local::{pushed, stack_holds, u2_at, width, Cat};
use crate::ops_object::class_operand;
use crate::thread::{obj_class, raised, JavaThread};
use crate::value::{zero_of, Slot, ValueType, VmError};

verus! {

/// The first field of `fs` from `i` on with the given name and descriptor.
pub open spec fn field_from(fs: Seq<FieldInfo>, name: Seq<u8>, desc: Seq<u8>, i: int) -> Option<usize>
    decreases fs.len() - i,
{
    if i < 0 || i >= fs.len() {
        None
    } else if fs[i].name@ == name && fs[i].descriptor@ == desc {
        Some(i as usize)
    } else {
        field_from(fs, name, desc, i + 1)
    }
}

/// The field `name : desc` of class `c` or of its nearest super class that
/// declares it, as (declaring class, field index).
pub open spec fn field_in(cs: Seq<Class>, c: int, name: Seq<u8>, desc: Seq<u8>) -> Option<(usize, usize)>
    decreases c,
{
    if !(0 <= c < cs.len()) {
        None
    } else {
        match field_from(cs[c].fields@, name, desc, 0) {
            Some(f) => Some((c as usize, f)),
            None => match cs[c].super_class {
                Some(p) => if p < c { field_in(cs, p as int, name, desc) } else { None },
                None => None,
            },
        }
    }
}

/// The field that reference `i` in the pool of class `owner` designates.
pub open spec fn resolved_field(cs: Seq<Class>, owner: int, i: int) -> Option<(usize, usize)> {
    if 0 <= owner < cs.len() {
        match cp_member(cs[owner].cp@, i) {
            Some((cn, n, d)) => match lookup_class(cs, cn) {
                Some(c) => field_in(cs, c as int, n, d),
                None => None,
            },
            None => None,
        }
    } else {
        None
    }
}

pub open spec fn is_static(f: FieldInfo) -> bool {
    f.acc_flags & ACC_STATIC != 0
}

/// How a value of field type `t` sits on the operand stack.
pub open spec fn field_cat(t: ValueType) -> Option<Cat> {
    match t {
        ValueType::Long => Some(Cat::Long),
        ValueType::Double => Some(Cat::Double),
        ValueType::Float => Some(Cat::Float),
        ValueType::Object | ValueType::Array => Some(Cat::Ref),
        ValueType::Void => None,
        _ => Some(Cat::Int),
    }
}

/// `v` narrowed to field type `t`: `boolean` keeps the low bit, `byte` and
/// `short` sign-extend, `char` zero-extends.
pub open spec fn narrow_to(t: ValueType, v: Slot) -> Slot {
    match (t, v) {
        (ValueType::Boolean, Slot::Int(x)) => Slot::Int(x & 1),
        (ValueType::Byte, Slot::Int(x)) => Slot::Int(x as i8 as i32),
        (ValueType::Char, Slot::Int(x)) => Slot::Int(x as u16 as i32),
        (ValueType::Short, Slot::Int(x)) => Slot::Int(x as i16 as i32),
        _ => v,
    }
}

/// The field operand of the instruction at the frame's program counter.
pub open spec fn field_operand(a: Frame, ta: JavaThread) -> FieldInfo {
    let (dc, fi) = resolved_field(ta.classes.classes@, a.class as int, u2_at(a.code@, a.pc as int))->Some_0;
    ta.classes.classes@[dc as int].fields@[fi as int]
}

pub open spec fn field_class(a: Frame, ta: JavaThread) -> usize {
    resolved_field(ta.classes.classes@, a.class as int, u2_at(a.code@, a.pc as int))->Some_0.0
}

/// The field operand resolves to a field of the wanted kind whose slot exists.
pub open spec fn field_ok(a: Frame, ta: JavaThread, want_static: bool) -> bool {
    let cs = ta.classes.classes@;
    let f = field_operand(a, ta);
    &&& a.pc + 2 <= a.code@.len()
    &&& resolved_field(cs, a.class as int, u2_at(a.code@, a.pc as int)) is Some
    &&& is_static(f) == want_static
    &&& field_cat(f.value_type) is Some
    &&& (want_static ==> f.slot < cs[field_class(a, ta) as int].static_values@.len())
}

/// `o2` is instance `o` with field slot `k` set to `v`.
pub open spec fn inst_field_set(o: HeapObj, o2: HeapObj, k: int, v: Slot) -> bool {
    &&& o2.owner == o.owner && o2.count == o.count
    &&& match (o.kind, o2.kind) {
        (ObjKind::Inst { class: c1, fields: f1 }, ObjKind::Inst { class: c2, fields: f2 }) => c1 == c2 && f2@ == f1@.update(k, v),
        _ => false,
    }
}

/// Object `p` is an instance with a field slot `k`.
pub open spec fn has_field_slot(objs: Seq<HeapObj>, p: int, k: int) -> bool {
    0 <= p < objs.len() && match objs[p].kind {
        ObjKind::Inst { fields, .. } => 0 <= k < fields@.len(),
        _ => false,
    }
}

pub open spec fn field_value(o: HeapObj, k: int) -> Slot {
    match o.kind {
        ObjKind::Inst { fields, .. } => fields@[k],
        _ => Slot::Top,
    }
}

impl JavaThread {
    /// The field that reference `i` in the pool of class `owner` designates.
    pub fn resolve_field(&self, owner: usize, i: usize) -> (r: Option<(usize, usize)>)
        requires
            self.wf(),
        ensures
            r == resolved_field(self.classes.classes@, owner as int, i as int),
            r matches Some((c, f)) ==> c < self.classes.classes@.len() && f < self.classes.classes@[c as int].fields@.len(),
    {
        if owner >= self.classes.classes.len() {
            return None;
        }
        let (cn, n, d) = match member_at(&self.classes.classes[owner].cp, i) {
            Some(m) => m,
            None => {
                return None;
            },
        };
        match self.classes.find(cn) {
            Some(c) => self.field_search(c, n, d),
            None => None,
        }
    }

    fn field_search(&self, c: usize, n: &Vec<u8>, d: &Vec<u8>) -> (r: Option<(usize, usize)>)
        requires
            self.wf(),
        ensures
            r == field_in(self.classes.classes@, c as int, n@, d@),
            r matches Some((k, f)) ==> k < self.classes.classes@.len() && f < self.classes.classes@[k as int].fields@.len(),
        decreases c,
    {
        if c >= self.classes.classes.len() {
            return None;
        }
        let fs = &self.classes.classes[c].fields;
        let mut i: usize = 0;
        while i < fs.len()
            invariant
                self.wf(),
                c < self.classes.classes@.len(),
                fs@ == self.classes.classes@[c as int].fields@,
                i <= fs@.len(),
                field_from(fs@, n@, d@, 0) == field_from(fs@, n@, d@, i as int),
            decreases fs@.len() - i,
        {
            if crate::class::bytes_eq(&fs[i].name, n) && crate::class::bytes_eq(&fs[i].descriptor, d) {
                return Some((c, i));
            }
            i += 1;
        }
        match self.classes.classes[c].super_class {
            Some(p) => if p < c { self.field_search(p, n, d) } else { None },
            None => None,
        }
    }
}

fn cat_of(t: ValueType) -> (r: Option<Cat>)
    ensures
        r == field_cat(t),
{
    match t {
        ValueType::Long => Some(Cat::Long),
        ValueType::Double => Some(Cat::Double),
        ValueType::Float => Some(Cat::Float),
        ValueType::Object | ValueType::Array => Some(Cat::Ref),
        ValueType::Void => None,
        _ => Some(Cat::Int),
    }
}

fn narrow(t: ValueType, v: Slot) -> (r: Slot)
    ensures
        r == narrow_to(t, v),
{
    match (t, v) {
        (ValueType::Boolean, Slot::Int(x)) => Slot::Int(x & 1),
        (ValueType::Byte, Slot::Int(x)) => Slot::Int(x as i8 as i32),
        (ValueType::Char, Slot::Int(x)) => Slot::Int(x as u16 as i32),
        (ValueType::Short, Slot::Int(x)) => Slot::Int(x as i16 as i32),
        _ => v,
    }
}

fn cat_width(k: Cat) -> (r: usize)
    ensures
        r as int == width(k),
{
    match k {
        Cat::Long | Cat::Double => 2,
        _ => 1,
    }
}

impl Frame {
    fn operand_u2(&self) -> (r: usize)
        requires
            self.pc + 2 <= self.code@.len(),
        ensures
            r as int == u2_at(self.code@, self.pc as int),
    {
        let _len = self.code.len();
        (self.code[self.pc] as usize) * 256 + (self.code[self.pc + 1] as usize)
    }

    fn holds(&self, k: Cat) -> (r: bool)
        ensures
            r == stack_holds(self.stack@, k),
    {
        match k {
            Cat::Int => self.has_int(0),
            Cat::Float => self.has_float(0),
            Cat::Ref => self.has_ref(0),
            Cat::Long => self.has_long(0),
            Cat::Double => self.has_double(0),
        }
    }

    /// Pushes a static field. Returns `Some(c)`, changing nothing, when
    /// class `c` must be initialized first.
    pub fn get_static(&mut self, thread: &JavaThread) -> (r: Result<Option<usize>, VmError>)
        requires
            old(self).wf(),
            thread.wf(),
        ensures
            final(self).wf(),
            ({
                let a = *old(self);
                let cs = thread.classes.classes@;
                let f = field_operand(a, *thread);
                let dc = field_class(a, *thread);
                let k = field_cat(f.value_type)->Some_0;
                &&& (r is Ok <==> field_ok(a, *thread, true) && room(a, width(k)))
                &&& (r is Err ==> *final(self) == a)
                &&& (r matches Ok(w) ==> if init_ready(cs, dc as int) {
                    &&& w is None
                    &&& *final(self) == (Frame { stack: final(self).stack, pc: (a.pc + 2) as usize, ..a })
                    &&& final(self).stack@ == pushed(a.stack@, cs[dc as int].static_values@[f.slot as int], k)
                } else {
                    w == Some(dc) && *final(self) == a
                })
            }),
    {
        if !self.has_code(2) {
            return Err(VmError::BadCode);
        }
        let (dc, fi) = match thread.resolve_field(self.class, self.operand_u2()) {
            Some(x) => x,
            None => {
                return Err(VmError::Unresolved);
            },
        };
        let f = &thread.classes.classes[dc].fields[fi];
        let k = match cat_of(f.value_type) {
            Some(k) => k,
            None => {
                return Err(VmError::Unresolved);
            },
        };
        let w = cat_width(k);
        if f.acc_flags & ACC_STATIC == 0 || f.slot >= thread.classes.classes[dc].static_values.len() || !self.has_room(w) {
            return Err(VmError::Unresolved);
        }
        if !thread.classes.is_init_ready(dc) {
            return Ok(Some(dc));
        }
        let v = thread.classes.classes[dc].static_values[f.slot];
        self.pc = self.pc + 2;
        self.push_slot(v);
        if w == 2 {
            self.push_slot(Slot::Top);
        }
        Ok(None)
    }

    /// Pops a value into a static field, narrowed to the field's type.
    /// Returns `Some(c)`, changing nothing, when class `c` must be
    /// initialized first.
    pub fn put_static(&mut self, thread: &mut JavaThread) -> (r: Result<Option<usize>, VmError>)
        requires
            old(self).wf(),
            old(thread).wf(),
        ensures
            final(self).wf(),
            ({
                let a = *old(self);
                let ta = *old(thread);
                let cs = ta.classes.classes@;
                let f = field_operand(a, ta);
                let dc = field_class(a, ta);
                let k = field_cat(f.value_type)->Some_0;
                &&& (r is Ok <==> field_ok(a, ta, true) && stack_holds(a.stack@, k))
                &&& (r is Err ==> *final(self) == a && *final(thread) == ta)
                &&& (r matches Ok(w) ==> if init_ready(cs, dc as int) {
                    &&& w is None
                    &&& *final(self) == (Frame { stack: final(self).stack, pc: (a.pc + 2) as usize, ..a })
                    &&& final(self).stack@ == popped(a.stack@, width(k))
                    &&& *final(thread) == (JavaThread { classes: final(thread).classes, ..ta })
                    &&& final(thread).wf()
                    &&& final(thread).classes.classes@.len() == cs.len()
                    &&& forall|i: int| 0 <= i < cs.len() && i != dc ==> final(thread).classes.classes@[i] == cs[i]
                    &&& final(thread).classes.classes@[dc as int].static_values@ == cs[dc as int].static_values@.update(
                        f.slot as int, narrow_to(f.value_type, depth(a.stack@, width(k) - 1)))
                    &&& final(thread).classes.classes@[dc as int].state == cs[dc as int].state
                } else {
                    w == Some(dc) && *final(self) == a && *final(thread) == ta
                })
            }),
    {
        if !self.has_code(2) {
            return Err(VmError::BadCode);
        }
        let (dc, fi) = match thread.resolve_field(self.class, self.operand_u2()) {
            Some(x) => x,
            None => {
                return Err(VmError::Unresolved);
            },
        };
        let vt = thread.classes.classes[dc].fields[fi].value_type;
        let slot = thread.classes.classes[dc].fields[fi].slot;
        let acc = thread.classes.classes[dc].fields[fi].acc_flags;
        let k = match cat_of(vt) {
            Some(k) => k,
            None => {
                return Err(VmError::Unresolved);
            },
        };
        let w = cat_width(k);
        if acc & ACC_STATIC == 0 || slot >= thread.classes.classes[dc].static_values.len() || !self.holds(k) {
            return Err(VmError::Unresolved);
        }
        if !thread.classes.is_init_ready(dc) {
            return Ok(Some(dc));
        }
        let v = self.stack[self.stack.len() - w];
        self.pc = self.pc + 2;
        self.drop_slots(w);
        thread.classes.set_static(dc, slot, narrow(vt, v));
        proof {
            assert forall|i: int| 0 <= i < thread.heap.objs@.len() implies
                (#[trigger] obj_class(thread.heap.objs@[i]) matches Some(c) ==> c < thread.classes.classes@.len()) by {
                assert(obj_class(old(thread).heap.objs@[i]) matches Some(c) ==> c < old(thread).classes.classes@.len());
            }
        }
        Ok(None)
    }

    /// Pops an object and pushes one of its fields; null raises
    /// `NullPointerException`.
    pub fn get_field(&mut self, thread: &mut JavaThread) -> (r: Result<(), VmError>)
        requires
            old(self).wf(),
            old(thread).wf(),
        ensures
            final(thread).wf(),
            final(self).wf(),
            ({
                let a = *old(self);
                let ta = *old(thread);
                let s = a.stack@;
                let f = field_operand(a, ta);
                let k = field_cat(f.value_type)->Some_0;
                let objs = ta.heap.objs@;
                &&& (r is Ok <==> field_ok(a, ta, false) && ref_on(s, 0) && room(a, width(k) - 1)
                    && (depth(s, 0) matches Slot::Ref(p) ==> has_field_slot(objs, p as int, f.slot as int)))
                &&& (r is Err ==> *final(self) == a && *final(thread) == ta)
                &&& (r is Ok ==> *final(self) == (Frame { stack: final(self).stack, pc: (a.pc + 2) as usize, ..a }))
                &&& (r is Ok ==> match depth(s, 0) {
                    Slot::Ref(p) => final(self).stack@ == pushed(popped(s, 1), field_value(objs[p as int], f.slot as int), k)
                        && *final(thread) == ta,
                    _ => final(self).stack@ == popped(s, 1) && raised(ta, *final(thread), NULL_POINTER, None),
                })
            }),
    {
        if !(self.has_code(2) && self.has_ref(0)) {
            return Err(VmError::BadCode);
        }
        let (dc, fi) = match thread.resolve_field(self.class, self.operand_u2()) {
            Some(x) => x,
            None => {
                return Err(VmError::Unresolved);
            },
        };
        let vt = thread.classes.classes[dc].fields[fi].value_type;
        let slot = thread.classes.classes[dc].fields[fi].slot;
        let acc = thread.classes.classes[dc].fields[fi].acc_flags;
        let k = match cat_of(vt) {
            Some(k) => k,
            None => {
                return Err(VmError::Unresolved);
            },
        };
        let w = cat_width(k);
        if acc & ACC_STATIC != 0 || !self.has_room(w - 1) {
            return Err(VmError::Unresolved);
        }
        match self.stack[self.stack.len() - 1] {
            Slot::Ref(p) => {
                if p >= thread.heap.objs.len() {
                    return Err(VmError::BadObject);
                }
                let v = match &thread.heap.objs[p].kind {
                    ObjKind::Inst { fields, .. } => {
                        if slot >= fields.len() {
                            return Err(VmError::BadObject);
                        }
                        fields[slot]
                    },
                    _ => {
                        return Err(VmError::BadObject);
                    },
                };
                self.pc = self.pc + 2;
                self.drop_slots(1);
                self.push_slot(v);
                if w == 2 {
                    self.push_slot(Slot::Top);
                }
            },
            _ => {
                self.pc = self.pc + 2;
                self.drop_slots(1);
                thread.raise(NULL_POINTER, None);
            },
        }
        Ok(())
    }

    /// Pops a value and an object and sets the object's field to the value,
    /// narrowed to the field's type; null raises `NullPointerException`.
    pub fn put_field(&mut self, thread: &mut JavaThread) -> (r: Result<(), VmError>)
        requires
            old(self).wf(),
            old(thread).wf(),
        ensures
            final(thread).wf(),
            final(self).wf(),
            ({
                let a = *old(self);
                let ta = *old(thread);
                let s = a.stack@;
                let f = field_operand(a, ta);
                let k = field_cat(f.value_type)->Some_0;
                let w = width(k);
                let objs = ta.heap.objs@;
                &&& (r is Ok <==> field_ok(a, ta, false) && stack_holds(s, k) && ref_on(s, w)
                    && (depth(s, w) matches Slot::Ref(p) ==> has_field_slot(objs, p as int, f.slot as int)))
                &&& (r is Err ==> *final(self) == a && *final(thread) == ta)
                &&& (r is Ok ==> *final(self) == (Frame { stack: final(self).stack, pc: (a.pc + 2) as usize, ..a }))
                &&& (r is Ok ==> final(self).stack@ == popped(s, w + 1))
                &&& (r is Ok ==> match depth(s, w) {
                    Slot::Ref(p) => *final(thread) == (JavaThread { heap: final(thread).heap, ..ta })
                        && final(thread).heap.objs@.len() == objs.len()
                        && (forall|i: int| 0 <= i < objs.len() && i != p ==> final(thread).heap.objs@[i] == objs[i])
                        && inst_field_set(objs[p as int], final(thread).heap.objs@[p as int], f.slot as int,
                            narrow_to(f.value_type, depth(s, w - 1))),
                    _ => raised(ta, *final(thread), NULL_POINTER, None),
                })
            }),
    {
        if !self.has_code(2) {
            return Err(VmError::BadCode);
        }
        let (dc, fi) = match thread.resolve_field(self.class, self.operand_u2()) {
            Some(x) => x,
            None => {
                return Err(VmError::Unresolved);
            },
        };
        let vt = thread.classes.classes[dc].fields[fi].value_type;
        let slot = thread.classes.classes[dc].fields[fi].slot;
        let acc = thread.classes.classes[dc].fields[fi].acc_flags;
        let k = match cat_of(vt) {
            Some(k) => k,
            None => {
                return Err(VmError::Unresolved);
            },
        };
        let w = cat_width(k);
        if acc & ACC_STATIC != 0 || !self.holds(k) || !self.has_ref(w) {
            return Err(VmError::Unresolved);
        }
        let v = self.stack[self.stack.len() - w];
        match self.stack[self.stack.len() - 1 - w] {
            Slot::Ref(p) => {
                if p >= thread.heap.objs.len() {
                    return Err(VmError::BadObject);
                }
                let ok = match &thread.heap.objs[p].kind {
                    ObjKind::Inst { fields, .. } => slot < fields.len(),
                    _ => false,
                };
                if !ok {
                    return Err(VmError::BadObject);
                }
                self.pc = self.pc + 2;
                self.drop_slots(w + 1);
                let nv = narrow(vt, v);
                let o = &mut thread.heap.objs[p];
                match &mut o.kind {
                    ObjKind::Inst { fields, .. } => {
                        fields.set(slot, nv);
                    },
                    _ => {},
                }
                proof {
                    crate::thread::lemma_heap_typed_same_classes(thread.classes.classes@, old(thread).heap.objs@, thread.heap.objs@);
                }
            },
            _ => {
                self.pc = self.pc + 2;
                self.drop_slots(w + 1);
                thread.raise(NULL_POINTER, None);
            },
        }
        Ok(())
    }

    /// Allocates an instance of the operand class with every field zero or
    /// null. Returns `Some(c)`, changing nothing, when class `c` must be
    /// initialized first.
    pub fn new_(&mut self, thread: &mut JavaThread) -> (r: Result<Option<usize>, VmError>)
        requires
            old(self).wf(),
            old(thread).wf(),
        ensures
            final(self).wf(),
            ({
                let a = *old(self);
                let ta = *old(thread);
                let cs = ta.classes.classes@;
                let c = class_operand(a, ta);
                let objs = ta.heap.objs@;
                &&& (r is Ok <==> a.pc + 2 <= a.code@.len()
                    && resolved_class(cs, a.class as int, u2_at(a.code@, a.pc as int)) is Some
                    && cs[c as int].kind is Instance && room(a, 1))
                &&& (r is Err ==> *final(self) == a && *final(thread) == ta)
                &&& (r matches Ok(w) ==> if init_ready(cs, c as int) {
                    &&& w is None
                    &&& *final(self) == (Frame { stack: final(self).stack, pc: (a.pc + 2) as usize, ..a })
                    &&& final(self).stack@ == a.stack@.push(Slot::Ref(objs.len() as usize))
                    &&& *final(thread) == (JavaThread { heap: final(thread).heap, ..ta })
                    &&& final(thread).wf()
                    &&& final(thread).heap.objs@.len() == objs.len() + 1
                    &&& final(thread).heap.objs@.drop_last() == objs
                    &&& final(thread).heap.objs@.last().count == 0
                    &&& final(thread).heap.objs@.last().kind matches ObjKind::Inst { class, fields }
                        && class == c && fields@ == cs[c as int].layout@.map_values(|t: ValueType| zero_of(t))
                } else {
                    w == Some(c) && *final(self) == a && *final(thread) == ta
                })
            }),
    {
        if !self.has_code(2) {
            return Err(VmError::BadCode);
        }
        let c = match thread.classes.resolve(self.class, self.operand_u2()) {
            Some(c) => c,
            None => {
                return Err(VmError::Unresolved);
            },
        };
        if !matches!(thread.classes.classes[c].kind, ClassKind::Instance) || !self.has_room(1) {
            return Err(VmError::Unresolved);
        }
        if !thread.classes.is_init_ready(c) {
            return Ok(Some(c));
        }
        let layout = &thread.classes.classes[c].layout;
        let mut fields: Vec<Slot> = Vec::new();
        let mut i: usize = 0;
        while i < layout.len()
            invariant
                i <= layout@.len(),
                fields@ == layout@.subrange(0, i as int).map_values(|t: ValueType| zero_of(t)),
            decreases layout@.len() - i,
        {
            fields.push(layout[i].zero());
            i += 1;
            assert(fields@ =~= layout@.subrange(0, i as int).map_values(|t: ValueType| zero_of(t)));
        }
        assert(layout@.subrange(0, i as int) =~= layout@);
        let p = thread.heap.allocate(ObjKind::Inst { class: c, fields });
        self.pc = self.pc + 2;
        self.push_slot(Slot::Ref(p));
        proof {
            assert(thread.heap.objs@.drop_last() =~= old(thread).heap.objs@);
            assert forall|i: int| 0 <= i < thread.heap.objs@.len() implies
                (#[trigger] obj_class(thread.heap.objs@[i]) matches Some(k) ==> k < thread.classes.classes@.len()) by {
                if i < old(thread).heap.objs@.len() {
                    assert(thread.heap.objs@[i] == old(thread).heap.objs@[i]);
                }
            }
        }
        Ok(None)
    }
}

} // verus!
