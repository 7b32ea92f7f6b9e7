//! Method invocation: descriptor parsing, method selection for the four
//! `invoke*` instructions, parameter binding, and native calls.
use vstd::prelude::*;
use crate::class::{cp_member, lookup_class, member_at, Class, ClassTable, ACC_NATIVE, ACC_STATIC, NULL_POINTER, OBJECT};
use crate::frame::{popped, Frame};
use crate::heap::ObjKind;
use crate::init::{init_ready, method_from};
use crate::native::{call_native, NativeOutcome};
use crate::ops_local::u2_at;
use crate::thread::{obj_class, raised, JavaThread};
use crate::value::{Slot, VmError};

verus! {

/// The end of the class name that starts at `i`: the offset after its `;`.
pub open spec fn name_end(d: Seq<u8>, i: int) -> Option<int>
    decreases d.len() - i,
{
    if !(0 <= i < d.len()) {
        None
    } else if d[i] == 59 {
        Some(i + 1)
    } else {
        name_end(d, i + 1)
    }
}

/// The end of the field type that starts at `i`.
pub open spec fn type_end(d: Seq<u8>, i: int) -> Option<int>
    decreases d.len() - i,
{
    if !(0 <= i < d.len()) {
        None
    } else if d[i] == 91 {
        type_end(d, i + 1)
    } else if d[i] == 76 {
        name_end(d, i + 1)
    } else if d[i] == 66 || d[i] == 67 || d[i] == 68 || d[i] == 70 || d[i] == 73 || d[i] == 74 || d[i] == 83 || d[i] == 90 {
        Some(i + 1)
    } else {
        None
    }
}

/// Slots taken by the parameters from `i` to the `)`, and the offset after it.
pub open spec fn params_from(d: Seq<u8>, i: int) -> Option<(int, int)>
    decreases d.len() - i,
{
    if !(0 <= i < d.len()) {
        None
    } else if d[i] == 41 {
        Some((0, i + 1))
    } else {
        match type_end(d, i) {
            Some(e) => if i < e <= d.len() {
                match params_from(d, e) {
                    Some((n, q)) => Some((n + if d[i] == 74 || d[i] == 68 { 2int } else { 1int }, q)),
                    None => None,
                }
            } else {
                None
            },
            None => None,
        }
    }
}

/// Parameter slots and return-type letter of a method descriptor.
pub open spec fn method_shape(d: Seq<u8>) -> Option<(int, u8)> {
    if d.len() > 0 && d[0] == 40 {
        match params_from(d, 1) {
            Some((n, q)) => if q < d.len() { Some((n, d[q])) } else { None },
            None => None,
        }
    } else {
        None
    }
}

fn name_end_exec(d: &Vec<u8>, i: usize) -> (r: Option<usize>)
    ensures
        match r {
            Some(e) => name_end(d@, i as int) == Some(e as int),
            None => name_end(d@, i as int) is None,
        },
    decreases d@.len() - i,
{
    if i >= d.len() {
        None
    } else if d[i] == 59 {
        Some(i + 1)
    } else {
        name_end_exec(d, i + 1)
    }
}

fn type_end_exec(d: &Vec<u8>, i: usize) -> (r: Option<usize>)
    ensures
        match r {
            Some(e) => type_end(d@, i as int) == Some(e as int),
            None => type_end(d@, i as int) is None,
        },
    decreases d@.len() - i,
{
    if i >= d.len() {
        None
    } else if d[i] == 91 {
        type_end_exec(d, i + 1)
    } else if d[i] == 76 {
        name_end_exec(d, i + 1)
    } else {
        let b = d[i];
        if b == 66 || b == 67 || b == 68 || b == 70 || b == 73 || b == 74 || b == 83 || b == 90 {
            Some(i + 1)
        } else {
            None
        }
    }
}

fn params_exec(d: &Vec<u8>, i: usize) -> (r: Option<(usize, usize)>)
    ensures
        match r {
            Some((n, q)) => params_from(d@, i as int) == Some((n as int, q as int)),
            None => params_from(d@, i as int) is None || params_from(d@, i as int)->Some_0.0 > usize::MAX,
        },
    decreases d@.len() - i,
{
    if i >= d.len() {
        return None;
    }
    if d[i] == 41 {
        return Some((0, i + 1));
    }
    match type_end_exec(d, i) {
        Some(e) => {
            if e <= i || e > d.len() {
                return None;
            }
            match params_exec(d, e) {
                Some((n, q)) => {
                    let w: usize = if d[i] == 74 || d[i] == 68 { 2 } else { 1 };
                    if n > usize::MAX - w {
                        return None;
                    }
                    Some((n + w, q))
                },
                None => None,
            }
        },
        None => None,
    }
}

/// Parameter slots and return-type letter of a method descriptor.
pub fn parse_method_descriptor(d: &Vec<u8>) -> (r: Option<(usize, u8)>)
    ensures
        match r {
            Some((n, ret)) => method_shape(d@) == Some((n as int, ret)),
            None => method_shape(d@) is None || method_shape(d@)->Some_0.0 > usize::MAX,
        },
{
    if d.len() == 0 || d[0] != 40 {
        return None;
    }
    match params_exec(d, 1) {
        Some((n, q)) => if q < d.len() { Some((n, d[q])) } else { None },
        None => None,
    }
}

/// The method `name : desc` of class `c` or of its nearest super class that
/// declares it, as (declaring class, method index).
pub open spec fn method_in(cs: Seq<Class>, c: int, name: Seq<u8>, desc: Seq<u8>) -> Option<(usize, usize)>
    decreases c,
{
    if !(0 <= c < cs.len()) {
        None
    } else {
        match method_from(cs[c].methods@, name, desc, 0) {
            Some(m) => Some((c as usize, m)),
            None => match cs[c].super_class {
                Some(p) => if p < c { method_in(cs, p as int, name, desc) } else { None },
                None => None,
            },
        }
    }
}

/// The four kinds of invocation.
#[derive(Clone, Copy, Debug, PartialEq, Eq, Structural)]
pub enum InvokeKind {
    Static,
    Special,
    Virtual,
    Interface,
}

/// What an invocation instruction asks of the interpreter loop.
pub enum Invoke {
    /// Done in place: a native ran, or the receiver was null and
    /// `NullPointerException` was raised.
    Done,
    /// Class `c` must be initialized first; nothing was changed.
    NeedInit(usize),
    /// The callee's frame, with its parameters bound, is to run next.
    Enter(Frame),
}

/// The method reference operand of an invocation, resolved to
/// (class, name, descriptor) with the class loaded.
pub open spec fn method_operand(a: Frame, ta: JavaThread) -> Option<(usize, Seq<u8>, Seq<u8>)> {
    let cs = ta.classes.classes@;
    if 0 <= a.class < cs.len() && a.pc + 2 <= a.code@.len() {
        match cp_member(cs[a.class as int].cp@, u2_at(a.code@, a.pc as int)) {
            Some((cn, n, d)) => match lookup_class(cs, cn) {
                Some(c) => Some((c, n, d)),
                None => None,
            },
            None => None,
        }
    } else {
        None
    }
}

impl ClassTable {
    /// The method `name : desc` of class `c` or of its nearest super class.
    pub fn find_method_in(&self, c: usize, name: &Vec<u8>, desc: &Vec<u8>) -> (r: Option<(usize, usize)>)
        requires
            self.wf(),
        ensures
            r == method_in(self.classes@, c as int, name@, desc@),
            r matches Some((k, m)) ==> k < self.classes@.len() && m < self.classes@[k as int].methods@.len(),
        decreases c,
    {
        if c >= self.classes.len() {
            return None;
        }
        let found = crate::init::find_method(&self.classes[c].methods, name, desc);
        proof {
            lemma_method_from_bound(self.classes@[c as int].methods@, name@, desc@, 0);
        }
        match found {
            Some(m) => Some((c, m)),
            None => match self.classes[c].super_class {
                Some(p) => if p < c { self.find_method_in(p, name, desc) } else { None },
                None => None,
            },
        }
    }
}

proof fn lemma_method_in_matches(cs: Seq<Class>, c: int, name: Seq<u8>, desc: Seq<u8>)
    requires
        cs.len() <= usize::MAX,
    ensures
        method_in(cs, c, name, desc) matches Some((k, m)) ==> 0 <= k < cs.len() && m < cs[k as int].methods@.len()
            && cs[k as int].methods@[m as int].name@ == name && cs[k as int].methods@[m as int].descriptor@ == desc,
    decreases c,
{
    if 0 <= c < cs.len() {
        lemma_method_from_matches(cs[c].methods@, name, desc, 0);
        if let Some(p) = cs[c].super_class {
            if p < c {
                lemma_method_in_matches(cs, p as int, name, desc);
            }
        }
    }
}

proof fn lemma_method_from_matches(ms: Seq<crate::class::MethodInfo>, name: Seq<u8>, desc: Seq<u8>, i: int)
    ensures
        method_from(ms, name, desc, i) matches Some(m) ==> m < ms.len() && ms[m as int].name@ == name
            && ms[m as int].descriptor@ == desc,
    decreases ms.len() - i,
{
    if 0 <= i < ms.len() && !(ms[i].name@ == name && ms[i].descriptor@ == desc) {
        lemma_method_from_matches(ms, name, desc, i + 1);
    }
}

proof fn lemma_method_from_bound(ms: Seq<crate::class::MethodInfo>, name: Seq<u8>, desc: Seq<u8>, i: int)
    ensures
        method_from(ms, name, desc, i) matches Some(m) ==> m < ms.len(),
    decreases ms.len() - i,
{
    if 0 <= i < ms.len() && !(ms[i].name@ == name && ms[i].descriptor@ == desc) {
        lemma_method_from_bound(ms, name, desc, i + 1);
    }
}

/// What an invocation instruction does: on success the frame keeps its
/// class and limits; a call that waits for a class initialization changes
/// nothing; a bytecode callee gets a frame whose locals begin with the
/// parameters popped from the caller.
pub open spec fn invoke_step(a: Frame, b: Frame, ta: JavaThread, tb: JavaThread, r: Result<Invoke, VmError>, kind: InvokeKind) -> bool {
    &&& b.class == a.class
    &&& b.init_class == a.init_class
    &&& b.method == a.method && b.frame_id == a.frame_id
    &&& b.wf()
    &&& tb.wf()
    &&& (r is Err ==> b == a && tb == ta)
    &&& (r matches Ok(Invoke::NeedInit(c)) ==> b == a && tb == ta && c < ta.classes.classes@.len()
        && !init_ready(ta.classes.classes@, c as int))
    &&& (r is Ok ==> call_operands_ok(a, ta, kind))
    &&& (call_operands_ok(a, ta, kind) && !(kind is Static) && receiver(a, ta, kind) is Null ==> {
        let n_op: int = if kind is Interface { 4 } else { 2 };
        &&& r matches Ok(Invoke::Done)
        &&& b == (Frame { stack: b.stack, pc: (a.pc + n_op) as usize, ..a })
        &&& b.stack@ == popped(a.stack@, call_slots(a, ta, kind))
        &&& raised(ta, tb, NULL_POINTER, None)
    })
    &&& (r matches Ok(Invoke::Enter(f)) ==> selected_method(a, ta, kind) == Some((f.class, f.method)))
    &&& (call_operands_ok(a, ta, kind) && (kind is Static || receiver(a, ta, kind) is Ref)
        && selected_method(a, ta, kind) is Some
        && runnable(ta, selected_method(a, ta, kind)->Some_0, kind, call_slots(a, ta, kind))
        ==> r matches Ok(Invoke::Enter(_)))
    &&& (call_operands_ok(a, ta, kind) && kind is Static && selected_method(a, ta, kind) is Some
        && ta.classes.classes@[selected_method(a, ta, kind)->Some_0.0 as int].methods@[selected_method(a, ta, kind)->Some_0.1 as int].acc_flags & ACC_STATIC != 0
        && !init_ready(ta.classes.classes@, selected_method(a, ta, kind)->Some_0.0 as int)
        ==> r == Ok::<Invoke, VmError>(Invoke::NeedInit(selected_method(a, ta, kind)->Some_0.0)))
    &&& (r is Ok ==> tb.classes == ta.classes)
    &&& (r matches Ok(Invoke::Enter(f)) ==> {
        let (c, n, d) = method_operand(a, ta)->Some_0;
        let cs = ta.classes.classes@;
        let slots = method_shape(d)->Some_0.0 + if kind is Static { 0int } else { 1int };
        &&& tb == ta
        &&& f.class < cs.len() && f.method < cs[f.class as int].methods@.len()
        &&& cs[f.class as int].methods@[f.method as int].name@ == n
        &&& cs[f.class as int].methods@[f.method as int].descriptor@ == d
        &&& (kind is Static || kind is Special ==> method_in(cs, c as int, n, d) == Some((f.class, f.method)))
        &&& f.stack@.len() == 0 && f.pc == 0 && f.wf()
        &&& f.local@.subrange(0, slots) == a.stack@.subrange(a.stack@.len() - slots, a.stack@.len() as int)
        &&& b.stack@ == popped(a.stack@, slots)
        &&& b.pc == a.pc + if kind is Interface { 4int } else { 2int }
    })
}

/// Slots that an invocation pops: the parameters and, but for
/// `invokestatic`, the receiver.
pub open spec fn call_slots(a: Frame, ta: JavaThread, kind: InvokeKind) -> int {
    let d = method_operand(a, ta)->Some_0.2;
    method_shape(d)->Some_0.0 + if kind is Static { 0int } else { 1int }
}

/// The receiver of a non-static invocation.
pub open spec fn receiver(a: Frame, ta: JavaThread, kind: InvokeKind) -> Slot {
    a.stack@[a.stack@.len() - call_slots(a, ta, kind)]
}

/// The operands of the invocation are well formed: the method reference
/// resolves, its descriptor parses, the stack holds the parameters and a
/// receiver that is null or an existing object.
pub open spec fn call_operands_ok(a: Frame, ta: JavaThread, kind: InvokeKind) -> bool {
    let n_op: int = if kind is Interface { 4 } else { 2 };
    &&& a.pc + n_op <= a.code@.len()
    &&& method_operand(a, ta) is Some
    &&& method_shape(method_operand(a, ta)->Some_0.2) is Some
    &&& call_slots(a, ta, kind) <= a.stack@.len()
    &&& call_slots(a, ta, kind) <= usize::MAX
    &&& (!(kind is Static) ==> (receiver(a, ta, kind) is Null
        || (receiver(a, ta, kind) matches Slot::Ref(p) && p < ta.heap.objs@.len())))
}

/// The method an invocation selects: by the resolved class for
/// `invokestatic` and `invokespecial`, by the receiver's class otherwise.
pub open spec fn selected_method(a: Frame, ta: JavaThread, kind: InvokeKind) -> Option<(usize, usize)> {
    let (c, n, d) = method_operand(a, ta)->Some_0;
    let target: int = if kind is Static || kind is Special {
        c as int
    } else {
        match obj_class(ta.heap.objs@[receiver(a, ta, kind)->Ref_0 as int]) {
            Some(k) => k as int,
            None => OBJECT as int,
        }
    };
    method_in(ta.classes.classes@, target, n, d)
}

/// Method `sel` is a bytecode method of the right kind, ready to run with
/// `slots` parameter slots.
pub open spec fn runnable(ta: JavaThread, sel: (usize, usize), kind: InvokeKind, slots: int) -> bool {
    let m = ta.classes.classes@[sel.0 as int].methods@[sel.1 as int];
    &&& (m.acc_flags & ACC_STATIC != 0) == (kind is Static)
    &&& m.acc_flags & ACC_NATIVE == 0
    &&& (kind is Static ==> init_ready(ta.classes.classes@, sel.0 as int))
    &&& (m.code matches Some(code) && code.code@.len() > 0 && slots <= code.max_locals)
}

impl Frame {
    /// Resolves, selects and prepares a call for `invokestatic`,
    /// `invokespecial`, `invokevirtual` or `invokeinterface`.
    ///
    /// The parameters are the top slots of the operand stack, the receiver
    /// (for all but `invokestatic`) below them. `invokestatic` waits for the
    /// declaring class's initialization; `invokevirtual` and
    /// `invokeinterface` select the method by the receiver's class. A null
    /// receiver raises `NullPointerException`. A native method runs in place
    /// and its result is pushed; a bytecode method gets a new frame whose
    /// locals start with the parameters.
    pub fn invoke_helper(&mut self, thread: &mut JavaThread, kind: InvokeKind, frame_id: usize) -> (r: Result<Invoke, VmError>)
        requires
            old(self).wf(),
            old(thread).wf(),
        ensures
            invoke_step(*old(self), *final(self), *old(thread), *final(thread), r, kind),
    {
        let n_op: usize = if matches!(kind, InvokeKind::Interface) { 4 } else { 2 };
        if !self.has_code(n_op) || self.class >= thread.classes.classes.len() {
            return Err(VmError::BadCode);
        }
        let idx = (self.code[self.pc] as usize) * 256 + (self.code[self.pc + 1] as usize);
        let (cn, name, desc) = match member_at(&thread.classes.classes[self.class].cp, idx) {
            Some(m) => m,
            None => {
                return Err(VmError::BadConstant);
            },
        };
        let c = match thread.classes.find(cn) {
            Some(c) => c,
            None => {
                return Err(VmError::Unresolved);
            },
        };
        let (nparams, ret) = match parse_method_descriptor(desc) {
            Some(s) => s,
            None => {
                return Err(VmError::BadConstant);
            },
        };
        let is_static = matches!(kind, InvokeKind::Static);
        if !is_static && nparams == usize::MAX {
            return Err(VmError::BadConstant);
        }
        let slots: usize = if is_static { nparams } else { nparams + 1 };
        if slots > self.stack.len() {
            return Err(VmError::BadOperand);
        }
        let base = self.stack.len() - slots;
        let mut target = c;
        if !is_static {
            match self.stack[base] {
                Slot::Null => {
                    self.pc = self.pc + n_op;
                    self.drop_slots(slots);
                    thread.raise(NULL_POINTER, None);
                    return Ok(Invoke::Done);
                },
                Slot::Ref(p) => {
                    if p >= thread.heap.objs.len() {
                        return Err(VmError::BadObject);
                    }
                    if matches!(kind, InvokeKind::Virtual | InvokeKind::Interface) {
                        target = match &thread.heap.objs[p].kind {
                            ObjKind::Inst { class, .. } => *class,
                            ObjKind::Array { class, .. } => *class,
                            ObjKind::Throwable { class, .. } => *class,
                            ObjKind::Str { .. } => crate::class::STRING,
                            ObjKind::Mirror { .. } => crate::class::CLASS,
                            ObjKind::Member { class, .. } => *class,
                            ObjKind::TypeArray { .. } => OBJECT,
                        };
                        proof {
                            assert(obj_class(thread.heap.objs@[p as int]) matches Some(k) ==> k < thread.classes.classes@.len());
                        }
                    }
                },
                _ => {
                    return Err(VmError::BadOperand);
                },
            }
        }
        proof {
            lemma_method_in_matches(thread.classes.classes@, target as int, name@, desc@);
        }
        let (dc, mi) = match thread.classes.find_method_in(target, name, desc) {
            Some(x) => x,
            None => {
                return Err(VmError::Unresolved);
            },
        };
        let acc = thread.classes.classes[dc].methods[mi].acc_flags;
        if (acc & ACC_STATIC != 0) != is_static {
            return Err(VmError::Unresolved);
        }
        if is_static && !thread.classes.is_init_ready(dc) {
            return Ok(Invoke::NeedInit(dc));
        }
        if acc & ACC_NATIVE != 0 {
            let f = match thread.natives.lookup(&thread.classes.classes[dc].name, name, desc) {
                Some(f) => f,
                None => {
                    return Err(VmError::Unresolved);
                },
            };
            let mut args: Vec<Slot> = Vec::new();
            let mut i: usize = base;
            while i < self.stack.len()
                invariant
                    base <= i <= self.stack@.len(),
                decreases self.stack@.len() - i,
            {
                if !matches!(self.stack[i], Slot::Top) {
                    args.push(self.stack[i]);
                }
                i += 1;
            }
            let wide = ret == 74 || ret == 68;
            let pushes: usize = if ret == 86 { 0 } else if wide { 2 } else { 1 };
            if self.max_stack - (self.stack.len() - slots) < pushes {
                return Err(VmError::StackOverflow);
            }
            let out = call_native(thread, f, &args);
            match out {
                Err(e) => {
                    return Err(e);
                },
                Ok(NativeOutcome::NeedInit(k)) => {
                    if k < thread.classes.classes.len() && !thread.classes.is_init_ready(k) {
                        return Ok(Invoke::NeedInit(k));
                    }
                    return Err(VmError::Unresolved);
                },
                Ok(NativeOutcome::Thrown(e)) => {
                    self.pc = self.pc + n_op;
                    self.drop_slots(slots);
                    thread.ex = Some(e);
                },
                Ok(NativeOutcome::Void) => {
                    self.pc = self.pc + n_op;
                    self.drop_slots(slots);
                },
                Ok(NativeOutcome::Value(v)) => {
                    self.pc = self.pc + n_op;
                    self.drop_slots(slots);
                    if pushes >= 1 {
                        self.push_slot(v);
                    }
                    if pushes == 2 {
                        self.push_slot(Slot::Top);
                    }
                },
            }
            return Ok(Invoke::Done);
        }
        let mut callee = match Frame::new(&thread.classes, dc, mi, frame_id) {
            Ok(f) => f,
            Err(e) => {
                return Err(e);
            },
        };
        if callee.code.len() == 0 || slots > callee.local.len() {
            return Err(VmError::BadLocal);
        }
        let mut i: usize = 0;
        while i < slots
            invariant
                i <= slots,
                slots <= callee.local@.len(),
                base + slots == self.stack@.len(),
                callee.stack@.len() == 0,
                callee.pc == 0,
                callee.wf(),
                callee.class == dc,
                callee.method == mi,
                callee.local@.subrange(0, i as int) == self.stack@.subrange(base as int, base + i),
                base + slots <= usize::MAX,
            decreases slots - i,
        {
            let v = self.stack[base + i];
            callee.local.set(i, v);
            i += 1;
            assert(callee.local@.subrange(0, i as int) =~= self.stack@.subrange(base as int, base + i));
        }
        self.pc = self.pc + n_op;
        self.drop_slots(slots);
        Ok(Invoke::Enter(callee))
    }

    pub fn invoke_static(&mut self, thread: &mut JavaThread, frame_id: usize) -> (r: Result<Invoke, VmError>)
        requires
            old(self).wf(),
            old(thread).wf(),
        ensures
            invoke_step(*old(self), *final(self), *old(thread), *final(thread), r, InvokeKind::Static),
    {
        self.invoke_helper(thread, InvokeKind::Static, frame_id)
    }

    pub fn invoke_special(&mut self, thread: &mut JavaThread, frame_id: usize) -> (r: Result<Invoke, VmError>)
        requires
            old(self).wf(),
            old(thread).wf(),
        ensures
            invoke_step(*old(self), *final(self), *old(thread), *final(thread), r, InvokeKind::Special),
    {
        self.invoke_helper(thread, InvokeKind::Special, frame_id)
    }

    pub fn invoke_virtual(&mut self, thread: &mut JavaThread, frame_id: usize) -> (r: Result<Invoke, VmError>)
        requires
            old(self).wf(),
            old(thread).wf(),
        ensures
            invoke_step(*old(self), *final(self), *old(thread), *final(thread), r, InvokeKind::Virtual),
    {
        self.invoke_helper(thread, InvokeKind::Virtual, frame_id)
    }

    pub fn invoke_interface(&mut self, thread: &mut JavaThread, frame_id: usize) -> (r: Result<Invoke, VmError>)
        requires
            old(self).wf(),
            old(thread).wf(),
        ensures
            invoke_step(*old(self), *final(self), *old(thread), *final(thread), r, InvokeKind::Interface),
    {
        self.invoke_helper(thread, InvokeKind::Interface, frame_id)
    }

    /// `invokedynamic` is not supported.
    pub fn invoke_dynamic(&mut self) -> (r: Result<(), VmError>)
        requires
            old(self).wf(),
        ensures
            final(self).wf(),
            r == Err::<(), VmError>(VmError::Unsupported(0xba)),
            *final(self) == *old(self),
    {
        Err(VmError::Unsupported(0xba))
    }

}

} // verus!
