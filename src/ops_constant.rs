//! `ldc`, `ldc_w` and `ldc2_w`: pushing constant-pool entries, with string
//! interning and class mirrors.
use vstd::prelude::*;
use crate::class::{cp_utf8, lookup_class, utf8_at, CpEntry};
use crate::frame::{copy_bytes, room, Frame};
use crate::heap::ObjKind;
use crate::init::init_ready;
use crate::ops_local::{u1_at, u2_at};
use crate::thread::JavaThread;
use crate::value::{Slot, VmError};

verus! {

/// The constant-pool index operand: one byte for `ldc`, two otherwise.
pub open spec fn constant_index(a: Frame, wide: bool) -> int {
    if wide { u2_at(a.code@, a.pc as int) } else { u1_at(a.code@, a.pc as int) }
}

/// The entry of the frame's class at the operand, if the operand is there.
pub open spec fn constant_entry(a: Frame, t: JavaThread, wide: bool) -> Option<CpEntry> {
    let n: int = if wide { 2 } else { 1 };
    let cs = t.classes.classes@;
    let i = constant_index(a, wide);
    if a.pc + n <= a.code@.len() && 0 <= a.class < cs.len() && 0 <= i < cs[a.class as int].cp@.len() {
        Some(cs[a.class as int].cp@[i])
    } else {
        None
    }
}

/// Slots that entry `e` takes on the stack, when `ldc` can push it.
pub open spec fn entry_width(e: CpEntry) -> int {
    match e {
        CpEntry::Long(_) | CpEntry::Double(_) => 2,
        _ => 1,
    }
}

/// The entry can be loaded: a number, a string or a class, whose text or
/// class is there.
pub open spec fn loadable(a: Frame, t: JavaThread, e: CpEntry) -> bool {
    let cs = t.classes.classes@;
    let cp = cs[a.class as int].cp@;
    match e {
        CpEntry::Integer(_) | CpEntry::Float(_) | CpEntry::Long(_) | CpEntry::Double(_) => true,
        CpEntry::Str { string_index } => cp_utf8(cp, string_index as int) is Some,
        CpEntry::Class { name_index } => cp_utf8(cp, name_index as int) is Some
            && (lookup_class(cs, cp_utf8(cp, name_index as int)->Some_0) matches Some(c)
            && cs[c as int].mirror is Some),
        _ => false,
    }
}

/// Entry `j` of the intern table of `t` is a string with text `text`.
pub open spec fn interned_at(t: JavaThread, j: int, text: Seq<u8>) -> bool {
    &&& 0 <= j < t.interned@.len()
    &&& t.interned@[j] < t.heap.objs@.len()
    &&& t.heap.objs@[t.interned@[j] as int].kind matches ObjKind::Str { text: x }
    &&& x@ == text
}

impl JavaThread {
    /// The interned string with text `text`, created and interned when there
    /// is none yet.
    pub fn intern(&mut self, text: &Vec<u8>) -> (r: usize)
        requires
            old(self).wf(),
        ensures
            final(self).wf(),
            r < final(self).heap.objs@.len(),
            final(self).heap.objs@[r as int].kind matches ObjKind::Str { text: t } && t@ == text@,
            final(self).classes == old(self).classes,
            final(self).mirrors == old(self).mirrors,
            final(self).ex == old(self).ex,
            final(self).heap.objs@.len() >= old(self).heap.objs@.len(),
            forall|i: int| 0 <= i < old(self).heap.objs@.len() ==> final(self).heap.objs@[i] == old(self).heap.objs@[i],
            (exists|j: int| interned_at(*old(self), j, text@)) ==> *final(self) == *old(self)
                && exists|j: int| interned_at(*old(self), j, text@) && r == old(self).interned@[j]
                    && forall|i: int| 0 <= i < j ==> !interned_at(*old(self), i, text@),
            !(exists|j: int| interned_at(*old(self), j, text@)) ==> r == old(self).heap.objs@.len()
                && final(self).interned@ == old(self).interned@.push(r),
    {
        let mut i: usize = 0;
        while i < self.interned.len()
            invariant
                *self == *old(self),
                self.wf(),
                i <= self.interned@.len(),
                forall|k: int| 0 <= k < i ==> !interned_at(*old(self), k, text@),
            decreases self.interned@.len() - i,
        {
            let p = self.interned[i];
            if p < self.heap.objs.len() {
                if let ObjKind::Str { text: t } = &self.heap.objs[p].kind {
                    if crate::class::bytes_eq(t, text) {
                        assert(interned_at(*old(self), i as int, text@));
                        return p;
                    }
                }
            }
            i += 1;
        }
        let p = self.new_string(copy_bytes(text));
        self.interned.push(p);
        p
    }
}

/// What `ldc`, `ldc_w` (`wide`) and `ldc2_w` do: push the constant at the
/// operand, an interned string for a string entry, the mirror for a class
/// entry once the class is initialized.
pub open spec fn constant_step(a0: Frame, b: Frame, t0: JavaThread, tb: JavaThread, r: Result<Option<usize>, VmError>, wide: bool) -> bool {
    &&& b.class == a0.class
    &&& b.init_class == a0.init_class
    &&& b.method == a0.method && b.frame_id == a0.frame_id
    &&& tb.wf()
    &&& b.wf()
    &&& {
                let a = a0;
                let t = t0;
                let cs = t.classes.classes@;
                let n: int = if wide { 2 } else { 1 };
                let e = constant_entry(a, t, wide)->Some_0;
                let s = a.stack@;
                &&& (r is Ok <==> constant_entry(a, t, wide) is Some && loadable(a, t, e) && room(a, entry_width(e)))
                &&& (r is Err ==> b == a && tb == t)
                &&& (r matches Ok(Some(c)) ==> b == a && tb == t && !init_ready(cs, c as int))
                &&& (r matches Ok(Some(_)) ==> e is Class)
                &&& (r is Ok && e is Class ==> (r == Ok::<Option<usize>, VmError>(None) <==> init_ready(cs,
                    lookup_class(cs, cp_utf8(cs[a.class as int].cp@, e->Class_name_index as int)->Some_0)->Some_0 as int)))
                &&& (r matches Ok(None) ==> {
                    &&& b == (Frame { stack: b.stack, pc: (a.pc + n) as usize, ..a })
                    &&& tb.classes == t.classes
                    &&& match e {
                        CpEntry::Integer(v) => b.stack@ == s.push(Slot::Int(v)) && tb == t,
                        CpEntry::Float(v) => b.stack@ == s.push(Slot::Float(v)) && tb == t,
                        CpEntry::Long(v) => b.stack@ == s.push(Slot::Long(v)).push(Slot::Top) && tb == t,
                        CpEntry::Double(v) => b.stack@ == s.push(Slot::Double(v)).push(Slot::Top) && tb == t,
                        CpEntry::Str { string_index } => b.stack@.len() == s.len() + 1
                            && b.stack@.drop_last() == s
                            && (b.stack@.last() matches Slot::Ref(p) && p < tb.heap.objs@.len()
                            && (tb.heap.objs@[p as int].kind matches ObjKind::Str { text }
                            && text@ == cp_utf8(cs[a.class as int].cp@, string_index as int)->Some_0)),
                        CpEntry::Class { name_index } => {
                            let c = lookup_class(cs, cp_utf8(cs[a.class as int].cp@, name_index as int)->Some_0)->Some_0;
                            b.stack@ == s.push(Slot::Ref(cs[c as int].mirror->Some_0)) && tb == t
                        },
                        _ => false,
                    }
                })
            }
}

impl Frame {
    fn load_constant(&mut self, thread: &mut JavaThread, wide: bool) -> (r: Result<Option<usize>, VmError>)
        requires
            old(self).wf(),
            old(thread).wf(),
        ensures
            constant_step(*old(self), *final(self), *old(thread), *final(thread), r, wide),
    {
        let n: usize = if wide { 2 } else { 1 };
        if !self.has_code(n) || self.class >= thread.classes.classes.len() {
            return Err(VmError::BadCode);
        }
        let i: usize = if wide {
            (self.code[self.pc] as usize) * 256 + (self.code[self.pc + 1] as usize)
        } else {
            self.code[self.pc] as usize
        };
        if i >= thread.classes.classes[self.class].cp.len() {
            return Err(VmError::BadConstant);
        }
        let v = match &thread.classes.classes[self.class].cp[i] {
            CpEntry::Integer(v) => Slot::Int(*v),
            CpEntry::Float(v) => Slot::Float(*v),
            CpEntry::Long(v) => Slot::Long(*v),
            CpEntry::Double(v) => Slot::Double(*v),
            CpEntry::Str { string_index } => {
                if !self.has_room(1) {
                    return Err(VmError::StackOverflow);
                }
                let text = match utf8_at(&thread.classes.classes[self.class].cp, *string_index as usize) {
                    Some(t) => copy_bytes(t),
                    None => {
                        return Err(VmError::BadConstant);
                    },
                };
                let p = thread.intern(&text);
                self.pc = self.pc + n;
                self.push_slot(Slot::Ref(p));
                assert(self.stack@.drop_last() =~= old(self).stack@);
                return Ok(None);
            },
            CpEntry::Class { name_index } => {
                let name = match utf8_at(&thread.classes.classes[self.class].cp, *name_index as usize) {
                    Some(t) => t,
                    None => {
                        return Err(VmError::BadConstant);
                    },
                };
                let c = match thread.classes.find(name) {
                    Some(c) => c,
                    None => {
                        return Err(VmError::Unresolved);
                    },
                };
                let m = match thread.classes.classes[c].mirror {
                    Some(m) => m,
                    None => {
                        return Err(VmError::BadObject);
                    },
                };
                if !self.has_room(1) {
                    return Err(VmError::StackOverflow);
                }
                if !thread.classes.is_init_ready(c) {
                    return Ok(Some(c));
                }
                Slot::Ref(m)
            },
            _ => {
                return Err(VmError::BadConstant);
            },
        };
        let w: usize = if matches!(v, Slot::Long(_) | Slot::Double(_)) { 2 } else { 1 };
        if !self.has_room(w) {
            return Err(VmError::StackOverflow);
        }
        self.pc = self.pc + n;
        self.push_slot(v);
        if w == 2 {
            self.push_slot(Slot::Top);
        }
        Ok(None)
    }

    /// Pushes constant-pool entry at the one-byte operand. Returns `Some(c)`,
    /// changing nothing, when class `c` must be initialized first.
    pub fn ldc(&mut self, thread: &mut JavaThread) -> (r: Result<Option<usize>, VmError>)
        requires
            old(self).wf(),
            old(thread).wf(),
        ensures
            constant_step(*old(self), *final(self), *old(thread), *final(thread), r, false),
    {
        self.load_constant(thread, false)
    }

    /// Pushes the constant-pool entry at the two-byte operand.
    pub fn ldc_w(&mut self, thread: &mut JavaThread) -> (r: Result<Option<usize>, VmError>)
        requires
            old(self).wf(),
            old(thread).wf(),
        ensures
            constant_step(*old(self), *final(self), *old(thread), *final(thread), r, true),
    {
        self.load_constant(thread, true)
    }

    /// Pushes the `long` or `double` constant at the two-byte operand.
    pub fn ldc2_w(&mut self, thread: &mut JavaThread) -> (r: Result<Option<usize>, VmError>)
        requires
            old(self).wf(),
            old(thread).wf(),
        ensures
            constant_step(*old(self), *final(self), *old(thread), *final(thread), r, true),
    {
        self.load_constant(thread, true)
    }
}

} // verus!
