//! Exception-handler search and local handling of a pending exception.
use vstd::prelude::*;
use crate::class::{assignable, ClassTable, ExEntry};
use crate::frame::Frame;
use crate::thread::{obj_class, JavaThread};
use crate::value::Slot;

verus! {

/// Entry `e` covers `pc` and catches exceptions of class `ex`.
pub open spec fn handler_matches(cs: Seq<crate::class::Class>, e: ExEntry, pc: int, ex: int) -> bool {
    &&& e.start_pc <= pc < e.end_pc
    &&& match e.catch_class {
        None => true,
        Some(c) => c < cs.len() && assignable(cs, ex, c as int),
    }
}

/// The handler of the first entry from `i` on that matches.
pub open spec fn first_handler(cs: Seq<crate::class::Class>, t: Seq<ExEntry>, pc: int, ex: int, i: int) -> Option<usize>
    decreases t.len() - i,
{
    if i < 0 || i >= t.len() {
        None
    } else if handler_matches(cs, t[i], pc, ex) {
        Some(t[i].handler_pc)
    } else {
        first_handler(cs, t, pc, ex, i + 1)
    }
}

/// The handler for an exception of class `ex` thrown at `pc`: the first
/// entry of the table whose range covers `pc` and whose catch type is a
/// super type of `ex`, or that catches everything.
pub fn find_exception_handler(classes: &ClassTable, table: &Vec<ExEntry>, pc: usize, ex: usize) -> (r: Option<usize>)
    requires
        classes.wf(),
        ex < classes.classes@.len(),
    ensures
        r == first_handler(classes.classes@, table@, pc as int, ex as int, 0),
{
    let mut i: usize = 0;
    while i < table.len()
        invariant
            classes.wf(),
            ex < classes.classes@.len(),
            i <= table@.len(),
            first_handler(classes.classes@, table@, pc as int, ex as int, 0)
                == first_handler(classes.classes@, table@, pc as int, ex as int, i as int),
        decreases table@.len() - i,
    {
        let e = table[i];
        let covers = e.start_pc <= pc && pc < e.end_pc;
        let catches = match e.catch_class {
            None => true,
            Some(c) => c < classes.classes.len() && classes.instance_of(ex, c),
        };
        if covers && catches {
            return Some(e.handler_pc);
        }
        i += 1;
    }
    None
}

/// The handler search is first-match: a handler it returns belongs to an
/// entry that matches, and no earlier entry matches.
pub proof fn lemma_first_handler_is_first(cs: Seq<crate::class::Class>, t: Seq<ExEntry>, pc: int, ex: int, i: int)
    requires
        0 <= i,
        first_handler(cs, t, pc, ex, i) is Some,
    ensures
        exists|k: int| i <= k < t.len() && handler_matches(cs, t[k], pc, ex)
            && first_handler(cs, t, pc, ex, i) == Some(t[k].handler_pc)
            && forall|j: int| i <= j < k ==> !handler_matches(cs, #[trigger] t[j], pc, ex),
    decreases t.len() - i,
{
    if !handler_matches(cs, t[i], pc, ex) {
        lemma_first_handler_is_first(cs, t, pc, ex, i + 1);
        let k = choose|k: int| i + 1 <= k < t.len() && handler_matches(cs, t[k], pc, ex)
            && first_handler(cs, t, pc, ex, i + 1) == Some(t[k].handler_pc)
            && forall|j: int| i + 1 <= j < k ==> !handler_matches(cs, #[trigger] t[j], pc, ex);
        assert(forall|j: int| i <= j < k ==> !handler_matches(cs, #[trigger] t[j], pc, ex));
    } else {
        assert(forall|j: int| i <= j < i ==> !handler_matches(cs, #[trigger] t[j], pc, ex));
    }
}

/// The exception table of the method that frame `f` runs.
pub open spec fn table_of(cs: Seq<crate::class::Class>, f: Frame) -> Seq<ExEntry> {
    match cs[f.class as int].methods@[f.method as int].code {
        Some(c) => c.exception_table@,
        None => Seq::empty(),
    }
}

/// Frame `f` has a handler for the pending exception of `t` at the
/// instruction it is executing.
pub open spec fn handles(t: JavaThread, f: Frame) -> bool {
    let cs = t.classes.classes@;
    match t.ex {
        Some(e) => e < t.heap.objs@.len() && f.class < cs.len() && f.method < cs[f.class as int].methods@.len()
            && obj_class(t.heap.objs@[e as int]) is Some
            && first_handler(cs, table_of(cs, f), f.inst_pc as int, obj_class(t.heap.objs@[e as int])->Some_0 as int, 0) is Some
            && f.max_stack >= 1,
        None => false,
    }
}

impl Frame {
    /// Handles the pending exception in this frame when a handler covers
    /// `at`, the offset of the instruction that threw: the operand stack is
    /// cleared, the exception pushed, and control moves to the handler.
    /// Returns whether it was handled; otherwise nothing changes.
    pub fn try_handle_exception(&mut self, thread: &mut JavaThread, at: usize) -> (handled: bool)
        requires
            old(thread).wf(),
        ensures
            ({
                let ta = *old(thread);
                let cs = ta.classes.classes@;
                let a = *old(self);
                let found = match ta.ex {
                    Some(e) => e < ta.heap.objs@.len() && a.class < cs.len()
                        && a.method < cs[a.class as int].methods@.len()
                        && obj_class(ta.heap.objs@[e as int]) is Some
                        && first_handler(cs, table_of(cs, a), at as int,
                            obj_class(ta.heap.objs@[e as int])->Some_0 as int, 0) is Some,
                    None => false,
                };
                &&& handled == (found && a.max_stack >= 1)
                &&& handled == handles(ta, Frame { inst_pc: at, ..a })
                &&& (!handled ==> *final(self) == a && *final(thread) == ta)
                &&& (handled ==> {
                    let h = first_handler(cs, table_of(cs, a), at as int,
                        obj_class(ta.heap.objs@[ta.ex->Some_0 as int])->Some_0 as int, 0)->Some_0;
                    &&& *final(self) == (Frame { stack: final(self).stack, pc: h, ..a })
                    &&& final(self).stack@ == seq![Slot::Ref(ta.ex->Some_0)]
                    &&& *final(thread) == (JavaThread { ex: None, ..ta })
                })
            }),
    {
        let e = match thread.ex {
            Some(e) => e,
            None => {
                return false;
            },
        };
        if e >= thread.heap.objs.len() || self.class >= thread.classes.classes.len()
            || self.method >= thread.classes.classes[self.class].methods.len() || self.max_stack < 1 {
            return false;
        }
        let c = match &thread.heap.objs[e].kind {
            crate::heap::ObjKind::Inst { class, .. } => *class,
            crate::heap::ObjKind::Array { class, .. } => *class,
            crate::heap::ObjKind::Throwable { class, .. } => *class,
            crate::heap::ObjKind::Str { .. } => crate::class::STRING,
            crate::heap::ObjKind::Mirror { .. } => crate::class::CLASS,
            crate::heap::ObjKind::Member { class, .. } => *class,
            crate::heap::ObjKind::TypeArray { .. } => {
                return false;
            },
        };
        proof {
            assert(obj_class(thread.heap.objs@[e as int]) == Some(c));
        }
        let h = match &thread.classes.classes[self.class].methods[self.method].code {
            Some(code) => find_exception_handler(&thread.classes, &code.exception_table, at, c),
            None => None,
        };
        match h {
            Some(h) => {
                self.stack.clear();
                self.stack.push(Slot::Ref(e));
                self.pc = h;
                thread.ex = None;
                proof {
                    assert(self.stack@ =~= seq![Slot::Ref(e)]);
                }
                true
            },
            None => false,
        }
    }
}

} // verus!
