//! The interpreter thread: the heap and classes it works on and its pending
//! exception.
use vstd::prelude::*;
use crate::class::{assignable, ClassKind, ClassTable, CLASS, OBJECT, STRING};
use crate::heap::{Heap, HeapObj, ObjKind};
use crate::mirror::MirrorRegistry;
use crate::native::NativeRegistry;

verus! {

/// A thread of the interpreter. The VM is single-threaded, so the thread
/// owns the heap, the class table and the mirror registry it runs against.
pub struct JavaThread {
    pub id: u64,
    pub heap: Heap,
    pub classes: ClassTable,
    pub mirrors: MirrorRegistry,
    pub natives: NativeRegistry,
    /// The exception being thrown, if any, as a heap reference.
    pub ex: Option<usize>,
    /// Interned strings, as heap references.
    pub interned: Vec<usize>,
}

/// `o` is an exception object of class `cls` with detail message `msg`.
pub open spec fn is_throwable(o: HeapObj, cls: usize, msg: Option<Seq<u8>>) -> bool {
    &&& o.count == 0
    &&& match o.kind {
        ObjKind::Throwable { class, message } => class == cls && match (message, msg) {
            (Some(m), Some(x)) => m@ == x,
            (None, None) => true,
            _ => false,
        },
        _ => false,
    }
}

/// `b` is `a` after raising a new exception of class `cls` with message `msg`.
pub open spec fn raised(a: JavaThread, b: JavaThread, cls: usize, msg: Option<Seq<u8>>) -> bool {
    &&& b.heap.objs@.len() == a.heap.objs@.len() + 1
    &&& b.heap.objs@.drop_last() == a.heap.objs@
    &&& is_throwable(b.heap.objs@.last(), cls, msg)
    &&& b.ex == Some(a.heap.objs@.len() as usize)
    &&& b.classes == a.classes
    &&& b.mirrors == a.mirrors
    &&& b.id == a.id
}

/// The class of an object, when it has one in the class table; primitive
/// arrays are typed by their element type instead.
pub open spec fn obj_class(o: HeapObj) -> Option<usize> {
    match o.kind {
        ObjKind::Inst { class, .. } => Some(class),
        ObjKind::Array { class, .. } => Some(class),
        ObjKind::Throwable { class, .. } => Some(class),
        ObjKind::Str { .. } => Some(STRING),
        ObjKind::Mirror { .. } => Some(CLASS),
        ObjKind::Member { class, .. } => Some(class),
        ObjKind::TypeArray { .. } => None,
    }
}

/// The object `o` is an instance of class `t`.
pub open spec fn instance_test(cs: Seq<crate::class::Class>, o: HeapObj, t: int) -> bool {
    match obj_class(o) {
        Some(c) => assignable(cs, c as int, t),
        None => t == OBJECT || (0 <= t < cs.len() && match (o.kind, cs[t].kind) {
            (ObjKind::TypeArray { elem, .. }, ClassKind::TypeArray { elem: e }) => elem == e,
            _ => false,
        }),
    }
}

/// All object classes are in the class table.
pub open spec fn heap_typed(cs: Seq<crate::class::Class>, objs: Seq<HeapObj>) -> bool {
    forall|i: int| 0 <= i < objs.len() ==> (#[trigger] obj_class(objs[i]) matches Some(c) ==> c < cs.len())
}

/// Replacing objects by objects of the same classes keeps the heap typed.
pub proof fn lemma_heap_typed_same_classes(cs: Seq<crate::class::Class>, a: Seq<HeapObj>, b: Seq<HeapObj>)
    requires
        heap_typed(cs, a),
        a.len() == b.len(),
        forall|i: int| 0 <= i < a.len() ==> obj_class(#[trigger] b[i]) == obj_class(a[i]),
    ensures
        heap_typed(cs, b),
{
    assert forall|i: int| 0 <= i < b.len() implies (#[trigger] obj_class(b[i]) matches Some(c) ==> c < cs.len()) by {
        assert(obj_class(a[i]) matches Some(c) ==> c < cs.len());
    }
}

impl JavaThread {
    /// The class table is well formed and every object's class is in it.
    pub open spec fn wf(&self) -> bool {
        &&& self.classes.wf()
        &&& heap_typed(self.classes.classes@, self.heap.objs@)
    }

    /// Whether object `r` is an instance of class `t`.
    pub fn is_instance(&self, r: usize, t: usize) -> (b: bool)
        requires
            self.classes.wf(),
            r < self.heap.objs@.len(),
            t < self.classes.classes@.len(),
            obj_class(self.heap.objs@[r as int]) matches Some(c) ==> c < self.classes.classes@.len(),
        ensures
            b == instance_test(self.classes.classes@, self.heap.objs@[r as int], t as int),
    {
        let c = match &self.heap.objs[r].kind {
            ObjKind::Inst { class, .. } => Some(*class),
            ObjKind::Array { class, .. } => Some(*class),
            ObjKind::Throwable { class, .. } => Some(*class),
            ObjKind::Str { .. } => Some(STRING),
            ObjKind::Mirror { .. } => Some(CLASS),
            ObjKind::Member { class, .. } => Some(*class),
            ObjKind::TypeArray { .. } => None,
        };
        match c {
            Some(c) => self.classes.instance_of(c, t),
            None => {
                if t == OBJECT {
                    return true;
                }
                match (&self.heap.objs[r].kind, &self.classes.classes[t].kind) {
                    (ObjKind::TypeArray { elem, .. }, ClassKind::TypeArray { elem: e }) => *elem == *e,
                    _ => false,
                }
            },
        }
    }

    /// A thread with the bootstrap class table, an empty heap, and mirrors
    /// not yet fixed.
    pub fn new(id: u64) -> (r: JavaThread)
        ensures
            r.wf(),
            r.id == id,
            crate::class::boot_table(r.classes.classes@),
            r.classes.classes@.len() == crate::class::BOOT_CLASSES,
            r.classes.wf(),
            r.heap.objs@.len() == 0,
            r.ex is None,
    {
        JavaThread {
            id,
            heap: Heap::new(),
            classes: ClassTable::bootstrap(),
            mirrors: MirrorRegistry::new(),
            natives: NativeRegistry::standard(),
            ex: None,
            interned: Vec::new(),
        }
    }

    /// Allocates a `java.lang.String` with the given text.
    pub fn new_string(&mut self, text: Vec<u8>) -> (r: usize)
        requires
            old(self).wf(),
        ensures
            final(self).wf(),
            r == old(self).heap.objs@.len(),
            final(self).heap.objs@.len() == r + 1,
            final(self).heap.objs@.drop_last() == old(self).heap.objs@,
            final(self).heap.objs@.last().kind matches ObjKind::Str { text: t } && t@ == text@,
            *final(self) == (JavaThread { heap: final(self).heap, ..*old(self) }),
    {
        let ghost t = text@;
        let r = self.heap.allocate(ObjKind::Str { text });
        proof {
            assert(self.heap.objs@.drop_last() =~= old(self).heap.objs@);
            assert forall|i: int| 0 <= i < self.heap.objs@.len() implies
                (#[trigger] obj_class(self.heap.objs@[i]) matches Some(c) ==> c < self.classes.classes@.len()) by {
                if i < old(self).heap.objs@.len() {
                    assert(self.heap.objs@[i] == old(self).heap.objs@[i]);
                }
            }
        }
        r
    }

    /// Whether an exception is pending.
    pub fn is_meet_ex(&self) -> (r: bool)
        ensures
            r == self.ex is Some,
    {
        self.ex.is_some()
    }

    /// Takes the pending exception.
    pub fn take_ex(&mut self) -> (r: Option<usize>)
        ensures
            r == old(self).ex,
            final(self).ex is None,
            final(self).heap == old(self).heap,
            final(self).classes == old(self).classes,
            final(self).mirrors == old(self).mirrors,
            final(self).id == old(self).id,
    {
        let r = self.ex;
        self.ex = None;
        r
    }

    /// Sets the pending exception.
    pub fn set_ex(&mut self, ex: usize)
        ensures
            *final(self) == (JavaThread { ex: Some(ex), ..*old(self) }),
    {
        self.ex = Some(ex);
    }

    /// Raises a new exception of class `cls` with detail message `msg`.
    pub fn raise(&mut self, cls: usize, msg: Option<Vec<u8>>)
        ensures
            raised(*old(self), *final(self), cls, match msg { Some(m) => Some(m@), None => None }),
            old(self).wf() && cls < old(self).classes.classes@.len() ==> final(self).wf(),
    {
        let r = self.heap.allocate(ObjKind::Throwable { class: cls, message: msg });
        self.ex = Some(r);
        proof {
            assert(self.heap.objs@.drop_last() =~= old(self).heap.objs@);
            if old(self).wf() && cls < old(self).classes.classes@.len() {
                assert forall|i: int| 0 <= i < self.heap.objs@.len() implies
                    (#[trigger] obj_class(self.heap.objs@[i]) matches Some(c) ==> c < self.classes.classes@.len()) by {
                    if i < old(self).heap.objs@.len() {
                        assert(self.heap.objs@[i] == old(self).heap.objs@[i]);
                    }
                }
            }
        }
    }
}

} // verus!
