//! Heap objects (oops) and the heap that owns them.
use vstd::prelude::*;
use crate::value::{Slot, ValueType};

verus! {

/// What a heap object is.
///
/// A primitive array keeps its element type and one slot per element, each
/// already narrowed to that type (`Int` for `boolean`, `byte`, `char`,
/// `short` and `int`).
#[derive(Clone, Debug)]
pub enum ObjKind {
    /// An instance of `class`, one slot per instance field of its layout.
    Inst { class: usize, fields: Vec<Slot> },
    /// A primitive array.
    TypeArray { elem: ValueType, elements: Vec<Slot> },
    /// An array of references whose array class is `class`.
    Array { class: usize, elements: Vec<Slot> },
    /// A `java.lang.Class` instance; `target` is `None` for a primitive type.
    Mirror { target: Option<usize>, value_type: ValueType },
    /// A `java.lang.String` with its text.
    Str { text: Vec<u8> },
    /// A `java.lang.reflect.Field` or `Constructor` of class `class`
    /// describing member `index` of class `declaring`.
    Member { class: usize, declaring: usize, index: usize },
    /// An exception object raised by the VM itself, with its detail message.
    Throwable { class: usize, message: Option<Vec<u8>> },
}

/// A heap object with its monitor: the owning thread and the recursion count.
/// A count of zero means that no thread owns the monitor.
#[derive(Clone, Debug)]
pub struct HeapObj {
    pub kind: ObjKind,
    pub owner: u64,
    pub count: u64,
}

/// All objects; `Slot::Ref(i)` designates `objs[i]`.
pub struct Heap {
    pub objs: Vec<HeapObj>,
}

/// The elements of an array object, if it is one.
pub open spec fn elements_of(o: HeapObj) -> Option<Seq<Slot>> {
    match o.kind {
        ObjKind::TypeArray { elements, .. } => Some(elements@),
        ObjKind::Array { elements, .. } => Some(elements@),
        _ => None,
    }
}

/// `b` is the heap `a` with element `i` of array `r` set to `v`, all else kept.
pub open spec fn element_stored(a: Seq<HeapObj>, b: Seq<HeapObj>, r: int, i: int, v: Slot) -> bool {
    &&& b.len() == a.len()
    &&& 0 <= r < a.len()
    &&& forall|j: int| 0 <= j < a.len() && j != r ==> b[j] == a[j]
    &&& b[r].owner == a[r].owner
    &&& b[r].count == a[r].count
    &&& match (a[r].kind, b[r].kind) {
        (ObjKind::TypeArray { elem: e1, elements: x1 }, ObjKind::TypeArray { elem: e2, elements: x2 }) =>
            e1 == e2 && x2@ == x1@.update(i, v),
        (ObjKind::Array { class: c1, elements: x1 }, ObjKind::Array { class: c2, elements: x2 }) =>
            c1 == c2 && x2@ == x1@.update(i, v),
        _ => false,
    }
}

impl Heap {
    pub fn new() -> (r: Heap)
        ensures
            r.objs@.len() == 0,
    {
        Heap { objs: Vec::new() }
    }

    /// Allocates `kind` with a free monitor and returns its reference.
    pub fn allocate(&mut self, kind: ObjKind) -> (r: usize)
        ensures
            r == old(self).objs@.len(),
            final(self).objs@ == old(self).objs@.push(HeapObj { kind, owner: 0, count: 0 }),
    {
        let r = self.objs.len();
        self.objs.push(HeapObj { kind, owner: 0, count: 0 });
        r
    }

    /// Number of elements of array `r`, or `None` when `r` is no array.
    pub fn array_length(&self, r: usize) -> (n: Option<usize>)
        ensures
            match n {
                Some(m) => r < self.objs@.len() && elements_of(self.objs@[r as int]) is Some
                    && m as int == elements_of(self.objs@[r as int])->Some_0.len(),
                None => !(r < self.objs@.len() && elements_of(self.objs@[r as int]) is Some),
            },
    {
        if r >= self.objs.len() {
            return None;
        }
        match &self.objs[r].kind {
            ObjKind::TypeArray { elements, .. } => Some(elements.len()),
            ObjKind::Array { elements, .. } => Some(elements.len()),
            _ => None,
        }
    }

    /// Element `i` of array `r`.
    pub fn element(&self, r: usize, i: usize) -> (v: Slot)
        requires
            r < self.objs@.len(),
            elements_of(self.objs@[r as int]) is Some,
            i < elements_of(self.objs@[r as int])->Some_0.len(),
        ensures
            v == elements_of(self.objs@[r as int])->Some_0[i as int],
    {
        match &self.objs[r].kind {
            ObjKind::TypeArray { elements, .. } => elements[i],
            ObjKind::Array { elements, .. } => elements[i],
            _ => Slot::Null,
        }
    }

    /// Sets element `i` of array `r` to `v`.
    pub fn set_element(&mut self, r: usize, i: usize, v: Slot)
        requires
            r < old(self).objs@.len(),
            elements_of(old(self).objs@[r as int]) is Some,
            i < elements_of(old(self).objs@[r as int])->Some_0.len(),
        ensures
            element_stored(old(self).objs@, final(self).objs@, r as int, i as int, v),
    {
        let obj = &mut self.objs[r];
        match &mut obj.kind {
            ObjKind::TypeArray { elements, .. } => {
                elements.set(i, v);
            },
            ObjKind::Array { elements, .. } => {
                elements.set(i, v);
            },
            _ => {},
        }
    }
}

} // verus!
