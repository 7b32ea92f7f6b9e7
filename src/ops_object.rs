//! `athrow`, monitors, `checkcast`, `instanceof` and `anewarray`.
use vstd::prelude::*;
use crate::class::{
    lookup_class, resolved_class, Class, ClassKind, ACC_FINAL, ACC_PUBLIC, CLASS_CAST,
    ILLEGAL_MONITOR_STATE, NEGATIVE_ARRAY_SIZE, NULL_POINTER, OBJECT,
};
use crate::frame::{depth, int_of, int_on, popped, ref_on, stack_is, Frame};
use crate::heap::{elements_of, HeapObj, ObjKind};
use crate::ops_array::{negative_length_message, negative_length_text};
use crate::ops_local::u2_at;
use crate::thread::{instance_test, obj_class, raised, JavaThread};
use crate::value::{descriptor_letter, Slot, VmError};

verus! {

/// `s` with every `/` turned into `.`, as class names are shown to users.
pub open spec fn dotted(s: Seq<u8>) -> Seq<u8> {
    Seq::new(s.len(), |i: int| if s[i] == 47 { 46u8 } else { s[i] })
}

/// The internal name of the class of object `o`.
pub open spec fn obj_class_name(cs: Seq<Class>, o: HeapObj) -> Seq<u8> {
    match obj_class(o) {
        Some(c) => cs[c as int].name@,
        None => match o.kind {
            ObjKind::TypeArray { elem, .. } => seq![91u8, descriptor_letter(elem)],
            _ => Seq::empty(),
        },
    }
}

/// `<from> cannot be cast to <to>`, with dotted names.
pub open spec fn cast_message(from: Seq<u8>, to: Seq<u8>) -> Seq<u8> {
    dotted(from) + seq![32u8, 99, 97, 110, 110, 111, 116, 32, 98, 101, 32, 99, 97, 115, 116, 32, 116, 111, 32]
        + dotted(to)
}

/// The name of the array class whose component is class `c`:
/// `[L<name>;` for an instance class, `[<name>` for an array class.
pub open spec fn array_name_of(c: Class) -> Seq<u8> {
    if c.kind is Instance {
        seq![91u8, 76u8] + c.name@ + seq![59u8]
    } else {
        seq![91u8] + c.name@
    }
}

/// Appends `s` with `/` turned into `.`.
pub fn push_dotted(out: &mut Vec<u8>, s: &Vec<u8>)
    ensures
        final(out)@ == old(out)@ + dotted(s@),
{
    let mut i: usize = 0;
    while i < s.len()
        invariant
            i <= s@.len(),
            out@ == old(out)@ + dotted(s@).subrange(0, i as int),
        decreases s@.len() - i,
    {
        let b = s[i];
        out.push(if b == 47 { 46u8 } else { b });
        i += 1;
        assert(out@ =~= old(out)@ + dotted(s@).subrange(0, i as int));
    }
    assert(dotted(s@).subrange(0, i as int) =~= dotted(s@));
}

/// The internal name of the class of object `r`.
pub fn class_name_of(thread: &JavaThread, r: usize) -> (n: Vec<u8>)
    requires
        thread.wf(),
        r < thread.heap.objs@.len(),
    ensures
        n@ == obj_class_name(thread.classes.classes@, thread.heap.objs@[r as int]),
{
    let c = match &thread.heap.objs[r].kind {
        ObjKind::Inst { class, .. } => Some(*class),
        ObjKind::Array { class, .. } => Some(*class),
        ObjKind::Throwable { class, .. } => Some(*class),
        ObjKind::Str { .. } => Some(crate::class::STRING),
        ObjKind::Mirror { .. } => Some(crate::class::CLASS),
        ObjKind::Member { class, .. } => Some(*class),
        ObjKind::TypeArray { elem, .. } => {
            let v = vec![91u8, elem.letter()];
            assert(v@ =~= seq![91u8, descriptor_letter(*elem)]);
            return v;
        },
    };
    proof {
        assert(obj_class(thread.heap.objs@[r as int]) == c);
    }
    let c = c.unwrap();
    let mut n: Vec<u8> = Vec::new();
    let name = &thread.classes.classes[c].name;
    let mut i: usize = 0;
    while i < name.len()
        invariant
            i <= name@.len(),
            n@ == name@.subrange(0, i as int),
        decreases name@.len() - i,
    {
        n.push(name[i]);
        i += 1;
        assert(n@ =~= name@.subrange(0, i as int));
    }
    assert(n@ =~= name@);
    n
}

/// The operands of `checkcast` and `instanceof`: the class operand resolves,
/// the top of the stack is a reference to an existing object or null.
pub open spec fn type_check_ok(a: Frame, ta: JavaThread) -> bool {
    let s = a.stack@;
    &&& a.pc + 2 <= a.code@.len()
    &&& resolved_class(ta.classes.classes@, a.class as int, u2_at(a.code@, a.pc as int)) is Some
    &&& ref_on(s, 0)
    &&& (depth(s, 0) matches Slot::Ref(p) ==> p < ta.heap.objs@.len())
}

/// The class operand of `checkcast`, `instanceof`, `anewarray` and `new`.
pub open spec fn class_operand(a: Frame, ta: JavaThread) -> usize {
    resolved_class(ta.classes.classes@, a.class as int, u2_at(a.code@, a.pc as int))->Some_0
}

/// The top reference is null or an instance of class `t`.
pub open spec fn passes(s: Seq<Slot>, ta: JavaThread, t: usize) -> bool {
    match depth(s, 0) {
        Slot::Ref(p) => instance_test(ta.classes.classes@, ta.heap.objs@[p as int], t as int),
        _ => true,
    }
}

impl JavaThread {
    /// The array class whose component is class `c`, defined (with its
    /// mirror, or queued for one) when it is not loaded yet.
    pub fn array_class_of(&mut self, c: usize) -> (r: Result<usize, VmError>)
        requires
            old(self).wf(),
            c < old(self).classes.classes@.len(),
        ensures
            final(self).wf(),
            r is Err ==> *final(self) == *old(self),
            ({
                let cs = old(self).classes.classes@;
                let name = array_name_of(cs[c as int]);
                &&& (r is Ok <==> (lookup_class(cs, name) matches Some(k) ==> cs[k as int].kind == (ClassKind::ObjectArray { component: c })))
                &&& (r matches Ok(k) ==> {
                    let cs2 = final(self).classes.classes@;
                    &&& k < cs2.len()
                    &&& cs2[k as int].kind == (ClassKind::ObjectArray { component: c })
                    &&& cs2[k as int].name@ == name
                    &&& cs2.len() >= cs.len()
                    &&& forall|i: int| 0 <= i < cs.len() ==> (#[trigger] cs2[i]).kind == cs[i].kind && cs2[i].name == cs[i].name
                        && cs2[i].state == cs[i].state
                    &&& final(self).heap.objs@.len() >= old(self).heap.objs@.len()
                    &&& forall|i: int| 0 <= i < old(self).heap.objs@.len() ==> final(self).heap.objs@[i] == old(self).heap.objs@[i]
                    &&& final(self).ex == old(self).ex
                })
            }),
            crate::init::states_advance(old(self).classes.classes@, final(self).classes.classes@),
    {
        let mut name: Vec<u8> = Vec::new();
        name.push(91u8);
        if matches!(self.classes.classes[c].kind, ClassKind::Instance) {
            name.push(76u8);
        }
        let mut i: usize = 0;
        let src = &self.classes.classes[c].name;
        while i < src.len()
            invariant
                i <= src@.len(),
                name@ == (if self.classes.classes@[c as int].kind is Instance { seq![91u8, 76u8] } else { seq![91u8] })
                    + src@.subrange(0, i as int),
            decreases src@.len() - i,
        {
            name.push(src[i]);
            i += 1;
            assert(name@ =~= (if self.classes.classes@[c as int].kind is Instance { seq![91u8, 76u8] } else { seq![91u8] })
                + src@.subrange(0, i as int));
        }
        if matches!(self.classes.classes[c].kind, ClassKind::Instance) {
            name.push(59u8);
        }
        assert(name@ =~= array_name_of(self.classes.classes@[c as int]));
        match self.classes.find(&name) {
            Some(k) => {
                if self.classes.classes[k].kind == (ClassKind::ObjectArray { component: c }) {
                    Ok(k)
                } else {
                    Err(VmError::Unresolved)
                }
            },
            None => {
                let cls = Class::plain(name, Some(OBJECT), ClassKind::ObjectArray { component: c }, ACC_PUBLIC | ACC_FINAL);
                let ghost before = *self;
                let k = self.classes.add(cls);
                proof {
                    assert forall|i: int| 0 <= i < self.heap.objs@.len() implies
                        (#[trigger] obj_class(self.heap.objs@[i]) matches Some(q) ==> q < self.classes.classes@.len()) by {
                        assert(obj_class(before.heap.objs@[i]) matches Some(q) ==> q < before.classes.classes@.len());
                    }
                }
                crate::mirror::create_mirror(self, k);
                Ok(k)
            },
        }
    }
}

/// The lengths of a `multianewarray` of `d` dimensions, outermost first.
pub open spec fn multi_counts(s: Seq<Slot>, d: int) -> Seq<i32> {
    Seq::new(d as nat, |q: int| int_of(s, d - 1 - q))
}

/// `alloc_multi` can build an array of class `c` with the lengths
/// `counts[i..]`: a primitive array only at the last level, and nested
/// levels only through array classes.
pub open spec fn multi_ok(cs: Seq<Class>, c: int, counts: Seq<i32>, i: int) -> bool
    decreases counts.len() - i,
{
    if !(0 <= c < cs.len()) || !(0 <= i < counts.len()) {
        false
    } else {
        match cs[c].kind {
            ClassKind::TypeArray { .. } => i + 1 == counts.len(),
            ClassKind::ObjectArray { component } => i + 1 < counts.len() && counts[i] > 0 ==> (component < c
                && multi_ok(cs, component as int, counts, i + 1)),
            ClassKind::Instance => false,
        }
    }
}

/// Object `p` is an array with `counts[i]` elements, each (below the last
/// level) an array built the same way from `counts[i + 1..]`; the last level
/// holds zeros or nulls.
pub open spec fn multi_built(objs: Seq<HeapObj>, p: int, counts: Seq<i32>, i: int) -> bool
    decreases counts.len() - i,
{
    &&& 0 <= p < objs.len()
    &&& 0 <= i < counts.len()
    &&& elements_of(objs[p]) matches Some(el)
    &&& el.len() == counts[i]
    &&& (i + 1 < counts.len() ==> forall|k: int| 0 <= k < el.len() ==> (#[trigger] el[k] matches Slot::Ref(q)
        && multi_built(objs, q as int, counts, i + 1)))
}

/// A built array stays built when objects are added to the heap.
proof fn lemma_multi_built_grows(a: Seq<HeapObj>, b: Seq<HeapObj>, p: int, counts: Seq<i32>, i: int)
    requires
        multi_built(a, p, counts, i),
        a.len() <= b.len(),
        forall|k: int| 0 <= k < a.len() ==> b[k] == a[k],
    ensures
        multi_built(b, p, counts, i),
    decreases counts.len() - i,
{
    let el = elements_of(a[p])->Some_0;
    assert(b[p] == a[p]);
    if i + 1 < counts.len() {
        assert forall|k: int| 0 <= k < el.len() implies (#[trigger] el[k] matches Slot::Ref(q)
            && multi_built(b, q as int, counts, i + 1)) by {
            let q = el[k]->Ref_0;
            lemma_multi_built_grows(a, b, q as int, counts, i + 1);
        }
    }
}

impl JavaThread {
    /// Allocates an array of class `class` whose dimensions, from the
    /// outermost, are `counts[i..]`; the innermost level allocated holds
    /// zeros or nulls.
    pub fn alloc_multi(&mut self, class: usize, counts: &Vec<i32>, i: usize) -> (r: Result<usize, VmError>)
        requires
            old(self).wf(),
            class < old(self).classes.classes@.len(),
            i < counts@.len(),
            forall|k: int| 0 <= k < counts@.len() ==> counts@[k] >= 0,
        ensures
            final(self).wf(),
            final(self).classes == old(self).classes,
            final(self).ex == old(self).ex,
            final(self).heap.objs@.len() >= old(self).heap.objs@.len(),
            forall|k: int| 0 <= k < old(self).heap.objs@.len() ==> final(self).heap.objs@[k] == old(self).heap.objs@[k],
            r is Ok <==> multi_ok(old(self).classes.classes@, class as int, counts@, i as int),
            r matches Ok(p) ==> multi_built(final(self).heap.objs@, p as int, counts@, i as int),
            r matches Ok(p) ==> obj_class(final(self).heap.objs@[p as int]) == Some(class)
                || old(self).classes.classes@[class as int].kind is TypeArray,
        decreases counts@.len() - i,
    {
        let _len = counts.len();
        let n = counts[i] as usize;
        match self.classes.classes[class].kind {
            ClassKind::TypeArray { elem } => {
                if i + 1 != counts.len() {
                    return Err(VmError::BadConstant);
                }
                let z = elem.zero();
                let mut elements: Vec<Slot> = Vec::new();
                let mut k: usize = 0;
                while k < n
                    invariant
                        k <= n,
                        elements@.len() == k,
                    decreases n - k,
                {
                    elements.push(z);
                    k += 1;
                }
                let ghost before = *self;
                let p = self.heap.allocate(ObjKind::TypeArray { elem, elements });
                proof {
                    assert forall|j: int| 0 <= j < self.heap.objs@.len() implies
                        (#[trigger] obj_class(self.heap.objs@[j]) matches Some(q) ==> q < self.classes.classes@.len()) by {
                        if j < before.heap.objs@.len() {
                            assert(self.heap.objs@[j] == before.heap.objs@[j]);
                        }
                    }
                }
                Ok(p)
            },
            ClassKind::ObjectArray { component } => {
                let deeper = i + 1 < counts.len();
                let mut elements: Vec<Slot> = Vec::new();
                let mut k: usize = 0;
                while k < n
                    invariant
                        self.wf(),
                        self.classes == old(self).classes,
                        self.ex == old(self).ex,
                        class < self.classes.classes@.len(),
                        self.classes.classes@[class as int].kind == (ClassKind::ObjectArray { component }),
                        component < class,
                        i < counts@.len(),
                        n == counts@[i as int],
                        deeper == (i + 1 < counts@.len()),
                        counts@.len() <= usize::MAX,
                        forall|q: int| 0 <= q < counts@.len() ==> counts@[q] >= 0,
                        k <= n,
                        elements@.len() == k,
                        k > 0 && deeper ==> multi_ok(self.classes.classes@, component as int, counts@, i + 1),
                        forall|j: int| 0 <= j < k ==> (if deeper {
                            #[trigger] elements@[j] matches Slot::Ref(q) && multi_built(self.heap.objs@, q as int, counts@, i + 1)
                        } else {
                            elements@[j] == Slot::Null
                        }),
                        self.heap.objs@.len() >= old(self).heap.objs@.len(),
                        forall|q: int| 0 <= q < old(self).heap.objs@.len() ==> self.heap.objs@[q] == old(self).heap.objs@[q],
                    decreases n - k,
                {
                    if deeper {
                        let ghost before = *self;
                        let e = match self.alloc_multi(component, counts, i + 1) {
                            Ok(e) => e,
                            Err(x) => {
                                return Err(x);
                            },
                        };
                        proof {
                            assert forall|q: int| 0 <= q < old(self).heap.objs@.len() implies
                                self.heap.objs@[q] == old(self).heap.objs@[q] by {
                                assert(self.heap.objs@[q] == before.heap.objs@[q]);
                            }
                            assert forall|j: int| 0 <= j < k implies (#[trigger] elements@[j] matches Slot::Ref(q)
                                && multi_built(self.heap.objs@, q as int, counts@, i + 1)) by {
                                lemma_multi_built_grows(before.heap.objs@, self.heap.objs@, elements@[j]->Ref_0 as int, counts@, i + 1);
                            }
                        }
                        elements.push(Slot::Ref(e));
                    } else {
                        elements.push(Slot::Null);
                    }
                    k += 1;
                }
                let ghost before = *self;
                let p = self.heap.allocate(ObjKind::Array { class, elements });
                proof {
                    assert forall|j: int| 0 <= j < self.heap.objs@.len() implies
                        (#[trigger] obj_class(self.heap.objs@[j]) matches Some(q) ==> q < self.classes.classes@.len()) by {
                        if j < before.heap.objs@.len() {
                            assert(self.heap.objs@[j] == before.heap.objs@[j]);
                        }
                    }
                    let el = elements_of(self.heap.objs@[p as int])->Some_0;
                    if deeper {
                        assert forall|j: int| 0 <= j < el.len() implies (#[trigger] el[j] matches Slot::Ref(q)
                            && multi_built(self.heap.objs@, q as int, counts@, i + 1)) by {
                            lemma_multi_built_grows(before.heap.objs@, self.heap.objs@, el[j]->Ref_0 as int, counts@, i + 1);
                        }
                    }
                }
                Ok(p)
            },
            ClassKind::Instance => Err(VmError::BadConstant),
        }
    }
}

impl Frame {
    /// Allocates a multi-dimensional array of the operand class with the
    /// given number of dimensions, whose lengths are popped (outermost
    /// deepest); any negative length raises `NegativeArraySizeException`.
    pub fn multi_anew_array(&mut self, thread: &mut JavaThread) -> (r: Result<(), VmError>)
        requires
            old(self).wf(),
            old(thread).wf(),
        ensures
            final(self).wf(),
            final(thread).wf(),
            final(thread).classes == old(thread).classes,
            r is Err ==> *final(self) == *old(self),
            ({
                let a = *old(self);
                let d = a.code@[a.pc + 2] as int;
                let cs = old(thread).classes.classes@;
                let counts = multi_counts(a.stack@, d);
                let negative = exists|k: int| 0 <= k < d && int_of(a.stack@, k) < 0;
                &&& (r is Ok <==> a.pc + 3 <= a.code@.len() && 1 <= d <= a.stack@.len()
                    && (forall|k: int| 0 <= k < d ==> #[trigger] int_on(a.stack@, k))
                    && resolved_class(cs, a.class as int, u2_at(a.code@, a.pc as int)) is Some
                    && (!negative ==> multi_ok(cs, class_operand(a, *old(thread)) as int, counts, 0)))
                &&& (r is Ok ==> *final(self) == (Frame { stack: final(self).stack, pc: (a.pc + 3) as usize, ..a }))
                &&& (r is Ok ==> if negative {
                    &&& final(self).stack@ == popped(a.stack@, d)
                    &&& raised(*old(thread), *final(thread), NEGATIVE_ARRAY_SIZE, Some(negative_length_message()))
                } else {
                    &&& final(self).stack@.drop_last() == popped(a.stack@, d)
                    &&& final(self).stack@.len() == a.stack@.len() - d + 1
                    &&& (final(self).stack@.last() matches Slot::Ref(p)
                        && multi_built(final(thread).heap.objs@, p as int, counts, 0))
                })
            }),
    {
        if !self.has_code(3) {
            return Err(VmError::BadCode);
        }
        let d = self.code[self.pc + 2] as usize;
        if d < 1 || d > self.stack.len() {
            return Err(VmError::BadOperand);
        }
        let c = match self.class_operand(thread) {
            Some(c) => c,
            None => {
                return Err(VmError::Unresolved);
            },
        };
        let mut counts: Vec<i32> = Vec::new();
        let mut negative = false;
        let mut k: usize = 0;
        while k < d
            invariant
                *self == *old(self),
                *thread == *old(thread),
                self.wf(),
                thread.wf(),
                self.pc + 3 <= self.code@.len(),
                d as int == self.code@[self.pc + 2] as int,
                c < thread.classes.classes@.len(),
                k <= d,
                d <= self.stack@.len(),
                counts@.len() == k,
                forall|j: int| d - k <= j < d ==> #[trigger] int_on(self.stack@, j),
                forall|q: int| 0 <= q < k ==> #[trigger] counts@[q] == int_of(self.stack@, d - 1 - q),
                negative == exists|q: int| 0 <= q < k && #[trigger] counts@[q] < 0,
            decreases d - k,
        {
            if !self.has_int(d - 1 - k) {
                assert(!int_on(self.stack@, (d - 1 - k) as int));
                return Err(VmError::BadOperand);
            }
            let v = self.int_at(d - 1 - k);
            let ghost prev = counts@;
            counts.push(v);
            if v < 0 {
                negative = true;
            }
            proof {
                assert(counts@[k as int] == v);
                assert(forall|q: int| 0 <= q < k ==> counts@[q] == prev[q]);
                if v < 0 {
                    assert(0 <= k && counts@[k as int] < 0);
                }
            }
            k += 1;
        }
        if negative {
            assert(exists|q: int| 0 <= q < d && int_of(self.stack@, q) < 0) by {
                let q = choose|q: int| 0 <= q < k && counts@[q] < 0;
                assert(int_of(self.stack@, d - 1 - q) < 0);
            }
            self.pc = self.pc + 3;
            self.drop_slots(d);
            thread.raise(NEGATIVE_ARRAY_SIZE, Some(negative_length_text()));
            return Ok(());
        }
        assert(!(exists|q: int| 0 <= q < d && int_of(self.stack@, q) < 0)) by {
            assert forall|q: int| 0 <= q < d implies !(int_of(self.stack@, q) < 0) by {
                assert(counts@[d - 1 - q] == int_of(self.stack@, d - 1 - (d - 1 - q)));
                assert(!(counts@[d - 1 - q] < 0));
            }
        }
        assert(counts@ =~= multi_counts(self.stack@, d as int));
        let p = match thread.alloc_multi(c, &counts, 0) {
            Ok(p) => p,
            Err(e) => {
                return Err(e);
            },
        };
        self.pc = self.pc + 3;
        self.drop_slots(d);
        self.push_slot(Slot::Ref(p));
        assert(self.stack@.drop_last() =~= popped(old(self).stack@, d as int));
        Ok(())
    }

    /// Allocates an array of references to the operand class, all null, with
    /// the popped length; a negative length raises
    /// `NegativeArraySizeException`.
    pub fn anew_array(&mut self, thread: &mut JavaThread) -> (r: Result<(), VmError>)
        requires
            old(self).wf(),
            old(thread).wf(),
        ensures
            crate::init::states_advance(old(thread).classes.classes@, final(thread).classes.classes@),
            final(self).wf(),
            final(thread).wf(),
            ({
                let a = *old(self);
                let ta = *old(thread);
                let s = a.stack@;
                let cs = ta.classes.classes@;
                let c = class_operand(a, ta);
                let n = int_of(s, 0);
                let name = array_name_of(cs[c as int]);
                &&& (r is Ok <==> a.pc + 2 <= a.code@.len()
                    && resolved_class(cs, a.class as int, u2_at(a.code@, a.pc as int)) is Some && int_on(s, 0)
                    && (n >= 0 ==> (lookup_class(cs, name) matches Some(k) ==> cs[k as int].kind == (ClassKind::ObjectArray { component: c }))))
                &&& (r is Err ==> *final(self) == a && *final(thread) == ta)
                &&& (r is Ok ==> *final(self) == (Frame { stack: final(self).stack, pc: (a.pc + 2) as usize, ..a }))
                &&& (r is Ok ==> if n < 0 {
                    final(self).stack@ == popped(s, 1)
                        && raised(ta, *final(thread), NEGATIVE_ARRAY_SIZE, Some(negative_length_message()))
                } else {
                    let objs = final(thread).heap.objs@;
                    let cs2 = final(thread).classes.classes@;
                    &&& final(self).stack@ == popped(s, 1).push(Slot::Ref((objs.len() - 1) as usize))
                    &&& objs.len() > ta.heap.objs@.len()
                    &&& objs.last().kind matches ObjKind::Array { class, elements }
                        && cs2[class as int].kind == (ClassKind::ObjectArray { component: c })
                        && cs2[class as int].name@ == name
                        && elements@ == Seq::new(n as nat, |i: int| Slot::Null)
                })
            }),
    {
        if !(self.has_code(2) && self.has_int(0)) {
            return Err(VmError::BadOperand);
        }
        let c = match self.class_operand(thread) {
            Some(c) => c,
            None => {
                return Err(VmError::Unresolved);
            },
        };
        let n = self.int_at(0);
        if n < 0 {
            self.pc = self.pc + 2;
            self.drop_slots(1);
            thread.raise(NEGATIVE_ARRAY_SIZE, Some(negative_length_text()));
            return Ok(());
        }
        let k = match thread.array_class_of(c) {
            Ok(k) => k,
            Err(e) => {
                return Err(e);
            },
        };
        let mut elements: Vec<Slot> = Vec::new();
        let mut i: usize = 0;
        while i < n as usize
            invariant
                i <= n,
                elements@ == Seq::new(i as nat, |j: int| Slot::Null),
            decreases n - i,
        {
            elements.push(Slot::Null);
            i += 1;
            assert(elements@ =~= Seq::new(i as nat, |j: int| Slot::Null));
        }
        let ghost before = *thread;
        let p = thread.heap.allocate(ObjKind::Array { class: k, elements });
        proof {
            assert forall|i: int| 0 <= i < thread.heap.objs@.len() implies
                (#[trigger] obj_class(thread.heap.objs@[i]) matches Some(q) ==> q < thread.classes.classes@.len()) by {
                if i < before.heap.objs@.len() {
                    assert(thread.heap.objs@[i] == before.heap.objs@[i]);
                }
            }
        }
        self.pc = self.pc + 2;
        self.replace_top(1, Slot::Ref(p));
        Ok(())
    }

    /// Throws the popped exception; null raises `NullPointerException`.
    pub fn athrow(&mut self, thread: &mut JavaThread) -> (r: Result<(), VmError>)
        requires
            old(self).wf(),
            old(thread).wf(),
        ensures
            final(thread).wf(),
            final(self).wf(),
            ({
                let s = old(self).stack@;
                &&& (r is Ok <==> ref_on(s, 0) && (depth(s, 0) matches Slot::Ref(p) ==> p < old(thread).heap.objs@.len()))
                &&& (r is Err ==> *final(self) == *old(self) && *final(thread) == *old(thread))
                &&& (r is Ok ==> stack_is(*old(self), *final(self), popped(s, 1)))
                &&& (r is Ok ==> match depth(s, 0) {
                    Slot::Ref(p) => *final(thread) == (JavaThread { ex: Some(p), ..*old(thread) }),
                    _ => raised(*old(thread), *final(thread), NULL_POINTER, None),
                })
            }),
    {
        if !self.has_ref(0) {
            return Err(VmError::BadOperand);
        }
        match self.stack[self.stack.len() - 1] {
            Slot::Ref(p) => {
                if p >= thread.heap.objs.len() {
                    return Err(VmError::BadObject);
                }
                self.drop_slots(1);
                thread.set_ex(p);
            },
            _ => {
                self.drop_slots(1);
                thread.raise(NULL_POINTER, None);
            },
        }
        Ok(())
    }

    /// Acquires the monitor of the popped object for this thread; re-entry
    /// counts up. Null raises `NullPointerException`. A monitor held by
    /// another thread is an error of this single-threaded VM.
    pub fn monitor_enter(&mut self, thread: &mut JavaThread) -> (r: Result<(), VmError>)
        requires
            old(self).wf(),
            old(thread).wf(),
        ensures
            final(thread).wf(),
            final(self).wf(),
            ({
                let s = old(self).stack@;
                let objs = old(thread).heap.objs@;
                let v = depth(s, 0);
                &&& (r is Ok <==> ref_on(s, 0) && (v matches Slot::Ref(p) ==> p < objs.len()
                    && (objs[p as int].count == 0 || (objs[p as int].owner == old(thread).id
                        && objs[p as int].count < u64::MAX))))
                &&& (r is Err ==> *final(self) == *old(self) && *final(thread) == *old(thread))
                &&& (r is Ok ==> stack_is(*old(self), *final(self), popped(s, 1)))
                &&& (r is Ok ==> match v {
                    Slot::Ref(p) => *final(thread) == (JavaThread { heap: final(thread).heap, ..*old(thread) })
                        && final(thread).heap.objs@ == objs.update(p as int, HeapObj {
                            owner: old(thread).id, count: (objs[p as int].count + 1) as u64, ..objs[p as int] }),
                    _ => raised(*old(thread), *final(thread), NULL_POINTER, None),
                })
            }),
    {
        if !self.has_ref(0) {
            return Err(VmError::BadOperand);
        }
        match self.stack[self.stack.len() - 1] {
            Slot::Ref(p) => {
                if p >= thread.heap.objs.len() {
                    return Err(VmError::BadObject);
                }
                let id = thread.id;
                let count = thread.heap.objs[p].count;
                if !(count == 0 || (thread.heap.objs[p].owner == id && count < u64::MAX)) {
                    return Err(VmError::BadObject);
                }
                let o = &mut thread.heap.objs[p];
                o.owner = id;
                o.count = count + 1;
                self.drop_slots(1);
                proof {
                    crate::thread::lemma_heap_typed_same_classes(thread.classes.classes@, old(thread).heap.objs@, thread.heap.objs@);
                }
            },
            _ => {
                self.drop_slots(1);
                thread.raise(NULL_POINTER, None);
            },
        }
        Ok(())
    }

    /// Releases one level of the monitor of the popped object. Null raises
    /// `NullPointerException`; a monitor this thread does not hold raises
    /// `IllegalMonitorStateException`.
    pub fn monitor_exit(&mut self, thread: &mut JavaThread) -> (r: Result<(), VmError>)
        requires
            old(self).wf(),
            old(thread).wf(),
        ensures
            final(thread).wf(),
            final(self).wf(),
            ({
                let s = old(self).stack@;
                let objs = old(thread).heap.objs@;
                let v = depth(s, 0);
                &&& (r is Ok <==> ref_on(s, 0) && (v matches Slot::Ref(p) ==> p < objs.len()))
                &&& (r is Err ==> *final(self) == *old(self) && *final(thread) == *old(thread))
                &&& (r is Ok ==> stack_is(*old(self), *final(self), popped(s, 1)))
                &&& (r is Ok ==> match v {
                    Slot::Ref(p) => if objs[p as int].count > 0 && objs[p as int].owner == old(thread).id {
                        *final(thread) == (JavaThread { heap: final(thread).heap, ..*old(thread) })
                            && final(thread).heap.objs@ == objs.update(p as int, HeapObj {
                                count: (objs[p as int].count - 1) as u64, ..objs[p as int] })
                    } else {
                        raised(*old(thread), *final(thread), ILLEGAL_MONITOR_STATE, None)
                    },
                    _ => raised(*old(thread), *final(thread), NULL_POINTER, None),
                })
            }),
    {
        if !self.has_ref(0) {
            return Err(VmError::BadOperand);
        }
        match self.stack[self.stack.len() - 1] {
            Slot::Ref(p) => {
                if p >= thread.heap.objs.len() {
                    return Err(VmError::BadObject);
                }
                self.drop_slots(1);
                let id = thread.id;
                if thread.heap.objs[p].count > 0 && thread.heap.objs[p].owner == id {
                    let o = &mut thread.heap.objs[p];
                    o.count = o.count - 1;
                proof {
                    crate::thread::lemma_heap_typed_same_classes(thread.classes.classes@, old(thread).heap.objs@, thread.heap.objs@);
                }
                } else {
                    thread.raise(ILLEGAL_MONITOR_STATE, None);
                }
            },
            _ => {
                self.drop_slots(1);
                thread.raise(NULL_POINTER, None);
            },
        }
        Ok(())
    }

    /// Reads the class operand and resolves it in the pool of this frame's class.
    fn class_operand(&self, thread: &JavaThread) -> (r: Option<usize>)
        requires
            self.pc + 2 <= self.code@.len(),
        ensures
            r == resolved_class(thread.classes.classes@, self.class as int, u2_at(self.code@, self.pc as int)),
            r matches Some(c) ==> c < thread.classes.classes@.len(),
    {
        let _len = self.code.len();
        let i = (self.code[self.pc] as usize) * 256 + (self.code[self.pc + 1] as usize);
        thread.classes.resolve(self.class, i)
    }

    /// Leaves the top reference when it is null or an instance of the
    /// operand class; otherwise pops it and raises `ClassCastException`.
    pub fn check_cast(&mut self, thread: &mut JavaThread) -> (r: Result<(), VmError>)
        requires
            old(self).wf(),
            old(thread).wf(),
        ensures
            final(thread).wf(),
            final(self).wf(),
            ({
                let a = *old(self);
                let ta = *old(thread);
                let s = a.stack@;
                let t = class_operand(a, ta);
                &&& (r is Ok <==> type_check_ok(a, ta))
                &&& (r is Err ==> *final(self) == a && *final(thread) == ta)
                &&& (r is Ok ==> if passes(s, ta, t) {
                    *final(self) == (Frame { pc: (a.pc + 2) as usize, ..a }) && *final(thread) == ta
                } else {
                    &&& *final(self) == (Frame { stack: final(self).stack, pc: (a.pc + 2) as usize, ..a })
                    &&& final(self).stack@ == popped(s, 1)
                    &&& raised(ta, *final(thread), CLASS_CAST, Some(cast_message(
                        obj_class_name(ta.classes.classes@, ta.heap.objs@[depth(s, 0)->Ref_0 as int]),
                        ta.classes.classes@[t as int].name@)))
                })
            }),
    {
        let _len = self.code.len();
        if !(self.has_code(2) && self.has_ref(0)) {
            return Err(VmError::BadOperand);
        }
        let t = match self.class_operand(thread) {
            Some(t) => t,
            None => {
                return Err(VmError::Unresolved);
            },
        };
        match self.stack[self.stack.len() - 1] {
            Slot::Ref(p) => {
                if p >= thread.heap.objs.len() {
                    return Err(VmError::BadObject);
                }
                proof {
                    assert(obj_class(thread.heap.objs@[p as int]) matches Some(c) ==> c < thread.classes.classes@.len());
                }
                if thread.is_instance(p, t) {
                    self.pc = self.pc + 2;
                } else {
                    let mut msg = Vec::new();
                    let from = class_name_of(thread, p);
                    push_dotted(&mut msg, &from);
                    let mut mid = vec![32u8, 99, 97, 110, 110, 111, 116, 32, 98, 101, 32, 99, 97, 115, 116, 32, 116, 111, 32];
                    msg.append(&mut mid);
                    push_dotted(&mut msg, &thread.classes.classes[t].name);
                    proof {
                        assert(msg@ =~= cast_message(
                            obj_class_name(thread.classes.classes@, thread.heap.objs@[p as int]),
                            thread.classes.classes@[t as int].name@));
                    }
                    self.pc = self.pc + 2;
                    self.drop_slots(1);
                    thread.raise(CLASS_CAST, Some(msg));
                }
            },
            _ => {
                self.pc = self.pc + 2;
            },
        }
        Ok(())
    }

    /// Replaces the top reference with 1 when it is an instance of the
    /// operand class, and with 0 when it is not or is null.
    pub fn instance_of(&mut self, thread: &JavaThread) -> (r: Result<(), VmError>)
        requires
            old(self).wf(),
            thread.wf(),
        ensures
            final(self).wf(),
            ({
                let a = *old(self);
                let s = a.stack@;
                let t = class_operand(a, *thread);
                let yes = depth(s, 0) is Ref && passes(s, *thread, t);
                &&& (r is Ok <==> type_check_ok(a, *thread))
                &&& (r is Err ==> *final(self) == a)
                &&& (r is Ok ==> *final(self) == (Frame { stack: final(self).stack, pc: (a.pc + 2) as usize, ..a }))
                &&& (r is Ok ==> final(self).stack@ == popped(s, 1).push(Slot::Int(if yes { 1i32 } else { 0i32 })))
            }),
    {
        let _len = self.code.len();
        if !(self.has_code(2) && self.has_ref(0)) {
            return Err(VmError::BadOperand);
        }
        let t = match self.class_operand(thread) {
            Some(t) => t,
            None => {
                return Err(VmError::Unresolved);
            },
        };
        let yes = match self.stack[self.stack.len() - 1] {
            Slot::Ref(p) => {
                if p >= thread.heap.objs.len() {
                    return Err(VmError::BadObject);
                }
                proof {
                    assert(obj_class(thread.heap.objs@[p as int]) matches Some(c) ==> c < thread.classes.classes@.len());
                }
                thread.is_instance(p, t)
            },
            _ => false,
        };
        self.pc = self.pc + 2;
        self.replace_top(1, Slot::Int(if yes { 1 } else { 0 }));
        Ok(())
    }
}

} // verus!
