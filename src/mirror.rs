//! Class mirrors: the `java.lang.Class` instance of every class, and the
//! bootstrap protocol that creates them once `java/lang/Class` is linked.
use vstd::prelude::*;
use crate::class::{bytes_eq, lookup_class, lookup_class_from, Class, ClassKind};
use crate::heap::{HeapObj, ObjKind};
use crate::thread::{obj_class, JavaThread};
use crate::value::{descriptor_letter, ValueType};

verus! {

/// Whether mirrors are created at once (`Fixed`) or queued (`NotFixed`).
#[derive(Clone, Copy, Debug, PartialEq, Eq, Structural)]
pub enum MirrorState {
    NotFixed,
    Fixed,
}

/// The mirror registry: its state, the classes whose mirrors wait for the
/// bootstrap, and the mirrors of the primitive types and primitive arrays
/// by descriptor (`I`, `[I`, ...).
pub struct MirrorRegistry {
    pub state: MirrorState,
    pub delayed: Vec<usize>,
    pub delayed_arrays: Vec<usize>,
    pub primitives: Vec<(Vec<u8>, usize)>,
}

/// The primitive types whose mirrors the bootstrap creates, in order.
pub open spec fn primitive_types() -> Seq<ValueType> {
    seq![ValueType::Int, ValueType::Boolean, ValueType::Byte, ValueType::Char, ValueType::Short,
        ValueType::Float, ValueType::Long, ValueType::Double, ValueType::Void]
}

/// Object `o` is the mirror of class `c`.
pub open spec fn mirrors_class(o: HeapObj, c: usize) -> bool {
    o.kind matches ObjKind::Mirror { target, .. } && target == Some(c)
}

/// Class `c` has a mirror, and it is a mirror of `c`.
pub open spec fn has_mirror(t: JavaThread, c: int) -> bool {
    &&& 0 <= c < t.classes.classes@.len()
    &&& t.classes.classes@[c].mirror matches Some(m)
    &&& m < t.heap.objs@.len()
    &&& mirrors_class(t.heap.objs@[m as int], c as usize)
}

/// The registry maps the descriptor of primitive type `vt` to a mirror
/// without a target whose value type is `vt`.
pub open spec fn scalar_entry(t: JavaThread, vt: ValueType) -> bool {
    primitive_from(t.mirrors.primitives@, seq![descriptor_letter(vt)], 0) matches Some(m)
        && m < t.heap.objs@.len()
        && t.heap.objs@[m as int].kind == (ObjKind::Mirror { target: None, value_type: vt })
}

/// When the primitive array class `[X` of type `vt` is loaded, the registry
/// maps `[X` to that class's mirror.
pub open spec fn array_entry(t: JavaThread, vt: ValueType) -> bool {
    let key = seq![91u8, descriptor_letter(vt)];
    lookup_class(t.classes.classes@, key) matches Some(c) ==> t.classes.classes@[c as int].mirror is Some
        && primitive_from(t.mirrors.primitives@, key, 0) == t.classes.classes@[c as int].mirror
}

/// A class that lookup finds has the name looked for.
proof fn lemma_lookup_found(cs: Seq<Class>, name: Seq<u8>, i: int)
    requires
        cs.len() <= usize::MAX,
    ensures
        lookup_class_from(cs, name, i) matches Some(c) ==> 0 <= c < cs.len() && cs[c as int].name@ == name,
    decreases cs.len() - i,
{
    if 0 <= i < cs.len() && cs[i].name@ != name {
        lemma_lookup_found(cs, name, i + 1);
    }
}

/// Class lookup depends on the names alone.
proof fn lemma_lookup_same_names(a: Seq<Class>, b: Seq<Class>, name: Seq<u8>, i: int)
    requires
        a.len() == b.len(),
        forall|j: int| 0 <= j < a.len() ==> (#[trigger] b[j]).name == a[j].name,
    ensures
        lookup_class_from(a, name, i) == lookup_class_from(b, name, i),
    decreases a.len() - i,
{
    if 0 <= i < a.len() {
        assert(b[i].name == a[i].name);
        lemma_lookup_same_names(a, b, name, i + 1);
    }
}

/// The mirror registered for descriptor `key`, searching from entry `i`.
pub open spec fn primitive_from(ps: Seq<(Vec<u8>, usize)>, key: Seq<u8>, i: int) -> Option<usize>
    decreases ps.len() - i,
{
    if i < 0 || i >= ps.len() {
        None
    } else if ps[i].0@ == key {
        Some(ps[i].1)
    } else {
        primitive_from(ps, key, i + 1)
    }
}

impl MirrorRegistry {
    pub fn new() -> (r: MirrorRegistry)
        ensures
            r.state == MirrorState::NotFixed,
            r.delayed@.len() == 0,
            r.delayed_arrays@.len() == 0,
            r.primitives@.len() == 0,
    {
        MirrorRegistry {
            state: MirrorState::NotFixed,
            delayed: Vec::new(),
            delayed_arrays: Vec::new(),
            primitives: Vec::new(),
        }
    }
}

/// The mirror of the primitive type or primitive array with descriptor `key`.
pub fn get_primitive_class_mirror(thread: &JavaThread, key: &Vec<u8>) -> (r: Option<usize>)
    ensures
        r == primitive_from(thread.mirrors.primitives@, key@, 0),
{
    let ps = &thread.mirrors.primitives;
    let mut i: usize = 0;
    while i < ps.len()
        invariant
            ps@ == thread.mirrors.primitives@,
            i <= ps@.len(),
            primitive_from(ps@, key@, 0) == primitive_from(ps@, key@, i as int),
        decreases ps@.len() - i,
    {
        if bytes_eq(&ps[i].0, key) {
            return Some(ps[i].1);
        }
        i += 1;
    }
    None
}

/// Allocates a mirror object and makes it the mirror of class `c`.
fn attach_mirror(thread: &mut JavaThread, c: usize, value_type: ValueType)
    requires
        old(thread).wf(),
        c < old(thread).classes.classes@.len(),
    ensures
        final(thread).wf(),
        has_mirror(*final(thread), c as int),
        final(thread).classes.classes@[c as int].mirror == Some(old(thread).heap.objs@.len() as usize),
        final(thread).heap.objs@.len() == old(thread).heap.objs@.len() + 1,
        final(thread).heap.objs@.drop_last() == old(thread).heap.objs@,
        final(thread).classes.classes@.len() == old(thread).classes.classes@.len(),
        forall|i: int| 0 <= i < old(thread).classes.classes@.len() && i != c
            ==> final(thread).classes.classes@[i] == old(thread).classes.classes@[i],
        final(thread).classes.classes@[c as int]
            == (Class { mirror: final(thread).classes.classes@[c as int].mirror, ..old(thread).classes.classes@[c as int] }),
        final(thread).mirrors == old(thread).mirrors,
        final(thread).ex == old(thread).ex,
        final(thread).id == old(thread).id,
{
    let m = thread.heap.allocate(ObjKind::Mirror { target: Some(c), value_type });
    let cls = &mut thread.classes.classes[c];
    cls.mirror = Some(m);
    proof {
        let cs = thread.classes.classes@;
        let ocs = old(thread).classes.classes@;
        assert forall|i: int, j: int| 0 <= i < cs.len() && 0 <= j < cs[i].interfaces@.len()
            implies #[trigger] cs[i].interfaces@[j] < i by {
            assert(cs[i].interfaces == ocs[i].interfaces);
        }
        assert forall|i: int| 0 < i < cs.len() implies (#[trigger] cs[i].super_class matches Some(p) && p < i) by {
            assert(cs[i].super_class == ocs[i].super_class);
        }
        assert forall|i: int| 0 <= i < cs.len() implies (#[trigger] cs[i].kind matches ClassKind::ObjectArray { component } ==> component < i) by {
            assert(cs[i].kind == ocs[i].kind);
        }
        assert(thread.heap.objs@.drop_last() =~= old(thread).heap.objs@);
        assert forall|i: int| 0 <= i < thread.heap.objs@.len() implies
            (#[trigger] obj_class(thread.heap.objs@[i]) matches Some(k) ==> k < cs.len()) by {
            if i < old(thread).heap.objs@.len() {
                assert(thread.heap.objs@[i] == old(thread).heap.objs@[i]);
            }
        }
    }
}

/// Gives class `c` its mirror: at once when mirrors are fixed, else the class
/// is queued for the bootstrap. A class that already has a mirror keeps it,
/// so no class ever has two.
pub fn create_mirror(thread: &mut JavaThread, c: usize)
    requires
        old(thread).wf(),
        c < old(thread).classes.classes@.len(),
    ensures
        final(thread).wf(),
        final(thread).classes.classes@.len() == old(thread).classes.classes@.len(),
        forall|i: int| 0 <= i < old(thread).classes.classes@.len() ==> (#[trigger] final(thread).classes.classes@[i])
            == (Class { mirror: final(thread).classes.classes@[i].mirror, ..old(thread).classes.classes@[i] }),
        final(thread).heap.objs@.len() >= old(thread).heap.objs@.len(),
        forall|i: int| 0 <= i < old(thread).heap.objs@.len() ==> final(thread).heap.objs@[i] == old(thread).heap.objs@[i],
        final(thread).ex == old(thread).ex,
        old(thread).classes.classes@[c as int].mirror is Some ==> *final(thread) == *old(thread),
        old(thread).classes.classes@[c as int].mirror is None && old(thread).mirrors.state is Fixed
            ==> has_mirror(*final(thread), c as int)
                && final(thread).classes.classes@[c as int].mirror == Some(old(thread).heap.objs@.len() as usize),
        old(thread).classes.classes@[c as int].mirror is None && old(thread).mirrors.state is NotFixed
            ==> final(thread).classes == old(thread).classes && final(thread).heap == old(thread).heap
                && final(thread).mirrors.state == old(thread).mirrors.state
                && final(thread).mirrors.primitives == old(thread).mirrors.primitives
                && if old(thread).classes.classes@[c as int].kind is Instance {
                    final(thread).mirrors.delayed@ == old(thread).mirrors.delayed@.push(c)
                        && final(thread).mirrors.delayed_arrays == old(thread).mirrors.delayed_arrays
                } else {
                    final(thread).mirrors.delayed_arrays@ == old(thread).mirrors.delayed_arrays@.push(c)
                        && final(thread).mirrors.delayed == old(thread).mirrors.delayed
                },
{
    if thread.classes.classes[c].mirror.is_some() {
        return;
    }
    match thread.mirrors.state {
        MirrorState::Fixed => {
            let vt = match thread.classes.classes[c].kind {
                ClassKind::Instance => ValueType::Object,
                _ => ValueType::Array,
            };
            attach_mirror(thread, c, vt);
        },
        MirrorState::NotFixed => {
            match thread.classes.classes[c].kind {
                ClassKind::Instance => thread.mirrors.delayed.push(c),
                _ => thread.mirrors.delayed_arrays.push(c),
            }
        },
    }
}

/// The bootstrap, once `java/lang/Class` is linked: mirrors become fixed, every
/// queued instance class gets its mirror, and the primitive types and the
/// primitive array classes loaded so far get theirs, registered by
/// descriptor.
pub fn create_delayed_mirrors(thread: &mut JavaThread)
    requires
        old(thread).wf(),
    ensures
        final(thread).wf(),
        final(thread).mirrors.state is Fixed,
        forall|k: int| 0 <= k < old(thread).mirrors.delayed@.len() && old(thread).mirrors.delayed@[k] < old(thread).classes.classes@.len()
            && old(thread).classes.classes@[old(thread).mirrors.delayed@[k] as int].mirror is None
            ==> has_mirror(*final(thread), #[trigger] old(thread).mirrors.delayed@[k] as int),
        forall|k: int| 0 <= k < primitive_types().len() ==> scalar_entry(*final(thread), #[trigger] primitive_types()[k]),
        forall|k: int| 0 <= k < 8 ==> array_entry(*final(thread), #[trigger] primitive_types()[k]),
{
    thread.mirrors.state = MirrorState::Fixed;
    let names = copy_indices(&thread.mirrors.delayed);
    let n0 = thread.classes.classes.len();
    let mut i: usize = 0;
    while i < names.len()
        invariant
            thread.wf(),
            thread.mirrors.state is Fixed,
            names@ == old(thread).mirrors.delayed@,
            thread.classes.classes@.len() == n0,
            n0 == old(thread).classes.classes@.len(),
            i <= names@.len(),
            forall|j: int| 0 <= j < n0 && old(thread).classes.classes@[j].mirror is None
                && (#[trigger] thread.classes.classes@[j]).mirror is Some ==> has_mirror(*thread, j),
            forall|k: int| 0 <= k < i && names@[k] < n0 && old(thread).classes.classes@[names@[k] as int].mirror is None
                ==> thread.classes.classes@[#[trigger] names@[k] as int].mirror is Some,
        decreases names@.len() - i,
    {
        let c = names[i];
        if c < thread.classes.classes.len() && thread.classes.classes[c].mirror.is_none() {
            let ghost before = *thread;
            let vt = match thread.classes.classes[c].kind {
                ClassKind::Instance => ValueType::Object,
                _ => ValueType::Array,
            };
            attach_mirror(thread, c, vt);
            proof {
                assert forall|j: int| 0 <= j < n0 && old(thread).classes.classes@[j].mirror is None
                    && (#[trigger] thread.classes.classes@[j]).mirror is Some implies has_mirror(*thread, j) by {
                    if j != c {
                        assert(thread.classes.classes@[j] == before.classes.classes@[j]);
                        assert(has_mirror(before, j));
                        let m = before.classes.classes@[j].mirror->Some_0;
                        assert(thread.heap.objs@[m as int] == before.heap.objs@[m as int]);
                    }
                }
                assert forall|k: int| 0 <= k < i + 1 && names@[k] < n0 && old(thread).classes.classes@[names@[k] as int].mirror is None
                    implies thread.classes.classes@[#[trigger] names@[k] as int].mirror is Some by {
                    if names@[k] != c {
                        assert(thread.classes.classes@[names@[k] as int] == before.classes.classes@[names@[k] as int]);
                    }
                }
            }
        }
        i += 1;
    }
    let ghost mid = *thread;
    let mut k: usize = 0;
    while k < 9
        invariant
            thread.wf(),
            thread.mirrors.state is Fixed,
            k <= 9,
            thread.classes.classes@.len() == n0,
            forall|j: int| 0 <= j < k ==> scalar_entry(*thread, #[trigger] primitive_types()[j]),
            forall|j: int| 0 <= j < n0 ==> #[trigger] thread.classes.classes@[j] == mid.classes.classes@[j],
            thread.heap.objs@.len() >= mid.heap.objs@.len(),
            forall|j: int| 0 <= j < mid.heap.objs@.len() ==> #[trigger] thread.heap.objs@[j] == mid.heap.objs@[j],
        decreases 9 - k,
    {
        let vt = primitive_at(k);
        let ghost before = *thread;
        let m = thread.heap.allocate(ObjKind::Mirror { target: None, value_type: vt });
        let key = vec![vt.letter()];
        assert(key@ =~= seq![descriptor_letter(primitive_types()[k as int])]);
        let ghost ps = thread.mirrors.primitives@;
        let ghost kv = key@;
        thread.mirrors.primitives.insert(0, (key, m));
        proof {
            let qs = thread.mirrors.primitives@;
            assert(qs == ps.insert(0, qs[0]));
            assert(qs[0].0@ == kv);
            assert forall|i: int| 0 <= i < ps.len() implies qs[i + 1] == ps[i] by {}
            assert forall|j: int| 0 <= j < k + 1 implies scalar_entry(*thread, #[trigger] primitive_types()[j]) by {
                let want = seq![descriptor_letter(primitive_types()[j])];
                if want == kv {
                    assert(primitive_types()[j] == vt) by {
                        assert(descriptor_letter(primitive_types()[j]) == descriptor_letter(vt));
                    }
                } else {
                    lemma_primitive_shift(ps, thread.mirrors.primitives@, want);
                    assert(scalar_entry(before, primitive_types()[j]));
                    let mj = primitive_from(ps, want, 0)->Some_0;
                    assert(thread.heap.objs@[mj as int] == before.heap.objs@[mj as int]);
                }
            }
            assert forall|i: int| 0 <= i < thread.heap.objs@.len() implies
                (#[trigger] obj_class(thread.heap.objs@[i]) matches Some(q) ==> q < thread.classes.classes@.len()) by {
                if i < thread.heap.objs@.len() - 1 {
                }
            }
        }
        k += 1;
    }
    let ghost mid2 = *thread;
    let mut k: usize = 0;
    while k < 8
        invariant
            thread.wf(),
            thread.mirrors.state is Fixed,
            k <= 8,
            thread.classes.classes@.len() == n0,
            mid2.classes.classes@.len() == n0,
            forall|j: int| 0 <= j < 9 ==> scalar_entry(*thread, #[trigger] primitive_types()[j]),
            forall|j: int| 0 <= j < k ==> array_entry(*thread, #[trigger] primitive_types()[j]),
            forall|j: int| 0 <= j < n0 ==> (#[trigger] thread.classes.classes@[j]).name == mid2.classes.classes@[j].name,
            forall|j: int| 0 <= j < n0 && mid2.classes.classes@[j].mirror is Some
                ==> #[trigger] thread.classes.classes@[j] == mid2.classes.classes@[j],
            thread.heap.objs@.len() >= mid2.heap.objs@.len(),
            forall|j: int| 0 <= j < mid2.heap.objs@.len() ==> #[trigger] thread.heap.objs@[j] == mid2.heap.objs@[j],
        decreases 8 - k,
    {
        let vt = primitive_at(k);
        let name = vec![91u8, vt.letter()];
        assert(name@ =~= seq![91u8, descriptor_letter(primitive_types()[k as int])]);
        let ghost before = *thread;
        match thread.classes.find(&name) {
            Some(c) => {
                if thread.classes.classes[c].mirror.is_none() {
                    attach_mirror(thread, c, vt);
                    proof {
                        assert forall|j: int| 0 <= j < thread.classes.classes@.len() implies
                            (#[trigger] thread.classes.classes@[j]).name == before.classes.classes@[j].name by {
                            if j != c {
                                assert(thread.classes.classes@[j] == before.classes.classes@[j]);
                            }
                        }
                        assert forall|j: int| 0 <= j < before.classes.classes@.len() && j != c implies
                            #[trigger] thread.classes.classes@[j] == before.classes.classes@[j] by {}
                        assert forall|j: int| 0 <= j < mid2.heap.objs@.len() implies
                            #[trigger] thread.heap.objs@[j] == mid2.heap.objs@[j] by {
                            assert(thread.heap.objs@[j] == before.heap.objs@[j]);
                        }
                        lemma_lookup_same_names(before.classes.classes@, thread.classes.classes@, name@, 0);
                    }
                }
                assert(thread.classes.classes@[c as int].mirror is Some);
                let m = match thread.classes.classes[c].mirror {
                    Some(m) => m,
                    None => 0,
                };
                assert(lookup_class(thread.classes.classes@, name@) == Some(c)) by {
                    lemma_lookup_same_names(before.classes.classes@, thread.classes.classes@, name@, 0);
                }
                let ghost mid3 = *thread;
                assert(mid3.classes.classes@ =~= before.classes.classes@.update(c as int, mid3.classes.classes@[c as int]));
                let ghost ps = thread.mirrors.primitives@;
                let ghost kv = name@;
                thread.mirrors.primitives.insert(0, (name, m));
                proof {
                    assert(thread.classes == mid3.classes);
                    let qs = thread.mirrors.primitives@;
                    assert(qs == ps.insert(0, qs[0]));
                    assert(qs[0].0@ == kv);
                    assert forall|i: int| 0 <= i < ps.len() implies qs[i + 1] == ps[i] by {}
                    assert forall|j: int| 0 <= j < 9 implies scalar_entry(*thread, #[trigger] primitive_types()[j]) by {
                        let want = seq![descriptor_letter(primitive_types()[j])];
                        assert(want.len() != kv.len());
                        lemma_primitive_shift(ps, qs, want);
                        assert(scalar_entry(before, primitive_types()[j]));
                        let mj = primitive_from(before.mirrors.primitives@, want, 0)->Some_0;
                        assert(thread.heap.objs@[mj as int] == before.heap.objs@[mj as int]);
                    }
                    assert forall|j: int| 0 <= j < k + 1 implies array_entry(*thread, #[trigger] primitive_types()[j]) by {
                        let want = seq![91u8, descriptor_letter(primitive_types()[j])];
                        lemma_lookup_same_names(before.classes.classes@, thread.classes.classes@, want, 0);
                        if j == k {
                            assert(want == kv);
                            assert(primitive_from(qs, kv, 0) == Some(m));
                        }
                        if j < k {
                            assert(want[1] != kv[1]);
                            lemma_primitive_shift(ps, qs, want);
                            assert(array_entry(before, primitive_types()[j]));
                            if let Some(cj) = lookup_class(before.classes.classes@, want) {
                                lemma_lookup_found(before.classes.classes@, want, 0);
                                lemma_lookup_found(before.classes.classes@, kv, 0);
                                assert(cj != c);
                                assert(thread.classes.classes@[cj as int] == before.classes.classes@[cj as int]);
                                assert(lookup_class(thread.classes.classes@, want) == Some(cj));
                                assert(primitive_from(qs, want, 0) == before.classes.classes@[cj as int].mirror);
                            }
                        }
                    }
                }
            },
            None => {
                proof {
                    assert forall|j: int| 0 <= j < k + 1 implies array_entry(*thread, #[trigger] primitive_types()[j]) by {
                    }
                }
            },
        }
        k += 1;
    }
    proof {
        assert forall|k: int| 0 <= k < names@.len() && names@[k] < n0 && old(thread).classes.classes@[names@[k] as int].mirror is None
            implies has_mirror(*thread, #[trigger] names@[k] as int) by {
            let j = names@[k] as int;
            assert(mid.classes.classes@[j].mirror is Some);
            assert(has_mirror(mid, j));
            assert(mid2.classes.classes@[j] == mid.classes.classes@[j]);
            assert(thread.classes.classes@[j] == mid2.classes.classes@[j]);
            let m = mid.classes.classes@[j].mirror->Some_0;
            assert(mid2.heap.objs@[m as int] == mid.heap.objs@[m as int]);
            assert(thread.heap.objs@[m as int] == mid2.heap.objs@[m as int]);
        }
    }
}

/// Registering a key in front keeps every other key's mirror.
proof fn lemma_primitive_shift(ps: Seq<(Vec<u8>, usize)>, qs: Seq<(Vec<u8>, usize)>, want: Seq<u8>)
    requires
        qs.len() == ps.len() + 1,
        qs[0].0@ != want,
        forall|i: int| 0 <= i < ps.len() ==> qs[i + 1] == ps[i],
    ensures
        primitive_from(qs, want, 0) == primitive_from(ps, want, 0),
{
    lemma_primitive_from_shift(ps, qs, want, 0);
}

proof fn lemma_primitive_from_shift(ps: Seq<(Vec<u8>, usize)>, qs: Seq<(Vec<u8>, usize)>, want: Seq<u8>, i: int)
    requires
        0 <= i,
        qs.len() == ps.len() + 1,
        forall|j: int| 0 <= j < ps.len() ==> qs[j + 1] == ps[j],
    ensures
        primitive_from(qs, want, i + 1) == primitive_from(ps, want, i),
    decreases ps.len() - i,
{
    if i < ps.len() {
        assert(qs[i + 1] == ps[i]);
        lemma_primitive_from_shift(ps, qs, want, i + 1);
    }
}

/// The primitive type at position `k` of `primitive_types`.
fn primitive_at(k: usize) -> (r: ValueType)
    requires
        k < 9,
    ensures
        r == primitive_types()[k as int],
{
    if k == 0 {
        ValueType::Int
    } else if k == 1 {
        ValueType::Boolean
    } else if k == 2 {
        ValueType::Byte
    } else if k == 3 {
        ValueType::Char
    } else if k == 4 {
        ValueType::Short
    } else if k == 5 {
        ValueType::Float
    } else if k == 6 {
        ValueType::Long
    } else if k == 7 {
        ValueType::Double
    } else {
        ValueType::Void
    }
}

/// The second step of the bootstrap: every queued array class gets its
/// mirror, recording its element type.
pub fn create_delayed_ary_mirrors(thread: &mut JavaThread)
    requires
        old(thread).wf(),
    ensures
        final(thread).wf(),
        final(thread).mirrors == old(thread).mirrors,
        forall|k: int| 0 <= k < old(thread).mirrors.delayed_arrays@.len()
            && old(thread).mirrors.delayed_arrays@[k] < old(thread).classes.classes@.len()
            ==> has_mirror(*final(thread), #[trigger] old(thread).mirrors.delayed_arrays@[k] as int),
{
    let cs = copy_indices(&thread.mirrors.delayed_arrays);
    let n0 = thread.classes.classes.len();
    let mut i: usize = 0;
    while i < cs.len()
        invariant
            thread.wf(),
            thread.mirrors == old(thread).mirrors,
            cs@ == old(thread).mirrors.delayed_arrays@,
            thread.classes.classes@.len() == n0,
            n0 == old(thread).classes.classes@.len(),
            i <= cs@.len(),
            forall|k: int| 0 <= k < i && cs@[k] < n0 ==> has_mirror(*thread, #[trigger] cs@[k] as int),
        decreases cs@.len() - i,
    {
        let c = cs[i];
        if c < thread.classes.classes.len() {
            let vt = match thread.classes.classes[c].kind {
                ClassKind::TypeArray { elem } => elem,
                _ => ValueType::Object,
            };
            let ghost before = *thread;
            attach_mirror(thread, c, vt);
            proof {
                assert forall|k: int| 0 <= k < i + 1 && cs@[k] < n0 implies has_mirror(*thread, #[trigger] cs@[k] as int) by {
                    if cs@[k] != c {
                        assert(has_mirror(before, cs@[k] as int));
                        assert(thread.classes.classes@[cs@[k] as int] == before.classes.classes@[cs@[k] as int]);
                        assert(thread.heap.objs@[before.classes.classes@[cs@[k] as int].mirror->Some_0 as int]
                            == before.heap.objs@[before.classes.classes@[cs@[k] as int].mirror->Some_0 as int]);
                    }
                }
            }
        }
        i += 1;
    }
}

fn copy_indices(v: &Vec<usize>) -> (r: Vec<usize>)
    ensures
        r@ == v@,
{
    let mut r: Vec<usize> = Vec::new();
    let mut i: usize = 0;
    while i < v.len()
        invariant
            i <= v@.len(),
            r@ == v@.subrange(0, i as int),
        decreases v@.len() - i,
    {
        r.push(v[i]);
        i += 1;
        assert(r@ =~= v@.subrange(0, i as int));
    }
    assert(r@ =~= v@);
    r
}

} // verus!
