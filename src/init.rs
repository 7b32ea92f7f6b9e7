//! Class initialization: deciding which class's `<clinit>` runs next, and
//! the law that each class starts initializing at most once.
use vstd::prelude::*;
use crate::class::{state_rank, Class, ClassState, ClassTable, MethodInfo};

verus! {

/// `<clinit>`
pub open spec fn clinit_name() -> Seq<u8> {
    seq![60u8, 99, 108, 105, 110, 105, 116, 62]
}

/// `()V`
pub open spec fn void_descriptor() -> Seq<u8> {
    seq![40u8, 41, 86]
}

/// Class `c` and all its super classes are initialized or being initialized,
/// so that its static members may be used.
pub open spec fn init_ready(cs: Seq<Class>, c: int) -> bool
    decreases c,
{
    if !(0 <= c < cs.len()) {
        false
    } else {
        &&& (cs[c].state is BeingInitialized || cs[c].state is FullyInitialized)
        &&& match cs[c].super_class {
            Some(p) => p < c && init_ready(cs, p as int),
            None => true,
        }
    }
}

/// The class whose initialization starts next on the way to making `c`
/// ready: the topmost super class (or `c` itself) that is not started.
pub open spec fn init_target(cs: Seq<Class>, c: int) -> Option<usize>
    decreases c,
{
    if !(0 <= c < cs.len()) {
        None
    } else {
        let up = match cs[c].super_class {
            Some(p) => if p < c { init_target(cs, p as int) } else { None },
            None => None,
        };
        if up is Some {
            up
        } else if cs[c].state is Allocated || cs[c].state is Linked || cs[c].state is Erroneous {
            Some(c as usize)
        } else {
            None
        }
    }
}

/// The first method of `ms` from `i` on with the given name and descriptor.
pub open spec fn method_from(ms: Seq<MethodInfo>, name: Seq<u8>, desc: Seq<u8>, i: int) -> Option<usize>
    decreases ms.len() - i,
{
    if i < 0 || i >= ms.len() || i > usize::MAX {
        None
    } else if ms[i].name@ == name && ms[i].descriptor@ == desc {
        Some(i as usize)
    } else {
        method_from(ms, name, desc, i + 1)
    }
}

/// The method of class `c` with the given name and descriptor.
pub open spec fn declared_method(c: Class, name: Seq<u8>, desc: Seq<u8>) -> Option<usize> {
    method_from(c.methods@, name, desc, 0)
}

/// What `begin_init` decided.
#[derive(Clone, Copy, Debug, PartialEq, Eq, Structural)]
pub enum InitStart {
    /// Class `class` is now being initialized: its `<clinit>`, method `method`, runs next.
    Run { class: usize, method: usize },
    /// Class `class` had no `<clinit>` and is now initialized.
    Done { class: usize },
    /// Class `class` failed an earlier initialization.
    Failed { class: usize },
    /// Nothing to start.
    Ready,
}

/// Initialization of class `k` starts between the two states.
pub open spec fn starts_init(before: ClassState, after: ClassState) -> bool {
    state_rank(before) < state_rank(ClassState::BeingInitialized) && after is BeingInitialized
}

/// `<clinit>` runs at most once per class: along any history of a class's
/// state in which the state never moves back, initialization starts at most
/// once.
pub proof fn lemma_clinit_at_most_once(h: Seq<ClassState>, i: int, j: int)
    requires
        forall|t: int| 0 <= t && t + 1 < h.len() ==> state_rank(#[trigger] h[t + 1]) >= state_rank(h[t]),
        0 <= i < j,
        j + 1 < h.len(),
        starts_init(h[i], h[i + 1]),
    ensures
        !starts_init(h[j], h[j + 1]),
    decreases j - i,
{
    lemma_rank_holds(h, i + 1, j);
}

/// Along a history whose ranks never decrease, the rank at `i` bounds every later one.
proof fn lemma_rank_holds(h: Seq<ClassState>, i: int, j: int)
    requires
        forall|t: int| 0 <= t && t + 1 < h.len() ==> state_rank(#[trigger] h[t + 1]) >= state_rank(h[t]),
        0 <= i <= j < h.len(),
    ensures
        state_rank(h[j]) >= state_rank(h[i]),
    decreases j - i,
{
    if i < j {
        lemma_rank_holds(h, i, j - 1);
        assert(state_rank(h[(j - 1) + 1]) >= state_rank(h[j - 1]));
    }
}

/// The class that `init_target` picks is loaded and not yet started.
proof fn lemma_init_target(cs: Seq<Class>, c: int)
    requires
        crate::class::table_wf(cs),
    ensures
        init_target(cs, c) matches Some(k) ==> k < cs.len()
            && (cs[k as int].state is Allocated || cs[k as int].state is Linked || cs[k as int].state is Erroneous),
    decreases c,
{
    if 0 <= c < cs.len() {
        if let Some(p) = cs[c].super_class {
            if p < c {
                lemma_init_target(cs, p as int);
            }
        }
    }
}

/// Every class keeps at least its rank in the life cycle.
pub open spec fn states_advance(a: Seq<Class>, b: Seq<Class>) -> bool {
    &&& b.len() >= a.len()
    &&& forall|i: int| 0 <= i < a.len() ==> state_rank(#[trigger] b[i].state) >= state_rank(a[i].state)
}

/// `states_advance` composes.
pub proof fn lemma_states_advance_trans(a: Seq<Class>, b: Seq<Class>, c: Seq<Class>)
    requires
        states_advance(a, b),
        states_advance(b, c),
    ensures
        states_advance(a, c),
{
    assert forall|i: int| 0 <= i < a.len() implies state_rank(#[trigger] c[i].state) >= state_rank(a[i].state) by {
        assert(state_rank(b[i].state) >= state_rank(a[i].state));
        assert(state_rank(c[i].state) >= state_rank(b[i].state));
    }
}

/// The method named `name` with descriptor `desc` in `ms`.
pub fn find_method(ms: &Vec<MethodInfo>, name: &Vec<u8>, desc: &Vec<u8>) -> (r: Option<usize>)
    ensures
        r == method_from(ms@, name@, desc@, 0),
{
    let mut i: usize = 0;
    while i < ms.len()
        invariant
            i <= ms@.len(),
            method_from(ms@, name@, desc@, 0) == method_from(ms@, name@, desc@, i as int),
        decreases ms@.len() - i,
    {
        if crate::class::bytes_eq(&ms[i].name, name) && crate::class::bytes_eq(&ms[i].descriptor, desc) {
            return Some(i);
        }
        i += 1;
    }
    None
}

/// What `begin_init` does to the classes `cs` on the way to class `c`,
/// giving `cs1` and reporting `r`.
pub open spec fn begin_init_post(cs: Seq<Class>, c: usize, cs1: Seq<Class>, r: InitStart) -> bool {
    match init_target(cs, c as int) {
        None => r == InitStart::Ready && cs1 == cs,
        Some(k) => if cs[k as int].state is Erroneous {
            r == (InitStart::Failed { class: k }) && cs1 == cs
        } else {
            match declared_method(cs[k as int], clinit_name(), void_descriptor()) {
                Some(m) => r == (InitStart::Run { class: k, method: m })
                    && cs1 == cs.update(k as int, Class { state: ClassState::BeingInitialized, ..cs[k as int] })
                    && starts_init(cs[k as int].state, ClassState::BeingInitialized),
                None => r == (InitStart::Done { class: k })
                    && cs1 == cs.update(k as int, Class { state: ClassState::FullyInitialized, ..cs[k as int] }),
            }
        },
    }
}

impl ClassTable {
    /// Whether class `c` and its super classes are initialized or being initialized.
    pub fn is_init_ready(&self, c: usize) -> (r: bool)
        requires
            self.wf(),
        ensures
            r == init_ready(self.classes@, c as int),
        decreases c,
    {
        if c >= self.classes.len() {
            return false;
        }
        let st = self.classes[c].state;
        if !matches!(st, ClassState::BeingInitialized | ClassState::FullyInitialized) {
            return false;
        }
        match self.classes[c].super_class {
            Some(p) => {
                assert(c > 0 ==> (self.classes@[c as int].super_class matches Some(q) && q < c));
                if p < c { self.is_init_ready(p) } else { false }
            },
            None => true,
        }
    }

    /// The class whose initialization starts next on the way to `c`.
    pub fn next_to_init(&self, c: usize) -> (r: Option<usize>)
        requires
            self.wf(),
        ensures
            r == init_target(self.classes@, c as int),
            r matches Some(k) ==> k < self.classes@.len(),
        decreases c,
    {
        if c >= self.classes.len() {
            return None;
        }
        let up = match self.classes[c].super_class {
            Some(p) => if p < c { self.next_to_init(p) } else { None },
            None => None,
        };
        if up.is_some() {
            return up;
        }
        match self.classes[c].state {
            ClassState::Allocated | ClassState::Linked | ClassState::Erroneous => Some(c),
            _ => None,
        }
    }

    /// Starts the initialization that class `c` waits for: the class found by
    /// `init_target` moves to `BeingInitialized` when it has a `<clinit>`, or
    /// straight to `FullyInitialized` when it has none. A class whose
    /// initialization failed is reported and left as it is.
    pub fn begin_init(&mut self, c: usize) -> (r: InitStart)
        requires
            old(self).wf(),
        ensures
            final(self).wf(),
            states_advance(old(self).classes@, final(self).classes@),
            final(self).classes@.len() == old(self).classes@.len(),
            begin_init_post(old(self).classes@, c, final(self).classes@, r),
    {
        proof {
            lemma_init_target(self.classes@, c as int);
        }
        let k = match self.next_to_init(c) {
            Some(k) => k,
            None => {
                return InitStart::Ready;
            },
        };
        if matches!(self.classes[k].state, ClassState::Erroneous) {
            return InitStart::Failed { class: k };
        }
        let name = vec![60u8, 99, 108, 105, 110, 105, 116, 62];
        let desc = vec![40u8, 41, 86];
        assert(name@ =~= clinit_name());
        assert(desc@ =~= void_descriptor());
        let m = find_method(&self.classes[k].methods, &name, &desc);
        let st = if m.is_some() { ClassState::BeingInitialized } else { ClassState::FullyInitialized };
        self.set_state(k, st);
        match m {
            Some(m) => InitStart::Run { class: k, method: m },
            None => InitStart::Done { class: k },
        }
    }

    /// Sets the state of class `k`, which only moves forward.
    pub fn set_state(&mut self, k: usize, st: ClassState)
        requires
            old(self).wf(),
            k < old(self).classes@.len(),
            state_rank(st) >= state_rank(old(self).classes@[k as int].state),
        ensures
            final(self).wf(),
            states_advance(old(self).classes@, final(self).classes@),
            final(self).classes@ == old(self).classes@.update(k as int, Class { state: st, ..old(self).classes@[k as int] }),
    {
        let c = &mut self.classes[k];
        c.state = st;
        proof {
            let cs = self.classes@;
            assert(cs[k as int].interfaces == old(self).classes@[k as int].interfaces);
            assert forall|i: int, j: int| 0 <= i < cs.len() && 0 <= j < cs[i].interfaces@.len()
                implies #[trigger] cs[i].interfaces@[j] < i by {
                assert(cs[i].interfaces == old(self).classes@[i].interfaces);
            }
            assert forall|i: int| 0 < i < cs.len() implies (#[trigger] cs[i].super_class matches Some(p) && p < i) by {
                assert(cs[i].super_class == old(self).classes@[i].super_class);
            }
            assert forall|i: int| 0 <= i < cs.len() implies (#[trigger] cs[i].kind matches crate::class::ClassKind::ObjectArray { component } ==> component < i) by {
                assert(cs[i].kind == old(self).classes@[i].kind);
            }
        }
    }
}

} // verus!
