//! Class metadata, the class table, and subtyping.
use vstd::prelude::*;
use vstd::string::StrSliceExecFns;
use vstd::string::StringSliceAdditionalSpecFns;
use crate::value::{Slot, ValueType};

verus! {

/// A decoded constant-pool entry. Indices are constant-pool indices.
#[derive(Clone, Debug)]
pub enum CpEntry {
    Unusable,
    Utf8(Vec<u8>),
    Integer(i32),
    Float(u32),
    Long(i64),
    Double(u64),
    Class { name_index: u16 },
    Str { string_index: u16 },
    FieldRef { class_index: u16, name_and_type_index: u16 },
    MethodRef { class_index: u16, name_and_type_index: u16 },
    InterfaceMethodRef { class_index: u16, name_and_type_index: u16 },
    NameAndType { name_index: u16, descriptor_index: u16 },
    Other,
}

/// One row of a method's exception table. `catch_class` is the resolved
/// catch type, `None` for a handler that catches everything.
#[derive(Clone, Copy, Debug)]
pub struct ExEntry {
    pub start_pc: usize,
    pub end_pc: usize,
    pub handler_pc: usize,
    pub catch_class: Option<usize>,
}

/// The `Code` attribute of a method.
#[derive(Clone, Debug)]
pub struct Code {
    pub code: Vec<u8>,
    pub max_stack: usize,
    pub max_locals: usize,
    pub exception_table: Vec<ExEntry>,
}

/// A method of a class.
#[derive(Clone, Debug)]
pub struct MethodInfo {
    pub name: Vec<u8>,
    pub descriptor: Vec<u8>,
    pub acc_flags: u16,
    pub code: Option<Code>,
}

/// A field of a class. `slot` indexes the instance layout for an instance
/// field and the class's static storage for a static one.
#[derive(Clone, Debug)]
pub struct FieldInfo {
    pub name: Vec<u8>,
    pub descriptor: Vec<u8>,
    pub acc_flags: u16,
    pub value_type: ValueType,
    pub slot: usize,
}

/// The three kinds of class.
#[derive(Clone, Copy, Debug, PartialEq, Eq, Structural)]
pub enum ClassKind {
    Instance,
    ObjectArray { component: usize },
    TypeArray { elem: ValueType },
}

/// The life cycle of a class.
#[derive(Clone, Copy, Debug, PartialEq, Eq, Structural)]
pub enum ClassState {
    Allocated,
    Linked,
    BeingInitialized,
    FullyInitialized,
    Erroneous,
}

/// The order of the life cycle; a class never moves back in it.
pub open spec fn state_rank(s: ClassState) -> int {
    match s {
        ClassState::Allocated => 0,
        ClassState::Linked => 1,
        ClassState::BeingInitialized => 2,
        ClassState::FullyInitialized => 3,
        ClassState::Erroneous => 3,
    }
}

pub const ACC_PUBLIC: u16 = 0x0001;
pub const ACC_PRIVATE: u16 = 0x0002;
pub const ACC_STATIC: u16 = 0x0008;
pub const ACC_FINAL: u16 = 0x0010;
pub const ACC_NATIVE: u16 = 0x0100;
pub const ACC_INTERFACE: u16 = 0x0200;
pub const ACC_ABSTRACT: u16 = 0x0400;

/// A loaded class.
#[derive(Clone, Debug)]
pub struct Class {
    /// Internal name, with `/` separators (`java/lang/String`, `[I`).
    pub name: Vec<u8>,
    pub acc_flags: u16,
    pub super_class: Option<usize>,
    pub interfaces: Vec<usize>,
    pub kind: ClassKind,
    pub state: ClassState,
    pub mirror: Option<usize>,
    pub cp: Vec<CpEntry>,
    pub fields: Vec<FieldInfo>,
    /// Type of each slot of an instance, fields of the super classes first.
    pub layout: Vec<ValueType>,
    pub static_values: Vec<Slot>,
    pub methods: Vec<MethodInfo>,
    /// The `EnclosingMethod` attribute: the class entry and the name-and-type
    /// entry (0 when there is none) in `cp`.
    pub enclosing_method: Option<(u16, u16)>,
    /// The `InnerClasses` attribute: pairs of inner and outer class entries
    /// in `cp` (0 when there is none).
    pub inner_classes: Vec<(u16, u16)>,
}

impl Class {
    /// A class with no members, of the given kind, in state `Linked`.
    pub fn plain(name: Vec<u8>, super_class: Option<usize>, kind: ClassKind, acc_flags: u16) -> (r: Class)
        ensures
            r.name@ == name@,
            r.super_class == super_class,
            r.interfaces@.len() == 0,
            r.kind == kind,
            r.acc_flags == acc_flags,
            r.state == ClassState::Linked,
            r.mirror is None,
            r.layout@.len() == 0,
            r.fields@.len() == 0,
            r.methods@.len() == 0,
            r.static_values@.len() == 0,
    {
        Class {
            name,
            acc_flags,
            super_class,
            interfaces: Vec::new(),
            kind,
            state: ClassState::Linked,
            mirror: None,
            cp: Vec::new(),
            fields: Vec::new(),
            layout: Vec::new(),
            static_values: Vec::new(),
            methods: Vec::new(),
            enclosing_method: None,
            inner_classes: Vec::new(),
        }
    }
}

/// Indices of the classes that the table is created with.
pub const OBJECT: usize = 0;
pub const STRING: usize = 1;
pub const CLASS: usize = 2;
pub const THROWABLE: usize = 3;
pub const EXCEPTION: usize = 4;
pub const RUNTIME_EXCEPTION: usize = 5;
pub const NULL_POINTER: usize = 6;
pub const INDEX_OUT_OF_BOUNDS: usize = 7;
pub const ARRAY_INDEX_OUT_OF_BOUNDS: usize = 8;
pub const ARITHMETIC: usize = 9;
pub const CLASS_CAST: usize = 10;
pub const NEGATIVE_ARRAY_SIZE: usize = 11;
pub const ARRAY_STORE: usize = 12;
pub const ILLEGAL_MONITOR_STATE: usize = 13;
pub const REFLECTIVE_OPERATION: usize = 14;
pub const CLASS_NOT_FOUND: usize = 15;
pub const OBJECT_ARRAY: usize = 16;
pub const REFLECT_FIELD: usize = 17;
pub const FIELD_ARRAY: usize = 18;
pub const REFLECT_CONSTRUCTOR: usize = 19;
pub const CONSTRUCTOR_ARRAY: usize = 20;
pub const BOOT_CLASSES: usize = 21;

/// Every class but `java/lang/Object` has a super class loaded before it;
/// interfaces and array components are loaded before the class as well.
pub open spec fn table_wf(cs: Seq<Class>) -> bool {
    &&& BOOT_CLASSES <= cs.len() <= usize::MAX
    &&& cs[OBJECT as int].super_class is None
    &&& forall|i: int| 0 < i < cs.len() ==> (#[trigger] cs[i].super_class matches Some(p) && p < i)
    &&& forall|i: int, k: int| 0 <= i < cs.len() && 0 <= k < cs[i].interfaces@.len()
        ==> #[trigger] cs[i].interfaces@[k] < i
    &&& forall|i: int| 0 <= i < cs.len() ==> (#[trigger] cs[i].kind matches ClassKind::ObjectArray { component } ==> component < i)
}

/// `s` is `t`, or a subclass of it, or implements it, or is an array type
/// whose component type is assignable to that of `t`.
pub open spec fn assignable(cs: Seq<Class>, s: int, t: int) -> bool
    decreases s, cs[s].interfaces@.len() + 1,
{
    if !(0 <= s < cs.len()) {
        false
    } else if s == t {
        true
    } else {
        let c = cs[s];
        let by_super = match c.super_class {
            Some(p) => p < s && assignable(cs, p as int, t),
            None => false,
        };
        let by_component = match c.kind {
            ClassKind::ObjectArray { component } => component < s && 0 <= t < cs.len()
                && match cs[t].kind {
                    ClassKind::ObjectArray { component: tc } => assignable(cs, component as int, tc as int),
                    _ => false,
                },
            _ => false,
        };
        by_super || via_interfaces(cs, s, t, c.interfaces@.len() as int) || by_component
    }
}

/// One of the first `k` direct interfaces of `s` is assignable to `t`.
pub open spec fn via_interfaces(cs: Seq<Class>, s: int, t: int, k: int) -> bool
    decreases s, k,
{
    if !(0 <= s < cs.len()) || k <= 0 || k > cs[s].interfaces@.len() {
        false
    } else {
        let i = cs[s].interfaces@[k - 1];
        (i < s && assignable(cs, i as int, t)) || via_interfaces(cs, s, t, k - 1)
    }
}

proof fn lemma_via_interfaces_grows(cs: Seq<Class>, s: int, t: int, k: int, m: int)
    requires
        0 <= s < cs.len(),
        0 < k <= m <= cs[s].interfaces@.len(),
        via_interfaces(cs, s, t, k),
    ensures
        via_interfaces(cs, s, t, m),
    decreases m - k,
{
    if k < m {
        lemma_via_interfaces_grows(cs, s, t, k, m - 1);
    }
}

/// The first class named `name` at or after `i`.
pub open spec fn lookup_class_from(cs: Seq<Class>, name: Seq<u8>, i: int) -> Option<usize>
    decreases cs.len() - i,
{
    if i < 0 || i >= cs.len() {
        None
    } else if cs[i].name@ == name {
        Some(i as usize)
    } else {
        lookup_class_from(cs, name, i + 1)
    }
}

/// The class named `name`: the first one in the table.
pub open spec fn lookup_class(cs: Seq<Class>, name: Seq<u8>) -> Option<usize> {
    lookup_class_from(cs, name, 0)
}

/// The name that the `Class` entry `i` of `cp` refers to.
pub open spec fn cp_class_name(cp: Seq<CpEntry>, i: int) -> Option<Seq<u8>> {
    if 0 <= i < cp.len() {
        match cp[i] {
            CpEntry::Class { name_index } => cp_utf8(cp, name_index as int),
            _ => None,
        }
    } else {
        None
    }
}

/// The text of the `Utf8` entry `i` of `cp`.
pub open spec fn cp_utf8(cp: Seq<CpEntry>, i: int) -> Option<Seq<u8>> {
    if 0 <= i < cp.len() {
        match cp[i] {
            CpEntry::Utf8(t) => Some(t@),
            _ => None,
        }
    } else {
        None
    }
}

/// The class, name and descriptor of the field or method reference `i`.
pub open spec fn cp_member(cp: Seq<CpEntry>, i: int) -> Option<(Seq<u8>, Seq<u8>, Seq<u8>)> {
    let idx: Option<(u16, u16)> = if 0 <= i < cp.len() {
        match cp[i] {
            CpEntry::FieldRef { class_index, name_and_type_index } => Some((class_index, name_and_type_index)),
            CpEntry::MethodRef { class_index, name_and_type_index } => Some((class_index, name_and_type_index)),
            CpEntry::InterfaceMethodRef { class_index, name_and_type_index } => Some((class_index, name_and_type_index)),
            _ => None,
        }
    } else {
        None
    };
    match idx {
        Some((ci, ni)) => {
            let nt: Option<(u16, u16)> = if (ni as int) < cp.len() {
                match cp[ni as int] {
                    CpEntry::NameAndType { name_index, descriptor_index } => Some((name_index, descriptor_index)),
                    _ => None,
                }
            } else {
                None
            };
            match (cp_class_name(cp, ci as int), nt) {
                (Some(cn), Some((n, d))) => match (cp_utf8(cp, n as int), cp_utf8(cp, d as int)) {
                    (Some(name), Some(desc)) => Some((cn, name, desc)),
                    _ => None,
                },
                _ => None,
            }
        },
        None => None,
    }
}

/// The class, name and descriptor of the field or method reference `i`.
pub fn member_at(cp: &Vec<CpEntry>, i: usize) -> (r: Option<(&Vec<u8>, &Vec<u8>, &Vec<u8>)>)
    ensures
        match r {
            Some((c, n, d)) => cp_member(cp@, i as int) == Some((c@, n@, d@)),
            None => cp_member(cp@, i as int) is None,
        },
{
    if i >= cp.len() {
        return None;
    }
    let (ci, ni) = match &cp[i] {
        CpEntry::FieldRef { class_index, name_and_type_index } => (*class_index, *name_and_type_index),
        CpEntry::MethodRef { class_index, name_and_type_index } => (*class_index, *name_and_type_index),
        CpEntry::InterfaceMethodRef { class_index, name_and_type_index } => (*class_index, *name_and_type_index),
        _ => {
            return None;
        },
    };
    if ni as usize >= cp.len() {
        return None;
    }
    let (n, d) = match &cp[ni as usize] {
        CpEntry::NameAndType { name_index, descriptor_index } => (*name_index, *descriptor_index),
        _ => {
            return None;
        },
    };
    match (class_name_at(cp, ci as usize), utf8_at(cp, n as usize), utf8_at(cp, d as usize)) {
        (Some(c), Some(name), Some(desc)) => Some((c, name, desc)),
        _ => None,
    }
}

/// The class that the `Class` entry `i` in the pool of class `owner` names.
pub open spec fn resolved_class(cs: Seq<Class>, owner: int, i: int) -> Option<usize> {
    if 0 <= owner < cs.len() {
        match cp_class_name(cs[owner].cp@, i) {
            Some(n) => lookup_class(cs, n),
            None => None,
        }
    } else {
        None
    }
}

/// The `Utf8` entry `i` of `cp`.
pub fn utf8_at(cp: &Vec<CpEntry>, i: usize) -> (r: Option<&Vec<u8>>)
    ensures
        match r {
            Some(t) => cp_utf8(cp@, i as int) == Some(t@),
            None => cp_utf8(cp@, i as int) is None,
        },
{
    if i >= cp.len() {
        return None;
    }
    match &cp[i] {
        CpEntry::Utf8(t) => Some(t),
        _ => None,
    }
}

/// The name that the `Class` entry `i` of `cp` refers to.
pub fn class_name_at(cp: &Vec<CpEntry>, i: usize) -> (r: Option<&Vec<u8>>)
    ensures
        match r {
            Some(t) => cp_class_name(cp@, i as int) == Some(t@),
            None => cp_class_name(cp@, i as int) is None,
        },
{
    if i >= cp.len() {
        return None;
    }
    match &cp[i] {
        CpEntry::Class { name_index } => utf8_at(cp, *name_index as usize),
        _ => None,
    }
}

/// `cs` begins with the classes the VM is created with: their names, super
/// classes and kinds.
pub open spec fn boot_table(cs: Seq<Class>) -> bool {
    &&& cs.len() >= BOOT_CLASSES
    &&& (cs[OBJECT as int].name@ == "java/lang/Object".spec_bytes() && cs[OBJECT as int].super_class is None)
    &&& (cs[STRING as int].name@ == "java/lang/String".spec_bytes() && cs[STRING as int].super_class == Some(OBJECT))
    &&& (cs[CLASS as int].name@ == "java/lang/Class".spec_bytes() && cs[CLASS as int].super_class == Some(OBJECT))
    &&& (cs[THROWABLE as int].name@ == "java/lang/Throwable".spec_bytes() && cs[THROWABLE as int].super_class == Some(OBJECT))
    &&& (cs[EXCEPTION as int].name@ == "java/lang/Exception".spec_bytes() && cs[EXCEPTION as int].super_class == Some(THROWABLE))
    &&& (cs[RUNTIME_EXCEPTION as int].name@ == "java/lang/RuntimeException".spec_bytes() && cs[RUNTIME_EXCEPTION as int].super_class == Some(EXCEPTION))
    &&& (cs[NULL_POINTER as int].name@ == "java/lang/NullPointerException".spec_bytes() && cs[NULL_POINTER as int].super_class == Some(RUNTIME_EXCEPTION))
    &&& (cs[INDEX_OUT_OF_BOUNDS as int].name@ == "java/lang/IndexOutOfBoundsException".spec_bytes() && cs[INDEX_OUT_OF_BOUNDS as int].super_class == Some(RUNTIME_EXCEPTION))
    &&& (cs[ARRAY_INDEX_OUT_OF_BOUNDS as int].name@ == "java/lang/ArrayIndexOutOfBoundsException".spec_bytes() && cs[ARRAY_INDEX_OUT_OF_BOUNDS as int].super_class == Some(INDEX_OUT_OF_BOUNDS))
    &&& (cs[ARITHMETIC as int].name@ == "java/lang/ArithmeticException".spec_bytes() && cs[ARITHMETIC as int].super_class == Some(RUNTIME_EXCEPTION))
    &&& (cs[CLASS_CAST as int].name@ == "java/lang/ClassCastException".spec_bytes() && cs[CLASS_CAST as int].super_class == Some(RUNTIME_EXCEPTION))
    &&& (cs[NEGATIVE_ARRAY_SIZE as int].name@ == "java/lang/NegativeArraySizeException".spec_bytes() && cs[NEGATIVE_ARRAY_SIZE as int].super_class == Some(RUNTIME_EXCEPTION))
    &&& (cs[ARRAY_STORE as int].name@ == "java/lang/ArrayStoreException".spec_bytes() && cs[ARRAY_STORE as int].super_class == Some(RUNTIME_EXCEPTION))
    &&& (cs[ILLEGAL_MONITOR_STATE as int].name@ == "java/lang/IllegalMonitorStateException".spec_bytes() && cs[ILLEGAL_MONITOR_STATE as int].super_class == Some(RUNTIME_EXCEPTION))
    &&& (cs[REFLECTIVE_OPERATION as int].name@ == "java/lang/ReflectiveOperationException".spec_bytes() && cs[REFLECTIVE_OPERATION as int].super_class == Some(EXCEPTION))
    &&& (cs[CLASS_NOT_FOUND as int].name@ == "java/lang/ClassNotFoundException".spec_bytes() && cs[CLASS_NOT_FOUND as int].super_class == Some(REFLECTIVE_OPERATION))
    &&& (cs[OBJECT_ARRAY as int].name@ == "[Ljava/lang/Object;".spec_bytes() && cs[OBJECT_ARRAY as int].super_class == Some(OBJECT))
    &&& (cs[REFLECT_FIELD as int].name@ == "java/lang/reflect/Field".spec_bytes() && cs[REFLECT_FIELD as int].super_class == Some(OBJECT))
    &&& (cs[FIELD_ARRAY as int].name@ == "[Ljava/lang/reflect/Field;".spec_bytes() && cs[FIELD_ARRAY as int].super_class == Some(OBJECT))
    &&& (cs[REFLECT_CONSTRUCTOR as int].name@ == "java/lang/reflect/Constructor".spec_bytes() && cs[REFLECT_CONSTRUCTOR as int].super_class == Some(OBJECT))
    &&& (cs[CONSTRUCTOR_ARRAY as int].name@ == "[Ljava/lang/reflect/Constructor;".spec_bytes() && cs[CONSTRUCTOR_ARRAY as int].super_class == Some(OBJECT))
    &&& (cs[OBJECT_ARRAY as int].kind == (ClassKind::ObjectArray { component: OBJECT }))
    &&& (cs[FIELD_ARRAY as int].kind == (ClassKind::ObjectArray { component: REFLECT_FIELD }))
    &&& (cs[CONSTRUCTOR_ARRAY as int].kind == (ClassKind::ObjectArray { component: REFLECT_CONSTRUCTOR }))
    &&& (forall|i: int| 0 <= i < BOOT_CLASSES && i != OBJECT_ARRAY && i != FIELD_ARRAY && i != CONSTRUCTOR_ARRAY
            ==> #[trigger] cs[i].kind == ClassKind::Instance)
}

/// The classes known to the VM, indexed by their position.
pub struct ClassTable {
    pub classes: Vec<Class>,
}

impl ClassTable {
    pub open spec fn wf(&self) -> bool {
        table_wf(self.classes@)
    }

    /// The table with `java/lang/Object`, `String`, `Class`, the exception
    /// classes that the interpreter raises, and the classes that reflection
    /// returns, at the indices named above.
    pub fn bootstrap() -> (r: ClassTable)
        ensures
            r.wf(),
            r.classes@.len() == BOOT_CLASSES,
            boot_table(r.classes@),
    {
        let mut classes: Vec<Class> = Vec::new();
        let k = ClassKind::Instance;
        let p = ACC_PUBLIC;
        classes.push(Class::plain("java/lang/Object".as_bytes_vec(), None, k, p));
        classes.push(Class::plain("java/lang/String".as_bytes_vec(), Some(OBJECT), k, p | ACC_FINAL));
        classes.push(Class::plain("java/lang/Class".as_bytes_vec(), Some(OBJECT), k, p | ACC_FINAL));
        classes.push(Class::plain("java/lang/Throwable".as_bytes_vec(), Some(OBJECT), k, p));
        classes.push(Class::plain("java/lang/Exception".as_bytes_vec(), Some(THROWABLE), k, p));
        classes.push(Class::plain("java/lang/RuntimeException".as_bytes_vec(), Some(EXCEPTION), k, p));
        classes.push(Class::plain("java/lang/NullPointerException".as_bytes_vec(), Some(RUNTIME_EXCEPTION), k, p));
        classes.push(Class::plain("java/lang/IndexOutOfBoundsException".as_bytes_vec(), Some(RUNTIME_EXCEPTION), k, p));
        classes.push(Class::plain("java/lang/ArrayIndexOutOfBoundsException".as_bytes_vec(), Some(INDEX_OUT_OF_BOUNDS), k, p));
        classes.push(Class::plain("java/lang/ArithmeticException".as_bytes_vec(), Some(RUNTIME_EXCEPTION), k, p));
        classes.push(Class::plain("java/lang/ClassCastException".as_bytes_vec(), Some(RUNTIME_EXCEPTION), k, p));
        classes.push(Class::plain("java/lang/NegativeArraySizeException".as_bytes_vec(), Some(RUNTIME_EXCEPTION), k, p));
        classes.push(Class::plain("java/lang/ArrayStoreException".as_bytes_vec(), Some(RUNTIME_EXCEPTION), k, p));
        classes.push(Class::plain("java/lang/IllegalMonitorStateException".as_bytes_vec(), Some(RUNTIME_EXCEPTION), k, p));
        classes.push(Class::plain("java/lang/ReflectiveOperationException".as_bytes_vec(), Some(EXCEPTION), k, p));
        classes.push(Class::plain("java/lang/ClassNotFoundException".as_bytes_vec(), Some(REFLECTIVE_OPERATION), k, p));
        classes.push(Class::plain("[Ljava/lang/Object;".as_bytes_vec(), Some(OBJECT), ClassKind::ObjectArray { component: OBJECT }, p | ACC_FINAL));
        classes.push(Class::plain("java/lang/reflect/Field".as_bytes_vec(), Some(OBJECT), k, p | ACC_FINAL));
        classes.push(Class::plain("[Ljava/lang/reflect/Field;".as_bytes_vec(), Some(OBJECT), ClassKind::ObjectArray { component: REFLECT_FIELD }, p | ACC_FINAL));
        classes.push(Class::plain("java/lang/reflect/Constructor".as_bytes_vec(), Some(OBJECT), k, p | ACC_FINAL));
        classes.push(Class::plain("[Ljava/lang/reflect/Constructor;".as_bytes_vec(), Some(OBJECT), ClassKind::ObjectArray { component: REFLECT_CONSTRUCTOR }, p | ACC_FINAL));
        ClassTable { classes }
    }

    /// Index of the class named `name`, if it is loaded.
    pub fn find(&self, name: &Vec<u8>) -> (r: Option<usize>)
        ensures
            r == lookup_class(self.classes@, name@),
            match r {
                Some(i) => i < self.classes@.len() && self.classes@[i as int].name@ == name@,
                None => forall|i: int| 0 <= i < self.classes@.len() ==> self.classes@[i].name@ != name@,
            },
    {
        let mut i: usize = 0;
        while i < self.classes.len()
            invariant
                i <= self.classes@.len(),
                forall|j: int| 0 <= j < i ==> self.classes@[j].name@ != name@,
                lookup_class(self.classes@, name@) == lookup_class_from(self.classes@, name@, i as int),
            decreases self.classes@.len() - i,
        {
            if bytes_eq(&self.classes[i].name, name) {
                return Some(i);
            }
            i += 1;
        }
        None
    }

    /// Sets static slot `slot` of class `k`.
    pub fn set_static(&mut self, k: usize, slot: usize, v: Slot)
        requires
            old(self).wf(),
            k < old(self).classes@.len(),
            slot < old(self).classes@[k as int].static_values@.len(),
        ensures
            final(self).wf(),
            final(self).classes@.len() == old(self).classes@.len(),
            forall|i: int| 0 <= i < old(self).classes@.len() && i != k ==> final(self).classes@[i] == old(self).classes@[i],
            final(self).classes@[k as int].static_values@ == old(self).classes@[k as int].static_values@.update(slot as int, v),
            final(self).classes@[k as int].state == old(self).classes@[k as int].state,
            final(self).classes@[k as int].name == old(self).classes@[k as int].name,
    {
        let c = &mut self.classes[k];
        c.static_values.set(slot, v);
        proof {
            let cs = self.classes@;
            assert forall|i: int, j: int| 0 <= i < cs.len() && 0 <= j < cs[i].interfaces@.len()
                implies #[trigger] cs[i].interfaces@[j] < i by {
                assert(cs[i].interfaces == old(self).classes@[i].interfaces);
            }
            assert forall|i: int| 0 < i < cs.len() implies (#[trigger] cs[i].super_class matches Some(p) && p < i) by {
                assert(cs[i].super_class == old(self).classes@[i].super_class);
            }
            assert forall|i: int| 0 <= i < cs.len() implies (#[trigger] cs[i].kind matches ClassKind::ObjectArray { component } ==> component < i) by {
                assert(cs[i].kind == old(self).classes@[i].kind);
            }
        }
    }

    /// The class that the `Class` entry `i` in the pool of class `owner` names.
    pub fn resolve(&self, owner: usize, i: usize) -> (r: Option<usize>)
        ensures
            r == resolved_class(self.classes@, owner as int, i as int),
            r matches Some(c) ==> c < self.classes@.len(),
    {
        if owner >= self.classes.len() {
            return None;
        }
        match class_name_at(&self.classes[owner].cp, i) {
            Some(n) => self.find(n),
            None => None,
        }
    }

    /// Adds a class whose super class, interfaces and component are already
    /// loaded, and returns its index.
    pub fn add(&mut self, c: Class) -> (r: usize)
        requires
            old(self).wf(),
            c.super_class matches Some(p) && p < old(self).classes@.len(),
            forall|k: int| 0 <= k < c.interfaces@.len() ==> c.interfaces@[k] < old(self).classes@.len(),
            c.kind matches ClassKind::ObjectArray { component } ==> component < old(self).classes@.len(),
        ensures
            final(self).wf(),
            r == old(self).classes@.len(),
            final(self).classes@ == old(self).classes@.push(c),
    {
        let r = self.classes.len();
        self.classes.push(c);
        let _n = self.classes.len();
        proof {
            let cs = self.classes@;
            assert forall|i: int, k: int| 0 <= i < cs.len() && 0 <= k < cs[i].interfaces@.len()
                implies #[trigger] cs[i].interfaces@[k] < i by {
                if i < r {
                    assert(cs[i] == old(self).classes@[i]);
                }
            }
            assert forall|i: int| 0 < i < cs.len() implies (#[trigger] cs[i].super_class matches Some(p) && p < i) by {
                if i < r {
                    assert(cs[i] == old(self).classes@[i]);
                }
            }
            assert forall|i: int| 0 <= i < cs.len() implies (#[trigger] cs[i].kind matches ClassKind::ObjectArray { component } ==> component < i) by {
                if i < r {
                    assert(cs[i] == old(self).classes@[i]);
                }
            }
        }
        r
    }

    /// Whether class `s` is assignable to class `t`: the same class, a
    /// subclass, an implementor, or a covariant array class.
    pub fn instance_of(&self, s: usize, t: usize) -> (r: bool)
        requires
            self.wf(),
            s < self.classes@.len(),
            t < self.classes@.len(),
        ensures
            r == assignable(self.classes@, s as int, t as int),
        decreases s,
    {
        if s == t {
            return true;
        }
        let c = &self.classes[s];
        if let Some(p) = c.super_class {
            if self.instance_of(p, t) {
                return true;
            }
        }
        let mut k: usize = 0;
        while k < c.interfaces.len()
            invariant
                self.wf(),
                s < self.classes@.len(),
                t < self.classes@.len(),
                s != t,
                c == self.classes@[s as int],
                k <= c.interfaces@.len(),
                !via_interfaces(self.classes@, s as int, t as int, k as int),
            decreases c.interfaces@.len() - k,
        {
            let i = c.interfaces[k];
            assert(i < s) by {
                assert(self.classes@[s as int].interfaces@[k as int] < s);
            }
            if self.instance_of(i, t) {
                proof {
                    assert(self.classes@[s as int].interfaces@[k as int] == i);
                    assert(via_interfaces(self.classes@, s as int, t as int, k as int + 1));
                    lemma_via_interfaces_grows(self.classes@, s as int, t as int, k + 1, c.interfaces@.len() as int);
                }
                return true;
            }
            k += 1;
        }
        if let ClassKind::ObjectArray { component } = c.kind {
            if let ClassKind::ObjectArray { component: tc } = self.classes[t].kind {
                assert(tc < t);
                return self.instance_of(component, tc);
            }
        }
        false
    }
}

/// Byte-wise equality of two names.
pub fn bytes_eq(a: &Vec<u8>, b: &Vec<u8>) -> (r: bool)
    ensures
        r == (a@ == b@),
{
    if a.len() != b.len() {
        return false;
    }
    let mut i: usize = 0;
    while i < a.len()
        invariant
            a@.len() == b@.len(),
            i <= a@.len(),
            forall|j: int| 0 <= j < i ==> a@[j] == b@[j],
        decreases a@.len() - i,
    {
        if a[i] != b[i] {
            return false;
        }
        i += 1;
    }
    assert(a@ =~= b@);
    true
}

/// Every class is assignable to itself and to `java/lang/Object`.
pub proof fn lemma_assignable_to_self_and_object(cs: Seq<Class>, c: int)
    requires
        table_wf(cs),
        0 <= c < cs.len(),
    ensures
        assignable(cs, c, c),
        assignable(cs, c, OBJECT as int),
    decreases c,
{
    if c != OBJECT as int {
        let p = cs[c].super_class->Some_0;
        assert(cs[c].super_class matches Some(q) && q < c);
        lemma_assignable_to_self_and_object(cs, p as int);
    }
}

} // verus!
