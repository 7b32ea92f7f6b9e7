//! Native methods: the registry keyed by class, name and descriptor, and the
//! dispatcher that runs them.
#[allow(non_snake_case)]
pub mod java_lang_Class;
#[allow(non_snake_case)]
pub mod java_lang_Double;
#[allow(non_snake_case)]
pub mod java_lang_Float;

use vstd::prelude::*;
use vstd::string::StringSliceAdditionalSpecFns;
use vstd::string::StrSliceExecFns;
use crate::class::bytes_eq;
use crate::class::{CONSTRUCTOR_ARRAY, FIELD_ARRAY, OBJECT_ARRAY, REFLECT_CONSTRUCTOR, REFLECT_FIELD, assignable, lookup_class, resolved_class, ClassKind, ACC_ABSTRACT, ACC_FINAL, ACC_INTERFACE, ACC_PUBLIC, CLASS_NOT_FOUND};
use crate::heap::ObjKind;
use crate::init::init_ready;
use crate::mirror::primitive_from;
use crate::native::java_lang_Class::{
    bool_value, constructors, declared_fields, declaring_from, is_string, members_allocated, mirror_at, mirror_value,
    name_and_type, primitive_name, query, reflect_ok, signature_of, slashed, string_at,
};
use crate::native::java_lang_Double::{double_of_bits, raw_long_bits};
use crate::native::java_lang_Float::{float_of_bits, raw_int_bits};
use crate::ops_object::dotted;
use crate::thread::{instance_test, raised, JavaThread};
use crate::value::descriptor_letter;
use crate::value::{Slot, VmError};

verus! {

/// The native methods this VM provides.
#[derive(Clone, Copy, Debug, PartialEq, Eq, Structural)]
pub enum NativeFn {
    RegisterNatives,
    DesiredAssertionStatus0,
    GetPrimitiveClass,
    GetDeclaredFields0,
    GetDeclaredConstructors0,
    GetName0,
    ForName0,
    IsPrimitive,
    IsAssignableFrom,
    IsInterface,
    GetModifiers,
    GetSuperclass,
    IsArray,
    GetComponentType,
    GetEnclosingMethod0,
    GetDeclaringClass0,
    IsInstance,
    DoubleToRawLongBits,
    LongBitsToDouble,
    FloatToRawIntBits,
    IntBitsToFloat,
}

/// One registry entry: a method name and descriptor and what implements it.
pub struct JNINativeMethod {
    pub name: Vec<u8>,
    pub desc: Vec<u8>,
    pub f: NativeFn,
}

/// What a native method did.
#[derive(Clone, Copy, Debug, PartialEq, Eq, Structural)]
pub enum NativeOutcome {
    /// It returned a value.
    Value(Slot),
    /// It returned nothing.
    Void,
    /// It threw the exception object at this reference.
    Thrown(usize),
    /// Class `c` must be initialized before it can run; nothing was changed.
    NeedInit(usize),
}

pub fn new_fn(name: &str, desc: &str, f: NativeFn) -> (r: JNINativeMethod)
    ensures
        r.name@ == name.spec_bytes(),
        r.desc@ == desc.spec_bytes(),
        r.f == f,
{
    JNINativeMethod { name: name.as_bytes_vec(), desc: desc.as_bytes_vec(), f }
}

/// The entry of `ms` from `i` on with the given name and descriptor.
pub open spec fn native_from(ms: Seq<JNINativeMethod>, name: Seq<u8>, desc: Seq<u8>, i: int) -> Option<NativeFn>
    decreases ms.len() - i,
{
    if i < 0 || i >= ms.len() {
        None
    } else if ms[i].name@ == name && ms[i].desc@ == desc {
        Some(ms[i].f)
    } else {
        native_from(ms, name, desc, i + 1)
    }
}

/// The entry of `ms` with the given name and descriptor.
pub fn find_native(ms: &Vec<JNINativeMethod>, name: &Vec<u8>, desc: &Vec<u8>) -> (r: Option<NativeFn>)
    ensures
        r == native_from(ms@, name@, desc@, 0),
{
    let mut i: usize = 0;
    while i < ms.len()
        invariant
            i <= ms@.len(),
            native_from(ms@, name@, desc@, 0) == native_from(ms@, name@, desc@, i as int),
        decreases ms@.len() - i,
    {
        if bytes_eq(&ms[i].name, name) && bytes_eq(&ms[i].desc, desc) {
            return Some(ms[i].f);
        }
        i += 1;
    }
    None
}

/// The natives of the classes that have some, by internal class name.
pub struct NativeRegistry {
    pub classes: Vec<(Vec<u8>, Vec<JNINativeMethod>)>,
}

/// The native for `name : desc` of class `class_name`, searching from entry `i`.
pub open spec fn registry_from(rs: Seq<(Vec<u8>, Vec<JNINativeMethod>)>, class_name: Seq<u8>, name: Seq<u8>, desc: Seq<u8>, i: int) -> Option<NativeFn>
    decreases rs.len() - i,
{
    if i < 0 || i >= rs.len() {
        None
    } else if rs[i].0@ == class_name {
        native_from(rs[i].1@, name, desc, 0)
    } else {
        registry_from(rs, class_name, name, desc, i + 1)
    }
}

impl NativeRegistry {
    /// The registry with the natives of `java/lang/Class`, `java/lang/Double`
    /// and `java/lang/Float`.
    pub fn standard() -> (r: NativeRegistry)
        ensures
            r.classes@.len() == 3,
            r.classes@[0].0@ == "java/lang/Class".spec_bytes(),
            r.classes@[1].0@ == "java/lang/Double".spec_bytes(),
            r.classes@[2].0@ == "java/lang/Float".spec_bytes(),
    {
        let mut classes = Vec::new();
        classes.push(("java/lang/Class".as_bytes_vec(), java_lang_Class::get_native_methods()));
        classes.push(("java/lang/Double".as_bytes_vec(), java_lang_Double::get_native_methods()));
        classes.push(("java/lang/Float".as_bytes_vec(), java_lang_Float::get_native_methods()));
        NativeRegistry { classes }
    }

    /// The native implementing method `name : desc` of class `class_name`.
    pub fn lookup(&self, class_name: &Vec<u8>, name: &Vec<u8>, desc: &Vec<u8>) -> (r: Option<NativeFn>)
        ensures
            r == registry_from(self.classes@, class_name@, name@, desc@, 0),
    {
        let mut i: usize = 0;
        while i < self.classes.len()
            invariant
                i <= self.classes@.len(),
                registry_from(self.classes@, class_name@, name@, desc@, 0)
                    == registry_from(self.classes@, class_name@, name@, desc@, i as int),
            decreases self.classes@.len() - i,
        {
            if bytes_eq(&self.classes[i].0, class_name) {
                return find_native(&self.classes[i].1, name, desc);
            }
            i += 1;
        }
        None
    }
}

/// Runs native `f` on `args`.
pub fn call_native(thread: &mut JavaThread, f: NativeFn, args: &Vec<Slot>) -> (r: Result<NativeOutcome, VmError>)
    requires
        old(thread).wf(),
    ensures
        f == NativeFn::RegisterNatives ==> ((query(*old(thread), *final(thread), r, true, NativeOutcome::Void))),
        f == NativeFn::DesiredAssertionStatus0 ==> ((query(*old(thread), *final(thread), r, true, bool_value(false)))),
        f == NativeFn::IsPrimitive ==> ((query(*old(thread), *final(thread), r, mirror_at(*old(thread), args@, 0) is Some,
                bool_value(mirror_at(*old(thread), args@, 0)->Some_0.0 is None)))),
        f == NativeFn::IsArray ==> ((query(*old(thread), *final(thread), r, mirror_at(*old(thread), args@, 0) is Some,
                bool_value(match mirror_at(*old(thread), args@, 0)->Some_0.0 {
                    Some(c) => !(old(thread).classes.classes@[c as int].kind is Instance),
                    None => false,
                })))),
        f == NativeFn::IsInterface ==> ((query(*old(thread), *final(thread), r, mirror_at(*old(thread), args@, 0) is Some,
                bool_value(match mirror_at(*old(thread), args@, 0)->Some_0.0 {
                    Some(c) => old(thread).classes.classes@[c as int].acc_flags & ACC_INTERFACE != 0,
                    None => false,
                })))),
        f == NativeFn::GetModifiers ==> ((query(*old(thread), *final(thread), r, mirror_at(*old(thread), args@, 0) is Some,
                NativeOutcome::Value(Slot::Int(match mirror_at(*old(thread), args@, 0)->Some_0.0 {
                    Some(c) => old(thread).classes.classes@[c as int].acc_flags as i32,
                    None => (ACC_ABSTRACT | ACC_FINAL | ACC_PUBLIC) as i32,
                }))))),
        f == NativeFn::GetSuperclass ==> ((query(*old(thread), *final(thread), r, mirror_at(*old(thread), args@, 0) is Some,
                NativeOutcome::Value(match mirror_at(*old(thread), args@, 0)->Some_0.0 {
                    Some(c) => match old(thread).classes.classes@[c as int].super_class {
                        Some(p) => mirror_value(*old(thread), p as int),
                        None => Slot::Null,
                    },
                    None => Slot::Null,
                })))),
        f == NativeFn::GetComponentType ==> ((query(*old(thread), *final(thread), r, mirror_at(*old(thread), args@, 0) is Some,
                NativeOutcome::Value(match mirror_at(*old(thread), args@, 0)->Some_0.0 {
                    Some(c) => match old(thread).classes.classes@[c as int].kind {
                        ClassKind::TypeArray { elem } => match primitive_from(old(thread).mirrors.primitives@,
                            seq![descriptor_letter(elem)], 0) {
                            Some(m) => Slot::Ref(m),
                            None => Slot::Null,
                        },
                        ClassKind::ObjectArray { component } => mirror_value(*old(thread), component as int),
                        ClassKind::Instance => Slot::Null,
                    },
                    None => Slot::Null,
                })))),
        f == NativeFn::IsAssignableFrom ==> ((query(*old(thread), *final(thread), r,
                mirror_at(*old(thread), args@, 0) is Some && mirror_at(*old(thread), args@, 1) is Some,
                bool_value(match (mirror_at(*old(thread), args@, 0)->Some_0, mirror_at(*old(thread), args@, 1)->Some_0) {
                    ((None, lt), (None, rt)) => lt == rt,
                    ((Some(l), _), (Some(r), _)) => assignable(old(thread).classes.classes@, r as int, l as int),
                    _ => false,
                })))),
        f == NativeFn::IsInstance ==> ((({
                let t = *old(thread);
                let ok = mirror_at(t, args@, 0) is Some && args@.len() >= 2 && args@[1].is_reference()
                    && (args@[1] matches Slot::Ref(p) ==> p < t.heap.objs@.len());
                query(t, *final(thread), r, ok, bool_value(match (mirror_at(t, args@, 0)->Some_0.0, args@[1]) {
                    (Some(c), Slot::Ref(p)) => instance_test(t.classes.classes@, t.heap.objs@[p as int], c as int),
                    _ => false,
                }))
            }))),
        f == NativeFn::GetPrimitiveClass ==> ((({
                let t = *old(thread);
                let key = signature_of(string_at(t, args@, 0)->Some_0);
                query(t, *final(thread), r, string_at(t, args@, 0) is Some && key is Some,
                    NativeOutcome::Value(match primitive_from(t.mirrors.primitives@, seq![key->Some_0], 0) {
                        Some(m) => Slot::Ref(m),
                        None => Slot::Null,
                    }))
            }))),
        f == NativeFn::GetName0 ==> ((final(thread).wf())
            && (({
                let t = *old(thread);
                let m = mirror_at(t, args@, 0);
                &&& (r is Ok <==> m is Some)
                &&& (r is Err ==> *final(thread) == t)
                &&& (r is Ok ==> {
                    &&& r == Ok::<NativeOutcome, VmError>(NativeOutcome::Value(Slot::Ref(t.heap.objs@.len() as usize)))
                    &&& *final(thread) == (JavaThread { heap: final(thread).heap, ..t })
                    &&& final(thread).heap.objs@.drop_last() == t.heap.objs@
                    &&& final(thread).heap.objs@.len() == t.heap.objs@.len() + 1
                    &&& final(thread).heap.objs@.last().kind matches ObjKind::Str { text } && text@ == match m->Some_0 {
                        (Some(c), _) => dotted(t.classes.classes@[c as int].name@),
                        (None, vt) => primitive_name(vt),
                    }
                })
            }))),
        f == NativeFn::ForName0 ==> ((final(thread).wf())
            && (({
                let t = *old(thread);
                let cs = t.classes.classes@;
                let found = lookup_class(cs, slashed(string_at(t, args@, 0)->Some_0));
                &&& (r is Ok <==> string_at(t, args@, 0) is Some && args@.len() >= 3 && args@[2] is Null)
                &&& (r is Err ==> *final(thread) == t)
                &&& (r is Ok ==> match found {
                    None => r matches Ok(NativeOutcome::Thrown(e)) && raised(t, *final(thread), CLASS_NOT_FOUND, None)
                        && e == t.heap.objs@.len(),
                    Some(c) => *final(thread) == t && if init_ready(cs, c as int) {
                        r == Ok::<NativeOutcome, VmError>(NativeOutcome::Value(mirror_value(t, c as int)))
                    } else {
                        r == Ok::<NativeOutcome, VmError>(NativeOutcome::NeedInit(c))
                    },
                })
            }))),
        f == NativeFn::GetDeclaringClass0 ==> ((query(*old(thread), *final(thread), r, mirror_at(*old(thread), args@, 0) is Some,
                NativeOutcome::Value(match mirror_at(*old(thread), args@, 0)->Some_0.0 {
                    Some(c) => if old(thread).classes.classes@[c as int].kind is Instance {
                        declaring_from(*old(thread), c as int, 0)
                    } else {
                        Slot::Null
                    },
                    None => Slot::Null,
                })))),
        f == NativeFn::GetEnclosingMethod0 ==> ((final(thread).wf())
            && (final(thread).classes == old(thread).classes)
            && (final(thread).heap.objs@.len() >= old(thread).heap.objs@.len())
            && (r is Err ==> *final(thread) == *old(thread))
            && (({
                let t = *old(thread);
                let cs = t.classes.classes@;
                match mirror_at(t, args@, 0) {
                    None => r is Err,
                    Some((None, _)) => r == Ok::<NativeOutcome, VmError>(NativeOutcome::Value(Slot::Null)),
                    Some((Some(c), _)) => match cs[c as int].enclosing_method {
                        None => r == Ok::<NativeOutcome, VmError>(NativeOutcome::Value(Slot::Null)),
                        Some((ci, nti)) => {
                            let ok = resolved_class(cs, c as int, ci as int) is Some
                                && (nti != 0 ==> name_and_type(cs[c as int].cp@, nti as int) is Some);
                            &&& (r is Ok <==> ok)
                            &&& (r is Ok ==> {
                                let objs = final(thread).heap.objs@;
                                let ec = resolved_class(cs, c as int, ci as int)->Some_0;
                                &&& r matches Ok(NativeOutcome::Value(Slot::Ref(p)))
                                &&& t.heap.objs@.len() <= p < objs.len()
                                &&& forall|i: int| 0 <= i < t.heap.objs@.len() ==> objs[i] == t.heap.objs@[i]
                                &&& objs[p as int].kind matches ObjKind::Array { class, elements }
                                &&& class == OBJECT_ARRAY
                                &&& elements@.len() == 3
                                &&& elements@[0] == mirror_value(t, ec as int)
                                &&& (nti == 0 ==> elements@[1] == Slot::Null && elements@[2] == Slot::Null)
                                &&& (nti != 0 ==> {
                                    let (n, d) = name_and_type(cs[c as int].cp@, nti as int)->Some_0;
                                    is_string(*final(thread), elements@[1], n) && is_string(*final(thread), elements@[2], d)
                                })
                            })
                        },
                    },
                }
            }))),
        f == NativeFn::GetDeclaredFields0 ==> ((final(thread).wf())
            && (({
                let t = *old(thread);
                let cs = t.classes.classes@;
                &&& (r is Ok <==> reflect_ok(t, args@))
                &&& (r is Err ==> *final(thread) == t)
                &&& (r is Ok ==> {
                    let c = mirror_at(t, args@, 0)->Some_0.0->Some_0;
                    &&& r matches Ok(NativeOutcome::Value(Slot::Ref(p)))
                    &&& members_allocated(t, *final(thread), p, FIELD_ARRAY, REFLECT_FIELD,
                        c, declared_fields(cs[c as int].fields@, args@[1]->Int_0 == 1))
                })
            }))),
        f == NativeFn::GetDeclaredConstructors0 ==> ((final(thread).wf())
            && (({
                let t = *old(thread);
                let cs = t.classes.classes@;
                &&& (r is Ok <==> reflect_ok(t, args@))
                &&& (r is Err ==> *final(thread) == t)
                &&& (r is Ok ==> {
                    let c = mirror_at(t, args@, 0)->Some_0.0->Some_0;
                    let ms = cs[c as int].methods@;
                    &&& r matches Ok(NativeOutcome::Value(Slot::Ref(p)))
                    &&& members_allocated(t, *final(thread), p, CONSTRUCTOR_ARRAY, REFLECT_CONSTRUCTOR,
                        c, constructors(ms, ms.len() as int))
                })
            }))),
        f == NativeFn::DoubleToRawLongBits ==> ((match r {
                Ok(o) => args@.len() >= 1 && args@[0] is Double
                    && o == NativeOutcome::Value(Slot::Long(raw_long_bits(args@[0]->Double_0))),
                Err(_) => !(args@.len() >= 1 && args@[0] is Double),
            })
            && *final(thread) == *old(thread)),
        f == NativeFn::LongBitsToDouble ==> ((match r {
                Ok(o) => args@.len() >= 1 && args@[0] is Long
                    && o == NativeOutcome::Value(Slot::Double(double_of_bits(args@[0]->Long_0))),
                Err(_) => !(args@.len() >= 1 && args@[0] is Long),
            })
            && *final(thread) == *old(thread)),
        f == NativeFn::FloatToRawIntBits ==> ((match r {
                Ok(o) => args@.len() >= 1 && args@[0] is Float
                    && o == NativeOutcome::Value(Slot::Int(raw_int_bits(args@[0]->Float_0))),
                Err(_) => !(args@.len() >= 1 && args@[0] is Float),
            })
            && *final(thread) == *old(thread)),
        f == NativeFn::IntBitsToFloat ==> ((match r {
                Ok(o) => args@.len() >= 1 && args@[0] is Int
                    && o == NativeOutcome::Value(Slot::Float(float_of_bits(args@[0]->Int_0))),
                Err(_) => !(args@.len() >= 1 && args@[0] is Int),
            })
            && *final(thread) == *old(thread)),
        final(thread).wf(),
        r is Err ==> *final(thread) == *old(thread),
        r matches Ok(NativeOutcome::NeedInit(_)) ==> *final(thread) == *old(thread),
        final(thread).classes == old(thread).classes,
        final(thread).heap.objs@.len() >= old(thread).heap.objs@.len(),
{
    match f {
        NativeFn::RegisterNatives => java_lang_Class::jvm_registerNatives(thread, args),
        NativeFn::DesiredAssertionStatus0 => java_lang_Class::jvm_desiredAssertionStatus0(thread, args),
        NativeFn::GetPrimitiveClass => java_lang_Class::jvm_getPrimitiveClass(thread, args),
        NativeFn::GetDeclaredFields0 => java_lang_Class::jvm_getDeclaredFields0(thread, args),
        NativeFn::GetDeclaredConstructors0 => java_lang_Class::jvm_getDeclaredConstructors0(thread, args),
        NativeFn::GetName0 => java_lang_Class::jvm_getName0(thread, args),
        NativeFn::ForName0 => java_lang_Class::jvm_forName0(thread, args),
        NativeFn::IsPrimitive => java_lang_Class::jvm_isPrimitive(thread, args),
        NativeFn::IsAssignableFrom => java_lang_Class::jvm_isAssignableFrom(thread, args),
        NativeFn::IsInterface => java_lang_Class::jvm_isInterface(thread, args),
        NativeFn::GetModifiers => java_lang_Class::jvm_getModifiers(thread, args),
        NativeFn::GetSuperclass => java_lang_Class::jvm_getSuperclass(thread, args),
        NativeFn::IsArray => java_lang_Class::jvm_isArray(thread, args),
        NativeFn::GetComponentType => java_lang_Class::jvm_getComponentType(thread, args),
        NativeFn::GetEnclosingMethod0 => java_lang_Class::jvm_getEnclosingMethod0(thread, args),
        NativeFn::GetDeclaringClass0 => java_lang_Class::jvm_getDeclaringClass0(thread, args),
        NativeFn::IsInstance => java_lang_Class::jvm_isInstance(thread, args),
        NativeFn::DoubleToRawLongBits => java_lang_Double::jvm_doubleToRawLongBits(args),
        NativeFn::LongBitsToDouble => java_lang_Double::jvm_longBitsToDouble(args),
        NativeFn::FloatToRawIntBits => java_lang_Float::jvm_floatToRawIntBits(args),
        NativeFn::IntBitsToFloat => java_lang_Float::jvm_intBitsToFloat(args),
    }
}

} // verus!
