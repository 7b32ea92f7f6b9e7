//! Natives of `java.lang.Class`: reflective queries on class mirrors.
use vstd::prelude::*;
use vstd::string::StringSliceAdditionalSpecFns;
use vstd::string::StrSliceExecFns;
use crate::class::{
    CONSTRUCTOR_ARRAY, FIELD_ARRAY, OBJECT_ARRAY, REFLECT_CONSTRUCTOR, REFLECT_FIELD, FieldInfo, MethodInfo, ACC_STATIC, assignable, bytes_eq, cp_utf8, lookup_class, resolved_class, ClassKind, CpEntry, ACC_ABSTRACT,
    ACC_FINAL, ACC_INTERFACE, ACC_PUBLIC, CLASS_NOT_FOUND,
};
use crate::heap::ObjKind;
use crate::init::init_ready;
use crate::mirror::{get_primitive_class_mirror, primitive_from};
use crate::native::{new_fn, JNINativeMethod, NativeFn, NativeOutcome};
use crate::ops_object::{dotted, push_dotted};
use crate::thread::{instance_test, obj_class, raised, JavaThread};
use crate::value::{descriptor_letter, Slot, ValueType, VmError};

verus! {

pub fn get_native_methods() -> (r: Vec<JNINativeMethod>)
    ensures
        r@.len() == 17,
        r@[0].name@ == "registerNatives".spec_bytes() && r@[0].desc@ == "()V".spec_bytes()
            && r@[0].f == NativeFn::RegisterNatives,
        r@[1].name@ == "desiredAssertionStatus0".spec_bytes() && r@[1].desc@ == "(Ljava/lang/Class;)Z".spec_bytes()
            && r@[1].f == NativeFn::DesiredAssertionStatus0,
        r@[2].name@ == "getPrimitiveClass".spec_bytes() && r@[2].desc@ == "(Ljava/lang/String;)Ljava/lang/Class;".spec_bytes()
            && r@[2].f == NativeFn::GetPrimitiveClass,
        r@[3].name@ == "getDeclaredFields0".spec_bytes() && r@[3].desc@ == "(Z)[Ljava/lang/reflect/Field;".spec_bytes()
            && r@[3].f == NativeFn::GetDeclaredFields0,
        r@[4].name@ == "getName0".spec_bytes() && r@[4].desc@ == "()Ljava/lang/String;".spec_bytes()
            && r@[4].f == NativeFn::GetName0,
        r@[5].name@ == "forName0".spec_bytes() && r@[5].desc@ == "(Ljava/lang/String;ZLjava/lang/ClassLoader;Ljava/lang/Class;)Ljava/lang/Class;".spec_bytes()
            && r@[5].f == NativeFn::ForName0,
        r@[6].name@ == "isPrimitive".spec_bytes() && r@[6].desc@ == "()Z".spec_bytes()
            && r@[6].f == NativeFn::IsPrimitive,
        r@[7].name@ == "isAssignableFrom".spec_bytes() && r@[7].desc@ == "(Ljava/lang/Class;)Z".spec_bytes()
            && r@[7].f == NativeFn::IsAssignableFrom,
        r@[8].name@ == "isInterface".spec_bytes() && r@[8].desc@ == "()Z".spec_bytes()
            && r@[8].f == NativeFn::IsInterface,
        r@[9].name@ == "getDeclaredConstructors0".spec_bytes() && r@[9].desc@ == "(Z)[Ljava/lang/reflect/Constructor;".spec_bytes()
            && r@[9].f == NativeFn::GetDeclaredConstructors0,
        r@[10].name@ == "getModifiers".spec_bytes() && r@[10].desc@ == "()I".spec_bytes()
            && r@[10].f == NativeFn::GetModifiers,
        r@[11].name@ == "getSuperclass".spec_bytes() && r@[11].desc@ == "()Ljava/lang/Class;".spec_bytes()
            && r@[11].f == NativeFn::GetSuperclass,
        r@[12].name@ == "isArray".spec_bytes() && r@[12].desc@ == "()Z".spec_bytes()
            && r@[12].f == NativeFn::IsArray,
        r@[13].name@ == "getComponentType".spec_bytes() && r@[13].desc@ == "()Ljava/lang/Class;".spec_bytes()
            && r@[13].f == NativeFn::GetComponentType,
        r@[14].name@ == "getEnclosingMethod0".spec_bytes() && r@[14].desc@ == "()[Ljava/lang/Object;".spec_bytes()
            && r@[14].f == NativeFn::GetEnclosingMethod0,
        r@[15].name@ == "getDeclaringClass0".spec_bytes() && r@[15].desc@ == "()Ljava/lang/Class;".spec_bytes()
            && r@[15].f == NativeFn::GetDeclaringClass0,
        r@[16].name@ == "isInstance".spec_bytes() && r@[16].desc@ == "(Ljava/lang/Object;)Z".spec_bytes()
            && r@[16].f == NativeFn::IsInstance,
{
    vec![
        new_fn("registerNatives", "()V", NativeFn::RegisterNatives),
        new_fn("desiredAssertionStatus0", "(Ljava/lang/Class;)Z", NativeFn::DesiredAssertionStatus0),
        new_fn("getPrimitiveClass", "(Ljava/lang/String;)Ljava/lang/Class;", NativeFn::GetPrimitiveClass),
        new_fn("getDeclaredFields0", "(Z)[Ljava/lang/reflect/Field;", NativeFn::GetDeclaredFields0),
        new_fn("getName0", "()Ljava/lang/String;", NativeFn::GetName0),
        new_fn("forName0", "(Ljava/lang/String;ZLjava/lang/ClassLoader;Ljava/lang/Class;)Ljava/lang/Class;", NativeFn::ForName0),
        new_fn("isPrimitive", "()Z", NativeFn::IsPrimitive),
        new_fn("isAssignableFrom", "(Ljava/lang/Class;)Z", NativeFn::IsAssignableFrom),
        new_fn("isInterface", "()Z", NativeFn::IsInterface),
        new_fn("getDeclaredConstructors0", "(Z)[Ljava/lang/reflect/Constructor;", NativeFn::GetDeclaredConstructors0),
        new_fn("getModifiers", "()I", NativeFn::GetModifiers),
        new_fn("getSuperclass", "()Ljava/lang/Class;", NativeFn::GetSuperclass),
        new_fn("isArray", "()Z", NativeFn::IsArray),
        new_fn("getComponentType", "()Ljava/lang/Class;", NativeFn::GetComponentType),
        new_fn("getEnclosingMethod0", "()[Ljava/lang/Object;", NativeFn::GetEnclosingMethod0),
        new_fn("getDeclaringClass0", "()Ljava/lang/Class;", NativeFn::GetDeclaringClass0),
        new_fn("isInstance", "(Ljava/lang/Object;)Z", NativeFn::IsInstance),
    ]
}

/// Argument `i` is a mirror whose target, if any, is a loaded class: its
/// target and value type.
pub open spec fn mirror_at(t: JavaThread, args: Seq<Slot>, i: int) -> Option<(Option<usize>, ValueType)> {
    if 0 <= i < args.len() && args[i] is Ref && args[i]->Ref_0 < t.heap.objs@.len() {
        match t.heap.objs@[args[i]->Ref_0 as int].kind {
            ObjKind::Mirror { target, value_type } => match target {
                Some(c) => if c < t.classes.classes@.len() { Some((target, value_type)) } else { None },
                None => Some((target, value_type)),
            },
            _ => None,
        }
    } else {
        None
    }
}

/// The mirror of class `c` as a value: `null` when it has none yet.
pub open spec fn mirror_value(t: JavaThread, c: int) -> Slot {
    match t.classes.classes@[c].mirror {
        Some(m) => Slot::Ref(m),
        None => Slot::Null,
    }
}

pub open spec fn bool_value(b: bool) -> NativeOutcome {
    NativeOutcome::Value(Slot::Int(if b { 1i32 } else { 0i32 }))
}

/// An outcome computed from argument mirrors: `Err` exactly when they are
/// not mirrors, and the thread is left as it is.
pub open spec fn query(t0: JavaThread, t1: JavaThread, r: Result<NativeOutcome, VmError>, ok: bool, v: NativeOutcome) -> bool {
    &&& t1 == t0
    &&& (r is Ok <==> ok)
    &&& (r is Ok ==> r == Ok::<NativeOutcome, VmError>(v))
}

fn mirror_arg(thread: &JavaThread, args: &Vec<Slot>, i: usize) -> (r: Option<(Option<usize>, ValueType)>)
    ensures
        r == mirror_at(*thread, args@, i as int),
{
    if i >= args.len() {
        return None;
    }
    match args[i] {
        Slot::Ref(p) => {
            if p >= thread.heap.objs.len() {
                return None;
            }
            match &thread.heap.objs[p].kind {
                ObjKind::Mirror { target, value_type } => match target {
                    Some(c) => if *c < thread.classes.classes.len() { Some((Some(*c), *value_type)) } else { None },
                    None => Some((None, *value_type)),
                },
                _ => None,
            }
        },
        _ => None,
    }
}

fn mirror_of(thread: &JavaThread, c: usize) -> (r: Slot)
    requires
        c < thread.classes.classes@.len(),
    ensures
        r == mirror_value(*thread, c as int),
{
    match thread.classes.classes[c].mirror {
        Some(m) => Slot::Ref(m),
        None => Slot::Null,
    }
}

pub fn jvm_registerNatives(thread: &mut JavaThread, args: &Vec<Slot>) -> (r: Result<NativeOutcome, VmError>)
    ensures
        query(*old(thread), *final(thread), r, true, NativeOutcome::Void),
{
    Ok(NativeOutcome::Void)
}

/// Assertions are disabled: always `false`.
pub fn jvm_desiredAssertionStatus0(thread: &mut JavaThread, args: &Vec<Slot>) -> (r: Result<NativeOutcome, VmError>)
    ensures
        query(*old(thread), *final(thread), r, true, bool_value(false)),
{
    Ok(NativeOutcome::Value(Slot::Int(0)))
}

/// `true` for the mirror of a primitive type.
pub fn jvm_isPrimitive(thread: &mut JavaThread, args: &Vec<Slot>) -> (r: Result<NativeOutcome, VmError>)
    ensures
        query(*old(thread), *final(thread), r, mirror_at(*old(thread), args@, 0) is Some,
            bool_value(mirror_at(*old(thread), args@, 0)->Some_0.0 is None)),
{
    match mirror_arg(thread, args, 0) {
        Some((t, _)) => Ok(NativeOutcome::Value(Slot::Int(if t.is_none() { 1 } else { 0 }))),
        None => Err(VmError::BadObject),
    }
}

/// `true` for the mirror of an array class.
pub fn jvm_isArray(thread: &mut JavaThread, args: &Vec<Slot>) -> (r: Result<NativeOutcome, VmError>)
    ensures
        query(*old(thread), *final(thread), r, mirror_at(*old(thread), args@, 0) is Some,
            bool_value(match mirror_at(*old(thread), args@, 0)->Some_0.0 {
                Some(c) => !(old(thread).classes.classes@[c as int].kind is Instance),
                None => false,
            })),
{
    match mirror_arg(thread, args, 0) {
        Some((Some(c), _)) => {
            let a = !matches!(thread.classes.classes[c].kind, ClassKind::Instance);
            Ok(NativeOutcome::Value(Slot::Int(if a { 1 } else { 0 })))
        },
        Some((None, _)) => Ok(NativeOutcome::Value(Slot::Int(0))),
        None => Err(VmError::BadObject),
    }
}

/// `true` for the mirror of an interface.
pub fn jvm_isInterface(thread: &mut JavaThread, args: &Vec<Slot>) -> (r: Result<NativeOutcome, VmError>)
    ensures
        query(*old(thread), *final(thread), r, mirror_at(*old(thread), args@, 0) is Some,
            bool_value(match mirror_at(*old(thread), args@, 0)->Some_0.0 {
                Some(c) => old(thread).classes.classes@[c as int].acc_flags & ACC_INTERFACE != 0,
                None => false,
            })),
{
    match mirror_arg(thread, args, 0) {
        Some((Some(c), _)) => {
            let a = thread.classes.classes[c].acc_flags & ACC_INTERFACE != 0;
            Ok(NativeOutcome::Value(Slot::Int(if a { 1 } else { 0 })))
        },
        Some((None, _)) => Ok(NativeOutcome::Value(Slot::Int(0))),
        None => Err(VmError::BadObject),
    }
}

/// The access flags of the class; `public abstract final` for a primitive type.
pub fn jvm_getModifiers(thread: &mut JavaThread, args: &Vec<Slot>) -> (r: Result<NativeOutcome, VmError>)
    ensures
        query(*old(thread), *final(thread), r, mirror_at(*old(thread), args@, 0) is Some,
            NativeOutcome::Value(Slot::Int(match mirror_at(*old(thread), args@, 0)->Some_0.0 {
                Some(c) => old(thread).classes.classes@[c as int].acc_flags as i32,
                None => (ACC_ABSTRACT | ACC_FINAL | ACC_PUBLIC) as i32,
            }))),
{
    match mirror_arg(thread, args, 0) {
        Some((Some(c), _)) => Ok(NativeOutcome::Value(Slot::Int(thread.classes.classes[c].acc_flags as i32))),
        Some((None, _)) => Ok(NativeOutcome::Value(Slot::Int((ACC_ABSTRACT | ACC_FINAL | ACC_PUBLIC) as i32))),
        None => Err(VmError::BadObject),
    }
}

/// The mirror of the super class; `null` for `java/lang/Object` and primitive types.
pub fn jvm_getSuperclass(thread: &mut JavaThread, args: &Vec<Slot>) -> (r: Result<NativeOutcome, VmError>)
    requires
        old(thread).wf(),
    ensures
        query(*old(thread), *final(thread), r, mirror_at(*old(thread), args@, 0) is Some,
            NativeOutcome::Value(match mirror_at(*old(thread), args@, 0)->Some_0.0 {
                Some(c) => match old(thread).classes.classes@[c as int].super_class {
                    Some(p) => mirror_value(*old(thread), p as int),
                    None => Slot::Null,
                },
                None => Slot::Null,
            })),
{
    match mirror_arg(thread, args, 0) {
        Some((Some(c), _)) => match thread.classes.classes[c].super_class {
            Some(p) => {
                assert(c > 0 ==> (thread.classes.classes@[c as int].super_class matches Some(q) && q < c));
                Ok(NativeOutcome::Value(mirror_of(thread, p)))
            },
            None => Ok(NativeOutcome::Value(Slot::Null)),
        },
        Some((None, _)) => Ok(NativeOutcome::Value(Slot::Null)),
        None => Err(VmError::BadObject),
    }
}

/// The mirror of the component type of an array class; `null` otherwise.
pub fn jvm_getComponentType(thread: &mut JavaThread, args: &Vec<Slot>) -> (r: Result<NativeOutcome, VmError>)
    requires
        old(thread).wf(),
    ensures
        query(*old(thread), *final(thread), r, mirror_at(*old(thread), args@, 0) is Some,
            NativeOutcome::Value(match mirror_at(*old(thread), args@, 0)->Some_0.0 {
                Some(c) => match old(thread).classes.classes@[c as int].kind {
                    ClassKind::TypeArray { elem } => match primitive_from(old(thread).mirrors.primitives@,
                        seq![descriptor_letter(elem)], 0) {
                        Some(m) => Slot::Ref(m),
                        None => Slot::Null,
                    },
                    ClassKind::ObjectArray { component } => mirror_value(*old(thread), component as int),
                    ClassKind::Instance => Slot::Null,
                },
                None => Slot::Null,
            })),
{
    match mirror_arg(thread, args, 0) {
        Some((Some(c), _)) => match thread.classes.classes[c].kind {
            ClassKind::TypeArray { elem } => {
                let key = vec![elem.letter()];
                assert(key@ =~= seq![descriptor_letter(elem)]);
                match get_primitive_class_mirror(thread, &key) {
                    Some(m) => Ok(NativeOutcome::Value(Slot::Ref(m))),
                    None => Ok(NativeOutcome::Value(Slot::Null)),
                }
            },
            ClassKind::ObjectArray { component } => {
                assert(component < c);
                Ok(NativeOutcome::Value(mirror_of(thread, component)))
            },
            ClassKind::Instance => Ok(NativeOutcome::Value(Slot::Null)),
        },
        Some((None, _)) => Ok(NativeOutcome::Value(Slot::Null)),
        None => Err(VmError::BadObject),
    }
}

/// Whether the class of the second mirror is assignable to that of the first;
/// two primitive types only to themselves.
pub fn jvm_isAssignableFrom(thread: &mut JavaThread, args: &Vec<Slot>) -> (r: Result<NativeOutcome, VmError>)
    requires
        old(thread).wf(),
    ensures
        query(*old(thread), *final(thread), r,
            mirror_at(*old(thread), args@, 0) is Some && mirror_at(*old(thread), args@, 1) is Some,
            bool_value(match (mirror_at(*old(thread), args@, 0)->Some_0, mirror_at(*old(thread), args@, 1)->Some_0) {
                ((None, lt), (None, rt)) => lt == rt,
                ((Some(l), _), (Some(r), _)) => assignable(old(thread).classes.classes@, r as int, l as int),
                _ => false,
            })),
{
    let l = mirror_arg(thread, args, 0);
    let r = mirror_arg(thread, args, 1);
    match (l, r) {
        (Some((None, lt)), Some((None, rt))) => Ok(NativeOutcome::Value(Slot::Int(if lt == rt { 1 } else { 0 }))),
        (Some((Some(lc), _)), Some((Some(rc), _))) => {
            let b = thread.classes.instance_of(rc, lc);
            Ok(NativeOutcome::Value(Slot::Int(if b { 1 } else { 0 })))
        },
        (Some(_), Some(_)) => Ok(NativeOutcome::Value(Slot::Int(0))),
        _ => Err(VmError::BadObject),
    }
}

/// Whether the object is an instance of the mirror's class; `false` for
/// `null` and for primitive types.
pub fn jvm_isInstance(thread: &mut JavaThread, args: &Vec<Slot>) -> (r: Result<NativeOutcome, VmError>)
    requires
        old(thread).wf(),
    ensures
        ({
            let t = *old(thread);
            let ok = mirror_at(t, args@, 0) is Some && args@.len() >= 2 && args@[1].is_reference()
                && (args@[1] matches Slot::Ref(p) ==> p < t.heap.objs@.len());
            query(t, *final(thread), r, ok, bool_value(match (mirror_at(t, args@, 0)->Some_0.0, args@[1]) {
                (Some(c), Slot::Ref(p)) => instance_test(t.classes.classes@, t.heap.objs@[p as int], c as int),
                _ => false,
            }))
        }),
{
    let m = mirror_arg(thread, args, 0);
    if m.is_none() || args.len() < 2 {
        return Err(VmError::BadObject);
    }
    match (m, args[1]) {
        (Some((Some(c), _)), Slot::Ref(p)) => {
            if p >= thread.heap.objs.len() {
                return Err(VmError::BadObject);
            }
            proof {
                assert(obj_class(thread.heap.objs@[p as int]) matches Some(k) ==> k < thread.classes.classes@.len());
            }
            let b = thread.is_instance(p, c);
            Ok(NativeOutcome::Value(Slot::Int(if b { 1 } else { 0 })))
        },
        (_, Slot::Ref(p)) => {
            if p >= thread.heap.objs.len() {
                return Err(VmError::BadObject);
            }
            Ok(NativeOutcome::Value(Slot::Int(0)))
        },
        (_, Slot::Null) => Ok(NativeOutcome::Value(Slot::Int(0))),
        _ => Err(VmError::BadObject),
    }
}

/// Argument `i` is a string: its text.
pub open spec fn string_at(t: JavaThread, args: Seq<Slot>, i: int) -> Option<Seq<u8>> {
    if 0 <= i < args.len() && args[i] is Ref && args[i]->Ref_0 < t.heap.objs@.len() {
        match t.heap.objs@[args[i]->Ref_0 as int].kind {
            ObjKind::Str { text } => Some(text@),
            _ => None,
        }
    } else {
        None
    }
}

fn string_arg<'a>(thread: &'a JavaThread, args: &Vec<Slot>, i: usize) -> (r: Option<&'a Vec<u8>>)
    ensures
        match r {
            Some(t) => string_at(*thread, args@, i as int) == Some(t@),
            None => string_at(*thread, args@, i as int) is None,
        },
{
    if i >= args.len() {
        return None;
    }
    match args[i] {
        Slot::Ref(p) => {
            if p >= thread.heap.objs.len() {
                return None;
            }
            match &thread.heap.objs[p].kind {
                ObjKind::Str { text } => Some(text),
                _ => None,
            }
        },
        _ => None,
    }
}

/// The descriptor letter of a primitive type's Java name (`int` gives `I`).
pub open spec fn signature_of(name: Seq<u8>) -> Option<u8> {
    if name == "byte".spec_bytes() {
        Some(66u8)
    } else if name == "boolean".spec_bytes() {
        Some(90u8)
    } else if name == "char".spec_bytes() {
        Some(67u8)
    } else if name == "short".spec_bytes() {
        Some(83u8)
    } else if name == "int".spec_bytes() {
        Some(73u8)
    } else if name == "float".spec_bytes() {
        Some(70u8)
    } else if name == "long".spec_bytes() {
        Some(74u8)
    } else if name == "double".spec_bytes() {
        Some(68u8)
    } else if name == "void".spec_bytes() {
        Some(86u8)
    } else {
        None
    }
}

fn signature_letter(name: &Vec<u8>) -> (r: Option<u8>)
    ensures
        r == signature_of(name@),
{
    if bytes_eq(name, &"byte".as_bytes_vec()) {
        Some(66u8)
    } else if bytes_eq(name, &"boolean".as_bytes_vec()) {
        Some(90u8)
    } else if bytes_eq(name, &"char".as_bytes_vec()) {
        Some(67u8)
    } else if bytes_eq(name, &"short".as_bytes_vec()) {
        Some(83u8)
    } else if bytes_eq(name, &"int".as_bytes_vec()) {
        Some(73u8)
    } else if bytes_eq(name, &"float".as_bytes_vec()) {
        Some(70u8)
    } else if bytes_eq(name, &"long".as_bytes_vec()) {
        Some(74u8)
    } else if bytes_eq(name, &"double".as_bytes_vec()) {
        Some(68u8)
    } else if bytes_eq(name, &"void".as_bytes_vec()) {
        Some(86u8)
    } else {
        None
    }
}

/// The mirror of the primitive type named by the string argument (`int`).
pub fn jvm_getPrimitiveClass(thread: &mut JavaThread, args: &Vec<Slot>) -> (r: Result<NativeOutcome, VmError>)
    ensures
        ({
            let t = *old(thread);
            let key = signature_of(string_at(t, args@, 0)->Some_0);
            query(t, *final(thread), r, string_at(t, args@, 0) is Some && key is Some,
                NativeOutcome::Value(match primitive_from(t.mirrors.primitives@, seq![key->Some_0], 0) {
                    Some(m) => Slot::Ref(m),
                    None => Slot::Null,
                }))
        }),
{
    let name = match string_arg(thread, args, 0) {
        Some(n) => n,
        None => {
            return Err(VmError::BadObject);
        },
    };
    let k = match signature_letter(name) {
        Some(k) => k,
        None => {
            return Err(VmError::BadObject);
        },
    };
    let key = vec![k];
    assert(key@ =~= seq![k]);
    match get_primitive_class_mirror(thread, &key) {
        Some(m) => Ok(NativeOutcome::Value(Slot::Ref(m))),
        None => Ok(NativeOutcome::Value(Slot::Null)),
    }
}

/// The Java name of a primitive type (`I` gives `int`).
pub open spec fn primitive_name(t: ValueType) -> Seq<u8> {
    match t {
        ValueType::Byte => "byte".spec_bytes(),
        ValueType::Boolean => "boolean".spec_bytes(),
        ValueType::Char => "char".spec_bytes(),
        ValueType::Short => "short".spec_bytes(),
        ValueType::Int => "int".spec_bytes(),
        ValueType::Float => "float".spec_bytes(),
        ValueType::Long => "long".spec_bytes(),
        ValueType::Double => "double".spec_bytes(),
        _ => "void".spec_bytes(),
    }
}

fn primitive_name_of(t: ValueType) -> (r: Vec<u8>)
    ensures
        r@ == primitive_name(t),
{
    match t {
        ValueType::Byte => "byte".as_bytes_vec(),
        ValueType::Boolean => "boolean".as_bytes_vec(),
        ValueType::Char => "char".as_bytes_vec(),
        ValueType::Short => "short".as_bytes_vec(),
        ValueType::Int => "int".as_bytes_vec(),
        ValueType::Float => "float".as_bytes_vec(),
        ValueType::Long => "long".as_bytes_vec(),
        ValueType::Double => "double".as_bytes_vec(),
        _ => "void".as_bytes_vec(),
    }
}

/// A new string with the class's name, dotted (`java.lang.String`); the
/// Java name for a primitive type (`int`).
pub fn jvm_getName0(thread: &mut JavaThread, args: &Vec<Slot>) -> (r: Result<NativeOutcome, VmError>)
    requires
        old(thread).wf(),
    ensures
        final(thread).wf(),
        ({
            let t = *old(thread);
            let m = mirror_at(t, args@, 0);
            &&& (r is Ok <==> m is Some)
            &&& (r is Err ==> *final(thread) == t)
            &&& (r is Ok ==> {
                &&& r == Ok::<NativeOutcome, VmError>(NativeOutcome::Value(Slot::Ref(t.heap.objs@.len() as usize)))
                &&& *final(thread) == (JavaThread { heap: final(thread).heap, ..t })
                &&& final(thread).heap.objs@.drop_last() == t.heap.objs@
                &&& final(thread).heap.objs@.len() == t.heap.objs@.len() + 1
                &&& final(thread).heap.objs@.last().kind matches ObjKind::Str { text } && text@ == match m->Some_0 {
                    (Some(c), _) => dotted(t.classes.classes@[c as int].name@),
                    (None, vt) => primitive_name(vt),
                }
            })
        }),
{
    let text = match mirror_arg(thread, args, 0) {
        Some((Some(c), _)) => {
            let mut v = Vec::new();
            push_dotted(&mut v, &thread.classes.classes[c].name);
            assert(v@ =~= dotted(thread.classes.classes@[c as int].name@));
            v
        },
        Some((None, vt)) => primitive_name_of(vt),
        None => {
            return Err(VmError::BadObject);
        },
    };
    let p = thread.new_string(text);
    Ok(NativeOutcome::Value(Slot::Ref(p)))
}

/// `s` with every `.` turned into `/`.
pub open spec fn slashed(s: Seq<u8>) -> Seq<u8> {
    Seq::new(s.len(), |i: int| if s[i] == 46 { 47u8 } else { s[i] })
}

/// The mirror of the class with the given dotted name, after its
/// initialization; `ClassNotFoundException` when no such class is loaded.
/// Only the bootstrap loader (a `null` loader argument) is supported.
pub fn jvm_forName0(thread: &mut JavaThread, args: &Vec<Slot>) -> (r: Result<NativeOutcome, VmError>)
    requires
        old(thread).wf(),
    ensures
        final(thread).wf(),
        ({
            let t = *old(thread);
            let cs = t.classes.classes@;
            let found = lookup_class(cs, slashed(string_at(t, args@, 0)->Some_0));
            &&& (r is Ok <==> string_at(t, args@, 0) is Some && args@.len() >= 3 && args@[2] is Null)
            &&& (r is Err ==> *final(thread) == t)
            &&& (r is Ok ==> match found {
                None => r matches Ok(NativeOutcome::Thrown(e)) && raised(t, *final(thread), CLASS_NOT_FOUND, None)
                    && e == t.heap.objs@.len(),
                Some(c) => *final(thread) == t && if init_ready(cs, c as int) {
                    r == Ok::<NativeOutcome, VmError>(NativeOutcome::Value(mirror_value(t, c as int)))
                } else {
                    r == Ok::<NativeOutcome, VmError>(NativeOutcome::NeedInit(c))
                },
            })
        }),
{
    if args.len() < 3 || !matches!(args[2], Slot::Null) {
        return Err(VmError::BadObject);
    }
    let name = match string_arg(thread, args, 0) {
        Some(n) => n,
        None => {
            return Err(VmError::BadObject);
        },
    };
    let mut internal: Vec<u8> = Vec::new();
    let mut i: usize = 0;
    while i < name.len()
        invariant
            i <= name@.len(),
            internal@ == slashed(name@).subrange(0, i as int),
        decreases name@.len() - i,
    {
        let b = name[i];
        internal.push(if b == 46 { 47u8 } else { b });
        i += 1;
        assert(internal@ =~= slashed(name@).subrange(0, i as int));
    }
    assert(internal@ =~= slashed(name@));
    match thread.classes.find(&internal) {
        Some(c) => {
            if !thread.classes.is_init_ready(c) {
                return Ok(NativeOutcome::NeedInit(c));
            }
            Ok(NativeOutcome::Value(mirror_of(thread, c)))
        },
        None => {
            let e = thread.heap.objs.len();
            thread.raise(CLASS_NOT_FOUND, None);
            Ok(NativeOutcome::Thrown(e))
        },
    }
}

/// The declaring class of class `c` per the entries `i..` of its
/// `InnerClasses` attribute: the outer class of the first entry whose inner
/// class is `c` (`null` when that entry has none), or `null`.
pub open spec fn declaring_from(t: JavaThread, c: int, i: int) -> Slot
    decreases t.classes.classes@[c].inner_classes@.len() - i,
{
    let cs = t.classes.classes@;
    let ics = cs[c].inner_classes@;
    if i < 0 || i >= ics.len() {
        Slot::Null
    } else {
        let (inner, outer) = ics[i];
        if inner != 0 && resolved_class(cs, c, inner as int) == Some(c as usize) {
            if outer == 0 {
                Slot::Null
            } else {
                match resolved_class(cs, c, outer as int) {
                    Some(oc) => mirror_value(t, oc as int),
                    None => Slot::Null,
                }
            }
        } else {
            declaring_from(t, c, i + 1)
        }
    }
}

/// The mirror of the class that declares the mirror's class as an inner
/// class, per its `InnerClasses` attribute; `null` for a top-level class.
pub fn jvm_getDeclaringClass0(thread: &mut JavaThread, args: &Vec<Slot>) -> (r: Result<NativeOutcome, VmError>)
    requires
        old(thread).wf(),
    ensures
        query(*old(thread), *final(thread), r, mirror_at(*old(thread), args@, 0) is Some,
            NativeOutcome::Value(match mirror_at(*old(thread), args@, 0)->Some_0.0 {
                Some(c) => if old(thread).classes.classes@[c as int].kind is Instance {
                    declaring_from(*old(thread), c as int, 0)
                } else {
                    Slot::Null
                },
                None => Slot::Null,
            })),
{
    let c = match mirror_arg(thread, args, 0) {
        Some((Some(c), _)) => c,
        Some((None, _)) => {
            return Ok(NativeOutcome::Value(Slot::Null));
        },
        None => {
            return Err(VmError::BadObject);
        },
    };
    if !matches!(thread.classes.classes[c].kind, ClassKind::Instance) {
        return Ok(NativeOutcome::Value(Slot::Null));
    }
    let n = thread.classes.classes[c].inner_classes.len();
    let mut i: usize = 0;
    while i < n
        invariant
            thread.wf(),
            *thread == *old(thread),
            mirror_at(*thread, args@, 0) == Some((Some(c), mirror_at(*thread, args@, 0)->Some_0.1)),
            thread.classes.classes@[c as int].kind is Instance,
            c < thread.classes.classes@.len(),
            n == thread.classes.classes@[c as int].inner_classes@.len(),
            i <= n,
            declaring_from(*thread, c as int, 0) == declaring_from(*thread, c as int, i as int),
        decreases n - i,
    {
        let (inner, outer) = thread.classes.classes[c].inner_classes[i];
        if inner != 0 {
            if let Some(ic) = thread.classes.resolve(c, inner as usize) {
                if ic == c {
                    if outer == 0 {
                        return Ok(NativeOutcome::Value(Slot::Null));
                    }
                    return match thread.classes.resolve(c, outer as usize) {
                        Some(oc) => Ok(NativeOutcome::Value(mirror_of(thread, oc))),
                        None => Ok(NativeOutcome::Value(Slot::Null)),
                    };
                }
            }
        }
        i += 1;
    }
    Ok(NativeOutcome::Value(Slot::Null))
}

/// The name and descriptor of the `NameAndType` entry `i` of `cp`.
pub open spec fn name_and_type(cp: Seq<CpEntry>, i: int) -> Option<(Seq<u8>, Seq<u8>)> {
    if 0 <= i < cp.len() {
        match cp[i] {
            CpEntry::NameAndType { name_index, descriptor_index } =>
                match (cp_utf8(cp, name_index as int), cp_utf8(cp, descriptor_index as int)) {
                    (Some(n), Some(d)) => Some((n, d)),
                    _ => None,
                },
            _ => None,
        }
    } else {
        None
    }
}

/// Slot `v` is a reference to a string with text `t`.
pub open spec fn is_string(t: JavaThread, v: Slot, text: Seq<u8>) -> bool {
    v matches Slot::Ref(q) && q < t.heap.objs@.len()
        && (t.heap.objs@[q as int].kind matches ObjKind::Str { text: x } && x@ == text)
}

/// The method that encloses a local or anonymous class, per its
/// `EnclosingMethod` attribute, as a new `Object[]` of the enclosing class's
/// mirror and the method's name and descriptor (both `null` when the class
/// is not enclosed by a method); `null` when there is no such attribute.
pub fn jvm_getEnclosingMethod0(thread: &mut JavaThread, args: &Vec<Slot>) -> (r: Result<NativeOutcome, VmError>)
    requires
        old(thread).wf(),
    ensures
        final(thread).wf(),
        final(thread).classes == old(thread).classes,
        final(thread).heap.objs@.len() >= old(thread).heap.objs@.len(),
        r is Err ==> *final(thread) == *old(thread),
        ({
            let t = *old(thread);
            let cs = t.classes.classes@;
            match mirror_at(t, args@, 0) {
                None => r is Err,
                Some((None, _)) => r == Ok::<NativeOutcome, VmError>(NativeOutcome::Value(Slot::Null)),
                Some((Some(c), _)) => match cs[c as int].enclosing_method {
                    None => r == Ok::<NativeOutcome, VmError>(NativeOutcome::Value(Slot::Null)),
                    Some((ci, nti)) => {
                        let ok = resolved_class(cs, c as int, ci as int) is Some
                            && (nti != 0 ==> name_and_type(cs[c as int].cp@, nti as int) is Some);
                        &&& (r is Ok <==> ok)
                        &&& (r is Ok ==> {
                            let objs = final(thread).heap.objs@;
                            let ec = resolved_class(cs, c as int, ci as int)->Some_0;
                            &&& r matches Ok(NativeOutcome::Value(Slot::Ref(p)))
                            &&& t.heap.objs@.len() <= p < objs.len()
                            &&& forall|i: int| 0 <= i < t.heap.objs@.len() ==> objs[i] == t.heap.objs@[i]
                            &&& objs[p as int].kind matches ObjKind::Array { class, elements }
                            &&& class == OBJECT_ARRAY
                            &&& elements@.len() == 3
                            &&& elements@[0] == mirror_value(t, ec as int)
                            &&& (nti == 0 ==> elements@[1] == Slot::Null && elements@[2] == Slot::Null)
                            &&& (nti != 0 ==> {
                                let (n, d) = name_and_type(cs[c as int].cp@, nti as int)->Some_0;
                                is_string(*final(thread), elements@[1], n) && is_string(*final(thread), elements@[2], d)
                            })
                        })
                    },
                },
            }
        }),
{
    let c = match mirror_arg(thread, args, 0) {
        Some((Some(c), _)) => c,
        Some((None, _)) => {
            return Ok(NativeOutcome::Value(Slot::Null));
        },
        None => {
            return Err(VmError::BadObject);
        },
    };
    let (ci, nti) = match thread.classes.classes[c].enclosing_method {
        Some(em) => em,
        None => {
            return Ok(NativeOutcome::Value(Slot::Null));
        },
    };
    let ec = match thread.classes.resolve(c, ci as usize) {
        Some(ec) => ec,
        None => {
            return Err(VmError::Unresolved);
        },
    };
    let ary = OBJECT_ARRAY;
    let first = mirror_of(thread, ec);
    let mut name: Option<Vec<u8>> = None;
    let mut desc: Option<Vec<u8>> = None;
    if nti != 0 {
        let cp = &thread.classes.classes[c].cp;
        if (nti as usize) < cp.len() {
            if let CpEntry::NameAndType { name_index, descriptor_index } = &cp[nti as usize] {
                match (crate::class::utf8_at(cp, *name_index as usize), crate::class::utf8_at(cp, *descriptor_index as usize)) {
                    (Some(n), Some(d)) => {
                        name = Some(crate::frame::copy_bytes(n));
                        desc = Some(crate::frame::copy_bytes(d));
                    },
                    _ => {},
                }
            }
        }
        if name.is_none() {
            return Err(VmError::BadConstant);
        }
    }
    let mut elements: Vec<Slot> = Vec::new();
    elements.push(first);
    match (name, desc) {
        (Some(n), Some(d)) => {
            let pn = thread.new_string(n);
            elements.push(Slot::Ref(pn));
            let pd = thread.new_string(d);
            elements.push(Slot::Ref(pd));
        },
        _ => {
            elements.push(Slot::Null);
            elements.push(Slot::Null);
        },
    }
    let ghost before = *thread;
    let p = thread.heap.allocate(ObjKind::Array { class: ary, elements });
    proof {
        assert forall|i: int| 0 <= i < thread.heap.objs@.len() implies
            (#[trigger] obj_class(thread.heap.objs@[i]) matches Some(k) ==> k < thread.classes.classes@.len()) by {
            if i < before.heap.objs@.len() {
                assert(thread.heap.objs@[i] == before.heap.objs@[i]);
            }
        }
    }
    Ok(NativeOutcome::Value(Slot::Ref(p)))
}


/// Indices among the first `n` fields of `fs` of the wanted kind (static or
/// not), keeping only public ones when `public_only`.
pub open spec fn picked_fields(fs: Seq<FieldInfo>, want_static: bool, public_only: bool, n: int) -> Seq<usize>
    decreases n,
{
    if n <= 0 || n > fs.len() {
        Seq::empty()
    } else {
        let f = fs[n - 1];
        let rest = picked_fields(fs, want_static, public_only, n - 1);
        if (f.acc_flags & ACC_STATIC != 0) == want_static && (!public_only || f.acc_flags & ACC_PUBLIC != 0) {
            rest.push((n - 1) as usize)
        } else {
            rest
        }
    }
}

/// The fields that `getDeclaredFields0` reports: instance fields first, then
/// static ones, each in declaration order.
pub open spec fn declared_fields(fs: Seq<FieldInfo>, public_only: bool) -> Seq<usize> {
    picked_fields(fs, false, public_only, fs.len() as int) + picked_fields(fs, true, public_only, fs.len() as int)
}

/// Indices among the first `n` methods of `ms` that are constructors.
pub open spec fn constructors(ms: Seq<MethodInfo>, n: int) -> Seq<usize>
    decreases n,
{
    if n <= 0 || n > ms.len() {
        Seq::empty()
    } else {
        let rest = constructors(ms, n - 1);
        if ms[n - 1].name@ == "<init>".spec_bytes() { rest.push((n - 1) as usize) } else { rest }
    }
}

/// `t2` is `t` with a new array of class `array_class` appended whose
/// elements are new member objects of class `member_class` for the members
/// `picks` of class `declaring`; `p` is that array.
pub open spec fn members_allocated(t: JavaThread, t2: JavaThread, p: usize, array_class: usize, member_class: usize,
    declaring: usize, picks: Seq<usize>) -> bool {
    let objs = t2.heap.objs@;
    &&& t.heap.objs@.len() <= p < objs.len()
    &&& forall|i: int| 0 <= i < t.heap.objs@.len() ==> objs[i] == t.heap.objs@[i]
    &&& t2 == (JavaThread { heap: t2.heap, ..t })
    &&& objs[p as int].kind matches ObjKind::Array { class, elements }
    &&& class == array_class
    &&& elements@.len() == picks.len()
    &&& forall|k: int| 0 <= k < picks.len() ==> (#[trigger] elements@[k] matches Slot::Ref(q) && q < objs.len()
        && objs[q as int].kind == (ObjKind::Member { class: member_class, declaring, index: picks[k] }))
}

/// Allocates a member object for each of `picks` and an array holding them.
fn alloc_members(thread: &mut JavaThread, array_class: usize, member_class: usize, declaring: usize, picks: &Vec<usize>)
    -> (p: usize)
    requires
        old(thread).wf(),
        array_class < old(thread).classes.classes@.len(),
        member_class < old(thread).classes.classes@.len(),
    ensures
        final(thread).wf(),
        members_allocated(*old(thread), *final(thread), p, array_class, member_class, declaring, picks@),
{
    let mut elements: Vec<Slot> = Vec::new();
    let mut k: usize = 0;
    while k < picks.len()
        invariant
            thread.wf(),
            array_class < thread.classes.classes@.len(),
            member_class < thread.classes.classes@.len(),
            *thread == (JavaThread { heap: thread.heap, ..*old(thread) }),
            thread.heap.objs@.len() >= old(thread).heap.objs@.len(),
            forall|i: int| 0 <= i < old(thread).heap.objs@.len() ==> thread.heap.objs@[i] == old(thread).heap.objs@[i],
            k <= picks@.len(),
            elements@.len() == k,
            forall|j: int| 0 <= j < k ==> (#[trigger] elements@[j] matches Slot::Ref(q) && q < thread.heap.objs@.len()
                && thread.heap.objs@[q as int].kind == (ObjKind::Member { class: member_class, declaring, index: picks@[j] })),
        decreases picks@.len() - k,
    {
        let ghost before = *thread;
        let q = thread.heap.allocate(ObjKind::Member { class: member_class, declaring, index: picks[k] });
        proof {
            assert forall|i: int| 0 <= i < thread.heap.objs@.len() implies
                (#[trigger] obj_class(thread.heap.objs@[i]) matches Some(x) ==> x < thread.classes.classes@.len()) by {
                if i < before.heap.objs@.len() {
                    assert(thread.heap.objs@[i] == before.heap.objs@[i]);
                }
            }
        }
        elements.push(Slot::Ref(q));
        k += 1;
    }
    let ghost before = *thread;
    let p = thread.heap.allocate(ObjKind::Array { class: array_class, elements });
    proof {
        assert forall|i: int| 0 <= i < thread.heap.objs@.len() implies
            (#[trigger] obj_class(thread.heap.objs@[i]) matches Some(x) ==> x < thread.classes.classes@.len()) by {
            if i < before.heap.objs@.len() {
                assert(thread.heap.objs@[i] == before.heap.objs@[i]);
            }
        }
    }
    p
}

/// The indices of the fields of class `c` that `getDeclaredFields0` reports.
fn field_picks(fs: &Vec<FieldInfo>, public_only: bool) -> (r: Vec<usize>)
    ensures
        r@ == declared_fields(fs@, public_only),
{
    let mut r: Vec<usize> = Vec::new();
    let mut pass: usize = 0;
    while pass < 2
        invariant
            pass <= 2,
            r@ == (if pass == 0 { Seq::empty() } else if pass == 1 { picked_fields(fs@, false, public_only, fs@.len() as int) }
                else { declared_fields(fs@, public_only) }),
        decreases 2 - pass,
    {
        let want_static = pass == 1;
        let ghost base = r@;
        let mut i: usize = 0;
        while i < fs.len()
            invariant
                i <= fs@.len(),
                pass < 2,
                want_static == (pass == 1),
                base == (if pass == 0 { Seq::<usize>::empty() } else { picked_fields(fs@, false, public_only, fs@.len() as int) }),
                r@ == base + picked_fields(fs@, want_static, public_only, i as int),
            decreases fs@.len() - i,
        {
            let f = &fs[i];
            if (f.acc_flags & ACC_STATIC != 0) == want_static && (!public_only || f.acc_flags & ACC_PUBLIC != 0) {
                r.push(i);
            }
            i += 1;
            assert(r@ =~= base + picked_fields(fs@, want_static, public_only, i as int));
        }
        pass += 1;
        assert(r@ =~= (if pass == 1 { picked_fields(fs@, false, public_only, fs@.len() as int) } else { declared_fields(fs@, public_only) }));
    }
    r
}

/// The shared conditions of `getDeclaredFields0` and `getDeclaredConstructors0`:
/// an instance-class mirror and an `int` flag.
pub open spec fn reflect_ok(t: JavaThread, args: Seq<Slot>) -> bool {
    let cs = t.classes.classes@;
    &&& mirror_at(t, args, 0) matches Some((Some(c), _))
    &&& cs[c as int].kind is Instance
    &&& args.len() >= 2 && args[1] is Int
}

/// A new `Field[]` of the class's fields, instance fields first, then static
/// ones; only public fields when the flag argument is 1.
pub fn jvm_getDeclaredFields0(thread: &mut JavaThread, args: &Vec<Slot>) -> (r: Result<NativeOutcome, VmError>)
    requires
        old(thread).wf(),
    ensures
        final(thread).wf(),
        ({
            let t = *old(thread);
            let cs = t.classes.classes@;
            &&& (r is Ok <==> reflect_ok(t, args@))
            &&& (r is Err ==> *final(thread) == t)
            &&& (r is Ok ==> {
                let c = mirror_at(t, args@, 0)->Some_0.0->Some_0;
                &&& r matches Ok(NativeOutcome::Value(Slot::Ref(p)))
                &&& members_allocated(t, *final(thread), p, FIELD_ARRAY, REFLECT_FIELD,
                    c, declared_fields(cs[c as int].fields@, args@[1]->Int_0 == 1))
            })
        }),
{
    let c = match mirror_arg(thread, args, 0) {
        Some((Some(c), _)) => c,
        _ => {
            return Err(VmError::BadObject);
        },
    };
    if !matches!(thread.classes.classes[c].kind, ClassKind::Instance) || args.len() < 2 {
        return Err(VmError::BadObject);
    }
    let public_only = match args[1] {
        Slot::Int(v) => v == 1,
        _ => {
            return Err(VmError::BadObject);
        },
    };
    let fc = REFLECT_FIELD;
    let ac = FIELD_ARRAY;
    let picks = field_picks(&thread.classes.classes[c].fields, public_only);
    let p = alloc_members(thread, ac, fc, c, &picks);
    Ok(NativeOutcome::Value(Slot::Ref(p)))
}

/// A new `Constructor[]` with one entry per `<init>` method of the class.
pub fn jvm_getDeclaredConstructors0(thread: &mut JavaThread, args: &Vec<Slot>) -> (r: Result<NativeOutcome, VmError>)
    requires
        old(thread).wf(),
    ensures
        final(thread).wf(),
        ({
            let t = *old(thread);
            let cs = t.classes.classes@;
            &&& (r is Ok <==> reflect_ok(t, args@))
            &&& (r is Err ==> *final(thread) == t)
            &&& (r is Ok ==> {
                let c = mirror_at(t, args@, 0)->Some_0.0->Some_0;
                let ms = cs[c as int].methods@;
                &&& r matches Ok(NativeOutcome::Value(Slot::Ref(p)))
                &&& members_allocated(t, *final(thread), p, CONSTRUCTOR_ARRAY, REFLECT_CONSTRUCTOR,
                    c, constructors(ms, ms.len() as int))
            })
        }),
{
    let c = match mirror_arg(thread, args, 0) {
        Some((Some(c), _)) => c,
        _ => {
            return Err(VmError::BadObject);
        },
    };
    if !matches!(thread.classes.classes[c].kind, ClassKind::Instance) || args.len() < 2 || !matches!(args[1], Slot::Int(_)) {
        return Err(VmError::BadObject);
    }
    let mc = REFLECT_CONSTRUCTOR;
    let ac = CONSTRUCTOR_ARRAY;
    let ms = &thread.classes.classes[c].methods;
    let init = "<init>".as_bytes_vec();
    let mut picks: Vec<usize> = Vec::new();
    let mut i: usize = 0;
    while i < ms.len()
        invariant
            i <= ms@.len(),
            init@ == "<init>".spec_bytes(),
            picks@ == constructors(ms@, i as int),
        decreases ms@.len() - i,
    {
        if bytes_eq(&ms[i].name, &init) {
            picks.push(i);
        }
        i += 1;
    }
    let p = alloc_members(thread, ac, mc, c, &picks);
    Ok(NativeOutcome::Value(Slot::Ref(p)))
}

} // verus!
