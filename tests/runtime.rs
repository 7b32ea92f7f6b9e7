use jvm_core::class::{
    Class, ClassKind, ClassState, ClassTable, CpEntry, ExEntry, ACC_PUBLIC, ARITHMETIC, CLASS_CAST, CLASS_NOT_FOUND,
    EXCEPTION, NULL_POINTER, OBJECT, RUNTIME_EXCEPTION, STRING, THROWABLE, ARRAY_STORE,
};
use jvm_core::exception::find_exception_handler;
use jvm_core::frame::Frame;
use jvm_core::heap::ObjKind;
use jvm_core::init::InitStart;
use jvm_core::mirror::{create_delayed_ary_mirrors, create_delayed_mirrors, create_mirror, get_primitive_class_mirror};
use jvm_core::native::java_lang_Class::{
    jvm_forName0, jvm_getComponentType, jvm_getModifiers, jvm_getName0, jvm_getPrimitiveClass, jvm_getSuperclass,
    jvm_isArray, jvm_isAssignableFrom, jvm_isInstance, jvm_isPrimitive,
};
use jvm_core::native::java_lang_Double::{jvm_doubleToRawLongBits, jvm_longBitsToDouble};
use jvm_core::native::java_lang_Float::{jvm_floatToRawIntBits, jvm_intBitsToFloat};
use jvm_core::native::{NativeFn, NativeOutcome};
use jvm_core::thread::JavaThread;
use jvm_core::value::{Slot, ValueType, VmError};

fn frame(code: Vec<u8>, stack: Vec<Slot>, class: usize) -> Frame {
    Frame {
        frame_id: 0,
        class,
        method: 0,
        code,
        local: vec![],
        stack,
        max_stack: 4,
        pc: 0,
        return_v: None,
        op_widen: false,
        inst_pc: 0,
        init_class: None,
    }
}

fn bootstrapped() -> JavaThread {
    let mut t = JavaThread::new(1);
    for c in 0..t.classes.classes.len() {
        create_mirror(&mut t, c);
    }
    let int_array = Class::plain(b"[I".to_vec(), Some(OBJECT), ClassKind::TypeArray { elem: ValueType::Int }, ACC_PUBLIC);
    let k = t.classes.add(int_array);
    create_mirror(&mut t, k);
    create_delayed_mirrors(&mut t);
    create_delayed_ary_mirrors(&mut t);
    t
}

fn value(r: Result<NativeOutcome, VmError>) -> Slot {
    match r {
        Ok(NativeOutcome::Value(v)) => v,
        other => panic!("unexpected {:?}", other),
    }
}

fn text(t: &JavaThread, v: Slot) -> Vec<u8> {
    match v {
        Slot::Ref(p) => match &t.heap.objs[p].kind {
            ObjKind::Str { text } => text.clone(),
            _ => panic!("not a string"),
        },
        _ => panic!("not a reference"),
    }
}

#[test]
fn instance_of_is_reflexive_and_reaches_object() {
    let t = ClassTable::bootstrap();
    for c in 0..t.classes.len() {
        assert!(t.instance_of(c, c));
        assert!(t.instance_of(c, OBJECT));
    }
    assert!(t.instance_of(ARITHMETIC, RUNTIME_EXCEPTION));
    assert!(!t.instance_of(EXCEPTION, RUNTIME_EXCEPTION));
    assert!(!t.instance_of(OBJECT, THROWABLE));
}

#[test]
fn instanceof_of_null_is_false() {
    let mut t = JavaThread::new(1);
    let cp = vec![CpEntry::Unusable, CpEntry::Utf8(b"java/lang/Object".to_vec()), CpEntry::Class { name_index: 1 }];
    let mut c = Class::plain(b"M".to_vec(), Some(OBJECT), ClassKind::Instance, ACC_PUBLIC);
    c.cp = cp;
    let m = t.classes.add(c);
    let mut f = frame(vec![0xc1, 0, 2], vec![Slot::Null], m);
    f.pc = 1;
    assert!(f.instance_of(&t).is_ok());
    assert_eq!(f.stack, vec![Slot::Int(0)]);
    let s = t.new_string(b"hi".to_vec());
    let mut g = frame(vec![0xc1, 0, 2], vec![Slot::Ref(s)], m);
    g.pc = 1;
    assert!(g.instance_of(&t).is_ok());
    assert_eq!(g.stack, vec![Slot::Int(1)]);
}

#[test]
fn checkcast_failure_names_both_classes() {
    let mut t = JavaThread::new(1);
    let cp = vec![CpEntry::Unusable, CpEntry::Utf8(b"java/lang/Throwable".to_vec()), CpEntry::Class { name_index: 1 }];
    let mut c = Class::plain(b"M".to_vec(), Some(OBJECT), ClassKind::Instance, ACC_PUBLIC);
    c.cp = cp;
    let m = t.classes.add(c);
    let s = t.new_string(b"hi".to_vec());
    let mut f = frame(vec![0xc0, 0, 2], vec![Slot::Ref(s)], m);
    f.pc = 1;
    assert!(f.check_cast(&mut t).is_ok());
    let e = t.ex.unwrap();
    match &t.heap.objs[e].kind {
        ObjKind::Throwable { class, message } => {
            assert_eq!(*class, CLASS_CAST);
            assert_eq!(message.clone().unwrap(), b"java.lang.String cannot be cast to java.lang.Throwable".to_vec());
        },
        _ => panic!("not an exception"),
    }
}

#[test]
fn aastore_checks_the_component_type() {
    let mut t = JavaThread::new(1);
    let cp = vec![CpEntry::Unusable, CpEntry::Utf8(b"java/lang/Throwable".to_vec()), CpEntry::Class { name_index: 1 }];
    let mut c = Class::plain(b"M".to_vec(), Some(OBJECT), ClassKind::Instance, ACC_PUBLIC);
    c.cp = cp;
    let m = t.classes.add(c);
    let mut f = frame(vec![0xbd, 0, 2], vec![Slot::Int(2)], m);
    f.pc = 1;
    assert!(f.anew_array(&mut t).is_ok());
    let arr = f.stack[0];
    let k = t.classes.find(&b"[Ljava/lang/Throwable;".to_vec()).unwrap();
    assert_eq!(t.classes.classes[k].kind, ClassKind::ObjectArray { component: THROWABLE });
    let s = t.new_string(b"hi".to_vec());
    f.stack = vec![arr, Slot::Int(0), Slot::Ref(s)];
    assert!(f.aastore(&mut t).is_ok());
    let e = t.ex.unwrap();
    assert!(matches!(&t.heap.objs[e].kind, ObjKind::Throwable { class, .. } if *class == ARRAY_STORE));
}

#[test]
fn first_matching_handler_wins() {
    let t = ClassTable::bootstrap();
    let table = vec![
        ExEntry { start_pc: 0, end_pc: 4, handler_pc: 10, catch_class: Some(NULL_POINTER) },
        ExEntry { start_pc: 0, end_pc: 8, handler_pc: 20, catch_class: Some(RUNTIME_EXCEPTION) },
        ExEntry { start_pc: 0, end_pc: 8, handler_pc: 30, catch_class: None },
    ];
    assert_eq!(find_exception_handler(&t, &table, 2, ARITHMETIC), Some(20));
    assert_eq!(find_exception_handler(&t, &table, 2, NULL_POINTER), Some(10));
    assert_eq!(find_exception_handler(&t, &table, 6, THROWABLE), Some(30));
    assert_eq!(find_exception_handler(&t, &table, 8, THROWABLE), None);
}

#[test]
fn class_initialization_starts_once() {
    let mut t = ClassTable::bootstrap();
    let mut c = Class::plain(b"A".to_vec(), Some(OBJECT), ClassKind::Instance, ACC_PUBLIC);
    c.methods.push(jvm_core::class::MethodInfo {
        name: b"<clinit>".to_vec(),
        descriptor: b"()V".to_vec(),
        acc_flags: jvm_core::class::ACC_STATIC,
        code: None,
    });
    let a = t.add(c);
    assert_eq!(t.begin_init(a), InitStart::Done { class: OBJECT });
    assert_eq!(t.begin_init(a), InitStart::Run { class: a, method: 0 });
    assert_eq!(t.classes[a].state, ClassState::BeingInitialized);
    assert_eq!(t.begin_init(a), InitStart::Ready);
    assert!(t.is_init_ready(a));
}

#[test]
fn primitive_int_mirror_is_primitive_without_component() {
    let mut t = bootstrapped();
    let name = t.new_string(b"int".to_vec());
    let m = value(jvm_getPrimitiveClass(&mut t, &vec![Slot::Ref(name)]));
    assert!(matches!(m, Slot::Ref(_)));
    assert_eq!(value(jvm_isPrimitive(&mut t, &vec![m])), Slot::Int(1));
    assert_eq!(value(jvm_getComponentType(&mut t, &vec![m])), Slot::Null);
    assert_eq!(value(jvm_isArray(&mut t, &vec![m])), Slot::Int(0));
    assert_eq!(value(jvm_getModifiers(&mut t, &vec![m])), Slot::Int(0x411));
    let n = value(jvm_getName0(&mut t, &vec![m]));
    assert_eq!(text(&t, n), b"int".to_vec());
}

#[test]
fn every_class_has_one_mirror_of_itself() {
    let mut t = bootstrapped();
    for c in 0..t.classes.classes.len() {
        let m = t.classes.classes[c].mirror.unwrap();
        assert!(matches!(t.heap.objs[m].kind, ObjKind::Mirror { target: Some(x), .. } if x == c));
        create_mirror(&mut t, c);
        assert_eq!(t.classes.classes[c].mirror, Some(m));
    }
    let ia = t.classes.find(&b"[I".to_vec()).unwrap();
    let mi = t.classes.classes[ia].mirror.unwrap();
    let int_mirror = get_primitive_class_mirror(&t, &b"I".to_vec()).unwrap();
    assert_eq!(value(jvm_getComponentType(&mut t, &vec![Slot::Ref(mi)])), Slot::Ref(int_mirror));
    assert_eq!(value(jvm_isArray(&mut t, &vec![Slot::Ref(mi)])), Slot::Int(1));
}

#[test]
fn string_class_name_is_dotted() {
    let mut t = bootstrapped();
    let m = t.classes.classes[STRING].mirror.unwrap();
    let n = value(jvm_getName0(&mut t, &vec![Slot::Ref(m)]));
    assert_eq!(text(&t, n), b"java.lang.String".to_vec());
    let sup = value(jvm_getSuperclass(&mut t, &vec![Slot::Ref(m)]));
    assert_eq!(sup, Slot::Ref(t.classes.classes[OBJECT].mirror.unwrap()));
    let om = t.classes.classes[OBJECT].mirror.unwrap();
    assert_eq!(value(jvm_getSuperclass(&mut t, &vec![Slot::Ref(om)])), Slot::Null);
}

#[test]
fn assignability_between_mirrors() {
    let mut t = bootstrapped();
    let obj = Slot::Ref(t.classes.classes[OBJECT].mirror.unwrap());
    let string = Slot::Ref(t.classes.classes[STRING].mirror.unwrap());
    assert_eq!(value(jvm_isAssignableFrom(&mut t, &vec![obj, string])), Slot::Int(1));
    assert_eq!(value(jvm_isAssignableFrom(&mut t, &vec![string, obj])), Slot::Int(0));
    let s = t.new_string(b"x".to_vec());
    assert_eq!(value(jvm_isInstance(&mut t, &vec![obj, Slot::Ref(s)])), Slot::Int(1));
    assert_eq!(value(jvm_isInstance(&mut t, &vec![obj, Slot::Null])), Slot::Int(0));
}

#[test]
fn for_name_finds_loaded_classes_and_reports_missing_ones() {
    let mut t = bootstrapped();
    let name = t.new_string(b"java.lang.Object".to_vec());
    let r = jvm_forName0(&mut t, &vec![Slot::Ref(name), Slot::Int(1), Slot::Null, Slot::Null]);
    assert_eq!(r, Ok(NativeOutcome::NeedInit(OBJECT)));
    t.classes.begin_init(OBJECT);
    let r = jvm_forName0(&mut t, &vec![Slot::Ref(name), Slot::Int(1), Slot::Null, Slot::Null]);
    assert_eq!(r, Ok(NativeOutcome::Value(Slot::Ref(t.classes.classes[OBJECT].mirror.unwrap()))));
    let missing = t.new_string(b"no.such.Type".to_vec());
    match jvm_forName0(&mut t, &vec![Slot::Ref(missing), Slot::Int(1), Slot::Null, Slot::Null]) {
        Ok(NativeOutcome::Thrown(e)) => {
            assert!(matches!(t.heap.objs[e].kind, ObjKind::Throwable { class, .. } if class == CLASS_NOT_FOUND))
        },
        other => panic!("unexpected {:?}", other),
    }
}

#[test]
fn raw_bit_conversions_keep_nan_payloads() {
    let nan = 0x7fc0_1234u32;
    let back = value(jvm_floatToRawIntBits(&vec![Slot::Float(nan)]));
    assert_eq!(back, Slot::Int(0x7fc0_1234));
    assert_eq!(value(jvm_intBitsToFloat(&vec![back])), Slot::Float(nan));
    let dnan = 0xfff8_0000_0000_0042u64;
    let l = value(jvm_doubleToRawLongBits(&vec![Slot::Double(dnan)]));
    assert_eq!(l, Slot::Long(dnan as i64));
    assert_eq!(value(jvm_longBitsToDouble(&vec![l])), Slot::Double(dnan));
    assert_eq!(jvm_floatToRawIntBits(&vec![Slot::Int(1)]), Err(VmError::BadOperand));
}

#[test]
fn registry_finds_natives_by_class_name_and_descriptor() {
    let t = JavaThread::new(1);
    let f = t.natives.lookup(&b"java/lang/Float".to_vec(), &b"floatToRawIntBits".to_vec(), &b"(F)I".to_vec());
    assert_eq!(f, Some(NativeFn::FloatToRawIntBits));
    let g = t.natives.lookup(&b"java/lang/Class".to_vec(), &b"getName0".to_vec(), &b"()Ljava/lang/String;".to_vec());
    assert_eq!(g, Some(NativeFn::GetName0));
    assert_eq!(t.natives.lookup(&b"java/lang/Class".to_vec(), &b"getName0".to_vec(), &b"()V".to_vec()), None);
}

fn with_cp(t: &mut JavaThread, name: &str, cp: Vec<CpEntry>) -> usize {
    let mut c = Class::plain(name.as_bytes().to_vec(), Some(OBJECT), ClassKind::Instance, ACC_PUBLIC);
    c.cp = cp;
    t.classes.add(c)
}

#[test]
fn unknown_field_class_is_unresolved() {
    let mut t = JavaThread::new(1);
    let cp = vec![
        CpEntry::Unusable,
        CpEntry::Utf8(b"Nope".to_vec()),
        CpEntry::Class { name_index: 1 },
        CpEntry::Utf8(b"x".to_vec()),
        CpEntry::Utf8(b"I".to_vec()),
        CpEntry::NameAndType { name_index: 3, descriptor_index: 4 },
        CpEntry::FieldRef { class_index: 2, name_and_type_index: 5 },
    ];
    let m = with_cp(&mut t, "M", cp);
    let mut f = frame(vec![0xb2, 0, 6], vec![], m);
    f.pc = 1;
    assert_eq!(f.get_static(&t), Err(VmError::Unresolved));
    assert_eq!(f.pc, 1);
}

#[test]
fn ldc_of_a_name_entry_is_a_bad_constant() {
    let mut t = JavaThread::new(1);
    let m = with_cp(&mut t, "M", vec![CpEntry::Unusable, CpEntry::Utf8(b"x".to_vec())]);
    let mut f = frame(vec![0x12, 1], vec![], m);
    f.pc = 1;
    assert_eq!(f.ldc(&mut t), Err(VmError::BadConstant));
}

#[test]
fn ldc_interns_strings() {
    let mut t = JavaThread::new(1);
    let cp = vec![CpEntry::Unusable, CpEntry::Utf8(b"hi".to_vec()), CpEntry::Str { string_index: 1 }, CpEntry::Integer(-5)];
    let m = with_cp(&mut t, "M", cp);
    let mut f = frame(vec![0x12, 2, 0x12, 2, 0x12, 3], vec![], m);
    f.pc = 1;
    assert_eq!(f.ldc(&mut t), Ok(None));
    f.pc = 3;
    assert_eq!(f.ldc(&mut t), Ok(None));
    f.pc = 5;
    assert_eq!(f.ldc(&mut t), Ok(None));
    assert_eq!(f.stack[0], f.stack[1]);
    assert_eq!(f.stack[2], Slot::Int(-5));
    assert_eq!(text(&t, f.stack[0]), b"hi".to_vec());
}

#[test]
fn declaring_class_comes_from_inner_classes() {
    let mut t = JavaThread::new(1);
    let outer = with_cp(&mut t, "Outer", vec![]);
    let cp = vec![
        CpEntry::Unusable,
        CpEntry::Utf8(b"Outer$In".to_vec()),
        CpEntry::Class { name_index: 1 },
        CpEntry::Utf8(b"Outer".to_vec()),
        CpEntry::Class { name_index: 3 },
    ];
    let inner = with_cp(&mut t, "Outer$In", cp);
    t.classes.classes[inner].inner_classes = vec![(2, 4)];
    create_delayed_mirrors(&mut t);
    create_mirror(&mut t, outer);
    create_mirror(&mut t, inner);
    let im = t.classes.classes[inner].mirror.unwrap();
    let om = t.classes.classes[outer].mirror.unwrap();
    let r = jvm_core::native::java_lang_Class::jvm_getDeclaringClass0(&mut t, &vec![Slot::Ref(im)]);
    assert_eq!(r, Ok(NativeOutcome::Value(Slot::Ref(om))));
    let r2 = jvm_core::native::java_lang_Class::jvm_getDeclaringClass0(&mut t, &vec![Slot::Ref(om)]);
    assert_eq!(r2, Ok(NativeOutcome::Value(Slot::Null)));
}

#[test]
fn enclosing_method_is_class_name_and_descriptor() {
    let mut t = JavaThread::new(1);
    let obj_array = Class::plain(
        b"[Ljava/lang/Object;".to_vec(),
        Some(OBJECT),
        ClassKind::ObjectArray { component: OBJECT },
        ACC_PUBLIC,
    );
    t.classes.add(obj_array);
    let host = with_cp(&mut t, "Host", vec![]);
    let cp = vec![
        CpEntry::Unusable,
        CpEntry::Utf8(b"Host".to_vec()),
        CpEntry::Class { name_index: 1 },
        CpEntry::Utf8(b"run".to_vec()),
        CpEntry::Utf8(b"()V".to_vec()),
        CpEntry::NameAndType { name_index: 3, descriptor_index: 4 },
    ];
    let local = with_cp(&mut t, "Host$1", cp);
    t.classes.classes[local].enclosing_method = Some((2, 5));
    create_delayed_mirrors(&mut t);
    create_mirror(&mut t, host);
    create_mirror(&mut t, local);
    let lm = t.classes.classes[local].mirror.unwrap();
    let r = value(jvm_core::native::java_lang_Class::jvm_getEnclosingMethod0(&mut t, &vec![Slot::Ref(lm)]));
    let p = match r {
        Slot::Ref(p) => p,
        other => panic!("unexpected {:?}", other),
    };
    match t.heap.objs[p].kind.clone() {
        ObjKind::Array { elements, .. } => {
            assert_eq!(elements[0], Slot::Ref(t.classes.classes[host].mirror.unwrap()));
            assert_eq!(text(&t, elements[1]), b"run".to_vec());
            assert_eq!(text(&t, elements[2]), b"()V".to_vec());
        },
        _ => panic!("not an array"),
    }
}

fn reflect_thread() -> (JavaThread, usize) {
    let mut t = JavaThread::new(1);
    let field = t.classes.add(Class::plain(b"java/lang/reflect/Field".to_vec(), Some(OBJECT), ClassKind::Instance, ACC_PUBLIC));
    t.classes.add(Class::plain(b"[Ljava/lang/reflect/Field;".to_vec(), Some(OBJECT), ClassKind::ObjectArray { component: field }, ACC_PUBLIC));
    let ctor = t.classes.add(Class::plain(b"java/lang/reflect/Constructor".to_vec(), Some(OBJECT), ClassKind::Instance, ACC_PUBLIC));
    t.classes.add(Class::plain(b"[Ljava/lang/reflect/Constructor;".to_vec(), Some(OBJECT), ClassKind::ObjectArray { component: ctor }, ACC_PUBLIC));
    let mut c = Class::plain(b"P".to_vec(), Some(OBJECT), ClassKind::Instance, ACC_PUBLIC);
    let fld = |n: &str, acc: u16| jvm_core::class::FieldInfo {
        name: n.as_bytes().to_vec(),
        descriptor: b"I".to_vec(),
        acc_flags: acc,
        value_type: ValueType::Int,
        slot: 0,
    };
    c.fields = vec![
        fld("s", jvm_core::class::ACC_STATIC | ACC_PUBLIC),
        fld("a", 0),
        fld("b", ACC_PUBLIC),
    ];
    let m = |n: &str| jvm_core::class::MethodInfo { name: n.as_bytes().to_vec(), descriptor: b"()V".to_vec(), acc_flags: 0, code: None };
    c.methods = vec![m("<init>"), m("run"), m("<init>")];
    let k = t.classes.add(c);
    create_delayed_mirrors(&mut t);
    create_mirror(&mut t, k);
    (t, k)
}

fn member_indices(t: &JavaThread, v: Slot) -> Vec<usize> {
    let p = match v {
        Slot::Ref(p) => p,
        other => panic!("unexpected {:?}", other),
    };
    match &t.heap.objs[p].kind {
        ObjKind::Array { elements, .. } => elements
            .iter()
            .map(|e| match e {
                Slot::Ref(q) => match t.heap.objs[*q].kind {
                    ObjKind::Member { index, .. } => index,
                    _ => panic!("not a member"),
                },
                _ => panic!("not a reference"),
            })
            .collect(),
        _ => panic!("not an array"),
    }
}

#[test]
fn declared_fields_list_instance_fields_then_statics() {
    let (mut t, k) = reflect_thread();
    let m = Slot::Ref(t.classes.classes[k].mirror.unwrap());
    let all = value(jvm_core::native::java_lang_Class::jvm_getDeclaredFields0(&mut t, &vec![m, Slot::Int(0)]));
    assert_eq!(member_indices(&t, all), vec![1, 2, 0]);
    let public = value(jvm_core::native::java_lang_Class::jvm_getDeclaredFields0(&mut t, &vec![m, Slot::Int(1)]));
    assert_eq!(member_indices(&t, public), vec![2, 0]);
}

#[test]
fn declared_constructors_are_the_init_methods() {
    let (mut t, k) = reflect_thread();
    let m = Slot::Ref(t.classes.classes[k].mirror.unwrap());
    let cs = value(jvm_core::native::java_lang_Class::jvm_getDeclaredConstructors0(&mut t, &vec![m, Slot::Int(0)]));
    assert_eq!(member_indices(&t, cs), vec![0, 2]);
}

#[test]
fn class_native_table_has_seventeen_entries() {
    let ms = jvm_core::native::java_lang_Class::get_native_methods();
    assert_eq!(ms.len(), 17);
    assert_eq!(ms[3].name, b"getDeclaredFields0".to_vec());
    assert_eq!(ms[3].desc, b"(Z)[Ljava/lang/reflect/Field;".to_vec());
    assert_eq!(ms[9].f, NativeFn::GetDeclaredConstructors0);
}
