use jvm_core::class::{
    Class, ClassKind, ClassState, Code, CpEntry, ExEntry, FieldInfo, MethodInfo, ACC_PUBLIC, ACC_STATIC, ARITHMETIC,
    ARRAY_INDEX_OUT_OF_BOUNDS, NULL_POINTER, OBJECT, RUNTIME_EXCEPTION,
};
use jvm_core::frame::Frame;
use jvm_core::heap::ObjKind;
use jvm_core::interp::{run, Exit};
use jvm_core::thread::JavaThread;
use jvm_core::value::{Slot, ValueType};

fn method(name: &str, desc: &str, acc: u16, code: Vec<u8>, max_stack: usize, max_locals: usize, table: Vec<ExEntry>) -> MethodInfo {
    MethodInfo {
        name: name.as_bytes().to_vec(),
        descriptor: desc.as_bytes().to_vec(),
        acc_flags: acc,
        code: Some(Code { code, max_stack, max_locals, exception_table: table }),
    }
}

fn class(name: &str, cp: Vec<CpEntry>, fields: Vec<FieldInfo>, statics: usize, methods: Vec<MethodInfo>) -> Class {
    Class {
        name: name.as_bytes().to_vec(),
        acc_flags: ACC_PUBLIC,
        super_class: Some(OBJECT),
        interfaces: vec![],
        kind: ClassKind::Instance,
        state: ClassState::Linked,
        mirror: None,
        cp,
        fields,
        layout: vec![],
        static_values: vec![Slot::Int(0); statics],
        methods,
        enclosing_method: None,
        inner_classes: vec![],
    }
}

fn utf8(s: &str) -> CpEntry {
    CpEntry::Utf8(s.as_bytes().to_vec())
}

fn run_method(t: &mut JavaThread, c: usize, m: usize) -> Exit {
    let f = Frame::new(&t.classes, c, m, 0).unwrap();
    let mut frames = vec![f];
    run(t, &mut frames, 10_000).unwrap()
}

fn exception(t: &JavaThread, e: usize) -> (usize, Option<Vec<u8>>) {
    match &t.heap.objs[e].kind {
        ObjKind::Throwable { class, message } => (*class, message.clone()),
        ObjKind::Inst { class, .. } => (*class, None),
        _ => panic!("not an exception"),
    }
}

/// class A { static int x = 7; static int n; static { n = n + 1; } static int f() { return x + 3; } }
fn class_a() -> Class {
    let cp = vec![
        CpEntry::Unusable,
        utf8("A"),
        CpEntry::Class { name_index: 1 },
        utf8("x"),
        utf8("I"),
        CpEntry::NameAndType { name_index: 3, descriptor_index: 4 },
        CpEntry::FieldRef { class_index: 2, name_and_type_index: 5 },
        utf8("n"),
        CpEntry::NameAndType { name_index: 7, descriptor_index: 4 },
        CpEntry::FieldRef { class_index: 2, name_and_type_index: 8 },
    ];
    let fields = vec![
        FieldInfo { name: b"x".to_vec(), descriptor: b"I".to_vec(), acc_flags: ACC_STATIC, value_type: ValueType::Int, slot: 0 },
        FieldInfo { name: b"n".to_vec(), descriptor: b"I".to_vec(), acc_flags: ACC_STATIC, value_type: ValueType::Int, slot: 1 },
    ];
    let clinit = vec![0x10, 7, 0xb3, 0, 6, 0xb2, 0, 9, 0x04, 0x60, 0xb3, 0, 9, 0xb1];
    let f = vec![0xb2, 0, 6, 0x06, 0x60, 0xac];
    class("A", cp, fields, 2, vec![
        method("<clinit>", "()V", ACC_STATIC, clinit, 2, 0, vec![]),
        method("f", "()I", ACC_STATIC | ACC_PUBLIC, f, 2, 0, vec![]),
    ])
}

#[test]
fn static_initializer_runs_once_and_f_returns_ten() {
    let mut t = JavaThread::new(1);
    let a = t.classes.add(class_a());
    assert!(matches!(run_method(&mut t, a, 1), Exit::Returned(Some(Slot::Int(10)))));
    assert!(matches!(run_method(&mut t, a, 1), Exit::Returned(Some(Slot::Int(10)))));
    assert_eq!(t.classes.classes[a].state, ClassState::FullyInitialized);
    assert_eq!(t.classes.classes[a].static_values[1], Slot::Int(1));
}

#[test]
fn array_index_out_of_bounds_scenario() {
    let mut t = JavaThread::new(1);
    // int[] a = new int[3]; a[3] = 1;
    let code = vec![0x06, 0xbc, 10, 0x4b, 0x2a, 0x06, 0x04, 0x4f, 0xb1];
    let c = t.classes.add(class("M", vec![], vec![], 0, vec![method("m", "()V", ACC_STATIC, code, 4, 1, vec![])]));
    match run_method(&mut t, c, 0) {
        Exit::Threw(e) => assert_eq!(
            exception(&t, e),
            (ARRAY_INDEX_OUT_OF_BOUNDS, Some(b"length is 3, but index is 3".to_vec()))
        ),
        other => panic!("unexpected {:?}", other),
    }
}

#[test]
fn division_by_zero_scenario() {
    let mut t = JavaThread::new(1);
    // int q = 5 / 0;
    let code = vec![0x08, 0x03, 0x6c, 0x3b, 0xb1];
    let c = t.classes.add(class("M", vec![], vec![], 0, vec![method("m", "()V", ACC_STATIC, code, 2, 1, vec![])]));
    match run_method(&mut t, c, 0) {
        Exit::Threw(e) => assert_eq!(exception(&t, e), (ARITHMETIC, Some(b"/ by zero".to_vec()))),
        other => panic!("unexpected {:?}", other),
    }
}

#[test]
fn invokevirtual_on_null_raises_null_pointer() {
    let mut t = JavaThread::new(1);
    // Object o = null; o.hashCode();
    let cp = vec![
        CpEntry::Unusable,
        utf8("java/lang/Object"),
        CpEntry::Class { name_index: 1 },
        utf8("hashCode"),
        utf8("()I"),
        CpEntry::NameAndType { name_index: 3, descriptor_index: 4 },
        CpEntry::MethodRef { class_index: 2, name_and_type_index: 5 },
    ];
    let code = vec![0x01, 0x4b, 0x2a, 0xb6, 0, 6, 0x57, 0xb1];
    let c = t.classes.add(class("M", cp, vec![], 0, vec![method("m", "()V", ACC_STATIC, code, 2, 1, vec![])]));
    match run_method(&mut t, c, 0) {
        Exit::Threw(e) => assert_eq!(exception(&t, e).0, NULL_POINTER),
        other => panic!("unexpected {:?}", other),
    }
}

#[test]
fn tableswitch_scenario_takes_default() {
    let mut t = JavaThread::new(1);
    let mut code = vec![0x08, 0xaa, 0, 0];
    for v in [27i32, 1, 2, 23, 25] {
        code.extend_from_slice(&v.to_be_bytes());
    }
    code.extend_from_slice(&[0x04, 0xac, 0x05, 0xac, 0x07, 0xac]);
    let c = t.classes.add(class("M", vec![], vec![], 0, vec![method("m", "()I", ACC_STATIC, code, 2, 0, vec![])]));
    assert!(matches!(run_method(&mut t, c, 0), Exit::Returned(Some(Slot::Int(4)))));
}

#[test]
fn handler_matches_thrown_subtype() {
    let mut t = JavaThread::new(1);
    // try { throw new ArithmeticException(); } catch (RuntimeException e) { return 1; } 
    let cp = vec![CpEntry::Unusable, utf8("java/lang/ArithmeticException"), CpEntry::Class { name_index: 1 }];
    let code = vec![0xbb, 0, 2, 0xbf, 0x03, 0xac, 0x4b, 0x04, 0xac];
    let table = vec![ExEntry { start_pc: 0, end_pc: 4, handler_pc: 6, catch_class: Some(RUNTIME_EXCEPTION) }];
    let c = t.classes.add(class("M", cp, vec![], 0, vec![method("m", "()I", ACC_STATIC, code, 2, 1, table)]));
    assert!(matches!(run_method(&mut t, c, 0), Exit::Returned(Some(Slot::Int(1)))));
    assert!(t.ex.is_none());
}

#[test]
fn calls_pass_long_arguments_in_two_slots() {
    let mut t = JavaThread::new(1);
    // static long add(long a, int b) { return a + b; }  static long m() { return add(40L, 2); }
    let cp = vec![
        CpEntry::Unusable,
        utf8("M"),
        CpEntry::Class { name_index: 1 },
        utf8("add"),
        utf8("(JI)J"),
        CpEntry::NameAndType { name_index: 3, descriptor_index: 4 },
        CpEntry::MethodRef { class_index: 2, name_and_type_index: 5 },
        CpEntry::Long(40),
    ];
    let add = vec![0x1e, 0x1c, 0x85, 0x61, 0xad];
    let m = vec![0x14, 0, 7, 0x05, 0xb8, 0, 6, 0xad];
    let c = t.classes.add(class("M", cp, vec![], 0, vec![
        method("add", "(JI)J", ACC_STATIC, add, 4, 3, vec![]),
        method("m", "()J", ACC_STATIC, m, 4, 0, vec![]),
    ]));
    assert!(matches!(run_method(&mut t, c, 1), Exit::Returned(Some(Slot::Long(42)))));
}

#[test]
fn float_instruction_is_handed_to_the_host() {
    let mut t = JavaThread::new(1);
    let code = vec![0x0c, 0x0d, 0x62, 0xae];
    let c = t.classes.add(class("M", vec![], vec![], 0, vec![method("m", "()F", ACC_STATIC, code, 2, 0, vec![])]));
    let f = Frame::new(&t.classes, c, 0, 0).unwrap();
    let mut frames = vec![f];
    assert!(matches!(run(&mut t, &mut frames, 100).unwrap(), Exit::Float(0x62)));
    assert_eq!(frames[0].stack, vec![Slot::Float(0x3f80_0000), Slot::Float(0x4000_0000)]);
}

#[test]
fn multianewarray_builds_nested_arrays() {
    let mut t = JavaThread::new(1);
    let ia = t.classes.add(Class::plain(b"[I".to_vec(), Some(OBJECT), ClassKind::TypeArray { elem: ValueType::Int }, ACC_PUBLIC));
    let iaa = t.classes.add(Class::plain(b"[[I".to_vec(), Some(OBJECT), ClassKind::ObjectArray { component: ia }, ACC_PUBLIC));
    let cp = vec![CpEntry::Unusable, utf8("[[I"), CpEntry::Class { name_index: 1 }];
    // return new int[2][3];
    let code = vec![0x05, 0x06, 0xc5, 0, 2, 2, 0xb0];
    let c = t.classes.add(class("M", cp, vec![], 0, vec![method("m", "()[[I", ACC_STATIC, code, 2, 0, vec![])]));
    let p = match run_method(&mut t, c, 0) {
        Exit::Returned(Some(Slot::Ref(p))) => p,
        other => panic!("unexpected {:?}", other),
    };
    match &t.heap.objs[p].kind {
        ObjKind::Array { class, elements } => {
            assert_eq!(*class, iaa);
            assert_eq!(elements.len(), 2);
            for e in elements {
                match e {
                    Slot::Ref(q) => match &t.heap.objs[*q].kind {
                        ObjKind::TypeArray { elem, elements } => {
                            assert_eq!(*elem, ValueType::Int);
                            assert_eq!(elements, &vec![Slot::Int(0); 3]);
                        },
                        _ => panic!("inner is not an int array"),
                    },
                    _ => panic!("inner is not a reference"),
                }
            }
        },
        _ => panic!("not an array"),
    }
}
