use jvm_core::frame::Frame;
use jvm_core::heap::ObjKind;
use jvm_core::class::{ARITHMETIC, ARRAY_INDEX_OUT_OF_BOUNDS, ILLEGAL_MONITOR_STATE, NEGATIVE_ARRAY_SIZE, NULL_POINTER};
use jvm_core::thread::JavaThread;
use jvm_core::value::{Slot, ValueType, VmError};

fn frame(code: Vec<u8>, stack: Vec<Slot>, max_stack: usize, locals: usize) -> Frame {
    Frame {
        frame_id: 0,
        class: 0,
        method: 0,
        code,
        local: vec![Slot::Top; locals],
        stack,
        max_stack,
        pc: 0,
        return_v: None,
        op_widen: false,
        inst_pc: 0,
        init_class: None,
    }
}

fn message_of(t: &JavaThread, e: usize) -> (usize, Option<Vec<u8>>) {
    match &t.heap.objs[e].kind {
        ObjKind::Throwable { class, message } => (*class, message.clone()),
        _ => panic!("not an exception"),
    }
}

#[test]
fn iadd_wraps_on_overflow() {
    let mut f = frame(vec![], vec![Slot::Int(i32::MAX), Slot::Int(1)], 4, 0);
    assert!(f.iadd().is_ok());
    assert_eq!(f.stack, vec![Slot::Int(i32::MIN)]);
}

#[test]
fn lmul_wraps_modulo_two_to_the_64() {
    let mut f = frame(vec![], vec![Slot::Long(i64::MAX), Slot::Top, Slot::Long(2), Slot::Top], 4, 0);
    assert!(f.lmul().is_ok());
    assert_eq!(f.stack, vec![Slot::Long(-2), Slot::Top]);
}

#[test]
fn isub_and_ineg_wrap() {
    let mut f = frame(vec![], vec![Slot::Int(i32::MIN), Slot::Int(1)], 4, 0);
    assert!(f.isub().is_ok());
    assert_eq!(f.stack, vec![Slot::Int(i32::MAX)]);
    let mut g = frame(vec![], vec![Slot::Int(i32::MIN)], 4, 0);
    assert!(g.ineg().is_ok());
    assert_eq!(g.stack, vec![Slot::Int(i32::MIN)]);
}

#[test]
fn int_shift_count_is_masked_to_five_bits() {
    let mut f = frame(vec![], vec![Slot::Int(1), Slot::Int(33)], 4, 0);
    assert!(f.ishl().is_ok());
    assert_eq!(f.stack, vec![Slot::Int(2)]);
    let mut g = frame(vec![], vec![Slot::Int(-8), Slot::Int(1)], 4, 0);
    assert!(g.ishr().is_ok());
    assert_eq!(g.stack, vec![Slot::Int(-4)]);
    let mut h = frame(vec![], vec![Slot::Int(-1), Slot::Int(28)], 4, 0);
    assert!(h.iushr().is_ok());
    assert_eq!(h.stack, vec![Slot::Int(15)]);
}

#[test]
fn long_shift_count_is_masked_to_six_bits() {
    let mut f = frame(vec![], vec![Slot::Long(1), Slot::Top, Slot::Int(65)], 4, 0);
    assert!(f.lshl().is_ok());
    assert_eq!(f.stack, vec![Slot::Long(2), Slot::Top]);
    let mut g = frame(vec![], vec![Slot::Long(-1), Slot::Top, Slot::Int(60)], 4, 0);
    assert!(g.lushr().is_ok());
    assert_eq!(g.stack, vec![Slot::Long(15), Slot::Top]);
}

#[test]
fn division_truncates_toward_zero() {
    let mut t = JavaThread::new(1);
    let mut f = frame(vec![], vec![Slot::Int(-7), Slot::Int(2)], 4, 0);
    assert!(f.idiv(&mut t).is_ok());
    assert_eq!(f.stack, vec![Slot::Int(-3)]);
    let mut g = frame(vec![], vec![Slot::Int(-7), Slot::Int(2)], 4, 0);
    assert!(g.irem(&mut t).is_ok());
    assert_eq!(g.stack, vec![Slot::Int(-1)]);
    let mut h = frame(vec![], vec![Slot::Int(i32::MIN), Slot::Int(-1)], 4, 0);
    assert!(h.idiv(&mut t).is_ok());
    assert_eq!(h.stack, vec![Slot::Int(i32::MIN)]);
    let mut k = frame(vec![], vec![Slot::Long(i64::MIN), Slot::Top, Slot::Long(-1), Slot::Top], 4, 0);
    assert!(k.lrem(&mut t).is_ok());
    assert_eq!(k.stack, vec![Slot::Long(0), Slot::Top]);
    assert!(t.ex.is_none());
}

#[test]
fn int_division_by_zero_raises_arithmetic_exception() {
    let mut t = JavaThread::new(1);
    let mut f = frame(vec![], vec![Slot::Int(5), Slot::Int(0)], 4, 0);
    assert!(f.idiv(&mut t).is_ok());
    assert!(f.stack.is_empty());
    let e = t.ex.unwrap();
    assert_eq!(message_of(&t, e), (ARITHMETIC, Some(b"/ by zero".to_vec())));
}

#[test]
fn long_remainder_by_zero_raises_arithmetic_exception() {
    let mut t = JavaThread::new(1);
    let mut f = frame(vec![], vec![Slot::Long(5), Slot::Top, Slot::Long(0), Slot::Top], 4, 0);
    assert!(f.lrem(&mut t).is_ok());
    let e = t.ex.unwrap();
    assert_eq!(message_of(&t, e).0, ARITHMETIC);
}

#[test]
fn widening_int_max_plus_one() {
    let mut f = frame(vec![], vec![Slot::Int(i32::MAX)], 6, 0);
    assert!(f.i2l().is_ok());
    assert!(f.lconst_1().is_ok());
    assert!(f.ladd().is_ok());
    assert_eq!(f.stack, vec![Slot::Long(2147483648), Slot::Top]);
}

#[test]
fn narrowing_conversions() {
    let mut f = frame(vec![], vec![Slot::Int(0x1ff)], 2, 0);
    assert!(f.i2b().is_ok());
    assert_eq!(f.stack, vec![Slot::Int(-1)]);
    let mut g = frame(vec![], vec![Slot::Int(-1)], 2, 0);
    assert!(g.i2c().is_ok());
    assert_eq!(g.stack, vec![Slot::Int(0xffff)]);
    let mut h = frame(vec![], vec![Slot::Int(0x18000)], 2, 0);
    assert!(h.i2s().is_ok());
    assert_eq!(h.stack, vec![Slot::Int(-32768)]);
    let mut k = frame(vec![], vec![Slot::Long(0x1_0000_0005), Slot::Top], 2, 0);
    assert!(k.l2i().is_ok());
    assert_eq!(k.stack, vec![Slot::Int(5)]);
}

#[test]
fn lcmp_follows_the_jvm_sign_convention() {
    let mut f = frame(vec![], vec![Slot::Long(5), Slot::Top, Slot::Long(3), Slot::Top], 4, 0);
    assert!(f.lcmp().is_ok());
    assert_eq!(f.stack, vec![Slot::Int(1)]);
    let mut g = frame(vec![], vec![Slot::Long(3), Slot::Top, Slot::Long(5), Slot::Top], 4, 0);
    assert!(g.lcmp().is_ok());
    assert_eq!(g.stack, vec![Slot::Int(-1)]);
}

#[test]
fn float_compares_handle_nan_and_signed_zero() {
    let nan = 0x7fc0_0000u32;
    let one = 1.0f32.to_bits();
    let mut f = frame(vec![], vec![Slot::Float(nan), Slot::Float(one)], 2, 0);
    assert!(f.fcmpl().is_ok());
    assert_eq!(f.stack, vec![Slot::Int(-1)]);
    let mut g = frame(vec![], vec![Slot::Float(nan), Slot::Float(one)], 2, 0);
    assert!(g.fcmpg().is_ok());
    assert_eq!(g.stack, vec![Slot::Int(1)]);
    let mut h = frame(vec![], vec![Slot::Float(0.0f32.to_bits()), Slot::Float((-0.0f32).to_bits())], 2, 0);
    assert!(h.fcmpl().is_ok());
    assert_eq!(h.stack, vec![Slot::Int(0)]);
    let mut k = frame(vec![], vec![Slot::Float((-2.0f32).to_bits()), Slot::Float(one)], 2, 0);
    assert!(k.fcmpg().is_ok());
    assert_eq!(k.stack, vec![Slot::Int(-1)]);
}

#[test]
fn double_compares() {
    let a = 2.5f64.to_bits();
    let b = (-1.0f64).to_bits();
    let mut f = frame(vec![], vec![Slot::Double(a), Slot::Top, Slot::Double(b), Slot::Top], 4, 0);
    assert!(f.dcmpl().is_ok());
    assert_eq!(f.stack, vec![Slot::Int(1)]);
    let nan = 0x7ff8_0000_0000_0001u64;
    let mut g = frame(vec![], vec![Slot::Double(nan), Slot::Top, Slot::Double(b), Slot::Top], 4, 0);
    assert!(g.dcmpl().is_ok());
    assert_eq!(g.stack, vec![Slot::Int(-1)]);
}

#[test]
fn constants_and_operand_pushes() {
    let mut f = frame(vec![0xff, 0x80, 0x00], vec![], 8, 0);
    assert!(f.bipush().is_ok());
    assert!(f.sipush().is_ok());
    assert!(f.fconst_1().is_ok());
    assert!(f.dconst_1().is_ok());
    assert_eq!(
        f.stack,
        vec![Slot::Int(-1), Slot::Int(-32768), Slot::Float(0x3f80_0000), Slot::Double(0x3ff0_0000_0000_0000), Slot::Top]
    );
    assert_eq!(f.pc, 3);
}

#[test]
fn long_locals_take_two_slots() {
    let mut f = frame(vec![], vec![Slot::Long(9), Slot::Top], 4, 3);
    assert!(f.lstore_1().is_ok());
    assert_eq!(f.local, vec![Slot::Top, Slot::Long(9), Slot::Top]);
    assert!(f.lload_1().is_ok());
    assert_eq!(f.stack, vec![Slot::Long(9), Slot::Top]);
    assert_eq!(f.iload_2(), Err(VmError::BadLocal));
}

#[test]
fn wide_iinc_uses_sixteen_bit_operands() {
    let mut f = frame(vec![0x01, 0x00, 0xff, 0xfe], vec![], 2, 300);
    f.local[256] = Slot::Int(10);
    f.wide();
    assert!(f.iinc().is_ok());
    assert_eq!(f.local[256], Slot::Int(8));
    assert_eq!(f.pc, 4);
    assert!(!f.op_widen);
}

#[test]
fn stack_shuffles() {
    let mut f = frame(vec![], vec![Slot::Int(1), Slot::Int(2), Slot::Int(3)], 8, 0);
    assert!(f.dup_x2().is_ok());
    assert_eq!(f.stack, vec![Slot::Int(3), Slot::Int(1), Slot::Int(2), Slot::Int(3)]);
    let mut g = frame(vec![], vec![Slot::Long(7), Slot::Top], 8, 0);
    assert!(g.dup2().is_ok());
    assert_eq!(g.stack, vec![Slot::Long(7), Slot::Top, Slot::Long(7), Slot::Top]);
    let mut h = frame(vec![], vec![Slot::Int(1), Slot::Null], 8, 0);
    assert!(h.swap().is_ok());
    assert_eq!(h.stack, vec![Slot::Null, Slot::Int(1)]);
    let mut k = frame(vec![], vec![Slot::Long(7), Slot::Top], 8, 0);
    assert_eq!(k.pop(), Err(VmError::BadOperand));
    assert!(k.pop2().is_ok());
    assert!(k.stack.is_empty());
}

#[test]
fn push_beyond_max_stack_is_refused() {
    let mut f = frame(vec![], vec![Slot::Int(1)], 1, 0);
    assert_eq!(f.iconst_0(), Err(VmError::StackOverflow));
    assert_eq!(f.stack, vec![Slot::Int(1)]);
}

#[test]
fn operand_errors_leave_the_frame_unchanged() {
    let mut f = frame(vec![], vec![Slot::Int(1)], 4, 0);
    assert_eq!(f.iadd(), Err(VmError::BadOperand));
    assert_eq!(f.stack, vec![Slot::Int(1)]);
    let mut g = frame(vec![0x10], vec![], 4, 0);
    g.pc = 1;
    assert_eq!(g.bipush(), Err(VmError::BadCode));
    assert_eq!(g.frem(), Err(VmError::Unsupported(0x72)));
    assert_eq!(g.jsr(), Err(VmError::Unsupported(0xa8)));
}

#[test]
fn conditional_branches_are_relative_to_the_opcode() {
    // ifeq at 0 with offset +5
    let mut f = frame(vec![0x99, 0x00, 0x05, 0, 0, 0, 0], vec![Slot::Int(0)], 2, 0);
    f.pc = 1;
    assert!(f.ifeq().is_ok());
    assert_eq!(f.pc, 5);
    let mut g = frame(vec![0x99, 0x00, 0x05, 0, 0, 0, 0], vec![Slot::Int(3)], 2, 0);
    g.pc = 1;
    assert!(g.ifeq().is_ok());
    assert_eq!(g.pc, 3);
    let mut h = frame(vec![0xa2, 0xff, 0xff, 0], vec![Slot::Int(4), Slot::Int(3)], 2, 0);
    h.pc = 1;
    assert_eq!(h.if_icmpge(), Err(VmError::BadCode));
}

fn table_switch_code() -> Vec<u8> {
    let mut code = vec![0x08, 0xaa, 0, 0];
    for v in [27i32, 1, 2, 23, 25] {
        code.extend_from_slice(&v.to_be_bytes());
    }
    code.extend_from_slice(&[0x04, 0xac, 0x05, 0xac, 0x07, 0xac]);
    code
}

#[test]
fn tableswitch_out_of_range_goes_to_default() {
    let mut f = frame(table_switch_code(), vec![Slot::Int(5)], 2, 0);
    f.pc = 2;
    assert!(f.table_switch().is_ok());
    assert_eq!(f.pc, 28);
    let mut g = frame(table_switch_code(), vec![Slot::Int(2)], 2, 0);
    g.pc = 2;
    assert!(g.table_switch().is_ok());
    assert_eq!(g.pc, 26);
}

#[test]
fn lookupswitch_picks_the_matching_pair() {
    let mut code = vec![0xab, 0, 0, 0];
    for v in [40i32, 2, 7, 20, 9, 30] {
        code.extend_from_slice(&v.to_be_bytes());
    }
    code.resize(48, 0);
    let mut f = frame(code.clone(), vec![Slot::Int(9)], 2, 0);
    f.pc = 1;
    assert!(f.lookup_switch().is_ok());
    assert_eq!(f.pc, 30);
    let mut g = frame(code, vec![Slot::Int(8)], 2, 0);
    g.pc = 1;
    assert!(g.lookup_switch().is_ok());
    assert_eq!(g.pc, 40);
}

#[test]
fn array_store_out_of_bounds_message() {
    let mut t = JavaThread::new(1);
    let mut f = frame(vec![0xbc, 10], vec![Slot::Int(3)], 4, 0);
    f.pc = 1;
    assert!(f.new_array(&mut t).is_ok());
    let a = f.stack[0];
    f.stack.push(Slot::Int(3));
    f.stack.push(Slot::Int(1));
    assert!(f.iastore(&mut t).is_ok());
    let e = t.ex.unwrap();
    assert_eq!(message_of(&t, e), (ARRAY_INDEX_OUT_OF_BOUNDS, Some(b"length is 3, but index is 3".to_vec())));
    assert!(f.stack.is_empty());
    assert!(matches!(a, Slot::Ref(_)));
}

#[test]
fn byte_and_char_arrays_narrow_and_extend() {
    let mut t = JavaThread::new(1);
    let mut f = frame(vec![0xbc, 8, 0xbc, 5], vec![Slot::Int(2)], 8, 0);
    f.pc = 1;
    assert!(f.new_array(&mut t).is_ok());
    let bytes = f.stack[0];
    f.stack = vec![bytes, Slot::Int(0), Slot::Int(0x1ff)];
    assert!(f.bastore(&mut t).is_ok());
    f.stack = vec![bytes, Slot::Int(0)];
    assert!(f.baload(&mut t).is_ok());
    assert_eq!(f.stack, vec![Slot::Int(-1)]);
    f.stack = vec![Slot::Int(1)];
    f.pc = 3;
    assert!(f.new_array(&mut t).is_ok());
    let chars = f.stack[0];
    f.stack = vec![chars, Slot::Int(0), Slot::Int(-1)];
    assert!(f.castore(&mut t).is_ok());
    f.stack = vec![chars, Slot::Int(0)];
    assert!(f.caload(&mut t).is_ok());
    assert_eq!(f.stack, vec![Slot::Int(0xffff)]);
    f.stack = vec![chars];
    assert!(f.array_length(&mut t).is_ok());
    assert_eq!(f.stack, vec![Slot::Int(1)]);
}

#[test]
fn negative_array_length_raises() {
    let mut t = JavaThread::new(1);
    let mut f = frame(vec![0xbc, 10], vec![Slot::Int(-1)], 4, 0);
    f.pc = 1;
    assert!(f.new_array(&mut t).is_ok());
    let e = t.ex.unwrap();
    assert_eq!(message_of(&t, e), (NEGATIVE_ARRAY_SIZE, Some(b"length < 0".to_vec())));
}

#[test]
fn null_array_and_null_monitor_raise_null_pointer() {
    let mut t = JavaThread::new(1);
    let mut f = frame(vec![], vec![Slot::Null, Slot::Int(0)], 4, 0);
    assert!(f.iaload(&mut t).is_ok());
    assert_eq!(message_of(&t, t.ex.unwrap()).0, NULL_POINTER);
    let mut t2 = JavaThread::new(1);
    let mut g = frame(vec![], vec![Slot::Null], 4, 0);
    assert!(g.monitor_enter(&mut t2).is_ok());
    assert_eq!(message_of(&t2, t2.ex.unwrap()).0, NULL_POINTER);
    let mut t3 = JavaThread::new(1);
    let mut h = frame(vec![], vec![Slot::Null], 4, 0);
    assert!(h.array_length(&mut t3).is_ok());
    assert_eq!(message_of(&t3, t3.ex.unwrap()).0, NULL_POINTER);
}

#[test]
fn monitors_are_reentrant_and_checked_on_exit() {
    let mut t = JavaThread::new(7);
    let p = t.heap.allocate(ObjKind::TypeArray { elem: ValueType::Int, elements: vec![] });
    let mut f = frame(vec![], vec![Slot::Ref(p), Slot::Ref(p)], 4, 0);
    assert!(f.monitor_enter(&mut t).is_ok());
    assert!(f.monitor_enter(&mut t).is_ok());
    assert_eq!((t.heap.objs[p].owner, t.heap.objs[p].count), (7, 2));
    f.stack = vec![Slot::Ref(p), Slot::Ref(p), Slot::Ref(p)];
    assert!(f.monitor_exit(&mut t).is_ok());
    assert!(f.monitor_exit(&mut t).is_ok());
    assert_eq!(t.heap.objs[p].count, 0);
    assert!(t.ex.is_none());
    assert!(f.monitor_exit(&mut t).is_ok());
    assert_eq!(message_of(&t, t.ex.unwrap()).0, ILLEGAL_MONITOR_STATE);
}

#[test]
fn non_array_object_is_a_host_error() {
    let mut t = JavaThread::new(1);
    let p = t.new_string(b"x".to_vec());
    let mut f = frame(vec![], vec![Slot::Ref(p), Slot::Int(0)], 4, 0);
    assert_eq!(f.iaload(&mut t), Err(VmError::BadObject));
    assert_eq!(f.stack, vec![Slot::Ref(p), Slot::Int(0)]);
}

#[test]
fn returns_record_the_value() {
    let mut f = frame(vec![], vec![Slot::Long(4), Slot::Top], 2, 0);
    assert!(f.lreturn().is_ok());
    assert_eq!(f.return_v, Some(Slot::Long(4)));
    assert!(f.stack.is_empty());
}

fn f2i_of(x: f32) -> Slot {
    let mut f = frame(vec![], vec![Slot::Float(x.to_bits())], 2, 0);
    assert!(f.f2i().is_ok());
    f.stack[0]
}

#[test]
fn float_to_int_truncates_saturates_and_zeroes_nan() {
    assert_eq!(f2i_of(3.9), Slot::Int(3));
    assert_eq!(f2i_of(-3.9), Slot::Int(-3));
    assert_eq!(f2i_of(f32::NAN), Slot::Int(0));
    assert_eq!(f2i_of(f32::INFINITY), Slot::Int(i32::MAX));
    assert_eq!(f2i_of(f32::NEG_INFINITY), Slot::Int(i32::MIN));
    assert_eq!(f2i_of(2147483648.0), Slot::Int(i32::MAX));
    assert_eq!(f2i_of(-2147483648.0), Slot::Int(i32::MIN));
    assert_eq!(f2i_of(1.0e-40), Slot::Int(0));
    assert_eq!(f2i_of(16777216.0), Slot::Int(16777216));
}

#[test]
fn float_and_double_to_long() {
    let mut f = frame(vec![], vec![Slot::Float(1.0e10f32.to_bits())], 2, 0);
    assert!(f.f2l().is_ok());
    assert_eq!(f.stack, vec![Slot::Long(10000000000), Slot::Top]);
    let mut g = frame(vec![], vec![Slot::Double(9.3e18f64.to_bits()), Slot::Top], 2, 0);
    assert!(g.d2l().is_ok());
    assert_eq!(g.stack, vec![Slot::Long(i64::MAX), Slot::Top]);
    let mut h = frame(vec![], vec![Slot::Double((-2.5f64).to_bits()), Slot::Top], 2, 0);
    assert!(h.d2i().is_ok());
    assert_eq!(h.stack, vec![Slot::Int(-2)]);
    let mut k = frame(vec![], vec![Slot::Double(f64::NAN.to_bits()), Slot::Top], 2, 0);
    assert!(k.d2l().is_ok());
    assert_eq!(k.stack, vec![Slot::Long(0), Slot::Top]);
    let mut m = frame(vec![], vec![Slot::Double((-1.0e300f64).to_bits()), Slot::Top], 2, 0);
    assert!(m.d2i().is_ok());
    assert_eq!(m.stack, vec![Slot::Int(i32::MIN)]);
}
