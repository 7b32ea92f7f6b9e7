//! The interpreter loop: decoding and dispatching one instruction, and
//! running a stack of frames through calls, returns, class initialization
//! and exception unwinding.
use vstd::prelude::*;
use crate::class::{Class, ClassState};
use crate::init::begin_init_post;
use crate::frame::new_frame_post;
use crate::exception::handles;
use crate::frame::Frame;
use crate::ops_object::multi_built;
use crate::ops_object::multi_ok;
use crate::ops_object::multi_counts;
use crate::class::lookup_class;
use crate::value::ValueType;
use crate::value::zero_of;
use crate::ops_object::array_name_of;
use crate::class::resolved_class;
use crate::heap::{HeapObj, ObjKind};
use crate::ops_local::u2_at;
use crate::ops_array::atype_elem;
use crate::invoke::InvokeKind;
use crate::invoke::invoke_step;
use crate::class::ClassKind;
use crate::ops_field::field_value;
use crate::ops_field::has_field_slot;
use crate::ops_field::inst_field_set;
use crate::init::init_ready;
use crate::ops_field::field_cat;
use crate::ops_field::field_ok;
use crate::ops_field::narrow_to;
use crate::heap::elements_of;
use crate::ops_local::pushed;
use crate::ops_local::stack_holds;
use crate::ops_local::width;
use crate::ops_branch::lookup_fits;
use crate::ops_branch::lookup_from;
use crate::ops_branch::return_step;
use crate::ops_branch::switch_step;
use crate::ops_branch::table_fits;
use crate::ops_branch::table_target;
use crate::class::CLASS_CAST;
use crate::ops_field::field_class;
use crate::ops_field::field_operand;
use crate::value::compare;
use crate::value::dcmp;
use crate::value::fcmp;
use crate::ops_object::cast_message;
use crate::ops_branch::Cond;
use crate::ops_branch::holds;
use crate::value::f32_to_integer;
use crate::value::f64_to_integer;
use crate::ops_object::obj_class_name;
use crate::ops_local::local_holds;
use crate::frame::double_of;
use crate::frame::double_on;
use crate::frame::float_of;
use crate::frame::float_on;
use crate::ops_math::ShiftOp;
use crate::ops_math::int_shift_step;
use crate::ops_math::long_shift_step;
use crate::value::wrap_i32;
use crate::value::wrap_i64;
use crate::ops_object::class_operand;
use crate::frame::long_of;
use crate::frame::long_on;
use crate::ops_math::BinOp;
use crate::ops_math::div_step;
use crate::ops_math::int_binop_step;
use crate::ops_math::long_binop_step;
use crate::ops_object::passes;
use crate::ops_object::type_check_ok;
use crate::ops_local::pair;
use crate::ops_local::single;
use crate::class::ILLEGAL_MONITOR_STATE;
use crate::frame::stack_is;
use crate::ops_array::store_elem_step;
use crate::class::NULL_POINTER;
use crate::ops_local::store_step;
use crate::frame::int_on;
use crate::thread::raised;
use crate::class::NEGATIVE_ARRAY_SIZE;
use crate::ops_array::ArrKind;
use crate::ops_array::load_elem_step;
use crate::ops_local::Cat;
use crate::ops_local::i2_at;
use crate::ops_local::index_bytes;
use crate::ops_local::index_operand;
use crate::ops_local::load_step;
use crate::frame::int_of;
use crate::frame::popped;
use crate::ops_constant::constant_step;
use crate::ops_array::negative_length_message;
use crate::ops_branch::branch_step;
use crate::frame::depth;
use crate::frame::ref_on;
use crate::frame::room;
use crate::frame::stack_step;
use crate::init::InitStart;
use crate::invoke::Invoke;
use crate::thread::JavaThread;
use crate::value::{Slot, VmError};

verus! {

/// What the interpreter loop does after an instruction.
pub enum Flow {
    /// Go on with the next instruction of this frame.
    Next,
    /// The frame returned; its value is in `return_v`.
    Return,
    /// Class `c` must be initialized first; the instruction runs again after.
    Init(usize),
    /// Run the callee frame.
    Enter(Frame),
    /// A floating-point instruction, which the host performs on this frame.
    Float(u8),
}

/// How a run of the interpreter ended.
#[derive(Debug)]
pub enum Exit {
    /// The bottom frame returned, with its value if any.
    Returned(Option<Slot>),
    /// An exception left the bottom frame.
    Threw(usize),
    /// A floating-point instruction waits for the host; its operands are on
    /// the top frame's stack and its opcode has been read.
    Float(u8),
    /// The instruction budget ran out.
    OutOfFuel,
}

/// The opcode at the frame's program counter.
pub open spec fn opcode(f: Frame) -> u8 {
    f.code@[f.pc as int]
}

/// The frame as an instruction handler sees it: the opcode read.
pub open spec fn pre_of(f: Frame) -> Frame {
    Frame { pc: (f.pc + 1) as usize, inst_pc: f.pc, ..f }
}

/// The opcodes whose work the host does (floating-point arithmetic and the
/// rounding conversions).
pub open spec fn is_float_opcode(op: u8) -> bool {
    op == 0x62 || op == 0x63 || op == 0x66 || op == 0x67 || op == 0x6a || op == 0x6b || op == 0x6e || op == 0x6f
        || op == 0x86 || op == 0x87 || op == 0x89 || op == 0x8a || op == 0x8d || op == 0x90
}

/// A step's outcome as the handler of an instruction without control effect reports it.
pub open spec fn as_unit(r: Result<Flow, VmError>) -> Result<(), VmError> {
    match r {
        Ok(_) => Ok(()),
        Err(e) => Err(e),
    }
}

/// A step's outcome as a handler that may wait for a class initialization reports it.
pub open spec fn as_init(r: Result<Flow, VmError>) -> Result<Option<usize>, VmError> {
    match r {
        Ok(Flow::Init(k)) => Ok(Some(k)),
        Ok(_) => Ok(None),
        Err(e) => Err(e),
    }
}

/// A step's outcome as an invocation handler reports it.
pub open spec fn as_invoke(r: Result<Flow, VmError>) -> Result<Invoke, VmError> {
    match r {
        Ok(Flow::Init(k)) => Ok(Invoke::NeedInit(k)),
        Ok(Flow::Enter(f)) => Ok(Invoke::Enter(f)),
        Ok(_) => Ok(Invoke::Done),
        Err(e) => Err(e),
    }
}

/// What executing one instruction does: the frame `a` of thread `ta`
/// becomes `b` of `tb` with outcome `r`. Every opcode's clause is the
/// contract of its handler, applied to the frame after the opcode is read.
pub open spec fn step_post(a: Frame, ta: JavaThread, b: Frame, tb: JavaThread, r: Result<Flow, VmError>) -> bool {
    &&& (tb.wf())
    &&& (b.wf())
    &&& (b.class == a.class)
    &&& (b.init_class == a.init_class)
    &&& (same_activation(b, a))
    &&& (crate::init::states_advance(ta.classes.classes@, tb.classes.classes@))
    &&& (a.pc >= a.code@.len() ==> r == Err::<Flow, VmError>(VmError::BadCode))
    &&& (a.pc < a.code@.len() && is_float_opcode(opcode(a)) ==>
            r == Ok::<Flow, VmError>(Flow::Float(opcode(a))) && b == pre_of(a)
                && tb == ta)
    &&& (a.pc < a.code@.len() && opcode(a) == 0x00 ==> ({
            let pre = pre_of(a);
            &&& (r is Ok ==> r matches Ok(Flow::Next))
            &&& (b == pre)
        }))
    &&& (a.pc < a.code@.len() && opcode(a) == 0x01 ==> ({
            let pre = pre_of(a);
            let ur = as_unit(r);
            &&& (r is Ok ==> r matches Ok(Flow::Next))
            &&& (stack_step(pre, b, ur, room(pre, 1), pre.stack@.push(Slot::Null)))
        }))
    &&& (a.pc < a.code@.len() && opcode(a) == 0x02 ==> ({
            let pre = pre_of(a);
            let ur = as_unit(r);
            &&& (r is Ok ==> r matches Ok(Flow::Next))
            &&& (stack_step(pre, b, ur, room(pre, 1), pre.stack@.push(Slot::Int(-1i32))))
        }))
    &&& (a.pc < a.code@.len() && opcode(a) == 0x03 ==> ({
            let pre = pre_of(a);
            let ur = as_unit(r);
            &&& (r is Ok ==> r matches Ok(Flow::Next))
            &&& (stack_step(pre, b, ur, room(pre, 1), pre.stack@.push(Slot::Int(0))))
        }))
    &&& (a.pc < a.code@.len() && opcode(a) == 0x04 ==> ({
            let pre = pre_of(a);
            let ur = as_unit(r);
            &&& (r is Ok ==> r matches Ok(Flow::Next))
            &&& (stack_step(pre, b, ur, room(pre, 1), pre.stack@.push(Slot::Int(1))))
        }))
    &&& (a.pc < a.code@.len() && opcode(a) == 0x05 ==> ({
            let pre = pre_of(a);
            let ur = as_unit(r);
            &&& (r is Ok ==> r matches Ok(Flow::Next))
            &&& (stack_step(pre, b, ur, room(pre, 1), pre.stack@.push(Slot::Int(2))))
        }))
    &&& (a.pc < a.code@.len() && opcode(a) == 0x06 ==> ({
            let pre = pre_of(a);
            let ur = as_unit(r);
            &&& (r is Ok ==> r matches Ok(Flow::Next))
            &&& (stack_step(pre, b, ur, room(pre, 1), pre.stack@.push(Slot::Int(3))))
        }))
    &&& (a.pc < a.code@.len() && opcode(a) == 0x07 ==> ({
            let pre = pre_of(a);
            let ur = as_unit(r);
            &&& (r is Ok ==> r matches Ok(Flow::Next))
            &&& (stack_step(pre, b, ur, room(pre, 1), pre.stack@.push(Slot::Int(4))))
        }))
    &&& (a.pc < a.code@.len() && opcode(a) == 0x08 ==> ({
            let pre = pre_of(a);
            let ur = as_unit(r);
            &&& (r is Ok ==> r matches Ok(Flow::Next))
            &&& (stack_step(pre, b, ur, room(pre, 1), pre.stack@.push(Slot::Int(5))))
        }))
    &&& (a.pc < a.code@.len() && opcode(a) == 0x09 ==> ({
            let pre = pre_of(a);
            let ur = as_unit(r);
            &&& (r is Ok ==> r matches Ok(Flow::Next))
            &&& (stack_step(pre, b, ur, room(pre, 2), pre.stack@.push(Slot::Long(0)).push(Slot::Top)))
        }))
    &&& (a.pc < a.code@.len() && opcode(a) == 0x0a ==> ({
            let pre = pre_of(a);
            let ur = as_unit(r);
            &&& (r is Ok ==> r matches Ok(Flow::Next))
            &&& (stack_step(pre, b, ur, room(pre, 2), pre.stack@.push(Slot::Long(1)).push(Slot::Top)))
        }))
    &&& (a.pc < a.code@.len() && opcode(a) == 0x0b ==> ({
            let pre = pre_of(a);
            let ur = as_unit(r);
            &&& (r is Ok ==> r matches Ok(Flow::Next))
            &&& (stack_step(pre, b, ur, room(pre, 1), pre.stack@.push(Slot::Float(0))))
        }))
    &&& (a.pc < a.code@.len() && opcode(a) == 0x0c ==> ({
            let pre = pre_of(a);
            let ur = as_unit(r);
            &&& (r is Ok ==> r matches Ok(Flow::Next))
            &&& (stack_step(pre, b, ur, room(pre, 1), pre.stack@.push(Slot::Float(0x3f80_0000))))
        }))
    &&& (a.pc < a.code@.len() && opcode(a) == 0x0d ==> ({
            let pre = pre_of(a);
            let ur = as_unit(r);
            &&& (r is Ok ==> r matches Ok(Flow::Next))
            &&& (stack_step(pre, b, ur, room(pre, 1), pre.stack@.push(Slot::Float(0x4000_0000))))
        }))
    &&& (a.pc < a.code@.len() && opcode(a) == 0x0e ==> ({
            let pre = pre_of(a);
            let ur = as_unit(r);
            &&& (r is Ok ==> r matches Ok(Flow::Next))
            &&& (stack_step(pre, b, ur, room(pre, 2), pre.stack@.push(Slot::Double(0)).push(Slot::Top)))
        }))
    &&& (a.pc < a.code@.len() && opcode(a) == 0x0f ==> ({
            let pre = pre_of(a);
            let ur = as_unit(r);
            &&& (r is Ok ==> r matches Ok(Flow::Next))
            &&& (stack_step(pre, b, ur, room(pre, 2), pre.stack@.push(Slot::Double(0x3ff0_0000_0000_0000)).push(Slot::Top)))
        }))
    &&& (a.pc < a.code@.len() && opcode(a) == 0x10 ==> ({
            let pre = pre_of(a);
            let ur = as_unit(r);
            &&& (r is Ok ==> r matches Ok(Flow::Next))
            &&& (ur is Ok <==> pre.pc + 1 <= pre.code@.len() && room(pre, 1))
            &&& (ur is Err ==> b == pre)
            &&& (ur is Ok ==> b == (Frame { stack: b.stack, pc: (pre.pc + 1) as usize, ..pre })
                && b.stack@ == pre.stack@.push(Slot::Int(pre.code@[pre.pc as int] as i8 as i32)))
        }))
    &&& (a.pc < a.code@.len() && opcode(a) == 0x11 ==> ({
            let pre = pre_of(a);
            let ur = as_unit(r);
            &&& (r is Ok ==> r matches Ok(Flow::Next))
            &&& (ur is Ok <==> pre.pc + 2 <= pre.code@.len() && room(pre, 1))
            &&& (ur is Err ==> b == pre)
            &&& (ur is Ok ==> b == (Frame { stack: b.stack, pc: (pre.pc + 2) as usize, ..pre })
                && b.stack@ == pre.stack@.push(Slot::Int(i2_at(pre.code@, pre.pc as int) as i32)))
        }))
    &&& (a.pc < a.code@.len() && opcode(a) == 0x12 ==> ({
            let pre = pre_of(a);
            let ur = as_init(r);
            &&& (r is Ok ==> (r matches Ok(Flow::Next) || r matches Ok(Flow::Init(_))))
            &&& (constant_step(pre, b, ta, tb, ur, false))
        }))
    &&& (a.pc < a.code@.len() && opcode(a) == 0x13 ==> ({
            let pre = pre_of(a);
            let ur = as_init(r);
            &&& (r is Ok ==> (r matches Ok(Flow::Next) || r matches Ok(Flow::Init(_))))
            &&& (constant_step(pre, b, ta, tb, ur, true))
        }))
    &&& (a.pc < a.code@.len() && opcode(a) == 0x14 ==> ({
            let pre = pre_of(a);
            let ur = as_init(r);
            &&& (r is Ok ==> (r matches Ok(Flow::Next) || r matches Ok(Flow::Init(_))))
            &&& (constant_step(pre, b, ta, tb, ur, true))
        }))
    &&& (a.pc < a.code@.len() && opcode(a) == 0x15 ==> ({
            let pre = pre_of(a);
            let ur = as_unit(r);
            &&& (r is Ok ==> r matches Ok(Flow::Next))
            &&& (load_step(pre, b, ur, index_operand(pre), Cat::Int, index_bytes(pre), true))
        }))
    &&& (a.pc < a.code@.len() && opcode(a) == 0x16 ==> ({
            let pre = pre_of(a);
            let ur = as_unit(r);
            &&& (r is Ok ==> r matches Ok(Flow::Next))
            &&& (load_step(pre, b, ur, index_operand(pre), Cat::Long, index_bytes(pre), true))
        }))
    &&& (a.pc < a.code@.len() && opcode(a) == 0x17 ==> ({
            let pre = pre_of(a);
            let ur = as_unit(r);
            &&& (r is Ok ==> r matches Ok(Flow::Next))
            &&& (load_step(pre, b, ur, index_operand(pre), Cat::Float, index_bytes(pre), true))
        }))
    &&& (a.pc < a.code@.len() && opcode(a) == 0x18 ==> ({
            let pre = pre_of(a);
            let ur = as_unit(r);
            &&& (r is Ok ==> r matches Ok(Flow::Next))
            &&& (load_step(pre, b, ur, index_operand(pre), Cat::Double, index_bytes(pre), true))
        }))
    &&& (a.pc < a.code@.len() && opcode(a) == 0x19 ==> ({
            let pre = pre_of(a);
            let ur = as_unit(r);
            &&& (r is Ok ==> r matches Ok(Flow::Next))
            &&& (load_step(pre, b, ur, index_operand(pre), Cat::Ref, index_bytes(pre), true))
        }))
    &&& (a.pc < a.code@.len() && opcode(a) == 0x1a ==> ({
            let pre = pre_of(a);
            let ur = as_unit(r);
            &&& (r is Ok ==> r matches Ok(Flow::Next))
            &&& (load_step(pre, b, ur, 0, Cat::Int, 0, false))
        }))
    &&& (a.pc < a.code@.len() && opcode(a) == 0x1b ==> ({
            let pre = pre_of(a);
            let ur = as_unit(r);
            &&& (r is Ok ==> r matches Ok(Flow::Next))
            &&& (load_step(pre, b, ur, 1, Cat::Int, 0, false))
        }))
    &&& (a.pc < a.code@.len() && opcode(a) == 0x1c ==> ({
            let pre = pre_of(a);
            let ur = as_unit(r);
            &&& (r is Ok ==> r matches Ok(Flow::Next))
            &&& (load_step(pre, b, ur, 2, Cat::Int, 0, false))
        }))
    &&& (a.pc < a.code@.len() && opcode(a) == 0x1d ==> ({
            let pre = pre_of(a);
            let ur = as_unit(r);
            &&& (r is Ok ==> r matches Ok(Flow::Next))
            &&& (load_step(pre, b, ur, 3, Cat::Int, 0, false))
        }))
    &&& (a.pc < a.code@.len() && opcode(a) == 0x1e ==> ({
            let pre = pre_of(a);
            let ur = as_unit(r);
            &&& (r is Ok ==> r matches Ok(Flow::Next))
            &&& (load_step(pre, b, ur, 0, Cat::Long, 0, false))
        }))
    &&& (a.pc < a.code@.len() && opcode(a) == 0x1f ==> ({
            let pre = pre_of(a);
            let ur = as_unit(r);
            &&& (r is Ok ==> r matches Ok(Flow::Next))
            &&& (load_step(pre, b, ur, 1, Cat::Long, 0, false))
        }))
    &&& (a.pc < a.code@.len() && opcode(a) == 0x20 ==> ({
            let pre = pre_of(a);
            let ur = as_unit(r);
            &&& (r is Ok ==> r matches Ok(Flow::Next))
            &&& (load_step(pre, b, ur, 2, Cat::Long, 0, false))
        }))
    &&& (a.pc < a.code@.len() && opcode(a) == 0x21 ==> ({
            let pre = pre_of(a);
            let ur = as_unit(r);
            &&& (r is Ok ==> r matches Ok(Flow::Next))
            &&& (load_step(pre, b, ur, 3, Cat::Long, 0, false))
        }))
    &&& (a.pc < a.code@.len() && opcode(a) == 0x22 ==> ({
            let pre = pre_of(a);
            let ur = as_unit(r);
            &&& (r is Ok ==> r matches Ok(Flow::Next))
            &&& (load_step(pre, b, ur, 0, Cat::Float, 0, false))
        }))
    &&& (a.pc < a.code@.len() && opcode(a) == 0x23 ==> ({
            let pre = pre_of(a);
            let ur = as_unit(r);
            &&& (r is Ok ==> r matches Ok(Flow::Next))
            &&& (load_step(pre, b, ur, 1, Cat::Float, 0, false))
        }))
    &&& (a.pc < a.code@.len() && opcode(a) == 0x24 ==> ({
            let pre = pre_of(a);
            let ur = as_unit(r);
            &&& (r is Ok ==> r matches Ok(Flow::Next))
            &&& (load_step(pre, b, ur, 2, Cat::Float, 0, false))
        }))
    &&& (a.pc < a.code@.len() && opcode(a) == 0x25 ==> ({
            let pre = pre_of(a);
            let ur = as_unit(r);
            &&& (r is Ok ==> r matches Ok(Flow::Next))
            &&& (load_step(pre, b, ur, 3, Cat::Float, 0, false))
        }))
    &&& (a.pc < a.code@.len() && opcode(a) == 0x26 ==> ({
            let pre = pre_of(a);
            let ur = as_unit(r);
            &&& (r is Ok ==> r matches Ok(Flow::Next))
            &&& (load_step(pre, b, ur, 0, Cat::Double, 0, false))
        }))
    &&& (a.pc < a.code@.len() && opcode(a) == 0x27 ==> ({
            let pre = pre_of(a);
            let ur = as_unit(r);
            &&& (r is Ok ==> r matches Ok(Flow::Next))
            &&& (load_step(pre, b, ur, 1, Cat::Double, 0, false))
        }))
    &&& (a.pc < a.code@.len() && opcode(a) == 0x28 ==> ({
            let pre = pre_of(a);
            let ur = as_unit(r);
            &&& (r is Ok ==> r matches Ok(Flow::Next))
            &&& (load_step(pre, b, ur, 2, Cat::Double, 0, false))
        }))
    &&& (a.pc < a.code@.len() && opcode(a) == 0x29 ==> ({
            let pre = pre_of(a);
            let ur = as_unit(r);
            &&& (r is Ok ==> r matches Ok(Flow::Next))
            &&& (load_step(pre, b, ur, 3, Cat::Double, 0, false))
        }))
    &&& (a.pc < a.code@.len() && opcode(a) == 0x2a ==> ({
            let pre = pre_of(a);
            let ur = as_unit(r);
            &&& (r is Ok ==> r matches Ok(Flow::Next))
            &&& (load_step(pre, b, ur, 0, Cat::Ref, 0, false))
        }))
    &&& (a.pc < a.code@.len() && opcode(a) == 0x2b ==> ({
            let pre = pre_of(a);
            let ur = as_unit(r);
            &&& (r is Ok ==> r matches Ok(Flow::Next))
            &&& (load_step(pre, b, ur, 1, Cat::Ref, 0, false))
        }))
    &&& (a.pc < a.code@.len() && opcode(a) == 0x2c ==> ({
            let pre = pre_of(a);
            let ur = as_unit(r);
            &&& (r is Ok ==> r matches Ok(Flow::Next))
            &&& (load_step(pre, b, ur, 2, Cat::Ref, 0, false))
        }))
    &&& (a.pc < a.code@.len() && opcode(a) == 0x2d ==> ({
            let pre = pre_of(a);
            let ur = as_unit(r);
            &&& (r is Ok ==> r matches Ok(Flow::Next))
            &&& (load_step(pre, b, ur, 3, Cat::Ref, 0, false))
        }))
    &&& (a.pc < a.code@.len() && opcode(a) == 0x2e ==> ({
            let pre = pre_of(a);
            let ur = as_unit(r);
            &&& (r is Ok ==> r matches Ok(Flow::Next))
            &&& (load_elem_step(pre, b, ta, tb, ur, ArrKind::Int))
        }))
    &&& (a.pc < a.code@.len() && opcode(a) == 0x2f ==> ({
            let pre = pre_of(a);
            let ur = as_unit(r);
            &&& (r is Ok ==> r matches Ok(Flow::Next))
            &&& (load_elem_step(pre, b, ta, tb, ur, ArrKind::Long))
        }))
    &&& (a.pc < a.code@.len() && opcode(a) == 0x30 ==> ({
            let pre = pre_of(a);
            let ur = as_unit(r);
            &&& (r is Ok ==> r matches Ok(Flow::Next))
            &&& (load_elem_step(pre, b, ta, tb, ur, ArrKind::Float))
        }))
    &&& (a.pc < a.code@.len() && opcode(a) == 0x31 ==> ({
            let pre = pre_of(a);
            let ur = as_unit(r);
            &&& (r is Ok ==> r matches Ok(Flow::Next))
            &&& (load_elem_step(pre, b, ta, tb, ur, ArrKind::Double))
        }))
    &&& (a.pc < a.code@.len() && opcode(a) == 0x32 ==> ({
            let pre = pre_of(a);
            let ur = as_unit(r);
            &&& (r is Ok ==> r matches Ok(Flow::Next))
            &&& (load_elem_step(pre, b, ta, tb, ur, ArrKind::Ref))
        }))
    &&& (a.pc < a.code@.len() && opcode(a) == 0x33 ==> ({
            let pre = pre_of(a);
            let ur = as_unit(r);
            &&& (r is Ok ==> r matches Ok(Flow::Next))
            &&& (load_elem_step(pre, b, ta, tb, ur, ArrKind::Byte))
        }))
    &&& (a.pc < a.code@.len() && opcode(a) == 0x34 ==> ({
            let pre = pre_of(a);
            let ur = as_unit(r);
            &&& (r is Ok ==> r matches Ok(Flow::Next))
            &&& (load_elem_step(pre, b, ta, tb, ur, ArrKind::Char))
        }))
    &&& (a.pc < a.code@.len() && opcode(a) == 0x35 ==> ({
            let pre = pre_of(a);
            let ur = as_unit(r);
            &&& (r is Ok ==> r matches Ok(Flow::Next))
            &&& (load_elem_step(pre, b, ta, tb, ur, ArrKind::Short))
        }))
    &&& (a.pc < a.code@.len() && opcode(a) == 0x36 ==> ({
            let pre = pre_of(a);
            let ur = as_unit(r);
            &&& (r is Ok ==> r matches Ok(Flow::Next))
            &&& (store_step(pre, b, ur, index_operand(pre), Cat::Int, index_bytes(pre), true))
        }))
    &&& (a.pc < a.code@.len() && opcode(a) == 0x37 ==> ({
            let pre = pre_of(a);
            let ur = as_unit(r);
            &&& (r is Ok ==> r matches Ok(Flow::Next))
            &&& (store_step(pre, b, ur, index_operand(pre), Cat::Long, index_bytes(pre), true))
        }))
    &&& (a.pc < a.code@.len() && opcode(a) == 0x38 ==> ({
            let pre = pre_of(a);
            let ur = as_unit(r);
            &&& (r is Ok ==> r matches Ok(Flow::Next))
            &&& (store_step(pre, b, ur, index_operand(pre), Cat::Float, index_bytes(pre), true))
        }))
    &&& (a.pc < a.code@.len() && opcode(a) == 0x39 ==> ({
            let pre = pre_of(a);
            let ur = as_unit(r);
            &&& (r is Ok ==> r matches Ok(Flow::Next))
            &&& (store_step(pre, b, ur, index_operand(pre), Cat::Double, index_bytes(pre), true))
        }))
    &&& (a.pc < a.code@.len() && opcode(a) == 0x3a ==> ({
            let pre = pre_of(a);
            let ur = as_unit(r);
            &&& (r is Ok ==> r matches Ok(Flow::Next))
            &&& (store_step(pre, b, ur, index_operand(pre), Cat::Ref, index_bytes(pre), true))
        }))
    &&& (a.pc < a.code@.len() && opcode(a) == 0x3b ==> ({
            let pre = pre_of(a);
            let ur = as_unit(r);
            &&& (r is Ok ==> r matches Ok(Flow::Next))
            &&& (store_step(pre, b, ur, 0, Cat::Int, 0, false))
        }))
    &&& (a.pc < a.code@.len() && opcode(a) == 0x3c ==> ({
            let pre = pre_of(a);
            let ur = as_unit(r);
            &&& (r is Ok ==> r matches Ok(Flow::Next))
            &&& (store_step(pre, b, ur, 1, Cat::Int, 0, false))
        }))
    &&& (a.pc < a.code@.len() && opcode(a) == 0x3d ==> ({
            let pre = pre_of(a);
            let ur = as_unit(r);
            &&& (r is Ok ==> r matches Ok(Flow::Next))
            &&& (store_step(pre, b, ur, 2, Cat::Int, 0, false))
        }))
    &&& (a.pc < a.code@.len() && opcode(a) == 0x3e ==> ({
            let pre = pre_of(a);
            let ur = as_unit(r);
            &&& (r is Ok ==> r matches Ok(Flow::Next))
            &&& (store_step(pre, b, ur, 3, Cat::Int, 0, false))
        }))
    &&& (a.pc < a.code@.len() && opcode(a) == 0x3f ==> ({
            let pre = pre_of(a);
            let ur = as_unit(r);
            &&& (r is Ok ==> r matches Ok(Flow::Next))
            &&& (store_step(pre, b, ur, 0, Cat::Long, 0, false))
        }))
    &&& (a.pc < a.code@.len() && opcode(a) == 0x40 ==> ({
            let pre = pre_of(a);
            let ur = as_unit(r);
            &&& (r is Ok ==> r matches Ok(Flow::Next))
            &&& (store_step(pre, b, ur, 1, Cat::Long, 0, false))
        }))
    &&& (a.pc < a.code@.len() && opcode(a) == 0x41 ==> ({
            let pre = pre_of(a);
            let ur = as_unit(r);
            &&& (r is Ok ==> r matches Ok(Flow::Next))
            &&& (store_step(pre, b, ur, 2, Cat::Long, 0, false))
        }))
    &&& (a.pc < a.code@.len() && opcode(a) == 0x42 ==> ({
            let pre = pre_of(a);
            let ur = as_unit(r);
            &&& (r is Ok ==> r matches Ok(Flow::Next))
            &&& (store_step(pre, b, ur, 3, Cat::Long, 0, false))
        }))
    &&& (a.pc < a.code@.len() && opcode(a) == 0x43 ==> ({
            let pre = pre_of(a);
            let ur = as_unit(r);
            &&& (r is Ok ==> r matches Ok(Flow::Next))
            &&& (store_step(pre, b, ur, 0, Cat::Float, 0, false))
        }))
    &&& (a.pc < a.code@.len() && opcode(a) == 0x44 ==> ({
            let pre = pre_of(a);
            let ur = as_unit(r);
            &&& (r is Ok ==> r matches Ok(Flow::Next))
            &&& (store_step(pre, b, ur, 1, Cat::Float, 0, false))
        }))
    &&& (a.pc < a.code@.len() && opcode(a) == 0x45 ==> ({
            let pre = pre_of(a);
            let ur = as_unit(r);
            &&& (r is Ok ==> r matches Ok(Flow::Next))
            &&& (store_step(pre, b, ur, 2, Cat::Float, 0, false))
        }))
    &&& (a.pc < a.code@.len() && opcode(a) == 0x46 ==> ({
            let pre = pre_of(a);
            let ur = as_unit(r);
            &&& (r is Ok ==> r matches Ok(Flow::Next))
            &&& (store_step(pre, b, ur, 3, Cat::Float, 0, false))
        }))
    &&& (a.pc < a.code@.len() && opcode(a) == 0x47 ==> ({
            let pre = pre_of(a);
            let ur = as_unit(r);
            &&& (r is Ok ==> r matches Ok(Flow::Next))
            &&& (store_step(pre, b, ur, 0, Cat::Double, 0, false))
        }))
    &&& (a.pc < a.code@.len() && opcode(a) == 0x48 ==> ({
            let pre = pre_of(a);
            let ur = as_unit(r);
            &&& (r is Ok ==> r matches Ok(Flow::Next))
            &&& (store_step(pre, b, ur, 1, Cat::Double, 0, false))
        }))
    &&& (a.pc < a.code@.len() && opcode(a) == 0x49 ==> ({
            let pre = pre_of(a);
            let ur = as_unit(r);
            &&& (r is Ok ==> r matches Ok(Flow::Next))
            &&& (store_step(pre, b, ur, 2, Cat::Double, 0, false))
        }))
    &&& (a.pc < a.code@.len() && opcode(a) == 0x4a ==> ({
            let pre = pre_of(a);
            let ur = as_unit(r);
            &&& (r is Ok ==> r matches Ok(Flow::Next))
            &&& (store_step(pre, b, ur, 3, Cat::Double, 0, false))
        }))
    &&& (a.pc < a.code@.len() && opcode(a) == 0x4b ==> ({
            let pre = pre_of(a);
            let ur = as_unit(r);
            &&& (r is Ok ==> r matches Ok(Flow::Next))
            &&& (store_step(pre, b, ur, 0, Cat::Ref, 0, false))
        }))
    &&& (a.pc < a.code@.len() && opcode(a) == 0x4c ==> ({
            let pre = pre_of(a);
            let ur = as_unit(r);
            &&& (r is Ok ==> r matches Ok(Flow::Next))
            &&& (store_step(pre, b, ur, 1, Cat::Ref, 0, false))
        }))
    &&& (a.pc < a.code@.len() && opcode(a) == 0x4d ==> ({
            let pre = pre_of(a);
            let ur = as_unit(r);
            &&& (r is Ok ==> r matches Ok(Flow::Next))
            &&& (store_step(pre, b, ur, 2, Cat::Ref, 0, false))
        }))
    &&& (a.pc < a.code@.len() && opcode(a) == 0x4e ==> ({
            let pre = pre_of(a);
            let ur = as_unit(r);
            &&& (r is Ok ==> r matches Ok(Flow::Next))
            &&& (store_step(pre, b, ur, 3, Cat::Ref, 0, false))
        }))
    &&& (a.pc < a.code@.len() && opcode(a) == 0x4f ==> ({
            let pre = pre_of(a);
            let ur = as_unit(r);
            &&& (r is Ok ==> r matches Ok(Flow::Next))
            &&& (store_elem_step(pre, b, ta, tb, ur, ArrKind::Int))
        }))
    &&& (a.pc < a.code@.len() && opcode(a) == 0x50 ==> ({
            let pre = pre_of(a);
            let ur = as_unit(r);
            &&& (r is Ok ==> r matches Ok(Flow::Next))
            &&& (store_elem_step(pre, b, ta, tb, ur, ArrKind::Long))
        }))
    &&& (a.pc < a.code@.len() && opcode(a) == 0x51 ==> ({
            let pre = pre_of(a);
            let ur = as_unit(r);
            &&& (r is Ok ==> r matches Ok(Flow::Next))
            &&& (store_elem_step(pre, b, ta, tb, ur, ArrKind::Float))
        }))
    &&& (a.pc < a.code@.len() && opcode(a) == 0x52 ==> ({
            let pre = pre_of(a);
            let ur = as_unit(r);
            &&& (r is Ok ==> r matches Ok(Flow::Next))
            &&& (store_elem_step(pre, b, ta, tb, ur, ArrKind::Double))
        }))
    &&& (a.pc < a.code@.len() && opcode(a) == 0x53 ==> ({
            let pre = pre_of(a);
            let ur = as_unit(r);
            &&& (r is Ok ==> r matches Ok(Flow::Next))
            &&& (store_elem_step(pre, b, ta, tb, ur, ArrKind::Ref))
        }))
    &&& (a.pc < a.code@.len() && opcode(a) == 0x54 ==> ({
            let pre = pre_of(a);
            let ur = as_unit(r);
            &&& (r is Ok ==> r matches Ok(Flow::Next))
            &&& (store_elem_step(pre, b, ta, tb, ur, ArrKind::Byte))
        }))
    &&& (a.pc < a.code@.len() && opcode(a) == 0x55 ==> ({
            let pre = pre_of(a);
            let ur = as_unit(r);
            &&& (r is Ok ==> r matches Ok(Flow::Next))
            &&& (store_elem_step(pre, b, ta, tb, ur, ArrKind::Char))
        }))
    &&& (a.pc < a.code@.len() && opcode(a) == 0x56 ==> ({
            let pre = pre_of(a);
            let ur = as_unit(r);
            &&& (r is Ok ==> r matches Ok(Flow::Next))
            &&& (store_elem_step(pre, b, ta, tb, ur, ArrKind::Short))
        }))
    &&& (a.pc < a.code@.len() && opcode(a) == 0x57 ==> ({
            let pre = pre_of(a);
            let ur = as_unit(r);
            &&& (r is Ok ==> r matches Ok(Flow::Next))
            &&& (stack_step(pre, b, ur, single(pre.stack@, 0), popped(pre.stack@, 1)))
        }))
    &&& (a.pc < a.code@.len() && opcode(a) == 0x58 ==> ({
            let pre = pre_of(a);
            let ur = as_unit(r);
            &&& (r is Ok ==> r matches Ok(Flow::Next))
            &&& (stack_step(pre, b, ur, pair(pre.stack@, 0), popped(pre.stack@, 2)))
        }))
    &&& (a.pc < a.code@.len() && opcode(a) == 0x59 ==> ({
            let pre = pre_of(a);
            let ur = as_unit(r);
            &&& (r is Ok ==> r matches Ok(Flow::Next))
            &&& (({
                let s = pre.stack@;
                stack_step(pre, b, ur, single(s, 0) && room(pre, 1), s.push(depth(s, 0)))
            }))
        }))
    &&& (a.pc < a.code@.len() && opcode(a) == 0x5a ==> ({
            let pre = pre_of(a);
            let ur = as_unit(r);
            &&& (r is Ok ==> r matches Ok(Flow::Next))
            &&& (({
                let s = pre.stack@;
                stack_step(pre, b, ur, single(s, 0) && single(s, 1) && room(pre, 1),
                    popped(s, 2).push(depth(s, 0)).push(depth(s, 1)).push(depth(s, 0)))
            }))
        }))
    &&& (a.pc < a.code@.len() && opcode(a) == 0x5b ==> ({
            let pre = pre_of(a);
            let ur = as_unit(r);
            &&& (r is Ok ==> r matches Ok(Flow::Next))
            &&& (({
                let s = pre.stack@;
                stack_step(pre, b, ur, single(s, 0) && pair(s, 1) && room(pre, 1),
                    popped(s, 3).push(depth(s, 0)).push(depth(s, 2)).push(depth(s, 1)).push(depth(s, 0)))
            }))
        }))
    &&& (a.pc < a.code@.len() && opcode(a) == 0x5c ==> ({
            let pre = pre_of(a);
            let ur = as_unit(r);
            &&& (r is Ok ==> r matches Ok(Flow::Next))
            &&& (({
                let s = pre.stack@;
                stack_step(pre, b, ur, pair(s, 0) && room(pre, 2),
                    s.push(depth(s, 1)).push(depth(s, 0)))
            }))
        }))
    &&& (a.pc < a.code@.len() && opcode(a) == 0x5d ==> ({
            let pre = pre_of(a);
            let ur = as_unit(r);
            &&& (r is Ok ==> r matches Ok(Flow::Next))
            &&& (({
                let s = pre.stack@;
                stack_step(pre, b, ur, pair(s, 0) && single(s, 2) && room(pre, 2),
                    popped(s, 3).push(depth(s, 1)).push(depth(s, 0)).push(depth(s, 2)).push(depth(s, 1)).push(depth(s, 0)))
            }))
        }))
    &&& (a.pc < a.code@.len() && opcode(a) == 0x5e ==> ({
            let pre = pre_of(a);
            let ur = as_unit(r);
            &&& (r is Ok ==> r matches Ok(Flow::Next))
            &&& (({
                let s = pre.stack@;
                stack_step(pre, b, ur, pair(s, 0) && pair(s, 2) && room(pre, 2),
                    popped(s, 4).push(depth(s, 1)).push(depth(s, 0)).push(depth(s, 3)).push(depth(s, 2))
                        .push(depth(s, 1)).push(depth(s, 0)))
            }))
        }))
    &&& (a.pc < a.code@.len() && opcode(a) == 0x5f ==> ({
            let pre = pre_of(a);
            let ur = as_unit(r);
            &&& (r is Ok ==> r matches Ok(Flow::Next))
            &&& (({
                let s = pre.stack@;
                stack_step(pre, b, ur, single(s, 0) && single(s, 1),
                    popped(s, 2).push(depth(s, 0)).push(depth(s, 1)))
            }))
        }))
    &&& (a.pc < a.code@.len() && opcode(a) == 0x60 ==> ({
            let pre = pre_of(a);
            let ur = as_unit(r);
            &&& (r is Ok ==> r matches Ok(Flow::Next))
            &&& (int_binop_step(pre, b, ur, BinOp::Add))
        }))
    &&& (a.pc < a.code@.len() && opcode(a) == 0x61 ==> ({
            let pre = pre_of(a);
            let ur = as_unit(r);
            &&& (r is Ok ==> r matches Ok(Flow::Next))
            &&& (long_binop_step(pre, b, ur, BinOp::Add))
        }))
    &&& (a.pc < a.code@.len() && opcode(a) == 0x64 ==> ({
            let pre = pre_of(a);
            let ur = as_unit(r);
            &&& (r is Ok ==> r matches Ok(Flow::Next))
            &&& (int_binop_step(pre, b, ur, BinOp::Sub))
        }))
    &&& (a.pc < a.code@.len() && opcode(a) == 0x65 ==> ({
            let pre = pre_of(a);
            let ur = as_unit(r);
            &&& (r is Ok ==> r matches Ok(Flow::Next))
            &&& (long_binop_step(pre, b, ur, BinOp::Sub))
        }))
    &&& (a.pc < a.code@.len() && opcode(a) == 0x68 ==> ({
            let pre = pre_of(a);
            let ur = as_unit(r);
            &&& (r is Ok ==> r matches Ok(Flow::Next))
            &&& (int_binop_step(pre, b, ur, BinOp::Mul))
        }))
    &&& (a.pc < a.code@.len() && opcode(a) == 0x69 ==> ({
            let pre = pre_of(a);
            let ur = as_unit(r);
            &&& (r is Ok ==> r matches Ok(Flow::Next))
            &&& (long_binop_step(pre, b, ur, BinOp::Mul))
        }))
    &&& (a.pc < a.code@.len() && opcode(a) == 0x6c ==> ({
            let pre = pre_of(a);
            let ur = as_unit(r);
            &&& (r is Ok ==> r matches Ok(Flow::Next))
            &&& (div_step(pre, b, ta, tb, ur, false, false))
        }))
    &&& (a.pc < a.code@.len() && opcode(a) == 0x6d ==> ({
            let pre = pre_of(a);
            let ur = as_unit(r);
            &&& (r is Ok ==> r matches Ok(Flow::Next))
            &&& (div_step(pre, b, ta, tb, ur, true, false))
        }))
    &&& (a.pc < a.code@.len() && opcode(a) == 0x70 ==> ({
            let pre = pre_of(a);
            let ur = as_unit(r);
            &&& (r is Ok ==> r matches Ok(Flow::Next))
            &&& (div_step(pre, b, ta, tb, ur, false, true))
        }))
    &&& (a.pc < a.code@.len() && opcode(a) == 0x71 ==> ({
            let pre = pre_of(a);
            let ur = as_unit(r);
            &&& (r is Ok ==> r matches Ok(Flow::Next))
            &&& (div_step(pre, b, ta, tb, ur, true, true))
        }))
    &&& (a.pc < a.code@.len() && opcode(a) == 0x72 ==> ({
            let pre = pre_of(a);
            let ur = as_unit(r);
            &&& (r is Ok ==> r matches Ok(Flow::Next))
            &&& (ur == Err::<(), VmError>(VmError::Unsupported(0x72)))
            &&& (b == pre)
        }))
    &&& (a.pc < a.code@.len() && opcode(a) == 0x73 ==> ({
            let pre = pre_of(a);
            let ur = as_unit(r);
            &&& (r is Ok ==> r matches Ok(Flow::Next))
            &&& (ur == Err::<(), VmError>(VmError::Unsupported(0x73)))
            &&& (b == pre)
        }))
    &&& (a.pc < a.code@.len() && opcode(a) == 0x74 ==> ({
            let pre = pre_of(a);
            let ur = as_unit(r);
            &&& (r is Ok ==> r matches Ok(Flow::Next))
            &&& (stack_step(pre, b, ur, int_on(pre.stack@, 0),
                popped(pre.stack@, 1).push(Slot::Int(wrap_i32(-int_of(pre.stack@, 0)) as i32))))
        }))
    &&& (a.pc < a.code@.len() && opcode(a) == 0x75 ==> ({
            let pre = pre_of(a);
            let ur = as_unit(r);
            &&& (r is Ok ==> r matches Ok(Flow::Next))
            &&& (stack_step(pre, b, ur, long_on(pre.stack@, 0),
                popped(pre.stack@, 2).push(Slot::Long(wrap_i64(-long_of(pre.stack@, 0)) as i64)).push(Slot::Top)))
        }))
    &&& (a.pc < a.code@.len() && opcode(a) == 0x76 ==> ({
            let pre = pre_of(a);
            let ur = as_unit(r);
            &&& (r is Ok ==> r matches Ok(Flow::Next))
            &&& (ur == Err::<(), VmError>(VmError::Unsupported(0x76)))
            &&& (b == pre)
        }))
    &&& (a.pc < a.code@.len() && opcode(a) == 0x77 ==> ({
            let pre = pre_of(a);
            let ur = as_unit(r);
            &&& (r is Ok ==> r matches Ok(Flow::Next))
            &&& (ur == Err::<(), VmError>(VmError::Unsupported(0x77)))
            &&& (b == pre)
        }))
    &&& (a.pc < a.code@.len() && opcode(a) == 0x78 ==> ({
            let pre = pre_of(a);
            let ur = as_unit(r);
            &&& (r is Ok ==> r matches Ok(Flow::Next))
            &&& (int_shift_step(pre, b, ur, ShiftOp::Shl))
        }))
    &&& (a.pc < a.code@.len() && opcode(a) == 0x79 ==> ({
            let pre = pre_of(a);
            let ur = as_unit(r);
            &&& (r is Ok ==> r matches Ok(Flow::Next))
            &&& (long_shift_step(pre, b, ur, ShiftOp::Shl))
        }))
    &&& (a.pc < a.code@.len() && opcode(a) == 0x7a ==> ({
            let pre = pre_of(a);
            let ur = as_unit(r);
            &&& (r is Ok ==> r matches Ok(Flow::Next))
            &&& (int_shift_step(pre, b, ur, ShiftOp::Shr))
        }))
    &&& (a.pc < a.code@.len() && opcode(a) == 0x7b ==> ({
            let pre = pre_of(a);
            let ur = as_unit(r);
            &&& (r is Ok ==> r matches Ok(Flow::Next))
            &&& (long_shift_step(pre, b, ur, ShiftOp::Shr))
        }))
    &&& (a.pc < a.code@.len() && opcode(a) == 0x7c ==> ({
            let pre = pre_of(a);
            let ur = as_unit(r);
            &&& (r is Ok ==> r matches Ok(Flow::Next))
            &&& (int_shift_step(pre, b, ur, ShiftOp::Ushr))
        }))
    &&& (a.pc < a.code@.len() && opcode(a) == 0x7d ==> ({
            let pre = pre_of(a);
            let ur = as_unit(r);
            &&& (r is Ok ==> r matches Ok(Flow::Next))
            &&& (long_shift_step(pre, b, ur, ShiftOp::Ushr))
        }))
    &&& (a.pc < a.code@.len() && opcode(a) == 0x7e ==> ({
            let pre = pre_of(a);
            let ur = as_unit(r);
            &&& (r is Ok ==> r matches Ok(Flow::Next))
            &&& (int_binop_step(pre, b, ur, BinOp::And))
        }))
    &&& (a.pc < a.code@.len() && opcode(a) == 0x7f ==> ({
            let pre = pre_of(a);
            let ur = as_unit(r);
            &&& (r is Ok ==> r matches Ok(Flow::Next))
            &&& (long_binop_step(pre, b, ur, BinOp::And))
        }))
    &&& (a.pc < a.code@.len() && opcode(a) == 0x80 ==> ({
            let pre = pre_of(a);
            let ur = as_unit(r);
            &&& (r is Ok ==> r matches Ok(Flow::Next))
            &&& (int_binop_step(pre, b, ur, BinOp::Or))
        }))
    &&& (a.pc < a.code@.len() && opcode(a) == 0x81 ==> ({
            let pre = pre_of(a);
            let ur = as_unit(r);
            &&& (r is Ok ==> r matches Ok(Flow::Next))
            &&& (long_binop_step(pre, b, ur, BinOp::Or))
        }))
    &&& (a.pc < a.code@.len() && opcode(a) == 0x82 ==> ({
            let pre = pre_of(a);
            let ur = as_unit(r);
            &&& (r is Ok ==> r matches Ok(Flow::Next))
            &&& (int_binop_step(pre, b, ur, BinOp::Xor))
        }))
    &&& (a.pc < a.code@.len() && opcode(a) == 0x83 ==> ({
            let pre = pre_of(a);
            let ur = as_unit(r);
            &&& (r is Ok ==> r matches Ok(Flow::Next))
            &&& (long_binop_step(pre, b, ur, BinOp::Xor))
        }))
    &&& (a.pc < a.code@.len() && opcode(a) == 0x84 ==> ({
            let pre = pre_of(a);
            let ur = as_unit(r);
            &&& (r is Ok ==> r matches Ok(Flow::Next))
            &&& (({
                let a = pre;
                let n: int = if a.op_widen { 4 } else { 2 };
                let i = index_operand(a);
                let c: int = if a.op_widen { i2_at(a.code@, a.pc + 2) } else { a.code@[a.pc + 1] as i8 as int };
                &&& (ur is Ok <==> a.pc + n <= a.code@.len() && local_holds(a.local@, i, Cat::Int))
                &&& (ur is Err ==> b == a)
                &&& (ur is Ok ==> b == (Frame { local: b.local, pc: (a.pc + n) as usize, op_widen: false, ..a })
                    && b.local@ == a.local@.update(i, Slot::Int(wrap_i32(a.local@[i]->Int_0 + c) as i32)))
            }))
        }))
    &&& (a.pc < a.code@.len() && opcode(a) == 0x85 ==> ({
            let pre = pre_of(a);
            let ur = as_unit(r);
            &&& (r is Ok ==> r matches Ok(Flow::Next))
            &&& (stack_step(pre, b, ur, int_on(pre.stack@, 0) && room(pre, 1),
                popped(pre.stack@, 1).push(Slot::Long(int_of(pre.stack@, 0) as i64)).push(Slot::Top)))
        }))
    &&& (a.pc < a.code@.len() && opcode(a) == 0x88 ==> ({
            let pre = pre_of(a);
            let ur = as_unit(r);
            &&& (r is Ok ==> r matches Ok(Flow::Next))
            &&& (stack_step(pre, b, ur, long_on(pre.stack@, 0),
                popped(pre.stack@, 2).push(Slot::Int(wrap_i32(long_of(pre.stack@, 0) as int) as i32))))
        }))
    &&& (a.pc < a.code@.len() && opcode(a) == 0x8b ==> ({
            let pre = pre_of(a);
            let ur = as_unit(r);
            &&& (r is Ok ==> r matches Ok(Flow::Next))
            &&& (stack_step(pre, b, ur, float_on(pre.stack@, 0),
                popped(pre.stack@, 1).push(Slot::Int(f32_to_integer(float_of(pre.stack@, 0), 31) as i32))))
        }))
    &&& (a.pc < a.code@.len() && opcode(a) == 0x8c ==> ({
            let pre = pre_of(a);
            let ur = as_unit(r);
            &&& (r is Ok ==> r matches Ok(Flow::Next))
            &&& (stack_step(pre, b, ur, float_on(pre.stack@, 0) && room(pre, 1),
                popped(pre.stack@, 1).push(Slot::Long(f32_to_integer(float_of(pre.stack@, 0), 63) as i64))
                    .push(Slot::Top)))
        }))
    &&& (a.pc < a.code@.len() && opcode(a) == 0x8e ==> ({
            let pre = pre_of(a);
            let ur = as_unit(r);
            &&& (r is Ok ==> r matches Ok(Flow::Next))
            &&& (stack_step(pre, b, ur, double_on(pre.stack@, 0),
                popped(pre.stack@, 2).push(Slot::Int(f64_to_integer(double_of(pre.stack@, 0), 31) as i32))))
        }))
    &&& (a.pc < a.code@.len() && opcode(a) == 0x8f ==> ({
            let pre = pre_of(a);
            let ur = as_unit(r);
            &&& (r is Ok ==> r matches Ok(Flow::Next))
            &&& (stack_step(pre, b, ur, double_on(pre.stack@, 0),
                popped(pre.stack@, 2).push(Slot::Long(f64_to_integer(double_of(pre.stack@, 0), 63) as i64))
                    .push(Slot::Top)))
        }))
    &&& (a.pc < a.code@.len() && opcode(a) == 0x91 ==> ({
            let pre = pre_of(a);
            let ur = as_unit(r);
            &&& (r is Ok ==> r matches Ok(Flow::Next))
            &&& (stack_step(pre, b, ur, int_on(pre.stack@, 0),
                popped(pre.stack@, 1).push(Slot::Int(int_of(pre.stack@, 0) as i8 as i32))))
        }))
    &&& (a.pc < a.code@.len() && opcode(a) == 0x92 ==> ({
            let pre = pre_of(a);
            let ur = as_unit(r);
            &&& (r is Ok ==> r matches Ok(Flow::Next))
            &&& (stack_step(pre, b, ur, int_on(pre.stack@, 0),
                popped(pre.stack@, 1).push(Slot::Int(int_of(pre.stack@, 0) as u16 as i32))))
        }))
    &&& (a.pc < a.code@.len() && opcode(a) == 0x93 ==> ({
            let pre = pre_of(a);
            let ur = as_unit(r);
            &&& (r is Ok ==> r matches Ok(Flow::Next))
            &&& (stack_step(pre, b, ur, int_on(pre.stack@, 0),
                popped(pre.stack@, 1).push(Slot::Int(int_of(pre.stack@, 0) as i16 as i32))))
        }))
    &&& (a.pc < a.code@.len() && opcode(a) == 0x94 ==> ({
            let pre = pre_of(a);
            let ur = as_unit(r);
            &&& (r is Ok ==> r matches Ok(Flow::Next))
            &&& (stack_step(pre, b, ur, long_on(pre.stack@, 0) && long_on(pre.stack@, 2),
                popped(pre.stack@, 4).push(Slot::Int(
                    compare(long_of(pre.stack@, 2) as int, long_of(pre.stack@, 0) as int)))))
        }))
    &&& (a.pc < a.code@.len() && opcode(a) == 0x95 ==> ({
            let pre = pre_of(a);
            let ur = as_unit(r);
            &&& (r is Ok ==> r matches Ok(Flow::Next))
            &&& (stack_step(pre, b, ur, float_on(pre.stack@, 0) && float_on(pre.stack@, 1),
                popped(pre.stack@, 2).push(Slot::Int(
                    fcmp(float_of(pre.stack@, 1), float_of(pre.stack@, 0), -1i32)))))
        }))
    &&& (a.pc < a.code@.len() && opcode(a) == 0x96 ==> ({
            let pre = pre_of(a);
            let ur = as_unit(r);
            &&& (r is Ok ==> r matches Ok(Flow::Next))
            &&& (stack_step(pre, b, ur, float_on(pre.stack@, 0) && float_on(pre.stack@, 1),
                popped(pre.stack@, 2).push(Slot::Int(
                    fcmp(float_of(pre.stack@, 1), float_of(pre.stack@, 0), 1i32)))))
        }))
    &&& (a.pc < a.code@.len() && opcode(a) == 0x97 ==> ({
            let pre = pre_of(a);
            let ur = as_unit(r);
            &&& (r is Ok ==> r matches Ok(Flow::Next))
            &&& (stack_step(pre, b, ur, double_on(pre.stack@, 0) && double_on(pre.stack@, 2),
                popped(pre.stack@, 4).push(Slot::Int(
                    dcmp(double_of(pre.stack@, 2), double_of(pre.stack@, 0), -1i32)))))
        }))
    &&& (a.pc < a.code@.len() && opcode(a) == 0x98 ==> ({
            let pre = pre_of(a);
            let ur = as_unit(r);
            &&& (r is Ok ==> r matches Ok(Flow::Next))
            &&& (stack_step(pre, b, ur, double_on(pre.stack@, 0) && double_on(pre.stack@, 2),
                popped(pre.stack@, 4).push(Slot::Int(
                    dcmp(double_of(pre.stack@, 2), double_of(pre.stack@, 0), 1i32)))))
        }))
    &&& (a.pc < a.code@.len() && opcode(a) == 0x99 ==> ({
            let pre = pre_of(a);
            let ur = as_unit(r);
            &&& (r is Ok ==> r matches Ok(Flow::Next))
            &&& (branch_step(pre, b, ur, int_on(pre.stack@, 0), 1,
                holds(Cond::Eq, int_of(pre.stack@, 0) as int, 0)))
        }))
    &&& (a.pc < a.code@.len() && opcode(a) == 0x9a ==> ({
            let pre = pre_of(a);
            let ur = as_unit(r);
            &&& (r is Ok ==> r matches Ok(Flow::Next))
            &&& (branch_step(pre, b, ur, int_on(pre.stack@, 0), 1,
                holds(Cond::Ne, int_of(pre.stack@, 0) as int, 0)))
        }))
    &&& (a.pc < a.code@.len() && opcode(a) == 0x9b ==> ({
            let pre = pre_of(a);
            let ur = as_unit(r);
            &&& (r is Ok ==> r matches Ok(Flow::Next))
            &&& (branch_step(pre, b, ur, int_on(pre.stack@, 0), 1,
                holds(Cond::Lt, int_of(pre.stack@, 0) as int, 0)))
        }))
    &&& (a.pc < a.code@.len() && opcode(a) == 0x9c ==> ({
            let pre = pre_of(a);
            let ur = as_unit(r);
            &&& (r is Ok ==> r matches Ok(Flow::Next))
            &&& (branch_step(pre, b, ur, int_on(pre.stack@, 0), 1,
                holds(Cond::Ge, int_of(pre.stack@, 0) as int, 0)))
        }))
    &&& (a.pc < a.code@.len() && opcode(a) == 0x9d ==> ({
            let pre = pre_of(a);
            let ur = as_unit(r);
            &&& (r is Ok ==> r matches Ok(Flow::Next))
            &&& (branch_step(pre, b, ur, int_on(pre.stack@, 0), 1,
                holds(Cond::Gt, int_of(pre.stack@, 0) as int, 0)))
        }))
    &&& (a.pc < a.code@.len() && opcode(a) == 0x9e ==> ({
            let pre = pre_of(a);
            let ur = as_unit(r);
            &&& (r is Ok ==> r matches Ok(Flow::Next))
            &&& (branch_step(pre, b, ur, int_on(pre.stack@, 0), 1,
                holds(Cond::Le, int_of(pre.stack@, 0) as int, 0)))
        }))
    &&& (a.pc < a.code@.len() && opcode(a) == 0x9f ==> ({
            let pre = pre_of(a);
            let ur = as_unit(r);
            &&& (r is Ok ==> r matches Ok(Flow::Next))
            &&& (branch_step(pre, b, ur, int_on(pre.stack@, 0) && int_on(pre.stack@, 1), 2,
                holds(Cond::Eq, int_of(pre.stack@, 1) as int, int_of(pre.stack@, 0) as int)))
        }))
    &&& (a.pc < a.code@.len() && opcode(a) == 0xa0 ==> ({
            let pre = pre_of(a);
            let ur = as_unit(r);
            &&& (r is Ok ==> r matches Ok(Flow::Next))
            &&& (branch_step(pre, b, ur, int_on(pre.stack@, 0) && int_on(pre.stack@, 1), 2,
                holds(Cond::Ne, int_of(pre.stack@, 1) as int, int_of(pre.stack@, 0) as int)))
        }))
    &&& (a.pc < a.code@.len() && opcode(a) == 0xa1 ==> ({
            let pre = pre_of(a);
            let ur = as_unit(r);
            &&& (r is Ok ==> r matches Ok(Flow::Next))
            &&& (branch_step(pre, b, ur, int_on(pre.stack@, 0) && int_on(pre.stack@, 1), 2,
                holds(Cond::Lt, int_of(pre.stack@, 1) as int, int_of(pre.stack@, 0) as int)))
        }))
    &&& (a.pc < a.code@.len() && opcode(a) == 0xa2 ==> ({
            let pre = pre_of(a);
            let ur = as_unit(r);
            &&& (r is Ok ==> r matches Ok(Flow::Next))
            &&& (branch_step(pre, b, ur, int_on(pre.stack@, 0) && int_on(pre.stack@, 1), 2,
                holds(Cond::Ge, int_of(pre.stack@, 1) as int, int_of(pre.stack@, 0) as int)))
        }))
    &&& (a.pc < a.code@.len() && opcode(a) == 0xa3 ==> ({
            let pre = pre_of(a);
            let ur = as_unit(r);
            &&& (r is Ok ==> r matches Ok(Flow::Next))
            &&& (branch_step(pre, b, ur, int_on(pre.stack@, 0) && int_on(pre.stack@, 1), 2,
                holds(Cond::Gt, int_of(pre.stack@, 1) as int, int_of(pre.stack@, 0) as int)))
        }))
    &&& (a.pc < a.code@.len() && opcode(a) == 0xa4 ==> ({
            let pre = pre_of(a);
            let ur = as_unit(r);
            &&& (r is Ok ==> r matches Ok(Flow::Next))
            &&& (branch_step(pre, b, ur, int_on(pre.stack@, 0) && int_on(pre.stack@, 1), 2,
                holds(Cond::Le, int_of(pre.stack@, 1) as int, int_of(pre.stack@, 0) as int)))
        }))
    &&& (a.pc < a.code@.len() && opcode(a) == 0xa5 ==> ({
            let pre = pre_of(a);
            let ur = as_unit(r);
            &&& (r is Ok ==> r matches Ok(Flow::Next))
            &&& (branch_step(pre, b, ur, ref_on(pre.stack@, 0) && ref_on(pre.stack@, 1), 2,
                depth(pre.stack@, 1) == depth(pre.stack@, 0)))
        }))
    &&& (a.pc < a.code@.len() && opcode(a) == 0xa6 ==> ({
            let pre = pre_of(a);
            let ur = as_unit(r);
            &&& (r is Ok ==> r matches Ok(Flow::Next))
            &&& (branch_step(pre, b, ur, ref_on(pre.stack@, 0) && ref_on(pre.stack@, 1), 2,
                depth(pre.stack@, 1) != depth(pre.stack@, 0)))
        }))
    &&& (a.pc < a.code@.len() && opcode(a) == 0xa7 ==> ({
            let pre = pre_of(a);
            let ur = as_unit(r);
            &&& (r is Ok ==> r matches Ok(Flow::Next))
            &&& (branch_step(pre, b, ur, true, 0, true))
        }))
    &&& (a.pc < a.code@.len() && opcode(a) == 0xa8 ==> ({
            let pre = pre_of(a);
            let ur = as_unit(r);
            &&& (r is Ok ==> r matches Ok(Flow::Next))
            &&& (ur == Err::<(), VmError>(VmError::Unsupported(0xa8)))
            &&& (b == pre)
        }))
    &&& (a.pc < a.code@.len() && opcode(a) == 0xa9 ==> ({
            let pre = pre_of(a);
            let ur = as_unit(r);
            &&& (r is Ok ==> r matches Ok(Flow::Next))
            &&& (ur == Err::<(), VmError>(VmError::Unsupported(0xa9)))
            &&& (b == pre)
        }))
    &&& (a.pc < a.code@.len() && opcode(a) == 0xaa ==> ({
            let pre = pre_of(a);
            let ur = as_unit(r);
            &&& (r is Ok ==> r matches Ok(Flow::Next))
            &&& (switch_step(pre, b, ur, table_fits(pre.code@, pre.pc - 1),
                table_target(pre.code@, pre.pc - 1, int_of(pre.stack@, 0) as int)))
        }))
    &&& (a.pc < a.code@.len() && opcode(a) == 0xab ==> ({
            let pre = pre_of(a);
            let ur = as_unit(r);
            &&& (r is Ok ==> r matches Ok(Flow::Next))
            &&& (switch_step(pre, b, ur, lookup_fits(pre.code@, pre.pc - 1),
                lookup_from(pre.code@, pre.pc - 1, int_of(pre.stack@, 0) as int, 0)))
        }))
    &&& (a.pc < a.code@.len() && opcode(a) == 0xac ==> ({
            let pre = pre_of(a);
            let ur = as_unit(r);
            &&& (r is Ok ==> r matches Ok(Flow::Return))
            &&& (return_step(pre, b, ur, int_on(pre.stack@, 0), 1, Some(depth(pre.stack@, 0))))
        }))
    &&& (a.pc < a.code@.len() && opcode(a) == 0xad ==> ({
            let pre = pre_of(a);
            let ur = as_unit(r);
            &&& (r is Ok ==> r matches Ok(Flow::Return))
            &&& (return_step(pre, b, ur, long_on(pre.stack@, 0), 2, Some(depth(pre.stack@, 1))))
        }))
    &&& (a.pc < a.code@.len() && opcode(a) == 0xae ==> ({
            let pre = pre_of(a);
            let ur = as_unit(r);
            &&& (r is Ok ==> r matches Ok(Flow::Return))
            &&& (return_step(pre, b, ur, float_on(pre.stack@, 0), 1, Some(depth(pre.stack@, 0))))
        }))
    &&& (a.pc < a.code@.len() && opcode(a) == 0xaf ==> ({
            let pre = pre_of(a);
            let ur = as_unit(r);
            &&& (r is Ok ==> r matches Ok(Flow::Return))
            &&& (return_step(pre, b, ur, double_on(pre.stack@, 0), 2, Some(depth(pre.stack@, 1))))
        }))
    &&& (a.pc < a.code@.len() && opcode(a) == 0xb0 ==> ({
            let pre = pre_of(a);
            let ur = as_unit(r);
            &&& (r is Ok ==> r matches Ok(Flow::Return))
            &&& (return_step(pre, b, ur, ref_on(pre.stack@, 0), 1, Some(depth(pre.stack@, 0))))
        }))
    &&& (a.pc < a.code@.len() && opcode(a) == 0xb1 ==> ({
            let pre = pre_of(a);
            let ur = as_unit(r);
            &&& (r is Ok ==> r matches Ok(Flow::Return))
            &&& (return_step(pre, b, ur, true, 0, None))
        }))
    &&& (a.pc < a.code@.len() && opcode(a) == 0xb2 ==> ({
            let pre = pre_of(a);
            let ur = as_init(r);
            &&& (r is Ok ==> (r matches Ok(Flow::Next) || r matches Ok(Flow::Init(_))))
            &&& (({
                let a = pre;
                let cs = ta.classes.classes@;
                let f = field_operand(a, ta);
                let dc = field_class(a, ta);
                let k = field_cat(f.value_type)->Some_0;
                &&& (ur is Ok <==> field_ok(a, ta, true) && room(a, width(k)))
                &&& (ur is Err ==> b == a)
                &&& (ur matches Ok(w) ==> if init_ready(cs, dc as int) {
                    &&& w is None
                    &&& b == (Frame { stack: b.stack, pc: (a.pc + 2) as usize, ..a })
                    &&& b.stack@ == pushed(a.stack@, cs[dc as int].static_values@[f.slot as int], k)
                } else {
                    w == Some(dc) && b == a
                })
            }))
        }))
    &&& (a.pc < a.code@.len() && opcode(a) == 0xb3 ==> ({
            let pre = pre_of(a);
            let ur = as_init(r);
            &&& (r is Ok ==> (r matches Ok(Flow::Next) || r matches Ok(Flow::Init(_))))
            &&& (({
                let a = pre;
                let ta = ta;
                let cs = ta.classes.classes@;
                let f = field_operand(a, ta);
                let dc = field_class(a, ta);
                let k = field_cat(f.value_type)->Some_0;
                &&& (ur is Ok <==> field_ok(a, ta, true) && stack_holds(a.stack@, k))
                &&& (ur is Err ==> b == a && tb == ta)
                &&& (ur matches Ok(w) ==> if init_ready(cs, dc as int) {
                    &&& w is None
                    &&& b == (Frame { stack: b.stack, pc: (a.pc + 2) as usize, ..a })
                    &&& b.stack@ == popped(a.stack@, width(k))
                    &&& tb == (JavaThread { classes: tb.classes, ..ta })
                    &&& tb.wf()
                    &&& tb.classes.classes@.len() == cs.len()
                    &&& forall|i: int| 0 <= i < cs.len() && i != dc ==> tb.classes.classes@[i] == cs[i]
                    &&& tb.classes.classes@[dc as int].static_values@ == cs[dc as int].static_values@.update(
                        f.slot as int, narrow_to(f.value_type, depth(a.stack@, width(k) - 1)))
                    &&& tb.classes.classes@[dc as int].state == cs[dc as int].state
                } else {
                    w == Some(dc) && b == a && tb == ta
                })
            }))
        }))
    &&& (a.pc < a.code@.len() && opcode(a) == 0xb4 ==> ({
            let pre = pre_of(a);
            let ur = as_unit(r);
            &&& (r is Ok ==> r matches Ok(Flow::Next))
            &&& (({
                let a = pre;
                let ta = ta;
                let s = a.stack@;
                let f = field_operand(a, ta);
                let k = field_cat(f.value_type)->Some_0;
                let objs = ta.heap.objs@;
                &&& (ur is Ok <==> field_ok(a, ta, false) && ref_on(s, 0) && room(a, width(k) - 1)
                    && (depth(s, 0) matches Slot::Ref(p) ==> has_field_slot(objs, p as int, f.slot as int)))
                &&& (ur is Err ==> b == a && tb == ta)
                &&& (ur is Ok ==> b == (Frame { stack: b.stack, pc: (a.pc + 2) as usize, ..a }))
                &&& (ur is Ok ==> match depth(s, 0) {
                    Slot::Ref(p) => b.stack@ == pushed(popped(s, 1), field_value(objs[p as int], f.slot as int), k)
                        && tb == ta,
                    _ => b.stack@ == popped(s, 1) && raised(ta, tb, NULL_POINTER, None),
                })
            }))
        }))
    &&& (a.pc < a.code@.len() && opcode(a) == 0xb5 ==> ({
            let pre = pre_of(a);
            let ur = as_unit(r);
            &&& (r is Ok ==> r matches Ok(Flow::Next))
            &&& (({
                let a = pre;
                let ta = ta;
                let s = a.stack@;
                let f = field_operand(a, ta);
                let k = field_cat(f.value_type)->Some_0;
                let w = width(k);
                let objs = ta.heap.objs@;
                &&& (ur is Ok <==> field_ok(a, ta, false) && stack_holds(s, k) && ref_on(s, w)
                    && (depth(s, w) matches Slot::Ref(p) ==> has_field_slot(objs, p as int, f.slot as int)))
                &&& (ur is Err ==> b == a && tb == ta)
                &&& (ur is Ok ==> b == (Frame { stack: b.stack, pc: (a.pc + 2) as usize, ..a }))
                &&& (ur is Ok ==> b.stack@ == popped(s, w + 1))
                &&& (ur is Ok ==> match depth(s, w) {
                    Slot::Ref(p) => tb == (JavaThread { heap: tb.heap, ..ta })
                        && tb.heap.objs@.len() == objs.len()
                        && (forall|i: int| 0 <= i < objs.len() && i != p ==> tb.heap.objs@[i] == objs[i])
                        && inst_field_set(objs[p as int], tb.heap.objs@[p as int], f.slot as int,
                            narrow_to(f.value_type, depth(s, w - 1))),
                    _ => raised(ta, tb, NULL_POINTER, None),
                })
            }))
        }))
    &&& (a.pc < a.code@.len() && opcode(a) == 0xb6 ==> ({
            let pre = pre_of(a);
            let ur = as_invoke(r);
            &&& (r is Ok ==> (r matches Ok(Flow::Next) || r matches Ok(Flow::Init(_)) || r matches Ok(Flow::Enter(_))))
            &&& (invoke_step(pre, b, ta, tb, ur, InvokeKind::Virtual))
        }))
    &&& (a.pc < a.code@.len() && opcode(a) == 0xb7 ==> ({
            let pre = pre_of(a);
            let ur = as_invoke(r);
            &&& (r is Ok ==> (r matches Ok(Flow::Next) || r matches Ok(Flow::Init(_)) || r matches Ok(Flow::Enter(_))))
            &&& (invoke_step(pre, b, ta, tb, ur, InvokeKind::Special))
        }))
    &&& (a.pc < a.code@.len() && opcode(a) == 0xb8 ==> ({
            let pre = pre_of(a);
            let ur = as_invoke(r);
            &&& (r is Ok ==> (r matches Ok(Flow::Next) || r matches Ok(Flow::Init(_)) || r matches Ok(Flow::Enter(_))))
            &&& (invoke_step(pre, b, ta, tb, ur, InvokeKind::Static))
        }))
    &&& (a.pc < a.code@.len() && opcode(a) == 0xb9 ==> ({
            let pre = pre_of(a);
            let ur = as_invoke(r);
            &&& (r is Ok ==> (r matches Ok(Flow::Next) || r matches Ok(Flow::Init(_)) || r matches Ok(Flow::Enter(_))))
            &&& (invoke_step(pre, b, ta, tb, ur, InvokeKind::Interface))
        }))
    &&& (a.pc < a.code@.len() && opcode(a) == 0xba ==> ({
            let pre = pre_of(a);
            let ur = as_unit(r);
            &&& (r is Ok ==> r matches Ok(Flow::Next))
            &&& (ur == Err::<(), VmError>(VmError::Unsupported(0xba)))
            &&& (b == pre)
        }))
    &&& (a.pc < a.code@.len() && opcode(a) == 0xbb ==> ({
            let pre = pre_of(a);
            let ur = as_init(r);
            &&& (r is Ok ==> (r matches Ok(Flow::Next) || r matches Ok(Flow::Init(_))))
            &&& (({
                let a = pre;
                let ta = ta;
                let cs = ta.classes.classes@;
                let c = class_operand(a, ta);
                let objs = ta.heap.objs@;
                &&& (ur is Ok <==> a.pc + 2 <= a.code@.len()
                    && resolved_class(cs, a.class as int, u2_at(a.code@, a.pc as int)) is Some
                    && cs[c as int].kind is Instance && room(a, 1))
                &&& (ur is Err ==> b == a && tb == ta)
                &&& (ur matches Ok(w) ==> if init_ready(cs, c as int) {
                    &&& w is None
                    &&& b == (Frame { stack: b.stack, pc: (a.pc + 2) as usize, ..a })
                    &&& b.stack@ == a.stack@.push(Slot::Ref(objs.len() as usize))
                    &&& tb == (JavaThread { heap: tb.heap, ..ta })
                    &&& tb.wf()
                    &&& tb.heap.objs@.len() == objs.len() + 1
                    &&& tb.heap.objs@.drop_last() == objs
                    &&& tb.heap.objs@.last().count == 0
                    &&& tb.heap.objs@.last().kind matches ObjKind::Inst { class, fields }
                        && class == c && fields@ == cs[c as int].layout@.map_values(|t: ValueType| zero_of(t))
                } else {
                    w == Some(c) && b == a && tb == ta
                })
            }))
        }))
    &&& (a.pc < a.code@.len() && opcode(a) == 0xbc ==> ({
            let pre = pre_of(a);
            let ur = as_unit(r);
            &&& (r is Ok ==> r matches Ok(Flow::Next))
            &&& (({
                let a = pre;
                let s = a.stack@;
                let n = int_of(s, 0);
                let t = atype_elem(a.code@[a.pc as int]);
                &&& (ur is Ok <==> a.pc + 1 <= a.code@.len() && int_on(s, 0) && t is Some)
                &&& (ur is Err ==> b == a && tb == ta)
                &&& (ur is Ok ==> b == (Frame { stack: b.stack, pc: (a.pc + 1) as usize, ..a }))
                &&& (ur is Ok ==> if n < 0 {
                    b.stack@ == popped(s, 1)
                        && raised(ta, tb, NEGATIVE_ARRAY_SIZE, Some(negative_length_message()))
                } else {
                    let objs = ta.heap.objs@;
                    &&& b.stack@ == popped(s, 1).push(Slot::Ref(objs.len() as usize))
                    &&& tb.heap.objs@.len() == objs.len() + 1
                    &&& tb.heap.objs@.drop_last() == objs
                    &&& tb.heap.objs@.last().count == 0
                    &&& tb.heap.objs@.last().kind matches ObjKind::TypeArray { elem, elements }
                        && elem == t->Some_0 && elements@ == Seq::new(n as nat, |i: int| zero_of(t->Some_0))
                    &&& tb == (JavaThread { heap: tb.heap, ..ta })
                })
            }))
        }))
    &&& (a.pc < a.code@.len() && opcode(a) == 0xbd ==> ({
            let pre = pre_of(a);
            let ur = as_unit(r);
            &&& (r is Ok ==> r matches Ok(Flow::Next))
            &&& (crate::init::states_advance(ta.classes.classes@, tb.classes.classes@))
            &&& (({
                let a = pre;
                let ta = ta;
                let s = a.stack@;
                let cs = ta.classes.classes@;
                let c = class_operand(a, ta);
                let n = int_of(s, 0);
                let name = array_name_of(cs[c as int]);
                &&& (ur is Ok <==> a.pc + 2 <= a.code@.len()
                    && resolved_class(cs, a.class as int, u2_at(a.code@, a.pc as int)) is Some && int_on(s, 0)
                    && (n >= 0 ==> (lookup_class(cs, name) matches Some(k) ==> cs[k as int].kind == (ClassKind::ObjectArray { component: c }))))
                &&& (ur is Err ==> b == a && tb == ta)
                &&& (ur is Ok ==> b == (Frame { stack: b.stack, pc: (a.pc + 2) as usize, ..a }))
                &&& (ur is Ok ==> if n < 0 {
                    b.stack@ == popped(s, 1)
                        && raised(ta, tb, NEGATIVE_ARRAY_SIZE, Some(negative_length_message()))
                } else {
                    let objs = tb.heap.objs@;
                    let cs2 = tb.classes.classes@;
                    &&& b.stack@ == popped(s, 1).push(Slot::Ref((objs.len() - 1) as usize))
                    &&& objs.len() > ta.heap.objs@.len()
                    &&& objs.last().kind matches ObjKind::Array { class, elements }
                        && cs2[class as int].kind == (ClassKind::ObjectArray { component: c })
                        && cs2[class as int].name@ == name
                        && elements@ == Seq::new(n as nat, |i: int| Slot::Null)
                })
            }))
        }))
    &&& (a.pc < a.code@.len() && opcode(a) == 0xbe ==> ({
            let pre = pre_of(a);
            let ur = as_unit(r);
            &&& (r is Ok ==> r matches Ok(Flow::Next))
            &&& (({
                let s = pre.stack@;
                let objs = ta.heap.objs@;
                let arr = depth(s, 0);
                &&& (ur is Ok <==> ref_on(s, 0) && (arr matches Slot::Ref(p) ==> p < objs.len()
                    && elements_of(objs[p as int]) is Some && elements_of(objs[p as int])->Some_0.len() <= i32::MAX))
                &&& (ur is Err ==> b == pre && tb == ta)
                &&& (ur is Ok ==> match arr {
                    Slot::Ref(p) => stack_is(pre, b,
                        popped(s, 1).push(Slot::Int(elements_of(objs[p as int])->Some_0.len() as i32)))
                        && tb == ta,
                    _ => stack_is(pre, b, popped(s, 1)) && raised(ta, tb, NULL_POINTER, None),
                })
            }))
        }))
    &&& (a.pc < a.code@.len() && opcode(a) == 0xbf ==> ({
            let pre = pre_of(a);
            let ur = as_unit(r);
            &&& (r is Ok ==> r matches Ok(Flow::Next))
            &&& (({
                let s = pre.stack@;
                &&& (ur is Ok <==> ref_on(s, 0) && (depth(s, 0) matches Slot::Ref(p) ==> p < ta.heap.objs@.len()))
                &&& (ur is Err ==> b == pre && tb == ta)
                &&& (ur is Ok ==> stack_is(pre, b, popped(s, 1)))
                &&& (ur is Ok ==> match depth(s, 0) {
                    Slot::Ref(p) => tb == (JavaThread { ex: Some(p), ..ta }),
                    _ => raised(ta, tb, NULL_POINTER, None),
                })
            }))
        }))
    &&& (a.pc < a.code@.len() && opcode(a) == 0xc0 ==> ({
            let pre = pre_of(a);
            let ur = as_unit(r);
            &&& (r is Ok ==> r matches Ok(Flow::Next))
            &&& (({
                let a = pre;
                let ta = ta;
                let s = a.stack@;
                let t = class_operand(a, ta);
                &&& (ur is Ok <==> type_check_ok(a, ta))
                &&& (ur is Err ==> b == a && tb == ta)
                &&& (ur is Ok ==> if passes(s, ta, t) {
                    b == (Frame { pc: (a.pc + 2) as usize, ..a }) && tb == ta
                } else {
                    &&& b == (Frame { stack: b.stack, pc: (a.pc + 2) as usize, ..a })
                    &&& b.stack@ == popped(s, 1)
                    &&& raised(ta, tb, CLASS_CAST, Some(cast_message(
                        obj_class_name(ta.classes.classes@, ta.heap.objs@[depth(s, 0)->Ref_0 as int]),
                        ta.classes.classes@[t as int].name@)))
                })
            }))
        }))
    &&& (a.pc < a.code@.len() && opcode(a) == 0xc1 ==> ({
            let pre = pre_of(a);
            let ur = as_unit(r);
            &&& (r is Ok ==> r matches Ok(Flow::Next))
            &&& (({
                let a = pre;
                let s = a.stack@;
                let t = class_operand(a, ta);
                let yes = depth(s, 0) is Ref && passes(s, ta, t);
                &&& (ur is Ok <==> type_check_ok(a, ta))
                &&& (ur is Err ==> b == a)
                &&& (ur is Ok ==> b == (Frame { stack: b.stack, pc: (a.pc + 2) as usize, ..a }))
                &&& (ur is Ok ==> b.stack@ == popped(s, 1).push(Slot::Int(if yes { 1i32 } else { 0i32 })))
            }))
        }))
    &&& (a.pc < a.code@.len() && opcode(a) == 0xc2 ==> ({
            let pre = pre_of(a);
            let ur = as_unit(r);
            &&& (r is Ok ==> r matches Ok(Flow::Next))
            &&& (({
                let s = pre.stack@;
                let objs = ta.heap.objs@;
                let v = depth(s, 0);
                &&& (ur is Ok <==> ref_on(s, 0) && (v matches Slot::Ref(p) ==> p < objs.len()
                    && (objs[p as int].count == 0 || (objs[p as int].owner == ta.id
                        && objs[p as int].count < u64::MAX))))
                &&& (ur is Err ==> b == pre && tb == ta)
                &&& (ur is Ok ==> stack_is(pre, b, popped(s, 1)))
                &&& (ur is Ok ==> match v {
                    Slot::Ref(p) => tb == (JavaThread { heap: tb.heap, ..ta })
                        && tb.heap.objs@ == objs.update(p as int, HeapObj {
                            owner: ta.id, count: (objs[p as int].count + 1) as u64, ..objs[p as int] }),
                    _ => raised(ta, tb, NULL_POINTER, None),
                })
            }))
        }))
    &&& (a.pc < a.code@.len() && opcode(a) == 0xc3 ==> ({
            let pre = pre_of(a);
            let ur = as_unit(r);
            &&& (r is Ok ==> r matches Ok(Flow::Next))
            &&& (({
                let s = pre.stack@;
                let objs = ta.heap.objs@;
                let v = depth(s, 0);
                &&& (ur is Ok <==> ref_on(s, 0) && (v matches Slot::Ref(p) ==> p < objs.len()))
                &&& (ur is Err ==> b == pre && tb == ta)
                &&& (ur is Ok ==> stack_is(pre, b, popped(s, 1)))
                &&& (ur is Ok ==> match v {
                    Slot::Ref(p) => if objs[p as int].count > 0 && objs[p as int].owner == ta.id {
                        tb == (JavaThread { heap: tb.heap, ..ta })
                            && tb.heap.objs@ == objs.update(p as int, HeapObj {
                                count: (objs[p as int].count - 1) as u64, ..objs[p as int] })
                    } else {
                        raised(ta, tb, ILLEGAL_MONITOR_STATE, None)
                    },
                    _ => raised(ta, tb, NULL_POINTER, None),
                })
            }))
        }))
    &&& (a.pc < a.code@.len() && opcode(a) == 0xc4 ==> ({
            let pre = pre_of(a);
            &&& (r is Ok ==> r matches Ok(Flow::Next))
            &&& (b == (Frame { op_widen: true, ..pre }))
        }))
    &&& (a.pc < a.code@.len() && opcode(a) == 0xc5 ==> ({
            let pre = pre_of(a);
            let ur = as_unit(r);
            &&& (r is Ok ==> r matches Ok(Flow::Next))
            &&& (tb.classes == ta.classes)
            &&& (ur is Err ==> b == pre)
            &&& (({
                let a = pre;
                let d = a.code@[a.pc + 2] as int;
                let cs = ta.classes.classes@;
                let counts = multi_counts(a.stack@, d);
                let negative = exists|k: int| 0 <= k < d && int_of(a.stack@, k) < 0;
                &&& (ur is Ok <==> a.pc + 3 <= a.code@.len() && 1 <= d <= a.stack@.len()
                    && (forall|k: int| 0 <= k < d ==> #[trigger] int_on(a.stack@, k))
                    && resolved_class(cs, a.class as int, u2_at(a.code@, a.pc as int)) is Some
                    && (!negative ==> multi_ok(cs, class_operand(a, ta) as int, counts, 0)))
                &&& (ur is Ok ==> b == (Frame { stack: b.stack, pc: (a.pc + 3) as usize, ..a }))
                &&& (ur is Ok ==> if negative {
                    &&& b.stack@ == popped(a.stack@, d)
                    &&& raised(ta, tb, NEGATIVE_ARRAY_SIZE, Some(negative_length_message()))
                } else {
                    &&& b.stack@.drop_last() == popped(a.stack@, d)
                    &&& b.stack@.len() == a.stack@.len() - d + 1
                    &&& (b.stack@.last() matches Slot::Ref(p)
                        && multi_built(tb.heap.objs@, p as int, counts, 0))
                })
            }))
        }))
    &&& (a.pc < a.code@.len() && opcode(a) == 0xc6 ==> ({
            let pre = pre_of(a);
            let ur = as_unit(r);
            &&& (r is Ok ==> r matches Ok(Flow::Next))
            &&& (branch_step(pre, b, ur, ref_on(pre.stack@, 0), 1,
                (depth(pre.stack@, 0) is Null)))
        }))
    &&& (a.pc < a.code@.len() && opcode(a) == 0xc7 ==> ({
            let pre = pre_of(a);
            let ur = as_unit(r);
            &&& (r is Ok ==> r matches Ok(Flow::Next))
            &&& (branch_step(pre, b, ur, ref_on(pre.stack@, 0), 1,
                !(depth(pre.stack@, 0) is Null)))
        }))
    &&& (a.pc < a.code@.len() && opcode(a) == 0xc8 ==> ({
            let pre = pre_of(a);
            let ur = as_unit(r);
            &&& (r is Ok ==> r matches Ok(Flow::Next))
            &&& (ur == Err::<(), VmError>(VmError::Unsupported(0xc8)))
            &&& (b == pre)
        }))
    &&& (a.pc < a.code@.len() && opcode(a) == 0xc9 ==> ({
            let pre = pre_of(a);
            let ur = as_unit(r);
            &&& (r is Ok ==> r matches Ok(Flow::Next))
            &&& (ur == Err::<(), VmError>(VmError::Unsupported(0xc9)))
            &&& (b == pre)
        }))
}

impl Frame {
    /// Whether the frame is within its limits.
    pub fn is_wf(&self) -> (r: bool)
        ensures
            r == self.wf(),
    {
        self.stack.len() <= self.max_stack && self.pc <= self.code.len()
    }

    /// Executes the instruction at the program counter. `next_id` is the id
    /// a callee frame gets. The frame stays within its limits: its operand
    /// stack never exceeds `max_stack` and its program counter stays in the
    /// code.
    #[verifier::rlimit(100)]
    pub fn step(&mut self, thread: &mut JavaThread, next_id: usize) -> (r: Result<Flow, VmError>)
        requires
            old(self).wf(),
            old(thread).wf(),
        ensures
            step_post(*old(self), *old(thread), *final(self), *final(thread), r),
    {
        let _len = self.code.len();
        if self.pc >= self.code.len() {
            return Err(VmError::BadCode);
        }
        self.inst_pc = self.pc;
        let op = self.code[self.pc];
        self.pc = self.pc + 1;
        match op {
            0x00 => {
                self.nop();
                Ok(Flow::Next)
            },
            0x01 => match self.aconst_null() {
                Ok(()) => Ok(Flow::Next),
                Err(e) => Err(e),
            },
            0x02 => match self.iconst_m1() {
                Ok(()) => Ok(Flow::Next),
                Err(e) => Err(e),
            },
            0x03 => match self.iconst_0() {
                Ok(()) => Ok(Flow::Next),
                Err(e) => Err(e),
            },
            0x04 => match self.iconst_1() {
                Ok(()) => Ok(Flow::Next),
                Err(e) => Err(e),
            },
            0x05 => match self.iconst_2() {
                Ok(()) => Ok(Flow::Next),
                Err(e) => Err(e),
            },
            0x06 => match self.iconst_3() {
                Ok(()) => Ok(Flow::Next),
                Err(e) => Err(e),
            },
            0x07 => match self.iconst_4() {
                Ok(()) => Ok(Flow::Next),
                Err(e) => Err(e),
            },
            0x08 => match self.iconst_5() {
                Ok(()) => Ok(Flow::Next),
                Err(e) => Err(e),
            },
            0x09 => match self.lconst_0() {
                Ok(()) => Ok(Flow::Next),
                Err(e) => Err(e),
            },
            0x0a => match self.lconst_1() {
                Ok(()) => Ok(Flow::Next),
                Err(e) => Err(e),
            },
            0x0b => match self.fconst_0() {
                Ok(()) => Ok(Flow::Next),
                Err(e) => Err(e),
            },
            0x0c => match self.fconst_1() {
                Ok(()) => Ok(Flow::Next),
                Err(e) => Err(e),
            },
            0x0d => match self.fconst_2() {
                Ok(()) => Ok(Flow::Next),
                Err(e) => Err(e),
            },
            0x0e => match self.dconst_0() {
                Ok(()) => Ok(Flow::Next),
                Err(e) => Err(e),
            },
            0x0f => match self.dconst_1() {
                Ok(()) => Ok(Flow::Next),
                Err(e) => Err(e),
            },
            0x10 => match self.bipush() {
                Ok(()) => Ok(Flow::Next),
                Err(e) => Err(e),
            },
            0x11 => match self.sipush() {
                Ok(()) => Ok(Flow::Next),
                Err(e) => Err(e),
            },
            0x12 => match self.ldc(thread) {
                Ok(None) => Ok(Flow::Next),
                Ok(Some(k)) => Ok(Flow::Init(k)),
                Err(e) => Err(e),
            },
            0x13 => match self.ldc_w(thread) {
                Ok(None) => Ok(Flow::Next),
                Ok(Some(k)) => Ok(Flow::Init(k)),
                Err(e) => Err(e),
            },
            0x14 => match self.ldc2_w(thread) {
                Ok(None) => Ok(Flow::Next),
                Ok(Some(k)) => Ok(Flow::Init(k)),
                Err(e) => Err(e),
            },
            0x15 => match self.iload() {
                Ok(()) => Ok(Flow::Next),
                Err(e) => Err(e),
            },
            0x16 => match self.lload() {
                Ok(()) => Ok(Flow::Next),
                Err(e) => Err(e),
            },
            0x17 => match self.fload() {
                Ok(()) => Ok(Flow::Next),
                Err(e) => Err(e),
            },
            0x18 => match self.dload() {
                Ok(()) => Ok(Flow::Next),
                Err(e) => Err(e),
            },
            0x19 => match self.aload() {
                Ok(()) => Ok(Flow::Next),
                Err(e) => Err(e),
            },
            0x1a => match self.iload_0() {
                Ok(()) => Ok(Flow::Next),
                Err(e) => Err(e),
            },
            0x1b => match self.iload_1() {
                Ok(()) => Ok(Flow::Next),
                Err(e) => Err(e),
            },
            0x1c => match self.iload_2() {
                Ok(()) => Ok(Flow::Next),
                Err(e) => Err(e),
            },
            0x1d => match self.iload_3() {
                Ok(()) => Ok(Flow::Next),
                Err(e) => Err(e),
            },
            0x1e => match self.lload_0() {
                Ok(()) => Ok(Flow::Next),
                Err(e) => Err(e),
            },
            0x1f => match self.lload_1() {
                Ok(()) => Ok(Flow::Next),
                Err(e) => Err(e),
            },
            0x20 => match self.lload_2() {
                Ok(()) => Ok(Flow::Next),
                Err(e) => Err(e),
            },
            0x21 => match self.lload_3() {
                Ok(()) => Ok(Flow::Next),
                Err(e) => Err(e),
            },
            0x22 => match self.fload_0() {
                Ok(()) => Ok(Flow::Next),
                Err(e) => Err(e),
            },
            0x23 => match self.fload_1() {
                Ok(()) => Ok(Flow::Next),
                Err(e) => Err(e),
            },
            0x24 => match self.fload_2() {
                Ok(()) => Ok(Flow::Next),
                Err(e) => Err(e),
            },
            0x25 => match self.fload_3() {
                Ok(()) => Ok(Flow::Next),
                Err(e) => Err(e),
            },
            0x26 => match self.dload_0() {
                Ok(()) => Ok(Flow::Next),
                Err(e) => Err(e),
            },
            0x27 => match self.dload_1() {
                Ok(()) => Ok(Flow::Next),
                Err(e) => Err(e),
            },
            0x28 => match self.dload_2() {
                Ok(()) => Ok(Flow::Next),
                Err(e) => Err(e),
            },
            0x29 => match self.dload_3() {
                Ok(()) => Ok(Flow::Next),
                Err(e) => Err(e),
            },
            0x2a => match self.aload_0() {
                Ok(()) => Ok(Flow::Next),
                Err(e) => Err(e),
            },
            0x2b => match self.aload_1() {
                Ok(()) => Ok(Flow::Next),
                Err(e) => Err(e),
            },
            0x2c => match self.aload_2() {
                Ok(()) => Ok(Flow::Next),
                Err(e) => Err(e),
            },
            0x2d => match self.aload_3() {
                Ok(()) => Ok(Flow::Next),
                Err(e) => Err(e),
            },
            0x2e => match self.iaload(thread) {
                Ok(()) => Ok(Flow::Next),
                Err(e) => Err(e),
            },
            0x2f => match self.laload(thread) {
                Ok(()) => Ok(Flow::Next),
                Err(e) => Err(e),
            },
            0x30 => match self.faload(thread) {
                Ok(()) => Ok(Flow::Next),
                Err(e) => Err(e),
            },
            0x31 => match self.daload(thread) {
                Ok(()) => Ok(Flow::Next),
                Err(e) => Err(e),
            },
            0x32 => match self.aaload(thread) {
                Ok(()) => Ok(Flow::Next),
                Err(e) => Err(e),
            },
            0x33 => match self.baload(thread) {
                Ok(()) => Ok(Flow::Next),
                Err(e) => Err(e),
            },
            0x34 => match self.caload(thread) {
                Ok(()) => Ok(Flow::Next),
                Err(e) => Err(e),
            },
            0x35 => match self.saload(thread) {
                Ok(()) => Ok(Flow::Next),
                Err(e) => Err(e),
            },
            0x36 => match self.istore() {
                Ok(()) => Ok(Flow::Next),
                Err(e) => Err(e),
            },
            0x37 => match self.lstore() {
                Ok(()) => Ok(Flow::Next),
                Err(e) => Err(e),
            },
            0x38 => match self.fstore() {
                Ok(()) => Ok(Flow::Next),
                Err(e) => Err(e),
            },
            0x39 => match self.dstore() {
                Ok(()) => Ok(Flow::Next),
                Err(e) => Err(e),
            },
            0x3a => match self.astore() {
                Ok(()) => Ok(Flow::Next),
                Err(e) => Err(e),
            },
            0x3b => match self.istore_0() {
                Ok(()) => Ok(Flow::Next),
                Err(e) => Err(e),
            },
            0x3c => match self.istore_1() {
                Ok(()) => Ok(Flow::Next),
                Err(e) => Err(e),
            },
            0x3d => match self.istore_2() {
                Ok(()) => Ok(Flow::Next),
                Err(e) => Err(e),
            },
            0x3e => match self.istore_3() {
                Ok(()) => Ok(Flow::Next),
                Err(e) => Err(e),
            },
            0x3f => match self.lstore_0() {
                Ok(()) => Ok(Flow::Next),
                Err(e) => Err(e),
            },
            0x40 => match self.lstore_1() {
                Ok(()) => Ok(Flow::Next),
                Err(e) => Err(e),
            },
            0x41 => match self.lstore_2() {
                Ok(()) => Ok(Flow::Next),
                Err(e) => Err(e),
            },
            0x42 => match self.lstore_3() {
                Ok(()) => Ok(Flow::Next),
                Err(e) => Err(e),
            },
            0x43 => match self.fstore_0() {
                Ok(()) => Ok(Flow::Next),
                Err(e) => Err(e),
            },
            0x44 => match self.fstore_1() {
                Ok(()) => Ok(Flow::Next),
                Err(e) => Err(e),
            },
            0x45 => match self.fstore_2() {
                Ok(()) => Ok(Flow::Next),
                Err(e) => Err(e),
            },
            0x46 => match self.fstore_3() {
                Ok(()) => Ok(Flow::Next),
                Err(e) => Err(e),
            },
            0x47 => match self.dstore_0() {
                Ok(()) => Ok(Flow::Next),
                Err(e) => Err(e),
            },
            0x48 => match self.dstore_1() {
                Ok(()) => Ok(Flow::Next),
                Err(e) => Err(e),
            },
            0x49 => match self.dstore_2() {
                Ok(()) => Ok(Flow::Next),
                Err(e) => Err(e),
            },
            0x4a => match self.dstore_3() {
                Ok(()) => Ok(Flow::Next),
                Err(e) => Err(e),
            },
            0x4b => match self.astore_0() {
                Ok(()) => Ok(Flow::Next),
                Err(e) => Err(e),
            },
            0x4c => match self.astore_1() {
                Ok(()) => Ok(Flow::Next),
                Err(e) => Err(e),
            },
            0x4d => match self.astore_2() {
                Ok(()) => Ok(Flow::Next),
                Err(e) => Err(e),
            },
            0x4e => match self.astore_3() {
                Ok(()) => Ok(Flow::Next),
                Err(e) => Err(e),
            },
            0x4f => match self.iastore(thread) {
                Ok(()) => Ok(Flow::Next),
                Err(e) => Err(e),
            },
            0x50 => match self.lastore(thread) {
                Ok(()) => Ok(Flow::Next),
                Err(e) => Err(e),
            },
            0x51 => match self.fastore(thread) {
                Ok(()) => Ok(Flow::Next),
                Err(e) => Err(e),
            },
            0x52 => match self.dastore(thread) {
                Ok(()) => Ok(Flow::Next),
                Err(e) => Err(e),
            },
            0x53 => match self.aastore(thread) {
                Ok(()) => Ok(Flow::Next),
                Err(e) => Err(e),
            },
            0x54 => match self.bastore(thread) {
                Ok(()) => Ok(Flow::Next),
                Err(e) => Err(e),
            },
            0x55 => match self.castore(thread) {
                Ok(()) => Ok(Flow::Next),
                Err(e) => Err(e),
            },
            0x56 => match self.sastore(thread) {
                Ok(()) => Ok(Flow::Next),
                Err(e) => Err(e),
            },
            0x57 => match self.pop() {
                Ok(()) => Ok(Flow::Next),
                Err(e) => Err(e),
            },
            0x58 => match self.pop2() {
                Ok(()) => Ok(Flow::Next),
                Err(e) => Err(e),
            },
            0x59 => match self.dup() {
                Ok(()) => Ok(Flow::Next),
                Err(e) => Err(e),
            },
            0x5a => match self.dup_x1() {
                Ok(()) => Ok(Flow::Next),
                Err(e) => Err(e),
            },
            0x5b => match self.dup_x2() {
                Ok(()) => Ok(Flow::Next),
                Err(e) => Err(e),
            },
            0x5c => match self.dup2() {
                Ok(()) => Ok(Flow::Next),
                Err(e) => Err(e),
            },
            0x5d => match self.dup2_x1() {
                Ok(()) => Ok(Flow::Next),
                Err(e) => Err(e),
            },
            0x5e => match self.dup2_x2() {
                Ok(()) => Ok(Flow::Next),
                Err(e) => Err(e),
            },
            0x5f => match self.swap() {
                Ok(()) => Ok(Flow::Next),
                Err(e) => Err(e),
            },
            0x60 => match self.iadd() {
                Ok(()) => Ok(Flow::Next),
                Err(e) => Err(e),
            },
            0x61 => match self.ladd() {
                Ok(()) => Ok(Flow::Next),
                Err(e) => Err(e),
            },
            0x64 => match self.isub() {
                Ok(()) => Ok(Flow::Next),
                Err(e) => Err(e),
            },
            0x65 => match self.lsub() {
                Ok(()) => Ok(Flow::Next),
                Err(e) => Err(e),
            },
            0x68 => match self.imul() {
                Ok(()) => Ok(Flow::Next),
                Err(e) => Err(e),
            },
            0x69 => match self.lmul() {
                Ok(()) => Ok(Flow::Next),
                Err(e) => Err(e),
            },
            0x6c => match self.idiv(thread) {
                Ok(()) => Ok(Flow::Next),
                Err(e) => Err(e),
            },
            0x6d => match self.ldiv(thread) {
                Ok(()) => Ok(Flow::Next),
                Err(e) => Err(e),
            },
            0x70 => match self.irem(thread) {
                Ok(()) => Ok(Flow::Next),
                Err(e) => Err(e),
            },
            0x71 => match self.lrem(thread) {
                Ok(()) => Ok(Flow::Next),
                Err(e) => Err(e),
            },
            0x72 => match self.frem() {
                Ok(()) => Ok(Flow::Next),
                Err(e) => Err(e),
            },
            0x73 => match self.drem() {
                Ok(()) => Ok(Flow::Next),
                Err(e) => Err(e),
            },
            0x74 => match self.ineg() {
                Ok(()) => Ok(Flow::Next),
                Err(e) => Err(e),
            },
            0x75 => match self.lneg() {
                Ok(()) => Ok(Flow::Next),
                Err(e) => Err(e),
            },
            0x76 => match self.fneg() {
                Ok(()) => Ok(Flow::Next),
                Err(e) => Err(e),
            },
            0x77 => match self.dneg() {
                Ok(()) => Ok(Flow::Next),
                Err(e) => Err(e),
            },
            0x78 => match self.ishl() {
                Ok(()) => Ok(Flow::Next),
                Err(e) => Err(e),
            },
            0x79 => match self.lshl() {
                Ok(()) => Ok(Flow::Next),
                Err(e) => Err(e),
            },
            0x7a => match self.ishr() {
                Ok(()) => Ok(Flow::Next),
                Err(e) => Err(e),
            },
            0x7b => match self.lshr() {
                Ok(()) => Ok(Flow::Next),
                Err(e) => Err(e),
            },
            0x7c => match self.iushr() {
                Ok(()) => Ok(Flow::Next),
                Err(e) => Err(e),
            },
            0x7d => match self.lushr() {
                Ok(()) => Ok(Flow::Next),
                Err(e) => Err(e),
            },
            0x7e => match self.iand() {
                Ok(()) => Ok(Flow::Next),
                Err(e) => Err(e),
            },
            0x7f => match self.land() {
                Ok(()) => Ok(Flow::Next),
                Err(e) => Err(e),
            },
            0x80 => match self.ior() {
                Ok(()) => Ok(Flow::Next),
                Err(e) => Err(e),
            },
            0x81 => match self.lor() {
                Ok(()) => Ok(Flow::Next),
                Err(e) => Err(e),
            },
            0x82 => match self.ixor() {
                Ok(()) => Ok(Flow::Next),
                Err(e) => Err(e),
            },
            0x83 => match self.lxor() {
                Ok(()) => Ok(Flow::Next),
                Err(e) => Err(e),
            },
            0x84 => match self.iinc() {
                Ok(()) => Ok(Flow::Next),
                Err(e) => Err(e),
            },
            0x85 => match self.i2l() {
                Ok(()) => Ok(Flow::Next),
                Err(e) => Err(e),
            },
            0x88 => match self.l2i() {
                Ok(()) => Ok(Flow::Next),
                Err(e) => Err(e),
            },
            0x8b => match self.f2i() {
                Ok(()) => Ok(Flow::Next),
                Err(e) => Err(e),
            },
            0x8c => match self.f2l() {
                Ok(()) => Ok(Flow::Next),
                Err(e) => Err(e),
            },
            0x8e => match self.d2i() {
                Ok(()) => Ok(Flow::Next),
                Err(e) => Err(e),
            },
            0x8f => match self.d2l() {
                Ok(()) => Ok(Flow::Next),
                Err(e) => Err(e),
            },
            0x91 => match self.i2b() {
                Ok(()) => Ok(Flow::Next),
                Err(e) => Err(e),
            },
            0x92 => match self.i2c() {
                Ok(()) => Ok(Flow::Next),
                Err(e) => Err(e),
            },
            0x93 => match self.i2s() {
                Ok(()) => Ok(Flow::Next),
                Err(e) => Err(e),
            },
            0x94 => match self.lcmp() {
                Ok(()) => Ok(Flow::Next),
                Err(e) => Err(e),
            },
            0x95 => match self.fcmpl() {
                Ok(()) => Ok(Flow::Next),
                Err(e) => Err(e),
            },
            0x96 => match self.fcmpg() {
                Ok(()) => Ok(Flow::Next),
                Err(e) => Err(e),
            },
            0x97 => match self.dcmpl() {
                Ok(()) => Ok(Flow::Next),
                Err(e) => Err(e),
            },
            0x98 => match self.dcmpg() {
                Ok(()) => Ok(Flow::Next),
                Err(e) => Err(e),
            },
            0x99 => match self.ifeq() {
                Ok(()) => Ok(Flow::Next),
                Err(e) => Err(e),
            },
            0x9a => match self.ifne() {
                Ok(()) => Ok(Flow::Next),
                Err(e) => Err(e),
            },
            0x9b => match self.iflt() {
                Ok(()) => Ok(Flow::Next),
                Err(e) => Err(e),
            },
            0x9c => match self.ifge() {
                Ok(()) => Ok(Flow::Next),
                Err(e) => Err(e),
            },
            0x9d => match self.ifgt() {
                Ok(()) => Ok(Flow::Next),
                Err(e) => Err(e),
            },
            0x9e => match self.ifle() {
                Ok(()) => Ok(Flow::Next),
                Err(e) => Err(e),
            },
            0x9f => match self.if_icmpeq() {
                Ok(()) => Ok(Flow::Next),
                Err(e) => Err(e),
            },
            0xa0 => match self.if_icmpne() {
                Ok(()) => Ok(Flow::Next),
                Err(e) => Err(e),
            },
            0xa1 => match self.if_icmplt() {
                Ok(()) => Ok(Flow::Next),
                Err(e) => Err(e),
            },
            0xa2 => match self.if_icmpge() {
                Ok(()) => Ok(Flow::Next),
                Err(e) => Err(e),
            },
            0xa3 => match self.if_icmpgt() {
                Ok(()) => Ok(Flow::Next),
                Err(e) => Err(e),
            },
            0xa4 => match self.if_icmple() {
                Ok(()) => Ok(Flow::Next),
                Err(e) => Err(e),
            },
            0xa5 => match self.if_acmpeq() {
                Ok(()) => Ok(Flow::Next),
                Err(e) => Err(e),
            },
            0xa6 => match self.if_acmpne() {
                Ok(()) => Ok(Flow::Next),
                Err(e) => Err(e),
            },
            0xa7 => match self.goto() {
                Ok(()) => Ok(Flow::Next),
                Err(e) => Err(e),
            },
            0xa8 => match self.jsr() {
                Ok(()) => Ok(Flow::Next),
                Err(e) => Err(e),
            },
            0xa9 => match self.ret() {
                Ok(()) => Ok(Flow::Next),
                Err(e) => Err(e),
            },
            0xaa => match self.table_switch() {
                Ok(()) => Ok(Flow::Next),
                Err(e) => Err(e),
            },
            0xab => match self.lookup_switch() {
                Ok(()) => Ok(Flow::Next),
                Err(e) => Err(e),
            },
            0xac => match self.ireturn() {
                Ok(()) => Ok(Flow::Return),
                Err(e) => Err(e),
            },
            0xad => match self.lreturn() {
                Ok(()) => Ok(Flow::Return),
                Err(e) => Err(e),
            },
            0xae => match self.freturn() {
                Ok(()) => Ok(Flow::Return),
                Err(e) => Err(e),
            },
            0xaf => match self.dreturn() {
                Ok(()) => Ok(Flow::Return),
                Err(e) => Err(e),
            },
            0xb0 => match self.areturn() {
                Ok(()) => Ok(Flow::Return),
                Err(e) => Err(e),
            },
            0xb1 => match self.return_void() {
                Ok(()) => Ok(Flow::Return),
                Err(e) => Err(e),
            },
            0xb2 => match self.get_static(thread) {
                Ok(None) => Ok(Flow::Next),
                Ok(Some(k)) => Ok(Flow::Init(k)),
                Err(e) => Err(e),
            },
            0xb3 => match self.put_static(thread) {
                Ok(None) => Ok(Flow::Next),
                Ok(Some(k)) => Ok(Flow::Init(k)),
                Err(e) => Err(e),
            },
            0xb4 => match self.get_field(thread) {
                Ok(()) => Ok(Flow::Next),
                Err(e) => Err(e),
            },
            0xb5 => match self.put_field(thread) {
                Ok(()) => Ok(Flow::Next),
                Err(e) => Err(e),
            },
            0xb6 => match self.invoke_virtual(thread, next_id) {
                Ok(Invoke::Done) => Ok(Flow::Next),
                Ok(Invoke::NeedInit(k)) => Ok(Flow::Init(k)),
                Ok(Invoke::Enter(f)) => Ok(Flow::Enter(f)),
                Err(e) => Err(e),
            },
            0xb7 => match self.invoke_special(thread, next_id) {
                Ok(Invoke::Done) => Ok(Flow::Next),
                Ok(Invoke::NeedInit(k)) => Ok(Flow::Init(k)),
                Ok(Invoke::Enter(f)) => Ok(Flow::Enter(f)),
                Err(e) => Err(e),
            },
            0xb8 => match self.invoke_static(thread, next_id) {
                Ok(Invoke::Done) => Ok(Flow::Next),
                Ok(Invoke::NeedInit(k)) => Ok(Flow::Init(k)),
                Ok(Invoke::Enter(f)) => Ok(Flow::Enter(f)),
                Err(e) => Err(e),
            },
            0xb9 => match self.invoke_interface(thread, next_id) {
                Ok(Invoke::Done) => Ok(Flow::Next),
                Ok(Invoke::NeedInit(k)) => Ok(Flow::Init(k)),
                Ok(Invoke::Enter(f)) => Ok(Flow::Enter(f)),
                Err(e) => Err(e),
            },
            0xba => match self.invoke_dynamic() {
                Ok(()) => Ok(Flow::Next),
                Err(e) => Err(e),
            },
            0xbb => match self.new_(thread) {
                Ok(None) => Ok(Flow::Next),
                Ok(Some(k)) => Ok(Flow::Init(k)),
                Err(e) => Err(e),
            },
            0xbc => match self.new_array(thread) {
                Ok(()) => Ok(Flow::Next),
                Err(e) => Err(e),
            },
            0xbd => match self.anew_array(thread) {
                Ok(()) => Ok(Flow::Next),
                Err(e) => Err(e),
            },
            0xbe => match self.array_length(thread) {
                Ok(()) => Ok(Flow::Next),
                Err(e) => Err(e),
            },
            0xbf => match self.athrow(thread) {
                Ok(()) => Ok(Flow::Next),
                Err(e) => Err(e),
            },
            0xc0 => match self.check_cast(thread) {
                Ok(()) => Ok(Flow::Next),
                Err(e) => Err(e),
            },
            0xc1 => match self.instance_of(thread) {
                Ok(()) => Ok(Flow::Next),
                Err(e) => Err(e),
            },
            0xc2 => match self.monitor_enter(thread) {
                Ok(()) => Ok(Flow::Next),
                Err(e) => Err(e),
            },
            0xc3 => match self.monitor_exit(thread) {
                Ok(()) => Ok(Flow::Next),
                Err(e) => Err(e),
            },
            0xc4 => {
                self.wide();
                Ok(Flow::Next)
            },
            0xc5 => match self.multi_anew_array(thread) {
                Ok(()) => Ok(Flow::Next),
                Err(e) => Err(e),
            },
            0xc6 => match self.if_null() {
                Ok(()) => Ok(Flow::Next),
                Err(e) => Err(e),
            },
            0xc7 => match self.if_non_null() {
                Ok(()) => Ok(Flow::Next),
                Err(e) => Err(e),
            },
            0xc8 => match self.goto_w() {
                Ok(()) => Ok(Flow::Next),
                Err(e) => Err(e),
            },
            0xc9 => match self.jsr_w() {
                Ok(()) => Ok(Flow::Next),
                Err(e) => Err(e),
            },
            0x62 | 0x63 | 0x66 | 0x67 | 0x6a | 0x6b | 0x6e | 0x6f | 0x86 | 0x87 | 0x89 | 0x8a | 0x8d | 0x90 => Ok(Flow::Float(op)),
            _ => match self.other_wise() {
                Ok(()) => Ok(Flow::Next),
                Err(e) => Err(e),
            },
        }
    }
}

/// The same activation: id, class and method agree.
pub open spec fn same_activation(a: Frame, b: Frame) -> bool {
    a.frame_id == b.frame_id && a.class == b.class && a.method == b.method
}

/// All frames are within their limits.
pub open spec fn frames_wf(fs: Seq<Frame>) -> bool {
    forall|i: int| 0 <= i < fs.len() ==> (#[trigger] fs[i]).wf()
}

fn push_frame(frames: &mut Vec<Frame>, f: Frame)
    requires
        frames_wf(old(frames)@),
        f.wf(),
    ensures
        frames_wf(final(frames)@),
        final(frames)@ == old(frames)@.push(f),
{
    frames.push(f);
    proof {
        assert forall|i: int| 0 <= i < frames@.len() implies (#[trigger] frames@[i]).wf() by {
            if i < old(frames)@.len() {
                assert(frames@[i] == old(frames)@[i]);
            }
        }
    }
}

fn pop_frame(frames: &mut Vec<Frame>) -> (r: Option<Frame>)
    requires
        frames_wf(old(frames)@),
    ensures
        frames_wf(final(frames)@),
        match r {
            Some(f) => f.wf() && old(frames)@.len() > 0 && final(frames)@ == old(frames)@.drop_last()
                && f == old(frames)@.last(),
            None => old(frames)@.len() == 0 && final(frames)@.len() == 0,
        },
{
    let r = frames.pop();
    proof {
        if r is Some {
            assert(old(frames)@[old(frames)@.len() - 1].wf());
            assert forall|i: int| 0 <= i < frames@.len() implies (#[trigger] frames@[i]).wf() by {
                assert(frames@[i] == old(frames)@[i]);
            }
        }
    }
    r
}

/// What `unwind` does: frames `fs0` of thread `t0` become `fs1` of `t1`.
pub open spec fn unwind_post(t0: JavaThread, fs0: Seq<Frame>, t1: JavaThread, fs1: Seq<Frame>, r: Result<(), VmError>) -> bool {
    &&& (t1.wf())
    &&& (frames_wf(fs1))
    &&& (crate::init::states_advance(t0.classes.classes@, t1.classes.classes@))
    &&& (r is Ok && t0.ex is Some && t1.ex is Some ==> fs1.len() == 0
        && t1.ex == t0.ex
        && forall|j: int| 0 <= j < fs0.len() ==> !handles(t0, #[trigger] fs0[j]))
    &&& (r is Ok && t0.ex is Some && t1.ex is None ==> fs1.len() >= 1
        && fs1.len() <= fs0.len()
        && fs1.subrange(0, fs1.len() - 1) == fs0.subrange(0, fs1.len() - 1)
        && handles(t0, fs0[fs1.len() - 1])
        && same_activation(fs1[fs1.len() - 1], fs0[fs1.len() - 1]))
    &&& (t0.ex is None ==> r is Ok && t1 == t0 && fs1 == fs0)
}

/// The caller's stack after a return value `v` is handed to it.
pub open spec fn push_post(c0: Frame, v: Option<Slot>, c1: Frame, r: Result<(), VmError>) -> bool {
    match v {
        None => r is Ok && c1 == c0,
        Some(Slot::Long(x)) => stack_step(c0, c1, r, room(c0, 2), c0.stack@.push(Slot::Long(x)).push(Slot::Top)),
        Some(Slot::Double(x)) => stack_step(c0, c1, r, room(c0, 2), c0.stack@.push(Slot::Double(x)).push(Slot::Top)),
        Some(x) => stack_step(c0, c1, r, room(c0, 1), c0.stack@.push(x)),
    }
}

/// How a turn of the loop reports itself: `None` to go on.
pub open spec fn turn_out(r: Result<Option<Exit>, VmError>) -> Option<Result<Exit, VmError>> {
    match r {
        Err(e) => Some(Err(e)),
        Ok(None) => None,
        Ok(Some(x)) => Some(Ok(x)),
    }
}

/// The end of a turn: with an exception pending, frames are unwound; the run
/// ends with the exception if no frame handles it.
pub open spec fn finish(t: JavaThread, fs: Seq<Frame>, t1: JavaThread, fs1: Seq<Frame>, out: Option<Result<Exit, VmError>>) -> bool {
    if t.ex is None {
        t1 == t && fs1 == fs && out is None
    } else {
        exists|ur: Result<(), VmError>| #[trigger] unwind_post(t, fs, t1, fs1, ur) && match ur {
            Err(e) => out == Some(Err::<Exit, VmError>(e)),
            Ok(()) => match t1.ex {
                Some(e) => out == Some(Ok::<Exit, VmError>(Exit::Threw(e))),
                None => out is None,
            },
        }
    }
}

/// The thread `t` with its classes replaced by `cs`.
pub open spec fn with_classes(t: JavaThread, t1: JavaThread, cs: Seq<Class>) -> bool {
    t1 == (JavaThread { classes: t1.classes, ..t }) && t1.classes.classes@ == cs
}

/// The classes after frame `f1` returned: a `<clinit>` frame leaves its
/// class initialized.
pub open spec fn returned_classes(ta: JavaThread, f1: Frame) -> Seq<Class> {
    match f1.init_class {
        Some(k) => if k < ta.classes.classes@.len() {
            ta.classes.classes@.update(k as int, Class { state: ClassState::FullyInitialized, ..ta.classes.classes@[k as int] })
        } else {
            ta.classes.classes@
        },
        None => ta.classes.classes@,
    }
}

/// What the loop does after the top frame `f1` (the rest of the frames being
/// `rest`) ran an instruction with outcome `r`, leaving thread `ta`.
pub open spec fn after_flow(ta: JavaThread, rest: Seq<Frame>, f1: Frame, r: Result<Flow, VmError>, t1: JavaThread,
    fs1: Seq<Frame>, out: Option<Result<Exit, VmError>>) -> bool {
    match r {
        Err(e) => out == Some(Err::<Exit, VmError>(e)),
        Ok(Flow::Next) => finish(ta, rest.push(f1), t1, fs1, out),
        Ok(Flow::Return) => exists|tb: JavaThread| #[trigger] with_classes(ta, tb, returned_classes(ta, f1)) && if rest.len() == 0 {
            out == Some(Ok::<Exit, VmError>(Exit::Returned(f1.return_v))) && t1 == tb
        } else {
            exists|c1: Frame, pr: Result<(), VmError>| #[trigger] push_post(rest.last(), f1.return_v, c1, pr) && match pr {
                Ok(()) => finish(tb, rest.drop_last().push(c1), t1, fs1, out),
                Err(e) => out == Some(Err::<Exit, VmError>(e)),
            }
        },
        Ok(Flow::Init(c)) => if f1.inst_pc > f1.code@.len() {
            out == Some(Err::<Exit, VmError>(VmError::BadCode))
        } else {
            let fsa = rest.push(Frame { pc: f1.inst_pc, ..f1 });
            exists|tb: JavaThread, st: InitStart| #[trigger] begin_init_post(ta.classes.classes@, c, tb.classes.classes@, st)
                && tb == (JavaThread { classes: tb.classes, ..ta }) && match st {
                InitStart::Run { class, method } => exists|id: usize, nr: Result<Frame, VmError>|
                    #[trigger] new_frame_post(tb.classes, class, method, id, nr) && match nr {
                        Ok(g) => finish(tb, fsa.push(Frame { init_class: Some(class), ..g }), t1, fs1, out),
                        Err(e) => out == Some(Err::<Exit, VmError>(e)),
                    },
                InitStart::Done { .. } => finish(tb, fsa, t1, fs1, out),
                _ => out == Some(Err::<Exit, VmError>(VmError::Unresolved)),
            }
        },
        Ok(Flow::Enter(g)) => if !g.wf() {
            out == Some(Err::<Exit, VmError>(VmError::BadCode))
        } else {
            finish(ta, rest.push(f1).push(g), t1, fs1, out)
        },
        Ok(Flow::Float(op)) => out == Some(Ok::<Exit, VmError>(Exit::Float(op))) && t1 == ta && fs1 == rest.push(f1),
    }
}

/// One turn of the interpreter loop from thread `t0` and frames `fs0`: the
/// top frame executes one instruction (its effect is `step_post`) and the
/// loop acts on the outcome. `out` is `None` when the run goes on, else how
/// it ends. Both states keep the frames within their limits.
pub open spec fn loop_step(t0: JavaThread, fs0: Seq<Frame>, t1: JavaThread, fs1: Seq<Frame>,
    out: Option<Result<Exit, VmError>>) -> bool {
    &&& t1.wf()
    &&& frames_wf(fs1)
    &&& crate::init::states_advance(t0.classes.classes@, t1.classes.classes@)
    &&& if fs0.len() == 0 {
        out == Some(Err::<Exit, VmError>(VmError::BadCode))
    } else {
        exists|f1: Frame, ta: JavaThread, r: Result<Flow, VmError>| #[trigger] step_post(fs0.last(), t0, f1, ta, r)
            && after_flow(ta, fs0.drop_last(), f1, r, t1, fs1, out)
    }
}

/// A run of at most `fuel` turns from `t0` and `fs0` that ends in `t`, `fs`
/// with result `r`: some `n` turns go on, then either the budget is spent
/// (`OutOfFuel`) or one more turn ends the run with `r`.
pub open spec fn run_trace(t0: JavaThread, fs0: Seq<Frame>, fuel: nat, t: JavaThread, fs: Seq<Frame>,
    r: Result<Exit, VmError>) -> bool {
    exists|ts: Seq<JavaThread>, fss: Seq<Seq<Frame>>| #[trigger] trace_from(ts, fss, t0, fs0, fuel, t, fs, r)
}

/// `ts`, `fss` are the states between the turns of such a run.
pub open spec fn trace_from(ts: Seq<JavaThread>, fss: Seq<Seq<Frame>>, t0: JavaThread, fs0: Seq<Frame>, fuel: nat,
    t: JavaThread, fs: Seq<Frame>, r: Result<Exit, VmError>) -> bool {
    let n = ts.len() - 1;
    &&& ts.len() >= 1 && fss.len() == ts.len() && n <= fuel
    &&& ts[0] == t0 && fss[0] == fs0
    &&& forall|i: int| 0 <= i < n ==> #[trigger] loop_step(ts[i], fss[i], ts[i + 1], fss[i + 1], None)
    &&& ((n == fuel && r == Ok::<Exit, VmError>(Exit::OutOfFuel) && t == ts[n] && fs == fss[n])
        || (n < fuel && loop_step(ts[n], fss[n], t, fs, Some(r))))
}

/// Hands a returned value to the caller's operand stack.
fn push_return(caller: &mut Frame, v: Option<Slot>) -> (r: Result<(), VmError>)
    requires
        old(caller).wf(),
    ensures
        final(caller).wf(),
        final(caller).class == old(caller).class,
        final(caller).init_class == old(caller).init_class,
        same_activation(*final(caller), *old(caller)),
        push_post(*old(caller), v, *final(caller), r),
{
    match v {
        None => Ok(()),
        Some(Slot::Long(x)) => caller.push_wide(Slot::Long(x)),
        Some(Slot::Double(x)) => caller.push_wide(Slot::Double(x)),
        Some(x) => caller.push(x),
    }
}

/// Moves the classes in `ks` to the `Erroneous` state: their `<clinit>`
/// frames ended with an exception.
fn mark_failed(thread: &mut JavaThread, ks: &Vec<usize>)
    requires
        old(thread).wf(),
    ensures
        final(thread).wf(),
        final(thread).ex == old(thread).ex,
        final(thread).heap == old(thread).heap,
        crate::init::states_advance(old(thread).classes.classes@, final(thread).classes.classes@),
{
    let mut i: usize = 0;
    while i < ks.len()
        invariant
            thread.wf(),
            thread.ex == old(thread).ex,
            thread.heap == old(thread).heap,
            crate::init::states_advance(old(thread).classes.classes@, thread.classes.classes@),
        decreases ks@.len() - i,
    {
        let k = ks[i];
        if k < thread.classes.classes.len() {
            let ghost before = thread.classes.classes@;
            thread.classes.set_state(k, ClassState::Erroneous);
            proof {
                crate::init::lemma_states_advance_trans(old(thread).classes.classes@, before, thread.classes.classes@);
            }
        }
        i += 1;
    }
}

/// Pops frames until one handles the pending exception; the classes whose
/// `<clinit>` frames were popped become `Erroneous`. When no frame has a
/// handler, all frames are gone and the exception stays pending.
fn unwind(thread: &mut JavaThread, frames: &mut Vec<Frame>) -> (r: Result<(), VmError>)
    requires
        old(thread).wf(),
        frames_wf(old(frames)@),
    ensures
        unwind_post(*old(thread), old(frames)@, *final(thread), final(frames)@, r),
{
    if thread.ex.is_none() {
        return Ok(());
    }
    let mut failed: Vec<usize> = Vec::new();
    while frames.len() > 0
        invariant
            *thread == *old(thread),
            thread.wf(),
            thread.ex is Some,
            frames_wf(frames@),
            frames@.len() <= old(frames)@.len(),
            frames@ == old(frames)@.subrange(0, frames@.len() as int),
            forall|j: int| frames@.len() <= j < old(frames)@.len() ==> !handles(*old(thread), #[trigger] old(frames)@[j]),
        decreases frames@.len(),
    {
        let ghost n = frames@.len();
        let mut f = pop_frame(frames).unwrap();
        assert(f == old(frames)@[n - 1]);
        let at = f.inst_pc;
        if f.try_handle_exception(thread, at) {
            if f.pc > f.code.len() || f.stack.len() > f.max_stack {
                return Err(VmError::BadCode);
            }
            push_frame(frames, f);
            mark_failed(thread, &failed);
            assert(frames@.subrange(0, frames@.len() - 1) =~= old(frames)@.subrange(0, frames@.len() - 1));
            return Ok(());
        }
        if let Some(k) = f.init_class {
            failed.push(k);
        }
    }
    mark_failed(thread, &failed);
    Ok(())
}

/// The end of a turn: unwinds frames when an exception is pending.
fn finish_turn(thread: &mut JavaThread, frames: &mut Vec<Frame>) -> (r: Result<Option<Exit>, VmError>)
    requires
        old(thread).wf(),
        frames_wf(old(frames)@),
    ensures
        final(thread).wf(),
        frames_wf(final(frames)@),
        crate::init::states_advance(old(thread).classes.classes@, final(thread).classes.classes@),
        finish(*old(thread), old(frames)@, *final(thread), final(frames)@, turn_out(r)),
{
    if thread.ex.is_none() {
        return Ok(None);
    }
    let ghost t0 = *thread;
    let ghost fs0 = frames@;
    let u = unwind(thread, frames);
    proof {
        assert(unwind_post(t0, fs0, *thread, frames@, u));
    }
    match u {
        Err(e) => Err(e),
        Ok(()) => match thread.ex {
            Some(e) => Ok(Some(Exit::Threw(e))),
            None => Ok(None),
        },
    }
}

/// One turn of the loop: the top frame executes one instruction, and calls,
/// returns, class initialization and exceptions are acted on.
fn turn(thread: &mut JavaThread, frames: &mut Vec<Frame>, next_id: usize) -> (r: Result<Option<Exit>, VmError>)
    requires
        old(thread).wf(),
        frames_wf(old(frames)@),
    ensures
        final(thread).wf(),
        frames_wf(final(frames)@),
        crate::init::states_advance(old(thread).classes.classes@, final(thread).classes.classes@),
        loop_step(*old(thread), old(frames)@, *final(thread), final(frames)@, turn_out(r)),
{
    let ghost t0 = *thread;
    let ghost fs0 = frames@;
    let mut f = match pop_frame(frames) {
        Some(f) => f,
        None => {
            return Err(VmError::BadCode);
        },
    };
    let ghost rest = frames@;
    let flow = f.step(thread, next_id);
    let ghost ta = *thread;
    let ghost f1 = f;
    let ghost rg = flow;
    proof {
        assert(step_post(fs0.last(), t0, f1, ta, rg));
        assert(rest == fs0.drop_last());
    }
    match flow {
        Err(e) => {
            proof {
                assert(after_flow(ta, rest, f1, rg, *thread, frames@, turn_out(Err(e))));
            }
            Err(e)
        },
        Ok(Flow::Next) => {
            push_frame(frames, f);
            let r = finish_turn(thread, frames);
            proof {
                assert(after_flow(ta, rest, f1, rg, *thread, frames@, turn_out(r)));
            }
            r
        },
        Ok(Flow::Return) => {
            let v = f.return_v;
            if let Some(k) = f.init_class {
                if k < thread.classes.classes.len() {
                    let ghost before = thread.classes.classes@;
                    thread.classes.set_state(k, ClassState::FullyInitialized);
                    proof {
                        crate::init::lemma_states_advance_trans(t0.classes.classes@, before, thread.classes.classes@);
                    }
                }
            }
            let ghost tb = *thread;
            proof {
                assert(with_classes(ta, tb, returned_classes(ta, f1)));
            }
            match pop_frame(frames) {
                None => {
                    let r = Ok(Some(Exit::Returned(v)));
                    proof {
                        assert(after_flow(ta, rest, f1, rg, *thread, frames@, turn_out(r)));
                    }
                    r
                },
                Some(mut caller) => {
                    let ghost c0 = caller;
                    let pr = push_return(&mut caller, v);
                    let ghost c1 = caller;
                    match pr {
                        Ok(()) => {
                            push_frame(frames, caller);
                            let ghost fsx = frames@;
                            let ghost tx = *thread;
                            let r = finish_turn(thread, frames);
                            proof {
                                assert(c0 == rest.last());
                                assert(push_post(rest.last(), f1.return_v, c1, pr));
                                assert(fsx == rest.drop_last().push(c1));
                                assert(tx == tb);
                                assert(finish(tb, rest.drop_last().push(c1), *thread, frames@, turn_out(r)));
                                assert(after_flow(ta, rest, f1, rg, *thread, frames@, turn_out(r)));
                            }
                            r
                        },
                        Err(e) => {
                            proof {
                                assert(push_post(rest.last(), f1.return_v, c1, pr));
                                assert(after_flow(ta, rest, f1, rg, *thread, frames@, turn_out(Err(e))));
                            }
                            Err(e)
                        },
                    }
                },
            }
        },
        Ok(Flow::Init(c)) => {
            if f.inst_pc > f.code.len() {
                proof {
                    assert(after_flow(ta, rest, f1, rg, *thread, frames@, turn_out(Err(VmError::BadCode))));
                }
                return Err(VmError::BadCode);
            }
            f.pc = f.inst_pc;
            push_frame(frames, f);
            let ghost fsa = frames@;
            let ghost before = thread.classes.classes@;
            let started = thread.classes.begin_init(c);
            proof {
                crate::init::lemma_states_advance_trans(t0.classes.classes@, before, thread.classes.classes@);
            }
            let ghost tb = *thread;
            let ghost st = started;
            proof {
                assert(fsa == rest.push(Frame { pc: f1.inst_pc, ..f1 }));
                assert(begin_init_post(ta.classes.classes@, c, tb.classes.classes@, st));
            }
            match started {
                InitStart::Run { class, method } => {
                    let nr = Frame::new(&thread.classes, class, method, next_id);
                    let ghost nrg = nr;
                    proof {
                        assert(new_frame_post(tb.classes, class, method, next_id, nrg));
                    }
                    match nr {
                        Ok(mut g) => {
                            g.init_class = Some(class);
                            push_frame(frames, g);
                            let r = finish_turn(thread, frames);
                            proof {
                                assert(after_flow(ta, rest, f1, rg, *thread, frames@, turn_out(r)));
                            }
                            r
                        },
                        Err(e) => {
                            proof {
                                assert(after_flow(ta, rest, f1, rg, *thread, frames@, turn_out(Err(e))));
                            }
                            Err(e)
                        },
                    }
                },
                InitStart::Done { .. } => {
                    let r = finish_turn(thread, frames);
                    proof {
                        assert(after_flow(ta, rest, f1, rg, *thread, frames@, turn_out(r)));
                    }
                    r
                },
                _ => {
                    proof {
                        assert(after_flow(ta, rest, f1, rg, *thread, frames@, turn_out(Err(VmError::Unresolved))));
                    }
                    Err(VmError::Unresolved)
                },
            }
        },
        Ok(Flow::Enter(g)) => {
            if !g.is_wf() {
                proof {
                    assert(after_flow(ta, rest, f1, rg, *thread, frames@, turn_out(Err(VmError::BadCode))));
                }
                return Err(VmError::BadCode);
            }
            push_frame(frames, f);
            push_frame(frames, g);
            let r = finish_turn(thread, frames);
            proof {
                assert(after_flow(ta, rest, f1, rg, *thread, frames@, turn_out(r)));
            }
            r
        },
        Ok(Flow::Float(op)) => {
            push_frame(frames, f);
            let r = Ok(Some(Exit::Float(op)));
            proof {
                assert(after_flow(ta, rest, f1, rg, *thread, frames@, turn_out(r)));
            }
            r
        },
    }
}

/// Runs the frame stack: the top frame executes until the bottom frame
/// returns or throws, a floating-point instruction needs the host, or `fuel`
/// turns have run. Calls push frames; returns pop them and hand the value to
/// the caller; an instruction that needs a class initialized runs that
/// class's `<clinit>` first and then runs again. The result is that of a
/// run of `loop_step` turns (`run_trace`), so every frame of every
/// intermediate state is within its limits.
pub fn run(thread: &mut JavaThread, frames: &mut Vec<Frame>, fuel: u64) -> (r: Result<Exit, VmError>)
    requires
        old(thread).wf(),
        frames_wf(old(frames)@),
    ensures
        final(thread).wf(),
        frames_wf(final(frames)@),
        crate::init::states_advance(old(thread).classes.classes@, final(thread).classes.classes@),
        run_trace(*old(thread), old(frames)@, fuel as nat, *final(thread), final(frames)@, r),
{
    let mut left = fuel;
    let mut next_id: usize = frames.len();
    let ghost mut ts: Seq<JavaThread> = seq![*thread];
    let ghost mut fss: Seq<Seq<Frame>> = seq![frames@];
    while left > 0
        invariant
            thread.wf(),
            frames_wf(frames@),
            crate::init::states_advance(old(thread).classes.classes@, thread.classes.classes@),
            left <= fuel,
            ts.len() == fuel - left + 1,
            fss.len() == ts.len(),
            ts[0] == *old(thread),
            fss[0] == old(frames)@,
            ts.last() == *thread,
            fss.last() == frames@,
            forall|i: int| 0 <= i < ts.len() - 1 ==> #[trigger] loop_step(ts[i], fss[i], ts[i + 1], fss[i + 1], None),
        decreases left,
    {
        left = left - 1;
        let ghost before = thread.classes.classes@;
        let r = turn(thread, frames, next_id);
        proof {
            crate::init::lemma_states_advance_trans(old(thread).classes.classes@, before, thread.classes.classes@);
        }
        if next_id < usize::MAX {
            next_id = next_id + 1;
        }
        match r {
            Ok(None) => {
                proof {
                    let ts0 = ts;
                    let fss0 = fss;
                    ts = ts.push(*thread);
                    fss = fss.push(frames@);
                    assert forall|i: int| 0 <= i < ts.len() - 1 implies #[trigger] loop_step(ts[i], fss[i], ts[i + 1], fss[i + 1], None) by {
                        if i < ts0.len() - 1 {
                            assert(ts[i] == ts0[i] && ts[i + 1] == ts0[i + 1] && fss[i] == fss0[i] && fss[i + 1] == fss0[i + 1]);
                        }
                    }
                }
            },
            Ok(Some(x)) => {
                let res = Ok(x);
                proof {
                    assert(trace_from(ts, fss, *old(thread), old(frames)@, fuel as nat, *thread, frames@, res));
                }
                return res;
            },
            Err(e) => {
                proof {
                    assert(trace_from(ts, fss, *old(thread), old(frames)@, fuel as nat, *thread, frames@, Err(e)));
                }
                return Err(e);
            },
        }
    }
    proof {
        assert(trace_from(ts, fss, *old(thread), old(frames)@, fuel as nat, *thread, frames@, Ok(Exit::OutOfFuel)));
    }
    Ok(Exit::OutOfFuel)
}

/// A class loaded at the start of a trace stays loaded.
proof fn lemma_trace_keeps_class(ts: Seq<JavaThread>, fss: Seq<Seq<Frame>>, k: int, x: int)
    requires
        fss.len() == ts.len(),
        forall|i: int| 0 <= i < ts.len() - 1 ==> #[trigger] loop_step(ts[i], fss[i], ts[i + 1], fss[i + 1], None),
        0 <= k < ts[0].classes.classes@.len(),
        0 <= x < ts.len(),
    ensures
        k < ts[x].classes.classes@.len(),
    decreases x,
{
    if x > 0 {
        lemma_trace_keeps_class(ts, fss, k, x - 1);
        let y = x - 1;
        assert(loop_step(ts[y], fss[y], ts[y + 1], fss[y + 1], None));
    }
}

/// `<clinit>` runs at most once per class: along the turns of a run, a class
/// moves from a state before `BeingInitialized` into `BeingInitialized` at
/// most once.
pub proof fn lemma_run_starts_init_once(ts: Seq<JavaThread>, fss: Seq<Seq<Frame>>, k: int, i: int, j: int)
    requires
        fss.len() == ts.len(),
        forall|x: int| 0 <= x < ts.len() - 1 ==> #[trigger] loop_step(ts[x], fss[x], ts[x + 1], fss[x + 1], None),
        0 <= k < ts[0].classes.classes@.len(),
        0 <= i < j,
        j + 1 < ts.len(),
        crate::init::starts_init(ts[i].classes.classes@[k].state, ts[i + 1].classes.classes@[k].state),
    ensures
        !crate::init::starts_init(ts[j].classes.classes@[k].state, ts[j + 1].classes.classes@[k].state),
{
    let h = Seq::new(ts.len(), |x: int| ts[x].classes.classes@[k].state);
    assert forall|t: int| 0 <= t && t + 1 < h.len() implies
        crate::class::state_rank(#[trigger] h[t + 1]) >= crate::class::state_rank(h[t]) by {
        lemma_trace_keeps_class(ts, fss, k, t);
        assert(loop_step(ts[t], fss[t], ts[t + 1], fss[t + 1], None));
        assert(crate::init::states_advance(ts[t].classes.classes@, ts[t + 1].classes.classes@));
        assert(crate::class::state_rank(ts[t + 1].classes.classes@[k].state) >= crate::class::state_rank(ts[t].classes.classes@[k].state));
    }
    crate::init::lemma_clinit_at_most_once(h, i, j);
}

impl Frame {
    /// Runs this frame as the bottom of a new frame stack, for at most `fuel`
    /// instructions.
    pub fn interp(self, thread: &mut JavaThread, fuel: u64) -> (r: Result<Exit, VmError>)
        requires
            self.wf(),
            old(thread).wf(),
        ensures
            final(thread).wf(),
            exists|fs: Seq<Frame>| #[trigger] run_trace(*old(thread), seq![self], fuel as nat, *final(thread), fs, r)
                && frames_wf(fs),
    {
        let mut frames: Vec<Frame> = Vec::new();
        push_frame(&mut frames, self);
        assert(frames@ =~= seq![self]);
        let r = run(thread, &mut frames, fuel);
        assert(run_trace(*old(thread), seq![self], fuel as nat, *thread, frames@, r) && frames_wf(frames@));
        r
    }

}

} // verus!
