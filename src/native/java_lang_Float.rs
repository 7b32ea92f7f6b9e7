//! Natives of `java.lang.Float`: raw bit conversions, which keep every NaN
//! payload since floats are held as their bit patterns.
use vstd::prelude::*;
use vstd::string::StringSliceAdditionalSpecFns;
use crate::native::{new_fn, JNINativeMethod, NativeFn, NativeOutcome};
use crate::value::{Slot, VmError};

verus! {

pub fn get_native_methods() -> (r: Vec<JNINativeMethod>)
    ensures
        r@.len() == 2,
        r@[0].name@ == "floatToRawIntBits".spec_bytes() && r@[0].desc@ == "(F)I".spec_bytes()
            && r@[0].f == NativeFn::FloatToRawIntBits,
        r@[1].name@ == "intBitsToFloat".spec_bytes() && r@[1].desc@ == "(I)F".spec_bytes()
            && r@[1].f == NativeFn::IntBitsToFloat,
{
    vec![
        new_fn("floatToRawIntBits", "(F)I", NativeFn::FloatToRawIntBits),
        new_fn("intBitsToFloat", "(I)F", NativeFn::IntBitsToFloat),
    ]
}

/// The bits of a float, as an int.
pub open spec fn raw_int_bits(b: u32) -> i32 {
    b as i32
}

/// The float with the bits of an int.
pub open spec fn float_of_bits(v: i32) -> u32 {
    v as u32
}

pub fn jvm_floatToRawIntBits(args: &Vec<Slot>) -> (r: Result<NativeOutcome, VmError>)
    ensures
        match r {
            Ok(o) => args@.len() >= 1 && args@[0] is Float
                && o == NativeOutcome::Value(Slot::Int(raw_int_bits(args@[0]->Float_0))),
            Err(_) => !(args@.len() >= 1 && args@[0] is Float),
        },
{
    if args.len() >= 1 {
        if let Slot::Float(b) = args[0] {
            return Ok(NativeOutcome::Value(Slot::Int(b as i32)));
        }
    }
    Err(VmError::BadOperand)
}

pub fn jvm_intBitsToFloat(args: &Vec<Slot>) -> (r: Result<NativeOutcome, VmError>)
    ensures
        match r {
            Ok(o) => args@.len() >= 1 && args@[0] is Int
                && o == NativeOutcome::Value(Slot::Float(float_of_bits(args@[0]->Int_0))),
            Err(_) => !(args@.len() >= 1 && args@[0] is Int),
        },
{
    if args.len() >= 1 {
        if let Slot::Int(v) = args[0] {
            return Ok(NativeOutcome::Value(Slot::Float(v as u32)));
        }
    }
    Err(VmError::BadOperand)
}

/// `floatToRawIntBits` after `intBitsToFloat` is the identity on every bit
/// pattern, NaN payloads included, and the other way round.
pub proof fn lemma_float_bits_round_trip(v: i32, b: u32)
    ensures
        raw_int_bits(float_of_bits(v)) == v,
        float_of_bits(raw_int_bits(b)) == b,
{
    assert(((v as u32) as i32) == v) by (bit_vector);
    assert(((b as i32) as u32) == b) by (bit_vector);
}

} // verus!
