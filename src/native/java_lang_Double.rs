//! Natives of `java.lang.Double`: raw bit conversions, which keep every NaN
//! payload since doubles are held as their bit patterns.
use vstd::prelude::*;
use vstd::string::StringSliceAdditionalSpecFns;
use crate::native::{new_fn, JNINativeMethod, NativeFn, NativeOutcome};
use crate::value::{Slot, VmError};

verus! {

pub fn get_native_methods() -> (r: Vec<JNINativeMethod>)
    ensures
        r@.len() == 2,
        r@[0].name@ == "doubleToRawLongBits".spec_bytes() && r@[0].desc@ == "(D)J".spec_bytes()
            && r@[0].f == NativeFn::DoubleToRawLongBits,
        r@[1].name@ == "longBitsToDouble".spec_bytes() && r@[1].desc@ == "(J)D".spec_bytes()
            && r@[1].f == NativeFn::LongBitsToDouble,
{
    vec![
        new_fn("doubleToRawLongBits", "(D)J", NativeFn::DoubleToRawLongBits),
        new_fn("longBitsToDouble", "(J)D", NativeFn::LongBitsToDouble),
    ]
}

/// The bits of a double, as a long.
pub open spec fn raw_long_bits(b: u64) -> i64 {
    b as i64
}

/// The double with the bits of a long.
pub open spec fn double_of_bits(v: i64) -> u64 {
    v as u64
}

pub fn jvm_doubleToRawLongBits(args: &Vec<Slot>) -> (r: Result<NativeOutcome, VmError>)
    ensures
        match r {
            Ok(o) => args@.len() >= 1 && args@[0] is Double
                && o == NativeOutcome::Value(Slot::Long(raw_long_bits(args@[0]->Double_0))),
            Err(_) => !(args@.len() >= 1 && args@[0] is Double),
        },
{
    if args.len() >= 1 {
        if let Slot::Double(b) = args[0] {
            return Ok(NativeOutcome::Value(Slot::Long(b as i64)));
        }
    }
    Err(VmError::BadOperand)
}

pub fn jvm_longBitsToDouble(args: &Vec<Slot>) -> (r: Result<NativeOutcome, VmError>)
    ensures
        match r {
            Ok(o) => args@.len() >= 1 && args@[0] is Long
                && o == NativeOutcome::Value(Slot::Double(double_of_bits(args@[0]->Long_0))),
            Err(_) => !(args@.len() >= 1 && args@[0] is Long),
        },
{
    if args.len() >= 1 {
        if let Slot::Long(v) = args[0] {
            return Ok(NativeOutcome::Value(Slot::Double(v as u64)));
        }
    }
    Err(VmError::BadOperand)
}

/// `doubleToRawLongBits` after `longBitsToDouble` is the identity on every
/// bit pattern, and the other way round.
pub proof fn lemma_double_bits_round_trip(v: i64, b: u64)
    ensures
        raw_long_bits(double_of_bits(v)) == v,
        double_of_bits(raw_long_bits(b)) == b,
{
    assert(((v as u64) as i64) == v) by (bit_vector);
    assert(((b as i64) as u64) == b) by (bit_vector);
}

} // verus!
