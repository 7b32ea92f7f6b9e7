//! Runtime values held in operand-stack and local-variable slots, the
//! integer and comparison semantics of the JVM, and the host-level errors.
use vstd::prelude::*;
use vstd::arithmetic::power2::{lemma_pow2_adds, lemma_pow2_pos, lemma_pow2_strictly_increases, lemma2_to64, pow2};
use vstd::bits::{lemma_u64_shl_is_mul, lemma_u64_shr_is_div};

verus! {

/// One operand-stack or local-variable slot.
///
/// A `long` or `double` takes two slots: the value itself followed by `Top`.
/// `Float` and `Double` hold raw IEEE-754 bit patterns, so no NaN payload is
/// ever lost. `Ref(i)` is the heap object with index `i`.
#[derive(Clone, Copy, Debug, PartialEq, Eq, Structural)]
pub enum Slot {
    Top,
    Int(i32),
    Long(i64),
    Float(u32),
    Double(u64),
    Null,
    Ref(usize),
}

impl Slot {
    /// A reference slot: `null` or an object.
    pub open spec fn is_reference(self) -> bool {
        self is Null || self is Ref
    }
}

/// The value types that fields, array elements and mirrors are tagged with.
#[derive(Clone, Copy, Debug, PartialEq, Eq, Structural)]
pub enum ValueType {
    Byte,
    Boolean,
    Char,
    Short,
    Int,
    Long,
    Float,
    Double,
    Void,
    Object,
    Array,
}

/// The descriptor letter of a value type (`I` for `int`, `L` for objects).
pub open spec fn descriptor_letter(t: ValueType) -> u8 {
    match t {
        ValueType::Byte => 66u8,
        ValueType::Boolean => 90u8,
        ValueType::Char => 67u8,
        ValueType::Short => 83u8,
        ValueType::Int => 73u8,
        ValueType::Long => 74u8,
        ValueType::Float => 70u8,
        ValueType::Double => 68u8,
        ValueType::Void => 86u8,
        ValueType::Object => 76u8,
        ValueType::Array => 91u8,
    }
}

impl ValueType {
    /// The value type that a descriptor starts with, if the letter is one.
    pub fn from_letter(b: u8) -> (r: Option<ValueType>)
        ensures
            match r {
                Some(t) => descriptor_letter(t) == b,
                None => forall|t: ValueType| descriptor_letter(t) != b,
            },
    {
        if b == 66 {
            Some(ValueType::Byte)
        } else if b == 90 {
            Some(ValueType::Boolean)
        } else if b == 67 {
            Some(ValueType::Char)
        } else if b == 83 {
            Some(ValueType::Short)
        } else if b == 73 {
            Some(ValueType::Int)
        } else if b == 74 {
            Some(ValueType::Long)
        } else if b == 70 {
            Some(ValueType::Float)
        } else if b == 68 {
            Some(ValueType::Double)
        } else if b == 86 {
            Some(ValueType::Void)
        } else if b == 76 {
            Some(ValueType::Object)
        } else if b == 91 {
            Some(ValueType::Array)
        } else {
            None
        }
    }

    /// The descriptor letter of this type.
    pub fn letter(&self) -> (r: u8)
        ensures
            r == descriptor_letter(*self),
    {
        match self {
            ValueType::Byte => 66,
            ValueType::Boolean => 90,
            ValueType::Char => 67,
            ValueType::Short => 83,
            ValueType::Int => 73,
            ValueType::Long => 74,
            ValueType::Float => 70,
            ValueType::Double => 68,
            ValueType::Void => 86,
            ValueType::Object => 76,
            ValueType::Array => 91,
        }
    }

    /// The zero value that a fresh field or array element of this type holds.
    pub fn zero(&self) -> (r: Slot)
        ensures
            r == zero_of(*self),
    {
        match self {
            ValueType::Long => Slot::Long(0),
            ValueType::Float => Slot::Float(0),
            ValueType::Double => Slot::Double(0),
            ValueType::Object | ValueType::Array => Slot::Null,
            _ => Slot::Int(0),
        }
    }
}

/// The zero value of a type: `0`, `0L`, `+0.0` or `null`.
pub open spec fn zero_of(t: ValueType) -> Slot {
    match t {
        ValueType::Long => Slot::Long(0),
        ValueType::Float => Slot::Float(0),
        ValueType::Double => Slot::Double(0),
        ValueType::Object | ValueType::Array => Slot::Null,
        _ => Slot::Int(0),
    }
}

/// Host-level errors: malformed code or an operation that this VM refuses.
/// They abort the VM; they are never seen by Java code.
#[derive(Clone, Copy, Debug, PartialEq, Eq, Structural)]
pub enum VmError {
    /// The operand stack does not hold what the instruction pops.
    BadOperand,
    /// A push would exceed the method's `max_stack`.
    StackOverflow,
    /// A local index is outside `max_locals` or holds the wrong kind.
    BadLocal,
    /// The code ends inside an instruction or a branch leaves the code.
    BadCode,
    /// A constant-pool index or entry that does not fit the instruction.
    BadConstant,
    /// A class, field or method that cannot be resolved.
    Unresolved,
    /// A heap reference that does not designate the expected object.
    BadObject,
    /// A deprecated or unsupported instruction, by opcode.
    Unsupported(u8),
}

/// The value of `x` reduced to a signed 32-bit integer modulo 2^32.
pub open spec fn wrap_i32(x: int) -> int {
    let m = x % 0x1_0000_0000;
    if m >= 0x8000_0000 { m - 0x1_0000_0000 } else { m }
}

/// The value of `x` reduced to a signed 64-bit integer modulo 2^64.
pub open spec fn wrap_i64(x: int) -> int {
    let m = x % 0x1_0000_0000_0000_0000;
    if m >= 0x8000_0000_0000_0000 { m - 0x1_0000_0000_0000_0000 } else { m }
}

/// Integer division rounding toward zero.
pub open spec fn trunc_div(a: int, b: int) -> int {
    if a == 0 {
        0
    } else if a > 0 && b > 0 {
        a / b
    } else if a < 0 && b < 0 {
        (-a) / (-b)
    } else if a < 0 {
        -((-a) / b)
    } else {
        -(a / (-b))
    }
}

/// The remainder that goes with `trunc_div`: `a - (a / b) * b`.
pub open spec fn trunc_rem(a: int, b: int) -> int {
    a - trunc_div(a, b) * b
}

/// `lcmp`, `fcmp*` and `dcmp*`: 1 when `a > b`, -1 when `a < b`, else 0.
pub open spec fn compare(a: int, b: int) -> i32 {
    if a > b {
        1i32
    } else if a < b {
        -1i32
    } else {
        0i32
    }
}

/// A 32-bit float pattern is NaN: exponent all ones, mantissa not zero.
pub open spec fn f32_is_nan(b: u32) -> bool {
    b % 0x8000_0000 > 0x7f80_0000
}

/// A 64-bit float pattern is NaN.
pub open spec fn f64_is_nan(b: u64) -> bool {
    b % 0x8000_0000_0000_0000 > 0x7ff0_0000_0000_0000
}

/// Position of a non-NaN 32-bit float in the numeric order. IEEE-754 values
/// are ordered by sign and magnitude, and `+0.0` equals `-0.0`.
pub open spec fn f32_rank(b: u32) -> int {
    if b >= 0x8000_0000 { -(b - 0x8000_0000) } else { b as int }
}

/// Position of a non-NaN 64-bit float in the numeric order.
pub open spec fn f64_rank(b: u64) -> int {
    if b >= 0x8000_0000_0000_0000 { -(b - 0x8000_0000_0000_0000) } else { b as int }
}

/// `fcmpl` (`nan_result == -1`) and `fcmpg` (`nan_result == 1`).
pub open spec fn fcmp(a: u32, b: u32, nan_result: i32) -> i32 {
    if f32_is_nan(a) || f32_is_nan(b) {
        nan_result
    } else {
        compare(f32_rank(a), f32_rank(b))
    }
}

/// `dcmpl` (`nan_result == -1`) and `dcmpg` (`nan_result == 1`).
pub open spec fn dcmp(a: u64, b: u64, nan_result: i32) -> i32 {
    if f64_is_nan(a) || f64_is_nan(b) {
        nan_result
    } else {
        compare(f64_rank(a), f64_rank(b))
    }
}

/// Decimal digits of a natural number, most significant first.
pub open spec fn decimal(n: nat) -> Seq<u8>
    decreases n,
{
    if n < 10 {
        seq![(48 + n) as u8]
    } else {
        decimal(n / 10).push((48 + n % 10) as u8)
    }
}

/// Decimal text of an integer, with a leading `-` when negative.
pub open spec fn signed_decimal(n: int) -> Seq<u8> {
    if n < 0 {
        seq![45u8] + decimal((-n) as nat)
    } else {
        decimal(n as nat)
    }
}

pub fn add_i32(x: i32, y: i32) -> (r: i32)
    ensures
        r as int == wrap_i32(x + y),
{
    x.wrapping_add(y)
}

pub fn add_i64(x: i64, y: i64) -> (r: i64)
    ensures
        r as int == wrap_i64(x + y),
{
    x.wrapping_add(y)
}

pub fn sub_i32(x: i32, y: i32) -> (r: i32)
    ensures
        r as int == wrap_i32(x - y),
{
    x.wrapping_sub(y)
}

pub fn sub_i64(x: i64, y: i64) -> (r: i64)
    ensures
        r as int == wrap_i64(x - y),
{
    x.wrapping_sub(y)
}

pub fn mul_i32(x: i32, y: i32) -> (r: i32)
    ensures
        r as int == wrap_i32(x * y),
{
    x.wrapping_mul(y)
}

pub fn mul_i64(x: i64, y: i64) -> (r: i64)
    ensures
        r as int == wrap_i64(x * y),
{
    x.wrapping_mul(y)
}

/// Java `int` division; the one overflowing case, `MIN / -1`, wraps to `MIN`.
pub fn div_i32(x: i32, y: i32) -> (r: i32)
    requires
        y != 0,
    ensures
        r as int == wrap_i32(trunc_div(x as int, y as int)),
{
    match x.checked_div(y) {
        Some(q) => q,
        None => i32::MIN,
    }
}

/// Java `long` division; `MIN / -1` wraps to `MIN`.
pub fn div_i64(x: i64, y: i64) -> (r: i64)
    requires
        y != 0,
    ensures
        r as int == wrap_i64(trunc_div(x as int, y as int)),
{
    match x.checked_div(y) {
        Some(q) => q,
        None => i64::MIN,
    }
}

/// The truncated remainder has the sign of the dividend and the magnitude
/// of the Euclidean one.
proof fn lemma_trunc_rem(a: int, b: int)
    requires
        b != 0,
    ensures
        b == -1 ==> trunc_rem(a, b) == 0,
        a == 0 ==> trunc_rem(a, b) == 0,
        a > 0 && b > 0 ==> trunc_rem(a, b) == a % b,
        a < 0 && b < 0 ==> trunc_rem(a, b) == -((-a) % (-b)),
        a < 0 && b > 0 ==> trunc_rem(a, b) == -((-a) % b),
        a > 0 && b < 0 ==> trunc_rem(a, b) == a % (-b),
{
    let x: int = if a < 0 { -a } else { a };
    let d: int = if b < 0 { -b } else { b };
    if a != 0 {
        vstd::arithmetic::div_mod::lemma_fundamental_div_mod(x, d);
        let q = x / d;
        assert(q * d == d * q) by (nonlinear_arith);
        assert(q * b == -(q * d) || q * b == q * d) by (nonlinear_arith)
            requires d == b || d == -b;
        if a > 0 && b > 0 {
            assert(trunc_rem(a, b) == a - q * b);
        } else if a < 0 && b < 0 {
            assert(trunc_rem(a, b) == a - q * b);
            assert(q * b == -(q * d)) by (nonlinear_arith) requires d == -b;
        } else if a < 0 {
            assert(trunc_rem(a, b) == a - (-q) * b);
            assert((-q) * b == -(q * d)) by (nonlinear_arith) requires d == b;
        } else {
            assert(trunc_rem(a, b) == a - (-q) * b);
            assert((-q) * b == q * d) by (nonlinear_arith) requires d == -b;
        }
        if b == -1 {
            vstd::arithmetic::div_mod::lemma_mod_self_0(1);
            assert(x % 1 == 0);
        }
    }
}

/// Java `int` remainder, `x - (x / y) * y`.
pub fn rem_i32(x: i32, y: i32) -> (r: i32)
    requires
        y != 0,
    ensures
        r as int == trunc_rem(x as int, y as int),
{
    proof { lemma_trunc_rem(x as int, y as int); }
    match x.checked_rem(y) {
        Some(r) => r,
        None => 0,
    }
}

/// Java `long` remainder, `x - (x / y) * y`.
pub fn rem_i64(x: i64, y: i64) -> (r: i64)
    requires
        y != 0,
    ensures
        r as int == trunc_rem(x as int, y as int),
{
    proof { lemma_trunc_rem(x as int, y as int); }
    match x.checked_rem(y) {
        Some(r) => r,
        None => 0,
    }
}

pub fn neg_i32(x: i32) -> (r: i32)
    ensures
        r as int == wrap_i32(-x),
{
    0i32.wrapping_sub(x)
}

pub fn neg_i64(x: i64) -> (r: i64)
    ensures
        r as int == wrap_i64(-x),
{
    0i64.wrapping_sub(x)
}

pub fn cmp_i64(a: i64, b: i64) -> (r: i32)
    ensures
        r == compare(a as int, b as int),
{
    if a > b {
        1
    } else if a < b {
        -1
    } else {
        0
    }
}

pub fn f32_nan(b: u32) -> (r: bool)
    ensures
        r == f32_is_nan(b),
{
    b % 0x8000_0000 > 0x7f80_0000
}

pub fn f64_nan(b: u64) -> (r: bool)
    ensures
        r == f64_is_nan(b),
{
    b % 0x8000_0000_0000_0000 > 0x7ff0_0000_0000_0000
}

/// Compares two float bit patterns as `fcmpl` / `fcmpg` do.
pub fn cmp_f32(a: u32, b: u32, nan_result: i32) -> (r: i32)
    ensures
        r == fcmp(a, b, nan_result),
{
    if f32_nan(a) || f32_nan(b) {
        return nan_result;
    }
    let ra: i64 = if a >= 0x8000_0000 { -((a - 0x8000_0000) as i64) } else { a as i64 };
    let rb: i64 = if b >= 0x8000_0000 { -((b - 0x8000_0000) as i64) } else { b as i64 };
    cmp_i64(ra, rb)
}

/// Compares two double bit patterns as `dcmpl` / `dcmpg` do.
pub fn cmp_f64(a: u64, b: u64, nan_result: i32) -> (r: i32)
    ensures
        r == dcmp(a, b, nan_result),
{
    if f64_nan(a) || f64_nan(b) {
        return nan_result;
    }
    let ra: i64 = if a >= 0x8000_0000_0000_0000 {
        -((a - 0x8000_0000_0000_0000) as i64)
    } else {
        a as i64
    };
    let rb: i64 = if b >= 0x8000_0000_0000_0000 {
        -((b - 0x8000_0000_0000_0000) as i64)
    } else {
        b as i64
    };
    cmp_i64(ra, rb)
}

/// Appends the decimal digits of `n`.
pub fn push_decimal(out: &mut Vec<u8>, n: u64)
    ensures
        final(out)@ == old(out)@ + decimal(n as nat),
    decreases n,
{
    if n >= 10 {
        push_decimal(out, n / 10);
    }
    out.push((48 + n % 10) as u8);
    proof {
        if n >= 10 {
            assert(old(out)@ + decimal(n as nat) =~= old(out)@ + decimal((n / 10) as nat) + seq![(48 + n % 10) as u8]);
        }
    }
}

/// Appends the decimal text of `n`, with `-` when it is negative.
pub fn push_signed_decimal(out: &mut Vec<u8>, n: i64)
    ensures
        final(out)@ == old(out)@ + signed_decimal(n as int),
{
    if n < 0 {
        out.push(45u8);
        let m: u64 = if n == i64::MIN { 0x8000_0000_0000_0000u64 } else { (-n) as u64 };
        push_decimal(out, m);
        assert(old(out)@ + signed_decimal(n as int) =~= old(out)@.push(45u8) + decimal(m as nat));
    } else {
        push_decimal(out, n as u64);
    }
}

/// The integer part, rounded toward zero, of the finite float with sign
/// `neg`, biased exponent `e` and significand `m` (hidden bit included),
/// whose value is `m * 2^(e - z)`; exponents below `bias` are below one.
pub open spec fn float_trunc(neg: bool, e: int, m: int, bias: int, z: int) -> int {
    let mag: int = if e < bias {
        0
    } else if e < z {
        m / (pow2((z - e) as nat) as int)
    } else {
        m * (pow2((e - z) as nat) as int)
    };
    if neg { -mag } else { mag }
}

/// `x` limited to `lo..=hi`.
pub open spec fn saturate(x: int, lo: int, hi: int) -> int {
    if x < lo { lo } else if x > hi { hi } else { x }
}

/// `f2i` (`w == 31`) and `f2l` (`w == 63`): NaN gives 0, values beyond the
/// range give its bound, others are truncated toward zero.
pub open spec fn f32_to_integer(b: u32, w: nat) -> int {
    if f32_is_nan(b) {
        0
    } else {
        saturate(float_trunc(b >= 0x8000_0000, ((b % 0x8000_0000) / 0x80_0000) as int, (b % 0x80_0000 + 0x80_0000) as int, 127, 150),
            -(pow2(w) as int), pow2(w) as int - 1)
    }
}

/// `d2i` (`w == 31`) and `d2l` (`w == 63`).
pub open spec fn f64_to_integer(b: u64, w: nat) -> int {
    if f64_is_nan(b) {
        0
    } else {
        saturate(float_trunc(b >= 0x8000_0000_0000_0000, ((b % 0x8000_0000_0000_0000) / 0x10_0000_0000_0000) as int,
            (b % 0x10_0000_0000_0000 + 0x10_0000_0000_0000) as int, 1023, 1075), -(pow2(w) as int), pow2(w) as int - 1)
    }
}

proof fn lemma_div_pow2_bounds(m: int, p: nat, k: nat)
    requires
        k <= p,
        pow2((p - 1) as nat) <= m < pow2(p),
        p >= 1,
        k <= p - 1,
    ensures
        pow2((p - 1 - k) as nat) <= m / (pow2(k) as int) < pow2((p - k) as nat),
{
    lemma_pow2_pos(k);
    lemma_pow2_adds((p - 1 - k) as nat, k);
    lemma_pow2_adds((p - k) as nat, k);
    let d = pow2(k) as int;
    let lo = pow2((p - 1 - k) as nat) as int;
    let hi = pow2((p - k) as nat) as int;
    assert(lo * d == pow2((p - 1) as nat));
    assert(hi * d == pow2(p));
    vstd::arithmetic::div_mod::lemma_fundamental_div_mod(m, d);
    let q = m / d;
    let r = m % d;
    assert(0 <= r < d);
    assert(m == d * q + r);
    assert(lo <= q) by (nonlinear_arith)
        requires
            lo * d <= m,
            m == d * q + r,
            0 <= r < d,
            d > 0,
    ;
    assert(q < hi) by (nonlinear_arith)
        requires
            m < hi * d,
            m == d * q + r,
            0 <= r < d,
            d > 0,
    ;
}

proof fn lemma_mul_pow2_bounds(m: int, p: nat, k: nat)
    requires
        pow2((p - 1) as nat) <= m < pow2(p),
        p >= 1,
    ensures
        pow2((p - 1 + k) as nat) <= m * (pow2(k) as int) < pow2(p + k),
{
    lemma_pow2_pos(k);
    lemma_pow2_adds((p - 1) as nat, k);
    lemma_pow2_adds(p, k);
    let d = pow2(k) as int;
    assert(pow2((p - 1) as nat) * d <= m * d) by (nonlinear_arith)
        requires
            pow2((p - 1) as nat) <= m,
            d > 0,
    ;
    assert(m * d < pow2(p) * d) by (nonlinear_arith)
        requires
            m < pow2(p),
            d > 0,
    ;
}

/// The saturated integer part of a finite float given as sign, biased
/// exponent and significand with `p` significant bits; `w` is 31 or 63.
fn float_to_integer(neg: bool, e: u64, m: u64, bias: u64, p: u64, w: u64) -> (r: i64)
    requires
        1 <= p <= 53,
        w == 31 || w == 63,
        bias < 2048,
        e < 4096,
        pow2((p - 1) as nat) <= m < pow2(p as nat),
    ensures
        r == saturate(float_trunc(neg, e as int, m as int, bias as int, (bias + p - 1) as int),
            -(pow2(w as nat) as int), pow2(w as nat) as int - 1),
{
    let z = bias + p - 1;
    proof {
        lemma2_to64();
        vstd::arithmetic::power2::lemma2_to64_rest();
    }
    if e < bias {
        return 0;
    }
    if e >= bias + w {
        proof {
            if e < z {
                lemma_div_pow2_bounds(m as int, p as nat, (z - e) as nat);
                if ((p - 1 - (z - e)) as nat) > (w as nat) {
                    lemma_pow2_strictly_increases(w as nat, (p - 1 - (z - e)) as nat);
                }
            } else {
                lemma_mul_pow2_bounds(m as int, p as nat, (e - z) as nat);
                if ((p - 1 + (e - z)) as nat) > (w as nat) {
                    lemma_pow2_strictly_increases(w as nat, (p - 1 + (e - z)) as nat);
                }
            }
        }
        return if neg { if w == 31 { i32::MIN as i64 } else { i64::MIN } } else { if w == 31 { i32::MAX as i64 } else { i64::MAX } };
    }
    let mag: u64 = if e < z {
        proof {
            lemma_u64_shr_is_div(m, (z - e) as u64);
            lemma_div_pow2_bounds(m as int, p as nat, (z - e) as nat);
            if ((p - (z - e)) as nat) < (w as nat) {
                lemma_pow2_strictly_increases((p - (z - e)) as nat, w as nat);
            }
        }
        m >> (z - e)
    } else {
        proof {
            lemma_mul_pow2_bounds(m as int, p as nat, (e - z) as nat);
            if p + (e - z) < w {
                lemma_pow2_strictly_increases((p + (e - z)) as nat, w as nat);
            }
            lemma_u64_shl_is_mul(m, (e - z) as u64);
        }
        m << (e - z)
    };
    if neg { -(mag as i64) } else { mag as i64 }
}

/// `f2i` and `f2l` on the bits of a float; `long` chooses the result width.
pub fn f32_to_int(b: u32, long: bool) -> (r: i64)
    ensures
        r == f32_to_integer(b, if long { 63nat } else { 31nat }),
{
    if f32_nan(b) {
        return 0;
    }
    let neg = b >= 0x8000_0000;
    let e = ((b % 0x8000_0000) / 0x80_0000) as u64;
    let m = (b % 0x80_0000 + 0x80_0000) as u64;
    proof {
        lemma2_to64();
    }
    float_to_integer(neg, e, m, 127, 24, if long { 63 } else { 31 })
}

/// `d2i` and `d2l` on the bits of a double.
pub fn f64_to_int(b: u64, long: bool) -> (r: i64)
    ensures
        r == f64_to_integer(b, if long { 63nat } else { 31nat }),
{
    if f64_nan(b) {
        return 0;
    }
    let neg = b >= 0x8000_0000_0000_0000;
    let e = (b % 0x8000_0000_0000_0000) / 0x10_0000_0000_0000;
    let m = b % 0x10_0000_0000_0000 + 0x10_0000_0000_0000;
    proof {
        lemma2_to64();
        vstd::arithmetic::power2::lemma2_to64_rest();
        assert(e < 4096) by (nonlinear_arith)
            requires
                e == (b % 0x8000_0000_0000_0000) / 0x10_0000_0000_0000,
        ;
        assert(pow2(52) == 0x10_0000_0000_0000 && pow2(53) == 0x20_0000_0000_0000);
    }
    float_to_integer(neg, e, m, 1023, 53, if long { 63 } else { 31 })
}

} // verus!
