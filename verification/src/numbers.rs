//! The integers: the bottom of the tower.
use vstd::prelude::*;
use crate::context::{first_of, first_two, list1, list2, one, two, ArithmeticContext, Tables};
use crate::engine::spec_construct;
use crate::error::{outcome, ArithError, Failure, Outcome};
use crate::kernel::RealKernel;
use crate::list::{bool_datum, int_datum, Datum, List};
use crate::tags::{integer_tag, rational_tag};
use crate::value::{Atom, AtomView};

verus! {

/// The integer that a datum is, if it is one.
pub open spec fn int_of(d: Datum) -> Option<int> {
    match d {
        Datum::V(AtomView::Int(i)) => Some(i),
        _ => None,
    }
}

/// Whether an integer is one of 32 bits.
pub open spec fn fits(i: int) -> bool {
    i32::MIN <= i <= i32::MAX
}

/// The quotient of two integers, rounded towards zero.
pub open spec fn trunc_div(x: int, y: int) -> int {
    if x >= 0 {
        x / y
    } else {
        -((-x) / y)
    }
}

/// The quotient rounded towards zero is no further from zero than the
/// dividend. It is the dividend's opposite only for the divisor -1.
pub proof fn lemma_trunc_div_bound(x: int, y: int)
    requires
        y != 0,
    ensures
        x >= 0 ==> -x <= trunc_div(x, y) <= x,
        x < 0 ==> x <= trunc_div(x, y) <= -x,
        x < 0 && y != -1 ==> trunc_div(x, y) < -x,
        y == -1 ==> trunc_div(x, y) == -x,
{
    let a = if x >= 0 {
        x
    } else {
        -x
    };
    let q = a / y;
    let r = a % y;
    vstd::arithmetic::div_mod::lemma_fundamental_div_mod(a, y);
    vstd::arithmetic::div_mod::lemma_mod_bound(a, if y > 0 {
        y
    } else {
        -y
    });
    assert(0 <= r < (if y > 0 {
        y
    } else {
        -y
    })) by {
        if y > 0 {
            vstd::arithmetic::div_mod::lemma_mod_pos_bound(a, y);
        } else {
            lemma_euclid_remainder(a, y);
        }
    }
    assert(-a <= q <= a && (y == -1 ==> q == -a) && (y != -1 && a > 0 ==> q > -a)) by (nonlinear_arith)
        requires
            a == y * q + r,
            0 <= r < (if y > 0 {
                y
            } else {
                -y
            }),
            a >= 0,
            y != 0,
    ;
}

/// The remainder of a division by a negative number lies from zero up to
/// the size of the divisor.
pub proof fn lemma_euclid_remainder(a: int, y: int)
    requires
        y < 0,
    ensures
        0 <= a % y < -y,
{
}

/// The two integers that a procedure of two integers is applied to.
pub open spec fn two_ints(args: Datum) -> Option<(int, int)> {
    match two(args) {
        Some((a, b)) => match (int_of(a), int_of(b)) {
            (Some(x), Some(y)) => Some((x, y)),
            _ => None,
        },
        None => None,
    }
}

/// The integer that a procedure of one integer is applied to.
pub open spec fn one_int(args: Datum) -> Option<int> {
    match one(args) {
        Some(a) => int_of(a),
        None => None,
    }
}

/// The integer `x` as the constructor of the integers makes it.
pub open spec fn spec_make_integer<K: RealKernel>(ctx: Tables<K>, x: int, fuel: nat) -> Outcome
    decreases fuel, 21nat, 0nat,
{
    spec_construct::<K>(ctx, "make"@, integer_tag(), list1(int_datum(x)), fuel)
}

/// The integer `x`, made by the constructor where it is one of 32 bits.
pub open spec fn spec_integer_result<K: RealKernel>(ctx: Tables<K>, x: int, fuel: nat) -> Outcome
    decreases fuel, 22nat, 0nat,
{
    if fits(x) {
        spec_make_integer::<K>(ctx, x, fuel)
    } else {
        Err(Failure::Overflow)
    }
}

/// The sum of two integers; a sum outside the 32 bits fails.
pub open spec fn spec_integer_add<K: RealKernel>(ctx: Tables<K>, args: Datum, fuel: nat) -> Outcome
    decreases fuel, 90nat, 0nat,
{
    match two_ints(args) {
        None => Err(Failure::BadArgument),
        Some((x, y)) => spec_integer_result::<K>(ctx, x + y, fuel),
    }
}

/// The difference of two integers; one outside the 32 bits fails.
pub open spec fn spec_integer_sub<K: RealKernel>(ctx: Tables<K>, args: Datum, fuel: nat) -> Outcome
    decreases fuel, 90nat, 0nat,
{
    match two_ints(args) {
        None => Err(Failure::BadArgument),
        Some((x, y)) => spec_integer_result::<K>(ctx, x - y, fuel),
    }
}

/// The product of two integers; one outside the 32 bits fails.
pub open spec fn spec_integer_mul<K: RealKernel>(ctx: Tables<K>, args: Datum, fuel: nat) -> Outcome
    decreases fuel, 90nat, 0nat,
{
    match two_ints(args) {
        None => Err(Failure::BadArgument),
        Some((x, y)) => spec_integer_result::<K>(ctx, x * y, fuel),
    }
}

/// The quotient rounded towards zero; a zero divisor fails.
pub open spec fn spec_integer_div<K: RealKernel>(ctx: Tables<K>, args: Datum, fuel: nat) -> Outcome
    decreases fuel, 90nat, 0nat,
{
    match two_ints(args) {
        None => Err(Failure::BadArgument),
        Some((x, y)) => if y == 0 {
            Err(Failure::DivisionByZero)
        } else {
            spec_integer_result::<K>(ctx, trunc_div(x, y), fuel)
        },
    }
}

/// Whether two integers are equal.
pub open spec fn spec_integer_equal(args: Datum) -> Outcome {
    match two_ints(args) {
        None => Err(Failure::BadArgument),
        Some((x, y)) => Ok(bool_datum(x == y)),
    }
}

/// Whether an integer is zero.
pub open spec fn spec_integer_is_zero(args: Datum) -> Outcome {
    match one_int(args) {
        None => Err(Failure::BadArgument),
        Some(x) => Ok(bool_datum(x == 0)),
    }
}

/// The opposite of an integer; that of the least integer fails.
pub open spec fn spec_integer_negative<K: RealKernel>(ctx: Tables<K>, args: Datum, fuel: nat) -> Outcome
    decreases fuel, 90nat, 0nat,
{
    match one_int(args) {
        None => Err(Failure::BadArgument),
        Some(x) => spec_integer_result::<K>(ctx, -x, fuel),
    }
}

/// The size of an integer; that of the least integer fails.
pub open spec fn spec_integer_abs<K: RealKernel>(ctx: Tables<K>, args: Datum, fuel: nat) -> Outcome
    decreases fuel, 90nat, 0nat,
{
    match one_int(args) {
        None => Err(Failure::BadArgument),
        Some(x) => spec_integer_result::<K>(
            ctx,
            if x >= 0 {
                x
            } else {
                -x
            },
            fuel,
        ),
    }
}

/// An integer stands for itself, without a tag.
pub open spec fn spec_integer_make(args: Datum) -> Outcome {
    match one_int(args) {
        None => Err(Failure::BadArgument),
        Some(x) => Ok(int_datum(x)),
    }
}

/// An integer `n` as the rational number `n/1`.
pub open spec fn spec_integer_raise<K: RealKernel>(ctx: Tables<K>, args: Datum, fuel: nat) -> Outcome
    decreases fuel, 90nat, 0nat,
{
    match one(args) {
        None => Err(Failure::BadArgument),
        Some(n) => spec_construct::<K>(ctx, "make"@, rational_tag(), list2(n, int_datum(1)), fuel),
    }
}

/// The integer that a list is, if it is one.
pub fn integer_of(l: &List) -> (r: Option<i32>)
    ensures
        match r {
            Some(i) => int_of(l@) == Some(i as int),
            None => int_of(l@) is None,
        },
{
    match l {
        List::V(Atom::Int(i)) => Some(*i),
        _ => None,
    }
}

fn two_integers(args: &List) -> (r: Result<(i32, i32), ArithError>)
    ensures
        match r {
            Ok(v) => two_ints(args@) == Some((v.0 as int, v.1 as int)),
            Err(e) => two_ints(args@) is None && e@ == Failure::BadArgument,
        },
{
    match first_two(args) {
        Some((a, b)) => match (integer_of(a), integer_of(b)) {
            (Some(x), Some(y)) => Ok((x, y)),
            _ => Err(ArithError::BadArgument),
        },
        None => Err(ArithError::BadArgument),
    }
}

fn one_integer(args: &List) -> (r: Result<i32, ArithError>)
    ensures
        match r {
            Ok(v) => one_int(args@) == Some(v as int),
            Err(e) => one_int(args@) is None && e@ == Failure::BadArgument,
        },
{
    match first_of(args) {
        Some(a) => match integer_of(a) {
            Some(x) => Ok(x),
            None => Err(ArithError::BadArgument),
        },
        None => Err(ArithError::BadArgument),
    }
}

/// Makes the integer `x` by the constructor registered for the integers,
/// with calls nested at most `fuel` deep.
pub fn make_integer_at<K: RealKernel>(x: i32, arith: &ArithmeticContext<K>, fuel: usize) -> (r:
    Result<List, ArithError>)
    ensures
        outcome(r) == spec_make_integer::<K>(arith@, x as int, fuel as nat),
    decreases fuel, 21nat, 0nat,
{
    arith.construct_at("make", "integer", List::pair(List::integer(x), List::Nil), fuel)
}

fn integer_result<K: RealKernel>(x: Option<i32>, wide: Ghost<int>, arith: &ArithmeticContext<K>, fuel: usize) -> (r:
    Result<List, ArithError>)
    requires
        x is Some <==> fits(wide@),
        x matches Some(v) ==> v == wide@,
    ensures
        outcome(r) == spec_integer_result::<K>(arith@, wide@, fuel as nat),
    decreases fuel, 22nat, 0nat,
{
    match x {
        Some(v) => make_integer_at(v, arith, fuel),
        None => Err(ArithError::Overflow),
    }
}

/// The sum of two integers; a sum outside the 32 bits fails.
pub fn integer_add<K: RealKernel>(arith: &ArithmeticContext<K>, args: &List, fuel: usize) -> (r:
    Result<List, ArithError>)
    ensures
        outcome(r) == spec_integer_add::<K>(arith@, args@, fuel as nat),
    decreases fuel, 90nat, 0nat,
{
    let (x, y) = two_integers(args)?;
    integer_result(x.checked_add(y), Ghost(x + y), arith, fuel)
}

/// The difference of two integers; one outside the 32 bits fails.
pub fn integer_sub<K: RealKernel>(arith: &ArithmeticContext<K>, args: &List, fuel: usize) -> (r:
    Result<List, ArithError>)
    ensures
        outcome(r) == spec_integer_sub::<K>(arith@, args@, fuel as nat),
    decreases fuel, 90nat, 0nat,
{
    let (x, y) = two_integers(args)?;
    integer_result(x.checked_sub(y), Ghost(x - y), arith, fuel)
}

/// The product of two integers; one outside the 32 bits fails.
pub fn integer_mul<K: RealKernel>(arith: &ArithmeticContext<K>, args: &List, fuel: usize) -> (r:
    Result<List, ArithError>)
    ensures
        outcome(r) == spec_integer_mul::<K>(arith@, args@, fuel as nat),
    decreases fuel, 90nat, 0nat,
{
    let (x, y) = two_integers(args)?;
    integer_result(x.checked_mul(y), Ghost(x * y), arith, fuel)
}

/// The quotient rounded towards zero; a zero divisor fails.
pub fn integer_div<K: RealKernel>(arith: &ArithmeticContext<K>, args: &List, fuel: usize) -> (r:
    Result<List, ArithError>)
    ensures
        outcome(r) == spec_integer_div::<K>(arith@, args@, fuel as nat),
    decreases fuel, 90nat, 0nat,
{
    let (x, y) = two_integers(args)?;
    if y == 0 {
        Err(ArithError::DivisionByZero)
    } else if x == i32::MIN && y == -1 {
        integer_result(None, Ghost(trunc_div(x as int, y as int)), arith, fuel)
    } else {
        proof {
            lemma_trunc_div_bound(x as int, y as int);
        }
        integer_result(Some(x / y), Ghost(trunc_div(x as int, y as int)), arith, fuel)
    }
}

/// Whether two integers are equal.
pub fn integer_equal(args: &List) -> (r: Result<List, ArithError>)
    ensures
        outcome(r) == spec_integer_equal(args@),
{
    let (x, y) = two_integers(args)?;
    Ok(List::truth(x == y))
}

/// Whether an integer is zero.
pub fn integer_is_zero(args: &List) -> (r: Result<List, ArithError>)
    ensures
        outcome(r) == spec_integer_is_zero(args@),
{
    let x = one_integer(args)?;
    Ok(List::truth(x == 0))
}

/// The opposite of an integer; that of the least integer fails.
pub fn integer_negative<K: RealKernel>(arith: &ArithmeticContext<K>, args: &List, fuel: usize) -> (r:
    Result<List, ArithError>)
    ensures
        outcome(r) == spec_integer_negative::<K>(arith@, args@, fuel as nat),
    decreases fuel, 90nat, 0nat,
{
    let x = one_integer(args)?;
    integer_result(0i32.checked_sub(x), Ghost(-x), arith, fuel)
}

/// The size of an integer; that of the least integer fails.
pub fn integer_abs<K: RealKernel>(arith: &ArithmeticContext<K>, args: &List, fuel: usize) -> (r:
    Result<List, ArithError>)
    ensures
        outcome(r) == spec_integer_abs::<K>(arith@, args@, fuel as nat),
    decreases fuel, 90nat, 0nat,
{
    let x = one_integer(args)?;
    if x >= 0 {
        integer_result(Some(x), Ghost(x as int), arith, fuel)
    } else {
        integer_result(0i32.checked_sub(x), Ghost(-x), arith, fuel)
    }
}

/// An integer stands for itself, without a tag.
pub fn integer_make(args: &List) -> (r: Result<List, ArithError>)
    ensures
        outcome(r) == spec_integer_make(args@),
{
    let x = one_integer(args)?;
    Ok(List::integer(x))
}

/// An integer `n` as the rational number `n/1`.
pub fn integer_raise<K: RealKernel>(arith: &ArithmeticContext<K>, args: &List, fuel: usize) -> (r:
    Result<List, ArithError>)
    ensures
        outcome(r) == spec_integer_raise::<K>(arith@, args@, fuel as nat),
    decreases fuel, 90nat, 0nat,
{
    match first_of(args) {
        None => Err(ArithError::BadArgument),
        Some(n) => arith.construct_at(
            "make",
            "rational",
            List::pair(n.clone(), List::pair(List::integer(1), List::Nil)),
            fuel,
        ),
    }
}

} // verus!
