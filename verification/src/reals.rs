//! The real numbers, and what the integers need of them.
use vstd::prelude::*;
use crate::context::{first_of, first_two, list1, list2, one, two, ArithmeticContext, Tables};
use crate::engine::{spec_construct, spec_drop_to_type};
use crate::error::{outcome, ArithError, Failure, Outcome};
use crate::kernel::{Real, RealKernel};
use crate::list::{bool_datum, int_datum, Datum, List};
use crate::numbers::{fits, one_int};
use crate::tags::{complex_tag, integer_tag, rational_tag, real_tag};
use crate::value::{Atom, AtomView};

verus! {

/// How many steps of the continued fraction are taken at most.
pub const FRACTION_STEPS: usize = 64;

/// The datum that is the real `x`.
pub open spec fn real_datum(x: Real) -> Datum {
    Datum::V(AtomView::Real(x))
}

/// The real that a datum is, if it is one.
pub open spec fn real_of(d: Datum) -> Option<Real> {
    match d {
        Datum::V(AtomView::Real(x)) => Some(x),
        _ => None,
    }
}

/// The two reals that a procedure of two reals is applied to.
pub open spec fn two_reals(args: Datum) -> Option<(Real, Real)> {
    match two(args) {
        Some((a, b)) => match (real_of(a), real_of(b)) {
            (Some(x), Some(y)) => Some((x, y)),
            _ => None,
        },
        None => None,
    }
}

/// The real that a procedure of one real is applied to.
pub open spec fn one_real(args: Datum) -> Option<Real> {
    match one(args) {
        Some(a) => real_of(a),
        None => None,
    }
}

/// The opposite of a real: the real times zero less one.
pub open spec fn opposite<K: RealKernel>(kernel: K, x: Real) -> Real {
    kernel.product(kernel.difference(kernel.of_int(0), kernel.of_int(1)), x)
}

/// The real `x` as the constructor of the reals makes it.
pub open spec fn spec_make_float<K: RealKernel>(ctx: Tables<K>, x: Real, fuel: nat) -> Outcome
    decreases fuel, 21nat, 0nat,
{
    spec_construct::<K>(ctx, "make"@, real_tag(), list1(real_datum(x)), fuel)
}

/// The sum of two reals.
pub open spec fn spec_real_add<K: RealKernel>(ctx: Tables<K>, args: Datum, fuel: nat) -> Outcome
    decreases fuel, 90nat, 0nat,
{
    match two_reals(args) {
        None => Err(Failure::BadArgument),
        Some((x, y)) => spec_make_float::<K>(ctx, ctx.kernel.sum(x, y), fuel),
    }
}

/// The difference of two reals.
pub open spec fn spec_real_sub<K: RealKernel>(ctx: Tables<K>, args: Datum, fuel: nat) -> Outcome
    decreases fuel, 90nat, 0nat,
{
    match two_reals(args) {
        None => Err(Failure::BadArgument),
        Some((x, y)) => spec_make_float::<K>(ctx, ctx.kernel.difference(x, y), fuel),
    }
}

/// The product of two reals.
pub open spec fn spec_real_mul<K: RealKernel>(ctx: Tables<K>, args: Datum, fuel: nat) -> Outcome
    decreases fuel, 90nat, 0nat,
{
    match two_reals(args) {
        None => Err(Failure::BadArgument),
        Some((x, y)) => spec_make_float::<K>(ctx, ctx.kernel.product(x, y), fuel),
    }
}

/// The quotient; a divisor that is exactly zero fails.
pub open spec fn spec_real_div<K: RealKernel>(ctx: Tables<K>, args: Datum, fuel: nat) -> Outcome
    decreases fuel, 90nat, 0nat,
{
    match two_reals(args) {
        None => Err(Failure::BadArgument),
        Some((x, y)) => if ctx.kernel.vanishes(y) {
            Err(Failure::DivisionByZero)
        } else {
            spec_make_float::<K>(ctx, ctx.kernel.quotient(x, y), fuel)
        },
    }
}

/// Equality of reals, within the tolerance of the kernel.
pub open spec fn spec_real_equal<K: RealKernel>(ctx: Tables<K>, args: Datum) -> Outcome {
    match two_reals(args) {
        None => Err(Failure::BadArgument),
        Some((x, y)) => Ok(bool_datum(ctx.kernel.close(x, y))),
    }
}

/// Whether a real is exactly zero.
pub open spec fn spec_real_is_zero<K: RealKernel>(ctx: Tables<K>, args: Datum) -> Outcome {
    match one_real(args) {
        None => Err(Failure::BadArgument),
        Some(x) => Ok(bool_datum(ctx.kernel.vanishes(x))),
    }
}

/// The opposite of a real.
pub open spec fn spec_real_negative<K: RealKernel>(ctx: Tables<K>, args: Datum, fuel: nat) -> Outcome
    decreases fuel, 90nat, 0nat,
{
    match one_real(args) {
        None => Err(Failure::BadArgument),
        Some(x) => spec_make_float::<K>(ctx, opposite::<K>(ctx.kernel, x), fuel),
    }
}

/// The size of a real.
pub open spec fn spec_real_abs<K: RealKernel>(ctx: Tables<K>, args: Datum, fuel: nat) -> Outcome
    decreases fuel, 90nat, 0nat,
{
    match one_real(args) {
        None => Err(Failure::BadArgument),
        Some(x) => spec_make_float::<K>(
            ctx,
            if ctx.kernel.at_most(ctx.kernel.of_int(0), x) {
                x
            } else {
                opposite::<K>(ctx.kernel, x)
            },
            fuel,
        ),
    }
}

/// A real stands for itself, without a tag.
pub open spec fn spec_real_make(args: Datum) -> Outcome {
    match one_real(args) {
        None => Err(Failure::BadArgument),
        Some(x) => Ok(real_datum(x)),
    }
}

/// A real `x` as the complex number with real part `x` and imaginary part
/// zero.
pub open spec fn spec_real_raise<K: RealKernel>(ctx: Tables<K>, args: Datum, fuel: nat) -> Outcome
    decreases fuel, 90nat, 0nat,
{
    match one(args) {
        None => Err(Failure::BadArgument),
        Some(x) => spec_construct::<K>(
            ctx,
            "make_from_real_imag"@,
            complex_tag(),
            list2(x, real_datum(ctx.kernel.of_int(0))),
            fuel,
        ),
    }
}

/// The square root of a real.
pub open spec fn spec_real_sqrt<K: RealKernel>(ctx: Tables<K>, args: Datum, fuel: nat) -> Outcome
    decreases fuel, 90nat, 0nat,
{
    match one_real(args) {
        None => Err(Failure::BadArgument),
        Some(x) => spec_make_float::<K>(ctx, ctx.kernel.root(x), fuel),
    }
}

/// The square root of an integer: the root of the nearest real, brought
/// down the tower as far as nothing is lost.
pub open spec fn spec_integer_sqrt<K: RealKernel>(ctx: Tables<K>, args: Datum, fuel: nat) -> Outcome
    decreases fuel, 90nat, 0nat,
{
    match one_int(args) {
        None => Err(Failure::BadArgument),
        Some(x) => match spec_make_float::<K>(ctx, ctx.kernel.root(ctx.kernel.of_int(x)), fuel) {
            Err(e) => Err(e),
            Ok(r) => spec_drop_to_type::<K>(ctx, r, integer_tag(), fuel),
        },
    }
}

/// The convergents of the continued fraction of a real, from the state of
/// the expansion: what is left of the real in `x`, its integer part `a`,
/// the last two numerators and the last two denominators.
///
/// The expansion ends, with the last convergent, when the denominator has
/// reached `max`, when the next convergent has a denominator above `max` or
/// is not of 32 bits, when nothing is left of the real, or after `steps`
/// steps.
pub open spec fn fraction_from<K: RealKernel>(
    kernel: K,
    x: Real,
    a: int,
    n0: int,
    n1: int,
    d0: int,
    d1: int,
    max: int,
    steps: nat,
) -> (int, int)
    decreases steps,
{
    if steps == 0 || d1 >= max {
        (n1, d1)
    } else if !fits(a * n1) || !fits(a * n1 + n0) || !fits(a * d1) || !fits(a * d1 + d0) || a * d1
        + d0 > max {
        (n1, d1)
    } else {
        let rest = kernel.difference(x, kernel.of_int(a));
        if kernel.close(kernel.size(rest), kernel.of_int(0)) {
            (a * n1 + n0, a * d1 + d0)
        } else {
            let inverse = kernel.quotient(kernel.of_int(1), rest);
            fraction_from::<K>(
                kernel,
                inverse,
                kernel.floor_of(inverse),
                n1,
                a * n1 + n0,
                d1,
                a * d1 + d0,
                max,
                (steps - 1) as nat,
            )
        }
    }
}

/// A fraction near a real, with a denominator of at most `max`: the sign
/// of the real on the last convergent of the continued fraction of its
/// size.
pub open spec fn spec_fraction<K: RealKernel>(kernel: K, x: Real, max: int) -> Result<(int, int), Failure> {
    let size = kernel.size(x);
    let found = fraction_from::<K>(kernel, size, kernel.floor_of(size), 0, 1, 1, 0, max, FRACTION_STEPS as nat);
    if kernel.below(x, kernel.of_int(0)) {
        if fits(-found.0) {
            Ok((-found.0, found.1))
        } else {
            Err(Failure::Overflow)
        }
    } else {
        Ok(found)
    }
}

/// A real as the rational number near it whose denominator is an integer
/// of 32 bits.
pub open spec fn spec_real_project<K: RealKernel>(ctx: Tables<K>, args: Datum, fuel: nat) -> Outcome
    decreases fuel, 90nat, 0nat,
{
    match one_real(args) {
        None => Err(Failure::BadArgument),
        Some(x) => match spec_fraction::<K>(ctx.kernel, x, i32::MAX as int) {
            Err(e) => Err(e),
            Ok(f) => spec_construct::<K>(
                ctx,
                "make"@,
                rational_tag(),
                list2(int_datum(f.0), int_datum(f.1)),
                fuel,
            ),
        },
    }
}

/// The leaf that holds the real `x`.
pub fn real_leaf(x: Real) -> (r: List)
    ensures
        r@ == real_datum(x),
{
    List::V(Atom::Real(x))
}

/// The real that a list is, if it is one.
pub fn real_in(l: &List) -> (r: Option<Real>)
    ensures
        r == real_of(l@),
{
    match l {
        List::V(Atom::Real(x)) => Some(*x),
        _ => None,
    }
}

fn two_real_args(args: &List) -> (r: Result<(Real, Real), ArithError>)
    ensures
        match r {
            Ok(v) => two_reals(args@) == Some(v),
            Err(e) => two_reals(args@) is None && e@ == Failure::BadArgument,
        },
{
    match first_two(args) {
        Some((a, b)) => match (real_in(a), real_in(b)) {
            (Some(x), Some(y)) => Ok((x, y)),
            _ => Err(ArithError::BadArgument),
        },
        None => Err(ArithError::BadArgument),
    }
}

fn one_real_arg(args: &List) -> (r: Result<Real, ArithError>)
    ensures
        match r {
            Ok(v) => one_real(args@) == Some(v),
            Err(e) => one_real(args@) is None && e@ == Failure::BadArgument,
        },
{
    match first_of(args) {
        Some(a) => match real_in(a) {
            Some(x) => Ok(x),
            None => Err(ArithError::BadArgument),
        },
        None => Err(ArithError::BadArgument),
    }
}

fn opposite_of<K: RealKernel>(kernel: &K, x: Real) -> (r: Real)
    ensures
        r == opposite::<K>(*kernel, x),
{
    let zero = kernel.from_int(0);
    let unit = kernel.from_int(1);
    kernel.mul(kernel.sub(zero, unit), x)
}

/// Makes the real `x` by the constructor registered for the reals, with
/// calls nested at most `fuel` deep.
pub fn make_float_at<K: RealKernel>(x: Real, arith: &ArithmeticContext<K>, fuel: usize) -> (r:
    Result<List, ArithError>)
    ensures
        outcome(r) == spec_make_float::<K>(arith@, x, fuel as nat),
    decreases fuel, 21nat, 0nat,
{
    arith.construct_at("make", "real", List::pair(real_leaf(x), List::Nil), fuel)
}

/// The sum of two reals.
pub fn real_add<K: RealKernel>(arith: &ArithmeticContext<K>, args: &List, fuel: usize) -> (r:
    Result<List, ArithError>)
    ensures
        outcome(r) == spec_real_add::<K>(arith@, args@, fuel as nat),
    decreases fuel, 90nat, 0nat,
{
    let (x, y) = two_real_args(args)?;
    make_float_at(arith.kernel.add(x, y), arith, fuel)
}

/// The difference of two reals.
pub fn real_sub<K: RealKernel>(arith: &ArithmeticContext<K>, args: &List, fuel: usize) -> (r:
    Result<List, ArithError>)
    ensures
        outcome(r) == spec_real_sub::<K>(arith@, args@, fuel as nat),
    decreases fuel, 90nat, 0nat,
{
    let (x, y) = two_real_args(args)?;
    make_float_at(arith.kernel.sub(x, y), arith, fuel)
}

/// The product of two reals.
pub fn real_mul<K: RealKernel>(arith: &ArithmeticContext<K>, args: &List, fuel: usize) -> (r:
    Result<List, ArithError>)
    ensures
        outcome(r) == spec_real_mul::<K>(arith@, args@, fuel as nat),
    decreases fuel, 90nat, 0nat,
{
    let (x, y) = two_real_args(args)?;
    make_float_at(arith.kernel.mul(x, y), arith, fuel)
}

/// The quotient; a divisor that is exactly zero fails.
pub fn real_div<K: RealKernel>(arith: &ArithmeticContext<K>, args: &List, fuel: usize) -> (r:
    Result<List, ArithError>)
    ensures
        outcome(r) == spec_real_div::<K>(arith@, args@, fuel as nat),
    decreases fuel, 90nat, 0nat,
{
    let (x, y) = two_real_args(args)?;
    if arith.kernel.is_zero(y) {
        Err(ArithError::DivisionByZero)
    } else {
        make_float_at(arith.kernel.div(x, y), arith, fuel)
    }
}

/// Equality of reals, within the tolerance of the kernel.
pub fn real_equal<K: RealKernel>(arith: &ArithmeticContext<K>, args: &List) -> (r: Result<
    List,
    ArithError,
>)
    ensures
        outcome(r) == spec_real_equal::<K>(arith@, args@),
{
    let (x, y) = two_real_args(args)?;
    Ok(List::truth(arith.kernel.approx_eq(x, y)))
}

/// Whether a real is exactly zero.
pub fn real_is_zero<K: RealKernel>(arith: &ArithmeticContext<K>, args: &List) -> (r: Result<
    List,
    ArithError,
>)
    ensures
        outcome(r) == spec_real_is_zero::<K>(arith@, args@),
{
    let x = one_real_arg(args)?;
    Ok(List::truth(arith.kernel.is_zero(x)))
}

/// The opposite of a real.
pub fn real_negative<K: RealKernel>(arith: &ArithmeticContext<K>, args: &List, fuel: usize) -> (r:
    Result<List, ArithError>)
    ensures
        outcome(r) == spec_real_negative::<K>(arith@, args@, fuel as nat),
    decreases fuel, 90nat, 0nat,
{
    let x = one_real_arg(args)?;
    make_float_at(opposite_of(&arith.kernel, x), arith, fuel)
}

/// The size of a real.
pub fn real_abs<K: RealKernel>(arith: &ArithmeticContext<K>, args: &List, fuel: usize) -> (r:
    Result<List, ArithError>)
    ensures
        outcome(r) == spec_real_abs::<K>(arith@, args@, fuel as nat),
    decreases fuel, 90nat, 0nat,
{
    let x = one_real_arg(args)?;
    let zero = arith.kernel.from_int(0);
    if arith.kernel.le(zero, x) {
        make_float_at(x, arith, fuel)
    } else {
        make_float_at(opposite_of(&arith.kernel, x), arith, fuel)
    }
}

/// A real stands for itself, without a tag.
pub fn real_make(args: &List) -> (r: Result<List, ArithError>)
    ensures
        outcome(r) == spec_real_make(args@),
{
    let x = one_real_arg(args)?;
    Ok(real_leaf(x))
}

/// A real `x` as the complex number with real part `x` and imaginary part
/// zero.
pub fn real_raise<K: RealKernel>(arith: &ArithmeticContext<K>, args: &List, fuel: usize) -> (r:
    Result<List, ArithError>)
    ensures
        outcome(r) == spec_real_raise::<K>(arith@, args@, fuel as nat),
    decreases fuel, 90nat, 0nat,
{
    match first_of(args) {
        None => Err(ArithError::BadArgument),
        Some(x) => {
            let zero = real_leaf(arith.kernel.from_int(0));
            arith.construct_at(
                "make_from_real_imag",
                "complex",
                List::pair(x.clone(), List::pair(zero, List::Nil)),
                fuel,
            )
        },
    }
}

/// The square root of a real.
pub fn real_sqrt<K: RealKernel>(arith: &ArithmeticContext<K>, args: &List, fuel: usize) -> (r:
    Result<List, ArithError>)
    ensures
        outcome(r) == spec_real_sqrt::<K>(arith@, args@, fuel as nat),
    decreases fuel, 90nat, 0nat,
{
    let x = one_real_arg(args)?;
    make_float_at(arith.kernel.sqrt(x), arith, fuel)
}

/// The square root of an integer: the root of the nearest real, brought
/// down the tower as far as nothing is lost.
pub fn integer_sqrt<K: RealKernel>(arith: &ArithmeticContext<K>, args: &List, fuel: usize) -> (r:
    Result<List, ArithError>)
    ensures
        outcome(r) == spec_integer_sqrt::<K>(arith@, args@, fuel as nat),
    decreases fuel, 90nat, 0nat,
{
    let x = match first_of(args) {
        Some(a) => match crate::numbers::integer_of(a) {
            Some(x) => x,
            None => {
                return Err(ArithError::BadArgument);
            },
        },
        None => {
            return Err(ArithError::BadArgument);
        },
    };
    let root = arith.kernel.sqrt(arith.kernel.from_int(x));
    let r = make_float_at(root, arith, fuel)?;
    arith.drop_to_type_at(&r, "integer", fuel)
}

/// A fraction near a real, with a denominator of at most
/// `max_denominator`, by the expansion of the real's size into a continued
/// fraction.
pub fn float_to_fraction<K: RealKernel>(kernel: &K, x: Real, max_denominator: i32) -> (r: Result<
    (i32, i32),
    ArithError,
>)
    ensures
        match r {
            Ok(f) => spec_fraction::<K>(*kernel, x, max_denominator as int) == Ok::<(int, int), Failure>(
                (f.0 as int, f.1 as int),
            ),
            Err(e) => spec_fraction::<K>(*kernel, x, max_denominator as int) == Err::<(int, int), Failure>(
                e@,
            ),
        },
{
    let zero = kernel.from_int(0);
    let unit = kernel.from_int(1);
    let negative = kernel.lt(x, zero);
    let mut x = kernel.magnitude(x);
    let mut numer0: i32 = 0;
    let mut numer1: i32 = 1;
    let mut denom0: i32 = 1;
    let mut denom1: i32 = 0;
    let mut a: i32 = kernel.floor(x);
    let mut steps: usize = FRACTION_STEPS;
    let ghost goal = fraction_from::<K>(
        *kernel,
        x,
        a as int,
        0,
        1,
        1,
        0,
        max_denominator as int,
        FRACTION_STEPS as nat,
    );
    while steps > 0 && denom1 < max_denominator
        invariant
            zero == kernel.of_int(0),
            unit == kernel.of_int(1),
            goal == fraction_from::<K>(
                *kernel,
                x,
                a as int,
                numer0 as int,
                numer1 as int,
                denom0 as int,
                denom1 as int,
                max_denominator as int,
                steps as nat,
            ),
        ensures
            goal == (numer1 as int, denom1 as int),
        decreases steps,
    {
        let numer2 = match a.checked_mul(numer1) {
            Some(v) => match v.checked_add(numer0) {
                Some(w) => w,
                None => {
                    break ;
                },
            },
            None => {
                break ;
            },
        };
        let denom2 = match a.checked_mul(denom1) {
            Some(v) => match v.checked_add(denom0) {
                Some(w) => w,
                None => {
                    break ;
                },
            },
            None => {
                break ;
            },
        };
        if denom2 > max_denominator {
            break ;
        }
        let rest = kernel.sub(x, kernel.from_int(a));
        if kernel.approx_eq(kernel.magnitude(rest), zero) {
            numer1 = numer2;
            denom1 = denom2;
            proof {
                assert(goal == (numer1 as int, denom1 as int));
            }
            steps = 0;
            break ;
        }
        numer0 = numer1;
        numer1 = numer2;
        denom0 = denom1;
        denom1 = denom2;
        x = kernel.div(unit, rest);
        a = kernel.floor(x);
        steps = steps - 1;
    }
    if negative {
        match 0i32.checked_sub(numer1) {
            Some(n) => Ok((n, denom1)),
            None => Err(ArithError::Overflow),
        }
    } else {
        Ok((numer1, denom1))
    }
}

/// A real as the rational number near it whose denominator is an integer
/// of 32 bits.
pub fn real_project<K: RealKernel>(arith: &ArithmeticContext<K>, args: &List, fuel: usize) -> (r:
    Result<List, ArithError>)
    ensures
        outcome(r) == spec_real_project::<K>(arith@, args@, fuel as nat),
    decreases fuel, 90nat, 0nat,
{
    let x = one_real_arg(args)?;
    let (n, d) = float_to_fraction(&arith.kernel, x, i32::MAX)?;
    arith.construct_at(
        "make",
        "rational",
        List::pair(List::integer(n), List::pair(List::integer(d), List::Nil)),
        fuel,
    )
}

} // verus!
