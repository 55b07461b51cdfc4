//! The complex numbers, in rectangular and in polar form, both under the
//! tag `complex`.
use vstd::prelude::*;
use crate::context::{first_of, first_two, list2, one, two, ArithmeticContext, Tables};
use crate::engine::{spec_binary, spec_construct, spec_drop, spec_raise, spec_sqrt, spec_unary};
use crate::error::{outcome, outcome2, ArithError, Failure, Outcome};
use crate::kernel::{Real, RealKernel};
use crate::list::{bool_datum, cons, Datum, List};
use crate::numbers::{int_of, integer_of};
use crate::rational::{both_equal, spec_both_equal};
use crate::reals::{make_float_at, real_datum, real_in, real_leaf, real_of, spec_make_float};
use crate::tags::{
    attach_tag, complex_tag, has_tag, in_tower, integer_tag, is_basis_arithmetic_type, is_tagged,
    rational_tag, real_tag, tagged,
};

verus! {

/// The tag of the rectangular form.
pub open spec fn rectangular_tag() -> Seq<char> {
    "rectangular"@
}

/// The tag of the polar form.
pub open spec fn polar_tag() -> Seq<char> {
    "polar"@
}

/// The two parts of the contents of a complex number in either form.
pub open spec fn pair_parts(args: Datum) -> Option<(Datum, Datum)> {
    match one(args) {
        Some(Datum::Cons(a, b)) => Some((*a, *b)),
        _ => None,
    }
}

/// The pair of two arguments under `tag`.
pub open spec fn spec_pair_under(tag: Seq<char>, args: Datum) -> Outcome {
    match two(args) {
        None => Err(Failure::BadArgument),
        Some((x, y)) => Ok(tagged(tag, cons(x, y))),
    }
}

/// The first part of the contents of a complex number in either form.
pub open spec fn spec_first_part(args: Datum) -> Outcome {
    match pair_parts(args) {
        None => Err(Failure::BadArgument),
        Some(p) => Ok(p.0),
    }
}

/// The second part of the contents of a complex number in either form.
pub open spec fn spec_second_part(args: Datum) -> Outcome {
    match pair_parts(args) {
        None => Err(Failure::BadArgument),
        Some(p) => Ok(p.1),
    }
}

/// The two reals that a datum of two arguments holds, if both are reals.
pub open spec fn both_reals(x: Datum, y: Datum) -> Option<(Real, Real)> {
    match (real_of(x), real_of(y)) {
        (Some(a), Some(b)) => Some((a, b)),
        _ => None,
    }
}

/// The rectangular form of the complex number of magnitude `r` and angle
/// `a`, both reals.
pub open spec fn spec_rect_from_mag_ang<K: RealKernel>(ctx: Tables<K>, args: Datum) -> Outcome {
    match two(args) {
        None => Err(Failure::BadArgument),
        Some((r, a)) => match both_reals(r, a) {
            None => Err(Failure::BadArgument),
            Some((m, t)) => Ok(
                tagged(
                    rectangular_tag(),
                    cons(
                        real_datum(ctx.kernel.product(m, ctx.kernel.cosine(t))),
                        real_datum(ctx.kernel.product(m, ctx.kernel.sine(t))),
                    ),
                ),
            ),
        },
    }
}

/// The polar form of the complex number of real part `r` and imaginary
/// part `i`, both reals.
pub open spec fn spec_polar_from_real_imag<K: RealKernel>(ctx: Tables<K>, args: Datum) -> Outcome {
    match two(args) {
        None => Err(Failure::BadArgument),
        Some((r, i)) => match both_reals(r, i) {
            None => Err(Failure::BadArgument),
            Some((x, y)) => Ok(
                tagged(
                    polar_tag(),
                    cons(
                        real_datum(ctx.kernel.root(ctx.kernel.sum(ctx.kernel.product(x, x), ctx.kernel.product(y, y)))),
                        real_datum(ctx.kernel.arc_tangent(y, x)),
                    ),
                ),
            ),
        },
    }
}

/// The two parts of a form tagged `tag`, being the one argument.
pub open spec fn form_parts(tag: Seq<char>, args: Datum) -> Option<(Datum, Datum)> {
    match one(args) {
        Some(Datum::Cons(t, parts)) => if *t == crate::list::text_datum(tag) && *parts is Cons {
            Some((parts.head(), parts.tail()))
        } else {
            None
        },
        _ => None,
    }
}

/// A rectangular form, with its tag, as the polar form of the same
/// number.
pub open spec fn spec_rect_to_polar<K: RealKernel>(ctx: Tables<K>, args: Datum) -> Outcome {
    match form_parts(rectangular_tag(), args) {
        None => Err(Failure::BadArgument),
        Some(p) => spec_polar_from_real_imag::<K>(ctx, list2(p.0, p.1)),
    }
}

/// A polar form, with its tag, as the rectangular form of the same
/// number.
pub open spec fn spec_polar_to_rect<K: RealKernel>(ctx: Tables<K>, args: Datum) -> Outcome {
    match form_parts(polar_tag(), args) {
        None => Err(Failure::BadArgument),
        Some(p) => spec_rect_from_mag_ang::<K>(ctx, list2(p.0, p.1)),
    }
}

/// A value of the tower below the complex numbers as a real: an integer as
/// the nearest real, a rational number raised, a real as it is.
pub open spec fn spec_as_real<K: RealKernel>(ctx: Tables<K>, x: Datum, fuel: nat) -> Result<
    Real,
    Failure,
>
    decreases fuel, 70nat, 0nat,
{
    if has_tag(x, integer_tag()) {
        match int_of(x) {
            None => Err(Failure::BadArgument),
            Some(i) => Ok(ctx.kernel.of_int(i)),
        }
    } else if has_tag(x, real_tag()) {
        match real_of(x) {
            None => Err(Failure::BadArgument),
            Some(r) => Ok(r),
        }
    } else if has_tag(x, rational_tag()) {
        match spec_raise::<K>(ctx, x, fuel) {
            Err(e) => Err(e),
            Ok(up) => match real_of(up) {
                None => Err(Failure::BadArgument),
                Some(r) => Ok(r),
            },
        }
    } else {
        Err(Failure::BadArgument)
    }
}

/// Two values of the tower below the complex numbers as two reals.
pub open spec fn spec_two_reals<K: RealKernel>(ctx: Tables<K>, x: Datum, y: Datum, fuel: nat) -> Result<
    (Real, Real),
    Failure,
>
    decreases fuel, 71nat, 0nat,
{
    match spec_as_real::<K>(ctx, x, fuel) {
        Err(e) => Err(e),
        Ok(a) => match spec_as_real::<K>(ctx, y, fuel) {
            Err(e) => Err(e),
            Ok(b) => Ok((a, b)),
        },
    }
}

/// Two parts of a complex number whose contents are under `tag`, got by
/// the generic operations `first` and `second`.
pub open spec fn spec_parts_by<K: RealKernel>(
    ctx: Tables<K>,
    tag: Seq<char>,
    first: Seq<char>,
    second: Seq<char>,
    x: Datum,
    fuel: nat,
) -> Result<(Datum, Datum), Failure>
    decreases fuel, 80nat, 0nat,
{
    let z = tagged(tag, x);
    match spec_unary::<K>(ctx, first, z, fuel) {
        Err(e) => Err(e),
        Ok(a) => match spec_unary::<K>(ctx, second, z, fuel) {
            Err(e) => Err(e),
            Ok(b) => Ok((a, b)),
        },
    }
}

/// The real and the imaginary part of a rectangular form.
pub open spec fn spec_rect_parts<K: RealKernel>(ctx: Tables<K>, x: Datum, fuel: nat) -> Result<
    (Datum, Datum),
    Failure,
>
    decreases fuel, 81nat, 0nat,
{
    spec_parts_by::<K>(ctx, rectangular_tag(), "real_part"@, "imag_part"@, x, fuel)
}

/// The magnitude and the angle of a polar form.
pub open spec fn spec_polar_parts<K: RealKernel>(ctx: Tables<K>, x: Datum, fuel: nat) -> Result<
    (Datum, Datum),
    Failure,
>
    decreases fuel, 81nat, 0nat,
{
    spec_parts_by::<K>(ctx, polar_tag(), "magnitude"@, "angle"@, x, fuel)
}

/// Whether a value is of the tower below the complex numbers.
pub open spec fn below_complex(x: Datum) -> bool {
    in_tower(x) && !has_tag(x, complex_tag())
}

/// The magnitude of a rectangular form whose parts are below the complex
/// numbers: the square root of the sum of their squares, brought down the
/// tower as far as nothing is lost.
pub open spec fn spec_rect_magnitude<K: RealKernel>(ctx: Tables<K>, args: Datum, fuel: nat) -> Outcome
    decreases fuel, 90nat, 0nat,
{
    match one(args) {
        None => Err(Failure::BadArgument),
        Some(x) => match spec_rect_parts::<K>(ctx, x, fuel) {
            Err(e) => Err(e),
            Ok(p) => if below_complex(p.0) && below_complex(p.1) {
                match spec_binary::<K>(ctx, "mul"@, p.0, p.0, fuel) {
                    Err(e) => Err(e),
                    Ok(r2) => match spec_binary::<K>(ctx, "mul"@, p.1, p.1, fuel) {
                        Err(e) => Err(e),
                        Ok(i2) => match spec_binary::<K>(ctx, "add"@, r2, i2, fuel) {
                            Err(e) => Err(e),
                            Ok(sum) => match spec_sqrt::<K>(ctx, sum, fuel) {
                                Err(e) => Err(e),
                                Ok(root) => spec_drop::<K>(ctx, root, fuel),
                            },
                        },
                    },
                }
            } else {
                Err(Failure::BadArgument)
            },
        },
    }
}

/// The angle of a rectangular form whose parts are below the complex
/// numbers.
pub open spec fn spec_rect_angle<K: RealKernel>(ctx: Tables<K>, args: Datum, fuel: nat) -> Outcome
    decreases fuel, 90nat, 0nat,
{
    match one(args) {
        None => Err(Failure::BadArgument),
        Some(x) => match spec_rect_parts::<K>(ctx, x, fuel) {
            Err(e) => Err(e),
            Ok(p) => match spec_two_reals::<K>(ctx, p.0, p.1, fuel) {
                Err(e) => Err(e),
                Ok((r, i)) => Ok(real_datum(ctx.kernel.arc_tangent(i, r))),
            },
        },
    }
}

/// Two forms of one kind are equal where their first parts are and their
/// second parts are.
pub open spec fn spec_form_equal<K: RealKernel>(
    ctx: Tables<K>,
    tag: Seq<char>,
    first: Seq<char>,
    second: Seq<char>,
    args: Datum,
    fuel: nat,
) -> Outcome
    decreases fuel, 90nat, 0nat,
{
    match two(args) {
        None => Err(Failure::BadArgument),
        Some((x, y)) => match spec_parts_by::<K>(ctx, tag, first, second, x, fuel) {
            Err(e) => Err(e),
            Ok(px) => match spec_parts_by::<K>(ctx, tag, first, second, y, fuel) {
                Err(e) => Err(e),
                Ok(py) => spec_both_equal::<K>(ctx, px.0, py.0, px.1, py.1, fuel),
            },
        },
    }
}

/// Whether a value is zero, and then another too; the second is asked
/// only where the first is zero.
pub open spec fn spec_both_zero<K: RealKernel>(ctx: Tables<K>, x: Datum, y: Datum, fuel: nat) -> Outcome
    decreases fuel, 80nat, 0nat,
{
    match spec_unary::<K>(ctx, "is_equal_to_zero"@, x, fuel) {
        Err(e) => Err(e),
        Ok(first) => if first == bool_datum(true) {
            match spec_unary::<K>(ctx, "is_equal_to_zero"@, y, fuel) {
                Err(e) => Err(e),
                Ok(second) => Ok(bool_datum(second == bool_datum(true))),
            }
        } else {
            Ok(bool_datum(false))
        },
    }
}

/// A rectangular form is zero where both parts are.
pub open spec fn spec_rect_is_zero<K: RealKernel>(ctx: Tables<K>, args: Datum, fuel: nat) -> Outcome
    decreases fuel, 90nat, 0nat,
{
    match one(args) {
        None => Err(Failure::BadArgument),
        Some(x) => match spec_rect_parts::<K>(ctx, x, fuel) {
            Err(e) => Err(e),
            Ok(p) => spec_both_zero::<K>(ctx, p.0, p.1, fuel),
        },
    }
}

/// A polar form is zero where its magnitude is.
pub open spec fn spec_polar_is_zero<K: RealKernel>(ctx: Tables<K>, args: Datum, fuel: nat) -> Outcome
    decreases fuel, 90nat, 0nat,
{
    match one(args) {
        None => Err(Failure::BadArgument),
        Some(x) => match spec_polar_parts::<K>(ctx, x, fuel) {
            Err(e) => Err(e),
            Ok(p) => match spec_unary::<K>(ctx, "is_equal_to_zero"@, p.0, fuel) {
                Err(e) => Err(e),
                Ok(z) => Ok(bool_datum(z == bool_datum(true))),
            },
        },
    }
}

/// The real part of a polar form whose parts are below the complex
/// numbers.
pub open spec fn spec_polar_real_part<K: RealKernel>(ctx: Tables<K>, args: Datum, fuel: nat) -> Outcome
    decreases fuel, 90nat, 0nat,
{
    match one(args) {
        None => Err(Failure::BadArgument),
        Some(x) => match spec_polar_parts::<K>(ctx, x, fuel) {
            Err(e) => Err(e),
            Ok(p) => match spec_two_reals::<K>(ctx, p.0, p.1, fuel) {
                Err(e) => Err(e),
                Ok((m, a)) => Ok(real_datum(ctx.kernel.product(m, ctx.kernel.cosine(a)))),
            },
        },
    }
}

/// The imaginary part of a polar form whose parts are below the complex
/// numbers.
pub open spec fn spec_polar_imag_part<K: RealKernel>(ctx: Tables<K>, args: Datum, fuel: nat) -> Outcome
    decreases fuel, 90nat, 0nat,
{
    match one(args) {
        None => Err(Failure::BadArgument),
        Some(x) => match spec_polar_parts::<K>(ctx, x, fuel) {
            Err(e) => Err(e),
            Ok(p) => match spec_two_reals::<K>(ctx, p.0, p.1, fuel) {
                Err(e) => Err(e),
                Ok((m, a)) => Ok(real_datum(ctx.kernel.product(m, ctx.kernel.sine(a)))),
            },
        },
    }
}

/// A complex number made of two parts by the constructor `op` of the form
/// `form`, under the tag of the complex numbers.
pub open spec fn spec_complex_from<K: RealKernel>(
    ctx: Tables<K>,
    op: Seq<char>,
    form: Seq<char>,
    args: Datum,
    fuel: nat,
) -> Outcome
    decreases fuel, 90nat, 0nat,
{
    match two(args) {
        None => Err(Failure::BadArgument),
        Some((x, y)) => match spec_construct::<K>(ctx, op, form, list2(x, y), fuel) {
            Err(e) => Err(e),
            Ok(z) => Ok(tagged(complex_tag(), z)),
        },
    }
}

/// The complex number of real part `x` and imaginary part `y`, as the
/// constructor makes it.
pub open spec fn spec_make_complex_from_real_imag<K: RealKernel>(
    ctx: Tables<K>,
    x: Datum,
    y: Datum,
    fuel: nat,
) -> Outcome
    decreases fuel, 21nat, 0nat,
{
    spec_construct::<K>(ctx, "make_from_real_imag"@, complex_tag(), list2(x, y), fuel)
}

/// The complex number of magnitude `r` and angle `a`, as the constructor
/// makes it.
pub open spec fn spec_make_complex_from_mag_ang<K: RealKernel>(
    ctx: Tables<K>,
    r: Datum,
    a: Datum,
    fuel: nat,
) -> Outcome
    decreases fuel, 21nat, 0nat,
{
    spec_construct::<K>(ctx, "make_from_mag_ang"@, complex_tag(), list2(r, a), fuel)
}

/// Two parts of each of two values, got by the generic operations `first`
/// and `second`: both of the one, then both of the other.
pub open spec fn spec_four_by<K: RealKernel>(
    ctx: Tables<K>,
    first: Seq<char>,
    second: Seq<char>,
    args: Datum,
    fuel: nat,
) -> Result<(Datum, Datum, Datum, Datum), Failure>
    decreases fuel, 80nat, 0nat,
{
    match two(args) {
        None => Err(Failure::BadArgument),
        Some((z1, z2)) => match spec_unary::<K>(ctx, first, z1, fuel) {
            Err(e) => Err(e),
            Ok(a1) => match spec_unary::<K>(ctx, second, z1, fuel) {
                Err(e) => Err(e),
                Ok(b1) => match spec_unary::<K>(ctx, first, z2, fuel) {
                    Err(e) => Err(e),
                    Ok(a2) => match spec_unary::<K>(ctx, second, z2, fuel) {
                        Err(e) => Err(e),
                        Ok(b2) => Ok((a1, b1, a2, b2)),
                    },
                },
            },
        },
    }
}

/// The sum or the difference of two complex numbers: `op` on the real
/// parts and on the imaginary parts.
pub open spec fn spec_complex_by_parts<K: RealKernel>(
    ctx: Tables<K>,
    op: Seq<char>,
    args: Datum,
    fuel: nat,
) -> Outcome
    decreases fuel, 90nat, 0nat,
{
    match spec_four_by::<K>(ctx, "real_part"@, "imag_part"@, args, fuel) {
        Err(e) => Err(e),
        Ok(p) => match spec_binary::<K>(ctx, op, p.0, p.2, fuel) {
            Err(e) => Err(e),
            Ok(r) => match spec_binary::<K>(ctx, op, p.1, p.3, fuel) {
                Err(e) => Err(e),
                Ok(i) => spec_make_complex_from_real_imag::<K>(ctx, r, i, fuel),
            },
        },
    }
}

/// The product or the quotient of two complex numbers: `on_magnitudes` on
/// the magnitudes and `on_angles` on the angles.
pub open spec fn spec_complex_by_polar<K: RealKernel>(
    ctx: Tables<K>,
    on_magnitudes: Seq<char>,
    on_angles: Seq<char>,
    args: Datum,
    fuel: nat,
) -> Outcome
    decreases fuel, 90nat, 0nat,
{
    match spec_four_by::<K>(ctx, "magnitude"@, "angle"@, args, fuel) {
        Err(e) => Err(e),
        Ok(p) => match spec_binary::<K>(ctx, on_magnitudes, p.0, p.2, fuel) {
            Err(e) => Err(e),
            Ok(m) => match spec_binary::<K>(ctx, on_angles, p.1, p.3, fuel) {
                Err(e) => Err(e),
                Ok(a) => spec_make_complex_from_mag_ang::<K>(ctx, m, a, fuel),
            },
        },
    }
}

/// The opposite of a complex number: the opposites of both parts.
pub open spec fn spec_complex_negative<K: RealKernel>(ctx: Tables<K>, args: Datum, fuel: nat) -> Outcome
    decreases fuel, 90nat, 0nat,
{
    match one(args) {
        None => Err(Failure::BadArgument),
        Some(z) => match spec_unary::<K>(ctx, "real_part"@, z, fuel) {
            Err(e) => Err(e),
            Ok(r) => match spec_unary::<K>(ctx, "imag_part"@, z, fuel) {
                Err(e) => Err(e),
                Ok(i) => match spec_unary::<K>(ctx, "negative"@, r, fuel) {
                    Err(e) => Err(e),
                    Ok(nr) => match spec_unary::<K>(ctx, "negative"@, i, fuel) {
                        Err(e) => Err(e),
                        Ok(ni) => spec_make_complex_from_real_imag::<K>(ctx, nr, ni, fuel),
                    },
                },
            },
        },
    }
}

/// Equality of two complex numbers: that of their forms.
pub open spec fn spec_complex_equal<K: RealKernel>(ctx: Tables<K>, args: Datum, fuel: nat) -> Outcome
    decreases fuel, 90nat, 0nat,
{
    match two(args) {
        None => Err(Failure::BadArgument),
        Some((z1, z2)) => spec_binary::<K>(ctx, "is_equal"@, z1, z2, fuel),
    }
}

/// A generic operation handed on from a complex number to its form.
pub open spec fn spec_complex_forward<K: RealKernel>(
    ctx: Tables<K>,
    op: Seq<char>,
    args: Datum,
    fuel: nat,
) -> Outcome
    decreases fuel, 90nat, 0nat,
{
    match one(args) {
        None => Err(Failure::BadArgument),
        Some(z) => spec_unary::<K>(ctx, op, z, fuel),
    }
}

/// A complex number as the real that its real part is: an integer as the
/// nearest real, a rational number raised.
pub open spec fn spec_complex_project<K: RealKernel>(ctx: Tables<K>, args: Datum, fuel: nat) -> Outcome
    decreases fuel, 91nat, 0nat,
{
    match spec_complex_forward::<K>(ctx, "real_part"@, args, fuel) {
        Err(e) => Err(e),
        Ok(re) => if has_tag(re, integer_tag()) {
            match int_of(re) {
                None => Err(Failure::BadArgument),
                Some(i) => spec_make_float::<K>(ctx, ctx.kernel.of_int(i), fuel),
            }
        } else if has_tag(re, real_tag()) {
            match real_of(re) {
                None => Err(Failure::BadArgument),
                Some(x) => spec_make_float::<K>(ctx, x, fuel),
            }
        } else if has_tag(re, rational_tag()) {
            match spec_raise::<K>(ctx, re, fuel) {
                Err(e) => Err(e),
                Ok(up) => match real_of(up) {
                    None => Err(Failure::BadArgument),
                    Some(x) => spec_make_float::<K>(ctx, x, fuel),
                },
            }
        } else {
            Err(Failure::NoResult)
        },
    }
}

fn pair_of_arg(args: &List) -> (r: Result<(&List, &List), ArithError>)
    ensures
        match r {
            Ok(p) => pair_parts(args@) == Some((p.0@, p.1@)),
            Err(e) => pair_parts(args@) is None && e@ == Failure::BadArgument,
        },
{
    match first_of(args) {
        Some(x) => {
            if x.is_pair() {
                Ok((x.head(), x.tail()))
            } else {
                Err(ArithError::BadArgument)
            }
        },
        None => Err(ArithError::BadArgument),
    }
}

fn reals_of(x: &List, y: &List) -> (r: Result<(Real, Real), ArithError>)
    ensures
        match r {
            Ok(p) => both_reals(x@, y@) == Some(p),
            Err(e) => both_reals(x@, y@) is None && e@ == Failure::BadArgument,
        },
{
    match (real_in(x), real_in(y)) {
        (Some(a), Some(b)) => Ok((a, b)),
        _ => Err(ArithError::BadArgument),
    }
}

fn as_real<K: RealKernel>(arith: &ArithmeticContext<K>, x: &List, fuel: usize) -> (r: Result<
    Real,
    ArithError,
>)
    ensures
        match r {
            Ok(v) => spec_as_real::<K>(arith@, x@, fuel as nat) == Ok::<Real, Failure>(v),
            Err(e) => spec_as_real::<K>(arith@, x@, fuel as nat) == Err::<Real, Failure>(e@),
        },
    decreases fuel, 70nat, 0nat,
{
    if is_tagged(x, "integer") {
        match integer_of(x) {
            None => Err(ArithError::BadArgument),
            Some(i) => Ok(arith.kernel.from_int(i)),
        }
    } else if is_tagged(x, "real") {
        match real_in(x) {
            None => Err(ArithError::BadArgument),
            Some(r) => Ok(r),
        }
    } else if is_tagged(x, "rational") {
        let up = arith.raise_at(x, fuel)?;
        match real_in(&up) {
            None => Err(ArithError::BadArgument),
            Some(r) => Ok(r),
        }
    } else {
        Err(ArithError::BadArgument)
    }
}

fn two_as_reals<K: RealKernel>(arith: &ArithmeticContext<K>, x: &List, y: &List, fuel: usize) -> (r:
    Result<(Real, Real), ArithError>)
    ensures
        match r {
            Ok(v) => spec_two_reals::<K>(arith@, x@, y@, fuel as nat) == Ok::<
                (Real, Real),
                Failure,
            >(v),
            Err(e) => spec_two_reals::<K>(arith@, x@, y@, fuel as nat) == Err::<
                (Real, Real),
                Failure,
            >(e@),
        },
    decreases fuel, 71nat, 0nat,
{
    let a = as_real(arith, x, fuel)?;
    let b = as_real(arith, y, fuel)?;
    Ok((a, b))
}

/// The pair of two arguments under `tag`.
pub fn pair_under(tag: &str, args: &List) -> (r: Result<List, ArithError>)
    ensures
        outcome(r) == spec_pair_under(tag@, args@),
{
    match first_two(args) {
        None => Err(ArithError::BadArgument),
        Some((x, y)) => Ok(attach_tag(tag, &List::pair(x.clone(), y.clone()))),
    }
}

/// The first part of the contents of a complex number in either form.
pub fn first_part(args: &List) -> (r: Result<List, ArithError>)
    ensures
        outcome(r) == spec_first_part(args@),
{
    let (a, _) = pair_of_arg(args)?;
    Ok(a.clone())
}

/// The second part of the contents of a complex number in either form.
pub fn second_part(args: &List) -> (r: Result<List, ArithError>)
    ensures
        outcome(r) == spec_second_part(args@),
{
    let (_, b) = pair_of_arg(args)?;
    Ok(b.clone())
}

/// The rectangular form of the complex number of magnitude `r` and angle
/// `a`, both reals.
pub fn rect_from_mag_ang<K: RealKernel>(arith: &ArithmeticContext<K>, args: &List) -> (r: Result<
    List,
    ArithError,
>)
    ensures
        outcome(r) == spec_rect_from_mag_ang::<K>(arith@, args@),
{
    let (r, a) = match first_two(args) {
        Some(v) => v,
        None => {
            return Err(ArithError::BadArgument);
        },
    };
    let (m, t) = reals_of(r, a)?;
    let re = arith.kernel.mul(m, arith.kernel.cos(t));
    let im = arith.kernel.mul(m, arith.kernel.sin(t));
    Ok(attach_tag("rectangular", &List::pair(real_leaf(re), real_leaf(im))))
}

/// The polar form of the complex number of real part `r` and imaginary
/// part `i`, both reals.
pub fn polar_from_real_imag<K: RealKernel>(arith: &ArithmeticContext<K>, args: &List) -> (r:
    Result<List, ArithError>)
    ensures
        outcome(r) == spec_polar_from_real_imag::<K>(arith@, args@),
{
    let (r, i) = match first_two(args) {
        Some(v) => v,
        None => {
            return Err(ArithError::BadArgument);
        },
    };
    let (x, y) = reals_of(r, i)?;
    let squares = arith.kernel.add(arith.kernel.mul(x, x), arith.kernel.mul(y, y));
    let m = arith.kernel.sqrt(squares);
    let a = arith.kernel.atan2(y, x);
    Ok(attach_tag("polar", &List::pair(real_leaf(m), real_leaf(a))))
}

fn form_parts_of(tag: &str, args: &List) -> (r: Result<List, ArithError>)
    ensures
        match r {
            Ok(l) => form_parts(tag@, args@) matches Some(p) && l@ == list2(p.0, p.1),
            Err(e) => form_parts(tag@, args@) is None && e@ == Failure::BadArgument,
        },
{
    match first_of(args) {
        Some(z) => {
            if z.is_pair() && z.head().is_text(tag) && z.tail().is_pair() {
                let parts = z.tail();
                Ok(
                    List::pair(
                        parts.head().clone(),
                        List::pair(parts.tail().clone(), List::Nil),
                    ),
                )
            } else {
                Err(ArithError::BadArgument)
            }
        },
        None => Err(ArithError::BadArgument),
    }
}

/// A rectangular form, with its tag, as the polar form of the same
/// number.
pub fn rect_to_polar<K: RealKernel>(arith: &ArithmeticContext<K>, args: &List) -> (r: Result<
    List,
    ArithError,
>)
    ensures
        outcome(r) == spec_rect_to_polar::<K>(arith@, args@),
{
    let parts = form_parts_of("rectangular", args)?;
    polar_from_real_imag(arith, &parts)
}

/// A polar form, with its tag, as the rectangular form of the same
/// number.
pub fn polar_to_rect<K: RealKernel>(arith: &ArithmeticContext<K>, args: &List) -> (r: Result<
    List,
    ArithError,
>)
    ensures
        outcome(r) == spec_polar_to_rect::<K>(arith@, args@),
{
    let parts = form_parts_of("polar", args)?;
    rect_from_mag_ang(arith, &parts)
}

fn parts_by<K: RealKernel>(
    arith: &ArithmeticContext<K>,
    tag: &str,
    first: &str,
    second: &str,
    x: &List,
    fuel: usize,
) -> (r: Result<(List, List), ArithError>)
    ensures
        outcome2(r) == spec_parts_by::<K>(arith@, tag@, first@, second@, x@, fuel as nat),
    decreases fuel, 80nat, 0nat,
{
    let z = attach_tag(tag, x);
    let a = arith.unary_at(first, &z, fuel)?;
    let b = arith.unary_at(second, &z, fuel)?;
    Ok((a, b))
}

fn rect_parts<K: RealKernel>(arith: &ArithmeticContext<K>, x: &List, fuel: usize) -> (r: Result<
    (List, List),
    ArithError,
>)
    ensures
        outcome2(r) == spec_rect_parts::<K>(arith@, x@, fuel as nat),
    decreases fuel, 81nat, 0nat,
{
    parts_by(arith, "rectangular", "real_part", "imag_part", x, fuel)
}

fn polar_parts<K: RealKernel>(arith: &ArithmeticContext<K>, x: &List, fuel: usize) -> (r: Result<
    (List, List),
    ArithError,
>)
    ensures
        outcome2(r) == spec_polar_parts::<K>(arith@, x@, fuel as nat),
    decreases fuel, 81nat, 0nat,
{
    parts_by(arith, "polar", "magnitude", "angle", x, fuel)
}

fn is_below_complex(x: &List) -> (r: bool)
    ensures
        r == below_complex(x@),
{
    is_basis_arithmetic_type(x) && !is_tagged(x, "complex")
}

/// The magnitude of a rectangular form whose parts are below the complex
/// numbers: the square root of the sum of their squares, brought down the
/// tower as far as nothing is lost.
pub fn rect_magnitude<K: RealKernel>(arith: &ArithmeticContext<K>, args: &List, fuel: usize) -> (r:
    Result<List, ArithError>)
    ensures
        outcome(r) == spec_rect_magnitude::<K>(arith@, args@, fuel as nat),
    decreases fuel, 90nat, 0nat,
{
    let x = match first_of(args) {
        Some(x) => x,
        None => {
            return Err(ArithError::BadArgument);
        },
    };
    let (re, im) = rect_parts(arith, x, fuel)?;
    if is_below_complex(&re) && is_below_complex(&im) {
        let r2 = arith.binary_at("mul", &re, &re, fuel)?;
        let i2 = arith.binary_at("mul", &im, &im, fuel)?;
        let sum = arith.binary_at("add", &r2, &i2, fuel)?;
        let root = arith.sqrt_at(&sum, fuel)?;
        arith.drop_to_type_at(&root, "integer", fuel)
    } else {
        Err(ArithError::BadArgument)
    }
}

/// The angle of a rectangular form whose parts are below the complex
/// numbers.
pub fn rect_angle<K: RealKernel>(arith: &ArithmeticContext<K>, args: &List, fuel: usize) -> (r:
    Result<List, ArithError>)
    ensures
        outcome(r) == spec_rect_angle::<K>(arith@, args@, fuel as nat),
    decreases fuel, 90nat, 0nat,
{
    let x = match first_of(args) {
        Some(x) => x,
        None => {
            return Err(ArithError::BadArgument);
        },
    };
    let (re, im) = rect_parts(arith, x, fuel)?;
    let (r, i) = two_as_reals(arith, &re, &im, fuel)?;
    Ok(real_leaf(arith.kernel.atan2(i, r)))
}

/// Two forms of one kind are equal where their first parts are and their
/// second parts are.
pub fn form_equal<K: RealKernel>(
    arith: &ArithmeticContext<K>,
    tag: &str,
    first: &str,
    second: &str,
    args: &List,
    fuel: usize,
) -> (r: Result<List, ArithError>)
    ensures
        outcome(r) == spec_form_equal::<K>(arith@, tag@, first@, second@, args@, fuel as nat),
    decreases fuel, 90nat, 0nat,
{
    let (x, y) = match first_two(args) {
        Some(v) => v,
        None => {
            return Err(ArithError::BadArgument);
        },
    };
    let (ax, bx) = parts_by(arith, tag, first, second, x, fuel)?;
    let (ay, by) = parts_by(arith, tag, first, second, y, fuel)?;
    both_equal(arith, &ax, &ay, &bx, &by, fuel)
}

fn both_zero<K: RealKernel>(arith: &ArithmeticContext<K>, x: &List, y: &List, fuel: usize) -> (r:
    Result<List, ArithError>)
    ensures
        outcome(r) == spec_both_zero::<K>(arith@, x@, y@, fuel as nat),
    decreases fuel, 80nat, 0nat,
{
    let first = arith.unary_at("is_equal_to_zero", x, fuel)?;
    if first.is_true() {
        let second = arith.unary_at("is_equal_to_zero", y, fuel)?;
        Ok(List::truth(second.is_true()))
    } else {
        Ok(List::truth(false))
    }
}

/// A rectangular form is zero where both parts are.
pub fn rect_is_zero<K: RealKernel>(arith: &ArithmeticContext<K>, args: &List, fuel: usize) -> (r:
    Result<List, ArithError>)
    ensures
        outcome(r) == spec_rect_is_zero::<K>(arith@, args@, fuel as nat),
    decreases fuel, 90nat, 0nat,
{
    let x = match first_of(args) {
        Some(x) => x,
        None => {
            return Err(ArithError::BadArgument);
        },
    };
    let (re, im) = rect_parts(arith, x, fuel)?;
    both_zero(arith, &re, &im, fuel)
}

/// A polar form is zero where its magnitude is.
pub fn polar_is_zero<K: RealKernel>(arith: &ArithmeticContext<K>, args: &List, fuel: usize) -> (r:
    Result<List, ArithError>)
    ensures
        outcome(r) == spec_polar_is_zero::<K>(arith@, args@, fuel as nat),
    decreases fuel, 90nat, 0nat,
{
    let x = match first_of(args) {
        Some(x) => x,
        None => {
            return Err(ArithError::BadArgument);
        },
    };
    let (m, _) = polar_parts(arith, x, fuel)?;
    let z = arith.unary_at("is_equal_to_zero", &m, fuel)?;
    Ok(List::truth(z.is_true()))
}

/// The real part of a polar form whose parts are below the complex
/// numbers.
pub fn polar_real_part<K: RealKernel>(arith: &ArithmeticContext<K>, args: &List, fuel: usize) -> (r:
    Result<List, ArithError>)
    ensures
        outcome(r) == spec_polar_real_part::<K>(arith@, args@, fuel as nat),
    decreases fuel, 90nat, 0nat,
{
    let x = match first_of(args) {
        Some(x) => x,
        None => {
            return Err(ArithError::BadArgument);
        },
    };
    let (mag, ang) = polar_parts(arith, x, fuel)?;
    let (m, a) = two_as_reals(arith, &mag, &ang, fuel)?;
    Ok(real_leaf(arith.kernel.mul(m, arith.kernel.cos(a))))
}

/// The imaginary part of a polar form whose parts are below the complex
/// numbers.
pub fn polar_imag_part<K: RealKernel>(arith: &ArithmeticContext<K>, args: &List, fuel: usize) -> (r:
    Result<List, ArithError>)
    ensures
        outcome(r) == spec_polar_imag_part::<K>(arith@, args@, fuel as nat),
    decreases fuel, 90nat, 0nat,
{
    let x = match first_of(args) {
        Some(x) => x,
        None => {
            return Err(ArithError::BadArgument);
        },
    };
    let (mag, ang) = polar_parts(arith, x, fuel)?;
    let (m, a) = two_as_reals(arith, &mag, &ang, fuel)?;
    Ok(real_leaf(arith.kernel.mul(m, arith.kernel.sin(a))))
}

/// A complex number made of two parts by the constructor `op` of the form
/// `form`, under the tag of the complex numbers.
pub fn complex_from<K: RealKernel>(
    arith: &ArithmeticContext<K>,
    op: &str,
    form: &str,
    args: &List,
    fuel: usize,
) -> (r: Result<List, ArithError>)
    ensures
        outcome(r) == spec_complex_from::<K>(arith@, op@, form@, args@, fuel as nat),
    decreases fuel, 90nat, 0nat,
{
    let (x, y) = match first_two(args) {
        Some(v) => v,
        None => {
            return Err(ArithError::BadArgument);
        },
    };
    let z = arith.construct_at(
        op,
        form,
        List::pair(x.clone(), List::pair(y.clone(), List::Nil)),
        fuel,
    )?;
    Ok(attach_tag("complex", &z))
}

/// Makes a complex number of a real and an imaginary part, with calls
/// nested at most `fuel` deep.
pub fn make_complex_from_real_imag_at<K: RealKernel>(
    x: List,
    y: List,
    arith: &ArithmeticContext<K>,
    fuel: usize,
) -> (r: Result<List, ArithError>)
    ensures
        outcome(r) == spec_make_complex_from_real_imag::<K>(arith@, x@, y@, fuel as nat),
    decreases fuel, 21nat, 0nat,
{
    arith.construct_at(
        "make_from_real_imag",
        "complex",
        List::pair(x, List::pair(y, List::Nil)),
        fuel,
    )
}

/// Makes a complex number of a magnitude and an angle, with calls nested
/// at most `fuel` deep.
pub fn make_complex_from_mag_ang_at<K: RealKernel>(
    r: List,
    a: List,
    arith: &ArithmeticContext<K>,
    fuel: usize,
) -> (z: Result<List, ArithError>)
    ensures
        outcome(z) == spec_make_complex_from_mag_ang::<K>(arith@, r@, a@, fuel as nat),
    decreases fuel, 21nat, 0nat,
{
    arith.construct_at(
        "make_from_mag_ang",
        "complex",
        List::pair(r, List::pair(a, List::Nil)),
        fuel,
    )
}

fn four_by<K: RealKernel>(
    arith: &ArithmeticContext<K>,
    first: &str,
    second: &str,
    args: &List,
    fuel: usize,
) -> (r: Result<(List, List, List, List), ArithError>)
    ensures
        match r {
            Ok(p) => spec_four_by::<K>(arith@, first@, second@, args@, fuel as nat) == Ok::<
                (Datum, Datum, Datum, Datum),
                Failure,
            >((p.0@, p.1@, p.2@, p.3@)),
            Err(e) => spec_four_by::<K>(arith@, first@, second@, args@, fuel as nat) == Err::<
                (Datum, Datum, Datum, Datum),
                Failure,
            >(e@),
        },
    decreases fuel, 80nat, 0nat,
{
    let (z1, z2) = match first_two(args) {
        Some(v) => v,
        None => {
            return Err(ArithError::BadArgument);
        },
    };
    let a1 = arith.unary_at(first, z1, fuel)?;
    let b1 = arith.unary_at(second, z1, fuel)?;
    let a2 = arith.unary_at(first, z2, fuel)?;
    let b2 = arith.unary_at(second, z2, fuel)?;
    Ok((a1, b1, a2, b2))
}

/// The sum or the difference of two complex numbers: `op` on the real
/// parts and on the imaginary parts.
pub fn complex_by_parts<K: RealKernel>(
    arith: &ArithmeticContext<K>,
    op: &str,
    args: &List,
    fuel: usize,
) -> (r: Result<List, ArithError>)
    ensures
        outcome(r) == spec_complex_by_parts::<K>(arith@, op@, args@, fuel as nat),
    decreases fuel, 90nat, 0nat,
{
    let (r1, i1, r2, i2) = four_by(arith, "real_part", "imag_part", args, fuel)?;
    let r = arith.binary_at(op, &r1, &r2, fuel)?;
    let i = arith.binary_at(op, &i1, &i2, fuel)?;
    make_complex_from_real_imag_at(r, i, arith, fuel)
}

/// The product or the quotient of two complex numbers: `on_magnitudes` on
/// the magnitudes and `on_angles` on the angles.
pub fn complex_by_polar<K: RealKernel>(
    arith: &ArithmeticContext<K>,
    on_magnitudes: &str,
    on_angles: &str,
    args: &List,
    fuel: usize,
) -> (r: Result<List, ArithError>)
    ensures
        outcome(r) == spec_complex_by_polar::<K>(
            arith@,
            on_magnitudes@,
            on_angles@,
            args@,
            fuel as nat,
        ),
    decreases fuel, 90nat, 0nat,
{
    let (m1, a1, m2, a2) = four_by(arith, "magnitude", "angle", args, fuel)?;
    let m = arith.binary_at(on_magnitudes, &m1, &m2, fuel)?;
    let a = arith.binary_at(on_angles, &a1, &a2, fuel)?;
    make_complex_from_mag_ang_at(m, a, arith, fuel)
}

/// The opposite of a complex number: the opposites of both parts.
pub fn complex_negative<K: RealKernel>(arith: &ArithmeticContext<K>, args: &List, fuel: usize) -> (r:
    Result<List, ArithError>)
    ensures
        outcome(r) == spec_complex_negative::<K>(arith@, args@, fuel as nat),
    decreases fuel, 90nat, 0nat,
{
    let z = match first_of(args) {
        Some(z) => z,
        None => {
            return Err(ArithError::BadArgument);
        },
    };
    let r = arith.unary_at("real_part", z, fuel)?;
    let i = arith.unary_at("imag_part", z, fuel)?;
    let nr = arith.unary_at("negative", &r, fuel)?;
    let ni = arith.unary_at("negative", &i, fuel)?;
    make_complex_from_real_imag_at(nr, ni, arith, fuel)
}

/// Equality of two complex numbers: that of their forms.
pub fn complex_equal<K: RealKernel>(arith: &ArithmeticContext<K>, args: &List, fuel: usize) -> (r:
    Result<List, ArithError>)
    ensures
        outcome(r) == spec_complex_equal::<K>(arith@, args@, fuel as nat),
    decreases fuel, 90nat, 0nat,
{
    match first_two(args) {
        None => Err(ArithError::BadArgument),
        Some((z1, z2)) => arith.binary_at("is_equal", z1, z2, fuel),
    }
}

/// A generic operation handed on from a complex number to its form.
pub fn complex_forward<K: RealKernel>(
    arith: &ArithmeticContext<K>,
    op: &str,
    args: &List,
    fuel: usize,
) -> (r: Result<List, ArithError>)
    ensures
        outcome(r) == spec_complex_forward::<K>(arith@, op@, args@, fuel as nat),
    decreases fuel, 90nat, 0nat,
{
    match first_of(args) {
        None => Err(ArithError::BadArgument),
        Some(z) => arith.unary_at(op, z, fuel),
    }
}

/// A complex number as the real that its real part is: an integer as the
/// nearest real, a rational number raised.
pub fn complex_project<K: RealKernel>(arith: &ArithmeticContext<K>, args: &List, fuel: usize) -> (r:
    Result<List, ArithError>)
    ensures
        outcome(r) == spec_complex_project::<K>(arith@, args@, fuel as nat),
    decreases fuel, 91nat, 0nat,
{
    let re = complex_forward(arith, "real_part", args, fuel)?;
    if is_tagged(&re, "integer") {
        match integer_of(&re) {
            None => Err(ArithError::BadArgument),
            Some(i) => make_float_at(arith.kernel.from_int(i), arith, fuel),
        }
    } else if is_tagged(&re, "real") {
        match real_in(&re) {
            None => Err(ArithError::BadArgument),
            Some(x) => make_float_at(x, arith, fuel),
        }
    } else if is_tagged(&re, "rational") {
        let up = arith.raise_at(&re, fuel)?;
        match real_in(&up) {
            None => Err(ArithError::BadArgument),
            Some(x) => make_float_at(x, arith, fuel),
        }
    } else {
        Err(ArithError::NoResult)
    }
}

} // verus!
