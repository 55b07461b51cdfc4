//! Generic dispatch: applying an operation to tagged values through the
//! operation table, the tower of numeric types and the coercions.
use vstd::prelude::*;
use crate::context::{
    coercion_at, first_of, first_two, list1, list2, one, procedure_at, two, ArithmeticContext,
    Tables,
};
use crate::error::{outcome, outcome2, ArithError, Failure, Outcome};
use crate::kernel::RealKernel;
use crate::list::{bool_datum, cons, text_datum, Datum, List};
use crate::complex;
use crate::division;
use crate::numbers;
use crate::poly;
use crate::rational;
use crate::reals;
use crate::terms;
use crate::procedure::Primitive;
use crate::tags::{
    complex_tag, contents, contents_of, has_tag, in_tower, integer_tag, is_basis_arithmetic_type,
    is_tagged, tag_of, tag_place, tower_index, tower_place, type_tag,
};

verus! {

/// The argument list as dispatch takes it: where the first argument is
/// itself a list of pairs, the arguments are taken one level out of their
/// lists.
pub open spec fn normalized(args: Datum) -> Datum {
    if args is Cons && args.head() is Cons && args.head().head() is Cons {
        args.flatten()
    } else {
        args
    }
}

/// The type tags of the arguments, in their order.
pub open spec fn signature(args: Datum) -> Result<Datum, Failure>
    decreases args,
{
    match args {
        Datum::Nil => Ok(Datum::Nil),
        Datum::Cons(a, rest) => match tag_of(*a) {
            Err(e) => Err(e),
            Ok(t) => match signature(*rest) {
                Err(e) => Err(e),
                Ok(ts) => Ok(cons(t, ts)),
            },
        },
        Datum::V(_) => tag_of(args),
    }
}

/// The contents of the arguments, in their order.
pub open spec fn stripped(args: Datum) -> Result<Datum, Failure>
    decreases args,
{
    match args {
        Datum::Nil => Ok(Datum::Nil),
        Datum::Cons(a, rest) => match contents_of(*a) {
            Err(e) => Err(e),
            Ok(c) => match stripped(*rest) {
                Err(e) => Err(e),
                Ok(cs) => Ok(cons(c, cs)),
            },
        },
        Datum::V(_) => contents_of(args),
    }
}

/// The two items of a list of exactly two.
pub open spec fn exactly_two(d: Datum) -> Option<(Datum, Datum)> {
    if d is Cons && d.tail() is Cons && d.tail().tail() is Nil {
        Some((d.head(), d.tail().head()))
    } else {
        None
    }
}

/// The failure of an operation for which nothing is registered.
pub open spec fn no_method(op: Datum, args: Datum) -> Outcome {
    Err(Failure::NoMethod { op, args })
}

/// What applying the procedure `p` to `args` gives.
pub open spec fn spec_call<K: RealKernel>(ctx: Tables<K>, p: Primitive, args: Datum, fuel: nat) -> Outcome
    decreases fuel, 100nat, 0nat,
{
    match p {
        Primitive::Identity => match one(args) {
            Some(x) => Ok(x),
            None => Err(Failure::BadArgument),
        },
        Primitive::IntegerAdd => numbers::spec_integer_add::<K>(ctx, args, fuel),
        Primitive::IntegerSub => numbers::spec_integer_sub::<K>(ctx, args, fuel),
        Primitive::IntegerMul => numbers::spec_integer_mul::<K>(ctx, args, fuel),
        Primitive::IntegerDiv => numbers::spec_integer_div::<K>(ctx, args, fuel),
        Primitive::IntegerEqual => numbers::spec_integer_equal(args),
        Primitive::IntegerIsZero => numbers::spec_integer_is_zero(args),
        Primitive::IntegerNegative => numbers::spec_integer_negative::<K>(ctx, args, fuel),
        Primitive::IntegerAbs => numbers::spec_integer_abs::<K>(ctx, args, fuel),
        Primitive::IntegerMake => numbers::spec_integer_make(args),
        Primitive::IntegerRaise => numbers::spec_integer_raise::<K>(ctx, args, fuel),
        Primitive::IntegerSqrt => reals::spec_integer_sqrt::<K>(ctx, args, fuel),
        Primitive::RealAdd => reals::spec_real_add::<K>(ctx, args, fuel),
        Primitive::RealSub => reals::spec_real_sub::<K>(ctx, args, fuel),
        Primitive::RealMul => reals::spec_real_mul::<K>(ctx, args, fuel),
        Primitive::RealDiv => reals::spec_real_div::<K>(ctx, args, fuel),
        Primitive::RealEqual => reals::spec_real_equal::<K>(ctx, args),
        Primitive::RealIsZero => reals::spec_real_is_zero::<K>(ctx, args),
        Primitive::RealNegative => reals::spec_real_negative::<K>(ctx, args, fuel),
        Primitive::RealAbs => reals::spec_real_abs::<K>(ctx, args, fuel),
        Primitive::RealMake => reals::spec_real_make(args),
        Primitive::RealRaise => reals::spec_real_raise::<K>(ctx, args, fuel),
        Primitive::RealProject => reals::spec_real_project::<K>(ctx, args, fuel),
        Primitive::RealSqrt => reals::spec_real_sqrt::<K>(ctx, args, fuel),
        Primitive::RationalMake => rational::spec_rational_make::<K>(ctx, args, fuel),
        Primitive::RationalNumer => rational::spec_rational_numer(args),
        Primitive::RationalDenom => rational::spec_rational_denom(args),
        Primitive::RationalAdd => rational::spec_rational_add::<K>(ctx, args, fuel),
        Primitive::RationalSub => rational::spec_rational_sub::<K>(ctx, args, fuel),
        Primitive::RationalMul => rational::spec_rational_mul::<K>(ctx, args, fuel),
        Primitive::RationalDiv => rational::spec_rational_div::<K>(ctx, args, fuel),
        Primitive::RationalEqual => rational::spec_rational_equal::<K>(ctx, args, fuel),
        Primitive::RationalIsZero => rational::spec_rational_is_zero::<K>(ctx, args, fuel),
        Primitive::RationalNegative => rational::spec_rational_negative::<K>(ctx, args, fuel),
        Primitive::RationalRaise => rational::spec_rational_raise::<K>(ctx, args, fuel),
        Primitive::RationalProject => rational::spec_rational_project::<K>(ctx, args, fuel),
        Primitive::RationalSqrt => rational::spec_rational_sqrt::<K>(ctx, args, fuel),
        Primitive::RectFromRealImag => complex::spec_pair_under(complex::rectangular_tag(), args),
        Primitive::RectFromMagAng => complex::spec_rect_from_mag_ang::<K>(ctx, args),
        Primitive::RectRealPart => complex::spec_first_part(args),
        Primitive::RectImagPart => complex::spec_second_part(args),
        Primitive::RectMagnitude => complex::spec_rect_magnitude::<K>(ctx, args, fuel),
        Primitive::RectAngle => complex::spec_rect_angle::<K>(ctx, args, fuel),
        Primitive::RectEqual => complex::spec_form_equal::<K>(
            ctx,
            complex::rectangular_tag(),
            "real_part"@,
            "imag_part"@,
            args,
            fuel,
        ),
        Primitive::RectIsZero => complex::spec_rect_is_zero::<K>(ctx, args, fuel),
        Primitive::PolarFromMagAng => complex::spec_pair_under(complex::polar_tag(), args),
        Primitive::PolarFromRealImag => complex::spec_polar_from_real_imag::<K>(ctx, args),
        Primitive::PolarMagnitude => complex::spec_first_part(args),
        Primitive::PolarAngle => complex::spec_second_part(args),
        Primitive::PolarRealPart => complex::spec_polar_real_part::<K>(ctx, args, fuel),
        Primitive::PolarImagPart => complex::spec_polar_imag_part::<K>(ctx, args, fuel),
        Primitive::PolarEqual => complex::spec_form_equal::<K>(
            ctx,
            complex::polar_tag(),
            "magnitude"@,
            "angle"@,
            args,
            fuel,
        ),
        Primitive::PolarIsZero => complex::spec_polar_is_zero::<K>(ctx, args, fuel),
        Primitive::RectToPolar => complex::spec_rect_to_polar::<K>(ctx, args),
        Primitive::PolarToRect => complex::spec_polar_to_rect::<K>(ctx, args),
        Primitive::ComplexFromRealImag => complex::spec_complex_from::<K>(
            ctx,
            "make_from_real_imag"@,
            complex::rectangular_tag(),
            args,
            fuel,
        ),
        Primitive::ComplexFromMagAng => complex::spec_complex_from::<K>(
            ctx,
            "make_from_mag_ang"@,
            complex::polar_tag(),
            args,
            fuel,
        ),
        Primitive::ComplexAdd => complex::spec_complex_by_parts::<K>(ctx, "add"@, args, fuel),
        Primitive::ComplexSub => complex::spec_complex_by_parts::<K>(ctx, "sub"@, args, fuel),
        Primitive::ComplexMul => complex::spec_complex_by_polar::<K>(
            ctx,
            "mul"@,
            "add"@,
            args,
            fuel,
        ),
        Primitive::ComplexDiv => complex::spec_complex_by_polar::<K>(
            ctx,
            "div"@,
            "sub"@,
            args,
            fuel,
        ),
        Primitive::ComplexNegative => complex::spec_complex_negative::<K>(ctx, args, fuel),
        Primitive::ComplexEqual => complex::spec_complex_equal::<K>(ctx, args, fuel),
        Primitive::ComplexIsZero => complex::spec_complex_forward::<K>(
            ctx,
            "is_equal_to_zero"@,
            args,
            fuel,
        ),
        Primitive::ComplexRealPart => complex::spec_complex_forward::<K>(
            ctx,
            "real_part"@,
            args,
            fuel,
        ),
        Primitive::ComplexImagPart => complex::spec_complex_forward::<K>(
            ctx,
            "imag_part"@,
            args,
            fuel,
        ),
        Primitive::ComplexMagnitude => complex::spec_complex_forward::<K>(
            ctx,
            "magnitude"@,
            args,
            fuel,
        ),
        Primitive::ComplexAngle => complex::spec_complex_forward::<K>(ctx, "angle"@, args, fuel),
        Primitive::ComplexProject => complex::spec_complex_project::<K>(ctx, args, fuel),
        Primitive::SparseFirstTerm => terms::spec_sparse_first_term(args),
        Primitive::SparseRestTerms => terms::spec_rest_terms(terms::sparse_tag(), args),
        Primitive::SparseAdjoinTerm => terms::spec_sparse_adjoin::<K>(ctx, args, fuel),
        Primitive::SparseMake => terms::spec_make_terms(terms::sparse_tag(), args),
        Primitive::DenseFirstTerm => terms::spec_dense_first_term(args),
        Primitive::DenseRestTerms => terms::spec_rest_terms(terms::dense_tag(), args),
        Primitive::DenseAdjoinTerm => terms::spec_dense_adjoin::<K>(ctx, args, fuel),
        Primitive::DenseMake => terms::spec_make_terms(terms::dense_tag(), args),
        Primitive::PolyAdd => poly::spec_poly_add::<K>(ctx, args, fuel),
        Primitive::PolySub => poly::spec_poly_sub::<K>(ctx, args, fuel),
        Primitive::PolyMul => poly::spec_poly_mul::<K>(ctx, args, fuel),
        Primitive::PolyNegative => poly::spec_poly_negative::<K>(ctx, args, fuel),
        Primitive::PolyIsZero => poly::spec_poly_is_zero::<K>(ctx, args, fuel),
        Primitive::PolyFromSparse => poly::spec_poly_from::<K>(ctx, args, fuel),
        Primitive::PolyFromDense => poly::spec_poly_from::<K>(ctx, args, fuel),
        Primitive::IntegerGcd => division::spec_integer_gcd::<K>(ctx, args, fuel),
        Primitive::IntegerReduce => division::spec_integer_reduce(args),
        Primitive::PolyDiv => division::spec_poly_div::<K>(ctx, args, fuel),
        Primitive::PolyGcd => division::spec_poly_gcd::<K>(ctx, args, fuel),
        Primitive::PolyReduce => division::spec_poly_reduce::<K>(ctx, args, fuel),
    }
}

/// What the generic operation `op` gives on `args`.
///
/// The arguments are normalized and their type tags looked up in the
/// table; the procedure found is applied to their contents. Where none is
/// found, [`spec_resolve`] decides.
pub open spec fn spec_apply_generic<K: RealKernel>(
    ctx: Tables<K>,
    op: Datum,
    args: Datum,
    fuel: nat,
) -> Outcome
    decreases fuel, 2nat, 0nat,
{
    let args = normalized(args);
    match signature(args) {
        Err(e) => Err(e),
        Ok(sig) => match procedure_at(ctx.ops, op, sig) {
            Some(p) => match stripped(args) {
                Err(e) => Err(e),
                Ok(bare) => if fuel == 0 {
                    Err(Failure::DepthExceeded)
                } else {
                    spec_call::<K>(ctx, p, bare, (fuel - 1) as nat)
                },
            },
            None => spec_resolve::<K>(ctx, op, args, sig, fuel),
        },
    }
}

/// What an operation gives for which the table holds nothing on the types
/// `sig` of `args`.
///
/// Only two arguments of different types can be helped. Where both types
/// are of the tower, the lower argument is raised to the type of the other
/// and the operation applied again. Otherwise the first argument is coerced
/// to the type of the second, or else the second to the type of the first,
/// and the operation applied again.
pub open spec fn spec_resolve<K: RealKernel>(
    ctx: Tables<K>,
    op: Datum,
    args: Datum,
    sig: Datum,
    fuel: nat,
) -> Outcome
    decreases fuel, 1nat, 0nat,
{
    match exactly_two(args) {
        None => no_method(op, args),
        Some((a1, a2)) => {
            let t1 = sig.head();
            let t2 = sig.tail().head();
            if t1 == t2 {
                no_method(op, args)
            } else if tower_index(t1) >= 0 && tower_index(t2) >= 0 {
                if fuel == 0 {
                    Err(Failure::DepthExceeded)
                } else {
                    match spec_unify::<K>(ctx, a1, a2, (fuel - 1) as nat) {
                        Err(e) => Err(e),
                        Ok(both) => spec_apply_generic::<K>(
                            ctx,
                            op,
                            list2(both.0, both.1),
                            (fuel - 1) as nat,
                        ),
                    }
                }
            } else {
                match coercion_at(ctx.coercions, t1, t2) {
                    Some(c) => if fuel == 0 {
                        Err(Failure::DepthExceeded)
                    } else {
                        match spec_call::<K>(ctx, c, list1(a1), (fuel - 1) as nat) {
                            Err(e) => Err(e),
                            Ok(b1) => spec_apply_generic::<K>(
                                ctx,
                                op,
                                list2(b1, a2),
                                (fuel - 1) as nat,
                            ),
                        }
                    },
                    None => match coercion_at(ctx.coercions, t2, t1) {
                        Some(c) => if fuel == 0 {
                            Err(Failure::DepthExceeded)
                        } else {
                            match spec_call::<K>(ctx, c, list1(a2), (fuel - 1) as nat) {
                                Err(e) => Err(e),
                                Ok(b2) => spec_apply_generic::<K>(
                                    ctx,
                                    op,
                                    list2(a1, b2),
                                    (fuel - 1) as nat,
                                ),
                            }
                        },
                        None => no_method(op, args),
                    },
                }
            }
        },
    }
}

/// The generic operation named `op` on one argument.
pub open spec fn spec_unary<K: RealKernel>(ctx: Tables<K>, op: Seq<char>, x: Datum, fuel: nat) -> Outcome
    decreases fuel, 10nat, 0nat,
{
    spec_apply_generic::<K>(ctx, text_datum(op), list1(x), fuel)
}

/// The generic operation named `op` on two arguments.
pub open spec fn spec_binary<K: RealKernel>(
    ctx: Tables<K>,
    op: Seq<char>,
    x: Datum,
    y: Datum,
    fuel: nat,
) -> Outcome
    decreases fuel, 10nat, 0nat,
{
    spec_apply_generic::<K>(ctx, text_datum(op), list2(x, y), fuel)
}

/// What the procedure registered for `op` on the one type `tag` gives on
/// `args`: how the constructors reach their procedures.
pub open spec fn spec_construct<K: RealKernel>(
    ctx: Tables<K>,
    op: Seq<char>,
    tag: Seq<char>,
    args: Datum,
    fuel: nat,
) -> Outcome
    decreases fuel, 20nat, 0nat,
{
    match procedure_at(ctx.ops, text_datum(op), list1(text_datum(tag))) {
        None => no_method(text_datum(op), args),
        Some(p) => if fuel == 0 {
            Err(Failure::DepthExceeded)
        } else {
            spec_call::<K>(ctx, p, args, (fuel - 1) as nat)
        },
    }
}

/// A value one step up the tower. A value whose type is not of the tower,
/// or is the topmost, is left as it is.
pub open spec fn spec_raise<K: RealKernel>(ctx: Tables<K>, x: Datum, fuel: nat) -> Outcome
    decreases fuel, 10nat, 0nat,
{
    if !in_tower(x) || has_tag(x, complex_tag()) {
        Ok(x)
    } else {
        spec_apply_generic::<K>(ctx, text_datum("raise"@), list1(x), fuel)
    }
}

/// A value one step down the tower. A value whose type is not of the tower,
/// or is the bottommost, is left as it is.
pub open spec fn spec_project<K: RealKernel>(ctx: Tables<K>, x: Datum, fuel: nat) -> Outcome
    decreases fuel, 10nat, 0nat,
{
    if !in_tower(x) || has_tag(x, integer_tag()) {
        Ok(x)
    } else {
        spec_apply_generic::<K>(ctx, text_datum("project"@), list1(x), fuel)
    }
}

/// The square root of a value of the tower below the complex numbers.
pub open spec fn spec_sqrt<K: RealKernel>(ctx: Tables<K>, x: Datum, fuel: nat) -> Outcome
    decreases fuel, 10nat, 0nat,
{
    if in_tower(x) && !has_tag(x, complex_tag()) {
        spec_apply_generic::<K>(ctx, text_datum("sqrt"@), list1(x), fuel)
    } else {
        Err(Failure::BadArgument)
    }
}

/// `x` raised `steps` times.
pub open spec fn spec_type_raise<K: RealKernel>(ctx: Tables<K>, x: Datum, steps: int, fuel: nat) -> Outcome
    decreases fuel, 12nat, (if steps > 0 { steps } else { 0 }),
{
    if steps <= 0 {
        Ok(x)
    } else {
        match spec_raise::<K>(ctx, x, fuel) {
            Err(e) => Err(e),
            Ok(up) => spec_type_raise::<K>(ctx, up, steps - 1, fuel),
        }
    }
}

/// The place in the tower of the type of a value, or -1.
pub open spec fn place_of(x: Datum) -> int {
    match tag_of(x) {
        Ok(t) => tower_index(t),
        Err(_) => -1,
    }
}

/// Two values brought to one type of the tower: the one whose type is
/// lower is raised as many steps as the types are apart.
pub open spec fn spec_unify<K: RealKernel>(ctx: Tables<K>, a1: Datum, a2: Datum, fuel: nat) -> Result<
    (Datum, Datum),
    Failure,
>
    decreases fuel, 13nat, 0nat,
{
    let i1 = place_of(a1);
    let i2 = place_of(a2);
    match spec_type_raise::<K>(ctx, a1, i2 - i1, fuel) {
        Err(e) => Err(e),
        Ok(b1) => match spec_type_raise::<K>(ctx, a2, i1 - i2, fuel) {
            Err(e) => Err(e),
            Ok(b2) => Ok((b1, b2)),
        },
    }
}

/// A value brought down the tower as far as nothing is lost, and no
/// further than the type `target`.
///
/// A value of a type outside the tower, of the type `target` or of the
/// bottommost type stays. Otherwise the value is projected; where raising
/// the projection gives a value equal to the first, and the projection is
/// lower in the tower, the projection is brought down in turn.
pub open spec fn spec_drop_to_type<K: RealKernel>(
    ctx: Tables<K>,
    x: Datum,
    target: Seq<char>,
    fuel: nat,
) -> Outcome
    decreases fuel, 15nat, place_of(x) + 1,
{
    if !in_tower(x) || has_tag(x, target) || has_tag(x, integer_tag()) {
        Ok(x)
    } else {
        match spec_project::<K>(ctx, x, fuel) {
            Err(e) => Err(e),
            Ok(down) => match spec_raise::<K>(ctx, down, fuel) {
                Err(e) => Err(e),
                Ok(back) => match spec_binary::<K>(ctx, "is_equal"@, back, x, fuel) {
                    Err(e) => Err(e),
                    Ok(same) => if same == bool_datum(true) && 0 <= place_of(down) < place_of(x) {
                        spec_drop_to_type::<K>(ctx, down, target, fuel)
                    } else {
                        Ok(x)
                    },
                },
            },
        }
    }
}

/// A value brought down the tower as far as nothing is lost.
pub open spec fn spec_drop<K: RealKernel>(ctx: Tables<K>, x: Datum, fuel: nat) -> Outcome
    decreases fuel, 16nat, 0nat,
{
    spec_drop_to_type::<K>(ctx, x, integer_tag(), fuel)
}

/// The signature of a list of two arguments is a list of two tags.
pub proof fn lemma_signature_of_two(args: Datum)
    requires
        exactly_two(args) is Some,
    ensures
        signature(args) matches Ok(sig) ==> exactly_two(sig) is Some && tag_of(args.head()) == Ok::<
            Datum,
            Failure,
        >(sig.head()) && tag_of(args.tail().head()) == Ok::<Datum, Failure>(sig.tail().head()),
{
    assert(signature(args.tail().tail()) == Ok::<Datum, Failure>(Datum::Nil));
    assert(signature(args.tail()) == match tag_of(args.tail().head()) {
        Err(e) => Err::<Datum, Failure>(e),
        Ok(t) => Ok(cons(t, Datum::Nil)),
    });
}

/// The signature and the contents of a list of one argument.
pub proof fn lemma_one_argument(a: Datum)
    ensures
        signature(list1(a)) == match tag_of(a) {
            Err(e) => Err::<Datum, Failure>(e),
            Ok(t) => Ok(list1(t)),
        },
        stripped(list1(a)) == match contents_of(a) {
            Err(e) => Err::<Datum, Failure>(e),
            Ok(c) => Ok(list1(c)),
        },
{
    assert(signature(Datum::Nil) == Ok::<Datum, Failure>(Datum::Nil));
    assert(stripped(Datum::Nil) == Ok::<Datum, Failure>(Datum::Nil));
}

/// The signature and the contents of a list of two arguments.
pub proof fn lemma_two_arguments(a1: Datum, a2: Datum)
    ensures
        signature(list2(a1, a2)) == match tag_of(a1) {
            Err(e) => Err::<Datum, Failure>(e),
            Ok(t1) => match tag_of(a2) {
                Err(e) => Err(e),
                Ok(t2) => Ok(list2(t1, t2)),
            },
        },
        stripped(list2(a1, a2)) == match contents_of(a1) {
            Err(e) => Err::<Datum, Failure>(e),
            Ok(c1) => match contents_of(a2) {
                Err(e) => Err(e),
                Ok(c2) => Ok(list2(c1, c2)),
            },
        },
{
    lemma_one_argument(a2);
}

/// A generic operation on one argument for whose type a procedure is
/// registered applies that procedure to the contents.
pub proof fn lemma_unary_hit<K: RealKernel>(
    ctx: Tables<K>,
    op: Seq<char>,
    x: Datum,
    t: Datum,
    c: Datum,
    p: Primitive,
    fuel: nat,
)
    requires
        fuel > 0,
        !(x is Cons && x.head() is Cons),
        tag_of(x) == Ok::<Datum, Failure>(t),
        contents_of(x) == Ok::<Datum, Failure>(c),
        procedure_at(ctx.ops, text_datum(op), list1(t)) == Some(p),
    ensures
        spec_unary::<K>(ctx, op, x, fuel) == spec_call::<K>(ctx, p, list1(c), (fuel - 1) as nat),
{
    lemma_one_argument(x);
    assert(normalized(list1(x)) == list1(x));
}

/// A generic operation on two arguments for whose types a procedure is
/// registered applies that procedure to the contents.
pub proof fn lemma_binary_hit<K: RealKernel>(
    ctx: Tables<K>,
    op: Seq<char>,
    x: Datum,
    y: Datum,
    tx: Datum,
    ty: Datum,
    cx: Datum,
    cy: Datum,
    p: Primitive,
    fuel: nat,
)
    requires
        fuel > 0,
        !(x is Cons && x.head() is Cons),
        tag_of(x) == Ok::<Datum, Failure>(tx),
        tag_of(y) == Ok::<Datum, Failure>(ty),
        contents_of(x) == Ok::<Datum, Failure>(cx),
        contents_of(y) == Ok::<Datum, Failure>(cy),
        procedure_at(ctx.ops, text_datum(op), list2(tx, ty)) == Some(p),
    ensures
        spec_binary::<K>(ctx, op, x, y, fuel) == spec_call::<K>(
            ctx,
            p,
            list2(cx, cy),
            (fuel - 1) as nat,
        ),
{
    lemma_two_arguments(x, y);
    assert(normalized(list2(x, y)) == list2(x, y));
}

/// The type tags of the arguments, in their order.
pub fn signature_of(args: &List) -> (r: Result<List, ArithError>)
    ensures
        outcome(r) == signature(args@),
    decreases args,
{
    match args {
        List::Nil => Ok(List::Nil),
        List::Cons(a, rest) => {
            let t = type_tag(&**a)?;
            let ts = signature_of(&**rest)?;
            Ok(List::pair(t, ts))
        },
        List::V(_) => type_tag(args),
    }
}

/// The contents of the arguments, in their order.
pub fn contents_of_each(args: &List) -> (r: Result<List, ArithError>)
    ensures
        outcome(r) == stripped(args@),
    decreases args,
{
    match args {
        List::Nil => Ok(List::Nil),
        List::Cons(a, rest) => {
            let c = contents(&**a)?;
            let cs = contents_of_each(&**rest)?;
            Ok(List::pair(c, cs))
        },
        List::V(_) => contents(args),
    }
}

/// The argument list as dispatch takes it.
pub fn normalize(args: &List) -> (r: List)
    ensures
        r@ == normalized(args@),
{
    let nested = match first_of(args) {
        Some(a) => match first_of(a) {
            Some(b) => b.is_pair(),
            None => false,
        },
        None => false,
    };
    if nested {
        args.flatten()
    } else {
        args.clone()
    }
}

fn both_of(l: &List) -> (r: Option<(&List, &List)>)
    ensures
        r is Some == exactly_two(l@) is Some,
        r matches Some(v) ==> Some((v.0@, v.1@)) == exactly_two(l@),
{
    match first_two(l) {
        Some((a, b)) => {
            if l.tail().tail().is_empty() {
                Some((a, b))
            } else {
                None
            }
        },
        None => None,
    }
}

fn list_of_two(a: List, b: List) -> (r: List)
    ensures
        r@ == list2(a@, b@),
{
    List::pair(a, List::pair(b, List::Nil))
}

fn list_of_one(a: List) -> (r: List)
    ensures
        r@ == list1(a@),
{
    List::pair(a, List::Nil)
}

/// Applies the procedure `p` to `args`, with calls nested at most `fuel`
/// deep.
pub fn call_at<K: RealKernel>(
    p: Primitive,
    args: &List,
    arith: &ArithmeticContext<K>,
    fuel: usize,
) -> (r: Result<List, ArithError>)
    ensures
        outcome(r) == spec_call::<K>(arith@, p, args@, fuel as nat),
    decreases fuel, 100nat, 0nat,
{
    match p {
        Primitive::Identity => match first_of(args) {
            Some(x) => Ok(x.clone()),
            None => Err(ArithError::BadArgument),
        },
        Primitive::IntegerAdd => numbers::integer_add(arith, args, fuel),
        Primitive::IntegerSub => numbers::integer_sub(arith, args, fuel),
        Primitive::IntegerMul => numbers::integer_mul(arith, args, fuel),
        Primitive::IntegerDiv => numbers::integer_div(arith, args, fuel),
        Primitive::IntegerEqual => numbers::integer_equal(args),
        Primitive::IntegerIsZero => numbers::integer_is_zero(args),
        Primitive::IntegerNegative => numbers::integer_negative(arith, args, fuel),
        Primitive::IntegerAbs => numbers::integer_abs(arith, args, fuel),
        Primitive::IntegerMake => numbers::integer_make(args),
        Primitive::IntegerRaise => numbers::integer_raise(arith, args, fuel),
        Primitive::IntegerSqrt => reals::integer_sqrt(arith, args, fuel),
        Primitive::RealAdd => reals::real_add(arith, args, fuel),
        Primitive::RealSub => reals::real_sub(arith, args, fuel),
        Primitive::RealMul => reals::real_mul(arith, args, fuel),
        Primitive::RealDiv => reals::real_div(arith, args, fuel),
        Primitive::RealEqual => reals::real_equal(arith, args),
        Primitive::RealIsZero => reals::real_is_zero(arith, args),
        Primitive::RealNegative => reals::real_negative(arith, args, fuel),
        Primitive::RealAbs => reals::real_abs(arith, args, fuel),
        Primitive::RealMake => reals::real_make(args),
        Primitive::RealRaise => reals::real_raise(arith, args, fuel),
        Primitive::RealProject => reals::real_project(arith, args, fuel),
        Primitive::RealSqrt => reals::real_sqrt(arith, args, fuel),
        Primitive::RationalMake => rational::rational_make(arith, args, fuel),
        Primitive::RationalNumer => rational::rational_numer(args),
        Primitive::RationalDenom => rational::rational_denom(args),
        Primitive::RationalAdd => rational::rational_add(arith, args, fuel),
        Primitive::RationalSub => rational::rational_sub(arith, args, fuel),
        Primitive::RationalMul => rational::rational_mul(arith, args, fuel),
        Primitive::RationalDiv => rational::rational_div(arith, args, fuel),
        Primitive::RationalEqual => rational::rational_equal(arith, args, fuel),
        Primitive::RationalIsZero => rational::rational_is_zero(arith, args, fuel),
        Primitive::RationalNegative => rational::rational_negative(arith, args, fuel),
        Primitive::RationalRaise => rational::rational_raise(arith, args, fuel),
        Primitive::RationalProject => rational::rational_project(arith, args, fuel),
        Primitive::RationalSqrt => rational::rational_sqrt(arith, args, fuel),
        Primitive::RectFromRealImag => complex::pair_under("rectangular", args),
        Primitive::RectFromMagAng => complex::rect_from_mag_ang(arith, args),
        Primitive::RectRealPart => complex::first_part(args),
        Primitive::RectImagPart => complex::second_part(args),
        Primitive::RectMagnitude => complex::rect_magnitude(arith, args, fuel),
        Primitive::RectAngle => complex::rect_angle(arith, args, fuel),
        Primitive::RectEqual => complex::form_equal(
            arith,
            "rectangular",
            "real_part",
            "imag_part",
            args,
            fuel,
        ),
        Primitive::RectIsZero => complex::rect_is_zero(arith, args, fuel),
        Primitive::PolarFromMagAng => complex::pair_under("polar", args),
        Primitive::PolarFromRealImag => complex::polar_from_real_imag(arith, args),
        Primitive::PolarMagnitude => complex::first_part(args),
        Primitive::PolarAngle => complex::second_part(args),
        Primitive::PolarRealPart => complex::polar_real_part(arith, args, fuel),
        Primitive::PolarImagPart => complex::polar_imag_part(arith, args, fuel),
        Primitive::PolarEqual => complex::form_equal(
            arith,
            "polar",
            "magnitude",
            "angle",
            args,
            fuel,
        ),
        Primitive::PolarIsZero => complex::polar_is_zero(arith, args, fuel),
        Primitive::RectToPolar => complex::rect_to_polar(arith, args),
        Primitive::PolarToRect => complex::polar_to_rect(arith, args),
        Primitive::ComplexFromRealImag => complex::complex_from(
            arith,
            "make_from_real_imag",
            "rectangular",
            args,
            fuel,
        ),
        Primitive::ComplexFromMagAng => complex::complex_from(
            arith,
            "make_from_mag_ang",
            "polar",
            args,
            fuel,
        ),
        Primitive::ComplexAdd => complex::complex_by_parts(arith, "add", args, fuel),
        Primitive::ComplexSub => complex::complex_by_parts(arith, "sub", args, fuel),
        Primitive::ComplexMul => complex::complex_by_polar(arith, "mul", "add", args, fuel),
        Primitive::ComplexDiv => complex::complex_by_polar(arith, "div", "sub", args, fuel),
        Primitive::ComplexNegative => complex::complex_negative(arith, args, fuel),
        Primitive::ComplexEqual => complex::complex_equal(arith, args, fuel),
        Primitive::ComplexIsZero => complex::complex_forward(
            arith,
            "is_equal_to_zero",
            args,
            fuel,
        ),
        Primitive::ComplexRealPart => complex::complex_forward(arith, "real_part", args, fuel),
        Primitive::ComplexImagPart => complex::complex_forward(arith, "imag_part", args, fuel),
        Primitive::ComplexMagnitude => complex::complex_forward(arith, "magnitude", args, fuel),
        Primitive::ComplexAngle => complex::complex_forward(arith, "angle", args, fuel),
        Primitive::ComplexProject => complex::complex_project(arith, args, fuel),
        Primitive::SparseFirstTerm => terms::sparse_first_term(args),
        Primitive::SparseRestTerms => terms::rest_terms_under("sparse", args),
        Primitive::SparseAdjoinTerm => terms::sparse_adjoin(arith, args, fuel),
        Primitive::SparseMake => terms::make_terms_under("sparse", args),
        Primitive::DenseFirstTerm => terms::dense_first_term(args),
        Primitive::DenseRestTerms => terms::rest_terms_under("dense", args),
        Primitive::DenseAdjoinTerm => terms::dense_adjoin(arith, args, fuel),
        Primitive::DenseMake => terms::make_terms_under("dense", args),
        Primitive::PolyAdd => poly::poly_add(arith, args, fuel),
        Primitive::PolySub => poly::poly_sub(arith, args, fuel),
        Primitive::PolyMul => poly::poly_mul(arith, args, fuel),
        Primitive::PolyNegative => poly::poly_negative(arith, args, fuel),
        Primitive::PolyIsZero => poly::poly_is_zero(arith, args, fuel),
        Primitive::PolyFromSparse => poly::poly_from(arith, args, fuel),
        Primitive::PolyFromDense => poly::poly_from(arith, args, fuel),
        Primitive::IntegerGcd => division::integer_gcd(arith, args, fuel),
        Primitive::IntegerReduce => division::integer_reduce(args),
        Primitive::PolyDiv => division::poly_div(arith, args, fuel),
        Primitive::PolyGcd => division::poly_gcd(arith, args, fuel),
        Primitive::PolyReduce => division::poly_reduce(arith, args, fuel),
    }
}

/// Applies the generic operation `op` to `args`, with calls nested at most
/// `fuel` deep.
pub fn apply_generic_at<K: RealKernel>(
    op: &List,
    args: &List,
    arith: &ArithmeticContext<K>,
    fuel: usize,
) -> (r: Result<List, ArithError>)
    ensures
        outcome(r) == spec_apply_generic::<K>(arith@, op@, args@, fuel as nat),
    decreases fuel, 2nat, 0nat,
{
    let args = normalize(args);
    let sig = signature_of(&args)?;
    match arith.find(op, &sig) {
        Some(w) => {
            let bare = contents_of_each(&args)?;
            if fuel == 0 {
                Err(ArithError::DepthExceeded)
            } else {
                call_at(w.func, &bare, arith, fuel - 1)
            }
        },
        None => resolve_at(op, args, &sig, arith, fuel),
    }
}

fn resolve_at<K: RealKernel>(
    op: &List,
    args: List,
    sig: &List,
    arith: &ArithmeticContext<K>,
    fuel: usize,
) -> (r: Result<List, ArithError>)
    requires
        signature(args@) == Ok::<Datum, Failure>(sig@),
    ensures
        outcome(r) == spec_resolve::<K>(arith@, op@, args@, sig@, fuel as nat),
    decreases fuel, 1nat, 0nat,
{
    let (a1, a2) = match both_of(&args) {
        Some(v) => v,
        None => {
            return Err(ArithError::NoMethod { op: op.clone(), args });
        },
    };
    proof {
        lemma_signature_of_two(args@);
    }
    let (t1, t2) = match first_two(sig) {
        Some(v) => v,
        None => {
            return Err(ArithError::NoMethod { op: op.clone(), args });
        },
    };
    if t1.equals(t2) {
        return Err(ArithError::NoMethod { op: op.clone(), args });
    }
    if tag_place(t1) >= 0 && tag_place(t2) >= 0 {
        if fuel == 0 {
            return Err(ArithError::DepthExceeded);
        }
        let (b1, b2) = unify_at(a1.clone(), a2.clone(), arith, fuel - 1)?;
        return apply_generic_at(op, &list_of_two(b1, b2), arith, fuel - 1);
    }
    match arith.get_coercion(t1, t2) {
        Some(c) => {
            if fuel == 0 {
                return Err(ArithError::DepthExceeded);
            }
            let b1 = call_at(c.func, &list_of_one(a1.clone()), arith, fuel - 1)?;
            apply_generic_at(op, &list_of_two(b1, a2.clone()), arith, fuel - 1)
        },
        None => match arith.get_coercion(t2, t1) {
            Some(c) => {
                if fuel == 0 {
                    return Err(ArithError::DepthExceeded);
                }
                let b2 = call_at(c.func, &list_of_one(a2.clone()), arith, fuel - 1)?;
                apply_generic_at(op, &list_of_two(a1.clone(), b2), arith, fuel - 1)
            },
            None => Err(ArithError::NoMethod { op: op.clone(), args }),
        },
    }
}

fn type_raise_at<K: RealKernel>(
    x: List,
    steps: i32,
    arith: &ArithmeticContext<K>,
    fuel: usize,
) -> (r: Result<List, ArithError>)
    ensures
        outcome(r) == spec_type_raise::<K>(arith@, x@, steps as int, fuel as nat),
    decreases fuel, 12nat, (if steps > 0 { steps as int } else { 0 }),
{
    if steps <= 0 {
        Ok(x)
    } else {
        let up = arith.raise_at(&x, fuel)?;
        type_raise_at(up, steps - 1, arith, fuel)
    }
}

/// Brings two values to one type of the tower, with calls nested at most
/// `fuel` deep.
pub fn unify_at<K: RealKernel>(
    a1: List,
    a2: List,
    arith: &ArithmeticContext<K>,
    fuel: usize,
) -> (r: Result<(List, List), ArithError>)
    ensures
        outcome2(r) == spec_unify::<K>(arith@, a1@, a2@, fuel as nat),
    decreases fuel, 13nat, 0nat,
{
    let i1 = tower_place(&a1);
    let i2 = tower_place(&a2);
    let b1 = type_raise_at(a1, i2 - i1, arith, fuel)?;
    let b2 = type_raise_at(a2, i1 - i2, arith, fuel)?;
    Ok((b1, b2))
}

impl<K: RealKernel> ArithmeticContext<K> {
    /// The generic operation named `op` on one argument, with calls nested
    /// at most `fuel` deep.
    pub fn unary_at(&self, op: &str, x: &List, fuel: usize) -> (r: Result<List, ArithError>)
        ensures
            outcome(r) == spec_unary::<K>(self@, op@, x@, fuel as nat),
        decreases fuel, 10nat, 0nat,
    {
        apply_generic_at(&List::text(op), &list_of_one(x.clone()), self, fuel)
    }

    /// The generic operation named `op` on two arguments, with calls nested
    /// at most `fuel` deep.
    pub fn binary_at(&self, op: &str, x: &List, y: &List, fuel: usize) -> (r: Result<
        List,
        ArithError,
    >)
        ensures
            outcome(r) == spec_binary::<K>(self@, op@, x@, y@, fuel as nat),
        decreases fuel, 10nat, 0nat,
    {
        apply_generic_at(&List::text(op), &list_of_two(x.clone(), y.clone()), self, fuel)
    }

    /// Applies the procedure registered for `op` on the one type `tag`,
    /// with calls nested at most `fuel` deep.
    pub fn construct_at(&self, op: &str, tag: &str, args: List, fuel: usize) -> (r: Result<
        List,
        ArithError,
    >)
        ensures
            outcome(r) == spec_construct::<K>(self@, op@, tag@, args@, fuel as nat),
        decreases fuel, 20nat, 0nat,
    {
        let key = List::text(op);
        match self.find(&key, &list_of_one(List::text(tag))) {
            None => Err(ArithError::NoMethod { op: key, args }),
            Some(w) => {
                if fuel == 0 {
                    Err(ArithError::DepthExceeded)
                } else {
                    call_at(w.func, &args, self, fuel - 1)
                }
            },
        }
    }

    /// A value one step up the tower, with calls nested at most `fuel`
    /// deep.
    pub fn raise_at(&self, x: &List, fuel: usize) -> (r: Result<List, ArithError>)
        ensures
            outcome(r) == spec_raise::<K>(self@, x@, fuel as nat),
        decreases fuel, 10nat, 0nat,
    {
        if !is_basis_arithmetic_type(x) || is_tagged(x, "complex") {
            Ok(x.clone())
        } else {
            apply_generic_at(&List::text("raise"), &list_of_one(x.clone()), self, fuel)
        }
    }

    /// A value one step down the tower, with calls nested at most `fuel`
    /// deep.
    pub fn project_at(&self, x: &List, fuel: usize) -> (r: Result<List, ArithError>)
        ensures
            outcome(r) == spec_project::<K>(self@, x@, fuel as nat),
        decreases fuel, 10nat, 0nat,
    {
        if !is_basis_arithmetic_type(x) || is_tagged(x, "integer") {
            Ok(x.clone())
        } else {
            apply_generic_at(&List::text("project"), &list_of_one(x.clone()), self, fuel)
        }
    }

    /// The square root, with calls nested at most `fuel` deep.
    pub fn sqrt_at(&self, x: &List, fuel: usize) -> (r: Result<List, ArithError>)
        ensures
            outcome(r) == spec_sqrt::<K>(self@, x@, fuel as nat),
        decreases fuel, 10nat, 0nat,
    {
        if is_basis_arithmetic_type(x) && !is_tagged(x, "complex") {
            apply_generic_at(&List::text("sqrt"), &list_of_one(x.clone()), self, fuel)
        } else {
            Err(ArithError::BadArgument)
        }
    }

    /// Brings a value down the tower, no further than the type `target`,
    /// with calls nested at most `fuel` deep.
    pub fn drop_to_type_at(&self, x: &List, target: &str, fuel: usize) -> (r: Result<
        List,
        ArithError,
    >)
        ensures
            outcome(r) == spec_drop_to_type::<K>(self@, x@, target@, fuel as nat),
        decreases fuel, 15nat, place_of(x@) + 1,
    {
        if !is_basis_arithmetic_type(x) || is_tagged(x, target) || is_tagged(x, "integer") {
            return Ok(x.clone());
        }
        let down = self.project_at(x, fuel)?;
        let back = self.raise_at(&down, fuel)?;
        let same = self.binary_at("is_equal", &back, x, fuel)?;
        let place = tower_place(&down);
        if same.is_true() && 0 <= place && place < tower_place(x) {
            self.drop_to_type_at(&down, target, fuel)
        } else {
            Ok(x.clone())
        }
    }
}

} // verus!
