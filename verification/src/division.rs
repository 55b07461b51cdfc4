//! Division of term lists, and with it their greatest common divisor and
//! the reduction of a fraction of two of them to lowest terms.
use vstd::prelude::*;
use crate::context::{first_two, list2, two, ArithmeticContext, Tables};
use crate::engine::{spec_binary, spec_unary};
use crate::error::{outcome, outcome2, ArithError, Failure, Outcome};
use crate::kernel::RealKernel;
use crate::list::{int_datum, Datum, List};
use crate::numbers::{fits, int_of, integer_of, spec_make_integer, trunc_div, two_ints};
use crate::poly::{
    add_terms, make_empty_term_list_at, mul_term_by_all_terms, negative_terms, poly_of,
    polynomial_tag, same_variable_parts, spec_add_terms, spec_make_empty_term_list,
    spec_mul_term_by_all_terms, spec_negative_terms,
};
use crate::rational::{gcd_fits, gcd_of, greatest_common_divisor};
use crate::tags::{attach_tag, tagged};
use crate::terms::{
    empty_terms, is_empty_term_list, lead, lead_of, single_term_at, spec_single_term,
};

verus! {

/// The greatest common divisor of two integers, where it is one of 32
/// bits.
pub open spec fn spec_integer_gcd<K: RealKernel>(ctx: Tables<K>, args: Datum, fuel: nat) -> Outcome
    decreases fuel, 90nat, 0nat,
{
    match two_ints(args) {
        None => Err(Failure::BadArgument),
        Some((a, b)) => if !fits(a) || !fits(b) || !gcd_fits(a, b) {
            Err(Failure::Overflow)
        } else {
            spec_make_integer::<K>(ctx, gcd_of(a, b), fuel)
        },
    }
}

/// Two integers divided by their greatest common divisor, as a list of
/// two. A pair of zeros fails.
pub open spec fn spec_integer_reduce(args: Datum) -> Outcome {
    match two_ints(args) {
        None => Err(Failure::BadArgument),
        Some((a, b)) => if !fits(a) || !fits(b) || !gcd_fits(a, b) {
            Err(Failure::Overflow)
        } else if gcd_of(a, b) == 0 {
            Err(Failure::DivisionByZero)
        } else {
            Ok(
                list2(
                    int_datum(trunc_div(a, gcd_of(a, b))),
                    int_datum(trunc_div(b, gcd_of(a, b))),
                ),
            )
        },
    }
}

/// `c` multiplied with itself `e` times by the generic product; 1 for no
/// times.
pub open spec fn spec_power<K: RealKernel>(ctx: Tables<K>, c: Datum, e: int, fuel: nat) -> Outcome
    decreases fuel, 12nat, (if e > 0 { e } else { 0 }),
{
    if e <= 0 {
        Ok(int_datum(1))
    } else {
        match spec_power::<K>(ctx, c, e - 1, fuel) {
            Err(e) => Err(e),
            Ok(rest) => spec_binary::<K>(ctx, "mul"@, c, rest, fuel),
        }
    }
}

/// Every coefficient of a term list multiplied by `factor`.
pub open spec fn spec_scale_terms<K: RealKernel>(ctx: Tables<K>, factor: Datum, l: Datum, fuel: nat) -> Outcome
    decreases fuel, 87nat, 0nat,
{
    match spec_single_term::<K>(ctx, int_datum(0), factor, fuel) {
        Err(e) => Err(e),
        Ok(t) => spec_mul_term_by_all_terms::<K>(ctx, t, l, fuel),
    }
}

/// The quotient and the remainder of the division of one term list by
/// another.
///
/// The first term of the dividend is divided by that of the divisor; the
/// divisor times this term is taken off the dividend, and what is left is
/// divided in turn. The division ends when the dividend is empty or of
/// lower order than the divisor. An empty divisor fails.
pub open spec fn spec_div_terms<K: RealKernel>(ctx: Tables<K>, l1: Datum, l2: Datum, fuel: nat) -> Result<
    (Datum, Datum),
    Failure,
>
    decreases fuel, 88nat, 0nat,
{
    match empty_terms(l1) {
        Err(e) => Err(e),
        Ok(true) => match spec_make_empty_term_list::<K>(ctx, fuel) {
            Err(e) => Err(e),
            Ok(empty) => Ok((empty, empty)),
        },
        Ok(false) => match empty_terms(l2) {
            Err(e) => Err(e),
            Ok(true) => Err(Failure::DivisionByZero),
            Ok(false) => match spec_unary::<K>(ctx, "first_term"@, l1, fuel) {
                Err(e) => Err(e),
                Ok(t1) => match spec_unary::<K>(ctx, "first_term"@, l2, fuel) {
                    Err(e) => Err(e),
                    Ok(t2) => match (lead(t1), lead(t2)) {
                        (Some(pa), Some(pb)) => match (int_of(pa.0), int_of(pb.0)) {
                            (Some(o1), Some(o2)) => if o2 > o1 {
                                match spec_make_empty_term_list::<K>(ctx, fuel) {
                                    Err(e) => Err(e),
                                    Ok(empty) => Ok((empty, l1)),
                                }
                            } else {
                                spec_div_step::<K>(ctx, l1, l2, pa, pb, fuel)
                            },
                            _ => Err(Failure::BadArgument),
                        },
                        _ => Err(Failure::BadArgument),
                    },
                },
            },
        },
    }
}

/// One step of the division: the term that the first terms `pa` and `pb`
/// give, in front of the quotient of what is left.
pub open spec fn spec_div_step<K: RealKernel>(
    ctx: Tables<K>,
    l1: Datum,
    l2: Datum,
    pa: (Datum, Datum),
    pb: (Datum, Datum),
    fuel: nat,
) -> Result<(Datum, Datum), Failure>
    decreases fuel, 87nat, 1nat,
{
    match spec_binary::<K>(ctx, "div"@, pa.1, pb.1, fuel) {
        Err(e) => Err(e),
        Ok(c) => match spec_binary::<K>(ctx, "sub"@, pa.0, pb.0, fuel) {
            Err(e) => Err(e),
            Ok(o) => match spec_single_term::<K>(ctx, o, c, fuel) {
                Err(e) => Err(e),
                Ok(first) => match spec_mul_term_by_all_terms::<K>(ctx, first, l2, fuel) {
                    Err(e) => Err(e),
                    Ok(product) => match spec_negative_terms::<K>(ctx, product, fuel) {
                        Err(e) => Err(e),
                        Ok(minus) => match spec_add_terms::<K>(ctx, l1, minus, fuel) {
                            Err(e) => Err(e),
                            Ok(left) => if fuel == 0 {
                                Err(Failure::DepthExceeded)
                            } else {
                                match spec_div_terms::<K>(ctx, left, l2, (fuel - 1) as nat) {
                                    Err(e) => Err(e),
                                    Ok(qr) => match spec_binary::<K>(
                                        ctx,
                                        "adjoin_term"@,
                                        first,
                                        qr.0,
                                        fuel,
                                    ) {
                                        Err(e) => Err(e),
                                        Ok(q) => Ok((q, qr.1)),
                                    },
                                }
                            },
                        },
                    },
                },
            },
        },
    }
}

/// The orders of the first terms of two term lists that are not empty,
/// and the coefficient of the first term of the second.
pub open spec fn spec_leading<K: RealKernel>(ctx: Tables<K>, p: Datum, q: Datum, fuel: nat) -> Result<
    (int, int, Datum),
    Failure,
>
    decreases fuel, 80nat, 0nat,
{
    match spec_unary::<K>(ctx, "first_term"@, p, fuel) {
        Err(e) => Err(e),
        Ok(t1) => match spec_unary::<K>(ctx, "first_term"@, q, fuel) {
            Err(e) => Err(e),
            Ok(t2) => match (lead(t1), lead(t2)) {
                (Some(pa), Some(pb)) => match (int_of(pa.0), int_of(pb.0)) {
                    (Some(o1), Some(o2)) => Ok((o1, o2, pb.1)),
                    _ => Err(Failure::BadArgument),
                },
                _ => Err(Failure::BadArgument),
            },
        },
    }
}

/// The remainder of the division of `p`, first multiplied by a power of
/// the first coefficient of `q`, by `q`. With the power one more than the
/// orders are apart, no coefficient has to be divided with a remainder.
pub open spec fn spec_pseudoremainder_terms<K: RealKernel>(
    ctx: Tables<K>,
    p: Datum,
    q: Datum,
    fuel: nat,
) -> Outcome
    decreases fuel, 89nat, 0nat,
{
    match empty_terms(p) {
        Err(e) => Err(e),
        Ok(true) => Ok(p),
        Ok(false) => match spec_leading::<K>(ctx, p, q, fuel) {
            Err(e) => Err(e),
            Ok(f) => match spec_power::<K>(ctx, f.2, 1 + f.0 - f.1, fuel) {
                Err(e) => Err(e),
                Ok(factor) => match spec_scale_terms::<K>(ctx, factor, p, fuel) {
                    Err(e) => Err(e),
                    Ok(scaled) => match spec_div_terms::<K>(ctx, scaled, q, fuel) {
                        Err(e) => Err(e),
                        Ok(qr) => Ok(qr.1),
                    },
                },
            },
        },
    }
}

/// The greatest common divisor of `start` and all coefficients of a term
/// list, by the generic operation.
pub open spec fn spec_coeff_gcd<K: RealKernel>(ctx: Tables<K>, l: Datum, start: Datum, fuel: nat) -> Outcome
    decreases fuel, 85nat, 0nat,
{
    match empty_terms(l) {
        Err(e) => Err(e),
        Ok(true) => Ok(start),
        Ok(false) => match spec_unary::<K>(ctx, "first_term"@, l, fuel) {
            Err(e) => Err(e),
            Ok(t) => match lead(t) {
                None => Err(Failure::BadArgument),
                Some(p) => match spec_binary::<K>(ctx, "gcd"@, start, p.1, fuel) {
                    Err(e) => Err(e),
                    Ok(g) => match spec_unary::<K>(ctx, "rest_terms"@, l, fuel) {
                        Err(e) => Err(e),
                        Ok(rest) => if fuel == 0 {
                            Err(Failure::DepthExceeded)
                        } else {
                            spec_coeff_gcd::<K>(ctx, rest, g, (fuel - 1) as nat)
                        },
                    },
                },
            },
        },
    }
}

/// Every coefficient of a term list divided by `k`.
pub open spec fn spec_divide_coeffs<K: RealKernel>(ctx: Tables<K>, l: Datum, k: Datum, fuel: nat) -> Outcome
    decreases fuel, 85nat, 0nat,
{
    match empty_terms(l) {
        Err(e) => Err(e),
        Ok(true) => spec_make_empty_term_list::<K>(ctx, fuel),
        Ok(false) => match spec_unary::<K>(ctx, "first_term"@, l, fuel) {
            Err(e) => Err(e),
            Ok(t) => match lead(t) {
                None => Err(Failure::BadArgument),
                Some(p) => match spec_binary::<K>(ctx, "div"@, p.1, k, fuel) {
                    Err(e) => Err(e),
                    Ok(c) => match spec_single_term::<K>(ctx, p.0, c, fuel) {
                        Err(e) => Err(e),
                        Ok(first) => match spec_unary::<K>(ctx, "rest_terms"@, l, fuel) {
                            Err(e) => Err(e),
                            Ok(rest) => if fuel == 0 {
                                Err(Failure::DepthExceeded)
                            } else {
                                match spec_divide_coeffs::<K>(ctx, rest, k, (fuel - 1) as nat) {
                                    Err(e) => Err(e),
                                    Ok(more) => spec_binary::<K>(
                                        ctx,
                                        "adjoin_term"@,
                                        first,
                                        more,
                                        fuel,
                                    ),
                                }
                            },
                        },
                    },
                },
            },
        },
    }
}

/// A term list with the common divisor of its coefficients taken out.
pub open spec fn spec_primitive_part<K: RealKernel>(ctx: Tables<K>, l: Datum, fuel: nat) -> Outcome
    decreases fuel, 86nat, 0nat,
{
    match spec_coeff_gcd::<K>(ctx, l, int_datum(0), fuel) {
        Err(e) => Err(e),
        Ok(k) => if k == int_datum(0) {
            Ok(l)
        } else {
            spec_divide_coeffs::<K>(ctx, l, k, fuel)
        },
    }
}

/// The greatest common divisor of two term lists, by Euclid's algorithm
/// with pseudo-division: that of `b` and the remainder of `a` by `b`, until
/// the remainder is empty. The common divisor of the coefficients is taken
/// out of the result.
pub open spec fn spec_gcd_terms<K: RealKernel>(ctx: Tables<K>, a: Datum, b: Datum, fuel: nat) -> Outcome
    decreases fuel, 92nat, 0nat,
{
    match empty_terms(b) {
        Err(e) => Err(e),
        Ok(true) => spec_primitive_part::<K>(ctx, a, fuel),
        Ok(false) => match spec_pseudoremainder_terms::<K>(ctx, a, b, fuel) {
            Err(e) => Err(e),
            Ok(r) => if fuel == 0 {
                Err(Failure::DepthExceeded)
            } else {
                spec_gcd_terms::<K>(ctx, b, r, (fuel - 1) as nat)
            },
        },
    }
}

/// The quotient of `l`, first multiplied by `factor`, by `g`.
pub open spec fn spec_scaled_quotient<K: RealKernel>(
    ctx: Tables<K>,
    factor: Datum,
    l: Datum,
    g: Datum,
    fuel: nat,
) -> Outcome
    decreases fuel, 89nat, 0nat,
{
    match spec_scale_terms::<K>(ctx, factor, l, fuel) {
        Err(e) => Err(e),
        Ok(scaled) => match spec_div_terms::<K>(ctx, scaled, g, fuel) {
            Err(e) => Err(e),
            Ok(qr) => Ok(qr.0),
        },
    }
}

/// A numerator and a denominator in lowest terms: both divided by their
/// greatest common divisor, after multiplication by the power of its first
/// coefficient that keeps the division exact, and then by the common
/// divisor of all their coefficients.
pub open spec fn spec_reduce_terms<K: RealKernel>(ctx: Tables<K>, n: Datum, d: Datum, fuel: nat) -> Result<
    (Datum, Datum),
    Failure,
>
    decreases fuel, 93nat, 0nat,
{
    match spec_gcd_terms::<K>(ctx, n, d, fuel) {
        Err(e) => Err(e),
        Ok(g) => match empty_terms(g) {
            Err(e) => Err(e),
            Ok(true) => Err(Failure::DivisionByZero),
            Ok(false) => match spec_leading::<K>(ctx, n, g, fuel) {
                Err(e) => Err(e),
                Ok(fn_) => match spec_leading::<K>(ctx, d, g, fuel) {
                    Err(e) => Err(e),
                    Ok(fd) => {
                        let top = if fn_.0 >= fd.0 {
                            fn_.0
                        } else {
                            fd.0
                        };
                        match spec_power::<K>(ctx, fn_.2, 1 + top - fn_.1, fuel) {
                            Err(e) => Err(e),
                            Ok(factor) => match spec_scaled_quotient::<K>(ctx, factor, n, g, fuel) {
                                Err(e) => Err(e),
                                Ok(nn) => match spec_scaled_quotient::<K>(
                                    ctx,
                                    factor,
                                    d,
                                    g,
                                    fuel,
                                ) {
                                    Err(e) => Err(e),
                                    Ok(dd) => match spec_coeff_gcd::<K>(
                                        ctx,
                                        nn,
                                        int_datum(0),
                                        fuel,
                                    ) {
                                        Err(e) => Err(e),
                                        Ok(k1) => match spec_coeff_gcd::<K>(ctx, dd, k1, fuel) {
                                            Err(e) => Err(e),
                                            Ok(k) => if k == int_datum(0) {
                                                Ok((nn, dd))
                                            } else {
                                                match spec_divide_coeffs::<K>(ctx, nn, k, fuel) {
                                                    Err(e) => Err(e),
                                                    Ok(rn) => match spec_divide_coeffs::<K>(
                                                        ctx,
                                                        dd,
                                                        k,
                                                        fuel,
                                                    ) {
                                                        Err(e) => Err(e),
                                                        Ok(rd) => Ok((rn, rd)),
                                                    },
                                                }
                                            },
                                        },
                                    },
                                },
                            },
                        }
                    },
                },
            },
        },
    }
}

/// The quotient and the remainder of two polynomials in one variable, as a
/// list of two polynomials.
pub open spec fn spec_poly_div<K: RealKernel>(ctx: Tables<K>, args: Datum, fuel: nat) -> Outcome
    decreases fuel, 95nat, 0nat,
{
    match same_variable_parts(args) {
        Err(e) => Err(e),
        Ok(p) => match spec_div_terms::<K>(ctx, p.1, p.2, fuel) {
            Err(e) => Err(e),
            Ok(qr) => Ok(
                list2(
                    tagged(polynomial_tag(), poly_of(p.0, qr.0)),
                    tagged(polynomial_tag(), poly_of(p.0, qr.1)),
                ),
            ),
        },
    }
}

/// The greatest common divisor of two polynomials in one variable.
pub open spec fn spec_poly_gcd<K: RealKernel>(ctx: Tables<K>, args: Datum, fuel: nat) -> Outcome
    decreases fuel, 95nat, 0nat,
{
    match same_variable_parts(args) {
        Err(e) => Err(e),
        Ok(p) => match spec_gcd_terms::<K>(ctx, p.1, p.2, fuel) {
            Err(e) => Err(e),
            Ok(g) => Ok(tagged(polynomial_tag(), poly_of(p.0, g))),
        },
    }
}

/// Two polynomials in one variable as numerator and denominator in lowest
/// terms, as a list of two polynomials.
pub open spec fn spec_poly_reduce<K: RealKernel>(ctx: Tables<K>, args: Datum, fuel: nat) -> Outcome
    decreases fuel, 95nat, 0nat,
{
    match same_variable_parts(args) {
        Err(e) => Err(e),
        Ok(p) => match spec_reduce_terms::<K>(ctx, p.1, p.2, fuel) {
            Err(e) => Err(e),
            Ok(nd) => Ok(
                list2(
                    tagged(polynomial_tag(), poly_of(p.0, nd.0)),
                    tagged(polynomial_tag(), poly_of(p.0, nd.1)),
                ),
            ),
        },
    }
}

fn two_integers(args: &List) -> (r: Result<(i32, i32), ArithError>)
    ensures
        match r {
            Ok(v) => two_ints(args@) == Some((v.0 as int, v.1 as int)),
            Err(e) => two_ints(args@) is None && e@ == Failure::BadArgument,
        },
{
    match first_two(args) {
        Some((a, b)) => match (integer_of(a), integer_of(b)) {
            (Some(x), Some(y)) => Ok((x, y)),
            _ => Err(ArithError::BadArgument),
        },
        None => Err(ArithError::BadArgument),
    }
}

/// The greatest common divisor of two integers, where it is one of 32
/// bits.
pub fn integer_gcd<K: RealKernel>(arith: &ArithmeticContext<K>, args: &List, fuel: usize) -> (r:
    Result<List, ArithError>)
    ensures
        outcome(r) == spec_integer_gcd::<K>(arith@, args@, fuel as nat),
    decreases fuel, 90nat, 0nat,
{
    let (a, b) = two_integers(args)?;
    match greatest_common_divisor(a, b) {
        None => Err(ArithError::Overflow),
        Some(g) => crate::numbers::make_integer_at(g, arith, fuel),
    }
}

/// Two integers divided by their greatest common divisor, as a list of
/// two. A pair of zeros fails.
pub fn integer_reduce(args: &List) -> (r: Result<List, ArithError>)
    ensures
        outcome(r) == spec_integer_reduce(args@),
{
    let (a, b) = two_integers(args)?;
    match greatest_common_divisor(a, b) {
        None => Err(ArithError::Overflow),
        Some(g) => {
            if g == 0 {
                return Err(ArithError::DivisionByZero);
            }
            proof {
                crate::numbers::lemma_trunc_div_bound(a as int, g as int);
                crate::numbers::lemma_trunc_div_bound(b as int, g as int);
            }
            Ok(List::pair(List::integer(a / g), List::pair(List::integer(b / g), List::Nil)))
        },
    }
}

/// Multiplies `c` with itself `e` times, with calls nested at most `fuel`
/// deep.
pub fn power<K: RealKernel>(c: &List, e: i64, arith: &ArithmeticContext<K>, fuel: usize) -> (r:
    Result<List, ArithError>)
    ensures
        outcome(r) == spec_power::<K>(arith@, c@, e as int, fuel as nat),
    decreases fuel, 12nat, (if e > 0 { e as int } else { 0 }),
{
    if e <= 0 {
        Ok(List::integer(1))
    } else {
        let rest = power(c, e - 1, arith, fuel)?;
        arith.binary_at("mul", c, &rest, fuel)
    }
}

/// Multiplies every coefficient by `factor`, with calls nested at most
/// `fuel` deep.
pub fn scale_terms<K: RealKernel>(factor: &List, l: &List, arith: &ArithmeticContext<K>, fuel: usize) -> (r:
    Result<List, ArithError>)
    ensures
        outcome(r) == spec_scale_terms::<K>(arith@, factor@, l@, fuel as nat),
    decreases fuel, 87nat, 0nat,
{
    let t = single_term_at(List::integer(0), factor.clone(), arith, fuel)?;
    mul_term_by_all_terms(&t, l, arith, fuel)
}

/// Divides one term list by another, with calls nested at most `fuel`
/// deep: the quotient and the remainder.
pub fn div_terms<K: RealKernel>(l1: &List, l2: &List, arith: &ArithmeticContext<K>, fuel: usize) -> (r:
    Result<(List, List), ArithError>)
    ensures
        outcome2(r) == spec_div_terms::<K>(arith@, l1@, l2@, fuel as nat),
    decreases fuel, 88nat, 0nat,
{
    if is_empty_term_list(l1)? {
        let empty = make_empty_term_list_at(arith, fuel)?;
        return Ok((empty.clone(), empty));
    }
    if is_empty_term_list(l2)? {
        return Err(ArithError::DivisionByZero);
    }
    let t1 = arith.unary_at("first_term", l1, fuel)?;
    let t2 = arith.unary_at("first_term", l2, fuel)?;
    let (order1, coeff1) = match lead_of(&t1) {
        Ok(p) => p,
        Err(e) => {
            return Err(e);
        },
    };
    let (order2, coeff2) = match lead_of(&t2) {
        Ok(p) => p,
        Err(e) => {
            return Err(e);
        },
    };
    let (o1, o2) = match (integer_of(order1), integer_of(order2)) {
        (Some(a), Some(b)) => (a, b),
        _ => {
            return Err(ArithError::BadArgument);
        },
    };
    if o2 > o1 {
        let empty = make_empty_term_list_at(arith, fuel)?;
        return Ok((empty, l1.clone()));
    }
    let c = arith.binary_at("div", coeff1, coeff2, fuel)?;
    let o = arith.binary_at("sub", order1, order2, fuel)?;
    let first = single_term_at(o, c, arith, fuel)?;
    let product = mul_term_by_all_terms(&first, l2, arith, fuel)?;
    let minus = negative_terms(&product, arith, fuel)?;
    let left = add_terms(l1, &minus, arith, fuel)?;
    if fuel == 0 {
        return Err(ArithError::DepthExceeded);
    }
    let (q, r) = div_terms(&left, l2, arith, fuel - 1)?;
    let q = arith.binary_at("adjoin_term", &first, &q, fuel)?;
    Ok((q, r))
}

fn leading<K: RealKernel>(p: &List, q: &List, arith: &ArithmeticContext<K>, fuel: usize) -> (r:
    Result<(i32, i32, List), ArithError>)
    ensures
        match r {
            Ok(f) => spec_leading::<K>(arith@, p@, q@, fuel as nat) == Ok::<
                (int, int, Datum),
                Failure,
            >((f.0 as int, f.1 as int, f.2@)),
            Err(e) => spec_leading::<K>(arith@, p@, q@, fuel as nat) == Err::<
                (int, int, Datum),
                Failure,
            >(e@),
        },
    decreases fuel, 80nat, 0nat,
{
    let t1 = arith.unary_at("first_term", p, fuel)?;
    let t2 = arith.unary_at("first_term", q, fuel)?;
    let (order1, _) = match lead_of(&t1) {
        Ok(p) => p,
        Err(e) => {
            return Err(e);
        },
    };
    let (order2, coeff2) = match lead_of(&t2) {
        Ok(p) => p,
        Err(e) => {
            return Err(e);
        },
    };
    match (integer_of(order1), integer_of(order2)) {
        (Some(a), Some(b)) => Ok((a, b, coeff2.clone())),
        _ => Err(ArithError::BadArgument),
    }
}

/// The remainder of the pseudo-division of `p` by `q`, with calls nested
/// at most `fuel` deep.
pub fn pseudoremainder_terms<K: RealKernel>(
    p: &List,
    q: &List,
    arith: &ArithmeticContext<K>,
    fuel: usize,
) -> (r: Result<List, ArithError>)
    ensures
        outcome(r) == spec_pseudoremainder_terms::<K>(arith@, p@, q@, fuel as nat),
    decreases fuel, 89nat, 0nat,
{
    if is_empty_term_list(p)? {
        return Ok(p.clone());
    }
    let (o1, o2, c) = leading(p, q, arith, fuel)?;
    let factor = power(&c, 1 + (o1 as i64) - (o2 as i64), arith, fuel)?;
    let scaled = scale_terms(&factor, p, arith, fuel)?;
    let (_, r) = div_terms(&scaled, q, arith, fuel)?;
    Ok(r)
}

/// The greatest common divisor of `start` and all coefficients, with
/// calls nested at most `fuel` deep.
pub fn coeff_gcd<K: RealKernel>(l: &List, start: List, arith: &ArithmeticContext<K>, fuel: usize) -> (r:
    Result<List, ArithError>)
    ensures
        outcome(r) == spec_coeff_gcd::<K>(arith@, l@, start@, fuel as nat),
    decreases fuel, 85nat, 0nat,
{
    if is_empty_term_list(l)? {
        return Ok(start);
    }
    let t = arith.unary_at("first_term", l, fuel)?;
    let (_, c) = match lead_of(&t) {
        Ok(p) => p,
        Err(e) => {
            return Err(e);
        },
    };
    let g = arith.binary_at("gcd", &start, c, fuel)?;
    let rest = arith.unary_at("rest_terms", l, fuel)?;
    if fuel == 0 {
        return Err(ArithError::DepthExceeded);
    }
    coeff_gcd(&rest, g, arith, fuel - 1)
}

/// Divides every coefficient by `k`, with calls nested at most `fuel`
/// deep.
pub fn divide_coeffs<K: RealKernel>(l: &List, k: &List, arith: &ArithmeticContext<K>, fuel: usize) -> (r:
    Result<List, ArithError>)
    ensures
        outcome(r) == spec_divide_coeffs::<K>(arith@, l@, k@, fuel as nat),
    decreases fuel, 85nat, 0nat,
{
    if is_empty_term_list(l)? {
        return make_empty_term_list_at(arith, fuel);
    }
    let t = arith.unary_at("first_term", l, fuel)?;
    let (o, c) = match lead_of(&t) {
        Ok(p) => p,
        Err(e) => {
            return Err(e);
        },
    };
    let c = arith.binary_at("div", c, k, fuel)?;
    let first = single_term_at(o.clone(), c, arith, fuel)?;
    let rest = arith.unary_at("rest_terms", l, fuel)?;
    if fuel == 0 {
        return Err(ArithError::DepthExceeded);
    }
    let more = divide_coeffs(&rest, k, arith, fuel - 1)?;
    arith.binary_at("adjoin_term", &first, &more, fuel)
}

fn primitive_part<K: RealKernel>(l: &List, arith: &ArithmeticContext<K>, fuel: usize) -> (r: Result<
    List,
    ArithError,
>)
    ensures
        outcome(r) == spec_primitive_part::<K>(arith@, l@, fuel as nat),
    decreases fuel, 86nat, 0nat,
{
    let k = coeff_gcd(l, List::integer(0), arith, fuel)?;
    if k.equals(&List::integer(0)) {
        Ok(l.clone())
    } else {
        divide_coeffs(l, &k, arith, fuel)
    }
}

/// The greatest common divisor of two term lists, with calls nested at
/// most `fuel` deep.
pub fn gcd_terms<K: RealKernel>(a: &List, b: &List, arith: &ArithmeticContext<K>, fuel: usize) -> (r:
    Result<List, ArithError>)
    ensures
        outcome(r) == spec_gcd_terms::<K>(arith@, a@, b@, fuel as nat),
    decreases fuel, 92nat, 0nat,
{
    if is_empty_term_list(b)? {
        return primitive_part(a, arith, fuel);
    }
    let r = pseudoremainder_terms(a, b, arith, fuel)?;
    if fuel == 0 {
        return Err(ArithError::DepthExceeded);
    }
    gcd_terms(b, &r, arith, fuel - 1)
}

fn scaled_quotient<K: RealKernel>(
    factor: &List,
    l: &List,
    g: &List,
    arith: &ArithmeticContext<K>,
    fuel: usize,
) -> (r: Result<List, ArithError>)
    ensures
        outcome(r) == spec_scaled_quotient::<K>(arith@, factor@, l@, g@, fuel as nat),
    decreases fuel, 89nat, 0nat,
{
    let scaled = scale_terms(factor, l, arith, fuel)?;
    let (q, _) = div_terms(&scaled, g, arith, fuel)?;
    Ok(q)
}

/// Brings a numerator and a denominator to lowest terms, with calls
/// nested at most `fuel` deep.
pub fn reduce_terms<K: RealKernel>(n: &List, d: &List, arith: &ArithmeticContext<K>, fuel: usize) -> (r:
    Result<(List, List), ArithError>)
    ensures
        outcome2(r) == spec_reduce_terms::<K>(arith@, n@, d@, fuel as nat),
    decreases fuel, 93nat, 0nat,
{
    let g = gcd_terms(n, d, arith, fuel)?;
    if is_empty_term_list(&g)? {
        return Err(ArithError::DivisionByZero);
    }
    let (on, og, c) = leading(n, &g, arith, fuel)?;
    let (od, _, _) = leading(d, &g, arith, fuel)?;
    let top = if on >= od {
        on
    } else {
        od
    };
    let factor = power(&c, 1 + (top as i64) - (og as i64), arith, fuel)?;
    let nn = scaled_quotient(&factor, n, &g, arith, fuel)?;
    let dd = scaled_quotient(&factor, d, &g, arith, fuel)?;
    let k1 = coeff_gcd(&nn, List::integer(0), arith, fuel)?;
    let k = coeff_gcd(&dd, k1, arith, fuel)?;
    if k.equals(&List::integer(0)) {
        Ok((nn, dd))
    } else {
        let rn = divide_coeffs(&nn, &k, arith, fuel)?;
        let rd = divide_coeffs(&dd, &k, arith, fuel)?;
        Ok((rn, rd))
    }
}

fn same_parts(args: &List) -> (r: Result<(&List, &List, &List), ArithError>)
    ensures
        match r {
            Ok(p) => same_variable_parts(args@) == Ok::<(Datum, Datum, Datum), Failure>(
                (p.0@, p.1@, p.2@),
            ),
            Err(e) => same_variable_parts(args@) == Err::<(Datum, Datum, Datum), Failure>(e@),
        },
{
    let (pa, pb) = match first_two(args) {
        Some(v) => v,
        None => {
            return Err(ArithError::BadArgument);
        },
    };
    if !pa.is_pair() || !pb.is_pair() {
        return Err(ArithError::BadArgument);
    }
    if crate::poly::is_same_variable(pa.head(), pb.head()) {
        Ok((pa.head(), pa.tail(), pb.tail()))
    } else {
        Err(ArithError::VariableMismatch)
    }
}

fn tagged_poly(variable: &List, terms: List) -> (r: List)
    ensures
        r@ == tagged(polynomial_tag(), poly_of(variable@, terms@)),
{
    attach_tag("polynomial", &List::pair(variable.clone(), terms))
}

/// The quotient and the remainder of two polynomials in one variable, as a
/// list of two polynomials.
pub fn poly_div<K: RealKernel>(arith: &ArithmeticContext<K>, args: &List, fuel: usize) -> (r: Result<
    List,
    ArithError,
>)
    ensures
        outcome(r) == spec_poly_div::<K>(arith@, args@, fuel as nat),
    decreases fuel, 95nat, 0nat,
{
    let (v, l1, l2) = same_parts(args)?;
    let (q, r) = div_terms(l1, l2, arith, fuel)?;
    Ok(List::pair(tagged_poly(v, q), List::pair(tagged_poly(v, r), List::Nil)))
}

/// The greatest common divisor of two polynomials in one variable.
pub fn poly_gcd<K: RealKernel>(arith: &ArithmeticContext<K>, args: &List, fuel: usize) -> (r: Result<
    List,
    ArithError,
>)
    ensures
        outcome(r) == spec_poly_gcd::<K>(arith@, args@, fuel as nat),
    decreases fuel, 95nat, 0nat,
{
    let (v, l1, l2) = same_parts(args)?;
    let g = gcd_terms(l1, l2, arith, fuel)?;
    Ok(tagged_poly(v, g))
}

/// Two polynomials in one variable as numerator and denominator in lowest
/// terms, as a list of two polynomials.
pub fn poly_reduce<K: RealKernel>(arith: &ArithmeticContext<K>, args: &List, fuel: usize) -> (r:
    Result<List, ArithError>)
    ensures
        outcome(r) == spec_poly_reduce::<K>(arith@, args@, fuel as nat),
    decreases fuel, 95nat, 0nat,
{
    let (v, l1, l2) = same_parts(args)?;
    let (n, d) = reduce_terms(l1, l2, arith, fuel)?;
    Ok(List::pair(tagged_poly(v, n), List::pair(tagged_poly(v, d), List::Nil)))
}

} // verus!
