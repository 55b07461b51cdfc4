//! The rational numbers: a numerator and a denominator under the tag
//! `rational`. Both may be any values that the generic operations take;
//! between two integers the fraction is kept in lowest terms.
use vstd::prelude::*;
use crate::context::{first_of, first_two, list2, one, two, ArithmeticContext, Tables};
use crate::engine::{spec_binary, spec_construct, spec_drop, spec_drop_to_type, spec_unary};
use crate::error::{outcome, ArithError, Failure, Outcome};
use crate::kernel::RealKernel;
use crate::list::{bool_datum, cons, int_datum, text_datum, Datum, List};
use crate::numbers::{fits, int_of, integer_of, spec_make_integer, trunc_div};
use crate::reals::{make_float_at, spec_make_float};
use crate::tags::{attach_tag, integer_tag, rational_tag, real_tag, tag_of, tagged, type_tag};

verus! {

/// Whether `c` divides `a`.
pub open spec fn divides(c: int, a: int) -> bool {
    c != 0 && a % c == 0
}

/// Whether `g` is the greatest common divisor of `a` and `b`: zero where
/// both are zero, and else the greatest of the positive integers that
/// divide both.
pub open spec fn is_gcd(a: int, b: int, g: int) -> bool {
    if a == 0 && b == 0 {
        g == 0
    } else {
        &&& g > 0
        &&& divides(g, a)
        &&& divides(g, b)
        &&& forall|c: int| c > 0 && #[trigger] divides(c, a) && divides(c, b) ==> c <= g
    }
}

/// The greatest common divisor of `a` and `b`.
pub open spec fn gcd_of(a: int, b: int) -> int {
    choose|g: int| is_gcd(a, b, g)
}

/// Whether the greatest common divisor of two integers of 32 bits is one
/// of 32 bits too: all but the pairs of the least integer with itself or
/// with zero.
pub open spec fn gcd_fits(a: int, b: int) -> bool {
    !(a == i32::MIN && (b == 0 || b == i32::MIN)) && !(b == i32::MIN && a == 0)
}

/// Two integers have one greatest common divisor at most.
pub proof fn lemma_gcd_unique(a: int, b: int, g1: int, g2: int)
    requires
        is_gcd(a, b, g1),
        is_gcd(a, b, g2),
    ensures
        g1 == g2,
{
}

/// The greatest of the integers from 1 to `n` that divide both `a` and
/// `b`, and zero where there is none.
pub open spec fn greatest_common(a: int, b: int, n: nat) -> int
    decreases n,
{
    if n == 0 {
        0
    } else if divides(n as int, a) && divides(n as int, b) {
        n as int
    } else {
        greatest_common(a, b, (n - 1) as nat)
    }
}

proof fn lemma_greatest_common(a: int, b: int, n: nat)
    ensures
        0 <= greatest_common(a, b, n) <= n,
        greatest_common(a, b, n) > 0 ==> divides(greatest_common(a, b, n), a) && divides(
            greatest_common(a, b, n),
            b,
        ),
        forall|c: int|
            0 < c <= n && #[trigger] divides(c, a) && divides(c, b) ==> c <= greatest_common(
                a,
                b,
                n,
            ),
    decreases n,
{
    if n > 0 {
        lemma_greatest_common(a, b, (n - 1) as nat);
    }
}

/// A positive divisor of an integer that is not zero is no greater than
/// its size.
pub proof fn lemma_divisor_bound(c: int, a: int)
    requires
        c > 0,
        a != 0,
        divides(c, a),
    ensures
        c <= a || c <= -a,
{
    vstd::arithmetic::div_mod::lemma_fundamental_div_mod(a, c);
    let q = a / c;
    assert(c <= a || c <= -a) by (nonlinear_arith)
        requires
            a == c * q,
            c > 0,
            a != 0,
    ;
}

/// Any two integers have a greatest common divisor.
pub proof fn lemma_gcd_exists(a: int, b: int)
    ensures
        is_gcd(a, b, gcd_of(a, b)),
{
    if a == 0 && b == 0 {
        assert(is_gcd(a, b, 0));
    } else {
        let size_a = if a >= 0 {
            a
        } else {
            -a
        };
        let size_b = if b >= 0 {
            b
        } else {
            -b
        };
        let n = (size_a + size_b) as nat;
        let g = greatest_common(a, b, n);
        lemma_greatest_common(a, b, n);
        assert(divides(1, a) && divides(1, b));
        assert forall|c: int| c > 0 && #[trigger] divides(c, a) && divides(c, b) implies c
            <= g by {
            if a != 0 {
                lemma_divisor_bound(c, a);
            } else {
                lemma_divisor_bound(c, b);
            }
        }
        assert(is_gcd(a, b, g));
    }
}

/// Two integers divided by their greatest common divisor have the
/// greatest common divisor 1.
pub proof fn lemma_lowest_terms(a: int, b: int)
    requires
        !(a == 0 && b == 0),
    ensures
        gcd_of(a, b) > 0,
        is_gcd(trunc_div(a, gcd_of(a, b)), trunc_div(b, gcd_of(a, b)), 1),
{
    lemma_gcd_exists(a, b);
    let g = gcd_of(a, b);
    lemma_exact_division(a, g);
    lemma_exact_division(b, g);
    let p = trunc_div(a, g);
    let q = trunc_div(b, g);
    assert(!(p == 0 && q == 0));
    assert forall|c: int| c > 0 && #[trigger] divides(c, p) && divides(c, q) implies c <= 1 by {
        vstd::arithmetic::div_mod::lemma_fundamental_div_mod(p, c);
        vstd::arithmetic::div_mod::lemma_fundamental_div_mod(q, c);
        let m = c * g;
        assert(m > 0) by (nonlinear_arith)
            requires
                c > 0,
                g > 0,
                m == c * g,
        ;
        assert(a == (p / c) * m) by (nonlinear_arith)
            requires
                a == p * g,
                p == c * (p / c),
                m == c * g,
        ;
        assert(b == (q / c) * m) by (nonlinear_arith)
            requires
                b == q * g,
                q == c * (q / c),
                m == c * g,
        ;
        vstd::arithmetic::div_mod::lemma_mod_multiples_basic(p / c, m);
        vstd::arithmetic::div_mod::lemma_mod_multiples_basic(q / c, m);
        assert(divides(m, a) && divides(m, b));
        assert(c <= 1) by (nonlinear_arith)
            requires
                c * g <= g,
                g > 0,
        ;
    }
}

/// The greatest common divisor of any integer and 1 is 1.
pub proof fn lemma_gcd_with_one(a: int)
    ensures
        gcd_of(a, 1) == 1,
{
    lemma_gcd_exists(a, 1);
    assert forall|c: int| c > 0 && #[trigger] divides(c, a) && divides(c, 1) implies c <= 1 by {
        lemma_divisor_bound(c, 1);
    }
    assert(is_gcd(a, 1, 1));
    lemma_gcd_unique(a, 1, 1, gcd_of(a, 1));
}

/// What the constructor makes of two integers is a fraction in lowest
/// terms: its numerator and its denominator have the greatest common
/// divisor 1.
pub proof fn lemma_rational_in_lowest_terms<K: RealKernel>(ctx: Tables<K>, a: int, b: int, fuel: nat)
    ensures
        spec_rational_make::<K>(ctx, list2(int_datum(a), int_datum(b)), fuel) matches Ok(r) ==> {
            &&& r == cons(
                text_datum(rational_tag()),
                cons(
                    int_datum(trunc_div(a, gcd_of(a, b))),
                    int_datum(trunc_div(b, gcd_of(a, b))),
                ),
            )
            &&& is_gcd(trunc_div(a, gcd_of(a, b)), trunc_div(b, gcd_of(a, b)), 1)
        },
{
    crate::tags::lemma_tower_tags_differ();
    lemma_gcd_exists(a, b);
    if !(a == 0 && b == 0) {
        lemma_lowest_terms(a, b);
    }
}

/// The greatest common divisor of two integers by `num::Integer::gcd`.
/// The result is zero where both are zero; else it is positive, divides
/// both, and no greater integer does. The pairs whose greatest common
/// divisor is not an integer of 32 bits are left out.
#[verifier::external_body]
fn gcd_i32(a: i32, b: i32) -> (g: i32)
    requires
        gcd_fits(a as int, b as int),
    ensures
        is_gcd(a as int, b as int, g as int),
{
    num::Integer::gcd(&a, &b)
}

/// The numerator and the denominator of the contents of a rational number.
pub open spec fn spec_rational_parts<K: RealKernel>(ctx: Tables<K>, x: Datum, fuel: nat) -> Result<
    (Datum, Datum),
    Failure,
>
    decreases fuel, 80nat, 0nat,
{
    let z = tagged(rational_tag(), x);
    match spec_unary::<K>(ctx, "numer"@, z, fuel) {
        Err(e) => Err(e),
        Ok(n) => match spec_unary::<K>(ctx, "denom"@, z, fuel) {
            Err(e) => Err(e),
            Ok(d) => Ok((n, d)),
        },
    }
}

/// The rational number of numerator `n` and denominator `d`, as the
/// constructor makes it.
pub open spec fn spec_make_rational<K: RealKernel>(ctx: Tables<K>, n: Datum, d: Datum, fuel: nat) -> Outcome
    decreases fuel, 21nat, 0nat,
{
    spec_construct::<K>(ctx, "make"@, rational_tag(), list2(n, d), fuel)
}

/// The fraction of two integers in lowest terms.
pub open spec fn reduced(a: int, b: int) -> Outcome {
    if !fits(a) || !fits(b) || !gcd_fits(a, b) {
        Err(Failure::Overflow)
    } else if gcd_of(a, b) == 0 {
        Err(Failure::DivisionByZero)
    } else {
        Ok(
            tagged(
                rational_tag(),
                cons(
                    int_datum(trunc_div(a, gcd_of(a, b))),
                    int_datum(trunc_div(b, gcd_of(a, b))),
                ),
            ),
        )
    }
}

/// The constructor of the rational numbers. Neither part may be a real; a
/// denominator that is zero fails. Two integers are divided by their
/// greatest common divisor.
pub open spec fn spec_rational_make<K: RealKernel>(ctx: Tables<K>, args: Datum, fuel: nat) -> Outcome
    decreases fuel, 90nat, 0nat,
{
    match two(args) {
        None => Err(Failure::BadArgument),
        Some((n, d)) => match tag_of(n) {
            Err(e) => Err(e),
            Ok(tn) => match tag_of(d) {
                Err(e) => Err(e),
                Ok(td) => if tn == text_datum(real_tag()) || td == text_datum(real_tag()) {
                    Err(Failure::BadArgument)
                } else {
                    match spec_unary::<K>(ctx, "is_equal_to_zero"@, d, fuel) {
                        Err(e) => Err(e),
                        Ok(z) => if z == bool_datum(true) {
                            Err(Failure::DivisionByZero)
                        } else if tn == text_datum(integer_tag()) && td == text_datum(
                            integer_tag(),
                        ) {
                            match (int_of(n), int_of(d)) {
                                (Some(a), Some(b)) => reduced(a, b),
                                _ => Err(Failure::BadArgument),
                            }
                        } else {
                            Ok(tagged(rational_tag(), cons(n, d)))
                        },
                    }
                },
            },
        },
    }
}

/// The numerator: the first part of the contents.
pub open spec fn spec_rational_numer(args: Datum) -> Outcome {
    match one(args) {
        Some(Datum::Cons(n, _)) => Ok(*n),
        _ => Err(Failure::BadArgument),
    }
}

/// The denominator: the second part of the contents.
pub open spec fn spec_rational_denom(args: Datum) -> Outcome {
    match one(args) {
        Some(Datum::Cons(_, d)) => Ok(*d),
        _ => Err(Failure::BadArgument),
    }
}

/// The parts of the two rational numbers that a procedure is applied to:
/// numerator and denominator of the first, then of the second.
pub open spec fn spec_rational_four<K: RealKernel>(ctx: Tables<K>, args: Datum, fuel: nat) -> Result<
    (Datum, Datum, Datum, Datum),
    Failure,
>
    decreases fuel, 81nat, 0nat,
{
    match two(args) {
        None => Err(Failure::BadArgument),
        Some((x, y)) => match spec_rational_parts::<K>(ctx, x, fuel) {
            Err(e) => Err(e),
            Ok(px) => match spec_rational_parts::<K>(ctx, y, fuel) {
                Err(e) => Err(e),
                Ok(py) => Ok((px.0, px.1, py.0, py.1)),
            },
        },
    }
}

/// `a*d` combined with `c*b` by the operation `op`, over `b*d`: the sum or
/// the difference of `a/b` and `c/d`.
pub open spec fn spec_rational_cross<K: RealKernel>(
    ctx: Tables<K>,
    op: Seq<char>,
    args: Datum,
    fuel: nat,
) -> Outcome
    decreases fuel, 90nat, 0nat,
{
    match spec_rational_four::<K>(ctx, args, fuel) {
        Err(e) => Err(e),
        Ok(p) => match spec_binary::<K>(ctx, "mul"@, p.0, p.3, fuel) {
            Err(e) => Err(e),
            Ok(left) => match spec_binary::<K>(ctx, "mul"@, p.2, p.1, fuel) {
                Err(e) => Err(e),
                Ok(right) => match spec_binary::<K>(ctx, op, left, right, fuel) {
                    Err(e) => Err(e),
                    Ok(n) => match spec_binary::<K>(ctx, "mul"@, p.1, p.3, fuel) {
                        Err(e) => Err(e),
                        Ok(d) => spec_make_rational::<K>(ctx, n, d, fuel),
                    },
                },
            },
        },
    }
}

/// The sum of `a/b` and `c/d`: `a*d + c*b` over `b*d`.
pub open spec fn spec_rational_add<K: RealKernel>(ctx: Tables<K>, args: Datum, fuel: nat) -> Outcome
    decreases fuel, 91nat, 0nat,
{
    spec_rational_cross::<K>(ctx, "add"@, args, fuel)
}

/// The difference of `a/b` and `c/d`: `a*d - c*b` over `b*d`.
pub open spec fn spec_rational_sub<K: RealKernel>(ctx: Tables<K>, args: Datum, fuel: nat) -> Outcome
    decreases fuel, 91nat, 0nat,
{
    spec_rational_cross::<K>(ctx, "sub"@, args, fuel)
}

/// The product of `a/b` and `c/d`: `a*c` over `b*d`.
pub open spec fn spec_rational_mul<K: RealKernel>(ctx: Tables<K>, args: Datum, fuel: nat) -> Outcome
    decreases fuel, 90nat, 0nat,
{
    match spec_rational_four::<K>(ctx, args, fuel) {
        Err(e) => Err(e),
        Ok(p) => match spec_binary::<K>(ctx, "mul"@, p.0, p.2, fuel) {
            Err(e) => Err(e),
            Ok(n) => match spec_binary::<K>(ctx, "mul"@, p.1, p.3, fuel) {
                Err(e) => Err(e),
                Ok(d) => spec_make_rational::<K>(ctx, n, d, fuel),
            },
        },
    }
}

/// The quotient of `a/b` and `c/d`: `a*d` over `b*c`.
pub open spec fn spec_rational_div<K: RealKernel>(ctx: Tables<K>, args: Datum, fuel: nat) -> Outcome
    decreases fuel, 90nat, 0nat,
{
    match spec_rational_four::<K>(ctx, args, fuel) {
        Err(e) => Err(e),
        Ok(p) => match spec_binary::<K>(ctx, "mul"@, p.0, p.3, fuel) {
            Err(e) => Err(e),
            Ok(n) => match spec_binary::<K>(ctx, "mul"@, p.1, p.2, fuel) {
                Err(e) => Err(e),
                Ok(d) => spec_make_rational::<K>(ctx, n, d, fuel),
            },
        },
    }
}

/// Whether `x` and `u` are equal, and then `y` and `v` too; the second
/// pair is compared only where the first is equal.
pub open spec fn spec_both_equal<K: RealKernel>(
    ctx: Tables<K>,
    x: Datum,
    u: Datum,
    y: Datum,
    v: Datum,
    fuel: nat,
) -> Outcome
    decreases fuel, 80nat, 0nat,
{
    match spec_binary::<K>(ctx, "is_equal"@, x, u, fuel) {
        Err(e) => Err(e),
        Ok(first) => if first == bool_datum(true) {
            match spec_binary::<K>(ctx, "is_equal"@, y, v, fuel) {
                Err(e) => Err(e),
                Ok(second) => Ok(bool_datum(second == bool_datum(true))),
            }
        } else {
            Ok(bool_datum(false))
        },
    }
}

/// Two rational numbers are equal where their numerators are and their
/// denominators are.
pub open spec fn spec_rational_equal<K: RealKernel>(ctx: Tables<K>, args: Datum, fuel: nat) -> Outcome
    decreases fuel, 90nat, 0nat,
{
    match spec_rational_four::<K>(ctx, args, fuel) {
        Err(e) => Err(e),
        Ok(p) => spec_both_equal::<K>(ctx, p.0, p.2, p.1, p.3, fuel),
    }
}

/// The numerator of the one rational number that a procedure is applied
/// to.
pub open spec fn spec_numer_of_arg<K: RealKernel>(ctx: Tables<K>, args: Datum, fuel: nat) -> Outcome
    decreases fuel, 80nat, 0nat,
{
    match one(args) {
        None => Err(Failure::BadArgument),
        Some(x) => spec_unary::<K>(ctx, "numer"@, tagged(rational_tag(), x), fuel),
    }
}

/// The denominator of the one rational number that a procedure is applied
/// to.
pub open spec fn spec_denom_of_arg<K: RealKernel>(ctx: Tables<K>, args: Datum, fuel: nat) -> Outcome
    decreases fuel, 80nat, 0nat,
{
    match one(args) {
        None => Err(Failure::BadArgument),
        Some(x) => spec_unary::<K>(ctx, "denom"@, tagged(rational_tag(), x), fuel),
    }
}

/// A rational number is zero where its numerator is.
pub open spec fn spec_rational_is_zero<K: RealKernel>(ctx: Tables<K>, args: Datum, fuel: nat) -> Outcome
    decreases fuel, 90nat, 0nat,
{
    match spec_numer_of_arg::<K>(ctx, args, fuel) {
        Err(e) => Err(e),
        Ok(n) => match spec_unary::<K>(ctx, "is_equal_to_zero"@, n, fuel) {
            Err(e) => Err(e),
            Ok(z) => Ok(bool_datum(z == bool_datum(true))),
        },
    }
}

/// The opposite of a rational number: that of the numerator over the
/// denominator.
pub open spec fn spec_rational_negative<K: RealKernel>(ctx: Tables<K>, args: Datum, fuel: nat) -> Outcome
    decreases fuel, 90nat, 0nat,
{
    match spec_numer_of_arg::<K>(ctx, args, fuel) {
        Err(e) => Err(e),
        Ok(n) => match spec_denom_of_arg::<K>(ctx, args, fuel) {
            Err(e) => Err(e),
            Ok(d) => match spec_unary::<K>(ctx, "negative"@, n, fuel) {
                Err(e) => Err(e),
                Ok(m) => spec_make_rational::<K>(ctx, m, d, fuel),
            },
        },
    }
}

/// The numerator and the denominator of the one rational number that a
/// procedure is applied to, each brought down the tower, as two integers.
pub open spec fn spec_integer_parts<K: RealKernel>(ctx: Tables<K>, args: Datum, fuel: nat) -> Result<
    Option<(int, int)>,
    Failure,
>
    decreases fuel, 81nat, 0nat,
{
    match spec_numer_of_arg::<K>(ctx, args, fuel) {
        Err(e) => Err(e),
        Ok(n) => match spec_denom_of_arg::<K>(ctx, args, fuel) {
            Err(e) => Err(e),
            Ok(d) => match spec_drop::<K>(ctx, n, fuel) {
                Err(e) => Err(e),
                Ok(dn) => match spec_drop::<K>(ctx, d, fuel) {
                    Err(e) => Err(e),
                    Ok(dd) => match (int_of(dn), int_of(dd)) {
                        (Some(a), Some(b)) => Ok(Some((a, b))),
                        _ => Ok(None),
                    },
                },
            },
        },
    }
}

/// A fraction of two integers as the real nearest to their quotient.
pub open spec fn spec_rational_raise<K: RealKernel>(ctx: Tables<K>, args: Datum, fuel: nat) -> Outcome
    decreases fuel, 90nat, 0nat,
{
    match spec_integer_parts::<K>(ctx, args, fuel) {
        Err(e) => Err(e),
        Ok(None) => Err(Failure::BadArgument),
        Ok(Some((a, b))) => spec_make_float::<K>(
            ctx,
            ctx.kernel.quotient(ctx.kernel.of_int(a), ctx.kernel.of_int(b)),
            fuel,
        ),
    }
}

/// The greatest integer that is not above `a/b`.
pub open spec fn floor_div(a: int, b: int) -> int {
    if b > 0 {
        a / b
    } else {
        (-a) / (-b)
    }
}

/// A fraction of two integers as the greatest integer not above it.
pub open spec fn spec_rational_project<K: RealKernel>(ctx: Tables<K>, args: Datum, fuel: nat) -> Outcome
    decreases fuel, 90nat, 0nat,
{
    match spec_integer_parts::<K>(ctx, args, fuel) {
        Err(e) => Err(e),
        Ok(None) => Err(Failure::NoResult),
        Ok(Some((a, b))) => if b == 0 {
            Err(Failure::DivisionByZero)
        } else if !fits(floor_div(a, b)) {
            Err(Failure::Overflow)
        } else {
            spec_make_integer::<K>(ctx, floor_div(a, b), fuel)
        },
    }
}

/// The square root of a fraction of two integers: the root of the real
/// nearest to it, brought down the tower no further than the rationals.
pub open spec fn spec_rational_sqrt<K: RealKernel>(ctx: Tables<K>, args: Datum, fuel: nat) -> Outcome
    decreases fuel, 90nat, 0nat,
{
    match spec_integer_parts::<K>(ctx, args, fuel) {
        Err(e) => Err(e),
        Ok(None) => Err(Failure::BadArgument),
        Ok(Some((a, b))) => match spec_make_float::<K>(
            ctx,
            ctx.kernel.root(ctx.kernel.quotient(ctx.kernel.of_int(a), ctx.kernel.of_int(b))),
            fuel,
        ) {
            Err(e) => Err(e),
            Ok(f) => spec_drop_to_type::<K>(ctx, f, rational_tag(), fuel),
        },
    }
}

/// Dividing by a divisor that divides gives the same rounded either way.
pub proof fn lemma_exact_division(a: int, g: int)
    requires
        g > 0,
        a % g == 0,
    ensures
        trunc_div(a, g) == a / g,
        trunc_div(a, g) * g == a,
{
    vstd::arithmetic::div_mod::lemma_fundamental_div_mod(a, g);
    if a < 0 {
        vstd::arithmetic::div_mod::lemma_fundamental_div_mod(-a, g);
        let q = a / g;
        assert((-a) % g == 0) by {
            assert(-a == g * (-q)) by (nonlinear_arith)
                requires
                    a == g * q,
            ;
            vstd::arithmetic::div_mod::lemma_fundamental_div_mod_converse(-a, g, -q, 0);
        }
        assert(-((-a) / g) == a / g) by (nonlinear_arith)
            requires
                a == g * (a / g),
                -a == g * ((-a) / g),
                g > 0,
        ;
    }
    assert((a / g) * g == a) by (nonlinear_arith)
        requires
            a == g * (a / g) + a % g,
            a % g == 0,
    ;
}

/// The greatest common divisor of two integers, where it is one of 32
/// bits.
pub fn greatest_common_divisor(a: i32, b: i32) -> (r: Option<i32>)
    ensures
        match r {
            Some(g) => gcd_fits(a as int, b as int) && g as int == gcd_of(a as int, b as int)
                && is_gcd(a as int, b as int, g as int),
            None => !gcd_fits(a as int, b as int),
        },
{
    if (a == i32::MIN && (b == 0 || b == i32::MIN)) || (b == i32::MIN && a == 0) {
        return None;
    }
    let g = gcd_i32(a, b);
    proof {
        let chosen = gcd_of(a as int, b as int);
        assert(is_gcd(a as int, b as int, chosen));
        lemma_gcd_unique(a as int, b as int, g as int, chosen);
    }
    Some(g)
}

fn reduce(a: i32, b: i32) -> (r: Result<List, ArithError>)
    ensures
        outcome(r) == reduced(a as int, b as int),
{
    let g = match greatest_common_divisor(a, b) {
        Some(g) => g,
        None => {
            return Err(ArithError::Overflow);
        },
    };
    if g == 0 {
        return Err(ArithError::DivisionByZero);
    }
    proof {
        assert(g > 0);
        crate::numbers::lemma_trunc_div_bound(a as int, g as int);
        crate::numbers::lemma_trunc_div_bound(b as int, g as int);
    }
    Ok(attach_tag("rational", &List::pair(List::integer(a / g), List::integer(b / g))))
}

/// The constructor of the rational numbers. Neither part may be a real; a
/// denominator that is zero fails. Two integers are divided by their
/// greatest common divisor.
pub fn rational_make<K: RealKernel>(arith: &ArithmeticContext<K>, args: &List, fuel: usize) -> (r:
    Result<List, ArithError>)
    ensures
        outcome(r) == spec_rational_make::<K>(arith@, args@, fuel as nat),
    decreases fuel, 90nat, 0nat,
{
    let (n, d) = match first_two(args) {
        Some(v) => v,
        None => {
            return Err(ArithError::BadArgument);
        },
    };
    let tn = type_tag(n)?;
    let td = type_tag(d)?;
    if tn.is_text("real") || td.is_text("real") {
        return Err(ArithError::BadArgument);
    }
    let z = arith.unary_at("is_equal_to_zero", d, fuel)?;
    if z.is_true() {
        return Err(ArithError::DivisionByZero);
    }
    if tn.is_text("integer") && td.is_text("integer") {
        match (integer_of(n), integer_of(d)) {
            (Some(a), Some(b)) => reduce(a, b),
            _ => Err(ArithError::BadArgument),
        }
    } else {
        Ok(attach_tag("rational", &List::pair(n.clone(), d.clone())))
    }
}

/// The numerator: the first part of the contents.
pub fn rational_numer(args: &List) -> (r: Result<List, ArithError>)
    ensures
        outcome(r) == spec_rational_numer(args@),
{
    match first_of(args) {
        Some(x) => match first_of(x) {
            Some(n) => Ok(n.clone()),
            None => Err(ArithError::BadArgument),
        },
        None => Err(ArithError::BadArgument),
    }
}

/// The denominator: the second part of the contents.
pub fn rational_denom(args: &List) -> (r: Result<List, ArithError>)
    ensures
        outcome(r) == spec_rational_denom(args@),
{
    match first_of(args) {
        Some(x) => {
            if x.is_pair() {
                Ok(x.tail().clone())
            } else {
                Err(ArithError::BadArgument)
            }
        },
        None => Err(ArithError::BadArgument),
    }
}

fn rational_parts<K: RealKernel>(arith: &ArithmeticContext<K>, x: &List, fuel: usize) -> (r: Result<
    (List, List),
    ArithError,
>)
    ensures
        crate::error::outcome2(r) == spec_rational_parts::<K>(arith@, x@, fuel as nat),
    decreases fuel, 80nat, 0nat,
{
    let z = attach_tag("rational", x);
    let n = arith.unary_at("numer", &z, fuel)?;
    let d = arith.unary_at("denom", &z, fuel)?;
    Ok((n, d))
}

fn rational_four<K: RealKernel>(arith: &ArithmeticContext<K>, args: &List, fuel: usize) -> (r:
    Result<(List, List, List, List), ArithError>)
    ensures
        match r {
            Ok(p) => spec_rational_four::<K>(arith@, args@, fuel as nat) == Ok::<
                (Datum, Datum, Datum, Datum),
                Failure,
            >((p.0@, p.1@, p.2@, p.3@)),
            Err(e) => spec_rational_four::<K>(arith@, args@, fuel as nat) == Err::<
                (Datum, Datum, Datum, Datum),
                Failure,
            >(e@),
        },
    decreases fuel, 81nat, 0nat,
{
    let (x, y) = match first_two(args) {
        Some(v) => v,
        None => {
            return Err(ArithError::BadArgument);
        },
    };
    let (nx, dx) = rational_parts(arith, x, fuel)?;
    let (ny, dy) = rational_parts(arith, y, fuel)?;
    Ok((nx, dx, ny, dy))
}

/// Makes the rational number of two parts by the constructor registered
/// for the rationals, with calls nested at most `fuel` deep.
pub fn make_rational_at<K: RealKernel>(n: List, d: List, arith: &ArithmeticContext<K>, fuel: usize) -> (r:
    Result<List, ArithError>)
    ensures
        outcome(r) == spec_make_rational::<K>(arith@, n@, d@, fuel as nat),
    decreases fuel, 21nat, 0nat,
{
    arith.construct_at("make", "rational", List::pair(n, List::pair(d, List::Nil)), fuel)
}

fn rational_cross<K: RealKernel>(
    arith: &ArithmeticContext<K>,
    op: &str,
    args: &List,
    fuel: usize,
) -> (r: Result<List, ArithError>)
    ensures
        outcome(r) == spec_rational_cross::<K>(arith@, op@, args@, fuel as nat),
    decreases fuel, 90nat, 0nat,
{
    let (nx, dx, ny, dy) = rational_four(arith, args, fuel)?;
    let left = arith.binary_at("mul", &nx, &dy, fuel)?;
    let right = arith.binary_at("mul", &ny, &dx, fuel)?;
    let n = arith.binary_at(op, &left, &right, fuel)?;
    let d = arith.binary_at("mul", &dx, &dy, fuel)?;
    make_rational_at(n, d, arith, fuel)
}

/// The sum of `a/b` and `c/d`: `a*d + c*b` over `b*d`.
pub fn rational_add<K: RealKernel>(arith: &ArithmeticContext<K>, args: &List, fuel: usize) -> (r:
    Result<List, ArithError>)
    ensures
        outcome(r) == spec_rational_add::<K>(arith@, args@, fuel as nat),
    decreases fuel, 91nat, 0nat,
{
    rational_cross(arith, "add", args, fuel)
}

/// The difference of `a/b` and `c/d`: `a*d - c*b` over `b*d`.
pub fn rational_sub<K: RealKernel>(arith: &ArithmeticContext<K>, args: &List, fuel: usize) -> (r:
    Result<List, ArithError>)
    ensures
        outcome(r) == spec_rational_sub::<K>(arith@, args@, fuel as nat),
    decreases fuel, 91nat, 0nat,
{
    rational_cross(arith, "sub", args, fuel)
}

/// The product of `a/b` and `c/d`: `a*c` over `b*d`.
pub fn rational_mul<K: RealKernel>(arith: &ArithmeticContext<K>, args: &List, fuel: usize) -> (r:
    Result<List, ArithError>)
    ensures
        outcome(r) == spec_rational_mul::<K>(arith@, args@, fuel as nat),
    decreases fuel, 90nat, 0nat,
{
    let (nx, dx, ny, dy) = rational_four(arith, args, fuel)?;
    let n = arith.binary_at("mul", &nx, &ny, fuel)?;
    let d = arith.binary_at("mul", &dx, &dy, fuel)?;
    make_rational_at(n, d, arith, fuel)
}

/// The quotient of `a/b` and `c/d`: `a*d` over `b*c`.
pub fn rational_div<K: RealKernel>(arith: &ArithmeticContext<K>, args: &List, fuel: usize) -> (r:
    Result<List, ArithError>)
    ensures
        outcome(r) == spec_rational_div::<K>(arith@, args@, fuel as nat),
    decreases fuel, 90nat, 0nat,
{
    let (nx, dx, ny, dy) = rational_four(arith, args, fuel)?;
    let n = arith.binary_at("mul", &nx, &dy, fuel)?;
    let d = arith.binary_at("mul", &dx, &ny, fuel)?;
    make_rational_at(n, d, arith, fuel)
}

/// Whether `x` and `u` are equal and `y` and `v` are, with calls nested at
/// most `fuel` deep.
pub fn both_equal<K: RealKernel>(
    arith: &ArithmeticContext<K>,
    x: &List,
    u: &List,
    y: &List,
    v: &List,
    fuel: usize,
) -> (r: Result<List, ArithError>)
    ensures
        outcome(r) == spec_both_equal::<K>(arith@, x@, u@, y@, v@, fuel as nat),
    decreases fuel, 80nat, 0nat,
{
    let first = arith.binary_at("is_equal", x, u, fuel)?;
    if first.is_true() {
        let second = arith.binary_at("is_equal", y, v, fuel)?;
        Ok(List::truth(second.is_true()))
    } else {
        Ok(List::truth(false))
    }
}

/// Two rational numbers are equal where their numerators are and their
/// denominators are.
pub fn rational_equal<K: RealKernel>(arith: &ArithmeticContext<K>, args: &List, fuel: usize) -> (r:
    Result<List, ArithError>)
    ensures
        outcome(r) == spec_rational_equal::<K>(arith@, args@, fuel as nat),
    decreases fuel, 90nat, 0nat,
{
    let (nx, dx, ny, dy) = rational_four(arith, args, fuel)?;
    both_equal(arith, &nx, &ny, &dx, &dy, fuel)
}

fn numer_of_arg<K: RealKernel>(arith: &ArithmeticContext<K>, args: &List, fuel: usize) -> (r:
    Result<List, ArithError>)
    ensures
        outcome(r) == spec_numer_of_arg::<K>(arith@, args@, fuel as nat),
    decreases fuel, 80nat, 0nat,
{
    match first_of(args) {
        None => Err(ArithError::BadArgument),
        Some(x) => arith.unary_at("numer", &attach_tag("rational", x), fuel),
    }
}

fn denom_of_arg<K: RealKernel>(arith: &ArithmeticContext<K>, args: &List, fuel: usize) -> (r:
    Result<List, ArithError>)
    ensures
        outcome(r) == spec_denom_of_arg::<K>(arith@, args@, fuel as nat),
    decreases fuel, 80nat, 0nat,
{
    match first_of(args) {
        None => Err(ArithError::BadArgument),
        Some(x) => arith.unary_at("denom", &attach_tag("rational", x), fuel),
    }
}

/// A rational number is zero where its numerator is.
pub fn rational_is_zero<K: RealKernel>(arith: &ArithmeticContext<K>, args: &List, fuel: usize) -> (r:
    Result<List, ArithError>)
    ensures
        outcome(r) == spec_rational_is_zero::<K>(arith@, args@, fuel as nat),
    decreases fuel, 90nat, 0nat,
{
    let n = numer_of_arg(arith, args, fuel)?;
    let z = arith.unary_at("is_equal_to_zero", &n, fuel)?;
    Ok(List::truth(z.is_true()))
}

/// The opposite of a rational number: that of the numerator over the
/// denominator.
pub fn rational_negative<K: RealKernel>(arith: &ArithmeticContext<K>, args: &List, fuel: usize) -> (r:
    Result<List, ArithError>)
    ensures
        outcome(r) == spec_rational_negative::<K>(arith@, args@, fuel as nat),
    decreases fuel, 90nat, 0nat,
{
    let n = numer_of_arg(arith, args, fuel)?;
    let d = denom_of_arg(arith, args, fuel)?;
    let m = arith.unary_at("negative", &n, fuel)?;
    make_rational_at(m, d, arith, fuel)
}

fn integer_parts<K: RealKernel>(arith: &ArithmeticContext<K>, args: &List, fuel: usize) -> (r:
    Result<Option<(i32, i32)>, ArithError>)
    ensures
        match r {
            Ok(Some(p)) => spec_integer_parts::<K>(arith@, args@, fuel as nat) == Ok::<
                Option<(int, int)>,
                Failure,
            >(Some((p.0 as int, p.1 as int))),
            Ok(None) => spec_integer_parts::<K>(arith@, args@, fuel as nat) == Ok::<
                Option<(int, int)>,
                Failure,
            >(None),
            Err(e) => spec_integer_parts::<K>(arith@, args@, fuel as nat) == Err::<
                Option<(int, int)>,
                Failure,
            >(e@),
        },
    decreases fuel, 81nat, 0nat,
{
    let n = numer_of_arg(arith, args, fuel)?;
    let d = denom_of_arg(arith, args, fuel)?;
    let dn = arith.drop_to_type_at(&n, "integer", fuel)?;
    let dd = arith.drop_to_type_at(&d, "integer", fuel)?;
    match (integer_of(&dn), integer_of(&dd)) {
        (Some(a), Some(b)) => Ok(Some((a, b))),
        _ => Ok(None),
    }
}

/// A fraction of two integers as the real nearest to their quotient.
pub fn rational_raise<K: RealKernel>(arith: &ArithmeticContext<K>, args: &List, fuel: usize) -> (r:
    Result<List, ArithError>)
    ensures
        outcome(r) == spec_rational_raise::<K>(arith@, args@, fuel as nat),
    decreases fuel, 90nat, 0nat,
{
    match integer_parts(arith, args, fuel)? {
        None => Err(ArithError::BadArgument),
        Some((a, b)) => {
            let q = arith.kernel.div(arith.kernel.from_int(a), arith.kernel.from_int(b));
            make_float_at(q, arith, fuel)
        },
    }
}

fn floor_quotient(a: i32, b: i32) -> (r: Option<i32>)
    requires
        b != 0,
    ensures
        match r {
            Some(q) => q as int == floor_div(a as int, b as int),
            None => !fits(floor_div(a as int, b as int)),
        },
{
    let wide_a: i64 = a as i64;
    let wide_b: i64 = b as i64;
    let (p, q) = if wide_b > 0 {
        (wide_a, wide_b)
    } else {
        (-wide_a, -wide_b)
    };
    proof {
        vstd::arithmetic::div_mod::lemma_fundamental_div_mod(p as int, q as int);
        vstd::arithmetic::div_mod::lemma_mod_bound(p as int, q as int);
        assert(-0x8000_0000 <= (p as int) / (q as int) <= 0x8000_0000) by (nonlinear_arith)
            requires
                p == q * ((p as int) / (q as int)) + (p as int) % (q as int),
                0 <= (p as int) % (q as int) < q,
                q > 0,
                -0x8000_0000 <= p <= 0x8000_0000,
        ;
    }
    let floor: i64 = if p >= 0 {
        p / q
    } else {
        let up = (-p) / q;
        proof {
            vstd::arithmetic::div_mod::lemma_fundamental_div_mod(-(p as int), q as int);
            vstd::arithmetic::div_mod::lemma_mod_pos_bound(-(p as int), q as int);
            let e = (p as int) / (q as int);
            let m = (p as int) % (q as int);
            let u = (-(p as int)) / (q as int);
            let w = (-(p as int)) % (q as int);
            assert((w == 0 ==> e == -u) && (w != 0 ==> e == -u - 1)) by (nonlinear_arith)
                requires
                    p == q * e + m,
                    -p == q * u + w,
                    0 <= m < q,
                    0 <= w < q,
                    q > 0,
            ;
        }
        if (-p) % q == 0 {
            -up
        } else {
            -up - 1
        }
    };
    if floor < -0x8000_0000 || floor > 0x7fff_ffff {
        None
    } else {
        Some(floor as i32)
    }
}

/// A fraction of two integers as the greatest integer not above it.
pub fn rational_project<K: RealKernel>(arith: &ArithmeticContext<K>, args: &List, fuel: usize) -> (r:
    Result<List, ArithError>)
    ensures
        outcome(r) == spec_rational_project::<K>(arith@, args@, fuel as nat),
    decreases fuel, 90nat, 0nat,
{
    match integer_parts(arith, args, fuel)? {
        None => Err(ArithError::NoResult),
        Some((a, b)) => {
            if b == 0 {
                return Err(ArithError::DivisionByZero);
            }
            match floor_quotient(a, b) {
                None => Err(ArithError::Overflow),
                Some(q) => crate::numbers::make_integer_at(q, arith, fuel),
            }
        },
    }
}

/// The square root of a fraction of two integers: the root of the real
/// nearest to it, brought down the tower no further than the rationals.
pub fn rational_sqrt<K: RealKernel>(arith: &ArithmeticContext<K>, args: &List, fuel: usize) -> (r:
    Result<List, ArithError>)
    ensures
        outcome(r) == spec_rational_sqrt::<K>(arith@, args@, fuel as nat),
    decreases fuel, 90nat, 0nat,
{
    match integer_parts(arith, args, fuel)? {
        None => Err(ArithError::BadArgument),
        Some((a, b)) => {
            let q = arith.kernel.div(arith.kernel.from_int(a), arith.kernel.from_int(b));
            let f = make_float_at(arith.kernel.sqrt(q), arith, fuel)?;
            arith.drop_to_type_at(&f, "rational", fuel)
        },
    }
}

} // verus!
