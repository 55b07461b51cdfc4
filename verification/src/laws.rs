//! What holds of the dispatch and of the tower, whatever the tables hold.
use vstd::prelude::*;
use crate::api::apply_generic;
use crate::context::{
    coercion_at, list1, list2, procedure_at, with_coercion, ArithmeticContext, Tables,
};
use crate::engine::{
    lemma_two_arguments, no_method, normalized, place_of, signature, spec_apply_generic,
    spec_binary, spec_call, spec_drop, spec_drop_to_type, spec_project, spec_raise, spec_resolve,
    stripped,
};
use crate::error::{outcome, ArithError, Failure};
use crate::kernel::RealKernel;
use crate::list::{cons, text_datum, Datum, List};
use crate::poly::{poly_of, polynomial_tag, same_variable, spec_poly_add, spec_poly_mul};
use crate::procedure::Primitive;
use crate::complex::{rectangular_tag, spec_complex_forward, spec_complex_from};
use crate::engine::{lemma_binary_hit, lemma_unary_hit, spec_construct, spec_unary};
use crate::install::{lemma_name_codes, tower_installed};
use crate::kernel::Real;
use crate::list::{bool_datum, int_datum};
use crate::numbers::{fits, spec_make_integer, trunc_div};
use crate::rational::{
    floor_div, lemma_gcd_with_one, reduced, spec_denom_of_arg, spec_integer_parts,
    spec_numer_of_arg, spec_rational_make,
};
use crate::reals::{real_datum, spec_make_float};
use crate::tags::{complex_tag, integer_tag, rational_tag, real_tag, tag_of, tagged, tower_index};

verus! {

/// Whether an argument list of two is taken as it is: its first argument
/// is not a pair that starts with a pair.
pub open spec fn plain_pair(a1: Datum, a2: Datum) -> bool {
    !(a1 is Cons && a1.head() is Cons)
}

/// Dispatch is a function of its arguments: two applications of one
/// operation to equal arguments in equal contexts, with equal limits, give
/// equal results.
pub proof fn lemma_dispatch_is_deterministic<K: RealKernel>(
    op1: List,
    args1: List,
    arith1: ArithmeticContext<K>,
    r1: Result<List, ArithError>,
    op2: List,
    args2: List,
    arith2: ArithmeticContext<K>,
    r2: Result<List, ArithError>,
)
    requires
        call_ensures(apply_generic::<K>, (&op1, &args1, &arith1), r1),
        call_ensures(apply_generic::<K>, (&op2, &args2, &arith2), r2),
        op1@ == op2@,
        args1@ == args2@,
        arith1@ == arith2@,
        arith1.depth == arith2.depth,
    ensures
        outcome(r1) == outcome(r2),
{
}

/// An operation for which nothing is registered on two arguments of one
/// type fails with `NoMethod`: no coercion is tried, whatever is
/// registered.
pub proof fn lemma_same_type_miss_is_fatal<K: RealKernel>(
    ctx: Tables<K>,
    op: Datum,
    a1: Datum,
    a2: Datum,
    t: Datum,
    fuel: nat,
)
    requires
        plain_pair(a1, a2),
        tag_of(a1) == Ok::<Datum, Failure>(t),
        tag_of(a2) == Ok::<Datum, Failure>(t),
        procedure_at(ctx.ops, op, list2(t, t)) is None,
    ensures
        spec_apply_generic::<K>(ctx, op, list2(a1, a2), fuel) == no_method(op, list2(a1, a2)),
{
    let args = list2(a1, a2);
    assert(normalized(args) == args);
    lemma_two_arguments(a1, a2);
    assert(signature(args) == Ok::<Datum, Failure>(list2(t, t)));
    assert(spec_resolve::<K>(ctx, op, args, list2(t, t), fuel) == no_method(op, args));
}

/// Registering a coercion from one type to another registers none the
/// other way.
pub proof fn lemma_coercion_is_one_way(coercions: Datum, from: Datum, to: Datum, p: Primitive)
    requires
        from != to,
    ensures
        coercion_at(with_coercion(coercions, from, to, p), to, from) == coercion_at(
            coercions,
            to,
            from,
        ),
{
}

/// The first coercion registered from one type to another stays: a later
/// registration for the same two types changes nothing.
pub proof fn lemma_first_coercion_stays(coercions: Datum, from: Datum, to: Datum, p: Primitive)
    ensures
        coercion_at(with_coercion(coercions, from, to, p), from, to) == if coercion_at(
            coercions,
            from,
            to,
        ) is None {
            Some(p)
        } else {
            coercion_at(coercions, from, to)
        },
{
}

/// An operation for which nothing is registered on two arguments of
/// different types, not both of the tower, and between whose types no
/// coercion is registered either way, fails with `NoMethod`.
pub proof fn lemma_no_coercion_no_method<K: RealKernel>(
    ctx: Tables<K>,
    op: Datum,
    a1: Datum,
    a2: Datum,
    t1: Datum,
    t2: Datum,
    fuel: nat,
)
    requires
        plain_pair(a1, a2),
        tag_of(a1) == Ok::<Datum, Failure>(t1),
        tag_of(a2) == Ok::<Datum, Failure>(t2),
        procedure_at(ctx.ops, op, list2(t1, t2)) is None,
        !(tower_index(t1) >= 0 && tower_index(t2) >= 0),
        coercion_at(ctx.coercions, t1, t2) is None,
        coercion_at(ctx.coercions, t2, t1) is None,
    ensures
        spec_apply_generic::<K>(ctx, op, list2(a1, a2), fuel) == no_method(op, list2(a1, a2)),
{
    let args = list2(a1, a2);
    assert(normalized(args) == args);
    lemma_two_arguments(a1, a2);
    assert(signature(args) == Ok::<Datum, Failure>(list2(t1, t2)));
    assert(spec_resolve::<K>(ctx, op, args, list2(t1, t2), fuel) == no_method(op, args));
}

/// Where only the coercion from the first type to the second is
/// registered, and the operation is not registered on two arguments of the
/// second type, dispatch ends with `NoMethod` after the one coercion: the
/// coercion back is not looked for.
pub proof fn lemma_coerced_miss_is_fatal<K: RealKernel>(
    ctx: Tables<K>,
    op: Datum,
    a1: Datum,
    a2: Datum,
    t1: Datum,
    t2: Datum,
    c: Primitive,
    b1: Datum,
    fuel: nat,
)
    requires
        fuel > 0,
        plain_pair(a1, a2),
        plain_pair(b1, a2),
        tag_of(a1) == Ok::<Datum, Failure>(t1),
        tag_of(a2) == Ok::<Datum, Failure>(t2),
        t1 != t2,
        !(tower_index(t1) >= 0 && tower_index(t2) >= 0),
        procedure_at(ctx.ops, op, list2(t1, t2)) is None,
        procedure_at(ctx.ops, op, list2(t2, t2)) is None,
        coercion_at(ctx.coercions, t1, t2) == Some(c),
        spec_call::<K>(ctx, c, list1(a1), (fuel - 1) as nat) == Ok::<Datum, Failure>(b1),
        tag_of(b1) == Ok::<Datum, Failure>(t2),
    ensures
        spec_apply_generic::<K>(ctx, op, list2(a1, a2), fuel) == no_method(op, list2(b1, a2)),
{
    let args = list2(a1, a2);
    assert(normalized(args) == args);
    lemma_two_arguments(a1, a2);
    assert(signature(args) == Ok::<Datum, Failure>(list2(t1, t2)));
    lemma_same_type_miss_is_fatal::<K>(ctx, op, b1, a2, t2, (fuel - 1) as nat);
    assert(spec_resolve::<K>(ctx, op, args, list2(t1, t2), fuel) == no_method(op, list2(b1, a2)));
}

/// Dropping what was dropped changes nothing.
pub proof fn lemma_drop_is_idempotent<K: RealKernel>(
    ctx: Tables<K>,
    x: Datum,
    target: Seq<char>,
    fuel: nat,
)
    ensures
        spec_drop_to_type::<K>(ctx, x, target, fuel) matches Ok(y) ==> spec_drop_to_type::<K>(
            ctx,
            y,
            target,
            fuel,
        ) == Ok::<Datum, Failure>(y),
    decreases place_of(x) + 1,
{
    match spec_drop_to_type::<K>(ctx, x, target, fuel) {
        Ok(y) => {
            if y != x {
                match spec_project::<K>(ctx, x, fuel) {
                    Ok(down) => {
                        lemma_drop_is_idempotent::<K>(ctx, down, target, fuel);
                    },
                    Err(_) => {},
                }
            }
        },
        Err(_) => {},
    }
}

/// Dropping to the bottom of the tower what was so dropped changes
/// nothing.
pub proof fn lemma_drop_twice<K: RealKernel>(ctx: Tables<K>, x: Datum, fuel: nat)
    ensures
        spec_drop::<K>(ctx, x, fuel) matches Ok(y) ==> spec_drop::<K>(ctx, y, fuel) == Ok::<
            Datum,
            Failure,
        >(y),
{
    lemma_drop_is_idempotent::<K>(ctx, x, crate::tags::integer_tag(), fuel);
}

/// The sum and the product of two polynomials in different variables fail
/// with `VariableMismatch`, whatever their terms.
pub proof fn lemma_variables_must_agree<K: RealKernel>(
    ctx: Tables<K>,
    v1: Datum,
    l1: Datum,
    v2: Datum,
    l2: Datum,
    fuel: nat,
)
    requires
        !same_variable(v1, v2),
    ensures
        spec_poly_add::<K>(ctx, list2(poly_of(v1, l1), poly_of(v2, l2)), fuel) == Err::<
            Datum,
            Failure,
        >(Failure::VariableMismatch),
        spec_poly_mul::<K>(ctx, list2(poly_of(v1, l1), poly_of(v2, l2)), fuel) == Err::<
            Datum,
            Failure,
        >(Failure::VariableMismatch),
{
}

/// Where the sum of polynomials is registered, the generic sum of two
/// polynomials in different variables fails with `VariableMismatch`.
pub proof fn lemma_add_needs_one_variable<K: RealKernel>(
    ctx: Tables<K>,
    v1: Datum,
    l1: Datum,
    v2: Datum,
    l2: Datum,
    fuel: nat,
)
    requires
        fuel > 0,
        !same_variable(v1, v2),
        procedure_at(
            ctx.ops,
            text_datum("add"@),
            list2(text_datum(polynomial_tag()), text_datum(polynomial_tag())),
        ) == Some(Primitive::PolyAdd),
    ensures
        spec_binary::<K>(
            ctx,
            "add"@,
            tagged(polynomial_tag(), poly_of(v1, l1)),
            tagged(polynomial_tag(), poly_of(v2, l2)),
            fuel,
        ) == Err::<Datum, Failure>(Failure::VariableMismatch),
{
    let pa = tagged(polynomial_tag(), poly_of(v1, l1));
    let pb = tagged(polynomial_tag(), poly_of(v2, l2));
    let args = list2(pa, pb);
    assert(normalized(args) == args);
    lemma_two_arguments(pa, pb);
    let sig = list2(text_datum(polynomial_tag()), text_datum(polynomial_tag()));
    assert(signature(args) == Ok::<Datum, Failure>(sig));
    assert(stripped(args) == Ok::<Datum, Failure>(list2(poly_of(v1, l1), poly_of(v2, l2))));
    lemma_variables_must_agree::<K>(ctx, v1, l1, v2, l2, (fuel - 1) as nat);
}

/// An integer raised is the rational number of that integer over 1.
pub proof fn lemma_integer_raised<K: RealKernel>(ctx: Tables<K>, n: int, fuel: nat)
    requires
        tower_installed(ctx.ops),
        fits(n),
        fuel >= 3,
    ensures
        spec_raise::<K>(ctx, int_datum(n), fuel) == Ok::<Datum, Failure>(
            tagged(rational_tag(), cons(int_datum(n), int_datum(1))),
        ),
{
    lemma_name_codes();
    let x = int_datum(n);
    let one = int_datum(1);
    let t = text_datum(integer_tag());
    lemma_unary_hit::<K>(ctx, "raise"@, x, t, x, Primitive::IntegerRaise, fuel);
    lemma_unary_hit::<K>(
        ctx,
        "is_equal_to_zero"@,
        one,
        t,
        one,
        Primitive::IntegerIsZero,
        (fuel - 2) as nat,
    );
    lemma_gcd_with_one(n);
    assert(trunc_div(n, 1) == n);
    assert(trunc_div(1, 1) == 1);
    assert(spec_unary::<K>(ctx, "is_equal_to_zero"@, one, (fuel - 2) as nat) == Ok::<
        Datum,
        Failure,
    >(bool_datum(false)));
    assert(reduced(n, 1) == Ok::<Datum, Failure>(
        tagged(rational_tag(), cons(int_datum(n), int_datum(1))),
    ));
    assert(spec_rational_make::<K>(ctx, list2(x, one), (fuel - 2) as nat) == reduced(n, 1));
    assert(spec_construct::<K>(ctx, "make"@, rational_tag(), list2(x, one), (fuel - 1) as nat)
        == spec_call::<K>(ctx, Primitive::RationalMake, list2(x, one), (fuel - 2) as nat));
}

/// The rational number of an integer over 1, projected, is that integer.
pub proof fn lemma_whole_rational_projected<K: RealKernel>(ctx: Tables<K>, n: int, fuel: nat)
    requires
        tower_installed(ctx.ops),
        fits(n),
        fuel >= 3,
    ensures
        spec_project::<K>(ctx, tagged(rational_tag(), cons(int_datum(n), int_datum(1))), fuel)
            == Ok::<Datum, Failure>(int_datum(n)),
{
    lemma_name_codes();
    let x = int_datum(n);
    let one = int_datum(1);
    let c = cons(x, one);
    let q = tagged(rational_tag(), c);
    let t = text_datum(rational_tag());
    let inner = (fuel - 1) as nat;
    lemma_unary_hit::<K>(ctx, "project"@, q, t, c, Primitive::RationalProject, fuel);
    lemma_unary_hit::<K>(ctx, "numer"@, q, t, c, Primitive::RationalNumer, inner);
    lemma_unary_hit::<K>(ctx, "denom"@, q, t, c, Primitive::RationalDenom, inner);
    assert(spec_numer_of_arg::<K>(ctx, list1(c), inner) == Ok::<Datum, Failure>(x));
    assert(spec_denom_of_arg::<K>(ctx, list1(c), inner) == Ok::<Datum, Failure>(one));
    assert(spec_drop::<K>(ctx, x, inner) == Ok::<Datum, Failure>(x));
    assert(spec_drop::<K>(ctx, one, inner) == Ok::<Datum, Failure>(one));
    assert(spec_integer_parts::<K>(ctx, list1(c), inner) == Ok::<Option<(int, int)>, Failure>(
        Some((n, 1int)),
    ));
    assert(floor_div(n, 1) == n);
    assert(spec_make_integer::<K>(ctx, n, inner) == spec_call::<K>(
        ctx,
        Primitive::IntegerMake,
        list1(x),
        (inner - 1) as nat,
    ));
}

/// Raising an integer and projecting what comes of it gives the integer
/// back, and the generic equality says so.
pub proof fn lemma_integer_round_trip<K: RealKernel>(ctx: Tables<K>, n: int, fuel: nat)
    requires
        tower_installed(ctx.ops),
        fits(n),
        fuel >= 3,
    ensures
        spec_raise::<K>(ctx, int_datum(n), fuel) matches Ok(up) && spec_project::<K>(ctx, up, fuel)
            == Ok::<Datum, Failure>(int_datum(n)),
        spec_binary::<K>(ctx, "is_equal"@, int_datum(n), int_datum(n), fuel) == Ok::<
            Datum,
            Failure,
        >(bool_datum(true)),
{
    lemma_integer_raised::<K>(ctx, n, fuel);
    lemma_whole_rational_projected::<K>(ctx, n, fuel);
    let x = int_datum(n);
    let t = text_datum(integer_tag());
    lemma_binary_hit::<K>(ctx, "is_equal"@, x, x, t, t, x, x, Primitive::IntegerEqual, fuel);
}

/// Raising a real and projecting what comes of it gives the real back.
pub proof fn lemma_real_round_trip<K: RealKernel>(ctx: Tables<K>, x: Real, fuel: nat)
    requires
        tower_installed(ctx.ops),
        fuel >= 4,
    ensures
        spec_raise::<K>(ctx, real_datum(x), fuel) matches Ok(up) && spec_project::<K>(ctx, up, fuel)
            == Ok::<Datum, Failure>(real_datum(x)),
{
    lemma_name_codes();
    let d = real_datum(x);
    let zero = real_datum(ctx.kernel.of_int(0));
    let form = tagged(rectangular_tag(), cons(d, zero));
    let up = tagged(complex_tag(), form);
    lemma_unary_hit::<K>(ctx, "raise"@, d, text_datum(real_tag()), d, Primitive::RealRaise, fuel);
    assert(spec_construct::<K>(
        ctx,
        "make_from_real_imag"@,
        rectangular_tag(),
        list2(d, zero),
        (fuel - 3) as nat,
    ) == Ok::<Datum, Failure>(form));
    assert(spec_complex_from::<K>(
        ctx,
        "make_from_real_imag"@,
        rectangular_tag(),
        list2(d, zero),
        (fuel - 3) as nat,
    ) == Ok::<Datum, Failure>(up));
    assert(spec_construct::<K>(
        ctx,
        "make_from_real_imag"@,
        complex_tag(),
        list2(d, zero),
        (fuel - 1) as nat,
    ) == Ok::<Datum, Failure>(up)) by {
        assert(spec_call::<K>(
            ctx,
            Primitive::ComplexFromRealImag,
            list2(d, zero),
            (fuel - 2) as nat,
        ) == spec_complex_from::<K>(
            ctx,
            "make_from_real_imag"@,
            rectangular_tag(),
            list2(d, zero),
            (fuel - 2) as nat,
        ));
        assert(spec_construct::<K>(
            ctx,
            "make_from_real_imag"@,
            rectangular_tag(),
            list2(d, zero),
            (fuel - 2) as nat,
        ) == Ok::<Datum, Failure>(form));
    }
    assert(spec_raise::<K>(ctx, d, fuel) == Ok::<Datum, Failure>(up));
    let inner = (fuel - 1) as nat;
    lemma_unary_hit::<K>(
        ctx,
        "project"@,
        up,
        text_datum(complex_tag()),
        form,
        Primitive::ComplexProject,
        fuel,
    );
    lemma_unary_hit::<K>(
        ctx,
        "real_part"@,
        form,
        text_datum(rectangular_tag()),
        cons(d, zero),
        Primitive::RectRealPart,
        inner,
    );
    assert(spec_complex_forward::<K>(ctx, "real_part"@, list1(form), inner) == Ok::<
        Datum,
        Failure,
    >(d));
    assert(spec_make_float::<K>(ctx, x, inner) == Ok::<Datum, Failure>(d));
}

} // verus!
