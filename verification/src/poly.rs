//! Polynomials in one variable: a variable and a term list under the tag
//! `polynomial`. The coefficients are any values that the generic
//! operations take, polynomials among them.
use vstd::prelude::*;
use crate::context::{first_of, first_two, list2, one, two, ArithmeticContext, Tables};
use crate::engine::{spec_binary, spec_construct, spec_unary};
use crate::error::{outcome, ArithError, Failure, Outcome};
use crate::kernel::RealKernel;
use crate::list::{bool_datum, cons, text_datum, Datum, List};
use crate::numbers::{int_of, integer_of};
use crate::tags::{attach_tag, has_tag, is_tagged, tag_of, tagged, type_tag};
use crate::terms::{
    dense_tag, empty_terms, is_empty_term_list, lead, lead_of, make_terms_from_sparse_at,
    single_term_at, sparse_tag, spec_make_terms_from_sparse, spec_single_term,
};

verus! {

/// The tag of the polynomials.
pub open spec fn polynomial_tag() -> Seq<char> {
    "polynomial"@
}

/// Whether a datum is a variable, that is a string.
pub open spec fn is_variable_datum(d: Datum) -> bool {
    d matches Datum::V(v) && v is Str
}

/// Whether two data are the same variable.
pub open spec fn same_variable(v1: Datum, v2: Datum) -> bool {
    is_variable_datum(v1) && is_variable_datum(v2) && v1 == v2
}

/// The polynomial, without its tag, of a variable and a term list.
pub open spec fn poly_of(variable: Datum, term_list: Datum) -> Datum {
    cons(variable, term_list)
}

/// The sum of two term lists: the terms of both in falling order, the
/// coefficients of terms of one order added.
pub open spec fn spec_add_terms<K: RealKernel>(ctx: Tables<K>, l1: Datum, l2: Datum, fuel: nat) -> Outcome
    decreases fuel, 85nat, 0nat,
{
    match empty_terms(l1) {
        Err(e) => Err(e),
        Ok(true) => Ok(l2),
        Ok(false) => match empty_terms(l2) {
            Err(e) => Err(e),
            Ok(true) => Ok(l1),
            Ok(false) => match spec_unary::<K>(ctx, "first_term"@, l1, fuel) {
                Err(e) => Err(e),
                Ok(t1) => match spec_unary::<K>(ctx, "first_term"@, l2, fuel) {
                    Err(e) => Err(e),
                    Ok(t2) => match (lead(t1), lead(t2)) {
                        (Some(pa), Some(pb)) => match (int_of(pa.0), int_of(pb.0)) {
                            (Some(o1), Some(o2)) => if fuel == 0 {
                                Err(Failure::DepthExceeded)
                            } else if o1 > o2 {
                                match spec_unary::<K>(ctx, "rest_terms"@, l1, fuel) {
                                    Err(e) => Err(e),
                                    Ok(r1) => match spec_add_terms::<K>(
                                        ctx,
                                        r1,
                                        l2,
                                        (fuel - 1) as nat,
                                    ) {
                                        Err(e) => Err(e),
                                        Ok(sum) => spec_binary::<K>(
                                            ctx,
                                            "adjoin_term"@,
                                            t1,
                                            sum,
                                            fuel,
                                        ),
                                    },
                                }
                            } else if o1 < o2 {
                                match spec_unary::<K>(ctx, "rest_terms"@, l2, fuel) {
                                    Err(e) => Err(e),
                                    Ok(r2) => match spec_add_terms::<K>(
                                        ctx,
                                        l1,
                                        r2,
                                        (fuel - 1) as nat,
                                    ) {
                                        Err(e) => Err(e),
                                        Ok(sum) => spec_binary::<K>(
                                            ctx,
                                            "adjoin_term"@,
                                            t2,
                                            sum,
                                            fuel,
                                        ),
                                    },
                                }
                            } else {
                                match spec_binary::<K>(ctx, "add"@, pa.1, pb.1, fuel) {
                                    Err(e) => Err(e),
                                    Ok(c) => match spec_single_term::<K>(ctx, pa.0, c, fuel) {
                                        Err(e) => Err(e),
                                        Ok(first) => match spec_unary::<K>(
                                            ctx,
                                            "rest_terms"@,
                                            l1,
                                            fuel,
                                        ) {
                                            Err(e) => Err(e),
                                            Ok(r1) => match spec_unary::<K>(
                                                ctx,
                                                "rest_terms"@,
                                                l2,
                                                fuel,
                                            ) {
                                                Err(e) => Err(e),
                                                Ok(r2) => match spec_add_terms::<K>(
                                                    ctx,
                                                    r1,
                                                    r2,
                                                    (fuel - 1) as nat,
                                                ) {
                                                    Err(e) => Err(e),
                                                    Ok(sum) => spec_binary::<K>(
                                                        ctx,
                                                        "adjoin_term"@,
                                                        first,
                                                        sum,
                                                        fuel,
                                                    ),
                                                },
                                            },
                                        },
                                    },
                                }
                            },
                            _ => Err(Failure::BadArgument),
                        },
                        _ => Err(Failure::BadArgument),
                    },
                },
            },
        },
    }
}

/// The empty term list, as the constructor makes it.
pub open spec fn spec_make_empty_term_list<K: RealKernel>(ctx: Tables<K>, fuel: nat) -> Outcome
    decreases fuel, 22nat, 0nat,
{
    spec_make_terms_from_sparse::<K>(ctx, Datum::Nil, fuel)
}

/// The product of the one term of `t1` and every term of `l`.
pub open spec fn spec_mul_term_by_all_terms<K: RealKernel>(
    ctx: Tables<K>,
    t1: Datum,
    l: Datum,
    fuel: nat,
) -> Outcome
    decreases fuel, 86nat, 0nat,
{
    match empty_terms(l) {
        Err(e) => Err(e),
        Ok(true) => spec_make_empty_term_list::<K>(ctx, fuel),
        Ok(false) => match lead(t1) {
            None => Err(Failure::BadArgument),
            Some(pa) => match spec_unary::<K>(ctx, "first_term"@, l, fuel) {
                Err(e) => Err(e),
                Ok(t2) => match lead(t2) {
                    None => Err(Failure::BadArgument),
                    Some(pb) => match spec_binary::<K>(ctx, "add"@, pa.0, pb.0, fuel) {
                        Err(e) => Err(e),
                        Ok(o) => match spec_binary::<K>(ctx, "mul"@, pa.1, pb.1, fuel) {
                            Err(e) => Err(e),
                            Ok(c) => match spec_single_term::<K>(ctx, o, c, fuel) {
                                Err(e) => Err(e),
                                Ok(first) => match spec_unary::<K>(ctx, "rest_terms"@, l, fuel) {
                                    Err(e) => Err(e),
                                    Ok(rest) => if fuel == 0 {
                                        Err(Failure::DepthExceeded)
                                    } else {
                                        match spec_mul_term_by_all_terms::<K>(
                                            ctx,
                                            t1,
                                            rest,
                                            (fuel - 1) as nat,
                                        ) {
                                            Err(e) => Err(e),
                                            Ok(more) => spec_binary::<K>(
                                                ctx,
                                                "adjoin_term"@,
                                                first,
                                                more,
                                                fuel,
                                            ),
                                        }
                                    },
                                },
                            },
                        },
                    },
                },
            },
        },
    }
}

/// The product of two term lists: the sum over the terms of the first of
/// its product with every term of the second.
pub open spec fn spec_mul_terms<K: RealKernel>(ctx: Tables<K>, l1: Datum, l2: Datum, fuel: nat) -> Outcome
    decreases fuel, 87nat, 0nat,
{
    match empty_terms(l1) {
        Err(e) => Err(e),
        Ok(true) => spec_make_empty_term_list::<K>(ctx, fuel),
        Ok(false) => match spec_unary::<K>(ctx, "first_term"@, l1, fuel) {
            Err(e) => Err(e),
            Ok(t1) => match spec_mul_term_by_all_terms::<K>(ctx, t1, l2, fuel) {
                Err(e) => Err(e),
                Ok(by_first) => match spec_unary::<K>(ctx, "rest_terms"@, l1, fuel) {
                    Err(e) => Err(e),
                    Ok(rest) => if fuel == 0 {
                        Err(Failure::DepthExceeded)
                    } else {
                        match spec_mul_terms::<K>(ctx, rest, l2, (fuel - 1) as nat) {
                            Err(e) => Err(e),
                            Ok(by_rest) => spec_add_terms::<K>(ctx, by_first, by_rest, fuel),
                        }
                    },
                },
            },
        },
    }
}

/// A term list with the opposite of every coefficient.
pub open spec fn spec_negative_terms<K: RealKernel>(ctx: Tables<K>, l: Datum, fuel: nat) -> Outcome
    decreases fuel, 85nat, 0nat,
{
    match empty_terms(l) {
        Err(e) => Err(e),
        Ok(true) => spec_make_empty_term_list::<K>(ctx, fuel),
        Ok(false) => match spec_unary::<K>(ctx, "first_term"@, l, fuel) {
            Err(e) => Err(e),
            Ok(t1) => match lead(t1) {
                None => Err(Failure::BadArgument),
                Some(p) => match spec_unary::<K>(ctx, "negative"@, p.1, fuel) {
                    Err(e) => Err(e),
                    Ok(c) => match spec_single_term::<K>(ctx, p.0, c, fuel) {
                        Err(e) => Err(e),
                        Ok(first) => match spec_unary::<K>(ctx, "rest_terms"@, l, fuel) {
                            Err(e) => Err(e),
                            Ok(rest) => if fuel == 0 {
                                Err(Failure::DepthExceeded)
                            } else {
                                match spec_negative_terms::<K>(ctx, rest, (fuel - 1) as nat) {
                                    Err(e) => Err(e),
                                    Ok(more) => spec_binary::<K>(
                                        ctx,
                                        "adjoin_term"@,
                                        first,
                                        more,
                                        fuel,
                                    ),
                                }
                            },
                        },
                    },
                },
            },
        },
    }
}

/// Whether every coefficient of a term list is zero.
pub open spec fn spec_zero_terms<K: RealKernel>(ctx: Tables<K>, l: Datum, fuel: nat) -> Outcome
    decreases fuel, 85nat, 0nat,
{
    match empty_terms(l) {
        Err(e) => Err(e),
        Ok(true) => Ok(bool_datum(true)),
        Ok(false) => match spec_unary::<K>(ctx, "first_term"@, l, fuel) {
            Err(e) => Err(e),
            Ok(t1) => match lead(t1) {
                None => Err(Failure::BadArgument),
                Some(p) => match spec_unary::<K>(ctx, "is_equal_to_zero"@, p.1, fuel) {
                    Err(e) => Err(e),
                    Ok(z) => if z == bool_datum(false) {
                        Ok(bool_datum(false))
                    } else {
                        match spec_unary::<K>(ctx, "rest_terms"@, l, fuel) {
                            Err(e) => Err(e),
                            Ok(rest) => if fuel == 0 {
                                Err(Failure::DepthExceeded)
                            } else {
                                spec_zero_terms::<K>(ctx, rest, (fuel - 1) as nat)
                            },
                        }
                    },
                },
            },
        },
    }
}

/// The variable and the term lists of two polynomials in one variable.
/// Polynomials in different variables fail.
pub open spec fn same_variable_parts(args: Datum) -> Result<(Datum, Datum, Datum), Failure> {
    match two(args) {
        Some((Datum::Cons(v1, l1), Datum::Cons(v2, l2))) => if same_variable(*v1, *v2) {
            Ok((*v1, *l1, *l2))
        } else {
            Err(Failure::VariableMismatch)
        },
        _ => Err(Failure::BadArgument),
    }
}

/// The sum of two polynomials in one variable.
pub open spec fn spec_poly_add<K: RealKernel>(ctx: Tables<K>, args: Datum, fuel: nat) -> Outcome
    decreases fuel, 90nat, 0nat,
{
    match same_variable_parts(args) {
        Err(e) => Err(e),
        Ok(p) => match spec_add_terms::<K>(ctx, p.1, p.2, fuel) {
            Err(e) => Err(e),
            Ok(sum) => Ok(tagged(polynomial_tag(), poly_of(p.0, sum))),
        },
    }
}

/// The product of two polynomials in one variable.
pub open spec fn spec_poly_mul<K: RealKernel>(ctx: Tables<K>, args: Datum, fuel: nat) -> Outcome
    decreases fuel, 90nat, 0nat,
{
    match same_variable_parts(args) {
        Err(e) => Err(e),
        Ok(p) => match spec_mul_terms::<K>(ctx, p.1, p.2, fuel) {
            Err(e) => Err(e),
            Ok(product) => Ok(tagged(polynomial_tag(), poly_of(p.0, product))),
        },
    }
}

/// The variable and the term list of the one polynomial that a procedure
/// is applied to.
pub open spec fn poly_parts(args: Datum) -> Option<(Datum, Datum)> {
    match one(args) {
        Some(Datum::Cons(v, l)) => Some((*v, *l)),
        _ => None,
    }
}

/// A polynomial is zero where every coefficient is.
pub open spec fn spec_poly_is_zero<K: RealKernel>(ctx: Tables<K>, args: Datum, fuel: nat) -> Outcome
    decreases fuel, 90nat, 0nat,
{
    match poly_parts(args) {
        None => Err(Failure::BadArgument),
        Some(p) => spec_zero_terms::<K>(ctx, p.1, fuel),
    }
}

/// The opposite of a polynomial.
pub open spec fn spec_poly_negative<K: RealKernel>(ctx: Tables<K>, args: Datum, fuel: nat) -> Outcome
    decreases fuel, 90nat, 0nat,
{
    match poly_parts(args) {
        None => Err(Failure::BadArgument),
        Some(p) => match spec_negative_terms::<K>(ctx, p.1, fuel) {
            Err(e) => Err(e),
            Ok(l) => Ok(tagged(polynomial_tag(), poly_of(p.0, l))),
        },
    }
}

/// The difference of two polynomials: the first and the opposite of the
/// second, added.
pub open spec fn spec_poly_sub<K: RealKernel>(ctx: Tables<K>, args: Datum, fuel: nat) -> Outcome
    decreases fuel, 90nat, 0nat,
{
    match two(args) {
        None => Err(Failure::BadArgument),
        Some((pa, pb)) => match spec_unary::<K>(
            ctx,
            "negative"@,
            tagged(polynomial_tag(), pb),
            fuel,
        ) {
            Err(e) => Err(e),
            Ok(n2) => spec_binary::<K>(ctx, "add"@, tagged(polynomial_tag(), pa), n2, fuel),
        },
    }
}

/// The polynomial of a variable and a term list. A term list that is
/// tagged neither sparse nor dense is taken as the terms of a sparse one.
pub open spec fn spec_poly_from<K: RealKernel>(ctx: Tables<K>, args: Datum, fuel: nat) -> Outcome
    decreases fuel, 90nat, 0nat,
{
    match two(args) {
        None => Err(Failure::BadArgument),
        Some((variable, term_list)) => match tag_of(term_list) {
            Err(e) => Err(e),
            Ok(t) => if t == text_datum(sparse_tag()) || t == text_datum(dense_tag()) {
                Ok(tagged(polynomial_tag(), poly_of(variable, term_list)))
            } else {
                match spec_make_terms_from_sparse::<K>(ctx, term_list, fuel) {
                    Err(e) => Err(e),
                    Ok(l) => Ok(tagged(polynomial_tag(), poly_of(variable, l))),
                }
            },
        },
    }
}

/// The polynomial of a variable and a term list, as the constructor named
/// `op` makes it.
pub open spec fn spec_make_polynomial<K: RealKernel>(
    ctx: Tables<K>,
    op: Seq<char>,
    variable: Datum,
    term_list: Datum,
    fuel: nat,
) -> Outcome
    decreases fuel, 21nat, 0nat,
{
    spec_construct::<K>(ctx, op, polynomial_tag(), list2(variable, term_list), fuel)
}

/// How a term is written: the coefficient, and `x^` and the order unless
/// the order is zero.
pub open spec fn term_text(coeff: Seq<char>, order: Datum) -> Seq<char> {
    if order == crate::list::int_datum(0) {
        coeff
    } else {
        coeff + "x^"@ + order.text()
    }
}

/// How the terms of a term list that is not empty are written: one after
/// the other with ` + ` between them. A coefficient that is a polynomial
/// is written as a polynomial.
pub open spec fn spec_pretty_terms<K: RealKernel>(ctx: Tables<K>, l: Datum, fuel: nat) -> Result<
    Seq<char>,
    Failure,
>
    decreases fuel, 95nat, 0nat,
{
    match spec_unary::<K>(ctx, "first_term"@, l, fuel) {
        Err(e) => Err(e),
        Ok(t1) => match lead(t1) {
            None => Err(Failure::BadArgument),
            Some(p) => if fuel == 0 {
                Err(Failure::DepthExceeded)
            } else {
                match (if has_tag(p.1, polynomial_tag()) {
                    spec_pretty_polynomial::<K>(ctx, p.1, (fuel - 1) as nat)
                } else {
                    Ok(p.1.text())
                }) {
                    Err(e) => Err(e),
                    Ok(c) => match spec_unary::<K>(ctx, "rest_terms"@, l, fuel) {
                        Err(e) => Err(e),
                        Ok(rest) => match empty_terms(rest) {
                            Err(e) => Err(e),
                            Ok(true) => Ok(term_text(c, p.0)),
                            Ok(false) => match spec_pretty_terms::<K>(
                                ctx,
                                rest,
                                (fuel - 1) as nat,
                            ) {
                                Err(e) => Err(e),
                                Ok(more) => Ok(term_text(c, p.0) + " + "@ + more),
                            },
                        },
                    },
                }
            },
        },
    }
}

/// How a polynomial is written: its tag, a colon and its terms, in round
/// brackets; `Nil` for no terms.
pub open spec fn spec_pretty_polynomial<K: RealKernel>(ctx: Tables<K>, p: Datum, fuel: nat) -> Result<
    Seq<char>,
    Failure,
>
    decreases fuel, 96nat, 0nat,
{
    match tag_of(p) {
        Err(e) => Err(e),
        Ok(t) => match crate::tags::contents_of(p) {
            Err(e) => Err(e),
            Ok(c) => match empty_terms(c.tail()) {
                Err(e) => Err(e),
                Ok(true) => Ok("("@ + t.text() + ":"@ + "Nil"@ + ")"@),
                Ok(false) => match spec_pretty_terms::<K>(ctx, c.tail(), fuel) {
                    Err(e) => Err(e),
                    Ok(body) => Ok("("@ + t.text() + ":"@ + body + ")"@),
                },
            },
        },
    }
}

/// Whether a list is a variable, that is a string.
pub fn is_variable(x: &List) -> (r: bool)
    ensures
        r == is_variable_datum(x@),
{
    x.is_string_value()
}

/// Whether two lists are the same variable.
pub fn is_same_variable(v1: &List, v2: &List) -> (r: bool)
    ensures
        r == same_variable(v1@, v2@),
{
    is_variable(v1) && is_variable(v2) && v1.equals(v2)
}

/// The polynomial, without its tag, of a variable and a term list.
pub fn make_poly(variable: List, term_list: List) -> (r: List)
    ensures
        r@ == poly_of(variable@, term_list@),
{
    List::pair(variable, term_list)
}

/// The variable of a polynomial without its tag.
pub fn variable(p: &List) -> (r: &List)
    requires
        p@ is Cons,
    ensures
        r@ == p@.head(),
{
    p.head()
}

/// The term list of a polynomial without its tag.
pub fn term_list(p: &List) -> (r: &List)
    requires
        p@ is Cons,
    ensures
        r@ == p@.tail(),
{
    p.tail()
}

/// Makes the empty term list, with calls nested at most `fuel` deep.
pub fn make_empty_term_list_at<K: RealKernel>(arith: &ArithmeticContext<K>, fuel: usize) -> (r:
    Result<List, ArithError>)
    ensures
        outcome(r) == spec_make_empty_term_list::<K>(arith@, fuel as nat),
    decreases fuel, 22nat, 0nat,
{
    make_terms_from_sparse_at(&List::Nil, arith, fuel)
}

fn order_pair(pa: &List, pb: &List) -> (r: Result<(i32, i32), ArithError>)
    ensures
        match r {
            Ok(o) => int_of(pa@) == Some(o.0 as int) && int_of(pb@) == Some(o.1 as int),
            Err(e) => e@ == Failure::BadArgument && (int_of(pa@) is None || int_of(pb@) is None),
        },
{
    match (integer_of(pa), integer_of(pb)) {
        (Some(a), Some(b)) => Ok((a, b)),
        _ => Err(ArithError::BadArgument),
    }
}

/// Adds two term lists, with calls nested at most `fuel` deep.
pub fn add_terms<K: RealKernel>(l1: &List, l2: &List, arith: &ArithmeticContext<K>, fuel: usize) -> (r:
    Result<List, ArithError>)
    ensures
        outcome(r) == spec_add_terms::<K>(arith@, l1@, l2@, fuel as nat),
    decreases fuel, 85nat, 0nat,
{
    if is_empty_term_list(l1)? {
        return Ok(l2.clone());
    }
    if is_empty_term_list(l2)? {
        return Ok(l1.clone());
    }
    let t1 = arith.unary_at("first_term", l1, fuel)?;
    let t2 = arith.unary_at("first_term", l2, fuel)?;
    let (order1, coeff1) = match lead_of(&t1) {
        Ok(p) => p,
        Err(e) => {
            return Err(e);
        },
    };
    let (order2, coeff2) = match lead_of(&t2) {
        Ok(p) => p,
        Err(e) => {
            return Err(e);
        },
    };
    let (o1, o2) = order_pair(order1, order2)?;
    if fuel == 0 {
        return Err(ArithError::DepthExceeded);
    }
    if o1 > o2 {
        let r1 = arith.unary_at("rest_terms", l1, fuel)?;
        let sum = add_terms(&r1, l2, arith, fuel - 1)?;
        arith.binary_at("adjoin_term", &t1, &sum, fuel)
    } else if o1 < o2 {
        let r2 = arith.unary_at("rest_terms", l2, fuel)?;
        let sum = add_terms(l1, &r2, arith, fuel - 1)?;
        arith.binary_at("adjoin_term", &t2, &sum, fuel)
    } else {
        let c = arith.binary_at("add", coeff1, coeff2, fuel)?;
        let first = single_term_at(order1.clone(), c, arith, fuel)?;
        let r1 = arith.unary_at("rest_terms", l1, fuel)?;
        let r2 = arith.unary_at("rest_terms", l2, fuel)?;
        let sum = add_terms(&r1, &r2, arith, fuel - 1)?;
        arith.binary_at("adjoin_term", &first, &sum, fuel)
    }
}

/// Multiplies every term of `l` by the one term of `t1`, with calls nested
/// at most `fuel` deep.
pub fn mul_term_by_all_terms<K: RealKernel>(
    t1: &List,
    l: &List,
    arith: &ArithmeticContext<K>,
    fuel: usize,
) -> (r: Result<List, ArithError>)
    ensures
        outcome(r) == spec_mul_term_by_all_terms::<K>(arith@, t1@, l@, fuel as nat),
    decreases fuel, 86nat, 0nat,
{
    if is_empty_term_list(l)? {
        return make_empty_term_list_at(arith, fuel);
    }
    let (order1, coeff1) = match lead_of(t1) {
        Ok(p) => p,
        Err(e) => {
            return Err(e);
        },
    };
    let t2 = arith.unary_at("first_term", l, fuel)?;
    let (order2, coeff2) = match lead_of(&t2) {
        Ok(p) => p,
        Err(e) => {
            return Err(e);
        },
    };
    let o = arith.binary_at("add", order1, order2, fuel)?;
    let c = arith.binary_at("mul", coeff1, coeff2, fuel)?;
    let first = single_term_at(o, c, arith, fuel)?;
    let rest = arith.unary_at("rest_terms", l, fuel)?;
    if fuel == 0 {
        return Err(ArithError::DepthExceeded);
    }
    let more = mul_term_by_all_terms(t1, &rest, arith, fuel - 1)?;
    arith.binary_at("adjoin_term", &first, &more, fuel)
}

/// Multiplies two term lists, with calls nested at most `fuel` deep.
pub fn mul_terms<K: RealKernel>(l1: &List, l2: &List, arith: &ArithmeticContext<K>, fuel: usize) -> (r:
    Result<List, ArithError>)
    ensures
        outcome(r) == spec_mul_terms::<K>(arith@, l1@, l2@, fuel as nat),
    decreases fuel, 87nat, 0nat,
{
    if is_empty_term_list(l1)? {
        return make_empty_term_list_at(arith, fuel);
    }
    let t1 = arith.unary_at("first_term", l1, fuel)?;
    let by_first = mul_term_by_all_terms(&t1, l2, arith, fuel)?;
    let rest = arith.unary_at("rest_terms", l1, fuel)?;
    if fuel == 0 {
        return Err(ArithError::DepthExceeded);
    }
    let by_rest = mul_terms(&rest, l2, arith, fuel - 1)?;
    add_terms(&by_first, &by_rest, arith, fuel)
}

/// Takes the opposite of every coefficient, with calls nested at most
/// `fuel` deep.
pub fn negative_terms<K: RealKernel>(l: &List, arith: &ArithmeticContext<K>, fuel: usize) -> (r:
    Result<List, ArithError>)
    ensures
        outcome(r) == spec_negative_terms::<K>(arith@, l@, fuel as nat),
    decreases fuel, 85nat, 0nat,
{
    if is_empty_term_list(l)? {
        return make_empty_term_list_at(arith, fuel);
    }
    let t1 = arith.unary_at("first_term", l, fuel)?;
    let (order1, coeff1) = match lead_of(&t1) {
        Ok(p) => p,
        Err(e) => {
            return Err(e);
        },
    };
    let c = arith.unary_at("negative", coeff1, fuel)?;
    let first = single_term_at(order1.clone(), c, arith, fuel)?;
    let rest = arith.unary_at("rest_terms", l, fuel)?;
    if fuel == 0 {
        return Err(ArithError::DepthExceeded);
    }
    let more = negative_terms(&rest, arith, fuel - 1)?;
    arith.binary_at("adjoin_term", &first, &more, fuel)
}

/// Whether every coefficient is zero, with calls nested at most `fuel`
/// deep.
pub fn zero_terms<K: RealKernel>(l: &List, arith: &ArithmeticContext<K>, fuel: usize) -> (r: Result<
    List,
    ArithError,
>)
    ensures
        outcome(r) == spec_zero_terms::<K>(arith@, l@, fuel as nat),
    decreases fuel, 85nat, 0nat,
{
    if is_empty_term_list(l)? {
        return Ok(List::truth(true));
    }
    let t1 = arith.unary_at("first_term", l, fuel)?;
    let (_, coeff1) = match lead_of(&t1) {
        Ok(p) => p,
        Err(e) => {
            return Err(e);
        },
    };
    let z = arith.unary_at("is_equal_to_zero", coeff1, fuel)?;
    if z.equals(&List::truth(false)) {
        return Ok(List::truth(false));
    }
    let rest = arith.unary_at("rest_terms", l, fuel)?;
    if fuel == 0 {
        return Err(ArithError::DepthExceeded);
    }
    zero_terms(&rest, arith, fuel - 1)
}

fn same_variable_parts_of(args: &List) -> (r: Result<(&List, &List, &List), ArithError>)
    ensures
        match r {
            Ok(p) => same_variable_parts(args@) == Ok::<(Datum, Datum, Datum), Failure>(
                (p.0@, p.1@, p.2@),
            ),
            Err(e) => same_variable_parts(args@) == Err::<(Datum, Datum, Datum), Failure>(e@),
        },
{
    let (pa, pb) = match first_two(args) {
        Some(v) => v,
        None => {
            return Err(ArithError::BadArgument);
        },
    };
    if !pa.is_pair() || !pb.is_pair() {
        return Err(ArithError::BadArgument);
    }
    if is_same_variable(variable(pa), variable(pb)) {
        Ok((variable(pa), term_list(pa), term_list(pb)))
    } else {
        Err(ArithError::VariableMismatch)
    }
}

fn tagged_poly(variable: &List, terms: List) -> (r: List)
    ensures
        r@ == tagged(polynomial_tag(), poly_of(variable@, terms@)),
{
    attach_tag("polynomial", &make_poly(variable.clone(), terms))
}

/// The sum of two polynomials in one variable.
pub fn poly_add<K: RealKernel>(arith: &ArithmeticContext<K>, args: &List, fuel: usize) -> (r: Result<
    List,
    ArithError,
>)
    ensures
        outcome(r) == spec_poly_add::<K>(arith@, args@, fuel as nat),
    decreases fuel, 90nat, 0nat,
{
    let (v, l1, l2) = same_variable_parts_of(args)?;
    let sum = add_terms(l1, l2, arith, fuel)?;
    Ok(tagged_poly(v, sum))
}

/// The product of two polynomials in one variable.
pub fn poly_mul<K: RealKernel>(arith: &ArithmeticContext<K>, args: &List, fuel: usize) -> (r: Result<
    List,
    ArithError,
>)
    ensures
        outcome(r) == spec_poly_mul::<K>(arith@, args@, fuel as nat),
    decreases fuel, 90nat, 0nat,
{
    let (v, l1, l2) = same_variable_parts_of(args)?;
    let product = mul_terms(l1, l2, arith, fuel)?;
    Ok(tagged_poly(v, product))
}

fn poly_parts_of(args: &List) -> (r: Result<(&List, &List), ArithError>)
    ensures
        match r {
            Ok(p) => poly_parts(args@) == Some((p.0@, p.1@)),
            Err(e) => poly_parts(args@) is None && e@ == Failure::BadArgument,
        },
{
    match first_of(args) {
        Some(p) => {
            if p.is_pair() {
                Ok((p.head(), p.tail()))
            } else {
                Err(ArithError::BadArgument)
            }
        },
        None => Err(ArithError::BadArgument),
    }
}

/// A polynomial is zero where every coefficient is.
pub fn poly_is_zero<K: RealKernel>(arith: &ArithmeticContext<K>, args: &List, fuel: usize) -> (r:
    Result<List, ArithError>)
    ensures
        outcome(r) == spec_poly_is_zero::<K>(arith@, args@, fuel as nat),
    decreases fuel, 90nat, 0nat,
{
    let (_, l) = poly_parts_of(args)?;
    zero_terms(l, arith, fuel)
}

/// The opposite of a polynomial.
pub fn poly_negative<K: RealKernel>(arith: &ArithmeticContext<K>, args: &List, fuel: usize) -> (r:
    Result<List, ArithError>)
    ensures
        outcome(r) == spec_poly_negative::<K>(arith@, args@, fuel as nat),
    decreases fuel, 90nat, 0nat,
{
    let (v, l) = poly_parts_of(args)?;
    let n = negative_terms(l, arith, fuel)?;
    Ok(tagged_poly(v, n))
}

/// The difference of two polynomials: the first and the opposite of the
/// second, added.
pub fn poly_sub<K: RealKernel>(arith: &ArithmeticContext<K>, args: &List, fuel: usize) -> (r: Result<
    List,
    ArithError,
>)
    ensures
        outcome(r) == spec_poly_sub::<K>(arith@, args@, fuel as nat),
    decreases fuel, 90nat, 0nat,
{
    let (pa, pb) = match first_two(args) {
        Some(v) => v,
        None => {
            return Err(ArithError::BadArgument);
        },
    };
    let n2 = arith.unary_at("negative", &attach_tag("polynomial", pb), fuel)?;
    arith.binary_at("add", &attach_tag("polynomial", pa), &n2, fuel)
}

/// The polynomial of a variable and a term list. A term list that is
/// tagged neither sparse nor dense is taken as the terms of a sparse one.
pub fn poly_from<K: RealKernel>(arith: &ArithmeticContext<K>, args: &List, fuel: usize) -> (r:
    Result<List, ArithError>)
    ensures
        outcome(r) == spec_poly_from::<K>(arith@, args@, fuel as nat),
    decreases fuel, 90nat, 0nat,
{
    let (v, l) = match first_two(args) {
        Some(p) => p,
        None => {
            return Err(ArithError::BadArgument);
        },
    };
    let t = type_tag(l)?;
    if t.is_text("sparse") || t.is_text("dense") {
        Ok(tagged_poly(v, l.clone()))
    } else {
        let made = make_terms_from_sparse_at(l, arith, fuel)?;
        Ok(tagged_poly(v, made))
    }
}

/// Makes the polynomial of a variable and a term list by the constructor
/// named `op`, with calls nested at most `fuel` deep.
pub fn make_polynomial_at<K: RealKernel>(
    op: &str,
    variable: &List,
    term_list: &List,
    arith: &ArithmeticContext<K>,
    fuel: usize,
) -> (r: Result<List, ArithError>)
    ensures
        outcome(r) == spec_make_polynomial::<K>(arith@, op@, variable@, term_list@, fuel as nat),
    decreases fuel, 21nat, 0nat,
{
    arith.construct_at(
        op,
        "polynomial",
        List::pair(variable.clone(), List::pair(term_list.clone(), List::Nil)),
        fuel,
    )
}

fn pretty_terms_at<K: RealKernel>(l: &List, arith: &ArithmeticContext<K>, fuel: usize) -> (r:
    Result<String, ArithError>)
    ensures
        match r {
            Ok(s) => spec_pretty_terms::<K>(arith@, l@, fuel as nat) == Ok::<Seq<char>, Failure>(
                s@,
            ),
            Err(e) => spec_pretty_terms::<K>(arith@, l@, fuel as nat) == Err::<
                Seq<char>,
                Failure,
            >(e@),
        },
    decreases fuel, 95nat, 0nat,
{
    let t1 = arith.unary_at("first_term", l, fuel)?;
    let (o, c) = match lead_of(&t1) {
        Ok(p) => p,
        Err(e) => {
            return Err(e);
        },
    };
    if fuel == 0 {
        return Err(ArithError::DepthExceeded);
    }
    let mut out = if is_tagged(c, "polynomial") {
        pretty_polynomial_at(c, arith, fuel - 1)?
    } else {
        c.to_string()
    };
    let ghost coeff_text = out@;
    if !o.equals(&List::integer(0)) {
        out.append("x^");
        o.write_to(&mut out);
    }
    assert(out@ =~= term_text(coeff_text, o@));
    let rest = arith.unary_at("rest_terms", l, fuel)?;
    if is_empty_term_list(&rest)? {
        Ok(out)
    } else {
        let more = pretty_terms_at(&rest, arith, fuel - 1)?;
        out.append(" + ");
        out.append(more.as_str());
        assert(out@ =~= term_text(coeff_text, o@) + " + "@ + more@);
        Ok(out)
    }
}

/// Writes a polynomial, with calls nested at most `fuel` deep.
pub fn pretty_polynomial_at<K: RealKernel>(p: &List, arith: &ArithmeticContext<K>, fuel: usize) -> (r:
    Result<String, ArithError>)
    ensures
        match r {
            Ok(s) => spec_pretty_polynomial::<K>(arith@, p@, fuel as nat) == Ok::<
                Seq<char>,
                Failure,
            >(s@),
            Err(e) => spec_pretty_polynomial::<K>(arith@, p@, fuel as nat) == Err::<
                Seq<char>,
                Failure,
            >(e@),
        },
    decreases fuel, 96nat, 0nat,
{
    let t = type_tag(p)?;
    let c = crate::tags::contents(p)?;
    let terms = c.tail_or_nil();
    let mut out = String::new();
    out.append("(");
    t.write_to(&mut out);
    out.append(":");
    if is_empty_term_list(&terms)? {
        out.append("Nil");
        out.append(")");
        assert(out@ =~= "("@ + t@.text() + ":"@ + "Nil"@ + ")"@);
        Ok(out)
    } else {
        let body = pretty_terms_at(&terms, arith, fuel)?;
        out.append(body.as_str());
        out.append(")");
        assert(out@ =~= "("@ + t@.text() + ":"@ + body@ + ")"@);
        Ok(out)
    }
}

/// Writes a polynomial: `(polynomial:4x^2 + 3x^1 + 7)`.
pub fn pretty_polynomial<K: RealKernel>(p: &List, arith: &ArithmeticContext<K>) -> (r: Result<
    String,
    ArithError,
>)
    ensures
        match r {
            Ok(s) => spec_pretty_polynomial::<K>(arith@, p@, arith.depth as nat) == Ok::<
                Seq<char>,
                Failure,
            >(s@),
            Err(e) => spec_pretty_polynomial::<K>(arith@, p@, arith.depth as nat) == Err::<
                Seq<char>,
                Failure,
            >(e@),
        },
{
    pretty_polynomial_at(p, arith, arith.depth)
}

} // verus!
