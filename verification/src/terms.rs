//! Term lists: the terms of a polynomial in falling order, as a sparse
//! list of terms or as a dense list of coefficients.
//!
//! A term is a list of an order and a coefficient. A term list is tagged
//! `sparse` or `dense`. The first term of either is always handed out as a
//! sparse term list of one term.
use vstd::prelude::*;
use crate::context::{first_of, first_two, list1, list2, one, two, ArithmeticContext, Tables};
use crate::engine::{spec_binary, spec_construct, spec_unary};
use crate::error::{outcome, ArithError, Failure, Outcome};
use crate::kernel::RealKernel;
use crate::list::{bool_datum, cons, int_datum, Datum, List};
use crate::numbers::{fits, int_of, integer_of};
use crate::tags::{attach_tag, contents_of, tagged};

verus! {

/// The tag of the sparse term lists.
pub open spec fn sparse_tag() -> Seq<char> {
    "sparse"@
}

/// The tag of the dense term lists.
pub open spec fn dense_tag() -> Seq<char> {
    "dense"@
}

/// The order of a term.
pub open spec fn order_of(term: Datum) -> Datum {
    term.head()
}

/// The coefficient of a term.
pub open spec fn coeff_of(term: Datum) -> Datum {
    term.tail().head()
}

/// The term of an order and a coefficient.
pub open spec fn term_of(order: Datum, coeff: Datum) -> Datum {
    list2(order, coeff)
}

/// The terms of a list of terms after the first.
pub open spec fn rest_of(terms: Datum) -> Datum {
    if terms is Nil {
        Datum::Nil
    } else {
        terms.tail()
    }
}

/// Whether a tagged term list holds no term.
pub open spec fn empty_terms(term_list: Datum) -> Result<bool, Failure> {
    match contents_of(term_list) {
        Ok(c) => Ok(c is Nil),
        Err(e) => Err(e),
    }
}

/// The order and the coefficient of the one term of a first term.
pub open spec fn lead(first: Datum) -> Option<(Datum, Datum)> {
    match contents_of(first) {
        Ok(c) => match one(c) {
            Some(term) => two(term),
            None => None,
        },
        Err(_) => None,
    }
}

/// The order of the first term of a dense list: one less than the number
/// of its coefficients, and zero for none.
pub open spec fn dense_order(coeffs: Datum) -> int {
    if coeffs is Nil {
        0
    } else {
        coeffs.length() - 1
    }
}

/// A dense list with zero coefficients in front until its first term has
/// the order `order`.
pub open spec fn padded(coeffs: Datum, order: int) -> Datum
    decreases
            (if order + 1 - coeffs.length() > 0 {
                order + 1 - coeffs.length()
            } else {
                0
            }),
{
    if dense_order(coeffs) >= order {
        coeffs
    } else {
        padded(cons(int_datum(0), coeffs), order)
    }
}

/// The first term of a sparse list, as a term list.
pub open spec fn spec_sparse_first_term(args: Datum) -> Outcome {
    match one(args) {
        Some(Datum::Cons(term, _)) => Ok(tagged(sparse_tag(), list1(*term))),
        _ => Err(Failure::BadArgument),
    }
}

/// The terms after the first, under `tag`.
pub open spec fn spec_rest_terms(tag: Seq<char>, args: Datum) -> Outcome {
    match one(args) {
        Some(Datum::V(_)) => Err(Failure::BadArgument),
        Some(terms) => Ok(tagged(tag, rest_of(terms))),
        None => Err(Failure::BadArgument),
    }
}

/// The contents of a term list under `tag`.
pub open spec fn spec_make_terms(tag: Seq<char>, args: Datum) -> Outcome {
    match one(args) {
        Some(terms) => Ok(tagged(tag, terms)),
        None => Err(Failure::BadArgument),
    }
}

/// The term and the terms that a term is adjoined to.
pub open spec fn adjoin_args(args: Datum) -> Option<(Datum, Datum)> {
    match two(args) {
        Some((first, terms)) => match one(first) {
            Some(term) => Some((term, terms)),
            None => None,
        },
        None => None,
    }
}

/// Whether the order of a term is below that of the first term of a
/// sparse list, both being integers.
pub open spec fn below_first(term: Datum, terms: Datum) -> bool {
    match (int_of(order_of(term)), int_of(order_of(terms.head()))) {
        (Some(a), Some(b)) => terms is Cons && a < b,
        _ => false,
    }
}

/// A term put in front of a sparse list. A term whose coefficient is zero
/// is left out; one whose order is below that of the first term fails.
pub open spec fn spec_sparse_adjoin<K: RealKernel>(ctx: Tables<K>, args: Datum, fuel: nat) -> Outcome
    decreases fuel, 90nat, 0nat,
{
    match adjoin_args(args) {
        None => Err(Failure::BadArgument),
        Some((term, terms)) => match spec_unary::<K>(
            ctx,
            "is_equal_to_zero"@,
            coeff_of(term),
            fuel,
        ) {
            Err(e) => Err(e),
            Ok(z) => if z == bool_datum(true) {
                Ok(tagged(sparse_tag(), terms))
            } else if below_first(term, terms) {
                Err(Failure::OrderingViolation)
            } else {
                Ok(tagged(sparse_tag(), cons(term, terms)))
            },
        },
    }
}

/// The first term of a dense list, as a sparse term list: its order is
/// read off the length. A list of no coefficient has the term of order
/// zero with the coefficient zero.
pub open spec fn spec_dense_first_term(args: Datum) -> Outcome {
    match one(args) {
        Some(Datum::V(_)) => Err(Failure::BadArgument),
        Some(coeffs) => if !fits(dense_order(coeffs)) {
            Err(Failure::Overflow)
        } else {
            Ok(
                tagged(
                    sparse_tag(),
                    list1(
                        term_of(
                            int_datum(dense_order(coeffs)),
                            if coeffs is Nil {
                                int_datum(0)
                            } else {
                                coeffs.head()
                            },
                        ),
                    ),
                ),
            )
        },
        None => Err(Failure::BadArgument),
    }
}

/// A term added into a dense list. A term whose coefficient is zero is
/// left out; one whose order is below that of the list fails. The list is
/// filled up with zeros to the order of the term, and the coefficient
/// added to the first.
pub open spec fn spec_dense_adjoin<K: RealKernel>(ctx: Tables<K>, args: Datum, fuel: nat) -> Outcome
    decreases fuel, 90nat, 0nat,
{
    match adjoin_args(args) {
        None => Err(Failure::BadArgument),
        Some((term, coeffs)) => match spec_unary::<K>(
            ctx,
            "is_equal_to_zero"@,
            coeff_of(term),
            fuel,
        ) {
            Err(e) => Err(e),
            Ok(z) => if z == bool_datum(true) {
                Ok(tagged(dense_tag(), coeffs))
            } else {
                match int_of(order_of(term)) {
                    None => Err(Failure::BadArgument),
                    Some(o) => if coeffs is V {
                        Err(Failure::BadArgument)
                    } else if o < dense_order(coeffs) {
                        Err(Failure::OrderingViolation)
                    } else {
                        let full = padded(coeffs, o);
                        if full is Nil {
                            Ok(tagged(dense_tag(), list1(coeff_of(term))))
                        } else {
                            match spec_binary::<K>(ctx, "add"@, full.head(), coeff_of(term), fuel) {
                                Err(e) => Err(e),
                                Ok(sum) => Ok(tagged(dense_tag(), cons(sum, full.tail()))),
                            }
                        }
                    },
                }
            },
        },
    }
}

/// The sparse term list of the given terms, as the constructor makes it.
pub open spec fn spec_make_terms_from_sparse<K: RealKernel>(ctx: Tables<K>, terms: Datum, fuel: nat) -> Outcome
    decreases fuel, 21nat, 0nat,
{
    spec_construct::<K>(ctx, "make_terms_from_sparse"@, sparse_tag(), list1(terms), fuel)
}

/// The dense term list of the given coefficients, as the constructor makes
/// it.
pub open spec fn spec_make_terms_from_dense<K: RealKernel>(ctx: Tables<K>, coeffs: Datum, fuel: nat) -> Outcome
    decreases fuel, 21nat, 0nat,
{
    spec_construct::<K>(ctx, "make_terms_from_dense"@, dense_tag(), list1(coeffs), fuel)
}

/// The term list of the one term of an order and a coefficient.
pub open spec fn spec_single_term<K: RealKernel>(ctx: Tables<K>, order: Datum, coeff: Datum, fuel: nat) -> Outcome
    decreases fuel, 22nat, 0nat,
{
    spec_make_terms_from_sparse::<K>(ctx, list1(term_of(order, coeff)), fuel)
}

/// The order of a term.
pub fn order(term: &List) -> (r: &List)
    requires
        term@ is Cons,
    ensures
        r@ == order_of(term@),
{
    term.head()
}

/// The coefficient of a term.
pub fn coeff(term: &List) -> (r: &List)
    requires
        two(term@) is Some,
    ensures
        r@ == coeff_of(term@),
{
    term.tail().head()
}

/// The term of an order and a coefficient.
pub fn make_term(order: List, coeff: List) -> (r: List)
    ensures
        r@ == term_of(order@, coeff@),
{
    List::pair(order, List::pair(coeff, List::Nil))
}

/// Whether a tagged term list holds no term.
pub fn is_empty_term_list(term_list: &List) -> (r: Result<bool, ArithError>)
    ensures
        match r {
            Ok(b) => empty_terms(term_list@) == Ok::<bool, Failure>(b),
            Err(e) => empty_terms(term_list@) == Err::<bool, Failure>(e@),
        },
{
    let c = crate::tags::contents(term_list)?;
    Ok(c.is_empty())
}

/// The terms of a list of terms after the first.
pub fn rest_terms(term_list: &List) -> (r: List)
    requires
        !(term_list@ is V),
    ensures
        r@ == rest_of(term_list@),
{
    if term_list.is_empty() {
        List::Nil
    } else {
        term_list.tail().clone()
    }
}

/// The one term of a first term.
pub fn pure_first_term(first_term: &List) -> (r: Result<List, ArithError>)
    ensures
        match r {
            Ok(term) => contents_of(first_term@) matches Ok(c) && one(c) == Some(term@),
            Err(e) => e@ == Failure::BadArgument && !(contents_of(first_term@) matches Ok(c) && one(
                c,
            ) is Some),
        },
{
    match first_term {
        List::Cons(_, c) => match first_of(&**c) {
            Some(term) => Ok(term.clone()),
            None => Err(ArithError::BadArgument),
        },
        _ => Err(ArithError::BadArgument),
    }
}

/// The order and the coefficient of the one term of a first term.
pub fn lead_of(first: &List) -> (r: Result<(&List, &List), ArithError>)
    ensures
        match r {
            Ok(p) => lead(first@) == Some((p.0@, p.1@)),
            Err(e) => lead(first@) is None && e@ == Failure::BadArgument,
        },
{
    match first {
        List::Cons(_, c) => match first_of(&**c) {
            Some(term) => match first_two(term) {
                Some(p) => Ok(p),
                None => Err(ArithError::BadArgument),
            },
            None => Err(ArithError::BadArgument),
        },
        _ => Err(ArithError::BadArgument),
    }
}

/// The first term of a sparse list, as a term list.
pub fn sparse_first_term(args: &List) -> (r: Result<List, ArithError>)
    ensures
        outcome(r) == spec_sparse_first_term(args@),
{
    match first_of(args) {
        Some(p) => match first_of(p) {
            Some(term) => Ok(attach_tag("sparse", &List::pair(term.clone(), List::Nil))),
            None => Err(ArithError::BadArgument),
        },
        None => Err(ArithError::BadArgument),
    }
}

/// The terms after the first, under `tag`.
pub fn rest_terms_under(tag: &str, args: &List) -> (r: Result<List, ArithError>)
    ensures
        outcome(r) == spec_rest_terms(tag@, args@),
{
    match first_of(args) {
        Some(terms) => {
            if terms.is_value() {
                Err(ArithError::BadArgument)
            } else {
                Ok(attach_tag(tag, &rest_terms(terms)))
            }
        },
        None => Err(ArithError::BadArgument),
    }
}

/// The contents of a term list under `tag`.
pub fn make_terms_under(tag: &str, args: &List) -> (r: Result<List, ArithError>)
    ensures
        outcome(r) == spec_make_terms(tag@, args@),
{
    match first_of(args) {
        Some(terms) => Ok(attach_tag(tag, terms)),
        None => Err(ArithError::BadArgument),
    }
}

fn adjoin_args_of(args: &List) -> (r: Result<(&List, &List), ArithError>)
    ensures
        match r {
            Ok(p) => adjoin_args(args@) == Some((p.0@, p.1@)),
            Err(e) => adjoin_args(args@) is None && e@ == Failure::BadArgument,
        },
{
    match first_two(args) {
        Some((first, terms)) => match first_of(first) {
            Some(term) => Ok((term, terms)),
            None => Err(ArithError::BadArgument),
        },
        None => Err(ArithError::BadArgument),
    }
}

fn coeff_or_nil(term: &List) -> (r: List)
    ensures
        r@ == coeff_of(term@),
{
    match first_two(term) {
        Some((_, c)) => c.clone(),
        None => List::Nil,
    }
}

fn order_as_int(term: &List) -> (r: Option<i32>)
    ensures
        match r {
            Some(i) => int_of(order_of(term@)) == Some(i as int),
            None => int_of(order_of(term@)) is None,
        },
{
    match first_of(term) {
        Some(o) => integer_of(o),
        None => None,
    }
}

fn is_below_first(term: &List, terms: &List) -> (r: bool)
    ensures
        r == below_first(term@, terms@),
{
    match first_of(terms) {
        Some(existing) => match (order_as_int(term), order_as_int(existing)) {
            (Some(a), Some(b)) => a < b,
            _ => false,
        },
        None => false,
    }
}

/// A term put in front of a sparse list. A term whose coefficient is zero
/// is left out; one whose order is below that of the first term fails.
pub fn sparse_adjoin<K: RealKernel>(arith: &ArithmeticContext<K>, args: &List, fuel: usize) -> (r:
    Result<List, ArithError>)
    ensures
        outcome(r) == spec_sparse_adjoin::<K>(arith@, args@, fuel as nat),
    decreases fuel, 90nat, 0nat,
{
    let (term, terms) = adjoin_args_of(args)?;
    let z = arith.unary_at("is_equal_to_zero", &coeff_or_nil(term), fuel)?;
    if z.is_true() {
        Ok(attach_tag("sparse", terms))
    } else if is_below_first(term, terms) {
        Err(ArithError::OrderingViolation)
    } else {
        Ok(attach_tag("sparse", &List::pair(term.clone(), terms.clone())))
    }
}

fn dense_order_of(coeffs: &List) -> (r: Option<i32>)
    requires
        !(coeffs@ is V),
    ensures
        match r {
            Some(o) => o as int == dense_order(coeffs@),
            None => !fits(dense_order(coeffs@)),
        },
{
    if coeffs.is_empty() {
        Some(0)
    } else {
        match coeffs.length_within(0x8000_0000) {
            Some(n) => Some((n - 1) as i32),
            None => None,
        }
    }
}

/// The first term of a dense list, as a sparse term list: its order is
/// read off the length. A list of no coefficient has the term of order
/// zero with the coefficient zero.
pub fn dense_first_term(args: &List) -> (r: Result<List, ArithError>)
    ensures
        outcome(r) == spec_dense_first_term(args@),
{
    let coeffs = match first_of(args) {
        Some(c) => c,
        None => {
            return Err(ArithError::BadArgument);
        },
    };
    if coeffs.is_value() {
        return Err(ArithError::BadArgument);
    }
    let o = match dense_order_of(coeffs) {
        Some(o) => o,
        None => {
            return Err(ArithError::Overflow);
        },
    };
    let c = if coeffs.is_empty() {
        List::integer(0)
    } else {
        coeffs.head().clone()
    };
    Ok(attach_tag("sparse", &List::pair(make_term(List::integer(o), c), List::Nil)))
}

fn pad(coeffs: List, from: i32, order: i32) -> (r: List)
    requires
        !(coeffs@ is V),
        from as int == dense_order(coeffs@),
        from <= order,
    ensures
        r@ == padded(coeffs@, order as int),
        !(r@ is V),
{
    let mut l = coeffs;
    let mut at: i32 = from;
    while at < order
        invariant
            !(l@ is V),
            at as int == dense_order(l@),
            at <= order,
            padded(l@, order as int) == padded(coeffs@, order as int),
        decreases order - at + (if l@ is Nil { 1int } else { 0int }),
    {
        let empty = l.is_empty();
        proof {
            assert(Datum::Nil.length() == 0);
            assert(cons(int_datum(0), l@).length() == 1 + l@.length());
        }
        l = List::pair(List::integer(0), l);
        if !empty {
            at = at + 1;
        }
    }
    l
}

/// A term added into a dense list. A term whose coefficient is zero is
/// left out; one whose order is below that of the list fails. The list is
/// filled up with zeros to the order of the term, and the coefficient
/// added to the first.
pub fn dense_adjoin<K: RealKernel>(arith: &ArithmeticContext<K>, args: &List, fuel: usize) -> (r:
    Result<List, ArithError>)
    ensures
        outcome(r) == spec_dense_adjoin::<K>(arith@, args@, fuel as nat),
    decreases fuel, 90nat, 0nat,
{
    let (term, coeffs) = adjoin_args_of(args)?;
    let c = coeff_or_nil(term);
    let z = arith.unary_at("is_equal_to_zero", &c, fuel)?;
    if z.is_true() {
        return Ok(attach_tag("dense", coeffs));
    }
    let o = match order_as_int(term) {
        Some(o) => o,
        None => {
            return Err(ArithError::BadArgument);
        },
    };
    if coeffs.is_value() {
        return Err(ArithError::BadArgument);
    }
    let from = match dense_order_of(coeffs) {
        Some(v) => v,
        None => {
            return Err(ArithError::OrderingViolation);
        },
    };
    if o < from {
        return Err(ArithError::OrderingViolation);
    }
    let full = pad(coeffs.clone(), from, o);
    if full.is_empty() {
        Ok(attach_tag("dense", &List::pair(c, List::Nil)))
    } else {
        let sum = arith.binary_at("add", full.head(), &c, fuel)?;
        Ok(attach_tag("dense", &List::pair(sum, full.tail().clone())))
    }
}

/// Makes the sparse term list of the given terms, with calls nested at
/// most `fuel` deep.
pub fn make_terms_from_sparse_at<K: RealKernel>(
    terms: &List,
    arith: &ArithmeticContext<K>,
    fuel: usize,
) -> (r: Result<List, ArithError>)
    ensures
        outcome(r) == spec_make_terms_from_sparse::<K>(arith@, terms@, fuel as nat),
    decreases fuel, 21nat, 0nat,
{
    arith.construct_at("make_terms_from_sparse", "sparse", List::pair(terms.clone(), List::Nil), fuel)
}

/// Makes the dense term list of the given coefficients, with calls nested
/// at most `fuel` deep.
pub fn make_terms_from_dense_at<K: RealKernel>(
    coeffs: &List,
    arith: &ArithmeticContext<K>,
    fuel: usize,
) -> (r: Result<List, ArithError>)
    ensures
        outcome(r) == spec_make_terms_from_dense::<K>(arith@, coeffs@, fuel as nat),
    decreases fuel, 21nat, 0nat,
{
    arith.construct_at("make_terms_from_dense", "dense", List::pair(coeffs.clone(), List::Nil), fuel)
}

/// Makes the term list of one term, with calls nested at most `fuel` deep.
pub fn single_term_at<K: RealKernel>(
    order: List,
    coeff: List,
    arith: &ArithmeticContext<K>,
    fuel: usize,
) -> (r: Result<List, ArithError>)
    ensures
        outcome(r) == spec_single_term::<K>(arith@, order@, coeff@, fuel as nat),
    decreases fuel, 22nat, 0nat,
{
    make_terms_from_sparse_at(&List::pair(make_term(order, coeff), List::Nil), arith, fuel)
}

} // verus!
