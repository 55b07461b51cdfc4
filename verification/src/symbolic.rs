//! Algebraic expressions as lists: `(+ a b)`, `(* a b)`, `(** b e)`.
use vstd::prelude::*;
use crate::list::{cons, int_datum, text_datum, Datum, List};
use crate::value::{Atom, AtomView};

verus! {

/// Whether `d` is a list that starts with the operator `op` and has at
/// least two operands after it.
pub open spec fn is_operation(d: Datum, op: Seq<char>) -> bool {
    d is Cons && d.head() == text_datum(op) && d.tail() is Cons && d.tail().tail() is Cons
}

/// Whether an expression is a number.
pub fn is_number(exp: &List) -> (r: bool)
    ensures
        r == (exp@ matches Datum::V(v) && (v is Int || v is Real)),
{
    exp.is_value() && exp.is_number_value()
}

/// Whether an expression is a variable, that is a string.
pub fn is_variable(exp: &List) -> (r: bool)
    ensures
        r == (exp@ matches Datum::V(v) && v is Str),
{
    exp.is_value() && exp.is_string_value()
}

/// Whether two expressions are the same variable.
pub fn is_same_variable(exp1: &List, exp2: &List) -> (r: bool)
    ensures
        r == (exp1@ matches Datum::V(v) && v is Str && exp1@ == exp2@),
{
    is_variable(exp1) && exp1.equals(exp2)
}

/// Whether an expression is a number equal to `num`.
pub fn number_equal(exp: &List, num: &List) -> (r: bool)
    ensures
        r == (exp@ matches Datum::V(v) && (v is Int || v is Real) && exp@ == num@),
{
    is_number(exp) && exp.equals(num)
}

/// Whether an expression is a sum.
pub fn is_sum(x: &List) -> (r: bool)
    ensures
        r == (x@ is Cons && x@.head() == text_datum("+"@)),
{
    x.is_pair() && x.head().is_text("+")
}

/// The first term of a sum.
pub fn addend(s: &List) -> (r: &List)
    requires
        is_operation(s@, "+"@),
    ensures
        r@ == s@.tail().head(),
{
    s.tail().head()
}

/// The second term of a sum.
pub fn augend(s: &List) -> (r: &List)
    requires
        is_operation(s@, "+"@),
    ensures
        r@ == s@.tail().tail().head(),
{
    s.tail().tail().head()
}

/// Whether an expression is a product.
pub fn is_product(x: &List) -> (r: bool)
    ensures
        r == (x@ is Cons && x@.head() == text_datum("*"@)),
{
    x.is_pair() && x.head().is_text("*")
}

/// The first factor of a product.
pub fn multiplier(p: &List) -> (r: &List)
    requires
        is_operation(p@, "*"@),
    ensures
        r@ == p@.tail().head(),
{
    p.tail().head()
}

/// The second factor of a product.
pub fn multiplicand(p: &List) -> (r: &List)
    requires
        is_operation(p@, "*"@),
    ensures
        r@ == p@.tail().tail().head(),
{
    p.tail().tail().head()
}

/// Whether an expression is a power.
pub fn is_exp(x: &List) -> (r: bool)
    ensures
        r == (x@ is Cons && x@.head() == text_datum("**"@)),
{
    x.is_pair() && x.head().is_text("**")
}

/// The base of a power.
pub fn base(e: &List) -> (r: &List)
    requires
        is_operation(e@, "**"@),
    ensures
        r@ == e@.tail().head(),
{
    e.tail().head()
}

/// The exponent of a power.
pub fn exponent(e: &List) -> (r: &List)
    requires
        is_operation(e@, "**"@),
    ensures
        r@ == e@.tail().tail().head(),
{
    e.tail().tail().head()
}

/// The additive identity of the integers by `num::Zero::zero`, which is 0.
#[verifier::external_body]
fn zero() -> (z: i32)
    ensures
        z == 0,
{
    <i32 as num::Zero>::zero()
}

/// The multiplicative identity of the integers by `num::One::one`, which
/// is 1.
#[verifier::external_body]
fn one() -> (u: i32)
    ensures
        u == 1,
{
    <i32 as num::One>::one()
}

/// Whether a datum is a number.
pub open spec fn is_number_datum(d: Datum) -> bool {
    d matches Datum::V(v) && (v is Int || v is Real)
}

/// The two integers that two data are, if both are.
pub open spec fn both_ints(a: Datum, b: Datum) -> Option<(int, int)> {
    match (a, b) {
        (Datum::V(AtomView::Int(x)), Datum::V(AtomView::Int(y))) => Some((x, y)),
        _ => None,
    }
}

/// The list of an operator and two operands.
pub open spec fn operation(op: Seq<char>, a: Datum, b: Datum) -> Datum {
    cons(text_datum(op), cons(a, cons(b, Datum::Nil)))
}

/// The sum of two expressions, simplified: a zero term is left out, two
/// integers are added, anything else stays a sum.
pub open spec fn sum_of(a1: Datum, a2: Datum) -> Datum {
    if a1 == int_datum(0) {
        a2
    } else if a2 == int_datum(0) {
        a1
    } else {
        match both_ints(a1, a2) {
            Some((x, y)) => int_datum(x + y),
            None => operation("+"@, a1, a2),
        }
    }
}

/// The product of two expressions, simplified: a zero factor makes zero,
/// a factor of one is left out, two integers are multiplied, anything else
/// stays a product.
pub open spec fn product_of(m1: Datum, m2: Datum) -> Datum {
    if m1 == int_datum(0) || m2 == int_datum(0) {
        int_datum(0)
    } else if m1 == int_datum(1) {
        m2
    } else if m2 == int_datum(1) {
        m1
    } else {
        match both_ints(m1, m2) {
            Some((x, y)) => int_datum(x * y),
            None => operation("*"@, m1, m2),
        }
    }
}

/// Whether two numbers that meet in an expression are both integers.
pub open spec fn numbers_are_ints(a: Datum, b: Datum) -> bool {
    is_number_datum(a) && is_number_datum(b) ==> both_ints(a, b) is Some
}

fn operation_of(op: &str, a: List, b: List) -> (r: List)
    ensures
        r@ == operation(op@, a@, b@),
{
    List::pair(List::text(op), List::pair(a, List::pair(b, List::Nil)))
}

fn ints_of(a: &List, b: &List) -> (r: Option<(i32, i32)>)
    ensures
        match r {
            Some(p) => both_ints(a@, b@) == Some((p.0 as int, p.1 as int)),
            None => both_ints(a@, b@) is None,
        },
{
    match (a, b) {
        (List::V(Atom::Int(x)), List::V(Atom::Int(y))) => Some((*x, *y)),
        _ => None,
    }
}

/// The sum of two expressions over the integers, simplified.
pub fn make_sum(a1: List, a2: List) -> (r: List)
    requires
        a1@ != int_datum(0) && a2@ != int_datum(0) ==> numbers_are_ints(a1@, a2@),
        a1@ != int_datum(0) && a2@ != int_datum(0) ==> (both_ints(a1@, a2@) matches Some(p)
            ==> i32::MIN <= p.0 + p.1 <= i32::MAX),
    ensures
        r@ == sum_of(a1@, a2@),
{
    let nothing = List::integer(zero());
    if a1.equals(&nothing) {
        a2
    } else if a2.equals(&nothing) {
        a1
    } else {
        match ints_of(&a1, &a2) {
            Some((x, y)) => List::integer(x + y),
            None => operation_of("+", a1, a2),
        }
    }
}

/// The product of two expressions over the integers, simplified.
pub fn make_product(m1: List, m2: List) -> (r: List)
    requires
        m1@ != int_datum(0) && m2@ != int_datum(0) && m1@ != int_datum(1) && m2@ != int_datum(1)
            ==> numbers_are_ints(m1@, m2@),
        m1@ != int_datum(0) && m2@ != int_datum(0) && m1@ != int_datum(1) && m2@ != int_datum(1)
            ==> (both_ints(m1@, m2@) matches Some(p) ==> i32::MIN <= p.0 * p.1 <= i32::MAX),
    ensures
        r@ == product_of(m1@, m2@),
{
    let nothing = List::integer(zero());
    let unit = List::integer(one());
    if m1.equals(&nothing) || m2.equals(&nothing) {
        nothing
    } else if m1.equals(&unit) {
        m2
    } else if m2.equals(&unit) {
        m1
    } else {
        match ints_of(&m1, &m2) {
            Some((x, y)) => List::integer(x * y),
            None => operation_of("*", m1, m2),
        }
    }
}

} // verus!
