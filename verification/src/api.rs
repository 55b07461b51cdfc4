//! The generic operations and the constructors as a caller uses them: each
//! runs with the limit on nested calls that the context holds.
use vstd::prelude::*;
use crate::complex::{
    make_complex_from_mag_ang_at, make_complex_from_real_imag_at, spec_make_complex_from_mag_ang,
    spec_make_complex_from_real_imag,
};
use crate::context::ArithmeticContext;
use crate::engine::{
    apply_generic_at, call_at, spec_apply_generic, spec_binary, spec_call, spec_drop,
    spec_drop_to_type, spec_project, spec_raise, spec_sqrt, spec_unary, spec_unify, unify_at,
};
use crate::error::{outcome, outcome2, ArithError};
use crate::kernel::{Real, RealKernel};
use crate::list::{text_datum, List};
use crate::numbers::{make_integer_at, spec_make_integer};
use crate::poly::{
    make_empty_term_list_at, make_polynomial_at, spec_make_empty_term_list, spec_make_polynomial,
};
use crate::procedure::ClosureWrapper;
use crate::rational::{make_rational_at, spec_make_rational};
use crate::reals::{make_float_at, spec_make_float};
use crate::terms::{
    make_terms_from_dense_at, make_terms_from_sparse_at, spec_make_terms_from_dense,
    spec_make_terms_from_sparse,
};

verus! {

/// Applies the generic operation `op` to the tagged values `args`.
pub fn apply_generic<K: RealKernel>(op: &List, args: &List, arith: &ArithmeticContext<K>) -> (r:
    Result<List, ArithError>)
    ensures
        outcome(r) == spec_apply_generic::<K>(arith@, op@, args@, arith.depth as nat),
{
    apply_generic_at(op, args, arith, arith.depth)
}

/// Brings two values to one type of the tower by raising the lower one.
pub fn unify_arithmetic_types<K: RealKernel>(a1: List, a2: List, arith: &ArithmeticContext<K>) -> (r:
    Result<(List, List), ArithError>)
    ensures
        outcome2(r) == spec_unify::<K>(arith@, a1@, a2@, arith.depth as nat),
{
    unify_at(a1, a2, arith, arith.depth)
}

/// The integer `x`.
pub fn make_integer<K: RealKernel>(x: i32, arith: &ArithmeticContext<K>) -> (r: Result<
    List,
    ArithError,
>)
    ensures
        outcome(r) == spec_make_integer::<K>(arith@, x as int, arith.depth as nat),
{
    make_integer_at(x, arith, arith.depth)
}

/// The real `x`.
pub fn make_float<K: RealKernel>(x: Real, arith: &ArithmeticContext<K>) -> (r: Result<
    List,
    ArithError,
>)
    ensures
        outcome(r) == spec_make_float::<K>(arith@, x, arith.depth as nat),
{
    make_float_at(x, arith, arith.depth)
}

/// The rational number of numerator `n` and denominator `d`.
pub fn make_rational<K: RealKernel>(n: List, d: List, arith: &ArithmeticContext<K>) -> (r: Result<
    List,
    ArithError,
>)
    ensures
        outcome(r) == spec_make_rational::<K>(arith@, n@, d@, arith.depth as nat),
{
    make_rational_at(n, d, arith, arith.depth)
}

/// The complex number of real part `x` and imaginary part `y`.
pub fn make_complex_from_real_imag<K: RealKernel>(x: List, y: List, arith: &ArithmeticContext<K>) -> (r:
    Result<List, ArithError>)
    ensures
        outcome(r) == spec_make_complex_from_real_imag::<K>(arith@, x@, y@, arith.depth as nat),
{
    make_complex_from_real_imag_at(x, y, arith, arith.depth)
}

/// The complex number of magnitude `r` and angle `a`.
pub fn make_complex_from_mag_ang<K: RealKernel>(r: List, a: List, arith: &ArithmeticContext<K>) -> (z:
    Result<List, ArithError>)
    ensures
        outcome(z) == spec_make_complex_from_mag_ang::<K>(arith@, r@, a@, arith.depth as nat),
{
    make_complex_from_mag_ang_at(r, a, arith, arith.depth)
}

/// The sparse term list of the given terms.
pub fn make_terms_from_sparse<K: RealKernel>(term_list: &List, arith: &ArithmeticContext<K>) -> (r:
    Result<List, ArithError>)
    ensures
        outcome(r) == spec_make_terms_from_sparse::<K>(arith@, term_list@, arith.depth as nat),
{
    make_terms_from_sparse_at(term_list, arith, arith.depth)
}

/// The dense term list of the given coefficients.
pub fn make_terms_from_dense<K: RealKernel>(term_list: &List, arith: &ArithmeticContext<K>) -> (r:
    Result<List, ArithError>)
    ensures
        outcome(r) == spec_make_terms_from_dense::<K>(arith@, term_list@, arith.depth as nat),
{
    make_terms_from_dense_at(term_list, arith, arith.depth)
}

/// The empty term list.
pub fn make_empty_term_list<K: RealKernel>(arith: &ArithmeticContext<K>) -> (r: Result<
    List,
    ArithError,
>)
    ensures
        outcome(r) == spec_make_empty_term_list::<K>(arith@, arith.depth as nat),
{
    make_empty_term_list_at(arith, arith.depth)
}

/// The polynomial in `variable` with the terms `term_list`, meant sparse.
pub fn make_polynomial_from_sparse<K: RealKernel>(
    variable: &List,
    term_list: &List,
    arith: &ArithmeticContext<K>,
) -> (r: Result<List, ArithError>)
    ensures
        outcome(r) == spec_make_polynomial::<K>(
            arith@,
            "make_polynomial_from_sparse"@,
            variable@,
            term_list@,
            arith.depth as nat,
        ),
{
    make_polynomial_at("make_polynomial_from_sparse", variable, term_list, arith, arith.depth)
}

/// The polynomial in `variable` with the terms `term_list`, meant dense.
pub fn make_polynomial_from_dense<K: RealKernel>(
    variable: &List,
    term_list: &List,
    arith: &ArithmeticContext<K>,
) -> (r: Result<List, ArithError>)
    ensures
        outcome(r) == spec_make_polynomial::<K>(
            arith@,
            "make_polynomial_from_dense"@,
            variable@,
            term_list@,
            arith.depth as nat,
        ),
{
    make_polynomial_at("make_polynomial_from_dense", variable, term_list, arith, arith.depth)
}

impl ClosureWrapper {
    /// Applies the procedure to the contents `args`.
    pub fn call<K: RealKernel>(&self, args: &List, arith: &ArithmeticContext<K>) -> (r: Result<
        List,
        ArithError,
    >)
        ensures
            outcome(r) == spec_call::<K>(arith@, self.func, args@, arith.depth as nat),
    {
        call_at(self.func, args, arith, arith.depth)
    }
}

impl<K: RealKernel> ArithmeticContext<K> {
    /// The same context with another limit on the nesting of calls.
    pub fn with_depth(self, depth: usize) -> (r: Self)
        ensures
            r@ == self@,
            r.depth == depth,
            r.kernel == self.kernel,
    {
        ArithmeticContext {
            optable: self.optable,
            coercion: self.coercion,
            depth,
            kernel: self.kernel,
        }
    }

    /// Applies the generic operation named `op` to the tagged values
    /// `args`.
    pub fn apply_generic(&self, op: &'static str, args: &List) -> (r: Result<List, ArithError>)
        ensures
            outcome(r) == spec_apply_generic::<K>(
                self@,
                text_datum(op@),
                args@,
                self.depth as nat,
            ),
    {
        apply_generic_at(&List::text(op), args, self, self.depth)
    }

    /// The sum.
    pub fn add(&self, x: &List, y: &List) -> (r: Result<List, ArithError>)
        ensures
            outcome(r) == spec_binary::<K>(self@, "add"@, x@, y@, self.depth as nat),
    {
        self.binary_at("add", x, y, self.depth)
    }

    /// The difference.
    pub fn sub(&self, x: &List, y: &List) -> (r: Result<List, ArithError>)
        ensures
            outcome(r) == spec_binary::<K>(self@, "sub"@, x@, y@, self.depth as nat),
    {
        self.binary_at("sub", x, y, self.depth)
    }

    /// The product.
    pub fn mul(&self, x: &List, y: &List) -> (r: Result<List, ArithError>)
        ensures
            outcome(r) == spec_binary::<K>(self@, "mul"@, x@, y@, self.depth as nat),
    {
        self.binary_at("mul", x, y, self.depth)
    }

    /// The quotient.
    pub fn div(&self, x: &List, y: &List) -> (r: Result<List, ArithError>)
        ensures
            outcome(r) == spec_binary::<K>(self@, "div"@, x@, y@, self.depth as nat),
    {
        self.binary_at("div", x, y, self.depth)
    }

    /// Whether two values are equal, as a truth value.
    pub fn is_equal(&self, x: &List, y: &List) -> (r: Result<List, ArithError>)
        ensures
            outcome(r) == spec_binary::<K>(self@, "is_equal"@, x@, y@, self.depth as nat),
    {
        self.binary_at("is_equal", x, y, self.depth)
    }

    /// Whether a value is zero, as a truth value.
    pub fn is_equal_to_zero(&self, x: &List) -> (r: Result<List, ArithError>)
        ensures
            outcome(r) == spec_unary::<K>(self@, "is_equal_to_zero"@, x@, self.depth as nat),
    {
        self.unary_at("is_equal_to_zero", x, self.depth)
    }

    /// The opposite.
    pub fn negative(&self, x: &List) -> (r: Result<List, ArithError>)
        ensures
            outcome(r) == spec_unary::<K>(self@, "negative"@, x@, self.depth as nat),
    {
        self.unary_at("negative", x, self.depth)
    }

    /// The absolute value.
    pub fn abs(&self, x: &List) -> (r: Result<List, ArithError>)
        ensures
            outcome(r) == spec_unary::<K>(self@, "abs"@, x@, self.depth as nat),
    {
        self.unary_at("abs", x, self.depth)
    }

    /// The numerator of a rational number.
    pub fn numer(&self, x: &List) -> (r: Result<List, ArithError>)
        ensures
            outcome(r) == spec_unary::<K>(self@, "numer"@, x@, self.depth as nat),
    {
        self.unary_at("numer", x, self.depth)
    }

    /// The denominator of a rational number.
    pub fn denom(&self, x: &List) -> (r: Result<List, ArithError>)
        ensures
            outcome(r) == spec_unary::<K>(self@, "denom"@, x@, self.depth as nat),
    {
        self.unary_at("denom", x, self.depth)
    }

    /// The real part of a complex number.
    pub fn real_part(&self, x: &List) -> (r: Result<List, ArithError>)
        ensures
            outcome(r) == spec_unary::<K>(self@, "real_part"@, x@, self.depth as nat),
    {
        self.unary_at("real_part", x, self.depth)
    }

    /// The imaginary part of a complex number.
    pub fn imag_part(&self, x: &List) -> (r: Result<List, ArithError>)
        ensures
            outcome(r) == spec_unary::<K>(self@, "imag_part"@, x@, self.depth as nat),
    {
        self.unary_at("imag_part", x, self.depth)
    }

    /// The magnitude of a complex number.
    pub fn magnitude(&self, x: &List) -> (r: Result<List, ArithError>)
        ensures
            outcome(r) == spec_unary::<K>(self@, "magnitude"@, x@, self.depth as nat),
    {
        self.unary_at("magnitude", x, self.depth)
    }

    /// The angle of a complex number.
    pub fn angle(&self, x: &List) -> (r: Result<List, ArithError>)
        ensures
            outcome(r) == spec_unary::<K>(self@, "angle"@, x@, self.depth as nat),
    {
        self.unary_at("angle", x, self.depth)
    }

    /// The greatest common divisor of two integers or two polynomials.
    pub fn gcd(&self, x: &List, y: &List) -> (r: Result<List, ArithError>)
        ensures
            outcome(r) == spec_binary::<K>(self@, "gcd"@, x@, y@, self.depth as nat),
    {
        self.binary_at("gcd", x, y, self.depth)
    }

    /// Two integers or two polynomials as numerator and denominator in
    /// lowest terms, as a list of two.
    pub fn reduce(&self, x: &List, y: &List) -> (r: Result<List, ArithError>)
        ensures
            outcome(r) == spec_binary::<K>(self@, "reduce"@, x@, y@, self.depth as nat),
    {
        self.binary_at("reduce", x, y, self.depth)
    }

    /// A value one step up the tower; a value outside the tower or at its
    /// top as it is.
    pub fn raise(&self, x: &List) -> (r: Result<List, ArithError>)
        ensures
            outcome(r) == spec_raise::<K>(self@, x@, self.depth as nat),
    {
        self.raise_at(x, self.depth)
    }

    /// A value one step down the tower; a value outside the tower or at
    /// its bottom as it is.
    pub fn project(&self, x: &List) -> (r: Result<List, ArithError>)
        ensures
            outcome(r) == spec_project::<K>(self@, x@, self.depth as nat),
    {
        self.project_at(x, self.depth)
    }

    /// The square root of an integer, a rational number or a real.
    pub fn sqrt(&self, x: &List) -> (r: Result<List, ArithError>)
        ensures
            outcome(r) == spec_sqrt::<K>(self@, x@, self.depth as nat),
    {
        self.sqrt_at(x, self.depth)
    }

    /// The first term of a term list, as a sparse term list of one term.
    pub fn first_term(&self, t: &List) -> (r: Result<List, ArithError>)
        ensures
            outcome(r) == spec_unary::<K>(self@, "first_term"@, t@, self.depth as nat),
    {
        self.unary_at("first_term", t, self.depth)
    }

    /// The terms of a term list after the first.
    pub fn rest_terms(&self, t: &List) -> (r: Result<List, ArithError>)
        ensures
            outcome(r) == spec_unary::<K>(self@, "rest_terms"@, t@, self.depth as nat),
    {
        self.unary_at("rest_terms", t, self.depth)
    }

    /// The term list with the one term of `t` adjoined.
    pub fn adjoin_term(&self, t: &List, term_list: &List) -> (r: Result<List, ArithError>)
        ensures
            outcome(r) == spec_binary::<K>(
                self@,
                "adjoin_term"@,
                t@,
                term_list@,
                self.depth as nat,
            ),
    {
        self.binary_at("adjoin_term", t, term_list, self.depth)
    }

    /// A value brought down the tower as far as nothing is lost.
    pub fn drop(&self, x: &List) -> (r: Result<List, ArithError>)
        ensures
            outcome(r) == spec_drop::<K>(self@, x@, self.depth as nat),
    {
        self.drop_to_type_at(x, "integer", self.depth)
    }

    /// A value brought down the tower as far as nothing is lost, and no
    /// further than the type `target_type`.
    pub fn drop_to_type(&self, x: &List, target_type: String) -> (r: Result<List, ArithError>)
        ensures
            outcome(r) == spec_drop_to_type::<K>(self@, x@, target_type@, self.depth as nat),
    {
        self.drop_to_type_at(x, target_type.as_str(), self.depth)
    }
}

} // verus!
