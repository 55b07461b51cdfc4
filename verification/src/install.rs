//! The packages: which procedure stands in the table for which operation
//! on which types.
use vstd::prelude::*;
use crate::context::{list1, list2, procedure_at, with_procedure, ArithmeticContext};
use crate::kernel::{Real, RealKernel};
use crate::list::{text_datum, Datum, List};
use crate::procedure::{ClosureWrapper, Primitive};

verus! {

/// The table after `p` is registered for `op` on one argument of the type
/// `tag`.
pub open spec fn with_unary(ops: Datum, op: Seq<char>, tag: Seq<char>, p: Primitive) -> Datum {
    with_procedure(ops, text_datum(op), list1(text_datum(tag)), p)
}

/// The table after `p` is registered for `op` on two arguments of the
/// type `tag`.
pub open spec fn with_binary(ops: Datum, op: Seq<char>, tag: Seq<char>, p: Primitive) -> Datum {
    with_procedure(ops, text_datum(op), list2(text_datum(tag), text_datum(tag)), p)
}

/// The table after `p` is registered for `op` on arguments of the types
/// `first` and `second`.
pub open spec fn with_mixed(
    ops: Datum,
    op: Seq<char>,
    first: Seq<char>,
    second: Seq<char>,
    p: Primitive,
) -> Datum {
    with_procedure(ops, text_datum(op), list2(text_datum(first), text_datum(second)), p)
}

/// The procedures that every basic numeric type has.
#[derive(Clone, Copy, Debug, PartialEq, Eq, Structural)]
pub struct BasicOps {
    pub add: Primitive,
    pub sub: Primitive,
    pub mul: Primitive,
    pub div: Primitive,
    pub is_equal: Primitive,
    pub is_equal_to_zero: Primitive,
    pub negative: Primitive,
    pub abs: Primitive,
    pub make: Primitive,
}

/// A type of numbers that a leaf holds and the table can work on.
pub trait BasicNumeric {
    /// The procedures of the type.
    spec fn basic() -> BasicOps;

    /// The procedures of the type.
    fn basic_ops() -> (r: BasicOps)
        ensures
            r == Self::basic(),
    ;
}

impl BasicNumeric for i32 {
    open spec fn basic() -> BasicOps {
        BasicOps {
            add: Primitive::IntegerAdd,
            sub: Primitive::IntegerSub,
            mul: Primitive::IntegerMul,
            div: Primitive::IntegerDiv,
            is_equal: Primitive::IntegerEqual,
            is_equal_to_zero: Primitive::IntegerIsZero,
            negative: Primitive::IntegerNegative,
            abs: Primitive::IntegerAbs,
            make: Primitive::IntegerMake,
        }
    }

    fn basic_ops() -> (r: BasicOps) {
        BasicOps {
            add: Primitive::IntegerAdd,
            sub: Primitive::IntegerSub,
            mul: Primitive::IntegerMul,
            div: Primitive::IntegerDiv,
            is_equal: Primitive::IntegerEqual,
            is_equal_to_zero: Primitive::IntegerIsZero,
            negative: Primitive::IntegerNegative,
            abs: Primitive::IntegerAbs,
            make: Primitive::IntegerMake,
        }
    }
}

impl BasicNumeric for Real {
    open spec fn basic() -> BasicOps {
        BasicOps {
            add: Primitive::RealAdd,
            sub: Primitive::RealSub,
            mul: Primitive::RealMul,
            div: Primitive::RealDiv,
            is_equal: Primitive::RealEqual,
            is_equal_to_zero: Primitive::RealIsZero,
            negative: Primitive::RealNegative,
            abs: Primitive::RealAbs,
            make: Primitive::RealMake,
        }
    }

    fn basic_ops() -> (r: BasicOps) {
        BasicOps {
            add: Primitive::RealAdd,
            sub: Primitive::RealSub,
            mul: Primitive::RealMul,
            div: Primitive::RealDiv,
            is_equal: Primitive::RealEqual,
            is_equal_to_zero: Primitive::RealIsZero,
            negative: Primitive::RealNegative,
            abs: Primitive::RealAbs,
            make: Primitive::RealMake,
        }
    }
}

/// The table with the procedures of a basic numeric type installed under
/// the tag `tag`.
pub open spec fn basic_numeric_package(ops: Datum, tag: Seq<char>, b: BasicOps) -> Datum {
    let ops = with_binary(ops, "add"@, tag, b.add);
    let ops = with_binary(ops, "sub"@, tag, b.sub);
    let ops = with_binary(ops, "mul"@, tag, b.mul);
    let ops = with_binary(ops, "div"@, tag, b.div);
    let ops = with_binary(ops, "is_equal"@, tag, b.is_equal);
    let ops = with_unary(ops, "is_equal_to_zero"@, tag, b.is_equal_to_zero);
    let ops = with_unary(ops, "negative"@, tag, b.negative);
    let ops = with_unary(ops, "abs"@, tag, b.abs);
    with_unary(ops, "make"@, tag, b.make)
}

/// The table with the integers installed.
pub open spec fn integer_package(ops: Datum) -> Datum {
    let ops = basic_numeric_package(ops, "integer"@, <i32 as BasicNumeric>::basic());
    let ops = with_unary(ops, "raise"@, "integer"@, Primitive::IntegerRaise);
    let ops = with_unary(ops, "sqrt"@, "integer"@, Primitive::IntegerSqrt);
    let ops = with_binary(ops, "gcd"@, "integer"@, Primitive::IntegerGcd);
    with_binary(ops, "reduce"@, "integer"@, Primitive::IntegerReduce)
}

/// The table with the reals installed.
pub open spec fn real_package(ops: Datum) -> Datum {
    let ops = basic_numeric_package(ops, "real"@, <Real as BasicNumeric>::basic());
    let ops = with_unary(ops, "raise"@, "real"@, Primitive::RealRaise);
    let ops = with_unary(ops, "project"@, "real"@, Primitive::RealProject);
    with_unary(ops, "sqrt"@, "real"@, Primitive::RealSqrt)
}

/// The table with the rational numbers installed.
pub open spec fn rational_package(ops: Datum) -> Datum {
    let ops = with_unary(ops, "make"@, "rational"@, Primitive::RationalMake);
    let ops = with_unary(ops, "numer"@, "rational"@, Primitive::RationalNumer);
    let ops = with_unary(ops, "denom"@, "rational"@, Primitive::RationalDenom);
    let ops = with_binary(ops, "add"@, "rational"@, Primitive::RationalAdd);
    let ops = with_binary(ops, "sub"@, "rational"@, Primitive::RationalSub);
    let ops = with_binary(ops, "mul"@, "rational"@, Primitive::RationalMul);
    let ops = with_binary(ops, "div"@, "rational"@, Primitive::RationalDiv);
    let ops = with_binary(ops, "is_equal"@, "rational"@, Primitive::RationalEqual);
    let ops = with_unary(ops, "is_equal_to_zero"@, "rational"@, Primitive::RationalIsZero);
    let ops = with_unary(ops, "negative"@, "rational"@, Primitive::RationalNegative);
    let ops = with_unary(ops, "raise"@, "rational"@, Primitive::RationalRaise);
    let ops = with_unary(ops, "project"@, "rational"@, Primitive::RationalProject);
    with_unary(ops, "sqrt"@, "rational"@, Primitive::RationalSqrt)
}

/// The table with the rectangular form of the complex numbers installed.
pub open spec fn rectangular_package(ops: Datum) -> Datum {
    let ops = with_unary(ops, "make_from_real_imag"@, "rectangular"@, Primitive::RectFromRealImag);
    let ops = with_unary(ops, "make_from_mag_ang"@, "rectangular"@, Primitive::RectFromMagAng);
    let ops = with_unary(ops, "real_part"@, "rectangular"@, Primitive::RectRealPart);
    let ops = with_unary(ops, "imag_part"@, "rectangular"@, Primitive::RectImagPart);
    let ops = with_unary(ops, "magnitude"@, "rectangular"@, Primitive::RectMagnitude);
    let ops = with_unary(ops, "angle"@, "rectangular"@, Primitive::RectAngle);
    let ops = with_binary(ops, "is_equal"@, "rectangular"@, Primitive::RectEqual);
    with_unary(ops, "is_equal_to_zero"@, "rectangular"@, Primitive::RectIsZero)
}

/// The table with the polar form of the complex numbers installed.
pub open spec fn polar_package(ops: Datum) -> Datum {
    let ops = with_unary(ops, "make_from_mag_ang"@, "polar"@, Primitive::PolarFromMagAng);
    let ops = with_unary(ops, "make_from_real_imag"@, "polar"@, Primitive::PolarFromRealImag);
    let ops = with_unary(ops, "magnitude"@, "polar"@, Primitive::PolarMagnitude);
    let ops = with_unary(ops, "angle"@, "polar"@, Primitive::PolarAngle);
    let ops = with_unary(ops, "real_part"@, "polar"@, Primitive::PolarRealPart);
    let ops = with_unary(ops, "imag_part"@, "polar"@, Primitive::PolarImagPart);
    let ops = with_binary(ops, "is_equal"@, "polar"@, Primitive::PolarEqual);
    with_unary(ops, "is_equal_to_zero"@, "polar"@, Primitive::PolarIsZero)
}

/// The table with the complex numbers installed.
pub open spec fn complex_package(ops: Datum) -> Datum {
    let ops = with_unary(ops, "make_from_real_imag"@, "complex"@, Primitive::ComplexFromRealImag);
    let ops = with_unary(ops, "make_from_mag_ang"@, "complex"@, Primitive::ComplexFromMagAng);
    let ops = with_binary(ops, "add"@, "complex"@, Primitive::ComplexAdd);
    let ops = with_binary(ops, "sub"@, "complex"@, Primitive::ComplexSub);
    let ops = with_binary(ops, "mul"@, "complex"@, Primitive::ComplexMul);
    let ops = with_binary(ops, "div"@, "complex"@, Primitive::ComplexDiv);
    let ops = with_unary(ops, "negative"@, "complex"@, Primitive::ComplexNegative);
    let ops = with_binary(ops, "is_equal"@, "complex"@, Primitive::ComplexEqual);
    let ops = with_unary(ops, "is_equal_to_zero"@, "complex"@, Primitive::ComplexIsZero);
    let ops = with_unary(ops, "real_part"@, "complex"@, Primitive::ComplexRealPart);
    let ops = with_unary(ops, "imag_part"@, "complex"@, Primitive::ComplexImagPart);
    let ops = with_unary(ops, "magnitude"@, "complex"@, Primitive::ComplexMagnitude);
    let ops = with_unary(ops, "angle"@, "complex"@, Primitive::ComplexAngle);
    with_unary(ops, "project"@, "complex"@, Primitive::ComplexProject)
}

/// The table with the whole tower of numbers installed.
pub open spec fn arithmetic_package(ops: Datum) -> Datum {
    complex_package(
        rectangular_package(
            polar_package(rational_package(real_package(integer_package(ops)))),
        ),
    )
}

/// The table with the sparse term lists installed.
pub open spec fn sparse_terms_package(ops: Datum) -> Datum {
    let ops = with_unary(ops, "first_term"@, "sparse"@, Primitive::SparseFirstTerm);
    let ops = with_unary(ops, "rest_terms"@, "sparse"@, Primitive::SparseRestTerms);
    let ops = with_binary(ops, "adjoin_term"@, "sparse"@, Primitive::SparseAdjoinTerm);
    with_unary(ops, "make_terms_from_sparse"@, "sparse"@, Primitive::SparseMake)
}

/// The table with the dense term lists installed.
pub open spec fn dense_terms_package(ops: Datum) -> Datum {
    let ops = with_unary(ops, "first_term"@, "dense"@, Primitive::DenseFirstTerm);
    let ops = with_unary(ops, "rest_terms"@, "dense"@, Primitive::DenseRestTerms);
    let ops = with_mixed(ops, "adjoin_term"@, "sparse"@, "dense"@, Primitive::DenseAdjoinTerm);
    with_unary(ops, "make_terms_from_dense"@, "dense"@, Primitive::DenseMake)
}

/// The table with the polynomials installed.
pub open spec fn polynomial_package(ops: Datum) -> Datum {
    let ops = with_binary(ops, "add"@, "polynomial"@, Primitive::PolyAdd);
    let ops = with_binary(ops, "mul"@, "polynomial"@, Primitive::PolyMul);
    let ops = with_unary(ops, "is_equal_to_zero"@, "polynomial"@, Primitive::PolyIsZero);
    let ops = with_unary(ops, "negative"@, "polynomial"@, Primitive::PolyNegative);
    let ops = with_binary(ops, "sub"@, "polynomial"@, Primitive::PolySub);
    let ops = with_unary(
        ops,
        "make_polynomial_from_dense"@,
        "polynomial"@,
        Primitive::PolyFromDense,
    );
    let ops = with_unary(
        ops,
        "make_polynomial_from_sparse"@,
        "polynomial"@,
        Primitive::PolyFromSparse,
    );
    let ops = with_binary(ops, "div"@, "polynomial"@, Primitive::PolyDiv);
    let ops = with_binary(ops, "gcd"@, "polynomial"@, Primitive::PolyGcd);
    with_binary(ops, "reduce"@, "polynomial"@, Primitive::PolyReduce)
}

/// Whether `p` is registered for `op` on one argument of the type `tag`.
pub open spec fn unary_is(ops: Datum, op: Seq<char>, tag: Seq<char>, p: Primitive) -> bool {
    procedure_at(ops, text_datum(op), list1(text_datum(tag))) == Some(p)
}

/// Whether `p` is registered for `op` on two arguments of the type `tag`.
pub open spec fn binary_is(ops: Datum, op: Seq<char>, tag: Seq<char>, p: Primitive) -> bool {
    procedure_at(ops, text_datum(op), list2(text_datum(tag), text_datum(tag))) == Some(p)
}

/// Whether the table holds what carries values up and down the tower
/// between the integers and the rationals, and between the reals and the
/// complex numbers.
pub open spec fn tower_installed(ops: Datum) -> bool {
    &&& unary_is(ops, "raise"@, "integer"@, Primitive::IntegerRaise)
    &&& unary_is(ops, "make"@, "integer"@, Primitive::IntegerMake)
    &&& unary_is(ops, "is_equal_to_zero"@, "integer"@, Primitive::IntegerIsZero)
    &&& binary_is(ops, "is_equal"@, "integer"@, Primitive::IntegerEqual)
    &&& unary_is(ops, "make"@, "rational"@, Primitive::RationalMake)
    &&& unary_is(ops, "numer"@, "rational"@, Primitive::RationalNumer)
    &&& unary_is(ops, "denom"@, "rational"@, Primitive::RationalDenom)
    &&& unary_is(ops, "project"@, "rational"@, Primitive::RationalProject)
    &&& unary_is(ops, "raise"@, "real"@, Primitive::RealRaise)
    &&& unary_is(ops, "make"@, "real"@, Primitive::RealMake)
    &&& unary_is(ops, "make_from_real_imag"@, "complex"@, Primitive::ComplexFromRealImag)
    &&& unary_is(ops, "make_from_real_imag"@, "rectangular"@, Primitive::RectFromRealImag)
    &&& unary_is(ops, "real_part"@, "rectangular"@, Primitive::RectRealPart)
    &&& unary_is(ops, "project"@, "complex"@, Primitive::ComplexProject)
}

/// What tells the names of the operations and of the types apart: the
/// length and the first two characters.
pub open spec fn name_code(s: Seq<char>) -> (nat, char, char) {
    (s.len(), s[0], s[1])
}

/// The codes of the names of the operations and of the types of the
/// tower. No two are equal.
pub proof fn lemma_name_codes()
    ensures
        name_code("add"@) == (3nat, 'a', 'd'),
        name_code("sub"@) == (3nat, 's', 'u'),
        name_code("mul"@) == (3nat, 'm', 'u'),
        name_code("div"@) == (3nat, 'd', 'i'),
        name_code("is_equal"@) == (8nat, 'i', 's'),
        name_code("is_equal_to_zero"@) == (16nat, 'i', 's'),
        name_code("negative"@) == (8nat, 'n', 'e'),
        name_code("abs"@) == (3nat, 'a', 'b'),
        name_code("make"@) == (4nat, 'm', 'a'),
        name_code("raise"@) == (5nat, 'r', 'a'),
        name_code("project"@) == (7nat, 'p', 'r'),
        name_code("sqrt"@) == (4nat, 's', 'q'),
        name_code("numer"@) == (5nat, 'n', 'u'),
        name_code("denom"@) == (5nat, 'd', 'e'),
        name_code("make_from_real_imag"@) == (19nat, 'm', 'a'),
        name_code("make_from_mag_ang"@) == (17nat, 'm', 'a'),
        name_code("real_part"@) == (9nat, 'r', 'e'),
        name_code("imag_part"@) == (9nat, 'i', 'm'),
        name_code("magnitude"@) == (9nat, 'm', 'a'),
        name_code("angle"@) == (5nat, 'a', 'n'),
        name_code("gcd"@) == (3nat, 'g', 'c'),
        name_code("reduce"@) == (6nat, 'r', 'e'),
        name_code("integer"@) == (7nat, 'i', 'n'),
        name_code("rational"@) == (8nat, 'r', 'a'),
        name_code("real"@) == (4nat, 'r', 'e'),
        name_code("complex"@) == (7nat, 'c', 'o'),
        name_code("rectangular"@) == (11nat, 'r', 'e'),
        name_code("polar"@) == (5nat, 'p', 'o'),
{
    reveal_strlit("add");
    reveal_strlit("sub");
    reveal_strlit("mul");
    reveal_strlit("div");
    reveal_strlit("is_equal");
    reveal_strlit("is_equal_to_zero");
    reveal_strlit("negative");
    reveal_strlit("abs");
    reveal_strlit("make");
    reveal_strlit("raise");
    reveal_strlit("project");
    reveal_strlit("sqrt");
    reveal_strlit("numer");
    reveal_strlit("denom");
    reveal_strlit("make_from_real_imag");
    reveal_strlit("make_from_mag_ang");
    reveal_strlit("real_part");
    reveal_strlit("imag_part");
    reveal_strlit("magnitude");
    reveal_strlit("angle");
    reveal_strlit("gcd");
    reveal_strlit("reduce");
    reveal_strlit("integer");
    reveal_strlit("rational");
    reveal_strlit("real");
    reveal_strlit("complex");
    reveal_strlit("rectangular");
    reveal_strlit("polar");
}

/// What is found in a table after a registration, for every table and
/// every registration.
pub proof fn lemma_registration_rule()
    ensures
        forall|t: Datum, op: Datum, sig: Datum, p: Primitive, op2: Datum, sig2: Datum| #[trigger]
            procedure_at(with_procedure(t, op, sig, p), op2, sig2) == if op2 == op && sig2
                == sig {
                Some(p)
            } else {
                procedure_at(t, op2, sig2)
            },
{
    assert forall|t: Datum, op: Datum, sig: Datum, p: Primitive, op2: Datum, sig2: Datum| #[trigger]
        procedure_at(with_procedure(t, op, sig, p), op2, sig2) == if op2 == op && sig2 == sig {
            Some(p)
        } else {
            procedure_at(t, op2, sig2)
        } by {
        crate::context::lemma_procedure_after_registration(t, op, sig, p, op2, sig2);
    }
}

/// Installing the integer package changes nothing for other types.
pub proof fn lemma_integer_package_keeps(ops: Datum, op: Datum, sig: Datum)
    requires
        sig != list1(text_datum("integer"@)),
        sig != list2(text_datum("integer"@), text_datum("integer"@)),
    ensures
        procedure_at(integer_package(ops), op, sig) == procedure_at(ops, op, sig),
{
    lemma_registration_rule();
}

/// Installing the real package changes nothing for other types.
pub proof fn lemma_real_package_keeps(ops: Datum, op: Datum, sig: Datum)
    requires
        sig != list1(text_datum("real"@)),
        sig != list2(text_datum("real"@), text_datum("real"@)),
    ensures
        procedure_at(real_package(ops), op, sig) == procedure_at(ops, op, sig),
{
    lemma_registration_rule();
}

/// Installing the rational package changes nothing for other types.
pub proof fn lemma_rational_package_keeps(ops: Datum, op: Datum, sig: Datum)
    requires
        sig != list1(text_datum("rational"@)),
        sig != list2(text_datum("rational"@), text_datum("rational"@)),
    ensures
        procedure_at(rational_package(ops), op, sig) == procedure_at(ops, op, sig),
{
    lemma_registration_rule();
}

/// Installing the polar package changes nothing for other types.
pub proof fn lemma_polar_package_keeps(ops: Datum, op: Datum, sig: Datum)
    requires
        sig != list1(text_datum("polar"@)),
        sig != list2(text_datum("polar"@), text_datum("polar"@)),
    ensures
        procedure_at(polar_package(ops), op, sig) == procedure_at(ops, op, sig),
{
    lemma_registration_rule();
}

/// Installing the rectangular package changes nothing for other types.
pub proof fn lemma_rectangular_package_keeps(ops: Datum, op: Datum, sig: Datum)
    requires
        sig != list1(text_datum("rectangular"@)),
        sig != list2(text_datum("rectangular"@), text_datum("rectangular"@)),
    ensures
        procedure_at(rectangular_package(ops), op, sig) == procedure_at(ops, op, sig),
{
    lemma_registration_rule();
}

/// Installing the complex package changes nothing for other types.
pub proof fn lemma_complex_package_keeps(ops: Datum, op: Datum, sig: Datum)
    requires
        sig != list1(text_datum("complex"@)),
        sig != list2(text_datum("complex"@), text_datum("complex"@)),
    ensures
        procedure_at(complex_package(ops), op, sig) == procedure_at(ops, op, sig),
{
    lemma_registration_rule();
}

/// What the integer package holds of the tower.
pub proof fn lemma_integer_package_holds(ops: Datum)
    ensures
        unary_is(integer_package(ops), "raise"@, "integer"@, Primitive::IntegerRaise),
        unary_is(integer_package(ops), "make"@, "integer"@, Primitive::IntegerMake),
        unary_is(integer_package(ops), "is_equal_to_zero"@, "integer"@, Primitive::IntegerIsZero),
        binary_is(integer_package(ops), "is_equal"@, "integer"@, Primitive::IntegerEqual),
{
    lemma_registration_rule();
    lemma_name_codes();
}

/// What the real package holds of the tower.
pub proof fn lemma_real_package_holds(ops: Datum)
    ensures
        unary_is(real_package(ops), "raise"@, "real"@, Primitive::RealRaise),
        unary_is(real_package(ops), "make"@, "real"@, Primitive::RealMake),
{
    lemma_registration_rule();
    lemma_name_codes();
}

/// What the rational package holds of the tower.
pub proof fn lemma_rational_package_holds(ops: Datum)
    ensures
        unary_is(rational_package(ops), "make"@, "rational"@, Primitive::RationalMake),
        unary_is(rational_package(ops), "numer"@, "rational"@, Primitive::RationalNumer),
        unary_is(rational_package(ops), "denom"@, "rational"@, Primitive::RationalDenom),
        unary_is(rational_package(ops), "project"@, "rational"@, Primitive::RationalProject),
{
    lemma_registration_rule();
    lemma_name_codes();
}

/// What the rectangular package holds of the tower.
pub proof fn lemma_rectangular_package_holds(ops: Datum)
    ensures
        unary_is(
            rectangular_package(ops),
            "make_from_real_imag"@,
            "rectangular"@,
            Primitive::RectFromRealImag,
        ),
        unary_is(rectangular_package(ops), "real_part"@, "rectangular"@, Primitive::RectRealPart),
{
    lemma_registration_rule();
    lemma_name_codes();
}

/// What the complex package holds of the tower.
pub proof fn lemma_complex_package_holds(ops: Datum)
    ensures
        unary_is(
            complex_package(ops),
            "make_from_real_imag"@,
            "complex"@,
            Primitive::ComplexFromRealImag,
        ),
        unary_is(complex_package(ops), "project"@, "complex"@, Primitive::ComplexProject),
{
    lemma_registration_rule();
    lemma_name_codes();
}

/// Whether a signature is of one or of two arguments of the type `tag`.
pub open spec fn signature_of_type(sig: Datum, tag: Seq<char>) -> bool {
    sig == list1(text_datum(tag)) || sig == list2(text_datum(tag), text_datum(tag))
}

/// Installing the whole tower of numbers leaves the table holding what
/// carries values up and down the tower.
pub proof fn lemma_tower_installed(ops: Datum)
    ensures
        tower_installed(arithmetic_package(ops)),
{
    lemma_name_codes();
    let t1 = integer_package(ops);
    let t2 = real_package(t1);
    let t3 = rational_package(t2);
    let t4 = polar_package(t3);
    let t5 = rectangular_package(t4);
    let t6 = complex_package(t5);
    assert(t6 == arithmetic_package(ops));
    lemma_integer_package_holds(ops);
    lemma_real_package_holds(t1);
    lemma_rational_package_holds(t2);
    lemma_rectangular_package_holds(t4);
    lemma_complex_package_holds(t5);
    assert forall|op: Datum, sig: Datum| signature_of_type(sig, "integer"@) implies procedure_at(
        t6,
        op,
        sig,
    ) == procedure_at(t1, op, sig) by {
        lemma_real_package_keeps(t1, op, sig);
        lemma_rational_package_keeps(t2, op, sig);
        lemma_polar_package_keeps(t3, op, sig);
        lemma_rectangular_package_keeps(t4, op, sig);
        lemma_complex_package_keeps(t5, op, sig);
    }
    assert forall|op: Datum, sig: Datum| signature_of_type(sig, "real"@) implies procedure_at(
        t6,
        op,
        sig,
    ) == procedure_at(t2, op, sig) by {
        lemma_rational_package_keeps(t2, op, sig);
        lemma_polar_package_keeps(t3, op, sig);
        lemma_rectangular_package_keeps(t4, op, sig);
        lemma_complex_package_keeps(t5, op, sig);
    }
    assert forall|op: Datum, sig: Datum| signature_of_type(sig, "rational"@) implies procedure_at(
        t6,
        op,
        sig,
    ) == procedure_at(t3, op, sig) by {
        lemma_polar_package_keeps(t3, op, sig);
        lemma_rectangular_package_keeps(t4, op, sig);
        lemma_complex_package_keeps(t5, op, sig);
    }
    assert forall|op: Datum, sig: Datum| signature_of_type(sig, "rectangular"@) implies procedure_at(
        t6,
        op,
        sig,
    ) == procedure_at(t5, op, sig) by {
        lemma_complex_package_keeps(t5, op, sig);
    }
    assert(signature_of_type(list1(text_datum("integer"@)), "integer"@));
    assert(signature_of_type(list2(text_datum("integer"@), text_datum("integer"@)), "integer"@));
    assert(signature_of_type(list1(text_datum("real"@)), "real"@));
    assert(signature_of_type(list1(text_datum("rational"@)), "rational"@));
    assert(signature_of_type(list1(text_datum("rectangular"@)), "rectangular"@));
}

/// What installing leaves as it was.
pub open spec fn same_but_ops<K: RealKernel>(
    before: ArithmeticContext<K>,
    after: ArithmeticContext<K>,
) -> bool {
    &&& after@.coercions == before@.coercions
    &&& after.depth == before.depth
    &&& after.kernel == before.kernel
}

fn done() -> (r: Option<List>)
    ensures
        r matches Some(d) && d@ == text_datum("done"@),
{
    Some(List::text("done"))
}

/// Registers a procedure for an operation on two arguments of one type.
pub fn install_binary_op<K: RealKernel>(
    op_name: &'static str,
    tag_name: &'static str,
    op: Primitive,
    arith: &mut ArithmeticContext<K>,
)
    ensures
        final(arith)@.ops == with_binary(old(arith)@.ops, op_name@, tag_name@, op),
        same_but_ops(*old(arith), *final(arith)),
{
    let signature = List::pair(List::text(tag_name), List::pair(List::text(tag_name), List::Nil));
    arith.put(op_name, signature, ClosureWrapper::new(op));
}

/// Registers a procedure for an operation on one argument.
pub fn install_unary_op<K: RealKernel>(
    op_name: &'static str,
    tag_name: &'static str,
    op: Primitive,
    arith: &mut ArithmeticContext<K>,
)
    ensures
        final(arith)@.ops == with_unary(old(arith)@.ops, op_name@, tag_name@, op),
        same_but_ops(*old(arith), *final(arith)),
{
    let signature = List::pair(List::text(tag_name), List::Nil);
    arith.put(op_name, signature, ClosureWrapper::new(op));
}

fn install_mixed_op<K: RealKernel>(
    op_name: &'static str,
    first: &'static str,
    second: &'static str,
    op: Primitive,
    arith: &mut ArithmeticContext<K>,
)
    ensures
        final(arith)@.ops == with_mixed(old(arith)@.ops, op_name@, first@, second@, op),
        same_but_ops(*old(arith), *final(arith)),
{
    let signature = List::pair(List::text(first), List::pair(List::text(second), List::Nil));
    arith.put(op_name, signature, ClosureWrapper::new(op));
}

/// Installs the procedures of a basic numeric type under the tag
/// `tag_name`.
pub fn install_basic_numeric_type<T: BasicNumeric, K: RealKernel>(
    tag_name: &'static str,
    arith: &mut ArithmeticContext<K>,
) -> (r: Option<List>)
    ensures
        final(arith)@.ops == basic_numeric_package(old(arith)@.ops, tag_name@, T::basic()),
        same_but_ops(*old(arith), *final(arith)),
        r matches Some(d) && d@ == text_datum("done"@),
{
    let b = T::basic_ops();
    install_binary_op("add", tag_name, b.add, arith);
    install_binary_op("sub", tag_name, b.sub, arith);
    install_binary_op("mul", tag_name, b.mul, arith);
    install_binary_op("div", tag_name, b.div, arith);
    install_binary_op("is_equal", tag_name, b.is_equal, arith);
    install_unary_op("is_equal_to_zero", tag_name, b.is_equal_to_zero, arith);
    install_unary_op("negative", tag_name, b.negative, arith);
    install_unary_op("abs", tag_name, b.abs, arith);
    install_unary_op("make", tag_name, b.make, arith);
    done()
}

/// Installs the integers.
pub fn install_integer_package<K: RealKernel>(arith: &mut ArithmeticContext<K>) -> (r: Option<List>)
    ensures
        final(arith)@.ops == integer_package(old(arith)@.ops),
        same_but_ops(*old(arith), *final(arith)),
        r matches Some(d) && d@ == text_datum("done"@),
{
    install_basic_numeric_type::<i32, K>("integer", arith);
    install_unary_op("raise", "integer", Primitive::IntegerRaise, arith);
    install_unary_op("sqrt", "integer", Primitive::IntegerSqrt, arith);
    install_binary_op("gcd", "integer", Primitive::IntegerGcd, arith);
    install_binary_op("reduce", "integer", Primitive::IntegerReduce, arith);
    done()
}

/// Installs the reals.
pub fn install_float_package<K: RealKernel>(arith: &mut ArithmeticContext<K>) -> (r: Option<List>)
    ensures
        final(arith)@.ops == real_package(old(arith)@.ops),
        same_but_ops(*old(arith), *final(arith)),
        r matches Some(d) && d@ == text_datum("done"@),
{
    install_basic_numeric_type::<Real, K>("real", arith);
    install_unary_op("raise", "real", Primitive::RealRaise, arith);
    install_unary_op("project", "real", Primitive::RealProject, arith);
    install_unary_op("sqrt", "real", Primitive::RealSqrt, arith);
    done()
}

/// Installs the rational numbers.
pub fn install_rational_package<K: RealKernel>(arith: &mut ArithmeticContext<K>) -> (r: Option<
    List,
>)
    ensures
        final(arith)@.ops == rational_package(old(arith)@.ops),
        same_but_ops(*old(arith), *final(arith)),
        r matches Some(d) && d@ == text_datum("done"@),
{
    install_unary_op("make", "rational", Primitive::RationalMake, arith);
    install_unary_op("numer", "rational", Primitive::RationalNumer, arith);
    install_unary_op("denom", "rational", Primitive::RationalDenom, arith);
    install_binary_op("add", "rational", Primitive::RationalAdd, arith);
    install_binary_op("sub", "rational", Primitive::RationalSub, arith);
    install_binary_op("mul", "rational", Primitive::RationalMul, arith);
    install_binary_op("div", "rational", Primitive::RationalDiv, arith);
    install_binary_op("is_equal", "rational", Primitive::RationalEqual, arith);
    install_unary_op("is_equal_to_zero", "rational", Primitive::RationalIsZero, arith);
    install_unary_op("negative", "rational", Primitive::RationalNegative, arith);
    install_unary_op("raise", "rational", Primitive::RationalRaise, arith);
    install_unary_op("project", "rational", Primitive::RationalProject, arith);
    install_unary_op("sqrt", "rational", Primitive::RationalSqrt, arith);
    done()
}

/// Installs the rectangular form of the complex numbers.
pub fn install_rectangular_package<K: RealKernel>(arith: &mut ArithmeticContext<K>) -> (r: Option<
    List,
>)
    ensures
        final(arith)@.ops == rectangular_package(old(arith)@.ops),
        same_but_ops(*old(arith), *final(arith)),
        r matches Some(d) && d@ == text_datum("done"@),
{
    install_unary_op("make_from_real_imag", "rectangular", Primitive::RectFromRealImag, arith);
    install_unary_op("make_from_mag_ang", "rectangular", Primitive::RectFromMagAng, arith);
    install_unary_op("real_part", "rectangular", Primitive::RectRealPart, arith);
    install_unary_op("imag_part", "rectangular", Primitive::RectImagPart, arith);
    install_unary_op("magnitude", "rectangular", Primitive::RectMagnitude, arith);
    install_unary_op("angle", "rectangular", Primitive::RectAngle, arith);
    install_binary_op("is_equal", "rectangular", Primitive::RectEqual, arith);
    install_unary_op("is_equal_to_zero", "rectangular", Primitive::RectIsZero, arith);
    done()
}

/// Installs the polar form of the complex numbers.
pub fn install_polar_package<K: RealKernel>(arith: &mut ArithmeticContext<K>) -> (r: Option<List>)
    ensures
        final(arith)@.ops == polar_package(old(arith)@.ops),
        same_but_ops(*old(arith), *final(arith)),
        r matches Some(d) && d@ == text_datum("done"@),
{
    install_unary_op("make_from_mag_ang", "polar", Primitive::PolarFromMagAng, arith);
    install_unary_op("make_from_real_imag", "polar", Primitive::PolarFromRealImag, arith);
    install_unary_op("magnitude", "polar", Primitive::PolarMagnitude, arith);
    install_unary_op("angle", "polar", Primitive::PolarAngle, arith);
    install_unary_op("real_part", "polar", Primitive::PolarRealPart, arith);
    install_unary_op("imag_part", "polar", Primitive::PolarImagPart, arith);
    install_binary_op("is_equal", "polar", Primitive::PolarEqual, arith);
    install_unary_op("is_equal_to_zero", "polar", Primitive::PolarIsZero, arith);
    done()
}

/// Installs the complex numbers, over the two forms.
pub fn install_complex_package<K: RealKernel>(arith: &mut ArithmeticContext<K>) -> (r: Option<List>)
    ensures
        final(arith)@.ops == complex_package(old(arith)@.ops),
        same_but_ops(*old(arith), *final(arith)),
        r matches Some(d) && d@ == text_datum("done"@),
{
    install_unary_op("make_from_real_imag", "complex", Primitive::ComplexFromRealImag, arith);
    install_unary_op("make_from_mag_ang", "complex", Primitive::ComplexFromMagAng, arith);
    install_binary_op("add", "complex", Primitive::ComplexAdd, arith);
    install_binary_op("sub", "complex", Primitive::ComplexSub, arith);
    install_binary_op("mul", "complex", Primitive::ComplexMul, arith);
    install_binary_op("div", "complex", Primitive::ComplexDiv, arith);
    install_unary_op("negative", "complex", Primitive::ComplexNegative, arith);
    install_binary_op("is_equal", "complex", Primitive::ComplexEqual, arith);
    install_unary_op("is_equal_to_zero", "complex", Primitive::ComplexIsZero, arith);
    install_unary_op("real_part", "complex", Primitive::ComplexRealPart, arith);
    install_unary_op("imag_part", "complex", Primitive::ComplexImagPart, arith);
    install_unary_op("magnitude", "complex", Primitive::ComplexMagnitude, arith);
    install_unary_op("angle", "complex", Primitive::ComplexAngle, arith);
    install_unary_op("project", "complex", Primitive::ComplexProject, arith);
    done()
}

/// Installs the whole tower of numbers.
pub fn install_arithmetic_package<K: RealKernel>(arith: &mut ArithmeticContext<K>) -> (r: Option<
    List,
>)
    ensures
        final(arith)@.ops == arithmetic_package(old(arith)@.ops),
        same_but_ops(*old(arith), *final(arith)),
        r matches Some(d) && d@ == text_datum("done"@),
{
    install_integer_package(arith);
    install_float_package(arith);
    install_rational_package(arith);
    install_polar_package(arith);
    install_rectangular_package(arith);
    install_complex_package(arith);
    done()
}

/// Installs the sparse term lists.
pub fn install_sparse_terms_package<K: RealKernel>(arith: &mut ArithmeticContext<K>) -> (r: Option<
    List,
>)
    ensures
        final(arith)@.ops == sparse_terms_package(old(arith)@.ops),
        same_but_ops(*old(arith), *final(arith)),
        r matches Some(d) && d@ == text_datum("done"@),
{
    install_unary_op("first_term", "sparse", Primitive::SparseFirstTerm, arith);
    install_unary_op("rest_terms", "sparse", Primitive::SparseRestTerms, arith);
    install_binary_op("adjoin_term", "sparse", Primitive::SparseAdjoinTerm, arith);
    install_unary_op("make_terms_from_sparse", "sparse", Primitive::SparseMake, arith);
    done()
}

/// Installs the dense term lists.
pub fn install_dense_terms_package<K: RealKernel>(arith: &mut ArithmeticContext<K>) -> (r: Option<
    List,
>)
    ensures
        final(arith)@.ops == dense_terms_package(old(arith)@.ops),
        same_but_ops(*old(arith), *final(arith)),
        r matches Some(d) && d@ == text_datum("done"@),
{
    install_unary_op("first_term", "dense", Primitive::DenseFirstTerm, arith);
    install_unary_op("rest_terms", "dense", Primitive::DenseRestTerms, arith);
    install_mixed_op("adjoin_term", "sparse", "dense", Primitive::DenseAdjoinTerm, arith);
    install_unary_op("make_terms_from_dense", "dense", Primitive::DenseMake, arith);
    done()
}

/// Installs the polynomials.
pub fn install_polynomial_package<K: RealKernel>(arith: &mut ArithmeticContext<K>) -> (r: Option<
    List,
>)
    ensures
        final(arith)@.ops == polynomial_package(old(arith)@.ops),
        same_but_ops(*old(arith), *final(arith)),
        r matches Some(d) && d@ == text_datum("done"@),
{
    install_binary_op("add", "polynomial", Primitive::PolyAdd, arith);
    install_binary_op("mul", "polynomial", Primitive::PolyMul, arith);
    install_unary_op("is_equal_to_zero", "polynomial", Primitive::PolyIsZero, arith);
    install_unary_op("negative", "polynomial", Primitive::PolyNegative, arith);
    install_binary_op("sub", "polynomial", Primitive::PolySub, arith);
    install_unary_op("make_polynomial_from_dense", "polynomial", Primitive::PolyFromDense, arith);
    install_unary_op("make_polynomial_from_sparse", "polynomial", Primitive::PolyFromSparse, arith);
    install_binary_op("div", "polynomial", Primitive::PolyDiv, arith);
    install_binary_op("gcd", "polynomial", Primitive::PolyGcd, arith);
    install_binary_op("reduce", "polynomial", Primitive::PolyReduce, arith);
    done()
}

} // verus!
