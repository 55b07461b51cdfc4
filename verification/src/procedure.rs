//! The procedures that an operation table can hold.
use vstd::prelude::*;

verus! {

/// A procedure of the arithmetic system, named by what it computes.
///
/// A procedure is applied to the list of the contents of its arguments,
/// the type tags taken off.
#[derive(Clone, Copy, Debug, PartialEq, Eq, Structural)]
pub enum Primitive {
    /// Hands its single argument back.
    Identity,
    IntegerAdd,
    IntegerSub,
    IntegerMul,
    IntegerDiv,
    IntegerEqual,
    IntegerIsZero,
    IntegerNegative,
    IntegerAbs,
    IntegerMake,
    IntegerRaise,
    IntegerSqrt,
    IntegerGcd,
    IntegerReduce,
    RealAdd,
    RealSub,
    RealMul,
    RealDiv,
    RealEqual,
    RealIsZero,
    RealNegative,
    RealAbs,
    RealMake,
    RealRaise,
    RealProject,
    RealSqrt,
    RationalMake,
    RationalNumer,
    RationalDenom,
    RationalAdd,
    RationalSub,
    RationalMul,
    RationalDiv,
    RationalEqual,
    RationalIsZero,
    RationalNegative,
    RationalRaise,
    RationalProject,
    RationalSqrt,
    RectFromRealImag,
    RectFromMagAng,
    RectRealPart,
    RectImagPart,
    RectMagnitude,
    RectAngle,
    RectEqual,
    RectIsZero,
    PolarFromMagAng,
    PolarFromRealImag,
    PolarMagnitude,
    PolarAngle,
    PolarRealPart,
    PolarImagPart,
    PolarEqual,
    PolarIsZero,
    /// The polar form of a complex number in rectangular form: a coercion.
    RectToPolar,
    /// The rectangular form of a complex number in polar form: a coercion.
    PolarToRect,
    ComplexFromRealImag,
    ComplexFromMagAng,
    ComplexAdd,
    ComplexSub,
    ComplexMul,
    ComplexDiv,
    ComplexNegative,
    ComplexEqual,
    ComplexIsZero,
    ComplexRealPart,
    ComplexImagPart,
    ComplexMagnitude,
    ComplexAngle,
    ComplexProject,
    SparseFirstTerm,
    SparseRestTerms,
    SparseAdjoinTerm,
    SparseMake,
    DenseFirstTerm,
    DenseRestTerms,
    DenseAdjoinTerm,
    DenseMake,
    PolyAdd,
    PolySub,
    PolyMul,
    PolyNegative,
    PolyIsZero,
    PolyFromSparse,
    PolyFromDense,
    PolyDiv,
    PolyGcd,
    PolyReduce,
}

/// A procedure as a first-class value, so that a list can hold it.
#[derive(Clone, Copy, Debug, PartialEq, Eq, Structural)]
pub struct ClosureWrapper {
    pub func: Primitive,
}

impl ClosureWrapper {
    /// Wraps a procedure.
    pub fn new(func: Primitive) -> (w: ClosureWrapper)
        ensures
            w.func == func,
    {
        ClosureWrapper { func }
    }
}

} // verus!
