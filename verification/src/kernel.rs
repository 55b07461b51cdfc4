//! Arithmetic on real numbers, supplied by the embedding program.
use vstd::prelude::*;

verus! {

/// A real number, held as the bit pattern of an IEEE 754 binary64 value.
#[derive(Clone, Copy, Debug, PartialEq, Eq, Structural)]
pub struct Real {
    pub bits: u64,
}

impl Real {
    /// The real with the given bit pattern.
    pub fn from_bits(bits: u64) -> (r: Real)
        ensures
            r.bits == bits,
    {
        Real { bits }
    }

    /// Where this real stands among the reals: reals compare as their ranks
    /// do. The two zeros have one rank; what is not a number has none.
    pub open spec fn rank(self) -> Option<int> {
        let size = if self.bits >= 0x8000_0000_0000_0000 {
            self.bits - 0x8000_0000_0000_0000
        } else {
            self.bits as int
        };
        if size > 0x7ff0_0000_0000_0000 {
            None
        } else if self.bits >= 0x8000_0000_0000_0000 {
            Some(-size)
        } else {
            Some(size)
        }
    }

    /// Where this real stands among the reals.
    pub fn rank_of(&self) -> (r: Option<i128>)
        ensures
            match r {
                Some(v) => self.rank() == Some(v as int),
                None => self.rank() is None,
            },
    {
        let negative = self.bits >= 0x8000_0000_0000_0000;
        let size: u64 = if negative {
            self.bits - 0x8000_0000_0000_0000
        } else {
            self.bits
        };
        if size > 0x7ff0_0000_0000_0000 {
            None
        } else if negative {
            Some(-(size as i128))
        } else {
            Some(size as i128)
        }
    }

    /// The bit pattern of this real.
    pub fn to_bits(&self) -> (b: u64)
        ensures
            b == self.bits,
    {
        self.bits
    }
}

/// The sign of a difference: -1, 0 or 1.
pub open spec fn sign_of(d: int) -> i8 {
    if d < 0 {
        -1i8
    } else if d == 0 {
        0i8
    } else {
        1i8
    }
}

/// The sign of `a - b`.
pub fn compare_narrow(a: i32, b: i32) -> (s: i8)
    ensures
        s == sign_of(a - b),
{
    if a < b {
        -1
    } else if a == b {
        0
    } else {
        1
    }
}

/// The sign of `a - b`.
pub fn compare_wide(a: i128, b: i128) -> (s: i8)
    ensures
        s == sign_of(a - b),
{
    if a < b {
        -1
    } else if a == b {
        0
    } else {
        1
    }
}

/// The operations on reals that verified code cannot carry out itself.
///
/// Every method names its result by a specification function of the
/// kernel and the arguments: the result depends on nothing else. No more
/// is asked of a kernel, so what is proved of the arithmetic holds for
/// whatever these functions compute.
pub trait RealKernel: Sized {
    spec fn of_int(&self, i: int) -> Real;

    spec fn sum(&self, a: Real, b: Real) -> Real;

    spec fn difference(&self, a: Real, b: Real) -> Real;

    spec fn product(&self, a: Real, b: Real) -> Real;

    spec fn quotient(&self, a: Real, b: Real) -> Real;

    spec fn root(&self, a: Real) -> Real;

    spec fn size(&self, a: Real) -> Real;

    spec fn cosine(&self, a: Real) -> Real;

    spec fn sine(&self, a: Real) -> Real;

    spec fn arc_tangent(&self, y: Real, x: Real) -> Real;

    spec fn floor_of(&self, a: Real) -> int;

    spec fn vanishes(&self, a: Real) -> bool;

    spec fn close(&self, a: Real, b: Real) -> bool;

    spec fn below(&self, a: Real, b: Real) -> bool;

    spec fn at_most(&self, a: Real, b: Real) -> bool;

    /// The real nearest to an integer.
    fn from_int(&self, i: i32) -> (r: Real)
        ensures
            r == self.of_int(i as int),
    ;

    fn add(&self, a: Real, b: Real) -> (r: Real)
        ensures
            r == self.sum(a, b),
    ;

    fn sub(&self, a: Real, b: Real) -> (r: Real)
        ensures
            r == self.difference(a, b),
    ;

    fn mul(&self, a: Real, b: Real) -> (r: Real)
        ensures
            r == self.product(a, b),
    ;

    fn div(&self, a: Real, b: Real) -> (r: Real)
        ensures
            r == self.quotient(a, b),
    ;

    fn sqrt(&self, a: Real) -> (r: Real)
        ensures
            r == self.root(a),
    ;

    /// The absolute value.
    fn magnitude(&self, a: Real) -> (r: Real)
        ensures
            r == self.size(a),
    ;

    fn cos(&self, a: Real) -> (r: Real)
        ensures
            r == self.cosine(a),
    ;

    fn sin(&self, a: Real) -> (r: Real)
        ensures
            r == self.sine(a),
    ;

    /// The angle of the point `(x, y)`.
    fn atan2(&self, y: Real, x: Real) -> (r: Real)
        ensures
            r == self.arc_tangent(y, x),
    ;

    /// The largest integer not above `a`, brought into the 32-bit range.
    fn floor(&self, a: Real) -> (r: i32)
        ensures
            r as int == self.floor_of(a),
    ;

    /// Whether `a` is exactly zero.
    fn is_zero(&self, a: Real) -> (r: bool)
        ensures
            r == self.vanishes(a),
    ;

    /// Whether `a` and `b` are equal within the kernel's tolerance.
    fn approx_eq(&self, a: Real, b: Real) -> (r: bool)
        ensures
            r == self.close(a, b),
    ;

    fn lt(&self, a: Real, b: Real) -> (r: bool)
        ensures
            r == self.below(a, b),
    ;

    fn le(&self, a: Real, b: Real) -> (r: bool)
        ensures
            r == self.at_most(a, b),
    ;
}

/// What is asked of a function that does the arithmetic on reals.
#[derive(Clone, Copy, Debug, PartialEq, Eq, Structural)]
pub enum RealRequest {
    /// The real nearest to an integer.
    FromInt(i32),
    Add(Real, Real),
    Sub(Real, Real),
    Mul(Real, Real),
    Div(Real, Real),
    Sqrt(Real),
    /// The absolute value.
    Magnitude(Real),
    Cos(Real),
    Sin(Real),
    /// The angle of the point whose second coordinate comes first here.
    Atan2(Real, Real),
    /// The largest integer not above a real, brought into the 32-bit range.
    Floor(Real),
    /// Whether a real is exactly zero.
    IsZero(Real),
    /// Whether two reals are equal within a tolerance.
    ApproxEq(Real, Real),
    /// Whether the first real is below the second.
    Lt(Real, Real),
    /// Whether the first real is not above the second.
    Le(Real, Real),
}

/// What such a function answers.
#[derive(Clone, Copy, Debug, PartialEq, Eq, Structural)]
pub enum RealAnswer {
    Number(Real),
    Whole(i32),
    Truth(bool),
}

impl RealAnswer {
    /// The real that is answered; where the answer is no real, the bit
    /// pattern of what is not a number.
    pub open spec fn number(self) -> Real {
        match self {
            RealAnswer::Number(r) => r,
            _ => Real { bits: 0x7ff8_0000_0000_0000 },
        }
    }

    /// The integer that is answered; zero where the answer is no integer.
    pub open spec fn whole(self) -> i32 {
        match self {
            RealAnswer::Whole(i) => i,
            _ => 0i32,
        }
    }

    /// The truth value that is answered; false where the answer is none.
    pub open spec fn truth(self) -> bool {
        match self {
            RealAnswer::Truth(b) => b,
            _ => false,
        }
    }

    /// The real that is answered.
    pub fn to_number(self) -> (r: Real)
        ensures
            r == self.number(),
    {
        match self {
            RealAnswer::Number(r) => r,
            _ => Real { bits: 0x7ff8_0000_0000_0000 },
        }
    }

    /// The integer that is answered.
    pub fn to_whole(self) -> (r: i32)
        ensures
            r == self.whole(),
    {
        match self {
            RealAnswer::Whole(i) => i,
            _ => 0,
        }
    }

    /// The truth value that is answered.
    pub fn to_truth(self) -> (r: bool)
        ensures
            r == self.truth(),
    {
        match self {
            RealAnswer::Truth(b) => b,
            _ => false,
        }
    }
}

/// Whether a function answers every request, and each request in one way
/// only.
pub open spec fn answers_all<F: Fn(RealRequest) -> RealAnswer>(f: F) -> bool {
    &&& forall|q: RealRequest| call_requires(f, (q,))
    &&& forall|q: RealRequest, a: RealAnswer, b: RealAnswer|
        call_ensures(f, (q,), a) && call_ensures(f, (q,), b) ==> a == b
}

/// A kernel made of one function that answers requests.
pub struct ClosureKernel<F: Fn(RealRequest) -> RealAnswer> {
    f: F,
}

impl<F: Fn(RealRequest) -> RealAnswer> ClosureKernel<F> {
    #[verifier::type_invariant]
    spec fn well_formed(self) -> bool {
        answers_all(self.f)
    }

    /// What the function answers to a request.
    pub closed spec fn answer(&self, q: RealRequest) -> RealAnswer {
        choose|a: RealAnswer| call_ensures(self.f, (q,), a)
    }

    /// The kernel that asks `f`.
    pub fn new(f: F) -> (k: Self)
        requires
            answers_all(f),
        ensures
            forall|q: RealRequest, a: RealAnswer| call_ensures(f, (q,), a) ==> k.answer(q) == a,
    {
        ClosureKernel { f }
    }

    /// Asks the function.
    pub fn ask(&self, q: RealRequest) -> (a: RealAnswer)
        ensures
            a == self.answer(q),
    {
        proof {
            use_type_invariant(self);
        }
        let a = (self.f)(q);
        assert(call_ensures(self.f, (q,), a));
        a
    }
}

impl<F: Fn(RealRequest) -> RealAnswer> RealKernel for ClosureKernel<F> {
    open spec fn of_int(&self, i: int) -> Real {
        self.answer(RealRequest::FromInt(i as i32)).number()
    }

    open spec fn sum(&self, a: Real, b: Real) -> Real {
        self.answer(RealRequest::Add(a, b)).number()
    }

    open spec fn difference(&self, a: Real, b: Real) -> Real {
        self.answer(RealRequest::Sub(a, b)).number()
    }

    open spec fn product(&self, a: Real, b: Real) -> Real {
        self.answer(RealRequest::Mul(a, b)).number()
    }

    open spec fn quotient(&self, a: Real, b: Real) -> Real {
        self.answer(RealRequest::Div(a, b)).number()
    }

    open spec fn root(&self, a: Real) -> Real {
        self.answer(RealRequest::Sqrt(a)).number()
    }

    open spec fn size(&self, a: Real) -> Real {
        self.answer(RealRequest::Magnitude(a)).number()
    }

    open spec fn cosine(&self, a: Real) -> Real {
        self.answer(RealRequest::Cos(a)).number()
    }

    open spec fn sine(&self, a: Real) -> Real {
        self.answer(RealRequest::Sin(a)).number()
    }

    open spec fn arc_tangent(&self, y: Real, x: Real) -> Real {
        self.answer(RealRequest::Atan2(y, x)).number()
    }

    open spec fn floor_of(&self, a: Real) -> int {
        self.answer(RealRequest::Floor(a)).whole() as int
    }

    open spec fn vanishes(&self, a: Real) -> bool {
        self.answer(RealRequest::IsZero(a)).truth()
    }

    open spec fn close(&self, a: Real, b: Real) -> bool {
        self.answer(RealRequest::ApproxEq(a, b)).truth()
    }

    open spec fn below(&self, a: Real, b: Real) -> bool {
        self.answer(RealRequest::Lt(a, b)).truth()
    }

    open spec fn at_most(&self, a: Real, b: Real) -> bool {
        self.answer(RealRequest::Le(a, b)).truth()
    }

    fn from_int(&self, i: i32) -> (r: Real) {
        self.ask(RealRequest::FromInt(i)).to_number()
    }

    fn add(&self, a: Real, b: Real) -> (r: Real) {
        self.ask(RealRequest::Add(a, b)).to_number()
    }

    fn sub(&self, a: Real, b: Real) -> (r: Real) {
        self.ask(RealRequest::Sub(a, b)).to_number()
    }

    fn mul(&self, a: Real, b: Real) -> (r: Real) {
        self.ask(RealRequest::Mul(a, b)).to_number()
    }

    fn div(&self, a: Real, b: Real) -> (r: Real) {
        self.ask(RealRequest::Div(a, b)).to_number()
    }

    fn sqrt(&self, a: Real) -> (r: Real) {
        self.ask(RealRequest::Sqrt(a)).to_number()
    }

    fn magnitude(&self, a: Real) -> (r: Real) {
        self.ask(RealRequest::Magnitude(a)).to_number()
    }

    fn cos(&self, a: Real) -> (r: Real) {
        self.ask(RealRequest::Cos(a)).to_number()
    }

    fn sin(&self, a: Real) -> (r: Real) {
        self.ask(RealRequest::Sin(a)).to_number()
    }

    fn atan2(&self, y: Real, x: Real) -> (r: Real) {
        self.ask(RealRequest::Atan2(y, x)).to_number()
    }

    fn floor(&self, a: Real) -> (r: i32) {
        self.ask(RealRequest::Floor(a)).to_whole()
    }

    fn is_zero(&self, a: Real) -> (r: bool) {
        self.ask(RealRequest::IsZero(a)).to_truth()
    }

    fn approx_eq(&self, a: Real, b: Real) -> (r: bool) {
        self.ask(RealRequest::ApproxEq(a, b)).to_truth()
    }

    fn lt(&self, a: Real, b: Real) -> (r: bool) {
        self.ask(RealRequest::Lt(a, b)).to_truth()
    }

    fn le(&self, a: Real, b: Real) -> (r: bool) {
        self.ask(RealRequest::Le(a, b)).to_truth()
    }
}

} // verus!
