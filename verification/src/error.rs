//! How an arithmetic operation can fail.
use vstd::prelude::*;
use crate::list::{Datum, List};

verus! {

/// The failure of an operation. None of them is recovered from.
#[derive(Debug)]
pub enum ArithError {
    /// A value that is neither a number nor a tagged pair stood where a
    /// tagged value was needed.
    BadTaggedDatum,
    /// The table holds no procedure for the operation on these types, and
    /// neither the tower nor a coercion leads to one.
    NoMethod { op: List, args: List },
    /// A zero denominator or divisor.
    DivisionByZero,
    /// Two polynomials in different variables.
    VariableMismatch,
    /// A term adjoined to a term list whose order is below the list's.
    OrderingViolation,
    /// A result outside the 32-bit integers.
    Overflow,
    /// Calls nested deeper than the context allows.
    DepthExceeded,
    /// A procedure was handed contents that it does not work on.
    BadArgument,
    /// A procedure was applied and had no result to give.
    NoResult,
}

/// What an [`ArithError`] stands for.
pub enum Failure {
    BadTaggedDatum,
    NoMethod { op: Datum, args: Datum },
    DivisionByZero,
    VariableMismatch,
    OrderingViolation,
    Overflow,
    DepthExceeded,
    BadArgument,
    NoResult,
}

impl View for ArithError {
    type V = Failure;

    open spec fn view(&self) -> Failure {
        match self {
            ArithError::BadTaggedDatum => Failure::BadTaggedDatum,
            ArithError::NoMethod { op, args } => Failure::NoMethod { op: op@, args: args@ },
            ArithError::DivisionByZero => Failure::DivisionByZero,
            ArithError::VariableMismatch => Failure::VariableMismatch,
            ArithError::OrderingViolation => Failure::OrderingViolation,
            ArithError::Overflow => Failure::Overflow,
            ArithError::DepthExceeded => Failure::DepthExceeded,
            ArithError::BadArgument => Failure::BadArgument,
            ArithError::NoResult => Failure::NoResult,
        }
    }
}

/// What an operation gives: a value or a failure.
pub type Outcome = Result<Datum, Failure>;

/// What the result of an operation stands for.
pub open spec fn outcome(r: Result<List, ArithError>) -> Outcome {
    match r {
        Ok(v) => Ok(v@),
        Err(e) => Err(e@),
    }
}

/// What a result that holds two values stands for.
pub open spec fn outcome2(r: Result<(List, List), ArithError>) -> Result<(Datum, Datum), Failure> {
    match r {
        Ok(v) => Ok((v.0@, v.1@)),
        Err(e) => Err(e@),
    }
}

impl ArithError {
    /// A short description of the failure.
    pub fn to_string(&self) -> (s: String)
        ensures
            s@ == self@.text(),
    {
        let mut out = String::new();
        match self {
            ArithError::BadTaggedDatum => out.append("bad tagged datum"),
            ArithError::NoMethod { op, args } => {
                out.append("no method for these types op:");
                op.write_to(&mut out);
                out.append(", args:");
                args.write_to(&mut out);
            },
            ArithError::DivisionByZero => out.append("division by zero"),
            ArithError::VariableMismatch => out.append("polynomials not in the same variable"),
            ArithError::OrderingViolation => out.append("term order below the order of the list"),
            ArithError::Overflow => out.append("integer overflow"),
            ArithError::DepthExceeded => out.append("calls nested too deep"),
            ArithError::BadArgument => out.append("contents of the wrong form"),
            ArithError::NoResult => out.append("no result"),
        }
        assert(out@ =~= self@.text());
        out
    }
}

impl Failure {
    /// A short description of the failure.
    pub open spec fn text(self) -> Seq<char> {
        match self {
            Failure::BadTaggedDatum => "bad tagged datum"@,
            Failure::NoMethod { op, args } => "no method for these types op:"@ + op.text()
                + ", args:"@ + args.text(),
            Failure::DivisionByZero => "division by zero"@,
            Failure::VariableMismatch => "polynomials not in the same variable"@,
            Failure::OrderingViolation => "term order below the order of the list"@,
            Failure::Overflow => "integer overflow"@,
            Failure::DepthExceeded => "calls nested too deep"@,
            Failure::BadArgument => "contents of the wrong form"@,
            Failure::NoResult => "no result"@,
        }
    }
}

} // verus!
