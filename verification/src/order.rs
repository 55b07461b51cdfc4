//! The order of basis values: integers among themselves, and reals among
//! themselves.
use vstd::prelude::*;
use core::cmp::Ordering;
use crate::kernel::{compare_narrow, compare_wide, sign_of};
use crate::text::{compare_text, text_sign};
use crate::value::{Atom, AtomView};

verus! {

/// The order that the sign of a difference tells.
pub open spec fn order_of_sign(s: i8) -> Ordering {
    if s < 0 {
        Ordering::Less
    } else if s == 0 {
        Ordering::Equal
    } else {
        Ordering::Greater
    }
}

/// The sign of the difference of two truth values, false before true.
pub open spec fn truth_sign(x: bool, y: bool) -> i8 {
    if x == y {
        0i8
    } else if y {
        -1i8
    } else {
        1i8
    }
}

/// How two basis values compare: two integers by their values; two reals
/// by their ranks where both have one; two truth values with false first;
/// two strings, and two values of one other type, as they are written; two
/// procedures only where they are the same. Values of different kinds are
/// not ordered.
pub open spec fn atom_order(a: AtomView, b: AtomView) -> Option<Ordering> {
    match (a, b) {
        (AtomView::Int(x), AtomView::Int(y)) => Some(order_of_sign(sign_of(x - y))),
        (AtomView::Real(x), AtomView::Real(y)) => match (x.rank(), y.rank()) {
            (Some(p), Some(q)) => Some(order_of_sign(sign_of(p - q))),
            _ => None,
        },
        (AtomView::Bool(x), AtomView::Bool(y)) => Some(order_of_sign(truth_sign(x, y))),
        (AtomView::Str(x), AtomView::Str(y)) => Some(order_of_sign(text_sign(x, y))),
        (AtomView::Other(kx, x), AtomView::Other(ky, y)) => if kx == ky {
            Some(order_of_sign(text_sign(x, y)))
        } else {
            None
        },
        (AtomView::Proc(x), AtomView::Proc(y)) => if x == y {
            Some(Ordering::Equal)
        } else {
            None
        },
        _ => None,
    }
}

fn truth_sign_of(x: bool, y: bool) -> (s: i8)
    ensures
        s == truth_sign(x, y),
{
    if x == y {
        0
    } else if y {
        -1
    } else {
        1
    }
}

fn order_by(s: i8) -> (r: Ordering)
    ensures
        r == order_of_sign(s),
{
    if s < 0 {
        Ordering::Less
    } else if s == 0 {
        Ordering::Equal
    } else {
        Ordering::Greater
    }
}

impl PartialOrd for Atom {
    fn partial_cmp(&self, other: &Atom) -> (r: Option<Ordering>) {
        match (self, other) {
            (Atom::Int(x), Atom::Int(y)) => Some(order_by(compare_narrow(*x, *y))),
            (Atom::Real(x), Atom::Real(y)) => match (x.rank_of(), y.rank_of()) {
                (Some(p), Some(q)) => Some(order_by(compare_wide(p, q))),
                _ => None,
            },
            (Atom::Bool(x), Atom::Bool(y)) => Some(order_by(truth_sign_of(*x, *y))),
            (Atom::Str(x), Atom::Str(y)) => Some(order_by(compare_text(x.as_str(), y.as_str()))),
            (Atom::Other(kx, x), Atom::Other(ky, y)) => {
                if *kx == *ky {
                    Some(order_by(compare_text(x.as_str(), y.as_str())))
                } else {
                    None
                }
            },
            (Atom::Proc(x), Atom::Proc(y)) => {
                if x.func == y.func {
                    Some(Ordering::Equal)
                } else {
                    None
                }
            },
            _ => None,
        }
    }
}

impl vstd::std_specs::cmp::PartialOrdSpecImpl for Atom {
    open spec fn obeys_partial_cmp_spec() -> bool {
        true
    }

    open spec fn partial_cmp_spec(&self, other: &Atom) -> Option<Ordering> {
        atom_order(self@, other@)
    }
}

} // verus!
