//! Basis values: what a list holds at its leaves.
use vstd::prelude::*;
use vstd::string::*;
use crate::kernel::Real;
use crate::procedure::{ClosureWrapper, Primitive};
use crate::text::{decimal, int_text, push_decimal, push_int};

verus! {

/// A basis value.
#[derive(Debug)]
pub enum Atom {
    /// An integer.
    Int(i32),
    /// A real number.
    Real(Real),
    /// A truth value.
    Bool(bool),
    /// A string; symbols and type tags are strings.
    Str(String),
    /// A procedure.
    Proc(ClosureWrapper),
    /// A value of any other type: the name of its type and how it is written.
    Other(String, String),
}

/// What an [`Atom`] stands for.
pub enum AtomView {
    Int(int),
    Real(Real),
    Bool(bool),
    Str(Seq<char>),
    Proc(Primitive),
    Other(Seq<char>, Seq<char>),
}

impl View for Atom {
    type V = AtomView;

    open spec fn view(&self) -> AtomView {
        match self {
            Atom::Int(i) => AtomView::Int(*i as int),
            Atom::Real(r) => AtomView::Real(*r),
            Atom::Bool(b) => AtomView::Bool(*b),
            Atom::Str(s) => AtomView::Str(s@),
            Atom::Proc(p) => AtomView::Proc(p.func),
            Atom::Other(kind, repr) => AtomView::Other(kind@, repr@),
        }
    }
}

impl AtomView {
    /// How the value is written.
    pub open spec fn text(self) -> Seq<char> {
        match self {
            AtomView::Int(i) => int_text(i),
            AtomView::Real(r) => "real:"@ + decimal(r.bits as nat),
            AtomView::Bool(b) => if b {
                "true"@
            } else {
                "false"@
            },
            AtomView::Str(s) => s,
            AtomView::Proc(_) => "<procedure>"@,
            AtomView::Other(_, repr) => repr,
        }
    }
}

impl Clone for Atom {
    fn clone(&self) -> (r: Atom)
        ensures
            r == *self,
    {
        match self {
            Atom::Int(i) => Atom::Int(*i),
            Atom::Real(r) => Atom::Real(*r),
            Atom::Bool(b) => Atom::Bool(*b),
            Atom::Str(s) => Atom::Str(s.clone()),
            Atom::Proc(p) => Atom::Proc(*p),
            Atom::Other(kind, repr) => Atom::Other(kind.clone(), repr.clone()),
        }
    }
}

impl PartialEq for Atom {
    fn eq(&self, other: &Atom) -> (r: bool) {
        let r = match (self, other) {
            (Atom::Int(a), Atom::Int(b)) => *a == *b,
            (Atom::Real(a), Atom::Real(b)) => a.bits == b.bits,
            (Atom::Bool(a), Atom::Bool(b)) => *a == *b,
            (Atom::Str(a), Atom::Str(b)) => *a == *b,
            (Atom::Proc(a), Atom::Proc(b)) => a.func == b.func,
            (Atom::Other(ka, ra), Atom::Other(kb, rb)) => *ka == *kb && *ra == *rb,
            _ => false,
        };
        r
    }
}

impl vstd::std_specs::cmp::PartialEqSpecImpl for Atom {
    open spec fn obeys_eq_spec() -> bool {
        true
    }

    open spec fn eq_spec(&self, other: &Atom) -> bool {
        self@ == other@
    }
}

impl Atom {
    /// Whether this is a string.
    pub fn is_string(&self) -> (r: bool)
        ensures
            r == (self@ is Str),
    {
        match self {
            Atom::Str(_) => true,
            _ => false,
        }
    }

    /// Whether this is an integer.
    pub fn is_integer(&self) -> (r: bool)
        ensures
            r == (self@ is Int),
    {
        match self {
            Atom::Int(_) => true,
            _ => false,
        }
    }

    /// Whether this is a real number.
    pub fn is_float(&self) -> (r: bool)
        ensures
            r == (self@ is Real),
    {
        match self {
            Atom::Real(_) => true,
            _ => false,
        }
    }

    /// Whether this is a number, integer or real.
    pub fn is_number(&self) -> (r: bool)
        ensures
            r == (self@ is Int || self@ is Real),
    {
        match self {
            Atom::Int(_) => true,
            Atom::Real(_) => true,
            _ => false,
        }
    }

    /// Appends the value, as it is written, to `out`.
    pub fn write_to(&self, out: &mut String)
        ensures
            final(out)@ == old(out)@ + self@.text(),
    {
        match self {
            Atom::Int(i) => push_int(out, *i as i64),
            Atom::Real(r) => {
                out.append("real:");
                push_decimal(out, r.bits);
                assert(out@ =~= old(out)@ + self@.text());
            },
            Atom::Bool(b) => {
                if *b {
                    out.append("true");
                } else {
                    out.append("false");
                }
            },
            Atom::Str(s) => out.append(s.as_str()),
            Atom::Proc(_) => out.append("<procedure>"),
            Atom::Other(_, repr) => out.append(repr.as_str()),
        }
    }

    /// The value as it is written.
    pub fn to_string(&self) -> (s: String)
        ensures
            s@ == self@.text(),
    {
        let mut out = String::new();
        self.write_to(&mut out);
        assert(out@ =~= self@.text());
        out
    }
}

/// A type whose values can stand at a leaf of a list.
pub trait ListV: Sized {
    /// The basis value that `self` is stored as.
    spec fn atom_view(&self) -> AtomView;

    /// Whether a basis value holds a value of this type.
    spec fn held_by(a: AtomView) -> bool;

    /// Stores `self` as a basis value.
    fn to_atom(self) -> (a: Atom)
        ensures
            a@ == self.atom_view(),
    ;

    /// The value of this type that a basis value holds, if it holds one.
    fn pick(a: &Atom) -> (r: Option<&Self>)
        ensures
            r is Some == Self::held_by(a@),
            r matches Some(v) ==> v.atom_view() == a@,
    ;
}

impl ListV for Atom {
    open spec fn atom_view(&self) -> AtomView {
        self@
    }

    open spec fn held_by(a: AtomView) -> bool {
        true
    }

    fn to_atom(self) -> (a: Atom) {
        self
    }

    fn pick(a: &Atom) -> (r: Option<&Atom>) {
        Some(a)
    }
}

impl ListV for i32 {
    open spec fn atom_view(&self) -> AtomView {
        AtomView::Int(*self as int)
    }

    open spec fn held_by(a: AtomView) -> bool {
        a is Int
    }

    fn to_atom(self) -> (a: Atom) {
        Atom::Int(self)
    }

    fn pick(a: &Atom) -> (r: Option<&i32>) {
        match a {
            Atom::Int(i) => Some(i),
            _ => None,
        }
    }
}

impl ListV for bool {
    open spec fn atom_view(&self) -> AtomView {
        AtomView::Bool(*self)
    }

    open spec fn held_by(a: AtomView) -> bool {
        a is Bool
    }

    fn to_atom(self) -> (a: Atom) {
        Atom::Bool(self)
    }

    fn pick(a: &Atom) -> (r: Option<&bool>) {
        match a {
            Atom::Bool(b) => Some(b),
            _ => None,
        }
    }
}

impl ListV for Real {
    open spec fn atom_view(&self) -> AtomView {
        AtomView::Real(*self)
    }

    open spec fn held_by(a: AtomView) -> bool {
        a is Real
    }

    fn to_atom(self) -> (a: Atom) {
        Atom::Real(self)
    }

    fn pick(a: &Atom) -> (r: Option<&Real>) {
        match a {
            Atom::Real(x) => Some(x),
            _ => None,
        }
    }
}

impl ListV for String {
    open spec fn atom_view(&self) -> AtomView {
        AtomView::Str(self@)
    }

    open spec fn held_by(a: AtomView) -> bool {
        a is Str
    }

    fn to_atom(self) -> (a: Atom) {
        Atom::Str(self)
    }

    fn pick(a: &Atom) -> (r: Option<&String>) {
        match a {
            Atom::Str(s) => Some(s),
            _ => None,
        }
    }
}

impl ListV for ClosureWrapper {
    open spec fn atom_view(&self) -> AtomView {
        AtomView::Proc(self.func)
    }

    open spec fn held_by(a: AtomView) -> bool {
        a is Proc
    }

    fn to_atom(self) -> (a: Atom) {
        Atom::Proc(self)
    }

    fn pick(a: &Atom) -> (r: Option<&ClosureWrapper>) {
        match a {
            Atom::Proc(p) => Some(p),
            _ => None,
        }
    }
}

} // verus!
