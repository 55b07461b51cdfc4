//! The list: pairs, basis values and the empty list.
use vstd::prelude::*;
use vstd::string::*;
use crate::value::{Atom, AtomView, ListV};

verus! {

/// A pair of two lists, a basis value, or the empty list.
///
/// A *proper list* is the empty list or a pair whose tail is a proper list.
#[derive(Debug)]
pub enum List {
    Cons(Box<List>, Box<List>),
    V(Atom),
    Nil,
}

/// What a [`List`] stands for.
pub enum Datum {
    Cons(Box<Datum>, Box<Datum>),
    V(AtomView),
    Nil,
}

/// The pair of `a` and `b`.
pub open spec fn cons(a: Datum, b: Datum) -> Datum {
    Datum::Cons(Box::new(a), Box::new(b))
}

/// The datum that is the string `s`.
pub open spec fn text_datum(s: Seq<char>) -> Datum {
    Datum::V(AtomView::Str(s))
}

/// The datum that is the integer `i`.
pub open spec fn int_datum(i: int) -> Datum {
    Datum::V(AtomView::Int(i))
}

/// The datum that is the truth value `b`.
pub open spec fn bool_datum(b: bool) -> Datum {
    Datum::V(AtomView::Bool(b))
}

/// The proper list of the items of `s`, in their order.
pub open spec fn list_of(s: Seq<Datum>) -> Datum
    decreases s.len(),
{
    if s.len() == 0 {
        Datum::Nil
    } else {
        cons(s[0], list_of(s.drop_first()))
    }
}

impl Datum {
    /// The first of a pair; the empty list for anything else.
    pub open spec fn head(self) -> Datum {
        match self {
            Datum::Cons(a, _) => *a,
            _ => Datum::Nil,
        }
    }

    /// The second of a pair; the empty list for anything else.
    pub open spec fn tail(self) -> Datum {
        match self {
            Datum::Cons(_, b) => *b,
            _ => Datum::Nil,
        }
    }

    /// Whether this is a proper list.
    pub open spec fn is_list(self) -> bool
        decreases self,
    {
        match self {
            Datum::Nil => true,
            Datum::Cons(_, next) => next.is_list(),
            Datum::V(_) => false,
        }
    }

    /// Whether this is a proper list whose items, where they are pairs, are
    /// such lists too.
    pub open spec fn is_deep_list(self) -> bool
        decreases self,
    {
        match self {
            Datum::Nil => true,
            Datum::Cons(item, next) => (!(*item is Cons) || item.is_deep_list())
                && next.is_deep_list(),
            Datum::V(_) => false,
        }
    }

    /// The number of items: pairs along the tail, and one for a basis value.
    pub open spec fn length(self) -> nat
        decreases self,
    {
        match self {
            Datum::Nil => 0,
            Datum::Cons(_, next) => 1 + next.length(),
            Datum::V(_) => 1,
        }
    }

    /// The number of basis values anywhere in the structure.
    pub open spec fn deep_length(self) -> nat
        decreases self,
    {
        match self {
            Datum::Nil => 0,
            Datum::Cons(item, next) => item.deep_length() + next.deep_length(),
            Datum::V(_) => 1,
        }
    }

    /// The last pair of a non-empty proper list.
    pub open spec fn last_pair(self) -> Datum
        decreases self,
    {
        match self {
            Datum::Cons(_, next) => if *next is Cons {
                next.last_pair()
            } else {
                self
            },
            _ => self,
        }
    }

    /// The items of `self` followed by those of `other`; a basis value
    /// counts as a list of one item.
    pub open spec fn append(self, other: Datum) -> Datum
        decreases self,
    {
        match self {
            Datum::Nil => other,
            Datum::Cons(item, next) => cons(*item, next.append(other)),
            Datum::V(_) => cons(self, other),
        }
    }

    /// The items of `self` in reverse order, in front of `onto`.
    pub open spec fn reverse_onto(self, onto: Datum) -> Datum
        decreases self,
    {
        match self {
            Datum::Cons(item, next) => next.reverse_onto(cons(*item, onto)),
            _ => onto,
        }
    }

    /// The items of a proper list in reverse order.
    pub open spec fn reverse(self) -> Datum {
        self.reverse_onto(Datum::Nil)
    }

    /// The items of `self` in reverse order, each item that is a pair
    /// reversed in depth as well, in front of `onto`.
    pub open spec fn deep_reverse_onto(self, onto: Datum) -> Datum
        decreases self, 0nat,
    {
        match self {
            Datum::Cons(item, next) => next.deep_reverse_onto(
                cons(
                    if *item is Cons {
                        item.deep_reverse()
                    } else {
                        *item
                    },
                    onto,
                ),
            ),
            _ => onto,
        }
    }

    /// A proper list reversed at every level.
    pub open spec fn deep_reverse(self) -> Datum
        decreases self, 1nat,
    {
        self.deep_reverse_onto(Datum::Nil)
    }

    /// The position of the first item equal to `x`, searching up to the
    /// first item that is the empty list.
    pub open spec fn find_index(self, x: Datum) -> Option<nat>
        decreases self,
    {
        match self {
            Datum::Cons(item, next) => if *item is Nil {
                None
            } else if *item == x {
                Some(0nat)
            } else {
                match next.find_index(x) {
                    Some(n) => Some(n + 1),
                    None => None,
                }
            },
            _ => None,
        }
    }

    /// How the structure is written: `(head, tail)` for a pair, `Nil` for
    /// the empty list.
    pub open spec fn text(self) -> Seq<char>
        decreases self,
    {
        match self {
            Datum::Cons(a, b) => "("@ + a.text() + ", "@ + b.text() + ")"@,
            Datum::V(v) => v.text(),
            Datum::Nil => "Nil"@,
        }
    }
}

impl Datum {
    /// The items of a list as they are written after the opening bracket:
    /// with `, ` between them, pairs among them written as lists, empty
    /// lists among them left out, and the closing bracket.
    pub open spec fn pretty_body(self) -> Seq<char>
        decreases self, 0nat,
    {
        match self {
            Datum::Nil => ")"@,
            Datum::Cons(item, next) => joined(item.pretty_item(), next.pretty_body()),
            Datum::V(v) => joined(v.text(), ")"@),
        }
    }

    /// An item as it is written in a list.
    pub open spec fn pretty_item(self) -> Seq<char>
        decreases self, 1nat,
    {
        match self {
            Datum::Nil => Seq::<char>::empty(),
            Datum::Cons(_, _) => "("@ + self.pretty_body(),
            Datum::V(v) => v.text(),
        }
    }

    /// A list as it is written with its items side by side:
    /// `(1, hello, (2, 3))`.
    pub open spec fn pretty(self) -> Seq<char> {
        "("@ + self.pretty_body()
    }
}

/// An item in front of what is written after it: with `, ` between them,
/// unless what follows is empty or starts with the closing bracket.
pub open spec fn joined(item: Seq<char>, rest: Seq<char>) -> Seq<char> {
    if rest.len() == 0 || rest[0] == ')' {
        item + rest
    } else {
        item + ", "@ + rest
    }
}

impl View for List {
    type V = Datum;

    open spec fn view(&self) -> Datum
        decreases self,
    {
        match self {
            List::Cons(a, b) => cons((**a)@, (**b)@),
            List::V(v) => Datum::V(v@),
            List::Nil => Datum::Nil,
        }
    }
}

/// The views of a sequence of lists.
pub open spec fn views(items: Seq<List>) -> Seq<Datum> {
    items.map_values(|l: List| l@)
}

impl Clone for List {
    fn clone(&self) -> (r: List)
        ensures
            r == *self,
        decreases self,
    {
        match self {
            List::Cons(a, b) => List::Cons(Box::new((**a).clone()), Box::new((**b).clone())),
            List::V(v) => List::V(v.clone()),
            List::Nil => List::Nil,
        }
    }
}

impl PartialEq for List {
    fn eq(&self, other: &List) -> (r: bool) {
        self.equals(other)
    }
}

impl vstd::std_specs::cmp::PartialEqSpecImpl for List {
    open spec fn obeys_eq_spec() -> bool {
        true
    }

    open spec fn eq_spec(&self, other: &List) -> bool {
        self@ == other@
    }
}

impl List {
    /// Whether two lists have the same structure and equal basis values.
    pub fn equals(&self, other: &List) -> (r: bool)
        ensures
            r == (self@ == other@),
        decreases self,
    {
        match (self, other) {
            (List::Nil, List::Nil) => true,
            (List::Cons(a1, b1), List::Cons(a2, b2)) => (**a1).equals(&**a2) && (**b1).equals(
                &**b2,
            ),
            (List::V(x), List::V(y)) => *x == *y,
            _ => false,
        }
    }

    /// The leaf that holds the string `s`.
    pub fn text(s: &str) -> (r: List)
        ensures
            r@ == text_datum(s@),
    {
        List::V(Atom::Str(String::from_str(s)))
    }

    /// The leaf that holds the integer `i`.
    pub fn integer(i: i32) -> (r: List)
        ensures
            r@ == int_datum(i as int),
    {
        List::V(Atom::Int(i))
    }

    /// The leaf that holds the truth value `b`.
    pub fn truth(b: bool) -> (r: List)
        ensures
            r@ == bool_datum(b),
    {
        List::V(Atom::Bool(b))
    }

    /// Whether this is the leaf that holds the string `s`.
    pub fn is_text(&self, s: &str) -> (r: bool)
        ensures
            r == (self@ == text_datum(s@)),
    {
        match self {
            List::V(Atom::Str(t)) => t.as_str().eq(s),
            _ => false,
        }
    }

    /// Whether this is the leaf that holds the truth value `true`.
    pub fn is_true(&self) -> (r: bool)
        ensures
            r == (self@ == bool_datum(true)),
    {
        match self {
            List::V(Atom::Bool(b)) => *b,
            _ => false,
        }
    }

    /// The pair of `a` and `b`.
    pub fn pair(a: List, b: List) -> (r: List)
        ensures
            r@ == cons(a@, b@),
    {
        List::Cons(Box::new(a), Box::new(b))
    }

    /// Whether this is a pair.
    pub fn is_pair(&self) -> (r: bool)
        ensures
            r == (self@ is Cons),
    {
        match self {
            List::Cons(_, _) => true,
            _ => false,
        }
    }

    /// Whether this is the empty list.
    pub fn is_empty(&self) -> (r: bool)
        ensures
            r == (self@ is Nil),
    {
        match self {
            List::Nil => true,
            _ => false,
        }
    }

    /// Whether this is a basis value.
    pub fn is_value(&self) -> (r: bool)
        ensures
            r == (self@ is V),
    {
        match self {
            List::V(_) => true,
            _ => false,
        }
    }

    /// The first of a pair.
    pub fn head(&self) -> (r: &List)
        requires
            self@ is Cons,
        ensures
            r@ == self@.head(),
    {
        match self {
            List::Cons(a, _) => &**a,
            _ => self,
        }
    }

    /// The second of a pair.
    pub fn tail(&self) -> (r: &List)
        requires
            self@ is Cons,
        ensures
            r@ == self@.tail(),
    {
        match self {
            List::Cons(_, b) => &**b,
            _ => self,
        }
    }

    /// The second of a pair, and the empty list for anything else.
    pub fn tail_or_nil(&self) -> (r: List)
        ensures
            r@ == self@.tail(),
    {
        match self {
            List::Cons(_, b) => (**b).clone(),
            _ => List::Nil,
        }
    }

    /// Replaces the first of a pair.
    pub fn set_head(&mut self, new_head: List)
        requires
            old(self)@ is Cons,
        ensures
            final(self)@ == cons(new_head@, old(self)@.tail()),
    {
        let mut taken = List::Nil;
        core::mem::swap(self, &mut taken);
        match taken {
            List::Cons(_, b) => {
                *self = List::Cons(Box::new(new_head), b);
            },
            other => {
                *self = other;
            },
        }
    }

    /// Replaces the second of a pair.
    pub fn set_tail(&mut self, new_tail: List)
        requires
            old(self)@ is Cons,
        ensures
            final(self)@ == cons(old(self)@.head(), new_tail@),
    {
        let mut taken = List::Nil;
        core::mem::swap(self, &mut taken);
        match taken {
            List::Cons(a, _) => {
                *self = List::Cons(a, Box::new(new_tail));
            },
            other => {
                *self = other;
            },
        }
    }

    /// The last pair of a non-empty proper list.
    pub fn last_pair(&self) -> (r: &List)
        requires
            self@ is Cons,
            self@.is_list(),
        ensures
            r@ == self@.last_pair(),
        decreases self,
    {
        match self {
            List::Cons(_, next) => {
                if next.is_pair() {
                    next.last_pair()
                } else {
                    self
                }
            },
            _ => self,
        }
    }

    /// Stores a value at a leaf.
    pub fn wrap_as_list_value<T: ListV>(v: T) -> (r: List)
        ensures
            r@ == Datum::V(v.atom_view()),
    {
        List::V(v.to_atom())
    }

    /// A list is stored as itself.
    pub fn to_listv(self) -> (r: List)
        ensures
            r == self,
    {
        self
    }

    /// The basis value at a leaf.
    pub fn get_basis_value(&self) -> (r: &Atom)
        requires
            self@ is V,
        ensures
            Datum::V(r@) == self@,
    {
        match self {
            List::V(v) => v,
            _ => {
                let never: &Atom = &Atom::Bool(false);
                never
            },
        }
    }

    /// Whether this is a leaf that holds a number.
    pub fn is_number_value(&self) -> (r: bool)
        ensures
            r == (self@ matches Datum::V(v) && (v is Int || v is Real)),
    {
        match self {
            List::V(v) => v.is_number(),
            _ => false,
        }
    }

    /// Whether this is a leaf that holds a string.
    pub fn is_string_value(&self) -> (r: bool)
        ensures
            r == (self@ matches Datum::V(v) && v is Str),
    {
        match self {
            List::V(v) => v.is_string(),
            _ => false,
        }
    }

    /// Whether this is a leaf that holds a real number.
    pub fn is_float_value(&self) -> (r: bool)
        ensures
            r == (self@ matches Datum::V(v) && v is Real),
    {
        match self {
            List::V(v) => v.is_float(),
            _ => false,
        }
    }

    /// Whether this is a leaf that holds an integer.
    pub fn is_integer_value(&self) -> (r: bool)
        ensures
            r == (self@ matches Datum::V(v) && v is Int),
    {
        match self {
            List::V(v) => v.is_integer(),
            _ => false,
        }
    }

    /// The value of type `T` at a leaf, or the reason why there is none.
    pub fn try_as_basis_value<T: ListV>(&self) -> (r: Result<&T, &'static str>)
        ensures
            r is Ok == (self@ matches Datum::V(v) && T::held_by(v)),
            r matches Ok(t) ==> Datum::V(t.atom_view()) == self@,
            r matches Err(why) ==> why@ == (match self@ {
                Datum::V(_) => "Type mismatch"@,
                Datum::Nil => "Cannot call try_as_basis_value on List::Nil"@,
                Datum::Cons(_, _) => "Cannot call try_as_basis_value on List::Cons"@,
            }),
    {
        match self {
            List::V(v) => match T::pick(v) {
                Some(t) => Ok(t),
                None => Err("Type mismatch"),
            },
            List::Nil => Err("Cannot call try_as_basis_value on List::Nil"),
            List::Cons(_, _) => Err("Cannot call try_as_basis_value on List::Cons"),
        }
    }

    /// The proper list of the given items.
    pub fn from_slice(items: &[List]) -> (r: List)
        ensures
            r@ == list_of(views(items@)),
    {
        let mut acc = List::Nil;
        let mut i: usize = items.len();
        proof {
            assert(views(items@).subrange(i as int, items@.len() as int) =~= Seq::<Datum>::empty());
        }
        while i > 0
            invariant
                i <= items.len(),
                acc@ == list_of(views(items@).subrange(i as int, items@.len() as int)),
            decreases i,
        {
            i = i - 1;
            proof {
                let rest = views(items@).subrange(i as int, items@.len() as int);
                assert(rest.drop_first() =~= views(items@).subrange(
                    i as int + 1,
                    items@.len() as int,
                ));
                assert(rest[0] == items@[i as int]@);
            }
            acc = List::pair(items[i].clone(), acc);
        }
        proof {
            assert(views(items@).subrange(0, items@.len() as int) =~= views(items@));
        }
        acc
    }

    /// The items of `self` followed by those of `other`.
    pub fn append(&self, other: &List) -> (r: List)
        ensures
            r@ == self@.append(other@),
        decreases self,
    {
        match self {
            List::Nil => other.clone(),
            List::Cons(item, next) => List::pair((**item).clone(), next.append(other)),
            List::V(_) => List::pair(self.clone(), other.clone()),
        }
    }

    /// Makes `y` the tail of the last pair of a non-empty proper list.
    pub fn append_mutator(&mut self, y: List)
        requires
            old(self)@ is Cons,
            old(self)@.is_list(),
        ensures
            final(self)@ == old(self)@.append(y@),
    {
        let mut taken = List::Nil;
        core::mem::swap(self, &mut taken);
        *self = Self::with_last_tail(taken, y);
    }

    fn with_last_tail(l: List, y: List) -> (r: List)
        requires
            l@.is_list(),
        ensures
            r@ == l@.append(y@),
        decreases l,
    {
        match l {
            List::Cons(item, next) => List::Cons(item, Box::new(Self::with_last_tail(*next, y))),
            _ => y,
        }
    }

    fn reverse_onto(&self, onto: List) -> (r: List)
        ensures
            r@ == self@.reverse_onto(onto@),
        decreases self,
    {
        match self {
            List::Cons(item, next) => next.reverse_onto(List::pair((**item).clone(), onto)),
            _ => onto,
        }
    }

    /// The items of a proper list in reverse order.
    pub fn reverse(&self) -> (r: List)
        requires
            self@.is_list(),
        ensures
            r@ == self@.reverse(),
    {
        self.reverse_onto(List::Nil)
    }

    fn deep_reverse_onto(&self, onto: List) -> (r: List)
        ensures
            r@ == self@.deep_reverse_onto(onto@),
        decreases self, 0nat,
    {
        match self {
            List::Cons(item, next) => {
                let turned = if item.is_pair() {
                    item.deep_reverse_all()
                } else {
                    (**item).clone()
                };
                next.deep_reverse_onto(List::pair(turned, onto))
            },
            _ => onto,
        }
    }

    fn deep_reverse_all(&self) -> (r: List)
        ensures
            r@ == self@.deep_reverse(),
        decreases self, 1nat,
    {
        self.deep_reverse_onto(List::Nil)
    }

    /// A proper list of basis values and such lists, reversed at every
    /// level.
    pub fn deep_reverse(&self) -> (r: List)
        requires
            self@.is_deep_list(),
        ensures
            r@ == self@.deep_reverse(),
    {
        self.deep_reverse_all()
    }

    /// The number of items.
    pub fn length(&self) -> (r: usize)
        requires
            self@.length() <= usize::MAX,
        ensures
            r == self@.length(),
        decreases self,
    {
        match self {
            List::Nil => 0,
            List::Cons(_, next) => 1 + next.length(),
            List::V(_) => 1,
        }
    }

    /// The number of items where it is at most `limit`.
    pub fn length_within(&self, limit: usize) -> (r: Option<usize>)
        ensures
            match r {
                Some(n) => n == self@.length() && n <= limit,
                None => self@.length() > limit,
            },
        decreases self,
    {
        match self {
            List::Nil => Some(0),
            List::Cons(_, next) => {
                if limit == 0 {
                    None
                } else {
                    match next.length_within(limit - 1) {
                        Some(n) => Some(n + 1),
                        None => None,
                    }
                }
            },
            List::V(_) => {
                if limit == 0 {
                    None
                } else {
                    Some(1)
                }
            },
        }
    }

    /// The number of basis values anywhere in the structure.
    pub fn deep_length(&self) -> (r: usize)
        requires
            self@.deep_length() <= usize::MAX,
        ensures
            r == self@.deep_length(),
        decreases self,
    {
        match self {
            List::Nil => 0,
            List::Cons(item, next) => item.deep_length() + next.deep_length(),
            List::V(_) => 1,
        }
    }

    /// The position of the first item equal to `x`; the search ends at the
    /// first item that is the empty list, and at the end of the list.
    pub fn find_index(&self, x: &List) -> (r: Option<usize>)
        requires
            self@.length() <= usize::MAX,
        ensures
            r matches Some(n) ==> self@.find_index(x@) == Some(n as nat),
            r is None ==> self@.find_index(x@) is None,
        decreases self,
    {
        match self {
            List::Cons(item, next) => {
                if item.is_empty() {
                    None
                } else if (**item).equals(x) {
                    Some(0)
                } else {
                    proof {
                        lemma_find_index_bound(next@, x@);
                    }
                    match next.find_index(x) {
                        Some(n) => Some(n + 1),
                        None => None,
                    }
                }
            },
            _ => None,
        }
    }

    /// Appends the list, as it is written, to `out`.
    pub fn write_to(&self, out: &mut String)
        ensures
            final(out)@ == old(out)@ + self@.text(),
        decreases self,
    {
        match self {
            List::Cons(a, b) => {
                out.append("(");
                a.write_to(out);
                out.append(", ");
                b.write_to(out);
                out.append(")");
                assert(out@ =~= old(out)@ + self@.text());
            },
            List::V(v) => v.write_to(out),
            List::Nil => {
                out.append("Nil");
            },
        }
    }

    fn pretty_body(&self) -> (s: String)
        ensures
            s@ == self@.pretty_body(),
        decreases self, 0nat,
    {
        match self {
            List::Nil => String::from_str(")"),
            List::Cons(item, next) => {
                let rest = next.pretty_body();
                let mut out = item.pretty_item();
                join(&mut out, &rest);
                out
            },
            List::V(v) => {
                let mut out = v.to_string();
                let rest = String::from_str(")");
                join(&mut out, &rest);
                out
            },
        }
    }

    fn pretty_item(&self) -> (s: String)
        ensures
            s@ == self@.pretty_item(),
        decreases self, 1nat,
    {
        match self {
            List::Nil => String::new(),
            List::Cons(_, _) => {
                let mut out = String::from_str("(");
                let body = self.pretty_body();
                out.append(body.as_str());
                out
            },
            List::V(v) => v.to_string(),
        }
    }

    /// The list as it is written with its items side by side.
    pub fn pretty_print(&self) -> (s: String)
        ensures
            s@ == self@.pretty(),
    {
        let mut out = String::from_str("(");
        let body = self.pretty_body();
        out.append(body.as_str());
        out
    }

    /// The list as it is written.
    pub fn to_string(&self) -> (s: String)
        ensures
            s@ == self@.text(),
    {
        let mut out = String::new();
        self.write_to(&mut out);
        assert(out@ =~= self@.text());
        out
    }
}

fn join(out: &mut String, rest: &String)
    ensures
        final(out)@ == joined(old(out)@, rest@),
{
    let closes = rest.as_str().unicode_len() == 0 || rest.as_str().get_char(0) == ')';
    if !closes {
        out.append(", ");
    }
    out.append(rest.as_str());
}

/// The proper list of a sequence is a proper list of as many items.
pub proof fn lemma_list_of_is_list(s: Seq<Datum>)
    ensures
        list_of(s).is_list(),
        list_of(s).length() == s.len(),
    decreases s.len(),
{
    if s.len() > 0 {
        lemma_list_of_is_list(s.drop_first());
    }
}

/// Appending the proper lists of two sequences gives the proper list of
/// the one sequence followed by the other.
pub proof fn lemma_append_list_of(a: Seq<Datum>, b: Seq<Datum>)
    ensures
        list_of(a).append(list_of(b)) == list_of(a + b),
    decreases a.len(),
{
    if a.len() == 0 {
        assert(a + b =~= b);
    } else {
        lemma_append_list_of(a.drop_first(), b);
        assert((a + b).drop_first() =~= a.drop_first() + b);
        assert((a + b)[0] == a[0]);
    }
}

proof fn lemma_reverse_onto_list_of(s: Seq<Datum>, onto: Seq<Datum>)
    ensures
        list_of(s).reverse_onto(list_of(onto)) == list_of(s.reverse() + onto),
    decreases s.len(),
{
    if s.len() == 0 {
        assert(s.reverse() + onto =~= onto);
    } else {
        let next = seq![s[0]] + onto;
        assert(next.drop_first() =~= onto);
        assert(list_of(next) == cons(s[0], list_of(onto)));
        lemma_reverse_onto_list_of(s.drop_first(), next);
        assert(s.drop_first().reverse() + next =~= s.reverse() + onto);
    }
}

/// Reversing the proper list of a sequence gives the proper list of the
/// sequence reversed.
pub proof fn lemma_reverse_list_of(s: Seq<Datum>)
    ensures
        list_of(s).reverse() == list_of(s.reverse()),
{
    lemma_reverse_onto_list_of(s, Seq::<Datum>::empty());
    assert(s.reverse() + Seq::<Datum>::empty() =~= s.reverse());
}

/// A position found in a list lies before its end.
pub proof fn lemma_find_index_bound(d: Datum, x: Datum)
    ensures
        d.find_index(x) matches Some(n) ==> n < d.length(),
    decreases d,
{
    match d {
        Datum::Cons(item, next) => {
            lemma_find_index_bound(*next, x);
        },
        _ => {},
    }
}

} // verus!
