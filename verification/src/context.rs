//! The context of the arithmetic: the operation table and the coercions.
use vstd::prelude::*;
use crate::kernel::RealKernel;
use crate::list::{cons, text_datum, Datum, List};
use crate::procedure::{ClosureWrapper, Primitive};
use crate::table::{found_2d, insert_2d, lookup_2d, make_table_2d, stored_2d, table_marker};
use crate::value::{Atom, AtomView};

verus! {

/// How deep calls may nest in a context that was given no other limit.
pub const DEFAULT_DEPTH: usize = 512;

/// The operation table, the coercions, the limit on the nesting of calls,
/// and the arithmetic on reals.
pub struct ArithmeticContext<K: RealKernel> {
    /// The procedures, under the name of an operation and a list of type
    /// tags.
    pub optable: List,
    /// The coercions: a list of entries `(from to procedure)`.
    pub coercion: List,
    /// How deep calls may nest.
    pub depth: usize,
    /// The arithmetic on reals.
    pub kernel: K,
}

/// What a context stands for: its two tables and the arithmetic on reals.
pub struct Tables<K> {
    pub ops: Datum,
    pub coercions: Datum,
    pub kernel: K,
}

impl<K: RealKernel> View for ArithmeticContext<K> {
    type V = Tables<K>;

    open spec fn view(&self) -> Tables<K> {
        Tables { ops: self.optable@, coercions: self.coercion@, kernel: self.kernel }
    }
}

/// The list of one item.
pub open spec fn list1(a: Datum) -> Datum {
    cons(a, Datum::Nil)
}

/// The list of two items.
pub open spec fn list2(a: Datum, b: Datum) -> Datum {
    cons(a, cons(b, Datum::Nil))
}

/// The list of three items.
pub open spec fn list3(a: Datum, b: Datum, c: Datum) -> Datum {
    cons(a, cons(b, cons(c, Datum::Nil)))
}

/// The datum that is a procedure.
pub open spec fn procedure_datum(p: Primitive) -> Datum {
    Datum::V(AtomView::Proc(p))
}

/// The procedure that a datum is, if it is one.
pub open spec fn as_procedure(d: Datum) -> Option<Primitive> {
    match d {
        Datum::V(AtomView::Proc(p)) => Some(p),
        _ => None,
    }
}

/// The procedure that the table holds for `op` on arguments of the types
/// `signature`.
pub open spec fn procedure_at(ops: Datum, op: Datum, signature: Datum) -> Option<Primitive> {
    match found_2d(op, signature, ops.tail()) {
        Some(d) => as_procedure(d),
        None => None,
    }
}

/// The table after `p` is registered for `op` on `signature`.
pub open spec fn with_procedure(ops: Datum, op: Datum, signature: Datum, p: Primitive) -> Datum {
    cons(
        if ops is Cons {
            ops.head()
        } else {
            table_marker()
        },
        stored_2d(op, signature, procedure_datum(p), ops.tail()),
    )
}

/// After a procedure is registered for an operation on a signature, it is
/// what is found there, and what is found elsewhere is unchanged.
pub proof fn lemma_procedure_after_registration(
    ops: Datum,
    op: Datum,
    signature: Datum,
    p: Primitive,
    other_op: Datum,
    other_signature: Datum,
)
    ensures
        procedure_at(with_procedure(ops, op, signature, p), other_op, other_signature) == if other_op
            == op && other_signature == signature {
            Some(p)
        } else {
            procedure_at(ops, other_op, other_signature)
        },
{
    crate::table::lemma_found_after_stored_2d(
        op,
        signature,
        procedure_datum(p),
        ops.tail(),
        other_op,
        other_signature,
    );
}

/// Registering again what is registered changes nothing.
pub proof fn lemma_registration_is_idempotent(ops: Datum, op: Datum, signature: Datum, p: Primitive)
    ensures
        with_procedure(with_procedure(ops, op, signature, p), op, signature, p) == with_procedure(
            ops,
            op,
            signature,
            p,
        ),
{
    let once = with_procedure(ops, op, signature, p);
    crate::table::lemma_found_after_stored_2d(
        op,
        signature,
        procedure_datum(p),
        ops.tail(),
        op,
        signature,
    );
    crate::table::lemma_stored_again_2d(op, signature, procedure_datum(p), once.tail());
}

/// The first and second of a list of at least two items.
pub open spec fn two(d: Datum) -> Option<(Datum, Datum)> {
    if d is Cons && d.tail() is Cons {
        Some((d.head(), d.tail().head()))
    } else {
        None
    }
}

/// The first of a list of at least one item.
pub open spec fn one(d: Datum) -> Option<Datum> {
    if d is Cons {
        Some(d.head())
    } else {
        None
    }
}

/// The first three of a list of at least three items.
pub open spec fn three(d: Datum) -> Option<(Datum, Datum, Datum)> {
    if d is Cons && d.tail() is Cons && d.tail().tail() is Cons {
        Some((d.head(), d.tail().head(), d.tail().tail().head()))
    } else {
        None
    }
}

/// The coercion from `from` to `to`: the procedure of the first entry for
/// the two tags, if that entry holds a procedure.
pub open spec fn coercion_at(coercions: Datum, from: Datum, to: Datum) -> Option<Primitive>
    decreases coercions,
{
    match coercions {
        Datum::Cons(top, rest) => match three(*top) {
            Some((t1, t2, p)) => if t1 == from && t2 == to {
                as_procedure(p)
            } else {
                coercion_at(*rest, from, to)
            },
            None => coercion_at(*rest, from, to),
        },
        _ => None,
    }
}

/// The coercions after one from `from` to `to` is registered: the first
/// registration stays.
pub open spec fn with_coercion(coercions: Datum, from: Datum, to: Datum, p: Primitive) -> Datum {
    if coercion_at(coercions, from, to) is None {
        cons(list3(from, to, procedure_datum(p)), coercions)
    } else {
        coercions
    }
}

/// The first of a list of at least one item.
pub fn first_of(l: &List) -> (r: Option<&List>)
    ensures
        r is Some == one(l@) is Some,
        r matches Some(a) ==> Some(a@) == one(l@),
{
    match l {
        List::Cons(a, _) => Some(&**a),
        _ => None,
    }
}

/// The first and second of a list of at least two items.
pub fn first_two(l: &List) -> (r: Option<(&List, &List)>)
    ensures
        r is Some == two(l@) is Some,
        r matches Some(v) ==> Some((v.0@, v.1@)) == two(l@),
{
    match l {
        List::Cons(a, rest) => match first_of(&**rest) {
            Some(b) => Some((&**a, b)),
            None => None,
        },
        _ => None,
    }
}

/// The first three of a list of at least three items.
pub fn first_three(l: &List) -> (r: Option<(&List, &List, &List)>)
    ensures
        r is Some == three(l@) is Some,
        r matches Some(v) ==> Some((v.0@, v.1@, v.2@)) == three(l@),
{
    match l {
        List::Cons(a, rest) => match first_two(&**rest) {
            Some((b, c)) => Some((&**a, b, c)),
            None => None,
        },
        _ => None,
    }
}

/// The procedure that a list is, if it is one.
pub fn procedure_of(l: &List) -> (r: Option<ClosureWrapper>)
    ensures
        match r {
            Some(w) => as_procedure(l@) == Some(w.func),
            None => as_procedure(l@) is None,
        },
{
    match l {
        List::V(Atom::Proc(p)) => Some(*p),
        _ => None,
    }
}

fn scan_coercions(from: &List, to: &List, items: &List) -> (r: Option<ClosureWrapper>)
    ensures
        match r {
            Some(w) => coercion_at(items@, from@, to@) == Some(w.func),
            None => coercion_at(items@, from@, to@) is None,
        },
    decreases items,
{
    match items {
        List::Cons(top, rest) => {
            match first_three(&**top) {
                Some((t1, t2, p)) => {
                    if t1.equals(from) && t2.equals(to) {
                        procedure_of(p)
                    } else {
                        scan_coercions(from, to, &**rest)
                    }
                },
                None => scan_coercions(from, to, &**rest),
            }
        },
        _ => None,
    }
}

impl<K: RealKernel> ArithmeticContext<K> {
    /// A context with empty tables.
    pub fn new(kernel: K) -> (r: Self)
        ensures
            r@.ops == cons(table_marker(), Datum::Nil),
            r@.coercions is Nil,
            r.depth == DEFAULT_DEPTH,
    {
        ArithmeticContext {
            optable: make_table_2d(),
            coercion: List::Nil,
            depth: DEFAULT_DEPTH,
            kernel,
        }
    }

    /// The procedure registered for an operation and a list of type tags.
    pub fn find(&self, op: &List, signature: &List) -> (r: Option<ClosureWrapper>)
        ensures
            match r {
                Some(w) => procedure_at(self@.ops, op@, signature@) == Some(w.func),
                None => procedure_at(self@.ops, op@, signature@) is None,
            },
    {
        if !self.optable.is_pair() {
            return None;
        }
        match lookup_2d(op, signature, &self.optable) {
            Some(d) => procedure_of(d),
            None => None,
        }
    }

    /// The procedure registered under `keys`, the list of an operation and
    /// a list of type tags.
    pub fn get(&self, keys: &List) -> (r: Option<ClosureWrapper>)
        requires
            two(keys@) is Some,
        ensures
            match r {
                Some(w) => procedure_at(self@.ops, two(keys@).unwrap().0, two(keys@).unwrap().1)
                    == Some(w.func),
                None => procedure_at(self@.ops, two(keys@).unwrap().0, two(keys@).unwrap().1)
                    is None,
            },
    {
        match first_two(keys) {
            Some((op, signature)) => self.find(op, signature),
            None => None,
        }
    }

    /// Registers a procedure for the operation `key1` on the type tags
    /// `key2`, over what was registered there.
    pub fn put(&mut self, key1: &'static str, key2: List, closure: ClosureWrapper)
        ensures
            final(self)@.ops == with_procedure(
                old(self)@.ops,
                text_datum(key1@),
                key2@,
                closure.func,
            ),
            final(self)@.coercions == old(self)@.coercions,
            final(self).depth == old(self).depth,
            final(self).kernel == old(self).kernel,
    {
        if !self.optable.is_pair() {
            self.optable = List::pair(List::text("*table*"), self.optable.tail_or_nil());
        }
        insert_2d(&List::text(key1), &key2, List::V(Atom::Proc(closure)), &mut self.optable);
    }

    /// The coercion registered from `type1` to `type2`.
    pub fn get_coercion(&self, type1: &List, type2: &List) -> (r: Option<ClosureWrapper>)
        ensures
            match r {
                Some(w) => coercion_at(self@.coercions, type1@, type2@) == Some(w.func),
                None => coercion_at(self@.coercions, type1@, type2@) is None,
            },
    {
        scan_coercions(type1, type2, &self.coercion)
    }

    /// Registers a coercion from `type1` to `type2`, unless there is one.
    pub fn put_coercion(&mut self, type1: &List, type2: &List, proc: ClosureWrapper) -> (r:
        Option<List>)
        ensures
            final(self)@.coercions == with_coercion(
                old(self)@.coercions,
                type1@,
                type2@,
                proc.func,
            ),
            final(self)@.ops == old(self)@.ops,
            final(self).depth == old(self).depth,
            final(self).kernel == old(self).kernel,
            r matches Some(done) && done@ == text_datum("done"@),
    {
        if self.get_coercion(type1, type2).is_none() {
            let mut rest = List::Nil;
            core::mem::swap(&mut self.coercion, &mut rest);
            let entry = List::pair(
                type1.clone(),
                List::pair(type2.clone(), List::pair(List::V(Atom::Proc(proc)), List::Nil)),
            );
            self.coercion = List::pair(entry, rest);
        }
        Some(List::text("done"))
    }
}

} // verus!
