//! Operations that apply a function to the items of a list.
use vstd::prelude::*;
use crate::list::{cons, Datum, List};

verus! {

/// Whether `fun` may be called on every item of `l`. Where `l` is a basis
/// value, it is its own single item.
pub open spec fn accepts_items<R, F: Fn(&List) -> R>(fun: F, l: List) -> bool
    decreases l,
{
    match l {
        List::Nil => true,
        List::Cons(item, next) => call_requires(fun, (&*item,)) && accepts_items(fun, *next),
        List::V(_) => call_requires(fun, (&l,)),
    }
}

/// Whether `r` can come of applying `fun` to each item of `l`.
pub open spec fn mapped<F: Fn(&List) -> List>(fun: F, l: List, r: List) -> bool
    decreases l,
{
    match l {
        List::Nil => r is Nil,
        List::Cons(item, next) => match r {
            List::Cons(first, rest) => call_ensures(fun, (&*item,), *first) && mapped(
                fun,
                *next,
                *rest,
            ),
            _ => false,
        },
        List::V(_) => call_ensures(fun, (&l,), r),
    }
}

/// Whether `r` can come of keeping the items of `l` that `fun` accepts.
pub open spec fn kept<F: Fn(&List) -> bool>(fun: F, l: List, r: Datum) -> bool
    decreases l,
{
    match l {
        List::Nil => r is Nil,
        List::Cons(item, next) => exists|keep: bool|
            {
                &&& #[trigger] call_ensures(fun, (&*item,), keep)
                &&& if keep {
                    r is Cons && r.head() == item@ && kept(fun, *next, r.tail())
                } else {
                    kept(fun, *next, r)
                }
            },
        List::V(_) => exists|keep: bool|
            {
                &&& #[trigger] call_ensures(fun, (&l,), keep)
                &&& r == if keep {
                    cons(l@, Datum::Nil)
                } else {
                    Datum::Nil
                }
            },
    }
}

/// Whether `r` can come of combining the items of `l` from the right,
/// starting from `initial`.
pub open spec fn folded_right<U, F: Fn(&List, U) -> U>(fun: F, l: List, initial: U, r: U) -> bool
    decreases l,
{
    match l {
        List::Nil => r == initial,
        List::Cons(item, next) => exists|mid: U|
            {
                &&& folded_right(fun, *next, initial, mid)
                &&& #[trigger] call_ensures(fun, (&*item, mid), r)
            },
        List::V(_) => call_ensures(fun, (&l, initial), r),
    }
}

/// Whether `r` can come of combining the items of `l` from the left,
/// starting from `acc`.
pub open spec fn folded_left<U, F: Fn(U, &List) -> U>(fun: F, l: List, acc: U, r: U) -> bool
    decreases l,
{
    match l {
        List::Nil => r == acc,
        List::Cons(item, next) => exists|mid: U|
            {
                &&& #[trigger] call_ensures(fun, (acc, &*item), mid)
                &&& folded_left(fun, *next, mid, r)
            },
        List::V(_) => call_ensures(fun, (acc, &l), r),
    }
}

/// The first item of a row; the empty list for a row without one.
pub open spec fn row_head(row: List) -> List {
    match row {
        List::Cons(h, _) => *h,
        _ => List::Nil,
    }
}

/// A row without its first item; the empty list for a row without one.
pub open spec fn row_tail(row: List) -> List {
    match row {
        List::Cons(_, t) => *t,
        _ => List::Nil,
    }
}

/// The first items of the rows of `l`.
pub open spec fn heads(l: List) -> List
    decreases l,
{
    match l {
        List::Cons(row, next) => List::Cons(Box::new(row_head(*row)), Box::new(heads(*next))),
        _ => List::Nil,
    }
}

/// The rows of `l`, each without its first item.
pub open spec fn tails(l: List) -> List
    decreases l,
{
    match l {
        List::Cons(row, next) => List::Cons(Box::new(row_tail(*row)), Box::new(tails(*next))),
        _ => List::Nil,
    }
}

/// Whether `l` is a proper list of rows, each a proper list of `width`
/// items.
pub open spec fn is_rows(l: List, width: nat) -> bool
    decreases l,
{
    match l {
        List::Nil => true,
        List::Cons(row, next) => row@.is_list() && row@.length() == width && is_rows(*next, width),
        List::V(_) => false,
    }
}

/// Whether `r` can come of combining, for each place in a row, the items
/// that the rows of `l` have at that place, from the last row to the
/// first, starting from `initial`.
pub open spec fn accumulated_n<F: Fn(&List, List) -> List>(
    op: F,
    l: List,
    initial: List,
    width: nat,
    r: List,
) -> bool
    decreases width,
{
    if width == 0 {
        r is Nil
    } else {
        match r {
            List::Cons(first, rest) => folded_right(op, heads(l), initial, *first) && accumulated_n(
                op,
                tails(l),
                initial,
                (width - 1) as nat,
                *rest,
            ),
            _ => false,
        }
    }
}

/// The rows of a list of rows of some width, without their first items,
/// are rows of one less.
pub proof fn lemma_tails_are_rows(l: List, width: nat)
    requires
        is_rows(l, width),
        width > 0,
    ensures
        is_rows(tails(l), (width - 1) as nat),
    decreases l,
{
    match l {
        List::Cons(row, next) => {
            lemma_tails_are_rows(*next, width);
        },
        _ => {},
    }
}

impl Datum {
    /// The items of the items of `self`, in one list: each item is taken as
    /// a list and these are appended in order.
    pub open spec fn flatten(self) -> Datum
        decreases self,
    {
        match self {
            Datum::Nil => Datum::Nil,
            Datum::Cons(item, next) => item.append(next.flatten()),
            Datum::V(_) => cons(self, Datum::Nil),
        }
    }
}

impl List {
    fn map_by<F: Fn(&List) -> List>(&self, fun: &F) -> (r: List)
        requires
            accepts_items(*fun, *self),
        ensures
            mapped(*fun, *self, r),
        decreases self,
    {
        match self {
            List::Nil => List::Nil,
            List::Cons(item, next) => {
                let first = fun(&**item);
                let rest = next.map_by(fun);
                List::Cons(Box::new(first), Box::new(rest))
            },
            List::V(_) => fun(self),
        }
    }

    /// Applies `fun` to each item and collects the results.
    pub fn map<F: Fn(&List) -> List>(&self, fun: F) -> (r: List)
        requires
            accepts_items(fun, *self),
        ensures
            mapped(fun, *self, r),
    {
        self.map_by(&fun)
    }

    fn accumulate_by<U, F: Fn(&List, U) -> U>(&self, fun: &F, initial: U) -> (r: U)
        requires
            forall|x: &List, u: U| call_requires(*fun, (x, u)),
        ensures
            folded_right(*fun, *self, initial, r),
        decreases self,
    {
        match self {
            List::Nil => initial,
            List::Cons(item, next) => {
                let mid = next.accumulate_by(fun, initial);
                let r = fun(&**item, mid);
                assert(folded_right(*fun, **next, initial, mid) && call_ensures(
                    *fun,
                    (&**item, mid),
                    r,
                ));
                r
            },
            List::V(_) => fun(self, initial),
        }
    }

    /// Combines the items from the right: `fun(first, fun(second, ..
    /// initial))`.
    pub fn accumulate<U, F: Fn(&List, U) -> U>(&self, fun: F, initial: U) -> (r: U)
        requires
            forall|x: &List, u: U| call_requires(fun, (x, u)),
        ensures
            folded_right(fun, *self, initial, r),
    {
        self.accumulate_by(&fun, initial)
    }

    fn filter_by<F: Fn(&List) -> bool>(&self, fun: &F) -> (r: List)
        requires
            accepts_items(*fun, *self),
        ensures
            kept(*fun, *self, r@),
        decreases self,
    {
        match self {
            List::Nil => List::Nil,
            List::Cons(item, next) => {
                let rest = next.filter_by(fun);
                let keep = fun(&**item);
                assert(call_ensures(*fun, (&**item,), keep) && kept(*fun, **next, rest@));
                if keep {
                    List::pair((**item).clone(), rest)
                } else {
                    rest
                }
            },
            List::V(_) => {
                let keep = fun(self);
                assert(call_ensures(*fun, (self,), keep));
                if keep {
                    List::pair(self.clone(), List::Nil)
                } else {
                    List::Nil
                }
            },
        }
    }

    /// The items that `fun` accepts, in their order.
    pub fn filter<F: Fn(&List) -> bool>(&self, fun: F) -> (r: List)
        requires
            accepts_items(fun, *self),
        ensures
            kept(fun, *self, r@),
    {
        self.filter_by(&fun)
    }

    /// The items of a structure taken as lists and appended in order.
    pub fn flatten(&self) -> (r: List)
        ensures
            r@ == self@.flatten(),
        decreases self,
    {
        match self {
            List::Nil => List::Nil,
            List::Cons(item, next) => {
                let rest = next.flatten();
                item.append(&rest)
            },
            List::V(_) => List::pair(self.clone(), List::Nil),
        }
    }

    /// Applies `fun` to each item and appends the lists that result.
    pub fn flatmap<F: Fn(&List) -> List>(&self, fun: F) -> (r: List)
        requires
            accepts_items(fun, *self),
        ensures
            exists|m: List| #[trigger] mapped(fun, *self, m) && r@ == m@.flatten(),
    {
        let m = self.map_by(&fun);
        m.flatten()
    }

    fn heads_of(&self) -> (r: List)
        ensures
            r == heads(*self),
        decreases self,
    {
        match self {
            List::Cons(row, next) => {
                let h = match &**row {
                    List::Cons(h, _) => (**h).clone(),
                    _ => List::Nil,
                };
                List::Cons(Box::new(h), Box::new(next.heads_of()))
            },
            _ => List::Nil,
        }
    }

    fn tails_of(&self) -> (r: List)
        ensures
            r == tails(*self),
        decreases self,
    {
        match self {
            List::Cons(row, next) => {
                let t = match &**row {
                    List::Cons(_, t) => (**t).clone(),
                    _ => List::Nil,
                };
                List::Cons(Box::new(t), Box::new(next.tails_of()))
            },
            _ => List::Nil,
        }
    }

    fn accumulate_n_by<F: Fn(&List, List) -> List>(
        &self,
        op: &F,
        initial: &List,
        width: Ghost<nat>,
    ) -> (r: List)
        requires
            *self is Cons,
            is_rows(*self, width@),
            forall|x: &List, u: List| call_requires(*op, (x, u)),
        ensures
            accumulated_n(*op, *self, *initial, width@, r),
        decreases width@,
    {
        let empty = match self {
            List::Cons(row, _) => row.is_empty(),
            _ => true,
        };
        if empty {
            proof {
                assert(width@ == 0);
            }
            List::Nil
        } else {
            proof {
                lemma_tails_are_rows(*self, width@);
            }
            let first = self.heads_of().accumulate_by(op, initial.clone());
            let rest = self.tails_of().accumulate_n_by(op, initial, Ghost((width@ - 1) as nat));
            List::Cons(Box::new(first), Box::new(rest))
        }
    }

    /// Combines the rows of a list of rows place by place: the result
    /// holds, for each place, what `accumulate` gives on the items that the
    /// rows have there.
    pub fn accumulate_n<F: Fn(&List, List) -> List>(&self, op: F, initial: List) -> (r: List)
        requires
            *self is Cons,
            exists|width: nat| is_rows(*self, width),
            forall|x: &List, u: List| call_requires(op, (x, u)),
        ensures
            exists|width: nat| is_rows(*self, width) && #[trigger] accumulated_n(
                op,
                *self,
                initial,
                width,
                r,
            ),
    {
        let ghost width = choose|width: nat| is_rows(*self, width);
        self.accumulate_n_by(&op, &initial, Ghost(width))
    }

    fn for_each_by<F: Fn(&List) -> ()>(&self, fun: &F)
        requires
            accepts_items(*fun, *self),
        decreases self,
    {
        match self {
            List::Nil => {},
            List::Cons(item, next) => {
                fun(&**item);
                next.for_each_by(fun);
            },
            List::V(_) => {
                fun(self);
            },
        }
    }

    /// Calls `fun` on each item in order.
    pub fn for_each<F: Fn(&List) -> ()>(&self, fun: F)
        requires
            accepts_items(fun, *self),
    {
        self.for_each_by(&fun)
    }

    fn fold_left_by<U, F: Fn(U, &List) -> U>(&self, fun: &F, acc: U) -> (r: U)
        requires
            forall|u: U, x: &List| call_requires(*fun, (u, x)),
        ensures
            folded_left(*fun, *self, acc, r),
        decreases self,
    {
        match self {
            List::Nil => acc,
            List::Cons(item, next) => {
                let mid = fun(acc, &**item);
                let r = next.fold_left_by(fun, mid);
                assert(call_ensures(*fun, (acc, &**item), mid) && folded_left(
                    *fun,
                    **next,
                    mid,
                    r,
                ));
                r
            },
            List::V(_) => fun(acc, self),
        }
    }

    /// Combines the items from the left: `fun(.. fun(fun(initial, first),
    /// second) ..)`.
    pub fn fold_left<U, F: Fn(U, &List) -> U>(&self, fun: F, initial: U) -> (r: U)
        requires
            forall|u: U, x: &List| call_requires(fun, (u, x)),
        ensures
            folded_left(fun, *self, initial, r),
    {
        self.fold_left_by(&fun, initial)
    }
}

/// Applies a procedure of the host language to an argument list.
pub fn apply_in_underlying_rust<F: Fn(&List) -> List>(prim: F, arglist: &List) -> (r: List)
    requires
        call_requires(prim, (arglist,)),
    ensures
        call_ensures(prim, (arglist,), r),
{
    prim(arglist)
}

} // verus!
