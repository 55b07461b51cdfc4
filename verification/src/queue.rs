//! A first-in, first-out queue.
//!
//! A queue is a pair: its head is the proper list of the items that wait,
//! the one that leaves next first; its tail is the last pair of that list,
//! kept from the latest insertion.
use vstd::prelude::*;
use crate::list::{cons, Datum, List};

verus! {

/// Whether `q` is a queue.
pub open spec fn is_queue(q: Datum) -> bool {
    q is Cons && q.head().is_list()
}

/// The items that wait in a queue, the one that leaves next first.
pub open spec fn waiting(q: Datum) -> Datum {
    q.head()
}

/// Appending to a proper list gives a proper list.
pub proof fn lemma_append_is_list(a: Datum, b: Datum)
    requires
        a.is_list(),
        b.is_list(),
    ensures
        a.append(b).is_list(),
    decreases a,
{
    match a {
        Datum::Cons(_, next) => lemma_append_is_list(*next, b),
        _ => {},
    }
}

/// An empty queue.
pub fn make_queue() -> (q: List)
    ensures
        is_queue(q@),
        waiting(q@) is Nil,
{
    List::pair(List::Nil, List::Nil)
}

/// The list of the items that wait.
pub fn front_ptr(queue: &List) -> (r: &List)
    requires
        queue@ is Cons,
    ensures
        r@ == queue@.head(),
{
    queue.head()
}

/// The last pair, as the latest insertion left it.
pub fn rear_ptr(queue: &List) -> (r: &List)
    requires
        queue@ is Cons,
    ensures
        r@ == queue@.tail(),
{
    queue.tail()
}

/// Replaces the list of the items that wait.
pub fn set_front_ptr(queue: &mut List, item: List)
    requires
        old(queue)@ is Cons,
    ensures
        final(queue)@ == cons(item@, old(queue)@.tail()),
{
    queue.set_head(item);
}

/// Replaces the last pair.
pub fn set_rear_ptr(queue: &mut List, item: List)
    requires
        old(queue)@ is Cons,
    ensures
        final(queue)@ == cons(old(queue)@.head(), item@),
{
    queue.set_tail(item);
}

/// Whether no item waits.
pub fn is_empty_queue(queue: &List) -> (r: bool)
    requires
        queue@ is Cons,
    ensures
        r == (waiting(queue@) is Nil),
{
    front_ptr(queue).is_empty()
}

/// Puts `item` at the rear.
pub fn insert_queue(queue: &mut List, item: List)
    requires
        is_queue(old(queue)@),
    ensures
        is_queue(final(queue)@),
        waiting(final(queue)@) == waiting(old(queue)@).append(cons(item@, Datum::Nil)),
        final(queue)@.tail() == cons(item@, Datum::Nil),
{
    let new_pair = List::pair(item, List::Nil);
    proof {
        assert(Datum::Nil.is_list());
        assert(new_pair@.is_list());
        lemma_append_is_list(waiting(queue@), new_pair@);
    }
    if is_empty_queue(queue) {
        set_front_ptr(queue, new_pair.clone());
        set_rear_ptr(queue, new_pair);
    } else {
        let items = front_ptr(queue).append(&new_pair);
        set_front_ptr(queue, items);
        set_rear_ptr(queue, new_pair);
    }
}

/// Takes the front item off.
pub fn delete_queue(queue: &mut List)
    requires
        is_queue(old(queue)@),
        !(waiting(old(queue)@) is Nil),
    ensures
        is_queue(final(queue)@),
        waiting(final(queue)@) == waiting(old(queue)@).tail(),
        final(queue)@.tail() == old(queue)@.tail(),
{
    let rest = front_ptr(queue).tail().clone();
    set_front_ptr(queue, rest);
}

/// The item that leaves next.
pub fn front_queue(queue: &List) -> (r: &List)
    requires
        is_queue(queue@),
        !(waiting(queue@) is Nil),
    ensures
        r@ == waiting(queue@).head(),
{
    front_ptr(queue).head()
}

} // verus!
