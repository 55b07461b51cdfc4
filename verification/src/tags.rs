//! Type tags: how a value says what type it has.
use vstd::prelude::*;
use crate::error::{ArithError, Failure};
use crate::list::{cons, text_datum, Datum, List};
use crate::value::{Atom, AtomView};

verus! {

/// The tag of the integers.
pub open spec fn integer_tag() -> Seq<char> {
    "integer"@
}

/// The tag of the rational numbers.
pub open spec fn rational_tag() -> Seq<char> {
    "rational"@
}

/// The tag of the real numbers.
pub open spec fn real_tag() -> Seq<char> {
    "real"@
}

/// The tag of the complex numbers.
pub open spec fn complex_tag() -> Seq<char> {
    "complex"@
}

/// The place of a tag in the tower of numeric types, from the integers at 0
/// up to the complex numbers at 3; -1 for any other tag.
pub open spec fn tower_index_of(tag: Seq<char>) -> int {
    if tag == integer_tag() {
        0
    } else if tag == rational_tag() {
        1
    } else if tag == real_tag() {
        2
    } else if tag == complex_tag() {
        3
    } else {
        -1
    }
}

/// The place in the tower of a tag that is any datum: only strings have
/// one.
pub open spec fn tower_index(tag: Datum) -> int {
    match tag {
        Datum::V(AtomView::Str(s)) => tower_index_of(s),
        _ => -1,
    }
}

/// `contents` under `tag`. Integers and reals carry their type themselves
/// and stay as they are.
pub open spec fn tagged(tag: Seq<char>, contents: Datum) -> Datum {
    match contents {
        Datum::V(AtomView::Int(_)) => contents,
        Datum::V(AtomView::Real(_)) => contents,
        _ => cons(text_datum(tag), contents),
    }
}

/// The type tag of a value.
pub open spec fn tag_of(datum: Datum) -> Result<Datum, Failure> {
    match datum {
        Datum::V(AtomView::Real(_)) => Ok(text_datum(real_tag())),
        Datum::V(AtomView::Int(_)) => Ok(text_datum(integer_tag())),
        Datum::Cons(tag, _) => Ok(*tag),
        _ => Err(Failure::BadTaggedDatum),
    }
}

/// What a value holds under its tag.
pub open spec fn contents_of(datum: Datum) -> Result<Datum, Failure> {
    match datum {
        Datum::V(AtomView::Real(_)) => Ok(datum),
        Datum::V(AtomView::Int(_)) => Ok(datum),
        Datum::Cons(_, rest) => Ok(*rest),
        _ => Err(Failure::BadTaggedDatum),
    }
}

/// Whether a value has the type named by `tag`.
pub open spec fn has_tag(datum: Datum, tag: Seq<char>) -> bool {
    tag_of(datum) == Ok::<Datum, Failure>(text_datum(tag))
}

/// Whether a value has a type of the tower.
pub open spec fn in_tower(datum: Datum) -> bool {
    match tag_of(datum) {
        Ok(t) => tower_index(t) >= 0,
        Err(_) => false,
    }
}

/// The four tags of the tower differ from each other.
pub proof fn lemma_tower_tags_differ()
    ensures
        tower_index_of(integer_tag()) == 0,
        tower_index_of(rational_tag()) == 1,
        tower_index_of(real_tag()) == 2,
        tower_index_of(complex_tag()) == 3,
{
    reveal_strlit("integer");
    reveal_strlit("rational");
    reveal_strlit("real");
    reveal_strlit("complex");
    assert(integer_tag().len() == 7);
    assert(rational_tag().len() == 8);
    assert(real_tag().len() == 4);
    assert(complex_tag().len() == 7);
    assert(integer_tag()[0] == 'i');
    assert(complex_tag()[0] == 'c');
}

/// Puts `contents` under `tag`.
pub fn attach_tag(tag: &str, contents: &List) -> (r: List)
    ensures
        r@ == tagged(tag@, contents@),
{
    match contents {
        List::V(Atom::Int(_)) => contents.clone(),
        List::V(Atom::Real(_)) => contents.clone(),
        _ => List::pair(List::text(tag), contents.clone()),
    }
}

/// The type tag of a value.
pub fn type_tag(datum: &List) -> (r: Result<List, ArithError>)
    ensures
        crate::error::outcome(r) == tag_of(datum@),
{
    match datum {
        List::V(Atom::Real(_)) => Ok(List::text("real")),
        List::V(Atom::Int(_)) => Ok(List::text("integer")),
        List::Cons(tag, _) => Ok((**tag).clone()),
        _ => Err(ArithError::BadTaggedDatum),
    }
}

/// What a value holds under its tag.
pub fn contents(datum: &List) -> (r: Result<List, ArithError>)
    ensures
        crate::error::outcome(r) == contents_of(datum@),
{
    match datum {
        List::V(Atom::Real(_)) => Ok(datum.clone()),
        List::V(Atom::Int(_)) => Ok(datum.clone()),
        List::Cons(_, rest) => Ok((**rest).clone()),
        _ => Err(ArithError::BadTaggedDatum),
    }
}

/// Whether a value has the type named by `tag`.
pub fn is_tagged(datum: &List, tag: &str) -> (r: bool)
    ensures
        r == has_tag(datum@, tag@),
{
    match datum {
        List::V(Atom::Real(_)) => "real".eq(tag),
        List::V(Atom::Int(_)) => "integer".eq(tag),
        List::Cons(t, _) => t.is_text(tag),
        _ => false,
    }
}

/// The place of a tag in the tower, or -1.
pub fn find_arithmetic_type_index(type_tag: &str) -> (r: i32)
    ensures
        r as int == tower_index_of(type_tag@),
{
    if type_tag.eq("integer") {
        0
    } else if type_tag.eq("rational") {
        1
    } else if type_tag.eq("real") {
        2
    } else if type_tag.eq("complex") {
        3
    } else {
        -1
    }
}

/// The place in the tower of a tag, or -1.
pub fn tag_place(tag: &List) -> (r: i32)
    ensures
        r as int == tower_index(tag@),
{
    match tag {
        List::V(Atom::Str(s)) => find_arithmetic_type_index(s.as_str()),
        _ => -1,
    }
}

/// The place in the tower of the type of a value, or -1.
pub fn tower_place(x: &List) -> (r: i32)
    ensures
        r as int == match tag_of(x@) {
            Ok(t) => tower_index(t),
            Err(_) => -1,
        },
{
    match x {
        List::V(Atom::Real(_)) => find_arithmetic_type_index("real"),
        List::V(Atom::Int(_)) => find_arithmetic_type_index("integer"),
        List::Cons(t, _) => tag_place(&**t),
        _ => -1,
    }
}

/// Whether a value has a type of the tower.
pub fn is_basis_arithmetic_type(x: &List) -> (r: bool)
    ensures
        r == in_tower(x@),
{
    tower_place(x) >= 0
}

} // verus!
