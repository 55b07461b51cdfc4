use sicp_rs::each::apply_in_underlying_rust;
use sicp_rs::list::List;
use sicp_rs::symbolic::{
    addend, augend, base, exponent, is_exp, is_number, is_product, is_same_variable, is_sum,
    is_variable, make_product, make_sum, multiplicand, multiplier, number_equal,
};
use sicp_rs::value::Atom;
use std::cell::RefCell;

fn ints(items: &[i32]) -> List {
    let leaves: Vec<List> = items.iter().map(|i| List::integer(*i)).collect();
    List::from_slice(&leaves)
}

fn int_in(l: &List) -> i32 {
    *l.try_as_basis_value::<i32>().unwrap()
}

#[test]
fn pairs_and_leaves() {
    let p = List::pair(List::integer(1), List::text("b"));
    assert!(p.is_pair() && !p.is_empty() && !p.is_value());
    assert_eq!(*p.head(), List::integer(1));
    assert_eq!(*p.tail(), List::text("b"));
    assert!(List::Nil.is_empty());
    assert!(List::integer(1).is_value());
    assert!(List::integer(1).is_number_value());
    assert!(List::integer(1).is_integer_value());
    assert!(!List::integer(1).is_float_value());
    assert!(List::text("x").is_string_value());
    assert!(!List::text("x").is_number_value());
    assert!(List::text("x").is_text("x") && !List::text("x").is_text("y"));
    assert!(List::truth(true).is_true() && !List::truth(false).is_true());
    assert_eq!(*List::integer(7).get_basis_value(), Atom::Int(7));
    assert_eq!(List::integer(7).to_listv(), List::integer(7));
    assert_eq!(List::integer(-120).to_string(), "-120");
    assert_eq!(List::integer(i32::MIN).to_string(), "-2147483648");
    assert_eq!(List::integer(0).to_string(), "0");
    assert_eq!(List::truth(false).to_string(), "false");
}

#[test]
fn reasons_for_no_value() {
    assert_eq!(List::text("x").try_as_basis_value::<i32>(), Err("Type mismatch"));
    assert_eq!(
        List::Nil.try_as_basis_value::<i32>(),
        Err("Cannot call try_as_basis_value on List::Nil")
    );
    assert_eq!(
        ints(&[1]).try_as_basis_value::<i32>(),
        Err("Cannot call try_as_basis_value on List::Cons")
    );
    assert_eq!(List::truth(true).try_as_basis_value::<bool>(), Ok(&true));
}

#[test]
fn changing_pairs() {
    let mut l = ints(&[1, 2, 3]);
    l.set_head(List::integer(9));
    assert_eq!(l, ints(&[9, 2, 3]));
    l.set_tail(ints(&[8]));
    assert_eq!(l, ints(&[9, 8]));
    assert_eq!(*ints(&[1, 2, 3]).last_pair(), ints(&[3]));
    let mut l = ints(&[1, 2]);
    l.append_mutator(ints(&[3, 4]));
    assert_eq!(l, ints(&[1, 2, 3, 4]));
    assert_eq!(List::integer(1).append(&ints(&[2])), ints(&[1, 2]));
    assert_eq!(List::Nil.append(&ints(&[2])), ints(&[2]));
}

#[test]
fn searching() {
    let l = ints(&[5, 6, 7]);
    assert_eq!(l.find_index(&List::integer(5)), Some(0));
    assert_eq!(l.find_index(&List::integer(7)), Some(2));
    assert_eq!(l.find_index(&List::integer(8)), None);
    let stopped = List::from_slice(&[List::integer(5), List::Nil, List::integer(7)]);
    assert_eq!(stopped.find_index(&List::integer(7)), None);
    assert_eq!(l.length_within(3), Some(3));
    assert_eq!(l.length_within(2), None);
}

#[test]
fn folding_from_the_right() {
    let l = ints(&[1, 2, 3]);
    let text = l.accumulate(|x, acc: String| format!("{}{}", int_in(x), acc), String::new());
    assert_eq!(text, "123");
    let left = l.fold_left(|acc: String, x| format!("{}{}", acc, int_in(x)), String::new());
    assert_eq!(left, "123");
    let diff = l.accumulate(|x, acc: i32| int_in(x) - acc, 0);
    assert_eq!(diff, 2);
    let seen = RefCell::new(Vec::new());
    l.for_each(|x| seen.borrow_mut().push(int_in(x)));
    assert_eq!(*seen.borrow(), vec![1, 2, 3]);
    let doubled = apply_in_underlying_rust(|x: &List| x.append(x), &l);
    assert_eq!(doubled, ints(&[1, 2, 3, 1, 2, 3]));
}

#[test]
fn rows_place_by_place() {
    let rows = List::from_slice(&[ints(&[1, 2, 3]), ints(&[4, 5, 6]), ints(&[7, 8, 9])]);
    let sums = rows.accumulate_n(
        |x, acc: List| List::integer(int_in(x) + int_in(&acc)),
        List::integer(0),
    );
    assert_eq!(sums, ints(&[12, 15, 18]));
    let columns = rows.accumulate_n(|x, acc: List| List::pair(x.clone(), acc), List::Nil);
    assert_eq!(
        columns,
        List::from_slice(&[ints(&[1, 4, 7]), ints(&[2, 5, 8]), ints(&[3, 6, 9])])
    );
    let none = List::from_slice(&[List::Nil, List::Nil]);
    assert_eq!(none.accumulate_n(|_, acc: List| acc, List::Nil), List::Nil);
}

#[test]
fn flattening() {
    let nested = List::from_slice(&[ints(&[1, 2]), List::Nil, List::integer(3), ints(&[4])]);
    assert_eq!(nested.flatten(), ints(&[1, 2, 3, 4]));
    assert_eq!(List::integer(3).flatten(), ints(&[3]));
}

#[test]
fn written_side_by_side() {
    let l = List::from_slice(&[
        List::integer(1),
        List::text("hello"),
        ints(&[2, 3]),
        List::Nil,
    ]);
    assert_eq!(l.pretty_print(), "(1, hello, (2, 3))");
    assert_eq!(ints(&[1, 2, 3]).pretty_print(), "(1, 2, 3)");
    assert_eq!(List::Nil.pretty_print(), "()");
    assert_eq!(List::integer(4).pretty_print(), "(4)");
}

#[test]
fn expressions() {
    let sum = make_sum(List::text("x"), List::integer(3));
    assert_eq!(sum.to_string(), "(+, (x, (3, Nil)))");
    assert!(is_sum(&sum) && !is_product(&sum) && !is_exp(&sum));
    assert_eq!(*addend(&sum), List::text("x"));
    assert_eq!(*augend(&sum), List::integer(3));
    assert_eq!(make_sum(List::integer(0), List::text("x")), List::text("x"));
    assert_eq!(make_sum(List::text("x"), List::integer(0)), List::text("x"));
    assert_eq!(make_sum(List::integer(2), List::integer(3)), List::integer(5));

    let product = make_product(List::text("x"), List::text("y"));
    assert_eq!(product.to_string(), "(*, (x, (y, Nil)))");
    assert!(is_product(&product));
    assert_eq!(*multiplier(&product), List::text("x"));
    assert_eq!(*multiplicand(&product), List::text("y"));
    assert_eq!(make_product(List::integer(0), List::text("x")), List::integer(0));
    assert_eq!(make_product(List::text("x"), List::integer(0)), List::integer(0));
    assert_eq!(make_product(List::integer(1), List::text("x")), List::text("x"));
    assert_eq!(make_product(List::text("x"), List::integer(1)), List::text("x"));
    assert_eq!(make_product(List::integer(4), List::integer(3)), List::integer(12));

    let power = List::from_slice(&[List::text("**"), List::text("x"), List::integer(2)]);
    assert!(is_exp(&power));
    assert_eq!(*base(&power), List::text("x"));
    assert_eq!(*exponent(&power), List::integer(2));

    assert!(is_number(&List::integer(1)) && !is_number(&List::text("x")));
    assert!(is_variable(&List::text("x")) && !is_variable(&List::integer(1)));
    assert!(is_same_variable(&List::text("x"), &List::text("x")));
    assert!(!is_same_variable(&List::text("x"), &List::text("y")));
    assert!(!is_same_variable(&List::integer(1), &List::integer(1)));
    assert!(number_equal(&List::integer(1), &List::integer(1)));
    assert!(!number_equal(&List::integer(1), &List::integer(2)));
}
