use sicp_rs::kernel::Real;
use sicp_rs::list::List;
use sicp_rs::value::Atom;

fn ints(items: &[i32]) -> List {
    let leaves: Vec<List> = items.iter().map(|i| List::integer(*i)).collect();
    List::from_slice(&leaves)
}

fn real_of(x: f64) -> Real {
    Real::from_bits(x.to_bits())
}

#[test]
fn list_impl_tests_test_list_creation() {
    let l = List::from_slice(&[
        List::wrap_as_list_value(1),
        List::wrap_as_list_value("hello".to_string()),
        ints(&[2, 3]).to_listv(),
        List::wrap_as_list_value(Atom::Other("Vec<i32>".to_string(), "[4, 5]".to_string())),
        List::Nil,
    ]);
    assert_eq!(
        l.to_string(),
        "(1, (hello, ((2, (3, Nil)), ([4, 5], (Nil, Nil)))))"
    );

    let empty_list = List::from_slice(&[]);
    assert!(empty_list.is_empty());
    let multi_value_list = ints(&[1, 2, 3]);
    assert_eq!(multi_value_list.length(), 3);
}

#[test]
fn test_list_head_and_tail() {
    let l = ints(&[1, 2, 3]);

    let head = l.head();
    assert!(head.is_value());
    assert_eq!(*head.try_as_basis_value::<i32>().unwrap(), 1);

    let tail = l.tail();
    assert_eq!(tail.length(), 2);

    let tail_head = tail.head();
    assert!(tail_head.is_value());
    assert_eq!(*tail_head.try_as_basis_value::<i32>().unwrap(), 2);
}

#[test]
fn list_impl_tests_test_list_length() {
    let l = ints(&[1, 2, 3]);
    assert_eq!(l.length(), 3);

    let nested = List::from_slice(&[List::integer(1), ints(&[2, 3])]);
    assert_eq!(nested.length(), 2);
    assert_eq!(nested.deep_length(), 3);
}

#[test]
fn list_impl_tests_test_list_reverse() {
    let l = ints(&[1, 2, 3]);
    let reversed = l.reverse();
    assert_eq!(reversed.to_string(), "(3, (2, (1, Nil)))");
    assert_eq!(reversed, ints(&[3, 2, 1]));

    let nested = List::from_slice(&[List::integer(1), ints(&[2, 3])]);
    let deep_reversed = nested.deep_reverse();
    assert_eq!(deep_reversed.to_string(), "((3, (2, Nil)), (1, Nil))");
}

#[test]
fn test_list_deep_reverse() {
    let nested_list = List::from_slice(&[List::integer(1), ints(&[2, 3])]);
    let deep_reversed = nested_list.deep_reverse();
    let expected = List::from_slice(&[ints(&[3, 2]), List::integer(1)]);
    assert_eq!(deep_reversed, expected);
}

#[test]
fn test_list_map() {
    let l = ints(&[1, 2, 3]);
    let mapped = l.map(|x| {
        let value = x.try_as_basis_value::<i32>().unwrap();
        List::wrap_as_list_value(value * 2)
    });
    assert_eq!(mapped.to_string(), "(2, (4, (6, Nil)))");
}

#[test]
fn test_list_mapping() {
    let l = ints(&[1, 2, 3]);
    let mapped = l.map(|x| {
        let value = x.try_as_basis_value::<i32>().unwrap();
        List::wrap_as_list_value(value * 2)
    });
    let expected = ints(&[2, 4, 6]);
    assert_eq!(mapped, expected);
}

#[test]
fn list_impl_tests_test_list_filter() {
    let l = ints(&[1, 2, 3, 4, 5]);
    let filtered = l.filter(|x| x.try_as_basis_value::<i32>().unwrap() % 2 == 0);
    assert_eq!(filtered.to_string(), "(2, (4, Nil))");

    let l = ints(&[1, 2, 3, 4]);
    let filtered = l.filter(|x| {
        let value = x.try_as_basis_value::<i32>().unwrap();
        value % 2 == 0
    });
    assert_eq!(filtered, ints(&[2, 4]));
}

#[test]
fn test_list_flatmap() {
    let l = ints(&[1, 2]);
    let flatmapped = l.flatmap(|x| {
        let value = *x.try_as_basis_value::<i32>().unwrap();
        ints(&[value, value * 10])
    });
    let expected = ints(&[1, 10, 2, 20]);
    assert_eq!(flatmapped, expected);
}

#[test]
fn list_impl_tests_test_list_fold_left() {
    let l = ints(&[1, 2, 3, 4, 5]);
    let sum = l.fold_left(|acc, x| acc + x.try_as_basis_value::<i32>().unwrap(), 0);
    assert_eq!(sum, 15);

    let l = ints(&[1, 2, 3]);
    let sum = l.fold_left(
        |acc, x| {
            let value = x.try_as_basis_value::<i32>().unwrap();
            acc + value
        },
        0,
    );
    assert_eq!(sum, 6);
}

#[test]
fn test_list_partial_eq() {
    let l1 = ints(&[1, 2, 3]);
    let l2 = ints(&[1, 2, 3]);
    let l3 = ints(&[3, 2, 1]);

    assert!(l1 == l2, "l1 and l2 should be equal");
    assert!(l1 != l3, "l1 and l3 should not be equal");
}

#[test]
fn list_impl_tests_test_list_append() {
    let l1 = ints(&[1, 2]);
    let l2 = ints(&[3, 4]);
    let appended = l1.append(&l2);
    assert_eq!(appended.to_string(), "(1, (2, (3, (4, Nil))))");
    assert_eq!(appended.length(), 4);
    assert_eq!(appended, ints(&[1, 2, 3, 4]));
}

#[test]
fn test_try_as_basis_value() {
    let l = List::from_slice(&[
        List::wrap_as_list_value(1),
        List::wrap_as_list_value("hello".to_string()),
        List::wrap_as_list_value(real_of(3.14)),
    ]);
    assert_eq!(*l.head().try_as_basis_value::<i32>().unwrap(), 1);
    assert_eq!(
        *l.tail().head().try_as_basis_value::<String>().unwrap(),
        "hello"
    );
    assert_eq!(
        f64::from_bits(
            l.tail()
                .tail()
                .head()
                .try_as_basis_value::<Real>()
                .unwrap()
                .to_bits()
        ),
        3.14
    );
}

#[test]
fn test_nested_list_operations() {
    let nested = List::from_slice(&[ints(&[1, 2]), ints(&[3, 4])]);
    assert_eq!(nested.length(), 2);
    assert_eq!(nested.deep_length(), 4);

    let mapped = nested.map(|x| {
        x.map(|y| List::wrap_as_list_value(y.try_as_basis_value::<i32>().unwrap() * 2).to_listv())
    });
    assert_eq!(mapped.to_string(), "((2, (4, Nil)), ((6, (8, Nil)), Nil))");
}

#[test]
fn test_list_length() {
    let l = ints(&[1, 2, 3]);
    assert_eq!(l.length(), 3);

    let nested_list = List::from_slice(&[List::integer(1), ints(&[2, 3])]);
    assert_eq!(nested_list.deep_length(), 3);
}

#[test]
fn test_list_reverse() {
    let l = ints(&[1, 2, 3]);
    let reversed = l.reverse();
    let expected = ints(&[3, 2, 1]);
    assert_eq!(reversed, expected);
}

#[test]
fn test_list_filter() {
    let l = ints(&[1, 2, 3, 4]);
    let filtered = l.filter(|x| {
        let value = x.try_as_basis_value::<i32>().unwrap();
        value % 2 == 0
    });
    let expected = ints(&[2, 4]);
    assert_eq!(filtered, expected);
}

#[test]
fn test_list_fold_left() {
    let l = ints(&[1, 2, 3]);
    let sum = l.fold_left(
        |acc, x| {
            let value = x.try_as_basis_value::<i32>().unwrap();
            acc + value
        },
        0,
    );
    assert_eq!(sum, 6);
}

#[test]
fn test_list_append() {
    let l1 = ints(&[1, 2]);
    let l2 = ints(&[3, 4]);
    let appended = l1.append(&l2);
    assert_eq!(appended.length(), 4);
    let expected = ints(&[1, 2, 3, 4]);
    assert_eq!(appended, expected);
}
