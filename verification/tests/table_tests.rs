use sicp_rs::list::List;
use sicp_rs::queue::{delete_queue, front_queue, insert_queue, is_empty_queue, make_queue};
use sicp_rs::table::{insert, insert_2d, lookup, lookup_2d, make_table, make_table_2d};

#[test]
fn ch3_3_test_insert() {
    let t = make_table();
    println!("{}", t.to_string());
    assert_eq!(t.to_string(), "(*table*, Nil)");

    let mut optable = make_table_2d();
    let deriv = List::text("deriv");
    let plus = List::text("+");
    let times = List::text("*");
    insert_2d(&deriv, &plus, List::integer(3), &mut optable);
    insert_2d(&deriv, &plus, List::integer(3), &mut optable);
    insert_2d(&deriv, &times, List::integer(4), &mut optable);

    assert_eq!(*lookup_2d(&deriv, &plus, &optable).unwrap(), List::integer(3));
    assert_eq!(*lookup_2d(&deriv, &times, &optable).unwrap(), List::integer(4));
}

#[test]
fn table_overwrites_and_misses() {
    let mut t = make_table();
    let a = List::text("a");
    let b = List::text("b");
    assert!(lookup(&a, &t).is_none());
    assert_eq!(insert(&a, List::integer(1), &mut t), Some(List::text("ok")));
    insert(&b, List::integer(2), &mut t);
    insert(&a, List::integer(10), &mut t);
    assert_eq!(*lookup(&a, &t).unwrap(), List::integer(10));
    assert_eq!(*lookup(&b, &t).unwrap(), List::integer(2));
    assert!(lookup(&List::text("c"), &t).is_none());
    assert_eq!(t.to_string(), "(*table*, ((b, 2), ((a, 10), Nil)))");
}

#[test]
fn table_2d_keeps_other_keys() {
    let mut t = make_table_2d();
    let math = List::text("math");
    let letters = List::text("letters");
    insert_2d(&math, &List::text("+"), List::integer(43), &mut t);
    insert_2d(&letters, &List::text("a"), List::integer(97), &mut t);
    insert_2d(&math, &List::text("-"), List::integer(45), &mut t);
    insert_2d(&math, &List::text("+"), List::integer(44), &mut t);
    assert_eq!(*lookup_2d(&math, &List::text("+"), &t).unwrap(), List::integer(44));
    assert_eq!(*lookup_2d(&math, &List::text("-"), &t).unwrap(), List::integer(45));
    assert_eq!(*lookup_2d(&letters, &List::text("a"), &t).unwrap(), List::integer(97));
    assert!(lookup_2d(&letters, &List::text("+"), &t).is_none());
    assert!(lookup_2d(&List::text("none"), &List::text("+"), &t).is_none());
}

#[test]
fn queue_is_first_in_first_out() {
    let mut q = make_queue();
    assert!(is_empty_queue(&q));
    insert_queue(&mut q, List::text("a"));
    insert_queue(&mut q, List::text("b"));
    insert_queue(&mut q, List::text("c"));
    assert!(!is_empty_queue(&q));
    assert_eq!(*front_queue(&q), List::text("a"));
    delete_queue(&mut q);
    assert_eq!(*front_queue(&q), List::text("b"));
    delete_queue(&mut q);
    assert_eq!(*front_queue(&q), List::text("c"));
    delete_queue(&mut q);
    assert!(is_empty_queue(&q));
}

#[test]
fn test_insert() {
    let t = make_table();
    println!("{}", t.to_string());
}
