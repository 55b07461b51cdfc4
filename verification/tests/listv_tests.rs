use sicp_rs::kernel::Real;
use sicp_rs::value::{Atom, ListV};

fn real_of(x: f64) -> Atom {
    Real::from_bits(x.to_bits()).to_atom()
}

#[test]
fn test_listv_is_string() {
    let value: Atom = "hello".to_string().to_atom();
    assert!(value.is_string());
    assert!(!value.is_integer());
}

#[test]
fn test_listv_is_integer() {
    let value: Atom = 42.to_atom();
    assert!(value.is_integer());
    assert!(!value.is_float());
}

#[test]
fn test_listv_partial_eq() {
    let a: Atom = 42.to_atom();
    let b: Atom = 42.to_atom();
    assert_eq!(&a, &b);

    let c = real_of(3.14);
    let d = real_of(3.14);
    assert_eq!(&c, &d);
}

#[test]
fn test_listv_partial_cmp() {
    let a: Atom = 42.to_atom();
    let b: Atom = 43.to_atom();
    assert!(a < b);

    let c = real_of(3.14);
    let d = real_of(2.71);
    assert!(c > d);
}

#[test]
fn reals_order_by_value() {
    assert!(real_of(-1.5) < real_of(0.25));
    assert!(real_of(-1.5) > real_of(-2.0));
    assert!(real_of(-0.0) <= real_of(0.0) && real_of(-0.0) >= real_of(0.0));
    assert!(real_of(f64::NAN).partial_cmp(&real_of(1.0)).is_none());
    assert!(real_of(f64::NEG_INFINITY) < real_of(f64::MAX));
    assert!(42.to_atom().partial_cmp(&real_of(42.0)).is_none());
}

#[test]
fn strings_order_as_written() {
    let a: Atom = "apple".to_string().to_atom();
    let b: Atom = "apply".to_string().to_atom();
    let c: Atom = "app".to_string().to_atom();
    assert!(a < b);
    assert!(c < a);
    assert!(b > c);
    assert!(a <= "apple".to_string().to_atom());
    assert!("Zed".to_string().to_atom() < "abc".to_string().to_atom());
    assert!("z".to_string().to_atom() < "\u{e9}".to_string().to_atom());
    assert!(false.to_atom() < true.to_atom());
    assert!(a.partial_cmp(&42.to_atom()).is_none());
    let v1 = Atom::Other("Vec<i32>".to_string(), "[1, 2]".to_string());
    let v2 = Atom::Other("Vec<i32>".to_string(), "[1, 3]".to_string());
    let w = Atom::Other("Vec<u8>".to_string(), "[1, 3]".to_string());
    assert!(v1 < v2);
    assert!(v2.partial_cmp(&w).is_none());
    assert!(v2 != w);
}
