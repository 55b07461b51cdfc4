use sicp_rs::api::{
    apply_generic, make_complex_from_mag_ang, make_complex_from_real_imag, make_empty_term_list,
    make_float, make_integer, make_polynomial_from_dense, make_polynomial_from_sparse,
    make_rational, make_terms_from_dense, make_terms_from_sparse, unify_arithmetic_types,
};
use sicp_rs::error::ArithError;
use sicp_rs::poly::pretty_polynomial;
use sicp_rs::procedure::{ClosureWrapper, Primitive};
use sicp_rs::reals::float_to_fraction;
use sicp_rs::tags::{
    attach_tag, contents, find_arithmetic_type_index, is_basis_arithmetic_type, type_tag,
};
use sicp_rs::context::ArithmeticContext;
use sicp_rs::install::{
    install_arithmetic_package, install_dense_terms_package, install_polynomial_package,
    install_sparse_terms_package,
};
use sicp_rs::kernel::{ClosureKernel, Real, RealAnswer, RealRequest};
use sicp_rs::value::Atom;
use sicp_rs::list::List;
use sicp_rs::terms::make_term;

type Kernel = ClosureKernel<fn(RealRequest) -> RealAnswer>;

fn f(x: Real) -> f64 {
    f64::from_bits(x.bits)
}

fn r(x: f64) -> RealAnswer {
    RealAnswer::Number(Real { bits: x.to_bits() })
}

fn ieee(q: RealRequest) -> RealAnswer {
    match q {
        RealRequest::FromInt(i) => r(i as f64),
        RealRequest::Add(a, b) => r(f(a) + f(b)),
        RealRequest::Sub(a, b) => r(f(a) - f(b)),
        RealRequest::Mul(a, b) => r(f(a) * f(b)),
        RealRequest::Div(a, b) => r(f(a) / f(b)),
        RealRequest::Sqrt(a) => r(f(a).sqrt()),
        RealRequest::Magnitude(a) => r(f(a).abs()),
        RealRequest::Cos(a) => r(f(a).cos()),
        RealRequest::Sin(a) => r(f(a).sin()),
        RealRequest::Atan2(y, x) => r(f(y).atan2(f(x))),
        RealRequest::Floor(a) => RealAnswer::Whole(f(a).floor() as i32),
        RealRequest::IsZero(a) => RealAnswer::Truth(f(a) == 0.0),
        RealRequest::ApproxEq(a, b) => {
            let (a, b) = (f(a), f(b));
            let abs_epsilon = 100.0 * f64::EPSILON;
            let dynamic_epsilon = f64::EPSILON * a.abs().max(b.abs());
            RealAnswer::Truth((a - b).abs() < abs_epsilon || (a - b).abs() < dynamic_epsilon)
        }
        RealRequest::Lt(a, b) => RealAnswer::Truth(f(a) < f(b)),
        RealRequest::Le(a, b) => RealAnswer::Truth(f(a) <= f(b)),
    }
}

fn real_leaf(x: f64) -> List {
    List::V(Atom::Real(Real { bits: x.to_bits() }))
}

fn context() -> ArithmeticContext<Kernel> {
    let mut arith = ArithmeticContext::new(ClosureKernel::new(ieee as fn(RealRequest) -> RealAnswer));
    install_arithmetic_package(&mut arith);
    install_sparse_terms_package(&mut arith);
    install_dense_terms_package(&mut arith);
    install_polynomial_package(&mut arith);
    arith
}

fn poly(arith: &ArithmeticContext<Kernel>, terms: &[(i32, i32)]) -> List {
    let items: Vec<List> = terms
        .iter()
        .map(|(o, c)| make_term(List::integer(*o), List::integer(*c)))
        .collect();
    let tl = make_terms_from_sparse(&List::from_slice(&items), arith).unwrap();
    make_polynomial_from_sparse(&List::text("x"), &tl, arith).unwrap()
}


fn real_in(l: &List) -> f64 {
    match l {
        List::V(Atom::Real(x)) => f64::from_bits(x.bits),
        other => panic!("not a real: {}", other.to_string()),
    }
}

fn rat(arith: &ArithmeticContext<Kernel>, n: i32, d: i32) -> List {
    make_rational(List::integer(n), List::integer(d), arith).unwrap()
}

fn list(items: &[List]) -> List {
    List::from_slice(items)
}

fn is_failure(r: Result<List, ArithError>, expected: &str) -> bool {
    match r {
        Ok(_) => false,
        Err(e) => e.to_string() == expected,
    }
}

#[test]
fn integers_add() {
    let arith = context();
    let s = arith.add(&List::integer(2), &List::integer(3)).unwrap();
    assert_eq!(s, List::integer(5));
    assert_eq!(arith.sub(&List::integer(2), &List::integer(3)).unwrap(), List::integer(-1));
    assert_eq!(arith.mul(&List::integer(-4), &List::integer(3)).unwrap(), List::integer(-12));
    assert_eq!(arith.div(&List::integer(7), &List::integer(2)).unwrap(), List::integer(3));
    assert_eq!(arith.div(&List::integer(-7), &List::integer(2)).unwrap(), List::integer(-3));
    assert_eq!(arith.div(&List::integer(7), &List::integer(-2)).unwrap(), List::integer(-3));
    assert_eq!(arith.negative(&List::integer(7)).unwrap(), List::integer(-7));
    assert_eq!(arith.abs(&List::integer(-7)).unwrap(), List::integer(7));
    assert_eq!(arith.is_equal(&List::integer(7), &List::integer(7)).unwrap(), List::truth(true));
    assert_eq!(arith.is_equal_to_zero(&List::integer(7)).unwrap(), List::truth(false));
    assert_eq!(make_integer(9, &arith).unwrap(), List::integer(9));
    assert_eq!(arith.gcd(&List::integer(12), &List::integer(18)).unwrap(), List::integer(6));
    assert_eq!(
        arith.reduce(&List::integer(12), &List::integer(18)).unwrap(),
        list(&[List::integer(2), List::integer(3)])
    );
}

#[test]
fn integer_failures() {
    let arith = context();
    assert!(matches!(
        arith.add(&List::integer(i32::MAX), &List::integer(1)),
        Err(ArithError::Overflow)
    ));
    assert!(matches!(
        arith.negative(&List::integer(i32::MIN)),
        Err(ArithError::Overflow)
    ));
    assert!(matches!(
        arith.div(&List::integer(i32::MIN), &List::integer(-1)),
        Err(ArithError::Overflow)
    ));
    assert!(matches!(
        arith.div(&List::integer(1), &List::integer(0)),
        Err(ArithError::DivisionByZero)
    ));
    assert!(matches!(
        arith.add(&List::Nil, &List::integer(0)),
        Err(ArithError::BadTaggedDatum)
    ));
    assert!(matches!(
        arith.gcd(&List::integer(i32::MIN), &List::integer(0)),
        Err(ArithError::Overflow)
    ));
    assert!(matches!(
        ClosureWrapper::new(Primitive::IntegerAdd).call(&list(&[List::text("a"), List::integer(1)]), &arith),
        Err(ArithError::BadArgument)
    ));
}

#[test]
fn depth_limit_is_kept() {
    let arith = context().with_depth(0);
    assert!(matches!(
        arith.add(&List::integer(1), &List::integer(2)),
        Err(ArithError::DepthExceeded)
    ));
    let arith = context().with_depth(2);
    assert_eq!(arith.add(&List::integer(1), &List::integer(2)).unwrap(), List::integer(3));
    let arith = context().with_depth(1);
    assert!(matches!(
        arith.add(&List::integer(1), &List::integer(2)),
        Err(ArithError::DepthExceeded)
    ));
}

#[test]
fn tags_and_contents() {
    let x = attach_tag("rational", &List::pair(List::integer(1), List::integer(2)));
    assert_eq!(x.to_string(), "(rational, (1, 2))");
    assert_eq!(type_tag(&x).unwrap(), List::text("rational"));
    assert_eq!(contents(&x).unwrap(), List::pair(List::integer(1), List::integer(2)));
    assert_eq!(attach_tag("integer", &List::integer(5)), List::integer(5));
    assert_eq!(type_tag(&List::integer(5)).unwrap(), List::text("integer"));
    assert_eq!(type_tag(&real_leaf(0.5)).unwrap(), List::text("real"));
    assert_eq!(contents(&real_leaf(0.5)).unwrap(), real_leaf(0.5));
    assert!(matches!(type_tag(&List::Nil), Err(ArithError::BadTaggedDatum)));
    assert!(matches!(contents(&List::text("x")), Err(ArithError::BadTaggedDatum)));
    assert_eq!(find_arithmetic_type_index("integer"), 0);
    assert_eq!(find_arithmetic_type_index("rational"), 1);
    assert_eq!(find_arithmetic_type_index("real"), 2);
    assert_eq!(find_arithmetic_type_index("complex"), 3);
    assert_eq!(find_arithmetic_type_index("polynomial"), -1);
    assert!(is_basis_arithmetic_type(&x));
    assert!(!is_basis_arithmetic_type(&List::text("x")));
}

#[test]
fn rational_is_reduced() {
    let arith = context();
    let q = rat(&arith, 12, 18);
    assert_eq!(arith.numer(&q).unwrap(), List::integer(2));
    assert_eq!(arith.denom(&q).unwrap(), List::integer(3));
    let q = rat(&arith, -4, 6);
    assert_eq!(q.to_string(), "(rational, (-2, 3))");
    let q = rat(&arith, 0, 5);
    assert_eq!(q.to_string(), "(rational, (0, 1))");
    assert!(matches!(
        make_rational(List::integer(1), List::integer(0), &arith),
        Err(ArithError::DivisionByZero)
    ));
    assert!(matches!(
        make_rational(real_leaf(1.0), List::integer(2), &arith),
        Err(ArithError::BadArgument)
    ));
}

#[test]
fn rational_arithmetic() {
    let arith = context();
    let half = rat(&arith, 1, 2);
    let third = rat(&arith, 1, 3);
    assert_eq!(arith.add(&half, &third).unwrap(), rat(&arith, 5, 6));
    assert_eq!(arith.sub(&half, &third).unwrap(), rat(&arith, 1, 6));
    assert_eq!(arith.mul(&half, &third).unwrap(), rat(&arith, 1, 6));
    assert_eq!(arith.div(&half, &third).unwrap(), rat(&arith, 3, 2));
    assert_eq!(arith.negative(&half).unwrap(), rat(&arith, -1, 2));
    assert_eq!(arith.is_equal(&half, &rat(&arith, 2, 4)).unwrap(), List::truth(true));
    assert_eq!(arith.is_equal(&half, &third).unwrap(), List::truth(false));
    assert_eq!(arith.is_equal_to_zero(&rat(&arith, 0, 3)).unwrap(), List::truth(true));
    assert!(matches!(
        arith.div(&half, &rat(&arith, 0, 1)),
        Err(ArithError::DivisionByZero)
    ));
}

#[test]
fn tower_raise_and_project() {
    let arith = context();
    let up = arith.raise(&List::integer(3)).unwrap();
    assert_eq!(up, rat(&arith, 3, 1));
    assert_eq!(arith.project(&up).unwrap(), List::integer(3));
    assert_eq!(arith.project(&rat(&arith, 7, 2)).unwrap(), List::integer(3));
    assert_eq!(arith.project(&rat(&arith, -7, 2)).unwrap(), List::integer(-4));
    assert_eq!(arith.raise(&rat(&arith, 3, 4)).unwrap(), real_leaf(0.75));
    assert_eq!(arith.project(&real_leaf(0.75)).unwrap(), rat(&arith, 3, 4));
    let z = arith.raise(&real_leaf(0.75)).unwrap();
    assert_eq!(z.to_string(), format!("(complex, (rectangular, ({}, {})))", real_leaf(0.75).to_string(), real_leaf(0.0).to_string()));
    assert_eq!(arith.raise(&z).unwrap(), z);
    assert_eq!(arith.project(&z).unwrap(), real_leaf(0.75));
    assert_eq!(arith.project(&List::integer(3)).unwrap(), List::integer(3));
    let p = poly(&arith, &[(1, 1)]);
    assert_eq!(arith.raise(&p).unwrap(), p);
    assert_eq!(arith.project(&p).unwrap(), p);
    assert_eq!(arith.drop(&p).unwrap(), p);
}

#[test]
fn round_trip_through_the_tower() {
    let arith = context();
    for n in [0, 1, -1, 7, -250, i32::MAX, i32::MIN] {
        let x = List::integer(n);
        let back = arith.project(&arith.raise(&x).unwrap()).unwrap();
        assert_eq!(arith.is_equal(&back, &x).unwrap(), List::truth(true));
    }
    for x in [0.0, 1.5, -2.25, 1e300] {
        let x = real_leaf(x);
        let back = arith.project(&arith.raise(&x).unwrap()).unwrap();
        assert_eq!(back, x);
        assert_eq!(arith.is_equal(&back, &x).unwrap(), List::truth(true));
    }
    for (n, d) in [(1, 2), (-3, 4), (22, 7), (5, 1)] {
        let x = rat(&arith, n, d);
        let back = arith.project(&arith.raise(&x).unwrap()).unwrap();
        assert_eq!(arith.is_equal(&back, &x).unwrap(), List::truth(true));
    }
}

#[test]
fn drop_goes_as_far_as_nothing_is_lost() {
    let arith = context();
    let z = make_complex_from_real_imag(real_leaf(1.5), real_leaf(0.0), &arith).unwrap();
    assert_eq!(arith.drop(&z).unwrap(), rat(&arith, 3, 2));
    let z = make_complex_from_real_imag(real_leaf(2.0), real_leaf(0.0), &arith).unwrap();
    assert_eq!(arith.drop(&z).unwrap(), List::integer(2));
    assert_eq!(arith.drop_to_type(&z, "real".to_string()).unwrap(), real_leaf(2.0));
    assert_eq!(arith.drop_to_type(&z, "rational".to_string()).unwrap(), rat(&arith, 2, 1));
    let z = make_complex_from_real_imag(real_leaf(2.0), real_leaf(1.0), &arith).unwrap();
    assert_eq!(arith.drop(&z).unwrap(), z);
    assert_eq!(arith.drop(&rat(&arith, 4, 2)).unwrap(), List::integer(2));
    assert_eq!(arith.drop(&rat(&arith, 1, 2)).unwrap(), rat(&arith, 1, 2));
}

#[test]
fn drop_is_idempotent() {
    let arith = context();
    let values = [
        List::integer(4),
        rat(&arith, 6, 3),
        rat(&arith, 1, 3),
        real_leaf(0.125),
        real_leaf(3.0),
        make_complex_from_real_imag(real_leaf(0.5), real_leaf(0.0), &arith).unwrap(),
        make_complex_from_real_imag(real_leaf(0.5), real_leaf(2.0), &arith).unwrap(),
        poly(&arith, &[(2, 1)]),
    ];
    for x in values.iter() {
        let once = arith.drop(x).unwrap();
        assert_eq!(arith.drop(&once).unwrap(), once);
    }
}

#[test]
fn dispatch_is_deterministic() {
    let arith = context();
    let x = rat(&arith, 3, 7);
    let y = real_leaf(0.3);
    let args = list(&[x, y]);
    let first = apply_generic(&List::text("mul"), &args, &arith).unwrap();
    let second = apply_generic(&List::text("mul"), &args, &arith).unwrap();
    assert_eq!(first, second);
    let bad = list(&[List::text("a"), List::text("b")]);
    let first = apply_generic(&List::text("mul"), &bad, &arith).unwrap_err();
    let second = apply_generic(&List::text("mul"), &bad, &arith).unwrap_err();
    assert_eq!(first.to_string(), second.to_string());
}

#[test]
fn mixed_tower_add() {
    let arith = context();
    let q = rat(&arith, 1, 2);
    let s = arith.add(&List::integer(1), &q).unwrap();
    assert_eq!(s, rat(&arith, 3, 2));
    let t = arith.add(&q, &real_leaf(0.25)).unwrap();
    assert_eq!(t, real_leaf(0.75));
    let u = arith.add(&List::integer(1), &real_leaf(0.25)).unwrap();
    assert_eq!(u, real_leaf(1.25));
    let (a, b) = unify_arithmetic_types(List::integer(2), real_leaf(0.5), &arith).unwrap();
    assert_eq!(a, real_leaf(2.0));
    assert_eq!(b, real_leaf(0.5));
    let (a, b) = unify_arithmetic_types(rat(&arith, 1, 2), List::integer(2), &arith).unwrap();
    assert_eq!(a, rat(&arith, 1, 2));
    assert_eq!(b, rat(&arith, 2, 1));
}

#[test]
fn reals_by_the_kernel() {
    let arith = context();
    assert_eq!(make_float(sicp_rs::kernel::Real::from_bits(2.5f64.to_bits()), &arith).unwrap(), real_leaf(2.5));
    assert_eq!(arith.add(&real_leaf(1.5), &real_leaf(2.0)).unwrap(), real_leaf(3.5));
    assert_eq!(arith.sub(&real_leaf(1.5), &real_leaf(2.0)).unwrap(), real_leaf(-0.5));
    assert_eq!(arith.mul(&real_leaf(1.5), &real_leaf(2.0)).unwrap(), real_leaf(3.0));
    assert_eq!(arith.div(&real_leaf(1.5), &real_leaf(2.0)).unwrap(), real_leaf(0.75));
    assert_eq!(arith.negative(&real_leaf(1.5)).unwrap(), real_leaf(-1.5));
    assert_eq!(arith.abs(&real_leaf(-1.5)).unwrap(), real_leaf(1.5));
    assert_eq!(arith.sqrt(&real_leaf(2.25)).unwrap(), real_leaf(1.5));
    assert_eq!(arith.is_equal(&real_leaf(0.1 + 0.2), &real_leaf(0.3)).unwrap(), List::truth(true));
    assert_eq!(arith.is_equal(&real_leaf(0.1), &real_leaf(0.3)).unwrap(), List::truth(false));
    assert_eq!(arith.is_equal_to_zero(&real_leaf(0.0)).unwrap(), List::truth(true));
    assert!(matches!(
        arith.div(&real_leaf(1.5), &real_leaf(0.0)),
        Err(ArithError::DivisionByZero)
    ));
    assert_eq!(arith.sqrt(&List::integer(16)).unwrap(), List::integer(4));
    assert_eq!(arith.sqrt(&rat(&arith, 9, 4)).unwrap(), rat(&arith, 3, 2));
    let z = make_complex_from_real_imag(real_leaf(1.0), real_leaf(0.0), &arith).unwrap();
    assert!(matches!(arith.sqrt(&z), Err(ArithError::BadArgument)));
}

#[test]
fn fractions_near_reals() {
    let k = ClosureKernel::new(ieee as fn(RealRequest) -> RealAnswer);
    let at = |x: f64| sicp_rs::kernel::Real::from_bits(x.to_bits());
    assert_eq!(float_to_fraction(&k, at(0.75), 1000).unwrap(), (3, 4));
    assert_eq!(float_to_fraction(&k, at(-0.75), 1000).unwrap(), (-3, 4));
    assert_eq!(float_to_fraction(&k, at(5.0), 1000).unwrap(), (5, 1));
    assert_eq!(float_to_fraction(&k, at(0.0), 1000).unwrap(), (0, 1));
    assert_eq!(float_to_fraction(&k, at(std::f64::consts::PI), 1000).unwrap(), (355, 113));
    assert_eq!(float_to_fraction(&k, at(std::f64::consts::PI), 100).unwrap(), (22, 7));
    let (n, d) = float_to_fraction(&k, at(f64::NAN), 1000).unwrap();
    assert!(d <= 1000 && n.abs() <= 1);
}

#[test]
fn complex_numbers() {
    let arith = context();
    let z1 = make_complex_from_real_imag(List::integer(1), List::integer(2), &arith).unwrap();
    let z2 = make_complex_from_real_imag(List::integer(3), List::integer(4), &arith).unwrap();
    assert_eq!(z1.to_string(), "(complex, (rectangular, (1, 2)))");
    let sum = arith.add(&z1, &z2).unwrap();
    assert_eq!(sum, make_complex_from_real_imag(List::integer(4), List::integer(6), &arith).unwrap());
    let diff = arith.sub(&z1, &z2).unwrap();
    assert_eq!(diff, make_complex_from_real_imag(List::integer(-2), List::integer(-2), &arith).unwrap());
    assert_eq!(arith.real_part(&z1).unwrap(), List::integer(1));
    assert_eq!(arith.imag_part(&z1).unwrap(), List::integer(2));
    assert_eq!(arith.negative(&z1).unwrap(), make_complex_from_real_imag(List::integer(-1), List::integer(-2), &arith).unwrap());
    assert_eq!(arith.is_equal(&z1, &z1).unwrap(), List::truth(true));
    assert_eq!(arith.is_equal(&z1, &z2).unwrap(), List::truth(false));
    assert_eq!(arith.is_equal_to_zero(&z1).unwrap(), List::truth(false));
    let z = make_complex_from_real_imag(List::integer(3), List::integer(4), &arith).unwrap();
    assert_eq!(arith.magnitude(&z).unwrap(), List::integer(5));

    let i = make_complex_from_real_imag(real_leaf(0.0), real_leaf(1.0), &arith).unwrap();
    let square = arith.mul(&i, &i).unwrap();
    assert!((real_in(&arith.real_part(&square).unwrap()) + 1.0).abs() < 1e-12);
    assert!(real_in(&arith.imag_part(&square).unwrap()).abs() < 1e-12);
    let unit = arith.div(&i, &i).unwrap();
    assert!((real_in(&arith.real_part(&unit).unwrap()) - 1.0).abs() < 1e-12);
    assert!((real_in(&arith.angle(&i).unwrap()) - std::f64::consts::FRAC_PI_2).abs() < 1e-12);

    let w = make_complex_from_mag_ang(real_leaf(2.0), real_leaf(0.0), &arith).unwrap();
    assert_eq!(w.to_string(), format!("(complex, (polar, ({}, {})))", real_leaf(2.0).to_string(), real_leaf(0.0).to_string()));
    assert_eq!(arith.real_part(&w).unwrap(), real_leaf(2.0));
    assert_eq!(arith.magnitude(&w).unwrap(), real_leaf(2.0));
    assert_eq!(arith.project(&w).unwrap(), real_leaf(2.0));
    assert!((real_in(&arith.angle(&z1).unwrap()) - 2f64.atan2(1.0)).abs() < 1e-12);
    let odd = make_complex_from_real_imag(List::text("a"), List::text("b"), &arith).unwrap();
    assert!(matches!(arith.angle(&odd), Err(ArithError::BadArgument)));
    let whole = arith.mul(&z1, &z2).unwrap();
    assert!((real_in(&arith.real_part(&whole).unwrap()) + 5.0).abs() < 1e-9);
    assert!((real_in(&arith.imag_part(&whole).unwrap()) - 10.0).abs() < 1e-9);
}

#[test]
fn same_type_miss_is_fatal() {
    let mut arith = context();
    arith.put_coercion(
        &List::text("integer"),
        &List::text("integer"),
        ClosureWrapper::new(Primitive::Identity),
    );
    let r = arith.apply_generic("frobnicate", &list(&[List::integer(1), List::integer(2)]));
    match r {
        Err(ArithError::NoMethod { op, args }) => {
            assert_eq!(op, List::text("frobnicate"));
            assert_eq!(args, list(&[List::integer(1), List::integer(2)]));
        }
        other => panic!("{:?}", other),
    }
    assert!(is_failure(
        arith.apply_generic("frobnicate", &list(&[List::integer(1), List::integer(2)])),
        "no method for these types op:frobnicate, args:(1, (2, Nil))"
    ));
    let one = arith.apply_generic("frobnicate", &list(&[List::integer(1)]));
    assert!(matches!(one, Err(ArithError::NoMethod { .. })));
    let three = arith.apply_generic(
        "add",
        &list(&[List::integer(1), List::integer(2), List::integer(3)]),
    );
    assert!(matches!(three, Err(ArithError::NoMethod { .. })));
}

#[test]
fn coercion_goes_one_way() {
    let mut arith = context();
    let rect = List::text("rectangular");
    let polar = List::text("polar");
    assert!(arith.get_coercion(&rect, &polar).is_none());
    assert_eq!(
        arith.put_coercion(&rect, &polar, ClosureWrapper::new(Primitive::RectToPolar)),
        Some(List::text("done"))
    );
    assert_eq!(arith.get_coercion(&rect, &polar), Some(ClosureWrapper::new(Primitive::RectToPolar)));
    assert!(arith.get_coercion(&polar, &rect).is_none());
    arith.put_coercion(&rect, &polar, ClosureWrapper::new(Primitive::Identity));
    assert_eq!(arith.get_coercion(&rect, &polar), Some(ClosureWrapper::new(Primitive::RectToPolar)));

    let z = attach_tag("rectangular", &List::pair(real_leaf(3.0), real_leaf(0.0)));
    let w = attach_tag("polar", &List::pair(real_leaf(3.0), real_leaf(0.0)));
    assert_eq!(arith.is_equal(&z, &w).unwrap(), List::truth(true));
    assert_eq!(arith.is_equal(&w, &z).unwrap(), List::truth(true));
    match arith.add(&z, &w) {
        Err(ArithError::NoMethod { op, args }) => {
            assert_eq!(op, List::text("add"));
            assert_eq!(args, list(&[w.clone(), w.clone()]));
        }
        other => panic!("{:?}", other),
    }
    let bare = context();
    assert!(matches!(bare.is_equal(&z, &w), Err(ArithError::NoMethod { .. })));
}

#[test]
fn coercion_that_gets_nowhere_ends() {
    let mut arith = context();
    arith.put_coercion(
        &List::text("rectangular"),
        &List::text("polar"),
        ClosureWrapper::new(Primitive::Identity),
    );
    let z = attach_tag("rectangular", &List::pair(real_leaf(3.0), real_leaf(0.0)));
    let w = attach_tag("polar", &List::pair(real_leaf(3.0), real_leaf(0.0)));
    assert!(matches!(arith.add(&z, &w), Err(ArithError::DepthExceeded)));
}

#[test]
fn table_of_operations() {
    let mut arith: ArithmeticContext<Kernel> =
        ArithmeticContext::new(ClosureKernel::new(ieee as fn(RealRequest) -> RealAnswer));
    let keys = list(&[List::text("add"), list(&[List::text("integer"), List::text("integer")])]);
    assert!(arith.get(&keys).is_none());
    arith.put(
        "add",
        list(&[List::text("integer"), List::text("integer")]),
        ClosureWrapper::new(Primitive::IntegerMul),
    );
    assert_eq!(arith.get(&keys), Some(ClosureWrapper::new(Primitive::IntegerMul)));
    arith.put(
        "add",
        list(&[List::text("integer"), List::text("integer")]),
        ClosureWrapper::new(Primitive::IntegerAdd),
    );
    assert_eq!(arith.get(&keys), Some(ClosureWrapper::new(Primitive::IntegerAdd)));
    let other = list(&[List::text("add"), list(&[List::text("integer")])]);
    assert!(arith.get(&other).is_none());
    assert!(matches!(
        arith.add(&List::integer(1), &List::integer(2)),
        Err(ArithError::NoMethod { .. })
    ));
    arith.put("make", list(&[List::text("integer")]), ClosureWrapper::new(Primitive::IntegerMake));
    assert_eq!(arith.add(&List::integer(1), &List::integer(2)).unwrap(), List::integer(3));
}

#[test]
fn polynomial_sum() {
    let arith = context();
    let pa = poly(&arith, &[(2, 4), (1, 3), (0, 7)]);
    let pb = poly(&arith, &[(2, 5), (1, 2), (0, 10)]);
    let sum = arith.add(&pa, &pb).unwrap();
    assert_eq!(sum, poly(&arith, &[(2, 9), (1, 5), (0, 17)]));
    assert_eq!(
        sum.to_string(),
        "(polynomial, (x, (sparse, ((2, (9, Nil)), ((1, (5, Nil)), ((0, (17, Nil)), Nil))))))"
    );
    assert_eq!(pretty_polynomial(&sum, &arith).unwrap(), "(polynomial:9x^2 + 5x^1 + 17)");
}

#[test]
fn polynomial_product() {
    let arith = context();
    let pa = poly(&arith, &[(2, 4), (1, 3), (0, 7)]);
    let pb = poly(&arith, &[(2, 5), (1, 2), (0, 10)]);
    let product = arith.mul(&pa, &pb).unwrap();
    assert_eq!(product, poly(&arith, &[(4, 20), (3, 23), (2, 81), (1, 44), (0, 70)]));
    assert_eq!(
        pretty_polynomial(&product, &arith).unwrap(),
        "(polynomial:20x^4 + 23x^3 + 81x^2 + 44x^1 + 70)"
    );
}

#[test]
fn polynomial_difference_and_zero() {
    let arith = context();
    let pa = poly(&arith, &[(2, 4), (1, 3), (0, 7)]);
    let pb = poly(&arith, &[(2, 4), (1, 2), (0, 10)]);
    assert_eq!(arith.sub(&pa, &pb).unwrap(), poly(&arith, &[(1, 1), (0, -3)]));
    assert_eq!(arith.negative(&pa).unwrap(), poly(&arith, &[(2, -4), (1, -3), (0, -7)]));
    let zero = arith.sub(&pa, &pa).unwrap();
    assert_eq!(zero, poly(&arith, &[]));
    assert_eq!(arith.is_equal_to_zero(&zero).unwrap(), List::truth(true));
    assert_eq!(arith.is_equal_to_zero(&pa).unwrap(), List::truth(false));
    assert_eq!(pretty_polynomial(&zero, &arith).unwrap(), "(polynomial:Nil)");
    assert_eq!(make_empty_term_list(&arith).unwrap().to_string(), "(sparse, Nil)");
}

#[test]
fn polynomial_variables_must_agree() {
    let arith = context();
    let px = poly(&arith, &[(1, 1)]);
    let tl = make_terms_from_sparse(
        &list(&[make_term(List::integer(1), List::integer(1))]),
        &arith,
    )
    .unwrap();
    let py = make_polynomial_from_sparse(&List::text("y"), &tl, &arith).unwrap();
    assert!(matches!(arith.add(&px, &py), Err(ArithError::VariableMismatch)));
    assert!(matches!(arith.mul(&px, &py), Err(ArithError::VariableMismatch)));
    assert!(matches!(arith.sub(&px, &py), Err(ArithError::VariableMismatch)));
    assert!(matches!(arith.gcd(&px, &py), Err(ArithError::VariableMismatch)));
    assert!(is_failure(arith.add(&px, &py), "polynomials not in the same variable"));
}

#[test]
fn polynomial_gcd() {
    let arith = context();
    let pa = poly(&arith, &[(4, 1), (3, -1), (2, -2), (1, 2)]);
    let pb = poly(&arith, &[(3, 1), (1, -1)]);
    let g = arith.gcd(&pa, &pb).unwrap();
    let expected = poly(&arith, &[(2, 1), (1, -1)]);
    let opposite = poly(&arith, &[(2, -1), (1, 1)]);
    assert!(g == expected || g == opposite, "{}", g.to_string());

    let a = poly(&arith, &[(2, 1), (1, -2), (0, 1)]);
    let q1 = arith.mul(&a, &poly(&arith, &[(2, 11), (0, 7)])).unwrap();
    let q2 = arith.mul(&a, &poly(&arith, &[(1, 13), (0, 5)])).unwrap();
    let g = arith.gcd(&q1, &q2).unwrap();
    let minus_a = arith.negative(&a).unwrap();
    assert!(g == a || g == minus_a, "{}", g.to_string());
}

#[test]
fn polynomial_division_and_reduction() {
    let arith = context();
    let dividend = poly(&arith, &[(5, 1), (0, -1)]);
    let divisor = poly(&arith, &[(2, 1), (0, -1)]);
    let qr = arith.div(&dividend, &divisor).unwrap();
    let quotient = qr.head().clone();
    let remainder = qr.tail().head().clone();
    assert_eq!(quotient, poly(&arith, &[(3, 1), (1, 1)]));
    assert_eq!(remainder, poly(&arith, &[(1, 1), (0, -1)]));
    let back = arith.add(&arith.mul(&quotient, &divisor).unwrap(), &remainder).unwrap();
    assert_eq!(back, dividend);
    assert!(matches!(
        arith.div(&dividend, &poly(&arith, &[])),
        Err(ArithError::DivisionByZero)
    ));

    let n = poly(&arith, &[(2, 1), (0, -1)]);
    let d = poly(&arith, &[(2, 1), (1, -2), (0, 1)]);
    let nd = arith.reduce(&n, &d).unwrap();
    let rn = nd.head().clone();
    let rd = nd.tail().head().clone();
    let plus = (poly(&arith, &[(1, 1), (0, 1)]), poly(&arith, &[(1, 1), (0, -1)]));
    let minus = (poly(&arith, &[(1, -1), (0, -1)]), poly(&arith, &[(1, -1), (0, 1)]));
    assert!((rn.clone(), rd.clone()) == plus || (rn, rd) == minus);
}

#[test]
fn dense_term_lists() {
    let arith = context();
    let coeffs = list(&[List::integer(1), List::integer(-2), List::integer(1)]);
    let dense = make_terms_from_dense(&coeffs, &arith).unwrap();
    assert_eq!(dense.to_string(), "(dense, (1, (-2, (1, Nil))))");
    let first = arith.first_term(&dense).unwrap();
    assert_eq!(first.to_string(), "(sparse, ((2, (1, Nil)), Nil))");
    let rest = arith.rest_terms(&dense).unwrap();
    assert_eq!(rest.to_string(), "(dense, (-2, (1, Nil)))");
    let p = make_polynomial_from_dense(&List::text("x"), &dense, &arith).unwrap();
    let q = poly(&arith, &[(1, 2), (0, 3)]);
    assert_eq!(arith.add(&q, &p).unwrap().to_string(), "(polynomial, (x, (dense, (1, (0, (4, Nil))))))");
    assert_eq!(pretty_polynomial(&p, &arith).unwrap(), "(polynomial:1x^2 + -2x^1 + 1)");

    let empty = make_terms_from_dense(&List::Nil, &arith).unwrap();
    let term = |o: i32, c: i32| {
        make_terms_from_sparse(
            &list(&[make_term(List::integer(o), List::integer(c))]),
            &arith,
        )
        .unwrap()
    };
    let grown = arith.adjoin_term(&term(2, 5), &empty).unwrap();
    assert_eq!(grown.to_string(), "(dense, (5, (0, (0, Nil))))");
    let same = arith.adjoin_term(&term(2, 1), &grown).unwrap();
    assert_eq!(same.to_string(), "(dense, (6, (0, (0, Nil))))");
    let skipped = arith.adjoin_term(&term(7, 0), &grown).unwrap();
    assert_eq!(skipped, grown);
    assert!(matches!(
        arith.adjoin_term(&term(1, 5), &grown),
        Err(ArithError::OrderingViolation)
    ));
}

#[test]
fn sparse_term_lists() {
    let arith = context();
    let term = |o: i32, c: i32| {
        make_terms_from_sparse(
            &list(&[make_term(List::integer(o), List::integer(c))]),
            &arith,
        )
        .unwrap()
    };
    let empty = make_empty_term_list(&arith).unwrap();
    let one = arith.adjoin_term(&term(1, 5), &empty).unwrap();
    assert_eq!(one.to_string(), "(sparse, ((1, (5, Nil)), Nil))");
    let two = arith.adjoin_term(&term(3, 2), &one).unwrap();
    assert_eq!(two.to_string(), "(sparse, ((3, (2, Nil)), ((1, (5, Nil)), Nil)))");
    assert_eq!(arith.adjoin_term(&term(9, 0), &two).unwrap(), two);
    assert!(matches!(
        arith.adjoin_term(&term(2, 1), &two),
        Err(ArithError::OrderingViolation)
    ));
    assert_eq!(arith.first_term(&two).unwrap(), term(3, 2));
    assert_eq!(arith.rest_terms(&two).unwrap(), one);
    assert_eq!(arith.rest_terms(&empty).unwrap(), empty);
    assert!(matches!(arith.first_term(&empty), Err(ArithError::BadArgument)));
}

#[test]
fn polynomials_over_rationals_and_polynomials() {
    let arith = context();
    let half = rat(&arith, 1, 2);
    let tl = make_terms_from_sparse(
        &list(&[make_term(List::integer(1), half.clone()), make_term(List::integer(0), List::integer(1))]),
        &arith,
    )
    .unwrap();
    let p = make_polynomial_from_sparse(&List::text("x"), &tl, &arith).unwrap();
    let sum = arith.add(&p, &p).unwrap();
    assert_eq!(
        pretty_polynomial(&sum, &arith).unwrap(),
        "(polynomial:(rational, (1, 1))x^1 + 2)"
    );
    let inner = poly(&arith, &[(1, 1), (0, 1)]);
    let tl = make_terms_from_sparse(
        &list(&[make_term(List::integer(2), inner.clone())]),
        &arith,
    )
    .unwrap();
    let outer = make_polynomial_from_sparse(&List::text("x"), &tl, &arith).unwrap();
    assert_eq!(
        pretty_polynomial(&arith.add(&outer, &outer).unwrap(), &arith).unwrap(),
        "(polynomial:(polynomial:2x^1 + 2)x^2)"
    );
    let f = make_rational(inner.clone(), poly(&arith, &[(1, 1)]), &arith).unwrap();
    assert!(matches!(arith.project(&f), Err(ArithError::NoResult)));
    assert!(is_failure(arith.project(&f), "no result"));
}

#[test]
fn installing_twice_changes_nothing() {
    let once = context();
    let mut twice = context();
    install_arithmetic_package(&mut twice);
    install_sparse_terms_package(&mut twice);
    install_dense_terms_package(&mut twice);
    install_polynomial_package(&mut twice);
    assert_eq!(once.optable, twice.optable);
    assert_eq!(
        twice.add(&List::integer(2), &rat(&twice, 1, 2)).unwrap(),
        rat(&once, 5, 2)
    );
}

#[test]
fn long_polynomials_fit_the_default_depth() {
    let arith = context();
    let terms: Vec<(i32, i32)> = (0..300).rev().map(|o| (o, 1)).collect();
    let p = poly(&arith, &terms);
    let doubled: Vec<(i32, i32)> = (0..300).rev().map(|o| (o, 2)).collect();
    assert_eq!(arith.add(&p, &p).unwrap(), poly(&arith, &doubled));
    let short = poly(&arith, &[(1, 1), (0, 1)]);
    let product = arith.mul(&p, &short).unwrap();
    let mut expected: Vec<(i32, i32)> = vec![(300, 1)];
    expected.extend((1..300).rev().map(|o| (o, 2)));
    expected.push((0, 1));
    assert_eq!(product, poly(&arith, &expected));
}
