use slipstream::mask::{m16, m32, m64, m8, msize};
use slipstream::types::m32x4;
use slipstream::Mask;

#[test]
fn mask_converts_to_and_from_bool() {
    assert!(m8::true_value().bool());
    assert!(!m8::false_value().bool());
    assert!(m16::from_bool(true).bool());
    assert!(!m64::from_bool(false).bool());
    assert_eq!(msize::from_bool(true), msize::true_value());
    assert_eq!(m32::from_bool(false), m32::false_value());
    assert!(bool::true_value());
    assert!(!bool::false_value());
    assert!(bool::from_bool(true).bool());
}

#[test]
fn mask_bool_is_comparison_with_true() {
    for b in [false, true] {
        let m = m32::from_bool(b);
        assert_eq!(m.bool(), m == m32::true_value());
    }
}

#[test]
fn mask_not_is_an_involution() {
    for b in [false, true] {
        let m = m16::from_bool(b);
        assert_eq!(!!m, m);
        assert_eq!((!m).bool(), !b);
    }
    let v = m32x4::new(&[
        m32::true_value(),
        m32::false_value(),
        m32::false_value(),
        m32::true_value(),
    ]);
    assert_eq!(!!v, v);
}

#[test]
fn mask_operators_are_the_logical_ones() {
    for a in [false, true] {
        for b in [false, true] {
            let x = m8::from_bool(a);
            let y = m8::from_bool(b);
            assert_eq!((x & y).bool(), a & b);
            assert_eq!((x | y).bool(), a | b);
            assert_eq!((x ^ y).bool(), a ^ b);
            let p = msize::from_bool(a);
            let q = msize::from_bool(b);
            assert_eq!((p & q).bool(), a & b);
            assert_eq!((p | q).bool(), a | b);
            assert_eq!((p ^ q).bool(), a ^ b);
        }
    }
}
