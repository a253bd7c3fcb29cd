use std::num::Wrapping;
use std::ops::Deref;

use slipstream::align::Align4;
use slipstream::mask::m32;
use slipstream::types::{i32x4, m32x4, u16x4, u32x2, u32x4, u8x8, usizex4, wu8x4};
use slipstream::vector::{enabled_in_bounds, indices_in_bounds};
use slipstream::{Mask, Vector};

type V = u16x4;

fn t() -> m32 {
    m32::true_value()
}

fn f() -> m32 {
    m32::false_value()
}

#[test]
fn minmax() {
    let a = u32x4::new(&[1, 4, 8, 9]);
    let b = u32x4::new(&[3, 3, 5, 11]);

    assert_eq!(a.minimum(b), u32x4::new(&[1, 3, 5, 9]));
    assert_eq!(a.maximum(b), u32x4::new(&[3, 4, 8, 11]));
    assert_eq!(a.minimum(b), b.minimum(a));
    assert_eq!(a.maximum(b), b.maximum(a));
    assert_eq!(a.maximum(b).ge(a.minimum(b)), m32x4::splat(m32::true_value()));
}

#[test]
fn round_trip() {
    let orig = [1, 2, 3, 4];
    assert_eq!(<[u16; 4]>::from(u16x4::from(orig)), orig);
}

#[test]
fn shuffle() {
    let v1 = V::new(&[1, 2, 3, 4]);
    let v2 = V::gather_load(v1.as_slice(), &[3, 1, 2, 0]);
    assert_eq!(v2.deref(), &[4, 2, 3, 1]);
    let v3 = V::gather_load(v2.as_slice(), &[0, 0, 2, 2]);
    assert_eq!(v3.deref(), &[4, 4, 3, 3]);
}

#[test]
fn gather() {
    let data = (1..=10).collect::<Vec<_>>();
    let v = V::gather_load(&data, &[0, 2, 4, 6]);
    assert_eq!(v, [1, 3, 5, 7]);
}

#[test]
fn scatter() {
    let v = V::new(&[1, 2, 3, 4]);
    let mut output = [0; 10];
    v.scatter_store(&mut output, &[1, 3, 5, 7]);
    assert_eq!(output, [0, 1, 0, 2, 0, 3, 0, 4, 0, 0]);
}

#[test]
fn cmp() {
    let v1 = u32x4::new(&[1, 3, 5, 7]);
    let v2 = u32x4::new(&[2, 3, 4, 5]);

    assert_eq!(v1.eq(v2), m32x4::new(&[f(), t(), f(), f()]));
    assert_eq!(v1.le(v2), m32x4::new(&[t(), t(), f(), f()]));
    assert_eq!(v1.ge(v2), m32x4::new(&[f(), t(), t(), t()]));
}

#[test]
fn blend() {
    let v1 = u32x4::new(&[1, 2, 3, 4]);
    let v2 = u32x4::new(&[5, 6, 7, 8]);

    let b1 = v1.blend(v2, m32x4::new(&[f(), t(), f(), t()]).as_slice());
    assert_eq!(b1, u32x4::new(&[1, 6, 3, 8]));

    let b2 = v1.blend(v2, &[false, true, false, true]);
    assert_eq!(b1, b2);
}

#[test]
fn strict_comparisons() {
    let v1 = u32x4::new(&[1, 3, 5, 7]);
    let v2 = u32x4::new(&[2, 3, 4, 5]);

    assert_eq!(v1.lt(v2), m32x4::new(&[t(), f(), f(), f()]));
    assert_eq!(v1.gt(v2), m32x4::new(&[f(), f(), t(), t()]));
}

#[test]
fn splat_sets_every_lane() {
    let v = u8x8::splat(7);
    for i in 0..8 {
        assert_eq!(v[i], 7);
    }
    assert_eq!(v, [7u8; 8]);
}

#[test]
fn default_is_splat_of_default() {
    assert_eq!(u32x4::default(), u32x4::splat(0));
    assert_eq!(m32x4::splat(m32::false_value()), m32x4::new(&[f(), f(), f(), f()]));
}

#[test]
fn shape_with_lanes_is_valid() {
    assert!(u32x4::assert_size());
    assert!(!Vector::<Align4, u32, 0>::assert_size());
}

#[test]
fn store_copies_lanes_in_order() {
    let mut data = vec![0; 6];
    let v = u32x4::new(&[1, 2, 3, 4]);
    v.store(&mut data[..4]);
    assert_eq!(&data[..], &[1, 2, 3, 4, 0, 0]);
}

#[test]
fn gather_by_repeated_and_unordered_indices() {
    let input = (2..100).collect::<Vec<u32>>();
    let vec = u32x4::gather_load(&input, &[3, 3, 1, 32]);
    assert_eq!(vec, u32x4::new(&[5, 5, 3, 34]));

    let a = u32x4::new(&[1, 2, 3, 4]);
    let c = u32x2::gather_load(a.as_slice(), &[2, 2]);
    assert_eq!(c, u32x2::new(&[3, 3]));
}

#[test]
fn gather_by_index_vector() {
    let indices = usizex4::new(&[1, 2, 3, 4]) * usizex4::splat(2);
    let input = (0..10).collect::<Vec<u32>>();
    let vec = u32x4::gather_load(&input, indices.as_slice());
    assert_eq!(vec, u32x4::new(&[2, 4, 6, 8]));
}

#[test]
fn masked_gather_keeps_disabled_lanes() {
    let input = (0..100).collect::<Vec<u32>>();
    let v = u32x4::default().gather_load_masked(&input, &[1, 4, 2, 2], &[t(), f(), f(), t()]);
    assert_eq!(v, u32x4::new(&[1, 0, 0, 2]));
}

#[test]
fn masked_gather_from_two_sources() {
    let left = u32x2::new(&[1, 2]);
    let right = u32x2::new(&[3, 4]);
    let idx = usizex4::new(&[0, 1, 0, 1]);
    let mask = m32x4::new(&[t(), t(), f(), f()]);
    let v = u32x4::default()
        .gather_load_masked(left.as_slice(), idx.as_slice(), mask.as_slice())
        .gather_load_masked(right.as_slice(), idx.as_slice(), (!mask).as_slice());
    assert_eq!(v, u32x4::new(&[1, 2, 3, 4]));
}

#[test]
fn masked_gather_ignores_index_of_disabled_lane() {
    let input = [10u32, 20];
    let v = u32x4::splat(9).gather_load_masked(&input, &[0, 77, 1, 99], &[true, false, true, false]);
    assert_eq!(v, u32x4::new(&[10, 9, 20, 9]));
}

#[test]
fn scatter_out_of_order() {
    let mut data = vec![0; 6];
    let v = u32x4::new(&[1, 2, 3, 4]);
    v.scatter_store(&mut data, &[2, 5, 0, 1]);
    assert_eq!(&data[..], &[3, 4, 1, 0, 0, 2]);
}

#[test]
fn scatter_to_one_place_leaves_one_of_the_lanes() {
    let mut data = [0u32; 3];
    u32x4::new(&[1, 2, 3, 4]).scatter_store(&mut data, &[1, 1, 1, 1]);
    assert_eq!(data[0], 0);
    assert_eq!(data[2], 0);
    assert!((1..=4).contains(&data[1]));
}

#[test]
fn masked_scatter_writes_enabled_lanes_only() {
    let mut data = [0u32; 6];
    let v = u32x4::new(&[1, 2, 3, 4]);
    v.scatter_store_masked(&mut data, &[0, 100, 2, 4], &[true, false, false, true]);
    assert_eq!(data, [1, 0, 0, 0, 4, 0]);
}

#[test]
fn scatter_then_gather_gives_the_vector_back() {
    let v = V::new(&[1, 2, 3, 4]);
    let mut output = [0; 10];
    v.scatter_store(&mut output, &[1, 3, 5, 7]);
    assert_eq!(output, [0, 1, 0, 2, 0, 3, 0, 4, 0, 0]);
    assert_eq!(V::gather_load(&output, &[1, 3, 5, 7]), v);
}

#[test]
fn store_then_gather_at_own_positions() {
    let v = u32x4::new(&[9, 8, 7, 6]);
    let mut out = [0u32; 7];
    v.scatter_store(&mut out, &[0, 1, 2, 3]);
    assert_eq!(u32x4::gather_load(&out[..4], &[0, 1, 2, 3]), v);
    assert_eq!(&out[4..], &[0, 0, 0]);
}

#[test]
fn bounds_checks() {
    assert!(indices_in_bounds(&[0, 1, 2], 3));
    assert!(!indices_in_bounds(&[0, 3], 3));
    assert!(indices_in_bounds(&[], 0));
    assert!(enabled_in_bounds(&[0, 9], &[true, false], 3));
    assert!(!enabled_in_bounds(&[0, 9], &[true, true], 3));
}

#[test]
fn checked_gather_rejects_bad_indices() {
    assert_eq!(V::checked_gather_load(&[1, 2, 3], &[0, 1, 2, 3]), None);
    assert_eq!(V::checked_gather_load(&[0, 1, 2, 3, 4], &[0, 1]), None);
    assert_eq!(
        V::checked_gather_load(&[0, 1, 2, 3, 4], &[4, 3, 2, 1]),
        Some(V::new(&[4, 3, 2, 1]))
    );
}

#[test]
fn checked_scatter_writes_all_or_nothing() {
    let v = V::new(&[1, 2, 3, 4]);
    let mut out = [0; 10];
    assert!(!v.checked_scatter_store(&mut out, &[0, 1, 2, 15]));
    assert_eq!(out, [0; 10]);
    assert!(!v.checked_scatter_store(&mut out, &[0, 1, 2]));
    assert_eq!(out, [0; 10]);
    assert!(v.checked_scatter_store(&mut out, &[0, 1, 2, 9]));
    assert_eq!(out, [1, 2, 3, 0, 0, 0, 0, 0, 0, 4]);
}

#[test]
fn checked_masked_scatter_writes_all_or_nothing() {
    let v = V::new(&[1, 2, 3, 4]);
    let mut out = [0; 4];
    assert!(!v.checked_scatter_store_masked(&mut out, &[0, 1, 2, 15], &[true, true, true, true]));
    assert_eq!(out, [0; 4]);
    assert!(!v.checked_scatter_store_masked(&mut out, &[0, 1, 2, 3], &[true, true, true]));
    assert_eq!(out, [0; 4]);
    assert!(v.checked_scatter_store_masked(&mut out, &[0, 1, 2, 15], &[true, true, true, false]));
    assert_eq!(out, [1, 2, 3, 0]);
}

#[test]
fn horizontal_sum_and_product() {
    let v = u32x4::new(&[1, 2, 3, 4]);
    assert_eq!(v.horizontal_sum(), 10);
    assert_eq!(v.horizontal_product(), 24);
    let single = Vector::<Align4, u32, 1>::new(&[5]);
    assert_eq!(single.horizontal_sum(), 5);
    assert_eq!(single.horizontal_product(), 5);
}

#[test]
fn horizontal_sum_follows_the_tree() {
    // (100 + 100) + (-100 + 27) stays within i8 at every node of the tree
    // only when the halves are formed first: 100 + 100 would not.
    let v = Vector::<Align4, i8, 4>::new(&[100, -100, 100, -73]);
    assert_eq!(v.horizontal_sum(), 27);
}

#[test]
fn lane_wise_arithmetic() {
    let a = i32x4::new(&[1, -2, 3, -4]);
    let b = i32x4::new(&[5, 6, -7, 8]);
    assert_eq!(a + b, i32x4::new(&[6, 4, -4, 4]));
    assert_eq!(a - b, i32x4::new(&[-4, -8, 10, -12]));
    assert_eq!(a * b, i32x4::new(&[5, -12, -21, -32]));
    assert_eq!(b / a, i32x4::new(&[5, -3, -2, -2]));
    assert_eq!(b % a, i32x4::new(&[0, 0, -1, 0]));
    assert_eq!(-a, i32x4::new(&[-1, 2, -3, 4]));
    assert_eq!(a + 1, i32x4::new(&[2, -1, 4, -3]));
    assert_eq!(a * 2, i32x4::new(&[2, -4, 6, -8]));
}

#[test]
fn lane_wise_bit_operations() {
    let a = u32x4::new(&[0b1100, 0b1010, 0xff, 1]);
    let b = u32x4::new(&[0b1010, 0b0110, 0x0f, 3]);
    assert_eq!(a & b, u32x4::new(&[0b1000, 0b0010, 0x0f, 1]));
    assert_eq!(a | b, u32x4::new(&[0b1110, 0b1110, 0xff, 3]));
    assert_eq!(a ^ b, u32x4::new(&[0b0110, 0b1100, 0xf0, 2]));
    assert_eq!(!a, u32x4::new(&[!0b1100, !0b1010, !0xff, !1]));
    assert_eq!(a << u32x4::splat(1), u32x4::new(&[0b11000, 0b10100, 0x1fe, 2]));
    assert_eq!(a >> 1, u32x4::new(&[0b110, 0b101, 0x7f, 0]));
}

#[test]
fn assigning_operators() {
    let mut a = u32x4::new(&[1, 2, 3, 4]);
    a += u32x4::splat(1);
    assert_eq!(a, u32x4::new(&[2, 3, 4, 5]));
    a *= 2;
    assert_eq!(a, u32x4::new(&[4, 6, 8, 10]));
    a -= u32x4::new(&[4, 5, 6, 7]);
    assert_eq!(a, u32x4::new(&[0, 1, 2, 3]));
    a |= 4;
    assert_eq!(a, u32x4::new(&[4, 5, 6, 7]));
}

#[test]
fn absolute_value_by_blend() {
    let a = i32x4::new(&[1, -2, 3, -4]);
    let b = -a;
    let positive = a.ge(i32x4::splat(1));
    let abs = b.blend(a, positive.as_slice());
    assert_eq!(abs, i32x4::new(&[1, 2, 3, 4]));
}

#[test]
fn lanes_can_be_written_through_the_slice() {
    let mut v = u32x4::splat(0);
    v.as_mut_slice()[2] = 5;
    assert_eq!(v, u32x4::new(&[0, 0, 5, 0]));
    assert_eq!(v.into_array(), [0, 0, 5, 0]);
}

#[test]
fn wrapping_lanes_wrap_around() {
    let a = wu8x4::new(&[Wrapping(250), Wrapping(1), Wrapping(128), Wrapping(0)]);
    let b = wu8x4::splat(Wrapping(10));
    assert_eq!(
        a + b,
        wu8x4::new(&[Wrapping(4), Wrapping(11), Wrapping(138), Wrapping(10)])
    );
    assert_eq!(
        a - b,
        wu8x4::new(&[Wrapping(240), Wrapping(247), Wrapping(118), Wrapping(246)])
    );
    assert_eq!(a.horizontal_sum(), Wrapping(123));
}
