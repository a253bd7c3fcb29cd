use slipstream::iterators::update_windows;
use slipstream::types::{i32x4, u16x4, u16x8, u32x2, u32x4, u32x8};
use slipstream::{vectorize, vectorize_pad, Vectorizable};

#[test]
fn iter() {
    let data = (0..=10u16).collect::<Vec<_>>();
    let mut vtotal = u16x8::default();
    let mut items = data.as_slice().vectorize_pad(u16x8::default());
    while let Some(v) = items.next() {
        vtotal += v;
    }
    let total: u16 = vtotal.horizontal_sum();
    assert_eq!(total, 55);
}

#[test]
fn iter_mut() {
    let data = (0..33u32).collect::<Vec<_>>();
    let mut dst = [0u32; 33];
    let ones = u32x4::splat(1);
    let mut pairs =
        (&mut dst[..], &data[..]).vectorize_pad((u32x4::default(), u32x4::default()));
    while let Some((mut d, s)) = pairs.next() {
        d.set(ones + s);
        d.commit();
    }

    for (l, r) in data.iter().zip(dst.iter()) {
        assert_eq!(*l + 1, *r);
    }
}

#[test]
fn mutable_increment_reaches_every_element() {
    let mut buffer = (0..33u32).collect::<Vec<_>>();
    let mut proxies = buffer.as_mut_slice().vectorize_pad(u32x4::splat(0));
    while let Some(mut d) = proxies.next() {
        let s = *d;
        d.set(u32x4::splat(1) + s);
        d.commit();
    }
    assert_eq!(buffer, (1..=33u32).collect::<Vec<_>>());
}

#[test]
fn vectorize_yields_the_windows_in_order() {
    let data = [1u32, 2, 3, 4];
    let mut items = data.as_slice().vectorize();
    let mut seen: Vec<u32x2> = Vec::new();
    while let Some(v) = items.next() {
        seen.push(v);
    }
    assert_eq!(seen, vec![u32x2::new(&[1, 2]), u32x2::new(&[3, 4])]);
}

#[test]
fn vectorize_covers_the_input() {
    let data = (0..24u32).collect::<Vec<_>>();
    let mut items = vectorize::<u32x4, _>(data.as_slice());
    let mut lanes: Vec<u32> = Vec::new();
    while let Some(v) = items.next() {
        lanes.extend_from_slice(v.as_slice());
    }
    assert_eq!(lanes, data);
}

#[test]
fn vectorize_of_empty_input_yields_nothing() {
    let data: [u32; 0] = [];
    let mut items = vectorize::<u32x4, _>(&data[..]);
    assert_eq!(items.size_hint(), (0, Some(0)));
    assert!(items.next().is_none());
    assert!(items.next_back().is_none());
}

#[test]
fn padded_vectorize() {
    let data = [1, 2, 3, 4, 5, 6];
    let mut items = vectorize_pad(&data[..], i32x4::splat(-1));
    let mut seen = Vec::new();
    while let Some(v) = items.next() {
        seen.push(v);
    }
    assert_eq!(seen, vec![i32x4::new(&[1, 2, 3, 4]), i32x4::new(&[5, 6, -1, -1])]);
}

#[test]
fn padded_vectorize_covers_the_input() {
    for len in 0..13usize {
        let data = (0..len as i32).collect::<Vec<_>>();
        let pad = i32x4::new(&[-1, -2, -3, -4]);
        let mut items = data.as_slice().vectorize_pad(pad);
        let mut seen = Vec::new();
        while let Some(v) = items.next() {
            seen.push(v);
        }
        let full = len / 4;
        let rest = len % 4;
        assert_eq!(seen.len(), full + usize::from(rest != 0));
        let mut lanes: Vec<i32> = Vec::new();
        for v in &seen[..full] {
            lanes.extend_from_slice(v.as_slice());
        }
        if rest != 0 {
            let tail = seen[full];
            lanes.extend_from_slice(&tail.as_slice()[..rest]);
            assert_eq!(&tail.as_slice()[rest..], &pad.as_slice()[rest..]);
        }
        assert_eq!(lanes, data);
    }
}

#[test]
fn padding_is_not_used_where_the_length_divides() {
    let data = [1, 2, 3, 4, 5, 6, 7, 8];
    let mut items = data.as_slice().vectorize_pad(i32x4::splat(-1));
    assert_eq!(items.size_hint(), (2, Some(2)));
    assert_eq!(items.next(), Some(i32x4::new(&[1, 2, 3, 4])));
    assert_eq!(items.next(), Some(i32x4::new(&[5, 6, 7, 8])));
    assert_eq!(items.next(), None);
}

#[test]
fn size_hint_is_exact_and_count_agrees() {
    let data = (0..10u32).collect::<Vec<_>>();
    let mut items = data.as_slice().vectorize_pad(u32x4::splat(0));
    assert_eq!(items.size_hint(), (3, Some(3)));
    assert!(items.next().is_some());
    assert_eq!(items.size_hint(), (2, Some(2)));
    assert!(items.next_back().is_some());
    assert_eq!(items.size_hint(), (1, Some(1)));
    assert_eq!(items.count(), 1);
    assert_eq!(data.as_slice().vectorize_pad(u32x4::splat(0)).count(), 3);
}

#[test]
fn iterator_is_fused() {
    let data = [1u32, 2, 3, 4, 5];
    let mut items = data.as_slice().vectorize_pad(u32x4::splat(0));
    assert!(items.next().is_some());
    assert!(items.next().is_some());
    for _ in 0..3 {
        assert_eq!(items.next(), None);
        assert_eq!(items.next_back(), None);
        assert_eq!(items.size_hint(), (0, Some(0)));
    }
}

#[test]
fn back_yields_the_tail_first_then_windows_right_to_left() {
    let data = (0..10u32).collect::<Vec<_>>();
    let mut items = data.as_slice().vectorize_pad(u32x4::splat(99));
    assert_eq!(items.next_back(), Some(u32x4::new(&[8, 9, 99, 99])));
    assert_eq!(items.next_back(), Some(u32x4::new(&[4, 5, 6, 7])));
    assert_eq!(items.next_back(), Some(u32x4::new(&[0, 1, 2, 3])));
    assert_eq!(items.next_back(), None);
}

#[test]
fn front_and_back_meet() {
    let data = (0..12u32).collect::<Vec<_>>();
    let mut items = data.as_slice().vectorize();
    assert_eq!(items.next(), Some(u32x4::new(&[0, 1, 2, 3])));
    assert_eq!(items.next_back(), Some(u32x4::new(&[8, 9, 10, 11])));
    assert_eq!(items.next_back(), Some(u32x4::new(&[4, 5, 6, 7])));
    assert_eq!(items.next(), None);
}

#[test]
fn last_is_the_tail_or_the_last_window() {
    let data = (0..10u32).collect::<Vec<_>>();
    assert_eq!(
        data.as_slice().vectorize_pad(u32x4::splat(7)).last(),
        Some(u32x4::new(&[8, 9, 7, 7]))
    );
    assert_eq!(data[..8].vectorize().last(), Some(u32x4::new(&[4, 5, 6, 7])));
    let none: Option<u32x4> = data[..0].vectorize().last();
    assert_eq!(none, None);
}

#[test]
fn nth_is_skipping_with_next() {
    let data = (0..14u32).collect::<Vec<_>>();
    for n in 0..6usize {
        let mut jumped = data.as_slice().vectorize_pad(u32x4::splat(0));
        let mut walked = data.as_slice().vectorize_pad(u32x4::splat(0));
        for _ in 0..n {
            let _ = walked.next();
        }
        assert_eq!(jumped.nth(n), walked.next());
        assert_eq!(jumped.size_hint(), walked.size_hint());
        assert_eq!(jumped.next(), walked.next());
    }
}

#[test]
fn nth_on_proxies_leaves_skipped_windows_alone() {
    let mut buffer = [1u32, 2, 3, 4, 5, 6, 7, 8, 9, 10, 11, 12];
    let mut proxies = buffer.as_mut_slice().vectorize();
    let mut third = proxies.nth(1).unwrap();
    assert_eq!(*third, u32x4::new(&[5, 6, 7, 8]));
    third.set(u32x4::splat(0));
    third.commit();
    let mut last = proxies.next().unwrap();
    last.set(u32x4::splat(1));
    last.commit();
    assert!(proxies.next().is_none());
    assert_eq!(buffer, [1, 2, 3, 4, 0, 0, 0, 0, 1, 1, 1, 1]);
}

#[test]
fn proxy_that_is_not_committed_writes_nothing() {
    let mut buffer = [1u32, 2, 3, 4];
    let mut proxies = buffer.as_mut_slice().vectorize();
    let mut proxy = proxies.next().unwrap();
    proxy.set(u32x4::splat(0));
    drop(proxy);
    assert_eq!(buffer, [1, 2, 3, 4]);
}

#[test]
fn padded_proxy_writes_back_only_what_the_slice_has() {
    let mut buffer = [1u32, 2, 3, 4, 5, 6];
    let mut proxies = buffer.as_mut_slice().vectorize_pad(u32x4::splat(40));
    let first = proxies.next().unwrap();
    assert_eq!(*first, u32x4::new(&[1, 2, 3, 4]));
    let mut tail = proxies.next().unwrap();
    assert_eq!(*tail, u32x4::new(&[5, 6, 40, 40]));
    tail.set(*tail + u32x4::splat(1));
    tail.commit();
    first.commit();
    assert_eq!(buffer, [1, 2, 3, 4, 6, 7]);
}

#[test]
fn update_windows_applies_the_function_to_every_window() {
    let mut buffer = (0..16u32).collect::<Vec<_>>();
    let expected = buffer.iter().map(|x| x * 2 + 1).collect::<Vec<_>>();
    update_windows(buffer.as_mut_slice(), |v: u32x4| v * 2 + 1);
    assert_eq!(buffer, expected);
}

#[test]
fn tuple_of_slices_of_different_lane_counts() {
    let longer = [1u32, 2, 3, 4, 5, 6, 7, 8];
    let shorter = [1u32, 2, 3, 4];
    let mut pairs = (&shorter[..], &longer[..]).vectorize();
    let mut seen: Vec<(u32x2, u32x4)> = Vec::new();
    while let Some(p) = pairs.next() {
        seen.push(p);
    }
    assert_eq!(
        seen,
        vec![
            (u32x2::new(&[1, 2]), u32x4::new(&[1, 2, 3, 4])),
            (u32x2::new(&[3, 4]), u32x4::new(&[5, 6, 7, 8])),
        ]
    );
}

#[test]
fn tuple_of_three_doubles_into_two_outputs() {
    let input = [1u32, 2, 3, 4];
    let mut double = [0u32; 4];
    let mut triple = [0u32; 4];
    let mut items = (&input[..], &mut double[..], &mut triple[..]).vectorize();
    while let Some((i, mut d, mut t)) = items.next() {
        let i: u32x2 = i;
        d.set(i * 2);
        d.commit();
        t.set(i * 3);
        t.commit();
    }
    assert_eq!(double, [2, 4, 6, 8]);
    assert_eq!(triple, [3, 6, 9, 12]);
}

// Here, one of the inputs is already vectorized
#[test]
fn iter_prevec() {
    let src = [0, 1, 2, 3, 4, 5, 6, 7];
    let mut dst = [u16x4::default(); 2];

    let mut pairs = (&mut dst[..], &src[..]).vectorize();
    while let Some((dst, src)) = pairs.next() {
        *dst = src;
    }

    assert_eq!(dst, [u16x4::new(&[0, 1, 2, 3]), u16x4::new(&[4, 5, 6, 7])]);
}

#[test]
fn vectors_are_read_from_a_slice_of_vectors() {
    let vectorized = [u32x2::new(&[1, 2]), u32x2::new(&[3, 4])];
    let not_vectorized = [1u32, 2, 3, 4];
    let mut pairs = (&vectorized[..], &not_vectorized[..]).vectorize();
    let mut steps = 0;
    while let Some((v, n)) = pairs.next() {
        let n: u32x2 = n;
        assert_eq!(v, n);
        steps += 1;
    }
    assert_eq!(steps, 2);
}

#[test]
fn array_of_slices_yields_arrays_of_vectors() {
    let a = [1u32, 2, 3, 4];
    let b = [5u32, 6, 7, 8];
    let c = [9u32, 10, 11, 12];
    let mut items = [&a[..], &b[..], &c[..]].vectorize();
    let first: [u32x2; 3] = items.next().unwrap();
    assert_eq!(first, [u32x2::new(&[1, 2]), u32x2::new(&[5, 6]), u32x2::new(&[9, 10])]);
    let second = items.next().unwrap();
    assert_eq!(second, [u32x2::new(&[3, 4]), u32x2::new(&[7, 8]), u32x2::new(&[11, 12])]);
    assert!(items.next().is_none());
}

#[test]
fn array_of_slices_with_padding() {
    let a = [1u32, 2, 3];
    let b = [4u32, 5, 6];
    let mut items = [&a[..], &b[..]].vectorize_pad([u32x2::splat(0), u32x2::splat(9)]);
    assert_eq!(items.size_hint(), (2, Some(2)));
    assert_eq!(items.next(), Some([u32x2::new(&[1, 2]), u32x2::new(&[4, 5])]));
    assert_eq!(items.next(), Some([u32x2::new(&[3, 0]), u32x2::new(&[6, 9])]));
    assert_eq!(items.next(), None);
}

#[test]
fn try_vectorize_rejects_a_length_that_does_not_divide() {
    let data = [1u32, 2, 3, 4, 5, 6];
    let refused: Option<_> = Vectorizable::<u32x4>::try_vectorize(&data[..]);
    assert!(refused.is_none());
    let mut accepted = Vectorizable::<u32x2>::try_vectorize(&data[..]).unwrap();
    assert_eq!(accepted.size_hint(), (3, Some(3)));
    assert_eq!(accepted.next(), Some(u32x2::new(&[1, 2])));
}

#[test]
fn try_vectorize_rejects_parts_of_different_counts() {
    let four = [1u32, 2, 3, 4];
    let eight = [1u32, 2, 3, 4, 5, 6, 7, 8];
    let refused = Vectorizable::<(u32x2, u32x2)>::try_vectorize((&four[..], &eight[..]));
    assert!(refused.is_none());
    let accepted = Vectorizable::<(u32x2, u32x4)>::try_vectorize((&four[..], &eight[..]));
    assert!(accepted.is_some());
    let arrays = Vectorizable::<[u32x2; 2]>::try_vectorize([&four[..], &eight[..]]);
    assert!(arrays.is_none());
}

#[test]
fn try_vectorize_pad_rejects_parts_that_disagree_on_the_tail() {
    let six = [1u32, 2, 3, 4, 5, 6];
    let eight = [1u32, 2, 3, 4, 5, 6, 7, 8];
    // One window each, but only the first leaves a rest.
    let refused = Vectorizable::<(u32x4, u32x8)>::try_vectorize_pad(
        (&six[..], &eight[..]),
        (u32x4::splat(0), u32x8::splat(0)),
    );
    assert!(refused.is_none());
    let seven = [1u32, 2, 3, 4, 5, 6, 7];
    let mut accepted = Vectorizable::<(u32x4, u32x4)>::try_vectorize_pad(
        (&six[..], &seven[..]),
        (u32x4::splat(0), u32x4::splat(9)),
    )
    .unwrap();
    assert_eq!(
        accepted.next(),
        Some((u32x4::new(&[1, 2, 3, 4]), u32x4::new(&[1, 2, 3, 4])))
    );
    assert_eq!(
        accepted.next(),
        Some((u32x4::new(&[5, 6, 0, 0]), u32x4::new(&[5, 6, 7, 9])))
    );
    assert_eq!(accepted.next(), None);
}

#[test]
fn windows_are_counted_before_the_iteration() {
    let data = [0u16; 19];
    let input = &data[..];
    assert!(Vectorizable::<u16x8>::can_split(&input, true));
    assert!(!Vectorizable::<u16x8>::can_split(&input, false));
    assert_eq!(Vectorizable::<u16x8>::count_windows(&input), 2);
    assert!(Vectorizable::<u16x8>::leaves_rest(&input));
    assert!(!Vectorizable::<u16x8>::leaves_rest(&&data[..16]));
}
