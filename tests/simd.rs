use generic_simd::alignment::Aligned;
use generic_simd::arch::{Avx, CpuFeatures, Extension, Generic, Implies, Neon, Sse, Token, Wasm32};
use generic_simd::dispatch::{candidates_for, select, select_static, Dispatcher, Resolution, TargetArch};
use generic_simd::generic::Single;
use generic_simd::lanes::GaussianI32;
use generic_simd::reduce::{product, product_vectors, sum, sum_vectors};
use generic_simd::scalar::ScalarExt;
use generic_simd::shim::token::ShimToken;
use generic_simd::shim::{Shim2, Shim4, Shim8};
use generic_simd::slice::{align, write_aligned, Overlapping, OverlappingMut, Slice};
use generic_simd::vector::{BinOp, Complex, Lane, Ops, Signed, Vector};
use generic_simd::width::{Width, W1, W2, W4, W8};

fn lanes<V: Vector>(v: &V) -> Vec<V::Scalar> {
    (0..V::width()).map(|i| v.lane(i)).collect()
}

fn all_features() -> CpuFeatures {
    CpuFeatures { sse41: true, avx: true, neon: true, simd128: true }
}

fn sse_only() -> CpuFeatures {
    CpuFeatures { sse41: true, avx: false, neon: false, simd128: false }
}

/// Adds one to every element, through the aligned split with four-lane vectors.
fn add_one<T: Implies<Generic>>(token: T, x: &mut [i32]) {
    let lead = x.as_ptr().align_offset(16);
    let (head_len, body) = {
        let (head, body, _tail) = <[i32] as Slice<i32, T>>::align4(x, token, lead);
        (head.len(), body)
    };
    for s in x[..head_len].iter_mut() {
        *s = <i32 as Lane>::add(*s, 1);
    }
    let bumped: Vec<_> = body.iter().map(|v| v.apply_scalar(BinOp::Add, 1)).collect();
    write_aligned(x, head_len, &bumped);
    let pos = head_len + 4 * bumped.len();
    for s in x[pos..].iter_mut() {
        *s = <i32 as Lane>::add(*s, 1);
    }
}

fn add_one_generic(x: &mut [i32]) {
    add_one(Generic::new_unchecked(), x)
}

fn add_one_sse(x: &mut [i32]) {
    add_one(Sse::new_unchecked(), x)
}

fn add_one_avx(x: &mut [i32]) {
    add_one(Avx::new_unchecked(), x)
}

fn add_one_dispatch(dispatcher: &mut Dispatcher, features: &CpuFeatures, x: &mut [i32]) {
    let table: [fn(&mut [i32]); 3] = [add_one_avx, add_one_sse, add_one_generic];
    let index = dispatcher.resolve(features);
    table[index](x)
}

#[test]
fn dispatch_macro() {
    let mut dispatcher = Dispatcher::for_arch(TargetArch::X86);
    let index = dispatcher.resolve(&CpuFeatures::none());
    assert_eq!(dispatcher.extension(index), Extension::Generic);
    let x = 1;
    let v = <i32 as ScalarExt<Generic>>::splat1(x, Generic::new_unchecked());
    assert_eq!(v.add(v).lane(0), 2);
}

#[test]
fn widths_count_lanes() {
    assert_eq!(W1::value(), 1);
    assert_eq!(W2::value(), 2);
    assert_eq!(W4::value(), 4);
    assert_eq!(W8::value(), 8);
    assert_eq!(Shim8::<Single<i32>>::width(), 8);
}

#[test]
fn token_detection_follows_features() {
    let none = CpuFeatures::none();
    assert!(Generic::new(&none).is_some());
    assert!(Sse::new(&none).is_none());
    assert!(Avx::new(&none).is_none());
    assert!(Neon::new(&none).is_none());
    assert!(Wasm32::new(&none).is_none());
    assert!(Sse::new(&sse_only()).is_some());
    assert!(Avx::new(&sse_only()).is_none());
    let avx_without_sse = CpuFeatures { sse41: false, avx: true, neon: false, simd128: false };
    assert!(Avx::new(&avx_without_sse).is_none());
    assert!(Avx::new(&all_features()).is_some());
    assert!(Wasm32::new(&all_features()).is_some());
}

#[test]
fn implication_order() {
    assert!(Extension::Avx.grants(Extension::Sse));
    assert!(Extension::Avx.grants(Extension::Generic));
    assert!(!Extension::Sse.grants(Extension::Avx));
    assert!(!Extension::Neon.grants(Extension::Sse));
    assert!(Extension::Neon.grants(Extension::Neon));
    let sse: Sse = <Avx as Implies<Sse>>::weaken(Avx::new_unchecked());
    assert_eq!(sse.extension_of(), Extension::Sse);
}

#[test]
fn shim_arithmetic_matches_lanes() {
    let token = Generic::new_unchecked();
    let a = vec![1, 2, 3, 4, 5, 6, 7, 8];
    let b = vec![8, 7, 6, 5, 4, 3, 2, 1];
    let va = <Shim8<Single<i32>> as Vector>::read_at(token, &a, 0);
    let vb = <Shim8<Single<i32>> as Vector>::read_at(token, &b, 0);
    assert_eq!(lanes(&va.add(vb)), vec![9; 8]);
    assert_eq!(lanes(&va.sub(vb)), vec![-7, -5, -3, -1, 1, 3, 5, 7]);
    assert_eq!(lanes(&va.mul(vb)), vec![8, 14, 18, 20, 20, 18, 14, 8]);
    assert_eq!(lanes(&va.div(vb)), vec![0, 0, 0, 0, 1, 2, 3, 8]);
    assert_eq!(lanes(&va.neg()), vec![-1, -2, -3, -4, -5, -6, -7, -8]);
    assert_eq!(lanes(&va.apply_scalar(BinOp::Mul, 2)), vec![2, 4, 6, 8, 10, 12, 14, 16]);
}

#[test]
fn shim_doubling_keeps_order() {
    let token = Generic::new_unchecked();
    let lo = <Single<i32> as Vector>::splat(token, 1);
    let hi = <Single<i32> as Vector>::splat(token, 2);
    let two = Shim2::new(lo, hi);
    assert_eq!(lanes(&two), vec![1, 2]);
    let four: Shim4<Single<i32>> = Shim2::new(two, two.apply_scalar(BinOp::Add, 2));
    assert_eq!(lanes(&four), vec![1, 2, 3, 4]);
    let (first, second) = four.halves();
    assert_eq!(lanes(&first), vec![1, 2]);
    assert_eq!(lanes(&second), vec![3, 4]);
    let c = four.add(four);
    assert_eq!(lanes(&c), vec![2, 4, 6, 8]);
}

#[test]
fn assigning_ops_match_plain_ops() {
    let token = Generic::new_unchecked();
    let data = vec![1, 2, 3, 4];
    let a = <Shim4<Single<i32>> as Vector>::read_at(token, &data, 0);
    let b = <Shim4<Single<i32>> as Vector>::splat(token, 3);
    for op in [BinOp::Add, BinOp::Sub, BinOp::Mul, BinOp::Div] {
        let mut x = a;
        x.apply_assign(op, b);
        assert_eq!(lanes(&x), lanes(&a.apply(op, b)));
        let mut y = a;
        y.apply_scalar_assign(op, 3);
        assert_eq!(lanes(&y), lanes(&a.apply(op, b)));
    }
}

#[test]
fn token_shim_is_transparent() {
    let data = vec![3, -2, 4, 8];
    let under = <Shim4<Single<i32>> as Vector>::read_at(Generic::new_unchecked(), &data, 0);
    let shimmed = ShimToken::new(Sse::new_unchecked(), under);
    let other = <ShimToken<Shim4<Single<i32>>, Sse> as Vector>::splat(Sse::new_unchecked(), 2);
    let under_other = <Shim4<Single<i32>> as Vector>::splat(Generic::new_unchecked(), 2);
    for op in [BinOp::Add, BinOp::Sub, BinOp::Mul, BinOp::Div] {
        assert_eq!(lanes(&shimmed.apply(op, other)), lanes(&under.apply(op, under_other)));
    }
    assert_eq!(lanes(&shimmed.neg()), lanes(&under.neg()));
    assert_eq!(lanes(&shimmed.into_inner()), lanes(&under));
    let z = <ShimToken<Single<i32>, Avx> as Vector>::zeroed(Avx::new_unchecked());
    assert_eq!(lanes(&z), vec![0]);
}

#[test]
fn scalar_ext_widths() {
    let token = Sse::new_unchecked();
    assert_eq!(lanes(&<i32 as ScalarExt<Sse>>::zeroed2(token)), vec![0, 0]);
    assert_eq!(lanes(&<i32 as ScalarExt<Sse>>::zeroed4(token)), vec![0; 4]);
    assert_eq!(lanes(&3.splat8(token)), vec![3; 8]);
    assert_eq!(lanes(&<i32 as ScalarExt<Sse>>::splat1(5, token)), vec![5]);
}

#[test]
fn read_and_write_at_offsets() {
    let token = Generic::new_unchecked();
    let data = vec![1, 2, 3, 4, 5, 6];
    let v = <Shim2<Single<i32>> as Vector>::read_at(token, &data, 3);
    assert_eq!(lanes(&v), vec![4, 5]);
    let mut out = vec![0; 5];
    v.write_at(&mut out, 2);
    assert_eq!(out, vec![0, 0, 4, 5, 0]);
}

#[test]
fn align_round_trip() {
    let token = Generic::new_unchecked();
    let data = vec![1, 2, 3, 4, 5, 6, 7, 8, 9, 10, 11];
    for lead in 0..14 {
        let (head, body, tail) = align::<Shim4<Single<i32>>>(token, &data, lead);
        assert_eq!(head.len(), lead.min(data.len()));
        assert!(tail.len() < 4);
        assert_eq!(head.len() + body.len() * 4 + tail.len(), data.len());
        let mut joined: Vec<i32> = head.to_vec();
        for v in &body {
            joined.extend(lanes(v));
        }
        joined.extend_from_slice(tail);
        assert_eq!(joined, data);
    }
}

#[test]
fn align_empty_slice() {
    let data: Vec<i32> = Vec::new();
    let (head, body, tail) = align::<Shim8<Single<i32>>>(Generic::new_unchecked(), &data, 3);
    assert!(head.is_empty() && body.is_empty() && tail.is_empty());
}

#[test]
fn concrete_split_and_add_one() {
    let data = vec![1, 2, 3, 4, 5];
    let token = Sse::new_unchecked();
    let lead = data.as_ptr().align_offset(16);
    let (head, body, tail) = <[i32] as Slice<i32, Sse>>::align4(&data, token, lead);
    assert_eq!(head.len() + body.len() * 4 + tail.len(), 5);
    let mut joined: Vec<i32> = head.to_vec();
    for v in &body {
        joined.extend(lanes(v));
    }
    joined.extend_from_slice(tail);
    assert_eq!(joined, data);
    let (head1, body1, tail1) = <[i32] as Slice<i32, Sse>>::align4(&data, token, 1);
    assert_eq!(head1, &vec![1][..]);
    assert_eq!(body1.len(), 1);
    assert_eq!(lanes(&body1[0]), vec![2, 3, 4, 5]);
    assert!(tail1.is_empty());

    for features in [CpuFeatures::none(), sse_only(), all_features()] {
        let mut x = data.clone();
        let mut dispatcher = Dispatcher::for_arch(TargetArch::X86);
        add_one_dispatch(&mut dispatcher, &features, &mut x);
        assert_eq!(x, vec![2, 3, 4, 5, 6]);
    }
}

#[test]
fn dispatch_matches_detected_specialization() {
    for features in [CpuFeatures::none(), sse_only(), all_features()] {
        for n in [0usize, 1, 3, 4, 5, 11] {
            let input: Vec<i32> = (0..n).map(|i| i as i32 * 3 - 7).collect();
            let mut dispatcher = Dispatcher::for_arch(TargetArch::X86);
            let mut dynamic = input.clone();
            add_one_dispatch(&mut dispatcher, &features, &mut dynamic);
            let mut direct = input.clone();
            if Avx::new(&features).is_some() {
                add_one_avx(&mut direct);
            } else if Sse::new(&features).is_some() {
                add_one_sse(&mut direct);
            } else {
                add_one_generic(&mut direct);
            }
            assert_eq!(dynamic, direct);
        }
    }
}

#[test]
fn dispatcher_resolves_once() {
    let mut dispatcher = Dispatcher::for_arch(TargetArch::X86);
    assert_eq!(dispatcher.resolution(), Resolution::Unresolved);
    let first = dispatcher.resolve(&all_features());
    assert_eq!(dispatcher.extension(first), Extension::Avx);
    assert_eq!(dispatcher.resolution(), Resolution::Resolved(0));
    let again = dispatcher.resolve(&CpuFeatures::none());
    assert_eq!(again, first);

    let mut sse = Dispatcher::for_arch(TargetArch::X86);
    let chosen = sse.resolve(&sse_only());
    assert_eq!(sse.extension(chosen), Extension::Sse);
    let mut arm = Dispatcher::for_arch(TargetArch::Arm);
    let chosen = arm.resolve(&sse_only());
    assert_eq!(arm.extension(chosen), Extension::Generic);
    let mut wasm = Dispatcher::for_arch(TargetArch::Wasm32);
    let chosen = wasm.resolve(&all_features());
    assert_eq!(wasm.extension(chosen), Extension::Simd128);
    let mut other = Dispatcher::for_arch(TargetArch::Other);
    assert_eq!(other.resolve(&all_features()), 0);
}

#[test]
fn static_dispatch_selects_closest() {
    let dispatcher = Dispatcher::new(vec![Extension::Avx, Extension::Sse, Extension::Generic]);
    assert_eq!(dispatcher.resolve_static(Extension::Avx), 0);
    assert_eq!(dispatcher.resolve_static(Extension::Sse), 1);
    assert_eq!(dispatcher.resolve_static(Extension::Neon), 2);
    let sparse = Dispatcher::new(vec![Extension::Sse, Extension::Generic]);
    assert_eq!(sparse.resolve_static(Extension::Avx), 0);
    assert_eq!(select_static(&[Extension::Avx, Extension::Sse], Extension::Generic), None);
}

#[test]
fn select_picks_first_supported() {
    let candidates = candidates_for(TargetArch::X86);
    assert_eq!(candidates, vec![Extension::Avx, Extension::Sse, Extension::Generic]);
    assert_eq!(select(&candidates, &all_features()), Some(0));
    assert_eq!(select(&candidates, &sse_only()), Some(1));
    assert_eq!(select(&candidates, &CpuFeatures::none()), Some(2));
    assert_eq!(select(&[Extension::Neon], &sse_only()), None);
}

#[test]
fn overlapping_windows() {
    let token = Generic::new_unchecked();
    let data = vec![1, 2, 3, 4, 5, 6];
    let windows = Overlapping::<Shim4<Single<i32>>>::new(token, &data);
    assert_eq!(windows.len(), 3);
    for i in 0..3 {
        assert_eq!(lanes(&windows.get(i).unwrap()), data[i..i + 4].to_vec());
        assert_eq!(lanes(&windows.get_unchecked(i)), data[i..i + 4].to_vec());
    }
    assert!(windows.get(3).is_none());
    assert!(windows.get(100).is_none());
    let exact = Overlapping::<Shim2<Single<i32>>>::new(token, &data[..2]);
    assert_eq!(exact.len(), 1);
    let by_trait = <[i32] as Slice<i32, Generic>>::overlapping2(&data, token);
    assert_eq!(by_trait.len(), 5);
}

#[test]
fn deferred_write_commits_on_release() {
    let token = Generic::new_unchecked();
    let mut data = vec![1, 2, 3, 4, 5, 6];
    {
        let mut windows = OverlappingMut::<Shim2<Single<i32>>>::new(token, &mut data);
        assert_eq!(windows.len(), 5);
        assert!(windows.get_mut(5).is_none());
        let mut handle = windows.get_mut(2).unwrap();
        assert_eq!(lanes(&handle.get()), vec![0, 0]);
        handle.set(<Shim2<Single<i32>> as Vector>::splat(token, 9));
        handle.set(<Shim2<Single<i32>> as Vector>::splat(token, 7));
        assert_eq!(lanes(&windows.get(2).unwrap()), vec![3, 4]);
        assert_eq!(lanes(&windows.get(1).unwrap()), vec![2, 3]);
        windows.release(handle);
        assert_eq!(lanes(&windows.get(2).unwrap()), vec![7, 7]);
    }
    assert_eq!(data, vec![1, 2, 7, 7, 5, 6]);
}

#[test]
fn reductions_and_identities() {
    let token = Generic::new_unchecked();
    let empty: Vec<Shim4<Single<i32>>> = Vec::new();
    assert_eq!(sum(&empty), 0);
    assert_eq!(product(&empty), 1);
    assert!(sum_vectors(&empty).is_none());
    assert!(product_vectors(&empty).is_none());
    let data = vec![1, 2, 3, 4, 5, 6, 7, 8];
    let a = <Shim4<Single<i32>> as Vector>::read_at(token, &data, 0);
    let b = <Shim4<Single<i32>> as Vector>::read_at(token, &data, 4);
    assert_eq!(sum(&[a, b]), 36);
    assert_eq!(lanes(&sum_vectors(&[a, b]).unwrap()), vec![6, 8, 10, 12]);
    assert_eq!(product(&[a]), 24);
    assert_eq!(product(&[a, b]), 40320);
}

#[test]
fn aligned_wraps_value() {
    let mut a: Aligned<u64, u8> = Aligned::new(7);
    assert_eq!(*a.get(), 7);
    *a.get_mut() = 9;
    assert_eq!(a.into_inner(), 9);
    assert_eq!(std::mem::align_of::<Aligned<u64, u8>>(), std::mem::align_of::<u64>());
}

#[test]
fn complex_lanes_rotate_and_conjugate() {
    let token = Generic::new_unchecked();
    let data = vec![GaussianI32::new(1, 2), GaussianI32::new(-3, 4)];
    let v = <Shim2<Single<GaussianI32>> as Vector>::read_at(token, &data, 0);
    assert_eq!(lanes(&v.conj()), vec![GaussianI32::new(1, -2), GaussianI32::new(-3, -4)]);
    assert_eq!(lanes(&v.mul_i()), vec![GaussianI32::new(-2, 1), GaussianI32::new(-4, -3)]);
    assert_eq!(lanes(&v.mul_neg_i()), vec![GaussianI32::new(2, -1), GaussianI32::new(4, 3)]);
    assert_eq!(lanes(&v.mul(v)), vec![GaussianI32::new(-3, 4), GaussianI32::new(-7, -24)]);
    assert_eq!(lanes(&v.neg()), vec![GaussianI32::new(-1, -2), GaussianI32::new(3, -4)]);
    let shimmed = ShimToken::new(Avx::new_unchecked(), v);
    assert_eq!(lanes(&shimmed.mul_i()), lanes(&v.mul_i()));
    let empty: Vec<Shim2<Single<GaussianI32>>> = Vec::new();
    assert_eq!(sum(&empty), GaussianI32::new(0, 0));
    assert_eq!(product(&empty), GaussianI32::new(1, 0));
}

#[test]
fn integer_lanes_wrap_and_divide() {
    let token = Generic::new_unchecked();
    let a = <Shim2<Single<i64>> as Vector>::splat(token, i64::MAX);
    assert_eq!(lanes(&a.apply_scalar(BinOp::Add, 1)), vec![i64::MIN, i64::MIN]);
    let data = vec![-7i32, 7];
    let b = <Shim2<Single<i32>> as Vector>::read_at(token, &data, 0);
    assert_eq!(lanes(&b.apply_scalar(BinOp::Div, 2)), vec![-3, 3]);
    assert_eq!(lanes(&b.neg()), vec![7, -7]);
    let m = <Single<i32> as Vector>::splat(token, i32::MIN);
    assert_eq!(lanes(&m.neg()), vec![i32::MIN]);
}

#[test]
fn read_write_and_to_vec() {
    let token = Avx::new_unchecked();
    let data = vec![5i32, 6, 7, 8, 9];
    let v = <<i32 as ScalarExt<Avx>>::Vector4 as Vector>::read(token, &data);
    assert_eq!(v.to_vec(), vec![5, 6, 7, 8]);
    let mut out = vec![0i32; 6];
    v.apply_scalar(BinOp::Mul, 2).write(&mut out);
    assert_eq!(out, vec![10, 12, 14, 16, 0, 0]);
}

#[test]
fn write_aligned_round_trip() {
    let token = Generic::new_unchecked();
    let data: Vec<i32> = (1..=11).collect();
    let (head, body, tail) = align::<Shim4<Single<i32>>>(token, &data, 2);
    assert_eq!((head.len(), body.len(), tail.len()), (2, 2, 1));
    let doubled: Vec<_> = body.iter().map(|v| v.apply_scalar(BinOp::Mul, 2)).collect();
    let mut out = data.clone();
    write_aligned(&mut out, 2, &doubled);
    assert_eq!(out, vec![1, 2, 6, 8, 10, 12, 14, 16, 18, 20, 11]);
    let mut same = data.clone();
    write_aligned(&mut same, 2, &body);
    assert_eq!(same, data);
}

#[test]
fn align_by_width_keeps_lead() {
    let data: Vec<i32> = (0..10).collect();
    let token = Sse::new_unchecked();
    let (head, body, tail) = <[i32] as Slice<i32, Sse>>::align2(&data, token, 3);
    assert_eq!(head, &data[..3]);
    assert_eq!(body.len(), 3);
    assert_eq!(tail, &data[9..]);
    let (head, body, tail) = <[i32] as Slice<i32, Sse>>::align8(&data, token, 20);
    assert_eq!(head.len(), 10);
    assert!(body.is_empty() && tail.is_empty());
    let (head, body, tail) = <[i32] as Slice<i32, Sse>>::align1(&data, token, 0);
    assert!(head.is_empty() && tail.is_empty());
    assert_eq!(body.len(), 10);
}
