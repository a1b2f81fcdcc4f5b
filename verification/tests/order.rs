use arti_bench::order::sorted;

fn sort(v: &[f64]) -> Vec<f64> {
    let bits: Vec<u64> = v.iter().map(|x| x.to_bits()).collect();
    sorted(&bits).into_iter().map(f64::from_bits).collect()
}

fn bits(v: &[f64]) -> Vec<u64> {
    v.iter().map(|x| x.to_bits()).collect()
}

#[test]
fn numbers_in_ascending_order() {
    assert_eq!(sort(&[-5.0, 4.0, 1.0, -3.0, 2.0]), [-5.0, -3.0, 1.0, 2.0, 4.0]);
    assert_eq!(sort(&[]), []);
    assert_eq!(sort(&[0.5]), [0.5]);
    assert_eq!(sort(&[2.0, 1.0, 2.0, 1.0]), [1.0, 1.0, 2.0, 2.0]);
}

#[test]
fn special_values_have_their_places() {
    let nan = f64::from_bits(0x7ff8_0000_0000_0000);
    let negative_nan = f64::from_bits(0xfff8_0000_0000_0000);
    let ordered = [
        negative_nan,
        f64::NEG_INFINITY,
        -1.0,
        -f64::MIN_POSITIVE,
        -0.0,
        0.0,
        5e-324,
        1.0,
        f64::MAX,
        f64::INFINITY,
        nan,
    ];
    let mut shuffled = ordered;
    shuffled.reverse();
    shuffled.swap(1, 8);
    shuffled.swap(0, 5);
    assert_eq!(bits(&sort(&shuffled)), bits(&ordered));
}

#[test]
fn same_order_as_float_ord() {
    let mut state: u64 = 0x9e37_79b9_7f4a_7c15;
    for len in 0..200 {
        let mut v = Vec::new();
        for i in 0..len {
            state = state.wrapping_mul(6364136223846793005).wrapping_add(1442695040888963407);
            let small = (state >> 40) as f64 / 977.0 - 3000.0;
            v.push(if i % 3 == 0 { f64::from_bits(state) } else { small });
        }
        let ours = sort(&v);
        float_ord::sort(&mut v);
        assert_eq!(bits(&ours), bits(&v));
    }
}

#[test]
fn order_of_the_input_does_not_matter() {
    let v = [3.5, -1.0, 2.25, 2.25, 0.0, 9.0];
    let mut w = v;
    w.reverse();
    w.swap(0, 3);
    assert_eq!(bits(&sort(&v)), bits(&sort(&w)));
    assert_eq!(bits(&sort(&sort(&v))), bits(&sort(&v)));
}
