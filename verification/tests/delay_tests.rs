use voxbox::Delay;

#[test]
fn delay_of_three_samples_delays_by_two_ticks() {
    let mut d = Delay::new(3, 0.0f32);
    assert_eq!(d.len(), 3);
    assert_eq!(d.tick(1.0), 0.0);
    assert_eq!(d.tick(2.0), 0.0);
    assert_eq!(d.tick(3.0), 1.0);
    assert_eq!(d.tick(4.0), 2.0);
    assert_eq!(d.tick(5.0), 3.0);
}

#[test]
fn delay_of_one_sample_passes_its_input_through() {
    let mut d = Delay::new(1, 0u32);
    for x in [5u32, 6, 7, 8] {
        assert_eq!(d.tick(x), x);
    }
}

#[test]
fn delay_output_lags_by_length_minus_one() {
    for len in 1usize..40 {
        let mut d = Delay::new(len, -1i64);
        for k in 0..200i64 {
            let out = d.tick(k);
            if (k as usize) + 1 >= len {
                assert_eq!(out, k + 1 - len as i64);
            } else {
                assert_eq!(out, -1);
            }
        }
    }
}
