use cycle_strategy::instrument::{round_to_lot, round_to_tick, trim_to_sig_figs, trunc_to_lot};
use cycle_strategy::{Amount, InstrumentMeta};

fn amt(mantissa: i128, scale: u32) -> Amount {
    Amount::new(mantissa, scale).unwrap()
}

#[test]
fn tick_rounding_goes_to_the_nearest_tick() {
    // 100.126 with a tick of 0.05 is 2002.52 ticks, which rounds to 2003.
    let r = round_to_tick(&amt(100126, 3), &amt(5, 2)).unwrap();
    assert!(r.le(&amt(10015, 2)) && amt(10015, 2).le(&r));
    assert_eq!(r.text(), "100.15");
}

#[test]
fn tick_rounding_breaks_ties_to_the_even_tick() {
    // 0.25 is 2.5 ticks of 0.1 and goes to 2; 0.35 is 3.5 ticks and goes to 4.
    assert_eq!(round_to_tick(&amt(25, 2), &amt(1, 1)).unwrap().text(), "0.2");
    assert_eq!(round_to_tick(&amt(35, 2), &amt(1, 1)).unwrap().text(), "0.4");
}

#[test]
fn tick_rounding_keeps_the_price_for_a_tick_that_is_not_positive() {
    assert_eq!(round_to_tick(&amt(12345, 3), &amt(0, 0)), Some(amt(12345, 3)));
    assert_eq!(round_to_tick(&amt(12345, 3), &amt(-1, 2)), Some(amt(12345, 3)));
}

#[test]
fn tick_rounding_refuses_a_price_of_too_many_ticks() {
    let top: i128 = 10_000_000_000_000_000_000_000_000_000;
    // 10^28 ticks are counted, one tick more is not.
    assert!(round_to_tick(&amt(top - 1, 0), &amt(1, 0)).is_some());
    assert!(round_to_tick(&amt(top / 10, 0), &amt(1, 1)).is_some());
    assert_eq!(round_to_tick(&amt(top / 10 + 1, 0), &amt(1, 1)), None);
    assert!(round_to_tick(&amt(1, 0), &amt(1, 28)).is_some());
    assert_eq!(round_to_tick(&amt(10_000_000_000_000_000_000_000_000_001, 28), &amt(1, 28)), None);
    assert!(round_to_tick(&amt(3, 0), &amt(3, 28)).is_some());
    assert_eq!(round_to_tick(&amt(4, 0), &amt(3, 28)), None);
    assert_eq!(round_to_tick(&amt(-4, 0), &amt(3, 28)), None);
}

#[test]
fn tick_rounding_refuses_a_price_that_is_not_moderate() {
    let top: i128 = 10_000_000_000_000_000_000_000_000_000;
    let big = amt(20_000_000_000_000_000_000_000_000_000, 0);
    assert_eq!(round_to_tick(&amt(top, 0), &amt(7, 0)), None);
    assert_eq!(round_to_tick(&amt(-top, 0), &amt(7, 0)), None);
    assert_eq!(round_to_tick(&amt(top, 0), &big), None);
    assert!(round_to_tick(&amt(top - 1, 0), &big).is_some());
    // Whatever it is, a price is kept for a tick that is not positive.
    assert_eq!(round_to_tick(&big, &amt(0, 0)), Some(big));
    assert_eq!(round_to_lot(&big, &amt(-1, 5)), Some(big));
    assert_eq!(trunc_to_lot(&big, &amt(0, 28)), Some(big));
}

#[test]
fn rounding_takes_steps_and_values_of_any_scale() {
    let third = amt(3_333_333_333_333_333_333_333_333_333, 28);
    assert_eq!(round_to_lot(&third, &amt(1, 3)).unwrap().text(), "0.333");
    assert_eq!(trunc_to_lot(&third, &amt(1, 3)).unwrap().text(), "0.333");
    let rounded = round_to_tick(&amt(100, 0), &third).unwrap();
    assert_eq!(rounded.text(), "99.99999999999999999999999999");
    assert_eq!(trim_to_sig_figs(&rounded, 5).unwrap().text(), "100.000");
}

#[test]
fn sig_fig_trimming_cuts_the_whole_part() {
    // 1234567 keeps its first five digits.
    let r = trim_to_sig_figs(&amt(1234567, 0), 5).unwrap();
    assert_eq!(r.text(), "1234500");
}

#[test]
fn sig_fig_trimming_rounds_the_decimal_places() {
    // 123.4567 has three whole digits, so two decimal places stay.
    assert_eq!(trim_to_sig_figs(&amt(1234567, 4), 5).unwrap().text(), "123.46");
    assert_eq!(trim_to_sig_figs(&amt(100, 0), 5).unwrap().text(), "100");
}

#[test]
fn sig_fig_trimming_refuses_a_whole_part_that_is_too_long() {
    // 10^23 has 24 whole digits, one more than 5 + 18.
    let big = amt(100_000_000_000_000_000_000_000, 0);
    assert_eq!(trim_to_sig_figs(&big, 5), None);
    let ok = amt(99_999_999_999_999_999_999_999, 0);
    assert_eq!(trim_to_sig_figs(&ok, 5).unwrap().text(), "99999000000000000000000");
}

#[test]
fn lot_rounding_goes_to_the_nearest_lot() {
    assert_eq!(round_to_lot(&amt(126, 2), &amt(1, 1)).unwrap().text(), "1.3");
    assert_eq!(round_to_lot(&amt(124, 2), &amt(1, 1)).unwrap().text(), "1.2");
}

#[test]
fn lot_truncation_cuts_down() {
    assert_eq!(trunc_to_lot(&amt(126, 2), &amt(1, 1)).unwrap().text(), "1.2");
    assert_eq!(trunc_to_lot(&amt(129, 2), &amt(1, 1)).unwrap().text(), "1.2");
}

#[test]
fn lot_truncation_never_exceeds_lot_rounding() {
    let lot = amt(25, 3);
    let mut m: i128 = 0;
    while m <= 400 {
        let qty = amt(m, 3);
        let cut = trunc_to_lot(&qty, &lot).unwrap();
        let rounded = round_to_lot(&qty, &lot).unwrap();
        assert!(cut.le(&rounded));
        assert!(cut.le(&qty));
        m += 7;
    }
}

#[test]
fn meta_rounds_price_to_tick_then_to_five_figures() {
    let meta = InstrumentMeta { tick_size: amt(1, 2), lot_size: amt(1, 3) };
    assert_eq!(meta.round_price(&amt(100, 0)).unwrap().text(), "100.00");
    // 65432.178 -> 65432.18 on the tick -> 65432 at five figures.
    assert_eq!(meta.round_price(&amt(65432178, 3)).unwrap().text(), "65432");
    assert_eq!(meta.round_qty(&amt(15, 4)).unwrap().text(), "0.002");
    assert_eq!(meta.trunc_qty(&amt(15, 4)).unwrap().text(), "0.001");
}

fn power_of_ten(n: u32) -> i128 {
    let mut p: i128 = 1;
    for _ in 0..n {
        p *= 10;
    }
    p
}

#[test]
fn rounding_answers_wherever_the_steps_can_be_counted() {
    let max: i128 = 79_228_162_514_264_337_593_543_950_335;
    let top = power_of_ten(28);
    let mut mantissas = vec![0, 1, 2, 3, 5, 7, 9, 15, 999_999_999, max, max - 1, max / 2, max / 3];
    for n in [1u32, 5, 9, 10, 14, 19, 20, 27, 28] {
        let p = power_of_ten(n);
        mantissas.push(p);
        mantissas.push(p - 1);
        mantissas.push(p + 1);
        mantissas.push(3 * p / 2);
        mantissas.push(p / 3);
    }
    let scales = [0u32, 1, 5, 9, 14, 19, 27, 28];
    let mut counted = 0u32;
    for &sm in &mantissas {
        for &ss in &scales {
            let step = amt(sm, ss);
            for &m in &mantissas {
                for &s in &scales {
                    for sign in [1i128, -1] {
                        let value = amt(sign * m, s);
                        if !value.countable_in(&step) {
                            assert_eq!(round_to_tick(&value, &step), None);
                            assert_eq!(trunc_to_lot(&value, &step), None);
                            continue;
                        }
                        counted += 1;
                        let price = round_to_tick(&value, &step).unwrap();
                        assert_eq!(
                            trim_to_sig_figs(&price, 5).is_some(),
                            price.whole_digits_at_most(23)
                        );
                        let rounded = round_to_lot(&value, &step).unwrap();
                        let cut = trunc_to_lot(&value, &step).unwrap();
                        assert_eq!(price, rounded);
                        if sign > 0 {
                            assert!(cut.le(&rounded));
                        }
                        if sm == 0 {
                            assert_eq!(rounded, value);
                            assert_eq!(cut, value);
                        }
                    }
                }
            }
        }
    }
    assert!(counted > 100_000);
    assert!(top > max / 10);
}

#[test]
fn rounding_answers_at_the_edge_of_what_can_be_counted() {
    // For each step, the largest value that holds 10^28 steps or is moderate.
    let max: i128 = 79_228_162_514_264_337_593_543_950_335;
    let steps = [
        amt(1, 0),
        amt(1, 1),
        amt(3, 1),
        amt(7, 9),
        amt(1, 14),
        amt(999_999_999, 14),
        amt(1, 27),
        amt(1, 28),
        amt(3, 28),
        amt(max, 28),
        amt(max, 14),
        amt(max, 0),
        amt(25, 2),
    ];
    for step in &steps {
        for scale in [0u32, 1, 9, 14, 27, 28] {
            // Walk the mantissa up by halving the distance to the first value refused.
            let mut low: i128 = 0;
            let mut high: i128 = max + 1;
            while high - low > 1 {
                let mid = low + (high - low) / 2;
                if amt(mid, scale).countable_in(step) {
                    low = mid;
                } else {
                    high = mid;
                }
            }
            for m in [low, low - 1, low / 2, -low] {
                if m > max || m < -max {
                    continue;
                }
                let value = amt(m, scale);
                assert!(value.countable_in(step));
                let rounded = round_to_lot(&value, step).unwrap();
                let cut = trunc_to_lot(&value, step).unwrap();
                assert!(round_to_tick(&value, step).is_some());
                if m >= 0 {
                    assert!(cut.le(&rounded));
                }
            }
        }
    }
}

#[test]
fn sig_fig_trimming_answers_for_every_count_of_figures() {
    let values = [amt(0, 0), amt(123456789, 4), amt(-123456789, 0), amt(1, 28), amt(5, 1)];
    for v in &values {
        for digits in [0u32, 1, 5, 10, 11, 28, 29, 1000, u32::MAX] {
            assert!(trim_to_sig_figs(v, digits).is_some());
        }
    }
    assert_eq!(trim_to_sig_figs(&amt(123456789, 4), 1).unwrap().text(), "10000");
    assert_eq!(trim_to_sig_figs(&amt(123456789, 4), 7).unwrap().text(), "12345.68");
    assert_eq!(trim_to_sig_figs(&amt(123456789, 4), 29).unwrap().text(), "12345.6789");
    assert_eq!(trim_to_sig_figs(&amt(0, 3), 5), Some(amt(0, 3)));
}
