use time::report::{hundredths, render_report};

fn decimal_real_line(ms: u128) -> String {
    let mut elapsed: rust_decimal::Decimal =
        rust_decimal::Decimal::new(ms as i64, 3) / rust_decimal::Decimal::new(1000, 3);
    elapsed.rescale(2);
    format!("real {}\n", elapsed)
}

#[test]
fn zero_elapsed_reports_zero() {
    assert_eq!(render_report(0), "real 0.00\nuser 0.00\nsys 0.00\n");
}

#[test]
fn one_second_report() {
    assert_eq!(render_report(1000), "real 1.00\nuser 0.00\nsys 0.00\n");
}

#[test]
fn one_second_report_begins_with_real_one() {
    let text: String = render_report(1000);
    assert!(text.starts_with("real 1.0"));
    assert!(text.ends_with("user 0.00\nsys 0.00\n"));
}

#[test]
fn rounding_is_half_away_from_zero() {
    assert_eq!(render_report(124), "real 0.12\nuser 0.00\nsys 0.00\n");
    assert_eq!(render_report(125), "real 0.13\nuser 0.00\nsys 0.00\n");
    assert_eq!(render_report(126), "real 0.13\nuser 0.00\nsys 0.00\n");
    assert_eq!(render_report(4), "real 0.00\nuser 0.00\nsys 0.00\n");
    assert_eq!(render_report(5), "real 0.01\nuser 0.00\nsys 0.00\n");
}

#[test]
fn near_zero_reports_round_to_a_hundredth() {
    assert_eq!(render_report(1), "real 0.00\nuser 0.00\nsys 0.00\n");
    assert_eq!(render_report(9), "real 0.01\nuser 0.00\nsys 0.00\n");
    assert_eq!(render_report(10), "real 0.01\nuser 0.00\nsys 0.00\n");
}

#[test]
fn long_durations_keep_every_digit() {
    assert_eq!(render_report(3601234), "real 3601.23\nuser 0.00\nsys 0.00\n");
    assert_eq!(render_report(86400000), "real 86400.00\nuser 0.00\nsys 0.00\n");
}

#[test]
fn user_and_sys_are_always_zero() {
    let samples: Vec<u128> = vec![0, 1, 7, 99, 100, 999, 1000, 59999, 123456789];
    for ms in samples {
        let text: String = render_report(ms);
        assert!(text.starts_with("real "));
        assert!(text.ends_with("\nuser 0.00\nsys 0.00\n"));
    }
}

#[test]
fn hundredths_rounds_to_nearest() {
    assert_eq!(hundredths(0), 0);
    assert_eq!(hundredths(14), 1);
    assert_eq!(hundredths(15), 2);
    assert_eq!(hundredths(1000), 100);
    assert_eq!(hundredths(999), 100);
    assert_eq!(hundredths(994), 99);
}

#[test]
fn report_matches_decimal_rendering() {
    let samples: Vec<u128> = vec![
        0, 1, 4, 5, 9, 10, 94, 95, 99, 100, 124, 125, 126, 999, 1000, 1001, 1049, 1050, 1051,
        12345, 59999, 60000, 3601234, 86400000,
    ];
    for ms in samples {
        let expected: String = decimal_real_line(ms) + "user 0.00\nsys 0.00\n";
        assert_eq!(render_report(ms), expected, "elapsed {} ms", ms);
    }
}
