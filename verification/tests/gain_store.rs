use iron_distort::gain::GainDb;

#[test]
fn decibel_round_trip() {
    // Storing a decibel value and reading it back is exact.
    let g = GainDb::new_from_micro_decibels(3_500_000);
    assert_eq!(3_500_000, g.get_micro_decibels());
    let g = GainDb::new_from_micro_decibels(-6_250_000);
    assert_eq!(-6_250_000, g.get_micro_decibels());
}

#[test]
fn default_reads_zero_decibels() {
    let g = GainDb::default();
    assert_eq!(0, g.get_micro_decibels());
    assert_eq!("0.00 dB", g.text());
}

#[test]
fn set_then_get() {
    let mut g = GainDb::default();
    g.set_micro_decibels(20_000_000);
    assert_eq!(20_000_000, g.get_micro_decibels());
}

#[test]
fn decibel_text_two_decimals() {
    assert_eq!("3.50 dB", GainDb::new_from_micro_decibels(3_500_000).text());
    assert_eq!("-6.25 dB", GainDb::new_from_micro_decibels(-6_250_000).text());
    assert_eq!("20.00 dB", GainDb::new_from_micro_decibels(20_000_000).text());
    assert_eq!("123.45 dB", GainDb::new_from_micro_decibels(123_450_000).text());
}

#[test]
fn decibel_text_rounds_half_away_from_zero() {
    assert_eq!("0.00 dB", GainDb::new_from_micro_decibels(4_999).text());
    assert_eq!("0.01 dB", GainDb::new_from_micro_decibels(5_000).text());
    // A tiny negative value keeps its sign, as the host's float
    // formatting does.
    assert_eq!("-0.00 dB", GainDb::new_from_micro_decibels(-4_999).text());
    assert_eq!("-0.01 dB", GainDb::new_from_micro_decibels(-5_000).text());
}
