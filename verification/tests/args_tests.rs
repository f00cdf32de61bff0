use cpu_hash::DEFAULT_ITERATIONS;
use cpu_hash::effective_iterations;
use cpu_hash::parse_u64;

#[test]
fn default_when_argument_missing() {
    assert_eq!(effective_iterations(None), 2_000_000);
    assert_eq!(DEFAULT_ITERATIONS, 2_000_000);
}

#[test]
fn default_when_argument_not_numeric() {
    for bad in ["", "abc", "12x3", "-5", " 12", "12 ", "+", "1.5"] {
        let arg = bad.as_bytes().to_vec();
        assert_eq!(effective_iterations(Some(&arg)), 2_000_000, "input {:?}", bad);
    }
}

#[test]
fn default_when_argument_overflows() {
    let too_big = b"18446744073709551616".to_vec();
    assert_eq!(effective_iterations(Some(&too_big)), 2_000_000);
    let way_too_big = b"99999999999999999999999".to_vec();
    assert_eq!(effective_iterations(Some(&way_too_big)), 2_000_000);
}

#[test]
fn explicit_default_matches_missing() {
    let explicit = b"2000000".to_vec();
    assert_eq!(effective_iterations(Some(&explicit)), effective_iterations(None));
}

#[test]
fn numeric_argument_is_used() {
    assert_eq!(effective_iterations(Some(&b"123".to_vec())), 123);
    assert_eq!(effective_iterations(Some(&b"+123".to_vec())), 123);
    assert_eq!(effective_iterations(Some(&b"0".to_vec())), 0);
    assert_eq!(
        effective_iterations(Some(&b"18446744073709551615".to_vec())),
        u64::MAX
    );
}

#[test]
fn parse_u64_matches_std_parse() {
    for input in [
        "", "0", "7", "42", "007", "+0", "+", "++1", "184467440737095516150",
        "18446744073709551615", "18446744073709551616", "abc", "1a", "a1", "-1",
    ] {
        let ours = parse_u64(&input.as_bytes().to_vec());
        let std_parse = input.parse::<u64>().ok();
        assert_eq!(ours, std_parse, "input {:?}", input);
    }
}
