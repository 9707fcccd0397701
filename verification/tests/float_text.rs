use dcc_api_core::float_text::is_float_literal;

fn accepted(s: &str) -> bool {
    let chars: Vec<char> = s.chars().collect();
    is_float_literal(&chars)
}

#[test]
fn float_literals_match_f64_parsing() {
    let cases = [
        "0", "1", "9.99", "100.0", "-0.5", "+3", "1.", ".5", ".", "", " 1", "1 ", "1e3", "1E3",
        "1e", "1e+", "1e-7", "2.5E+10", "e5", "+", "-", "inf", "-inf", "+Infinity", "INF", "NaN",
        "nan", "infinit", "infinityx", "1,5", "1.2.3", "0x10", "abc", "invalid", "1_000", "١",
        "12e3.4", "--1", "+-1", "0.0e0", "00012", "1e0001",
    ];
    for c in cases {
        assert_eq!(accepted(c), c.parse::<f64>().is_ok(), "case {:?}", c);
    }
}
