use batadv_prometheus::number::{
    decimal, digit, digits_end, exponent, letter, mantissa, not_a_number_text, number, one_text,
    special, spells, zero_text,
};

fn chars(s: &str) -> Vec<char> {
    s.chars().collect()
}

fn accepted(s: &str) -> bool {
    number(&chars(s))
}

#[test]
fn numbers_are_accepted() {
    let cases = [
        "0", "1", "10", "2048", "007", "3.", ".5", "3.25", "0.0", "1e5", "1E5", "1e+5", "1e-5",
        "1.e3", ".5e3", "1.5E-10", "+3", "-3", "+.5", "-1e-1", "inf", "INF", "Inf", "+inf",
        "-inf", "infinity", "Infinity", "-INFINITY", "nan", "NaN", "NAN", "+nan", "-NaN",
        "18446744073709551616", "1e400", "0.000000000000000000000000000001",
    ];
    for case in cases {
        assert!(accepted(case), "{:?}", case);
        assert!(case.parse::<f64>().is_ok(), "{:?}", case);
    }
}

#[test]
fn other_texts_are_refused() {
    let cases = [
        "", " ", "+", "-", ".", "+.", "e", "e5", "1e", "1e+", "1e-", "1e5.0", "1..2", "1.2.3",
        "--1", "+-1", "1-", "1+1", "0x10", "1_000", " 1", "1 ", "1,5", "notanumber", "in",
        "infinit", "infinityy", "na", "nann", "i", "1f", "1d", "1:", ":1", "1e5e5", "\u{661}",
        "\u{ff11}", "1\u{a0}", "yes", "enabled", "1:2",
    ];
    for case in cases {
        assert!(!accepted(case), "{:?}", case);
        assert!(case.parse::<f64>().is_err(), "{:?}", case);
    }
}

#[test]
fn acceptance_agrees_with_the_standard_parser() {
    let alphabet = ['0', '7', '.', 'e', 'E', '+', '-', 'n', 'a', 'i', 'f', ' '];
    let mut indices = [0usize; 5];
    let mut len = 0usize;
    let mut checked = 0u32;
    loop {
        let text: String = indices[..len].iter().map(|i| alphabet[*i]).collect();
        assert_eq!(accepted(&text), text.parse::<f64>().is_ok(), "{:?}", text);
        checked += 1;
        let mut k = 0;
        while k < len && indices[k] == alphabet.len() - 1 {
            indices[k] = 0;
            k += 1;
        }
        if k == len {
            if len == 5 {
                break;
            }
            len += 1;
        } else {
            indices[k] += 1;
        }
    }
    assert!(checked > 250_000);
}

#[test]
fn digits_and_letters() {
    assert!(digit('0') && digit('9') && !digit('a') && !digit('/') && !digit(':'));
    assert!(letter('e', 'e') && letter('E', 'e') && !letter('f', 'e') && !letter('%', 'e'));
    assert_eq!(digits_end(&chars("123a"), 0), 3);
    assert_eq!(digits_end(&chars("123a"), 3), 3);
    assert_eq!(digits_end(&chars("a123"), 1), 4);
    assert_eq!(digits_end(&chars(""), 0), 0);
    assert_eq!(digits_end(&chars("12"), 5), 5);
}

#[test]
fn parts_of_a_number() {
    assert!(spells(&chars("NaN"), &chars("nan")));
    assert!(!spells(&chars("na"), &chars("nan")));
    assert!(special(&chars("iNfInItY")) && special(&chars("inf")) && !special(&chars("info")));
    assert!(mantissa(&chars("12")) && mantissa(&chars("1.")) && mantissa(&chars(".1")));
    assert!(!mantissa(&chars(".")) && !mantissa(&chars("")) && !mantissa(&chars("1.2.")));
    assert!(exponent(&chars("e1")) && exponent(&chars("E-12")) && exponent(&chars("e+0")));
    assert!(!exponent(&chars("e")) && !exponent(&chars("e+")) && !exponent(&chars("1")));
    assert!(decimal(&chars("1.5e3")) && !decimal(&chars("+1")) && !decimal(&chars("nan")));
}

#[test]
fn literals_denote_their_values() {
    assert_eq!(zero_text(), "0");
    assert_eq!(one_text(), "1");
    assert_eq!(not_a_number_text(), "NaN");
    assert_eq!(zero_text().parse::<f64>().unwrap(), 0.0);
    assert_eq!(one_text().parse::<f64>().unwrap(), 1.0);
    assert!(not_a_number_text().parse::<f64>().unwrap().is_nan());
}
