use is_rust::{is_at_least_rusty, is_not_rust, is_rust, is_rusty, is_very_rusty, str_is_rust};

const STYLIZED: [&str; 20] = [
    "\u{FF32}",
    "\u{1D3F}",
    "\u{1D4E1}",
    "\u{1D5B1}",
    "\u{1D5E5}",
    "\u{1D57D}",
    "\u{1D64D}",
    "\u{1D411}",
    "\u{1D445}",
    "\u{1D479}",
    "\u{1D619}",
    "\u{1D681}",
    "\u{1F12C}",
    "\u{1F141}",
    "\u{24C7}",
    "\u{211B}",
    "\u{211C}",
    "\u{211D}",
    "fe2o3",
    "rust is a systems programming language that runs blazingly fast, prevents segfaults, and guarantees thread safety.",
];

#[test]
fn casing_variants_are_rust() {
    assert!(is_rust("rust"));
    assert!(is_rust("RUST"));
    assert!(is_rust("Rust"));
    assert!(is_rust("RusT"));
    assert!(is_rust("rUsT"));
}

#[test]
fn hex_forms_are_rust() {
    assert!(is_rust("b7410e"));
    assert!(is_rust("#b7410e"));
    assert!(is_rust("B7410E"));
    assert!(!is_rust("b7410f"));
}

#[test]
fn rgb_triple_matches_reference() {
    assert!(is_rust("rgb(173, 65, 14)"));
    assert!(!is_rust("rgb(173, 65, 11)"));
    assert!(!is_rust("rgb(172, 65, 14)"));
    assert!(is_rust("rgb(173,65,14)"));
    assert!(is_rust("173, 65, 14"));
    assert!(is_rust("(173, 65, 14"));
}

#[test]
fn rgb_alpha_must_start_with_one() {
    assert!(is_rust("rgb(173, 65, 14, 1)"));
    assert!(!is_rust("rgb(173, 65, 14, 0)"));
    assert!(is_rust("rgb(173, 65, 14, 1.0)"));
    assert!(!is_rust("rgb(173, 65, 14, 0.5)"));
}

#[test]
fn stylized_forms_are_rust() {
    for form in STYLIZED.iter() {
        assert!(is_rust(form));
        assert!(str_is_rust(form));
    }
}

#[test]
fn rusty_words() {
    assert!(is_rusty("rusty"));
    assert!(is_rusty("RUSTY"));
    assert!(is_rusty("ferris"));
    assert!(is_rusty("Ferris"));
    assert!(!is_rusty("rust"));
    assert!(!is_rusty("b7410e"));
}

#[test]
fn at_least_rusty_accepts_both() {
    assert!(is_at_least_rusty("rust"));
    assert!(is_at_least_rusty("rusty"));
    assert!(is_at_least_rusty("ferris"));
    assert!(!is_at_least_rusty("python"));
}

#[test]
fn very_rusty_needs_every_value() {
    assert!(is_very_rusty(&["rust", "RUST"]));
    assert!(!is_very_rusty(&["rust", "c"]));
    assert!(is_very_rusty(&[]));
    assert!(is_very_rusty(&["rust", "b7410e", "#b7410e", "rgb(173, 65, 14)"]));
}

#[test]
fn not_rust_is_the_negation() {
    assert!(is_not_rust("python"));
    assert!(is_not_rust("ruby"));
    assert!(!is_not_rust("rust"));
}

#[test]
fn repeated_calls_agree() {
    for input in ["rust", "rusty", "python", "rgb(173, 65, 14)", ""].iter() {
        assert_eq!(is_rust(input), is_rust(input));
        assert_eq!(is_rusty(input), is_rusty(input));
        assert_eq!(is_at_least_rusty(input), is_at_least_rusty(input));
        assert_eq!(is_not_rust(input), is_not_rust(input));
        assert_eq!(str_is_rust(input), str_is_rust(input));
    }
}

#[test]
fn malformed_input_returns_false() {
    assert!(!is_rust("rgb(173, 65)"));
    assert!(!is_rust("rgb(173"));
    assert!(!is_rust("(173"));
    assert!(!is_rust("rgb()"));
    assert!(!is_rust(""));
    assert!(!is_rust("rgb)173, 65, 14("));
}

#[test]
fn case_sensitive_variant_does_not_fold() {
    assert!(str_is_rust("rust"));
    assert!(!str_is_rust("RUST"));
    assert!(!str_is_rust("Rust"));
    assert!(str_is_rust("b7410e"));
    assert!(str_is_rust("rgb(173, 65, 14)"));
}

#[test]
fn extra_fields_beyond_four_are_tolerated() {
    assert!(is_rust("rgb(173, 65, 14, 1, 9)"));
    assert!(is_rust("rgb(173, 65, 14, 0, 9)"));
}
