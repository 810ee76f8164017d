//! Drawing a pairing URL.

use laplus::qr::drawn;

#[test]
fn a_pairing_url_becomes_a_square_of_blocks() {
    let drawn = drawn("http://192.168.1.10:4773/#token=k7m2p9x4qw3z").expect("a code");
    let lines: Vec<&str> = drawn.lines().collect();
    assert!(lines.len() > 10, "a QR code is more than {} rows", lines.len());
    let width = lines[0].chars().count();
    assert!(lines.iter().all(|line| line.chars().count() == width));
    assert!(drawn.chars().any(|character| character == '█'));
}

#[test]
fn a_pairing_url_fits_in_a_terminal() {
    let drawn = drawn("http://192.168.100.200:4773/#token=k7m2p9x4qw3z").expect("a code");
    let widest = drawn.lines().map(|line| line.chars().count()).max().unwrap_or(0);
    assert!(widest <= 80, "{widest} columns is wider than a terminal");
}

#[test]
fn there_is_a_quiet_zone_around_it() {
    let drawn = drawn("http://10.0.0.4:4773/#token=k7m2p9x4qw3z").expect("a code");
    let lines: Vec<&str> = drawn.lines().collect();
    assert!(lines[0].chars().all(|character| character == ' ' || character == '█'));
    assert!(
        lines[0].trim().is_empty() || lines[1].trim().is_empty(),
        "the top of the code is not padded"
    );
}

#[test]
fn something_too_long_to_encode_is_simply_no_code() {
    assert_eq!(drawn(&"x".repeat(10_000)), None);
}

#[test]
fn the_same_value_is_drawn_alike_and_another_is_not() {
    assert_eq!(drawn("http://10.0.0.4:4773/"), drawn("http://10.0.0.4:4773/"));
    assert_ne!(drawn("http://10.0.0.4:4773/"), drawn("http://10.0.0.5:4773/"));
}
