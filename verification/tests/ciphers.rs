use rclc::ciphers::{caeser, list_ciphers, shift};

#[test]
fn list_ciphers_test() {
    assert_eq!(list_ciphers(), "caeser, shift");
}

#[test]
fn caeser_test() {
    assert_eq!(caeser("cat"), "zxq");
    assert_eq!(caeser("hello"), "eblln");
    assert_eq!(caeser("rclc"), "oziz");
    assert_eq!(caeser("RCLC"), "OZIZ");
}

#[test]
fn shift_test() {
    assert_eq!(shift(3, "cat"), "zxq");
    assert_eq!(shift(3, "hello"), "eblln");
    assert_eq!(shift(3, "rclc"), "oziz");
    assert_eq!(shift(3, "RCLC"), "OZIZ");
    assert_eq!(shift(4, "rclc"), "nyhy");
    assert_eq!(shift(29, "rclc"), "oziz");
    assert_eq!(shift(29, "RCLC"), "OZIZ");
}

#[test]
fn shift_leaves_other_characters_alone() {
    assert_eq!(shift(3, "Hi, there! 42"), "Ef, qebob! 42");
    assert_eq!(shift(5, ""), "");
    assert_eq!(shift(1, "é-ü"), "é-ü");
}

#[test]
fn shift_by_zero_and_full_turns_is_identity() {
    assert_eq!(shift(0, "Chat"), "Chat");
    assert_eq!(shift(26, "Chat"), "Chat");
    assert_eq!(shift(-26, "Chat"), "Chat");
}

#[test]
fn shift_negative_key_moves_forward() {
    assert_eq!(shift(-3, "zxq"), "cat");
    assert_eq!(shift(-1, "Zz"), "Aa");
    assert_eq!(shift(i16::MIN, "abc"), shift(i16::MIN % 26 + 26, "abc"));
    assert_eq!(shift(i16::MAX, "abc"), shift(i16::MAX % 26, "abc"));
}

#[test]
fn shift_inverse_restores_message() {
    let msg = "The Quick Brown Fox, 1999!";
    for k in [-40i16, -3, 0, 1, 7, 25, 26, 300] {
        assert_eq!(shift(-k, &shift(k, msg)), msg);
    }
}

#[test]
fn shift_period_is_26() {
    let msg = "Period Check";
    for k in [-30i16, -1, 0, 5, 100] {
        assert_eq!(shift(k + 26, msg), shift(k, msg));
    }
}

#[test]
fn hello_under_key_three() {
    assert_eq!(shift(29, "hello"), "eblln");
    assert_eq!(shift(-23, "hello"), "eblln");
    assert_eq!(shift(4, "hello"), "dahhk");
    assert_eq!(shift(3, "Hello"), "Ebiil");
    assert_eq!(shift(3, "hello!"), "ebiil!");
}

#[test]
fn caeser_wraps_around() {
    assert_eq!(caeser("abc"), "xyz");
    assert_eq!(caeser("ABC xyz"), "XYZ uvw");
}
