use per_oxo::conversation::{conversation_id, push_decimal};

#[test]
fn the_smaller_user_comes_first() {
    assert_eq!(conversation_id(1, 2), "1_2");
    assert_eq!(conversation_id(2, 1), "1_2");
    assert_eq!(conversation_id(42, 7), "7_42");
}

#[test]
fn conversation_of_a_pair_does_not_depend_on_the_order() {
    let users = [i32::MIN, -100, -1, 0, 1, 9, 10, 11, 99, 100, 12345, i32::MAX];
    for a in users {
        for b in users {
            assert_eq!(conversation_id(a, b), conversation_id(b, a));
            let (low, high) = if a < b { (a, b) } else { (b, a) };
            assert_eq!(conversation_id(a, b), format!("{}_{}", low, high));
        }
    }
}

#[test]
fn a_user_has_a_conversation_with_itself() {
    assert_eq!(conversation_id(5, 5), "5_5");
}

#[test]
fn negative_users_keep_their_sign() {
    assert_eq!(conversation_id(-3, 2), "-3_2");
    assert_eq!(conversation_id(i32::MIN, i32::MAX), "-2147483648_2147483647");
}

#[test]
fn decimal_text_is_appended() {
    for n in [0i64, 7, 10, 909, -1, -10, i64::MAX, i64::MIN] {
        let mut out = String::from("n=");
        push_decimal(&mut out, n);
        assert_eq!(out, format!("n={}", n));
    }
}
