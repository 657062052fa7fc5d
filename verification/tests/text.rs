use shogi_session::text::{
    has_no_triple_digit, nth_token, parse_i32, parse_key_val, second_token, third_token, trim,
};
use shogi_session::joystick::{map_axis, parse_joystick_data, Joystick};

#[test]
fn integers_parse_like_the_standard_library() {
    assert_eq!(parse_i32("0"), Some(0));
    assert_eq!(parse_i32("3000"), Some(3000));
    assert_eq!(parse_i32("+42"), Some(42));
    assert_eq!(parse_i32("-5"), Some(-5));
    assert_eq!(parse_i32("007"), Some(7));
    assert_eq!(parse_i32("2147483647"), Some(i32::MAX));
    assert_eq!(parse_i32("-2147483648"), Some(i32::MIN));
    assert_eq!(parse_i32("2147483648"), None);
    assert_eq!(parse_i32("-2147483649"), None);
    assert_eq!(parse_i32("99999999999999999999"), None);
    assert_eq!(parse_i32(""), None);
    assert_eq!(parse_i32("+"), None);
    assert_eq!(parse_i32("-"), None);
    assert_eq!(parse_i32(" 5"), None);
    assert_eq!(parse_i32("5 "), None);
    assert_eq!(parse_i32("1e3"), None);
    assert_eq!(parse_i32("abc"), None);
}

#[test]
fn trim_strips_ascii_whitespace() {
    assert_eq!(trim("  512\r\n"), "512");
    assert_eq!(trim("\t-3 "), "-3");
    assert_eq!(trim("x"), "x");
    assert_eq!(trim("   "), "");
    assert_eq!(trim(""), "");
}

#[test]
fn second_token_of_a_line() {
    assert_eq!(second_token("bestmove 7g7f ponder 3c3d"), Some("7g7f"));
    assert_eq!(second_token("  a   b  "), Some("b"));
    assert_eq!(second_token("bestmove"), None);
    assert_eq!(second_token(""), None);
    assert_eq!(second_token("   "), None);
}

#[test]
fn tokens_are_counted_from_zero() {
    let line = "board b 18P 42 moves 7g7f";
    assert_eq!(nth_token(line, 0), Some("board"));
    assert_eq!(nth_token(line, 2), Some("18P"));
    assert_eq!(nth_token(line, 3), Some("42"));
    assert_eq!(nth_token(line, 5), Some("7g7f"));
    assert_eq!(nth_token(line, 6), None);
    assert_eq!(third_token(line), Some("18P"));
}

#[test]
fn triple_digits_are_detected() {
    assert!(has_no_triple_digit("18P2l"));
    assert!(has_no_triple_digit(""));
    assert!(!has_no_triple_digit("260P"));
    assert!(!has_no_triple_digit("ab1234cd"));
}

#[test]
fn key_value_pairs_split_at_the_first_equals() {
    assert_eq!(parse_key_val("USI_Hash=256"), Ok(("USI_Hash".to_string(), "256".to_string())));
    assert_eq!(parse_key_val("k=v=w"), Ok(("k".to_string(), "v=w".to_string())));
    assert_eq!(parse_key_val("=v"), Ok(("".to_string(), "v".to_string())));
    assert_eq!(
        parse_key_val("oops"),
        Err("invalid KEY=VALUE: no `=` found in `oops`".to_string())
    );
}

#[test]
fn axis_values_scale_onto_the_board() {
    assert_eq!(map_axis(0), 0);
    assert_eq!(map_axis(1023), 8);
    assert_eq!(map_axis(517), 4);
    assert_eq!(map_axis(512), 4);
    assert_eq!(map_axis(64), 1);
    assert_eq!(map_axis(63), 0);
    assert_eq!(map_axis(-5), 0);
    assert_eq!(map_axis(2000), 8);
}

#[test]
fn device_lines_decode_into_readings() {
    let lines = vec!["1".to_string(), " 512 ".to_string(), "1023\r".to_string()];
    assert_eq!(parse_joystick_data(&lines), Some((1, 512, 1023)));

    let joystick = Joystick::new();
    assert_eq!(joystick.parse_joystick_data(&lines), Some((1, 512, 1023)));
    // rank comes from y, file from x
    assert_eq!(joystick.decode_reading(&lines), Some((1, 8, 4)));

    let short = vec!["1".to_string(), "2".to_string()];
    assert_eq!(parse_joystick_data(&short), None);
    let bad = vec!["1".to_string(), "x".to_string(), "3".to_string()];
    assert_eq!(parse_joystick_data(&bad), None);
}
