use pass_vault::numeral::{parse_i32, parse_u8};
use pass_vault::prompt::{
    get_password_length, menu_action, menu_choice, password_length_from_text, LengthError,
    MenuAction, MAX_PASSWORD_LENGTH, MIN_PASSWORD_LENGTH,
};

#[test]
fn length_bounds() {
    assert_eq!(MIN_PASSWORD_LENGTH, 12);
    assert_eq!(MAX_PASSWORD_LENGTH, 18);
}

#[test]
fn length_in_range_is_taken() {
    assert_eq!(password_length_from_text("12"), Ok(12));
    assert_eq!(password_length_from_text("15"), Ok(15));
    assert_eq!(password_length_from_text("18"), Ok(18));
    assert_eq!(password_length_from_text("+14"), Ok(14));
}

#[test]
fn length_out_of_range_is_refused() {
    assert_eq!(password_length_from_text("11"), Err(LengthError::OutOfRange));
    assert_eq!(password_length_from_text("19"), Err(LengthError::OutOfRange));
    assert_eq!(password_length_from_text("0"), Err(LengthError::OutOfRange));
    assert_eq!(password_length_from_text("255"), Err(LengthError::OutOfRange));
}

#[test]
fn length_not_a_number_is_refused() {
    assert_eq!(password_length_from_text(""), Err(LengthError::NotANumber));
    assert_eq!(password_length_from_text("abc"), Err(LengthError::NotANumber));
    assert_eq!(password_length_from_text("1 2"), Err(LengthError::NotANumber));
    assert_eq!(password_length_from_text("-12"), Err(LengthError::NotANumber));
    assert_eq!(password_length_from_text("256"), Err(LengthError::NotANumber));
    assert_eq!(password_length_from_text("+"), Err(LengthError::NotANumber));
}

#[test]
fn length_line_is_trimmed() {
    assert_eq!(get_password_length("  16\n"), Ok(16));
    assert_eq!(get_password_length("\t13 \r\n"), Ok(13));
    assert_eq!(get_password_length("20\n"), Err(LengthError::OutOfRange));
    assert_eq!(get_password_length("twelve\n"), Err(LengthError::NotANumber));
}

#[test]
fn parse_u8_matches_std() {
    for t in ["0", "7", "255", "256", "+9", "-0", "", "12a", "007", "1000"] {
        assert_eq!(parse_u8(t), t.parse::<u8>().ok(), "{}", t);
    }
}

#[test]
fn parse_i32_matches_std() {
    for t in [
        "0", "-1", "+3", "2147483647", "2147483648", "-2147483648", "-2147483649", "-", "+",
        "", "4x", "99999999999",
    ] {
        assert_eq!(parse_i32(t), t.parse::<i32>().ok(), "{}", t);
    }
}

#[test]
fn menu_choice_reads_trimmed_line() {
    assert_eq!(menu_choice("1\n"), Some(1));
    assert_eq!(menu_choice("  3  \n"), Some(3));
    assert_eq!(menu_choice("-7\n"), Some(-7));
    assert_eq!(menu_choice("one\n"), None);
}

#[test]
fn menu_numbers_select_actions() {
    assert_eq!(menu_action(1), MenuAction::MakePassword);
    assert_eq!(menu_action(2), MenuAction::ViewPassword);
    assert_eq!(menu_action(3), MenuAction::ViewAll);
    assert_eq!(menu_action(4), MenuAction::ChangePassword);
    assert_eq!(menu_action(0), MenuAction::Nothing);
    assert_eq!(menu_action(5), MenuAction::Nothing);
    assert_eq!(menu_action(-1), MenuAction::Nothing);
}
