use vstd::prelude::*;

use crate::numeral::{i32_of_text, parse_i32, parse_u8, u8_of_text};
use crate::text::{trim_line, trimmed};

verus! {

/// The shortest password the user may ask for.
pub const MIN_PASSWORD_LENGTH: u8 = 12;

/// The longest password the user may ask for.
pub const MAX_PASSWORD_LENGTH: u8 = 18;

/// Why an answer to the password-length question was not taken. Either way
/// the question is asked again.
#[derive(PartialEq, Eq, Structural, Debug, Clone, Copy)]
pub enum LengthError {
    /// The answer is not a whole number that fits in a byte.
    NotANumber,
    /// The answer is a number outside the allowed lengths.
    OutOfRange,
}

/// The answer to the password-length question, given its text without
/// surrounding white space.
pub open spec fn length_answer(s: Seq<char>) -> Result<u8, LengthError> {
    match u8_of_text(s) {
        None => Err(LengthError::NotANumber),
        Some(n) => if MIN_PASSWORD_LENGTH <= n <= MAX_PASSWORD_LENGTH {
            Ok(n)
        } else {
            Err(LengthError::OutOfRange)
        },
    }
}

/// What the user asked for at the main menu.
#[derive(PartialEq, Eq, Structural, Debug, Clone, Copy)]
pub enum MenuAction {
    /// Make a password and store it as a new entry.
    MakePassword,
    /// Look up one password by its label.
    ViewPassword,
    /// List all entries.
    ViewAll,
    /// Change a password; offered but not carried out.
    ChangePassword,
    /// Any other number: nothing is done.
    Nothing,
}

/// The action that a menu number selects.
pub open spec fn action_of(choice: i32) -> MenuAction {
    if choice == 1 {
        MenuAction::MakePassword
    } else if choice == 2 {
        MenuAction::ViewPassword
    } else if choice == 3 {
        MenuAction::ViewAll
    } else if choice == 4 {
        MenuAction::ChangePassword
    } else {
        MenuAction::Nothing
    }
}

/// Judges an answer to the password-length question, already stripped of
/// surrounding white space: a number from 12 to 18 is taken.
pub fn password_length_from_text(t: &str) -> (r: Result<u8, LengthError>)
    ensures
        r == length_answer(t@),
{
    match parse_u8(t) {
        None => Err(LengthError::NotANumber),
        Some(n) => if MIN_PASSWORD_LENGTH <= n && n <= MAX_PASSWORD_LENGTH {
            Ok(n)
        } else {
            Err(LengthError::OutOfRange)
        },
    }
}

/// Judges a line that the user typed in answer to the password-length
/// question.
pub fn get_password_length(line: &str) -> (r: Result<u8, LengthError>)
    ensures
        r == length_answer(trimmed(line@)),
        r matches Ok(n) ==> MIN_PASSWORD_LENGTH <= n <= MAX_PASSWORD_LENGTH,
{
    password_length_from_text(trim_line(line))
}

/// The menu number in a line that the user typed, or `None` where the line
/// holds no whole number.
pub fn menu_choice(line: &str) -> (r: Option<i32>)
    ensures
        r == i32_of_text(trimmed(line@)),
{
    parse_i32(trim_line(line))
}

/// The action that a menu number selects.
pub fn menu_action(choice: i32) -> (r: MenuAction)
    ensures
        r == action_of(choice),
{
    if choice == 1 {
        MenuAction::MakePassword
    } else if choice == 2 {
        MenuAction::ViewPassword
    } else if choice == 3 {
        MenuAction::ViewAll
    } else if choice == 4 {
        MenuAction::ChangePassword
    } else {
        MenuAction::Nothing
    }
}

} // verus!
