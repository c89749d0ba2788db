use rand::seq::SliceRandom;
use vstd::prelude::*;

use crate::text::push_char;

verus! {

/// The characters a generated password is drawn from, in a fixed order:
/// `!`, the digits, the lower-case and upper-case letters, then the symbols
/// `@#$%^&*(){}:;`.
pub open spec fn alphabet() -> Seq<char> {
    seq![
        '!', '1', '2', '3', '4', '5', '6', '7', '8', '9', '0', 'a', 'b', 'c', 'd', 'e',
        'f', 'g', 'h', 'i', 'j', 'k', 'l', 'm', 'n', 'o', 'p', 'q', 'r', 's', 't', 'u',
        'v', 'w', 'x', 'y', 'z', 'A', 'B', 'C', 'D', 'E', 'F', 'G', 'H', 'I', 'J', 'K',
        'L', 'M', 'N', 'O', 'P', 'Q', 'R', 'S', 'T', 'U', 'V', 'W', 'X', 'Y', 'Z', '@',
        '#', '$', '%', '^', '&', '*', '(', ')', '{', '}', ':', ';'
    ]
}

/// Whether `c` may appear in a generated password.
pub open spec fn in_alphabet(c: char) -> bool {
    alphabet().contains(c)
}

/// Whether every character of `s` is drawn from the alphabet.
pub open spec fn all_in_alphabet(s: Seq<char>) -> bool {
    forall|i: int| 0 <= i < s.len() ==> #[trigger] in_alphabet(s[i])
}

/// The alphabet as a vector of characters.
pub fn alphabet_chars() -> (r: Vec<char>)
    ensures
        r@ == alphabet(),
{
    let r: Vec<char> = vec![
        '!', '1', '2', '3', '4', '5', '6', '7', '8', '9', '0', 'a', 'b', 'c', 'd', 'e',
        'f', 'g', 'h', 'i', 'j', 'k', 'l', 'm', 'n', 'o', 'p', 'q', 'r', 's', 't', 'u',
        'v', 'w', 'x', 'y', 'z', 'A', 'B', 'C', 'D', 'E', 'F', 'G', 'H', 'I', 'J', 'K',
        'L', 'M', 'N', 'O', 'P', 'Q', 'R', 'S', 'T', 'U', 'V', 'W', 'X', 'Y', 'Z', '@',
        '#', '$', '%', '^', '&', '*', '(', ')', '{', '}', ':', ';'
    ];
    assert(r@ =~= alphabet());
    r
}

/// Relies on rand's `SliceRandom::choose` over the thread-local generator:
/// `None` exactly for an empty slice, otherwise one of the slice's elements,
/// each with the same chance.
#[verifier::external_body]
fn choose_char(chars: &[char]) -> (r: Option<char>)
    ensures
        r.is_none() <==> chars@.len() == 0,
        r matches Some(c) ==> chars@.contains(c),
{
    chars.choose(&mut rand::thread_rng()).copied()
}

/// One character drawn uniformly from the alphabet.
pub fn sample_char() -> (c: char)
    ensures
        in_alphabet(c),
{
    let chars = alphabet_chars();
    assert(chars@.len() > 0);
    let picked = choose_char(chars.as_slice());
    picked.unwrap()
}

/// A password of `password_length` characters, each drawn independently and
/// uniformly from the alphabet. Callers offer lengths from 12 to 18; any
/// length is served.
pub fn generate_password(password_length: u8) -> (r: String)
    ensures
        r@.len() == password_length as nat,
        all_in_alphabet(r@),
{
    let mut password = String::new();
    let mut i: u8 = 0;
    while i < password_length
        invariant
            i <= password_length,
            password@.len() == i as nat,
            all_in_alphabet(password@),
        decreases password_length - i,
    {
        let c = sample_char();
        push_char(&mut password, c);
        i = i + 1;
    }
    password
}

} // verus!
