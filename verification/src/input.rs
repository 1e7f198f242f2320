//! Reading what a player typed: the token on a line, and the square or the answer
//! that the token stands for.

use vstd::prelude::*;
use vstd::string::*;

use crate::board::SquarePosition;

verus! {

/// What is left of a line once the white space at both of its ends is taken away.
pub uninterp spec fn trimmed(line: Seq<char>) -> Seq<char>;

/// Calls `str::trim`, which returns the part of the line between its leading and its
/// trailing white space, as Unicode defines white space. Nothing is proved of the
/// call; its result goes by the name `trimmed`.
#[verifier::external_body]
pub(crate) fn trim(line: &str) -> (token: &str)
    ensures
        token@ == trimmed(line@),
{
    line.trim()
}

/// One of the ten decimal digits `0` to `9`.
pub open spec fn is_decimal_digit(c: char) -> bool {
    '0' <= c <= '9'
}

/// The number that a run of decimal digits writes, leading zeros allowed.
pub open spec fn decimal_value(digits: Seq<char>) -> nat
    decreases digits.len(),
{
    if digits.len() == 0 {
        0
    } else {
        (10 * decimal_value(digits.drop_last()) + (digits.last() as nat - '0' as nat)) as nat
    }
}

/// A run of one or more decimal digits and nothing else.
pub open spec fn is_decimal_numeral(digits: Seq<char>) -> bool {
    &&& digits.len() > 0
    &&& forall|i: int| 0 <= i < digits.len() ==> is_decimal_digit(#[trigger] digits[i])
}

/// The number that a token writes: an optional `+`, then a run of decimal digits with
/// a value that a `usize` can hold.
pub open spec fn parsed_number(token: Seq<char>) -> Option<usize> {
    let digits = if token.len() > 0 && token[0] == '+' {
        token.drop_first()
    } else {
        token
    };
    if is_decimal_numeral(digits) && decimal_value(digits) <= usize::MAX {
        Some(decimal_value(digits) as usize)
    } else {
        None
    }
}

/// Calls `str::parse::<usize>`, and so `usize::from_str`. Nothing is proved of the
/// call. The contract states how std documents it: the text is an optional `+` sign
/// followed by decimal digits only, at least one; its value is returned unless it is
/// too large for a `usize`; any other text is an error, which comes back as `None`.
#[verifier::external_body]
fn parse_number(token: &str) -> (number: Option<usize>)
    ensures
        number == parsed_number(token@),
{
    match token.parse::<usize>() {
        Ok(number) => Some(number),
        Err(_) => None,
    }
}

/// The square that a token names: the token writes the number of the square, from 1
/// (top left) to 9 (bottom right).
pub open spec fn token_position(token: Seq<char>) -> Option<SquarePosition> {
    match parsed_number(token) {
        Some(number) => SquarePosition::numbered(number as int),
        None => None,
    }
}

/// The square that `token` names, or `None` where it names none: where it writes no
/// number, or a number outside 1 to 9.
pub fn position_from_token(token: &str) -> (position: Option<SquarePosition>)
    ensures
        position == token_position(token@),
{
    match parse_number(token) {
        Some(number) => match SquarePosition::try_from(number) {
            Ok(position) => Some(position),
            Err(_) => None,
        },
        None => None,
    }
}

/// A token of one digit names the square of that number, and `0` names none.
pub proof fn lemma_digit_names_square(digit: char)
    requires
        is_decimal_digit(digit),
    ensures
        token_position(seq![digit]) == SquarePosition::numbered(digit as int - '0' as int),
{
    let token = seq![digit];
    assert(token.drop_last() =~= Seq::<char>::empty());
    assert(decimal_value(token.drop_last()) == 0);
    assert(decimal_value(token) == digit as int - '0' as int);
}

/// Whether `token` is the answer yes: the single letter `y`.
pub fn token_means_yes(token: &str) -> (yes: bool)
    ensures
        yes == (token@ == seq!['y']),
{
    let yes = token.unicode_len() == 1 && token.get_char(0) == 'y';
    assert(yes ==> token@ =~= seq!['y']);
    yes
}

} // verus!
