//! Task ids as decimal text.

use crate::error::IdError;
use vstd::prelude::*;

verus! {

/// Whether `c` is one of the ten decimal digits.
pub open spec fn is_digit(c: char) -> bool {
    '0' <= c <= '9'
}

/// The number that the digit `c` stands for.
pub open spec fn digit_value(c: char) -> nat
    recommends
        is_digit(c),
{
    (c as int - '0' as int) as nat
}

/// The digit that stands for `d`.
pub open spec fn digit_char(d: nat) -> char
    recommends
        d < 10,
{
    ('0' as nat + d) as char
}

/// The decimal digits of `n`, without leading zeros.
pub open spec fn decimal_text(n: nat) -> Seq<char>
    decreases n,
{
    if n < 10 {
        seq![digit_char(n)]
    } else {
        decimal_text(n / 10).push(digit_char(n % 10))
    }
}

/// Reads `digits` from left to right onto the number `acc` read so far. The
/// first character that is no digit, or the first digit that takes the number
/// above `usize::MAX`, ends the reading with an error.
pub open spec fn read_digits(digits: Seq<char>, acc: nat) -> Result<nat, IdError>
    decreases digits.len(),
{
    if digits.len() == 0 {
        Ok(acc)
    } else if !is_digit(digits[0]) {
        Err(IdError::InvalidDigit)
    } else if acc * 10 + digit_value(digits[0]) > usize::MAX {
        Err(IdError::Overflow)
    } else {
        read_digits(digits.drop_first(), acc * 10 + digit_value(digits[0]))
    }
}

/// What is left of `token` after an optional leading `+`.
pub open spec fn digits_of(token: Seq<char>) -> Seq<char> {
    if token.len() > 0 && token[0] == '+' {
        token.drop_first()
    } else {
        token
    }
}

/// The id that `token` names: an optional `+`, then at least one decimal
/// digit, the number being at most `usize::MAX`.
pub open spec fn id_of(token: Seq<char>) -> Result<nat, IdError> {
    if token.len() == 0 {
        Err(IdError::Empty)
    } else if digits_of(token).len() == 0 {
        Err(IdError::InvalidDigit)
    } else {
        read_digits(digits_of(token), 0)
    }
}

/// Whether `digits` holds decimal digits only.
pub open spec fn all_digits(digits: Seq<char>) -> bool {
    forall|i: int| 0 <= i < digits.len() ==> is_digit(#[trigger] digits[i])
}

/// The number that `digits` names in the decimal system.
pub open spec fn number_of(digits: Seq<char>) -> nat
    decreases digits.len(),
{
    if digits.len() == 0 {
        0
    } else {
        number_of(digits.drop_last()) * 10 + digit_value(digits.last())
    }
}

/// Reads a task id from a token.
pub fn parse_id(token: &str) -> (r: Result<usize, IdError>)
    ensures
        match r {
            Ok(id) => id_of(token@) == Ok::<nat, IdError>(id as nat),
            Err(why) => id_of(token@) == Err::<nat, IdError>(why),
        },
{
    let n = token.unicode_len();
    if n == 0 {
        return Err(IdError::Empty);
    }
    let start: usize = if token.get_char(0) == '+' {
        1
    } else {
        0
    };
    if start == n {
        return Err(IdError::InvalidDigit);
    }
    let ghost digits = token@.skip(start as int);
    assert(digits =~= digits_of(token@));
    let mut acc: usize = 0;
    let mut i: usize = start;
    while i < n
        invariant
            n == token@.len(),
            start <= i <= n,
            id_of(token@) == read_digits(digits, 0),
            read_digits(digits, 0) == read_digits(token@.skip(i as int), acc as nat),
        decreases n - i,
    {
        let c = token.get_char(i);
        assert(token@.skip(i as int).drop_first() =~= token@.skip(i + 1));
        if !(c >= '0' && c <= '9') {
            return Err(IdError::InvalidDigit);
        }
        let d: usize = ((c as u32) - ('0' as u32)) as usize;
        let next = match acc.checked_mul(10) {
            Some(tens) => tens.checked_add(d),
            None => None,
        };
        match next {
            Some(value) => {
                acc = value;
            },
            None => {
                return Err(IdError::Overflow);
            },
        }
        i += 1;
    }
    Ok(acc)
}

/// Reading `digits` and then one more character `c` is reading `c` onto what
/// `digits` gave.
proof fn lemma_read_one_more(digits: Seq<char>, c: char, acc: nat)
    ensures
        read_digits(digits.push(c), acc) == match read_digits(digits, acc) {
            Ok(value) => read_digits(seq![c], value),
            Err(why) => Err(why),
        },
    decreases digits.len(),
{
    if digits.len() == 0 {
        assert(digits.push(c) =~= seq![c]);
    } else {
        assert(digits.push(c).drop_first() =~= digits.drop_first().push(c));
        lemma_read_one_more(digits.drop_first(), c, acc * 10 + digit_value(digits[0]));
    }
}

/// Reading succeeds exactly on digits whose number fits, and gives that
/// number.
proof fn lemma_read_exact(digits: Seq<char>, n: nat)
    ensures
        read_digits(digits, 0) == Ok::<nat, IdError>(n) <==> all_digits(digits) && number_of(
            digits,
        ) == n && n <= usize::MAX,
        all_digits(digits) && number_of(digits) > usize::MAX ==> read_digits(digits, 0) == Err::<
            nat,
            IdError,
        >(IdError::Overflow),
    decreases digits.len(),
{
    if digits.len() > 0 {
        let front = digits.drop_last();
        let last = digits.last();
        assert(front.push(last) =~= digits);
        lemma_read_one_more(front, last, 0);
        reveal_with_fuel(read_digits, 2);
        lemma_read_exact(front, number_of(front));
        if let Ok(value) = read_digits(front, 0) {
            lemma_read_exact(front, value);
        }
    }
}

/// A token names the id `n` exactly where, after an optional `+`, it holds at
/// least one character, decimal digits only, and their number is `n` and at
/// most `usize::MAX`. An empty token is `Empty`, a lone `+` is
/// `InvalidDigit`, and digits whose number is too large are `Overflow`.
pub proof fn law_id_grammar(token: Seq<char>, n: nat)
    ensures
        id_of(token) == Ok::<nat, IdError>(n) <==> digits_of(token).len() > 0 && all_digits(
            digits_of(token),
        ) && number_of(digits_of(token)) == n && n <= usize::MAX,
        id_of(token) == Err::<nat, IdError>(IdError::Empty) <==> token.len() == 0,
        token.len() > 0 && digits_of(token).len() == 0 ==> id_of(token) == Err::<nat, IdError>(
            IdError::InvalidDigit,
        ),
        digits_of(token).len() > 0 && all_digits(digits_of(token)) && number_of(digits_of(token))
            > usize::MAX ==> id_of(token) == Err::<nat, IdError>(IdError::Overflow),
{
    lemma_read_exact(digits_of(token), n);
    lemma_read_never_empty(digits_of(token), 0);
}

/// Reading digits never fails for want of a token.
proof fn lemma_read_never_empty(digits: Seq<char>, acc: nat)
    ensures
        read_digits(digits, acc) != Err::<nat, IdError>(IdError::Empty),
    decreases digits.len(),
{
    if digits.len() > 0 && is_digit(digits[0]) && acc * 10 + digit_value(digits[0])
        <= usize::MAX {
        lemma_read_never_empty(digits.drop_first(), acc * 10 + digit_value(digits[0]));
    }
}

/// What `decimal` writes is a task id, and `parse_id` reads it back as the
/// number that was written.
pub proof fn law_decimal_reads_back(n: nat)
    requires
        n <= usize::MAX,
    ensures
        decimal_text(n).len() >= 1,
        is_digit(decimal_text(n)[0]),
        read_digits(decimal_text(n), 0) == Ok::<nat, IdError>(n),
        id_of(decimal_text(n)) == Ok::<nat, IdError>(n),
    decreases n,
{
    reveal_with_fuel(read_digits, 2);
    if n >= 10 {
        law_decimal_reads_back(n / 10);
        lemma_read_one_more(decimal_text(n / 10), digit_char(n % 10), 0);
    }
}

/// The digit that stands for `d`, as text.
fn digit(d: usize) -> (r: &'static str)
    requires
        d < 10,
    ensures
        r@ == seq![digit_char(d as nat)],
{
    proof {
        reveal_strlit("0");
        reveal_strlit("1");
        reveal_strlit("2");
        reveal_strlit("3");
        reveal_strlit("4");
        reveal_strlit("5");
        reveal_strlit("6");
        reveal_strlit("7");
        reveal_strlit("8");
        reveal_strlit("9");
    }
    if d == 0 {
        "0"
    } else if d == 1 {
        "1"
    } else if d == 2 {
        "2"
    } else if d == 3 {
        "3"
    } else if d == 4 {
        "4"
    } else if d == 5 {
        "5"
    } else if d == 6 {
        "6"
    } else if d == 7 {
        "7"
    } else if d == 8 {
        "8"
    } else {
        "9"
    }
}

/// Writes a task id in decimal digits.
pub fn decimal(n: usize) -> (r: String)
    ensures
        r@ == decimal_text(n as nat),
    decreases n,
{
    if n < 10 {
        String::from_str(digit(n))
    } else {
        decimal(n / 10).concat(digit(n % 10))
    }
}

} // verus!
