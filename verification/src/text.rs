//! Small pieces of text that the emitted declarations are put together from.

use vstd::prelude::*;

verus! {

/// The text of one decimal digit.
pub open spec fn digit_text(d: nat) -> Seq<char> {
    if d == 0 {
        "0"@
    } else if d == 1 {
        "1"@
    } else if d == 2 {
        "2"@
    } else if d == 3 {
        "3"@
    } else if d == 4 {
        "4"@
    } else if d == 5 {
        "5"@
    } else if d == 6 {
        "6"@
    } else if d == 7 {
        "7"@
    } else if d == 8 {
        "8"@
    } else {
        "9"@
    }
}

/// The decimal numeral of `n`, without leading zeros.
pub open spec fn decimal_text(n: nat) -> Seq<char>
    decreases n,
{
    if n < 10 {
        digit_text(n)
    } else {
        decimal_text(n / 10) + digit_text(n % 10)
    }
}

/// The pieces of `parts` joined in order, with nothing between them.
pub open spec fn concat_all(parts: Seq<Seq<char>>) -> Seq<char>
    decreases parts.len(),
{
    if parts.len() == 0 {
        Seq::empty()
    } else {
        concat_all(parts.drop_last()) + parts.last()
    }
}

/// Joining one more piece appends it to what was joined before.
pub proof fn lemma_concat_all_step(parts: Seq<Seq<char>>, k: int)
    requires
        0 <= k < parts.len(),
    ensures
        concat_all(parts.take(k + 1)) == concat_all(parts.take(k)) + parts[k],
{
    let longer = parts.take(k + 1);
    assert(longer.drop_last() =~= parts.take(k));
    assert(longer.last() == parts[k]);
}

fn digit(d: usize) -> (text: &'static str)
    requires
        d < 10,
    ensures
        text@ == digit_text(d as nat),
{
    if d == 0 {
        "0"
    } else if d == 1 {
        "1"
    } else if d == 2 {
        "2"
    } else if d == 3 {
        "3"
    } else if d == 4 {
        "4"
    } else if d == 5 {
        "5"
    } else if d == 6 {
        "6"
    } else if d == 7 {
        "7"
    } else if d == 8 {
        "8"
    } else {
        "9"
    }
}

/// Writes `n` as a decimal numeral.
pub fn decimal(n: usize) -> (text: String)
    ensures
        text@ == decimal_text(n as nat),
    decreases n,
{
    if n < 10 {
        digit(n).to_owned()
    } else {
        let mut text = decimal(n / 10);
        text.append(digit(n % 10));
        text
    }
}

/// The character is one of the ten decimal digits.
pub open spec fn is_digit(c: char) -> bool {
    c == '0' || c == '1' || c == '2' || c == '3' || c == '4' || c == '5' || c == '6' || c == '7'
        || c == '8' || c == '9'
}

/// A digit is written as one character, and different digits as different
/// characters.
pub proof fn lemma_digit_text(a: nat, b: nat)
    requires
        a < 10,
        b < 10,
    ensures
        digit_text(a).len() == 1,
        is_digit(digit_text(a)[0]),
        digit_text(a)[0] == digit_text(b)[0] ==> a == b,
{
    reveal_strlit("0");
    reveal_strlit("1");
    reveal_strlit("2");
    reveal_strlit("3");
    reveal_strlit("4");
    reveal_strlit("5");
    reveal_strlit("6");
    reveal_strlit("7");
    reveal_strlit("8");
    reveal_strlit("9");
}

/// A numeral is not empty and holds digits only.
pub proof fn lemma_decimal_digits(n: nat)
    ensures
        decimal_text(n).len() >= 1,
        forall|k: int| 0 <= k < decimal_text(n).len() ==> is_digit(#[trigger] decimal_text(n)[k]),
    decreases n,
{
    if n < 10 {
        lemma_digit_text(n, n);
    } else {
        lemma_decimal_digits(n / 10);
        lemma_digit_text(n % 10, n % 10);
    }
}

/// Different numbers are written as different numerals.
pub proof fn lemma_decimal_injective(a: nat, b: nat)
    requires
        decimal_text(a) == decimal_text(b),
    ensures
        a == b,
    decreases a,
{
    lemma_decimal_digits(a / 10);
    lemma_decimal_digits(b / 10);
    lemma_digit_text(a % 10, b % 10);
    lemma_digit_text(b % 10, a % 10);
    if a < 10 && b < 10 {
    } else if a < 10 {
        assert(decimal_text(b).len() >= 2);
    } else if b < 10 {
        assert(decimal_text(a).len() >= 2);
    } else {
        let high_a = decimal_text(a / 10);
        let high_b = decimal_text(b / 10);
        let low_a = digit_text(a % 10);
        let low_b = digit_text(b % 10);
        assert(decimal_text(a) == high_a + low_a);
        assert(decimal_text(b) == high_b + low_b);
        assert(high_a.len() == high_b.len());
        assert((high_a + low_a)[high_a.len() as int] == low_a[0]);
        assert((high_b + low_b)[high_b.len() as int] == low_b[0]);
        assert(high_a =~= (high_a + low_a).subrange(0, high_a.len() as int));
        assert(high_b =~= (high_b + low_b).subrange(0, high_b.len() as int));
        lemma_decimal_injective(a / 10, b / 10);
    }
}

} // verus!
