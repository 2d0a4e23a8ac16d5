//! Small pieces of text: lists and numbers.
use vstd::prelude::*;
use vstd::string::StringExecFns;

use crate::expr::strings_model;

verus! {

/// The texts in a row, with a separator between any two neighbours.
pub open spec fn joined(texts: Seq<Seq<char>>, separator: Seq<char>) -> Seq<char>
    decreases texts.len(),
{
    if texts.len() == 0 {
        Seq::empty()
    } else if texts.len() == 1 {
        texts[0]
    } else {
        joined(texts.drop_last(), separator) + separator + texts.last()
    }
}

/// Joins strings with a separator between any two neighbours.
pub(crate) fn join(texts: &Vec<String>, separator: &str) -> (text: String)
    ensures
        text@ == joined(strings_model(texts@), separator@),
{
    let mut text = String::new();
    let ghost all = strings_model(texts@);
    let mut i: usize = 0;
    while i < texts.len()
        invariant
            i <= texts.len(),
            all == strings_model(texts@),
            text@ == joined(all.take(i as int), separator@),
        decreases texts.len() - i,
    {
        let ghost next = all.take(i + 1);
        assert(next.drop_last() =~= all.take(i as int));
        if i > 0 {
            text.append(separator);
        }
        text.append(texts[i].as_str());
        assert(text@ =~= joined(next, separator@));
        i += 1;
    }
    assert(all.take(i as int) =~= all);
    text
}

/// The text of a decimal digit.
pub open spec fn digit(d: int) -> Seq<char> {
    seq![('0' as int + d) as char]
}

/// A number in decimal digits, without leading zeros.
pub open spec fn decimal(n: int) -> Seq<char>
    decreases n,
{
    if n < 0 {
        Seq::empty()
    } else if n < 10 {
        digit(n)
    } else {
        decimal(n / 10) + digit(n % 10)
    }
}

/// A number in decimal digits, behind a minus sign where it is negative.
pub open spec fn signed_decimal(n: int) -> Seq<char> {
    if n < 0 {
        "-"@ + decimal(-n)
    } else {
        decimal(n)
    }
}

fn digit_text(d: u64) -> (text: &'static str)
    requires
        d < 10,
    ensures
        text@ == digit(d as int),
{
    proof {
        reveal_strlit("0");
        reveal_strlit("1");
        reveal_strlit("2");
        reveal_strlit("3");
        reveal_strlit("4");
        reveal_strlit("5");
        reveal_strlit("6");
        reveal_strlit("7");
        reveal_strlit("8");
        reveal_strlit("9");
    }
    if d == 0 {
        "0"
    } else if d == 1 {
        "1"
    } else if d == 2 {
        "2"
    } else if d == 3 {
        "3"
    } else if d == 4 {
        "4"
    } else if d == 5 {
        "5"
    } else if d == 6 {
        "6"
    } else if d == 7 {
        "7"
    } else if d == 8 {
        "8"
    } else {
        "9"
    }
}

/// Writes a number in decimal digits.
pub(crate) fn decimal_text(n: u64) -> (text: String)
    ensures
        text@ == decimal(n as int),
    decreases n,
{
    if n < 10 {
        digit_text(n).to_owned()
    } else {
        let mut text: String = decimal_text(n / 10);
        text.append(digit_text(n % 10));
        text
    }
}

/// Writes a number in decimal digits, behind a minus sign where it is negative.
pub(crate) fn signed_decimal_text(n: i64) -> (text: String)
    ensures
        text@ == signed_decimal(n as int),
{
    if n < 0 {
        let mut text: String = "-".to_owned();
        let magnitude: u64 = (-(n as i128)) as u64;
        text.append(decimal_text(magnitude).as_str());
        text
    } else {
        decimal_text(n as u64)
    }
}

/// Two lists of texts one behind the other read like the two joined lists with a separator
/// between them. A single text stays as it is, and no texts give the empty text.
pub proof fn law_joined_lists_are_joined(
    left: Seq<Seq<char>>,
    right: Seq<Seq<char>>,
    separator: Seq<char>,
)
    ensures
        left.len() > 0 && right.len() > 0 ==> joined(left + right, separator) == joined(
            left,
            separator,
        ) + separator + joined(right, separator),
        left.len() == 1 ==> joined(left, separator) == left[0],
        left.len() == 0 ==> joined(left, separator) == Seq::<char>::empty(),
    decreases right.len(),
{
    if left.len() > 0 && right.len() > 0 {
        let front = right.drop_last();
        assert((left + right).drop_last() =~= left + front);
        if front.len() == 0 {
            assert(left + front =~= left);
            assert(joined(left + right, separator) =~= joined(left, separator) + separator
                + joined(right, separator));
        } else {
            law_joined_lists_are_joined(left, front, separator);
            assert(joined(left + right, separator) =~= joined(left, separator) + separator
                + joined(right, separator));
        }
    }
}

/// The number that a row of decimal digits stands for.
pub open spec fn number_of(digits: Seq<char>) -> int
    decreases digits.len(),
{
    if digits.len() == 0 {
        0
    } else {
        10 * number_of(digits.drop_last()) + (digits.last() as int - '0' as int)
    }
}

/// The text of a number is made of digits that stand for the number, with no zero in front of
/// another digit.
pub proof fn law_decimal_reads_back(n: int)
    requires
        n >= 0,
    ensures
        decimal(n).len() > 0,
        forall|i: int| 0 <= i < decimal(n).len() ==> '0' <= #[trigger] decimal(n)[i] <= '9',
        number_of(decimal(n)) == n,
        decimal(n).len() > 1 ==> decimal(n)[0] != '0',
    decreases n,
{
    if n < 10 {
        assert(decimal(n).drop_last() =~= Seq::<char>::empty());
        assert(number_of(decimal(n).drop_last()) == 0);
    } else {
        law_decimal_reads_back(n / 10);
        let front = decimal(n / 10);
        assert(decimal(n).drop_last() =~= front);
        assert(decimal(n).last() == digit(n % 10)[0]);
        assert(decimal(n)[0] == front[0]);
        if front.len() == 1 {
            assert(front.drop_last() =~= Seq::<char>::empty());
            assert(number_of(front.drop_last()) == 0);
            assert(number_of(front) == front[0] as int - '0' as int);
        }
    }
}

/// The text of a negative number is a minus sign and the text of the number without its sign.
pub proof fn law_minus_sign_shows_negative(n: int)
    ensures
        n < 0 ==> signed_decimal(n) == seq!['-'] + decimal(-n),
        n >= 0 ==> signed_decimal(n) == decimal(n),
{
    reveal_strlit("-");
    assert("-"@ =~= seq!['-']);
}

} // verus!
