//! What integers are written as.

use crate::decimal;
use crate::ir::ScalarValue;
use vstd::prelude::*;

verus! {

/// Whether `text` is made of decimal digits.
pub open spec fn is_digits(text: Seq<char>) -> bool {
    forall|i: int| 0 <= i < text.len() ==> '0' <= #[trigger] text[i] <= '9'
}

/// The number that decimal digits stand for.
pub open spec fn value(text: Seq<char>) -> nat
    decreases text.len(),
{
    if text.len() == 0 {
        0
    } else {
        value(text.drop_last()) * 10 + (text.last() as nat - '0' as nat) as nat
    }
}

proof fn lemma_digit(d: nat)
    requires
        d < 10,
    ensures
        decimal::digit_text(d) == seq![('0' as nat + d) as char],
        '0' <= ('0' as nat + d) as char <= '9',
        (('0' as nat + d) as char) as nat == '0' as nat + d,
{
    reveal_strlit("0");
    reveal_strlit("1");
    reveal_strlit("2");
    reveal_strlit("3");
    reveal_strlit("4");
    reveal_strlit("5");
    reveal_strlit("6");
    reveal_strlit("7");
    reveal_strlit("8");
    reveal_strlit("9");
    assert(decimal::digit_text(d) =~= seq![('0' as nat + d) as char]);
}

/// A number is written in decimal digits, and reading them gives back the number.
pub proof fn law_decimal(n: nat)
    ensures
        decimal::decimal(n).len() > 0,
        is_digits(decimal::decimal(n)),
        value(decimal::decimal(n)) == n,
    decreases n,
{
    lemma_digit(n % 10);
    let text = decimal::decimal(n);
    if n < 10 {
        assert(text.drop_last() =~= Seq::empty());
        assert(value(text.drop_last()) == 0);
    } else {
        law_decimal(n / 10);
        assert(text.drop_last() =~= decimal::decimal(n / 10));
    }
}

/// A number other than zero is written without leading zeros.
pub proof fn law_no_leading_zero(n: nat)
    requires
        n > 0,
    ensures
        decimal::decimal(n)[0] != '0',
    decreases n,
{
    lemma_digit(n % 10);
    if n >= 10 {
        law_decimal(n / 10);
        law_no_leading_zero(n / 10);
    }
}

/// Different integers are written differently.
pub proof fn law_signed_decimal(i: int, j: int)
    requires
        decimal::signed_decimal(i) == decimal::signed_decimal(j),
    ensures
        i == j,
{
    reveal_strlit("-");
    lemma_sign(i);
    lemma_sign(j);
    if i < 0 {
        assert(decimal::signed_decimal(i).skip(1) =~= decimal::decimal((-i) as nat));
        assert(decimal::signed_decimal(j).skip(1) =~= decimal::decimal((-j) as nat));
        law_decimal((-i) as nat);
        law_decimal((-j) as nat);
    } else {
        law_decimal(i as nat);
        law_decimal(j as nat);
    }
}

/// Only a negative integer starts with a minus sign.
proof fn lemma_sign(i: int)
    ensures
        decimal::signed_decimal(i).len() > 0,
        decimal::signed_decimal(i)[0] == '-' <==> i < 0,
{
    reveal_strlit("-");
    if i >= 0 {
        law_decimal(i as nat);
    }
}

/// Zero is a single digit, a number that is not negative is written without a sign, and a negative
/// one as a minus sign and the digits of its amount.
pub proof fn law_signs(i: int)
    ensures
        decimal::decimal(0) == seq!['0'],
        i >= 0 ==> is_digits(decimal::signed_decimal(i)) && value(decimal::signed_decimal(i)) == i
            && (i > 0 ==> decimal::signed_decimal(i)[0] != '0') && (i == 0
            ==> decimal::signed_decimal(i) == seq!['0']),
        i < 0 ==> {
            let text = decimal::signed_decimal(i);
            &&& text.len() > 1
            &&& text[0] == '-'
            &&& text[1] != '0'
            &&& is_digits(text.skip(1))
            &&& value(text.skip(1)) == -i
        },
{
    reveal_strlit("-");
    reveal_strlit("0");
    assert("0"@ =~= seq!['0']);
    if i >= 0 {
        law_decimal(i as nat);
        if i > 0 {
            law_no_leading_zero(i as nat);
        }
    } else {
        law_decimal((-i) as nat);
        law_no_leading_zero((-i) as nat);
        assert(decimal::signed_decimal(i).skip(1) =~= decimal::decimal((-i) as nat));
    }
}

/// The literal of a signed integer is the integer; that of an unsigned one ends in a `u`; that of
/// a floating-point number is its digits, with `.0` if it is whole; that of a truth value is the
/// word for it.
pub proof fn law_literals(scalar: ScalarValue)
    ensures
        match scalar {
            ScalarValue::Sint(number) => scalar.literal() == decimal::signed_decimal(number as int),
            ScalarValue::Uint(number) => {
                let text = scalar.literal();
                &&& text.len() > 1
                &&& text.last() == 'u'
                &&& is_digits(text.drop_last())
                &&& value(text.drop_last()) == number
                &&& number > 0 ==> text[0] != '0'
                &&& number == 0 ==> text == seq!['0', 'u']
            },
            ScalarValue::Float(literal) => {
                &&& literal.whole ==> scalar.literal() == literal.digits@ + seq!['.', '0']
                &&& !literal.whole ==> scalar.literal() == literal.digits@
            },
            ScalarValue::Bool(truth) => {
                &&& truth ==> scalar.literal() == seq!['t', 'r', 'u', 'e']
                &&& !truth ==> scalar.literal() == seq!['f', 'a', 'l', 's', 'e']
            },
        },
{
    reveal_strlit("u");
    reveal_strlit(".0");
    reveal_strlit("true");
    reveal_strlit("false");
    assert(".0"@ =~= seq!['.', '0']);
    assert("true"@ =~= seq!['t', 'r', 'u', 'e']);
    assert("false"@ =~= seq!['f', 'a', 'l', 's', 'e']);
    if let ScalarValue::Uint(number) = scalar {
        let digits = decimal::decimal(number as nat);
        law_decimal(number as nat);
        law_signs(0);
        if number > 0 {
            law_no_leading_zero(number as nat);
        } else {
            assert(scalar.literal() =~= seq!['0', 'u']);
        }
        assert(scalar.literal().drop_last() =~= digits);
    }
}

} // verus!
