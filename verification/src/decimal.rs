//! Numbers in decimal form: read from the text that the environment holds,
//! and written into the messages of errors.

use vstd::prelude::*;
use vstd::string::StringExecFns;

verus! {

/// The character is one of the ten decimal digits.
pub open spec fn is_digit(c: char) -> bool {
    '0' <= c <= '9'
}

/// The number that a decimal digit stands for.
pub open spec fn digit_value(c: char) -> nat {
    (c as nat - '0' as nat) as nat
}

/// The number that a sequence of decimal digits stands for.
pub open spec fn decimal_value(digits: Seq<char>) -> nat
    decreases digits.len(),
{
    if digits.len() == 0 {
        0
    } else {
        10 * decimal_value(digits.drop_last()) + digit_value(digits.last())
    }
}

/// The text is a decimal numeral: at least one character, digits only.
pub open spec fn is_decimal(digits: Seq<char>) -> bool {
    &&& digits.len() >= 1
    &&& forall|at: int| 0 <= at < digits.len() ==> is_digit(#[trigger] digits[at])
}

/// The text without one leading plus sign, if it has one.
pub open spec fn unsigned_part(text: Seq<char>) -> Seq<char> {
    if text.len() >= 1 && text[0] == '+' {
        text.subrange(1, text.len() as int)
    } else {
        text
    }
}

/// The number that a text denotes: an optional plus sign, then a decimal
/// numeral whose value fits in 64 bits. Every other text denotes none.
pub open spec fn parsed_number(text: Seq<char>) -> Option<u64> {
    let digits = unsigned_part(text);
    if is_decimal(digits) && decimal_value(digits) <= u64::MAX {
        Some(decimal_value(digits) as u64)
    } else {
        None
    }
}

/// The character that stands for a number below ten.
pub open spec fn digit_of(value: nat) -> char {
    if value == 0 {
        '0'
    } else if value == 1 {
        '1'
    } else if value == 2 {
        '2'
    } else if value == 3 {
        '3'
    } else if value == 4 {
        '4'
    } else if value == 5 {
        '5'
    } else if value == 6 {
        '6'
    } else if value == 7 {
        '7'
    } else if value == 8 {
        '8'
    } else {
        '9'
    }
}

/// The decimal numeral of a number: its digits from the most significant
/// to the least, without sign and without leading zeros.
pub open spec fn decimal_text(value: nat) -> Seq<char>
    decreases value,
{
    if value < 10 {
        seq![digit_of(value)]
    } else {
        decimal_text(value / 10).push(digit_of(value % 10))
    }
}

/// The numeral of a number is a decimal numeral that is worth the number.
pub proof fn lemma_decimal_text_is_worth(value: nat)
    ensures
        is_decimal(decimal_text(value)),
        decimal_value(decimal_text(value)) == value,
    decreases value,
{
    let text = decimal_text(value);
    if value < 10 {
        assert(text.drop_last() == Seq::<char>::empty());
        assert(decimal_value(text.drop_last()) == 0);
        assert(digit_value(digit_of(value)) == value);
    } else {
        lemma_decimal_text_is_worth(value / 10);
        let front = decimal_text(value / 10);
        assert(text.drop_last() == front);
        assert(text.last() == digit_of(value % 10));
        assert(digit_value(digit_of(value % 10)) == value % 10);
        assert forall|at: int| 0 <= at < text.len() implies is_digit(#[trigger] text[at]) by {
            if at < front.len() {
                assert(text[at] == front[at]);
            }
        }
    }
}

/// Writing a number of 64 bits and reading the text again gives the number.
pub proof fn lemma_text_parses_back(value: u64)
    ensures
        parsed_number(decimal_text(value as nat)) == Some(value),
{
    lemma_decimal_text_is_worth(value as nat);
    let text = decimal_text(value as nat);
    assert(is_digit(text[0]));
    assert(unsigned_part(text) == text);
}

/// The text of one decimal digit.
fn digit_text(value: u64) -> (text: &'static str)
    requires
        value < 10,
    ensures
        text@ == seq![digit_of(value as nat)],
{
    proof {
        reveal_strlit("0");
        reveal_strlit("1");
        reveal_strlit("2");
        reveal_strlit("3");
        reveal_strlit("4");
        reveal_strlit("5");
        reveal_strlit("6");
        reveal_strlit("7");
        reveal_strlit("8");
        reveal_strlit("9");
    }
    let text = match value {
        0 => "0",
        1 => "1",
        2 => "2",
        3 => "3",
        4 => "4",
        5 => "5",
        6 => "6",
        7 => "7",
        8 => "8",
        _ => "9",
    };
    assert(text@ =~= seq![digit_of(value as nat)]);
    text
}

/// Write a number of 64 bits in its decimal form.
pub fn format_number(value: u64) -> (text: String)
    ensures
        text@ == decimal_text(value as nat),
    decreases value,
{
    if value < 10 {
        digit_text(value).to_owned()
    } else {
        let mut text = format_number(value / 10);
        text.append(digit_text(value % 10));
        assert(text@ =~= decimal_text(value as nat));
        text
    }
}

/// A numeral is worth at least as much as each of its beginnings.
pub proof fn lemma_decimal_value_grows(digits: Seq<char>, upto: int)
    requires
        0 <= upto <= digits.len(),
    ensures
        decimal_value(digits.subrange(0, upto)) <= decimal_value(digits),
    decreases digits.len() - upto,
{
    if upto == digits.len() {
        assert(digits.subrange(0, upto) == digits);
    } else {
        let longer = digits.subrange(0, upto + 1);
        assert(longer.drop_last() == digits.subrange(0, upto));
        lemma_decimal_value_grows(digits, upto + 1);
    }
}

/// Read a number of 64 bits from its decimal form.
pub fn parse_number(text: &str) -> (number: Option<u64>)
    ensures
        number == parsed_number(text@),
{
    let n: usize = text.unicode_len();
    let mut at: usize = 0;
    if n >= 1 && text.get_char(0) == '+' {
        at = 1;
    }
    let start: usize = at;
    let ghost digits = unsigned_part(text@);
    if at == n {
        return None;
    }
    let mut value: u64 = 0;
    assert(text@.subrange(start as int, at as int) == Seq::<char>::empty());
    while at < n
        invariant
            start <= at <= n,
            start < n,
            n == text@.len(),
            digits == unsigned_part(text@),
            digits == text@.subrange(start as int, n as int),
            forall|seen: int| start <= seen < at ==> is_digit(#[trigger] text@[seen]),
            value == decimal_value(text@.subrange(start as int, at as int)),
        decreases n - at,
    {
        let c: char = text.get_char(at);
        assert(c == digits[at - start]);
        if c < '0' || c > '9' {
            return None;
        }
        let digit: u64 = (c as u64) - ('0' as u64);
        proof {
            let longer = text@.subrange(start as int, at + 1);
            assert(longer.drop_last() == text@.subrange(start as int, at as int));
            assert(longer.last() == c);
            assert(decimal_value(longer) == 10 * value + digit);
            assert(longer == digits.subrange(0, at + 1 - start));
            lemma_decimal_value_grows(digits, at + 1 - start);
        }
        if value > (u64::MAX - digit) / 10 {
            return None;
        }
        value = value * 10 + digit;
        at += 1;
    }
    proof {
        assert(text@.subrange(start as int, at as int) == digits);
        assert forall|k: int| 0 <= k < digits.len() implies is_digit(#[trigger] digits[k]) by {
            assert(digits[k] == text@[start + k]);
        }
    }
    Some(value)
}

} // verus!
