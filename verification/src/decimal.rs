use vstd::prelude::*;
use vstd::string::{StrSliceExecFns, StringExecFns};

verus! {

/// The character that writes the digit `d`.
pub open spec fn digit_char(d: nat) -> char {
    if d == 0 {
        '0'
    } else if d == 1 {
        '1'
    } else if d == 2 {
        '2'
    } else if d == 3 {
        '3'
    } else if d == 4 {
        '4'
    } else if d == 5 {
        '5'
    } else if d == 6 {
        '6'
    } else if d == 7 {
        '7'
    } else if d == 8 {
        '8'
    } else {
        '9'
    }
}

/// The decimal numeral of `n`, without leading zeros.
pub open spec fn decimal(n: nat) -> Seq<char>
    decreases n,
{
    if n < 10 {
        seq![digit_char(n)]
    } else {
        decimal(n / 10).push(digit_char(n % 10))
    }
}

/// `count` zeros.
pub open spec fn zeros(count: nat) -> Seq<char> {
    Seq::new(count, |i: int| '0')
}

/// The decimal numeral of `n`, filled with zeros on the left up to `width` characters.
pub open spec fn padded_decimal(n: nat, width: nat) -> Seq<char> {
    let digits = decimal(n);
    if digits.len() >= width {
        digits
    } else {
        zeros((width - digits.len()) as nat) + digits
    }
}

/// The value of a digit character, if it is one.
pub open spec fn digit_value(c: char) -> Option<nat> {
    if c == '0' {
        Some(0)
    } else if c == '1' {
        Some(1)
    } else if c == '2' {
        Some(2)
    } else if c == '3' {
        Some(3)
    } else if c == '4' {
        Some(4)
    } else if c == '5' {
        Some(5)
    } else if c == '6' {
        Some(6)
    } else if c == '7' {
        Some(7)
    } else if c == '8' {
        Some(8)
    } else if c == '9' {
        Some(9)
    } else {
        None
    }
}

/// A numeral has as many digits as its tenth has, and one more.
pub proof fn lemma_decimal_len(n: nat)
    ensures
        decimal(n).len() >= 1,
        n < 10 ==> decimal(n).len() == 1,
        10 <= n < 100 ==> decimal(n).len() == 2,
        100 <= n < 1000 ==> decimal(n).len() == 3,
        1000 <= n < 10000 ==> decimal(n).len() == 4,
        10000 <= n < 100000 ==> decimal(n).len() == 5,
    decreases n,
{
    if n >= 10 {
        lemma_decimal_len(n / 10);
    }
}

fn append_digit(text: &mut String, digit: u8)
    requires
        digit < 10,
    ensures
        final(text)@ == old(text)@.push(digit_char(digit as nat)),
{
    proof {
        reveal_strlit("0");
        reveal_strlit("1");
        reveal_strlit("2");
        reveal_strlit("3");
        reveal_strlit("4");
        reveal_strlit("5");
        reveal_strlit("6");
        reveal_strlit("7");
        reveal_strlit("8");
        reveal_strlit("9");
    }
    let literal = if digit == 0 {
        "0"
    } else if digit == 1 {
        "1"
    } else if digit == 2 {
        "2"
    } else if digit == 3 {
        "3"
    } else if digit == 4 {
        "4"
    } else if digit == 5 {
        "5"
    } else if digit == 6 {
        "6"
    } else if digit == 7 {
        "7"
    } else if digit == 8 {
        "8"
    } else {
        "9"
    };
    assert(literal@ =~= seq![digit_char(digit as nat)]);
    text.append(literal);
    assert(text@ =~= old(text)@.push(digit_char(digit as nat)));
}

/// Writes the decimal numeral of `n` at the end of `text`.
pub fn append_decimal(text: &mut String, n: u32)
    ensures
        final(text)@ == old(text)@ + decimal(n as nat),
    decreases n,
{
    if n >= 10 {
        append_decimal(text, n / 10);
    }
    append_digit(text, (n % 10) as u8);
    assert(text@ =~= old(text)@ + decimal(n as nat));
}

/// Writes the numeral of `n` at the end of `text`, at least `width` characters wide.
pub fn append_padded_decimal(text: &mut String, n: u32, width: u8)
    requires
        n < 100000,
        width <= 5,
    ensures
        final(text)@ == old(text)@ + padded_decimal(n as nat, width as nat),
{
    let digits: u8 = if n < 10 {
        1
    } else if n < 100 {
        2
    } else if n < 1000 {
        3
    } else if n < 10000 {
        4
    } else {
        5
    };
    proof {
        lemma_decimal_len(n as nat);
    }
    let mut written: u8 = digits;
    while written < width
        invariant
            digits <= written,
            digits < width ==> written <= width,
            digits >= width ==> written == digits,
            width <= 5,
            text@ == old(text)@ + zeros((written - digits) as nat),
        decreases width - written,
    {
        append_digit(text, 0);
        written = written + 1;
        assert(text@ =~= old(text)@ + zeros((written - digits) as nat));
    }
    let ghost before = text@;
    append_decimal(text, n);
    assert(text@ =~= old(text)@ + padded_decimal(n as nat, width as nat)) by {
        assert(text@ == before + decimal(n as nat));
        assert(zeros(0) =~= Seq::<char>::empty());
    }
}

/// The decimal numeral of `n` as a string.
pub fn decimal_string(n: u32) -> (text: String)
    ensures
        text@ == decimal(n as nat),
{
    let mut text = String::new();
    append_decimal(&mut text, n);
    assert(text@ =~= decimal(n as nat));
    text
}

/// The number that the first `end` characters of `text` write, where all of
/// them are digits.
pub open spec fn digits_value(text: Seq<char>, end: int) -> Option<nat>
    decreases end,
{
    if end <= 0 {
        Some(0)
    } else {
        match (digits_value(text, end - 1), digit_value(text[end - 1])) {
            (Some(value), Some(digit)) => Some(value * 10 + digit),
            _ => None,
        }
    }
}

/// The digits of a numeral: the text without the plus sign that may stand in front.
pub open spec fn unsigned_part(text: Seq<char>) -> Seq<char> {
    if text.len() > 0 && text[0] == '+' {
        text.skip(1)
    } else {
        text
    }
}

/// The number that `text` writes: one digit or more, with or without a plus
/// sign in front, nothing else, and no more than 32 bits can hold.
pub open spec fn parsed_number(text: Seq<char>) -> Option<u32> {
    let digits = unsigned_part(text);
    if digits.len() == 0 {
        None
    } else {
        match digits_value(digits, digits.len() as int) {
            Some(value) => if value <= u32::MAX {
                Some(value as u32)
            } else {
                None
            },
            None => None,
        }
    }
}

/// More digits never make a number smaller, and a character that is no
/// digit spoils the numeral for good.
proof fn lemma_digits_value_grows(text: Seq<char>, shorter: int, longer: int)
    requires
        0 <= shorter <= longer,
    ensures
        digits_value(text, shorter) is None ==> digits_value(text, longer) is None,
        digits_value(text, longer) matches Some(value) ==> digits_value(text, shorter).unwrap()
            <= value,
    decreases longer - shorter,
{
    if shorter < longer {
        lemma_digits_value_grows(text, shorter, longer - 1);
    }
}

fn digit_of(c: char) -> (digit: Option<u8>)
    ensures
        digit_value(c) matches Some(value) ==> digit == Some(value as u8) && value < 10,
        digit_value(c) is None ==> digit is None,
{
    if c == '0' {
        Some(0)
    } else if c == '1' {
        Some(1)
    } else if c == '2' {
        Some(2)
    } else if c == '3' {
        Some(3)
    } else if c == '4' {
        Some(4)
    } else if c == '5' {
        Some(5)
    } else if c == '6' {
        Some(6)
    } else if c == '7' {
        Some(7)
    } else if c == '8' {
        Some(8)
    } else if c == '9' {
        Some(9)
    } else {
        None
    }
}

/// Reads a number of at most 32 bits from its decimal numeral.
pub fn parse_number(text: &str) -> (number: Option<u32>)
    ensures
        number == parsed_number(text@),
{
    let len = text.unicode_len();
    if len == 0 {
        return None;
    }
    let start: usize = if text.get_char(0) == '+' {
        1
    } else {
        0
    };
    if start == len {
        return None;
    }
    let ghost digits = unsigned_part(text@);
    assert(digits.len() == len - start);
    let mut value: u64 = 0;
    let mut index: usize = start;
    while index < len
        invariant
            start <= index <= len,
            len == text@.len(),
            digits == unsigned_part(text@),
            digits.len() == len - start,
            forall|i: int| 0 <= i < digits.len() ==> digits[i] == text@[i + start],
            digits_value(digits, index - start) == Some(value as nat),
            value <= u32::MAX,
        decreases len - index,
    {
        let c = text.get_char(index);
        assert(c == digits[index - start]);
        match digit_of(c) {
            Some(digit) => {
                value = value * 10 + digit as u64;
                if value > u32::MAX as u64 {
                    proof {
                        lemma_digits_value_grows(digits, index - start + 1, digits.len() as int);
                    }
                    return None;
                }
            },
            None => {
                proof {
                    lemma_digits_value_grows(digits, index - start + 1, digits.len() as int);
                }
                return None;
            },
        }
        index = index + 1;
    }
    Some(value as u32)
}

} // verus!
