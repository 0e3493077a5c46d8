//! Positions in a task list, written and read as decimal numbers.
use vstd::prelude::*;
use vstd::string::*;

verus! {

/// The character for a digit below ten.
pub open spec fn digit(d: nat) -> char
    recommends
        d < 10,
{
    (('0' as nat + d) as u8) as char
}

/// The decimal digits of `n`, most significant first, without leading zeros.
pub open spec fn decimal(n: nat) -> Seq<char>
    decreases n,
{
    if n < 10 {
        seq![digit(n)]
    } else {
        decimal(n / 10).push(digit(n % 10))
    }
}

/// One of the ten decimal digits.
pub open spec fn is_digit(c: char) -> bool {
    '0' <= c && c <= '9'
}

/// Every character is a decimal digit.
pub open spec fn are_digits(text: Seq<char>) -> bool {
    forall|i: int| 0 <= i < text.len() ==> is_digit(#[trigger] text[i])
}

/// What a decimal digit counts for.
pub open spec fn digit_value(c: char) -> nat
    recommends
        is_digit(c),
{
    (c as int - '0' as int) as nat
}

/// The number that a row of decimal digits stands for; leading zeros count for
/// nothing.
pub open spec fn digits_value(digits: Seq<char>) -> nat
    recommends
        are_digits(digits),
    decreases digits.len(),
{
    if digits.len() == 0 {
        0
    } else {
        digits_value(digits.drop_last()) * 10 + digit_value(digits.last())
    }
}

/// The digits of a written number: the text itself, or what follows one
/// leading `+`.
pub open spec fn unsigned_part(text: Seq<char>) -> Seq<char> {
    if text.len() > 0 && text[0] == '+' {
        text.skip(1)
    } else {
        text
    }
}

/// The position that `text` names: one or more decimal digits, with or
/// without a `+` in front, whose value a `usize` can hold. Anything else names
/// no position.
pub open spec fn parse_position(text: Seq<char>) -> Option<usize> {
    let digits = unsigned_part(text);
    if digits.len() > 0 && are_digits(digits) && digits_value(digits) <= usize::MAX {
        Some(digits_value(digits) as usize)
    } else {
        None
    }
}

/// A row of digits counts for at least as much as any of its beginnings.
pub proof fn lemma_digits_value_grows(digits: Seq<char>, k: int)
    requires
        0 <= k <= digits.len(),
    ensures
        digits_value(digits.take(k)) <= digits_value(digits),
    decreases digits.len(),
{
    if k == digits.len() {
        assert(digits.take(k) == digits);
    } else {
        lemma_digits_value_grows(digits.drop_last(), k);
        assert(digits.drop_last().take(k) == digits.take(k));
    }
}

/// Reading the decimal digits of a number gives the number back.
pub proof fn lemma_decimal_reads_back(n: nat)
    ensures
        decimal(n).len() > 0,
        are_digits(decimal(n)),
        digits_value(decimal(n)) == n,
        decimal(n)[0] != '+',
    decreases n,
{
    if n < 10 {
        assert(digits_value(decimal(n).drop_last()) == 0);
    } else {
        lemma_decimal_reads_back(n / 10);
        assert(decimal(n).drop_last() == decimal(n / 10));
    }
}

/// A position written in decimal digits reads back as that position: what a
/// listing shows in front of a task names the task's line.
pub proof fn lemma_written_position_reads_back(position: usize)
    ensures
        parse_position(decimal(position as nat)) == Some(position),
{
    lemma_decimal_reads_back(position as nat);
}

fn digit_text(d: usize) -> (text: &'static str)
    requires
        d < 10,
    ensures
        text@ == seq![digit(d as nat)],
{
    proof {
        reveal_strlit("0123456789");
    }
    "0123456789".substring_char(d, d + 1)
}

/// `n` in decimal digits.
pub fn decimal_string(n: usize) -> (text: String)
    ensures
        text@ == decimal(n as nat),
    decreases n,
{
    if n < 10 {
        String::from_str(digit_text(n))
    } else {
        let mut text = decimal_string(n / 10);
        text.append(digit_text(n % 10));
        text
    }
}

fn digit_of(c: char) -> (value: Option<usize>)
    ensures
        value == (if is_digit(c) {
            Some(digit_value(c) as usize)
        } else {
            None
        }),
        is_digit(c) ==> digit_value(c) < 10,
{
    if '0' <= c && c <= '9' {
        Some((c as u32 - '0' as u32) as usize)
    } else {
        None
    }
}

/// Reads a position as it is written on a command line.
pub fn read_position(text: &str) -> (parsed: Option<usize>)
    ensures
        parsed == parse_position(text@),
{
    let length = text.unicode_len();
    let plus = length > 0 && text.get_char(0) == '+';
    let first: usize = if plus { 1 } else { 0 };
    let ghost digits = unsigned_part(text@);
    let mut value: usize = 0;
    let mut at: usize = 0;
    for c in chars: text.chars()
        invariant
            chars.seq() == text@,
            length == text@.len(),
            at == chars.index(),
            first <= 1,
            first <= length,
            digits == unsigned_part(text@),
            digits == text@.subrange(first as int, length as int),
            at <= first ==> value == 0,
            at >= first ==> are_digits(digits.take(at - first)) && value == digits_value(
                digits.take(at - first),
            ),
    {
        if at >= first {
            let ghost seen = digits.take(at - first);
            let ghost more = digits.take(at - first + 1);
            assert(more.drop_last() == seen);
            let step = match digit_of(c) {
                Some(d) => match value.checked_mul(10) {
                    Some(tens) => tens.checked_add(d),
                    None => None,
                },
                None => None,
            };
            match step {
                Some(next) => {
                    value = next;
                    assert(are_digits(more)) by {
                        assert forall|i: int| 0 <= i < more.len() implies is_digit(
                            #[trigger] more[i],
                        ) by {
                            if i < seen.len() {
                                assert(more[i] == seen[i]);
                            }
                        }
                    }
                },
                None => {
                    proof {
                        if is_digit(c) {
                            lemma_digits_value_grows(digits, at - first + 1);
                        }
                    }
                    return None;
                },
            }
        }
        at = at + 1;
    }
    assert(digits.take(length - first) == digits);
    if length == first {
        None
    } else {
        Some(value)
    }
}

} // verus!
