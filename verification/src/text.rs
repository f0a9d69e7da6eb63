//! Reading option values: words without regard to case, and whole numbers.

use vstd::prelude::*;
use vstd::string::StrSliceExecFns;
use vstd::string::StringExecFns;

verus! {

/// The lower-case form of an ASCII capital; any other character is left as
/// it is.
pub open spec fn lower(c: char) -> char {
    if 'A' <= c && c <= 'Z' {
        ((c as int) + 32) as char
    } else {
        c
    }
}

/// `text` with its ASCII capitals in lower case.
pub open spec fn lowered(text: Seq<char>) -> Seq<char> {
    text.map_values(|c: char| lower(c))
}

fn to_lower(c: char) -> (l: char)
    ensures
        l == lower(c),
{
    if 'A' <= c && c <= 'Z' {
        let code: u8 = c as u8;
        (code + 32) as char
    } else {
        c
    }
}

/// Whether `text` is `word` but for the case of its ASCII letters, where
/// `word` is in lower case.
pub fn is_word(text: &str, word: &str) -> (yes: bool)
    ensures
        yes == (lowered(text@) == word@),
{
    let n: usize = text.unicode_len();
    if word.unicode_len() != n {
        return false;
    }
    let mut i: usize = 0;
    while i < n
        invariant
            i <= n,
            n == text@.len(),
            n == word@.len(),
            lowered(text@).take(i as int) == word@.take(i as int),
        decreases n - i,
    {
        if to_lower(text.get_char(i)) != word.get_char(i) {
            assert(lowered(text@)[i as int] != word@[i as int]);
            return false;
        }
        i += 1;
        assert(lowered(text@).take(i as int) =~= lowered(text@).take(i - 1).push(
            lowered(text@)[i - 1],
        ));
        assert(word@.take(i as int) =~= word@.take(i - 1).push(word@[i - 1]));
    }
    assert(lowered(text@) =~= lowered(text@).take(n as int));
    assert(word@ =~= word@.take(n as int));
    true
}

/// Why a text is not a number of sixty-four bits.
#[derive(Clone, Copy, Debug, PartialEq, Eq, Structural)]
pub enum NumberError {
    /// The text is empty.
    Empty,
    /// A character is not a decimal digit, or a sign stands alone.
    InvalidDigit,
    /// The number does not fit.
    TooLarge,
}

/// The value of a decimal digit.
pub open spec fn digit(c: char) -> Option<int> {
    if '0' <= c && c <= '9' {
        Some(c as int - 48)
    } else {
        None
    }
}

/// Whether every character is a decimal digit.
pub open spec fn all_digits(text: Seq<char>) -> bool {
    forall|i: int| 0 <= i < text.len() ==> digit(#[trigger] text[i]) is Some
}

/// The number that a run of decimal digits writes.
pub open spec fn decimal_value(digits: Seq<char>) -> nat
    decreases digits.len(),
{
    if digits.len() == 0 {
        0
    } else {
        decimal_value(digits.drop_last()) * 10 + match digit(digits.last()) {
            Some(d) => d as nat,
            None => 0,
        }
    }
}

/// Reads digits from the left: the first character that is no digit, or the
/// first digit with which the number no longer fits, decides the error.
pub open spec fn scan(digits: Seq<char>) -> Result<u64, NumberError>
    decreases digits.len(),
{
    if digits.len() == 0 {
        Ok(0)
    } else {
        match scan(digits.drop_last()) {
            Err(e) => Err(e),
            Ok(value) => match digit(digits.last()) {
                None => Err(NumberError::InvalidDigit),
                Some(d) => if value * 10 + d > u64::MAX {
                    Err(NumberError::TooLarge)
                } else {
                    Ok((value * 10 + d) as u64)
                },
            },
        }
    }
}

/// The number that `text` writes: decimal digits, with or without a plus
/// sign before them, and nothing else.
pub open spec fn spec_parse_u64(text: Seq<char>) -> Result<u64, NumberError> {
    if text.len() == 0 {
        Err(NumberError::Empty)
    } else {
        let digits = if text[0] == '+' {
            text.skip(1)
        } else {
            text
        };
        if digits.len() == 0 {
            Err(NumberError::InvalidDigit)
        } else {
            scan(digits)
        }
    }
}

impl NumberError {
    /// The error in words.
    pub open spec fn spec_message(self) -> Seq<char> {
        match self {
            NumberError::Empty => "cannot parse integer from empty string"@,
            NumberError::InvalidDigit => "invalid digit found in string"@,
            NumberError::TooLarge => "number too large to fit in target type"@,
        }
    }

    /// The error in words.
    pub fn message(&self) -> (text: String)
        ensures
            text@ == self.spec_message(),
    {
        match self {
            NumberError::Empty => String::from_str("cannot parse integer from empty string"),
            NumberError::InvalidDigit => String::from_str("invalid digit found in string"),
            NumberError::TooLarge => String::from_str("number too large to fit in target type"),
        }
    }
}

/// An error among the first characters is the error of the whole.
pub proof fn lemma_scan_fails_early(digits: Seq<char>, upto: int)
    requires
        0 <= upto <= digits.len(),
        scan(digits.take(upto)) is Err,
    ensures
        scan(digits) == scan(digits.take(upto)),
    decreases digits.len() - upto,
{
    if upto == digits.len() {
        assert(digits.take(upto) =~= digits);
    } else {
        assert(digits.take(upto + 1).drop_last() =~= digits.take(upto));
        lemma_scan_fails_early(digits, upto + 1);
    }
}

/// Reading succeeds exactly on a run of digits whose number fits, and gives
/// that number.
pub proof fn lemma_scan_reads_numbers(digits: Seq<char>)
    ensures
        scan(digits) is Ok <==> all_digits(digits) && decimal_value(digits) <= u64::MAX,
        scan(digits) matches Ok(value) ==> value == decimal_value(digits),
    decreases digits.len(),
{
    if digits.len() > 0 {
        let front = digits.drop_last();
        lemma_scan_reads_numbers(front);
        if all_digits(digits) {
            assert forall|i: int| 0 <= i < front.len() implies digit(#[trigger] front[i])
                is Some by {
                assert(front[i] == digits[i]);
            }
            assert(digit(digits[digits.len() - 1]) is Some);
        }
        if all_digits(front) && digit(digits.last()) is Some {
            assert forall|i: int| 0 <= i < digits.len() implies digit(#[trigger] digits[i])
                is Some by {
                if i < front.len() {
                    assert(front[i] == digits[i]);
                }
            }
        }
    }
}

/// A text is read as a number exactly where it is a run of at least one
/// digit, with or without a plus sign before it, whose number fits; the
/// result is that number.
pub proof fn law_numbers_are_read(text: Seq<char>)
    ensures
        ({
            let digits = if text.len() > 0 && text[0] == '+' {
                text.skip(1)
            } else {
                text
            };
            &&& spec_parse_u64(text) is Ok <==> digits.len() > 0 && all_digits(digits)
                && decimal_value(digits) <= u64::MAX
            &&& spec_parse_u64(text) matches Ok(value) ==> value == decimal_value(digits)
            &&& spec_parse_u64(text) == Err::<u64, NumberError>(NumberError::Empty) <==> text.len()
                == 0
        }),
{
    let digits = if text.len() > 0 && text[0] == '+' {
        text.skip(1)
    } else {
        text
    };
    lemma_scan_reads_numbers(digits);
    if text.len() > 0 && digits.len() > 0 {
        lemma_scan_is_never_empty(digits);
    }
}

/// Reading digits never says that the text is empty.
pub proof fn lemma_scan_is_never_empty(digits: Seq<char>)
    ensures
        scan(digits) != Err::<u64, NumberError>(NumberError::Empty),
    decreases digits.len(),
{
    if digits.len() > 0 {
        lemma_scan_is_never_empty(digits.drop_last());
    }
}

/// Reads a number of sixty-four bits from `text`.
pub fn parse_u64(text: &str) -> (number: Result<u64, NumberError>)
    ensures
        number == spec_parse_u64(text@),
{
    let n: usize = text.unicode_len();
    if n == 0 {
        return Err(NumberError::Empty);
    }
    let start: usize = if text.get_char(0) == '+' {
        1
    } else {
        0
    };
    if start == n {
        return Err(NumberError::InvalidDigit);
    }
    let ghost digits = text@.skip(start as int);
    let mut value: u64 = 0;
    let mut i: usize = start;
    assert(digits.take(0) =~= Seq::<char>::empty());
    while i < n
        invariant
            start <= i <= n,
            start < n,
            n == text@.len(),
            start == if text@[0] == '+' {
                1usize
            } else {
                0usize
            },
            digits == text@.skip(start as int),
            scan(digits.take(i - start)) == Ok::<u64, NumberError>(value),
        decreases n - i,
    {
        let c: char = text.get_char(i);
        let ghost upto = i - start + 1;
        assert(digits.take(upto).drop_last() =~= digits.take(i - start));
        assert(digits.take(upto).last() == c);
        assert(start == 0 ==> digits =~= text@);
        if !('0' <= c && c <= '9') {
            proof {
                assert(scan(digits.take(upto)) == Err::<u64, NumberError>(
                    NumberError::InvalidDigit,
                ));
                lemma_scan_fails_early(digits, upto);
            }
            return Err(NumberError::InvalidDigit);
        }
        let d: u64 = (c as u64) - 48;
        let tens = match value.checked_mul(10) {
            Some(t) => t,
            None => {
                proof {
                    assert(scan(digits.take(upto)) == Err::<u64, NumberError>(
                        NumberError::TooLarge,
                    ));
                    lemma_scan_fails_early(digits, upto);
                }
                return Err(NumberError::TooLarge);
            },
        };
        value = match tens.checked_add(d) {
            Some(v) => v,
            None => {
                proof {
                    assert(scan(digits.take(upto)) == Err::<u64, NumberError>(
                        NumberError::TooLarge,
                    ));
                    lemma_scan_fails_early(digits, upto);
                }
                return Err(NumberError::TooLarge);
            },
        };
        i += 1;
    }
    assert(digits.take(n - start) =~= digits);
    assert(start == 0 ==> digits =~= text@);
    Ok(value)
}

/// The character of a hexadecimal digit, in lower case.
pub open spec fn hex_char(nibble: int) -> char {
    if nibble < 10 {
        (48 + nibble) as char
    } else {
        (87 + nibble) as char
    }
}

/// An octet as two hexadecimal digits.
pub open spec fn hex_octet(octet: u8) -> Seq<char> {
    seq![hex_char(octet as int / 16), hex_char(octet as int % 16)]
}

/// The character of a decimal digit.
pub open spec fn decimal_char(d: int) -> char {
    (48 + d) as char
}

/// A number in decimal digits, without leading zeros.
pub open spec fn decimal(n: nat) -> Seq<char>
    decreases n,
{
    if n < 10 {
        seq![decimal_char(n as int)]
    } else {
        decimal(n / 10).push(decimal_char((n % 10) as int))
    }
}

fn digit_text(d: u8) -> (text: &'static str)
    requires
        d < 16,
    ensures
        text@ == seq![hex_char(d as int)],
        d < 10 ==> text@ == seq![decimal_char(d as int)],
{
    proof {
        reveal_strlit("0");
        reveal_strlit("1");
        reveal_strlit("2");
        reveal_strlit("3");
        reveal_strlit("4");
        reveal_strlit("5");
        reveal_strlit("6");
        reveal_strlit("7");
        reveal_strlit("8");
        reveal_strlit("9");
        reveal_strlit("a");
        reveal_strlit("b");
        reveal_strlit("c");
        reveal_strlit("d");
        reveal_strlit("e");
        reveal_strlit("f");
    }
    let text = match d {
        0 => "0",
        1 => "1",
        2 => "2",
        3 => "3",
        4 => "4",
        5 => "5",
        6 => "6",
        7 => "7",
        8 => "8",
        9 => "9",
        10 => "a",
        11 => "b",
        12 => "c",
        13 => "d",
        14 => "e",
        _ => "f",
    };
    assert(text@ =~= seq![hex_char(d as int)]);
    text
}

/// Appends `octet` to `out` as two hexadecimal digits.
pub fn push_hex_octet(out: &mut String, octet: u8)
    ensures
        final(out)@ == old(out)@ + hex_octet(octet),
{
    out.append(digit_text(octet / 16));
    out.append(digit_text(octet % 16));
    assert(out@ =~= old(out)@ + hex_octet(octet));
}

/// Appends `n` to `out` in decimal digits.
pub fn push_decimal(out: &mut String, n: u64)
    ensures
        final(out)@ == old(out)@ + decimal(n as nat),
    decreases n,
{
    if n < 10 {
        out.append(digit_text(n as u8));
        assert(out@ =~= old(out)@ + decimal(n as nat));
    } else {
        push_decimal(out, n / 10);
        out.append(digit_text((n % 10) as u8));
        assert(out@ =~= old(out)@ + decimal(n as nat));
    }
}

} // verus!
