//! Decimal numbers as settings give them: an optional sign, then digits.

use vstd::prelude::*;
use vstd::string::*;
use vstd::utf8::is_ascii_chars;

verus! {

pub open spec fn is_digit(c: char) -> bool {
    '0' <= c <= '9'
}

pub open spec fn digit_value(c: char) -> nat
    recommends
        is_digit(c),
{
    (c as u32 - '0' as u32) as nat
}

/// The digit that writes `n`, for `n` below ten.
pub open spec fn digit_char(n: nat) -> char
    recommends
        n < 10,
{
    if n == 0 {
        '0'
    } else if n == 1 {
        '1'
    } else if n == 2 {
        '2'
    } else if n == 3 {
        '3'
    } else if n == 4 {
        '4'
    } else if n == 5 {
        '5'
    } else if n == 6 {
        '6'
    } else if n == 7 {
        '7'
    } else if n == 8 {
        '8'
    } else {
        '9'
    }
}

/// How `n` is written in base ten, without leading zeros.
pub open spec fn decimal_text(n: nat) -> Seq<char>
    decreases n,
{
    if n < 10 {
        seq![digit_char(n)]
    } else {
        decimal_text(n / 10).push(digit_char(n % 10))
    }
}

/// How `n` is written with exactly two digits, for `n` below a hundred.
pub open spec fn two_digits(n: nat) -> Seq<char>
    recommends
        n < 100,
{
    seq![digit_char(n / 10), digit_char(n % 10)]
}

pub open spec fn all_digits(s: Seq<char>) -> bool {
    forall|i: int| 0 <= i < s.len() ==> is_digit(#[trigger] s[i])
}

/// The number that a run of digits writes in base ten.
pub open spec fn digits_value(s: Seq<char>) -> nat
    decreases s.len(),
{
    if s.len() == 0 {
        0
    } else {
        digits_value(s.drop_last()) * 10 + digit_value(s.last())
    }
}

/// The number written by one or more digits, with nothing before or after
/// them.
pub open spec fn plain_number(s: Seq<char>) -> Option<nat> {
    if s.len() > 0 && all_digits(s) {
        Some(digits_value(s))
    } else {
        None
    }
}

/// The number written by an optional `+` and one or more digits.
pub open spec fn unsigned_number(s: Seq<char>) -> Option<nat> {
    if s.len() > 0 && s[0] == '+' {
        plain_number(s.skip(1))
    } else {
        plain_number(s)
    }
}

/// The number written by an optional `+` or `-` and one or more digits.
pub open spec fn signed_number(s: Seq<char>) -> Option<int> {
    if s.len() > 0 && s[0] == '-' {
        match plain_number(s.skip(1)) {
            Some(n) => Some(-(n as int)),
            None => None,
        }
    } else {
        match unsigned_number(s) {
            Some(n) => Some(n as int),
            None => None,
        }
    }
}

/// The port that a text names: an unsigned number of at most 16 bits.
pub open spec fn port_of(s: Seq<char>) -> Option<u16> {
    match unsigned_number(s) {
        Some(n) if n <= 0xffff => Some(n as u16),
        _ => None,
    }
}

/// The count of seconds that a text names: a signed number of at most 64
/// bits.
pub open spec fn seconds_of(s: Seq<char>) -> Option<i64> {
    match signed_number(s) {
        Some(n) if -0x8000_0000_0000_0000 <= n <= 0x7fff_ffff_ffff_ffff => Some(n as i64),
        _ => None,
    }
}

/// Reading one more digit multiplies by ten and adds the digit.
pub proof fn lemma_digits_step(s: Seq<char>, k: int)
    requires
        0 <= k < s.len(),
    ensures
        digits_value(s.take(k + 1)) == digits_value(s.take(k)) * 10 + digit_value(s[k]),
{
    assert(s.take(k + 1).drop_last() =~= s.take(k));
}

/// The digits read so far never write more than all of them do.
pub proof fn lemma_digits_prefix_bound(s: Seq<char>, k: int)
    requires
        0 <= k <= s.len(),
    ensures
        digits_value(s.take(k)) <= digits_value(s),
    decreases s.len() - k,
{
    if k < s.len() {
        lemma_digits_step(s, k);
        lemma_digits_prefix_bound(s, k + 1);
    } else {
        assert(s.take(k) =~= s);
    }
}

/// Reads the digits of `text` from position `start` on; `None` where there
/// is none, where something else stands among them, or where they write
/// more than `cap`.
fn parse_digits(text: &str, start: usize, cap: u128) -> (value: Option<u128>)
    requires
        text.is_ascii(),
        start <= text@.len(),
        cap <= 0xffff_ffff_ffff_ffff_ffff,
    ensures
        value == match plain_number(text@.skip(start as int)) {
            Some(n) if n <= cap => Some(n as u128),
            _ => None,
        },
{
    proof {
        is_ascii_spec_bytes(text);
    }
    let bytes = text.as_bytes();
    let len = bytes.len();
    let ghost body = text@.skip(start as int);
    if start == len {
        return None;
    }
    let mut value: u128 = 0;
    let mut i: usize = start;
    while i < len
        invariant
            text.is_ascii(),
            len == text@.len(),
            bytes@ == Seq::new(text@.len(), |k: int| text@[k] as u8),
            start <= i <= len,
            body == text@.skip(start as int),
            value == digits_value(body.take(i - start)),
            value <= cap,
            cap <= 0xffff_ffff_ffff_ffff_ffff,
            forall|k: int| 0 <= k < i - start ==> is_digit(#[trigger] body[k]),
        decreases len - i,
    {
        let b = bytes[i];
        let ghost c = text@[i as int];
        assert(body[i - start] == c);
        assert(b as u32 == c as u32);
        if b < 48 || b > 57 {
            return None;
        }
        proof {
            lemma_digits_step(body, i - start);
        }
        value = value * 10 + (b - 48) as u128;
        if value > cap {
            proof {
                lemma_digits_prefix_bound(body, i - start + 1);
            }
            return None;
        }
        i = i + 1;
    }
    proof {
        assert(body.take(body.len() as int) =~= body);
    }
    Some(value)
}

/// A text with a character outside ASCII writes no number.
pub proof fn lemma_number_is_ascii(s: Seq<char>)
    requires
        !is_ascii_chars(s),
    ensures
        unsigned_number(s) is None,
        signed_number(s) is None,
{
    let i = choose|i: int| 0 <= i < s.len() && !('\0' <= #[trigger] s[i] <= '\u{7f}');
    assert(!is_digit(s[i]));
    if i > 0 {
        assert(s.skip(1)[i - 1] == s[i]);
    }
}

/// Reads a port: an optional `+`, then digits that write at most 65535.
pub fn parse_port(text: &str) -> (port: Option<u16>)
    ensures
        port == port_of(text@),
{
    if !text.is_ascii() {
        proof {
            lemma_number_is_ascii(text@);
        }
        return None;
    }
    proof {
        is_ascii_spec_bytes(text);
        assert(text@.skip(0) =~= text@);
    }
    let bytes = text.as_bytes();
    let start: usize = if bytes.len() > 0 && bytes[0] == 43 {
        1
    } else {
        0
    };
    match parse_digits(text, start, 0xffff) {
        Some(n) => Some(n as u16),
        None => None,
    }
}

/// Reads a count of seconds: an optional `+` or `-`, then digits that write
/// a number of at most 64 bits.
pub fn parse_seconds(text: &str) -> (seconds: Option<i64>)
    ensures
        seconds == seconds_of(text@),
{
    if !text.is_ascii() {
        proof {
            lemma_number_is_ascii(text@);
        }
        return None;
    }
    proof {
        is_ascii_spec_bytes(text);
        assert(text@.skip(0) =~= text@);
    }
    let bytes = text.as_bytes();
    if bytes.len() > 0 && bytes[0] == 45 {
        match parse_digits(text, 1, 0x8000_0000_0000_0000) {
            Some(n) => if n == 0x8000_0000_0000_0000 {
                Some(i64::MIN)
            } else {
                Some(-(n as i64))
            },
            None => None,
        }
    } else {
        let start: usize = if bytes.len() > 0 && bytes[0] == 43 {
            1
        } else {
            0
        };
        match parse_digits(text, start, 0x7fff_ffff_ffff_ffff) {
            Some(n) => Some(n as i64),
            None => None,
        }
    }
}

/// The value of the digit that writes `n` is `n`.
pub proof fn lemma_digit_round_trip(n: nat)
    requires
        n < 10,
    ensures
        is_digit(digit_char(n)),
        digit_value(digit_char(n)) == n,
{
}

/// What is written for a number reads back as that number.
pub proof fn law_written_number_reads_back(n: nat)
    ensures
        plain_number(decimal_text(n)) == Some(n),
        unsigned_number(decimal_text(n)) == Some(n),
        signed_number(decimal_text(n)) == Some(n as int),
    decreases n,
{
    let text = decimal_text(n);
    lemma_digit_round_trip(n % 10);
    assert(text.last() == digit_char(n % 10));
    if n >= 10 {
        law_written_number_reads_back(n / 10);
        assert(text.drop_last() =~= decimal_text(n / 10));
        assert forall|i: int| 0 <= i < text.len() implies is_digit(#[trigger] text[i]) by {
            if i < text.len() - 1 {
                assert(text[i] == decimal_text(n / 10)[i]);
            }
        }
        assert(text[0] == decimal_text(n / 10)[0]);
    } else {
        assert(text.drop_last() =~= Seq::<char>::empty());
        assert(digits_value(text.drop_last()) == 0);
    }
    assert(digits_value(text) == n);
    assert(is_digit(text[0]));
}

} // verus!
