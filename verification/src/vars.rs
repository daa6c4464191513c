use vstd::prelude::*;
use vstd::string::StrSliceExecFns;

verus! {

/// The host to listen on: the configured one, or "localhost".
pub fn host(configured: Option<String>) -> (h: String)
    ensures
        match configured {
            Some(v) => h@ == v@,
            None => h@ == "localhost"@,
        },
{
    match configured {
        Some(v) => v,
        None => "localhost".to_owned(),
    }
}

/// The port to listen on: the configured one, or "3000".
pub fn port(configured: Option<String>) -> (p: String)
    ensures
        match configured {
            Some(v) => p@ == v@,
            None => p@ == "3000"@,
        },
{
    match configured {
        Some(v) => v,
        None => "3000".to_owned(),
    }
}

/// `s` written `n` times.
pub open spec fn repeated(s: Seq<char>, n: nat) -> Seq<char>
    decreases n,
{
    if n == 0 {
        Seq::empty()
    } else {
        repeated(s, (n - 1) as nat) + s
    }
}

/// The default secret key: "0123" eight times.
pub open spec fn default_secret_key() -> Seq<char> {
    repeated("0123"@, 8)
}

/// The secret key: the configured one, or "0123" eight times.
pub fn secret_key(configured: Option<String>) -> (k: String)
    ensures
        match configured {
            Some(v) => k@ == v@,
            None => k@ == default_secret_key(),
        },
{
    match configured {
        Some(v) => v,
        None => {
            let mut k = String::new();
            let mut i: usize = 0;
            while i < 8
                invariant
                    i <= 8,
                    k@ == repeated("0123"@, i as nat),
                decreases 8 - i,
            {
                k.append("0123");
                i = i + 1;
            }
            k
        },
    }
}

/// The value of a decimal digit character.
pub open spec fn digit_value(c: char) -> int {
    c as int - 48
}

/// Whether a character is an ASCII decimal digit.
pub open spec fn is_digit(c: char) -> bool {
    '0' <= c <= '9'
}

/// The number that a sequence of decimal digits writes.
pub open spec fn decimal(digits: Seq<char>) -> int
    decreases digits.len(),
{
    if digits.len() == 0 {
        0
    } else {
        decimal(digits.drop_last()) * 10 + digit_value(digits.last())
    }
}

/// A text without its leading '+', where it has one.
pub open spec fn unsigned_digits(text: Seq<char>) -> Seq<char> {
    if text.len() > 0 && text[0] == '+' {
        text.skip(1)
    } else {
        text
    }
}

/// Whether every character is a decimal digit.
pub open spec fn all_digits(digits: Seq<char>) -> bool {
    forall|i: int| 0 <= i < digits.len() ==> is_digit(#[trigger] digits[i])
}

/// How `str::parse::<u16>` reads a text: an optional '+', then at least one decimal digit and
/// nothing else, for a value that fits in 16 bits.
pub open spec fn parse_u16(text: Seq<char>) -> Option<u16> {
    let digits = unsigned_digits(text);
    if digits.len() > 0 && all_digits(digits) && decimal(digits) <= 65535 {
        Some(decimal(digits) as u16)
    } else {
        None
    }
}

/// A sequence of digits writes a number no smaller than any of its prefixes do.
proof fn lemma_decimal_prefix(digits: Seq<char>, k: int)
    requires
        0 <= k <= digits.len(),
        forall|i: int| 0 <= i < digits.len() ==> is_digit(#[trigger] digits[i]),
    ensures
        0 <= decimal(digits.take(k)) <= decimal(digits),
    decreases digits.len(),
{
    if k == digits.len() {
        assert(digits.take(k) =~= digits);
        lemma_decimal_nonnegative(digits);
    } else {
        let rest = digits.drop_last();
        assert forall|i: int| 0 <= i < rest.len() implies is_digit(#[trigger] rest[i]) by {
            assert(rest[i] == digits[i]);
        }
        lemma_decimal_prefix(rest, k);
        assert(rest.take(k) =~= digits.take(k));
        assert(is_digit(digits[digits.len() - 1]));
    }
}

/// A sequence of digits writes a number that is not negative.
proof fn lemma_decimal_nonnegative(digits: Seq<char>)
    requires
        forall|i: int| 0 <= i < digits.len() ==> is_digit(#[trigger] digits[i]),
    ensures
        decimal(digits) >= 0,
    decreases digits.len(),
{
    if digits.len() > 0 {
        let rest = digits.drop_last();
        assert forall|i: int| 0 <= i < rest.len() implies is_digit(#[trigger] rest[i]) by {
            assert(rest[i] == digits[i]);
        }
        lemma_decimal_nonnegative(rest);
        assert(is_digit(digits[digits.len() - 1]));
    }
}

/// The SMTP port read from its configured text as `str::parse::<u16>` reads it; nothing where
/// the text is not a 16-bit number.
pub fn smtp_port(configured: &str) -> (port: Option<u16>)
    ensures
        port == parse_u16(configured@),
{
    let ghost text = configured@;
    let n = configured.unicode_len();
    let mut start: usize = 0;
    if n > 0 && configured.get_char(0) == '+' {
        start = 1;
    }
    let ghost digits = unsigned_digits(text);
    assert(digits =~= text.skip(start as int));
    if start >= n {
        assert(digits.len() == 0);
        return None;
    }
    let mut value: u32 = 0;
    let mut i: usize = start;
    while i < n
        invariant
            n == text.len(),
            text == configured@,
            start <= i <= n,
            digits =~= text.skip(start as int),
            digits == unsigned_digits(text),
            forall|j: int| start <= j < i ==> is_digit(#[trigger] text[j]),
            value as int == decimal(text.subrange(start as int, i as int)),
            value <= 65535,
        decreases n - i,
    {
        let c = configured.get_char(i);
        if !('0' <= c && c <= '9') {
            assert(!is_digit(digits[i - start]));
            assert(0 <= i - start < digits.len());
            assert(!all_digits(digits));
            assert(parse_u16(text) is None);
            return None;
        }
        let ghost prev = text.subrange(start as int, i as int);
        let ghost next = text.subrange(start as int, i + 1);
        assert(next.drop_last() =~= prev);
        assert(next.last() == c);
        assert(decimal(next) == decimal(prev) * 10 + digit_value(c));
        value = value * 10 + (c as u32 - 48);
        assert(value as int == decimal(next));
        if value > 65535 {
            proof {
                if all_digits(digits) {
                    assert(digits.take(i + 1 - start) =~= next);
                    lemma_decimal_prefix(digits, i + 1 - start);
                    assert(decimal(digits) > 65535);
                }
                assert(parse_u16(text) is None);
            }
            return None;
        }
        i = i + 1;
    }
    assert(text.subrange(start as int, n as int) =~= digits);
    assert forall|j: int| 0 <= j < digits.len() implies is_digit(#[trigger] digits[j]) by {
        assert(digits[j] == text[j + start]);
    }
    Some(value as u16)
}

} // verus!
