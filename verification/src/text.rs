//! Text helpers: decimal rendering and parsing of unsigned numbers, string
//! comparison, and Unicode upper-casing.
use vstd::prelude::*;

verus! {

/// `String::push` appends one character at the end of the string (std
/// documents it as "Appends the given char to the end of this String").
pub assume_specification[ String::push ](s: &mut String, ch: char)
    ensures
        final(s)@ == old(s)@.push(ch),
;

/// The ASCII character of a decimal digit `d` (for `d < 10`).
pub open spec fn digit_char(d: nat) -> char {
    ((d + 48) as u32) as char
}

pub open spec fn is_ascii_digit(c: char) -> bool {
    '0' <= c && c <= '9'
}

/// The value of an ASCII digit character.
pub open spec fn digit_value(c: char) -> nat {
    ((c as u32) - 48) as nat
}

/// All characters of `s` are ASCII decimal digits.
pub open spec fn all_digits(s: Seq<char>) -> bool {
    forall|i: int| 0 <= i < s.len() ==> is_ascii_digit(#[trigger] s[i])
}

/// Why text is not an unsigned 32-bit decimal number.
#[derive(Clone, Copy, Debug, PartialEq, Eq, Structural)]
pub enum NumberError {
    /// The text is empty.
    Empty,
    /// A character that is not a digit where a digit is due.
    InvalidDigit,
    /// The number does not fit in 32 bits.
    PosOverflow,
}

impl NumberError {
    /// The description of the failure, as the standard library words it.
    pub open spec fn text(self) -> Seq<char> {
        match self {
            NumberError::Empty => "cannot parse integer from empty string"@,
            NumberError::InvalidDigit => "invalid digit found in string"@,
            NumberError::PosOverflow => "number too large to fit in target type"@,
        }
    }

    /// The description of the failure, as the standard library words it.
    pub fn message(&self) -> (m: &'static str)
        ensures
            m@ == self.text(),
    {
        match self {
            NumberError::Empty => "cannot parse integer from empty string",
            NumberError::InvalidDigit => "invalid digit found in string",
            NumberError::PosOverflow => "number too large to fit in target type",
        }
    }
}

/// The shortest decimal representation of `n`, without sign or padding.
pub open spec fn decimal(n: nat) -> Seq<char>
    decreases n,
{
    if n < 10 {
        seq![digit_char(n)]
    } else {
        decimal(n / 10).push(digit_char(n % 10))
    }
}

/// The decimal representation of `n` zero-padded on the left to at least
/// `width` characters.
pub open spec fn zero_padded(n: nat, width: nat) -> Seq<char> {
    let digits = decimal(n);
    if digits.len() >= width {
        digits
    } else {
        Seq::new((width - digits.len()) as nat, |i: int| '0') + digits
    }
}

/// `s` without its leading `+`, if it has one.
pub open spec fn unsigned_digits(s: Seq<char>) -> Seq<char> {
    if s.len() > 0 && s[0] == '+' {
        s.drop_first()
    } else {
        s
    }
}

/// What reading the digits `d` from left to right gives: their value, or
/// the first failure met on the way, a character that is not an ASCII digit
/// or a value that no longer fits in 32 bits.
pub open spec fn digits_outcome(d: Seq<char>) -> Result<u32, NumberError>
    decreases d.len(),
{
    if d.len() == 0 {
        Ok(0)
    } else {
        match digits_outcome(d.drop_last()) {
            Err(e) => Err(e),
            Ok(v) => if !is_ascii_digit(d.last()) {
                Err(NumberError::InvalidDigit)
            } else if v * 10 + digit_value(d.last()) > u32::MAX {
                Err(NumberError::PosOverflow)
            } else {
                Ok((v * 10 + digit_value(d.last())) as u32)
            },
        }
    }
}

/// What reading `s` as an unsigned 32-bit decimal number gives: empty text
/// and a lone sign are refused; otherwise an optional leading `+` is dropped
/// and the rest is read digit by digit (see `digits_outcome`).
pub open spec fn parsed_u32(s: Seq<char>) -> Result<u32, NumberError> {
    if s.len() == 0 {
        Err(NumberError::Empty)
    } else if s.len() == 1 && (s[0] == '+' || s[0] == '-') {
        Err(NumberError::InvalidDigit)
    } else {
        digits_outcome(unsigned_digits(s))
    }
}

proof fn lemma_decimal_digits(n: nat)
    requires
        n <= u32::MAX,
    ensures
        decimal(n).len() > 0,
        all_digits(decimal(n)),
        digits_outcome(decimal(n)) == Ok::<u32, NumberError>(n as u32),
    decreases n,
{
    let d = decimal(n);
    if n < 10 {
        assert(d.drop_last() =~= Seq::<char>::empty());
        assert(digit_char(n) as u32 == n + 48);
        assert(digits_outcome(d.drop_last()) == Ok::<u32, NumberError>(0));
        assert(is_ascii_digit(d.last()));
        assert(digit_value(d.last()) == n);
    } else {
        lemma_decimal_digits(n / 10);
        assert(digit_char(n % 10) as u32 == n % 10 + 48);
        assert(digit_value(d.last()) == n % 10);
        assert((n / 10) * 10 + n % 10 == n) by (nonlinear_arith);
        assert(d.drop_last() =~= decimal(n / 10));
        assert(is_ascii_digit(d.last()));
        assert forall|i: int| 0 <= i < d.len() implies is_ascii_digit(#[trigger] d[i]) by {
            if i < d.len() - 1 {
                assert(d[i] == decimal(n / 10)[i]);
            }
        }
    }
}

proof fn lemma_digits_failure_persists(d: Seq<char>, k: int)
    requires
        0 <= k <= d.len(),
        digits_outcome(d.take(k)) is Err,
    ensures
        digits_outcome(d) == digits_outcome(d.take(k)),
    decreases d.len(),
{
    if k < d.len() {
        assert(d.drop_last().take(k) =~= d.take(k));
        lemma_digits_failure_persists(d.drop_last(), k);
    } else {
        assert(d.take(k) =~= d);
    }
}

/// Reading back the decimal rendering of a 32-bit number gives the number.
pub proof fn law_decimal_parses_back(n: u32)
    ensures
        parsed_u32(decimal(n as nat)) == Ok::<u32, NumberError>(n),
{
    lemma_decimal_digits(n as nat);
    let d = decimal(n as nat);
    assert(is_ascii_digit(d[0]));
    assert(unsigned_digits(d) == d);
}

/// The decimal form of a number is its shortest: digits only, "0" for zero,
/// and no leading zero otherwise; it reads back as the number.
pub proof fn law_decimal_shortest(n: u32)
    ensures
        decimal(n as nat).len() > 0,
        all_digits(decimal(n as nat)),
        n == 0 ==> decimal(n as nat) == seq!['0'],
        n > 0 ==> decimal(n as nat)[0] != '0',
        parsed_u32(decimal(n as nat)) == Ok::<u32, NumberError>(n),
{
    lemma_decimal_digits(n as nat);
    law_decimal_parses_back(n);
    lemma_decimal_leading(n as nat);
    assert(digit_char(0) == '0');
}

proof fn lemma_decimal_leading(n: nat)
    ensures
        n > 0 ==> decimal(n)[0] != '0',
    decreases n,
{
    if n >= 10 {
        lemma_decimal_leading(n / 10);
        lemma_decimal_digits_len(n / 10);
        assert(decimal(n)[0] == decimal(n / 10)[0]);
    } else if n > 0 {
        assert(digit_char(n) as u32 == n + 48);
    }
}

/// The length of the decimal form of `n`: one digit below ten, one more
/// than that of `n / 10` from ten on.
pub proof fn lemma_decimal_len(n: nat)
    ensures
        n < 10 ==> decimal(n).len() == 1,
        n >= 10 ==> decimal(n).len() == decimal(n / 10).len() + 1,
        decimal(n).len() >= 1,
{
    lemma_decimal_digits_len(n);
}

proof fn lemma_decimal_digits_len(n: nat)
    ensures
        decimal(n).len() > 0,
    decreases n,
{
    if n >= 10 {
        lemma_decimal_digits_len(n / 10);
    }
}

/// Appends the decimal representation of `n` to `out`.
pub fn push_decimal(out: &mut String, n: u32)
    ensures
        final(out)@ == old(out)@ + decimal(n as nat),
    decreases n,
{
    if n >= 10 {
        push_decimal(out, n / 10);
    }
    let d: u8 = (n % 10) as u8;
    out.push((d + 48) as char);
    proof {
        if n < 10 {
            assert(decimal(n as nat) =~= seq![digit_char(n as nat)]);
        }
    }
    assert(final(out)@ =~= old(out)@ + decimal(n as nat)) by {
        if n >= 10 {
            assert(decimal(n as nat) == decimal((n / 10) as nat).push(digit_char((n % 10) as nat)));
        }
    }
}

/// Appends the decimal representation of `n` to `out`, zero-padded on the
/// left to at least `width` characters.
pub fn push_zero_padded(out: &mut String, n: u32, width: usize)
    ensures
        final(out)@ == old(out)@ + zero_padded(n as nat, width as nat),
{
    let mut digits = String::new();
    push_decimal(&mut digits, n);
    assert(digits@ =~= decimal(n as nat));
    let len = digits.as_str().unicode_len();
    let ghost start = out@;
    if len < width {
        let mut k: usize = 0;
        while k < width - len
            invariant
                len < width,
                k <= width - len,
                out@ =~= start + Seq::new(k as nat, |i: int| '0'),
            decreases width - len - k,
        {
            out.push('0');
            k = k + 1;
        }
    }
    out.append(digits.as_str());
}

/// Reads `s` as an unsigned 32-bit decimal number, as `str::parse::<u32>`
/// does (see `parsed_u32`).
pub fn parse_u32(s: &str) -> (r: Result<u32, NumberError>)
    ensures
        r == parsed_u32(s@),
{
    let n = s.unicode_len();
    if n == 0 {
        return Err(NumberError::Empty);
    }
    let first = s.get_char(0);
    if n == 1 && (first == '+' || first == '-') {
        return Err(NumberError::InvalidDigit);
    }
    let start: usize = if first == '+' {
        1
    } else {
        0
    };
    let ghost body = unsigned_digits(s@);
    assert(body =~= s@.subrange(start as int, n as int));
    let mut acc: u64 = 0;
    let mut i: usize = start;
    while i < n
        invariant
            start <= i <= n,
            n == s@.len(),
            body =~= s@.subrange(start as int, n as int),
            body == unsigned_digits(s@),
            n > 0,
            !(n == 1 && (s@[0] == '+' || s@[0] == '-')),
            digits_outcome(body.take(i - start)) == Ok::<u32, NumberError>(acc as u32),
            acc <= u32::MAX,
        decreases n - i,
    {
        let c = s.get_char(i);
        let ghost next = body.take(i - start + 1);
        assert(next.drop_last() =~= body.take(i - start));
        assert(next.last() == c);
        if !('0' <= c && c <= '9') {
            assert(digits_outcome(next) == Err::<u32, NumberError>(NumberError::InvalidDigit));
            proof {
                lemma_digits_failure_persists(body, i - start + 1);
            }
            return Err(NumberError::InvalidDigit);
        }
        let value: u64 = acc * 10 + (c as u32 - 48) as u64;
        if value > 0xffff_ffff {
            assert(digits_outcome(next) == Err::<u32, NumberError>(NumberError::PosOverflow));
            proof {
                lemma_digits_failure_persists(body, i - start + 1);
            }
            return Err(NumberError::PosOverflow);
        }
        acc = value;
        i = i + 1;
    }
    assert(body.take(n - start) =~= body);
    Ok(acc as u32)
}

/// Whether two strings hold the same characters.
pub fn same_text(a: &str, b: &str) -> (r: bool)
    ensures
        r == (a@ == b@),
{
    a.to_owned() == b.to_owned()
}

/// Names what `str::to_uppercase` returns for a string: its Unicode upper-case
/// mapping.
pub uninterp spec fn unicode_uppercase(s: Seq<char>) -> Seq<char>;

/// Calls `str::to_uppercase`. Claimed: the result is the function named
/// `unicode_uppercase` of the argument's characters (it depends on nothing
/// else). The Unicode case tables themselves are not stated.
#[verifier::external_body]
pub(crate) fn to_uppercase(s: &str) -> (r: String)
    ensures
        r@ == unicode_uppercase(s@),
{
    s.to_uppercase()
}

} // verus!
