//! Decimal text of integers: writing a `u128` in decimal, and reading a `u64`
//! from decimal text the way `str::parse::<u64>` does.
use vstd::prelude::*;

verus! {

/// The character of decimal digit `d`.
pub open spec fn digit_char(d: nat) -> char
    recommends
        d < 10,
{
    (('0' as u32) + d) as char
}

/// The decimal digits of `n`, most significant first, without leading zeros.
pub open spec fn decimal(n: nat) -> Seq<char>
    decreases n,
{
    if n < 10 {
        seq![digit_char(n)]
    } else {
        decimal(n / 10).push(digit_char(n % 10))
    }
}

fn digit_of(d: u128) -> (c: char)
    requires
        d < 10,
    ensures
        c == digit_char(d as nat),
{
    if d == 0 { '0' }
    else if d == 1 { '1' }
    else if d == 2 { '2' }
    else if d == 3 { '3' }
    else if d == 4 { '4' }
    else if d == 5 { '5' }
    else if d == 6 { '6' }
    else if d == 7 { '7' }
    else if d == 8 { '8' }
    else { '9' }
}

/// The decimal digits of `n`.
pub fn decimal_chars(n: u128) -> (r: Vec<char>)
    ensures
        r@ == decimal(n as nat),
{
    let mut m = n;
    let mut acc: Vec<char> = Vec::new();
    while m >= 10
        invariant
            decimal(n as nat) == decimal(m as nat) + acc@,
        decreases m,
    {
        let d = m % 10;
        let c = digit_of(d);
        let ghost before = acc@;
        acc.insert(0, c);
        proof {
            assert(decimal(m as nat) == decimal((m / 10) as nat).push(c));
            assert(acc@ =~= seq![c] + before);
            assert(decimal((m / 10) as nat).push(c) + before =~= decimal((m / 10) as nat) + acc@);
        }
        m = m / 10;
    }
    let c = digit_of(m);
    acc.insert(0, c);
    assert(acc@ =~= decimal(m as nat) + acc@.subrange(1, acc@.len() as int));
    acc
}

/// Appends the decimal digits of `n` to `s`.
pub fn push_decimal(s: &mut String, n: u128)
    ensures
        final(s)@ == old(s)@ + decimal(n as nat),
{
    let digits = decimal_chars(n);
    let mut i: usize = 0;
    while i < digits.len()
        invariant
            i <= digits@.len(),
            digits@ == decimal(n as nat),
            s@ =~= old(s)@ + digits@.subrange(0, i as int),
        decreases digits@.len() - i,
    {
        crate::text::push_char(s, digits[i]);
        i = i + 1;
    }
    assert(digits@.subrange(0, digits@.len() as int) =~= digits@);
}

/// Why decimal text is not a `u64`, as `std::num::IntErrorKind` names it.
#[derive(Clone, Copy, Debug, PartialEq, Eq, Structural)]
pub enum ParseIntError {
    Empty,
    InvalidDigit,
    PosOverflow,
}

impl ParseIntError {
    pub open spec fn spec_message(self) -> Seq<char> {
        match self {
            ParseIntError::Empty => "cannot parse integer from empty string"@,
            ParseIntError::InvalidDigit => "invalid digit found in string"@,
            ParseIntError::PosOverflow => "number too large to fit in target type"@,
        }
    }

    /// The text that std gives this error.
    pub fn message(&self) -> (r: String)
        ensures
            r@ == self.spec_message(),
    {
        match self {
            ParseIntError::Empty => crate::upload::owned("cannot parse integer from empty string"),
            ParseIntError::InvalidDigit => crate::upload::owned("invalid digit found in string"),
            ParseIntError::PosOverflow => crate::upload::owned(
                "number too large to fit in target type",
            ),
        }
    }
}

/// Whether `c` is an ASCII decimal digit.
pub open spec fn is_digit(c: char) -> bool {
    '0' <= c <= '9'
}

/// The value of the decimal digit `c`.
pub open spec fn digit_value(c: char) -> nat {
    (c as u32 - '0' as u32) as nat
}

/// Reads `d` left to right onto `acc`: the first character that is not a
/// digit, or the first digit that takes the value past `u64::MAX`, ends the
/// reading with that error.
pub open spec fn scan_digits(d: Seq<char>, acc: nat) -> Result<u64, ParseIntError>
    decreases d.len(),
{
    if d.len() == 0 {
        Ok(acc as u64)
    } else if !is_digit(d[0]) {
        Err(ParseIntError::InvalidDigit)
    } else if acc * 10 + digit_value(d[0]) > u64::MAX {
        Err(ParseIntError::PosOverflow)
    } else {
        scan_digits(d.drop_first(), acc * 10 + digit_value(d[0]))
    }
}

/// `str::parse::<u64>`: an optional leading `+`, then decimal digits.
pub open spec fn parse_u64_spec(s: Seq<char>) -> Result<u64, ParseIntError> {
    if s.len() == 0 {
        Err(ParseIntError::Empty)
    } else if (s[0] == '+' || s[0] == '-') && s.len() == 1 {
        Err(ParseIntError::InvalidDigit)
    } else if s[0] == '+' {
        scan_digits(s.drop_first(), 0)
    } else {
        scan_digits(s, 0)
    }
}

/// The value of the decimal text `s`, read as `str::parse::<u64>` reads it.
pub fn parse_u64(s: &Vec<char>) -> (r: Result<u64, ParseIntError>)
    ensures
        r == parse_u64_spec(s@),
{
    let n = s.len();
    if n == 0 {
        return Err(ParseIntError::Empty);
    }
    if (s[0] == '+' || s[0] == '-') && n == 1 {
        return Err(ParseIntError::InvalidDigit);
    }
    let mut i: usize = if s[0] == '+' { 1 } else { 0 };
    let ghost d = if s@[0] == '+' { s@.drop_first() } else { s@ };
    assert(d =~= s@.subrange(i as int, n as int));
    assert(parse_u64_spec(s@) == scan_digits(d, 0));
    let mut acc: u64 = 0;
    while i < n
        invariant
            i <= n,
            n == s@.len(),
            parse_u64_spec(s@) == scan_digits(d, 0),
            scan_digits(s@.subrange(i as int, n as int), acc as nat) == scan_digits(d, 0),
        decreases n - i,
    {
        let c = s[i];
        let ghost rest = s@.subrange(i as int, n as int);
        assert(rest[0] == c);
        assert(rest.drop_first() =~= s@.subrange(i + 1, n as int));
        if !('0' <= c && c <= '9') {
            return Err(ParseIntError::InvalidDigit);
        }
        let v = (c as u32 - '0' as u32) as u64;
        if acc > (u64::MAX - v) / 10 {
            assert(acc * 10 + v > u64::MAX) by (nonlinear_arith)
                requires
                    acc > (u64::MAX - v) / 10,
                    v <= 9,
            ;
            return Err(ParseIntError::PosOverflow);
        }
        assert(acc * 10 + v <= u64::MAX) by (nonlinear_arith)
            requires
                acc <= (u64::MAX - v) / 10,
                v <= 9,
        ;
        acc = acc * 10 + v;
        i = i + 1;
    }
    assert(s@.subrange(n as int, n as int).len() == 0);
    Ok(acc)
}

/// A digit character has the value it was made from.
proof fn lemma_digit_char_value(d: nat)
    requires
        d < 10,
    ensures
        is_digit(digit_char(d)),
        digit_value(digit_char(d)) == d,
{
    assert(('0' as u32) == 48);
}

/// Every character of a decimal text is a digit.
proof fn lemma_decimal_all_digits(n: nat)
    ensures
        decimal(n).len() > 0,
        forall|i: int| 0 <= i < decimal(n).len() ==> is_digit(#[trigger] decimal(n)[i]),
    decreases n,
{
    lemma_digit_char_value(n % 10);
    if n >= 10 {
        lemma_decimal_all_digits(n / 10);
        assert forall|i: int| 0 <= i < decimal(n).len() implies is_digit(#[trigger] decimal(n)[i]) by {
            if i < decimal(n / 10).len() {
                assert(decimal(n)[i] == decimal(n / 10)[i]);
            }
        }
    }
}

/// Reading one more digit after a text that read without error.
proof fn lemma_scan_digits_push(d: Seq<char>, acc: nat, v: u64, c: char)
    requires
        scan_digits(d, acc) == Ok::<u64, ParseIntError>(v),
        acc <= u64::MAX,
        is_digit(c),
    ensures
        scan_digits(d.push(c), acc) == (if v * 10 + digit_value(c) > u64::MAX {
            Err::<u64, ParseIntError>(ParseIntError::PosOverflow)
        } else {
            Ok((v * 10 + digit_value(c)) as u64)
        }),
    decreases d.len(),
{
    if d.len() == 0 {
        assert(d.push(c) =~= seq![c]);
        assert(seq![c].drop_first() =~= Seq::<char>::empty());
        reveal_with_fuel(scan_digits, 2);
    } else {
        assert(d.push(c)[0] == d[0]);
        assert(d.push(c).drop_first() =~= d.drop_first().push(c));
        lemma_scan_digits_push(d.drop_first(), acc * 10 + digit_value(d[0]), v, c);
    }
}

/// Reading the decimal text of `n` gives `n` back.
pub proof fn lemma_scan_decimal(n: u64)
    ensures
        scan_digits(decimal(n as nat), 0) == Ok::<u64, ParseIntError>(n),
    decreases n,
{
    lemma_digit_char_value((n % 10) as nat);
    if n < 10 {
        let s = decimal(n as nat);
        assert(s == seq![digit_char(n as nat)]);
        assert(s.drop_first() =~= Seq::<char>::empty());
        reveal_with_fuel(scan_digits, 2);
    } else {
        lemma_scan_decimal(n / 10);
        lemma_scan_digits_push(decimal((n / 10) as nat), 0, n / 10, digit_char((n % 10) as nat));
    }
}

/// Writing a `u64` in decimal and reading the text back gives the number:
/// `parse_u64` undoes `push_decimal`.
pub proof fn lemma_parse_decimal_roundtrip(n: u64)
    ensures
        parse_u64_spec(decimal(n as nat)) == Ok::<u64, ParseIntError>(n),
{
    lemma_decimal_all_digits(n as nat);
    assert(is_digit(decimal(n as nat)[0]));
    lemma_scan_decimal(n);
}

} // verus!
