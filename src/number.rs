use vstd::prelude::*;

verus! {

/// Why a piece of text could not be read as a camera parameter.
#[derive(Clone, Copy, Debug, PartialEq, Eq, Structural)]
pub enum ParseError {
    /// The text is not written as a number of the expected form.
    Malformed,
    /// The number is well written but too large to be represented.
    OutOfRange,
    /// A fraction was written with a zero denominator.
    ZeroDenominator,
    /// A quantity that must be positive for exposure arithmetic is zero.
    NotPositive,
}

pub open spec fn is_digit(c: char) -> bool {
    '0' <= c && c <= '9'
}

pub open spec fn all_digits(s: Seq<char>) -> bool {
    forall|i: int| 0 <= i < s.len() ==> is_digit(#[trigger] s[i])
}

pub open spec fn has_no(s: Seq<char>, c: char) -> bool {
    forall|i: int| 0 <= i < s.len() ==> #[trigger] s[i] != c
}

pub open spec fn digit_value(c: char) -> nat {
    (c as u32 - '0' as u32) as nat
}

pub open spec fn digit_char(d: nat) -> char
    recommends
        d < 10,
{
    ((d + '0' as u32) as u32) as char
}

/// The number that a string of decimal digits denotes, most significant first.
pub open spec fn digits_value(s: Seq<char>) -> nat
    decreases s.len(),
{
    if s.len() == 0 {
        0
    } else {
        digits_value(s.drop_last()) * 10 + digit_value(s.last())
    }
}

/// The digits of an unsigned integer after an optional leading `+`.
pub open spec fn unsigned_digits(s: Seq<char>) -> Seq<char> {
    if s.len() > 0 && s[0] == '+' {
        s.drop_first()
    } else {
        s
    }
}

/// Reading an unsigned 32-bit integer: an optional `+` and at least one decimal digit.
pub open spec fn spec_parse_u32(s: Seq<char>) -> Result<u32, ParseError> {
    let d = unsigned_digits(s);
    if d.len() == 0 || !all_digits(d) {
        Err(ParseError::Malformed)
    } else if digits_value(d) > u32::MAX {
        Err(ParseError::OutOfRange)
    } else {
        Ok(digits_value(d) as u32)
    }
}

/// The shortest decimal text of a natural number.
pub open spec fn decimal_text(n: nat) -> Seq<char>
    decreases n,
{
    if n < 10 {
        seq![digit_char(n)]
    } else {
        decimal_text(n / 10).push(digit_char(n % 10))
    }
}

proof fn lemma_digit_roundtrip(d: nat)
    requires
        d < 10,
    ensures
        is_digit(digit_char(d)),
        digit_value(digit_char(d)) == d,
{
}

/// Appending a digit to a digit string multiplies its value by ten and adds the digit.
pub proof fn lemma_digits_push(s: Seq<char>, c: char)
    ensures
        digits_value(s.push(c)) == digits_value(s) * 10 + digit_value(c),
{
    assert(s.push(c).drop_last() =~= s);
}

/// The decimal text of a number is a nonempty digit string that denotes the number.
pub proof fn lemma_decimal_text(n: nat)
    ensures
        decimal_text(n).len() > 0,
        all_digits(decimal_text(n)),
        digits_value(decimal_text(n)) == n,
    decreases n,
{
    if n < 10 {
        lemma_digit_roundtrip(n);
        assert(seq![digit_char(n)].drop_last() =~= Seq::<char>::empty());
        assert(digits_value(Seq::<char>::empty()) == 0);
    } else {
        lemma_decimal_text(n / 10);
        lemma_digit_roundtrip(n % 10);
        lemma_digits_push(decimal_text(n / 10), digit_char(n % 10));
        assert(decimal_text(n) == decimal_text(n / 10).push(digit_char(n % 10)));
        assert(decimal_text(n).len() == decimal_text(n / 10).len() + 1);
        assert(digits_value(decimal_text(n)) == (n / 10) * 10 + n % 10);
        assert forall|i: int| 0 <= i < decimal_text(n).len() implies is_digit(
            #[trigger] decimal_text(n)[i],
        ) by {
            if i < decimal_text(n / 10).len() {
                assert(decimal_text(n)[i] == decimal_text(n / 10)[i]);
            }
        }
    }
}

/// Reading back the decimal text of any 32-bit value gives that value.
pub proof fn lemma_parse_decimal_text(n: u32)
    ensures
        spec_parse_u32(decimal_text(n as nat)) == Ok::<u32, ParseError>(n),
{
    lemma_decimal_text(n as nat);
    assert(is_digit(decimal_text(n as nat)[0]));
}

/// The one-character text of a decimal digit.
fn digit_str(d: u32) -> (r: &'static str)
    requires
        d < 10,
    ensures
        r@ == seq![digit_char(d as nat)],
{
    proof {
        reveal_strlit("0");
        reveal_strlit("1");
        reveal_strlit("2");
        reveal_strlit("3");
        reveal_strlit("4");
        reveal_strlit("5");
        reveal_strlit("6");
        reveal_strlit("7");
        reveal_strlit("8");
        reveal_strlit("9");
    }
    let r = if d == 0 {
        "0"
    } else if d == 1 {
        "1"
    } else if d == 2 {
        "2"
    } else if d == 3 {
        "3"
    } else if d == 4 {
        "4"
    } else if d == 5 {
        "5"
    } else if d == 6 {
        "6"
    } else if d == 7 {
        "7"
    } else if d == 8 {
        "8"
    } else {
        "9"
    };
    assert(r@ =~= seq![digit_char(d as nat)]);
    r
}

/// The decimal text of `n`, without sign or leading zeros.
pub fn format_u32(n: u32) -> (r: String)
    ensures
        r@ == decimal_text(n as nat),
    decreases n,
{
    if n < 10 {
        String::from_str(digit_str(n))
    } else {
        let mut s = format_u32(n / 10);
        s.append(digit_str(n % 10));
        s
    }
}

/// One more than the largest 32-bit value: where digit scanning stops counting.
pub open spec fn scan_limit() -> nat {
    u32::MAX as nat + 1
}

/// A count that stops growing at the scan limit.
pub open spec fn saturate(x: nat) -> nat {
    if x >= scan_limit() {
        scan_limit()
    } else {
        x
    }
}

/// Checks that `s@[from..to]` is all decimal digits, and continues the value of the
/// digit string `p` (held saturated in `acc`) with them.
fn scan_digits(s: &str, from: usize, to: usize, acc: u64, Ghost(p): Ghost<Seq<char>>) -> (r:
    Option<u64>)
    requires
        from <= to <= s@.len(),
        acc == saturate(digits_value(p)),
    ensures
        r is None <==> !all_digits(s@.subrange(from as int, to as int)),
        r matches Some(v) ==> v == saturate(
            digits_value(p + s@.subrange(from as int, to as int)),
        ),
{
    let limit: u64 = u32::MAX as u64 + 1;
    let mut acc = acc;
    let mut i: usize = from;
    while i < to
        invariant
            from <= i <= to <= s@.len(),
            limit == scan_limit(),
            all_digits(s@.subrange(from as int, i as int)),
            acc == saturate(digits_value(p + s@.subrange(from as int, i as int))),
        decreases to - i,
    {
        let c = s.get_char(i);
        if !('0' <= c && c <= '9') {
            assert(s@.subrange(from as int, to as int)[i - from] == c);
            return None;
        }
        let ghost q = p + s@.subrange(from as int, i as int);
        assert(p + s@.subrange(from as int, i + 1) =~= q.push(c));
        proof {
            lemma_digits_push(q, c);
        }
        let v = (c as u32 - '0' as u32) as u64;
        if acc < limit {
            let next = acc * 10 + v;
            acc = if next > limit {
                limit
            } else {
                next
            };
        }
        assert forall|j: int|
            0 <= j < s@.subrange(from as int, i + 1).len() implies is_digit(
            #[trigger] s@.subrange(from as int, i + 1)[j],
        ) by {
            if j < i - from {
                assert(s@.subrange(from as int, i + 1)[j] == s@.subrange(from as int, i as int)[j]);
            }
        }
        i = i + 1;
    }
    Some(acc)
}

/// Reads an unsigned 32-bit integer the way `u32`'s `FromStr` accepts it:
/// an optional `+` followed by one or more decimal digits.
pub fn parse_u32(s: &str) -> (r: Result<u32, ParseError>)
    ensures
        r == spec_parse_u32(s@),
{
    let len = s.unicode_len();
    let mut start: usize = 0;
    if len > 0 && s.get_char(0) == '+' {
        start = 1;
    }
    let ghost d = unsigned_digits(s@);
    assert(d =~= s@.subrange(start as int, len as int));
    if start == len {
        return Err(ParseError::Malformed);
    }
    assert(Seq::<char>::empty() + d =~= d);
    match scan_digits(s, start, len, 0, Ghost(Seq::empty())) {
        None => Err(ParseError::Malformed),
        Some(v) => {
            if v > u32::MAX as u64 {
                Err(ParseError::OutOfRange)
            } else {
                Ok(v as u32)
            }
        },
    }
}

/// The position of the first `c` in `s`, or -1 where there is none.
pub open spec fn first_index(s: Seq<char>, c: char) -> int {
    if has_no(s, c) {
        -1
    } else {
        choose|k: int| 0 <= k < s.len() && s[k] == c && has_no(s.take(k), c)
    }
}

/// An occurrence with none before it is the first one.
pub proof fn lemma_first_index(s: Seq<char>, c: char, k: int)
    requires
        0 <= k < s.len(),
        s[k] == c,
        has_no(s.take(k), c),
    ensures
        first_index(s, c) == k,
{
    assert(!has_no(s, c));
    let j = first_index(s, c);
    assert(0 <= j < s.len() && s[j] == c && has_no(s.take(j), c));
    if j < k {
        assert(s.take(k)[j] == c);
    } else if j > k {
        assert(s.take(j)[k] == c);
    }
}

/// Finds the first occurrence of `c` in `s`.
pub fn find_char(s: &str, c: char) -> (r: Option<usize>)
    ensures
        r is None ==> has_no(s@, c) && first_index(s@, c) == -1,
        r matches Some(k) ==> k < s@.len() && s@[k as int] == c && has_no(s@.take(k as int), c)
            && first_index(s@, c) == k,
{
    let len = s.unicode_len();
    let mut i: usize = 0;
    while i < len
        invariant
            i <= len == s@.len(),
            has_no(s@.take(i as int), c),
        decreases len - i,
    {
        if s.get_char(i) == c {
            proof {
                lemma_first_index(s@, c, i as int);
            }
            return Some(i);
        }
        assert forall|j: int| 0 <= j < i + 1 implies #[trigger] s@.take(i + 1)[j] != c by {
            if j < i {
                assert(s@.take(i + 1)[j] == s@.take(i as int)[j]);
            }
        }
        i = i + 1;
    }
    assert(s@.take(len as int) =~= s@);
    None
}

/// Ten to the power `k`.
pub open spec fn pow10(k: nat) -> nat
    decreases k,
{
    if k == 0 {
        1
    } else {
        10 * pow10((k - 1) as nat)
    }
}

/// The most fraction digits a `Decimal` carries.
pub const MAX_SCALE: u32 = 9;

/// A nonnegative decimal number `mantissa / 10^scale`, as written with `scale`
/// digits after the point (an f-number such as `2.8` is `28` at scale `1`).
#[derive(Clone, Copy, Debug, PartialEq, Eq, Structural)]
pub struct Decimal {
    pub mantissa: u32,
    pub scale: u32,
}

/// The digits before the decimal point of an unsigned decimal text.
pub open spec fn integer_part(s: Seq<char>) -> Seq<char> {
    let b = unsigned_digits(s);
    let k = first_index(b, '.');
    if k < 0 {
        b
    } else {
        b.take(k)
    }
}

/// The digits after the decimal point of an unsigned decimal text.
pub open spec fn fraction_part(s: Seq<char>) -> Seq<char> {
    let b = unsigned_digits(s);
    let k = first_index(b, '.');
    if k < 0 {
        Seq::empty()
    } else {
        b.skip(k + 1)
    }
}

/// Reading a decimal: an optional `+`, digits, and optionally a point followed by
/// digits, with at least one digit in all; at most `MAX_SCALE` digits after the
/// point and a mantissa that fits 32 bits.
pub open spec fn spec_parse_decimal(s: Seq<char>) -> Result<Decimal, ParseError> {
    let ip = integer_part(s);
    let fp = fraction_part(s);
    if ip.len() + fp.len() == 0 || !all_digits(ip) || !all_digits(fp) {
        Err(ParseError::Malformed)
    } else if digits_value(ip + fp) > u32::MAX || fp.len() > MAX_SCALE {
        Err(ParseError::OutOfRange)
    } else {
        Ok(Decimal { mantissa: digits_value(ip + fp) as u32, scale: fp.len() as u32 })
    }
}

impl Decimal {
    /// Reads a decimal written in plain positional notation, such as `4.0` or `2.8`.
    pub fn parse(s: &str) -> (r: Result<Decimal, ParseError>)
        ensures
            r == spec_parse_decimal(s@),
    {
        let len = s.unicode_len();
        let mut start: usize = 0;
        if len > 0 && s.get_char(0) == '+' {
            start = 1;
        }
        let body = s.substring_char(start, len);
        let ghost b = unsigned_digits(s@);
        assert(b =~= body@);
        let blen = body.unicode_len();
        let (int_end, frac_start) = match find_char(body, '.') {
            None => (blen, blen),
            Some(k) => (k, k + 1),
        };
        let ghost ip = integer_part(s@);
        let ghost fp = fraction_part(s@);
        assert(ip =~= b.subrange(0, int_end as int));
        assert(fp =~= b.subrange(frac_start as int, blen as int));
        if int_end + (blen - frac_start) == 0 {
            return Err(ParseError::Malformed);
        }
        assert(Seq::<char>::empty() + ip =~= ip);
        let head = match scan_digits(body, 0, int_end, 0, Ghost(Seq::empty())) {
            None => {
                return Err(ParseError::Malformed);
            },
            Some(v) => v,
        };
        let whole = match scan_digits(body, frac_start, blen, head, Ghost(ip)) {
            None => {
                return Err(ParseError::Malformed);
            },
            Some(v) => v,
        };
        let scale = blen - frac_start;
        if whole > u32::MAX as u64 || scale > MAX_SCALE as usize {
            Err(ParseError::OutOfRange)
        } else {
            Ok(Decimal { mantissa: whole as u32, scale: scale as u32 })
        }
    }
}

} // verus!
