use vstd::prelude::*;
use crate::number::{
    decimal_text, find_char, first_index, format_u32, has_no, lemma_decimal_text,
    lemma_first_index, lemma_parse_decimal_text, parse_u32, spec_parse_u32, ParseError,
};

verus! {

/// A ratio of two unsigned integers, as a shutter speed in seconds (`1/15`, `2`).
/// A well-formed value has a nonzero denominator.
#[derive(Clone, Copy, Debug, PartialEq, Eq, Structural)]
pub struct RationalValue {
    pub numerator: u32,
    pub denominator: u32,
}

impl RationalValue {
    pub open spec fn wf(self) -> bool {
        self.denominator != 0
    }
}

/// The text of a ratio: the bare numerator over a denominator of one, else `n/d`.
pub open spec fn rational_text(r: RationalValue) -> Seq<char> {
    if r.denominator == 1 {
        decimal_text(r.numerator as nat)
    } else {
        decimal_text(r.numerator as nat) + seq!['/'] + decimal_text(r.denominator as nat)
    }
}

/// A ratio from the texts on either side of its `/`.
pub open spec fn rational_from_parts(n: Seq<char>, d: Seq<char>) -> Result<
    RationalValue,
    ParseError,
> {
    match spec_parse_u32(n) {
        Err(e) => Err(e),
        Ok(nv) => match spec_parse_u32(d) {
            Err(e) => Err(e),
            Ok(dv) => if dv == 0 {
                Err(ParseError::ZeroDenominator)
            } else {
                Ok(RationalValue { numerator: nv, denominator: dv })
            },
        },
    }
}

/// Reading a ratio: a whole number (over one), or two whole numbers around a
/// single `/`, the second nonzero.
pub open spec fn spec_parse_rational(s: Seq<char>) -> Result<RationalValue, ParseError> {
    let k = first_index(s, '/');
    if k < 0 {
        match spec_parse_u32(s) {
            Err(e) => Err(e),
            Ok(n) => Ok(RationalValue { numerator: n, denominator: 1 }),
        }
    } else if !has_no(s.skip(k + 1), '/') {
        Err(ParseError::Malformed)
    } else {
        rational_from_parts(s.take(k), s.skip(k + 1))
    }
}

/// Reading back the text of a well-formed ratio gives the same ratio.
pub proof fn lemma_parse_to_string(r: RationalValue)
    requires
        r.wf(),
    ensures
        spec_parse_rational(rational_text(r)) == Ok::<RationalValue, ParseError>(r),
{
    let n = decimal_text(r.numerator as nat);
    let d = decimal_text(r.denominator as nat);
    lemma_decimal_text(r.numerator as nat);
    lemma_decimal_text(r.denominator as nat);
    lemma_parse_decimal_text(r.numerator);
    lemma_parse_decimal_text(r.denominator);
    assert(has_no(n, '/')) by {
        assert forall|i: int| 0 <= i < n.len() implies #[trigger] n[i] != '/' by {
            assert(crate::number::is_digit(n[i]));
        }
    }
    assert(has_no(d, '/')) by {
        assert forall|i: int| 0 <= i < d.len() implies #[trigger] d[i] != '/' by {
            assert(crate::number::is_digit(d[i]));
        }
    }
    if r.denominator == 1 {
        assert(first_index(n, '/') == -1);
    } else {
        let t = n + seq!['/'] + d;
        let k = n.len() as int;
        assert(t[k] == '/');
        assert(t.take(k) =~= n);
        assert(t.skip(k + 1) =~= d);
        lemma_first_index(t, '/', k);
    }
}

impl RationalValue {
    /// Reads a ratio written as `n` or `n/d`. Text with more than one `/`, parts
    /// that are not unsigned 32-bit integers, or a zero denominator are refused.
    pub fn parse(s: &str) -> (r: Result<RationalValue, ParseError>)
        ensures
            r == spec_parse_rational(s@),
            r matches Ok(v) ==> v.wf(),
    {
        let len = s.unicode_len();
        match find_char(s, '/') {
            None => match parse_u32(s) {
                Err(e) => Err(e),
                Ok(n) => Ok(RationalValue { numerator: n, denominator: 1 }),
            },
            Some(k) => {
                let num = s.substring_char(0, k);
                let den = s.substring_char(k + 1, len);
                assert(num@ =~= s@.take(k as int));
                assert(den@ =~= s@.skip(k + 1));
                if find_char(den, '/').is_some() {
                    return Err(ParseError::Malformed);
                }
                match parse_u32(num) {
                    Err(e) => Err(e),
                    Ok(nv) => match parse_u32(den) {
                        Err(e) => Err(e),
                        Ok(dv) => {
                            if dv == 0 {
                                Err(ParseError::ZeroDenominator)
                            } else {
                                Ok(RationalValue { numerator: nv, denominator: dv })
                            }
                        },
                    },
                }
            },
        }
    }

    /// Replaces this value with the ratio read from `value`; where `value` cannot be
    /// read, leaves it as it was and says why.
    pub fn set_from_str(&mut self, value: &str) -> (r: Result<(), ParseError>)
        ensures
            match spec_parse_rational(value@) {
                Ok(v) => r == Ok::<(), ParseError>(()) && *final(self) == v,
                Err(e) => r == Err::<(), ParseError>(e) && *final(self) == *old(self),
            },
    {
        match RationalValue::parse(value) {
            Ok(v) => {
                *self = v;
                Ok(())
            },
            Err(e) => Err(e),
        }
    }

    /// The ratio read from `value`; the same reading as `parse`, with each failure
    /// reported as a `ParseError`.
    pub fn from_str(value: &str) -> (r: Result<RationalValue, ParseError>)
        ensures
            r == spec_parse_rational(value@),
            r matches Ok(v) ==> v.wf(),
    {
        RationalValue::parse(value)
    }

    /// The display text: the bare numerator when the denominator is one, else `n/d`.
    pub fn to_string(&self) -> (r: String)
        ensures
            r@ == rational_text(*self),
    {
        let mut s = format_u32(self.numerator);
        if self.denominator != 1 {
            s.append("/");
            let d = format_u32(self.denominator);
            s.append(d.as_str());
        }
        proof {
            reveal_strlit("/");
        }
        s
    }
}

} // verus!
