//! The iteration-count argument: an optional decimal numeral. A missing
//! argument, or one that is not a valid unsigned 64-bit numeral, degrades to
//! the default count; that is the only recovery in the workload.

use vstd::prelude::*;

verus! {

/// Iteration count used when no argument is given or it cannot be parsed.
pub const DEFAULT_ITERATIONS: u64 = 2000000;

/// An ASCII decimal digit.
pub open spec fn is_digit(b: u8) -> bool {
    48 <= b <= 57
}

/// The numeric value of an ASCII decimal digit.
pub open spec fn digit_val(b: u8) -> nat
    recommends
        is_digit(b),
{
    (b - 48) as nat
}

/// Every byte is an ASCII decimal digit.
pub open spec fn all_digits(s: Seq<u8>) -> bool {
    forall|i: int| 0 <= i < s.len() ==> is_digit(#[trigger] s[i])
}

/// The value of a sequence of decimal digits, most significant first.
pub open spec fn numeral_value(s: Seq<u8>) -> nat
    recommends
        all_digits(s),
    decreases s.len(),
{
    if s.len() == 0 {
        0
    } else {
        numeral_value(s.drop_last()) * 10 + digit_val(s.last())
    }
}

/// The digits of a numeral: everything after an optional leading `+` sign.
pub open spec fn digits_of(s: Seq<u8>) -> Seq<u8> {
    if s.len() >= 1 && s[0] == 43 {
        s.skip(1)
    } else {
        s
    }
}

/// A valid unsigned 64-bit numeral: an optional `+`, then at least one
/// decimal digit, with a value that fits in a `u64`.
pub open spec fn is_u64_numeral(s: Seq<u8>) -> bool {
    &&& digits_of(s).len() > 0
    &&& all_digits(digits_of(s))
    &&& numeral_value(digits_of(s)) <= u64::MAX
}

/// The iteration count an argument stands for: its numeral value when it is
/// one, the default otherwise or when it is absent.
pub open spec fn spec_effective_iterations(arg: Option<Seq<u8>>) -> u64 {
    match arg {
        Option::None => DEFAULT_ITERATIONS,
        Option::Some(s) => if is_u64_numeral(s) {
            numeral_value(digits_of(s)) as u64
        } else {
            DEFAULT_ITERATIONS
        },
    }
}

/// A prefix of a digit string never exceeds the whole string's value.
proof fn lemma_numeral_value_prefix(s: Seq<u8>, i: int)
    requires
        0 <= i <= s.len(),
    ensures
        numeral_value(s.take(i)) <= numeral_value(s),
    decreases s.len() - i,
{
    if i < s.len() {
        lemma_numeral_value_prefix(s, i + 1);
        assert(s.take(i + 1).drop_last() =~= s.take(i));
        assert(numeral_value(s.take(i)) <= numeral_value(s.take(i)) * 10 + digit_val(
            s.take(i + 1).last(),
        ));
    } else {
        assert(s.take(i) =~= s);
    }
}

/// Parse an unsigned 64-bit decimal numeral, exactly: `Some` if and only if
/// the bytes are an optional `+` followed by at least one digit and the value
/// fits in a `u64`.
pub fn parse_u64(s: &Vec<u8>) -> (result: Option<u64>)
    ensures
        result is Some <==> is_u64_numeral(s@),
        (match result {
            Some(v) => v == numeral_value(digits_of(s@)),
            None => true,
        }),
{
    let ghost digits = digits_of(s@);
    let start: usize = if s.len() >= 1 && s[0] == 43 {
        1
    } else {
        0
    };
    assert(digits =~= s@.skip(start as int));
    if s.len() == start {
        return None;
    }
    let len = s.len();
    let mut value: u64 = 0;
    let mut i: usize = start;
    while i < len
        invariant
            start <= i <= len,
            len == s@.len(),
            digits == s@.skip(start as int),
            digits == digits_of(s@),
            digits.len() > 0,
            all_digits(digits.take(i - start)),
            value == numeral_value(digits.take(i - start)),
        decreases len - i,
    {
        let b = s[i];
        if b < 48 || b > 57 {
            assert(digits[i - start] == b);
            return None;
        }
        let d: u64 = (b - 48) as u64;
        if value > (u64::MAX - d) / 10 {
            proof {
                assert(digits.take(i - start + 1).drop_last() =~= digits.take(i - start));
                assert(digits.take(i - start + 1).last() == b);
                let v = value as int;
                let dd = d as int;
                let m = u64::MAX as int;
                assert(v * 10 + dd > m) by (nonlinear_arith)
                    requires
                        v > (m - dd) / 10,
                        0 <= dd <= 9,
                        m == u64::MAX as int,
                        v >= 0,
                ;
                assert(numeral_value(digits.take(i - start + 1)) > u64::MAX);
                lemma_numeral_value_prefix(digits, i - start + 1);
            }
            return None;
        }
        proof {
            let v = value as int;
            let dd = d as int;
            let m = u64::MAX as int;
            assert(v * 10 + dd <= m) by (nonlinear_arith)
                requires
                    v <= (m - dd) / 10,
                    0 <= dd <= 9,
                    m == u64::MAX as int,
                    v >= 0,
            ;
            assert(digits.take(i - start + 1).drop_last() =~= digits.take(i - start));
            assert(digits.take(i - start + 1).last() == b);
        }
        value = value * 10 + d;
        i = i + 1;
    }
    assert(digits.take(i - start) =~= digits);
    Some(value)
}

/// The iteration count to run: the argument's numeral value when it parses,
/// the default count when the argument is absent or unparsable.
pub fn effective_iterations(arg: Option<&Vec<u8>>) -> (n: u64)
    ensures
        (match arg {
            Option::None => n == spec_effective_iterations(None),
            Option::Some(s) => n == spec_effective_iterations(Some(s@)),
        }),
{
    match arg {
        None => DEFAULT_ITERATIONS,
        Some(s) => match parse_u64(s) {
            Some(v) => v,
            None => DEFAULT_ITERATIONS,
        },
    }
}

/// Default substitution: an absent argument and an unparsable one both name
/// exactly the default iteration count.
pub proof fn lemma_default_substitution(s: Seq<u8>)
    requires
        !is_u64_numeral(s),
    ensures
        spec_effective_iterations(Some(s)) == spec_effective_iterations(None),
        spec_effective_iterations(None) == DEFAULT_ITERATIONS,
{
}

} // verus!
