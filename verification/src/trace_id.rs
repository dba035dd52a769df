//! Identifiers shared by the spans and events of one logical trace, and the
//! decimal rendering used when they are written into a flattened record.

use vstd::prelude::*;

verus! {

/// Identifier shared by every span and event belonging to one logical trace.
///
/// Opaque to the rest of the pipeline: it is only ever read, hashed for the
/// sampling decision, and rendered for the backend.
#[derive(Clone, Copy, PartialEq, Eq, Structural, Hash, PartialOrd, Ord, Debug)]
pub struct TraceId(pub u128);

/// Identifier of a single span within a trace.
#[derive(Clone, Copy, PartialEq, Eq, Structural, Hash, PartialOrd, Ord, Debug)]
pub struct SpanId {
    /// Raw identifier handed out by the tracing framework.
    pub tracing_id: u64,
}

/// The character for one decimal digit.
pub open spec fn digit_char(d: nat) -> char {
    if d == 0 {
        '0'
    } else if d == 1 {
        '1'
    } else if d == 2 {
        '2'
    } else if d == 3 {
        '3'
    } else if d == 4 {
        '4'
    } else if d == 5 {
        '5'
    } else if d == 6 {
        '6'
    } else if d == 7 {
        '7'
    } else if d == 8 {
        '8'
    } else {
        '9'
    }
}

/// The usual decimal rendering of a natural number, most significant digit
/// first, with no leading zeros (`0` itself renders as `"0"`).
pub open spec fn dec_seq(n: nat) -> Seq<char>
    decreases n,
{
    if n < 10 {
        seq![digit_char(n)]
    } else {
        dec_seq(n / 10).push(digit_char(n % 10))
    }
}

fn digit_to_char(d: u128) -> (c: char)
    requires
        d < 10,
    ensures
        c == digit_char(d as nat),
{
    if d == 0 {
        '0'
    } else if d == 1 {
        '1'
    } else if d == 2 {
        '2'
    } else if d == 3 {
        '3'
    } else if d == 4 {
        '4'
    } else if d == 5 {
        '5'
    } else if d == 6 {
        '6'
    } else if d == 7 {
        '7'
    } else if d == 8 {
        '8'
    } else {
        '9'
    }
}

/// Renders a number as its decimal digits.
pub fn u128_to_decimal(n: u128) -> (r: String)
    ensures
        r@ == dec_seq(n as nat),
{
    let mut digits: Vec<char> = Vec::new();
    let mut v: u128 = n;
    loop
        invariant_except_break
            digits@.len() == 0 ==> v == n,
            digits@.len() > 0 ==> v > 0 && dec_seq(n as nat) == dec_seq(v as nat) + digits@,
        ensures
            dec_seq(n as nat) == digits@,
        decreases v,
    {
        let d = v % 10;
        let c = digit_to_char(d);
        let ghost old_digits = digits@;
        let ghost old_v = v;
        digits.insert(0, c);
        v = v / 10;
        proof {
            assert(digits@ =~= seq![c] + old_digits);
            if old_v >= 10 {
                assert(dec_seq(old_v as nat) =~= dec_seq(v as nat) + seq![c]);
                if old_digits.len() == 0 {
                    assert(dec_seq(n as nat) =~= dec_seq(v as nat) + digits@);
                } else {
                    assert(dec_seq(n as nat) =~= (dec_seq(v as nat) + seq![c]) + old_digits);
                    assert((dec_seq(v as nat) + seq![c]) + old_digits =~= dec_seq(v as nat) + (
                    seq![c] + old_digits));
                }
            } else {
                assert(v == 0);
                assert(dec_seq(old_v as nat) =~= seq![c]);
                if old_digits.len() == 0 {
                    assert(digits@ =~= dec_seq(n as nat));
                } else {
                    assert(old_v > 0);
                    assert(dec_seq(n as nat) =~= seq![c] + old_digits);
                }
            }
        }
        if v == 0 {
            break;
        }
    }
    let mut out = String::new();
    let mut i: usize = 0;
    while i < digits.len()
        invariant
            i <= digits@.len(),
            out@ == digits@.subrange(0, i as int),
        decreases digits@.len() - i,
    {
        string_push_char(&mut out, digits[i]);
        proof {
            assert(out@ =~= digits@.subrange(0, i + 1 as int));
        }
        i += 1;
    }
    proof {
        assert(digits@.subrange(0, digits@.len() as int) =~= digits@);
    }
    out
}

/// Renders a `u64` as its decimal digits.
pub fn u64_to_decimal(n: u64) -> (r: String)
    ensures
        r@ == dec_seq(n as nat),
{
    u128_to_decimal(n as u128)
}

/// Relies on `String::push`: appends the given character to the end of the
/// string.
#[verifier::external_body]
pub(crate) fn string_push_char(s: &mut String, c: char)
    ensures
        final(s)@ == old(s)@.push(c),
{
    s.push(c);
}

} // verus!
