//! Decimal texts for the notification payload.
//!
//! The payload carries numbers as text: the invoice id, the parcel weight
//! in kilograms with two decimals, and the pickup and drop-off coordinates
//! in degrees. Coordinates are held in 1e-5 degree units, so their text is
//! exact; the weight is rounded half-up from grams to hundredths of a
//! kilogram.

use vstd::prelude::*;

use crate::encode::{ascii_chars, ascii_string};

verus! {

/// The character of one decimal digit.
pub open spec fn digit_char(d: nat) -> char {
    ((d + 48) as u8) as char
}

/// The decimal digits of `n`, most significant first, without a sign and
/// without leading zeros (`0` itself is one digit).
pub open spec fn dec_digits(n: nat) -> Seq<char>
    decreases n,
{
    if n < 10 {
        seq![digit_char(n)]
    } else {
        dec_digits(n / 10).push(digit_char(n % 10))
    }
}

/// The five fractional digits of a value below 100000, most significant
/// first, zero-padded.
pub open spec fn frac5(n: nat) -> Seq<char> {
    seq![
        digit_char(n / 10000 % 10),
        digit_char(n / 1000 % 10),
        digit_char(n / 100 % 10),
        digit_char(n / 10 % 10),
        digit_char(n % 10),
    ]
}

/// `s` with its trailing `'0'` characters removed, the first kept.
pub open spec fn trim_trailing_zeros(s: Seq<char>) -> Seq<char>
    decreases s.len(),
{
    if s.len() <= 1 {
        s
    } else if s.last() == '0' {
        trim_trailing_zeros(s.drop_last())
    } else {
        s
    }
}

/// The text of an unsigned coordinate magnitude held in 1e-5 degree units:
/// whole degrees, a point, and the fractional digits with trailing zeros
/// trimmed down to at least one digit.
pub open spec fn magnitude_text(a: nat) -> Seq<char> {
    dec_digits(a / 100000) + seq!['.'] + trim_trailing_zeros(frac5(a % 100000))
}

/// The text of a signed coordinate held in 1e-5 degree units.
pub open spec fn coordinate_text_spec(v: int) -> Seq<char> {
    if v < 0 {
        seq!['-'] + magnitude_text((-v) as nat)
    } else {
        magnitude_text(v as nat)
    }
}

/// The text of a parcel weight given in grams: kilograms with exactly two
/// decimals, rounded half-up.
pub open spec fn weight_text_spec(g: nat) -> Seq<char> {
    let ckg = g / 10 + if g % 10 >= 5 {
        1nat
    } else {
        0nat
    };
    dec_digits(ckg / 100) + seq!['.', digit_char(ckg / 10 % 10), digit_char(ckg % 10)]
}

/// Appends the decimal digits of `n` to `out`.
fn push_dec_digits(n: u64, out: &mut Vec<u8>)
    requires
        forall|i: int| 0 <= i < old(out)@.len() ==> old(out)@[i] < 128,
    ensures
        forall|i: int| 0 <= i < final(out)@.len() ==> final(out)@[i] < 128,
        ascii_chars(final(out)@) == ascii_chars(old(out)@) + dec_digits(n as nat),
    decreases n,
{
    if n >= 10 {
        push_dec_digits(n / 10, out);
    }
    let ghost pre = out@;
    let b: u8 = (n % 10 + 48) as u8;
    out.push(b);
    proof {
        assert(ascii_chars(out@) =~= ascii_chars(pre).push(b as char));
        assert(ascii_chars(out@) =~= ascii_chars(old(out)@) + dec_digits(n as nat));
    }
}

/// The decimal text of `n`, as [`dec_digits`] states.
pub fn u64_to_string(n: u64) -> (r: String)
    ensures
        r@ == dec_digits(n as nat),
{
    let mut out: Vec<u8> = Vec::new();
    proof {
        assert(ascii_chars(out@) =~= Seq::<char>::empty());
    }
    push_dec_digits(n, &mut out);
    proof {
        assert(ascii_chars(out@) =~= dec_digits(n as nat));
    }
    ascii_string(out)
}

/// The degree text of a coordinate held in 1e-5 degree units, as
/// [`coordinate_text_spec`] states.
pub fn coordinate_text(v: i64) -> (r: String)
    ensures
        r@ == coordinate_text_spec(v as int),
{
    let mut out: Vec<u8> = Vec::new();
    if v < 0 {
        out.push(45);
    }
    proof {
        if v < 0 {
            assert(ascii_chars(out@) =~= seq!['-']);
        } else {
            assert(ascii_chars(out@) =~= Seq::<char>::empty());
        }
    }
    let ghost signed = ascii_chars(out@);
    let a: u64 = if v >= 0 {
        v as u64
    } else {
        (-(v as i128)) as u64
    };
    push_dec_digits(a / 100000, &mut out);
    out.push(46);
    proof {
        assert(ascii_chars(out@) =~= signed + dec_digits((a / 100000) as nat) + seq!['.']);
    }
    let f: u64 = a % 100000;
    let mut frac: Vec<u8> = Vec::new();
    frac.push((f / 10000 % 10 + 48) as u8);
    frac.push((f / 1000 % 10 + 48) as u8);
    frac.push((f / 100 % 10 + 48) as u8);
    frac.push((f / 10 % 10 + 48) as u8);
    frac.push((f % 10 + 48) as u8);
    proof {
        assert(ascii_chars(frac@) =~= frac5((a % 100000) as nat));
    }
    while frac.len() > 1 && frac[frac.len() - 1] == 48
        invariant
            1 <= frac@.len(),
            forall|i: int| 0 <= i < frac@.len() ==> frac@[i] < 128,
            trim_trailing_zeros(ascii_chars(frac@)) == trim_trailing_zeros(
                frac5((a % 100000) as nat),
            ),
        decreases frac@.len(),
    {
        let ghost pre = frac@;
        frac.pop();
        proof {
            assert(ascii_chars(pre).last() == '0');
            assert(ascii_chars(frac@) =~= ascii_chars(pre).drop_last());
        }
    }
    proof {
        assert(trim_trailing_zeros(ascii_chars(frac@)) == ascii_chars(frac@));
    }
    let ghost frac_final = ascii_chars(frac@);
    out.append(&mut frac);
    proof {
        assert(ascii_chars(out@) =~= signed + dec_digits((a / 100000) as nat) + seq!['.']
            + frac_final);
        assert(ascii_chars(out@) =~= coordinate_text_spec(v as int));
    }
    ascii_string(out)
}

/// The kilogram text of a weight given in grams, as [`weight_text_spec`]
/// states.
pub fn weight_text(grams: u64) -> (r: String)
    ensures
        r@ == weight_text_spec(grams as nat),
{
    let ckg: u64 = grams / 10 + if grams % 10 >= 5 {
        1
    } else {
        0
    };
    let mut out: Vec<u8> = Vec::new();
    proof {
        assert(ascii_chars(out@) =~= Seq::<char>::empty());
    }
    push_dec_digits(ckg / 100, &mut out);
    out.push(46);
    out.push((ckg / 10 % 10 + 48) as u8);
    out.push((ckg % 10 + 48) as u8);
    proof {
        assert(ascii_chars(out@) =~= weight_text_spec(grams as nat));
    }
    ascii_string(out)
}

} // verus!
