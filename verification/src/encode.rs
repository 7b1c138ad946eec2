//! Polyline encoding of a merged path.
//!
//! The merged path is serialized into the compact polyline text format:
//! for each point, first the latitude delta then the longitude delta from
//! the previous point (from the origin for the first), each delta
//! zigzag-folded onto the naturals and written out in 5-bit chunks, low
//! chunks first, every chunk but the last carrying a continuation flag, and
//! every chunk offset by 63 into printable ASCII. Coordinates held in 1e-5
//! degree units encode exactly at the format's five-decimal precision.
//! Encoding never fails the caller: a path with a point off the globe
//! yields the empty string, which readers treat as "no path available".

use vstd::prelude::*;

use crate::geo::{path_on_globe, Coordinate, LAT_MAX_E5, LON_MAX_E5};

verus! {

/// The zigzag fold of a delta onto the naturals: non-negative deltas become
/// even, negative ones odd.
pub open spec fn zigzag(d: int) -> nat {
    if d >= 0 {
        (2 * d) as nat
    } else {
        (-2 * d - 1) as nat
    }
}

/// The characters of one zigzag value, five bits at a time, low chunks
/// first; every chunk but the last carries the continuation flag 32, and
/// every chunk is offset by 63 into printable ASCII.
pub open spec fn chunk_chars(v: nat) -> Seq<char>
    decreases v,
{
    if v < 32 {
        seq![((v + 63) as u8) as char]
    } else {
        seq![((v % 32 + 32 + 63) as u8) as char] + chunk_chars(v / 32)
    }
}

/// The characters one delta contributes to the polyline text.
pub open spec fn encode_value(d: int) -> Seq<char> {
    chunk_chars(zigzag(d))
}

/// The polyline text of the path `s`, the previous point's scaled
/// coordinates being `prev_x` and `prev_y`: latitude delta first, then
/// longitude delta, then the rest of the path from this point.
pub open spec fn polyline_from(s: Seq<Coordinate>, prev_x: int, prev_y: int) -> Seq<char>
    decreases s.len(),
{
    if s.len() == 0 {
        Seq::empty()
    } else {
        encode_value(s.first().y - prev_y) + encode_value(s.first().x - prev_x) + polyline_from(
            s.drop_first(),
            s.first().x as int,
            s.first().y as int,
        )
    }
}

/// The polyline text of the path `s`, started from the origin.
pub open spec fn polyline_of(s: Seq<Coordinate>) -> Seq<char> {
    polyline_from(s, 0, 0)
}

/// The empty path encodes to the empty text — degraded and absent paths
/// meet in the same value, and neither is an error.
pub proof fn lemma_polyline_of_empty()
    ensures
        polyline_of(Seq::<Coordinate>::empty()) == Seq::<char>::empty(),
{
}

/// The characters of a sequence of ASCII bytes, one per byte.
pub open spec fn ascii_chars(s: Seq<u8>) -> Seq<char> {
    s.map_values(|b: u8| b as char)
}

/// Relies on `String::from_utf8`: bytes that are all ASCII are valid UTF-8
/// and decode to one `char` per byte.
#[verifier::external_body]
pub(crate) fn ascii_string(bytes: Vec<u8>) -> (r: String)
    requires
        forall|i: int| 0 <= i < bytes@.len() ==> bytes@[i] < 128,
    ensures
        r@ == ascii_chars(bytes@),
{
    match String::from_utf8(bytes) {
        Ok(s) => s,
        Err(_) => String::new(),
    }
}

/// Appends the chunk characters of one delta to `out`.
fn push_encoded_value(delta: i64, out: &mut Vec<u8>)
    requires
        -36000000 <= delta <= 36000000,
        forall|i: int| 0 <= i < old(out)@.len() ==> old(out)@[i] < 128,
    ensures
        forall|i: int| 0 <= i < final(out)@.len() ==> final(out)@[i] < 128,
        ascii_chars(final(out)@) == ascii_chars(old(out)@) + encode_value(delta as int),
{
    let mut v: u64 = if delta >= 0 {
        (2 * delta) as u64
    } else {
        ((-delta) as u64) * 2 - 1
    };
    proof {
        assert(v == zigzag(delta as int));
    }
    let ghost start = out@;
    while v >= 32
        invariant
            forall|i: int| 0 <= i < out@.len() ==> out@[i] < 128,
            ascii_chars(start) + encode_value(delta as int) == ascii_chars(out@) + chunk_chars(
                v as nat,
            ),
        decreases v,
    {
        let b: u8 = ((v % 32 + 32) + 63) as u8;
        let ghost out_pre = out@;
        out.push(b);
        proof {
            assert(ascii_chars(out@) =~= ascii_chars(out_pre).push(b as char));
            assert(chunk_chars((v / 32) as nat) =~= chunk_chars(v as nat).drop_first());
            assert(ascii_chars(out_pre) + chunk_chars(v as nat) =~= ascii_chars(out@)
                + chunk_chars((v / 32) as nat));
        }
        v = v / 32;
    }
    let b: u8 = (v + 63) as u8;
    let ghost out_pre = out@;
    out.push(b);
    proof {
        assert(ascii_chars(out@) =~= ascii_chars(out_pre).push(b as char));
        assert(chunk_chars(v as nat) =~= seq![b as char]);
        assert(ascii_chars(out@) =~= ascii_chars(start) + encode_value(delta as int));
    }
}

/// Encodes a path into polyline text, never failing the caller: a path
/// whose every point lies on the globe encodes as [`polyline_of`] states,
/// and any other path — the degraded case — yields the empty string.
pub fn encode_path(path: &Vec<Coordinate>) -> (r: String)
    ensures
        path_on_globe(path@) ==> r@ == polyline_of(path@),
        !path_on_globe(path@) ==> r@ == Seq::<char>::empty(),
{
    let ghost pv = path@;
    let mut out: Vec<u8> = Vec::new();
    let mut prev_x: i64 = 0;
    let mut prev_y: i64 = 0;
    let mut i: usize = 0;
    proof {
        assert(ascii_chars(out@) =~= Seq::<char>::empty());
        assert(pv.skip(0) =~= pv);
        assert(Seq::<char>::empty() + polyline_from(pv, 0, 0) =~= polyline_from(pv, 0, 0));
    }
    while i < path.len()
        invariant
            i <= path.len(),
            pv == path@,
            -LON_MAX_E5 <= prev_x <= LON_MAX_E5,
            -LAT_MAX_E5 <= prev_y <= LAT_MAX_E5,
            i > 0 ==> prev_x == pv[i - 1].x && prev_y == pv[i - 1].y,
            forall|j: int|
                0 <= j < i ==> crate::geo::coordinate_on_globe(#[trigger] pv[j]),
            forall|j: int| 0 <= j < out@.len() ==> out@[j] < 128,
            ascii_chars(out@) + polyline_from(pv.skip(i as int), prev_x as int, prev_y as int)
                == polyline_of(pv),
        decreases path@.len() - i,
    {
        let point = path[i];
        if !point.on_globe() {
            return String::new();
        }
        proof {
            assert(pv.skip(i as int).first() == point);
            assert(pv.skip(i as int).drop_first() =~= pv.skip(i + 1));
        }
        push_encoded_value(point.y - prev_y, &mut out);
        push_encoded_value(point.x - prev_x, &mut out);
        proof {
            assert(ascii_chars(out@) + polyline_from(pv.skip(i + 1), point.x as int, point.y as int)
                =~= polyline_of(pv));
        }
        prev_x = point.x;
        prev_y = point.y;
        i = i + 1;
    }
    proof {
        assert(pv.skip(pv.len() as int) =~= Seq::<Coordinate>::empty());
        assert(ascii_chars(out@) =~= polyline_of(pv));
    }
    ascii_string(out)
}

} // verus!
