//! The colormap search: mapping arbitrary colors onto the nearest entry of
//! a 256-color palette by squared distance. The darkening and inversion
//! arithmetic that produces the colors to map stays with the caller; the
//! search itself, and the palette framing, are here.

use vstd::prelude::*;

verus! {

/// The absolute difference of two channel values.
pub open spec fn spec_abs_diff(a: u8, b: u8) -> int {
    if a >= b {
        a - b
    } else {
        b - a
    }
}

/// The squared distance between two colors.
pub open spec fn color_dist(c1: [u8; 3], c2: [u8; 3]) -> int {
    spec_abs_diff(c1@[0], c2@[0]) * spec_abs_diff(c1@[0], c2@[0]) + spec_abs_diff(
        c1@[1],
        c2@[1],
    ) * spec_abs_diff(c1@[1], c2@[1]) + spec_abs_diff(c1@[2], c2@[2]) * spec_abs_diff(
        c1@[2],
        c2@[2],
    )
}

/// Position `k` holds the first palette entry of least distance to `color`.
pub open spec fn is_first_closest(palette: Seq<[u8; 3]>, color: [u8; 3], k: int) -> bool {
    &&& 0 <= k < palette.len()
    &&& forall|j: int|
        0 <= j < palette.len() ==> color_dist(palette[k], color) <= color_dist(
            #[trigger] palette[j],
            color,
        )
    &&& forall|j: int|
        0 <= j < k ==> color_dist(#[trigger] palette[j], color) > color_dist(palette[k], color)
}

/// The absolute difference of two channel values.
pub fn abs_diff(a: u8, b: u8) -> (r: u8)
    ensures
        r == spec_abs_diff(a, b),
{
    if a >= b {
        a - b
    } else {
        b - a
    }
}

/// The squared distance between two colors, within `u32` range.
fn dist(c1: [u8; 3], c2: [u8; 3]) -> (r: u32)
    ensures
        r == color_dist(c1, c2),
{
    let rd = abs_diff(c1[0], c2[0]) as u32;
    let gd = abs_diff(c1[1], c2[1]) as u32;
    let bd = abs_diff(c1[2], c2[2]) as u32;
    assert(rd * rd + gd * gd + bd * bd <= 255 * 255 * 3) by (nonlinear_arith)
        requires
            rd <= 255 && gd <= 255 && bd <= 255,
    ;
    (rd * rd) + (gd * gd) + (bd * bd)
}

/// Finds the palette entry closest to `color` by squared distance, taking
/// the earliest on ties. The result indexes a palette of at most 256
/// entries, so it fits one byte.
pub fn search_for_closest(palette: &Vec<[u8; 3]>, color: [u8; 3]) -> (r: u8)
    requires
        0 < palette@.len() <= 256,
    ensures
        is_first_closest(palette@, color, r as int),
{
    let mut best: usize = 0;
    let mut best_dist: u32 = dist(palette[0], color);
    let mut i: usize = 1;
    while i < palette.len()
        invariant
            0 < palette@.len() <= 256,
            best < i <= palette@.len(),
            best_dist == color_dist(palette@[best as int], color),
            forall|j: int|
                0 <= j < i ==> best_dist <= color_dist(#[trigger] palette@[j], color),
            forall|j: int|
                0 <= j < best ==> color_dist(#[trigger] palette@[j], color) > best_dist,
        decreases palette@.len() - i,
    {
        let d = dist(palette[i], color);
        if d < best_dist {
            best = i;
            best_dist = d;
        }
        i = i + 1;
    }
    best as u8
}

/// Maps every color of `colors` onto the palette: one output byte per
/// color, the index of the first closest palette entry.
pub fn generate_from_palette(colors: &Vec<[u8; 3]>, palette: &Vec<[u8; 3]>) -> (out: Vec<u8>)
    requires
        0 < palette@.len() <= 256,
    ensures
        out@.len() == colors@.len(),
        forall|i: int|
            0 <= i < colors@.len() ==> is_first_closest(
                palette@,
                colors@[i],
                #[trigger] out@[i] as int,
            ),
{
    let mut out: Vec<u8> = Vec::new();
    let mut i: usize = 0;
    while i < colors.len()
        invariant
            0 < palette@.len() <= 256,
            i <= colors@.len(),
            out@.len() == i,
            forall|k: int|
                0 <= k < i ==> is_first_closest(palette@, colors@[k], #[trigger] out@[k] as int),
        decreases colors@.len() - i,
    {
        let b = search_for_closest(palette, colors[i]);
        out.push(b);
        i = i + 1;
    }
    out
}

/// Groups a byte stream into colors, three bytes each, keeping at most the
/// 256 entries a palette holds; a trailing partial group is dropped.
pub fn read_palette(bytes: &Vec<u8>) -> (out: Vec<[u8; 3]>)
    ensures
        out@.len() == (if bytes@.len() / 3 <= 256 {
            bytes@.len() / 3
        } else {
            256
        }),
        forall|i: int|
            0 <= i < out@.len() ==> (#[trigger] out@[i])@ == seq![
                bytes@[3 * i],
                bytes@[3 * i + 1],
                bytes@[3 * i + 2],
            ],
{
    let mut out: Vec<[u8; 3]> = Vec::new();
    let mut i: usize = 0;
    while i < 256 && 3 * i + 2 < bytes.len()
        invariant
            i <= 256,
            out@.len() == i,
            forall|k: int|
                0 <= k < i ==> (#[trigger] out@[k])@ == seq![
                    bytes@[3 * k],
                    bytes@[3 * k + 1],
                    bytes@[3 * k + 2],
                ],
            i <= bytes@.len() / 3,
        decreases 256 - i,
    {
        let c: [u8; 3] = [bytes[3 * i], bytes[3 * i + 1], bytes[3 * i + 2]];
        assert(c@ =~= seq![bytes@[3 * i as int], bytes@[3 * i as int + 1], bytes@[3 * i as int + 2]]);
        out.push(c);
        i = i + 1;
    }
    out
}

/// Flattens a palette into its byte stream: three bytes per color, in
/// order.
pub fn write_palette(palette: &Vec<[u8; 3]>) -> (out: Vec<u8>)
    ensures
        out@.len() == 3 * palette@.len(),
        forall|i: int|
            0 <= i < palette@.len() ==> out@[3 * i] == (#[trigger] palette@[i])@[0] && out@[3 * i
                + 1] == palette@[i]@[1] && out@[3 * i + 2] == palette@[i]@[2],
{
    let mut out: Vec<u8> = Vec::new();
    let mut i: usize = 0;
    while i < palette.len()
        invariant
            i <= palette@.len(),
            out@.len() == 3 * i,
            forall|k: int|
                0 <= k < i ==> out@[3 * k] == (#[trigger] palette@[k])@[0] && out@[3 * k + 1]
                    == palette@[k]@[1] && out@[3 * k + 2] == palette@[k]@[2],
        decreases palette@.len() - i,
    {
        let c = palette[i];
        out.push(c[0]);
        out.push(c[1]);
        out.push(c[2]);
        i = i + 1;
    }
    out
}

} // verus!
