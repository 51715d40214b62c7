//! Pixel probe: detects collisions against background art (bunkers, the
//! opposing bullet) that is not tracked by the entity model, by comparing
//! pixels of the rendered RGBA frame buffer against target colors.

use vstd::prelude::*;

use crate::dot_data::{color_rgba, set_color, Color};
use crate::geom::UNITS_PER_PX;

verus! {

/// A pixel coordinate of the frame buffer.
#[derive(PartialEq, Eq, Structural, Clone, Copy, Debug)]
pub struct PixelPos {
    pub x: usize,
    pub y: usize,
}

/// A probe a bullet asks of the host: sample the listed pixels of the
/// frame rendered so far (at least `region_h` subpixel units tall) and
/// report whether any of them holds any of the listed colors.
pub struct ProbeQuery {
    pub points: Vec<PixelPos>,
    pub colors: Vec<Color>,
    pub region_h: i32,
}

/// The screen pixel containing subpixel coordinate `u`; coordinates left
/// of or above the canvas clamp to pixel 0.
pub open spec fn spec_px(u: int) -> int {
    if u <= 0 {
        0
    } else {
        u / 20
    }
}

/// The frame buffer pixel at subpixel coordinates `(x, y)`.
pub open spec fn spec_ppoint(x: int, y: int) -> PixelPos {
    PixelPos { x: spec_px(x) as usize, y: spec_px(y) as usize }
}

/// `q` probes exactly the two pixels at subpixel x-coordinates `lx` and
/// `rx` on line `y`, for the colors `ca` and `cb`, over a frame region of
/// height `rh`.
pub open spec fn probe_query_is(
    q: ProbeQuery,
    lx: int,
    rx: int,
    y: int,
    ca: Color,
    cb: Color,
    rh: int,
) -> bool {
    &&& q.points@ =~= seq![spec_ppoint(lx, y), spec_ppoint(rx, y)]
    &&& q.colors@ =~= seq![ca, cb]
    &&& q.region_h == rh
}

/// The screen pixel containing subpixel coordinate `u`.
pub fn units_to_px(u: i32) -> (r: usize)
    ensures
        r == spec_px(u as int),
{
    if u <= 0 {
        0
    } else {
        (u / UNITS_PER_PX) as usize
    }
}

/// Build the two-point two-color probe a bullet uses against background
/// art beside its tip.
pub fn make_probe(lx: i32, rx: i32, y: i32, ca: Color, cb: Color, rh: i32) -> (q: ProbeQuery)
    ensures
        probe_query_is(q, lx as int, rx as int, y as int, ca, cb, rh as int),
{
    let yp = units_to_px(y);
    let points = vec![
        PixelPos { x: units_to_px(lx), y: yp },
        PixelPos { x: units_to_px(rx), y: yp },
    ];
    let colors = vec![ca, cb];
    let q = ProbeQuery { points, colors, region_h: rh };
    proof {
        assert(q.points@ =~= seq![
            spec_ppoint(lx as int, y as int),
            spec_ppoint(rx as int, y as int),
        ]);
        assert(q.colors@ =~= seq![ca, cb]);
    }
    q
}

/// Byte offset of pixel `p` in an RGBA buffer of row width `canvas_width`.
pub open spec fn pixel_index(canvas_width: int, p: PixelPos) -> int {
    (p.y * canvas_width + p.x) * 4
}

proof fn lemma_color_rgba_len(c: Color)
    ensures
        color_rgba(c).len() == 4,
{
    match c {
        Color::Turquoise => {},
        Color::Purple => {},
        Color::Green => {},
        Color::Red => {},
        Color::Yellow => {},
        Color::Background => {},
    }
}

/// The pixel at `p` of the buffer holds exactly the RGBA encoding of `c`.
pub open spec fn pixel_matches(rgba: Seq<u8>, canvas_width: int, p: PixelPos, c: Color) -> bool {
    let i = pixel_index(canvas_width, p);
    &&& rgba[i] == color_rgba(c)[0]
    &&& rgba[i + 1] == color_rgba(c)[1]
    &&& rgba[i + 2] == color_rgba(c)[2]
    &&& rgba[i + 3] == color_rgba(c)[3]
}

/// Some queried position holds some target color.
pub open spec fn spec_any_pixel_matches(
    rgba: Seq<u8>,
    canvas_width: int,
    pos_list: Seq<PixelPos>,
    colors: Seq<Color>,
) -> bool {
    exists|i: int, j: int|
        0 <= i < colors.len() && 0 <= j < pos_list.len() && pixel_matches(
            rgba,
            canvas_width,
            pos_list[j],
            colors[i],
        )
}

/// All queried positions lie inside the buffer.
pub open spec fn spec_probe_in_bounds(
    canvas_width: int,
    pos_list: Seq<PixelPos>,
    rgba_len: int,
) -> bool {
    forall|j: int| 0 <= j < pos_list.len() ==> pixel_index(canvas_width, #[trigger] pos_list[j]) + 4
        <= rgba_len
}

/// Runtime bounds check for a probe, for callers that receive the frame
/// buffer from outside and cannot know its size in advance.
pub fn probe_in_bounds(canvas_width: usize, pos_list: &Vec<PixelPos>, rgba_len: usize) -> (r: bool)
    ensures
        r == spec_probe_in_bounds(canvas_width as int, pos_list@, rgba_len as int),
{
    let mut j: usize = 0;
    while j < pos_list.len()
        invariant
            j <= pos_list@.len(),
            forall|k: int| 0 <= k < j ==> pixel_index(canvas_width as int, #[trigger] pos_list@[k])
                + 4 <= rgba_len as int,
        decreases pos_list@.len() - j,
    {
        let p = pos_list[j];
        proof {
            vstd::arithmetic::mul::lemma_mul_nonnegative(p.y as int, canvas_width as int);
        }
        let ok = match p.y.checked_mul(canvas_width) {
            Some(a) => match a.checked_add(p.x) {
                Some(b) => match b.checked_mul(4) {
                    Some(idx) => match idx.checked_add(4) {
                        Some(end) => end <= rgba_len,
                        None => false,
                    },
                    None => false,
                },
                None => false,
            },
            None => false,
        };
        if !ok {
            return false;
        }
        j += 1;
    }
    true
}

/// True when any of the queried positions of the frame buffer holds any
/// of the target colors exactly; positions must lie inside the buffer.
pub fn detect_pixel_diff(
    canvas_width: usize,
    pos_list: &Vec<PixelPos>,
    colors: &Vec<Color>,
    rgba_map: &[u8],
) -> (r: bool)
    requires
        spec_probe_in_bounds(canvas_width as int, pos_list@, rgba_map@.len() as int),
    ensures
        r == spec_any_pixel_matches(rgba_map@, canvas_width as int, pos_list@, colors@),
{
    let mut result = false;
    let mut i: usize = 0;
    while i < colors.len()
        invariant
            spec_probe_in_bounds(canvas_width as int, pos_list@, rgba_map@.len() as int),
            i <= colors@.len(),
            result == exists|ci: int, pj: int|
                0 <= ci < i && 0 <= pj < pos_list@.len() && pixel_matches(
                    rgba_map@,
                    canvas_width as int,
                    pos_list@[pj],
                    colors@[ci],
                ),
        decreases colors@.len() - i,
    {
        let hit = color_hit(canvas_width, pos_list, colors[i], rgba_map);
        proof {
            if hit {
                let pj = choose|pj: int|
                    0 <= pj < pos_list@.len() && pixel_matches(
                        rgba_map@,
                        canvas_width as int,
                        pos_list@[pj],
                        colors@[i as int],
                    );
                let ci = i as int;
                assert(pixel_matches(rgba_map@, canvas_width as int, pos_list@[pj], colors@[ci]));
            }
        }
        result = result || hit;
        i += 1;
    }
    result
}

/// True when any queried position holds the color `c` exactly.
fn color_hit(canvas_width: usize, pos_list: &Vec<PixelPos>, c: Color, rgba_map: &[u8]) -> (r: bool)
    requires
        spec_probe_in_bounds(canvas_width as int, pos_list@, rgba_map@.len() as int),
    ensures
        r == exists|pj: int|
            0 <= pj < pos_list@.len() && pixel_matches(
                rgba_map@,
                canvas_width as int,
                pos_list@[pj],
                c,
            ),
{
    let rgba = set_color(c);
    proof {
        lemma_color_rgba_len(c);
    }
    // binds the buffer length to a machine word, bounding every index
    let buf_len: usize = rgba_map.len();
    let mut result = false;
    let mut j: usize = 0;
    while j < pos_list.len()
        invariant
            spec_probe_in_bounds(canvas_width as int, pos_list@, rgba_map@.len() as int),
            rgba@ == color_rgba(c),
            rgba@.len() == 4,
            buf_len == rgba_map@.len(),
            j <= pos_list@.len(),
            result == exists|pj: int|
                0 <= pj < j && pixel_matches(rgba_map@, canvas_width as int, pos_list@[pj], c),
        decreases pos_list@.len() - j,
    {
        let p = pos_list[j];
        proof {
            assert(pixel_index(canvas_width as int, pos_list@[j as int]) + 4 <= rgba_map@.len());
            vstd::arithmetic::mul::lemma_mul_nonnegative(p.y as int, canvas_width as int);
            let t0 = (p.y as int) * (canvas_width as int);
            let len = rgba_map@.len() as int;
            assert((t0 + p.x) * 4 + 4 <= len);
            assert((t0 + p.x) * 4 == 4 * t0 + 4 * (p.x as int));
            assert(t0 <= len);
            assert(t0 + p.x <= len);
        }
        let index = (p.y * canvas_width + p.x) * 4;
        let equal = rgba_map[index] == rgba[0] && rgba_map[index + 1] == rgba[1]
            && rgba_map[index + 2] == rgba[2] && rgba_map[index + 3] == rgba[3];
        proof {
            if equal {
                assert(pixel_matches(rgba_map@, canvas_width as int, pos_list@[j as int], c));
            }
        }
        result = result || equal;
        j += 1;
    }
    result
}

} // verus!
