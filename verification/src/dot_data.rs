//! Dot-matrix sprite art: every bitmap of the game is described as rows of
//! `#` (painted) and `_` (transparent) marks, converted to a boolean dot
//! map and then to an RGBA byte stream in one of the game's fixed colors.

use vstd::prelude::*;
use vstd::string::StringSliceAdditionalSpecFns;
use crate::strutil::str_eq;

verus! {

/// The fixed palette of the game.
#[derive(PartialEq, Eq, Structural, Clone, Copy, Debug)]
pub enum Color {
    Turquoise,
    Purple,
    Green,
    Red,
    Yellow,
    Background,
}

/// The exact 4-byte RGBA encoding of each palette color.
pub open spec fn color_rgba(c: Color) -> Seq<u8> {
    match c {
        Color::Turquoise => seq![68u8, 200u8, 210u8, 255u8],
        Color::Purple => seq![219u8, 85u8, 221u8, 255u8],
        Color::Green => seq![98u8, 222u8, 109u8, 255u8],
        Color::Red => seq![210u8, 0u8, 0u8, 255u8],
        Color::Yellow => seq![190u8, 180u8, 80u8, 255u8],
        Color::Background => seq![0u8, 0u8, 0u8, 255u8],
    }
}

/// The RGBA bytes of the palette color `color`.
pub fn set_color(color: Color) -> (r: Vec<u8>)
    ensures
        r@ == color_rgba(color),
{
    let r: Vec<u8> = match color {
        Color::Turquoise => vec![68, 200, 210, 255],
        Color::Purple => vec![219, 85, 221, 255],
        Color::Green => vec![98, 222, 109, 255],
        Color::Red => vec![210, 0, 0, 255],
        Color::Yellow => vec![190, 180, 80, 255],
        Color::Background => vec![0, 0, 0, 255],
    };
    proof {
        assert(r@ =~= color_rgba(color));
    }
    r
}

/// A sprite as a dot map: `dot_map[i][j]` is true where the sprite is
/// painted and false where it is transparent.
pub struct DotShape {
    pub width: u32,
    pub height: u32,
    pub dot_map: Vec<Vec<bool>>,
}

/// The declared width and height agree with the dot map itself.
pub open spec fn dot_shape_wf(s: DotShape) -> bool {
    &&& s.dot_map@.len() == s.height as int
    &&& s.height > 0
    &&& forall|i: int|
        0 <= i < s.dot_map@.len() ==> (#[trigger] s.dot_map@[i])@.len() == s.width as int
}

/// The dots encoded by one row of art text: `#` is painted, `_` is
/// transparent, every other byte (spacing) is skipped.
pub open spec fn marks(bytes: Seq<u8>) -> Seq<bool>
    decreases bytes.len(),
{
    if bytes.len() == 0 {
        Seq::empty()
    } else {
        let rest = marks(bytes.drop_last());
        if bytes.last() == 35u8 {
            rest.push(true)
        } else if bytes.last() == 95u8 {
            rest.push(false)
        } else {
            rest
        }
    }
}

/// The 4 RGBA bytes of one dot: the sprite color where painted, fully
/// transparent where not.
pub open spec fn pixel_rgba(on: bool, color: Color) -> Seq<u8> {
    if on {
        color_rgba(color)
    } else {
        seq![0u8, 0u8, 0u8, 0u8]
    }
}

/// The RGBA bytes of one dot row, pixels in order.
pub open spec fn row_rgba(row: Seq<bool>, color: Color) -> Seq<u8>
    decreases row.len(),
{
    if row.len() == 0 {
        Seq::empty()
    } else {
        row_rgba(row.drop_last(), color) + pixel_rgba(row.last(), color)
    }
}

/// The RGBA bytes of a whole dot map, rows in order.
pub open spec fn map_rgba(m: Seq<Seq<bool>>, color: Color) -> Seq<u8>
    decreases m.len(),
{
    if m.len() == 0 {
        Seq::empty()
    } else {
        map_rgba(m.drop_last(), color) + row_rgba(m.last(), color)
    }
}

pub proof fn lemma_row_rgba_len(row: Seq<bool>, color: Color)
    ensures
        row_rgba(row, color).len() == 4 * row.len(),
    decreases row.len(),
{
    if row.len() > 0 {
        lemma_row_rgba_len(row.drop_last(), color);
    }
}

pub proof fn lemma_map_rgba_len(m: Seq<Seq<bool>>, color: Color, w: int)
    requires
        forall|i: int| 0 <= i < m.len() ==> (#[trigger] m[i]).len() == w,
    ensures
        map_rgba(m, color).len() == 4 * w * m.len(),
    decreases m.len(),
{
    if m.len() > 0 {
        lemma_map_rgba_len(m.drop_last(), color, w);
        lemma_row_rgba_len(m.last(), color);
        assert(4 * w * (m.len() - 1) + 4 * w == 4 * w * m.len()) by (nonlinear_arith);
    }
}

impl DotShape {
    /// Whether the stated width and height match the dot map.
    pub fn shape_check(&self) -> (r: bool)
        ensures
            r == dot_shape_wf(*self),
    {
        if self.dot_map.len() != self.height as usize || self.height == 0 {
            return false;
        }
        let mut i: usize = 0;
        while i < self.dot_map.len()
            invariant
                i <= self.dot_map@.len(),
                forall|k: int| 0 <= k < i ==> (#[trigger] self.dot_map@[k])@.len()
                    == self.width as int,
            decreases self.dot_map@.len() - i,
        {
            if self.dot_map[i].len() != self.width as usize {
                return false;
            }
            i += 1;
        }
        true
    }

    /// Encode the dot map as an RGBA byte stream: 4 bytes per dot, rows in
    /// order, painted dots in `color` and the rest transparent.
    pub fn create_color_dot_map(&self, color: Color) -> (r: Vec<u8>)
        requires
            dot_shape_wf(*self),
        ensures
            r@ == map_rgba(self.dot_map.deep_view(), color),
            r@.len() == 4 * (self.width as int) * (self.height as int),
    {
        let color_bytes = set_color(color);
        let mut bytes: Vec<u8> = Vec::new();
        let ghost m: Seq<Seq<bool>> = self.dot_map.deep_view();
        let mut i: usize = 0;
        while i < self.dot_map.len()
            invariant
                dot_shape_wf(*self),
                m == self.dot_map.deep_view(),
                color_bytes@ == color_rgba(color),
                i <= m.len(),
                bytes@ == map_rgba(m.take(i as int), color),
            decreases m.len() - i,
        {
            let row = &self.dot_map[i];
            let mut j: usize = 0;
            while j < row.len()
                invariant
                    dot_shape_wf(*self),
                    m == self.dot_map.deep_view(),
                    i < m.len(),
                    row@ == m[i as int],
                    color_bytes@ == color_rgba(color),
                    j <= row@.len(),
                    bytes@ == map_rgba(m.take(i as int), color) + row_rgba(
                        m[i as int].take(j as int),
                        color,
                    ),
                decreases row@.len() - j,
            {
                if row[j] {
                    bytes.push(color_bytes[0]);
                    bytes.push(color_bytes[1]);
                    bytes.push(color_bytes[2]);
                    bytes.push(color_bytes[3]);
                } else {
                    bytes.push(0);
                    bytes.push(0);
                    bytes.push(0);
                    bytes.push(0);
                }
                proof {
                    let jj = j as int;
                    assert(m[i as int].take(jj + 1).drop_last() =~= m[i as int].take(jj));
                    assert(bytes@ =~= map_rgba(m.take(i as int), color) + row_rgba(
                        m[i as int].take(jj + 1),
                        color,
                    ));
                }
                j += 1;
            }
            proof {
                let ii = i as int;
                assert(m[ii].take(m[ii].len() as int) =~= m[ii]);
                assert(m.take(ii + 1).drop_last() =~= m.take(ii));
                assert(bytes@ =~= map_rgba(m.take(ii + 1), color));
            }
            i += 1;
        }
        proof {
            assert(m.take(m.len() as int) =~= m);
            lemma_map_rgba_len(m, color, self.width as int);
        }
        bytes
    }
}

/// Parse rows of art text into a boolean dot map; spacing bytes are
/// skipped, `#` becomes true and `_` becomes false.
pub fn convert_dot_map(dot_map: Vec<&str>) -> (r: Vec<Vec<bool>>)
    ensures
        r@.len() == dot_map@.len(),
        forall|i: int| 0 <= i < dot_map@.len() ==> (#[trigger] r@[i])@ == marks(
            dot_map@[i].spec_bytes(),
        ),
{
    let mut bool_map: Vec<Vec<bool>> = Vec::new();
    let mut idx: usize = 0;
    while idx < dot_map.len()
        invariant
            idx <= dot_map@.len(),
            bool_map@.len() == idx,
            forall|i: int| 0 <= i < idx ==> (#[trigger] bool_map@[i])@ == marks(
                dot_map@[i].spec_bytes(),
            ),
        decreases dot_map@.len() - idx,
    {
        let s: &str = dot_map[idx];
        let bs = s.as_bytes();
        let mut line: Vec<bool> = Vec::new();
        let mut j: usize = 0;
        while j < bs.len()
            invariant
                bs@ == s.spec_bytes(),
                j <= bs@.len(),
                line@ == marks(bs@.take(j as int)),
            decreases bs@.len() - j,
        {
            let b = bs[j];
            if b == 35 {
                line.push(true);
            } else if b == 95 {
                line.push(false);
            }
            proof {
                let jj = j as int;
                assert(bs@.take(jj + 1).drop_last() =~= bs@.take(jj));
                assert(bs@.take(jj + 1).last() == bs@[jj]);
            }
            j += 1;
        }
        proof {
            assert(bs@.take(bs@.len() as int) =~= bs@);
        }
        bool_map.push(line);
        idx += 1;
    }
    bool_map
}

/// The names under which dot data is registered.
pub open spec fn spec_known_sprite(name: Seq<char>) -> bool {
    ||| name == "player"@
    ||| name == "player_bullet"@
    ||| name == "crab_down"@
    ||| name == "crab_banzai"@
    ||| name == "octopus_open"@
    ||| name == "octopus_close"@
    ||| name == "squid_open"@
    ||| name == "squid_close"@
    ||| name == "explosion"@
    ||| name == "land_player_bullet"@
    ||| name == "torchika"@
    ||| name == "ufo"@
    ||| name == "ufo_explosion"@
    ||| name == "enemy_bullet_squiggly"@
    ||| name == "enemy_bullet_plunger"@
    ||| name == "enemy_bullet_rolling"@
    ||| name == "enemy_bullet_explosion"@
}

/// Dot width of the sprite registered under `name`.
pub open spec fn spec_sprite_width(name: Seq<char>) -> u32 {
    if name == "player"@ {
        13u32
    } else if name == "player_bullet"@ {
        1u32
    } else if name == "crab_down"@ {
        11u32
    } else if name == "crab_banzai"@ {
        11u32
    } else if name == "octopus_open"@ {
        12u32
    } else if name == "octopus_close"@ {
        12u32
    } else if name == "squid_open"@ {
        8u32
    } else if name == "squid_close"@ {
        8u32
    } else if name == "explosion"@ {
        13u32
    } else if name == "land_player_bullet"@ {
        8u32
    } else if name == "torchika"@ {
        20u32
    } else if name == "ufo"@ {
        16u32
    } else if name == "ufo_explosion"@ {
        21u32
    } else if name == "enemy_bullet_squiggly"@ {
        3u32
    } else if name == "enemy_bullet_plunger"@ {
        3u32
    } else if name == "enemy_bullet_rolling"@ {
        3u32
    } else if name == "enemy_bullet_explosion"@ {
        6u32
    } else {
        0u32
    }
}

/// Dot height of the sprite registered under `name`.
pub open spec fn spec_sprite_height(name: Seq<char>) -> u32 {
    if name == "player"@ {
        8u32
    } else if name == "player_bullet"@ {
        6u32
    } else if name == "crab_down"@ {
        8u32
    } else if name == "crab_banzai"@ {
        8u32
    } else if name == "octopus_open"@ {
        8u32
    } else if name == "octopus_close"@ {
        8u32
    } else if name == "squid_open"@ {
        8u32
    } else if name == "squid_close"@ {
        8u32
    } else if name == "explosion"@ {
        7u32
    } else if name == "land_player_bullet"@ {
        8u32
    } else if name == "torchika"@ {
        15u32
    } else if name == "ufo"@ {
        7u32
    } else if name == "ufo_explosion"@ {
        8u32
    } else if name == "enemy_bullet_squiggly"@ {
        7u32
    } else if name == "enemy_bullet_plunger"@ {
        7u32
    } else if name == "enemy_bullet_rolling"@ {
        7u32
    } else if name == "enemy_bullet_explosion"@ {
        8u32
    } else {
        0u32
    }
}

/// Dot `k` of a row of art text: the parse of the text where it has a
/// dot there, transparent beyond its end.
pub open spec fn spec_fit_dot(bytes: Seq<u8>, k: int) -> bool {
    k < marks(bytes).len() && marks(bytes)[k]
}

/// A row of art text fitted to the sprite's dot width `w`: the parse of
/// the text, padded with transparent dots or truncated to length `w`.
/// The art of every registered sprite parses to its width exactly, so
/// fitting never alters a dot there.
pub open spec fn spec_fit_row(bytes: Seq<u8>, w: int) -> Seq<bool> {
    Seq::new(w as nat, |k: int| spec_fit_dot(bytes, k))
}

/// The dot rows of the sprite registered under `name`: each row of
/// its art text, fitted to the sprite's dot width.
pub open spec fn spec_sprite_rows(name: Seq<char>) -> Seq<Seq<bool>> {
    if name == "player"@ {
        seq![
            spec_fit_row("_ _ _ _ _ _ # _ _ _ _ _ _".spec_bytes(), 13),
            spec_fit_row("_ _ _ _ _ # # # _ _ _ _ _".spec_bytes(), 13),
            spec_fit_row("_ _ _ _ _ # # # _ _ _ _ _".spec_bytes(), 13),
            spec_fit_row("_ # # # # # # # # # # # _".spec_bytes(), 13),
            spec_fit_row("# # # # # # # # # # # # #".spec_bytes(), 13),
            spec_fit_row("# # # # # # # # # # # # #".spec_bytes(), 13),
            spec_fit_row("# # # # # # # # # # # # #".spec_bytes(), 13),
            spec_fit_row("# # # # # # # # # # # # #".spec_bytes(), 13),
        ]
    } else if name == "player_bullet"@ {
        seq![
            spec_fit_row("#".spec_bytes(), 1),
            spec_fit_row("#".spec_bytes(), 1),
            spec_fit_row("#".spec_bytes(), 1),
            spec_fit_row("#".spec_bytes(), 1),
            spec_fit_row("#".spec_bytes(), 1),
            spec_fit_row("#".spec_bytes(), 1),
        ]
    } else if name == "crab_down"@ {
        seq![
            spec_fit_row("_ _ # _ _ _ _ _ # _ _".spec_bytes(), 11),
            spec_fit_row("_ _ _ # _ _ _ # _ _ _".spec_bytes(), 11),
            spec_fit_row("_ _ # # # # # # # _ _".spec_bytes(), 11),
            spec_fit_row("_ # # _ # # # _ # # _".spec_bytes(), 11),
            spec_fit_row("# # # # # # # # # # #".spec_bytes(), 11),
            spec_fit_row("# _ # # # # # # # _ #".spec_bytes(), 11),
            spec_fit_row("# _ # _ _ _ _ _ # _ #".spec_bytes(), 11),
            spec_fit_row("_ _ _ # # _ # # _ _ _".spec_bytes(), 11),
        ]
    } else if name == "crab_banzai"@ {
        seq![
            spec_fit_row("_ _ # _ _ _ _ _ # _ _".spec_bytes(), 11),
            spec_fit_row("# _ _ # _ _ _ # _ _ #".spec_bytes(), 11),
            spec_fit_row("# _ # # # # # # # _ #".spec_bytes(), 11),
            spec_fit_row("# # # _ # # # _ # # #".spec_bytes(), 11),
            spec_fit_row("# # # # # # # # # # #".spec_bytes(), 11),
            spec_fit_row("_ # # # # # # # # # _".spec_bytes(), 11),
            spec_fit_row("_ _ # _ _ _ _ _ # _ _".spec_bytes(), 11),
            spec_fit_row("_ # _ _ _ _ _ _ _ # _".spec_bytes(), 11),
        ]
    } else if name == "octopus_open"@ {
        seq![
            spec_fit_row("_ _ _ _ # # # # _ _ _ _".spec_bytes(), 12),
            spec_fit_row("_ # # # # # # # # # # _".spec_bytes(), 12),
            spec_fit_row("# # # # # # # # # # # #".spec_bytes(), 12),
            spec_fit_row("# # # _ _ # # _ _ # # #".spec_bytes(), 12),
            spec_fit_row("# # # # # # # # # # # #".spec_bytes(), 12),
            spec_fit_row("_ _ _ # # _ _ # # _ _ _".spec_bytes(), 12),
            spec_fit_row("_ _ # # _ # # _ # # _ _".spec_bytes(), 12),
            spec_fit_row("# # _ _ _ _ _ _ _ _ # #".spec_bytes(), 12),
        ]
    } else if name == "octopus_close"@ {
        seq![
            spec_fit_row("_ _ _ _ # # # # _ _ _ _".spec_bytes(), 12),
            spec_fit_row("_ # # # # # # # # # # _".spec_bytes(), 12),
            spec_fit_row("# # # # # # # # # # # #".spec_bytes(), 12),
            spec_fit_row("# # # _ _ # # _ _ # # #".spec_bytes(), 12),
            spec_fit_row("# # # # # # # # # # # #".spec_bytes(), 12),
            spec_fit_row("_ _ # # # _ _ # # # _ _".spec_bytes(), 12),
            spec_fit_row("_ # # _ _ # # _ _ # # _".spec_bytes(), 12),
            spec_fit_row("_ _ # # _ _ _ _ # # _ _".spec_bytes(), 12),
        ]
    } else if name == "squid_open"@ {
        seq![
            spec_fit_row("_ _ _ # # _ _ _".spec_bytes(), 8),
            spec_fit_row("_ _ # # # # _ _".spec_bytes(), 8),
            spec_fit_row("_ # # # # # # _".spec_bytes(), 8),
            spec_fit_row("# # _ # # _ # #".spec_bytes(), 8),
            spec_fit_row("# # # # # # # #".spec_bytes(), 8),
            spec_fit_row("_ _ # _ _ # _ _".spec_bytes(), 8),
            spec_fit_row("_ # _ # # _ # _".spec_bytes(), 8),
            spec_fit_row("# _ # _ _ # _ #".spec_bytes(), 8),
        ]
    } else if name == "squid_close"@ {
        seq![
            spec_fit_row("_ _ _ # # _ _ _".spec_bytes(), 8),
            spec_fit_row("_ _ # # # # _ _".spec_bytes(), 8),
            spec_fit_row("_ # # # # # # _".spec_bytes(), 8),
            spec_fit_row("# # _ # # _ # #".spec_bytes(), 8),
            spec_fit_row("# # # # # # # #".spec_bytes(), 8),
            spec_fit_row("_ # _ # # _ # _".spec_bytes(), 8),
            spec_fit_row("# _ _ _ _ _ _ #".spec_bytes(), 8),
            spec_fit_row("_ # _ _ _ _ # _".spec_bytes(), 8),
        ]
    } else if name == "explosion"@ {
        seq![
            spec_fit_row("_ # _ _ # _ _ _ # _ _ # _".spec_bytes(), 13),
            spec_fit_row("_ _ # _ _ # _ # _ _ # _ _".spec_bytes(), 13),
            spec_fit_row("_ _ _ # _ _ _ _ _ # _ _ _".spec_bytes(), 13),
            spec_fit_row("# # _ _ _ _ _ _ _ _ _ # #".spec_bytes(), 13),
            spec_fit_row("_ _ _ # _ _ _ _ _ # _ _ _".spec_bytes(), 13),
            spec_fit_row("_ _ # _ _ # _ # _ _ # _ _".spec_bytes(), 13),
            spec_fit_row("_ # _ _ # _ _ _ # _ _ # _".spec_bytes(), 13),
        ]
    } else if name == "land_player_bullet"@ {
        seq![
            spec_fit_row("# _ _ _ # _ _ #".spec_bytes(), 8),
            spec_fit_row("_ _ # _ _ _ # _".spec_bytes(), 8),
            spec_fit_row("_ # # # # # # _".spec_bytes(), 8),
            spec_fit_row("# # # # # # # #".spec_bytes(), 8),
            spec_fit_row("# # # # # # # #".spec_bytes(), 8),
            spec_fit_row("_ # # # # # # _".spec_bytes(), 8),
            spec_fit_row("_ _ # _ _ # _ _".spec_bytes(), 8),
            spec_fit_row("# _ _ # _ _ _ #".spec_bytes(), 8),
        ]
    } else if name == "torchika"@ {
        seq![
            spec_fit_row("_ _ _ _ # # # # # # # # # # # # _ _ _ _".spec_bytes(), 20),
            spec_fit_row("_ _ _ # # # # # # # # # # # # # # _ _ _".spec_bytes(), 20),
            spec_fit_row("_ _ # # # # # # # # # # # # # # # # _ _".spec_bytes(), 20),
            spec_fit_row("_ # # # # # # # # # # # # # # # # # # _".spec_bytes(), 20),
            spec_fit_row("# # # # # # # # # # # # # # # # # # # #".spec_bytes(), 20),
            spec_fit_row("# # # # # # # # # # # # # # # # # # # #".spec_bytes(), 20),
            spec_fit_row("# # # # # # # # # # # # # # # # # # # #".spec_bytes(), 20),
            spec_fit_row("# # # # # # # # # # # # # # # # # # # #".spec_bytes(), 20),
            spec_fit_row("# # # # # # # # # # # # # # # # # # # #".spec_bytes(), 20),
            spec_fit_row("# # # # # # # # # # # # # # # # # # # #".spec_bytes(), 20),
            spec_fit_row("# # # # # # # # # # # # # # # # # # # #".spec_bytes(), 20),
            spec_fit_row("# # # # # # # _ _ _ _ _ _ # # # # # # #".spec_bytes(), 20),
            spec_fit_row("# # # # # # _ _ _ _ _ _ _ _ # # # # # #".spec_bytes(), 20),
            spec_fit_row("# # # # # _ _ _ _ _ _ _ _ _ _ # # # # #".spec_bytes(), 20),
            spec_fit_row("# # # # # _ _ _ _ _ _ _ _ _ _ # # # # #".spec_bytes(), 20),
        ]
    } else if name == "ufo"@ {
        seq![
            spec_fit_row("_ _ _ _ _ # # # # # # _ _ _ _ _".spec_bytes(), 16),
            spec_fit_row("_ _ _ # # # # # # # # # # _ _ _".spec_bytes(), 16),
            spec_fit_row("_ _ # # # # # # # # # # # # _ _".spec_bytes(), 16),
            spec_fit_row("_ # # _ # # _ # # _ # # _ # # _".spec_bytes(), 16),
            spec_fit_row("# # # # # # # # # # # # # # # #".spec_bytes(), 16),
            spec_fit_row("_ _ # # # _ _ # # _ _ # # # _ _".spec_bytes(), 16),
            spec_fit_row("_ _ _ # _ _ _ _ _ _ _ _ # _ _ _".spec_bytes(), 16),
        ]
    } else if name == "ufo_explosion"@ {
        seq![
            spec_fit_row("_ _ # _ _ # _ # _ _ _ _ _ _ # _ # # _ # _".spec_bytes(), 21),
            spec_fit_row("_ _ _ # _ _ _ _ _ _ _ _ # # _ _ _ _ # _ _".spec_bytes(), 21),
            spec_fit_row("# _ # _ _ _ # # # # _ _ _ # # _ _ _ _ _ _".spec_bytes(), 21),
            spec_fit_row("_ _ _ _ _ # # # # # # # _ _ # # # _ _ # _".spec_bytes(), 21),
            spec_fit_row("_ _ _ _ # # # _ # _ # _ # _ _ # # # _ _ #".spec_bytes(), 21),
            spec_fit_row("_ _ # _ _ _ # # # # # _ _ _ # # _ _ _ _ _".spec_bytes(), 21),
            spec_fit_row("# _ _ _ _ _ _ # _ # _ _ _ # # _ _ _ # _ _".spec_bytes(), 21),
            spec_fit_row("_ _ # _ _ _ # _ _ _ # _ _ _ _ # _ _ _ _ _".spec_bytes(), 21),
        ]
    } else if name == "enemy_bullet_squiggly"@ {
        seq![
            spec_fit_row("_ # _".spec_bytes(), 3),
            spec_fit_row("# _ _".spec_bytes(), 3),
            spec_fit_row("_ # _".spec_bytes(), 3),
            spec_fit_row("_ _ #".spec_bytes(), 3),
            spec_fit_row("_ # _".spec_bytes(), 3),
            spec_fit_row("# _ _".spec_bytes(), 3),
            spec_fit_row("_ # _".spec_bytes(), 3),
        ]
    } else if name == "enemy_bullet_plunger"@ {
        seq![
            spec_fit_row("_ # _".spec_bytes(), 3),
            spec_fit_row("_ # _".spec_bytes(), 3),
            spec_fit_row("# # #".spec_bytes(), 3),
            spec_fit_row("_ # _".spec_bytes(), 3),
            spec_fit_row("_ # _".spec_bytes(), 3),
            spec_fit_row("_ # _".spec_bytes(), 3),
            spec_fit_row("_ # _".spec_bytes(), 3),
        ]
    } else if name == "enemy_bullet_rolling"@ {
        seq![
            spec_fit_row("_ # #".spec_bytes(), 3),
            spec_fit_row("_ # _".spec_bytes(), 3),
            spec_fit_row("# # _".spec_bytes(), 3),
            spec_fit_row("_ # #".spec_bytes(), 3),
            spec_fit_row("_ # _".spec_bytes(), 3),
            spec_fit_row("# # _".spec_bytes(), 3),
            spec_fit_row("_ # _".spec_bytes(), 3),
        ]
    } else {
        seq![
            spec_fit_row("_ _ # _ _ _".spec_bytes(), 6),
            spec_fit_row("# _ _ _ # _".spec_bytes(), 6),
            spec_fit_row("_ _ # # _ #".spec_bytes(), 6),
            spec_fit_row("_ # # # # _".spec_bytes(), 6),
            spec_fit_row("# _ # # # _".spec_bytes(), 6),
            spec_fit_row("_ # # # # #".spec_bytes(), 6),
            spec_fit_row("# _ # # # _".spec_bytes(), 6),
            spec_fit_row("_ # _ # _ #".spec_bytes(), 6),
        ]
    }
}

/// Parse one row of art text and fit it to `width` dots.
fn parse_row(s: &str, width: usize) -> (r: Vec<bool>)
    ensures
        r@ =~= spec_fit_row(s.spec_bytes(), width as int),
{
    let mut rows = convert_dot_map(vec![s]);
    let row = rows.pop().unwrap();
    proof {
        assert(row@ == marks(s.spec_bytes()));
    }
    let mut r: Vec<bool> = Vec::new();
    let mut i: usize = 0;
    while i < width
        invariant
            row@ == marks(s.spec_bytes()),
            i <= width,
            r@.len() == i,
            forall|k: int| 0 <= k < i ==> r@[k] == spec_fit_dot(s.spec_bytes(), k),
        decreases width - i,
    {
        if i < row.len() {
            r.push(row[i]);
        } else {
            r.push(false);
        }
        i += 1;
    }
    r
}

/// Parse rows of art text into a dot map of exactly `width` dots per
/// row.
fn fit_rows(rows: Vec<&str>, width: usize) -> (r: Vec<Vec<bool>>)
    ensures
        r@.len() == rows@.len(),
        forall|i: int| 0 <= i < rows@.len() ==> (#[trigger] r@[i])@ =~= spec_fit_row(
            rows@[i].spec_bytes(),
            width as int,
        ),
{
    let mut r: Vec<Vec<bool>> = Vec::new();
    let mut i: usize = 0;
    while i < rows.len()
        invariant
            i <= rows@.len(),
            r@.len() == i,
            forall|k: int| 0 <= k < i ==> (#[trigger] r@[k])@ =~= spec_fit_row(
                rows@[k].spec_bytes(),
                width as int,
            ),
        decreases rows@.len() - i,
    {
        let row = parse_row(rows[i], width);
        r.push(row);
        i += 1;
    }
    r
}

/// The dot data registered under `name`. Every sprite of the game is
/// defined here and nowhere else; asking for an unregistered name is a
/// programming defect and is excluded by the precondition.
#[verifier::rlimit(100)]
pub fn ret_dot_data(name: &str) -> (r: DotShape)
    requires
        spec_known_sprite(name@),
    ensures
        r.width == spec_sprite_width(name@),
        r.height == spec_sprite_height(name@),
        dot_shape_wf(r),
        r.dot_map@.len() == spec_sprite_rows(name@).len(),
        forall|i: int| 0 <= i < r.dot_map@.len() ==> (#[trigger] r.dot_map@[i])@
            =~= spec_sprite_rows(name@)[i],
{
    if str_eq(name, "player") {
        DotShape {
            width: 13,
            height: 8,
            dot_map: fit_rows(vec![
                "_ _ _ _ _ _ # _ _ _ _ _ _",
                "_ _ _ _ _ # # # _ _ _ _ _",
                "_ _ _ _ _ # # # _ _ _ _ _",
                "_ # # # # # # # # # # # _",
                "# # # # # # # # # # # # #",
                "# # # # # # # # # # # # #",
                "# # # # # # # # # # # # #",
                "# # # # # # # # # # # # #",
            ], 13),
        }
    } else if str_eq(name, "player_bullet") {
        DotShape {
            width: 1,
            height: 6,
            dot_map: fit_rows(vec!["#", "#", "#", "#", "#", "#"], 1),
        }
    } else if str_eq(name, "crab_down") {
        DotShape {
            width: 11,
            height: 8,
            dot_map: fit_rows(vec![
                "_ _ # _ _ _ _ _ # _ _",
                "_ _ _ # _ _ _ # _ _ _",
                "_ _ # # # # # # # _ _",
                "_ # # _ # # # _ # # _",
                "# # # # # # # # # # #",
                "# _ # # # # # # # _ #",
                "# _ # _ _ _ _ _ # _ #",
                "_ _ _ # # _ # # _ _ _",
            ], 11),
        }
    } else if str_eq(name, "crab_banzai") {
        DotShape {
            width: 11,
            height: 8,
            dot_map: fit_rows(vec![
                "_ _ # _ _ _ _ _ # _ _",
                "# _ _ # _ _ _ # _ _ #",
                "# _ # # # # # # # _ #",
                "# # # _ # # # _ # # #",
                "# # # # # # # # # # #",
                "_ # # # # # # # # # _",
                "_ _ # _ _ _ _ _ # _ _",
                "_ # _ _ _ _ _ _ _ # _",
            ], 11),
        }
    } else if str_eq(name, "octopus_open") {
        DotShape {
            width: 12,
            height: 8,
            dot_map: fit_rows(vec![
                "_ _ _ _ # # # # _ _ _ _",
                "_ # # # # # # # # # # _",
                "# # # # # # # # # # # #",
                "# # # _ _ # # _ _ # # #",
                "# # # # # # # # # # # #",
                "_ _ _ # # _ _ # # _ _ _",
                "_ _ # # _ # # _ # # _ _",
                "# # _ _ _ _ _ _ _ _ # #",
            ], 12),
        }
    } else if str_eq(name, "octopus_close") {
        DotShape {
            width: 12,
            height: 8,
            dot_map: fit_rows(vec![
                "_ _ _ _ # # # # _ _ _ _",
                "_ # # # # # # # # # # _",
                "# # # # # # # # # # # #",
                "# # # _ _ # # _ _ # # #",
                "# # # # # # # # # # # #",
                "_ _ # # # _ _ # # # _ _",
                "_ # # _ _ # # _ _ # # _",
                "_ _ # # _ _ _ _ # # _ _",
            ], 12),
        }
    } else if str_eq(name, "squid_open") {
        DotShape {
            width: 8,
            height: 8,
            dot_map: fit_rows(vec![
                "_ _ _ # # _ _ _",
                "_ _ # # # # _ _",
                "_ # # # # # # _",
                "# # _ # # _ # #",
                "# # # # # # # #",
                "_ _ # _ _ # _ _",
                "_ # _ # # _ # _",
                "# _ # _ _ # _ #",
            ], 8),
        }
    } else if str_eq(name, "squid_close") {
        DotShape {
            width: 8,
            height: 8,
            dot_map: fit_rows(vec![
                "_ _ _ # # _ _ _",
                "_ _ # # # # _ _",
                "_ # # # # # # _",
                "# # _ # # _ # #",
                "# # # # # # # #",
                "_ # _ # # _ # _",
                "# _ _ _ _ _ _ #",
                "_ # _ _ _ _ # _",
            ], 8),
        }
    } else if str_eq(name, "explosion") {
        DotShape {
            width: 13,
            height: 7,
            dot_map: fit_rows(vec![
                "_ # _ _ # _ _ _ # _ _ # _",
                "_ _ # _ _ # _ # _ _ # _ _",
                "_ _ _ # _ _ _ _ _ # _ _ _",
                "# # _ _ _ _ _ _ _ _ _ # #",
                "_ _ _ # _ _ _ _ _ # _ _ _",
                "_ _ # _ _ # _ # _ _ # _ _",
                "_ # _ _ # _ _ _ # _ _ # _",
            ], 13),
        }
    } else if str_eq(name, "land_player_bullet") {
        DotShape {
            width: 8,
            height: 8,
            dot_map: fit_rows(vec![
                "# _ _ _ # _ _ #",
                "_ _ # _ _ _ # _",
                "_ # # # # # # _",
                "# # # # # # # #",
                "# # # # # # # #",
                "_ # # # # # # _",
                "_ _ # _ _ # _ _",
                "# _ _ # _ _ _ #",
            ], 8),
        }
    } else if str_eq(name, "torchika") {
        DotShape {
            width: 20,
            height: 15,
            dot_map: fit_rows(vec![
                "_ _ _ _ # # # # # # # # # # # # _ _ _ _",
                "_ _ _ # # # # # # # # # # # # # # _ _ _",
                "_ _ # # # # # # # # # # # # # # # # _ _",
                "_ # # # # # # # # # # # # # # # # # # _",
                "# # # # # # # # # # # # # # # # # # # #",
                "# # # # # # # # # # # # # # # # # # # #",
                "# # # # # # # # # # # # # # # # # # # #",
                "# # # # # # # # # # # # # # # # # # # #",
                "# # # # # # # # # # # # # # # # # # # #",
                "# # # # # # # # # # # # # # # # # # # #",
                "# # # # # # # # # # # # # # # # # # # #",
                "# # # # # # # _ _ _ _ _ _ # # # # # # #",
                "# # # # # # _ _ _ _ _ _ _ _ # # # # # #",
                "# # # # # _ _ _ _ _ _ _ _ _ _ # # # # #",
                "# # # # # _ _ _ _ _ _ _ _ _ _ # # # # #",
            ], 20),
        }
    } else if str_eq(name, "ufo") {
        DotShape {
            width: 16,
            height: 7,
            dot_map: fit_rows(vec![
                "_ _ _ _ _ # # # # # # _ _ _ _ _",
                "_ _ _ # # # # # # # # # # _ _ _",
                "_ _ # # # # # # # # # # # # _ _",
                "_ # # _ # # _ # # _ # # _ # # _",
                "# # # # # # # # # # # # # # # #",
                "_ _ # # # _ _ # # _ _ # # # _ _",
                "_ _ _ # _ _ _ _ _ _ _ _ # _ _ _",
            ], 16),
        }
    } else if str_eq(name, "ufo_explosion") {
        DotShape {
            width: 21,
            height: 8,
            dot_map: fit_rows(vec![
                "_ _ # _ _ # _ # _ _ _ _ _ _ # _ # # _ # _",
                "_ _ _ # _ _ _ _ _ _ _ _ # # _ _ _ _ # _ _",
                "# _ # _ _ _ # # # # _ _ _ # # _ _ _ _ _ _",
                "_ _ _ _ _ # # # # # # # _ _ # # # _ _ # _",
                "_ _ _ _ # # # _ # _ # _ # _ _ # # # _ _ #",
                "_ _ # _ _ _ # # # # # _ _ _ # # _ _ _ _ _",
                "# _ _ _ _ _ _ # _ # _ _ _ # # _ _ _ # _ _",
                "_ _ # _ _ _ # _ _ _ # _ _ _ _ # _ _ _ _ _",
            ], 21),
        }
    } else if str_eq(name, "enemy_bullet_squiggly") {
        DotShape {
            width: 3,
            height: 7,
            dot_map: fit_rows(vec![
                "_ # _", "# _ _", "_ # _", "_ _ #", "_ # _", "# _ _", "_ # _",
            ], 3),
        }
    } else if str_eq(name, "enemy_bullet_plunger") {
        DotShape {
            width: 3,
            height: 7,
            dot_map: fit_rows(vec![
                "_ # _", "_ # _", "# # #", "_ # _", "_ # _", "_ # _", "_ # _",
            ], 3),
        }
    } else if str_eq(name, "enemy_bullet_rolling") {
        DotShape {
            width: 3,
            height: 7,
            dot_map: fit_rows(vec![
                "_ # #", "_ # _", "# # _", "_ # #", "_ # _", "# # _", "_ # _",
            ], 3),
        }
    } else {
        DotShape {
            width: 6,
            height: 8,
            dot_map: fit_rows(vec![
                "_ _ # _ _ _",
                "# _ _ _ # _",
                "_ _ # # _ #",
                "_ # # # # _",
                "# _ # # # _",
                "_ # # # # #",
                "# _ # # # _",
                "_ # _ # _ #",
            ], 6),
        }
    }
}

} // verus!
