//! The bitmap font and pixel plotting behind the tray indicator icon.
//!
//! Only the geometry is decided here; handing the finished pixel buffer to
//! the platform tray is the presentation layer's business.

use crate::tray::TuningColor;
use vstd::prelude::*;
use vstd::string::StrSliceExecFns;

verus! {

/// Side of the square icon, in pixels.
pub const ICON_SIZE: usize = 32;

/// Whether the five-by-seven font has a glyph for a character: the note
/// letters A through G and the sharp sign.
pub open spec fn has_glyph(c: char) -> bool {
    c == 'A' || c == 'B' || c == 'C' || c == 'D' || c == 'E' || c == 'F' || c == 'G' || c == '#'
}

/// Whether the glyph of `c` is lit at a row and column, row 0 at the
/// top, column 0 at the left. Each letter is described by its geometry:
/// which columns its strokes occupy in which rows.
pub open spec fn glyph_pixel_on(c: char, row: int, col: int) -> bool {
    if c == 'A' {
        if row == 0 {
            1 <= col <= 3
        } else if row == 3 {
            true
        } else {
            col == 0 || col == 4
        }
    } else if c == 'B' {
        if row == 0 || row == 3 || row == 6 {
            col <= 3
        } else {
            col == 0 || col == 4
        }
    } else if c == 'C' {
        if row == 0 || row == 6 {
            1 <= col <= 3
        } else if row == 1 || row == 5 {
            col == 0 || col == 4
        } else {
            col == 0
        }
    } else if c == 'D' {
        if row == 0 || row == 6 {
            col <= 3
        } else {
            col == 0 || col == 4
        }
    } else if c == 'E' {
        if row == 0 || row == 6 {
            true
        } else if row == 3 {
            col <= 3
        } else {
            col == 0
        }
    } else if c == 'F' {
        if row == 0 {
            true
        } else if row == 3 {
            col <= 3
        } else {
            col == 0
        }
    } else if c == 'G' {
        if row == 0 || row == 6 {
            1 <= col <= 3
        } else if row == 2 {
            col == 0
        } else if row == 3 {
            col == 0 || col >= 2
        } else {
            col == 0 || col == 4
        }
    } else if c == '#' {
        if row == 2 || row == 4 {
            true
        } else {
            col == 1 || col == 3
        }
    } else {
        false
    }
}

/// The five-by-seven pixel glyph of a character, row by row, or `None`
/// for a character outside the font.
pub fn get_char_bitmap_large(c: char) -> (r: Option<[[bool; 5]; 7]>)
    ensures
        r is Some <==> has_glyph(c),
        r matches Some(bitmap) ==> forall|row: int, col: int|
            0 <= row < 7 && 0 <= col < 5 ==> bitmap@[row]@[col] == glyph_pixel_on(c, row, col),
{
    if c == 'A' {
        Some(
            [
                [false, true, true, true, false],
                [true, false, false, false, true],
                [true, false, false, false, true],
                [true, true, true, true, true],
                [true, false, false, false, true],
                [true, false, false, false, true],
                [true, false, false, false, true],
            ],
        )
    } else if c == 'B' {
        Some(
            [
                [true, true, true, true, false],
                [true, false, false, false, true],
                [true, false, false, false, true],
                [true, true, true, true, false],
                [true, false, false, false, true],
                [true, false, false, false, true],
                [true, true, true, true, false],
            ],
        )
    } else if c == 'C' {
        Some(
            [
                [false, true, true, true, false],
                [true, false, false, false, true],
                [true, false, false, false, false],
                [true, false, false, false, false],
                [true, false, false, false, false],
                [true, false, false, false, true],
                [false, true, true, true, false],
            ],
        )
    } else if c == 'D' {
        Some(
            [
                [true, true, true, true, false],
                [true, false, false, false, true],
                [true, false, false, false, true],
                [true, false, false, false, true],
                [true, false, false, false, true],
                [true, false, false, false, true],
                [true, true, true, true, false],
            ],
        )
    } else if c == 'E' {
        Some(
            [
                [true, true, true, true, true],
                [true, false, false, false, false],
                [true, false, false, false, false],
                [true, true, true, true, false],
                [true, false, false, false, false],
                [true, false, false, false, false],
                [true, true, true, true, true],
            ],
        )
    } else if c == 'F' {
        Some(
            [
                [true, true, true, true, true],
                [true, false, false, false, false],
                [true, false, false, false, false],
                [true, true, true, true, false],
                [true, false, false, false, false],
                [true, false, false, false, false],
                [true, false, false, false, false],
            ],
        )
    } else if c == 'G' {
        Some(
            [
                [false, true, true, true, false],
                [true, false, false, false, true],
                [true, false, false, false, false],
                [true, false, true, true, true],
                [true, false, false, false, true],
                [true, false, false, false, true],
                [false, true, true, true, false],
            ],
        )
    } else if c == '#' {
        Some(
            [
                [false, true, false, true, false],
                [false, true, false, true, false],
                [true, true, true, true, true],
                [false, true, false, true, false],
                [true, true, true, true, true],
                [false, true, false, true, false],
                [false, true, false, true, false],
            ],
        )
    } else {
        None
    }
}

/// The glyph test as a single spec value, shared by the filter's
/// contract and its proofs.
pub open spec fn glyph_pred() -> spec_fn(char) -> bool {
    |c: char| has_glyph(c)
}

/// Whether a buffer and a square side agree, so that every in-square
/// pixel write lands in bounds.
pub open spec fn rgba_sized(rgba: Seq<u8>, size: int) -> bool {
    rgba.len() == size * size * 4
}

/// Every byte of `b` is either the byte `a` held, or the matching byte of
/// the paint color — nothing but the color is ever painted.
pub open spec fn only_painted_with(a: Seq<u8>, b: Seq<u8>, color: [u8; 4]) -> bool {
    &&& a.len() == b.len()
    &&& forall|i: int| 0 <= i < b.len() ==> b[i] == a[i] || b[i] == color@[i % 4]
}

/// The four channel bytes a zone paints the meter with.
pub open spec fn zone_rgba(c: TuningColor) -> (u8, u8, u8, u8) {
    match c {
        TuningColor::Green => (0u8, 255u8, 100u8, 255u8),
        TuningColor::Yellow => (255u8, 200u8, 0u8, 255u8),
        TuningColor::Red => (255u8, 60u8, 60u8, 255u8),
    }
}

/// Whether the pixel at a column and row of a square buffer holds the
/// four given channel bytes.
pub open spec fn pixel_set(b: Seq<u8>, size: int, x: int, y: int, c: (u8, u8, u8, u8)) -> bool {
    &&& b[(y * size + x) * 4] == c.0
    &&& b[(y * size + x) * 4 + 1] == c.1
    &&& b[(y * size + x) * 4 + 2] == c.2
    &&& b[(y * size + x) * 4 + 3] == c.3
}

/// A write to one pixel leaves every other pixel's bytes alone.
proof fn lemma_pixel_preserved(
    a: Seq<u8>,
    b: Seq<u8>,
    size: int,
    wx: int,
    wy: int,
    px: int,
    py: int,
    c: (u8, u8, u8, u8),
)
    requires
        a.len() == size * size * 4,
        b.len() == a.len(),
        0 <= wx < size,
        0 <= wy < size,
        0 <= px < size,
        0 <= py < size,
        px != wx || py != wy,
        pixel_set(a, size, px, py, c),
        forall|j: int|
            0 <= j < a.len() && !((wy * size + wx) * 4 <= j < (wy * size + wx) * 4 + 4) ==> b[j]
                == a[j],
    ensures
        pixel_set(b, size, px, py, c),
{
    assert(py * size + px != wy * size + wx) by (nonlinear_arith)
        requires
            0 <= wx < size,
            0 <= px < size,
            0 <= py,
            0 <= wy,
            px != wx || py != wy,
    ;
    assert(0 <= py * size + px < size * size) by (nonlinear_arith)
        requires
            0 <= px < size,
            0 <= py < size,
    ;
}

/// A single pixel write keeps every indicator-column pixel that was
/// already painted: the finished rows below `row_hi`, and the columns
/// left of `x_limit` in row `row_hi` itself. The write lands either in
/// row `row_hi` at or right of `x_limit`, or strictly above `row_lo`.
proof fn preserve_meter_columns(
    a: Seq<u8>,
    b: Seq<u8>,
    wx: int,
    wy: int,
    row_lo: int,
    row_hi: int,
    x_limit: int,
    ix: int,
    mc: (u8, u8, u8, u8),
)
    requires
        a.len() == 32 * 32 * 4,
        b.len() == a.len(),
        0 <= wx < 32,
        0 <= wy < 32,
        0 <= row_lo <= row_hi < 32,
        2 <= ix <= 28,
        (wy == row_hi && x_limit <= wx) || wy < row_lo,
        forall|j: int|
            0 <= j < a.len() && !((wy * 32 + wx) * 4 <= j < (wy * 32 + wx) * 4 + 4) ==> b[j]
                == a[j],
        forall|yy: int, c: int|
            row_lo <= yy < row_hi && (c == ix || c == ix + 1) ==> #[trigger] pixel_set(
                a,
                32,
                c,
                yy,
                mc,
            ),
        forall|c: int|
            (c == ix || c == ix + 1) && c < x_limit ==> #[trigger] pixel_set(a, 32, c, row_hi, mc),
    ensures
        forall|yy: int, c: int|
            row_lo <= yy < row_hi && (c == ix || c == ix + 1) ==> #[trigger] pixel_set(
                b,
                32,
                c,
                yy,
                mc,
            ),
        forall|c: int|
            (c == ix || c == ix + 1) && c < x_limit ==> #[trigger] pixel_set(b, 32, c, row_hi, mc),
{
    assert forall|yy: int, c: int|
        row_lo <= yy < row_hi && (c == ix || c == ix + 1) implies #[trigger] pixel_set(
        b,
        32,
        c,
        yy,
        mc,
    ) by {
        lemma_pixel_preserved(a, b, 32, wx, wy, c, yy, mc);
    }
    assert forall|c: int| (c == ix || c == ix + 1) && c < x_limit implies #[trigger] pixel_set(
        b,
        32,
        c,
        row_hi,
        mc,
    ) by {
        lemma_pixel_preserved(a, b, 32, wx, wy, c, row_hi, mc);
    }
}

/// Paints the four bytes of one pixel.
fn set_pixel(rgba: &mut Vec<u8>, size: usize, x: usize, y: usize, color: [u8; 4])
    requires
        rgba_sized(old(rgba)@, size as int),
        x < size,
        y < size,
    ensures
        rgba_sized(final(rgba)@, size as int),
        only_painted_with(old(rgba)@, final(rgba)@, color),
        pixel_set(
            final(rgba)@,
            size as int,
            x as int,
            y as int,
            (color@[0], color@[1], color@[2], color@[3]),
        ),
        forall|j: int|
            0 <= j < old(rgba)@.len() && !(((y * size + x) * 4) <= j < ((y * size + x) * 4) + 4)
                ==> final(rgba)@[j] == old(rgba)@[j],
{
    let total: usize = rgba.len();
    proof {
        assert(total == size * size * 4);
        assert(y * size + x < size * size) by (nonlinear_arith)
            requires
                x < size,
                y < size,
        ;
        assert(size * size <= size * size * 4);
        assert((y * size + x) * 4 + 4 <= total);
    }
    let idx: usize = (y * size + x) * 4;
    rgba[idx] = color[0];
    rgba[idx + 1] = color[1];
    rgba[idx + 2] = color[2];
    rgba[idx + 3] = color[3];
    proof {
        assert(only_painted_with(old(rgba)@, rgba@, color));
    }
}

/// Whether byte `j` of a square `size`-pixel buffer belongs to a pixel
/// inside the band that a text of `chars` characters drawn at
/// (`start_x`, `start_y`) may touch: the pen's full horizontal advance
/// and the seven scaled glyph rows.
pub open spec fn byte_in_text_band(
    j: int,
    size: int,
    start_x: int,
    start_y: int,
    chars: int,
    scale: int,
) -> bool {
    let pix = j / 4;
    let x = pix % size;
    let y = pix / size;
    &&& start_x <= x < start_x + chars * 6 * scale
    &&& start_y <= y < start_y + 7 * scale
}

/// Every byte outside the text band keeps the value `a` held.
pub open spec fn unchanged_outside_text_band(
    a: Seq<u8>,
    b: Seq<u8>,
    size: int,
    start_x: int,
    start_y: int,
    chars: int,
    scale: int,
) -> bool {
    forall|j: int|
        0 <= j < a.len() && !byte_in_text_band(j, size, start_x, start_y, chars, scale) ==> b[j]
            == a[j]
}

/// A pixel write whose coordinates lie inside the text band changes no
/// byte outside it.
proof fn lemma_band_write_confined(
    a: Seq<u8>,
    b: Seq<u8>,
    size: int,
    wx: int,
    wy: int,
    start_x: int,
    start_y: int,
    chars: int,
    scale: int,
)
    requires
        1 <= size,
        a.len() == size * size * 4,
        b.len() == a.len(),
        0 <= wx < size,
        0 <= wy < size,
        start_x <= wx < start_x + chars * 6 * scale,
        start_y <= wy < start_y + 7 * scale,
        forall|j: int|
            0 <= j < a.len() && !((wy * size + wx) * 4 <= j < (wy * size + wx) * 4 + 4) ==> b[j]
                == a[j],
    ensures
        unchanged_outside_text_band(a, b, size, start_x, start_y, chars, scale),
{
    let w = wy * size + wx;
    assert forall|j: int|
        0 <= j < a.len() && !byte_in_text_band(j, size, start_x, start_y, chars, scale) implies b[j]
        == a[j] by {
        if w * 4 <= j < w * 4 + 4 {
            vstd::arithmetic::div_mod::lemma_fundamental_div_mod_converse(j, 4, w, j - w * 4);
            vstd::arithmetic::div_mod::lemma_fundamental_div_mod_converse(w, size, wy, wx);
            assert(j / 4 == w && w % size == wx && w / size == wy);
            assert(byte_in_text_band(j, size, start_x, start_y, chars, scale));
        }
    }
}

/// Draws text in the five-by-seven font, each glyph pixel scaled to a
/// square of `scale` pixels, clipping at the icon edge. Characters
/// without a glyph advance the pen without painting.
pub fn draw_text_large(
    rgba: &mut Vec<u8>,
    size: usize,
    text: &str,
    start_x: usize,
    start_y: usize,
    color: [u8; 4],
    scale: usize,
)
    requires
        rgba_sized(old(rgba)@, size as int),
        scale >= 1,
        start_x + text@.len() * 6 * scale <= usize::MAX,
        start_y + 7 * scale <= usize::MAX,
    ensures
        rgba_sized(final(rgba)@, size as int),
        only_painted_with(old(rgba)@, final(rgba)@, color),
        unchanged_outside_text_band(
            old(rgba)@,
            final(rgba)@,
            size as int,
            start_x as int,
            start_y as int,
            text@.len() as int,
            scale as int,
        ),
{
    let n: usize = text.unicode_len();
    let mut ci: usize = 0;
    let mut x_offset: usize = start_x;
    while ci < n
        invariant
            ci <= n,
            n == text@.len(),
            x_offset == start_x + ci * 6 * scale,
            start_x + n * 6 * scale <= usize::MAX,
            start_y + 7 * scale <= usize::MAX,
            scale >= 1,
            rgba_sized(rgba@, size as int),
            only_painted_with(old(rgba)@, rgba@, color),
            unchanged_outside_text_band(
                old(rgba)@,
                rgba@,
                size as int,
                start_x as int,
                start_y as int,
                n as int,
                scale as int,
            ),
        decreases n - ci,
    {
        proof {
            assert(x_offset + 6 * scale <= start_x + n * 6 * scale) by (nonlinear_arith)
                requires
                    ci < n,
                    scale >= 1,
                    x_offset == start_x + ci * 6 * scale,
            ;
            assert(0 <= ci * 6 * scale) by (nonlinear_arith)
                requires
                    0 <= ci,
                    0 <= scale,
            ;
        }
        let c = text.get_char(ci);
        if let Some(bitmap) = get_char_bitmap_large(c) {
            let mut row: usize = 0;
            while row < 7
                invariant
                    row <= 7,
                    x_offset + 5 * scale <= usize::MAX,
                    start_x <= x_offset,
                    x_offset + 6 * scale <= start_x + n * 6 * scale,
                    start_y + 7 * scale <= usize::MAX,
                    scale >= 1,
                    rgba_sized(rgba@, size as int),
                    only_painted_with(old(rgba)@, rgba@, color),
                    unchanged_outside_text_band(
                        old(rgba)@,
                        rgba@,
                        size as int,
                        start_x as int,
                        start_y as int,
                        n as int,
                        scale as int,
                    ),
                decreases 7 - row,
            {
                let mut col: usize = 0;
                while col < 5
                    invariant
                        col <= 5,
                        row < 7,
                        x_offset + 5 * scale <= usize::MAX,
                        start_x <= x_offset,
                        x_offset + 6 * scale <= start_x + n * 6 * scale,
                        start_y + 7 * scale <= usize::MAX,
                        scale >= 1,
                        rgba_sized(rgba@, size as int),
                        only_painted_with(old(rgba)@, rgba@, color),
                        unchanged_outside_text_band(
                            old(rgba)@,
                            rgba@,
                            size as int,
                            start_x as int,
                            start_y as int,
                            n as int,
                            scale as int,
                        ),
                    decreases 5 - col,
                {
                    if bitmap[row][col] {
                        let mut sy: usize = 0;
                        while sy < scale
                            invariant
                                sy <= scale,
                                col < 5,
                                row < 7,
                                x_offset + 5 * scale <= usize::MAX,
                                start_x <= x_offset,
                                x_offset + 6 * scale <= start_x + n * 6 * scale,
                                start_y + 7 * scale <= usize::MAX,
                                scale >= 1,
                                rgba_sized(rgba@, size as int),
                                only_painted_with(old(rgba)@, rgba@, color),
                                unchanged_outside_text_band(
                                    old(rgba)@,
                                    rgba@,
                                    size as int,
                                    start_x as int,
                                    start_y as int,
                                    n as int,
                                    scale as int,
                                ),
                            decreases scale - sy,
                        {
                            let mut sx: usize = 0;
                            while sx < scale
                                invariant
                                    sx <= scale,
                                    sy < scale,
                                    col < 5,
                                    row < 7,
                                    x_offset + 5 * scale <= usize::MAX,
                                    start_x <= x_offset,
                                    x_offset + 6 * scale <= start_x + n * 6 * scale,
                                    start_y + 7 * scale <= usize::MAX,
                                    scale >= 1,
                                    rgba_sized(rgba@, size as int),
                                    only_painted_with(old(rgba)@, rgba@, color),
                                    unchanged_outside_text_band(
                                        old(rgba)@,
                                        rgba@,
                                        size as int,
                                        start_x as int,
                                        start_y as int,
                                        n as int,
                                        scale as int,
                                    ),
                                decreases scale - sx,
                            {
                                proof {
                                    assert(col * scale + sx < 5 * scale) by (nonlinear_arith)
                                        requires
                                            col < 5,
                                            sx < scale,
                                    ;
                                    assert(row * scale + sy < 7 * scale) by (nonlinear_arith)
                                        requires
                                            row < 7,
                                            sy < scale,
                                    ;
                                }
                                let x = x_offset + col * scale + sx;
                                let y = start_y + row * scale + sy;
                                if x < size && y < size {
                                    let ghost before = rgba@;
                                    set_pixel(rgba, size, x, y, color);
                                    proof {
                                        lemma_painting_composes(old(rgba)@, before, rgba@, color);
                                        assert(start_x <= x < start_x + n * 6 * scale);
                                        assert(start_y <= y < start_y + 7 * scale);
                                        lemma_band_write_confined(
                                            before,
                                            rgba@,
                                            size as int,
                                            x as int,
                                            y as int,
                                            start_x as int,
                                            start_y as int,
                                            n as int,
                                            scale as int,
                                        );
                                        assert(unchanged_outside_text_band(
                                            old(rgba)@,
                                            rgba@,
                                            size as int,
                                            start_x as int,
                                            start_y as int,
                                            n as int,
                                            scale as int,
                                        ));
                                    }
                                }
                                sx = sx + 1;
                            }
                            sy = sy + 1;
                        }
                    }
                    col = col + 1;
                }
                row = row + 1;
            }
        }
        proof {
            assert(start_x + ci * 6 * scale + 6 * scale == start_x + (ci + 1) * 6 * scale)
                by (nonlinear_arith);
        }
        x_offset = x_offset + 6 * scale;
        ci = ci + 1;
    }
}

/// Keeps the characters of a note name that the font can draw, dropping
/// the octave digits and any sign.
pub fn filter_note_chars(s: &str) -> (r: String)
    ensures
        r@ == s@.filter(glyph_pred()),
{
    let n: usize = s.unicode_len();
    let mut r = String::new();
    proof {
        reveal(Seq::filter);
        assert(s@.subrange(0, 0).filter(glyph_pred()) =~= Seq::<char>::empty());
    }
    let mut i: usize = 0;
    while i < n
        invariant
            i <= n,
            n == s@.len(),
            r@ == s@.subrange(0, i as int).filter(glyph_pred()),
        decreases n - i,
    {
        let c = s.get_char(i);
        let piece: &'static str = if c == 'A' {
            "A"
        } else if c == 'B' {
            "B"
        } else if c == 'C' {
            "C"
        } else if c == 'D' {
            "D"
        } else if c == 'E' {
            "E"
        } else if c == 'F' {
            "F"
        } else if c == 'G' {
            "G"
        } else if c == '#' {
            "#"
        } else {
            ""
        };
        r.append(piece);
        proof {
            reveal_strlit("A");
            reveal_strlit("B");
            reveal_strlit("C");
            reveal_strlit("D");
            reveal_strlit("E");
            reveal_strlit("F");
            reveal_strlit("G");
            reveal_strlit("#");
            reveal_strlit("");
            reveal(Seq::filter);
            let pred = glyph_pred();
            let pre = s@.subrange(0, i as int);
            let cur = s@.subrange(0, i + 1);
            assert(cur.drop_last() =~= pre);
            assert(cur.last() == c);
            if has_glyph(c) {
                assert(piece@ =~= seq![c]);
                assert(cur.filter(pred) =~= pre.filter(pred) + seq![c]);
            } else {
                assert(piece@ =~= Seq::<char>::empty());
                assert(cur.filter(pred) =~= pre.filter(pred));
            }
            assert(r@ =~= cur.filter(pred));
        }
        i = i + 1;
    }
    proof {
        assert(s@.subrange(0, n as int) =~= s@);
    }
    r
}

/// The left pixel column of the two-pixel indicator: cents clamped to
/// plus or minus ten across the meter's inner width, rounded to the
/// nearest column.
pub open spec fn meter_indicator_column_spec(cents: int) -> int {
    let clamped = if cents < -1_000 {
        -1_000int
    } else if cents > 1_000 {
        1_000int
    } else {
        cents
    };
    2 + ((clamped + 1_000) * 26 + 1_000) / 2_000
}

/// Places the indicator for a cents deviation on the meter.
pub fn meter_indicator_column(cents_centicents: i64) -> (x: usize)
    ensures
        x == meter_indicator_column_spec(cents_centicents as int),
        2 <= x <= 28,
{
    let clamped: i64 = if cents_centicents < -1_000 {
        -1_000
    } else if cents_centicents > 1_000 {
        1_000
    } else {
        cents_centicents
    };
    2 + ((((clamped + 1_000) as u64) * 26 + 1_000) / 2_000) as usize
}

/// Renders the 32-by-32 tuning indicator: a dark background, the note
/// name on top when the display mode asks for it, a two-pixel center
/// mark, and a two-pixel indicator column placed by the cents deviation,
/// clamped to plus or minus ten cents across the meter's width.
pub fn generate_tuning_icon(
    cents_centicents: i64,
    color: TuningColor,
    note_name: &str,
    icon_mode: u32,
) -> (rgba: Vec<u8>)
    requires
        note_name@.len() * 12 + 32 <= usize::MAX,
    ensures
        rgba@.len() == ICON_SIZE * ICON_SIZE * 4,
        ({
            let top: int = if icon_mode == 1 {
                17
            } else {
                2
            };
            let ix = meter_indicator_column_spec(cents_centicents as int);
            forall|yy: int, c: int|
                top <= yy < 30 && (c == ix || c == ix + 1) ==> #[trigger] pixel_set(
                    rgba@,
                    32,
                    c,
                    yy,
                    zone_rgba(color),
                )
        }),
{
    let mut rgba: Vec<u8> = vec![0u8; ICON_SIZE * ICON_SIZE * 4];
    let bg_color: [u8; 4] = [40, 40, 40, 255];
    let meter_color: [u8; 4] = match color {
        TuningColor::Green => [0, 255, 100, 255],
        TuningColor::Yellow => [255, 200, 0, 255],
        TuningColor::Red => [255, 60, 60, 255],
    };
    let center_line_color: [u8; 4] = [80, 80, 80, 255];
    let text_color: [u8; 4] = [255, 255, 255, 255];
    let mut y: usize = 0;
    while y < ICON_SIZE
        invariant
            rgba_sized(rgba@, ICON_SIZE as int),
        decreases ICON_SIZE - y,
    {
        let mut x: usize = 0;
        while x < ICON_SIZE
            invariant
                y < ICON_SIZE,
                rgba_sized(rgba@, ICON_SIZE as int),
            decreases ICON_SIZE - x,
        {
            set_pixel(&mut rgba, ICON_SIZE, x, y, bg_color);
            x = x + 1;
        }
        y = y + 1;
    }
    let meter_top: usize;
    if icon_mode == 1 {
        let note_chars = filter_note_chars(note_name);
        let scale: usize = 2;
        let char_count: usize = note_chars.unicode_len();
        proof {
            note_name@.lemma_filter_len(glyph_pred());
        }
        let text_width: usize = if char_count > 0 {
            char_count * 6 * scale - scale
        } else {
            0
        };
        let text_start_x: usize = if text_width < ICON_SIZE {
            (ICON_SIZE - text_width) / 2
        } else {
            0
        };
        draw_text_large(&mut rgba, ICON_SIZE, note_chars.as_str(), text_start_x, 1, text_color, scale);
        meter_top = 17;
    } else {
        meter_top = 2;
    }
    let meter_bottom: usize = ICON_SIZE - 2;
    let meter_left: usize = 2;
    let meter_right: usize = ICON_SIZE - 2;
    let meter_width: usize = meter_right - meter_left;
    let center_x1: usize = meter_left + meter_width / 2 - 1;
    let center_x2: usize = meter_left + meter_width / 2;
    let indicator_x1: usize = meter_indicator_column(cents_centicents);
    let indicator_x2: usize = indicator_x1 + 1;
    let ghost mc: (u8, u8, u8, u8) = zone_rgba(color);
    proof {
        assert(mc == (meter_color@[0], meter_color@[1], meter_color@[2], meter_color@[3]));
    }
    let mut y: usize = meter_top;
    while y < meter_bottom
        invariant
            rgba_sized(rgba@, ICON_SIZE as int),
            meter_top <= y,
            meter_top == 17 || meter_top == 2,
            meter_bottom == 30,
            meter_left == 2,
            meter_right == 30,
            center_x1 == 15,
            center_x2 == 16,
            2 <= indicator_x1 <= 28,
            indicator_x2 == indicator_x1 + 1,
            mc == zone_rgba(color),
            mc == (meter_color@[0], meter_color@[1], meter_color@[2], meter_color@[3]),
            forall|yy: int, c: int|
                meter_top <= yy < y && (c == indicator_x1 || c == indicator_x2)
                    ==> #[trigger] pixel_set(rgba@, 32, c, yy, mc),
        decreases meter_bottom - y,
    {
        let mut x: usize = meter_left;
        while x < meter_right
            invariant
                meter_top <= y < 30,
                meter_top == 17 || meter_top == 2,
                meter_left == 2,
                2 <= x,
                meter_right == 30,
                center_x1 == 15,
                center_x2 == 16,
                2 <= indicator_x1 <= 28,
                indicator_x2 == indicator_x1 + 1,
                rgba_sized(rgba@, ICON_SIZE as int),
                mc == zone_rgba(color),
                mc == (meter_color@[0], meter_color@[1], meter_color@[2], meter_color@[3]),
                forall|yy: int, c: int|
                    meter_top <= yy < y && (c == indicator_x1 || c == indicator_x2)
                        ==> #[trigger] pixel_set(rgba@, 32, c, yy, mc),
                forall|c: int|
                    (c == indicator_x1 || c == indicator_x2) && c < x ==> #[trigger] pixel_set(
                        rgba@,
                        32,
                        c,
                        y as int,
                        mc,
                    ),
            decreases meter_right - x,
        {
            if x == center_x1 || x == center_x2 {
                let ghost before = rgba@;
                set_pixel(&mut rgba, ICON_SIZE, x, y, center_line_color);
                proof {
                    preserve_meter_columns(
                        before,
                        rgba@,
                        x as int,
                        y as int,
                        meter_top as int,
                        y as int,
                        x as int,
                        indicator_x1 as int,
                        mc,
                    );
                }
            }
            if x == indicator_x1 || x == indicator_x2 {
                let ghost before = rgba@;
                set_pixel(&mut rgba, ICON_SIZE, x, y, meter_color);
                proof {
                    preserve_meter_columns(
                        before,
                        rgba@,
                        x as int,
                        y as int,
                        meter_top as int,
                        y as int,
                        x as int,
                        indicator_x1 as int,
                        mc,
                    );
                }
            }
            x = x + 1;
        }
        y = y + 1;
    }
    proof {
        assert(forall|yy: int, c: int|
            meter_top <= yy < 30 && (c == indicator_x1 || c == indicator_x2)
                ==> #[trigger] pixel_set(rgba@, 32, c, yy, mc));
    }
    let triangle_color: [u8; 4] = [120, 120, 120, 255];
    let mut i: usize = 0;
    while i < 2
        invariant
            i <= 2,
            meter_top == 17 || meter_top == 2,
            center_x1 == 15,
            center_x2 == 16,
            2 <= indicator_x1 <= 28,
            indicator_x2 == indicator_x1 + 1,
            mc == zone_rgba(color),
            rgba_sized(rgba@, ICON_SIZE as int),
            forall|yy: int, c: int|
                meter_top <= yy < 30 && (c == indicator_x1 || c == indicator_x2)
                    ==> #[trigger] pixel_set(rgba@, 32, c, yy, mc),
        decreases 2 - i,
    {
        let y_mark: usize = if meter_top >= 1 + i {
            meter_top - (1 + i)
        } else {
            0
        };
        if y_mark >= 1 && ((icon_mode == 1 && y_mark > 15) || icon_mode == 0) {
            let mut dx: usize = 0;
            while dx <= i
                invariant
                    i < 2,
                    dx <= i + 1,
                    1 <= y_mark,
                    y_mark + 1 + i == meter_top || y_mark == 0,
                    meter_top == 17 || meter_top == 2,
                    y_mark < meter_top,
                    center_x1 == 15,
                    center_x2 == 16,
                    2 <= indicator_x1 <= 28,
                    indicator_x2 == indicator_x1 + 1,
                    mc == zone_rgba(color),
                    rgba_sized(rgba@, ICON_SIZE as int),
                    forall|yy: int, c: int|
                        meter_top <= yy < 30 && (c == indicator_x1 || c == indicator_x2)
                            ==> #[trigger] pixel_set(rgba@, 32, c, yy, mc),
                decreases i + 1 - dx,
            {
                let x_left: usize = if center_x1 >= dx {
                    center_x1 - dx
                } else {
                    0
                };
                if x_left < ICON_SIZE {
                    let ghost before = rgba@;
                    set_pixel(&mut rgba, ICON_SIZE, x_left, y_mark, triangle_color);
                    proof {
                        preserve_meter_columns(
                            before,
                            rgba@,
                            x_left as int,
                            y_mark as int,
                            meter_top as int,
                            30,
                            2,
                            indicator_x1 as int,
                            mc,
                        );
                    }
                }
                let x_right: usize = center_x2 + dx;
                if x_right < ICON_SIZE {
                    let ghost before = rgba@;
                    set_pixel(&mut rgba, ICON_SIZE, x_right, y_mark, triangle_color);
                    proof {
                        preserve_meter_columns(
                            before,
                            rgba@,
                            x_right as int,
                            y_mark as int,
                            meter_top as int,
                            30,
                            2,
                            indicator_x1 as int,
                            mc,
                        );
                    }
                }
                dx = dx + 1;
            }
        }
        i = i + 1;
    }
    rgba
}

/// Painting with one color composes: two paints over a base are still
/// only that paint over the base.
proof fn lemma_painting_composes(a: Seq<u8>, b: Seq<u8>, c: Seq<u8>, color: [u8; 4])
    requires
        only_painted_with(a, b, color),
        only_painted_with(b, c, color),
    ensures
        only_painted_with(a, c, color),
{
}

} // verus!
