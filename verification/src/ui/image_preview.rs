//! A cover preview drawn with half blocks: each terminal cell shows two
//! pixels stacked, the upper one as the glyph's colour and the lower one as
//! the background.

use vstd::prelude::*;

verus! {

/// One terminal cell of a cover preview: the colours of its upper and lower
/// half (`None` for the terminal's own colour).
#[derive(Debug, Clone, Copy, PartialEq, Eq)]
pub struct PreviewCell {
    pub top: Option<(u8, u8, u8)>,
    pub bottom: Option<(u8, u8, u8)>,
}

/// The colour a preview cell half takes from a pixel: none where the pixel
/// is mostly transparent (alpha below 128).
pub open spec fn pixel_color(rgba: (u8, u8, u8, u8)) -> Option<(u8, u8, u8)> {
    if rgba.3 < 128 {
        None
    } else {
        Some((rgba.0, rgba.1, rgba.2))
    }
}

/// The colour a preview cell half takes from a pixel.
pub fn cell_color(rgba: (u8, u8, u8, u8)) -> (r: Option<(u8, u8, u8)>)
    ensures
        r == pixel_color(rgba),
{
    if rgba.3 < 128 {
        None
    } else {
        Some((rgba.0, rgba.1, rgba.2))
    }
}

/// The preview rows of a picture already scaled to `cols` columns and
/// twice as many pixel rows as cell rows: the pixel rows two by two, each
/// pair a row of cells, after as many blank rows as centre the picture in
/// `max_rows` rows.
pub open spec fn halfblock_rows_of(pixels: Seq<Seq<(u8, u8, u8, u8)>>, max_rows: nat) -> Seq<
    Seq<PreviewCell>,
> {
    let rows = pixels.len() / 2;
    let pad = if max_rows > rows {
        ((max_rows - rows) / 2) as nat
    } else {
        0
    };
    Seq::new(pad, |i: int| Seq::<PreviewCell>::empty()) + Seq::new(
        rows,
        |r: int|
            Seq::new(
                pixels[2 * r].len(),
                |c: int|
                    PreviewCell {
                        top: pixel_color(pixels[2 * r][c]),
                        bottom: pixel_color(pixels[2 * r + 1][c]),
                    },
            ),
    )
}

/// The cover preview.
pub struct ImagePreview;

impl ImagePreview {
    /// The preview rows of a scaled picture, given as rows of RGBA pixels of
    /// one width and an even number of rows, centred in `max_rows` rows.
    pub fn halfblock_rows(pixels: &Vec<Vec<(u8, u8, u8, u8)>>, max_rows: u16) -> (r: Vec<Vec<PreviewCell>>)
        requires
            pixels@.len() % 2 == 0,
            forall|i: int| 0 <= i < pixels@.len() ==> #[trigger] pixels@[i]@.len() == pixels@[0]@.len(),
        ensures
            r@.map_values(|row: Vec<PreviewCell>| row@) == halfblock_rows_of(
                pixels@.map_values(|row: Vec<(u8, u8, u8, u8)>| row@),
                max_rows as nat,
            ),
    {
        let ghost px = pixels@.map_values(|row: Vec<(u8, u8, u8, u8)>| row@);
        let rows = pixels.len() / 2;
        let pad: usize = if (max_rows as usize) > rows {
            ((max_rows as usize) - rows) / 2
        } else {
            0
        };
        let mut out: Vec<Vec<PreviewCell>> = Vec::new();
        let mut i: usize = 0;
        while i < pad
            invariant
                i <= pad,
                out@.len() == i,
                forall|k: int| 0 <= k < i ==> (#[trigger] out@[k])@.len() == 0,
            decreases pad - i,
        {
            out.push(Vec::new());
            i = i + 1;
        }
        assert(pixels@.len() == 2 * rows);
        assert(pixels@.len() == pixels.len());
        let mut r: usize = 0;
        while r < rows
            invariant
                rows == pixels@.len() / 2,
                pixels@.len() == 2 * rows,
                pixels@.len() <= usize::MAX,
                pixels@.len() % 2 == 0,
                px == pixels@.map_values(|row: Vec<(u8, u8, u8, u8)>| row@),
                forall|i: int| 0 <= i < pixels@.len() ==> #[trigger] pixels@[i]@.len() == pixels@[0]@.len(),
                r <= rows,
                out@.len() == pad + r,
                forall|k: int| 0 <= k < pad ==> (#[trigger] out@[k])@.len() == 0,
                forall|k: int|
                    0 <= k < r ==> (#[trigger] out@[pad + k])@ == Seq::new(
                        px[2 * k].len(),
                        |c: int|
                            PreviewCell {
                                top: pixel_color(px[2 * k][c]),
                                bottom: pixel_color(px[2 * k + 1][c]),
                            },
                    ),
            decreases rows - r,
        {
            let top_row = &pixels[2 * r];
            let bottom_row = &pixels[2 * r + 1];
            let mut cells: Vec<PreviewCell> = Vec::new();
            let mut c: usize = 0;
            while c < top_row.len()
                invariant
                    top_row@.len() == bottom_row@.len(),
                    c <= top_row@.len(),
                    cells@.len() == c,
                    forall|m: int|
                        0 <= m < c ==> #[trigger] cells@[m] == (PreviewCell {
                            top: pixel_color(top_row@[m]),
                            bottom: pixel_color(bottom_row@[m]),
                        }),
                decreases top_row@.len() - c,
            {
                cells.push(PreviewCell { top: cell_color(top_row[c]), bottom: cell_color(bottom_row[c]) });
                c = c + 1;
            }
            proof {
                assert(px[2 * r as int] == top_row@);
                assert(px[2 * r + 1] == bottom_row@);
                assert(cells@ =~= Seq::new(
                    px[2 * r as int].len(),
                    |c: int|
                        PreviewCell {
                            top: pixel_color(px[2 * r as int][c]),
                            bottom: pixel_color(px[2 * r as int + 1][c]),
                        },
                ));
            }
            out.push(cells);
            r = r + 1;
        }
        proof {
            assert(px.len() == pixels@.len());
            let want = halfblock_rows_of(px, max_rows as nat);
            let got = out@.map_values(|row: Vec<PreviewCell>| row@);
            assert(px.len() / 2 == rows);
            assert(want.len() == got.len());
            assert forall|k: int| 0 <= k < got.len() implies got[k] == want[k] by {
                if k < pad {
                    assert(out@[k]@ =~= Seq::<PreviewCell>::empty());
                } else {
                    assert(out@[pad + (k - pad)] == out@[k]);
                }
            }
            assert(got =~= want);
        }
        out
    }
}

/// A preview never takes more rows than it was given, where the picture
/// was scaled to fit them.
pub proof fn lemma_preview_fits(pixels: Seq<Seq<(u8, u8, u8, u8)>>, max_rows: nat)
    requires
        pixels.len() / 2 <= max_rows,
    ensures
        halfblock_rows_of(pixels, max_rows).len() <= max_rows,
{
}

} // verus!
