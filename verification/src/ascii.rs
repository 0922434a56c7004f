//! The image-viewer variant: an image's pixels are sampled on a grid
//! and each sample's brightness picks a character from a ramp, darkest
//! to brightest.

use vstd::prelude::*;

verus! {

/// One character of the rendered grid, at its pixel position.
#[derive(Clone, Copy, PartialEq, Eq, Structural, Debug)]
pub struct AsciiCell {
    pub ch: char,
    pub x: usize,
    pub y: usize,
}

/// The ramp index a pixel's brightness picks.
pub open spec fn spec_ascii_index(r: int, g: int, b: int, ramp_len: int) -> int {
    (r + g + b) / 3 * (ramp_len - 1) / 255
}

/// The cell rendered for the pixel at `(x, y)`.
pub open spec fn spec_cell(
    bytes: Seq<u8>,
    width: int,
    ramp: Seq<char>,
    x: int,
    y: int,
) -> AsciiCell {
    let idx = (y * width + x) * 4;
    let r = bytes[idx] as int;
    let g = bytes[idx + 1] as int;
    let b = bytes[idx + 2] as int;
    AsciiCell { ch: ramp[spec_ascii_index(r, g, b, ramp.len() as int)], x: x as usize, y: y as usize }
}

/// One rendered row, sampled every `scale` columns from `x` on.
pub open spec fn spec_grid_row(
    bytes: Seq<u8>,
    width: int,
    ramp: Seq<char>,
    y: int,
    x: int,
    scale: int,
) -> Seq<AsciiCell>
    decreases width - x
    when scale >= 1

{
    if x >= width || x < 0 || width < 0 {
        Seq::empty()
    } else {
        seq![spec_cell(bytes, width, ramp, x, y)] + spec_grid_row(
            bytes,
            width,
            ramp,
            y,
            if x + scale > width {
                width
            } else {
                x + scale
            },
            scale,
        )
    }
}

/// The rendered grid, sampled every `scale` rows from `y` on.
pub open spec fn spec_grid(
    bytes: Seq<u8>,
    width: int,
    height: int,
    ramp: Seq<char>,
    y: int,
    scale: int,
) -> Seq<AsciiCell>
    decreases height - y
    when scale >= 1

{
    if y >= height || y < 0 || height < 0 {
        Seq::empty()
    } else {
        spec_grid_row(bytes, width, ramp, y, 0, scale) + spec_grid(
            bytes,
            width,
            height,
            ramp,
            if y + scale > height {
                height
            } else {
                y + scale
            },
            scale,
        )
    }
}

/// The ramp index of one pixel: its brightness, scaled to the ramp.
pub fn ascii_index(r: u8, g: u8, b: u8, ramp_len: usize) -> (i: usize)
    requires
        1 <= ramp_len,
        (ramp_len - 1) * 255 <= usize::MAX,
    ensures
        i as int == spec_ascii_index(r as int, g as int, b as int, ramp_len as int),
        i < ramp_len,
{
    let brightness: u16 = (r as u16 + g as u16 + b as u16) / 3;
    proof {
        assert(brightness <= 255);
        assert((brightness as int) * (ramp_len - 1) <= 255 * (ramp_len - 1)) by (nonlinear_arith)
            requires
                0 <= brightness <= 255,
                ramp_len >= 1,
        ;
        assert(255 * (ramp_len - 1) == (ramp_len - 1) * 255) by (nonlinear_arith);
        assert((brightness as int) * (ramp_len - 1) / 255 <= 255 * (ramp_len - 1) / 255)
            by (nonlinear_arith)
            requires
                0 <= (brightness as int) * (ramp_len - 1) <= 255 * (ramp_len - 1),
        ;
        assert(255 * (ramp_len - 1) / 255 == ramp_len - 1) by (nonlinear_arith)
            requires
                ramp_len >= 1,
        ;
    }
    let index = brightness as usize * (ramp_len - 1) / 255;
    index
}

/// Render an image, given as rows of four bytes per pixel, into the
/// character grid: one cell per `scale`-spaced sample.
pub fn build_ascii_grid(
    bytes: &Vec<u8>,
    width: usize,
    height: usize,
    scale: usize,
    ramp: &Vec<char>,
) -> (cells: Vec<AsciiCell>)
    requires
        1 <= scale,
        1 <= ramp@.len(),
        (ramp@.len() - 1) * 255 <= usize::MAX,
        width * height * 4 <= bytes@.len(),
        width * height * 4 <= usize::MAX,
    ensures
        cells@ == spec_grid(bytes@, width as int, height as int, ramp@, 0, scale as int),
{
    let mut cells: Vec<AsciiCell> = Vec::new();
    let mut y: usize = 0;

    proof {
        assert(Seq::<AsciiCell>::empty() + spec_grid(
            bytes@,
            width as int,
            height as int,
            ramp@,
            0,
            scale as int,
        ) =~= spec_grid(bytes@, width as int, height as int, ramp@, 0, scale as int));
    }

    while y < height
        invariant
            1 <= scale,
            1 <= ramp@.len(),
            (ramp@.len() - 1) * 255 <= usize::MAX,
            width * height * 4 <= bytes@.len(),
            width * height * 4 <= usize::MAX,
            cells@ + spec_grid(bytes@, width as int, height as int, ramp@, y as int, scale as int)
                == spec_grid(bytes@, width as int, height as int, ramp@, 0, scale as int),
        decreases height - y,
    {
        let mut x: usize = 0;
        let ghost row_start = cells@;
        proof {
            let row0 = spec_grid_row(bytes@, width as int, ramp@, y as int, 0, scale as int);
            assert(row0.take(0) =~= Seq::<AsciiCell>::empty());
            assert(cells@ =~= row_start + row0.take(0));
            assert(row0.skip(0) =~= row0);
        }
        while x < width
            invariant
                1 <= scale,
                1 <= ramp@.len(),
                (ramp@.len() - 1) * 255 <= usize::MAX,
                width * height * 4 <= bytes@.len(),
                width * height * 4 <= usize::MAX,
                x <= width,
                y < height,
                cells@.len() - row_start.len() <= spec_grid_row(
                    bytes@,
                    width as int,
                    ramp@,
                    y as int,
                    0,
                    scale as int,
                ).len(),
                row_start.len() <= cells@.len(),
                cells@ == row_start + spec_grid_row(
                    bytes@,
                    width as int,
                    ramp@,
                    y as int,
                    0,
                    scale as int,
                ).take(cells@.len() - row_start.len()),
                spec_grid_row(bytes@, width as int, ramp@, y as int, x as int, scale as int)
                    == spec_grid_row(
                    bytes@,
                    width as int,
                    ramp@,
                    y as int,
                    0,
                    scale as int,
                ).skip(cells@.len() - row_start.len()),
            decreases width - x,
        {
            proof {
                assert(y * width + x < width * height && (y * width + x) * 4 + 3 < width * height
                    * 4) by (nonlinear_arith)
                    requires
                        0 <= x < width,
                        0 <= y < height,
                ;
            }
            let idx = (y * width + x) * 4;
            let r = bytes[idx];
            let g = bytes[idx + 1];
            let b = bytes[idx + 2];

            let index = ascii_index(r, g, b, ramp.len());
            let ch = ramp[index];

            let ghost before = cells@;
            cells.push(AsciiCell { ch, x, y });
            proof {
                let row0 = spec_grid_row(bytes@, width as int, ramp@, y as int, 0, scale as int);
                let rest = spec_grid_row(
                    bytes@,
                    width as int,
                    ramp@,
                    y as int,
                    x as int,
                    scale as int,
                );
                let k = before.len() - row_start.len();
                let nx: int = if x + scale > width {
                    width as int
                } else {
                    x + scale
                };
                let tail = spec_grid_row(bytes@, width as int, ramp@, y as int, nx, scale as int);
                assert(rest == seq![
                    spec_cell(bytes@, width as int, ramp@, x as int, y as int),
                ] + tail);
                assert(rest == row0.skip(k));
                assert(rest.len() > 0);
                assert(k < row0.len());
                assert(rest[0] == row0[k]);
                assert(rest[0] == spec_cell(bytes@, width as int, ramp@, x as int, y as int));
                assert(cells@ == before.push(rest[0]));
                assert(row0.take(k + 1) =~= row0.take(k).push(row0[k]));
                assert(cells@ =~= row_start + row0.take(k + 1));
                assert(tail =~= rest.skip(1));
                assert(rest.skip(1) =~= row0.skip(k + 1));
            }
            x = if width - x > scale {
                x + scale
            } else {
                width
            };
        }
        proof {
            let row0 = spec_grid_row(bytes@, width as int, ramp@, y as int, 0, scale as int);
            let k = cells@.len() - row_start.len();
            assert(spec_grid_row(bytes@, width as int, ramp@, y as int, x as int, scale as int)
                =~= Seq::<AsciiCell>::empty());
            assert(row0.skip(k).len() == 0);
            assert(k == row0.len());
            assert(row0.take(k) =~= row0);
            assert(cells@ =~= row_start + row0);
            let ny: int = if y + scale > height {
                height as int
            } else {
                y + scale
            };
            assert(row_start + spec_grid(
                bytes@,
                width as int,
                height as int,
                ramp@,
                y as int,
                scale as int,
            ) =~= row_start + row0 + spec_grid(
                bytes@,
                width as int,
                height as int,
                ramp@,
                ny,
                scale as int,
            ));
        }
        y = if height - y > scale {
            y + scale
        } else {
            height
        };
    }
    proof {
        assert(spec_grid(bytes@, width as int, height as int, ramp@, y as int, scale as int)
            =~= Seq::<AsciiCell>::empty());
        assert(cells@ + Seq::<AsciiCell>::empty() =~= cells@);
    }
    cells
}

} // verus!
