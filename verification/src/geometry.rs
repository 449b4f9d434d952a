//! Frame geometry and plane copies: even rounding of session dimensions for
//! the NV12 target, upload of the BGRA source rectangle out of a padded-row
//! buffer, and CPU readback of an NV12 surface honoring the GPU row pitch.

use vstd::prelude::*;

verus! {

/// The smallest even integer that is `>= x`.
pub open spec fn round_up_even_spec(x: int) -> int {
    if x % 2 == 0 {
        x
    } else {
        x + 1
    }
}

/// Round a dimension up to the nearest even value. NV12 surfaces use 2x2
/// chroma subsampling, so both target dimensions must be even.
pub fn round_up_even(x: u32) -> (r: u32)
    requires
        x < u32::MAX,
    ensures
        r == round_up_even_spec(x as int),
        r % 2 == 0,
        x <= r <= x + 1,
{
    if x % 2 == 0 {
        x
    } else {
        x + 1
    }
}

/// The NV12 target dimensions for a captured source: each source dimension
/// rounded up to even. Odd sources keep their pixels; the extra last
/// column/row of the target is left unspecified.
pub fn nv12_target_dims(width: u32, height: u32) -> (r: (u32, u32))
    requires
        width < u32::MAX,
        height < u32::MAX,
    ensures
        r.0 == round_up_even_spec(width as int),
        r.1 == round_up_even_spec(height as int),
        r.0 % 2 == 0 && r.1 % 2 == 0,
        width <= r.0 <= width + 1,
        height <= r.1 <= height + 1,
{
    (round_up_even(width), round_up_even(height))
}

/// The first `rows` rows of a row-major rectangle read from `src`: each row
/// is `width` bytes wide and starts `pitch` bytes after the previous one,
/// the first at `base`. Rows are concatenated tightly, dropping the pitch
/// padding.
pub open spec fn rect_bytes(src: Seq<u8>, base: int, pitch: int, width: int, rows: int) -> Seq<u8>
    decreases rows,
{
    if rows <= 0 {
        seq![]
    } else {
        rect_bytes(src, base, pitch, width, rows - 1) + src.subrange(
            base + (rows - 1) * pitch,
            base + (rows - 1) * pitch + width,
        )
    }
}

pub proof fn lemma_rect_bytes_len(src: Seq<u8>, base: int, pitch: int, width: int, rows: int)
    requires
        0 <= rows,
        0 <= base,
        0 <= width <= pitch,
        base + rows * pitch <= src.len(),
    ensures
        rect_bytes(src, base, pitch, width, rows).len() == rows * width,
    decreases rows,
{
    if rows > 0 {
        assert(0 <= (rows - 1) * pitch && (rows - 1) * pitch + pitch == rows * pitch)
            by (nonlinear_arith)
            requires
                0 <= rows - 1 && 0 <= pitch,
        ;
        lemma_rect_bytes_len(src, base, pitch, width, rows - 1);
        assert(rows * width == (rows - 1) * width + width) by (nonlinear_arith);
    } else {
        assert(rows * width == 0) by (nonlinear_arith)
            requires
                rows == 0,
        ;
    }
}

/// Each byte of the tight rectangle comes from the padded source at the
/// row-pitch-adjusted position.
pub proof fn lemma_rect_bytes_index(
    src: Seq<u8>,
    base: int,
    pitch: int,
    width: int,
    rows: int,
    r: int,
    c: int,
)
    requires
        0 <= r < rows,
        0 <= c < width,
        0 <= base,
        width <= pitch,
        base + rows * pitch <= src.len(),
    ensures
        rect_bytes(src, base, pitch, width, rows).len() == rows * width,
        rect_bytes(src, base, pitch, width, rows)[r * width + c] == src[base + r * pitch + c],
    decreases rows,
{
    assert((rows - 1) * pitch + pitch == rows * pitch) by (nonlinear_arith);
    assert(0 <= (rows - 1) * pitch) by (nonlinear_arith)
        requires
            0 <= rows - 1 && 0 <= pitch,
    ;
    lemma_rect_bytes_len(src, base, pitch, width, rows);
    lemma_rect_bytes_len(src, base, pitch, width, rows - 1);
    if r == rows - 1 {
        assert(0 <= r * width + c && r * width + c - (rows - 1) * width == c) by (nonlinear_arith)
            requires
                r == rows - 1 && 0 <= r && 0 <= c < width,
        ;
    } else {
        lemma_rect_bytes_index(src, base, pitch, width, rows - 1, r, c);
        assert(r * width + c < (rows - 1) * width) by (nonlinear_arith)
            requires
                0 <= r < rows - 1 && 0 <= c < width,
        ;
    }
}

/// Append `rows` rows of `width` bytes each to `dst`, read from `src`
/// starting at `base` with stride `pitch`.
fn append_rows(dst: &mut Vec<u8>, src: &[u8], base: usize, pitch: usize, width: usize, rows: usize)
    requires
        width <= pitch,
        base + rows * pitch <= src@.len(),
        old(dst)@.len() + rows * width <= usize::MAX,
    ensures
        final(dst)@ == old(dst)@ + rect_bytes(
            src@,
            base as int,
            pitch as int,
            width as int,
            rows as int,
        ),
        final(dst)@.len() == old(dst)@.len() + rows * width,
{
    let src_len: usize = src.len();
    proof {
        lemma_rect_bytes_len(src@, base as int, pitch as int, width as int, rows as int);
    }
    let mut r: usize = 0;
    while r < rows
        invariant
            r <= rows,
            width <= pitch,
            src_len == src@.len(),
            base + rows * pitch <= src_len,
            old(dst)@.len() + rows * width <= usize::MAX,
            dst@ == old(dst)@ + rect_bytes(src@, base as int, pitch as int, width as int, r as int),
            dst@.len() == old(dst)@.len() + r * width,
        decreases rows - r,
    {
        proof {
            assert(r * pitch + pitch <= rows * pitch) by (nonlinear_arith)
                requires
                    r < rows && 0 <= pitch,
            ;
            assert(r * width + width <= rows * width) by (nonlinear_arith)
                requires
                    r < rows && 0 <= width,
            ;
        }
        let row_base: usize = base + r * pitch;
        let ghost dst_at_row: Seq<u8> = dst@;
        let mut c: usize = 0;
        while c < width
            invariant
                c <= width,
                width <= pitch,
                src_len == src@.len(),
                row_base + pitch <= src_len,
                dst_at_row.len() + width <= usize::MAX,
                dst@ == dst_at_row + src@.subrange(row_base as int, row_base as int + c as int),
            decreases width - c,
        {
            let b: u8 = src[row_base + c];
            dst.push(b);
            proof {
                assert(dst@ =~= dst_at_row + src@.subrange(
                    row_base as int,
                    row_base as int + c as int + 1,
                ));
            }
            c += 1;
        }
        proof {
            assert(dst@ =~= old(dst)@ + rect_bytes(
                src@,
                base as int,
                pitch as int,
                width as int,
                r as int + 1,
            ));
            assert((r as int + 1) * pitch == r * pitch + pitch) by (nonlinear_arith);
            lemma_rect_bytes_len(src@, base as int, pitch as int, width as int, r as int + 1);
            assert((r + 1) * width == r * width + width) by (nonlinear_arith);
        }
        r += 1;
    }
}

/// Extract the tight `width x height` BGRA rectangle from a captured frame
/// buffer whose rows are `row_pitch` bytes apart. Only the source rectangle
/// is read: backend row padding beyond `4 * width` bytes per row is ignored.
pub fn copy_bgra_rect(data: &[u8], width: u32, height: u32, row_pitch: u32) -> (r: Vec<u8>)
    requires
        4 * width <= row_pitch,
        (row_pitch as int) * (height as int) <= data@.len(),
        4 * (width as int) * (height as int) <= usize::MAX,
        4 * (width as int) <= usize::MAX,
    ensures
        r@ == rect_bytes(data@, 0, row_pitch as int, 4 * width as int, height as int),
        r@.len() == 4 * (width as int) * (height as int),
        forall|row: int, col: int|
            0 <= row < height && 0 <= col < 4 * width ==> #[trigger] r@[row * (4 * width as int)
                + col] == data@[row * (row_pitch as int) + col],
{
    let mut out: Vec<u8> = Vec::new();
    proof {
        assert((height as int) * (row_pitch as int) == (row_pitch as int) * (height as int))
            by (nonlinear_arith);
        assert((height as int) * (4 * width as int) == 4 * (width as int) * (height as int))
            by (nonlinear_arith);
    }
    append_rows(&mut out, data, 0, row_pitch as usize, 4 * (width as usize), height as usize);
    proof {
        assert forall|row: int, col: int|
            0 <= row < height && 0 <= col < 4 * width implies #[trigger] out@[row * (4
        * width as int) + col] == data@[row * (row_pitch as int) + col] by {
            lemma_rect_bytes_index(
                data@,
                0,
                row_pitch as int,
                4 * width as int,
                height as int,
                row,
                col,
            );
        }
    }
    out
}

/// The byte size of a tightly packed NV12 frame: a full `width x height`
/// luma plane followed by a half-height interleaved chroma plane.
pub open spec fn nv12_frame_size_spec(width: int, height: int) -> int {
    width * height + width * (height / 2)
}

/// Read back a mapped NV12 surface into a tightly packed buffer: `height`
/// luma rows then `height / 2` chroma rows, each `width` bytes wide and
/// `row_pitch` bytes apart in the mapped source. The chroma plane starts at
/// `height * row_pitch` in the source, as the GPU lays it out.
pub fn readback_nv12(mapped: &[u8], width: u32, height: u32, row_pitch: u32) -> (r: Vec<u8>)
    requires
        height % 2 == 0,
        width <= row_pitch,
        (row_pitch as int) * (height as int) + (row_pitch as int) * ((height as int) / 2)
            <= mapped@.len(),
        nv12_frame_size_spec(width as int, height as int) <= usize::MAX,
    ensures
        r@ == rect_bytes(mapped@, 0, row_pitch as int, width as int, height as int) + rect_bytes(
            mapped@,
            (height as int) * (row_pitch as int),
            row_pitch as int,
            width as int,
            (height as int) / 2,
        ),
        r@.len() == nv12_frame_size_spec(width as int, height as int),
        forall|row: int, col: int|
            0 <= row < height && 0 <= col < width ==> #[trigger] r@[row * (width as int) + col]
                == mapped@[row * (row_pitch as int) + col],
        forall|row: int, col: int|
            0 <= row < (height as int) / 2 && 0 <= col < width ==> #[trigger] r@[(height as int)
                * (width as int) + row * (width as int) + col] == mapped@[(height as int)
                * (row_pitch as int) + row * (row_pitch as int) + col],
{
    let mut out: Vec<u8> = Vec::new();
    let uv_rows: u32 = height / 2;
    let total: usize = mapped.len();
    proof {
        assert((height as int) * (row_pitch as int) == (row_pitch as int) * (height as int)
            && (uv_rows as int) * (row_pitch as int) == (row_pitch as int) * (uv_rows as int)
            && (height as int) * (width as int) == (width as int) * (height as int) && (
        uv_rows as int) * (width as int) == (width as int) * (uv_rows as int)) by (nonlinear_arith);
        assert(0 <= (row_pitch as int) * (uv_rows as int) && 0 <= (width as int) * (uv_rows as int))
            by (nonlinear_arith);
    }
    append_rows(&mut out, mapped, 0, row_pitch as usize, width as usize, height as usize);
    let uv_base: usize = (height as usize) * (row_pitch as usize);
    append_rows(&mut out, mapped, uv_base, row_pitch as usize, width as usize, uv_rows as usize);
    proof {
        lemma_rect_bytes_len(mapped@, 0, row_pitch as int, width as int, height as int);
        lemma_rect_bytes_len(
            mapped@,
            uv_base as int,
            row_pitch as int,
            width as int,
            uv_rows as int,
        );
        assert forall|row: int, col: int|
            0 <= row < height && 0 <= col < width implies #[trigger] out@[row * (width as int)
            + col] == mapped@[row * (row_pitch as int) + col] by {
            lemma_rect_bytes_index(
                mapped@,
                0,
                row_pitch as int,
                width as int,
                height as int,
                row,
                col,
            );
            assert(row * (width as int) + col < (height as int) * (width as int))
                by (nonlinear_arith)
                requires
                    0 <= row < height && 0 <= col < width,
            ;
        }
        assert forall|row: int, col: int|
            0 <= row < (height as int) / 2 && 0 <= col < width implies #[trigger] out@[(
        height as int) * (width as int) + row * (width as int) + col] == mapped@[(height as int)
            * (row_pitch as int) + row * (row_pitch as int) + col] by {
            lemma_rect_bytes_index(
                mapped@,
                uv_base as int,
                row_pitch as int,
                width as int,
                uv_rows as int,
                row,
                col,
            );
            assert(0 <= row * (width as int) + col < (uv_rows as int) * (width as int))
                by (nonlinear_arith)
                requires
                    0 <= row < uv_rows && 0 <= col < width,
            ;
        }
    }
    out
}

} // verus!
