//! Read-back of a mapped staging surface: each row of the surface starts a
//! row pitch after the previous one, and the pitch may exceed the row's
//! pixel bytes because of alignment. The rows are copied, without the
//! padding, into a tightly packed RGBA8 buffer.
use vstd::prelude::*;
use vstd::arithmetic::div_mod::lemma_mod_multiples_vanish;

verus! {

/// Bytes per RGBA8 pixel.
pub const BYTES_PER_PIXEL: usize = 4;

/// Why a mapped surface cannot be read back.
#[derive(Clone, Copy, Debug, PartialEq, Eq, Structural)]
pub enum ReadbackError {
    /// The row pitch is shorter than a row of pixels.
    PitchTooSmall,
    /// The mapped bytes end before the last row does.
    SourceTooShort,
}

/// The first `rows` rows of `src`, each `row_bytes` long and starting a
/// multiple of `pitch` into it, one after the other.
pub open spec fn packed(src: Seq<u8>, pitch: nat, row_bytes: nat, rows: nat) -> Seq<u8>
    decreases rows,
{
    if rows == 0 {
        Seq::empty()
    } else {
        let y = (rows - 1) as nat;
        packed(src, pitch, row_bytes, y) + src.subrange((y * pitch) as int, (y * pitch + row_bytes) as int)
    }
}

/// How many mapped bytes `rows` rows span: every row but the last takes a
/// whole pitch.
pub open spec fn required_len(pitch: nat, row_bytes: nat, rows: nat) -> nat {
    if rows == 0 {
        0
    } else {
        ((rows - 1) as nat) * pitch + row_bytes
    }
}

/// `count` pixels, all of the four bytes of `color`.
pub open spec fn solid_pixels(count: nat, color: Seq<u8>) -> Seq<u8> {
    Seq::new(count * 4, |i: int| color[i % 4])
}

/// Every pixel of the `width` by `height` surface `src`, rows `pitch` apart,
/// holds `color`; the padding after each row may hold anything.
pub open spec fn surface_is_solid(
    src: Seq<u8>,
    pitch: nat,
    width: nat,
    height: nat,
    color: Seq<u8>,
) -> bool {
    forall|y: int, x: int|
        0 <= y < height && 0 <= x < 4 * width ==> #[trigger] src[y * pitch + x] == color[x % 4]
}

/// The packed rows are `rows * row_bytes` long.
pub proof fn lemma_packed_len(src: Seq<u8>, pitch: nat, row_bytes: nat, rows: nat)
    requires
        pitch >= row_bytes,
        src.len() >= required_len(pitch, row_bytes, rows),
    ensures
        packed(src, pitch, row_bytes, rows).len() == rows * row_bytes,
    decreases rows,
{
    if rows > 0 {
        let y = (rows - 1) as nat;
        if y > 0 {
            assert(((y - 1) as nat) * pitch + row_bytes <= y * pitch + row_bytes) by (nonlinear_arith)
                requires
                    y > 0,
            ;
        }
        lemma_packed_len(src, pitch, row_bytes, y);
        assert(rows * row_bytes == y * row_bytes + row_bytes) by (nonlinear_arith)
            requires
                y == rows - 1,
        ;
    } else {
        assert(rows * row_bytes == 0) by (nonlinear_arith)
            requires
                rows == 0,
        ;
    }
}

/// Reading back a surface whose every pixel holds one color gives that color
/// for every pixel, whatever the padding between rows holds.
pub proof fn lemma_solid_round_trip(
    src: Seq<u8>,
    pitch: nat,
    width: nat,
    height: nat,
    color: Seq<u8>,
)
    requires
        color.len() == 4,
        pitch >= 4 * width,
        src.len() >= required_len(pitch, 4 * width, height),
        surface_is_solid(src, pitch, width, height, color),
    ensures
        packed(src, pitch, 4 * width, height) == solid_pixels(width * height, color),
    decreases height,
{
    if height > 0 {
        let y = (height - 1) as nat;
        if y > 0 {
            assert(((y - 1) as nat) * pitch + 4 * width <= y * pitch + 4 * width)
                by (nonlinear_arith)
                requires
                    y > 0,
            ;
        }
        assert(surface_is_solid(src, pitch, width, y, color));
        lemma_solid_round_trip(src, pitch, width, y, color);
        lemma_packed_len(src, pitch, 4 * width, y);
        let prefix = packed(src, pitch, 4 * width, y);
        let row = src.subrange((y * pitch) as int, (y * pitch + 4 * width) as int);
        assert(width * height * 4 == width * y * 4 + 4 * width) by (nonlinear_arith)
            requires
                y == height - 1,
        ;
        assert(y * (4 * width) == width * y * 4) by (nonlinear_arith);
        assert forall|i: int| 0 <= i < width * height * 4 implies #[trigger] (prefix + row)[i]
            == color[i % 4] by {
            if i >= width * y * 4 {
                let x = i - width * y * 4;
                lemma_mod_multiples_vanish((width * y) as int, x, 4);
                assert(4 * (width * y) + x == i) by (nonlinear_arith)
                    requires
                        x == i - width * y * 4,
                ;
                assert(row[x] == src[(y * pitch) as int + x]);
            }
        }
        assert(prefix + row =~= solid_pixels(width * height, color));
    } else {
        assert(width * height * 4 == 0) by (nonlinear_arith)
            requires
                height == 0,
        ;
        assert(packed(src, pitch, 4 * width, height) =~= solid_pixels(width * height, color));
    }
}

/// How many bytes a mapped surface of `height` rows of `width` pixels,
/// `row_pitch` apart, spans; `None` when that does not fit in a `usize`.
pub fn required_bytes(row_pitch: usize, width: usize, height: usize) -> (r: Option<usize>)
    ensures
        match r {
            Some(n) => n == required_len(row_pitch as nat, 4 * width as nat, height as nat),
            None => required_len(row_pitch as nat, 4 * width as nat, height as nat) > usize::MAX,
        },
{
    if height == 0 {
        return Some(0);
    }
    let row_bytes = match width.checked_mul(BYTES_PER_PIXEL) {
        Some(b) => b,
        None => {
            assert(((height - 1) as nat) * (row_pitch as nat) >= 0) by (nonlinear_arith);
            return None;
        },
    };
    match (height - 1).checked_mul(row_pitch) {
        Some(n) => n.checked_add(row_bytes),
        None => None,
    }
}

/// Copies the `height` rows of a mapped surface, `row_pitch` bytes apart,
/// into a packed buffer of `width` RGBA8 pixels per row. Fails when the pitch
/// is shorter than a row of pixels, or else when `src` ends before the last
/// row does.
pub fn pack_rows(src: &Vec<u8>, row_pitch: usize, width: usize, height: usize) -> (r: Result<
    Vec<u8>,
    ReadbackError,
>)
    ensures
        match r {
            Ok(out) => {
                &&& row_pitch >= 4 * width
                &&& src@.len() >= required_len(row_pitch as nat, 4 * width as nat, height as nat)
                &&& out@ == packed(src@, row_pitch as nat, 4 * width as nat, height as nat)
                &&& out@.len() == 4 * width * height
            },
            Err(ReadbackError::PitchTooSmall) => row_pitch < 4 * width,
            Err(ReadbackError::SourceTooShort) => {
                &&& row_pitch >= 4 * width
                &&& src@.len() < required_len(row_pitch as nat, 4 * width as nat, height as nat)
            },
        },
{
    let len = src.len();
    let row_bytes = match width.checked_mul(BYTES_PER_PIXEL) {
        Some(b) => b,
        None => return Err(ReadbackError::PitchTooSmall),
    };
    if row_pitch < row_bytes {
        return Err(ReadbackError::PitchTooSmall);
    }
    match required_bytes(row_pitch, width, height) {
        Some(n) => {
            if len < n {
                return Err(ReadbackError::SourceTooShort);
            }
        },
        None => {
            return Err(ReadbackError::SourceTooShort);
        },
    }
    let ghost pitch = row_pitch as nat;
    let ghost rb = row_bytes as nat;
    let mut out: Vec<u8> = Vec::new();
    let mut y: usize = 0;
    while y < height
        invariant
            y <= height,
            row_bytes == 4 * width,
            row_pitch >= row_bytes,
            src@.len() >= required_len(pitch, rb, height as nat),
            len == src@.len(),
            pitch == row_pitch,
            rb == row_bytes,
            out@ == packed(src@, pitch, rb, y as nat),
        decreases height - y,
    {
        assert(y * row_pitch <= (height - 1) * row_pitch) by (nonlinear_arith)
            requires
                y < height,
        ;
        let start = y * row_pitch;
        let ghost before = out@;
        let mut x: usize = 0;
        while x < row_bytes
            invariant
                x <= row_bytes,
                start + row_bytes <= src@.len(),
                len == src@.len(),
                out@ == before + src@.subrange(start as int, start + x),
            decreases row_bytes - x,
        {
            out.push(src[start + x]);
            assert(src@.subrange(start as int, start + x + 1) =~= src@.subrange(
                start as int,
                start + x,
            ).push(src@[start + x]));
            x = x + 1;
        }
        y = y + 1;
    }
    proof {
        lemma_packed_len(src@, pitch, rb, height as nat);
        assert(height * rb == 4 * width * height) by (nonlinear_arith)
            requires
                rb == 4 * width,
        ;
    }
    Ok(out)
}

} // verus!
