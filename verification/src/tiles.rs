//! Tile geometry and the FNV-1a hashes by which changed tiles are found.

use vstd::arithmetic::div_mod::*;
use vstd::prelude::*;

verus! {

/// Tile size in pixels. 128 by 128 is small enough to find localised changes
/// and large enough for the JPEG transform to work efficiently.
pub const TILE_SIZE: u32 = 128;

/// The offset basis of 64-bit FNV-1a.
pub const FNV_OFFSET: u64 = 0xcbf29ce484222325;

/// The prime of 64-bit FNV-1a.
pub const FNV_PRIME: u64 = 0x100000001b3;

/// A captured screen image: RGBA, four bytes per pixel, row by row from the
/// top left.
pub struct Frame {
    pub width: u32,
    pub height: u32,
    pub pixels: Vec<u8>,
}

/// A rectangle of a frame, in pixels.
#[derive(Clone, Copy, Debug, PartialEq, Eq, Structural)]
pub struct TileRect {
    pub x: u32,
    pub y: u32,
    pub w: u32,
    pub h: u32,
}

impl Frame {
    /// The buffer holds every pixel, and the length of a row can be written down.
    pub open spec fn holds_pixels(&self) -> bool {
        &&& 4 * (self.width * self.height) <= self.pixels@.len()
        &&& 4 * self.width <= usize::MAX
    }

    /// The buffer holds every pixel, and the number of the first pixel of the
    /// last row of every tile fits in 32 bits.
    pub open spec fn wf(&self) -> bool {
        &&& self.holds_pixels()
        &&& self.width > 0 && self.height > 0 ==> (self.height - 1) * self.width + (self.width - 1)
            / 128 * 128 <= u32::MAX
    }

    /// A frame over a buffer of pixels, if the buffer holds them all and the
    /// screen is small enough for pixels to be numbered in 32 bits.
    pub fn new(width: u32, height: u32, pixels: Vec<u8>) -> (res: Option<Frame>)
        ensures
            res matches Some(f) ==> f.wf() && f.width == width && f.height == height && f.pixels
                == pixels,
            res is None ==> !(Frame { width, height, pixels }).wf(),
            res is Some <==> {
                &&& 4 * (width * height) <= pixels@.len()
                &&& 4 * width <= usize::MAX
                &&& width > 0 && height > 0 ==> (height - 1) * width + (width - 1) / 128 * 128
                    <= u32::MAX
            },
    {
        let w: u64 = width as u64;
        let h: u64 = height as u64;
        proof {
            assert(0 <= w * h <= 0xffff_fffe_0000_0001) by (nonlinear_arith)
                requires
                    0 <= w <= 0xffff_ffff,
                    0 <= h <= 0xffff_ffff,
            ;
            if h > 0 {
                assert((h - 1) * w == w * h - w) by (nonlinear_arith);
            }
            assert(w * h == width * height);
        }
        let count: u64 = w * h;
        if count > pixels.len() as u64 / 4 || w > usize::MAX as u64 / 4 {
            return None;
        }
        if width > 0 && height > 0 && (count - w) + (w - 1) / 128 * 128 > 0xffff_ffff {
            return None;
        }
        Some(Frame { width, height, pixels })
    }
}

/// The number of tiles that cover `extent` pixels.
pub open spec fn tiles_across(extent: u32) -> int {
    (extent + TILE_SIZE - 1) / TILE_SIZE as int
}

/// The number of tiles of a screen.
pub open spec fn tile_count(width: u32, height: u32) -> int {
    tiles_across(width) * tiles_across(height)
}

/// The extent of the tile that starts at `start`: a full tile, cut off at the
/// edge of the screen.
pub open spec fn tile_extent(extent: u32, start: int) -> int {
    if extent - start < TILE_SIZE {
        extent - start
    } else {
        TILE_SIZE as int
    }
}

/// The rectangle of the tile in column `tx` and row `ty`.
pub open spec fn tile_at(width: u32, height: u32, tx: int, ty: int) -> TileRect {
    TileRect {
        x: (tx * TILE_SIZE) as u32,
        y: (ty * TILE_SIZE) as u32,
        w: tile_extent(width, tx * TILE_SIZE) as u32,
        h: tile_extent(height, ty * TILE_SIZE) as u32,
    }
}

/// The rectangle of the tile numbered `i`, counted row by row.
pub open spec fn tile_rect(width: u32, height: u32, i: int) -> TileRect {
    tile_at(width, height, i % tiles_across(width), i / tiles_across(width))
}

/// One step of FNV-1a.
pub open spec fn fnv1a_step(hash: u64, byte: u8) -> u64 {
    (((hash ^ byte as u64) as nat * FNV_PRIME as nat) % 0x1_0000_0000_0000_0000nat) as u64
}

/// FNV-1a over `bytes`, continued from `hash`.
pub open spec fn fnv1a_from(hash: u64, bytes: Seq<u8>) -> u64
    decreases bytes.len(),
{
    if bytes.len() == 0 {
        hash
    } else {
        fnv1a_step(fnv1a_from(hash, bytes.drop_last()), bytes.last())
    }
}

/// The 64-bit FNV-1a hash of `bytes`.
pub open spec fn fnv1a(bytes: Seq<u8>) -> u64 {
    fnv1a_from(FNV_OFFSET, bytes)
}

/// The byte offset of a pixel in a buffer of rows of `img_width` pixels.
pub open spec fn pixel_offset(img_width: u32, x: int, y: int) -> int {
    (y * img_width + x) * 4
}

/// The bytes of a rectangle: its rows from top to bottom, one after the other.
pub open spec fn rect_bytes(raw: Seq<u8>, img_width: u32, x: u32, y: u32, w: u32, h: nat) -> Seq<u8>
    decreases h,
{
    if h == 0 {
        Seq::empty()
    } else {
        let start = pixel_offset(img_width, x as int, y + h - 1);
        rect_bytes(raw, img_width, x, y, w, (h - 1) as nat) + raw.subrange(start, start + 4 * w)
    }
}

/// The last row of the rectangle ends inside the buffer, and the number of its
/// first pixel fits in 32 bits.
pub open spec fn rect_in_bounds(len: int, img_width: u32, x: u32, y: u32, w: u32, h: u32) -> bool {
    h > 0 ==> {
        &&& y + h - 1 <= u32::MAX
        &&& (y + h - 1) * img_width + x <= u32::MAX
        &&& pixel_offset(img_width, x as int, y + h - 1) + 4 * w <= len
    }
}

/// The tiles of a screen, row by row.
pub open spec fn frame_tiles(width: u32, height: u32) -> Seq<TileRect> {
    Seq::new(tile_count(width, height) as nat, |i: int| tile_rect(width, height, i))
}

/// The rectangle is not empty, lies inside the frame, and its rows can be read.
pub open spec fn tile_fits(img: Frame, r: TileRect) -> bool {
    &&& 0 < r.w
    &&& 0 < r.h
    &&& r.x + r.w <= img.width
    &&& r.y + r.h <= img.height
    &&& rect_in_bounds(img.pixels@.len() as int, img.width, r.x, r.y, r.w, r.h)
}

/// The rectangle lies inside the frame, and its first byte not behind the end of
/// the buffer.
pub open spec fn rect_inside(img: Frame, r: TileRect) -> bool {
    &&& r.x + r.w <= img.width
    &&& r.y + r.h <= img.height
    &&& pixel_offset(img.width, r.x as int, r.y as int) <= img.pixels@.len()
}

/// The hash of one tile of a frame.
pub open spec fn tile_hash(img: Frame, r: TileRect) -> u64 {
    fnv1a(rect_bytes(img.pixels@, img.width, r.x, r.y, r.w, r.h as nat))
}

/// The hashes of all tiles of a frame, row by row.
pub open spec fn frame_hashes(img: Frame) -> Seq<u64> {
    Seq::new(
        tile_count(img.width, img.height) as nat,
        |i: int| tile_hash(img, tile_rect(img.width, img.height, i)),
    )
}

proof fn lemma_fnv1a_append(hash: u64, bytes: Seq<u8>, byte: u8)
    ensures
        fnv1a_from(hash, bytes.push(byte)) == fnv1a_step(fnv1a_from(hash, bytes), byte),
{
    assert(bytes.push(byte).drop_last() =~= bytes);
}

/// Hashing two pieces one after the other is hashing them joined.
proof fn lemma_fnv1a_concat(hash: u64, front: Seq<u8>, back: Seq<u8>)
    ensures
        fnv1a_from(hash, front + back) == fnv1a_from(fnv1a_from(hash, front), back),
    decreases back.len(),
{
    if back.len() == 0 {
        assert(front + back =~= front);
    } else {
        lemma_fnv1a_concat(hash, front, back.drop_last());
        assert((front + back).drop_last() =~= front + back.drop_last());
    }
}

/// A row above the last one starts and ends no later than the last one.
proof fn lemma_row_in_bounds(len: int, img_width: u32, x: u32, y: u32, w: u32, h: u32, dy: int)
    requires
        rect_in_bounds(len, img_width, x, y, w, h),
        0 <= dy < h,
    ensures
        y + dy <= u32::MAX,
        0 <= (y + dy) * img_width,
        (y + dy) * img_width + x <= u32::MAX,
        pixel_offset(img_width, x as int, y + dy) + 4 * w <= len,
{
    assert(0 <= (y + dy) * img_width <= (y + h - 1) * img_width) by (nonlinear_arith)
        requires
            0 <= dy < h,
            0 <= y,
            0 <= img_width,
    ;
}

/// Continues an FNV-1a hash over `raw[start..end]`.
fn hash_range(hash: u64, raw: &[u8], start: usize, end: usize) -> (res: u64)
    requires
        start <= end <= raw@.len(),
    ensures
        res == fnv1a_from(hash, raw@.subrange(start as int, end as int)),
{
    let mut res: u64 = hash;
    let mut i: usize = start;
    while i < end
        invariant
            start <= i <= end <= raw@.len(),
            res == fnv1a_from(hash, raw@.subrange(start as int, i as int)),
        decreases end - i,
    {
        let byte: u8 = raw[i];
        proof {
            lemma_fnv1a_append(hash, raw@.subrange(start as int, i as int), byte);
            assert(raw@.subrange(start as int, i + 1) =~= raw@.subrange(
                start as int,
                i as int,
            ).push(byte));
        }
        res = (res ^ byte as u64).wrapping_mul(FNV_PRIME);
        i = i + 1;
    }
    res
}

/// Fast FNV-1a hash of a single tile's raw bytes.
pub fn hash_tile(raw: &[u8], img_width: u32, x: u32, y: u32, w: u32, h: u32) -> (hash: u64)
    requires
        rect_in_bounds(raw@.len() as int, img_width, x, y, w, h),
    ensures
        hash == fnv1a(rect_bytes(raw@, img_width, x, y, w, h as nat)),
{
    let len: usize = raw.len();
    let mut hash: u64 = FNV_OFFSET;
    let mut dy: u32 = 0;
    while dy < h
        invariant
            dy <= h,
            len == raw@.len(),
            rect_in_bounds(raw@.len() as int, img_width, x, y, w, h),
            hash == fnv1a(rect_bytes(raw@, img_width, x, y, w, dy as nat)),
        decreases h - dy,
    {
        proof {
            lemma_row_in_bounds(raw@.len() as int, img_width, x, y, w, h, dy as int);
        }
        let row_start: usize = ((y + dy) * img_width + x) as usize * 4;
        let row_end: usize = row_start + w as usize * 4;
        hash = hash_range(hash, raw, row_start, row_end);
        dy = dy + 1;
        proof {
            lemma_fnv1a_concat(
                FNV_OFFSET,
                rect_bytes(raw@, img_width, x, y, w, (dy - 1) as nat),
                raw@.subrange(row_start as int, row_end as int),
            );
        }
    }
    hash
}

/// Every tile of a frame lies inside it, and its bytes inside the buffer.
pub proof fn lemma_tile_fits(img: Frame, tx: int, ty: int)
    requires
        img.wf(),
        0 <= tx < tiles_across(img.width),
        0 <= ty < tiles_across(img.height),
    ensures
        0 <= tx * TILE_SIZE < img.width,
        0 <= ty * TILE_SIZE < img.height,
        0 < tile_extent(img.width, tx * TILE_SIZE) <= TILE_SIZE,
        0 < tile_extent(img.height, ty * TILE_SIZE) <= TILE_SIZE,
        tile_fits(img, tile_at(img.width, img.height, tx, ty)),
{
    let r = tile_at(img.width, img.height, tx, ty);
    let row = r.y + r.h - 1;
    assert(0 <= row * img.width <= (img.height - 1) * img.width) by (nonlinear_arith)
        requires
            0 <= row <= img.height - 1,
            0 <= img.width,
    ;
    assert((img.height - 1) * img.width == img.width * img.height - img.width)
        by (nonlinear_arith);
}

/// The tile in column `tx` and row `ty` is the one numbered
/// `ty * columns + tx`.
proof fn lemma_tile_number(width: u32, height: u32, tx: int, ty: int)
    requires
        0 <= tx < tiles_across(width),
        0 <= ty < tiles_across(height),
    ensures
        0 <= ty * tiles_across(width) + tx < tile_count(width, height),
        tile_rect(width, height, ty * tiles_across(width) + tx) == tile_at(width, height, tx, ty),
{
    let columns = tiles_across(width);
    lemma_fundamental_div_mod_converse(ty * columns + tx, columns, ty, tx);
    assert(0 <= ty * columns && ty * columns + columns <= columns * tiles_across(height))
        by (nonlinear_arith)
        requires
            0 <= ty < tiles_across(height),
            0 <= columns,
    ;
}

/// A tile's number gives its column and row back.
proof fn lemma_tile_position(width: u32, height: u32, i: int)
    requires
        0 <= i < tile_count(width, height),
    ensures
        0 <= i % tiles_across(width) < tiles_across(width),
        0 <= i / tiles_across(width) < tiles_across(height),
{
    let columns = tiles_across(width);
    let rows = tiles_across(height);
    assert(columns > 0) by (nonlinear_arith)
        requires
            0 <= i < columns * rows,
            columns >= 0,
    ;
    assert(0 <= i % columns < columns && 0 <= i / columns < rows) by (nonlinear_arith)
        requires
            0 <= i < columns * rows,
            columns > 0,
    ;
}

/// Every tile, by its number, lies inside the frame.
pub proof fn lemma_tile_rect_fits(img: Frame, i: int)
    requires
        img.wf(),
        0 <= i < tile_count(img.width, img.height),
    ensures
        tile_fits(img, tile_rect(img.width, img.height, i)),
{
    lemma_tile_position(img.width, img.height, i);
    lemma_tile_fits(img, i % tiles_across(img.width), i / tiles_across(img.width));
}

/// Every tile is a square of 128 by 128 pixels, or what is left of one at the
/// right and the bottom edge; its number is told by where it lies.
pub proof fn law_tiles_are_squares_cut_off_at_the_edges(img: Frame, i: int)
    requires
        img.wf(),
        0 <= i < tile_count(img.width, img.height),
    ensures
        ({
            let r = tile_rect(img.width, img.height, i);
            &&& r.x % 128 == 0 && r.y % 128 == 0
            &&& r.x + 128 <= img.width ==> r.w == 128
            &&& r.x + 128 > img.width ==> r.x + r.w == img.width && r.w > 0
            &&& r.y + 128 <= img.height ==> r.h == 128
            &&& r.y + 128 > img.height ==> r.y + r.h == img.height && r.h > 0
            &&& r.y / 128 * tiles_across(img.width) + r.x / 128 == i
        }),
{
    let columns = tiles_across(img.width);
    lemma_tile_position(img.width, img.height, i);
    lemma_tile_fits(img, i % columns, i / columns);
    lemma_fundamental_div_mod(i, columns);
    assert(columns * (i / columns) == i / columns * columns) by (nonlinear_arith);
}

/// Every screen whose pixels can be numbered in 32 bits, and whose buffer holds
/// them, can be captured.
pub proof fn law_ordinary_screens_can_be_captured(img: Frame)
    requires
        img.width * img.height <= u32::MAX,
        4 * (img.width * img.height) <= img.pixels@.len(),
        4 * img.width <= usize::MAX,
    ensures
        img.wf(),
{
    if img.width > 0 && img.height > 0 {
        assert((img.height - 1) * img.width == img.width * img.height - img.width)
            by (nonlinear_arith);
    }
}

/// A tile lies inside its frame.
pub proof fn lemma_tile_inside(img: Frame, r: TileRect)
    requires
        tile_fits(img, r),
    ensures
        rect_inside(img, r),
{
    lemma_row_in_bounds(img.pixels@.len() as int, img.width, r.x, r.y, r.w, r.h, 0);
}

/// All tiles of a frame, row by row.
pub fn tiles_of(img: &Frame) -> (rects: Vec<TileRect>)
    requires
        img.wf(),
    ensures
        rects@ == frame_tiles(img.width, img.height),
        rects@.len() == tile_count(img.width, img.height),
        forall|i: int|
            0 <= i < rects@.len() ==> #[trigger] rects@[i] == tile_rect(img.width, img.height, i),
        forall|i: int| 0 <= i < rects@.len() ==> tile_fits(*img, #[trigger] rects@[i]),
{
    let (columns, rows) = tile_grid(img.width, img.height);
    let mut rects: Vec<TileRect> = Vec::new();
    let mut ty: u32 = 0;
    assert(0 * tiles_across(img.width) == 0);
    while ty < rows
        invariant
            ty <= rows,
            img.wf(),
            columns == tiles_across(img.width),
            rows == tiles_across(img.height),
            rects@.len() == ty * columns,
            forall|i: int|
                0 <= i < rects@.len() ==> #[trigger] rects@[i] == tile_rect(
                    img.width,
                    img.height,
                    i,
                ) && tile_fits(*img, rects@[i]),
        decreases rows - ty,
    {
        let mut tx: u32 = 0;
        while tx < columns
            invariant
                tx <= columns,
                ty < rows,
                img.wf(),
                columns == tiles_across(img.width),
                rows == tiles_across(img.height),
                rects@.len() == ty * columns + tx,
                forall|i: int|
                    0 <= i < rects@.len() ==> #[trigger] rects@[i] == tile_rect(
                        img.width,
                        img.height,
                        i,
                    ) && tile_fits(*img, rects@[i]),
            decreases columns - tx,
        {
            proof {
                lemma_tile_fits(*img, tx as int, ty as int);
                lemma_tile_number(img.width, img.height, tx as int, ty as int);
            }
            let x: u32 = tx * TILE_SIZE;
            let y: u32 = ty * TILE_SIZE;
            let w: u32 = if img.width - x < TILE_SIZE { img.width - x } else { TILE_SIZE };
            let h: u32 = if img.height - y < TILE_SIZE { img.height - y } else { TILE_SIZE };
            rects.push(TileRect { x, y, w, h });
            tx = tx + 1;
        }
        assert((ty + 1) * columns == ty * columns + columns) by (nonlinear_arith);
        ty = ty + 1;
    }
    assert(rows * columns == columns * rows) by (nonlinear_arith);
    assert(rects@ =~= frame_tiles(img.width, img.height));
    rects
}

/// The hashes of all tiles of a frame, row by row.
pub fn hash_tiles(img: &Frame) -> (hashes: Vec<u64>)
    requires
        img.wf(),
    ensures
        hashes@ == frame_hashes(*img),
        hashes@.len() == tile_count(img.width, img.height),
        forall|i: int|
            0 <= i < hashes@.len() ==> #[trigger] hashes@[i] == tile_hash(
                *img,
                tile_rect(img.width, img.height, i),
            ),
{
    let rects = tiles_of(img);
    let mut hashes: Vec<u64> = Vec::new();
    let mut i: usize = 0;
    while i < rects.len()
        invariant
            i <= rects@.len(),
            hashes@.len() == i,
            rects@ == frame_tiles(img.width, img.height),
            forall|j: int| 0 <= j < rects@.len() ==> tile_fits(*img, #[trigger] rects@[j]),
            forall|j: int| 0 <= j < i ==> #[trigger] hashes@[j] == tile_hash(*img, rects@[j]),
        decreases rects@.len() - i,
    {
        let r: TileRect = rects[i];
        hashes.push(hash_tile(img.pixels.as_slice(), img.width, r.x, r.y, r.w, r.h));
        i = i + 1;
    }
    assert(hashes@ =~= frame_hashes(*img));
    hashes
}

/// The number of tile columns and rows for a given screen resolution.
pub fn tile_grid(w: u32, h: u32) -> (grid: (u32, u32))
    ensures
        grid.0 == tiles_across(w),
        grid.1 == tiles_across(h),
        grid.0 * 128 - 128 < w <= grid.0 * 128,
        grid.1 * 128 - 128 < h <= grid.1 * 128,
{
    let columns: u32 = if w % TILE_SIZE == 0 { w / TILE_SIZE } else { w / TILE_SIZE + 1 };
    let rows: u32 = if h % TILE_SIZE == 0 { h / TILE_SIZE } else { h / TILE_SIZE + 1 };
    (columns, rows)
}

/// The inverse of the FNV prime modulo two to the 64.
spec fn fnv_prime_inverse() -> int {
    0xce965057aff6957b
}

/// Multiplication by the FNV prime modulo two to the 64 loses nothing.
proof fn lemma_fnv_prime_is_invertible(u: int, v: int)
    requires
        0 <= u < 0x1_0000_0000_0000_0000,
        0 <= v < 0x1_0000_0000_0000_0000,
        (u * FNV_PRIME) % 0x1_0000_0000_0000_0000 == (v * FNV_PRIME) % 0x1_0000_0000_0000_0000,
    ensures
        u == v,
{
    lemma_times_inverse(u);
    lemma_times_inverse(v);
}

proof fn lemma_times_inverse(u: int)
    requires
        0 <= u < 0x1_0000_0000_0000_0000,
    ensures
        (((u * FNV_PRIME) % 0x1_0000_0000_0000_0000) * fnv_prime_inverse()) % 0x1_0000_0000_0000_0000
            == u,
{
    let m: int = 0x1_0000_0000_0000_0000;
    lemma_mul_mod_noop_left(u * FNV_PRIME, fnv_prime_inverse(), m);
    assert(FNV_PRIME * fnv_prime_inverse() == 887285111055 * m + 1);
    assert(u * FNV_PRIME * fnv_prime_inverse() == (u * 887285111055) * m + u) by (nonlinear_arith)
        requires
            FNV_PRIME * fnv_prime_inverse() == 887285111055 * m + 1,
    ;
    lemma_fundamental_div_mod_converse(
        u * FNV_PRIME * fnv_prime_inverse(),
        m,
        u * 887285111055,
        u,
    );
}

/// A step of FNV-1a tells hashes and bytes apart: two steps that differ in
/// either the hash or the byte, and not in both, end in different hashes.
proof fn lemma_fnv1a_step_is_injective(h1: u64, b1: u8, h2: u64, b2: u8)
    requires
        (h1 == h2) != (b1 == b2),
    ensures
        fnv1a_step(h1, b1) != fnv1a_step(h2, b2),
{
    if fnv1a_step(h1, b1) == fnv1a_step(h2, b2) {
        lemma_fnv_prime_is_invertible((h1 ^ b1 as u64) as int, (h2 ^ b2 as u64) as int);
        assert((h1 == h2) == (b1 == b2)) by (bit_vector)
            requires
                (h1 ^ b1 as u64) == (h2 ^ b2 as u64),
        ;
    }
}

/// The two sequences have the same length and differ at index `i` and nowhere
/// else.
pub open spec fn differ_only_at(a: Seq<u8>, b: Seq<u8>, i: int) -> bool {
    &&& a.len() == b.len()
    &&& 0 <= i < a.len()
    &&& a[i] != b[i]
    &&& forall|j: int| 0 <= j < a.len() && j != i ==> a[j] == b[j]
}

/// A change of a single byte always changes the FNV-1a hash.
pub proof fn law_one_changed_byte_changes_the_hash(hash: u64, a: Seq<u8>, b: Seq<u8>, i: int)
    requires
        differ_only_at(a, b, i),
    ensures
        fnv1a_from(hash, a) != fnv1a_from(hash, b),
    decreases a.len(),
{
    let front_a = a.drop_last();
    let front_b = b.drop_last();
    if i == a.len() - 1 {
        assert(front_a =~= front_b);
    } else {
        law_one_changed_byte_changes_the_hash(hash, front_a, front_b, i);
    }
    lemma_fnv1a_step_is_injective(
        fnv1a_from(hash, front_a),
        a.last(),
        fnv1a_from(hash, front_b),
        b.last(),
    );
}

/// The pixel lies in the rectangle.
pub open spec fn rect_contains(r: TileRect, px: int, py: int) -> bool {
    r.x <= px < r.x + r.w && r.y <= py < r.y + r.h
}

/// The tiles cover the screen without overlap: every pixel lies in exactly one
/// of them.
pub proof fn law_tiles_partition_the_screen(img: Frame, px: int, py: int, i: int)
    requires
        img.wf(),
        0 <= px < img.width,
        0 <= py < img.height,
        0 <= i < tile_count(img.width, img.height),
    ensures
        0 <= py / 128 * tiles_across(img.width) + px / 128 < tile_count(img.width, img.height),
        rect_contains(tile_rect(img.width, img.height, i), px, py) <==> i == py / 128
            * tiles_across(img.width) + px / 128,
{
    let columns = tiles_across(img.width);
    let tx = i % columns;
    let ty = i / columns;
    lemma_tile_position(img.width, img.height, i);
    lemma_tile_fits(img, tx, ty);
    lemma_tile_number(img.width, img.height, px / 128, py / 128);
    lemma_tile_number(img.width, img.height, tx, ty);
    lemma_fundamental_div_mod_converse(
        py / 128 * columns + px / 128,
        columns,
        py / 128,
        px / 128,
    );
    lemma_fundamental_div_mod(i, columns);
    assert(columns * ty == ty * columns) by (nonlinear_arith);
}

/// The length of a rectangle's bytes.
proof fn lemma_rect_bytes_len(raw: Seq<u8>, img_width: u32, x: u32, y: u32, w: u32, h: nat)
    requires
        h <= u32::MAX,
        rect_in_bounds(raw.len() as int, img_width, x, y, w, h as u32),
    ensures
        rect_bytes(raw, img_width, x, y, w, h).len() == h * (4 * w),
    decreases h,
{
    if h > 0 {
        lemma_row_in_bounds(raw.len() as int, img_width, x, y, w, h as u32, h - 1);
        if h > 1 {
            lemma_row_in_bounds(raw.len() as int, img_width, x, y, w, h as u32, h - 2);
        }
        lemma_rect_bytes_len(raw, img_width, x, y, w, (h - 1) as nat);
        assert(h * (4 * w) == (h - 1) * (4 * w) + 4 * w) by (nonlinear_arith);
    } else {
        assert(h * (4 * w) == 0) by (nonlinear_arith)
            requires
                h == 0,
        ;
    }
}

/// The byte in column `k` of row `d` of a rectangle.
pub proof fn lemma_rect_bytes_index(
    raw: Seq<u8>,
    img_width: u32,
    x: u32,
    y: u32,
    w: u32,
    h: nat,
    d: int,
    k: int,
)
    requires
        h <= u32::MAX,
        rect_in_bounds(raw.len() as int, img_width, x, y, w, h as u32),
        0 <= d < h,
        0 <= k < 4 * w,
    ensures
        0 <= d * (4 * w) + k < rect_bytes(raw, img_width, x, y, w, h).len(),
        rect_bytes(raw, img_width, x, y, w, h)[d * (4 * w) + k] == raw[pixel_offset(
            img_width,
            x as int,
            y + d,
        ) + k],
    decreases h,
{
    lemma_rect_bytes_len(raw, img_width, x, y, w, h);
    lemma_row_in_bounds(raw.len() as int, img_width, x, y, w, h as u32, h - 1);
    if h > 1 {
        lemma_row_in_bounds(raw.len() as int, img_width, x, y, w, h as u32, h - 2);
    }
    lemma_rect_bytes_len(raw, img_width, x, y, w, (h - 1) as nat);
    assert(0 <= d * (4 * w) <= (h - 1) * (4 * w)) by (nonlinear_arith)
        requires
            0 <= d <= h - 1,
            0 <= w,
    ;
    if d < h - 1 {
        lemma_rect_bytes_index(raw, img_width, x, y, w, (h - 1) as nat, d, k);
    }
}

/// Two buffers that differ in one byte outside a rectangle hold the same bytes
/// in the rectangle; if the byte is inside, the rectangle's bytes differ in one
/// place.
proof fn lemma_rect_bytes_of_changed_byte(a: Frame, b: Frame, r: TileRect, p: int)
    requires
        a.wf(),
        b.wf(),
        a.width == b.width,
        a.height == b.height,
        differ_only_at(a.pixels@, b.pixels@, p),
        p < 4 * (a.width * a.height),
        tile_fits(a, r),
    ensures
        rect_contains(r, p / 4 % a.width as int, p / 4 / a.width as int) ==> tile_hash(a, r)
            != tile_hash(b, r),
        !rect_contains(r, p / 4 % a.width as int, p / 4 / a.width as int) ==> tile_hash(a, r)
            == tile_hash(b, r),
{
    let width = a.width as int;
    let px = p / 4 % width;
    let py = p / 4 / width;
    let sa = rect_bytes(a.pixels@, a.width, r.x, r.y, r.w, r.h as nat);
    let sb = rect_bytes(b.pixels@, b.width, r.x, r.y, r.w, r.h as nat);
    let row = 4 * r.w;
    lemma_rect_bytes_len(a.pixels@, a.width, r.x, r.y, r.w, r.h as nat);
    lemma_rect_bytes_len(b.pixels@, b.width, r.x, r.y, r.w, r.h as nat);
    lemma_fundamental_div_mod(p / 4, width);
    assert(width * py == py * width) by (nonlinear_arith);
    let q = (py - r.y) * row + (4 * (px - r.x) + p % 4);
    if rect_contains(r, px, py) {
        lemma_rect_bytes_index(
            a.pixels@,
            a.width,
            r.x,
            r.y,
            r.w,
            r.h as nat,
            py - r.y,
            4 * (px - r.x) + p % 4,
        );
        lemma_rect_bytes_index(
            b.pixels@,
            b.width,
            r.x,
            r.y,
            r.w,
            r.h as nat,
            py - r.y,
            4 * (px - r.x) + p % 4,
        );
        assert(pixel_offset(a.width, r.x as int, py) + (4 * (px - r.x) + p % 4) == p);
    }
    assert forall|j: int| 0 <= j < sa.len() && !(rect_contains(r, px, py) && j == q) implies sa[j]
        == sb[j] by {
        let d = j / row;
        let k = j % row;
        lemma_fundamental_div_mod(j, row);
        assert(row * d == d * row) by (nonlinear_arith);
        assert(0 <= d < r.h) by (nonlinear_arith)
            requires
                0 <= j < r.h * row,
                d == j / row,
                row > 0,
        ;
        lemma_rect_bytes_index(a.pixels@, a.width, r.x, r.y, r.w, r.h as nat, d, k);
        lemma_rect_bytes_index(b.pixels@, b.width, r.x, r.y, r.w, r.h as nat, d, k);
        let o = pixel_offset(a.width, r.x as int, r.y + d) + k;
        lemma_row_in_bounds(a.pixels@.len() as int, a.width, r.x, r.y, r.w, r.h, d);
        if o == p {
            lemma_fundamental_div_mod_converse(p / 4, width, r.y + d, r.x + k / 4);
            assert(px == r.x + k / 4);
            assert(py == r.y + d);
            assert(rect_contains(r, px, py));
            assert(j == q);
        }
    }
    if rect_contains(r, px, py) {
        assert(differ_only_at(sa, sb, q));
        law_one_changed_byte_changes_the_hash(FNV_OFFSET, sa, sb, q);
    } else {
        assert(sa =~= sb);
    }
}

/// A change of one byte of a picture changes the hash of the tile that holds
/// it, and of no other tile.
pub proof fn law_one_changed_byte_changes_one_tile(a: Frame, b: Frame, p: int, i: int)
    requires
        a.wf(),
        b.wf(),
        a.width == b.width,
        a.height == b.height,
        differ_only_at(a.pixels@, b.pixels@, p),
        p < 4 * (a.width * a.height),
        0 <= i < tile_count(a.width, a.height),
    ensures
        frame_hashes(a)[i] != frame_hashes(b)[i] <==> rect_contains(
            tile_rect(a.width, a.height, i),
            p / 4 % a.width as int,
            p / 4 / a.width as int,
        ),
{
    lemma_tile_rect_fits(a, i);
    lemma_rect_bytes_of_changed_byte(a, b, tile_rect(a.width, a.height, i), p);
}

} // verus!
