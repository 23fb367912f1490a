//! Export geometry (tiles of a still and how their pixels assemble the
//! image), camera-path anchors, the catalogue of animatable family settings
//! and the rules animation settings are validated by.

use vstd::prelude::*;

use crate::family::FractalFamily;
use crate::text::{blank, concat, is_blank, spec_decimal, with_number};

verus! {

/// Largest dimension of one rendered frame or tile.
pub const MAX_DIMENSION: u32 = 8_192;
/// Largest still-image dimension; images beyond `MAX_DIMENSION` render as
/// tiles around the same reference orbit.
pub const MAX_STILL_DIMENSION: u32 = 16_384;
/// Most frames one animation may hold.
pub const MAX_FRAMES: usize = 100_000;
/// Most captured camera waypoints.
pub const MAX_WAYPOINTS: usize = 64;
/// Most keys of one parameter curve.
pub const MAX_CURVE_KEYS: usize = 64;

/// The tile size actually used: a zero request counts as one.
pub open spec fn effective_tile(max_tile: u32) -> nat {
    if max_tile == 0 { 1 } else { max_tile as nat }
}

/// The fewest tiles of at most `max_tile` that cover `extent` (at least one).
pub open spec fn tile_count(extent: u32, max_tile: u32) -> nat {
    let m = effective_tile(max_tile);
    let ceiling = extent as nat / m + if extent as nat % m != 0 { 1nat } else { 0nat };
    if ceiling == 0 { 1 } else { ceiling }
}

/// Offset and size of tile `index` when `extent` is split into `count` tiles
/// whose sizes differ by at most one, the larger ones first.
pub open spec fn tile_span(extent: u32, count: nat, index: nat) -> (nat, nat) {
    let base = extent as nat / count;
    let remainder = extent as nat % count;
    (
        index * base + if index < remainder { index } else { remainder },
        base + if index < remainder { 1nat } else { 0nat },
    )
}

proof fn lemma_tile_arithmetic(extent: nat, m: nat, count: nat)
    requires
        m >= 1,
        count == (if extent / m + (if extent % m != 0 { 1nat } else { 0nat }) == 0 { 1nat } else { extent / m + (if extent % m != 0 { 1nat } else { 0nat }) }),
    ensures
        count >= 1,
        count <= extent || extent == 0,
        extent <= count * m,
        extent > 0 ==> (count - 1) * m < extent,
        (extent / count) * count + extent % count == extent,
        extent % count < count,
        extent % count > 0 ==> extent / count + 1 <= m,
        extent / count <= m,
{
    let q = extent / m;
    let r = extent % m;
    assert(q * m + r == extent && r < m) by (nonlinear_arith)
        requires m >= 1, q == extent / m, r == extent % m;
    let b = extent / count;
    let s = extent % count;
    assert(count >= 1);
    assert(b * count + s == extent && s < count) by (nonlinear_arith)
        requires count >= 1, b == extent / count, s == extent % count;
    if extent == 0 {
        assert(count == 1);
        assert(b == 0) by (nonlinear_arith) requires b * count + s == 0, s < count, count >= 1, b >= 0;
    } else {
        assert(extent <= count * m) by (nonlinear_arith)
            requires q * m + r == extent, r < m, count == q + (if r != 0 { 1nat } else { 0nat }), count >= 1;
        assert((count - 1) * m < extent) by (nonlinear_arith)
            requires q * m + r == extent, r < m, count == q + (if r != 0 { 1nat } else { 0nat }), count >= 1, extent > 0, m >= 1;
        assert(count <= extent) by (nonlinear_arith)
            requires (count - 1) * m < extent, m >= 1, count >= 1;
        assert(b <= m) by (nonlinear_arith)
            requires b * count + s == extent, extent <= count * m, count >= 1, s >= 0;
        if s > 0 {
            assert(b + 1 <= m) by (nonlinear_arith)
                requires b * count + s == extent, extent <= count * m, count >= 1, s > 0;
        }
    }
}

/// Splits `extent` pixels into the fewest tiles of at most `max_tile` pixels
/// (a zero `max_tile` counts as one), with sizes differing by at most one.
/// Returns `(offset, size)` per tile.
pub fn tile_spans(extent: u32, max_tile: u32) -> (spans: Vec<(u32, u32)>)
    ensures
        spans@.len() == tile_count(extent, max_tile),
        forall|i: int| 0 <= i < spans@.len() ==> {
            let span = tile_span(extent, tile_count(extent, max_tile), i as nat);
            (#[trigger] spans@[i]).0 as nat == span.0 && spans@[i].1 as nat == span.1
        },
{
    let max_tile = if max_tile == 0 { 1 } else { max_tile };
    proof {
        let q = extent as nat / max_tile as nat;
        if extent as nat % max_tile as nat != 0 {
            assert(max_tile > 1);
            assert(q < u32::MAX) by (nonlinear_arith)
                requires max_tile > 1, q == extent as nat / max_tile as nat, extent <= u32::MAX;
        }
    }
    let ceiling = extent / max_tile + if extent % max_tile != 0 { 1 } else { 0 };
    let count: u32 = if ceiling == 0 { 1 } else { ceiling };
    proof {
        lemma_tile_arithmetic(extent as nat, max_tile as nat, count as nat);
    }
    let base = extent / count;
    let remainder = extent % count;
    let mut spans: Vec<(u32, u32)> = Vec::with_capacity(count as usize);
    let mut offset: u32 = 0;
    let mut index: u32 = 0;
    while index < count
        invariant
            count as nat == tile_count(extent, max_tile),
            count >= 1,
            base == extent as nat / count as nat,
            remainder == extent as nat % count as nat,
            base * count + remainder == extent,
            remainder < count,
            remainder > 0 ==> base + 1 <= max_tile,
            index <= count,
            spans@.len() == index,
            offset as nat == tile_span(extent, count as nat, index as nat).0,
            forall|i: int| 0 <= i < spans@.len() ==> {
                let span = tile_span(extent, count as nat, i as nat);
                (#[trigger] spans@[i]).0 as nat == span.0 && spans@[i].1 as nat == span.1
            },
        decreases count - index,
    {
        let size = base + if index < remainder { 1 } else { 0 };
        proof {
            let i = index as nat;
            let b = base as nat;
            let r = remainder as nat;
            assert((i + 1) * b == i * b + b) by (nonlinear_arith);
            assert((i + 1) * b + (if i + 1 < r { i + 1 } else { r }) <= count as nat * b + r) by (nonlinear_arith)
                requires i < count as nat, r < count as nat;
            assert(count as nat * b == b * count as nat) by (nonlinear_arith);
            assert(offset as nat + size as nat == tile_span(extent, count as nat, i + 1).0);
        }
        spans.push((offset, size));
        offset = offset + size;
        index = index + 1;
    }
    spans
}

/// The tiles cover `[0, extent)` in order, without gaps or overlap: the
/// first starts at 0, each starts where the previous ended, and the last
/// ends at `extent`. No tile exceeds the tile size, sizes differ by at most
/// one, and no fewer tiles of that size could cover the extent.
pub proof fn tile_spans_partition_the_extent(extent: u32, max_tile: u32)
    ensures
        ({
            let count = tile_count(extent, max_tile);
            let m = effective_tile(max_tile);
            &&& count >= 1
            &&& tile_span(extent, count, 0).0 == 0
            &&& forall|i: nat| #![trigger tile_span(extent, count, i)] i + 1 < count ==> tile_span(extent, count, i + 1).0
                == tile_span(extent, count, i).0 + tile_span(extent, count, i).1
            &&& tile_span(extent, count, (count - 1) as nat).0 + tile_span(extent, count, (count - 1) as nat).1 == extent
            &&& forall|i: nat| #![trigger tile_span(extent, count, i)] i < count ==> tile_span(extent, count, i).1 <= m
            &&& forall|i: nat, j: nat| #![trigger tile_span(extent, count, i), tile_span(extent, count, j)] i < count && j < count
                ==> tile_span(extent, count, i).1 <= tile_span(extent, count, j).1 + 1
            &&& extent <= count * m
            &&& extent > 0 ==> (count - 1) * m < extent
        }),
{
    let count = tile_count(extent, max_tile);
    let m = effective_tile(max_tile);
    lemma_tile_arithmetic(extent as nat, m, count);
    let b = extent as nat / count;
    let r = extent as nat % count;
    assert forall|i: nat| #![trigger tile_span(extent, count, i)] i + 1 < count implies tile_span(extent, count, i + 1).0
        == tile_span(extent, count, i).0 + tile_span(extent, count, i).1 by {
        assert((i + 1) * b == i * b + b) by (nonlinear_arith);
    }
    let last = (count - 1) as nat;
    assert(last * b + r + b == extent as nat) by (nonlinear_arith)
        requires b * count + r == extent as nat, last + 1 == count;
}

/// Whether tile `index` of `count` covering `extent` contains position `x`.
pub open spec fn span_contains(extent: u32, count: nat, index: nat, x: nat) -> bool {
    tile_span(extent, count, index).0 <= x < tile_span(extent, count, index).0 + tile_span(extent, count, index).1
}

/// Each tile ends where the next begins, and offsets never decrease.
proof fn lemma_span_offsets(extent: u32, count: nat, i: nat, j: nat)
    requires
        count >= 1,
        i <= j,
    ensures
        tile_span(extent, count, i).0 + tile_span(extent, count, i).1 == tile_span(extent, count, i + 1).0,
        tile_span(extent, count, i).0 <= tile_span(extent, count, j).0,
{
    let b = extent as nat / count;
    let r = extent as nat % count;
    assert((i + 1) * b == i * b + b) by (nonlinear_arith);
    assert(i * b <= j * b) by (nonlinear_arith)
        requires i <= j;
}

/// Every position inside the extent lies in exactly one tile.
proof fn lemma_span_unique(extent: u32, max_tile: u32, x: nat)
    requires
        x < extent,
    ensures
        exists|i: nat| i < tile_count(extent, max_tile) && #[trigger] span_contains(extent, tile_count(extent, max_tile), i, x),
        forall|i: nat, j: nat|
            #![trigger span_contains(extent, tile_count(extent, max_tile), i, x), span_contains(extent, tile_count(extent, max_tile), j, x)]
            span_contains(extent, tile_count(extent, max_tile), i, x) && span_contains(extent, tile_count(extent, max_tile), j, x)
                ==> i == j,
{
    let count = tile_count(extent, max_tile);
    tile_spans_partition_the_extent(extent, max_tile);
    lemma_span_offsets(extent, count, (count - 1) as nat, (count - 1) as nat);
    lemma_span_exists(extent, count, count, x);
    assert forall|i: nat, j: nat|
        #![trigger span_contains(extent, count, i, x), span_contains(extent, count, j, x)]
        span_contains(extent, count, i, x) && span_contains(extent, count, j, x) implies i == j by {
        if i < j {
            lemma_span_offsets(extent, count, i, i);
            lemma_span_offsets(extent, count, i + 1, j);
        } else if j < i {
            lemma_span_offsets(extent, count, j, j);
            lemma_span_offsets(extent, count, j + 1, i);
        }
    }
}

proof fn lemma_span_exists(extent: u32, count: nat, k: nat, x: nat)
    requires
        count >= 1,
        x < tile_span(extent, count, k).0,
    ensures
        exists|i: nat| i < k && #[trigger] span_contains(extent, count, i, x),
    decreases k,
{
    if k == 0 {
        assert(0nat * (extent as nat / count) == 0) by (nonlinear_arith);
    } else {
        let previous = (k - 1) as nat;
        lemma_span_offsets(extent, count, previous, previous);
        if x < tile_span(extent, count, previous).0 {
            lemma_span_exists(extent, count, previous, x);
            let i = choose|i: nat| i < previous && #[trigger] span_contains(extent, count, i, x);
            assert(span_contains(extent, count, i, x));
        } else {
            assert(span_contains(extent, count, previous, x));
        }
    }
}

/// A still dimension as rendered: rounded down to an even size (video and
/// downsampling want even sizes) and kept between 16 and
/// [`MAX_STILL_DIMENSION`].
pub open spec fn spec_still_dimension(requested: u32) -> u32 {
    let even = (requested - requested % 2) as u32;
    if even < 16 { 16 } else if even > MAX_STILL_DIMENSION { MAX_STILL_DIMENSION } else { even }
}

/// The supersampling factor used: between 1 and 3.
pub open spec fn spec_supersample(requested: u32) -> u32 {
    if requested < 1 { 1 } else if requested > 3 { 3 } else { requested }
}

/// Largest tile, in final pixels, whose supersampled size fits a texture.
pub open spec fn still_tile_size(supersample: u32) -> u32 {
    (MAX_DIMENSION / supersample) as u32
}

/// Offsets and sizes `(x, y, width, height)` of tile `index` of a still,
/// numbered row by row.
pub open spec fn still_tile(width: u32, height: u32, supersample: u32, index: nat) -> (nat, nat, nat, nat) {
    let columns = tile_count(width, still_tile_size(supersample));
    let rows = tile_count(height, still_tile_size(supersample));
    let column = tile_span(width, columns, index % columns);
    let row = tile_span(height, rows, index / columns);
    (column.0, row.0, column.1, row.1)
}

/// Whether tile `index` of a still contains pixel `(x, y)`.
pub open spec fn still_tile_contains(width: u32, height: u32, supersample: u32, index: nat, x: nat, y: nat) -> bool {
    let tile = still_tile(width, height, supersample, index);
    tile.0 <= x < tile.0 + tile.2 && tile.1 <= y < tile.1 + tile.3
}

proof fn lemma_still_tile_size(supersample: u32)
    requires
        1 <= supersample <= 3,
    ensures
        2730 <= still_tile_size(supersample) <= MAX_DIMENSION,
        still_tile_size(supersample) * supersample <= MAX_DIMENSION,
        effective_tile(still_tile_size(supersample)) == still_tile_size(supersample) as nat,
{
    let m = MAX_DIMENSION / supersample;
    assert(2730 <= m <= MAX_DIMENSION && m * supersample <= MAX_DIMENSION) by (nonlinear_arith)
        requires 1 <= supersample <= 3, m == MAX_DIMENSION / supersample;
}

/// Rounds a requested still dimension to the size rendered.
pub fn still_dimension(requested: u32) -> (size: u32)
    ensures
        size == spec_still_dimension(requested),
{
    let even = requested & !1u32;
    assert(requested & !1u32 == requested - requested % 2) by (bit_vector);
    if even < 16 {
        16
    } else if even > MAX_STILL_DIMENSION {
        MAX_STILL_DIMENSION
    } else {
        even
    }
}

/// The tile grid of a still image: its rendered size, supersampling factor
/// and the column and row spans its tiles use.
#[derive(Debug)]
pub struct StillTiles {
    width: u32,
    height: u32,
    supersample: u32,
    columns: Vec<(u32, u32)>,
    rows: Vec<(u32, u32)>,
}

impl StillTiles {
    pub closed spec fn spec_width(self) -> u32 {
        self.width
    }

    pub closed spec fn spec_height(self) -> u32 {
        self.height
    }

    pub closed spec fn spec_supersample(self) -> u32 {
        self.supersample
    }

    /// The columns and rows are the tile spans of the width and height.
    pub closed spec fn wf(self) -> bool {
        let m = still_tile_size(self.supersample);
        &&& 1 <= self.supersample <= 3
        &&& 16 <= self.width <= MAX_STILL_DIMENSION
        &&& 16 <= self.height <= MAX_STILL_DIMENSION
        &&& self.columns@.len() == tile_count(self.width, m)
        &&& self.rows@.len() == tile_count(self.height, m)
        &&& forall|i: int| 0 <= i < self.columns@.len() ==> {
            let span = tile_span(self.width, tile_count(self.width, m), i as nat);
            (#[trigger] self.columns@[i]).0 as nat == span.0 && self.columns@[i].1 as nat == span.1
        }
        &&& forall|i: int| 0 <= i < self.rows@.len() ==> {
            let span = tile_span(self.height, tile_count(self.height, m), i as nat);
            (#[trigger] self.rows@[i]).0 as nat == span.0 && self.rows@[i].1 as nat == span.1
        }
    }

    /// Number of tiles of the still.
    pub closed spec fn spec_tile_count(self) -> nat {
        tile_count(self.width, still_tile_size(self.supersample)) * tile_count(
            self.height,
            still_tile_size(self.supersample),
        )
    }

    /// The tile grid of a still of the requested size and supersampling:
    /// the size is rounded as [`still_dimension`] does, the factor kept
    /// between 1 and 3, and tiles laid out in final pixels so that each
    /// supersampled tile fits a texture.
    pub fn new(requested_width: u32, requested_height: u32, requested_supersample: u32) -> (tiles: Self)
        ensures
            tiles.wf(),
            tiles.spec_width() == spec_still_dimension(requested_width),
            tiles.spec_height() == spec_still_dimension(requested_height),
            tiles.spec_supersample() == spec_supersample(requested_supersample),
    {
        let width = still_dimension(requested_width);
        let height = still_dimension(requested_height);
        let supersample = if requested_supersample < 1 {
            1
        } else if requested_supersample > 3 {
            3
        } else {
            requested_supersample
        };
        let max_tile = MAX_DIMENSION / supersample;
        let columns = tile_spans(width, max_tile);
        let rows = tile_spans(height, max_tile);
        StillTiles { width, height, supersample, columns, rows }
    }

    pub fn width(&self) -> (width: u32)
        ensures
            width == self.spec_width(),
    {
        self.width
    }

    pub fn height(&self) -> (height: u32)
        ensures
            height == self.spec_height(),
    {
        self.height
    }

    pub fn supersample(&self) -> (supersample: u32)
        ensures
            supersample == self.spec_supersample(),
    {
        self.supersample
    }

    /// Number of tiles: columns times rows.
    pub fn tile_count(&self) -> (count: usize)
        requires
            self.wf(),
        ensures
            count as nat == self.spec_tile_count(),
    {
        proof {
            let m = still_tile_size(self.supersample);
            lemma_still_tile_size(self.supersample);
            let c = tile_count(self.width, m);
            let r = tile_count(self.height, m);
            lemma_tile_arithmetic(self.width as nat, m as nat, c);
            lemma_tile_arithmetic(self.height as nat, m as nat, r);
            assert(c * r <= MAX_STILL_DIMENSION * MAX_STILL_DIMENSION) by (nonlinear_arith)
                requires c <= MAX_STILL_DIMENSION, r <= MAX_STILL_DIMENSION;
        }
        self.columns.len() * self.rows.len()
    }

    /// Offsets and sizes `(x, y, width, height)` of tile `index`, in final
    /// pixels; tiles are numbered row by row.
    pub fn tile(&self, index: usize) -> (rect: (u32, u32, u32, u32))
        requires
            self.wf(),
            index < self.spec_tile_count(),
        ensures
            (rect.0 as nat, rect.1 as nat, rect.2 as nat, rect.3 as nat) == still_tile(
                self.spec_width(),
                self.spec_height(),
                self.spec_supersample(),
                index as nat,
            ),
    {
        let m = Ghost(still_tile_size(self.supersample));
        let columns = self.columns.len();
        proof {
            let c = tile_count(self.width, m@);
            let r = tile_count(self.height, m@);
            tile_spans_partition_the_extent(self.width, m@);
            assert(index as nat / c < r) by (nonlinear_arith)
                requires index < c * r, c >= 1;
        }
        let column = self.columns[index % columns];
        let row = self.rows[index / columns];
        (column.0, row.0, column.1, row.1)
    }
}

/// Whether byte `i` of an RGBA image `width` pixels wide belongs to a pixel
/// of the rectangle `rect` = `(x, y, width, height)`.
pub open spec fn rect_holds_byte(width: nat, rect: (nat, nat, nat, nat), i: int) -> bool {
    let pixel = i / 4;
    &&& rect.0 <= pixel % (width as int) < rect.0 + rect.2
    &&& rect.1 <= pixel / (width as int) < rect.1 + rect.3
}

/// The byte of the rectangle's own RGBA buffer, rows packed tightly, that
/// byte `i` of the image corresponds to.
pub open spec fn rect_byte(width: nat, rect: (nat, nat, nat, nat), i: int) -> int {
    let pixel = i / 4;
    ((pixel / (width as int) - rect.1) * rect.2 + (pixel % (width as int) - rect.0)) * 4 + i % 4
}

/// An RGBA image `width` pixels wide with the RGBA pixels `tile` of the
/// rectangle `rect` copied into their place; every other byte as before.
pub open spec fn pasted(image: Seq<u8>, width: nat, rect: (nat, nat, nat, nat), tile: Seq<u8>) -> Seq<u8> {
    Seq::new(
        image.len(),
        |i: int| if rect_holds_byte(width, rect, i) { tile[rect_byte(width, rect, i)] } else { image[i] },
    )
}

/// The bytes of row `y` of a rectangle `x0 .. x0 + w` wide in an image
/// `width` pixels wide are the `4 w` bytes from `(y width + x0) 4` on, in
/// order.
proof fn lemma_rect_row(width: int, x0: int, w: int, y: int, i: int)
    requires
        width > 0,
        0 <= x0,
        0 <= w,
        x0 + w <= width,
        0 <= y,
        0 <= i,
    ensures
        ({
            let target = (y * width + x0) * 4;
            let pixel = i / 4;
            &&& (target <= i < target + w * 4) <==> (pixel / width == y && x0 <= pixel % width < x0 + w)
            &&& target <= i < target + w * 4 ==> (pixel % width - x0) * 4 + i % 4 == i - target
        }),
{
    let pixel = i / 4;
    let m = i % 4;
    let row = pixel / width;
    let column = pixel % width;
    assert(i == pixel * 4 + m && 0 <= m < 4) by (nonlinear_arith)
        requires pixel == i / 4, m == i % 4, i >= 0;
    assert(pixel == row * width + column && 0 <= column < width && row >= 0) by (nonlinear_arith)
        requires row == pixel / width, column == pixel % width, width > 0, pixel >= 0;
    if row < y {
        assert(row * width + width <= y * width) by (nonlinear_arith)
            requires row < y, width > 0;
    } else if row > y {
        assert(y * width + width <= row * width) by (nonlinear_arith)
            requires row > y, width > 0;
    }
}

/// Each tile ends inside the extent its spans cover.
proof fn lemma_span_within(extent: u32, count: nat, i: nat)
    requires
        i < count,
    ensures
        tile_span(extent, count, i).0 + tile_span(extent, count, i).1 <= extent,
{
    let b = extent as nat / count;
    let r = extent as nat % count;
    assert(extent as nat == b * count + r && r < count) by (nonlinear_arith)
        requires b == extent as nat / count, r == extent as nat % count, count > 0;
    assert(i * b + b <= count * b) by (nonlinear_arith)
        requires i < count;
}

impl StillTiles {
    /// Copies the RGBA pixels of tile `index`, rows packed tightly, into
    /// their place in the RGBA image of the whole still, leaving every other
    /// byte of the image as it was.
    pub fn paste(&self, image: &mut Vec<u8>, index: usize, tile: &Vec<u8>)
        requires
            self.wf(),
            index < self.spec_tile_count(),
            old(image)@.len() == self.spec_width() * self.spec_height() * 4,
            tile@.len() == still_tile(self.spec_width(), self.spec_height(), self.spec_supersample(), index as nat).2
                * still_tile(self.spec_width(), self.spec_height(), self.spec_supersample(), index as nat).3 * 4,
        ensures
            final(image)@ == pasted(
                old(image)@,
                self.spec_width() as nat,
                still_tile(self.spec_width(), self.spec_height(), self.spec_supersample(), index as nat),
                tile@,
            ),
    {
        let rect = self.tile(index);
        let (x0, y0, tw, th) = rect;
        let ghost area = (x0 as nat, y0 as nat, tw as nat, th as nat);
        let ghost w = self.width as int;
        let ghost h = self.height as int;
        proof {
            let m = still_tile_size(self.supersample);
            let columns = tile_count(self.width, m);
            let rows = tile_count(self.height, m);
            tile_spans_partition_the_extent(self.width, m);
            assert(index as nat % columns < columns && index as nat / columns < rows) by (nonlinear_arith)
                requires index < columns * rows, columns >= 1;
            lemma_span_within(self.width, columns, index as nat % columns);
            lemma_span_within(self.height, rows, index as nat / columns);
        }
        let width = self.width as usize;
        let row_bytes = tw as usize * 4;
        let total = image.len();
        let tile_len = tile.len();
        let ghost start = image@;
        let mut r: usize = 0;
        while r < th as usize
            invariant
                area == (x0 as nat, y0 as nat, tw as nat, th as nat),
                w == width as int,
                16 <= w,
                x0 + tw <= w,
                y0 + th <= h,
                start.len() == w * h * 4,
                start.len() == total,
                tile@.len() == tw * th * 4,
                tile@.len() == tile_len,
                h <= MAX_STILL_DIMENSION,
                row_bytes == tw * 4,
                r <= th,
                image@.len() == start.len(),
                forall|i: int| 0 <= i < start.len() ==> #[trigger] image@[i] == if rect_holds_byte(w as nat, area, i)
                    && (i / 4) / w < y0 + r { tile@[rect_byte(w as nat, area, i)] } else { start[i] },
            decreases th - r,
        {
            let row = y0 as usize + r;
            proof {
                assert(row * width + x0 + tw <= w * h && r * tw + tw <= tw * th) by (nonlinear_arith)
                    requires row == y0 + r, r < th, y0 + th <= h, x0 + tw <= w, w == width, w >= 16, tw >= 0;
                assert(r * row_bytes == r * tw * 4 && r * row_bytes + row_bytes <= tw * th * 4) by (nonlinear_arith)
                    requires row_bytes == tw * 4, r < th, tw >= 0;
            }
            let target = (row * width + x0 as usize) * 4;
            let source = r * row_bytes;
            proof {
                assert forall|i: int| 0 <= i < start.len() implies #[trigger] image@[i] == if rect_holds_byte(w as nat, area, i)
                    && ((i / 4) / w < y0 + r || ((i / 4) / w == y0 + r && i < target)) {
                    tile@[rect_byte(w as nat, area, i)]
                } else {
                    start[i]
                } by {
                    lemma_rect_row(w, x0 as int, tw as int, y0 + r, i);
                }
            }
            let mut j: usize = 0;
            while j < row_bytes
                invariant
                    area == (x0 as nat, y0 as nat, tw as nat, th as nat),
                    w == width as int,
                    16 <= w,
                    x0 + tw <= w,
                    y0 + th <= h,
                    start.len() == w * h * 4,
                    start.len() == total,
                    tile@.len() == tw * th * 4,
                    tile@.len() == tile_len,
                    row_bytes == tw * 4,
                    r < th,
                    target == ((y0 + r) * w + x0) * 4,
                    source == r * tw * 4,
                    source + row_bytes <= tile@.len(),
                    (y0 + r) * w + x0 + tw <= w * h,
                    r * tw + tw <= tw * th,
                    j <= row_bytes,
                    image@.len() == start.len(),
                    forall|i: int| 0 <= i < start.len() ==> #[trigger] image@[i] == if rect_holds_byte(w as nat, area, i)
                        && ((i / 4) / w < y0 + r || ((i / 4) / w == y0 + r && i < target + j)) {
                        tile@[rect_byte(w as nat, area, i)]
                    } else {
                        start[i]
                    },
                decreases row_bytes - j,
            {
                let ghost written = target + j;
                proof {
                    lemma_rect_row(w, x0 as int, tw as int, y0 + r, written);
                    assert(rect_byte(w as nat, area, written) == source + j) by (nonlinear_arith)
                        requires
                            rect_byte(w as nat, area, written) == ((written / 4 / w - y0) * tw + (written / 4 % w - x0)) * 4
                                + written % 4,
                            written / 4 / w == y0 + r,
                            (written / 4 % w - x0) * 4 + written % 4 == written - target,
                            written == target + j,
                            source == r * tw * 4;
                }
                let byte = tile[source + j];
                image.set(target + j, byte);
                proof {
                    assert forall|i: int| 0 <= i < start.len() implies #[trigger] image@[i] == if rect_holds_byte(w as nat, area, i)
                        && ((i / 4) / w < y0 + r || ((i / 4) / w == y0 + r && i < target + j + 1)) {
                        tile@[rect_byte(w as nat, area, i)]
                    } else {
                        start[i]
                    } by {
                        if i == written {
                            lemma_rect_row(w, x0 as int, tw as int, y0 + r, i);
                        }
                    }
                }
                j += 1;
            }
            proof {
                assert forall|i: int| 0 <= i < start.len() implies #[trigger] image@[i] == if rect_holds_byte(w as nat, area, i)
                    && (i / 4) / w < y0 + r + 1 { tile@[rect_byte(w as nat, area, i)] } else { start[i] } by {
                    lemma_rect_row(w, x0 as int, tw as int, y0 + r, i);
                }
            }
            r += 1;
        }
        proof {
            assert(image@ =~= pasted(start, w as nat, area, tile@));
        }
    }
}

/// A tiled still covers every pixel of the image exactly once, and every
/// supersampled tile fits within the texture limit.
pub proof fn still_tiles_cover_each_pixel_once(width: u32, height: u32, supersample: u32, x: nat, y: nat)
    requires
        1 <= supersample <= 3,
        x < width,
        y < height,
    ensures
        ({
            let count = tile_count(width, still_tile_size(supersample)) * tile_count(height, still_tile_size(supersample));
            &&& exists|index: nat| index < count && #[trigger] still_tile_contains(width, height, supersample, index, x, y)
            &&& forall|i: nat, j: nat|
                #![trigger still_tile_contains(width, height, supersample, i, x, y), still_tile_contains(width, height, supersample, j, x, y)]
                i < count && j < count && still_tile_contains(width, height, supersample, i, x, y)
                    && still_tile_contains(width, height, supersample, j, x, y) ==> i == j
            &&& forall|index: nat| #![trigger still_tile(width, height, supersample, index)] index < count ==> still_tile(width, height, supersample, index).2 * supersample <= MAX_DIMENSION
                && still_tile(width, height, supersample, index).3 * supersample <= MAX_DIMENSION
        }),
{
    let m = still_tile_size(supersample);
    lemma_still_tile_size(supersample);
    let columns = tile_count(width, m);
    let rows = tile_count(height, m);
    tile_spans_partition_the_extent(width, m);
    tile_spans_partition_the_extent(height, m);
    lemma_span_unique(width, m, x);
    lemma_span_unique(height, m, y);
    let column = choose|i: nat| i < columns && #[trigger] span_contains(width, columns, i, x);
    let row = choose|i: nat| i < rows && #[trigger] span_contains(height, rows, i, y);
    let index = row * columns + column;
    assert(index % columns == column && index / columns == row) by (nonlinear_arith)
        requires index == row * columns + column, column < columns;
    assert(index < columns * rows) by (nonlinear_arith)
        requires index == row * columns + column, column < columns, row < rows;
    assert(still_tile_contains(width, height, supersample, index, x, y));
    assert forall|i: nat, j: nat|
        #![trigger still_tile_contains(width, height, supersample, i, x, y), still_tile_contains(width, height, supersample, j, x, y)]
        i < columns * rows && j < columns * rows && still_tile_contains(width, height, supersample, i, x, y)
            && still_tile_contains(width, height, supersample, j, x, y) implies i == j by {
        assert(span_contains(width, columns, i % columns, x));
        assert(span_contains(width, columns, j % columns, x));
        assert(span_contains(height, rows, i / columns, y));
        assert(span_contains(height, rows, j / columns, y));
        assert(i == (i / columns) * columns + i % columns) by (nonlinear_arith) requires columns >= 1;
        assert(j == (j / columns) * columns + j % columns) by (nonlinear_arith) requires columns >= 1;
    }
    assert forall|index: nat| #![trigger still_tile(width, height, supersample, index)] index < columns * rows implies
        still_tile(width, height, supersample, index).2 * supersample <= MAX_DIMENSION
            && still_tile(width, height, supersample, index).3 * supersample <= MAX_DIMENSION by {
        let c = index % columns;
        let r = index / columns;
        assert(c < columns) by (nonlinear_arith) requires columns >= 1, c == index % columns;
        assert(r < rows) by (nonlinear_arith) requires columns >= 1, r == index / columns, index < columns * rows;
        let a = tile_span(width, columns, c).1;
        let b = tile_span(height, rows, r).1;
        assert(a <= m && b <= m);
        assert(a * supersample <= m * supersample) by (nonlinear_arith) requires a <= m;
        assert(b * supersample <= m * supersample) by (nonlinear_arith) requires b <= m;
    }
}

/// The RGBA image of a still after pasting its first `n` tiles, the pixels
/// of tile `k` being `tiles[k]`, into `image`.
pub open spec fn pasted_tiles(
    image: Seq<u8>,
    width: u32,
    height: u32,
    supersample: u32,
    tiles: Seq<Seq<u8>>,
    n: nat,
) -> Seq<u8>
    decreases n,
{
    if n == 0 {
        image
    } else {
        pasted(
            pasted_tiles(image, width, height, supersample, tiles, (n - 1) as nat),
            width as nat,
            still_tile(width, height, supersample, (n - 1) as nat),
            tiles[n - 1],
        )
    }
}

/// After the first `n` tiles, a byte holds the pixel of the tile among them
/// that covers it, or what it held before where none does.
proof fn lemma_pasted_tiles(
    image: Seq<u8>,
    width: u32,
    height: u32,
    supersample: u32,
    tiles: Seq<Seq<u8>>,
    n: nat,
    i: int,
)
    requires
        1 <= supersample <= 3,
        width >= 1,
        image.len() == width * height * 4,
        0 <= i < image.len(),
        n <= tile_count(width, still_tile_size(supersample)) * tile_count(height, still_tile_size(supersample)),
    ensures
        pasted_tiles(image, width, height, supersample, tiles, n).len() == image.len(),
        ({
            let x = (i / 4) % (width as int);
            let y = (i / 4) / (width as int);
            &&& forall|t: nat| t < n && #[trigger] still_tile_contains(width, height, supersample, t, x as nat, y as nat)
                ==> pasted_tiles(image, width, height, supersample, tiles, n)[i] == tiles[t as int][rect_byte(
                width as nat,
                still_tile(width, height, supersample, t),
                i,
            )]
            &&& (forall|t: nat| t < n ==> !#[trigger] still_tile_contains(width, height, supersample, t, x as nat, y as nat))
                ==> pasted_tiles(image, width, height, supersample, tiles, n)[i] == image[i]
        }),
    decreases n,
{
    let x = (i / 4) % (width as int);
    let y = (i / 4) / (width as int);
    assert(0 <= x < width && 0 <= y < height) by (nonlinear_arith)
        requires x == (i / 4) % (width as int), y == (i / 4) / (width as int), width >= 1, 0 <= i < width * height * 4;
    if n > 0 {
        let last = (n - 1) as nat;
        lemma_pasted_tiles(image, width, height, supersample, tiles, last, i);
        still_tiles_cover_each_pixel_once(width, height, supersample, x as nat, y as nat);
        let before = pasted_tiles(image, width, height, supersample, tiles, last);
        assert(pasted_tiles(image, width, height, supersample, tiles, n)[i] == if still_tile_contains(
            width,
            height,
            supersample,
            last,
            x as nat,
            y as nat,
        ) {
            tiles[last as int][rect_byte(width as nat, still_tile(width, height, supersample, last), i)]
        } else {
            before[i]
        });
    }
}

/// Pasting every tile of a still, in any state the image was in before,
/// leaves each byte holding the pixel of the one tile that covers it: the
/// tiles assemble the whole image.
pub proof fn pasting_every_tile_assembles_the_still(
    image: Seq<u8>,
    width: u32,
    height: u32,
    supersample: u32,
    tiles: Seq<Seq<u8>>,
    i: int,
)
    requires
        1 <= supersample <= 3,
        width >= 1,
        image.len() == width * height * 4,
        0 <= i < image.len(),
    ensures
        ({
            let count = tile_count(width, still_tile_size(supersample)) * tile_count(
                height,
                still_tile_size(supersample),
            );
            let x = ((i / 4) % (width as int)) as nat;
            let y = ((i / 4) / (width as int)) as nat;
            &&& pasted_tiles(image, width, height, supersample, tiles, count).len() == image.len()
            &&& exists|t: nat| t < count && #[trigger] still_tile_contains(width, height, supersample, t, x, y)
            &&& forall|t: nat| t < count && #[trigger] still_tile_contains(width, height, supersample, t, x, y)
                ==> pasted_tiles(image, width, height, supersample, tiles, count)[i] == tiles[t as int][rect_byte(
                width as nat,
                still_tile(width, height, supersample, t),
                i,
            )]
        }),
{
    let count = tile_count(width, still_tile_size(supersample)) * tile_count(height, still_tile_size(supersample));
    let x = (i / 4) % (width as int);
    let y = (i / 4) / (width as int);
    assert(0 <= x < width && 0 <= y < height) by (nonlinear_arith)
        requires x == (i / 4) % (width as int), y == (i / 4) / (width as int), width >= 1, 0 <= i < width * height * 4;
    still_tiles_cover_each_pixel_once(width, height, supersample, x as nat, y as nat);
    lemma_pasted_tiles(image, width, height, supersample, tiles, count, i);
}

/// The waypoint whose reference orbit anchors segment `index` of a camera
/// path: its destination when that is the deeper endpoint, else its origin.
pub open spec fn segment_anchor(index: int, anchor_is_to: bool) -> int {
    if anchor_is_to { index + 1 } else { index }
}

/// Whether `waypoint` anchors one of the first `count` segments.
pub open spec fn anchored_within(anchor_is_to: Seq<bool>, count: int, waypoint: int) -> bool {
    exists|segment: int| 0 <= segment < count && #[trigger] segment_anchor(segment, anchor_is_to[segment]) == waypoint
}

/// Whether `waypoint` anchors at least one segment.
pub open spec fn is_anchor(anchor_is_to: Seq<bool>, waypoint: int) -> bool {
    anchored_within(anchor_is_to, anchor_is_to.len() as int, waypoint)
}

/// Whether `waypoint` occurs in `indices`.
pub open spec fn lists(indices: Seq<usize>, waypoint: int) -> bool {
    exists|k: int| 0 <= k < indices.len() && #[trigger] indices[k] == waypoint
}

/// The waypoints that anchor at least one camera-path segment, ascending and
/// each once: the waypoints whose reference orbits an export computes.
/// `anchor_is_to[i]` says whether segment `i` (from waypoint `i` to `i + 1`)
/// anchors on its destination.
pub fn anchor_indices(anchor_is_to: &Vec<bool>) -> (indices: Vec<usize>)
    ensures
        forall|i: int, j: int| 0 <= i < j < indices@.len() ==> indices@[i] < indices@[j],
        forall|waypoint: int|
            #![trigger lists(indices@, waypoint)]
            #![trigger is_anchor(anchor_is_to@, waypoint)]
            lists(indices@, waypoint) <==> is_anchor(anchor_is_to@, waypoint),
{
    let mut indices: Vec<usize> = Vec::new();
    let mut segment: usize = 0;
    while segment < anchor_is_to.len()
        invariant
            segment <= anchor_is_to@.len(),
            forall|i: int, j: int| 0 <= i < j < indices@.len() ==> indices@[i] < indices@[j],
            indices@.len() > 0 ==> indices@.last() <= segment,
            segment > 0 ==> indices@.len() > 0 && indices@.last() == segment_anchor(
                segment - 1,
                anchor_is_to@[segment - 1],
            ),
            forall|waypoint: int|
                #![trigger lists(indices@, waypoint)]
                #![trigger anchored_within(anchor_is_to@, segment as int, waypoint)]
                lists(indices@, waypoint) <==> anchored_within(anchor_is_to@, segment as int, waypoint),
        decreases anchor_is_to@.len() - segment,
    {
        let waypoint = if anchor_is_to[segment] { segment + 1 } else { segment };
        let ghost before = indices@;
        let ghost here = segment as int;
        assert(segment_anchor(here, anchor_is_to@[here]) == waypoint);
        if indices.len() == 0 || indices[indices.len() - 1] != waypoint {
            indices.push(waypoint);
            proof {
                assert forall|w: int| lists(indices@, w) <==> anchored_within(anchor_is_to@, here + 1, w) by {
                    if lists(indices@, w) {
                        let k = choose|k: int| 0 <= k < indices@.len() && #[trigger] indices@[k] == w;
                        if k < before.len() {
                            assert(before[k] == w);
                            assert(lists(before, w));
                        }
                    }
                    if anchored_within(anchor_is_to@, here + 1, w) {
                        let s = choose|s: int| 0 <= s < here + 1 && #[trigger] segment_anchor(s, anchor_is_to@[s]) == w;
                        if s < here {
                            assert(anchored_within(anchor_is_to@, here, w));
                            assert(lists(before, w));
                            let k = choose|k: int| 0 <= k < before.len() && #[trigger] before[k] == w;
                            assert(indices@[k] == w);
                        } else {
                            assert(indices@[before.len() as int] == w);
                        }
                    }
                }
            }
        } else {
            proof {
                assert forall|w: int| lists(indices@, w) <==> anchored_within(anchor_is_to@, here + 1, w) by {
                    if lists(indices@, w) {
                        assert(anchored_within(anchor_is_to@, here, w));
                    }
                    if anchored_within(anchor_is_to@, here + 1, w) {
                        let s = choose|s: int| 0 <= s < here + 1 && #[trigger] segment_anchor(s, anchor_is_to@[s]) == w;
                        if s < here {
                            assert(anchored_within(anchor_is_to@, here, w));
                        } else {
                            assert(indices@[indices@.len() - 1] == w);
                        }
                    }
                }
            }
        }
        segment += 1;
    }
    indices
}

/// The continuous family settings a parameter curve may drive.
#[derive(Clone, Copy, Debug, Default, PartialEq, Eq, Structural)]
pub enum FamilyCurveTarget {
    #[default]
    NovaRelaxation,
    MandelboxScale,
    MandelboxMinRadius,
    MandelboxFixedRadius,
}

impl FamilyCurveTarget {
    pub open spec fn spec_label(self) -> Seq<char> {
        match self {
            FamilyCurveTarget::NovaRelaxation => "Nova relaxation"@,
            FamilyCurveTarget::MandelboxScale => "Mandelbox scale"@,
            FamilyCurveTarget::MandelboxMinRadius => "Mandelbox min radius"@,
            FamilyCurveTarget::MandelboxFixedRadius => "Mandelbox fixed radius"@,
        }
    }

    pub fn label(self) -> (text: &'static str)
        ensures
            text@ == self.spec_label(),
    {
        match self {
            Self::NovaRelaxation => "Nova relaxation",
            Self::MandelboxScale => "Mandelbox scale",
            Self::MandelboxMinRadius => "Mandelbox min radius",
            Self::MandelboxFixedRadius => "Mandelbox fixed radius",
        }
    }

    /// Whether the setting this curve drives is used by `family`.
    pub fn applies_to(self, family: FractalFamily) -> (applies: bool)
        ensures
            applies == match self {
                FamilyCurveTarget::NovaRelaxation => family.spec_uses_relaxation(),
                _ => family.spec_uses_mandelbox(),
            },
    {
        match self {
            Self::NovaRelaxation => family.uses_relaxation(),
            Self::MandelboxScale | Self::MandelboxMinRadius | Self::MandelboxFixedRadius => family.uses_mandelbox(),
        }
    }
}

/// Outcome of the range checks on one key of a parameter curve: its time
/// is finite and in [0, 1], and its value is finite and in the range of
/// what the curve drives.
#[derive(Clone, Copy, Debug, PartialEq, Eq, Structural)]
pub struct KeyCheck {
    pub time_in_range: bool,
    pub value_in_range: bool,
}

/// The first key from `from` on whose time is out of range.
pub open spec fn first_bad_time(keys: Seq<KeyCheck>, from: int) -> Option<int>
    decreases keys.len() - from,
{
    if from < 0 || from >= keys.len() {
        None
    } else if !keys[from].time_in_range {
        Some(from)
    } else {
        first_bad_time(keys, from + 1)
    }
}

/// The first key from `from` on whose value is out of range.
pub open spec fn first_bad_value(keys: Seq<KeyCheck>, from: int) -> Option<int>
    decreases keys.len() - from,
{
    if from < 0 || from >= keys.len() {
        None
    } else if !keys[from].value_in_range {
        Some(from)
    } else {
        first_bad_value(keys, from + 1)
    }
}

/// A curve holds 1 to [`MAX_CURVE_KEYS`] keys, each timed inside the
/// animation.
pub open spec fn key_times_error(label: Seq<char>, keys: Seq<KeyCheck>) -> Option<Seq<char>> {
    if keys.len() == 0 || keys.len() > MAX_CURVE_KEYS {
        Some(label + ": a curve holds between 1 and 64 keys"@)
    } else {
        match first_bad_time(keys, 0) {
            Some(index) => Some(label + " key "@ + spec_decimal(index as nat) + ": time must be between 0 and 1"@),
            None => None,
        }
    }
}

/// The Julia curve's keys: timed inside the animation, with parameters of
/// finite parts at most 8 in size.
pub open spec fn julia_curve_error(keys: Seq<KeyCheck>) -> Option<Seq<char>> {
    match key_times_error("julia curve"@, keys) {
        Some(message) => Some(message),
        None => match first_bad_value(keys, 0) {
            Some(index) => Some(
                "julia curve key "@ + spec_decimal(index as nat)
                    + ": c must be finite with |re|, |im| at most 8"@,
            ),
            None => None,
        },
    }
}

fn first_time_error(keys: &Vec<KeyCheck>) -> (index: Option<usize>)
    ensures
        match index {
            Some(i) => first_bad_time(keys@, 0) == Some(i as int) && i < keys@.len(),
            None => first_bad_time(keys@, 0) is None,
        },
{
    let mut i: usize = 0;
    while i < keys.len()
        invariant
            i <= keys.len(),
            first_bad_time(keys@, 0) == first_bad_time(keys@, i as int),
        decreases keys.len() - i,
    {
        if !keys[i].time_in_range {
            return Some(i);
        }
        i += 1;
    }
    None
}

fn first_value_error(keys: &Vec<KeyCheck>) -> (index: Option<usize>)
    ensures
        match index {
            Some(i) => first_bad_value(keys@, 0) == Some(i as int) && i < keys@.len(),
            None => first_bad_value(keys@, 0) is None,
        },
{
    let mut i: usize = 0;
    while i < keys.len()
        invariant
            i <= keys.len(),
            first_bad_value(keys@, 0) == first_bad_value(keys@, i as int),
        decreases keys.len() - i,
    {
        if !keys[i].value_in_range {
            return Some(i);
        }
        i += 1;
    }
    None
}

/// Accepts the key count and key times of a curve, or names the first
/// problem behind `label`.
pub fn validate_key_times(label: &str, keys: &Vec<KeyCheck>) -> (result: Result<(), String>)
    ensures
        result is Ok <==> key_times_error(label@, keys@) is None,
        result matches Err(message) ==> key_times_error(label@, keys@) == Some(message@),
{
    if keys.len() == 0 || keys.len() > MAX_CURVE_KEYS {
        return Err(concat(label, ": a curve holds between 1 and 64 keys"));
    }
    match first_time_error(keys) {
        Some(index) => {
            let key = concat(label, " key ");
            Err(with_number(key.as_str(), index as u64, ": time must be between 0 and 1"))
        },
        None => Ok(()),
    }
}

/// Accepts the keys of a Julia-parameter curve, or names the first problem.
pub fn validate_julia_curve(keys: &Vec<KeyCheck>) -> (result: Result<(), String>)
    ensures
        result is Ok <==> julia_curve_error(keys@) is None,
        result matches Err(message) ==> julia_curve_error(keys@) == Some(message@),
{
    let times = validate_key_times("julia curve", keys);
    if let Err(message) = times {
        return Err(message);
    }
    match first_value_error(keys) {
        Some(index) => Err(
            with_number("julia curve key ", index as u64, ": c must be finite with |re|, |im| at most 8"),
        ),
        None => Ok(()),
    }
}

impl FamilyCurveTarget {
    pub open spec fn spec_range_text(self) -> Seq<char> {
        match self {
            FamilyCurveTarget::NovaRelaxation => "0.1 and 4"@,
            FamilyCurveTarget::MandelboxScale => "-4 and 4"@,
            FamilyCurveTarget::MandelboxMinRadius => "0.01 and 2"@,
            FamilyCurveTarget::MandelboxFixedRadius => "0.1 and 4"@,
        }
    }

    /// The accepted range of the driven setting, as the messages print it.
    pub fn range_text(self) -> (text: &'static str)
        ensures
            text@ == self.spec_range_text(),
    {
        match self {
            Self::NovaRelaxation => "0.1 and 4",
            Self::MandelboxScale => "-4 and 4",
            Self::MandelboxMinRadius => "0.01 and 2",
            Self::MandelboxFixedRadius => "0.1 and 4",
        }
    }

    pub open spec fn curve_error(self, keys: Seq<KeyCheck>) -> Option<Seq<char>> {
        match key_times_error(self.spec_label(), keys) {
            Some(message) => Some(message),
            None => match first_bad_value(keys, 0) {
                Some(index) => Some(
                    self.spec_label() + " curve key "@ + spec_decimal(index as nat)
                        + ": value must be between "@ + self.spec_range_text(),
                ),
                None => None,
            },
        }
    }

    /// Accepts the keys of a curve over this setting, or names the first
    /// problem.
    pub fn validate_curve(self, keys: &Vec<KeyCheck>) -> (result: Result<(), String>)
        ensures
            result is Ok <==> self.curve_error(keys@) is None,
            result matches Err(message) ==> self.curve_error(keys@) == Some(message@),
    {
        let label = self.label();
        let times = validate_key_times(label, keys);
        if let Err(message) = times {
            return Err(message);
        }
        match first_value_error(keys) {
            Some(index) => {
                let key = concat(label, " curve key ");
                let value = with_number(key.as_str(), index as u64, ": value must be between ");
                Err(concat(value.as_str(), self.range_text()))
            },
            None => Ok(()),
        }
    }
}

/// A keyed curve over one continuous family setting, as its validation
/// reads it.
#[derive(Debug)]
pub struct CurveCheck {
    pub target: FamilyCurveTarget,
    pub keys: Vec<KeyCheck>,
}

/// One captured waypoint as its validation reads it: whether its
/// magnification exponent is finite and in [-3, 5000], whether its centre
/// is finite, and its exact decimal centre when it has one.
#[derive(Debug)]
pub struct WaypointCheck {
    pub magnification_in_range: bool,
    pub centre_finite: bool,
    pub exact: Option<(String, String)>,
}

pub open spec fn waypoint_error(waypoint: WaypointCheck, index: int) -> Option<Seq<char>> {
    let prefix = "waypoint "@ + spec_decimal(index as nat);
    if !waypoint.magnification_in_range {
        Some(prefix + ": magnification exponent must be between -3 and 5000"@)
    } else if !waypoint.centre_finite {
        Some(prefix + ": centre must be finite"@)
    } else if waypoint.exact matches Some((re, im)) && (is_blank(re@) || is_blank(im@)) {
        Some(prefix + ": exact centre must not be empty"@)
    } else {
        None
    }
}

/// The message of the first failing waypoint from `from` on.
pub open spec fn waypoints_error(waypoints: Seq<WaypointCheck>, from: int) -> Option<Seq<char>>
    decreases waypoints.len() - from,
{
    if from < 0 || from >= waypoints.len() {
        None
    } else {
        match waypoint_error(waypoints[from], from) {
            Some(message) => Some(message),
            None => waypoints_error(waypoints, from + 1),
        }
    }
}

/// The message of the first failing family curve from `from` on.
pub open spec fn curves_error(curves: Seq<CurveCheck>, from: int) -> Option<Seq<char>>
    decreases curves.len() - from,
{
    if from < 0 || from >= curves.len() {
        None
    } else {
        match curves[from].target.curve_error(curves[from].keys@) {
            Some(message) => Some(message),
            None => curves_error(curves, from + 1),
        }
    }
}

/// The animation settings as their validation reads them: the integer
/// settings themselves, and the outcomes of the checks on real-valued ones
/// (a duration between 0.1 and 3600 seconds, magnification exponents
/// between -3 and 5000, a gradient sweep of at most 100 turns either way).
/// `frame_count` is the number of frames the duration and rate give.
#[derive(Debug)]
pub struct AnimationChecks {
    pub duration_in_range: bool,
    pub fps: u32,
    pub frame_count: usize,
    pub width: u32,
    pub height: u32,
    pub magnifications_in_range: bool,
    pub gradient_sweep_in_range: bool,
    pub waypoints: Vec<WaypointCheck>,
    pub julia_curve: Option<Vec<KeyCheck>>,
    pub family_curves: Vec<CurveCheck>,
}

/// The message an animation is refused with, or `None` when it is
/// accepted: the first rule it breaks, in the order listed here.
pub open spec fn animation_error(checks: AnimationChecks) -> Option<Seq<char>> {
    if !checks.duration_in_range {
        Some("duration must be between 0.1 and 3600 seconds"@)
    } else if !(1 <= checks.fps <= 120) {
        Some("fps must be between 1 and 120"@)
    } else if checks.frame_count > MAX_FRAMES {
        Some("the sequence exceeds 100000 frames"@)
    } else if !(16 <= checks.width <= MAX_DIMENSION) || !(16 <= checks.height <= MAX_DIMENSION) {
        Some("frame size must be between 16 and 8192 pixels"@)
    } else if !checks.magnifications_in_range {
        Some("magnification exponents must be between -3 and 5000"@)
    } else if !checks.gradient_sweep_in_range {
        Some("gradient sweep must be between -100 and 100 turns"@)
    } else if checks.waypoints@.len() > MAX_WAYPOINTS {
        Some("a camera path may hold at most 64 waypoints"@)
    } else if waypoints_error(checks.waypoints@, 0) is Some {
        waypoints_error(checks.waypoints@, 0)
    } else if checks.julia_curve matches Some(keys) && julia_curve_error(keys@) is Some {
        julia_curve_error(checks.julia_curve->0@)
    } else {
        curves_error(checks.family_curves@, 0)
    }
}

fn waypoint_message(waypoint: &WaypointCheck, index: usize) -> (message: Option<String>)
    ensures
        match message {
            Some(text) => waypoint_error(*waypoint, index as int) == Some(text@),
            None => waypoint_error(*waypoint, index as int) is None,
        },
{
    if !waypoint.magnification_in_range {
        return Some(with_number("waypoint ", index as u64, ": magnification exponent must be between -3 and 5000"));
    }
    if !waypoint.centre_finite {
        return Some(with_number("waypoint ", index as u64, ": centre must be finite"));
    }
    if let Some((re, im)) = &waypoint.exact {
        if blank(re.as_str()) || blank(im.as_str()) {
            return Some(with_number("waypoint ", index as u64, ": exact centre must not be empty"));
        }
    }
    None
}

impl AnimationChecks {
    /// Accepts the settings, or refuses them with the message of the first
    /// rule they break.
    pub fn validate(&self) -> (result: Result<(), String>)
        ensures
            result is Ok <==> animation_error(*self) is None,
            result matches Err(message) ==> animation_error(*self) == Some(message@),
    {
        if !self.duration_in_range {
            return Err("duration must be between 0.1 and 3600 seconds".to_owned());
        }
        if !(1 <= self.fps && self.fps <= 120) {
            return Err("fps must be between 1 and 120".to_owned());
        }
        if self.frame_count > MAX_FRAMES {
            return Err("the sequence exceeds 100000 frames".to_owned());
        }
        if !(16 <= self.width && self.width <= MAX_DIMENSION) || !(16 <= self.height && self.height <= MAX_DIMENSION) {
            return Err("frame size must be between 16 and 8192 pixels".to_owned());
        }
        if !self.magnifications_in_range {
            return Err("magnification exponents must be between -3 and 5000".to_owned());
        }
        if !self.gradient_sweep_in_range {
            return Err("gradient sweep must be between -100 and 100 turns".to_owned());
        }
        if self.waypoints.len() > MAX_WAYPOINTS {
            return Err("a camera path may hold at most 64 waypoints".to_owned());
        }
        let ghost header = animation_error(*self);
        assert(header == (if waypoints_error(self.waypoints@, 0) is Some {
            waypoints_error(self.waypoints@, 0)
        } else if self.julia_curve matches Some(keys) && julia_curve_error(keys@) is Some {
            julia_curve_error(self.julia_curve->0@)
        } else {
            curves_error(self.family_curves@, 0)
        }));
        let mut index: usize = 0;
        while index < self.waypoints.len()
            invariant
                index <= self.waypoints@.len() <= MAX_WAYPOINTS,
                header == animation_error(*self),
                waypoints_error(self.waypoints@, 0) is Some ==> header == waypoints_error(self.waypoints@, 0),
                waypoints_error(self.waypoints@, 0) == waypoints_error(self.waypoints@, index as int),
            decreases self.waypoints.len() - index,
        {
            let message = waypoint_message(&self.waypoints[index], index);
            if let Some(text) = message {
                assert(waypoints_error(self.waypoints@, index as int) == Some(text@));
                return Err(text);
            }
            index += 1;
        }
        if let Some(keys) = &self.julia_curve {
            let julia = validate_julia_curve(keys);
            if let Err(message) = julia {
                return Err(message);
            }
        }
        assert(header == curves_error(self.family_curves@, 0));
        let mut curve: usize = 0;
        while curve < self.family_curves.len()
            invariant
                curve <= self.family_curves@.len(),
                header == animation_error(*self),
                header == curves_error(self.family_curves@, curve as int),
            decreases self.family_curves.len() - curve,
        {
            let check = &self.family_curves[curve];
            let outcome = check.target.validate_curve(&check.keys);
            if let Err(message) = outcome {
                assert(curves_error(self.family_curves@, curve as int) == Some(message@));
                return Err(message);
            }
            curve += 1;
        }
        Ok(())
    }
}

} // verus!
