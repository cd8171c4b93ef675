//! Rectangles of pixels in byte buffers with four bytes per pixel.
use vstd::arithmetic::div_mod::{lemma_fundamental_div_mod, lemma_fundamental_div_mod_converse};
use vstd::prelude::*;

verus! {

/// A rectangle of pixels within an image that is `stride` bytes wide.
#[derive(Clone, Copy)]
pub struct Area {
    pub stride: int,
    pub x: int,
    pub y: int,
    pub width: int,
    pub height: int,
}

impl Area {
    /// Whether a rectangle lies within the width of its image.
    pub open spec fn wf(self) -> bool {
        &&& 0 < self.stride
        &&& 0 <= self.x
        &&& 0 <= self.y
        &&& 0 <= self.width
        &&& 0 <= self.height
        &&& 4 * (self.x + self.width) <= self.stride
    }

    /// The byte at which row `row` of the rectangle starts.
    pub open spec fn row_start(self, row: int) -> int {
        (self.y + row) * self.stride + 4 * self.x
    }

    /// Whether byte `i` of the image belongs to the rectangle.
    pub open spec fn holds(self, i: int) -> bool {
        &&& self.y <= i / self.stride < self.y + self.height
        &&& 4 * self.x <= i % self.stride < 4 * (self.x + self.width)
    }

    /// The row of the rectangle that byte `i` of the image is in.
    pub open spec fn row_of(self, i: int) -> int {
        i / self.stride - self.y
    }

    /// The place of byte `i` of the image among the rectangle's bytes, rows one after the other.
    pub open spec fn place_of(self, i: int) -> int {
        self.row_of(i) * (4 * self.width) + (i % self.stride - 4 * self.x)
    }
}

/// An image with a rectangle overwritten by `src`, row by row. A row that the image does not hold
/// whole is left out.
pub open spec fn blitted(image: Seq<u8>, area: Area, src: Seq<u8>) -> Seq<u8> {
    Seq::new(
        image.len(),
        |i: int|
            if area.holds(i) && area.row_start(area.row_of(i)) + 4 * area.width <= image.len() {
                src[area.place_of(i)]
            } else {
                image[i]
            },
    )
}

/// The bytes of a rectangle's rows before row `rows`, as far as the image holds them whole.
pub open spec fn rows_read(image: Seq<u8>, area: Area, rows: int) -> Seq<u8>
    decreases rows,
{
    if rows <= 0 {
        Seq::empty()
    } else {
        let start = area.row_start(rows - 1);
        if start + 4 * area.width <= image.len() {
            rows_read(image, area, rows - 1) + image.subrange(start, start + 4 * area.width)
        } else {
            rows_read(image, area, rows - 1)
        }
    }
}

/// The bytes of a rectangle.
pub open spec fn cropped(image: Seq<u8>, area: Area) -> Seq<u8> {
    rows_read(image, area, area.height)
}

/// Byte `k` of row `row` of a rectangle: where it is in the image and in the rectangle.
pub proof fn lemma_byte_place(area: Area, row: int, k: int)
    requires
        area.wf(),
        0 <= k < 4 * area.width,
    ensures
        ({
            let i = area.row_start(row) + k;
            &&& area.row_of(i) == row
            &&& i % area.stride == 4 * area.x + k
            &&& i / area.stride == area.y + row
            &&& area.place_of(i) == row * (4 * area.width) + k
            &&& (0 <= row < area.height ==> area.holds(i))
        }),
{
    let i = area.row_start(row) + k;
    lemma_fundamental_div_mod_converse(i, area.stride, area.y + row, 4 * area.x + k);
}

/// A byte of a rectangle is one of the bytes of its row.
pub proof fn lemma_place_byte(area: Area, i: int)
    requires
        area.wf(),
        area.holds(i),
    ensures
        ({
            let k = i % area.stride - 4 * area.x;
            &&& 0 <= k < 4 * area.width
            &&& i == area.row_start(area.row_of(i)) + k
            &&& 0 <= area.row_of(i) < area.height
        }),
{
    lemma_fundamental_div_mod(i, area.stride);
    assert(area.stride * (i / area.stride) == (i / area.stride) * area.stride)
        by (nonlinear_arith);
}

/// Copies `n` bytes from one buffer to another.
pub fn copy_bytes(dst: &mut Vec<u8>, at: usize, src: &Vec<u8>, from: usize, n: usize)
    requires
        at + n <= old(dst)@.len(),
        from + n <= src@.len(),
    ensures
        final(dst)@.len() == old(dst)@.len(),
        forall|i: int|
            0 <= i < old(dst)@.len() ==> #[trigger] final(dst)@[i] == (if at <= i < at + n {
                src@[from + i - at]
            } else {
                old(dst)@[i]
            }),
{
    let ghost before = dst@;
    let mut k: usize = 0;
    while k < n
        invariant
            k <= n,
            at + n <= dst.len(),
            from + n <= src.len(),
            dst@.len() == before.len(),
            forall|i: int|
                0 <= i < before.len() ==> #[trigger] dst@[i] == (if at <= i < at + k {
                    src@[from + i - at]
                } else {
                    before[i]
                }),
        decreases n - k,
    {
        let b: u8 = src[from + k];
        dst.set(at + k, b);
        k = k + 1;
    }
}

/// A rectangle given by 32-bit numbers, in an image `image_width` pixels wide.
pub open spec fn area_of(image_width: u32, x: u32, y: u32, width: u32, height: u32) -> Area {
    Area {
        stride: 4 * image_width,
        x: x as int,
        y: y as int,
        width: width as int,
        height: height as int,
    }
}

/// Writes `src` over a rectangle of an image, row by row. Rows beyond the image are left out.
pub fn blit(
    image: &mut Vec<u8>,
    image_width: u32,
    x: u32,
    y: u32,
    width: u32,
    height: u32,
    src: &Vec<u8>,
)
    requires
        0 < image_width,
        x + width <= image_width,
        height * (4 * width) <= src@.len(),
    ensures
        final(image)@ == blitted(old(image)@, area_of(image_width, x, y, width, height), src@),
{
    let ghost before = image@;
    let ghost area = area_of(image_width, x, y, width, height);
    let stride: u128 = 4 * image_width as u128;
    let row_bytes: u128 = 4 * width as u128;
    let mut row: u32 = 0;
    while row < height
        invariant
            row <= height,
            0 < image_width,
            stride == 4 * image_width,
            row_bytes == 4 * width,
            x + width <= image_width,
            height * row_bytes <= src.len(),
            area == area_of(image_width, x, y, width, height),
            area.wf(),
            image@.len() == before.len(),
            forall|i: int|
                #![trigger image@[i]]
                0 <= i < before.len() ==> image@[i] == (if area.holds(i) && area.row_of(i) < row
                    && area.row_start(area.row_of(i)) + 4 * area.width <= before.len() {
                    src@[area.place_of(i)]
                } else {
                    before[i]
                }),
        decreases height - row,
    {
        proof {
            assert((row + 1) * row_bytes <= height * row_bytes) by (nonlinear_arith)
                requires
                    row + 1 <= height,
                    0 <= row_bytes,
            ;
            assert((row + 1) * row_bytes == row * row_bytes + row_bytes) by (nonlinear_arith);
            assert(0 <= (y + row) * stride <= 0x2_0000_0000 * 0x4_0000_0000) by (nonlinear_arith)
                requires
                    0 <= y + row <= 0x2_0000_0000,
                    0 <= stride <= 0x4_0000_0000,
            ;
            assert(0 <= row * row_bytes) by (nonlinear_arith)
                requires
                    0 <= row,
                    0 <= row_bytes,
            ;
        }
        let from: u128 = row as u128 * row_bytes;
        let at: u128 = (y as u128 + row as u128) * stride + 4 * x as u128;
        assert(at == area.row_start(row as int));
        let ghost prev = image@;
        if at + row_bytes <= image.len() as u128 {
            copy_bytes(image, at as usize, src, from as usize, row_bytes as usize);
        }
        proof {
            assert forall|i: int|
                0 <= i < before.len() implies #[trigger] image@[i] == (if area.holds(i)
                && area.row_of(i) < row + 1 && area.row_start(area.row_of(i)) + 4 * area.width
                <= before.len() {
                src@[area.place_of(i)]
            } else {
                before[i]
            }) by {
                assert(prev[i] == (if area.holds(i) && area.row_of(i) < row && area.row_start(
                    area.row_of(i),
                ) + 4 * area.width <= before.len() {
                    src@[area.place_of(i)]
                } else {
                    before[i]
                }));
                if at <= i < at + row_bytes {
                    lemma_byte_place(area, row as int, i - at);
                } else if area.holds(i) {
                    lemma_place_byte(area, i);
                }
            }
        }
        row = row + 1;
    }
    assert(image@ =~= blitted(before, area, src@));
}

/// Reads a rectangle of an image, row by row. Rows beyond the image are left out.
pub fn crop(image: &[u8], image_width: u32, x: u32, y: u32, width: u32, height: u32) -> (bytes:
    Vec<u8>)
    ensures
        bytes@ == cropped(image@, area_of(image_width, x, y, width, height)),
{
    let ghost area = area_of(image_width, x, y, width, height);
    let stride: u128 = 4 * image_width as u128;
    let row_bytes: u128 = 4 * width as u128;
    let mut bytes: Vec<u8> = Vec::new();
    let mut row: u32 = 0;
    while row < height
        invariant
            row <= height,
            stride == 4 * image_width,
            row_bytes == 4 * width,
            area == area_of(image_width, x, y, width, height),
            bytes@ == rows_read(image@, area, row as int),
        decreases height - row,
    {
        assert(0 <= (y + row) * stride <= 0x2_0000_0000 * 0x4_0000_0000) by (nonlinear_arith)
            requires
                0 <= y + row <= 0x2_0000_0000,
                0 <= stride <= 0x4_0000_0000,
        ;
        let at: u128 = (y as u128 + row as u128) * stride + 4 * x as u128;
        assert(at == area.row_start(row as int));
        if at + row_bytes <= image.len() as u128 {
            let start: usize = at as usize;
            let count: usize = row_bytes as usize;
            let ghost before = bytes@;
            let mut k: usize = 0;
            assert(bytes@ =~= before + image@.subrange(start as int, start as int));
            while k < count
                invariant
                    k <= count,
                    start + count <= image.len(),
                    bytes@ == before + image@.subrange(start as int, start + k),
                decreases count - k,
            {
                bytes.push(image[start + k]);
                k = k + 1;
                assert(bytes@ =~= before + image@.subrange(start as int, start + k));
            }
        }
        row = row + 1;
    }
    bytes
}

} // verus!
