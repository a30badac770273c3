//! The raster side of a render: pixel addressing and the output buffer.
use std::path::PathBuf;
use vstd::prelude::*;
use crate::color::Color;
use crate::color::Rgb8;

verus! {

/// `std::path::PathBuf`, which Verus does not look into: a renderer carries
/// its output path and nothing here reads it.
#[verifier::external_type_specification]
#[verifier::external_body]
pub struct ExPathBuf(PathBuf);

/// What to render: where the image goes, how many samples each pixel
/// takes, and the image's width and height in pixels.
pub struct Renderer {
    pub output_file: PathBuf,
    pub num_samples: usize,
    pub resolution_x: usize,
    pub resolution_y: usize,
}

/// The bytes of an image: three per pixel, in the pixels' order.
pub open spec fn flattened(pixels: Seq<Rgb8>) -> Seq<u8> {
    Seq::new(
        3 * pixels.len(),
        |k: int|
            if k % 3 == 0 {
                pixels[k / 3].r
            } else if k % 3 == 1 {
                pixels[k / 3].g
            } else {
                pixels[k / 3].b
            },
    )
}

/// The pixels that colours are written as.
pub open spec fn pixels_of(image: Seq<Color>) -> Seq<Rgb8> {
    Seq::new(image.len(), |i: int| image[i].rgb())
}

impl Renderer {
    /// The number of pixels of the image.
    pub open spec fn area(self) -> nat {
        (self.resolution_x * self.resolution_y) as nat
    }

    /// The row-major position of pixel `(px, py)`.
    pub open spec fn index_of(self, px: nat, py: nat) -> nat {
        (py * self.resolution_x + px) as nat
    }

    /// The number of pixels, or `None` when it does not fit the machine.
    pub fn pixel_count(&self) -> (n: Option<usize>)
        ensures
            n is Some <==> self.area() <= usize::MAX,
            n is Some ==> n->0 == self.area(),
    {
        self.resolution_x.checked_mul(self.resolution_y)
    }

    /// The position of pixel `(px, py)` in the image, rows from the top and
    /// each row from the left.
    pub fn pixel_index(&self, px: usize, py: usize) -> (idx: usize)
        requires
            px < self.resolution_x,
            py < self.resolution_y,
            self.area() <= usize::MAX,
        ensures
            idx == self.index_of(px as nat, py as nat),
            idx < self.area(),
    {
        proof {
            lemma_index_in_area(px as int, py as int, self.resolution_x as int, self.resolution_y as int);
        }
        self.resolution_x * py + px
    }

    /// Distinct pixels have distinct positions.
    pub proof fn lemma_index_is_injective(self, px: nat, py: nat, qx: nat, qy: nat)
        requires
            px < self.resolution_x,
            qx < self.resolution_x,
            self.index_of(px, py) == self.index_of(qx, qy),
        ensures
            px == qx,
            py == qy,
    {
        let w = self.resolution_x as int;
        assert(py == qy) by (nonlinear_arith)
            requires
                0 <= px < w,
                0 <= qx < w,
                py * w + px == qy * w + qx,
        ;
    }

    /// The pixel whose position is `idx`: the inverse of `pixel_index`.
    pub fn pixel_at(&self, idx: usize) -> (p: (usize, usize))
        requires
            idx < self.area(),
        ensures
            p.0 < self.resolution_x,
            p.1 < self.resolution_y,
            self.index_of(p.0 as nat, p.1 as nat) == idx,
    {
        proof {
            lemma_split_index(idx as int, self.resolution_x as int, self.resolution_y as int);
        }
        (idx % self.resolution_x, idx / self.resolution_x)
    }

    /// The image's width and height as the encoder takes them, or `None`
    /// when one of them does not fit 32 bits.
    pub fn dimensions(&self) -> (d: Option<(u32, u32)>)
        ensures
            d is Some <==> self.resolution_x <= u32::MAX && self.resolution_y <= u32::MAX,
            d is Some ==> d == Some((self.resolution_x as u32, self.resolution_y as u32)),
    {
        if self.resolution_x <= 0xFFFF_FFFF && self.resolution_y <= 0xFFFF_FFFF {
            Some((self.resolution_x as u32, self.resolution_y as u32))
        } else {
            None
        }
    }

    /// An all-black image of the configured size, or `None` when the number
    /// of pixels does not fit the machine.
    pub fn blank_image(&self) -> (image: Option<Vec<Color>>)
        ensures
            image is Some <==> self.area() <= usize::MAX,
            image is Some ==> image->0@ == Seq::new(self.area(), |i: int| Color::black_spec()),
    {
        match self.pixel_count() {
            Some(n) => {
                let mut image: Vec<Color> = Vec::new();
                let mut i: usize = 0;
                while i < n
                    invariant
                        i <= n,
                        image@ == Seq::new(i as nat, |k: int| Color::black_spec()),
                    decreases n - i,
                {
                    image.push(Color::black());
                    i = i + 1;
                    assert(image@ =~= Seq::new(i as nat, |k: int| Color::black_spec()));
                }
                Some(image)
            },
            None => None,
        }
    }

    /// Stores the colour of pixel `(px, py)`; every other pixel stays.
    pub fn store_pixel(&self, image: &mut Vec<Color>, px: usize, py: usize, color: Color)
        requires
            px < self.resolution_x,
            py < self.resolution_y,
            old(image)@.len() == self.area(),
        ensures
            final(image)@ == old(image)@.update(self.index_of(px as nat, py as nat) as int, color),
    {
        assert(image.len() == image@.len());
        let idx: usize = self.pixel_index(px, py);
        image[idx] = color;
    }

    /// The image as the encoder takes it: for each colour, in order, the
    /// three bytes of the pixel it is written as.
    pub fn image_bytes(image: &Vec<Color>) -> (bytes: Vec<u8>)
        requires
            3 * image.len() <= usize::MAX,
        ensures
            bytes@ == flattened(pixels_of(image@)),
    {
        let mut bytes: Vec<u8> = Vec::new();
        let mut i: usize = 0;
        while i < image.len()
            invariant
                i <= image.len(),
                bytes@ == flattened(pixels_of(image@.take(i as int))),
            decreases image.len() - i,
        {
            let p = image[i].to_rgb();
            bytes.push(p.r);
            bytes.push(p.g);
            bytes.push(p.b);
            proof {
                let seen = pixels_of(image@.take(i as int));
                let next = pixels_of(image@.take(i + 1));
                assert(forall|j: int| 0 <= j < i ==> next[j] == seen[j]);
                assert(next[i as int] == p);
                assert(bytes@ =~= flattened(next));
            }
            i = i + 1;
        }
        assert(image@.take(i as int) == image@);
        bytes
    }
}

proof fn lemma_index_in_area(px: int, py: int, width: int, height: int)
    requires
        0 <= px < width,
        0 <= py < height,
    ensures
        0 <= width * py + px < width * height,
        width * py + px == py * width + px,
{
    assert(width * py + px < width * height) by (nonlinear_arith)
        requires
            0 <= px < width,
            0 <= py < height,
    ;
    assert(0 <= width * py) by (nonlinear_arith)
        requires
            0 <= width,
            0 <= py,
    ;
    assert(width * py == py * width) by (nonlinear_arith);
}

proof fn lemma_split_index(idx: int, width: int, height: int)
    requires
        0 <= idx < width * height,
        0 <= width,
        0 <= height,
    ensures
        width > 0,
        0 <= idx % width < width,
        0 <= idx / width < height,
        (idx / width) * width + idx % width == idx,
{
    assert(width > 0) by (nonlinear_arith)
        requires
            0 <= idx < width * height,
            0 <= width,
    ;
    assert(0 <= idx % width < width && 0 <= idx / width && (idx / width) * width + idx % width
        == idx) by (nonlinear_arith)
        requires
            width > 0,
            0 <= idx,
    ;
    assert(idx / width < height) by (nonlinear_arith)
        requires
            width > 0,
            0 <= idx < width * height,
            (idx / width) * width + idx % width == idx,
            0 <= idx % width,
    ;
}

} // verus!
