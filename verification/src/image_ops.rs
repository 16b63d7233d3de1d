//! RGB images: drawing projected points, comparing images pixel by pixel and
//! looking pixels up.
//!
//! The pixel data lives in an `image::RgbImage`; the library reaches it only
//! through the trusted operations below, whose contracts speak of the image's
//! rows of pixels.

use vstd::prelude::*;
use vstd::string::*;

use crate::text::{decimal, push_decimal};
use crate::camera::Resolution;
use crate::util::UtilError;

verus! {

/// How a pixel value is read at a non-integer position.
#[derive(Debug, Clone, Copy, PartialEq, Eq, Structural)]
pub enum InterpolationMethod {
    Nearest,
    Bilinear,
}

/// An RGB colour.
pub type Rgb = (u8, u8, u8);

/// An RGB image with 8 bits per channel.
#[verifier::external_body]
pub struct RgbImage {
    inner: image::RgbImage,
}

/// The pixels of an image, row by row: `image_rows(img)[y][x]` is the pixel
/// at column `x` of row `y`.
pub uninterp spec fn image_rows(img: RgbImage) -> Seq<Seq<Rgb>>;

/// The width of an image in pixels.
pub uninterp spec fn image_width(img: RgbImage) -> nat;

/// The image is `width` pixels wide and `height` rows high.
pub open spec fn has_size(rows: Seq<Seq<Rgb>>, width: nat, height: nat) -> bool {
    &&& rows.len() == height
    &&& forall|y: int| 0 <= y < height ==> #[trigger] rows[y].len() == width
}

impl RgbImage {
    /// Calls `image::RgbImage::new`: an all-black image of the given size.
    /// The call panics when `3 * width * height` overflows `usize`, which
    /// the precondition rules out.
    #[verifier::external_body]
    pub fn new(width: u32, height: u32) -> (img: RgbImage)
        requires
            3 * width * height <= usize::MAX,
        ensures
            image_width(img) == width,
            has_size(image_rows(img), width as nat, height as nat),
            forall|y: int, x: int|
                0 <= y < height && 0 <= x < width ==> #[trigger] image_rows(img)[y][x] == (0u8, 0u8, 0u8),
    {
        RgbImage { inner: image::RgbImage::new(width, height) }
    }

    /// Calls `image::RgbImage::from_raw`: the image of the given size whose
    /// pixels are the byte triples of `data` in row-major order; `None` when
    /// `data` holds fewer than `3 * width * height` bytes or that number
    /// overflows `usize`.
    #[verifier::external_body]
    pub fn from_raw(width: u32, height: u32, data: Vec<u8>) -> (img: Option<RgbImage>)
        ensures
            img is Some <==> (3 * width * height <= usize::MAX && 3 * width * height <= data@.len()),
            img matches Some(i) ==> image_width(i) == width,
            img matches Some(i) ==> has_size(image_rows(i), width as nat, height as nat),
            img matches Some(i) ==> forall|y: int, x: int|
                0 <= y < height && 0 <= x < width ==> #[trigger] image_rows(i)[y][x] == (
                    data@[3 * (y * width + x)],
                    data@[3 * (y * width + x) + 1],
                    data@[3 * (y * width + x) + 2],
                ),
    {
        image::RgbImage::from_raw(width, height, data).map(|inner| RgbImage { inner })
    }

    /// Calls `image::ImageBuffer::into_raw`: the image's bytes, the pixels'
    /// byte triples in row-major order first.
    #[verifier::external_body]
    pub fn into_raw(self) -> (data: Vec<u8>)
        ensures
            3 * image_width(self) * image_rows(self).len() <= data@.len(),
            forall|y: int, x: int|
                0 <= y < image_rows(self).len() && 0 <= x < image_width(self)
                    ==> #[trigger] image_rows(self)[y][x] == (
                    data@[3 * (y * image_width(self) + x)],
                    data@[3 * (y * image_width(self) + x) + 1],
                    data@[3 * (y * image_width(self) + x) + 2],
                ),
    {
        self.inner.into_raw()
    }

    /// Calls `image::ImageBuffer::dimensions`: the width and the height.
    #[verifier::external_body]
    pub fn dimensions(&self) -> (r: (u32, u32))
        ensures
            r.0 == image_width(*self) && has_size(image_rows(*self), r.0 as nat, r.1 as nat),
    {
        self.inner.dimensions()
    }

    /// Calls `image::ImageBuffer::get_pixel`, which panics outside the image.
    #[verifier::external_body]
    pub fn get_pixel(&self, x: u32, y: u32) -> (p: Rgb)
        requires
            y < image_rows(*self).len(),
            x < image_width(*self),
        ensures
            p == image_rows(*self)[y as int][x as int],
    {
        let p = self.inner.get_pixel(x, y);
        (p[0], p[1], p[2])
    }

    /// Calls `image::ImageBuffer::put_pixel`, which panics outside the image.
    #[verifier::external_body]
    pub fn put_pixel(&mut self, x: u32, y: u32, p: Rgb)
        requires
            y < image_rows(*old(self)).len(),
            x < image_width(*old(self)),
        ensures
            image_width(*final(self)) == image_width(*old(self)),
            image_rows(*final(self)) == image_rows(*old(self)).update(
                y as int,
                image_rows(*old(self))[y as int].update(x as int, p),
            ),
    {
        self.inner.put_pixel(x, y, image::Rgb([p.0, p.1, p.2]))
    }

    /// Calls `Clone::clone` of `image::RgbImage`: an image with the same
    /// pixels.
    #[verifier::external_body]
    pub fn clone_image(&self) -> (r: RgbImage)
        ensures
            image_width(r) == image_width(*self),
            image_rows(r) == image_rows(*self),
    {
        RgbImage { inner: self.inner.clone() }
    }
}

/// Pixel `(x, y)` lies in the disc of radius 2 around `(cx, cy)`.
pub open spec fn in_disc(cx: int, cy: int, x: int, y: int) -> bool {
    (x - cx) * (x - cx) + (y - cy) * (y - cy) <= 4
}

/// A pixel of a disc of radius 2 is at most two columns and two rows away
/// from its centre.
pub broadcast proof fn lemma_disc_bounds(cx: int, cy: int, x: int, y: int)
    requires
        #[trigger] in_disc(cx, cy, x, y),
    ensures
        -2 <= x - cx <= 2,
        -2 <= y - cy <= 2,
{
    assert(-2 <= x - cx <= 2 && -2 <= y - cy <= 2) by (nonlinear_arith)
        requires
            (x - cx) * (x - cx) + (y - cy) * (y - cy) <= 4,
    ;
}

/// Drawing a point at `(cx, cy)` on a `width` x `height` image colours pixel
/// `(x, y)`: the pixel lies in the point's disc and inside the image, the
/// bounds being compared as `i32` values (`x < width as i32`).
pub open spec fn disc_covers(width: u32, height: u32, cx: i32, cy: i32, x: int, y: int) -> bool {
    &&& in_disc(cx as int, cy as int, x, y)
    &&& 0 <= x < (width as i32)
    &&& 0 <= y < (height as i32)
}

/// Draws a point at `(cx, cy)` as a disc of radius 2 in colour `color`.
pub fn draw_disc(img: &mut RgbImage, cx: i32, cy: i32, color: Rgb)
    ensures
        image_width(*final(img)) == image_width(*old(img)),
        image_rows(*final(img)).len() == image_rows(*old(img)).len(),
        has_size(image_rows(*old(img)), image_width(*old(img)), image_rows(*old(img)).len())
            ==> has_size(image_rows(*final(img)), image_width(*old(img)), image_rows(*old(img)).len()),
        forall|y: int, x: int|
            0 <= y < image_rows(*old(img)).len() && 0 <= x < image_width(*old(img)) ==> #[trigger] image_rows(
                *final(img),
            )[y][x] == if disc_covers(
                image_width(*old(img)) as u32,
                image_rows(*old(img)).len() as u32,
                cx,
                cy,
                x,
                y,
            ) {
                color
            } else {
                image_rows(*old(img))[y][x]
            },
{
    broadcast use lemma_disc_bounds;

    let (w, h) = img.dimensions();
    let ghost old_rows = image_rows(*img);
    let wl: i64 = (#[verifier::truncate] (w as i32)) as i64;
    let hl: i64 = (#[verifier::truncate] (h as i32)) as i64;
    let mut dy: i64 = -2;
    while dy <= 2
        invariant
            old_rows == image_rows(*old(img)),
            image_width(*img) == w,
            w == image_width(*old(img)),
            has_size(old_rows, w as nat, h as nat),
            has_size(image_rows(*img), w as nat, h as nat),
            wl == (#[verifier::truncate] (w as i32)) as i64,
            hl == (#[verifier::truncate] (h as i32)) as i64,
            -2 <= dy <= 3,
            forall|y: int, x: int|
                0 <= y < h && 0 <= x < w ==> #[trigger] image_rows(*img)[y][x] == if disc_covers(w, h, cx, cy, x, y)
                    && y - cy < dy {
                    color
                } else {
                    old_rows[y][x]
                },
        decreases 3 - dy,
    {
        let mut dx: i64 = -2;
        proof {
            assert forall|y: int, x: int| 0 <= y < h && 0 <= x < w implies #[trigger] image_rows(*img)[y][x]
                == if disc_covers(w, h, cx, cy, x, y) && (y - cy < dy || (y - cy == dy && x - cx < dx)) {
                color
            } else {
                old_rows[y][x]
            } by {
                if disc_covers(w, h, cx, cy, x, y) {
                    lemma_disc_bounds(cx as int, cy as int, x, y);
                }
            }
        }
        while dx <= 2
            invariant
                old_rows == image_rows(*old(img)),
                image_width(*img) == w,
                has_size(old_rows, w as nat, h as nat),
                has_size(image_rows(*img), w as nat, h as nat),
                wl == (#[verifier::truncate] (w as i32)) as i64,
                hl == (#[verifier::truncate] (h as i32)) as i64,
                -2 <= dy <= 2,
                -2 <= dx <= 3,
                forall|y: int, x: int|
                    0 <= y < h && 0 <= x < w ==> #[trigger] image_rows(*img)[y][x] == if disc_covers(
                        w,
                        h,
                        cx,
                        cy,
                        x,
                        y,
                    ) && (y - cy < dy || (y - cy == dy && x - cx < dx)) {
                        color
                    } else {
                        old_rows[y][x]
                    },
            decreases 3 - dx,
        {
            assert(0 <= dx * dx <= 4 && 0 <= dy * dy <= 4) by (nonlinear_arith)
                requires
                    -2 <= dx <= 2,
                    -2 <= dy <= 2,
            ;
            if dx * dx + dy * dy <= 4 {
                let x = cx as i64 + dx;
                let y = cy as i64 + dy;
                if x >= 0 && x < wl && y >= 0 && y < hl {
                    let ghost before = image_rows(*img);
                    img.put_pixel(x as u32, y as u32, color);
                    proof {
                        assert forall|yy: int, xx: int| 0 <= yy < h && 0 <= xx < w implies #[trigger] image_rows(
                            *img,
                        )[yy][xx] == if disc_covers(w, h, cx, cy, xx, yy) && (yy - cy < dy || (yy - cy
                            == dy && xx - cx < dx + 1)) {
                            color
                        } else {
                            old_rows[yy][xx]
                        } by {
                            if yy == y && xx == x {
                            } else {
                                assert(image_rows(*img)[yy][xx] == before[yy][xx]);
                            }
                        }
                    }
                }
            }
            dx = dx + 1;
        }
        proof {
            assert forall|y: int, x: int| 0 <= y < h && 0 <= x < w implies #[trigger] image_rows(*img)[y][x]
                == if disc_covers(w, h, cx, cy, x, y) && y - cy < dy + 1 {
                color
            } else {
                old_rows[y][x]
            } by {
                if disc_covers(w, h, cx, cy, x, y) {
                    lemma_disc_bounds(cx as int, cy as int, x, y);
                }
            }
        }
        dy = dy + 1;
    }
}

/// A point to draw: its centre and its colour.
pub type Disc = (i32, i32, Rgb);

/// The colour of pixel `(x, y)` of a `width` x `height` image, whose colour
/// was `base`, after the points `discs` are drawn in order: the colour of the
/// last point whose disc covers the pixel, `base` when none does.
pub open spec fn painted(base: Rgb, width: u32, height: u32, discs: Seq<Disc>, x: int, y: int) -> Rgb
    decreases discs.len(),
{
    if discs.len() == 0 {
        base
    } else {
        let d = discs.last();
        if disc_covers(width, height, d.0, d.1, x, y) {
            d.2
        } else {
            painted(base, width, height, discs.drop_last(), x, y)
        }
    }
}

/// Draws the points `discs` in order.
pub fn draw_discs(img: &mut RgbImage, discs: &Vec<Disc>)
    requires
        has_size(image_rows(*old(img)), image_width(*old(img)), image_rows(*old(img)).len()),
        image_width(*old(img)) <= u32::MAX,
        image_rows(*old(img)).len() <= u32::MAX,
    ensures
        image_width(*final(img)) == image_width(*old(img)),
        has_size(image_rows(*final(img)), image_width(*old(img)), image_rows(*old(img)).len()),
        forall|y: int, x: int|
            0 <= y < image_rows(*old(img)).len() && 0 <= x < image_width(*old(img)) ==> #[trigger] image_rows(
                *final(img),
            )[y][x] == painted(
                image_rows(*old(img))[y][x],
                image_width(*old(img)) as u32,
                image_rows(*old(img)).len() as u32,
                discs@,
                x,
                y,
            ),
{
    let ghost old_rows = image_rows(*img);
    let ghost w = image_width(*img) as u32;
    let ghost h = image_rows(*img).len() as u32;
    let n = discs.len();
    let mut i: usize = 0;
    while i < n
        invariant
            n == discs@.len(),
            i <= n,
            old_rows == image_rows(*old(img)),
            w == image_width(*old(img)),
            h == image_rows(*old(img)).len(),
            image_width(*img) == w,
            has_size(image_rows(*img), w as nat, h as nat),
            forall|y: int, x: int|
                0 <= y < h && 0 <= x < w ==> #[trigger] image_rows(*img)[y][x] == painted(
                    old_rows[y][x],
                    w,
                    h,
                    discs@.take(i as int),
                    x,
                    y,
                ),
        decreases n - i,
    {
        let d = discs[i];
        draw_disc(img, d.0, d.1, d.2);
        proof {
            let t = discs@.take(i + 1);
            assert(t.drop_last() =~= discs@.take(i as int));
            assert(t.last() == d);
        }
        i = i + 1;
    }
    assert(discs@.take(n as int) =~= discs@);
}

/// The points at `centers`, each in colour `color`.
pub open spec fn colored(centers: Seq<(i32, i32)>, color: Rgb) -> Seq<Disc> {
    Seq::new(centers.len(), |i: int| (centers[i].0, centers[i].1, color))
}

/// The points at `centers` paired with the colours `colors`, as many as both
/// lists hold.
pub open spec fn zip_discs(centers: Seq<(i32, i32)>, colors: Seq<Rgb>) -> Seq<Disc> {
    let n = if centers.len() <= colors.len() { centers.len() } else { colors.len() };
    Seq::new(n, |i: int| (centers[i].0, centers[i].1, colors[i]))
}

fn colored_discs(centers: &Vec<(i32, i32)>, color: Rgb) -> (r: Vec<Disc>)
    ensures
        r@ == colored(centers@, color),
{
    let mut r: Vec<Disc> = Vec::new();
    let mut i: usize = 0;
    while i < centers.len()
        invariant
            i <= centers@.len(),
            r@ == colored(centers@, color).take(i as int),
        decreases centers@.len() - i,
    {
        r.push((centers[i].0, centers[i].1, color));
        i = i + 1;
        assert(r@ =~= colored(centers@, color).take(i as int));
    }
    assert(r@ =~= colored(centers@, color));
    r
}

/// Green, the colour of the input model's projections.
pub open spec fn green() -> Rgb {
    (0u8, 255u8, 0u8)
}

/// Magenta, the colour of the output model's projections.
pub open spec fn magenta() -> Rgb {
    (255u8, 0u8, 255u8)
}

/// The image is `width` x `height` and its pixels are those of a base image
/// (given pixel by pixel) after drawing `discs`.
pub open spec fn drawn_image(img: RgbImage, width: u32, height: u32, base: spec_fn(int, int) -> Rgb, discs: Seq<Disc>) -> bool {
    &&& image_width(img) == width
    &&& has_size(image_rows(img), width as nat, height as nat)
    &&& forall|y: int, x: int|
        0 <= y < height && 0 <= x < width ==> #[trigger] image_rows(img)[y][x] == painted(
            base(x, y),
            width,
            height,
            discs,
            x,
            y,
        )
}

/// A black image of the given size with the projections `centers` drawn in
/// the colours `colors` (as many as both lists hold).
pub fn create_projection_image(
    centers: &Vec<(i32, i32)>,
    colors: &Vec<Rgb>,
    width: u32,
    height: u32,
) -> (r: Result<RgbImage, UtilError>)
    requires
        3 * width * height <= usize::MAX,
    ensures
        r matches Ok(img) && drawn_image(img, width, height, |x: int, y: int| (0u8, 0u8, 0u8), zip_discs(centers@, colors@)),
{
    let mut img = RgbImage::new(width, height);
    let n = if centers.len() <= colors.len() { centers.len() } else { colors.len() };
    let mut discs: Vec<Disc> = Vec::new();
    let mut i: usize = 0;
    while i < n
        invariant
            n <= centers@.len(),
            n <= colors@.len(),
            n == zip_discs(centers@, colors@).len(),
            i <= n,
            discs@ == zip_discs(centers@, colors@).take(i as int),
        decreases n - i,
    {
        discs.push((centers[i].0, centers[i].1, colors[i]));
        i = i + 1;
        assert(discs@ =~= zip_discs(centers@, colors@).take(i as int));
    }
    assert(discs@ =~= zip_discs(centers@, colors@));
    draw_discs(&mut img, &discs);
    Ok(img)
}

/// A black image of the given size with the input model's projections drawn
/// in green and then the output model's projections in magenta.
pub fn create_combined_projection_image(
    input_centers: &Vec<(i32, i32)>,
    output_centers: &Vec<(i32, i32)>,
    width: u32,
    height: u32,
) -> (r: Result<RgbImage, UtilError>)
    requires
        3 * width * height <= usize::MAX,
    ensures
        r matches Ok(img) && drawn_image(
            img,
            width,
            height,
            |x: int, y: int| (0u8, 0u8, 0u8),
            colored(input_centers@, green()) + colored(output_centers@, magenta()),
        ),
{
    let mut img = RgbImage::new(width, height);
    let mut discs = colored_discs(input_centers, (0, 255, 0));
    let mut more = colored_discs(output_centers, (255, 0, 255));
    discs.append(&mut more);
    draw_discs(&mut img, &discs);
    Ok(img)
}

/// A copy of `reference` with the input model's projections drawn in green
/// and then the output model's projections in magenta.
pub fn create_combined_projection_image_on_reference(
    input_centers: &Vec<(i32, i32)>,
    output_centers: &Vec<(i32, i32)>,
    reference: &RgbImage,
) -> (r: Result<RgbImage, UtilError>)
    ensures
        ({
            let w = image_width(*reference);
            let h = image_rows(*reference).len();
            r matches Ok(img) && drawn_image(
                img,
                w as u32,
                h as u32,
                |x: int, y: int| image_rows(*reference)[y][x],
                colored(input_centers@, green()) + colored(output_centers@, magenta()),
            )
        }),
{
    let (w, h) = reference.dimensions();
    let mut img = reference.clone_image();
    let mut discs = colored_discs(input_centers, (0, 255, 0));
    let mut more = colored_discs(output_centers, (255, 0, 255));
    discs.append(&mut more);
    draw_discs(&mut img, &discs);
    Ok(img)
}

/// The image of the input model's projections that a conversion run shows:
/// drawn in green on a copy of the reference image when there is one, on a
/// black image of the camera's resolution otherwise.
pub fn projection_visualization_image(
    centers: &Vec<(i32, i32)>,
    reference: Option<&RgbImage>,
    width: u32,
    height: u32,
) -> (r: Result<RgbImage, UtilError>)
    requires
        reference is None ==> 3 * width * height <= usize::MAX,
    ensures
        match reference {
            Some(ref_img) => r matches Ok(img) && drawn_image(
                img,
                image_width(*ref_img) as u32,
                image_rows(*ref_img).len() as u32,
                |x: int, y: int| image_rows(*ref_img)[y][x],
                colored(centers@, green()),
            ),
            None => r matches Ok(img) && drawn_image(
                img,
                width,
                height,
                |x: int, y: int| (0u8, 0u8, 0u8),
                colored(centers@, green()),
            ),
        },
{
    match reference {
        Some(ref_img) => {
            let (w, h) = ref_img.dimensions();
            let mut img = ref_img.clone_image();
            let discs = colored_discs(centers, (0, 255, 0));
            draw_discs(&mut img, &discs);
            Ok(img)
        },
        None => {
            let mut green_colors: Vec<Rgb> = Vec::new();
            let mut i: usize = 0;
            while i < centers.len()
                invariant
                    i <= centers@.len(),
                    green_colors@.len() == i,
                    forall|j: int| 0 <= j < i ==> #[trigger] green_colors@[j] == green(),
                decreases centers@.len() - i,
            {
                green_colors.push((0, 255, 0));
                i = i + 1;
            }
            let r = create_projection_image(centers, &green_colors, width, height);
            assert(zip_discs(centers@, green_colors@) =~= colored(centers@, green()));
            r
        },
    }
}

/// A pixel no drawn point covers keeps its colour.
pub proof fn lemma_painted_outside_discs(base: Rgb, width: u32, height: u32, discs: Seq<Disc>, x: int, y: int)
    requires
        forall|i: int| 0 <= i < discs.len() ==> !disc_covers(width, height, #[trigger] discs[i].0, discs[i].1, x, y),
    ensures
        painted(base, width, height, discs, x, y) == base,
    decreases discs.len(),
{
    if discs.len() > 0 {
        let rest = discs.drop_last();
        assert(!disc_covers(width, height, discs[discs.len() - 1].0, discs[discs.len() - 1].1, x, y));
        assert forall|i: int| 0 <= i < rest.len() implies !disc_covers(width, height, #[trigger] rest[i].0, rest[i].1, x, y) by {
            assert(rest[i] == discs[i]);
        }
        lemma_painted_outside_discs(base, width, height, rest, x, y);
    }
}

/// The pixel is black.
pub open spec fn is_black(p: Rgb) -> bool {
    p == (0u8, 0u8, 0u8)
}

/// The square of an integer.
pub open spec fn square(d: int) -> nat {
    (d * d) as nat
}

/// The squared channel differences of two pixels; pixels that are black in
/// both images do not count.
pub open spec fn pixel_squared_error(p: Rgb, q: Rgb) -> nat {
    if is_black(p) && is_black(q) {
        0
    } else {
        square(p.0 - q.0) + square(p.1 - q.1) + square(p.2 - q.2)
    }
}

/// The number of channels two pixels contribute: three, unless both are
/// black.
pub open spec fn pixel_channels(p: Rgb, q: Rgb) -> nat {
    if is_black(p) && is_black(q) {
        0
    } else {
        3
    }
}

/// The squared channel differences over the first `n` pixels of two rows.
pub open spec fn row_squared_error(r1: Seq<Rgb>, r2: Seq<Rgb>, n: int) -> nat
    decreases n,
{
    if n <= 0 {
        0
    } else {
        row_squared_error(r1, r2, n - 1) + pixel_squared_error(r1[n - 1], r2[n - 1])
    }
}

/// The channels counted over the first `n` pixels of two rows.
pub open spec fn row_channels(r1: Seq<Rgb>, r2: Seq<Rgb>, n: int) -> nat
    decreases n,
{
    if n <= 0 {
        0
    } else {
        row_channels(r1, r2, n - 1) + pixel_channels(r1[n - 1], r2[n - 1])
    }
}

/// The squared channel differences over the first `n` rows (each `width`
/// pixels wide) of two images.
pub open spec fn image_squared_error(a: Seq<Seq<Rgb>>, b: Seq<Seq<Rgb>>, width: int, n: int) -> nat
    decreases n,
{
    if n <= 0 {
        0
    } else {
        image_squared_error(a, b, width, n - 1) + row_squared_error(a[n - 1], b[n - 1], width)
    }
}

/// The channels counted over the first `n` rows of two images.
pub open spec fn image_channels(a: Seq<Seq<Rgb>>, b: Seq<Seq<Rgb>>, width: int, n: int) -> nat
    decreases n,
{
    if n <= 0 {
        0
    } else {
        image_channels(a, b, width, n - 1) + row_channels(a[n - 1], b[n - 1], width)
    }
}

/// An image compared with itself has no error.
pub proof fn lemma_self_comparison_has_no_error(a: Seq<Seq<Rgb>>, width: int, n: int)
    ensures
        image_squared_error(a, a, width, n) == 0,
    decreases n,
{
    if n > 0 {
        lemma_self_comparison_has_no_error(a, width, n - 1);
        lemma_row_self_comparison(a[n - 1], width);
    }
}

proof fn lemma_row_self_comparison(r: Seq<Rgb>, n: int)
    ensures
        row_squared_error(r, r, n) == 0,
    decreases n,
{
    if n > 0 {
        lemma_row_self_comparison(r, n - 1);
    }
}

/// Comparing two pixels gives the same error and channel count in either
/// order.
proof fn lemma_pixel_comparison_symmetric(p: Rgb, q: Rgb)
    ensures
        pixel_squared_error(p, q) == pixel_squared_error(q, p),
        pixel_channels(p, q) == pixel_channels(q, p),
{
    assert forall|d: int| #[trigger] square(d) == square(-d) by {
        assert(d * d == (-d) * (-d)) by (nonlinear_arith);
    }
    assert(q.0 - p.0 == -(p.0 - q.0));
    assert(q.1 - p.1 == -(p.1 - q.1));
    assert(q.2 - p.2 == -(p.2 - q.2));
}

proof fn lemma_row_comparison_symmetric(r1: Seq<Rgb>, r2: Seq<Rgb>, n: int)
    ensures
        row_squared_error(r1, r2, n) == row_squared_error(r2, r1, n),
        row_channels(r1, r2, n) == row_channels(r2, r1, n),
    decreases n,
{
    if n > 0 {
        lemma_row_comparison_symmetric(r1, r2, n - 1);
        lemma_pixel_comparison_symmetric(r1[n - 1], r2[n - 1]);
    }
}

/// The totals a PSNR is computed from do not depend on which image comes
/// first: two images give the same squared error and the same number of
/// compared channels in either order.
pub proof fn lemma_comparison_symmetric(a: Seq<Seq<Rgb>>, b: Seq<Seq<Rgb>>, width: int, n: int)
    ensures
        image_squared_error(a, b, width, n) == image_squared_error(b, a, width, n),
        image_channels(a, b, width, n) == image_channels(b, a, width, n),
    decreases n,
{
    if n > 0 {
        lemma_comparison_symmetric(a, b, width, n - 1);
        lemma_row_comparison_symmetric(a[n - 1], b[n - 1], width);
    }
}

fn channel_squared_difference(a: u8, b: u8) -> (r: u128)
    ensures
        r == square(a - b),
        r <= 65025,
{
    let d: i32 = a as i32 - b as i32;
    assert(0 <= d * d <= 65025) by (nonlinear_arith)
        requires
            -255 <= d <= 255,
    ;
    (d * d) as u128
}

/// The totals a peak signal-to-noise ratio is computed from: the sum of the
/// squared channel differences of two images and the number of channels
/// compared, skipping pixels that are black in both images.  The images
/// must have the same dimensions.
pub fn psnr_error_totals(img1: &RgbImage, img2: &RgbImage) -> (r: Result<(u128, u128), UtilError>)
    ensures
        ({
            let a = image_rows(*img1);
            let b = image_rows(*img2);
            let w = image_width(*img1);
            if w == image_width(*img2) && a.len() == b.len() {
                r matches Ok(t) && t.0 == image_squared_error(a, b, w as int, a.len() as int) && t.1
                    == image_channels(a, b, w as int, a.len() as int)
            } else {
                r matches Err(UtilError::InvalidParams(m)) && m@ == "Images must have the same dimensions"@
            }
        }),
{
    let (w1, h1) = img1.dimensions();
    let (w2, h2) = img2.dimensions();
    if w1 != w2 || h1 != h2 {
        return Err(UtilError::InvalidParams(String::from_str("Images must have the same dimensions")));
    }
    let ghost a = image_rows(*img1);
    let ghost b = image_rows(*img2);
    let mut total: u128 = 0;
    let mut channels: u128 = 0;
    let mut y: u32 = 0;
    while y < h1
        invariant
            a == image_rows(*img1),
            b == image_rows(*img2),
            w1 == image_width(*img1),
            w1 == image_width(*img2),
            has_size(a, w1 as nat, h1 as nat),
            has_size(b, w1 as nat, h1 as nat),
            y <= h1,
            total == image_squared_error(a, b, w1 as int, y as int),
            channels == image_channels(a, b, w1 as int, y as int),
            total <= 195075 * 0x1_0000_0000 * y,
            channels <= 3 * 0x1_0000_0000 * y,
        decreases h1 - y,
    {
        let mut row_total: u128 = 0;
        let mut row_count: u128 = 0;
        let mut x: u32 = 0;
        while x < w1
            invariant
                a == image_rows(*img1),
                b == image_rows(*img2),
                w1 == image_width(*img1),
                w1 == image_width(*img2),
                has_size(a, w1 as nat, h1 as nat),
                has_size(b, w1 as nat, h1 as nat),
                y < h1,
                x <= w1,
                row_total == row_squared_error(a[y as int], b[y as int], x as int),
                row_count == row_channels(a[y as int], b[y as int], x as int),
                row_total <= 195075 * x,
                row_count <= 3 * x,
            decreases w1 - x,
        {
            let p = img1.get_pixel(x, y);
            let q = img2.get_pixel(x, y);
            if p.0 != 0 || p.1 != 0 || p.2 != 0 || q.0 != 0 || q.1 != 0 || q.2 != 0 {
                let e = channel_squared_difference(p.0, q.0) + channel_squared_difference(p.1, q.1)
                    + channel_squared_difference(p.2, q.2);
                row_total = row_total + e;
                row_count = row_count + 3;
            }
            x = x + 1;
        }
        assert(total + row_total <= 195075 * 0x1_0000_0000 * (y + 1)
            && channels + row_count <= 3 * 0x1_0000_0000 * (y + 1)) by (nonlinear_arith)
            requires
                total <= 195075 * 0x1_0000_0000 * y,
                channels <= 3 * 0x1_0000_0000 * y,
                row_total <= 195075 * w1,
                row_count <= 3 * w1,
                w1 < 0x1_0000_0000,
        ;
        assert(195075 * 0x1_0000_0000 * (y + 1) <= 195075 * 0x1_0000_0000 * 0x1_0000_0000) by (nonlinear_arith)
            requires
                y < 0x1_0000_0000,
        ;
        total = total + row_total;
        channels = channels + row_count;
        y = y + 1;
    }
    Ok((total, channels))
}

/// The pixel at `(u, v)` when it lies inside the image, the bounds being
/// compared as `i32` values; `None` otherwise.
pub fn nearest_pixel(img: &RgbImage, u: i32, v: i32) -> (r: Option<Rgb>)
    ensures
        ({
            let w = image_width(*img);
            let h = image_rows(*img).len();
            if 0 <= u < (w as u32) as i32 && 0 <= v < (h as u32) as i32 {
                r == Some(image_rows(*img)[v as int][u as int])
            } else {
                r is None
            }
        }),
{
    let (width, height) = img.dimensions();
    let wl: i32 = #[verifier::truncate] (width as i32);
    let hl: i32 = #[verifier::truncate] (height as i32);
    if u >= 0 && u < wl && v >= 0 && v < hl {
        Some(img.get_pixel(u as u32, v as u32))
    } else {
        None
    }
}

/// The complaint about an image whose size differs from the camera's
/// resolution.
pub open spec fn size_mismatch_message(w: nat, h: nat, rw: nat, rh: nat) -> Seq<char> {
    "Image "@ + decimal(w) + "x"@ + decimal(h) + " doesn't match model "@ + decimal(rw) + "x"@ + decimal(rh)
}

/// Checks that an image has the camera's resolution.
pub fn check_image_resolution(img: &RgbImage, resolution: Resolution) -> (r: Result<(), UtilError>)
    ensures
        ({
            let w = image_width(*img);
            let h = image_rows(*img).len();
            if w == resolution.width && h == resolution.height {
                r is Ok
            } else {
                r matches Err(UtilError::InvalidParams(m)) && m@ == size_mismatch_message(
                    w,
                    h,
                    resolution.width as nat,
                    resolution.height as nat,
                )
            }
        }),
{
    let (width, height) = img.dimensions();
    if width != resolution.width || height != resolution.height {
        let mut m = String::from_str("Image ");
        push_decimal(&mut m, width as u64);
        m.append("x");
        push_decimal(&mut m, height as u64);
        m.append(" doesn't match model ");
        push_decimal(&mut m, resolution.width as u64);
        m.append("x");
        push_decimal(&mut m, resolution.height as u64);
        assert(m@ =~= size_mismatch_message(width as nat, height as nat, resolution.width as nat, resolution.height as nat));
        return Err(UtilError::InvalidParams(m));
    }
    Ok(())
}

} // verus!
