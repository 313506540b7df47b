//! The viewport, the per-frame pixel loop, and the framebuffer layouts.
use vstd::prelude::*;
use vstd::arithmetic::div_mod::{lemma_fundamental_div_mod, lemma_mod_pos_bound};

verus! {

/// Why a viewport size is refused.
#[derive(Clone, Copy, Debug, PartialEq, Eq, Structural)]
pub enum ConfigError {
    ZeroWidth,
    ZeroHeight,
    /// The RGB framebuffer, three bytes per pixel, would not be addressable.
    TooLarge,
}

/// A size can be rendered: both sides non-zero and the RGB framebuffer
/// addressable.
pub open spec fn valid_size(width: u32, height: u32) -> bool {
    width > 0 && height > 0 && 3 * width * height <= usize::MAX
}

/// Which error a size gets, the first that applies.
pub open spec fn size_error(width: u32, height: u32) -> Option<ConfigError> {
    if width == 0 {
        Some(ConfigError::ZeroWidth)
    } else if height == 0 {
        Some(ConfigError::ZeroHeight)
    } else if 3 * width * height > usize::MAX {
        Some(ConfigError::TooLarge)
    } else {
        None
    }
}

/// Checks a viewport size.
pub fn check_size(width: u32, height: u32) -> (r: Result<(), ConfigError>)
    ensures
        r is Ok <==> valid_size(width, height),
        r matches Err(e) ==> size_error(width, height) == Some(e),
        r is Ok <==> size_error(width, height) is None,
{
    if width == 0 {
        return Err(ConfigError::ZeroWidth);
    }
    if height == 0 {
        return Err(ConfigError::ZeroHeight);
    }
    let w: u128 = width as u128;
    let h: u128 = height as u128;
    assert(w * h <= 0xFFFF_FFFFu128 * 0xFFFF_FFFFu128) by (nonlinear_arith)
        requires
            w <= 0xFFFF_FFFFu128,
            h <= 0xFFFF_FFFFu128,
    ;
    let bytes: u128 = 3 * (w * h);
    assert(bytes == 3 * width * height) by (nonlinear_arith)
        requires
            bytes == 3 * (w * h),
            w == width,
            h == height,
    ;
    if bytes > usize::MAX as u128 {
        Err(ConfigError::TooLarge)
    } else {
        Ok(())
    }
}

/// Row-major position of pixel `(x, y)`, rows counted from the top.
pub open spec fn pixel_index(width: u32, x: u32, y: u32) -> int {
    y * width + x
}

/// The three bytes of the pixel at `(x, y)` in an RGB framebuffer.
pub open spec fn pixel_of(out: Seq<u8>, width: u32, x: u32, y: u32) -> (u8, u8, u8) {
    let k = pixel_index(width, x, y);
    (out[3 * k], out[3 * k + 1], out[3 * k + 2])
}

/// `out` is a frame of `width × height` pixels, row-major with the top row
/// first, three bytes per pixel, each pixel a colour that `shade` gives for
/// its coordinates.
pub open spec fn rendered<F: Fn(u32, u32) -> (u8, u8, u8)>(
    width: u32,
    height: u32,
    shade: F,
    out: Seq<u8>,
) -> bool {
    &&& out.len() == 3 * width * height
    &&& forall|x: u32, y: u32|
        x < width && y < height ==> #[trigger] shade.ensures((x, y), pixel_of(out, width, x, y))
}

proof fn lemma_index_before(width: u32, x: u32, y: u32, xx: u32, yy: u32)
    requires
        (yy < y && xx < width) || (yy == y && xx < x),
    ensures
        pixel_index(width, xx, yy) < pixel_index(width, x, y),
{
    if yy < y {
        assert(yy * width + width <= y * width) by (nonlinear_arith)
            requires
                yy < y,
        ;
    }
}

/// Owns the viewport of a render: its size is always valid, so a frame can
/// be produced at any time.
pub struct Raytracer {
    width: u32,
    height: u32,
}

impl Raytracer {
    pub closed spec fn width_spec(&self) -> u32 {
        self.width
    }

    pub closed spec fn height_spec(&self) -> u32 {
        self.height
    }

    pub open spec fn wf(&self) -> bool {
        valid_size(self.width_spec(), self.height_spec())
    }

    /// A viewport of `width × height` pixels; refused when the size is not
    /// valid.
    pub fn new(width: u32, height: u32) -> (r: Result<Raytracer, ConfigError>)
        ensures
            r is Ok <==> valid_size(width, height),
            r matches Ok(t) ==> t.wf() && t.width_spec() == width && t.height_spec() == height,
            r matches Err(e) ==> size_error(width, height) == Some(e),
    {
        match check_size(width, height) {
            Ok(()) => Ok(Raytracer { width, height }),
            Err(e) => Err(e),
        }
    }

    /// Changes the viewport size; a refused size leaves the viewport as it was.
    pub fn resize(&mut self, width: u32, height: u32) -> (r: Result<(), ConfigError>)
        requires
            old(self).wf(),
        ensures
            final(self).wf(),
            r is Ok <==> valid_size(width, height),
            r is Ok ==> final(self).width_spec() == width && final(self).height_spec() == height,
            r matches Err(e) ==> size_error(width, height) == Some(e) && *final(self) == *old(
                self,
            ),
    {
        let checked = check_size(width, height);
        if checked.is_ok() {
            self.width = width;
            self.height = height;
        }
        checked
    }

    pub fn width(&self) -> (r: u32)
        ensures
            r == self.width_spec(),
    {
        self.width
    }

    pub fn height(&self) -> (r: u32)
        ensures
            r == self.height_spec(),
    {
        self.height
    }

    /// Renders one frame: calls `shade` once for each pixel `(x, y)`, rows
    /// from the top, and lays the colours out row-major, three bytes each.
    pub fn render<F: Fn(u32, u32) -> (u8, u8, u8)>(&self, shade: &F) -> (r: Vec<u8>)
        requires
            self.wf(),
            forall|x: u32, y: u32|
                x < self.width_spec() && y < self.height_spec() ==> #[trigger] shade.requires(
                    (x, y),
                ),
        ensures
            rendered(self.width_spec(), self.height_spec(), *shade, r@),
    {
        let width = self.width;
        let height = self.height;
        let mut out: Vec<u8> = Vec::new();
        let mut y: u32 = 0;
        while y < height
            invariant
                valid_size(width, height),
                width == self.width_spec(),
                height == self.height_spec(),
                forall|x: u32, y: u32|
                    x < width && y < height ==> #[trigger] shade.requires((x, y)),
                y <= height,
                out.len() == 3 * pixel_index(width, 0, y),
                forall|xx: u32, yy: u32|
                    xx < width && yy < y ==> #[trigger] shade.ensures(
                        (xx, yy),
                        pixel_of(out@, width, xx, yy),
                    ),
            decreases height - y,
        {
            let mut x: u32 = 0;
            while x < width
                invariant
                    valid_size(width, height),
                    forall|x: u32, y: u32|
                        x < width && y < height ==> #[trigger] shade.requires((x, y)),
                    y < height,
                    x <= width,
                    out.len() == 3 * pixel_index(width, x, y),
                    forall|xx: u32, yy: u32|
                        (yy < y && xx < width) || (yy == y && xx < x) ==> #[trigger] shade.ensures(
                            (xx, yy),
                            pixel_of(out@, width, xx, yy),
                        ),
                decreases width - x,
            {
                assert(3 * pixel_index(width, x, y) + 3 <= 3 * width * height) by (nonlinear_arith)
                    requires
                        x < width,
                        y < height,
                ;
                let ghost before = out@;
                let (r, g, b) = shade(x, y);
                out.push(r);
                out.push(g);
                out.push(b);
                assert forall|xx: u32, yy: u32|
                    (yy < y && xx < width) || (yy == y && xx < x + 1) implies #[trigger] shade.ensures(
                    (xx, yy),
                    pixel_of(out@, width, xx, yy),
                ) by {
                    if yy == y && xx == x {
                        assert(pixel_of(out@, width, xx, yy) == (r, g, b));
                    } else {
                        lemma_index_before(width, x, y, xx, yy);
                        assert(pixel_of(out@, width, xx, yy) == pixel_of(before, width, xx, yy));
                    }
                }
                x += 1;
            }
            assert(y * width + width == (y + 1) * width) by (nonlinear_arith);
            y += 1;
        }
        assert(3 * pixel_index(width, 0, height) == 3 * width * height) by (nonlinear_arith);
        out
    }
}

/// A frame is a function of its per-pixel colours: rendering twice with a
/// shading function that gives each pixel one colour (an unchanged scene and
/// camera) yields byte-identical frames.
pub proof fn lemma_render_deterministic<F: Fn(u32, u32) -> (u8, u8, u8)>(
    width: u32,
    height: u32,
    shade: F,
    a: Seq<u8>,
    b: Seq<u8>,
)
    requires
        rendered(width, height, shade, a),
        rendered(width, height, shade, b),
        forall|x: u32, y: u32, p: (u8, u8, u8), q: (u8, u8, u8)|
            #[trigger] shade.ensures((x, y), p) && #[trigger] shade.ensures((x, y), q) ==> p == q,
    ensures
        a == b,
{
    assert forall|i: int| 0 <= i < a.len() implies a[i] == b[i] by {
        let k = i / 3;
        lemma_fundamental_div_mod(i, 3);
        lemma_mod_pos_bound(i, 3);
        assert(k < width * height) by (nonlinear_arith)
            requires
                i == 3 * k + i % 3,
                0 <= i % 3 < 3,
                i < 3 * width * height,
        ;
        assert(width > 0) by (nonlinear_arith)
            requires
                0 <= k < width * height,
        ;
        let w = width as int;
        lemma_fundamental_div_mod(k, w);
        lemma_mod_pos_bound(k, w);
        let x = (k % w) as u32;
        let y = (k / w) as u32;
        assert(0 <= k / w < height) by (nonlinear_arith)
            requires
                k == width * (k / w) + k % w,
                0 <= k % w < width,
                0 <= k < width * height,
        ;
        assert(pixel_index(width, x, y) == k) by (nonlinear_arith)
            requires
                k == width * (k / w) + k % w,
                x == k % w,
                y == k / w,
        ;
        assert(shade.ensures((x, y), pixel_of(a, width, x, y)));
        assert(shade.ensures((x, y), pixel_of(b, width, x, y)));
    }
    assert(a =~= b);
}

/// A display pixel `0x00RRGGBB` made of three channel bytes.
pub open spec fn packed(r: u8, g: u8, b: u8) -> u32 {
    (r * 65536 + g * 256 + b) as u32
}

/// Turns an RGB framebuffer into display pixels, one `0x00RRGGBB` word for
/// each three bytes.
pub fn pack_pixels(bytes: &Vec<u8>) -> (r: Vec<u32>)
    requires
        bytes.len() % 3 == 0,
    ensures
        r.len() == bytes.len() / 3,
        forall|i: int|
            0 <= i < r.len() ==> #[trigger] r[i] == packed(
                bytes[3 * i],
                bytes[3 * i + 1],
                bytes[3 * i + 2],
            ),
{
    let n: usize = bytes.len() / 3;
    let mut out: Vec<u32> = Vec::new();
    let mut i: usize = 0;
    while i < n
        invariant
            n == bytes.len() / 3,
            bytes.len() % 3 == 0,
            i <= n,
            out.len() == i,
            forall|j: int|
                0 <= j < i ==> #[trigger] out[j] == packed(
                    bytes[3 * j],
                    bytes[3 * j + 1],
                    bytes[3 * j + 2],
                ),
        decreases n - i,
    {
        let r = bytes[3 * i] as u32;
        let g = bytes[3 * i + 1] as u32;
        let b = bytes[3 * i + 2] as u32;
        out.push(r * 65536 + g * 256 + b);
        i += 1;
    }
    out
}

} // verus!
