//! Pixels, image patches and the textures that the bridge manages.

use vstd::prelude::*;
use vstd::arithmetic::div_mod::{lemma_fundamental_div_mod, lemma_fundamental_div_mod_converse};

verus! {

/// One RGBA8 pixel.
#[derive(Clone, Copy, Debug, PartialEq, Eq, Structural)]
pub struct Rgba {
    pub r: u8,
    pub g: u8,
    pub b: u8,
    pub a: u8,
}

/// How the colour channels of a patch relate to its alpha channel.
#[derive(Clone, Copy, Debug, PartialEq, Eq, Structural)]
pub enum AlphaMode {
    /// Colour channels are already multiplied by alpha: stored as given.
    Premultiplied,
    /// Colour channels are independent of alpha: multiplied on the way in.
    Straight,
}

/// Texture filter.
#[derive(Clone, Copy, Debug, PartialEq, Eq, Structural)]
pub enum Filter {
    Nearest,
    Linear,
}

/// What sampling outside the unit square yields.
#[derive(Clone, Copy, Debug, PartialEq, Eq, Structural)]
pub enum WrapMode {
    Clamp,
    Repeat,
    Mirror,
}

/// Sampling options of a texture.
#[derive(Clone, Copy, Debug, PartialEq, Eq, Structural)]
pub struct TextureOptions {
    pub magnification: Filter,
    pub minification: Filter,
    pub wrap: WrapMode,
}

/// Identifier of a texture: managed by the bridge, or registered by the host.
#[derive(Clone, Copy, Debug, PartialEq, Eq, Hash, Structural)]
pub enum TextureId {
    Managed(u64),
    User(u64),
}

/// One colour channel multiplied by alpha, rounded to nearest.
pub open spec fn premultiplied_channel(c: int, a: int) -> int {
    (c * a + 127) / 255
}

/// A straight-alpha pixel turned into a premultiplied one.
pub open spec fn premultiplied(p: Rgba) -> Rgba {
    Rgba {
        r: premultiplied_channel(p.r as int, p.a as int) as u8,
        g: premultiplied_channel(p.g as int, p.a as int) as u8,
        b: premultiplied_channel(p.b as int, p.a as int) as u8,
        a: p.a,
    }
}

/// The pixels as the GPU receives them under the given alpha mode.
pub open spec fn converted(pixels: Seq<Rgba>, alpha: AlphaMode) -> Seq<Rgba> {
    match alpha {
        AlphaMode::Premultiplied => pixels,
        AlphaMode::Straight => Seq::new(pixels.len(), |i: int| premultiplied(pixels[i])),
    }
}

fn premultiply_channel(c: u8, a: u8) -> (r: u8)
    ensures
        r == premultiplied_channel(c as int, a as int),
{
    let wide_c: u32 = c as u32;
    let wide_a: u32 = a as u32;
    assert(0 <= wide_c * wide_a <= 255 * 255) by (nonlinear_arith)
        requires
            0 <= wide_c <= 255,
            0 <= wide_a <= 255,
    ;
    let scaled: u32 = (wide_c * wide_a + 127) / 255;
    scaled as u8
}

/// Multiplies the colour channels of a straight-alpha pixel by its alpha.
pub fn premultiply(p: Rgba) -> (r: Rgba)
    ensures
        r == premultiplied(p),
{
    Rgba {
        r: premultiply_channel(p.r, p.a),
        g: premultiply_channel(p.g, p.a),
        b: premultiply_channel(p.b, p.a),
        a: p.a,
    }
}

/// An image, or a part of one, on its way into a texture.
#[derive(Clone, Debug)]
pub struct ImagePatch {
    /// Where the patch lands in an existing texture (column, row of its top-left
    /// pixel); `None` for a whole image.
    pub pos: Option<(usize, usize)>,
    pub width: usize,
    pub height: usize,
    /// Row-major pixels, `width * height` of them.
    pub pixels: Vec<Rgba>,
    pub alpha: AlphaMode,
    pub options: TextureOptions,
}

/// Mathematical model of an [`ImagePatch`].
pub struct PatchModel {
    pub pos: Option<(nat, nat)>,
    pub width: nat,
    pub height: nat,
    pub pixels: Seq<Rgba>,
    pub alpha: AlphaMode,
    pub options: TextureOptions,
}

impl PatchModel {
    /// As many pixels as the declared size asks for.
    pub open spec fn complete(self) -> bool {
        self.pixels.len() == self.width * self.height
    }

    /// The pixels as they are stored and uploaded.
    pub open spec fn gpu_pixels(self) -> Seq<Rgba> {
        converted(self.pixels, self.alpha)
    }
}

impl View for ImagePatch {
    type V = PatchModel;

    open spec fn view(&self) -> PatchModel {
        PatchModel {
            pos: match self.pos {
                Some((x, y)) => Some((x as nat, y as nat)),
                None => None,
            },
            width: self.width as nat,
            height: self.height as nat,
            pixels: self.pixels@,
            alpha: self.alpha,
            options: self.options,
        }
    }
}

impl ImagePatch {
    /// Whether the patch holds exactly `width * height` pixels.
    pub fn is_complete(&self) -> (r: bool)
        ensures
            r == self@.complete(),
    {
        let held: usize = self.pixels.len();
        match self.width.checked_mul(self.height) {
            Some(count) => count == held,
            None => false,
        }
    }

    /// The payload of the upload that this patch causes: its pixels,
    /// premultiplied where the patch came with straight alpha.
    pub fn gpu_pixels(&self) -> (r: Vec<Rgba>)
        ensures
            r@ == self@.gpu_pixels(),
    {
        let mut out: Vec<Rgba> = Vec::new();
        let mut i: usize = 0;
        while i < self.pixels.len()
            invariant
                i <= self.pixels.len(),
                out@.len() == i,
                forall|k: int| 0 <= k < i ==> out@[k] == #[trigger] converted(self.pixels@, self.alpha)[k],
            decreases self.pixels.len() - i,
        {
            let p = self.pixels[i];
            match self.alpha {
                AlphaMode::Premultiplied => out.push(p),
                AlphaMode::Straight => out.push(premultiply(p)),
            }
            i += 1;
        }
        assert(out@ =~= self@.gpu_pixels());
        out
    }
}

/// Mathematical model of a [`ManagedTexture`]: its size and row-major pixels.
pub struct TextureModel {
    pub width: nat,
    pub height: nat,
    pub pixels: Seq<Rgba>,
    pub options: TextureOptions,
}

/// The pixel at index `i` of `tex` after `src`, a `w` by `h` image, was written
/// with its top-left corner at column `x`, row `y`.
pub open spec fn blit_pixel(tex: TextureModel, x: nat, y: nat, w: nat, h: nat, src: Seq<Rgba>, i: int) -> Rgba {
    let col = i % (tex.width as int);
    let row = i / (tex.width as int);
    if x <= col < x + w && y <= row < y + h {
        src[(row - y) * w + (col - x)]
    } else {
        tex.pixels[i]
    }
}

impl TextureModel {
    /// As many pixels as the size asks for.
    pub open spec fn wf(self) -> bool {
        self.pixels.len() == self.width * self.height
    }

    /// Whether a `w` by `h` rectangle at column `x`, row `y` lies inside.
    pub open spec fn covers(self, x: nat, y: nat, w: nat, h: nat) -> bool {
        x + w <= self.width && y + h <= self.height
    }

    /// The pixel at a column and row.
    pub open spec fn at(self, col: int, row: int) -> Rgba {
        self.pixels[row * self.width + col]
    }

    /// A fresh texture holding the whole patch.
    pub open spec fn from_patch(p: PatchModel) -> TextureModel {
        TextureModel { width: p.width, height: p.height, pixels: p.gpu_pixels(), options: p.options }
    }

    /// The texture after `src` was written into the given rectangle: pixels
    /// inside come from `src`, pixels outside stay.
    pub open spec fn blit(self, x: nat, y: nat, w: nat, h: nat, src: Seq<Rgba>) -> TextureModel {
        TextureModel {
            pixels: Seq::new(self.pixels.len(), |i: int| blit_pixel(self, x, y, w, h, src, i)),
            ..self
        }
    }
}

/// A texture that the bridge owns: the image that the GPU holds for one id.
#[derive(Clone, Debug)]
pub struct ManagedTexture {
    width: usize,
    height: usize,
    pixels: Vec<Rgba>,
    options: TextureOptions,
}

impl View for ManagedTexture {
    type V = TextureModel;

    closed spec fn view(&self) -> TextureModel {
        TextureModel {
            width: self.width as nat,
            height: self.height as nat,
            pixels: self.pixels@,
            options: self.options,
        }
    }
}

/// Index arithmetic of a row-major image: the cell at (`col`, `row`) has index
/// `row * width + col`, which lies before `width * height`.
pub proof fn lemma_cell_index(width: int, height: int, col: int, row: int)
    requires
        0 <= col < width,
        0 <= row < height,
    ensures
        0 <= row * width + col < width * height,
        (row * width + col) / width == row,
        (row * width + col) % width == col,
{
    assert(row * width + col < width * height) by (nonlinear_arith)
        requires
            0 <= col < width,
            0 <= row < height,
    {
        assert((row + 1) * width <= height * width);
    }
    assert(0 <= row * width) by (nonlinear_arith)
        requires
            0 <= row,
            0 < width,
    ;
    assert(row * width == width * row) by (nonlinear_arith);
    lemma_fundamental_div_mod_converse(row * width + col, width, row, col);
}

impl ManagedTexture {
    /// Size and pixel count agree.
    pub open spec fn wf(&self) -> bool {
        self@.wf()
    }

    /// A texture holding the pixels `pixels`, `width` by `height` of them.
    pub(crate) fn from_pixels(width: usize, height: usize, pixels: Vec<Rgba>, options: TextureOptions) -> (t: ManagedTexture)
        requires
            pixels@.len() == width * height,
        ensures
            t@ == (TextureModel { width: width as nat, height: height as nat, pixels: pixels@, options }),
            t.wf(),
    {
        ManagedTexture { width, height, pixels, options }
    }

    /// Width in pixels.
    pub fn width(&self) -> (w: usize)
        ensures
            w == self@.width,
    {
        self.width
    }

    /// Height in pixels.
    pub fn height(&self) -> (h: usize)
        ensures
            h == self@.height,
    {
        self.height
    }

    /// Sampling options that the texture was created with.
    pub fn options(&self) -> (o: TextureOptions)
        ensures
            o == self@.options,
    {
        self.options
    }

    /// The pixel at a column and row, or `None` outside the image.
    pub fn pixel(&self, col: usize, row: usize) -> (p: Option<Rgba>)
        requires
            self.wf(),
        ensures
            p == (if col < self@.width && row < self@.height {
                Some(self@.at(col as int, row as int))
            } else {
                None
            }),
    {
        if col < self.width && row < self.height {
            proof {
                assert(self.pixels@.len() == self.pixels.len());
                lemma_cell_index(self.width as int, self.height as int, col as int, row as int);
            }
            Some(self.pixels[row * self.width + col])
        } else {
            None
        }
    }

    /// Writes `src`, a `w` by `h` image, with its top-left corner at column `x`,
    /// row `y`. Pixels outside that rectangle keep their value.
    pub(crate) fn write(&mut self, x: usize, y: usize, w: usize, h: usize, src: &Vec<Rgba>)
        requires
            old(self).wf(),
            old(self)@.covers(x as nat, y as nat, w as nat, h as nat),
            src@.len() == w * h,
        ensures
            final(self)@ == old(self)@.blit(x as nat, y as nat, w as nat, h as nat, src@),
            final(self).wf(),
    {
        let ghost before = self@;
        let ghost total = self.pixels.len() as int;
        let ghost width = before.width as int;
        assert(w * h == src.len());
        let mut row: usize = 0;
        while row < h
            invariant
                row <= h,
                before.wf(),
                before.covers(x as nat, y as nat, w as nat, h as nat),
                self.width == before.width,
                self.height == before.height,
                self.options == before.options,
                self.pixels@.len() == total == before.pixels.len(),
                width == before.width,
                total <= usize::MAX,
                src@.len() == w * h <= usize::MAX,
                forall|i: int|
                    0 <= i < total ==> #[trigger] self.pixels@[i] == mid_write_pixel(before, x, y, w, row, 0, src@, i),
            decreases h - row,
        {
            let mut col: usize = 0;
            while col < w
                invariant
                    col <= w,
                    row < h,
                    before.wf(),
                    before.covers(x as nat, y as nat, w as nat, h as nat),
                    self.width == before.width,
                    self.height == before.height,
                    self.options == before.options,
                    self.pixels@.len() == total == before.pixels.len(),
                    width == before.width,
                    total <= usize::MAX,
                    src@.len() == w * h <= usize::MAX,
                    forall|i: int|
                        0 <= i < total ==> #[trigger] self.pixels@[i] == mid_write_pixel(
                            before,
                            x,
                            y,
                            w,
                            row,
                            col,
                            src@,
                            i,
                        ),
                decreases w - col,
            {
                proof {
                    lemma_cell_index(width, before.height as int, x + col, y + row);
                    lemma_cell_index(w as int, h as int, col as int, row as int);
                }
                let dst: usize = (y + row) * self.width + (x + col);
                let from: usize = row * w + col;
                let p = src[from];
                self.pixels.set(dst, p);
                proof {
                    assert forall|i: int| 0 <= i < total implies #[trigger] self.pixels@[i] == mid_write_pixel(
                        before,
                        x,
                        y,
                        w,
                        row,
                        (col + 1) as usize,
                        src@,
                        i,
                    ) by {
                        lemma_fundamental_div_mod(i, width);
                        if i != dst && i / width == y + row && i % width == x + col {
                            assert(width * (i / width) == (y + row) * width) by (nonlinear_arith)
                                requires
                                    i / width == y + row,
                            ;
                        }
                    }
                }
                col += 1;
            }
            proof {
                assert forall|i: int| 0 <= i < total implies #[trigger] self.pixels@[i] == mid_write_pixel(
                    before,
                    x,
                    y,
                    w,
                    (row + 1) as usize,
                    0,
                    src@,
                    i,
                ) by {
                    if i / width == y + row && x <= i % width < x + w {
                        assert((i / width - y) * w == row * w) by (nonlinear_arith)
                            requires
                                i / width == y + row,
                        ;
                    }
                }
            }
            row += 1;
        }
        assert(self@.pixels =~= before.blit(x as nat, y as nat, w as nat, h as nat, src@).pixels);
    }
}

/// The pixel at index `i` while a write is under way: the first `rows` rows
/// of the rectangle are written, and of the row after them the first `cols`
/// pixels.
spec fn mid_write_pixel(
    tex: TextureModel,
    x: usize,
    y: usize,
    w: usize,
    rows: usize,
    cols: usize,
    src: Seq<Rgba>,
    i: int,
) -> Rgba {
    let col = i % (tex.width as int);
    let row = i / (tex.width as int);
    if row == y + rows && x <= col < x + cols {
        src[rows * w + (col - x)]
    } else {
        blit_pixel(tex, x as nat, y as nat, w as nat, rows as nat, src, i)
    }
}

} // verus!
