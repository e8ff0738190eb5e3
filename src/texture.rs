use vstd::prelude::*;
use vstd::arithmetic::div_mod::lemma_fundamental_div_mod_converse;

verus! {

/// Width and height, in texels, of the display texture.
pub const DISPLAY_TEXTURE_SIZE: u32 = 256;

/// Bytes per RGBA8 texel.
pub const BYTES_PER_TEXEL: u32 = 4;

/// What decoding a PNG file into 8-bit RGBA gives for these bytes: its width,
/// its height and its texels row by row, or nothing when the bytes are no
/// valid PNG image or the image exceeds the decoder's default memory limit.
pub uninterp spec fn png_rgba8_of(bytes: Seq<u8>) -> Option<(u32, u32, Seq<u8>)>;

/// A decoded image: `rgba` holds `width * height` texels of four bytes, row
/// by row.
pub struct DecodedImage {
    pub width: u32,
    pub height: u32,
    pub rgba: Vec<u8>,
}

impl DecodedImage {
    /// The texel buffer has exactly the size its dimensions call for.
    pub open spec fn wf(&self) -> bool {
        self.rgba@.len() == 4 * (self.width as int) * (self.height as int)
    }
}

/// What `decode_texture` returns for these bytes, as a value of the model.
pub open spec fn decoded_as(r: Option<DecodedImage>, bytes: Seq<u8>) -> bool {
    match r {
        Some(img) => png_rgba8_of(bytes) == Some((img.width, img.height, img.rgba@)),
        None => png_rgba8_of(bytes) is None,
    }
}

/// Relies on image::load_from_memory_with_format with the PNG format, then
/// DynamicImage::into_rgba8: the result depends on the bytes alone, and the
/// buffer of an RGBA8 image holds four bytes for each of its texels.
#[verifier::external_body]
fn load_png_rgba8(bytes: &[u8]) -> (r: Option<(u32, u32, Vec<u8>)>)
    ensures
        match r {
            Some((w, h, v)) => png_rgba8_of(bytes@) == Some((w, h, v@)),
            None => png_rgba8_of(bytes@) is None,
        },
        match r {
            Some((w, h, v)) => v@.len() == 4 * (w as int) * (h as int),
            None => true,
        },
{
    match image::load_from_memory_with_format(bytes, image::ImageFormat::Png) {
        Ok(img) => {
            let rgba = img.into_rgba8();
            Some((rgba.width(), rgba.height(), rgba.into_raw()))
        },
        Err(_) => None,
    }
}

/// Decodes the bytes of a PNG file into an RGBA8 image, or `None` when they
/// hold no valid PNG image.
pub fn decode_texture(bytes: &Vec<u8>) -> (r: Option<DecodedImage>)
    ensures
        decoded_as(r, bytes@),
        r matches Some(img) ==> img.wf(),
{
    match load_png_rgba8(bytes.as_slice()) {
        Some((width, height, rgba)) => Some(DecodedImage { width, height, rgba }),
        None => None,
    }
}

/// Decoding depends on the file's bytes alone: two decodes of the same bytes
/// give the same dimensions and the same texels.
pub proof fn lemma_decode_deterministic(
    a: Seq<u8>,
    b: Seq<u8>,
    ra: Option<DecodedImage>,
    rb: Option<DecodedImage>,
)
    requires
        a == b,
        decoded_as(ra, a),
        decoded_as(rb, b),
    ensures
        ra is Some <==> rb is Some,
        ra matches Some(x) ==> rb matches Some(y) && x.width == y.width && x.height == y.height
            && x.rgba@ == y.rgba@,
{
}

/// The opaque black texel.
pub open spec fn black_texel() -> Seq<u8> {
    seq![0u8, 0u8, 0u8, 255u8]
}

/// Texel `k` of a row-by-row RGBA8 buffer.
pub open spec fn texel_at(rgba: Seq<u8>, k: int) -> Seq<u8> {
    rgba.subrange(4 * k, 4 * k + 4)
}

/// Texel `p` of a canvas `width` texels wide that holds the image in its
/// top left corner and opaque black everywhere else.
pub open spec fn padded_texel(img: DecodedImage, width: int, p: int) -> Seq<u8> {
    let i = p % width;
    let j = p / width;
    if i < img.width && j < img.height {
        texel_at(img.rgba@, j * img.width + i)
    } else {
        black_texel()
    }
}

/// Places the image in the top left corner of a `width` x `height` canvas
/// filled with opaque black, texel `i + j * width` holding column `i` of row
/// `j`. The image must be strictly smaller than the canvas in both
/// dimensions.
pub fn pad_texture(img: &DecodedImage, width: usize, height: usize) -> (r: Vec<[u8; 4]>)
    requires
        img.wf(),
        img.width < width,
        img.height < height,
        width * height <= usize::MAX,
    ensures
        r@.len() == width * height,
        forall|p: int|
            0 <= p < width * height ==> (#[trigger] r@[p])@ == padded_texel(*img, width as int, p),
{
    let iw = img.width as usize;
    let ih = img.height as usize;
    let mut out: Vec<[u8; 4]> = Vec::new();
    let mut j: usize = 0;
    while j < height
        invariant
            img.wf(),
            iw == img.width,
            ih == img.height,
            iw < width,
            ih < height,
            width * height <= usize::MAX,
            j <= height,
            out@.len() == j * width,
            forall|p: int|
                0 <= p < out@.len() ==> (#[trigger] out@[p])@ == padded_texel(*img, width as int, p),
        decreases height - j,
    {
        let mut i: usize = 0;
        while i < width
            invariant
                img.wf(),
                iw == img.width,
                ih == img.height,
                iw < width,
                ih < height,
                width * height <= usize::MAX,
                j < height,
                i <= width,
                out@.len() == j * width + i,
                forall|p: int|
                    0 <= p < out@.len() ==> (#[trigger] out@[p])@ == padded_texel(
                        *img,
                        width as int,
                        p,
                    ),
            decreases width - i,
        {
            proof {
                assert(j * width + i < width * height) by (nonlinear_arith)
                    requires
                        j < height,
                        i < width,
                ;
                lemma_fundamental_div_mod_converse(
                    (j * width + i) as int,
                    width as int,
                    j as int,
                    i as int,
                );
            }
            let texel: [u8; 4] = if i < iw && j < ih {
                proof {
                    assert(4 * (j * iw + i) + 4 <= 4 * iw * ih) by (nonlinear_arith)
                        requires
                            j < ih,
                            i < iw,
                    ;
                }
                assert(img.rgba@.len() == img.rgba.len());
                let o: usize = 4 * (j * iw + i);
                let t: [u8; 4] = [img.rgba[o], img.rgba[o + 1], img.rgba[o + 2], img.rgba[o + 3]];
                assert(t@ =~= texel_at(img.rgba@, (j * iw + i) as int));
                t
            } else {
                let t: [u8; 4] = [0, 0, 0, 255];
                assert(t@ =~= black_texel());
                t
            };
            out.push(texel);
            i = i + 1;
        }
        assert(j * width + width == (j + 1) * width) by (nonlinear_arith);
        j = j + 1;
    }
    assert(height * width == width * height) by (nonlinear_arith);
    out
}

} // verus!

verus! {

/// How a decoded image is copied into the display texture: the copied
/// extent and the layout of the source bytes.
pub struct TextureWrite {
    pub width: u32,
    pub height: u32,
    pub bytes_per_row: u32,
    pub rows_per_image: u32,
}

/// The copy of a decoded image into the display texture, starting at the
/// texture's origin with the image's own extent. An image wider or taller
/// than the display texture does not fit and gives `None`.
pub fn plan_texture_write(img: &DecodedImage) -> (r: Option<TextureWrite>)
    ensures
        r is Some <==> (img.width <= DISPLAY_TEXTURE_SIZE && img.height <= DISPLAY_TEXTURE_SIZE),
        r matches Some(w) ==> w.width == img.width && w.height == img.height && w.bytes_per_row
            == BYTES_PER_TEXEL * img.width && w.rows_per_image == img.height,
{
    if img.width > DISPLAY_TEXTURE_SIZE || img.height > DISPLAY_TEXTURE_SIZE {
        return None;
    }
    Some(
        TextureWrite {
            width: img.width,
            height: img.height,
            bytes_per_row: BYTES_PER_TEXEL * img.width,
            rows_per_image: img.height,
        },
    )
}

} // verus!
