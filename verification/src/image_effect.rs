//! Effect instances, their image clips, and the image effect suite.

use vstd::prelude::*;

use crate::memory::{AllocDecision, ImageMemoryHeader};
use crate::ofx_constants::{
    kOfxStatErrBadHandle, kOfxStatErrUnsupported, kOfxStatFailed, kOfxStatOK, kProjectHeight,
    kProjectWidth,
};
use crate::parameters::ParameterSet;
use crate::property_set::{
    lemma_values_view, table_put, values_view, AsPropertySet, PropertySet, PropertySetView,
};
use crate::names::{define_named, find_by_name, has_name, names_unique, Named};
use crate::text::{decode_c_text, utf8_text};

verus! {

/// The bits of the IEEE-754 encoding of the double 1.0.
pub const kDoubleOneBits: u64 = 0x3FF0_0000_0000_0000;

/// Bytes per pixel of the RGBA images that clips hold.
pub const kBytesPerPixel: i32 = 4;

/// An image clip: its name and its property set.
pub struct ImageClip {
    pub name: String,
    pub properties: PropertySet,
}

impl ImageClip {
    /// A clip with no name and no properties.
    pub fn new() -> (r: ImageClip)
        ensures
            r.name@ == Seq::<char>::empty(),
            r.properties@ == PropertySetView::empty(),
    {
        ImageClip { name: String::new(), properties: PropertySet::new() }
    }
}

impl Default for ImageClip {
    fn default() -> (r: ImageClip)
        ensures
            r.name@ == Seq::<char>::empty(),
            r.properties@ == PropertySetView::empty(),
    {
        ImageClip::new()
    }
}

impl AsPropertySet for ImageClip {
    open spec fn spec_properties(&self) -> PropertySet {
        self.properties
    }

    fn get_properties(&self) -> (r: &PropertySet) {
        &self.properties
    }

    fn get_properties_mut(&mut self) -> (r: &mut PropertySet)
        ensures
            final(self).name == old(self).name,
    {
        &mut self.properties
    }
}

impl AsPropertySet for BabafxInstance {
    open spec fn spec_properties(&self) -> PropertySet {
        self.properties
    }

    fn get_properties(&self) -> (r: &PropertySet) {
        &self.properties
    }

    fn get_properties_mut(&mut self) -> (r: &mut PropertySet)
        ensures
            final(self).parameters == old(self).parameters,
            final(self).clips == old(self).clips,
    {
        &mut self.properties
    }
}

impl Named for ImageClip {
    open spec fn spec_name(&self) -> Seq<char> {
        self.name@
    }

    fn name_text(&self) -> (r: &String) {
        &self.name
    }
}

/// An instance of an image effect: its properties, parameters and clips.
pub struct BabafxInstance {
    pub properties: PropertySet,
    pub parameters: ParameterSet,
    pub clips: Vec<ImageClip>,
}

impl BabafxInstance {
    /// Parameter names and clip names each occur once.
    pub open spec fn wf(&self) -> bool {
        self.parameters.wf() && names_unique(self.clips@)
    }

    /// An instance with no properties, parameters or clips.
    pub fn new() -> (r: BabafxInstance)
        ensures
            r.wf(),
            r.properties@ == PropertySetView::empty(),
            r.parameters.properties@ == PropertySetView::empty(),
            r.parameters.parameters@.len() == 0,
            r.clips@.len() == 0,
    {
        BabafxInstance {
            properties: PropertySet::new(),
            parameters: ParameterSet::new(),
            clips: Vec::new(),
        }
    }

    /// The position of the clip called `name`.
    pub fn find_clip(&self, name: &String) -> (r: Option<usize>)
        ensures
            match r {
                Some(i) => i < self.clips@.len() && self.clips@[i as int].name@ == name@,
                None => !has_name(self.clips@, name@),
            },
    {
        find_by_name(&self.clips, name)
    }
}

/// The name of a clip as `name_bytes` spells it; a name that is not text fails.
pub fn clip_name(name_bytes: &[u8]) -> (r: Result<String, i32>)
    ensures
        match utf8_text(name_bytes@) {
            Some(n) => r matches Ok(s) && s@ == n,
            None => r matches Err(e) && e == kOfxStatFailed,
        },
{
    match decode_c_text(name_bytes) {
        Some(s) => Ok(s),
        None => Err(kOfxStatFailed),
    }
}

/// What the image decoder gives for the bytes of a PNG file: its width, height
/// and RGBA8 pixels, or nothing when the bytes are not a PNG image it can decode.
pub uninterp spec fn png_rgba8_decoding(bytes: Seq<u8>) -> Option<(u32, u32, Seq<u8>)>;

/// Calls `image::load_from_memory_with_format` (as PNG) and converts the
/// decoded image with `DynamicImage::to_rgba8`.
///
/// Trusted: the result is a function of the bytes alone, named
/// `png_rgba8_decoding`; nothing more is claimed of the decoder.
#[verifier::external_body]
fn decode_png_rgba8(bytes: &[u8]) -> (r: Option<(u32, u32, Vec<u8>)>)
    ensures
        match r {
            Some((w, h, px)) => png_rgba8_decoding(bytes@) == Some((w, h, px@)),
            None => png_rgba8_decoding(bytes@) is None,
        },
{
    match image::load_from_memory_with_format(bytes, image::ImageFormat::Png) {
        Ok(img) => {
            let rgba = img.to_rgba8();
            Some((rgba.width(), rgba.height(), rgba.into_raw()))
        },
        Err(_) => None,
    }
}

/// A decoded clip image: RGBA8 pixels, row after row.
pub struct DecodedImage {
    pub width: u32,
    pub height: u32,
    pub pixels: Vec<u8>,
}

/// Decodes the bytes of the PNG file that feeds a clip.
pub fn decode_clip_image(bytes: &[u8]) -> (r: Option<DecodedImage>)
    ensures
        match r {
            Some(img) => png_rgba8_decoding(bytes@) == Some((img.width, img.height, img.pixels@)),
            None => png_rgba8_decoding(bytes@) is None,
        },
{
    match decode_png_rgba8(bytes) {
        Some((width, height, pixels)) => Some(DecodedImage { width, height, pixels }),
        None => None,
    }
}

/// The properties of a clip that shows an RGBA8 image of `width` by `height`
/// pixels whose data starts at address `data`.
pub open spec fn spec_clip_properties(width: u32, height: u32, data: usize) -> PropertySetView {
    PropertySetView {
        strings: Map::empty().insert(
            "OfxImagePropUniqueIdentifier"@,
            seq!["host_frame_0001"@],
        ).insert("OfxImageEffectPropPreMultiplication"@, seq!["OfxImageOpaque"@]).insert(
            "OfxImageEffectPropPixelDepth"@,
            seq!["OfxBitDepthByte"@],
        ).insert("OfxImageEffectPropComponents"@, seq!["OfxImageComponentRGBA"@]).insert(
            "OfxImagePropField"@,
            seq!["OfxFieldNone"@],
        ),
        doubles: Map::empty().insert("OfxImagePropPixelAspectRatio"@, seq![kDoubleOneBits]).insert(
            "OfxImageEffectPropRenderScale"@,
            seq![kDoubleOneBits, kDoubleOneBits],
        ),
        ints: Map::empty().insert(
            "OfxImagePropBounds"@,
            seq![0i32, 0i32, width as i32, height as i32],
        ).insert("OfxImagePropRowBytes"@, seq![((width as i32) * kBytesPerPixel) as i32]),
        pointers: Map::empty().insert("OfxImagePropData"@, seq![data]),
    }
}

fn text_values(s: &str) -> (r: Vec<String>)
    ensures
        values_view(r) == seq![s@],
{
    let mut v: Vec<String> = Vec::new();
    v.push(s.to_owned());
    proof {
        lemma_values_view(v);
    }
    assert(values_view(v) =~= seq![s@]);
    v
}

/// The properties of a clip that shows an RGBA8 image of `width` by `height`
/// pixels whose data starts at address `data`.
pub fn clip_image_properties(width: u32, height: u32, data: usize) -> (r: PropertySet)
    requires
        i32::MIN <= (width as i32) * kBytesPerPixel <= i32::MAX,
    ensures
        r@ == spec_clip_properties(width, height, data),
{
    #[verifier::truncate]
    let w: i32 = width as i32;
    #[verifier::truncate]
    let h: i32 = height as i32;
    let mut set = PropertySet::new();

    table_put(&mut set.strings, "OfxImagePropUniqueIdentifier", text_values("host_frame_0001"));
    table_put(&mut set.strings, "OfxImageEffectPropPreMultiplication", text_values("OfxImageOpaque"));
    table_put(&mut set.strings, "OfxImageEffectPropPixelDepth", text_values("OfxBitDepthByte"));
    table_put(&mut set.strings, "OfxImageEffectPropComponents", text_values("OfxImageComponentRGBA"));
    table_put(&mut set.strings, "OfxImagePropField", text_values("OfxFieldNone"));

    let mut aspect: Vec<u64> = Vec::new();
    aspect.push(kDoubleOneBits);
    let mut scale: Vec<u64> = Vec::new();
    scale.push(kDoubleOneBits);
    scale.push(kDoubleOneBits);
    proof {
        lemma_values_view(aspect);
        lemma_values_view(scale);
    }
    assert(values_view(aspect) =~= seq![kDoubleOneBits]);
    assert(values_view(scale) =~= seq![kDoubleOneBits, kDoubleOneBits]);
    table_put(&mut set.doubles, "OfxImagePropPixelAspectRatio", aspect);
    table_put(&mut set.doubles, "OfxImageEffectPropRenderScale", scale);

    let mut bounds: Vec<i32> = Vec::new();
    bounds.push(0);
    bounds.push(0);
    bounds.push(w);
    bounds.push(h);
    let mut row_bytes: Vec<i32> = Vec::new();
    row_bytes.push(w * kBytesPerPixel);
    proof {
        lemma_values_view(bounds);
        lemma_values_view(row_bytes);
    }
    assert(values_view(bounds) =~= seq![0i32, 0i32, width as i32, height as i32]);
    assert(values_view(row_bytes) =~= seq![((width as i32) * kBytesPerPixel) as i32]);
    table_put(&mut set.ints, "OfxImagePropBounds", bounds);
    table_put(&mut set.ints, "OfxImagePropRowBytes", row_bytes);

    let mut pixels: Vec<usize> = Vec::new();
    pixels.push(data);
    proof {
        lemma_values_view(pixels);
    }
    assert(values_view(pixels) =~= seq![data]);
    table_put(&mut set.pointers, "OfxImagePropData", pixels);

    assert(set@.strings =~= spec_clip_properties(width, height, data).strings);
    assert(set@.doubles =~= spec_clip_properties(width, height, data).doubles);
    assert(set@.ints =~= spec_clip_properties(width, height, data).ints);
    assert(set@.pointers =~= spec_clip_properties(width, height, data).pointers);
    set
}

/// Rust's integer division, which rounds toward zero.
pub open spec fn trunc_div(a: int, b: int) -> int {
    if (a < 0) == (b < 0) {
        vstd::math::abs(a) as int / vstd::math::abs(b) as int
    } else {
        -(vstd::math::abs(a) as int / vstd::math::abs(b) as int)
    }
}

/// Divides as `/` does on `i32`, rounding toward zero.
fn div_toward_zero(a: i32, b: i32) -> (r: i32)
    requires
        b != 0,
        !(a == i32::MIN && b == -1),
    ensures
        r == trunc_div(a as int, b as int),
{
    let x: i64 = a as i64;
    let y: i64 = b as i64;
    let ax: i64 = if x < 0 {
        -x
    } else {
        x
    };
    let ay: i64 = if y < 0 {
        -y
    } else {
        y
    };
    let q: i64 = ax / ay;
    assert(q <= ax) by (nonlinear_arith)
        requires
            q == ax / ay,
            ay >= 1,
            ax >= 0,
    ;
    assert(ay >= 2 ==> q <= ax / 2) by (nonlinear_arith)
        requires
            q == ax / ay,
            ay >= 1,
            ax >= 0,
    ;
    if (x < 0) == (y < 0) {
        q as i32
    } else {
        (-q) as i32
    }
}

/// The region of definition of a clip: its image bounds, or the whole
/// project when it has none.
pub open spec fn spec_region(p: PropertySetView) -> (i32, i32, i32, i32) {
    if p.ints.contains_key("OfxImagePropBounds"@) {
        let b = p.ints["OfxImagePropBounds"@];
        (b[0], b[1], b[2], b[3])
    } else {
        (0, 0, kProjectWidth, kProjectHeight)
    }
}

/// Bounds, where a clip has them, hold four values.
pub open spec fn region_readable(p: PropertySetView) -> bool {
    p.ints.contains_key("OfxImagePropBounds"@) ==> p.ints["OfxImagePropBounds"@].len() >= 4
}

/// What the host needs to save an image that a plug-in releases.
pub struct ReleasedImage {
    /// Address of the pixels.
    pub data: usize,
    pub width: i32,
    pub height: i32,
    /// Bytes of pixel data: width times bytes per row over width, times height.
    pub total_bytes: i32,
    /// The image's unique identifier, or a stand-in.
    pub name: String,
}

/// The bytes per pixel of a released image: its row bytes over its width.
pub open spec fn spec_bytes_per_pixel(p: PropertySetView) -> int {
    trunc_div(
        p.ints["OfxImagePropRowBytes"@][0] as int,
        p.ints["OfxImagePropBounds"@][2] as int,
    )
}

/// A released image holds what the host reads from it, and its size fits in an `i32`.
pub open spec fn release_readable(p: PropertySetView) -> bool {
    &&& p.pointers.contains_key("OfxImagePropData"@)
    &&& p.pointers["OfxImagePropData"@].len() >= 1
    &&& p.ints.contains_key("OfxImagePropBounds"@)
    &&& p.ints["OfxImagePropBounds"@].len() >= 4
    &&& p.ints.contains_key("OfxImagePropRowBytes"@)
    &&& p.ints["OfxImagePropRowBytes"@].len() >= 1
    &&& p.ints["OfxImagePropBounds"@][2] != 0
    &&& !(p.ints["OfxImagePropRowBytes"@][0] == i32::MIN && p.ints["OfxImagePropBounds"@][2] == -1)
    &&& i32::MIN <= p.ints["OfxImagePropBounds"@][2] * spec_bytes_per_pixel(p) <= i32::MAX
    &&& i32::MIN <= p.ints["OfxImagePropBounds"@][2] * spec_bytes_per_pixel(p)
        * p.ints["OfxImagePropBounds"@][3] <= i32::MAX
    &&& p.strings.contains_key("OfxImagePropUniqueIdentifier"@) ==> p.strings["OfxImagePropUniqueIdentifier"@].len()
        >= 1
}

/// The name under which a released image is saved.
pub open spec fn spec_release_name(p: PropertySetView) -> Seq<char> {
    if p.strings.contains_key("OfxImagePropUniqueIdentifier"@) {
        p.strings["OfxImagePropUniqueIdentifier"@][0]
    } else {
        "meow"@
    }
}

/// A clip that has bounds has exactly them as its region of definition,
/// whatever their size; a clip without bounds covers the whole project.
pub proof fn law_region_is_the_bounds(p: PropertySetView)
    requires
        region_readable(p),
    ensures
        p.ints.contains_key("OfxImagePropBounds"@) ==> spec_region(p) == (
            p.ints["OfxImagePropBounds"@][0],
            p.ints["OfxImagePropBounds"@][1],
            p.ints["OfxImagePropBounds"@][2],
            p.ints["OfxImagePropBounds"@][3],
        ),
        !p.ints.contains_key("OfxImagePropBounds"@) ==> spec_region(p) == (
            0i32,
            0i32,
            kProjectWidth,
            kProjectHeight,
        ),
{
}

/// A clip defined with an image of `width` by `height` pixels has the region
/// of definition from the origin to (`width`, `height`), whatever their size.
pub proof fn law_defined_clip_region(width: u32, height: u32, data: usize)
    requires
        width <= i32::MAX,
        height <= i32::MAX,
    ensures
        region_readable(spec_clip_properties(width, height, data)),
        spec_region(spec_clip_properties(width, height, data)) == (
            0i32,
            0i32,
            width as i32,
            height as i32,
        ),
        spec_region(spec_clip_properties(width, height, data)).2 == width,
        spec_region(spec_clip_properties(width, height, data)).3 == height,
{
    reveal_strlit("OfxImagePropBounds");
    reveal_strlit("OfxImagePropRowBytes");
    assert("OfxImagePropBounds"@.len() != "OfxImagePropRowBytes"@.len());
    let b = spec_clip_properties(width, height, data).ints["OfxImagePropBounds"@];
    assert(b == seq![0i32, 0i32, width as i32, height as i32]);
}

/// The rows of a clip's image are tightly packed RGBA8: the row bytes are the
/// width times four, so the row bytes times the height are the length of the
/// pixel buffer, width times height times four.
pub proof fn law_clip_rows_are_packed(width: u32, height: u32, data: usize)
    requires
        (width as int) * 4 <= i32::MAX,
    ensures
        spec_clip_properties(width, height, data).ints["OfxImagePropRowBytes"@].len() == 1,
        spec_clip_properties(width, height, data).ints["OfxImagePropRowBytes"@][0] == width * 4,
        spec_clip_properties(width, height, data).ints["OfxImagePropRowBytes"@][0] * height
            == width * height * 4,
        spec_clip_properties(width, height, data).pointers["OfxImagePropData"@] == seq![data],
{
    reveal_strlit("OfxImagePropBounds");
    reveal_strlit("OfxImagePropRowBytes");
    assert((width as int) * 4 * (height as int) == (width as int) * (height as int) * 4) by (nonlinear_arith);
}

/// A clip's image is opaque RGBA with a byte per channel, square pixels at
/// full scale, whole frames, and its pixels at the address it was defined with.
pub proof fn law_clip_image_is_rgba8(width: u32, height: u32, data: usize)
    ensures
        spec_clip_properties(width, height, data).strings["OfxImageEffectPropComponents"@] == seq![
            "OfxImageComponentRGBA"@,
        ],
        spec_clip_properties(width, height, data).strings["OfxImageEffectPropPixelDepth"@] == seq![
            "OfxBitDepthByte"@,
        ],
        spec_clip_properties(width, height, data).strings["OfxImageEffectPropPreMultiplication"@]
            == seq!["OfxImageOpaque"@],
        spec_clip_properties(width, height, data).strings["OfxImagePropField"@] == seq![
            "OfxFieldNone"@,
        ],
        spec_clip_properties(width, height, data).doubles["OfxImagePropPixelAspectRatio"@] == seq![
            kDoubleOneBits,
        ],
        spec_clip_properties(width, height, data).doubles["OfxImageEffectPropRenderScale"@] == seq![
            kDoubleOneBits,
            kDoubleOneBits,
        ],
        spec_clip_properties(width, height, data).pointers["OfxImagePropData"@] == seq![data],
        kBytesPerPixel == 4,
{
    reveal_strlit("OfxImagePropUniqueIdentifier");
    reveal_strlit("OfxImageEffectPropPreMultiplication");
    reveal_strlit("OfxImageEffectPropPixelDepth");
    reveal_strlit("OfxImageEffectPropComponents");
    reveal_strlit("OfxImagePropField");
    reveal_strlit("OfxImagePropPixelAspectRatio");
    reveal_strlit("OfxImageEffectPropRenderScale");
    assert("OfxImageEffectPropComponents"@.len() != "OfxImagePropField"@.len());
    assert("OfxImageEffectPropPixelDepth"@.len() != "OfxImagePropField"@.len());
    assert("OfxImageEffectPropPixelDepth"@[18] != "OfxImageEffectPropComponents"@[18]);
    assert("OfxImagePropUniqueIdentifier"@[8] != "OfxImageEffectPropComponents"@[8]);
    assert("OfxImagePropUniqueIdentifier"@[8] != "OfxImageEffectPropPixelDepth"@[8]);
    assert("OfxImageEffectPropPreMultiplication"@.len() != "OfxImagePropField"@.len());
    assert("OfxImageEffectPropPreMultiplication"@.len() != "OfxImageEffectPropComponents"@.len());
    assert("OfxImageEffectPropPreMultiplication"@.len() != "OfxImageEffectPropPixelDepth"@.len());
    assert("OfxImagePropPixelAspectRatio"@.len() != "OfxImageEffectPropRenderScale"@.len());
}

/// Division rounds toward zero: the remainder it leaves is smaller than the
/// divisor and never of the opposite sign to the dividend.
pub proof fn law_division_rounds_toward_zero(a: int, b: int)
    requires
        b != 0,
    ensures
        vstd::math::abs(a - trunc_div(a, b) * b) < vstd::math::abs(b),
        a >= 0 ==> a - trunc_div(a, b) * b >= 0,
        a <= 0 ==> a - trunc_div(a, b) * b <= 0,
{
    let aa: int = if a < 0 { -a } else { a };
    let ab: int = if b < 0 { -b } else { b };
    let q = aa / ab;
    let t = trunc_div(a, b);
    assert(0 <= aa - q * ab < ab) by (nonlinear_arith)
        requires
            ab > 0,
            aa >= 0,
            q == aa / ab,
    ;
    assert(t == if (a < 0) == (b < 0) { q } else { -q });
    assert(a - t * b == if a < 0 { -(aa - q * ab) } else { aa - q * ab }) by (nonlinear_arith)
        requires
            aa == (if a < 0 { -a } else { a }),
            ab == (if b < 0 { -b } else { b }),
            t == (if (a < 0) == (b < 0) { q } else { -q }),
    ;
}

/// Releasing the image of a clip defined at `width` by `height` gives back
/// its pixel address and size, four bytes per pixel, and as many bytes as
/// the decoded RGBA8 buffer holds.
pub proof fn law_released_clip_image(width: u32, height: u32, data: usize)
    requires
        1 <= width,
        (width as int) * 4 <= i32::MAX,
        height <= i32::MAX,
        (width as int) * 4 * (height as int) <= i32::MAX,
    ensures
        release_readable(spec_clip_properties(width, height, data)),
        spec_clip_properties(width, height, data).pointers["OfxImagePropData"@][0] == data,
        spec_clip_properties(width, height, data).ints["OfxImagePropBounds"@][2] == width,
        spec_clip_properties(width, height, data).ints["OfxImagePropBounds"@][3] == height,
        spec_bytes_per_pixel(spec_clip_properties(width, height, data)) == 4,
        width * spec_bytes_per_pixel(spec_clip_properties(width, height, data)) * height == width
            * height * 4,
        spec_release_name(spec_clip_properties(width, height, data)) == "host_frame_0001"@,
{
    reveal_strlit("OfxImagePropBounds");
    reveal_strlit("OfxImagePropRowBytes");
    reveal_strlit("OfxImagePropUniqueIdentifier");
    reveal_strlit("OfxImageEffectPropPreMultiplication");
    reveal_strlit("OfxImageEffectPropPixelDepth");
    reveal_strlit("OfxImageEffectPropComponents");
    reveal_strlit("OfxImagePropField");
    assert("OfxImagePropBounds"@.len() != "OfxImagePropRowBytes"@.len());
    assert("OfxImagePropUniqueIdentifier"@.len() != "OfxImagePropField"@.len());
    assert("OfxImagePropUniqueIdentifier"@[8] != "OfxImageEffectPropComponents"@[8]);
    assert("OfxImagePropUniqueIdentifier"@[8] != "OfxImageEffectPropPixelDepth"@[8]);
    assert("OfxImagePropUniqueIdentifier"@.len() != "OfxImageEffectPropPreMultiplication"@.len());
    let p = spec_clip_properties(width, height, data);
    assert(p.ints["OfxImagePropBounds"@] == seq![0i32, 0i32, width as i32, height as i32]);
    assert(p.ints["OfxImagePropRowBytes"@] == seq![((width as i32) * kBytesPerPixel) as i32]);
    let w = width as int;
    assert((w * 4) / w == 4) by (nonlinear_arith)
        requires
            w >= 1,
    ;
    assert(trunc_div(w * 4, w) == 4);
    assert(w * 4 * (height as int) == w * (height as int) * 4) by (nonlinear_arith);
}

/// The operations of the image effect suite.
pub struct ImageEffectSuite;

/// The image effect suite that the host hands to plug-ins.
pub fn image_effect_suite() -> (r: ImageEffectSuite) {
    ImageEffectSuite
}

impl ImageEffectSuite {
    /// Defines (or redefines) the clip whose name `name` spells, showing an
    /// RGBA8 image of `width` by `height` pixels at address `data`. Returns
    /// its position; a name that is not text fails and leaves the instance
    /// as it was.
    pub fn clip_define(
        &self,
        instance: &mut BabafxInstance,
        name: &[u8],
        width: u32,
        height: u32,
        data: usize,
    ) -> (r: Result<usize, i32>)
        requires
            old(instance).wf(),
            utf8_text(name@) is Some ==> i32::MIN <= (width as i32) * kBytesPerPixel <= i32::MAX,
        ensures
            final(instance).wf(),
            match utf8_text(name@) {
                None => r == Err::<usize, i32>(kOfxStatFailed) && *final(instance) == *old(instance),
                Some(n) => {
                    &&& r matches Ok(i)
                    &&& final(instance).properties == old(instance).properties
                    &&& final(instance).parameters == old(instance).parameters
                    &&& i < final(instance).clips@.len()
                    &&& final(instance).clips@[i as int].name@ == n
                    &&& final(instance).clips@[i as int].properties@ == spec_clip_properties(
                        width,
                        height,
                        data,
                    )
                    &&& has_name(old(instance).clips@, n) ==> {
                        &&& i < old(instance).clips@.len()
                        &&& old(instance).clips@[i as int].name@ == n
                        &&& final(instance).clips@ == old(instance).clips@.update(
                            i as int,
                            final(instance).clips@[i as int],
                        )
                    }
                    &&& !has_name(old(instance).clips@, n) ==> {
                        &&& i == old(instance).clips@.len()
                        &&& final(instance).clips@ == old(instance).clips@.push(
                            final(instance).clips@[i as int],
                        )
                    }
                },
            },
    {
        let name = match decode_c_text(name) {
            None => {
                return Err(kOfxStatFailed);
            },
            Some(n) => n,
        };
        let clip = ImageClip { name, properties: clip_image_properties(width, height, data) };
        Ok(define_named(&mut instance.clips, clip))
    }

    /// The position of the clip whose name `name` spells.
    pub fn clip_get_handle(&self, instance: &BabafxInstance, name: &[u8]) -> (r: Result<usize, i32>)
        ensures
            match utf8_text(name@) {
                Some(n) => match r {
                    Ok(i) => i < instance.clips@.len() && instance.clips@[i as int].name@ == n,
                    Err(e) => e == kOfxStatFailed && !has_name(instance.clips@, n),
                },
                None => r == Err::<usize, i32>(kOfxStatFailed),
            },
    {
        match decode_c_text(name) {
            None => Err(kOfxStatFailed),
            Some(n) => match instance.find_clip(&n) {
                Some(i) => Ok(i),
                None => Err(kOfxStatFailed),
            },
        }
    }

    /// What the host saves of an image that a plug-in releases.
    pub fn clip_release_image(&self, image: &PropertySet) -> (r: ReleasedImage)
        requires
            release_readable(image@),
        ensures
            r.data == image@.pointers["OfxImagePropData"@][0],
            r.width == image@.ints["OfxImagePropBounds"@][2],
            r.height == image@.ints["OfxImagePropBounds"@][3],
            r.total_bytes == r.width * spec_bytes_per_pixel(image@) * r.height,
            r.name@ == spec_release_name(image@),
    {
        let data_values = image.pointers.get("OfxImagePropData").unwrap();
        let bounds = image.ints.get("OfxImagePropBounds").unwrap();
        let row_values = image.ints.get("OfxImagePropRowBytes").unwrap();
        proof {
            lemma_values_view(*data_values);
            lemma_values_view(*bounds);
            lemma_values_view(*row_values);
        }
        let data = data_values[0];
        let width = bounds[2];
        let height = bounds[3];
        let bytes_per_row = div_toward_zero(row_values[0], width);
        let total_bytes = width * bytes_per_row * height;
        let name = match image.strings.get("OfxImagePropUniqueIdentifier") {
            Some(v) => {
                proof {
                    lemma_values_view(*v);
                }
                v[0].clone()
            },
            None => "meow".to_owned(),
        };
        ReleasedImage { data, width, height, total_bytes, name }
    }

    /// The region of definition of `clip`: its bounds, else the whole project.
    pub fn clip_get_region_of_definition(&self, clip: &ImageClip) -> (r: (i32, i32, i32, i32))
        requires
            region_readable(clip.properties@),
        ensures
            r == spec_region(clip.properties@),
    {
        match clip.properties.ints.get("OfxImagePropBounds") {
            Some(b) => {
                proof {
                    lemma_values_view(*b);
                }
                (b[0], b[1], b[2], b[3])
            },
            None => (0, 0, kProjectWidth, kProjectHeight),
        }
    }

    /// Aborting is not provided.
    pub fn abort(&self) -> (status: i32)
        ensures
            status == kOfxStatErrUnsupported,
    {
        kOfxStatErrUnsupported
    }

    /// The decision on a request for `n_bytes` of image memory behind a header
    /// that takes `padding`.
    pub fn image_memory_alloc(&self, n_bytes: usize, padding: usize) -> (r: AllocDecision)
        requires
            padding + n_bytes <= usize::MAX,
        ensures
            r == crate::memory::spec_alloc_decision(n_bytes as int, padding as int),
    {
        crate::memory::alloc_decision(n_bytes, padding)
    }

    /// The status of freeing the image memory behind `header`.
    pub fn image_memory_free(&self, header: &ImageMemoryHeader) -> (status: i32)
        ensures
            status == crate::memory::spec_release_status(header.total_size as int),
    {
        header.release_status()
    }

    /// Takes a lock on the image memory behind `header`.
    pub fn image_memory_lock(&self, header: &mut ImageMemoryHeader) -> (status: i32)
        requires
            old(header).lock_count < usize::MAX,
        ensures
            status == kOfxStatOK,
            *final(header) == old(header).spec_lock(),
    {
        header.lock();
        kOfxStatOK
    }

    /// Releases a lock on the image memory behind `header`.
    pub fn image_memory_unlock(&self, header: &mut ImageMemoryHeader) -> (status: i32)
        ensures
            status == kOfxStatOK,
            *final(header) == old(header).spec_unlock(),
    {
        header.unlock();
        kOfxStatOK
    }
}

} // verus!
