use vstd::prelude::*;
use crate::geometry::{MARGIN, Size};

verus! {

/// The width and height of the image that `bytes` encode, or `None` where
/// they encode no image that the decoder reads.
pub uninterp spec fn decoded_size(bytes: Seq<u8>) -> Option<(u32, u32)>;

/// Relies on `image::guess_format`, which picks a built-in format from the
/// magic bytes at the start of the buffer, on
/// `image::load_from_memory_with_format`, which decodes the bytes with that
/// built-in decoder (neither consults the hooks that a process can register),
/// and on `GenericImageView::dimensions` of the decoded image. Each fails or
/// succeeds by the bytes alone.
#[verifier::external_body]
fn decode_dimensions(bytes: &[u8]) -> (r: Option<(u32, u32)>)
    ensures
        r == decoded_size(bytes@),
{
    match image::guess_format(bytes) {
        Ok(format) => match image::load_from_memory_with_format(bytes, format) {
            Ok(img) => Some(image::GenericImageView::dimensions(&img)),
            Err(_) => None,
        },
        Err(_) => None,
    }
}

/// One image layer of the canvas: where it stands, its intrinsic size, two
/// display settings and the encoded image it shows.
///
/// `scale_percent` (100 for 1.0) and `opacity_percent` (0 to 100) are kept
/// for display; drawing does not apply them.
#[derive(Debug)]
pub struct Layer {
    pub name: String,
    pub x: i32,
    pub y: i32,
    pub width: u32,
    pub height: u32,
    pub scale_percent: u32,
    pub opacity_percent: u32,
    pub pixels: Vec<u8>,
}

/// The name a layer gets when its source gives none.
pub open spec fn unnamed() -> Seq<char> {
    seq!['U', 'n', 'n', 'a', 'm', 'e', 'd']
}

/// The size a new layer gets: the decoded size where the bytes decode to an
/// image with both sides positive, else the canvas less the margin.
pub open spec fn content_size(decoded: Option<(u32, u32)>, canvas: Size) -> Size {
    match decoded {
        Some((w, h)) if w > 0 && h > 0 => Size { width: w, height: h },
        _ => Size {
            width: (canvas.width - MARGIN) as u32,
            height: (canvas.height - MARGIN) as u32,
        },
    }
}

/// A canvas size from which the fallback size of a layer is positive.
pub open spec fn canvas_ok(canvas: Size) -> bool {
    canvas.width > MARGIN && canvas.height > MARGIN
}

impl Layer {
    /// Both sides positive and the opacity within its range.
    pub open spec fn wf(&self) -> bool {
        &&& self.width > 0
        &&& self.height > 0
        &&& self.opacity_percent <= 100
    }

    pub open spec fn size(&self) -> Size {
        Size { width: self.width, height: self.height }
    }

    /// What a new layer made from a name, its image bytes and their decoded
    /// size holds: placed at the origin, at full scale and opacity.
    pub open spec fn new_spec(
        name: Option<Seq<char>>,
        pixels: Seq<u8>,
        decoded: Option<(u32, u32)>,
        canvas: Size,
        r: Layer,
    ) -> bool {
        &&& r.name@ == match name {
            Some(n) => n,
            None => unnamed(),
        }
        &&& r.x == 0
        &&& r.y == 0
        &&& r.size() == content_size(decoded, canvas)
        &&& r.scale_percent == 100
        &&& r.opacity_percent == 100
        &&& r.pixels@ == pixels
    }

    /// Builds a layer from its image bytes and the size that they decoded to
    /// (`None` where they did not decode).
    pub fn from_decoded(
        name: Option<String>,
        pixels: Vec<u8>,
        decoded: Option<(u32, u32)>,
        canvas: Size,
    ) -> (r: Layer)
        requires
            canvas_ok(canvas),
        ensures
            Layer::new_spec(
                match name {
                    Some(n) => Some(n@),
                    None => None,
                },
                pixels@,
                decoded,
                canvas,
                r,
            ),
            r.wf(),
    {
        let size = match decoded {
            Some((w, h)) => {
                if w > 0 && h > 0 {
                    Size { width: w, height: h }
                } else {
                    Size { width: canvas.width - MARGIN, height: canvas.height - MARGIN }
                }
            },
            None => Size { width: canvas.width - MARGIN, height: canvas.height - MARGIN },
        };
        let name = match name {
            Some(n) => n,
            None => {
                let u = "Unnamed".to_owned();
                proof {
                    reveal_strlit("Unnamed");
                    assert(u@ =~= unnamed());
                }
                u
            },
        };
        Layer {
            name,
            x: 0,
            y: 0,
            width: size.width,
            height: size.height,
            scale_percent: 100,
            opacity_percent: 100,
            pixels,
        }
    }

    /// Builds a layer from the bytes of an image file: the image is decoded
    /// for its size, and where it does not decode the layer takes the canvas
    /// size less the margin.
    pub fn from_image(name: Option<String>, pixels: Vec<u8>, canvas: Size) -> (r: Layer)
        requires
            canvas_ok(canvas),
        ensures
            Layer::new_spec(
                match name {
                    Some(n) => Some(n@),
                    None => None,
                },
                pixels@,
                decoded_size(pixels@),
                canvas,
                r,
            ),
            r.wf(),
    {
        let decoded = decode_dimensions(pixels.as_slice());
        Layer::from_decoded(name, pixels, decoded, canvas)
    }

    /// The text by which the layer is listed: its name.
    pub fn label(&self) -> (r: String)
        ensures
            r@ == self.name@,
    {
        self.name.clone()
    }
}

} // verus!
