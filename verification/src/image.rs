use vstd::prelude::*;

use crate::format::{spec_format_of_code, ImageFormat};

verus! {

/// Declares `image::DynamicImage`, the decoded pixel buffer of the image
/// crate, so that values of it can be carried through verified code.
#[verifier::external_type_specification]
#[verifier::external_body]
pub struct ExDynamicImage(image::DynamicImage);

/// The abstract pixel content a pixel buffer holds. The buffer is opaque
/// here; the trusted wrappers below relate this content across decode,
/// resize, and encode.
pub uninterp spec fn pixels_of(buffer: image::DynamicImage) -> Seq<u8>;

/// What the image crate decodes from the given bytes under the format with
/// the given wire code: the pixel content, or nothing when the bytes are
/// not valid data for that format. The result depends on the bytes and the
/// format alone.
pub uninterp spec fn spec_decoded(bytes: Seq<u8>, code: int) -> Option<Seq<u8>>;

/// What the image crate serializes the given pixel content to under the
/// format with the given wire code, or nothing when encoding fails. The
/// result depends on the pixels and the format alone.
pub uninterp spec fn spec_encoded(pixels: Seq<u8>, code: int) -> Option<Seq<u8>>;

/// The pixel content the image crate produces when scaling the given pixel
/// content to fit within the given bounds with the Lanczos3 filter. The
/// result depends on the pixels and the bounds alone.
pub uninterp spec fn spec_resized(pixels: Seq<u8>, width: int, height: int) -> Seq<u8>;

/// A decoded in-memory image: a format tag paired with the pixel buffer
/// the image crate produced, and the buffer's dimensions.
pub struct Image {
    format: ImageFormat,
    width: u32,
    height: u32,
    buffer: image::DynamicImage,
}

/// Bytes that are not valid data for the claimed format.
#[derive(Debug)]
pub struct DecodeError {
    pub message: String,
}

/// A serialization failure; not expected in normal operation.
#[derive(Debug)]
pub struct EncodeError {
    pub message: String,
}

/// An image record ready for persistence: wire format code plus the encoded
/// byte payload.
pub struct NewImage {
    pub format: i32,
    pub data: Vec<u8>,
}

/// An image record read back from storage.
pub struct LoadedImage {
    pub id: i32,
    pub format: i32,
    pub data: Vec<u8>,
}

/// Relies on image::load_from_memory_with_format: decodes the bytes under
/// the claimed format alone, never guessing a format from content, and
/// succeeds exactly when the bytes are valid data for that format. Returns
/// the pixel buffer with its width and height.
#[verifier::external_body]
fn decode_raw(data: &[u8], format: ImageFormat) -> (r: Result<
    (image::DynamicImage, u32, u32),
    String,
>)
    ensures
        r is Ok <==> spec_decoded(data@, format.spec_code()) is Some,
        r matches Ok(d) ==> Some(pixels_of(d.0)) == spec_decoded(data@, format.spec_code()),
{
    let f = match format {
        ImageFormat::PNG => image::ImageFormat::Png,
        ImageFormat::JPEG => image::ImageFormat::Jpeg,
        ImageFormat::GIF => image::ImageFormat::Gif,
        ImageFormat::BMP => image::ImageFormat::Bmp,
        ImageFormat::ICO => image::ImageFormat::Ico,
    };
    match image::load_from_memory_with_format(data, f) {
        Ok(d) => {
            let (w, h) = (d.width(), d.height());
            Ok((d, w, h))
        },
        Err(e) => Err(format!("{}", e)),
    }
}

/// Relies on image::DynamicImage::write_to: serializes the pixel buffer in
/// the named format; the JPEG codec runs at the fixed quality of 75, all
/// other codecs are lossless.
#[verifier::external_body]
fn encode_raw(buffer: &image::DynamicImage, format: ImageFormat) -> (r: Result<Vec<u8>, String>)
    ensures
        match r {
            Ok(bytes) => spec_encoded(pixels_of(*buffer), format.spec_code()) == Some(bytes@),
            Err(_) => spec_encoded(pixels_of(*buffer), format.spec_code()) is None,
        },
{
    let f = match format {
        ImageFormat::PNG => image::ImageOutputFormat::Png,
        ImageFormat::JPEG => image::ImageOutputFormat::Jpeg(75),
        ImageFormat::GIF => image::ImageOutputFormat::Gif,
        ImageFormat::BMP => image::ImageOutputFormat::Bmp,
        ImageFormat::ICO => image::ImageOutputFormat::Ico,
    };
    let mut cursor = std::io::Cursor::new(Vec::new());
    match buffer.write_to(&mut cursor, f) {
        Ok(()) => Ok(cursor.into_inner()),
        Err(e) => Err(format!("{}", e)),
    }
}

/// Relies on image::DynamicImage::resize: scales to the largest size that
/// fits within the given bounds, keeping the aspect ratio, with the
/// Lanczos3 filter, and never below one pixel on a side. Returns the
/// scaled pixel buffer with its width and height.
#[verifier::external_body]
fn resize_raw(buffer: &image::DynamicImage, width: u32, height: u32) -> (r: (
    image::DynamicImage,
    u32,
    u32,
))
    ensures
        pixels_of(r.0) == spec_resized(pixels_of(*buffer), width as int, height as int),
        width >= 1 && height >= 1 ==> 1 <= r.1 <= width && 1 <= r.2 <= height,
{
    let d = buffer.resize(width, height, image::imageops::FilterType::Lanczos3);
    let (w, h) = (d.width(), d.height());
    (d, w, h)
}

impl Image {
    /// The format tag of the image.
    pub closed spec fn spec_format(&self) -> ImageFormat {
        self.format
    }

    /// The width of the pixel buffer.
    pub closed spec fn spec_width(&self) -> u32 {
        self.width
    }

    /// The height of the pixel buffer.
    pub closed spec fn spec_height(&self) -> u32 {
        self.height
    }

    /// The abstract pixel content of the image.
    pub closed spec fn spec_pixels(&self) -> Seq<u8> {
        pixels_of(self.buffer)
    }

    /// Decodes raw bytes against a claimed format; fails exactly when the
    /// bytes are not valid data for that format.
    pub fn decode(data: &[u8], format: ImageFormat) -> (r: Result<Image, DecodeError>)
        ensures
            match r {
                Ok(img) => spec_decoded(data@, format.spec_code()) == Some(img.spec_pixels())
                    && img.spec_format() == format,
                Err(_) => spec_decoded(data@, format.spec_code()) is None,
            },
    {
        match decode_raw(data, format) {
            Ok((buffer, width, height)) => Ok(Image { format, width, height, buffer }),
            Err(message) => Err(DecodeError { message }),
        }
    }

    /// Serializes the image with its format's fixed encode codec.
    pub fn data(&self) -> (r: Result<Vec<u8>, EncodeError>)
        ensures
            match r {
                Ok(bytes) => spec_encoded(self.spec_pixels(), self.spec_format().spec_code())
                    == Some(bytes@),
                Err(_) => spec_encoded(self.spec_pixels(), self.spec_format().spec_code())
                    is None,
            },
    {
        match encode_raw(&self.buffer, self.format) {
            Ok(bytes) => Ok(bytes),
            Err(message) => Err(EncodeError { message }),
        }
    }

    /// The format tag of the image.
    pub fn format(&self) -> (f: ImageFormat)
        ensures
            f == self.spec_format(),
    {
        self.format
    }

    /// The width of the pixel buffer.
    pub fn width(&self) -> (w: u32)
        ensures
            w == self.spec_width(),
    {
        self.width
    }

    /// The height of the pixel buffer.
    pub fn height(&self) -> (h: u32)
        ensures
            h == self.spec_height(),
    {
        self.height
    }

    /// The storage-boundary conversion: encodes the image once and pairs
    /// the payload with the format's wire code.
    pub fn insertable(&self) -> (r: Result<NewImage, EncodeError>)
        ensures
            match r {
                Ok(rec) => rec.format == self.spec_format().spec_code() && spec_encoded(
                    self.spec_pixels(),
                    self.spec_format().spec_code(),
                ) == Some(rec.data@),
                Err(_) => spec_encoded(self.spec_pixels(), self.spec_format().spec_code())
                    is None,
            },
    {
        match self.data() {
            Ok(data) => Ok(NewImage { format: self.format.code(), data }),
            Err(e) => Err(e),
        }
    }

    /// A new image scaled to fit within the given bounds, keeping the
    /// format tag; the source image is not touched.
    pub fn preview(&self, bounds: (u32, u32)) -> (r: Image)
        ensures
            r.spec_format() == self.spec_format(),
            r.spec_pixels() == spec_resized(self.spec_pixels(), bounds.0 as int, bounds.1 as int),
            bounds.0 >= 1 && bounds.1 >= 1 ==> 1 <= r.spec_width() <= bounds.0 && 1
                <= r.spec_height() <= bounds.1,
    {
        let (width, height) = bounds;
        let (buffer, w, h) = resize_raw(&self.buffer, width, height);
        Image { format: self.format, width: w, height: h, buffer }
    }
}

/// Decodes a stored record's payload back into an image: the wire code is
/// mapped through the format registry, then the payload is decoded. Fails
/// exactly when the code is unknown or the payload does not decode.
pub fn decode_record(format: i32, data: &[u8]) -> (r: Result<Image, DecodeError>)
    ensures
        match r {
            Ok(img) => spec_format_of_code(format as int) == Some(img.spec_format())
                && spec_decoded(data@, format as int) == Some(img.spec_pixels()),
            Err(_) => spec_format_of_code(format as int) is None || spec_decoded(
                data@,
                format as int,
            ) is None,
        },
{
    match ImageFormat::from_code(format) {
        Some(f) => Image::decode(data, f),
        None => Err(
            DecodeError { message: "unknown image format code in stored record".to_owned() },
        ),
    }
}

impl LoadedImage {
    /// Decodes a stored record back into an image.
    pub fn decode(&self) -> (r: Result<Image, DecodeError>)
        ensures
            match r {
                Ok(img) => spec_format_of_code(self.format as int) == Some(img.spec_format())
                    && spec_decoded(self.data@, self.format as int) == Some(img.spec_pixels()),
                Err(_) => spec_format_of_code(self.format as int) is None || spec_decoded(
                    self.data@,
                    self.format as int,
                ) is None,
            },
    {
        decode_record(self.format, self.data.as_slice())
    }
}

} // verus!
