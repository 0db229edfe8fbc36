use vstd::prelude::*;

use base64::Engine;

use crate::format::ImageFormat;
use crate::image::{spec_decoded, DecodeError, Image};

verus! {

/// A name for what base64 decoding yields on the given text: the decoded
/// bytes, or nothing when the text is not valid standard base64. The
/// result depends on the text alone.
pub uninterp spec fn spec_base64_decoded(text: Seq<char>) -> Option<Seq<u8>>;

/// Relies on base64's standard-alphabet engine: decodes the text, failing
/// exactly on text that is not valid standard base64.
#[verifier::external_body]
fn base64_decode(text: &str) -> (r: Result<Vec<u8>, String>)
    ensures
        match r {
            Ok(bytes) => spec_base64_decoded(text@) == Some(bytes@),
            Err(_) => spec_base64_decoded(text@) is None,
        },
{
    match base64::engine::general_purpose::STANDARD.decode(text) {
        Ok(b) => Ok(b),
        Err(e) => Err(format!("{}", e)),
    }
}

/// One entry of a base64 JSON batch: a format name and base64 text.
pub struct Base64Image {
    pub format: ImageFormat,
    pub data: String,
}

/// The pixel content a base64 batch entry stands for, when its text is
/// valid base64 and the decoded bytes are valid data for its format.
pub open spec fn spec_entry_decoded(e: Base64Image) -> Option<Seq<u8>> {
    match spec_base64_decoded(e.data@) {
        Some(bytes) => spec_decoded(bytes, e.format.spec_code()),
        None => None,
    }
}

impl Base64Image {
    /// Base64-decodes the entry's text, then image-decodes the bytes under
    /// the entry's claimed format; fails exactly when either step does.
    pub fn decode(&self) -> (r: Result<Image, DecodeError>)
        ensures
            match r {
                Ok(img) => spec_entry_decoded(*self) == Some(img.spec_pixels())
                    && img.spec_format() == self.format,
                Err(_) => spec_entry_decoded(*self) is None,
            },
    {
        match base64_decode(self.data.as_str()) {
            Ok(bytes) => Image::decode(bytes.as_slice(), self.format),
            Err(message) => Err(DecodeError { message }),
        }
    }
}

/// An upload request body: a base64 batch or a list of remote locations.
pub enum Request {
    Base64 { images: Vec<Base64Image> },
    Remote { locations: Vec<String> },
}

} // verus!
