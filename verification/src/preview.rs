use vstd::prelude::*;

use crate::format::{spec_format_of_code, ImageFormat};
use crate::id::ImageId;
use crate::image::{spec_decoded, spec_encoded, spec_resized, EncodeError};
use crate::storage::{LoadError, Storage, StorageError};

verus! {

/// The fixed bound previews are scaled to fit, on both axes.
pub const PREVIEW_BOUND: u32 = 100;

/// Why a preview could not be produced.
#[derive(Debug)]
pub enum PreviewError {
    /// The id is unknown to the backend.
    NotFound,
    /// The backend failed, or the stored record could not be read back.
    Storage(StorageError),
    /// The resized image did not re-encode.
    Encode(EncodeError),
}

/// The preview service: load the stored image by id, scale it to fit the
/// fixed bound, and re-encode it with its own format's codec. Returns the
/// format, for the response's content type, together with the bytes.
/// Every request recomputes from the full-resolution stored record.
pub fn generate_preview<S: Storage>(storage: &S, id: ImageId) -> (r: Result<
    (ImageFormat, Vec<u8>),
    PreviewError,
>)
    ensures
        match r {
            Ok((format, bytes)) => {
                let rec = storage.records()[id.0 as int];
                &&& storage.records().dom().contains(id.0 as int)
                &&& Some(format) == spec_format_of_code(rec.format)
                &&& Some(bytes@) == spec_encoded(
                    spec_resized(
                        spec_decoded(rec.data, rec.format)->Some_0,
                        PREVIEW_BOUND as int,
                        PREVIEW_BOUND as int,
                    ),
                    rec.format,
                )
            },
            Err(PreviewError::NotFound) => !storage.records().dom().contains(id.0 as int),
            Err(PreviewError::Storage(_)) => true,
            Err(PreviewError::Encode(_)) => {
                let rec = storage.records()[id.0 as int];
                &&& storage.records().dom().contains(id.0 as int)
                &&& spec_encoded(
                    spec_resized(
                        spec_decoded(rec.data, rec.format)->Some_0,
                        PREVIEW_BOUND as int,
                        PREVIEW_BOUND as int,
                    ),
                    rec.format,
                ) is None
            },
        },
{
    let image = match storage.load(id) {
        Ok(img) => img,
        Err(LoadError::NotFound) => {
            return Err(PreviewError::NotFound);
        },
        Err(LoadError::Storage(e)) => {
            return Err(PreviewError::Storage(e));
        },
    };
    let preview = image.preview((PREVIEW_BOUND, PREVIEW_BOUND));
    match preview.data() {
        Ok(bytes) => Ok((preview.format(), bytes)),
        Err(e) => Err(PreviewError::Encode(e)),
    }
}

} // verus!
