use vstd::prelude::*;

use crate::format::{spec_format_of_content_type, spec_format_of_name, FormatError, ImageFormat};
use crate::id::ImageId;
use crate::image::{spec_decoded, DecodeError, Image};
use crate::request::{spec_entry_decoded, Base64Image};
use crate::response::Response;
use crate::storage::{spec_record_of, spec_stored_record, Storage, StorageError};
use crate::text::str_eq;

verus! {

/// A remote fetch the channel rejected: a failed request, or a response
/// without a usable content type.
#[derive(Debug)]
pub struct FetchError {
    pub message: String,
}

/// Why the multipart channel aborted its request.
#[derive(Debug)]
pub enum UploadError {
    /// A part failed its type check, format parse, or decode; nothing was
    /// stored.
    Rejected { message: String },
    /// The single store call failed; nothing became visible.
    Storage(StorageError),
}

/// One buffered part of a multipart request: the declared content type,
/// split into type and subtype, and the part's bytes.
pub struct MultipartImage {
    pub mime_type: String,
    pub subtype: String,
    pub body: Vec<u8>,
}

/// One completed fetch of the remote channel: the Content-Type header, if
/// the response carried one, and the body bytes.
pub struct FetchedImage {
    pub content_type: Option<String>,
    pub body: Vec<u8>,
}

/// The format a multipart part declares, when its type is `image` and its
/// subtype names one of the supported formats.
pub open spec fn spec_part_format(p: MultipartImage) -> Option<ImageFormat> {
    if p.mime_type@ == "image"@ {
        spec_format_of_name(p.subtype@)
    } else {
        None
    }
}

/// The pixel content a multipart part stands for, when its declared format
/// is supported and its body decodes under it.
pub open spec fn spec_part_decoded(p: MultipartImage) -> Option<Seq<u8>> {
    match spec_part_format(p) {
        Some(f) => spec_decoded(p.body@, f.spec_code()),
        None => None,
    }
}

/// The format a fetched response declares, when it carries a Content-Type
/// header that maps to a supported format.
pub open spec fn spec_fetched_format(p: FetchedImage) -> Option<ImageFormat> {
    match p.content_type {
        Some(ct) => spec_format_of_content_type(ct@),
        None => None,
    }
}

/// The pixel content a fetched response stands for, when its declared
/// format is supported and its body decodes under it.
pub open spec fn spec_fetched_decoded(p: FetchedImage) -> Option<Seq<u8>> {
    match spec_fetched_format(p) {
        Some(f) => spec_decoded(p.body@, f.spec_code()),
        None => None,
    }
}

/// The format of a part declaring `type/subtype`: the type must be
/// `image`, and the subtype must name a supported format.
pub fn extract_type(mime_type: &str, subtype: &str) -> (r: Result<ImageFormat, FormatError>)
    ensures
        match r {
            Ok(f) => mime_type@ == "image"@ && spec_format_of_name(subtype@) == Some(f),
            Err(_) => mime_type@ != "image"@ || spec_format_of_name(subtype@) is None,
        },
{
    if !str_eq(mime_type, "image") {
        return Err(FormatError { message: "unsupported content type".to_owned() });
    }
    ImageFormat::from_name(subtype)
}

/// Parses one multipart part into an image: type check, format parse, then
/// decode of the buffered body; fails exactly when one of them does.
pub fn extract_image(part: &MultipartImage) -> (r: Result<Image, UploadError>)
    ensures
        match r {
            Ok(img) => spec_part_format(*part) == Some(img.spec_format()) && spec_part_decoded(
                *part,
            ) == Some(img.spec_pixels()),
            Err(e) => e is Rejected && spec_part_decoded(*part) is None,
        },
{
    match extract_type(part.mime_type.as_str(), part.subtype.as_str()) {
        Ok(format) => match Image::decode(part.body.as_slice(), format) {
            Ok(img) => Ok(img),
            Err(e) => Err(UploadError::Rejected { message: e.message }),
        },
        Err(e) => Err(UploadError::Rejected { message: e.message }),
    }
}

/// Decodes every entry of a base64 batch, in order, failing fast on the
/// first invalid entry: all of the batch decodes, or none of it is kept.
pub fn decode_base64_batch(entries: &Vec<Base64Image>) -> (r: Result<Vec<Image>, DecodeError>)
    ensures
        match r {
            Ok(imgs) => imgs@.len() == entries@.len() && forall|i: int|
                0 <= i < entries@.len() ==> {
                    &&& spec_entry_decoded(entries@[i]) == Some(
                        (#[trigger] imgs@[i]).spec_pixels(),
                    )
                    &&& imgs@[i].spec_format() == entries@[i].format
                },
            Err(_) => exists|i: int|
                0 <= i < entries@.len() && spec_entry_decoded(#[trigger] entries@[i]) is None,
        },
{
    let mut imgs: Vec<Image> = Vec::new();
    let mut k: usize = 0;
    while k < entries.len()
        invariant
            k <= entries@.len(),
            imgs@.len() == k as int,
            forall|i: int|
                0 <= i < k ==> {
                    &&& spec_entry_decoded(entries@[i]) == Some(
                        (#[trigger] imgs@[i]).spec_pixels(),
                    )
                    &&& imgs@[i].spec_format() == entries@[i].format
                },
        decreases entries@.len() - k,
    {
        match entries[k].decode() {
            Ok(img) => imgs.push(img),
            Err(e) => {
                return Err(e);
            },
        }
        k = k + 1;
    }
    Ok(imgs)
}

/// The base64 JSON channel: decode the whole batch, then make exactly one
/// store call. One invalid entry rejects the request with a structured
/// error and leaves the backend untouched; a storage failure surfaces as
/// the server-level error, with nothing made visible either way.
pub fn upload_base64<S: Storage>(storage: &mut S, images: Vec<Base64Image>) -> (r: Result<
    Response,
    StorageError,
>)
    ensures
        match r {
            Ok(resp) => match resp {
                Response::Error(_) => final(storage).records() == old(storage).records()
                    && exists|i: int|
                    0 <= i < images@.len() && spec_entry_decoded(#[trigger] images@[i]) is None,
                Response::Ids(ids) => {
                    &&& forall|i: int|
                        0 <= i < images@.len() ==> spec_entry_decoded(#[trigger] images@[i])
                            is Some
                    &&& ids@.len() == images@.len()
                    &&& forall|i: int, j: int|
                        0 <= i < j < ids@.len() ==> ids@[i].0 != ids@[j].0
                    &&& forall|i: int|
                        0 <= i < ids@.len() ==> #[trigger] final(storage).records().dom().contains(ids@[i].0 as int) && final(storage).records()[ids@[i].0 as int] == spec_record_of(
                            images@[i].format,
                            spec_entry_decoded(images@[i])->Some_0,
                        )
                },
            },
            Err(_) => final(storage).records() == old(storage).records() && forall|i: int|
                0 <= i < images@.len() ==> spec_entry_decoded(#[trigger] images@[i]) is Some,
        },
{
    match decode_base64_batch(&images) {
        Err(e) => Ok(Response::Error(e.message)),
        Ok(imgs) => {
            let ghost gimgs = imgs@;
            match storage.store(imgs) {
                Ok(ids) => {
                    proof {
                        assert forall|i: int|
                            0 <= i < images@.len() implies spec_entry_decoded(
                            #[trigger] images@[i],
                        ) is Some by {
                            assert(spec_entry_decoded(images@[i]) == Some(gimgs[i].spec_pixels()));
                        }
                        assert forall|i: int|
                            0 <= i < ids@.len() implies #[trigger] storage.records().dom().contains(
                            ids@[i].0 as int,
                        ) && storage.records()[ids@[i].0 as int] == spec_record_of(
                            images@[i].format,
                            spec_entry_decoded(images@[i])->Some_0,
                        ) by {
                            assert(storage.records().dom().contains(ids@[i].0 as int));
                            assert(storage.records()[ids@[i].0 as int] == spec_stored_record(
                                gimgs[i],
                            ));
                        }
                    }
                    Ok(Response::Ids(ids))
                },
                Err(e) => {
                    proof {
                        assert forall|i: int|
                            0 <= i < images@.len() implies spec_entry_decoded(
                            #[trigger] images@[i],
                        ) is Some by {
                            assert(spec_entry_decoded(images@[i]) == Some(gimgs[i].spec_pixels()));
                        }
                    }
                    Err(e)
                },
            }
        },
    }
}

/// Normalizes the remote channel's completed fetches, in order, failing
/// fast on the first response without a content type, with an unsupported
/// one, or with a body that does not decode.
pub fn decode_fetched_batch(parts: &Vec<FetchedImage>) -> (r: Result<Vec<Image>, FetchError>)
    ensures
        match r {
            Ok(imgs) => imgs@.len() == parts@.len() && forall|i: int|
                0 <= i < parts@.len() ==> {
                    &&& spec_fetched_decoded(parts@[i]) == Some(
                        (#[trigger] imgs@[i]).spec_pixels(),
                    )
                    &&& spec_fetched_format(parts@[i]) == Some(imgs@[i].spec_format())
                },
            Err(_) => exists|i: int|
                0 <= i < parts@.len() && spec_fetched_decoded(#[trigger] parts@[i]) is None,
        },
{
    let mut imgs: Vec<Image> = Vec::new();
    let mut k: usize = 0;
    while k < parts.len()
        invariant
            k <= parts@.len(),
            imgs@.len() == k as int,
            forall|i: int|
                0 <= i < k ==> {
                    &&& spec_fetched_decoded(parts@[i]) == Some(
                        (#[trigger] imgs@[i]).spec_pixels(),
                    )
                    &&& spec_fetched_format(parts@[i]) == Some(imgs@[i].spec_format())
                },
        decreases parts@.len() - k,
    {
        let part = &parts[k];
        let format = match &part.content_type {
            Some(ct) => match ImageFormat::from_content_type(ct.as_str()) {
                Ok(f) => f,
                Err(e) => {
                    return Err(FetchError { message: e.message });
                },
            },
            None => {
                return Err(FetchError { message: "no content-type header on remote response".to_owned() });
            },
        };
        match Image::decode(part.body.as_slice(), format) {
            Ok(img) => imgs.push(img),
            Err(e) => {
                return Err(FetchError { message: e.message });
            },
        }
        k = k + 1;
    }
    Ok(imgs)
}

/// The remote channel's decision step, once every fetch has completed:
/// map each response's content type through the format registry, decode
/// every body, then make exactly one store call. One bad response rejects
/// the request with a structured error and leaves the backend untouched.
pub fn upload_fetched<S: Storage>(storage: &mut S, parts: Vec<FetchedImage>) -> (r: Result<
    Response,
    StorageError,
>)
    ensures
        match r {
            Ok(resp) => match resp {
                Response::Error(_) => final(storage).records() == old(storage).records()
                    && exists|i: int|
                    0 <= i < parts@.len() && spec_fetched_decoded(#[trigger] parts@[i]) is None,
                Response::Ids(ids) => {
                    &&& forall|i: int|
                        0 <= i < parts@.len() ==> spec_fetched_decoded(#[trigger] parts@[i])
                            is Some
                    &&& ids@.len() == parts@.len()
                    &&& forall|i: int, j: int|
                        0 <= i < j < ids@.len() ==> ids@[i].0 != ids@[j].0
                    &&& forall|i: int|
                        0 <= i < ids@.len() ==> #[trigger] final(storage).records().dom().contains(ids@[i].0 as int) && final(storage).records()[ids@[i].0 as int] == spec_record_of(
                            spec_fetched_format(parts@[i])->Some_0,
                            spec_fetched_decoded(parts@[i])->Some_0,
                        )
                },
            },
            Err(_) => final(storage).records() == old(storage).records() && forall|i: int|
                0 <= i < parts@.len() ==> spec_fetched_decoded(#[trigger] parts@[i]) is Some,
        },
{
    match decode_fetched_batch(&parts) {
        Err(e) => Ok(Response::Error(e.message)),
        Ok(imgs) => {
            let ghost gimgs = imgs@;
            match storage.store(imgs) {
                Ok(ids) => {
                    proof {
                        assert forall|i: int|
                            0 <= i < parts@.len() implies spec_fetched_decoded(
                            #[trigger] parts@[i],
                        ) is Some by {
                            assert(spec_fetched_decoded(parts@[i]) == Some(gimgs[i].spec_pixels()));
                        }
                        assert forall|i: int|
                            0 <= i < ids@.len() implies #[trigger] storage.records().dom().contains(
                            ids@[i].0 as int,
                        ) && storage.records()[ids@[i].0 as int] == spec_record_of(
                            spec_fetched_format(parts@[i])->Some_0,
                            spec_fetched_decoded(parts@[i])->Some_0,
                        ) by {
                            assert(storage.records().dom().contains(ids@[i].0 as int));
                            assert(storage.records()[ids@[i].0 as int] == spec_stored_record(
                                gimgs[i],
                            ));
                        }
                    }
                    Ok(Response::Ids(ids))
                },
                Err(e) => {
                    proof {
                        assert forall|i: int|
                            0 <= i < parts@.len() implies spec_fetched_decoded(
                            #[trigger] parts@[i],
                        ) is Some by {
                            assert(spec_fetched_decoded(parts@[i]) == Some(gimgs[i].spec_pixels()));
                        }
                    }
                    Err(e)
                },
            }
        },
    }
}

/// The multipart channel: parse and decode every buffered part, then make
/// exactly one store call. Any failing part aborts the request before the
/// store; the failure is request-level, not a structured response.
pub fn upload_multipart<S: Storage>(storage: &mut S, parts: Vec<MultipartImage>) -> (r: Result<
    Vec<ImageId>,
    UploadError,
>)
    ensures
        match r {
            Ok(ids) => {
                &&& forall|i: int|
                    0 <= i < parts@.len() ==> spec_part_decoded(#[trigger] parts@[i]) is Some
                &&& ids@.len() == parts@.len()
                &&& forall|i: int, j: int| 0 <= i < j < ids@.len() ==> ids@[i].0 != ids@[j].0
                &&& forall|i: int|
                    0 <= i < ids@.len() ==> #[trigger] final(storage).records().dom().contains(
                        ids@[i].0 as int,
                    ) && final(storage).records()[ids@[i].0 as int] == spec_record_of(
                        spec_part_format(parts@[i])->Some_0,
                        spec_part_decoded(parts@[i])->Some_0,
                    )
            },
            Err(e) => final(storage).records() == old(storage).records() && (e is Rejected
                ==> exists|i: int|
                0 <= i < parts@.len() && spec_part_decoded(#[trigger] parts@[i]) is None) && (e
                is Storage ==> forall|i: int|
                0 <= i < parts@.len() ==> spec_part_decoded(#[trigger] parts@[i]) is Some),
        },
{
    let mut imgs: Vec<Image> = Vec::new();
    let mut k: usize = 0;
    while k < parts.len()
        invariant
            k <= parts@.len(),
            imgs@.len() == k as int,
            forall|i: int|
                0 <= i < k ==> {
                    &&& spec_part_decoded(parts@[i]) == Some((#[trigger] imgs@[i]).spec_pixels())
                    &&& spec_part_format(parts@[i]) == Some(imgs@[i].spec_format())
                },
        decreases parts@.len() - k,
    {
        match extract_image(&parts[k]) {
            Ok(img) => imgs.push(img),
            Err(e) => {
                return Err(e);
            },
        }
        k = k + 1;
    }
    let ghost gimgs = imgs@;
    match storage.store(imgs) {
        Ok(ids) => {
            proof {
                assert forall|i: int|
                    0 <= i < parts@.len() implies spec_part_decoded(#[trigger] parts@[i])
                    is Some by {
                    assert(spec_part_decoded(parts@[i]) == Some(gimgs[i].spec_pixels()));
                }
                assert forall|i: int|
                    0 <= i < ids@.len() implies #[trigger] storage.records().dom().contains(
                    ids@[i].0 as int,
                ) && storage.records()[ids@[i].0 as int] == spec_record_of(
                    spec_part_format(parts@[i])->Some_0,
                    spec_part_decoded(parts@[i])->Some_0,
                ) by {
                    assert(storage.records().dom().contains(ids@[i].0 as int));
                    assert(storage.records()[ids@[i].0 as int] == spec_stored_record(gimgs[i]));
                }
            }
            Ok(ids)
        },
        Err(e) => {
            proof {
                assert forall|i: int|
                    0 <= i < parts@.len() implies spec_part_decoded(#[trigger] parts@[i])
                    is Some by {
                    assert(spec_part_decoded(parts@[i]) == Some(gimgs[i].spec_pixels()));
                }
            }
            Err(UploadError::Storage(e))
        },
    }
}

} // verus!
