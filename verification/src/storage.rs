use vstd::prelude::*;

use crate::format::{spec_format_of_code, ImageFormat};
use crate::id::ImageId;
use crate::image::{spec_decoded, spec_encoded, Image, NewImage};

verus! {

/// The model of one persisted record: the wire format code and the encoded
/// byte payload.
pub struct SpecRecord {
    pub format: int,
    pub data: Seq<u8>,
}

/// Whether the image's pixel content can be serialized under its format.
pub open spec fn spec_encodable(img: Image) -> bool {
    spec_encoded(img.spec_pixels(), img.spec_format().spec_code()) is Some
}

/// The record persisted for pixel content carrying the given format tag:
/// the format's wire code paired with the one-time encoding.
pub open spec fn spec_record_of(format: ImageFormat, pixels: Seq<u8>) -> SpecRecord {
    SpecRecord { format: format.spec_code(), data: spec_encoded(pixels, format.spec_code())->Some_0 }
}

/// The record a backend persists for an image.
pub open spec fn spec_stored_record(img: Image) -> SpecRecord {
    spec_record_of(img.spec_format(), img.spec_pixels())
}

/// Whether an image is what decoding the given record yields: the record's
/// code names the image's format and its payload decodes to the image's
/// pixel content.
pub open spec fn spec_record_decodes_to(rec: SpecRecord, img: Image) -> bool {
    &&& spec_format_of_code(rec.format) == Some(img.spec_format())
    &&& spec_decoded(rec.data, rec.format) == Some(img.spec_pixels())
}

/// Whether one of the returned ids is the integer k.
pub open spec fn spec_id_among(ids: Seq<ImageId>, k: int) -> bool {
    exists|i: int| 0 <= i < ids.len() && (#[trigger] ids[i]).0 == k
}

/// A backend failure: a failed encoding step, an exhausted pool, or a lost
/// connection.
#[derive(Debug)]
pub struct StorageError {
    pub message: String,
}

/// Why a load failed.
#[derive(Debug)]
pub enum LoadError {
    /// The id is unknown to this backend.
    NotFound,
    /// The backend failed, or the stored record could not be read back.
    Storage(StorageError),
}

impl LoadError {
    /// A descriptive account of the failure.
    pub fn message(&self) -> (r: &str)
        ensures
            self is NotFound ==> r@ == "image id not found"@,
            self matches LoadError::Storage(e) ==> r@ == e.message@,
    {
        match self {
            LoadError::NotFound => "image id not found",
            LoadError::Storage(e) => e.message.as_str(),
        }
    }
}

/// The storage capability: persist a batch of images as one atomic unit and
/// read one image back by id. The model is a map from assigned ids to the
/// records visible to later loads. The volatile in-memory backend below
/// implements it here; a durable backend may implement the executable
/// methods outside the verified core.
pub trait Storage: Sized {
    /// The records this backend holds, keyed by assigned id. A verified
    /// backend overrides this with its actual contents; a backend outside
    /// the verified core leaves the default, an unconstrained model that
    /// promises nothing to verified callers.
    open spec fn records(&self) -> Map<int, SpecRecord> {
        Map::empty()
    }

    /// Persists the batch as a single unit: one fresh, distinct id per
    /// image, in input order, or no visible change at all.
    fn store(&mut self, images: Vec<Image>) -> (r: Result<Vec<ImageId>, StorageError>)
        ensures
            match r {
                Ok(ids) => {
                    &&& ids@.len() == images@.len()
                    &&& forall|i: int, j: int|
                        0 <= i < j < ids@.len() ==> ids@[i].0 != ids@[j].0
                    &&& forall|i: int|
                        0 <= i < ids@.len() ==> !old(self).records().dom().contains(
                            ids@[i].0 as int,
                        )
                    &&& forall|i: int|
                        0 <= i < ids@.len() ==> {
                            &&& #[trigger] final(self).records().dom().contains(ids@[i].0 as int)
                            &&& final(self).records()[ids@[i].0 as int] == spec_stored_record(
                                images@[i],
                            )
                        }
                    &&& forall|i: int| 0 <= i < images@.len() ==> spec_encodable(#[trigger] images@[i])
                    &&& forall|k: int|
                        #[trigger] old(self).records().dom().contains(k) ==> final(self).records().dom().contains(k) && final(self).records()[k] == old(self).records()[k]
                    &&& forall|k: int|
                        #[trigger] final(self).records().dom().contains(k) ==> old(self).records().dom().contains(k) || spec_id_among(ids@, k)
                },
                Err(_) => final(self).records() == old(self).records(),
            },
        ;

    /// Reads one image back: NotFound exactly when the id is unknown; on
    /// success the image is decoded from the record stored under the id.
    fn load(&self, id: ImageId) -> (r: Result<Image, LoadError>)
        ensures
            match r {
                Ok(img) => self.records().dom().contains(id.0 as int) && spec_record_decodes_to(
                    self.records()[id.0 as int],
                    img,
                ),
                Err(LoadError::NotFound) => !self.records().dom().contains(id.0 as int),
                Err(LoadError::Storage(_)) => true,
            },
        ;
}

/// The volatile backend: a single in-memory table of records; ids are
/// dense, zero-based positions in it.
pub struct MemoryStorage {
    table: Vec<NewImage>,
}

impl MemoryStorage {
    /// The records in the table, in insertion order.
    pub closed spec fn seq_records(&self) -> Seq<SpecRecord> {
        Seq::new(
            self.table@.len(),
            |i: int| SpecRecord { format: self.table@[i].format as int, data: self.table@[i].data@ },
        )
    }

    /// How many records the table holds.
    pub fn len(&self) -> (n: usize)
        ensures
            n == self.seq_records().len(),
    {
        self.table.len()
    }
}

impl Default for MemoryStorage {
    /// An empty table: a from-scratch backend knows no id at all.
    fn default() -> (r: Self)
        ensures
            r.seq_records() == Seq::<SpecRecord>::empty(),
    {
        let r = MemoryStorage { table: Vec::new() };
        proof {
            assert(r.seq_records() =~= Seq::<SpecRecord>::empty());
        }
        r
    }
}

impl Storage for MemoryStorage {
    /// Position in the table is the id.
    open spec fn records(&self) -> Map<int, SpecRecord> {
        Map::new(|k: int| 0 <= k < self.seq_records().len(), |k: int| self.seq_records()[k])
    }

    /// Encodes every image first; only when all of them encode, and the
    /// fresh ids fit the id space, is the table extended — by exactly the
    /// batch's records, in input order, with ids handed out densely from
    /// the previous table length.
    fn store(&mut self, images: Vec<Image>) -> (r: Result<Vec<ImageId>, StorageError>)
        ensures
            match r {
                Ok(ids) => {
                    &&& old(self).seq_records().len() + images@.len() <= i32::MAX
                    &&& final(self).seq_records().len() == old(self).seq_records().len()
                        + images@.len()
                    &&& forall|i: int|
                        0 <= i < old(self).seq_records().len() ==> final(self).seq_records()[i]
                            == old(self).seq_records()[i]
                    &&& forall|i: int|
                        0 <= i < images@.len() ==> final(self).seq_records()[old(self).seq_records().len() + i] == spec_stored_record(#[trigger] images@[i])
                    &&& ids@.len() == images@.len()
                    &&& forall|i: int|
                        0 <= i < ids@.len() ==> (#[trigger] ids@[i]).0 == old(self).seq_records().len() + i
                },
                Err(_) => {
                    &&& final(self).seq_records() == old(self).seq_records()
                    &&& (old(self).seq_records().len() + images@.len() > i32::MAX || exists|i: int|
                        0 <= i < images@.len() && !spec_encodable(#[trigger] images@[i]))
                },
            },
    {
        let n = images.len();
        if self.table.len() > (i32::MAX as usize) || n > (i32::MAX as usize) - self.table.len() {
            return Err(StorageError { message: "image id space exhausted".to_owned() });
        }
        let mut recs: Vec<NewImage> = Vec::new();
        let mut k: usize = 0;
        while k < n
            invariant
                n == images@.len(),
                k <= n,
                recs@.len() == k as int,
                forall|i: int|
                    0 <= i < k ==> {
                        &&& (#[trigger] recs@[i]).format == images@[i].spec_format().spec_code()
                        &&& spec_encodable(images@[i])
                        &&& recs@[i].data@ == spec_encoded(
                            images@[i].spec_pixels(),
                            images@[i].spec_format().spec_code(),
                        )->Some_0
                    },
            decreases n - k,
        {
            match images[k].insertable() {
                Ok(rec) => recs.push(rec),
                Err(_) => {
                    return Err(
                        StorageError { message: "failed to encode image for storage".to_owned() },
                    );
                },
            }
            k = k + 1;
        }
        let start: usize = self.table.len();
        let ghost pre = self.seq_records();
        let ghost allrecs = recs@;
        self.table.append(&mut recs);
        proof {
            assert forall|i: int| 0 <= i < pre.len() implies self.seq_records()[i] == pre[i] by {
                assert(self.table@[i] == old(self).table@[i]);
            }
            assert forall|i: int|
                0 <= i < n implies self.seq_records()[start + i] == spec_stored_record(
                images@[i],
            ) by {
                assert(self.table@[start + i] == allrecs[i]);
            }
        }
        let mut ids: Vec<ImageId> = Vec::new();
        let mut k: usize = 0;
        while k < n
            invariant
                k <= n,
                start + n <= i32::MAX,
                ids@.len() == k as int,
                forall|i: int| 0 <= i < k ==> (#[trigger] ids@[i]).0 == start + i,
            decreases n - k,
        {
            ids.push(ImageId((start + k) as i32));
            k = k + 1;
        }
        proof {
            assert(self.seq_records().len() == start + n);
            assert forall|k: int|
                #[trigger] self.records().dom().contains(k) implies old(
                self,
            ).records().dom().contains(k) || spec_id_among(ids@, k) by {
                if start <= k {
                    assert(0 <= k - start < ids@.len());
                    assert((ids@[k - start]).0 == k);
                }
            }
        }
        Ok(ids)
    }

    /// Looks the id up as a position in the table; NotFound exactly when it
    /// lies outside, a storage-level failure when the record's payload no
    /// longer decodes.
    fn load(&self, id: ImageId) -> (r: Result<Image, LoadError>)
        ensures
            match r {
                Ok(img) => 0 <= id.0 < self.seq_records().len() && spec_record_decodes_to(
                    self.seq_records()[id.0 as int],
                    img,
                ),
                Err(LoadError::NotFound) => !(0 <= id.0 < self.seq_records().len()),
                Err(LoadError::Storage(_)) => 0 <= id.0 < self.seq_records().len() && !(exists|
                    img: Image,
                |
                    spec_record_decodes_to(self.seq_records()[id.0 as int], img)),
            },
    {
        if id.0 < 0 {
            return Err(LoadError::NotFound);
        }
        let idx = id.0 as usize;
        if idx >= self.table.len() {
            return Err(LoadError::NotFound);
        }
        let rec = &self.table[idx];
        match crate::image::decode_record(rec.format, rec.data.as_slice()) {
            Ok(img) => Ok(img),
            Err(e) => Err(LoadError::Storage(StorageError { message: e.message })),
        }
    }
}

/// An id the volatile backend never handed out — negative, or at or past
/// the table's end — is unknown to it: the lookup map has no such key, so
/// a load of that id answers NotFound and nothing else.
pub proof fn lemma_unknown_id_not_found(s: MemoryStorage, id: int)
    requires
        id < 0 || id >= s.seq_records().len(),
    ensures
        !s.records().dom().contains(id),
{
}

} // verus!
