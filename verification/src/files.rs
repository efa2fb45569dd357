//! The file store: records and blobs, ingestion and retrieval.
//!
//! `FileStore` keeps its records and blobs in memory. It states what a
//! store owes its callers: which lookups answer what, and what an upload
//! and a retrieval do to it. A deployment that keeps them in a database
//! and a directory takes an ingestion through the same stages.

use vstd::prelude::*;
use vstd::slice::{slice_subrange, slice_to_vec};
use crate::classify::{peeked, sniffed_image, sniffed_type, verdict, MediaKind, PEEK_BYTES};
use crate::ingest::{Action, Event, Ingest};
use crate::error::{Failure, FailureView};
use crate::classify::{Classified, ClassifiedView};
use crate::gate::{blake3_hex, consumed_of, gate_outcome, Consumed, ConsumedView};
use crate::key::{unix_now, ValidatedIdentity};

verus! {

/// The metadata of a stored file. `upload_date` is in seconds since the
/// Unix epoch; `file_type` is the number of the file's media kind.
#[derive(Debug)]
pub struct File {
    pub id: String,
    pub file_name: String,
    pub file_hash: String,
    pub file_type: i16,
    pub file_size: u64,
    pub uploader: String,
    pub upload_date: i64,
}

/// The mathematical value of a `File`.
pub struct FileView {
    pub id: Seq<char>,
    pub file_name: Seq<char>,
    pub file_hash: Seq<char>,
    pub file_type: i16,
    pub file_size: u64,
    pub uploader: Seq<char>,
    pub upload_date: i64,
}

impl View for File {
    type V = FileView;

    open spec fn view(&self) -> FileView {
        FileView {
            id: self.id@,
            file_name: self.file_name@,
            file_hash: self.file_hash@,
            file_type: self.file_type,
            file_size: self.file_size,
            uploader: self.uploader@,
            upload_date: self.upload_date,
        }
    }
}

/// What a successful upload answers: the new file's id and the extension
/// of its detected format.
#[derive(Debug)]
pub struct FileUpload {
    pub id: String,
    pub ext: String,
}

/// The mathematical value of a `FileUpload`.
pub struct FileUploadView {
    pub id: Seq<char>,
    pub ext: Seq<char>,
}

impl View for FileUpload {
    type V = FileUploadView;

    open spec fn view(&self) -> FileUploadView {
        FileUploadView { id: self.id@, ext: self.ext@ }
    }
}

/// The stored bytes of one file, under the file's name.
#[derive(Debug)]
pub struct Blob {
    pub name: String,
    pub bytes: Vec<u8>,
}

/// The mathematical value of a `Blob`.
pub struct BlobView {
    pub name: Seq<char>,
    pub bytes: Seq<u8>,
}

impl View for Blob {
    type V = BlobView;

    open spec fn view(&self) -> BlobView {
        BlobView { name: self.name@, bytes: self.bytes@ }
    }
}

/// The mathematical value of a `FileStore`: its ceiling, its records in
/// the order of their insertion, and its blobs in the order of their
/// writing.
pub struct StoreView {
    pub limit: usize,
    pub records: Seq<FileView>,
    pub blobs: Seq<BlobView>,
}

/// The record with the given id: the latest one inserted, if any.
pub open spec fn find_by_id(records: Seq<FileView>, id: Seq<char>) -> Option<FileView>
    decreases records.len(),
{
    if records.len() == 0 {
        None
    } else if records.last().id == id {
        Some(records.last())
    } else {
        find_by_id(records.drop_last(), id)
    }
}

/// The record with the given content hash: the latest one inserted, if any.
pub open spec fn find_by_hash(records: Seq<FileView>, hash: Seq<char>) -> Option<FileView>
    decreases records.len(),
{
    if records.len() == 0 {
        None
    } else if records.last().file_hash == hash {
        Some(records.last())
    } else {
        find_by_hash(records.drop_last(), hash)
    }
}

/// The bytes stored under the given name: those written last, if any.
pub open spec fn find_blob(blobs: Seq<BlobView>, name: Seq<char>) -> Option<Seq<u8>>
    decreases blobs.len(),
{
    if blobs.len() == 0 {
        None
    } else if blobs.last().name == name {
        Some(blobs.last().bytes)
    } else {
        find_blob(blobs.drop_last(), name)
    }
}

/// The blobs that remain when every blob of one name is taken away.
pub open spec fn blobs_without(blobs: Seq<BlobView>, name: Seq<char>) -> Seq<BlobView>
    decreases blobs.len(),
{
    if blobs.len() == 0 {
        Seq::<BlobView>::empty()
    } else if blobs.last().name == name {
        blobs_without(blobs.drop_last(), name)
    } else {
        blobs_without(blobs.drop_last(), name).push(blobs.last())
    }
}

/// How many records hold the given content hash.
pub open spec fn count_with_hash(records: Seq<FileView>, hash: Seq<char>) -> nat
    decreases records.len(),
{
    if records.len() == 0 {
        0
    } else if records.last().file_hash == hash {
        count_with_hash(records.drop_last(), hash) + 1
    } else {
        count_with_hash(records.drop_last(), hash)
    }
}

/// Whether the upload policy admits a payload: an image signature matches
/// its first bytes, and the format detected there is of an allowed kind.
pub open spec fn is_admitted(data: Seq<u8>) -> bool {
    let head = peeked(data, PEEK_BYTES as int);
    sniffed_image(head) && match sniffed_type(head) {
        Some(d) => MediaKind::of_class(d.class).allowed(),
        None => false,
    }
}

/// The name a file is stored under: its id, a dot, and its extension.
pub open spec fn storage_name_of(id: Seq<char>, ext: Seq<char>) -> Seq<char> {
    id + "."@ + ext
}

impl StoreView {
    /// No two records share an id, and no two share a content hash.
    pub open spec fn well_formed(self) -> bool {
        &&& forall|i: int, j: int|
            0 <= i < j < self.records.len() ==> self.records[i].id != self.records[j].id
        &&& forall|i: int, j: int|
            0 <= i < j < self.records.len() ==> self.records[i].file_hash
                != self.records[j].file_hash
    }

    /// This store with one more record.
    pub open spec fn with_record(self, record: FileView) -> StoreView {
        StoreView { records: self.records.push(record), ..self }
    }

    /// This store after every blob of one name was taken away.
    pub open spec fn without_blob(self, name: Seq<char>) -> StoreView {
        StoreView { blobs: blobs_without(self.blobs, name), ..self }
    }

    /// This store with one more blob.
    pub open spec fn with_blob(self, name: Seq<char>, bytes: Seq<u8>) -> StoreView {
        StoreView { blobs: self.blobs.push(BlobView { name, bytes }), ..self }
    }
}

/// What inserting a record does: refused with the id of the record that
/// holds the same content hash where there is one, refused as an internal
/// error where the id is taken, and appended otherwise.
pub open spec fn insertion(pre: StoreView, record: FileView) -> (StoreView, Result<
    Seq<char>,
    FailureView,
>) {
    match find_by_hash(pre.records, record.file_hash) {
        Some(existing) => (pre, Err(FailureView::AlreadyExists(existing.id))),
        None => match find_by_id(pre.records, record.id) {
            Some(_) => (pre, Err(FailureView::InternalError("identifier is already in use"@))),
            None => (pre.with_record(record), Ok(record.id)),
        },
    }
}

/// The record written for what the classifier and the intake handed on.
pub open spec fn record_for(
    file_id: Seq<char>,
    now: i64,
    owner: Seq<char>,
    class: ClassifiedView,
    consumed: ConsumedView,
) -> FileView {
    FileView {
        id: file_id,
        file_name: storage_name_of(file_id, class.extension),
        file_hash: consumed.digest,
        file_type: class.kind.code_spec(),
        file_size: consumed.length as u64,
        uploader: owner,
        upload_date: now,
    }
}

/// What an upload does to the store and what it answers, for the id and
/// the time that the upload drew.
///
/// The payload is classified by its first bytes, then held against the
/// ceiling, then looked up by its digest; each refusal leaves the store as
/// it was. Only then the blob is written and the record inserted.
pub open spec fn ingestion(
    pre: StoreView,
    owner: Seq<char>,
    data: Seq<u8>,
    file_id: Seq<char>,
    now: i64,
) -> (StoreView, Result<FileUploadView, FailureView>) {
    let head = peeked(data, PEEK_BYTES as int);
    match verdict(sniffed_image(head), sniffed_type(head)) {
        Err(e) => (pre, Err(e)),
        Ok(class) => match gate_outcome(data, pre.limit as int) {
            Err(e) => (pre, Err(e)),
            Ok(consumed) => match find_by_hash(pre.records, consumed.digest) {
                Some(existing) => (pre, Err(FailureView::AlreadyExists(existing.id))),
                None => {
                    let record = record_for(file_id, now, owner, class, consumed);
                    let written = pre.with_blob(record.file_name, data);
                    let (post, inserted) = insertion(written, record);
                    match inserted {
                        Ok(id) => (post, Ok(FileUploadView { id, ext: class.extension })),
                        Err(e) => (post, Err(e)),
                    }
                },
            },
        },
    }
}

/// What a retrieval answers: `NotFound` where no record has the id, an
/// internal error where the record's blob is gone, and the blob's bytes
/// otherwise.
pub open spec fn retrieval(store: StoreView, id: Seq<char>) -> Result<Seq<u8>, FailureView> {
    match find_by_id(store.records, id) {
        None => Err(FailureView::NotFound),
        Some(record) => match find_blob(store.blobs, record.file_name) {
            Some(bytes) => Ok(bytes),
            None => Err(FailureView::InternalError("stored file is missing"@)),
        },
    }
}

/// The value of an optional id.
pub open spec fn id_view(id: Option<String>) -> Option<Seq<char>> {
    match id {
        Some(id) => Some(id@),
        None => None,
    }
}

/// The value of an optional payload.
pub open spec fn bytes_view(bytes: Option<Vec<u8>>) -> Option<Seq<u8>> {
    match bytes {
        Some(bytes) => Some(bytes@),
        None => None,
    }
}

/// The value of an insertion's answer.
pub open spec fn created_view(r: Result<String, Failure>) -> Result<Seq<char>, FailureView> {
    match r {
        Ok(id) => Ok(id@),
        Err(e) => Err(e@),
    }
}

/// The value of a record lookup's answer.
pub open spec fn record_view(r: Result<File, Failure>) -> Result<FileView, FailureView> {
    match r {
        Ok(file) => Ok(file@),
        Err(e) => Err(e@),
    }
}

/// The value of an upload's answer.
pub open spec fn upload_view(r: Result<FileUpload, Failure>) -> Result<
    FileUploadView,
    FailureView,
> {
    match r {
        Ok(u) => Ok(u@),
        Err(e) => Err(e@),
    }
}

/// The value of a retrieval's answer.
pub open spec fn retrieved_view(r: Result<Vec<u8>, Failure>) -> Result<Seq<u8>, FailureView> {
    match r {
        Ok(bytes) => Ok(bytes@),
        Err(e) => Err(e@),
    }
}

/// The id that a lookup by hash answers.
pub open spec fn id_of(found: Option<FileView>) -> Option<Seq<char>> {
    match found {
        Some(record) => Some(record.id),
        None => None,
    }
}

/// `uuid::Uuid::new_v4`, printed in the crate's simple format: a random
/// identifier as 32 hexadecimal digits without hyphens. Only its length is
/// claimed.
#[verifier::external_body]
pub(crate) fn fresh_file_id() -> (id: String)
    ensures
        id@.len() == 32,
{
    uuid::Uuid::new_v4().simple().to_string()
}

/// The name a file is stored under: its id, a dot, and its extension.
pub fn storage_name(id: &str, ext: &str) -> (name: String)
    ensures
        name@ == storage_name_of(id@, ext@),
{
    String::from_str(id).concat(".").concat(ext)
}

/// Where a file's blob lies: the upload root followed by the file's name.
pub fn blob_path(root: &str, file_name: &str) -> (path: String)
    ensures
        path@ == root@ + file_name@,
{
    String::from_str(root).concat(file_name)
}

impl File {
    /// The record of an admitted payload.
    pub fn new(
        id: String,
        file_name: String,
        file_hash: String,
        file_type: i16,
        file_size: u64,
        uploader: String,
        upload_date: i64,
    ) -> (file: File)
        ensures
            file@ == (FileView {
                id: id@,
                file_name: file_name@,
                file_hash: file_hash@,
                file_type,
                file_size,
                uploader: uploader@,
                upload_date,
            }),
    {
        File { id, file_name, file_hash, file_type, file_size, uploader, upload_date }
    }

    /// The record of an admitted payload under a given id and time: named
    /// by the id and the detected extension, with the intake's digest and
    /// length, the kind's number, and the uploader's key.
    pub fn for_upload(
        file_id: String,
        now: i64,
        api_key: &ValidatedIdentity,
        class: &Classified,
        consumed: &Consumed,
    ) -> (file: File)
        ensures
            file@ == record_for(file_id@, now, api_key@, class@, consumed@),
    {
        let file_name = storage_name(file_id.as_str(), class.extension.as_str());
        File::new(
            file_id,
            file_name,
            consumed.digest.clone(),
            class.kind.code(),
            consumed.length as u64,
            api_key.0.clone(),
            now,
        )
    }

    /// A copy of this record.
    pub fn duplicate(&self) -> (copy: File)
        ensures
            copy@ == self@,
    {
        File {
            id: self.id.clone(),
            file_name: self.file_name.clone(),
            file_hash: self.file_hash.clone(),
            file_type: self.file_type,
            file_size: self.file_size,
            uploader: self.uploader.clone(),
            upload_date: self.upload_date,
        }
    }

    /// Inserts this record into the store and answers its id.
    ///
    /// The store refuses a record whose content hash it holds already,
    /// naming the id that the hash has, and one whose id is taken.
    pub fn create(&self, store: &mut FileStore) -> (r: Result<String, Failure>)
        ensures
            final(store)@ == insertion(old(store)@, self@).0,
            created_view(r) == insertion(old(store)@, self@).1,
            old(store)@.well_formed() ==> final(store)@.well_formed(),
    {
        proof {
            if store@.well_formed() {
                law_insertion_keeps_uniqueness(store@, self@);
            }
        }
        match store.position_by_hash(self.file_hash.as_str()) {
            Some(i) => { return Err(Failure::AlreadyExists(store.records[i].id.clone())); },
            None => {},
        }
        match store.position_by_id(self.id.as_str()) {
            Some(_) => {
                return Err(Failure::InternalError(String::from_str("identifier is already in use")));
            },
            None => {},
        }
        let ghost before = store@;
        store.records.push(self.duplicate());
        assert(store@.records =~= before.records.push(self@));
        assert(store@.blobs =~= before.blobs);
        Ok(self.id.clone())
    }

    /// The record with the given id, or `NotFound`.
    pub fn get_by_id(id: &str, store: &FileStore) -> (r: Result<File, Failure>)
        ensures
            record_view(r) == match find_by_id(store@.records, id@) {
                Some(record) => Ok::<FileView, FailureView>(record),
                None => Err::<FileView, FailureView>(FailureView::NotFound),
            },
    {
        match store.position_by_id(id) {
            Some(i) => Ok(store.records[i].duplicate()),
            None => Err(Failure::NotFound),
        }
    }

    /// The id of the record with the given content hash, if there is one.
    pub fn get_id_by_hash(hash: &str, store: &FileStore) -> (r: Option<String>)
        ensures
            id_view(r) == id_of(find_by_hash(store@.records, hash@)),
    {
        match store.position_by_hash(hash) {
            Some(i) => Some(store.records[i].id.clone()),
            None => None,
        }
    }
}

/// Records and blobs, held in memory, with the ceiling on a payload's
/// length.
pub struct FileStore {
    limit: usize,
    records: Vec<File>,
    blobs: Vec<Blob>,
}

impl View for FileStore {
    type V = StoreView;

    closed spec fn view(&self) -> StoreView {
        StoreView {
            limit: self.limit,
            records: self.records@.map_values(|f: File| f@),
            blobs: self.blobs@.map_values(|b: Blob| b@),
        }
    }
}

impl FileStore {
    /// An empty store that admits payloads of up to `limit_bytes` bytes.
    pub fn new(limit_bytes: usize) -> (store: FileStore)
        ensures
            store@ == (StoreView {
                limit: limit_bytes,
                records: Seq::<FileView>::empty(),
                blobs: Seq::<BlobView>::empty(),
            }),
            store@.well_formed(),
    {
        let store = FileStore { limit: limit_bytes, records: Vec::new(), blobs: Vec::new() };
        assert(store@.records =~= Seq::<FileView>::empty());
        assert(store@.blobs =~= Seq::<BlobView>::empty());
        store
    }

    /// The ceiling on a payload's length.
    pub fn limit(&self) -> (limit: usize)
        ensures
            limit == self@.limit,
    {
        self.limit
    }

    /// How many records the store holds.
    pub fn record_count(&self) -> (n: usize)
        ensures
            n == self@.records.len(),
    {
        self.records.len()
    }

    /// How many blobs were written and are still there.
    pub fn blob_count(&self) -> (n: usize)
        ensures
            n == self@.blobs.len(),
    {
        self.blobs.len()
    }

    /// Where the record with the given id stands, if there is one.
    fn position_by_id(&self, id: &str) -> (r: Option<usize>)
        ensures
            match r {
                Some(i) => i < self.records.len() && find_by_id(self@.records, id@) == Some(
                    self.records[i as int]@,
                ),
                None => find_by_id(self@.records, id@) is None,
            },
    {
        let wanted = String::from_str(id);
        let mut i: usize = self.records.len();
        assert(self@.records.take(i as int) =~= self@.records);
        while i > 0
            invariant
                i <= self.records.len(),
                wanted@ == id@,
                find_by_id(self@.records, id@) == find_by_id(self@.records.take(i as int), id@),
            decreases i,
        {
            i = i - 1;
            assert(self@.records.take(i + 1).drop_last() =~= self@.records.take(i as int));
            assert(self@.records.take(i + 1).last() == self.records[i as int]@);
            if self.records[i].id == wanted {
                return Some(i);
            }
        }
        None
    }

    /// Where the record with the given content hash stands, if there is
    /// one.
    fn position_by_hash(&self, hash: &str) -> (r: Option<usize>)
        ensures
            match r {
                Some(i) => i < self.records.len() && find_by_hash(self@.records, hash@) == Some(
                    self.records[i as int]@,
                ),
                None => find_by_hash(self@.records, hash@) is None,
            },
    {
        let wanted = String::from_str(hash);
        let mut i: usize = self.records.len();
        assert(self@.records.take(i as int) =~= self@.records);
        while i > 0
            invariant
                i <= self.records.len(),
                wanted@ == hash@,
                find_by_hash(self@.records, hash@) == find_by_hash(
                    self@.records.take(i as int),
                    hash@,
                ),
            decreases i,
        {
            i = i - 1;
            assert(self@.records.take(i + 1).drop_last() =~= self@.records.take(i as int));
            assert(self@.records.take(i + 1).last() == self.records[i as int]@);
            if self.records[i].file_hash == wanted {
                return Some(i);
            }
        }
        None
    }

    /// Writes a blob under a name; a later read of the name gives these
    /// bytes.
    pub fn write_blob(&mut self, name: &str, bytes: Vec<u8>)
        ensures
            final(self)@ == old(self)@.with_blob(name@, bytes@),
    {
        let ghost before = self@;
        self.blobs.push(Blob { name: String::from_str(name), bytes });
        assert(self@.blobs =~= before.blobs.push(BlobView { name: name@, bytes: bytes@ }));
        assert(self@.records =~= before.records);
    }

    /// Takes away every blob of one name, as a deletion behind the
    /// store's back would; the records stay as they are.
    pub fn remove_blob(&mut self, name: &str)
        ensures
            final(self)@ == old(self)@.without_blob(name@),
    {
        let wanted = String::from_str(name);
        let ghost before = self@;
        let mut kept: Vec<Blob> = Vec::new();
        let mut i: usize = 0;
        assert(before.blobs.take(0) =~= Seq::<BlobView>::empty());
        while i < self.blobs.len()
            invariant
                i <= self.blobs.len(),
                wanted@ == name@,
                self@ == before,
                kept@.map_values(|b: Blob| b@) == blobs_without(before.blobs.take(i as int), name@),
            decreases self.blobs.len() - i,
        {
            assert(before.blobs.take(i + 1).drop_last() =~= before.blobs.take(i as int));
            assert(before.blobs.take(i + 1).last() == self.blobs[i as int]@);
            if !(self.blobs[i].name == wanted) {
                let ghost so_far = kept@.map_values(|b: Blob| b@);
                let bytes = self.blobs[i].bytes.clone();
                assert(bytes@ =~= self.blobs[i as int].bytes@);
                kept.push(Blob { name: self.blobs[i].name.clone(), bytes });
                assert(kept@.map_values(|b: Blob| b@) =~= so_far.push(self.blobs[i as int]@));
            }
            i = i + 1;
        }
        assert(before.blobs.take(i as int) =~= before.blobs);
        self.blobs = kept;
        assert(self@.records =~= before.records);
    }

    /// The bytes stored under a name, if any.
    pub fn read_blob(&self, name: &str) -> (r: Option<Vec<u8>>)
        ensures
            bytes_view(r) == find_blob(self@.blobs, name@),
    {
        let wanted = String::from_str(name);
        let mut i: usize = self.blobs.len();
        assert(self@.blobs.take(i as int) =~= self@.blobs);
        while i > 0
            invariant
                i <= self.blobs.len(),
                wanted@ == name@,
                find_blob(self@.blobs, name@) == find_blob(self@.blobs.take(i as int), name@),
            decreases i,
        {
            i = i - 1;
            assert(self@.blobs.take(i + 1).drop_last() =~= self@.blobs.take(i as int));
            assert(self@.blobs.take(i + 1).last() == self.blobs[i as int]@);
            if self.blobs[i].name == wanted {
                let bytes = self.blobs[i].bytes.clone();
                assert(bytes@ =~= self.blobs[i as int].bytes@);
                return Some(bytes);
            }
        }
        None
    }
}

/// Retrieves a file's bytes by its id.
///
/// `NotFound` where no record has the id; an internal error, and not
/// `NotFound`, where the record is there and its blob is not.
pub fn get_file(id: &str, store: &FileStore) -> (r: Result<Vec<u8>, Failure>)
    ensures
        retrieved_view(r) == retrieval(store@, id@),
{
    let file = match File::get_by_id(id, store) {
        Ok(file) => file,
        Err(e) => { return Err(e); },
    };
    match store.read_blob(file.file_name.as_str()) {
        Some(bytes) => Ok(bytes),
        None => Err(Failure::InternalError(String::from_str("stored file is missing"))),
    }
}

/// Ingests a payload under a given id and time.
///
/// The ingestion is taken through its stages against this store: the
/// payload's first bytes are classified before anything else; the whole
/// payload is then read under the store's ceiling; its digest is looked
/// up; and only new content is written and recorded. The store changes on
/// no refusal before the blob is written.
pub fn upload_with(
    store: &mut FileStore,
    api_key: &ValidatedIdentity,
    data: &[u8],
    file_id: String,
    now: i64,
) -> (r: Result<FileUpload, Failure>)
    ensures
        final(store)@ == ingestion(old(store)@, api_key@, data@, file_id@, now).0,
        upload_view(r) == ingestion(old(store)@, api_key@, data@, file_id@, now).1,
        old(store)@.well_formed() ==> final(store)@.well_formed(),
{
    proof {
        law_ingestion_keeps_uniqueness(store@, api_key@, data@, file_id@, now);
    }
    let (ingest, _) = Ingest::begin_with(api_key, store.limit(), file_id, now);
    let shown: usize = if PEEK_BYTES < data.len() {
        PEEK_BYTES
    } else {
        data.len()
    };
    let head = slice_to_vec(slice_subrange(data, 0, shown));
    assert(head@ =~= peeked(data@, PEEK_BYTES as int));
    assert(peeked(head@, PEEK_BYTES as int) =~= head@);
    let (ingest, action) = ingest.step(Event::Peeked(head));
    match action {
        Action::Read => {},
        Action::Reply(answer) => { return answer; },
        _ => { return Err(out_of_turn()); },
    }
    let whole = slice_to_vec(data);
    assert(Seq::<u8>::empty() + whole@ =~= data@);
    let (ingest, action) = ingest.step(Event::Chunk(whole));
    match action {
        Action::Read => {},
        Action::Reply(answer) => { return answer; },
        _ => { return Err(out_of_turn()); },
    }
    let (ingest, action) = ingest.step(Event::EndOfStream);
    let digest = match action {
        Action::Lookup(digest) => digest,
        Action::Reply(answer) => { return answer; },
        _ => { return Err(out_of_turn()); },
    };
    let existing = File::get_id_by_hash(digest.as_str(), store);
    let (ingest, action) = ingest.step(Event::Looked(existing));
    let (name, bytes) = match action {
        Action::WriteBlob(name, bytes) => (name, bytes),
        Action::Reply(answer) => { return answer; },
        _ => { return Err(out_of_turn()); },
    };
    store.write_blob(name.as_str(), bytes);
    let (ingest, action) = ingest.step(Event::BlobWritten);
    let record = match action {
        Action::Insert(record) => record,
        Action::Reply(answer) => { return answer; },
        _ => { return Err(out_of_turn()); },
    };
    let event = match record.create(store) {
        Ok(id) => Event::Inserted(id),
        Err(e) => Event::Failed(e),
    };
    let (_, action) = ingest.step(event);
    match action {
        Action::Reply(answer) => answer,
        _ => Err(out_of_turn()),
    }
}

/// The failure for a step that asks for something out of turn.
fn out_of_turn() -> (e: Failure)
    ensures
        e@ == FailureView::InternalError("unexpected action"@),
{
    Failure::InternalError(String::from_str("unexpected action"))
}

/// Ingests a payload under a fresh random id, at the time of the call.
///
/// Whatever id and time were drawn, the store and the answer are those
/// that `ingestion` gives for them; the id has 32 characters.
pub fn upload(store: &mut FileStore, api_key: &ValidatedIdentity, data: &[u8]) -> (r: Result<
    FileUpload,
    Failure,
>)
    ensures
        exists|file_id: Seq<char>, now: i64|
            file_id.len() == 32 && (final(store)@, upload_view(r)) == #[trigger] ingestion(
                old(store)@,
                api_key@,
                data@,
                file_id,
                now,
            ),
        old(store)@.well_formed() ==> final(store)@.well_formed(),
{
    let file_id = fresh_file_id();
    let now = unix_now();
    upload_with(store, api_key, data, file_id, now)
}

/// Where no record has an id, none of the records has it.
pub proof fn lemma_absent_id(records: Seq<FileView>, id: Seq<char>)
    requires
        find_by_id(records, id) is None,
    ensures
        forall|i: int| 0 <= i < records.len() ==> (#[trigger] records[i]).id != id,
    decreases records.len(),
{
    if records.len() > 0 {
        lemma_absent_id(records.drop_last(), id);
        assert forall|i: int| 0 <= i < records.len() implies (#[trigger] records[i]).id != id by {
            if i < records.len() - 1 {
                assert(records.drop_last()[i] == records[i]);
            }
        }
    }
}

/// Where no record has a content hash, none of the records has it.
pub proof fn lemma_absent_hash(records: Seq<FileView>, hash: Seq<char>)
    requires
        find_by_hash(records, hash) is None,
    ensures
        forall|i: int| 0 <= i < records.len() ==> (#[trigger] records[i]).file_hash != hash,
    decreases records.len(),
{
    if records.len() > 0 {
        lemma_absent_hash(records.drop_last(), hash);
        assert forall|i: int| 0 <= i < records.len() implies (#[trigger] records[i]).file_hash
            != hash by {
            if i < records.len() - 1 {
                assert(records.drop_last()[i] == records[i]);
            }
        }
    }
}

/// Inserting a record keeps ids and content hashes unique.
pub proof fn law_insertion_keeps_uniqueness(pre: StoreView, record: FileView)
    requires
        pre.well_formed(),
    ensures
        insertion(pre, record).0.well_formed(),
{
    if find_by_hash(pre.records, record.file_hash) is None && find_by_id(pre.records, record.id)
        is None {
        lemma_absent_hash(pre.records, record.file_hash);
        lemma_absent_id(pre.records, record.id);
    }
}

/// An upload keeps ids and content hashes unique, whatever it answers.
pub proof fn law_ingestion_keeps_uniqueness(
    pre: StoreView,
    owner: Seq<char>,
    data: Seq<u8>,
    file_id: Seq<char>,
    now: i64,
)
    ensures
        pre.well_formed() ==> ingestion(pre, owner, data, file_id, now).0.well_formed(),
{
    if pre.well_formed() {
        let head = peeked(data, PEEK_BYTES as int);
        match verdict(sniffed_image(head), sniffed_type(head)) {
            Err(_) => {},
            Ok(class) => {
                let record = record_for(file_id, now, owner, class, consumed_of(data));
                let written = pre.with_blob(record.file_name, data);
                law_insertion_keeps_uniqueness(written, record);
            },
        }
    }
}

/// Where no record has a content hash, the count of its holders is zero.
pub proof fn lemma_absent_hash_counts_zero(records: Seq<FileView>, hash: Seq<char>)
    requires
        find_by_hash(records, hash) is None,
    ensures
        count_with_hash(records, hash) == 0,
    decreases records.len(),
{
    if records.len() > 0 {
        lemma_absent_hash_counts_zero(records.drop_last(), hash);
    }
}

/// After every blob of a name was taken away, nothing is stored under
/// that name, and every other name holds what it held.
pub proof fn lemma_blobs_without(blobs: Seq<BlobView>, name: Seq<char>, other: Seq<char>)
    ensures
        find_blob(blobs_without(blobs, name), name) is None,
        other != name ==> find_blob(blobs_without(blobs, name), other) == find_blob(blobs, other),
    decreases blobs.len(),
{
    if blobs.len() > 0 {
        lemma_blobs_without(blobs.drop_last(), name, other);
        if blobs.last().name != name {
            let rest = blobs_without(blobs.drop_last(), name);
            assert(rest.push(blobs.last()).drop_last() =~= rest);
        }
    }
}

/// The classifier admits exactly the payloads that the policy admits.
pub proof fn law_verdict_follows_policy(data: Seq<u8>)
    ensures
        is_admitted(data) <==> verdict(
            sniffed_image(peeked(data, PEEK_BYTES as int)),
            sniffed_type(peeked(data, PEEK_BYTES as int)),
        ) is Ok,
{
}

/// An admitted payload within the ceiling whose content the store does
/// not hold, uploaded under an id that no record has, is accepted under
/// that id with the extension of its format, and retrieving the id from
/// the store as the upload left it gives the payload back byte for byte.
pub proof fn law_upload_then_retrieve(
    pre: StoreView,
    owner: Seq<char>,
    data: Seq<u8>,
    file_id: Seq<char>,
    now: i64,
)
    requires
        is_admitted(data),
        data.len() <= pre.limit,
        find_by_hash(pre.records, blake3_hex(data)) is None,
        find_by_id(pre.records, file_id) is None,
    ensures
        ingestion(pre, owner, data, file_id, now).1 matches Ok(answer) && answer.id == file_id
            && Some(answer.ext) == match sniffed_type(peeked(data, PEEK_BYTES as int)) {
            Some(d) => Some(d.extension),
            None => None,
        },
        retrieval(ingestion(pre, owner, data, file_id, now).0, file_id) == Ok::<
            Seq<u8>,
            FailureView,
        >(data),
{
    let head = peeked(data, PEEK_BYTES as int);
    let class = verdict(sniffed_image(head), sniffed_type(head))->Ok_0;
    let record = record_for(file_id, now, owner, class, consumed_of(data));
    let written = pre.with_blob(record.file_name, data);
    let post = written.with_record(record);
    assert(written.records == pre.records);
    assert(ingestion(pre, owner, data, file_id, now).0 == post);
    assert(post.records.last() == record);
    assert(post.blobs.last() == (BlobView { name: record.file_name, bytes: data }));
}

/// After an accepted upload the record under the new id describes the
/// blob under the record's file name: the blob is the payload, the
/// recorded size is the payload's length, the recorded hash is the digest
/// of exactly those bytes, and the uploader and the time are the ones the
/// upload came with.
pub proof fn law_record_describes_blob(
    pre: StoreView,
    owner: Seq<char>,
    data: Seq<u8>,
    file_id: Seq<char>,
    now: i64,
)
    requires
        ingestion(pre, owner, data, file_id, now).1 is Ok,
    ensures
        ({
            let post = ingestion(pre, owner, data, file_id, now).0;
            &&& find_by_id(post.records, file_id) matches Some(record)
            &&& find_blob(post.blobs, record.file_name) == Some(data)
            &&& record.file_size == data.len()
            &&& record.file_hash == blake3_hex(data)
            &&& record.uploader == owner
            &&& record.upload_date == now
            &&& post.records == pre.records.push(record)
        }),
{
    let head = peeked(data, PEEK_BYTES as int);
    let class = verdict(sniffed_image(head), sniffed_type(head))->Ok_0;
    let record = record_for(file_id, now, owner, class, consumed_of(data));
    let written = pre.with_blob(record.file_name, data);
    let post = written.with_record(record);
    assert(written.records == pre.records);
    assert(ingestion(pre, owner, data, file_id, now).0 == post);
    assert(post.records.last() == record);
    assert(post.blobs.last() == (BlobView { name: record.file_name, bytes: data }));
}

/// An upload does not disturb what another id retrieves: whatever the
/// upload answers, an id other than the upload's own, whose record is
/// stored under another file name than the upload's, retrieves after it
/// what it retrieved before.
pub proof fn law_upload_keeps_other_files(
    pre: StoreView,
    owner: Seq<char>,
    data: Seq<u8>,
    file_id: Seq<char>,
    now: i64,
    other: Seq<char>,
)
    requires
        other != file_id,
        find_by_id(pre.records, other) matches Some(record) ==> forall|ext: Seq<char>|
            record.file_name != #[trigger] storage_name_of(file_id, ext),
    ensures
        retrieval(ingestion(pre, owner, data, file_id, now).0, other) == retrieval(pre, other),
{
    let post = ingestion(pre, owner, data, file_id, now).0;
    if post != pre {
        let head = peeked(data, PEEK_BYTES as int);
        let class = verdict(sniffed_image(head), sniffed_type(head))->Ok_0;
        let record = record_for(file_id, now, owner, class, consumed_of(data));
        let written = pre.with_blob(record.file_name, data);
        assert(written.records == pre.records);
        assert(written.blobs.drop_last() =~= pre.blobs);
        assert(record.file_name == storage_name_of(file_id, class.extension));
        if post != written {
            assert(post == written.with_record(record));
            assert(post.records.drop_last() =~= pre.records);
        }
    }
}

/// Once a payload was accepted, a second upload of the same bytes, by
/// whomever, under whatever id and at whatever time, is refused as
/// `AlreadyExists` with the id of the first; it leaves the store as the
/// first upload left it, and exactly one record there holds the content's
/// hash.
pub proof fn law_second_upload_is_refused(
    pre: StoreView,
    owner: Seq<char>,
    file_id: Seq<char>,
    now: i64,
    data: Seq<u8>,
    second_owner: Seq<char>,
    second_id: Seq<char>,
    second_now: i64,
)
    requires
        ingestion(pre, owner, data, file_id, now).1 is Ok,
    ensures
        ({
            let first = ingestion(pre, owner, data, file_id, now);
            let second = ingestion(first.0, second_owner, data, second_id, second_now);
            &&& first.1 matches Ok(answer) && answer.id == file_id
            &&& second.1 == Err::<FileUploadView, FailureView>(
                FailureView::AlreadyExists(file_id),
            )
            &&& second.0 == first.0
            &&& count_with_hash(first.0.records, blake3_hex(data)) == 1
        }),
{
    let head = peeked(data, PEEK_BYTES as int);
    let class = verdict(sniffed_image(head), sniffed_type(head))->Ok_0;
    let record = record_for(file_id, now, owner, class, consumed_of(data));
    let written = pre.with_blob(record.file_name, data);
    let post = written.with_record(record);
    assert(written.records == pre.records);
    assert(ingestion(pre, owner, data, file_id, now).0 == post);
    assert(post.records.last() == record);
    assert(post.records.drop_last() =~= pre.records);
    lemma_absent_hash_counts_zero(pre.records, blake3_hex(data));
}

/// A payload that the policy does not admit is refused as
/// `UnsupportedMediaType`, and the store is left as it was: no record, no
/// blob.
pub proof fn law_unadmitted_payload_is_refused(
    pre: StoreView,
    owner: Seq<char>,
    data: Seq<u8>,
    file_id: Seq<char>,
    now: i64,
)
    requires
        !is_admitted(data),
    ensures
        ingestion(pre, owner, data, file_id, now).0 == pre,
        ingestion(pre, owner, data, file_id, now).1 matches Err(e) && e is UnsupportedMediaType,
{
}

/// A payload longer than the ceiling is refused and leaves the store as
/// it was: no record, no blob. Where the policy admits the payload, the
/// refusal is `PayloadTooLarge`.
pub proof fn law_oversized_payload_is_refused(
    pre: StoreView,
    owner: Seq<char>,
    data: Seq<u8>,
    file_id: Seq<char>,
    now: i64,
)
    requires
        data.len() > pre.limit,
    ensures
        ingestion(pre, owner, data, file_id, now).0 == pre,
        ingestion(pre, owner, data, file_id, now).1 is Err,
        is_admitted(data) ==> ingestion(pre, owner, data, file_id, now).1 == Err::<
            FileUploadView,
            FailureView,
        >(FailureView::PayloadTooLarge),
{
}

/// Retrieving an id that no record has is `NotFound`. Retrieving an id
/// whose record is there while nothing is stored under the record's file
/// name is an internal error; so it is after the record's blob was taken
/// away behind the store's back.
pub proof fn law_retrieve_without_record_or_blob(store: StoreView, id: Seq<char>)
    ensures
        find_by_id(store.records, id) is None ==> retrieval(store, id) == Err::<
            Seq<u8>,
            FailureView,
        >(FailureView::NotFound),
        find_by_id(store.records, id) matches Some(record) ==> {
            &&& find_blob(store.blobs, record.file_name) is None ==> retrieval(store, id) == Err::<
                Seq<u8>,
                FailureView,
            >(FailureView::InternalError("stored file is missing"@))
            &&& retrieval(store.without_blob(record.file_name), id) == Err::<
                Seq<u8>,
                FailureView,
            >(FailureView::InternalError("stored file is missing"@))
        },
{
    match find_by_id(store.records, id) {
        Some(record) => {
            lemma_blobs_without(store.blobs, record.file_name, record.file_name);
        },
        None => {},
    }
}

} // verus!
