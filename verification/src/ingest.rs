//! An ingestion as a sequence of stages. Each step takes what the outside
//! work handed back and says what to do next; reading, looking up and
//! writing are left to the caller.

use vstd::prelude::*;
use crate::classify::{
    classify, peeked, sniffed_image, sniffed_type, verdict, Classified, ClassifiedView,
    PEEK_BYTES,
};
use crate::error::{Failure, FailureView};
use crate::files::{fresh_file_id, record_for, File, FileUpload, FileUploadView, FileView};
use crate::gate::{consumed_of, Consumed, ConsumedView, HashingGate};
use crate::key::{unix_now, ValidatedIdentity};

verus! {

/// Where an ingestion stands. The stages follow one another in this
/// order, and none is entered twice.
pub enum Stage {
    /// Nothing was read yet; the first bytes are awaited.
    Validating,
    /// The payload is being read under the ceiling.
    Hashing(Classified, HashingGate),
    /// The payload is complete; the lookup of its digest is awaited.
    DedupCheck(Classified, Consumed),
    /// The content is new; first the blob is written, then the record
    /// inserted. The flag says whether the blob was written.
    Committing(File, String, bool),
    /// The ingestion has answered.
    Done,
}

/// The mathematical value of a `Stage`.
pub enum StageView {
    Validating,
    Hashing(ClassifiedView, Seq<u8>),
    DedupCheck(ClassifiedView, ConsumedView),
    Committing(FileView, Seq<char>, bool),
    Done,
}

/// What the outside work handed back.
#[derive(Debug)]
pub enum Event {
    /// The first bytes of the stream, without taking them from it.
    Peeked(Vec<u8>),
    /// The next piece of the stream.
    Chunk(Vec<u8>),
    /// The stream has ended.
    EndOfStream,
    /// The id that the digest has in the records, if any.
    Looked(Option<String>),
    /// The blob was written.
    BlobWritten,
    /// The record was inserted under this id.
    Inserted(String),
    /// The outside work failed.
    Failed(Failure),
}

/// The mathematical value of an `Event`.
pub enum EventView {
    Peeked(Seq<u8>),
    Chunk(Seq<u8>),
    EndOfStream,
    Looked(Option<Seq<char>>),
    BlobWritten,
    Inserted(Seq<char>),
    Failed(FailureView),
}

impl View for Event {
    type V = EventView;

    open spec fn view(&self) -> EventView {
        match *self {
            Event::Peeked(head) => EventView::Peeked(head@),
            Event::Chunk(bytes) => EventView::Chunk(bytes@),
            Event::EndOfStream => EventView::EndOfStream,
            Event::Looked(Some(id)) => EventView::Looked(Some(id@)),
            Event::Looked(None) => EventView::Looked(None),
            Event::BlobWritten => EventView::BlobWritten,
            Event::Inserted(id) => EventView::Inserted(id@),
            Event::Failed(e) => EventView::Failed(e@),
        }
    }
}

/// What the caller is to do next.
#[derive(Debug)]
pub enum Action {
    /// Look at this many leading bytes of the stream.
    Peek(usize),
    /// Read the next piece of the stream.
    Read,
    /// Look this digest up in the records.
    Lookup(String),
    /// Write these bytes under this name.
    WriteBlob(String, Vec<u8>),
    /// Insert this record.
    Insert(File),
    /// Answer the request; nothing more is to be done.
    Reply(Result<FileUpload, Failure>),
}

/// The mathematical value of an `Action`.
pub enum ActionView {
    Peek(usize),
    Read,
    Lookup(Seq<char>),
    WriteBlob(Seq<char>, Seq<u8>),
    Insert(FileView),
    Reply(Result<FileUploadView, FailureView>),
}

impl View for Action {
    type V = ActionView;

    open spec fn view(&self) -> ActionView {
        match *self {
            Action::Peek(n) => ActionView::Peek(n),
            Action::Read => ActionView::Read,
            Action::Lookup(digest) => ActionView::Lookup(digest@),
            Action::WriteBlob(name, bytes) => ActionView::WriteBlob(name@, bytes@),
            Action::Insert(record) => ActionView::Insert(record@),
            Action::Reply(Ok(answer)) => ActionView::Reply(Ok(answer@)),
            Action::Reply(Err(e)) => ActionView::Reply(Err(e@)),
        }
    }
}

/// One ingestion: who uploads, under which ceiling, id and time, and the
/// stage it has reached.
pub struct Ingest {
    owner: String,
    limit: usize,
    file_id: String,
    now: i64,
    stage: Stage,
}

/// The mathematical value of an `Ingest`.
pub struct IngestView {
    pub owner: Seq<char>,
    pub limit: usize,
    pub file_id: Seq<char>,
    pub now: i64,
    pub stage: StageView,
}

/// The answer that ends an ingestion with a refusal.
pub open spec fn refusal(e: FailureView) -> (StageView, ActionView) {
    (StageView::Done, ActionView::Reply(Err(e)))
}

/// The stage that follows and the action to take, for each stage and
/// each thing the outside work can hand back.
///
/// The first bytes are classified before anything is read. Pieces are
/// taken while the total stays within the ceiling. The digest of the
/// complete payload is looked up before anything is written. The blob is
/// written before the record is inserted, and only an inserted record is
/// answered with success. A failure of the outside work ends the
/// ingestion with that failure, and so does anything handed back out of
/// turn, as an internal error.
pub open spec fn advance(pre: IngestView, event: EventView) -> (StageView, ActionView) {
    match (pre.stage, event) {
        (StageView::Done, _) => refusal(FailureView::InternalError("unexpected event"@)),
        (_, EventView::Failed(e)) => refusal(e),
        (StageView::Validating, EventView::Peeked(head)) => {
            let seen = peeked(head, PEEK_BYTES as int);
            match verdict(sniffed_image(seen), sniffed_type(seen)) {
                Ok(class) => (StageView::Hashing(class, Seq::<u8>::empty()), ActionView::Read),
                Err(e) => refusal(e),
            }
        },
        (StageView::Hashing(class, taken), EventView::Chunk(bytes)) => {
            if taken.len() + bytes.len() <= pre.limit {
                (StageView::Hashing(class, taken + bytes), ActionView::Read)
            } else {
                refusal(FailureView::PayloadTooLarge)
            }
        },
        (StageView::Hashing(class, taken), EventView::EndOfStream) => {
            let consumed = consumed_of(taken);
            (StageView::DedupCheck(class, consumed), ActionView::Lookup(consumed.digest))
        },
        (StageView::DedupCheck(_, _), EventView::Looked(Some(id))) => refusal(
            FailureView::AlreadyExists(id),
        ),
        (StageView::DedupCheck(class, consumed), EventView::Looked(None)) => {
            let record = record_for(pre.file_id, pre.now, pre.owner, class, consumed);
            (
                StageView::Committing(record, class.extension, false),
                ActionView::WriteBlob(record.file_name, consumed.bytes),
            )
        },
        (StageView::Committing(record, ext, false), EventView::BlobWritten) => (
            StageView::Committing(record, ext, true),
            ActionView::Insert(record),
        ),
        (StageView::Committing(_, ext, true), EventView::Inserted(id)) => (
            StageView::Done,
            ActionView::Reply(Ok(FileUploadView { id, ext })),
        ),
        _ => refusal(FailureView::InternalError("unexpected event"@)),
    }
}

/// The place of a stage in the order of stages.
pub open spec fn rank(stage: StageView) -> nat {
    match stage {
        StageView::Validating => 0,
        StageView::Hashing(_, _) => 1,
        StageView::DedupCheck(_, _) => 2,
        StageView::Committing(_, _, false) => 3,
        StageView::Committing(_, _, true) => 4,
        StageView::Done => 5,
    }
}

impl View for Ingest {
    type V = IngestView;

    closed spec fn view(&self) -> IngestView {
        IngestView {
            owner: self.owner@,
            limit: self.limit,
            file_id: self.file_id@,
            now: self.now,
            stage: match self.stage {
                Stage::Validating => StageView::Validating,
                Stage::Hashing(class, gate) => StageView::Hashing(class@, gate.taken()),
                Stage::DedupCheck(class, consumed) => StageView::DedupCheck(class@, consumed@),
                Stage::Committing(record, ext, written) => StageView::Committing(
                    record@,
                    ext@,
                    written,
                ),
                Stage::Done => StageView::Done,
            },
        }
    }
}

impl Ingest {
    /// While pieces are taken, the intake is sound, has refused nothing
    /// and has this ingestion's ceiling.
    pub closed spec fn well_formed(&self) -> bool {
        match self.stage {
            Stage::Hashing(_, gate) => gate.well_formed() && !gate.refused() && gate.limit()
                == self.limit,
            _ => true,
        }
    }

    /// Starts an ingestion under a given id and time. The first thing to
    /// do is to look at the stream's leading bytes.
    pub fn begin_with(api_key: &ValidatedIdentity, limit_bytes: usize, file_id: String, now: i64)
        -> (r: (Ingest, Action))
        ensures
            r.0.well_formed(),
            r.0@ == (IngestView {
                owner: api_key@,
                limit: limit_bytes,
                file_id: file_id@,
                now,
                stage: StageView::Validating,
            }),
            r.1@ == ActionView::Peek(PEEK_BYTES),
    {
        let ingest = Ingest {
            owner: api_key.0.clone(),
            limit: limit_bytes,
            file_id,
            now,
            stage: Stage::Validating,
        };
        (ingest, Action::Peek(PEEK_BYTES))
    }

    /// Starts an ingestion under a fresh random id, at the time of the
    /// call. Whatever id and time were drawn, the ingestion starts as
    /// `begin_with` starts it for them; the id has 32 characters.
    pub fn begin(api_key: &ValidatedIdentity, limit_bytes: usize) -> (r: (Ingest, Action))
        ensures
            r.0.well_formed(),
            r.0@.owner == api_key@,
            r.0@.limit == limit_bytes,
            r.0@.file_id.len() == 32,
            r.0@.stage is Validating,
            r.1@ == ActionView::Peek(PEEK_BYTES),
    {
        let file_id = fresh_file_id();
        let now = unix_now();
        Ingest::begin_with(api_key, limit_bytes, file_id, now)
    }

    /// Whether the ingestion has answered.
    pub fn is_done(&self) -> (b: bool)
        ensures
            b == (self@.stage is Done),
    {
        match self.stage {
            Stage::Done => true,
            _ => false,
        }
    }

    /// Takes what the outside work handed back and says what to do next.
    pub fn step(self, event: Event) -> (r: (Ingest, Action))
        requires
            self.well_formed(),
        ensures
            r.0.well_formed(),
            r.0@ == (IngestView { stage: advance(self@, event@).0, ..self@ }),
            r.1@ == advance(self@, event@).1,
    {
        let Ingest { owner, limit, file_id, now, stage } = self;
        let (next, action) = match (stage, event) {
            (Stage::Done, _) => unexpected(),
            (_, Event::Failed(e)) => (Stage::Done, Action::Reply(Err(e))),
            (Stage::Validating, Event::Peeked(head)) => match classify(
                head.as_slice(),
                PEEK_BYTES,
            ) {
                Ok(class) => (Stage::Hashing(class, HashingGate::new(limit)), Action::Read),
                Err(e) => (Stage::Done, Action::Reply(Err(e))),
            },
            (Stage::Hashing(class, gate), Event::Chunk(bytes)) => {
                let mut gate = gate;
                match gate.feed(bytes.as_slice()) {
                    Ok(()) => (Stage::Hashing(class, gate), Action::Read),
                    Err(e) => (Stage::Done, Action::Reply(Err(e))),
                }
            },
            (Stage::Hashing(class, gate), Event::EndOfStream) => match gate.finish() {
                Ok(consumed) => {
                    let digest = consumed.digest.clone();
                    (Stage::DedupCheck(class, consumed), Action::Lookup(digest))
                },
                Err(e) => (Stage::Done, Action::Reply(Err(e))),
            },
            (Stage::DedupCheck(_, _), Event::Looked(Some(id))) => (
                Stage::Done,
                Action::Reply(Err(Failure::AlreadyExists(id))),
            ),
            (Stage::DedupCheck(class, consumed), Event::Looked(None)) => {
                let identity = ValidatedIdentity(owner.clone());
                let record = File::for_upload(file_id.clone(), now, &identity, &class, &consumed);
                let name = record.file_name.clone();
                (
                    Stage::Committing(record, class.extension, false),
                    Action::WriteBlob(name, consumed.bytes),
                )
            },
            (Stage::Committing(record, ext, false), Event::BlobWritten) => {
                let copy = record.duplicate();
                (Stage::Committing(record, ext, true), Action::Insert(copy))
            },
            (Stage::Committing(_, ext, true), Event::Inserted(id)) => (
                Stage::Done,
                Action::Reply(Ok(FileUpload { id, ext })),
            ),
            _ => unexpected(),
        };
        (Ingest { owner, limit, file_id, now, stage: next }, action)
    }
}

/// The end of an ingestion that was handed something out of turn.
fn unexpected() -> (r: (Stage, Action))
    ensures
        r.0 is Done,
        r.1@ == ActionView::Reply(Err(FailureView::InternalError("unexpected event"@))),
{
    (Stage::Done, Action::Reply(Err(Failure::InternalError(String::from_str("unexpected event")))))
}

/// No step goes back: the stage that follows lies later in the order of
/// stages than the one before, except that an ingestion that has answered
/// stays so.
pub proof fn law_stages_only_advance(pre: IngestView, event: EventView)
    ensures
        pre.stage is Done ==> advance(pre, event).0 is Done,
        !(pre.stage is Done) ==> rank(pre.stage) < rank(advance(pre, event).0) || (pre.stage
            is Hashing && advance(pre, event).0 is Hashing),
{
}

/// Nothing is to be written before the digest was looked up and found
/// new, and no record is to be inserted before its blob was written.
pub proof fn law_writes_come_last(pre: IngestView, event: EventView)
    ensures
        advance(pre, event).1 is WriteBlob ==> pre.stage is DedupCheck && event
            == EventView::Looked(None),
        advance(pre, event).1 is Insert ==> (pre.stage matches StageView::Committing(_, _, false))
            && event is BlobWritten,
        (advance(pre, event).1 matches ActionView::Reply(Ok(_))) ==> (pre.stage matches
            StageView::Committing(_, _, true)) && event is Inserted,
{
}

} // verus!
