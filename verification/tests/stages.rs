use filehost::classify::PEEK_BYTES;
use filehost::error::Failure;
use filehost::ingest::{Action, Event, Ingest};
use filehost::key::ValidatedIdentity;

const PNG: [u8; 10] = [0x89, 0x50, 0x4E, 0x47, 0x0D, 0x0A, 0x1A, 0x0A, 0x00, 0x01];
const MP3: [u8; 6] = [0x49, 0x44, 0x33, 0x03, 0x00, 0x00];

fn alice() -> ValidatedIdentity {
    ValidatedIdentity("alice-key".to_string())
}

fn started(limit: usize) -> Ingest {
    let (ingest, action) = Ingest::begin_with(&alice(), limit, "abc".to_string(), 1_700_000_000);
    assert!(matches!(action, Action::Peek(n) if n == PEEK_BYTES));
    ingest
}

fn read_all(limit: usize) -> Ingest {
    let (ingest, action) = started(limit).step(Event::Peeked(PNG.to_vec()));
    assert!(matches!(action, Action::Read));
    let (ingest, action) = ingest.step(Event::Chunk(PNG[..4].to_vec()));
    assert!(matches!(action, Action::Read));
    let (ingest, action) = ingest.step(Event::Chunk(PNG[4..].to_vec()));
    assert!(matches!(action, Action::Read));
    ingest
}

fn refused(action: Action) -> Failure {
    match action {
        Action::Reply(Err(e)) => e,
        other => panic!("unexpected {:?}", other),
    }
}

#[test]
fn stages_of_an_accepted_upload() {
    let ingest = read_all(1024);
    assert!(!ingest.is_done());
    let (ingest, action) = ingest.step(Event::EndOfStream);
    match action {
        Action::Lookup(digest) => assert_eq!(digest, blake3::hash(&PNG).to_string()),
        other => panic!("unexpected {:?}", other),
    }
    let (ingest, action) = ingest.step(Event::Looked(None));
    match action {
        Action::WriteBlob(name, bytes) => {
            assert_eq!(name, "abc.png");
            assert_eq!(bytes, PNG.to_vec());
        }
        other => panic!("unexpected {:?}", other),
    }
    let (ingest, action) = ingest.step(Event::BlobWritten);
    match action {
        Action::Insert(record) => {
            assert_eq!(record.id, "abc");
            assert_eq!(record.file_name, "abc.png");
            assert_eq!(record.file_hash, blake3::hash(&PNG).to_string());
            assert_eq!(record.file_type, 0);
            assert_eq!(record.file_size, 10);
            assert_eq!(record.uploader, "alice-key");
            assert_eq!(record.upload_date, 1_700_000_000);
        }
        other => panic!("unexpected {:?}", other),
    }
    assert!(!ingest.is_done());
    let (ingest, action) = ingest.step(Event::Inserted("abc".to_string()));
    match action {
        Action::Reply(Ok(answer)) => {
            assert_eq!(answer.id, "abc");
            assert_eq!(answer.ext, "png");
        }
        other => panic!("unexpected {:?}", other),
    }
    assert!(ingest.is_done());
}

#[test]
fn audio_ends_the_ingestion_before_anything_is_read() {
    let (ingest, action) = started(1024).step(Event::Peeked(MP3.to_vec()));
    match refused(action) {
        Failure::UnsupportedMediaType(name) => assert_eq!(name, "audio/mpeg"),
        other => panic!("unexpected {:?}", other),
    }
    assert!(ingest.is_done());
}

#[test]
fn piece_over_the_ceiling_ends_the_ingestion() {
    let (ingest, _) = started(9).step(Event::Peeked(PNG.to_vec()));
    let (ingest, action) = ingest.step(Event::Chunk(PNG[..9].to_vec()));
    assert!(matches!(action, Action::Read));
    let (ingest, action) = ingest.step(Event::Chunk(PNG[9..].to_vec()));
    assert!(matches!(refused(action), Failure::PayloadTooLarge));
    assert!(ingest.is_done());
}

#[test]
fn held_digest_ends_the_ingestion_with_its_id() {
    let (ingest, _) = read_all(1024).step(Event::EndOfStream);
    let (ingest, action) = ingest.step(Event::Looked(Some("first".to_string())));
    match refused(action) {
        Failure::AlreadyExists(id) => assert_eq!(id, "first"),
        other => panic!("unexpected {:?}", other),
    }
    assert!(ingest.is_done());
}

#[test]
fn failed_blob_write_asks_for_no_insert() {
    let (ingest, _) = read_all(1024).step(Event::EndOfStream);
    let (ingest, _) = ingest.step(Event::Looked(None));
    let (ingest, action) =
        ingest.step(Event::Failed(Failure::InternalError("disk full".to_string())));
    match refused(action) {
        Failure::InternalError(text) => assert_eq!(text, "disk full"),
        other => panic!("unexpected {:?}", other),
    }
    assert!(ingest.is_done());
}

#[test]
fn failed_insert_is_not_a_success() {
    let (ingest, _) = read_all(1024).step(Event::EndOfStream);
    let (ingest, _) = ingest.step(Event::Looked(None));
    let (ingest, _) = ingest.step(Event::BlobWritten);
    let (ingest, action) =
        ingest.step(Event::Failed(Failure::InternalError("constraint".to_string())));
    assert!(matches!(refused(action), Failure::InternalError(_)));
    assert!(ingest.is_done());
}

#[test]
fn event_out_of_turn_is_an_internal_error() {
    let (ingest, action) = started(1024).step(Event::EndOfStream);
    match refused(action) {
        Failure::InternalError(text) => assert_eq!(text, "unexpected event"),
        other => panic!("unexpected {:?}", other),
    }
    assert!(ingest.is_done());
    let (_, action) = read_all(1024).step(Event::Inserted("abc".to_string()));
    assert!(matches!(refused(action), Failure::InternalError(_)));
}

#[test]
fn finished_ingestion_stays_finished() {
    let (ingest, _) = started(1024).step(Event::Peeked(MP3.to_vec()));
    let (ingest, action) = ingest.step(Event::Peeked(PNG.to_vec()));
    assert!(matches!(refused(action), Failure::InternalError(_)));
    assert!(ingest.is_done());
}

#[test]
fn begin_draws_a_fresh_id_and_the_current_time() {
    let (ingest, action) = Ingest::begin(&alice(), 1024);
    assert!(matches!(action, Action::Peek(128)));
    let (ingest, _) = ingest.step(Event::Peeked(PNG.to_vec()));
    let (ingest, _) = ingest.step(Event::Chunk(PNG.to_vec()));
    let (ingest, _) = ingest.step(Event::EndOfStream);
    let (ingest, _) = ingest.step(Event::Looked(None));
    let (_, action) = ingest.step(Event::BlobWritten);
    match action {
        Action::Insert(record) => {
            assert_eq!(record.id.len(), 32);
            assert!(!record.id.contains('-'));
            assert_eq!(record.file_name, format!("{}.png", record.id));
            assert!(record.upload_date > 1_600_000_000);
        }
        other => panic!("unexpected {:?}", other),
    }
}
