use filehost::classify::{classify, judge, Detected, MediaKind, TypeClass, PEEK_BYTES};
use filehost::error::Failure;
use filehost::gate::{consume, HashingGate, MAX_UPLOAD_BYTES};

const PNG: [u8; 10] = [0x89, 0x50, 0x4E, 0x47, 0x0D, 0x0A, 0x1A, 0x0A, 0x00, 0x01];
const JPEG: [u8; 4] = [0xFF, 0xD8, 0xFF, 0xAA];
const MP3: [u8; 6] = [0x49, 0x44, 0x33, 0x03, 0x00, 0x00];
const EMPTY_DIGEST: &str = "af1349b9f5f9a1a6a0404dea36dcc9499bcb25c9adc112b7cc9a93cae41f3262";

#[test]
fn limits_have_their_values() {
    assert_eq!(PEEK_BYTES, 128);
    assert_eq!(MAX_UPLOAD_BYTES, 1024 * 1024 * 1024);
}

#[test]
fn png_is_classified_as_image() {
    let c = classify(&PNG, PEEK_BYTES).expect("a PNG is admitted");
    assert_eq!(c.kind, MediaKind::Image);
    assert_eq!(c.extension, "png");
}

#[test]
fn jpeg_is_classified_as_image() {
    let c = classify(&JPEG, PEEK_BYTES).expect("a JPEG is admitted");
    assert_eq!(c.kind, MediaKind::Image);
    assert_eq!(c.extension, "jpg");
}

#[test]
fn audio_is_refused_with_its_mime_type() {
    match classify(&MP3, PEEK_BYTES) {
        Err(Failure::UnsupportedMediaType(name)) => assert_eq!(name, "audio/mpeg"),
        other => panic!("unexpected {:?}", other),
    }
}

#[test]
fn plain_text_is_refused_as_unknown() {
    match classify(b"hello, world", PEEK_BYTES) {
        Err(Failure::UnsupportedMediaType(name)) => assert_eq!(name, "unknown"),
        other => panic!("unexpected {:?}", other),
    }
}

#[test]
fn empty_payload_is_refused() {
    assert!(matches!(classify(&[], PEEK_BYTES), Err(Failure::UnsupportedMediaType(_))));
}

#[test]
fn classifier_sees_only_the_peeked_prefix() {
    assert!(matches!(classify(&PNG, 0), Err(Failure::UnsupportedMediaType(_))));
    assert!(matches!(classify(&PNG, 2), Err(Failure::UnsupportedMediaType(_))));
    assert!(classify(&PNG, 8).is_ok());
    let mut late = vec![0u8; 200];
    late.extend_from_slice(&PNG);
    assert!(matches!(classify(&late, PEEK_BYTES), Err(Failure::UnsupportedMediaType(_))));
}

#[test]
fn judge_admits_only_allowed_kinds() {
    let png = Detected {
        class: TypeClass::Image,
        mime: "image/png".to_string(),
        extension: "png".to_string(),
    };
    let ok = judge(true, Some(png.clone())).expect("image is admitted");
    assert_eq!(ok.kind, MediaKind::Image);
    assert_eq!(ok.extension, "png");
    assert!(matches!(judge(false, Some(png)), Err(Failure::UnsupportedMediaType(_))));
    let video = Detected {
        class: TypeClass::Video,
        mime: "video/mp4".to_string(),
        extension: "mp4".to_string(),
    };
    match judge(true, Some(video)) {
        Err(Failure::UnsupportedMediaType(name)) => assert_eq!(name, "video/mp4"),
        other => panic!("unexpected {:?}", other),
    }
    match judge(true, None) {
        Err(Failure::UnsupportedMediaType(name)) => assert_eq!(name, "unknown"),
        other => panic!("unexpected {:?}", other),
    }
}

#[test]
fn media_kind_codes() {
    assert_eq!(MediaKind::Image.code(), 0);
    assert_eq!(MediaKind::Video.code(), 1);
    assert_eq!(MediaKind::Other.code(), 2);
    assert_eq!(MediaKind::from_code(0), Some(MediaKind::Image));
    assert_eq!(MediaKind::from_code(1), Some(MediaKind::Video));
    assert_eq!(MediaKind::from_code(2), Some(MediaKind::Other));
    assert_eq!(MediaKind::from_code(3), None);
    assert_eq!(MediaKind::from_code(-1), None);
}

#[test]
fn media_kind_policy_and_classes() {
    assert!(MediaKind::Image.is_allowed());
    assert!(!MediaKind::Video.is_allowed());
    assert!(!MediaKind::Other.is_allowed());
    assert_eq!(MediaKind::from_class(TypeClass::Image), MediaKind::Image);
    assert_eq!(MediaKind::from_class(TypeClass::Video), MediaKind::Video);
    assert_eq!(MediaKind::from_class(TypeClass::Audio), MediaKind::Other);
    assert_eq!(MediaKind::from_class(TypeClass::Archive), MediaKind::Other);
}

#[test]
fn digest_of_nothing_is_the_known_value() {
    let c = consume(&vec![], 0).expect("nothing fits any ceiling");
    assert_eq!(c.digest, EMPTY_DIGEST);
    assert_eq!(c.length, 0);
    assert!(c.bytes.is_empty());
}

#[test]
fn digest_is_that_of_the_bytes() {
    let c = consume(&vec![b"abc".to_vec()], 3).expect("three bytes fit");
    assert_eq!(c.digest, blake3::hash(b"abc").to_string());
    assert_eq!(c.digest.len(), 64);
    assert_ne!(c.digest, EMPTY_DIGEST);
}

#[test]
fn stream_is_taken_in_order() {
    let c = consume(&vec![vec![1, 2], vec![], vec![3]], 3).expect("three bytes fit");
    assert_eq!(c.bytes, vec![1, 2, 3]);
    assert_eq!(c.length, 3);
    assert_eq!(c.digest, blake3::hash(&[1, 2, 3]).to_string());
}

#[test]
fn stream_over_the_ceiling_is_refused() {
    let r = consume(&vec![vec![1, 2], vec![3]], 2);
    assert!(matches!(r, Err(Failure::PayloadTooLarge)));
}

#[test]
fn gate_takes_up_to_its_ceiling() {
    let mut gate = HashingGate::new(4);
    assert!(gate.feed(&[1, 2]).is_ok());
    assert!(gate.feed(&[3, 4]).is_ok());
    let c = gate.finish().expect("four bytes fit");
    assert_eq!(c.bytes, vec![1, 2, 3, 4]);
    assert_eq!(c.length, 4);
}

#[test]
fn gate_stays_refused() {
    let mut gate = HashingGate::new(2);
    assert!(gate.feed(&[1]).is_ok());
    assert!(matches!(gate.feed(&[2, 3]), Err(Failure::PayloadTooLarge)));
    assert!(matches!(gate.feed(&[4]), Err(Failure::PayloadTooLarge)));
    assert!(matches!(gate.finish(), Err(Failure::PayloadTooLarge)));
}

#[test]
fn classifier_takes_any_short_input() {
    for first in 0..=255u8 {
        for len in 0..6usize {
            let buf = vec![first; len];
            let _ = classify(&buf, PEEK_BYTES);
        }
    }
    let mut state: u32 = 0x2545_F491;
    for round in 0..2000usize {
        let mut buf = Vec::new();
        for _ in 0..(round % 300) {
            state = state.wrapping_mul(1_664_525).wrapping_add(1_013_904_223);
            buf.push((state >> 24) as u8);
        }
        let whole = classify(&buf, PEEK_BYTES);
        let cut = if buf.len() > PEEK_BYTES { &buf[..PEEK_BYTES] } else { &buf[..] };
        let head = classify(cut, PEEK_BYTES);
        assert_eq!(whole.is_ok(), head.is_ok());
    }
}
