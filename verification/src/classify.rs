//! Content classification: what a payload is, judged by its first bytes,
//! and whether the upload policy admits it.

use vstd::prelude::*;
use vstd::slice::slice_subrange;
use infer::MatcherType;
use crate::error::{Failure, FailureView};

verus! {

/// How many leading bytes of a payload the classifier looks at.
pub const PEEK_BYTES: usize = 128;

/// The family of formats a signature belongs to.
#[derive(Clone, Copy, Debug, PartialEq, Eq, Structural)]
pub enum TypeClass {
    App,
    Archive,
    Audio,
    Book,
    Doc,
    Font,
    Image,
    Text,
    Video,
    Custom,
}

/// The kind of media a stored file holds.
#[derive(Clone, Copy, Debug, PartialEq, Eq, Structural)]
pub enum MediaKind {
    Image,
    Video,
    Other,
}

/// A format recognised by its signature.
#[derive(Clone, Debug)]
pub struct Detected {
    pub class: TypeClass,
    pub mime: String,
    pub extension: String,
}

/// The mathematical value of a `Detected`.
pub struct DetectedView {
    pub class: TypeClass,
    pub mime: Seq<char>,
    pub extension: Seq<char>,
}

impl View for Detected {
    type V = DetectedView;

    open spec fn view(&self) -> DetectedView {
        DetectedView { class: self.class, mime: self.mime@, extension: self.extension@ }
    }
}

/// An admitted payload: its kind and the extension of its format.
#[derive(Clone, Debug)]
pub struct Classified {
    pub kind: MediaKind,
    pub extension: String,
}

/// The mathematical value of a `Classified`.
pub struct ClassifiedView {
    pub kind: MediaKind,
    pub extension: Seq<char>,
}

impl View for Classified {
    type V = ClassifiedView;

    open spec fn view(&self) -> ClassifiedView {
        ClassifiedView { kind: self.kind, extension: self.extension@ }
    }
}

/// The format that signature detection finds at the start of `buf`, if any:
/// the first of the detector's signatures, in its own order, that matches.
pub uninterp spec fn sniffed_type(buf: Seq<u8>) -> Option<DetectedView>;

/// Whether one of the detector's image signatures matches the start of `buf`.
pub uninterp spec fn sniffed_image(buf: Seq<u8>) -> bool;

/// The value of an optional detection.
pub open spec fn detection_view(d: Option<Detected>) -> Option<DetectedView> {
    match d {
        Some(d) => Some(d@),
        None => None,
    }
}

/// The value of a classification's outcome.
pub open spec fn outcome_view(r: Result<Classified, Failure>) -> Result<
    ClassifiedView,
    FailureView,
> {
    match r {
        Ok(c) => Ok(c@),
        Err(e) => Err(e@),
    }
}

/// `infer::get`: the first signature of the `infer` crate's table that
/// matches `buf`, handed over as class, MIME type and extension. Nothing is
/// claimed of which signature that is; the result is only given its name.
#[verifier::external_body]
fn sniff(buf: &[u8]) -> (r: Option<Detected>)
    ensures
        detection_view(r) == sniffed_type(buf@),
{
    let t = infer::get(buf)?;
    let class = match t.matcher_type() {
        MatcherType::App => TypeClass::App,
        MatcherType::Archive => TypeClass::Archive,
        MatcherType::Audio => TypeClass::Audio,
        MatcherType::Book => TypeClass::Book,
        MatcherType::Doc => TypeClass::Doc,
        MatcherType::Font => TypeClass::Font,
        MatcherType::Image => TypeClass::Image,
        MatcherType::Text => TypeClass::Text,
        MatcherType::Video => TypeClass::Video,
        MatcherType::Custom => TypeClass::Custom,
    };
    Some(Detected { class, mime: t.mime_type().to_string(), extension: t.extension().to_string() })
}

/// `infer::is_image`: whether any image signature of the `infer` crate
/// matches `buf`. The result is only given its name.
#[verifier::external_body]
fn sniff_image(buf: &[u8]) -> (r: bool)
    ensures
        r == sniffed_image(buf@),
{
    infer::is_image(buf)
}

impl MediaKind {
    /// The number a kind is stored under: 0 image, 1 video, 2 other.
    pub open spec fn code_spec(self) -> i16 {
        match self {
            MediaKind::Image => 0i16,
            MediaKind::Video => 1i16,
            MediaKind::Other => 2i16,
        }
    }

    /// The kind that a format family is stored as.
    pub open spec fn of_class(class: TypeClass) -> MediaKind {
        match class {
            TypeClass::Image => MediaKind::Image,
            TypeClass::Video => MediaKind::Video,
            _ => MediaKind::Other,
        }
    }

    /// The upload policy: the kinds that may be stored. Images only.
    pub open spec fn allowed(self) -> bool {
        match self {
            MediaKind::Image => true,
            MediaKind::Video => false,
            MediaKind::Other => false,
        }
    }

    /// The number this kind is stored under.
    pub fn code(self) -> (c: i16)
        ensures
            c == self.code_spec(),
    {
        match self {
            MediaKind::Image => 0i16,
            MediaKind::Video => 1i16,
            MediaKind::Other => 2i16,
        }
    }

    /// The kind stored under `code`, if there is one.
    pub fn from_code(code: i16) -> (k: Option<MediaKind>)
        ensures
            match k {
                Some(kind) => kind.code_spec() == code,
                None => code < 0 || code > 2,
            },
    {
        if code == 0i16 {
            Some(MediaKind::Image)
        } else if code == 1i16 {
            Some(MediaKind::Video)
        } else if code == 2i16 {
            Some(MediaKind::Other)
        } else {
            None
        }
    }

    /// The kind that a format family is stored as.
    pub fn from_class(class: TypeClass) -> (k: MediaKind)
        ensures
            k == MediaKind::of_class(class),
    {
        match class {
            TypeClass::Image => MediaKind::Image,
            TypeClass::Video => MediaKind::Video,
            _ => MediaKind::Other,
        }
    }

    /// Whether the upload policy admits this kind.
    pub fn is_allowed(self) -> (b: bool)
        ensures
            b == self.allowed(),
    {
        match self {
            MediaKind::Image => true,
            MediaKind::Video => false,
            MediaKind::Other => false,
        }
    }
}

/// The part of a payload that the classifier looks at: its first
/// `max_peek` bytes, or all of it where it is shorter.
pub open spec fn peeked(bytes: Seq<u8>, max_peek: int) -> Seq<u8> {
    if max_peek <= 0 {
        Seq::<u8>::empty()
    } else if max_peek < bytes.len() {
        bytes.take(max_peek)
    } else {
        bytes
    }
}

/// The verdict on a payload, given what detection found at its start:
/// admitted where an image signature matched and the detected format is of
/// an allowed kind; otherwise refused, naming the detected MIME type, or
/// `unknown` where no format was recognised.
pub open spec fn verdict(image: bool, detected: Option<DetectedView>) -> Result<
    ClassifiedView,
    FailureView,
> {
    match detected {
        None => Err(FailureView::UnsupportedMediaType("unknown"@)),
        Some(d) => if image && MediaKind::of_class(d.class).allowed() {
            Ok(ClassifiedView { kind: MediaKind::of_class(d.class), extension: d.extension })
        } else {
            Err(FailureView::UnsupportedMediaType(d.mime))
        },
    }
}

/// Decides on a payload from what detection found at its start.
pub fn judge(image: bool, detected: Option<Detected>) -> (r: Result<Classified, Failure>)
    ensures
        outcome_view(r) == verdict(image, detection_view(detected)),
{
    match detected {
        None => Err(Failure::UnsupportedMediaType(String::from_str("unknown"))),
        Some(d) => {
            let kind = MediaKind::from_class(d.class);
            if image && kind.is_allowed() {
                Ok(Classified { kind, extension: d.extension })
            } else {
                Err(Failure::UnsupportedMediaType(d.mime))
            }
        },
    }
}

/// Classifies a payload by at most `max_peek` of its leading bytes.
///
/// Only that prefix is handed to signature detection; the verdict is the
/// one that `verdict` gives for what detection finds there.
pub fn classify(initial_bytes: &[u8], max_peek: usize) -> (r: Result<Classified, Failure>)
    ensures
        outcome_view(r) == verdict(
            sniffed_image(peeked(initial_bytes@, max_peek as int)),
            sniffed_type(peeked(initial_bytes@, max_peek as int)),
        ),
{
    let n: usize = if max_peek < initial_bytes.len() {
        max_peek
    } else {
        initial_bytes.len()
    };
    let head = slice_subrange(initial_bytes, 0, n);
    assert(head@ =~= peeked(initial_bytes@, max_peek as int));
    let image = sniff_image(head);
    let detected = sniff(head);
    judge(image, detected)
}

} // verus!
