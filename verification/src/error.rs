//! The failures the service can report, and their HTTP-facing form.

use vstd::prelude::*;

verus! {

/// Status code sent for a rejected request.
pub const BAD_REQUEST: u16 = 400;

/// Status code sent for a missing, unknown or expired key.
pub const UNAUTHORIZED: u16 = 401;

/// Status code sent when no file has the requested id.
pub const NOT_FOUND: u16 = 404;

/// Status code sent when the store or a backing service failed.
pub const INTERNAL_SERVER_ERROR: u16 = 500;

/// An error as it is sent to a client: a status code and a body.
#[derive(Clone, Debug)]
pub enum Error {
    Custom(u16, String),
    BadRequest(String),
    InternalServerError(String),
    Unauthorized(String),
    NotFound(String),
}

impl Error {
    /// The status code of each variant.
    pub open spec fn code_spec(&self) -> u16 {
        match *self {
            Error::Custom(code, _) => code,
            Error::BadRequest(_) => BAD_REQUEST,
            Error::InternalServerError(_) => INTERNAL_SERVER_ERROR,
            Error::Unauthorized(_) => UNAUTHORIZED,
            Error::NotFound(_) => NOT_FOUND,
        }
    }

    /// The message carried by each variant.
    pub open spec fn msg_spec(&self) -> Seq<char> {
        match *self {
            Error::Custom(_, msg) => msg@,
            Error::BadRequest(msg) => msg@,
            Error::InternalServerError(msg) => msg@,
            Error::Unauthorized(msg) => msg@,
            Error::NotFound(msg) => msg@,
        }
    }

    /// The variant's name.
    pub open spec fn name_spec(&self) -> Seq<char> {
        match *self {
            Error::Custom(_, _) => "Custom"@,
            Error::BadRequest(_) => "BadRequest"@,
            Error::InternalServerError(_) => "InternalServerError"@,
            Error::Unauthorized(_) => "Unauthorized"@,
            Error::NotFound(_) => "NotFound"@,
        }
    }

    /// The fixed sentence that explains each variant.
    pub open spec fn description_spec(&self) -> Seq<char> {
        match *self {
            Error::Custom(_, _) => "Custom Error"@,
            Error::BadRequest(_) => "There was something wrong with the request"@,
            Error::InternalServerError(_) => "There was an internal server error"@,
            Error::Unauthorized(_) => "The required credentials were missing"@,
            Error::NotFound(_) => "The resource could not be found"@,
        }
    }

    /// The status code to answer with.
    pub fn code(&self) -> (c: u16)
        ensures
            c == self.code_spec(),
    {
        match self {
            Error::Custom(code, _) => *code,
            Error::BadRequest(_) => BAD_REQUEST,
            Error::InternalServerError(_) => INTERNAL_SERVER_ERROR,
            Error::Unauthorized(_) => UNAUTHORIZED,
            Error::NotFound(_) => NOT_FOUND,
        }
    }

    /// The body to answer with.
    pub fn msg(&self) -> (m: String)
        ensures
            m@ == self.msg_spec(),
    {
        match self {
            Error::Custom(_, msg) => msg.clone(),
            Error::BadRequest(msg) => msg.clone(),
            Error::InternalServerError(msg) => msg.clone(),
            Error::Unauthorized(msg) => msg.clone(),
            Error::NotFound(msg) => msg.clone(),
        }
    }

    /// The variant's name, as the error prints itself.
    pub fn to_text(&self) -> (s: String)
        ensures
            s@ == self.name_spec(),
    {
        match self {
            Error::Custom(_, _) => String::from_str("Custom"),
            Error::BadRequest(_) => String::from_str("BadRequest"),
            Error::InternalServerError(_) => String::from_str("InternalServerError"),
            Error::Unauthorized(_) => String::from_str("Unauthorized"),
            Error::NotFound(_) => String::from_str("NotFound"),
        }
    }

    /// A fixed sentence that explains the variant.
    pub fn description(&self) -> (d: String)
        ensures
            d@ == self.description_spec(),
    {
        match self {
            Error::Custom(_, _) => String::from_str("Custom Error"),
            Error::BadRequest(_) => String::from_str("There was something wrong with the request"),
            Error::InternalServerError(_) => String::from_str("There was an internal server error"),
            Error::Unauthorized(_) => String::from_str("The required credentials were missing"),
            Error::NotFound(_) => String::from_str("The resource could not be found"),
        }
    }
}

/// Why an upload, a key check or a retrieval was refused.
#[derive(Clone, Debug)]
pub enum Failure {
    /// The key is missing, unknown or expired.
    Unauthenticated,
    /// The content is not of an allowed kind; carries the name of what was found.
    UnsupportedMediaType(String),
    /// The payload is longer than the ceiling.
    PayloadTooLarge,
    /// The same content is stored already; carries the id it has.
    AlreadyExists(String),
    /// No record has the requested id.
    NotFound,
    /// The store or a backing service failed, or its state is inconsistent.
    InternalError(String),
}

/// The mathematical value of a `Failure`.
pub enum FailureView {
    Unauthenticated,
    UnsupportedMediaType(Seq<char>),
    PayloadTooLarge,
    AlreadyExists(Seq<char>),
    NotFound,
    InternalError(Seq<char>),
}

impl View for Failure {
    type V = FailureView;

    open spec fn view(&self) -> FailureView {
        match *self {
            Failure::Unauthenticated => FailureView::Unauthenticated,
            Failure::UnsupportedMediaType(name) => FailureView::UnsupportedMediaType(name@),
            Failure::PayloadTooLarge => FailureView::PayloadTooLarge,
            Failure::AlreadyExists(id) => FailureView::AlreadyExists(id@),
            Failure::NotFound => FailureView::NotFound,
            Failure::InternalError(msg) => FailureView::InternalError(msg@),
        }
    }
}

impl FailureView {
    /// The status code a failure is answered with.
    pub open spec fn code(self) -> u16 {
        match self {
            FailureView::Unauthenticated => UNAUTHORIZED,
            FailureView::UnsupportedMediaType(_) => BAD_REQUEST,
            FailureView::PayloadTooLarge => BAD_REQUEST,
            FailureView::AlreadyExists(_) => BAD_REQUEST,
            FailureView::NotFound => NOT_FOUND,
            FailureView::InternalError(_) => INTERNAL_SERVER_ERROR,
        }
    }

    /// The body a failure is answered with.
    pub open spec fn message(self) -> Seq<char> {
        match self {
            FailureView::Unauthenticated => "API Key is invalid"@,
            FailureView::UnsupportedMediaType(_) => "This route only accepts images"@,
            FailureView::PayloadTooLarge => "File is too big. Max size is 1GiB."@,
            FailureView::AlreadyExists(id) => "This file already exists with an id of "@ + id,
            FailureView::NotFound => Seq::<char>::empty(),
            FailureView::InternalError(msg) => msg,
        }
    }
}

/// An error of the operating system's I/O; carried through, never looked
/// into.
#[verifier::external_type_specification]
#[verifier::external_body]
pub struct ExIoError(std::io::Error);

/// What went wrong in the database, as far as the service tells faults
/// apart.
#[derive(Debug)]
pub enum StoreFault {
    /// A query that needs a row found none.
    RowNotFound,
    /// Anything else; carries the driver's own words.
    Other(String),
}

/// The `Display` of `std::io::Error`. Nothing is claimed of the text.
#[verifier::external_body]
fn io_error_text(e: &std::io::Error) -> (text: String) {
    e.to_string()
}

impl Failure {
    /// The failure that a database fault amounts to: a missing row is
    /// `NotFound`, anything else an internal error with the driver's words.
    pub fn from_fault(fault: StoreFault) -> (f: Failure)
        ensures
            f@ == match fault {
                StoreFault::RowNotFound => FailureView::NotFound,
                StoreFault::Other(text) => FailureView::InternalError(text@),
            },
    {
        match fault {
            StoreFault::RowNotFound => Failure::NotFound,
            StoreFault::Other(text) => Failure::InternalError(text),
        }
    }

    /// The failure that an I/O error amounts to: always an internal error.
    pub fn from_io(e: &std::io::Error) -> (f: Failure)
        ensures
            f@ is InternalError,
    {
        Failure::InternalError(io_error_text(e))
    }

    /// The failure to report when inserting a record failed: where the
    /// content's hash has an id by now, another upload of the same bytes
    /// won, and the answer is `AlreadyExists` with that id; otherwise the
    /// fault itself.
    pub fn after_failed_insert(existing: Option<String>, fault: Failure) -> (f: Failure)
        ensures
            f@ == match existing {
                Some(id) => FailureView::AlreadyExists(id@),
                None => fault@,
            },
    {
        match existing {
            Some(id) => Failure::AlreadyExists(id),
            None => fault,
        }
    }

    /// The error sent to the client for this failure: the status code of its
    /// class and a message; a duplicate's message ends with the id that the
    /// content already has, and an unknown id is answered with an empty body.
    pub fn to_error(&self) -> (e: Error)
        ensures
            e.code_spec() == self@.code(),
            e.msg_spec() == self@.message(),
            self@ is Unauthenticated <==> e is Unauthorized,
            self@ is NotFound <==> e is NotFound,
            self@ is InternalError <==> e is InternalServerError,
            !(e is BadRequest),
    {
        match self {
            Failure::Unauthenticated => Error::Unauthorized(String::from_str("API Key is invalid")),
            Failure::UnsupportedMediaType(_) => Error::Custom(
                BAD_REQUEST,
                String::from_str("This route only accepts images"),
            ),
            Failure::PayloadTooLarge => Error::Custom(
                BAD_REQUEST,
                String::from_str("File is too big. Max size is 1GiB."),
            ),
            Failure::AlreadyExists(id) => Error::Custom(
                BAD_REQUEST,
                String::from_str("This file already exists with an id of ").concat(id.as_str()),
            ),
            Failure::NotFound => Error::NotFound(String::new()),
            Failure::InternalError(msg) => Error::InternalServerError(msg.clone()),
        }
    }
}

} // verus!
