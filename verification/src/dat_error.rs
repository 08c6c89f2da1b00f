//! The error type shared by every fallible operation of the library.
use vstd::prelude::*;
use vstd::string::*;

verus! {

/// What went wrong while decoding, encoding or editing a DAT container. Each
/// variant carries a fixed description of the condition.
#[derive(Debug)]
pub enum DATError {
    /// Bytes that must be UTF-8 text are not.
    BadEncoding(&'static str),
    /// The header is not that of a binary DAT container.
    BadHeader(&'static str),
    /// A size or a count exceeds its maximum.
    Overflow(&'static str),
    /// Data is shorter than declared or required.
    Underflow(&'static str),
    /// The content ended where more bytes were expected.
    EndOfFile(&'static str),
    /// The backing store could not carry out an operation.
    FileIO(&'static str),
    /// The operation needs a container of another type.
    IncorrectType(&'static str),
    /// An argument has the wrong shape.
    InvalidInput(&'static str),
}

/// The kinds of error, without their descriptions.
#[derive(Clone, Copy, Debug, PartialEq, Eq, Structural)]
pub enum ErrorKind {
    /// The kind of [`DATError::BadEncoding`].
    BadEncoding,
    /// The kind of [`DATError::BadHeader`].
    BadHeader,
    /// The kind of [`DATError::Overflow`].
    Overflow,
    /// The kind of [`DATError::Underflow`].
    Underflow,
    /// The kind of [`DATError::EndOfFile`].
    EndOfFile,
    /// The kind of [`DATError::FileIO`].
    FileIO,
    /// The kind of [`DATError::IncorrectType`].
    IncorrectType,
    /// The kind of [`DATError::InvalidInput`].
    InvalidInput,
}

/// Whether a result is an error of the given kind.
pub open spec fn fails_with<T>(result: Result<T, DATError>, kind: ErrorKind) -> bool {
    result matches Err(err) && err.spec_kind() == kind
}

/// Whether a result ends as foreseen: with an error of the kind that is
/// given, or well where none is given.
pub open spec fn ends_as<T>(result: Result<T, DATError>, refusal: Option<ErrorKind>) -> bool {
    match refusal {
        Some(kind) => fails_with(result, kind),
        None => result is Ok,
    }
}

impl DATError {
    /// The kind of the error.
    pub open spec fn spec_kind(&self) -> ErrorKind {
        match *self {
            DATError::BadEncoding(_) => ErrorKind::BadEncoding,
            DATError::BadHeader(_) => ErrorKind::BadHeader,
            DATError::Overflow(_) => ErrorKind::Overflow,
            DATError::Underflow(_) => ErrorKind::Underflow,
            DATError::EndOfFile(_) => ErrorKind::EndOfFile,
            DATError::FileIO(_) => ErrorKind::FileIO,
            DATError::IncorrectType(_) => ErrorKind::IncorrectType,
            DATError::InvalidInput(_) => ErrorKind::InvalidInput,
        }
    }

    /// The kind of the error.
    #[verifier::when_used_as_spec(spec_kind)]
    pub fn kind(&self) -> (kind: ErrorKind)
        ensures
            kind == self.spec_kind(),
    {
        match self {
            DATError::BadEncoding(_) => ErrorKind::BadEncoding,
            DATError::BadHeader(_) => ErrorKind::BadHeader,
            DATError::Overflow(_) => ErrorKind::Overflow,
            DATError::Underflow(_) => ErrorKind::Underflow,
            DATError::EndOfFile(_) => ErrorKind::EndOfFile,
            DATError::FileIO(_) => ErrorKind::FileIO,
            DATError::IncorrectType(_) => ErrorKind::IncorrectType,
            DATError::InvalidInput(_) => ErrorKind::InvalidInput,
        }
    }

    /// The description carried by the error.
    pub open spec fn detail(self) -> &'static str {
        match self {
            DATError::BadEncoding(d) => d,
            DATError::BadHeader(d) => d,
            DATError::Overflow(d) => d,
            DATError::Underflow(d) => d,
            DATError::EndOfFile(d) => d,
            DATError::FileIO(d) => d,
            DATError::IncorrectType(d) => d,
            DATError::InvalidInput(d) => d,
        }
    }

    /// The fixed text that introduces each kind of error in a message.
    pub open spec fn heading(self) -> &'static str {
        match self {
            DATError::BadEncoding(_) => "Invalid text encoding: ",
            DATError::BadHeader(_) => "Invalid header data: ",
            DATError::Overflow(_) => "Content overflow: ",
            DATError::Underflow(_) => "Content underflow: ",
            DATError::EndOfFile(_) => "Unexpected EOF: ",
            DATError::FileIO(_) => "File IO error: ",
            DATError::IncorrectType(_) => "Incorrect DAT file type: ",
            DATError::InvalidInput(_) => "Invalid input: ",
        }
    }

    /// The message for a person: the heading of the kind, then the description.
    pub fn to_string(&self) -> (text: String)
        ensures
            text@ == self.heading()@ + self.detail()@,
    {
        let (heading, detail): (&'static str, &'static str) = match self {
            DATError::BadEncoding(d) => ("Invalid text encoding: ", *d),
            DATError::BadHeader(d) => ("Invalid header data: ", *d),
            DATError::Overflow(d) => ("Content overflow: ", *d),
            DATError::Underflow(d) => ("Content underflow: ", *d),
            DATError::EndOfFile(d) => ("Unexpected EOF: ", *d),
            DATError::FileIO(d) => ("File IO error: ", *d),
            DATError::IncorrectType(d) => ("Incorrect DAT file type: ", *d),
            DATError::InvalidInput(d) => ("Invalid input: ", *d),
        };
        let mut text = String::from_str(heading);
        text.append(detail);
        text
    }
}

} // verus!
