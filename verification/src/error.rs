//! The failures that end a conversion.

use vstd::prelude::*;
use vstd::string::*;

verus! {

/// Declares the standard library's I/O error, which a failure carries as its
/// cause. Nothing is known of what it holds.
#[verifier::external_type_specification]
#[verifier::external_body]
pub struct ExIoError(std::io::Error);

/// Declares the tokenizer's error, which a failure carries as its cause.
/// Nothing is known of what it holds.
#[verifier::external_type_specification]
#[verifier::external_body]
pub struct ExParseError(rtf_grimoire::tokenizer::ParseError);

/// The three ways a conversion can fail.
#[derive(Clone, Copy, Debug, PartialEq, Eq, Structural)]
pub enum ErrorKind {
    /// The input stream could not be read.
    InputIo,
    /// The output stream could not be written.
    OutputIo,
    /// The token source rejected the input.
    Parse,
}

impl ErrorKind {
    /// The process exit code of this kind of failure.
    pub open spec fn spec_code(self) -> int {
        match self {
            ErrorKind::InputIo => 1,
            ErrorKind::OutputIo => 2,
            ErrorKind::Parse => 3,
        }
    }

    /// The name of this kind of failure.
    pub open spec fn spec_name(self) -> Seq<char> {
        match self {
            ErrorKind::InputIo => "InputIo"@,
            ErrorKind::OutputIo => "OutputIo"@,
            ErrorKind::Parse => "Parse"@,
        }
    }

    /// The process exit code of this kind of failure.
    pub fn code(&self) -> (code: i32)
        ensures
            code == self.spec_code(),
    {
        match self {
            ErrorKind::InputIo => 1,
            ErrorKind::OutputIo => 2,
            ErrorKind::Parse => 3,
        }
    }

    /// The name of this kind of failure.
    pub fn name(&self) -> (name: &'static str)
        ensures
            name@ == self.spec_name(),
    {
        match self {
            ErrorKind::InputIo => "InputIo",
            ErrorKind::OutputIo => "OutputIo",
            ErrorKind::Parse => "Parse",
        }
    }
}

impl From<ErrorKind> for i32 {
    fn from(kind: ErrorKind) -> (code: i32) {
        kind.code()
    }
}

impl vstd::std_specs::convert::FromSpecImpl<ErrorKind> for i32 {
    open spec fn obeys_from_spec() -> bool {
        true
    }

    open spec fn from_spec(kind: ErrorKind) -> i32 {
        match kind {
            ErrorKind::InputIo => 1i32,
            ErrorKind::OutputIo => 2i32,
            ErrorKind::Parse => 3i32,
        }
    }
}

/// What lay underneath a failure.
#[derive(Debug)]
pub enum Cause {
    /// A stream refused a read or a write.
    Io(std::io::Error),
    /// The tokenizer could not make sense of the input.
    Parse(rtf_grimoire::tokenizer::ParseError),
}

/// A failed conversion: its kind, an optional message for the reader, and the
/// underlying cause where one is known.
#[derive(Debug)]
pub struct Error {
    kind: ErrorKind,
    message: Option<String>,
    inner: Option<Cause>,
}

impl Error {
    /// The kind of this failure.
    pub closed spec fn spec_kind(&self) -> ErrorKind {
        self.kind
    }

    /// The message of this failure.
    pub closed spec fn spec_message(&self) -> Option<String> {
        self.message
    }

    /// The cause of this failure.
    pub closed spec fn spec_source(&self) -> Option<Cause> {
        self.inner
    }

    /// The line that describes this failure: the kind's name, the word
    /// `Error:`, and the message after a space where there is one.
    pub open spec fn spec_to_string(&self) -> Seq<char> {
        self.spec_kind().spec_name() + " Error:"@ + match self.spec_message() {
            Some(message) => " "@ + message@,
            None => Seq::<char>::empty(),
        }
    }

    /// A failure of the given kind.
    pub fn new(kind: ErrorKind, message: Option<String>, source: Option<Cause>) -> (error: Error)
        ensures
            error.spec_kind() == kind,
            error.spec_message() == message,
            error.spec_source() == source,
    {
        Error { kind, message, inner: source }
    }

    /// The failure of a read from the input stream.
    pub fn from_input_error(source: std::io::Error) -> (error: Error)
        ensures
            error.spec_kind() == ErrorKind::InputIo,
            error.spec_message() is None,
            error.spec_source() == Some(Cause::Io(source)),
    {
        Error::new(ErrorKind::InputIo, None, Some(Cause::Io(source)))
    }

    /// The failure of a write to the output stream.
    pub fn from_output_error(source: std::io::Error) -> (error: Error)
        ensures
            error.spec_kind() == ErrorKind::OutputIo,
            error.spec_message() is None,
            error.spec_source() == Some(Cause::Io(source)),
    {
        Error::new(ErrorKind::OutputIo, None, Some(Cause::Io(source)))
    }

    /// The failure of the tokenizer on the input.
    pub fn from_parse_error(source: rtf_grimoire::tokenizer::ParseError) -> (error: Error)
        ensures
            error.spec_kind() == ErrorKind::Parse,
            error.spec_message() is None,
            error.spec_source() == Some(Cause::Parse(source)),
    {
        Error::new(ErrorKind::Parse, None, Some(Cause::Parse(source)))
    }

    /// The process exit code of this failure.
    pub fn code(&self) -> (code: i32)
        ensures
            code == self.spec_kind().spec_code(),
    {
        self.kind.code()
    }

    /// The kind of this failure.
    pub fn kind(&self) -> (kind: ErrorKind)
        ensures
            kind == self.spec_kind(),
    {
        self.kind
    }

    /// The message of this failure, if it has one.
    pub fn message(&self) -> (message: &Option<String>)
        ensures
            *message == self.spec_message(),
    {
        &self.message
    }

    /// The cause of this failure, if one is known.
    pub fn source(&self) -> (source: &Option<Cause>)
        ensures
            *source == self.spec_source(),
    {
        &self.inner
    }

    /// The line that describes this failure.
    pub fn to_string(&self) -> (line: String)
        ensures
            line@ == self.spec_to_string(),
    {
        let mut line = String::from_str(self.kind.name());
        line.append(" Error:");
        match &self.message {
            Some(message) => {
                line.append(" ");
                line.append(message.as_str());
            },
            None => {},
        }
        line
    }
}

} // verus!
