//! Failures of the operations, and the record through which the host learns
//! of them.

use vstd::prelude::*;
use vstd::string::*;
use vstd::utf8::*;

use crate::memory::{Buffer, BufferView};

verus! {

/// A failure of an operation.
#[derive(Debug)]
pub enum Error {
    /// A required argument is missing: it is absent, null or of length zero.
    EmptyArg { name: String },
    /// Bytes that should be text are not valid UTF-8.
    InvalidUtf8 { msg: String },
    /// A checksum does not have the length of a digest.
    ChecksumFormat,
    /// The engine stopped with a fault instead of an answer.
    Panic,
    /// The engine answered with an error of its own, described by `msg`.
    VmErr { msg: String },
}

/// The value of an [`Error`]: its kind, and its texts as character sequences.
#[verifier::ext_equal]
pub enum ErrorView {
    EmptyArg { name: Seq<char> },
    InvalidUtf8 { msg: Seq<char> },
    ChecksumFormat,
    Panic,
    VmErr { msg: Seq<char> },
}

impl View for Error {
    type V = ErrorView;

    open spec fn view(&self) -> ErrorView {
        match *self {
            Error::EmptyArg { name } => ErrorView::EmptyArg { name: name@ },
            Error::InvalidUtf8 { msg } => ErrorView::InvalidUtf8 { msg: msg@ },
            Error::ChecksumFormat => ErrorView::ChecksumFormat,
            Error::Panic => ErrorView::Panic,
            Error::VmErr { msg } => ErrorView::VmErr { msg: msg@ },
        }
    }
}

impl ErrorView {
    /// The message that describes the failure to the host.
    pub open spec fn message(self) -> Seq<char> {
        match self {
            ErrorView::EmptyArg { name } => "Null/Empty argument: "@ + name,
            ErrorView::InvalidUtf8 { msg } => "Cannot decode UTF8 bytes into string: "@ + msg,
            ErrorView::ChecksumFormat => "Checksum not of length 32"@,
            ErrorView::Panic => "Caught panic"@,
            ErrorView::VmErr { msg } => "Error calling the VM: "@ + msg,
        }
    }

    /// What the error record holds once the failure is reported: an owned
    /// buffer with the message in UTF-8.
    pub open spec fn record(self) -> BufferView {
        BufferView::Owned(encode_utf8(self.message()))
    }
}

/// The view of a result whose error is an [`Error`].
pub open spec fn result_view<V>(result: Result<V, Error>) -> Result<V, ErrorView> {
    match result {
        Ok(value) => Ok(value),
        Err(error) => Err(error@),
    }
}

impl Error {
    /// The failure that the argument called `name` is missing.
    pub fn empty_arg(name: &str) -> (error: Error)
        ensures
            error@ == (ErrorView::EmptyArg { name: name@ }),
    {
        Error::EmptyArg { name: String::from_str(name) }
    }

    /// The failure that bytes are not valid UTF-8, as `msg` describes.
    pub fn invalid_utf8(msg: String) -> (error: Error)
        ensures
            error@ == (ErrorView::InvalidUtf8 { msg: msg@ }),
    {
        Error::InvalidUtf8 { msg }
    }

    /// The failure that a checksum has the wrong length.
    pub fn checksum_format() -> (error: Error)
        ensures
            error@ == ErrorView::ChecksumFormat,
    {
        Error::ChecksumFormat
    }

    /// The failure that stands for a fault inside the engine. It says nothing
    /// of the cause.
    pub fn panic() -> (error: Error)
        ensures
            error@ == ErrorView::Panic,
    {
        Error::Panic
    }

    /// The failure that the engine reported with the text `msg`.
    pub fn vm_err(msg: String) -> (error: Error)
        ensures
            error@ == (ErrorView::VmErr { msg: msg@ }),
    {
        Error::VmErr { msg }
    }

    /// The message that describes the failure to the host.
    pub fn message(&self) -> (text: String)
        ensures
            text@ == self@.message(),
    {
        match self {
            Error::EmptyArg { name } => {
                let mut text = String::from_str("Null/Empty argument: ");
                text.append(name.as_str());
                text
            },
            Error::InvalidUtf8 { msg } => {
                let mut text = String::from_str("Cannot decode UTF8 bytes into string: ");
                text.append(msg.as_str());
                text
            },
            Error::ChecksumFormat => String::from_str("Checksum not of length 32"),
            Error::Panic => String::from_str("Caught panic"),
            Error::VmErr { msg } => {
                let mut text = String::from_str("Error calling the VM: ");
                text.append(msg.as_str());
                text
            },
        }
    }
}

/// Reports a failure: where the host gave an error record, it receives the
/// message as an owned buffer; where it gave none, the message is dropped.
pub fn set_error(error: Error, record: Option<&mut Buffer>)
    ensures
        record matches Some(buffer) ==> final(buffer)@ == error@.record(),
{
    match record {
        Some(buffer) => {
            let text = error.message();
            *buffer = Buffer::from_vec(text.as_str().as_bytes_vec());
        },
        None => {},
    }
}

/// Reports success: an error record that the host gave is left without
/// content, whatever it held before.
pub fn clear_error(record: Option<&mut Buffer>)
    ensures
        record matches Some(buffer) ==> final(buffer)@ == BufferView::Absent,
{
    match record {
        Some(buffer) => {
            *buffer = Buffer::Absent;
        },
        None => {},
    }
}

/// Turns the result of an operation into the bytes for the host and the state
/// of the error record: on success the bytes and a cleared record, on failure
/// no bytes and the reported failure.
pub fn handle_c_error(result: Result<Vec<u8>, Error>, record: Option<&mut Buffer>) -> (data: Vec<u8>)
    ensures
        match result {
            Ok(bytes) => data == bytes && (record matches Some(buffer) ==> final(buffer)@
                == BufferView::Absent),
            Err(error) => data@.len() == 0 && (record matches Some(buffer) ==> final(buffer)@
                == error@.record()),
        },
{
    match result {
        Ok(bytes) => {
            clear_error(record);
            bytes
        },
        Err(error) => {
            set_error(error, record);
            Vec::new()
        },
    }
}

/// The UTF-8 encoding of a text that is not empty is not empty.
pub proof fn lemma_encoding_of_text_is_not_empty(text: Seq<char>)
    requires
        text.len() > 0,
    ensures
        encode_utf8(text).len() > 0,
{
    assert(encode_scalar(text[0] as u32).len() > 0);
}

/// Every failure has a message, so a reported failure never leaves the error
/// record vacant.
pub proof fn lemma_record_of_failure_is_not_vacant(error: ErrorView)
    ensures
        error.message().len() > 0,
        error.record() is Owned,
        !error.record().is_vacant(),
{
    reveal_strlit("Null/Empty argument: ");
    reveal_strlit("Cannot decode UTF8 bytes into string: ");
    reveal_strlit("Checksum not of length 32");
    reveal_strlit("Caught panic");
    reveal_strlit("Error calling the VM: ");
    lemma_encoding_of_text_is_not_empty(error.message());
}

} // verus!
