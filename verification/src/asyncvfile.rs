//! A blocking byte reader offered as the body of a response: the headers it
//! is sent with, and what one poll of it does with the outcome of one read.

use vstd::prelude::*;
use vstd::slice::slice_subrange;
use crate::http::{header_views, Header};
use crate::text::{decimal, decimal_string};

verus! {

/// Makes `std::io::Error` known as a type whose values are carried through
/// without being looked into.
#[verifier::external_type_specification]
#[verifier::external_body]
pub struct ExIoError(std::io::Error);

/// Whether an error of a read says that the call was interrupted before it
/// moved any byte: the kind `Interrupted` of `std::io::Error::kind`.
pub uninterp spec fn is_interruption(error: std::io::Error) -> bool;

/// Calls `std::io::Error::kind` and tells whether the kind is
/// `ErrorKind::Interrupted`, the one kind after which the standard library
/// asks the caller to read again.
#[verifier::external_body]
fn interrupted(error: &std::io::Error) -> (r: bool)
    ensures
        r == is_interruption(*error),
{
    error.kind() == std::io::ErrorKind::Interrupted
}

/// A reader of type `R` on its way out as a response body, with the name and
/// size of the file it reads where they are known.
pub struct AsyncVFile<R> {
    pub file: R,
    pub info: Option<(String, u64)>,
}

/// What a poll does after one read into the scratch buffer.
pub enum PollStep<'a> {
    /// Hand these bytes to the caller and report the poll as ready. No
    /// bytes at all mean the end of the body.
    Ready(&'a [u8]),
    /// Read again with a fresh scratch buffer.
    Retry,
    /// Report the poll as ready with this error.
    Fail(std::io::Error),
}

/// Media type of a body of raw bytes.
pub open spec fn binary_content_type() -> (Seq<char>, Seq<char>) {
    ("Content-Type"@, "application/octet-stream"@)
}

/// The header that asks a browser to save the body under `name`.
pub open spec fn content_disposition(name: Seq<char>) -> (Seq<char>, Seq<char>) {
    ("Content-Disposition"@, "attachment; filename=\""@ + name + "\""@)
}

/// The header that announces a body of `size` bytes.
pub open spec fn content_length(size: u64) -> (Seq<char>, Seq<char>) {
    ("Content-Length"@, decimal(size as nat))
}

/// The headers of a streamed body: the media type always and, where name
/// and size are known, the disposition and the length after it.
pub open spec fn stream_headers(info: Option<(String, u64)>) -> Seq<(Seq<char>, Seq<char>)> {
    match info {
        Some((name, size)) => seq![
            binary_content_type(),
            content_disposition(name@),
            content_length(size),
        ],
        None => seq![binary_content_type()],
    }
}

impl<R> AsyncVFile<R> {
    /// Wraps `file`; `info` is the name and size of what it reads.
    pub fn new(file: R, info: Option<(String, u64)>) -> (stream: AsyncVFile<R>)
        ensures
            stream.file == file,
            stream.info == info,
    {
        AsyncVFile { file, info }
    }

    /// The headers to send before the body. With name and size the client
    /// is told both; without them the body goes out with its media type
    /// alone, in chunks of unknown total length.
    pub fn headers(&self) -> (headers: Vec<Header>)
        ensures
            header_views(headers@) == stream_headers(self.info),
    {
        let mut headers: Vec<Header> = Vec::new();
        headers.push(Header::new("Content-Type", "application/octet-stream"));
        match &self.info {
            Some(info) => {
                let disposition = "attachment; filename=\"".to_owned().concat(
                    info.0.as_str(),
                ).concat("\"");
                headers.push(
                    Header { name: "Content-Disposition".to_owned(), value: disposition },
                );
                let length = decimal_string(info.1);
                headers.push(Header { name: "Content-Length".to_owned(), value: length });
            },
            None => {},
        }
        assert(header_views(headers@) =~= stream_headers(self.info));
        headers
    }

    /// One step of a poll. `scratch` is the buffer that was handed to the
    /// reader, as long as the room the caller has left, and `outcome` is
    /// what the read returned. A read of `n` bytes makes the poll ready
    /// with the first `n` bytes of `scratch`; an interrupted read is tried
    /// again; every other error ends the poll with that error.
    pub fn poll_read<'a>(&self, scratch: &'a [u8], outcome: Result<usize, std::io::Error>) -> (step:
        PollStep<'a>)
        requires
            outcome is Ok ==> outcome->Ok_0 <= scratch@.len(),
        ensures
            match outcome {
                Ok(n) => step is Ready && step->Ready_0@ == scratch@.take(n as int),
                Err(error) => if is_interruption(error) {
                    step is Retry
                } else {
                    step == PollStep::Fail(error)
                },
            },
    {
        match outcome {
            Ok(n) => {
                let read = slice_subrange(scratch, 0, n);
                assert(read@ =~= scratch@.take(n as int));
                PollStep::Ready(read)
            },
            Err(error) => {
                if interrupted(&error) {
                    PollStep::Retry
                } else {
                    PollStep::Fail(error)
                }
            },
        }
    }
}

} // verus!
