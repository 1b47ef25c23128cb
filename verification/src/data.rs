//! Bytes in and out: downloads of a node's data, ranged reads of it, and
//! uploads into the upload directory.

use vstd::prelude::*;
use vstd::slice::slice_subrange;
use crate::asyncvfile::AsyncVFile;
use crate::http::{BadRequest, Rejection, BAD_REQUEST};
use crate::node::NodeId;

verus! {

/// Most bytes that one upload may bring: 4 GiB.
pub const UPLOAD_LIMIT: u64 = 4_294_967_296;

/// A node id as the two fields of a query string, for download links that
/// cannot carry a body.
#[derive(Debug, Clone, Copy, PartialEq, Eq, Structural)]
pub struct FromNodeId {
    pub index1: usize,
    pub stamp: usize,
}

/// A request for a range of a node's data.
#[derive(Debug, Clone, Copy, PartialEq, Eq)]
pub struct ReadInfo {
    pub node_id: NodeId,
    pub offset: u64,
    pub size: u64,
}

/// How to prepare a reader for a ranged read: where to move it first, if
/// anywhere, and after how many bytes to stop it.
#[derive(Debug, Clone, Copy, PartialEq, Eq)]
pub struct ReadPlan {
    pub seek: Option<u64>,
    pub limit: u64,
}

/// What stands behind a node id whose data is asked for. `R` is the reader
/// that the data was opened as; the one in `Opened` is ready to be sent,
/// which for a ranged read means moved and capped as the plan says.
pub enum DataSource<R> {
    /// The tree holds no node of the id.
    NoNode,
    /// The node has no attribute `data`.
    NoData,
    /// The data could not be opened, or the reader not moved; with the
    /// text of the error.
    Unreadable(String),
    /// The data is open; `name` is the node's name and `size` the length
    /// of all its data.
    Opened { name: String, size: u64, file: R },
}

/// The answer to an upload that went through.
#[derive(Debug, Clone, Copy, PartialEq, Eq, Structural)]
pub struct Uploaded {
    pub written: u64,
}

/// The message for a source that cannot be sent, `None` for one that can.
pub open spec fn refusal<R>(source: DataSource<R>) -> Option<Seq<char>> {
    match source {
        DataSource::NoNode => Some("Invalid NodeId"@),
        DataSource::NoData => Some("No data attribute on node"@),
        DataSource::Unreadable(error) => Some(error@),
        DataSource::Opened { .. } => None,
    }
}

/// The file where an upload named `name` is stored.
pub open spec fn upload_location(upload_dir: Seq<char>, name: Seq<char>) -> Seq<char> {
    upload_dir + "/"@ + name
}

impl FromNodeId {
    /// The node id that the two fields spell.
    pub fn node_id(&self) -> (id: NodeId)
        ensures
            id == (NodeId { index1: self.index1, stamp: self.stamp }),
    {
        NodeId { index1: self.index1, stamp: self.stamp }
    }
}

impl ReadInfo {
    /// The plan of the request: the reader is moved only for an offset
    /// other than zero, and always capped at the size.
    pub open spec fn planned(self) -> ReadPlan {
        ReadPlan {
            seek: if self.offset != 0 {
                Some(self.offset)
            } else {
                None
            },
            limit: self.size,
        }
    }

    /// How to prepare the reader for this request.
    pub fn plan(&self) -> (plan: ReadPlan)
        ensures
            plan == self.planned(),
    {
        let seek = if self.offset != 0 {
            Some(self.offset)
        } else {
            None
        };
        ReadPlan { seek, limit: self.size }
    }
}

impl ReadPlan {
    /// Where the reader stands in data of `len` bytes before the first
    /// read. A reader moved past the end stands at the end.
    pub open spec fn start(self, len: nat) -> nat {
        match self.seek {
            Some(offset) => if offset < len {
                offset as nat
            } else {
                len
            },
            None => 0,
        }
    }

    /// Where the reader prepared by the plan stops in data of `len` bytes.
    pub open spec fn end(self, len: nat) -> nat {
        if self.start(len) + self.limit < len {
            self.start(len) + self.limit as nat
        } else {
            len
        }
    }

    /// The bytes that a reader prepared by the plan yields from `data`.
    pub open spec fn bytes(self, data: Seq<u8>) -> Seq<u8> {
        data.subrange(self.start(data.len()) as int, self.end(data.len()) as int)
    }

    /// Carries the plan out on data held in memory.
    pub fn slice<'a>(&self, data: &'a [u8]) -> (part: &'a [u8])
        ensures
            part@ == self.bytes(data@),
    {
        let len = data.len();
        let start: usize = match self.seek {
            Some(offset) => if offset < len as u64 {
                offset as usize
            } else {
                len
            },
            None => 0,
        };
        let room: usize = len - start;
        let count: usize = if self.limit < room as u64 {
            self.limit as usize
        } else {
            room
        };
        slice_subrange(data, start, start + count)
    }
}

/// The answer to a download. Data that was opened is streamed under the
/// node's name and with its size; everything else is refused with status
/// 400 and the message of `refusal`.
pub fn download<R>(source: DataSource<R>) -> (answer: Result<AsyncVFile<R>, BadRequest>)
    ensures
        match source {
            DataSource::Opened { name, size, file } => answer is Ok && answer->Ok_0.file == file
                && answer->Ok_0.info == Some((name, size)),
            _ => answer is Err && Some(answer->Err_0@) == refusal(source),
        },
{
    match source {
        DataSource::NoNode => Err(BadRequest::new("Invalid NodeId")),
        DataSource::NoData => Err(BadRequest::new("No data attribute on node")),
        DataSource::Unreadable(error) => Err(BadRequest { message: error }),
        DataSource::Opened { name, size, file } => Ok(AsyncVFile::new(file, Some((name, size)))),
    }
}

/// The answer to a download by link, once the key of the link was found
/// good: that of `download`, with the status of a refusal spelled out.
pub fn download_id<R>(source: DataSource<R>) -> (answer: Result<AsyncVFile<R>, Rejection>)
    ensures
        match source {
            DataSource::Opened { name, size, file } => answer is Ok && answer->Ok_0.file == file
                && answer->Ok_0.info == Some((name, size)),
            _ => answer is Err && answer->Err_0.status == BAD_REQUEST && Some(
                answer->Err_0.message@,
            ) == refusal(source),
        },
{
    match download(source) {
        Ok(stream) => Ok(stream),
        Err(error) => Err(Rejection::bad_request(error)),
    }
}

/// The answer to a ranged read. The reader of the source was prepared as
/// the request's plan says; it is streamed without a name or a length,
/// since the range may end before `size` bytes. Everything else is refused
/// as a download is.
pub fn read<R>(source: DataSource<R>) -> (answer: Result<AsyncVFile<R>, BadRequest>)
    ensures
        match source {
            DataSource::Opened { name, size, file } => answer is Ok && answer->Ok_0.file == file
                && answer->Ok_0.info is None,
            _ => answer is Err && Some(answer->Err_0@) == refusal(source),
        },
{
    match source {
        DataSource::NoNode => Err(BadRequest::new("Invalid NodeId")),
        DataSource::NoData => Err(BadRequest::new("No data attribute on node")),
        DataSource::Unreadable(error) => Err(BadRequest { message: error }),
        DataSource::Opened { name, size, file } => Ok(AsyncVFile::new(file, None)),
    }
}

/// The file that an upload named `name` is written to: the name below the
/// upload directory. The name is taken as it is: uploads are for clients
/// that are trusted with the file system.
pub fn upload_path(upload_dir: &str, name: &str) -> (path: String)
    ensures
        path@ == upload_location(upload_dir@, name@),
{
    upload_dir.to_owned().concat("/").concat(name)
}

/// The answer to an upload. `outcome` is the number of bytes written and
/// whether the whole body fit under the limit, or the text of the error
/// that stopped the transfer. Only a complete upload is acknowledged.
pub fn upload(outcome: Result<(u64, bool), String>) -> (answer: Result<Uploaded, BadRequest>)
    ensures
        match outcome {
            Ok((written, complete)) => if complete {
                answer == Ok::<Uploaded, BadRequest>(Uploaded { written })
            } else {
                answer is Err && answer->Err_0@ == "File uploaded is not complete"@
            },
            Err(error) => answer is Err && answer->Err_0.message == error,
        },
{
    match outcome {
        Ok((written, complete)) => {
            if complete {
                Ok(Uploaded { written })
            } else {
                Err(BadRequest::new("File uploaded is not complete"))
            }
        },
        Err(error) => Err(BadRequest { message: error }),
    }
}

/// A read of `size` bytes at `offset` returns the bytes of the download
/// from `offset` up to `offset + size`, whenever that range lies within the
/// data.
pub proof fn lemma_read_is_range_of_download(data: Seq<u8>, node_id: NodeId, offset: u64, size: u64)
    requires
        offset + size <= data.len(),
    ensures
        (ReadInfo { node_id, offset, size }).planned().bytes(data) == data.subrange(
            offset as int,
            offset + size,
        ),
{
}

/// A read from the start that asks for as many bytes as the data has
/// returns what a download returns: all of the data.
pub proof fn lemma_full_read_is_download(data: Seq<u8>, node_id: NodeId, size: u64)
    requires
        size == data.len(),
    ensures
        (ReadInfo { node_id, offset: 0, size }).planned().bytes(data) == data,
{
    assert(data.subrange(0, data.len() as int) =~= data);
}

/// A ranged read never returns more bytes than it was asked for, nor bytes
/// from outside the data.
pub proof fn lemma_read_is_bounded(data: Seq<u8>, plan: ReadPlan)
    ensures
        plan.bytes(data).len() <= plan.limit,
        plan.bytes(data).len() <= data.len(),
        plan.start(data.len()) <= plan.end(data.len()) <= data.len(),
{
}

} // verus!
