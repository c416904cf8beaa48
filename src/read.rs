use vstd::prelude::*;
use crate::error::{FsError, RemoteError, handle_error, spec_handle_error};
use crate::metadata::StaticMetadata;

verus! {

/// Parameters of a content read of a structured object.
#[derive(Clone, Debug)]
pub struct Cat {
    pub path: Vec<u8>,
    pub offset: Option<i64>,
    pub length: Option<i64>,
}

/// Parameters of a raw block read.
#[derive(Clone, Debug)]
pub struct BlockGet {
    pub hash: Vec<u8>,
    pub offset: Option<i64>,
    pub length: Option<i64>,
}

/// The byte stream a read handle asks to open.
#[derive(Clone, Debug)]
pub enum StreamRequest {
    Cat(Cat),
    BlockGet(BlockGet),
    /// A ranged read of the mutable tree.
    FilesRead { path: Vec<u8>, offset: Option<i64> },
}

/// Which backing store a read handle reads from.
#[derive(Clone, Copy, Debug, PartialEq, Eq, Structural)]
pub enum ReadSource {
    Mfs,
    Ipfs,
}

/// A seek target; only start-relative targets are supported.
#[derive(Clone, Copy, Debug, PartialEq, Eq, Structural)]
pub enum SeekFrom {
    Start(u64),
    End(i64),
    Current(i64),
}

/// `b` cut after `count` bytes: what is handed out, and what is kept.
pub open spec fn split_chunk(b: Seq<u8>, count: nat) -> (Seq<u8>, Option<Seq<u8>>) {
    if count < b.len() {
        (b.subrange(0, count as int), Some(b.subrange(count as int, b.len() as int)))
    } else {
        (b, None)
    }
}

/// The stream a handle over `path` opens, starting at `offset`.
pub open spec fn spec_stream_request(
    source: ReadSource,
    meta: StaticMetadata,
    path: Seq<u8>,
    offset: Option<i64>,
    r: StreamRequest,
) -> bool {
    match source {
        ReadSource::Mfs => r matches StreamRequest::FilesRead { path: p, offset: o } && p@ == path
            && o == offset,
        ReadSource::Ipfs => if meta.is_unixfs {
            r matches StreamRequest::Cat(c) && c.path@ == path && c.offset == offset && c.length
                is None
        } else {
            r matches StreamRequest::BlockGet(c) && c.hash@ == path && c.offset == offset
                && c.length is None
        },
    }
}

fn split_vec(b: Vec<u8>, count: usize) -> (r: (Vec<u8>, Option<Vec<u8>>))
    ensures
        r.0@ == split_chunk(b@, count as nat).0,
        r.1 is Some <==> split_chunk(b@, count as nat).1 is Some,
        r.1 is Some ==> r.1->0@ == split_chunk(b@, count as nat).1->0,
{
    let mut head = b;
    if count < head.len() {
        let tail = head.split_off(count);
        (head, Some(tail))
    } else {
        (head, None)
    }
}

/// A read-only handle: opens its byte stream lazily, keeps what a read did
/// not hand out, and drops both on a seek.
pub struct ReadOnlyDavFile {
    path: Vec<u8>,
    metadata: StaticMetadata,
    source: ReadSource,
    seek: Option<i64>,
    stream_open: bool,
    rest: Option<Vec<u8>>,
}

impl ReadOnlyDavFile {
    pub closed spec fn spec_path(&self) -> Seq<u8> {
        self.path@
    }

    pub closed spec fn spec_metadata(&self) -> StaticMetadata {
        self.metadata
    }

    pub closed spec fn spec_source(&self) -> ReadSource {
        self.source
    }

    /// The offset the next stream starts at, set by the last seek.
    pub closed spec fn spec_seek(&self) -> Option<i64> {
        self.seek
    }

    pub closed spec fn spec_stream_open(&self) -> bool {
        self.stream_open
    }

    /// The bytes of the last chunk that no read has handed out yet.
    pub closed spec fn spec_rest(&self) -> Option<Seq<u8>> {
        match self.rest {
            Some(b) => Some(b@),
            None => None,
        }
    }

    pub open spec fn is_fresh(&self, path: Seq<u8>, meta: StaticMetadata, source: ReadSource) -> bool {
        &&& self.spec_path() == path
        &&& self.spec_metadata() == meta
        &&& self.spec_source() == source
        &&& self.spec_seek() is None
        &&& !self.spec_stream_open()
        &&& self.spec_rest() is None
    }

    fn new(path: Vec<u8>, metadata: StaticMetadata, source: ReadSource) -> (r: Self)
        ensures
            r.is_fresh(path@, metadata, source),
    {
        ReadOnlyDavFile { path, metadata, source, seek: None, stream_open: false, rest: None }
    }

    /// A handle over a file of the mutable tree.
    pub fn new_mfs(path: Vec<u8>, metadata: StaticMetadata) -> (r: Self)
        ensures
            r.is_fresh(path@, metadata, ReadSource::Mfs),
    {
        Self::new(path, metadata, ReadSource::Mfs)
    }

    /// A handle over a content-addressed object.
    pub fn new_ipfs(path: Vec<u8>, metadata: StaticMetadata) -> (r: Self)
        ensures
            r.is_fresh(path@, metadata, ReadSource::Ipfs),
    {
        Self::new(path, metadata, ReadSource::Ipfs)
    }

    /// The metadata taken when the handle was opened.
    pub fn metadata(&self) -> (r: StaticMetadata)
        ensures
            r == self.spec_metadata(),
    {
        self.metadata
    }

    pub fn write_bytes(&mut self, buf: Vec<u8>) -> (r: Result<(), FsError>)
        ensures
            r == Err::<(), FsError>(FsError::NotImplemented),
            *final(self) == *old(self),
    {
        Err(FsError::NotImplemented)
    }

    pub fn write_buf(&mut self, buf: Vec<u8>) -> (r: Result<(), FsError>)
        ensures
            r == Err::<(), FsError>(FsError::NotImplemented),
            *final(self) == *old(self),
    {
        Err(FsError::NotImplemented)
    }

    /// First step of a read of up to `count` bytes: served from what the last
    /// chunk left over, if anything is left. `None` means a chunk must be
    /// pulled from the stream and handed to `on_chunk`.
    pub fn read_bytes(&mut self, count: usize) -> (r: Option<Vec<u8>>)
        ensures
            old(self).spec_rest() is None ==> r is None && *final(self) == *old(self),
            old(self).spec_rest() is Some ==> {
                let s = split_chunk(old(self).spec_rest()->0, count as nat);
                &&& r is Some
                &&& r->0@ == s.0
                &&& final(self).spec_rest() == s.1
            },
            final(self).spec_path() == old(self).spec_path(),
            final(self).spec_metadata() == old(self).spec_metadata(),
            final(self).spec_source() == old(self).spec_source(),
            final(self).spec_seek() == old(self).spec_seek(),
            final(self).spec_stream_open() == old(self).spec_stream_open(),
    {
        match self.rest.take() {
            None => None,
            Some(b) => {
                let (head, tail) = split_vec(b, count);
                self.rest = tail;
                Some(head)
            },
        }
    }

    /// The stream to open before a chunk is pulled, if none is open yet;
    /// the handle counts it as open from now on.
    pub fn stream_request(&mut self) -> (r: Option<StreamRequest>)
        ensures
            old(self).spec_stream_open() ==> r is None,
            !old(self).spec_stream_open() ==> r is Some && spec_stream_request(
                old(self).spec_source(),
                old(self).spec_metadata(),
                old(self).spec_path(),
                old(self).spec_seek(),
                r->0,
            ),
            final(self).spec_stream_open(),
            final(self).spec_path() == old(self).spec_path(),
            final(self).spec_metadata() == old(self).spec_metadata(),
            final(self).spec_source() == old(self).spec_source(),
            final(self).spec_seek() == old(self).spec_seek(),
            final(self).spec_rest() == old(self).spec_rest(),
    {
        if self.stream_open {
            return None;
        }
        self.stream_open = true;
        let path = self.path.clone();
        let offset = self.seek;
        match self.source {
            ReadSource::Mfs => Some(StreamRequest::FilesRead { path, offset }),
            ReadSource::Ipfs => if self.metadata.is_unixfs {
                Some(StreamRequest::Cat(Cat { path, offset, length: None }))
            } else {
                Some(StreamRequest::BlockGet(BlockGet { hash: path, offset, length: None }))
            },
        }
    }

    /// Second step of a read of up to `count` bytes, with what the stream
    /// gave: a chunk, a failure, or its end. The end of the stream is a
    /// failure too: callers stop reading at the object's size.
    pub fn on_chunk(&mut self, count: usize, next: Option<Result<Vec<u8>, RemoteError>>) -> (r:
        Result<Vec<u8>, FsError>)
        requires
            old(self).spec_rest() is None,
        ensures
            next is None ==> r == Err::<Vec<u8>, FsError>(FsError::GeneralFailure),
            next matches Some(Err(e)) ==> r == Err::<Vec<u8>, FsError>(spec_handle_error(e)),
            next matches Some(Ok(b)) ==> {
                let s = split_chunk(b@, count as nat);
                &&& r is Ok
                &&& r->Ok_0@ == s.0
                &&& final(self).spec_rest() == s.1
            },
            !(next matches Some(Ok(_))) ==> final(self).spec_rest() is None,
            final(self).spec_path() == old(self).spec_path(),
            final(self).spec_metadata() == old(self).spec_metadata(),
            final(self).spec_source() == old(self).spec_source(),
            final(self).spec_seek() == old(self).spec_seek(),
            final(self).spec_stream_open() == old(self).spec_stream_open(),
    {
        match next {
            None => Err(FsError::GeneralFailure),
            Some(Err(e)) => Err(handle_error(&e)),
            Some(Ok(b)) => {
                let (head, tail) = split_vec(b, count);
                self.rest = tail;
                Ok(head)
            },
        }
    }

    /// Moves to an absolute offset: the open stream and the kept bytes are
    /// dropped and the next stream starts there. Other targets are refused.
    pub fn seek(&mut self, pos: SeekFrom) -> (r: Result<u64, FsError>)
        requires
            pos matches SeekFrom::Start(k) ==> k <= i64::MAX,
        ensures
            pos matches SeekFrom::Start(k) ==> {
                &&& r == Ok::<u64, FsError>(k)
                &&& final(self).spec_seek() == Some(k as i64)
                &&& !final(self).spec_stream_open()
                &&& final(self).spec_rest() is None
                &&& final(self).spec_path() == old(self).spec_path()
                &&& final(self).spec_metadata() == old(self).spec_metadata()
                &&& final(self).spec_source() == old(self).spec_source()
            },
            !(pos is Start) ==> r == Err::<u64, FsError>(FsError::NotImplemented) && *final(self)
                == *old(self),
    {
        match pos {
            SeekFrom::Start(k) => {
                self.seek = Some(k as i64);
                self.stream_open = false;
                self.rest = None;
                Ok(k)
            },
            _ => Err(FsError::NotImplemented),
        }
    }

    /// Nothing is buffered for output: always succeeds.
    pub fn flush(&mut self) -> (r: Result<(), FsError>)
        ensures
            r is Ok,
            *final(self) == *old(self),
    {
        Ok(())
    }
}

} // verus!
