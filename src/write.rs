use vstd::prelude::*;
use crate::error::{FsError, RemoteError, handle_error, spec_handle_error};
use crate::metadata::{StaticMetadata, file_meta};
use crate::read::SeekFrom;

verus! {

/// The parameters of one write call on the mutable tree.
#[derive(Clone, Debug)]
pub struct UploadParams {
    pub path: Vec<u8>,
    pub create: bool,
    pub truncate: bool,
    pub offset: Option<i64>,
}

/// What a write asks of its caller: on the first write, start the upload
/// task with `start` fed by a channel of capacity one; then, on every write,
/// send `chunk` into that channel.
#[derive(Clone, Debug)]
pub struct WriteStep {
    pub start: Option<UploadParams>,
    pub chunk: Vec<u8>,
}

/// What a flush asks of its caller.
#[derive(Clone, Debug)]
pub enum FlushAction {
    /// Nothing was ever written: one direct write with an empty body.
    EmptyWrite(UploadParams),
    /// Close the channel, then wait for the upload task.
    Join,
    /// Nothing is left to do.
    Done,
}

/// How the upload task ended.
#[derive(Debug)]
pub enum TaskOutcome {
    Cancelled,
    Panicked,
    Finished(Result<(), RemoteError>),
}

pub open spec fn params_are(p: UploadParams, path: Seq<u8>, create: bool, truncate: bool, offset: Option<i64>) -> bool {
    p.path@ == path && p.create == create && p.truncate == truncate && p.offset == offset
}

/// A write-only handle over a path of the mutable tree. The first write
/// starts one upload whose body is every chunk written, in order.
pub struct WriteOnlyDavFile {
    path: Vec<u8>,
    create: bool,
    truncate: bool,
    /// The channel and the upload task exist, always together.
    piping: bool,
    len: u64,
    seek: Option<i64>,
    /// The bytes sent into the current upload.
    body: Ghost<Seq<u8>>,
}

impl WriteOnlyDavFile {
    pub closed spec fn spec_path(&self) -> Seq<u8> {
        self.path@
    }

    pub closed spec fn spec_create(&self) -> bool {
        self.create
    }

    pub closed spec fn spec_truncate(&self) -> bool {
        self.truncate
    }

    pub closed spec fn spec_piping(&self) -> bool {
        self.piping
    }

    /// Bytes written through this handle so far.
    pub closed spec fn spec_len(&self) -> u64 {
        self.len
    }

    pub closed spec fn spec_seek(&self) -> Option<i64> {
        self.seek
    }

    pub closed spec fn spec_body(&self) -> Seq<u8> {
        self.body@
    }

    pub open spec fn same_target(&self, o: &Self) -> bool {
        &&& self.spec_path() == o.spec_path()
        &&& self.spec_create() == o.spec_create()
        &&& self.spec_truncate() == o.spec_truncate()
    }

    pub fn new(path: Vec<u8>, create: bool, truncate: bool) -> (r: Self)
        ensures
            r.spec_path() == path@,
            r.spec_create() == create,
            r.spec_truncate() == truncate,
            !r.spec_piping(),
            r.spec_len() == 0,
            r.spec_seek() is None,
            r.spec_body() == Seq::<u8>::empty(),
    {
        WriteOnlyDavFile {
            path,
            create,
            truncate,
            piping: false,
            len: 0,
            seek: None,
            body: Ghost(Seq::empty()),
        }
    }

    /// The offset set by a seek, if any.
    pub fn offset(&self) -> (r: Option<i64>)
        ensures
            r == self.spec_seek(),
    {
        self.seek
    }

    /// A file whose length is what has been written so far.
    pub fn metadata(&self) -> (r: StaticMetadata)
        ensures
            r == file_meta(self.spec_len()),
    {
        StaticMetadata::new_file(self.len)
    }

    pub fn write_buf(&mut self, buf: Vec<u8>) -> (r: Result<(), FsError>)
        ensures
            r == Err::<(), FsError>(FsError::NotImplemented),
            *final(self) == *old(self),
    {
        Err(FsError::NotImplemented)
    }

    pub fn read_bytes(&mut self, count: usize) -> (r: Result<Vec<u8>, FsError>)
        ensures
            r == Err::<Vec<u8>, FsError>(FsError::NotImplemented),
            *final(self) == *old(self),
    {
        Err(FsError::NotImplemented)
    }

    /// Counts `buf` and hands it on to the upload, which the first write
    /// starts with the offset set so far.
    pub fn write_bytes(&mut self, buf: Vec<u8>) -> (r: WriteStep)
        requires
            old(self).spec_len() + buf@.len() <= u64::MAX,
        ensures
            final(self).same_target(old(self)),
            final(self).spec_seek() == old(self).spec_seek(),
            final(self).spec_len() == old(self).spec_len() + buf@.len(),
            final(self).spec_piping(),
            r.chunk@ == buf@,
            old(self).spec_piping() ==> r.start is None && final(self).spec_body() == old(self).spec_body() + buf@,
            !old(self).spec_piping() ==> r.start is Some && params_are(
                r.start->0,
                old(self).spec_path(),
                old(self).spec_create(),
                old(self).spec_truncate(),
                old(self).spec_seek(),
            ) && final(self).spec_body() == buf@,
    {
        self.len = self.len + buf.len() as u64;
        let start = if self.piping {
            None
        } else {
            self.piping = true;
            self.body = Ghost(Seq::empty());
            Some(
                UploadParams {
                    path: self.path.clone(),
                    create: self.create,
                    truncate: self.truncate,
                    offset: self.seek,
                },
            )
        };
        self.body = Ghost(self.body@ + buf@);
        WriteStep { start, chunk: buf }
    }

    /// Sets the offset at which the upload writes. Allowed once; only
    /// absolute offsets are supported.
    pub fn seek(&mut self, pos: SeekFrom) -> (r: Result<u64, FsError>)
        requires
            old(self).spec_seek() is None,
            pos matches SeekFrom::Start(k) ==> k <= i64::MAX,
        ensures
            pos matches SeekFrom::Start(k) ==> r == Ok::<u64, FsError>(k) && final(self).spec_seek()
                == Some(k as i64),
            !(pos is Start) ==> r == Err::<u64, FsError>(FsError::NotImplemented) && final(self).spec_seek() is None,
            final(self).same_target(old(self)),
            final(self).spec_len() == old(self).spec_len(),
            final(self).spec_piping() == old(self).spec_piping(),
            final(self).spec_body() == old(self).spec_body(),
    {
        match pos {
            SeekFrom::Start(k) => {
                self.seek = Some(k as i64);
                Ok(k)
            },
            _ => Err(FsError::NotImplemented),
        }
    }

    /// Completes the write: an explicit empty write when nothing was ever
    /// written, else the end of the upload.
    pub fn flush(&mut self) -> (r: FlushAction)
        ensures
            !old(self).spec_piping() && old(self).spec_len() == 0 ==> (r matches FlushAction::EmptyWrite(p)
                && params_are(p, old(self).spec_path(), old(self).spec_create(), old(self).spec_truncate(), None)),
            old(self).spec_piping() ==> r is Join,
            !old(self).spec_piping() && old(self).spec_len() != 0 ==> r is Done,
            !final(self).spec_piping(),
            final(self).same_target(old(self)),
            final(self).spec_len() == old(self).spec_len(),
            final(self).spec_seek() == old(self).spec_seek(),
            final(self).spec_body() == old(self).spec_body(),
    {
        if !self.piping && self.len == 0 {
            FlushAction::EmptyWrite(
                UploadParams {
                    path: self.path.clone(),
                    create: self.create,
                    truncate: self.truncate,
                    offset: None,
                },
            )
        } else if self.piping {
            self.piping = false;
            FlushAction::Join
        } else {
            FlushAction::Done
        }
    }
}

/// The result of a write whose chunk the channel did or did not take.
pub fn send_result(delivered: bool) -> (r: Result<(), FsError>)
    ensures
        delivered ==> r is Ok,
        !delivered ==> r == Err::<(), FsError>(FsError::GeneralFailure),
{
    if delivered {
        Ok(())
    } else {
        Err(FsError::GeneralFailure)
    }
}

/// The result of a flush from how the upload task ended: a task that did
/// not run to its end is a general failure, a failed upload is mapped.
pub fn finish_flush(outcome: TaskOutcome) -> (r: Result<(), FsError>)
    ensures
        outcome is Cancelled || outcome is Panicked ==> r == Err::<(), FsError>(
            FsError::GeneralFailure,
        ),
        outcome matches TaskOutcome::Finished(Ok(())) ==> r is Ok,
        outcome matches TaskOutcome::Finished(Err(e)) ==> r == Err::<(), FsError>(
            spec_handle_error(e),
        ),
{
    match outcome {
        TaskOutcome::Cancelled => Err(FsError::GeneralFailure),
        TaskOutcome::Panicked => Err(FsError::GeneralFailure),
        TaskOutcome::Finished(Ok(())) => Ok(()),
        TaskOutcome::Finished(Err(e)) => Err(handle_error(&e)),
    }
}

} // verus!
