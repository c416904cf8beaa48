use vstd::prelude::*;
use vstd::utf8::valid_utf8;
use crate::error::FsError;
use crate::metadata::{FilesEntry, StaticLsEntry, StaticMetadata};
use crate::path::{
    Store, map_path, root_path, spec_store_of, spec_trim_slash, store_marker, strip_segment,
    trim_slash, FsKind, lookup_fs,
};
use crate::write::WriteOnlyDavFile;

verus! {

/// How a file is to be opened.
#[derive(Clone, Copy, Debug, PartialEq, Eq, Structural)]
pub struct OpenOptions {
    pub read: bool,
    pub write: bool,
    pub append: bool,
    pub truncate: bool,
    pub create: bool,
    pub create_new: bool,
}

/// A call on the mutable tree.
#[derive(Clone, Debug)]
pub enum TreeCall {
    Mkdir { path: Vec<u8>, parents: bool },
    Remove { path: Vec<u8>, recursive: bool },
    Move { from: Vec<u8>, to: Vec<u8> },
    Copy { from: Vec<u8>, to: Vec<u8> },
}

/// What opening a path of the mutable tree gives.
pub enum MfsOpen {
    /// A write handle, made without any remote call.
    Write(WriteOnlyDavFile),
    /// Stat this path, then read it with `ReadOnlyDavFile::new_mfs`.
    Read(Vec<u8>),
}

/// The filesystem over the mutable tree; every path here is relative to `/mfs`.
#[derive(Clone, Copy, Debug)]
pub struct MfsFs {}

/// The source of a rename or copy as the tree knows it, and whether the
/// call is a move; `Err` where the source cannot be used.
pub open spec fn spec_transfer_source(from: Seq<u8>, rename: bool) -> Result<(Seq<u8>, bool), FsError> {
    if from == root_path() {
        Err(FsError::Forbidden)
    } else {
        match spec_store_of(from) {
            Some(Store::Mfs) => {
                let sub = strip_segment(store_marker(Store::Mfs), from);
                if valid_utf8(sub) {
                    Ok((spec_trim_slash(sub), rename))
                } else {
                    Err(FsError::GeneralFailure)
                }
            },
            Some(_) => if valid_utf8(from) {
                Ok((spec_trim_slash(from), false))
            } else {
                Err(FsError::GeneralFailure)
            },
            None => Err(FsError::Forbidden),
        }
    }
}

pub open spec fn transfer_matches(from: Seq<u8>, to: Seq<u8>, rename: bool, r: Result<TreeCall, FsError>) -> bool {
    match spec_transfer_source(from, rename) {
        Err(e) => r == Err::<TreeCall, FsError>(e),
        Ok((src, is_move)) => if !valid_utf8(to) {
            r == Err::<TreeCall, FsError>(FsError::GeneralFailure)
        } else if is_move {
            r matches Ok(TreeCall::Move { from: f, to: t }) && f@ == src && t@ == to
        } else {
            r matches Ok(TreeCall::Copy { from: f, to: t }) && f@ == src && t@ == to
        },
    }
}

impl MfsFs {
    /// A write handle for `path` when writing (creating for either create
    /// flag), else the path to stat before reading.
    pub fn open(&self, path: &[u8], options: OpenOptions) -> (r: Result<MfsOpen, FsError>)
        ensures
            !valid_utf8(path@) ==> r matches Err(FsError::GeneralFailure),
            valid_utf8(path@) && options.write ==> (r matches Ok(MfsOpen::Write(w)) && w.spec_path()
                == path@ && w.spec_create() == (options.create || options.create_new)
                && w.spec_truncate() == options.truncate && !w.spec_piping() && w.spec_len() == 0
                && w.spec_seek() is None),
            valid_utf8(path@) && !options.write ==> (r matches Ok(MfsOpen::Read(p)) && p@ == path@),
    {
        let p = map_path(path)?;
        if options.write {
            Ok(MfsOpen::Write(WriteOnlyDavFile::new(p, options.create || options.create_new, options.truncate)))
        } else {
            Ok(MfsOpen::Read(p))
        }
    }

    /// The path whose long listing gives the entries of `path`.
    pub fn read_dir(&self, path: &[u8]) -> (r: Result<Vec<u8>, FsError>)
        ensures
            valid_utf8(path@) ==> r is Ok && r->Ok_0@ == path@,
            !valid_utf8(path@) ==> r == Err::<Vec<u8>, FsError>(FsError::GeneralFailure),
    {
        map_path(path)
    }

    /// The path whose stat gives the metadata of `path`.
    pub fn metadata(&self, path: &[u8]) -> (r: Result<Vec<u8>, FsError>)
        ensures
            valid_utf8(path@) ==> r is Ok && r->Ok_0@ == path@,
            !valid_utf8(path@) ==> r == Err::<Vec<u8>, FsError>(FsError::GeneralFailure),
    {
        map_path(path)
    }

    pub fn create_dir(&self, path: &[u8]) -> (r: Result<TreeCall, FsError>)
        ensures
            valid_utf8(path@) ==> (r matches Ok(TreeCall::Mkdir { path: p, parents }) && p@ == path@
                && !parents),
            !valid_utf8(path@) ==> r == Err::<TreeCall, FsError>(FsError::GeneralFailure),
    {
        let p = map_path(path)?;
        Ok(TreeCall::Mkdir { path: p, parents: false })
    }

    pub fn remove_dir(&self, path: &[u8]) -> (r: Result<TreeCall, FsError>)
        ensures
            valid_utf8(path@) ==> (r matches Ok(TreeCall::Remove { path: p, recursive }) && p@ == path@
                && recursive),
            !valid_utf8(path@) ==> r == Err::<TreeCall, FsError>(FsError::GeneralFailure),
    {
        let p = map_path(path)?;
        Ok(TreeCall::Remove { path: p, recursive: true })
    }

    pub fn remove_file(&self, path: &[u8]) -> (r: Result<TreeCall, FsError>)
        ensures
            valid_utf8(path@) ==> (r matches Ok(TreeCall::Remove { path: p, recursive }) && p@ == path@
                && !recursive),
            !valid_utf8(path@) ==> r == Err::<TreeCall, FsError>(FsError::GeneralFailure),
    {
        let p = map_path(path)?;
        Ok(TreeCall::Remove { path: p, recursive: false })
    }

    fn transfer(&self, from: &[u8], to: &[u8], rename: bool) -> (r: Result<TreeCall, FsError>)
        ensures
            transfer_matches(from@, to@, rename, r),
    {
        let (src, is_move) = match lookup_fs(from) {
            FsKind::Root => return Err(FsError::Forbidden),
            FsKind::Provided(Store::Mfs, sub) => (trim_slash(map_path(sub.as_slice())?), rename),
            FsKind::Provided(_, _) => (trim_slash(map_path(from)?), false),
            FsKind::Unknown => return Err(FsError::Forbidden),
        };
        let dst = map_path(to)?;
        if is_move {
            Ok(TreeCall::Move { from: src, to: dst })
        } else {
            Ok(TreeCall::Copy { from: src, to: dst })
        }
    }

    /// `from` is the full path, with its collection; `to` is relative to
    /// `/mfs`. A source in the mutable tree is moved; a content-addressed
    /// source can only be copied into the tree.
    pub fn rename(&self, from: &[u8], to: &[u8]) -> (r: Result<TreeCall, FsError>)
        ensures
            transfer_matches(from@, to@, true, r),
    {
        self.transfer(from, to, true)
    }

    /// As `rename`, but the source is always copied.
    pub fn copy(&self, from: &[u8], to: &[u8]) -> (r: Result<TreeCall, FsError>)
        ensures
            transfer_matches(from@, to@, false, r),
    {
        self.transfer(from, to, false)
    }

    /// The entries of a long listing.
    pub fn list_entries(rows: Vec<FilesEntry>) -> (r: Vec<StaticLsEntry>)
        ensures
            r@.len() == rows@.len(),
            forall|i: int| 0 <= i < rows@.len() ==> {
                &&& #[trigger] r@[i].spec_name() == rows@[i].name@
                &&& r@[i].spec_metadata() == (StaticMetadata {
                    len: rows@[i].size,
                    is_dir: rows@[i].typ == 1,
                    is_unixfs: true,
                })
            },
    {
        let mut out: Vec<StaticLsEntry> = Vec::new();
        let mut i: usize = 0;
        while i < rows.len()
            invariant
                i <= rows@.len(),
                out@.len() == i,
                forall|j: int| 0 <= j < i ==> {
                    &&& #[trigger] out@[j].spec_name() == rows@[j].name@
                    &&& out@[j].spec_metadata() == (StaticMetadata {
                        len: rows@[j].size,
                        is_dir: rows@[j].typ == 1,
                        is_unixfs: true,
                    })
                },
            decreases rows@.len() - i,
        {
            let row = FilesEntry { name: rows[i].name.clone(), size: rows[i].size, typ: rows[i].typ };
            out.push(StaticLsEntry::from_files_entry(row));
            i = i + 1;
        }
        out
    }
}

} // verus!
