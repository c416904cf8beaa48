use vstd::prelude::*;
use vstd::utf8::valid_utf8;
use crate::error::FsError;
use crate::ipfs_fs::{IpfsFs, IpfsListing, StatPlan, view_store};
use crate::metadata::{IpfsOrIpns, StaticLsEntry, StaticMetadata, dir_meta, root_entries};
use crate::mfs::{MfsFs, MfsOpen, OpenOptions, TreeCall, transfer_matches};
use crate::path::{FsKind, Store, lookup_fs, root_path, spec_store_of, store_marker, strip_segment};
use crate::write::WriteOnlyDavFile;

verus! {

/// What opening a path gives.
pub enum OpenPlan {
    /// A write handle on the mutable tree.
    Write(WriteOnlyDavFile),
    /// Stat this path of the mutable tree, then read it.
    ReadMfs(Vec<u8>),
    /// Fetch and decode the object at this path, then read it.
    ReadIpfs(Vec<u8>),
}

/// How the entries of a directory are found.
pub enum ListPlan {
    /// The entries of the root, known without any call.
    Root(Vec<StaticLsEntry>),
    /// The long listing of this path of the mutable tree.
    Mfs(Vec<u8>),
    /// A listing in one content-addressed view.
    Ipfs(IpfsFs, IpfsListing),
}

/// The whole filesystem: a synthetic root over the three collections.
#[derive(Clone, Copy, Debug)]
pub struct RootFs {
    pub mfs: MfsFs,
    pub ipfs: IpfsFs,
    pub ipns: IpfsFs,
}

/// The path inside its collection.
pub open spec fn sub_path(path: Seq<u8>) -> Seq<u8> {
    strip_segment(store_marker(spec_store_of(path)->0), path)
}

pub open spec fn is_unknown(path: Seq<u8>) -> bool {
    path != root_path() && spec_store_of(path) is None
}

pub open spec fn in_view(path: Seq<u8>) -> bool {
    spec_store_of(path) == Some(Store::Ipfs) || spec_store_of(path) == Some(Store::Ipns)
}

/// The outcome of a rename (or copy) from `from` to `to`: the destination
/// must lie in the mutable tree, which then judges the source.
pub open spec fn routed_transfer(from: Seq<u8>, to: Seq<u8>, rename: bool, r: Result<TreeCall, FsError>) -> bool {
    if spec_store_of(to) == Some(Store::Mfs) {
        transfer_matches(from, sub_path(to), rename, r)
    } else {
        r == Err::<TreeCall, FsError>(FsError::Forbidden)
    }
}

impl RootFs {
    pub open spec fn wf(&self) -> bool {
        self.ipfs.ty == IpfsOrIpns::Ipfs && self.ipns.ty == IpfsOrIpns::Ipns
    }

    pub fn new() -> (r: RootFs)
        ensures
            r.wf(),
    {
        RootFs {
            mfs: MfsFs {},
            ipfs: IpfsFs { ty: IpfsOrIpns::Ipfs },
            ipns: IpfsFs { ty: IpfsOrIpns::Ipns },
        }
    }

    fn view(&self, s: Store) -> (r: IpfsFs)
        requires
            self.wf(),
            s != Store::Mfs,
        ensures
            view_store(r.ty) == s,
    {
        match s {
            Store::Ipns => self.ipns,
            _ => self.ipfs,
        }
    }

    /// The root is no file and an unknown collection has nothing.
    pub fn open(&self, path: &[u8], options: OpenOptions) -> (r: Result<OpenPlan, FsError>)
        requires
            self.wf(),
        ensures
            path@ == root_path() ==> r matches Err(FsError::Forbidden),
            is_unknown(path@) ==> r matches Err(FsError::NotFound),
            spec_store_of(path@) is Some && !valid_utf8(sub_path(path@)) ==> r matches Err(
                FsError::GeneralFailure,
            ) || (in_view(path@) && r matches Err(FsError::Forbidden)),
            spec_store_of(path@) == Some(Store::Mfs) && valid_utf8(sub_path(path@)) ==> if options.write {
                r matches Ok(OpenPlan::Write(w)) && w.spec_path() == sub_path(path@)
                    && w.spec_create() == (options.create || options.create_new)
                    && w.spec_truncate() == options.truncate && !w.spec_piping() && w.spec_len()
                    == 0 && w.spec_seek() is None
            } else {
                r matches Ok(OpenPlan::ReadMfs(p)) && p@ == sub_path(path@)
            },
            in_view(path@) ==> if sub_path(path@) == root_path() || options.write {
                r matches Err(FsError::Forbidden)
            } else if valid_utf8(sub_path(path@)) {
                r matches Ok(OpenPlan::ReadIpfs(p)) && p@ == store_marker(spec_store_of(path@)->0)
                    + sub_path(path@)
            } else {
                r matches Err(FsError::GeneralFailure)
            },
    {
        match lookup_fs(path) {
            FsKind::Root => Err(FsError::Forbidden),
            FsKind::Unknown => Err(FsError::NotFound),
            FsKind::Provided(Store::Mfs, sub) => match self.mfs.open(sub.as_slice(), options) {
                Ok(MfsOpen::Write(w)) => Ok(OpenPlan::Write(w)),
                Ok(MfsOpen::Read(p)) => Ok(OpenPlan::ReadMfs(p)),
                Err(e) => Err(e),
            },
            FsKind::Provided(s, sub) => {
                let p = self.view(s).open(sub.as_slice(), options)?;
                Ok(OpenPlan::ReadIpfs(p))
            },
        }
    }

    /// The root lists the three collections; others delegate.
    pub fn read_dir(&self, path: &[u8]) -> (r: Result<ListPlan, FsError>)
        requires
            self.wf(),
        ensures
            path@ == root_path() ==> (r matches Ok(ListPlan::Root(v)) && v@.len() == 3
                && v@[0].spec_name() == "mfs"@ && v@[1].spec_name() == "ipfs"@ && v@[2].spec_name()
                == "ipns"@ && forall|i: int| 0 <= i < 3 ==> #[trigger] v@[i].spec_metadata()
                == dir_meta()),
            is_unknown(path@) ==> r matches Err(FsError::NotFound),
            spec_store_of(path@) is Some && !valid_utf8(sub_path(path@)) && sub_path(path@)
                != root_path() ==> r matches Err(FsError::GeneralFailure),
            spec_store_of(path@) == Some(Store::Mfs) && valid_utf8(sub_path(path@)) ==> (r matches Ok(
                ListPlan::Mfs(p),
            ) && p@ == sub_path(path@)),
            spec_store_of(path@) == Some(Store::Ipfs) && sub_path(path@) == root_path() ==> (r matches Ok(
                ListPlan::Ipfs(fs, IpfsListing::Pins),
            ) && fs.ty == IpfsOrIpns::Ipfs),
            spec_store_of(path@) == Some(Store::Ipns) && sub_path(path@) == root_path() ==> (r matches Ok(
                ListPlan::Ipfs(fs, IpfsListing::Keys),
            ) && fs.ty == IpfsOrIpns::Ipns),
            in_view(path@) && sub_path(path@) != root_path() && valid_utf8(sub_path(path@)) ==> (r matches Ok(
                ListPlan::Ipfs(fs, IpfsListing::Ls(p)),
            ) && view_store(fs.ty) == spec_store_of(path@)->0 && p@ == store_marker(
                spec_store_of(path@)->0,
            ) + sub_path(path@)),
    {
        match lookup_fs(path) {
            FsKind::Root => Ok(ListPlan::Root(root_entries())),
            FsKind::Unknown => Err(FsError::NotFound),
            FsKind::Provided(Store::Mfs, sub) => {
                let p = self.mfs.read_dir(sub.as_slice())?;
                Ok(ListPlan::Mfs(p))
            },
            FsKind::Provided(s, sub) => {
                let fs = self.view(s);
                let l = fs.read_dir(sub.as_slice())?;
                Ok(ListPlan::Ipfs(fs, l))
            },
        }
    }

    /// The root is a directory; others delegate.
    pub fn metadata(&self, path: &[u8]) -> (r: Result<StatPlan, FsError>)
        requires
            self.wf(),
        ensures
            path@ == root_path() ==> (r matches Ok(StatPlan::Known(m)) && m == dir_meta()),
            is_unknown(path@) ==> r matches Err(FsError::NotFound),
            spec_store_of(path@) is Some && !valid_utf8(sub_path(path@)) && sub_path(path@)
                != root_path() ==> r matches Err(FsError::GeneralFailure),
            spec_store_of(path@) == Some(Store::Mfs) && valid_utf8(sub_path(path@)) ==> (r matches Ok(
                StatPlan::Mfs(p),
            ) && p@ == sub_path(path@)),
            in_view(path@) && sub_path(path@) == root_path() ==> (r matches Ok(StatPlan::Known(m))
                && m == dir_meta()),
            in_view(path@) && sub_path(path@) != root_path() && valid_utf8(sub_path(path@)) ==> (r matches Ok(
                StatPlan::Ipfs(p),
            ) && p@ == store_marker(spec_store_of(path@)->0) + sub_path(path@)),
    {
        match lookup_fs(path) {
            FsKind::Root => Ok(StatPlan::Known(StaticMetadata::new_dir())),
            FsKind::Unknown => Err(FsError::NotFound),
            FsKind::Provided(Store::Mfs, sub) => {
                let p = self.mfs.metadata(sub.as_slice())?;
                Ok(StatPlan::Mfs(p))
            },
            FsKind::Provided(s, sub) => self.view(s).metadata(sub.as_slice()),
        }
    }

    /// Symbolic links do not exist here: the same as `metadata`.
    pub fn symlink_metadata(&self, path: &[u8]) -> (r: Result<StatPlan, FsError>)
        requires
            self.wf(),
        ensures
            path@ == root_path() ==> (r matches Ok(StatPlan::Known(m)) && m == dir_meta()),
            is_unknown(path@) ==> r matches Err(FsError::NotFound),
            spec_store_of(path@) is Some && !valid_utf8(sub_path(path@)) && sub_path(path@)
                != root_path() ==> r matches Err(FsError::GeneralFailure),
            spec_store_of(path@) == Some(Store::Mfs) && valid_utf8(sub_path(path@)) ==> (r matches Ok(
                StatPlan::Mfs(p),
            ) && p@ == sub_path(path@)),
            in_view(path@) && sub_path(path@) == root_path() ==> (r matches Ok(StatPlan::Known(m))
                && m == dir_meta()),
            in_view(path@) && sub_path(path@) != root_path() && valid_utf8(sub_path(path@)) ==> (r matches Ok(
                StatPlan::Ipfs(p),
            ) && p@ == store_marker(spec_store_of(path@)->0) + sub_path(path@)),
    {
        self.metadata(path)
    }

    pub fn create_dir(&self, path: &[u8]) -> (r: Result<TreeCall, FsError>)
        ensures
            spec_store_of(path@) != Some(Store::Mfs) ==> r matches Err(FsError::Forbidden),
            spec_store_of(path@) == Some(Store::Mfs) ==> if valid_utf8(sub_path(path@)) {
                r matches Ok(TreeCall::Mkdir { path: p, parents }) && p@ == sub_path(path@) && !parents
            } else {
                r matches Err(FsError::GeneralFailure)
            },
    {
        match lookup_fs(path) {
            FsKind::Provided(Store::Mfs, sub) => self.mfs.create_dir(sub.as_slice()),
            _ => Err(FsError::Forbidden),
        }
    }

    pub fn remove_dir(&self, path: &[u8]) -> (r: Result<TreeCall, FsError>)
        ensures
            spec_store_of(path@) != Some(Store::Mfs) ==> r matches Err(FsError::Forbidden),
            spec_store_of(path@) == Some(Store::Mfs) ==> if valid_utf8(sub_path(path@)) {
                r matches Ok(TreeCall::Remove { path: p, recursive }) && p@ == sub_path(path@) && recursive
            } else {
                r matches Err(FsError::GeneralFailure)
            },
    {
        match lookup_fs(path) {
            FsKind::Provided(Store::Mfs, sub) => self.mfs.remove_dir(sub.as_slice()),
            _ => Err(FsError::Forbidden),
        }
    }

    pub fn remove_file(&self, path: &[u8]) -> (r: Result<TreeCall, FsError>)
        ensures
            spec_store_of(path@) != Some(Store::Mfs) ==> r matches Err(FsError::Forbidden),
            spec_store_of(path@) == Some(Store::Mfs) ==> if valid_utf8(sub_path(path@)) {
                r matches Ok(TreeCall::Remove { path: p, recursive }) && p@ == sub_path(path@) && !recursive
            } else {
                r matches Err(FsError::GeneralFailure)
            },
    {
        match lookup_fs(path) {
            FsKind::Provided(Store::Mfs, sub) => self.mfs.remove_file(sub.as_slice()),
            _ => Err(FsError::Forbidden),
        }
    }

    /// The destination picks the collection, and only the mutable tree
    /// renames; the source goes to it whole.
    pub fn rename(&self, from: &[u8], to: &[u8]) -> (r: Result<TreeCall, FsError>)
        ensures
            routed_transfer(from@, to@, true, r),
    {
        match lookup_fs(to) {
            FsKind::Provided(Store::Mfs, next) => self.mfs.rename(from, next.as_slice()),
            _ => Err(FsError::Forbidden),
        }
    }

    /// As `rename`, for a copy.
    pub fn copy(&self, from: &[u8], to: &[u8]) -> (r: Result<TreeCall, FsError>)
        ensures
            routed_transfer(from@, to@, false, r),
    {
        match lookup_fs(to) {
            FsKind::Provided(Store::Mfs, next) => self.mfs.copy(from, next.as_slice()),
            _ => Err(FsError::Forbidden),
        }
    }

    /// Changing times or properties: refused at the root, in unknown places
    /// and in the read-only views; not provided by the mutable tree.
    pub fn set_attribute(&self, path: &[u8]) -> (r: FsError)
        ensures
            spec_store_of(path@) == Some(Store::Mfs) ==> r == FsError::NotImplemented,
            spec_store_of(path@) != Some(Store::Mfs) ==> r == FsError::Forbidden,
    {
        match lookup_fs(path) {
            FsKind::Provided(Store::Mfs, _) => FsError::NotImplemented,
            FsKind::Provided(_, _) => self.ipfs.mutate(path),
            _ => FsError::Forbidden,
        }
    }

    pub fn set_accessed(&self, path: &[u8]) -> (r: FsError)
        ensures
            spec_store_of(path@) == Some(Store::Mfs) ==> r == FsError::NotImplemented,
            spec_store_of(path@) != Some(Store::Mfs) ==> r == FsError::Forbidden,
    {
        self.set_attribute(path)
    }

    pub fn set_modified(&self, path: &[u8]) -> (r: FsError)
        ensures
            spec_store_of(path@) == Some(Store::Mfs) ==> r == FsError::NotImplemented,
            spec_store_of(path@) != Some(Store::Mfs) ==> r == FsError::Forbidden,
    {
        self.set_attribute(path)
    }

    pub fn patch_props(&self, path: &[u8]) -> (r: FsError)
        ensures
            spec_store_of(path@) == Some(Store::Mfs) ==> r == FsError::NotImplemented,
            spec_store_of(path@) != Some(Store::Mfs) ==> r == FsError::Forbidden,
    {
        self.set_attribute(path)
    }

    /// Reading properties: none are stored anywhere.
    pub fn get_props(&self, path: &[u8]) -> (r: FsError)
        ensures
            spec_store_of(path@) is Some ==> r == FsError::NotImplemented,
            spec_store_of(path@) is None ==> r == FsError::Forbidden,
    {
        match lookup_fs(path) {
            FsKind::Provided(_, _) => FsError::NotImplemented,
            _ => FsError::Forbidden,
        }
    }

    pub fn get_prop(&self, path: &[u8]) -> (r: FsError)
        ensures
            spec_store_of(path@) is Some ==> r == FsError::NotImplemented,
            spec_store_of(path@) is None ==> r == FsError::Forbidden,
    {
        self.get_props(path)
    }

    /// No path has properties.
    pub fn have_props(&self, path: &[u8]) -> (r: bool)
        ensures
            !r,
    {
        false
    }
}

} // verus!
