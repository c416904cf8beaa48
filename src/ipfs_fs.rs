use vstd::prelude::*;
use vstd::utf8::valid_utf8;
use crate::error::FsError;
use crate::metadata::{
    DynamicLsEntry, IpfsFileHeader, IpfsOrIpns, StaticLsEntry, StaticMetadata, dir_meta,
};
use crate::mfs::OpenOptions;
use crate::path::{Store, is_root, root_path, store_marker, to_ipfs_path};

verus! {

/// How the entries of a content-addressed directory are found.
#[derive(Clone, Debug)]
pub enum IpfsListing {
    /// The recursive and then the direct pins, as dynamic entries.
    Pins,
    /// The published keys, as dynamic entries.
    Keys,
    /// The children of the one object listed at this path.
    Ls(Vec<u8>),
}

/// How metadata is found.
#[derive(Clone, Debug)]
pub enum StatPlan {
    Known(StaticMetadata),
    /// Stat this path of the mutable tree.
    Mfs(Vec<u8>),
    /// Fetch and decode the object at this path.
    Ipfs(Vec<u8>),
}

/// A read-only filesystem over one view of the content-addressed store;
/// every path here is relative to the view's collection.
#[derive(Clone, Copy, Debug)]
pub struct IpfsFs {
    pub ty: IpfsOrIpns,
}

pub open spec fn view_store(ty: IpfsOrIpns) -> Store {
    match ty {
        IpfsOrIpns::Ipfs => Store::Ipfs,
        IpfsOrIpns::Ipns => Store::Ipns,
    }
}

pub open spec fn ipfs_path_matches(ty: IpfsOrIpns, path: Seq<u8>, r: Result<Vec<u8>, FsError>) -> bool {
    if valid_utf8(path) {
        r is Ok && r->Ok_0@ == store_marker(view_store(ty)) + path
    } else {
        r == Err::<Vec<u8>, FsError>(FsError::GeneralFailure)
    }
}

impl IpfsFs {
    fn store(&self) -> (r: Store)
        ensures
            r == view_store(self.ty),
    {
        match self.ty {
            IpfsOrIpns::Ipfs => Store::Ipfs,
            IpfsOrIpns::Ipns => Store::Ipns,
        }
    }

    /// The full store path of `path`.
    pub fn to_ipfs_path(&self, path: &[u8]) -> (r: Result<Vec<u8>, FsError>)
        ensures
            ipfs_path_matches(self.ty, path@, r),
    {
        to_ipfs_path(self.store(), path)
    }

    /// The path to stat before reading; the view is never written and its
    /// root is not a file.
    pub fn open(&self, path: &[u8], options: OpenOptions) -> (r: Result<Vec<u8>, FsError>)
        ensures
            path@ == root_path() || options.write ==> r == Err::<Vec<u8>, FsError>(FsError::Forbidden),
            path@ != root_path() && !options.write ==> ipfs_path_matches(self.ty, path@, r),
    {
        if is_root(path) || options.write {
            return Err(FsError::Forbidden);
        }
        self.to_ipfs_path(path)
    }

    /// At the view's root, the enumeration of its identifiers; elsewhere the
    /// listing of the path.
    pub fn read_dir(&self, path: &[u8]) -> (r: Result<IpfsListing, FsError>)
        ensures
            path@ == root_path() && self.ty == IpfsOrIpns::Ipfs ==> r matches Ok(IpfsListing::Pins),
            path@ == root_path() && self.ty == IpfsOrIpns::Ipns ==> r matches Ok(IpfsListing::Keys),
            path@ != root_path() && valid_utf8(path@) ==> (r matches Ok(IpfsListing::Ls(p)) && p@
                == store_marker(view_store(self.ty)) + path@),
            path@ != root_path() && !valid_utf8(path@) ==> r matches Err(FsError::GeneralFailure),
    {
        if is_root(path) {
            return match self.ty {
                IpfsOrIpns::Ipfs => Ok(IpfsListing::Pins),
                IpfsOrIpns::Ipns => Ok(IpfsListing::Keys),
            };
        }
        let p = self.to_ipfs_path(path)?;
        Ok(IpfsListing::Ls(p))
    }

    /// The root of the view is a directory; anything else is fetched.
    pub fn metadata(&self, path: &[u8]) -> (r: Result<StatPlan, FsError>)
        ensures
            path@ == root_path() ==> (r matches Ok(StatPlan::Known(m)) && m == dir_meta()),
            path@ != root_path() && valid_utf8(path@) ==> (r matches Ok(StatPlan::Ipfs(p)) && p@
                == store_marker(view_store(self.ty)) + path@),
            path@ != root_path() && !valid_utf8(path@) ==> r matches Err(FsError::GeneralFailure),
    {
        if is_root(path) {
            return Ok(StatPlan::Known(StaticMetadata::new_dir()));
        }
        let p = self.to_ipfs_path(path)?;
        Ok(StatPlan::Ipfs(p))
    }

    /// The view's root entries, one per identifier, in the order given.
    pub fn identifier_entries(&self, ids: Vec<Vec<u8>>) -> (r: Vec<DynamicLsEntry>)
        ensures
            r@.len() == ids@.len(),
            forall|i: int| 0 <= i < ids@.len() ==> (#[trigger] r@[i]).cid@ == ids@[i]@ && r@[i].ty
                == self.ty,
    {
        let mut out: Vec<DynamicLsEntry> = Vec::new();
        let mut i: usize = 0;
        while i < ids.len()
            invariant
                i <= ids@.len(),
                out@.len() == i,
                forall|j: int| 0 <= j < i ==> (#[trigger] out@[j]).cid@ == ids@[j]@ && out@[j].ty
                    == self.ty,
            decreases ids@.len() - i,
        {
            out.push(DynamicLsEntry { ty: self.ty, cid: ids[i].clone() });
            i = i + 1;
        }
        out
    }

    /// The entries of the pinned view's root: the recursive pins followed by
    /// the direct ones, an identifier in both appearing twice.
    pub fn pin_entries(&self, recursive: Vec<Vec<u8>>, direct: Vec<Vec<u8>>) -> (r: Vec<DynamicLsEntry>)
        requires
            recursive@.len() + direct@.len() <= usize::MAX,
        ensures
            r@.len() == recursive@.len() + direct@.len(),
            forall|i: int| 0 <= i < recursive@.len() ==> (#[trigger] r@[i]).cid@ == recursive@[i]@,
            forall|i: int| 0 <= i < direct@.len() ==> (#[trigger] r@[recursive@.len() + i]).cid@
                == direct@[i]@,
            forall|i: int| 0 <= i < r@.len() ==> (#[trigger] r@[i]).ty == self.ty,
    {
        let mut out = self.identifier_entries(recursive);
        let mut rest = self.identifier_entries(direct);
        let ghost a = out@;
        let ghost b = rest@;
        out.append(&mut rest);
        assert forall|i: int| 0 <= i < b.len() implies (#[trigger] out@[a.len() + i]) == b[i] by {}
        out
    }

    /// The entries of a listing: the children of its first object, or
    /// `NotFound` where it lists no object.
    pub fn ls_entries(objects: Vec<Vec<IpfsFileHeader>>) -> (r: Result<Vec<StaticLsEntry>, FsError>)
        ensures
            objects@.len() == 0 ==> r == Err::<Vec<StaticLsEntry>, FsError>(FsError::NotFound),
            objects@.len() > 0 ==> r is Ok && r->Ok_0@.len() == objects@[0]@.len() && forall|i: int|
                0 <= i < objects@[0]@.len() ==> {
                    &&& #[trigger] r->Ok_0@[i].spec_name() == objects@[0]@[i].name@
                    &&& r->Ok_0@[i].spec_metadata() == (StaticMetadata {
                        len: objects@[0]@[i].size,
                        is_dir: objects@[0]@[i].typ == 1,
                        is_unixfs: true,
                    })
                },
    {
        if objects.len() == 0 {
            return Err(FsError::NotFound);
        }
        let links = &objects[0];
        let mut out: Vec<StaticLsEntry> = Vec::new();
        let mut i: usize = 0;
        while i < links.len()
            invariant
                i <= links@.len(),
                out@.len() == i,
                forall|j: int| 0 <= j < i ==> {
                    &&& #[trigger] out@[j].spec_name() == links@[j].name@
                    &&& out@[j].spec_metadata() == (StaticMetadata {
                        len: links@[j].size,
                        is_dir: links@[j].typ == 1,
                        is_unixfs: true,
                    })
                },
            decreases links@.len() - i,
        {
            let h = IpfsFileHeader { name: links[i].name.clone(), size: links[i].size, typ: links[i].typ };
            out.push(StaticLsEntry::from_ipfs_file_header(h));
            i = i + 1;
        }
        Ok(out)
    }

    /// Creating, removing, renaming, copying and changing times or
    /// properties: this view is read-only.
    pub fn mutate(&self, path: &[u8]) -> (r: FsError)
        ensures
            r == FsError::Forbidden,
    {
        FsError::Forbidden
    }
}

} // verus!
