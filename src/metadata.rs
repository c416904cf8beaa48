use vstd::prelude::*;
use vstd::string::StringSliceAdditionalSpecFns;
use crate::error::FsError;
use crate::framing::{block_framed, is_block_framed};
use unixfs_v1::UnixFsType as DecodedType;

verus! {

/// Which of the two content-addressed views a handle or entry belongs to.
#[derive(Clone, Copy, Debug, PartialEq, Eq, Structural)]
pub enum IpfsOrIpns {
    Ipns,
    Ipfs,
}

/// Size and kind of an object. Modification time is always the epoch and
/// every object is executable.
#[derive(Clone, Copy, Debug, PartialEq, Eq, Structural)]
pub struct StaticMetadata {
    pub len: u64,
    pub is_dir: bool,
    /// `false` for an opaque blob that is not a structured file or directory.
    pub is_unixfs: bool,
}

/// The type field of a decoded structured object.
#[derive(Clone, Copy, Debug, PartialEq, Eq, Structural)]
pub enum UnixFsType {
    Raw,
    Directory,
    File,
    Metadata,
    Symlink,
    HAMTShard,
}

/// What a successful decode of a structured object yields.
#[derive(Clone, Copy, Debug, PartialEq, Eq, Structural)]
pub struct UnixFsData {
    pub ty: UnixFsType,
    pub filesize: Option<u64>,
}

/// The answer of a stat call on the mutable tree.
#[derive(Clone, Debug)]
pub struct FilesStatResponse {
    pub size: u64,
    /// The type string, `directory` for a directory.
    pub typ: Vec<u8>,
}

/// One row of a long listing of the mutable tree.
#[derive(Clone, Debug)]
pub struct FilesEntry {
    pub name: String,
    pub size: u64,
    /// Type code, 1 for a directory.
    pub typ: i64,
}

/// One child of a content-addressed listing.
#[derive(Clone, Debug)]
pub struct IpfsFileHeader {
    pub name: String,
    pub size: u64,
    /// Type code, 1 for a directory.
    pub typ: u32,
}

pub open spec fn is_dir_type(t: UnixFsType) -> bool {
    t == UnixFsType::Directory || t == UnixFsType::HAMTShard
}

pub open spec fn dir_meta() -> StaticMetadata {
    StaticMetadata { len: 0, is_dir: true, is_unixfs: true }
}

pub open spec fn file_meta(len: u64) -> StaticMetadata {
    StaticMetadata { len, is_dir: false, is_unixfs: true }
}

pub open spec fn blob_meta(len: u64) -> StaticMetadata {
    StaticMetadata { len, is_dir: false, is_unixfs: false }
}

/// Metadata of a content-addressed object from its raw length and the
/// result of decoding it, or `None` where the size field is missing.
pub open spec fn spec_stat_from_block(block_len: nat, decoded: Option<UnixFsData>) -> Result<
    StaticMetadata,
    FsError,
> {
    match decoded {
        None => Ok(blob_meta(block_len as u64)),
        Some(d) => if is_dir_type(d.ty) {
            Ok(dir_meta())
        } else {
            match d.filesize {
                Some(n) => Ok(file_meta(n)),
                None => Err(FsError::GeneralFailure),
            }
        },
    }
}

pub open spec fn directory_type() -> Seq<u8> {
    "directory".spec_bytes()
}

impl StaticMetadata {
    pub fn new_dir() -> (r: StaticMetadata)
        ensures
            r == dir_meta(),
    {
        StaticMetadata { len: 0, is_dir: true, is_unixfs: true }
    }

    pub fn new_file(len: u64) -> (r: StaticMetadata)
        ensures
            r == file_meta(len),
    {
        StaticMetadata { len, is_dir: false, is_unixfs: true }
    }

    /// A directory for both directory types, else a file of the decoded size.
    pub fn from_unixfs_data(data: &UnixFsData) -> (r: StaticMetadata)
        requires
            !is_dir_type(data.ty) ==> data.filesize is Some,
        ensures
            is_dir_type(data.ty) ==> r == dir_meta(),
            !is_dir_type(data.ty) ==> r == file_meta(data.filesize->0),
    {
        match data.ty {
            UnixFsType::Directory | UnixFsType::HAMTShard => StaticMetadata::new_dir(),
            _ => StaticMetadata::new_file(data.filesize.unwrap()),
        }
    }

    /// Entries of the mutable tree are always structured.
    pub fn from_files_stat_response(stat: FilesStatResponse) -> (r: StaticMetadata)
        ensures
            r == (StaticMetadata {
                len: stat.size,
                is_dir: stat.typ@ == directory_type(),
                is_unixfs: true,
            }),
    {
        let is_dir = crate::error::starts_with(stat.typ.as_slice(), "directory".as_bytes())
            && stat.typ.len() == "directory".as_bytes().len();
        proof {
            if stat.typ@.len() == directory_type().len() {
                assert(stat.typ@ =~= stat.typ@.subrange(0, directory_type().len() as int));
            }
        }
        StaticMetadata { len: stat.size, is_dir, is_unixfs: true }
    }

    pub fn len(&self) -> (r: u64)
        ensures
            r == self.len,
    {
        self.len
    }

    pub fn is_dir(&self) -> (r: bool)
        ensures
            r == self.is_dir,
    {
        self.is_dir
    }

    /// Seconds after the epoch of the last change: always zero.
    pub fn modified(&self) -> (r: u64)
        ensures
            r == 0,
    {
        0
    }

    pub fn executable(&self) -> (r: bool)
        ensures
            r,
    {
        true
    }
}

/// Metadata of a content-addressed object: what the decode of its raw bytes
/// says, or an opaque blob of the raw length where nothing could be decoded.
pub fn stat_from_block(block: &Vec<u8>, decoded: Option<UnixFsData>) -> (r: Result<
    StaticMetadata,
    FsError,
>)
    requires
        block@.len() <= u64::MAX,
    ensures
        r == spec_stat_from_block(block@.len(), decoded),
{
    match decoded {
        None => Ok(StaticMetadata { len: block.len() as u64, is_dir: false, is_unixfs: false }),
        Some(d) => match d.ty {
            UnixFsType::Directory | UnixFsType::HAMTShard => Ok(StaticMetadata::new_dir()),
            _ => match d.filesize {
                Some(_) => Ok(StaticMetadata::from_unixfs_data(&d)),
                None => Err(FsError::GeneralFailure),
            },
        },
    }
}

/// What decoding `block` as a structured object gives, `None` where it is
/// not one.
pub uninterp spec fn unixfs_data_of(block: Seq<u8>) -> Option<UnixFsData>;

/// Relies on unixfs_v1::dagpb::node_data and the `TryFrom` of
/// unixfs_v1::UnixFs: the decode of a block depends on its bytes alone.
/// The block must be framed: quick-protobuf's reader can underflow when a
/// field inside a nested message (a link, or the data's time) runs past
/// that message's end, and in a framed block no field does.
#[verifier::external_body]
fn decode_unixfs(block: &[u8]) -> (r: Option<UnixFsData>)
    requires
        block_framed(block@),
    ensures
        r == unixfs_data_of(block@),
{
    let d = unixfs_v1::dagpb::node_data(block).and_then(unixfs_v1::UnixFs::try_from).ok()?;
    let ty = match d.Type {
        DecodedType::Raw => UnixFsType::Raw,
        DecodedType::Directory => UnixFsType::Directory,
        DecodedType::File => UnixFsType::File,
        DecodedType::Metadata => UnixFsType::Metadata,
        DecodedType::Symlink => UnixFsType::Symlink,
        DecodedType::HAMTShard => UnixFsType::HAMTShard,
    };
    Some(UnixFsData { ty, filesize: d.filesize })
}

/// What decoding `block` gives: nothing where it is not framed, since such
/// a block is no structured object.
pub open spec fn decoded_block(block: Seq<u8>) -> Option<UnixFsData> {
    if block_framed(block) {
        unixfs_data_of(block)
    } else {
        None
    }
}

/// Metadata of a content-addressed object from all of its raw bytes: a
/// directory or file where they decode as a structured object, else an
/// opaque blob of their length.
pub fn stat_metadata(block: &Vec<u8>) -> (r: Result<StaticMetadata, FsError>)
    requires
        block@.len() <= u64::MAX,
    ensures
        r == spec_stat_from_block(block@.len(), decoded_block(block@)),
{
    let decoded = if is_block_framed(block.as_slice()) {
        decode_unixfs(block.as_slice())
    } else {
        None
    };
    stat_from_block(block, decoded)
}

/// A directory entry whose metadata is known from the listing.
#[derive(Clone, Debug)]
pub struct StaticLsEntry {
    name: String,
    len: u64,
    is_dir: bool,
}

impl StaticLsEntry {
    pub closed spec fn spec_name(&self) -> Seq<char> {
        self.name@
    }

    pub closed spec fn spec_metadata(&self) -> StaticMetadata {
        StaticMetadata { len: self.len, is_dir: self.is_dir, is_unixfs: true }
    }

    pub fn new_dir(name: String) -> (r: Self)
        ensures
            r.spec_name() == name@,
            r.spec_metadata() == dir_meta(),
    {
        StaticLsEntry { name, len: 0, is_dir: true }
    }

    pub fn from_files_entry(entry: FilesEntry) -> (r: Self)
        ensures
            r.spec_name() == entry.name@,
            r.spec_metadata() == (StaticMetadata {
                len: entry.size,
                is_dir: entry.typ == 1,
                is_unixfs: true,
            }),
    {
        StaticLsEntry { name: entry.name, len: entry.size, is_dir: entry.typ == 1 }
    }

    pub fn from_ipfs_file_header(entry: IpfsFileHeader) -> (r: Self)
        ensures
            r.spec_name() == entry.name@,
            r.spec_metadata() == (StaticMetadata {
                len: entry.size,
                is_dir: entry.typ == 1,
                is_unixfs: true,
            }),
    {
        StaticLsEntry { name: entry.name, len: entry.size, is_dir: entry.typ == 1 }
    }

    pub fn name(&self) -> (r: String)
        ensures
            r@ == self.spec_name(),
    {
        self.name.clone()
    }

    pub fn metadata(&self) -> (r: StaticMetadata)
        ensures
            r == self.spec_metadata(),
    {
        StaticMetadata { len: self.len, is_dir: self.is_dir, is_unixfs: true }
    }
}

/// A directory entry at the root of a content-addressed view: only its
/// identifier is known, its metadata is fetched when asked for.
#[derive(Clone, Debug)]
pub struct DynamicLsEntry {
    pub ty: IpfsOrIpns,
    /// The identifier bytes (a content id or a published key id).
    pub cid: Vec<u8>,
}

pub open spec fn view_prefix(ty: IpfsOrIpns) -> Seq<u8> {
    match ty {
        IpfsOrIpns::Ipns => "/ipns/".spec_bytes(),
        IpfsOrIpns::Ipfs => "/ipfs/".spec_bytes(),
    }
}

impl DynamicLsEntry {
    pub fn name(&self) -> (r: Vec<u8>)
        ensures
            r@ == self.cid@,
    {
        self.cid.clone()
    }

    /// The path under which the metadata of this entry is fetched.
    pub fn ipfs_path(&self) -> (r: Vec<u8>)
        ensures
            r@ == view_prefix(self.ty) + self.cid@,
    {
        let prefix = match self.ty {
            IpfsOrIpns::Ipns => "/ipns/".as_bytes(),
            IpfsOrIpns::Ipfs => "/ipfs/".as_bytes(),
        };
        let mut p = crate::path::prefix_vec(prefix, prefix.len());
        let mut c = self.cid.clone();
        p.append(&mut c);
        p
    }
}

/// The three entries of the root directory, each a directory.
pub fn root_entries() -> (r: Vec<StaticLsEntry>)
    ensures
        r@.len() == 3,
        r@[0].spec_name() == "mfs"@,
        r@[1].spec_name() == "ipfs"@,
        r@[2].spec_name() == "ipns"@,
        forall|i: int| 0 <= i < 3 ==> #[trigger] r@[i].spec_metadata() == dir_meta(),
{
    let mut v: Vec<StaticLsEntry> = Vec::new();
    v.push(StaticLsEntry::new_dir("mfs".to_owned()));
    v.push(StaticLsEntry::new_dir("ipfs".to_owned()));
    v.push(StaticLsEntry::new_dir("ipns".to_owned()));
    v
}

} // verus!
