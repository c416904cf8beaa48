use vstd::prelude::*;
use vstd::utf8::valid_utf8;
use crate::error::{FsError, is_prefix, starts_with, slice_prefix};

verus! {

/// The path separator.
pub const SLASH: u8 = 47;

/// One of the three collections below the root.
#[derive(Clone, Copy, Debug, PartialEq, Eq, Structural)]
pub enum Store {
    Mfs,
    Ipfs,
    Ipns,
}

/// Where a path leads: the root itself, a path inside one collection
/// (its sub-path keeps a leading slash), or nowhere.
#[derive(Clone, Debug)]
pub enum FsKind {
    Root,
    Provided(Store, Vec<u8>),
    Unknown,
}

pub open spec fn root_path() -> Seq<u8> {
    seq![SLASH]
}

/// The first segment of the collection, with its leading slash.
pub open spec fn store_marker(s: Store) -> Seq<u8> {
    match s {
        // `/mfs`
        Store::Mfs => seq![47u8, 109u8, 102u8, 115u8],
        // `/ipfs`
        Store::Ipfs => seq![47u8, 105u8, 112u8, 102u8, 115u8],
        // `/ipns`
        Store::Ipns => seq![47u8, 105u8, 112u8, 110u8, 115u8],
    }
}

/// `path` has `marker` as its whole first segment.
pub open spec fn in_segment(marker: Seq<u8>, path: Seq<u8>) -> bool {
    is_prefix(marker, path) && (path.len() == marker.len() || path[marker.len() as int] == SLASH)
}

/// What is left of `path` once the first segment `marker` is removed.
pub open spec fn strip_segment(marker: Seq<u8>, path: Seq<u8>) -> Seq<u8> {
    if path.len() == marker.len() {
        root_path()
    } else {
        path.subrange(marker.len() as int, path.len() as int)
    }
}

pub open spec fn spec_store_of(path: Seq<u8>) -> Option<Store> {
    if in_segment(store_marker(Store::Mfs), path) {
        Some(Store::Mfs)
    } else if in_segment(store_marker(Store::Ipfs), path) {
        Some(Store::Ipfs)
    } else if in_segment(store_marker(Store::Ipns), path) {
        Some(Store::Ipns)
    } else {
        None
    }
}

pub open spec fn fs_kind_matches(k: FsKind, path: Seq<u8>) -> bool {
    match k {
        FsKind::Root => path == root_path(),
        FsKind::Provided(s, sub) => path != root_path() && spec_store_of(path) == Some(s)
            && sub@ == strip_segment(store_marker(s), path),
        FsKind::Unknown => path != root_path() && spec_store_of(path) is None,
    }
}

fn marker_bytes(s: Store) -> (r: Vec<u8>)
    ensures
        r@ == store_marker(s),
{
    let mut v: Vec<u8> = Vec::new();
    v.push(SLASH);
    match s {
        Store::Mfs => {
            v.push(109);
            v.push(102);
        },
        Store::Ipfs => {
            v.push(105);
            v.push(112);
            v.push(102);
        },
        Store::Ipns => {
            v.push(105);
            v.push(112);
            v.push(110);
        },
    }
    v.push(115);
    assert(v@ =~= store_marker(s));
    v
}

fn segment_matches(marker: &[u8], path: &[u8]) -> (r: bool)
    ensures
        r == in_segment(marker@, path@),
{
    starts_with(path, marker) && (path.len() == marker.len() || path[marker.len()] == SLASH)
}

fn to_vec(s: &[u8]) -> (r: Vec<u8>)
    ensures
        r@ == s@,
{
    let mut v: Vec<u8> = Vec::new();
    let mut i: usize = 0;
    while i < s.len()
        invariant
            i <= s@.len(),
            v@ == s@.subrange(0, i as int),
        decreases s@.len() - i,
    {
        v.push(s[i]);
        assert(s@.subrange(0, i as int + 1) =~= s@.subrange(0, i as int).push(s@[i as int]));
        i = i + 1;
    }
    assert(s@ =~= s@.subrange(0, s@.len() as int));
    v
}

/// The bytes of `s` from `start` on.
pub fn suffix_from(s: &[u8], start: usize) -> (r: Vec<u8>)
    requires
        start <= s@.len(),
    ensures
        r@ == s@.subrange(start as int, s@.len() as int),
{
    let (_, b) = s.split_at(start);
    to_vec(b)
}

fn strip_marker(marker: &[u8], path: &[u8]) -> (r: Vec<u8>)
    requires
        is_prefix(marker@, path@),
    ensures
        r@ == strip_segment(marker@, path@),
{
    if path.len() == marker.len() {
        let mut v: Vec<u8> = Vec::new();
        v.push(SLASH);
        assert(v@ =~= root_path());
        v
    } else {
        suffix_from(path, marker.len())
    }
}

/// Which collection the first segment of `path` names, if any.
pub fn store_of(path: &[u8]) -> (r: Option<Store>)
    ensures
        r == spec_store_of(path@),
{
    if segment_matches(marker_bytes(Store::Mfs).as_slice(), path) {
        Some(Store::Mfs)
    } else if segment_matches(marker_bytes(Store::Ipfs).as_slice(), path) {
        Some(Store::Ipfs)
    } else if segment_matches(marker_bytes(Store::Ipns).as_slice(), path) {
        Some(Store::Ipns)
    } else {
        None
    }
}

/// Whether `path` is exactly the root `/`.
pub fn is_root(path: &[u8]) -> (r: bool)
    ensures
        r == (path@ == root_path()),
{
    let r = path.len() == 1 && path[0] == SLASH;
    assert(r ==> path@ =~= root_path());
    r
}

/// Classifies `path`: the root, a collection with the rest of the path, or unknown.
pub fn lookup_fs(path: &[u8]) -> (r: FsKind)
    ensures
        fs_kind_matches(r, path@),
{
    if is_root(path) {
        return FsKind::Root;
    }
    match store_of(path) {
        Some(s) => FsKind::Provided(s, strip_marker(marker_bytes(s).as_slice(), path)),
        None => FsKind::Unknown,
    }
}

/// Relies on std::str::from_utf8: it fails exactly on bytes that are not UTF-8.
#[verifier::external_body]
fn is_utf8(b: &[u8]) -> (r: bool)
    ensures
        r == valid_utf8(b@),
{
    std::str::from_utf8(b).is_ok()
}

/// A path handed to the remote store must be UTF-8.
pub fn map_path(path: &[u8]) -> (r: Result<Vec<u8>, FsError>)
    ensures
        valid_utf8(path@) ==> r is Ok && r->Ok_0@ == path@,
        !valid_utf8(path@) ==> r == Err::<Vec<u8>, FsError>(FsError::GeneralFailure),
{
    if is_utf8(path) {
        Ok(to_vec(path))
    } else {
        Err(FsError::GeneralFailure)
    }
}

/// `path` without one trailing slash.
pub open spec fn spec_trim_slash(path: Seq<u8>) -> Seq<u8> {
    if path.len() > 0 && path.last() == SLASH {
        path.drop_last()
    } else {
        path
    }
}

/// Removes a single trailing slash, if there is one.
pub fn trim_slash(path: Vec<u8>) -> (r: Vec<u8>)
    ensures
        r@ == spec_trim_slash(path@),
{
    let mut p = path;
    if p.len() > 0 && p[p.len() - 1] == SLASH {
        p.pop();
    }
    p
}

/// `/ipfs` or `/ipns` followed by `sub`, the path the content store knows.
pub fn to_ipfs_path(s: Store, sub: &[u8]) -> (r: Result<Vec<u8>, FsError>)
    ensures
        valid_utf8(sub@) ==> r is Ok && r->Ok_0@ == store_marker(s) + sub@,
        !valid_utf8(sub@) ==> r == Err::<Vec<u8>, FsError>(FsError::GeneralFailure),
{
    let tail = map_path(sub)?;
    let mut p = marker_bytes(s);
    let mut t = tail;
    p.append(&mut t);
    Ok(p)
}

/// The first `n` bytes of `path` as a vector.
pub fn prefix_vec(path: &[u8], n: usize) -> (r: Vec<u8>)
    requires
        n <= path@.len(),
    ensures
        r@ == path@.subrange(0, n as int),
{
    to_vec(slice_prefix(path, n))
}

} // verus!
