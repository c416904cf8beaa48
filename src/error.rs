use vstd::prelude::*;
use vstd::string::StringSliceAdditionalSpecFns;

verus! {

/// The failure kinds a filesystem call can produce.
#[derive(Clone, Copy, Debug, PartialEq, Eq, Structural)]
pub enum FsError {
    NotFound,
    Forbidden,
    NotImplemented,
    GeneralFailure,
}

/// A failure reported by the remote store, reduced to what the mapping reads.
#[derive(Clone, Debug)]
pub enum RemoteError {
    /// An error answer of the store's API, with its numeric code and message bytes.
    Api { code: i64, message: Vec<u8> },
    /// Any other failure (transport, decoding of the answer, ...).
    Other,
}

pub open spec fn is_prefix(p: Seq<u8>, s: Seq<u8>) -> bool {
    p.len() <= s.len() && s.subrange(0, p.len() as int) == p
}

pub open spec fn file_missing_message() -> Seq<u8> {
    "file does not exist".spec_bytes()
}

pub open spec fn missing_link_prefix() -> Seq<u8> {
    "no link named ".spec_bytes()
}

/// Which kind a remote failure surfaces as.
pub open spec fn spec_handle_error(e: RemoteError) -> FsError {
    match e {
        RemoteError::Api { code, message } => {
            if code == 0 && (message@ == file_missing_message() || is_prefix(
                missing_link_prefix(),
                message@,
            )) {
                FsError::NotFound
            } else {
                FsError::GeneralFailure
            }
        },
        RemoteError::Other => FsError::GeneralFailure,
    }
}

fn bytes_eq(a: &[u8], b: &[u8]) -> (r: bool)
    ensures
        r == (a@ == b@),
{
    if a.len() != b.len() {
        return false;
    }
    let mut i: usize = 0;
    while i < a.len()
        invariant
            a@.len() == b@.len(),
            i <= a@.len(),
            a@.subrange(0, i as int) == b@.subrange(0, i as int),
        decreases a@.len() - i,
    {
        if a[i] != b[i] {
            assert(a@.subrange(0, i as int + 1)[i as int] != b@.subrange(0, i as int + 1)[i as int]);
            return false;
        }
        assert(a@.subrange(0, i as int + 1) =~= a@.subrange(0, i as int).push(a@[i as int]));
        assert(b@.subrange(0, i as int + 1) =~= b@.subrange(0, i as int).push(b@[i as int]));
        i = i + 1;
    }
    assert(a@ =~= a@.subrange(0, a@.len() as int));
    assert(b@ =~= b@.subrange(0, b@.len() as int));
    true
}

/// Whether `p` is a prefix of `s`.
pub fn starts_with(s: &[u8], p: &[u8]) -> (r: bool)
    ensures
        r == is_prefix(p@, s@),
{
    if p.len() > s.len() {
        return false;
    }
    let head = slice_prefix(s, p.len());
    bytes_eq(head, p)
}

/// The first `n` bytes of `s`.
pub fn slice_prefix(s: &[u8], n: usize) -> (r: &[u8])
    requires
        n <= s@.len(),
    ensures
        r@ == s@.subrange(0, n as int),
{
    let (a, _) = s.split_at(n);
    a
}

/// Maps a failure of the remote store to a filesystem failure kind: a missing
/// file or link is `NotFound`, everything else a `GeneralFailure`.
pub fn handle_error(e: &RemoteError) -> (r: FsError)
    ensures
        r == spec_handle_error(*e),
{
    match e {
        RemoteError::Api { code, message } => {
            if *code == 0 && (bytes_eq(message.as_slice(), "file does not exist".as_bytes())
                || starts_with(message.as_slice(), "no link named ".as_bytes())) {
                FsError::NotFound
            } else {
                FsError::GeneralFailure
            }
        },
        RemoteError::Other => FsError::GeneralFailure,
    }
}

/// The outcome of a remote call that returns nothing, as a filesystem result.
pub fn map_remote(r: Result<(), RemoteError>) -> (out: Result<(), FsError>)
    ensures
        r is Ok <==> out is Ok,
        r is Err ==> out == Err::<(), FsError>(spec_handle_error(r->Err_0)),
{
    match r {
        Ok(()) => Ok(()),
        Err(e) => Err(handle_error(&e)),
    }
}

} // verus!
