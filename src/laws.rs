use vstd::prelude::*;
use crate::error::{FsError, RemoteError, file_missing_message, spec_handle_error};
use crate::mfs::{TreeCall, spec_transfer_source};
use crate::rootfs::routed_transfer;
use crate::path::root_path;
use crate::read::split_chunk;

verus! {

/// The chunks of a stream joined in order.
pub open spec fn flatten(chunks: Seq<Seq<u8>>) -> Seq<u8>
    decreases chunks.len(),
{
    if chunks.len() == 0 {
        Seq::empty()
    } else {
        chunks[0] + flatten(chunks.drop_first())
    }
}

/// What a read handle keeps, as bytes.
pub open spec fn pending(rest: Option<Seq<u8>>) -> Seq<u8> {
    match rest {
        Some(b) => b,
        None => Seq::empty(),
    }
}

/// One read of up to `count` bytes, as `read_bytes` and `on_chunk` perform
/// it: from the kept bytes if there are any, else from the next chunk.
/// Gives what is handed out, what is kept and the chunks not yet pulled.
pub open spec fn read_step(rest: Option<Seq<u8>>, chunks: Seq<Seq<u8>>, count: nat) -> (
    Seq<u8>,
    Option<Seq<u8>>,
    Seq<Seq<u8>>,
) {
    match rest {
        Some(b) => {
            let s = split_chunk(b, count);
            (s.0, s.1, chunks)
        },
        None => if chunks.len() == 0 {
            (Seq::empty(), None, chunks)
        } else {
            let s = split_chunk(chunks[0], count);
            (s.0, s.1, chunks.drop_first())
        },
    }
}

/// Reads of `counts` bytes in turn; gives all that was handed out joined,
/// what is kept and the chunks not yet pulled.
pub open spec fn read_many(rest: Option<Seq<u8>>, chunks: Seq<Seq<u8>>, counts: Seq<nat>) -> (
    Seq<u8>,
    Option<Seq<u8>>,
    Seq<Seq<u8>>,
)
    decreases counts.len(),
{
    if counts.len() == 0 {
        (Seq::empty(), rest, chunks)
    } else {
        let s = read_step(rest, chunks, counts[0]);
        let t = read_many(s.1, s.2, counts.drop_first());
        (s.0 + t.0, t.1, t.2)
    }
}

proof fn split_chunk_keeps_bytes(b: Seq<u8>, count: nat)
    ensures
        split_chunk(b, count).0 + pending(split_chunk(b, count).1) == b,
{
    if count < b.len() {
        assert(b.subrange(0, count as int) + b.subrange(count as int, b.len() as int) =~= b);
    } else {
        assert(b + Seq::<u8>::empty() =~= b);
    }
}

/// One read neither loses nor repeats a byte: what it hands out, followed by
/// what is kept and by the rest of the stream, is what was kept and streamed
/// before.
pub proof fn read_step_keeps_stream(rest: Option<Seq<u8>>, chunks: Seq<Seq<u8>>, count: nat)
    ensures
        ({
            let s = read_step(rest, chunks, count);
            s.0 + pending(s.1) + flatten(s.2) == pending(rest) + flatten(chunks)
        }),
{
    let s = read_step(rest, chunks, count);
    match rest {
        Some(b) => {
            split_chunk_keeps_bytes(b, count);
            assert(s.0 + pending(s.1) + flatten(s.2) =~= (s.0 + pending(s.1)) + flatten(s.2));
        },
        None => {
            if chunks.len() == 0 {
                assert(s.0 + pending(s.1) + flatten(s.2) =~= pending(rest) + flatten(chunks));
            } else {
                split_chunk_keeps_bytes(chunks[0], count);
                assert(s.0 + pending(s.1) + flatten(s.2) =~= (s.0 + pending(s.1)) + flatten(s.2));
                assert(pending(rest) + flatten(chunks) =~= chunks[0] + flatten(chunks.drop_first()));
            }
        },
    }
}

/// Reads of any sizes over a stream cut into chunks of any sizes neither
/// lose nor repeat a byte: all that was handed out, followed by what is kept
/// and by the rest of the stream, is exactly the stream.
pub proof fn reads_keep_stream(rest: Option<Seq<u8>>, chunks: Seq<Seq<u8>>, counts: Seq<nat>)
    ensures
        ({
            let s = read_many(rest, chunks, counts);
            s.0 + pending(s.1) + flatten(s.2) == pending(rest) + flatten(chunks)
        }),
    decreases counts.len(),
{
    if counts.len() > 0 {
        let s = read_step(rest, chunks, counts[0]);
        read_step_keeps_stream(rest, chunks, counts[0]);
        reads_keep_stream(s.1, s.2, counts.drop_first());
        let t = read_many(s.1, s.2, counts.drop_first());
        assert((s.0 + t.0) + pending(t.1) + flatten(t.2) =~= s.0 + (t.0 + pending(t.1) + flatten(
            t.2,
        )));
    } else {
        assert(Seq::<u8>::empty() + pending(rest) + flatten(chunks) =~= pending(rest) + flatten(
            chunks,
        ));
    }
}

/// Reads in turn hand out a prefix of the stream: all that was handed out
/// is the stream's first bytes, whatever the chunk sizes.
pub proof fn reads_give_prefix(rest: Option<Seq<u8>>, chunks: Seq<Seq<u8>>, counts: Seq<nat>)
    ensures
        ({
            let out = read_many(rest, chunks, counts).0;
            let all = pending(rest) + flatten(chunks);
            out.len() <= all.len() && out == all.subrange(0, out.len() as int)
        }),
{
    reads_keep_stream(rest, chunks, counts);
    let s = read_many(rest, chunks, counts);
    let all = pending(rest) + flatten(chunks);
    assert(all.subrange(0, s.0.len() as int) =~= s.0);
}

/// A read of at least one byte from something that is not empty hands out
/// at least one byte and never more than asked for.
pub proof fn read_step_size(rest: Option<Seq<u8>>, chunks: Seq<Seq<u8>>, count: nat)
    requires
        count >= 1,
        rest matches Some(b) ==> b.len() > 0,
        rest is None ==> chunks.len() > 0 && chunks[0].len() > 0,
    ensures
        1 <= read_step(rest, chunks, count).0.len() <= count,
        read_step(rest, chunks, count).1 matches Some(b) ==> b.len() > 0,
{
}

/// However the store cuts an object into chunks, reading a fresh stream to
/// its end hands out the same bytes: the object itself.
pub proof fn chunking_does_not_matter(
    c1: Seq<Seq<u8>>,
    counts1: Seq<nat>,
    c2: Seq<Seq<u8>>,
    counts2: Seq<nat>,
)
    requires
        flatten(c1) == flatten(c2),
        read_many(None, c1, counts1).1 is None,
        read_many(None, c1, counts1).2.len() == 0,
        read_many(None, c2, counts2).1 is None,
        read_many(None, c2, counts2).2.len() == 0,
    ensures
        read_many(None, c1, counts1).0 == flatten(c1),
        read_many(None, c1, counts1).0 == read_many(None, c2, counts2).0,
{
    reads_keep_stream(None, c1, counts1);
    reads_keep_stream(None, c2, counts2);
    let a = read_many(None, c1, counts1);
    let b = read_many(None, c2, counts2);
    assert(a.0 + pending(a.1) + flatten(a.2) =~= a.0);
    assert(b.0 + pending(b.1) + flatten(b.2) =~= b.0);
    assert(pending(None) + flatten(c1) =~= flatten(c1));
    assert(pending(None) + flatten(c2) =~= flatten(c2));
}

/// After a seek to `k` a handle keeps nothing and opens a stream at `k`.
/// Where that stream gives the object's bytes from `k` on and its first
/// chunk is not empty, a read of one byte gives the byte at `k`.
pub proof fn seek_then_read_one(content: Seq<u8>, k: nat, chunks: Seq<Seq<u8>>)
    requires
        k < content.len(),
        flatten(chunks) == content.subrange(k as int, content.len() as int),
        chunks.len() > 0,
        chunks[0].len() > 0,
    ensures
        read_step(None, chunks, 1).0 == seq![content[k as int]],
{
    assert(flatten(chunks) == chunks[0] + flatten(chunks.drop_first()));
    assert(flatten(chunks)[0] == chunks[0][0]);
    assert(read_step(None, chunks, 1).0 =~= seq![content[k as int]]);
}

/// The bodies an upload has after each write, as `write_bytes` states them:
/// the first write starts the body, each later one is appended.
pub open spec fn body_chain(bodies: Seq<Seq<u8>>, writes: Seq<Seq<u8>>) -> bool {
    &&& bodies.len() == writes.len()
    &&& writes.len() > 0 ==> bodies[0] == writes[0]
    &&& forall|i: int| 0 < i < writes.len() ==> #[trigger] bodies[i] == bodies[i - 1] + writes[i]
}

proof fn body_chain_prefix(bodies: Seq<Seq<u8>>, writes: Seq<Seq<u8>>, n: int)
    requires
        body_chain(bodies, writes),
        0 < n <= writes.len(),
    ensures
        bodies[n - 1] == flatten(writes.subrange(0, n)),
    decreases n,
{
    if n == 1 {
        assert(writes.subrange(0, 1).drop_first() =~= Seq::<Seq<u8>>::empty());
        reveal_with_fuel(flatten, 2);
        assert(flatten(writes.subrange(0, 1)) =~= writes[0]);
    } else {
        body_chain_prefix(bodies, writes, n - 1);
        flatten_push(writes.subrange(0, n - 1), writes[n - 1]);
        assert(writes.subrange(0, n - 1).push(writes[n - 1]) =~= writes.subrange(0, n));
    }
}

proof fn flatten_push(chunks: Seq<Seq<u8>>, c: Seq<u8>)
    ensures
        flatten(chunks.push(c)) == flatten(chunks) + c,
    decreases chunks.len(),
{
    if chunks.len() == 0 {
        assert(chunks.push(c).drop_first() =~= Seq::<Seq<u8>>::empty());
        reveal_with_fuel(flatten, 2);
        assert(flatten(chunks.push(c)) =~= c);
    } else {
        flatten_push(chunks.drop_first(), c);
        assert(chunks.push(c).drop_first() =~= chunks.drop_first().push(c));
        assert(flatten(chunks.push(c)) =~= flatten(chunks) + c);
    }
}

/// The body of an upload is every write joined in the order of the calls.
pub proof fn upload_body_is_writes(bodies: Seq<Seq<u8>>, writes: Seq<Seq<u8>>)
    requires
        body_chain(bodies, writes),
        writes.len() > 0,
    ensures
        bodies.last() == flatten(writes),
{
    body_chain_prefix(bodies, writes, writes.len() as int);
    assert(writes.subrange(0, writes.len() as int) =~= writes);
}

/// What is written through a handle is what a later read hands out: where
/// the store keeps the upload's body and streams it back in any chunks,
/// reading to the end gives every write joined in order.
pub proof fn write_then_read(
    bodies: Seq<Seq<u8>>,
    writes: Seq<Seq<u8>>,
    chunks: Seq<Seq<u8>>,
    counts: Seq<nat>,
)
    requires
        body_chain(bodies, writes),
        writes.len() > 0,
        flatten(chunks) == bodies.last(),
        read_many(None, chunks, counts).1 is None,
        read_many(None, chunks, counts).2.len() == 0,
    ensures
        read_many(None, chunks, counts).0 == flatten(writes),
{
    upload_body_is_writes(bodies, writes);
    chunking_does_not_matter(chunks, counts, chunks, counts);
}

/// A rename or copy whose source is the root is refused, whatever the
/// destination.
pub proof fn transfer_from_root_forbidden(to: Seq<u8>, rename: bool, r: Result<TreeCall, FsError>)
    requires
        routed_transfer(root_path(), to, rename, r),
    ensures
        r == Err::<TreeCall, FsError>(FsError::Forbidden),
{
    assert(spec_transfer_source(root_path(), rename) == Err::<(Seq<u8>, bool), FsError>(
        FsError::Forbidden,
    ));
}

/// A store error with code zero that says the file does not exist is a
/// missing file, not a general failure.
pub proof fn missing_file_is_not_found(e: RemoteError)
    requires
        e matches RemoteError::Api { code, message } && code == 0 && message@ == file_missing_message(),
    ensures
        spec_handle_error(e) == FsError::NotFound,
{
}

} // verus!
