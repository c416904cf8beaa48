use vstd::prelude::*;

verus! {

/// The message kinds of a structured block: the node, one of its links,
/// the node's data, and the modification time inside the data.
#[derive(Clone, Copy, Debug, PartialEq, Eq, Structural)]
pub enum MsgKind {
    Node,
    Link,
    Data,
    Time,
}

/// Longest varint that is read as a tag or a length: values stay below 2^28.
pub const SHORT_VARINT: usize = 4;

/// Longest varint of any kind.
pub const LONG_VARINT: usize = 10;

/// How many bytes the varint at `i` takes, reading at most `max` bytes and
/// none at or after `end`; `None` where it does not end in time.
pub open spec fn varint_len(b: Seq<u8>, i: int, end: int, max: nat) -> Option<nat>
    decreases max,
{
    if max == 0 || i < 0 || i >= end || end > b.len() {
        None
    } else if b[i] < 128 {
        Some(1)
    } else {
        match varint_len(b, i + 1, end, (max - 1) as nat) {
            Some(n) => Some(n + 1),
            None => None,
        }
    }
}

/// The value of the `n`-byte varint at `i`, least significant group first.
pub open spec fn varint_val(b: Seq<u8>, i: int, n: nat) -> nat
    decreases n,
{
    if n == 0 {
        0
    } else {
        (b[i] % 128) as nat + 128 * varint_val(b, i + 1, (n - 1) as nat)
    }
}

/// The message kind of a length-delimited field `tag` inside a `kind`
/// message that the decoder parses as a message of its own.
pub open spec fn nested_kind(kind: MsgKind, tag: nat) -> Option<MsgKind> {
    match kind {
        MsgKind::Node => if tag == 18 {
            Some(MsgKind::Link)
        } else if tag == 10 {
            Some(MsgKind::Data)
        } else {
            None
        },
        MsgKind::Data => if tag == 66 {
            Some(MsgKind::Time)
        } else {
            None
        },
        _ => None,
    }
}

/// `b[i..end]` is a sequence of whole fields of a `kind` message: each tag
/// and length is a short varint, each value lies inside the range, each wire
/// type is varint, 64-bit, length-delimited or 32-bit, and every field that
/// holds a nested message is itself framed.
pub open spec fn framed(b: Seq<u8>, i: int, end: int, kind: MsgKind) -> bool
    decreases end - i, 0nat,
{
    if i < 0 || end > b.len() || i > end {
        false
    } else if i == end {
        true
    } else {
        match varint_len(b, i, end, SHORT_VARINT as nat) {
            None => false,
            Some(tn) => if tn < 1 {
                false
            } else {
                let tag = varint_val(b, i, tn);
                let j = i + tn;
                let wire = tag % 8;
                if wire == 0 {
                    match varint_len(b, j, end, LONG_VARINT as nat) {
                        None => false,
                        Some(vn) => vn >= 1 && j + vn <= end && framed(b, j + vn, end, kind),
                    }
                } else if wire == 1 {
                    j + 8 <= end && framed(b, j + 8, end, kind)
                } else if wire == 5 {
                    j + 4 <= end && framed(b, j + 4, end, kind)
                } else if wire == 2 {
                    match varint_len(b, j, end, SHORT_VARINT as nat) {
                        None => false,
                        Some(ln) => ln >= 1 && {
                            let l = j + ln;
                            let k = l + varint_val(b, j, ln);
                            k <= end && match nested_kind(kind, tag) {
                                Some(inner) => framed(b, l, k, inner),
                                None => true,
                            } && framed(b, k, end, kind)
                        },
                    }
                } else {
                    false
                }
            },
        }
    }
}

/// The whole block is framed as a node.
pub open spec fn block_framed(b: Seq<u8>) -> bool {
    framed(b, 0, b.len() as int, MsgKind::Node)
}

proof fn varint_len_bounds(b: Seq<u8>, i: int, end: int, max: nat)
    ensures
        varint_len(b, i, end, max) matches Some(n) ==> 1 <= n <= max && i + n <= end,
    decreases max,
{
    if !(max == 0 || i < 0 || i >= end || end > b.len()) && b[i] >= 128 {
        varint_len_bounds(b, i + 1, end, (max - 1) as nat);
    }
}

proof fn varint_val_bound(b: Seq<u8>, i: int, n: nat)
    requires
        n <= 4,
    ensures
        varint_val(b, i, n) < 268435456,
        n <= 3 ==> varint_val(b, i, n) < 2097152,
        n <= 2 ==> varint_val(b, i, n) < 16384,
        n <= 1 ==> varint_val(b, i, n) < 128,
    decreases n,
{
    if n > 0 {
        varint_val_bound(b, i + 1, (n - 1) as nat);
    }
}

/// How many bytes the varint at `i` takes (see `varint_len`).
fn varint_length(b: &[u8], i: usize, end: usize, max: usize) -> (r: Option<usize>)
    requires
        end <= b@.len(),
        max <= LONG_VARINT,
    ensures
        r is None <==> varint_len(b@, i as int, end as int, max as nat) is None,
        r matches Some(n) ==> varint_len(b@, i as int, end as int, max as nat) == Some(n as nat),
{
    let mut k: usize = 0;
    while k < max
        invariant
            end <= b@.len(),
            max <= LONG_VARINT,
            k <= max,
            k == 0 || i + k <= end,
            varint_len(b@, i as int, end as int, max as nat) == match varint_len(
                b@,
                i + k,
                end as int,
                (max - k) as nat,
            ) {
                Some(n) => Some((n + k) as nat),
                None => None::<nat>,
            },
        decreases max - k,
    {
        if i >= end || k >= end - i {
            return None;
        }
        if b[i + k] < 128 {
            return Some(k + 1);
        }
        k = k + 1;
    }
    None
}

/// The value of the short varint of `n` bytes at `i`.
fn varint_value(b: &[u8], i: usize, n: usize) -> (r: u64)
    requires
        n <= SHORT_VARINT,
        i + n <= b@.len(),
    ensures
        r == varint_val(b@, i as int, n as nat),
        r < 268435456,
{
    let blen: usize = b.len();
    let mut m: usize = n;
    let mut val: u64 = 0;
    while m > 0
        invariant
            m <= n <= SHORT_VARINT,
            i + n <= b@.len(),
            blen == b@.len(),
            val == varint_val(b@, i + m, (n - m) as nat),
        decreases m,
    {
        proof {
            varint_val_bound(b@, i + m, (n - m) as nat);
        }
        m = m - 1;
        val = (b[i + m] % 128) as u64 + 128 * val;
    }
    proof {
        varint_val_bound(b@, i as int, n as nat);
    }
    val
}

/// The kind of message a length-delimited field holds, where the decoder
/// parses it as one.
fn nested_of(kind: MsgKind, tag: u64) -> (r: Option<MsgKind>)
    ensures
        r == nested_kind(kind, tag as nat),
{
    match kind {
        MsgKind::Node => if tag == 18 {
            Some(MsgKind::Link)
        } else if tag == 10 {
            Some(MsgKind::Data)
        } else {
            None
        },
        MsgKind::Data => if tag == 66 {
            Some(MsgKind::Time)
        } else {
            None
        },
        _ => None,
    }
}

/// Whether `b[start..end]` is framed as a `kind` message.
pub fn is_framed(b: &[u8], start: usize, end: usize, kind: MsgKind) -> (r: bool)
    requires
        start <= end <= b@.len(),
    ensures
        r == framed(b@, start as int, end as int, kind),
    decreases end - start,
{
    let mut i: usize = start;
    while i < end
        invariant
            start <= i <= end <= b@.len(),
            framed(b@, start as int, end as int, kind) == framed(b@, i as int, end as int, kind),
        decreases end - i,
    {
        let tn = match varint_length(b, i, end, SHORT_VARINT) {
            None => return false,
            Some(n) => n,
        };
        proof {
            varint_len_bounds(b@, i as int, end as int, SHORT_VARINT as nat);
        }
        let tag = varint_value(b, i, tn);
        let j = i + tn;
        let wire = tag % 8;
        if wire == 0 {
            match varint_length(b, j, end, LONG_VARINT) {
                None => return false,
                Some(vn) => {
                    proof {
                        varint_len_bounds(b@, j as int, end as int, LONG_VARINT as nat);
                    }
                    i = j + vn;
                },
            }
        } else if wire == 1 {
            if end - j < 8 {
                return false;
            }
            i = j + 8;
        } else if wire == 5 {
            if end - j < 4 {
                return false;
            }
            i = j + 4;
        } else if wire == 2 {
            let ln = match varint_length(b, j, end, SHORT_VARINT) {
                None => return false,
                Some(n) => n,
            };
            proof {
                varint_len_bounds(b@, j as int, end as int, SHORT_VARINT as nat);
            }
            let len = varint_value(b, j, ln);
            let l = j + ln;
            let room: u64 = (end - l) as u64;
            if room < len {
                return false;
            }
            let k = l + len as usize;
            match nested_of(kind, tag) {
                Some(inner) => {
                    if !is_framed(b, l, k, inner) {
                        return false;
                    }
                },
                None => {},
            }
            i = k;
        } else {
            return false;
        }
    }
    true
}

/// Whether the whole block is framed as a node.
pub fn is_block_framed(b: &[u8]) -> (r: bool)
    ensures
        r == block_framed(b@),
{
    is_framed(b, 0, b.len(), MsgKind::Node)
}

} // verus!
