//! Little-endian fields read from a byte buffer through one moving position.
//!
//! Each `take_*` spec function reads one field of `s` at position `p` and
//! gives the value with the position after it, or `None` when `s` ends first.
//! Each exec reader is proved to agree with its spec function.
use vstd::prelude::*;
use byteorder::{ByteOrder, LittleEndian};

verus! {

/// Unsigned little-endian value of the bytes `b`.
pub open spec fn le_value(b: Seq<u8>) -> nat
    decreases b.len(),
{
    if b.len() == 0 {
        0
    } else {
        b[0] as nat + 256 * le_value(b.drop_first())
    }
}

/// `256` to the power `n`: the number of values that `n` bytes can hold.
pub open spec fn byte_span(n: nat) -> nat
    decreases n,
{
    if n == 0 {
        1
    } else {
        256 * byte_span((n - 1) as nat)
    }
}

/// Two's-complement little-endian value of the bytes `b`.
pub open spec fn le_signed(b: Seq<u8>) -> int {
    if 2 * le_value(b) >= byte_span(b.len()) {
        le_value(b) - byte_span(b.len())
    } else {
        le_value(b) as int
    }
}

/// The `n` bytes of `s` from `p` on, if `s` holds them.
pub open spec fn take_bytes(s: Seq<u8>, p: int, n: int) -> Option<(Seq<u8>, int)> {
    if 0 <= p && 0 <= n && p + n <= s.len() {
        Some((s.subrange(p, p + n), p + n))
    } else {
        None
    }
}

pub open spec fn take_u8(s: Seq<u8>, p: int) -> Option<(u8, int)> {
    if 0 <= p < s.len() {
        Some((s[p], p + 1))
    } else {
        None
    }
}

/// An unsigned little-endian integer `w` bytes wide (`w` at most 8).
pub open spec fn take_uint(s: Seq<u8>, p: int, w: int) -> Option<(u64, int)> {
    match take_bytes(s, p, w) {
        Some((b, q)) => Some((le_value(b) as u64, q)),
        None => None,
    }
}

pub open spec fn take_u64(s: Seq<u8>, p: int) -> Option<(u64, int)> {
    take_uint(s, p, 8)
}

/// `n` items in a row, each read by `el` where the one before it ended.
pub open spec fn take_many<T>(
    s: Seq<u8>,
    p: int,
    n: nat,
    el: spec_fn(Seq<u8>, int) -> Option<(T, int)>,
) -> Option<(Seq<T>, int)>
    decreases n,
{
    if n == 0 {
        Some((Seq::empty(), p))
    } else {
        match take_many(s, p, (n - 1) as nat, el) {
            Some((xs, q)) => match el(s, q) {
                Some((x, r)) => Some((xs.push(x), r)),
                None => None,
            },
            None => None,
        }
    }
}

/// A 64-bit little-endian item count followed by that many items.
pub open spec fn take_list<T>(
    s: Seq<u8>,
    p: int,
    el: spec_fn(Seq<u8>, int) -> Option<(T, int)>,
) -> Option<(Seq<T>, int)> {
    match take_u64(s, p) {
        Some((n, q)) => take_many(s, q, n as nat, el),
        None => None,
    }
}

/// An exec read `r` agrees with the spec read `m`: both fail, or both give the same
/// value and end at the same position.
pub open spec fn read_matches<T: DeepView>(r: Option<(T, usize)>, m: Option<(T::V, int)>) -> bool {
    match r {
        Some((x, q)) => m == Some((x.deep_view(), q as int)),
        None => m is None,
    }
}

/// What an exec item reader ensures at position `p` of `s`: it agrees with `el`
/// and, when it succeeds, ends after `p` and inside `s`.
pub open spec fn reads_like<T: DeepView>(
    s: Seq<u8>,
    p: usize,
    r: Option<(T, usize)>,
    el: spec_fn(Seq<u8>, int) -> Option<(T::V, int)>,
) -> bool {
    &&& read_matches(r, el(s, p as int))
    &&& (r matches Some((_, q)) ==> p < q <= s.len())
}

pub proof fn lemma_take_many_fails<T>(
    s: Seq<u8>,
    p: int,
    m: nat,
    n: nat,
    el: spec_fn(Seq<u8>, int) -> Option<(T, int)>,
)
    requires
        m <= n,
        take_many(s, p, m, el) is None,
    ensures
        take_many(s, p, n, el) is None,
    decreases n,
{
    if m < n {
        lemma_take_many_fails(s, p, m, (n - 1) as nat, el);
    }
}

/// `n` items read in a row are `n` items.
pub proof fn lemma_take_many_len<T>(
    s: Seq<u8>,
    p: int,
    n: nat,
    el: spec_fn(Seq<u8>, int) -> Option<(T, int)>,
)
    requires
        take_many(s, p, n, el) is Some,
    ensures
        take_many(s, p, n, el)->Some_0.0.len() == n,
    decreases n,
{
    if n > 0 {
        lemma_take_many_len(s, p, (n - 1) as nat, el);
    }
}

/// Reads `n` items in a row with `read`, which agrees with `el`.
pub fn read_many<T: DeepView, F: Fn(&[u8], usize) -> Option<(T, usize)>>(
    s: &[u8],
    pos: usize,
    n: u64,
    read: &F,
    Ghost(el): Ghost<spec_fn(Seq<u8>, int) -> Option<(T::V, int)>>,
) -> (r: Option<(Vec<T>, usize)>)
    requires
        pos <= s.len(),
        forall|p: usize| p <= s.len() ==> #[trigger] read.requires((s, p)),
        forall|p: usize, x: Option<(T, usize)>| #[trigger]
            read.ensures((s, p), x) ==> reads_like(s@, p, x, el),
    ensures
        read_matches(r, take_many(s@, pos as int, n as nat, el)),
        r matches Some((_, q)) ==> pos <= q <= s.len(),
{
    let mut out: Vec<T> = Vec::new();
    let mut cur: usize = pos;
    let mut i: u64 = 0;
    while i < n
        invariant
            i <= n,
            pos <= cur <= s.len(),
            take_many(s@, pos as int, i as nat, el) == Some((out.deep_view(), cur as int)),
            forall|p: usize| p <= s.len() ==> #[trigger] read.requires((s, p)),
            forall|p: usize, x: Option<(T, usize)>| #[trigger]
                read.ensures((s, p), x) ==> reads_like(s@, p, x, el),
        decreases n - i,
    {
        match read(s, cur) {
            Some((x, q)) => {
                let ghost before = out.deep_view();
                out.push(x);
                assert(out.deep_view() =~= before.push(x.deep_view()));
                cur = q;
                i = i + 1;
            },
            None => {
                proof {
                    lemma_take_many_fails(s@, pos as int, (i + 1) as nat, n as nat, el);
                }
                return None;
            },
        }
    }
    Some((out, cur))
}

/// Relies on byteorder's `LittleEndian::read_uint`: the `w` bytes at `p` read as an
/// unsigned little-endian integer.
#[verifier::external_body]
fn read_uint_le(s: &[u8], p: usize, w: usize) -> (r: u64)
    requires
        1 <= w <= 8,
        p + w <= s.len(),
    ensures
        r as nat == le_value(s@.subrange(p as int, p + w)),
{
    LittleEndian::read_uint(&s[p..p + w], w)
}

pub open spec fn el_u8() -> spec_fn(Seq<u8>, int) -> Option<(u8, int)> {
    |s: Seq<u8>, p: int| take_u8(s, p)
}

pub open spec fn el_u64() -> spec_fn(Seq<u8>, int) -> Option<(u64, int)> {
    |s: Seq<u8>, p: int| take_u64(s, p)
}

/// A list of items read by `el`, as one item of a longer sequence.
pub open spec fn el_list<T>(el: spec_fn(Seq<u8>, int) -> Option<(T, int)>) -> spec_fn(
    Seq<u8>,
    int,
) -> Option<(Seq<T>, int)> {
    |s: Seq<u8>, p: int| take_list(s, p, el)
}

pub fn read_u8(s: &[u8], p: usize) -> (r: Option<(u8, usize)>)
    requires
        p <= s.len(),
    ensures
        reads_like(s@, p, r, el_u8()),
{
    if p < s.len() {
        Some((s[p], p + 1))
    } else {
        None
    }
}

/// Reads an unsigned little-endian integer `w` bytes wide.
pub fn read_uint(s: &[u8], p: usize, w: usize) -> (r: Option<(u64, usize)>)
    requires
        p <= s.len(),
        1 <= w <= 8,
    ensures
        reads_like(s@, p, r, |s: Seq<u8>, p: int| take_uint(s, p, w as int)),
{
    if w <= s.len() - p {
        let v = read_uint_le(s, p, w);
        Some((v, p + w))
    } else {
        None
    }
}

pub fn read_u64(s: &[u8], p: usize) -> (r: Option<(u64, usize)>)
    requires
        p <= s.len(),
    ensures
        reads_like(s@, p, r, el_u64()),
{
    read_uint(s, p, 8)
}

/// Reads a 64-bit item count, then that many items with `read`, which agrees with `el`.
pub fn read_list<T: DeepView, F: Fn(&[u8], usize) -> Option<(T, usize)>>(
    s: &[u8],
    p: usize,
    read: &F,
    Ghost(el): Ghost<spec_fn(Seq<u8>, int) -> Option<(T::V, int)>>,
) -> (r: Option<(Vec<T>, usize)>)
    requires
        p <= s.len(),
        forall|q: usize| q <= s.len() ==> #[trigger] read.requires((s, q)),
        forall|q: usize, x: Option<(T, usize)>| #[trigger]
            read.ensures((s, q), x) ==> reads_like(s@, q, x, el),
    ensures
        reads_like(s@, p, r, el_list(el)),
{
    match read_u64(s, p) {
        Some((n, q)) => read_many(s, q, n, read, Ghost(el)),
        None => None,
    }
}

} // verus!
