//! A model of the caller-owned byte ranges that the C interface hands in.
//!
//! A `ByteBuf` stands for one pointer argument together with the memory it
//! addresses: `null` says whether the pointer was NULL, and `data` holds the
//! bytes the pointer is valid for. A NULL pointer addresses no memory, so a
//! null `ByteBuf` carries no data.

use vstd::prelude::*;

verus! {

/// One caller-owned byte range: a possibly-NULL pointer and the bytes it
/// addresses. For a string argument, `data` holds the bytes before the
/// terminator.
pub struct ByteBuf {
    /// True when the caller passed a NULL pointer.
    pub null: bool,
    /// The bytes the pointer is valid for (empty when `null`).
    pub data: Vec<u8>,
}

impl ByteBuf {
    /// The range a NULL pointer stands for.
    pub fn null_ptr() -> (r: ByteBuf)
        ensures
            r.null,
            r.data@ == Seq::<u8>::empty(),
    {
        ByteBuf { null: true, data: Vec::new() }
    }

    /// A non-NULL range holding the given bytes.
    pub fn from_vec(data: Vec<u8>) -> (r: ByteBuf)
        ensures
            !r.null,
            r.data@ == data@,
    {
        ByteBuf { null: false, data }
    }

    /// The bytes a C-string argument denotes: a NULL pointer is read as the
    /// empty string where the interface tolerates NULL.
    pub open spec fn str_bytes(&self) -> Seq<u8> {
        if self.null {
            Seq::<u8>::empty()
        } else {
            self.data@
        }
    }
}

/// True when `data[0..n]` holds a NUL byte.
pub open spec fn has_nul(data: Seq<u8>, n: int) -> bool {
    exists|i: int| 0 <= i < n && i < data.len() && data[i] == 0
}

/// Appends every byte of `src` to `dst`.
pub fn append_bytes(dst: &mut Vec<u8>, src: &[u8])
    ensures
        final(dst)@ == old(dst)@ + src@,
{
    let mut i: usize = 0;
    while i < src.len()
        invariant
            0 <= i <= src@.len(),
            dst@ == old(dst)@ + src@.subrange(0, i as int),
        decreases src@.len() - i,
    {
        dst.push(src[i]);
        i = i + 1;
        assert(dst@ == old(dst)@ + src@.subrange(0, i as int));
    }
    assert(src@.subrange(0, src@.len() as int) == src@);
}

/// A fresh copy of the bytes of `src`.
pub fn copy_bytes(src: &Vec<u8>) -> (r: Vec<u8>)
    ensures
        r@ == src@,
{
    let mut out: Vec<u8> = Vec::new();
    append_bytes(&mut out, src.as_slice());
    out
}

/// The first index at or after `i` where `s` holds the byte `b`.
pub open spec fn spec_find_byte(s: Seq<u8>, b: u8, i: int) -> Option<int>
    recommends
        0 <= i,
    decreases s.len() - i,
{
    if !(0 <= i < s.len()) {
        None
    } else if s[i] == b {
        Some(i)
    } else {
        spec_find_byte(s, b, i + 1)
    }
}

/// The first index at or after `i` where `pat` occurs in `hay`.
pub open spec fn spec_find_sub(hay: Seq<u8>, pat: Seq<u8>, i: int) -> Option<int>
    recommends
        0 <= i,
    decreases hay.len() + 1 - i,
{
    if i + pat.len() > hay.len() || i < 0 {
        None
    } else if hay.subrange(i, i + pat.len() as int) == pat {
        Some(i)
    } else {
        spec_find_sub(hay, pat, i + 1)
    }
}

/// True when `s` begins with `p`.
pub open spec fn spec_starts_with(s: Seq<u8>, p: Seq<u8>) -> bool {
    p.len() <= s.len() && s.subrange(0, p.len() as int) == p
}

/// A fresh copy of `v[a..b]`.
pub fn sub_vec(v: &Vec<u8>, a: usize, b: usize) -> (r: Vec<u8>)
    requires
        a <= b <= v@.len(),
    ensures
        r@ == v@.subrange(a as int, b as int),
{
    let mut out: Vec<u8> = Vec::new();
    let mut i: usize = a;
    while i < b
        invariant
            a <= i <= b <= v@.len(),
            out@ == v@.subrange(a as int, i as int),
        decreases b - i,
    {
        out.push(v[i]);
        i = i + 1;
        assert(out@ == v@.subrange(a as int, i as int));
    }
    out
}

/// Compares two byte vectors for equality.
pub fn bytes_eq(a: &Vec<u8>, b: &Vec<u8>) -> (r: bool)
    ensures
        r == (a@ == b@),
{
    if a.len() != b.len() {
        return false;
    }
    let mut i: usize = 0;
    while i < a.len()
        invariant
            0 <= i <= a@.len(),
            a@.len() == b@.len(),
            forall|j: int| 0 <= j < i ==> a@[j] == b@[j],
        decreases a@.len() - i,
    {
        if a[i] != b[i] {
            return false;
        }
        i = i + 1;
    }
    proof {
        assert(a@ =~= b@);
    }
    true
}

/// Reports whether `s` begins with `p`.
pub fn starts_with_bytes(s: &Vec<u8>, p: &Vec<u8>) -> (r: bool)
    ensures
        r == spec_starts_with(s@, p@),
{
    if p.len() > s.len() {
        return false;
    }
    let mut i: usize = 0;
    while i < p.len()
        invariant
            0 <= i <= p@.len() <= s@.len(),
            forall|j: int| 0 <= j < i ==> s@[j] == p@[j],
        decreases p@.len() - i,
    {
        if s[i] != p[i] {
            assert(s@.subrange(0, p@.len() as int)[i as int] != p@[i as int]);
            return false;
        }
        i = i + 1;
    }
    proof {
        assert(s@.subrange(0, p@.len() as int) =~= p@);
    }
    true
}

/// The first position at or after `start` holding the byte `b`, if any.
pub fn find_byte_from(v: &Vec<u8>, b: u8, start: usize) -> (r: Option<usize>)
    ensures
        match r {
            Some(i) => start <= i < v@.len() && spec_find_byte(v@, b, start as int) == Some(
                i as int,
            ),
            None => spec_find_byte(v@, b, start as int) is None,
        },
{
    let mut i: usize = start;
    while i < v.len()
        invariant
            start <= i,
            spec_find_byte(v@, b, start as int) == spec_find_byte(v@, b, i as int),
        decreases v@.len() - i,
    {
        if v[i] == b {
            return Some(i);
        }
        i = i + 1;
    }
    None
}

/// Reports whether `pat` occurs in `hay` starting at position `i`.
fn match_at(hay: &Vec<u8>, i: usize, pat: &Vec<u8>) -> (r: bool)
    requires
        i + pat@.len() <= hay@.len(),
    ensures
        r == (hay@.subrange(i as int, i + pat@.len() as int) == pat@),
{
    let hlen = hay.len();
    let mut k: usize = 0;
    while k < pat.len()
        invariant
            0 <= k <= pat@.len(),
            hlen == hay@.len(),
            i + pat@.len() <= hlen,
            forall|j: int| 0 <= j < k ==> hay@[i + j] == pat@[j],
        decreases pat@.len() - k,
    {
        if hay[i + k] != pat[k] {
            assert(hay@.subrange(i as int, i + pat@.len() as int)[k as int] != pat@[k as int]);
            return false;
        }
        k = k + 1;
    }
    proof {
        assert(hay@.subrange(i as int, i + pat@.len() as int) =~= pat@);
    }
    true
}

/// The first position where `pat` occurs in `hay`, if any.
pub fn find_sub_bytes(hay: &Vec<u8>, pat: &Vec<u8>) -> (r: Option<usize>)
    ensures
        match r {
            Some(i) => i + pat@.len() <= hay@.len() && spec_find_sub(hay@, pat@, 0) == Some(
                i as int,
            ),
            None => spec_find_sub(hay@, pat@, 0) is None,
        },
{
    let hlen = hay.len();
    let plen = pat.len();
    if plen > hlen {
        return None;
    }
    let mut i: usize = 0;
    loop
        invariant
            0 <= i <= hlen - plen,
            plen <= hlen,
            hlen == hay@.len(),
            plen == pat@.len(),
            spec_find_sub(hay@, pat@, 0) == spec_find_sub(hay@, pat@, i as int),
        decreases hlen - plen - i,
    {
        if match_at(hay, i, pat) {
            return Some(i);
        }
        if i == hlen - plen {
            assert(spec_find_sub(hay@, pat@, i + 1) is None);
            return None;
        }
        i = i + 1;
    }
}

/// Relies on core::str::from_utf8, which succeeds exactly when the bytes
/// are a valid UTF-8 encoding, the notion `vstd::utf8::valid_utf8` defines.
#[verifier::external_body]
pub fn is_valid_utf8(b: &[u8]) -> (r: bool)
    ensures
        r == vstd::utf8::valid_utf8(b@),
{
    core::str::from_utf8(b).is_ok()
}

/// What lossy UTF-8 decoding turns the given bytes into: it depends on the
/// bytes alone.
pub uninterp spec fn utf8_lossy(bytes: Seq<u8>) -> Seq<u8>;

/// Relies on String::from_utf8_lossy: each invalid sequence is replaced
/// with the replacement character, depending on the bytes alone, and valid
/// UTF-8 comes back unchanged.
#[verifier::external_body]
pub fn lossy_utf8_bytes(b: &[u8]) -> (r: Vec<u8>)
    ensures
        r@ == utf8_lossy(b@),
        vstd::utf8::valid_utf8(b@) ==> r@ == b@,
{
    String::from_utf8_lossy(b).into_owned().into_bytes()
}

} // verus!
