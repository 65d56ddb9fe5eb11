//! Secure memory and string helpers: validated copy, move, fill and zero
//! operations over caller-owned byte ranges, together with bounded string
//! inspection and an overlap check.
//!
//! Every operation validates its arguments before touching memory and
//! returns one of the `NFC_SECURE_*` status codes; a failing call leaves the
//! destination exactly as it was. The optimizer-resistant store backends of
//! the C interface (platform secure-memset primitives, volatile writes,
//! fences) change how bytes are written, never which bytes are written; this
//! module states and verifies the latter.

use vstd::prelude::*;

use crate::bytebuf::ByteBuf;
use crate::bytebuf::append_bytes;
use crate::bytebuf::has_nul;
use crate::bytebuf::is_valid_utf8;
use crate::diag::Diag;
use crate::diag::dec_bytes;
use crate::diag::log_error;
use crate::diag::spec_dec_digits;
use vstd::string::StringSliceAdditionalSpecFns;
use vstd::utf8::valid_utf8;

verus! {

/// The operation completed its entire effect.
pub const NFC_SECURE_SUCCESS: i32 = 0;

/// A required pointer was NULL.
pub const NFC_SECURE_ERROR_INVALID: i32 = -1;

/// The destination is too small for the requested bytes.
pub const NFC_SECURE_ERROR_OVERFLOW: i32 = -2;

/// A size argument exceeds the architecture-aware sanity ceiling.
pub const NFC_SECURE_ERROR_RANGE: i32 = -3;

/// Historic code for zero-size requests, which now succeed as no-ops.
pub const NFC_SECURE_ERROR_ZERO_SIZE: i32 = -4;

/// An unexpected internal fault was caught at the foreign-call boundary.
pub const NFC_SECURE_ERROR_INTERNAL: i32 = -5;

/// The explicit sanity ceiling applied to sizes on 64-bit address spaces:
/// 1 << 47 bytes (128 TiB). Narrower platforms use a quarter of their
/// maximum representable size instead.
pub const NFC_SECURE_MAX_REASONABLE_SIZE_64: u64 = 0x8000_0000_0000;

/// Fill requests at or below this many bytes take the small-buffer store
/// path of the C backends; larger ones take the bulk path. Both paths write
/// the same bytes.
pub const NFC_SECURE_MEMSET_THRESHOLD: usize = 256;

/// The architecture-aware sanity ceiling for size arguments: 1 << 47 where
/// that fits the platform's `usize`, else a quarter of `usize::MAX`.
pub open spec fn spec_max_size() -> int {
    if usize::MAX as int / 4 < NFC_SECURE_MAX_REASONABLE_SIZE_64 as int {
        usize::MAX as int / 4
    } else {
        NFC_SECURE_MAX_REASONABLE_SIZE_64 as int
    }
}

/// The status that parameter validation for copy and move yields, in the
/// order the checks are applied: NULL pointers first, then the zero-size
/// no-op, then the per-size ceiling, then the defensive sum-overflow guard,
/// and last the destination-capacity check.
pub open spec fn spec_validate_copy(
    dst_null: bool,
    dst_size: int,
    src_null: bool,
    src_size: int,
) -> i32 {
    if dst_null || src_null {
        NFC_SECURE_ERROR_INVALID
    } else if src_size == 0 {
        NFC_SECURE_SUCCESS
    } else if src_size > spec_max_size() || dst_size > spec_max_size() {
        NFC_SECURE_ERROR_RANGE
    } else if dst_size + src_size > usize::MAX as int {
        NFC_SECURE_ERROR_RANGE
    } else if dst_size < src_size {
        NFC_SECURE_ERROR_OVERFLOW
    } else {
        NFC_SECURE_SUCCESS
    }
}

/// The status that parameter validation for fill and zero yields: NULL
/// first, then the zero-size no-op, then the size ceiling.
pub open spec fn spec_validate_fill(null: bool, size: int) -> i32 {
    if null {
        NFC_SECURE_ERROR_INVALID
    } else if size == 0 {
        NFC_SECURE_SUCCESS
    } else if size > spec_max_size() {
        NFC_SECURE_ERROR_RANGE
    } else {
        NFC_SECURE_SUCCESS
    }
}

/// The architecture-aware maximum acceptable size for secure operations.
/// Centralizes the 64-bit versus smaller-platform choice so every caller
/// applies the same ceiling.
fn secure_max_size() -> (r: usize)
    ensures
        r as int == spec_max_size(),
{
    let quarter: usize = usize::MAX / 4;
    if (quarter as u64) < NFC_SECURE_MAX_REASONABLE_SIZE_64 {
        quarter
    } else {
        NFC_SECURE_MAX_REASONABLE_SIZE_64 as usize
    }
}

/// Shared validation for copy and move: rejects NULL pointers, accepts a
/// zero-size request as a no-op, rejects implausibly large sizes before any
/// arithmetic on them, guards the sum of the sizes against overflow for the
/// benefit of future code that may add them, and finally checks that the
/// destination can hold the requested bytes.
pub fn validate_params(dst: &ByteBuf, dst_size: usize, src: &ByteBuf, src_size: usize) -> (r: i32)
    ensures
        r == spec_validate_copy(dst.null, dst_size as int, src.null, src_size as int),
{
    if dst.null || src.null {
        return NFC_SECURE_ERROR_INVALID;
    }
    if src_size == 0 {
        return NFC_SECURE_SUCCESS;
    }
    let max: usize = secure_max_size();
    if src_size > max || dst_size > max {
        return NFC_SECURE_ERROR_RANGE;
    }
    if dst_size > usize::MAX - src_size {
        return NFC_SECURE_ERROR_RANGE;
    }
    if dst_size < src_size {
        return NFC_SECURE_ERROR_OVERFLOW;
    }
    NFC_SECURE_SUCCESS
}

/// Shared validation for fill and zero: rejects a NULL pointer, accepts a
/// zero-size request as a no-op, and rejects sizes over the ceiling. The
/// pointer is taken as its NULL flag alone, so the raw store backends can
/// validate without copying the range.
pub fn validate_fill_params(is_null: bool, size: usize) -> (r: i32)
    ensures
        r == spec_validate_fill(is_null, size as int),
{
    if is_null {
        return NFC_SECURE_ERROR_INVALID;
    }
    if size == 0 {
        return NFC_SECURE_SUCCESS;
    }
    let max: usize = secure_max_size();
    if size > max {
        return NFC_SECURE_ERROR_RANGE;
    }
    NFC_SECURE_SUCCESS
}

/// Writes `value` into `data[0..size]`, leaving the rest unchanged.
fn fill_bytes(data: &mut Vec<u8>, value: u8, size: usize)
    requires
        size <= old(data)@.len(),
    ensures
        final(data)@.len() == old(data)@.len(),
        forall|i: int| 0 <= i < size ==> final(data)@[i] == value,
        forall|i: int| size <= i < final(data)@.len() ==> final(data)@[i] == old(data)@[i],
{
    let mut i: usize = 0;
    while i < size
        invariant
            0 <= i <= size <= data@.len(),
            data@.len() == old(data)@.len(),
            forall|j: int| 0 <= j < i ==> data@[j] == value,
            forall|j: int| i <= j < data@.len() ==> data@[j] == old(data)@[j],
        decreases size - i,
    {
        data.set(i, value);
        i = i + 1;
    }
}

/// Copies `src_size` bytes from `src` into `dst` after validating the
/// supplied sizes and pointers. The ranges must not overlap, which the
/// two distinct buffers guarantee; use [`nfc_safe_memmove`] for overlapping
/// transfers.
///
/// On success `dst` holds the first `src_size` bytes of `src`, with every
/// byte past that untouched; on any validation failure `dst` is unchanged.
pub fn nfc_safe_memcpy(dst: &mut ByteBuf, dst_size: usize, src: &ByteBuf, src_size: usize) -> (r:
    i32)
    requires
        spec_validate_copy(old(dst).null, dst_size as int, src.null, src_size as int)
            == NFC_SECURE_SUCCESS ==> src_size <= src.data@.len() && src_size <= old(dst).data@.len(),
    ensures
        r == spec_validate_copy(old(dst).null, dst_size as int, src.null, src_size as int),
        final(dst).null == old(dst).null,
        final(dst).data@.len() == old(dst).data@.len(),
        r == NFC_SECURE_SUCCESS ==> forall|i: int|
            0 <= i < src_size ==> final(dst).data@[i] == src.data@[i],
        r == NFC_SECURE_SUCCESS ==> forall|i: int|
            src_size <= i < final(dst).data@.len() ==> final(dst).data@[i] == old(dst).data@[i],
        r != NFC_SECURE_SUCCESS ==> final(dst).data@ == old(dst).data@,
{
    let res = validate_params(dst, dst_size, src, src_size);
    if res != NFC_SECURE_SUCCESS {
        return res;
    }
    if src_size == 0 {
        return NFC_SECURE_SUCCESS;
    }
    let mut i: usize = 0;
    while i < src_size
        invariant
            0 <= i <= src_size,
            src_size <= src.data@.len(),
            src_size <= dst.data@.len(),
            dst.null == old(dst).null,
            dst.data@.len() == old(dst).data@.len(),
            forall|j: int| 0 <= j < i ==> dst.data@[j] == src.data@[j],
            forall|j: int| i <= j < dst.data@.len() ==> dst.data@[j] == old(dst).data@[j],
        decreases src_size - i,
    {
        let b = src.data[i];
        dst.data.set(i, b);
        i = i + 1;
    }
    NFC_SECURE_SUCCESS
}

/// Like [`nfc_safe_memcpy`] but safe for overlapping ranges: both ranges
/// live in the one buffer, `src_size` bytes at `src_off` are transferred to
/// `dst_off`, and the transfer behaves as if the source bytes were staged
/// first, however the two ranges overlap.
///
/// On success `buf[dst_off..dst_off + src_size]` holds the bytes that
/// `buf[src_off..src_off + src_size]` held before the call, every position
/// outside the destination range is untouched, and on any validation
/// failure the buffer is unchanged.
pub fn nfc_safe_memmove(
    buf: &mut ByteBuf,
    dst_off: usize,
    dst_size: usize,
    src_off: usize,
    src_size: usize,
) -> (r: i32)
    requires
        spec_validate_copy(old(buf).null, dst_size as int, old(buf).null, src_size as int)
            == NFC_SECURE_SUCCESS ==> dst_off + src_size <= old(buf).data@.len() && src_off
            + src_size <= old(buf).data@.len(),
    ensures
        r == spec_validate_copy(old(buf).null, dst_size as int, old(buf).null, src_size as int),
        final(buf).null == old(buf).null,
        final(buf).data@.len() == old(buf).data@.len(),
        r == NFC_SECURE_SUCCESS ==> forall|i: int|
            #![trigger final(buf).data@[dst_off + i]]
            0 <= i < src_size ==> final(buf).data@[dst_off + i] == old(buf).data@[src_off + i],
        r == NFC_SECURE_SUCCESS ==> forall|j: int|
            0 <= j < final(buf).data@.len() && !(dst_off <= j < dst_off + src_size) ==> final(buf).data@[j] == old(buf).data@[j],
        r != NFC_SECURE_SUCCESS ==> final(buf).data@ == old(buf).data@,
{
    let res = validate_params(buf, dst_size, buf, src_size);
    if res != NFC_SECURE_SUCCESS {
        return res;
    }
    if src_size == 0 {
        return NFC_SECURE_SUCCESS;
    }
    let total: usize = buf.data.len();
    if dst_off <= src_off {
        // Forward scan: every read at src_off + k sits at or beyond the
        // write position dst_off + k, so no byte is overwritten before it
        // is read.
        let mut i: usize = 0;
        while i < src_size
            invariant
                0 <= i <= src_size,
                dst_off <= src_off,
                total == buf.data@.len(),
                dst_off + src_size <= total,
                src_off + src_size <= total,
                buf.null == old(buf).null,
                buf.data@.len() == old(buf).data@.len(),
                forall|k: int|
                    #![trigger buf.data@[dst_off + k]]
                    0 <= k < i ==> buf.data@[dst_off + k] == old(buf).data@[src_off + k],
                forall|j: int|
                    0 <= j < buf.data@.len() && !(dst_off <= j < dst_off + i) ==> buf.data@[j]
                        == old(buf).data@[j],
            decreases src_size - i,
        {
            let b = buf.data[src_off + i];
            assert(b == old(buf).data@[src_off + i as int]);
            buf.data.set(dst_off + i, b);
            i = i + 1;
        }
    } else {
        // Backward scan: writes walk down from the top of the destination
        // range, so every pending read below stays untouched.
        let mut i: usize = src_size;
        while i > 0
            invariant
                0 <= i <= src_size,
                src_off < dst_off,
                total == buf.data@.len(),
                dst_off + src_size <= total,
                src_off + src_size <= total,
                buf.null == old(buf).null,
                buf.data@.len() == old(buf).data@.len(),
                forall|k: int|
                    #![trigger buf.data@[dst_off + k]]
                    i <= k < src_size ==> buf.data@[dst_off + k] == old(buf).data@[src_off + k],
                forall|j: int|
                    0 <= j < buf.data@.len() && !(dst_off + i <= j < dst_off + src_size)
                        ==> buf.data@[j] == old(buf).data@[j],
            decreases i,
        {
            i = i - 1;
            let b = buf.data[src_off + i];
            assert(b == old(buf).data@[src_off + i as int]);
            buf.data.set(dst_off + i, b);
        }
    }
    NFC_SECURE_SUCCESS
}

/// Sets `size` bytes at the start of `buf` to the byte `value`.
///
/// The C backends prefer platform primitives documented not to be optimized
/// away and fall back to volatile or fenced stores; all of them write the
/// bytes this contract states. On success every byte in `buf[0..size]`
/// equals `value` and the rest are untouched; on any validation failure the
/// buffer is unchanged.
pub fn nfc_secure_memset(buf: &mut ByteBuf, value: u8, size: usize) -> (r: i32)
    requires
        spec_validate_fill(old(buf).null, size as int) == NFC_SECURE_SUCCESS ==> size <= old(buf).data@.len(),
    ensures
        r == spec_validate_fill(old(buf).null, size as int),
        final(buf).null == old(buf).null,
        final(buf).data@.len() == old(buf).data@.len(),
        r == NFC_SECURE_SUCCESS ==> forall|i: int|
            0 <= i < size ==> final(buf).data@[i] == value,
        r == NFC_SECURE_SUCCESS ==> forall|i: int|
            size <= i < final(buf).data@.len() ==> final(buf).data@[i] == old(buf).data@[i],
        r != NFC_SECURE_SUCCESS ==> final(buf).data@ == old(buf).data@,
{
    if buf.null {
        return NFC_SECURE_ERROR_INVALID;
    }
    if size == 0 {
        return NFC_SECURE_SUCCESS;
    }
    let max: usize = secure_max_size();
    if size > max {
        return NFC_SECURE_ERROR_RANGE;
    }
    fill_bytes(&mut buf.data, value, size);
    NFC_SECURE_SUCCESS
}

/// Sets `size` bytes at the start of `buf` to zero.
///
/// This is the recommended call for erasing secret material: the C backends
/// prefer zero-only primitives, which are more widely available and, where
/// documented, give stronger guarantees than the generic fill. The bytes
/// written are the same as `nfc_secure_memset` with a zero value.
pub fn nfc_secure_zero(buf: &mut ByteBuf, size: usize) -> (r: i32)
    requires
        spec_validate_fill(old(buf).null, size as int) == NFC_SECURE_SUCCESS ==> size <= old(buf).data@.len(),
    ensures
        r == spec_validate_fill(old(buf).null, size as int),
        final(buf).null == old(buf).null,
        final(buf).data@.len() == old(buf).data@.len(),
        r == NFC_SECURE_SUCCESS ==> forall|i: int| 0 <= i < size ==> final(buf).data@[i] == 0,
        r == NFC_SECURE_SUCCESS ==> forall|i: int|
            size <= i < final(buf).data@.len() ==> final(buf).data@[i] == old(buf).data@[i],
        r != NFC_SECURE_SUCCESS ==> final(buf).data@ == old(buf).data@,
{
    if buf.null {
        return NFC_SECURE_ERROR_INVALID;
    }
    if size == 0 {
        return NFC_SECURE_SUCCESS;
    }
    let max: usize = secure_max_size();
    if size > max {
        return NFC_SECURE_ERROR_RANGE;
    }
    fill_bytes(&mut buf.data, 0, size);
    NFC_SECURE_SUCCESS
}

/// The static description for each status code.
pub open spec fn spec_strerror(code: i32) -> Seq<char> {
    if code == NFC_SECURE_SUCCESS {
        "Success"@
    } else if code == NFC_SECURE_ERROR_INVALID {
        "Invalid parameter (NULL pointer or invalid input)"@
    } else if code == NFC_SECURE_ERROR_OVERFLOW {
        "Buffer overflow prevented (destination too small)"@
    } else if code == NFC_SECURE_ERROR_RANGE {
        "Size parameter out of valid range"@
    } else if code == NFC_SECURE_ERROR_ZERO_SIZE {
        "Zero-size operation (deprecated, now treated as success)"@
    } else {
        "Unknown error code"@
    }
}

/// Maps a status code to a static description. The text is owned by the
/// library; unknown codes map to a generic message.
pub fn nfc_secure_strerror(code: i32) -> (r: &'static str)
    ensures
        r@ == spec_strerror(code),
{
    if code == NFC_SECURE_SUCCESS {
        "Success"
    } else if code == NFC_SECURE_ERROR_INVALID {
        "Invalid parameter (NULL pointer or invalid input)"
    } else if code == NFC_SECURE_ERROR_OVERFLOW {
        "Buffer overflow prevented (destination too small)"
    } else if code == NFC_SECURE_ERROR_RANGE {
        "Size parameter out of valid range"
    } else if code == NFC_SECURE_ERROR_ZERO_SIZE {
        "Zero-size operation (deprecated, now treated as success)"
    } else {
        "Unknown error code"
    }
}

/// The count of bytes before the first NUL in `data`, scanning no further
/// than `max` positions and never past the end of `data`.
pub open spec fn spec_bounded_strlen(data: Seq<u8>, max: int, i: int) -> int
    decreases max - i,
{
    if i >= max || i >= data.len() || data[i] == 0 {
        i
    } else {
        spec_bounded_strlen(data, max, i + 1)
    }
}

/// Computes the length of a NUL-terminated string without reading more than
/// `maxlen` bytes. A NULL pointer yields 0, and the result never exceeds
/// `maxlen`.
pub fn nfc_safe_strlen(s: &ByteBuf, maxlen: usize) -> (r: usize)
    requires
        s.null || maxlen <= s.data@.len() || has_nul(s.data@, s.data@.len() as int),
    ensures
        s.null ==> r == 0,
        maxlen == 0 ==> r == 0,
        !s.null ==> r == spec_bounded_strlen(s.data@, maxlen as int, 0),
        r <= maxlen,
{
    if s.null {
        return 0;
    }
    let n: usize = s.data.len();
    let mut len: usize = 0;
    while len < maxlen && len < n && s.data[len] != 0
        invariant
            0 <= len <= maxlen,
            n == s.data@.len(),
            spec_bounded_strlen(s.data@, maxlen as int, 0) == spec_bounded_strlen(
                s.data@,
                maxlen as int,
                len as int,
            ),
        decreases maxlen - len,
    {
        len = len + 1;
    }
    len
}

/// Reports whether `buf[0..bufsize]` contains a NUL terminator: 1 when one
/// is found, 0 otherwise, and 0 for a NULL pointer. The scan reads raw
/// bytes; no text encoding is assumed.
pub fn nfc_is_null_terminated(buf: &ByteBuf, bufsize: usize) -> (r: i32)
    requires
        buf.null || bufsize <= buf.data@.len(),
    ensures
        r == 1 || r == 0,
        r == 1 <==> !buf.null && has_nul(buf.data@, bufsize as int),
{
    if buf.null || bufsize == 0 {
        return 0;
    }
    let mut i: usize = 0;
    while i < bufsize
        invariant
            !buf.null,
            0 <= i <= bufsize <= buf.data@.len(),
            forall|j: int| 0 <= j < i ==> buf.data@[j] != 0,
        decreases bufsize - i,
    {
        if buf.data[i] == 0 {
            assert(has_nul(buf.data@, bufsize as int));
            return 1;
        }
        i = i + 1;
    }
    0
}

/// Ensures a buffer of `bufsize` bytes holds a NUL terminator: when none is
/// found within bounds, the last byte is overwritten with one — a
/// destructive but safe normalization. A NULL pointer or a zero size leaves
/// everything untouched.
pub fn nfc_ensure_null_terminated(buf: &mut ByteBuf, bufsize: usize)
    requires
        old(buf).null || bufsize <= old(buf).data@.len(),
    ensures
        final(buf).null == old(buf).null,
        old(buf).null || bufsize == 0 || has_nul(old(buf).data@, bufsize as int) ==> final(buf).data@ == old(buf).data@,
        !old(buf).null && bufsize > 0 && !has_nul(old(buf).data@, bufsize as int) ==> final(buf).data@ == old(buf).data@.update(bufsize - 1, 0u8),
{
    if buf.null || bufsize == 0 {
        return ;
    }
    let mut i: usize = 0;
    while i < bufsize
        invariant
            !old(buf).null,
            0 < bufsize <= buf.data@.len(),
            0 <= i <= bufsize,
            buf.null == old(buf).null,
            buf.data@ == old(buf).data@,
            forall|j: int| 0 <= j < i ==> buf.data@[j] != 0,
        decreases bufsize - i,
    {
        if buf.data[i] == 0 {
            return ;
        }
        i = i + 1;
    }
    buf.data.set(bufsize - 1, 0);
}

/// True when the address ranges `[dst, dst + dst_size)` and
/// `[src, src + src_size)` intersect, under the overflow-checked end-address
/// arithmetic the implementation uses: a range whose end would wrap past the
/// address space contributes no intersection, and a zero (NULL) address
/// never overlaps, by convention.
pub open spec fn spec_ranges_overlap(dst: int, dst_size: int, src: int, src_size: int) -> bool {
    dst != 0 && src != 0 && ((dst >= src && src + src_size <= usize::MAX as int && dst < src
        + src_size) || (src >= dst && dst + dst_size <= usize::MAX as int && src < dst + dst_size))
}

/// Reports whether two address ranges overlap, computing on plain addresses:
/// 1 on overlap, 0 otherwise, and 0 whenever either address is zero,
/// matching the NULL convention of the pointer-based interface.
pub fn nfc_buffers_overlap_usize(
    dst_addr: usize,
    dst_size: usize,
    src_addr: usize,
    src_size: usize,
) -> (r: i32)
    ensures
        r == 1 || r == 0,
        r == 1 <==> spec_ranges_overlap(
            dst_addr as int,
            dst_size as int,
            src_addr as int,
            src_size as int,
        ),
{
    if dst_addr == 0 || src_addr == 0 {
        return 0;
    }
    if dst_addr >= src_addr {
        if src_size <= usize::MAX - src_addr && dst_addr < src_addr + src_size {
            return 1;
        }
    }
    if src_addr >= dst_addr {
        if dst_size <= usize::MAX - dst_addr && src_addr < dst_addr + dst_size {
            return 1;
        }
    }
    0
}

/// The machine word whose low `lanes` byte lanes each hold `byte`, built by
/// OR-ing shifted copies lane by lane.
pub open spec fn spec_repeated_byte(byte: u8, lanes: nat) -> usize
    decreases lanes,
{
    if lanes == 0 {
        0usize
    } else {
        spec_repeated_byte(byte, (lanes - 1) as nat) | ((byte as usize) << (8 * (lanes - 1)))
    }
}

/// The pattern occupies only its `lanes` low byte lanes: everything above
/// them is zero.
proof fn lemma_repeated_byte_bound(byte: u8, lanes: nat)
    requires
        8 * lanes < usize::BITS,
    ensures
        spec_repeated_byte(byte, lanes) >> ((8 * lanes) as usize) == 0usize,
    decreases lanes,
{
    if lanes == 0 {
        let z = spec_repeated_byte(byte, 0);
        assert(z == 0usize);
        assert(0usize >> 0usize == 0usize) by (bit_vector);
    } else {
        let l1 = (lanes - 1) as nat;
        lemma_repeated_byte_bound(byte, l1);
        let a = spec_repeated_byte(byte, l1);
        let b = byte as usize;
        let sh1 = (8 * l1) as usize;
        let sh = (8 * lanes) as usize;
        assert((a | (b << sh1)) >> sh == 0usize) by (bit_vector)
            requires
                a >> sh1 == 0usize,
                b < 256usize,
                sh == sh1 + 8,
                sh < usize::BITS,
        ;
    }
}

/// Every byte lane the pattern covers holds the byte: lane `k` of the word
/// the word-sized store backends write reads back as `byte`.
pub proof fn lemma_repeated_byte_lanes(byte: u8, lanes: nat, k: nat)
    requires
        k < lanes,
        8 * lanes <= usize::BITS,
    ensures
        (spec_repeated_byte(byte, lanes) >> ((8 * k) as usize)) & 0xff == byte as usize,
    decreases lanes,
{
    let l1 = (lanes - 1) as nat;
    let a = spec_repeated_byte(byte, l1);
    let b = byte as usize;
    let sh1 = (8 * l1) as usize;
    let shk = (8 * k) as usize;
    if k == l1 {
        lemma_repeated_byte_bound(byte, l1);
        assert(((a | (b << sh1)) >> sh1) & 0xff == b) by (bit_vector)
            requires
                a >> sh1 == 0usize,
                b < 256usize,
                sh1 + 8 <= usize::BITS,
        ;
    } else {
        lemma_repeated_byte_lanes(byte, l1, k);
        assert(((a | (b << sh1)) >> shk) & 0xff == (a >> shk) & 0xff) by (bit_vector)
            requires
                b < 256usize,
                shk + 8 <= sh1,
                sh1 + 8 <= usize::BITS,
        ;
    }
}

/// Builds a machine word whose every byte lane holds `byte`, by a
/// shift-based construction so each lane receives the exact value without
/// depending on multiplication edge cases. The word-sized store backends
/// write this pattern.
pub fn repeated_byte_pattern(byte: u8) -> (r: usize)
    ensures
        r == spec_repeated_byte(byte, vstd::layout::size_of::<usize>()),
{
    proof {
        broadcast use vstd::layout::layout_of_primitives;
    }
    let width: usize = core::mem::size_of::<usize>();
    let mut pattern: usize = 0;
    let mut shift: usize = 0;
    while shift < width
        invariant
            0 <= shift <= width,
            width as nat == vstd::layout::size_of::<usize>(),
            width * 8 == usize::BITS,
            pattern == spec_repeated_byte(byte, shift as nat),
        decreases width - shift,
    {
        pattern = pattern | ((byte as usize) << (shift * 8));
        shift = shift + 1;
    }
    pattern
}

/// The small-buffer threshold of the fill backends.
pub fn nfc_secure_memset_threshold() -> (r: usize)
    ensures
        r == NFC_SECURE_MEMSET_THRESHOLD,
{
    NFC_SECURE_MEMSET_THRESHOLD
}

/// The 64-bit sanity ceiling constant.
pub fn nfc_secure_max_reasonable_size() -> (r: u64)
    ensures
        r == NFC_SECURE_MAX_REASONABLE_SIZE_64,
{
    NFC_SECURE_MAX_REASONABLE_SIZE_64
}

/// The sanity ceiling in force on this platform.
pub fn nfc_secure_max_size_usize() -> (r: usize)
    ensures
        r as int == spec_max_size(),
{
    secure_max_size()
}

/// True when `n` is a power of two.
pub open spec fn spec_is_power_of_2(n: usize) -> bool {
    n != 0 && (n & ((n - 1) as usize)) == 0
}

/// Reports whether `n` is a power of two.
fn is_power_of_2(n: usize) -> (r: bool)
    ensures
        r == spec_is_power_of_2(n),
{
    n != 0 && (n & (n - 1)) == 0
}

/// When a destination size looks like a pointer was passed where an array
/// size belonged: it equals the pointer size, or is a small power of two.
pub open spec fn spec_suspicious_size(sz: usize, ptr_size: usize) -> bool {
    (sz == ptr_size && sz <= 16) || (spec_is_power_of_2(sz) && sz <= 16)
}

/// The warning line the heuristic logs: the calling function's name (or a
/// placeholder when it is NULL or not valid UTF-8), the size, and the
/// pointer size.
pub open spec fn spec_suspicious_msg(func_name: ByteBuf, sz: usize, ptr_size: usize) -> Seq<u8> {
    (if func_name.null {
        "<unknown>".spec_bytes()
    } else if !valid_utf8(func_name.data@) {
        "<non-utf8>".spec_bytes()
    } else {
        func_name.data@
    }) + ": WARNING - dst_size=".spec_bytes() + spec_dec_digits(sz as int)
        + " matches pointer size (".spec_bytes() + spec_dec_digits(ptr_size as int)
        + " bytes). Did you pass a pointer instead of an array?".spec_bytes()
}

/// Debug heuristic that logs a warning when `dst_size` looks suspicious:
/// equal to the pointer size, or a small power of two. That often means a
/// pointer or a byte count was passed where an array size belonged. The
/// pointer size is taken as the machine word's, which pointers to sized
/// types share.
pub fn nfc_check_suspicious_size(d: &mut Diag, dst_size: usize, func_name: &ByteBuf)
    ensures
        final(d).last_error == old(d).last_error,
        ({
            let ptr_size = vstd::layout::size_of_as_usize::<usize>();
            &&& (!spec_suspicious_size(dst_size, ptr_size) ==> final(d).last_log == old(
                d,
            ).last_log)
            &&& (spec_suspicious_size(dst_size, ptr_size) ==> (final(d).last_log matches Some(v)
                && v@ == spec_suspicious_msg(*func_name, dst_size, ptr_size)))
        }),
{
    let ptr_size: usize = core::mem::size_of::<usize>();
    let suspicious = (dst_size == ptr_size && dst_size <= 16) || (is_power_of_2(dst_size)
        && dst_size <= 16);
    if !suspicious {
        return ;
    }
    let mut msg: Vec<u8> = Vec::new();
    if func_name.null {
        append_bytes(&mut msg, "<unknown>".as_bytes());
    } else if !is_valid_utf8(func_name.data.as_slice()) {
        append_bytes(&mut msg, "<non-utf8>".as_bytes());
    } else {
        append_bytes(&mut msg, func_name.data.as_slice());
    }
    append_bytes(&mut msg, ": WARNING - dst_size=".as_bytes());
    let d1 = dec_bytes(dst_size);
    append_bytes(&mut msg, d1.as_slice());
    append_bytes(&mut msg, " matches pointer size (".as_bytes());
    let d2 = dec_bytes(ptr_size);
    append_bytes(&mut msg, d2.as_slice());
    append_bytes(&mut msg, " bytes). Did you pass a pointer instead of an array?".as_bytes());
    log_error(d, msg);
}

} // verus!
