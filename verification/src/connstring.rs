//! The connection-string codec.
//!
//! A connection string is `<segment0>[':'<segment1>[':'<segment2>]]`: up to
//! three colon-delimited segments, with anything after a third colon
//! ignored. [`connstring_decode`] tokenizes one against a driver-name and a
//! bus-name candidate; [`nfc_parse_connstring`] extracts a named
//! `name=value` parameter from the portion after a required prefix; and
//! [`nfc_build_connstring`] assembles the canonical `driver:name=value`
//! form. Parsing and building record their diagnostics in a
//! [`crate::diag::Diag`] channel.

use vstd::prelude::*;

use crate::bytebuf::ByteBuf;
use crate::bytebuf::append_bytes;
use crate::bytebuf::bytes_eq;
use crate::bytebuf::copy_bytes;
use crate::bytebuf::find_byte_from;
use crate::bytebuf::find_sub_bytes;
use crate::bytebuf::is_valid_utf8;
use crate::bytebuf::spec_find_byte;
use crate::bytebuf::spec_find_sub;
use crate::bytebuf::spec_starts_with;
use crate::bytebuf::starts_with_bytes;
use crate::bytebuf::sub_vec;
use crate::diag::Diag;
use crate::diag::DiagMsg;
use crate::diag::Utf8Context;
use crate::diag::diag_message_bytes;
use crate::diag::log_debug;
use crate::diag::log_error;
use crate::diag::reset_last_error;
use crate::diag::set_last_error_message;
use vstd::utf8::valid_utf8;

verus! {

/// The call completed its entire effect.
pub const NFC_COMMON_SUCCESS: i32 = 0;

/// A grammar or semantic mismatch: prefix not matched, parameter absent,
/// or a value that does not fit.
pub const NFC_COMMON_ERROR: i32 = -1;

/// A structural failure caught before any memory access: a NULL or
/// malformed input, or a zero-size buffer. The value is the negated
/// invalid-argument errno the C headers use.
pub const NFC_COMMON_INVALID: i32 = -22;

/// The most bytes of a connection string the decoder reads, and the most
/// bytes of a segment it hands back.
pub const NFC_BUFSIZE_CONNSTRING: usize = 1024;

/// The ASCII colon that delimits segments.
pub const COLON: u8 = 58;

/// The ASCII equals sign that separates a parameter name from its value.
pub const EQUALS: u8 = 61;

/// Splits `data` at the first occurrence of `delimiter`: the part before
/// it, and — when the delimiter occurs — the part after it.
pub fn split_at_first<'a>(data: &'a [u8], delimiter: u8) -> (r: (&'a [u8], Option<&'a [u8]>))
    ensures
        match spec_find_byte(data@, delimiter, 0) {
            Some(p) => r.1 is Some && r.0@ == data@.subrange(0, p) && r.1->0@ == data@.subrange(
                p + 1,
                data@.len() as int,
            ),
            None => r.0@ == data@ && r.1 is None,
        },
{
    let n = data.len();
    let mut i: usize = 0;
    while i < n
        invariant
            0 <= i <= n,
            n == data@.len(),
            spec_find_byte(data@, delimiter, 0) == spec_find_byte(data@, delimiter, i as int),
        decreases n - i,
    {
        if data[i] == delimiter {
            return (&data[0..i], Some(&data[i + 1..n]));
        }
        i = i + 1;
    }
    (data, None)
}

/// The portion of a connection string the decoder reads: everything, up to
/// the fixed maximum length.
pub open spec fn spec_effective_conn(conn: Seq<u8>) -> Seq<u8> {
    if conn.len() > NFC_BUFSIZE_CONNSTRING as int {
        conn.subrange(0, NFC_BUFSIZE_CONNSTRING as int)
    } else {
        conn
    }
}

/// The bytes before the first colon, or all of `s` when it has none.
pub open spec fn spec_split_head(s: Seq<u8>) -> Seq<u8> {
    match spec_find_byte(s, COLON, 0) {
        Some(p) => s.subrange(0, p),
        None => s,
    }
}

/// The bytes after the first colon, when `s` has one.
pub open spec fn spec_split_tail(s: Seq<u8>) -> Option<Seq<u8>> {
    match spec_find_byte(s, COLON, 0) {
        Some(p) => Some(s.subrange(p + 1, s.len() as int)),
        None => None,
    }
}

/// The match level the decoder reports: 0 when the first segment equals
/// neither candidate (a NULL candidate reads as the empty string) or the
/// string itself is NULL; otherwise 1 plus the number of parameter segments
/// present, at most 3.
pub open spec fn spec_decode_level(conn: ByteBuf, driver: ByteBuf, bus: ByteBuf) -> int {
    if conn.null {
        0
    } else {
        let s = spec_effective_conn(conn.data@);
        let seg0 = spec_split_head(s);
        if seg0 != driver.str_bytes() && seg0 != bus.str_bytes() {
            0
        } else {
            match spec_split_tail(s) {
                None => 1,
                Some(rem) => match spec_split_tail(rem) {
                    None => 2,
                    Some(_) => 3,
                },
            }
        }
    }
}

/// The first parameter segment, meaningful at match level 2 or above.
pub open spec fn spec_decode_param1(conn: ByteBuf) -> Seq<u8> {
    spec_split_head(spec_split_tail(spec_effective_conn(conn.data@)).unwrap())
}

/// The second parameter segment, meaningful at match level 3.
pub open spec fn spec_decode_param2(conn: ByteBuf) -> Seq<u8> {
    let rem = spec_split_tail(spec_effective_conn(conn.data@)).unwrap();
    spec_split_head(spec_split_tail(rem).unwrap())
}

/// A segment as the decoder hands it out: cut to the fixed maximum length.
pub open spec fn spec_trunc_seg(seg: Seq<u8>) -> Seq<u8> {
    if seg.len() > NFC_BUFSIZE_CONNSTRING as int {
        seg.subrange(0, NFC_BUFSIZE_CONNSTRING as int)
    } else {
        seg
    }
}

/// One caller-supplied output slot of the decoder: `present` says whether
/// the caller passed a slot at all (a NULL slot pointer is absent), and
/// `value` is the parameter pointer the slot holds — `None` for a NULL
/// parameter pointer.
pub struct OutSlot {
    /// True when the caller passed a non-NULL slot pointer.
    pub present: bool,
    /// What the slot holds.
    pub value: Option<Vec<u8>>,
}

/// A segment cut to the decoder's maximum hand-out length.
fn truncate_segment(seg: Vec<u8>) -> (r: Vec<u8>)
    ensures
        r@ == spec_trunc_seg(seg@),
{
    if seg.len() > NFC_BUFSIZE_CONNSTRING {
        sub_vec(&seg, 0, NFC_BUFSIZE_CONNSTRING)
    } else {
        seg
    }
}

/// The bytes a candidate name stands for: a NULL candidate reads as empty.
fn cstr_vec(b: &ByteBuf) -> (r: Vec<u8>)
    ensures
        r@ == b.str_bytes(),
{
    if b.null {
        Vec::new()
    } else {
        copy_bytes(&b.data)
    }
}

/// Tokenizes a connection string against a driver-name and a bus-name
/// candidate and reports the match level: 0 for no match, 1 for a bare
/// match, 2 when one parameter segment follows, 3 when two do.
///
/// When the caller supplies a present output slot, the slot receives a copy
/// of the corresponding segment (cut to the maximum length) if the level
/// covers it, and NULL otherwise. On no match, or for a NULL connection
/// string, the slots are left exactly as they were.
pub fn connstring_decode(
    connstring: &ByteBuf,
    driver_name: &ByteBuf,
    bus_name: &ByteBuf,
    pparam1: &mut OutSlot,
    pparam2: &mut OutSlot,
) -> (r: i32)
    ensures
        r == spec_decode_level(*connstring, *driver_name, *bus_name),
        0 <= r <= 3,
        final(pparam1).present == old(pparam1).present,
        final(pparam2).present == old(pparam2).present,
        r == 0 ==> final(pparam1).value == old(pparam1).value && final(pparam2).value == old(pparam2).value,
        r >= 1 && !old(pparam1).present ==> final(pparam1).value == old(pparam1).value,
        r >= 1 && !old(pparam2).present ==> final(pparam2).value == old(pparam2).value,
        r == 1 && old(pparam1).present ==> final(pparam1).value is None,
        1 <= r <= 2 && old(pparam2).present ==> final(pparam2).value is None,
        r >= 2 && old(pparam1).present ==> (final(pparam1).value matches Some(v) && v@
            == spec_trunc_seg(spec_decode_param1(*connstring))),
        r == 3 && old(pparam2).present ==> (final(pparam2).value matches Some(v) && v@
            == spec_trunc_seg(spec_decode_param2(*connstring))),
{
    if connstring.null {
        return 0;
    }
    let n = connstring.data.len();
    let eff_len = if n > NFC_BUFSIZE_CONNSTRING {
        NFC_BUFSIZE_CONNSTRING
    } else {
        n
    };
    let eff = sub_vec(&connstring.data, 0, eff_len);
    proof {
        assert(eff@ =~= spec_effective_conn(connstring.data@));
    }
    let driver_b = cstr_vec(driver_name);
    let bus_b = cstr_vec(bus_name);

    let p0 = find_byte_from(&eff, COLON, 0);
    let seg0 = match p0 {
        Some(p) => sub_vec(&eff, 0, p),
        None => copy_bytes(&eff),
    };
    assert(seg0@ == spec_split_head(eff@));

    if !bytes_eq(&seg0, &driver_b) && !bytes_eq(&seg0, &bus_b) {
        return 0;
    }
    let mut level: i32 = 1;
    let mut param1_seg: Option<Vec<u8>> = None;
    let mut param2_seg: Option<Vec<u8>> = None;

    match p0 {
        None => {},
        Some(p) => {
            let rem = sub_vec(&eff, p + 1, eff.len());
            assert(Some(rem@) == spec_split_tail(eff@));
            level = 2;
            match find_byte_from(&rem, COLON, 0) {
                None => {
                    param1_seg = Some(rem);
                },
                Some(q) => {
                    let head1 = sub_vec(&rem, 0, q);
                    let rem2 = sub_vec(&rem, q + 1, rem.len());
                    assert(head1@ == spec_split_head(rem@));
                    assert(Some(rem2@) == spec_split_tail(rem@));
                    param1_seg = Some(head1);
                    level = 3;
                    match find_byte_from(&rem2, COLON, 0) {
                        None => {
                            param2_seg = Some(rem2);
                        },
                        Some(t) => {
                            param2_seg = Some(sub_vec(&rem2, 0, t));
                        },
                    }
                },
            }
        },
    }

    if pparam1.present {
        if level >= 2 {
            match param1_seg {
                Some(seg) => {
                    pparam1.value = Some(truncate_segment(seg));
                },
                None => {
                    pparam1.value = None;
                },
            }
        } else {
            pparam1.value = None;
        }
    }
    if pparam2.present {
        if level >= 3 {
            match param2_seg {
                Some(seg) => {
                    pparam2.value = Some(truncate_segment(seg));
                },
                None => {
                    pparam2.value = None;
                },
            }
        } else {
            pparam2.value = None;
        }
    }
    level
}

/// What the C shim is to do with one output slot of the decoder.
pub enum SlotAction {
    /// Leave the slot exactly as it is.
    Leave,
    /// Write NULL into the slot.
    WriteNull,
    /// Write the address of the allocated segment copy into the slot.
    WriteSegment,
}

/// The committed outcome of a decode: the level to report and what to do
/// with each output slot.
pub struct DecodeCommit {
    /// The match level to return to the caller.
    pub level: i32,
    /// What to do with the first output slot.
    pub param1: SlotAction,
    /// What to do with the second output slot.
    pub param2: SlotAction,
    /// True when the allocation already made for the first parameter must
    /// be released before the slots are written.
    pub release_param1: bool,
}

/// The decision [`decode_commit`] makes, written out: a failed allocation
/// rolls the whole hand-out back — whichever copy succeeded is released,
/// both present slots are set to NULL, and no match is reported.
pub open spec fn spec_decode_commit(
    level: i32,
    p1_present: bool,
    alloc1_ok: bool,
    p2_present: bool,
    alloc2_ok: bool,
) -> DecodeCommit {
    if level == 0 {
        DecodeCommit {
            level: 0,
            param1: SlotAction::Leave,
            param2: SlotAction::Leave,
            release_param1: false,
        }
    } else if p1_present && level >= 2 && !alloc1_ok {
        DecodeCommit {
            level: 0,
            param1: SlotAction::WriteNull,
            param2: if p2_present {
                SlotAction::WriteNull
            } else {
                SlotAction::Leave
            },
            release_param1: false,
        }
    } else if p2_present && level >= 3 && !alloc2_ok {
        DecodeCommit {
            level: 0,
            param1: if p1_present {
                SlotAction::WriteNull
            } else {
                SlotAction::Leave
            },
            param2: SlotAction::WriteNull,
            release_param1: p1_present,
        }
    } else {
        DecodeCommit {
            level,
            param1: if !p1_present {
                SlotAction::Leave
            } else if level >= 2 {
                SlotAction::WriteSegment
            } else {
                SlotAction::WriteNull
            },
            param2: if !p2_present {
                SlotAction::Leave
            } else if level >= 3 {
                SlotAction::WriteSegment
            } else {
                SlotAction::WriteNull
            },
            release_param1: false,
        }
    }
}

/// Decides how the decoder's hand-out commits once the C shim has attempted
/// the segment allocations: the two output writes form one transactional
/// unit, so a failed allocation never leaves the caller holding one
/// successfully-allocated output while no match is reported.
///
/// `alloc1_ok` and `alloc2_ok` say whether the copy for the corresponding
/// segment could be allocated; each is consulted only where the level and
/// the slot call for that copy.
pub fn decode_commit(
    level: i32,
    p1_present: bool,
    alloc1_ok: bool,
    p2_present: bool,
    alloc2_ok: bool,
) -> (r: DecodeCommit)
    requires
        0 <= level <= 3,
    ensures
        r == spec_decode_commit(level, p1_present, alloc1_ok, p2_present, alloc2_ok),
        r.level == 0 || r.level == level,
        r.level == 0 ==> !(r.param1 is WriteSegment) && !(r.param2 is WriteSegment),
        r.release_param1 ==> r.param1 is WriteNull && r.param2 is WriteNull,
        !p1_present ==> r.param1 is Leave,
        !p2_present ==> r.param2 is Leave,
{
    if level == 0 {
        DecodeCommit {
            level: 0,
            param1: SlotAction::Leave,
            param2: SlotAction::Leave,
            release_param1: false,
        }
    } else if p1_present && level >= 2 && !alloc1_ok {
        DecodeCommit {
            level: 0,
            param1: SlotAction::WriteNull,
            param2: if p2_present {
                SlotAction::WriteNull
            } else {
                SlotAction::Leave
            },
            release_param1: false,
        }
    } else if p2_present && level >= 3 && !alloc2_ok {
        DecodeCommit {
            level: 0,
            param1: if p1_present {
                SlotAction::WriteNull
            } else {
                SlotAction::Leave
            },
            param2: SlotAction::WriteNull,
            release_param1: p1_present,
        }
    } else {
        DecodeCommit {
            level,
            param1: if !p1_present {
                SlotAction::Leave
            } else if level >= 2 {
                SlotAction::WriteSegment
            } else {
                SlotAction::WriteNull
            },
            param2: if !p2_present {
                SlotAction::Leave
            } else if level >= 3 {
                SlotAction::WriteSegment
            } else {
                SlotAction::WriteNull
            },
            release_param1: false,
        }
    }
}

/// The tokens the parser searches: everything after the prefix, less one
/// optional leading colon.
pub open spec fn spec_param_section(conn: Seq<u8>, prefix: Seq<u8>) -> Seq<u8>
    recommends
        spec_starts_with(conn, prefix),
{
    let rest = conn.subrange(prefix.len() as int, conn.len() as int);
    if rest.len() > 0 && rest[0] == COLON {
        rest.subrange(1, rest.len() as int)
    } else {
        rest
    }
}

/// The value of the first `name=value` token in the section after the
/// prefix: the bytes between the first occurrence of `name=` and the next
/// colon (or the end). `None` when no such token occurs.
pub open spec fn spec_extract_param(conn: Seq<u8>, prefix: Seq<u8>, name: Seq<u8>) -> Option<
    Seq<u8>,
> {
    let sec = spec_param_section(conn, prefix);
    let pat = name + seq![EQUALS];
    match spec_find_sub(sec, pat, 0) {
        None => None,
        Some(i) => {
            let vs = sec.subrange(i + pat.len() as int, sec.len() as int);
            match spec_find_byte(vs, COLON, 0) {
                None => Some(vs),
                Some(e) => Some(vs.subrange(0, e)),
            }
        },
    }
}

/// The outcome of a parse, in the order the checks are applied.
pub enum ParseCase {
    /// The value buffer has zero size.
    ZeroSizeBuffer,
    /// The connection string is NULL.
    NullConnstring,
    /// The prefix is NULL.
    NullPrefix,
    /// The parameter name is NULL.
    NullParamName,
    /// The value buffer is NULL.
    NullParamValue,
    /// The connection string is not valid UTF-8.
    BadUtf8Connstring,
    /// The prefix is not valid UTF-8.
    BadUtf8Prefix,
    /// The parameter name is not valid UTF-8.
    BadUtf8ParamName,
    /// The connection string does not start with the prefix.
    PrefixMismatch,
    /// No `name=` token occurs after the prefix.
    ParamNotFound,
    /// The value does not fit the caller's buffer with its terminator.
    ValueTooLong,
    /// The value was extracted.
    Accepted,
}

/// Which outcome a parse of these inputs has.
pub open spec fn spec_parse_case(
    conn: ByteBuf,
    prefix: ByteBuf,
    name: ByteBuf,
    out_null: bool,
    size: int,
) -> ParseCase {
    if size == 0 {
        ParseCase::ZeroSizeBuffer
    } else if conn.null {
        ParseCase::NullConnstring
    } else if prefix.null {
        ParseCase::NullPrefix
    } else if name.null {
        ParseCase::NullParamName
    } else if out_null {
        ParseCase::NullParamValue
    } else if !valid_utf8(conn.data@) {
        ParseCase::BadUtf8Connstring
    } else if !valid_utf8(prefix.data@) {
        ParseCase::BadUtf8Prefix
    } else if !valid_utf8(name.data@) {
        ParseCase::BadUtf8ParamName
    } else if !spec_starts_with(conn.data@, prefix.data@) {
        ParseCase::PrefixMismatch
    } else {
        match spec_extract_param(conn.data@, prefix.data@, name.data@) {
            None => ParseCase::ParamNotFound,
            Some(v) => if v.len() >= size {
                ParseCase::ValueTooLong
            } else {
                ParseCase::Accepted
            },
        }
    }
}

/// The status code each parse outcome reports: structural failures are
/// invalid, grammar and capacity failures are the generic error.
pub open spec fn spec_parse_status(c: ParseCase) -> i32 {
    match c {
        ParseCase::Accepted => NFC_COMMON_SUCCESS,
        ParseCase::PrefixMismatch => NFC_COMMON_ERROR,
        ParseCase::ParamNotFound => NFC_COMMON_ERROR,
        ParseCase::ValueTooLong => NFC_COMMON_ERROR,
        _ => NFC_COMMON_INVALID,
    }
}

/// The diagnostic each parse outcome leaves behind: cleared on success,
/// and the failing check with its inputs otherwise.
pub open spec fn parse_diag_correct(
    c: ParseCase,
    conn: ByteBuf,
    prefix: ByteBuf,
    name: ByteBuf,
    size: int,
    err: Option<DiagMsg>,
) -> bool {
    match c {
        ParseCase::Accepted => err is None,
        ParseCase::ZeroSizeBuffer => err == Some(DiagMsg::ZeroSizeParseBuffer),
        ParseCase::NullConnstring => err == Some(DiagMsg::NullParseConnstring),
        ParseCase::NullPrefix => err == Some(DiagMsg::NullParsePrefix),
        ParseCase::NullParamName => err == Some(DiagMsg::NullParseParamName),
        ParseCase::NullParamValue => err == Some(DiagMsg::NullParseParamValue),
        ParseCase::BadUtf8Connstring => err == Some(
            DiagMsg::NonUtf8 { context: Utf8Context::Connstring },
        ),
        ParseCase::BadUtf8Prefix => err == Some(DiagMsg::NonUtf8 { context: Utf8Context::Prefix }),
        ParseCase::BadUtf8ParamName => err == Some(
            DiagMsg::NonUtf8 { context: Utf8Context::ParamName },
        ),
        ParseCase::PrefixMismatch => err matches Some(DiagMsg::PrefixMismatch {
            connstring: cv,
            prefix: pv,
        }) && cv@ == conn.data@ && pv@ == prefix.data@,
        ParseCase::ParamNotFound => err matches Some(DiagMsg::ParamNotFound { name: nv }) && nv@
            == name.data@,
        ParseCase::ValueTooLong => err matches Some(DiagMsg::ValueTooLong {
            value_len,
            buffer_size,
        }) && value_len == spec_extract_param(conn.data@, prefix.data@, name.data@).unwrap().len()
            && buffer_size == size,
    }
}

/// Locates the `param_name=value` token in the portion of `connstring`
/// after the required `prefix` and copies the value, NUL-terminated, into
/// the caller's buffer of `param_value_size` bytes.
///
/// Structural failures (zero-size or NULL buffer, NULL or non-UTF-8 text)
/// report the invalid status; a prefix that does not match, a parameter
/// that does not occur, or a value that does not fit report the generic
/// error; each failure records its diagnostic. On success the buffer holds
/// the value with a terminator, bytes past the terminator are untouched,
/// and the diagnostic channel is cleared.
pub fn nfc_parse_connstring(
    d: &mut Diag,
    connstring: &ByteBuf,
    prefix: &ByteBuf,
    param_name: &ByteBuf,
    param_value: &mut ByteBuf,
    param_value_size: usize,
) -> (r: i32)
    requires
        old(param_value).null || param_value_size <= old(param_value).data@.len(),
    ensures
        final(param_value).null == old(param_value).null,
        final(param_value).data@.len() == old(param_value).data@.len(),
        r == spec_parse_status(
            spec_parse_case(
                *connstring,
                *prefix,
                *param_name,
                old(param_value).null,
                param_value_size as int,
            ),
        ),
        parse_diag_correct(
            spec_parse_case(
                *connstring,
                *prefix,
                *param_name,
                old(param_value).null,
                param_value_size as int,
            ),
            *connstring,
            *prefix,
            *param_name,
            param_value_size as int,
            final(d).last_error,
        ),
        ({
            let c = spec_parse_case(
                *connstring,
                *prefix,
                *param_name,
                old(param_value).null,
                param_value_size as int,
            );
            &&& (c is Accepted ==> ({
                let v = spec_extract_param(
                    connstring.data@,
                    prefix.data@,
                    param_name.data@,
                ).unwrap();
                &&& v.len() < param_value_size
                &&& (forall|i: int| 0 <= i < v.len() ==> final(param_value).data@[i] == v[i])
                &&& final(param_value).data@[v.len() as int] == 0
                &&& (forall|i: int|
                    v.len() + 1 <= i < final(param_value).data@.len() ==> final(param_value).data@[i] == old(param_value).data@[i])
            }))
            &&& (!(c is Accepted) ==> final(param_value).data@ == old(param_value).data@)
        }),
        final(d).last_log is Some,
{
    if param_value_size == 0 {
        let m = DiagMsg::ZeroSizeParseBuffer;
        log_error(d, diag_message_bytes(&m));
        set_last_error_message(d, m);
        return NFC_COMMON_INVALID;
    }
    if connstring.null {
        let m = DiagMsg::NullParseConnstring;
        log_error(d, diag_message_bytes(&m));
        set_last_error_message(d, m);
        return NFC_COMMON_INVALID;
    }
    if prefix.null {
        let m = DiagMsg::NullParsePrefix;
        log_error(d, diag_message_bytes(&m));
        set_last_error_message(d, m);
        return NFC_COMMON_INVALID;
    }
    if param_name.null {
        let m = DiagMsg::NullParseParamName;
        log_error(d, diag_message_bytes(&m));
        set_last_error_message(d, m);
        return NFC_COMMON_INVALID;
    }
    if param_value.null {
        let m = DiagMsg::NullParseParamValue;
        log_error(d, diag_message_bytes(&m));
        set_last_error_message(d, m);
        return NFC_COMMON_INVALID;
    }
    if !is_valid_utf8(connstring.data.as_slice()) {
        let m = DiagMsg::NonUtf8 { context: Utf8Context::Connstring };
        log_error(d, diag_message_bytes(&m));
        set_last_error_message(d, m);
        return NFC_COMMON_INVALID;
    }
    if !is_valid_utf8(prefix.data.as_slice()) {
        let m = DiagMsg::NonUtf8 { context: Utf8Context::Prefix };
        log_error(d, diag_message_bytes(&m));
        set_last_error_message(d, m);
        return NFC_COMMON_INVALID;
    }
    if !is_valid_utf8(param_name.data.as_slice()) {
        let m = DiagMsg::NonUtf8 { context: Utf8Context::ParamName };
        log_error(d, diag_message_bytes(&m));
        set_last_error_message(d, m);
        return NFC_COMMON_INVALID;
    }
    if !starts_with_bytes(&connstring.data, &prefix.data) {
        let m = DiagMsg::PrefixMismatch {
            connstring: copy_bytes(&connstring.data),
            prefix: copy_bytes(&prefix.data),
        };
        log_debug(d, diag_message_bytes(&m));
        set_last_error_message(d, m);
        return NFC_COMMON_ERROR;
    }
    let clen = connstring.data.len();
    let plen = prefix.data.len();
    let mut sec_start = plen;
    if sec_start < clen && connstring.data[sec_start] == COLON {
        sec_start = sec_start + 1;
    }
    let section = sub_vec(&connstring.data, sec_start, clen);
    proof {
        assert(section@ =~= spec_param_section(connstring.data@, prefix.data@));
    }
    let mut pattern = copy_bytes(&param_name.data);
    pattern.push(EQUALS);
    assert(pattern@ == param_name.data@ + seq![EQUALS]);
    match find_sub_bytes(&section, &pattern) {
        None => {
            let m = DiagMsg::ParamNotFound { name: copy_bytes(&param_name.data) };
            log_debug(d, diag_message_bytes(&m));
            set_last_error_message(d, m);
            NFC_COMMON_ERROR
        },
        Some(i) => {
            let vstart = i + pattern.len();
            let vs = sub_vec(&section, vstart, section.len());
            let value = match find_byte_from(&vs, COLON, 0) {
                None => vs,
                Some(e) => sub_vec(&vs, 0, e),
            };
            assert(Some(value@) == spec_extract_param(
                connstring.data@,
                prefix.data@,
                param_name.data@,
            ));
            if value.len() >= param_value_size {
                let m = DiagMsg::ValueTooLong {
                    value_len: value.len(),
                    buffer_size: param_value_size,
                };
                set_last_error_message(d, m);
                let m2 = DiagMsg::ValueTooLong {
                    value_len: value.len(),
                    buffer_size: param_value_size,
                };
                log_error(d, diag_message_bytes(&m2));
                return NFC_COMMON_ERROR;
            }
            let vlen = value.len();
            let mut k: usize = 0;
            while k < vlen
                invariant
                    0 <= k <= vlen,
                    vlen == value@.len(),
                    vlen < param_value_size <= param_value.data@.len(),
                    param_value.null == old(param_value).null,
                    param_value.data@.len() == old(param_value).data@.len(),
                    forall|j: int| 0 <= j < k ==> param_value.data@[j] == value@[j],
                    forall|j: int|
                        k <= j < param_value.data@.len() ==> param_value.data@[j] == old(param_value).data@[j],
                decreases vlen - k,
            {
                let b = value[k];
                param_value.data.set(k, b);
                k = k + 1;
            }
            param_value.data.set(vlen, 0);
            let mut logm: Vec<u8> = Vec::new();
            append_bytes(&mut logm, "Extracted parameter '".as_bytes());
            append_bytes(&mut logm, param_name.data.as_slice());
            append_bytes(&mut logm, "'='".as_bytes());
            append_bytes(&mut logm, value.as_slice());
            append_bytes(&mut logm, "' from connstring".as_bytes());
            log_debug(d, logm);
            reset_last_error(d);
            NFC_COMMON_SUCCESS
        },
    }
}

/// The canonical connection string for a driver and one named parameter:
/// `driver:name=value`.
pub open spec fn spec_built_connstring(driver: Seq<u8>, name: Seq<u8>, value: Seq<u8>) -> Seq<u8> {
    driver + seq![COLON] + name + seq![EQUALS] + value
}

/// The outcome of a build, in the order the checks are applied.
pub enum BuildCase {
    /// The destination buffer has zero size.
    ZeroSizeBuffer,
    /// The destination buffer is NULL.
    NullDest,
    /// The driver name is NULL.
    NullDriver,
    /// The parameter name is NULL.
    NullParamName,
    /// The parameter value is NULL.
    NullParamValue,
    /// The driver name is not valid UTF-8.
    BadUtf8Driver,
    /// The parameter name is not valid UTF-8.
    BadUtf8ParamName,
    /// The parameter value is not valid UTF-8.
    BadUtf8ParamValue,
    /// The assembled string and its terminator do not fit the destination.
    Overflow,
    /// The string was assembled.
    Accepted,
}

/// Which outcome a build of these inputs has.
pub open spec fn spec_build_case(
    dest_null: bool,
    dest_size: int,
    driver: ByteBuf,
    name: ByteBuf,
    value: ByteBuf,
) -> BuildCase {
    if dest_size == 0 {
        BuildCase::ZeroSizeBuffer
    } else if dest_null {
        BuildCase::NullDest
    } else if driver.null {
        BuildCase::NullDriver
    } else if name.null {
        BuildCase::NullParamName
    } else if value.null {
        BuildCase::NullParamValue
    } else if !valid_utf8(driver.data@) {
        BuildCase::BadUtf8Driver
    } else if !valid_utf8(name.data@) {
        BuildCase::BadUtf8ParamName
    } else if !valid_utf8(value.data@) {
        BuildCase::BadUtf8ParamValue
    } else if spec_built_connstring(driver.data@, name.data@, value.data@).len() + 1 > dest_size {
        BuildCase::Overflow
    } else {
        BuildCase::Accepted
    }
}

/// The status code each build outcome reports.
pub open spec fn spec_build_status(c: BuildCase) -> i32 {
    match c {
        BuildCase::Accepted => NFC_COMMON_SUCCESS,
        BuildCase::Overflow => NFC_COMMON_ERROR,
        _ => NFC_COMMON_INVALID,
    }
}

/// The diagnostic each build outcome leaves behind.
pub open spec fn build_diag_correct(
    c: BuildCase,
    driver: ByteBuf,
    name: ByteBuf,
    value: ByteBuf,
    dest_size: int,
    err: Option<DiagMsg>,
) -> bool {
    match c {
        BuildCase::Accepted => err is None,
        BuildCase::ZeroSizeBuffer => err == Some(DiagMsg::ZeroSizeBuildBuffer),
        BuildCase::NullDest => err == Some(DiagMsg::NullBuildDest),
        BuildCase::NullDriver => err == Some(DiagMsg::NullBuildDriver),
        BuildCase::NullParamName => err == Some(DiagMsg::NullBuildParamName),
        BuildCase::NullParamValue => err == Some(DiagMsg::NullBuildParamValue),
        BuildCase::BadUtf8Driver => err == Some(
            DiagMsg::NonUtf8 { context: Utf8Context::DriverName },
        ),
        BuildCase::BadUtf8ParamName => err == Some(
            DiagMsg::NonUtf8 { context: Utf8Context::ParamName },
        ),
        BuildCase::BadUtf8ParamValue => err == Some(
            DiagMsg::NonUtf8 { context: Utf8Context::ParamValue },
        ),
        BuildCase::Overflow => err matches Some(DiagMsg::BuildOverflow { needed, have }) && needed
            == spec_built_connstring(driver.data@, name.data@, value.data@).len() + 1 && have
            == dest_size,
    }
}

/// Assembles `driver_name:param_name=param_value` into the caller's buffer
/// of `dest_size` bytes, NUL-terminated.
///
/// Structural failures (zero-size or NULL buffer, NULL or non-UTF-8 text)
/// report the invalid status; a destination too small for the assembled
/// string reports the generic error with the required byte count in the
/// diagnostic. On success the buffer holds the string with a terminator,
/// bytes past the terminator are untouched, and the diagnostic channel is
/// cleared.
pub fn nfc_build_connstring(
    d: &mut Diag,
    dest: &mut ByteBuf,
    dest_size: usize,
    driver_name: &ByteBuf,
    param_name: &ByteBuf,
    param_value: &ByteBuf,
) -> (r: i32)
    requires
        old(dest).null || dest_size <= old(dest).data@.len(),
        driver_name.data@.len() + param_name.data@.len() + param_value.data@.len() + 3
            <= usize::MAX,
    ensures
        final(dest).null == old(dest).null,
        final(dest).data@.len() == old(dest).data@.len(),
        r == spec_build_status(
            spec_build_case(
                old(dest).null,
                dest_size as int,
                *driver_name,
                *param_name,
                *param_value,
            ),
        ),
        build_diag_correct(
            spec_build_case(
                old(dest).null,
                dest_size as int,
                *driver_name,
                *param_name,
                *param_value,
            ),
            *driver_name,
            *param_name,
            *param_value,
            dest_size as int,
            final(d).last_error,
        ),
        ({
            let c = spec_build_case(
                old(dest).null,
                dest_size as int,
                *driver_name,
                *param_name,
                *param_value,
            );
            &&& (c is Accepted ==> ({
                let built = spec_built_connstring(
                    driver_name.data@,
                    param_name.data@,
                    param_value.data@,
                );
                &&& built.len() < dest_size
                &&& (forall|i: int| 0 <= i < built.len() ==> final(dest).data@[i] == built[i])
                &&& final(dest).data@[built.len() as int] == 0
                &&& (forall|i: int|
                    built.len() + 1 <= i < final(dest).data@.len() ==> final(dest).data@[i] == old(
                        dest,
                    ).data@[i])
                &&& final(d).last_log is Some
            }))
            &&& (!(c is Accepted) ==> final(dest).data@ == old(dest).data@)
        }),
{
    if dest_size == 0 {
        let m = DiagMsg::ZeroSizeBuildBuffer;
        log_error(d, diag_message_bytes(&m));
        set_last_error_message(d, m);
        return NFC_COMMON_INVALID;
    }
    if dest.null {
        let m = DiagMsg::NullBuildDest;
        log_error(d, diag_message_bytes(&m));
        set_last_error_message(d, m);
        return NFC_COMMON_INVALID;
    }
    if driver_name.null {
        let m = DiagMsg::NullBuildDriver;
        log_error(d, diag_message_bytes(&m));
        set_last_error_message(d, m);
        return NFC_COMMON_INVALID;
    }
    if param_name.null {
        let m = DiagMsg::NullBuildParamName;
        log_error(d, diag_message_bytes(&m));
        set_last_error_message(d, m);
        return NFC_COMMON_INVALID;
    }
    if param_value.null {
        let m = DiagMsg::NullBuildParamValue;
        log_error(d, diag_message_bytes(&m));
        set_last_error_message(d, m);
        return NFC_COMMON_INVALID;
    }
    if !is_valid_utf8(driver_name.data.as_slice()) {
        let m = DiagMsg::NonUtf8 { context: Utf8Context::DriverName };
        log_error(d, diag_message_bytes(&m));
        set_last_error_message(d, m);
        return NFC_COMMON_INVALID;
    }
    if !is_valid_utf8(param_name.data.as_slice()) {
        let m = DiagMsg::NonUtf8 { context: Utf8Context::ParamName };
        log_error(d, diag_message_bytes(&m));
        set_last_error_message(d, m);
        return NFC_COMMON_INVALID;
    }
    if !is_valid_utf8(param_value.data.as_slice()) {
        let m = DiagMsg::NonUtf8 { context: Utf8Context::ParamValue };
        log_error(d, diag_message_bytes(&m));
        set_last_error_message(d, m);
        return NFC_COMMON_INVALID;
    }
    let mut result: Vec<u8> = Vec::new();
    append_bytes(&mut result, driver_name.data.as_slice());
    result.push(COLON);
    append_bytes(&mut result, param_name.data.as_slice());
    result.push(EQUALS);
    append_bytes(&mut result, param_value.data.as_slice());
    proof {
        assert(result@ =~= spec_built_connstring(
            driver_name.data@,
            param_name.data@,
            param_value.data@,
        ));
    }
    let blen = result.len();
    if blen >= dest_size {
        let needed = blen + 1;
        let m = DiagMsg::BuildOverflow { needed, have: dest_size };
        set_last_error_message(d, m);
        let m2 = DiagMsg::BuildOverflow { needed, have: dest_size };
        log_error(d, diag_message_bytes(&m2));
        return NFC_COMMON_ERROR;
    }
    let mut k: usize = 0;
    while k < blen
        invariant
            0 <= k <= blen,
            blen == result@.len(),
            blen < dest_size <= dest.data@.len(),
            dest.null == old(dest).null,
            dest.data@.len() == old(dest).data@.len(),
            forall|j: int| 0 <= j < k ==> dest.data@[j] == result@[j],
            forall|j: int|
                k <= j < dest.data@.len() ==> dest.data@[j] == old(dest).data@[j],
        decreases blen - k,
    {
        let b = result[k];
        dest.data.set(k, b);
        k = k + 1;
    }
    dest.data.set(blen, 0);
    let mut logm: Vec<u8> = Vec::new();
    append_bytes(&mut logm, "Built connection string: '".as_bytes());
    append_bytes(&mut logm, result.as_slice());
    append_bytes(&mut logm, "'".as_bytes());
    log_debug(d, logm);
    reset_last_error(d);
    NFC_COMMON_SUCCESS
}

/// Building a connection string and parsing it back returns the value that
/// went in: for any driver, name and colon-free value, the canonical
/// `driver:name=value` string starts with the driver, and extracting the
/// named parameter from it yields exactly the value. With valid UTF-8
/// inputs and a large enough buffer, a parse of the built string is
/// therefore accepted.
pub proof fn lemma_build_parse_roundtrip(
    conn: ByteBuf,
    driver: ByteBuf,
    name: ByteBuf,
    value: ByteBuf,
    size: int,
)
    requires
        !conn.null,
        !driver.null,
        !name.null,
        conn.data@ == spec_built_connstring(driver.data@, name.data@, value.data@),
        valid_utf8(conn.data@),
        valid_utf8(driver.data@),
        valid_utf8(name.data@),
        forall|j: int| 0 <= j < value.data@.len() ==> value.data@[j] != COLON,
        value.data@.len() < size,
    ensures
        spec_starts_with(conn.data@, driver.data@),
        spec_extract_param(conn.data@, driver.data@, name.data@) == Some(value.data@),
        spec_parse_case(conn, driver, name, false, size) == ParseCase::Accepted,
{
    let c = conn.data@;
    let dr = driver.data@;
    let nm = name.data@;
    let vl = value.data@;
    let dlen = dr.len() as int;

    assert(c.subrange(0, dlen) =~= dr);
    assert(spec_starts_with(c, dr));

    let rest = c.subrange(dlen, c.len() as int);
    assert(rest =~= seq![COLON] + nm + seq![EQUALS] + vl);
    assert(rest[0] == COLON);
    let sec = spec_param_section(c, dr);
    assert(sec =~= nm + seq![EQUALS] + vl);

    let pat = nm + seq![EQUALS];
    assert(sec.subrange(0, pat.len() as int) =~= pat);
    assert(spec_find_sub(sec, pat, 0) == Some(0int));

    let vs = sec.subrange(pat.len() as int, sec.len() as int);
    assert(vs =~= vl);
    lemma_find_byte_none(vl, COLON, 0);
    assert(spec_find_byte(vs, COLON, 0) is None);
    assert(spec_extract_param(c, dr, nm) == Some(vl));
}

/// A byte that occurs nowhere at or after `i` is never found there.
proof fn lemma_find_byte_none(s: Seq<u8>, b: u8, i: int)
    requires
        forall|j: int| i <= j < s.len() ==> s[j] != b,
    ensures
        spec_find_byte(s, b, i) is None,
    decreases s.len() - i,
{
    if 0 <= i < s.len() {
        lemma_find_byte_none(s, b, i + 1);
    }
}

} // verus!
