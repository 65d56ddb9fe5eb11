//! The per-thread diagnostic channel and the logging sink.
//!
//! Every caller-visible failure of the connection-string codec records which
//! check failed, together with the offending inputs, in a [`Diag`] value;
//! reading the channel renders the stored message as the human-readable
//! text of the C interface. The C shims hold one `Diag` per thread, so
//! concurrent callers never race on diagnostics; that plumbing, like the
//! process-wide log sink behind `log_put_message`, lives outside the
//! verified core, which models the sink as the most recent line.

use vstd::prelude::*;

use crate::bytebuf::ByteBuf;
use crate::bytebuf::append_bytes;
use crate::bytebuf::copy_bytes;
use vstd::string::StringSliceAdditionalSpecFns;

verus! {

/// The log group used for every line this library emits.
pub const LOG_GROUP_GENERAL: u8 = 1;

/// Priority of error lines.
pub const LOG_PRIORITY_ERROR: u8 = 1;

/// Priority of debug lines.
pub const LOG_PRIORITY_DEBUG: u8 = 3;

/// The input whose text failed UTF-8 validation.
pub enum Utf8Context {
    Connstring,
    Prefix,
    ParamName,
    DriverName,
    ParamValue,
}

/// The most recent diagnostic: which check failed, with the inputs that
/// made it fail. Reading the channel renders it as text.
pub enum DiagMsg {
    /// Free text handed in by the caller of the last-error setter.
    Text(Vec<u8>),
    /// A zero-size value buffer was passed to connection-string parsing.
    ZeroSizeParseBuffer,
    /// A NULL connection string was passed to parsing.
    NullParseConnstring,
    /// A NULL prefix was passed to parsing.
    NullParsePrefix,
    /// A NULL parameter name was passed to parsing.
    NullParseParamName,
    /// A NULL value buffer was passed to parsing.
    NullParseParamValue,
    /// An input held bytes that are not valid UTF-8.
    NonUtf8 { context: Utf8Context },
    /// The connection string does not start with the required prefix.
    PrefixMismatch { connstring: Vec<u8>, prefix: Vec<u8> },
    /// The named parameter does not occur in the connection string.
    ParamNotFound { name: Vec<u8> },
    /// The parameter's value does not fit the caller's buffer.
    ValueTooLong { value_len: usize, buffer_size: usize },
    /// A zero-size destination was passed to connection-string building.
    ZeroSizeBuildBuffer,
    /// A NULL destination was passed to building.
    NullBuildDest,
    /// A NULL driver name was passed to building.
    NullBuildDriver,
    /// A NULL parameter name was passed to building.
    NullBuildParamName,
    /// A NULL parameter value was passed to building.
    NullBuildParamValue,
    /// The assembled connection string does not fit the destination.
    BuildOverflow { needed: usize, have: usize },
}

/// The per-thread diagnostic state: the last error set by a failing (or
/// explicitly resetting) call, and the last line handed to the log sink.
pub struct Diag {
    /// The most recent diagnostic, overwritten by every failure and cleared
    /// by success paths that choose to reset it.
    pub last_error: Option<DiagMsg>,
    /// The most recent log line.
    pub last_log: Option<Vec<u8>>,
}

/// The decimal digits of `n`, most significant first.
pub open spec fn spec_dec_digits(n: int) -> Seq<u8>
    decreases n,
{
    if n < 0 {
        Seq::<u8>::empty()
    } else if n < 10 {
        seq![(48 + n) as u8]
    } else {
        spec_dec_digits(n / 10) + seq![(48 + n % 10) as u8]
    }
}

/// The name under which an input appears in UTF-8 diagnostics.
pub open spec fn spec_utf8_context_name(c: Utf8Context) -> Seq<u8> {
    match c {
        Utf8Context::Connstring => "connstring".spec_bytes(),
        Utf8Context::Prefix => "prefix".spec_bytes(),
        Utf8Context::ParamName => "param_name".spec_bytes(),
        Utf8Context::DriverName => "driver_name".spec_bytes(),
        Utf8Context::ParamValue => "param_value".spec_bytes(),
    }
}

/// The rendered text of a diagnostic.
pub open spec fn spec_diag_text(m: DiagMsg) -> Seq<u8> {
    match m {
        DiagMsg::Text(v) => v@,
        DiagMsg::ZeroSizeParseBuffer => "Zero-size param_value buffer in connstring parsing".spec_bytes(),
        DiagMsg::NullParseConnstring => "NULL connstring in parsing".spec_bytes(),
        DiagMsg::NullParsePrefix => "NULL prefix in connstring parsing".spec_bytes(),
        DiagMsg::NullParseParamName => "NULL param_name in connstring parsing".spec_bytes(),
        DiagMsg::NullParseParamValue => "NULL param_value buffer in connstring parsing".spec_bytes(),
        DiagMsg::NonUtf8 { context } => spec_utf8_context_name(context)
            + " contains non UTF-8 data".spec_bytes(),
        DiagMsg::PrefixMismatch { connstring, prefix } => "Connstring '".spec_bytes() + connstring@
            + "' does not match prefix '".spec_bytes() + prefix@ + "'".spec_bytes(),
        DiagMsg::ParamNotFound { name } => "Parameter '".spec_bytes() + name@
            + "' not found in connstring".spec_bytes(),
        DiagMsg::ValueTooLong { value_len, buffer_size } => "Parameter value too long (".spec_bytes()
            + spec_dec_digits(value_len as int) + " bytes, buffer size ".spec_bytes()
            + spec_dec_digits(buffer_size as int) + ")".spec_bytes(),
        DiagMsg::ZeroSizeBuildBuffer => "Zero-size destination buffer in connstring building".spec_bytes(),
        DiagMsg::NullBuildDest => "NULL destination buffer in connstring building".spec_bytes(),
        DiagMsg::NullBuildDriver => "NULL driver_name in connstring building".spec_bytes(),
        DiagMsg::NullBuildParamName => "NULL param_name in connstring building".spec_bytes(),
        DiagMsg::NullBuildParamValue => "NULL param_value in connstring building".spec_bytes(),
        DiagMsg::BuildOverflow { needed, have } => "Connection string buffer overflow (need ".spec_bytes()
            + spec_dec_digits(needed as int) + " bytes, have ".spec_bytes()
            + spec_dec_digits(have as int) + ")".spec_bytes(),
    }
}

/// The decimal rendering of `n`.
pub fn dec_bytes(n: usize) -> (r: Vec<u8>)
    ensures
        r@ == spec_dec_digits(n as int),
    decreases n,
{
    if n < 10 {
        let mut v: Vec<u8> = Vec::new();
        v.push(48 + n as u8);
        v
    } else {
        let mut v = dec_bytes(n / 10);
        v.push(48 + (n % 10) as u8);
        v
    }
}

/// Renders a diagnostic as the text the C interface reports.
pub fn diag_message_bytes(m: &DiagMsg) -> (r: Vec<u8>)
    ensures
        r@ == spec_diag_text(*m),
{
    let mut out: Vec<u8> = Vec::new();
    match m {
        DiagMsg::Text(v) => {
            append_bytes(&mut out, v.as_slice());
        },
        DiagMsg::ZeroSizeParseBuffer => {
            append_bytes(&mut out, "Zero-size param_value buffer in connstring parsing".as_bytes());
        },
        DiagMsg::NullParseConnstring => {
            append_bytes(&mut out, "NULL connstring in parsing".as_bytes());
        },
        DiagMsg::NullParsePrefix => {
            append_bytes(&mut out, "NULL prefix in connstring parsing".as_bytes());
        },
        DiagMsg::NullParseParamName => {
            append_bytes(&mut out, "NULL param_name in connstring parsing".as_bytes());
        },
        DiagMsg::NullParseParamValue => {
            append_bytes(&mut out, "NULL param_value buffer in connstring parsing".as_bytes());
        },
        DiagMsg::NonUtf8 { context } => {
            match context {
                Utf8Context::Connstring => append_bytes(&mut out, "connstring".as_bytes()),
                Utf8Context::Prefix => append_bytes(&mut out, "prefix".as_bytes()),
                Utf8Context::ParamName => append_bytes(&mut out, "param_name".as_bytes()),
                Utf8Context::DriverName => append_bytes(&mut out, "driver_name".as_bytes()),
                Utf8Context::ParamValue => append_bytes(&mut out, "param_value".as_bytes()),
            }
            append_bytes(&mut out, " contains non UTF-8 data".as_bytes());
        },
        DiagMsg::PrefixMismatch { connstring, prefix } => {
            append_bytes(&mut out, "Connstring '".as_bytes());
            append_bytes(&mut out, connstring.as_slice());
            append_bytes(&mut out, "' does not match prefix '".as_bytes());
            append_bytes(&mut out, prefix.as_slice());
            append_bytes(&mut out, "'".as_bytes());
        },
        DiagMsg::ParamNotFound { name } => {
            append_bytes(&mut out, "Parameter '".as_bytes());
            append_bytes(&mut out, name.as_slice());
            append_bytes(&mut out, "' not found in connstring".as_bytes());
        },
        DiagMsg::ValueTooLong { value_len, buffer_size } => {
            append_bytes(&mut out, "Parameter value too long (".as_bytes());
            let d1 = dec_bytes(*value_len);
            append_bytes(&mut out, d1.as_slice());
            append_bytes(&mut out, " bytes, buffer size ".as_bytes());
            let d2 = dec_bytes(*buffer_size);
            append_bytes(&mut out, d2.as_slice());
            append_bytes(&mut out, ")".as_bytes());
        },
        DiagMsg::ZeroSizeBuildBuffer => {
            append_bytes(&mut out, "Zero-size destination buffer in connstring building".as_bytes());
        },
        DiagMsg::NullBuildDest => {
            append_bytes(&mut out, "NULL destination buffer in connstring building".as_bytes());
        },
        DiagMsg::NullBuildDriver => {
            append_bytes(&mut out, "NULL driver_name in connstring building".as_bytes());
        },
        DiagMsg::NullBuildParamName => {
            append_bytes(&mut out, "NULL param_name in connstring building".as_bytes());
        },
        DiagMsg::NullBuildParamValue => {
            append_bytes(&mut out, "NULL param_value in connstring building".as_bytes());
        },
        DiagMsg::BuildOverflow { needed, have } => {
            append_bytes(&mut out, "Connection string buffer overflow (need ".as_bytes());
            let d1 = dec_bytes(*needed);
            append_bytes(&mut out, d1.as_slice());
            append_bytes(&mut out, " bytes, have ".as_bytes());
            let d2 = dec_bytes(*have);
            append_bytes(&mut out, d2.as_slice());
            append_bytes(&mut out, ")".as_bytes());
        },
    }
    out
}

impl Diag {
    /// A channel with no diagnostic and no log line.
    pub fn new() -> (r: Diag)
        ensures
            r.last_error is None,
            r.last_log is None,
    {
        Diag { last_error: None, last_log: None }
    }
}

/// Records a diagnostic as the most recent one.
pub fn set_last_error_message(d: &mut Diag, m: DiagMsg)
    ensures
        final(d).last_error == Some(m),
        final(d).last_log == old(d).last_log,
{
    d.last_error = Some(m);
}

/// Clears the most recent diagnostic.
pub fn reset_last_error(d: &mut Diag)
    ensures
        final(d).last_error is None,
        final(d).last_log == old(d).last_log,
{
    d.last_error = None;
}

/// Hands one line to the log sink, which keeps the most recent line. The
/// C shim forwards it to `log_put_message` with the library's log group and
/// category; the priority does not change what the sink keeps.
pub fn log_message(d: &mut Diag, _priority: u8, message: Vec<u8>)
    ensures
        final(d).last_log == Some(message),
        final(d).last_error == old(d).last_error,
{
    d.last_log = Some(message);
}

/// Logs one line at error priority.
pub fn log_error(d: &mut Diag, message: Vec<u8>)
    ensures
        final(d).last_log == Some(message),
        final(d).last_error == old(d).last_error,
{
    log_message(d, LOG_PRIORITY_ERROR, message);
}

/// Logs one line at debug priority.
pub fn log_debug(d: &mut Diag, message: Vec<u8>)
    ensures
        final(d).last_log == Some(message),
        final(d).last_error == old(d).last_error,
{
    log_message(d, LOG_PRIORITY_DEBUG, message);
}

/// The text of the most recent diagnostic, or nothing when the channel is
/// clear. The C shim hands the text out as a NUL-terminated string.
pub fn nfc_get_last_error(d: &Diag) -> (r: Option<Vec<u8>>)
    ensures
        r is None <==> d.last_error is None,
        d.last_error is Some ==> r is Some && r->0@ == spec_diag_text(d.last_error->0),
{
    match &d.last_error {
        None => None,
        Some(m) => Some(diag_message_bytes(m)),
    }
}

/// Clears the most recent diagnostic.
pub fn nfc_clear_last_error(d: &mut Diag)
    ensures
        final(d).last_error is None,
        final(d).last_log == old(d).last_log,
{
    reset_last_error(d);
}

/// Stores caller-supplied text as the most recent diagnostic; a NULL
/// message clears the channel instead. Bytes that are not valid UTF-8 are
/// replaced the way lossy text decoding replaces them.
pub fn nfc_set_last_error(d: &mut Diag, message: &ByteBuf)
    ensures
        message.null ==> final(d).last_error is None,
        !message.null ==> (final(d).last_error matches Some(DiagMsg::Text(v)) && v@
            == crate::bytebuf::utf8_lossy(message.data@)),
        final(d).last_log == old(d).last_log,
{
    if message.null {
        reset_last_error(d);
        return ;
    }
    let text = crate::bytebuf::lossy_utf8_bytes(message.data.as_slice());
    set_last_error_message(d, DiagMsg::Text(text));
}

/// The most recent line the log sink kept, for tests that inspect logging.
pub fn test_get_last_log(d: &Diag) -> (r: Option<Vec<u8>>)
    ensures
        r is None <==> d.last_log is None,
        d.last_log is Some ==> r is Some && r->0@ == d.last_log->0@,
{
    match &d.last_log {
        None => None,
        Some(v) => Some(copy_bytes(v)),
    }
}

/// Forgets the most recent log line.
pub fn test_clear_last_log(d: &mut Diag)
    ensures
        final(d).last_log is None,
        final(d).last_error == old(d).last_error,
{
    d.last_log = None;
}

} // verus!
