//! Hardened, C-callable primitives for a legacy NFC device-access library:
//! bounds-checked byte-range copy/move, best-effort-secure fill/erase,
//! bounded string inspection, and a codec for colon-delimited connection
//! strings (`driver:param1:param2`).
//!
//! The library works on plain byte buffers ([`bytebuf::ByteBuf`]) that stand
//! for the caller-owned ranges of the C interface; the raw-pointer shims,
//! allocation and the panic barrier live outside the verified core.

pub mod bytebuf;
pub mod connstring;
pub mod diag;
pub mod nfc_secure;
