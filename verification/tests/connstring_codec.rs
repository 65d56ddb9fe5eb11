use libnfc_rs::bytebuf::ByteBuf;
use libnfc_rs::connstring::{
    connstring_decode, decode_commit, nfc_build_connstring, nfc_parse_connstring, split_at_first,
    OutSlot, SlotAction, NFC_BUFSIZE_CONNSTRING, NFC_COMMON_ERROR, NFC_COMMON_INVALID,
    NFC_COMMON_SUCCESS,
};
use libnfc_rs::diag::{test_get_last_log, DiagMsg, Diag};

fn buf(bytes: &[u8]) -> ByteBuf {
    ByteBuf::from_vec(bytes.to_vec())
}

fn slot() -> OutSlot {
    OutSlot { present: true, value: None }
}

fn absent_slot() -> OutSlot {
    OutSlot { present: false, value: None }
}

fn last_error_text(d: &Diag) -> String {
    String::from_utf8(libnfc_rs::diag::nfc_get_last_error(d).unwrap()).unwrap()
}

#[test]
fn decode_driver_only_sets_null_outputs() {
    let conn = buf(b"pn532");
    let driver = buf(b"pn532");
    let bus = ByteBuf::null_ptr();
    let mut param1 = slot();
    let mut param2 = slot();

    let level = connstring_decode(&conn, &driver, &bus, &mut param1, &mut param2);

    assert_eq!(level, 1);
    assert!(param1.value.is_none());
    assert!(param2.value.is_none());
}

#[test]
fn decode_with_parameters_returns_segments() {
    let conn = buf(b"pn53x_usb:/dev/usb:115200");
    let driver = buf(b"pn53x_usb");
    let bus = ByteBuf::null_ptr();
    let mut param1 = slot();
    let mut param2 = slot();

    let level = connstring_decode(&conn, &driver, &bus, &mut param1, &mut param2);

    assert_eq!(level, 3);
    assert_eq!(param1.value.as_deref(), Some(b"/dev/usb".as_slice()));
    assert_eq!(param2.value.as_deref(), Some(b"115200".as_slice()));
}

#[test]
fn decode_mismatched_driver_leaves_outputs_untouched() {
    let conn = buf(b"pn53x_usb:/dev/usb");
    let driver = buf(b"pn532_spi");
    let bus = ByteBuf::null_ptr();
    // pre-seed the slots with sentinel values
    let mut param1 = OutSlot { present: true, value: Some(vec![1u8]) };
    let mut param2 = OutSlot { present: true, value: Some(vec![2u8]) };

    let level = connstring_decode(&conn, &driver, &bus, &mut param1, &mut param2);

    assert_eq!(level, 0);
    assert_eq!(param1.value, Some(vec![1u8]));
    assert_eq!(param2.value, Some(vec![2u8]));
}

#[test]
fn decode_null_connstring_is_no_match() {
    let conn = ByteBuf::null_ptr();
    let driver = buf(b"pn532");
    let mut param1 = OutSlot { present: true, value: Some(vec![7u8]) };
    let mut param2 = slot();
    let level = connstring_decode(&conn, &driver, &ByteBuf::null_ptr(), &mut param1, &mut param2);
    assert_eq!(level, 0);
    assert_eq!(param1.value, Some(vec![7u8]));
}

#[test]
fn decode_matches_bus_name_candidate() {
    let conn = buf(b"usb:001:014");
    let driver = buf(b"pn53x_usb");
    let bus = buf(b"usb");
    let mut param1 = slot();
    let mut param2 = slot();
    let level = connstring_decode(&conn, &driver, &bus, &mut param1, &mut param2);
    assert_eq!(level, 3);
    assert_eq!(param1.value.as_deref(), Some(b"001".as_slice()));
    assert_eq!(param2.value.as_deref(), Some(b"014".as_slice()));
}

#[test]
fn decode_one_parameter_gives_level_two() {
    let conn = buf(b"pn532_uart:/dev/ttyUSB0");
    let driver = buf(b"pn532_uart");
    let mut param1 = slot();
    let mut param2 = OutSlot { present: true, value: Some(vec![9u8]) };
    let level = connstring_decode(&conn, &driver, &ByteBuf::null_ptr(), &mut param1, &mut param2);
    assert_eq!(level, 2);
    assert_eq!(param1.value.as_deref(), Some(b"/dev/ttyUSB0".as_slice()));
    // a present slot for an absent segment is set to NULL
    assert!(param2.value.is_none());
}

#[test]
fn decode_ignores_content_after_third_colon() {
    let conn = buf(b"drv:a:b:ignored:tail");
    let driver = buf(b"drv");
    let mut param1 = slot();
    let mut param2 = slot();
    let level = connstring_decode(&conn, &driver, &ByteBuf::null_ptr(), &mut param1, &mut param2);
    assert_eq!(level, 3);
    assert_eq!(param1.value.as_deref(), Some(b"a".as_slice()));
    assert_eq!(param2.value.as_deref(), Some(b"b".as_slice()));
}

#[test]
fn decode_absent_slots_are_never_written() {
    let conn = buf(b"drv:a:b");
    let driver = buf(b"drv");
    let mut param1 = absent_slot();
    let mut param2 = absent_slot();
    let level = connstring_decode(&conn, &driver, &ByteBuf::null_ptr(), &mut param1, &mut param2);
    assert_eq!(level, 3);
    assert!(param1.value.is_none());
    assert!(param2.value.is_none());
}

#[test]
fn decode_empty_segments_match_empty_candidates() {
    // an empty first segment equals a NULL (empty) driver candidate
    let conn = buf(b":a");
    let mut param1 = slot();
    let mut param2 = slot();
    let level = connstring_decode(
        &conn,
        &ByteBuf::null_ptr(),
        &ByteBuf::null_ptr(),
        &mut param1,
        &mut param2,
    );
    assert_eq!(level, 2);
    assert_eq!(param1.value.as_deref(), Some(b"a".as_slice()));
}

#[test]
fn decode_reads_at_most_the_connstring_bound() {
    // the decoder reads no more than the fixed maximum; a longer first
    // segment is cut there, so it no longer equals the full candidate
    let long = vec![b'x'; NFC_BUFSIZE_CONNSTRING + 50];
    let conn = buf(&long);
    let driver = buf(&long);
    let mut param1 = slot();
    let mut param2 = slot();
    let level = connstring_decode(&conn, &driver, &ByteBuf::null_ptr(), &mut param1, &mut param2);
    assert_eq!(level, 0);

    // with the candidate cut to the same bound, it matches
    let cut = vec![b'x'; NFC_BUFSIZE_CONNSTRING];
    let driver_cut = buf(&cut);
    let level2 =
        connstring_decode(&conn, &driver_cut, &ByteBuf::null_ptr(), &mut param1, &mut param2);
    assert_eq!(level2, 1);
}

#[test]
fn decode_commit_rolls_back_on_second_allocation_failure() {
    let c = decode_commit(3, true, true, true, false);
    assert_eq!(c.level, 0);
    assert!(matches!(c.param1, SlotAction::WriteNull));
    assert!(matches!(c.param2, SlotAction::WriteNull));
    assert!(c.release_param1);
}

#[test]
fn decode_commit_rolls_back_on_first_allocation_failure() {
    let c = decode_commit(3, true, false, true, true);
    assert_eq!(c.level, 0);
    assert!(matches!(c.param1, SlotAction::WriteNull));
    assert!(matches!(c.param2, SlotAction::WriteNull));
    assert!(!c.release_param1);
}

#[test]
fn decode_commit_passes_success_through() {
    let c = decode_commit(3, true, true, true, true);
    assert_eq!(c.level, 3);
    assert!(matches!(c.param1, SlotAction::WriteSegment));
    assert!(matches!(c.param2, SlotAction::WriteSegment));
    assert!(!c.release_param1);

    let c1 = decode_commit(1, true, true, true, true);
    assert_eq!(c1.level, 1);
    assert!(matches!(c1.param1, SlotAction::WriteNull));
    assert!(matches!(c1.param2, SlotAction::WriteNull));

    let c0 = decode_commit(0, true, true, true, true);
    assert_eq!(c0.level, 0);
    assert!(matches!(c0.param1, SlotAction::Leave));
    assert!(matches!(c0.param2, SlotAction::Leave));
}

#[test]
fn split_at_first_basic() {
    let data = b"abc:def:ghi";
    let (head, tail) = split_at_first(data, b':');
    assert_eq!(head, b"abc");
    assert_eq!(tail, Some(b"def:ghi".as_slice()));

    let (head2, tail2) = split_at_first(b"nodelim", b':');
    assert_eq!(head2, b"nodelim");
    assert!(tail2.is_none());

    let (head3, tail3) = split_at_first(b":rest", b':');
    assert_eq!(head3, b"");
    assert_eq!(tail3, Some(b"rest".as_slice()));
}

#[test]
fn parse_connstring_logs_on_prefix_mismatch() {
    let mut d = Diag::new();
    libnfc_rs::diag::test_clear_last_log(&mut d);
    let conn = buf(b"pn53x_usb:/dev/usb");
    let prefix = buf(b"pn532");
    let name = buf(b"param");
    let mut out = buf(&[0u8; 64]);
    let rc = nfc_parse_connstring(&mut d, &conn, &prefix, &name, &mut out, 64);
    assert_ne!(rc, NFC_COMMON_SUCCESS);
    let logged = test_get_last_log(&d);
    assert!(logged.is_some());
    assert!(String::from_utf8(logged.unwrap()).unwrap().contains("does not match prefix"));
    assert!(matches!(d.last_error, Some(DiagMsg::PrefixMismatch { .. })));
}

#[test]
fn parse_extracts_value() {
    let mut d = Diag::new();
    let conn = buf(b"pn532_uart:device=/dev/ttyUSB0:speed=115200");
    let prefix = buf(b"pn532_uart");
    let name = buf(b"device");
    let mut out = buf(&[0xAAu8; 64]);
    let rc = nfc_parse_connstring(&mut d, &conn, &prefix, &name, &mut out, 64);
    assert_eq!(rc, NFC_COMMON_SUCCESS);
    assert_eq!(&out.data[..13], b"/dev/ttyUSB0\0");
    // bytes past the terminator are untouched
    assert_eq!(out.data[13], 0xAA);
    // success clears the diagnostic channel
    assert!(d.last_error.is_none());
}

#[test]
fn parse_second_parameter_stops_at_end() {
    let mut d = Diag::new();
    let conn = buf(b"pn532_uart:device=/dev/ttyUSB0:speed=115200");
    let prefix = buf(b"pn532_uart");
    let name = buf(b"speed");
    let mut out = buf(&[0u8; 16]);
    let rc = nfc_parse_connstring(&mut d, &conn, &prefix, &name, &mut out, 16);
    assert_eq!(rc, NFC_COMMON_SUCCESS);
    assert_eq!(&out.data[..7], b"115200\0");
}

#[test]
fn parse_reports_param_not_found() {
    let mut d = Diag::new();
    let conn = buf(b"pn532_uart:device=/dev/ttyUSB0");
    let prefix = buf(b"pn532_uart");
    let name = buf(b"speed");
    let mut out = buf(&[0u8; 16]);
    let rc = nfc_parse_connstring(&mut d, &conn, &prefix, &name, &mut out, 16);
    assert_eq!(rc, NFC_COMMON_ERROR);
    assert!(matches!(d.last_error, Some(DiagMsg::ParamNotFound { .. })));
    assert!(last_error_text(&d).contains("not found in connstring"));
    // the buffer is untouched
    assert_eq!(out.data, vec![0u8; 16]);
}

#[test]
fn parse_rejects_value_longer_than_buffer() {
    let mut d = Diag::new();
    let conn = buf(b"drv:key=0123456789");
    let prefix = buf(b"drv");
    let name = buf(b"key");
    let mut out = buf(&[7u8; 8]);
    let rc = nfc_parse_connstring(&mut d, &conn, &prefix, &name, &mut out, 8);
    assert_eq!(rc, NFC_COMMON_ERROR);
    assert_eq!(
        last_error_text(&d),
        "Parameter value too long (10 bytes, buffer size 8)"
    );
    assert_eq!(out.data, vec![7u8; 8]);
}

#[test]
fn parse_structural_failures_are_invalid() {
    let mut d = Diag::new();
    let conn = buf(b"drv:key=v");
    let prefix = buf(b"drv");
    let name = buf(b"key");

    // zero-size buffer
    let mut out = buf(&[0u8; 8]);
    assert_eq!(
        nfc_parse_connstring(&mut d, &conn, &prefix, &name, &mut out, 0),
        NFC_COMMON_INVALID
    );
    assert_eq!(
        last_error_text(&d),
        "Zero-size param_value buffer in connstring parsing"
    );

    // NULL inputs
    assert_eq!(
        nfc_parse_connstring(&mut d, &ByteBuf::null_ptr(), &prefix, &name, &mut out, 8),
        NFC_COMMON_INVALID
    );
    assert_eq!(last_error_text(&d), "NULL connstring in parsing");
    assert_eq!(
        nfc_parse_connstring(&mut d, &conn, &ByteBuf::null_ptr(), &name, &mut out, 8),
        NFC_COMMON_INVALID
    );
    assert_eq!(
        nfc_parse_connstring(&mut d, &conn, &prefix, &ByteBuf::null_ptr(), &mut out, 8),
        NFC_COMMON_INVALID
    );
    let mut null_out = ByteBuf::null_ptr();
    assert_eq!(
        nfc_parse_connstring(&mut d, &conn, &prefix, &name, &mut null_out, 8),
        NFC_COMMON_INVALID
    );

    // non-UTF-8 text
    let bad = buf(&[0xFFu8, 0xFE]);
    assert_eq!(
        nfc_parse_connstring(&mut d, &bad, &prefix, &name, &mut out, 8),
        NFC_COMMON_INVALID
    );
    assert_eq!(last_error_text(&d), "connstring contains non UTF-8 data");
}

#[test]
fn build_assembles_connstring() {
    let mut d = Diag::new();
    let mut dest = buf(&[0xBBu8; 64]);
    let rc = nfc_build_connstring(
        &mut d,
        &mut dest,
        64,
        &buf(b"pn532"),
        &buf(b"device"),
        &buf(b"/dev/ttyUSB0"),
    );
    assert_eq!(rc, NFC_COMMON_SUCCESS);
    assert_eq!(&dest.data[..26], b"pn532:device=/dev/ttyUSB0\0");
    assert_eq!(dest.data[26], 0xBB);
    assert!(d.last_error.is_none());
    let logged = test_get_last_log(&d).unwrap();
    assert_eq!(
        String::from_utf8(logged).unwrap(),
        "Built connection string: 'pn532:device=/dev/ttyUSB0'"
    );
}

#[test]
fn build_reports_overflow_with_byte_count() {
    let mut d = Diag::new();
    let mut dest = buf(&[3u8; 10]);
    let rc = nfc_build_connstring(
        &mut d,
        &mut dest,
        10,
        &buf(b"pn532"),
        &buf(b"device"),
        &buf(b"/dev/ttyUSB0"),
    );
    assert_eq!(rc, NFC_COMMON_ERROR);
    assert_eq!(
        last_error_text(&d),
        "Connection string buffer overflow (need 26 bytes, have 10)"
    );
    assert_eq!(dest.data, vec![3u8; 10]);
}

#[test]
fn build_structural_failures_are_invalid() {
    let mut d = Diag::new();
    let mut dest = buf(&[0u8; 32]);
    assert_eq!(
        nfc_build_connstring(&mut d, &mut dest, 0, &buf(b"a"), &buf(b"b"), &buf(b"c")),
        NFC_COMMON_INVALID
    );
    assert_eq!(
        last_error_text(&d),
        "Zero-size destination buffer in connstring building"
    );
    let mut null_dest = ByteBuf::null_ptr();
    assert_eq!(
        nfc_build_connstring(&mut d, &mut null_dest, 32, &buf(b"a"), &buf(b"b"), &buf(b"c")),
        NFC_COMMON_INVALID
    );
    assert_eq!(
        nfc_build_connstring(&mut d, &mut dest, 32, &ByteBuf::null_ptr(), &buf(b"b"), &buf(b"c")),
        NFC_COMMON_INVALID
    );
    assert_eq!(
        nfc_build_connstring(&mut d, &mut dest, 32, &buf(b"a"), &ByteBuf::null_ptr(), &buf(b"c")),
        NFC_COMMON_INVALID
    );
    assert_eq!(
        nfc_build_connstring(&mut d, &mut dest, 32, &buf(b"a"), &buf(b"b"), &ByteBuf::null_ptr()),
        NFC_COMMON_INVALID
    );
    let bad = buf(&[0x80u8]);
    assert_eq!(
        nfc_build_connstring(&mut d, &mut dest, 32, &bad, &buf(b"b"), &buf(b"c")),
        NFC_COMMON_INVALID
    );
    assert_eq!(last_error_text(&d), "driver_name contains non UTF-8 data");
}

#[test]
fn build_then_parse_round_trips() {
    let mut d = Diag::new();
    let mut dest = buf(&[0u8; 64]);
    let rc = nfc_build_connstring(
        &mut d,
        &mut dest,
        64,
        &buf(b"pn532"),
        &buf(b"device"),
        &buf(b"/dev/ttyUSB0"),
    );
    assert_eq!(rc, NFC_COMMON_SUCCESS);

    // the built string is NUL-terminated; parse sees the bytes before it
    let text_len = dest.data.iter().position(|&b| b == 0).unwrap();
    let built = buf(&dest.data[..text_len]);

    // round-trips for any output size large enough for the value
    for m in [13usize, 14, 20, 64] {
        let mut out = buf(&vec![0u8; m]);
        let rc2 = nfc_parse_connstring(&mut d, &built, &buf(b"pn532"), &buf(b"device"), &mut out, m);
        assert_eq!(rc2, NFC_COMMON_SUCCESS);
        assert_eq!(&out.data[..13], b"/dev/ttyUSB0\0");
    }

    // one byte too few fails instead of truncating
    let mut tight = buf(&vec![0u8; 12]);
    let rc3 =
        nfc_parse_connstring(&mut d, &built, &buf(b"pn532"), &buf(b"device"), &mut tight, 12);
    assert_eq!(rc3, NFC_COMMON_ERROR);
}
