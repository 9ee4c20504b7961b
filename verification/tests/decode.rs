//! End-to-end decoding tests over hand-built byte buffers.

use parselnk::blocks::EnvironmentVariableDataBlock;
use parselnk::cursor::Cursor;
use parselnk::error::{Error, ExtraDataError, HeaderError, LinkInfoError, LinkTargetIdListError,
                      StringDataError};
use parselnk::extra_data::ExtraDataEnd;
use parselnk::header::{HAS_ARGUMENTS, HAS_LINK_INFO, HAS_LINK_TARGET_ID_LIST, HAS_NAME,
                       HAS_RELATIVE_PATH, IS_UNICODE};
use parselnk::Lnk;

/// A 76-byte header with the given link flags, header size 0x4C, and every
/// other field zero.
fn header_with_flags(flags: u32) -> Vec<u8> {
    let mut v = vec![0u8; 76];
    v[0..4].copy_from_slice(&0x4Cu32.to_le_bytes());
    v[20..24].copy_from_slice(&flags.to_le_bytes());
    v
}

/// A length-prefixed narrow string entry.
fn ansi_entry(text: &[u8]) -> Vec<u8> {
    let mut v = Vec::new();
    v.extend_from_slice(&(text.len() as u16).to_le_bytes());
    v.extend_from_slice(text);
    v
}

/// A length-prefixed wide string entry from UTF-16 units.
fn wide_entry(units: &[u16]) -> Vec<u8> {
    let mut v = Vec::new();
    v.extend_from_slice(&(units.len() as u16).to_le_bytes());
    for u in units {
        v.extend_from_slice(&u.to_le_bytes());
    }
    v
}

/// A console data block with every payload byte set to `fill`, except the
/// code-page-like first field set to `first`.
fn console_block(first: u16, fill: u8) -> Vec<u8> {
    let mut v = Vec::new();
    v.extend_from_slice(&0xCCu32.to_le_bytes());
    v.extend_from_slice(&0xA0000002u32.to_le_bytes());
    v.extend_from_slice(&first.to_le_bytes());
    v.extend_from_slice(&vec![fill; 194]);
    v
}

#[test]
fn short_input_fails_with_read_error() {
    for len in [0usize, 1, 75] {
        let r = Lnk::new(vec![0u8; len]);
        assert!(matches!(r, Err(Error::HeaderError(HeaderError::Read))));
    }
}

#[test]
fn minimal_unicode_name_decodes() {
    let mut data = header_with_flags(HAS_NAME | IS_UNICODE);
    data.extend_from_slice(&wide_entry(&[0x54, 0x65, 0x73, 0x74])); // "Test"
    let lnk = Lnk::new(data).unwrap();
    assert_eq!(lnk.string_data.name_string, Some("Test".to_string()));
    assert_eq!(lnk.header.header_size, 0x4C);
    assert_eq!(lnk.description(), Some("Test".to_string()));
}

#[test]
fn name_flag_clear_leaves_name_absent() {
    let mut data = header_with_flags(0);
    // Bytes that would decode as a name entry follow, but no flag asks for one.
    data.extend_from_slice(&ansi_entry(b"Test"));
    let lnk = Lnk::new(data).unwrap();
    assert_eq!(lnk.string_data.name_string, None);
}

#[test]
fn ansi_name_round_trips() {
    let mut data = header_with_flags(HAS_NAME);
    data.extend_from_slice(&ansi_entry(b"Hi there"));
    let lnk = Lnk::new(data).unwrap();
    assert_eq!(lnk.string_data.name_string, Some("Hi there".to_string()));
}

#[test]
fn ansi_and_unicode_agree_on_ascii() {
    let text = "C:\\dir\\app.exe";
    let mut ansi = header_with_flags(HAS_NAME);
    ansi.extend_from_slice(&ansi_entry(text.as_bytes()));
    let units: Vec<u16> = text.as_bytes().iter().map(|b| *b as u16).collect();
    let mut wide = header_with_flags(HAS_NAME | IS_UNICODE);
    wide.extend_from_slice(&wide_entry(&units));
    let a = Lnk::new(ansi).unwrap();
    let w = Lnk::new(wide).unwrap();
    assert_eq!(a.string_data.name_string, w.string_data.name_string);
    assert_eq!(a.string_data.name_string, Some(text.to_string()));
}

#[test]
fn non_ascii_utf8_name_decodes() {
    let mut data = header_with_flags(HAS_NAME);
    data.extend_from_slice(&ansi_entry("caf\u{e9}".as_bytes()));
    let lnk = Lnk::new(data).unwrap();
    assert_eq!(lnk.string_data.name_string, Some("caf\u{e9}".to_string()));
}

#[test]
fn non_ascii_utf16_name_decodes() {
    let mut data = header_with_flags(HAS_NAME | IS_UNICODE);
    data.extend_from_slice(&wide_entry(&[0xE9, 0x20AC])); // "é€"
    let lnk = Lnk::new(data).unwrap();
    assert_eq!(lnk.string_data.name_string, Some("\u{e9}\u{20ac}".to_string()));
}

#[test]
fn surrogate_pair_utf16_name_decodes() {
    // U+1F600 as a UTF-16 surrogate pair.
    let mut data = header_with_flags(HAS_NAME | IS_UNICODE);
    data.extend_from_slice(&wide_entry(&[0xD83D, 0xDE00]));
    let lnk = Lnk::new(data).unwrap();
    assert_eq!(lnk.string_data.name_string, Some("\u{1F600}".to_string()));
}

#[test]
fn truncated_name_fails() {
    // A flagged name is mandatory: a count pointing past the end is fatal.
    let mut data = header_with_flags(HAS_NAME);
    data.extend_from_slice(&8u16.to_le_bytes());
    data.extend_from_slice(b"abc");
    let r = Lnk::new(data);
    assert!(matches!(r, Err(Error::StringDataError(StringDataError::Read))));
}

#[test]
fn invalid_utf8_name_fails() {
    let mut data = header_with_flags(HAS_NAME);
    data.extend_from_slice(&ansi_entry(&[0xC3, 0x28]));
    let r = Lnk::new(data);
    assert!(matches!(
        r,
        Err(Error::StringDataError(StringDataError::StringConversion))
    ));
}

#[test]
fn truncated_relative_path_fails() {
    let mut data = header_with_flags(HAS_RELATIVE_PATH);
    data.extend_from_slice(&8u16.to_le_bytes());
    data.extend_from_slice(b"abc");
    let r = Lnk::new(data);
    assert!(matches!(r, Err(Error::StringDataError(StringDataError::Read))));
}

#[test]
fn invalid_utf8_relative_path_fails() {
    let mut data = header_with_flags(HAS_RELATIVE_PATH);
    data.extend_from_slice(&ansi_entry(&[0xFF, 0xFE]));
    let r = Lnk::new(data);
    assert!(matches!(
        r,
        Err(Error::StringDataError(StringDataError::StringConversion))
    ));
}

#[test]
fn lone_surrogate_arguments_fail() {
    let mut data = header_with_flags(HAS_ARGUMENTS | IS_UNICODE);
    data.extend_from_slice(&wide_entry(&[0xD800]));
    let r = Lnk::new(data);
    assert!(matches!(
        r,
        Err(Error::StringDataError(StringDataError::WideStringConversion))
    ));
}

#[test]
fn id_list_length_prefix_missing_fails() {
    let data = header_with_flags(HAS_LINK_TARGET_ID_LIST);
    let r = Lnk::new(data);
    assert!(matches!(
        r,
        Err(Error::LinkTargetIdListError(LinkTargetIdListError::Read))
    ));
}

#[test]
fn id_list_is_skipped() {
    let mut data = header_with_flags(HAS_LINK_TARGET_ID_LIST | HAS_NAME);
    data.extend_from_slice(&3u16.to_le_bytes());
    data.extend_from_slice(&[0xAA, 0xBB, 0xCC]);
    data.extend_from_slice(&ansi_entry(b"after"));
    let lnk = Lnk::new(data).unwrap();
    assert_eq!(lnk.string_data.name_string, Some("after".to_string()));
    let range = lnk.link_target_id_list.contents.expect("id list range expected");
    assert_eq!(range.start, 78);
    assert_eq!(range.len, 3);
}

#[test]
fn link_info_header_too_short_fails() {
    let mut data = header_with_flags(HAS_LINK_INFO);
    data.extend_from_slice(&[0u8; 20]); // fewer than the 36 fixed bytes
    let r = Lnk::new(data);
    assert!(matches!(r, Err(Error::LinkInfoError(LinkInfoError::Read))));
}

/// A link info section of total size 41 whose narrow local base path is
/// "C:\" and whose other strings resolve to absent.
fn narrow_link_info_section() -> Vec<u8> {
    let mut li = Vec::new();
    li.extend_from_slice(&41u32.to_le_bytes()); // link_info_size
    li.extend_from_slice(&0x1Cu32.to_le_bytes()); // link_info_header_size < 0x24
    li.extend_from_slice(&1u32.to_le_bytes()); // volume id and local base path
    li.extend_from_slice(&0u32.to_le_bytes()); // volume_id_offset
    li.extend_from_slice(&36u32.to_le_bytes()); // local_base_path_offset
    li.extend_from_slice(&0u32.to_le_bytes()); // common_network_relative_link_offset
    li.extend_from_slice(&40u32.to_le_bytes()); // common_path_suffix_offset
    li.extend_from_slice(&0u32.to_le_bytes()); // local_base_path_offset_unicode
    li.extend_from_slice(&0u32.to_le_bytes()); // common_path_suffix_offset_unicode
    li.extend_from_slice(b"C:\\\0"); // bytes 36..40
    li.push(0); // byte 40
    li
}

#[test]
fn link_info_narrow_path_decodes() {
    let mut data = header_with_flags(HAS_LINK_INFO);
    data.extend_from_slice(&narrow_link_info_section());
    let lnk = Lnk::new(data).unwrap();
    assert_eq!(lnk.link_info.local_base_path, Some("C:\\".to_string()));
    assert_eq!(lnk.link_info.local_base_path_unicode, None);
    assert_eq!(lnk.link_info.common_path_suffix_unicode, None);
    assert_eq!(lnk.link_info.link_info_size, 41);
    assert_eq!(lnk.link_info.link_info_header_size, 0x1C);
    assert_eq!(lnk.link_info.section_start, 76);
    // The volume ID structure is recognized at its offset but left unparsed.
    assert_eq!(lnk.link_info.volume_id, Some(76));
    assert_eq!(lnk.link_info.common_network_relative_link, None);
}

#[test]
fn link_info_decodes_identically_twice() {
    let mut data = header_with_flags(HAS_LINK_INFO);
    data.extend_from_slice(&narrow_link_info_section());
    let first = Lnk::new(data.clone()).unwrap();
    let second = Lnk::new(data).unwrap();
    assert_eq!(first.link_info.local_base_path, second.link_info.local_base_path);
    assert_eq!(first.link_info.common_path_suffix, second.link_info.common_path_suffix);
    assert_eq!(
        first.link_info.local_base_path_unicode,
        second.link_info.local_base_path_unicode
    );
    assert_eq!(
        first.link_info.common_path_suffix_unicode,
        second.link_info.common_path_suffix_unicode
    );
}

#[test]
fn odd_wide_range_drops_trailing_byte() {
    let mut li = Vec::new();
    li.extend_from_slice(&44u32.to_le_bytes()); // link_info_size
    li.extend_from_slice(&0x1Cu32.to_le_bytes()); // link_info_header_size
    li.extend_from_slice(&1u32.to_le_bytes()); // volume id and local base path
    li.extend_from_slice(&0u32.to_le_bytes()); // volume_id_offset
    li.extend_from_slice(&36u32.to_le_bytes()); // local_base_path_offset
    li.extend_from_slice(&0u32.to_le_bytes()); // common_network_relative_link_offset
    li.extend_from_slice(&40u32.to_le_bytes()); // common_path_suffix_offset
    li.extend_from_slice(&0u32.to_le_bytes()); // local_base_path_offset_unicode
    li.extend_from_slice(&0u32.to_le_bytes()); // common_path_suffix_offset_unicode
    li.extend_from_slice(b"C:\\\0"); // bytes 36..40
    li.extend_from_slice(&[0x61, 0x00, 0x62]); // bytes 40..43: an odd wide range
    li.push(0); // byte 43
    assert_eq!(li.len(), 44);
    let mut data = header_with_flags(HAS_LINK_INFO);
    data.extend_from_slice(&li);
    let lnk = Lnk::new(data).unwrap();
    // The suffix range holds three bytes: one full unit and a dropped byte.
    assert_eq!(lnk.link_info.common_path_suffix, Some("a".to_string()));
}

#[test]
fn link_info_absent_when_flag_clear() {
    let data = header_with_flags(0);
    let lnk = Lnk::new(data).unwrap();
    assert_eq!(lnk.link_info.link_info_flags, None);
    assert_eq!(lnk.link_info.local_base_path, None);
    assert_eq!(lnk.link_info.link_info_size, 0);
    assert_eq!(lnk.link_info.section_start, 0);
    assert_eq!(lnk.link_info.volume_id, None);
}

#[test]
fn console_block_decodes() {
    let mut data = header_with_flags(0);
    data.extend_from_slice(&console_block(0x17, 1));
    let lnk = Lnk::new(data).unwrap();
    let console = lnk.extra_data.console_props.expect("console block expected");
    assert_eq!(console.block_size, 0xCC);
    assert_eq!(console.block_signature, 0xA0000002);
    assert_eq!(console.file_attributes.bits, 0x17);
    assert_eq!(console.popup_file_attributes, 0x0101);
    assert_eq!(console.face_name, vec![1u8; 64]);
    assert_eq!(console.color_table, vec![1u8; 64]);
    assert_eq!(lnk.extra_data.trailing, ExtraDataEnd::EndOfStream);
}

#[test]
fn two_console_blocks_last_wins() {
    let mut data = header_with_flags(0);
    data.extend_from_slice(&console_block(0x11, 3));
    data.extend_from_slice(&console_block(0x22, 7));
    let lnk = Lnk::new(data).unwrap();
    let console = lnk.extra_data.console_props.expect("console block expected");
    assert_eq!(console.file_attributes.bits, 0x22);
    assert_eq!(console.face_name, vec![7u8; 64]);
}

#[test]
fn different_block_types_commute() {
    let mut console_fe = Vec::new();
    console_fe.extend_from_slice(&0x0Cu32.to_le_bytes());
    console_fe.extend_from_slice(&0xA0000004u32.to_le_bytes());
    console_fe.extend_from_slice(&65001u32.to_le_bytes());

    let mut one = header_with_flags(0);
    one.extend_from_slice(&console_block(0x33, 9));
    one.extend_from_slice(&console_fe);
    let mut other = header_with_flags(0);
    other.extend_from_slice(&console_fe);
    other.extend_from_slice(&console_block(0x33, 9));

    let a = Lnk::new(one).unwrap();
    let b = Lnk::new(other).unwrap();
    assert_eq!(
        a.extra_data.console_fe_props.as_ref().map(|c| c.code_page),
        b.extra_data.console_fe_props.as_ref().map(|c| c.code_page)
    );
    assert_eq!(
        a.extra_data.console_props.as_ref().map(|c| c.file_attributes.bits),
        b.extra_data.console_props.as_ref().map(|c| c.file_attributes.bits)
    );
    assert_eq!(a.extra_data.console_fe_props.unwrap().code_page, 65001);
}

#[test]
fn three_block_types_in_any_order_decode_alike() {
    let mut console_fe = Vec::new();
    console_fe.extend_from_slice(&0x0Cu32.to_le_bytes());
    console_fe.extend_from_slice(&0xA0000004u32.to_le_bytes());
    console_fe.extend_from_slice(&1250u32.to_le_bytes());
    let mut special = Vec::new();
    special.extend_from_slice(&0x10u32.to_le_bytes());
    special.extend_from_slice(&0xA0000005u32.to_le_bytes());
    special.extend_from_slice(&5u32.to_le_bytes());
    special.extend_from_slice(&200u32.to_le_bytes());

    let mut one = header_with_flags(0);
    one.extend_from_slice(&console_block(0x66, 4));
    one.extend_from_slice(&console_fe);
    one.extend_from_slice(&special);
    let mut other = header_with_flags(0);
    other.extend_from_slice(&special);
    other.extend_from_slice(&console_fe);
    other.extend_from_slice(&console_block(0x66, 4));

    let a = Lnk::new(one).unwrap();
    let b = Lnk::new(other).unwrap();
    assert_eq!(
        a.extra_data.console_props.as_ref().map(|c| c.file_attributes.bits),
        b.extra_data.console_props.as_ref().map(|c| c.file_attributes.bits)
    );
    assert_eq!(a.extra_data.console_fe_props, b.extra_data.console_fe_props);
    assert_eq!(a.extra_data.special_folder_props, b.extra_data.special_folder_props);
    assert_eq!(a.extra_data.trailing, b.extra_data.trailing);
    assert_eq!(a.extra_data.special_folder_props.unwrap().special_folder_id, 5);
}

#[test]
fn console_block_then_short_garbage_ends_stream() {
    let mut data = header_with_flags(0);
    data.extend_from_slice(&console_block(0x44, 5));
    data.extend_from_slice(&[0xDE, 0xAD, 0xBE, 0xEF]); // too short for a tag
    let lnk = Lnk::new(data).unwrap();
    let console = lnk.extra_data.console_props.expect("console block expected");
    assert_eq!(console.file_attributes.bits, 0x44);
    assert_eq!(console.face_name, vec![5u8; 64]);
    assert_eq!(lnk.extra_data.trailing, ExtraDataEnd::EndOfStream);
}

#[test]
fn console_block_then_unknown_tag_is_reported() {
    let mut data = header_with_flags(0);
    data.extend_from_slice(&console_block(0x44, 5));
    data.extend_from_slice(&0x10u32.to_le_bytes());
    data.extend_from_slice(&0x1234_5678u32.to_le_bytes());
    let lnk = Lnk::new(data).unwrap();
    let console = lnk.extra_data.console_props.expect("console block expected");
    assert_eq!(console.file_attributes.bits, 0x44);
    assert_eq!(
        lnk.extra_data.trailing,
        ExtraDataEnd::UnknownBlock(0x10, 0x1234_5678)
    );
}

#[test]
fn truncated_console_block_keeps_earlier_state() {
    let mut data = header_with_flags(0);
    data.extend_from_slice(&console_block(0x55, 2));
    // A second console tag whose payload is cut off.
    data.extend_from_slice(&0xCCu32.to_le_bytes());
    data.extend_from_slice(&0xA0000002u32.to_le_bytes());
    data.extend_from_slice(&[0u8; 10]);
    let lnk = Lnk::new(data).unwrap();
    let console = lnk.extra_data.console_props.expect("console block expected");
    assert_eq!(console.file_attributes.bits, 0x55);
    assert_eq!(lnk.extra_data.trailing, ExtraDataEnd::EndOfStream);
}

#[test]
fn tracker_block_decodes() {
    let mut data = header_with_flags(0);
    data.extend_from_slice(&0x60u32.to_le_bytes());
    data.extend_from_slice(&0xA0000003u32.to_le_bytes());
    data.extend_from_slice(&0x58u32.to_le_bytes());
    data.extend_from_slice(&0u32.to_le_bytes());
    data.extend_from_slice(&7u128.to_le_bytes());
    data.extend_from_slice(&1u128.to_le_bytes());
    data.extend_from_slice(&2u128.to_le_bytes());
    data.extend_from_slice(&3u128.to_le_bytes());
    data.extend_from_slice(&4u128.to_le_bytes());
    let lnk = Lnk::new(data).unwrap();
    let tracker = lnk.extra_data.tracker_props.expect("tracker block expected");
    assert_eq!(tracker.length, 0x58);
    assert_eq!(tracker.version, 0);
    assert_eq!(tracker.machine_id, 7);
    assert_eq!(tracker.droid, [1u128, 2u128]);
    assert_eq!(tracker.droid_birth, [3u128, 4u128]);
}

#[test]
fn special_and_known_folder_blocks_decode() {
    let mut data = header_with_flags(0);
    data.extend_from_slice(&0x10u32.to_le_bytes());
    data.extend_from_slice(&0xA0000005u32.to_le_bytes());
    data.extend_from_slice(&37u32.to_le_bytes());
    data.extend_from_slice(&120u32.to_le_bytes());
    data.extend_from_slice(&0x1Cu32.to_le_bytes());
    data.extend_from_slice(&0xA000000Bu32.to_le_bytes());
    data.extend_from_slice(&0xABCDu128.to_le_bytes());
    data.extend_from_slice(&99u32.to_le_bytes());
    let lnk = Lnk::new(data).unwrap();
    let special = lnk.extra_data.special_folder_props.expect("special folder expected");
    assert_eq!(special.special_folder_id, 37);
    assert_eq!(special.offset, 120);
    let known = lnk.extra_data.known_folder_props.expect("known folder expected");
    assert_eq!(known.known_folder_id, 0xABCD);
    assert_eq!(known.offset, 99);
}

#[test]
fn shim_block_payload_is_size_derived() {
    let mut data = header_with_flags(0);
    data.extend_from_slice(&16u32.to_le_bytes());
    data.extend_from_slice(&0xA0000008u32.to_le_bytes());
    data.extend_from_slice(&[9u8; 8]);
    let lnk = Lnk::new(data).unwrap();
    let shim = lnk.extra_data.shim_props.expect("shim block expected");
    assert_eq!(shim.layer_name, Some(vec![9u8; 8]));
}

#[test]
fn property_store_with_tiny_size_has_empty_payload() {
    let mut data = header_with_flags(0);
    data.extend_from_slice(&0u32.to_le_bytes());
    data.extend_from_slice(&0xA0000009u32.to_le_bytes());
    let lnk = Lnk::new(data).unwrap();
    let store = lnk.extra_data.property_store_props.expect("property store expected");
    assert_eq!(store.property_store, Vec::<u8>::new());
    assert_eq!(lnk.extra_data.trailing, ExtraDataEnd::EndOfStream);
}

#[test]
fn darwin_and_icon_environment_blocks_decode() {
    let mut data = header_with_flags(0);
    data.extend_from_slice(&0x314u32.to_le_bytes());
    data.extend_from_slice(&0xA0000006u32.to_le_bytes());
    data.extend_from_slice(&[0x61u8; 260]);
    data.extend_from_slice(&[0x62u8; 520]);
    data.extend_from_slice(&0x314u32.to_le_bytes());
    data.extend_from_slice(&0xA0000007u32.to_le_bytes());
    data.extend_from_slice(&[0x63u8; 260]);
    data.extend_from_slice(&[0x64u8; 520]);
    let lnk = Lnk::new(data).unwrap();
    let darwin = lnk.extra_data.darwin_props.expect("darwin block expected");
    assert_eq!(darwin.darwin_data_ansi, vec![0x61u8; 260]);
    assert_eq!(darwin.darwin_data_unicode, Some(vec![0x62u8; 520]));
    let icon = lnk.extra_data.icon_environment_props.expect("icon environment block expected");
    assert_eq!(icon.target_ansi, Some(vec![0x63u8; 260]));
    assert_eq!(icon.target_unicode, Some(vec![0x64u8; 520]));
}

#[test]
fn vista_id_list_block_decodes() {
    let mut data = header_with_flags(0);
    data.extend_from_slice(&14u32.to_le_bytes());
    data.extend_from_slice(&0xA000000Cu32.to_le_bytes());
    data.extend_from_slice(&[1, 2, 3, 4, 5, 6]);
    let lnk = Lnk::new(data).unwrap();
    let vista = lnk.extra_data.vista_and_above_idlist_props.expect("id list block expected");
    assert_eq!(vista.id_list, vec![1, 2, 3, 4, 5, 6]);
}

#[test]
fn link_info_wide_paths_decode() {
    let mut li = Vec::new();
    li.extend_from_slice(&50u32.to_le_bytes()); // link_info_size
    li.extend_from_slice(&0x24u32.to_le_bytes()); // link_info_header_size >= 0x24
    li.extend_from_slice(&1u32.to_le_bytes()); // volume id and local base path
    li.extend_from_slice(&0u32.to_le_bytes()); // volume_id_offset
    li.extend_from_slice(&36u32.to_le_bytes()); // local_base_path_offset
    li.extend_from_slice(&0u32.to_le_bytes()); // common_network_relative_link_offset
    li.extend_from_slice(&40u32.to_le_bytes()); // common_path_suffix_offset
    li.extend_from_slice(&45u32.to_le_bytes()); // local_base_path_offset_unicode
    li.extend_from_slice(&45u32.to_le_bytes()); // common_path_suffix_offset_unicode
    li.extend_from_slice(b"C:\\\0"); // bytes 36..40, the narrow base path
    li.extend_from_slice(&[0x61, 0x00, 0x62, 0x00]); // bytes 40..44, wide "ab"
    li.push(0); // byte 44
    li.extend_from_slice(&[0x5A, 0x00, 0x59, 0x00]); // bytes 45..49, wide "ZY"
    li.push(0); // byte 49
    assert_eq!(li.len(), 50);
    let mut data = header_with_flags(HAS_LINK_INFO);
    data.extend_from_slice(&li);
    let lnk = Lnk::new(data).unwrap();
    assert_eq!(lnk.link_info.local_base_path, Some("C:\\".to_string()));
    assert_eq!(lnk.link_info.common_path_suffix, Some("ab".to_string()));
    // The wide base path reuses the narrow offset, so it reads the narrow
    // bytes and the wide suffix as UTF-16 units.
    assert_eq!(
        lnk.link_info.local_base_path_unicode,
        Some("\u{3A43}\u{5C}ab".to_string())
    );
    assert_eq!(lnk.link_info.common_path_suffix_unicode, Some("ZY".to_string()));
}

#[test]
fn environment_block_targets_decode() {
    let mut ansi = b"%SystemRoot%\\system32\\cmd.exe".to_vec();
    ansi.resize(260, 0);
    let mut wide = Vec::new();
    for b in b"%SystemRoot%\\system32\\cmd.exe" {
        wide.extend_from_slice(&(*b as u16).to_le_bytes());
    }
    wide.resize(520, 0);
    let mut data = header_with_flags(0);
    data.extend_from_slice(&0x314u32.to_le_bytes());
    data.extend_from_slice(&0xA0000001u32.to_le_bytes());
    data.extend_from_slice(&ansi);
    data.extend_from_slice(&wide);
    let lnk = Lnk::new(data).unwrap();
    let env = lnk.extra_data.environment_props.expect("environment block expected");
    let expected = "%SystemRoot%\\system32\\cmd.exe".to_string();
    assert_eq!(env.target_ansi().unwrap(), expected);
    assert_eq!(env.target_unicode().unwrap(), expected);
}

#[test]
fn environment_target_missing_data() {
    let env = EnvironmentVariableDataBlock {
        block_size: 0x314,
        block_signature: 0xA0000001,
        target_ansi: None,
        target_unicode: None,
    };
    assert!(matches!(
        env.target_ansi(),
        Err(ExtraDataError::MissingStringData)
    ));
    assert!(matches!(
        env.target_unicode(),
        Err(ExtraDataError::MissingStringData)
    ));
}

#[test]
fn header_fields_decode_little_endian() {
    // The upper raw flag bits are unknown and must be dropped; the section
    // presence bits stay clear so no section is required to follow.
    let mut data = header_with_flags(0xFFE0_0000);
    data[4..20].copy_from_slice(&0x00021401_0000_0000_C000_000000000046u128.to_le_bytes());
    data[28..36].copy_from_slice(&0x01D4_2B8A_ABCD_EF01u64.to_le_bytes());
    data[52..56].copy_from_slice(&4096u32.to_le_bytes());
    data[60..64].copy_from_slice(&0xFFFF_FFFFu32.to_le_bytes());
    data[64] = 0x41;
    data[65] = 0x02;
    let lnk = Lnk::new(data).unwrap();
    assert_eq!(lnk.header.link_clsid, 0x00021401_0000_0000_C000_000000000046);
    assert_eq!(lnk.header.link_flags.bits, 0x07E0_0000); // unknown bits dropped
    assert_eq!(lnk.header.creation_time, 0x01D4_2B8A_ABCD_EF01);
    assert_eq!(lnk.creation_time(), 0x01D4_2B8A_ABCD_EF01);
    assert_eq!(lnk.header.file_size, 4096);
    assert_eq!(lnk.header.show_command.bits, 0x7); // unknown bits dropped
    assert_eq!(lnk.header.hot_key.low_byte, 0x41);
    assert_eq!(lnk.header.hot_key.high_byte, 0x02);
}

#[test]
fn getters_expose_string_fields() {
    let mut data = header_with_flags(HAS_NAME | HAS_RELATIVE_PATH | HAS_ARGUMENTS);
    data.extend_from_slice(&ansi_entry(b"a name"));
    data.extend_from_slice(&ansi_entry(b"..\\target.exe"));
    data.extend_from_slice(&ansi_entry(b"-v"));
    let lnk = Lnk::new(data).unwrap();
    assert_eq!(lnk.description(), Some("a name".to_string()));
    assert_eq!(lnk.relative_path(), Some("..\\target.exe".to_string()));
    assert_eq!(lnk.arguments(), Some("-v".to_string()));
    assert_eq!(lnk.working_dir(), None);
    assert_eq!(lnk.access_time(), 0);
    assert_eq!(lnk.write_time(), 0);
}

#[test]
fn cursor_reads_little_endian_integers() {
    let mut c = Cursor::new(vec![0x78, 0x56, 0x34, 0x12, 0xFF]);
    assert_eq!(c.read_u32(), Ok(0x12345678));
    assert_eq!(c.position(), 4);
    assert_eq!(c.read_u8(), Ok(0xFF));
    assert!(c.read_u16().is_err());
}

#[test]
fn cursor_seeks_absolutely() {
    let mut c = Cursor::new(vec![1, 2, 3, 4]);
    c.set_position(2);
    assert_eq!(c.read_u16(), Ok(0x0403));
    c.set_position(100);
    assert!(c.read_u8().is_err());
    assert_eq!(c.position(), 100);
}
