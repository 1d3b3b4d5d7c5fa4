use nvme_telem::{
    error_log_entries_from_bytes,
    check_ocp_guid, convert_cchar_to_u8_array_16, decode_ascii_field, error_log_command,
    error_log_entry_count, get_controller_identity, get_error_log, get_smart_add_log,
    get_smart_log, identify_controller_command, log_page_command, ocp_smart_log_command,
    ocp_smart_log_from_bytes, parse_ascii_field, serial_number_from_id_ctrl, smart_log_command,
    trim_ascii_field, NvmeErrorLogEntry, OcpLogError, OcpSmartData, OcpSmartExtendedLog,
};

const OCP_GUID: [u8; 16] = [
    0xC5, 0xAF, 0x10, 0x28, 0xEA, 0xBF, 0xF2, 0xA4, 0x9C, 0x4F, 0x6F, 0x7C, 0xC9, 0x14, 0xD5, 0xAF,
];

fn put(buf: &mut [u8], off: usize, bytes: &[u8]) {
    buf[off..off + bytes.len()].copy_from_slice(bytes);
}

fn id_ctrl_with_serial(serial: &[u8]) -> [u8; 4096] {
    let mut id = [0u8; 4096];
    let mut sn = [b' '; 20];
    sn[..serial.len()].copy_from_slice(serial);
    put(&mut id, 4, &sn);
    id
}

fn ocp_page() -> [u8; 512] {
    let mut p = [0u8; 512];
    put(&mut p, 0, &0x0102_0304_0506_0708_090a_0b0c_0d0e_0f10u128.to_le_bytes());
    put(&mut p, 16, &7u128.to_le_bytes());
    put(&mut p, 32, &[0x01, 0x02, 0x03, 0x04, 0x05, 0x06]);
    put(&mut p, 38, &100u16.to_le_bytes());
    put(&mut p, 40, &[0xff, 0, 0, 0, 0, 0x80]);
    put(&mut p, 48, &0xdead_beef_u64.to_le_bytes());
    put(&mut p, 72, &17u32.to_le_bytes());
    p[80] = 42;
    p[96] = 3;
    p[120] = 55;
    put(&mut p, 160, &u128::MAX.to_le_bytes());
    put(&mut p, 216, &64u16.to_le_bytes());
    p[222] = 71;
    put(&mut p, 264, &[1, 0, 0, 0, 0, 1]);
    put(&mut p, 270, b"FW1.2\0\0\0");
    put(&mut p, 494, &4u16.to_le_bytes());
    put(&mut p, 496, &OCP_GUID);
    p
}

#[test]
fn ocp_page_decodes_fields_little_endian() {
    let log = OcpSmartExtendedLog::from_bytes(&ocp_page());
    assert_eq!(log.bad_user_nand_blocks_normalized, 100);
    assert_eq!(log.xor_recovery_count, 0xdead_beef);
    assert_eq!(log.end_to_end_detected_err, 17);
    assert_eq!(log.system_data_used_percent, 42);
    assert_eq!(log.thermal_throttling_event_count, 3);
    assert_eq!(log.percent_free_blocks, 55);
    assert_eq!(log.total_media_dies, 64);
    assert_eq!(log.max_temperature_recorded, 71);
    assert_eq!(log.log_page_version, 4);
    assert_eq!(log.log_page_guid, OCP_GUID);
    assert_eq!(&log.dssd_firmware_revision, b"FW1.2\0\0\0");
}

#[test]
fn ocp_smart_data_converts_counters() {
    let log = OcpSmartExtendedLog::from_bytes(&ocp_page());
    let d = OcpSmartData::new("nvme0".to_string(), "SN1".to_string(), &log);
    assert_eq!(d.nvme_name, "nvme0");
    assert_eq!(d.serial_number, "SN1");
    assert_eq!(d.physical_media_units_written, 0x0102_0304_0506_0708_090a_0b0c_0d0e_0f10);
    assert_eq!(d.physical_media_units_read, 7);
    assert_eq!(d.bad_user_nand_blocks_raw, 0x0605_0403_0201);
    assert_eq!(d.bad_system_nand_blocks_raw, 0x8000_0000_00ff);
    assert_eq!(d.plp_start_count, u128::MAX);
    assert_eq!(d.lifetime_power_consumed, 0x0100_0000_0001);
    assert_eq!(d.dssd_firmware_revision, "FW1.2");
    assert_eq!(d.uncorrectable_read_errors, 0);
    assert_eq!(d.e2e_errors_detected, 17);
    assert_eq!(d.thermal_throttling_events, 3);
}

#[test]
fn ocp_guid_check_accepts_only_the_ocp_guid() {
    assert_eq!(check_ocp_guid(&OCP_GUID), Ok(()));
    assert_eq!(check_ocp_guid(&[0u8; 16]), Err(OcpLogError::InvalidGuid));
    let mut other = OCP_GUID;
    other[15] = 0;
    assert_eq!(check_ocp_guid(&other), Err(OcpLogError::UnexpectedGuid(other)));
}

#[test]
fn ocp_page_with_zero_guid_is_refused() {
    let mut p = ocp_page();
    put(&mut p, 496, &[0u8; 16]);
    assert!(matches!(ocp_smart_log_from_bytes(&p), Err(OcpLogError::InvalidGuid)));
    p[500] = 9;
    match ocp_smart_log_from_bytes(&p) {
        Err(OcpLogError::UnexpectedGuid(g)) => assert_eq!(g[4], 9),
        _ => panic!("expected an unexpected GUID"),
    }
}

#[test]
fn smart_add_log_carries_name_and_trimmed_serial() {
    let id = id_ctrl_with_serial(b"  S4EWNX0R123456");
    let d = get_smart_add_log("nvme1".to_string(), &id, &ocp_page()).unwrap();
    assert_eq!(d.nvme_name, "nvme1");
    assert_eq!(d.serial_number, "S4EWNX0R123456");
    assert_eq!(d.log_page_version, 4);
    let mut bad = ocp_page();
    bad[511] = 0;
    assert!(get_smart_add_log("nvme1".to_string(), &id, &bad).is_err());
}

#[test]
fn ascii_fields_drop_nul_padding_then_spaces() {
    assert_eq!(decode_ascii_field(b"  Model X   \0\0\0"), "Model X");
    assert_eq!(decode_ascii_field(b"\0\0\0\0"), "");
    assert_eq!(decode_ascii_field(b"    "), "");
    assert_eq!(trim_ascii_field("ab\0 "), "ab\0");
    assert_eq!(trim_ascii_field("\t x y \n"), "x y");
    assert_eq!(trim_ascii_field("\u{3000}z\u{a0}"), "z");
}

#[test]
fn ascii_field_from_c_chars_decodes_lossily() {
    let bytes: [i8; 6] = [b'A' as i8, b'B' as i8, -1, b'C' as i8, b' ' as i8, 0];
    assert_eq!(parse_ascii_field(&bytes), "AB\u{FFFD}C");
}

#[test]
fn guid_c_chars_convert_to_bytes() {
    let mut g = [0i8; 16];
    g[0] = -1;
    g[1] = -128;
    g[2] = 127;
    let r = convert_cchar_to_u8_array_16(&g);
    assert_eq!(r[0], 0xff);
    assert_eq!(r[1], 0x80);
    assert_eq!(r[2], 0x7f);
    assert_eq!(r[3], 0);
}

#[test]
fn smart_log_decodes_health_fields() {
    let id = id_ctrl_with_serial(b"SERIAL-9");
    let mut p = [0u8; 512];
    p[0] = 0x04;
    put(&mut p, 1, &318u16.to_le_bytes());
    p[3] = 100;
    p[4] = 10;
    p[5] = 3;
    put(&mut p, 48, &123456u128.to_le_bytes());
    put(&mut p, 112, &42u128.to_le_bytes());
    put(&mut p, 128, &9001u128.to_le_bytes());
    put(&mut p, 192, &5u32.to_le_bytes());
    put(&mut p, 200, &310u16.to_le_bytes());
    put(&mut p, 204, &320u16.to_le_bytes());
    put(&mut p, 228, &77u32.to_le_bytes());
    let s = get_smart_log("nvme0".to_string(), &id, &p);
    assert_eq!(s.nvme_name, "nvme0");
    assert_eq!(s.serial_number, "SERIAL-9");
    assert_eq!(s.critical_warning, 0x04);
    assert_eq!(s.temperature, 318);
    assert_eq!(s.avail_spare, 100);
    assert_eq!(s.spare_thresh, 10);
    assert_eq!(s.percent_used, 3);
    assert_eq!(s.data_units_written, 123456);
    assert_eq!(s.power_cycles, 42);
    assert_eq!(s.power_on_hours, 9001);
    assert_eq!(s.warning_temp_time, 5);
    assert_eq!(s.temp_sensors, vec![310, 320]);
    assert_eq!(s.thm_temp2_total_time, 77);
}

fn error_entry(count: u64, sqid: u16, cmdid: u16, lba: u64, nsid: u32) -> [u8; 64] {
    let mut e = [0u8; 64];
    put(&mut e, 0, &count.to_le_bytes());
    put(&mut e, 8, &sqid.to_le_bytes());
    put(&mut e, 10, &cmdid.to_le_bytes());
    put(&mut e, 12, &0x4004u16.to_le_bytes());
    put(&mut e, 16, &lba.to_le_bytes());
    put(&mut e, 24, &nsid.to_le_bytes());
    e
}

#[test]
fn error_log_keeps_only_populated_entries() {
    let id = id_ctrl_with_serial(b"SN-E");
    let raw = vec![
        error_entry(3, 1, 0x10, 0x1000, 1),
        error_entry(0, 0, 0, 0, 0),
        error_entry(2, 2, 0x20, 0x2000, 2),
        error_entry(0, 0, 0, 0, 0),
    ];
    let log = get_error_log("nvme2".to_string(), &id, &raw);
    assert_eq!(log.nvme_name, "nvme2");
    assert_eq!(log.serial_number, "SN-E");
    assert_eq!(log.entries.len(), 2);
    assert_eq!(log.entries[0].error_count, 3);
    assert_eq!(log.entries[0].submission_queue_id, 1);
    assert_eq!(log.entries[0].command_id, 0x10);
    assert_eq!(log.entries[0].status_field, 0x4004);
    assert_eq!(log.entries[0].lba, 0x1000);
    assert_eq!(log.entries[0].namespace_id, 1);
    assert_eq!(log.entries[1].error_count, 2);
    assert_eq!(log.entries[1].lba, 0x2000);
}

#[test]
fn healthy_drive_has_empty_error_log() {
    let id = id_ctrl_with_serial(b"SN-H");
    let raw = vec![[0u8; 64]; 4];
    assert!(get_error_log("nvme0".to_string(), &id, &raw).entries.is_empty());
}

#[test]
fn error_entry_decodes_every_field() {
    let mut e = error_entry(9, 3, 4, 5, 6);
    put(&mut e, 14, &0x0102u16.to_le_bytes());
    e[28] = 0xC1;
    e[29] = 3;
    put(&mut e, 32, &0x1122_3344_5566_7788u64.to_le_bytes());
    put(&mut e, 40, &0xabcdu16.to_le_bytes());
    let d = NvmeErrorLogEntry::new(&e);
    assert_eq!(d.parm_error_location, 0x0102);
    assert_eq!(d.vendor_specific, 0xC1);
    assert_eq!(d.trtype, 3);
    assert_eq!(d.command_specific, 0x1122_3344_5566_7788);
    assert_eq!(d.trtype_spec_info, 0xabcd);
}

#[test]
fn error_log_entry_count_is_elpe_plus_one() {
    let mut id = [0u8; 4096];
    assert_eq!(error_log_entry_count(&id), 1);
    id[262] = 63;
    assert_eq!(error_log_entry_count(&id), 64);
    id[262] = 255;
    assert_eq!(error_log_entry_count(&id), 256);
}

#[test]
fn identity_decodes_controller_identifiers() {
    let mut id = id_ctrl_with_serial(b"SN-ID-1");
    put(&mut id, 0, &0x144du16.to_le_bytes());
    put(&mut id, 2, &0x144du16.to_le_bytes());
    let mut mn = [b' '; 40];
    mn[..12].copy_from_slice(b"Samsung 980 ");
    put(&mut id, 24, &mn);
    put(&mut id, 64, b"1B4QFXO7");
    put(&mut id, 73, &[0x38, 0x25, 0x00]);
    put(&mut id, 78, &6u16.to_le_bytes());
    put(&mut id, 80, &0x0001_0400u32.to_le_bytes());
    id[111] = 1;
    put(&mut id, 112, &[7u8; 16]);
    put(&mut id, 768, b"nqn.1994-11.com.samsung:nvme:980\0");
    let c = get_controller_identity("nvme0".to_string(), &id);
    assert_eq!(c.nvme_name, "nvme0");
    assert_eq!(c.vid, 0x144d);
    assert_eq!(c.ssvid, 0x144d);
    assert_eq!(c.serial_number, "SN-ID-1");
    assert_eq!(c.model_number, "Samsung 980");
    assert_eq!(c.firmware_rev, "1B4QFXO7");
    assert_eq!(c.ieee, 0x002538);
    assert_eq!(c.cntlid, 6);
    assert_eq!(c.ver, 0x0001_0400);
    assert_eq!(c.cntrltype, 1);
    assert_eq!(c.fguid, [7u8; 16]);
    assert_eq!(c.subnqn, "nqn.1994-11.com.samsung:nvme:980");
}

#[test]
fn every_record_reports_the_same_serial() {
    let id = id_ctrl_with_serial(b"  SAME-SERIAL ");
    let identity = get_controller_identity("nvme3".to_string(), &id);
    let smart = get_smart_log("nvme3".to_string(), &id, &[0u8; 512]);
    let errors = get_error_log("nvme3".to_string(), &id, &[[0u8; 64]]);
    let ocp = get_smart_add_log("nvme3".to_string(), &id, &ocp_page()).unwrap();
    assert_eq!(identity.serial_number, "SAME-SERIAL");
    assert_eq!(smart.serial_number, identity.serial_number);
    assert_eq!(errors.serial_number, identity.serial_number);
    assert_eq!(ocp.serial_number, identity.serial_number);
    assert_eq!(serial_number_from_id_ctrl(&id), "SAME-SERIAL");
}

#[test]
fn admin_commands_encode_log_id_and_dword_count() {
    let id = identify_controller_command();
    assert_eq!((id.opcode, id.nsid, id.data_len, id.cdw10, id.timeout_ms), (0x06, 0, 4096, 1, 1000));
    let s = smart_log_command();
    assert_eq!((s.opcode, s.nsid, s.data_len, s.cdw10), (0x02, 0xFFFF_FFFF, 512, 0x007F_0002));
    let o = ocp_smart_log_command();
    assert_eq!(o.cdw10, 0x007F_00C0);
    let e = error_log_command(256);
    assert_eq!((e.data_len, e.cdw10, e.timeout_ms), (16384, 0x0FFF_0001, 5000));
    let one = error_log_command(1);
    assert_eq!((one.data_len, one.cdw10), (64, 0x000F_0001));
    let g = log_page_command(0x05, 4, 100);
    assert_eq!((g.cdw10, g.cdw11, g.timeout_ms), (0x05, 0, 100));
}

#[test]
fn error_log_data_splits_into_whole_entries() {
    let mut data = vec![0u8; 64 * 3 + 10];
    data[0] = 1;
    data[64] = 2;
    data[128 + 63] = 3;
    let entries = error_log_entries_from_bytes(&data);
    assert_eq!(entries.len(), 3);
    assert_eq!(entries[0][0], 1);
    assert_eq!(entries[1][0], 2);
    assert_eq!(entries[2][63], 3);
    assert!(error_log_entries_from_bytes(&[0u8; 63]).is_empty());
}

#[test]
fn parsing_a_parsed_field_gives_it_back() {
    let raw: Vec<i8> = b"  Model\xC3\xA9 X \0\0".iter().map(|&b| b as i8).collect();
    let once = parse_ascii_field(&raw);
    assert_eq!(once, "Model\u{e9} X");
    let again: Vec<i8> = once.bytes().map(|b| b as i8).collect();
    assert_eq!(parse_ascii_field(&again), once);
}

#[test]
fn ascii_serial_decodes_to_its_characters() {
    assert_eq!(decode_ascii_field(b"SN123   "), "SN123");
}
