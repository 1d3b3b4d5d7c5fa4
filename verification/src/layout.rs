//! The byte layouts of the NVMe and OCP data structures, stated field by
//! field as laws over the decoded records: each field is the little-endian
//! number, byte or text at its place in the page, written as a weighted sum
//! of the page's bytes.
use vstd::prelude::*;
use crate::ascii::{field_text, utf8_lossy};
use crate::bytes::{le_at, le_value, pow256};
use crate::error_log::NvmeErrorLogEntry;
use crate::identify::CtrlIdentity;
use crate::ocp::{OcpSmartData, OcpSmartExtendedLog};
use crate::smart::NvmeSmartLog;
use vstd::utf8::{decode_utf8, valid_utf8};

verus! {

/// `Σ_{i < n} s[o + i] · 256^i`: the bytes `s[o..o + n]` read as an unsigned
/// little-endian number, summed from the most significant byte down.
pub open spec fn weighted_sum(s: Seq<u8>, o: int, n: nat) -> nat
    decreases n,
{
    if n == 0 {
        0
    } else {
        weighted_sum(s, o, (n - 1) as nat) + s[o + n - 1] as nat * pow256((n - 1) as nat)
    }
}

/// Peeling the most significant byte off a little-endian value.
proof fn lemma_le_value_drop_last(t: Seq<u8>)
    requires
        t.len() > 0,
    ensures
        le_value(t) == le_value(t.drop_last()) + t.last() as nat * pow256((t.len() - 1) as nat),
    decreases t.len(),
{
    if t.len() > 1 {
        let r = t.drop_first();
        lemma_le_value_drop_last(r);
        assert(t.drop_last().drop_first() =~= r.drop_last());
        let x = t.last() as nat;
        let p = pow256((r.len() - 1) as nat);
        assert(pow256((t.len() - 1) as nat) == 256 * p);
        assert(256 * (x * p) == x * (256 * p)) by (nonlinear_arith);
        assert(r.last() == t.last());
        assert(le_value(t) == t[0] as nat + 256 * le_value(r));
        assert(t.drop_last()[0] == t[0]);
        assert(le_value(t.drop_last()) == t[0] as nat + 256 * le_value(r.drop_last()));
        assert(le_value(r) == le_value(r.drop_last()) + x * p);
        assert(t.last() as nat * pow256((t.len() - 1) as nat) == x * (256 * p));
    } else {
        assert(t.drop_last().len() == 0);
        assert(t.drop_first().len() == 0);
        assert(le_value(t) == t[0] as nat + 256 * le_value(t.drop_first()));
        assert(pow256(0) == 1);
        assert(t.last() == t[0]);
        assert(t.last() as nat * pow256(0) == t.last() as nat) by (nonlinear_arith)
            requires
                pow256(0) == 1,
        ;
    }
}

/// The decoder's little-endian value equals the weighted sum of the bytes.
pub proof fn lemma_le_at_is_weighted_sum(s: Seq<u8>, o: int, n: nat)
    requires
        0 <= o,
        o + n <= s.len(),
    ensures
        le_at(s, o, n as int) == weighted_sum(s, o, n),
    decreases n,
{
    if n > 0 {
        lemma_le_at_is_weighted_sum(s, o, (n - 1) as nat);
        let t = s.subrange(o, o + n);
        lemma_le_value_drop_last(t);
        assert(t.drop_last() =~= s.subrange(o, o + n - 1));
    }
}

/// A weighted sum is zero exactly when all of its bytes are zero.
pub proof fn lemma_weighted_sum_zero(s: Seq<u8>, o: int, n: nat)
    requires
        0 <= o,
        o + n <= s.len(),
    ensures
        (weighted_sum(s, o, n) == 0) <==> (forall|k: int| o <= k < o + n ==> #[trigger] s[k] == 0),
    decreases n,
{
    if n > 0 {
        lemma_weighted_sum_zero(s, o, (n - 1) as nat);
        lemma_pow256_positive((n - 1) as nat);
        let x = s[o + n - 1] as nat;
        let p = pow256((n - 1) as nat);
        assert(x > 0 ==> x * p > 0) by (nonlinear_arith)
            requires
                p > 0,
        ;
        if weighted_sum(s, o, n) == 0 {
            assert forall|k: int| o <= k < o + n implies #[trigger] s[k] == 0 by {
                if k < o + n - 1 {
                } else {
                    assert(k == o + n - 1);
                }
            }
        }
    }
}

proof fn lemma_pow256_positive(n: nat)
    ensures
        pow256(n) > 0,
    decreases n,
{
    if n > 0 {
        lemma_pow256_positive((n - 1) as nat);
    }
}


/// Identify Controller data: VID at bytes 1:0, SSVID at 3:2, the serial
/// number text at 23:4, the model number at 63:24, the firmware revision at
/// 71:64, the IEEE OUI at 75:73, CNTLID at 79:78, VER at 83:80, CNTRLTYPE at
/// 111, FGUID at 127:112 and SUBNQN at 1023:768, multi-byte fields little-endian.
#[verifier::rlimit(40)]
pub proof fn lemma_identity_layout(c: CtrlIdentity, nvme_name: Seq<char>, raw: Seq<u8>)
    requires
        c.built_from(nvme_name, raw),
        raw.len() == 4096,
    ensures
        c.nvme_name@ == nvme_name,
        c.vid == weighted_sum(raw, 0, 2),
        c.ssvid == weighted_sum(raw, 2, 2),
        c.ieee == weighted_sum(raw, 73, 3),
        c.serial_number@ == field_text(utf8_lossy(raw.subrange(4, 24))),
        valid_utf8(raw.subrange(4, 24)) ==> c.serial_number@ == field_text(decode_utf8(raw.subrange(4, 24))),
        c.model_number@ == field_text(utf8_lossy(raw.subrange(24, 64))),
        valid_utf8(raw.subrange(24, 64)) ==> c.model_number@ == field_text(decode_utf8(raw.subrange(24, 64))),
        c.firmware_rev@ == field_text(utf8_lossy(raw.subrange(64, 72))),
        valid_utf8(raw.subrange(64, 72)) ==> c.firmware_rev@ == field_text(decode_utf8(raw.subrange(64, 72))),
        c.cntlid == weighted_sum(raw, 78, 2),
        c.subnqn@ == field_text(utf8_lossy(raw.subrange(768, 1024))),
        valid_utf8(raw.subrange(768, 1024)) ==> c.subnqn@ == field_text(decode_utf8(raw.subrange(768, 1024))),
        c.fguid@.len() == 16,
        forall|i: int| 0 <= i < 16 ==> #[trigger] c.fguid@[i] == raw[112 + i],
        c.ver == weighted_sum(raw, 80, 4),
        c.cntrltype == raw[111],
{
    lemma_le_at_is_weighted_sum(raw, 0, 2);
    lemma_le_at_is_weighted_sum(raw, 2, 2);
    lemma_le_at_is_weighted_sum(raw, 73, 3);
    lemma_le_at_is_weighted_sum(raw, 78, 2);
    lemma_le_at_is_weighted_sum(raw, 80, 4);
}

/// S.M.A.R.T. / Health Information log page: Critical Warning at byte 0,
/// Composite Temperature at 2:1, Available Spare, its threshold, Percentage
/// Used and the Endurance Group summary at 3..6, the 16-byte counters (Data
/// Units Read/Written, Host Reads/Writes, Busy Time, Power Cycles, Power On
/// Hours, Unsafe Shutdowns, Media Errors, Error Log Entries) from byte 32 on,
/// 16 bytes apart, then the 4-byte thermal times and counts, all little-endian.
#[verifier::rlimit(40)]
pub proof fn lemma_smart_log_layout(s: NvmeSmartLog, nvme_name: Seq<char>, serial_number: Seq<char>, raw: Seq<u8>)
    requires
        s.built_from(nvme_name, serial_number, raw),
        raw.len() == 512,
    ensures
        s.nvme_name@ == nvme_name,
        s.serial_number@ == serial_number,
        s.critical_warning == raw[0],
        s.temperature == weighted_sum(raw, 1, 2),
        s.avail_spare == raw[3],
        s.spare_thresh == raw[4],
        s.percent_used == raw[5],
        s.endu_grp_crit_warn_sumry == raw[6],
        s.data_units_read == weighted_sum(raw, 32, 16),
        s.data_units_written == weighted_sum(raw, 48, 16),
        s.host_reads == weighted_sum(raw, 64, 16),
        s.host_writes == weighted_sum(raw, 80, 16),
        s.ctrl_busy_time == weighted_sum(raw, 96, 16),
        s.power_cycles == weighted_sum(raw, 112, 16),
        s.power_on_hours == weighted_sum(raw, 128, 16),
        s.unsafe_shutdowns == weighted_sum(raw, 144, 16),
        s.media_errors == weighted_sum(raw, 160, 16),
        s.num_err_log_entries == weighted_sum(raw, 176, 16),
        s.warning_temp_time == weighted_sum(raw, 192, 4),
        s.critical_comp_time == weighted_sum(raw, 196, 4),
        s.thm_temp1_trans_count == weighted_sum(raw, 216, 4),
        s.thm_temp2_trans_count == weighted_sum(raw, 220, 4),
        s.thm_temp1_total_time == weighted_sum(raw, 224, 4),
        s.thm_temp2_total_time == weighted_sum(raw, 228, 4),
{
    lemma_le_at_is_weighted_sum(raw, 1, 2);
    lemma_le_at_is_weighted_sum(raw, 32, 16);
    lemma_le_at_is_weighted_sum(raw, 48, 16);
    lemma_le_at_is_weighted_sum(raw, 64, 16);
    lemma_le_at_is_weighted_sum(raw, 80, 16);
    lemma_le_at_is_weighted_sum(raw, 96, 16);
    lemma_le_at_is_weighted_sum(raw, 112, 16);
    lemma_le_at_is_weighted_sum(raw, 128, 16);
    lemma_le_at_is_weighted_sum(raw, 144, 16);
    lemma_le_at_is_weighted_sum(raw, 160, 16);
    lemma_le_at_is_weighted_sum(raw, 176, 16);
    lemma_le_at_is_weighted_sum(raw, 192, 4);
    lemma_le_at_is_weighted_sum(raw, 196, 4);
    lemma_le_at_is_weighted_sum(raw, 216, 4);
    lemma_le_at_is_weighted_sum(raw, 220, 4);
    lemma_le_at_is_weighted_sum(raw, 224, 4);
    lemma_le_at_is_weighted_sum(raw, 228, 4);
}

/// Error Information log entry: Error Count at bytes 7:0, SQID at 9:8, CID at
/// 11:10, Status Field at 13:12, Parameter Error Location at 15:14, LBA at
/// 23:16, NSID at 27:24, Vendor Specific at 28, Transport Type at 29, Command
/// Specific Information at 39:32, Transport Type Specific at 41:40.
pub proof fn lemma_error_entry_layout(e: NvmeErrorLogEntry, raw: Seq<u8>)
    requires
        e.built_from(raw),
        raw.len() == 64,
    ensures
        e.error_count == weighted_sum(raw, 0, 8),
        e.submission_queue_id == weighted_sum(raw, 8, 2),
        e.command_id == weighted_sum(raw, 10, 2),
        e.status_field == weighted_sum(raw, 12, 2),
        e.parm_error_location == weighted_sum(raw, 14, 2),
        e.lba == weighted_sum(raw, 16, 8),
        e.namespace_id == weighted_sum(raw, 24, 4),
        e.vendor_specific == raw[28],
        e.trtype == raw[29],
        e.command_specific == weighted_sum(raw, 32, 8),
        e.trtype_spec_info == weighted_sum(raw, 40, 2),
{
    lemma_le_at_is_weighted_sum(raw, 0, 8);
    lemma_le_at_is_weighted_sum(raw, 8, 2);
    lemma_le_at_is_weighted_sum(raw, 10, 2);
    lemma_le_at_is_weighted_sum(raw, 12, 2);
    lemma_le_at_is_weighted_sum(raw, 14, 2);
    lemma_le_at_is_weighted_sum(raw, 16, 8);
    lemma_le_at_is_weighted_sum(raw, 24, 4);
    lemma_le_at_is_weighted_sum(raw, 32, 8);
    lemma_le_at_is_weighted_sum(raw, 40, 2);
}

/// OCP SMART Extended Log: every field at the offset of the packed 512-byte
/// page (e.g. Percent Free Blocks at byte 120, seven reserved bytes, then
/// Capacitor Health at 129:128), multi-byte fields little-endian.
#[verifier::rlimit(40)]
pub proof fn lemma_ocp_log_layout(log: OcpSmartExtendedLog, raw: Seq<u8>)
    requires
        log.decoded_from(raw),
        raw.len() == 512,
    ensures
        log.physical_media_units_written@.len() == 16,
        forall|i: int| 0 <= i < 16 ==> #[trigger] log.physical_media_units_written@[i] == raw[0 + i],
        log.physical_media_units_read@.len() == 16,
        forall|i: int| 0 <= i < 16 ==> #[trigger] log.physical_media_units_read@[i] == raw[16 + i],
        log.bad_user_nand_blocks_raw@.len() == 6,
        forall|i: int| 0 <= i < 6 ==> #[trigger] log.bad_user_nand_blocks_raw@[i] == raw[32 + i],
        log.bad_user_nand_blocks_normalized == weighted_sum(raw, 38, 2),
        log.bad_system_nand_blocks_raw@.len() == 6,
        forall|i: int| 0 <= i < 6 ==> #[trigger] log.bad_system_nand_blocks_raw@[i] == raw[40 + i],
        log.bad_system_nand_blocks_normalized == weighted_sum(raw, 46, 2),
        log.xor_recovery_count == weighted_sum(raw, 48, 8),
        log.uncorrectable_read_err_count == weighted_sum(raw, 56, 8),
        log.soft_ecc_err_count == weighted_sum(raw, 64, 8),
        log.end_to_end_detected_err == weighted_sum(raw, 72, 4),
        log.end_to_end_corrected_err == weighted_sum(raw, 76, 4),
        log.system_data_used_percent == raw[80],
        log.refresh_counts@.len() == 7,
        forall|i: int| 0 <= i < 7 ==> #[trigger] log.refresh_counts@[i] == raw[81 + i],
        log.user_data_erase_count_max == weighted_sum(raw, 88, 4),
        log.user_data_erase_count_min == weighted_sum(raw, 92, 4),
        log.thermal_throttling_event_count == raw[96],
        log.thermal_throttling_current_status == raw[97],
        log.dssd_errata_version == raw[98],
        log.dssd_point_version@.len() == 2,
        forall|i: int| 0 <= i < 2 ==> #[trigger] log.dssd_point_version@[i] == raw[99 + i],
        log.dssd_minor_version@.len() == 2,
        forall|i: int| 0 <= i < 2 ==> #[trigger] log.dssd_minor_version@[i] == raw[101 + i],
        log.dssd_major_version == raw[103],
        log.pcie_correctable_err_count == weighted_sum(raw, 104, 8),
        log.incomplete_shutdowns == weighted_sum(raw, 112, 4),
        log.percent_free_blocks == raw[120],
        log.capacitor_health == weighted_sum(raw, 128, 2),
        log.nvme_base_errata_version == raw[130],
        log.nvme_cmdset_errata_version == raw[131],
        log.nvme_over_pcie_errata_version == raw[132],
        log.nvme_mi_errata_version == raw[133],
        log.unaligned_io == weighted_sum(raw, 136, 8),
        log.security_version == weighted_sum(raw, 144, 8),
        log.total_nuse == weighted_sum(raw, 152, 8),
        log.plp_start_count@.len() == 16,
        forall|i: int| 0 <= i < 16 ==> #[trigger] log.plp_start_count@[i] == raw[160 + i],
        log.endurance_estimate@.len() == 16,
        forall|i: int| 0 <= i < 16 ==> #[trigger] log.endurance_estimate@[i] == raw[176 + i],
        log.pcie_link_retraining_count == weighted_sum(raw, 192, 8),
        log.power_state_change_count == weighted_sum(raw, 200, 8),
        log.lowest_permitted_fw_rev == weighted_sum(raw, 208, 8),
        log.total_media_dies == weighted_sum(raw, 216, 2),
        log.total_die_failure_tolerance == weighted_sum(raw, 218, 2),
        log.media_dies_offline == weighted_sum(raw, 220, 2),
        log.max_temperature_recorded == raw[222],
        log.nand_avg_erase_count == weighted_sum(raw, 224, 8),
        log.command_timeouts == weighted_sum(raw, 232, 4),
        log.sys_area_program_fail_count_raw == weighted_sum(raw, 236, 4),
        log.sys_area_program_fail_count_normalized == raw[240],
        log.sys_area_uncorr_read_count_raw == weighted_sum(raw, 244, 4),
        log.sys_area_uncorr_read_count_normalized == raw[248],
        log.sys_area_erase_fail_count_raw == weighted_sum(raw, 252, 4),
        log.sys_area_erase_fail_count_normalized == raw[256],
        log.max_peak_power_capability == weighted_sum(raw, 260, 2),
        log.current_max_avg_power == weighted_sum(raw, 262, 2),
        log.lifetime_power_consumed@.len() == 6,
        forall|i: int| 0 <= i < 6 ==> #[trigger] log.lifetime_power_consumed@[i] == raw[264 + i],
        log.dssd_firmware_revision@.len() == 8,
        forall|i: int| 0 <= i < 8 ==> #[trigger] log.dssd_firmware_revision@[i] == raw[270 + i],
        log.dssd_firmware_build_uuid@.len() == 16,
        forall|i: int| 0 <= i < 16 ==> #[trigger] log.dssd_firmware_build_uuid@[i] == raw[278 + i],
        log.dssd_firmware_build_label@.len() == 64,
        forall|i: int| 0 <= i < 64 ==> #[trigger] log.dssd_firmware_build_label@[i] == raw[294 + i],
        log.log_page_version == weighted_sum(raw, 494, 2),
        log.log_page_guid@.len() == 16,
        forall|i: int| 0 <= i < 16 ==> #[trigger] log.log_page_guid@[i] == raw[496 + i],
{
    lemma_le_at_is_weighted_sum(raw, 38, 2);
    lemma_le_at_is_weighted_sum(raw, 46, 2);
    lemma_le_at_is_weighted_sum(raw, 48, 8);
    lemma_le_at_is_weighted_sum(raw, 56, 8);
    lemma_le_at_is_weighted_sum(raw, 64, 8);
    lemma_le_at_is_weighted_sum(raw, 72, 4);
    lemma_le_at_is_weighted_sum(raw, 76, 4);
    lemma_le_at_is_weighted_sum(raw, 88, 4);
    lemma_le_at_is_weighted_sum(raw, 92, 4);
    lemma_le_at_is_weighted_sum(raw, 104, 8);
    lemma_le_at_is_weighted_sum(raw, 112, 4);
    lemma_le_at_is_weighted_sum(raw, 128, 2);
    lemma_le_at_is_weighted_sum(raw, 136, 8);
    lemma_le_at_is_weighted_sum(raw, 144, 8);
    lemma_le_at_is_weighted_sum(raw, 152, 8);
    lemma_le_at_is_weighted_sum(raw, 192, 8);
    lemma_le_at_is_weighted_sum(raw, 200, 8);
    lemma_le_at_is_weighted_sum(raw, 208, 8);
    lemma_le_at_is_weighted_sum(raw, 216, 2);
    lemma_le_at_is_weighted_sum(raw, 218, 2);
    lemma_le_at_is_weighted_sum(raw, 220, 2);
    lemma_le_at_is_weighted_sum(raw, 224, 8);
    lemma_le_at_is_weighted_sum(raw, 232, 4);
    lemma_le_at_is_weighted_sum(raw, 236, 4);
    lemma_le_at_is_weighted_sum(raw, 244, 4);
    lemma_le_at_is_weighted_sum(raw, 252, 4);
    lemma_le_at_is_weighted_sum(raw, 260, 2);
    lemma_le_at_is_weighted_sum(raw, 262, 2);
    lemma_le_at_is_weighted_sum(raw, 494, 2);
}

/// The OCP SMART record holds the page's numbers with their proper types:
/// each field is the little-endian number at its offset of the page (16-byte
/// counters as `u128`, 6-byte counters as `u64`), the firmware revision is the
/// text at bytes 277:270.
#[verifier::rlimit(40)]
pub proof fn lemma_ocp_data_layout(
    d: OcpSmartData,
    nvme_name: Seq<char>,
    serial_number: Seq<char>,
    log: OcpSmartExtendedLog,
    page: Seq<u8>,
)
    requires
        log.decoded_from(page),
        d.built_from(nvme_name, serial_number, log),
        page.len() == 512,
    ensures
        d.nvme_name@ == nvme_name,
        d.serial_number@ == serial_number,
        d.physical_media_units_written == weighted_sum(page, 0, 16),
        d.physical_media_units_read == weighted_sum(page, 16, 16),
        d.bad_user_nand_blocks_raw == weighted_sum(page, 32, 6),
        d.bad_user_nand_blocks_normalized == weighted_sum(page, 38, 2),
        d.bad_system_nand_blocks_raw == weighted_sum(page, 40, 6),
        d.bad_system_nand_blocks_normalized == weighted_sum(page, 46, 2),
        d.xor_recovery_count == weighted_sum(page, 48, 8),
        d.uncorrectable_read_errors == weighted_sum(page, 56, 8),
        d.soft_ecc_errors == weighted_sum(page, 64, 8),
        d.e2e_errors_detected == weighted_sum(page, 72, 4),
        d.e2e_errors_corrected == weighted_sum(page, 76, 4),
        d.system_data_percent_used == page[80],
        d.user_data_erase_count_max == weighted_sum(page, 88, 4),
        d.user_data_erase_count_min == weighted_sum(page, 92, 4),
        d.nand_avg_erase_count == weighted_sum(page, 224, 8),
        d.thermal_throttling_events == page[96],
        d.thermal_throttling_status == page[97],
        d.max_temperature_recorded == page[222],
        d.pcie_correctable_errors == weighted_sum(page, 104, 8),
        d.pcie_link_retraining_count == weighted_sum(page, 192, 8),
        d.incomplete_shutdowns == weighted_sum(page, 112, 4),
        d.power_state_changes == weighted_sum(page, 200, 8),
        d.percent_free_blocks == page[120],
        d.capacitor_health == weighted_sum(page, 128, 2),
        d.unaligned_io == weighted_sum(page, 136, 8),
        d.command_timeouts == weighted_sum(page, 232, 4),
        d.security_version == weighted_sum(page, 144, 8),
        d.lowest_permitted_fw_rev == weighted_sum(page, 208, 8),
        d.total_nuse == weighted_sum(page, 152, 8),
        d.plp_start_count == weighted_sum(page, 160, 16),
        d.endurance_estimate == weighted_sum(page, 176, 16),
        d.total_media_dies == weighted_sum(page, 216, 2),
        d.total_die_failure_tolerance == weighted_sum(page, 218, 2),
        d.media_dies_offline == weighted_sum(page, 220, 2),
        d.sys_area_program_fail_count_raw == weighted_sum(page, 236, 4),
        d.sys_area_program_fail_count_normalized == page[240],
        d.sys_area_uncorr_read_count_raw == weighted_sum(page, 244, 4),
        d.sys_area_uncorr_read_count_normalized == page[248],
        d.sys_area_erase_fail_count_raw == weighted_sum(page, 252, 4),
        d.sys_area_erase_fail_count_normalized == page[256],
        d.max_peak_power_capability == weighted_sum(page, 260, 2),
        d.current_max_avg_power == weighted_sum(page, 262, 2),
        d.lifetime_power_consumed == weighted_sum(page, 264, 6),
        d.dssd_firmware_revision@ == field_text(utf8_lossy(page.subrange(270, 278))),
        valid_utf8(page.subrange(270, 278)) ==> d.dssd_firmware_revision@ == field_text(decode_utf8(page.subrange(270, 278))),
        d.log_page_version == weighted_sum(page, 494, 2),
{
    lemma_le_at_is_weighted_sum(page, 0, 16);
    lemma_le_at_is_weighted_sum(page, 16, 16);
    lemma_le_at_is_weighted_sum(page, 32, 6);
    lemma_le_at_is_weighted_sum(page, 38, 2);
    lemma_le_at_is_weighted_sum(page, 40, 6);
    lemma_le_at_is_weighted_sum(page, 46, 2);
    lemma_le_at_is_weighted_sum(page, 48, 8);
    lemma_le_at_is_weighted_sum(page, 56, 8);
    lemma_le_at_is_weighted_sum(page, 64, 8);
    lemma_le_at_is_weighted_sum(page, 72, 4);
    lemma_le_at_is_weighted_sum(page, 76, 4);
    lemma_le_at_is_weighted_sum(page, 88, 4);
    lemma_le_at_is_weighted_sum(page, 92, 4);
    lemma_le_at_is_weighted_sum(page, 104, 8);
    lemma_le_at_is_weighted_sum(page, 112, 4);
    lemma_le_at_is_weighted_sum(page, 128, 2);
    lemma_le_at_is_weighted_sum(page, 136, 8);
    lemma_le_at_is_weighted_sum(page, 144, 8);
    lemma_le_at_is_weighted_sum(page, 152, 8);
    lemma_le_at_is_weighted_sum(page, 160, 16);
    lemma_le_at_is_weighted_sum(page, 176, 16);
    lemma_le_at_is_weighted_sum(page, 192, 8);
    lemma_le_at_is_weighted_sum(page, 200, 8);
    lemma_le_at_is_weighted_sum(page, 208, 8);
    lemma_le_at_is_weighted_sum(page, 216, 2);
    lemma_le_at_is_weighted_sum(page, 218, 2);
    lemma_le_at_is_weighted_sum(page, 220, 2);
    lemma_le_at_is_weighted_sum(page, 224, 8);
    lemma_le_at_is_weighted_sum(page, 232, 4);
    lemma_le_at_is_weighted_sum(page, 236, 4);
    lemma_le_at_is_weighted_sum(page, 244, 4);
    lemma_le_at_is_weighted_sum(page, 252, 4);
    lemma_le_at_is_weighted_sum(page, 260, 2);
    lemma_le_at_is_weighted_sum(page, 262, 2);
    lemma_le_at_is_weighted_sum(page, 264, 6);
    lemma_le_at_is_weighted_sum(page, 494, 2);
}

} // verus!
