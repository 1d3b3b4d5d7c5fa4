//! The OCP S.M.A.R.T. / Health Information Extended Log (Log ID 0xC0).
//!
//! The OCP NVMe specification defines an extended SMART/Health log page with
//! telemetry beyond the standard NVMe SMART log: physical media units, bad
//! NAND block counts, error statistics, wear, thermal, PCIe and power-loss
//! protection data. Not every drive implements it; the log page GUID tells a
//! genuine OCP page from whatever an unsupported drive returns.
use vstd::prelude::*;
use crate::ascii::{decode_ascii_field, is_field_text_of};
use crate::bytes::{le_at, le_value, read_array, read_le, read_le_u16, read_le_u32, read_le_u64};
use crate::identify::{id_ctrl_serial, serial_number_from_id_ctrl};

verus! {

/// Size in bytes of the OCP SMART Extended Log page.
pub const OCP_SMART_LOG_LEN: usize = 512;

/// Log page identifier of the OCP SMART Extended Log.
pub const OCP_SMART_LOG_ID: u8 = 0xC0;

/// The GUID that a genuine OCP SMART Extended Log carries in its last 16 bytes.
pub open spec fn ocp_guid() -> Seq<u8> {
    seq![
        0xC5u8, 0xAF, 0x10, 0x28, 0xEA, 0xBF, 0xF2, 0xA4, 0x9C, 0x4F, 0x6F, 0x7C, 0xC9, 0x14, 0xD5, 0xAF,
    ]
}

/// Sixteen zero bytes: the GUID of a drive that does not implement the log.
pub open spec fn zero_guid() -> Seq<u8> {
    Seq::new(16, |i: int| 0u8)
}

/// OCP S.M.A.R.T. / Health Information Extended Log (Log ID 0xC0), field by
/// field as the 512-byte page lays it out (multi-byte integers are little-endian;
/// reserved bytes are not kept).
#[derive(Debug, Clone, Copy)]
pub struct OcpSmartExtendedLog {
    /// Physical Media Units Written
    pub physical_media_units_written: [u8; 16],
    /// Physical Media Units Read
    pub physical_media_units_read: [u8; 16],
    /// Bad User NAND Blocks raw
    pub bad_user_nand_blocks_raw: [u8; 6],
    /// Bad User NAND Blocks normalized
    pub bad_user_nand_blocks_normalized: u16,
    /// Bad System NAND Blocks raw
    pub bad_system_nand_blocks_raw: [u8; 6],
    /// Bad System NAND Blocks normalized
    pub bad_system_nand_blocks_normalized: u16,
    /// XOR Recovery Count
    pub xor_recovery_count: u64,
    /// Uncorrectable Read Error Count
    pub uncorrectable_read_err_count: u64,
    /// Soft ECC Error Count
    pub soft_ecc_err_count: u64,
    /// End to End detected errors
    pub end_to_end_detected_err: u32,
    /// End to End corrected errors
    pub end_to_end_corrected_err: u32,
    /// System data percent used
    pub system_data_used_percent: u8,
    /// Refresh Counts
    pub refresh_counts: [u8; 7],
    /// Max User data erase counts
    pub user_data_erase_count_max: u32,
    /// Min User data erase counts
    pub user_data_erase_count_min: u32,
    /// Number of Thermal throttling events
    pub thermal_throttling_event_count: u8,
    /// Thermal throttling current status
    pub thermal_throttling_current_status: u8,
    /// DSSD Errata Version
    pub dssd_errata_version: u8,
    /// DSSD Point Version
    pub dssd_point_version: [u8; 2],
    /// DSSD Minor Version
    pub dssd_minor_version: [u8; 2],
    /// DSSD Major Version
    pub dssd_major_version: u8,
    /// PCIe Correctable Error Count
    pub pcie_correctable_err_count: u64,
    /// Incomplete Shutdowns
    pub incomplete_shutdowns: u32,
    /// Percent free blocks
    pub percent_free_blocks: u8,
    /// Capacitor health
    pub capacitor_health: u16,
    /// NVM Express Base Errata Version
    pub nvme_base_errata_version: u8,
    /// NVMe Command Set Errata Version
    pub nvme_cmdset_errata_version: u8,
    /// NVMe Over PCIe Errata Version
    pub nvme_over_pcie_errata_version: u8,
    /// NVMe MI Errata Version
    pub nvme_mi_errata_version: u8,
    /// Unaligned I/O
    pub unaligned_io: u64,
    /// Security Version Number
    pub security_version: u64,
    /// Total NUSE - Namespace utilization
    pub total_nuse: u64,
    /// PLP start count
    pub plp_start_count: [u8; 16],
    /// Endurance Estimate
    pub endurance_estimate: [u8; 16],
    /// PCIe Link Retraining Count
    pub pcie_link_retraining_count: u64,
    /// Power State Change Count
    pub power_state_change_count: u64,
    /// Lowest Permitted Firmware Revision
    pub lowest_permitted_fw_rev: u64,
    /// Total media dies
    pub total_media_dies: u16,
    /// Total die failure tolerance
    pub total_die_failure_tolerance: u16,
    /// Media dies offline
    pub media_dies_offline: u16,
    /// Max temperature recorded
    pub max_temperature_recorded: u8,
    /// NAND avg erase count
    pub nand_avg_erase_count: u64,
    /// Command timeouts
    pub command_timeouts: u32,
    /// Sys area program fail count raw
    pub sys_area_program_fail_count_raw: u32,
    /// Sys area program fail count normalized
    pub sys_area_program_fail_count_normalized: u8,
    /// Sys area uncorrectable read count raw
    pub sys_area_uncorr_read_count_raw: u32,
    /// Sys area uncorrectable read count normalized
    pub sys_area_uncorr_read_count_normalized: u8,
    /// Sys area erase fail count raw
    pub sys_area_erase_fail_count_raw: u32,
    /// Sys area erase fail count normalized
    pub sys_area_erase_fail_count_normalized: u8,
    /// Max peak power capability
    pub max_peak_power_capability: u16,
    /// Current max avg power
    pub current_max_avg_power: u16,
    /// Lifetime power consumed
    pub lifetime_power_consumed: [u8; 6],
    /// DSSD firmware revision
    pub dssd_firmware_revision: [u8; 8],
    /// DSSD firmware build UUID
    pub dssd_firmware_build_uuid: [u8; 16],
    /// DSSD firmware build label
    pub dssd_firmware_build_label: [u8; 64],
    /// Log page version
    pub log_page_version: u16,
    /// Log page GUID
    pub log_page_guid: [u8; 16],
}

impl OcpSmartExtendedLog {
    /// `self` is the page whose 512 bytes are `raw`.
    pub open spec fn decoded_from(self, raw: Seq<u8>) -> bool {
        &&& self.physical_media_units_written@ == raw.subrange(0, 16)
        &&& self.physical_media_units_read@ == raw.subrange(16, 32)
        &&& self.bad_user_nand_blocks_raw@ == raw.subrange(32, 38)
        &&& self.bad_user_nand_blocks_normalized == le_at(raw, 38, 2)
        &&& self.bad_system_nand_blocks_raw@ == raw.subrange(40, 46)
        &&& self.bad_system_nand_blocks_normalized == le_at(raw, 46, 2)
        &&& self.xor_recovery_count == le_at(raw, 48, 8)
        &&& self.uncorrectable_read_err_count == le_at(raw, 56, 8)
        &&& self.soft_ecc_err_count == le_at(raw, 64, 8)
        &&& self.end_to_end_detected_err == le_at(raw, 72, 4)
        &&& self.end_to_end_corrected_err == le_at(raw, 76, 4)
        &&& self.system_data_used_percent == raw[80]
        &&& self.refresh_counts@ == raw.subrange(81, 88)
        &&& self.user_data_erase_count_max == le_at(raw, 88, 4)
        &&& self.user_data_erase_count_min == le_at(raw, 92, 4)
        &&& self.thermal_throttling_event_count == raw[96]
        &&& self.thermal_throttling_current_status == raw[97]
        &&& self.dssd_errata_version == raw[98]
        &&& self.dssd_point_version@ == raw.subrange(99, 101)
        &&& self.dssd_minor_version@ == raw.subrange(101, 103)
        &&& self.dssd_major_version == raw[103]
        &&& self.pcie_correctable_err_count == le_at(raw, 104, 8)
        &&& self.incomplete_shutdowns == le_at(raw, 112, 4)
        &&& self.percent_free_blocks == raw[120]
        &&& self.capacitor_health == le_at(raw, 128, 2)
        &&& self.nvme_base_errata_version == raw[130]
        &&& self.nvme_cmdset_errata_version == raw[131]
        &&& self.nvme_over_pcie_errata_version == raw[132]
        &&& self.nvme_mi_errata_version == raw[133]
        &&& self.unaligned_io == le_at(raw, 136, 8)
        &&& self.security_version == le_at(raw, 144, 8)
        &&& self.total_nuse == le_at(raw, 152, 8)
        &&& self.plp_start_count@ == raw.subrange(160, 176)
        &&& self.endurance_estimate@ == raw.subrange(176, 192)
        &&& self.pcie_link_retraining_count == le_at(raw, 192, 8)
        &&& self.power_state_change_count == le_at(raw, 200, 8)
        &&& self.lowest_permitted_fw_rev == le_at(raw, 208, 8)
        &&& self.total_media_dies == le_at(raw, 216, 2)
        &&& self.total_die_failure_tolerance == le_at(raw, 218, 2)
        &&& self.media_dies_offline == le_at(raw, 220, 2)
        &&& self.max_temperature_recorded == raw[222]
        &&& self.nand_avg_erase_count == le_at(raw, 224, 8)
        &&& self.command_timeouts == le_at(raw, 232, 4)
        &&& self.sys_area_program_fail_count_raw == le_at(raw, 236, 4)
        &&& self.sys_area_program_fail_count_normalized == raw[240]
        &&& self.sys_area_uncorr_read_count_raw == le_at(raw, 244, 4)
        &&& self.sys_area_uncorr_read_count_normalized == raw[248]
        &&& self.sys_area_erase_fail_count_raw == le_at(raw, 252, 4)
        &&& self.sys_area_erase_fail_count_normalized == raw[256]
        &&& self.max_peak_power_capability == le_at(raw, 260, 2)
        &&& self.current_max_avg_power == le_at(raw, 262, 2)
        &&& self.lifetime_power_consumed@ == raw.subrange(264, 270)
        &&& self.dssd_firmware_revision@ == raw.subrange(270, 278)
        &&& self.dssd_firmware_build_uuid@ == raw.subrange(278, 294)
        &&& self.dssd_firmware_build_label@ == raw.subrange(294, 358)
        &&& self.log_page_version == le_at(raw, 494, 2)
        &&& self.log_page_guid@ == raw.subrange(496, 512)
    }

    /// Decodes the 512 bytes of an OCP SMART Extended Log page.
    pub fn from_bytes(bytes: &[u8; 512]) -> (log: OcpSmartExtendedLog)
        ensures
            log.decoded_from(bytes@),
    {
        let raw = bytes.as_slice();
        OcpSmartExtendedLog {
            physical_media_units_written: read_array::<16>(raw, 0),
            physical_media_units_read: read_array::<16>(raw, 16),
            bad_user_nand_blocks_raw: read_array::<6>(raw, 32),
            bad_user_nand_blocks_normalized: read_le_u16(raw, 38),
            bad_system_nand_blocks_raw: read_array::<6>(raw, 40),
            bad_system_nand_blocks_normalized: read_le_u16(raw, 46),
            xor_recovery_count: read_le_u64(raw, 48, 8),
            uncorrectable_read_err_count: read_le_u64(raw, 56, 8),
            soft_ecc_err_count: read_le_u64(raw, 64, 8),
            end_to_end_detected_err: read_le_u32(raw, 72),
            end_to_end_corrected_err: read_le_u32(raw, 76),
            system_data_used_percent: raw[80],
            refresh_counts: read_array::<7>(raw, 81),
            user_data_erase_count_max: read_le_u32(raw, 88),
            user_data_erase_count_min: read_le_u32(raw, 92),
            thermal_throttling_event_count: raw[96],
            thermal_throttling_current_status: raw[97],
            dssd_errata_version: raw[98],
            dssd_point_version: read_array::<2>(raw, 99),
            dssd_minor_version: read_array::<2>(raw, 101),
            dssd_major_version: raw[103],
            pcie_correctable_err_count: read_le_u64(raw, 104, 8),
            incomplete_shutdowns: read_le_u32(raw, 112),
            percent_free_blocks: raw[120],
            capacitor_health: read_le_u16(raw, 128),
            nvme_base_errata_version: raw[130],
            nvme_cmdset_errata_version: raw[131],
            nvme_over_pcie_errata_version: raw[132],
            nvme_mi_errata_version: raw[133],
            unaligned_io: read_le_u64(raw, 136, 8),
            security_version: read_le_u64(raw, 144, 8),
            total_nuse: read_le_u64(raw, 152, 8),
            plp_start_count: read_array::<16>(raw, 160),
            endurance_estimate: read_array::<16>(raw, 176),
            pcie_link_retraining_count: read_le_u64(raw, 192, 8),
            power_state_change_count: read_le_u64(raw, 200, 8),
            lowest_permitted_fw_rev: read_le_u64(raw, 208, 8),
            total_media_dies: read_le_u16(raw, 216),
            total_die_failure_tolerance: read_le_u16(raw, 218),
            media_dies_offline: read_le_u16(raw, 220),
            max_temperature_recorded: raw[222],
            nand_avg_erase_count: read_le_u64(raw, 224, 8),
            command_timeouts: read_le_u32(raw, 232),
            sys_area_program_fail_count_raw: read_le_u32(raw, 236),
            sys_area_program_fail_count_normalized: raw[240],
            sys_area_uncorr_read_count_raw: read_le_u32(raw, 244),
            sys_area_uncorr_read_count_normalized: raw[248],
            sys_area_erase_fail_count_raw: read_le_u32(raw, 252),
            sys_area_erase_fail_count_normalized: raw[256],
            max_peak_power_capability: read_le_u16(raw, 260),
            current_max_avg_power: read_le_u16(raw, 262),
            lifetime_power_consumed: read_array::<6>(raw, 264),
            dssd_firmware_revision: read_array::<8>(raw, 270),
            dssd_firmware_build_uuid: read_array::<16>(raw, 278),
            dssd_firmware_build_label: read_array::<64>(raw, 294),
            log_page_version: read_le_u16(raw, 494),
            log_page_guid: read_array::<16>(raw, 496),
        }
    }
}

/// Why a log page read for Log ID 0xC0 is not an OCP SMART Extended Log.
#[derive(Debug, Clone, Copy, PartialEq, Eq)]
pub enum OcpLogError {
    /// The GUID is all zeros: the drive does not implement the log.
    InvalidGuid,
    /// The GUID is neither zero nor the OCP GUID; it is kept here.
    UnexpectedGuid([u8; 16]),
}

/// The OCP SMART Extended Log GUID, byte by byte as the page stores it
/// (AFD514C9-7C6F-4F9C-A4F2-BFEA2810AFC5, little-endian).
pub proof fn lemma_ocp_guid_bytes(g: Seq<u8>)
    ensures
        g == ocp_guid() <==> (g.len() == 16 && g[0] == 0xC5 && g[1] == 0xAF && g[2] == 0x10 && g[3]
            == 0x28 && g[4] == 0xEA && g[5] == 0xBF && g[6] == 0xF2 && g[7] == 0xA4 && g[8] == 0x9C
            && g[9] == 0x4F && g[10] == 0x6F && g[11] == 0x7C && g[12] == 0xC9 && g[13] == 0x14
            && g[14] == 0xD5 && g[15] == 0xAF),
        g == zero_guid() <==> (g.len() == 16 && forall|i: int| 0 <= i < 16 ==> #[trigger] g[i] == 0),
{
    if g.len() == 16 && g[0] == 0xC5 && g[1] == 0xAF && g[2] == 0x10 && g[3] == 0x28 && g[4] == 0xEA
        && g[5] == 0xBF && g[6] == 0xF2 && g[7] == 0xA4 && g[8] == 0x9C && g[9] == 0x4F && g[10]
        == 0x6F && g[11] == 0x7C && g[12] == 0xC9 && g[13] == 0x14 && g[14] == 0xD5 && g[15] == 0xAF {
        assert(g =~= ocp_guid());
    }
    if g.len() == 16 && forall|i: int| 0 <= i < 16 ==> #[trigger] g[i] == 0 {
        assert(g =~= zero_guid());
    }
}

/// Compares two byte slices element by element.
fn bytes_equal(a: &[u8], b: &[u8]) -> (r: bool)
    ensures
        r == (a@ == b@),
{
    if a.len() != b.len() {
        return false;
    }
    let mut i: usize = 0;
    while i < a.len()
        invariant
            i <= a@.len(),
            a@.len() == b@.len(),
            forall|j: int| 0 <= j < i ==> a@[j] == b@[j],
        decreases a@.len() - i,
    {
        if a[i] != b[i] {
            return false;
        }
        i = i + 1;
    }
    assert(a@ =~= b@);
    true
}

/// Checks the GUID of an OCP SMART Extended Log page.
pub fn check_ocp_guid(guid: &[u8; 16]) -> (r: Result<(), OcpLogError>)
    ensures
        r is Ok <==> guid@ == ocp_guid(),
        r == Err::<(), OcpLogError>(OcpLogError::InvalidGuid) <==> guid@ == zero_guid(),
        r matches Err(OcpLogError::UnexpectedGuid(g)) ==> g@ == guid@,
{
    let zeros: [u8; 16] = [0u8; 16];
    let expected: [u8; 16] = [
        0xC5, 0xAF, 0x10, 0x28, 0xEA, 0xBF, 0xF2, 0xA4, 0x9C, 0x4F, 0x6F, 0x7C, 0xC9, 0x14, 0xD5, 0xAF,
    ];
    assert(zeros@ =~= zero_guid());
    assert(expected@ =~= ocp_guid());
    assert(zero_guid() != ocp_guid()) by {
        assert(zero_guid()[0] != ocp_guid()[0]);
    }
    if bytes_equal(guid.as_slice(), zeros.as_slice()) {
        Err(OcpLogError::InvalidGuid)
    } else if bytes_equal(guid.as_slice(), expected.as_slice()) {
        Ok(())
    } else {
        Err(OcpLogError::UnexpectedGuid(*guid))
    }
}

/// Decodes a page read for Log ID 0xC0 and accepts it only as a genuine OCP
/// SMART Extended Log, by its GUID.
pub fn ocp_smart_log_from_bytes(bytes: &[u8; 512]) -> (r: Result<OcpSmartExtendedLog, OcpLogError>)
    ensures
        r is Ok <==> bytes@.subrange(496, 512) == ocp_guid(),
        r matches Ok(log) ==> log.decoded_from(bytes@),
        r == Err::<OcpSmartExtendedLog, OcpLogError>(OcpLogError::InvalidGuid) <==> bytes@.subrange(496, 512) == zero_guid(),
        r matches Err(OcpLogError::UnexpectedGuid(g)) ==> g@ == bytes@.subrange(496, 512),
{
    let log = OcpSmartExtendedLog::from_bytes(bytes);
    match check_ocp_guid(&log.log_page_guid) {
        Ok(()) => Ok(log),
        Err(e) => Err(e),
    }
}

/// Little-endian value of a 16-byte array.
fn le_array(a: &[u8; 16]) -> (r: u128)
    ensures
        r == le_value(a@),
{
    let r = read_le(a.as_slice(), 0, 16);
    assert(a@.subrange(0, 16) =~= a@);
    r
}

/// Little-endian value of a 6-byte array, widened to `u64`.
fn le_array_u64(a: &[u8; 6]) -> (r: u64)
    ensures
        r == le_value(a@),
{
    let r = read_le_u64(a.as_slice(), 0, 6);
    assert(a@.subrange(0, 6) =~= a@);
    r
}

/// OCP S.M.A.R.T. / Health Information Extended Log, with proper integer types.
#[derive(Debug)]
pub struct OcpSmartData {
    /// NVMe device name (e.g., "nvme0")
    pub nvme_name: String,

    /// NVMe Serial Number
    pub serial_number: String,

    // Media units
    pub physical_media_units_written: u128,
    pub physical_media_units_read: u128,

    // Bad blocks
    pub bad_user_nand_blocks_raw: u64,
    pub bad_user_nand_blocks_normalized: u16,
    pub bad_system_nand_blocks_raw: u64,
    pub bad_system_nand_blocks_normalized: u16,

    // Error counts
    pub xor_recovery_count: u64,
    pub uncorrectable_read_errors: u64,
    pub soft_ecc_errors: u64,
    pub e2e_errors_detected: u32,
    pub e2e_errors_corrected: u32,

    // Usage and wear
    pub system_data_percent_used: u8,
    pub user_data_erase_count_max: u32,
    pub user_data_erase_count_min: u32,
    pub nand_avg_erase_count: u64,

    // Thermal
    pub thermal_throttling_events: u8,
    pub thermal_throttling_status: u8,
    pub max_temperature_recorded: u8,

    // PCIe
    pub pcie_correctable_errors: u64,
    pub pcie_link_retraining_count: u64,

    // Power and shutdowns
    pub incomplete_shutdowns: u32,
    pub power_state_changes: u64,

    // Capacity
    pub percent_free_blocks: u8,
    pub capacitor_health: u16,

    // I/O
    pub unaligned_io: u64,
    pub command_timeouts: u32,

    // Security and firmware
    pub security_version: u64,
    pub lowest_permitted_fw_rev: u64,

    // Namespace utilization
    pub total_nuse: u64,

    // PLP (Power Loss Protection)
    pub plp_start_count: u128,

    // Endurance
    pub endurance_estimate: u128,

    // Die information
    pub total_media_dies: u16,
    pub total_die_failure_tolerance: u16,
    pub media_dies_offline: u16,

    // System area failures
    pub sys_area_program_fail_count_raw: u32,
    pub sys_area_program_fail_count_normalized: u8,
    pub sys_area_uncorr_read_count_raw: u32,
    pub sys_area_uncorr_read_count_normalized: u8,
    pub sys_area_erase_fail_count_raw: u32,
    pub sys_area_erase_fail_count_normalized: u8,

    // Power capability
    pub max_peak_power_capability: u16,
    pub current_max_avg_power: u16,
    pub lifetime_power_consumed: u64,

    // Firmware info
    pub dssd_firmware_revision: String,

    // Log metadata
    pub log_page_version: u16,
}

impl OcpSmartData {
    /// `self` holds the device name `nvme_name`, the serial number
    /// `serial_number` and the values of `raw` with their proper types.
    pub open spec fn built_from(self, nvme_name: Seq<char>, serial_number: Seq<char>, raw: OcpSmartExtendedLog) -> bool {
        &&& self.nvme_name@ == nvme_name
        &&& self.serial_number@ == serial_number
        &&& self.physical_media_units_written == le_value(raw.physical_media_units_written@)
        &&& self.physical_media_units_read == le_value(raw.physical_media_units_read@)
        &&& self.bad_user_nand_blocks_raw == le_value(raw.bad_user_nand_blocks_raw@)
        &&& self.bad_user_nand_blocks_normalized == raw.bad_user_nand_blocks_normalized
        &&& self.bad_system_nand_blocks_raw == le_value(raw.bad_system_nand_blocks_raw@)
        &&& self.bad_system_nand_blocks_normalized == raw.bad_system_nand_blocks_normalized
        &&& self.xor_recovery_count == raw.xor_recovery_count
        &&& self.uncorrectable_read_errors == raw.uncorrectable_read_err_count
        &&& self.soft_ecc_errors == raw.soft_ecc_err_count
        &&& self.e2e_errors_detected == raw.end_to_end_detected_err
        &&& self.e2e_errors_corrected == raw.end_to_end_corrected_err
        &&& self.system_data_percent_used == raw.system_data_used_percent
        &&& self.user_data_erase_count_max == raw.user_data_erase_count_max
        &&& self.user_data_erase_count_min == raw.user_data_erase_count_min
        &&& self.nand_avg_erase_count == raw.nand_avg_erase_count
        &&& self.thermal_throttling_events == raw.thermal_throttling_event_count
        &&& self.thermal_throttling_status == raw.thermal_throttling_current_status
        &&& self.max_temperature_recorded == raw.max_temperature_recorded
        &&& self.pcie_correctable_errors == raw.pcie_correctable_err_count
        &&& self.pcie_link_retraining_count == raw.pcie_link_retraining_count
        &&& self.incomplete_shutdowns == raw.incomplete_shutdowns
        &&& self.power_state_changes == raw.power_state_change_count
        &&& self.percent_free_blocks == raw.percent_free_blocks
        &&& self.capacitor_health == raw.capacitor_health
        &&& self.unaligned_io == raw.unaligned_io
        &&& self.command_timeouts == raw.command_timeouts
        &&& self.security_version == raw.security_version
        &&& self.lowest_permitted_fw_rev == raw.lowest_permitted_fw_rev
        &&& self.total_nuse == raw.total_nuse
        &&& self.plp_start_count == le_value(raw.plp_start_count@)
        &&& self.endurance_estimate == le_value(raw.endurance_estimate@)
        &&& self.total_media_dies == raw.total_media_dies
        &&& self.total_die_failure_tolerance == raw.total_die_failure_tolerance
        &&& self.media_dies_offline == raw.media_dies_offline
        &&& self.sys_area_program_fail_count_raw == raw.sys_area_program_fail_count_raw
        &&& self.sys_area_program_fail_count_normalized == raw.sys_area_program_fail_count_normalized
        &&& self.sys_area_uncorr_read_count_raw == raw.sys_area_uncorr_read_count_raw
        &&& self.sys_area_uncorr_read_count_normalized == raw.sys_area_uncorr_read_count_normalized
        &&& self.sys_area_erase_fail_count_raw == raw.sys_area_erase_fail_count_raw
        &&& self.sys_area_erase_fail_count_normalized == raw.sys_area_erase_fail_count_normalized
        &&& self.max_peak_power_capability == raw.max_peak_power_capability
        &&& self.current_max_avg_power == raw.current_max_avg_power
        &&& self.lifetime_power_consumed == le_value(raw.lifetime_power_consumed@)
        &&& is_field_text_of(self.dssd_firmware_revision@, raw.dssd_firmware_revision@)
        &&& self.log_page_version == raw.log_page_version
    }

    /// Creates a new OcpSmartData from raw OCP log data: 16-byte counters become
    /// `u128`, 6-byte counters `u64`, and the firmware revision is read as text.
    pub fn new(nvme_name: String, serial_number: String, raw: &OcpSmartExtendedLog) -> (d: OcpSmartData)
        ensures
            d.built_from(nvme_name@, serial_number@, *raw),
    {
        let physical_media_units_written = le_array(&raw.physical_media_units_written);
        let physical_media_units_read = le_array(&raw.physical_media_units_read);
        let bad_user_nand_blocks_raw = le_array_u64(&raw.bad_user_nand_blocks_raw);
        let bad_system_nand_blocks_raw = le_array_u64(&raw.bad_system_nand_blocks_raw);
        let plp_start_count = le_array(&raw.plp_start_count);
        let endurance_estimate = le_array(&raw.endurance_estimate);
        let lifetime_power_consumed = le_array_u64(&raw.lifetime_power_consumed);
        let dssd_firmware_revision = decode_ascii_field(raw.dssd_firmware_revision.as_slice());
        OcpSmartData {
            nvme_name,
            serial_number,
            physical_media_units_written,
            physical_media_units_read,
            bad_user_nand_blocks_raw,
            bad_user_nand_blocks_normalized: raw.bad_user_nand_blocks_normalized,
            bad_system_nand_blocks_raw,
            bad_system_nand_blocks_normalized: raw.bad_system_nand_blocks_normalized,
            xor_recovery_count: raw.xor_recovery_count,
            uncorrectable_read_errors: raw.uncorrectable_read_err_count,
            soft_ecc_errors: raw.soft_ecc_err_count,
            e2e_errors_detected: raw.end_to_end_detected_err,
            e2e_errors_corrected: raw.end_to_end_corrected_err,
            system_data_percent_used: raw.system_data_used_percent,
            user_data_erase_count_max: raw.user_data_erase_count_max,
            user_data_erase_count_min: raw.user_data_erase_count_min,
            nand_avg_erase_count: raw.nand_avg_erase_count,
            thermal_throttling_events: raw.thermal_throttling_event_count,
            thermal_throttling_status: raw.thermal_throttling_current_status,
            max_temperature_recorded: raw.max_temperature_recorded,
            pcie_correctable_errors: raw.pcie_correctable_err_count,
            pcie_link_retraining_count: raw.pcie_link_retraining_count,
            incomplete_shutdowns: raw.incomplete_shutdowns,
            power_state_changes: raw.power_state_change_count,
            percent_free_blocks: raw.percent_free_blocks,
            capacitor_health: raw.capacitor_health,
            unaligned_io: raw.unaligned_io,
            command_timeouts: raw.command_timeouts,
            security_version: raw.security_version,
            lowest_permitted_fw_rev: raw.lowest_permitted_fw_rev,
            total_nuse: raw.total_nuse,
            plp_start_count,
            endurance_estimate,
            total_media_dies: raw.total_media_dies,
            total_die_failure_tolerance: raw.total_die_failure_tolerance,
            media_dies_offline: raw.media_dies_offline,
            sys_area_program_fail_count_raw: raw.sys_area_program_fail_count_raw,
            sys_area_program_fail_count_normalized: raw.sys_area_program_fail_count_normalized,
            sys_area_uncorr_read_count_raw: raw.sys_area_uncorr_read_count_raw,
            sys_area_uncorr_read_count_normalized: raw.sys_area_uncorr_read_count_normalized,
            sys_area_erase_fail_count_raw: raw.sys_area_erase_fail_count_raw,
            sys_area_erase_fail_count_normalized: raw.sys_area_erase_fail_count_normalized,
            max_peak_power_capability: raw.max_peak_power_capability,
            current_max_avg_power: raw.current_max_avg_power,
            lifetime_power_consumed,
            dssd_firmware_revision,
            log_page_version: raw.log_page_version,
        }
    }
}

/// Builds the OCP SMART Extended Log record of a device from its Identify
/// Controller data (for the serial number) and the page read for Log ID 0xC0;
/// refuses a page whose GUID is not the OCP GUID.
pub fn get_smart_add_log(nvme_name: String, id_ctrl: &[u8; 4096], log_page: &[u8; 512]) -> (r: Result<OcpSmartData, OcpLogError>)
    ensures
        r is Ok <==> log_page@.subrange(496, 512) == ocp_guid(),
        r is Ok ==> exists|raw: OcpSmartExtendedLog|
            raw.decoded_from(log_page@) && #[trigger] r->Ok_0.built_from(nvme_name@, id_ctrl_serial(id_ctrl@), raw),
        r == Err::<OcpSmartData, OcpLogError>(OcpLogError::InvalidGuid) <==> log_page@.subrange(496, 512) == zero_guid(),
        r matches Err(OcpLogError::UnexpectedGuid(g)) ==> g@ == log_page@.subrange(496, 512),
        r is Ok ==> is_field_text_of(r->Ok_0.serial_number@, id_ctrl@.subrange(4, 24)),
{
    let ghost name = nvme_name@;
    let serial_number = serial_number_from_id_ctrl(id_ctrl);
    match ocp_smart_log_from_bytes(log_page) {
        Ok(raw) => {
            let d = OcpSmartData::new(nvme_name, serial_number, &raw);
            let res: Result<OcpSmartData, OcpLogError> = Ok(d);
            assert(raw.decoded_from(log_page@) && res->Ok_0.built_from(name, id_ctrl_serial(id_ctrl@), raw));
            assert(exists|x: OcpSmartExtendedLog|
                x.decoded_from(log_page@) && #[trigger] res->Ok_0.built_from(name, id_ctrl_serial(id_ctrl@), x));
            res
        },
        Err(e) => Err(e),
    }
}

} // verus!
