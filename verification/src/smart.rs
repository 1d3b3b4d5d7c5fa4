//! The S.M.A.R.T. / Health Information log page (Log ID 02h, 512 bytes).
use vstd::prelude::*;
use crate::bytes::{le_at, read_le, read_le_u16, read_le_u32};
use crate::ascii::is_field_text_of;
use crate::identify::{id_ctrl_serial, serial_number_from_id_ctrl};

verus! {

/// Size in bytes of the S.M.A.R.T. / Health Information log page.
pub const SMART_LOG_LEN: usize = 512;

/// Log page identifier of the S.M.A.R.T. / Health Information log.
pub const SMART_LOG_ID: u8 = 0x02;

/// The eight Temperature Sensor readings (Kelvin) of the log page `raw`.
pub open spec fn sensor_readings(raw: Seq<u8>) -> Seq<nat> {
    Seq::new(8, |k: int| le_at(raw, 200 + 2 * k, 2))
}

/// The readings of the sensors that the controller implements: a sensor
/// that is not implemented reports 0.
pub open spec fn reported_sensors(raw: Seq<u8>) -> Seq<nat> {
    sensor_readings(raw).filter(|t: nat| t != 0)
}

/// S.M.A.R.T. / Health Information of one controller.
#[derive(Debug)]
pub struct NvmeSmartLog {
    /// NVMe device name (e.g., "nvme0")
    pub nvme_name: String,
    /// NVMe Serial Number
    pub serial_number: String,

    // Health status
    /// Critical Warning bits
    pub critical_warning: u8,
    /// Composite Temperature (Kelvin)
    pub temperature: u16,
    /// Available Spare (percent)
    pub avail_spare: u8,
    /// Available Spare Threshold (percent)
    pub spare_thresh: u8,
    /// Percentage Used
    pub percent_used: u8,
    /// Endurance Group Critical Warning Summary
    pub endu_grp_crit_warn_sumry: u8,

    // Lifetime statistics
    /// Data Units Read (thousands of 512-byte units)
    pub data_units_read: u128,
    /// Data Units Written (thousands of 512-byte units)
    pub data_units_written: u128,
    /// Host Read Commands
    pub host_reads: u128,
    /// Host Write Commands
    pub host_writes: u128,
    /// Controller Busy Time (minutes)
    pub ctrl_busy_time: u128,
    /// Power Cycles
    pub power_cycles: u128,
    /// Power On Hours
    pub power_on_hours: u128,

    // Errors and reliability
    /// Unsafe Shutdowns
    pub unsafe_shutdowns: u128,
    /// Media and Data Integrity Errors
    pub media_errors: u128,
    /// Number of Error Information Log Entries
    pub num_err_log_entries: u128,

    // Thermal management
    /// Warning Composite Temperature Time (minutes)
    pub warning_temp_time: u32,
    /// Critical Composite Temperature Time (minutes)
    pub critical_comp_time: u32,
    /// Readings of the implemented temperature sensors (Kelvin), in sensor order
    pub temp_sensors: Vec<u16>,
    /// Thermal Management Temperature 1 Transition Count
    pub thm_temp1_trans_count: u32,
    /// Thermal Management Temperature 2 Transition Count
    pub thm_temp2_trans_count: u32,
    /// Total Time For Thermal Management Temperature 1 (seconds)
    pub thm_temp1_total_time: u32,
    /// Total Time For Thermal Management Temperature 2 (seconds)
    pub thm_temp2_total_time: u32,
}

impl NvmeSmartLog {
    /// `self` is the health record of device `nvme_name` with serial number
    /// `serial_number` whose log page is `raw`.
    pub open spec fn built_from(self, nvme_name: Seq<char>, serial_number: Seq<char>, raw: Seq<u8>) -> bool {
        &&& self.nvme_name@ == nvme_name
        &&& self.serial_number@ == serial_number
        &&& self.critical_warning == raw[0]
        &&& self.temperature == le_at(raw, 1, 2)
        &&& self.avail_spare == raw[3]
        &&& self.spare_thresh == raw[4]
        &&& self.percent_used == raw[5]
        &&& self.endu_grp_crit_warn_sumry == raw[6]
        &&& self.data_units_read == le_at(raw, 32, 16)
        &&& self.data_units_written == le_at(raw, 48, 16)
        &&& self.host_reads == le_at(raw, 64, 16)
        &&& self.host_writes == le_at(raw, 80, 16)
        &&& self.ctrl_busy_time == le_at(raw, 96, 16)
        &&& self.power_cycles == le_at(raw, 112, 16)
        &&& self.power_on_hours == le_at(raw, 128, 16)
        &&& self.unsafe_shutdowns == le_at(raw, 144, 16)
        &&& self.media_errors == le_at(raw, 160, 16)
        &&& self.num_err_log_entries == le_at(raw, 176, 16)
        &&& self.warning_temp_time == le_at(raw, 192, 4)
        &&& self.critical_comp_time == le_at(raw, 196, 4)
        &&& self.temp_sensors@.map_values(|t: u16| t as nat) == reported_sensors(raw)
        &&& self.thm_temp1_trans_count == le_at(raw, 216, 4)
        &&& self.thm_temp2_trans_count == le_at(raw, 220, 4)
        &&& self.thm_temp1_total_time == le_at(raw, 224, 4)
        &&& self.thm_temp2_total_time == le_at(raw, 228, 4)
    }

    /// Builds the health record of device `nvme_name` (serial number
    /// `serial_number`) from its S.M.A.R.T. / Health Information log page.
    pub fn new(nvme_name: String, serial_number: String, raw: &[u8; 512]) -> (s: NvmeSmartLog)
        ensures
            s.built_from(nvme_name@, serial_number@, raw@),
    {
        let bytes = raw.as_slice();
        let temp_sensors = reported_temperature_sensors(raw);
        NvmeSmartLog {
            nvme_name,
            serial_number,
            critical_warning: bytes[0],
            temperature: read_le_u16(bytes, 1),
            avail_spare: bytes[3],
            spare_thresh: bytes[4],
            percent_used: bytes[5],
            endu_grp_crit_warn_sumry: bytes[6],
            data_units_read: read_le(bytes, 32, 16),
            data_units_written: read_le(bytes, 48, 16),
            host_reads: read_le(bytes, 64, 16),
            host_writes: read_le(bytes, 80, 16),
            ctrl_busy_time: read_le(bytes, 96, 16),
            power_cycles: read_le(bytes, 112, 16),
            power_on_hours: read_le(bytes, 128, 16),
            unsafe_shutdowns: read_le(bytes, 144, 16),
            media_errors: read_le(bytes, 160, 16),
            num_err_log_entries: read_le(bytes, 176, 16),
            warning_temp_time: read_le_u32(bytes, 192),
            critical_comp_time: read_le_u32(bytes, 196),
            temp_sensors,
            thm_temp1_trans_count: read_le_u32(bytes, 216),
            thm_temp2_trans_count: read_le_u32(bytes, 220),
            thm_temp1_total_time: read_le_u32(bytes, 224),
            thm_temp2_total_time: read_le_u32(bytes, 228),
        }
    }
}

/// Collects, in sensor order, the readings of the implemented temperature sensors.
fn reported_temperature_sensors(raw: &[u8; 512]) -> (v: Vec<u16>)
    ensures
        v@.map_values(|t: u16| t as nat) == reported_sensors(raw@),
{
    let bytes = raw.as_slice();
    let ghost all = sensor_readings(raw@);
    let ghost keep = |t: nat| t != 0;
    let mut v: Vec<u16> = Vec::new();
    let mut k: usize = 0;
    while k < 8
        invariant
            k <= 8,
            bytes@ == raw@,
            bytes@.len() == 512,
            all == sensor_readings(raw@),
            keep == (|t: nat| t != 0),
            v@.map_values(|t: u16| t as nat) == all.take(k as int).filter(keep),
        decreases 8 - k,
    {
        let t = read_le_u16(bytes, 200 + 2 * k);
        proof {
            reveal(Seq::filter);
            assert(all.take(k + 1).drop_last() =~= all.take(k as int));
            assert(all[k as int] == t);
        }
        if t != 0 {
            v.push(t);
        }
        proof {
            assert(v@.map_values(|t: u16| t as nat) =~= all.take(k + 1).filter(keep));
        }
        k = k + 1;
    }
    proof {
        assert(all.take(8) =~= all);
    }
    v
}

/// Builds the S.M.A.R.T. / Health record of device `nvme_name` from its
/// Identify Controller data (for the serial number) and its log page.
pub fn get_smart_log(nvme_name: String, id_ctrl: &[u8; 4096], log_page: &[u8; 512]) -> (s: NvmeSmartLog)
    ensures
        s.built_from(nvme_name@, id_ctrl_serial(id_ctrl@), log_page@),
        is_field_text_of(s.serial_number@, id_ctrl@.subrange(4, 24)),
{
    let serial_number = serial_number_from_id_ctrl(id_ctrl);
    NvmeSmartLog::new(nvme_name, serial_number, log_page)
}

} // verus!
