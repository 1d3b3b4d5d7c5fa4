//! The NVMe Admin commands that read controller data: Identify Controller
//! and Get Log Page. The fields here are those of the passthrough command
//! that the Linux NVMe driver takes; the data buffer's address is filled in
//! by whoever issues the command.
use vstd::prelude::*;
use crate::error_log::{ERROR_LOG_ENTRY_LEN, ERROR_LOG_ID};
use crate::identify::ID_CTRL_LEN;
use crate::ocp::{OCP_SMART_LOG_ID, OCP_SMART_LOG_LEN};
use crate::smart::{SMART_LOG_ID, SMART_LOG_LEN};

verus! {

/// Opcode of the Get Log Page admin command.
pub const ADMIN_GET_LOG_PAGE: u8 = 0x02;

/// Opcode of the Identify admin command.
pub const ADMIN_IDENTIFY: u8 = 0x06;

/// Controller or Namespace Structure value that selects Identify Controller.
pub const CNS_IDENTIFY_CONTROLLER: u8 = 0x01;

/// The fields of an NVMe Admin passthrough command, but for the buffer address.
#[derive(Debug, Clone, Copy, PartialEq, Eq)]
pub struct AdminCommand {
    pub opcode: u8,
    pub nsid: u32,
    pub data_len: u32,
    pub cdw10: u32,
    pub cdw11: u32,
    pub timeout_ms: u32,
}

/// Number of Dwords Lower of a Get Log Page command that transfers
/// `data_len` bytes: the dword count, 0-based.
pub open spec fn numd(data_len: u32) -> u32 {
    (data_len / 4 - 1) as u32
}

/// The Identify Controller command: CNS 01h, controller ID 0, 4096-byte
/// buffer, one second timeout.
pub fn identify_controller_command() -> (cmd: AdminCommand)
    ensures
        cmd == (AdminCommand {
            opcode: ADMIN_IDENTIFY,
            nsid: 0,
            data_len: 4096,
            cdw10: 1,
            cdw11: 0,
            timeout_ms: 1000,
        }),
{
    let cntlid: u16 = 0;
    let cdw10: u32 = (CNS_IDENTIFY_CONTROLLER as u32) | ((cntlid as u32) << 16u32);
    assert((1u32 | (0u32 << 16u32)) == 1u32) by (bit_vector);
    AdminCommand {
        opcode: ADMIN_IDENTIFY,
        nsid: 0,
        data_len: ID_CTRL_LEN as u32,
        cdw10,
        cdw11: 0,
        timeout_ms: 1000,
    }
}

/// A Get Log Page command for log `log_id` over all namespaces
/// (NSID FFFFFFFFh) that transfers `data_len` bytes. CDW10 carries the log
/// identifier in bits 7:0 and the 0-based dword count in bits 31:16.
pub fn log_page_command(log_id: u8, data_len: u32, timeout_ms: u32) -> (cmd: AdminCommand)
    requires
        data_len >= 4,
    ensures
        cmd.opcode == ADMIN_GET_LOG_PAGE,
        cmd.nsid == 0xFFFF_FFFFu32,
        cmd.data_len == data_len,
        cmd.cdw10 == (log_id as u32) | (numd(data_len) << 16u32),
        data_len / 4 <= 0x1_0000 ==> cmd.cdw10 == log_id + numd(data_len) * 0x1_0000,
        cmd.cdw11 == 0,
        cmd.timeout_ms == timeout_ms,
{
    let numd_value: u32 = data_len / 4 - 1;
    let cdw10: u32 = (log_id as u32) | (numd_value << 16u32);
    let id: u32 = log_id as u32;
    assert(id < 256 && numd_value < 0x1_0000 ==> (id | (numd_value << 16u32)) == id + numd_value
        * 0x1_0000) by (bit_vector);
    AdminCommand {
        opcode: ADMIN_GET_LOG_PAGE,
        nsid: 0xFFFF_FFFF,
        data_len,
        cdw10,
        cdw11: 0,
        timeout_ms,
    }
}

/// The Get Log Page command for the S.M.A.R.T. / Health Information log
/// (Log ID 02h, 512 bytes, one second timeout).
pub fn smart_log_command() -> (cmd: AdminCommand)
    ensures
        cmd == (AdminCommand {
            opcode: ADMIN_GET_LOG_PAGE,
            nsid: 0xFFFF_FFFF,
            data_len: 512,
            cdw10: 0x007F_0002,
            cdw11: 0,
            timeout_ms: 1000,
        }),
{
    log_page_command(SMART_LOG_ID, SMART_LOG_LEN as u32, 1000)
}

/// The Get Log Page command for the OCP SMART Extended Log (Log ID C0h,
/// 512 bytes, one second timeout).
pub fn ocp_smart_log_command() -> (cmd: AdminCommand)
    ensures
        cmd == (AdminCommand {
            opcode: ADMIN_GET_LOG_PAGE,
            nsid: 0xFFFF_FFFF,
            data_len: 512,
            cdw10: 0x007F_00C0,
            cdw11: 0,
            timeout_ms: 1000,
        }),
{
    log_page_command(OCP_SMART_LOG_ID, OCP_SMART_LOG_LEN as u32, 1000)
}

/// The Get Log Page command for `num_entries` Error Information log entries
/// (Log ID 01h, 64 bytes each, five second timeout).
pub fn error_log_command(num_entries: u16) -> (cmd: AdminCommand)
    requires
        num_entries >= 1,
    ensures
        cmd.opcode == ADMIN_GET_LOG_PAGE,
        cmd.nsid == 0xFFFF_FFFFu32,
        cmd.data_len == num_entries * 64,
        cmd.cdw10 == 1u32 | (numd(cmd.data_len) << 16u32),
        num_entries <= 4096 ==> cmd.cdw10 == 1 + (num_entries * 16 - 1) * 0x1_0000,
        cmd.cdw11 == 0,
        cmd.timeout_ms == 5000,
{
    let entry_len: u32 = ERROR_LOG_ENTRY_LEN as u32;
    assert(entry_len == 64);
    let data_len: u32 = num_entries as u32 * entry_len;
    log_page_command(ERROR_LOG_ID, data_len, 5000)
}

} // verus!
