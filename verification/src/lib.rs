//! # nvme-telem
//!
//! Typed NVMe telemetry: S.M.A.R.T./Health logs, Error Information logs,
//! controller identification and the OCP SMART Extended Log, decoded from
//! the raw data that NVMe Admin commands return. Each record carries the
//! device name and the drive's serial number, so it can be traced back to
//! its drive on its own.
pub mod ascii;
pub mod bytes;
pub mod command;
pub mod error_log;
pub mod identify;
pub mod layout;
pub mod ocp;
pub mod records;
pub mod smart;

pub use ascii::{convert_cchar_to_u8_array_16, decode_ascii_field, parse_ascii_field, trim_ascii_field};
pub use command::{
    error_log_command, identify_controller_command, log_page_command, ocp_smart_log_command,
    smart_log_command, AdminCommand,
};
pub use error_log::{error_log_entries_from_bytes, error_log_entry_count, get_error_log, NvmeErrorLog, NvmeErrorLogEntry};
pub use identify::{get_controller_identity, serial_number_from_id_ctrl, CtrlIdentity};
pub use ocp::{
    check_ocp_guid, get_smart_add_log, ocp_smart_log_from_bytes, OcpLogError, OcpSmartData,
    OcpSmartExtendedLog,
};
pub use smart::{get_smart_log, NvmeSmartLog};
