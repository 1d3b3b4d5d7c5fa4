//! The Error Information log page (Log ID 01h): a circular buffer of
//! 64-byte error entries, as many as the controller's ELPE field allows.
use vstd::prelude::*;
use crate::bytes::{le_at, read_le_u16, read_le_u32, read_le_u64};
use crate::ascii::is_field_text_of;
use crate::bytes::read_array;
use crate::identify::{id_ctrl_serial, serial_number_from_id_ctrl};

verus! {

/// Size in bytes of one Error Information log entry.
pub const ERROR_LOG_ENTRY_LEN: usize = 64;

/// Log page identifier of the Error Information log.
pub const ERROR_LOG_ID: u8 = 0x01;

/// The number of Error Information log entries that Identify Controller data
/// `id_ctrl` announces: its ELPE field (byte 262) is 0-based.
pub open spec fn announced_entries(id_ctrl: Seq<u8>) -> nat {
    id_ctrl[262] as nat + 1
}

/// The entries of `raw` that hold an error: an unused entry has an Error Count of 0.
pub open spec fn populated_entries(raw: Seq<[u8; 64]>) -> Seq<[u8; 64]> {
    raw.filter(|e: [u8; 64]| le_at(e@, 0, 8) != 0)
}

/// One entry of the Error Information log.
#[derive(Debug, Clone, Copy)]
pub struct NvmeErrorLogEntry {
    /// Error Count: unique identifier of this error
    pub error_count: u64,
    /// Submission Queue ID of the command that failed
    pub submission_queue_id: u16,
    /// Command ID of the command that failed
    pub command_id: u16,
    /// Status Field of the completion
    pub status_field: u16,
    /// Parameter Error Location
    pub parm_error_location: u16,
    /// First LBA that experienced the error
    pub lba: u64,
    /// Namespace ID
    pub namespace_id: u32,
    /// Vendor Specific Information Available (log page identifier)
    pub vendor_specific: u8,
    /// Transport Type
    pub trtype: u8,
    /// Command Specific Information
    pub command_specific: u64,
    /// Transport Type Specific Information
    pub trtype_spec_info: u16,
}

impl NvmeErrorLogEntry {
    /// `self` is the entry whose 64 bytes are `raw`.
    pub open spec fn built_from(self, raw: Seq<u8>) -> bool {
        &&& self.error_count == le_at(raw, 0, 8)
        &&& self.submission_queue_id == le_at(raw, 8, 2)
        &&& self.command_id == le_at(raw, 10, 2)
        &&& self.status_field == le_at(raw, 12, 2)
        &&& self.parm_error_location == le_at(raw, 14, 2)
        &&& self.lba == le_at(raw, 16, 8)
        &&& self.namespace_id == le_at(raw, 24, 4)
        &&& self.vendor_specific == raw[28]
        &&& self.trtype == raw[29]
        &&& self.command_specific == le_at(raw, 32, 8)
        &&& self.trtype_spec_info == le_at(raw, 40, 2)
    }

    /// Decodes one 64-byte Error Information log entry.
    pub fn new(raw: &[u8; 64]) -> (e: NvmeErrorLogEntry)
        ensures
            e.built_from(raw@),
    {
        let b = raw.as_slice();
        NvmeErrorLogEntry {
            error_count: read_le_u64(b, 0, 8),
            submission_queue_id: read_le_u16(b, 8),
            command_id: read_le_u16(b, 10),
            status_field: read_le_u16(b, 12),
            parm_error_location: read_le_u16(b, 14),
            lba: read_le_u64(b, 16, 8),
            namespace_id: read_le_u32(b, 24),
            vendor_specific: b[28],
            trtype: b[29],
            command_specific: read_le_u64(b, 32, 8),
            trtype_spec_info: read_le_u16(b, 40),
        }
    }
}

/// The Error Information log of one controller: only the entries that hold
/// an error, in log order.
#[derive(Debug)]
pub struct NvmeErrorLog {
    /// NVMe device name (e.g., "nvme0")
    pub nvme_name: String,
    /// NVMe Serial Number
    pub serial_number: String,
    /// The populated error entries
    pub entries: Vec<NvmeErrorLogEntry>,
}

impl NvmeErrorLog {
    /// `self` is the error log of device `nvme_name` with serial number
    /// `serial_number` whose raw entries are `raw`.
    pub open spec fn built_from(self, nvme_name: Seq<char>, serial_number: Seq<char>, raw: Seq<[u8; 64]>) -> bool {
        &&& self.nvme_name@ == nvme_name
        &&& self.serial_number@ == serial_number
        &&& self.entries@.len() == populated_entries(raw).len()
        &&& forall|i: int|
            0 <= i < self.entries@.len() ==> #[trigger] self.entries@[i].built_from(populated_entries(raw)[i]@)
    }

    /// Builds the error log of device `nvme_name` (serial number
    /// `serial_number`) from the raw entries read from the controller,
    /// keeping the populated ones (Error Count not 0).
    pub fn new(nvme_name: String, serial_number: String, raw_entries: &[[u8; 64]]) -> (log: NvmeErrorLog)
        ensures
            log.built_from(nvme_name@, serial_number@, raw_entries@),
    {
        let ghost raw = raw_entries@;
        let ghost keep = |e: [u8; 64]| le_at(e@, 0, 8) != 0;
        let mut entries: Vec<NvmeErrorLogEntry> = Vec::new();
        let mut i: usize = 0;
        while i < raw_entries.len()
            invariant
                i <= raw.len(),
                raw == raw_entries@,
                keep == (|e: [u8; 64]| le_at(e@, 0, 8) != 0),
                entries@.len() == raw.take(i as int).filter(keep).len(),
                forall|j: int|
                    0 <= j < entries@.len() ==> #[trigger] entries@[j].built_from(
                        raw.take(i as int).filter(keep)[j]@,
                    ),
            decreases raw.len() - i,
        {
            let entry = NvmeErrorLogEntry::new(&raw_entries[i]);
            proof {
                reveal(Seq::filter);
                assert(raw.take(i + 1).drop_last() =~= raw.take(i as int));
                assert(raw.take(i + 1).last() == raw[i as int]);
            }
            if entry.error_count != 0 {
                entries.push(entry);
            }
            i = i + 1;
        }
        proof {
            assert(raw.take(raw.len() as int) =~= raw);
        }
        NvmeErrorLog { nvme_name, serial_number, entries }
    }
}

/// Splits the data that a Get Log Page command returned for the Error
/// Information log into its 64-byte entries; bytes past the last whole entry
/// are not an entry.
pub fn error_log_entries_from_bytes(bytes: &[u8]) -> (entries: Vec<[u8; 64]>)
    ensures
        entries@.len() == bytes@.len() / 64,
        forall|i: int|
            0 <= i < entries@.len() ==> #[trigger] entries@[i]@ == bytes@.subrange(64 * i, 64 * i + 64),
{
    let count = bytes.len() / 64;
    let mut entries: Vec<[u8; 64]> = Vec::new();
    let mut i: usize = 0;
    while i < count
        invariant
            i <= count,
            count == bytes@.len() / 64,
            bytes@.len() == bytes.len(),
            entries@.len() == i,
            forall|j: int|
                0 <= j < i ==> #[trigger] entries@[j]@ == bytes@.subrange(64 * j, 64 * j + 64),
        decreases count - i,
    {
        assert(64 * i + 64 <= bytes@.len()) by (nonlinear_arith)
            requires
                i < count,
                count == bytes@.len() / 64,
        ;
        let entry = read_array::<64>(bytes, 64 * i);
        entries.push(entry);
        i = i + 1;
    }
    entries
}

/// How many Error Information log entries to read from a controller: its
/// ELPE field plus one, widened so that an ELPE of 255 means 256 entries.
pub fn error_log_entry_count(id_ctrl: &[u8; 4096]) -> (n: u16)
    ensures
        n == announced_entries(id_ctrl@),
        1 <= n <= 256,
{
    let elpe: u8 = id_ctrl[262];
    elpe as u16 + 1
}

/// Builds the error log of device `nvme_name` from its Identify Controller
/// data (for the serial number) and the raw entries of its Error Information log.
pub fn get_error_log(nvme_name: String, id_ctrl: &[u8; 4096], raw_entries: &[[u8; 64]]) -> (log: NvmeErrorLog)
    ensures
        log.built_from(nvme_name@, id_ctrl_serial(id_ctrl@), raw_entries@),
        is_field_text_of(log.serial_number@, id_ctrl@.subrange(4, 24)),
{
    let serial_number = serial_number_from_id_ctrl(id_ctrl);
    NvmeErrorLog::new(nvme_name, serial_number, raw_entries)
}

} // verus!
