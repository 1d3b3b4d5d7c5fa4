//! The Identify Controller data structure (4096 bytes, CNS 01h) and the
//! controller identification record built from it.
use vstd::prelude::*;
use crate::ascii::{decode_ascii_field, field_text, is_field_text_of, utf8_lossy};
use crate::bytes::{le_at, read_array, read_le, read_le_u16, read_le_u32};

verus! {

/// Size in bytes of the Identify Controller data structure.
pub const ID_CTRL_LEN: usize = 4096;

/// The text of the field of `raw` that spans `[start, end)`.
pub open spec fn text_field(raw: Seq<u8>, start: int, end: int) -> Seq<char> {
    field_text(utf8_lossy(raw.subrange(start, end)))
}

/// The serial number (SN, bytes 4..24) that Identify Controller data `raw` reports.
pub open spec fn id_ctrl_serial(raw: Seq<u8>) -> Seq<char> {
    text_field(raw, 4, 24)
}

/// Decodes the text field of `raw` that spans `[start, start + N)`.
fn text_field_at<const N: usize>(raw: &[u8], start: usize) -> (r: String)
    requires
        start + N <= raw@.len(),
    ensures
        r@ == text_field(raw@, start as int, start + N),
        is_field_text_of(r@, raw@.subrange(start as int, start + N)),
{
    let bytes: [u8; N] = read_array::<N>(raw, start);
    decode_ascii_field(bytes.as_slice())
}

/// Reads the serial number out of Identify Controller data.
pub fn serial_number_from_id_ctrl(id_ctrl: &[u8; 4096]) -> (r: String)
    ensures
        r@ == id_ctrl_serial(id_ctrl@),
        is_field_text_of(r@, id_ctrl@.subrange(4, 24)),
{
    text_field_at::<20>(id_ctrl.as_slice(), 4)
}

/// Controller identification: vendor, device and controller identifiers.
#[derive(Debug)]
pub struct CtrlIdentity {
    /// NVMe device name (e.g., "nvme0")
    pub nvme_name: String,

    // Vendor information
    /// PCI Vendor ID
    pub vid: u16,
    /// PCI Subsystem Vendor ID
    pub ssvid: u16,
    /// IEEE OUI Identifier
    pub ieee: u32,

    // Device identification
    /// Serial Number
    pub serial_number: String,
    /// Model Number
    pub model_number: String,
    /// Firmware Revision
    pub firmware_rev: String,

    // Controller identifiers
    /// Controller ID
    pub cntlid: u16,
    /// NVM Subsystem NVMe Qualified Name
    pub subnqn: String,

    // Hardware identification
    /// FRU Globally Unique Identifier
    pub fguid: [u8; 16],

    /// Version of the NVMe specification that the controller supports
    pub ver: u32,
    /// Controller type
    pub cntrltype: u8,
}

impl CtrlIdentity {
    /// `self` is the identification of device `nvme_name` whose Identify
    /// Controller data is `raw`.
    pub open spec fn built_from(self, nvme_name: Seq<char>, raw: Seq<u8>) -> bool {
        &&& self.nvme_name@ == nvme_name
        &&& self.vid == le_at(raw, 0, 2)
        &&& self.ssvid == le_at(raw, 2, 2)
        &&& self.ieee == le_at(raw, 73, 3)
        &&& self.serial_number@ == id_ctrl_serial(raw)
        &&& is_field_text_of(self.serial_number@, raw.subrange(4, 24))
        &&& is_field_text_of(self.model_number@, raw.subrange(24, 64))
        &&& is_field_text_of(self.firmware_rev@, raw.subrange(64, 72))
        &&& self.cntlid == le_at(raw, 78, 2)
        &&& is_field_text_of(self.subnqn@, raw.subrange(768, 1024))
        &&& self.fguid@ == raw.subrange(112, 128)
        &&& self.ver == le_at(raw, 80, 4)
        &&& self.cntrltype == raw[111]
    }

    /// Builds the identification of device `nvme_name` from its Identify
    /// Controller data.
    pub fn new(nvme_name: String, raw: &[u8; 4096]) -> (c: CtrlIdentity)
        ensures
            c.built_from(nvme_name@, raw@),
    {
        let bytes = raw.as_slice();
        let ieee = read_le(bytes, 73, 3);
        proof {
            crate::bytes::lemma_le_value_bound(raw@.subrange(73, 76));
            reveal_with_fuel(crate::bytes::pow256, 4);
        }
        CtrlIdentity {
            nvme_name,
            vid: read_le_u16(bytes, 0),
            ssvid: read_le_u16(bytes, 2),
            ieee: ieee as u32,
            serial_number: serial_number_from_id_ctrl(raw),
            model_number: text_field_at::<40>(bytes, 24),
            firmware_rev: text_field_at::<8>(bytes, 64),
            cntlid: read_le_u16(bytes, 78),
            subnqn: text_field_at::<256>(bytes, 768),
            fguid: read_array::<16>(bytes, 112),
            ver: read_le_u32(bytes, 80),
            cntrltype: bytes[111],
        }
    }
}

/// Builds the controller identification of device `nvme_name` from its
/// Identify Controller data.
pub fn get_controller_identity(nvme_name: String, id_ctrl: &[u8; 4096]) -> (c: CtrlIdentity)
    ensures
        c.built_from(nvme_name@, id_ctrl@),
{
    CtrlIdentity::new(nvme_name, id_ctrl)
}

} // verus!
