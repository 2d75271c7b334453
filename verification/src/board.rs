//! Board identification.
//!
//! The driver fills a fixed-layout info block; of it the session
//! surfaces the serial number (a NUL-padded byte buffer, shown with the
//! trailing padding trimmed) and the firmware version.

use vstd::prelude::*;

verus! {

/// The info block the vendor driver fills: version words, IRQ and
/// channel counts, and NUL-padded serial-number and hardware-type
/// buffers.
#[derive(Clone, Copy, Debug)]
pub struct VciBoardInfo {
    pub hw_version: u16,
    pub fw_version: u16,
    pub dr_version: u16,
    pub in_version: u16,
    pub irq_num: u16,
    pub can_num: u8,
    pub str_serial_num: [u8; 20],
    pub str_hw_type: [u8; 40],
    pub reserved: [u16; 4],
}

impl Default for VciBoardInfo {
    /// An all-zero block, as handed to the driver as an out-buffer.
    fn default() -> (r: Self)
        ensures
            r.hw_version == 0,
            r.fw_version == 0,
            r.dr_version == 0,
            r.in_version == 0,
            r.irq_num == 0,
            r.can_num == 0,
            r.str_serial_num@ == Seq::new(20, |i: int| 0u8),
            r.str_hw_type@ == Seq::new(40, |i: int| 0u8),
            r.reserved@ == Seq::new(4, |i: int| 0u16),
    {
        let r = VciBoardInfo {
            hw_version: 0,
            fw_version: 0,
            dr_version: 0,
            in_version: 0,
            irq_num: 0,
            can_num: 0,
            str_serial_num: [0u8; 20],
            str_hw_type: [0u8; 40],
            reserved: [0u16; 4],
        };
        proof {
            assert(r.str_serial_num@ =~= Seq::new(20, |i: int| 0u8));
            assert(r.str_hw_type@ =~= Seq::new(40, |i: int| 0u8));
            assert(r.reserved@ =~= Seq::new(4, |i: int| 0u16));
        }
        r
    }
}

/// What a successful board-info read surfaces.
#[derive(Debug, PartialEq)]
pub struct DeviceInfo {
    pub serial_number: String,
    pub firmware_version: u16,
}

/// `s` without its trailing zero bytes.
pub open spec fn spec_trim_trailing_nul(s: Seq<u8>) -> Seq<u8>
    decreases s.len(),
{
    if s.len() > 0 && s.last() == 0 {
        spec_trim_trailing_nul(s.drop_last())
    } else {
        s
    }
}

/// The bytes of `bytes` with trailing zero bytes removed.
pub fn trim_trailing_nul(bytes: &[u8]) -> (r: Vec<u8>)
    ensures
        r@ == spec_trim_trailing_nul(bytes@),
{
    proof {
        assert(bytes@.take(bytes@.len() as int) =~= bytes@);
    }
    let mut hi: usize = bytes.len();
    while hi > 0 && bytes[hi - 1] == 0
        invariant
            hi <= bytes@.len(),
            spec_trim_trailing_nul(bytes@) == spec_trim_trailing_nul(bytes@.take(hi as int)),
        decreases hi,
    {
        proof {
            let cur = bytes@.take(hi as int);
            assert(cur.last() == bytes@[hi as int - 1]);
            assert(cur.drop_last() =~= bytes@.take(hi as int - 1));
        }
        hi = hi - 1;
    }
    proof {
        let cur = bytes@.take(hi as int);
        if hi > 0 {
            assert(cur.last() == bytes@[hi as int - 1]);
        } else {
            assert(cur =~= Seq::<u8>::empty());
        }
        assert(spec_trim_trailing_nul(bytes@) == cur);
    }
    let mut r: Vec<u8> = Vec::new();
    let mut i: usize = 0;
    while i < hi
        invariant
            i <= hi <= bytes@.len(),
            r@ == bytes@.take(i as int),
        decreases hi - i,
    {
        r.push(bytes[i]);
        proof {
            assert(r@ =~= bytes@.take(i as int + 1));
        }
        i = i + 1;
    }
    r
}

/// The text that lossy UTF-8 decoding gives a byte sequence. The result
/// depends on the bytes alone.
pub uninterp spec fn lossy_of(bytes: Seq<u8>) -> Seq<char>;

/// Relies on `String::from_utf8_lossy`: decodes the bytes as UTF-8,
/// replacing each invalid sequence with U+FFFD; valid UTF-8 — so in
/// particular plain ASCII — comes through unchanged.
#[verifier::external_body]
fn lossy_string(bytes: &[u8]) -> (r: String)
    ensures
        r@ == lossy_of(bytes@),
        bytes@.len() == 0 ==> r@.len() == 0,
        (forall|i: int| 0 <= i < bytes@.len() ==> bytes@[i] < 128) ==> r@ == bytes@.map_values(
            |b: u8| b as char,
        ),
{
    String::from_utf8_lossy(bytes).into_owned()
}

/// What a board-info read returns for a given driver status and block:
/// any status but 1 is the read failure; on success the serial number
/// is the buffer trimmed of trailing NULs and decoded — a plain-ASCII
/// buffer character for character — and the firmware version is copied.
pub fn decode_board_info(status: i32, info: &VciBoardInfo) -> (r: Result<DeviceInfo, String>)
    ensures
        (r is Ok) <==> status == 1,
        r matches Ok(d) ==> d.serial_number@ == lossy_of(
            spec_trim_trailing_nul(info.str_serial_num@),
        ) && d.firmware_version == info.fw_version,
        r matches Ok(d) ==> ((forall|i: int|
            0 <= i < spec_trim_trailing_nul(info.str_serial_num@).len()
                ==> spec_trim_trailing_nul(info.str_serial_num@)[i] < 128)
            ==> d.serial_number@ == spec_trim_trailing_nul(info.str_serial_num@).map_values(
            |b: u8| b as char,
        )),
        r matches Err(e) ==> e@ == "Failed to read board info"@,
{
    if status != 1 {
        Err(String::from_str("Failed to read board info"))
    } else {
        let trimmed = trim_trailing_nul(info.str_serial_num.as_slice());
        let serial = lossy_string(trimmed.as_slice());
        Ok(DeviceInfo { serial_number: serial, firmware_version: info.fw_version })
    }
}

} // verus!
