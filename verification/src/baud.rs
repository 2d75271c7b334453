//! Baud-rate presets.
//!
//! Each preset maps a human-readable label to the pair of timing bytes
//! the driver's channel initialization encodes that rate with.

use vstd::prelude::*;

verus! {

/// A named baud-rate preset and its timing bytes.
#[derive(Clone, Debug)]
pub struct BaudRateOption {
    pub name: String,
    pub timing0: u8,
    pub timing1: u8,
}

/// The eleven presets the reconfiguration dropdown offers, 10 Kbps up
/// to 1000 Kbps, in the order they are shown.
pub fn baud_rate_options() -> (v: Vec<BaudRateOption>)
    ensures
        v@.len() == 11,
        v@[0].name@ == "10 Kbps"@ && v@[0].timing0 == 0x31 && v@[0].timing1 == 0x1C,
        v@[1].name@ == "20 Kbps"@ && v@[1].timing0 == 0x18 && v@[1].timing1 == 0x1C,
        v@[2].name@ == "40 Kbps"@ && v@[2].timing0 == 0x87 && v@[2].timing1 == 0xFF,
        v@[3].name@ == "50 Kbps"@ && v@[3].timing0 == 0x09 && v@[3].timing1 == 0x1C,
        v@[4].name@ == "80 Kbps"@ && v@[4].timing0 == 0x83 && v@[4].timing1 == 0xFF,
        v@[5].name@ == "100 Kbps"@ && v@[5].timing0 == 0x04 && v@[5].timing1 == 0x1C,
        v@[6].name@ == "125 Kbps"@ && v@[6].timing0 == 0x03 && v@[6].timing1 == 0x1C,
        v@[7].name@ == "200 Kbps"@ && v@[7].timing0 == 0x81 && v@[7].timing1 == 0xFA,
        v@[8].name@ == "250 Kbps"@ && v@[8].timing0 == 0x01 && v@[8].timing1 == 0x1C,
        v@[9].name@ == "500 Kbps"@ && v@[9].timing0 == 0x00 && v@[9].timing1 == 0x1C,
        v@[10].name@ == "1000 Kbps"@ && v@[10].timing0 == 0x00 && v@[10].timing1 == 0x14,
{
    let mut v: Vec<BaudRateOption> = Vec::new();
    v.push(BaudRateOption { name: String::from_str("10 Kbps"), timing0: 0x31, timing1: 0x1C });
    v.push(BaudRateOption { name: String::from_str("20 Kbps"), timing0: 0x18, timing1: 0x1C });
    v.push(BaudRateOption { name: String::from_str("40 Kbps"), timing0: 0x87, timing1: 0xFF });
    v.push(BaudRateOption { name: String::from_str("50 Kbps"), timing0: 0x09, timing1: 0x1C });
    v.push(BaudRateOption { name: String::from_str("80 Kbps"), timing0: 0x83, timing1: 0xFF });
    v.push(BaudRateOption { name: String::from_str("100 Kbps"), timing0: 0x04, timing1: 0x1C });
    v.push(BaudRateOption { name: String::from_str("125 Kbps"), timing0: 0x03, timing1: 0x1C });
    v.push(BaudRateOption { name: String::from_str("200 Kbps"), timing0: 0x81, timing1: 0xFA });
    v.push(BaudRateOption { name: String::from_str("250 Kbps"), timing0: 0x01, timing1: 0x1C });
    v.push(BaudRateOption { name: String::from_str("500 Kbps"), timing0: 0x00, timing1: 0x1C });
    v.push(BaudRateOption { name: String::from_str("1000 Kbps"), timing0: 0x00, timing1: 0x14 });
    v
}

/// The preset selected before the operator changes anything: 250 Kbps.
pub fn default_baud_index() -> (i: usize)
    ensures
        i == 8,
{
    8
}

} // verus!
