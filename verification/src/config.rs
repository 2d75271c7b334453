//! Channel initialization and the reconfiguration outcome.
//!
//! Reconfiguring a device runs five driver steps in a fixed order —
//! open, init channel 1, init channel 2, start channel 1, start
//! channel 2 — and fails fast on the first step whose status is not 1,
//! with a distinct message per step.

use vstd::prelude::*;

verus! {

/// Write-only input to the driver's channel initialization: acceptance
/// code and mask, filter mode, the two timing bytes that encode the
/// baud rate, and the operating mode.
#[derive(Clone, Copy, Debug)]
pub struct VciInitConfig {
    pub acc_code: u32,
    pub acc_mask: u32,
    pub reserved: u32,
    pub filter: u8,
    pub timing0: u8,
    pub timing1: u8,
    pub mode: u8,
}

impl Default for VciInitConfig {
    fn default() -> (r: Self)
        ensures
            r.acc_code == 0,
            r.acc_mask == 0,
            r.reserved == 0,
            r.filter == 0,
            r.timing0 == 0,
            r.timing1 == 0,
            r.mode == 0,
    {
        VciInitConfig {
            acc_code: 0,
            acc_mask: 0,
            reserved: 0,
            filter: 0,
            timing0: 0,
            timing1: 0,
            mode: 0,
        }
    }
}

impl VciInitConfig {
    /// The settings reconfiguration hands the driver: accept everything
    /// (code 0, mask all ones), filter 1, normal mode, the given
    /// timing bytes.
    pub fn with_timings(timing0: u8, timing1: u8) -> (r: Self)
        ensures
            r.acc_code == 0,
            r.acc_mask == 0xFFFFFFFFu32,
            r.reserved == 0,
            r.filter == 1,
            r.timing0 == timing0,
            r.timing1 == timing1,
            r.mode == 0,
    {
        VciInitConfig {
            acc_code: 0,
            acc_mask: 0xFFFFFFFF,
            reserved: 0,
            filter: 1,
            timing0,
            timing1,
            mode: 0,
        }
    }
}

/// The result reconfiguration owes for the five step statuses: the
/// message of the first step whose status is not 1, in step order, or
/// success when every status is 1.
pub open spec fn spec_reconfigure_outcome(
    open_status: i32,
    init1_status: i32,
    init2_status: i32,
    start1_status: i32,
    start2_status: i32,
) -> Result<(), Seq<char>> {
    if open_status != 1 {
        Err("Failed to open device"@)
    } else if init1_status != 1 {
        Err("Failed to initialize CAN1 with new baud"@)
    } else if init2_status != 1 {
        Err("Failed to initialize CAN2 with new baud"@)
    } else if start1_status != 1 {
        Err("Failed to start CAN1 after reconnect"@)
    } else if start2_status != 1 {
        Err("Failed to start CAN2 after reconnect"@)
    } else {
        Ok(())
    }
}

/// The reconfiguration result for five observed step statuses.
pub fn reconfigure_outcome(
    open_status: i32,
    init1_status: i32,
    init2_status: i32,
    start1_status: i32,
    start2_status: i32,
) -> (r: Result<(), String>)
    ensures
        (r is Ok) <==> spec_reconfigure_outcome(
            open_status,
            init1_status,
            init2_status,
            start1_status,
            start2_status,
        ) is Ok,
        r matches Err(e) ==> spec_reconfigure_outcome(
            open_status,
            init1_status,
            init2_status,
            start1_status,
            start2_status,
        ) matches Err(m) && e@ == m,
{
    if open_status != 1 {
        Err(String::from_str("Failed to open device"))
    } else if init1_status != 1 {
        Err(String::from_str("Failed to initialize CAN1 with new baud"))
    } else if init2_status != 1 {
        Err(String::from_str("Failed to initialize CAN2 with new baud"))
    } else if start1_status != 1 {
        Err(String::from_str("Failed to start CAN1 after reconnect"))
    } else if start2_status != 1 {
        Err(String::from_str("Failed to start CAN2 after reconnect"))
    } else {
        Ok(())
    }
}

/// Each failing step has its own tag, and the tag returned is the first
/// failing step's, in the order open, init channel 1, init channel 2,
/// start channel 1, start channel 2.
pub proof fn lemma_reconfigure_steps(
    open_status: i32,
    init1_status: i32,
    init2_status: i32,
    start1_status: i32,
    start2_status: i32,
)
    ensures
        spec_reconfigure_outcome(
            open_status,
            init1_status,
            init2_status,
            start1_status,
            start2_status,
        ) is Ok <==> (open_status == 1 && init1_status == 1 && init2_status == 1 && start1_status
            == 1 && start2_status == 1),
        spec_reconfigure_outcome(
            open_status,
            init1_status,
            init2_status,
            start1_status,
            start2_status,
        ) == Err::<(), Seq<char>>("Failed to open device"@) <==> open_status != 1,
        spec_reconfigure_outcome(
            open_status,
            init1_status,
            init2_status,
            start1_status,
            start2_status,
        ) == Err::<(), Seq<char>>("Failed to initialize CAN1 with new baud"@) <==> (open_status == 1
            && init1_status != 1),
        spec_reconfigure_outcome(
            open_status,
            init1_status,
            init2_status,
            start1_status,
            start2_status,
        ) == Err::<(), Seq<char>>("Failed to initialize CAN2 with new baud"@) <==> (open_status == 1
            && init1_status == 1 && init2_status != 1),
        spec_reconfigure_outcome(
            open_status,
            init1_status,
            init2_status,
            start1_status,
            start2_status,
        ) == Err::<(), Seq<char>>("Failed to start CAN1 after reconnect"@) <==> (open_status == 1
            && init1_status == 1 && init2_status == 1 && start1_status != 1),
        spec_reconfigure_outcome(
            open_status,
            init1_status,
            init2_status,
            start1_status,
            start2_status,
        ) == Err::<(), Seq<char>>("Failed to start CAN2 after reconnect"@) <==> (open_status == 1
            && init1_status == 1 && init2_status == 1 && start1_status == 1 && start2_status != 1),
{
    lemma_reconfigure_tags_distinct();
}

/// The five failure tags are pairwise distinct.
pub proof fn lemma_reconfigure_tags_distinct()
    ensures
        "Failed to open device"@ != "Failed to initialize CAN1 with new baud"@,
        "Failed to open device"@ != "Failed to initialize CAN2 with new baud"@,
        "Failed to open device"@ != "Failed to start CAN1 after reconnect"@,
        "Failed to open device"@ != "Failed to start CAN2 after reconnect"@,
        "Failed to initialize CAN1 with new baud"@ != "Failed to initialize CAN2 with new baud"@,
        "Failed to initialize CAN1 with new baud"@ != "Failed to start CAN1 after reconnect"@,
        "Failed to initialize CAN1 with new baud"@ != "Failed to start CAN2 after reconnect"@,
        "Failed to initialize CAN2 with new baud"@ != "Failed to start CAN1 after reconnect"@,
        "Failed to initialize CAN2 with new baud"@ != "Failed to start CAN2 after reconnect"@,
        "Failed to start CAN1 after reconnect"@ != "Failed to start CAN2 after reconnect"@,
{
    reveal_strlit("Failed to open device");
    reveal_strlit("Failed to initialize CAN1 with new baud");
    reveal_strlit("Failed to initialize CAN2 with new baud");
    reveal_strlit("Failed to start CAN1 after reconnect");
    reveal_strlit("Failed to start CAN2 after reconnect");
    assert("Failed to open device"@.len() == 21);
    assert("Failed to initialize CAN1 with new baud"@.len() == 39);
    assert("Failed to initialize CAN2 with new baud"@.len() == 39);
    assert("Failed to start CAN1 after reconnect"@.len() == 36);
    assert("Failed to start CAN2 after reconnect"@.len() == 36);
    assert("Failed to initialize CAN1 with new baud"@[24]
        != "Failed to initialize CAN2 with new baud"@[24]);
    assert("Failed to start CAN1 after reconnect"@[19]
        != "Failed to start CAN2 after reconnect"@[19]);
}

} // verus!
