//! Device session lifecycle and the polling receiver's step.
//!
//! The vendor driver is reached through the `Driver` trait, one method
//! per entry point; nothing is assumed of what the driver returns. The
//! session tracks the "device open" and "receiving" booleans; every
//! state change is stated over `SessionView`. One poll of the receiver
//! is `poll_once`; the caller runs it in a loop while the receiving
//! flag is set, sleeping `POLL_INTERVAL_MS` between polls.

use vstd::prelude::*;

use crate::board::DeviceInfo;
use crate::board::VciBoardInfo;
use crate::board::decode_board_info;
use crate::board::lossy_of;
use crate::board::spec_trim_trailing_nul;
use crate::channel::send_text;
use crate::config::VciInitConfig;
use crate::config::spec_reconfigure_outcome;
use crate::frame::VciCanObj;
use crate::frame::frame_message;
use crate::frame::spec_emitted;
use crate::frame::spec_frame_message;

verus! {

/// The timeout handed to each receive call, in milliseconds.
pub const POLL_TIMEOUT_MS: i32 = 500;

/// How long the receive loop sleeps between polls, in milliseconds,
/// whatever the poll returned.
pub const POLL_INTERVAL_MS: u64 = 10;

/// The vendor driver's entry points, one method per call. A status of 1
/// means success; nothing else is promised of an implementation, and
/// every contract of the session holds whatever one returns.
pub trait Driver {
    /// Open the adapter; the last argument is reserved and passed as 0.
    fn open_device(&self, dev_type: u32, dev_index: u32, reserved: u32) -> i32;

    /// Close the adapter.
    fn close_device(&self, dev_type: u32, dev_index: u32) -> i32;

    /// Initialize one CAN channel with the given settings.
    fn init_can(&self, dev_type: u32, dev_index: u32, can_channel: u32, config: &VciInitConfig)
        -> i32;

    /// Start one initialized CAN channel.
    fn start_can(&self, dev_type: u32, dev_index: u32, can_channel: u32) -> i32;

    /// Poll for at most one frame within the timeout; the count is the
    /// number of frames filled in, or a driver-defined code.
    fn receive_one(&self, dev_type: u32, dev_index: u32, can_channel: u32, timeout_ms: i32) -> (
        i32,
        VciCanObj,
    );

    /// Read the board-identification block; returns the status and the
    /// buffer as the driver left it.
    fn read_board_info(&self, dev_type: u32, dev_index: u32) -> (i32, VciBoardInfo);
}

/// The session's abstract state: the two booleans the lifecycle is
/// about.
pub struct SessionView {
    pub device_open: bool,
    pub receiving: bool,
}

/// The state after an open attempt that returned `ok`.
pub open spec fn spec_after_open(s: SessionView, ok: bool) -> SessionView {
    SessionView { device_open: ok, receiving: s.receiving }
}

/// The state after a close: never open, whatever the driver said.
pub open spec fn spec_after_close(s: SessionView) -> SessionView {
    SessionView { device_open: false, receiving: s.receiving }
}

/// The state after starting the receiver.
pub open spec fn spec_after_start(s: SessionView) -> SessionView {
    SessionView { device_open: s.device_open, receiving: true }
}

/// The state after stopping the receiver.
pub open spec fn spec_after_stop(s: SessionView) -> SessionView {
    SessionView { device_open: s.device_open, receiving: false }
}

/// Opening and then immediately closing leaves the session not open,
/// whatever state it started in and however the open attempt went.
pub proof fn lemma_open_then_close_not_open(s: SessionView, ok: bool)
    ensures
        !spec_after_close(spec_after_open(s, ok)).device_open,
{
}

/// Stopping and starting again polls anew with no residue of the prior
/// run: the state is exactly what starting from the original state
/// gives, and the receiving flag is set.
pub proof fn lemma_stop_then_start_no_residue(s: SessionView)
    ensures
        spec_after_start(spec_after_stop(s)) == spec_after_start(s),
        spec_after_start(spec_after_stop(s)).receiving,
{
}

/// A device session over a driver: the driver handle and the two
/// lifecycle booleans.
pub struct CanApp<D: Driver> {
    pub driver: D,
    pub device_open: bool,
    pub receiving: bool,
}

impl<D: Driver> View for CanApp<D> {
    type V = SessionView;

    open spec fn view(&self) -> SessionView {
        SessionView { device_open: self.device_open, receiving: self.receiving }
    }
}

impl<D: Driver> CanApp<D> {
    /// A fresh session: not open, not receiving.
    pub fn new(driver: D) -> (r: Self)
        ensures
            r.driver == driver,
            !r@.device_open,
            !r@.receiving,
    {
        CanApp { driver, device_open: false, receiving: false }
    }

    /// Ask the driver to open the adapter; the session is marked open
    /// exactly when the driver reported success.
    pub fn open_device(&mut self, dev_type: u32, dev_index: u32) -> (ok: bool)
        ensures
            final(self)@ == spec_after_open(old(self)@, ok),
            final(self).driver == old(self).driver,
    {
        let status = self.driver.open_device(dev_type, dev_index, 0);
        let ok = status == 1;
        self.device_open = ok;
        ok
    }

    /// Ask the driver to close the adapter; the session counts as
    /// closed whatever the driver returns.
    pub fn close_device(&mut self, dev_type: u32, dev_index: u32)
        ensures
            final(self)@ == spec_after_close(old(self)@),
            final(self).driver == old(self).driver,
    {
        self.driver.close_device(dev_type, dev_index);
        self.device_open = false;
    }

    /// Set the receiving flag; the caller then runs the poll loop.
    pub fn start_receiving(&mut self)
        ensures
            final(self)@ == spec_after_start(old(self)@),
            final(self).driver == old(self).driver,
    {
        self.receiving = true;
    }

    /// Clear the receiving flag; the poll loop observes it at its next
    /// iteration boundary.
    pub fn stop_receiving(&mut self)
        ensures
            final(self)@ == spec_after_stop(old(self)@),
            final(self).driver == old(self).driver,
    {
        self.receiving = false;
    }

    /// Read and decode the board-identification block. Any driver
    /// status but 1 is the read failure; on success the serial number
    /// is the driver's buffer trimmed of trailing NULs and decoded, and
    /// the firmware version is copied out.
    pub fn read_board_info(&self, dev_type: u32, dev_index: u32) -> (r: Result<DeviceInfo, String>)
        ensures
            r matches Err(e) ==> e@ == "Failed to read board info"@,
            r matches Ok(d) ==> exists|info: VciBoardInfo|
                d.serial_number@ == lossy_of(spec_trim_trailing_nul(info.str_serial_num@))
                    && d.firmware_version == info.fw_version,
    {
        let (status, info) = self.driver.read_board_info(dev_type, dev_index);
        decode_board_info(status, &info)
    }

    /// Close, reopen, initialize both channels with the given timing
    /// bytes, and start both channels, failing fast with the first
    /// failing step's tag. A failed later step leaves the device open
    /// and possibly half-initialized, as the driver left it. The ghost
    /// record carries the five step statuses in step order; a step
    /// skipped by the fail-fast exit is recorded as 1, which leaves the
    /// owed outcome unchanged, and the result is exactly what
    /// `spec_reconfigure_outcome` owes that record.
    pub fn reconnect_device(
        &mut self,
        dev_type: u32,
        dev_index: u32,
        can1: u32,
        can2: u32,
        timing0: u8,
        timing1: u8,
    ) -> (r: (Result<(), String>, Ghost<(i32, i32, i32, i32, i32)>))
        ensures
            final(self).driver == old(self).driver,
            final(self)@.receiving == old(self)@.receiving,
            final(self)@.device_open == (r.1@.0 == 1),
            (r.0 is Ok) <==> spec_reconfigure_outcome(
                r.1@.0,
                r.1@.1,
                r.1@.2,
                r.1@.3,
                r.1@.4,
            ) is Ok,
            r.0 matches Err(e) ==> spec_reconfigure_outcome(
                r.1@.0,
                r.1@.1,
                r.1@.2,
                r.1@.3,
                r.1@.4,
            ) matches Err(m) && e@ == m,
    {
        self.driver.close_device(dev_type, dev_index);
        let open_status = self.driver.open_device(dev_type, dev_index, 0);
        if open_status != 1 {
            self.device_open = false;
            return (
                Err(String::from_str("Failed to open device")),
                Ghost((open_status, 1, 1, 1, 1)),
            );
        }
        self.device_open = true;
        let config = VciInitConfig::with_timings(timing0, timing1);
        let init1_status = self.driver.init_can(dev_type, dev_index, can1, &config);
        if init1_status != 1 {
            return (
                Err(String::from_str("Failed to initialize CAN1 with new baud")),
                Ghost((open_status, init1_status, 1, 1, 1)),
            );
        }
        let init2_status = self.driver.init_can(dev_type, dev_index, can2, &config);
        if init2_status != 1 {
            return (
                Err(String::from_str("Failed to initialize CAN2 with new baud")),
                Ghost((open_status, init1_status, init2_status, 1, 1)),
            );
        }
        let start1_status = self.driver.start_can(dev_type, dev_index, can1);
        if start1_status != 1 {
            return (
                Err(String::from_str("Failed to start CAN1 after reconnect")),
                Ghost((open_status, init1_status, init2_status, start1_status, 1)),
            );
        }
        let start2_status = self.driver.start_can(dev_type, dev_index, can2);
        if start2_status != 1 {
            return (
                Err(String::from_str("Failed to start CAN2 after reconnect")),
                Ghost((open_status, init1_status, init2_status, start1_status, start2_status)),
            );
        }
        (Ok(()), Ghost((open_status, init1_status, init2_status, start1_status, start2_status)))
    }
}

/// The texts of a sequence of messages, in order.
pub open spec fn views_of(msgs: Seq<String>) -> Seq<Seq<char>> {
    msgs.map_values(|m: String| m@)
}

/// What one poll observed and produced.
pub struct PollOutcome {
    pub count: i32,
    pub frame: VciCanObj,
    pub message: Option<String>,
}

/// One iteration of the receive loop: poll the driver for at most one
/// frame, and if the poll yielded a frame, send its rendered text on
/// the channel (best-effort; a refused send is dropped). The message is
/// exactly what the observed count and frame owe.
pub fn poll_once<D: Driver>(
    driver: &D,
    dev_type: u32,
    dev_index: u32,
    can_channel: u32,
    tx: &flume::Sender<String>,
) -> (r: PollOutcome)
    ensures
        r.message.deep_view() == spec_frame_message(r.count, r.frame),
{
    let (count, frame) = driver.receive_one(dev_type, dev_index, can_channel, POLL_TIMEOUT_MS);
    let message = frame_message(count, &frame);
    match &message {
        Some(m) => {
            send_text(tx, m.clone());
        },
        None => {},
    }
    PollOutcome { count, frame, message }
}

/// A bounded run of the receive loop's data path: `ticks` polls, each
/// sent on the channel as `poll_once` does and collected here, oldest
/// first. The collected messages are exactly what the observed polls —
/// returned as a ghost record — emit under the loop's rule; in
/// particular a run of sentinel polls collects nothing.
pub fn run_polls<D: Driver>(
    driver: &D,
    dev_type: u32,
    dev_index: u32,
    can_channel: u32,
    tx: &flume::Sender<String>,
    ticks: usize,
) -> (r: (Vec<String>, Ghost<Seq<(i32, VciCanObj)>>))
    ensures
        r.1@.len() == ticks,
        views_of(r.0@) == spec_emitted(r.1@),
{
    let mut msgs: Vec<String> = Vec::new();
    let ghost mut polls: Seq<(i32, VciCanObj)> = Seq::empty();
    proof {
        assert(views_of(msgs@) =~= spec_emitted(polls));
    }
    let mut tick: usize = 0;
    while tick < ticks
        invariant
            tick <= ticks,
            polls.len() == tick,
            views_of(msgs@) == spec_emitted(polls),
        decreases ticks - tick,
    {
        let outcome = poll_once(driver, dev_type, dev_index, can_channel, tx);
        let ghost prev = polls;
        proof {
            polls = prev.push((outcome.count, outcome.frame));
            assert(polls.drop_last() =~= prev);
        }
        match outcome.message {
            Some(m) => {
                let ghost mv = m@;
                msgs.push(m);
                proof {
                    assert(views_of(msgs@) =~= views_of(msgs@.drop_last()).push(mv));
                }
            },
            None => {},
        }
        tick = tick + 1;
    }
    (msgs, Ghost(polls))
}

} // verus!
