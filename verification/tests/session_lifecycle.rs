use std::cell::Cell;

use can_session::board::VciBoardInfo;
use can_session::config::VciInitConfig;
use can_session::frame::VciCanObj;
use can_session::session::CanApp;
use can_session::session::Driver;
use can_session::session::poll_once;
use can_session::session::run_polls;

/// A driver double whose statuses are chosen per test: opening succeeds
/// unless told otherwise, channel ids at or above `bad_channel` fail
/// their init step, and starting fails for ids at or above `bad_start`.
struct ScriptedDriver {
    open_status: i32,
    bad_channel: u32,
    bad_start: u32,
    receive_count: i32,
    receive_frame: VciCanObj,
    board_status: i32,
    board_serial: [u8; 20],
    polls: Cell<u32>,
}

impl ScriptedDriver {
    fn all_ok() -> Self {
        ScriptedDriver {
            open_status: 1,
            bad_channel: u32::MAX,
            bad_start: u32::MAX,
            receive_count: 995,
            receive_frame: VciCanObj::default(),
            board_status: 1,
            board_serial: [0; 20],
            polls: Cell::new(0),
        }
    }
}

impl Driver for ScriptedDriver {
    fn open_device(&self, _dev_type: u32, _dev_index: u32, _reserved: u32) -> i32 {
        self.open_status
    }

    fn close_device(&self, _dev_type: u32, _dev_index: u32) -> i32 {
        1
    }

    fn init_can(
        &self,
        _dev_type: u32,
        _dev_index: u32,
        can_channel: u32,
        config: &VciInitConfig,
    ) -> i32 {
        assert_eq!(config.acc_code, 0);
        assert_eq!(config.acc_mask, 0xFFFFFFFF);
        assert_eq!(config.filter, 1);
        assert_eq!(config.mode, 0);
        if can_channel >= self.bad_channel { 0 } else { 1 }
    }

    fn start_can(&self, _dev_type: u32, _dev_index: u32, can_channel: u32) -> i32 {
        if can_channel >= self.bad_start { 0 } else { 1 }
    }

    fn receive_one(
        &self,
        _dev_type: u32,
        _dev_index: u32,
        _can_channel: u32,
        timeout_ms: i32,
    ) -> (i32, VciCanObj) {
        assert_eq!(timeout_ms, 500);
        self.polls.set(self.polls.get() + 1);
        (self.receive_count, self.receive_frame)
    }

    fn read_board_info(&self, _dev_type: u32, _dev_index: u32) -> (i32, VciBoardInfo) {
        let mut info = VciBoardInfo::default();
        info.fw_version = 0x0203;
        info.str_serial_num = self.board_serial;
        (self.board_status, info)
    }
}

fn serial_bytes(text: &[u8]) -> [u8; 20] {
    let mut buf = [0u8; 20];
    buf[..text.len()].copy_from_slice(text);
    buf
}

#[test]
fn open_then_close_leaves_not_open() {
    for dev_type in [0u32, 4, 99] {
        for dev_index in [0u32, 1] {
            let mut app = CanApp::new(ScriptedDriver::all_ok());
            assert!(app.open_device(dev_type, dev_index));
            assert!(app.device_open);
            app.close_device(dev_type, dev_index);
            assert!(!app.device_open);
        }
    }
}

#[test]
fn failed_open_leaves_not_open() {
    let mut driver = ScriptedDriver::all_ok();
    driver.open_status = 0;
    let mut app = CanApp::new(driver);
    assert!(!app.open_device(4, 0));
    assert!(!app.device_open);
}

#[test]
fn close_clears_open_whatever_the_driver_says() {
    let mut app = CanApp::new(ScriptedDriver::all_ok());
    app.close_device(4, 0);
    assert!(!app.device_open);
}

#[test]
fn reconnect_all_steps_ok() {
    let mut app = CanApp::new(ScriptedDriver::all_ok());
    assert_eq!(app.reconnect_device(4, 0, 0, 1, 0x01, 0x1C).0, Ok(()));
    assert!(app.device_open);
}

#[test]
fn reconnect_open_failure_tag() {
    let mut driver = ScriptedDriver::all_ok();
    driver.open_status = 0;
    let mut app = CanApp::new(driver);
    let r = app.reconnect_device(4, 0, 0, 1, 0x01, 0x1C).0;
    assert_eq!(r, Err("Failed to open device".to_string()));
    assert!(!app.device_open);
}

#[test]
fn reconnect_init_failure_tags_follow_step_order() {
    // Both channel ids invalid: the first init step fails first.
    let mut driver = ScriptedDriver::all_ok();
    driver.bad_channel = 2;
    let mut app = CanApp::new(driver);
    let r = app.reconnect_device(4, 0, 2, 3, 0x01, 0x1C).0;
    assert_eq!(r, Err("Failed to initialize CAN1 with new baud".to_string()));
    assert!(app.device_open);

    // Only the second channel id invalid.
    let mut driver = ScriptedDriver::all_ok();
    driver.bad_channel = 2;
    let mut app = CanApp::new(driver);
    let r = app.reconnect_device(4, 0, 0, 2, 0x01, 0x1C).0;
    assert_eq!(r, Err("Failed to initialize CAN2 with new baud".to_string()));
}

#[test]
fn reconnect_start_failure_tags_follow_step_order() {
    let mut driver = ScriptedDriver::all_ok();
    driver.bad_start = 1;
    let mut app = CanApp::new(driver);
    let r = app.reconnect_device(4, 0, 1, 0, 0x01, 0x1C).0;
    assert_eq!(r, Err("Failed to start CAN1 after reconnect".to_string()));

    let mut driver = ScriptedDriver::all_ok();
    driver.bad_start = 1;
    let mut app = CanApp::new(driver);
    let r = app.reconnect_device(4, 0, 0, 1, 0x01, 0x1C).0;
    assert_eq!(r, Err("Failed to start CAN2 after reconnect".to_string()));
}

#[test]
fn stop_then_start_resets_the_flag() {
    let mut app = CanApp::new(ScriptedDriver::all_ok());
    app.start_receiving();
    assert!(app.receiving);
    app.stop_receiving();
    assert!(!app.receiving);
    app.start_receiving();
    assert!(app.receiving);
    assert!(!app.device_open);
}

#[test]
fn sentinel_polls_emit_no_frame_messages() {
    let driver = ScriptedDriver::all_ok();
    let (tx, rx) = flume::unbounded::<String>();
    for _ in 0..1000 {
        let outcome = poll_once(&driver, 4, 0, 0, &tx);
        assert_eq!(outcome.count, 995);
        assert!(outcome.message.is_none());
    }
    assert_eq!(driver.polls.get(), 1000);
    assert!(rx.try_recv().is_err());
}

#[test]
fn sentinel_run_collects_nothing() {
    let driver = ScriptedDriver::all_ok();
    let (tx, rx) = flume::unbounded::<String>();
    let (msgs, _polls) = run_polls(&driver, 4, 0, 0, &tx, 5000);
    assert!(msgs.is_empty());
    assert!(rx.try_recv().is_err());
    assert_eq!(driver.polls.get(), 5000);
}

#[test]
fn frame_run_collects_each_poll_message() {
    let mut driver = ScriptedDriver::all_ok();
    driver.receive_count = 1;
    let mut frame = VciCanObj::default();
    frame.id = 0xAB;
    frame.data_len = 2;
    frame.data = [9, 8, 0, 0, 0, 0, 0, 0];
    driver.receive_frame = frame;
    let (tx, rx) = flume::unbounded::<String>();
    let (msgs, _polls) = run_polls(&driver, 4, 0, 0, &tx, 3);
    assert_eq!(msgs, vec![
        "ID=0xAB, Data=[9, 8]".to_string(),
        "ID=0xAB, Data=[9, 8]".to_string(),
        "ID=0xAB, Data=[9, 8]".to_string(),
    ]);
    for _ in 0..3 {
        assert_eq!(rx.try_recv(), Ok("ID=0xAB, Data=[9, 8]".to_string()));
    }
    assert!(rx.try_recv().is_err());
}

#[test]
fn poll_with_frame_sends_its_text() {
    let mut driver = ScriptedDriver::all_ok();
    driver.receive_count = 1;
    let mut frame = VciCanObj::default();
    frame.id = 0x123;
    frame.data_len = 3;
    frame.data = [1, 2, 3, 0, 0, 0, 0, 0];
    driver.receive_frame = frame;
    let (tx, rx) = flume::unbounded::<String>();
    let outcome = poll_once(&driver, 4, 0, 0, &tx);
    assert_eq!(outcome.message, Some("ID=0x123, Data=[1, 2, 3]".to_string()));
    assert_eq!(rx.try_recv(), Ok("ID=0x123, Data=[1, 2, 3]".to_string()));
    assert!(rx.try_recv().is_err());
}

#[test]
fn board_info_serial_trimmed_of_nuls() {
    let mut driver = ScriptedDriver::all_ok();
    driver.board_serial = serial_bytes(b"ABC123");
    let app = CanApp::new(driver);
    let info = app.read_board_info(4, 0).unwrap();
    assert_eq!(info.serial_number, "ABC123".to_string());
    assert_eq!(info.firmware_version, 0x0203);
}

#[test]
fn board_info_read_failure() {
    let mut driver = ScriptedDriver::all_ok();
    driver.board_status = 0;
    let app = CanApp::new(driver);
    assert_eq!(
        app.read_board_info(4, 0),
        Err("Failed to read board info".to_string())
    );
}

#[test]
fn board_info_leading_nuls_are_kept() {
    let mut driver = ScriptedDriver::all_ok();
    let mut serial = [0u8; 20];
    serial[2] = b'A';
    serial[3] = b'B';
    driver.board_serial = serial;
    let app = CanApp::new(driver);
    let info = app.read_board_info(4, 0).unwrap();
    assert_eq!(info.serial_number, "\0\0AB".to_string());
}

#[test]
fn board_info_invalid_utf8_becomes_replacement() {
    let mut driver = ScriptedDriver::all_ok();
    let mut serial = [0u8; 20];
    serial[0] = b'A';
    serial[1] = 0xFF;
    serial[2] = b'B';
    driver.board_serial = serial;
    let app = CanApp::new(driver);
    let info = app.read_board_info(4, 0).unwrap();
    assert_eq!(info.serial_number, "A\u{FFFD}B".to_string());
}
