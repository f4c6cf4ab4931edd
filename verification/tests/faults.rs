use twitchy_mouse::config::{
    manufacturer, product, HID_POLL_INTERVAL, RESET_PULSE_MS, USB_CLASS_HID, USB_PRODUCT_ID,
    USB_VENDOR_ID,
};
use twitchy_mouse::fault::{boot_status, BootStatus, FaultFrame, FaultKind, FaultLog, Health};

#[test]
fn hard_fault_halts_and_reports_once() {
    let mut log = FaultLog::new();
    assert_eq!(log.health, Health::Running);
    assert_eq!(log.reports, 0);
    let frame = FaultFrame { r0: 1, r1: 2, r2: 3, r3: 4, r12: 5, lr: 6, pc: 7, xpsr: 8 };
    log.escalate(FaultKind::HardFault { frame });
    assert_eq!(log.health, Health::Halted);
    assert_eq!(log.reports, 1);
    assert_eq!(log.last, Some(FaultKind::HardFault { frame }));
}

#[test]
fn unhandled_exception_halts_with_its_number() {
    let mut log = FaultLog::new();
    log.escalate(FaultKind::UnhandledException { irqn: -3 });
    assert_eq!(log.health, Health::Halted);
    assert_eq!(log.reports, 1);
    assert_eq!(log.last, Some(FaultKind::UnhandledException { irqn: -3 }));
}

#[test]
fn boot_status_ok_is_operational() {
    let built: Result<u8, i32> = Ok(5);
    assert_eq!(boot_status(&built), BootStatus::Operational);
}

#[test]
fn boot_status_err_is_fatal() {
    let failed: Result<u8, i32> = Err(-1);
    assert_eq!(boot_status(&failed), BootStatus::FatalAtBoot);
}

#[test]
fn usb_identity_is_fixed() {
    assert_eq!(USB_VENDOR_ID, 0x16c0);
    assert_eq!(USB_PRODUCT_ID, 0x27da);
    assert_eq!(USB_CLASS_HID, 0x03);
    assert_eq!(manufacturer(), "Snake's Company");
    assert_eq!(product(), "Twitchy Mouse");
}

#[test]
fn timing_constants_are_fixed() {
    assert_eq!(RESET_PULSE_MS, 100);
    assert_eq!(HID_POLL_INTERVAL, 60);
}
