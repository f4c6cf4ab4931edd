use vstd::prelude::*;

verus! {

/// USB vendor identifier the device enumerates with.
pub const USB_VENDOR_ID: u16 = 0x16c0;

/// USB product identifier the device enumerates with.
pub const USB_PRODUCT_ID: u16 = 0x27da;

/// USB device class code for a Human Interface Device.
pub const USB_CLASS_HID: u8 = 0x03;

/// Maximum poll interval advertised by the HID class, in the class driver's
/// native units.
pub const HID_POLL_INTERVAL: u8 = 60;

/// How long the data-plus line is held low during the bus-reset pulse, in
/// milliseconds. At least the USB specification's minimum disconnect
/// duration, so the host reliably observes a disconnect.
pub const RESET_PULSE_MS: u16 = 100;

/// Pause between two motion-script cycles, in milliseconds.
pub const CYCLE_DELAY_MS: u16 = 10_000;

/// Manufacturer string of the device descriptor.
pub fn manufacturer() -> (s: &'static str)
    ensures
        s@ == "Snake's Company"@,
{
    "Snake's Company"
}

/// Product string of the device descriptor.
pub fn product() -> (s: &'static str)
    ensures
        s@ == "Twitchy Mouse"@,
{
    "Twitchy Mouse"
}

} // verus!
