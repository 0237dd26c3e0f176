use vstd::prelude::*;

verus! {

// Command codes of the panel's register map. Each is the first byte of a
// transaction, sent with the data/command line in "command" state.

/// Panel settings (display mode selection).
pub const PANEL_SETTING: u8 = 0x00;

/// Power settings (voltage rails).
pub const POWER_SETTING: u8 = 0x01;

/// Power off the panel rails.
pub const POWER_OFF: u8 = 0x02;

/// Power on the panel rails; the panel goes busy while they settle.
pub const POWER_ON: u8 = 0x04;

/// Booster soft-start configuration.
pub const BOOSTER_SOFT_START: u8 = 0x06;

/// Enter deep sleep; only a wake-up (re-initialization) leaves it.
pub const DEEP_SLEEP: u8 = 0x07;

/// Start transmission of the first frame plane.
pub const DATA_START_TRANSMISSION_1: u8 = 0x10;

/// Refresh the physical display from the frame buffers.
pub const DISPLAY_REFRESH: u8 = 0x12;

/// Start transmission of the second frame plane.
pub const DATA_START_TRANSMISSION_2: u8 = 0x13;

/// Start transmission of a partial window into the first plane.
pub const PARTIAL_DATA_START_TRANSMISSION_1: u8 = 0x14;

/// Re-flash a previously written partial window without new data.
pub const PARTIAL_DISPLAY_REFRESH: u8 = 0x16;

/// Load the common-voltage waveform lookup table.
pub const LUT_FOR_VCOM: u8 = 0x20;

/// Load the white-to-white transition waveform lookup table.
pub const LUT_WHITE_TO_WHITE: u8 = 0x21;

/// Load the black-to-white transition waveform lookup table.
pub const LUT_BLACK_TO_WHITE: u8 = 0x22;

/// Load the white-to-black transition waveform lookup table.
pub const LUT_WHITE_TO_BLACK: u8 = 0x23;

/// Load the black-to-black transition waveform lookup table.
pub const LUT_BLACK_TO_BLACK: u8 = 0x24;

/// PLL (frame-rate clock) control.
pub const PLL_CONTROL: u8 = 0x30;

/// VCOM and data-interval setting.
pub const VCOM_AND_DATA_INTERVAL_SETTING: u8 = 0x50;

/// Ask the panel for its status; issued before each busy-wait.
pub const GET_STATUS: u8 = 0x71;

/// VCM DC level setting.
pub const VCM_DC_SETTING: u8 = 0x82;

/// Vendor power-optimization sub-step (repeated with distinct payloads).
pub const POWER_OPTIMIZATION: u8 = 0xf8;

} // verus!
