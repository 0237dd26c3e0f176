use vstd::prelude::*;

verus! {

// The five waveform lookup tables of this panel, fixed vendor data loaded
// once per initialization/reset cycle. Each encodes voltage/timing phases
// for one kind of pixel transition.

/// Common-voltage (VCOM) waveform table.
pub const LUT_VCOM_DC: [u8; 44] = [
    0x00, 0x00, 0x00, 0x0f, 0x0f, 0x00, 0x00, 0x05, 0x00, 0x32, 0x32, 0x00, 0x00, 0x02, 0x00,
    0x0f, 0x0f, 0x00, 0x00, 0x05, 0x00, 0x42, 0x42, 0x00, 0x00, 0x01, 0x00, 0x23, 0x23, 0x00,
    0x00, 0x01, 0x00, 0x00, 0x00, 0x00, 0x00, 0x00, 0x00, 0x00, 0x00, 0x00, 0x00, 0x00,
];

/// White-to-white transition waveform table.
pub const LUT_WW: [u8; 42] = [
    0x90, 0x0f, 0x0f, 0x00, 0x00, 0x05, 0x60, 0x32, 0x32, 0x00, 0x00, 0x02, 0xa0, 0x0f, 0x0f,
    0x00, 0x00, 0x05, 0x60, 0x42, 0x42, 0x00, 0x00, 0x01, 0x90, 0x23, 0x23, 0x00, 0x00, 0x01,
    0x00, 0x00, 0x00, 0x00, 0x00, 0x00, 0x00, 0x00, 0x00, 0x00, 0x00, 0x00,
];

/// Black-to-white transition waveform table.
pub const LUT_BW: [u8; 42] = [
    0xa0, 0x0f, 0x0f, 0x00, 0x00, 0x05, 0x60, 0x32, 0x32, 0x00, 0x00, 0x02, 0x90, 0x0f, 0x0f,
    0x00, 0x00, 0x05, 0x60, 0x42, 0x42, 0x00, 0x00, 0x01, 0xb0, 0x23, 0x23, 0x00, 0x00, 0x01,
    0x00, 0x00, 0x00, 0x00, 0x00, 0x00, 0x00, 0x00, 0x00, 0x00, 0x00, 0x00,
];

/// Black-to-black transition waveform table.
pub const LUT_BB: [u8; 42] = [
    0x90, 0x0f, 0x0f, 0x00, 0x00, 0x05, 0x60, 0x32, 0x32, 0x00, 0x00, 0x02, 0xa0, 0x0f, 0x0f,
    0x00, 0x00, 0x05, 0x60, 0x42, 0x42, 0x00, 0x00, 0x01, 0x90, 0x23, 0x23, 0x00, 0x00, 0x01,
    0x00, 0x00, 0x00, 0x00, 0x00, 0x00, 0x00, 0x00, 0x00, 0x00, 0x00, 0x00,
];

/// White-to-black transition waveform table.
pub const LUT_WB: [u8; 42] = [
    0x90, 0x1e, 0x1e, 0x00, 0x00, 0x01, 0x20, 0x9e, 0x9e, 0x00, 0x00, 0x01, 0x10, 0x1e, 0x1e,
    0x00, 0x00, 0x02, 0x40, 0x0a, 0x0a, 0x00, 0x00, 0x01, 0x00, 0x00, 0x00, 0x00, 0x00, 0x00,
    0x00, 0x00, 0x00, 0x00, 0x00, 0x00, 0x00, 0x00, 0x00, 0x00, 0x00, 0x00,
];

} // verus!
