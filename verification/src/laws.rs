use vstd::prelude::*;

use crate::color::Color;
use crate::command::DATA_START_TRANSMISSION_1;
use crate::command::DATA_START_TRANSMISSION_2;
use crate::command::DISPLAY_REFRESH;
use crate::command::LUT_BLACK_TO_BLACK;
use crate::command::LUT_BLACK_TO_WHITE;
use crate::command::LUT_FOR_VCOM;
use crate::command::LUT_WHITE_TO_BLACK;
use crate::command::LUT_WHITE_TO_WHITE;
use crate::command::PANEL_SETTING;
use crate::command::PARTIAL_DATA_START_TRANSMISSION_1;
use crate::command::PARTIAL_DISPLAY_REFRESH;
use crate::command::PLL_CONTROL;
use crate::driver::FRAME_BUFFER_SIZE;
use crate::driver::HEIGHT;
use crate::driver::WIDTH;
use crate::driver::clear_frame_events;
use crate::driver::display_partial_frame_events;
use crate::driver::geometry_bytes;
use crate::driver::init_events;
use crate::driver::update_partial_frame_events;
use crate::interface::BusEvent;

verus! {

/// True of the five command bytes that load a waveform lookup table.
pub open spec fn is_lut_load_command(e: BusEvent) -> bool {
    e == BusEvent::Command(LUT_FOR_VCOM) || e == BusEvent::Command(LUT_WHITE_TO_WHITE) || e
        == BusEvent::Command(LUT_BLACK_TO_WHITE) || e == BusEvent::Command(LUT_WHITE_TO_BLACK)
        || e == BusEvent::Command(LUT_BLACK_TO_BLACK)
}

/// The panel geometry is fixed, and one full frame plane packs eight
/// pixels to a byte: its buffer holds width × height / 8 = 5808 bytes.
pub proof fn lemma_frame_geometry()
    ensures
        WIDTH == 176,
        HEIGHT == 264,
        FRAME_BUFFER_SIZE == 5808,
        8 * FRAME_BUFFER_SIZE == WIDTH * HEIGHT,
{
}

/// Clearing writes both planes in full, whatever the background color:
/// after each of the two start-transmission commands come exactly 5808
/// data bytes — 2 × 5808 in all — and every data byte is the color's
/// encoding.
pub proof fn lemma_clear_frame_stream(color: Color)
    ensures
        clear_frame_events(color).len() == 11618,
        clear_frame_events(color)[0] == BusEvent::Command(DATA_START_TRANSMISSION_1),
        clear_frame_events(color)[5809] == BusEvent::Command(DATA_START_TRANSMISSION_2),
        forall|i: int|
            1 <= i < 5809 ==> clear_frame_events(color)[i] == BusEvent::Data(
                color.spec_byte_value(),
            ),
        forall|i: int|
            5810 <= i < 11618 ==> clear_frame_events(color)[i] == BusEvent::Data(
                color.spec_byte_value(),
            ),
{
}

/// The geometry header of a partial window is the documented eight bytes:
/// each coordinate split into high byte and low byte, with the low bytes
/// of x and width masked to multiples of eight (byte alignment of packed
/// pixels) and y and height passed through unmasked.
pub proof fn lemma_geometry_encoding(x: u32, y: u32, w: u32, h: u32)
    ensures
        geometry_bytes(x, y, w, h).len() == 8,
        geometry_bytes(x, y, w, h)[0] == ((x >> 8) & 0xff) as u8,
        geometry_bytes(x, y, w, h)[1] == (x & 0xf8) as u8,
        geometry_bytes(x, y, w, h)[2] == ((y >> 8) & 0xff) as u8,
        geometry_bytes(x, y, w, h)[3] == (y & 0xff) as u8,
        geometry_bytes(x, y, w, h)[4] == ((w >> 8) & 0xff) as u8,
        geometry_bytes(x, y, w, h)[5] == (w & 0xf8) as u8,
        geometry_bytes(x, y, w, h)[6] == ((h >> 8) & 0xff) as u8,
        geometry_bytes(x, y, w, h)[7] == (h & 0xff) as u8,
        geometry_bytes(x, y, w, h)[1] % 8 == 0,
        geometry_bytes(x, y, w, h)[5] % 8 == 0,
{
    assert((x & 0xf8) % 8 == 0 && (x & 0xf8) <= 0xf8) by (bit_vector);
    assert((w & 0xf8) % 8 == 0 && (w & 0xf8) <= 0xf8) by (bit_vector);
}

/// The two partial-window paths use distinct command codes: streaming new
/// window data opens with the partial start-transmission command and ends
/// in a full display-refresh, while re-flashing without data opens with
/// the partial-display-refresh command and never issues a display-refresh.
pub proof fn lemma_partial_command_codes(buffer: Seq<u8>, x: u32, y: u32, w: u32, h: u32)
    ensures
        update_partial_frame_events(buffer, x, y, w, h)[0] == BusEvent::Command(
            PARTIAL_DATA_START_TRANSMISSION_1,
        ),
        display_partial_frame_events(x, y, w, h)[0] == BusEvent::Command(PARTIAL_DISPLAY_REFRESH),
        PARTIAL_DATA_START_TRANSMISSION_1 != PARTIAL_DISPLAY_REFRESH,
        update_partial_frame_events(buffer, x, y, w, h).contains(
            BusEvent::Command(DISPLAY_REFRESH),
        ),
        !display_partial_frame_events(x, y, w, h).contains(BusEvent::Command(DISPLAY_REFRESH)),
{
    let u = update_partial_frame_events(buffer, x, y, w, h);
    assert(u[9 + buffer.len() as int] == BusEvent::Command(DISPLAY_REFRESH));
    assert(u.contains(BusEvent::Command(DISPLAY_REFRESH)));
    let d = display_partial_frame_events(x, y, w, h);
    assert(d.len() == 11);
    assert forall|i: int| 0 <= i < 11 implies d[i] != BusEvent::Command(DISPLAY_REFRESH) by {
        assert(d[i] != BusEvent::Command(DISPLAY_REFRESH));
    }
}

/// Waking is idempotent in state and never shortened: each successful
/// wake-up appends the whole initialization sequence to the transaction
/// history, so two in succession append it twice, and the stream of the
/// second run equals the stream of the first — there is no
/// skip-if-already-initialized shortcut.
pub proof fn lemma_wake_up_twice(log0: Seq<BusEvent>, log1: Seq<BusEvent>, log2: Seq<BusEvent>)
    requires
        log1 == log0 + init_events(),
        log2 == log1 + init_events(),
    ensures
        log2 == log0 + init_events() + init_events(),
        log2.subrange(log0.len() as int, log1.len() as int) == log2.subrange(
            log1.len() as int,
            log2.len() as int,
        ),
{
    assert(log2 =~= log0 + init_events() + init_events());
    assert(log2.subrange(log0.len() as int, log1.len() as int) =~= init_events());
    assert(log2.subrange(log1.len() as int, log2.len() as int) =~= init_events());
}

/// Initialization is ordered: the hardware reset is the very first
/// transaction, before any command byte; the lookup tables are programmed
/// only after the panel-setting and PLL-control commands, never before.
pub proof fn lemma_init_sequencing()
    ensures
        init_events().len() == 260,
        init_events()[0] == BusEvent::Reset,
        init_events()[37] == BusEvent::Command(PANEL_SETTING),
        init_events()[39] == BusEvent::Command(PLL_CONTROL),
        init_events()[43] == BusEvent::Command(LUT_FOR_VCOM),
        forall|i: int| 0 <= i < 43 ==> !is_lut_load_command(#[trigger] init_events()[i]),
{
    assert forall|i: int| 0 <= i < 43 implies !is_lut_load_command(
        #[trigger] init_events()[i],
    ) by {
        assert(!is_lut_load_command(init_events()[i]));
    }
}

} // verus!
